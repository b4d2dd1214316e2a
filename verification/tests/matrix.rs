use ray_tracer::helper::{equal, Axis, MathError};
use ray_tracer::matrix::Matrix;
use ray_tracer::tuple::Tuple;
use std::f32::consts::PI;

type Matrix32 = Matrix<f32>;
type Tuple32 = Tuple<f32>;

fn m4(data: Vec<f32>) -> Matrix32 {
    Matrix32::new_4x4_with_data(data).unwrap()
}

fn m3(data: Vec<f32>) -> Matrix32 {
    Matrix32::new_3x3_with_data(data).unwrap()
}

fn cells(m: &Matrix32) -> Vec<f32> {
    let mut out = Vec::new();
    for r in 0..m.rows() {
        for c in 0..m.columns() {
            out.push(m.get(r, c).unwrap());
        }
    }
    out
}

fn rotation(axis: Axis, radians: f32) -> Matrix32 {
    Matrix32::rotation(axis, radians.cos(), radians.sin())
}

fn assert_same(expected: &Matrix32, result: &Matrix32) {
    assert_eq!(expected.rows(), result.rows());
    assert_eq!(expected.columns(), result.columns());
    assert_eq!(cells(expected), cells(result));
}

#[test]
fn new_4x4_matrix() {
    let matrix_values: Vec<f32> = vec![
        1.0, 2.0, 3.0, 4.0, 5.5, 6.5, 7.5, 8.5, 9.0, 10.0, 11.0, 12.0, 13.5, 14.5, 15.5, 16.5,
    ];
    let matrix = Matrix::new_with_data(4, 4, matrix_values).unwrap();
    assert_eq!(matrix.get(0, 0), Ok(1.0));
    assert_eq!(matrix.get(0, 3), Ok(4.0));
    assert_eq!(matrix.get(1, 0), Ok(5.5));
    assert_eq!(matrix.get(1, 2), Ok(7.5));
    assert_eq!(matrix.get(2, 2), Ok(11.0));
    assert_eq!(matrix.get(3, 0), Ok(13.5));
    assert_eq!(matrix.get(3, 2), Ok(15.5));
}

#[test]
fn new_2x2_matrix() {
    let matrix_values: Vec<f32> = vec![-3.0, 5.0, 1.0, -2.0];
    let matrix = Matrix::new_with_data(2, 2, matrix_values).unwrap();
    assert_eq!(matrix.get(0, 0), Ok(-3.0));
    assert_eq!(matrix.get(0, 1), Ok(5.0));
    assert_eq!(matrix.get(1, 0), Ok(1.0));
    assert_eq!(matrix.get(1, 1), Ok(-2.0));
}

#[test]
fn new_3x3_matrix() {
    let matrix_values: Vec<f32> = vec![-3.0, 5.0, 0.0, 1.0, -2.0, -7.0, 0.0, 1.0, 1.0];
    let matrix = Matrix::new_with_data(3, 3, matrix_values).unwrap();
    assert_eq!(matrix.get(0, 0), Ok(-3.0));
    assert_eq!(matrix.get(1, 1), Ok(-2.0));
    assert_eq!(matrix.get(2, 2), Ok(1.0));
}

#[test]
fn multiplying_two_matrices() {
    let matrix_a = m4(vec![
        1.0, 2.0, 3.0, 4.0, 5.0, 6.0, 7.0, 8.0, 9.0, 8.0, 7.0, 6.0, 5.0, 4.0, 3.0, 2.0,
    ]);
    let matrix_b = m4(vec![
        -2.0, 1.0, 2.0, 3.0, 3.0, 2.0, 1.0, -1.0, 4.0, 3.0, 6.0, 5.0, 1.0, 2.0, 7.0, 8.0,
    ]);

    let expected = m4(vec![
        20.0, 22.0, 50.0, 48.0, 44.0, 54.0, 114.0, 108.0, 40.0, 58.0, 110.0, 102.0, 16.0, 26.0,
        46.0, 42.0,
    ]);
    let result = matrix_a.mul(&matrix_b).unwrap();

    assert_same(&expected, &result);
}

#[test]
fn multiply_matrix_and_tuple() {
    let matrix = m4(vec![
        1.0, 2.0, 3.0, 4.0, 2.0, 4.0, 4.0, 2.0, 8.0, 6.0, 4.0, 1.0, 0.0, 0.0, 0.0, 1.0,
    ]);
    let tuple = Tuple32::new(1.0, 2.0, 3.0, 1.0);
    let expected = Tuple32::new(18.0, 24.0, 33.0, 1.0);
    let result = matrix.mul_tuple(&tuple).unwrap();
    assert!(expected.equal(&result));
}

#[test]
fn transpose() {
    let matrix = m4(vec![
        0.0, 9.0, 3.0, 0.0, 9.0, 8.0, 0.0, 8.0, 1.0, 8.0, 5.0, 3.0, 0.0, 0.0, 5.0, 8.0,
    ]);
    let expected = m4(vec![
        0.0, 9.0, 1.0, 0.0, 9.0, 8.0, 8.0, 0.0, 3.0, 0.0, 5.0, 5.0, 0.0, 8.0, 3.0, 8.0,
    ]);
    let result = matrix.transpose();
    assert_same(&expected, &result);
}

#[test]
fn determinant() {
    let matrix = Matrix32::new_with_data(2, 2, vec![1.0, 5.0, -3.0, 2.0]).unwrap();
    let expected = 17.0;
    let result = matrix.determinant();
    assert_eq!(expected, result);
}

#[test]
fn submatrix_of_3x3() {
    let matrix =
        Matrix32::new_with_data(3, 3, vec![1.0, 5.0, 0.0, -3.0, 2.0, 7.0, 0.0, 6.0, -3.0]).unwrap();
    let expected = Matrix32::new_with_data(2, 2, vec![-3.0, 2.0, 0.0, 6.0]).unwrap();
    let result = matrix.submatrix(0, 2);
    assert_same(&expected, &result);
}

#[test]
fn submatrix_of_4x4() {
    let matrix = m4(vec![
        -6.0, 1.0, 1.0, 6.0, -8.0, 5.0, 8.0, 6.0, -1.0, 0.0, 8.0, 2.0, -7.0, 1.0, -1.0, 1.0,
    ]);
    let expected =
        Matrix32::new_with_data(3, 3, vec![-6.0, 1.0, 6.0, -8.0, 8.0, 6.0, -7.0, -1.0, 1.0])
            .unwrap();
    let result = matrix.submatrix(2, 1);
    assert_same(&expected, &result);
}

#[test]
fn minor() {
    let matrix = m3(vec![3.0, 5.0, 0.0, 2.0, -1.0, -7.0, 6.0, -1.0, 5.0]);
    let expected = 25.0;
    let result = matrix.minor(1, 0);
    assert_eq!(expected, result);
}

#[test]
fn cofactor() {
    let matrix = m3(vec![3.0, 5.0, 0.0, 2.0, -1.0, -7.0, 6.0, -1.0, 5.0]);
    assert_eq!(matrix.minor(0, 0), matrix.cofactor(0, 0));
    assert_eq!(matrix.minor(1, 0), -matrix.cofactor(1, 0));
}

#[test]
fn determinant_of_3x3() {
    let matrix = m3(vec![1.0, 2.0, 6.0, -5.0, 8.0, -4.0, 2.0, 6.0, 4.0]);
    assert_eq!(56.0, matrix.cofactor(0, 0));
    assert_eq!(12.0, matrix.cofactor(0, 1));
    assert_eq!(-46.0, matrix.cofactor(0, 2));
    assert_eq!(-196.0, matrix.determinant());
}

#[test]
fn determinant_of_4x4() {
    let matrix = m4(vec![
        -2.0, -8.0, 3.0, 5.0, -3.0, 1.0, 7.0, 3.0, 1.0, 2.0, -9.0, 6.0, -6.0, 7.0, 7.0, -9.0,
    ]);
    assert_eq!(690.0, matrix.cofactor(0, 0));
    assert_eq!(447.0, matrix.cofactor(0, 1));
    assert_eq!(210.0, matrix.cofactor(0, 2));
    assert_eq!(51.0, matrix.cofactor(0, 3));
    assert_eq!(-4071.0, matrix.determinant());
}

#[test]
fn matrix_is_invertible() {
    let matrix = m4(vec![
        6.0, 4.0, 4.0, 4.0, 5.0, 5.0, 7.0, 6.0, 4.0, -9.0, 3.0, -7.0, 9.0, 1.0, 7.0, -6.0,
    ]);
    let expected = true;
    let result = matrix.is_invertible();
    assert_eq!(expected, result);
}

#[test]
fn matrix_is_not_invertible() {
    let matrix = m4(vec![
        -4.0, 2.0, -2.0, -3.0, 9.0, 6.0, 2.0, 6.0, 0.0, -5.0, 1.0, -5.0, 0.0, 0.0, 0.0, 0.0,
    ]);
    let expected = false;
    let result = matrix.is_invertible();
    assert_eq!(expected, result);
}

#[test]
fn inverse_of_4x4_matrix() {
    let matrix = m4(vec![
        -5.0, 2.0, 6.0, -8.0, 1.0, -5.0, 1.0, 8.0, 7.0, 7.0, -6.0, -7.0, 1.0, -3.0, 7.0, 4.0,
    ]);
    let inversed = cells(&matrix.inverse().unwrap());
    let expected = cells(&m4(vec![
        0.21805, 0.45113, 0.24060, -0.04511, -0.80827, -1.45677, -0.44361, 0.52068, -0.07895,
        -0.22368, -0.05263, 0.19737, -0.52256, -0.81391, -0.30075, 0.30639,
    ]));
    assert_eq!(532.0, matrix.determinant());
    assert_eq!(-160.0, matrix.cofactor(2, 3));
    assert_eq!(105.0, matrix.cofactor(3, 2));
    assert_eq!(inversed.len(), 16);
    for i in 0..inversed.len() {
        assert!(equal(expected[i], inversed[i]));
    }
}

#[test]
fn inversing_4x4_matrices() {
    let matrix1 = m4(vec![
        8.0, -5.0, 9.0, 2.0, 7.0, 5.0, 6.0, 1.0, -6.0, 0.0, 9.0, 6.0, -3.0, 0.0, -9.0, -4.0,
    ]);
    let matrix2 = m4(vec![
        9.0, 3.0, 0.0, 9.0, -5.0, -2.0, -6.0, -3.0, -4.0, 9.0, 6.0, 4.0, -7.0, 6.0, 6.0, 2.0,
    ]);

    let expected1 = cells(&m4(vec![
        -0.15385, -0.15385, -0.28205, -0.53846, -0.07692, 0.12308, 0.02564, 0.03077, 0.35897,
        0.35897, 0.43590, 0.92308, -0.69231, -0.69231, -0.76923, -1.92308,
    ]));
    let expected2 = cells(&m4(vec![
        -0.04074, -0.07778, 0.14444, -0.22222, -0.07778, 0.03333, 0.36667, -0.33333, -0.02901,
        -0.14630, -0.10926, 0.12963, 0.17778, 0.06667, -0.26667, 0.33333,
    ]));
    let result1 = cells(&matrix1.inverse().unwrap());
    let result2 = cells(&matrix2.inverse().unwrap());

    for i in 0..expected1.len() {
        assert!(equal(expected1[i], result1[i]));
    }

    for i in 0..expected2.len() {
        assert!(equal(expected2[i], result2[i]));
    }
}

#[test]
fn multiplying_a_product_with_its_inverse() {
    let matrixa = m4(vec![
        3.0, -9.0, 7.0, 3.0, 3.0, -8.0, 2.0, -9.0, -4.0, 4.0, 4.0, 1.0, -6.0, 5.0, -1.0, 1.0,
    ]);

    let matrixb = m4(vec![
        8.0, 2.0, 2.0, 2.0, 3.0, -1.0, 7.0, 0.0, 7.0, 0.0, 5.0, 4.0, 6.0, -2.0, 0.0, 5.0,
    ]);
    let c = matrixa.mul(&matrixb).unwrap();
    let inversed = cells(&c.mul(&matrixb.inverse().unwrap()).unwrap());
    let first = cells(&matrixa);

    for i in 0..first.len() {
        println!("{}) {:?}, {:?}", i, first[i], inversed[i]);
        assert!(equal(first[i], inversed[i]));
    }
}

#[test]
fn multiplying_a_translation_matrix() {
    let transform = Matrix32::translation(5.0, -3.0, 2.0);
    let p = Tuple32::new_point(-3.0, 4.0, 5.0);
    let expected = Tuple32::new_point(2.0, 1.0, 7.0);
    let result = transform.mul_tuple(&p).unwrap();
    assert!(expected.equal(&result));
}

#[test]
fn multiplying_by_the_inverse_of_a_translation_matrix() {
    let transform = Matrix32::translation(5.0, -3.0, 2.0);
    let inv = transform.inverse().unwrap();
    let p = Tuple32::new_point(-3.0, 4.0, 5.0);
    let expected = Tuple32::new_point(-8.0, 7.0, 3.0);
    let result = inv.mul_tuple(&p).unwrap();
    assert!(expected.equal(&result));
}

#[test]
fn translation_does_not_affect_vectors() {
    let transform = Matrix32::translation(5.0, -3.0, 2.0);
    let v = Tuple32::new_vector(-3.0, 4.0, 5.0);
    let expected = Tuple32::new_vector(-3.0, 4.0, 5.0);
    let result = transform.mul_tuple(&v).unwrap();
    assert!(expected.equal(&result));
}

#[test]
fn scaling_matrix_applied_to_a_point() {
    let transform = Matrix32::scaling(2.0, 3.0, 4.0);
    let p = Tuple32::new_point(-4.0, 6.0, 8.0);
    let expected = Tuple32::new_point(-8.0, 18.0, 32.0);
    let result = transform.mul_tuple(&p).unwrap();
    assert!(expected.equal(&result));
}

#[test]
fn scaling_matrix_applied_to_a_vector() {
    let transform = Matrix32::scaling(2.0, 3.0, 4.0);
    let p = Tuple32::new_vector(-4.0, 6.0, 8.0);
    let expected = Tuple32::new_vector(-8.0, 18.0, 32.0);
    let result = transform.mul_tuple(&p).unwrap();
    assert!(expected.equal(&result));
}

#[test]
fn multiplying_by_the_inverse_of_a_scaling_matrix() {
    let transform = Matrix32::scaling(2.0, 3.0, 4.0);
    let inv = transform.inverse().unwrap();
    let v = Tuple32::new_vector(-4.0, 6.0, 8.0);
    let expected = Tuple32::new_vector(-2.0, 2.0, 2.0);
    let result = inv.mul_tuple(&v).unwrap();
    assert!(expected.equal(&result));
}

#[test]
fn reflection_is_scaling_by_a_negative_value() {
    let transform = Matrix32::scaling(-1.0, 1.0, 1.0);
    let p = Tuple32::new_point(2.0, 3.0, 4.0);
    let expected = Tuple32::new_point(-2.0, 3.0, 4.0);
    let result = transform.mul_tuple(&p).unwrap();
    assert!(expected.equal(&result));
}

#[test]
fn rotating_a_point_around_x_axis() {
    let p = Tuple32::new_point(0.0, 1.0, 0.0);
    let half_quarter = rotation(Axis::X, PI / 4.0);
    let full_quarter = rotation(Axis::X, PI / 2.0);

    let expected1 = Tuple32::new_point(0.0, 2f32.sqrt() / 2f32, 2f32.sqrt() / 2f32);
    let expected2 = Tuple32::new_point(0.0, 0.0, 1.0);

    let result1 = half_quarter.mul_tuple(&p).unwrap();
    let result2 = full_quarter.mul_tuple(&p).unwrap();

    assert!(expected1.equal(&result1));
    assert!(expected2.equal(&result2));
}

#[test]
fn inverse_of_x_rotates_opposite_direction() {
    let p = Tuple32::new_point(0.0, 1.0, 0.0);
    let half_quarter = rotation(Axis::X, PI / 4.0);
    let inv = half_quarter.inverse().unwrap();

    let expected = Tuple32::new_point(0.0, 2f32.sqrt() / 2f32, -(2f32.sqrt()) / 2f32);
    let result = inv.mul_tuple(&p).unwrap();
    assert!(expected.equal(&result));
}

#[test]
fn rotating_a_point_around_y_axis() {
    let p = Tuple32::new_point(0.0, 0.0, 1.0);
    let half_quarter = rotation(Axis::Y, PI / 4.0);
    let full_quarter = rotation(Axis::Y, PI / 2.0);

    let expected1 = Tuple32::new_point(2f32.sqrt() / 2f32, 0.0, 2f32.sqrt() / 2f32);
    let expected2 = Tuple32::new_point(1.0, 0.0, 0.0);

    let result1 = half_quarter.mul_tuple(&p).unwrap();
    let result2 = full_quarter.mul_tuple(&p).unwrap();

    assert!(expected1.equal(&result1));
    assert!(expected2.equal(&result2));
}

#[test]
fn rotating_a_point_around_z_axis() {
    let p = Tuple32::new_point(0.0, 1.0, 0.0);
    let half_quarter = rotation(Axis::Z, PI / 4.0);
    let full_quarter = rotation(Axis::Z, PI / 2.0);

    let expected1 = Tuple32::new_point(-(2f32.sqrt()) / 2f32, 2f32.sqrt() / 2f32, 0.0);
    let expected2 = Tuple32::new_point(-1.0, 0.0, 0.0);

    let result1 = half_quarter.mul_tuple(&p).unwrap();
    let result2 = full_quarter.mul_tuple(&p).unwrap();

    assert!(expected1.equal(&result1));
    assert!(expected2.equal(&result2));
}

#[test]
fn shearing_x_proportion_to_y() {
    let transform = Matrix32::shearing(1.0, 0.0, 0.0, 0.0, 0.0, 0.0);
    let p = Tuple32::new_point(2.0, 3.0, 4.0);

    let expected = Tuple32::new_point(5.0, 3.0, 4.0);
    let result = transform.mul_tuple(&p).unwrap();
    assert!(expected.equal(&result));
}

#[test]
fn shearing_x_proportion_to_z() {
    let transform = Matrix32::shearing(0.0, 1.0, 0.0, 0.0, 0.0, 0.0);
    let p = Tuple32::new_point(2.0, 3.0, 4.0);

    let expected = Tuple32::new_point(6.0, 3.0, 4.0);
    let result = transform.mul_tuple(&p).unwrap();
    assert!(expected.equal(&result));
}

#[test]
fn shearing_y_proportion_to_x() {
    let transform = Matrix32::shearing(0.0, 0.0, 1.0, 0.0, 0.0, 0.0);
    let p = Tuple32::new_point(2.0, 3.0, 4.0);

    let expected = Tuple32::new_point(2.0, 5.0, 4.0);
    let result = transform.mul_tuple(&p).unwrap();
    assert!(expected.equal(&result));
}

#[test]
fn shearing_y_proportion_to_z() {
    let transform = Matrix32::shearing(0.0, 0.0, 0.0, 1.0, 0.0, 0.0);
    let p = Tuple32::new_point(2.0, 3.0, 4.0);

    let expected = Tuple32::new_point(2.0, 7.0, 4.0);
    let result = transform.mul_tuple(&p).unwrap();
    assert!(expected.equal(&result));
}

#[test]
fn shearing_z_proportion_to_x() {
    let transform = Matrix32::shearing(0.0, 0.0, 0.0, 0.0, 1.0, 0.0);
    let p = Tuple32::new_point(2.0, 3.0, 4.0);

    let expected = Tuple32::new_point(2.0, 3.0, 6.0);
    let result = transform.mul_tuple(&p).unwrap();
    assert!(expected.equal(&result));
}

#[test]
fn shearing_z_proportion_to_y() {
    let transform = Matrix32::shearing(0.0, 0.0, 0.0, 0.0, 0.0, 1.0);
    let p = Tuple32::new_point(2.0, 3.0, 4.0);

    let expected = Tuple32::new_point(2.0, 3.0, 7.0);
    let result = transform.mul_tuple(&p).unwrap();
    assert!(expected.equal(&result));
}

#[test]
fn transformation_in_scale() {
    let p = Tuple32::new_point(1.0, 0.0, 1.0);
    let a = rotation(Axis::X, PI / 2f32);
    let b = Matrix32::scaling(5.0, 5.0, 5.0);
    let c = Matrix32::translation(10.0, 5.0, 7.0);

    let expected_p2 = Tuple32::new_point(1.0, -1.0, 0.0);
    let p2 = a.mul_tuple(&p).unwrap();
    assert!(expected_p2.equal(&p2));

    let expected_p3 = Tuple32::new_point(5.0, -5.0, 0.0);
    let p3 = b.mul_tuple(&p2).unwrap();
    assert!(expected_p3.equal(&p3));

    let expected_p4 = Tuple32::new_point(15.0, 0.0, 7.0);
    let p4 = c.mul_tuple(&p3).unwrap();
    assert!(expected_p4.equal(&p4));

    let expected_result = Tuple32::new_point(15.0, 0.0, 7.0);
    let result = c.mul(&b).unwrap().mul(&a).unwrap().mul_tuple(&p).unwrap();
    assert!(expected_result.equal(&result));
}

#[test]
fn deneme12() {
    let twelve = Tuple32::new_point(0.0, 0.0, 1.0);
    let rotation_radius = PI / 6f32;

    let r = rotation(Axis::Y, 3.0 * rotation_radius);
    let three = r.mul_tuple(&twelve).unwrap();
    println!("{:?}", three);
    assert!(three.equal(&Tuple32::new_point(1.0, 0.0, 0.0)));
}

#[test]
fn zero_matrix_has_its_shape_and_only_zeros() {
    let m = Matrix32::new(2, 3);
    assert_eq!((m.rows(), m.columns()), (2, 3));
    assert_eq!(cells(&m), vec![0.0; 6]);
    let empty = Matrix32::new(0, 5);
    assert_eq!((empty.rows(), empty.columns()), (0, 5));
    assert_eq!(empty.get(0, 0), Err(MathError::OutOfBounds));
}

#[test]
fn data_of_the_wrong_length_is_a_shape_mismatch() {
    assert!(matches!(
        Matrix32::new_with_data(2, 2, vec![1.0, 2.0, 3.0]),
        Err(MathError::ShapeMismatch)
    ));
    assert!(matches!(
        Matrix32::new_with_data(2, 2, vec![1.0, 2.0, 3.0, 4.0, 5.0]),
        Err(MathError::ShapeMismatch)
    ));
    assert!(matches!(Matrix32::new_4x4_with_data(vec![1.0; 15]), Err(MathError::ShapeMismatch)));
    assert!(matches!(Matrix32::new_3x3_with_data(vec![1.0; 16]), Err(MathError::ShapeMismatch)));
    assert!(matches!(
        Matrix32::new_with_data(usize::MAX, 2, vec![1.0, 2.0]),
        Err(MathError::ShapeMismatch)
    ));
    assert!(Matrix32::new_with_data(0, 7, vec![]).is_ok());
}

#[test]
fn get_outside_the_shape_is_out_of_bounds() {
    let m = Matrix32::new_with_data(2, 3, vec![1.0, 2.0, 3.0, 4.0, 5.0, 6.0]).unwrap();
    assert_eq!(m.get(1, 2), Ok(6.0));
    assert_eq!(m.get(0, 2), Ok(3.0));
    assert_eq!(m.get(2, 0), Err(MathError::OutOfBounds));
    assert_eq!(m.get(0, 3), Err(MathError::OutOfBounds));
    assert_eq!(m.get(1, 3), Err(MathError::OutOfBounds));
}

#[test]
fn set_replaces_one_cell() {
    let mut m = Matrix32::new_with_data(2, 3, vec![1.0, 2.0, 3.0, 4.0, 5.0, 6.0]).unwrap();
    assert_eq!(m.set(1, 0, 9.0), Ok(()));
    assert_eq!(cells(&m), vec![1.0, 2.0, 3.0, 9.0, 5.0, 6.0]);
}

#[test]
fn set_outside_the_shape_is_out_of_bounds() {
    let mut m = Matrix32::new_with_data(2, 3, vec![1.0, 2.0, 3.0, 4.0, 5.0, 6.0]).unwrap();
    assert_eq!(m.set(2, 0, 9.0), Err(MathError::OutOfBounds));
    assert_eq!(m.set(0, 3, 9.0), Err(MathError::OutOfBounds));
    assert_eq!(cells(&m), vec![1.0, 2.0, 3.0, 4.0, 5.0, 6.0]);
}

#[test]
fn identity_matrix() {
    let m = Matrix32::new_identity_matrix();
    assert_same(
        &m,
        &m4(vec![1.0, 0.0, 0.0, 0.0, 0.0, 1.0, 0.0, 0.0, 0.0, 0.0, 1.0, 0.0, 0.0, 0.0, 0.0, 1.0]),
    );
}

#[test]
fn identity_times_a_tuple_is_the_tuple() {
    let t = Tuple32::new(1.5, -2.25, 3.0, 1.0);
    let r = Matrix32::new_identity_matrix().mul_tuple(&t).unwrap();
    assert_eq!((r.x, r.y, r.z, r.w), (1.5, -2.25, 3.0, 1.0));
}

#[test]
fn transpose_of_a_matrix_that_is_not_square() {
    let m = Matrix32::new_with_data(2, 3, vec![1.0, 2.0, 3.0, 4.0, 5.0, 6.0]).unwrap();
    let t = m.transpose();
    assert_eq!((t.rows(), t.columns()), (3, 2));
    assert_eq!(cells(&t), vec![1.0, 4.0, 2.0, 5.0, 3.0, 6.0]);
}

#[test]
fn transposing_twice_gives_the_matrix_back() {
    let m = Matrix32::new_with_data(2, 3, vec![1.0, 2.0, 3.0, 4.0, 5.0, 6.0]).unwrap();
    assert_same(&m, &m.transpose().transpose());
}

#[test]
fn submatrix_of_a_matrix_that_is_not_square() {
    let m = Matrix32::new_with_data(2, 3, vec![1.0, 2.0, 3.0, 4.0, 5.0, 6.0]).unwrap();
    let s = m.submatrix(0, 1);
    assert_eq!((s.rows(), s.columns()), (1, 2));
    assert_eq!(cells(&s), vec![4.0, 6.0]);
    let last = m.submatrix(1, 2);
    assert_eq!(cells(&last), vec![1.0, 2.0]);
}

#[test]
fn product_of_matrices_that_are_not_square() {
    let a = Matrix32::new_with_data(2, 3, vec![1.0, 2.0, 3.0, 4.0, 5.0, 6.0]).unwrap();
    let b = Matrix32::new_with_data(3, 2, vec![7.0, 8.0, 9.0, 10.0, 11.0, 12.0]).unwrap();
    let p = a.mul(&b).unwrap();
    assert_eq!((p.rows(), p.columns()), (2, 2));
    assert_eq!(cells(&p), vec![58.0, 64.0, 139.0, 154.0]);
}

#[test]
fn product_of_unfit_shapes_is_a_dimension_mismatch() {
    let a = Matrix32::new_with_data(2, 3, vec![1.0, 2.0, 3.0, 4.0, 5.0, 6.0]).unwrap();
    assert!(matches!(a.mul(&a), Err(MathError::DimensionMismatch)));
    let b = m4(vec![1.0; 16]);
    assert!(matches!(a.mul(&b), Err(MathError::DimensionMismatch)));
    assert!(matches!(b.mul(&a), Err(MathError::DimensionMismatch)));
}

#[test]
fn product_with_a_tuple_needs_four_rows_and_columns() {
    let t = Tuple32::new(1.0, 2.0, 3.0, 1.0);
    let a = m3(vec![1.0; 9]);
    assert!(matches!(a.mul_tuple(&t), Err(MathError::DimensionMismatch)));
    let b = Matrix32::new_with_data(4, 3, vec![1.0; 12]).unwrap();
    assert!(matches!(b.mul_tuple(&t), Err(MathError::DimensionMismatch)));
    let c = Matrix32::new_with_data(3, 4, vec![1.0; 12]).unwrap();
    assert!(matches!(c.mul_tuple(&t), Err(MathError::DimensionMismatch)));
}

#[test]
fn inverse_of_a_singular_matrix_is_not_invertible() {
    let matrix = m4(vec![
        -4.0, 2.0, -2.0, -3.0, 9.0, 6.0, 2.0, 6.0, 0.0, -5.0, 1.0, -5.0, 0.0, 0.0, 0.0, 0.0,
    ]);
    assert!(matches!(matrix.inverse(), Err(MathError::NotInvertible)));
}

#[test]
fn a_determinant_within_the_tolerance_is_not_invertible() {
    let m = Matrix32::scaling(0.01, 0.01, 0.01);
    assert!(!m.is_invertible());
    assert!(matches!(m.inverse(), Err(MathError::NotInvertible)));
    let n = Matrix32::scaling(-0.1, 0.1, 0.1);
    assert!(n.is_invertible());
}

#[test]
fn inverse_of_a_3x3_matrix() {
    let m = m3(vec![2.0, 0.0, 0.0, 0.0, 4.0, 0.0, 0.0, 0.0, 8.0]);
    let inv = m.inverse().unwrap();
    assert_eq!(cells(&inv), vec![0.5, 0.0, 0.0, 0.0, 0.25, 0.0, 0.0, 0.0, 0.125]);
}

#[test]
fn end_to_end_determinant_cofactor_and_inverse() {
    let m = m4(vec![
        -2.0, -8.0, 3.0, 5.0, -3.0, 1.0, 7.0, 3.0, 1.0, 2.0, -9.0, 6.0, -6.0, 7.0, 7.0, -9.0,
    ]);
    assert_eq!(m.determinant(), -4071.0);
    assert_eq!(m.cofactor(0, 0), 690.0);
    let inv = m.inverse().unwrap();
    assert!(equal(inv.get(0, 0).unwrap(), 690.0 / -4071.0));
    assert!(m.mul(&inv).unwrap().equal(&Matrix32::new_identity_matrix()));
}

#[test]
fn inverse_of_the_4x4_example_starts_with_0_21805() {
    let m = m4(vec![
        -5.0, 2.0, 6.0, -8.0, 1.0, -5.0, 1.0, 8.0, 7.0, 7.0, -6.0, -7.0, 1.0, -3.0, 7.0, 4.0,
    ]);
    assert!(equal(m.inverse().unwrap().get(0, 0).unwrap(), 0.21805));
}

#[test]
fn inverse_of_the_inverse_is_the_matrix() {
    let m = m4(vec![
        2.0, 0.0, 0.0, 5.0, 0.0, 4.0, 0.0, -3.0, 0.0, 0.0, 8.0, 2.0, 0.0, 0.0, 0.0, 1.0,
    ]);
    let inv = m.inverse().unwrap();
    assert_eq!(
        cells(&inv),
        vec![0.5, 0.0, 0.0, -2.5, 0.0, 0.25, 0.0, 0.75, 0.0, 0.0, 0.125, -0.25, 0.0, 0.0, 0.0, 1.0]
    );
    assert!(m.equal(&inv.inverse().unwrap()));
}

#[test]
fn inverse_of_the_inverse_is_the_matrix_up_to_rounding() {
    let m = m4(vec![
        8.0, -5.0, 9.0, 2.0, 7.0, 5.0, 6.0, 1.0, -6.0, 0.0, 9.0, 6.0, -3.0, 0.0, -9.0, -4.0,
    ]);
    let back = m.inverse().unwrap().inverse().unwrap();
    let (a, b) = (cells(&m), cells(&back));
    for i in 0..16 {
        assert!((a[i] - b[i]).abs() < 0.001);
    }
}

#[test]
fn inverse_of_the_transpose_is_the_transpose_of_the_inverse() {
    let m = m4(vec![
        -2.0, -8.0, 3.0, 5.0, -3.0, 1.0, 7.0, 3.0, 1.0, 2.0, -9.0, 6.0, -6.0, 7.0, 7.0, -9.0,
    ]);
    let left = m.transpose().inverse().unwrap();
    let right = m.inverse().unwrap().transpose();
    assert!(left.equal(&right));
}

#[test]
fn composing_transforms_is_applying_them_in_turn() {
    let a = rotation(Axis::Z, PI / 3.0);
    let b = Matrix32::scaling(2.0, 3.0, 4.0);
    let c = Matrix32::translation(1.0, -2.0, 3.0);
    let p = Tuple32::new_point(1.0, 2.0, 3.0);
    let at_once = c.mul(&b).unwrap().mul(&a).unwrap().mul_tuple(&p).unwrap();
    let in_turn = c
        .mul_tuple(&b.mul_tuple(&a.mul_tuple(&p).unwrap()).unwrap())
        .unwrap();
    assert!(at_once.equal(&in_turn));
}

#[test]
fn matrices_are_equal_within_the_tolerance() {
    let a = m3(vec![1.0, 2.0, 3.0, 4.0, 5.0, 6.0, 7.0, 8.0, 9.0]);
    let b = m3(vec![1.0, 2.0, 3.0, 4.0, 5.000001, 6.0, 7.0, 8.0, 9.0]);
    let c = m3(vec![1.0, 2.0, 3.0, 4.0, 5.001, 6.0, 7.0, 8.0, 9.0]);
    assert!(a.equal(&b));
    assert!(!a.equal(&c));
    let d = Matrix32::new_with_data(1, 9, cells(&a)).unwrap();
    assert!(!a.equal(&d));
}

#[test]
fn translation_layout() {
    assert_eq!(
        cells(&Matrix32::translation(5.0, -3.0, 2.0)),
        vec![1.0, 0.0, 0.0, 5.0, 0.0, 1.0, 0.0, -3.0, 0.0, 0.0, 1.0, 2.0, 0.0, 0.0, 0.0, 1.0]
    );
}

#[test]
fn scaling_layout() {
    assert_eq!(
        cells(&Matrix32::scaling(2.0, 3.0, 4.0)),
        vec![2.0, 0.0, 0.0, 0.0, 0.0, 3.0, 0.0, 0.0, 0.0, 0.0, 4.0, 0.0, 0.0, 0.0, 0.0, 1.0]
    );
}

#[test]
fn shearing_layout() {
    assert_eq!(
        cells(&Matrix32::shearing(2.0, 3.0, 4.0, 5.0, 6.0, 7.0)),
        vec![1.0, 2.0, 3.0, 0.0, 4.0, 1.0, 5.0, 0.0, 6.0, 7.0, 1.0, 0.0, 0.0, 0.0, 0.0, 1.0]
    );
}

#[test]
fn rotation_layout_mirrors_the_signs_for_the_y_axis() {
    let (c, s) = (0.6f32, 0.8f32);
    assert_eq!(
        cells(&Matrix32::rotation(Axis::X, c, s)),
        vec![1.0, 0.0, 0.0, 0.0, 0.0, c, -s, 0.0, 0.0, s, c, 0.0, 0.0, 0.0, 0.0, 1.0]
    );
    assert_eq!(
        cells(&Matrix32::rotation(Axis::Y, c, s)),
        vec![c, 0.0, s, 0.0, 0.0, 1.0, 0.0, 0.0, -s, 0.0, c, 0.0, 0.0, 0.0, 0.0, 1.0]
    );
    assert_eq!(
        cells(&Matrix32::rotation(Axis::Z, c, s)),
        vec![c, -s, 0.0, 0.0, s, c, 0.0, 0.0, 0.0, 0.0, 1.0, 0.0, 0.0, 0.0, 0.0, 1.0]
    );
}

#[test]
fn determinant_over_integers_is_exact() {
    let m = Matrix::<i64>::new_4x4_with_data(vec![
        -2, -8, 3, 5, -3, 1, 7, 3, 1, 2, -9, 6, -6, 7, 7, -9,
    ])
    .unwrap();
    assert_eq!(m.determinant(), -4071);
    assert_eq!(m.cofactor(0, 0), 690);
    assert_eq!(m.cofactor(0, 1), 447);
    assert_eq!(m.minor(0, 1), -447);
}
