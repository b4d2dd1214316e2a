use ray_tracer::helper::{equal, MathError};
use ray_tracer::tuple::Tuple;

type Tuple32 = Tuple<f32>;

fn magnitude(t: &Tuple32) -> f32 {
    t.dot(t).sqrt()
}

#[test]
fn tuple_is_point_when_w_is_1() {
    let a = Tuple32::new(4.3, -4.2, 3.1, 1.0);
    assert!(a.is_a_point());
    assert!(!a.is_a_vector());
}

#[test]
fn tuple_is_vector_when_w_is_0() {
    let a = Tuple32::new(4.3, -4.2, 3.1, 0.0);
    assert!(!a.is_a_point());
    assert!(a.is_a_vector());
}

#[test]
fn creates_position_with_w_is_1() {
    let a = Tuple32::new_point(4.0, -4.0, 3.0);
    assert!(a.equal(&Tuple32::new(4.0, -4.0, 3.0, 1.0)));
    assert_eq!(a.w, 1.0);
}

#[test]
fn creates_position_with_w_is_0() {
    let a = Tuple32::new_vector(4.0, -4.0, 3.0);
    assert!(a.equal(&Tuple32::new(4.0, -4.0, 3.0, 0.0)));
    assert_eq!(a.w, 0.0);
}

#[test]
fn add_two_positions() {
    let a = Tuple32::new(3.0, -2.0, 5.0, 1.0);
    let b = Tuple32::new(-2.0, 3.0, 1.0, 0.0);
    let expected = Tuple32::new(1.0, 1.0, 6.0, 1.0);
    let result = a.add(&b);
    assert!(result.equal(&expected));
}

#[test]
fn subtract_two_positions() {
    let a = Tuple32::new_point(3.0, 2.0, 1.0);
    let b = Tuple32::new_point(5.0, 6.0, 7.0);
    let expected = Tuple32::new_vector(-2.0, -4.0, -6.0);
    let result = a.sub(&b);
    assert!(result.equal(&expected));
}

#[test]
fn subtract_vector_from_point() {
    let a = Tuple32::new_point(3.0, 2.0, 1.0);
    let b = Tuple32::new_vector(5.0, 6.0, 7.0);
    let expected = Tuple32::new_point(-2.0, -4.0, -6.0);
    let result = a.sub(&b);
    assert!(result.equal(&expected));
}

#[test]
fn subtract_two_vectors() {
    let v1 = Tuple32::new_vector(3.0, 2.0, 1.0);
    let v2 = Tuple32::new_vector(5.0, 6.0, 7.0);
    let expected = Tuple32::new_vector(-2.0, -4.0, -6.0);
    let result = v1.sub(&v2);
    assert!(result.equal(&expected));
}

#[test]
fn negate_a_position() {
    let a = Tuple32::new(1.0, -2.0, 3.0, -4.0);
    let expected = Tuple32::new(-1.0, 2.0, -3.0, 4.0);
    let result = a.negate();
    assert!(result.equal(&expected));
}

#[test]
fn multiply_a_position() {
    let a = Tuple32::new(1.0, -2.0, 3.0, -4.0);
    assert!(a.multiply(3.5).equal(&Tuple32::new(3.5, -7.0, 10.5, -14.0)));
    assert!(a.multiply(0.5).equal(&Tuple32::new(0.5, -1.0, 1.5, -2.0)));
}

#[test]
fn compute_magnitude() {
    let v1 = Tuple32::new_vector(1.0, 0.0, 0.0);
    let v2 = Tuple32::new_vector(0.0, 1.0, 0.0);
    let v3 = Tuple32::new_vector(0.0, 0.0, 1.0);
    let v4 = Tuple32::new_vector(1.0, 2.0, 3.0);
    let v5 = Tuple32::new_vector(-1.0, -2.0, -3.0);

    assert_eq!(magnitude(&v1), 1.0);
    assert_eq!(magnitude(&v2), 1.0);
    assert_eq!(magnitude(&v3), 1.0);
    assert_eq!(magnitude(&v4), 3.7416575);
    assert_eq!(magnitude(&v5), 3.7416575);
}

#[test]
fn compute_normalizing() {
    let v1 = Tuple32::new_vector(4.0, 0.0, 0.0);
    let v2 = Tuple32::new_vector(1.0, 2.0, 3.0);

    assert!(v1.normalize(magnitude(&v1)).unwrap().equal(&Tuple32::new_vector(1.0, 0.0, 0.0)));
    assert!(v2
        .normalize(magnitude(&v2))
        .unwrap()
        .equal(&Tuple32::new_vector(0.26726, 0.53452, 0.80178)));
}

#[test]
fn magnitude_of_a_normalized_vector() {
    let v = Tuple32::new_vector(1.0, 2.0, 3.0);
    let norm = v.normalize(magnitude(&v)).unwrap();
    assert!(equal(magnitude(&norm), 1.0));
}

#[test]
fn dot_product_of_two_vectors_are_correct() {
    let a = Tuple32::new_vector(1.0, 2.0, 3.0);
    let b = Tuple32::new_vector(2.0, 3.0, 4.0);
    assert_eq!(a.dot(&b), 20.0);
}

#[test]
fn cross_product_of_two_vectors_are_correct() {
    let a = Tuple32::new_vector(1.0, 2.0, 3.0);
    let b = Tuple32::new_vector(2.0, 3.0, 4.0);
    assert!(a.cross(&b).equal(&Tuple32::new_vector(-1.0, 2.0, -1.0)));
    assert!(b.cross(&a).equal(&Tuple32::new_vector(1.0, -2.0, 1.0)));
}

#[test]
fn normalizing_the_zero_vector_fails() {
    let v = Tuple32::new_vector(0.0, 0.0, 0.0);
    let r = v.normalize(magnitude(&v));
    assert!(matches!(r, Err(MathError::DegenerateVector)));
}

#[test]
fn normalizing_divides_every_component() {
    let t = Tuple32::new(2.0, -4.0, 6.0, 8.0);
    let r = t.normalize(2.0).unwrap();
    assert_eq!((r.x, r.y, r.z, r.w), (1.0, -2.0, 3.0, 4.0));
}

#[test]
fn adding_two_points_gives_w_of_two() {
    let a = Tuple32::new_point(1.0, 2.0, 3.0);
    let b = Tuple32::new_point(4.0, 5.0, 6.0);
    let r = a.add(&b);
    assert_eq!((r.x, r.y, r.z, r.w), (5.0, 7.0, 9.0, 2.0));
    assert!(!r.is_a_point());
    assert!(!r.is_a_vector());
}

#[test]
fn point_plus_vector_is_a_point() {
    let p = Tuple32::new_point(1.0, 2.0, 3.0);
    let v = Tuple32::new_vector(1.0, 1.0, 1.0);
    assert!(p.add(&v).is_a_point());
    assert!(v.add(&v).is_a_vector());
    assert!(p.sub(&p).is_a_vector());
    assert!(p.sub(&v).is_a_point());
}

#[test]
fn negation_and_scaling_include_w() {
    let a = Tuple32::new(1.0, -2.0, 3.0, 1.0);
    assert_eq!(a.negate().w, -1.0);
    assert_eq!(a.multiply(2.0).w, 2.0);
}

#[test]
fn dot_product_includes_w() {
    let a = Tuple32::new(1.0, 2.0, 3.0, 4.0);
    let b = Tuple32::new(5.0, 6.0, 7.0, 8.0);
    assert_eq!(a.dot(&b), 70.0);
}

#[test]
fn cross_product_ignores_w_and_is_a_vector() {
    let a = Tuple32::new(1.0, 0.0, 0.0, 5.0);
    let b = Tuple32::new(0.0, 1.0, 0.0, 7.0);
    let r = a.cross(&b);
    assert_eq!((r.x, r.y, r.z, r.w), (0.0, 0.0, 1.0, 0.0));
}

#[test]
fn cross_product_is_anti_commutative() {
    let a = Tuple32::new_vector(1.5, -2.0, 3.25);
    let b = Tuple32::new_vector(-4.0, 0.5, 2.0);
    let left = a.cross(&b);
    let right = b.cross(&a).negate();
    assert_eq!((left.x, left.y, left.z), (right.x, right.y, right.z));
    assert!(left.equal(&right));
}

#[test]
fn equality_uses_the_tolerance() {
    let a = Tuple32::new(1.0, 2.0, 3.0, 0.0);
    assert!(a.equal(&Tuple32::new(1.000001, 2.0, 3.0, 0.0)));
    assert!(!a.equal(&Tuple32::new(1.0001, 2.0, 3.0, 0.0)));
    assert!(!a.equal(&Tuple32::new(1.0, 2.0, 3.0, 0.0001)));
}

#[test]
fn tuples_over_integers_are_exact() {
    let a = Tuple::<i64>::new_point(3, -2, 5);
    let b = Tuple::<i64>::new_vector(-2, 3, 1);
    let r = a.add(&b);
    assert_eq!((r.x, r.y, r.z, r.w), (1, 1, 6, 1));
    assert_eq!(a.dot(&b), -7);
    let c = a.cross(&b);
    assert_eq!((c.x, c.y, c.z, c.w), (-17, -13, 5, 0));
}
