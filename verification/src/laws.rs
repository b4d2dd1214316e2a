use crate::grid::Grid;
use crate::helper::{spec_abs, spec_epsilon, spec_one, spec_ten, spec_zero, MathError, Number};
use crate::reals::{
    cofactor4, det4, lemma_cofactor4_transposed, lemma_det4_transposed, lemma_det4_values,
    lemma_minor3_values, lemma_quotient_of_itself, lemma_row_by_cofactors,
    lemma_row_by_quotients, lemma_row_matrix_column, lemma_square_of_quotient,
    lemma_sum_of_quotients, lemma_times_negation, minor2, minor3, skip,
};
use crate::tuple::Tuple;
use vstd::prelude::*;
use vstd::std_specs::cmp::*;
use vstd::std_specs::ops::*;

verus! {

/// `value` reads the scalars of `T` as real numbers, faithfully: scalars with
/// one value are one scalar, the literals have their values, and every
/// operator and comparison of `T` is that of the real numbers. Division is
/// bound only for a divisor other than zero.
///
/// The laws of this module hold for such scalars. They do not hold for
/// floating-point numbers, whose operators round.
pub open spec fn models<T: Number>(value: spec_fn(T) -> real) -> bool {
    &&& forall|a: T, b: T| #[trigger] value(a) == #[trigger] value(b) ==> a == b
    &&& value(spec_zero::<T>()) == 0real
    &&& value(spec_one::<T>()) == 1real
    &&& value(spec_ten::<T>()) == 10real
    &&& forall|a: T, b: T| #[trigger] value(a.add_spec(b)) == value(a) + value(b)
    &&& forall|a: T, b: T| #[trigger] value(a.sub_spec(b)) == value(a) - value(b)
    &&& forall|a: T, b: T| #[trigger] value(a.mul_spec(b)) == value(a) * value(b)
    &&& forall|a: T, b: T|
        value(b) != 0real ==> #[trigger] value(a.div_spec(b)) == value(a) / value(b)
    &&& forall|a: T| #[trigger] value(a.neg_spec()) == -value(a)
    &&& forall|a: T, b: T| #[trigger] a.eq_spec(&b) <==> value(a) == value(b)
    &&& forall|a: T, b: T|
        #![trigger a.partial_cmp_spec(&b)]
        {
            &&& a.is_lt(&b) <==> value(a) < value(b)
            &&& a.is_gt(&b) <==> value(a) > value(b)
        }
}

/// Sums and differences of points and vectors: a point plus a vector is a
/// point, a vector plus a vector a vector, a point less a point a vector, a
/// point less a vector a point, and a vector less a vector a vector.
pub proof fn law_points_and_vectors<T: Number>(
    value: spec_fn(T) -> real,
    p: Tuple<T>,
    q: Tuple<T>,
    u: Tuple<T>,
    v: Tuple<T>,
)
    requires
        models(value),
        p.w == spec_one::<T>(),
        q.w == spec_one::<T>(),
        u.w == spec_zero::<T>(),
        v.w == spec_zero::<T>(),
    ensures
        p.spec_add(u).w == spec_one::<T>(),
        u.spec_add(v).w == spec_zero::<T>(),
        p.spec_sub(q).w == spec_zero::<T>(),
        p.spec_sub(u).w == spec_one::<T>(),
        u.spec_sub(v).w == spec_zero::<T>(),
{
    assert(value(p.spec_add(u).w) == 1real);
    assert(value(u.spec_add(v).w) == 0real);
    assert(value(p.spec_sub(q).w) == 0real);
    assert(value(p.spec_sub(u).w) == 1real);
    assert(value(u.spec_sub(v).w) == 0real);
}

/// Normalizing a tuple by its magnitude, a number other than zero whose
/// square is the dot product of the tuple with itself, succeeds and gives a
/// tuple of magnitude one: its dot product with itself is one.
pub proof fn law_normalize_unit<T: Number>(value: spec_fn(T) -> real, t: Tuple<T>, magnitude: T)
    requires
        models(value),
        value(magnitude) != 0real,
        magnitude.mul_spec(magnitude) == t.spec_dot(t),
    ensures
        t.spec_normalize(magnitude) == Ok::<Tuple<T>, MathError>(t.spec_divide(magnitude)),
        t.spec_divide(magnitude).spec_dot(t.spec_divide(magnitude)) == spec_one::<T>(),
{
    let m = value(magnitude);
    let n = t.spec_divide(magnitude);
    let (x, y, z, w) = (value(t.x), value(t.y), value(t.z), value(t.w));
    lemma_square_of_quotient(x, m);
    lemma_square_of_quotient(y, m);
    lemma_square_of_quotient(z, m);
    lemma_square_of_quotient(w, m);
    lemma_sum_of_quotients(x * x, y * y, z * z, w * w, m * m);
    lemma_quotient_of_itself(m * m);
    assert(value(t.spec_dot(t)) == x * x + y * y + z * z + w * w);
    assert(value(n.spec_dot(n)) == (x / m) * (x / m) + (y / m) * (y / m) + (z / m) * (z / m) + (w
        / m) * (w / m));
    assert(value(n.spec_dot(n)) == 1real);
}

/// The identity leaves every tuple as it is.
pub proof fn law_identity_apply<T: Number>(value: spec_fn(T) -> real, t: Tuple<T>)
    requires
        models(value),
    ensures
        Grid::<T>::identity().apply(t) == t,
{
    let r = Grid::<T>::identity().apply(t);
    let (x, y, z, w) = (value(t.x), value(t.y), value(t.z), value(t.w));
    assert(value(r.x) == x) by (nonlinear_arith)
        requires
            value(r.x) == 1real * x + 0real * y + 0real * z + 0real * w,
    ;
    assert(value(r.y) == y) by (nonlinear_arith)
        requires
            value(r.y) == 0real * x + 1real * y + 0real * z + 0real * w,
    ;
    assert(value(r.z) == z) by (nonlinear_arith)
        requires
            value(r.z) == 0real * x + 0real * y + 1real * z + 0real * w,
    ;
    assert(value(r.w) == w) by (nonlinear_arith)
        requires
            value(r.w) == 0real * x + 0real * y + 0real * z + 1real * w,
    ;
}

/// Transposing twice gives the grid back.
pub proof fn law_transpose_twice<T: Number>(g: Grid<T>)
    requires
        g.wf(),
    ensures
        g.transpose().transpose() == g,
{
    g.transpose().transpose().lemma_equal(g);
}

/// A translation leaves every vector as it is.
pub proof fn law_translation_keeps_vectors<T: Number>(
    value: spec_fn(T) -> real,
    x: T,
    y: T,
    z: T,
    v: Tuple<T>,
)
    requires
        models(value),
        v.w == spec_zero::<T>(),
    ensures
        Grid::translation(x, y, z).apply(v) == v,
{
    let r = Grid::translation(x, y, z).apply(v);
    assert(value(r.x) == value(v.x)) by (nonlinear_arith)
        requires
            value(r.x) == 1real * value(v.x) + 0real * value(v.y) + 0real * value(v.z) + value(x)
                * 0real,
    ;
    assert(value(r.y) == value(v.y)) by (nonlinear_arith)
        requires
            value(r.y) == 0real * value(v.x) + 1real * value(v.y) + 0real * value(v.z) + value(y)
                * 0real,
    ;
    assert(value(r.z) == value(v.z)) by (nonlinear_arith)
        requires
            value(r.z) == 0real * value(v.x) + 0real * value(v.y) + 1real * value(v.z) + value(z)
                * 0real,
    ;
    assert(value(r.w) == value(v.w));
}

/// The cross product changes its sign when its factors change places.
pub proof fn law_cross_anticommutes<T: Number>(value: spec_fn(T) -> real, a: Tuple<T>, b: Tuple<T>)
    requires
        models(value),
    ensures
        a.spec_cross(b) == b.spec_cross(a).spec_negate(),
{
    let l = a.spec_cross(b);
    let r = b.spec_cross(a).spec_negate();
    assert(value(l.x) == value(r.x)) by (nonlinear_arith)
        requires
            value(l.x) == value(a.y) * value(b.z) - value(a.z) * value(b.y),
            value(r.x) == -(value(b.y) * value(a.z) - value(b.z) * value(a.y)),
    ;
    assert(value(l.y) == value(r.y)) by (nonlinear_arith)
        requires
            value(l.y) == value(a.z) * value(b.x) - value(a.x) * value(b.z),
            value(r.y) == -(value(b.z) * value(a.x) - value(b.x) * value(a.z)),
    ;
    assert(value(l.z) == value(r.z)) by (nonlinear_arith)
        requires
            value(l.z) == value(a.x) * value(b.y) - value(a.y) * value(b.x),
            value(r.z) == -(value(b.x) * value(a.y) - value(b.y) * value(a.x)),
    ;
    assert(value(l.w) == value(r.w));
}

/// The value of a cell of the product of two four-by-four grids.
proof fn lemma_product_cell<T: Number>(
    value: spec_fn(T) -> real,
    m: Grid<T>,
    n: Grid<T>,
    r: int,
    c: int,
)
    requires
        models(value),
        m.wf(),
        n.wf(),
        m.rows == 4 && m.cols == 4,
        n.rows == 4 && n.cols == 4,
        0 <= r < 4,
        0 <= c < 4,
    ensures
        value(m.product(n).at(r, c)) == value(m.at(r, 0)) * value(n.at(0, c)) + value(m.at(r, 1))
            * value(n.at(1, c)) + value(m.at(r, 2)) * value(n.at(2, c)) + value(m.at(r, 3))
            * value(n.at(3, c)),
{
    reveal_with_fuel(Grid::row_by_column, 5);
    assert(m.product(n).at(r, c) == m.row_by_column(n, r, c, 4));
}

/// The value of a row of a four-by-four grid times a tuple.
proof fn lemma_row_by_tuple<T: Number>(value: spec_fn(T) -> real, m: Grid<T>, r: int, t: Tuple<T>)
    requires
        models(value),
    ensures
        value(m.row_by_tuple(r, t)) == value(m.at(r, 0)) * value(t.x) + value(m.at(r, 1)) * value(
            t.y,
        ) + value(m.at(r, 2)) * value(t.z) + value(m.at(r, 3)) * value(t.w),
{
}

/// One row of: applying a product is applying its factors in turn.
proof fn lemma_apply_product_row<T: Number>(
    value: spec_fn(T) -> real,
    m: Grid<T>,
    n: Grid<T>,
    p: Tuple<T>,
    r: int,
)
    requires
        models(value),
        m.wf(),
        n.wf(),
        m.rows == 4 && m.cols == 4,
        n.rows == 4 && n.cols == 4,
        0 <= r < 4,
    ensures
        m.product(n).row_by_tuple(r, p) == m.row_by_tuple(r, n.apply(p)),
{
    let q = n.apply(p);
    lemma_row_by_tuple(value, m.product(n), r, p);
    lemma_row_by_tuple(value, m, r, q);
    lemma_row_by_tuple(value, n, 0, p);
    lemma_row_by_tuple(value, n, 1, p);
    lemma_row_by_tuple(value, n, 2, p);
    lemma_row_by_tuple(value, n, 3, p);
    lemma_product_cell(value, m, n, r, 0);
    lemma_product_cell(value, m, n, r, 1);
    lemma_product_cell(value, m, n, r, 2);
    lemma_product_cell(value, m, n, r, 3);
    lemma_row_matrix_column(
        value(m.at(r, 0)),
        value(m.at(r, 1)),
        value(m.at(r, 2)),
        value(m.at(r, 3)),
        value(n.at(0, 0)),
        value(n.at(0, 1)),
        value(n.at(0, 2)),
        value(n.at(0, 3)),
        value(n.at(1, 0)),
        value(n.at(1, 1)),
        value(n.at(1, 2)),
        value(n.at(1, 3)),
        value(n.at(2, 0)),
        value(n.at(2, 1)),
        value(n.at(2, 2)),
        value(n.at(2, 3)),
        value(n.at(3, 0)),
        value(n.at(3, 1)),
        value(n.at(3, 2)),
        value(n.at(3, 3)),
        value(p.x),
        value(p.y),
        value(p.z),
        value(p.w),
    );
    assert(value(m.product(n).row_by_tuple(r, p)) == value(m.row_by_tuple(r, q)));
}

/// Applying the product of two four-by-four grids is applying the right
/// factor, then the left.
pub proof fn law_apply_product<T: Number>(
    value: spec_fn(T) -> real,
    m: Grid<T>,
    n: Grid<T>,
    p: Tuple<T>,
)
    requires
        models(value),
        m.wf(),
        n.wf(),
        m.rows == 4 && m.cols == 4,
        n.rows == 4 && n.cols == 4,
    ensures
        m.product(n).apply(p) == m.apply(n.apply(p)),
{
    lemma_apply_product_row(value, m, n, p, 0);
    lemma_apply_product_row(value, m, n, p, 1);
    lemma_apply_product_row(value, m, n, p, 2);
    lemma_apply_product_row(value, m, n, p, 3);
}

/// Transforms compose by the matrix product: applying `(c * b) * a` to a
/// tuple is applying `a`, then `b`, then `c`.
pub proof fn law_composition<T: Number>(
    value: spec_fn(T) -> real,
    a: Grid<T>,
    b: Grid<T>,
    c: Grid<T>,
    p: Tuple<T>,
)
    requires
        models(value),
        a.wf() && a.rows == 4 && a.cols == 4,
        b.wf() && b.rows == 4 && b.cols == 4,
        c.wf() && c.rows == 4 && c.cols == 4,
    ensures
        c.product(b).product(a).apply(p) == c.apply(b.apply(a.apply(p))),
{
    law_apply_product(value, c.product(b), a, p);
    law_apply_product(value, c, b, a.apply(p));
}

/// The values of the cells of a grid.
spec fn entries<T: Number>(value: spec_fn(T) -> real, g: Grid<T>) -> spec_fn(
    int,
    int,
) -> real {
    |r: int, c: int| value(g.at(r, c))
}

/// The value of the determinant of a three-by-three grid.
proof fn lemma_determinant3<T: Number>(value: spec_fn(T) -> real, s: Grid<T>)
    requires
        models(value),
        s.wf(),
        s.rows == 3 && s.cols == 3,
    ensures
        value(s.determinant()) == minor3(entries(value, s), 0, 1, 2, 0, 1, 2),
{
    let e = entries(value, s);
    reveal_with_fuel(Grid::expansion, 4);
    reveal(minor3);
    reveal(minor2);
    assert(value(s.cofactor(0, 0)) == minor2(e, 1, 2, 1, 2));
    assert(value(s.cofactor(0, 1)) == -minor2(e, 1, 2, 0, 2));
    assert(value(s.cofactor(0, 2)) == minor2(e, 1, 2, 0, 1));
    lemma_times_negation(e(0, 1), minor2(e, 1, 2, 0, 2));
    assert(s.determinant() == s.expansion(3));
    assert(s.expansion(1) == s.expansion(0).add_spec(s.at(0, 0).mul_spec(s.cofactor(0, 0))));
    assert(s.expansion(2) == s.expansion(1).add_spec(s.at(0, 1).mul_spec(s.cofactor(0, 1))));
    assert(s.expansion(3) == s.expansion(2).add_spec(s.at(0, 2).mul_spec(s.cofactor(0, 2))));
}

/// The value of a cofactor of a four-by-four grid.
proof fn lemma_cofactor4<T: Number>(value: spec_fn(T) -> real, g: Grid<T>, i: int, j: int)
    requires
        models(value),
        g.wf(),
        g.rows == 4 && g.cols == 4,
        0 <= i < 4,
        0 <= j < 4,
    ensures
        value(g.cofactor(i, j)) == cofactor4(entries(value, g), i, j),
{
    let s = g.submatrix(i, j);
    lemma_determinant3(value, s);
    lemma_minor3_values(
        entries(value, s),
        (0, 1, 2),
        (0, 1, 2),
        entries(value, g),
        (skip(i, 0), skip(i, 1), skip(i, 2)),
        (skip(j, 0), skip(j, 1), skip(j, 2)),
    );
}

/// The value of the determinant of a four-by-four grid.
proof fn lemma_determinant4<T: Number>(value: spec_fn(T) -> real, g: Grid<T>)
    requires
        models(value),
        g.wf(),
        g.rows == 4 && g.cols == 4,
    ensures
        value(g.determinant()) == det4(entries(value, g), 0, 1, 2, 3),
{
    let e = entries(value, g);
    reveal_with_fuel(Grid::expansion, 5);
    reveal(det4);
    lemma_cofactor4(value, g, 0, 0);
    lemma_cofactor4(value, g, 0, 1);
    lemma_cofactor4(value, g, 0, 2);
    lemma_cofactor4(value, g, 0, 3);
    lemma_times_negation(e(0, 1), minor3(e, 1, 2, 3, 0, 2, 3));
    lemma_times_negation(e(0, 3), minor3(e, 1, 2, 3, 0, 1, 2));
    assert(g.determinant() == g.expansion(4));
    assert(g.expansion(1) == g.expansion(0).add_spec(g.at(0, 0).mul_spec(g.cofactor(0, 0))));
    assert(g.expansion(2) == g.expansion(1).add_spec(g.at(0, 1).mul_spec(g.cofactor(0, 1))));
    assert(g.expansion(3) == g.expansion(2).add_spec(g.at(0, 2).mul_spec(g.cofactor(0, 2))));
    assert(g.expansion(4) == g.expansion(3).add_spec(g.at(0, 3).mul_spec(g.cofactor(0, 3))));
}

/// The value of the tolerance is one hundred-thousandth.
proof fn lemma_epsilon<T: Number>(value: spec_fn(T) -> real)
    requires
        models(value),
    ensures
        value(spec_epsilon::<T>()) == 1real / 100000real,
{
    let ten = spec_ten::<T>();
    assert(value(ten.mul_spec(ten)) == 100real);
    assert(value(ten.mul_spec(ten).mul_spec(ten)) == 1000real);
    assert(value(ten.mul_spec(ten).mul_spec(ten).mul_spec(ten)) == 10000real);
    assert(value(ten.mul_spec(ten).mul_spec(ten).mul_spec(ten).mul_spec(ten)) == 100000real);
}

/// A grid is invertible when the value of its determinant is further from
/// zero than one hundred-thousandth.
proof fn lemma_invertible<T: Number>(value: spec_fn(T) -> real, g: Grid<T>)
    requires
        models(value),
    ensures
        g.invertible() <==> (value(g.determinant()) > 1real / 100000real || -value(
            g.determinant(),
        ) > 1real / 100000real),
        g.invertible() ==> value(g.determinant()) != 0real,
{
    lemma_epsilon(value);
    let d = g.determinant();
    assert(d.is_lt(&spec_zero::<T>()) <==> value(d) < 0real);
    assert(spec_abs(d).is_gt(&spec_epsilon::<T>()) <==> value(spec_abs(d)) > value(
        spec_epsilon::<T>(),
    ));
}

/// The value of a cell of the inverse of an invertible four-by-four grid.
proof fn lemma_inverse_cell<T: Number>(value: spec_fn(T) -> real, g: Grid<T>, r: int, c: int)
    requires
        models(value),
        g.wf(),
        g.rows == 4 && g.cols == 4,
        g.invertible(),
        0 <= r < 4,
        0 <= c < 4,
    ensures
        value(g.inverse().at(r, c)) == cofactor4(entries(value, g), c, r) / det4(
            entries(value, g),
            0,
            1,
            2,
            3,
        ),
{
    lemma_invertible(value, g);
    lemma_determinant4(value, g);
    lemma_cofactor4(value, g, c, r);
}

/// A four-by-four grid times its inverse is the identity.
pub proof fn law_inverse_product<T: Number>(value: spec_fn(T) -> real, m: Grid<T>)
    requires
        models(value),
        m.wf(),
        m.rows == 4 && m.cols == 4,
        m.invertible(),
    ensures
        m.product(m.inverse()) == Grid::<T>::identity(),
{
    let e = entries(value, m);
    let d = det4(e, 0, 1, 2, 3);
    let n = m.inverse();
    lemma_invertible(value, m);
    lemma_determinant4(value, m);
    lemma_quotient_of_itself(d);
    assert forall|r: int, c: int| 0 <= r < 4 && 0 <= c < 4 implies #[trigger] m.product(n).at(r, c)
        == Grid::<T>::identity().at(r, c) by {
        lemma_product_cell(value, m, n, r, c);
        lemma_inverse_cell(value, m, 0, c);
        lemma_inverse_cell(value, m, 1, c);
        lemma_inverse_cell(value, m, 2, c);
        lemma_inverse_cell(value, m, 3, c);
        lemma_row_by_quotients(
            e(r, 0),
            e(r, 1),
            e(r, 2),
            e(r, 3),
            cofactor4(e, c, 0),
            cofactor4(e, c, 1),
            cofactor4(e, c, 2),
            cofactor4(e, c, 3),
            d,
        );
        lemma_row_by_cofactors(e, r, c);
        assert(value(m.product(n).at(r, c)) == value(Grid::<T>::identity().at(r, c)));
    }
    m.product(n).lemma_equal(Grid::<T>::identity());
}

/// The product of four-by-four grids may be bracketed either way.
pub proof fn law_product_brackets<T: Number>(
    value: spec_fn(T) -> real,
    a: Grid<T>,
    b: Grid<T>,
    c: Grid<T>,
)
    requires
        models(value),
        a.wf() && a.rows == 4 && a.cols == 4,
        b.wf() && b.rows == 4 && b.cols == 4,
        c.wf() && c.rows == 4 && c.cols == 4,
    ensures
        a.product(b).product(c) == a.product(b.product(c)),
{
    let ab = a.product(b);
    let bc = b.product(c);
    assert forall|r: int, k: int| 0 <= r < 4 && 0 <= k < 4 implies #[trigger] ab.product(c).at(r, k)
        == a.product(bc).at(r, k) by {
        lemma_product_cell(value, ab, c, r, k);
        lemma_product_cell(value, a, bc, r, k);
        lemma_product_cell(value, a, b, r, 0);
        lemma_product_cell(value, a, b, r, 1);
        lemma_product_cell(value, a, b, r, 2);
        lemma_product_cell(value, a, b, r, 3);
        lemma_product_cell(value, b, c, 0, k);
        lemma_product_cell(value, b, c, 1, k);
        lemma_product_cell(value, b, c, 2, k);
        lemma_product_cell(value, b, c, 3, k);
        lemma_row_matrix_column(
            value(a.at(r, 0)),
            value(a.at(r, 1)),
            value(a.at(r, 2)),
            value(a.at(r, 3)),
            value(b.at(0, 0)),
            value(b.at(0, 1)),
            value(b.at(0, 2)),
            value(b.at(0, 3)),
            value(b.at(1, 0)),
            value(b.at(1, 1)),
            value(b.at(1, 2)),
            value(b.at(1, 3)),
            value(b.at(2, 0)),
            value(b.at(2, 1)),
            value(b.at(2, 2)),
            value(b.at(2, 3)),
            value(b.at(3, 0)),
            value(b.at(3, 1)),
            value(b.at(3, 2)),
            value(b.at(3, 3)),
            value(c.at(0, k)),
            value(c.at(1, k)),
            value(c.at(2, k)),
            value(c.at(3, k)),
        );
        assert(value(ab.product(c).at(r, k)) == value(a.product(bc).at(r, k)));
    }
    ab.product(c).lemma_equal(a.product(bc));
}

/// The identity is neutral for the product of four-by-four grids.
pub proof fn law_product_identity<T: Number>(value: spec_fn(T) -> real, m: Grid<T>)
    requires
        models(value),
        m.wf() && m.rows == 4 && m.cols == 4,
    ensures
        Grid::<T>::identity().product(m) == m,
        m.product(Grid::<T>::identity()) == m,
{
    let i = Grid::<T>::identity();
    assert forall|r: int, c: int| 0 <= r < 4 && 0 <= c < 4 implies #[trigger] i.product(m).at(r, c)
        == m.at(r, c) by {
        lemma_product_cell(value, i, m, r, c);
        let (x0, x1, x2, x3) = (
            value(m.at(0, c)),
            value(m.at(1, c)),
            value(m.at(2, c)),
            value(m.at(3, c)),
        );
        let (i0, i1, i2, i3) = (
            value(i.at(r, 0)),
            value(i.at(r, 1)),
            value(i.at(r, 2)),
            value(i.at(r, 3)),
        );
        assert(i0 * x0 + i1 * x1 + i2 * x2 + i3 * x3 == value(m.at(r, c))) by (nonlinear_arith)
            requires
                r == 0 ==> i0 == 1real && i1 == 0real && i2 == 0real && i3 == 0real && value(
                    m.at(r, c),
                ) == x0,
                r == 1 ==> i0 == 0real && i1 == 1real && i2 == 0real && i3 == 0real && value(
                    m.at(r, c),
                ) == x1,
                r == 2 ==> i0 == 0real && i1 == 0real && i2 == 1real && i3 == 0real && value(
                    m.at(r, c),
                ) == x2,
                r == 3 ==> i0 == 0real && i1 == 0real && i2 == 0real && i3 == 1real && value(
                    m.at(r, c),
                ) == x3,
                0 <= r < 4,
        ;
    }
    i.product(m).lemma_equal(m);
    assert forall|r: int, c: int| 0 <= r < 4 && 0 <= c < 4 implies #[trigger] m.product(i).at(r, c)
        == m.at(r, c) by {
        lemma_product_cell(value, m, i, r, c);
        let (x0, x1, x2, x3) = (
            value(m.at(r, 0)),
            value(m.at(r, 1)),
            value(m.at(r, 2)),
            value(m.at(r, 3)),
        );
        let (i0, i1, i2, i3) = (
            value(i.at(0, c)),
            value(i.at(1, c)),
            value(i.at(2, c)),
            value(i.at(3, c)),
        );
        assert(x0 * i0 + x1 * i1 + x2 * i2 + x3 * i3 == value(m.at(r, c))) by (nonlinear_arith)
            requires
                c == 0 ==> i0 == 1real && i1 == 0real && i2 == 0real && i3 == 0real && value(
                    m.at(r, c),
                ) == x0,
                c == 1 ==> i0 == 0real && i1 == 1real && i2 == 0real && i3 == 0real && value(
                    m.at(r, c),
                ) == x1,
                c == 2 ==> i0 == 0real && i1 == 0real && i2 == 1real && i3 == 0real && value(
                    m.at(r, c),
                ) == x2,
                c == 3 ==> i0 == 0real && i1 == 0real && i2 == 0real && i3 == 1real && value(
                    m.at(r, c),
                ) == x3,
                0 <= c < 4,
        ;
    }
    m.product(i).lemma_equal(m);
}

/// The inverse of the inverse of a four-by-four grid is the grid, where both
/// inverses exist.
pub proof fn law_inverse_twice<T: Number>(value: spec_fn(T) -> real, m: Grid<T>)
    requires
        models(value),
        m.wf(),
        m.rows == 4 && m.cols == 4,
        m.invertible(),
        m.inverse().invertible(),
    ensures
        m.inverse().inverse() == m,
{
    let n = m.inverse();
    let k = n.inverse();
    law_inverse_product(value, m);
    law_inverse_product(value, n);
    law_product_brackets(value, m, n, k);
    law_product_identity(value, m);
    law_product_identity(value, k);
}

/// A four-by-four grid and its transpose have one determinant, so the
/// transpose is invertible where the grid is; and inverting the transpose is
/// transposing the inverse.
pub proof fn law_inverse_of_transpose<T: Number>(value: spec_fn(T) -> real, m: Grid<T>)
    requires
        models(value),
        m.wf(),
        m.rows == 4 && m.cols == 4,
    ensures
        m.transpose().determinant() == m.determinant(),
        m.transpose().invertible() == m.invertible(),
        m.transpose().inverse() == m.inverse().transpose(),
{
    let t = m.transpose();
    let e = entries(value, m);
    let f = |r: int, c: int| e(c, r);
    lemma_determinant4(value, m);
    lemma_determinant4(value, t);
    lemma_det4_values(entries(value, t), f);
    lemma_det4_transposed(f, e);
    assert(t.determinant() == m.determinant());
    assert forall|r: int, c: int| 0 <= r < 4 && 0 <= c < 4 implies #[trigger] t.inverse().at(r, c)
        == m.inverse().transpose().at(r, c) by {
        lemma_cofactor4(value, t, c, r);
        lemma_cofactor4(value, m, r, c);
        lemma_cofactor4_transposed(f, e, c, r);
        assert(t.cofactor(c, r) == m.cofactor(r, c));
    }
    t.inverse().lemma_equal(m.inverse().transpose());
}

} // verus!
