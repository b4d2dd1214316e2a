//! Determinants of matrices over the real numbers, given by their entries
//! `e(row, column)`, and the identities between them that the laws of inverse
//! and transpose rest on.

use vstd::prelude::*;

verus! {

/// The determinant of rows `r0`, `r1` in columns `c0`, `c1`.
#[verifier::opaque]
pub open spec fn minor2(e: spec_fn(int, int) -> real, r0: int, r1: int, c0: int, c1: int) -> real {
    e(r0, c0) * e(r1, c1) - e(r0, c1) * e(r1, c0)
}

/// The determinant of rows `r0`, `r1`, `r2` in columns `c0`, `c1`, `c2`,
/// expanded along its first row.
#[verifier::opaque]
pub open spec fn minor3(
    e: spec_fn(int, int) -> real,
    r0: int,
    r1: int,
    r2: int,
    c0: int,
    c1: int,
    c2: int,
) -> real {
    e(r0, c0) * minor2(e, r1, r2, c1, c2) - e(r0, c1) * minor2(e, r1, r2, c0, c2) + e(r0, c2)
        * minor2(e, r1, r2, c0, c1)
}

/// The determinant of rows `r0` to `r3` in columns 0 to 3, expanded along
/// its first row.
#[verifier::opaque]
pub open spec fn det4(e: spec_fn(int, int) -> real, r0: int, r1: int, r2: int, r3: int) -> real {
    e(r0, 0) * minor3(e, r1, r2, r3, 1, 2, 3) - e(r0, 1) * minor3(e, r1, r2, r3, 0, 2, 3) + e(
        r0,
        2,
    ) * minor3(e, r1, r2, r3, 0, 1, 3) - e(r0, 3) * minor3(e, r1, r2, r3, 0, 1, 2)
}

/// The index of what is left at place `t` when index `i` is taken out.
pub open spec fn skip(i: int, t: int) -> int {
    if t < i {
        t
    } else {
        t + 1
    }
}

/// The cofactor at `(i, j)` of the four-by-four matrix `e`.
pub open spec fn cofactor4(e: spec_fn(int, int) -> real, i: int, j: int) -> real {
    let m = minor3(e, skip(i, 0), skip(i, 1), skip(i, 2), skip(j, 0), skip(j, 1), skip(j, 2));
    if (i + j) % 2 == 0 {
        m
    } else {
        -m
    }
}

/// A product of three factors may be bracketed and ordered in any way.
pub proof fn lemma_product3(x: real, y: real, z: real)
    by (nonlinear_arith)
    ensures
        (x * y) * z == x * (y * z),
        (x * z) * y == x * (y * z),
        (y * z) * x == x * (y * z),
        y * (x * z) == x * (y * z),
        z * (x * y) == x * (y * z),
{
}

/// A factor times a difference.
pub proof fn lemma_times_difference(x: real, p: real, q: real)
    by (nonlinear_arith)
    ensures
        x * (p - q) == x * p - x * q,
{
}

/// A factor times a difference and a sum.
pub proof fn lemma_times_three(x: real, p: real, q: real, r: real)
    by (nonlinear_arith)
    ensures
        x * (p - q + r) == x * p - x * q + x * r,
{
}

/// A factor times a negation.
pub proof fn lemma_times_negation(x: real, y: real)
    by (nonlinear_arith)
    ensures
        x * (-y) == -(x * y),
{
}

/// Exchanging the two rows of a two-row determinant changes its sign.
pub proof fn lemma_minor2_swap(e: spec_fn(int, int) -> real, r0: int, r1: int, c0: int, c1: int)
    ensures
        minor2(e, r1, r0, c0, c1) == -minor2(e, r0, r1, c0, c1),
{
    reveal(minor2);
    assert(e(r0, c0) * e(r1, c1) == e(r1, c1) * e(r0, c0)) by (nonlinear_arith);
    assert(e(r0, c1) * e(r1, c0) == e(r1, c0) * e(r0, c1)) by (nonlinear_arith);
}

/// A three-row determinant as the sum of its six signed products, each
/// written as the entry of the first row times the product of the two others.
pub proof fn lemma_minor3_products(
    e: spec_fn(int, int) -> real,
    r0: int,
    r1: int,
    r2: int,
    c0: int,
    c1: int,
    c2: int,
)
    ensures
        minor3(e, r0, r1, r2, c0, c1, c2) == e(r0, c0) * (e(r1, c1) * e(r2, c2)) - e(r0, c0) * (e(
            r1,
            c2,
        ) * e(r2, c1)) - e(r0, c1) * (e(r1, c0) * e(r2, c2)) + e(r0, c1) * (e(r1, c2) * e(r2, c0))
            + e(r0, c2) * (e(r1, c0) * e(r2, c1)) - e(r0, c2) * (e(r1, c1) * e(r2, c0)),
{
    reveal(minor3);
    reveal(minor2);
    lemma_times_difference(e(r0, c0), e(r1, c1) * e(r2, c2), e(r1, c2) * e(r2, c1));
    lemma_times_difference(e(r0, c1), e(r1, c0) * e(r2, c2), e(r1, c2) * e(r2, c0));
    lemma_times_difference(e(r0, c2), e(r1, c0) * e(r2, c1), e(r1, c1) * e(r2, c0));
}

/// Exchanging the first two rows of a three-row determinant changes its
/// sign.
pub proof fn lemma_minor3_swap(
    e: spec_fn(int, int) -> real,
    r0: int,
    r1: int,
    r2: int,
    c0: int,
    c1: int,
    c2: int,
)
    ensures
        minor3(e, r1, r0, r2, c0, c1, c2) == -minor3(e, r0, r1, r2, c0, c1, c2),
{
    lemma_minor3_products(e, r0, r1, r2, c0, c1, c2);
    lemma_minor3_products(e, r1, r0, r2, c0, c1, c2);
    lemma_product3(e(r0, c0), e(r1, c1), e(r2, c2));
    lemma_product3(e(r0, c0), e(r1, c2), e(r2, c1));
    lemma_product3(e(r0, c1), e(r1, c0), e(r2, c2));
    lemma_product3(e(r0, c1), e(r1, c2), e(r2, c0));
    lemma_product3(e(r0, c2), e(r1, c0), e(r2, c1));
    lemma_product3(e(r0, c2), e(r1, c1), e(r2, c0));
    lemma_product3(e(r1, c0), e(r0, c1), e(r2, c2));
    lemma_product3(e(r1, c0), e(r0, c2), e(r2, c1));
    lemma_product3(e(r1, c1), e(r0, c0), e(r2, c2));
    lemma_product3(e(r1, c1), e(r0, c2), e(r2, c0));
    lemma_product3(e(r1, c2), e(r0, c0), e(r2, c1));
    lemma_product3(e(r1, c2), e(r0, c1), e(r2, c0));
}

/// A three-row determinant expanded along its first column.
pub proof fn lemma_minor3_by_column(
    e: spec_fn(int, int) -> real,
    r0: int,
    r1: int,
    r2: int,
    c0: int,
    c1: int,
    c2: int,
)
    ensures
        minor3(e, r0, r1, r2, c0, c1, c2) == e(r0, c0) * minor2(e, r1, r2, c1, c2) - e(r1, c0)
            * minor2(e, r0, r2, c1, c2) + e(r2, c0) * minor2(e, r0, r1, c1, c2),
{
    lemma_minor3_products(e, r0, r1, r2, c0, c1, c2);
    reveal(minor2);
    lemma_times_difference(e(r0, c0), e(r1, c1) * e(r2, c2), e(r1, c2) * e(r2, c1));
    lemma_times_difference(e(r1, c0), e(r0, c1) * e(r2, c2), e(r0, c2) * e(r2, c1));
    lemma_times_difference(e(r2, c0), e(r0, c1) * e(r1, c2), e(r0, c2) * e(r1, c1));
    lemma_product3(e(r0, c1), e(r1, c0), e(r2, c2));
    lemma_product3(e(r0, c1), e(r1, c2), e(r2, c0));
    lemma_product3(e(r0, c2), e(r1, c0), e(r2, c1));
    lemma_product3(e(r0, c2), e(r1, c1), e(r2, c0));
    lemma_product3(e(r1, c0), e(r0, c1), e(r2, c2));
    lemma_product3(e(r1, c0), e(r0, c2), e(r2, c1));
    lemma_product3(e(r2, c0), e(r0, c1), e(r1, c2));
    lemma_product3(e(r2, c0), e(r0, c2), e(r1, c1));
}

/// Exchanging the last two rows of a three-row determinant changes its sign.
pub proof fn lemma_minor3_swap_last(
    e: spec_fn(int, int) -> real,
    r0: int,
    r1: int,
    r2: int,
    c0: int,
    c1: int,
    c2: int,
)
    ensures
        minor3(e, r0, r2, r1, c0, c1, c2) == -minor3(e, r0, r1, r2, c0, c1, c2),
{
    reveal(minor3);
    lemma_minor2_swap(e, r1, r2, c1, c2);
    lemma_minor2_swap(e, r1, r2, c0, c2);
    lemma_minor2_swap(e, r1, r2, c0, c1);
    lemma_times_negation(e(r0, c0), minor2(e, r1, r2, c1, c2));
    lemma_times_negation(e(r0, c1), minor2(e, r1, r2, c0, c2));
    lemma_times_negation(e(r0, c2), minor2(e, r1, r2, c0, c1));
}

/// Exchanging the first two rows of a four-row determinant changes its sign.
pub proof fn lemma_det4_swap_first(e: spec_fn(int, int) -> real, r0: int, r1: int, r2: int, r3: int)
    ensures
        det4(e, r1, r0, r2, r3) == -det4(e, r0, r1, r2, r3),
{
    reveal(det4);
    reveal(minor3);
    lemma_times_three(
        e(r0, 0),
        e(r1, 1) * minor2(e, r2, r3, 2, 3),
        e(r1, 2) * minor2(e, r2, r3, 1, 3),
        e(r1, 3) * minor2(e, r2, r3, 1, 2),
    );
    lemma_times_three(
        e(r0, 1),
        e(r1, 0) * minor2(e, r2, r3, 2, 3),
        e(r1, 2) * minor2(e, r2, r3, 0, 3),
        e(r1, 3) * minor2(e, r2, r3, 0, 2),
    );
    lemma_times_three(
        e(r0, 2),
        e(r1, 0) * minor2(e, r2, r3, 1, 3),
        e(r1, 1) * minor2(e, r2, r3, 0, 3),
        e(r1, 3) * minor2(e, r2, r3, 0, 1),
    );
    lemma_times_three(
        e(r0, 3),
        e(r1, 0) * minor2(e, r2, r3, 1, 2),
        e(r1, 1) * minor2(e, r2, r3, 0, 2),
        e(r1, 2) * minor2(e, r2, r3, 0, 1),
    );
    lemma_times_three(
        e(r1, 0),
        e(r0, 1) * minor2(e, r2, r3, 2, 3),
        e(r0, 2) * minor2(e, r2, r3, 1, 3),
        e(r0, 3) * minor2(e, r2, r3, 1, 2),
    );
    lemma_times_three(
        e(r1, 1),
        e(r0, 0) * minor2(e, r2, r3, 2, 3),
        e(r0, 2) * minor2(e, r2, r3, 0, 3),
        e(r0, 3) * minor2(e, r2, r3, 0, 2),
    );
    lemma_times_three(
        e(r1, 2),
        e(r0, 0) * minor2(e, r2, r3, 1, 3),
        e(r0, 1) * minor2(e, r2, r3, 0, 3),
        e(r0, 3) * minor2(e, r2, r3, 0, 1),
    );
    lemma_times_three(
        e(r1, 3),
        e(r0, 0) * minor2(e, r2, r3, 1, 2),
        e(r0, 1) * minor2(e, r2, r3, 0, 2),
        e(r0, 2) * minor2(e, r2, r3, 0, 1),
    );
    lemma_product3(e(r0, 0), e(r1, 1), minor2(e, r2, r3, 2, 3));
    lemma_product3(e(r0, 0), e(r1, 2), minor2(e, r2, r3, 1, 3));
    lemma_product3(e(r0, 0), e(r1, 3), minor2(e, r2, r3, 1, 2));
    lemma_product3(e(r0, 1), e(r1, 0), minor2(e, r2, r3, 2, 3));
    lemma_product3(e(r0, 1), e(r1, 2), minor2(e, r2, r3, 0, 3));
    lemma_product3(e(r0, 1), e(r1, 3), minor2(e, r2, r3, 0, 2));
    lemma_product3(e(r0, 2), e(r1, 0), minor2(e, r2, r3, 1, 3));
    lemma_product3(e(r0, 2), e(r1, 1), minor2(e, r2, r3, 0, 3));
    lemma_product3(e(r0, 2), e(r1, 3), minor2(e, r2, r3, 0, 1));
    lemma_product3(e(r0, 3), e(r1, 0), minor2(e, r2, r3, 1, 2));
    lemma_product3(e(r0, 3), e(r1, 1), minor2(e, r2, r3, 0, 2));
    lemma_product3(e(r0, 3), e(r1, 2), minor2(e, r2, r3, 0, 1));
}

/// Exchanging the two middle rows of a four-row determinant changes its
/// sign.
pub proof fn lemma_det4_swap_middle(
    e: spec_fn(int, int) -> real,
    r0: int,
    r1: int,
    r2: int,
    r3: int,
)
    ensures
        det4(e, r0, r2, r1, r3) == -det4(e, r0, r1, r2, r3),
{
    reveal(det4);
    lemma_minor3_swap(e, r1, r2, r3, 1, 2, 3);
    lemma_times_negation(e(r0, 0), minor3(e, r1, r2, r3, 1, 2, 3));
    lemma_minor3_swap(e, r1, r2, r3, 0, 2, 3);
    lemma_times_negation(e(r0, 1), minor3(e, r1, r2, r3, 0, 2, 3));
    lemma_minor3_swap(e, r1, r2, r3, 0, 1, 3);
    lemma_times_negation(e(r0, 2), minor3(e, r1, r2, r3, 0, 1, 3));
    lemma_minor3_swap(e, r1, r2, r3, 0, 1, 2);
    lemma_times_negation(e(r0, 3), minor3(e, r1, r2, r3, 0, 1, 2));
}

/// Exchanging the last two rows of a four-row determinant changes its sign.
pub proof fn lemma_det4_swap_last(e: spec_fn(int, int) -> real, r0: int, r1: int, r2: int, r3: int)
    ensures
        det4(e, r0, r1, r3, r2) == -det4(e, r0, r1, r2, r3),
{
    reveal(det4);
    lemma_minor3_swap_last(e, r1, r2, r3, 1, 2, 3);
    lemma_times_negation(e(r0, 0), minor3(e, r1, r2, r3, 1, 2, 3));
    lemma_minor3_swap_last(e, r1, r2, r3, 0, 2, 3);
    lemma_times_negation(e(r0, 1), minor3(e, r1, r2, r3, 0, 2, 3));
    lemma_minor3_swap_last(e, r1, r2, r3, 0, 1, 3);
    lemma_times_negation(e(r0, 2), minor3(e, r1, r2, r3, 0, 1, 3));
    lemma_minor3_swap_last(e, r1, r2, r3, 0, 1, 2);
    lemma_times_negation(e(r0, 3), minor3(e, r1, r2, r3, 0, 1, 2));
}

/// A four-row determinant with one row twice is zero.
pub proof fn lemma_det4_repeated(e: spec_fn(int, int) -> real, r0: int, r1: int, r2: int, r3: int)
    requires
        r0 == r1 || r0 == r2 || r0 == r3 || r1 == r2 || r1 == r3 || r2 == r3,
    ensures
        det4(e, r0, r1, r2, r3) == 0real,
{
    lemma_det4_swap_first(e, r0, r1, r2, r3);
    lemma_det4_swap_middle(e, r0, r1, r2, r3);
    lemma_det4_swap_last(e, r0, r1, r2, r3);
    lemma_det4_swap_first(e, r0, r2, r1, r3);
    lemma_det4_swap_middle(e, r0, r1, r3, r2);
    lemma_det4_swap_first(e, r0, r3, r1, r2);
}

/// A four-row determinant expanded along its first column.
pub proof fn lemma_det4_by_column(e: spec_fn(int, int) -> real, r0: int, r1: int, r2: int, r3: int)
    ensures
        det4(e, r0, r1, r2, r3) == e(r0, 0) * minor3(e, r1, r2, r3, 1, 2, 3) - e(r1, 0) * minor3(
            e,
            r0,
            r2,
            r3,
            1,
            2,
            3,
        ) + e(r2, 0) * minor3(e, r0, r1, r3, 1, 2, 3) - e(r3, 0) * minor3(e, r0, r1, r2, 1, 2, 3),
{
    reveal(det4);
    reveal(minor3);
    lemma_minor3_by_column(e, r1, r2, r3, 0, 2, 3);
    lemma_times_three(
        e(r0, 1),
        e(r1, 0) * minor2(e, r2, r3, 2, 3),
        e(r2, 0) * minor2(e, r1, r3, 2, 3),
        e(r3, 0) * minor2(e, r1, r2, 2, 3),
    );
    lemma_minor3_by_column(e, r1, r2, r3, 0, 1, 3);
    lemma_times_three(
        e(r0, 2),
        e(r1, 0) * minor2(e, r2, r3, 1, 3),
        e(r2, 0) * minor2(e, r1, r3, 1, 3),
        e(r3, 0) * minor2(e, r1, r2, 1, 3),
    );
    lemma_minor3_by_column(e, r1, r2, r3, 0, 1, 2);
    lemma_times_three(
        e(r0, 3),
        e(r1, 0) * minor2(e, r2, r3, 1, 2),
        e(r2, 0) * minor2(e, r1, r3, 1, 2),
        e(r3, 0) * minor2(e, r1, r2, 1, 2),
    );
    lemma_times_three(
        e(r1, 0),
        e(r0, 1) * minor2(e, r2, r3, 2, 3),
        e(r0, 2) * minor2(e, r2, r3, 1, 3),
        e(r0, 3) * minor2(e, r2, r3, 1, 2),
    );
    lemma_times_three(
        e(r2, 0),
        e(r0, 1) * minor2(e, r1, r3, 2, 3),
        e(r0, 2) * minor2(e, r1, r3, 1, 3),
        e(r0, 3) * minor2(e, r1, r3, 1, 2),
    );
    lemma_times_three(
        e(r3, 0),
        e(r0, 1) * minor2(e, r1, r2, 2, 3),
        e(r0, 2) * minor2(e, r1, r2, 1, 3),
        e(r0, 3) * minor2(e, r1, r2, 1, 2),
    );
    lemma_product3(e(r0, 1), e(r1, 0), minor2(e, r2, r3, 2, 3));
    lemma_product3(e(r0, 1), e(r2, 0), minor2(e, r1, r3, 2, 3));
    lemma_product3(e(r0, 1), e(r3, 0), minor2(e, r1, r2, 2, 3));
    lemma_product3(e(r0, 2), e(r1, 0), minor2(e, r2, r3, 1, 3));
    lemma_product3(e(r0, 2), e(r2, 0), minor2(e, r1, r3, 1, 3));
    lemma_product3(e(r0, 2), e(r3, 0), minor2(e, r1, r2, 1, 3));
    lemma_product3(e(r0, 3), e(r1, 0), minor2(e, r2, r3, 1, 2));
    lemma_product3(e(r0, 3), e(r2, 0), minor2(e, r1, r3, 1, 2));
    lemma_product3(e(r0, 3), e(r3, 0), minor2(e, r1, r2, 1, 2));
}

/// A row of a four-by-four matrix times the cofactors of its own row is the
/// determinant; times the cofactors of another row it is zero.
pub proof fn lemma_row_by_cofactors(e: spec_fn(int, int) -> real, i: int, k: int)
    requires
        0 <= i < 4,
        0 <= k < 4,
    ensures
        e(i, 0) * cofactor4(e, k, 0) + e(i, 1) * cofactor4(e, k, 1) + e(i, 2) * cofactor4(e, k, 2)
            + e(i, 3) * cofactor4(e, k, 3) == (if i == k {
            det4(e, 0, 1, 2, 3)
        } else {
            0real
        }),
{
    let (s0, s1, s2) = (skip(k, 0), skip(k, 1), skip(k, 2));
    reveal(det4);
    lemma_times_negation(e(i, 0), minor3(e, s0, s1, s2, 1, 2, 3));
    lemma_times_negation(e(i, 1), minor3(e, s0, s1, s2, 0, 2, 3));
    lemma_times_negation(e(i, 2), minor3(e, s0, s1, s2, 0, 1, 3));
    lemma_times_negation(e(i, 3), minor3(e, s0, s1, s2, 0, 1, 2));
    let sum = e(i, 0) * cofactor4(e, k, 0) + e(i, 1) * cofactor4(e, k, 1) + e(i, 2) * cofactor4(
        e,
        k,
        2,
    ) + e(i, 3) * cofactor4(e, k, 3);
    assert(sum == if k % 2 == 0 {
        det4(e, i, s0, s1, s2)
    } else {
        -det4(e, i, s0, s1, s2)
    });
    if i != k {
        lemma_det4_repeated(e, i, s0, s1, s2);
    } else if k == 1 {
        lemma_det4_swap_first(e, 0, 1, 2, 3);
    } else if k == 2 {
        lemma_det4_swap_middle(e, 0, 1, 2, 3);
        lemma_det4_swap_first(e, 0, 2, 1, 3);
    } else if k == 3 {
        lemma_det4_swap_last(e, 0, 1, 2, 3);
        lemma_det4_swap_middle(e, 0, 1, 3, 2);
        lemma_det4_swap_first(e, 0, 3, 1, 2);
    }
}

/// The three-row determinants of a matrix and of its transpose.
pub proof fn lemma_minor3_transposed(
    f: spec_fn(int, int) -> real,
    e: spec_fn(int, int) -> real,
    r0: int,
    r1: int,
    r2: int,
    c0: int,
    c1: int,
    c2: int,
)
    requires
        forall|r: int, c: int| #[trigger] f(r, c) == e(c, r),
    ensures
        minor3(f, r0, r1, r2, c0, c1, c2) == minor3(e, c0, c1, c2, r0, r1, r2),
{
    reveal(minor3);
    lemma_minor3_by_column(e, c0, c1, c2, r0, r1, r2);
    assert(minor2(f, r1, r2, c1, c2) == minor2(e, c1, c2, r1, r2)) by {
        reveal(minor2);
        assert(e(c2, r1) * e(c1, r2) == e(c1, r2) * e(c2, r1)) by (nonlinear_arith);
    }
    assert(minor2(f, r1, r2, c0, c2) == minor2(e, c0, c2, r1, r2)) by {
        reveal(minor2);
        assert(e(c2, r1) * e(c0, r2) == e(c0, r2) * e(c2, r1)) by (nonlinear_arith);
    }
    assert(minor2(f, r1, r2, c0, c1) == minor2(e, c0, c1, r1, r2)) by {
        reveal(minor2);
        assert(e(c1, r1) * e(c0, r2) == e(c0, r2) * e(c1, r1)) by (nonlinear_arith);
    }
}

/// A matrix and its transpose have one determinant.
pub proof fn lemma_det4_transposed(f: spec_fn(int, int) -> real, e: spec_fn(int, int) -> real)
    requires
        forall|r: int, c: int| #[trigger] f(r, c) == e(c, r),
    ensures
        det4(f, 0, 1, 2, 3) == det4(e, 0, 1, 2, 3),
{
    reveal(det4);
    lemma_det4_by_column(e, 0, 1, 2, 3);
    lemma_minor3_transposed(f, e, 1, 2, 3, 1, 2, 3);
    lemma_minor3_transposed(f, e, 1, 2, 3, 0, 2, 3);
    lemma_minor3_transposed(f, e, 1, 2, 3, 0, 1, 3);
    lemma_minor3_transposed(f, e, 1, 2, 3, 0, 1, 2);
}

/// The cofactors of a matrix and of its transpose.
pub proof fn lemma_cofactor4_transposed(
    f: spec_fn(int, int) -> real,
    e: spec_fn(int, int) -> real,
    i: int,
    j: int,
)
    requires
        forall|r: int, c: int| #[trigger] f(r, c) == e(c, r),
    ensures
        cofactor4(f, i, j) == cofactor4(e, j, i),
{
    lemma_minor3_transposed(
        f,
        e,
        skip(i, 0),
        skip(i, 1),
        skip(i, 2),
        skip(j, 0),
        skip(j, 1),
        skip(j, 2),
    );
}

/// A three-row determinant depends on the nine entries it is made of alone.
pub proof fn lemma_minor3_values(
    f: spec_fn(int, int) -> real,
    rows: (int, int, int),
    cols: (int, int, int),
    e: spec_fn(int, int) -> real,
    e_rows: (int, int, int),
    e_cols: (int, int, int),
)
    requires
        f(rows.0, cols.0) == e(e_rows.0, e_cols.0),
        f(rows.0, cols.1) == e(e_rows.0, e_cols.1),
        f(rows.0, cols.2) == e(e_rows.0, e_cols.2),
        f(rows.1, cols.0) == e(e_rows.1, e_cols.0),
        f(rows.1, cols.1) == e(e_rows.1, e_cols.1),
        f(rows.1, cols.2) == e(e_rows.1, e_cols.2),
        f(rows.2, cols.0) == e(e_rows.2, e_cols.0),
        f(rows.2, cols.1) == e(e_rows.2, e_cols.1),
        f(rows.2, cols.2) == e(e_rows.2, e_cols.2),
    ensures
        minor3(f, rows.0, rows.1, rows.2, cols.0, cols.1, cols.2) == minor3(
            e,
            e_rows.0,
            e_rows.1,
            e_rows.2,
            e_cols.0,
            e_cols.1,
            e_cols.2,
        ),
{
    reveal(minor3);
    reveal(minor2);
}

/// The determinant and the cofactors of a four-by-four matrix depend on its
/// sixteen entries alone.
pub proof fn lemma_det4_values(f: spec_fn(int, int) -> real, e: spec_fn(int, int) -> real)
    requires
        forall|r: int, c: int| 0 <= r < 4 && 0 <= c < 4 ==> #[trigger] f(r, c) == e(r, c),
    ensures
        det4(f, 0, 1, 2, 3) == det4(e, 0, 1, 2, 3),
        forall|i: int, j: int|
            0 <= i < 4 && 0 <= j < 4 ==> #[trigger] cofactor4(f, i, j) == cofactor4(e, i, j),
{
    reveal(det4);
    reveal(minor3);
    reveal(minor2);
}

/// Dividing each factor of a sum of four products by `d` divides the sum.
pub proof fn lemma_row_by_quotients(
    x0: real,
    x1: real,
    x2: real,
    x3: real,
    y0: real,
    y1: real,
    y2: real,
    y3: real,
    d: real,
)
    requires
        d != 0real,
    ensures
        x0 * (y0 / d) + x1 * (y1 / d) + x2 * (y2 / d) + x3 * (y3 / d) == (x0 * y0 + x1 * y1 + x2
            * y2 + x3 * y3) / d,
{
    lemma_times_quotient(x0, y0, d);
    lemma_times_quotient(x1, y1, d);
    lemma_times_quotient(x2, y2, d);
    lemma_times_quotient(x3, y3, d);
    lemma_sum_of_quotients(x0 * y0, x1 * y1, x2 * y2, x3 * y3, d);
}

/// A factor times a quotient.
pub proof fn lemma_times_quotient(x: real, y: real, d: real)
    by (nonlinear_arith)
    requires
        d != 0real,
    ensures
        x * (y / d) == (x * y) / d,
{
}

/// A sum of four quotients by one divisor.
pub proof fn lemma_sum_of_quotients(a: real, b: real, c: real, e: real, d: real)
    by (nonlinear_arith)
    requires
        d != 0real,
    ensures
        a / d + b / d + c / d + e / d == (a + b + c + e) / d,
{
}

/// A number by itself is one, and zero by it is zero.
pub proof fn lemma_quotient_of_itself(d: real)
    by (nonlinear_arith)
    requires
        d != 0real,
    ensures
        d / d == 1real,
        0real / d == 0real,
{
}

/// A sum of four terms times a factor.
pub proof fn lemma_sum_times(a: real, b: real, c: real, d: real, p: real)
    by (nonlinear_arith)
    ensures
        (a + b + c + d) * p == a * p + b * p + c * p + d * p,
{
}

/// A factor times a sum of four terms.
pub proof fn lemma_times_sum(m: real, a: real, b: real, c: real, d: real)
    by (nonlinear_arith)
    ensures
        m * (a + b + c + d) == m * a + m * b + m * c + m * d,
{
}

/// A product of three factors may be bracketed either way.
pub proof fn lemma_times_times(a: real, b: real, c: real)
    by (nonlinear_arith)
    ensures
        (a * b) * c == a * (b * c),
{
}

/// A row times a matrix times a column may be bracketed either way.
pub proof fn lemma_row_matrix_column(
    m0: real,
    m1: real,
    m2: real,
    m3: real,
    n00: real,
    n01: real,
    n02: real,
    n03: real,
    n10: real,
    n11: real,
    n12: real,
    n13: real,
    n20: real,
    n21: real,
    n22: real,
    n23: real,
    n30: real,
    n31: real,
    n32: real,
    n33: real,
    p0: real,
    p1: real,
    p2: real,
    p3: real,
)
    ensures
        (m0 * n00 + m1 * n10 + m2 * n20 + m3 * n30) * p0
            + (m0 * n01 + m1 * n11 + m2 * n21 + m3 * n31) * p1
            + (m0 * n02 + m1 * n12 + m2 * n22 + m3 * n32) * p2
            + (m0 * n03 + m1 * n13 + m2 * n23 + m3 * n33) * p3
            == m0 * (n00 * p0 + n01 * p1 + n02 * p2 + n03 * p3)
            + m1 * (n10 * p0 + n11 * p1 + n12 * p2 + n13 * p3)
            + m2 * (n20 * p0 + n21 * p1 + n22 * p2 + n23 * p3)
            + m3 * (n30 * p0 + n31 * p1 + n32 * p2 + n33 * p3),
{
    lemma_sum_times(m0 * n00, m1 * n10, m2 * n20, m3 * n30, p0);
    lemma_sum_times(m0 * n01, m1 * n11, m2 * n21, m3 * n31, p1);
    lemma_sum_times(m0 * n02, m1 * n12, m2 * n22, m3 * n32, p2);
    lemma_sum_times(m0 * n03, m1 * n13, m2 * n23, m3 * n33, p3);
    lemma_times_sum(m0, n00 * p0, n01 * p1, n02 * p2, n03 * p3);
    lemma_times_times(m0, n00, p0);
    lemma_times_times(m0, n01, p1);
    lemma_times_times(m0, n02, p2);
    lemma_times_times(m0, n03, p3);
    lemma_times_sum(m1, n10 * p0, n11 * p1, n12 * p2, n13 * p3);
    lemma_times_times(m1, n10, p0);
    lemma_times_times(m1, n11, p1);
    lemma_times_times(m1, n12, p2);
    lemma_times_times(m1, n13, p3);
    lemma_times_sum(m2, n20 * p0, n21 * p1, n22 * p2, n23 * p3);
    lemma_times_times(m2, n20, p0);
    lemma_times_times(m2, n21, p1);
    lemma_times_times(m2, n22, p2);
    lemma_times_times(m2, n23, p3);
    lemma_times_sum(m3, n30 * p0, n31 * p1, n32 * p2, n33 * p3);
    lemma_times_times(m3, n30, p0);
    lemma_times_times(m3, n31, p1);
    lemma_times_times(m3, n32, p2);
    lemma_times_times(m3, n33, p3);
}

/// The square of a quotient is the quotient of the squares, and the square
/// of a number other than zero is not zero.
pub proof fn lemma_square_of_quotient(x: real, m: real)
    by (nonlinear_arith)
    requires
        m != 0real,
    ensures
        (x / m) * (x / m) == (x * x) / (m * m),
        m * m != 0real,
{
}

} // verus!
