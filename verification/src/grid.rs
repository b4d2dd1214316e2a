use crate::helper::{
    can_abs, can_epsilon, can_near, near, spec_abs, spec_epsilon, spec_one, spec_zero, Axis,
    Number,
};
use crate::tuple::Tuple;
use vstd::prelude::*;
use vstd::std_specs::cmp::*;
use vstd::std_specs::ops::*;

verus! {

/// The mathematical content of a matrix: its shape and its cells, row by row.
pub struct Grid<T> {
    pub rows: nat,
    pub cols: nat,
    pub cells: Seq<Seq<T>>,
}

impl<T: Number> Grid<T> {
    /// There are `rows` rows of `cols` cells each.
    pub open spec fn wf(self) -> bool {
        &&& self.cells.len() == self.rows
        &&& forall|r: int| 0 <= r < self.rows ==> (#[trigger] self.cells[r]).len() == self.cols
    }

    /// The cell in row `r` and column `c`.
    pub open spec fn at(self, r: int, c: int) -> T {
        self.cells[r][c]
    }

    /// As many rows as columns.
    pub open spec fn is_square(self) -> bool {
        self.rows == self.cols
    }

    /// The grid of the given shape whose cell at `(r, c)` is `f(r, c)`.
    pub open spec fn tabulate(rows: nat, cols: nat, f: spec_fn(int, int) -> T) -> Grid<T> {
        Grid { rows, cols, cells: Seq::new(rows, |r: int| Seq::new(cols, |c: int| f(r, c))) }
    }

    /// Two grids of one shape whose cells agree are the same grid.
    pub proof fn lemma_equal(self, other: Grid<T>)
        requires
            self.wf(),
            other.wf(),
            self.rows == other.rows,
            self.cols == other.cols,
            forall|r: int, c: int|
                0 <= r < self.rows && 0 <= c < self.cols ==> #[trigger] self.at(r, c) == other.at(
                    r,
                    c,
                ),
        ensures
            self == other,
    {
        assert forall|r: int| 0 <= r < self.rows implies #[trigger] self.cells[r]
            == other.cells[r] by {
            assert forall|c: int| 0 <= c < self.cols implies #[trigger] self.cells[r][c]
                == other.cells[r][c] by {
                assert(self.at(r, c) == other.at(r, c));
            }
            assert(self.cells[r] =~= other.cells[r]);
        }
        assert(self.cells =~= other.cells);
    }

    /// The grid of the given shape read from `flat` in row-major order.
    pub open spec fn of(rows: nat, cols: nat, flat: Seq<T>) -> Grid<T> {
        Grid::tabulate(rows, cols, |r: int, c: int| flat[r * cols + c])
    }

    /// The grid of the given shape with zero in every cell.
    pub open spec fn zero(rows: nat, cols: nat) -> Grid<T> {
        Grid::tabulate(rows, cols, |r: int, c: int| spec_zero::<T>())
    }

    /// The four-by-four identity.
    pub open spec fn identity() -> Grid<T> {
        Grid::tabulate(
            4,
            4,
            |r: int, c: int|
                if r == c {
                    spec_one::<T>()
                } else {
                    spec_zero::<T>()
                },
        )
    }

    /// This grid with the cell at `(row, col)` replaced by `value`.
    pub open spec fn update(self, row: int, col: int, value: T) -> Grid<T> {
        Grid {
            rows: self.rows,
            cols: self.cols,
            cells: self.cells.update(row, self.cells[row].update(col, value)),
        }
    }

    /// Rows and columns swapped: the cell at `(c, r)` is this grid's at `(r, c)`.
    pub open spec fn transpose(self) -> Grid<T> {
        Grid::tabulate(self.cols, self.rows, |r: int, c: int| self.at(c, r))
    }

    /// This grid without row `row` and column `col`; the cells that remain
    /// keep their order.
    pub open spec fn submatrix(self, row: int, col: int) -> Grid<T> {
        Grid::tabulate(
            (self.rows - 1) as nat,
            (self.cols - 1) as nat,
            |r: int, c: int|
                self.at(
                    if r < row {
                        r
                    } else {
                        r + 1
                    },
                    if c < col {
                        c
                    } else {
                        c + 1
                    },
                ),
        )
    }

    /// The determinant of a square grid with two rows or more: `ad - bc` for
    /// two rows, the cofactor expansion along the first row for more.
    pub open spec fn determinant(self) -> T
        decreases self.rows, 3nat, 0nat,
    {
        if self.rows <= 2 {
            self.at(0, 0).mul_spec(self.at(1, 1)).sub_spec(self.at(0, 1).mul_spec(self.at(1, 0)))
        } else {
            self.expansion(self.cols)
        }
    }

    /// The cofactor expansion along the first row, up to column `k`: zero plus
    /// each cell of the row times its cofactor, added from left to right.
    pub open spec fn expansion(self, k: nat) -> T
        decreases self.rows, 2nat, k,
    {
        if k == 0 {
            spec_zero::<T>()
        } else {
            let j = (k - 1) as nat;
            self.expansion(j).add_spec(self.at(0, j as int).mul_spec(self.cofactor(0, j as int)))
        }
    }

    /// The minor with its sign: negated where `row + col` is odd.
    pub open spec fn cofactor(self, row: int, col: int) -> T
        decreases self.rows, 1nat, 0nat,
    {
        if (row + col) % 2 == 0 {
            self.minor(row, col)
        } else {
            self.minor(row, col).neg_spec()
        }
    }

    /// The determinant of the grid without row `row` and column `col`.
    pub open spec fn minor(self, row: int, col: int) -> T
        decreases self.rows, 0nat, 0nat,
    {
        if self.rows > 0 {
            self.submatrix(row, col).determinant()
        } else {
            spec_zero::<T>()
        }
    }

    /// The operations of `determinant` are defined.
    pub open spec fn can_determinant(self) -> bool
        decreases self.rows, 3nat, 0nat,
    {
        if self.rows <= 2 {
            &&& self.at(0, 0).mul_req(self.at(1, 1))
            &&& self.at(0, 1).mul_req(self.at(1, 0))
            &&& self.at(0, 0).mul_spec(self.at(1, 1)).sub_req(
                self.at(0, 1).mul_spec(self.at(1, 0)),
            )
        } else {
            self.can_expansion(self.cols)
        }
    }

    /// The operations of `expansion` are defined.
    pub open spec fn can_expansion(self, k: nat) -> bool
        decreases self.rows, 2nat, k,
    {
        if k == 0 {
            true
        } else {
            let j = (k - 1) as nat;
            let cofactor = self.cofactor(0, j as int);
            &&& self.can_expansion(j)
            &&& self.can_cofactor(0, j as int)
            &&& self.at(0, j as int).mul_req(cofactor)
            &&& self.expansion(j).add_req(self.at(0, j as int).mul_spec(cofactor))
        }
    }

    /// The operations of `cofactor` are defined.
    pub open spec fn can_cofactor(self, row: int, col: int) -> bool
        decreases self.rows, 1nat, 0nat,
    {
        &&& self.can_minor(row, col)
        &&& (row + col) % 2 != 0 ==> self.minor(row, col).neg_req()
    }

    /// The operations of `minor` are defined.
    pub open spec fn can_minor(self, row: int, col: int) -> bool
        decreases self.rows, 0nat, 0nat,
    {
        if self.rows > 0 {
            self.submatrix(row, col).can_determinant()
        } else {
            true
        }
    }

    /// The operations of `invertible` are defined.
    pub open spec fn can_invertible(self) -> bool {
        &&& self.can_determinant()
        &&& can_abs(self.determinant())
        &&& can_epsilon::<T>()
    }

    /// The operations that give the cell at `(r, c)` of the inverse are
    /// defined.
    pub open spec fn can_inverse_cell(self, r: int, c: int) -> bool {
        &&& self.can_cofactor(c, r)
        &&& self.cofactor(c, r).div_req(self.determinant())
    }

    /// The operations of `invertible` are defined and, for an invertible
    /// grid, those of `inverse`.
    pub open spec fn can_inverse(self) -> bool {
        &&& self.can_invertible()
        &&& self.invertible() ==> forall|r: int, c: int|
            0 <= r < self.rows && 0 <= c < self.cols ==> #[trigger] self.can_inverse_cell(r, c)
    }

    /// The operations of `row_by_column` are defined.
    pub open spec fn can_row_by_column(self, other: Grid<T>, r: int, c: int, k: nat) -> bool
        decreases k,
    {
        if k == 0 {
            true
        } else if k == 1 {
            self.at(r, 0).mul_req(other.at(0, c))
        } else {
            let j = (k - 1) as nat;
            &&& self.can_row_by_column(other, r, c, j)
            &&& self.at(r, j as int).mul_req(other.at(j as int, c))
            &&& self.row_by_column(other, r, c, j).add_req(
                self.at(r, j as int).mul_spec(other.at(j as int, c)),
            )
        }
    }

    /// The operations of `product` are defined.
    pub open spec fn can_product(self, other: Grid<T>) -> bool {
        forall|r: int, c: int|
            0 <= r < self.rows && 0 <= c < other.cols ==> #[trigger] self.can_row_by_column(
                other,
                r,
                c,
                self.cols,
            )
    }

    /// The operations of `row_by_tuple` are defined.
    pub open spec fn can_row_by_tuple(self, r: int, t: Tuple<T>) -> bool {
        let x = self.at(r, 0).mul_spec(t.x);
        let y = self.at(r, 1).mul_spec(t.y);
        let z = self.at(r, 2).mul_spec(t.z);
        let w = self.at(r, 3).mul_spec(t.w);
        &&& self.at(r, 0).mul_req(t.x)
        &&& self.at(r, 1).mul_req(t.y)
        &&& self.at(r, 2).mul_req(t.z)
        &&& self.at(r, 3).mul_req(t.w)
        &&& x.add_req(y)
        &&& x.add_spec(y).add_req(z)
        &&& x.add_spec(y).add_spec(z).add_req(w)
    }

    /// The operations of `apply` are defined.
    pub open spec fn can_apply(self, t: Tuple<T>) -> bool {
        &&& self.can_row_by_tuple(0, t)
        &&& self.can_row_by_tuple(1, t)
        &&& self.can_row_by_tuple(2, t)
        &&& self.can_row_by_tuple(3, t)
    }

    /// The comparisons of `spec_equal` are defined.
    pub open spec fn can_equal(self, other: Grid<T>) -> bool {
        forall|r: int, c: int|
            0 <= r < self.rows && 0 <= c < self.cols ==> can_near(
                #[trigger] self.at(r, c),
                other.at(r, c),
            )
    }

    /// Where the operations of an expansion are defined, so are those of
    /// every shorter one.
    pub proof fn lemma_can_expansion(self, k: nat, n: nat)
        requires
            k <= n,
            self.can_expansion(n),
        ensures
            self.can_expansion(k),
        decreases n,
    {
        if k < n {
            self.lemma_can_expansion(k, (n - 1) as nat);
        }
    }

    /// Where the operations of a row times a column are defined, so are
    /// those over fewer cells.
    pub proof fn lemma_can_row_by_column(self, other: Grid<T>, r: int, c: int, k: nat, n: nat)
        requires
            1 <= k <= n,
            self.can_row_by_column(other, r, c, n),
        ensures
            self.can_row_by_column(other, r, c, k),
        decreases n,
    {
        if k < n {
            self.lemma_can_row_by_column(other, r, c, k, (n - 1) as nat);
        }
    }

    /// Whether the absolute value of the determinant exceeds the tolerance.
    pub open spec fn invertible(self) -> bool {
        spec_abs(self.determinant()).is_gt(&spec_epsilon::<T>())
    }

    /// The transpose of the grid of cofactors: the cell at `(r, c)` is the
    /// cofactor at `(c, r)`.
    pub open spec fn adjugate(self) -> Grid<T> {
        Grid::tabulate(self.rows, self.cols, |r: int, c: int| self.cofactor(c, r))
    }

    /// The adjugate with every cell divided by the determinant.
    pub open spec fn inverse(self) -> Grid<T> {
        Grid::tabulate(
            self.rows,
            self.cols,
            |r: int, c: int| self.adjugate().at(r, c).div_spec(self.determinant()),
        )
    }

    /// Row `r` of this grid times column `c` of `other`, over their first `k`
    /// cells: the products added from left to right, zero where there is none.
    pub open spec fn row_by_column(self, other: Grid<T>, r: int, c: int, k: nat) -> T
        decreases k,
    {
        if k == 0 {
            spec_zero::<T>()
        } else if k == 1 {
            self.at(r, 0).mul_spec(other.at(0, c))
        } else {
            let j = (k - 1) as nat;
            self.row_by_column(other, r, c, j).add_spec(
                self.at(r, j as int).mul_spec(other.at(j as int, c)),
            )
        }
    }

    /// The matrix product, for `self.cols == other.rows`.
    pub open spec fn product(self, other: Grid<T>) -> Grid<T> {
        Grid::tabulate(
            self.rows,
            other.cols,
            |r: int, c: int| self.row_by_column(other, r, c, self.cols),
        )
    }

    /// Row `r` of a grid of four columns times the tuple `t` as a column.
    pub open spec fn row_by_tuple(self, r: int, t: Tuple<T>) -> T {
        self.at(r, 0).mul_spec(t.x).add_spec(self.at(r, 1).mul_spec(t.y)).add_spec(
            self.at(r, 2).mul_spec(t.z),
        ).add_spec(self.at(r, 3).mul_spec(t.w))
    }

    /// A four-by-four grid times the tuple `t` as a column.
    pub open spec fn apply(self, t: Tuple<T>) -> Tuple<T> {
        Tuple {
            x: self.row_by_tuple(0, t),
            y: self.row_by_tuple(1, t),
            z: self.row_by_tuple(2, t),
            w: self.row_by_tuple(3, t),
        }
    }

    /// The same shape, and every cell near the cell of `other` in its place.
    pub open spec fn spec_equal(self, other: Grid<T>) -> bool {
        &&& self.rows == other.rows
        &&& self.cols == other.cols
        &&& forall|r: int, c: int|
            0 <= r < self.rows && 0 <= c < self.cols ==> near(
                #[trigger] self.at(r, c),
                other.at(r, c),
            )
    }

    /// The identity with `x`, `y`, `z` in the last column of the first three
    /// rows.
    pub open spec fn translation(x: T, y: T, z: T) -> Grid<T> {
        Grid::<T>::identity().update(0, 3, x).update(1, 3, y).update(2, 3, z)
    }

    /// The identity with `x`, `y`, `z` as the first three cells of the
    /// diagonal.
    pub open spec fn scaling(x: T, y: T, z: T) -> Grid<T> {
        Grid::<T>::identity().update(0, 0, x).update(1, 1, y).update(2, 2, z)
    }

    /// The identity with the six cells off the diagonal of its first three
    /// rows and columns set: `xy` moves `x` in proportion to `y`, and so on.
    pub open spec fn shearing(xy: T, xz: T, yx: T, yz: T, zx: T, zy: T) -> Grid<T> {
        Grid::<T>::identity().update(0, 1, xy).update(0, 2, xz).update(1, 0, yx).update(
            1,
            2,
            yz,
        ).update(2, 0, zx).update(2, 1, zy)
    }

    /// The rotation about `axis` by the angle whose cosine and sine are `cos`
    /// and `sin`: the identity with `cos, -sin / sin, cos` in the two rows and
    /// columns other than the axis, and with the signs of the sines exchanged
    /// for the Y axis.
    pub open spec fn rotation(axis: Axis, cos: T, sin: T) -> Grid<T> {
        let i = Grid::<T>::identity();
        match axis {
            Axis::X => i.update(1, 1, cos).update(1, 2, sin.neg_spec()).update(2, 1, sin).update(
                2,
                2,
                cos,
            ),
            Axis::Y => i.update(0, 0, cos).update(0, 2, sin).update(2, 0, sin.neg_spec()).update(
                2,
                2,
                cos,
            ),
            Axis::Z => i.update(0, 0, cos).update(0, 1, sin.neg_spec()).update(1, 0, sin).update(
                1,
                1,
                cos,
            ),
        }
    }
}

} // verus!
