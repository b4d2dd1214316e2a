use crate::grid::Grid;
use crate::helper::{
    abs, allowed, defined, epsilon, equal, exact, near, one, spec_zero, zero, Axis, MathError,
    Number,
};
use crate::tuple::Tuple;
use vstd::prelude::*;
use vstd::std_specs::cmp::*;
use vstd::std_specs::ops::*;

verus! {

/// A matrix of scalars, stored row by row.
#[derive(Debug)]
pub struct Matrix<T> {
    row: usize,
    column: usize,
    data: Vec<T>,
}

/// A cell inside the shape lies inside the row-major storage.
proof fn lemma_cell_index(r: int, c: int, rows: int, cols: int)
    by (nonlinear_arith)
    requires
        0 <= r < rows,
        0 <= c < cols,
    ensures
        0 <= r * cols + c < rows * cols,
{
}

/// A place in the row-major storage is the cell at its quotient and remainder
/// by the number of columns.
proof fn lemma_index_cell(i: int, rows: int, cols: int)
    by (nonlinear_arith)
    requires
        0 <= i < rows * cols,
        0 <= rows,
        0 <= cols,
    ensures
        cols > 0,
        0 <= i / cols < rows,
        0 <= i % cols < cols,
        (i / cols) * cols + i % cols == i,
{
}

impl<T: Number> View for Matrix<T> {
    type V = Grid<T>;

    /// The shape, and the stored values read row by row.
    closed spec fn view(&self) -> Grid<T> {
        Grid::of(self.row as nat, self.column as nat, self.data@)
    }
}

impl<T> Matrix<T> {
    #[verifier::type_invariant]
    /// There is one stored value for every cell.
    spec fn inv(&self) -> bool {
        self.data.len() == self.row * self.column
    }
}

impl<T: Number> Matrix<T> {
    /// The content of a matrix always has the shape it declares.
    pub proof fn lemma_view_wf(self)
        ensures
            self@.wf(),
    {
    }

    /// The matrix of the given shape with zero in every cell.
    pub fn new(row: usize, column: usize) -> (r: Matrix<T>)
        requires
            row * column <= usize::MAX,
        ensures
            r@.rows == row,
            r@.cols == column,
            exact::<T>() ==> r@ == Grid::<T>::zero(row as nat, column as nat),
    {
        let n: usize = row * column;
        let mut data: Vec<T> = Vec::with_capacity(n);
        let mut i: usize = 0;
        while i < n
            invariant
                i <= n,
                data.len() == i,
                exact::<T>() ==> forall|k: int| 0 <= k < i ==> data@[k] == spec_zero::<T>(),
            decreases n - i,
        {
            data.push(zero());
            i += 1;
        }
        let r = Matrix { row, column, data };
        proof {
            if exact::<T>() {
                assert forall|p: int, q: int| 0 <= p < row && 0 <= q < column implies r@.cells[p][q]
                    == spec_zero::<T>() by {
                    lemma_cell_index(p, q, row as int, column as int);
                }
                r@.lemma_equal(Grid::<T>::zero(row as nat, column as nat));
            }
        }
        r
    }

    /// The matrix of the given shape whose cells are `data`, row by row.
    pub fn new_with_data(row: usize, column: usize, data: Vec<T>) -> (r: Result<
        Matrix<T>,
        MathError,
    >)
        ensures
            r is Ok <==> data@.len() == row * column,
            r is Ok ==> r->Ok_0@ == Grid::of(row as nat, column as nat, data@),
            r is Err ==> r->Err_0 == MathError::ShapeMismatch,
    {
        let len: usize = data.len();
        match row.checked_mul(column) {
            Some(n) => {
                if n == len {
                    Ok(Matrix { row, column, data })
                } else {
                    Err(MathError::ShapeMismatch)
                }
            },
            None => Err(MathError::ShapeMismatch),
        }
    }

    /// The four-by-four matrix whose cells are `data`, row by row.
    pub fn new_4x4_with_data(data: Vec<T>) -> (r: Result<Matrix<T>, MathError>)
        ensures
            r is Ok <==> data@.len() == 16,
            r is Ok ==> r->Ok_0@ == Grid::of(4, 4, data@),
            r is Err ==> r->Err_0 == MathError::ShapeMismatch,
    {
        Matrix::new_with_data(4, 4, data)
    }

    /// The three-by-three matrix whose cells are `data`, row by row.
    pub fn new_3x3_with_data(data: Vec<T>) -> (r: Result<Matrix<T>, MathError>)
        ensures
            r is Ok <==> data@.len() == 9,
            r is Ok ==> r->Ok_0@ == Grid::of(3, 3, data@),
            r is Err ==> r->Err_0 == MathError::ShapeMismatch,
    {
        Matrix::new_with_data(3, 3, data)
    }

    /// A matrix whose storage holds the cells of `g` in row-major order has
    /// `g` as its content.
    proof fn lemma_content(self, g: Grid<T>)
        requires
            g.wf(),
            g.rows == self.row,
            g.cols == self.column,
            self.data@.len() == self.row * self.column,
            forall|k: int|
                0 <= k < self.data@.len() ==> #[trigger] self.data@[k] == g.at(
                    k / (self.column as int),
                    k % (self.column as int),
                ),
        ensures
            self@ == g,
    {
        assert forall|p: int, q: int| 0 <= p < self.row && 0 <= q < self.column implies (
        #[trigger] self@.at(p, q)) == g.at(p, q) by {
            lemma_cell_index(p, q, self.row as int, self.column as int);
            vstd::arithmetic::div_mod::lemma_fundamental_div_mod_converse(
                p * self.column + q,
                self.column as int,
                p,
                q,
            );
        }
        self@.lemma_equal(g);
    }

    /// Builds the matrix whose content is `g` from the cells of `g` in
    /// row-major order.
    fn from_cells(row: usize, column: usize, data: Vec<T>, Ghost(g): Ghost<Grid<T>>) -> (m: Matrix<
        T,
    >)
        requires
            g.wf(),
            g.rows == row,
            g.cols == column,
            data@.len() == row * column,
            forall|k: int|
                0 <= k < data@.len() ==> #[trigger] data@[k] == g.at(
                    k / (column as int),
                    k % (column as int),
                ),
        ensures
            m@ == g,
    {
        let m = Matrix { row, column, data };
        proof {
            m.lemma_content(g);
        }
        m
    }

    /// The place in a row-major storage of `rows` rows of `columns` cells,
    /// as a row and a column.
    fn get_row_and_column(index: usize, rows: usize, columns: usize) -> (r: (usize, usize))
        requires
            index < rows * columns,
        ensures
            r.0 == index / columns,
            r.1 == index % columns,
            r.0 < rows,
            r.1 < columns,
    {
        proof {
            lemma_index_cell(index as int, rows as int, columns as int);
        }
        (index / columns, index % columns)
    }

    /// The cell at `(row, column)` inside the shape.
    fn cell(&self, row: usize, column: usize) -> (r: T)
        requires
            row < self@.rows,
            column < self@.cols,
        ensures
            r == self@.at(row as int, column as int),
    {
        proof {
            use_type_invariant(self);
            lemma_cell_index(row as int, column as int, self.row as int, self.column as int);
        }
        self.data[row * self.column + column]
    }

    /// The number of rows.
    pub fn rows(&self) -> (r: usize)
        ensures
            r == self@.rows,
    {
        self.row
    }

    /// The number of columns.
    pub fn columns(&self) -> (r: usize)
        ensures
            r == self@.cols,
    {
        self.column
    }

    /// Whether `(row, column)` lies inside the shape.
    fn is_in_bound(&self, row: usize, column: usize) -> (r: bool)
        ensures
            r == (row < self@.rows && column < self@.cols),
    {
        self.row > row && self.column > column
    }

    /// The cell at `(row, column)`, or a failure outside the shape.
    pub fn get(&self, row: usize, column: usize) -> (r: Result<T, MathError>)
        ensures
            r == (if row < self@.rows && column < self@.cols {
                Ok::<T, MathError>(self@.at(row as int, column as int))
            } else {
                Err::<T, MathError>(MathError::OutOfBounds)
            }),
    {
        if self.is_in_bound(row, column) {
            Ok(self.cell(row, column))
        } else {
            Err(MathError::OutOfBounds)
        }
    }

    /// Replaces the cell at `(row, column)` inside the shape.
    fn put(&mut self, row: usize, column: usize, value: T)
        requires
            row < old(self)@.rows,
            column < old(self)@.cols,
        ensures
            final(self)@ == old(self)@.update(row as int, column as int, value),
    {
        proof {
            use_type_invariant(&*self);
            lemma_cell_index(row as int, column as int, self.row as int, self.column as int);
        }
        let i: usize = row * self.column + column;
        self.data[i] = value;
        proof {
            let cols = self.column as int;
            let g = old(self)@.update(row as int, column as int, value);
            assert forall|p: int, q: int| 0 <= p < self.row && 0 <= q < self.column implies (
            #[trigger] self@.cells[p][q]) == g.cells[p][q] by {
                lemma_cell_index(p, q, self.row as int, cols);
                if p * cols + q == i as int {
                    vstd::arithmetic::div_mod::lemma_fundamental_div_mod_converse(
                        i as int,
                        cols,
                        p,
                        q,
                    );
                    vstd::arithmetic::div_mod::lemma_fundamental_div_mod_converse(
                        i as int,
                        cols,
                        row as int,
                        column as int,
                    );
                }
            }
            self@.lemma_equal(g);
        }
    }

    /// Replaces the cell at `(row, column)`, or fails outside the shape and
    /// leaves the matrix as it is.
    pub fn set(&mut self, row: usize, column: usize, value: T) -> (r: Result<(), MathError>)
        ensures
            r is Ok <==> row < old(self)@.rows && column < old(self)@.cols,
            r is Ok ==> final(self)@ == old(self)@.update(row as int, column as int, value),
            r is Err ==> r->Err_0 == MathError::OutOfBounds && final(self)@ == old(self)@,
    {
        if self.is_in_bound(row, column) {
            self.put(row, column, value);
            Ok(())
        } else {
            Err(MathError::OutOfBounds)
        }
    }

    /// The four-by-four identity.
    pub fn new_identity_matrix() -> (r: Matrix<T>)
        ensures
            r@.rows == 4,
            r@.cols == 4,
            exact::<T>() ==> r@ == Grid::<T>::identity(),
    {
        let o: T = one();
        let z: T = zero();
        let data: Vec<T> = vec![o, z, z, z, z, o, z, z, z, z, o, z, z, z, z, o];
        assert(data.len() == 4usize * 4usize);
        let m = Matrix { row: 4, column: 4, data };
        proof {
            if exact::<T>() {
                m.lemma_content(Grid::<T>::identity());
            }
        }
        m
    }

    /// The rotation about `axis` by the angle whose cosine is `cos` and whose
    /// sine is `sin`.
    pub fn rotation(axis: Axis, cos: T, sin: T) -> (r: Matrix<T>)
        requires
            allowed::<T>(sin.neg_req()),
        ensures
            r@.rows == 4,
            r@.cols == 4,
            axis == Axis::X ==> r@.at(1, 1) == cos && r@.at(2, 1) == sin && r@.at(2, 2) == cos,
            axis == Axis::Y ==> r@.at(0, 0) == cos && r@.at(0, 2) == sin && r@.at(2, 2) == cos,
            axis == Axis::Z ==> r@.at(0, 0) == cos && r@.at(1, 0) == sin && r@.at(1, 1) == cos,
            exact::<T>() ==> r@ == Grid::rotation(axis, cos, sin),
    {
        let mut result = Matrix::new_identity_matrix();
        match axis {
            Axis::X => {
                result.put(1, 1, cos);
                result.put(1, 2, sin.neg());
                result.put(2, 1, sin);
                result.put(2, 2, cos);
            },
            Axis::Y => {
                result.put(0, 0, cos);
                result.put(0, 2, sin);
                result.put(2, 0, sin.neg());
                result.put(2, 2, cos);
            },
            Axis::Z => {
                result.put(0, 0, cos);
                result.put(0, 1, sin.neg());
                result.put(1, 0, sin);
                result.put(1, 1, cos);
            },
        }
        result
    }

    /// The shear that moves each coordinate in proportion to the two others.
    pub fn shearing(xy: T, xz: T, yx: T, yz: T, zx: T, zy: T) -> (r: Matrix<T>)
        ensures
            r@.rows == 4,
            r@.cols == 4,
            r@.at(0, 1) == xy && r@.at(0, 2) == xz,
            r@.at(1, 0) == yx && r@.at(1, 2) == yz,
            r@.at(2, 0) == zx && r@.at(2, 1) == zy,
            exact::<T>() ==> r@ == Grid::shearing(xy, xz, yx, yz, zx, zy),
    {
        let mut result = Matrix::new_identity_matrix();
        result.put(0, 1, xy);
        result.put(0, 2, xz);
        result.put(1, 0, yx);
        result.put(1, 2, yz);
        result.put(2, 0, zx);
        result.put(2, 1, zy);
        result
    }

    /// The translation by `(x, y, z)`.
    pub fn translation(x: T, y: T, z: T) -> (r: Matrix<T>)
        ensures
            r@.rows == 4,
            r@.cols == 4,
            r@.at(0, 3) == x && r@.at(1, 3) == y && r@.at(2, 3) == z,
            exact::<T>() ==> r@ == Grid::translation(x, y, z),
    {
        let mut result = Matrix::new_identity_matrix();
        result.put(0, 3, x);
        result.put(1, 3, y);
        result.put(2, 3, z);
        result
    }

    /// The scaling by `x`, `y` and `z` along the three axes.
    pub fn scaling(x: T, y: T, z: T) -> (r: Matrix<T>)
        ensures
            r@.rows == 4,
            r@.cols == 4,
            r@.at(0, 0) == x && r@.at(1, 1) == y && r@.at(2, 2) == z,
            exact::<T>() ==> r@ == Grid::scaling(x, y, z),
    {
        let mut result = Matrix::new_identity_matrix();
        result.put(0, 0, x);
        result.put(1, 1, y);
        result.put(2, 2, z);
        result
    }

    /// Rows and columns swapped.
    pub fn transpose(&self) -> (r: Matrix<T>)
        ensures
            r@ == self@.transpose(),
    {
        proof {
            use_type_invariant(self);
            assert(self.row * self.column == self.column * self.row) by (nonlinear_arith);
        }
        let n: usize = self.data.len();
        let ghost g = self@.transpose();
        let mut data: Vec<T> = Vec::with_capacity(n);
        let mut i: usize = 0;
        while i < n
            invariant
                i <= n,
                n == self.column * self.row,
                data@.len() == i,
                g == self@.transpose(),
                forall|k: int|
                    0 <= k < i ==> #[trigger] data@[k] == g.at(
                        k / (self.row as int),
                        k % (self.row as int),
                    ),
            decreases n - i,
        {
            let (p, q) = Self::get_row_and_column(i, self.column, self.row);
            data.push(self.cell(q, p));
            i += 1;
        }
        Self::from_cells(self.column, self.row, data, Ghost(g))
    }

    /// This matrix without row `row` and column `column`.
    pub fn submatrix(&self, row: usize, column: usize) -> (r: Matrix<T>)
        requires
            row < self@.rows,
            column < self@.cols,
        ensures
            r@ == self@.submatrix(row as int, column as int),
    {
        proof {
            use_type_invariant(self);
            assert((self.row - 1) * (self.column - 1) <= self.row * self.column)
                by (nonlinear_arith)
                requires
                    self.row >= 1,
                    self.column >= 1,
            ;
        }
        let rows: usize = self.row - 1;
        let columns: usize = self.column - 1;
        let n: usize = rows * columns;
        let ghost g = self@.submatrix(row as int, column as int);
        let mut data: Vec<T> = Vec::with_capacity(n);
        let mut i: usize = 0;
        while i < n
            invariant
                i <= n,
                n == rows * columns,
                rows == self@.rows - 1,
                columns == self@.cols - 1,
                row < self@.rows,
                column < self@.cols,
                data@.len() == i,
                g == self@.submatrix(row as int, column as int),
                forall|k: int|
                    0 <= k < i ==> #[trigger] data@[k] == g.at(
                        k / (columns as int),
                        k % (columns as int),
                    ),
            decreases n - i,
        {
            let (p, q) = Self::get_row_and_column(i, rows, columns);
            let from_row: usize = if p < row {
                p
            } else {
                p + 1
            };
            let from_column: usize = if q < column {
                q
            } else {
                q + 1
            };
            data.push(self.cell(from_row, from_column));
            i += 1;
        }
        Self::from_cells(rows, columns, data, Ghost(g))
    }

    /// The determinant of a square matrix with two rows or more.
    pub fn determinant(&self) -> (r: T)
        requires
            self@.is_square(),
            self@.rows >= 2,
            allowed::<T>(self@.can_determinant()),
        ensures
            exact::<T>() ==> r == self@.determinant(),
        decreases self@.rows, 3nat, 0nat,
    {
        if self.row == 2 {
            self.cell(0, 0) * self.cell(1, 1) - self.cell(0, 1) * self.cell(1, 0)
        } else {
            let mut result: T = zero();
            let mut j: usize = 0;
            while j < self.column
                invariant
                    allowed::<T>(self@.can_expansion(self@.cols)),
                    self@.is_square(),
                    self@.rows >= 3,
                    self.column == self@.cols,
                    j <= self.column,
                    exact::<T>() ==> result == self@.expansion(j as nat),
                decreases self.column - j,
            {
                proof {
                    if !defined::<T>() {
                        self@.lemma_can_expansion((j + 1) as nat, self@.cols);
                    }
                }
                result = result + self.cell(0, j) * self.cofactor(0, j);
                j += 1;
            }
            result
        }
    }

    /// The determinant of the matrix without row `row` and column `column`.
    pub fn minor(&self, row: usize, column: usize) -> (r: T)
        requires
            self@.is_square(),
            self@.rows >= 3,
            row < self@.rows,
            column < self@.cols,
            allowed::<T>(self@.can_minor(row as int, column as int)),
        ensures
            exact::<T>() ==> r == self@.minor(row as int, column as int),
        decreases self@.rows, 0nat, 0nat,
    {
        let submatrix = self.submatrix(row, column);
        submatrix.determinant()
    }

    /// The minor at `(row, column)`, negated where `row + column` is odd.
    pub fn cofactor(&self, row: usize, column: usize) -> (r: T)
        requires
            self@.is_square(),
            self@.rows >= 3,
            row < self@.rows,
            column < self@.cols,
            allowed::<T>(self@.can_cofactor(row as int, column as int)),
        ensures
            exact::<T>() ==> r == self@.cofactor(row as int, column as int),
        decreases self@.rows, 1nat, 0nat,
    {
        let result = self.minor(row, column);
        if row % 2 == column % 2 {
            result
        } else {
            result.neg()
        }
    }

    /// Whether the determinant is further from zero than the tolerance.
    pub fn is_invertible(&self) -> (r: bool)
        requires
            self@.is_square(),
            self@.rows >= 2,
            allowed::<T>(self@.can_invertible()),
        ensures
            exact::<T>() ==> r == self@.invertible(),
    {
        abs(self.determinant()) > epsilon()
    }

    /// The inverse: the adjugate with every cell divided by the determinant.
    pub fn inverse(&self) -> (r: Result<Matrix<T>, MathError>)
        requires
            self@.is_square(),
            self@.rows >= 3,
            allowed::<T>(self@.can_inverse()),
        ensures
            r is Err ==> r->Err_0 == MathError::NotInvertible,
            r is Ok ==> r->Ok_0@.rows == self@.rows && r->Ok_0@.cols == self@.cols,
            exact::<T>() ==> (r is Ok <==> self@.invertible()),
            exact::<T>() && r is Ok ==> r->Ok_0@ == self@.inverse(),
    {
        proof {
            use_type_invariant(self);
        }
        let determinant = self.determinant();
        if !(abs(determinant) > epsilon()) {
            return Err(MathError::NotInvertible);
        }
        let n: usize = self.data.len();
        let mut data: Vec<T> = Vec::with_capacity(n);
        let mut i: usize = 0;
        while i < n
            invariant
                allowed::<T>(self@.can_inverse()),
                exact::<T>() ==> self@.invertible(),
                self@.is_square(),
                self@.rows >= 3,
                self.row == self@.rows,
                self.column == self@.cols,
                i <= n,
                n == self.row * self.column,
                data@.len() == i,
                exact::<T>() ==> determinant == self@.determinant(),
                exact::<T>() ==> forall|k: int|
                    0 <= k < i ==> #[trigger] data@[k] == self@.inverse().at(
                        k / (self.column as int),
                        k % (self.column as int),
                    ),
            decreases n - i,
        {
            let (p, q) = Self::get_row_and_column(i, self.row, self.column);
            assert(defined::<T>() || self@.can_inverse_cell(p as int, q as int));
            data.push(self.cofactor(q, p) / determinant);
            i += 1;
        }
        let m = Matrix { row: self.row, column: self.column, data };
        proof {
            if exact::<T>() {
                m.lemma_content(self@.inverse());
            }
        }
        Ok(m)
    }

    /// Row `row` of this matrix times column `column` of `rhs`.
    fn row_by_column(&self, rhs: &Matrix<T>, row: usize, column: usize) -> (r: T)
        requires
            self@.cols == rhs@.rows,
            row < self@.rows,
            column < rhs@.cols,
            allowed::<T>(
                self@.can_row_by_column(rhs@, row as int, column as int, self@.cols),
            ),
        ensures
            exact::<T>() ==> r == self@.row_by_column(
                rhs@,
                row as int,
                column as int,
                self@.cols,
            ),
    {
        if self.column == 0 {
            return zero();
        }
        proof {
            if !defined::<T>() {
                self@.lemma_can_row_by_column(rhs@, row as int, column as int, 1, self@.cols);
            }
        }
        let mut result: T = self.cell(row, 0) * rhs.cell(0, column);
        let mut k: usize = 1;
        while k < self.column
            invariant
                allowed::<T>(self@.can_row_by_column(rhs@, row as int, column as int, self@.cols)),
                self@.cols == rhs@.rows,
                self.column == self@.cols,
                row < self@.rows,
                column < rhs@.cols,
                1 <= k <= self.column,
                exact::<T>() ==> result == self@.row_by_column(
                    rhs@,
                    row as int,
                    column as int,
                    k as nat,
                ),
            decreases self.column - k,
        {
            proof {
                if !defined::<T>() {
                    self@.lemma_can_row_by_column(
                        rhs@,
                        row as int,
                        column as int,
                        (k + 1) as nat,
                        self@.cols,
                    );
                }
            }
            result = result + self.cell(row, k) * rhs.cell(k, column);
            k += 1;
        }
        result
    }

    /// The matrix product, for a right factor with as many rows as this
    /// matrix has columns.
    pub fn mul(&self, rhs: &Matrix<T>) -> (r: Result<Matrix<T>, MathError>)
        requires
            self@.rows * rhs@.cols <= usize::MAX,
            allowed::<T>(self@.cols == rhs@.rows ==> self@.can_product(rhs@)),
        ensures
            r is Ok <==> self@.cols == rhs@.rows,
            r is Err ==> r->Err_0 == MathError::DimensionMismatch,
            r is Ok ==> r->Ok_0@.rows == self@.rows && r->Ok_0@.cols == rhs@.cols,
            exact::<T>() && r is Ok ==> r->Ok_0@ == self@.product(rhs@),
    {
        if self.column != rhs.row {
            return Err(MathError::DimensionMismatch);
        }
        let n: usize = self.row * rhs.column;
        let mut data: Vec<T> = Vec::with_capacity(n);
        let mut i: usize = 0;
        while i < n
            invariant
                allowed::<T>(self@.can_product(rhs@)),
                self@.cols == rhs@.rows,
                self.row == self@.rows,
                rhs.column == rhs@.cols,
                i <= n,
                n == self.row * rhs.column,
                data@.len() == i,
                exact::<T>() ==> forall|k: int|
                    0 <= k < i ==> #[trigger] data@[k] == self@.product(rhs@).at(
                        k / (rhs.column as int),
                        k % (rhs.column as int),
                    ),
            decreases n - i,
        {
            let (p, q) = Self::get_row_and_column(i, self.row, rhs.column);
            assert(defined::<T>() || self@.can_row_by_column(
                rhs@,
                p as int,
                q as int,
                self@.cols,
            ));
            data.push(self.row_by_column(rhs, p, q));
            i += 1;
        }
        let m = Matrix { row: self.row, column: rhs.column, data };
        proof {
            if exact::<T>() {
                m.lemma_content(self@.product(rhs@));
            }
        }
        Ok(m)
    }

    /// Row `row` of a matrix of four columns times `rhs` as a column.
    fn row_by_tuple(&self, row: usize, rhs: &Tuple<T>) -> (r: T)
        requires
            self@.cols == 4,
            row < self@.rows,
            allowed::<T>(self@.can_row_by_tuple(row as int, *rhs)),
        ensures
            exact::<T>() ==> r == self@.row_by_tuple(row as int, *rhs),
    {
        self.cell(row, 0) * rhs.x + self.cell(row, 1) * rhs.y + self.cell(row, 2) * rhs.z
            + self.cell(row, 3) * rhs.w
    }

    /// A four-by-four matrix times `rhs` as a column.
    pub fn mul_tuple(&self, rhs: &Tuple<T>) -> (r: Result<Tuple<T>, MathError>)
        requires
            allowed::<T>(self@.rows == 4 && self@.cols == 4 ==> self@.can_apply(*rhs)),
        ensures
            r is Ok <==> self@.rows == 4 && self@.cols == 4,
            r is Err ==> r->Err_0 == MathError::DimensionMismatch,
            exact::<T>() && r is Ok ==> r->Ok_0 == self@.apply(*rhs),
    {
        if self.row != 4 || self.column != 4 {
            return Err(MathError::DimensionMismatch);
        }
        Ok(
            Tuple {
                x: self.row_by_tuple(0, rhs),
                y: self.row_by_tuple(1, rhs),
                z: self.row_by_tuple(2, rhs),
                w: self.row_by_tuple(3, rhs),
            },
        )
    }

    /// Approximate equality: the same shape and every cell near its
    /// counterpart. Matrices of one shape are compared in every cell.
    pub fn equal(&self, other: &Matrix<T>) -> (r: bool)
        requires
            allowed::<T>(
                self@.rows == other@.rows && self@.cols == other@.cols ==> self@.can_equal(other@),
            ),
        ensures
            r ==> self@.rows == other@.rows && self@.cols == other@.cols,
            exact::<T>() ==> r == self@.spec_equal(other@),
    {
        if self.row != other.row || self.column != other.column {
            return false;
        }
        proof {
            use_type_invariant(self);
        }
        let n: usize = self.data.len();
        let mut all: bool = true;
        let ghost mut differ: (int, int) = (0, 0);
        let mut i: usize = 0;
        while i < n
            invariant
                allowed::<T>(self@.can_equal(other@)),
                self@.rows == other@.rows,
                self@.cols == other@.cols,
                self.row == self@.rows,
                self.column == self@.cols,
                i <= n,
                n == self.row * self.column,
                exact::<T>() && all ==> forall|k: int|
                    0 <= k < i ==> near(
                        #[trigger] self@.at(k / (self.column as int), k % (self.column as int)),
                        other@.at(k / (self.column as int), k % (self.column as int)),
                    ),
                exact::<T>() && !all ==> 0 <= differ.0 < self@.rows && 0 <= differ.1 < self@.cols
                    && !near(self@.at(differ.0, differ.1), other@.at(differ.0, differ.1)),
            decreases n - i,
        {
            let (p, q) = Self::get_row_and_column(i, self.row, self.column);
            if !equal(self.cell(p, q), other.cell(p, q)) {
                all = false;
                proof {
                    differ = (p as int, q as int);
                }
            }
            i += 1;
        }
        proof {
            if exact::<T>() && all {
                assert forall|p: int, q: int|
                    0 <= p < self@.rows && 0 <= q < self@.cols implies near(
                    #[trigger] self@.at(p, q),
                    other@.at(p, q),
                ) by {
                    lemma_cell_index(p, q, self.row as int, self.column as int);
                    vstd::arithmetic::div_mod::lemma_fundamental_div_mod_converse(
                        p * self.column + q,
                        self.column as int,
                        p,
                        q,
                    );
                    let k = p * self.column + q;
                    let columns = self.column as int;
                    assert(self@.at(k / columns, k % columns) == self@.at(p, q));
                }
            }
        }
        all
    }
}

} // verus!
