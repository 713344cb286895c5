//! Square matrices in row-major order, and transformations with their
//! cached inverses.

use vstd::prelude::*;
use vstd::arithmetic::div_mod::lemma_fundamental_div_mod_converse;
use vstd::arithmetic::div_mod::lemma_fundamental_div_mod;
use crate::scalar::Scalar;
use crate::tuple::Tuple;

verus! {

/// A square matrix as mathematics sees it: its size and its cells, row
/// after row.
pub ghost struct MatrixModel {
    pub size: nat,
    pub cells: Seq<Scalar>,
}

impl MatrixModel {
    /// There is a cell for each row and column.
    pub open spec fn wf(self) -> bool {
        self.cells.len() == self.size * self.size
    }

    /// The cell in row `row` and column `col`.
    pub open spec fn at(self, row: int, col: int) -> Scalar {
        self.cells[row * self.size + col]
    }

    /// The matrix of the given size whose cell in row `r` and column `c` is
    /// `f(r, c)`.
    pub open spec fn build(size: nat, f: spec_fn(int, int) -> Scalar) -> MatrixModel {
        MatrixModel {
            size,
            cells: Seq::new(size * size, |i: int| f(i / size as int, i % size as int)),
        }
    }

    /// The matrix without one row and one column.
    pub open spec fn sub_matrix(self, row_delete: int, col_delete: int) -> MatrixModel {
        MatrixModel::build(
            (self.size - 1) as nat,
            |r: int, c: int|
                self.at(
                    if r < row_delete {
                        r
                    } else {
                        r + 1
                    },
                    if c < col_delete {
                        c
                    } else {
                        c + 1
                    },
                ),
        )
    }

    /// Rows and columns exchanged.
    pub open spec fn transpose(self) -> MatrixModel {
        MatrixModel::build(self.size, |r: int, c: int| self.at(c, r))
    }

    /// The determinant: one for a matrix without cells, for size one the
    /// cell, for size two the difference of the diagonal products,
    /// otherwise the expansion along the first row.
    pub open spec fn determinant(self) -> Scalar
        decreases self.size, self.size + 3,
    {
        if self.size == 0 {
            Scalar::spec_one()
        } else if self.size == 1 {
            self.at(0, 0)
        } else if self.size == 2 {
            self.at(0, 0).spec_mul(self.at(1, 1)).spec_sub(self.at(0, 1).spec_mul(self.at(1, 0)))
        } else {
            self.expansion(self.size as int)
        }
    }

    /// The first `cols` terms of the expansion along the first row, added
    /// to zero from the left.
    pub open spec fn expansion(self, cols: int) -> Scalar
        decreases self.size, 2 + cols,
    {
        if cols <= 0 || cols > self.size {
            Scalar::spec_zero()
        } else {
            self.expansion(cols - 1).spec_add(
                self.at(0, cols - 1).spec_mul(self.cofactor(0, cols - 1)),
            )
        }
    }

    /// The determinant of the matrix without row `row` and column `col`.
    pub open spec fn minor(self, row: int, col: int) -> Scalar
        decreases self.size, 0int,
    {
        if self.size == 0 {
            Scalar::spec_zero()
        } else {
            self.sub_matrix(row, col).determinant()
        }
    }

    /// The minor, negated where `row + col` is odd.
    pub open spec fn cofactor(self, row: int, col: int) -> Scalar
        decreases self.size, 1int,
    {
        if (row + col) % 2 == 0 {
            self.minor(row, col)
        } else {
            self.minor(row, col).spec_neg()
        }
    }

    /// Whether the determinant is other than zero.
    pub open spec fn invertible(self) -> bool {
        !self.determinant().spec_is_zero()
    }

    /// The inverse: the transposed matrix of cofactors, each divided by the
    /// determinant.
    pub open spec fn inverse(self) -> MatrixModel {
        MatrixModel::build(
            self.size,
            |r: int, c: int| self.cofactor(c, r).spec_div(self.determinant()),
        )
    }

    /// The first `k` terms of row `row` of `self` times column `col` of
    /// `m`, added to zero from the left.
    pub open spec fn row_by_column(self, m: MatrixModel, row: int, col: int, k: int) -> Scalar
        decreases k,
    {
        if k <= 0 {
            Scalar::spec_zero()
        } else {
            self.row_by_column(m, row, col, k - 1).spec_add(
                self.at(row, k - 1).spec_mul(m.at(k - 1, col)),
            )
        }
    }

    /// The matrix product.
    pub open spec fn multiply(self, m: MatrixModel) -> MatrixModel {
        MatrixModel::build(
            self.size,
            |r: int, c: int| self.row_by_column(m, r, c, self.size as int),
        )
    }

    /// Row `row` of the upper left four by four part times the tuple, each
    /// sum fused with its product, from the right.
    pub open spec fn row_by_tuple(self, row: int, t: Tuple) -> Scalar {
        self.at(row, 0).spec_mul_add(
            t.0,
            self.at(row, 1).spec_mul_add(
                t.1,
                self.at(row, 2).spec_mul_add(t.2, self.at(row, 3).spec_mul(t.3)),
            ),
        )
    }

    /// The matrix applied to a tuple.
    pub open spec fn multiply_tuple(self, t: Tuple) -> Tuple {
        (
            self.row_by_tuple(0, t),
            self.row_by_tuple(1, t),
            self.row_by_tuple(2, t),
            self.row_by_tuple(3, t),
        )
    }

    pub open spec fn identity() -> MatrixModel {
        let o = Scalar::spec_zero();
        let i = Scalar::spec_one();
        MatrixModel { size: 4, cells: seq![i, o, o, o, o, i, o, o, o, o, i, o, o, o, o, i] }
    }

    pub open spec fn translation(x: Scalar, y: Scalar, z: Scalar) -> MatrixModel {
        let o = Scalar::spec_zero();
        let i = Scalar::spec_one();
        MatrixModel { size: 4, cells: seq![i, o, o, x, o, i, o, y, o, o, i, z, o, o, o, i] }
    }

    pub open spec fn scaling(x: Scalar, y: Scalar, z: Scalar) -> MatrixModel {
        let o = Scalar::spec_zero();
        let i = Scalar::spec_one();
        MatrixModel { size: 4, cells: seq![x, o, o, o, o, y, o, o, o, o, z, o, o, o, o, i] }
    }

    pub open spec fn rotate_x(angle: Scalar) -> MatrixModel {
        let o = Scalar::spec_zero();
        let i = Scalar::spec_one();
        let c = angle.spec_cos();
        let s = angle.spec_sin();
        MatrixModel {
            size: 4,
            cells: seq![i, o, o, o, o, c, s.spec_neg(), o, o, s, c, o, o, o, o, i],
        }
    }

    pub open spec fn rotate_y(angle: Scalar) -> MatrixModel {
        let o = Scalar::spec_zero();
        let i = Scalar::spec_one();
        let c = angle.spec_cos();
        let s = angle.spec_sin();
        MatrixModel {
            size: 4,
            cells: seq![c, o, s, o, o, i, o, o, s.spec_neg(), o, c, o, o, o, o, i],
        }
    }

    pub open spec fn rotate_z(angle: Scalar) -> MatrixModel {
        let o = Scalar::spec_zero();
        let i = Scalar::spec_one();
        let c = angle.spec_cos();
        let s = angle.spec_sin();
        MatrixModel {
            size: 4,
            cells: seq![c, s.spec_neg(), o, o, s, c, o, o, o, o, i, o, o, o, o, i],
        }
    }

    pub open spec fn shearing(
        xy: Scalar,
        xz: Scalar,
        yx: Scalar,
        yz: Scalar,
        zx: Scalar,
        zy: Scalar,
    ) -> MatrixModel {
        let o = Scalar::spec_zero();
        let i = Scalar::spec_one();
        MatrixModel { size: 4, cells: seq![i, xy, xz, o, yx, i, yz, o, zx, zy, i, o, o, o, o, i] }
    }
}

/// The place of a cell in the row-major order, and back.
pub proof fn lemma_cell_index(n: int, row: int, col: int)
    requires
        0 <= row < n,
        0 <= col < n,
    ensures
        0 <= row * n + col < n * n,
        (row * n + col) / n == row,
        (row * n + col) % n == col,
{
    assert(0 <= row * n + col < n * n) by (nonlinear_arith)
        requires
            0 <= row < n,
            0 <= col < n,
    ;
    lemma_fundamental_div_mod_converse(row * n + col, n, row, col);
}

/// Row and column of a place in the row-major order.
pub proof fn lemma_index_split(n: int, i: int)
    requires
        0 < n,
        0 <= i < n * n,
    ensures
        0 <= i / n < n,
        0 <= i % n < n,
        i == (i / n) * n + i % n,
{
    lemma_fundamental_div_mod(i, n);
    assert(0 <= i / n < n) by (nonlinear_arith)
        requires
            0 < n,
            0 <= i < n * n,
            i == n * (i / n) + i % n,
            0 <= i % n < n,
    ;
    assert(n * (i / n) == (i / n) * n) by (nonlinear_arith);
}

/// The cells of a built matrix are what it was built from.
pub proof fn lemma_build(size: nat, f: spec_fn(int, int) -> Scalar)
    ensures
        MatrixModel::build(size, f).wf(),
        MatrixModel::build(size, f).size == size,
        forall|r: int, c: int|
            0 <= r < size && 0 <= c < size ==> #[trigger] MatrixModel::build(size, f).at(r, c)
                == f(r, c),
{
    let m = MatrixModel::build(size, f);
    assert forall|r: int, c: int| 0 <= r < size && 0 <= c < size implies #[trigger] m.at(r, c)
        == f(r, c) by {
        lemma_cell_index(size as int, r, c);
    }
}

/// A square matrix: `content` holds `size` rows of `size` cells each.
#[derive(Debug, PartialEq, Clone)]
pub struct Matrix {
    pub size: usize,
    pub content: Vec<Scalar>,
}

impl View for Matrix {
    type V = MatrixModel;

    open spec fn view(&self) -> MatrixModel {
        MatrixModel { size: self.size as nat, cells: self.content@ }
    }
}

impl Matrix {
    /// There is a cell for each row and column.
    pub open spec fn wf(&self) -> bool {
        self@.wf()
    }

    pub fn make_matrix_2(aa: Scalar, ab: Scalar, ba: Scalar, bb: Scalar) -> (m: Matrix)
        ensures
            m@ == (MatrixModel { size: 2, cells: seq![aa, ab, ba, bb] }),
            m.wf(),
    {
        let m = Matrix { size: 2, content: vec![aa, ab, ba, bb] };
        assert(m@.cells =~= seq![aa, ab, ba, bb]);
        assert(m@.cells.len() == 2 * 2);
        m
    }

    pub fn make_matrix_3(
        aa: Scalar,
        ab: Scalar,
        ac: Scalar,
        ba: Scalar,
        bb: Scalar,
        bc: Scalar,
        ca: Scalar,
        cb: Scalar,
        cc: Scalar,
    ) -> (m: Matrix)
        ensures
            m@ == (MatrixModel { size: 3, cells: seq![aa, ab, ac, ba, bb, bc, ca, cb, cc] }),
            m.wf(),
    {
        let m = Matrix { size: 3, content: vec![aa, ab, ac, ba, bb, bc, ca, cb, cc] };
        assert(m@.cells =~= seq![aa, ab, ac, ba, bb, bc, ca, cb, cc]);
        assert(m@.cells.len() == 3 * 3);
        m
    }

    pub fn make_matrix_4(
        aa: Scalar,
        ab: Scalar,
        ac: Scalar,
        ad: Scalar,
        ba: Scalar,
        bb: Scalar,
        bc: Scalar,
        bd: Scalar,
        ca: Scalar,
        cb: Scalar,
        cc: Scalar,
        cd: Scalar,
        da: Scalar,
        db: Scalar,
        dc: Scalar,
        dd: Scalar,
    ) -> (m: Matrix)
        ensures
            m@ == (MatrixModel {
                size: 4,
                cells: seq![aa, ab, ac, ad, ba, bb, bc, bd, ca, cb, cc, cd, da, db, dc, dd],
            }),
            m.wf(),
    {
        let m = Matrix {
            size: 4,
            content: vec![aa, ab, ac, ad, ba, bb, bc, bd, ca, cb, cc, cd, da, db, dc, dd],
        };
        assert(m@.cells =~= seq![aa, ab, ac, ad, ba, bb, bc, bd, ca, cb, cc, cd, da, db, dc, dd]);
        assert(m@.cells.len() == 4 * 4);
        m
    }

    pub fn identity() -> (m: Matrix)
        ensures
            m@ == MatrixModel::identity(),
            m.wf(),
    {
        let o = Scalar::zero();
        let i = Scalar::one();
        Matrix::make_matrix_4(i, o, o, o, o, i, o, o, o, o, i, o, o, o, o, i)
    }

    pub fn translation(x: Scalar, y: Scalar, z: Scalar) -> (m: Matrix)
        ensures
            m@ == MatrixModel::translation(x, y, z),
            m.wf(),
    {
        let o = Scalar::zero();
        let i = Scalar::one();
        Matrix::make_matrix_4(i, o, o, x, o, i, o, y, o, o, i, z, o, o, o, i)
    }

    pub fn scaling(x: Scalar, y: Scalar, z: Scalar) -> (m: Matrix)
        ensures
            m@ == MatrixModel::scaling(x, y, z),
            m.wf(),
    {
        let o = Scalar::zero();
        let i = Scalar::one();
        Matrix::make_matrix_4(x, o, o, o, o, y, o, o, o, o, z, o, o, o, o, i)
    }

    /// The cell in row `x` and column `y`.
    pub fn at(&self, x: usize, y: usize) -> (r: Scalar)
        requires
            self.wf(),
            x < self.size,
            y < self.size,
        ensures
            r == self@.at(x as int, y as int),
    {
        let cells = self.content.len();
        proof {
            lemma_cell_index(self.size as int, x as int, y as int);
            assert(0 <= x * self.size) by (nonlinear_arith)
                requires
                    0 <= x,
                    0 <= self.size,
            ;
            assert(self.size * self.size == cells);
        }
        self.content[y + x * self.size]
    }

    /// Whether the determinant is other than zero, that is, whether the
    /// matrix has an inverse.
    pub fn is_invertible(&self) -> (r: bool)
        requires
            self.wf(),
        ensures
            r == self@.invertible(),
    {
        !self.determinant().is_zero()
    }

    /// The inverse of a matrix that has one.
    pub fn inverse(&self) -> (m: Matrix)
        requires
            self.wf(),
            self@.invertible(),
        ensures
            m@ == self@.inverse(),
            m.wf(),
            m.size == self.size,
    {
        let det = self.determinant();
        let s = self.size;
        let total = self.content.len();
        let mut inverse: Vec<Scalar> = Vec::with_capacity(total);
        let mut index: usize = 0;
        proof {
            lemma_build(
                self@.size,
                |r: int, c: int| self@.cofactor(c, r).spec_div(self@.determinant()),
            );
        }
        while index < total
            invariant
                self.wf(),
                s == self.size,
                total == s * s,
                index <= total,
                inverse@.len() == index,
                det == self@.determinant(),
                forall|k: int| 0 <= k < index ==> inverse@[k] == self@.inverse().cells[k],
            decreases total - index,
        {
            proof {
                lemma_index_split(s as int, index as int);
            }
            let row = index / s;
            let col = index % s;
            let cofactor = self.cofactor(col, row);
            inverse.push(cofactor.div(det));
            index += 1;
        }
        let m = Matrix { size: s, content: inverse };
        assert(m@.cells =~= self@.inverse().cells);
        m
    }

    /// The inverse, where there is one.
    pub fn try_inverse(&self) -> (r: Option<Matrix>)
        requires
            self.wf(),
        ensures
            r.is_some() == self@.invertible(),
            r.is_some() ==> r.unwrap()@ == self@.inverse() && r.unwrap().wf(),
    {
        if self.is_invertible() {
            Some(self.inverse())
        } else {
            None
        }
    }

    pub fn determinant(&self) -> (d: Scalar)
        requires
            self.wf(),
        ensures
            d == self@.determinant(),
        decreases self.size, 2int,
    {
        if self.size == 0 {
            Scalar::one()
        } else if self.size == 1 {
            self.at(0, 0)
        } else if self.size == 2 {
            self.at(0, 0).mul(self.at(1, 1)).sub(self.at(0, 1).mul(self.at(1, 0)))
        } else {
            let mut determinant = Scalar::zero();
            let mut col: usize = 0;
            while col < self.size
                invariant
                    self.wf(),
                    col <= self.size,
                    determinant == self@.expansion(col as int),
                decreases self.size - col,
            {
                determinant = determinant.add(self.at(0, col).mul(self.cofactor(0, col)));
                col += 1;
            }
            determinant
        }
    }

    /// The matrix without row `row_delete` and column `col_delete`.
    pub fn sub_matrix(&self, row_delete: usize, col_delete: usize) -> (m: Matrix)
        requires
            self.wf(),
            row_delete < self.size,
            col_delete < self.size,
        ensures
            m@ == self@.sub_matrix(row_delete as int, col_delete as int),
            m.wf(),
            m.size == self.size - 1,
    {
        let s = self.size;
        let sub_size = s - 1;
        let cells = self.content.len();
        proof {
            assert(0 <= sub_size * sub_size <= s * s) by (nonlinear_arith)
                requires
                    0 <= sub_size <= s,
            ;
            assert(s * s == cells);
            lemma_build(
                sub_size as nat,
                |r: int, c: int|
                    self@.at(
                        if r < row_delete as int {
                            r
                        } else {
                            r + 1
                        },
                        if c < col_delete as int {
                            c
                        } else {
                            c + 1
                        },
                    ),
            );
        }
        let total = sub_size * sub_size;
        let mut res: Vec<Scalar> = Vec::with_capacity(total);
        let mut index: usize = 0;
        while index < total
            invariant
                self.wf(),
                s == self.size,
                sub_size == s - 1,
                row_delete < s,
                col_delete < s,
                total == sub_size * sub_size,
                index <= total,
                res@.len() == index,
                forall|k: int|
                    0 <= k < index ==> res@[k] == self@.sub_matrix(
                        row_delete as int,
                        col_delete as int,
                    ).cells[k],
            decreases total - index,
        {
            proof {
                lemma_index_split(sub_size as int, index as int);
            }
            let r = index / sub_size;
            let c = index % sub_size;
            let row = if r < row_delete {
                r
            } else {
                r + 1
            };
            let col = if c < col_delete {
                c
            } else {
                c + 1
            };
            res.push(self.at(row, col));
            index += 1;
        }
        let m = Matrix { size: sub_size, content: res };
        assert(m@.cells =~= self@.sub_matrix(row_delete as int, col_delete as int).cells);
        m
    }

    /// The determinant of the matrix without row `row` and column `col`.
    pub fn minor(&self, row: usize, col: usize) -> (r: Scalar)
        requires
            self.wf(),
            row < self.size,
            col < self.size,
        ensures
            r == self@.minor(row as int, col as int),
        decreases self.size, 0int,
    {
        let sub = self.sub_matrix(row, col);
        sub.determinant()
    }

    /// The minor, negated where `row + col` is odd.
    pub fn cofactor(&self, row: usize, col: usize) -> (r: Scalar)
        requires
            self.wf(),
            row < self.size,
            col < self.size,
        ensures
            r == self@.cofactor(row as int, col as int),
        decreases self.size, 1int,
    {
        let minor = self.minor(row, col);
        if (row % 2) == (col % 2) {
            minor
        } else {
            minor.neg()
        }
    }

    /// Rows and columns exchanged.
    pub fn transpose(&self) -> (m: Matrix)
        requires
            self.wf(),
        ensures
            m@ == self@.transpose(),
            m.wf(),
            m.size == self.size,
    {
        let s = self.size;
        let total = self.content.len();
        let mut res: Vec<Scalar> = Vec::with_capacity(total);
        let mut index: usize = 0;
        proof {
            lemma_build(self@.size, |r: int, c: int| self@.at(c, r));
        }
        while index < total
            invariant
                self.wf(),
                s == self.size,
                total == s * s,
                index <= total,
                res@.len() == index,
                forall|k: int| 0 <= k < index ==> res@[k] == self@.transpose().cells[k],
            decreases total - index,
        {
            proof {
                lemma_index_split(s as int, index as int);
            }
            let row = index / s;
            let col = index % s;
            res.push(self.at(col, row));
            index += 1;
        }
        let m = Matrix { size: s, content: res };
        assert(m@.cells =~= self@.transpose().cells);
        m
    }

    /// The matrix product of two matrices of one size.
    pub fn multiply(&self, m: &Matrix) -> (p: Matrix)
        requires
            self.wf(),
            m.wf(),
            m.size == self.size,
        ensures
            p@ == self@.multiply(m@),
            p.wf(),
            p.size == self.size,
    {
        let s = self.size;
        let total = self.content.len();
        let mut res: Vec<Scalar> = Vec::with_capacity(total);
        let mut index: usize = 0;
        proof {
            lemma_build(
                self@.size,
                |r: int, c: int| self@.row_by_column(m@, r, c, self@.size as int),
            );
        }
        while index < total
            invariant
                self.wf(),
                m.wf(),
                m.size == s,
                s == self.size,
                total == s * s,
                index <= total,
                res@.len() == index,
                forall|k: int| 0 <= k < index ==> res@[k] == self@.multiply(m@).cells[k],
            decreases total - index,
        {
            proof {
                lemma_index_split(s as int, index as int);
            }
            let row = index / s;
            let col = index % s;
            let mut val = Scalar::zero();
            let mut inner: usize = 0;
            while inner < s
                invariant
                    self.wf(),
                    m.wf(),
                    m.size == s,
                    s == self.size,
                    row < s,
                    col < s,
                    inner <= s,
                    val == self@.row_by_column(m@, row as int, col as int, inner as int),
                decreases s - inner,
            {
                val = val.add(self.at(row, inner).mul(m.at(inner, col)));
                inner += 1;
            }
            res.push(val);
            index += 1;
        }
        let p = Matrix { size: s, content: res };
        assert(p@.cells =~= self@.multiply(m@).cells);
        p
    }

    /// The matrix applied to a tuple; of a larger matrix, the upper left
    /// four by four part.
    pub fn multiply_tuple(&self, t: &Tuple) -> (r: Tuple)
        requires
            self.wf(),
            self.size >= 4,
        ensures
            r == self@.multiply_tuple(*t),
    {
        (
            Matrix::compute_line(self.at(0, 0), self.at(0, 1), self.at(0, 2), self.at(0, 3), t),
            Matrix::compute_line(self.at(1, 0), self.at(1, 1), self.at(1, 2), self.at(1, 3), t),
            Matrix::compute_line(self.at(2, 0), self.at(2, 1), self.at(2, 2), self.at(2, 3), t),
            Matrix::compute_line(self.at(3, 0), self.at(3, 1), self.at(3, 2), self.at(3, 3), t),
        )
    }

    fn compute_line(at1: Scalar, at2: Scalar, at3: Scalar, at4: Scalar, t: &Tuple) -> (r: Scalar)
        ensures
            r == at1.spec_mul_add(
                t.0,
                at2.spec_mul_add(t.1, at3.spec_mul_add(t.2, at4.spec_mul(t.3))),
            ),
    {
        at1.mul_add(t.0, at2.mul_add(t.1, at3.mul_add(t.2, at4.mul(t.3))))
    }

    /// The rotation about the x axis by an angle in radians.
    pub fn rotate_x(angle: Scalar) -> (m: Matrix)
        ensures
            m@ == MatrixModel::rotate_x(angle),
            m.wf(),
    {
        let o = Scalar::zero();
        let i = Scalar::one();
        let cos_r = angle.cos();
        let sin_r = angle.sin();
        Matrix::make_matrix_4(i, o, o, o, o, cos_r, sin_r.neg(), o, o, sin_r, cos_r, o, o, o, o, i)
    }

    /// The rotation about the y axis by an angle in radians.
    pub fn rotate_y(angle: Scalar) -> (m: Matrix)
        ensures
            m@ == MatrixModel::rotate_y(angle),
            m.wf(),
    {
        let o = Scalar::zero();
        let i = Scalar::one();
        let cos_r = angle.cos();
        let sin_r = angle.sin();
        Matrix::make_matrix_4(cos_r, o, sin_r, o, o, i, o, o, sin_r.neg(), o, cos_r, o, o, o, o, i)
    }

    /// The rotation about the z axis by an angle in radians.
    pub fn rotate_z(angle: Scalar) -> (m: Matrix)
        ensures
            m@ == MatrixModel::rotate_z(angle),
            m.wf(),
    {
        let o = Scalar::zero();
        let i = Scalar::one();
        let cos_r = angle.cos();
        let sin_r = angle.sin();
        Matrix::make_matrix_4(cos_r, sin_r.neg(), o, o, sin_r, cos_r, o, o, o, o, i, o, o, o, o, i)
    }

    pub fn shearing(
        xy: Scalar,
        xz: Scalar,
        yx: Scalar,
        yz: Scalar,
        zx: Scalar,
        zy: Scalar,
    ) -> (m: Matrix)
        ensures
            m@ == MatrixModel::shearing(xy, xz, yx, yz, zx, zy),
            m.wf(),
    {
        let o = Scalar::zero();
        let i = Scalar::one();
        Matrix::make_matrix_4(i, xy, xz, o, yx, i, yz, o, zx, zy, i, o, o, o, o, i)
    }
}

/// A transformation matrix with its inverse and the transpose of the
/// inverse, computed once.
#[derive(Debug, PartialEq, Clone)]
pub struct Transformation {
    pub matrix: Matrix,
    pub inverse: Matrix,
    pub inverse_transpose: Matrix,
}

impl Transformation {
    /// The three matrices are four by four, and the third is the transpose
    /// of the second.
    pub open spec fn wf(&self) -> bool {
        &&& self.matrix.wf()
        &&& self.matrix.size == 4
        &&& self.inverse.wf()
        &&& self.inverse.size == 4
        &&& self.inverse_transpose.wf()
        &&& self.inverse_transpose.size == 4
        &&& self.inverse_transpose@ == self.inverse@.transpose()
    }

    /// The transformation holds `m`, its inverse and the transpose of its
    /// inverse.
    pub open spec fn made_from(&self, m: MatrixModel) -> bool {
        &&& self.matrix@ == m
        &&& self.inverse@ == m.inverse()
        &&& self.inverse_transpose@ == m.inverse().transpose()
    }

    /// The transformation that changes nothing: three identity matrices.
    pub open spec fn is_identity(&self) -> bool {
        &&& self.matrix@ == MatrixModel::identity()
        &&& self.inverse@ == MatrixModel::identity()
        &&& self.inverse_transpose@ == MatrixModel::identity()
    }

    pub fn default() -> (t: Transformation)
        ensures
            t.is_identity(),
            t.wf(),
    {
        proof {
            lemma_identity_transpose();
        }
        Transformation {
            matrix: Matrix::identity(),
            inverse: Matrix::identity(),
            inverse_transpose: Matrix::identity(),
        }
    }

    /// Bundles a matrix that has an inverse with that inverse and its
    /// transpose.
    pub fn make(transform: Matrix) -> (t: Transformation)
        requires
            transform.wf(),
            transform@.invertible(),
        ensures
            t.made_from(transform@),
            transform.size == 4 ==> t.wf(),
    {
        let inverse = transform.inverse();
        let inverse_transpose = inverse.transpose();
        Transformation { matrix: transform, inverse, inverse_transpose }
    }

    /// Bundles the matrix with its inverse and the transpose of it, where
    /// the matrix has an inverse.
    pub fn try_make(transform: Matrix) -> (r: Option<Transformation>)
        requires
            transform.wf(),
        ensures
            r.is_some() == transform@.invertible(),
            r.is_some() ==> r.unwrap().made_from(transform@),
            r.is_some() && transform.size == 4 ==> r.unwrap().wf(),
    {
        if transform.is_invertible() {
            Some(Transformation::make(transform))
        } else {
            None
        }
    }
}

/// The identity matrix is its own transpose.
pub proof fn lemma_identity_transpose()
    ensures
        MatrixModel::identity().transpose() == MatrixModel::identity(),
{
    let id = MatrixModel::identity();
    lemma_build(4, |r: int, c: int| id.at(c, r));
    assert forall|k: int| 0 <= k < 16 implies id.transpose().cells[k] == id.cells[k] by {
        lemma_index_split(4, k);
        let r = k / 4;
        let c = k % 4;
        lemma_cell_index(4, r, c);
        lemma_cell_index(4, c, r);
        assert(id.transpose().at(r, c) == id.at(c, r));
    }
    assert(id.transpose().cells =~= id.cells);
}

} // verus!
