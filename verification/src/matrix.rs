//! Dense two-dimensional arrays of doubles, each entry carried as its
//! IEEE-754 bit pattern.
//!
//! Shape bookkeeping, element-wise composition and the matrix product are
//! verified; ndarray performs the element-wise arithmetic, the axis
//! reduction, the mean and the random filling behind trusted wrappers.
//! Each wrapper's contract fixes every non-NaN entry exactly and promises
//! only a NaN where the named value is one; verified code then replaces
//! each NaN by the canonical quiet NaN, so every public operation is a
//! function of its operands.

use vstd::prelude::*;
use byteorder::ByteOrder;
use ndarray_rand::RandomExt;
use crate::bits::{
    add_bits, add_c, canon, canon_row, canon_spec, is_nan_bits, mul_bits, mul_c, sub_bits, sub_c,
    f_add, f_mul, F_ZERO,
};

verus! {

/// A matrix of doubles: `data` holds the rows, every row `width` entries
/// long, each entry the bit pattern of one double.
pub struct Matrix {
    pub data: Vec<Vec<u64>>,
    pub width: usize,
}

impl View for Matrix {
    type V = Seq<Seq<u64>>;

    open spec fn view(&self) -> Seq<Seq<u64>> {
        Seq::new(self.data@.len(), |i: int| self.data@[i]@)
    }
}

/// `m` has `r` rows, each `c` entries long.
pub open spec fn grid(m: Seq<Seq<u64>>, r: int, c: int) -> bool {
    m.len() == r && forall|i: int| 0 <= i < r ==> (#[trigger] m[i]).len() == c
}

/// Every entry of `m` is the bit pattern of the double 0.0.
pub open spec fn all_zero(m: Seq<Seq<u64>>) -> bool {
    forall|i: int, j: int|
        0 <= i < m.len() && 0 <= j < m[i].len() ==> #[trigger] m[i][j] == F_ZERO
}

/// Every entry of `m` is the pattern of a double in [-1, 1): at most the
/// predecessor of 1.0, or negative down to -1.0.
pub open spec fn in_unit_grid(m: Seq<Seq<u64>>) -> bool {
    forall|i: int, j: int|
        0 <= i < m.len() && 0 <= j < m[i].len() ==> (#[trigger] m[i][j] <= 0x3FEF_FFFF_FFFF_FFFF
            || (0x8000_0000_0000_0000 <= m[i][j] <= 0xBFF0_0000_0000_0000))
}

/// Element-wise IEEE-754 difference of two matrices of one shape.
pub open spec fn ew_sub(a: Seq<Seq<u64>>, b: Seq<Seq<u64>>) -> Seq<Seq<u64>> {
    Seq::new(a.len(), |i: int| Seq::new(a[i].len(), |j: int| sub_c(a[i][j], b[i][j])))
}

/// Element-wise IEEE-754 product of two matrices of one shape.
pub open spec fn ew_mul(a: Seq<Seq<u64>>, b: Seq<Seq<u64>>) -> Seq<Seq<u64>> {
    Seq::new(a.len(), |i: int| Seq::new(a[i].len(), |j: int| mul_c(a[i][j], b[i][j])))
}

/// Every entry of `a` multiplied by the scalar `s`.
pub open spec fn ew_scale(a: Seq<Seq<u64>>, s: u64) -> Seq<Seq<u64>> {
    Seq::new(a.len(), |i: int| Seq::new(a[i].len(), |j: int| mul_c(a[i][j], s)))
}

/// The row `brow` added to every row of `a`, entry by entry.
pub open spec fn ew_bias_add(a: Seq<Seq<u64>>, brow: Seq<u64>) -> Seq<Seq<u64>> {
    Seq::new(a.len(), |i: int| Seq::new(a[i].len(), |j: int| add_c(a[i][j], brow[j])))
}

/// The transpose of `m`, a matrix of `w` columns.
pub open spec fn transpose_grid(m: Seq<Seq<u64>>, w: int) -> Seq<Seq<u64>> {
    Seq::new(w as nat, |i: int| Seq::new(m.len(), |j: int| m[j][i]))
}

/// The inner product of row `a` with column `j` of `b` over the first `k`
/// terms: the products summed left to right from 0.0, with the library's
/// canonical-NaN operations.
pub open spec fn row_dot(a: Seq<u64>, b: Seq<Seq<u64>>, j: int, k: int) -> u64
    decreases k,
{
    if k <= 0 {
        F_ZERO
    } else {
        add_c(row_dot(a, b, j, k - 1), mul_c(a[k - 1], b[k - 1][j]))
    }
}

/// The matrix product of `a` and `b`, `b` of width `bw`: entry (i, j) is
/// the inner product of row i of `a` with column j of `b`.
pub open spec fn dot_grid(a: Seq<Seq<u64>>, b: Seq<Seq<u64>>, bw: int) -> Seq<Seq<u64>> {
    Seq::new(a.len(), |i: int| Seq::new(bw as nat, |j: int| row_dot(a[i], b, j, b.len() as int)))
}

/// What ndarray's `sum_axis` over the row axis returns: the column sums;
/// `w` is the operand's declared width, which its rows do not determine
/// when it has none.
pub uninterp spec fn colsum_of(m: Seq<Seq<u64>>, w: int) -> Seq<u64>;

/// What ndarray's `mean` over all entries of a non-empty array returns.
pub uninterp spec fn mean_of(m: Seq<Seq<u64>>) -> u64;

impl Matrix {
    /// Every row is `width` entries long.
    pub open spec fn wf(&self) -> bool {
        forall|i: int| 0 <= i < self@.len() ==> (#[trigger] self@[i]).len() == self.width as int
    }

    pub fn rows(&self) -> (r: usize)
        ensures
            r as int == self@.len(),
    {
        self.data.len()
    }

    pub fn cols(&self) -> (c: usize)
        ensures
            c == self.width,
    {
        self.width
    }

    pub fn entry(&self, i: usize, j: usize) -> (v: u64)
        requires
            self.wf(),
            (i as int) < self@.len(),
            j < self.width,
        ensures
            v == self@[i as int][j as int],
    {
        proof {
            assert(self@[i as int] == self.data@[i as int]@);
        }
        self.data[i][j]
    }

    /// Wraps the rows as a matrix when every row is `width` entries long,
    /// and refuses them otherwise.
    pub fn new(data: Vec<Vec<u64>>, width: usize) -> (r: Option<Matrix>)
        ensures
            match r {
                Some(m) => {
                    &&& m.wf()
                    &&& m.width == width
                    &&& m@ == Seq::new(data@.len(), |i: int| data@[i]@)
                },
                None => !(forall|i: int|
                    0 <= i < data@.len() ==> (#[trigger] data@[i])@.len() == width as int),
            },
    {
        let mut i: usize = 0;
        while i < data.len()
            invariant
                0 <= i <= data@.len(),
                forall|k: int| 0 <= k < i ==> (#[trigger] data@[k])@.len() == width as int,
            decreases data@.len() - i,
        {
            if data[i].len() != width {
                return None;
            }
            i += 1;
        }
        Some(Matrix { data, width })
    }

    /// The all-zero matrix of the given shape.
    pub fn zeros(rows_n: usize, cols_n: usize) -> (r: Matrix)
        ensures
            r.wf(),
            r.width == cols_n,
            r@.len() == rows_n,
            all_zero(r@),
    {
        let mut data: Vec<Vec<u64>> = Vec::new();
        let mut i: usize = 0;
        while i < rows_n
            invariant
                0 <= i <= rows_n,
                data@.len() == i,
                forall|k: int| 0 <= k < i ==> (#[trigger] data@[k])@.len() == cols_n as int,
                forall|k: int, l: int|
                    0 <= k < i && 0 <= l < cols_n ==> #[trigger] data@[k]@[l] == F_ZERO,
            decreases rows_n - i,
        {
            let mut row: Vec<u64> = Vec::new();
            let mut j: usize = 0;
            while j < cols_n
                invariant
                    0 <= j <= cols_n,
                    row@.len() == j,
                    forall|l: int| 0 <= l < j ==> #[trigger] row@[l] == F_ZERO,
                decreases cols_n - j,
            {
                row.push(F_ZERO);
                j += 1;
            }
            data.push(row);
            i += 1;
        }
        Matrix { data, width: cols_n }
    }

    /// A fresh matrix with the same entries.
    pub fn duplicate(&self) -> (r: Matrix)
        ensures
            r@ == self@,
            r.width == self.width,
    {
        let mut data: Vec<Vec<u64>> = Vec::new();
        let mut i: usize = 0;
        while i < self.data.len()
            invariant
                0 <= i <= self.data@.len(),
                data@.len() == i,
                forall|k: int| 0 <= k < i ==> #[trigger] data@[k]@ == self.data@[k]@,
            decreases self.data@.len() - i,
        {
            let src = &self.data[i];
            let mut row: Vec<u64> = Vec::new();
            let mut j: usize = 0;
            while j < src.len()
                invariant
                    0 <= j <= src@.len(),
                    row@.len() == j,
                    forall|l: int| 0 <= l < j ==> #[trigger] row@[l] == src@[l],
                decreases src@.len() - j,
            {
                row.push(src[j]);
                j += 1;
            }
            proof {
                assert(row@ =~= src@);
            }
            data.push(row);
            i += 1;
        }
        let r = Matrix { data, width: self.width };
        proof {
            assert(r@ =~= self@);
        }
        r
    }
}

/// Every entry passed through `canon_spec`: the same matrix with each NaN
/// replaced by the canonical quiet NaN.
fn canon_matrix(m: &Matrix) -> (r: Matrix)
    ensures
        r.width == m.width,
        r@.len() == m@.len(),
        forall|i: int| 0 <= i < m@.len() ==> (#[trigger] r@[i]).len() == m@[i].len(),
        forall|i: int, j: int|
            0 <= i < m@.len() && 0 <= j < m@[i].len()
                ==> #[trigger] r@[i][j] == canon_spec(m@[i][j]),
{
    let mut data: Vec<Vec<u64>> = Vec::new();
    let mut i: usize = 0;
    while i < m.data.len()
        invariant
            0 <= i <= m.data@.len(),
            data@.len() == i,
            forall|k: int| 0 <= k < i ==> (#[trigger] data@[k])@.len() == m@[k].len(),
            forall|k: int, l: int|
                0 <= k < i && 0 <= l < m@[k].len()
                    ==> #[trigger] data@[k]@[l] == canon_spec(m@[k][l]),
        decreases m.data@.len() - i,
    {
        let src = &m.data[i];
        proof {
            assert(m@[i as int] == src@);
        }
        let mut row: Vec<u64> = Vec::new();
        let mut j: usize = 0;
        while j < src.len()
            invariant
                0 <= j <= src@.len(),
                row@.len() == j,
                forall|l: int| 0 <= l < j ==> #[trigger] row@[l] == canon_spec(src@[l]),
            decreases src@.len() - j,
        {
            let v = canon(src[j]);
            row.push(v);
            j += 1;
        }
        data.push(row);
        i += 1;
    }
    Matrix { data, width: m.width }
}

/// The matrix product, computed in verified code from the trusted scalar
/// operations: products summed left to right along the inner dimension.
pub(crate) fn mat_dot(a: &Matrix, b: &Matrix) -> (r: Matrix)
    requires
        a.wf(),
        b.wf(),
        a.width as int == b@.len(),
    ensures
        r.wf(),
        r@.len() == a@.len(),
        r.width == b.width,
        r@ == dot_grid(a@, b@, b.width as int),
{
    let mut data: Vec<Vec<u64>> = Vec::new();
    let mut i: usize = 0;
    while i < a.data.len()
        invariant
            a.wf(),
            b.wf(),
            a.width as int == b@.len(),
            0 <= i <= a.data@.len(),
            data@.len() == i,
            forall|p: int| 0 <= p < i ==> #[trigger] data@[p]@ == dot_grid(a@, b@, b.width as int)[p],
        decreases a.data@.len() - i,
    {
        let arow = &a.data[i];
        proof {
            assert(a@[i as int] == arow@);
        }
        let mut row: Vec<u64> = Vec::new();
        let mut j: usize = 0;
        while j < b.width
            invariant
                a.wf(),
                b.wf(),
                a.width as int == b@.len(),
                (i as int) < a@.len(),
                arow@ == a@[i as int],
                arow@.len() == b@.len(),
                0 <= j <= b.width,
                row@.len() == j,
                forall|q: int| 0 <= q < j ==> #[trigger] row@[q] == row_dot(arow@, b@, q, b@.len() as int),
            decreases b.width - j,
        {
            let mut acc: u64 = F_ZERO;
            let mut k: usize = 0;
            while k < arow.len()
                invariant
                    b.wf(),
                    arow@.len() == b@.len(),
                    (j as int) < b.width as int,
                    0 <= k <= arow@.len(),
                    acc == row_dot(arow@, b@, j as int, k as int),
                decreases arow@.len() - k,
            {
                proof {
                    assert(b@[k as int] == b.data@[k as int]@);
                    assert(b@[k as int].len() == b.width as int);
                }
                acc = f_add(acc, f_mul(arow[k], b.data[k][j]));
                k += 1;
            }
            row.push(acc);
            j += 1;
        }
        proof {
            assert(row@ =~= dot_grid(a@, b@, b.width as int)[i as int]);
        }
        data.push(row);
        i += 1;
    }
    let r = Matrix { data, width: b.width };
    proof {
        assert(r@ =~= dot_grid(a@, b@, b.width as int));
    }
    r
}

/// Relies on ndarray's element-wise `-` on two arrays of one shape: each
/// entry is the IEEE-754 difference of the matching entries, its pattern
/// unspecified only when that difference is NaN.
#[verifier::external_body]
fn mat_sub_raw(a: &Matrix, b: &Matrix) -> (r: Matrix)
    requires
        a.wf(),
        b.wf(),
        a@.len() == b@.len(),
        a.width == b.width,
    ensures
        r.wf(),
        r@.len() == a@.len(),
        r.width == a.width,
        forall|i: int, j: int|
            0 <= i < a@.len() && 0 <= j < a.width ==> ((#[trigger] r@[i][j]) == sub_bits(
                a@[i][j],
                b@[i][j],
            ) || (is_nan_bits(r@[i][j]) && is_nan_bits(sub_bits(a@[i][j], b@[i][j])))),
{
    let ax = ndarray::Array2::from_shape_fn((a.data.len(), a.width), |(i, j)|
        byteorder::LittleEndian::read_f64(&a.data[i][j].to_le_bytes()));
    let bx = ndarray::Array2::from_shape_fn((b.data.len(), b.width), |(i, j)|
        byteorder::LittleEndian::read_f64(&b.data[i][j].to_le_bytes()));
    let cx = &ax - &bx;
    Matrix {
        data: cx.outer_iter().map(|row| row.iter().map(|v| v.to_bits()).collect()).collect(),
        width: a.width,
    }
}

/// The element-wise difference with canonical NaNs.
pub(crate) fn mat_sub(a: &Matrix, b: &Matrix) -> (r: Matrix)
    requires
        a.wf(),
        b.wf(),
        a@.len() == b@.len(),
        a.width == b.width,
    ensures
        r.wf(),
        r@.len() == a@.len(),
        r.width == a.width,
        r@ == ew_sub(a@, b@),
{
    let raw = mat_sub_raw(a, b);
    let r = canon_matrix(&raw);
    proof {
        assert forall|i: int| 0 <= i < r@.len() implies r@[i] =~= ew_sub(a@, b@)[i] by {
            assert(raw@[i].len() == a.width as int);
            assert forall|j: int| 0 <= j < a.width implies #[trigger] r@[i][j] == sub_c(
                a@[i][j],
                b@[i][j],
            ) by {
                assert(r@[i][j] == canon_spec(raw@[i][j]));
                assert(raw@[i][j] == sub_bits(a@[i][j], b@[i][j]) || (is_nan_bits(raw@[i][j])
                    && is_nan_bits(sub_bits(a@[i][j], b@[i][j]))));
            }
        }
        assert(r@ =~= ew_sub(a@, b@));
    }
    r
}

/// Relies on ndarray's element-wise `*` on two arrays of one shape, as
/// `mat_sub_raw`.
#[verifier::external_body]
fn mat_hadamard_raw(a: &Matrix, b: &Matrix) -> (r: Matrix)
    requires
        a.wf(),
        b.wf(),
        a@.len() == b@.len(),
        a.width == b.width,
    ensures
        r.wf(),
        r@.len() == a@.len(),
        r.width == a.width,
        forall|i: int, j: int|
            0 <= i < a@.len() && 0 <= j < a.width ==> ((#[trigger] r@[i][j]) == mul_bits(
                a@[i][j],
                b@[i][j],
            ) || (is_nan_bits(r@[i][j]) && is_nan_bits(mul_bits(a@[i][j], b@[i][j])))),
{
    let ax = ndarray::Array2::from_shape_fn((a.data.len(), a.width), |(i, j)|
        byteorder::LittleEndian::read_f64(&a.data[i][j].to_le_bytes()));
    let bx = ndarray::Array2::from_shape_fn((b.data.len(), b.width), |(i, j)|
        byteorder::LittleEndian::read_f64(&b.data[i][j].to_le_bytes()));
    let cx = &ax * &bx;
    Matrix {
        data: cx.outer_iter().map(|row| row.iter().map(|v| v.to_bits()).collect()).collect(),
        width: a.width,
    }
}

/// The element-wise product with canonical NaNs.
pub(crate) fn mat_hadamard(a: &Matrix, b: &Matrix) -> (r: Matrix)
    requires
        a.wf(),
        b.wf(),
        a@.len() == b@.len(),
        a.width == b.width,
    ensures
        r.wf(),
        r@.len() == a@.len(),
        r.width == a.width,
        r@ == ew_mul(a@, b@),
{
    let raw = mat_hadamard_raw(a, b);
    let r = canon_matrix(&raw);
    proof {
        assert forall|i: int| 0 <= i < r@.len() implies r@[i] =~= ew_mul(a@, b@)[i] by {
            assert(raw@[i].len() == a.width as int);
            assert forall|j: int| 0 <= j < a.width implies #[trigger] r@[i][j] == mul_c(
                a@[i][j],
                b@[i][j],
            ) by {
                assert(r@[i][j] == canon_spec(raw@[i][j]));
                assert(raw@[i][j] == mul_bits(a@[i][j], b@[i][j]) || (is_nan_bits(raw@[i][j])
                    && is_nan_bits(mul_bits(a@[i][j], b@[i][j]))));
            }
        }
        assert(r@ =~= ew_mul(a@, b@));
    }
    r
}

/// Relies on ndarray's `*` of an array by a scalar double, as
/// `mat_sub_raw`.
#[verifier::external_body]
fn mat_scale_raw(a: &Matrix, s: u64) -> (r: Matrix)
    requires
        a.wf(),
    ensures
        r.wf(),
        r@.len() == a@.len(),
        r.width == a.width,
        forall|i: int, j: int|
            0 <= i < a@.len() && 0 <= j < a.width ==> ((#[trigger] r@[i][j]) == mul_bits(
                a@[i][j],
                s,
            ) || (is_nan_bits(r@[i][j]) && is_nan_bits(mul_bits(a@[i][j], s)))),
{
    let ax = ndarray::Array2::from_shape_fn((a.data.len(), a.width), |(i, j)|
        byteorder::LittleEndian::read_f64(&a.data[i][j].to_le_bytes()));
    let cx = &ax * byteorder::LittleEndian::read_f64(&s.to_le_bytes());
    Matrix {
        data: cx.outer_iter().map(|row| row.iter().map(|v| v.to_bits()).collect()).collect(),
        width: a.width,
    }
}

/// Every entry multiplied by `s`, with canonical NaNs.
pub(crate) fn mat_scale(a: &Matrix, s: u64) -> (r: Matrix)
    requires
        a.wf(),
    ensures
        r.wf(),
        r@.len() == a@.len(),
        r.width == a.width,
        r@ == ew_scale(a@, s),
{
    let raw = mat_scale_raw(a, s);
    let r = canon_matrix(&raw);
    proof {
        assert forall|i: int| 0 <= i < r@.len() implies r@[i] =~= ew_scale(a@, s)[i] by {
            assert(raw@[i].len() == a.width as int);
            assert forall|j: int| 0 <= j < a.width implies #[trigger] r@[i][j] == mul_c(
                a@[i][j],
                s,
            ) by {
                assert(r@[i][j] == canon_spec(raw@[i][j]));
                assert(raw@[i][j] == mul_bits(a@[i][j], s) || (is_nan_bits(raw@[i][j])
                    && is_nan_bits(mul_bits(a@[i][j], s))));
            }
        }
        assert(r@ =~= ew_scale(a@, s));
    }
    r
}

/// Relies on ndarray's `+`, which broadcasts a one-row right operand over
/// the rows of the left one and adds entry by entry, as `mat_sub_raw`.
#[verifier::external_body]
fn mat_bias_add_raw(a: &Matrix, b: &Matrix) -> (r: Matrix)
    requires
        a.wf(),
        b.wf(),
        b@.len() == 1,
        b.width == a.width,
    ensures
        r.wf(),
        r@.len() == a@.len(),
        r.width == a.width,
        forall|i: int, j: int|
            0 <= i < a@.len() && 0 <= j < a.width ==> ((#[trigger] r@[i][j]) == add_bits(
                a@[i][j],
                b@[0][j],
            ) || (is_nan_bits(r@[i][j]) && is_nan_bits(add_bits(a@[i][j], b@[0][j])))),
{
    let ax = ndarray::Array2::from_shape_fn((a.data.len(), a.width), |(i, j)|
        byteorder::LittleEndian::read_f64(&a.data[i][j].to_le_bytes()));
    let bx = ndarray::Array2::from_shape_fn((1, b.width), |(_i, j)|
        byteorder::LittleEndian::read_f64(&b.data[0][j].to_le_bytes()));
    let cx = &ax + &bx;
    Matrix {
        data: cx.outer_iter().map(|row| row.iter().map(|v| v.to_bits()).collect()).collect(),
        width: a.width,
    }
}

/// The row `b` added to every row of `a`, with canonical NaNs.
pub(crate) fn mat_bias_add(a: &Matrix, b: &Matrix) -> (r: Matrix)
    requires
        a.wf(),
        b.wf(),
        b@.len() == 1,
        b.width == a.width,
    ensures
        r.wf(),
        r@.len() == a@.len(),
        r.width == a.width,
        r@ == ew_bias_add(a@, b@[0]),
{
    let raw = mat_bias_add_raw(a, b);
    let r = canon_matrix(&raw);
    proof {
        assert forall|i: int| 0 <= i < r@.len() implies r@[i] =~= ew_bias_add(a@, b@[0])[i] by {
            assert(raw@[i].len() == a.width as int);
            assert forall|j: int| 0 <= j < a.width implies #[trigger] r@[i][j] == add_c(
                a@[i][j],
                b@[0][j],
            ) by {
                assert(r@[i][j] == canon_spec(raw@[i][j]));
                assert(raw@[i][j] == add_bits(a@[i][j], b@[0][j]) || (is_nan_bits(raw@[i][j])
                    && is_nan_bits(add_bits(a@[i][j], b@[0][j]))));
            }
        }
        assert(r@ =~= ew_bias_add(a@, b@[0]));
    }
    r
}

/// Relies on ndarray's `reversed_axes`: the transpose of the array, an
/// exact permutation of the entries.
#[verifier::external_body]
pub(crate) fn mat_transpose(a: &Matrix) -> (r: Matrix)
    requires
        a.wf(),
    ensures
        r.wf(),
        r@.len() == a.width as int,
        r.width as int == a@.len(),
        r@ == transpose_grid(a@, a.width as int),
{
    let ax = ndarray::Array2::from_shape_fn((a.data.len(), a.width), |(i, j)|
        byteorder::LittleEndian::read_f64(&a.data[i][j].to_le_bytes()));
    let cx = ax.reversed_axes();
    Matrix {
        data: cx.outer_iter().map(|row| row.iter().map(|v| v.to_bits()).collect()).collect(),
        width: a.data.len(),
    }
}

/// Relies on ndarray's `sum_axis` over the row axis: one sum per column,
/// each summed in the source's fixed order, its pattern unspecified only
/// when the sum is NaN.
#[verifier::external_body]
fn mat_col_sums_raw(m: &Matrix) -> (r: Matrix)
    requires
        m.wf(),
    ensures
        r.wf(),
        r@.len() == 1,
        r.width == m.width,
        r.width as int == colsum_of(m@, m.width as int).len(),
        forall|j: int|
            0 <= j < m.width ==> ((#[trigger] r@[0][j]) == colsum_of(m@, m.width as int)[j]
                || (is_nan_bits(r@[0][j]) && is_nan_bits(colsum_of(m@, m.width as int)[j]))),
{
    let ax = ndarray::Array2::from_shape_fn((m.data.len(), m.width), |(i, j)|
        byteorder::LittleEndian::read_f64(&m.data[i][j].to_le_bytes()));
    let sx = ax.sum_axis(ndarray::Axis(0));
    Matrix { data: vec![sx.iter().map(|v| v.to_bits()).collect()], width: m.width }
}

/// The column sums as one row, with canonical NaNs.
pub(crate) fn mat_col_sums(m: &Matrix) -> (r: Matrix)
    requires
        m.wf(),
    ensures
        r.wf(),
        r@.len() == 1,
        r.width == m.width,
        r@ == seq![canon_row(colsum_of(m@, m.width as int))],
{
    let raw = mat_col_sums_raw(m);
    let r = canon_matrix(&raw);
    proof {
        assert(raw@[0].len() == m.width as int);
        assert forall|j: int| 0 <= j < m.width implies #[trigger] r@[0][j] == canon_spec(
            colsum_of(m@, m.width as int)[j],
        ) by {
            assert(r@[0][j] == canon_spec(raw@[0][j]));
            assert(raw@[0][j] == colsum_of(m@, m.width as int)[j] || (is_nan_bits(raw@[0][j])
                && is_nan_bits(colsum_of(m@, m.width as int)[j])));
        }
        assert(r@[0] =~= canon_row(colsum_of(m@, m.width as int)));
        assert(r@ =~= seq![canon_row(colsum_of(m@, m.width as int))]);
    }
    r
}

/// Relies on ndarray's `mean` over all entries of a non-empty array: the
/// fixed-order sum divided by the count, its pattern unspecified only
/// when that value is NaN.
#[verifier::external_body]
fn mat_mean_raw(m: &Matrix) -> (r: u64)
    requires
        m.wf(),
        m@.len() > 0,
        m.width > 0,
    ensures
        r == mean_of(m@) || (is_nan_bits(r) && is_nan_bits(mean_of(m@))),
{
    let ax = ndarray::Array2::from_shape_fn((m.data.len(), m.width), |(i, j)|
        byteorder::LittleEndian::read_f64(&m.data[i][j].to_le_bytes()));
    ax.mean().unwrap().to_bits()
}

/// The mean over all entries, with a canonical NaN.
pub(crate) fn mat_mean(m: &Matrix) -> (r: u64)
    requires
        m.wf(),
        m@.len() > 0,
        m.width > 0,
    ensures
        r == canon_spec(mean_of(m@)),
{
    canon(mat_mean_raw(m))
}

/// Relies on ndarray-rand's `random` with rand's uniform distribution on
/// [-1.0, 1.0), which samples the half-open range: every entry's pattern
/// lies in [-1, 1); nothing more is assumed of the drawn values.
#[verifier::external_body]
pub(crate) fn mat_random(rows_n: usize, cols_n: usize) -> (r: Matrix)
    ensures
        r.wf(),
        r@.len() == rows_n,
        r.width == cols_n,
        in_unit_grid(r@),
{
    let lo = byteorder::LittleEndian::read_f64(&0xBFF0_0000_0000_0000u64.to_le_bytes());
    let hi = byteorder::LittleEndian::read_f64(&0x3FF0_0000_0000_0000u64.to_le_bytes());
    let ax = ndarray::Array2::random((rows_n, cols_n), ndarray_rand::rand_distr::Uniform::new(lo, hi));
    Matrix {
        data: ax.outer_iter().map(|row| row.iter().map(|v| v.to_bits()).collect()).collect(),
        width: cols_n,
    }
}

} // verus!
