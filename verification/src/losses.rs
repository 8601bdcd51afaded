//! The mean-squared-error loss: a scalar forward reduction and a
//! matrix-shaped gradient with the matching 2/N scale.

use vstd::prelude::*;
use crate::bits::{canon_spec, count_bits, div_c, f_div, f_of_count, F_TWO};
use crate::matrix::{Matrix, ew_mul, ew_scale, ew_sub, mean_of, mat_hadamard, mat_mean, mat_scale, mat_sub};

verus! {

/// The mean of the squared entry-wise differences, with a canonical NaN.
pub open spec fn mse_of(t: Seq<Seq<u64>>, p: Seq<Seq<u64>>) -> u64 {
    canon_spec(mean_of(ew_mul(ew_sub(t, p), ew_sub(t, p))))
}

/// The gradient of the mean-squared error with respect to the prediction:
/// 2 (p - t) / nc, where nc is the total entry count the mean divided by.
pub open spec fn mse_grad(t: Seq<Seq<u64>>, p: Seq<Seq<u64>>, nc: usize) -> Seq<Seq<u64>> {
    ew_scale(ew_sub(p, t), div_c(F_TWO, count_bits(nc)))
}

/// The mean-squared-error loss; it owns no state.
pub struct MeanSquaredError;

impl MeanSquaredError {
    /// The mean of the squared differences over all entries of the pair.
    pub fn forward(&self, y_true: &Matrix, y_pred: &Matrix) -> (r: u64)
        requires
            y_true.wf(),
            y_pred.wf(),
            y_true@.len() == y_pred@.len(),
            y_true.width == y_pred.width,
            y_true@.len() > 0,
            y_true.width > 0,
        ensures
            r == mse_of(y_true@, y_pred@),
    {
        let diff = mat_sub(y_true, y_pred);
        let sq = mat_hadamard(&diff, &diff);
        mat_mean(&sq)
    }

    /// The gradient 2 (y_pred - y_true) / N, N the total entry count.
    pub fn backward(&self, y_true: &Matrix, y_pred: &Matrix) -> (r: Matrix)
        requires
            y_true.wf(),
            y_pred.wf(),
            y_true@.len() == y_pred@.len(),
            y_true.width == y_pred.width,
            y_true@.len() > 0,
            y_true.width > 0,
            y_true@.len() * y_true.width <= usize::MAX,
        ensures
            r.wf(),
            r@.len() == y_true@.len(),
            r.width == y_true.width,
            r@ == mse_grad(y_true@, y_pred@, (y_true@.len() * y_true.width as int) as usize),
    {
        let n = y_true.rows() * y_true.cols();
        let factor = f_div(F_TWO, f_of_count(n));
        mat_scale(&mat_sub(y_pred, y_true), factor)
    }
}

} // verus!
