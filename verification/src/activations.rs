//! The three activation functions, applied entry by entry to a matrix.
//!
//! Each scalar formula is composed in verified code from the trusted
//! IEEE-754 operations of `bits`; the derivative is evaluated at the
//! already-computed forward output, as each function's derivative is
//! expressible in terms of its own output.

use vstd::prelude::*;
use crate::bits::{
    add_c, div_c, exp_c, gt_c, mul_c, neg_c, sub_c, tanh_c,
    f_add, f_div, f_exp, f_gt, f_mul, f_neg, f_sub, f_tanh,
    F_ONE, F_ZERO,
};
use crate::matrix::Matrix;

verus! {

/// The closed set of activation functions the framework dispatches over.
#[derive(Clone, Copy, PartialEq, Eq, Structural)]
pub enum Activation {
    Sigmoid,
    Tanh,
    ReLU,
}

/// The logistic function of `x`: 1 / (1 + e^(-x)), as bit patterns.
pub open spec fn sigmoid_bits(x: u64) -> u64 {
    div_c(F_ONE, add_c(F_ONE, exp_c(neg_c(x))))
}

/// The activation applied to one entry.
pub open spec fn fwd_bits(a: Activation, x: u64) -> u64 {
    match a {
        Activation::Sigmoid => sigmoid_bits(x),
        Activation::Tanh => tanh_c(x),
        Activation::ReLU => if gt_c(x, F_ZERO) { x } else { F_ZERO },
    }
}

/// The activation's derivative at one entry `y` of its own output:
/// y(1 - y) for the sigmoid, 1 - y^2 for tanh, the sign test for ReLU.
pub open spec fn bwd_bits(a: Activation, y: u64) -> u64 {
    match a {
        Activation::Sigmoid => mul_c(y, sub_c(F_ONE, y)),
        Activation::Tanh => sub_c(F_ONE, mul_c(y, y)),
        Activation::ReLU => if gt_c(y, F_ZERO) { F_ONE } else { F_ZERO },
    }
}

/// The activation applied to every entry of `m`.
pub open spec fn map_fwd(a: Activation, m: Seq<Seq<u64>>) -> Seq<Seq<u64>> {
    Seq::new(m.len(), |i: int| Seq::new(m[i].len(), |j: int| fwd_bits(a, m[i][j])))
}

/// The activation's derivative at every entry of its output `m`.
pub open spec fn map_bwd(a: Activation, m: Seq<Seq<u64>>) -> Seq<Seq<u64>> {
    Seq::new(m.len(), |i: int| Seq::new(m[i].len(), |j: int| bwd_bits(a, m[i][j])))
}

fn apply_fwd(a: Activation, x: u64) -> (r: u64)
    ensures
        r == fwd_bits(a, x),
{
    match a {
        Activation::Sigmoid => f_div(F_ONE, f_add(F_ONE, f_exp(f_neg(x)))),
        Activation::Tanh => f_tanh(x),
        Activation::ReLU => if f_gt(x, F_ZERO) { x } else { F_ZERO },
    }
}

fn apply_bwd(a: Activation, y: u64) -> (r: u64)
    ensures
        r == bwd_bits(a, y),
{
    match a {
        Activation::Sigmoid => f_mul(y, f_sub(F_ONE, y)),
        Activation::Tanh => f_sub(F_ONE, f_mul(y, y)),
        Activation::ReLU => if f_gt(y, F_ZERO) { F_ONE } else { F_ZERO },
    }
}

/// The activation applied to every entry of `inputs`.
pub fn act_forward(a: Activation, inputs: &Matrix) -> (r: Matrix)
    requires
        inputs.wf(),
    ensures
        r.wf(),
        r.width == inputs.width,
        r@.len() == inputs@.len(),
        r@ == map_fwd(a, inputs@),
{
    let mut data: Vec<Vec<u64>> = Vec::new();
    let mut i: usize = 0;
    while i < inputs.data.len()
        invariant
            inputs.wf(),
            0 <= i <= inputs.data@.len(),
            data@.len() == i,
            forall|k: int| 0 <= k < i ==> #[trigger] data@[k]@ == map_fwd(a, inputs@)[k],
        decreases inputs.data@.len() - i,
    {
        let src = &inputs.data[i];
        proof {
            assert(inputs@[i as int] == src@);
        }
        let mut row: Vec<u64> = Vec::new();
        let mut j: usize = 0;
        while j < src.len()
            invariant
                0 <= j <= src@.len(),
                row@.len() == j,
                forall|l: int| 0 <= l < j ==> #[trigger] row@[l] == fwd_bits(a, src@[l]),
            decreases src@.len() - j,
        {
            let v = apply_fwd(a, src[j]);
            row.push(v);
            j += 1;
        }
        proof {
            assert(row@ =~= map_fwd(a, inputs@)[i as int]);
        }
        data.push(row);
        i += 1;
    }
    let r = Matrix { data, width: inputs.width };
    proof {
        assert(r@ =~= map_fwd(a, inputs@));
    }
    r
}

/// The activation's derivative at every entry of the forward output.
pub fn act_backward(a: Activation, forward_output: &Matrix) -> (r: Matrix)
    requires
        forward_output.wf(),
    ensures
        r.wf(),
        r.width == forward_output.width,
        r@.len() == forward_output@.len(),
        r@ == map_bwd(a, forward_output@),
{
    let mut data: Vec<Vec<u64>> = Vec::new();
    let mut i: usize = 0;
    while i < forward_output.data.len()
        invariant
            forward_output.wf(),
            0 <= i <= forward_output.data@.len(),
            data@.len() == i,
            forall|k: int| 0 <= k < i ==> #[trigger] data@[k]@ == map_bwd(a, forward_output@)[k],
        decreases forward_output.data@.len() - i,
    {
        let src = &forward_output.data[i];
        proof {
            assert(forward_output@[i as int] == src@);
        }
        let mut row: Vec<u64> = Vec::new();
        let mut j: usize = 0;
        while j < src.len()
            invariant
                0 <= j <= src@.len(),
                row@.len() == j,
                forall|l: int| 0 <= l < j ==> #[trigger] row@[l] == bwd_bits(a, src@[l]),
            decreases src@.len() - j,
        {
            let v = apply_bwd(a, src[j]);
            row.push(v);
            j += 1;
        }
        proof {
            assert(row@ =~= map_bwd(a, forward_output@)[i as int]);
        }
        data.push(row);
        i += 1;
    }
    let r = Matrix { data, width: forward_output.width };
    proof {
        assert(r@ =~= map_bwd(a, forward_output@));
    }
    r
}

/// The logistic activation.
pub struct Sigmoid;

impl Sigmoid {
    /// Applies the sigmoid to every entry.
    pub fn forward(&self, inputs: &Matrix) -> (r: Matrix)
        requires
            inputs.wf(),
        ensures
            r.wf(),
            r.width == inputs.width,
            r@.len() == inputs@.len(),
            r@ == map_fwd(Activation::Sigmoid, inputs@),
    {
        act_forward(Activation::Sigmoid, inputs)
    }

    /// The derivative y(1 - y) at every entry of the forward output.
    pub fn backward(&self, forward_output: &Matrix) -> (r: Matrix)
        requires
            forward_output.wf(),
        ensures
            r.wf(),
            r.width == forward_output.width,
            r@.len() == forward_output@.len(),
            r@ == map_bwd(Activation::Sigmoid, forward_output@),
    {
        act_backward(Activation::Sigmoid, forward_output)
    }
}

/// The hyperbolic-tangent activation.
pub struct Tanh;

impl Tanh {
    /// Applies tanh to every entry.
    pub fn forward(&self, inputs: &Matrix) -> (r: Matrix)
        requires
            inputs.wf(),
        ensures
            r.wf(),
            r.width == inputs.width,
            r@.len() == inputs@.len(),
            r@ == map_fwd(Activation::Tanh, inputs@),
    {
        act_forward(Activation::Tanh, inputs)
    }

    /// The derivative 1 - y^2 at every entry of the forward output.
    pub fn backward(&self, forward_output: &Matrix) -> (r: Matrix)
        requires
            forward_output.wf(),
        ensures
            r.wf(),
            r.width == forward_output.width,
            r@.len() == forward_output@.len(),
            r@ == map_bwd(Activation::Tanh, forward_output@),
    {
        act_backward(Activation::Tanh, forward_output)
    }
}

/// The rectified-linear activation.
pub struct ReLU;

impl ReLU {
    /// Keeps positive entries and replaces the rest by zero.
    pub fn forward(&self, inputs: &Matrix) -> (r: Matrix)
        requires
            inputs.wf(),
        ensures
            r.wf(),
            r.width == inputs.width,
            r@.len() == inputs@.len(),
            r@ == map_fwd(Activation::ReLU, inputs@),
    {
        act_forward(Activation::ReLU, inputs)
    }

    /// One where the forward output is positive, zero elsewhere.
    pub fn backward(&self, forward_output: &Matrix) -> (r: Matrix)
        requires
            forward_output.wf(),
        ensures
            r.wf(),
            r.width == forward_output.width,
            r@.len() == forward_output@.len(),
            r@ == map_bwd(Activation::ReLU, forward_output@),
    {
        act_backward(Activation::ReLU, forward_output)
    }
}

} // verus!
