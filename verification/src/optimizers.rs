//! Stochastic gradient descent: one scalar learning rate, applied to
//! every layer's parameters from its stored gradients.

use vstd::prelude::*;
use crate::matrix::{ew_scale, ew_sub, mat_scale, mat_sub};
use crate::models::Sequential;

verus! {

/// The optimizer; `learning_rate` is the bit pattern of the step scalar.
pub struct SGD {
    pub learning_rate: u64,
}

impl SGD {
    pub fn new(learning_rate: u64) -> (r: SGD)
        ensures
            r.learning_rate == learning_rate,
    {
        SGD { learning_rate }
    }

    /// For every layer: weights -= learning_rate * grad_weights and
    /// biases -= learning_rate * grad_biases; everything else is kept.
    pub fn update(&self, model: &mut Sequential)
        requires
            old(model).wf(),
        ensures
            final(model).wf(),
            final(model).layers@.len() == old(model).layers@.len(),
            forall|i: int| 0 <= i < old(model).layers@.len() ==> {
                let l1 = #[trigger] final(model).layers@[i];
                let l0 = old(model).layers@[i];
                &&& l1.weights@ == ew_sub(l0.weights@, ew_scale(l0.dweights@, self.learning_rate))
                &&& l1.weights.width == l0.weights.width
                &&& l1.biases@ == ew_sub(l0.biases@, ew_scale(l0.dbiases@, self.learning_rate))
                &&& l1.biases.width == l0.biases.width
                &&& l1.activation == l0.activation
                &&& l1.inputs == l0.inputs
                &&& l1.output == l0.output
                &&& l1.dweights == l0.dweights
                &&& l1.dbiases == l0.dbiases
                &&& l1.weights@.len() == l0.weights@.len()
            },
    {
        let ghost ls0 = model.layers@;
        let n = model.layers.len();
        let mut i: usize = 0;
        while i < n
            invariant
                n == ls0.len(),
                model.layers@.len() == n,
                0 <= i <= n,
                forall|k: int| 0 <= k < n ==> (#[trigger] ls0[k]).wf(),
                forall|k: int| i <= k < n ==> model.layers@[k] == ls0[k],
                forall|k: int| 0 <= k < i ==> {
                    let l1 = #[trigger] model.layers@[k];
                    let l0 = ls0[k];
                    &&& l1.weights@ == ew_sub(l0.weights@, ew_scale(l0.dweights@, self.learning_rate))
                    &&& l1.weights.width == l0.weights.width
                    &&& l1.biases@ == ew_sub(l0.biases@, ew_scale(l0.dbiases@, self.learning_rate))
                    &&& l1.biases.width == l0.biases.width
                    &&& l1.activation == l0.activation
                    &&& l1.inputs == l0.inputs
                    &&& l1.output == l0.output
                    &&& l1.dweights == l0.dweights
                    &&& l1.dbiases == l0.dbiases
                    &&& l1.weights@.len() == l0.weights@.len()
                    &&& l1.wf()
                },
            decreases n - i,
        {
            let updated_weights = mat_sub(
                model.layers[i].get_weights(),
                &mat_scale(model.layers[i].get_dweights(), self.learning_rate),
            );
            model.layers[i].set_weights(updated_weights);
            let updated_biases = mat_sub(
                model.layers[i].get_biases(),
                &mat_scale(model.layers[i].get_dbiases(), self.learning_rate),
            );
            model.layers[i].set_biases(updated_biases);
            i += 1;
        }
    }
}

} // verus!
