//! The dense layer: a linear transform composed with an activation, with
//! the cached forward state and the gradients backpropagation needs.

use vstd::prelude::*;
use crate::activations::{Activation, act_backward, act_forward, map_bwd, map_fwd};
use crate::bits::canon_row;
use crate::matrix::{
    Matrix, all_zero, colsum_of, dot_grid, ew_bias_add, ew_mul, in_unit_grid, transpose_grid,
    mat_bias_add, mat_col_sums, mat_dot, mat_hadamard, mat_random, mat_transpose,
};

verus! {

/// A fully connected layer: `weights` of shape [n_in, n_out], `biases` one
/// row of n_out entries, the input and post-activation output of the last
/// forward pass, and the parameter gradients of the last backward pass.
pub struct Dense {
    pub weights: Matrix,
    pub biases: Matrix,
    pub inputs: Matrix,
    pub output: Matrix,
    pub activation: Activation,
    pub dweights: Matrix,
    pub dbiases: Matrix,
}

/// The pre-activation values of one layer: x·w + b, the bias row broadcast
/// over the batch rows; `wc` is the width of `w`.
pub open spec fn dense_z(
    w: Seq<Seq<u64>>,
    wc: int,
    b: Seq<Seq<u64>>,
    x: Seq<Seq<u64>>,
) -> Seq<Seq<u64>> {
    ew_bias_add(dot_grid(x, w, wc), b[0])
}

/// The post-activation output of one layer on input `x`.
pub open spec fn dense_out(
    a: Activation,
    w: Seq<Seq<u64>>,
    wc: int,
    b: Seq<Seq<u64>>,
    x: Seq<Seq<u64>>,
) -> Seq<Seq<u64>> {
    map_fwd(a, dense_z(w, wc, b, x))
}

/// The gradient through the activation: the derivative at the cached
/// output, times the gradient arriving from downstream, entry by entry.
pub open spec fn layer_ag(l: Dense, og: Seq<Seq<u64>>) -> Seq<Seq<u64>> {
    ew_mul(map_bwd(l.activation, l.output@), og)
}

/// The weight gradient a backward pass stores: last input transposed,
/// times the activation gradient (a matrix of the layer's output width).
pub open spec fn layer_dw(l: Dense, og: Seq<Seq<u64>>) -> Seq<Seq<u64>> {
    dot_grid(
        transpose_grid(l.inputs@, l.inputs.width as int),
        layer_ag(l, og),
        l.output.width as int,
    )
}

/// The bias gradient a backward pass stores: the column sums of the
/// activation gradient, kept as one row with canonical NaNs.
pub open spec fn layer_db(l: Dense, og: Seq<Seq<u64>>) -> Seq<Seq<u64>> {
    seq![canon_row(colsum_of(layer_ag(l, og), l.output.width as int))]
}

/// The gradient a backward pass hands to the preceding layer; the
/// transposed weights have one column per input of the layer.
pub open spec fn layer_in_grad(l: Dense, og: Seq<Seq<u64>>) -> Seq<Seq<u64>> {
    dot_grid(
        layer_ag(l, og),
        transpose_grid(l.weights@, l.weights.width as int),
        l.weights@.len() as int,
    )
}

impl Dense {
    /// The width of the inputs this layer accepts.
    pub open spec fn n_in(&self) -> int {
        self.weights@.len() as int
    }

    /// The number of neurons: the width of this layer's output.
    pub open spec fn n_out(&self) -> int {
        self.weights.width as int
    }

    /// Parameter and gradient matrices have their owned shapes; the cached
    /// input and output are rectangular.
    pub open spec fn wf(&self) -> bool {
        &&& self.weights.wf()
        &&& self.biases.wf()
        &&& self.inputs.wf()
        &&& self.output.wf()
        &&& self.dweights.wf()
        &&& self.dbiases.wf()
        &&& self.biases@.len() == 1
        &&& self.biases.width == self.weights.width
        &&& self.dweights@.len() == self.weights@.len()
        &&& self.dweights.width == self.weights.width
        &&& self.dbiases@.len() == 1
        &&& self.dbiases.width == self.weights.width
    }

    /// The layer and its parameters are unchanged but for the caches,
    /// which now hold this input and its forward output.
    pub open spec fn forwarded(&self, l: Dense, x: Seq<Seq<u64>>, xw: int) -> bool {
        &&& self.weights == l.weights
        &&& self.biases == l.biases
        &&& self.activation == l.activation
        &&& self.dweights == l.dweights
        &&& self.dbiases == l.dbiases
        &&& self.inputs@ == x
        &&& self.inputs.width as int == xw
        &&& self.output@ == dense_out(l.activation, l.weights@, l.weights.width as int, l.biases@, x)
        &&& self.output.width == l.weights.width
        &&& self.output@.len() == x.len()
    }

    /// A layer with uniformly random weights in [-1, 1), zero biases and
    /// zero gradients; the caches start empty.
    pub fn new(n_inputs: usize, n_neurons: usize, activation: Activation) -> (r: Dense)
        ensures
            r.wf(),
            r.n_in() == n_inputs,
            r.n_out() == n_neurons,
            r.activation == activation,
            in_unit_grid(r.weights@),
            all_zero(r.biases@),
            all_zero(r.dweights@),
            all_zero(r.dbiases@),
            r.inputs@.len() == 0,
            r.output@.len() == 0,
    {
        Dense {
            weights: mat_random(n_inputs, n_neurons),
            biases: Matrix::zeros(1, n_neurons),
            inputs: Matrix::zeros(0, 0),
            output: Matrix::zeros(0, 0),
            activation,
            dweights: Matrix::zeros(n_inputs, n_neurons),
            dbiases: Matrix::zeros(1, n_neurons),
        }
    }

    /// A layer with the given weights and biases and zero gradients.
    pub fn new_with_weights(
        n_inputs: usize,
        n_neurons: usize,
        activation: Activation,
        weights: Matrix,
        biases: Matrix,
    ) -> (r: Dense)
        requires
            weights.wf(),
            biases.wf(),
            weights@.len() == n_inputs,
            weights.width == n_neurons,
            biases@.len() == 1,
            biases.width == n_neurons,
        ensures
            r.wf(),
            r.n_in() == n_inputs,
            r.n_out() == n_neurons,
            r.activation == activation,
            r.weights == weights,
            r.biases == biases,
            all_zero(r.dweights@),
            all_zero(r.dbiases@),
            r.inputs@.len() == 0,
            r.output@.len() == 0,
    {
        Dense {
            weights,
            biases,
            inputs: Matrix::zeros(0, 0),
            output: Matrix::zeros(0, 0),
            activation,
            dweights: Matrix::zeros(n_inputs, n_neurons),
            dbiases: Matrix::zeros(1, n_neurons),
        }
    }

    /// Caches `inputs`, computes inputs·weights + biases, applies the
    /// activation, caches and returns the result.
    pub fn forward(&mut self, inputs: &Matrix) -> (r: Matrix)
        requires
            old(self).wf(),
            inputs.wf(),
            inputs.width as int == old(self).n_in(),
        ensures
            final(self).wf(),
            final(self).forwarded(*old(self), inputs@, inputs.width as int),
            r@ == final(self).output@,
            r.width == final(self).output.width,
    {
        self.inputs = inputs.duplicate();
        let z = mat_bias_add(&mat_dot(inputs, &self.weights), &self.biases);
        self.output = act_forward(self.activation, &z);
        self.output.duplicate()
    }

    /// The backward pass through this layer, valid right after a forward
    /// pass: stores the weight and bias gradients and returns the gradient
    /// with respect to the cached inputs.
    pub fn backward(&mut self, output_gradient: &Matrix) -> (r: Matrix)
        requires
            old(self).wf(),
            output_gradient.wf(),
            output_gradient@.len() == old(self).output@.len(),
            output_gradient.width == old(self).output.width,
            old(self).output.width as int == old(self).n_out(),
            old(self).inputs@.len() == old(self).output@.len(),
            old(self).inputs.width as int == old(self).n_in(),
        ensures
            final(self).wf(),
            final(self).weights == old(self).weights,
            final(self).biases == old(self).biases,
            final(self).activation == old(self).activation,
            final(self).inputs == old(self).inputs,
            final(self).output == old(self).output,
            final(self).dweights@ == layer_dw(*old(self), output_gradient@),
            final(self).dweights@.len() == old(self).n_in(),
            final(self).dweights.width as int == old(self).n_out(),
            final(self).dbiases@ == layer_db(*old(self), output_gradient@),
            r@ == layer_in_grad(*old(self), output_gradient@),
            r@.len() == output_gradient@.len(),
            r.width as int == old(self).n_in(),
            r.wf(),
    {
        let activation_gradient = mat_hadamard(
            &act_backward(self.activation, &self.output),
            output_gradient,
        );
        self.dweights = mat_dot(&mat_transpose(&self.inputs), &activation_gradient);
        self.dbiases = mat_col_sums(&activation_gradient);
        mat_dot(&activation_gradient, &mat_transpose(&self.weights))
    }

    /// The cached output of the last forward pass.
    pub fn get_output(&self) -> (r: &Matrix)
        ensures
            r == &self.output,
    {
        &self.output
    }

    pub fn get_weights(&self) -> (r: &Matrix)
        ensures
            r == &self.weights,
    {
        &self.weights
    }

    pub fn get_biases(&self) -> (r: &Matrix)
        ensures
            r == &self.biases,
    {
        &self.biases
    }

    pub fn get_dweights(&self) -> (r: &Matrix)
        ensures
            r == &self.dweights,
    {
        &self.dweights
    }

    pub fn get_dbiases(&self) -> (r: &Matrix)
        ensures
            r == &self.dbiases,
    {
        &self.dbiases
    }

    /// Replaces the weights; the shape must stay the layer's own.
    pub fn set_weights(&mut self, weights: Matrix)
        requires
            old(self).wf(),
            weights.wf(),
            weights@.len() == old(self).n_in(),
            weights.width as int == old(self).n_out(),
        ensures
            final(self).wf(),
            *final(self) == (Dense { weights, ..*old(self) }),
    {
        self.weights = weights;
    }

    /// Replaces the biases; the shape must stay the layer's own.
    pub fn set_biases(&mut self, biases: Matrix)
        requires
            old(self).wf(),
            biases.wf(),
            biases@.len() == 1,
            biases.width as int == old(self).n_out(),
        ensures
            final(self).wf(),
            *final(self) == (Dense { biases, ..*old(self) }),
    {
        self.biases = biases;
    }

    /// Replaces the weight gradients; the shape must stay the layer's own.
    pub fn set_dweights(&mut self, dweights: Matrix)
        requires
            old(self).wf(),
            dweights.wf(),
            dweights@.len() == old(self).n_in(),
            dweights.width as int == old(self).n_out(),
        ensures
            final(self).wf(),
            *final(self) == (Dense { dweights, ..*old(self) }),
    {
        self.dweights = dweights;
    }

    /// Replaces the bias gradients; the shape must stay the layer's own.
    pub fn set_dbiases(&mut self, dbiases: Matrix)
        requires
            old(self).wf(),
            dbiases.wf(),
            dbiases@.len() == 1,
            dbiases.width as int == old(self).n_out(),
        ensures
            final(self).wf(),
            *final(self) == (Dense { dbiases, ..*old(self) }),
    {
        self.dbiases = dbiases;
    }
}

} // verus!
