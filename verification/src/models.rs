//! The sequential model: an ordered stack of dense layers, forwarded in
//! order and backpropagated in reverse order.

use vstd::prelude::*;
use crate::activations::{Activation, map_bwd};
use crate::layers::{Dense, dense_out, layer_db, layer_dw, layer_in_grad};
use crate::matrix::{Matrix, dot_grid, ew_mul, transpose_grid};

verus! {

/// The activation of each layer.
pub open spec fn acts_of(ls: Seq<Dense>) -> Seq<Activation> {
    ls.map_values(|l: Dense| l.activation)
}

/// The weight matrix of each layer.
pub open spec fn ws_of(ls: Seq<Dense>) -> Seq<Seq<Seq<u64>>> {
    ls.map_values(|l: Dense| l.weights@)
}

/// The output width of each layer.
pub open spec fn wcols_of(ls: Seq<Dense>) -> Seq<int> {
    ls.map_values(|l: Dense| l.weights.width as int)
}

/// The bias row of each layer.
pub open spec fn bs_of(ls: Seq<Dense>) -> Seq<Seq<Seq<u64>>> {
    ls.map_values(|l: Dense| l.biases@)
}

/// The output of layer i - 1 on input `x`, fed through the first i layers
/// in order; `x` itself for i = 0.
pub open spec fn stage(
    acts: Seq<Activation>,
    ws: Seq<Seq<Seq<u64>>>,
    wcols: Seq<int>,
    bs: Seq<Seq<Seq<u64>>>,
    x: Seq<Seq<u64>>,
    i: int,
) -> Seq<Seq<u64>>
    decreases i,
{
    if i <= 0 {
        x
    } else {
        dense_out(acts[i - 1], ws[i - 1], wcols[i - 1], bs[i - 1], stage(acts, ws, wcols, bs, x, i - 1))
    }
}

/// Output width of layer i equals input width of layer i + 1, and the
/// first layer, if there is one, accepts rows of width `xw`.
pub open spec fn chained(ls: Seq<Dense>, xw: int) -> bool {
    &&& ls.len() > 0 ==> ls[0].n_in() == xw
    &&& forall|i: int| 1 <= i < ls.len() ==> (#[trigger] ls[i]).n_in() == ls[i - 1].n_out()
}

/// The width of what the stack hands back on rows of width `xw`: the last
/// layer's output width, or `xw` itself when there is no layer.
pub open spec fn out_width(ls: Seq<Dense>, xw: int) -> int {
    if ls.len() == 0 {
        xw
    } else {
        ls.last().n_out()
    }
}

/// The gradient arriving at layer i's output when `gout` arrives at the
/// last layer's output: what the layers above i hand down, in terms of
/// their cached forward state.
pub open spec fn g_at(ls: Seq<Dense>, gout: Seq<Seq<u64>>, i: int) -> Seq<Seq<u64>>
    decreases ls.len() - i,
{
    if i >= ls.len() - 1 {
        gout
    } else {
        layer_in_grad(ls[i + 1], g_at(ls, gout, i + 1))
    }
}

/// The same gradient written over the parameters alone, with every cached
/// output replaced by the stage the forward pass computes.
pub open spec fn pf_g(
    acts: Seq<Activation>,
    ws: Seq<Seq<Seq<u64>>>,
    wcols: Seq<int>,
    bs: Seq<Seq<Seq<u64>>>,
    x: Seq<Seq<u64>>,
    gout: Seq<Seq<u64>>,
    i: int,
) -> Seq<Seq<u64>>
    decreases ws.len() - i,
{
    if i >= ws.len() - 1 {
        gout
    } else {
        dot_grid(
            ew_mul(
                map_bwd(acts[i + 1], stage(acts, ws, wcols, bs, x, i + 2)),
                pf_g(acts, ws, wcols, bs, x, gout, i + 1),
            ),
            transpose_grid(ws[i + 1], wcols[i + 1]),
            ws[i + 1].len() as int,
        )
    }
}

/// The weight gradient of layer i, over the parameters alone.
pub open spec fn pf_dw(
    acts: Seq<Activation>,
    ws: Seq<Seq<Seq<u64>>>,
    wcols: Seq<int>,
    bs: Seq<Seq<Seq<u64>>>,
    x: Seq<Seq<u64>>,
    gout: Seq<Seq<u64>>,
    i: int,
) -> Seq<Seq<u64>> {
    dot_grid(
        transpose_grid(stage(acts, ws, wcols, bs, x, i), ws[i].len() as int),
        ew_mul(
            map_bwd(acts[i], stage(acts, ws, wcols, bs, x, i + 1)),
            pf_g(acts, ws, wcols, bs, x, gout, i),
        ),
        wcols[i],
    )
}

/// The bias gradient of layer i, over the parameters alone.
pub open spec fn pf_db(
    acts: Seq<Activation>,
    ws: Seq<Seq<Seq<u64>>>,
    wcols: Seq<int>,
    bs: Seq<Seq<Seq<u64>>>,
    x: Seq<Seq<u64>>,
    gout: Seq<Seq<u64>>,
    i: int,
) -> Seq<Seq<u64>> {
    seq![
        crate::bits::canon_row(
            crate::matrix::colsum_of(
                ew_mul(
                    map_bwd(acts[i], stage(acts, ws, wcols, bs, x, i + 1)),
                    pf_g(acts, ws, wcols, bs, x, gout, i),
                ),
                wcols[i],
            ),
        )
    ]
}

/// After a forward pass on `x`, the cache-form gradient chain equals the
/// parameter-form one.
pub proof fn lemma_g_param(
    ls: Seq<Dense>,
    acts: Seq<Activation>,
    ws: Seq<Seq<Seq<u64>>>,
    wcols: Seq<int>,
    bs: Seq<Seq<Seq<u64>>>,
    x: Seq<Seq<u64>>,
    gout: Seq<Seq<u64>>,
    i: int,
)
    requires
        ls.len() == ws.len(),
        acts.len() == ws.len(),
        wcols.len() == ws.len(),
        bs.len() == ws.len(),
        0 <= i < ls.len(),
        forall|k: int| 0 <= k < ls.len() ==> {
            let l = #[trigger] ls[k];
            &&& l.activation == acts[k]
            &&& l.weights@ == ws[k]
            &&& l.weights.width as int == wcols[k]
            &&& l.output@ == stage(acts, ws, wcols, bs, x, k + 1)
        },
    ensures
        g_at(ls, gout, i) == pf_g(acts, ws, wcols, bs, x, gout, i),
    decreases ls.len() - i,
{
    if i < ls.len() - 1 {
        lemma_g_param(ls, acts, ws, wcols, bs, x, gout, i + 1);
    }
}

/// Law: a forward pass is a pure function of the parameters and the input.
/// Two models whose layers carry the same activations, weights and biases
/// — in particular one model before and after a forward pass, which only
/// rewrites the caches — produce the same value at every stage, so
/// repeating `forward` on the same input yields the same output.
pub proof fn lemma_forward_pure(ls1: Seq<Dense>, ls2: Seq<Dense>, x: Seq<Seq<u64>>, i: int)
    requires
        ls1.len() == ls2.len(),
        forall|k: int| 0 <= k < ls1.len() ==> {
            let a = #[trigger] ls1[k];
            let b = #[trigger] ls2[k];
            &&& a.activation == b.activation
            &&& a.weights@ == b.weights@
            &&& a.weights.width == b.weights.width
            &&& a.biases@ == b.biases@
        },
    ensures
        stage(acts_of(ls1), ws_of(ls1), wcols_of(ls1), bs_of(ls1), x, i)
            == stage(acts_of(ls2), ws_of(ls2), wcols_of(ls2), bs_of(ls2), x, i),
{
    assert(acts_of(ls1) =~= acts_of(ls2));
    assert(ws_of(ls1) =~= ws_of(ls2));
    assert(wcols_of(ls1) =~= wcols_of(ls2));
    assert(bs_of(ls1) =~= bs_of(ls2));
}

/// An ordered stack of dense layers.
pub struct Sequential {
    pub layers: Vec<Dense>,
}

impl Sequential {
    pub open spec fn wf(&self) -> bool {
        forall|i: int| 0 <= i < self.layers@.len() ==> (#[trigger] self.layers@[i]).wf()
    }

    /// The caches of every layer hold one consistent batch of `batch`
    /// rows, as a forward pass leaves them.
    pub open spec fn bwd_ready(&self, batch: int) -> bool {
        forall|i: int| 0 <= i < self.layers@.len() ==> {
            let l = #[trigger] self.layers@[i];
            &&& l.output@.len() == batch
            &&& l.inputs@.len() == batch
            &&& l.output.width as int == l.n_out()
            &&& l.inputs.width as int == l.n_in()
        }
    }

    pub fn new(layers: Vec<Dense>) -> (r: Sequential)
        ensures
            r.layers == layers,
    {
        Sequential { layers }
    }

    /// Feeds `inputs` through the layers in order; every layer caches its
    /// input and output on the way.
    pub fn forward(&mut self, inputs: &Matrix) -> (r: Matrix)
        requires
            old(self).wf(),
            inputs.wf(),
            chained(old(self).layers@, inputs.width as int),
        ensures
            final(self).wf(),
            final(self).layers@.len() == old(self).layers@.len(),
            chained(final(self).layers@, inputs.width as int),
            final(self).bwd_ready(inputs@.len() as int),
            forall|i: int| 0 <= i < old(self).layers@.len() ==> {
                let l1 = #[trigger] final(self).layers@[i];
                let l0 = old(self).layers@[i];
                &&& l1.forwarded(
                    l0,
                    stage(
                        acts_of(old(self).layers@),
                        ws_of(old(self).layers@),
                        wcols_of(old(self).layers@),
                        bs_of(old(self).layers@),
                        inputs@,
                        i,
                    ),
                    l0.n_in(),
                )
                &&& l1.inputs@.len() == inputs@.len()
                &&& l1.output@.len() == inputs@.len()
            },
            r@ == stage(
                acts_of(old(self).layers@),
                ws_of(old(self).layers@),
                wcols_of(old(self).layers@),
                bs_of(old(self).layers@),
                inputs@,
                old(self).layers@.len() as int,
            ),
            r@.len() == inputs@.len(),
            r.wf(),
            r.width as int == out_width(old(self).layers@, inputs.width as int),
    {
        let ghost ls0 = self.layers@;
        let ghost x0 = inputs@;
        let ghost xw0 = inputs.width as int;
        let mut cur = inputs.duplicate();
        let n = self.layers.len();
        let mut i: usize = 0;
        while i < n
            invariant
                n == ls0.len(),
                self.layers@.len() == n,
                0 <= i <= n,
                chained(ls0, xw0),
                forall|k: int| 0 <= k < n ==> (#[trigger] ls0[k]).wf(),
                forall|k: int| i <= k < n ==> self.layers@[k] == ls0[k],
                forall|k: int| 0 <= k < i ==> {
                    let l1 = #[trigger] self.layers@[k];
                    &&& l1.forwarded(
                        ls0[k],
                        stage(acts_of(ls0), ws_of(ls0), wcols_of(ls0), bs_of(ls0), x0, k),
                        ls0[k].n_in(),
                    )
                    &&& l1.inputs@.len() == x0.len()
                    &&& l1.output@.len() == x0.len()
                    &&& l1.wf()
                },
                cur@ == stage(acts_of(ls0), ws_of(ls0), wcols_of(ls0), bs_of(ls0), x0, i as int),
                cur@.len() == x0.len(),
                cur.wf(),
                cur.width as int == (if i == 0 { xw0 } else { ls0[i - 1].n_out() }),
            decreases n - i,
        {
            proof {
                assert(ls0[i as int].n_in() == (if i == 0 { xw0 } else { ls0[i as int - 1].n_out() }));
            }
            let out = self.layers[i].forward(&cur);
            proof {
                assert(acts_of(ls0)[i as int] == ls0[i as int].activation);
                assert(ws_of(ls0)[i as int] == ls0[i as int].weights@);
                assert(wcols_of(ls0)[i as int] == ls0[i as int].weights.width as int);
                assert(bs_of(ls0)[i as int] == ls0[i as int].biases@);
            }
            cur = out;
            i += 1;
        }
        cur
    }

    /// Feeds the loss gradient through the layers in reverse order, right
    /// after a forward pass; every layer stores its weight and bias
    /// gradients on the way, and the gradient the first layer returns is
    /// discarded.
    pub fn backward(&mut self, output_gradient: &Matrix)
        requires
            old(self).wf(),
            output_gradient.wf(),
            old(self).bwd_ready(output_gradient@.len() as int),
            forall|i: int| 1 <= i < old(self).layers@.len()
                ==> (#[trigger] old(self).layers@[i]).n_in() == old(self).layers@[i - 1].n_out(),
            old(self).layers@.len() > 0
                ==> output_gradient.width as int == old(self).layers@.last().n_out(),
        ensures
            final(self).wf(),
            final(self).layers@.len() == old(self).layers@.len(),
            forall|i: int| 0 <= i < old(self).layers@.len() ==> {
                let l1 = #[trigger] final(self).layers@[i];
                let l0 = old(self).layers@[i];
                &&& l1.weights == l0.weights
                &&& l1.biases == l0.biases
                &&& l1.activation == l0.activation
                &&& l1.inputs == l0.inputs
                &&& l1.output == l0.output
                &&& l1.dweights@ == layer_dw(l0, g_at(old(self).layers@, output_gradient@, i))
                &&& l1.dbiases@ == layer_db(l0, g_at(old(self).layers@, output_gradient@, i))
                &&& l1.dweights@.len() == l0.n_in()
                &&& l1.dweights.width as int == l0.n_out()
                &&& l1.dbiases@.len() == 1
                &&& l1.dbiases.width as int == l0.n_out()
            },
    {
        let ghost ls0 = self.layers@;
        let ghost og0 = output_gradient@;
        let ghost batch = output_gradient@.len() as int;
        let mut grad = output_gradient.duplicate();
        let n = self.layers.len();
        let mut i: usize = n;
        while i > 0
            invariant
                n == ls0.len(),
                self.layers@.len() == n,
                0 <= i <= n,
                forall|k: int| 0 <= k < n ==> (#[trigger] ls0[k]).wf(),
                forall|k: int| 0 <= k < n ==> {
                    let l = #[trigger] ls0[k];
                    &&& l.output@.len() == batch
                    &&& l.inputs@.len() == batch
                    &&& l.output.width as int == l.n_out()
                    &&& l.inputs.width as int == l.n_in()
                },
                forall|k: int| 1 <= k < n ==> (#[trigger] ls0[k]).n_in() == ls0[k - 1].n_out(),
                forall|k: int| 0 <= k < i ==> self.layers@[k] == ls0[k],
                forall|k: int| i <= k < n ==> {
                    let l1 = #[trigger] self.layers@[k];
                    let l0 = ls0[k];
                    &&& l1.weights == l0.weights
                    &&& l1.biases == l0.biases
                    &&& l1.activation == l0.activation
                    &&& l1.inputs == l0.inputs
                    &&& l1.output == l0.output
                    &&& l1.dweights@ == layer_dw(l0, g_at(ls0, og0, k))
                    &&& l1.dbiases@ == layer_db(l0, g_at(ls0, og0, k))
                    &&& l1.dweights@.len() == l0.n_in()
                    &&& l1.dweights.width as int == l0.n_out()
                    &&& l1.dbiases@.len() == 1
                    &&& l1.dbiases.width as int == l0.n_out()
                    &&& l1.wf()
                },
                grad.wf(),
                grad@.len() == batch,
                i > 0 ==> grad@ == g_at(ls0, og0, i as int - 1),
                i > 0 ==> grad.width as int == ls0[i as int - 1].n_out(),
            decreases i,
        {
            let next = self.layers[i - 1].backward(&grad);
            grad = next;
            i -= 1;
        }
    }
}

} // verus!
