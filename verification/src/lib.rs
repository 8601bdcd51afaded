//! A minimal feed-forward neural-network training framework: dense layers
//! with pluggable activations, a mean-squared-error loss and a
//! stochastic-gradient-descent optimizer, driven by a fixed training loop
//! over the four-row XOR table.
//!
//! Doubles are carried as their IEEE-754 bit patterns; the numeric substrate
//! (ndarray and the standard library's float operations) stands behind
//! trusted wrappers, and everything built on it is verified.

pub mod activations;
pub mod bits;
pub mod layers;
pub mod losses;
pub mod matrix;
pub mod models;
pub mod optimizers;

use vstd::prelude::*;
use crate::activations::Activation;
use crate::bits::{F_ONE, F_TENTH, F_ZERO};
use crate::layers::Dense;
use crate::losses::{MeanSquaredError, mse_grad, mse_of};
use crate::matrix::{Matrix, all_zero, ew_scale, ew_sub, grid, in_unit_grid};
use crate::models::{
    Sequential, acts_of, bs_of, chained, lemma_g_param, out_width, pf_db, pf_dw, stage, wcols_of,
    ws_of,
};
use crate::optimizers::SGD;

verus! {

/// How many forward/backward/update cycles the fixed training loop runs.
pub const EPOCH_COUNT: usize = 10001;

/// Layer i's weights after one epoch on the given parameters: one
/// gradient-descent step of size 0.1 against the mean-squared error.
pub open spec fn epoch_w(
    acts: Seq<Activation>,
    ws: Seq<Seq<Seq<u64>>>,
    wcols: Seq<int>,
    bs: Seq<Seq<Seq<u64>>>,
    x: Seq<Seq<u64>>,
    y: Seq<Seq<u64>>,
    nc: usize,
    i: int,
) -> Seq<Seq<u64>> {
    ew_sub(
        ws[i],
        ew_scale(
            pf_dw(
                acts,
                ws,
                wcols,
                bs,
                x,
                mse_grad(y, stage(acts, ws, wcols, bs, x, ws.len() as int), nc),
                i,
            ),
            F_TENTH,
        ),
    )
}

/// Layer i's biases after one epoch on the given parameters.
pub open spec fn epoch_b(
    acts: Seq<Activation>,
    ws: Seq<Seq<Seq<u64>>>,
    wcols: Seq<int>,
    bs: Seq<Seq<Seq<u64>>>,
    x: Seq<Seq<u64>>,
    y: Seq<Seq<u64>>,
    nc: usize,
    i: int,
) -> Seq<Seq<u64>> {
    ew_sub(
        bs[i],
        ew_scale(
            pf_db(
                acts,
                ws,
                wcols,
                bs,
                x,
                mse_grad(y, stage(acts, ws, wcols, bs, x, ws.len() as int), nc),
                i,
            ),
            F_TENTH,
        ),
    )
}

/// All weights after one epoch.
pub open spec fn epoch_ws(
    acts: Seq<Activation>,
    ws: Seq<Seq<Seq<u64>>>,
    wcols: Seq<int>,
    bs: Seq<Seq<Seq<u64>>>,
    x: Seq<Seq<u64>>,
    y: Seq<Seq<u64>>,
    nc: usize,
) -> Seq<Seq<Seq<u64>>> {
    Seq::new(ws.len(), |i: int| epoch_w(acts, ws, wcols, bs, x, y, nc, i))
}

/// All biases after one epoch.
pub open spec fn epoch_bs(
    acts: Seq<Activation>,
    ws: Seq<Seq<Seq<u64>>>,
    wcols: Seq<int>,
    bs: Seq<Seq<Seq<u64>>>,
    x: Seq<Seq<u64>>,
    y: Seq<Seq<u64>>,
    nc: usize,
) -> Seq<Seq<Seq<u64>>> {
    Seq::new(bs.len(), |i: int| epoch_b(acts, ws, wcols, bs, x, y, nc, i))
}

/// The weights and biases after `k` epochs on the fixed batch (x, y).
pub open spec fn trained(
    acts: Seq<Activation>,
    wcols: Seq<int>,
    ws0: Seq<Seq<Seq<u64>>>,
    bs0: Seq<Seq<Seq<u64>>>,
    x: Seq<Seq<u64>>,
    y: Seq<Seq<u64>>,
    nc: usize,
    k: int,
) -> (Seq<Seq<Seq<u64>>>, Seq<Seq<Seq<u64>>>)
    decreases k,
{
    if k <= 0 {
        (ws0, bs0)
    } else {
        let prev = trained(acts, wcols, ws0, bs0, x, y, nc, k - 1);
        (
            epoch_ws(acts, prev.0, wcols, prev.1, x, y, nc),
            epoch_bs(acts, prev.0, wcols, prev.1, x, y, nc),
        )
    }
}

/// The loss the training loop records in epoch `k`: the mean-squared
/// error of the prediction made with the parameters of that epoch.
pub open spec fn loss_at(
    acts: Seq<Activation>,
    wcols: Seq<int>,
    ws0: Seq<Seq<Seq<u64>>>,
    bs0: Seq<Seq<Seq<u64>>>,
    x: Seq<Seq<u64>>,
    y: Seq<Seq<u64>>,
    nc: usize,
    k: int,
) -> u64 {
    let p = trained(acts, wcols, ws0, bs0, x, y, nc, k);
    mse_of(y, stage(acts, p.0, wcols, p.1, x, ws0.len() as int))
}

/// The XOR table's inputs: the four two-entry rows.
pub open spec fn xor_inputs() -> Seq<Seq<u64>> {
    seq![
        seq![F_ZERO, F_ZERO],
        seq![F_ZERO, F_ONE],
        seq![F_ONE, F_ZERO],
        seq![F_ONE, F_ONE],
    ]
}

/// The XOR table's targets: one entry per row, one where the inputs differ.
pub open spec fn xor_targets() -> Seq<Seq<u64>> {
    seq![seq![F_ZERO], seq![F_ONE], seq![F_ONE], seq![F_ZERO]]
}

/// What `run` promises of every outcome of the random initialization:
/// there are initial weights `ws0` of the 2-3-1 shape and zero biases
/// `bs0` such that `losses` holds the loss of every epoch of training
/// those parameters on the XOR table, and `preds` is the forward pass of
/// the trained parameters on the XOR inputs.
pub open spec fn run_outcome(
    losses: Seq<u64>,
    preds: Seq<Seq<u64>>,
    ws0: Seq<Seq<Seq<u64>>>,
    bs0: Seq<Seq<Seq<u64>>>,
) -> bool {
    let acts = seq![Activation::Tanh, Activation::Sigmoid];
    let wcols = seq![3int, 1int];
    let fin = trained(acts, wcols, ws0, bs0, xor_inputs(), xor_targets(), 4, EPOCH_COUNT as int);
    &&& ws0.len() == 2
    &&& grid(ws0[0], 2, 3)
    &&& grid(ws0[1], 3, 1)
    &&& bs0.len() == 2
    &&& grid(bs0[0], 1, 3)
    &&& grid(bs0[1], 1, 1)
    &&& all_zero(bs0[0])
    &&& all_zero(bs0[1])
    &&& losses.len() == EPOCH_COUNT
    &&& forall|e: int| 0 <= e < EPOCH_COUNT ==> losses[e] == loss_at(
        acts,
        wcols,
        ws0,
        bs0,
        xor_inputs(),
        xor_targets(),
        4,
        e,
    )
    &&& preds == stage(acts, fin.0, wcols, fin.1, xor_inputs(), 2)
}

fn row1(a: u64) -> (r: Vec<u64>)
    ensures
        r@ == seq![a],
{
    let mut v: Vec<u64> = Vec::new();
    v.push(a);
    proof {
        assert(v@ =~= seq![a]);
    }
    v
}

fn row2(a: u64, b: u64) -> (r: Vec<u64>)
    ensures
        r@ == seq![a, b],
{
    let mut v: Vec<u64> = Vec::new();
    v.push(a);
    v.push(b);
    proof {
        assert(v@ =~= seq![a, b]);
    }
    v
}

/// The four-row XOR table: inputs of width two and targets of width one.
pub fn get_xor_data() -> (r: (Matrix, Matrix))
    ensures
        r.0.wf(),
        r.0.width == 2,
        r.0@ == xor_inputs(),
        r.1.wf(),
        r.1.width == 1,
        r.1@ == xor_targets(),
{
    let mut xd: Vec<Vec<u64>> = Vec::new();
    xd.push(row2(F_ZERO, F_ZERO));
    xd.push(row2(F_ZERO, F_ONE));
    xd.push(row2(F_ONE, F_ZERO));
    xd.push(row2(F_ONE, F_ONE));
    let mut yd: Vec<Vec<u64>> = Vec::new();
    yd.push(row1(F_ZERO));
    yd.push(row1(F_ONE));
    yd.push(row1(F_ONE));
    yd.push(row1(F_ZERO));
    let x = Matrix { data: xd, width: 2 };
    let y = Matrix { data: yd, width: 1 };
    proof {
        assert(x@ =~= xor_inputs());
        assert(y@ =~= xor_targets());
    }
    (x, y)
}

/// A 2-3-1 network: a Tanh hidden layer and a Sigmoid output layer, with
/// random weights in [-1, 1), zero biases, zero gradients and empty
/// caches.
pub fn build_model() -> (r: Sequential)
    ensures
        r.wf(),
        r.layers@.len() == 2,
        chained(r.layers@, 2),
        r.layers@[0].activation == Activation::Tanh,
        r.layers@[0].n_in() == 2,
        r.layers@[0].n_out() == 3,
        r.layers@[1].activation == Activation::Sigmoid,
        r.layers@[1].n_in() == 3,
        r.layers@[1].n_out() == 1,
        forall|i: int| 0 <= i < 2 ==> {
            let l = #[trigger] r.layers@[i];
            &&& in_unit_grid(l.weights@)
            &&& all_zero(l.biases@)
            &&& all_zero(l.dweights@)
            &&& all_zero(l.dbiases@)
            &&& l.inputs@.len() == 0
            &&& l.output@.len() == 0
        },
{
    let mut layers: Vec<Dense> = Vec::new();
    layers.push(Dense::new(2, 3, Activation::Tanh));
    layers.push(Dense::new(3, 1, Activation::Sigmoid));
    Sequential::new(layers)
}

/// Runs the fixed number of epochs on one batch: forward, loss, loss
/// gradient, backward, parameter update; returns the loss of every epoch,
/// leaving the reporting of chosen epochs to the caller.
///
/// The batch must hold at least one row and one column: the loss takes
/// the mean over the entries, which has no value on none.
pub fn train_model(model: &mut Sequential, x_train: &Matrix, y_train: &Matrix) -> (losses: Vec<u64>)
    requires
        old(model).wf(),
        x_train.wf(),
        y_train.wf(),
        x_train@.len() > 0,
        y_train@.len() == x_train@.len(),
        chained(old(model).layers@, x_train.width as int),
        y_train.width as int == out_width(old(model).layers@, x_train.width as int),
        y_train.width > 0,
        y_train@.len() * y_train.width <= usize::MAX,
    ensures
        final(model).wf(),
        final(model).layers@.len() == old(model).layers@.len(),
        chained(final(model).layers@, x_train.width as int),
        acts_of(final(model).layers@) == acts_of(old(model).layers@),
        wcols_of(final(model).layers@) == wcols_of(old(model).layers@),
        losses@.len() == EPOCH_COUNT,
        ws_of(final(model).layers@) == trained(
            acts_of(old(model).layers@),
            wcols_of(old(model).layers@),
            ws_of(old(model).layers@),
            bs_of(old(model).layers@),
            x_train@,
            y_train@,
            (y_train@.len() * y_train.width as int) as usize,
            EPOCH_COUNT as int,
        ).0,
        bs_of(final(model).layers@) == trained(
            acts_of(old(model).layers@),
            wcols_of(old(model).layers@),
            ws_of(old(model).layers@),
            bs_of(old(model).layers@),
            x_train@,
            y_train@,
            (y_train@.len() * y_train.width as int) as usize,
            EPOCH_COUNT as int,
        ).1,
        forall|e: int| 0 <= e < EPOCH_COUNT ==> losses@[e] == loss_at(
            acts_of(old(model).layers@),
            wcols_of(old(model).layers@),
            ws_of(old(model).layers@),
            bs_of(old(model).layers@),
            x_train@,
            y_train@,
            (y_train@.len() * y_train.width as int) as usize,
            e,
        ),
{
    let ghost ls_init = model.layers@;
    let ghost a0 = acts_of(ls_init);
    let ghost wc0 = wcols_of(ls_init);
    let ghost w0 = ws_of(ls_init);
    let ghost b0 = bs_of(ls_init);
    let ghost x0 = x_train@;
    let ghost y0 = y_train@;
    let optimizer = SGD::new(F_TENTH);
    let loss_fn = MeanSquaredError;
    let nc = y_train.rows() * y_train.cols();
    let mut losses: Vec<u64> = Vec::new();
    let mut epoch: usize = 0;
    while epoch < EPOCH_COUNT
        invariant
            model.wf(),
            model.layers@.len() == ls_init.len(),
            chained(model.layers@, x_train.width as int),
            acts_of(model.layers@) == a0,
            wcols_of(model.layers@) == wc0,
            ws_of(model.layers@) == trained(a0, wc0, w0, b0, x0, y0, nc, epoch as int).0,
            bs_of(model.layers@) == trained(a0, wc0, w0, b0, x0, y0, nc, epoch as int).1,
            losses@.len() == epoch,
            forall|e: int| 0 <= e < epoch
                ==> losses@[e] == loss_at(a0, wc0, w0, b0, x0, y0, nc, e),
            0 <= epoch <= EPOCH_COUNT,
            a0 == acts_of(ls_init),
            wc0 == wcols_of(ls_init),
            w0 == ws_of(ls_init),
            b0 == bs_of(ls_init),
            x0 == x_train@,
            y0 == y_train@,
            x_train.wf(),
            y_train.wf(),
            x0.len() > 0,
            y0.len() == x0.len(),
            chained(ls_init, x_train.width as int),
            y_train.width as int == out_width(ls_init, x_train.width as int),
            y_train.width > 0,
            nc == (y0.len() * y_train.width as int) as usize,
            y0.len() * y_train.width as int <= usize::MAX,
            optimizer.learning_rate == F_TENTH,
        decreases EPOCH_COUNT - epoch,
    {
        let ghost ls_k = model.layers@;
        let ghost n = ls_k.len() as int;
        let y_pred = model.forward(x_train);
        let ghost ls_mid = model.layers@;
        proof {
            assert(acts_of(ls_k) == a0);
            assert(y_pred@ == stage(a0, ws_of(ls_k), wcols_of(ls_k), bs_of(ls_k), x0, n));
            if n > 0 {
                assert(wcols_of(ls_k)[n - 1] == ls_k[n - 1].weights.width as int);
                assert(wcols_of(ls_init)[n - 1] == ls_init[n - 1].weights.width as int);
            }
            assert(y_pred.width == y_train.width);
        }
        let loss = loss_fn.forward(y_train, &y_pred);
        let grad = loss_fn.backward(y_train, &y_pred);
        let ghost wsk = trained(a0, wc0, w0, b0, x0, y0, nc, epoch as int).0;
        let ghost bsk = trained(a0, wc0, w0, b0, x0, y0, nc, epoch as int).1;
        let ghost g0 = mse_grad(y0, stage(a0, wsk, wc0, bsk, x0, n), nc);
        proof {
            assert(grad@ == g0);
            // the caches now hold the stages of this epoch's parameters
            assert forall|k: int| 0 <= k < n implies {
                let l = #[trigger] ls_mid[k];
                &&& l.activation == a0[k]
                &&& l.weights@ == wsk[k]
                &&& l.weights.width as int == wc0[k]
                &&& l.biases@ == bsk[k]
                &&& l.output@ == stage(a0, wsk, wc0, bsk, x0, k + 1)
                &&& l.output.width as int == wc0[k]
                &&& l.inputs@ == stage(a0, wsk, wc0, bsk, x0, k)
                &&& l.inputs.width as int == wsk[k].len() as int
            } by {
                assert(ls_mid[k].forwarded(
                    ls_k[k],
                    stage(a0, wsk, wc0, bsk, x0, k),
                    ls_k[k].n_in(),
                ));
                assert(acts_of(ls_k)[k] == ls_k[k].activation);
                assert(ws_of(ls_k)[k] == ls_k[k].weights@);
                assert(bs_of(ls_k)[k] == ls_k[k].biases@);
                assert(wcols_of(ls_k)[k] == ls_k[k].weights.width as int);
                assert(acts_of(ls_mid)[k] == ls_mid[k].activation);
                assert(wcols_of(ls_mid)[k] == ls_mid[k].weights.width as int);
                assert(stage(a0, wsk, wc0, bsk, x0, k + 1) == crate::layers::dense_out(
                    a0[k],
                    wsk[k],
                    wc0[k],
                    bsk[k],
                    stage(a0, wsk, wc0, bsk, x0, k),
                ));
            }
        }
        model.backward(&grad);
        let ghost ls_bwd = model.layers@;
        proof {
            assert forall|k: int| 0 <= k < n implies #[trigger] crate::models::g_at(ls_mid, g0, k)
                == crate::models::pf_g(a0, wsk, wc0, bsk, x0, g0, k) by {
                lemma_g_param(ls_mid, a0, wsk, wc0, bsk, x0, g0, k);
            }
            assert forall|k: int| 0 <= k < n implies {
                let l = #[trigger] ls_bwd[k];
                &&& l.weights@ == wsk[k]
                &&& l.biases@ == bsk[k]
                &&& l.dweights@ == pf_dw(a0, wsk, wc0, bsk, x0, g0, k)
                &&& l.dbiases@ == pf_db(a0, wsk, wc0, bsk, x0, g0, k)
            } by {
                assert(ls_bwd[k].dweights@
                    == crate::layers::layer_dw(ls_mid[k], crate::models::g_at(ls_mid, g0, k)));
                assert(ls_bwd[k].dbiases@
                    == crate::layers::layer_db(ls_mid[k], crate::models::g_at(ls_mid, g0, k)));
            }
        }
        optimizer.update(model);
        proof {
            let ls_up = model.layers@;
            assert forall|k: int| 0 <= k < n implies {
                &&& (#[trigger] ws_of(ls_up)[k]) == epoch_ws(a0, wsk, wc0, bsk, x0, y0, nc)[k]
                &&& bs_of(ls_up)[k] == epoch_bs(a0, wsk, wc0, bsk, x0, y0, nc)[k]
            } by {
                assert(ws_of(ls_up)[k] == ls_up[k].weights@);
                assert(bs_of(ls_up)[k] == ls_up[k].biases@);
                assert(ls_up[k].weights@
                    == ew_sub(wsk[k], ew_scale(pf_dw(a0, wsk, wc0, bsk, x0, g0, k), F_TENTH)));
            }
            assert(ws_of(ls_up) =~= trained(a0, wc0, w0, b0, x0, y0, nc, epoch as int + 1).0);
            assert(bs_of(ls_up) =~= trained(a0, wc0, w0, b0, x0, y0, nc, epoch as int + 1).1);
            assert(acts_of(ls_up) =~= a0) by {
                assert forall|k: int| 0 <= k < n implies (#[trigger] acts_of(ls_up)[k]) == a0[k] by {
                    assert(acts_of(ls_mid)[k] == ls_mid[k].activation);
                    assert(acts_of(ls_k)[k] == ls_k[k].activation);
                }
            }
            assert(wcols_of(ls_up) =~= wc0) by {
                assert forall|k: int| 0 <= k < n implies (#[trigger] wcols_of(ls_up)[k]) == wc0[k] by {
                    assert(wcols_of(ls_mid)[k] == ls_mid[k].weights.width as int);
                    assert(wcols_of(ls_k)[k] == ls_k[k].weights.width as int);
                }
            }
            assert(chained(ls_up, x_train.width as int)) by {
                assert forall|k: int| 0 <= k < n implies (#[trigger] ls_up[k]).n_in() == ls_k[k].n_in()
                    && ls_up[k].n_out() == ls_k[k].n_out() by {
                    assert(ws_of(ls_k)[k] == ls_k[k].weights@);
                    assert(ls_up[k].weights@.len() == wsk[k].len());
                }
            }
            assert(loss == loss_at(a0, wc0, w0, b0, x0, y0, nc, epoch as int));
        }
        losses.push(loss);
        epoch += 1;
    }
    losses
}

/// The model's outputs on `x_train`; the caller prints them beside the
/// inputs. A prediction pass only refreshes the layers' caches: every
/// layer keeps its weights, biases, activation and gradients.
pub fn predict(model: &mut Sequential, x_train: &Matrix) -> (r: Matrix)
    requires
        old(model).wf(),
        x_train.wf(),
        chained(old(model).layers@, x_train.width as int),
    ensures
        final(model).wf(),
        final(model).layers@.len() == old(model).layers@.len(),
        chained(final(model).layers@, x_train.width as int),
        forall|i: int| 0 <= i < old(model).layers@.len() ==> {
            let l1 = #[trigger] final(model).layers@[i];
            let l0 = old(model).layers@[i];
            &&& l1.weights == l0.weights
            &&& l1.biases == l0.biases
            &&& l1.activation == l0.activation
            &&& l1.dweights == l0.dweights
            &&& l1.dbiases == l0.dbiases
        },
        r@ == stage(
            acts_of(old(model).layers@),
            ws_of(old(model).layers@),
            wcols_of(old(model).layers@),
            bs_of(old(model).layers@),
            x_train@,
            old(model).layers@.len() as int,
        ),
        r@.len() == x_train@.len(),
        r.wf(),
        r.width as int == out_width(old(model).layers@, x_train.width as int),
{
    model.forward(x_train)
}

/// Builds the 2-3-1 network, trains it on the XOR table and returns the
/// loss of every epoch with the final predictions; printing selected
/// epochs and the prediction table is the caller's affair.
///
/// Only the initial weights are random: for some 2-3-1 initial weights
/// and zero biases, the losses and predictions are exactly those of
/// training that network on the XOR table (`run_outcome`).
pub fn run() -> (r: (Vec<u64>, Matrix))
    ensures
        r.0@.len() == EPOCH_COUNT,
        r.1@.len() == 4,
        r.1.wf(),
        r.1.width == 1,
        exists|ws0: Seq<Seq<Seq<u64>>>, bs0: Seq<Seq<Seq<u64>>>|
            run_outcome(r.0@, r.1@, ws0, bs0),
{
    let (x_train, y_train) = get_xor_data();
    let mut model = build_model();
    let ghost m0 = model.layers@;
    let ghost wi = ws_of(m0);
    let ghost bi = bs_of(m0);
    let losses = train_model(&mut model, &x_train, &y_train);
    let ghost m1 = model.layers@;
    proof {
        assert(wcols_of(m1)[1] == m1[1].weights.width as int);
        assert(wcols_of(m0)[1] == m0[1].weights.width as int);
        assert(m1.last().n_out() == 1);
    }
    let predictions = predict(&mut model, &x_train);
    proof {
        let acts = seq![Activation::Tanh, Activation::Sigmoid];
        let wcols = seq![3int, 1int];
        assert(acts_of(m0) =~= acts) by {
            assert(acts_of(m0)[0] == m0[0].activation);
            assert(acts_of(m0)[1] == m0[1].activation);
        }
        assert(wcols_of(m0) =~= wcols) by {
            assert(wcols_of(m0)[0] == m0[0].weights.width as int);
            assert(wcols_of(m0)[1] == m0[1].weights.width as int);
        }
        assert(acts_of(m1) == acts && wcols_of(m1) == wcols);
        assert(wi[0] == m0[0].weights@ && wi[1] == m0[1].weights@);
        assert(bi[0] == m0[0].biases@ && bi[1] == m0[1].biases@);
        assert(grid(wi[0], 2, 3) && grid(wi[1], 3, 1));
        assert(grid(bi[0], 1, 3) && grid(bi[1], 1, 1));
        assert((xor_targets().len() * 1) as usize == 4);
        assert(run_outcome(losses@, predictions@, wi, bi));
    }
    let result = (losses, predictions);
    proof {
        assert(run_outcome(result.0@, result.1@, wi, bi));
        assert(exists|ws0: Seq<Seq<Seq<u64>>>, bs0: Seq<Seq<Seq<u64>>>|
            run_outcome(result.0@, result.1@, ws0, bs0));
    }
    result
}

} // verus!
