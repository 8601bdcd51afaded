use rust_ml_framework::activations::Activation;
use rust_ml_framework::layers::Dense;
use rust_ml_framework::matrix::Matrix;
use rust_ml_framework::models::Sequential;
use rust_ml_framework::{get_xor_data, run, train_model, predict, EPOCH_COUNT};

fn mat(rows: &[&[f64]]) -> Matrix {
    let data: Vec<Vec<u64>> = rows
        .iter()
        .map(|r| r.iter().map(|v| v.to_bits()).collect())
        .collect();
    Matrix::new(data, rows[0].len()).unwrap()
}

fn fixed_xor_model() -> Sequential {
    Sequential::new(vec![
        Dense::new_with_weights(
            2,
            3,
            Activation::Tanh,
            mat(&[&[2.0, 2.0, 0.1], &[2.0, 2.0, -0.1]]),
            mat(&[&[-1.0, -3.0, 0.0]]),
        ),
        Dense::new_with_weights(
            3,
            1,
            Activation::Sigmoid,
            mat(&[&[2.5], &[-2.5], &[0.0]]),
            mat(&[&[-2.0]]),
        ),
    ])
}

#[test]
fn test_xor_training_converges() {
    let (x_train, y_train) = get_xor_data();
    let mut model = fixed_xor_model();
    let mut final_loss = f64::INFINITY;
    for _round in 0..3 {
        let losses = train_model(&mut model, &x_train, &y_train);
        assert_eq!(losses.len(), EPOCH_COUNT);
        final_loss = f64::from_bits(losses[losses.len() - 1]);
        if final_loss < 0.02 {
            break;
        }
    }
    assert!(final_loss < 0.02);

    let predictions = predict(&mut model, &x_train);
    let p00 = f64::from_bits(predictions.entry(0, 0));
    let p01 = f64::from_bits(predictions.entry(1, 0));
    let p10 = f64::from_bits(predictions.entry(2, 0));
    let p11 = f64::from_bits(predictions.entry(3, 0));
    assert!(p00 < 0.5);
    assert!(p01 > 0.5);
    assert!(p10 > 0.5);
    assert!(p11 < 0.5);
}

#[test]
fn test_forward_twice_same_output() {
    let mut model = fixed_xor_model();
    let (x_train, _y_train) = get_xor_data();
    let first = model.forward(&x_train);
    let second = model.forward(&x_train);
    assert_eq!(first.rows(), second.rows());
    assert_eq!(first.cols(), second.cols());
    for i in 0..first.rows() {
        for j in 0..first.cols() {
            assert_eq!(first.entry(i, j), second.entry(i, j));
        }
    }
}

#[test]
fn test_sequential_forward_matches_layer_composition() {
    let mut model = fixed_xor_model();
    let (x_train, _y_train) = get_xor_data();
    let model_out = model.forward(&x_train);

    let mut hidden = Dense::new_with_weights(
        2,
        3,
        Activation::Tanh,
        mat(&[&[2.0, 2.0, 0.1], &[2.0, 2.0, -0.1]]),
        mat(&[&[-1.0, -3.0, 0.0]]),
    );
    let mut out = Dense::new_with_weights(
        3,
        1,
        Activation::Sigmoid,
        mat(&[&[2.5], &[-2.5], &[0.0]]),
        mat(&[&[-2.0]]),
    );
    let h = hidden.forward(&x_train);
    let o = out.forward(&h);
    assert_eq!(model_out.rows(), o.rows());
    assert_eq!(model_out.cols(), o.cols());
    for i in 0..o.rows() {
        for j in 0..o.cols() {
            assert_eq!(model_out.entry(i, j), o.entry(i, j));
        }
    }
}

#[test]
fn test_empty_model_forward_returns_input() {
    let mut model = Sequential::new(vec![]);
    let x = mat(&[&[0.5, -1.5], &[2.0, 0.0]]);
    let out = model.forward(&x);
    assert_eq!(out.rows(), 2);
    assert_eq!(out.cols(), 2);
    for i in 0..2 {
        for j in 0..2 {
            assert_eq!(out.entry(i, j), x.entry(i, j));
        }
    }
}

#[test]
fn test_dense_forward_on_empty_batch() {
    let mut layer = Dense::new_with_weights(
        2,
        2,
        Activation::Sigmoid,
        mat(&[&[0.1, 0.2], &[0.3, 0.4]]),
        mat(&[&[0.5, 0.6]]),
    );
    let inputs = Matrix::new(Vec::new(), 2).unwrap();
    let outputs = layer.forward(&inputs);
    assert_eq!(outputs.rows(), 0);
    assert_eq!(outputs.cols(), 2);
}

#[test]
fn test_run_reports_every_epoch_and_four_predictions() {
    let (losses, predictions) = run();
    assert_eq!(losses.len(), EPOCH_COUNT);
    assert_eq!(predictions.rows(), 4);
    assert_eq!(predictions.cols(), 1);
    for i in 0..4 {
        let p = f64::from_bits(predictions.entry(i, 0));
        assert!(p > 0.0 && p < 1.0);
    }
}
