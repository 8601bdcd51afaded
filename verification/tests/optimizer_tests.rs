use rust_ml_framework::activations::Activation;
use rust_ml_framework::layers::Dense;
use rust_ml_framework::matrix::Matrix;
use rust_ml_framework::models::Sequential;
use rust_ml_framework::optimizers::SGD;

fn mat(rows: &[&[f64]]) -> Matrix {
    let data: Vec<Vec<u64>> = rows
        .iter()
        .map(|r| r.iter().map(|v| v.to_bits()).collect())
        .collect();
    Matrix::new(data, rows[0].len()).unwrap()
}

fn approx_eq(m: &Matrix, expected: &[&[f64]], tol: f64) -> bool {
    if m.rows() != expected.len() || m.cols() != expected[0].len() {
        return false;
    }
    for i in 0..expected.len() {
        for j in 0..expected[0].len() {
            let v = f64::from_bits(m.entry(i, j));
            if (v - expected[i][j]).abs() >= tol {
                return false;
            }
        }
    }
    true
}

#[test]
fn test_sgd_update() {
    let mut model = Sequential::new(vec![Dense::new_with_weights(
        2,
        2,
        Activation::Sigmoid,
        mat(&[&[0.1, 0.2], &[0.3, 0.4]]),
        mat(&[&[0.5, 0.6]]),
    )]);
    let optimizer = SGD::new((0.1f64).to_bits());

    model.layers[0].set_dweights(mat(&[&[0.1, 0.2], &[0.3, 0.4]]));
    model.layers[0].set_dbiases(mat(&[&[0.5, 0.6]]));

    optimizer.update(&mut model);

    assert!(approx_eq(
        model.layers[0].get_weights(),
        &[&[0.09, 0.18], &[0.27, 0.36]],
        1e-8
    ));
    assert!(approx_eq(
        model.layers[0].get_biases(),
        &[&[0.45, 0.54]],
        1e-8
    ));
}

#[test]
fn test_sgd_update_with_zero_gradients_keeps_parameters() {
    let mut model = Sequential::new(vec![Dense::new_with_weights(
        2,
        2,
        Activation::Tanh,
        mat(&[&[0.1, 0.2], &[0.3, 0.4]]),
        mat(&[&[0.5, 0.6]]),
    )]);
    let optimizer = SGD::new((0.1f64).to_bits());
    optimizer.update(&mut model);
    assert!(approx_eq(
        model.layers[0].get_weights(),
        &[&[0.1, 0.2], &[0.3, 0.4]],
        1e-12
    ));
    assert!(approx_eq(
        model.layers[0].get_biases(),
        &[&[0.5, 0.6]],
        1e-12
    ));
}
