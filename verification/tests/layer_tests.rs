use rust_ml_framework::activations::Activation;
use rust_ml_framework::layers::Dense;
use rust_ml_framework::matrix::Matrix;

fn mat(rows: &[&[f64]]) -> Matrix {
    let data: Vec<Vec<u64>> = rows
        .iter()
        .map(|r| r.iter().map(|v| v.to_bits()).collect())
        .collect();
    Matrix::new(data, rows[0].len()).unwrap()
}

fn approx_eq(m: &Matrix, expected: &[&[f64]], tol: f64) -> bool {
    if m.rows() != expected.len() || m.cols() != expected[0].len() {
        return false;
    }
    for i in 0..expected.len() {
        for j in 0..expected[0].len() {
            let v = f64::from_bits(m.entry(i, j));
            if (v - expected[i][j]).abs() >= tol {
                return false;
            }
        }
    }
    true
}

#[test]
fn test_dense_forward() {
    let weights = mat(&[&[0.1, 0.2], &[0.3, 0.4]]);
    let biases = mat(&[&[0.5, 0.6]]);
    let mut layer = Dense::new_with_weights(2, 2, Activation::Sigmoid, weights, biases);
    let inputs = mat(&[&[1.0, 2.0]]);
    let outputs = layer.forward(&inputs);
    assert!(approx_eq(&outputs, &[&[0.76852478, 0.83201839]], 1e-8));
}

#[test]
fn test_dense_backward() {
    let weights = mat(&[&[0.1, 0.2], &[0.3, 0.4]]);
    let biases = mat(&[&[0.5, 0.6]]);
    let mut layer = Dense::new_with_weights(2, 2, Activation::Sigmoid, weights, biases);
    let inputs = mat(&[&[1.0, 2.0]]);
    layer.forward(&inputs);

    let output_gradient = mat(&[&[1.0, 1.0]]);
    let input_gradient = layer.backward(&output_gradient);

    assert!(approx_eq(
        layer.get_dweights(),
        &[&[0.17789444, 0.13976379], &[0.35578888, 0.27952758]],
        1e-8
    ));
    assert!(approx_eq(
        layer.get_dbiases(),
        &[&[0.17789444, 0.13976379]],
        1e-8
    ));
    assert!(approx_eq(&input_gradient, &[&[0.045742202, 0.109273848]], 1e-8));
}

#[test]
fn test_dense_new_shapes() {
    let layer = Dense::new(4, 3, Activation::ReLU);
    assert_eq!(layer.get_weights().rows(), 4);
    assert_eq!(layer.get_weights().cols(), 3);
    assert_eq!(layer.get_biases().rows(), 1);
    assert_eq!(layer.get_biases().cols(), 3);
    for i in 0..4 {
        for j in 0..3 {
            let w = f64::from_bits(layer.get_weights().entry(i, j));
            assert!(w >= -1.0 && w < 1.0);
        }
    }
    for j in 0..3 {
        assert_eq!(f64::from_bits(layer.get_biases().entry(0, j)), 0.0);
        assert_eq!(f64::from_bits(layer.get_dbiases().entry(0, j)), 0.0);
    }
}

#[test]
fn test_matrix_new_ragged_rows_refused() {
    let rows = vec![vec![0u64, 0u64], vec![0u64]];
    assert!(Matrix::new(rows, 2).is_none());
}
