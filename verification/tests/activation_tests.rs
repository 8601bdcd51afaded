use rust_ml_framework::activations::{ReLU, Sigmoid, Tanh};
use rust_ml_framework::matrix::Matrix;

fn mat(rows: &[&[f64]]) -> Matrix {
    let data: Vec<Vec<u64>> = rows
        .iter()
        .map(|r| r.iter().map(|v| v.to_bits()).collect())
        .collect();
    Matrix::new(data, rows[0].len()).unwrap()
}

fn approx_eq(m: &Matrix, expected: &[&[f64]], tol: f64) -> bool {
    if m.rows() != expected.len() || m.cols() != expected[0].len() {
        return false;
    }
    for i in 0..expected.len() {
        for j in 0..expected[0].len() {
            let v = f64::from_bits(m.entry(i, j));
            if (v - expected[i][j]).abs() >= tol {
                return false;
            }
        }
    }
    true
}

#[test]
fn test_sigmoid_forward() {
    let sigmoid = Sigmoid;
    let inputs = mat(&[&[0.0, 1.0], &[-1.0, -2.0]]);
    let outputs = sigmoid.forward(&inputs);
    assert!(approx_eq(
        &outputs,
        &[&[0.5, 0.73105858], &[0.26894142, 0.11920292]],
        1e-8
    ));
}

#[test]
fn test_sigmoid_backward() {
    let sigmoid = Sigmoid;
    let forward_output = mat(&[&[0.5, 0.73105858], &[0.26894142, 0.11920292]]);
    let outputs = sigmoid.backward(&forward_output);
    assert!(approx_eq(
        &outputs,
        &[&[0.25, 0.19661193], &[0.19661193, 0.10499359]],
        1e-8
    ));
}

#[test]
fn test_tanh_forward() {
    let tanh = Tanh;
    let inputs = mat(&[&[0.0, 1.0], &[-1.0, -2.0]]);
    let outputs = tanh.forward(&inputs);
    assert!(approx_eq(
        &outputs,
        &[&[0.0, 0.76159416], &[-0.76159416, -0.96402758]],
        1e-8
    ));
}

#[test]
fn test_tanh_backward() {
    let tanh = Tanh;
    let forward_output = mat(&[&[0.0, 0.76159416], &[-0.76159416, -0.96402758]]);
    let outputs = tanh.backward(&forward_output);
    assert!(approx_eq(
        &outputs,
        &[&[1.0, 0.41997434], &[0.41997434, 0.07065082]],
        1e-8
    ));
}

#[test]
fn test_relu_forward() {
    let relu = ReLU;
    let inputs = mat(&[&[0.0, 1.0], &[-1.0, -2.0]]);
    let outputs = relu.forward(&inputs);
    assert!(approx_eq(&outputs, &[&[0.0, 1.0], &[0.0, 0.0]], 1e-8));
}

#[test]
fn test_relu_backward() {
    let relu = ReLU;
    let forward_output = mat(&[&[0.0, 1.0], &[0.0, 0.0]]);
    let outputs = relu.backward(&forward_output);
    assert!(approx_eq(&outputs, &[&[0.0, 1.0], &[0.0, 0.0]], 1e-8));
}

#[test]
fn test_activation_ranges() {
    let inputs = mat(&[&[0.0, 7.5, -7.5], &[15.0, -15.0, 0.001]]);

    let s = Sigmoid.forward(&inputs);
    for i in 0..s.rows() {
        for j in 0..s.cols() {
            let v = f64::from_bits(s.entry(i, j));
            assert!(v > 0.0 && v < 1.0);
        }
    }

    let t = Tanh.forward(&inputs);
    for i in 0..t.rows() {
        for j in 0..t.cols() {
            let v = f64::from_bits(t.entry(i, j));
            assert!(v > -1.0 && v < 1.0);
        }
    }

    let r = ReLU.forward(&inputs);
    for i in 0..r.rows() {
        for j in 0..r.cols() {
            let v = f64::from_bits(r.entry(i, j));
            assert!(v >= 0.0);
        }
    }
}
