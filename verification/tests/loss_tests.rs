use rust_ml_framework::losses::MeanSquaredError;
use rust_ml_framework::matrix::Matrix;

fn mat(rows: &[&[f64]]) -> Matrix {
    let data: Vec<Vec<u64>> = rows
        .iter()
        .map(|r| r.iter().map(|v| v.to_bits()).collect())
        .collect();
    Matrix::new(data, rows[0].len()).unwrap()
}

fn approx_eq(m: &Matrix, expected: &[&[f64]], tol: f64) -> bool {
    if m.rows() != expected.len() || m.cols() != expected[0].len() {
        return false;
    }
    for i in 0..expected.len() {
        for j in 0..expected[0].len() {
            let v = f64::from_bits(m.entry(i, j));
            if (v - expected[i][j]).abs() >= tol {
                return false;
            }
        }
    }
    true
}

#[test]
fn test_mean_squared_error_forward() {
    let loss_fn = MeanSquaredError;
    let y_true = mat(&[&[0.0, 1.0], &[1.0, 0.0]]);
    let y_pred = mat(&[&[0.1, 0.9], &[0.8, 0.2]]);
    let loss = f64::from_bits(loss_fn.forward(&y_true, &y_pred));
    assert!((loss - 0.025).abs() < 1e-8);
}

#[test]
fn test_mean_squared_error_backward() {
    let loss_fn = MeanSquaredError;
    let y_true = mat(&[&[0.0, 1.0], &[1.0, 0.0]]);
    let y_pred = mat(&[&[0.1, 0.9], &[0.8, 0.2]]);
    let grad = loss_fn.backward(&y_true, &y_pred);
    assert!(approx_eq(&grad, &[&[0.05, -0.05], &[-0.1, 0.1]], 1e-8));
}

#[test]
fn test_mean_squared_error_zero_on_exact_prediction() {
    let loss_fn = MeanSquaredError;
    let y_true = mat(&[&[0.25, -1.5], &[3.0, 0.0]]);
    let y_pred = mat(&[&[0.25, -1.5], &[3.0, 0.0]]);
    let loss = f64::from_bits(loss_fn.forward(&y_true, &y_pred));
    assert!(loss == 0.0);
    let grad = loss_fn.backward(&y_true, &y_pred);
    assert!(approx_eq(&grad, &[&[0.0, 0.0], &[0.0, 0.0]], 1e-12));
}
