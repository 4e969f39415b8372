use number_ai::mat_func::{add_vmat, cost_prime, hadamard, mult_v_mat_by_n, sig_prime_mat};
use number_ai::matrix::{map_entries, Matrix};
use number_ai::TrainError;

fn m(rows: Vec<Vec<f32>>) -> Matrix<f32> {
    Matrix::from_rows(rows).unwrap()
}

#[test]
fn from_rows_accepts_rectangles() {
    let a = m(vec![vec![1.0, 2.0, 3.0], vec![4.0, 5.0, 6.0]]);
    assert_eq!(a.nrows(), 2);
    assert_eq!(a.ncols(), 3);
    assert_eq!(a.get(0, 2), 3.0);
    assert_eq!(a.get(1, 0), 4.0);
}

#[test]
fn from_rows_rejects_ragged() {
    let r = Matrix::from_rows(vec![vec![1.0f32, 2.0], vec![3.0]]);
    assert_eq!(r.unwrap_err(), TrainError::ShapeMismatch);
}

#[test]
fn from_rows_rejects_empty() {
    let r = Matrix::<f32>::from_rows(vec![]);
    assert_eq!(r.unwrap_err(), TrainError::ShapeMismatch);
}

#[test]
fn transpose_rearranges_entries() {
    let a = m(vec![vec![1.0, 2.0, 3.0], vec![4.0, 5.0, 6.0]]);
    let t = a.transpose();
    assert_eq!(t.nrows(), 3);
    assert_eq!(t.ncols(), 2);
    for i in 0..2 {
        for j in 0..3 {
            assert_eq!(t.get(j, i), a.get(i, j));
        }
    }
}

#[test]
fn duplicate_copies_entries() {
    let a = m(vec![vec![1.5, -2.0], vec![0.0, 7.25]]);
    let d = a.duplicate();
    assert_eq!(d.nrows(), 2);
    assert_eq!(d.ncols(), 2);
    for i in 0..2 {
        for j in 0..2 {
            assert_eq!(d.get(i, j).to_bits(), a.get(i, j).to_bits());
        }
    }
}

#[test]
fn zeros_fills_with_zero() {
    let z = Matrix::<f32>::zeros(3, 2);
    assert_eq!(z.nrows(), 3);
    assert_eq!(z.ncols(), 2);
    for i in 0..3 {
        for j in 0..2 {
            assert_eq!(z.get(i, j), 0.0);
        }
    }
}

#[test]
fn mat_mul_computes_the_product() {
    let a = m(vec![vec![1.0, 2.0], vec![3.0, 4.0]]);
    let b = m(vec![vec![5.0], vec![6.0]]);
    let p = a.mat_mul(&b);
    assert_eq!(p.nrows(), 2);
    assert_eq!(p.ncols(), 1);
    assert_eq!(p.get(0, 0), 17.0);
    assert_eq!(p.get(1, 0), 39.0);
}

#[test]
fn mat_add_computes_the_sum() {
    let a = m(vec![vec![1.0, 2.0], vec![3.0, 4.0]]);
    let b = m(vec![vec![10.0, 20.0], vec![30.0, 40.0]]);
    let s = a.mat_add(&b);
    assert_eq!(s.get(0, 0), 11.0);
    assert_eq!(s.get(0, 1), 22.0);
    assert_eq!(s.get(1, 0), 33.0);
    assert_eq!(s.get(1, 1), 44.0);
}

#[test]
fn random_has_the_requested_shape() {
    let r = Matrix::<f32>::random(4, 3);
    assert_eq!(r.nrows(), 4);
    assert_eq!(r.ncols(), 3);
}

#[test]
fn map_entries_applies_the_function() {
    let a = m(vec![vec![1.0, 2.0], vec![3.0, 4.0]]);
    let shifted = map_entries(&a, |x: f32| x + 0.5);
    assert_eq!(shifted.get(0, 0), 1.5);
    assert_eq!(shifted.get(1, 1), 4.5);
}

#[test]
fn sigmoid_mat_applies_in_place() {
    let mut a = m(vec![vec![0.0], vec![1.0]]);
    a.sigmoid_mat(|x: f32| 1.0 / (1.0 + (-x).exp()));
    assert!((a.get(0, 0) - 0.5).abs() < 1e-6);
    assert!((a.get(1, 0) - 0.731_058_6).abs() < 1e-6);
}

#[test]
fn mult_mat_by_n_scales_every_entry() {
    let mut a = m(vec![vec![1.0, -2.0], vec![3.0, 4.0]]);
    a.mult_mat_by_n(2.5);
    assert_eq!(a.get(0, 0), 2.5);
    assert_eq!(a.get(0, 1), -5.0);
    assert_eq!(a.get(1, 0), 7.5);
    assert_eq!(a.get(1, 1), 10.0);
}

#[test]
fn hadamard_multiplies_entrywise() {
    let a = m(vec![vec![1.0, 2.0], vec![3.0, 4.0]]);
    let b = m(vec![vec![5.0, 6.0], vec![7.0, 8.0]]);
    let h = hadamard(&a, &b);
    assert_eq!(h.get(0, 0), 5.0);
    assert_eq!(h.get(0, 1), 12.0);
    assert_eq!(h.get(1, 0), 21.0);
    assert_eq!(h.get(1, 1), 32.0);
}

#[test]
fn cost_prime_subtracts_target() {
    let out = m(vec![vec![0.9], vec![0.2]]);
    let target = m(vec![vec![1.0], vec![0.0]]);
    let d = cost_prime(&out, &target);
    assert!((d.get(0, 0) - (-0.1)).abs() < 1e-7);
    assert!((d.get(1, 0) - 0.2).abs() < 1e-7);
}

#[test]
fn sig_prime_mat_applies_the_derivative() {
    let z = m(vec![vec![0.0], vec![2.0]]);
    let sig = |x: f32| 1.0 / (1.0 + (-x).exp());
    let d = sig_prime_mat(&z, move |x: f32| sig(x) * (1.0 - sig(x)));
    assert!((d.get(0, 0) - 0.25).abs() < 1e-6);
    let s2 = 1.0 / (1.0 + (-2.0f32).exp());
    assert!((d.get(1, 0) - s2 * (1.0 - s2)).abs() < 1e-6);
}

#[test]
fn mult_v_mat_by_n_scales_each_matrix() {
    let mut v = vec![m(vec![vec![1.0]]), m(vec![vec![2.0, 3.0]])];
    mult_v_mat_by_n(&mut v, -2.0);
    assert_eq!(v[0].get(0, 0), -2.0);
    assert_eq!(v[1].get(0, 0), -4.0);
    assert_eq!(v[1].get(0, 1), -6.0);
}

#[test]
fn add_vmat_adds_by_position() {
    let mut v = vec![m(vec![vec![1.0]]), m(vec![vec![2.0, 3.0]])];
    let d = vec![m(vec![vec![10.0]]), m(vec![vec![20.0, 30.0]])];
    add_vmat(&mut v, &d);
    assert_eq!(v[0].get(0, 0), 11.0);
    assert_eq!(v[1].get(0, 0), 22.0);
    assert_eq!(v[1].get(0, 1), 33.0);
}
