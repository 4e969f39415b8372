use number_ai::matrix::Matrix;
use number_ai::network::{batch_bounds, Network};
use number_ai::TrainError;

fn sigmoid(x: f32) -> f32 {
    1.0 / (1.0 + (-x).exp())
}

fn sig_prime(x: f32) -> f32 {
    sigmoid(x) * (1.0 - sigmoid(x))
}

fn m(rows: Vec<Vec<f32>>) -> Matrix<f32> {
    Matrix::from_rows(rows).unwrap()
}

fn constant(rows: usize, cols: usize, v: f32) -> Matrix<f32> {
    let mut out = Vec::new();
    for _ in 0..rows {
        out.push(vec![v; cols]);
    }
    m(out)
}

/// A [2, 3, 2] network with every weight 0.5 and every bias 0.0.
fn fixed_net() -> Network<f32> {
    Network {
        nlayer: 3,
        layer_sizes: vec![2, 3, 2],
        weights: vec![constant(3, 2, 0.5), constant(2, 3, 0.5)],
        bias: vec![constant(3, 1, 0.0), constant(2, 1, 0.0)],
    }
}

fn column(values: &[f32]) -> Matrix<f32> {
    let mut rows = Vec::new();
    for v in values {
        rows.push(vec![*v]);
    }
    m(rows)
}

/// Half the summed squared error between the network's output and the
/// one-hot target for `label`.
fn cost(net: &Network<f32>, input: &Matrix<f32>, label: u8) -> f32 {
    let out = net.feedforward(input.duplicate(), sigmoid);
    let mut total = 0.0f32;
    for i in 0..out.nrows() {
        let y = if i == label as usize { 1.0 } else { 0.0 };
        let d = out.get(i, 0) - y;
        total += 0.5 * d * d;
    }
    total
}

fn argmax(out: &Matrix<f32>) -> usize {
    let mut best = 0;
    for i in 1..out.nrows() {
        if out.get(i, 0) > out.get(best, 0) {
            best = i;
        }
    }
    best
}

#[test]
fn init_builds_consistent_shapes() {
    let net = Network::<f32>::init(vec![784, 30, 10]).unwrap();
    assert_eq!(net.layer_sizes, vec![784, 30, 10]);
    assert_eq!(net.weights.len(), 2);
    assert_eq!(net.bias.len(), 2);
    for i in 0..2 {
        assert_eq!(net.weights[i].nrows(), net.layer_sizes[i + 1]);
        assert_eq!(net.weights[i].ncols(), net.layer_sizes[i]);
        assert_eq!(net.bias[i].nrows(), net.layer_sizes[i + 1]);
        assert_eq!(net.bias[i].ncols(), 1);
    }
}

#[test]
fn init_rejects_fewer_than_two_layers() {
    let r = Network::<f32>::init(vec![5]);
    assert_eq!(r.unwrap_err(), TrainError::InvalidConfiguration);
    let r = Network::<f32>::init(vec![]);
    assert_eq!(r.unwrap_err(), TrainError::InvalidConfiguration);
}

#[test]
fn feedforward_is_deterministic() {
    let net = Network::<f32>::init(vec![3, 4, 2]).unwrap();
    let input = column(&[0.3, -1.2, 2.5]);
    let a = net.feedforward(input.duplicate(), sigmoid);
    let b = net.feedforward(input.duplicate(), sigmoid);
    assert_eq!(a.nrows(), b.nrows());
    for i in 0..a.nrows() {
        assert_eq!(a.get(i, 0).to_bits(), b.get(i, 0).to_bits());
    }
}

#[test]
fn feedforward_matches_hand_computation() {
    let net = fixed_net();
    let out = net.feedforward(column(&[1.0, 0.0]), sigmoid);
    assert_eq!(out.nrows(), 2);
    assert_eq!(out.ncols(), 1);
    // Hidden layer: each unit sees 0.5 * 1.0 + 0.5 * 0.0 = 0.5.
    let h = sigmoid(0.5);
    // Output layer: each unit sees 0.5 * (h + h + h) = 1.5 * h.
    let expected = sigmoid(1.5 * h);
    assert!((out.get(0, 0) - expected).abs() < 1e-6);
    assert!((out.get(1, 0) - expected).abs() < 1e-6);
}

#[test]
fn backprop_produces_gradients_shaped_like_the_network() {
    let net = fixed_net();
    let input = column(&[1.0, 0.0]);
    let (dw, db) = net.backprop(&input, 0, sigmoid, sig_prime, 0.0, 1.0);
    assert_eq!(dw.len(), 2);
    assert_eq!(db.len(), 2);
    assert_eq!((dw[0].nrows(), dw[0].ncols()), (3, 2));
    assert_eq!((dw[1].nrows(), dw[1].ncols()), (2, 3));
    assert_eq!((db[0].nrows(), db[0].ncols()), (3, 1));
    assert_eq!((db[1].nrows(), db[1].ncols()), (2, 1));
}

#[test]
fn backprop_handles_a_two_layer_network() {
    let net = Network {
        nlayer: 2,
        layer_sizes: vec![2, 2],
        weights: vec![constant(2, 2, 0.5)],
        bias: vec![constant(2, 1, 0.0)],
    };
    let input = column(&[1.0, 0.0]);
    let (dw, db) = net.backprop(&input, 1, sigmoid, sig_prime, 0.0, 1.0);
    assert_eq!(dw.len(), 1);
    assert_eq!(db.len(), 1);
    assert_eq!((dw[0].nrows(), dw[0].ncols()), (2, 2));
    assert_eq!((db[0].nrows(), db[0].ncols()), (2, 1));
}

#[test]
fn update_batch_lowers_the_cost_of_its_example() {
    let mut net = fixed_net();
    let input = column(&[1.0, 0.0]);
    let before = cost(&net, &input, 0);
    let batch = vec![(input.duplicate(), 0u8)];
    net.update_batch(&batch[..], 0.5, sigmoid, sig_prime, 0.0, 1.0).unwrap();
    let after = cost(&net, &input, 0);
    assert!(after <= before + 1e-7);
}

#[test]
fn update_batch_rejects_an_empty_batch() {
    let mut net = fixed_net();
    let batch: Vec<(Matrix<f32>, u8)> = vec![];
    let r = net.update_batch(&batch[..], 0.5, sigmoid, sig_prime, 0.0, 1.0);
    assert_eq!(r.unwrap_err(), TrainError::EmptyBatch);
}

#[test]
fn batch_bounds_partitions_with_a_short_final_batch() {
    let b = batch_bounds(10, 3);
    assert_eq!(b, vec![(0, 3), (3, 6), (6, 9), (9, 10)]);
}

#[test]
fn batch_bounds_partitions_evenly() {
    let b = batch_bounds(9, 3);
    assert_eq!(b, vec![(0, 3), (3, 6), (6, 9)]);
    let b = batch_bounds(5, 5);
    assert_eq!(b, vec![(0, 5)]);
}

#[test]
fn batch_bounds_handles_small_datasets() {
    assert_eq!(batch_bounds(0, 4), vec![]);
    assert_eq!(batch_bounds(3, 5), vec![(0, 3)]);
    assert_eq!(batch_bounds(1, 1), vec![(0, 1)]);
}

#[test]
fn sgd_learns_a_separable_dataset_and_keeps_the_samples() {
    // Two tight clusters, linearly separable: class 0 sits near (0.1, 0.9),
    // class 1 near (0.9, 0.1).
    let mut data: Vec<(Matrix<f32>, u8)> = Vec::new();
    for i in 0..50 {
        let dx = (i % 10) as f32 * 0.01;
        let dy = (i / 10) as f32 * 0.01;
        data.push((column(&[0.05 + dx, 0.85 + dy]), 0u8));
        data.push((column(&[0.85 + dx, 0.05 + dy]), 1u8));
    }

    let fingerprint = |d: &Vec<(Matrix<f32>, u8)>| {
        let mut v: Vec<(u32, u32, u8)> = d
            .iter()
            .map(|(x, l)| (x.get(0, 0).to_bits(), x.get(1, 0).to_bits(), *l))
            .collect();
        v.sort();
        v
    };
    let before_samples = fingerprint(&data);

    let avg_cost = |net: &Network<f32>, d: &Vec<(Matrix<f32>, u8)>| {
        let mut total = 0.0f32;
        for (x, l) in d.iter() {
            total += cost(net, x, *l);
        }
        total / d.len() as f32
    };
    let accuracy = |net: &Network<f32>, d: &Vec<(Matrix<f32>, u8)>| {
        let mut correct = 0;
        for (x, l) in d.iter() {
            let out = net.feedforward(x.duplicate(), sigmoid);
            if argmax(&out) == *l as usize {
                correct += 1;
            }
        }
        correct
    };

    // The initial weights are drawn at random, so the occasional bad draw
    // gets one fresh start.
    let mut converged = false;
    let mut best_correct = 0;
    for _ in 0..2 {
        let mut net = Network::<f32>::init(vec![2, 4, 2]).unwrap();
        let before_cost = avg_cost(&net, &data);

        net.sgd(&mut data, 120, 10, 3.0, sigmoid, sig_prime, 0.0, 1.0).unwrap();

        let after_cost = avg_cost(&net, &data);
        best_correct = accuracy(&net, &data);
        if after_cost < before_cost && best_correct >= 90 {
            converged = true;
            break;
        }
    }
    assert!(converged, "training left {} of 100 correct", best_correct);

    // The dataset was reordered, never altered.
    assert_eq!(fingerprint(&data), before_samples);
}

#[test]
fn sgd_with_zero_epochs_changes_nothing() {
    let mut net = fixed_net();
    let mut data = vec![(column(&[1.0, 0.0]), 0u8)];
    net.sgd(&mut data, 0, 3, 1.0, sigmoid, sig_prime, 0.0, 1.0).unwrap();
    for k in 0..2 {
        for i in 0..net.weights[k].nrows() {
            for j in 0..net.weights[k].ncols() {
                assert_eq!(net.weights[k].get(i, j), 0.5);
            }
        }
    }
}
