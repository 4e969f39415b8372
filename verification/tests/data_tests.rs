use number_ai::data::{label_to_target, one_hot};
use number_ai::TrainError;

#[test]
fn label_to_target_places_one_at_the_label() {
    for k in 0u8..10 {
        let t = label_to_target::<f32>(k, 0.0, 1.0).unwrap();
        assert_eq!(t.nrows(), 10);
        assert_eq!(t.ncols(), 1);
        for i in 0..10 {
            if i == k as usize {
                assert_eq!(t.get(i, 0), 1.0);
            } else {
                assert_eq!(t.get(i, 0), 0.0);
            }
        }
    }
}

#[test]
fn label_to_target_rejects_out_of_range_labels() {
    let r = label_to_target::<f32>(10, 0.0, 1.0);
    assert_eq!(r.unwrap_err(), TrainError::InvalidConfiguration);
    let r = label_to_target::<f32>(255, 0.0, 1.0);
    assert_eq!(r.unwrap_err(), TrainError::InvalidConfiguration);
}

#[test]
fn one_hot_matches_the_requested_size() {
    let t = one_hot::<f32>(1, 2, 0.0, 1.0).unwrap();
    assert_eq!(t.nrows(), 2);
    assert_eq!(t.ncols(), 1);
    assert_eq!(t.get(0, 0), 0.0);
    assert_eq!(t.get(1, 0), 1.0);
    let r = one_hot::<f32>(2, 2, 0.0, 1.0);
    assert_eq!(r.unwrap_err(), TrainError::InvalidConfiguration);
}
