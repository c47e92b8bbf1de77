use gyroflow_ffi::double::Double;
use gyroflow_ffi::fovs::fov_range;

fn range(fovs: &[f64]) -> (f64, f64) {
    let fovs: Vec<Double> = fovs.iter().map(|x| Double::from_bits(x.to_bits())).collect();
    let range = fov_range(&fovs);
    (f64::from_bits(range.lowest.bits), f64::from_bits(range.highest.bits))
}

#[test]
fn lowest_and_highest() {
    assert_eq!(range(&[0.9, 0.72, 1.47, 0.8]), (0.72, 1.47));
    assert_eq!(range(&[1.0]), (1.0, 1.0));
    assert_eq!(range(&[-2.0, -3.0]), (-3.0, -2.0));
}

#[test]
fn no_frames_leave_the_bounds() {
    assert_eq!(range(&[]), (f64::MAX, f64::MIN));
    assert_eq!(range(&[f64::NAN]), (f64::MAX, f64::MIN));
}

#[test]
fn nan_is_left_out_and_infinity_is_not() {
    assert_eq!(range(&[0.5, f64::NAN, 0.25]), (0.25, 0.5));
    assert_eq!(range(&[f64::INFINITY]), (f64::MAX, f64::INFINITY));
}
