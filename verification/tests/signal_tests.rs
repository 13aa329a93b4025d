use signal::error::SignalError;
use signal::generator::{write_buffer, Impulse};
use signal::signal::Signal;

#[test]
fn from_buffer_keeps_samples() {
    let s = Signal::from_buffer(vec![1i64, 2, 3]);
    assert_eq!(s.as_slice(), &[1, 2, 3]);
    assert_eq!(s.len(), 3);
}

#[test]
fn from_buffer_accepts_empty() {
    let s: Signal<i64> = Signal::from_buffer(Vec::new());
    assert_eq!(s.len(), 0);
    assert!(s.as_slice().is_empty());
}

#[test]
fn scale_by_scalar() {
    let a = Signal::from_buffer(vec![1i64, 2, 3]);
    let b = a.mull_by_scalar(2);
    assert_eq!(b.as_slice(), &[2, 4, 6]);
    assert_eq!(a.as_slice(), &[1, 2, 3]);
}

#[test]
fn scale_wraps_on_overflow() {
    let a = Signal::from_buffer(vec![i64::MAX]);
    let b = a.mull_by_scalar(2);
    assert_eq!(b.as_slice(), &[-2]);
}

#[test]
fn scale_twice_is_scale_by_product() {
    let x = vec![1i64, -2, 3, 1000];
    let a: i64 = 7;
    let b: i64 = -11;
    let twice = Signal::from_buffer(x.clone()).mull_by_scalar(a).mull_by_scalar(b);
    let once = Signal::from_buffer(x).mull_by_scalar(a.wrapping_mul(b));
    assert_eq!(twice.as_slice(), once.as_slice());
}

#[test]
fn scale_twice_is_scale_by_product_with_wraparound() {
    let x = vec![i64::MAX, i64::MIN, 12345];
    let a: i64 = i64::MAX;
    let b: i64 = 3;
    let twice = Signal::from_buffer(x.clone()).mull_by_scalar(a).mull_by_scalar(b);
    let once = Signal::from_buffer(x).mull_by_scalar(a.wrapping_mul(b));
    assert_eq!(twice.as_slice(), once.as_slice());
}

#[test]
fn add_zero_extends() {
    let a = Signal::from_buffer(vec![1i64, 2, 3]);
    let b = Signal::from_buffer(vec![4i64, 5]);
    let c = a.add(b);
    assert_eq!(c.as_slice(), &[5, 7, 3]);
}

#[test]
fn add_is_commutative() {
    let c = Signal::from_buffer(vec![1i64, 2, 3]).add(Signal::from_buffer(vec![4i64, 5]));
    let d = Signal::from_buffer(vec![4i64, 5]).add(Signal::from_buffer(vec![1i64, 2, 3]));
    assert_eq!(c.as_slice(), d.as_slice());
}

#[test]
fn add_with_empty_returns_other_operand() {
    let a = Signal::from_buffer(vec![1i64, 2, 3]);
    let b: Signal<i64> = Signal::from_buffer(Vec::new());
    let c = a.add(b);
    assert_eq!(c.as_slice(), &[1, 2, 3]);
}

#[test]
fn delay_preserves_length_and_zero_pads_head() {
    let a = Signal::from_buffer(vec![1i64, 2, 3, 4, 5]);
    let b = a.add_delay(2);
    assert_eq!(b.as_slice(), &[0, 0, 1, 2, 3]);
}

#[test]
fn delay_by_zero_is_identity() {
    let a = Signal::from_buffer(vec![1i64, 2, 3]);
    let b = a.add_delay(0);
    assert_eq!(b.as_slice(), &[1, 2, 3]);
}

#[test]
fn delay_by_full_length_is_all_zeros() {
    let a = Signal::from_buffer(vec![1i64, 2, 3]);
    let b = a.add_delay(3);
    assert_eq!(b.as_slice(), &[0, 0, 0]);
}

#[test]
fn try_delay_within_bounds() {
    let a = Signal::from_buffer(vec![1i64, 2, 3, 4, 5]);
    let b = a.try_add_delay(2).unwrap();
    assert_eq!(b.as_slice(), &[0, 0, 1, 2, 3]);
}

#[test]
fn try_delay_beyond_length_is_bounds_error() {
    let a = Signal::from_buffer(vec![1i64, 2, 3]);
    let e = a.try_add_delay(4).unwrap_err();
    assert_eq!(e, SignalError::BoundsError);
}

#[test]
fn convolve_matches_direct_sum() {
    let a = Signal::from_buffer(vec![1i64, 2, 3]);
    let b = Signal::from_buffer(vec![4i64, 5]);
    let c = a.convolve(b);
    assert_eq!(c.as_slice(), &[4, 13, 22, 15]);
    assert_eq!(c.len(), 3 + 2 - 1);
}

#[test]
fn convolve_with_unit_signal_is_identity() {
    let a = Signal::from_buffer(vec![9i64, -4, 0, 17]);
    let unit = Signal::from_buffer(vec![1i64]);
    let c = a.convolve(unit);
    assert_eq!(c.as_slice(), &[9, -4, 0, 17]);
}

#[test]
fn convolve_with_empty_operand_is_empty() {
    let a = Signal::from_buffer(vec![1i64, 2, 3]);
    let b: Signal<i64> = Signal::from_buffer(Vec::new());
    let c = a.convolve(b);
    assert_eq!(c.len(), 0);
    let d: Signal<i64> = Signal::from_buffer(Vec::new());
    let e = d.convolve(Signal::from_buffer(vec![1i64, 2]));
    assert_eq!(e.len(), 0);
}

#[test]
fn convolve_with_delayed_impulse_shifts() {
    let carrier = Signal::from_buffer(vec![1i64, 2, 3]);
    let response = Signal::from_buffer(vec![0i64, 0, 1]);
    let c = carrier.convolve(response);
    assert_eq!(c.as_slice(), &[0, 0, 1, 2, 3]);
}

#[test]
fn impulse_response_shifting_end_to_end() {
    let mut g = Impulse::new();
    let mut buffer: Vec<i64> = vec![0; 3];
    write_buffer(&mut g, &mut buffer);
    let response = Signal::from_buffer(buffer).add_delay(2);
    assert_eq!(response.as_slice(), &[0, 0, 1]);
    let carrier = Signal::from_buffer(vec![5i64, -6, 7]);
    let shifted = carrier.convolve(response);
    assert_eq!(shifted.as_slice(), &[0, 0, 5, -6, 7]);
}
