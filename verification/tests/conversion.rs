use ieaoo::convert::amp_from_i16;
use ieaoo::convert::clamp_amp;
use ieaoo::convert::convert_i16;
use ieaoo::convert::convert_i32;
use ieaoo::convert::AMP_ONE;

#[test]
fn convert_i16_peaks_and_zero() {
    assert_eq!(convert_i16(AMP_ONE), 32767);
    assert_eq!(convert_i16(-AMP_ONE), -32767);
    assert_eq!(convert_i16(0), 0);
}

#[test]
fn convert_i16_half_amplitude_rounds() {
    // 0.5 * 32767 = 16383.5, rounded away from zero.
    assert_eq!(convert_i16(32768), 16384);
    assert_eq!(convert_i16(-32768), -16384);
}

#[test]
fn convert_i16_round_trip_within_one_step() {
    // |convert(a) / 32767 - a| must stay within one quantization step for
    // every amplitude in [-1, 1]; sweep the fixed-point range.
    let mut n: i64 = -AMP_ONE;
    while n <= AMP_ONE {
        let r = convert_i16(n) as f64;
        let a = n as f64 / AMP_ONE as f64;
        assert!((r / 32767.0 - a).abs() <= 1.0 / 32767.0);
        n += 97;
    }
    let r = convert_i16(AMP_ONE) as f64;
    assert!((r / 32767.0 - 1.0).abs() <= 1.0 / 32767.0);
}

#[test]
fn convert_i32_peaks() {
    assert_eq!(convert_i32(AMP_ONE), 2147483647);
    assert_eq!(convert_i32(-AMP_ONE), -2147483647);
    assert_eq!(convert_i32(0), 0);
}

#[test]
fn clamp_amp_clamps_out_of_range() {
    assert_eq!(clamp_amp(AMP_ONE + 5000), AMP_ONE);
    assert_eq!(clamp_amp(-AMP_ONE - 5000), -AMP_ONE);
    assert_eq!(clamp_amp(123), 123);
    assert_eq!(clamp_amp(-AMP_ONE), -AMP_ONE);
}

#[test]
fn amp_from_i16_scales_by_two() {
    assert_eq!(amp_from_i16(0), 0);
    assert_eq!(amp_from_i16(16384), 32768);
    assert_eq!(amp_from_i16(-32768), -AMP_ONE);
    assert_eq!(amp_from_i16(32767), 65534);
}
