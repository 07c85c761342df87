//! Sample amplitude model and wire-format conversion.
//!
//! A caller-facing amplitude in `[-1.0, 1.0]` is carried through the engine
//! as a fixed-point value: an `i64` numerator over the denominator
//! [`AMP_ONE`] (`65536`), so amplitude `a` is stored as `round(a * 65536)`.
//! The unverified shell converts between `f64` and this representation at the
//! crate boundary; everything inside the engine works on the numerators.
//!
//! On delivery a frame is converted to the negotiated hardware encoding:
//! 16-bit signed integer (`round(a * 32767)`), 32-bit signed integer
//! (`round(a * 2147483647)`), or 32-bit float (the amplitude clamped to
//! `[-1, 1]`, handed back as a clamped fixed-point value).  Any other
//! negotiated encoding is unsupported and the engine emits a
//! hardware-silence submission instead of undefined bytes.

use vstd::prelude::*;
use vstd::arithmetic::div_mod::lemma_fundamental_div_mod;
use vstd::arithmetic::div_mod::lemma_mod_bound;

verus! {

/// Amplitude `1.0` in fixed point; valid amplitudes are `[-AMP_ONE, AMP_ONE]`.
pub const AMP_ONE: i64 = 65536;

/// Whether a fixed-point numerator encodes an amplitude in `[-1.0, 1.0]`.
pub open spec fn valid_amp(n: int) -> bool {
    -65536 <= n <= 65536
}

/// Whether every sample of a frame is a valid amplitude.
pub open spec fn valid_frame(f: Seq<i64>) -> bool {
    forall|i: int| 0 <= i < f.len() ==> valid_amp(#[trigger] f[i] as int)
}

/// `round(n * full / 65536)` with ties rounded away from zero; `full` is the
/// positive peak of the target integer encoding.
pub open spec fn rounded_to_peak(n: int, full: int) -> int {
    if n >= 0 {
        (n * full + 32768) / 65536
    } else {
        -(((-n) * full + 32768) / 65536)
    }
}

/// The 16-bit wire value of a fixed-point amplitude: `round(a * 32767)`.
pub open spec fn convert_i16_spec(n: int) -> int {
    rounded_to_peak(n, 32767)
}

/// The 32-bit wire value of a fixed-point amplitude: `round(a * 2147483647)`.
pub open spec fn convert_i32_spec(n: int) -> int {
    rounded_to_peak(n, 2147483647)
}

/// A fixed-point amplitude clamped to `[-AMP_ONE, AMP_ONE]`, as delivered
/// for the 32-bit float encoding.
pub open spec fn clamp_amp_spec(n: int) -> int {
    if n > 65536 {
        65536
    } else if n < -65536 {
        -65536
    } else {
        n
    }
}

/// The rounded scaling `(m * full + 32768) / 65536` of a magnitude
/// `m <= 65536` stays within `[0, full]` and within half a step (`32768`
/// on the `65536 * full` grid) of the exact product.
proof fn lemma_scale_div(m: int, full: int)
    requires
        0 <= m <= 65536,
        0 <= full,
    ensures
        0 <= (m * full + 32768) / 65536 <= full,
        -32767 <= ((m * full + 32768) / 65536) * 65536 - m * full <= 32768,
{
    assert(0 <= m * full && m * full <= 65536 * full) by (nonlinear_arith)
        requires
            0 <= m <= 65536,
            0 <= full,
    ;
    let p = m * full;
    let q = (p + 32768) / 65536;
    let r = (p + 32768) % 65536;
    lemma_fundamental_div_mod(p + 32768, 65536);
    lemma_mod_bound(p + 32768, 65536);
    assert(q * 65536 == p + 32768 - r);
    assert(q >= 0) by (nonlinear_arith)
        requires
            q * 65536 >= -32767,
    ;
    assert(q <= full) by (nonlinear_arith)
        requires
            q * 65536 <= 65536 * full + 32768,
    ;
}

/// Division part of the rounding: `(m * full + 32768) / 65536` for a
/// non-negative magnitude `m <= 65536`, bounded by `full`.
fn scale_magnitude(m: u64, full: u64) -> (q: u64)
    requires
        m <= 65536,
        full <= 2147483647,
    ensures
        q == (m * full + 32768) / 65536,
        q <= full,
{
    proof {
        assert(m * full <= 65536 * 2147483647) by (nonlinear_arith)
            requires
                m <= 65536,
                full <= 2147483647,
        ;
        lemma_scale_div(m as int, full as int);
    }
    let q: u64 = (m * full + 32768) / 65536;
    q
}

/// Convert a fixed-point amplitude to the 16-bit signed integer encoding.
pub fn convert_i16(n: i64) -> (r: i16)
    requires
        valid_amp(n as int),
    ensures
        r as int == convert_i16_spec(n as int),
        -32767 <= r as int <= 32767,
{
    if n >= 0 {
        let q = scale_magnitude(n as u64, 32767);
        q as i16
    } else {
        let q = scale_magnitude((-n) as u64, 32767);
        -(q as i16)
    }
}

/// Convert a fixed-point amplitude to the 32-bit signed integer encoding.
pub fn convert_i32(n: i64) -> (r: i32)
    requires
        valid_amp(n as int),
    ensures
        r as int == convert_i32_spec(n as int),
        -2147483647 <= r as int <= 2147483647,
{
    if n >= 0 {
        let q = scale_magnitude(n as u64, 2147483647);
        q as i32
    } else {
        let q = scale_magnitude((-n) as u64, 2147483647);
        -(q as i32)
    }
}

/// Clamp a fixed-point amplitude to `[-1.0, 1.0]`, for the float encoding.
pub fn clamp_amp(n: i64) -> (r: i64)
    ensures
        r == clamp_amp_spec(n as int),
        valid_amp(r as int),
{
    if n > AMP_ONE {
        AMP_ONE
    } else if n < -AMP_ONE {
        -AMP_ONE
    } else {
        n
    }
}

/// The fixed-point amplitude of a 16-bit source sample, modelling
/// `x / 32768.0`: exactly `2 * x` on the `AMP_ONE` scale.
pub fn amp_from_i16(x: i16) -> (n: i64)
    ensures
        n == 2 * (x as int),
        valid_amp(n as int),
{
    2 * (x as i64)
}

/// Round-trip accuracy of the 16-bit conversion (half a quantization step):
/// for every valid amplitude `n / 65536`, the delivered wire value `r`
/// satisfies `|r * 65536 - n * 32767| <= 32768`, i.e. `r / 32767` differs
/// from the amplitude by at most `1 / 65534`, within one quantization step
/// `1 / 32767` of the 16-bit encoding.
pub proof fn lemma_convert_i16_round_trip(n: int)
    requires
        valid_amp(n),
    ensures
        -32768 <= convert_i16_spec(n) * 65536 - n * 32767 <= 32768,
        -32767 <= convert_i16_spec(n) <= 32767,
{
    if n >= 0 {
        lemma_scale_div(n, 32767);
    } else {
        lemma_scale_div(-n, 32767);
        let q = ((-n) * 32767 + 32768) / 65536;
        assert(convert_i16_spec(n) * 65536 == -(q * 65536));
        assert(n * 32767 == -((-n) * 32767)) by (nonlinear_arith);
    }
}

} // verus!

