//! Value codec: scaling between the user-facing percentage and the device's
//! native brightness units, and the fixed byte layout of the HID feature
//! report that carries a brightness value.

use vstd::prelude::*;
use vstd::arithmetic::div_mod::{lemma_div_is_ordered, lemma_div_multiples_vanish_fancy};
use vstd::arithmetic::mul::lemma_mul_inequality;
use crate::profile::{clamp_value, spec_clamp_value, DeviceProfile};

verus! {

/// Number of bytes in an outgoing feature report.
pub const REPORT_LEN: usize = 6;

/// The brightness value that stands for `percent` of the profile's range:
/// `max_brightness * percent / 100` rounded to the nearest integer, then
/// clamped into the profile's interval.
pub open spec fn spec_percent_to_value(profile: DeviceProfile, percent: u8) -> u16 {
    let scaled = (profile.max_brightness * percent + 50) / 100;
    if scaled <= profile.min_brightness {
        profile.min_brightness
    } else if scaled >= profile.max_brightness {
        profile.max_brightness
    } else {
        scaled as u16
    }
}

/// Maps a percentage in [0, 100] to native brightness units by linear
/// scaling with rounding, clamped into the profile's interval.
pub fn percent_to_value(profile: &DeviceProfile, percent: u8) -> (v: u16)
    requires
        profile.wf(),
        percent <= 100,
    ensures
        v == spec_percent_to_value(*profile, percent),
        profile.min_brightness <= v <= profile.max_brightness,
{
    let max = profile.max_brightness;
    assert((max as int) * (percent as int) <= (max as int) * 100) by {
        lemma_mul_inequality(percent as int, 100, max as int);
    }
    let scaled: u32 = ((max as u32) * (percent as u32) + 50) / 100;
    assert(scaled <= max) by {
        lemma_div_is_ordered(
            (max as int) * (percent as int) + 50,
            100 * (max as int) + 50,
            100,
        );
        lemma_div_multiples_vanish_fancy(max as int, 50, 100);
    }
    if scaled <= profile.min_brightness as u32 {
        profile.min_brightness
    } else if scaled >= max as u32 {
        max
    } else {
        scaled as u16
    }
}

/// The six feature-report bytes that carry `v`: low byte, high byte, then
/// four zero bytes.
pub open spec fn spec_encode_report(v: u16) -> Seq<u8> {
    seq![(v % 256) as u8, (v / 256) as u8, 0u8, 0u8, 0u8, 0u8]
}

/// Encodes a brightness value into the outgoing feature report: the value in
/// little-endian order in the first two bytes of a zero-filled six-byte
/// buffer.
pub fn encode_report(v: u16) -> (r: Vec<u8>)
    ensures
        r@ == spec_encode_report(v),
        r@.len() == REPORT_LEN,
        forall|i: int| 2 <= i < 6 ==> r@[i] == 0u8,
{
    let mut r: Vec<u8> = Vec::new();
    r.push((v % 256) as u8);
    r.push((v / 256) as u8);
    r.push(0);
    r.push(0);
    r.push(0);
    r.push(0);
    assert(r@ =~= spec_encode_report(v));
    r
}

/// The brightness value carried by an incoming report: the first byte plus
/// 256 times the second. Bytes past the second are device padding and are
/// ignored.
pub open spec fn spec_decode_report(bytes: Seq<u8>) -> u16
    recommends
        bytes.len() >= 2,
{
    (bytes[0] + bytes[1] * 256) as u16
}

/// Failure of the value codec.
#[derive(Clone, Copy, Debug, PartialEq, Eq, Structural)]
pub enum CodecError {
    /// The device returned fewer than the two bytes that carry the value.
    MalformedReport,
}

/// Decodes the brightness value from an incoming feature report. Succeeds on
/// any buffer of at least two bytes; fails with `MalformedReport` otherwise.
pub fn decode_report(bytes: &Vec<u8>) -> (r: Result<u16, CodecError>)
    ensures
        bytes@.len() >= 2 ==> r == Ok::<u16, CodecError>(spec_decode_report(bytes@)),
        bytes@.len() < 2 ==> r == Err::<u16, CodecError>(CodecError::MalformedReport),
{
    if bytes.len() < 2 {
        return Err(CodecError::MalformedReport);
    }
    let lo = bytes[0] as u16;
    let hi = bytes[1] as u16;
    Ok(lo + hi * 256)
}

/// The brightness value one read transfer yields: the decoded value forced
/// into the profile's interval (the device is trusted to report within it,
/// but the driver arithmetic never relies on that), or `MalformedReport`
/// when fewer than two bytes came back.
pub fn compute_read_value(profile: &DeviceProfile, bytes: &Vec<u8>) -> (r: Result<
    u16,
    CodecError,
>)
    requires
        profile.wf(),
    ensures
        bytes@.len() >= 2 ==> r == Ok::<u16, CodecError>(
            spec_clamp_value(*profile, spec_decode_report(bytes@)),
        ),
        bytes@.len() < 2 ==> r == Err::<u16, CodecError>(CodecError::MalformedReport),
        r matches Ok(v) ==> profile.min_brightness <= v <= profile.max_brightness,
{
    match decode_report(bytes) {
        Ok(v) => Ok(clamp_value(profile, v)),
        Err(e) => Err(e),
    }
}

/// Law: decoding an encoded report yields the value that was encoded,
/// whatever brightness value it is.
pub proof fn lemma_report_round_trip(v: u16)
    ensures
        spec_decode_report(spec_encode_report(v)) == v,
{
    assert(v % 256 + (v / 256) * 256 == v) by {
        vstd::arithmetic::div_mod::lemma_fundamental_div_mod(v as int, 256);
    }
}

/// Law: scaling is monotonically non-decreasing in the percentage.
pub proof fn lemma_percent_to_value_monotonic(profile: DeviceProfile, p1: u8, p2: u8)
    requires
        profile.wf(),
        p1 <= p2,
        p2 <= 100,
    ensures
        spec_percent_to_value(profile, p1) <= spec_percent_to_value(profile, p2),
{
    let max = profile.max_brightness as int;
    assert(max * p1 <= max * p2) by {
        lemma_mul_inequality(p1 as int, p2 as int, max);
    }
    lemma_div_is_ordered(max * p1 + 50, max * p2 + 50, 100);
}

/// Law: zero percent scales to the bottom of the profile's interval and one
/// hundred percent to its top.
pub proof fn lemma_percent_to_value_endpoints(profile: DeviceProfile)
    requires
        profile.wf(),
    ensures
        spec_percent_to_value(profile, 0) == profile.min_brightness,
        spec_percent_to_value(profile, 100) == profile.max_brightness,
{
    let max = profile.max_brightness as int;
    assert((max * 100 + 50) / 100 == max) by {
        lemma_div_multiples_vanish_fancy(max, 50, 100);
        assert(max * 100 == 100 * max) by {
            vstd::arithmetic::mul::lemma_mul_is_commutative(max, 100);
        }
    }
}

} // verus!
