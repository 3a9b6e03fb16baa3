//! Command driver: the intents a caller may request and the arithmetic that
//! turns an intent plus the device's current brightness into the target value
//! to write, with its clamping policy.

use vstd::prelude::*;
use vstd::arithmetic::mul::lemma_mul_inequality;
use crate::codec::{percent_to_value, spec_percent_to_value};
use crate::profile::DeviceProfile;

verus! {

/// The one external input driving a command: set the brightness to an
/// absolute percentage, or move it by a relative number of percentage points.
#[derive(Clone, Copy, Debug, PartialEq, Eq, Structural)]
pub enum Intent {
    SetAbsolute(u8),
    Increment(u8),
    Decrement(u8),
}

/// An absolute percentage must lie in [0, 100]; relative moves are clamped
/// against the profile's interval and take any count of points.
pub open spec fn spec_intent_valid(intent: Intent) -> bool {
    intent matches Intent::SetAbsolute(p) ==> p <= 100
}

/// Failure detected before any device I/O.
#[derive(Clone, Copy, Debug, PartialEq, Eq, Structural)]
pub enum CommandError {
    /// The percentage of an absolute set lies outside [0, 100].
    InvalidPercent,
}

/// Rejects an intent whose absolute percentage lies outside [0, 100], before
/// any device is touched. Every other intent is accepted.
pub fn validate_intent(intent: &Intent) -> (r: Result<(), CommandError>)
    ensures
        r is Ok <==> spec_intent_valid(*intent),
        !spec_intent_valid(*intent) ==> r == Err::<(), CommandError>(CommandError::InvalidPercent),
{
    match intent {
        Intent::SetAbsolute(p) => {
            if *p <= 100 {
                Ok(())
            } else {
                Err(CommandError::InvalidPercent)
            }
        },
        _ => Ok(()),
    }
}

/// The brightness value a command writes, given the device's current value:
/// an absolute set scales the percentage; a relative move adds or subtracts
/// whole percentage points in native units, clamped at the ends of the
/// profile's interval.
pub open spec fn spec_compute_target(profile: DeviceProfile, intent: Intent, current: u16) -> u16 {
    let step = profile.spec_one_percent_step();
    match intent {
        Intent::SetAbsolute(p) => spec_percent_to_value(profile, p),
        Intent::Increment(p) => {
            if current + p * step >= profile.max_brightness {
                profile.max_brightness
            } else {
                (current + p * step) as u16
            }
        },
        Intent::Decrement(p) => {
            if current <= p * step + profile.min_brightness {
                profile.min_brightness
            } else {
                (current - p * step) as u16
            }
        },
    }
}

/// Computes the value to write back for one intent, from the brightness the
/// device currently reports. The result never leaves the profile's interval.
pub fn compute_target(profile: &DeviceProfile, intent: &Intent, current: u16) -> (r: u16)
    requires
        profile.wf(),
        spec_intent_valid(*intent),
        profile.min_brightness <= current <= profile.max_brightness,
    ensures
        r == spec_compute_target(*profile, *intent, current),
        profile.min_brightness <= r <= profile.max_brightness,
{
    match intent {
        Intent::SetAbsolute(p) => percent_to_value(profile, *p),
        Intent::Increment(p) => {
            let delta = point_delta(profile, *p);
            let sum: u32 = current as u32 + delta;
            if sum >= profile.max_brightness as u32 {
                profile.max_brightness
            } else {
                sum as u16
            }
        },
        Intent::Decrement(p) => {
            let delta = point_delta(profile, *p);
            if current as u32 <= delta + profile.min_brightness as u32 {
                profile.min_brightness
            } else {
                current - delta as u16
            }
        },
    }
}

/// `p` percentage points in native brightness units.
fn point_delta(profile: &DeviceProfile, p: u8) -> (r: u32)
    ensures
        r == p * profile.spec_one_percent_step(),
        r <= 255 * 656,
{
    let step = profile.max_brightness / 100;
    assert((p as int) * (step as int) <= 255 * 656) by {
        lemma_mul_inequality(p as int, 255, step as int);
        lemma_mul_inequality(step as int, 656, 255);
        assert(255 * (step as int) == (step as int) * 255) by {
            vstd::arithmetic::mul::lemma_mul_is_commutative(255, step as int);
        }
    }
    (p as u32) * (step as u32)
}

/// Law: when the current value sits one hundred native units under the top
/// of the interval and the requested move exceeds those hundred units, an
/// increment lands exactly on the top, never past it.
pub proof fn lemma_increment_clamp(profile: DeviceProfile, p: u8, current: u16)
    requires
        profile.wf(),
        current == profile.max_brightness - 100,
        p * profile.spec_one_percent_step() > 100,
    ensures
        spec_compute_target(profile, Intent::Increment(p), current) == profile.max_brightness,
{
}

/// Law: when the requested move exceeds the current value's distance to the
/// bottom of the interval, a decrement lands exactly on the bottom, with no
/// underflow or wraparound.
pub proof fn lemma_decrement_clamp(profile: DeviceProfile, p: u8, current: u16)
    requires
        profile.wf(),
        current == 50,
        profile.min_brightness <= 50,
        p * profile.spec_one_percent_step() > 50,
    ensures
        spec_compute_target(profile, Intent::Decrement(p), current) == profile.min_brightness,
{
}

} // verus!
