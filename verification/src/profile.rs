//! Device profile: the USB identity of the supported display and its native
//! brightness range, plus clamping into that range.

use vstd::prelude::*;

verus! {

/// USB vendor identifier of the supported display.
pub const LG_ULTRAFINE_VENDOR_ID: u16 = 0x043e;

/// USB product identifier of the supported display.
pub const LG_ULTRAFINE_PRODUCT_ID: u16 = 0x9a40;

/// Largest native brightness value the display firmware accepts.
pub const LG_ULTRAFINE_MAX_BRIGHTNESS: u16 = 54000;

/// Smallest native brightness value the display firmware accepts.
pub const LG_ULTRAFINE_MIN_BRIGHTNESS: u16 = 0;

/// One supported display model: its USB identity and the closed interval of
/// native brightness units its firmware accepts.
#[derive(Clone, Copy, Debug, PartialEq, Eq, Structural)]
pub struct DeviceProfile {
    pub vendor_id: u16,
    pub product_id: u16,
    pub min_brightness: u16,
    pub max_brightness: u16,
}

impl DeviceProfile {
    /// A profile is well formed when its brightness interval is non-empty.
    pub open spec fn wf(self) -> bool {
        self.min_brightness <= self.max_brightness
    }

    /// Native brightness units per percentage point, rounded down.
    pub open spec fn spec_one_percent_step(self) -> u16 {
        (self.max_brightness / 100) as u16
    }

    /// Native brightness units that stand for one percentage point.
    pub fn one_percent_step(&self) -> (r: u16)
        ensures
            r == self.spec_one_percent_step(),
    {
        self.max_brightness / 100
    }
}

/// The profile of the supported display model.
pub fn lg_ultrafine() -> (r: DeviceProfile)
    ensures
        r.vendor_id == LG_ULTRAFINE_VENDOR_ID,
        r.product_id == LG_ULTRAFINE_PRODUCT_ID,
        r.min_brightness == LG_ULTRAFINE_MIN_BRIGHTNESS,
        r.max_brightness == LG_ULTRAFINE_MAX_BRIGHTNESS,
        r.wf(),
{
    DeviceProfile {
        vendor_id: LG_ULTRAFINE_VENDOR_ID,
        product_id: LG_ULTRAFINE_PRODUCT_ID,
        min_brightness: LG_ULTRAFINE_MIN_BRIGHTNESS,
        max_brightness: LG_ULTRAFINE_MAX_BRIGHTNESS,
    }
}

/// `v` forced into the profile's brightness interval.
pub open spec fn spec_clamp_value(profile: DeviceProfile, v: u16) -> u16 {
    if v < profile.min_brightness {
        profile.min_brightness
    } else if v > profile.max_brightness {
        profile.max_brightness
    } else {
        v
    }
}

/// Forces a raw brightness value into the profile's interval, so that a value
/// reported by the device never leaves the range the driver arithmetic
/// assumes.
pub fn clamp_value(profile: &DeviceProfile, v: u16) -> (r: u16)
    requires
        profile.wf(),
    ensures
        r == spec_clamp_value(*profile, v),
        profile.min_brightness <= r <= profile.max_brightness,
{
    if v < profile.min_brightness {
        profile.min_brightness
    } else if v > profile.max_brightness {
        profile.max_brightness
    } else {
        v
    }
}

} // verus!
