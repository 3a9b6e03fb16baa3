//! Brightness control core for an external display that exposes its backlight
//! as a USB HID feature report.
//!
//! The crate is organised leaf-first:
//! - [`profile`]: the device profile (USB identity and brightness range) and
//!   range clamping;
//! - [`codec`]: pure value scaling between percentages and native brightness
//!   units, and the fixed feature-report byte layout;
//! - [`driver`]: the command intents (absolute set, relative increment and
//!   decrement) and the target-value arithmetic with its clamping policy;
//! - [`locator`]: identity matching over enumerated USB devices;
//! - [`session`]: the per-device read-modify-write session as a state
//!   machine, producing the exact control-transfer requests to issue.
//!
//! All USB I/O (enumeration, open/claim, control transfers) is performed by
//! the embedding program, which feeds the observed outcomes back into the
//! session state machine as events.

pub mod codec;
pub mod driver;
pub mod locator;
pub mod profile;
pub mod session;
