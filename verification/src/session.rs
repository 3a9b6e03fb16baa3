//! Device session: the read-modify-write exchange with one matched device as
//! a state machine.
//!
//! The embedding program owns the USB handle and performs each
//! [`SessionAction`] the machine asks for; it reports what happened as a
//! [`SessionEvent`] and the machine decides the next step. The machine fixes
//! every parameter of the two control transfers (request type, request code,
//! report selector, interface, payload, timeout), so the program has nothing
//! to decide. After the HID interface has been claimed, every path through
//! the machine — success, transfer failure, malformed report — passes through
//! a release action before it finishes.

use vstd::prelude::*;
use crate::codec::{
    compute_read_value, spec_decode_report, spec_encode_report, encode_report,
};
use crate::driver::{compute_target, spec_compute_target, spec_intent_valid, Intent};
use crate::profile::{clamp_value, spec_clamp_value, DeviceProfile};

verus! {

/// HID class request code that reads a report (GET_REPORT).
pub const HID_GET_REPORT: u8 = 0x01;

/// HID class request code that writes a report (SET_REPORT).
pub const HID_SET_REPORT: u8 = 0x09;

/// `wValue` of both transfers: feature report type (0x03) in the high byte,
/// report identifier zero in the low byte.
pub const FEATURE_REPORT_WVALUE: u16 = 0x0300;

/// Index of the HID interface that carries the feature report; it is both
/// the interface to claim and the `wIndex` of the transfers.
pub const HID_INTERFACE: u16 = 1;

/// Request-type byte of the read transfer: direction IN, type Class,
/// recipient Interface.
pub const REQUEST_TYPE_IN_CLASS_INTERFACE: u8 = 0xa1;

/// Request-type byte of the write transfer: direction OUT, type Class,
/// recipient Interface.
pub const REQUEST_TYPE_OUT_CLASS_INTERFACE: u8 = 0x21;

/// Upper bound on each transfer's blocking time, in milliseconds.
pub const TRANSFER_TIMEOUT_MS: u64 = 2000;

/// Number of bytes to ask for on a read: the device may pad the two value
/// bytes up to this length.
pub const READ_REPORT_LEN: usize = 8;

/// One IN control transfer to issue, fully parameterised.
pub struct ReadRequest {
    pub request_type: u8,
    pub request: u8,
    pub value: u16,
    pub index: u16,
    pub length: usize,
    pub timeout_ms: u64,
}

/// One OUT control transfer to issue, fully parameterised, payload included.
pub struct WriteRequest {
    pub request_type: u8,
    pub request: u8,
    pub value: u16,
    pub index: u16,
    pub data: Vec<u8>,
    pub timeout_ms: u64,
}

/// The one read request this protocol ever issues: HID GET_REPORT of the
/// feature report on the claimed interface.
pub open spec fn spec_is_get_report_request(req: ReadRequest) -> bool {
    &&& req.request_type == REQUEST_TYPE_IN_CLASS_INTERFACE
    &&& req.request == HID_GET_REPORT
    &&& req.value == FEATURE_REPORT_WVALUE
    &&& req.index == HID_INTERFACE
    &&& req.length == READ_REPORT_LEN
    &&& req.timeout_ms == TRANSFER_TIMEOUT_MS
}

/// The one write request this protocol issues for `target`: HID SET_REPORT
/// of the feature report on the claimed interface, carrying the six-byte
/// encoding of `target`.
pub open spec fn spec_is_set_report_request(req: WriteRequest, target: u16) -> bool {
    &&& req.request_type == REQUEST_TYPE_OUT_CLASS_INTERFACE
    &&& req.request == HID_SET_REPORT
    &&& req.value == FEATURE_REPORT_WVALUE
    &&& req.index == HID_INTERFACE
    &&& req.data@ == spec_encode_report(target)
    &&& req.timeout_ms == TRANSFER_TIMEOUT_MS
}

/// Builds the read transfer that fetches the current brightness report.
pub fn get_report_request() -> (r: ReadRequest)
    ensures
        spec_is_get_report_request(r),
{
    ReadRequest {
        request_type: REQUEST_TYPE_IN_CLASS_INTERFACE,
        request: HID_GET_REPORT,
        value: FEATURE_REPORT_WVALUE,
        index: HID_INTERFACE,
        length: READ_REPORT_LEN,
        timeout_ms: TRANSFER_TIMEOUT_MS,
    }
}

/// Builds the write transfer that sets the brightness to `target`.
pub fn set_report_request(target: u16) -> (r: WriteRequest)
    ensures
        spec_is_set_report_request(r, target),
{
    WriteRequest {
        request_type: REQUEST_TYPE_OUT_CLASS_INTERFACE,
        request: HID_SET_REPORT,
        value: FEATURE_REPORT_WVALUE,
        index: HID_INTERFACE,
        data: encode_report(target),
        timeout_ms: TRANSFER_TIMEOUT_MS,
    }
}

/// What went wrong with one device.
#[derive(Clone, Copy, Debug, PartialEq, Eq, Structural)]
pub enum DeviceError {
    /// The device could not be opened.
    OpenFailed,
    /// The HID interface could not be claimed.
    ClaimFailed,
    /// A transfer timed out, stalled, or returned a malformed report.
    TransferFailed,
}

/// How one device's session ended.
#[derive(Clone, Copy, Debug, PartialEq, Eq, Structural)]
pub enum DeviceOutcome {
    /// The brightness was read and the target written back.
    Adjusted { previous: u16, target: u16 },
    /// The sequence was aborted; later devices are still attempted.
    Failed(DeviceError),
}

/// Where one device's session stands.
#[derive(Clone, Copy, Debug, PartialEq, Eq, Structural)]
pub enum SessionState {
    /// Waiting for the device to be opened.
    Opening,
    /// Waiting for the HID interface to be claimed.
    Claiming,
    /// Waiting for the brightness report to be read.
    Reading,
    /// Waiting for the target value to be written.
    Writing { previous: u16, target: u16 },
    /// Waiting for the claimed interface to be released; best-effort, so
    /// release itself cannot fail the session.
    Releasing { outcome: DeviceOutcome },
    /// The session is over.
    Finished { outcome: DeviceOutcome },
}

/// What the embedding program observed while performing the last action.
pub enum SessionEvent {
    /// The device handle is open.
    OpenSucceeded,
    /// The device could not be opened (permission, busy, removed).
    OpenFailed,
    /// The HID interface is claimed, with the kernel driver detached.
    ClaimSucceeded,
    /// Another holder or the OS refused the claim.
    ClaimFailed,
    /// The read transfer returned these bytes (possibly fewer than asked).
    ReportRead(Vec<u8>),
    /// A transfer timed out or stalled.
    TransferFailed,
    /// The write transfer completed.
    WriteSucceeded,
    /// The interface was released and driver reattachment attempted; any
    /// reattachment failure was swallowed.
    Released,
}

/// What the embedding program must do next.
pub enum SessionAction {
    /// Open a handle to the matched device.
    Open,
    /// Detach any kernel driver from this interface and claim it.
    Claim { interface: u16 },
    /// Issue the read transfer and report the bytes that came back.
    GetReport(ReadRequest),
    /// Issue the write transfer.
    SetReport(WriteRequest),
    /// Release this interface and attempt to reattach the kernel driver,
    /// ignoring reattachment failure.
    Release { interface: u16 },
    /// The session is finished; move on to the next device.
    Stop,
}

/// The events each state can answer; a finished session answers none.
pub open spec fn state_accepts_event(state: SessionState, event: SessionEvent) -> bool {
    match state {
        SessionState::Opening => event is OpenSucceeded || event is OpenFailed,
        SessionState::Claiming => event is ClaimSucceeded || event is ClaimFailed,
        SessionState::Reading => event is ReportRead || event is TransferFailed,
        SessionState::Writing { .. } => event is WriteSucceeded || event is TransferFailed,
        SessionState::Releasing { .. } => event is Released,
        SessionState::Finished { .. } => false,
    }
}

/// Starts the session for one matched device: the first step is to open it.
pub fn session_start() -> (r: (SessionState, SessionAction))
    ensures
        r.0 == SessionState::Opening,
        r.1 is Open,
{
    (SessionState::Opening, SessionAction::Open)
}

/// Advances the session by one step: from the current state and the observed
/// event to the next state and the next action to perform.
pub fn session_step(
    profile: &DeviceProfile,
    intent: &Intent,
    state: SessionState,
    event: SessionEvent,
) -> (r: (SessionState, SessionAction))
    requires
        profile.wf(),
        spec_intent_valid(*intent),
        state_accepts_event(state, event),
    ensures
        state is Opening && event is OpenSucceeded ==> r.0 is Claiming
            && (r.1 matches SessionAction::Claim { interface } && interface == HID_INTERFACE),
        state is Opening && event is OpenFailed ==> r.0 == (SessionState::Finished {
            outcome: DeviceOutcome::Failed(DeviceError::OpenFailed),
        }) && r.1 is Stop,
        state is Claiming && event is ClaimSucceeded ==> r.0 is Reading
            && (r.1 matches SessionAction::GetReport(req) && spec_is_get_report_request(req)),
        state is Claiming && event is ClaimFailed ==> r.0 == (SessionState::Finished {
            outcome: DeviceOutcome::Failed(DeviceError::ClaimFailed),
        }) && r.1 is Stop,
        state is Reading ==> (event matches SessionEvent::ReportRead(bytes) ==> ({
            if bytes@.len() >= 2 {
                let previous = spec_clamp_value(*profile, spec_decode_report(bytes@));
                let target = spec_compute_target(*profile, *intent, previous);
                &&& r.0 == (SessionState::Writing { previous, target })
                &&& (r.1 matches SessionAction::SetReport(req)
                    && spec_is_set_report_request(req, target))
            } else {
                spec_aborts_with_release(r)
            }
        })),
        state is Reading && event is TransferFailed ==> spec_aborts_with_release(r),
        state is Writing && event is WriteSucceeded ==> r.0 == (SessionState::Releasing {
            outcome: DeviceOutcome::Adjusted {
                previous: state->Writing_previous,
                target: state->Writing_target,
            },
        }) && spec_is_release(r.1),
        state is Writing && event is TransferFailed ==> spec_aborts_with_release(r),
        state matches SessionState::Releasing { outcome } ==> r.0 == (SessionState::Finished {
            outcome,
        }) && r.1 is Stop,
        r.0 is Finished <==> r.1 is Stop,
        (state is Reading || state is Writing) ==> (r.0 is Writing || r.0 is Releasing),
{
    match (state, event) {
        (SessionState::Opening, SessionEvent::OpenSucceeded) => (
            SessionState::Claiming,
            SessionAction::Claim { interface: HID_INTERFACE },
        ),
        (SessionState::Opening, _) => (
            SessionState::Finished { outcome: DeviceOutcome::Failed(DeviceError::OpenFailed) },
            SessionAction::Stop,
        ),
        (SessionState::Claiming, SessionEvent::ClaimSucceeded) => (
            SessionState::Reading,
            SessionAction::GetReport(get_report_request()),
        ),
        (SessionState::Claiming, _) => (
            SessionState::Finished { outcome: DeviceOutcome::Failed(DeviceError::ClaimFailed) },
            SessionAction::Stop,
        ),
        (SessionState::Reading, SessionEvent::ReportRead(bytes)) => {
            match compute_read_value(profile, &bytes) {
                Ok(previous) => {
                    let target = compute_target(profile, intent, previous);
                    (
                        SessionState::Writing { previous, target },
                        SessionAction::SetReport(set_report_request(target)),
                    )
                },
                Err(_) => abort_with_release(),
            }
        },
        (SessionState::Reading, _) => abort_with_release(),
        (SessionState::Writing { previous, target }, SessionEvent::WriteSucceeded) => (
            SessionState::Releasing { outcome: DeviceOutcome::Adjusted { previous, target } },
            SessionAction::Release { interface: HID_INTERFACE },
        ),
        (SessionState::Writing { .. }, _) => abort_with_release(),
        (SessionState::Releasing { outcome }, _) => (
            SessionState::Finished { outcome },
            SessionAction::Stop,
        ),
        (SessionState::Finished { outcome }, _) => (
            SessionState::Finished { outcome },
            SessionAction::Stop,
        ),
    }
}

/// A release order for the claimed HID interface.
pub open spec fn spec_is_release(action: SessionAction) -> bool {
    action matches SessionAction::Release { interface } && interface == HID_INTERFACE
}

/// The step that gives up on this device after a failed or malformed
/// transfer: the interface is still claimed, so release comes first.
pub open spec fn spec_aborts_with_release(r: (SessionState, SessionAction)) -> bool {
    &&& r.0 == (SessionState::Releasing {
        outcome: DeviceOutcome::Failed(DeviceError::TransferFailed),
    })
    &&& spec_is_release(r.1)
}

/// Abandons the current device over a transfer failure, releasing the
/// claimed interface before finishing.
fn abort_with_release() -> (r: (SessionState, SessionAction))
    ensures
        spec_aborts_with_release(r),
{
    (
        SessionState::Releasing { outcome: DeviceOutcome::Failed(DeviceError::TransferFailed) },
        SessionAction::Release { interface: HID_INTERFACE },
    )
}

} // verus!
