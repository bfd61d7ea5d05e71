//! The capture loop of one interface, as the decisions it takes.
//!
//! Opening the interface and waiting for frames is the caller's part. After
//! each outcome the caller asks here what to do next, so the rules of the
//! loop are in one place: an interface that refuses the filter is given up,
//! a timeout is no error, and any other failure ends the loop of that
//! interface and of no other.

use vstd::prelude::*;

verus! {

/// The most bytes that are captured of one frame.
pub const CAPTURE_SNAPLEN: i32 = 5000;

/// How long one wait for a frame lasts, in milliseconds.
pub const CAPTURE_TIMEOUT_MS: i32 = 1;

/// Where the capture of one interface stands.
#[derive(Debug, Clone, Copy, PartialEq, Eq, Structural)]
pub enum CaptureState {
    /// The interface is open and its filter is not installed yet.
    Opened,
    /// Frames are being captured.
    Capturing,
    /// The capture has ended.
    Stopped,
}

/// What last happened on the interface.
#[derive(Debug, Clone, Copy, PartialEq, Eq, Structural)]
pub enum CaptureEvent {
    /// The interface took the filter.
    FilterInstalled,
    /// The interface does not support the filter.
    FilterRefused,
    /// A frame that passes the filter was captured.
    Frame,
    /// No frame came within the timeout.
    Timeout,
    /// The capture failed in any other way.
    Failure,
}

/// What the caller does next.
#[derive(Debug, Clone, Copy, PartialEq, Eq, Structural)]
pub enum CaptureAction {
    /// Wait for the next frame.
    Poll,
    /// Handle the frame that was captured, then wait for the next one.
    HandleFrame,
    /// Leave the loop.
    Stop,
}

/// The state and the action that follow an event.
pub open spec fn capture_transition(state: CaptureState, event: CaptureEvent) -> (
    CaptureState,
    CaptureAction,
) {
    match (state, event) {
        (CaptureState::Opened, CaptureEvent::FilterInstalled) => (
            CaptureState::Capturing,
            CaptureAction::Poll,
        ),
        (CaptureState::Capturing, CaptureEvent::Frame) => (
            CaptureState::Capturing,
            CaptureAction::HandleFrame,
        ),
        (CaptureState::Capturing, CaptureEvent::Timeout) => (
            CaptureState::Capturing,
            CaptureAction::Poll,
        ),
        _ => (CaptureState::Stopped, CaptureAction::Stop),
    }
}

/// The filter that is installed on every interface: UDP on the voice port.
pub fn capture_filter() -> (filter: String)
    ensures
        filter@ == "udp port 9987"@,
{
    "udp port 9987".to_owned()
}

/// Decides what the capture loop does after an event.
pub fn capture_step(state: CaptureState, event: CaptureEvent) -> (next: (
    CaptureState,
    CaptureAction,
))
    ensures
        next == capture_transition(state, event),
        next.1 == CaptureAction::Stop <==> next.0 == CaptureState::Stopped,
        next.1 == CaptureAction::HandleFrame <==> state == CaptureState::Capturing && event
            == CaptureEvent::Frame,
        state == CaptureState::Capturing && event == CaptureEvent::Timeout ==> next == (
            CaptureState::Capturing,
            CaptureAction::Poll,
        ),
{
    match (state, event) {
        (CaptureState::Opened, CaptureEvent::FilterInstalled) => (
            CaptureState::Capturing,
            CaptureAction::Poll,
        ),
        (CaptureState::Capturing, CaptureEvent::Frame) => (
            CaptureState::Capturing,
            CaptureAction::HandleFrame,
        ),
        (CaptureState::Capturing, CaptureEvent::Timeout) => (
            CaptureState::Capturing,
            CaptureAction::Poll,
        ),
        _ => (CaptureState::Stopped, CaptureAction::Stop),
    }
}

} // verus!
