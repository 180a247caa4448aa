//! Translation of raw OS signal numbers into the small event
//! vocabulary the control loop consumes.
//!
//! Signal delivery itself is asynchronous and platform-owned; the
//! process edge captures signals into a poll-based queue and hands the
//! raw number to [`translate_signal`], a pure function, once per tick.

use vstd::prelude::*;

verus! {

/// Interrupt from the terminal.
pub const SIGINT: u32 = 2;

/// Hangup.
pub const SIGHUP: u32 = 1;

/// First user-defined signal.
pub const SIGUSR1: u32 = 10;

/// Second user-defined signal.
pub const SIGUSR2: u32 = 12;

/// Alarm clock.
pub const SIGALRM: u32 = 14;

/// Termination request.
pub const SIGTERM: u32 = 15;

/// What one delivered OS signal means to the control loop.
#[derive(Clone, Copy, Debug, PartialEq, Eq, Structural)]
pub enum SignalEvent {
    /// Stop every service and terminate the loop.
    Shutdown,
    /// Forward the raw signal number to every running service process.
    Passthrough(u32),
}

/// The event a raw signal number maps to, if the supervisor handles it.
pub open spec fn spec_translate_signal(code: u32) -> Option<SignalEvent> {
    if code == SIGINT || code == SIGTERM {
        Some(SignalEvent::Shutdown)
    } else if code == SIGHUP || code == SIGUSR1 || code == SIGUSR2 || code == SIGALRM {
        Some(SignalEvent::Passthrough(code))
    } else {
        None
    }
}

/// Maps a raw platform signal number to the internal vocabulary:
/// interrupt and termination requests shut the agent down, the other
/// handled signals are forwarded to the supervised processes, and
/// anything else is ignored.
pub fn translate_signal(code: u32) -> (r: Option<SignalEvent>)
    ensures
        r == spec_translate_signal(code),
{
    if code == SIGINT || code == SIGTERM {
        Some(SignalEvent::Shutdown)
    } else if code == SIGHUP || code == SIGUSR1 || code == SIGUSR2 || code == SIGALRM {
        Some(SignalEvent::Passthrough(code))
    } else {
        None
    }
}

} // verus!
