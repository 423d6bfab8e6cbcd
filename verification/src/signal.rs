//! Signals that the controller delivers or finds in a child's status.

use vstd::prelude::*;

verus! {

/// A signal, by name where the controller sends it itself.
#[derive(Clone, Copy, Debug, PartialEq, Eq)]
pub enum Signal {
    /// Hangup.
    SIGHUP,
    /// Continue, if stopped.
    SIGCONT,
    /// Interrupt from the keyboard.
    SIGINT,
    /// Termination request.
    SIGTERM,
    /// Kill; cannot be caught or ignored.
    SIGKILL,
    /// Any other signal, by its number on this platform.
    Other(i32),
}

/// How many signals a graceful termination sends before it gives up or,
/// when forced, turns to `SIGKILL`.
pub const GRACEFUL_SIGNALS: u8 = 4;

/// The signal of the `attempt`-th try of a termination, counted from 0:
/// `SIGHUP`, `SIGCONT`, `SIGINT`, `SIGTERM`, and `SIGKILL` from then on.
/// `SIGCONT` comes second so that a stopped child gets to see what follows.
pub open spec fn escalation(attempt: u8) -> Signal {
    if attempt == 0 {
        Signal::SIGHUP
    } else if attempt == 1 {
        Signal::SIGCONT
    } else if attempt == 2 {
        Signal::SIGINT
    } else if attempt == 3 {
        Signal::SIGTERM
    } else {
        Signal::SIGKILL
    }
}

/// Computes [`escalation`].
pub fn escalation_signal(attempt: u8) -> (signal: Signal)
    ensures
        signal == escalation(attempt),
{
    if attempt == 0 {
        Signal::SIGHUP
    } else if attempt == 1 {
        Signal::SIGCONT
    } else if attempt == 2 {
        Signal::SIGINT
    } else if attempt == 3 {
        Signal::SIGTERM
    } else {
        Signal::SIGKILL
    }
}

} // verus!
