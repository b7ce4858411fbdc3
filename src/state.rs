use vstd::prelude::*;

verus! {

/// Where the device stands in its connectivity lifecycle.
#[derive(Clone, Copy, Debug, PartialEq, Eq, Structural)]
pub enum ConnectivityState {
    /// No link; the initial state, and the state between cycles.
    Idle,
    /// The radio link is up; no messaging session yet.
    LinkUp,
    /// A messaging session is live; the only state in which telemetry runs.
    SessionEstablished,
    /// A subscribe or publish failed; the session goes on.
    Degraded,
    /// The session is over (disconnect or unrecoverable error), or the device
    /// is about to restart.
    Faulted,
}

} // verus!
