use vstd::prelude::*;
use crate::policy::{LinkFaultPolicy, LINK_RETRY_MS, SESSION_RESTART_MS};
use crate::state::ConnectivityState;

verus! {

/// What the driver reports to the supervisor.
#[derive(Clone, Copy, Debug, PartialEq, Eq, Structural)]
pub enum SupervisorEvent {
    /// The device has booted.
    Started,
    /// The radio link is up and has an address.
    LinkConnected,
    /// The radio link could not be brought up; the driver's error code.
    LinkFailed { code: i32 },
    /// The messaging session is established.
    SessionConnected,
    /// The messaging session could not be established.
    SessionFailed,
    /// The telemetry loop of the session returned.
    SessionEnded,
    /// The last requested wait is over.
    WaitElapsed,
}

/// What the supervisor asks of the driver.
#[derive(Clone, Copy, Debug, PartialEq, Eq, Structural)]
pub enum SupervisorAction {
    ConnectLink,
    ConnectSession,
    /// Start the listener and run the telemetry loop.
    RunSession,
    Wait { millis: u64 },
    /// Restart the whole device: the one fatal path.
    RestartDevice,
}

/// One decision of the supervisor, given the codes that are fatal.
pub open spec fn supervisor_step(
    state: ConnectivityState,
    event: SupervisorEvent,
    fatal_codes: Seq<i32>,
) -> (ConnectivityState, SupervisorAction) {
    if state == ConnectivityState::Faulted {
        (ConnectivityState::Faulted, SupervisorAction::RestartDevice)
    } else {
        match event {
            SupervisorEvent::Started => (ConnectivityState::Idle, SupervisorAction::ConnectLink),
            SupervisorEvent::WaitElapsed => (ConnectivityState::Idle, SupervisorAction::ConnectLink),
            SupervisorEvent::LinkConnected => (
                ConnectivityState::LinkUp,
                SupervisorAction::ConnectSession,
            ),
            SupervisorEvent::LinkFailed { code } => if fatal_codes.contains(code) {
                (ConnectivityState::Faulted, SupervisorAction::RestartDevice)
            } else {
                (ConnectivityState::Idle, SupervisorAction::Wait { millis: LINK_RETRY_MS })
            },
            SupervisorEvent::SessionConnected => (
                ConnectivityState::SessionEstablished,
                SupervisorAction::RunSession,
            ),
            SupervisorEvent::SessionFailed => (
                ConnectivityState::Idle,
                SupervisorAction::Wait { millis: SESSION_RESTART_MS },
            ),
            SupervisorEvent::SessionEnded => (
                ConnectivityState::Idle,
                SupervisorAction::Wait { millis: SESSION_RESTART_MS },
            ),
        }
    }
}

/// A failure that the supervisor recovers from.
pub open spec fn is_transient(event: SupervisorEvent, fatal_codes: Seq<i32>) -> bool {
    match event {
        SupervisorEvent::LinkFailed { code } => !fatal_codes.contains(code),
        SupervisorEvent::SessionFailed => true,
        SupervisorEvent::SessionEnded => true,
        _ => false,
    }
}

/// A link failure with a fatal code.
pub open spec fn is_fatal_event(event: SupervisorEvent, fatal_codes: Seq<i32>) -> bool {
    match event {
        SupervisorEvent::LinkFailed { code } => fatal_codes.contains(code),
        _ => false,
    }
}

/// The decisions of the supervisor over a sequence of events.
pub open spec fn supervisor_trace(
    state: ConnectivityState,
    events: Seq<SupervisorEvent>,
    fatal_codes: Seq<i32>,
) -> Seq<SupervisorAction>
    decreases events.len(),
{
    if events.len() == 0 {
        Seq::empty()
    } else {
        let (next, action) = supervisor_step(state, events[0], fatal_codes);
        seq![action] + supervisor_trace(next, events.drop_first(), fatal_codes)
    }
}

/// The outer control loop: brings the link up, then the session, runs the
/// session, and decides on retry, backoff or restart after each failure.
pub struct Supervisor {
    state: ConnectivityState,
    policy: LinkFaultPolicy,
}

impl Supervisor {
    pub closed spec fn state_spec(&self) -> ConnectivityState {
        self.state
    }

    pub closed spec fn fatal_codes(&self) -> Seq<i32> {
        self.policy.fatal_codes@
    }

    pub fn new(policy: LinkFaultPolicy) -> (r: Supervisor)
        ensures
            r.state_spec() == ConnectivityState::Idle,
            r.fatal_codes() == policy.fatal_codes@,
    {
        Supervisor { state: ConnectivityState::Idle, policy }
    }

    pub fn state(&self) -> (r: ConnectivityState)
        ensures
            r == self.state_spec(),
    {
        self.state
    }

    /// Takes the driver's report and returns what to do next.
    pub fn step(&mut self, event: SupervisorEvent) -> (r: SupervisorAction)
        ensures
            (final(self).state_spec(), r) == supervisor_step(
                old(self).state_spec(),
                event,
                old(self).fatal_codes(),
            ),
            final(self).fatal_codes() == old(self).fatal_codes(),
            r == SupervisorAction::RestartDevice <==> (old(self).state_spec()
                == ConnectivityState::Faulted || is_fatal_event(event, old(self).fatal_codes())),
    {
        if self.state == ConnectivityState::Faulted {
            return SupervisorAction::RestartDevice;
        }
        match event {
            SupervisorEvent::Started | SupervisorEvent::WaitElapsed => {
                self.state = ConnectivityState::Idle;
                SupervisorAction::ConnectLink
            },
            SupervisorEvent::LinkConnected => {
                self.state = ConnectivityState::LinkUp;
                SupervisorAction::ConnectSession
            },
            SupervisorEvent::LinkFailed { code } => {
                if self.policy.is_fatal(code) {
                    self.state = ConnectivityState::Faulted;
                    SupervisorAction::RestartDevice
                } else {
                    self.state = ConnectivityState::Idle;
                    SupervisorAction::Wait { millis: LINK_RETRY_MS }
                }
            },
            SupervisorEvent::SessionConnected => {
                self.state = ConnectivityState::SessionEstablished;
                SupervisorAction::RunSession
            },
            SupervisorEvent::SessionFailed | SupervisorEvent::SessionEnded => {
                self.state = ConnectivityState::Idle;
                SupervisorAction::Wait { millis: SESSION_RESTART_MS }
            },
        }
    }
}

/// After any transient link or session failure the supervisor waits a bounded
/// time and then makes a new link attempt.
pub proof fn lemma_transient_failure_retries_link(
    state: ConnectivityState,
    event: SupervisorEvent,
    fatal_codes: Seq<i32>,
)
    requires
        state != ConnectivityState::Faulted,
        is_transient(event, fatal_codes),
    ensures
        ({
            let (s1, a1) = supervisor_step(state, event, fatal_codes);
            &&& a1 matches SupervisorAction::Wait { millis }
            &&& millis <= LINK_RETRY_MS
            &&& s1 == ConnectivityState::Idle
            &&& supervisor_step(s1, SupervisorEvent::WaitElapsed, fatal_codes) == (
                ConnectivityState::Idle,
                SupervisorAction::ConnectLink,
            )
        }),
{
}

/// Over any sequence of events without a fatal link failure, the supervisor
/// never restarts the device and never reaches a state it cannot leave.
pub proof fn lemma_no_restart_without_fatal_fault(
    state: ConnectivityState,
    events: Seq<SupervisorEvent>,
    fatal_codes: Seq<i32>,
)
    requires
        state != ConnectivityState::Faulted,
        forall|i: int| 0 <= i < events.len() ==> !is_fatal_event(#[trigger] events[i], fatal_codes),
    ensures
        supervisor_trace(state, events, fatal_codes).len() == events.len(),
        forall|i: int|
            0 <= i < events.len() ==> #[trigger] supervisor_trace(state, events, fatal_codes)[i]
                != SupervisorAction::RestartDevice,
    decreases events.len(),
{
    if events.len() > 0 {
        let (next, action) = supervisor_step(state, events[0], fatal_codes);
        let rest = events.drop_first();
        assert(!is_fatal_event(events[0], fatal_codes));
        assert forall|i: int| 0 <= i < rest.len() implies !is_fatal_event(
            #[trigger] rest[i],
            fatal_codes,
        ) by {
            assert(rest[i] == events[i + 1]);
        }
        lemma_no_restart_without_fatal_fault(next, rest, fatal_codes);
        let t = supervisor_trace(state, events, fatal_codes);
        assert forall|i: int| 0 <= i < events.len() implies #[trigger] t[i]
            != SupervisorAction::RestartDevice by {
            if i > 0 {
                assert(t[i] == supervisor_trace(next, rest, fatal_codes)[i - 1]);
            }
        }
    }
}

} // verus!
