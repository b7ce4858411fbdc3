use vstd::prelude::*;
use crate::policy::{SUBSCRIBE_RETRY_MS, TELEMETRY_PERIOD_MS};
use crate::state::ConnectivityState;

verus! {

/// Where the telemetry loop stands within its session.
#[derive(Clone, Copy, Debug, PartialEq, Eq, Structural)]
pub enum LoopPhase {
    /// Nothing done yet.
    Entry,
    /// The "connected" status record was sent; the first pass comes next.
    Announced,
    /// A subscribe was asked for.
    Subscribing,
    /// A subscribe failed; waiting before it is tried again in the same pass.
    SubscribeBackoff,
    /// A telemetry publish was asked for.
    Publishing,
    /// A publish failed and the "disconnected" status record was asked for.
    ReportingFailure,
    /// Sleeping until the next pass.
    Sleeping,
    /// The session is over; nothing more is sent.
    Finished,
}

/// What the driver of the loop must do next.
#[derive(Clone, Copy, Debug, PartialEq, Eq, Structural)]
pub enum LoopAction {
    /// Publish a status record to the shadow topic.
    ReportStatus { connected: bool },
    /// Subscribe to the command topic.
    Subscribe,
    /// Publish one telemetry record to the publish topic.
    PublishTelemetry,
    /// Sleep this long.
    Wait { millis: u64 },
    /// Stop: the session is faulted.
    Exit,
}

/// One transition: from a phase, the outcome of the last action (`ok`) and
/// the disconnect signal as read just now, to the next phase and action.
/// A raised signal ends the loop from any phase, before anything is sent.
pub open spec fn loop_step(phase: LoopPhase, ok: bool, signal: bool) -> (LoopPhase, LoopAction) {
    if signal || phase == LoopPhase::Finished {
        (LoopPhase::Finished, LoopAction::Exit)
    } else {
        match phase {
            LoopPhase::Entry => (LoopPhase::Announced, LoopAction::ReportStatus { connected: true }),
            LoopPhase::Announced => (LoopPhase::Subscribing, LoopAction::Subscribe),
            LoopPhase::Sleeping => (LoopPhase::Subscribing, LoopAction::Subscribe),
            LoopPhase::SubscribeBackoff => (LoopPhase::Subscribing, LoopAction::Subscribe),
            LoopPhase::Subscribing => if ok {
                (LoopPhase::Publishing, LoopAction::PublishTelemetry)
            } else {
                (LoopPhase::SubscribeBackoff, LoopAction::Wait { millis: SUBSCRIBE_RETRY_MS })
            },
            LoopPhase::Publishing => if ok {
                (LoopPhase::Sleeping, LoopAction::Wait { millis: TELEMETRY_PERIOD_MS })
            } else {
                (LoopPhase::ReportingFailure, LoopAction::ReportStatus { connected: false })
            },
            LoopPhase::ReportingFailure => (
                LoopPhase::Sleeping,
                LoopAction::Wait { millis: TELEMETRY_PERIOD_MS },
            ),
            LoopPhase::Finished => (LoopPhase::Finished, LoopAction::Exit),
        }
    }
}

/// The connectivity state after a transition.
pub open spec fn loop_state(
    state: ConnectivityState,
    phase: LoopPhase,
    ok: bool,
    signal: bool,
) -> ConnectivityState {
    if signal || phase == LoopPhase::Finished {
        ConnectivityState::Faulted
    } else if (phase == LoopPhase::Subscribing || phase == LoopPhase::Publishing) && !ok {
        ConnectivityState::Degraded
    } else if phase == LoopPhase::Publishing && ok {
        ConnectivityState::SessionEstablished
    } else {
        state
    }
}

/// The actions of a run of the loop from `phase`, one per input; an input is
/// the outcome of the previous action and the signal as read before the step.
pub open spec fn loop_trace(phase: LoopPhase, inputs: Seq<(bool, bool)>) -> Seq<LoopAction>
    decreases inputs.len(),
{
    if inputs.len() == 0 {
        Seq::empty()
    } else {
        let (next, action) = loop_step(phase, inputs[0].0, inputs[0].1);
        seq![action] + loop_trace(next, inputs.drop_first())
    }
}

/// The phase after the first `n` inputs.
pub open spec fn phase_after(phase: LoopPhase, inputs: Seq<(bool, bool)>, n: nat) -> LoopPhase
    decreases n,
{
    if n == 0 || inputs.len() == 0 {
        phase
    } else {
        phase_after(loop_step(phase, inputs[0].0, inputs[0].1).0, inputs.drop_first(), (n - 1) as nat)
    }
}

/// How many status records with this status come before the first telemetry
/// publish of `actions` (or in all of them, if there is none).
pub open spec fn reports_before_publish(actions: Seq<LoopAction>, connected: bool) -> nat
    decreases actions.len(),
{
    if actions.len() == 0 || actions[0] == LoopAction::PublishTelemetry {
        0
    } else {
        (if actions[0] == (LoopAction::ReportStatus { connected }) { 1nat } else { 0nat })
            + reports_before_publish(actions.drop_first(), connected)
    }
}

/// The telemetry loop of one messaging session, as a state machine that a
/// driver runs: it performs each action and hands back its outcome together
/// with the disconnect signal, read just before the next step.
pub struct TelemetryLoop {
    phase: LoopPhase,
    state: ConnectivityState,
}

impl TelemetryLoop {
    pub closed spec fn phase_spec(&self) -> LoopPhase {
        self.phase
    }

    pub closed spec fn state_spec(&self) -> ConnectivityState {
        self.state
    }

    pub fn new() -> (r: TelemetryLoop)
        ensures
            r.phase_spec() == LoopPhase::Entry,
            r.state_spec() == ConnectivityState::SessionEstablished,
    {
        TelemetryLoop { phase: LoopPhase::Entry, state: ConnectivityState::SessionEstablished }
    }

    pub fn phase(&self) -> (r: LoopPhase)
        ensures
            r == self.phase_spec(),
    {
        self.phase
    }

    pub fn state(&self) -> (r: ConnectivityState)
        ensures
            r == self.state_spec(),
    {
        self.state
    }

    /// Whether the loop has ended.
    pub fn is_finished(&self) -> (r: bool)
        ensures
            r == (self.phase_spec() == LoopPhase::Finished),
    {
        self.phase == LoopPhase::Finished
    }

    /// Takes the outcome of the last action and the disconnect signal, and
    /// returns the next action. Every wait lasts at most one period and is
    /// followed by a fresh read of the signal, so a raised signal ends the loop
    /// within one period, and once raised no publish is asked for again.
    pub fn step(&mut self, ok: bool, signal: bool) -> (r: LoopAction)
        ensures
            (final(self).phase_spec(), r) == loop_step(old(self).phase_spec(), ok, signal),
            final(self).state_spec() == loop_state(
                old(self).state_spec(),
                old(self).phase_spec(),
                ok,
                signal,
            ),
            signal ==> r == LoopAction::Exit && final(self).state_spec()
                == ConnectivityState::Faulted,
            r matches LoopAction::Wait { millis } ==> millis <= TELEMETRY_PERIOD_MS,
    {
        if signal || self.phase == LoopPhase::Finished {
            self.phase = LoopPhase::Finished;
            self.state = ConnectivityState::Faulted;
            return LoopAction::Exit;
        }
        match self.phase {
            LoopPhase::Entry => {
                self.phase = LoopPhase::Announced;
                LoopAction::ReportStatus { connected: true }
            },
            LoopPhase::Announced | LoopPhase::Sleeping | LoopPhase::SubscribeBackoff => {
                self.phase = LoopPhase::Subscribing;
                LoopAction::Subscribe
            },
            LoopPhase::Subscribing => {
                if ok {
                    self.phase = LoopPhase::Publishing;
                    LoopAction::PublishTelemetry
                } else {
                    self.phase = LoopPhase::SubscribeBackoff;
                    self.state = ConnectivityState::Degraded;
                    LoopAction::Wait { millis: SUBSCRIBE_RETRY_MS }
                }
            },
            LoopPhase::Publishing => {
                if ok {
                    self.phase = LoopPhase::Sleeping;
                    self.state = ConnectivityState::SessionEstablished;
                    LoopAction::Wait { millis: TELEMETRY_PERIOD_MS }
                } else {
                    self.phase = LoopPhase::ReportingFailure;
                    self.state = ConnectivityState::Degraded;
                    LoopAction::ReportStatus { connected: false }
                }
            },
            LoopPhase::ReportingFailure => {
                self.phase = LoopPhase::Sleeping;
                LoopAction::Wait { millis: TELEMETRY_PERIOD_MS }
            },
            LoopPhase::Finished => LoopAction::Exit,
        }
    }
}


pub proof fn lemma_trace_len(phase: LoopPhase, inputs: Seq<(bool, bool)>)
    ensures
        loop_trace(phase, inputs).len() == inputs.len(),
    decreases inputs.len(),
{
    if inputs.len() > 0 {
        let next = loop_step(phase, inputs[0].0, inputs[0].1).0;
        lemma_trace_len(next, inputs.drop_first());
    }
}

/// The `j`-th action of a run is the step from the phase reached after `j`
/// inputs, and that step gives the phase after `j + 1` inputs.
pub proof fn lemma_trace_index(phase: LoopPhase, inputs: Seq<(bool, bool)>, j: nat)
    requires
        j < inputs.len(),
    ensures
        loop_trace(phase, inputs).len() == inputs.len(),
        loop_trace(phase, inputs)[j as int] == loop_step(
            phase_after(phase, inputs, j),
            inputs[j as int].0,
            inputs[j as int].1,
        ).1,
        phase_after(phase, inputs, j + 1) == loop_step(
            phase_after(phase, inputs, j),
            inputs[j as int].0,
            inputs[j as int].1,
        ).0,
    decreases j,
{
    lemma_trace_len(phase, inputs);
    let (next, action) = loop_step(phase, inputs[0].0, inputs[0].1);
    let rest = inputs.drop_first();
    lemma_trace_len(next, rest);
    assert(loop_trace(phase, inputs) == seq![action] + loop_trace(next, rest));
    if j > 0 {
        lemma_trace_index(next, rest, (j - 1) as nat);
        assert(rest[j - 1] == inputs[j as int]);
        assert(phase_after(phase, inputs, j) == phase_after(next, rest, (j - 1) as nat));
        assert(phase_after(phase, inputs, j + 1) == phase_after(next, rest, j));
    } else {
        assert(phase_after(next, rest, 0) == next);
    }
}

proof fn lemma_finished_after(phase: LoopPhase, inputs: Seq<(bool, bool)>, k: nat, j: nat)
    requires
        k < j <= inputs.len(),
        inputs[k as int].1,
    ensures
        phase_after(phase, inputs, j) == LoopPhase::Finished,
    decreases j - k,
{
    if j == k + 1 {
        lemma_trace_index(phase, inputs, k);
    } else {
        lemma_finished_after(phase, inputs, k, (j - 1) as nat);
        lemma_trace_index(phase, inputs, (j - 1) as nat);
    }
}

/// Once the loop reads the disconnect signal as raised, every later action is
/// `Exit`: no status record and no telemetry is sent for the rest of the session.
pub proof fn lemma_signal_ends_session(phase: LoopPhase, inputs: Seq<(bool, bool)>, k: nat)
    requires
        k < inputs.len(),
        inputs[k as int].1,
    ensures
        forall|j: int|
            k <= j < inputs.len() ==> #[trigger] loop_trace(phase, inputs)[j] == LoopAction::Exit,
{
    assert forall|j: int| k <= j < inputs.len() implies #[trigger] loop_trace(phase, inputs)[j]
        == LoopAction::Exit by {
        lemma_trace_index(phase, inputs, j as nat);
        if j > k {
            lemma_finished_after(phase, inputs, k, j as nat);
        }
    }
}

/// Subscribing again to the command topic, on any pass, changes nothing: a
/// subscribe that succeeds leads straight to the telemetry publish, as on the
/// first pass.
pub proof fn lemma_resubscribe_idempotent(phase: LoopPhase, inputs: Seq<(bool, bool)>, j: nat)
    requires
        j + 1 < inputs.len(),
        loop_trace(phase, inputs)[j as int] == LoopAction::Subscribe,
        inputs[j + 1int].0,
        !inputs[j + 1int].1,
    ensures
        loop_trace(phase, inputs)[j + 1int] == LoopAction::PublishTelemetry,
{
    lemma_trace_index(phase, inputs, j);
    lemma_trace_index(phase, inputs, j + 1);
    assert(phase_after(phase, inputs, j + 1) == LoopPhase::Subscribing);
}

spec fn is_quiet(phase: LoopPhase) -> bool {
    phase != LoopPhase::Entry && phase != LoopPhase::Publishing
}

proof fn lemma_quiet_no_reports(phase: LoopPhase, inputs: Seq<(bool, bool)>, connected: bool)
    requires
        is_quiet(phase),
    ensures
        reports_before_publish(loop_trace(phase, inputs), connected) == 0,
    decreases inputs.len(),
{
    if inputs.len() > 0 {
        let (next, action) = loop_step(phase, inputs[0].0, inputs[0].1);
        let rest = inputs.drop_first();
        let t = loop_trace(phase, inputs);
        assert(t == seq![action] + loop_trace(next, rest));
        assert(t.drop_first() =~= loop_trace(next, rest));
        if action != LoopAction::PublishTelemetry {
            lemma_quiet_no_reports(next, rest, connected);
        }
    }
}

/// After a telemetry publish fails, exactly one "disconnected" status record,
/// and no "connected" one, is sent before the next telemetry publish.
pub proof fn lemma_publish_failure_reported_once(inputs: Seq<(bool, bool)>)
    requires
        inputs.len() > 0,
        !inputs[0].0,
        !inputs[0].1,
    ensures
        reports_before_publish(loop_trace(LoopPhase::Publishing, inputs), false) == 1,
        reports_before_publish(loop_trace(LoopPhase::Publishing, inputs), true) == 0,
{
    let rest = inputs.drop_first();
    let t = loop_trace(LoopPhase::Publishing, inputs);
    assert(t.drop_first() =~= loop_trace(LoopPhase::ReportingFailure, rest));
    lemma_quiet_no_reports(LoopPhase::ReportingFailure, rest, false);
    lemma_quiet_no_reports(LoopPhase::ReportingFailure, rest, true);
}

/// A session that starts with the signal down sends exactly one "connected"
/// status record, and no "disconnected" one, before its first telemetry publish.
pub proof fn lemma_session_start_reported_once(inputs: Seq<(bool, bool)>)
    requires
        inputs.len() > 0,
        !inputs[0].1,
    ensures
        reports_before_publish(loop_trace(LoopPhase::Entry, inputs), true) == 1,
        reports_before_publish(loop_trace(LoopPhase::Entry, inputs), false) == 0,
{
    let rest = inputs.drop_first();
    let t = loop_trace(LoopPhase::Entry, inputs);
    assert(t.drop_first() =~= loop_trace(LoopPhase::Announced, rest));
    lemma_quiet_no_reports(LoopPhase::Announced, rest, false);
    lemma_quiet_no_reports(LoopPhase::Announced, rest, true);
}

} // verus!
