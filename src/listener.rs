use vstd::prelude::*;

verus! {

/// An event of a messaging session, as the listener sees it.
#[derive(Clone, Copy, Debug, PartialEq, Eq, Structural)]
pub enum SessionEvent {
    BeforeConnect,
    Connected,
    Disconnected,
    Subscribed,
    Unsubscribed,
    Published,
    Received,
    Deleted,
    Error,
    Other,
}

/// A session's disconnect flag: raised once by the listener, never lowered.
/// A new session starts with a new signal.
pub struct DisconnectSignal {
    raised: bool,
}

impl DisconnectSignal {
    pub closed spec fn raised_spec(&self) -> bool {
        self.raised
    }

    pub fn new() -> (r: DisconnectSignal)
        ensures
            !r.raised_spec(),
    {
        DisconnectSignal { raised: false }
    }

    pub fn raise(&mut self)
        ensures
            final(self).raised_spec(),
    {
        self.raised = true;
    }

    pub fn is_raised(&self) -> (r: bool)
        ensures
            r == self.raised_spec(),
    {
        self.raised
    }
}

/// What the listener does after an event.
#[derive(Clone, Copy, Debug, PartialEq, Eq, Structural)]
pub enum ListenerStep {
    /// Read the next event.
    Continue,
    /// Stop reading: the session is over.
    Stop,
}

/// Reads a session's events and turns an explicit disconnect into the
/// session's disconnect signal. Every other event is informational.
pub struct EventListener {
    stopped: bool,
}

impl EventListener {
    pub closed spec fn stopped_spec(&self) -> bool {
        self.stopped
    }

    pub fn new() -> (r: EventListener)
        ensures
            !r.stopped_spec(),
    {
        EventListener { stopped: false }
    }

    pub fn is_stopped(&self) -> (r: bool)
        ensures
            r == self.stopped_spec(),
    {
        self.stopped
    }

    /// Handles one event. A disconnect raises the signal and stops the
    /// listener; any other event leaves both as they were. A stopped listener
    /// stays stopped and touches nothing.
    pub fn on_event(&mut self, event: SessionEvent, signal: &mut DisconnectSignal) -> (r:
        ListenerStep)
        ensures
            old(signal).raised_spec() ==> final(signal).raised_spec(),
            old(self).stopped_spec() ==> r == ListenerStep::Stop && *final(self) == *old(self)
                && *final(signal) == *old(signal),
            !old(self).stopped_spec() && event == SessionEvent::Disconnected ==> r
                == ListenerStep::Stop && final(self).stopped_spec() && final(signal).raised_spec(),
            !old(self).stopped_spec() && event != SessionEvent::Disconnected ==> r
                == ListenerStep::Continue && !final(self).stopped_spec() && *final(signal)
                == *old(signal),
    {
        if self.stopped {
            return ListenerStep::Stop;
        }
        match event {
            SessionEvent::Disconnected => {
                signal.raise();
                self.stopped = true;
                ListenerStep::Stop
            },
            _ => ListenerStep::Continue,
        }
    }

    /// The end of the event stream stops the listener without raising the signal.
    pub fn on_stream_closed(&mut self)
        ensures
            final(self).stopped_spec(),
    {
        self.stopped = true;
    }
}

/// Index of the first disconnect in `events`, or their number if there is none.
pub open spec fn first_disconnect(events: Seq<SessionEvent>) -> int
    decreases events.len(),
{
    if events.len() == 0 {
        0
    } else if events[0] == SessionEvent::Disconnected {
        0
    } else {
        1 + first_disconnect(events.drop_first())
    }
}

/// Runs a fresh listener over a finished stream of events. Returns how many
/// events it consumed: up to and including the first disconnect, or all of
/// them. The signal ends raised exactly when it was raised before or the
/// stream holds a disconnect.
pub fn drain(events: &Vec<SessionEvent>, signal: &mut DisconnectSignal) -> (consumed: usize)
    ensures
        events@.contains(SessionEvent::Disconnected) ==> consumed == first_disconnect(events@)
            + 1,
        !events@.contains(SessionEvent::Disconnected) ==> consumed == events@.len(),
        final(signal).raised_spec() == (old(signal).raised_spec() || events@.contains(
            SessionEvent::Disconnected,
        )),
{
    let mut listener = EventListener::new();
    let mut i: usize = 0;
    while i < events.len()
        invariant
            i <= events@.len(),
            !listener.stopped_spec(),
            forall|j: int| 0 <= j < i ==> events@[j] != SessionEvent::Disconnected,
            *signal == *old(signal),
        decreases events@.len() - i,
    {
        let step = listener.on_event(events[i], signal);
        if step == ListenerStep::Stop {
            proof {
                lemma_first_disconnect(events@, i as int);
            }
            return i + 1;
        }
        i = i + 1;
    }
    listener.on_stream_closed();
    proof {
        assert(!events@.contains(SessionEvent::Disconnected));
    }
    i
}

proof fn lemma_first_disconnect(events: Seq<SessionEvent>, i: int)
    requires
        0 <= i < events.len(),
        events[i] == SessionEvent::Disconnected,
        forall|j: int| 0 <= j < i ==> events[j] != SessionEvent::Disconnected,
    ensures
        first_disconnect(events) == i,
        events.contains(SessionEvent::Disconnected),
    decreases i,
{
    if i > 0 {
        lemma_first_disconnect(events.drop_first(), i - 1);
    }
}

} // verus!
