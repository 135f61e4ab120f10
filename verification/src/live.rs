//! The live notifier: one loop per subscriber that relays changes of the
//! play queue.
//!
//! The notifier holds one daemon connection for as long as its subscriber
//! stays. It waits on that connection for a change, sends the subscriber
//! one frame when the change concerns the queue, and waits again. The frame
//! carries no data: it tells the subscriber to fetch the queue anew. A
//! failure of the daemon connection or of a send closes the notifier
//! without a word to the subscriber.
//!
//! The program that owns the sockets performs the actions; [`Notifier::step`]
//! decides them.

use crate::daemon::Subsystem;
use vstd::prelude::*;
use vstd::string::StringExecFns;

verus! {

/// The state of a notifier.
#[derive(Clone, Copy, Debug, PartialEq, Eq, Structural)]
pub enum Notifier {
    /// No subscriber yet.
    Idle,
    /// Blocked on the daemon's change-wait.
    AwaitingChange,
    /// A frame is on its way to the subscriber.
    Notifying,
    /// Over: the daemon connection is released.
    Closed,
}

/// What the program reports to the notifier.
#[derive(Clone, Debug, PartialEq)]
pub enum Event {
    /// A subscriber connected.
    Subscribed,
    /// The change-wait returned: these subsystems changed.
    Changed(Vec<Subsystem>),
    /// The frame reached the subscriber.
    Sent,
    /// The frame could not be sent: the subscriber is gone.
    SendFailed,
    /// The daemon connection could not be opened, or it failed.
    DaemonFailed,
}

pub enum EventView {
    Subscribed,
    Changed(Seq<Subsystem>),
    Sent,
    SendFailed,
    DaemonFailed,
}

impl DeepView for Event {
    type V = EventView;

    open spec fn deep_view(&self) -> EventView {
        match self {
            Event::Subscribed => EventView::Subscribed,
            Event::Changed(subsystems) => EventView::Changed(subsystems@),
            Event::Sent => EventView::Sent,
            Event::SendFailed => EventView::SendFailed,
            Event::DaemonFailed => EventView::DaemonFailed,
        }
    }
}

impl View for Event {
    type V = EventView;

    open spec fn view(&self) -> EventView {
        self.deep_view()
    }
}

/// What the program does for the notifier.
#[derive(Clone, Copy, Debug, PartialEq, Eq, Structural)]
pub enum Action {
    /// Open the daemon connection of this subscriber and wait on it for a
    /// change of the queue.
    Open,
    /// Wait again, on the same connection.
    Wait,
    /// Send the subscriber one frame that holds the marker.
    Notify,
    /// End the loop and release the daemon connection.
    Release,
    /// Nothing: the notifier is closed.
    Nothing,
}

/// The text of every notification frame.
pub open spec fn marker_text() -> Seq<char> {
    "queue"@
}

/// The text of every notification frame.
pub fn marker() -> (text: String)
    ensures
        text@ == marker_text(),
{
    String::from_str("queue")
}

/// Whether a report of changed subsystems concerns the play queue.
pub open spec fn concerns_queue(subsystems: Seq<Subsystem>) -> bool {
    subsystems.contains(Subsystem::Queue)
}

/// Whether a report of changed subsystems concerns the play queue.
pub fn is_queue_change(subsystems: &Vec<Subsystem>) -> (relevant: bool)
    ensures
        relevant == concerns_queue(subsystems@),
{
    let mut i: usize = 0;
    while i < subsystems.len()
        invariant
            i <= subsystems.len(),
            forall|k: int| 0 <= k < i ==> subsystems@[k] != Subsystem::Queue,
        decreases subsystems.len() - i,
    {
        if subsystems[i] == Subsystem::Queue {
            return true;
        }
        i += 1;
    }
    false
}

impl EventView {
    /// Whether the event is a change that concerns the play queue.
    pub open spec fn is_queue_change(self) -> bool {
        self matches EventView::Changed(subsystems) && concerns_queue(subsystems)
    }
}

impl Notifier {
    /// The transition of the notifier: the state after an event, and the
    /// action that the event calls for.
    ///
    /// A failure of the daemon or of a send closes the notifier from every
    /// state, and so does an event that cannot follow the action last
    /// called for. A closed notifier stays closed and asks for nothing.
    pub open spec fn react(self, event: EventView) -> (Notifier, Action) {
        match (self, event) {
            (Notifier::Closed, _) => (Notifier::Closed, Action::Nothing),
            (Notifier::Idle, EventView::Subscribed) => (Notifier::AwaitingChange, Action::Open),
            (Notifier::AwaitingChange, EventView::Changed(subsystems)) => if concerns_queue(
                subsystems,
            ) {
                (Notifier::Notifying, Action::Notify)
            } else {
                (Notifier::AwaitingChange, Action::Wait)
            },
            (Notifier::Notifying, EventView::Sent) => (Notifier::AwaitingChange, Action::Wait),
            _ => (Notifier::Closed, Action::Release),
        }
    }

    /// A notifier without a subscriber.
    pub fn new() -> (notifier: Notifier)
        ensures
            notifier == Notifier::Idle,
    {
        Notifier::Idle
    }

    /// Takes an event and returns the next state with the action that the
    /// program performs.
    pub fn step(self, event: Event) -> (next: (Notifier, Action))
        ensures
            next == self.react(event@),
    {
        match (self, event) {
            (Notifier::Closed, _) => (Notifier::Closed, Action::Nothing),
            (Notifier::Idle, Event::Subscribed) => (Notifier::AwaitingChange, Action::Open),
            (Notifier::AwaitingChange, Event::Changed(subsystems)) => {
                if is_queue_change(&subsystems) {
                    (Notifier::Notifying, Action::Notify)
                } else {
                    (Notifier::AwaitingChange, Action::Wait)
                }
            },
            (Notifier::Notifying, Event::Sent) => (Notifier::AwaitingChange, Action::Wait),
            _ => (Notifier::Closed, Action::Release),
        }
    }
}

/// What a notifier did with a list of events.
pub struct Relay {
    /// The state after the last event.
    pub state: Notifier,
    /// The number of frames sent.
    pub frames: nat,
}

/// Feeds the events to the notifier one after the other and counts the
/// frames it asks for.
pub open spec fn relay(state: Notifier, events: Seq<EventView>) -> Relay
    decreases events.len(),
{
    if events.len() == 0 {
        Relay { state, frames: 0 }
    } else {
        let (next, action) = state.react(events[0]);
        let rest = relay(next, events.drop_first());
        Relay { state: rest.state, frames: rest.frames + if action is Notify { 1nat } else { 0nat } }
    }
}

/// The number of events that are changes of the play queue.
pub open spec fn queue_changes(events: Seq<EventView>) -> nat
    decreases events.len(),
{
    if events.len() == 0 {
        0
    } else {
        queue_changes(events.drop_first()) + if events[0].is_queue_change() { 1nat } else { 0nat }
    }
}

/// A frame is sent for a change of the queue that arrives while the
/// notifier waits, and for nothing else.
pub proof fn lemma_frame_per_queue_change(state: Notifier, event: EventView)
    ensures
        state.react(event).1 is Notify <==> state is AwaitingChange && event.is_queue_change(),
        state.react(event).1 is Notify ==> state.react(event).0 is Notifying,
{
}

/// Every failure closes the notifier, from every state, and a closed
/// notifier stays closed.
pub proof fn lemma_failure_closes(state: Notifier, event: EventView)
    ensures
        event is SendFailed || event is DaemonFailed ==> state.react(event).0 is Closed,
        state is Closed ==> state.react(event) == (Notifier::Closed, Action::Nothing),
        !(state is Closed) && state.react(event).0 is Closed ==> state.react(event).1 is Release,
{
}

/// A closed notifier sends nothing more.
pub proof fn lemma_closed_is_silent(events: Seq<EventView>)
    ensures
        relay(Notifier::Closed, events) == (Relay { state: Notifier::Closed, frames: 0 }),
    decreases events.len(),
{
    if events.len() > 0 {
        lemma_closed_is_silent(events.drop_first());
    }
}

/// The subscriber receives one frame for each change of the queue: as long
/// as the notifier has not closed, the number of frames is the number of
/// queue changes among the events, and changes of other subsystems add
/// none. A notifier that has closed sent a frame for each queue change it
/// saw before, so never more than there were.
pub proof fn lemma_frames_match_queue_changes(state: Notifier, events: Seq<EventView>)
    ensures
        relay(state, events).frames <= queue_changes(events),
        !(relay(state, events).state is Closed) ==> relay(state, events).frames == queue_changes(
            events,
        ),
    decreases events.len(),
{
    if events.len() > 0 {
        let (next, action) = state.react(events[0]);
        lemma_frames_match_queue_changes(next, events.drop_first());
        if next is Closed {
            lemma_closed_is_silent(events.drop_first());
        }
    }
}

/// The events of `rounds` changes of the queue, each with the frame for it
/// sent before the next.
pub open spec fn queue_rounds(rounds: nat) -> Seq<EventView>
    decreases rounds,
{
    if rounds == 0 {
        Seq::empty()
    } else {
        seq![EventView::Changed(seq![Subsystem::Queue]), EventView::Sent] + queue_rounds(
            (rounds - 1) as nat,
        )
    }
}

/// After `rounds` changes of the queue the subscriber has received exactly
/// `rounds` frames, and the notifier waits for the next change.
pub proof fn lemma_frame_for_each_round(rounds: nat)
    ensures
        relay(Notifier::AwaitingChange, queue_rounds(rounds)) == (Relay {
            state: Notifier::AwaitingChange,
            frames: rounds,
        }),
    decreases rounds,
{
    if rounds > 0 {
        let change = EventView::Changed(seq![Subsystem::Queue]);
        let events = queue_rounds(rounds);
        let rest = queue_rounds((rounds - 1) as nat);
        lemma_frame_for_each_round((rounds - 1) as nat);
        assert(seq![Subsystem::Queue][0] == Subsystem::Queue);
        assert(change.is_queue_change());
        let sending = events.drop_first();
        assert(events[0] == change);
        assert(sending[0] == EventView::Sent);
        assert(sending.drop_first() =~= rest);
        assert(Notifier::AwaitingChange.react(events[0]) == (Notifier::Notifying, Action::Notify));
        assert(Notifier::Notifying.react(sending[0]) == (Notifier::AwaitingChange, Action::Wait));
        assert(relay(Notifier::Notifying, sending) == relay(Notifier::AwaitingChange, rest));
    }
}

/// Events that are no changes of the queue produce no frame at all.
pub proof fn lemma_other_changes_are_silent(state: Notifier, events: Seq<EventView>)
    requires
        forall|i: int| 0 <= i < events.len() ==> !(#[trigger] events[i]).is_queue_change(),
    ensures
        relay(state, events).frames == 0,
    decreases events.len(),
{
    if events.len() > 0 {
        let (next, action) = state.react(events[0]);
        let rest = events.drop_first();
        assert(forall|i: int| 0 <= i < rest.len() ==> rest[i] == events[i + 1]);
        lemma_other_changes_are_silent(next, rest);
    }
}

} // verus!
