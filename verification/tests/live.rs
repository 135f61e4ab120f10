use jukebox_api::daemon::Subsystem;
use jukebox_api::live::{is_queue_change, marker, Action, Event, Notifier};

/// Runs a notifier over events and returns the final state with the actions.
fn run(start: Notifier, events: Vec<Event>) -> (Notifier, Vec<Action>) {
    let mut state = start;
    let mut actions = Vec::new();
    for event in events {
        let (next, action) = state.step(event);
        state = next;
        actions.push(action);
    }
    (state, actions)
}

fn frames(actions: &[Action]) -> usize {
    actions.iter().filter(|a| **a == Action::Notify).count()
}

#[test]
fn marker_is_the_fixed_text() {
    assert_eq!(marker(), "queue");
    assert_eq!(marker(), marker());
}

#[test]
fn subscriber_opens_one_connection() {
    assert_eq!(Notifier::new(), Notifier::Idle);
    assert_eq!(Notifier::new().step(Event::Subscribed), (Notifier::AwaitingChange, Action::Open));
}

#[test]
fn queue_change_sends_one_frame_then_waits() {
    let (state, actions) = run(
        Notifier::AwaitingChange,
        vec![Event::Changed(vec![Subsystem::Queue]), Event::Sent],
    );
    assert_eq!(state, Notifier::AwaitingChange);
    assert_eq!(actions, vec![Action::Notify, Action::Wait]);
}

#[test]
fn other_subsystems_send_nothing() {
    let (state, actions) = run(
        Notifier::AwaitingChange,
        vec![
            Event::Changed(vec![Subsystem::Player]),
            Event::Changed(vec![Subsystem::Mixer, Subsystem::Playlist]),
            Event::Changed(vec![]),
        ],
    );
    assert_eq!(state, Notifier::AwaitingChange);
    assert_eq!(actions, vec![Action::Wait, Action::Wait, Action::Wait]);
    assert_eq!(frames(&actions), 0);
}

#[test]
fn queue_among_several_subsystems_counts() {
    assert!(is_queue_change(&vec![Subsystem::Player, Subsystem::Queue]));
    assert!(is_queue_change(&vec![Subsystem::Queue]));
    assert!(!is_queue_change(&vec![Subsystem::Playlist, Subsystem::Database]));
    assert!(!is_queue_change(&vec![]));
}

#[test]
fn n_queue_changes_give_n_frames() {
    for n in [0usize, 1, 2, 7, 50] {
        let mut events = vec![Event::Subscribed];
        for round in 0..n {
            if round % 3 == 1 {
                events.push(Event::Changed(vec![Subsystem::Output]));
            }
            events.push(Event::Changed(vec![Subsystem::Queue]));
            events.push(Event::Sent);
        }
        let (state, actions) = run(Notifier::new(), events);
        assert_eq!(state, Notifier::AwaitingChange);
        assert_eq!(frames(&actions), n);
    }
}

#[test]
fn failed_send_closes_and_releases() {
    let (state, actions) = run(
        Notifier::AwaitingChange,
        vec![Event::Changed(vec![Subsystem::Queue]), Event::SendFailed],
    );
    assert_eq!(state, Notifier::Closed);
    assert_eq!(actions, vec![Action::Notify, Action::Release]);
}

#[test]
fn daemon_failure_closes_from_every_open_state() {
    for state in [Notifier::Idle, Notifier::AwaitingChange, Notifier::Notifying] {
        assert_eq!(state.step(Event::DaemonFailed), (Notifier::Closed, Action::Release));
        assert_eq!(state.step(Event::SendFailed), (Notifier::Closed, Action::Release));
    }
}

#[test]
fn closed_notifier_asks_for_nothing() {
    for event in [
        Event::Subscribed,
        Event::Changed(vec![Subsystem::Queue]),
        Event::Sent,
        Event::SendFailed,
        Event::DaemonFailed,
    ] {
        assert_eq!(Notifier::Closed.step(event), (Notifier::Closed, Action::Nothing));
    }
}

#[test]
fn no_frames_after_closing() {
    let (state, actions) = run(
        Notifier::new(),
        vec![
            Event::Subscribed,
            Event::Changed(vec![Subsystem::Queue]),
            Event::Sent,
            Event::DaemonFailed,
            Event::Changed(vec![Subsystem::Queue]),
            Event::Changed(vec![Subsystem::Queue]),
        ],
    );
    assert_eq!(state, Notifier::Closed);
    assert_eq!(frames(&actions), 1);
}

#[test]
fn event_out_of_turn_closes() {
    assert_eq!(Notifier::Idle.step(Event::Sent), (Notifier::Closed, Action::Release));
    assert_eq!(
        Notifier::Idle.step(Event::Changed(vec![Subsystem::Queue])),
        (Notifier::Closed, Action::Release)
    );
    assert_eq!(Notifier::AwaitingChange.step(Event::Sent), (Notifier::Closed, Action::Release));
    assert_eq!(
        Notifier::AwaitingChange.step(Event::Subscribed),
        (Notifier::Closed, Action::Release)
    );
    assert_eq!(
        Notifier::Notifying.step(Event::Changed(vec![Subsystem::Queue])),
        (Notifier::Closed, Action::Release)
    );
}
