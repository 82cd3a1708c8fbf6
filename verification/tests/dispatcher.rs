use vcard_dispatch::config::{Config, DispatchPolicy, OverflowPolicy};
use vcard_dispatch::dispatch::{Action, DispatchState, Dispatcher, Event, Stage};
use vcard_dispatch::message::{InboundMessage, SendError};

const ANSWER: &str =
    "Here is the contact vCard:\nBEGIN:VCARD\nVERSION:3.0\nN:Doe;John\nTEL;TYPE=CELL:1234567890\nEND:VCARD";

fn dispatcher(delay_millis: u64, sleep_every_cycle: bool) -> Dispatcher {
    let config = Config::from_settings(
        Some("key".to_string()),
        Some("url".to_string()),
        Some("447000".to_string()),
        Some("addcontact".to_string()),
        Some("4917".to_string()),
    )
    .unwrap();
    let policy = DispatchPolicy::new(delay_millis, sleep_every_cycle, 100, OverflowPolicy::Block).unwrap();
    Dispatcher { config, policy }
}

fn inbound(text: Option<&str>) -> Event {
    Event::Dequeued(InboundMessage { sender: "4915".to_string(), text: text.map(|t| t.to_string()) })
}

fn failed() -> Event {
    Event::SendFinished(Err(SendError { detail: "401 unauthorized".to_string() }))
}

fn is_await(a: &Action) -> bool {
    matches!(a, Action::AwaitMessage)
}

fn is_sleep(a: &Action, millis: u64) -> bool {
    matches!(a, Action::Sleep(m) if *m == millis)
}

fn is_answer(a: &Action) -> bool {
    matches!(a, Action::Send(m) if m.from == "447000" && m.to == "4917" && m.body == ANSWER)
}

/// Drives the dispatcher over the events and collects what it asked for.
fn drive(d: &Dispatcher, events: &[Event]) -> (DispatchState, Vec<Action>) {
    let (mut state, _) = d.start();
    let mut actions = Vec::new();
    for e in events {
        let (next, action) = d.step(state, e);
        state = next;
        actions.push(action);
    }
    (state, actions)
}

#[test]
fn dispatcher_starts_waiting() {
    let (state, action) = dispatcher(1000, true).start();
    assert_eq!(state, DispatchState::Idle);
    assert!(is_await(&action));
}

#[test]
fn matching_message_is_answered_with_the_card() {
    let d = dispatcher(1000, true);
    let (state, action) = d.step(DispatchState::Idle, &inbound(Some("Please ADDCONTACT now")));
    assert_eq!(state, DispatchState::Processing(Stage::Sending));
    assert!(is_answer(&action));
}

#[test]
fn whole_cycle_of_a_matching_message() {
    let d = dispatcher(1000, true);
    let (state, actions) = drive(
        &d,
        &[inbound(Some("addcontact")), Event::SendFinished(Ok(())), Event::DelayElapsed],
    );
    assert_eq!(state, DispatchState::Idle);
    assert_eq!(actions.len(), 3);
    assert!(is_answer(&actions[0]));
    assert!(is_sleep(&actions[1], 1000));
    assert!(is_await(&actions[2]));
}

#[test]
fn absent_text_sends_nothing_and_pauses_when_every_cycle_pauses() {
    let d = dispatcher(1000, true);
    let (state, actions) = drive(&d, &[inbound(None), Event::DelayElapsed]);
    assert_eq!(state, DispatchState::Idle);
    assert_eq!(actions.len(), 2);
    assert!(is_sleep(&actions[0], 1000));
    assert!(is_await(&actions[1]));
}

#[test]
fn absent_text_sends_nothing_and_does_not_pause_otherwise() {
    let d = dispatcher(1000, false);
    let (state, action) = d.step(DispatchState::Idle, &inbound(None));
    assert_eq!(state, DispatchState::Idle);
    assert!(is_await(&action));
}

#[test]
fn non_matching_text_sends_nothing() {
    let d = dispatcher(250, false);
    let (state, action) = d.step(DispatchState::Idle, &inbound(Some("hello there")));
    assert_eq!(state, DispatchState::Idle);
    assert!(is_await(&action));
    let d = dispatcher(250, true);
    let (state, action) = d.step(DispatchState::Idle, &inbound(Some("hello there")));
    assert_eq!(state, DispatchState::Processing(Stage::Delaying));
    assert!(is_sleep(&action, 250));
}

#[test]
fn failed_send_is_followed_by_the_pause_and_the_next_message() {
    let d = dispatcher(1000, false);
    let (state, actions) = drive(
        &d,
        &[inbound(Some("addcontact")), failed(), Event::DelayElapsed, inbound(Some("ADDCONTACT again"))],
    );
    assert_eq!(state, DispatchState::Processing(Stage::Sending));
    assert_eq!(actions.len(), 4);
    assert!(is_answer(&actions[0]));
    assert!(is_sleep(&actions[1], 1000));
    assert!(is_await(&actions[2]));
    assert!(is_answer(&actions[3]));
}

#[test]
fn messages_are_handled_in_the_order_given() {
    let d = dispatcher(7, false);
    let (state, actions) = drive(
        &d,
        &[
            inbound(Some("one")),
            inbound(Some("addcontact two")),
            Event::SendFinished(Ok(())),
            Event::DelayElapsed,
            inbound(None),
            inbound(Some("three addcontact")),
            failed(),
            Event::DelayElapsed,
        ],
    );
    assert_eq!(state, DispatchState::Idle);
    assert_eq!(actions.len(), 8);
    assert!(is_await(&actions[0]));
    assert!(is_answer(&actions[1]));
    assert!(is_sleep(&actions[2], 7));
    assert!(is_await(&actions[3]));
    assert!(is_await(&actions[4]));
    assert!(is_answer(&actions[5]));
    assert!(is_sleep(&actions[6], 7));
    assert!(is_await(&actions[7]));
}

#[test]
fn a_pause_lies_between_any_two_sends() {
    let d = dispatcher(1000, false);
    let events = [
        inbound(Some("addcontact")),
        inbound(Some("addcontact")),
        Event::DelayElapsed,
        Event::SendFinished(Ok(())),
        inbound(Some("addcontact")),
        Event::QueueClosed,
        Event::DelayElapsed,
        inbound(Some("addcontact")),
        failed(),
        Event::DelayElapsed,
        inbound(Some("addcontact")),
    ];
    let (_, actions) = drive(&d, &events);
    let sends: Vec<usize> =
        (0..actions.len()).filter(|i| matches!(actions[*i], Action::Send(_))).collect();
    assert_eq!(sends, vec![0, 7, 10]);
    for pair in sends.windows(2) {
        assert!((pair[0] + 1..pair[1]).any(|k| is_sleep(&actions[k], 1000)));
    }
}

#[test]
fn closed_queue_stops_the_loop() {
    let d = dispatcher(1000, true);
    let (state, action) = d.step(DispatchState::Idle, &Event::QueueClosed);
    assert_eq!(state, DispatchState::Idle);
    assert!(matches!(action, Action::Stop));
}

#[test]
fn events_out_of_turn_change_nothing() {
    let d = dispatcher(1000, true);
    let sending = DispatchState::Processing(Stage::Sending);
    let delaying = DispatchState::Processing(Stage::Delaying);
    for (state, event) in [
        (DispatchState::Idle, Event::DelayElapsed),
        (DispatchState::Idle, Event::SendFinished(Ok(()))),
        (sending, inbound(Some("addcontact"))),
        (sending, Event::DelayElapsed),
        (sending, Event::QueueClosed),
        (delaying, inbound(Some("addcontact"))),
        (delaying, failed()),
        (delaying, Event::QueueClosed),
    ] {
        let (next, action) = d.step(state, &event);
        assert_eq!(next, state);
        assert!(matches!(action, Action::Ignore));
    }
}
