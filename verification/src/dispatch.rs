//! The rate-limited dispatcher as a state machine: from a state and an event
//! to the next state and the action to carry out. Whoever runs it performs
//! the action and hands back the event that followed.

use vstd::prelude::*;
use vstd::string::*;
use crate::card::{card_text, generate_vcard, VCard};
use crate::config::{Config, DispatchPolicy};
use crate::message::{card_body, InboundMessage, InboundView, OutboundMessage, OutboundView, SendError};
use crate::trigger::{matches_trigger, trigger_matches};

verus! {

/// What the dispatcher is handling within one cycle.
#[derive(Debug, Clone, Copy, PartialEq, Eq, Structural)]
pub enum Stage {
    /// A send was handed out and has not come back.
    Sending,
    /// The pause that ends the cycle is running.
    Delaying,
}

/// The state of the dispatcher.
#[derive(Debug, Clone, Copy, PartialEq, Eq, Structural)]
pub enum DispatchState {
    /// Waiting on the queue.
    Idle,
    /// Handling one dequeued message, the pause after it included.
    Processing(Stage),
}

/// What happened outside the dispatcher.
#[derive(Debug)]
pub enum Event {
    /// The queue gave its next message.
    Dequeued(InboundMessage),
    /// The send that was handed out has ended.
    SendFinished(Result<(), SendError>),
    /// The pause is over.
    DelayElapsed,
    /// The queue is closed and empty.
    QueueClosed,
}

/// An event as plain values.
pub enum EventView {
    Dequeued(InboundView),
    SendFinished(Result<(), Seq<char>>),
    DelayElapsed,
    QueueClosed,
}

impl View for Event {
    type V = EventView;

    open spec fn view(&self) -> EventView {
        match self {
            Event::Dequeued(message) => EventView::Dequeued(message@),
            Event::SendFinished(outcome) => EventView::SendFinished(
                match outcome {
                    Ok(_) => Ok(()),
                    Err(e) => Err(e.detail@),
                },
            ),
            Event::DelayElapsed => EventView::DelayElapsed,
            Event::QueueClosed => EventView::QueueClosed,
        }
    }
}

/// What the dispatcher asks for next.
#[derive(Debug, Clone)]
pub enum Action {
    /// Wait for the next message of the queue.
    AwaitMessage,
    /// Send this message through the provider.
    Send(OutboundMessage),
    /// Pause for so many milliseconds.
    Sleep(u64),
    /// The queue is drained and closed: leave the loop.
    Stop,
    /// The event does not belong to the state: nothing changes.
    Ignore,
}

/// An action as plain values.
pub enum ActionView {
    AwaitMessage,
    Send(OutboundView),
    Sleep(u64),
    Stop,
    Ignore,
}

impl View for Action {
    type V = ActionView;

    open spec fn view(&self) -> ActionView {
        match self {
            Action::AwaitMessage => ActionView::AwaitMessage,
            Action::Send(message) => ActionView::Send(message@),
            Action::Sleep(millis) => ActionView::Sleep(*millis),
            Action::Stop => ActionView::Stop,
            Action::Ignore => ActionView::Ignore,
        }
    }
}

/// The dispatcher: the settings and the policy it decides by. It holds no
/// message and no queue.
#[derive(Debug, Clone)]
pub struct Dispatcher {
    pub config: Config,
    pub policy: DispatchPolicy,
}

/// What the dispatcher's decisions depend on, as plain values.
pub struct Rules {
    pub trigger: Seq<char>,
    pub channel: Seq<char>,
    pub recipient: Seq<char>,
    pub delay_millis: u64,
    pub sleep_every_cycle: bool,
}

impl View for Dispatcher {
    type V = Rules;

    open spec fn view(&self) -> Rules {
        Rules {
            trigger: self.config.trigger_word@,
            channel: self.config.whatsapp_phone_number_id@,
            recipient: self.config.recipient_phone_number@,
            delay_millis: self.policy.delay_millis,
            sleep_every_cycle: self.policy.sleep_every_cycle,
        }
    }
}

impl Rules {
    /// Whether a message fires the trigger.
    pub open spec fn fires(self, message: InboundView) -> bool {
        trigger_matches(message.text_or_empty(), self.trigger)
    }

    /// The message that answers a trigger: the card of the example contact,
    /// from the channel identity to the configured recipient.
    pub open spec fn answer(self) -> OutboundView {
        OutboundView {
            from: self.channel,
            to: self.recipient,
            body: card_body(card_text("John"@, "Doe"@, "1234567890"@)),
        }
    }
}

/// One transition of the dispatcher.
///
/// Idle, on a message: a send if the trigger fires; else the pause, if every
/// cycle pauses; else back to waiting. Idle, on a closed queue: stop. While a
/// send is out, its end, good or bad, starts the pause. The end of the pause
/// leads back to waiting. Any other pair changes nothing.
pub open spec fn spec_step(rules: Rules, state: DispatchState, event: EventView) -> (
    DispatchState,
    ActionView,
) {
    match (state, event) {
        (DispatchState::Idle, EventView::Dequeued(message)) => {
            if rules.fires(message) {
                (DispatchState::Processing(Stage::Sending), ActionView::Send(rules.answer()))
            } else if rules.sleep_every_cycle {
                (DispatchState::Processing(Stage::Delaying), ActionView::Sleep(rules.delay_millis))
            } else {
                (DispatchState::Idle, ActionView::AwaitMessage)
            }
        },
        (DispatchState::Idle, EventView::QueueClosed) => (DispatchState::Idle, ActionView::Stop),
        (DispatchState::Processing(Stage::Sending), EventView::SendFinished(_)) => (
            DispatchState::Processing(Stage::Delaying),
            ActionView::Sleep(rules.delay_millis),
        ),
        (DispatchState::Processing(Stage::Delaying), EventView::DelayElapsed) => (
            DispatchState::Idle,
            ActionView::AwaitMessage,
        ),
        _ => (state, ActionView::Ignore),
    }
}

impl Dispatcher {
    /// The state in which the dispatcher starts, and the action that starts
    /// its loop.
    pub fn start(&self) -> (first: (DispatchState, Action))
        ensures
            first.0 == DispatchState::Idle,
            first.1@ == ActionView::AwaitMessage,
    {
        (DispatchState::Idle, Action::AwaitMessage)
    }

    /// The answer to a trigger.
    fn answer(&self) -> (message: OutboundMessage)
        ensures
            message@ == self@.answer(),
    {
        let contact = VCard::example();
        let card = generate_vcard(&contact);
        OutboundMessage::with_card(
            &self.config,
            card.as_str(),
            self.config.recipient_phone_number.as_str(),
        )
    }

    /// What follows a dequeued message.
    fn on_message(&self, message: &InboundMessage) -> (next: (DispatchState, Action))
        ensures
            next.0 == spec_step(self@, DispatchState::Idle, EventView::Dequeued(message@)).0,
            next.1@ == spec_step(self@, DispatchState::Idle, EventView::Dequeued(message@)).1,
    {
        if matches_trigger(message.text_or_empty(), self.config.trigger_word.as_str()) {
            (DispatchState::Processing(Stage::Sending), Action::Send(self.answer()))
        } else if self.policy.sleep_every_cycle {
            (DispatchState::Processing(Stage::Delaying), Action::Sleep(self.policy.delay_millis))
        } else {
            (DispatchState::Idle, Action::AwaitMessage)
        }
    }

    /// Takes one event in one state, and gives the next state and the action
    /// to carry out.
    pub fn step(&self, state: DispatchState, event: &Event) -> (next: (DispatchState, Action))
        ensures
            next.0 == spec_step(self@, state, event@).0,
            next.1@ == spec_step(self@, state, event@).1,
    {
        match state {
            DispatchState::Idle => match event {
                Event::Dequeued(message) => self.on_message(message),
                Event::QueueClosed => (DispatchState::Idle, Action::Stop),
                _ => (state, Action::Ignore),
            },
            DispatchState::Processing(Stage::Sending) => match event {
                Event::SendFinished(_) => (
                    DispatchState::Processing(Stage::Delaying),
                    Action::Sleep(self.policy.delay_millis),
                ),
                _ => (state, Action::Ignore),
            },
            DispatchState::Processing(Stage::Delaying) => match event {
                Event::DelayElapsed => (DispatchState::Idle, Action::AwaitMessage),
                _ => (state, Action::Ignore),
            },
        }
    }
}

} // verus!
