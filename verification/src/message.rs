//! The messages that go through the pipeline, and the webhook's intake.

use vstd::prelude::*;
use vstd::string::*;
use crate::config::Config;

verus! {

/// One inbound chat message, as the webhook received it.
#[derive(Debug, Clone)]
pub struct InboundMessage {
    pub sender: String,
    pub text: Option<String>,
}

/// An inbound message as plain values.
pub struct InboundView {
    pub sender: Seq<char>,
    pub text: Option<Seq<char>>,
}

impl InboundView {
    /// The text of the message; an absent text counts as the empty one.
    pub open spec fn text_or_empty(self) -> Seq<char> {
        match self.text {
            Some(t) => t,
            None => Seq::<char>::empty(),
        }
    }
}

impl View for InboundMessage {
    type V = InboundView;

    open spec fn view(&self) -> InboundView {
        InboundView {
            sender: self.sender@,
            text: match self.text {
                Some(t) => Some(t@),
                None => None,
            },
        }
    }
}

/// The payload of a webhook request was not a message.
#[derive(Debug, Clone, Copy, PartialEq, Eq, Structural)]
pub enum MalformedInput {
    /// The sender is absent or empty.
    MissingSender,
}

impl InboundMessage {
    /// Makes a message of the two fields of a payload. The sender is
    /// required and must not be empty; the text may be absent.
    pub fn from_payload(sender: Option<String>, text: Option<String>) -> (parsed: Result<
        InboundMessage,
        MalformedInput,
    >)
        ensures
            (sender is Some && sender->0@.len() > 0) ==> parsed is Ok && parsed->Ok_0.sender
                == sender->0 && parsed->Ok_0.text == text,
            !(sender is Some && sender->0@.len() > 0) ==> parsed == Err::<
                InboundMessage,
                MalformedInput,
            >(MalformedInput::MissingSender),
    {
        match sender {
            Some(sender) => {
                if sender.as_str().is_empty() {
                    Err(MalformedInput::MissingSender)
                } else {
                    Ok(InboundMessage { sender, text })
                }
            },
            None => Err(MalformedInput::MissingSender),
        }
    }

    /// The text of the message; an absent text counts as the empty one.
    pub fn text_or_empty(&self) -> (text: &str)
        ensures
            text@ == self@.text_or_empty(),
    {
        match &self.text {
            Some(t) => t.as_str(),
            None => {
                proof {
                    reveal_strlit("");
                    assert(""@ =~= Seq::<char>::empty());
                }
                ""
            },
        }
    }
}

/// One message for the provider to deliver.
#[derive(Debug, Clone)]
pub struct OutboundMessage {
    /// The channel identity that sends.
    pub from: String,
    /// The recipient.
    pub to: String,
    pub body: String,
}

/// An outbound message as plain values.
pub struct OutboundView {
    pub from: Seq<char>,
    pub to: Seq<char>,
    pub body: Seq<char>,
}

impl View for OutboundMessage {
    type V = OutboundView;

    open spec fn view(&self) -> OutboundView {
        OutboundView { from: self.from@, to: self.to@, body: self.body@ }
    }
}

/// The body of the message that carries a card: one line of introduction,
/// then the card.
pub open spec fn card_body(card: Seq<char>) -> Seq<char> {
    "Here is the contact vCard:\n"@ + card
}

impl OutboundMessage {
    /// The message that carries `card` from the configured channel identity
    /// to `recipient`.
    pub fn with_card(config: &Config, card: &str, recipient: &str) -> (message: OutboundMessage)
        ensures
            message@ == (OutboundView {
                from: config.whatsapp_phone_number_id@,
                to: recipient@,
                body: card_body(card@),
            }),
    {
        let mut body = String::from_str("Here is the contact vCard:\n");
        body.append(card);
        OutboundMessage {
            from: config.whatsapp_phone_number_id.clone(),
            to: String::from_str(recipient),
            body,
        }
    }
}

/// A send that the provider refused or could not carry out, with what it
/// reported.
#[derive(Debug, Clone)]
pub struct SendError {
    pub detail: String,
}

/// How the webhook's intake of one request ended.
#[derive(Debug, Clone, Copy, PartialEq, Eq, Structural)]
pub enum Intake {
    /// The message was put on the queue.
    Accepted,
    /// The payload was malformed; nothing was put on the queue.
    Malformed,
    /// The queue was full and refuses instead of waiting.
    Busy,
}

/// The HTTP status that answers an intake: 200 for an accepted message, 400
/// for a malformed payload, 503 for a full queue.
pub open spec fn spec_status(intake: Intake) -> u16 {
    match intake {
        Intake::Accepted => 200,
        Intake::Malformed => 400,
        Intake::Busy => 503,
    }
}

/// The plain-text body that goes with the status.
pub open spec fn spec_reply_text(intake: Intake) -> Seq<char> {
    match intake {
        Intake::Accepted => "Message processed"@,
        Intake::Malformed => "Malformed message"@,
        Intake::Busy => "Server busy"@,
    }
}

/// The HTTP response to one request: status and plain-text body.
pub fn reply_for(intake: Intake) -> (reply: (u16, String))
    ensures
        reply.0 == spec_status(intake),
        reply.1@ == spec_reply_text(intake),
{
    match intake {
        Intake::Accepted => (200, String::from_str("Message processed")),
        Intake::Malformed => (400, String::from_str("Malformed message")),
        Intake::Busy => (503, String::from_str("Server busy")),
    }
}

} // verus!
