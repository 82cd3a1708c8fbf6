//! A webhook-driven contact-card responder: the trigger matcher, the card
//! generator, the outbound message and the rate-limited dispatcher's
//! decisions, each with its contract.

pub mod card;
pub mod config;
pub mod message;
pub mod trigger;
pub mod dispatch;
pub mod run;
