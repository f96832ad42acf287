//! A moderation library for a chat platform: given one inbound reaction
//! event, it decides whether the reaction is a flag emoji posted in an
//! eligible channel, and if so asks for a compensating removal of that
//! emoji's reactions from the message.
//!
//! The decision pipeline (channel allow-list, emoji classification, the
//! removal request and its outcome) is verified here; the gateway
//! connection and the REST transport live outside the library.

pub mod action;
pub mod allowlist;
pub mod dispatch;
pub mod emoji;
pub mod policy;
