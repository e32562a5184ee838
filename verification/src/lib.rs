//! Tracking of service status events across successive polls.
//!
//! A status source publishes a list of events, each open or resolved. This
//! library decides which of them deserve a notification when a fresh list
//! arrives, keeps the baseline of what was already seen, renders the message
//! that announces an event, and drives the fixed sequence of steps that one
//! poll goes through. Every function carries a contract that Verus proves.

pub mod decimal;
pub mod event;
pub mod laws;
pub mod notification;
pub mod poll;
pub mod record;
pub mod tracker;
pub mod translation;
