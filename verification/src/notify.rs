//! Messages sent to the front end by operations that nobody awaits.

use vstd::prelude::*;
use crate::messages::{ERROR_EVENT, OK_EVENT};

verus! {

/// What travels with an event.
#[derive(Debug)]
pub enum Payload {
    /// No content: the event itself is the message. Sent as the number zero.
    Signal,
    /// A text.
    Text(String),
}

/// An event for the front end.
#[derive(Debug)]
pub struct Notification {
    pub event: &'static str,
    pub payload: Payload,
}

impl Notification {
    /// The event `name` without content.
    pub fn signal(name: &'static str) -> (notification: Notification)
        ensures
            notification.event@ == name@,
            notification.payload == Payload::Signal,
    {
        Notification { event: name, payload: Payload::Signal }
    }

    /// The event `name` carrying `text`.
    pub fn text(name: &'static str, text: String) -> (notification: Notification)
        ensures
            notification.event@ == name@,
            notification.payload == Payload::Text(text),
    {
        Notification { event: name, payload: Payload::Text(text) }
    }

    /// A success text.
    pub fn success(text: &str) -> (notification: Notification)
        ensures
            notification.reports(OK_EVENT@, text@),
    {
        Notification { event: OK_EVENT, payload: Payload::Text(text.to_owned()) }
    }

    /// A failure text.
    pub fn failure(text: String) -> (notification: Notification)
        ensures
            notification.reports(ERROR_EVENT@, text@),
    {
        Notification { event: ERROR_EVENT, payload: Payload::Text(text) }
    }

    /// The notification is the event `name` carrying exactly `text`.
    pub open spec fn reports(self, name: Seq<char>, text: Seq<char>) -> bool {
        &&& self.event@ == name
        &&& self.payload matches Payload::Text(content)
        &&& content@ == text
    }
}

} // verus!
