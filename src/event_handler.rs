use vstd::prelude::*;
use crate::results::GenericResult;

verus! {

/// A change in the state of the connection to the broker.
#[derive(Debug, Clone, Copy)]
pub struct SessionEvent {
    pub status: GenericResult,
}

/// A message that arrived on an open queue.
#[derive(Debug, Clone)]
pub struct MessageEvent {
    pub queue_uri: String,
    pub payload: Vec<u8>,
}

/// The broker's acknowledgement of one posted message, identified by the
/// correlation id that the post was given.
#[derive(Debug, Clone, Copy)]
pub struct AckEvent {
    pub correlation_id: u64,
    pub status: GenericResult,
}

/// Any event that a session delivers.
#[derive(Debug, Clone)]
pub enum Event {
    Session(SessionEvent),
    Message(MessageEvent),
    Ack(AckEvent),
}

/// Receives the events of a session. Each operation does nothing unless the
/// implementor says otherwise.
pub trait EventHandler {
    fn on_session_event(&self, event: &SessionEvent) {
    }

    fn on_message_event(&self, event: &MessageEvent) {
    }

    fn on_ack_event(&self, event: &AckEvent) {
    }
}

/// Basic handler for session events that does nothing.
pub struct SimpleEventHandler;

impl EventHandler for SimpleEventHandler {

}

/// Holds the handler of a session and forwards events to it while delivery
/// is enabled. Without a handler, events are accepted and dropped.
pub struct EventHandlerContext<H: EventHandler> {
    event_handler: Option<H>,
    delivering: bool,
}

impl<H: EventHandler> EventHandlerContext<H> {
    /// Whether events still reach the handler.
    pub closed spec fn is_delivering(&self) -> bool {
        self.delivering
    }

    /// Whether a handler of the application's own was given.
    pub closed spec fn has_handler(&self) -> bool {
        self.event_handler is Some
    }

    pub fn new(event_handler: Option<H>) -> (c: Self)
        ensures
            c.is_delivering(),
            c.has_handler() == event_handler is Some,
    {
        EventHandlerContext { event_handler, delivering: true }
    }

    /// Shuts off delivery for good: no event reaches the handler afterwards.
    pub fn disable(&mut self)
        ensures
            !final(self).is_delivering(),
            final(self).has_handler() == old(self).has_handler(),
    {
        self.delivering = false;
    }

    /// Forwards an event to the handler operation of its kind; says whether
    /// it was delivered.
    pub fn dispatch(&self, event: &Event) -> (delivered: bool)
        ensures
            delivered == self.is_delivering(),
    {
        match event {
            Event::Session(e) => self.on_session_event(e),
            Event::Message(e) => self.on_message_event(e),
            Event::Ack(e) => self.on_ack_event(e),
        }
    }

    /// Forwards a session event; says whether it was delivered.
    pub fn on_session_event(&self, event: &SessionEvent) -> (delivered: bool)
        ensures
            delivered == self.is_delivering(),
    {
        if !self.delivering {
            return false;
        }
        if let Some(h) = &self.event_handler {
            h.on_session_event(event);
        }
        true
    }

    /// Forwards a message event; says whether it was delivered.
    pub fn on_message_event(&self, event: &MessageEvent) -> (delivered: bool)
        ensures
            delivered == self.is_delivering(),
    {
        if !self.delivering {
            return false;
        }
        if let Some(h) = &self.event_handler {
            h.on_message_event(event);
        }
        true
    }

    /// Forwards an acknowledgement event; says whether it was delivered.
    pub fn on_ack_event(&self, event: &AckEvent) -> (delivered: bool)
        ensures
            delivered == self.is_delivering(),
    {
        if !self.delivering {
            return false;
        }
        if let Some(h) = &self.event_handler {
            h.on_ack_event(event);
        }
        true
    }
}

} // verus!
