use vstd::prelude::*;

verus! {

/// A port's state transition events (either connect, message, or disconnect).
#[derive(Clone, Copy, Debug, PartialEq, Eq, Hash, PartialOrd, Ord)]
pub enum PortEvent<T> {
    Connect,
    Message(T),
    Disconnect,
}

impl<T> PortEvent<T> {
    /// Returns the message that this event carries, if it is a message event.
    pub fn message(&self) -> (r: Option<&T>)
        ensures
            r is Some <==> self is Message,
            r matches Some(m) ==> *self == PortEvent::Message(*m),
    {
        match self {
            PortEvent::Message(message) => Some(message),
            _ => None,
        }
    }

    /// Turns this event into the message it carries, if it is a message event.
    pub fn into_message(self) -> (r: Option<T>)
        ensures
            r is Some <==> self is Message,
            r matches Some(m) ==> self == PortEvent::Message(m),
    {
        match self {
            PortEvent::Message(message) => Some(message),
            _ => None,
        }
    }

    /// Checks whether the event is a connect event.
    pub fn is_connect(&self) -> (r: bool)
        ensures
            r == self is Connect,
    {
        matches!(self, PortEvent::Connect)
    }

    /// Checks whether the event is a message event.
    pub fn is_message(&self) -> (r: bool)
        ensures
            r == self is Message,
    {
        matches!(self, PortEvent::Message(_))
    }

    /// Checks whether the event is a disconnect event.
    pub fn is_disconnect(&self) -> (r: bool)
        ensures
            r == self is Disconnect,
    {
        matches!(self, PortEvent::Disconnect)
    }

    /// The lowercase name of this kind of event.
    pub open spec fn spec_str(self) -> &'static str {
        match self {
            PortEvent::Connect => "connect",
            PortEvent::Message(_) => "message",
            PortEvent::Disconnect => "disconnect",
        }
    }

    /// Returns the lowercase name of this kind of event.
    pub fn as_str(&self) -> (r: &'static str)
        ensures
            r == self.spec_str(),
    {
        match self {
            PortEvent::Connect => "connect",
            PortEvent::Message(_) => "message",
            PortEvent::Disconnect => "disconnect",
        }
    }
}

} // verus!
