use vstd::prelude::*;

verus! {

/// A port's possible states (either unconnected, connected, disconnected, or closed).
///
/// A port starts unconnected; its state only moves forward: unconnected to
/// connected, connected to disconnected, and any state to closed, which is final.
#[derive(Clone, Copy, Debug, PartialEq, Eq, Structural, Hash, PartialOrd, Ord)]
pub enum PortState {
    Unconnected,
    Connected,
    Disconnected,
    Closed,
}

impl PortState {
    /// Whether a port may go from `self` to `next` in zero or more steps forward
    /// through the lifecycle.
    pub open spec fn may_become(self, next: PortState) -> bool {
        ||| self == next
        ||| next == PortState::Closed
        ||| (self == PortState::Unconnected && next != PortState::Unconnected)
        ||| (self == PortState::Connected && next == PortState::Disconnected)
    }

    /// Whether a channel is attached in this state, so that its capacity is known.
    pub open spec fn has_channel(self) -> bool {
        self == PortState::Connected || self == PortState::Disconnected
    }

    /// The state that a port stored as `self` reports, given whether its peer has
    /// gone away: a connected port whose peer is gone reports disconnected.
    pub open spec fn spec_observed(self, peer_closed: bool) -> PortState {
        if self == PortState::Connected && peer_closed {
            PortState::Disconnected
        } else {
            self
        }
    }

    /// Returns the state that a port stored as `self` reports, given whether its
    /// peer has gone away.
    pub fn observed(&self, peer_closed: bool) -> (r: PortState)
        ensures
            r == self.spec_observed(peer_closed),
            self.may_become(r),
    {
        if *self == PortState::Connected && peer_closed {
            PortState::Disconnected
        } else {
            *self
        }
    }

    /// Checks whether the port state is currently unconnected.
    pub fn is_unconnected(&self) -> (r: bool)
        ensures
            r == (*self == PortState::Unconnected),
    {
        *self == PortState::Unconnected
    }

    /// Checks whether the port state is currently connected.
    pub fn is_connected(&self) -> (r: bool)
        ensures
            r == (*self == PortState::Connected),
    {
        *self == PortState::Connected
    }

    /// Checks whether the port state is currently disconnected.
    pub fn is_disconnected(&self) -> (r: bool)
        ensures
            r == (*self == PortState::Disconnected),
    {
        *self == PortState::Disconnected
    }

    /// Checks whether the port state is currently closed.
    pub fn is_closed(&self) -> (r: bool)
        ensures
            r == (*self == PortState::Closed),
    {
        *self == PortState::Closed
    }

    /// The lowercase name of this state.
    pub open spec fn spec_str(self) -> &'static str {
        match self {
            PortState::Unconnected => "unconnected",
            PortState::Connected => "connected",
            PortState::Disconnected => "disconnected",
            PortState::Closed => "closed",
        }
    }

    /// Returns the lowercase name of this state.
    pub fn as_str(&self) -> (r: &'static str)
        ensures
            r == self.spec_str(),
    {
        match self {
            PortState::Unconnected => "unconnected",
            PortState::Connected => "connected",
            PortState::Disconnected => "disconnected",
            PortState::Closed => "closed",
        }
    }
}

impl Default for PortState {
    fn default() -> (r: PortState)
        ensures
            r == PortState::Unconnected,
    {
        PortState::Unconnected
    }
}

/// Moving forward in the lifecycle is transitive, and nothing leaves the closed
/// state.
pub proof fn lemma_lifecycle_forward(a: PortState, b: PortState, c: PortState)
    requires
        a.may_become(b),
        b.may_become(c),
    ensures
        a.may_become(c),
        a == PortState::Closed ==> c == PortState::Closed,
        c == PortState::Unconnected ==> a == PortState::Unconnected,
{
}

} // verus!
