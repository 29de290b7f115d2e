//! Plain value types shared by the connection protocol: call identity,
//! direction, lifecycle states with their guard predicates, media status
//! descriptions, and network-route telemetry.

use vstd::prelude::*;

verus! {

/// Unique identifier of one call, matched against incoming events to guard
/// against cross-talk from stale or superseded calls.
#[derive(Clone, Copy, PartialEq, Eq, Structural, Debug)]
pub struct CallId {
    pub id: u64,
}

impl CallId {
    pub fn new(id: u64) -> (r: CallId)
        ensures
            r.id == id,
    {
        CallId { id }
    }

    pub fn as_u64(&self) -> (r: u64)
        ensures
            r == self.id,
    {
        self.id
    }
}

/// Whether this endpoint placed the call or is answering it. Only the
/// recipient of a call acknowledges acceptance over the data channel.
#[derive(Clone, Copy, PartialEq, Eq, Structural, Debug)]
pub enum CallDirection {
    Incoming,
    Outgoing,
}

/// Lifecycle of one connection, ordered from creation to teardown.
///
/// The "before accepted" / "after accepted" split records whether the accept
/// handshake has completed; full activity (`ConnectedAndAccepted`) requires
/// both transport connectivity and the accept step.
#[derive(Clone, Copy, PartialEq, Eq, Structural, Debug)]
pub enum ConnectionState {
    NotYetStarted,
    Starting,
    IceGathering,
    ConnectingBeforeAccepted,
    ConnectingAfterAccepted,
    ConnectedBeforeAccepted,
    ConnectedAndAccepted,
    ReconnectingAfterAccepted,
    IceFailed,
    Terminating,
    Terminated,
}

impl ConnectionState {
    /// Teardown has begun; only privileged events are still handled.
    pub open spec fn spec_terminating_or_terminated(self) -> bool {
        self is Terminating || self is Terminated
    }

    pub fn terminating_or_terminated(self) -> (r: bool)
        ensures
            r == self.spec_terminating_or_terminated(),
    {
        matches!(self, ConnectionState::Terminating | ConnectionState::Terminated)
    }

    /// Transport negotiation is under way or has succeeded.
    pub open spec fn spec_connecting_or_connected(self) -> bool {
        ||| self is ConnectingBeforeAccepted
        ||| self is ConnectingAfterAccepted
        ||| self is ConnectedBeforeAccepted
        ||| self is ConnectedAndAccepted
        ||| self is ReconnectingAfterAccepted
    }

    pub fn connecting_or_connected(self) -> (r: bool)
        ensures
            r == self.spec_connecting_or_connected(),
    {
        matches!(
            self,
            ConnectionState::ConnectingBeforeAccepted
                | ConnectionState::ConnectingAfterAccepted
                | ConnectionState::ConnectedBeforeAccepted
                | ConnectionState::ConnectedAndAccepted
                | ConnectionState::ReconnectingAfterAccepted
        )
    }

    /// A usable network path exists now, or existed and is being re-established.
    pub open spec fn spec_connected_or_reconnecting(self) -> bool {
        ||| self is ConnectedBeforeAccepted
        ||| self is ConnectedAndAccepted
        ||| self is ReconnectingAfterAccepted
    }

    pub fn connected_or_reconnecting(self) -> (r: bool)
        ensures
            r == self.spec_connected_or_reconnecting(),
    {
        matches!(
            self,
            ConnectionState::ConnectedBeforeAccepted
                | ConnectionState::ConnectedAndAccepted
                | ConnectionState::ReconnectingAfterAccepted
        )
    }

    /// Remote candidates may be applied once the connection has started and
    /// negotiation has not failed or begun teardown.
    pub open spec fn spec_can_receive_ice_candidates(self) -> bool {
        ||| self is Starting
        ||| self is IceGathering
        ||| self.spec_connecting_or_connected()
    }

    pub fn can_receive_ice_candidates(self) -> (r: bool)
        ensures
            r == self.spec_can_receive_ice_candidates(),
    {
        matches!(
            self,
            ConnectionState::Starting
                | ConnectionState::IceGathering
                | ConnectionState::ConnectingBeforeAccepted
                | ConnectionState::ConnectingAfterAccepted
                | ConnectionState::ConnectedBeforeAccepted
                | ConnectionState::ConnectedAndAccepted
                | ConnectionState::ReconnectingAfterAccepted
        )
    }

    /// Local candidates exist only once gathering has begun.
    pub open spec fn spec_can_send_ice_candidates(self) -> bool {
        ||| self is IceGathering
        ||| self.spec_connecting_or_connected()
    }

    pub fn can_send_ice_candidates(self) -> (r: bool)
        ensures
            r == self.spec_can_send_ice_candidates(),
    {
        matches!(
            self,
            ConnectionState::IceGathering
                | ConnectionState::ConnectingBeforeAccepted
                | ConnectionState::ConnectingAfterAccepted
                | ConnectionState::ConnectedBeforeAccepted
                | ConnectionState::ConnectedAndAccepted
                | ConnectionState::ReconnectingAfterAccepted
        )
    }

    /// A hangup still goes out over the data channel even during teardown, so
    /// the remote side learns the call ended.
    pub open spec fn spec_can_send_hangup_via_rtp(self) -> bool {
        ||| self.spec_connecting_or_connected()
        ||| self is IceFailed
        ||| self.spec_terminating_or_terminated()
    }

    pub fn can_send_hangup_via_rtp(self) -> (r: bool)
        ensures
            r == self.spec_can_send_hangup_via_rtp(),
    {
        matches!(
            self,
            ConnectionState::ConnectingBeforeAccepted
                | ConnectionState::ConnectingAfterAccepted
                | ConnectionState::ConnectedBeforeAccepted
                | ConnectionState::ConnectedAndAccepted
                | ConnectionState::ReconnectingAfterAccepted
                | ConnectionState::IceFailed
                | ConnectionState::Terminating
                | ConnectionState::Terminated
        )
    }

    /// The local user may accept only once connectivity is up and the call is
    /// not yet accepted; accepting earlier would claim a path that does not
    /// exist yet.
    pub open spec fn spec_can_be_accepted_locally(self) -> bool {
        self is ConnectedBeforeAccepted
    }

    pub fn can_be_accepted_locally(self) -> (r: bool)
        ensures
            r == self.spec_can_be_accepted_locally(),
    {
        matches!(self, ConnectionState::ConnectedBeforeAccepted)
    }
}

} // verus!
