//! Events consumed by the connection state machine, and the side effects it
//! produces: tasks for the two background executors and immediate commands
//! for the owning connection.

use vstd::prelude::*;

use crate::common::CallId;

verus! {

/// Remote peer's description of its outgoing media (for example whether its
/// video is enabled), sent over the data channel.
#[derive(Clone, Copy, Debug)]
pub struct SenderStatus {
    pub video_enabled: Option<bool>,
    pub sharing_screen: Option<bool>,
    pub audio_enabled: Option<bool>,
}

impl SenderStatus {
    fn opt_bool_eq(a: Option<bool>, b: Option<bool>) -> (r: bool)
        ensures
            r == (a == b),
    {
        match (a, b) {
            (None, None) => true,
            (Some(x), Some(y)) => x == y,
            _ => false,
        }
    }
}

impl PartialEq for SenderStatus {
    fn eq(&self, other: &SenderStatus) -> (r: bool) {
        SenderStatus::opt_bool_eq(self.video_enabled, other.video_enabled)
            && SenderStatus::opt_bool_eq(self.sharing_screen, other.sharing_screen)
            && SenderStatus::opt_bool_eq(self.audio_enabled, other.audio_enabled)
    }
}

impl vstd::std_specs::cmp::PartialEqSpecImpl for SenderStatus {
    open spec fn obeys_eq_spec() -> bool {
        true
    }

    open spec fn eq_spec(&self, other: &SenderStatus) -> bool {
        *self == *other
    }
}

impl Default for SenderStatus {
    fn default() -> (r: SenderStatus)
        ensures
            r.video_enabled is None,
            r.sharing_screen is None,
            r.audio_enabled is None,
    {
        SenderStatus { video_enabled: None, sharing_screen: None, audio_enabled: None }
    }
}

/// A bitrate, in bits per second, used as the remote peer's requested cap on
/// what we send it.
#[derive(Clone, Copy, PartialEq, Eq, Structural, Debug)]
pub struct DataRate {
    pub bps: u64,
}

impl DataRate {
    pub fn from_bps(bps: u64) -> (r: DataRate)
        ensures
            r.bps == bps,
    {
        DataRate { bps }
    }
}

/// Application data-usage preference, relayed to the transport as a bitrate
/// adjustment.
#[derive(Clone, Copy, PartialEq, Eq, Structural, Debug)]
pub enum DataMode {
    VeryLow,
    Low,
    Normal,
}

impl DataMode {
    /// Decodes the integer form used across the language bridge; unknown
    /// codes fall back to `Normal`.
    pub fn from_i32(code: i32) -> (r: DataMode)
        ensures
            code == 0 ==> r is VeryLow,
            code == 1 ==> r is Low,
            code != 0 && code != 1 ==> r is Normal,
    {
        match code {
            0 => DataMode::VeryLow,
            1 => DataMode::Low,
            _ => DataMode::Normal,
        }
    }
}

/// How the network path between the peers is realized.
#[derive(Clone, Copy, PartialEq, Eq, Structural, Debug)]
pub enum NetworkAdapterType {
    Unknown,
    Ethernet,
    Wifi,
    Cellular,
    Vpn,
    Loopback,
}

/// Telemetry about the currently selected network path.
#[derive(Clone, Copy, PartialEq, Eq, Structural, Debug)]
pub struct NetworkRoute {
    pub local_adapter_type: NetworkAdapterType,
    pub local_adapter_type_under_vpn: NetworkAdapterType,
}

/// A remote hangup, with the device that caused it where that matters.
#[derive(Clone, Copy, PartialEq, Eq, Structural, Debug)]
pub enum Hangup {
    Normal,
    AcceptedOnAnotherDevice(u32),
    DeclinedOnAnotherDevice(u32),
    BusyOnAnotherDevice(u32),
    NeedPermission,
}

/// One transport candidate, carried as the opaque bytes the signaling layer
/// produced; the state machine forwards them without inspecting them.
#[derive(Clone, PartialEq, Eq, Debug)]
pub struct IceCandidate {
    pub opaque: Vec<u8>,
}

/// A batch of remote candidates received over signaling.
#[derive(Clone, PartialEq, Eq, Debug)]
pub struct Ice {
    pub candidates: Vec<IceCandidate>,
}

/// Handle standing for an incoming media stream surfaced by the transport;
/// the machine only carries it through to the connection.
#[derive(Clone, Copy, PartialEq, Eq, Structural, Debug)]
pub struct MediaStream {
    pub id: u64,
}

/// Inputs to the state machine, from the call layer and from the transport
/// observer layer, serialized into a single ordered stream.
pub enum ConnectionEvent {
    /// Remote candidates arrived over signaling; apply them to the transport.
    ReceivedIce(Ice),
    /// The remote peer hung up; surface it to the observer.
    ReceivedHangup(CallId, Hangup),
    /// Send a hangup message over the data channel, even during teardown.
    SendHangupViaRtpData(Hangup),
    /// The local user accepted the incoming call.
    Accept,
    /// The remote peer acknowledged acceptance over the data channel.
    ReceivedAcceptedViaRtpData(CallId),
    /// Remote sender-status message, with its sequence number.
    ReceivedSenderStatusViaRtpData(CallId, SenderStatus, u64),
    /// Remote receiver-status (bitrate cap) message, with its sequence number.
    ReceivedReceiverStatusViaRtpData(CallId, DataRate, u64),
    /// The application changed the local sender status; tell the peer.
    UpdateSenderStatus(SenderStatus),
    /// The application changed the data mode; adjust the outgoing bitrate.
    UpdateDataMode(DataMode),
    /// The transport produced local candidates to send over signaling.
    LocalIceCandidates(Vec<IceCandidate>),
    /// Transport connectivity was established.
    IceConnected,
    /// Transport negotiation failed for good.
    IceFailed,
    /// Transport connectivity was lost; reconnection may follow.
    IceDisconnected,
    /// The selected network path changed; pure telemetry, never state-gated.
    IceNetworkRouteChanged(NetworkRoute),
    /// A background task failed; route the error through the serialized loop.
    InternalError(anyhow::Error),
    /// The transport surfaced an incoming media stream.
    ReceivedIncomingMedia(MediaStream),
    /// Test barrier: confirm both executors have drained.
    Synchronize,
    /// Tear the machine down; the only path that releases its resources.
    Terminate,
}

impl ConnectionEvent {
    /// The event's name, as used in diagnostics.
    pub open spec fn spec_name(&self) -> Seq<char> {
        match self {
            ConnectionEvent::ReceivedIce(_) => "RemoteIceCandidates"@,
            ConnectionEvent::ReceivedHangup(_, _) => "RemoteHangup"@,
            ConnectionEvent::SendHangupViaRtpData(_) => "SendHangupViaRtpData"@,
            ConnectionEvent::Accept => "Accept"@,
            ConnectionEvent::ReceivedAcceptedViaRtpData(_) => "ReceivedAcceptedViaRtpData"@,
            ConnectionEvent::ReceivedSenderStatusViaRtpData(_, _, _) => "ReceivedSenderStatusViaRtpData"@,
            ConnectionEvent::ReceivedReceiverStatusViaRtpData(_, _, _) => "ReceivedReceiverStatusViaRtpData"@,
            ConnectionEvent::UpdateSenderStatus(_) => "UpdateSenderStatus"@,
            ConnectionEvent::UpdateDataMode(_) => "UpdateDataMode"@,
            ConnectionEvent::LocalIceCandidates(_) => "LocalIceCandidates"@,
            ConnectionEvent::IceConnected => "IceConnected"@,
            ConnectionEvent::IceFailed => "IceConnectionFailed"@,
            ConnectionEvent::IceDisconnected => "IceDisconnected"@,
            ConnectionEvent::IceNetworkRouteChanged(_) => "IceNetworkRouteChanged"@,
            ConnectionEvent::InternalError(_) => "InternalError"@,
            ConnectionEvent::ReceivedIncomingMedia(_) => "ReceivedIncomingMedia"@,
            ConnectionEvent::Synchronize => "Synchronize"@,
            ConnectionEvent::Terminate => "Terminate"@,
        }
    }

    /// Diagnostic name of the event, for the host application's logging.
    pub fn name(&self) -> (r: &'static str)
        ensures
            r@ == self.spec_name(),
    {
        match self {
            ConnectionEvent::ReceivedIce(_) => "RemoteIceCandidates",
            ConnectionEvent::ReceivedHangup(_, _) => "RemoteHangup",
            ConnectionEvent::SendHangupViaRtpData(_) => "SendHangupViaRtpData",
            ConnectionEvent::Accept => "Accept",
            ConnectionEvent::ReceivedAcceptedViaRtpData(_) => "ReceivedAcceptedViaRtpData",
            ConnectionEvent::ReceivedSenderStatusViaRtpData(_, _, _) => "ReceivedSenderStatusViaRtpData",
            ConnectionEvent::ReceivedReceiverStatusViaRtpData(_, _, _) => "ReceivedReceiverStatusViaRtpData",
            ConnectionEvent::UpdateSenderStatus(_) => "UpdateSenderStatus",
            ConnectionEvent::UpdateDataMode(_) => "UpdateDataMode",
            ConnectionEvent::LocalIceCandidates(_) => "LocalIceCandidates",
            ConnectionEvent::IceConnected => "IceConnected",
            ConnectionEvent::IceFailed => "IceConnectionFailed",
            ConnectionEvent::IceDisconnected => "IceDisconnected",
            ConnectionEvent::IceNetworkRouteChanged(_) => "IceNetworkRouteChanged",
            ConnectionEvent::InternalError(_) => "InternalError",
            ConnectionEvent::ReceivedIncomingMedia(_) => "ReceivedIncomingMedia",
            ConnectionEvent::Synchronize => "Synchronize",
            ConnectionEvent::Terminate => "Terminate",
        }
    }
}

/// Events surfaced to the application observer, always through the notify
/// executor so the observer callback never runs on the serialization thread.
#[derive(Clone, Copy, PartialEq, Debug)]
pub enum ObserverEvent {
    ReceivedHangup(Hangup),
    RemoteSenderStatusChanged(SenderStatus),
    IceNetworkRouteChanged(NetworkRoute),
}

/// Potentially slow protocol work, queued for the worker executor. The
/// executor re-checks that the connection is not terminating before doing
/// the work, and reports failures back as `ConnectionEvent::InternalError`.
#[derive(Clone, PartialEq, Debug)]
pub enum WorkerTask {
    /// Acknowledge acceptance to the caller over the data channel.
    SendAcceptedViaRtpData,
    /// Send a hangup message over the data channel.
    SendHangupViaRtpData(Hangup),
    /// Send the local sender status to the peer.
    UpdateSenderStatus(SenderStatus),
    /// Apply a data-mode change to the transport.
    UpdateDataMode(DataMode),
    /// Buffer local candidates for delivery over signaling.
    BufferLocalIceCandidates(Vec<IceCandidate>),
    /// Attach an incoming media stream to the connection.
    ConnectIncomingMedia(MediaStream),
}

/// Observer notifications, queued for the notify executor.
pub enum NotifyTask {
    ObserverEvent(ObserverEvent),
    /// Surface an internal failure through the observer's error path.
    InternalError(anyhow::Error),
}

/// Work the driver performs immediately on the owning connection, on the
/// serialization thread itself, before pulling the next event.
#[derive(PartialEq, Debug)]
pub enum Command {
    /// Apply remote candidates to the transport.
    HandleReceivedIce(Ice),
    /// Cap the outgoing bitrate at the remote peer's request.
    SetRemoteMaxBitrate(DataRate),
    /// Record the changed network path on the connection.
    SetNetworkRoute(NetworkRoute),
    /// Tell the owning connection that teardown bookkeeping is complete.
    NotifyTerminateComplete,
    /// Round-trip both executors, then wake the test barrier.
    Synchronize,
}

/// How one event was disposed of; distinctions beyond `Applied` exist for
/// diagnostics and match the logging policy of the protocol.
#[derive(Clone, Copy, PartialEq, Eq, Structural, Debug)]
pub enum Outcome {
    /// The event was acted on: state advanced and/or effects were issued.
    Applied,
    /// Expected redundant traffic, dropped silently.
    Ignored,
    /// The state cannot legally produce this event; dropped with a warning.
    Unexpected,
    /// The event names a call this connection does not own; dropped with a
    /// warning.
    WrongCall,
    /// Status message repeating the last sequence number: an expected
    /// retransmission, dropped silently.
    StaleRetransmit,
    /// Status message older than one already accepted, dropped with a
    /// reordering warning.
    StaleOutOfOrder,
    /// Dropped (with a debug note) because teardown has begun.
    DroppedWhileTerminating,
}

/// What one dispatch did: its disposition and the commands the driver must
/// run on the connection before the next event.
pub struct Dispatch {
    pub outcome: Outcome,
    pub commands: Vec<Command>,
}

/// Mathematical image of a [`Dispatch`].
pub ghost struct DispatchModel {
    pub outcome: Outcome,
    pub commands: Seq<Command>,
}

impl View for Dispatch {
    type V = DispatchModel;

    open spec fn view(&self) -> DispatchModel {
        DispatchModel { outcome: self.outcome, commands: self.commands@ }
    }
}

} // verus!
