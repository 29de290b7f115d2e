//! Events pushed outward to the host application, and their encoding into
//! the callback invocations of the language bridge: which native callback
//! fires, with which plain arguments and which byte payload. The host only
//! performs the invocations; every payload byte is computed and specified
//! here.

use vstd::prelude::*;
use vstd::utf8::encode_utf8;

use crate::common::CallId;
use crate::events::{Hangup, IceCandidate, NetworkRoute};

verus! {

// ---------------------------------------------------------------------------
// Big-endian byte encodings.
// ---------------------------------------------------------------------------

/// The four bytes of `x`, most significant first.
pub open spec fn spec_u32_be(x: u32) -> Seq<u8> {
    seq![(x >> 24) as u8, (x >> 16) as u8, (x >> 8) as u8, x as u8]
}

/// The eight bytes of `x`, most significant first.
pub open spec fn spec_u64_be(x: u64) -> Seq<u8> {
    seq![
        (x >> 56) as u8,
        (x >> 48) as u8,
        (x >> 40) as u8,
        (x >> 32) as u8,
        (x >> 24) as u8,
        (x >> 16) as u8,
        (x >> 8) as u8,
        x as u8,
    ]
}

/// Two's-complement big-endian bytes of an `i32`.
pub open spec fn spec_i32_be(x: i32) -> Seq<u8> {
    spec_u32_be(x as u32)
}

/// Two's-complement big-endian bytes of an `i64`.
pub open spec fn spec_i64_be(x: i64) -> Seq<u8> {
    spec_u64_be(x as u64)
}

/// A byte string prefixed with its length as four big-endian bytes (the
/// length truncated to 32 bits, as the bridge format has it).
pub open spec fn length_prefixed(b: Seq<u8>) -> Seq<u8> {
    spec_u32_be(b.len() as u32) + b
}

pub fn push_u32_be(dst: &mut Vec<u8>, x: u32)
    ensures
        final(dst)@ == old(dst)@ + spec_u32_be(x),
{
    dst.push(#[verifier::truncate] ((x >> 24) as u8));
    dst.push(#[verifier::truncate] ((x >> 16) as u8));
    dst.push(#[verifier::truncate] ((x >> 8) as u8));
    dst.push(#[verifier::truncate] (x as u8));
    proof {
        assert(dst@ =~= old(dst)@ + spec_u32_be(x));
    }
}

pub fn push_u64_be(dst: &mut Vec<u8>, x: u64)
    ensures
        final(dst)@ == old(dst)@ + spec_u64_be(x),
{
    dst.push(#[verifier::truncate] ((x >> 56) as u8));
    dst.push(#[verifier::truncate] ((x >> 48) as u8));
    dst.push(#[verifier::truncate] ((x >> 40) as u8));
    dst.push(#[verifier::truncate] ((x >> 32) as u8));
    dst.push(#[verifier::truncate] ((x >> 24) as u8));
    dst.push(#[verifier::truncate] ((x >> 16) as u8));
    dst.push(#[verifier::truncate] ((x >> 8) as u8));
    dst.push(#[verifier::truncate] (x as u8));
    proof {
        assert(dst@ =~= old(dst)@ + spec_u64_be(x));
    }
}

pub fn push_i32_be(dst: &mut Vec<u8>, x: i32)
    ensures
        final(dst)@ == old(dst)@ + spec_i32_be(x),
{
    push_u32_be(dst, #[verifier::truncate] (x as u32));
}

pub fn push_i64_be(dst: &mut Vec<u8>, x: i64)
    ensures
        final(dst)@ == old(dst)@ + spec_i64_be(x),
{
    push_u64_be(dst, #[verifier::truncate] (x as u64));
}

/// Appends a copy of `src` to `dst`.
pub fn push_bytes(dst: &mut Vec<u8>, src: &[u8])
    ensures
        final(dst)@ == old(dst)@ + src@,
{
    let mut i: usize = 0;
    while i < src.len()
        invariant
            i <= src@.len(),
            dst@ == old(dst)@ + src@.take(i as int),
        decreases src@.len() - i,
    {
        let b = src[i];
        dst.push(b);
        proof {
            assert(old(dst)@ + src@.take(i as int) + seq![src@[i as int]] =~= old(dst)@
                + src@.take(i + 1));
        }
        i = i + 1;
    }
    proof {
        assert(src@.take(src@.len() as int) =~= src@);
    }
}

/// A fresh copy of a byte vector.
pub fn clone_bytes(src: &Vec<u8>) -> (r: Vec<u8>)
    ensures
        r@ == src@,
{
    let mut r: Vec<u8> = Vec::new();
    push_bytes(&mut r, src.as_slice());
    r
}

/// Serializes a string for the bridge: four big-endian length bytes, then
/// the UTF-8 bytes.
pub fn string_to_bytes(v: String) -> (r: Vec<u8>)
    ensures
        r@ == length_prefixed(encode_utf8(v@)),
{
    let mut answer: Vec<u8> = Vec::new();
    let b = v.as_str().as_bytes();
    let ul: u32 = #[verifier::truncate] (b.len() as u32);
    push_u32_be(&mut answer, ul);
    push_bytes(&mut answer, b);
    answer
}

// ---------------------------------------------------------------------------
// Events reported to the host application.
// ---------------------------------------------------------------------------

/// Media kind of a call.
#[derive(Clone, Copy, PartialEq, Eq, Structural, Debug)]
pub enum CallMediaType {
    Audio,
    Video,
}

impl CallMediaType {
    /// Integer form used across the bridge; an unknown code means audio.
    pub fn from_code(code: i32) -> (r: CallMediaType)
        ensures
            code == 1 ==> r is Video,
            code != 1 ==> r is Audio,
    {
        match code {
            1 => CallMediaType::Video,
            _ => CallMediaType::Audio,
        }
    }

    pub open spec fn spec_code(self) -> i32 {
        match self {
            CallMediaType::Audio => 0,
            CallMediaType::Video => 1,
        }
    }

    pub fn code(self) -> (r: i32)
        ensures
            r == self.spec_code(),
    {
        match self {
            CallMediaType::Audio => 0,
            CallMediaType::Video => 1,
        }
    }
}

/// Lifecycle of a call as reported to the application.
#[derive(Clone, Copy, PartialEq, Eq, Structural, Debug)]
pub enum CallState {
    Incoming(CallMediaType),
    Outgoing(CallMediaType),
    Ringing,
    Connected,
    Connecting,
    Concluded,
    Ended,
}

impl CallState {
    /// Index of the state in the bridge's status encoding.
    pub open spec fn spec_index_code(self) -> i32 {
        match self {
            CallState::Ringing => 1,
            CallState::Connected => 2,
            CallState::Connecting => 3,
            CallState::Concluded => 4,
            CallState::Incoming(_) => 5,
            CallState::Outgoing(_) => 6,
            CallState::Ended => 7,
        }
    }

    pub fn index_code(self) -> (r: i32)
        ensures
            r == self.spec_index_code(),
            1 <= r <= 7,
    {
        match self {
            CallState::Ringing => 1,
            CallState::Connected => 2,
            CallState::Connecting => 3,
            CallState::Concluded => 4,
            CallState::Incoming(_) => 5,
            CallState::Outgoing(_) => 6,
            CallState::Ended => 7,
        }
    }
}

impl Hangup {
    /// The hangup's wire code and the device it concerns (zero where none).
    pub open spec fn spec_type_code(self) -> i32 {
        match self {
            Hangup::Normal => 0,
            Hangup::AcceptedOnAnotherDevice(_) => 1,
            Hangup::DeclinedOnAnotherDevice(_) => 2,
            Hangup::BusyOnAnotherDevice(_) => 3,
            Hangup::NeedPermission => 4,
        }
    }

    pub open spec fn spec_device_id(self) -> u64 {
        match self {
            Hangup::AcceptedOnAnotherDevice(id) => id as u64,
            Hangup::DeclinedOnAnotherDevice(id) => id as u64,
            Hangup::BusyOnAnotherDevice(id) => id as u64,
            _ => 0,
        }
    }

    pub fn to_type_and_device_id(self) -> (r: (i32, u64))
        ensures
            r.0 == self.spec_type_code(),
            r.1 == self.spec_device_id(),
    {
        match self {
            Hangup::Normal => (0, 0),
            Hangup::AcceptedOnAnotherDevice(id) => (1, id as u64),
            Hangup::DeclinedOnAnotherDevice(id) => (2, id as u64),
            Hangup::BusyOnAnotherDevice(id) => (3, id as u64),
            Hangup::NeedPermission => (4, 0),
        }
    }
}

/// A signaling message to deliver to the remote peer.
#[derive(Clone, PartialEq, Debug)]
pub enum SignalMessage {
    /// An offer, as opaque bytes.
    Offer(Vec<u8>),
    /// An answer, as opaque bytes.
    Answer(Vec<u8>),
    /// A batch of candidates, each as opaque bytes.
    Ice(Vec<IceCandidate>),
    /// A hangup notice.
    Hangup(Hangup),
    /// A busy notice; the bridge has no encoding for it.
    Busy,
}

/// Urgency of an out-of-band call message.
#[derive(Clone, Copy, PartialEq, Eq, Structural, Debug)]
pub enum SignalingMessageUrgency {
    Droppable,
    HandleImmediately,
}

/// Connection state of a group call client.
#[derive(Clone, Copy, PartialEq, Eq, Structural, Debug)]
pub enum GroupConnectionState {
    NotConnected,
    Connecting,
    Connected,
    Reconnecting,
}

impl GroupConnectionState {
    pub open spec fn spec_code(self) -> i32 {
        match self {
            GroupConnectionState::NotConnected => 0,
            GroupConnectionState::Connecting => 1,
            GroupConnectionState::Connected => 2,
            GroupConnectionState::Reconnecting => 3,
        }
    }

    pub fn code(self) -> (r: i32)
        ensures
            r == self.spec_code(),
    {
        match self {
            GroupConnectionState::NotConnected => 0,
            GroupConnectionState::Connecting => 1,
            GroupConnectionState::Connected => 2,
            GroupConnectionState::Reconnecting => 3,
        }
    }
}

/// Update to an incoming group ring.
#[derive(Clone, Copy, PartialEq, Eq, Structural, Debug)]
pub enum RingUpdate {
    Requested,
    ExpiredRequest,
    AcceptedOnAnotherDevice,
    DeclinedOnAnotherDevice,
    BusyLocally,
    BusyOnAnotherDevice,
    CancelledByRinger,
}

impl RingUpdate {
    pub open spec fn spec_code(self) -> u8 {
        match self {
            RingUpdate::Requested => 0,
            RingUpdate::ExpiredRequest => 1,
            RingUpdate::AcceptedOnAnotherDevice => 2,
            RingUpdate::DeclinedOnAnotherDevice => 3,
            RingUpdate::BusyLocally => 4,
            RingUpdate::BusyOnAnotherDevice => 5,
            RingUpdate::CancelledByRinger => 6,
        }
    }

    pub fn code(self) -> (r: u8)
        ensures
            r == self.spec_code(),
    {
        match self {
            RingUpdate::Requested => 0,
            RingUpdate::ExpiredRequest => 1,
            RingUpdate::AcceptedOnAnotherDevice => 2,
            RingUpdate::DeclinedOnAnotherDevice => 3,
            RingUpdate::BusyLocally => 4,
            RingUpdate::BusyOnAnotherDevice => 5,
            RingUpdate::CancelledByRinger => 6,
        }
    }
}

/// One remote device in a group call.
#[derive(Clone, Copy, PartialEq, Eq, Structural, Debug)]
pub struct RemoteDeviceState {
    pub demux_id: u32,
}

/// What a peek of a group call found.
#[derive(Clone, PartialEq, Debug)]
pub struct PeekInfo {
    /// Opaque user id of each joined member.
    pub joined_members: Vec<Vec<u8>>,
    /// Opaque user id of the call's creator, where known.
    pub creator: Option<Vec<u8>>,
    pub era_id: Option<String>,
    pub device_count: i64,
}

/// A group call update pushed to the application.
pub enum GroupUpdate {
    RequestMembershipProof(u32),
    RequestGroupMembers(u32),
    ConnectionStateChanged(u32, GroupConnectionState),
    NetworkRouteChanged(u32, NetworkRoute),
    JoinStateChanged(u32),
    RemoteDeviceStatesChanged(u32, Vec<RemoteDeviceState>),
    PeekChanged { client_id: u32, peek_info: PeekInfo },
    PeekResult { request_id: u32, peek_result: Option<PeekInfo> },
    Ended(u32),
    Ring { group_id: Vec<u8>, ring_id: i64, sender: Vec<u8>, update: RingUpdate },
}

/// One HTTP header.
#[derive(Clone, PartialEq, Debug)]
pub struct HttpHeader {
    pub name: String,
    pub value: String,
}

/// An HTTP request the application must perform on the library's behalf.
pub struct HttpRequest {
    pub method: i8,
    pub url: String,
    pub headers: Vec<HttpHeader>,
    pub body: Option<Vec<u8>>,
}

/// Everything the library pushes to the host application goes through this
/// one queue of events.
pub enum Event {
    /// Deliver a signaling message to the given peer (all of its devices
    /// where the device id is `None`) for the given call.
    SendSignaling(String, Option<u32>, CallId, SignalMessage),
    /// Deliver an opaque call message to the given recipient.
    SendCallMessage {
        recipient_uuid: Vec<u8>,
        message: Vec<u8>,
        urgency: SignalingMessageUrgency,
    },
    /// Deliver an opaque call message to the other members of a group.
    SendCallMessageToGroup {
        group_id: Vec<u8>,
        message: Vec<u8>,
        urgency: SignalingMessageUrgency,
    },
    /// The call with the given peer changed state.
    CallState(String, CallId, CallState),
    /// The remote video became enabled or disabled.
    RemoteVideoStateChange(String, bool),
    /// The remote peer started or stopped sharing its screen.
    RemoteSharingScreenChange(String, bool),
    /// A group call update.
    GroupUpdate(GroupUpdate),
    /// The application should perform an HTTP request.
    SendHttpRequest { request_id: u32, request: HttpRequest },
    /// The network route of a direct call changed.
    NetworkRouteChange(String, NetworkRoute),
    /// Measured audio levels of a direct call.
    AudioLevels { peer_id: String, captured_level: u16, received_level: u16 },
}

// ---------------------------------------------------------------------------
// Callback descriptors: what the host must invoke for an event.
// ---------------------------------------------------------------------------

/// One native callback invocation, with plain arguments; the host performs
/// it without further computation.
pub enum Callback {
    /// The general status callback.
    Status { call_id: u64, device_id: u64, code: i32, detail: i32 },
    /// Deliver offer bytes to the peer.
    Offer(Vec<u8>),
    /// Deliver answer bytes to the peer.
    Answer(Vec<u8>),
    /// Deliver one candidate's bytes to the peer.
    IceUpdate(Vec<u8>),
    /// The generic payload callback, tagged with what the payload encodes.
    Generic { code: i32, payload: Vec<u8> },
    /// Perform an HTTP request; headers and body already serialized.
    HttpRequest { url: String, method: i8, request_id: i32, headers: Vec<u8>, body: Vec<u8> },
    /// Hand the remote device list (big-endian id bytes each) upward.
    RemoteDevicesChanged(Vec<Vec<u8>>),
    /// Report a changed group call peek.
    PeekChanged {
        joined_members: Vec<Vec<u8>>,
        creator: Option<Vec<u8>>,
        era_id: Option<String>,
        max_devices: i64,
        device_count: i64,
    },
    /// Answer an earlier peek request.
    PeekResponse {
        joined_members: Vec<Vec<u8>>,
        creator: Option<Vec<u8>>,
        era_id: Option<String>,
        max_devices: i64,
        device_count: i64,
    },
}

/// Mathematical image of a [`Callback`]: computed payloads as byte
/// sequences, passed-through values as themselves.
pub ghost enum CallbackModel {
    Status { call_id: u64, device_id: u64, code: i32, detail: i32 },
    Offer(Seq<u8>),
    Answer(Seq<u8>),
    IceUpdate(Seq<u8>),
    Generic { code: i32, payload: Seq<u8> },
    HttpRequest { url: Seq<char>, method: i8, request_id: i32, headers: Seq<u8>, body: Seq<u8> },
    RemoteDevicesChanged(Seq<Seq<u8>>),
    PeekChanged {
        joined_members: Seq<Vec<u8>>,
        creator: Option<Vec<u8>>,
        era_id: Option<String>,
        max_devices: i64,
        device_count: i64,
    },
    PeekResponse {
        joined_members: Seq<Vec<u8>>,
        creator: Option<Vec<u8>>,
        era_id: Option<String>,
        max_devices: i64,
        device_count: i64,
    },
}

impl View for Callback {
    type V = CallbackModel;

    open spec fn view(&self) -> CallbackModel {
        match self {
            Callback::Status { call_id, device_id, code, detail } => CallbackModel::Status {
                call_id: *call_id,
                device_id: *device_id,
                code: *code,
                detail: *detail,
            },
            Callback::Offer(b) => CallbackModel::Offer(b@),
            Callback::Answer(b) => CallbackModel::Answer(b@),
            Callback::IceUpdate(b) => CallbackModel::IceUpdate(b@),
            Callback::Generic { code, payload } => CallbackModel::Generic {
                code: *code,
                payload: payload@,
            },
            Callback::HttpRequest { url, method, request_id, headers, body } => {
                CallbackModel::HttpRequest {
                    url: url@,
                    method: *method,
                    request_id: *request_id,
                    headers: headers@,
                    body: body@,
                }
            },
            Callback::RemoteDevicesChanged(devices) => CallbackModel::RemoteDevicesChanged(
                Seq::new(devices@.len(), |i: int| devices@[i]@),
            ),
            Callback::PeekChanged { joined_members, creator, era_id, max_devices, device_count } => {
                CallbackModel::PeekChanged {
                    joined_members: joined_members@,
                    creator: *creator,
                    era_id: *era_id,
                    max_devices: *max_devices,
                    device_count: *device_count,
                }
            },
            Callback::PeekResponse { joined_members, creator, era_id, max_devices, device_count } => {
                CallbackModel::PeekResponse {
                    joined_members: joined_members@,
                    creator: *creator,
                    era_id: *era_id,
                    max_devices: *max_devices,
                    device_count: *device_count,
                }
            },
        }
    }
}

// ---------------------------------------------------------------------------
// The encoding itself.
// ---------------------------------------------------------------------------

/// Cap reported for group calls.
pub const MAX_GROUP_DEVICES: i64 = 50;

/// The payload sent with an opaque call message: recipient, then the
/// message length as four big-endian bytes, then the message.
pub open spec fn call_message_payload(recipient_uuid: Vec<u8>, message: Vec<u8>) -> Seq<u8> {
    recipient_uuid@ + spec_i32_be(message@.len() as i32) + message@
}

/// The payload sent with a group ring: group id (length-prefixed), ring id,
/// sender, and the update code.
pub open spec fn ring_payload(
    group_id: Vec<u8>,
    ring_id: i64,
    sender: Vec<u8>,
    update: RingUpdate,
) -> Seq<u8> {
    spec_i32_be(group_id@.len() as i32) + group_id@ + spec_i64_be(ring_id) + sender@ + seq![
        update.spec_code(),
    ]
}

/// Serialized headers of an HTTP request: each name and value in turn,
/// length-prefixed.
pub open spec fn headers_bytes_from(hs: Seq<HttpHeader>, i: int) -> Seq<u8>
    decreases hs.len() - i,
    when 0 <= i <= hs.len()
{
    if i >= hs.len() {
        Seq::empty()
    } else {
        length_prefixed(encode_utf8(hs[i].name@)) + length_prefixed(encode_utf8(hs[i].value@))
            + headers_bytes_from(hs, i + 1)
    }
}

pub open spec fn headers_bytes(hs: Seq<HttpHeader>) -> Seq<u8> {
    headers_bytes_from(hs, 0)
}

/// Serialized body of an HTTP request: its length as eight big-endian
/// bytes, then the bytes; an absent body has length zero.
pub open spec fn body_bytes(body: Option<Vec<u8>>) -> Seq<u8> {
    match body {
        Some(b) => spec_u64_be(b@.len() as u64) + b@,
        None => spec_u64_be(0),
    }
}

/// Whether an event's integer fields fit the bridge's encoding; the host
/// checks this before asking for the encoding.
pub open spec fn encodable(event: Event) -> bool {
    match event {
        Event::SendCallMessage { recipient_uuid, message, urgency } => message@.len()
            <= i32::MAX,
        Event::GroupUpdate(update) => match update {
            GroupUpdate::RequestMembershipProof(client_id) => client_id <= i32::MAX,
            GroupUpdate::RequestGroupMembers(client_id) => client_id <= i32::MAX,
            GroupUpdate::ConnectionStateChanged(client_id, _) => client_id <= i32::MAX,
            GroupUpdate::Ring { group_id, ring_id, sender, update } => group_id@.len()
                <= i32::MAX,
            _ => true,
        },
        _ => true,
    }
}

/// The callback invocations an event requires, in order. Events the bridge
/// has no encoding for require none.
pub open spec fn encode_spec(event: Event) -> Seq<CallbackModel> {
    match event {
        Event::SendSignaling(peer, device, call_id, message) => match message {
            SignalMessage::Offer(opaque) => seq![CallbackModel::Offer(opaque@)],
            SignalMessage::Answer(opaque) => seq![CallbackModel::Answer(opaque@)],
            SignalMessage::Ice(candidates) => Seq::new(
                candidates@.len(),
                |i: int| CallbackModel::IceUpdate(candidates@[i].opaque@),
            ),
            SignalMessage::Hangup(hangup) => seq![
                CallbackModel::Status {
                    call_id: call_id.id,
                    device_id: hangup.spec_device_id(),
                    code: 11,
                    detail: hangup.spec_type_code(),
                },
            ],
            SignalMessage::Busy => Seq::empty(),
        },
        Event::CallState(peer, call_id, state) => match state {
            CallState::Incoming(media_type) => seq![
                CallbackModel::Status {
                    call_id: call_id.id,
                    device_id: 1,
                    code: 0,
                    detail: media_type.spec_code(),
                },
            ],
            CallState::Outgoing(media_type) => seq![
                CallbackModel::Status {
                    call_id: call_id.id,
                    device_id: 1,
                    code: 1,
                    detail: media_type.spec_code(),
                },
            ],
            _ => seq![
                CallbackModel::Status {
                    call_id: call_id.id,
                    device_id: 1,
                    code: (10 * state.spec_index_code()) as i32,
                    detail: 0,
                },
            ],
        },
        Event::RemoteVideoStateChange(peer, enabled) => seq![
            CallbackModel::Status {
                call_id: 1,
                device_id: 1,
                code: 22,
                detail: if enabled { 31 } else { 32 },
            },
        ],
        Event::SendHttpRequest { request_id, request } => seq![
            CallbackModel::HttpRequest {
                url: request.url@,
                method: request.method,
                request_id: request_id as i32,
                headers: headers_bytes(request.headers@),
                body: body_bytes(request.body),
            },
        ],
        Event::SendCallMessage { recipient_uuid, message, urgency } => seq![
            CallbackModel::Generic {
                code: 5,
                payload: call_message_payload(recipient_uuid, message),
            },
        ],
        Event::GroupUpdate(update) => match update {
            GroupUpdate::RequestMembershipProof(client_id) => seq![
                CallbackModel::Generic { code: 3, payload: spec_i32_be(client_id as i32) },
            ],
            GroupUpdate::RequestGroupMembers(client_id) => seq![
                CallbackModel::Generic { code: 4, payload: spec_i32_be(client_id as i32) },
            ],
            GroupUpdate::ConnectionStateChanged(client_id, state) => seq![
                CallbackModel::Generic {
                    code: 2,
                    payload: spec_i32_be(client_id as i32) + spec_i32_be(state.spec_code()),
                },
            ],
            GroupUpdate::RemoteDeviceStatesChanged(client_id, devices) => seq![
                CallbackModel::RemoteDevicesChanged(
                    Seq::new(devices@.len(), |i: int| spec_u32_be(devices@[i].demux_id)),
                ),
            ],
            GroupUpdate::PeekChanged { client_id, peek_info } => seq![
                CallbackModel::PeekChanged {
                    joined_members: peek_info.joined_members@,
                    creator: peek_info.creator,
                    era_id: peek_info.era_id,
                    max_devices: MAX_GROUP_DEVICES,
                    device_count: peek_info.device_count,
                },
            ],
            GroupUpdate::PeekResult { request_id, peek_result } => match peek_result {
                Some(peek_info) => seq![
                    CallbackModel::PeekResponse {
                        joined_members: peek_info.joined_members@,
                        creator: peek_info.creator,
                        era_id: peek_info.era_id,
                        max_devices: MAX_GROUP_DEVICES,
                        device_count: peek_info.device_count,
                    },
                ],
                None => seq![
                    CallbackModel::PeekResponse {
                        joined_members: Seq::empty(),
                        creator: None,
                        era_id: None,
                        max_devices: MAX_GROUP_DEVICES,
                        device_count: 0,
                    },
                ],
            },
            GroupUpdate::Ring { group_id, ring_id, sender, update } => seq![
                CallbackModel::Generic {
                    code: 1,
                    payload: ring_payload(group_id, ring_id, sender, update),
                },
            ],
            // Not yet carried across the bridge.
            GroupUpdate::NetworkRouteChanged(_, _)
            | GroupUpdate::JoinStateChanged(_)
            | GroupUpdate::Ended(_) => Seq::empty(),
        },
        // The bridge has no encoding for these.
        Event::SendCallMessageToGroup { group_id, message, urgency } => Seq::empty(),
        Event::RemoteSharingScreenChange(_, _) => Seq::empty(),
        Event::NetworkRouteChange(_, _) => Seq::empty(),
        Event::AudioLevels { peer_id, captured_level, received_level } => Seq::empty(),
    }
}

/// Computes the callback invocations for one event: exactly those of
/// [`encode_spec`], in order.
pub fn encode_event(event: Event) -> (r: Vec<Callback>)
    requires
        encodable(event),
    ensures
        r@.len() == encode_spec(event).len(),
        forall|i: int| 0 <= i < r@.len() ==> (#[trigger] r@[i])@ == encode_spec(event)[i],
{
    let mut out: Vec<Callback> = Vec::new();
    match event {
        Event::SendSignaling(_peer, _device, call_id, message) => match message {
            SignalMessage::Offer(opaque) => {
                out.push(Callback::Offer(opaque));
            },
            SignalMessage::Answer(opaque) => {
                out.push(Callback::Answer(opaque));
            },
            SignalMessage::Ice(candidates) => {
                let ghost spec = encode_spec(event);
                let mut i: usize = 0;
                while i < candidates.len()
                    invariant
                        i <= candidates@.len(),
                        out@.len() == i,
                        spec == Seq::new(
                            candidates@.len(),
                            |k: int| CallbackModel::IceUpdate(candidates@[k].opaque@),
                        ),
                        forall|k: int| 0 <= k < i ==> (#[trigger] out@[k])@ == spec[k],
                    decreases candidates@.len() - i,
                {
                    out.push(Callback::IceUpdate(clone_bytes(&candidates[i].opaque)));
                    i = i + 1;
                }
            },
            SignalMessage::Hangup(hangup) => {
                let (hangup_type, device_id) = hangup.to_type_and_device_id();
                out.push(Callback::Status {
                    call_id: call_id.as_u64(),
                    device_id,
                    code: 11,
                    detail: hangup_type,
                });
            },
            SignalMessage::Busy => {},
        },
        Event::CallState(_peer, call_id, state) => match state {
            CallState::Incoming(media_type) => {
                out.push(Callback::Status {
                    call_id: call_id.as_u64(),
                    device_id: 1,
                    code: 0,
                    detail: media_type.code(),
                });
            },
            CallState::Outgoing(media_type) => {
                out.push(Callback::Status {
                    call_id: call_id.as_u64(),
                    device_id: 1,
                    code: 1,
                    detail: media_type.code(),
                });
            },
            _ => {
                let state_index = state.index_code();
                out.push(Callback::Status {
                    call_id: call_id.as_u64(),
                    device_id: 1,
                    code: 10 * state_index,
                    detail: 0,
                });
            },
        },
        Event::RemoteVideoStateChange(_peer, enabled) => {
            let detail: i32 = if enabled { 31 } else { 32 };
            out.push(Callback::Status { call_id: 1, device_id: 1, code: 22, detail });
        },
        Event::SendHttpRequest { request_id, request } => {
            let HttpRequest { method, url, headers, body } = request;
            let mut hdr: Vec<u8> = Vec::new();
            let mut i: usize = 0;
            while i < headers.len()
                invariant
                    i <= headers@.len(),
                    hdr@ + headers_bytes_from(headers@, i as int) == headers_bytes(headers@),
                decreases headers@.len() - i,
            {
                let ghost before = hdr@;
                let mut name_bytes = string_to_bytes(headers[i].name.clone());
                hdr.append(&mut name_bytes);
                let mut value_bytes = string_to_bytes(headers[i].value.clone());
                hdr.append(&mut value_bytes);
                proof {
                    let one = length_prefixed(encode_utf8(headers@[i as int].name@))
                        + length_prefixed(encode_utf8(headers@[i as int].value@));
                    assert(hdr@ =~= before + one);
                    assert(before + one + headers_bytes_from(headers@, i + 1) =~= before
                        + headers_bytes_from(headers@, i as int));
                }
                i = i + 1;
            }
            proof {
                assert(hdr@ + headers_bytes_from(headers@, headers@.len() as int) =~= hdr@);
            }
            let mut bodyb: Vec<u8> = Vec::new();
            match body {
                Some(b) => {
                    push_u64_be(&mut bodyb, #[verifier::truncate] (b.len() as u64));
                    push_bytes(&mut bodyb, b.as_slice());
                },
                None => {
                    push_u64_be(&mut bodyb, 0);
                },
            }
            out.push(Callback::HttpRequest {
                url,
                method,
                request_id: #[verifier::truncate] (request_id as i32),
                headers: hdr,
                body: bodyb,
            });
        },
        Event::SendCallMessage { recipient_uuid, message, urgency: _urgency } => {
            let mut payload: Vec<u8> = Vec::new();
            push_bytes(&mut payload, recipient_uuid.as_slice());
            let mlen: i32 = message.len() as i32;
            push_i32_be(&mut payload, mlen);
            push_bytes(&mut payload, message.as_slice());
            proof {
                assert(payload@ =~= call_message_payload(recipient_uuid, message));
            }
            out.push(Callback::Generic { code: 5, payload });
        },
        Event::GroupUpdate(update) => match update {
            GroupUpdate::RequestMembershipProof(client_id) => {
                let mut payload: Vec<u8> = Vec::new();
                push_i32_be(&mut payload, client_id as i32);
                out.push(Callback::Generic { code: 3, payload });
            },
            GroupUpdate::RequestGroupMembers(client_id) => {
                let mut payload: Vec<u8> = Vec::new();
                push_i32_be(&mut payload, client_id as i32);
                out.push(Callback::Generic { code: 4, payload });
            },
            GroupUpdate::ConnectionStateChanged(client_id, state) => {
                let mut payload: Vec<u8> = Vec::new();
                push_i32_be(&mut payload, client_id as i32);
                push_i32_be(&mut payload, state.code());
                out.push(Callback::Generic { code: 2, payload });
            },
            GroupUpdate::RemoteDeviceStatesChanged(_client_id, devices) => {
                let mut ids: Vec<Vec<u8>> = Vec::new();
                let mut i: usize = 0;
                while i < devices.len()
                    invariant
                        i <= devices@.len(),
                        ids@.len() == i,
                        forall|k: int|
                            0 <= k < i ==> (#[trigger] ids@[k])@ == spec_u32_be(
                                devices@[k].demux_id,
                            ),
                    decreases devices@.len() - i,
                {
                    let mut id_bytes: Vec<u8> = Vec::new();
                    push_u32_be(&mut id_bytes, devices[i].demux_id);
                    ids.push(id_bytes);
                    i = i + 1;
                }
                proof {
                    assert(Seq::new(ids@.len(), |k: int| ids@[k]@) =~= Seq::new(
                        devices@.len(),
                        |k: int| spec_u32_be(devices@[k].demux_id),
                    ));
                }
                out.push(Callback::RemoteDevicesChanged(ids));
            },
            GroupUpdate::PeekChanged { client_id: _client_id, peek_info } => {
                let PeekInfo { joined_members, creator, era_id, device_count } = peek_info;
                out.push(Callback::PeekChanged {
                    joined_members,
                    creator,
                    era_id,
                    max_devices: MAX_GROUP_DEVICES,
                    device_count,
                });
            },
            GroupUpdate::PeekResult { request_id: _request_id, peek_result } => match peek_result {
                Some(peek_info) => {
                    let PeekInfo { joined_members, creator, era_id, device_count } = peek_info;
                    out.push(Callback::PeekResponse {
                        joined_members,
                        creator,
                        era_id,
                        max_devices: MAX_GROUP_DEVICES,
                        device_count,
                    });
                },
                None => {
                    out.push(Callback::PeekResponse {
                        joined_members: Vec::new(),
                        creator: None,
                        era_id: None,
                        max_devices: MAX_GROUP_DEVICES,
                        device_count: 0,
                    });
                },
            },
            GroupUpdate::Ring { group_id, ring_id, sender, update } => {
                let mut payload: Vec<u8> = Vec::new();
                let glen: i32 = group_id.len() as i32;
                push_i32_be(&mut payload, glen);
                push_bytes(&mut payload, group_id.as_slice());
                push_i64_be(&mut payload, ring_id);
                push_bytes(&mut payload, sender.as_slice());
                payload.push(update.code());
                proof {
                    assert(payload@ =~= ring_payload(group_id, ring_id, sender, update));
                }
                out.push(Callback::Generic { code: 1, payload });
            },
            GroupUpdate::NetworkRouteChanged(_, _)
            | GroupUpdate::JoinStateChanged(_)
            | GroupUpdate::Ended(_) => {},
        },
        Event::SendCallMessageToGroup { .. } => {},
        Event::RemoteSharingScreenChange(_, _) => {},
        Event::NetworkRouteChange(_, _) => {},
        Event::AudioLevels { .. } => {},
    }
    out
}

} // verus!
