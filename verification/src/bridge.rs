//! Plain-value models of the objects exchanged with the host (Java) side of
//! the bridge: connections, call contexts, media streams, and the wire
//! format of group member lists.

use vstd::prelude::*;

use crate::errors::error_from_message;
use crate::events::MediaStream;

verus! {

/// One group member, as decoded from the bridge's member-list format.
#[derive(Clone, PartialEq, Eq, Debug)]
pub struct GroupMember {
    pub user_id: Vec<u8>,
    pub member_id: Vec<u8>,
}

/// Bytes of one member record in the serialized member list.
pub const GROUP_MEMBER_RECORD_BYTES: usize = 81;

/// Bytes of the user id at the start of each record.
pub const GROUP_MEMBER_USER_ID_BYTES: usize = 16;

/// Copies `v[start..end]` into a fresh vector.
fn copy_range(v: &Vec<u8>, start: usize, end: usize) -> (r: Vec<u8>)
    requires
        start <= end <= v@.len(),
    ensures
        r@ == v@.subrange(start as int, end as int),
{
    let mut r: Vec<u8> = Vec::new();
    let mut j: usize = start;
    while j < end
        invariant
            start <= j <= end <= v@.len(),
            r@ == v@.subrange(start as int, j as int),
        decreases end - j,
    {
        let b = v[j];
        r.push(b);
        proof {
            assert(v@.subrange(start as int, j as int).push(v@[j as int]) =~= v@.subrange(
                start as int,
                j + 1,
            ));
        }
        j = j + 1;
    }
    r
}

/// One decoded member lies at record `k` of the serialized bytes.
pub open spec fn member_at(bytes: Seq<u8>, member: GroupMember, k: int) -> bool {
    &&& member.user_id@ == bytes.subrange(81 * k, 81 * k + 16)
    &&& member.member_id@ == bytes.subrange(81 * k + 16, 81 * k + 81)
}

/// Decodes the bridge's serialized member list: consecutive 81-byte
/// records, each a 16-byte user id followed by a 65-byte member id.
/// Returns an error exactly when the input is not a whole number of
/// records.
pub fn deserialize_to_group_member_info(serialized_group_members: Vec<u8>) -> (r: Result<
    Vec<GroupMember>,
    anyhow::Error,
>)
    ensures
        r is Err <==> serialized_group_members@.len() % 81 != 0,
        r matches Ok(members) ==> {
            &&& members@.len() == serialized_group_members@.len() / 81
            &&& forall|k: int|
                0 <= k < members@.len() ==> member_at(
                    serialized_group_members@,
                    #[trigger] members@[k],
                    k,
                )
        },
{
    if serialized_group_members.len() % GROUP_MEMBER_RECORD_BYTES != 0 {
        return Err(error_from_message("Error deserializing groupmember"));
    }
    let total: usize = serialized_group_members.len() / GROUP_MEMBER_RECORD_BYTES;
    let mut group_members: Vec<GroupMember> = Vec::new();
    let mut c: usize = 0;
    while c < total
        invariant
            total == serialized_group_members@.len() / 81,
            serialized_group_members@.len() % 81 == 0,
            serialized_group_members@.len() <= usize::MAX,
            c <= total,
            group_members@.len() == c,
            forall|k: int|
                0 <= k < c ==> member_at(
                    serialized_group_members@,
                    #[trigger] group_members@[k],
                    k,
                ),
        decreases total - c,
    {
        proof {
            vstd::arithmetic::div_mod::lemma_fundamental_div_mod(
                serialized_group_members@.len() as int,
                81,
            );
            assert(serialized_group_members@.len() == 81 * total);
            assert(c * 81 + 81 <= 81 * total);
        }
        let start = c * GROUP_MEMBER_RECORD_BYTES;
        let user_id = copy_range(
            &serialized_group_members,
            start,
            start + GROUP_MEMBER_USER_ID_BYTES,
        );
        let member_id = copy_range(
            &serialized_group_members,
            start + GROUP_MEMBER_USER_ID_BYTES,
            start + GROUP_MEMBER_RECORD_BYTES,
        );
        group_members.push(GroupMember { user_id, member_id });
        c = c + 1;
    }
    Ok(group_members)
}

/// Transport negotiation service description handed over at call setup.
#[derive(Clone, PartialEq, Eq, Debug)]
pub struct IceServer {
    pub username: String,
    pub password: String,
    pub urls: Vec<String>,
}

impl IceServer {
    pub fn new(username: String, password: String, urls: Vec<String>) -> (r: IceServer)
        ensures
            r.username@ == username@,
            r.password@ == password@,
            r.urls == urls,
    {
        IceServer { username, password, urls }
    }
}

/// Handle standing for an audio track owned by the media engine.
#[derive(Clone, Copy, PartialEq, Eq, Structural, Debug)]
pub struct AudioTrack {
    pub id: u64,
}

/// Handle standing for a video track owned by the media engine.
#[derive(Clone, Copy, PartialEq, Eq, Structural, Debug)]
pub struct VideoTrack {
    pub id: u64,
}

/// Handle standing for the video sink the host renders incoming frames to.
#[derive(Clone, Copy, PartialEq, Eq, Structural, Debug)]
pub struct VideoSinkHandle {
    pub id: u64,
}

/// What one call needs from the host to set its connection up.
#[derive(Clone, PartialEq, Eq, Debug)]
pub struct JavaCallContext {
    pub hide_ip: bool,
    pub ice_server: IceServer,
    pub outgoing_audio_track: AudioTrack,
    pub outgoing_video_track: VideoTrack,
    pub incoming_video_sink: VideoSinkHandle,
}

impl JavaCallContext {
    pub fn new(
        hide_ip: bool,
        ice_server: IceServer,
        outgoing_audio_track: AudioTrack,
        outgoing_video_track: VideoTrack,
        incoming_video_sink: VideoSinkHandle,
    ) -> (r: JavaCallContext)
        ensures
            r.hide_ip == hide_ip,
            r.ice_server == ice_server,
            r.outgoing_audio_track == outgoing_audio_track,
            r.outgoing_video_track == outgoing_video_track,
            r.incoming_video_sink == incoming_video_sink,
    {
        JavaCallContext {
            hide_ip,
            ice_server,
            outgoing_audio_track,
            outgoing_video_track,
            incoming_video_sink,
        }
    }
}

/// The host-side connection object, held as the value the host knows it by.
#[derive(Clone, Copy, PartialEq, Eq, Structural, Debug)]
pub struct JDKConnection {
    jni_connection: i64,
}

impl View for JDKConnection {
    type V = i64;

    closed spec fn view(&self) -> i64 {
        self.jni_connection
    }
}

impl JDKConnection {
    pub fn new(jni_connection: i64) -> (r: JDKConnection)
        ensures
            r@ == jni_connection,
    {
        JDKConnection { jni_connection }
    }

    pub fn to_jni(&self) -> (r: i64)
        ensures
            r == self@,
    {
        self.jni_connection
    }
}

/// Incoming media as surfaced to the host; the host's rendering needs no
/// more than the fact of its arrival, so nothing of the stream is kept.
pub struct JavaMediaStream {}

impl JavaMediaStream {
    pub fn new(_incoming_media: MediaStream) -> JavaMediaStream {
        JavaMediaStream {  }
    }
}

} // verus!
