use tring::common::CallId;
use tring::events::Hangup;
use tring::report::{
    encode_event, string_to_bytes, Callback, CallMediaType, CallState, Event, GroupUpdate,
    HttpHeader, HttpRequest, PeekInfo, RemoteDeviceState, RingUpdate, SignalMessage,
    SignalingMessageUrgency,
};
use tring::events::IceCandidate;

fn peer() -> String {
    String::from("peer-1")
}

#[test]
fn string_serialization_is_length_prefixed() {
    let bytes = string_to_bytes(String::from("abc"));
    assert_eq!(bytes, vec![0, 0, 0, 3, 97, 98, 99]);
    assert_eq!(string_to_bytes(String::new()), vec![0, 0, 0, 0]);
}

#[test]
fn ringing_state_uses_status_callback() {
    let callbacks = encode_event(Event::CallState(peer(), CallId::new(5), CallState::Ringing));
    assert_eq!(callbacks.len(), 1);
    assert!(matches!(
        callbacks[0],
        Callback::Status { call_id: 5, device_id: 1, code: 10, detail: 0 }
    ));
}

#[test]
fn incoming_and_outgoing_states_carry_media_type() {
    let callbacks = encode_event(Event::CallState(
        peer(),
        CallId::new(5),
        CallState::Incoming(CallMediaType::Video),
    ));
    assert!(matches!(
        callbacks[0],
        Callback::Status { call_id: 5, device_id: 1, code: 0, detail: 1 }
    ));
    let callbacks = encode_event(Event::CallState(
        peer(),
        CallId::new(5),
        CallState::Outgoing(CallMediaType::Audio),
    ));
    assert!(matches!(
        callbacks[0],
        Callback::Status { call_id: 5, device_id: 1, code: 1, detail: 0 }
    ));
}

#[test]
fn hangup_signaling_reports_type_and_device() {
    let callbacks = encode_event(Event::SendSignaling(
        peer(),
        None,
        CallId::new(9),
        SignalMessage::Hangup(Hangup::AcceptedOnAnotherDevice(4)),
    ));
    assert_eq!(callbacks.len(), 1);
    assert!(matches!(
        callbacks[0],
        Callback::Status { call_id: 9, device_id: 4, code: 11, detail: 1 }
    ));
}

#[test]
fn offer_answer_and_ice_pass_opaque_bytes() {
    let callbacks = encode_event(Event::SendSignaling(
        peer(),
        Some(2),
        CallId::new(1),
        SignalMessage::Offer(vec![10, 20]),
    ));
    assert_eq!(callbacks.len(), 1);
    assert!(matches!(&callbacks[0], Callback::Offer(b) if *b == vec![10, 20]));

    let callbacks = encode_event(Event::SendSignaling(
        peer(),
        None,
        CallId::new(1),
        SignalMessage::Answer(vec![30]),
    ));
    assert!(matches!(&callbacks[0], Callback::Answer(b) if *b == vec![30]));

    let callbacks = encode_event(Event::SendSignaling(
        peer(),
        None,
        CallId::new(1),
        SignalMessage::Ice(vec![
            IceCandidate { opaque: vec![1] },
            IceCandidate { opaque: vec![2, 3] },
        ]),
    ));
    assert_eq!(callbacks.len(), 2);
    assert!(matches!(&callbacks[0], Callback::IceUpdate(b) if *b == vec![1]));
    assert!(matches!(&callbacks[1], Callback::IceUpdate(b) if *b == vec![2, 3]));
}

#[test]
fn busy_signaling_has_no_encoding() {
    let callbacks = encode_event(Event::SendSignaling(
        peer(),
        None,
        CallId::new(1),
        SignalMessage::Busy,
    ));
    assert!(callbacks.is_empty());
}

#[test]
fn call_message_payload_layout() {
    let callbacks = encode_event(Event::SendCallMessage {
        recipient_uuid: vec![0xAA, 0xBB],
        message: vec![9, 9, 9],
        urgency: SignalingMessageUrgency::Droppable,
    });
    assert_eq!(callbacks.len(), 1);
    assert!(matches!(
        &callbacks[0],
        Callback::Generic { code: 5, payload } if *payload == vec![0xAA, 0xBB, 0, 0, 0, 3, 9, 9, 9]
    ));
}

#[test]
fn membership_proof_and_group_member_requests() {
    let callbacks = encode_event(Event::GroupUpdate(GroupUpdate::RequestMembershipProof(258)));
    assert!(matches!(
        &callbacks[0],
        Callback::Generic { code: 3, payload } if *payload == vec![0, 0, 1, 2]
    ));
    let callbacks = encode_event(Event::GroupUpdate(GroupUpdate::RequestGroupMembers(1)));
    assert!(matches!(
        &callbacks[0],
        Callback::Generic { code: 4, payload } if *payload == vec![0, 0, 0, 1]
    ));
}

#[test]
fn group_connection_state_payload() {
    let callbacks = encode_event(Event::GroupUpdate(GroupUpdate::ConnectionStateChanged(
        7,
        tring::report::GroupConnectionState::Connected,
    )));
    assert!(matches!(
        &callbacks[0],
        Callback::Generic { code: 2, payload } if *payload == vec![0, 0, 0, 7, 0, 0, 0, 2]
    ));
}

#[test]
fn ring_payload_layout() {
    let callbacks = encode_event(Event::GroupUpdate(GroupUpdate::Ring {
        group_id: vec![5, 6],
        ring_id: 258,
        sender: vec![7],
        update: RingUpdate::Requested,
    }));
    assert_eq!(callbacks.len(), 1);
    let expected: Vec<u8> = vec![
        0, 0, 0, 2, // group id length
        5, 6, // group id
        0, 0, 0, 0, 0, 0, 1, 2, // ring id
        7, // sender
        0, // update code
    ];
    assert!(matches!(
        &callbacks[0],
        Callback::Generic { code: 1, payload } if *payload == expected
    ));
}

#[test]
fn http_request_serializes_headers_and_body() {
    let callbacks = encode_event(Event::SendHttpRequest {
        request_id: 12,
        request: HttpRequest {
            method: 1,
            url: String::from("https://example.invalid"),
            headers: vec![HttpHeader { name: String::from("a"), value: String::from("bc") }],
            body: Some(vec![1, 2]),
        },
    });
    assert_eq!(callbacks.len(), 1);
    match &callbacks[0] {
        Callback::HttpRequest { url, method, request_id, headers, body } => {
            assert_eq!(url, "https://example.invalid");
            assert_eq!(*method, 1);
            assert_eq!(*request_id, 12);
            assert_eq!(*headers, vec![0, 0, 0, 1, 97, 0, 0, 0, 2, 98, 99]);
            assert_eq!(*body, vec![0, 0, 0, 0, 0, 0, 0, 2, 1, 2]);
        },
        _ => panic!("expected an HTTP request callback"),
    }
}

#[test]
fn http_request_without_body_sends_zero_length() {
    let callbacks = encode_event(Event::SendHttpRequest {
        request_id: 1,
        request: HttpRequest {
            method: 0,
            url: String::from("u"),
            headers: vec![],
            body: None,
        },
    });
    match &callbacks[0] {
        Callback::HttpRequest { headers, body, .. } => {
            assert!(headers.is_empty());
            assert_eq!(*body, vec![0, 0, 0, 0, 0, 0, 0, 0]);
        },
        _ => panic!("expected an HTTP request callback"),
    }
}

#[test]
fn remote_video_state_change_codes() {
    let callbacks = encode_event(Event::RemoteVideoStateChange(peer(), true));
    assert!(matches!(
        callbacks[0],
        Callback::Status { call_id: 1, device_id: 1, code: 22, detail: 31 }
    ));
    let callbacks = encode_event(Event::RemoteVideoStateChange(peer(), false));
    assert!(matches!(
        callbacks[0],
        Callback::Status { call_id: 1, device_id: 1, code: 22, detail: 32 }
    ));
}

#[test]
fn remote_devices_become_big_endian_ids() {
    let callbacks = encode_event(Event::GroupUpdate(GroupUpdate::RemoteDeviceStatesChanged(
        1,
        vec![RemoteDeviceState { demux_id: 0x01020304 }, RemoteDeviceState { demux_id: 5 }],
    )));
    assert_eq!(callbacks.len(), 1);
    assert!(matches!(
        &callbacks[0],
        Callback::RemoteDevicesChanged(ids) if *ids == vec![vec![1, 2, 3, 4], vec![0, 0, 0, 5]]
    ));
}

#[test]
fn peek_result_without_info_reports_empty_call() {
    let callbacks = encode_event(Event::GroupUpdate(GroupUpdate::PeekResult {
        request_id: 3,
        peek_result: None,
    }));
    match &callbacks[0] {
        Callback::PeekResponse { joined_members, creator, era_id, max_devices, device_count } => {
            assert!(joined_members.is_empty());
            assert!(creator.is_none());
            assert!(era_id.is_none());
            assert_eq!(*max_devices, 50);
            assert_eq!(*device_count, 0);
        },
        _ => panic!("expected a peek response callback"),
    }
}

#[test]
fn peek_changed_passes_members_through() {
    let callbacks = encode_event(Event::GroupUpdate(GroupUpdate::PeekChanged {
        client_id: 1,
        peek_info: PeekInfo {
            joined_members: vec![vec![1], vec![2]],
            creator: Some(vec![1]),
            era_id: Some(String::from("era")),
            device_count: 2,
        },
    }));
    match &callbacks[0] {
        Callback::PeekChanged { joined_members, creator, era_id, max_devices, device_count } => {
            assert_eq!(*joined_members, vec![vec![1], vec![2]]);
            assert_eq!(*creator, Some(vec![1]));
            assert_eq!(era_id.as_deref(), Some("era"));
            assert_eq!(*max_devices, 50);
            assert_eq!(*device_count, 2);
        },
        _ => panic!("expected a peek changed callback"),
    }
}

#[test]
fn events_without_bridge_encoding_require_no_callbacks() {
    assert!(encode_event(Event::AudioLevels {
        peer_id: peer(),
        captured_level: 3,
        received_level: 4,
    })
    .is_empty());
    assert!(encode_event(Event::RemoteSharingScreenChange(peer(), true)).is_empty());
    assert!(encode_event(Event::SendCallMessageToGroup {
        group_id: vec![1],
        message: vec![2],
        urgency: SignalingMessageUrgency::HandleImmediately,
    })
    .is_empty());
}
