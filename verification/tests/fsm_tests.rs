use tring::common::{CallDirection, CallId, ConnectionState};
use tring::events::{
    Command, ConnectionEvent, DataMode, DataRate, Hangup, Ice, IceCandidate, MediaStream,
    NetworkAdapterType, NetworkRoute, NotifyTask, ObserverEvent, Outcome, SenderStatus,
    WorkerTask,
};
use tring::fsm::ConnectionStateMachine;

fn call_id() -> CallId {
    CallId::new(7)
}

fn machine(direction: CallDirection) -> ConnectionStateMachine {
    ConnectionStateMachine::new(call_id(), direction)
}

fn status(video: bool) -> SenderStatus {
    SenderStatus { video_enabled: Some(video), sharing_screen: None, audio_enabled: None }
}

fn route() -> NetworkRoute {
    NetworkRoute {
        local_adapter_type: NetworkAdapterType::Wifi,
        local_adapter_type_under_vpn: NetworkAdapterType::Unknown,
    }
}

#[test]
fn ice_before_start_is_ignored_with_warning() {
    let mut m = machine(CallDirection::Outgoing);
    let d = m.handle_event(ConnectionEvent::ReceivedIce(Ice {
        candidates: vec![IceCandidate { opaque: vec![1, 2, 3] }],
    }));
    assert_eq!(d.outcome, Outcome::Unexpected);
    assert!(d.commands.is_empty());
    assert_eq!(m.state(), ConnectionState::NotYetStarted);
    assert!(m.take_worker_tasks().is_empty());
    assert!(m.take_notify_tasks().is_empty());
}

#[test]
fn outgoing_call_connects_then_accepts_without_ack() {
    let mut m = machine(CallDirection::Outgoing);
    m.set_state(ConnectionState::ConnectingBeforeAccepted);

    let d = m.handle_event(ConnectionEvent::IceConnected);
    assert_eq!(d.outcome, Outcome::Applied);
    assert_eq!(m.state(), ConnectionState::ConnectedBeforeAccepted);

    let d = m.handle_event(ConnectionEvent::Accept);
    assert_eq!(d.outcome, Outcome::Applied);
    assert_eq!(m.state(), ConnectionState::ConnectedAndAccepted);
    // Only the recipient of a call sends the acceptance acknowledgement.
    assert!(m.take_worker_tasks().is_empty());
}

#[test]
fn incoming_call_remote_accept_schedules_ack_exactly_once() {
    let mut m = machine(CallDirection::Incoming);
    m.set_state(ConnectionState::ConnectedBeforeAccepted);

    let d = m.handle_event(ConnectionEvent::ReceivedAcceptedViaRtpData(call_id()));
    assert_eq!(d.outcome, Outcome::Applied);
    assert_eq!(m.state(), ConnectionState::ConnectedAndAccepted);
    let tasks = m.take_worker_tasks();
    assert_eq!(tasks, vec![WorkerTask::SendAcceptedViaRtpData]);
}

#[test]
fn accept_retransmission_is_idempotent() {
    let mut m = machine(CallDirection::Incoming);
    m.set_state(ConnectionState::ConnectedBeforeAccepted);
    m.handle_event(ConnectionEvent::ReceivedAcceptedViaRtpData(call_id()));
    assert_eq!(m.take_worker_tasks().len(), 1);

    let d = m.handle_event(ConnectionEvent::ReceivedAcceptedViaRtpData(call_id()));
    assert_eq!(d.outcome, Outcome::Ignored);
    assert!(d.commands.is_empty());
    assert_eq!(m.state(), ConnectionState::ConnectedAndAccepted);
    assert!(m.take_worker_tasks().is_empty());
    let d = m.handle_event(ConnectionEvent::ReceivedAcceptedViaRtpData(call_id()));
    assert_eq!(d.outcome, Outcome::Ignored);
}

#[test]
fn reconnection_round_trip_restores_state() {
    let mut m = machine(CallDirection::Outgoing);
    m.set_state(ConnectionState::ConnectedAndAccepted);

    let d = m.handle_event(ConnectionEvent::IceDisconnected);
    assert_eq!(d.outcome, Outcome::Applied);
    assert_eq!(m.state(), ConnectionState::ReconnectingAfterAccepted);

    let d = m.handle_event(ConnectionEvent::IceConnected);
    assert_eq!(d.outcome, Outcome::Applied);
    assert_eq!(m.state(), ConnectionState::ConnectedAndAccepted);
}

#[test]
fn sender_status_deduplication() {
    let mut m = machine(CallDirection::Outgoing);
    m.set_state(ConnectionState::ConnectedAndAccepted);

    let d = m.handle_event(ConnectionEvent::ReceivedSenderStatusViaRtpData(
        call_id(),
        status(true),
        1,
    ));
    assert_eq!(d.outcome, Outcome::Applied);
    let tasks = m.take_notify_tasks();
    assert_eq!(tasks.len(), 1);
    assert!(matches!(
        tasks[0],
        NotifyTask::ObserverEvent(ObserverEvent::RemoteSenderStatusChanged(s))
            if s == status(true)
    ));

    // The same sequence number again: an expected retransmission, dropped.
    let d = m.handle_event(ConnectionEvent::ReceivedSenderStatusViaRtpData(
        call_id(),
        status(true),
        1,
    ));
    assert_eq!(d.outcome, Outcome::StaleRetransmit);
    assert!(m.take_notify_tasks().is_empty());

    // An older sequence number: out of order, dropped with a warning.
    let d = m.handle_event(ConnectionEvent::ReceivedSenderStatusViaRtpData(
        call_id(),
        status(false),
        0,
    ));
    assert_eq!(d.outcome, Outcome::StaleOutOfOrder);
    assert!(m.take_notify_tasks().is_empty());

    // A newer sequence number with the same value: accepted, not propagated.
    let d = m.handle_event(ConnectionEvent::ReceivedSenderStatusViaRtpData(
        call_id(),
        status(true),
        2,
    ));
    assert_eq!(d.outcome, Outcome::Applied);
    assert!(m.take_notify_tasks().is_empty());

    // A newer sequence number with a new value: propagated.
    let d = m.handle_event(ConnectionEvent::ReceivedSenderStatusViaRtpData(
        call_id(),
        status(false),
        3,
    ));
    assert_eq!(d.outcome, Outcome::Applied);
    assert_eq!(m.take_notify_tasks().len(), 1);
}

#[test]
fn receiver_status_deduplication() {
    let mut m = machine(CallDirection::Outgoing);
    m.set_state(ConnectionState::ConnectedAndAccepted);

    let d = m.handle_event(ConnectionEvent::ReceivedReceiverStatusViaRtpData(
        call_id(),
        DataRate::from_bps(1_000_000),
        10,
    ));
    assert_eq!(d.outcome, Outcome::Applied);
    assert_eq!(d.commands, vec![Command::SetRemoteMaxBitrate(DataRate::from_bps(1_000_000))]);

    let d = m.handle_event(ConnectionEvent::ReceivedReceiverStatusViaRtpData(
        call_id(),
        DataRate::from_bps(2_000_000),
        10,
    ));
    assert_eq!(d.outcome, Outcome::StaleRetransmit);
    assert!(d.commands.is_empty());

    let d = m.handle_event(ConnectionEvent::ReceivedReceiverStatusViaRtpData(
        call_id(),
        DataRate::from_bps(1_000_000),
        11,
    ));
    assert_eq!(d.outcome, Outcome::Applied);
    assert!(d.commands.is_empty());

    let d = m.handle_event(ConnectionEvent::ReceivedReceiverStatusViaRtpData(
        call_id(),
        DataRate::from_bps(3_000_000),
        12,
    ));
    assert_eq!(d.commands, vec![Command::SetRemoteMaxBitrate(DataRate::from_bps(3_000_000))]);
}

#[test]
fn status_cached_while_ringing_replays_at_acceptance() {
    let mut m = machine(CallDirection::Incoming);
    m.set_state(ConnectionState::ConnectingBeforeAccepted);

    let d = m.handle_event(ConnectionEvent::ReceivedReceiverStatusViaRtpData(
        call_id(),
        DataRate::from_bps(500_000),
        1,
    ));
    assert_eq!(d.outcome, Outcome::Ignored);
    assert!(d.commands.is_empty());
    let d = m.handle_event(ConnectionEvent::ReceivedSenderStatusViaRtpData(
        call_id(),
        status(true),
        1,
    ));
    assert_eq!(d.outcome, Outcome::Ignored);
    assert!(m.take_notify_tasks().is_empty());

    m.handle_event(ConnectionEvent::IceConnected);
    assert_eq!(m.state(), ConnectionState::ConnectedBeforeAccepted);

    let d = m.handle_event(ConnectionEvent::Accept);
    assert_eq!(d.commands, vec![Command::SetRemoteMaxBitrate(DataRate::from_bps(500_000))]);
    let notify = m.take_notify_tasks();
    assert_eq!(notify.len(), 1);
    assert!(matches!(
        notify[0],
        NotifyTask::ObserverEvent(ObserverEvent::RemoteSenderStatusChanged(s))
            if s == status(true)
    ));
    let worker = m.take_worker_tasks();
    assert_eq!(worker, vec![WorkerTask::SendAcceptedViaRtpData]);
}

#[test]
fn wrong_call_id_is_dropped() {
    let mut m = machine(CallDirection::Outgoing);
    m.set_state(ConnectionState::ConnectedAndAccepted);

    let d = m.handle_event(ConnectionEvent::ReceivedHangup(CallId::new(8), Hangup::Normal));
    assert_eq!(d.outcome, Outcome::WrongCall);
    let d = m.handle_event(ConnectionEvent::ReceivedAcceptedViaRtpData(CallId::new(8)));
    assert_eq!(d.outcome, Outcome::WrongCall);
    let d = m.handle_event(ConnectionEvent::ReceivedSenderStatusViaRtpData(
        CallId::new(8),
        status(true),
        1,
    ));
    assert_eq!(d.outcome, Outcome::WrongCall);
    assert_eq!(m.state(), ConnectionState::ConnectedAndAccepted);
    assert!(m.take_notify_tasks().is_empty());
}

#[test]
fn remote_hangup_reaches_observer() {
    let mut m = machine(CallDirection::Outgoing);
    m.set_state(ConnectionState::ConnectingBeforeAccepted);
    let d = m.handle_event(ConnectionEvent::ReceivedHangup(
        call_id(),
        Hangup::AcceptedOnAnotherDevice(3),
    ));
    assert_eq!(d.outcome, Outcome::Applied);
    let tasks = m.take_notify_tasks();
    assert_eq!(tasks.len(), 1);
    assert!(matches!(
        tasks[0],
        NotifyTask::ObserverEvent(ObserverEvent::ReceivedHangup(
            Hangup::AcceptedOnAnotherDevice(3)
        ))
    ));
}

#[test]
fn network_route_change_is_never_state_gated() {
    let mut m = machine(CallDirection::Outgoing);
    let d = m.handle_event(ConnectionEvent::IceNetworkRouteChanged(route()));
    assert_eq!(d.outcome, Outcome::Applied);
    assert_eq!(d.commands, vec![Command::SetNetworkRoute(route())]);
    let tasks = m.take_notify_tasks();
    assert_eq!(tasks.len(), 1);
    assert!(matches!(
        tasks[0],
        NotifyTask::ObserverEvent(ObserverEvent::IceNetworkRouteChanged(r)) if r == route()
    ));
}

#[test]
fn ice_failure_from_connecting() {
    let mut m = machine(CallDirection::Outgoing);
    m.set_state(ConnectionState::ConnectingBeforeAccepted);
    let d = m.handle_event(ConnectionEvent::IceFailed);
    assert_eq!(d.outcome, Outcome::Applied);
    assert_eq!(m.state(), ConnectionState::IceFailed);

    // Already failed: a second failure is unexpected and changes nothing.
    let d = m.handle_event(ConnectionEvent::IceFailed);
    assert_eq!(d.outcome, Outcome::Unexpected);
    assert_eq!(m.state(), ConnectionState::IceFailed);
}

#[test]
fn data_mode_outside_call_is_silently_ignored() {
    let mut m = machine(CallDirection::Outgoing);
    let d = m.handle_event(ConnectionEvent::UpdateDataMode(DataMode::Low));
    assert_eq!(d.outcome, Outcome::Ignored);
    assert!(m.take_worker_tasks().is_empty());

    m.set_state(ConnectionState::ConnectedAndAccepted);
    let d = m.handle_event(ConnectionEvent::UpdateDataMode(DataMode::Low));
    assert_eq!(d.outcome, Outcome::Applied);
    assert_eq!(m.take_worker_tasks(), vec![WorkerTask::UpdateDataMode(DataMode::Low)]);
}

#[test]
fn incoming_media_is_forwarded_to_worker() {
    let mut m = machine(CallDirection::Incoming);
    m.set_state(ConnectionState::ConnectingAfterAccepted);
    let d = m.handle_event(ConnectionEvent::ReceivedIncomingMedia(MediaStream { id: 42 }));
    assert_eq!(d.outcome, Outcome::Applied);
    assert_eq!(
        m.take_worker_tasks(),
        vec![WorkerTask::ConnectIncomingMedia(MediaStream { id: 42 })]
    );
}

#[test]
fn terminate_stops_executors_and_closes_source() {
    let mut m = machine(CallDirection::Outgoing);
    m.set_state(ConnectionState::ConnectedAndAccepted);
    m.handle_event(ConnectionEvent::UpdateSenderStatus(status(true)));

    m.set_state(ConnectionState::Terminating);
    let d = m.handle_event(ConnectionEvent::Terminate);
    assert_eq!(d.outcome, Outcome::Applied);
    assert_eq!(d.commands, vec![Command::NotifyTerminateComplete]);
    assert!(!m.is_event_source_open());
    // Queued-but-unexecuted tasks are dropped rather than run.
    assert!(m.take_worker_tasks().is_empty());
    assert!(m.take_notify_tasks().is_empty());
}

#[test]
fn events_in_flight_during_teardown_are_dropped() {
    let mut m = machine(CallDirection::Outgoing);
    m.set_state(ConnectionState::Terminating);

    let d = m.handle_event(ConnectionEvent::IceConnected);
    assert_eq!(d.outcome, Outcome::DroppedWhileTerminating);
    let d = m.handle_event(ConnectionEvent::Accept);
    assert_eq!(d.outcome, Outcome::DroppedWhileTerminating);
    assert_eq!(m.state(), ConnectionState::Terminating);

    // Sending a hangup stays privileged, so the remote side still learns of
    // the teardown.
    let d = m.handle_event(ConnectionEvent::SendHangupViaRtpData(Hangup::Normal));
    assert_eq!(d.outcome, Outcome::Applied);
    assert_eq!(m.take_worker_tasks(), vec![WorkerTask::SendHangupViaRtpData(Hangup::Normal)]);

    // The test barrier stays privileged too.
    let d = m.handle_event(ConnectionEvent::Synchronize);
    assert_eq!(d.outcome, Outcome::Applied);
    assert_eq!(d.commands, vec![Command::Synchronize]);
}

#[test]
fn hangup_submission_after_terminate_is_dropped_silently() {
    let mut m = machine(CallDirection::Outgoing);
    m.set_state(ConnectionState::Terminating);
    m.handle_event(ConnectionEvent::Terminate);

    let d = m.handle_event(ConnectionEvent::SendHangupViaRtpData(Hangup::Normal));
    assert_eq!(d.outcome, Outcome::Applied);
    // The worker executor is already stopped: nothing is queued.
    assert!(m.take_worker_tasks().is_empty());
}

#[test]
fn run_dispatches_serially_and_stops_at_terminate() {
    let mut m = machine(CallDirection::Outgoing);
    m.set_state(ConnectionState::ConnectingBeforeAccepted);
    let dispatches = m.run(vec![
        ConnectionEvent::IceConnected,
        ConnectionEvent::Accept,
        ConnectionEvent::Terminate,
        ConnectionEvent::IceDisconnected,
        ConnectionEvent::IceConnected,
    ]);
    // The two events after Terminate are never consumed.
    assert_eq!(dispatches.len(), 3);
    assert_eq!(dispatches[0].outcome, Outcome::Applied);
    assert_eq!(dispatches[1].outcome, Outcome::Applied);
    assert_eq!(dispatches[2].commands, vec![Command::NotifyTerminateComplete]);
    assert!(!m.is_event_source_open());

    // A machine whose source is closed consumes nothing more.
    let dispatches = m.run(vec![ConnectionEvent::IceConnected]);
    assert!(dispatches.is_empty());
}

#[test]
fn local_candidates_are_buffered_for_signaling() {
    let mut m = machine(CallDirection::Outgoing);
    m.set_state(ConnectionState::IceGathering);
    let candidates = vec![IceCandidate { opaque: vec![9, 8, 7] }];
    let d = m.handle_event(ConnectionEvent::LocalIceCandidates(candidates.clone()));
    assert_eq!(d.outcome, Outcome::Applied);
    assert_eq!(m.take_worker_tasks(), vec![WorkerTask::BufferLocalIceCandidates(candidates)]);
}

#[test]
fn received_ice_is_applied_once_started() {
    let mut m = machine(CallDirection::Outgoing);
    m.set_state(ConnectionState::ConnectingBeforeAccepted);
    let ice = Ice { candidates: vec![IceCandidate { opaque: vec![4, 5] }] };
    let d = m.handle_event(ConnectionEvent::ReceivedIce(ice.clone()));
    assert_eq!(d.outcome, Outcome::Applied);
    assert_eq!(d.commands, vec![Command::HandleReceivedIce(ice)]);
}

#[test]
fn internal_error_is_routed_to_notify_executor() {
    let mut m = machine(CallDirection::Outgoing);
    m.set_state(ConnectionState::ConnectedAndAccepted);
    let d = m.handle_event(ConnectionEvent::InternalError(anyhow::Error::msg("send failed")));
    assert_eq!(d.outcome, Outcome::Applied);
    let tasks = m.take_notify_tasks();
    assert_eq!(tasks.len(), 1);
    assert!(matches!(tasks[0], NotifyTask::InternalError(_)));
}

#[test]
fn event_names_match_diagnostics() {
    assert_eq!(ConnectionEvent::Accept.name(), "Accept");
    assert_eq!(ConnectionEvent::IceConnected.name(), "IceConnected");
    assert_eq!(ConnectionEvent::IceFailed.name(), "IceConnectionFailed");
    assert_eq!(ConnectionEvent::Terminate.name(), "Terminate");
    assert_eq!(
        ConnectionEvent::ReceivedAcceptedViaRtpData(CallId::new(1)).name(),
        "ReceivedAcceptedViaRtpData"
    );
    assert_eq!(
        ConnectionEvent::ReceivedIce(Ice { candidates: vec![] }).name(),
        "RemoteIceCandidates"
    );
}

#[test]
fn machine_reports_its_identity() {
    let m = machine(CallDirection::Incoming);
    assert_eq!(m.call_id().as_u64(), 7);
    assert_eq!(m.direction(), CallDirection::Incoming);
    assert!(m.is_event_source_open());
    assert_eq!(m.state(), ConnectionState::NotYetStarted);
}
