//! Proved laws of the connection protocol, stated over the transition
//! function of the model.

use vstd::prelude::*;

use crate::common::CallId;
use crate::events::{
    Command, ConnectionEvent, DataRate, DispatchModel, NotifyTask, ObserverEvent, Outcome,
    SenderStatus,
};
use crate::model::{
    run_steps, step, step_received_receiver_status, step_received_sender_status, MachineModel,
};

verus! {

/// An event that the state x event table marks unexpected is dropped whole:
/// the lifecycle state does not move, neither executor receives a task, and
/// no command reaches the connection.
pub proof fn lemma_unexpected_event_has_no_effect(m: MachineModel, event: ConnectionEvent)
    requires
        step(m, event).outcome == Outcome::Unexpected,
    ensures
        step(m, event).post.state == m.state,
        step(m, event).post.worker == m.worker,
        step(m, event).post.notify == m.notify,
        step(m, event).post.source_open == m.source_open,
        step(m, event).commands == Seq::<Command>::empty(),
{
}

/// A remote sender status message is propagated exactly when the call is
/// active and the message is both newer than and different from the last
/// accepted one.
pub open spec fn sender_status_propagates(
    m: MachineModel,
    status: SenderStatus,
    seqnum: u64,
) -> bool {
    &&& m.state is ConnectedAndAccepted || m.state is ReconnectingAfterAccepted
    &&& match m.last_remote_sender_status {
        None => true,
        Some(last) => seqnum > last.0 && last.1 != status,
    }
}

/// A remote receiver status message is applied exactly when the call is
/// active and the message is both newer than and different from the last
/// accepted one.
pub open spec fn receiver_status_propagates(
    m: MachineModel,
    max_bitrate: DataRate,
    seqnum: u64,
) -> bool {
    &&& m.state is ConnectedAndAccepted || m.state is ReconnectingAfterAccepted
    &&& match m.last_remote_receiver_status {
        None => true,
        Some(last) => seqnum > last.0 && last.1 != max_bitrate,
    }
}

/// Sequence-number deduplication of remote sender status: a message whose
/// sequence number does not strictly exceed the last accepted one changes
/// nothing; one repeating the last accepted value is never propagated to
/// the observer; and the same message delivered twice propagates at most
/// once, whatever the first delivery did.
pub proof fn lemma_sender_status_dedup(
    m: MachineModel,
    call_id: CallId,
    status: SenderStatus,
    seqnum: u64,
)
    requires
        call_id == m.call_id,
    ensures
        (m.last_remote_sender_status matches Some(last) && seqnum <= last.0) ==> {
            &&& step_received_sender_status(m, call_id, status, seqnum).post == m
            &&& step_received_sender_status(m, call_id, status, seqnum).commands
                == Seq::<Command>::empty()
        },
        (m.last_remote_sender_status matches Some(last) && last.1 == status)
            ==> step_received_sender_status(m, call_id, status, seqnum).post.notify == m.notify,
        (sender_status_propagates(m, status, seqnum) && !m.notify.stopped)
            ==> step_received_sender_status(m, call_id, status, seqnum).post.notify.pending
            == m.notify.pending.push(
            NotifyTask::ObserverEvent(ObserverEvent::RemoteSenderStatusChanged(status)),
        ),
        step_received_sender_status(
            step_received_sender_status(m, call_id, status, seqnum).post,
            call_id,
            status,
            seqnum,
        ).post.notify == step_received_sender_status(m, call_id, status, seqnum).post.notify,
{
}

/// The same deduplication law for remote receiver status, whose propagation
/// is the bitrate-cap command rather than an observer notification.
pub proof fn lemma_receiver_status_dedup(
    m: MachineModel,
    call_id: CallId,
    max_bitrate: DataRate,
    seqnum: u64,
)
    requires
        call_id == m.call_id,
    ensures
        (m.last_remote_receiver_status matches Some(last) && seqnum <= last.0) ==> {
            &&& step_received_receiver_status(m, call_id, max_bitrate, seqnum).post == m
            &&& step_received_receiver_status(m, call_id, max_bitrate, seqnum).commands
                == Seq::<Command>::empty()
        },
        (m.last_remote_receiver_status matches Some(last) && last.1 == max_bitrate)
            ==> step_received_receiver_status(m, call_id, max_bitrate, seqnum).commands
            == Seq::<Command>::empty(),
        receiver_status_propagates(m, max_bitrate, seqnum)
            ==> step_received_receiver_status(m, call_id, max_bitrate, seqnum).commands == seq![
            Command::SetRemoteMaxBitrate(max_bitrate),
        ],
        step_received_receiver_status(
            step_received_receiver_status(m, call_id, max_bitrate, seqnum).post,
            call_id,
            max_bitrate,
            seqnum,
        ).commands == Seq::<Command>::empty(),
{
}

/// The deduplication cache only moves forward: once a status with some
/// sequence number has been accepted, no dispatch ever stores a smaller
/// one in its place.
pub proof fn lemma_status_cache_monotonic(m: MachineModel, event: ConnectionEvent)
    ensures
        m.last_remote_sender_status is Some ==> {
            &&& step(m, event).post.last_remote_sender_status is Some
            &&& (step(m, event).post.last_remote_sender_status->Some_0).0
                >= (m.last_remote_sender_status->Some_0).0
        },
        m.last_remote_receiver_status is Some ==> {
            &&& step(m, event).post.last_remote_receiver_status is Some
            &&& (step(m, event).post.last_remote_receiver_status->Some_0).0
                >= (m.last_remote_receiver_status->Some_0).0
        },
{
}

/// Acceptance acknowledgements are idempotent: once the machine is in an
/// already-accepted state, redelivery of `ReceivedAcceptedViaRtpData` (an
/// expected data-channel retransmission) changes nothing at all.
pub proof fn lemma_received_accepted_idempotent(m: MachineModel, call_id: CallId)
    requires
        call_id == m.call_id,
        m.state is ConnectingAfterAccepted || m.state is ConnectedAndAccepted || m.state
            is ReconnectingAfterAccepted,
    ensures
        step(m, ConnectionEvent::ReceivedAcceptedViaRtpData(call_id)).post == m,
        step(m, ConnectionEvent::ReceivedAcceptedViaRtpData(call_id)).outcome == Outcome::Ignored,
        step(m, ConnectionEvent::ReceivedAcceptedViaRtpData(call_id)).commands
            == Seq::<Command>::empty(),
        step(
            step(m, ConnectionEvent::ReceivedAcceptedViaRtpData(call_id)).post,
            ConnectionEvent::ReceivedAcceptedViaRtpData(call_id),
        ) == step(m, ConnectionEvent::ReceivedAcceptedViaRtpData(call_id)),
{
}

/// Reconnection round trip: from the fully active state, losing
/// connectivity enters the reconnecting state, and regaining it restores
/// the machine exactly.
pub proof fn lemma_reconnect_round_trip(m: MachineModel)
    requires
        m.state is ConnectedAndAccepted,
    ensures
        step(m, ConnectionEvent::IceDisconnected).post.state is ReconnectingAfterAccepted,
        step(
            step(m, ConnectionEvent::IceDisconnected).post,
            ConnectionEvent::IceConnected,
        ).post == m,
{
    assert(step(
        step(m, ConnectionEvent::IceDisconnected).post,
        ConnectionEvent::IceConnected,
    ).post =~= m);
}

/// `Terminate` closes the event source, so a run started afterwards
/// consumes no event at all: termination is absorbing for the driver loop.
pub proof fn lemma_terminate_closes_source(m: MachineModel, events: Seq<ConnectionEvent>)
    ensures
        !step(m, ConnectionEvent::Terminate).post.source_open,
        run_steps(step(m, ConnectionEvent::Terminate).post, events).post == step(
            m,
            ConnectionEvent::Terminate,
        ).post,
        run_steps(step(m, ConnectionEvent::Terminate).post, events).dispatches
            == Seq::<DispatchModel>::empty(),
{
}

/// While the connection is terminating or terminated, every event still in
/// flight is dropped without any effect - except sending a hangup, the test
/// barrier, and teardown itself, which stay privileged.
pub proof fn lemma_terminating_drops_events(m: MachineModel, event: ConnectionEvent)
    requires
        m.state.spec_terminating_or_terminated(),
        !(event matches ConnectionEvent::SendHangupViaRtpData(_)),
        !(event matches ConnectionEvent::Terminate),
        !(event matches ConnectionEvent::Synchronize),
    ensures
        step(m, event).post == m,
        step(m, event).outcome == Outcome::DroppedWhileTerminating,
        step(m, event).commands == Seq::<Command>::empty(),
{
}

} // verus!
