//! Mathematical model of the connection protocol: the state x event
//! transition function `step`, and `run_steps`, its fold over an event
//! sequence. Every public operation of the executable machine is specified
//! against these functions, and the protocol laws are proved about them.

use vstd::prelude::*;

use crate::common::{CallDirection, CallId, ConnectionState};
use crate::events::{
    Command, ConnectionEvent, DataMode, DataRate, DispatchModel, Hangup, Ice, IceCandidate,
    MediaStream, NetworkRoute, NotifyTask, ObserverEvent, Outcome, SenderStatus, WorkerTask,
};
use crate::queue::ExecutorModel;

verus! {

/// Complete mathematical state of one connection's driver: the connection's
/// identity, its lifecycle state, the status deduplication cache, the two
/// executors, and whether the event source is still open.
#[verifier::ext_equal]
pub ghost struct MachineModel {
    pub call_id: CallId,
    pub direction: CallDirection,
    pub state: ConnectionState,
    pub last_remote_sender_status: Option<(u64, SenderStatus)>,
    pub last_remote_receiver_status: Option<(u64, DataRate)>,
    pub worker: ExecutorModel<WorkerTask>,
    pub notify: ExecutorModel<NotifyTask>,
    pub source_open: bool,
}

/// Result of dispatching one event: the machine afterwards, the event's
/// disposition, and the commands the driver runs on the connection.
#[verifier::ext_equal]
pub ghost struct StepOutput {
    pub post: MachineModel,
    pub outcome: Outcome,
    pub commands: Seq<Command>,
}

/// The machine as `ConnectionStateMachine::new` creates it.
pub open spec fn initial_machine(call_id: CallId, direction: CallDirection) -> MachineModel {
    MachineModel {
        call_id,
        direction,
        state: ConnectionState::NotYetStarted,
        last_remote_sender_status: None,
        last_remote_receiver_status: None,
        worker: ExecutorModel { pending: Seq::empty(), stopped: false },
        notify: ExecutorModel { pending: Seq::empty(), stopped: false },
        source_open: true,
    }
}

/// Submission to an executor: appended in order, or dropped once stopped.
pub open spec fn spec_submit<T>(q: ExecutorModel<T>, task: T) -> ExecutorModel<T> {
    if q.stopped {
        q
    } else {
        ExecutorModel { pending: q.pending.push(task), stopped: q.stopped }
    }
}

/// A dispatch that drops the event and touches nothing.
pub open spec fn dropped(m: MachineModel, outcome: Outcome) -> StepOutput {
    StepOutput { post: m, outcome, commands: Seq::empty() }
}

/// The shared "first-time accepted" sequence: enter `ConnectedAndAccepted`,
/// replay any remote status cached while the call was still ringing, and,
/// on the recipient side only, queue the acceptance acknowledgement.
pub open spec fn step_first_time_accepted(m: MachineModel) -> StepOutput {
    let m1 = MachineModel { state: ConnectionState::ConnectedAndAccepted, ..m };
    let commands = match m.last_remote_receiver_status {
        Some(cached) => seq![Command::SetRemoteMaxBitrate(cached.1)],
        None => Seq::<Command>::empty(),
    };
    let m2 = match m.last_remote_sender_status {
        Some(cached) => MachineModel {
            notify: spec_submit(
                m1.notify,
                NotifyTask::ObserverEvent(ObserverEvent::RemoteSenderStatusChanged(cached.1)),
            ),
            ..m1
        },
        None => m1,
    };
    let m3 = if m.direction is Incoming {
        MachineModel { worker: spec_submit(m2.worker, WorkerTask::SendAcceptedViaRtpData), ..m2 }
    } else {
        m2
    };
    StepOutput { post: m3, outcome: Outcome::Applied, commands }
}

pub open spec fn step_received_hangup(
    m: MachineModel,
    call_id: CallId,
    hangup: Hangup,
) -> StepOutput {
    if call_id != m.call_id {
        dropped(m, Outcome::WrongCall)
    } else if m.state.spec_connecting_or_connected() {
        StepOutput {
            post: MachineModel {
                notify: spec_submit(
                    m.notify,
                    NotifyTask::ObserverEvent(ObserverEvent::ReceivedHangup(hangup)),
                ),
                ..m
            },
            outcome: Outcome::Applied,
            commands: Seq::empty(),
        }
    } else {
        dropped(m, Outcome::Unexpected)
    }
}

pub open spec fn step_received_accepted(m: MachineModel, call_id: CallId) -> StepOutput {
    if call_id != m.call_id {
        dropped(m, Outcome::WrongCall)
    } else {
        match m.state {
            ConnectionState::NotYetStarted
            | ConnectionState::Starting
            | ConnectionState::IceGathering => dropped(m, Outcome::Unexpected),
            ConnectionState::ConnectingBeforeAccepted => StepOutput {
                post: MachineModel { state: ConnectionState::ConnectingAfterAccepted, ..m },
                outcome: Outcome::Applied,
                commands: Seq::empty(),
            },
            ConnectionState::ConnectedBeforeAccepted => step_first_time_accepted(m),
            ConnectionState::ConnectingAfterAccepted
            | ConnectionState::ConnectedAndAccepted
            | ConnectionState::ReconnectingAfterAccepted => dropped(m, Outcome::Ignored),
            ConnectionState::IceFailed
            | ConnectionState::Terminating
            | ConnectionState::Terminated => dropped(m, Outcome::Unexpected),
        }
    }
}

pub open spec fn step_received_sender_status(
    m: MachineModel,
    call_id: CallId,
    status: SenderStatus,
    seqnum: u64,
) -> StepOutput {
    if call_id != m.call_id {
        dropped(m, Outcome::WrongCall)
    } else if m.last_remote_sender_status matches Some(last) && seqnum <= last.0 {
        if seqnum < (m.last_remote_sender_status->Some_0).0 {
            dropped(m, Outcome::StaleOutOfOrder)
        } else {
            dropped(m, Outcome::StaleRetransmit)
        }
    } else {
        let changed = match m.last_remote_sender_status {
            None => true,
            Some(last) => last.1 != status,
        };
        let m1 = MachineModel { last_remote_sender_status: Some((seqnum, status)), ..m };
        if m.state is ConnectedAndAccepted || m.state is ReconnectingAfterAccepted {
            if changed {
                StepOutput {
                    post: MachineModel {
                        notify: spec_submit(
                            m1.notify,
                            NotifyTask::ObserverEvent(
                                ObserverEvent::RemoteSenderStatusChanged(status),
                            ),
                        ),
                        ..m1
                    },
                    outcome: Outcome::Applied,
                    commands: Seq::empty(),
                }
            } else {
                StepOutput { post: m1, outcome: Outcome::Applied, commands: Seq::empty() }
            }
        } else if m.state is ConnectingBeforeAccepted || m.state is ConnectingAfterAccepted
            || m.state is ConnectedBeforeAccepted {
            // Retained for replay at acceptance, but not propagated yet.
            StepOutput { post: m1, outcome: Outcome::Ignored, commands: Seq::empty() }
        } else {
            StepOutput { post: m1, outcome: Outcome::Unexpected, commands: Seq::empty() }
        }
    }
}

pub open spec fn step_received_receiver_status(
    m: MachineModel,
    call_id: CallId,
    max_bitrate: DataRate,
    seqnum: u64,
) -> StepOutput {
    if call_id != m.call_id {
        dropped(m, Outcome::WrongCall)
    } else if m.last_remote_receiver_status matches Some(last) && seqnum <= last.0 {
        if seqnum < (m.last_remote_receiver_status->Some_0).0 {
            dropped(m, Outcome::StaleOutOfOrder)
        } else {
            dropped(m, Outcome::StaleRetransmit)
        }
    } else {
        let changed = match m.last_remote_receiver_status {
            None => true,
            Some(last) => last.1 != max_bitrate,
        };
        let m1 = MachineModel { last_remote_receiver_status: Some((seqnum, max_bitrate)), ..m };
        if m.state is ConnectedAndAccepted || m.state is ReconnectingAfterAccepted {
            if changed {
                StepOutput {
                    post: m1,
                    outcome: Outcome::Applied,
                    commands: seq![Command::SetRemoteMaxBitrate(max_bitrate)],
                }
            } else {
                StepOutput { post: m1, outcome: Outcome::Applied, commands: Seq::empty() }
            }
        } else if m.state is ConnectingBeforeAccepted || m.state is ConnectingAfterAccepted
            || m.state is ConnectedBeforeAccepted {
            // Retained for replay at acceptance, but not applied yet.
            StepOutput { post: m1, outcome: Outcome::Ignored, commands: Seq::empty() }
        } else {
            StepOutput { post: m1, outcome: Outcome::Unexpected, commands: Seq::empty() }
        }
    }
}

pub open spec fn step_received_ice(m: MachineModel, ice: Ice) -> StepOutput {
    if m.state is NotYetStarted {
        // Expected racy delivery before start; warned about, never fatal.
        dropped(m, Outcome::Unexpected)
    } else if m.state.spec_can_receive_ice_candidates() {
        StepOutput {
            post: m,
            outcome: Outcome::Applied,
            commands: seq![Command::HandleReceivedIce(ice)],
        }
    } else {
        dropped(m, Outcome::Unexpected)
    }
}

pub open spec fn step_accept(m: MachineModel) -> StepOutput {
    if m.state.spec_can_be_accepted_locally() {
        step_first_time_accepted(m)
    } else {
        dropped(m, Outcome::Unexpected)
    }
}

pub open spec fn step_send_hangup(m: MachineModel, hangup: Hangup) -> StepOutput {
    if m.state.spec_can_send_hangup_via_rtp() {
        StepOutput {
            post: MachineModel {
                worker: spec_submit(m.worker, WorkerTask::SendHangupViaRtpData(hangup)),
                ..m
            },
            outcome: Outcome::Applied,
            commands: Seq::empty(),
        }
    } else {
        dropped(m, Outcome::Unexpected)
    }
}

pub open spec fn step_update_sender_status(m: MachineModel, status: SenderStatus) -> StepOutput {
    if m.state.spec_connected_or_reconnecting() {
        StepOutput {
            post: MachineModel {
                worker: spec_submit(m.worker, WorkerTask::UpdateSenderStatus(status)),
                ..m
            },
            outcome: Outcome::Applied,
            commands: Seq::empty(),
        }
    } else {
        dropped(m, Outcome::Unexpected)
    }
}

pub open spec fn step_update_data_mode(m: MachineModel, mode: DataMode) -> StepOutput {
    if m.state.spec_connecting_or_connected() {
        StepOutput {
            post: MachineModel {
                worker: spec_submit(m.worker, WorkerTask::UpdateDataMode(mode)),
                ..m
            },
            outcome: Outcome::Applied,
            commands: Seq::empty(),
        }
    } else {
        // A mode change in any other state is an expected no-op.
        dropped(m, Outcome::Ignored)
    }
}

pub open spec fn step_local_ice_candidates(
    m: MachineModel,
    candidates: Vec<IceCandidate>,
) -> StepOutput {
    if m.state.spec_can_send_ice_candidates() {
        StepOutput {
            post: MachineModel {
                worker: spec_submit(m.worker, WorkerTask::BufferLocalIceCandidates(candidates)),
                ..m
            },
            outcome: Outcome::Applied,
            commands: Seq::empty(),
        }
    } else {
        dropped(m, Outcome::Unexpected)
    }
}

pub open spec fn step_ice_connected(m: MachineModel) -> StepOutput {
    match m.state {
        ConnectionState::ConnectingBeforeAccepted => StepOutput {
            post: MachineModel { state: ConnectionState::ConnectedBeforeAccepted, ..m },
            outcome: Outcome::Applied,
            commands: Seq::empty(),
        },
        ConnectionState::ConnectingAfterAccepted => step_first_time_accepted(m),
        ConnectionState::ReconnectingAfterAccepted => StepOutput {
            post: MachineModel { state: ConnectionState::ConnectedAndAccepted, ..m },
            outcome: Outcome::Applied,
            commands: Seq::empty(),
        },
        _ => dropped(m, Outcome::Unexpected),
    }
}

pub open spec fn step_ice_failed(m: MachineModel) -> StepOutput {
    if m.state.spec_connecting_or_connected() {
        StepOutput {
            post: MachineModel { state: ConnectionState::IceFailed, ..m },
            outcome: Outcome::Applied,
            commands: Seq::empty(),
        }
    } else {
        dropped(m, Outcome::Unexpected)
    }
}

pub open spec fn step_ice_disconnected(m: MachineModel) -> StepOutput {
    match m.state {
        ConnectionState::ConnectedBeforeAccepted => StepOutput {
            post: MachineModel { state: ConnectionState::ConnectingBeforeAccepted, ..m },
            outcome: Outcome::Applied,
            commands: Seq::empty(),
        },
        ConnectionState::ConnectedAndAccepted => StepOutput {
            post: MachineModel { state: ConnectionState::ReconnectingAfterAccepted, ..m },
            outcome: Outcome::Applied,
            commands: Seq::empty(),
        },
        _ => dropped(m, Outcome::Unexpected),
    }
}

/// Network-path telemetry is never state-gated.
pub open spec fn step_network_route_changed(m: MachineModel, route: NetworkRoute) -> StepOutput {
    StepOutput {
        post: MachineModel {
            notify: spec_submit(
                m.notify,
                NotifyTask::ObserverEvent(ObserverEvent::IceNetworkRouteChanged(route)),
            ),
            ..m
        },
        outcome: Outcome::Applied,
        commands: seq![Command::SetNetworkRoute(route)],
    }
}

pub open spec fn step_internal_error(m: MachineModel, error: anyhow::Error) -> StepOutput {
    StepOutput {
        post: MachineModel {
            notify: spec_submit(m.notify, NotifyTask::InternalError(error)),
            ..m
        },
        outcome: Outcome::Applied,
        commands: Seq::empty(),
    }
}

pub open spec fn step_received_incoming_media(m: MachineModel, stream: MediaStream) -> StepOutput {
    if m.state.spec_connecting_or_connected() {
        StepOutput {
            post: MachineModel {
                worker: spec_submit(m.worker, WorkerTask::ConnectIncomingMedia(stream)),
                ..m
            },
            outcome: Outcome::Applied,
            commands: Seq::empty(),
        }
    } else {
        dropped(m, Outcome::Unexpected)
    }
}

pub open spec fn step_synchronize(m: MachineModel) -> StepOutput {
    StepOutput { post: m, outcome: Outcome::Applied, commands: seq![Command::Synchronize] }
}

/// Teardown: close the event source, stop the worker executor and then the
/// notify executor, and tell the owning connection termination bookkeeping
/// is done. Safe to repeat: a stopped executor stays stopped.
pub open spec fn step_terminate(m: MachineModel) -> StepOutput {
    StepOutput {
        post: MachineModel {
            worker: ExecutorModel { pending: Seq::empty(), stopped: true },
            notify: ExecutorModel { pending: Seq::empty(), stopped: true },
            source_open: false,
            ..m
        },
        outcome: Outcome::Applied,
        commands: seq![Command::NotifyTerminateComplete],
    }
}

/// Dispatch of events that are only handled while the connection is not
/// terminating. The three privileged events never reach this function.
pub open spec fn step_running(m: MachineModel, event: ConnectionEvent) -> StepOutput {
    match event {
        ConnectionEvent::ReceivedIce(ice) => step_received_ice(m, ice),
        ConnectionEvent::ReceivedHangup(call_id, hangup) => step_received_hangup(
            m,
            call_id,
            hangup,
        ),
        ConnectionEvent::Accept => step_accept(m),
        ConnectionEvent::ReceivedAcceptedViaRtpData(call_id) => step_received_accepted(m, call_id),
        ConnectionEvent::ReceivedSenderStatusViaRtpData(call_id, status, seqnum) => {
            step_received_sender_status(m, call_id, status, seqnum)
        },
        ConnectionEvent::ReceivedReceiverStatusViaRtpData(call_id, max_bitrate, seqnum) => {
            step_received_receiver_status(m, call_id, max_bitrate, seqnum)
        },
        ConnectionEvent::UpdateSenderStatus(status) => step_update_sender_status(m, status),
        ConnectionEvent::UpdateDataMode(mode) => step_update_data_mode(m, mode),
        ConnectionEvent::LocalIceCandidates(candidates) => step_local_ice_candidates(
            m,
            candidates,
        ),
        ConnectionEvent::IceConnected => step_ice_connected(m),
        ConnectionEvent::IceFailed => step_ice_failed(m),
        ConnectionEvent::IceDisconnected => step_ice_disconnected(m),
        ConnectionEvent::IceNetworkRouteChanged(route) => step_network_route_changed(m, route),
        ConnectionEvent::InternalError(error) => step_internal_error(m, error),
        ConnectionEvent::ReceivedIncomingMedia(stream) => step_received_incoming_media(m, stream),
        // Privileged events are dispatched before the teardown gate; these
        // arms are unreachable from `step`.
        ConnectionEvent::SendHangupViaRtpData(_)
        | ConnectionEvent::Synchronize
        | ConnectionEvent::Terminate => dropped(m, Outcome::Ignored),
    }
}

/// The full state x event transition. Hangup sending, teardown, and the test
/// barrier are handled even while terminating; everything else is dropped
/// once teardown has begun.
pub open spec fn step(m: MachineModel, event: ConnectionEvent) -> StepOutput {
    match event {
        ConnectionEvent::SendHangupViaRtpData(hangup) => step_send_hangup(m, hangup),
        ConnectionEvent::Terminate => step_terminate(m),
        ConnectionEvent::Synchronize => step_synchronize(m),
        _ => {
            if m.state.spec_terminating_or_terminated() {
                dropped(m, Outcome::DroppedWhileTerminating)
            } else {
                step_running(m, event)
            }
        },
    }
}

/// Output of driving the machine over a whole event sequence.
#[verifier::ext_equal]
pub ghost struct RunOutput {
    pub post: MachineModel,
    pub dispatches: Seq<DispatchModel>,
}

/// Serial dispatch of events, in order, stopping as soon as the event
/// source has been closed (which `Terminate` does).
pub open spec fn run_steps(m: MachineModel, events: Seq<ConnectionEvent>) -> RunOutput
    decreases events.len(),
{
    if !m.source_open || events.len() == 0 {
        RunOutput { post: m, dispatches: Seq::empty() }
    } else {
        let first = step(m, events[0]);
        let rest = run_steps(first.post, events.drop_first());
        RunOutput {
            post: rest.post,
            dispatches: seq![
                DispatchModel { outcome: first.outcome, commands: first.commands },
            ] + rest.dispatches,
        }
    }
}

} // verus!
