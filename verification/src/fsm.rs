//! The connection protocol state machine.
//!
//! The machine consumes a strictly serialized stream of [`ConnectionEvent`]s
//! and either acts on each immediately (state transitions, commands for the
//! owning connection) or queues side-effecting work on one of two background
//! executors: "worker" for potentially slow protocol actions, "notify" for
//! observer callbacks. Every dispatch is specified against the transition
//! function [`step`](crate::model::step) of the mathematical model.

use vstd::prelude::*;

use crate::common::{CallDirection, CallId, ConnectionState};
use crate::events::{
    Command, ConnectionEvent, DataMode, DataRate, Dispatch, Hangup, Ice, IceCandidate,
    MediaStream, NetworkRoute, NotifyTask, ObserverEvent, Outcome, SenderStatus, WorkerTask,
};
use crate::model::{
    run_steps, step, step_accept, step_first_time_accepted, step_ice_connected,
    step_ice_disconnected, step_ice_failed, step_internal_error, step_local_ice_candidates,
    step_network_route_changed, step_received_accepted, step_received_hangup, step_received_ice,
    step_received_incoming_media, step_received_receiver_status, step_received_sender_status,
    step_send_hangup, step_synchronize, step_terminate, step_update_data_mode,
    step_update_sender_status, initial_machine, spec_submit, MachineModel, StepOutput,
};
use crate::queue::TaskQueue;

verus! {

/// A dispatch result agrees with the model's step output.
pub open spec fn step_matches(post: MachineModel, r: Dispatch, s: StepOutput) -> bool {
    &&& post == s.post
    &&& r@.outcome == s.outcome
    &&& r@.commands == s.commands
}

/// Driver of one connection's negotiation lifecycle.
///
/// The owning connection's lifecycle state, the status deduplication cache
/// and the two executors are owned here and are only ever mutated through
/// [`handle_event`](Self::handle_event), the model of the single-threaded
/// serialized dispatch. The host application performs the returned
/// [`Command`]s immediately and drains the executor queues on their
/// dedicated threads.
pub struct ConnectionStateMachine {
    call_id: CallId,
    direction: CallDirection,
    state: ConnectionState,
    /// Sequence number and value of the last accepted remote sender status;
    /// only strictly newer messages are processed.
    last_remote_sender_status: Option<(u64, SenderStatus)>,
    /// Sequence number and value of the last accepted remote receiver
    /// status; only strictly newer messages are processed.
    last_remote_receiver_status: Option<(u64, DataRate)>,
    /// Executor for long-running protocol requests.
    worker_thread: TaskQueue<WorkerTask>,
    /// Executor for observer notification events.
    notify_thread: TaskQueue<NotifyTask>,
    source_open: bool,
}

impl View for ConnectionStateMachine {
    type V = MachineModel;

    closed spec fn view(&self) -> MachineModel {
        MachineModel {
            call_id: self.call_id,
            direction: self.direction,
            state: self.state,
            last_remote_sender_status: self.last_remote_sender_status,
            last_remote_receiver_status: self.last_remote_receiver_status,
            worker: self.worker_thread@,
            notify: self.notify_thread@,
            source_open: self.source_open,
        }
    }
}

fn dispatch_no_commands(outcome: Outcome) -> (r: Dispatch)
    ensures
        r@.outcome == outcome,
        r@.commands == Seq::<Command>::empty(),
{
    Dispatch { outcome, commands: Vec::new() }
}

impl ConnectionStateMachine {
    /// Creates the machine for one connection, identified by its call id and
    /// direction, with both executors running and an empty status cache.
    pub fn new(call_id: CallId, direction: CallDirection) -> (r: ConnectionStateMachine)
        ensures
            r@ == initial_machine(call_id, direction),
    {
        ConnectionStateMachine {
            call_id,
            direction,
            state: ConnectionState::NotYetStarted,
            last_remote_sender_status: None,
            last_remote_receiver_status: None,
            worker_thread: TaskQueue::new(),
            notify_thread: TaskQueue::new(),
            source_open: true,
        }
    }

    pub fn state(&self) -> (r: ConnectionState)
        ensures
            r == self@.state,
    {
        self.state
    }

    pub fn call_id(&self) -> (r: CallId)
        ensures
            r == self@.call_id,
    {
        self.call_id
    }

    pub fn direction(&self) -> (r: CallDirection)
        ensures
            r == self@.direction,
    {
        self.direction
    }

    pub fn is_event_source_open(&self) -> (r: bool)
        ensures
            r == self@.source_open,
    {
        self.source_open
    }

    /// Sets the lifecycle state on the owning connection's behalf. The
    /// connection moves itself to `Starting`, `IceGathering` and
    /// `Terminating` outside of event dispatch; all other transitions come
    /// from [`handle_event`](Self::handle_event).
    pub fn set_state(&mut self, state: ConnectionState)
        ensures
            final(self)@ == (MachineModel { state, ..old(self)@ }),
    {
        self.state = state;
    }

    /// Removes the queued worker tasks, in submission order, for the host
    /// worker thread to execute.
    pub fn take_worker_tasks(&mut self) -> (r: Vec<WorkerTask>)
        ensures
            r@ == old(self)@.worker.pending,
            final(self)@ == (MachineModel {
                worker: crate::queue::ExecutorModel {
                    pending: Seq::empty(),
                    stopped: old(self)@.worker.stopped,
                },
                ..old(self)@
            }),
    {
        self.worker_thread.take()
    }

    /// Removes the queued notify tasks, in submission order, for the host
    /// notify thread to execute.
    pub fn take_notify_tasks(&mut self) -> (r: Vec<NotifyTask>)
        ensures
            r@ == old(self)@.notify.pending,
            final(self)@ == (MachineModel {
                notify: crate::queue::ExecutorModel {
                    pending: Seq::empty(),
                    stopped: old(self)@.notify.stopped,
                },
                ..old(self)@
            }),
    {
        self.notify_thread.take()
    }

    /// Queues a task on the worker executor if it is still running.
    fn worker_spawn(&mut self, task: WorkerTask)
        ensures
            final(self)@ == (MachineModel {
                worker: spec_submit(old(self)@.worker, task),
                ..old(self)@
            }),
    {
        self.worker_thread.submit(task);
    }

    /// Queues a task on the notify executor if it is still running.
    fn notify_spawn(&mut self, task: NotifyTask)
        ensures
            final(self)@ == (MachineModel {
                notify: spec_submit(old(self)@.notify, task),
                ..old(self)@
            }),
    {
        self.notify_thread.submit(task);
    }

    /// Queues an observer notification; observer callbacks never run on the
    /// serialization thread.
    fn notify_observer(&mut self, event: ObserverEvent)
        ensures
            final(self)@ == (MachineModel {
                notify: spec_submit(old(self)@.notify, NotifyTask::ObserverEvent(event)),
                ..old(self)@
            }),
    {
        self.notify_spawn(NotifyTask::ObserverEvent(event));
    }

    /// Stops the worker executor and drops its unexecuted tasks.
    fn drain_worker_thread(&mut self)
        ensures
            final(self)@ == (MachineModel {
                worker: crate::queue::ExecutorModel { pending: Seq::empty(), stopped: true },
                ..old(self)@
            }),
    {
        self.worker_thread.stop_and_join();
    }

    /// Stops the notify executor and drops its unexecuted tasks.
    fn drain_notify_thread(&mut self)
        ensures
            final(self)@ == (MachineModel {
                notify: crate::queue::ExecutorModel { pending: Seq::empty(), stopped: true },
                ..old(self)@
            }),
    {
        self.notify_thread.stop_and_join();
    }

    /// The shared "first-time accepted" sequence.
    fn handle_connected_and_accepted_for_the_first_time(&mut self) -> (r: Dispatch)
        ensures
            step_matches(final(self)@, r, step_first_time_accepted(old(self)@)),
    {
        self.state = ConnectionState::ConnectedAndAccepted;
        let mut commands: Vec<Command> = Vec::new();
        // Status messages received while ringing were retained unprocessed;
        // replay them now that the call is active.
        if let Some((_, max_bitrate)) = self.last_remote_receiver_status {
            commands.push(Command::SetRemoteMaxBitrate(max_bitrate));
        }
        if let Some((_, status)) = self.last_remote_sender_status {
            self.notify_observer(ObserverEvent::RemoteSenderStatusChanged(status));
        }
        if self.direction == CallDirection::Incoming {
            self.worker_spawn(WorkerTask::SendAcceptedViaRtpData);
        }
        Dispatch { outcome: Outcome::Applied, commands }
    }

    fn handle_received_hangup(&mut self, call_id: CallId, hangup: Hangup) -> (r: Dispatch)
        ensures
            step_matches(final(self)@, r, step_received_hangup(old(self)@, call_id, hangup)),
    {
        if self.call_id != call_id {
            return dispatch_no_commands(Outcome::WrongCall);
        }
        if self.state.connecting_or_connected() {
            self.notify_observer(ObserverEvent::ReceivedHangup(hangup));
            dispatch_no_commands(Outcome::Applied)
        } else {
            dispatch_no_commands(Outcome::Unexpected)
        }
    }

    fn handle_received_accepted_via_rtp_data(&mut self, call_id: CallId) -> (r: Dispatch)
        ensures
            step_matches(final(self)@, r, step_received_accepted(old(self)@, call_id)),
    {
        if self.call_id != call_id {
            return dispatch_no_commands(Outcome::WrongCall);
        }
        match self.state {
            ConnectionState::NotYetStarted
            | ConnectionState::Starting
            | ConnectionState::IceGathering => {
                // Nothing can arrive over the data channel yet.
                dispatch_no_commands(Outcome::Unexpected)
            },
            ConnectionState::ConnectingBeforeAccepted => {
                self.state = ConnectionState::ConnectingAfterAccepted;
                dispatch_no_commands(Outcome::Applied)
            },
            ConnectionState::ConnectedBeforeAccepted => {
                self.handle_connected_and_accepted_for_the_first_time()
            },
            ConnectionState::ConnectingAfterAccepted
            | ConnectionState::ConnectedAndAccepted
            | ConnectionState::ReconnectingAfterAccepted => {
                // Expected data-channel retransmission; already accepted.
                dispatch_no_commands(Outcome::Ignored)
            },
            ConnectionState::IceFailed
            | ConnectionState::Terminating
            | ConnectionState::Terminated => dispatch_no_commands(Outcome::Unexpected),
        }
    }

    fn handle_received_sender_status_via_rtp_data(
        &mut self,
        call_id: CallId,
        status: SenderStatus,
        seqnum: u64,
    ) -> (r: Dispatch)
        ensures
            step_matches(
                final(self)@,
                r,
                step_received_sender_status(old(self)@, call_id, status, seqnum),
            ),
    {
        if self.call_id != call_id {
            return dispatch_no_commands(Outcome::WrongCall);
        }
        let changed: bool;
        match self.last_remote_sender_status {
            None => {
                changed = true;
            },
            Some((last_seqnum, last_status)) => {
                if seqnum < last_seqnum {
                    // Out of order; an equal sequence number would be an
                    // expected retransmission instead.
                    return dispatch_no_commands(Outcome::StaleOutOfOrder);
                }
                if seqnum == last_seqnum {
                    return dispatch_no_commands(Outcome::StaleRetransmit);
                }
                changed = !(last_status == status);
            },
        }
        self.last_remote_sender_status = Some((seqnum, status));
        match self.state {
            ConnectionState::ConnectedAndAccepted
            | ConnectionState::ReconnectingAfterAccepted => {
                if changed {
                    self.notify_observer(ObserverEvent::RemoteSenderStatusChanged(status));
                }
                dispatch_no_commands(Outcome::Applied)
            },
            ConnectionState::ConnectingBeforeAccepted
            | ConnectionState::ConnectingAfterAccepted
            | ConnectionState::ConnectedBeforeAccepted => {
                // Retained for replay at acceptance, but not propagated yet.
                dispatch_no_commands(Outcome::Ignored)
            },
            ConnectionState::NotYetStarted
            | ConnectionState::Starting
            | ConnectionState::IceGathering
            | ConnectionState::IceFailed
            | ConnectionState::Terminating
            | ConnectionState::Terminated => dispatch_no_commands(Outcome::Unexpected),
        }
    }

    fn handle_received_receiver_status_via_rtp_data(
        &mut self,
        call_id: CallId,
        max_bitrate: DataRate,
        seqnum: u64,
    ) -> (r: Dispatch)
        ensures
            step_matches(
                final(self)@,
                r,
                step_received_receiver_status(old(self)@, call_id, max_bitrate, seqnum),
            ),
    {
        if self.call_id != call_id {
            return dispatch_no_commands(Outcome::WrongCall);
        }
        let changed: bool;
        match self.last_remote_receiver_status {
            None => {
                changed = true;
            },
            Some((last_seqnum, last_max_bitrate)) => {
                if seqnum < last_seqnum {
                    return dispatch_no_commands(Outcome::StaleOutOfOrder);
                }
                if seqnum == last_seqnum {
                    return dispatch_no_commands(Outcome::StaleRetransmit);
                }
                changed = !(last_max_bitrate == max_bitrate);
            },
        }
        self.last_remote_receiver_status = Some((seqnum, max_bitrate));
        match self.state {
            ConnectionState::ConnectedAndAccepted
            | ConnectionState::ReconnectingAfterAccepted => {
                if changed {
                    let mut commands: Vec<Command> = Vec::new();
                    commands.push(Command::SetRemoteMaxBitrate(max_bitrate));
                    Dispatch { outcome: Outcome::Applied, commands }
                } else {
                    dispatch_no_commands(Outcome::Applied)
                }
            },
            ConnectionState::ConnectingBeforeAccepted
            | ConnectionState::ConnectingAfterAccepted
            | ConnectionState::ConnectedBeforeAccepted => {
                dispatch_no_commands(Outcome::Ignored)
            },
            ConnectionState::NotYetStarted
            | ConnectionState::Starting
            | ConnectionState::IceGathering
            | ConnectionState::IceFailed
            | ConnectionState::Terminating
            | ConnectionState::Terminated => dispatch_no_commands(Outcome::Unexpected),
        }
    }

    fn handle_received_ice(&mut self, ice: Ice) -> (r: Dispatch)
        ensures
            step_matches(final(self)@, r, step_received_ice(old(self)@, ice)),
    {
        if self.state == ConnectionState::NotYetStarted {
            // The connection has not started; remote candidates are dropped.
            return dispatch_no_commands(Outcome::Unexpected);
        }
        if self.state.can_receive_ice_candidates() {
            let mut commands: Vec<Command> = Vec::new();
            commands.push(Command::HandleReceivedIce(ice));
            Dispatch { outcome: Outcome::Applied, commands }
        } else {
            dispatch_no_commands(Outcome::Unexpected)
        }
    }

    fn handle_accept(&mut self) -> (r: Dispatch)
        ensures
            step_matches(final(self)@, r, step_accept(old(self)@)),
    {
        if self.state.can_be_accepted_locally() {
            self.handle_connected_and_accepted_for_the_first_time()
        } else {
            dispatch_no_commands(Outcome::Unexpected)
        }
    }

    fn handle_send_hangup_via_rtp_data(&mut self, hangup: Hangup) -> (r: Dispatch)
        ensures
            step_matches(final(self)@, r, step_send_hangup(old(self)@, hangup)),
    {
        if self.state.can_send_hangup_via_rtp() {
            self.worker_spawn(WorkerTask::SendHangupViaRtpData(hangup));
            dispatch_no_commands(Outcome::Applied)
        } else {
            dispatch_no_commands(Outcome::Unexpected)
        }
    }

    fn handle_update_sender_status(&mut self, status: SenderStatus) -> (r: Dispatch)
        ensures
            step_matches(final(self)@, r, step_update_sender_status(old(self)@, status)),
    {
        if self.state.connected_or_reconnecting() {
            self.worker_spawn(WorkerTask::UpdateSenderStatus(status));
            dispatch_no_commands(Outcome::Applied)
        } else {
            dispatch_no_commands(Outcome::Unexpected)
        }
    }

    fn handle_update_data_mode(&mut self, mode: DataMode) -> (r: Dispatch)
        ensures
            step_matches(final(self)@, r, step_update_data_mode(old(self)@, mode)),
    {
        if self.state.connecting_or_connected() {
            self.worker_spawn(WorkerTask::UpdateDataMode(mode));
            dispatch_no_commands(Outcome::Applied)
        } else {
            dispatch_no_commands(Outcome::Ignored)
        }
    }

    fn handle_local_ice_candidates(&mut self, candidates: Vec<IceCandidate>) -> (r: Dispatch)
        ensures
            step_matches(final(self)@, r, step_local_ice_candidates(old(self)@, candidates)),
    {
        if self.state.can_send_ice_candidates() {
            self.worker_spawn(WorkerTask::BufferLocalIceCandidates(candidates));
            dispatch_no_commands(Outcome::Applied)
        } else {
            dispatch_no_commands(Outcome::Unexpected)
        }
    }

    fn handle_ice_connected(&mut self) -> (r: Dispatch)
        ensures
            step_matches(final(self)@, r, step_ice_connected(old(self)@)),
    {
        match self.state {
            ConnectionState::ConnectingBeforeAccepted => {
                self.state = ConnectionState::ConnectedBeforeAccepted;
                dispatch_no_commands(Outcome::Applied)
            },
            ConnectionState::ConnectingAfterAccepted => {
                self.handle_connected_and_accepted_for_the_first_time()
            },
            ConnectionState::ReconnectingAfterAccepted => {
                // Connectivity is back after the call was already accepted
                // and connected; resume that state.
                self.state = ConnectionState::ConnectedAndAccepted;
                dispatch_no_commands(Outcome::Applied)
            },
            _ => dispatch_no_commands(Outcome::Unexpected),
        }
    }

    fn handle_ice_failed(&mut self) -> (r: Dispatch)
        ensures
            step_matches(final(self)@, r, step_ice_failed(old(self)@)),
    {
        if self.state.connecting_or_connected() {
            self.state = ConnectionState::IceFailed;
            dispatch_no_commands(Outcome::Applied)
        } else {
            dispatch_no_commands(Outcome::Unexpected)
        }
    }

    fn handle_ice_disconnected(&mut self) -> (r: Dispatch)
        ensures
            step_matches(final(self)@, r, step_ice_disconnected(old(self)@)),
    {
        match self.state {
            ConnectionState::ConnectedBeforeAccepted => {
                self.state = ConnectionState::ConnectingBeforeAccepted;
                dispatch_no_commands(Outcome::Applied)
            },
            ConnectionState::ConnectedAndAccepted => {
                self.state = ConnectionState::ReconnectingAfterAccepted;
                dispatch_no_commands(Outcome::Applied)
            },
            _ => dispatch_no_commands(Outcome::Unexpected),
        }
    }

    fn handle_ice_network_route_changed(&mut self, route: NetworkRoute) -> (r: Dispatch)
        ensures
            step_matches(final(self)@, r, step_network_route_changed(old(self)@, route)),
    {
        let mut commands: Vec<Command> = Vec::new();
        commands.push(Command::SetNetworkRoute(route));
        self.notify_observer(ObserverEvent::IceNetworkRouteChanged(route));
        Dispatch { outcome: Outcome::Applied, commands }
    }

    fn handle_internal_error(&mut self, error: anyhow::Error) -> (r: Dispatch)
        ensures
            step_matches(final(self)@, r, step_internal_error(old(self)@, error)),
    {
        self.notify_spawn(NotifyTask::InternalError(error));
        dispatch_no_commands(Outcome::Applied)
    }

    fn handle_received_incoming_media(&mut self, stream: MediaStream) -> (r: Dispatch)
        ensures
            step_matches(final(self)@, r, step_received_incoming_media(old(self)@, stream)),
    {
        if self.state.connecting_or_connected() {
            self.worker_spawn(WorkerTask::ConnectIncomingMedia(stream));
            dispatch_no_commands(Outcome::Applied)
        } else {
            dispatch_no_commands(Outcome::Unexpected)
        }
    }

    /// The barrier itself lives in the host application; the command tells
    /// it to round-trip both executors and then wake the waiter.
    fn handle_synchronize(&mut self) -> (r: Dispatch)
        ensures
            step_matches(final(self)@, r, step_synchronize(old(self)@)),
    {
        let mut commands: Vec<Command> = Vec::new();
        commands.push(Command::Synchronize);
        Dispatch { outcome: Outcome::Applied, commands }
    }

    fn handle_terminate(&mut self) -> (r: Dispatch)
        ensures
            step_matches(final(self)@, r, step_terminate(old(self)@)),
    {
        self.source_open = false;
        // Fixed order: worker first, then notify, since notify actions may
        // depend on worker-issued state.
        self.drain_worker_thread();
        self.drain_notify_thread();
        let mut commands: Vec<Command> = Vec::new();
        commands.push(Command::NotifyTerminateComplete);
        Dispatch { outcome: Outcome::Applied, commands }
    }

    /// Dispatches one event against the current state.
    ///
    /// Hangup sending, teardown and the test barrier are handled even while
    /// the connection is terminating; every other event is then dropped.
    pub fn handle_event(&mut self, event: ConnectionEvent) -> (r: Dispatch)
        ensures
            step_matches(final(self)@, r, step(old(self)@, event)),
    {
        match event {
            ConnectionEvent::SendHangupViaRtpData(hangup) => {
                return self.handle_send_hangup_via_rtp_data(hangup);
            },
            ConnectionEvent::Terminate => {
                return self.handle_terminate();
            },
            ConnectionEvent::Synchronize => {
                return self.handle_synchronize();
            },
            _ => {},
        }

        if self.state.terminating_or_terminated() {
            return dispatch_no_commands(Outcome::DroppedWhileTerminating);
        }

        match event {
            ConnectionEvent::ReceivedIce(ice) => self.handle_received_ice(ice),
            ConnectionEvent::ReceivedHangup(call_id, hangup) => {
                self.handle_received_hangup(call_id, hangup)
            },
            ConnectionEvent::Accept => self.handle_accept(),
            ConnectionEvent::ReceivedAcceptedViaRtpData(call_id) => {
                self.handle_received_accepted_via_rtp_data(call_id)
            },
            ConnectionEvent::ReceivedSenderStatusViaRtpData(call_id, status, seqnum) => {
                self.handle_received_sender_status_via_rtp_data(call_id, status, seqnum)
            },
            ConnectionEvent::ReceivedReceiverStatusViaRtpData(call_id, max_bitrate, seqnum) => {
                self.handle_received_receiver_status_via_rtp_data(call_id, max_bitrate, seqnum)
            },
            ConnectionEvent::UpdateSenderStatus(status) => self.handle_update_sender_status(
                status,
            ),
            ConnectionEvent::UpdateDataMode(mode) => self.handle_update_data_mode(mode),
            ConnectionEvent::LocalIceCandidates(candidates) => self.handle_local_ice_candidates(
                candidates,
            ),
            ConnectionEvent::IceConnected => self.handle_ice_connected(),
            ConnectionEvent::IceFailed => self.handle_ice_failed(),
            ConnectionEvent::IceDisconnected => self.handle_ice_disconnected(),
            ConnectionEvent::IceNetworkRouteChanged(route) => {
                self.handle_ice_network_route_changed(route)
            },
            ConnectionEvent::InternalError(error) => self.handle_internal_error(error),
            ConnectionEvent::ReceivedIncomingMedia(stream) => {
                self.handle_received_incoming_media(stream)
            },
            // Already dispatched before the teardown gate.
            ConnectionEvent::SendHangupViaRtpData(_)
            | ConnectionEvent::Synchronize
            | ConnectionEvent::Terminate => dispatch_no_commands(Outcome::Ignored),
        }
    }

    /// Consumes events in order, dispatching each serially, until the list
    /// is exhausted or the event source has been closed by `Terminate`.
    /// Returns what each processed event did, in order.
    pub fn run(&mut self, events: Vec<ConnectionEvent>) -> (r: Vec<Dispatch>)
        ensures
            final(self)@ == run_steps(old(self)@, events@).post,
            r@.len() == run_steps(old(self)@, events@).dispatches.len(),
            forall|i: int|
                0 <= i < r@.len() ==> (#[trigger] r@[i])@ == run_steps(
                    old(self)@,
                    events@,
                ).dispatches[i],
    {
        let ghost total = run_steps(self@, events@);
        let mut pending_events = events;
        let mut results: Vec<Dispatch> = Vec::new();
        while pending_events.len() > 0 && self.source_open
            invariant
                total == run_steps(old(self)@, events@),
                run_steps(self@, pending_events@).post == total.post,
                results@.len() + run_steps(self@, pending_events@).dispatches.len()
                    == total.dispatches.len(),
                forall|i: int|
                    0 <= i < results@.len() ==> (#[trigger] results@[i])@
                        == total.dispatches[i],
                forall|j: int|
                    0 <= j < run_steps(self@, pending_events@).dispatches.len()
                        ==> #[trigger] run_steps(self@, pending_events@).dispatches[j]
                        == total.dispatches[results@.len() + j],
            decreases pending_events.len(),
        {
            let ghost machine_before = self@;
            let ghost events_before = pending_events@;
            let event = pending_events.remove(0);
            proof {
                assert(events_before.remove(0) =~= events_before.drop_first());
            }
            let dispatched = self.handle_event(event);
            proof {
                let s = step(machine_before, event);
                let first = crate::events::DispatchModel {
                    outcome: s.outcome,
                    commands: s.commands,
                };
                let rest = run_steps(s.post, pending_events@);
                assert(run_steps(machine_before, events_before).dispatches =~= seq![first]
                    + rest.dispatches);
                assert((seq![first] + rest.dispatches)[0] == first);
                assert(first == total.dispatches[results@.len() as int]);
                assert forall|j: int| 0 <= j < rest.dispatches.len() implies #[trigger] rest
                    .dispatches[j] == total.dispatches[results@.len() + 1 + j] by {
                    assert((seq![first] + rest.dispatches)[j + 1] == rest.dispatches[j]);
                }
            }
            results.push(dispatched);
        }
        proof {
            assert(run_steps(self@, pending_events@).dispatches =~= Seq::empty());
        }
        results
    }
}

} // verus!
