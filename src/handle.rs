//! One slot's record and the channels between the supervisor and the task
//! running in the slot: the stop signal (supervisor to task) and the event
//! channel (task to supervisor).

use tokio::sync::mpsc::{Receiver, Sender, UnboundedReceiver, UnboundedSender};
use vstd::prelude::*;

use crate::error::ServerError;
use crate::state::{event_applied, LogMessage, RunEvent, ServerConfig, ServerState};
use crate::status::{event_reach, is_active, ServerStatus};
use crate::supervisor::ServerType;

verus! {

/// tokio's sending end of a bounded channel, carried as an opaque value.
#[verifier::external_type_specification]
#[verifier::external_body]
#[verifier::reject_recursive_types(T)]
pub struct ExSender<T>(Sender<T>);

/// tokio's receiving end of a bounded channel, carried as an opaque value.
#[verifier::external_type_specification]
#[verifier::external_body]
#[verifier::reject_recursive_types(T)]
pub struct ExReceiver<T>(Receiver<T>);

/// tokio's sending end of an unbounded channel, carried as an opaque value.
#[verifier::external_type_specification]
#[verifier::external_body]
#[verifier::reject_recursive_types(T)]
pub struct ExUnboundedSender<T>(UnboundedSender<T>);

/// tokio's receiving end of an unbounded channel, carried as an opaque value.
#[verifier::external_type_specification]
#[verifier::external_body]
#[verifier::reject_recursive_types(T)]
pub struct ExUnboundedReceiver<T>(UnboundedReceiver<T>);

/// Relies on tokio::sync::mpsc::channel: a fresh bounded channel with room
/// for one message (the buffer is not zero, so it does not panic).
#[verifier::external_body]
fn stop_channel() -> (r: (Sender<()>, Receiver<()>)) {
    tokio::sync::mpsc::channel(1)
}

/// Relies on tokio::sync::mpsc::Sender::try_send: queues one message without
/// waiting; whether it succeeds depends on the channel (full, or receiver
/// gone), so nothing is promised of the result.
#[verifier::external_body]
fn try_signal(tx: &Sender<()>) -> (sent: bool) {
    tx.try_send(()).is_ok()
}

/// Relies on tokio::sync::mpsc::unbounded_channel: a fresh unbounded channel.
#[verifier::external_body]
pub(crate) fn event_channel() -> (r: (UnboundedSender<SlotEvent>, UnboundedReceiver<SlotEvent>)) {
    tokio::sync::mpsc::unbounded_channel()
}

/// Relies on Clone for tokio::sync::mpsc::UnboundedSender: another sending
/// end of the same channel.
#[verifier::external_body]
pub(crate) fn another_sender(tx: &UnboundedSender<SlotEvent>) -> (r: UnboundedSender<SlotEvent>) {
    tx.clone()
}

/// Relies on tokio::sync::mpsc::UnboundedSender::send: queues the event
/// without waiting; it fails only when the receiving end is gone, which
/// depends on the channel, so nothing is promised of the result.
#[verifier::external_body]
fn send_event(tx: &UnboundedSender<SlotEvent>, ev: SlotEvent) -> (sent: bool) {
    tx.send(ev).is_ok()
}

/// Relies on tokio::sync::mpsc::UnboundedReceiver::try_recv: the next queued
/// event, if any, without waiting. What is queued depends on the tasks, so
/// nothing is promised of the result.
#[verifier::external_body]
pub(crate) fn next_event(rx: &mut UnboundedReceiver<SlotEvent>) -> (r: Option<SlotEvent>) {
    rx.try_recv().ok()
}

/// A report of the task running as run `run` in slot `kind`.
#[derive(Debug)]
pub struct SlotEvent {
    pub kind: ServerType,
    pub run: u64,
    pub event: RunEvent,
}

/// How a running task reports to the supervisor. Its reports carry the slot
/// and run number it was handed, so that they never reach a later run.
pub struct Reporter {
    pub kind: ServerType,
    pub run: u64,
    pub tx: UnboundedSender<SlotEvent>,
}

impl Reporter {
    pub(crate) fn new(kind: ServerType, run: u64, tx: UnboundedSender<SlotEvent>) -> (r: Reporter)
        ensures
            r.kind == kind,
            r.run == run,
    {
        Reporter { kind, run, tx }
    }

    /// `event`, marked with this reporter's slot and run.
    pub fn tagged(&self, event: RunEvent) -> (r: SlotEvent)
        ensures
            r.kind == self.kind,
            r.run == self.run,
            r.event == event,
    {
        SlotEvent { kind: self.kind, run: self.run, event }
    }

    /// Sends `self.tagged(event)` to the supervisor; false when the
    /// supervisor is gone. Delivery depends on the channel, so nothing is
    /// promised of the result.
    pub fn send(&self, event: RunEvent) -> (sent: bool) {
        let ev = self.tagged(event);
        send_event(&self.tx, ev)
    }
}

/// The run number that follows `run`.
pub open spec fn next_run(run: u64) -> u64 {
    if run == u64::MAX { 0 } else { (run + 1) as u64 }
}

/// Control handle of one slot: its record, the number of its current (or
/// last) run, and, while that run may be listening for it, the sending end of
/// the run's stop signal.
pub struct ServerHandle {
    pub state: ServerState,
    pub run: u64,
    pub shutdown_tx: Option<Sender<()>>,
}

impl ServerHandle {
    /// A stop signal is held for the current run.
    pub open spec fn signal_armed(&self) -> bool {
        self.shutdown_tx is Some
    }

    /// A handle on a stopped slot with an empty log, the given configuration,
    /// run number 0 and no stop signal.
    pub fn new(config: ServerConfig) -> (r: ServerHandle)
        ensures
            r.state.status == ServerStatus::Stopped,
            r.state.logs@ == Seq::<LogMessage>::empty(),
            r.state.config == config,
            r.state.wf(),
            r.run == 0,
            !r.signal_armed(),
    {
        ServerHandle { state: ServerState::new(config), run: 0, shutdown_tx: None }
    }

    /// Keeps `tx` as the stop signal of the current run.
    pub fn set_shutdown_tx(&mut self, tx: Sender<()>)
        ensures
            final(self).signal_armed(),
            final(self).state == old(self).state,
            final(self).run == old(self).run,
    {
        self.shutdown_tx = Some(tx);
    }

    /// Sends the stop signal, keeping it; false when none is held or the
    /// channel does not take the message.
    pub fn request_shutdown(&self) -> (sent: bool)
        ensures
            !self.signal_armed() ==> !sent,
    {
        match &self.shutdown_tx {
            Some(tx) => try_signal(tx),
            None => false,
        }
    }

    /// Sends the stop signal and gives it up, so that no later call can send
    /// it again; false when none was held or the channel did not take it.
    pub fn fire_stop(&mut self) -> (sent: bool)
        ensures
            !final(self).signal_armed(),
            !old(self).signal_armed() ==> !sent,
            final(self).state == old(self).state,
            final(self).run == old(self).run,
    {
        match self.shutdown_tx.take() {
            Some(tx) => try_signal(&tx),
            None => false,
        }
    }

    /// Begins a new run with snapshot `config` if the slot is idle (`Stopped`
    /// or `Error`): the slot becomes `Starting` with an empty log, takes the
    /// next run number and keeps a fresh stop signal, whose receiving end is
    /// returned for the task. On an active slot nothing changes and
    /// `AlreadyRunning` is returned.
    pub fn begin(&mut self, config: ServerConfig) -> (r: Result<Receiver<()>, ServerError>)
        ensures
            r is Ok <==> !is_active(old(self).state.status),
            r is Ok ==> {
                &&& final(self).state.status == ServerStatus::Starting
                &&& final(self).state.logs@ == Seq::<LogMessage>::empty()
                &&& final(self).state.config == config
                &&& final(self).run == next_run(old(self).run)
                &&& final(self).signal_armed()
            },
            r is Err ==> r == Err::<Receiver<()>, ServerError>(ServerError::AlreadyRunning)
                && *final(self) == *old(self),
            old(self).state.wf() ==> final(self).state.wf(),
    {
        match self.state.begin_run(config) {
            Ok(()) => {
                self.run = if self.run == u64::MAX { 0 } else { self.run + 1 };
                let (tx, rx) = stop_channel();
                self.set_shutdown_tx(tx);
                Ok(rx)
            },
            Err(e) => Err(e),
        }
    }

    /// Requests a stop if the run is `Starting` or `Running`: the slot
    /// becomes `Stopping` (log and configuration kept), and then the stop
    /// signal is sent and given up, so it is sent at most once per run.
    /// Otherwise nothing changes and `NotRunning` is returned.
    pub fn stop(&mut self) -> (r: Result<(), ServerError>)
        ensures
            r is Ok <==> (old(self).state.status is Starting || old(self).state.status is Running),
            r is Ok ==> {
                &&& final(self).state.status == ServerStatus::Stopping
                &&& final(self).state.logs == old(self).state.logs
                &&& final(self).state.config == old(self).state.config
                &&& final(self).run == old(self).run
                &&& !final(self).signal_armed()
            },
            r is Err ==> r == Err::<(), ServerError>(ServerError::NotRunning) && *final(self) == *old(self),
            old(self).state.wf() ==> final(self).state.wf(),
    {
        match self.state.request_stop() {
            Ok(()) => {
                self.fire_stop();
                Ok(())
            },
            Err(e) => Err(e),
        }
    }

    /// Applies a report of run `run`: it takes effect as `ServerState::apply`
    /// says if `run` is the current run, and is dropped otherwise.
    pub fn apply(&mut self, run: u64, event: RunEvent)
        ensures
            run == old(self).run ==> event_applied(old(self).state, final(self).state, event),
            run != old(self).run ==> final(self).state == old(self).state,
            event_reach(old(self).state.status, final(self).state.status),
            final(self).run == old(self).run,
            final(self).shutdown_tx == old(self).shutdown_tx,
            old(self).state.wf() ==> final(self).state.wf(),
    {
        if run == self.run {
            self.state.apply(event);
        }
    }

    /// The slot's status.
    pub fn status(&self) -> (r: ServerStatus)
        ensures
            r == self.state.status,
    {
        self.state.status.duplicate()
    }

    /// The slot's status is `Running`.
    pub fn is_running(&self) -> (r: bool)
        ensures
            r == (self.state.status is Running),
    {
        match self.state.status {
            ServerStatus::Running => true,
            _ => false,
        }
    }

    /// A copy of the slot's log window, oldest entry first.
    pub fn logs(&self) -> (r: Vec<LogMessage>)
        ensures
            r@ == self.state.logs@,
    {
        let src = &self.state.logs;
        let mut out: Vec<LogMessage> = Vec::new();
        let mut i: usize = 0;
        while i < src.len()
            invariant
                i <= src@.len(),
                out@ == src@.subrange(0, i as int),
            decreases src@.len() - i,
        {
            out.push(src[i].duplicate());
            i = i + 1;
            proof {
                assert(out@ =~= src@.subrange(0, i as int));
            }
        }
        proof {
            assert(src@.subrange(0, i as int) =~= src@);
        }
        out
    }
}

} // verus!
