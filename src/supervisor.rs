//! The supervisor: one slot per kind of server, started, stopped and
//! observed through a single owner.

use tokio::sync::mpsc::{Receiver, UnboundedReceiver, UnboundedSender};
use vstd::prelude::*;

use crate::error::ServerError;
use crate::handle::{another_sender, event_channel, next_event, next_run, Reporter, ServerHandle, SlotEvent};
use crate::servers::ftp::FtpConfig;
use crate::servers::http::HttpConfig;
use crate::servers::ssh::SshConfig;
use crate::servers::tftp::TftpConfig;
use crate::state::{event_applied, LogMessage, ServerConfig};
use crate::status::{event_reach, is_active, ServerStatus};

verus! {

/// The kinds of server; the supervisor holds one slot for each.
#[derive(Debug, Clone, Copy, PartialEq, Eq, Structural)]
pub enum ServerType {
    Http,
    Ftp,
    Tftp,
    Ssh,
}

/// Display name of each kind.
pub open spec fn kind_name(t: ServerType) -> Seq<char> {
    match t {
        ServerType::Http => "HTTP Server"@,
        ServerType::Ftp => "FTP Server"@,
        ServerType::Tftp => "TFTP Server"@,
        ServerType::Ssh => "SSH/SFTP Server"@,
    }
}

/// Port each kind listens on unless configured otherwise.
pub open spec fn kind_default_port(t: ServerType) -> u16 {
    match t {
        ServerType::Http => 7777,
        ServerType::Ftp => 2121,
        ServerType::Tftp => 69,
        ServerType::Ssh => 2222,
    }
}

impl ServerType {
    /// Every kind, in display order.
    pub fn all() -> (r: Vec<ServerType>)
        ensures
            r@ == seq![ServerType::Http, ServerType::Ftp, ServerType::Tftp, ServerType::Ssh],
    {
        let mut v: Vec<ServerType> = Vec::new();
        v.push(ServerType::Http);
        v.push(ServerType::Ftp);
        v.push(ServerType::Tftp);
        v.push(ServerType::Ssh);
        proof {
            assert(v@ =~= seq![ServerType::Http, ServerType::Ftp, ServerType::Tftp, ServerType::Ssh]);
        }
        v
    }

    /// See `kind_name`.
    pub fn name(&self) -> (r: &'static str)
        ensures
            r@ == kind_name(*self),
    {
        match self {
            ServerType::Http => "HTTP Server",
            ServerType::Ftp => "FTP Server",
            ServerType::Tftp => "TFTP Server",
            ServerType::Ssh => "SSH/SFTP Server",
        }
    }

    /// See `kind_default_port`.
    pub fn default_port(&self) -> (r: u16)
        ensures
            r == kind_default_port(*self),
    {
        match self {
            ServerType::Http => 7777,
            ServerType::Ftp => 2121,
            ServerType::Tftp => 69,
            ServerType::Ssh => 2222,
        }
    }
}

/// The configuration of one run, of the kind that it names.
#[derive(Debug)]
pub enum ProtocolConfig {
    Http(HttpConfig),
    Ftp(FtpConfig),
    Tftp(TftpConfig),
    Ssh(SshConfig),
}

impl ProtocolConfig {
    /// The kind of server this configuration is for.
    pub open spec fn kind_of(self) -> ServerType {
        match self {
            ProtocolConfig::Http(_) => ServerType::Http,
            ProtocolConfig::Ftp(_) => ServerType::Ftp,
            ProtocolConfig::Tftp(_) => ServerType::Tftp,
            ProtocolConfig::Ssh(_) => ServerType::Ssh,
        }
    }

    /// The snapshot a slot keeps of this configuration.
    pub open spec fn snapshot_of(self) -> ServerConfig {
        match self {
            ProtocolConfig::Http(c) => ServerConfig {
                root_dir: c.root_dir,
                port: c.port,
                auto_stop_seconds: c.auto_stop_seconds,
            },
            ProtocolConfig::Ftp(c) => ServerConfig { root_dir: c.root_dir, port: c.port, auto_stop_seconds: None },
            ProtocolConfig::Tftp(c) => ServerConfig { root_dir: c.root_dir, port: c.port, auto_stop_seconds: None },
            ProtocolConfig::Ssh(c) => ServerConfig { root_dir: c.root_dir, port: c.port, auto_stop_seconds: None },
        }
    }

    /// See `kind_of`.
    pub fn kind(&self) -> (r: ServerType)
        ensures
            r == self.kind_of(),
    {
        match self {
            ProtocolConfig::Http(_) => ServerType::Http,
            ProtocolConfig::Ftp(_) => ServerType::Ftp,
            ProtocolConfig::Tftp(_) => ServerType::Tftp,
            ProtocolConfig::Ssh(_) => ServerType::Ssh,
        }
    }

    /// See `snapshot_of`.
    pub fn snapshot(&self) -> (r: ServerConfig)
        ensures
            r == self.snapshot_of(),
    {
        match self {
            ProtocolConfig::Http(c) => ServerConfig {
                root_dir: c.root_dir.clone(),
                port: c.port,
                auto_stop_seconds: c.auto_stop_seconds,
            },
            ProtocolConfig::Ftp(c) => ServerConfig { root_dir: c.root_dir.clone(), port: c.port, auto_stop_seconds: None },
            ProtocolConfig::Tftp(c) => ServerConfig { root_dir: c.root_dir.clone(), port: c.port, auto_stop_seconds: None },
            ProtocolConfig::Ssh(c) => ServerConfig { root_dir: c.root_dir.clone(), port: c.port, auto_stop_seconds: None },
        }
    }
}

/// What a task needs to carry out an accepted run: its configuration, the
/// reporter for its slot and run, and the receiving end of its stop signal.
pub struct RunTicket {
    pub config: ProtocolConfig,
    pub reporter: Reporter,
    pub shutdown_rx: Receiver<()>,
}

/// A stop request is accepted in this status.
pub open spec fn stoppable(s: ServerStatus) -> bool {
    s is Starting || s is Running
}

/// Owner of the fixed slot table, one slot per `ServerType`, and of the
/// receiving end of the channel that running tasks report through.
pub struct Supervisor {
    http: ServerHandle,
    ftp: ServerHandle,
    tftp: ServerHandle,
    ssh: ServerHandle,
    events_tx: UnboundedSender<SlotEvent>,
    events_rx: UnboundedReceiver<SlotEvent>,
}

impl Supervisor {
    /// The slot of kind `k`.
    pub closed spec fn slot(&self, k: ServerType) -> ServerHandle {
        match k {
            ServerType::Http => self.http,
            ServerType::Ftp => self.ftp,
            ServerType::Tftp => self.tftp,
            ServerType::Ssh => self.ssh,
        }
    }

    /// Every slot's log window is within capacity.
    pub open spec fn wf(&self) -> bool {
        forall|k: ServerType| (#[trigger] self.slot(k)).state.wf()
    }

    /// How many slots are `Starting` or `Running`.
    pub open spec fn stoppable_count(&self) -> nat {
        (if stoppable(self.slot(ServerType::Http).state.status) { 1nat } else { 0nat })
            + (if stoppable(self.slot(ServerType::Ftp).state.status) { 1nat } else { 0nat })
            + (if stoppable(self.slot(ServerType::Tftp).state.status) { 1nat } else { 0nat })
            + (if stoppable(self.slot(ServerType::Ssh).state.status) { 1nat } else { 0nat })
    }

    /// Four stopped slots with empty logs, each configured on `root_dir` and
    /// the default port of its kind, at run 0 and holding no stop signal.
    pub fn new(root_dir: String) -> (r: Supervisor)
        ensures
            r.wf(),
            forall|k: ServerType| {
                &&& (#[trigger] r.slot(k)).state.status == ServerStatus::Stopped
                &&& r.slot(k).state.logs@ == Seq::<LogMessage>::empty()
                &&& r.slot(k).state.config == (ServerConfig {
                    root_dir: root_dir,
                    port: kind_default_port(k),
                    auto_stop_seconds: None,
                })
                &&& r.slot(k).run == 0
                &&& !r.slot(k).signal_armed()
            },
    {
        let http = ServerHandle::new(
            ServerConfig { root_dir: root_dir.clone(), port: ServerType::Http.default_port(), auto_stop_seconds: None },
        );
        let ftp = ServerHandle::new(
            ServerConfig { root_dir: root_dir.clone(), port: ServerType::Ftp.default_port(), auto_stop_seconds: None },
        );
        let tftp = ServerHandle::new(
            ServerConfig { root_dir: root_dir.clone(), port: ServerType::Tftp.default_port(), auto_stop_seconds: None },
        );
        let ssh = ServerHandle::new(
            ServerConfig { root_dir, port: ServerType::Ssh.default_port(), auto_stop_seconds: None },
        );
        let (events_tx, events_rx) = event_channel();
        Supervisor { http, ftp, tftp, ssh, events_tx, events_rx }
    }

    /// The handle of the slot of kind `kind`.
    pub fn handle(&self, kind: ServerType) -> (r: &ServerHandle)
        ensures
            *r == self.slot(kind),
    {
        match kind {
            ServerType::Http => &self.http,
            ServerType::Ftp => &self.ftp,
            ServerType::Tftp => &self.tftp,
            ServerType::Ssh => &self.ssh,
        }
    }

    /// Starts a run of the kind `config` is for, if that slot is idle: see
    /// `ServerHandle::begin`; the slot's snapshot is `config.snapshot_of()`.
    /// The ticket carries `config`, a reporter for the slot's new run and the
    /// stop receiver; the caller runs the task. On an active slot the start
    /// is refused with `AlreadyRunning`, nothing changes and no ticket is
    /// handed out, so no second task is started. Other slots are never touched.
    pub fn start(&mut self, config: ProtocolConfig) -> (r: Result<RunTicket, ServerError>)
        requires
            old(self).wf(),
        ensures
            final(self).wf(),
            r is Ok <==> !is_active(old(self).slot(config.kind_of()).state.status),
            r is Ok ==> {
                &&& final(self).slot(config.kind_of()).state.status == ServerStatus::Starting
                &&& final(self).slot(config.kind_of()).state.logs@ == Seq::<LogMessage>::empty()
                &&& final(self).slot(config.kind_of()).state.config == config.snapshot_of()
                &&& final(self).slot(config.kind_of()).run == next_run(old(self).slot(config.kind_of()).run)
                &&& final(self).slot(config.kind_of()).signal_armed()
                &&& r->Ok_0.config == config
                &&& r->Ok_0.reporter.kind == config.kind_of()
                &&& r->Ok_0.reporter.run == final(self).slot(config.kind_of()).run
            },
            r is Err ==> r == Err::<RunTicket, ServerError>(ServerError::AlreadyRunning)
                && *final(self) == *old(self),
            forall|k: ServerType| k != config.kind_of() ==> #[trigger] final(self).slot(k) == old(self).slot(k),
    {
        let kind = config.kind();
        let snapshot = config.snapshot();
        let tx = another_sender(&self.events_tx);
        proof {
            assert(old(self).slot(kind).state.wf());
        }
        let slot = match kind {
            ServerType::Http => &mut self.http,
            ServerType::Ftp => &mut self.ftp,
            ServerType::Tftp => &mut self.tftp,
            ServerType::Ssh => &mut self.ssh,
        };
        let r = match slot.begin(snapshot) {
            Ok(rx) => {
                let reporter = Reporter::new(kind, slot.run, tx);
                Ok(RunTicket { config, reporter, shutdown_rx: rx })
            },
            Err(e) => Err(e),
        };
        proof {
            assert forall|k: ServerType| (#[trigger] self.slot(k)).state.wf() by {
                if k != kind {
                    assert(old(self).slot(k).state.wf());
                }
            }
        }
        r
    }

    /// Requests a stop of the run in slot `kind`: see `ServerHandle::stop`.
    /// A `Starting` or `Running` slot becomes `Stopping` and its stop signal
    /// is sent and given up, so it is sent at most once per run; any other slot is left as it is and `NotRunning` is
    /// returned. Other slots are never touched.
    pub fn stop(&mut self, kind: ServerType) -> (r: Result<(), ServerError>)
        requires
            old(self).wf(),
        ensures
            final(self).wf(),
            r is Ok <==> stoppable(old(self).slot(kind).state.status),
            r is Ok ==> {
                &&& final(self).slot(kind).state.status == ServerStatus::Stopping
                &&& final(self).slot(kind).state.logs == old(self).slot(kind).state.logs
                &&& final(self).slot(kind).state.config == old(self).slot(kind).state.config
                &&& final(self).slot(kind).run == old(self).slot(kind).run
                &&& !final(self).slot(kind).signal_armed()
            },
            r is Err ==> r == Err::<(), ServerError>(ServerError::NotRunning) && *final(self) == *old(self),
            forall|k: ServerType| k != kind ==> #[trigger] final(self).slot(k) == old(self).slot(k),
    {
        proof {
            assert(old(self).slot(kind).state.wf());
        }
        let r = match kind {
            ServerType::Http => self.http.stop(),
            ServerType::Ftp => self.ftp.stop(),
            ServerType::Tftp => self.tftp.stop(),
            ServerType::Ssh => self.ssh.stop(),
        };
        proof {
            assert forall|k: ServerType| (#[trigger] self.slot(k)).state.wf() by {
                if k != kind {
                    assert(old(self).slot(k).state.wf());
                }
            }
        }
        r
    }

    /// Requests a stop of every `Starting` or `Running` slot, which becomes
    /// `Stopping`; the others are left as they are. Returns how many were
    /// stopped. Does not wait for the runs to end.
    pub fn shutdown_all(&mut self) -> (stopped: usize)
        requires
            old(self).wf(),
        ensures
            final(self).wf(),
            stopped == old(self).stoppable_count(),
            forall|k: ServerType| stoppable(old(self).slot(k).state.status)
                ==> (#[trigger] final(self).slot(k)).state.status == ServerStatus::Stopping
                    && !final(self).slot(k).signal_armed(),
            forall|k: ServerType| !stoppable(old(self).slot(k).state.status)
                ==> #[trigger] final(self).slot(k) == old(self).slot(k),
    {
        let mut n: usize = 0;
        if self.stop(ServerType::Http).is_ok() {
            n = n + 1;
        }
        if self.stop(ServerType::Ftp).is_ok() {
            n = n + 1;
        }
        if self.stop(ServerType::Tftp).is_ok() {
            n = n + 1;
        }
        if self.stop(ServerType::Ssh).is_ok() {
            n = n + 1;
        }
        n
    }

    /// Applies one report: to the slot it names, where it takes effect only
    /// if it belongs to that slot's current run (see `ServerHandle::apply`).
    pub fn apply(&mut self, ev: SlotEvent)
        requires
            old(self).wf(),
        ensures
            final(self).wf(),
            ev.run == old(self).slot(ev.kind).run
                ==> event_applied(old(self).slot(ev.kind).state, final(self).slot(ev.kind).state, ev.event),
            ev.run != old(self).slot(ev.kind).run
                ==> final(self).slot(ev.kind).state == old(self).slot(ev.kind).state,
            forall|k: ServerType| k != ev.kind ==> #[trigger] final(self).slot(k) == old(self).slot(k),
            forall|k: ServerType| {
                &&& event_reach(old(self).slot(k).state.status, (#[trigger] final(self).slot(k)).state.status)
                &&& final(self).slot(k).run == old(self).slot(k).run
                &&& final(self).slot(k).shutdown_tx == old(self).slot(k).shutdown_tx
            },
    {
        match ev.kind {
            ServerType::Http => self.http.apply(ev.run, ev.event),
            ServerType::Ftp => self.ftp.apply(ev.run, ev.event),
            ServerType::Tftp => self.tftp.apply(ev.run, ev.event),
            ServerType::Ssh => self.ssh.apply(ev.run, ev.event),
        }
    }

    /// Takes the reports queued by running tasks, at most `max` of them, in
    /// the order they were sent, and applies each with `apply`; returns how
    /// many were taken. Which reports are queued depends on the tasks, so the
    /// contract states what holds whatever they are: no status goes back, no
    /// report starts a run, and with `max == 0` nothing changes.
    pub fn sync(&mut self, max: usize) -> (applied: usize)
        requires
            old(self).wf(),
        ensures
            final(self).wf(),
            applied <= max,
            max == 0 ==> *final(self) == *old(self),
            forall|k: ServerType| {
                &&& event_reach(old(self).slot(k).state.status, (#[trigger] final(self).slot(k)).state.status)
                &&& final(self).slot(k).run == old(self).slot(k).run
                &&& final(self).slot(k).shutdown_tx == old(self).slot(k).shutdown_tx
            },
    {
        let mut n: usize = 0;
        let mut done = false;
        while n < max && !done
            invariant
                n <= max,
                max == 0 ==> *self == *old(self),
                self.wf(),
                forall|k: ServerType| {
                    &&& event_reach(old(self).slot(k).state.status, (#[trigger] self.slot(k)).state.status)
                    &&& self.slot(k).run == old(self).slot(k).run
                    &&& self.slot(k).shutdown_tx == old(self).slot(k).shutdown_tx
                },
            decreases max - n, (if done { 0int } else { 1int }),
        {
            let ghost pre = *self;
            let next = next_event(&mut self.events_rx);
            proof {
                assert forall|k: ServerType| #[trigger] self.slot(k) == pre.slot(k) by {}
                assert forall|k: ServerType| (#[trigger] self.slot(k)).state.wf() by {
                    assert(pre.slot(k).state.wf());
                }
            }
            match next {
                Some(ev) => {
                    let ghost mid = *self;
                    proof {
                        assert forall|k: ServerType| event_reach(old(self).slot(k).state.status, #[trigger] mid.slot(k).state.status) by {
                            assert(mid.slot(k) == pre.slot(k));
                        }
                    }
                    self.apply(ev);
                    proof {
                        assert forall|k: ServerType| event_reach(old(self).slot(k).state.status, #[trigger] self.slot(k).state.status) by {
                            crate::status::lemma_event_reach_trans(
                                old(self).slot(k).state.status,
                                mid.slot(k).state.status,
                                self.slot(k).state.status,
                            );
                        }
                    }
                    n = n + 1;
                },
                None => {
                    done = true;
                    proof {
                        assert forall|k: ServerType| event_reach(old(self).slot(k).state.status, #[trigger] self.slot(k).state.status) by {
                            assert(self.slot(k) == pre.slot(k));
                        }
                    }
                },
            }
        }
        n
    }

    /// The status of slot `kind`.
    pub fn status(&self, kind: ServerType) -> (r: ServerStatus)
        ensures
            r == self.slot(kind).state.status,
    {
        self.handle(kind).status()
    }

    /// Slot `kind` is `Running`.
    pub fn is_running(&self, kind: ServerType) -> (r: bool)
        ensures
            r == (self.slot(kind).state.status is Running),
    {
        self.handle(kind).is_running()
    }

    /// A copy of the log window of slot `kind`, oldest entry first.
    pub fn logs(&self, kind: ServerType) -> (r: Vec<LogMessage>)
        ensures
            r@ == self.slot(kind).state.logs@,
    {
        self.handle(kind).logs()
    }

    /// No slot has an active run.
    pub fn all_idle(&self) -> (r: bool)
        ensures
            r == (forall|k: ServerType| !is_active(#[trigger] self.slot(k).state.status)),
    {
        let r = !self.http.state.status.is_active() && !self.ftp.state.status.is_active()
            && !self.tftp.state.status.is_active() && !self.ssh.state.status.is_active();
        proof {
            if !r {
                if is_active(self.http.state.status) {
                    assert(is_active(self.slot(ServerType::Http).state.status));
                } else if is_active(self.ftp.state.status) {
                    assert(is_active(self.slot(ServerType::Ftp).state.status));
                } else if is_active(self.tftp.state.status) {
                    assert(is_active(self.slot(ServerType::Tftp).state.status));
                } else {
                    assert(is_active(self.slot(ServerType::Ssh).state.status));
                }
            }
        }
        r
    }
}

} // verus!
