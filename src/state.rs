//! Per-slot state: status, configuration snapshot and the bounded log window.

use vstd::prelude::*;

use crate::error::ServerError;
use crate::status::{event_reach, is_active, may_follow, moves_forward, ServerStatus};

verus! {

/// Most log entries a slot keeps; older entries are dropped first.
pub const LOG_CAPACITY: usize = 100;

/// Severity of a log entry.
#[derive(Debug, Clone, Copy, PartialEq, Eq, Structural)]
pub enum LogLevel {
    Info,
    Warning,
    Error,
}

/// One log entry: wall-clock time in milliseconds since the Unix epoch,
/// severity and text.
#[derive(Debug, Clone)]
pub struct LogMessage {
    pub timestamp_ms: i64,
    pub level: LogLevel,
    pub message: String,
}

/// Relies on std::time::SystemTime::now, converted by chrono's
/// `From<SystemTime> for DateTime<Utc>` and read with
/// `DateTime::timestamp_millis`: the current wall-clock time in milliseconds
/// since the Unix epoch, negative before it. The conversion handles clocks set
/// before 1970; it fails only for a clock more than about 262,000 years away
/// from 1970, outside the range chrono can represent. Nothing is promised of
/// the value.
#[verifier::external_body]
fn now_millis() -> (r: i64) {
    chrono::DateTime::<chrono::Utc>::from(std::time::SystemTime::now()).timestamp_millis()
}

impl LogMessage {
    /// An `Info` entry stamped with the current time.
    pub fn info(message: String) -> (r: LogMessage)
        ensures
            r.level == LogLevel::Info,
            r.message == message,
    {
        LogMessage { timestamp_ms: now_millis(), level: LogLevel::Info, message }
    }

    /// An `Error` entry stamped with the current time.
    pub fn error(message: String) -> (r: LogMessage)
        ensures
            r.level == LogLevel::Error,
            r.message == message,
    {
        LogMessage { timestamp_ms: now_millis(), level: LogLevel::Error, message }
    }

    /// A field-by-field copy.
    pub fn duplicate(&self) -> (r: LogMessage)
        ensures
            r == *self,
    {
        LogMessage { timestamp_ms: self.timestamp_ms, level: self.level, message: self.message.clone() }
    }
}

/// Entries that say the lines of `lines` at severity `Info`, in order.
pub open spec fn is_info_of(r: Seq<LogMessage>, lines: Seq<Seq<char>>) -> bool {
    &&& r.len() == lines.len()
    &&& forall|i: int| 0 <= i < r.len() ==> (#[trigger] r[i]).level == LogLevel::Info && r[i].message@ == lines[i]
}

/// One `Info` entry per line, in order.
pub fn info_entries(lines: Vec<String>) -> (r: Vec<LogMessage>)
    ensures
        is_info_of(r@, lines@.map_values(|l: String| l@)),
{
    let mut out: Vec<LogMessage> = Vec::new();
    let mut i: usize = 0;
    while i < lines.len()
        invariant
            i <= lines@.len(),
            is_info_of(out@, lines@.map_values(|l: String| l@).subrange(0, i as int)),
        decreases lines@.len() - i,
    {
        out.push(LogMessage::info(lines[i].clone()));
        i = i + 1;
    }
    assert(lines@.map_values(|l: String| l@).subrange(0, i as int) =~= lines@.map_values(|l: String| l@));
    out
}

/// The log window after appending `m`: the entry goes last, and the oldest
/// entry leaves once the window would exceed its capacity.
pub open spec fn log_after(logs: Seq<LogMessage>, m: LogMessage) -> Seq<LogMessage> {
    let p = logs.push(m);
    if p.len() > LOG_CAPACITY {
        p.drop_first()
    } else {
        p
    }
}

/// The log window after appending every entry of `ms` in order.
pub open spec fn log_after_all(logs: Seq<LogMessage>, ms: Seq<LogMessage>) -> Seq<LogMessage>
    decreases ms.len(),
{
    if ms.len() == 0 {
        logs
    } else {
        log_after(log_after_all(logs, ms.drop_last()), ms.last())
    }
}

/// The last `min(n, s.len())` elements of `s`, in order.
pub open spec fn last_n<T>(s: Seq<T>, n: int) -> Seq<T> {
    if s.len() <= n {
        s
    } else {
        s.subrange(s.len() - n, s.len() as int)
    }
}

/// Appending any sequence of entries to a window that is within capacity
/// leaves exactly the most recent `LOG_CAPACITY` entries of everything
/// appended so far, in the order they were appended.
pub proof fn lemma_log_window(logs: Seq<LogMessage>, ms: Seq<LogMessage>)
    requires
        logs.len() <= LOG_CAPACITY,
    ensures
        log_after_all(logs, ms) == last_n(logs + ms, LOG_CAPACITY as int),
    decreases ms.len(),
{
    if ms.len() == 0 {
        assert(logs + ms =~= logs);
    } else {
        let prev = ms.drop_last();
        lemma_log_window(logs, prev);
        let w = log_after_all(logs, prev);
        let all = logs + ms;
        assert(logs + prev =~= all.drop_last());
        if all.len() <= LOG_CAPACITY {
            assert(w.push(ms.last()) =~= all);
        } else {
            assert(log_after(w, ms.last()) =~= all.subrange(all.len() - LOG_CAPACITY, all.len() as int));
        }
    }
}

/// After more than `LOG_CAPACITY` appends to an empty window it holds
/// exactly `LOG_CAPACITY` entries: the most recent ones, in the order they
/// were appended.
pub proof fn lemma_log_window_full(ms: Seq<LogMessage>)
    requires
        ms.len() > LOG_CAPACITY,
    ensures
        log_after_all(Seq::empty(), ms) == ms.subrange(ms.len() - LOG_CAPACITY, ms.len() as int),
        log_after_all(Seq::empty(), ms).len() == LOG_CAPACITY,
{
    lemma_log_window(Seq::empty(), ms);
    assert(Seq::<LogMessage>::empty() + ms =~= ms);
}

/// Configuration snapshot common to every kind of server.
#[derive(Debug, Clone)]
pub struct ServerConfig {
    pub root_dir: String,
    pub port: u16,
    pub auto_stop_seconds: Option<u64>,
}

impl ServerConfig {
    /// A field-by-field copy.
    pub fn duplicate(&self) -> (r: ServerConfig)
        ensures
            r == *self,
    {
        ServerConfig {
            root_dir: self.root_dir.clone(),
            port: self.port,
            auto_stop_seconds: self.auto_stop_seconds,
        }
    }
}


/// Record of one slot, owned by its supervisor.
pub struct ServerState {
    pub status: ServerStatus,
    pub logs: Vec<LogMessage>,
    pub config: ServerConfig,
}

impl ServerState {
    /// The log window is within capacity.
    pub open spec fn wf(&self) -> bool {
        self.logs@.len() <= LOG_CAPACITY
    }

    /// A stopped slot with an empty log and the given configuration.
    pub fn new(config: ServerConfig) -> (r: ServerState)
        ensures
            r.status == ServerStatus::Stopped,
            r.logs@ == Seq::<LogMessage>::empty(),
            r.config == config,
            r.wf(),
    {
        ServerState { status: ServerStatus::Stopped, logs: Vec::new(), config }
    }

    /// Appends an entry, dropping the oldest one beyond `LOG_CAPACITY`.
    pub fn add_log(&mut self, msg: LogMessage)
        ensures
            final(self).logs@ == log_after(old(self).logs@, msg),
            final(self).status == old(self).status,
            final(self).config == old(self).config,
            old(self).wf() ==> final(self).wf(),
    {
        self.logs.push(msg);
        if self.logs.len() > LOG_CAPACITY {
            self.logs.remove(0);
        }
    }

    /// Moves to status `to` if it may follow the current one; otherwise
    /// changes nothing. Returns whether the move took place.
    pub fn advance(&mut self, to: ServerStatus) -> (moved: bool)
        ensures
            moves_forward(old(self).status, final(self).status),
            moved == may_follow(old(self).status, to),
            moved ==> final(self).status == to,
            !moved ==> final(self).status == old(self).status,
            final(self).logs == old(self).logs,
            final(self).config == old(self).config,
    {
        if self.status.may_move_to(&to) {
            self.status = to;
            true
        } else {
            false
        }
    }

    /// Accepts a new run when the slot is idle (`Stopped` or `Error`): the
    /// status becomes `Starting`, the log is cleared and `config` becomes the
    /// snapshot. On an active slot nothing changes and `AlreadyRunning` is
    /// returned.
    pub fn begin_run(&mut self, config: ServerConfig) -> (r: Result<(), ServerError>)
        ensures
            moves_forward(old(self).status, final(self).status),
            r is Ok <==> !is_active(old(self).status),
            r is Ok ==> final(self).status == ServerStatus::Starting
                && final(self).logs@ == Seq::<LogMessage>::empty()
                && final(self).config == config,
            r is Err ==> r == Err::<(), ServerError>(ServerError::AlreadyRunning)
                && *final(self) == *old(self),
            old(self).wf() ==> final(self).wf(),
    {
        if self.status.is_active() {
            Err(ServerError::AlreadyRunning)
        } else {
            self.status = ServerStatus::Starting;
            self.logs = Vec::new();
            self.config = config;
            Ok(())
        }
    }

    /// Accepts a stop request while `Starting` or `Running`: the status
    /// becomes `Stopping`. Otherwise nothing changes and `NotRunning` is
    /// returned.
    pub fn request_stop(&mut self) -> (r: Result<(), ServerError>)
        ensures
            moves_forward(old(self).status, final(self).status),
            r is Ok <==> (old(self).status is Starting || old(self).status is Running),
            r is Ok ==> final(self).status == ServerStatus::Stopping,
            r is Err ==> r == Err::<(), ServerError>(ServerError::NotRunning),
            final(self).logs == old(self).logs,
            final(self).config == old(self).config,
            r is Err ==> final(self).status == old(self).status,
    {
        if self.advance(ServerStatus::Stopping) {
            Ok(())
        } else {
            Err(ServerError::NotRunning)
        }
    }

    /// Appends the entries of `msgs` in order.
    pub fn add_logs(&mut self, msgs: Vec<LogMessage>)
        ensures
            final(self).logs@ == log_after_all(old(self).logs@, msgs@),
            final(self).status == old(self).status,
            final(self).config == old(self).config,
            old(self).wf() ==> final(self).wf(),
    {
        let ghost start = self.logs@;
        let mut i: usize = 0;
        while i < msgs.len()
            invariant
                i <= msgs@.len(),
                self.logs@ == log_after_all(start, msgs@.subrange(0, i as int)),
                self.status == old(self).status,
                self.config == old(self).config,
                old(self).wf() ==> self.wf(),
            decreases msgs@.len() - i,
        {
            proof {
                assert(msgs@.subrange(0, i + 1).drop_last() =~= msgs@.subrange(0, i as int));
            }
            self.add_log(msgs[i].duplicate());
            i = i + 1;
        }
        proof {
            assert(msgs@.subrange(0, i as int) =~= msgs@);
        }
    }

    /// The server is listening: `Starting` becomes `Running` and `lines` are
    /// logged. In any other status nothing changes.
    pub fn mark_running(&mut self, lines: Vec<LogMessage>) -> (moved: bool)
        ensures
            moves_forward(old(self).status, final(self).status),
            moved == (old(self).status is Starting),
            moved ==> final(self).status == ServerStatus::Running
                && final(self).logs@ == log_after_all(old(self).logs@, lines@)
                && final(self).config == old(self).config,
            !moved ==> *final(self) == *old(self),
            old(self).wf() ==> final(self).wf(),
    {
        if self.advance(ServerStatus::Running) {
            self.add_logs(lines);
            true
        } else {
            false
        }
    }

    /// The run ended after releasing its listener: an active status becomes
    /// `Stopped` and `last` is logged. On an idle slot nothing changes.
    pub fn mark_stopped(&mut self, last: LogMessage) -> (moved: bool)
        ensures
            moves_forward(old(self).status, final(self).status),
            moved == is_active(old(self).status),
            moved ==> final(self).status == ServerStatus::Stopped
                && final(self).logs@ == log_after(old(self).logs@, last)
                && final(self).config == old(self).config,
            !moved ==> *final(self) == *old(self),
            old(self).wf() ==> final(self).wf(),
    {
        if self.advance(ServerStatus::Stopped) {
            self.add_log(last);
            true
        } else {
            false
        }
    }

    /// The run failed: an active status becomes `Error(reason)` and an
    /// `Error` entry with `text` is logged. On an idle slot nothing changes.
    pub fn mark_failed(&mut self, reason: String, text: String) -> (moved: bool)
        ensures
            moves_forward(old(self).status, final(self).status),
            moved == is_active(old(self).status),
            moved ==> final(self).status == ServerStatus::Error(reason)
                && final(self).logs@ == log_after(old(self).logs@, final(self).logs@.last())
                && final(self).logs@.last().level == LogLevel::Error
                && final(self).logs@.last().message == text
                && final(self).config == old(self).config,
            !moved ==> *final(self) == *old(self),
            old(self).wf() ==> final(self).wf(),
    {
        if self.advance(ServerStatus::Error(reason)) {
            let entry = LogMessage::error(text);
            self.add_log(entry);
            true
        } else {
            false
        }
    }
}

/// What a running task reports about its run.
#[derive(Debug)]
pub enum RunEvent {
    /// An entry for the log, whatever the status.
    Log(LogMessage),
    /// The server listens; these entries follow.
    Listening(Vec<LogMessage>),
    /// The run failed: the reason kept in the status, and the text logged.
    Failed(String, String),
    /// The run ended after releasing its listener; this entry is logged.
    Stopped(LogMessage),
    /// An entry to log only while the server is `Running`.
    LogIfRunning(LogMessage),
}

/// `new` is `old` after `e`: an entry is always logged; a status report only
/// takes effect if it may follow the current status, and otherwise nothing
/// changes.
pub open spec fn event_applied(old: ServerState, new: ServerState, e: RunEvent) -> bool {
    match e {
        RunEvent::Log(m) => new.status == old.status && new.config == old.config
            && new.logs@ == log_after(old.logs@, m),
        RunEvent::Listening(lines) => if old.status is Starting {
            new.status == ServerStatus::Running && new.config == old.config
                && new.logs@ == log_after_all(old.logs@, lines@)
        } else {
            new == old
        },
        RunEvent::Failed(reason, text) => if is_active(old.status) {
            &&& new.status == ServerStatus::Error(reason)
            &&& new.config == old.config
            &&& new.logs@ == log_after(old.logs@, new.logs@.last())
            &&& new.logs@.last().level == LogLevel::Error
            &&& new.logs@.last().message == text
        } else {
            new == old
        },
        RunEvent::Stopped(m) => if is_active(old.status) {
            new.status == ServerStatus::Stopped && new.config == old.config
                && new.logs@ == log_after(old.logs@, m)
        } else {
            new == old
        },
        RunEvent::LogIfRunning(m) => if old.status is Running {
            new.status == old.status && new.config == old.config
                && new.logs@ == log_after(old.logs@, m)
        } else {
            new == old
        },
    }
}

/// An `Info` log event with text `text`.
pub open spec fn is_info_event(e: RunEvent, text: Seq<char>) -> bool {
    e matches RunEvent::Log(m) && m.level == LogLevel::Info && m.message@ == text
}

impl RunEvent {
    /// An `Info` entry with `text`, for the log.
    pub fn info(text: String) -> (r: RunEvent)
        ensures
            r matches RunEvent::Log(m) && m.level == LogLevel::Info && m.message == text,
    {
        RunEvent::Log(LogMessage::info(text))
    }
}

impl ServerState {
    /// Applies a report of the running task; see `event_applied`.
    pub fn apply(&mut self, e: RunEvent)
        ensures
            event_applied(*old(self), *final(self), e),
            event_reach(old(self).status, final(self).status),
            old(self).wf() ==> final(self).wf(),
    {
        match e {
            RunEvent::Log(m) => self.add_log(m),
            RunEvent::Listening(lines) => {
                self.mark_running(lines);
            },
            RunEvent::Failed(reason, text) => {
                self.mark_failed(reason, text);
            },
            RunEvent::Stopped(m) => {
                self.mark_stopped(m);
            },
            RunEvent::LogIfRunning(m) => {
                let running = match self.status {
                    ServerStatus::Running => true,
                    _ => false,
                };
                if running {
                    self.add_log(m);
                }
            },
        }
    }
}

/// A run writes at most one terminal entry: once a `Stopped` or `Failed`
/// report took effect the slot is idle, and a further `Stopped` or `Failed`
/// report changes nothing.
pub proof fn lemma_single_terminal_report(s0: ServerState, s1: ServerState, s2: ServerState, e1: RunEvent, e2: RunEvent)
    requires
        e1 is Stopped || e1 is Failed,
        e2 is Stopped || e2 is Failed,
        s1 != s0,
        event_applied(s0, s1, e1),
        event_applied(s1, s2, e2),
    ensures
        !is_active(s1.status),
        s2 == s1,
{
}

} // verus!
