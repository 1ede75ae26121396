//! TFTP server: configuration and progress reports.

use vstd::prelude::*;

use crate::handle::ServerHandle;
use crate::status::ServerStatus;
use crate::state::{info_entries, is_info_event, is_info_of, LogLevel, LogMessage, RunEvent, ServerConfig};
use crate::text::{decimal, joined, with_number};

verus! {

/// TFTP server configuration.
#[derive(Debug, Clone)]
pub struct TftpConfig {
    pub root_dir: String,
    pub port: u16,
    pub read_only: bool,
}

impl TftpConfig {
    /// The default configuration serving `root_dir`: port 69, read-write.
    pub fn with_root_dir(root_dir: String) -> (r: TftpConfig)
        ensures
            r.root_dir == root_dir,
            r.port == 69,
            !r.read_only,
    {
        TftpConfig { root_dir, port: 69, read_only: false }
    }
}

impl From<TftpConfig> for ServerConfig {
    fn from(cfg: TftpConfig) -> (r: ServerConfig) {
        ServerConfig { root_dir: cfg.root_dir, port: cfg.port, auto_stop_seconds: None }
    }
}

impl vstd::std_specs::convert::FromSpecImpl<TftpConfig> for ServerConfig {
    open spec fn obeys_from_spec() -> bool {
        true
    }

    open spec fn from_spec(cfg: TftpConfig) -> ServerConfig {
        ServerConfig { root_dir: cfg.root_dir, port: cfg.port, auto_stop_seconds: None }
    }
}

/// A handle on a stopped slot whose snapshot is taken from `config`.
pub fn create_handle(config: TftpConfig) -> (r: ServerHandle)
    ensures
        r.state.status == ServerStatus::Stopped,
        r.state.logs@.len() == 0,
        r.state.config == (ServerConfig { root_dir: config.root_dir, port: config.port, auto_stop_seconds: None }),
        r.state.wf(),
        r.run == 0,
        !r.signal_armed(),
{
    ServerHandle::new(ServerConfig::from(config))
}

/// The step at which a TFTP run failed.
#[derive(Debug, Clone, Copy, PartialEq, Eq, Structural)]
pub enum TftpFailure {
    /// The server could not be set up on the root directory.
    Create,
    /// The server could not bind its socket.
    Build,
    /// The server stopped with an error while serving.
    Serve,
}

/// The line logged when the run has ended.
pub open spec fn stopped_line() -> Seq<char> {
    "TFTP server stopped"@
}

/// The line logged when the run begins.
pub open spec fn starting_line(port: u16) -> Seq<char> {
    "Starting TFTP server on port "@ + decimal(port as nat) + "..."@
}

/// The lines logged once the server listens.
pub open spec fn running_lines(c: TftpConfig) -> Seq<Seq<char>> {
    seq![
        "TFTP server started on tftp://0.0.0.0:"@ + decimal(c.port as nat),
        "Root directory: "@ + c.root_dir@,
        if c.read_only { "Mode: read-only"@ } else { "Mode: read-write"@ },
    ]
}

/// See `starting_line`.
pub fn starting_message(port: u16) -> (r: String)
    ensures
        r@ == starting_line(port),
{
    with_number("Starting TFTP server on port ", port as u64, "...")
}

/// See `running_lines`.
pub fn running_messages(c: &TftpConfig) -> (r: Vec<String>)
    ensures
        r@.map_values(|l: String| l@) == running_lines(*c),
{
    let mut v: Vec<String> = Vec::new();
    v.push(with_number("TFTP server started on tftp://0.0.0.0:", c.port as u64, ""));
    v.push(joined("Root directory: ", c.root_dir.as_str()));
    if c.read_only {
        v.push(String::from_str("Mode: read-only"));
    } else {
        v.push(String::from_str("Mode: read-write"));
    }
    proof {
        reveal_strlit("");
        assert(v@.map_values(|l: String| l@) =~= running_lines(*c));
    }
    v
}

/// The text logged when the server fails with `reason` at step `at`.
pub open spec fn error_line(at: TftpFailure, reason: Seq<char>) -> Seq<char> {
    match at {
        TftpFailure::Create => "Failed to create TFTP server: "@ + reason,
        TftpFailure::Build => "Failed to build TFTP server: "@ + reason,
        TftpFailure::Serve => "TFTP server error: "@ + reason,
    }
}

/// The report that the run begins: `starting_line(port)` as an `Info` entry.
pub fn starting_event(port: u16) -> (r: RunEvent)
    ensures
        is_info_event(r, starting_line(port)),
{
    RunEvent::info(starting_message(port))
}

/// The report that the server listens: it turns `Starting` into `Running`
/// and logs `running_lines(c)` as `Info` entries.
pub fn listening_event(c: &TftpConfig) -> (r: RunEvent)
    ensures
        r matches RunEvent::Listening(v) && is_info_of(v@, running_lines(*c)),
{
    RunEvent::Listening(info_entries(running_messages(c)))
}

/// The report of a failure at step `at`: it turns an active status into
/// `Error(reason)` and logs `error_line(at, reason)` at severity `Error`.
pub fn error_event(at: TftpFailure, reason: String) -> (r: RunEvent)
    ensures
        r matches RunEvent::Failed(kept, text) && kept == reason && text@ == error_line(at, reason@),
{
    let head = match at {
        TftpFailure::Create => "Failed to create TFTP server: ",
        TftpFailure::Build => "Failed to build TFTP server: ",
        TftpFailure::Serve => "TFTP server error: ",
    };
    let text = joined(head, reason.as_str());
    RunEvent::Failed(reason, text)
}

/// The report that the server has shut down and released its port: it turns
/// an active status into `Stopped` and logs `stopped_line()`.
pub fn shut_down_event() -> (r: RunEvent)
    ensures
        r matches RunEvent::Stopped(m) && m.level == LogLevel::Info && m.message@ == stopped_line(),
{
    RunEvent::Stopped(LogMessage::info(String::from_str("TFTP server stopped")))
}

} // verus!
