//! SSH/SFTP server: configuration and progress reports.

use vstd::prelude::*;

use crate::handle::ServerHandle;
use crate::status::ServerStatus;
use crate::state::{info_entries, is_info_event, is_info_of, LogLevel, LogMessage, RunEvent, ServerConfig};
use crate::text::{decimal, joined, with_number};

verus! {

/// SSH server configuration.
#[derive(Debug, Clone)]
pub struct SshConfig {
    pub root_dir: String,
    pub port: u16,
    pub username: String,
    pub password: String,
}

impl SshConfig {
    /// The default configuration serving `root_dir`: port 2222, user
    /// `admin` with password `admin`.
    pub fn with_root_dir(root_dir: String) -> (r: SshConfig)
        ensures
            r.root_dir == root_dir,
            r.port == 2222,
            r.username@ == "admin"@,
            r.password@ == "admin"@,
    {
        SshConfig { root_dir, port: 2222, username: String::from_str("admin"), password: String::from_str("admin") }
    }
}

impl From<SshConfig> for ServerConfig {
    fn from(cfg: SshConfig) -> (r: ServerConfig) {
        ServerConfig { root_dir: cfg.root_dir, port: cfg.port, auto_stop_seconds: None }
    }
}

impl vstd::std_specs::convert::FromSpecImpl<SshConfig> for ServerConfig {
    open spec fn obeys_from_spec() -> bool {
        true
    }

    open spec fn from_spec(cfg: SshConfig) -> ServerConfig {
        ServerConfig { root_dir: cfg.root_dir, port: cfg.port, auto_stop_seconds: None }
    }
}

/// A handle on a stopped slot whose snapshot is taken from `config`.
pub fn create_handle(config: SshConfig) -> (r: ServerHandle)
    ensures
        r.state.status == ServerStatus::Stopped,
        r.state.logs@.len() == 0,
        r.state.config == (ServerConfig { root_dir: config.root_dir, port: config.port, auto_stop_seconds: None }),
        r.state.wf(),
        r.run == 0,
        !r.signal_armed(),
{
    ServerHandle::new(ServerConfig::from(config))
}

/// The line logged when the run has ended.
pub open spec fn stopped_line() -> Seq<char> {
    "SSH server stopped"@
}

/// The line logged when the run begins.
pub open spec fn starting_line(port: u16) -> Seq<char> {
    "Starting SSH server on port "@ + decimal(port as nat) + "..."@
}

/// The lines logged once the server listens.
pub open spec fn running_lines(c: SshConfig) -> Seq<Seq<char>> {
    seq![
        "SSH server started on port "@ + decimal(c.port as nat),
        "Root directory: "@ + c.root_dir@,
        "Note: SSH server is in simplified mode"@,
    ]
}

/// See `starting_line`.
pub fn starting_message(port: u16) -> (r: String)
    ensures
        r@ == starting_line(port),
{
    with_number("Starting SSH server on port ", port as u64, "...")
}

/// See `running_lines`.
pub fn running_messages(c: &SshConfig) -> (r: Vec<String>)
    ensures
        r@.map_values(|l: String| l@) == running_lines(*c),
{
    let mut v: Vec<String> = Vec::new();
    v.push(with_number("SSH server started on port ", c.port as u64, ""));
    v.push(joined("Root directory: ", c.root_dir.as_str()));
    v.push(String::from_str("Note: SSH server is in simplified mode"));
    proof {
        reveal_strlit("");
        assert(v@.map_values(|l: String| l@) =~= running_lines(*c));
    }
    v
}

/// The text logged when the server fails with `reason`.
pub open spec fn error_line(reason: Seq<char>) -> Seq<char> {
    "SSH server error: "@ + reason
}

/// The report that the run begins: `starting_line(port)` as an `Info` entry.
pub fn starting_event(port: u16) -> (r: RunEvent)
    ensures
        is_info_event(r, starting_line(port)),
{
    RunEvent::info(starting_message(port))
}

/// The report that the server listens: it turns `Starting` into `Running`
/// and logs `running_lines(c)` as `Info` entries.
pub fn listening_event(c: &SshConfig) -> (r: RunEvent)
    ensures
        r matches RunEvent::Listening(v) && is_info_of(v@, running_lines(*c)),
{
    RunEvent::Listening(info_entries(running_messages(c)))
}

/// The report of a failure: it turns an active status into `Error(reason)`
/// and logs `error_line(reason)` at severity `Error`.
pub fn error_event(reason: String) -> (r: RunEvent)
    ensures
        r matches RunEvent::Failed(kept, text) && kept == reason && text@ == error_line(reason@),
{
    let text = joined("SSH server error: ", reason.as_str());
    RunEvent::Failed(reason, text)
}

/// The report that the server has shut down and released its port: it turns
/// an active status into `Stopped` and logs `stopped_line()`.
pub fn shut_down_event() -> (r: RunEvent)
    ensures
        r matches RunEvent::Stopped(m) && m.level == LogLevel::Info && m.message@ == stopped_line(),
{
    RunEvent::Stopped(LogMessage::info(String::from_str("SSH server stopped")))
}

} // verus!
