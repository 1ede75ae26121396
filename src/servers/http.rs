//! HTTP file server: configuration and progress reports.

use vstd::prelude::*;

use crate::handle::ServerHandle;
use crate::status::ServerStatus;
use crate::state::{info_entries, is_info_event, is_info_of, LogLevel, LogMessage, RunEvent, ServerConfig};
use crate::text::{decimal, joined, with_number};

verus! {

/// HTTP server configuration.
#[derive(Debug, Clone)]
pub struct HttpConfig {
    pub root_dir: String,
    pub port: u16,
    pub allow_directory_listing: bool,
    pub auto_stop_seconds: Option<u64>,
}

impl HttpConfig {
    /// The default configuration serving `root_dir`: port 7777, directory
    /// listing on, auto-stop after 360 seconds.
    pub fn with_root_dir(root_dir: String) -> (r: HttpConfig)
        ensures
            r.root_dir == root_dir,
            r.port == 7777,
            r.allow_directory_listing,
            r.auto_stop_seconds == Some(360u64),
    {
        HttpConfig { root_dir, port: 7777, allow_directory_listing: true, auto_stop_seconds: Some(360) }
    }
}

impl From<HttpConfig> for ServerConfig {
    fn from(cfg: HttpConfig) -> (r: ServerConfig) {
        ServerConfig { root_dir: cfg.root_dir, port: cfg.port, auto_stop_seconds: cfg.auto_stop_seconds }
    }
}

impl vstd::std_specs::convert::FromSpecImpl<HttpConfig> for ServerConfig {
    open spec fn obeys_from_spec() -> bool {
        true
    }

    open spec fn from_spec(cfg: HttpConfig) -> ServerConfig {
        ServerConfig { root_dir: cfg.root_dir, port: cfg.port, auto_stop_seconds: cfg.auto_stop_seconds }
    }
}

/// A handle on a stopped slot whose snapshot is taken from `config`.
pub fn create_handle(config: HttpConfig) -> (r: ServerHandle)
    ensures
        r.state.status == ServerStatus::Stopped,
        r.state.logs@.len() == 0,
        r.state.config == (ServerConfig { root_dir: config.root_dir, port: config.port, auto_stop_seconds: config.auto_stop_seconds }),
        r.state.wf(),
        r.run == 0,
        !r.signal_armed(),
{
    ServerHandle::new(ServerConfig::from(config))
}

/// The line logged when the run begins.
pub open spec fn starting_line(port: u16) -> Seq<char> {
    "Starting HTTP server on port "@ + decimal(port as nat) + "..."@
}

/// The lines logged once the server listens.
pub open spec fn running_lines(c: HttpConfig) -> Seq<Seq<char>> {
    let base = seq![
        "HTTP server started on http://0.0.0.0:"@ + decimal(c.port as nat),
        "Serving files from: "@ + c.root_dir@,
    ];
    if c.allow_directory_listing {
        base.push("Directory listing: enabled"@)
    } else {
        base
    }
}

/// The line logged when the run has ended.
pub open spec fn stopped_line() -> Seq<char> {
    "HTTP server stopped"@
}

/// The line logged when the auto-stop time has passed while running.
pub open spec fn auto_stop_line(secs: u64) -> Seq<char> {
    "Auto-stopping after "@ + decimal(secs as nat) + " seconds of inactivity"@
}

/// See `starting_line`.
pub fn starting_message(port: u16) -> (r: String)
    ensures
        r@ == starting_line(port),
{
    with_number("Starting HTTP server on port ", port as u64, "...")
}

/// See `running_lines`.
pub fn running_messages(c: &HttpConfig) -> (r: Vec<String>)
    ensures
        r@.map_values(|l: String| l@) == running_lines(*c),
{
    let mut v: Vec<String> = Vec::new();
    v.push(with_number("HTTP server started on http://0.0.0.0:", c.port as u64, ""));
    v.push(joined("Serving files from: ", c.root_dir.as_str()));
    if c.allow_directory_listing {
        v.push(String::from_str("Directory listing: enabled"));
    }
    proof {
        reveal_strlit("");
        assert(v@.map_values(|l: String| l@) =~= running_lines(*c));
    }
    v
}

/// See `auto_stop_line`.
pub fn auto_stop_message(secs: u64) -> (r: String)
    ensures
        r@ == auto_stop_line(secs),
{
    with_number("Auto-stopping after ", secs, " seconds of inactivity")
}

/// The texts logged when the server fails with `reason`.
pub open spec fn error_line(reason: Seq<char>) -> Seq<char> {
    "HTTP server error: "@ + reason
}

/// The report that the run begins: `starting_line(port)` as an `Info` entry.
pub fn starting_event(port: u16) -> (r: RunEvent)
    ensures
        is_info_event(r, starting_line(port)),
{
    RunEvent::info(starting_message(port))
}

/// The report that the server listens: it turns `Starting` into `Running`
/// and logs `running_lines(c)` as `Info` entries.
pub fn listening_event(c: &HttpConfig) -> (r: RunEvent)
    ensures
        r matches RunEvent::Listening(v) && is_info_of(v@, running_lines(*c)),
{
    RunEvent::Listening(info_entries(running_messages(c)))
}

/// The report of a failure: it turns an active status into `Error(reason)`
/// and logs `error_line(reason)` at severity `Error`.
pub fn error_event(reason: String) -> (r: RunEvent)
    ensures
        r matches RunEvent::Failed(kept, text) && kept == reason && text@ == error_line(reason@),
{
    let text = joined("HTTP server error: ", reason.as_str());
    RunEvent::Failed(reason, text)
}

/// The report that the server has shut down and released its port: it turns
/// an active status into `Stopped` and logs `stopped_line()`.
pub fn shut_down_event() -> (r: RunEvent)
    ensures
        r matches RunEvent::Stopped(m) && m.level == LogLevel::Info && m.message@ == stopped_line(),
{
    RunEvent::Stopped(LogMessage::info(String::from_str("HTTP server stopped")))
}

/// The report that the auto-stop time has passed: `auto_stop_line(secs)`
/// is logged only while the server is `Running`; the status is not changed.
pub fn auto_stop_event(secs: u64) -> (r: RunEvent)
    ensures
        r matches RunEvent::LogIfRunning(m) && m.level == LogLevel::Info && m.message@ == auto_stop_line(secs),
{
    RunEvent::LogIfRunning(LogMessage::info(auto_stop_message(secs)))
}

} // verus!
