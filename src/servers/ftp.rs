//! FTP server: configuration, login rule and progress reports.

use vstd::prelude::*;

use crate::handle::ServerHandle;
use crate::status::ServerStatus;
use crate::state::{info_entries, is_info_event, is_info_of, LogLevel, LogMessage, RunEvent, ServerConfig};
use crate::text::{decimal, joined, push_decimal, with_number};

verus! {

/// FTP server configuration.
#[derive(Debug)]
pub struct FtpConfig {
    pub root_dir: String,
    pub port: u16,
    pub username: String,
    pub password: String,
    pub anonymous_access: bool,
    pub passive_mode: bool,
    pub passive_ports: (u16, u16),
}

impl FtpConfig {
    /// The default configuration serving `root_dir`: port 2121, user `admin`
    /// with password `admin`, anonymous access, passive mode on ports
    /// 50000 to 50100.
    pub fn with_root_dir(root_dir: String) -> (r: FtpConfig)
        ensures
            r.root_dir == root_dir,
            r.port == 2121,
            r.username@ == "admin"@,
            r.password@ == "admin"@,
            r.anonymous_access,
            r.passive_mode,
            r.passive_ports == (50000u16, 50100u16),
    {
        FtpConfig {
            root_dir,
            port: 2121,
            username: String::from_str("admin"),
            password: String::from_str("admin"),
            anonymous_access: true,
            passive_mode: true,
            passive_ports: (50000, 50100),
        }
    }
}

impl From<FtpConfig> for ServerConfig {
    fn from(cfg: FtpConfig) -> (r: ServerConfig) {
        ServerConfig { root_dir: cfg.root_dir, port: cfg.port, auto_stop_seconds: None }
    }
}

impl vstd::std_specs::convert::FromSpecImpl<FtpConfig> for ServerConfig {
    open spec fn obeys_from_spec() -> bool {
        true
    }

    open spec fn from_spec(cfg: FtpConfig) -> ServerConfig {
        ServerConfig { root_dir: cfg.root_dir, port: cfg.port, auto_stop_seconds: None }
    }
}

/// A handle on a stopped slot whose snapshot is taken from `config`.
pub fn create_handle(config: FtpConfig) -> (r: ServerHandle)
    ensures
        r.state.status == ServerStatus::Stopped,
        r.state.logs@.len() == 0,
        r.state.config == (ServerConfig { root_dir: config.root_dir, port: config.port, auto_stop_seconds: None }),
        r.state.wf(),
        r.run == 0,
        !r.signal_armed(),
{
    ServerHandle::new(ServerConfig::from(config))
}

/// Who may log in: `anonymous` when anonymous access is allowed, and the
/// configured user with exactly the configured password.
pub open spec fn login_allowed(
    username: Seq<char>,
    password: Option<Seq<char>>,
    c_user: Seq<char>,
    c_pass: Seq<char>,
    allow_anonymous: bool,
) -> bool {
    (allow_anonymous && username == "anonymous"@) || (password == Some(c_pass) && username == c_user)
}

fn same_text(a: &str, b: &str) -> (r: bool)
    ensures
        r == (a@ == b@),
{
    let n = a.unicode_len();
    if n != b.unicode_len() {
        return false;
    }
    let mut i: usize = 0;
    while i < n
        invariant
            n == a@.len(),
            n == b@.len(),
            i <= n,
            forall|k: int| 0 <= k < i ==> a@[k] == b@[k],
        decreases n - i,
    {
        if a.get_char(i) != b.get_char(i) {
            return false;
        }
        i = i + 1;
    }
    assert(a@ =~= b@);
    true
}

/// Decides a login attempt; see `login_allowed`.
pub fn check_login(username: &str, password: Option<&str>, c_user: &str, c_pass: &str, allow_anonymous: bool) -> (r: bool)
    ensures
        r == login_allowed(
            username@,
            match password { Some(p) => Some(p@), None => None },
            c_user@,
            c_pass@,
            allow_anonymous,
        ),
{
    if allow_anonymous && same_text(username, "anonymous") {
        return true;
    }
    match password {
        Some(p) => same_text(username, c_user) && same_text(p, c_pass),
        None => false,
    }
}

impl FtpConfig {
    /// Decides a login attempt against this configuration.
    pub fn accepts(&self, username: &str, password: Option<&str>) -> (r: bool)
        ensures
            r == login_allowed(
                username@,
                match password { Some(p) => Some(p@), None => None },
                self.username@,
                self.password@,
                self.anonymous_access,
            ),
    {
        check_login(username, password, self.username.as_str(), self.password.as_str(), self.anonymous_access)
    }
}

/// The line logged when the run has ended.
pub open spec fn stopped_line() -> Seq<char> {
    "FTP server stopped"@
}

/// The line logged when the run begins.
pub open spec fn starting_line(port: u16) -> Seq<char> {
    "Starting FTP server on port "@ + decimal(port as nat) + "..."@
}

/// The lines logged once the server listens.
pub open spec fn running_lines(c: FtpConfig) -> Seq<Seq<char>> {
    let head = seq![
        "FTP server started on ftp://0.0.0.0:"@ + decimal(c.port as nat),
        "Root directory: "@ + c.root_dir@,
    ];
    let mode = (if c.passive_mode { "Mode: Passive (passive ports: "@ } else { "Mode: Active (passive ports: "@ })
        + decimal(c.passive_ports.0 as nat) + "-"@ + decimal(c.passive_ports.1 as nat) + ")"@;
    if c.anonymous_access {
        head.push("Anonymous access: enabled"@).push(mode)
    } else {
        head.push(mode)
    }
}

/// See `starting_line`.
pub fn starting_message(port: u16) -> (r: String)
    ensures
        r@ == starting_line(port),
{
    with_number("Starting FTP server on port ", port as u64, "...")
}

/// See `running_lines`.
pub fn running_messages(c: &FtpConfig) -> (r: Vec<String>)
    ensures
        r@.map_values(|l: String| l@) == running_lines(*c),
{
    let mut v: Vec<String> = Vec::new();
    v.push(with_number("FTP server started on ftp://0.0.0.0:", c.port as u64, ""));
    v.push(joined("Root directory: ", c.root_dir.as_str()));
    if c.anonymous_access {
        v.push(String::from_str("Anonymous access: enabled"));
    }
    let head = if c.passive_mode { "Mode: Passive (passive ports: " } else { "Mode: Active (passive ports: " };
    let mut mode = with_number(head, c.passive_ports.0 as u64, "-");
    push_decimal(&mut mode, c.passive_ports.1 as u64);
    mode.append(")");
    let ghost line = mode@;
    v.push(mode);
    proof {
        reveal_strlit("");
        let rl = running_lines(*c);
        assert(line =~= rl.last());
        assert(v@.map_values(|l: String| l@) =~= rl);
    }
    v
}

/// The text logged when the server fails with `reason`.
pub open spec fn error_line(reason: Seq<char>) -> Seq<char> {
    "FTP server error: "@ + reason
}

/// The report that the run begins: `starting_line(port)` as an `Info` entry.
pub fn starting_event(port: u16) -> (r: RunEvent)
    ensures
        is_info_event(r, starting_line(port)),
{
    RunEvent::info(starting_message(port))
}

/// The report that the server listens: it turns `Starting` into `Running`
/// and logs `running_lines(c)` as `Info` entries.
pub fn listening_event(c: &FtpConfig) -> (r: RunEvent)
    ensures
        r matches RunEvent::Listening(v) && is_info_of(v@, running_lines(*c)),
{
    RunEvent::Listening(info_entries(running_messages(c)))
}

/// The report of a failure: it turns an active status into `Error(reason)`
/// and logs `error_line(reason)` at severity `Error`.
pub fn error_event(reason: String) -> (r: RunEvent)
    ensures
        r matches RunEvent::Failed(kept, text) && kept == reason && text@ == error_line(reason@),
{
    let text = joined("FTP server error: ", reason.as_str());
    RunEvent::Failed(reason, text)
}

/// The report that the server has shut down and released its port: it turns
/// an active status into `Stopped` and logs `stopped_line()`.
pub fn shut_down_event() -> (r: RunEvent)
    ensures
        r matches RunEvent::Stopped(m) && m.level == LogLevel::Info && m.message@ == stopped_line(),
{
    RunEvent::Stopped(LogMessage::info(String::from_str("FTP server stopped")))
}

} // verus!
