use oservers::error::ServerError;
use oservers::state::{LogLevel, LogMessage, ServerConfig, ServerState, LOG_CAPACITY};
use oservers::status::ServerStatus;

fn config(port: u16) -> ServerConfig {
    ServerConfig { root_dir: "/srv".to_string(), port, auto_stop_seconds: None }
}

fn all_statuses() -> Vec<ServerStatus> {
    vec![
        ServerStatus::Stopped,
        ServerStatus::Starting,
        ServerStatus::Running,
        ServerStatus::Stopping,
        ServerStatus::Error("boom".to_string()),
    ]
}

#[test]
fn new_state_is_stopped_and_empty() {
    let s = ServerState::new(config(8080));
    assert_eq!(s.status, ServerStatus::Stopped);
    assert!(s.logs.is_empty());
    assert_eq!(s.config.port, 8080);
}

#[test]
fn start_refused_while_active() {
    for st in [ServerStatus::Starting, ServerStatus::Running, ServerStatus::Stopping] {
        let mut s = ServerState::new(config(1));
        s.status = st.clone();
        s.add_log(LogMessage::info("kept".to_string()));
        let r = s.begin_run(config(2));
        assert_eq!(r, Err(ServerError::AlreadyRunning));
        assert_eq!(s.status, st);
        assert_eq!(s.logs.len(), 1);
        assert_eq!(s.config.port, 1);
    }
}

#[test]
fn start_accepted_when_idle_clears_log() {
    for st in [ServerStatus::Stopped, ServerStatus::Error("bind".to_string())] {
        let mut s = ServerState::new(config(1));
        s.status = st;
        s.add_log(LogMessage::info("old run".to_string()));
        assert_eq!(s.begin_run(config(2)), Ok(()));
        assert_eq!(s.status, ServerStatus::Starting);
        assert!(s.logs.is_empty());
        assert_eq!(s.config.port, 2);
    }
}

#[test]
fn stop_twice_succeeds_once() {
    let mut s = ServerState::new(config(1));
    assert_eq!(s.begin_run(config(1)), Ok(()));
    assert!(s.mark_running(Vec::new()));
    assert_eq!(s.request_stop(), Ok(()));
    assert_eq!(s.status, ServerStatus::Stopping);
    assert_eq!(s.request_stop(), Err(ServerError::NotRunning));
    assert_eq!(s.status, ServerStatus::Stopping);
}

#[test]
fn stop_refused_when_idle() {
    let mut s = ServerState::new(config(1));
    assert_eq!(s.request_stop(), Err(ServerError::NotRunning));
    s.status = ServerStatus::Error("x".to_string());
    assert_eq!(s.request_stop(), Err(ServerError::NotRunning));
    assert_eq!(s.status, ServerStatus::Error("x".to_string()));
}

#[test]
fn transition_table() {
    let rank = |s: &ServerStatus| match s {
        ServerStatus::Starting => 1,
        ServerStatus::Running => 2,
        ServerStatus::Stopping => 3,
        _ => 4,
    };
    for from in all_statuses() {
        for to in all_statuses() {
            let expected = if from.is_active() { rank(&to) > rank(&from) } else { to == ServerStatus::Starting };
            assert_eq!(from.may_move_to(&to), expected, "{:?} -> {:?}", from, to);
        }
    }
}

#[test]
fn full_run_is_monotone() {
    let mut s = ServerState::new(config(1));
    let mut seen = vec![s.status.clone()];
    assert_eq!(s.begin_run(config(1)), Ok(()));
    seen.push(s.status.clone());
    assert!(s.mark_running(vec![LogMessage::info("up".to_string())]));
    seen.push(s.status.clone());
    assert_eq!(s.request_stop(), Ok(()));
    seen.push(s.status.clone());
    assert!(s.mark_stopped(LogMessage::info("down".to_string())));
    seen.push(s.status.clone());
    assert_eq!(
        seen,
        vec![
            ServerStatus::Stopped,
            ServerStatus::Starting,
            ServerStatus::Running,
            ServerStatus::Stopping,
            ServerStatus::Stopped
        ]
    );
    let texts: Vec<&str> = s.logs.iter().map(|l| l.message.as_str()).collect();
    assert_eq!(texts, vec!["up", "down"]);
}

#[test]
fn late_reports_do_not_regress() {
    let mut s = ServerState::new(config(1));
    s.begin_run(config(1)).unwrap();
    s.request_stop().unwrap();
    // The task reports listening after the stop was requested.
    assert!(!s.mark_running(vec![LogMessage::info("up".to_string())]));
    assert_eq!(s.status, ServerStatus::Stopping);
    assert!(s.logs.is_empty());
    assert!(s.mark_stopped(LogMessage::info("down".to_string())));
    // A second terminal report is ignored.
    assert!(!s.mark_stopped(LogMessage::info("again".to_string())));
    assert!(!s.mark_failed("late".to_string(), "late failure".to_string()));
    assert_eq!(s.status, ServerStatus::Stopped);
    assert_eq!(s.logs.len(), 1);
}

#[test]
fn failure_from_any_active_status() {
    for st in [ServerStatus::Starting, ServerStatus::Running, ServerStatus::Stopping] {
        let mut s = ServerState::new(config(1));
        s.status = st;
        assert!(s.mark_failed("Address in use".to_string(), "FTP server error: Address in use".to_string()));
        assert_eq!(s.status, ServerStatus::Error("Address in use".to_string()));
        let last = s.logs.last().unwrap();
        assert_eq!(last.level, LogLevel::Error);
        assert_eq!(last.message, "FTP server error: Address in use");
    }
}

#[test]
fn log_window_keeps_last_hundred_in_order() {
    let mut s = ServerState::new(config(1));
    for i in 0..150 {
        s.add_log(LogMessage::info(format!("entry {}", i)));
    }
    assert_eq!(s.logs.len(), LOG_CAPACITY);
    assert_eq!(s.logs.len(), 100);
    for (k, m) in s.logs.iter().enumerate() {
        assert_eq!(m.message, format!("entry {}", k + 50));
    }
}

#[test]
fn log_window_edges() {
    let mut s = ServerState::new(config(1));
    for i in 0..100 {
        s.add_log(LogMessage::info(format!("e{}", i)));
    }
    assert_eq!(s.logs.len(), 100);
    assert_eq!(s.logs[0].message, "e0");
    s.add_log(LogMessage::error("e100".to_string()));
    assert_eq!(s.logs.len(), 100);
    assert_eq!(s.logs[0].message, "e1");
    assert_eq!(s.logs[99].message, "e100");
    assert_eq!(s.logs[99].level, LogLevel::Error);
}

#[test]
fn errors_evicted_like_any_entry() {
    let mut s = ServerState::new(config(1));
    s.add_log(LogMessage::error("first failure".to_string()));
    for i in 0..100 {
        s.add_log(LogMessage::info(format!("i{}", i)));
    }
    assert!(s.logs.iter().all(|m| m.level == LogLevel::Info));
}

#[test]
fn add_logs_appends_in_order() {
    let mut s = ServerState::new(config(1));
    let batch: Vec<LogMessage> = (0..120).map(|i| LogMessage::info(format!("b{}", i))).collect();
    s.add_logs(batch);
    assert_eq!(s.logs.len(), 100);
    assert_eq!(s.logs[0].message, "b20");
    assert_eq!(s.logs[99].message, "b119");
}

#[test]
fn error_messages() {
    assert_eq!(ServerError::AlreadyRunning.message(), "Server already running");
    assert_eq!(ServerError::NotRunning.message(), "Server not running");
    assert_eq!(ServerError::ConfigError("bad".to_string()).message(), "Configuration error: bad");
    assert_eq!(ServerError::IoError("denied".to_string()).message(), "IO error: denied");
    assert_eq!(ServerError::Other("x".to_string()).message(), "Other error: x");
}

#[test]
fn log_entries_are_stamped() {
    let m = LogMessage::info("hello".to_string());
    assert!(m.timestamp_ms > 1_500_000_000_000);
    assert_eq!(m.level, LogLevel::Info);
    let copy = m.duplicate();
    assert_eq!(copy.timestamp_ms, m.timestamp_ms);
    assert_eq!(copy.message, "hello");
}
