use oservers::error::ServerError;
use oservers::handle::ServerHandle;
use oservers::servers::ftp::{self, FtpConfig};
use oservers::servers::http::{self, HttpConfig};
use oservers::servers::ssh::{self, SshConfig};
use oservers::servers::tftp::{self, TftpConfig, TftpFailure};
use oservers::state::{LogLevel, RunEvent, ServerConfig, LOG_CAPACITY};
use oservers::status::ServerStatus;
use oservers::supervisor::{ProtocolConfig, RunTicket, ServerType, Supervisor};

fn http_config(port: u16) -> HttpConfig {
    let mut c = HttpConfig::with_root_dir("/srv/www".to_string());
    c.port = port;
    c
}

fn start_http(sup: &mut Supervisor, port: u16) -> RunTicket {
    sup.start(ProtocolConfig::Http(http_config(port))).expect("start accepted")
}

#[test]
fn new_supervisor_has_four_stopped_slots() {
    let sup = Supervisor::new("/srv".to_string());
    for k in ServerType::all() {
        assert_eq!(sup.status(k), ServerStatus::Stopped);
        assert!(sup.logs(k).is_empty());
        assert!(!sup.is_running(k));
        let h = sup.handle(k);
        assert!(h.shutdown_tx.is_none());
        assert_eq!(h.run, 0);
        assert_eq!(h.state.config.port, k.default_port());
        assert_eq!(h.state.config.root_dir, "/srv");
    }
    assert!(sup.all_idle());
}

#[test]
fn start_then_second_start_is_refused() {
    let mut sup = Supervisor::new("/srv".to_string());
    let ticket = start_http(&mut sup, 7777);
    assert_eq!(sup.status(ServerType::Http), ServerStatus::Starting);
    assert!(matches!(ticket.config, ProtocolConfig::Http(ref c) if c.port == 7777));
    assert_eq!(ticket.reporter.kind, ServerType::Http);
    assert_eq!(ticket.reporter.run, 1);
    assert_eq!(sup.handle(ServerType::Http).run, 1);
    let again = sup.start(ProtocolConfig::Http(http_config(8000)));
    assert!(matches!(again, Err(ServerError::AlreadyRunning)));
    assert_eq!(sup.status(ServerType::Http), ServerStatus::Starting);
    assert_eq!(sup.handle(ServerType::Http).state.config.port, 7777);
    assert_eq!(sup.handle(ServerType::Http).run, 1);
    assert_eq!(sup.status(ServerType::Ftp), ServerStatus::Stopped);
    assert!(!sup.all_idle());
}

#[test]
fn start_refused_while_running_and_stopping() {
    let mut sup = Supervisor::new("/srv".to_string());
    let t = start_http(&mut sup, 7777);
    t.reporter.send(http::listening_event(&http_config(7777)));
    assert_eq!(sup.sync(100), 1);
    assert_eq!(sup.status(ServerType::Http), ServerStatus::Running);
    assert!(sup.is_running(ServerType::Http));
    assert!(matches!(sup.start(ProtocolConfig::Http(http_config(7777))), Err(ServerError::AlreadyRunning)));
    sup.stop(ServerType::Http).unwrap();
    assert_eq!(sup.status(ServerType::Http), ServerStatus::Stopping);
    assert!(matches!(sup.start(ProtocolConfig::Http(http_config(7777))), Err(ServerError::AlreadyRunning)));
}

#[test]
fn stop_signals_exactly_once() {
    let mut sup = Supervisor::new("/srv".to_string());
    let mut t = start_http(&mut sup, 7777);
    assert_eq!(sup.stop(ServerType::Http), Ok(()));
    assert!(sup.handle(ServerType::Http).shutdown_tx.is_none());
    assert_eq!(sup.stop(ServerType::Http), Err(ServerError::NotRunning));
    assert_eq!(sup.status(ServerType::Http), ServerStatus::Stopping);
    assert_eq!(t.shutdown_rx.try_recv(), Ok(()));
    assert!(t.shutdown_rx.try_recv().is_err());
    // The task ends and reports twice; one terminal entry is written.
    t.reporter.send(http::shut_down_event());
    t.reporter.send(http::shut_down_event());
    assert_eq!(sup.sync(100), 2);
    let logs = sup.logs(ServerType::Http);
    assert_eq!(logs.iter().filter(|m| m.message == "HTTP server stopped").count(), 1);
    assert_eq!(sup.status(ServerType::Http), ServerStatus::Stopped);
}

#[test]
fn stop_on_idle_slot_is_refused() {
    let mut sup = Supervisor::new("/srv".to_string());
    assert_eq!(sup.stop(ServerType::Tftp), Err(ServerError::NotRunning));
    assert_eq!(sup.status(ServerType::Tftp), ServerStatus::Stopped);
    let t = sup.start(ProtocolConfig::Tftp(TftpConfig::with_root_dir("/nope".to_string()))).unwrap();
    t.reporter.send(tftp::error_event(TftpFailure::Create, "gone".to_string()));
    sup.sync(10);
    assert_eq!(sup.stop(ServerType::Tftp), Err(ServerError::NotRunning));
    assert_eq!(sup.status(ServerType::Tftp), ServerStatus::Error("gone".to_string()));
}

#[test]
fn late_signal_after_task_ended_is_harmless() {
    let mut sup = Supervisor::new("/srv".to_string());
    let t = sup.start(ProtocolConfig::Ssh(SshConfig::with_root_dir("/srv".to_string()))).unwrap();
    drop(t.shutdown_rx);
    assert_eq!(sup.stop(ServerType::Ssh), Ok(()));
    assert_eq!(sup.status(ServerType::Ssh), ServerStatus::Stopping);
}

#[test]
fn shutdown_all_stops_every_active_slot() {
    let mut sup = Supervisor::new("/srv".to_string());
    let _a = start_http(&mut sup, 7777);
    let _b = sup.start(ProtocolConfig::Tftp(TftpConfig::with_root_dir("/srv".to_string()))).unwrap();
    assert_eq!(sup.shutdown_all(), 2);
    assert_eq!(sup.status(ServerType::Http), ServerStatus::Stopping);
    assert_eq!(sup.status(ServerType::Tftp), ServerStatus::Stopping);
    assert_eq!(sup.status(ServerType::Ftp), ServerStatus::Stopped);
    assert_eq!(sup.shutdown_all(), 0);
}

#[test]
fn failed_slot_can_be_restarted_and_log_is_cleared() {
    let mut sup = Supervisor::new("/srv".to_string());
    let t = sup.start(ProtocolConfig::Tftp(TftpConfig::with_root_dir("/nope".to_string()))).unwrap();
    t.reporter.send(tftp::error_event(TftpFailure::Create, "No such file or directory".to_string()));
    sup.sync(10);
    assert_eq!(sup.status(ServerType::Tftp), ServerStatus::Error("No such file or directory".to_string()));
    let logs = sup.logs(ServerType::Tftp);
    assert_eq!(logs.len(), 1);
    assert_eq!(logs[0].level, LogLevel::Error);
    assert_eq!(logs[0].message, "Failed to create TFTP server: No such file or directory");
    let t2 = sup.start(ProtocolConfig::Tftp(TftpConfig::with_root_dir("/srv".to_string()))).unwrap();
    assert_eq!(sup.status(ServerType::Tftp), ServerStatus::Starting);
    assert!(sup.logs(ServerType::Tftp).is_empty());
    // A late report of the first run does not reach the second.
    t.reporter.send(tftp::shut_down_event());
    t2.reporter.send(tftp::listening_event(&TftpConfig::with_root_dir("/srv".to_string())));
    sup.sync(10);
    assert_eq!(sup.status(ServerType::Tftp), ServerStatus::Running);
    assert_eq!(sup.logs(ServerType::Tftp).len(), 3);
}

#[test]
fn failure_reports_log_an_error_entry() {
    let mut sup = Supervisor::new("/srv".to_string());
    let f = sup.start(ProtocolConfig::Ftp(FtpConfig::with_root_dir("/srv".to_string()))).unwrap();
    f.reporter.send(ftp::error_event("Address in use".to_string()));
    let h = sup.start(ProtocolConfig::Http(http_config(7777))).unwrap();
    h.reporter.send(http::error_event("bind failed".to_string()));
    let s = sup.start(ProtocolConfig::Ssh(SshConfig::with_root_dir("/srv".to_string()))).unwrap();
    s.reporter.send(ssh::error_event("refused".to_string()));
    sup.sync(10);
    for (k, reason, text) in [
        (ServerType::Ftp, "Address in use", "FTP server error: Address in use"),
        (ServerType::Http, "bind failed", "HTTP server error: bind failed"),
        (ServerType::Ssh, "refused", "SSH server error: refused"),
    ] {
        assert_eq!(sup.status(k), ServerStatus::Error(reason.to_string()));
        let last = sup.logs(k).pop().unwrap();
        assert_eq!(last.level, LogLevel::Error);
        assert_eq!(last.message, text);
    }
}

#[test]
fn isolation_failed_ftp_does_not_block_http() {
    let mut sup = Supervisor::new("/srv".to_string());
    let ftp_ticket = sup.start(ProtocolConfig::Ftp(FtpConfig::with_root_dir("/does/not/exist".to_string()))).unwrap();
    ftp_ticket.reporter.send(ftp::error_event("root directory does not exist".to_string()));
    sup.sync(10);
    assert!(matches!(sup.status(ServerType::Ftp), ServerStatus::Error(_)));
    let http_ticket = start_http(&mut sup, 7777);
    http_ticket.reporter.send(http::listening_event(&http_config(7777)));
    sup.sync(10);
    assert_eq!(sup.status(ServerType::Http), ServerStatus::Running);
    assert!(matches!(sup.status(ServerType::Ftp), ServerStatus::Error(_)));
}

fn serve_until_stopped(rt: &tokio::runtime::Runtime, sup: &mut Supervisor, port: u16) {
    let mut t = start_http(sup, port);
    let listener = rt.block_on(tokio::net::TcpListener::bind(("127.0.0.1", port)));
    let listener = listener.expect("port is free");
    t.reporter.send(http::listening_event(&http_config(port)));
    let task = rt.spawn(async move {
        t.shutdown_rx.recv().await;
        drop(listener);
        t.reporter.send(http::shut_down_event());
    });
    sup.sync(10);
    assert_eq!(sup.status(ServerType::Http), ServerStatus::Running);
    sup.stop(ServerType::Http).unwrap();
    rt.block_on(task).unwrap();
    sup.sync(10);
    assert_eq!(sup.status(ServerType::Http), ServerStatus::Stopped);
}

#[test]
fn port_released_before_stopped() {
    let rt = tokio::runtime::Runtime::new().unwrap();
    let mut sup = Supervisor::new("/srv".to_string());
    serve_until_stopped(&rt, &mut sup, 7777);
    serve_until_stopped(&rt, &mut sup, 7777);
}

#[test]
fn concurrent_observation_sees_whole_snapshots() {
    let rt = tokio::runtime::Builder::new_multi_thread().worker_threads(2).build().unwrap();
    let mut sup = Supervisor::new("/srv".to_string());
    let t = start_http(&mut sup, 7777);
    t.reporter.send(http::listening_event(&http_config(7777)));
    let reporter = t.reporter;
    let writer = rt.spawn_blocking(move || {
        for i in 0..2000u32 {
            reporter.send(RunEvent::info(format!("GET /file{} 200 1ms", i)));
        }
    });
    // 1000 status and log reads while the task keeps reporting.
    let mut last_seen: i64 = -1;
    for _ in 0..1000 {
        sup.sync(64);
        let logs = sup.logs(ServerType::Http);
        assert!(logs.len() <= LOG_CAPACITY);
        let numbers: Vec<i64> = logs
            .iter()
            .filter_map(|m| m.message.strip_prefix("GET /file"))
            .map(|rest| rest.split(' ').next().unwrap().parse().unwrap())
            .collect();
        for w in numbers.windows(2) {
            assert_eq!(w[1], w[0] + 1);
        }
        if let Some(&n) = numbers.last() {
            assert!(n >= last_seen);
            last_seen = n;
        }
        assert_eq!(sup.status(ServerType::Http), ServerStatus::Running);
    }
    rt.block_on(writer).unwrap();
    while sup.sync(1000) > 0 {}
    let logs = sup.logs(ServerType::Http);
    assert_eq!(logs.len(), 100);
    assert_eq!(logs[99].message, "GET /file1999 200 1ms");
}

#[test]
fn handle_signal_roundtrip() {
    let mut h = ServerHandle::new(ServerConfig { root_dir: "/srv".to_string(), port: 1, auto_stop_seconds: None });
    assert!(!h.request_shutdown());
    let (tx, mut rx) = tokio::sync::mpsc::channel::<()>(1);
    h.set_shutdown_tx(tx);
    assert!(h.request_shutdown());
    assert_eq!(rx.try_recv(), Ok(()));
    assert!(h.fire_stop());
    assert_eq!(rx.try_recv(), Ok(()));
    assert!(!h.fire_stop());
    assert!(!h.request_shutdown());
    assert_eq!(h.status(), ServerStatus::Stopped);
    assert!(!h.is_running());
    assert!(h.logs().is_empty());
}

#[test]
fn auto_stop_notice_only_while_running() {
    let mut sup = Supervisor::new("/srv".to_string());
    let t = start_http(&mut sup, 7777);
    t.reporter.send(http::auto_stop_event(360));
    sup.sync(10);
    assert!(sup.logs(ServerType::Http).is_empty());
    assert_eq!(sup.status(ServerType::Http), ServerStatus::Starting);
    t.reporter.send(http::listening_event(&http_config(7777)));
    t.reporter.send(http::auto_stop_event(360));
    sup.sync(10);
    let logs = sup.logs(ServerType::Http);
    assert_eq!(logs.last().unwrap().message, "Auto-stopping after 360 seconds of inactivity");
    assert_eq!(sup.status(ServerType::Http), ServerStatus::Running);
}

#[test]
fn sync_applies_at_most_max() {
    let mut sup = Supervisor::new("/srv".to_string());
    let t = start_http(&mut sup, 7777);
    for i in 0..5 {
        t.reporter.send(RunEvent::info(format!("line {}", i)));
    }
    assert_eq!(sup.sync(3), 3);
    assert_eq!(sup.logs(ServerType::Http).len(), 3);
    assert_eq!(sup.sync(10), 2);
    assert_eq!(sup.sync(10), 0);
}

#[test]
fn reporter_tags_events_with_slot_and_run() {
    let mut sup = Supervisor::new("/srv".to_string());
    let t = start_http(&mut sup, 7777);
    let ev = t.reporter.tagged(RunEvent::info("hello".to_string()));
    assert_eq!(ev.kind, ServerType::Http);
    assert_eq!(ev.run, 1);
    assert!(matches!(ev.event, RunEvent::Log(ref m) if m.message == "hello"));
}

#[test]
fn sync_with_zero_max_changes_nothing() {
    let mut sup = Supervisor::new("/srv".to_string());
    let t = start_http(&mut sup, 7777);
    t.reporter.send(http::listening_event(&http_config(7777)));
    assert_eq!(sup.sync(0), 0);
    assert_eq!(sup.status(ServerType::Http), ServerStatus::Starting);
    assert_eq!(sup.sync(1), 1);
    assert_eq!(sup.status(ServerType::Http), ServerStatus::Running);
}
