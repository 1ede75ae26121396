//! Configuration of all four servers, as kept between sessions.

use vstd::prelude::*;

use crate::servers::ftp::FtpConfig;
use crate::servers::http::HttpConfig;
use crate::servers::ssh::SshConfig;
use crate::servers::tftp::TftpConfig;

verus! {

/// Settings of every kind of server.
#[derive(Debug)]
pub struct AppConfig {
    pub http: HttpConfig,
    pub ftp: FtpConfig,
    pub tftp: TftpConfig,
    pub ssh: SshConfig,
}

impl AppConfig {
    /// The default settings of every server, all serving `root_dir`.
    pub fn with_root_dir(root_dir: String) -> (r: AppConfig)
        ensures
            r.http.root_dir == root_dir && r.http.port == 7777 && r.http.allow_directory_listing
                && r.http.auto_stop_seconds == Some(360u64),
            r.ftp.root_dir == root_dir && r.ftp.port == 2121 && r.ftp.username@ == "admin"@
                && r.ftp.password@ == "admin"@ && r.ftp.anonymous_access && r.ftp.passive_mode
                && r.ftp.passive_ports == (50000u16, 50100u16),
            r.tftp.root_dir == root_dir && r.tftp.port == 69 && !r.tftp.read_only,
            r.ssh.root_dir == root_dir && r.ssh.port == 2222 && r.ssh.username@ == "admin"@
                && r.ssh.password@ == "admin"@,
    {
        AppConfig {
            http: HttpConfig::with_root_dir(root_dir.clone()),
            ftp: FtpConfig::with_root_dir(root_dir.clone()),
            tftp: TftpConfig::with_root_dir(root_dir.clone()),
            ssh: SshConfig::with_root_dir(root_dir),
        }
    }
}

} // verus!
