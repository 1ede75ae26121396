//! The four kinds of server: their configurations, the log lines each one
//! writes, and how each one reports its progress into its slot.

pub mod ftp;
pub mod http;
pub mod ssh;
pub mod tftp;
