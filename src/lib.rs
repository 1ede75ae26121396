//! Lifecycle core of a manager for several file-serving daemons (HTTP, FTP,
//! TFTP, SSH): per-slot status state machine, bounded log window, stop
//! signalling and the supervisor that owns the fixed slot table.

pub mod status;
pub mod state;
pub mod error;
pub mod handle;
pub mod text;
pub mod servers;
pub mod supervisor;
pub mod form;
pub mod config;
pub mod listing;
