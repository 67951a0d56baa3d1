//! The helper service that can run the core with the rights it needs.

pub mod client;
pub mod command;
pub mod ics;
pub mod ics_laws;
pub mod ics_request;
pub mod ics_schedule;
pub mod install;
pub mod ipc;
pub mod macos;
pub mod macos_laws;
pub mod maintenance;
pub mod quoting_laws;
pub mod scm;
pub mod scm_laws;
pub mod status;
pub mod status_laws;
