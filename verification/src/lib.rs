//! The controller of a proxy core: it starts, stops and hands over the core,
//! keeps its helper service in order, and changes its configuration in
//! transactions that undo themselves when they fail.

pub mod clock;
pub mod effects;
pub mod error;
pub mod feat;
pub mod flags;
pub mod manager;
pub mod platform;
pub mod rollback;
pub mod service;
pub mod settings;
pub mod text;
pub mod text_laws;
pub mod transaction;
pub mod tun;
pub mod validation;
mod win32;
pub mod yaml;
