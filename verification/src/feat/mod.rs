//! What the application's user interface asks of the controller.

pub mod config;
pub mod profile;
