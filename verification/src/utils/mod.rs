//! Helpers shared by the services.

pub mod config_loader;
pub mod datetime;
pub mod format;
pub mod jwt;
pub mod logging;
pub mod validation;
