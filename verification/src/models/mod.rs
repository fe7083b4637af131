//! The records that the services keep and exchange.

pub mod appraisal;
pub mod form;
pub mod property;
pub mod report;
pub mod user;
