//! Record stores.

pub mod property_repository;
pub mod user_repository;
