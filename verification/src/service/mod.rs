//! The rules of the services, between their routes and their stores.

pub mod user_service;
