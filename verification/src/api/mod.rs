//! The decisions of the REST routes: who may see what, and how a
//! failure is answered.

pub mod property_controller;
pub mod user_controller;
