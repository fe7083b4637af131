//! Login through an OpenID-Connect provider: the provider client, the token
//! decoder, the session and the per-request guard.

pub mod auth_controller;
pub mod jwt;
pub mod middleware;
pub mod replit_auth;
pub mod service_middleware;
pub mod session;
