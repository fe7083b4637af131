//! The shared library of the TerraFusionPro services: a session-based
//! OpenID-Connect login, tokens for calls between services, the store of
//! user records, and the helpers that the services have in common.
//!
//! The library decides and computes; it does no input or output. A
//! service reads the request, the session cookie and the clock, hands
//! them over as plain values, and carries out what comes back: a session
//! to store, an answer to send, a request to make to the identity
//! provider, a statement to run on the database.
//!
//! Every function states what it returns in terms of the mathematical
//! value of its arguments, and is proved to meet that statement. What
//! other crates compute (JSON, Base64, signatures, regular expressions)
//! is given a name, and the functions that call them are stated over
//! those names.
//!
//! - [`auth`]: the provider client, the token decoder, the session, the
//!   guard of protected routes, the login routes, and tokens for
//!   services.
//! - [`repository`], [`service`], [`api`], [`graphql`], [`models`]: the
//!   records of the services and the rules of their routes.
//! - [`config`], [`db`], [`error`], [`utils`]: configuration, paging,
//!   the error taxonomy, formatting, validation, logging.
//! - [`json`], [`codec`], [`jose`], [`pattern`], [`nonce`], [`clock`],
//!   [`text`]: what the above stand on.

pub mod api;
pub mod auth;
pub mod clock;
pub mod codec;
pub mod config;
pub mod db;
pub mod error;
pub mod graphql;
pub mod jose;
pub mod json;
pub mod models;
pub mod nonce;
pub mod pattern;
pub mod repository;
pub mod service;
pub mod text;
pub mod utils;
