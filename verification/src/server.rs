//! The rules of the backend: credentials, tokens and what the handlers
//! decide.

pub mod api;
pub mod auth;
pub mod models;
