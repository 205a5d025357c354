//! A verified core for a small GIF search-and-favorites application: the
//! client's event-driven state machine, the wire types it exchanges with the
//! backend, and the backend's credential rules.

pub mod client;
pub mod collections;
pub mod common;
pub mod proto;
pub mod server;
pub mod text;
pub mod validation;
