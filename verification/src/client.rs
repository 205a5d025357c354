//! The client's state machine: one model, changed by events alone.

pub mod api;
pub mod components;
pub mod containers;
pub mod laws;
pub mod net;
pub mod router;
pub mod runtime;
pub mod state;
pub mod ui;
pub mod utils;
