//! The binary protocol between client and backend.

pub mod api;
pub mod api_ext;
