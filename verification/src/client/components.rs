//! The parts that several pages share.

pub mod gifcard;
pub mod navbar;

pub use crate::client::components::gifcard::gifcard;
pub use crate::client::components::navbar::navbar;
