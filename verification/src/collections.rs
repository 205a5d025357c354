//! Small keyed collections whose keys are strings compared by content.

pub mod gif_map;
pub mod id_set;
pub mod keys;
pub mod text_map;

