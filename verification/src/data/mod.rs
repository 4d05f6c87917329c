//! Game data.

pub mod arena;
pub mod validators;
pub mod remote_mutex;
