//! The names that a host application needs first.

pub use crate::settings::SpatialAudioPlugin;
pub use crate::spatial::{listener_update, Listener};
