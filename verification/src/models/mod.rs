//! Request and response models for the Allscreenshots API.

pub mod bulk;
pub mod common;
pub mod compose;
pub mod schedule;
pub mod screenshot;
pub mod usage;
