//! What the operator does for an instance.

pub mod child_resources;
pub mod helpers;
pub mod monitoring;
pub mod staging_sleep;
pub mod states;
