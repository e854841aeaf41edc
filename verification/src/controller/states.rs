//! What each phase of an instance is to bring about.

pub mod stopped;
