//! Helpers that stand beside the commands.
pub mod tcpr;
