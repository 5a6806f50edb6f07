//! The settings of the bot as the README describes them.
pub mod toml;
