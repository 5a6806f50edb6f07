//! Razi, a Discord bot for King Arthur's Gold communities: the decisions of its
//! commands and event handlers, the texts it sends and the handling of its
//! settings file, as functions from plain values to plain values.
pub mod args;
pub mod commands;
pub mod config_file;
pub mod embed;
pub mod handler;
pub mod ids;
pub mod misc;
pub mod razi_toml;
pub mod settings;
pub mod text;
pub mod toml;
