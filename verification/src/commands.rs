//! The bot's commands.
pub mod server;
pub mod servers;
pub mod admin;
pub mod plan;
pub mod admins;
