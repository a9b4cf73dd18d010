pub mod command_system;
pub mod commands;
pub mod client;
