pub mod client;
pub mod events;
