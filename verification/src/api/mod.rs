pub mod models;
pub mod requests;
pub mod client;
