pub mod channel;
pub mod shoutout;
pub mod followers;
