pub mod world;
pub mod shoutout;
pub mod add_redeem;
pub mod ping;
pub mod reset_drop_game;
pub mod uptime;
pub mod verify;
pub mod fun_commands;
pub mod continue_message;
pub mod vrc;
pub mod discord;
pub mod channel_management;
pub mod ad_commands;
pub mod followers;
pub mod calc;
pub mod redeem_commands;
pub mod debug;
