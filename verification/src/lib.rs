//! Chat-bot logic for a Twitch channel: command parsing and replies,
//! cooldowns and queues, connection bookkeeping, and the decisions taken on
//! EventSub notifications.
use vstd::prelude::*;

pub mod text;
pub mod keyed;
pub mod clock;
pub mod connection_monitor;
pub mod roles;
pub mod irc;
pub mod eventsub;
pub mod api;
pub mod manager;
pub mod handler;

verus! {

} // verus!
