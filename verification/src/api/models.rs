use vstd::prelude::*;

verus! {

/// A channel-point reward, as Twitch's API describes it.
#[derive(Debug, Clone)]
pub struct ChannelPointReward {
    pub id: String,
    pub title: String,
    pub cost: u32,
    pub is_enabled: bool,
    pub is_paused: bool,
    pub is_in_stock: bool,
    pub is_user_input_required: bool,
}

} // verus!
