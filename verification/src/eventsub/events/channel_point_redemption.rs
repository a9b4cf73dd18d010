use vstd::prelude::*;
use crate::eventsub::events::notifications::or_default;
use crate::eventsub::events::redemptions::models::{Redemption, RedemptionResult, RedemptionStatus};

verus! {

fn text_or_empty(o: Option<&str>) -> (r: String)
    ensures
        r@ == or_default(o, ""@),
{
    proof {
        reveal_strlit("");
    }
    match o {
        Some(s) => String::from_str(s),
        None => String::new(),
    }
}

/// A redemption from the fields of a redemption event: a missing text is
/// empty, a missing status reads `unfulfilled`; it is not queued and not announced.
pub fn parse_redemption(
    id: Option<&str>,
    broadcaster_user_id: Option<&str>,
    user_id: Option<&str>,
    user_login: Option<&str>,
    reward_id: Option<&str>,
    reward_title: Option<&str>,
    user_input: Option<&str>,
    status: Option<&str>,
) -> (r: Redemption)
    ensures
        r.id@ == or_default(id, ""@),
        r.broadcaster_id@ == or_default(broadcaster_user_id, ""@),
        r.user_id@ == or_default(user_id, ""@),
        r.user_name@ == or_default(user_login, ""@),
        r.reward_id@ == or_default(reward_id, ""@),
        r.reward_title@ == or_default(reward_title, ""@),
        match user_input {
            Some(t) => r.user_input is Some && r.user_input->0@ == t@,
            None => r.user_input is None,
        },
        r.status == RedemptionStatus::from_text(or_default(status, "unfulfilled"@)),
        !r.queued && r.queue_number is None && !r.announce_in_chat,
{
    let status_text = match status {
        Some(s) => s,
        None => "unfulfilled",
    };
    Redemption {
        id: text_or_empty(id),
        broadcaster_id: text_or_empty(broadcaster_user_id),
        user_id: text_or_empty(user_id),
        user_name: text_or_empty(user_login),
        reward_id: text_or_empty(reward_id),
        reward_title: text_or_empty(reward_title),
        user_input: match user_input {
            Some(t) => Some(String::from_str(t)),
            None => None,
        },
        status: RedemptionStatus::from_status_text(status_text),
        queued: false,
        queue_number: None,
        announce_in_chat: false,
    }
}

} // verus!

verus! {

/// What follows a handled redemption: the message to post, if the handling
/// succeeded and gave one, and whether to mark it complete (a successful
/// redemption of a reward set to complete itself).
pub fn new_redemption_followup(result: &RedemptionResult, auto_complete: Option<bool>) -> (r: (Option<String>, bool))
    ensures
        result.success ==> match result.message {
            Some(m) => r.0 is Some && r.0->0@ == m@,
            None => r.0 is None,
        },
        !result.success ==> r.0 is None,
        r.1 == (result.success && auto_complete == Some(true)),
{
    if !result.success {
        return (None, false);
    }
    let message = match &result.message {
        Some(m) => Some(m.clone()),
        None => None,
    };
    let complete = match auto_complete {
        Some(b) => b,
        None => false,
    };
    (message, complete)
}

} // verus!
