use vstd::prelude::*;
use crate::irc::commands::channel_management::{text_plan, TextPlan};
use crate::text::{join, join_strings_from, str_equal, string_from_chars, string_views};

verus! {

/// The answer to `!toggleredeem <title>`: the reward's new state, or that
/// no reward has that title.
pub fn toggle_redeem_reply(title: &str, new_state: Option<bool>) -> (r: String)
    ensures
        match new_state {
            Some(b) => r@ == "Redeem '"@ + title@ + "' has been "@ + (if b { "enabled"@ } else { "disabled"@ }),
            None => r@ == "Redeem '"@ + title@ + "' not found"@,
        },
{
    let mut r = String::from_str("Redeem '");
    r.append(title);
    match new_state {
        Some(b) => {
            r.append("' has been ");
            if b {
                r.append("enabled");
            } else {
                r.append("disabled");
            }
        },
        None => r.append("' not found"),
    }
    r
}

/// The reward title of `!toggleredeem`: all arguments joined by spaces.
pub fn toggle_redeem_plan(params: &Vec<String>) -> (r: TextPlan)
    ensures
        params@.len() == 0 ==> r is Usage && r->Usage_0@ == "Usage: !toggleredeem <redeem_name>"@,
        params@.len() > 0 ==> r is Proceed && r->Proceed_0@ == join(string_views(params@), " "@),
{
    text_plan(params, "Usage: !toggleredeem <redeem_name>")
}

/// The redemption id of `!complete`: its first argument.
pub fn complete_plan(params: &Vec<String>) -> (r: Result<String, String>)
    ensures
        params@.len() == 0 ==> r is Err && r->Err_0@ == "Usage: !complete <redemption_id>"@,
        params@.len() > 0 ==> r is Ok && r->Ok_0@ == params@[0]@,
{
    if params.len() == 0 {
        Err(String::from_str("Usage: !complete <redemption_id>"))
    } else {
        Ok(params[0].clone())
    }
}

/// The answer to `!complete <id>`, once the redemption was completed or refused.
pub fn complete_reply(redemption_id: &str, outcome: Result<(), String>) -> (r: String)
    ensures
        match outcome {
            Ok(()) => r@ == "Redemption "@ + redemption_id@ + " marked as complete"@,
            Err(e) => r@ == "Error completing redemption: "@ + e@,
        },
{
    match outcome {
        Ok(()) => {
            let mut r = String::from_str("Redemption ");
            r.append(redemption_id);
            r.append(" marked as complete");
            r
        },
        Err(e) => {
            let mut r = String::from_str("Error completing redemption: ");
            r.append(e.as_str());
            r
        },
    }
}

/// What `str::parse::<bool>` reads: exactly `true` or `false`.
pub open spec fn parse_bool_spec(s: Seq<char>) -> Option<bool> {
    if s == "true"@ {
        Some(true)
    } else if s == "false"@ {
        Some(false)
    } else {
        None
    }
}

/// What `!setofflineredeem` does with its arguments.
pub enum OfflineRedeemPlan {
    /// Answer with the usage line.
    Usage(String),
    /// The state is not `true` or `false`: the command fails with this error.
    Fail(String),
    /// Set the offline chat state of the reward titled `title`.
    Apply { title: String, offline: bool },
}

/// Reads `!setofflineredeem <redeem_name> <true/false>`: exactly two arguments.
pub fn offline_redeem_plan(params: &Vec<String>) -> (r: OfflineRedeemPlan)
    ensures
        params@.len() != 2 ==> r is Usage && r->Usage_0@ == "Usage: !setofflineredeem <redeem_name> <true/false>"@,
        params@.len() == 2 ==> match parse_bool_spec(params@[1]@) {
            Some(b) => r is Apply && r->title@ == params@[0]@ && r->offline == b,
            None => r is Fail && r->Fail_0@ == "Invalid boolean value"@,
        },
{
    proof {
        reveal_strlit("true");
        reveal_strlit("false");
        assert("true"@.len() != "false"@.len());
    }
    if params.len() != 2 {
        return OfflineRedeemPlan::Usage(String::from_str("Usage: !setofflineredeem <redeem_name> <true/false>"));
    }
    if str_equal(params[1].as_str(), "true") {
        OfflineRedeemPlan::Apply { title: params[0].clone(), offline: true }
    } else if str_equal(params[1].as_str(), "false") {
        OfflineRedeemPlan::Apply { title: params[0].clone(), offline: false }
    } else {
        OfflineRedeemPlan::Fail(String::from_str("Invalid boolean value"))
    }
}

/// The answer to `!setofflineredeem`, once the reward was looked up.
pub fn offline_redeem_reply(title: &str, offline: bool, found: bool) -> (r: String)
    ensures
        found ==> r@ == "Offline chat status for '"@ + title@ + "' set to: "@ + (if offline {
            "true"@
        } else {
            "false"@
        }),
        !found ==> r@ == "Redeem '"@ + title@ + "' not found"@,
{
    if found {
        let mut r = String::from_str("Offline chat status for '");
        r.append(title);
        r.append("' set to: ");
        if offline {
            r.append("true");
        } else {
            r.append("false");
        }
        r
    } else {
        let mut r = String::from_str("Redeem '");
        r.append(title);
        r.append("' not found");
        r
    }
}

/// What `!setactivegames` does with its arguments.
pub enum ActiveGamesPlan {
    /// Answer with the usage line.
    Usage(String),
    /// Set the games in which the reward titled `title` is active.
    Apply { title: String, games: Vec<String> },
}

/// Reads `!setactivegames <redeem_name> <game1> [game2] ...`: a title and at least one game.
pub fn active_games_plan(params: &Vec<String>) -> (r: ActiveGamesPlan)
    ensures
        params@.len() < 2 ==> r is Usage && r->Usage_0@
            == "Usage: !setactivegames <redeem_name> <game1> [game2] [game3] ..."@,
        params@.len() >= 2 ==> r is Apply && r->title@ == params@[0]@ && string_views(r->games@) == string_views(
            params@,
        ).skip(1),
{
    if params.len() < 2 {
        return ActiveGamesPlan::Usage(
            String::from_str("Usage: !setactivegames <redeem_name> <game1> [game2] [game3] ..."),
        );
    }
    let mut games: Vec<String> = Vec::new();
    let mut i: usize = 1;
    while i < params.len()
        invariant
            1 <= i <= params@.len(),
            string_views(games@) == string_views(params@).subrange(1, i as int),
        decreases params@.len() - i,
    {
        let ghost before = games@;
        games.push(params[i].clone());
        assert(string_views(games@) =~= string_views(before).push(params@[i as int]@));
        assert(string_views(params@).subrange(1, i + 1) =~= string_views(params@).subrange(1, i as int).push(
            params@[i as int]@,
        ));
        i = i + 1;
    }
    assert(string_views(params@).subrange(1, params@.len() as int) =~= string_views(params@).skip(1));
    ActiveGamesPlan::Apply { title: params[0].clone(), games }
}

/// The answer to `!setactivegames`, once the reward was looked up.
pub fn active_games_reply(title: &str, games: &Vec<String>, found: bool) -> (r: String)
    ensures
        found ==> r@ == "Active games for '"@ + title@ + "' set to: "@ + join(string_views(games@), ", "@),
        !found ==> r@ == "Redeem '"@ + title@ + "' not found"@,
{
    if found {
        let mut r = String::from_str("Active games for '");
        r.append(title);
        r.append("' set to: ");
        let joined = join_strings_from(games, 0, ", ");
        assert(string_views(games@).skip(0) =~= string_views(games@));
        r.append(string_from_chars(joined.as_slice()).as_str());
        r
    } else {
        let mut r = String::from_str("Redeem '");
        r.append(title);
        r.append("' not found");
        r
    }
}

} // verus!
