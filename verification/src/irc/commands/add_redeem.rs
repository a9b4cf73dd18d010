use vstd::prelude::*;
use crate::text::{
    chars_equal, chars_of, drop_first_word, drop_words, join, join_strings, parse_u32, parse_u32_spec, split_once,
    split_once_spec, split_whitespace, string_from_chars, string_views, trim_start,
    trim_start_chars, views, words,
};
use crate::eventsub::events::redemptions::models::{RedemptionActionConfig, RedemptionActionType};

verus! {

/// The kind of value an OSC message carries.
#[derive(Debug, Clone, Copy, PartialEq, Eq, Structural)]
pub enum OscMessageType {
    Boolean,
    Integer,
}

/// A value of an OSC message.
#[derive(Debug, Clone, Copy, PartialEq, Eq, Structural)]
pub enum OscValue {
    Boolean(bool),
    Integer(i32),
}

/// How a redeem drives an OSC parameter.
#[derive(Debug, Clone)]
pub struct OscSettings {
    pub uses_osc: bool,
    pub osc_endpoint: String,
    pub osc_type: OscMessageType,
    pub osc_value: OscValue,
    pub default_value: OscValue,
    /// How long the value is held, in seconds.
    pub execution_duration_secs: Option<u64>,
    pub send_chat_message: bool,
}

/// The OSC settings of a redeem added from chat: OSC is not used.
pub open spec fn chat_redeem_osc(o: OscSettings) -> bool {
    &&& !o.uses_osc
    &&& o.osc_endpoint@.len() == 0
    &&& o.osc_type == OscMessageType::Boolean
    &&& o.osc_value == OscValue::Boolean(false)
    &&& o.default_value == OscValue::Integer(0)
    &&& o.execution_duration_secs == Some(3u64)
    &&& !o.send_chat_message
}

/// A redeem that `!add_redeem` asks for, read from its parameters.
pub struct AddRedeemRequest {
    pub title: String,
    pub cost: u32,
    pub action_config: RedemptionActionConfig,
    pub cooldown: u32,
    pub prompt: String,
    pub active_games: Vec<String>,
    pub offline_chat_redeem: bool,
    /// Whether redemptions complete themselves; never so for a redeem added from chat.
    pub auto_complete: bool,
    pub osc_config: OscSettings,
}

/// What `!add_redeem` does with its parameters.
pub enum AddRedeemCommand {
    /// Answers in chat and stops.
    Reply(String),
    /// Stops with this error.
    Fail(String),
    /// Adds the redeem.
    Add(AddRedeemRequest),
}

/// The kind of action that the command names.
pub enum ActionKind {
    Ai,
    Osc,
    Custom,
}

/// The meaning of `!add_redeem`'s parameters, over plain text.
pub enum AddRedeemOutcome {
    Reply(Seq<char>),
    Fail(Seq<char>),
    Add {
        title: Seq<char>,
        cost: u32,
        kind: ActionKind,
        cooldown: u32,
        prompt: Seq<char>,
        queued: bool,
        announce: bool,
        offline_chat_redeem: bool,
        active_games: Seq<Seq<char>>,
    },
}

pub open spec fn usage_text() -> Seq<char> {
    "Invalid command format. Use: !add_redeem \"<title>\" <cost> <action_type> <cooldown> \"<prompt>\" [queued] [announce] [offline_chat_redeem] [game1] [game2] ..."@
}

fn usage_reply() -> (s: String)
    ensures
        s@ == usage_text(),
{
    String::from_str(
        "Invalid command format. Use: !add_redeem \"<title>\" <cost> <action_type> <cooldown> \"<prompt>\" [queued] [announce] [offline_chat_redeem] [game1] [game2] ...",
    )
}

/// The title, and the text after it: a title in quotes runs to the next quote,
/// an unquoted one to the first space.
pub open spec fn split_title(full: Seq<char>) -> Option<(Seq<char>, Seq<char>)> {
    if full.len() > 0 && full[0] == '"' {
        match split_once_spec(full.drop_first(), '"') {
            Some((t, r)) => Some((t, trim_start(r))),
            None => None,
        }
    } else {
        split_once_spec(full, ' ')
    }
}

/// The `n`-th optional flag: set when it reads `true`.
pub open spec fn flag(flags: Seq<Seq<char>>, n: int) -> bool {
    flags.len() > n && flags[n] == "true"@
}

pub open spec fn action_kind(action: Seq<char>) -> Option<ActionKind> {
    if action == "ai"@ {
        Some(ActionKind::Ai)
    } else if action == "osc"@ {
        Some(ActionKind::Osc)
    } else if action == "custom"@ {
        Some(ActionKind::Custom)
    } else {
        None
    }
}

/// The redeem, once the action is read: the words after the prompt are
/// `queued`, `announce` and `offline_chat_redeem` (each set when it reads
/// `true`), then the games.
pub open spec fn finish_outcome(
    title: Seq<char>,
    cost: u32,
    action: Seq<char>,
    cooldown: u32,
    prompt: Seq<char>,
    flags: Seq<Seq<char>>,
) -> AddRedeemOutcome {
    match action_kind(action) {
        None => AddRedeemOutcome::Reply("Invalid action type. Use 'ai', 'osc', or 'custom'."@),
        Some(kind) => AddRedeemOutcome::Add {
            title,
            cost,
            kind,
            cooldown,
            prompt,
            queued: flag(flags, 0),
            announce: flag(flags, 1),
            offline_chat_redeem: flag(flags, 2),
            active_games: if flags.len() > 3 { flags.skip(3) } else { Seq::empty() },
        },
    }
}

/// After title, cost, action and cooldown, in the text `after` that follows
/// the cooldown: the quoted prompt, then the flags and the games.
pub open spec fn prompt_outcome(
    title: Seq<char>,
    after: Seq<char>,
    cost: u32,
    action: Seq<char>,
    cooldown: u32,
) -> AddRedeemOutcome {
    let rt = trim_start(after);
    if rt.len() > 0 && rt[0] == '"' {
        match split_once_spec(rt.drop_first(), '"') {
            None => AddRedeemOutcome::Reply(
                "Invalid prompt format. Prompt should be enclosed in quotes."@,
            ),
            Some((prompt, after)) => finish_outcome(
                title,
                cost,
                action,
                cooldown,
                prompt,
                words(trim_start(after)),
            ),
        }
    } else {
        AddRedeemOutcome::Reply("Missing prompt parameter. Prompt should be enclosed in quotes."@)
    }
}

/// What `!add_redeem` does with the parameters `params` (the words after the command).
pub open spec fn add_redeem_outcome(params: Seq<Seq<char>>) -> AddRedeemOutcome {
    match split_title(join(params, " "@)) {
        None => AddRedeemOutcome::Reply(usage_text()),
        Some((title, rest)) => {
            let parts = words(rest);
            if parts.len() < 1 {
                AddRedeemOutcome::Reply("Missing cost parameter"@)
            } else {
                match parse_u32_spec(parts[0]) {
                    None => AddRedeemOutcome::Fail("Invalid cost"@),
                    Some(cost) => if parts.len() < 2 {
                        AddRedeemOutcome::Reply("Missing action type parameter"@)
                    } else if parts.len() < 3 {
                        AddRedeemOutcome::Reply("Missing cooldown parameter"@)
                    } else {
                        match parse_u32_spec(parts[2]) {
                            None => AddRedeemOutcome::Fail("Invalid cooldown"@),
                            Some(cooldown) => prompt_outcome(
                                title,
                                drop_words(rest, 3),
                                cost,
                                parts[1],
                                cooldown,
                            ),
                        }
                    },
                }
            }
        },
    }
}

impl AddRedeemCommand {
    /// Whether this command is what `outcome` describes.
    pub open spec fn matches(self, outcome: AddRedeemOutcome) -> bool {
        match (self, outcome) {
            (AddRedeemCommand::Reply(m), AddRedeemOutcome::Reply(o)) => m@ == o,
            (AddRedeemCommand::Fail(m), AddRedeemOutcome::Fail(o)) => m@ == o,
            (
                AddRedeemCommand::Add(req),
                AddRedeemOutcome::Add {
                    title,
                    cost,
                    kind,
                    cooldown,
                    prompt,
                    queued,
                    announce,
                    offline_chat_redeem,
                    active_games,
                },
            ) => {
                &&& req.title@ == title
                &&& req.cost == cost
                &&& req.cooldown == cooldown
                &&& req.prompt@ == prompt
                &&& req.action_config.queued == queued
                &&& req.action_config.announce_in_chat == announce
                &&& !req.action_config.requires_manual_completion
                &&& req.offline_chat_redeem == offline_chat_redeem
                &&& !req.auto_complete
                &&& chat_redeem_osc(req.osc_config)
                &&& string_views(req.active_games@) == active_games
                &&& match kind {
                    ActionKind::Ai => req.action_config.action is AIResponse,
                    ActionKind::Osc => req.action_config.action is OSCMessage,
                    ActionKind::Custom => match req.action_config.action {
                        RedemptionActionType::Custom(name) => name@ == title,
                        _ => false,
                    },
                }
            },
            _ => false,
        }
    }
}

fn reply(s: &str) -> (r: AddRedeemCommand)
    ensures
        r matches AddRedeemCommand::Reply(m) && m@ == s@,
{
    AddRedeemCommand::Reply(String::from_str(s))
}

fn fail(s: &str) -> (r: AddRedeemCommand)
    ensures
        r matches AddRedeemCommand::Fail(m) && m@ == s@,
{
    AddRedeemCommand::Fail(String::from_str(s))
}

fn word_is(w: &Vec<char>, lit: &str) -> (r: bool)
    ensures
        r == (w@ == lit@),
{
    let l = chars_of(lit);
    chars_equal(w.as_slice(), l.as_slice())
}

fn flag_at(flags: &Vec<Vec<char>>, n: usize) -> (r: bool)
    ensures
        r == flag(views(flags@), n as int),
{
    if flags.len() > n {
        word_is(&flags[n], "true")
    } else {
        false
    }
}

fn finish(
    title: &Vec<char>,
    cost: u32,
    action: &Vec<char>,
    cooldown: u32,
    prompt: &Vec<char>,
    flags: &Vec<Vec<char>>,
) -> (r: AddRedeemCommand)
    ensures
        r.matches(finish_outcome(title@, cost, action@, cooldown, prompt@, views(flags@))),
{
    let queued = flag_at(flags, 0);
    let announce = flag_at(flags, 1);
    let offline_chat_redeem = flag_at(flags, 2);
    let mut active_games: Vec<String> = Vec::new();
    let mut k: usize = 3;
    let ghost fv = views(flags@);
    while k < flags.len()
        invariant
            3 <= k <= flags.len() || (k == 3 && flags.len() < 3),
            fv == views(flags@),
            k <= flags.len() ==> string_views(active_games@) == fv.subrange(3, k as int),
            k > flags.len() ==> active_games@.len() == 0,
        decreases flags.len() - k,
    {
        let g = string_from_chars(flags[k].as_slice());
        let ghost before = active_games@;
        active_games.push(g);
        assert(string_views(active_games@) =~= string_views(before).push(g@));
        assert(fv.subrange(3, k + 1) =~= fv.subrange(3, k as int).push(fv[k as int]));
        k = k + 1;
    }
    proof {
        if flags.len() > 3 {
            assert(fv.subrange(3, flags.len() as int) =~= fv.skip(3));
        } else {
            assert(string_views(active_games@) =~= Seq::<Seq<char>>::empty());
        }
    }
    let kind = if word_is(action, "ai") {
        RedemptionActionType::AIResponse
    } else if word_is(action, "osc") {
        RedemptionActionType::OSCMessage
    } else if word_is(action, "custom") {
        RedemptionActionType::Custom(string_from_chars(title.as_slice()))
    } else {
        return reply("Invalid action type. Use 'ai', 'osc', or 'custom'.");
    };
    AddRedeemCommand::Add(
        AddRedeemRequest {
            title: string_from_chars(title.as_slice()),
            cost,
            action_config: RedemptionActionConfig {
                action: kind,
                queued,
                announce_in_chat: announce,
                requires_manual_completion: false,
            },
            cooldown,
            prompt: string_from_chars(prompt.as_slice()),
            active_games,
            offline_chat_redeem,
            auto_complete: false,
            osc_config: OscSettings {
                uses_osc: false,
                osc_endpoint: String::new(),
                osc_type: OscMessageType::Boolean,
                osc_value: OscValue::Boolean(false),
                default_value: OscValue::Integer(0),
                execution_duration_secs: Some(3),
                send_chat_message: false,
            },
        },
    )
}

/// Reads the parameters of `!add_redeem "<title>" <cost> <action_type> <cooldown>
/// "<prompt>" [queued] [announce] [offline_chat_redeem] [game1] [game2] ...`:
/// the prompt is looked for after the cooldown, and the words after it are
/// the three flags, then the games. A redeem added from chat does not
/// complete itself.
pub fn parse_add_redeem(params: &Vec<String>) -> (r: AddRedeemCommand)
    ensures
        r.matches(add_redeem_outcome(string_views(params@))),
{
    let full = join_strings(params, " ");
    let (title, rest) = if full.len() > 0 && full[0] == '"' {
        let tail = crate::text::slice_range(full.as_slice(), 1, full.len());
        assert(tail@ =~= full@.drop_first());
        match split_once(tail.as_slice(), '"') {
            Some((t, r)) => {
                let r2 = trim_start_chars(r.as_slice());
                (t, r2)
            },
            None => {
                return AddRedeemCommand::Reply(usage_reply());
            },
        }
    } else {
        match split_once(full.as_slice(), ' ') {
            Some((t, r)) => (t, r),
            None => {
                return AddRedeemCommand::Reply(usage_reply());
            },
        }
    };
    assert(split_title(join(string_views(params@), " "@)) == Some((title@, rest@)));
    let parts = split_whitespace(rest.as_slice());
    assert(views(parts@) == words(rest@));
    if parts.len() < 1 {
        return reply("Missing cost parameter");
    }
    assert(views(parts@)[0] == parts@[0]@);
    let cost = match parse_u32(parts[0].as_slice()) {
        Some(c) => c,
        None => {
            return fail("Invalid cost");
        },
    };
    if parts.len() < 2 {
        return reply("Missing action type parameter");
    }
    let action = &parts[1];
    assert(views(parts@)[1] == action@);
    if parts.len() < 3 {
        return reply("Missing cooldown parameter");
    }
    assert(views(parts@)[2] == parts@[2]@);
    let cooldown = match parse_u32(parts[2].as_slice()) {
        Some(c) => c,
        None => {
            return fail("Invalid cooldown");
        },
    };
    let a1 = drop_first_word(rest.as_slice());
    let a2 = drop_first_word(a1.as_slice());
    let a3 = drop_first_word(a2.as_slice());
    assert(a3@ == drop_words(rest@, 3)) by {
        reveal_with_fuel(drop_words, 4);
    }
    let rt = trim_start_chars(a3.as_slice());
    if rt.len() > 0 && rt[0] == '"' {
        let tail = crate::text::slice_range(rt.as_slice(), 1, rt.len());
        assert(tail@ =~= rt@.drop_first());
        match split_once(tail.as_slice(), '"') {
            None => reply("Invalid prompt format. Prompt should be enclosed in quotes."),
            Some((prompt, after)) => {
                let after_t = trim_start_chars(after.as_slice());
                let flags = split_whitespace(after_t.as_slice());
                finish(&title, cost, action, cooldown, &prompt, &flags)
            },
        }
    } else {
        reply("Missing prompt parameter. Prompt should be enclosed in quotes.")
    }
}

/// The chat answer once the redeem titled `title` was added, or its
/// addition failed with `result`'s error.
pub fn add_redeem_reply(title: &str, result: Result<(), String>) -> (r: String)
    ensures
        match result {
            Ok(()) => r@ == "New redeem '"@ + title@ + "' added successfully!"@,
            Err(e) => r@ == "Failed to add new redeem: "@ + e@,
        },
{
    match result {
        Ok(()) => {
            let mut r = String::from_str("New redeem '");
            r.append(title);
            r.append("' added successfully!");
            r
        },
        Err(e) => {
            let mut r = String::from_str("Failed to add new redeem: ");
            r.append(e.as_str());
            r
        },
    }
}

} // verus!
