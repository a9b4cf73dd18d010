use vstd::prelude::*;
use crate::text::{chars_of, decimal, parse_u32, parse_u32_spec, str_equal, u64_to_decimal};
use crate::eventsub::client::subscription_table;

verus! {

/// The EventSub notifications that the bot handles.
#[derive(Debug, Clone, Copy, PartialEq, Eq, Structural)]
pub enum EventKind {
    ChannelUpdate,
    ChannelFollow,
    ChannelRaid,
    ShoutoutCreate,
    ShoutoutReceive,
    StreamOnline,
    StreamOffline,
    ChannelSubscribe,
    SubscriptionMessage,
    SubscriptionGift,
    SubscriptionEnd,
    ChannelCheer,
    RedemptionAdd,
    RedemptionUpdate,
    AdBreakBegin,
    Unhandled,
}

/// The kind of a notification, from its subscription type.
pub open spec fn event_kind(t: Seq<char>) -> EventKind {
    if t == "channel.update"@ {
        EventKind::ChannelUpdate
    } else if t == "channel.follow"@ {
        EventKind::ChannelFollow
    } else if t == "channel.raid"@ {
        EventKind::ChannelRaid
    } else if t == "channel.shoutout.create"@ {
        EventKind::ShoutoutCreate
    } else if t == "channel.shoutout.receive"@ {
        EventKind::ShoutoutReceive
    } else if t == "stream.online"@ {
        EventKind::StreamOnline
    } else if t == "stream.offline"@ {
        EventKind::StreamOffline
    } else if t == "channel.subscribe"@ {
        EventKind::ChannelSubscribe
    } else if t == "channel.subscription.message"@ {
        EventKind::SubscriptionMessage
    } else if t == "channel.subscription.gift"@ {
        EventKind::SubscriptionGift
    } else if t == "channel.subscription.end"@ {
        EventKind::SubscriptionEnd
    } else if t == "channel.cheer"@ {
        EventKind::ChannelCheer
    } else if t == "channel.channel_points_custom_reward_redemption.add"@ {
        EventKind::RedemptionAdd
    } else if t == "channel.channel_points_custom_reward_redemption.update"@ {
        EventKind::RedemptionUpdate
    } else if t == "channel.ad_break.begin"@ {
        EventKind::AdBreakBegin
    } else {
        EventKind::Unhandled
    }
}

/// The kind of a notification, from its subscription type.
pub fn classify_event(t: &str) -> (r: EventKind)
    ensures
        r == event_kind(t@),
{
    if str_equal(t, "channel.update") {
        EventKind::ChannelUpdate
    } else if str_equal(t, "channel.follow") {
        EventKind::ChannelFollow
    } else if str_equal(t, "channel.raid") {
        EventKind::ChannelRaid
    } else if str_equal(t, "channel.shoutout.create") {
        EventKind::ShoutoutCreate
    } else if str_equal(t, "channel.shoutout.receive") {
        EventKind::ShoutoutReceive
    } else if str_equal(t, "stream.online") {
        EventKind::StreamOnline
    } else if str_equal(t, "stream.offline") {
        EventKind::StreamOffline
    } else if str_equal(t, "channel.subscribe") {
        EventKind::ChannelSubscribe
    } else if str_equal(t, "channel.subscription.message") {
        EventKind::SubscriptionMessage
    } else if str_equal(t, "channel.subscription.gift") {
        EventKind::SubscriptionGift
    } else if str_equal(t, "channel.subscription.end") {
        EventKind::SubscriptionEnd
    } else if str_equal(t, "channel.cheer") {
        EventKind::ChannelCheer
    } else if str_equal(t, "channel.channel_points_custom_reward_redemption.add") {
        EventKind::RedemptionAdd
    } else if str_equal(t, "channel.channel_points_custom_reward_redemption.update") {
        EventKind::RedemptionUpdate
    } else if str_equal(t, "channel.ad_break.begin") {
        EventKind::AdBreakBegin
    } else {
        EventKind::Unhandled
    }
}

/// A text field of an event, or its default where the event lacks it.
pub open spec fn or_default(o: Option<&str>, d: Seq<char>) -> Seq<char> {
    match o {
        Some(s) => s@,
        None => d,
    }
}

fn field_or<'a>(o: Option<&'a str>, d: &'a str) -> (r: &'a str)
    ensures
        r@ == or_default(o, d@),
{
    match o {
        Some(s) => s,
        None => d,
    }
}

/// The name of a subscription tier code.
pub open spec fn tier_name(tier: Seq<char>) -> Seq<char> {
    if tier == "1000"@ {
        "Tier 1"@
    } else if tier == "2000"@ {
        "Tier 2"@
    } else if tier == "3000"@ {
        "Tier 3"@
    } else {
        "Unknown Tier"@
    }
}

/// The name of a subscription tier code (`1000`, `2000`, `3000`).
pub fn tier_label(tier: &str) -> (r: &'static str)
    ensures
        r@ == tier_name(tier@),
{
    if str_equal(tier, "1000") {
        "Tier 1"
    } else if str_equal(tier, "2000") {
        "Tier 2"
    } else if str_equal(tier, "3000") {
        "Tier 3"
    } else {
        "Unknown Tier"
    }
}

/// The chat line for a `channel.update`: only when it gives both a title and a category.
pub fn channel_update_message(title: Option<&str>, category_name: Option<&str>) -> (r: Option<String>)
    ensures
        match (title, category_name) {
            (Some(t), Some(c)) => r is Some && r->0@ == "Channel updated! Category: "@ + c@ + " Title: "@ + t@,
            _ => r is None,
        },
{
    match (title, category_name) {
        (Some(t), Some(c)) => {
            let mut m = String::from_str("Channel updated! Category: ");
            m.append(c);
            m.append(" Title: ");
            m.append(t);
            Some(m)
        },
        _ => None,
    }
}

/// The two chat lines for a `stream.offline`.
pub fn stream_offline_messages(broadcaster_user_name: Option<&str>) -> (r: (String, String))
    ensures
        r.0@ == or_default(broadcaster_user_name, "Unknown"@) + " ended stream!  mao  Stay amazing and cute! mao"@,
        r.1@ == "bark bark bark bark bark bark bark bark bark"@,
{
    let mut m = String::from_str(field_or(broadcaster_user_name, "Unknown"));
    m.append(" ended stream!  mao  Stay amazing and cute! mao");
    (m, String::from_str("bark bark bark bark bark bark bark bark bark"))
}

/// The chat line for a `stream.online`.
pub fn stream_online_message(broadcaster_user_name: Option<&str>, started_at: Option<&str>) -> (r: String)
    ensures
        r@ == or_default(broadcaster_user_name, "Unknown"@) + " has gone live! Stream started at "@
            + or_default(started_at, "Unknown time"@) + ". Come join the fun!"@,
{
    let mut m = String::from_str(field_or(broadcaster_user_name, "Unknown"));
    m.append(" has gone live! Stream started at ");
    m.append(field_or(started_at, "Unknown time"));
    m.append(". Come join the fun!");
    m
}

/// What the AI is asked for a stream announcement; only asked when the
/// stream has both a title and a game.
pub fn stream_description_prompt(broadcaster_name: &str, title: Option<&str>, game_name: Option<&str>) -> (r: Option<String>)
    ensures
        match (title, game_name) {
            (Some(t), Some(g)) => r is Some && r->0@ == "Generate a short, exciting message (max 100 characters) about "@
                + broadcaster_name@ + "'s stream. They're playing "@ + g@ + " with the title: '"@ + t@
                + "'. Make it engaging and fun!"@,
            _ => r is None,
        },
{
    match (title, game_name) {
        (Some(t), Some(g)) => {
            let mut p = String::from_str("Generate a short, exciting message (max 100 characters) about ");
            p.append(broadcaster_name);
            p.append("'s stream. They're playing ");
            p.append(g);
            p.append(" with the title: '");
            p.append(t);
            p.append("'. Make it engaging and fun!");
            Some(p)
        },
        _ => None,
    }
}

/// The game a channel was playing, from its channel information: the first
/// entry's `game_name`, or `Unknown game`.
pub fn channel_game(first_game_name: Option<&str>) -> (r: String)
    ensures
        r@ == or_default(first_game_name, "Unknown game"@),
{
    String::from_str(field_or(first_game_name, "Unknown game"))
}

/// The chat line for a `channel.raid`.
pub fn raid_message(from_broadcaster_user_name: Option<&str>, viewers: Option<u64>, game: &str) -> (r: String)
    ensures
        ({
            let v: u64 = match viewers {
                Some(n) => n,
                None => 0,
            };
            r@ == "Welcome raiders! Thank you "@ + or_default(from_broadcaster_user_name, "Unknown"@)
                + " for the raid with "@ + decimal(v as nat) + " "@ + (if v == 1 {
                "viewer"@
            } else {
                "viewers"@
            }) + "! They were just playing "@ + game@ + ". Hope you all had fun and enjoy your stay!"@
        }),
{
    let v: u64 = match viewers {
        Some(n) => n,
        None => 0,
    };
    let mut m = String::from_str("Welcome raiders! Thank you ");
    m.append(field_or(from_broadcaster_user_name, "Unknown"));
    m.append(" for the raid with ");
    m.append(u64_to_decimal(v).as_str());
    m.append(" ");
    if v == 1 {
        m.append("viewer");
    } else {
        m.append("viewers");
    }
    m.append("! They were just playing ");
    m.append(game);
    m.append(". Hope you all had fun and enjoy your stay!");
    m
}

/// The chat line for a `channel.shoutout.create`.
pub fn shoutout_create_message(to_broadcaster_user_name: Option<&str>) -> (r: String)
    ensures
        r@ == "Hey, you should go check out "@ + or_default(to_broadcaster_user_name, "Unknown"@)
            + "! Click the heart at the top of the chatbox ~ it's easy! luv luv"@,
{
    let mut m = String::from_str("Hey, you should go check out ");
    m.append(field_or(to_broadcaster_user_name, "Unknown"));
    m.append("! Click the heart at the top of the chatbox ~ it's easy! luv luv");
    m
}

/// The chat line for a `channel.shoutout.receive`.
pub fn shoutout_receive_message(from_broadcaster_user_name: Option<&str>, viewer_count: Option<u64>) -> (r: String)
    ensures
        r@ == "We just received a shoutout from "@ + or_default(from_broadcaster_user_name, "Unknown"@)
            + " with "@ + decimal(
            (match viewer_count {
                Some(n) => n,
                None => 0,
            }) as nat,
        ) + " viewers! Thank you for the support!"@,
{
    let n: u64 = match viewer_count {
        Some(n) => n,
        None => 0,
    };
    let mut m = String::from_str("We just received a shoutout from ");
    m.append(field_or(from_broadcaster_user_name, "Unknown"));
    m.append(" with ");
    m.append(u64_to_decimal(n).as_str());
    m.append(" viewers! Thank you for the support!");
    m
}

/// The chat line for a `channel.subscribe`.
pub fn subscribe_message(user_name: Option<&str>, tier: Option<&str>, is_gift: Option<bool>) -> (r: String)
    ensures
        ({
            let u = or_default(user_name, "Unknown"@);
            let t = tier_name(or_default(tier, "1000"@));
            r@ == if is_gift == Some(true) {
                u + " received a gifted "@ + t + " subscription! Thank you to the generous gifter!"@
            } else {
                "Thank you "@ + u + " for subscribing with a "@ + t + " subscription!"@
            }
        }),
{
    let u = field_or(user_name, "Unknown");
    let t = tier_label(field_or(tier, "1000"));
    let gift = match is_gift {
        Some(g) => g,
        None => false,
    };
    if gift {
        let mut m = String::from_str(u);
        m.append(" received a gifted ");
        m.append(t);
        m.append(" subscription! Thank you to the generous gifter!");
        m
    } else {
        let mut m = String::from_str("Thank you ");
        m.append(u);
        m.append(" for subscribing with a ");
        m.append(t);
        m.append(" subscription!");
        m
    }
}

/// The chat line for a `channel.subscription.message` (a resubscription).
pub fn resub_message(user_name: Option<&str>, message: Option<&str>, cumulative_months: Option<u64>) -> (r: String)
    ensures
        r@ == "Thank you "@ + or_default(user_name, "Unknown"@) + " for "@ + decimal(
            (match cumulative_months {
                Some(n) => n,
                None => 0,
            }) as nat,
        ) + " months of support! They said: "@ + or_default(message, ""@),
{
    let months: u64 = match cumulative_months {
        Some(n) => n,
        None => 0,
    };
    let mut m = String::from_str("Thank you ");
    m.append(field_or(user_name, "Unknown"));
    m.append(" for ");
    m.append(u64_to_decimal(months).as_str());
    m.append(" months of support! They said: ");
    m.append(field_or(message, ""));
    m
}

/// The chat line for a `channel.subscription.gift`.
pub fn gift_message(user_name: Option<&str>, total: Option<u64>, tier: Option<&str>, cumulative_total: Option<u64>) -> (r: String)
    ensures
        r@ == "WOW! "@ + or_default(user_name, "Anonymous"@) + " just gifted "@ + decimal(
            (match total {
                Some(n) => n,
                None => 0,
            }) as nat,
        ) + " "@ + tier_name(or_default(tier, "1000"@)) + " subscriptions! They've gifted a total of "@
            + decimal(
            (match cumulative_total {
                Some(n) => n,
                None => 0,
            }) as nat,
        ) + " subs in the channel!"@,
{
    let t: u64 = match total {
        Some(n) => n,
        None => 0,
    };
    let c: u64 = match cumulative_total {
        Some(n) => n,
        None => 0,
    };
    let mut m = String::from_str("WOW! ");
    m.append(field_or(user_name, "Anonymous"));
    m.append(" just gifted ");
    m.append(u64_to_decimal(t).as_str());
    m.append(" ");
    m.append(tier_label(field_or(tier, "1000")));
    m.append(" subscriptions! They've gifted a total of ");
    m.append(u64_to_decimal(c).as_str());
    m.append(" subs in the channel!");
    m
}

/// The avatar parameter that the bot drives over OSC for Twitch events.
pub open spec fn twitch_osc_endpoint() -> Seq<char> {
    "/avatar/parameters/twitch"@
}

/// An OSC cue: set `endpoint` to `value`, then back to `reset_value`.
pub struct OscCue {
    pub endpoint: String,
    pub value: i32,
    pub reset_value: i32,
}

/// The cue on the Twitch avatar parameter with `value`, reset to 0.
pub fn twitch_osc_cue(value: i32) -> (r: OscCue)
    ensures
        r.endpoint@ == twitch_osc_endpoint(),
        r.value == value,
        r.reset_value == 0,
{
    OscCue { endpoint: String::from_str("/avatar/parameters/twitch"), value, reset_value: 0 }
}

/// The avatar animation for a cheer of `bits` bits: 14 up to 99 bits, 15
/// up to 999, 16 up to 4999, 17 up to 9999, 18 up to 14999, and 19 above
/// (and for a cheer of no bits).
pub open spec fn bits_osc_value(bits: u64) -> i32 {
    if 1 <= bits <= 99 {
        14
    } else if 100 <= bits <= 999 {
        15
    } else if 1000 <= bits <= 4999 {
        16
    } else if 5000 <= bits <= 9999 {
        17
    } else if 10000 <= bits <= 14999 {
        18
    } else {
        19
    }
}

/// What a cheer does: its OSC cue and its chat line; nothing where the
/// event does not say how many bits.
pub fn cheer_reaction(user_name: Option<&str>, bits: Option<u64>) -> (r: Option<(OscCue, String)>)
    ensures
        match bits {
            None => r is None,
            Some(b) => r matches Some((cue, m)) && cue.endpoint@ == twitch_osc_endpoint() && cue.value
                == bits_osc_value(b) && cue.reset_value == 0 && m@ == "Thank you "@ + or_default(
                user_name,
                "Anonymous"@,
            ) + " for the "@ + decimal(b as nat) + " bits!"@,
        },
{
    match bits {
        None => None,
        Some(b) => {
            let v: i32 = if 1 <= b && b <= 99 {
                14
            } else if 100 <= b && b <= 999 {
                15
            } else if 1000 <= b && b <= 4999 {
                16
            } else if 5000 <= b && b <= 9999 {
                17
            } else if 10000 <= b && b <= 14999 {
                18
            } else {
                19
            };
            let mut m = String::from_str("Thank you ");
            m.append(field_or(user_name, "Anonymous"));
            m.append(" for the ");
            m.append(u64_to_decimal(b).as_str());
            m.append(" bits!");
            Some((twitch_osc_cue(v), m))
        },
    }
}

/// What the bot knows of a new follower's channel, written for the AI.
pub open spec fn follower_info_text(description: Option<&str>, stream: Option<(Option<&str>, Option<&str>)>) -> Seq<char> {
    (match description {
        Some(d) => if d@.len() > 0 {
            "Channel description: "@ + d@ + ". "@
        } else {
            Seq::<char>::empty()
        },
        None => Seq::<char>::empty(),
    }) + match stream {
        Some((game, title)) => (match game {
            Some(g) => "Last seen streaming "@ + g@ + ". "@,
            None => Seq::<char>::empty(),
        }) + (match title {
            Some(t) => "Stream title: "@ + t@ + ". "@,
            None => Seq::<char>::empty(),
        }),
        None => "Not currently live. "@,
    }
}

/// What the bot knows of a new follower's channel: its description, and
/// its current stream's game and title (`stream` is `None` when offline).
pub fn follower_info(description: Option<&str>, stream: Option<(Option<&str>, Option<&str>)>) -> (r: String)
    ensures
        r@ == follower_info_text(description, stream),
{
    let mut info = String::new();
    match description {
        Some(d) => {
            if d.unicode_len() > 0 {
                info.append("Channel description: ");
                info.append(d);
                info.append(". ");
            }
        },
        None => {},
    }
    let ghost head = info@;
    match stream {
        Some((game, title)) => {
            match game {
                Some(g) => {
                    info.append("Last seen streaming ");
                    info.append(g);
                    info.append(". ");
                },
                None => {},
            }
            match title {
                Some(t) => {
                    info.append("Stream title: ");
                    info.append(t);
                    info.append(". ");
                },
                None => {},
            }
        },
        None => {
            info.append("Not currently live. ");
        },
    }
    info
}

/// What the AI is asked to welcome a new follower.
pub fn follow_prompt(user_name: &str, info: &str) -> (r: String)
    ensures
        r@ == "Generate a short, friendly welcome message (1-2 sentences) for a new Twitch follower named "@
            + user_name@ + ". Make it warm and inviting, welcoming them to the community. Additional info: "@
            + info@,
{
    let mut p = String::from_str(
        "Generate a short, friendly welcome message (1-2 sentences) for a new Twitch follower named ",
    );
    p.append(user_name);
    p.append(". Make it warm and inviting, welcoming them to the community. Additional info: ");
    p.append(info);
    p
}

/// The welcome for a new follower: the AI's reply, or the default where
/// the AI failed or is absent.
pub fn follow_welcome(user_name: &str, reply: Option<Result<String, String>>) -> (r: String)
    ensures
        match reply {
            Some(Ok(m)) => r@ == m@,
            _ => r@ == "Welcome to the community, "@ + user_name@ + "! Thanks for following!"@,
        },
{
    match reply {
        Some(Ok(m)) => m,
        _ => {
            let mut m = String::from_str("Welcome to the community, ");
            m.append(user_name);
            m.append("! Thanks for following!");
            m
        },
    }
}

/// The length of an ad break from the event's `duration_seconds` text: a
/// `u32`, or 0 where it is missing or not one.
pub fn ad_break_duration(duration_seconds: Option<&str>) -> (r: u32)
    ensures
        r == match parse_u32_spec(or_default(duration_seconds, "0"@)) {
            Some(n) => n,
            None => 0,
        },
{
    let cs = chars_of(field_or(duration_seconds, "0"));
    match parse_u32(cs.as_slice()) {
        Some(n) => n,
        None => 0,
    }
}

/// Whether an ad break was scheduled automatically: its `is_automatic` text reads `true`.
pub fn ad_break_is_automatic(is_automatic: Option<&str>) -> (r: bool)
    ensures
        r == (or_default(is_automatic, "false"@) == "true"@),
{
    str_equal(field_or(is_automatic, "false"), "true")
}

/// What the AI is asked when an ad break begins.
pub fn ad_break_prompt(duration_seconds: u32, is_automatic: bool) -> (r: String)
    ensures
        r@ == "Generate a short, friendly message (max 100 characters) for a Twitch streamer to say when an ad break of "@
            + decimal(duration_seconds as nat) + " seconds begins. "@ + (if is_automatic {
            "This ad break was automatically scheduled."@
        } else {
            "This ad break was manually triggered by the streamer."@
        }),
{
    let mut p = String::from_str(
        "Generate a short, friendly message (max 100 characters) for a Twitch streamer to say when an ad break of ",
    );
    p.append(u64_to_decimal(duration_seconds as u64).as_str());
    p.append(" seconds begins. ");
    if is_automatic {
        p.append("This ad break was automatically scheduled.");
    } else {
        p.append("This ad break was manually triggered by the streamer.");
    }
    p
}

/// The chat line when an ad break begins, with the AI's words or the default ones.
pub fn ad_break_message(duration_seconds: u32, reply: Result<String, String>) -> (r: String)
    ensures
        r@ == "An ad break has begun for "@ + decimal(duration_seconds as nat) + " seconds. "@ + (match reply {
            Ok(m) => m@,
            Err(_) => "We'll be right back after this short break!"@,
        }) + ". Subscribe to watch ad-free!"@,
{
    let mut m = String::from_str("An ad break has begun for ");
    m.append(u64_to_decimal(duration_seconds as u64).as_str());
    m.append(" seconds. ");
    match reply {
        Ok(text) => m.append(text.as_str()),
        Err(_) => m.append("We'll be right back after this short break!"),
    }
    m.append(". Subscribe to watch ad-free!");
    m
}

/// The notification kinds the bot handles, in the order they are declared.
pub open spec fn handled_kinds() -> Seq<EventKind> {
    seq![
        EventKind::ChannelUpdate,
        EventKind::ChannelFollow,
        EventKind::ChannelRaid,
        EventKind::ShoutoutCreate,
        EventKind::ShoutoutReceive,
        EventKind::StreamOnline,
        EventKind::StreamOffline,
        EventKind::ChannelSubscribe,
        EventKind::SubscriptionMessage,
        EventKind::SubscriptionGift,
        EventKind::SubscriptionEnd,
        EventKind::ChannelCheer,
        EventKind::RedemptionAdd,
        EventKind::RedemptionUpdate,
        EventKind::AdBreakBegin,
    ]
}

proof fn lemma_kind_at(i: int)
    requires
        0 <= i < 15,
    ensures
        event_kind(subscription_table()[i].0) == handled_kinds()[i],
{
    reveal_strlit("channel.update");
    reveal_strlit("channel.follow");
    reveal_strlit("channel.raid");
    reveal_strlit("channel.shoutout.create");
    reveal_strlit("channel.shoutout.receive");
    reveal_strlit("stream.online");
    reveal_strlit("stream.offline");
    reveal_strlit("channel.subscribe");
    reveal_strlit("channel.subscription.message");
    reveal_strlit("channel.subscription.gift");
    reveal_strlit("channel.subscription.end");
    reveal_strlit("channel.cheer");
    reveal_strlit("channel.channel_points_custom_reward_redemption.add");
    reveal_strlit("channel.channel_points_custom_reward_redemption.update");
    reveal_strlit("channel.ad_break.begin");
    if i == 0 {
        assert(subscription_table()[0].0 == "channel.update"@);
        assert(event_kind("channel.update"@) == EventKind::ChannelUpdate);
    } else if i == 1 {
        assert(subscription_table()[1].0 == "channel.follow"@);
        assert("channel.follow"@[8] != "channel.update"@[8]);
        assert(event_kind("channel.follow"@) == EventKind::ChannelFollow);
    } else if i == 2 {
        assert(subscription_table()[2].0 == "channel.raid"@);
        assert("channel.raid"@.len() != "channel.update"@.len());
        assert("channel.raid"@.len() != "channel.follow"@.len());
        assert(event_kind("channel.raid"@) == EventKind::ChannelRaid);
    } else if i == 3 {
        assert(subscription_table()[3].0 == "channel.shoutout.create"@);
        assert("channel.shoutout.create"@.len() != "channel.update"@.len());
        assert("channel.shoutout.create"@.len() != "channel.follow"@.len());
        assert("channel.shoutout.create"@.len() != "channel.raid"@.len());
        assert(event_kind("channel.shoutout.create"@) == EventKind::ShoutoutCreate);
    } else if i == 4 {
        assert(subscription_table()[4].0 == "channel.shoutout.receive"@);
        assert("channel.shoutout.receive"@.len() != "channel.update"@.len());
        assert("channel.shoutout.receive"@.len() != "channel.follow"@.len());
        assert("channel.shoutout.receive"@.len() != "channel.raid"@.len());
        assert("channel.shoutout.receive"@.len() != "channel.shoutout.create"@.len());
        assert(event_kind("channel.shoutout.receive"@) == EventKind::ShoutoutReceive);
    } else if i == 5 {
        assert(subscription_table()[5].0 == "stream.online"@);
        assert("stream.online"@.len() != "channel.update"@.len());
        assert("stream.online"@.len() != "channel.follow"@.len());
        assert("stream.online"@.len() != "channel.raid"@.len());
        assert("stream.online"@.len() != "channel.shoutout.create"@.len());
        assert("stream.online"@.len() != "channel.shoutout.receive"@.len());
        assert(event_kind("stream.online"@) == EventKind::StreamOnline);
    } else if i == 6 {
        assert(subscription_table()[6].0 == "stream.offline"@);
        assert("stream.offline"@[0] != "channel.update"@[0]);
        assert("stream.offline"@[0] != "channel.follow"@[0]);
        assert("stream.offline"@.len() != "channel.raid"@.len());
        assert("stream.offline"@.len() != "channel.shoutout.create"@.len());
        assert("stream.offline"@.len() != "channel.shoutout.receive"@.len());
        assert("stream.offline"@.len() != "stream.online"@.len());
        assert(event_kind("stream.offline"@) == EventKind::StreamOffline);
    } else if i == 7 {
        assert(subscription_table()[7].0 == "channel.subscribe"@);
        assert("channel.subscribe"@.len() != "channel.update"@.len());
        assert("channel.subscribe"@.len() != "channel.follow"@.len());
        assert("channel.subscribe"@.len() != "channel.raid"@.len());
        assert("channel.subscribe"@.len() != "channel.shoutout.create"@.len());
        assert("channel.subscribe"@.len() != "channel.shoutout.receive"@.len());
        assert("channel.subscribe"@.len() != "stream.online"@.len());
        assert("channel.subscribe"@.len() != "stream.offline"@.len());
        assert(event_kind("channel.subscribe"@) == EventKind::ChannelSubscribe);
    } else if i == 8 {
        assert(subscription_table()[8].0 == "channel.subscription.message"@);
        assert("channel.subscription.message"@.len() != "channel.update"@.len());
        assert("channel.subscription.message"@.len() != "channel.follow"@.len());
        assert("channel.subscription.message"@.len() != "channel.raid"@.len());
        assert("channel.subscription.message"@.len() != "channel.shoutout.create"@.len());
        assert("channel.subscription.message"@.len() != "channel.shoutout.receive"@.len());
        assert("channel.subscription.message"@.len() != "stream.online"@.len());
        assert("channel.subscription.message"@.len() != "stream.offline"@.len());
        assert("channel.subscription.message"@.len() != "channel.subscribe"@.len());
        assert(event_kind("channel.subscription.message"@) == EventKind::SubscriptionMessage);
    } else if i == 9 {
        assert(subscription_table()[9].0 == "channel.subscription.gift"@);
        assert("channel.subscription.gift"@.len() != "channel.update"@.len());
        assert("channel.subscription.gift"@.len() != "channel.follow"@.len());
        assert("channel.subscription.gift"@.len() != "channel.raid"@.len());
        assert("channel.subscription.gift"@.len() != "channel.shoutout.create"@.len());
        assert("channel.subscription.gift"@.len() != "channel.shoutout.receive"@.len());
        assert("channel.subscription.gift"@.len() != "stream.online"@.len());
        assert("channel.subscription.gift"@.len() != "stream.offline"@.len());
        assert("channel.subscription.gift"@.len() != "channel.subscribe"@.len());
        assert("channel.subscription.gift"@.len() != "channel.subscription.message"@.len());
        assert(event_kind("channel.subscription.gift"@) == EventKind::SubscriptionGift);
    } else if i == 10 {
        assert(subscription_table()[10].0 == "channel.subscription.end"@);
        assert("channel.subscription.end"@.len() != "channel.update"@.len());
        assert("channel.subscription.end"@.len() != "channel.follow"@.len());
        assert("channel.subscription.end"@.len() != "channel.raid"@.len());
        assert("channel.subscription.end"@.len() != "channel.shoutout.create"@.len());
        assert("channel.subscription.end"@[9] != "channel.shoutout.receive"@[9]);
        assert("channel.subscription.end"@.len() != "stream.online"@.len());
        assert("channel.subscription.end"@.len() != "stream.offline"@.len());
        assert("channel.subscription.end"@.len() != "channel.subscribe"@.len());
        assert("channel.subscription.end"@.len() != "channel.subscription.message"@.len());
        assert("channel.subscription.end"@.len() != "channel.subscription.gift"@.len());
        assert(event_kind("channel.subscription.end"@) == EventKind::SubscriptionEnd);
    } else if i == 11 {
        assert(subscription_table()[11].0 == "channel.cheer"@);
        assert("channel.cheer"@.len() != "channel.update"@.len());
        assert("channel.cheer"@.len() != "channel.follow"@.len());
        assert("channel.cheer"@.len() != "channel.raid"@.len());
        assert("channel.cheer"@.len() != "channel.shoutout.create"@.len());
        assert("channel.cheer"@.len() != "channel.shoutout.receive"@.len());
        assert("channel.cheer"@[0] != "stream.online"@[0]);
        assert("channel.cheer"@.len() != "stream.offline"@.len());
        assert("channel.cheer"@.len() != "channel.subscribe"@.len());
        assert("channel.cheer"@.len() != "channel.subscription.message"@.len());
        assert("channel.cheer"@.len() != "channel.subscription.gift"@.len());
        assert("channel.cheer"@.len() != "channel.subscription.end"@.len());
        assert(event_kind("channel.cheer"@) == EventKind::ChannelCheer);
    } else if i == 12 {
        assert(subscription_table()[12].0 == "channel.channel_points_custom_reward_redemption.add"@);
        assert("channel.channel_points_custom_reward_redemption.add"@.len() != "channel.update"@.len());
        assert("channel.channel_points_custom_reward_redemption.add"@.len() != "channel.follow"@.len());
        assert("channel.channel_points_custom_reward_redemption.add"@.len() != "channel.raid"@.len());
        assert("channel.channel_points_custom_reward_redemption.add"@.len() != "channel.shoutout.create"@.len());
        assert("channel.channel_points_custom_reward_redemption.add"@.len() != "channel.shoutout.receive"@.len());
        assert("channel.channel_points_custom_reward_redemption.add"@.len() != "stream.online"@.len());
        assert("channel.channel_points_custom_reward_redemption.add"@.len() != "stream.offline"@.len());
        assert("channel.channel_points_custom_reward_redemption.add"@.len() != "channel.subscribe"@.len());
        assert("channel.channel_points_custom_reward_redemption.add"@.len() != "channel.subscription.message"@.len());
        assert("channel.channel_points_custom_reward_redemption.add"@.len() != "channel.subscription.gift"@.len());
        assert("channel.channel_points_custom_reward_redemption.add"@.len() != "channel.subscription.end"@.len());
        assert("channel.channel_points_custom_reward_redemption.add"@.len() != "channel.cheer"@.len());
        assert(event_kind("channel.channel_points_custom_reward_redemption.add"@) == EventKind::RedemptionAdd);
    } else if i == 13 {
        assert(subscription_table()[13].0 == "channel.channel_points_custom_reward_redemption.update"@);
        assert("channel.channel_points_custom_reward_redemption.update"@.len() != "channel.update"@.len());
        assert("channel.channel_points_custom_reward_redemption.update"@.len() != "channel.follow"@.len());
        assert("channel.channel_points_custom_reward_redemption.update"@.len() != "channel.raid"@.len());
        assert("channel.channel_points_custom_reward_redemption.update"@.len() != "channel.shoutout.create"@.len());
        assert("channel.channel_points_custom_reward_redemption.update"@.len() != "channel.shoutout.receive"@.len());
        assert("channel.channel_points_custom_reward_redemption.update"@.len() != "stream.online"@.len());
        assert("channel.channel_points_custom_reward_redemption.update"@.len() != "stream.offline"@.len());
        assert("channel.channel_points_custom_reward_redemption.update"@.len() != "channel.subscribe"@.len());
        assert("channel.channel_points_custom_reward_redemption.update"@.len() != "channel.subscription.message"@.len());
        assert("channel.channel_points_custom_reward_redemption.update"@.len() != "channel.subscription.gift"@.len());
        assert("channel.channel_points_custom_reward_redemption.update"@.len() != "channel.subscription.end"@.len());
        assert("channel.channel_points_custom_reward_redemption.update"@.len() != "channel.cheer"@.len());
        assert("channel.channel_points_custom_reward_redemption.update"@.len() != "channel.channel_points_custom_reward_redemption.add"@.len());
        assert(event_kind("channel.channel_points_custom_reward_redemption.update"@) == EventKind::RedemptionUpdate);
    } else if i == 14 {
        assert(subscription_table()[14].0 == "channel.ad_break.begin"@);
        assert("channel.ad_break.begin"@.len() != "channel.update"@.len());
        assert("channel.ad_break.begin"@.len() != "channel.follow"@.len());
        assert("channel.ad_break.begin"@.len() != "channel.raid"@.len());
        assert("channel.ad_break.begin"@.len() != "channel.shoutout.create"@.len());
        assert("channel.ad_break.begin"@.len() != "channel.shoutout.receive"@.len());
        assert("channel.ad_break.begin"@.len() != "stream.online"@.len());
        assert("channel.ad_break.begin"@.len() != "stream.offline"@.len());
        assert("channel.ad_break.begin"@.len() != "channel.subscribe"@.len());
        assert("channel.ad_break.begin"@.len() != "channel.subscription.message"@.len());
        assert("channel.ad_break.begin"@.len() != "channel.subscription.gift"@.len());
        assert("channel.ad_break.begin"@.len() != "channel.subscription.end"@.len());
        assert("channel.ad_break.begin"@.len() != "channel.cheer"@.len());
        assert("channel.ad_break.begin"@.len() != "channel.channel_points_custom_reward_redemption.add"@.len());
        assert("channel.ad_break.begin"@.len() != "channel.channel_points_custom_reward_redemption.update"@.len());
        assert(event_kind("channel.ad_break.begin"@) == EventKind::AdBreakBegin);
    }
}

/// Each subscription type is read as the event of the same name: the
/// `i`-th type the bot subscribes to is the `i`-th kind it handles, no two
/// subscribed types are read as the same kind, and a type the bot does not
/// subscribe to is not handled.
pub proof fn law_classification(i: int, j: int, t: Seq<char>)
    requires
        0 <= i < 15,
        0 <= j < 15,
    ensures
        event_kind(subscription_table()[i].0) == handled_kinds()[i],
        i != j ==> event_kind(subscription_table()[i].0) != event_kind(subscription_table()[j].0),
        (forall|k: int| 0 <= k < 15 ==> t != #[trigger] subscription_table()[k].0) ==> event_kind(t)
            == EventKind::Unhandled,
{
    reveal_strlit("channel.update");
    reveal_strlit("channel.follow");
    reveal_strlit("channel.raid");
    reveal_strlit("channel.shoutout.create");
    reveal_strlit("channel.shoutout.receive");
    reveal_strlit("stream.online");
    reveal_strlit("stream.offline");
    reveal_strlit("channel.subscribe");
    reveal_strlit("channel.subscription.message");
    reveal_strlit("channel.subscription.gift");
    reveal_strlit("channel.subscription.end");
    reveal_strlit("channel.cheer");
    reveal_strlit("channel.channel_points_custom_reward_redemption.add");
    reveal_strlit("channel.channel_points_custom_reward_redemption.update");
    reveal_strlit("channel.ad_break.begin");
    lemma_kind_at(i);
    lemma_kind_at(j);
    if (forall|k: int| 0 <= k < 15 ==> t != #[trigger] subscription_table()[k].0) {
        assert(t != subscription_table()[0].0);
        assert(t != subscription_table()[1].0);
        assert(t != subscription_table()[2].0);
        assert(t != subscription_table()[3].0);
        assert(t != subscription_table()[4].0);
        assert(t != subscription_table()[5].0);
        assert(t != subscription_table()[6].0);
        assert(t != subscription_table()[7].0);
        assert(t != subscription_table()[8].0);
        assert(t != subscription_table()[9].0);
        assert(t != subscription_table()[10].0);
        assert(t != subscription_table()[11].0);
        assert(t != subscription_table()[12].0);
        assert(t != subscription_table()[13].0);
        assert(t != subscription_table()[14].0);
    }
}

/// A bigger cheer never plays a smaller animation: for a cheer of at least
/// one bit the animation is 14, plus one for each of the marks 100, 1000,
/// 5000, 10000 and 15000 bits that it reaches.
pub proof fn law_cheer_animation(a: u64, b: u64)
    requires
        1 <= a <= b,
    ensures
        bits_osc_value(a) <= bits_osc_value(b),
        bits_osc_value(b) == 14 + (if b >= 100 { 1int } else { 0 }) + (if b >= 1000 { 1int } else { 0 }) + (if b
            >= 5000 { 1int } else { 0 }) + (if b >= 10000 { 1int } else { 0 }) + (if b >= 15000 { 1int } else { 0 }),
{
}

/// The three subscription tiers have three different names, none of them
/// the name an unknown code gets; every other code is an unknown tier.
pub proof fn law_tier_names(code: Seq<char>)
    ensures
        tier_name("1000"@) != tier_name("2000"@),
        tier_name("2000"@) != tier_name("3000"@),
        tier_name("1000"@) != tier_name("3000"@),
        tier_name("1000"@) != "Unknown Tier"@ && tier_name("2000"@) != "Unknown Tier"@ && tier_name("3000"@)
            != "Unknown Tier"@,
        code != "1000"@ && code != "2000"@ && code != "3000"@ ==> tier_name(code) == "Unknown Tier"@,
{
    reveal_strlit("1000");
    reveal_strlit("2000");
    reveal_strlit("3000");
    reveal_strlit("Tier 1");
    reveal_strlit("Tier 2");
    reveal_strlit("Tier 3");
    reveal_strlit("Unknown Tier");
    assert("1000"@[0] != "2000"@[0]);
    assert("1000"@[0] != "3000"@[0]);
    assert("2000"@[0] != "3000"@[0]);
    assert("Tier 1"@[5] != "Tier 2"@[5]);
    assert("Tier 1"@[5] != "Tier 3"@[5]);
    assert("Tier 2"@[5] != "Tier 3"@[5]);
    assert("Tier 1"@.len() != "Unknown Tier"@.len());
}

} // verus!
