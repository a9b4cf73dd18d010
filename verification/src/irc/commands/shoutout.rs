use vstd::prelude::*;
use crate::clock::{Clock, elapsed_ms, elapsed_since};
use crate::irc::command_system::Command;
use crate::keyed::KeyedList;
use crate::manager::{StreamerData, TwitchUser};
use crate::roles::UserRole;
use crate::text::{
    chars_of, contains_str, contains_text, decimal, join, join_strings, lowercase, str_equal,
    string_from_chars, string_views, to_lowercase, trim, trim_start_char, trim_start_matches_char,
    trim_string, u64_to_decimal,
};

verus! {

pub const GLOBAL_COOLDOWN_SECONDS: u64 = 121;

pub const USER_COOLDOWN_SECONDS: u64 = 3600;

/// The time between two shoutouts of any streamer, in milliseconds.
pub const GLOBAL_COOLDOWN_MS: u64 = 121000;

/// The time between two shoutouts of the same streamer, in milliseconds.
pub const USER_COOLDOWN_MS: u64 = 3600000;

/// A shoutout waiting to be sent through the API.
pub struct ShoutoutQueueItem {
    pub broadcaster_id: String,
    pub moderator_id: String,
    pub target_id: String,
    /// When it was queued, in milliseconds of the cooldown's clock.
    pub enqueue_time: u64,
}

/// Shoutouts waiting to be sent, first in first out.
pub struct ShoutoutQueue {
    queue: std::collections::VecDeque<ShoutoutQueueItem>,
}

impl ShoutoutQueue {
    pub closed spec fn items(self) -> Seq<ShoutoutQueueItem> {
        self.queue@
    }

    pub fn new() -> (q: Self)
        ensures
            q.items() == Seq::<ShoutoutQueueItem>::empty(),
    {
        ShoutoutQueue { queue: std::collections::VecDeque::new() }
    }

    pub fn enqueue(&mut self, broadcaster_id: String, moderator_id: String, target_id: String, enqueue_time: u64)
        ensures
            final(self).items() == old(self).items().push(
                ShoutoutQueueItem { broadcaster_id, moderator_id, target_id, enqueue_time },
            ),
    {
        self.queue.push_back(ShoutoutQueueItem { broadcaster_id, moderator_id, target_id, enqueue_time });
    }

    pub fn dequeue(&mut self) -> (r: Option<ShoutoutQueueItem>)
        ensures
            old(self).items().len() == 0 ==> r is None && final(self).items() == old(self).items(),
            old(self).items().len() > 0 ==> r == Some(old(self).items()[0]) && final(self).items()
                == old(self).items().drop_first(),
    {
        let r = self.queue.pop_front();
        proof {
            if old(self).queue@.len() > 0 {
                assert(self.queue@ =~= old(self).queue@.drop_first());
            }
        }
        r
    }

    pub fn len(&self) -> (n: usize)
        ensures
            n == self.items().len(),
    {
        self.queue.len()
    }
}

/// Whether the global cooldown has passed at `now`, given the last shoutout.
pub open spec fn global_ready(last: Option<u64>, now: u64) -> bool {
    match last {
        None => true,
        Some(t) => elapsed_since(now, t) >= GLOBAL_COOLDOWN_MS,
    }
}

/// Whether the per-streamer cooldown has passed at `now`, given that streamer's last shoutout.
pub open spec fn user_ready(last: Option<u64>, now: u64) -> bool {
    match last {
        None => true,
        Some(t) => elapsed_since(now, t) >= USER_COOLDOWN_MS,
    }
}

/// What is left of a cooldown of `cooldown` milliseconds at `now`, if anything.
pub open spec fn remaining(last: Option<u64>, now: u64, cooldown: u64) -> Option<u64> {
    match last {
        None => None,
        Some(t) => if elapsed_since(now, t) < cooldown {
            Some((cooldown - elapsed_since(now, t)) as u64)
        } else {
            None
        },
    }
}

/// The cooldowns of the `!so` command, and the queue of API shoutouts.
pub struct ShoutoutCooldown {
    clock: Clock,
    global: Option<u64>,
    per_user: KeyedList<u64>,
    queue: ShoutoutQueue,
}

impl ShoutoutCooldown {
    /// When the last shoutout of anyone was given.
    pub closed spec fn last_global(self) -> Option<u64> {
        self.global
    }

    /// When the last shoutout of `target` was given.
    pub closed spec fn last_use(self, target: Seq<char>) -> Option<u64> {
        self.per_user.get_spec(target)
    }

    /// The API shoutouts waiting, oldest first.
    pub closed spec fn pending(self) -> Seq<ShoutoutQueueItem> {
        self.queue.items()
    }

    pub open spec fn allows(self, target: Seq<char>, now: u64) -> bool {
        global_ready(self.last_global(), now) && user_ready(self.last_use(target), now)
    }

    /// A fresh set of cooldowns: every shoutout is allowed, and nothing is queued.
    pub fn new() -> (c: Self)
        ensures
            c.last_global() is None,
            forall|t: Seq<char>| c.last_use(t) is None,
            c.pending() == Seq::<ShoutoutQueueItem>::empty(),
    {
        ShoutoutCooldown {
            clock: Clock::start(),
            global: None,
            per_user: KeyedList::new(),
            queue: ShoutoutQueue::new(),
        }
    }

    /// The reading of this cooldown's clock.
    pub fn now(&self) -> u64 {
        self.clock.now_millis()
    }

    /// Whether a shoutout of `target` is allowed at time `now`.
    pub fn can_shoutout_at(&self, target: &str, now: u64) -> (r: bool)
        ensures
            r == self.allows(target@, now),
    {
        let global_ok = match self.global {
            None => true,
            Some(t) => elapsed_ms(now, t) >= GLOBAL_COOLDOWN_MS,
        };
        let user_ok = match self.per_user.get(target) {
            None => true,
            Some(t) => elapsed_ms(now, *t) >= USER_COOLDOWN_MS,
        };
        global_ok && user_ok
    }

    /// Whether a shoutout of `target` is allowed now.
    pub fn can_shoutout(&self, target: &str) -> (r: bool)
        ensures
            exists|now: u64| r == self.allows(target@, now),
            self.last_global() is None && self.last_use(target@) is None ==> r,
    {
        let now = self.now();
        self.can_shoutout_at(target, now)
    }

    /// Records a shoutout of `target` at time `now`.
    pub fn update_cooldowns_at(&mut self, target: &str, now: u64)
        ensures
            final(self).last_global() == Some(now),
            final(self).last_use(target@) == Some(now),
            forall|t: Seq<char>| t != target@ ==> final(self).last_use(t) == old(self).last_use(t),
            final(self).pending() == old(self).pending(),
    {
        self.global = Some(now);
        let key = target.to_owned();
        self.per_user.insert(key, now);
    }

    /// Records a shoutout of `target` now.
    pub fn update_cooldowns(&mut self, target: &str)
        ensures
            exists|now: u64|
                final(self).last_global() == Some(now) && final(self).last_use(target@) == Some(now),
            forall|t: Seq<char>| t != target@ ==> final(self).last_use(t) == old(self).last_use(t),
            final(self).pending() == old(self).pending(),
    {
        let now = self.now();
        self.update_cooldowns_at(target, now);
    }

    /// Whether the global and the per-streamer cooldown have passed at `now`.
    pub fn check_cooldowns_at(&self, target: &str, now: u64) -> (r: (bool, bool))
        ensures
            r == (global_ready(self.last_global(), now), user_ready(self.last_use(target@), now)),
    {
        let global_passed = match self.global {
            None => true,
            Some(t) => elapsed_ms(now, t) >= GLOBAL_COOLDOWN_MS,
        };
        let user_passed = match self.per_user.get(target) {
            None => true,
            Some(t) => elapsed_ms(now, *t) >= USER_COOLDOWN_MS,
        };
        (global_passed, user_passed)
    }

    /// Whether the global and the per-streamer cooldown have passed now.
    pub fn check_cooldowns(&self, target: &str) -> (r: (bool, bool))
        ensures
            exists|now: u64|
                r == (global_ready(self.last_global(), now), user_ready(self.last_use(target@), now)),
    {
        let now = self.now();
        self.check_cooldowns_at(target, now)
    }

    /// What is left of the global and of the per-streamer cooldown at `now`, in milliseconds.
    pub fn get_remaining_cooldown_at(&self, target: &str, now: u64) -> (r: (Option<u64>, Option<u64>))
        ensures
            r == (remaining(self.last_global(), now, GLOBAL_COOLDOWN_MS), remaining(
                self.last_use(target@),
                now,
                USER_COOLDOWN_MS,
            )),
    {
        let global_remaining = match self.global {
            None => None,
            Some(t) => {
                let e = elapsed_ms(now, t);
                if e < GLOBAL_COOLDOWN_MS {
                    Some(GLOBAL_COOLDOWN_MS - e)
                } else {
                    None
                }
            },
        };
        let user_remaining = match self.per_user.get(target) {
            None => None,
            Some(t) => {
                let e = elapsed_ms(now, *t);
                if e < USER_COOLDOWN_MS {
                    Some(USER_COOLDOWN_MS - e)
                } else {
                    None
                }
            },
        };
        (global_remaining, user_remaining)
    }

    /// What is left of the global and of the per-streamer cooldown now, in milliseconds.
    pub fn get_remaining_cooldown(&self, target: &str) -> (r: (Option<u64>, Option<u64>))
        ensures
            exists|now: u64|
                r == (remaining(self.last_global(), now, GLOBAL_COOLDOWN_MS), remaining(
                    self.last_use(target@),
                    now,
                    USER_COOLDOWN_MS,
                )),
    {
        let now = self.now();
        self.get_remaining_cooldown_at(target, now)
    }

    /// Queues an API shoutout, stamped with `now`.
    pub fn enqueue_api_shoutout_at(
        &mut self,
        broadcaster_id: String,
        moderator_id: String,
        target_id: String,
        now: u64,
    )
        ensures
            final(self).pending() == old(self).pending().push(
                ShoutoutQueueItem { broadcaster_id, moderator_id, target_id, enqueue_time: now },
            ),
            final(self).last_global() == old(self).last_global(),
            forall|t: Seq<char>| final(self).last_use(t) == old(self).last_use(t),
    {
        self.queue.enqueue(broadcaster_id, moderator_id, target_id, now);
    }

    /// Queues an API shoutout, stamped with the current time.
    pub fn enqueue_api_shoutout(&mut self, broadcaster_id: String, moderator_id: String, target_id: String)
        ensures
            final(self).pending().len() == old(self).pending().len() + 1,
            final(self).pending().drop_last() == old(self).pending(),
            final(self).pending().last().broadcaster_id == broadcaster_id,
            final(self).pending().last().moderator_id == moderator_id,
            final(self).pending().last().target_id == target_id,
            final(self).last_global() == old(self).last_global(),
            forall|t: Seq<char>| final(self).last_use(t) == old(self).last_use(t),
    {
        let now = self.now();
        self.queue.enqueue(broadcaster_id, moderator_id, target_id, now);
        assert(self.queue.items().drop_last() =~= old(self).queue.items());
    }

    /// Takes the oldest queued API shoutout, if any.
    pub fn dequeue_api_shoutout(&mut self) -> (r: Option<ShoutoutQueueItem>)
        ensures
            old(self).pending().len() == 0 ==> r is None && final(self).pending() == old(self).pending(),
            old(self).pending().len() > 0 ==> r == Some(old(self).pending()[0]) && final(self).pending()
                == old(self).pending().drop_first(),
            final(self).last_global() == old(self).last_global(),
            forall|t: Seq<char>| final(self).last_use(t) == old(self).last_use(t),
    {
        self.queue.dequeue()
    }
}

/// Right after a shoutout of `target`, no shoutout of anyone is allowed until
/// the global cooldown has passed, nor of `target` until its own has; once
/// both have passed, `target` may be shouted out again.
pub proof fn law_cooldown_after_update(c: ShoutoutCooldown, target: Seq<char>, t: u64, now: u64, other: Seq<char>)
    requires
        c.last_global() == Some(t),
        c.last_use(target) == Some(t),
    ensures
        t <= now < t + GLOBAL_COOLDOWN_MS ==> !c.allows(other, now),
        t <= now < t + USER_COOLDOWN_MS ==> !c.allows(target, now),
        now >= t + USER_COOLDOWN_MS ==> c.allows(target, now),
{
}

/// API shoutouts leave the queue in the order they entered it: taking from
/// a queue that had `x` added at its end gives its oldest item, or `x` itself
/// where nothing else waited, and `x` stays last.
pub proof fn law_queue_fifo(waiting: Seq<ShoutoutQueueItem>, x: ShoutoutQueueItem)
    ensures
        waiting.len() > 0 ==> waiting.push(x)[0] == waiting[0] && waiting.push(x).drop_first()
            == waiting.drop_first().push(x),
        waiting.len() == 0 ==> waiting.push(x)[0] == x && waiting.push(x).drop_first().len() == 0,
{
    if waiting.len() > 0 {
        assert(waiting.push(x).drop_first() =~= waiting.drop_first().push(x));
    }
}

} // verus!

verus! {

/// `!so <username>`: a shoutout for another streamer.
pub struct ShoutoutCommand;

impl Command for ShoutoutCommand {
    fn name(&self) -> (r: &'static str)
        ensures
            r@ == "!so"@,
    {
        "!so"
    }

    fn description(&self) -> (r: &'static str)
        ensures
            r@ == "Gives a shoutout to another streamer"@,
    {
        "Gives a shoutout to another streamer"
    }

    fn required_role(&self) -> (r: UserRole)
        ensures
            r == UserRole::Subscriber,
    {
        UserRole::Subscriber
    }
}

/// What `!so` does with its arguments.
pub enum ShoutoutPlan {
    /// Answer with the usage line.
    Usage(String),
    /// Answer with this and stop: the chatter named themself or the broadcaster.
    Decline(String),
    /// Shout out this streamer (their login, lowercased).
    Shoutout(String),
}

/// The streamer that `!so` names: the first argument without its leading
/// `@`s, lowercased.
pub open spec fn shoutout_target(arg: Seq<char>) -> Seq<char> {
    lowercase(trim_start_char(arg, '@'))
}

impl ShoutoutCommand {
    /// Reads the arguments: a chatter cannot shout out themself nor the
    /// channel's broadcaster (names compared lowercased).
    pub fn plan(&self, args: &Vec<String>, sender_name: &str, channel: &str) -> (r: ShoutoutPlan)
        ensures
            args@.len() == 0 ==> r is Usage && r->Usage_0@ == "Usage: !so <username>"@,
            args@.len() > 0 ==> ({
                let target = shoutout_target(args@[0]@);
                if lowercase(target) == lowercase(sender_name@) {
                    r is Decline && r->Decline_0@ == "@"@ + sender_name@
                        + ", you're already awesome! No need to shout yourself out! pepeStepBro pepeStepBro "@
                } else if lowercase(target) == lowercase(channel@) {
                    r is Decline && r->Decline_0@ == "@"@ + sender_name@ + ", 推し～！ Cannot shout out our oshi "@
                        + channel@ + "! They're already here blessing us with their sugoi presence! ٩(◕‿◕｡)۶"@
                } else {
                    r is Shoutout && r->Shoutout_0@ == target
                }
            }),
    {
        if args.len() == 0 {
            return ShoutoutPlan::Usage(String::from_str("Usage: !so <username>"));
        }
        let arg = chars_of(args[0].as_str());
        let stripped = trim_start_matches_char(arg.as_slice(), '@');
        let target = to_lowercase(string_from_chars(stripped.as_slice()).as_str());
        let target_lower = to_lowercase(target.as_str());
        let sender_lower = to_lowercase(sender_name);
        if str_equal(target_lower.as_str(), sender_lower.as_str()) {
            let mut m = String::from_str("@");
            m.append(sender_name);
            m.append(", you're already awesome! No need to shout yourself out! pepeStepBro pepeStepBro ");
            return ShoutoutPlan::Decline(m);
        }
        let channel_lower = to_lowercase(channel);
        if str_equal(target_lower.as_str(), channel_lower.as_str()) {
            let mut m = String::from_str("@");
            m.append(sender_name);
            m.append(", 推し～！ Cannot shout out our oshi ");
            m.append(channel);
            m.append("! They're already here blessing us with their sugoi presence! ٩(◕‿◕｡)۶");
            return ShoutoutPlan::Decline(m);
        }
        ShoutoutPlan::Shoutout(target)
    }
}

/// The plain shoutout for a streamer, from what the bot knows of their channel.
pub open spec fn simple_shoutout_text(
    display_name: Seq<char>,
    username: Seq<char>,
    data: Option<(Seq<Seq<char>>, Seq<char>)>,
) -> Seq<char> {
    match data {
        Some((games, title)) => "Go check out @"@ + display_name + "! "@ + (if games.len() > 0 {
            "They were last seen playing "@ + games[0] + ". "@
        } else {
            Seq::<char>::empty()
        }) + (if title.len() > 0 {
            "Their last stream title was: \""@ + title + "\". "@
        } else {
            Seq::<char>::empty()
        }) + "Follow them at https://twitch.tv/"@ + username + " "@,
        None => "Go check out @"@ + display_name
            + "! They're an awesome streamer you don't want to miss! Follow them at https://twitch.tv/"@ + username
            + " "@,
    }
}

/// The recent games and current title of a streamer's data, as plain values.
pub open spec fn games_and_title(d: Option<StreamerData>) -> Option<(Seq<Seq<char>>, Seq<char>)> {
    match d {
        Some(sd) => Some((string_views(sd.recent_games@), sd.current_title@)),
        None => None,
    }
}

/// The plain shoutout for `user`: their last game and title where known.
pub fn simple_shoutout_message(user: &TwitchUser) -> (r: String)
    ensures
        r@ == simple_shoutout_text(user.display_name@, user.username@, games_and_title(user.streamer_data)),
{
    let mut m = String::from_str("Go check out @");
    m.append(user.display_name.as_str());
    match &user.streamer_data {
        Some(sd) => {
            m.append("! ");
            if sd.recent_games.len() > 0 {
                m.append("They were last seen playing ");
                m.append(sd.recent_games[0].as_str());
                m.append(". ");
            }
            if sd.current_title.unicode_len() > 0 {
                m.append("Their last stream title was: \"");
                m.append(sd.current_title.as_str());
                m.append("\". ");
            }
            m.append("Follow them at https://twitch.tv/");
            m.append(user.username.as_str());
            m.append(" ");
        },
        None => {
            m.append("! They're an awesome streamer you don't want to miss! Follow them at https://twitch.tv/");
            m.append(user.username.as_str());
            m.append(" ");
        },
    }
    m
}

/// Whether the bot's record of a streamer looks unfilled: a placeholder
/// display name, or the login standing for the id.
pub open spec fn looks_unfilled(user: TwitchUser, user_id: Seq<char>) -> bool {
    user.display_name@ == "displayname"@ || user.username@ == user_id
}

/// Whether the record of `user_id` has to be fetched again before an AI shoutout.
pub fn needs_refresh(user: &TwitchUser, user_id: &str) -> (r: bool)
    ensures
        r == looks_unfilled(*user, user_id@),
{
    str_equal(user.display_name.as_str(), "displayname") || str_equal(user.username.as_str(), user_id)
}

/// A numbered list, one quoted item a line, counting from 1.
pub open spec fn numbered_lines(items: Seq<Seq<char>>) -> Seq<char>
    decreases items.len(),
{
    if items.len() == 0 {
        Seq::empty()
    } else {
        numbered_lines(items.drop_last()) + "  "@ + decimal(items.len()) + ". \""@ + items.last() + "\"\n"@
    }
}

/// The first three items, or all of them when there are fewer.
pub open spec fn first_three(items: Seq<Seq<char>>) -> Seq<Seq<char>> {
    if items.len() <= 3 { items } else { items.take(3) }
}

/// The game line of a shoutout prompt, if a game is known.
pub open spec fn game_section(games: Seq<Seq<char>>) -> Seq<char> {
    if games.len() > 0 {
        "- Last played game: "@ + games[0] + "\n"@
    } else {
        Seq::<char>::empty()
    }
}

/// A titled numbered list of the first three items of a shoutout prompt, if there are any.
pub open spec fn list_section(heading: Seq<char>, items: Seq<Seq<char>>) -> Seq<char> {
    if items.len() > 0 {
        heading + numbered_lines(first_three(items))
    } else {
        Seq::<char>::empty()
    }
}

/// The tag line of a shoutout prompt, if there are tags.
pub open spec fn tags_section(tags: Seq<Seq<char>>) -> Seq<char> {
    if tags.len() > 0 {
        "- Stream tags: "@ + join(tags, ", "@) + "\n"@
    } else {
        Seq::<char>::empty()
    }
}

/// What the AI is asked for a shoutout of a streamer, from their recent
/// games, recent titles, tags and clip titles.
pub open spec fn shoutout_prompt_text(
    display_name: Seq<char>,
    username: Seq<char>,
    games: Seq<Seq<char>>,
    titles: Seq<Seq<char>>,
    tags: Seq<Seq<char>>,
    clip_titles: Seq<Seq<char>>,
) -> Seq<char> {
    "Generate an engaging and friendly Twitch shoutout message for streamer @"@ + display_name
        + " with the following information:\n"@ + game_section(games) + list_section(
        "- Recent stream titles:\n"@,
        titles,
    ) + tags_section(tags) + list_section("- Popular clips:\n"@, clip_titles) + "- Twitch URL: https://twitch.tv/"@
        + username + "\n"@
        + "\nThe shoutout should be enthusiastic, brief (1-2 sentences), and encourage viewers to check out the streamer's channel. Use the streamer's display name (@{}) in the message. Don't directly list all the information, but use it to craft a compelling message. If relevant, mention a recent game, stream title, or popular clip. Make sure to include the correct Twitch URL at the end of the message, with a space before and after the URL."@
}

fn append_game_section(p: &mut String, games: &Vec<String>)
    ensures
        final(p)@ == old(p)@ + game_section(string_views(games@)),
{
    if games.len() > 0 {
        p.append("- Last played game: ");
        p.append(games[0].as_str());
        p.append("\n");
    }
}

fn append_list_section(p: &mut String, heading: &str, items: &Vec<String>)
    ensures
        final(p)@ == old(p)@ + list_section(heading@, string_views(items@)),
{
    if items.len() > 0 {
        p.append(heading);
        append_numbered(p, items);
    }
}

fn append_tags_section(p: &mut String, tags: &Vec<String>)
    ensures
        final(p)@ == old(p)@ + tags_section(string_views(tags@)),
{
    if tags.len() > 0 {
        p.append("- Stream tags: ");
        let joined = join_strings(tags, ", ");
        p.append(string_from_chars(joined.as_slice()).as_str());
        p.append("\n");
    }
}

fn append_numbered(m: &mut String, items: &Vec<String>)
    ensures
        final(m)@ == old(m)@ + numbered_lines(first_three(string_views(items@))),
{
    let n: usize = if items.len() <= 3 { items.len() } else { 3 };
    let ghost all = first_three(string_views(items@));
    assert(all.len() == n);
    let ghost start = m@;
    let mut i: usize = 0;
    assert(all.take(0) =~= Seq::<Seq<char>>::empty());
    while i < n
        invariant
            i <= n,
            n <= items@.len(),
            all == first_three(string_views(items@)),
            all.len() == n,
            m@ == start + numbered_lines(all.take(i as int)),
        decreases n - i,
    {
        assert(all.take(i + 1).drop_last() =~= all.take(i as int));
        assert(all.take(i + 1).last() == items@[i as int]@);
        m.append("  ");
        m.append(u64_to_decimal((i + 1) as u64).as_str());
        m.append(". \"");
        m.append(items[i].as_str());
        m.append("\"\n");
        i = i + 1;
    }
    assert(all.take(n as int) =~= all);
}

/// The clip titles of a streamer's top clips.
pub open spec fn clip_titles(clips: Seq<(String, String)>) -> Seq<Seq<char>> {
    clips.map_values(|c: (String, String)| c.0@)
}

/// What the AI is asked for a shoutout of `user`, whose channel data is `data`.
pub fn shoutout_prompt(user: &TwitchUser, data: &StreamerData) -> (r: String)
    ensures
        r@ == shoutout_prompt_text(
            user.display_name@,
            user.username@,
            string_views(data.recent_games@),
            string_views(data.recent_titles@),
            string_views(data.current_tags@),
            clip_titles(data.top_clips@),
        ),
{
    let mut p = String::from_str("Generate an engaging and friendly Twitch shoutout message for streamer @");
    p.append(user.display_name.as_str());
    p.append(" with the following information:\n");
    append_game_section(&mut p, &data.recent_games);
    let titles = deque_strings(&data.recent_titles);
    append_list_section(&mut p, "- Recent stream titles:\n", &titles);
    append_tags_section(&mut p, &data.current_tags);
    let clips = clip_title_list(&data.top_clips);
    append_list_section(&mut p, "- Popular clips:\n", &clips);
    p.append("- Twitch URL: https://twitch.tv/");
    p.append(user.username.as_str());
    p.append("\n");
    p.append(
        "\nThe shoutout should be enthusiastic, brief (1-2 sentences), and encourage viewers to check out the streamer's channel. Use the streamer's display name (@{}) in the message. Don't directly list all the information, but use it to craft a compelling message. If relevant, mention a recent game, stream title, or popular clip. Make sure to include the correct Twitch URL at the end of the message, with a space before and after the URL.",
    );
    p
}

fn deque_strings(d: &std::collections::VecDeque<String>) -> (r: Vec<String>)
    ensures
        string_views(r@) == string_views(d@),
{
    let mut r: Vec<String> = Vec::new();
    let mut i: usize = 0;
    while i < d.len()
        invariant
            i <= d@.len(),
            string_views(r@) == string_views(d@).take(i as int),
        decreases d@.len() - i,
    {
        let ghost before = r@;
        r.push(d[i].clone());
        assert(string_views(r@) =~= string_views(before).push(d@[i as int]@));
        assert(string_views(d@).take(i + 1) =~= string_views(d@).take(i as int).push(d@[i as int]@));
        i = i + 1;
    }
    assert(string_views(d@).take(d@.len() as int) =~= string_views(d@));
    r
}

fn clip_title_list(clips: &Vec<(String, String)>) -> (r: Vec<String>)
    ensures
        string_views(r@) == clip_titles(clips@),
{
    let mut r: Vec<String> = Vec::new();
    let mut i: usize = 0;
    while i < clips.len()
        invariant
            i <= clips@.len(),
            string_views(r@) == clip_titles(clips@).take(i as int),
        decreases clips@.len() - i,
    {
        let ghost before = r@;
        r.push(clips[i].0.clone());
        assert(string_views(r@) =~= string_views(before).push(clips@[i as int].0@));
        assert(clip_titles(clips@).take(i + 1) =~= clip_titles(clips@).take(i as int).push(clips@[i as int].0@));
        i = i + 1;
    }
    assert(clip_titles(clips@).take(clips@.len() as int) =~= clip_titles(clips@));
    r
}

/// The AI's shoutout, made sure to end with the streamer's link: where the
/// reply lacks ` https://twitch.tv/<login> `, it is trimmed and the link is added.
pub fn finish_ai_shoutout(reply: &str, username: &str) -> (r: String)
    ensures
        contains_text(reply@, " https://twitch.tv/"@ + username@ + " "@) ==> r@ == reply@,
        !contains_text(reply@, " https://twitch.tv/"@ + username@ + " "@) ==> r@ == trim(reply@)
            + " Check them out at https://twitch.tv/"@ + username@ + " !"@,
{
    let mut link = String::from_str(" https://twitch.tv/");
    link.append(username);
    link.append(" ");
    if contains_str(reply, link.as_str()) {
        String::from_str(reply)
    } else {
        let mut m = trim_string(reply);
        m.append(" Check them out at https://twitch.tv/");
        m.append(username);
        m.append(" !");
        m
    }
}

} // verus!
