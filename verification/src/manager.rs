use vstd::prelude::*;
use std::collections::VecDeque;
use crate::irc::commands::shoutout::{ShoutoutCooldown, ShoutoutQueueItem};
use crate::keyed::KeyedList;
use crate::roles::UserRole;
use crate::api::requests::channel::Clip;
use crate::eventsub::events::notifications::or_default;
use crate::text::{str_equal, string_views};

verus! {

/// What the bot knows of a streamer's channel, for shoutouts.
#[derive(Clone, Debug)]
pub struct StreamerData {
    pub recent_games: Vec<String>,
    pub current_tags: Vec<String>,
    pub current_title: String,
    pub recent_titles: VecDeque<String>,
    /// `(clip title, clip url)`.
    pub top_clips: Vec<(String, String)>,
}

/// A chatter, as the bot remembers them. Times are milliseconds since the Unix epoch.
#[derive(Clone, Debug)]
pub struct TwitchUser {
    pub user_id: String,
    pub username: String,
    pub display_name: String,
    pub role: UserRole,
    pub last_seen_ms: i64,
    pub last_role_check_ms: i64,
    /// `(time, text)`, newest first.
    pub messages: VecDeque<(i64, String)>,
    pub streamer_data: Option<StreamerData>,
}

/// How many messages of a chatter are kept.
pub const MAX_USER_MESSAGES: usize = 100;

/// The messages kept after `text` arrives at `now`: it goes first, and the
/// oldest one leaves when there are more than a hundred.
pub open spec fn messages_after(old_messages: Seq<(i64, String)>, now: i64, text: String) -> Seq<(i64, String)> {
    let s = seq![(now, text)] + old_messages;
    if s.len() > 100 {
        s.drop_last()
    } else {
        s
    }
}

/// The chatters the bot has seen, by user id.
pub struct UserCache {
    users: KeyedList<TwitchUser>,
}

impl UserCache {
    /// The chatter stored under `user_id`.
    pub closed spec fn user(self, user_id: Seq<char>) -> Option<TwitchUser> {
        self.users.get_spec(user_id)
    }

    /// The ids of the chatters stored.
    pub closed spec fn ids(self) -> Seq<Seq<char>> {
        self.users.keys()
    }

    pub fn new() -> (r: Self)
        ensures
            forall|id: Seq<char>| r.user(id) is None,
    {
        UserCache { users: KeyedList::new() }
    }

    /// The chatter stored under `user_id`.
    pub fn get(&self, user_id: &str) -> (r: Option<&TwitchUser>)
        ensures
            match r {
                Some(u) => self.user(user_id@) == Some(*u),
                None => self.user(user_id@) is None,
            },
    {
        self.users.get(user_id)
    }

    /// Stores `user` under `user_id`, replacing what was there.
    pub fn update_user(&mut self, user_id: String, user: TwitchUser)
        ensures
            final(self).user(user_id@) == Some(user),
            forall|k: Seq<char>| k != user_id@ ==> final(self).user(k) == old(self).user(k),
    {
        self.users.insert(user_id, user);
    }

    /// Sets the role of a stored chatter and the time it was checked; an
    /// unknown chatter is left out.
    pub fn update_user_role(&mut self, user_id: &str, role: UserRole, now_ms: i64)
        ensures
            match old(self).user(user_id@) {
                Some(u) => final(self).user(user_id@) == Some(
                    TwitchUser { role, last_role_check_ms: now_ms, ..u },
                ),
                None => final(self).user(user_id@) is None,
            },
            forall|k: Seq<char>| k != user_id@ ==> final(self).user(k) == old(self).user(k),
    {
        match self.users.remove(user_id) {
            Some(u) => {
                let updated = TwitchUser { role, last_role_check_ms: now_ms, ..u };
                self.users.insert(String::from_str(user_id), updated);
            },
            None => {},
        }
    }

    /// Records a chat message of `user_id` at `now_ms`: the newest hundred
    /// are kept, newest first, and the chatter was seen now. An unknown
    /// chatter is stored as a viewer with no name yet and this one message.
    pub fn add_user_message(&mut self, user_id: &str, message: String, now_ms: i64)
        ensures
            match old(self).user(user_id@) {
                Some(u) => {
                    &&& final(self).user(user_id@) matches Some(v)
                    &&& v.messages@ == messages_after(u.messages@, now_ms, message)
                    &&& v.last_seen_ms == now_ms
                    &&& v.user_id == u.user_id
                    &&& v.username == u.username
                    &&& v.display_name == u.display_name
                    &&& v.role == u.role
                    &&& v.last_role_check_ms == u.last_role_check_ms
                    &&& v.streamer_data == u.streamer_data
                },
                None => {
                    &&& final(self).user(user_id@) matches Some(v)
                    &&& v.user_id@ == user_id@
                    &&& v.username@ == Seq::<char>::empty()
                    &&& v.display_name@ == Seq::<char>::empty()
                    &&& v.role == UserRole::Viewer
                    &&& v.last_seen_ms == now_ms
                    &&& v.last_role_check_ms == now_ms
                    &&& v.messages@ == seq![(now_ms, message)]
                    &&& v.streamer_data is None
                },
            },
            forall|k: Seq<char>| k != user_id@ ==> final(self).user(k) == old(self).user(k),
    {
        match self.users.remove(user_id) {
            Some(u) => {
                let mut u = u;
                let ghost before = u.messages@;
                u.messages.push_front((now_ms, message));
                if u.messages.len() > MAX_USER_MESSAGES {
                    u.messages.pop_back();
                }
                u.last_seen_ms = now_ms;
                self.users.insert(String::from_str(user_id), u);
            },
            None => {
                let mut messages: VecDeque<(i64, String)> = VecDeque::new();
                messages.push_back((now_ms, message));
                let u = TwitchUser {
                    user_id: String::from_str(user_id),
                    username: String::new(),
                    display_name: String::new(),
                    role: UserRole::Viewer,
                    last_seen_ms: now_ms,
                    last_role_check_ms: now_ms,
                    messages,
                    streamer_data: None,
                };
                self.users.insert(String::from_str(user_id), u);
            },
        }
    }

    /// Sets the channel data of a stored chatter; an unknown chatter is left out.
    pub fn update_streamer_data(&mut self, user_id: &str, data: StreamerData)
        ensures
            match old(self).user(user_id@) {
                Some(u) => final(self).user(user_id@) == Some(TwitchUser { streamer_data: Some(data), ..u }),
                None => final(self).user(user_id@) is None,
            },
            forall|k: Seq<char>| k != user_id@ ==> final(self).user(k) == old(self).user(k),
    {
        match self.users.remove(user_id) {
            Some(u) => {
                let updated = TwitchUser { streamer_data: Some(data), ..u };
                self.users.insert(String::from_str(user_id), updated);
            },
            None => {},
        }
    }

    /// The ids of the chatters stored.
    pub fn user_ids(&self) -> (r: Vec<String>)
        ensures
            string_views(r@) == self.ids(),
    {
        let n = self.users.len();
        let mut r: Vec<String> = Vec::new();
        let mut i: usize = 0;
        while i < n
            invariant
                i <= n,
                n == self.users.entries_view().len(),
                string_views(r@) == self.ids().take(i as int),
            decreases n - i,
        {
            let e = self.users.entry(i);
            let ghost before = r@;
            r.push(e.0.clone());
            assert(string_views(r@) =~= string_views(before).push(e.0@));
            assert(self.ids().take(i + 1) =~= self.ids().take(i as int).push(self.ids()[i as int]));
            i = i + 1;
        }
        assert(self.ids().take(n as int) =~= self.ids());
        r
    }
}

/// An error answer of the Twitch API: its HTTP status and message.
pub struct ApiStatusError {
    pub status: u16,
    pub message: String,
}

/// The checks of a streamer-data update on the user answer, then the store:
/// no user in the answer is status 404 `User data not found`; no login is
/// status 500 `Username not found in API response`. Otherwise `user` (the
/// chatter as cached, or as built from the API) is stored under `user_id`
/// with `data` as its channel data, and nothing else changes. A failed check
/// leaves the cache as it was.
pub fn record_streamer_data(
    cache: &mut UserCache,
    user_id: String,
    found: bool,
    login: Option<&str>,
    user: TwitchUser,
    data: StreamerData,
) -> (r: Result<(), ApiStatusError>)
    ensures
        !found ==> (r matches Err(e) && e.status == 404 && e.message@ == "User data not found"@),
        found && login is None ==> (r matches Err(e) && e.status == 500 && e.message@
            == "Username not found in API response"@),
        r is Err ==> *final(cache) == *old(cache),
        found && login is Some ==> r is Ok,
        r is Ok ==> final(cache).user(user_id@) == Some(TwitchUser { streamer_data: Some(data), ..user })
            && forall|k: Seq<char>| k != user_id@ ==> final(cache).user(k) == old(cache).user(k),
{
    if !found {
        return Err(ApiStatusError { status: 404, message: String::from_str("User data not found") });
    }
    if login.is_none() {
        return Err(ApiStatusError { status: 500, message: String::from_str("Username not found in API response") });
    }
    let mut stored = user;
    stored.streamer_data = Some(data);
    cache.update_user(user_id, stored);
    Ok(())
}

/// A chatter as first fetched from the API: the answer must hold the user
/// and their login; the display name falls back to the login.
pub fn user_from_api(
    user_id: &str,
    found: bool,
    login: Option<&str>,
    display_name: Option<&str>,
    now_ms: i64,
) -> (r: Result<TwitchUser, String>)
    ensures
        !found ==> r is Err && r->Err_0@ == "User data not found"@,
        found && login is None ==> r is Err && r->Err_0@ == "Username not found"@,
        found && login is Some ==> r is Ok && ({
            let u = r->Ok_0;
            &&& u.user_id@ == user_id@
            &&& u.username@ == login->0@
            &&& u.display_name@ == or_default(display_name, login->0@)
            &&& u.role == UserRole::Viewer
            &&& u.last_seen_ms == now_ms
            &&& u.last_role_check_ms == now_ms
            &&& u.messages@.len() == 0
            &&& u.streamer_data is None
        }),
{
    if !found {
        return Err(String::from_str("User data not found"));
    }
    match login {
        None => Err(String::from_str("Username not found")),
        Some(l) => {
            let shown = match display_name {
                Some(d) => d,
                None => l,
            };
            Ok(
                TwitchUser {
                    user_id: String::from_str(user_id),
                    username: String::from_str(l),
                    display_name: String::from_str(shown),
                    role: UserRole::Viewer,
                    last_seen_ms: now_ms,
                    last_role_check_ms: now_ms,
                    messages: VecDeque::new(),
                    streamer_data: None,
                },
            )
        },
    }
}

/// The next question to ask the API about a chatter's role, or the role.
pub enum RoleQuery {
    Decided(UserRole),
    CheckModerator,
    CheckVip,
    CheckSubscriber,
}

/// A chatter's role, asked step by step: the channel's own account is the
/// broadcaster; otherwise the answers so far (moderator, then VIP, then
/// subscriber) decide at the first yes, and a chatter who is none of them
/// is a viewer.
pub fn next_role_query(user_id: &str, channel_id: &str, answers: &Vec<bool>) -> (r: RoleQuery)
    ensures
        user_id@ == channel_id@ ==> r == RoleQuery::Decided(UserRole::Broadcaster),
        user_id@ != channel_id@ ==> r == (if answers@.len() == 0 {
            RoleQuery::CheckModerator
        } else if answers@[0] {
            RoleQuery::Decided(UserRole::Moderator)
        } else if answers@.len() == 1 {
            RoleQuery::CheckVip
        } else if answers@[1] {
            RoleQuery::Decided(UserRole::VIP)
        } else if answers@.len() == 2 {
            RoleQuery::CheckSubscriber
        } else if answers@[2] {
            RoleQuery::Decided(UserRole::Subscriber)
        } else {
            RoleQuery::Decided(UserRole::Viewer)
        }),
{
    if str_equal(user_id, channel_id) {
        RoleQuery::Decided(UserRole::Broadcaster)
    } else if answers.len() == 0 {
        RoleQuery::CheckModerator
    } else if answers[0] {
        RoleQuery::Decided(UserRole::Moderator)
    } else if answers.len() == 1 {
        RoleQuery::CheckVip
    } else if answers[1] {
        RoleQuery::Decided(UserRole::VIP)
    } else if answers.len() == 2 {
        RoleQuery::CheckSubscriber
    } else if answers[2] {
        RoleQuery::Decided(UserRole::Subscriber)
    } else {
        RoleQuery::Decided(UserRole::Viewer)
    }
}

/// A streamer's channel data from what the API gave: the current game (or
/// nothing), the tags, the current title (or nothing), the titles of recent
/// videos, and the top clips.
pub fn build_streamer_data(
    game_name: Option<&str>,
    tags: Vec<String>,
    title: Option<&str>,
    recent_vods: &Vec<String>,
    clips: &Vec<Clip>,
) -> (r: StreamerData)
    ensures
        string_views(r.recent_games@) == seq![or_default(game_name, ""@)],
        r.current_tags == tags,
        r.current_title@ == or_default(title, ""@),
        string_views(r.recent_titles@) == seq![or_default(title, ""@)] + string_views(recent_vods@),
        r.top_clips@.len() == clips@.len(),
        forall|i: int|
            0 <= i < clips@.len() ==> (#[trigger] r.top_clips@[i]).0@ == clips@[i].title@ && r.top_clips@[i].1@
                == clips@[i].url@,
{
    proof {
        reveal_strlit("");
    }
    let game = String::from_str(match game_name {
        Some(g) => g,
        None => "",
    });
    let current_title = String::from_str(match title {
        Some(t) => t,
        None => "",
    });
    let mut recent_games: Vec<String> = Vec::new();
    recent_games.push(game);
    assert(string_views(recent_games@) =~= seq![or_default(game_name, ""@)]);
    let mut recent_titles: VecDeque<String> = VecDeque::new();
    recent_titles.push_back(current_title.clone());
    let mut i: usize = 0;
    while i < recent_vods.len()
        invariant
            i <= recent_vods@.len(),
            string_views(recent_titles@) == seq![or_default(title, ""@)] + string_views(recent_vods@).take(i as int),
        decreases recent_vods@.len() - i,
    {
        let ghost before = recent_titles@;
        recent_titles.push_back(recent_vods[i].clone());
        assert(string_views(recent_titles@) =~= string_views(before).push(recent_vods@[i as int]@));
        assert(string_views(recent_vods@).take(i + 1) =~= string_views(recent_vods@).take(i as int).push(
            recent_vods@[i as int]@,
        ));
        i = i + 1;
    }
    assert(string_views(recent_vods@).take(recent_vods@.len() as int) =~= string_views(recent_vods@));
    let mut top_clips: Vec<(String, String)> = Vec::new();
    let mut j: usize = 0;
    while j < clips.len()
        invariant
            j <= clips@.len(),
            top_clips@.len() == j,
            forall|k: int|
                0 <= k < j ==> (#[trigger] top_clips@[k]).0@ == clips@[k].title@ && top_clips@[k].1@ == clips@[k].url@,
        decreases clips@.len() - j,
    {
        top_clips.push((clips[j].title.clone(), clips[j].url.clone()));
        j = j + 1;
    }
    StreamerData { recent_games, current_tags: tags, current_title, recent_titles, top_clips }
}

/// What the shoutout queue does on one of its rounds.
pub enum QueueStep {
    /// Nothing is waiting.
    Idle,
    /// Send this shoutout now.
    Send(ShoutoutQueueItem),
    /// The stream is offline: this shoutout is dropped.
    Offline(ShoutoutQueueItem),
    /// The oldest shoutout is still cooling down: it went back to the end of the queue.
    Requeued,
}

/// One round of the shoutout queue at `now`: the oldest waiting shoutout is
/// taken; if its cooldowns have passed it is sent while the stream is live
/// (and dropped while it is offline); otherwise it goes back to the end of
/// the queue, stamped `now`.
pub fn shoutout_queue_step_at(cooldowns: &mut ShoutoutCooldown, live: bool, now: u64) -> (r: QueueStep)
    ensures
        old(cooldowns).pending().len() == 0 ==> r is Idle && final(cooldowns).pending() == old(cooldowns).pending(),
        old(cooldowns).pending().len() > 0 ==> ({
            let item = old(cooldowns).pending()[0];
            if old(cooldowns).allows(item.target_id@, now) {
                final(cooldowns).pending() == old(cooldowns).pending().drop_first() && (if live {
                    r == QueueStep::Send(item)
                } else {
                    r == QueueStep::Offline(item)
                })
            } else {
                r is Requeued && final(cooldowns).pending() == old(cooldowns).pending().drop_first().push(
                    ShoutoutQueueItem { enqueue_time: now, ..item },
                )
            }
        }),
        final(cooldowns).last_global() == old(cooldowns).last_global(),
        forall|t: Seq<char>| final(cooldowns).last_use(t) == old(cooldowns).last_use(t),
{
    match cooldowns.dequeue_api_shoutout() {
        None => QueueStep::Idle,
        Some(item) => {
            if cooldowns.can_shoutout_at(item.target_id.as_str(), now) {
                if live {
                    QueueStep::Send(item)
                } else {
                    QueueStep::Offline(item)
                }
            } else {
                let ShoutoutQueueItem { broadcaster_id, moderator_id, target_id, enqueue_time: _ } = item;
                cooldowns.enqueue_api_shoutout_at(broadcaster_id, moderator_id, target_id, now);
                QueueStep::Requeued
            }
        },
    }
}

/// After a shoutout was tried at `now`: a sent one starts the cooldowns of
/// its streamer; a failed one goes back to the end of the queue.
pub fn finish_api_shoutout_at(cooldowns: &mut ShoutoutCooldown, item: ShoutoutQueueItem, sent: bool, now: u64)
    ensures
        sent ==> final(cooldowns).last_global() == Some(now) && final(cooldowns).last_use(item.target_id@) == Some(
            now,
        ) && (forall|t: Seq<char>| t != item.target_id@ ==> final(cooldowns).last_use(t) == old(cooldowns).last_use(t))
            && final(cooldowns).pending() == old(cooldowns).pending(),
        !sent ==> final(cooldowns).pending() == old(cooldowns).pending().push(
            ShoutoutQueueItem { enqueue_time: now, ..item },
        ) && final(cooldowns).last_global() == old(cooldowns).last_global() && (forall|t: Seq<char>|
            final(cooldowns).last_use(t) == old(cooldowns).last_use(t)),
{
    if sent {
        cooldowns.update_cooldowns_at(item.target_id.as_str(), now);
    } else {
        let ShoutoutQueueItem { broadcaster_id, moderator_id, target_id, enqueue_time: _ } = item;
        cooldowns.enqueue_api_shoutout_at(broadcaster_id, moderator_id, target_id, now);
    }
}

/// How many times an API shoutout is tried.
pub const SHOUTOUT_MAX_RETRIES: u32 = 3;

/// The pause after failed try `attempt` of an API shoutout, in seconds:
/// two seconds, doubled after each failure; after the last try there is
/// none and the shoutout has failed.
pub fn shoutout_retry_delay(attempt: u32) -> (r: Option<u64>)
    requires
        1 <= attempt <= 3,
    ensures
        attempt == 3 ==> r is None,
        attempt == 1 ==> r == Some(2u64),
        attempt == 2 ==> r == Some(4u64),
{
    if attempt >= SHOUTOUT_MAX_RETRIES {
        return None;
    }
    let mut delay: u64 = 2;
    let mut k: u32 = 1;
    while k < attempt
        invariant
            1 <= k <= attempt <= 2,
            delay == if k == 1 { 2u64 } else { 4u64 },
        decreases attempt - k,
    {
        delay = delay * 2;
        k = k + 1;
    }
    Some(delay)
}

/// The arguments of one API shoutout call (`send_shoutout`): from the
/// channel's broadcaster, to `to_broadcaster_id`, with the broadcaster as
/// moderator too.
pub struct ShoutoutCall {
    pub broadcaster_id: String,
    pub to_broadcaster_id: String,
    pub moderator_id: String,
}

pub fn api_shoutout_call(broadcaster_id: &str, user_id: &str) -> (r: ShoutoutCall)
    ensures
        r.broadcaster_id@ == broadcaster_id@,
        r.to_broadcaster_id@ == user_id@,
        r.moderator_id@ == broadcaster_id@,
{
    ShoutoutCall {
        broadcaster_id: String::from_str(broadcaster_id),
        to_broadcaster_id: String::from_str(user_id),
        moderator_id: String::from_str(broadcaster_id),
    }
}

/// What follows one try of an API shoutout.
pub enum ShoutoutTry {
    /// It was sent.
    Sent,
    /// Wait this many seconds, then try again.
    Retry(u64),
    /// The last try failed: the shoutout fails with this error.
    Failed(String),
}

/// After try `attempt` (1 to 3) of an API shoutout gave `result`: a success
/// ends it; a failure before the third try waits 2, then 4 seconds and
/// tries again; the third failure is the shoutout's error.
pub fn after_shoutout_try(attempt: u32, result: Result<(), String>) -> (r: ShoutoutTry)
    requires
        1 <= attempt <= 3,
    ensures
        result is Ok ==> r is Sent,
        result matches Err(e) ==> if attempt == 3 {
            r == ShoutoutTry::Failed(e)
        } else {
            r == ShoutoutTry::Retry(if attempt == 1 { 2u64 } else { 4u64 })
        },
{
    match result {
        Ok(()) => ShoutoutTry::Sent,
        Err(e) => match shoutout_retry_delay(attempt) {
            Some(wait) => ShoutoutTry::Retry(wait),
            None => ShoutoutTry::Failed(e),
        },
    }
}

} // verus!
