use vstd::prelude::*;
use crate::clock::{Clock, elapsed_ms, elapsed_since};
use crate::text::str_equal;

verus! {

/// An error of the EventSub client, with its message.
#[derive(Debug)]
pub struct TwitchEventSubError {
    pub message: String,
}

impl TwitchEventSubError {
    /// The error as it prints: its message.
    pub fn to_text(&self) -> (r: String)
        ensures
            r@ == self.message@,
    {
        self.message.clone()
    }
}

/// Reconnection is given up after this many attempts in a row.
pub const MAX_RECONNECT_ATTEMPTS: usize = 10;

/// A connection is dropped after this many failed keepalive checks in a row.
pub const MAX_CONSECUTIVE_KEEPALIVE_FAILURES: usize = 2;

/// The pause before reconnection attempt `attempt` (counted from 0), in
/// seconds: one second doubled per attempt, at most a minute.
pub open spec fn backoff_seconds(attempt: nat) -> nat {
    let d = vstd::arithmetic::power2::pow2(attempt);
    if d < 60 { d } else { 60 }
}

/// The pause before reconnection attempt `attempt`, in seconds.
pub fn calculate_backoff(attempt: usize) -> (r: u64)
    requires
        attempt < 32,
    ensures
        r == backoff_seconds(attempt as nat),
{
    let mut d: u64 = 1;
    let mut i: usize = 0;
    proof {
        vstd::arithmetic::power2::lemma2_to64();
    }
    while i < attempt
        invariant
            i <= attempt < 32,
            d == vstd::arithmetic::power2::pow2(i as nat),
        decreases attempt - i,
    {
        proof {
            vstd::arithmetic::power2::lemma_pow2_unfold((i + 1) as nat);
            vstd::arithmetic::power2::lemma_pow2_strictly_increases(i as nat, 32);
            vstd::arithmetic::power2::lemma2_to64();
        }
        d = d * 2;
        i = i + 1;
    }
    if d < 60 {
        d
    } else {
        60
    }
}

/// The kinds of message that the EventSub socket sends.
#[derive(Debug, Clone, Copy, PartialEq, Eq, Structural)]
pub enum SocketMessageKind {
    Welcome,
    Keepalive,
    Notification,
    Reconnect,
    Revocation,
    Unhandled,
}

/// The kind of an EventSub socket message, from its `metadata.message_type`.
pub fn classify_message(message_type: Option<&str>) -> (r: SocketMessageKind)
    ensures
        r == match message_type {
            Some(t) => if t@ == "session_welcome"@ {
                SocketMessageKind::Welcome
            } else if t@ == "session_keepalive"@ {
                SocketMessageKind::Keepalive
            } else if t@ == "notification"@ {
                SocketMessageKind::Notification
            } else if t@ == "session_reconnect"@ {
                SocketMessageKind::Reconnect
            } else if t@ == "revocation"@ {
                SocketMessageKind::Revocation
            } else {
                SocketMessageKind::Unhandled
            },
            None => SocketMessageKind::Unhandled,
        },
{
    match message_type {
        Some(t) => if str_equal(t, "session_welcome") {
            SocketMessageKind::Welcome
        } else if str_equal(t, "session_keepalive") {
            SocketMessageKind::Keepalive
        } else if str_equal(t, "notification") {
            SocketMessageKind::Notification
        } else if str_equal(t, "session_reconnect") {
            SocketMessageKind::Reconnect
        } else if str_equal(t, "revocation") {
            SocketMessageKind::Revocation
        } else {
            SocketMessageKind::Unhandled
        },
        None => SocketMessageKind::Unhandled,
    }
}

/// The URL to move to on a `session_reconnect` message, or the error when it gives none.
pub fn reconnect_target(reconnect_url: Option<String>) -> (r: Result<String, String>)
    ensures
        match reconnect_url {
            Some(u) => r == Ok::<String, String>(u),
            None => r is Err && r->Err_0@ == "Invalid reconnect message"@,
        },
{
    match reconnect_url {
        Some(u) => Ok(u),
        None => Err(String::from_str("Invalid reconnect message")),
    }
}

/// What a close code of the EventSub socket means, and whether it is logged as an error.
pub open spec fn close_code_text(code: u16) -> (bool, Seq<char>) {
    if code == 4000 {
        (true, "Internal server error"@)
    } else if code == 4001 {
        (true, "Client sent inbound traffic"@)
    } else if code == 4002 {
        (true, "Client failed ping-pong"@)
    } else if code == 4003 {
        (true, "Connection unused"@)
    } else if code == 4004 {
        (true, "Reconnect grace time expired"@)
    } else if code == 4005 {
        (false, "Network timeout"@)
    } else if code == 4006 {
        (false, "Network error"@)
    } else if code == 4007 {
        (true, "Invalid reconnect"@)
    } else {
        (false, "Unknown close code"@)
    }
}

/// What a close code means: `(is an error, meaning)`.
pub fn describe_close_code(code: u16) -> (r: (bool, String))
    ensures
        (r.0, r.1@) == close_code_text(code),
{
    let (e, t) = if code == 4000 {
        (true, "Internal server error")
    } else if code == 4001 {
        (true, "Client sent inbound traffic")
    } else if code == 4002 {
        (true, "Client failed ping-pong")
    } else if code == 4003 {
        (true, "Connection unused")
    } else if code == 4004 {
        (true, "Reconnect grace time expired")
    } else if code == 4005 {
        (false, "Network timeout")
    } else if code == 4006 {
        (false, "Network error")
    } else if code == 4007 {
        (true, "Invalid reconnect")
    } else {
        (false, "Unknown close code")
    };
    (e, String::from_str(t))
}

/// The shape of a subscription's condition.
#[derive(Debug, Clone, Copy, PartialEq, Eq, Structural)]
pub enum ConditionShape {
    /// `broadcaster_user_id`.
    Broadcaster,
    /// `broadcaster_user_id` and `moderator_user_id`.
    BroadcasterAndModerator,
    /// `to_broadcaster_user_id`.
    ToBroadcaster,
}

/// The subscriptions made for each new session: type, version and condition.
pub open spec fn subscription_table() -> Seq<(Seq<char>, Seq<char>, ConditionShape)> {
    seq![
        ("channel.update"@, "2"@, ConditionShape::Broadcaster),
        ("channel.follow"@, "2"@, ConditionShape::BroadcasterAndModerator),
        ("channel.raid"@, "1"@, ConditionShape::ToBroadcaster),
        ("channel.shoutout.create"@, "1"@, ConditionShape::BroadcasterAndModerator),
        ("channel.shoutout.receive"@, "1"@, ConditionShape::BroadcasterAndModerator),
        ("stream.online"@, "1"@, ConditionShape::Broadcaster),
        ("stream.offline"@, "1"@, ConditionShape::Broadcaster),
        ("channel.subscribe"@, "1"@, ConditionShape::Broadcaster),
        ("channel.subscription.message"@, "1"@, ConditionShape::Broadcaster),
        ("channel.subscription.gift"@, "1"@, ConditionShape::Broadcaster),
        ("channel.subscription.end"@, "1"@, ConditionShape::Broadcaster),
        ("channel.cheer"@, "1"@, ConditionShape::Broadcaster),
        ("channel.channel_points_custom_reward_redemption.add"@, "1"@, ConditionShape::Broadcaster),
        ("channel.channel_points_custom_reward_redemption.update"@, "1"@, ConditionShape::Broadcaster),
        ("channel.ad_break.begin"@, "1"@, ConditionShape::Broadcaster),
    ]
}

/// The condition of a subscription for the channel `channel_id`, as named values.
pub open spec fn condition_fields(shape: ConditionShape, channel_id: Seq<char>) -> Seq<(Seq<char>, Seq<char>)> {
    match shape {
        ConditionShape::Broadcaster => seq![("broadcaster_user_id"@, channel_id)],
        ConditionShape::BroadcasterAndModerator => seq![
            ("broadcaster_user_id"@, channel_id),
            ("moderator_user_id"@, channel_id),
        ],
        ConditionShape::ToBroadcaster => seq![("to_broadcaster_user_id"@, channel_id)],
    }
}

/// One subscription to ask for over the websocket transport of a session.
pub struct SubscriptionRequest {
    pub subscription_type: String,
    pub version: String,
    pub condition: Vec<(String, String)>,
    pub session_id: String,
}

/// A subscription request as plain values.
pub open spec fn request_view(r: SubscriptionRequest) -> (Seq<char>, Seq<char>, Seq<(Seq<char>, Seq<char>)>, Seq<char>) {
    (
        r.subscription_type@,
        r.version@,
        r.condition@.map_values(|f: (String, String)| (f.0@, f.1@)),
        r.session_id@,
    )
}

fn condition_for(shape: ConditionShape, channel_id: &str) -> (r: Vec<(String, String)>)
    ensures
        r@.map_values(|f: (String, String)| (f.0@, f.1@)) == condition_fields(shape, channel_id@),
{
    let mut r: Vec<(String, String)> = Vec::new();
    match shape {
        ConditionShape::Broadcaster => {
            r.push((String::from_str("broadcaster_user_id"), String::from_str(channel_id)));
        },
        ConditionShape::BroadcasterAndModerator => {
            r.push((String::from_str("broadcaster_user_id"), String::from_str(channel_id)));
            r.push((String::from_str("moderator_user_id"), String::from_str(channel_id)));
        },
        ConditionShape::ToBroadcaster => {
            r.push((String::from_str("to_broadcaster_user_id"), String::from_str(channel_id)));
        },
    }
    assert(r@.map_values(|f: (String, String)| (f.0@, f.1@)) =~= condition_fields(shape, channel_id@));
    r
}

/// The subscriptions to ask for on a new session `session_id` of the channel
/// `channel_id`, in the order they are asked for.
pub fn eventsub_subscriptions(channel_id: &str, session_id: &str) -> (r: Vec<SubscriptionRequest>)
    ensures
        r@.len() == subscription_table().len(),
        forall|i: int|
            0 <= i < r@.len() ==> #[trigger] request_view(r@[i]) == (
                subscription_table()[i].0,
                subscription_table()[i].1,
                condition_fields(subscription_table()[i].2, channel_id@),
                session_id@,
            ),
{
    let table: [(&str, &str, ConditionShape); 15] = [
        ("channel.update", "2", ConditionShape::Broadcaster),
        ("channel.follow", "2", ConditionShape::BroadcasterAndModerator),
        ("channel.raid", "1", ConditionShape::ToBroadcaster),
        ("channel.shoutout.create", "1", ConditionShape::BroadcasterAndModerator),
        ("channel.shoutout.receive", "1", ConditionShape::BroadcasterAndModerator),
        ("stream.online", "1", ConditionShape::Broadcaster),
        ("stream.offline", "1", ConditionShape::Broadcaster),
        ("channel.subscribe", "1", ConditionShape::Broadcaster),
        ("channel.subscription.message", "1", ConditionShape::Broadcaster),
        ("channel.subscription.gift", "1", ConditionShape::Broadcaster),
        ("channel.subscription.end", "1", ConditionShape::Broadcaster),
        ("channel.cheer", "1", ConditionShape::Broadcaster),
        ("channel.channel_points_custom_reward_redemption.add", "1", ConditionShape::Broadcaster),
        ("channel.channel_points_custom_reward_redemption.update", "1", ConditionShape::Broadcaster),
        ("channel.ad_break.begin", "1", ConditionShape::Broadcaster),
    ];
    let ghost spec_table = subscription_table();
    assert(table@.map_values(|e: (&str, &str, ConditionShape)| (e.0@, e.1@, e.2)) =~= spec_table);
    let mut r: Vec<SubscriptionRequest> = Vec::new();
    let mut i: usize = 0;
    while i < 15
        invariant
            i <= 15,
            spec_table == subscription_table(),
            table@.map_values(|e: (&str, &str, ConditionShape)| (e.0@, e.1@, e.2)) == spec_table,
            r@.len() == i,
            forall|j: int|
                0 <= j < i ==> #[trigger] request_view(r@[j]) == (
                    spec_table[j].0,
                    spec_table[j].1,
                    condition_fields(spec_table[j].2, channel_id@),
                    session_id@,
                ),
        decreases 15 - i,
    {
        let (t, v, shape) = table[i];
        assert(spec_table[i as int] == (t@, v@, shape));
        let req = SubscriptionRequest {
            subscription_type: String::from_str(t),
            version: String::from_str(v),
            condition: condition_for(shape, channel_id),
            session_id: String::from_str(session_id),
        };
        r.push(req);
        i = i + 1;
    }
    r
}

/// The subscriptions to ask for, once the client id is known: without one
/// nothing is asked for and the error is `Twitch client ID not set`.
pub fn subscription_plan(client_id: Option<&str>, channel_id: &str, session_id: &str) -> (r: Result<
    Vec<SubscriptionRequest>,
    String,
>)
    ensures
        client_id is None <==> r is Err,
        r matches Err(e) ==> e@ == "Twitch client ID not set"@,
        r matches Ok(v) ==> v@.len() == subscription_table().len() && forall|i: int|
            0 <= i < v@.len() ==> #[trigger] request_view(v@[i]) == (
                subscription_table()[i].0,
                subscription_table()[i].1,
                condition_fields(subscription_table()[i].2, channel_id@),
                session_id@,
            ),
{
    match client_id {
        None => Err(String::from_str("Twitch client ID not set")),
        Some(_) => Ok(eventsub_subscriptions(channel_id, session_id)),
    }
}

/// What happens after the answer to one subscription request.
pub enum SubscriptionStep {
    /// Send the request at this position next.
    Send(usize),
    /// Every request was sent: the subscriptions are done.
    Done,
    /// Sending failed: stop with this error.
    Stop(String),
}

/// Whether the API took a subscription request: a success status (2xx).
pub open spec fn subscription_accepted(status: u16) -> bool {
    200 <= status <= 299
}

/// After request `index` of `count` got `reply` (an HTTP status, or the
/// error of sending it): a status, accepted or not, leads on to the next
/// request, or to the end after the last one; a rejected type is only
/// reported (the second result says whether it was accepted). A send that
/// failed stops everything with its error.
pub fn after_subscription_reply(index: usize, count: usize, reply: Result<u16, String>) -> (r: (
    SubscriptionStep,
    bool,
))
    requires
        index < count,
    ensures
        match reply {
            Ok(status) => r.1 == subscription_accepted(status) && if index + 1 < count {
                r.0 == SubscriptionStep::Send((index + 1) as usize)
            } else {
                r.0 is Done
            },
            Err(e) => r.0 == SubscriptionStep::Stop(e) && !r.1,
        },
{
    match reply {
        Ok(status) => {
            let accepted = 200 <= status && status <= 299;
            if index + 1 < count {
                (SubscriptionStep::Send(index + 1), accepted)
            } else {
                (SubscriptionStep::Done, accepted)
            }
        },
        Err(e) => (SubscriptionStep::Stop(e), false),
    }
}

/// The socket's bookkeeping: reconnection attempts and keepalives. Times
/// are milliseconds of the session's monotonic clock.
pub struct EventSubSession {
    clock: Clock,
    reconnect_attempts: usize,
    last_keepalive: u64,
    keepalive_timeout_secs: u64,
    consecutive_keepalive_failures: usize,
}

/// What the keepalive check tells the listener.
#[derive(Debug, Clone, Copy, PartialEq, Eq, Structural)]
pub enum KeepaliveVerdict {
    /// A keepalive came in time.
    Alive,
    /// None came in time, but the connection is kept for now.
    Late,
    /// Too many checks in a row failed: drop the connection.
    Reconnect,
}

impl EventSubSession {
    pub closed spec fn attempts(self) -> usize {
        self.reconnect_attempts
    }

    /// When the last keepalive (or welcome) arrived.
    pub closed spec fn last_keepalive(self) -> u64 {
        self.last_keepalive
    }

    /// The keepalive timeout that the server set, in seconds.
    pub closed spec fn keepalive_timeout(self) -> u64 {
        self.keepalive_timeout_secs
    }

    /// The failed keepalive checks in a row.
    pub closed spec fn keepalive_failures(self) -> usize {
        self.consecutive_keepalive_failures
    }

    /// A new session: no attempts yet, a keepalive timeout of a minute, and
    /// a keepalive counted at the start.
    pub fn new() -> (r: Self)
        ensures
            r.attempts() == 0,
            r.last_keepalive() == 0,
            r.keepalive_timeout() == 60,
            r.keepalive_failures() == 0,
    {
        EventSubSession {
            clock: Clock::start(),
            reconnect_attempts: 0,
            last_keepalive: 0,
            keepalive_timeout_secs: 60,
            consecutive_keepalive_failures: 0,
        }
    }

    /// The reading of the session's clock.
    pub fn now(&self) -> u64 {
        self.clock.now_millis()
    }

    /// The socket connected: the counters start over.
    pub fn on_connected(&mut self)
        ensures
            final(self).attempts() == 0,
            final(self).keepalive_failures() == 0,
            final(self).last_keepalive() == old(self).last_keepalive(),
            final(self).keepalive_timeout() == old(self).keepalive_timeout(),
    {
        self.reconnect_attempts = 0;
        self.consecutive_keepalive_failures = 0;
    }

    /// The connection was lost or could not be made: one more attempt is
    /// counted; past ten the client gives up (`None`), otherwise it waits the
    /// backoff of the attempts made before this one, in seconds.
    pub fn after_connection_lost(&mut self) -> (r: Option<u64>)
        requires
            old(self).attempts() < usize::MAX,
        ensures
            final(self).attempts() == old(self).attempts() + 1,
            old(self).attempts() >= 10 ==> r is None,
            old(self).attempts() < 10 ==> r == Some(backoff_seconds(old(self).attempts() as nat) as u64),
            final(self).last_keepalive() == old(self).last_keepalive(),
            final(self).keepalive_timeout() == old(self).keepalive_timeout(),
            final(self).keepalive_failures() == old(self).keepalive_failures(),
    {
        let attempts = self.reconnect_attempts;
        self.reconnect_attempts = attempts + 1;
        if attempts >= MAX_RECONNECT_ATTEMPTS {
            None
        } else {
            Some(calculate_backoff(attempts))
        }
    }

    /// A welcome message arrived at `now`: the server's keepalive timeout, if
    /// it gave one, is taken, and the keepalive clock restarts.
    pub fn on_welcome_at(&mut self, keepalive_timeout_secs: Option<u64>, now: u64)
        ensures
            final(self).last_keepalive() == now,
            final(self).keepalive_timeout() == match keepalive_timeout_secs {
                Some(t) => t,
                None => old(self).keepalive_timeout(),
            },
            final(self).attempts() == old(self).attempts(),
            final(self).keepalive_failures() == old(self).keepalive_failures(),
    {
        if let Some(t) = keepalive_timeout_secs {
            self.keepalive_timeout_secs = t;
        }
        self.last_keepalive = now;
    }

    /// A keepalive message arrived at `now`.
    pub fn on_keepalive_at(&mut self, now: u64)
        ensures
            final(self).last_keepalive() == now,
            final(self).keepalive_failures() == 0,
            final(self).attempts() == old(self).attempts(),
            final(self).keepalive_timeout() == old(self).keepalive_timeout(),
    {
        self.last_keepalive = now;
        self.consecutive_keepalive_failures = 0;
    }

    /// Whether the last keepalive is overdue at `now`: more than three
    /// keepalive timeouts ago.
    pub open spec fn overdue(self, now: u64) -> bool {
        elapsed_since(now, self.last_keepalive()) > 3000 * self.keepalive_timeout()
    }

    /// The periodic keepalive check at `now`: an overdue keepalive counts a
    /// failure, and the second failure in a row asks for a reconnection; a
    /// keepalive in time clears the failures.
    pub fn check_keepalive_at(&mut self, now: u64) -> (r: KeepaliveVerdict)
        requires
            3 * old(self).keepalive_timeout() <= u64::MAX,
            old(self).keepalive_failures() < usize::MAX,
        ensures
            !old(self).overdue(now) ==> r == KeepaliveVerdict::Alive && final(self).keepalive_failures() == 0,
            old(self).overdue(now) ==> final(self).keepalive_failures() == old(self).keepalive_failures() + 1
                && r == (if final(self).keepalive_failures() >= 2 {
                KeepaliveVerdict::Reconnect
            } else {
                KeepaliveVerdict::Late
            }),
            final(self).attempts() == old(self).attempts(),
            final(self).last_keepalive() == old(self).last_keepalive(),
            final(self).keepalive_timeout() == old(self).keepalive_timeout(),
    {
        let elapsed = elapsed_ms(now, self.last_keepalive) as u128;
        let limit = self.keepalive_timeout_secs as u128 * 3000;
        if elapsed > limit {
            self.consecutive_keepalive_failures = self.consecutive_keepalive_failures + 1;
            if self.consecutive_keepalive_failures >= MAX_CONSECUTIVE_KEEPALIVE_FAILURES {
                KeepaliveVerdict::Reconnect
            } else {
                KeepaliveVerdict::Late
            }
        } else {
            self.consecutive_keepalive_failures = 0;
            KeepaliveVerdict::Alive
        }
    }

    /// A welcome message arrived now.
    pub fn on_welcome(&mut self, keepalive_timeout_secs: Option<u64>)
        ensures
            final(self).keepalive_timeout() == match keepalive_timeout_secs {
                Some(t) => t,
                None => old(self).keepalive_timeout(),
            },
            final(self).attempts() == old(self).attempts(),
            final(self).keepalive_failures() == old(self).keepalive_failures(),
    {
        let now = self.now();
        self.on_welcome_at(keepalive_timeout_secs, now);
    }

    /// A keepalive message arrived now.
    pub fn on_keepalive(&mut self)
        ensures
            final(self).keepalive_failures() == 0,
            final(self).attempts() == old(self).attempts(),
            final(self).keepalive_timeout() == old(self).keepalive_timeout(),
    {
        let now = self.now();
        self.on_keepalive_at(now);
    }

    /// The periodic keepalive check, now.
    pub fn check_keepalive(&mut self) -> (r: KeepaliveVerdict)
        requires
            3 * old(self).keepalive_timeout() <= u64::MAX,
            old(self).keepalive_failures() < usize::MAX,
        ensures
            exists|now: u64|
                {
                    &&& !old(self).overdue(now) ==> r == KeepaliveVerdict::Alive && final(self).keepalive_failures() == 0
                    &&& old(self).overdue(now) ==> final(self).keepalive_failures() == old(self).keepalive_failures() + 1
                        && r == (if final(self).keepalive_failures() >= 2 {
                        KeepaliveVerdict::Reconnect
                    } else {
                        KeepaliveVerdict::Late
                    })
                },
            final(self).attempts() == old(self).attempts(),
            final(self).last_keepalive() == old(self).last_keepalive(),
            final(self).keepalive_timeout() == old(self).keepalive_timeout(),
    {
        let now = self.now();
        self.check_keepalive_at(now)
    }
}

/// The pause between reconnections never exceeds a minute, starts at one
/// second, and doubles from one attempt to the next until it reaches the cap.
pub proof fn law_backoff_doubles_up_to_a_minute(attempt: nat)
    ensures
        1 <= backoff_seconds(attempt) <= 60,
        backoff_seconds(0) == 1,
        attempt < 5 ==> backoff_seconds(attempt + 1) == 2 * backoff_seconds(attempt),
        attempt >= 6 ==> backoff_seconds(attempt) == 60,
{
    vstd::arithmetic::power2::lemma2_to64();
    vstd::arithmetic::power2::lemma_pow2_pos(attempt);
    vstd::arithmetic::power2::lemma_pow2_unfold(attempt + 1);
    if attempt > 6 {
        vstd::arithmetic::power2::lemma_pow2_strictly_increases(6, attempt);
    }
    if attempt + 1 < 5 {
        vstd::arithmetic::power2::lemma_pow2_strictly_increases(attempt + 1, 5);
    }
}

} // verus!
