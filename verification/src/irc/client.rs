use vstd::prelude::*;
use crate::connection_monitor::{ConnectionMonitor, MonitorEvent, monitor_step};
use crate::text::{str_equal, string_views};

verus! {

/// The state of one chat account's link to Twitch IRC.
#[derive(Debug, Clone, Copy, PartialEq, Eq, Structural)]
pub enum ConnectionState {
    Connected,
    Disconnected,
    Reconnecting,
}

/// Reconnection is given up after this many attempts in a row.
pub const MAX_RECONNECT_ATTEMPTS: u32 = 5;

/// After this many failed reconnections the circuit breaker opens.
pub const CIRCUIT_BREAKER_THRESHOLD: u32 = 3;

/// How long an open circuit breaker waits before reconnecting, in seconds.
pub const CIRCUIT_BREAKER_RESET_SECS: u64 = 300;

/// The pause before reconnection attempt `attempts`: two to the power of the
/// attempt number, capped at the sixth power.
pub open spec fn backoff_secs(attempts: u32) -> nat {
    vstd::arithmetic::power2::pow2((if attempts < 6 { attempts } else { 6 }) as nat)
}

/// What a reconnection does before it dials again.
pub struct ReconnectPlan {
    /// The pause of an open circuit breaker, in seconds, if it was open.
    pub circuit_wait_secs: Option<u64>,
    /// The pause before dialling, in seconds; `None` when reconnection is given up.
    pub backoff_secs: Option<u64>,
    /// The error that a reconnection given up fails with.
    pub error: Option<String>,
}

/// The bookkeeping of one chat account's link: its state, the channels it
/// is in, and the counters that pace reconnection. The network client
/// itself stays with the caller.
pub struct IrcConnection {
    state: ConnectionState,
    reconnect_attempts: u32,
    circuit_breaker: u32,
    channels: Vec<String>,
    monitor: ConnectionMonitor,
}

impl IrcConnection {
    pub closed spec fn state(self) -> ConnectionState {
        self.state
    }

    /// The reconnection attempts since the last successful connection.
    pub closed spec fn attempts(self) -> u32 {
        self.reconnect_attempts
    }

    /// The failed reconnections since the circuit breaker was last closed.
    pub closed spec fn failures(self) -> u32 {
        self.circuit_breaker
    }

    /// The channels this account is in.
    pub closed spec fn channels(self) -> Seq<Seq<char>> {
        string_views(self.channels@)
    }

    pub closed spec fn monitor(self) -> ConnectionMonitor {
        self.monitor
    }

    /// A link that is down, for the given channels.
    pub fn new(channels: Vec<String>) -> (r: Self)
        ensures
            r.state() == ConnectionState::Disconnected,
            r.attempts() == 0,
            r.failures() == 0,
            r.channels() == string_views(channels@),
    {
        IrcConnection {
            state: ConnectionState::Disconnected,
            reconnect_attempts: 0,
            circuit_breaker: 0,
            channels,
            monitor: ConnectionMonitor::new(),
        }
    }

    pub fn get_state(&self) -> (r: ConnectionState)
        ensures
            r == self.state(),
    {
        self.state
    }

    /// The connected time counted so far and the disconnections, from the monitor.
    pub fn get_monitor_status(&self) -> (r: (u64, u32))
        ensures
            r == (self.monitor().uptime(), self.monitor().disconnections()),
    {
        (self.monitor.total_uptime_ms(), self.monitor.disconnection_count())
    }

    /// Starts connecting: `None` when the link is already up (nothing to do);
    /// otherwise the link counts as up and the channels to join are handed out.
    pub fn begin_connect(&mut self) -> (r: Option<Vec<String>>)
        ensures
            old(self).state() == ConnectionState::Connected ==> r is None && *final(self) == *old(self),
            old(self).state() != ConnectionState::Connected ==> r is Some && string_views(r->0@)
                == old(self).channels() && final(self).state() == ConnectionState::Connected
                && final(self).attempts() == old(self).attempts() && final(self).failures()
                == old(self).failures() && final(self).channels() == old(self).channels()
                && final(self).monitor() == old(self).monitor(),
    {
        if self.state == ConnectionState::Connected {
            return None;
        }
        self.state = ConnectionState::Connected;
        Some(clone_strings(&self.channels))
    }

    /// Every channel was joined: the monitor counts the link as up, and the
    /// reconnection counters start over.
    pub fn finish_connect(&mut self)
        ensures
            final(self).attempts() == 0,
            final(self).failures() == 0,
            final(self).state() == old(self).state(),
            final(self).channels() == old(self).channels(),
            final(self).monitor().state() == crate::connection_monitor::ConnectionState::Connected,
            exists|now: u64|
                final(self).monitor().view_of() == #[trigger] monitor_step(
                    old(self).monitor().view_of(),
                    MonitorEvent::Connect(now),
                ),
    {
        let ghost before = self.monitor.view_of();
        self.monitor.on_connect();
        let ghost after = self.monitor.view_of();
        let ghost now = choose|now: u64| after == #[trigger] monitor_step(before, MonitorEvent::Connect(now));
        assert(after == monitor_step(before, MonitorEvent::Connect(now)));
        self.reconnect_attempts = 0;
        self.circuit_breaker = 0;
        assert(self.monitor().view_of() == monitor_step(old(self).monitor().view_of(), MonitorEvent::Connect(now)));
    }

    /// Disconnects: `None` when the link is already down (nothing to do);
    /// otherwise the link counts as down, the monitor records it, and the
    /// channels to leave are handed out.
    pub fn disconnect(&mut self) -> (r: Option<Vec<String>>)
        requires
            old(self).state() != ConnectionState::Disconnected ==> old(self).monitor().disconnections() < u32::MAX,
        ensures
            old(self).state() == ConnectionState::Disconnected ==> r is None && *final(self) == *old(self),
            old(self).state() != ConnectionState::Disconnected ==> r is Some && string_views(r->0@)
                == old(self).channels() && final(self).state() == ConnectionState::Disconnected
                && final(self).attempts() == old(self).attempts() && final(self).failures()
                == old(self).failures() && final(self).channels() == old(self).channels()
                && final(self).monitor().state() == crate::connection_monitor::ConnectionState::Disconnected
                && final(self).monitor().disconnections() == old(self).monitor().disconnections() + 1
                && exists|now: u64|
                final(self).monitor().view_of() == #[trigger] monitor_step(
                    old(self).monitor().view_of(),
                    MonitorEvent::Disconnect(now),
                ),
    {
        if self.state == ConnectionState::Disconnected {
            return None;
        }
        self.state = ConnectionState::Disconnected;
        let leave = clone_strings(&self.channels);
        self.monitor.on_disconnect();
        Some(leave)
    }

    /// Starts a reconnection: one more attempt is counted; an open circuit
    /// breaker (three failures or more) waits five minutes and closes; past
    /// five attempts the link is given up as down; otherwise the pause before
    /// dialling is `2^min(attempts, 6)` seconds and the link is reconnecting.
    pub fn begin_reconnect(&mut self) -> (r: ReconnectPlan)
        requires
            old(self).attempts() < u32::MAX,
        ensures
            final(self).attempts() == old(self).attempts() + 1,
            old(self).failures() >= 3 ==> r.circuit_wait_secs == Some(300u64) && final(self).failures() == 0,
            old(self).failures() < 3 ==> r.circuit_wait_secs is None && final(self).failures()
                == old(self).failures(),
            final(self).attempts() > 5 ==> r.backoff_secs is None && final(self).state()
                == ConnectionState::Disconnected && (r.error matches Some(e) && e@
                == "Max reconnection attempts reached"@),
            final(self).attempts() <= 5 ==> r.error is None,
            final(self).attempts() <= 5 ==> r.backoff_secs == Some(backoff_secs(final(self).attempts()) as u64)
                && final(self).state() == ConnectionState::Reconnecting,
            final(self).channels() == old(self).channels(),
            final(self).monitor() == old(self).monitor(),
    {
        self.reconnect_attempts = self.reconnect_attempts + 1;
        let attempts = self.reconnect_attempts;
        let circuit_wait_secs = if self.circuit_breaker >= CIRCUIT_BREAKER_THRESHOLD {
            self.circuit_breaker = 0;
            Some(CIRCUIT_BREAKER_RESET_SECS)
        } else {
            None
        };
        if attempts > MAX_RECONNECT_ATTEMPTS {
            self.state = ConnectionState::Disconnected;
            return ReconnectPlan {
                circuit_wait_secs,
                backoff_secs: None,
                error: Some(String::from_str("Max reconnection attempts reached")),
            };
        }
        let exp: u32 = if attempts < 6 { attempts } else { 6 };
        let mut wait: u64 = 1;
        let mut i: u32 = 0;
        proof {
            vstd::arithmetic::power2::lemma2_to64();
        }
        while i < exp
            invariant
                i <= exp <= 6,
                wait == vstd::arithmetic::power2::pow2(i as nat),
            decreases exp - i,
        {
            proof {
                vstd::arithmetic::power2::lemma_pow2_unfold((i + 1) as nat);
                vstd::arithmetic::power2::lemma_pow2_strictly_increases(i as nat, 6);
                vstd::arithmetic::power2::lemma2_to64();
            }
            wait = wait * 2;
            i = i + 1;
        }
        self.state = ConnectionState::Reconnecting;
        ReconnectPlan { circuit_wait_secs, backoff_secs: Some(wait), error: None }
    }

    /// The end of a reconnection: on success the counters start over; on
    /// failure one more failure is counted (wrapping like an atomic counter).
    pub fn finish_reconnect(&mut self, connected: bool)
        ensures
            connected ==> final(self).attempts() == 0 && final(self).failures() == 0,
            !connected ==> final(self).attempts() == old(self).attempts() && final(self).failures()
                == old(self).failures().wrapping_add(1),
            final(self).state() == old(self).state(),
            final(self).channels() == old(self).channels(),
            final(self).monitor() == old(self).monitor(),
    {
        if connected {
            self.reconnect_attempts = 0;
            self.circuit_breaker = 0;
        } else {
            self.circuit_breaker = self.circuit_breaker.wrapping_add(1);
        }
    }

    /// The server asked for a reconnection, or the message stream closed:
    /// the monitor counts the link as down, and the dashboard's Twitch status
    /// turns off (the status to report, `false`, is returned). After a closed
    /// stream the reader stops; after a reconnection notice it reconnects.
    pub fn monitor_link_down(&mut self) -> (online: bool)
        requires
            old(self).monitor().disconnections() < u32::MAX,
        ensures
            !online,
            exists|now: u64|
                final(self).monitor().view_of() == #[trigger] monitor_step(
                    old(self).monitor().view_of(),
                    MonitorEvent::Disconnect(now),
                ),
            final(self).monitor().state() == crate::connection_monitor::ConnectionState::Disconnected,
            final(self).monitor().disconnections() == old(self).monitor().disconnections() + 1,
            final(self).state() == old(self).state(),
            final(self).attempts() == old(self).attempts(),
            final(self).failures() == old(self).failures(),
            final(self).channels() == old(self).channels(),
    {
        self.monitor.on_disconnect();
        false
    }

    /// After a reconnection notice, a join or a part, the monitor follows the
    /// link's state (and is left alone while reconnecting); other messages
    /// leave it as it is.
    pub fn follow_state(&mut self, event: &IrcEvent)
        requires
            old(self).monitor().disconnections() < u32::MAX,
        ensures
            (event is Reconnect || event is Join || event is Part) && old(self).state()
                == ConnectionState::Connected ==> final(self).monitor().state()
                == crate::connection_monitor::ConnectionState::Connected && final(self).monitor().disconnections()
                == old(self).monitor().disconnections(),
            (event is Reconnect || event is Join || event is Part) && old(self).state()
                == ConnectionState::Disconnected ==> final(self).monitor().state()
                == crate::connection_monitor::ConnectionState::Disconnected
                && final(self).monitor().disconnections() == old(self).monitor().disconnections() + 1,
            !((event is Reconnect || event is Join || event is Part) && old(self).state()
                != ConnectionState::Reconnecting) ==> final(self).monitor() == old(self).monitor(),
            final(self).state() == old(self).state(),
            final(self).attempts() == old(self).attempts(),
            final(self).failures() == old(self).failures(),
            final(self).channels() == old(self).channels(),
    {
        let relevant = match event {
            IrcEvent::Reconnect => true,
            IrcEvent::Join { .. } => true,
            IrcEvent::Part { .. } => true,
            _ => false,
        };
        if relevant {
            match self.state {
                ConnectionState::Connected => self.monitor.on_connect(),
                ConnectionState::Disconnected => self.monitor.on_disconnect(),
                ConnectionState::Reconnecting => {},
            }
        }
    }

    /// Where `channel` first occurs in the list.
    fn position_of(&self, channel: &str) -> (r: Option<usize>)
        ensures
            match r {
                Some(i) => i < self.channels().len() && self.channels()[i as int] == channel@ && forall|j: int|
                    0 <= j < i ==> self.channels()[j] != channel@,
                None => !self.channels().contains(channel@),
            },
    {
        let mut i: usize = 0;
        while i < self.channels.len()
            invariant
                i <= self.channels@.len(),
                forall|j: int| 0 <= j < i ==> self.channels()[j] != channel@,
            decreases self.channels@.len() - i,
        {
            if str_equal(self.channels[i].as_str(), channel) {
                return Some(i);
            }
            i = i + 1;
        }
        proof {
            if self.channels().contains(channel@) {
                let j = choose|j: int| 0 <= j < self.channels().len() && self.channels()[j] == channel@;
                assert(self.channels()[j] != channel@);
            }
        }
        None
    }

    /// Whether `channel` still has to be joined to be added: it is not in the list yet.
    pub fn needs_join(&self, channel: &str) -> (r: bool)
        ensures
            r == !self.channels().contains(channel@),
    {
        self.position_of(channel).is_none()
    }

    /// Records a channel that was joined, at the end of the list.
    pub fn push_channel(&mut self, channel: String)
        ensures
            final(self).channels() == old(self).channels().push(channel@),
            final(self).state() == old(self).state(),
            final(self).attempts() == old(self).attempts(),
            final(self).failures() == old(self).failures(),
            final(self).monitor() == old(self).monitor(),
    {
        let ghost before = self.channels@;
        self.channels.push(channel);
        assert(string_views(self.channels@) =~= string_views(before).push(channel@));
    }

    /// Removes the first occurrence of `channel` from the list; whether there
    /// was one (and so whether the channel is to be left).
    pub fn remove_channel(&mut self, channel: &str) -> (r: bool)
        ensures
            r == old(self).channels().contains(channel@),
            r ==> exists|i: int|
                0 <= i < old(self).channels().len() && old(self).channels()[i] == channel@ && (forall|j: int|
                    0 <= j < i ==> old(self).channels()[j] != channel@) && final(self).channels()
                    == old(self).channels().remove(i),
            !r ==> final(self).channels() == old(self).channels(),
            final(self).state() == old(self).state(),
            final(self).attempts() == old(self).attempts(),
            final(self).failures() == old(self).failures(),
            final(self).monitor() == old(self).monitor(),
    {
        match self.position_of(channel) {
            Some(i) => {
                let ghost before = self.channels@;
                self.channels.remove(i);
                assert(string_views(self.channels@) =~= string_views(before).remove(i as int));
                true
            },
            None => false,
        }
    }
}

/// A copy of a list of strings.
fn clone_strings(v: &Vec<String>) -> (r: Vec<String>)
    ensures
        string_views(r@) == string_views(v@),
{
    let mut r: Vec<String> = Vec::new();
    let mut i: usize = 0;
    while i < v.len()
        invariant
            i <= v@.len(),
            string_views(r@) == string_views(v@).take(i as int),
        decreases v@.len() - i,
    {
        let ghost before = r@;
        r.push(v[i].clone());
        assert(string_views(r@) =~= string_views(before).push(v@[i as int]@));
        assert(string_views(v@).take(i + 1) =~= string_views(v@).take(i as int).push(v@[i as int]@));
        i = i + 1;
    }
    assert(string_views(v@).take(v@.len() as int) =~= string_views(v@));
    r
}

} // verus!

verus! {

/// How a chat was cleared.
pub enum ClearChatKind {
    UserBanned { user_login: String, user_id: String },
    UserTimedOut { user_login: String, user_id: String, timeout_secs: u64 },
    ChatCleared,
}

/// A message from the chat server, as far as the bot reads it.
pub enum IrcEvent {
    Privmsg { channel_login: String, sender_id: String, sender_name: String, message_text: String },
    Notice { channel_login: Option<String>, message_text: String },
    Join { user_login: String, channel_login: String },
    Part { user_login: String, channel_login: String },
    UserNotice { channel_login: String, message_text: Option<String> },
    GlobalUserState { user_id: String },
    UserState { channel_login: String, user_name: String },
    RoomState { channel_login: String },
    Whisper { sender_id: String, sender_name: String, message_text: String },
    ClearChat { channel_login: String, action: ClearChatKind },
    ClearMsg { sender_login: String, channel_login: String },
    Reconnect,
    Other,
}

/// The line logged for a server message received by `username`; `debug` is
/// how the message prints with `{:?}`, for the kinds without a line of their own.
pub open spec fn log_text(username: Seq<char>, event: IrcEvent, debug: Seq<char>) -> Seq<char> {
    match event {
        IrcEvent::Privmsg { channel_login, sender_name, message_text, .. } => "["@ + channel_login@ + "] "@
            + sender_name@ + ": "@ + message_text@,
        IrcEvent::Notice { channel_login, message_text } => "[NOTICE] "@ + (match channel_login {
            Some(c) => c@,
            None => "*"@,
        }) + ": "@ + message_text@,
        IrcEvent::Join { user_login, channel_login } => "[JOIN] "@ + user_login@ + " joined "@ + channel_login@,
        IrcEvent::Part { user_login, channel_login } => "[PART] "@ + user_login@ + " left "@ + channel_login@,
        IrcEvent::UserNotice { channel_login, message_text } => "[USER NOTICE] "@ + channel_login@ + ": "@
            + (match message_text {
            Some(t) => t@,
            None => Seq::<char>::empty(),
        }),
        IrcEvent::GlobalUserState { user_id } => "[GLOBAL USER STATE] User: "@ + user_id@,
        IrcEvent::UserState { channel_login, user_name } => "[USER STATE] Channel: "@ + channel_login@
            + ", User: "@ + user_name@,
        IrcEvent::RoomState { channel_login } => "[ROOM STATE] Channel: "@ + channel_login@,
        IrcEvent::Whisper { sender_name, message_text, .. } => "[WHISPER] From "@ + sender_name@ + ": "@
            + message_text@,
        IrcEvent::ClearChat { channel_login, action } => match action {
            ClearChatKind::UserBanned { user_login, user_id } => "[CLEAR CHAT] User "@ + user_login@ + " (ID: "@
                + user_id@ + ") was banned in channel "@ + channel_login@,
            ClearChatKind::UserTimedOut { user_login, user_id, timeout_secs } => "[CLEAR CHAT] User "@
                + user_login@ + " (ID: "@ + user_id@ + ") was timed out for "@ + crate::text::decimal(
                timeout_secs as nat,
            ) + " seconds in channel "@ + channel_login@,
            ClearChatKind::ChatCleared => "[CLEAR CHAT] All chat was cleared in channel "@ + channel_login@,
        },
        IrcEvent::ClearMsg { sender_login, channel_login } => "[CLEAR MSG] Message from "@ + sender_login@
            + " was deleted in channel "@ + channel_login@,
        _ => "["@ + username + "] Received: "@ + debug,
    }
}

/// The line to log for a server message received by `username`.
pub fn log_line(username: &str, event: &IrcEvent, debug: &str) -> (r: String)
    ensures
        r@ == log_text(username@, *event, debug@),
{
    let mut r = String::new();
    match event {
        IrcEvent::Privmsg { channel_login, sender_name, message_text, .. } => {
            r.append("[");
            r.append(channel_login.as_str());
            r.append("] ");
            r.append(sender_name.as_str());
            r.append(": ");
            r.append(message_text.as_str());
        },
        IrcEvent::Notice { channel_login, message_text } => {
            r.append("[NOTICE] ");
            match channel_login {
                Some(c) => r.append(c.as_str()),
                None => r.append("*"),
            }
            r.append(": ");
            r.append(message_text.as_str());
        },
        IrcEvent::Join { user_login, channel_login } => {
            r.append("[JOIN] ");
            r.append(user_login.as_str());
            r.append(" joined ");
            r.append(channel_login.as_str());
        },
        IrcEvent::Part { user_login, channel_login } => {
            r.append("[PART] ");
            r.append(user_login.as_str());
            r.append(" left ");
            r.append(channel_login.as_str());
        },
        IrcEvent::UserNotice { channel_login, message_text } => {
            r.append("[USER NOTICE] ");
            r.append(channel_login.as_str());
            r.append(": ");
            match message_text {
                Some(t) => r.append(t.as_str()),
                None => {},
            }
        },
        IrcEvent::GlobalUserState { user_id } => {
            r.append("[GLOBAL USER STATE] User: ");
            r.append(user_id.as_str());
        },
        IrcEvent::UserState { channel_login, user_name } => {
            r.append("[USER STATE] Channel: ");
            r.append(channel_login.as_str());
            r.append(", User: ");
            r.append(user_name.as_str());
        },
        IrcEvent::RoomState { channel_login } => {
            r.append("[ROOM STATE] Channel: ");
            r.append(channel_login.as_str());
        },
        IrcEvent::Whisper { sender_name, message_text, .. } => {
            r.append("[WHISPER] From ");
            r.append(sender_name.as_str());
            r.append(": ");
            r.append(message_text.as_str());
        },
        IrcEvent::ClearChat { channel_login, action } => {
            match action {
                ClearChatKind::UserBanned { user_login, user_id } => {
                    r.append("[CLEAR CHAT] User ");
                    r.append(user_login.as_str());
                    r.append(" (ID: ");
                    r.append(user_id.as_str());
                    r.append(") was banned in channel ");
                },
                ClearChatKind::UserTimedOut { user_login, user_id, timeout_secs } => {
                    r.append("[CLEAR CHAT] User ");
                    r.append(user_login.as_str());
                    r.append(" (ID: ");
                    r.append(user_id.as_str());
                    r.append(") was timed out for ");
                    r.append(crate::text::u64_to_decimal(*timeout_secs).as_str());
                    r.append(" seconds in channel ");
                },
                ClearChatKind::ChatCleared => {
                    r.append("[CLEAR CHAT] All chat was cleared in channel ");
                },
            }
            r.append(channel_login.as_str());
        },
        IrcEvent::ClearMsg { sender_login, channel_login } => {
            r.append("[CLEAR MSG] Message from ");
            r.append(sender_login.as_str());
            r.append(" was deleted in channel ");
            r.append(channel_login.as_str());
        },
        _ => {
            r.append("[");
            r.append(username);
            r.append("] Received: ");
            r.append(debug);
        },
    }
    r
}

/// A value in a message to the dashboard.
pub enum FieldValue {
    Text(String),
    Number(i64),
}

/// A message to the dashboard: a module, an action, and named values.
pub struct DashboardMessage {
    pub module: String,
    pub action: String,
    pub data: Vec<(String, FieldValue)>,
}

/// What a dashboard message holds, as plain values.
pub open spec fn dashboard_view(m: DashboardMessage) -> (Seq<char>, Seq<char>, Seq<(Seq<char>, FieldView)>) {
    (m.module@, m.action@, m.data@.map_values(|f: (String, FieldValue)| (f.0@, field_view(f.1))))
}

/// A dashboard value as a plain value.
pub enum FieldView {
    Text(Seq<char>),
    Number(int),
}

pub open spec fn field_view(v: FieldValue) -> FieldView {
    match v {
        FieldValue::Text(s) => FieldView::Text(s@),
        FieldValue::Number(n) => FieldView::Number(n as int),
    }
}

fn text_field(name: &str, value: &str) -> (r: (String, FieldValue))
    ensures
        r.0@ == name@,
        field_view(r.1) == FieldView::Text(value@),
{
    (String::from_str(name), FieldValue::Text(String::from_str(value)))
}

fn number_field(name: &str, value: i64) -> (r: (String, FieldValue))
    ensures
        r.0@ == name@,
        field_view(r.1) == FieldView::Number(value as int),
{
    (String::from_str(name), FieldValue::Number(value))
}

/// The dashboard's Twitch status after the reconnection that a
/// reconnection notice started: on again when it succeeded; left off (no
/// update) when it failed.
pub fn status_after_reconnect(connected: bool) -> (r: Option<bool>)
    ensures
        r == (if connected { Some(true) } else { None::<bool> }),
{
    if connected {
        Some(true)
    } else {
        None
    }
}

/// What a chat account's reader does with a server message, besides logging it.
pub struct ClientReaction {
    /// Forward this to the dashboard.
    pub dashboard: Option<DashboardMessage>,
    /// Pass the message on to the command handlers.
    pub broadcast: bool,
    /// The server asked for a reconnection.
    pub reconnect: bool,
}

/// The dashboard message for a server message that the bot's own account
/// received, if it forwards one.
pub open spec fn forwarded(event: IrcEvent) -> Option<(Seq<char>, Seq<char>, Seq<(Seq<char>, FieldView)>)> {
    match event {
        IrcEvent::Privmsg { channel_login, sender_id, sender_name, message_text } => Some(
            (
                "twitch"@,
                "new_message"@,
                seq![
                    ("message"@, FieldView::Text(message_text@)),
                    ("user_id"@, FieldView::Text(sender_id@)),
                    ("user_name"@, FieldView::Text(sender_name@)),
                    ("channel"@, FieldView::Text(channel_login@)),
                ],
            ),
        ),
        IrcEvent::Whisper { sender_id, sender_name, message_text } => Some(
            (
                "twitch"@,
                "new_whisper"@,
                seq![
                    ("message"@, FieldView::Text(message_text@)),
                    ("user_id"@, FieldView::Text(sender_id@)),
                    ("user_name"@, FieldView::Text(sender_name@)),
                ],
            ),
        ),
        IrcEvent::Join { user_login, channel_login } => Some(
            (
                "twitch"@,
                "user_joined"@,
                seq![("user_name"@, FieldView::Text(user_login@)), ("channel"@, FieldView::Text(channel_login@))],
            ),
        ),
        IrcEvent::Part { user_login, channel_login } => Some(
            (
                "twitch"@,
                "user_left"@,
                seq![("user_name"@, FieldView::Text(user_login@)), ("channel"@, FieldView::Text(channel_login@))],
            ),
        ),
        _ => None,
    }
}

fn dashboard_message(module: &str, action: &str, data: Vec<(String, FieldValue)>) -> (r: DashboardMessage)
    ensures
        r.module@ == module@,
        r.action@ == action@,
        r.data == data,
{
    DashboardMessage { module: String::from_str(module), action: String::from_str(action), data }
}

/// How the reader of `username`'s account reacts to a server message: the
/// bot's own account forwards chat messages, whispers, joins and parts to the
/// dashboard, and passes chat messages and whispers on to the command
/// handlers; any account reconnects when the server asks.
pub fn react_to_message(username: &str, bot_username: &str, event: &IrcEvent) -> (r: ClientReaction)
    ensures
        match r.dashboard {
            Some(m) => username@ == bot_username@ && forwarded(*event) == Some(dashboard_view(m)),
            None => username@ != bot_username@ || forwarded(*event) is None,
        },
        r.broadcast == (username@ == bot_username@ && (event is Privmsg || event is Whisper)),
        r.reconnect == event is Reconnect,
{
    let is_bot = str_equal(username, bot_username);
    match event {
        IrcEvent::Privmsg { channel_login, sender_id, sender_name, message_text } => {
            if !is_bot {
                return ClientReaction { dashboard: None, broadcast: false, reconnect: false };
            }
            let mut data: Vec<(String, FieldValue)> = Vec::new();
            data.push(text_field("message", message_text.as_str()));
            data.push(text_field("user_id", sender_id.as_str()));
            data.push(text_field("user_name", sender_name.as_str()));
            data.push(text_field("channel", channel_login.as_str()));
            let m = dashboard_message("twitch", "new_message", data);
            assert(dashboard_view(m).2 =~= forwarded(*event).unwrap().2);
            ClientReaction { dashboard: Some(m), broadcast: true, reconnect: false }
        },
        IrcEvent::Whisper { sender_id, sender_name, message_text } => {
            if !is_bot {
                return ClientReaction { dashboard: None, broadcast: false, reconnect: false };
            }
            let mut data: Vec<(String, FieldValue)> = Vec::new();
            data.push(text_field("message", message_text.as_str()));
            data.push(text_field("user_id", sender_id.as_str()));
            data.push(text_field("user_name", sender_name.as_str()));
            let m = dashboard_message("twitch", "new_whisper", data);
            assert(dashboard_view(m).2 =~= forwarded(*event).unwrap().2);
            ClientReaction { dashboard: Some(m), broadcast: true, reconnect: false }
        },
        IrcEvent::Join { user_login, channel_login } => {
            if !is_bot {
                return ClientReaction { dashboard: None, broadcast: false, reconnect: false };
            }
            let mut data: Vec<(String, FieldValue)> = Vec::new();
            data.push(text_field("user_name", user_login.as_str()));
            data.push(text_field("channel", channel_login.as_str()));
            let m = dashboard_message("twitch", "user_joined", data);
            assert(dashboard_view(m).2 =~= forwarded(*event).unwrap().2);
            ClientReaction { dashboard: Some(m), broadcast: false, reconnect: false }
        },
        IrcEvent::Part { user_login, channel_login } => {
            if !is_bot {
                return ClientReaction { dashboard: None, broadcast: false, reconnect: false };
            }
            let mut data: Vec<(String, FieldValue)> = Vec::new();
            data.push(text_field("user_name", user_login.as_str()));
            data.push(text_field("channel", channel_login.as_str()));
            let m = dashboard_message("twitch", "user_left", data);
            assert(dashboard_view(m).2 =~= forwarded(*event).unwrap().2);
            ClientReaction { dashboard: Some(m), broadcast: false, reconnect: false }
        },
        IrcEvent::Reconnect => ClientReaction { dashboard: None, broadcast: false, reconnect: true },
        _ => ClientReaction { dashboard: None, broadcast: false, reconnect: false },
    }
}

/// A request from the dashboard to the chat accounts.
pub enum DashboardRequest {
    SendMessage { username: String, channel: String, content: String },
    JoinChannel { username: String, channel: String },
    LeaveChannel { username: String, channel: String },
    ChannelInfo { channel: String },
    BotStatus { username: String },
}

/// Reads a dashboard request from its action and its `channel`, `content`
/// and `username` values: each action needs some of them, looked for in
/// that order, and the first one missing is the error.
pub fn parse_dashboard_request(
    action: &str,
    channel: Option<String>,
    content: Option<String>,
    username: Option<String>,
) -> (r: Result<DashboardRequest, String>)
    ensures
        action@ == "send_message"@ ==> match (channel, content, username) {
            (None, _, _) => r is Err && r->Err_0@ == "Missing channel"@,
            (Some(_), None, _) => r is Err && r->Err_0@ == "Missing content"@,
            (Some(_), Some(_), None) => r is Err && r->Err_0@ == "Missing username"@,
            (Some(ch), Some(co), Some(u)) => r matches Ok(DashboardRequest::SendMessage { username: ru, channel: rc, content: rco })
                && ru == u && rc == ch && rco == co,
        },
        action@ == "join_channel"@ || action@ == "leave_channel"@ ==> match (channel, username) {
            (None, _) => r is Err && r->Err_0@ == "Missing channel"@,
            (Some(_), None) => r is Err && r->Err_0@ == "Missing username"@,
            (Some(ch), Some(u)) => if action@ == "join_channel"@ {
                r matches Ok(DashboardRequest::JoinChannel { username: ru, channel: rc }) && ru == u && rc == ch
            } else {
                r matches Ok(DashboardRequest::LeaveChannel { username: ru, channel: rc }) && ru == u && rc == ch
            },
        },
        action@ == "get_channel_info"@ ==> match channel {
            None => r is Err && r->Err_0@ == "Missing channel"@,
            Some(ch) => r matches Ok(DashboardRequest::ChannelInfo { channel: rc }) && rc == ch,
        },
        action@ == "get_bot_status"@ ==> match username {
            None => r is Err && r->Err_0@ == "Missing username"@,
            Some(u) => r matches Ok(DashboardRequest::BotStatus { username: ru }) && ru == u,
        },
        !(action@ == "send_message"@ || action@ == "join_channel"@ || action@ == "leave_channel"@ || action@
            == "get_channel_info"@ || action@ == "get_bot_status"@) ==> r is Err && r->Err_0@
            == "Unknown Twitch IRC action: "@ + action@,
{
    proof {
        reveal_strlit("send_message");
        reveal_strlit("join_channel");
        reveal_strlit("leave_channel");
        reveal_strlit("get_channel_info");
        reveal_strlit("get_bot_status");
        assert("send_message"@.len() == 12);
        assert("join_channel"@.len() == 12);
        assert("leave_channel"@.len() == 13);
        assert("get_channel_info"@.len() == 16);
        assert("get_bot_status"@.len() == 14);
        assert("send_message"@[0] != "join_channel"@[0]);
        assert("send_message"@ != "join_channel"@);
    }
    if str_equal(action, "send_message") {
        match (channel, content, username) {
            (None, _, _) => Err(String::from_str("Missing channel")),
            (Some(_), None, _) => Err(String::from_str("Missing content")),
            (Some(_), Some(_), None) => Err(String::from_str("Missing username")),
            (Some(channel), Some(content), Some(username)) => Ok(
                DashboardRequest::SendMessage { username, channel, content },
            ),
        }
    } else if str_equal(action, "join_channel") || str_equal(action, "leave_channel") {
        match (channel, username) {
            (None, _) => Err(String::from_str("Missing channel")),
            (Some(_), None) => Err(String::from_str("Missing username")),
            (Some(channel), Some(username)) => if str_equal(action, "join_channel") {
                Ok(DashboardRequest::JoinChannel { username, channel })
            } else {
                Ok(DashboardRequest::LeaveChannel { username, channel })
            },
        }
    } else if str_equal(action, "get_channel_info") {
        match channel {
            None => Err(String::from_str("Missing channel")),
            Some(channel) => Ok(DashboardRequest::ChannelInfo { channel }),
        }
    } else if str_equal(action, "get_bot_status") {
        match username {
            None => Err(String::from_str("Missing username")),
            Some(username) => Ok(DashboardRequest::BotStatus { username }),
        }
    } else {
        let mut e = String::from_str("Unknown Twitch IRC action: ");
        e.append(action);
        Err(e)
    }
}

/// The answer to `get_channel_info`: fixed counts for now.
pub fn channel_info_response(channel: &str) -> (r: DashboardMessage)
    ensures
        dashboard_view(r) == (
            "twitch"@,
            "channel_info"@,
            seq![
                ("channel"@, FieldView::Text(channel@)),
                ("viewers"@, FieldView::Number(0)),
                ("followers"@, FieldView::Number(0)),
                ("subscribers"@, FieldView::Number(0)),
            ],
        ),
{
    let mut data: Vec<(String, FieldValue)> = Vec::new();
    data.push(text_field("channel", channel));
    data.push(number_field("viewers", 0));
    data.push(number_field("followers", 0));
    data.push(number_field("subscribers", 0));
    let m = dashboard_message("twitch", "channel_info", data);
    assert(dashboard_view(m).2 =~= seq![
        ("channel"@, FieldView::Text(channel@)),
        ("viewers"@, FieldView::Number(0)),
        ("followers"@, FieldView::Number(0)),
        ("subscribers"@, FieldView::Number(0)),
    ]);
    m
}

/// The answer to `get_bot_status`: whether `username` has a chat client.
pub fn bot_status_response(username: &str, has_client: bool) -> (r: DashboardMessage)
    ensures
        dashboard_view(r) == (
            "twitch"@,
            "bot_status"@,
            seq![
                ("username"@, FieldView::Text(username@)),
                ("status"@, FieldView::Text(if has_client { "connected"@ } else { "disconnected"@ })),
            ],
        ),
{
    let mut data: Vec<(String, FieldValue)> = Vec::new();
    data.push(text_field("username", username));
    if has_client {
        data.push(text_field("status", "connected"));
    } else {
        data.push(text_field("status", "disconnected"));
    }
    let m = dashboard_message("twitch", "bot_status", data);
    assert(dashboard_view(m).2 =~= seq![
        ("username"@, FieldView::Text(username@)),
        ("status"@, FieldView::Text(if has_client { "connected"@ } else { "disconnected"@ })),
    ]);
    m
}

/// A token with every leading `oauth:` taken off (`trim_start_matches`).
pub open spec fn without_oauth_prefix(token: Seq<char>) -> Seq<char>
    decreases token.len(),
{
    if token.len() >= 6 && token.take(6) == "oauth:"@ {
        without_oauth_prefix(token.skip(6))
    } else {
        token
    }
}

/// What the chat accounts are to do for a dashboard request.
pub enum DashboardAction {
    /// `username`'s client says `content` in `channel`.
    Say { username: String, channel: String, content: String },
    /// `username`'s client joins `channel`.
    Join { username: String, channel: String },
    /// `username`'s client leaves `channel`.
    Part { username: String, channel: String },
    /// This answer goes to the dashboard.
    Respond(DashboardMessage),
}

/// Whether `names` holds `name`.
fn holds_name(names: &Vec<String>, name: &str) -> (r: bool)
    ensures
        r == string_views(names@).contains(name@),
{
    let mut i: usize = 0;
    while i < names.len()
        invariant
            i <= names.len(),
            forall|j: int| 0 <= j < i ==> names@[j]@ != name@,
        decreases names.len() - i,
    {
        if str_equal(names[i].as_str(), name) {
            assert(string_views(names@)[i as int] == name@);
            return true;
        }
        i = i + 1;
    }
    proof {
        if string_views(names@).contains(name@) {
            let j = choose|j: int| 0 <= j < string_views(names@).len() && string_views(names@)[j] == name@;
            assert(names@[j]@ == name@);
        }
    }
    false
}

/// What a dashboard request comes to, given the accounts that have a chat
/// client (`clients`): sending, joining and leaving need the account's
/// client, else the request fails with `Client not found`; the channel
/// information and the bot status are answered to the dashboard.
pub fn dashboard_action(request: DashboardRequest, clients: &Vec<String>) -> (r: Result<DashboardAction, String>)
    ensures
        match request {
            DashboardRequest::SendMessage { username, channel, content } => if string_views(clients@).contains(
                username@,
            ) {
                r matches Ok(DashboardAction::Say { username: u, channel: c, content: m }) && u == username && c
                    == channel && m == content
            } else {
                r matches Err(e) && e@ == "Client not found"@
            },
            DashboardRequest::JoinChannel { username, channel } => if string_views(clients@).contains(username@) {
                r matches Ok(DashboardAction::Join { username: u, channel: c }) && u == username && c == channel
            } else {
                r matches Err(e) && e@ == "Client not found"@
            },
            DashboardRequest::LeaveChannel { username, channel } => if string_views(clients@).contains(username@) {
                r matches Ok(DashboardAction::Part { username: u, channel: c }) && u == username && c == channel
            } else {
                r matches Err(e) && e@ == "Client not found"@
            },
            DashboardRequest::ChannelInfo { channel } => r matches Ok(DashboardAction::Respond(m)) && dashboard_view(m)
                == (
                "twitch"@,
                "channel_info"@,
                seq![
                    ("channel"@, FieldView::Text(channel@)),
                    ("viewers"@, FieldView::Number(0)),
                    ("followers"@, FieldView::Number(0)),
                    ("subscribers"@, FieldView::Number(0)),
                ],
            ),
            DashboardRequest::BotStatus { username } => r matches Ok(DashboardAction::Respond(m)) && dashboard_view(m)
                == (
                "twitch"@,
                "bot_status"@,
                seq![
                    ("username"@, FieldView::Text(username@)),
                    (
                        "status"@,
                        FieldView::Text(
                            if string_views(clients@).contains(username@) {
                                "connected"@
                            } else {
                                "disconnected"@
                            },
                        ),
                    ),
                ],
            ),
        },
{
    match request {
        DashboardRequest::SendMessage { username, channel, content } => {
            if holds_name(clients, username.as_str()) {
                Ok(DashboardAction::Say { username, channel, content })
            } else {
                Err(String::from_str("Client not found"))
            }
        },
        DashboardRequest::JoinChannel { username, channel } => {
            if holds_name(clients, username.as_str()) {
                Ok(DashboardAction::Join { username, channel })
            } else {
                Err(String::from_str("Client not found"))
            }
        },
        DashboardRequest::LeaveChannel { username, channel } => {
            if holds_name(clients, username.as_str()) {
                Ok(DashboardAction::Part { username, channel })
            } else {
                Err(String::from_str("Client not found"))
            }
        },
        DashboardRequest::ChannelInfo { channel } => Ok(
            DashboardAction::Respond(channel_info_response(channel.as_str())),
        ),
        DashboardRequest::BotStatus { username } => {
            let has = holds_name(clients, username.as_str());
            Ok(DashboardAction::Respond(bot_status_response(username.as_str(), has)))
        },
    }
}

/// The token to log in with: every leading `oauth:` taken off.
#[verifier::spinoff_prover]
pub fn clean_oauth_token(token: &str) -> (r: String)
    ensures
        r@ == without_oauth_prefix(token@),
{
    let cs = crate::text::chars_of(token);
    let mut i: usize = 0;
    assert(token@.skip(0) =~= token@);
    while cs.len() >= 6 && i <= cs.len() - 6 && cs[i] == 'o' && cs[i + 1] == 'a' && cs[i + 2] == 'u'
        && cs[i + 3] == 't' && cs[i + 4] == 'h' && cs[i + 5] == ':'
        invariant
            i <= cs@.len(),
            cs@ == token@,
            without_oauth_prefix(token@) == without_oauth_prefix(token@.skip(i as int)),
        decreases cs@.len() - i,
    {
        proof {
            reveal_strlit("oauth:");
        }
        let ghost rest = token@.skip(i as int);
        assert(rest.take(6) =~= "oauth:"@);
        assert(rest.skip(6) =~= token@.skip(i + 6));
        i = i + 6;
    }
    proof {
        reveal_strlit("oauth:");
    }
    let ghost rest = token@.skip(i as int);
    assert(!(rest.len() >= 6 && rest.take(6) == "oauth:"@)) by {
        if rest.len() >= 6 && rest.take(6) == "oauth:"@ {
            assert(rest.take(6)[0] == 'o');
            assert(rest.take(6)[1] == 'a');
            assert(rest.take(6)[2] == 'u');
            assert(rest.take(6)[3] == 't');
            assert(rest.take(6)[4] == 'h');
            assert(rest.take(6)[5] == ':');
        }
    }
    let tail = crate::text::slice_range(cs.as_slice(), i, cs.len());
    assert(tail@ =~= rest);
    crate::text::string_from_chars(tail.as_slice())
}

/// Whether a new chat account's messages are read by the bot: only where
/// asked, and only for the bot's own account.
pub fn handles_messages(handle_messages: bool, username: &str, bot_username: &str) -> (r: bool)
    ensures
        r == (handle_messages && username@ == bot_username@),
{
    handle_messages && str_equal(username, bot_username)
}

} // verus!

verus! {

/// The pause before a chat reconnection doubles with each attempt, starting
/// at two seconds, and never exceeds 64 seconds.
pub proof fn law_reconnect_backoff_capped(attempts: u32)
    ensures
        2 <= backoff_secs(attempts) || attempts == 0,
        backoff_secs(attempts) <= 64,
        1 <= attempts < 6 ==> backoff_secs((attempts + 1) as u32) == 2 * backoff_secs(attempts),
        attempts >= 6 ==> backoff_secs(attempts) == 64,
{
    vstd::arithmetic::power2::lemma2_to64();
    let e: nat = (if attempts < 6 { attempts } else { 6 }) as nat;
    if e < 6 {
        vstd::arithmetic::power2::lemma_pow2_strictly_increases(e, 6);
    }
    if 1 <= attempts < 6 {
        vstd::arithmetic::power2::lemma_pow2_unfold((attempts + 1) as nat);
    }
    if attempts >= 1 {
        if e > 1 {
            vstd::arithmetic::power2::lemma_pow2_strictly_increases(1, e);
        }
    }
}

} // verus!
