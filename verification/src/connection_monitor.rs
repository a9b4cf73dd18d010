use vstd::prelude::*;
use crate::clock::{Clock, elapsed_ms, elapsed_since};

verus! {

/// The state of the chat connection, as the monitor last saw it.
#[derive(Debug, Clone, Copy, PartialEq, Eq, Structural)]
pub enum ConnectionState {
    Connected,
    Disconnected,
    Reconnecting,
}

/// Uptime and disconnection bookkeeping for the chat connection.
pub struct ConnectionMonitor {
    clock: Clock,
    last_connected: Option<u64>,
    last_message_received: Option<u64>,
    disconnection_count: u32,
    total_uptime: u64,
    connection_state: ConnectionState,
}

/// `a + b`, or `u64::MAX` where that does not fit.
pub open spec fn saturating_sum(a: u64, b: nat) -> u64 {
    if a + b <= u64::MAX { (a + b) as u64 } else { u64::MAX }
}

/// What the monitor records at one call: the link came up, went down, or a
/// message arrived, each at a time; or a reconnection started.
pub enum MonitorEvent {
    Connect(u64),
    Disconnect(u64),
    Message(u64),
    Reconnecting,
}

/// A monitor as plain values: when the link came up (if it is up), when the
/// last message arrived, the disconnections, the counted uptime, the state.
pub type MonitorView = (Option<u64>, Option<u64>, u32, u64, ConnectionState);

/// The uptime `uptime` after also counting a connection open since `since`
/// (if any) up to `now`.
pub open spec fn uptime_with(since: Option<u64>, uptime: u64, now: u64) -> u64 {
    match since {
        Some(s) => saturating_sum(uptime, elapsed_since(now, s)),
        None => uptime,
    }
}

/// The monitor of a link that has never been up.
pub open spec fn monitor_initial() -> MonitorView {
    (None, None, 0, 0, ConnectionState::Disconnected)
}

/// What one call does to the monitor.
pub open spec fn monitor_step(v: MonitorView, e: MonitorEvent) -> MonitorView {
    match e {
        MonitorEvent::Connect(now) => (Some(now), v.1, v.2, uptime_with(v.0, v.3, now), ConnectionState::Connected),
        MonitorEvent::Disconnect(now) => (
            None,
            v.1,
            (v.2 + 1) as u32,
            uptime_with(v.0, v.3, now),
            ConnectionState::Disconnected,
        ),
        MonitorEvent::Message(now) => (v.0, Some(now), v.2, v.3, v.4),
        MonitorEvent::Reconnecting => (v.0, v.1, v.2, v.3, ConnectionState::Reconnecting),
    }
}

/// The monitor after the calls `es`, in order, from `v`.
pub open spec fn monitor_run(v: MonitorView, es: Seq<MonitorEvent>) -> MonitorView
    decreases es.len(),
{
    if es.len() == 0 {
        v
    } else {
        monitor_step(monitor_run(v, es.drop_last()), es.last())
    }
}

/// How many of the calls `es` record a disconnection.
pub open spec fn disconnects_in(es: Seq<MonitorEvent>) -> nat
    decreases es.len(),
{
    if es.len() == 0 {
        0
    } else {
        disconnects_in(es.drop_last()) + if es.last() is Disconnect { 1nat } else { 0nat }
    }
}

impl ConnectionMonitor {
    /// The monitor as plain values.
    pub open spec fn view_of(self) -> MonitorView {
        (self.connected_since(), self.last_message(), self.disconnections(), self.uptime(), self.state())
    }

    /// When the current connection was made, if the link is up.
    pub closed spec fn connected_since(self) -> Option<u64> {
        self.last_connected
    }

    /// When the last message arrived, if one has.
    pub closed spec fn last_message(self) -> Option<u64> {
        self.last_message_received
    }

    /// How many times the link went down.
    pub closed spec fn disconnections(self) -> u32 {
        self.disconnection_count
    }

    /// The connected time counted so far, in milliseconds.
    pub closed spec fn uptime(self) -> u64 {
        self.total_uptime
    }

    pub closed spec fn state(self) -> ConnectionState {
        self.connection_state
    }

    /// The uptime after also counting the time connected up to `now`.
    pub open spec fn uptime_until(self, now: u64) -> u64 {
        match self.connected_since() {
            Some(since) => saturating_sum(self.uptime(), elapsed_since(now, since)),
            None => self.uptime(),
        }
    }

    /// A monitor for a link that has never been up.
    pub fn new() -> (m: Self)
        ensures
            m.connected_since() is None,
            m.last_message() is None,
            m.disconnections() == 0,
            m.uptime() == 0,
            m.state() == ConnectionState::Disconnected,
            m.view_of() == monitor_initial(),
    {
        ConnectionMonitor {
            clock: Clock::start(),
            last_connected: None,
            last_message_received: None,
            disconnection_count: 0,
            total_uptime: 0,
            connection_state: ConnectionState::Disconnected,
        }
    }

    fn add_uptime(&mut self, now: u64)
        ensures
            final(self).uptime() == old(self).uptime_until(now),
            final(self).connected_since() == old(self).connected_since(),
            final(self).last_message() == old(self).last_message(),
            final(self).disconnections() == old(self).disconnections(),
            final(self).state() == old(self).state(),
    {
        if let Some(last) = self.last_connected {
            let e = elapsed_ms(now, last);
            self.total_uptime = self.total_uptime.saturating_add(e);
        }
    }

    /// Records that the link came up at `now`; a link that was already up has
    /// its time so far counted.
    pub fn on_connect_at(&mut self, now: u64)
        ensures
            final(self).uptime() == old(self).uptime_until(now),
            final(self).connected_since() == Some(now),
            final(self).state() == ConnectionState::Connected,
            final(self).disconnections() == old(self).disconnections(),
            final(self).last_message() == old(self).last_message(),
            final(self).view_of() == monitor_step(old(self).view_of(), MonitorEvent::Connect(now)),
    {
        self.add_uptime(now);
        self.last_connected = Some(now);
        self.connection_state = ConnectionState::Connected;
    }

    /// Records that the link came up now.
    pub fn on_connect(&mut self)
        ensures
            exists|now: u64|
                final(self).uptime() == old(self).uptime_until(now) && final(self).connected_since()
                    == Some(now),
            final(self).state() == ConnectionState::Connected,
            final(self).disconnections() == old(self).disconnections(),
            final(self).last_message() == old(self).last_message(),
            exists|now: u64| final(self).view_of() == #[trigger] monitor_step(old(self).view_of(), MonitorEvent::Connect(now)),
    {
        let now = self.clock.now_millis();
        self.on_connect_at(now);
    }

    /// Records that the link went down at `now`, counting its connected time.
    pub fn on_disconnect_at(&mut self, now: u64)
        requires
            old(self).disconnections() < u32::MAX,
        ensures
            final(self).disconnections() == old(self).disconnections() + 1,
            final(self).uptime() == old(self).uptime_until(now),
            final(self).connected_since() is None,
            final(self).state() == ConnectionState::Disconnected,
            final(self).last_message() == old(self).last_message(),
            final(self).view_of() == monitor_step(old(self).view_of(), MonitorEvent::Disconnect(now)),
    {
        self.disconnection_count = self.disconnection_count + 1;
        self.add_uptime(now);
        self.last_connected = None;
        self.connection_state = ConnectionState::Disconnected;
    }

    /// Records that the link went down now.
    pub fn on_disconnect(&mut self)
        requires
            old(self).disconnections() < u32::MAX,
        ensures
            final(self).disconnections() == old(self).disconnections() + 1,
            exists|now: u64| final(self).uptime() == old(self).uptime_until(now),
            final(self).connected_since() is None,
            final(self).state() == ConnectionState::Disconnected,
            final(self).last_message() == old(self).last_message(),
            exists|now: u64| final(self).view_of() == #[trigger] monitor_step(old(self).view_of(), MonitorEvent::Disconnect(now)),
    {
        let now = self.clock.now_millis();
        self.on_disconnect_at(now);
    }

    /// Records that a message arrived at `now`.
    pub fn on_message_received_at(&mut self, now: u64)
        ensures
            final(self).last_message() == Some(now),
            final(self).connected_since() == old(self).connected_since(),
            final(self).disconnections() == old(self).disconnections(),
            final(self).uptime() == old(self).uptime(),
            final(self).state() == old(self).state(),
            final(self).view_of() == monitor_step(old(self).view_of(), MonitorEvent::Message(now)),
    {
        self.last_message_received = Some(now);
    }

    /// Records that a message arrived now.
    pub fn on_message_received(&mut self)
        ensures
            final(self).last_message() is Some,
            final(self).connected_since() == old(self).connected_since(),
            final(self).disconnections() == old(self).disconnections(),
            final(self).uptime() == old(self).uptime(),
            final(self).state() == old(self).state(),
            exists|now: u64| final(self).view_of() == #[trigger] monitor_step(old(self).view_of(), MonitorEvent::Message(now)),
    {
        let now = self.clock.now_millis();
        self.on_message_received_at(now);
    }

    /// Records that a reconnection is under way.
    pub fn start_reconnecting(&mut self)
        ensures
            final(self).state() == ConnectionState::Reconnecting,
            final(self).connected_since() == old(self).connected_since(),
            final(self).last_message() == old(self).last_message(),
            final(self).disconnections() == old(self).disconnections(),
            final(self).uptime() == old(self).uptime(),
            final(self).view_of() == monitor_step(old(self).view_of(), MonitorEvent::Reconnecting),
    {
        self.connection_state = ConnectionState::Reconnecting;
    }

    pub open spec fn stale_at(self, timeout_ms: u64, now: u64) -> bool {
        match self.last_message() {
            Some(last) => elapsed_since(now, last) > timeout_ms,
            None => true,
        }
    }

    /// Whether no message arrived within `timeout_ms` before `now` (always so
    /// when none ever arrived).
    pub fn is_connection_stale_at(&self, timeout_ms: u64, now: u64) -> (r: bool)
        ensures
            r == self.stale_at(timeout_ms, now),
    {
        match self.last_message_received {
            Some(last) => elapsed_ms(now, last) > timeout_ms,
            None => true,
        }
    }

    /// Whether no message arrived within the last `timeout_ms` milliseconds.
    pub fn is_connection_stale(&self, timeout_ms: u64) -> (r: bool)
        ensures
            exists|now: u64| r == self.stale_at(timeout_ms, now),
            self.last_message() is None ==> r,
    {
        let now = self.clock.now_millis();
        self.is_connection_stale_at(timeout_ms, now)
    }

    pub fn total_uptime_ms(&self) -> (r: u64)
        ensures
            r == self.uptime(),
    {
        self.total_uptime
    }

    pub fn disconnection_count(&self) -> (r: u32)
        ensures
            r == self.disconnections(),
    {
        self.disconnection_count
    }

    pub fn connection_state(&self) -> (r: ConnectionState)
        ensures
            r == self.state(),
    {
        self.connection_state
    }
}

/// Counted uptime never goes down, and the time of one connection is counted
/// once: after a disconnection, a second one adds nothing.
pub proof fn law_uptime_counted_once(m: ConnectionMonitor, now: u64, later: u64)
    ensures
        m.uptime_until(now) >= m.uptime(),
        m.connected_since() is None ==> m.uptime_until(later) == m.uptime(),
{
}

/// Over any sequence of calls from a fresh monitor: the disconnection count
/// is the number of disconnections recorded; neither it nor the counted
/// uptime ever goes down along the way; and while the link is down no call
/// adds uptime, so each stretch of connected time is counted once.
pub proof fn law_monitor_over_calls(es: Seq<MonitorEvent>, i: int, j: int, v: MonitorView, e: MonitorEvent)
    requires
        disconnects_in(es) < u32::MAX,
        0 <= i <= j <= es.len(),
    ensures
        monitor_run(monitor_initial(), es).2 == disconnects_in(es),
        monitor_run(monitor_initial(), es.take(i)).2 <= monitor_run(monitor_initial(), es.take(j)).2,
        monitor_run(monitor_initial(), es.take(i)).3 <= monitor_run(monitor_initial(), es.take(j)).3,
        v.0 is None ==> monitor_step(v, e).3 == v.3,
{
    lemma_run_counts(es);
    lemma_run_grows(es, i, j);
}

proof fn lemma_disconnects_prefix(es: Seq<MonitorEvent>, k: int)
    requires
        0 <= k <= es.len(),
    ensures
        disconnects_in(es.take(k)) <= disconnects_in(es),
    decreases es.len(),
{
    if k < es.len() {
        assert(es.drop_last().take(k) =~= es.take(k));
        lemma_disconnects_prefix(es.drop_last(), k);
    } else {
        assert(es.take(k) =~= es);
    }
}

proof fn lemma_run_counts(es: Seq<MonitorEvent>)
    requires
        disconnects_in(es) < u32::MAX,
    ensures
        monitor_run(monitor_initial(), es).2 == disconnects_in(es),
    decreases es.len(),
{
    if es.len() > 0 {
        lemma_run_counts(es.drop_last());
    }
}

proof fn lemma_run_grows(es: Seq<MonitorEvent>, i: int, j: int)
    requires
        disconnects_in(es) < u32::MAX,
        0 <= i <= j <= es.len(),
    ensures
        monitor_run(monitor_initial(), es.take(i)).2 <= monitor_run(monitor_initial(), es.take(j)).2,
        monitor_run(monitor_initial(), es.take(i)).3 <= monitor_run(monitor_initial(), es.take(j)).3,
    decreases j - i,
{
    if i < j {
        lemma_run_grows(es, i, j - 1);
        let p = es.take(j);
        assert(p.drop_last() =~= es.take(j - 1));
        lemma_disconnects_prefix(es, j);
        lemma_run_counts(p);
        lemma_run_counts(es.take(j - 1));
        assert(disconnects_in(es.take(j - 1)) <= disconnects_in(p));
    }
}

} // verus!
