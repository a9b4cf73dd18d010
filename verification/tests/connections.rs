use twitch_bot::connection_monitor::ConnectionMonitor;
use twitch_bot::eventsub::client::{
    EventSubSession, KeepaliveVerdict, SocketMessageKind, TwitchEventSubError, calculate_backoff, classify_message,
    describe_close_code, eventsub_subscriptions, reconnect_target,
};
use twitch_bot::irc::client::{
    ClearChatKind, ConnectionState, DashboardAction, DashboardRequest, dashboard_action, FieldValue, IrcConnection, IrcEvent, bot_status_response,
    channel_info_response, clean_oauth_token, handles_messages, log_line, parse_dashboard_request, react_to_message,
};

fn strings(v: &[&str]) -> Vec<String> {
    v.iter().map(|s| s.to_string()).collect()
}

#[test]
fn irc_connection_connects_once() {
    let mut c = IrcConnection::new(strings(&["chan"]));
    assert_eq!(c.get_state(), ConnectionState::Disconnected);
    assert_eq!(c.begin_connect(), Some(strings(&["chan"])));
    assert_eq!(c.get_state(), ConnectionState::Connected);
    assert_eq!(c.begin_connect(), None);
    c.finish_connect();
    assert_eq!(c.disconnect(), Some(strings(&["chan"])));
    assert_eq!(c.disconnect(), None);
    assert_eq!(c.get_monitor_status().1, 1);
}

#[test]
fn irc_reconnection_backs_off_then_gives_up() {
    let mut c = IrcConnection::new(strings(&[]));
    let mut waits = Vec::new();
    for _ in 0..5 {
        let plan = c.begin_reconnect();
        assert_eq!(c.get_state(), ConnectionState::Reconnecting);
        waits.push(plan.backoff_secs.unwrap());
    }
    assert_eq!(waits, vec![2, 4, 8, 16, 32]);
    let plan = c.begin_reconnect();
    assert_eq!(plan.backoff_secs, None);
    assert_eq!(c.get_state(), ConnectionState::Disconnected);
}

#[test]
fn irc_circuit_breaker_opens_after_three_failures() {
    let mut c = IrcConnection::new(strings(&[]));
    for _ in 0..3 {
        let plan = c.begin_reconnect();
        assert_eq!(plan.circuit_wait_secs, None);
        c.finish_reconnect(false);
    }
    let plan = c.begin_reconnect();
    assert_eq!(plan.circuit_wait_secs, Some(300));
    assert_eq!(plan.backoff_secs, Some(16));
    c.finish_reconnect(true);
    let plan = c.begin_reconnect();
    assert_eq!(plan.backoff_secs, Some(2));
}

#[test]
fn irc_channel_list() {
    let mut c = IrcConnection::new(strings(&["a", "b"]));
    assert!(!c.needs_join("a"));
    assert!(c.needs_join("c"));
    c.push_channel("c".to_string());
    assert!(!c.needs_join("c"));
    assert!(c.remove_channel("a"));
    assert!(!c.remove_channel("a"));
    assert!(c.needs_join("a"));
}

#[test]
fn monitor_counts_uptime() {
    let mut m = ConnectionMonitor::new();
    m.on_connect_at(1_000);
    m.on_disconnect_at(4_000);
    assert_eq!(m.total_uptime_ms(), 3_000);
    assert_eq!(m.disconnection_count(), 1);
    m.on_connect_at(10_000);
    m.on_connect_at(12_000);
    m.on_disconnect_at(13_000);
    assert_eq!(m.total_uptime_ms(), 6_000);
    assert!(m.is_connection_stale_at(10, 0));
    m.on_message_received_at(100);
    assert!(!m.is_connection_stale_at(10, 110));
    assert!(m.is_connection_stale_at(10, 111));
}

#[test]
fn server_messages_are_logged() {
    let privmsg = IrcEvent::Privmsg {
        channel_login: "chan".to_string(),
        sender_id: "1".to_string(),
        sender_name: "bob".to_string(),
        message_text: "hi".to_string(),
    };
    assert_eq!(log_line("bot", &privmsg, ""), "[chan] bob: hi");
    let notice = IrcEvent::Notice { channel_login: None, message_text: "n".to_string() };
    assert_eq!(log_line("bot", &notice, ""), "[NOTICE] *: n");
    let timeout = IrcEvent::ClearChat {
        channel_login: "chan".to_string(),
        action: ClearChatKind::UserTimedOut { user_login: "x".to_string(), user_id: "9".to_string(), timeout_secs: 600 },
    };
    assert_eq!(log_line("bot", &timeout, ""), "[CLEAR CHAT] User x (ID: 9) was timed out for 600 seconds in channel chan");
    assert_eq!(log_line("bot", &IrcEvent::Other, "Pong"), "[bot] Received: Pong");
}

#[test]
fn bot_account_forwards_chat_to_the_dashboard() {
    let privmsg = IrcEvent::Privmsg {
        channel_login: "chan".to_string(),
        sender_id: "1".to_string(),
        sender_name: "bob".to_string(),
        message_text: "hi".to_string(),
    };
    let r = react_to_message("bot", "bot", &privmsg);
    assert!(r.broadcast);
    assert!(!r.reconnect);
    let m = r.dashboard.unwrap();
    assert_eq!((m.module.as_str(), m.action.as_str()), ("twitch", "new_message"));
    let names: Vec<&str> = m.data.iter().map(|(k, _)| k.as_str()).collect();
    assert_eq!(names, vec!["message", "user_id", "user_name", "channel"]);
    assert!(matches!(&m.data[0].1, FieldValue::Text(t) if t == "hi"));
    let other = react_to_message("streamer", "bot", &privmsg);
    assert!(other.dashboard.is_none() && !other.broadcast);
    let again = react_to_message("streamer", "bot", &IrcEvent::Reconnect);
    assert!(again.reconnect);
}

#[test]
fn dashboard_requests_name_what_is_missing() {
    assert!(matches!(parse_dashboard_request("send_message", None, Some("c".to_string()), Some("u".to_string())),
        Err(e) if e == "Missing channel"));
    assert!(matches!(parse_dashboard_request("send_message", Some("ch".to_string()), None, None),
        Err(e) if e == "Missing content"));
    assert!(matches!(parse_dashboard_request("join_channel", Some("ch".to_string()), None, None),
        Err(e) if e == "Missing username"));
    assert!(matches!(parse_dashboard_request("leave_channel", Some("ch".to_string()), None, Some("u".to_string())),
        Ok(DashboardRequest::LeaveChannel { .. })));
    assert!(matches!(parse_dashboard_request("get_bot_status", None, None, Some("u".to_string())),
        Ok(DashboardRequest::BotStatus { username }) if username == "u"));
    assert!(matches!(parse_dashboard_request("dance", None, None, None),
        Err(e) if e == "Unknown Twitch IRC action: dance"));
    let info = channel_info_response("chan");
    assert_eq!(info.action, "channel_info");
    assert!(matches!(info.data[1].1, FieldValue::Number(0)));
    let status = bot_status_response("bot", false);
    assert!(matches!(&status.data[1].1, FieldValue::Text(t) if t == "disconnected"));
}

#[test]
fn oauth_prefixes_are_stripped() {
    assert_eq!(clean_oauth_token("oauth:oauth:abc"), "abc");
    assert_eq!(clean_oauth_token("abc"), "abc");
    assert_eq!(clean_oauth_token("xoauth:abc"), "xoauth:abc");
    assert!(handles_messages(true, "bot", "bot"));
    assert!(!handles_messages(true, "streamer", "bot"));
}

#[test]
fn eventsub_backoff_doubles_up_to_a_minute() {
    let waits: Vec<u64> = (0..9).map(calculate_backoff).collect();
    assert_eq!(waits, vec![1, 2, 4, 8, 16, 32, 60, 60, 60]);
}

#[test]
fn eventsub_gives_up_after_ten_attempts() {
    let mut s = EventSubSession::new();
    for attempt in 0..10 {
        assert_eq!(s.after_connection_lost(), Some(calculate_backoff(attempt)));
    }
    assert_eq!(s.after_connection_lost(), None);
    s.on_connected();
    assert_eq!(s.after_connection_lost(), Some(1));
}

#[test]
fn eventsub_keepalive_checks() {
    let mut s = EventSubSession::new();
    s.on_welcome_at(Some(10), 1_000);
    assert_eq!(s.check_keepalive_at(31_000), KeepaliveVerdict::Alive);
    assert_eq!(s.check_keepalive_at(31_001), KeepaliveVerdict::Late);
    assert_eq!(s.check_keepalive_at(40_000), KeepaliveVerdict::Reconnect);
    s.on_keepalive_at(40_000);
    assert_eq!(s.check_keepalive_at(70_001), KeepaliveVerdict::Late);
    assert_eq!(s.check_keepalive_at(70_000), KeepaliveVerdict::Alive);
}

#[test]
fn eventsub_messages_are_classified() {
    assert_eq!(classify_message(Some("session_welcome")), SocketMessageKind::Welcome);
    assert_eq!(classify_message(Some("notification")), SocketMessageKind::Notification);
    assert_eq!(classify_message(Some("revocation")), SocketMessageKind::Revocation);
    assert_eq!(classify_message(Some("other")), SocketMessageKind::Unhandled);
    assert_eq!(classify_message(None), SocketMessageKind::Unhandled);
    assert_eq!(describe_close_code(4002), (true, "Client failed ping-pong".to_string()));
    assert_eq!(describe_close_code(4005), (false, "Network timeout".to_string()));
    assert_eq!(describe_close_code(1000), (false, "Unknown close code".to_string()));
    assert_eq!(reconnect_target(None).unwrap_err(), "Invalid reconnect message");
    let e = TwitchEventSubError { message: "lost".to_string() };
    assert_eq!(e.to_text(), "lost");
}

#[test]
fn eventsub_subscribes_to_fifteen_events() {
    let subs = eventsub_subscriptions("99", "sess");
    assert_eq!(subs.len(), 15);
    assert_eq!(subs[0].subscription_type, "channel.update");
    assert_eq!(subs[0].version, "2");
    assert_eq!(subs[1].condition, vec![("broadcaster_user_id".to_string(), "99".to_string()), ("moderator_user_id".to_string(), "99".to_string())]);
    assert_eq!(subs[2].condition, vec![("to_broadcaster_user_id".to_string(), "99".to_string())]);
    assert_eq!(subs[14].subscription_type, "channel.ad_break.begin");
    assert!(subs.iter().all(|s| s.session_id == "sess"));
}

#[test]
fn dashboard_requests_need_the_account_client() {
    let clients = vec!["bot".to_string()];
    let send = parse_dashboard_request("send_message", Some("c".to_string()), Some("hi".to_string()), Some("bot".to_string())).unwrap();
    match dashboard_action(send, &clients) {
        Ok(DashboardAction::Say { username, channel, content }) => {
            assert_eq!((username.as_str(), channel.as_str(), content.as_str()), ("bot", "c", "hi"))
        }
        _ => panic!("expected a message to say"),
    }
    let stranger = parse_dashboard_request("send_message", Some("c".to_string()), Some("hi".to_string()), Some("other".to_string())).unwrap();
    assert!(matches!(dashboard_action(stranger, &clients), Err(e) if e == "Client not found"));
    let join = parse_dashboard_request("join_channel", Some("c".to_string()), None, Some("nobody".to_string())).unwrap();
    assert!(matches!(dashboard_action(join, &clients), Err(e) if e == "Client not found"));
    let leave = parse_dashboard_request("leave_channel", Some("c".to_string()), None, Some("bot".to_string())).unwrap();
    assert!(matches!(dashboard_action(leave, &clients), Ok(DashboardAction::Part { .. })));
    let status = parse_dashboard_request("get_bot_status", None, None, Some("other".to_string())).unwrap();
    match dashboard_action(status, &clients) {
        Ok(DashboardAction::Respond(m)) => {
            assert_eq!(m.action, "bot_status");
            assert!(matches!(&m.data[1].1, FieldValue::Text(t) if t == "disconnected"));
        }
        _ => panic!("expected an answer"),
    }
}
