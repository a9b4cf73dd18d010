use twitch_bot::irc::commands::add_redeem::{parse_add_redeem, AddRedeemCommand};
use twitch_bot::api::requests::channel::Clip;
use twitch_bot::eventsub::events::redemptions::handlers::RedemptionManager;
use twitch_bot::eventsub::events::redemptions::models::{RedemptionActionConfig, RedemptionActionType, RedemptionSettings, RedemptionStatus};
use twitch_bot::irc::commands::fun_commands::{default_friday_message, default_xmas_message, days_until_christmas_at, calculate_days_until_christmas, message_from_ai};
use twitch_bot::irc::commands::shoutout::ShoutoutCooldown;
use twitch_bot::manager::{
    QueueStep, RoleQuery, UserCache, build_streamer_data, finish_api_shoutout_at, next_role_query,
    shoutout_queue_step_at, shoutout_retry_delay, user_from_api,
};
use twitch_bot::roles::UserRole;

#[test]
fn user_cache_keeps_the_newest_hundred_messages() {
    let mut cache = UserCache::new();
    cache.add_user_message("7", "first".to_string(), 1);
    {
        let u = cache.get("7").unwrap();
        assert_eq!(u.user_id, "7");
        assert_eq!(u.username, "");
        assert_eq!(u.role, UserRole::Viewer);
        assert_eq!(u.messages.len(), 1);
    }
    for i in 2..=101 {
        cache.add_user_message("7", format!("m{}", i), i);
    }
    let u = cache.get("7").unwrap();
    assert_eq!(u.messages.len(), 100);
    assert_eq!(u.messages[0], (101, "m101".to_string()));
    assert_eq!(u.messages[99], (2, "m2".to_string()));
    assert_eq!(u.last_seen_ms, 101);
}

#[test]
fn user_cache_updates_known_users_only() {
    let mut cache = UserCache::new();
    cache.update_user_role("9", UserRole::VIP, 5);
    assert!(cache.get("9").is_none());
    let user = user_from_api("9", true, Some("amy"), None, 3).unwrap();
    assert_eq!(user.display_name, "amy");
    cache.update_user("9".to_string(), user);
    cache.update_user_role("9", UserRole::VIP, 5);
    let u = cache.get("9").unwrap();
    assert_eq!(u.role, UserRole::VIP);
    assert_eq!(u.last_role_check_ms, 5);
    assert_eq!(u.last_seen_ms, 3);
    assert_eq!(cache.user_ids(), vec!["9".to_string()]);
    assert_eq!(user_from_api("9", false, None, None, 0).unwrap_err(), "User data not found");
    assert_eq!(user_from_api("9", true, None, None, 0).unwrap_err(), "Username not found");
}

#[test]
fn roles_are_asked_in_order() {
    assert!(matches!(next_role_query("1", "1", &vec![]), RoleQuery::Decided(UserRole::Broadcaster)));
    assert!(matches!(next_role_query("2", "1", &vec![]), RoleQuery::CheckModerator));
    assert!(matches!(next_role_query("2", "1", &vec![true]), RoleQuery::Decided(UserRole::Moderator)));
    assert!(matches!(next_role_query("2", "1", &vec![false]), RoleQuery::CheckVip));
    assert!(matches!(next_role_query("2", "1", &vec![false, true]), RoleQuery::Decided(UserRole::VIP)));
    assert!(matches!(next_role_query("2", "1", &vec![false, false]), RoleQuery::CheckSubscriber));
    assert!(matches!(next_role_query("2", "1", &vec![false, false, true]), RoleQuery::Decided(UserRole::Subscriber)));
    assert!(matches!(next_role_query("2", "1", &vec![false, false, false]), RoleQuery::Decided(UserRole::Viewer)));
}

#[test]
fn streamer_data_is_assembled() {
    let clips = vec![Clip { title: "Wow".to_string(), url: "u".to_string() }];
    let d = build_streamer_data(Some("VRChat"), vec!["cozy".to_string()], None, &vec!["old".to_string()], &clips);
    assert_eq!(d.recent_games, vec!["VRChat".to_string()]);
    assert_eq!(d.current_title, "");
    assert_eq!(d.recent_titles, vec!["".to_string(), "old".to_string()]);
    assert_eq!(d.top_clips, vec![("Wow".to_string(), "u".to_string())]);
}

#[test]
fn shoutout_queue_rounds() {
    let mut c = ShoutoutCooldown::new();
    assert!(matches!(shoutout_queue_step_at(&mut c, true, 0), QueueStep::Idle));
    c.enqueue_api_shoutout_at("b".to_string(), "m".to_string(), "t1".to_string(), 0);
    let item = match shoutout_queue_step_at(&mut c, true, 10) {
        QueueStep::Send(item) => item,
        _ => panic!("expected a send"),
    };
    assert_eq!(item.target_id, "t1");
    finish_api_shoutout_at(&mut c, item, true, 20);
    c.enqueue_api_shoutout_at("b".to_string(), "m".to_string(), "t2".to_string(), 30);
    assert!(matches!(shoutout_queue_step_at(&mut c, true, 40), QueueStep::Requeued));
    match shoutout_queue_step_at(&mut c, false, 121_020) {
        QueueStep::Offline(item) => {
            assert_eq!(item.target_id, "t2");
            assert_eq!(item.enqueue_time, 40);
            finish_api_shoutout_at(&mut c, item, false, 121_030);
        }
        _ => panic!("expected an offline drop"),
    }
    assert_eq!(c.dequeue_api_shoutout().unwrap().enqueue_time, 121_030);
    assert_eq!(shoutout_retry_delay(1), Some(2));
    assert_eq!(shoutout_retry_delay(2), Some(4));
    assert_eq!(shoutout_retry_delay(3), None);
}

fn settings(id: &str, title: &str) -> RedemptionSettings {
    RedemptionSettings {
        reward_id: id.to_string(),
        title: title.to_string(),
        cost: 100,
        action_config: RedemptionActionConfig {
            action: RedemptionActionType::AIResponse,
            queued: false,
            announce_in_chat: true,
            requires_manual_completion: false,
        },
        active: true,
    }
}

#[test]
fn toggling_a_redeem_by_title() {
    let mut m = RedemptionManager::new();
    m.register_handler(settings("r1", "Hydrate"));
    m.register_handler(settings("r2", "Stretch"));
    assert_eq!(m.toggle_redeem("Stretch"), Some(false));
    assert!(!m.get_settings("r2").unwrap().active);
    assert!(m.get_settings("r1").unwrap().active);
    assert_eq!(m.toggle_redeem("Stretch"), Some(true));
    assert_eq!(m.toggle_redeem("Nap"), None);
}

#[test]
fn status_texts_round_trip() {
    for s in [RedemptionStatus::Unfulfilled, RedemptionStatus::Fulfilled, RedemptionStatus::Canceled] {
        assert_eq!(RedemptionStatus::from_status_text(s.as_status_text()), s);
    }
    assert_eq!(RedemptionStatus::from_status_text("canceled"), RedemptionStatus::Unfulfilled);
}

#[test]
fn fun_command_messages() {
    assert_eq!(default_friday_message(true, 4), "It's Friday! Time to celebrate! 🎉");
    assert_eq!(default_friday_message(false, 1), "It's Tue... Not Friday yet... 😔 But we're getting there!");
    assert_eq!(default_xmas_message(3), "3 days until Christmas! 🎄🎅");
    assert_eq!(message_from_ai(Ok("  yay  ".to_string()), "d".to_string()), "yay");
    assert_eq!(message_from_ai(Err("x".to_string()), "d".to_string()), "d");
}

#[test]
fn christmas_countdown() {
    // 2024-12-20 is day 739240 counted from January 1 of year 1.
    assert_eq!(days_until_christmas_at(2024, 739_240), Some(5));
    assert_eq!(days_until_christmas_at(2024, 739_245), Some(0));
    // 2024-12-26: next Christmas is 2025-12-25, 364 days later.
    assert_eq!(days_until_christmas_at(2024, 739_246), Some(364));
    // 2023-12-26: the next Christmas, in leap year 2024, is 365 days later.
    assert_eq!(days_until_christmas_at(2023, 738_880), Some(365));
    let d = calculate_days_until_christmas().unwrap();
    assert!((0..=365).contains(&d));
}

#[test]
fn christmas_past_the_last_one_chrono_names() {
    let last_christmas = days_until_christmas_at(262_142, 0).map(|d| d as i64).unwrap();
    // Day 0 lies long before; the last Christmas is `last_christmas` days later.
    assert_eq!(days_until_christmas_at(262_142, last_christmas as i32), Some(0));
    assert_eq!(days_until_christmas_at(262_142, last_christmas as i32 + 1), None);
}

fn words(v: &[&str]) -> Vec<String> {
    v.iter().map(|s| s.to_string()).collect()
}

#[test]
fn add_redeem_reads_a_well_formed_ai_command() {
    let params = words(&["\"Cheer\"", "100", "ai", "30", "\"say", "hi\"", "true", "false", "false"]);
    match parse_add_redeem(&params) {
        AddRedeemCommand::Add(req) => {
            assert_eq!(req.title, "Cheer");
            assert_eq!(req.cost, 100);
            assert!(matches!(req.action_config.action, RedemptionActionType::AIResponse));
            assert!(req.action_config.queued);
            assert!(!req.action_config.announce_in_chat);
            assert!(!req.action_config.requires_manual_completion);
            assert_eq!(req.cooldown, 30);
            assert_eq!(req.prompt, "say hi");
            assert!(req.active_games.is_empty());
            assert!(!req.offline_chat_redeem);
            assert!(!req.auto_complete);
        }
        _ => panic!("expected the redeem to be added"),
    }
}

#[test]
fn add_redeem_takes_games_after_the_three_flags() {
    let params = words(&["\"Hat\"", "50", "osc", "10", "\"wear", "it\"", "false", "true", "true", "Minecraft", "VRChat"]);
    match parse_add_redeem(&params) {
        AddRedeemCommand::Add(req) => {
            assert!(matches!(req.action_config.action, RedemptionActionType::OSCMessage));
            assert!(!req.action_config.queued);
            assert!(req.action_config.announce_in_chat);
            assert!(req.offline_chat_redeem);
            assert!(!req.auto_complete);
            assert_eq!(req.active_games, vec!["Minecraft".to_string(), "VRChat".to_string()]);
        }
        _ => panic!("expected the redeem to be added"),
    }
}

#[test]
fn add_redeem_custom_action_is_named_after_the_title() {
    let params = words(&["Dance", "5", "custom", "0", "\"go\""]);
    match parse_add_redeem(&params) {
        AddRedeemCommand::Add(req) => {
            assert_eq!(req.title, "Dance");
            match req.action_config.action {
                RedemptionActionType::Custom(name) => assert_eq!(name, "Dance"),
                _ => panic!("expected a custom action"),
            }
            assert!(!req.action_config.queued);
            assert!(req.active_games.is_empty());
        }
        _ => panic!("expected the redeem to be added"),
    }
}

#[test]
fn add_redeem_errors() {
    match parse_add_redeem(&words(&["\"T\"", "1", "ai", "2", "noquote"])) {
        AddRedeemCommand::Reply(m) => assert_eq!(m, "Missing prompt parameter. Prompt should be enclosed in quotes."),
        _ => panic!("expected a reply"),
    }
    match parse_add_redeem(&words(&["\"T\"", "1", "ai", "2", "\"open"])) {
        AddRedeemCommand::Reply(m) => assert_eq!(m, "Invalid prompt format. Prompt should be enclosed in quotes."),
        _ => panic!("expected a reply"),
    }
    match parse_add_redeem(&words(&["\"T\"", "x", "ai", "2", "\"p\""])) {
        AddRedeemCommand::Fail(m) => assert_eq!(m, "Invalid cost"),
        _ => panic!("expected a failure"),
    }
    match parse_add_redeem(&words(&["\"T\"", "1", "ai", "y", "\"p\""])) {
        AddRedeemCommand::Fail(m) => assert_eq!(m, "Invalid cooldown"),
        _ => panic!("expected a failure"),
    }
    match parse_add_redeem(&words(&["\"T\"", "1", "dance", "2", "\"p\""])) {
        AddRedeemCommand::Reply(m) => assert_eq!(m, "Invalid action type. Use 'ai', 'osc', or 'custom'."),
        _ => panic!("expected a reply"),
    }
    match parse_add_redeem(&words(&["\"T\"", "1", "ai"])) {
        AddRedeemCommand::Reply(m) => assert_eq!(m, "Missing cooldown parameter"),
        _ => panic!("expected a reply"),
    }
    match parse_add_redeem(&words(&["lonely"])) {
        AddRedeemCommand::Reply(m) => assert!(m.starts_with("Invalid command format.")),
        _ => panic!("expected a reply"),
    }
}
