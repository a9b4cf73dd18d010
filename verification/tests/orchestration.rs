use twitch_bot::api::requests::channel::Clip;
use twitch_bot::eventsub::client::{SubscriptionStep, after_subscription_reply, subscription_plan};
use twitch_bot::eventsub::events::redemptions::handlers::RedemptionManager;
use twitch_bot::eventsub::events::redemptions::models::{
    Redemption, RedemptionActionConfig, RedemptionActionType, RedemptionSettings, RedemptionStatus,
};
use twitch_bot::eventsub::events::subscription_end::SubEndBatcher;
use twitch_bot::irc::client::{IrcConnection, status_after_reconnect};
use twitch_bot::irc::command_system::{CommandRegistry, Dispatch};
use twitch_bot::irc::commands::add_redeem::{
    AddRedeemCommand, OscMessageType, OscValue, add_redeem_reply, parse_add_redeem,
};
use twitch_bot::manager::{
    ShoutoutTry, UserCache, after_shoutout_try, api_shoutout_call, build_streamer_data, record_streamer_data,
    user_from_api,
};
use twitch_bot::roles::UserRole;

fn strings(v: &[&str]) -> Vec<String> {
    v.iter().map(|s| s.to_string()).collect()
}

#[test]
fn subscriptions_need_a_client_id() {
    assert_eq!(subscription_plan(None, "42", "s1").err().unwrap(), "Twitch client ID not set");
    let plan = subscription_plan(Some("cid"), "42", "s1").unwrap();
    assert_eq!(plan.len(), 15);
    assert_eq!(plan[0].subscription_type, "channel.update");
    assert_eq!(plan[14].subscription_type, "channel.ad_break.begin");
}

#[test]
fn a_rejected_subscription_does_not_stop_the_others() {
    let (step, accepted) = after_subscription_reply(0, 15, Ok(409));
    assert!(matches!(step, SubscriptionStep::Send(1)));
    assert!(!accepted);
    let (step, accepted) = after_subscription_reply(3, 15, Ok(202));
    assert!(matches!(step, SubscriptionStep::Send(4)));
    assert!(accepted);
    let (step, _) = after_subscription_reply(14, 15, Ok(400));
    assert!(matches!(step, SubscriptionStep::Done));
    let (step, _) = after_subscription_reply(5, 15, Err("connection reset".to_string()));
    assert!(matches!(step, SubscriptionStep::Stop(e) if e == "connection reset"));
}

#[test]
fn streamer_data_is_stored_on_the_user() {
    let mut cache = UserCache::new();
    let user = user_from_api("7", true, Some("amy"), Some("Amy"), 1).unwrap();
    let data = build_streamer_data(Some("Chess"), vec![], Some("Live"), &vec![], &Vec::<Clip>::new());
    let e = record_streamer_data(&mut cache, "7".to_string(), false, None, user.clone(), data.clone()).unwrap_err();
    assert_eq!((e.status, e.message.as_str()), (404, "User data not found"));
    assert!(cache.get("7").is_none());
    let e = record_streamer_data(&mut cache, "7".to_string(), true, None, user.clone(), data.clone()).unwrap_err();
    assert_eq!((e.status, e.message.as_str()), (500, "Username not found in API response"));
    assert!(record_streamer_data(&mut cache, "7".to_string(), true, Some("amy"), user, data).is_ok());
    let stored = cache.get("7").unwrap();
    assert_eq!(stored.username, "amy");
    assert_eq!(stored.streamer_data.as_ref().unwrap().current_title, "Live");
}

#[test]
fn disconnecting_counts_once_and_giving_up_has_an_error() {
    let mut c = IrcConnection::new(strings(&["chan"]));
    c.begin_connect();
    c.finish_connect();
    c.disconnect();
    assert_eq!(c.get_monitor_status().1, 1);
    assert_eq!(c.disconnect(), None);
    assert_eq!(c.get_monitor_status().1, 1);
    let mut last = None;
    for _ in 0..6 {
        last = Some(c.begin_reconnect());
    }
    let plan = last.unwrap();
    assert_eq!(plan.backoff_secs, None);
    assert_eq!(plan.error.as_deref(), Some("Max reconnection attempts reached"));
    assert!(!c.monitor_link_down());
    assert_eq!(status_after_reconnect(true), Some(true));
    assert_eq!(status_after_reconnect(false), None);
}

#[test]
fn role_lookup_only_for_registered_commands() {
    let registry = CommandRegistry::standard();
    assert!(!registry.is_registered("!nope"));
    assert!(registry.is_registered("!ping"));
    assert!(matches!(registry.dispatch_looked_up("!nope", Err("down".to_string()), "bob"), Ok(Dispatch::NotFound)));
    assert!(matches!(registry.dispatch_looked_up("!ping", Err("down".to_string()), "bob"), Err(e) if e == "down"));
    assert!(matches!(registry.dispatch_looked_up("!ping", Ok(UserRole::Viewer), "bob"), Ok(Dispatch::Execute)));
}

#[test]
fn a_failed_batch_keeps_the_pending_subscriptions() {
    let mut b = SubEndBatcher::new();
    b.record_at("A".to_string(), "1000".to_string(), 2, 0);
    assert_eq!(b.finish_sending(Err("offline".to_string()), 10).unwrap_err(), "offline");
    assert_eq!(b.batch_messages().len(), 1);
    assert!(b.finish_sending(Ok(()), 20).is_ok());
    assert!(b.batch_messages().is_empty());
}

#[test]
fn api_shoutouts_try_three_times() {
    let call = api_shoutout_call("100", "200");
    assert_eq!(
        (call.broadcaster_id.as_str(), call.to_broadcaster_id.as_str(), call.moderator_id.as_str()),
        ("100", "200", "100")
    );
    assert!(matches!(after_shoutout_try(1, Ok(())), ShoutoutTry::Sent));
    assert!(matches!(after_shoutout_try(1, Err("x".to_string())), ShoutoutTry::Retry(2)));
    assert!(matches!(after_shoutout_try(2, Err("x".to_string())), ShoutoutTry::Retry(4)));
    assert!(matches!(after_shoutout_try(3, Err("last".to_string())), ShoutoutTry::Failed(e) if e == "last"));
}

#[test]
fn completing_a_redemption_marks_it_fulfilled() {
    let mut m = RedemptionManager::new();
    m.register_handler(RedemptionSettings {
        reward_id: "w1".to_string(),
        title: "Hug".to_string(),
        cost: 10,
        action_config: RedemptionActionConfig {
            action: RedemptionActionType::AIResponse,
            queued: true,
            announce_in_chat: false,
            requires_manual_completion: true,
        },
        active: true,
    });
    m.begin_redemption(Redemption {
        id: "r1".to_string(),
        broadcaster_id: "b1".to_string(),
        user_id: "u1".to_string(),
        user_name: "amy".to_string(),
        reward_id: "w1".to_string(),
        reward_title: "Hug".to_string(),
        user_input: None,
        status: RedemptionStatus::Unfulfilled,
        queued: false,
        queue_number: None,
        announce_in_chat: false,
    });
    assert!(m.complete_redemption("r1", "someone", false).is_err());
    let update = m.complete_redemption("r1", "u1", false).unwrap();
    assert_eq!(update.broadcaster_id, "b1");
    assert_eq!(update.reward_id, "w1");
    assert_eq!(update.redemption_id, "r1");
    assert_eq!(update.status, RedemptionStatus::Fulfilled);
    assert_eq!(update.status.as_status_text(), "FULFILLED");
}

#[test]
fn added_redeems_do_not_use_osc_and_are_announced() {
    let params = strings(&["\"Cheer\"", "100", "ai", "30", "\"say", "hi\""]);
    match parse_add_redeem(&params) {
        AddRedeemCommand::Add(req) => {
            assert!(!req.osc_config.uses_osc);
            assert_eq!(req.osc_config.osc_endpoint, "");
            assert_eq!(req.osc_config.osc_type, OscMessageType::Boolean);
            assert_eq!(req.osc_config.osc_value, OscValue::Boolean(false));
            assert_eq!(req.osc_config.default_value, OscValue::Integer(0));
            assert_eq!(req.osc_config.execution_duration_secs, Some(3));
            assert!(!req.osc_config.send_chat_message);
        }
        _ => panic!("expected the redeem to be added"),
    }
    assert_eq!(add_redeem_reply("Cheer", Ok(())), "New redeem 'Cheer' added successfully!");
    assert_eq!(add_redeem_reply("Cheer", Err("exists".to_string())), "Failed to add new redeem: exists");
}
