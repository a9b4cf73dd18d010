use twitch_bot::irc::commands::ad_commands::{AdManager, StartAdCommand, StartAdPlan, StopAdsCommand};
use twitch_bot::irc::commands::shoutout::{ShoutoutCooldown, ShoutoutCommand, ShoutoutPlan, finish_ai_shoutout, needs_refresh, shoutout_prompt, simple_shoutout_message};
use twitch_bot::irc::commands::world::{WorldCommand, WorldCooldowns, WorldInfo, WorldReply};
use twitch_bot::manager::{StreamerData, TwitchUser};
use twitch_bot::roles::UserRole;
use std::collections::VecDeque;

fn strings(v: &[&str]) -> Vec<String> {
    v.iter().map(|s| s.to_string()).collect()
}

#[test]
fn ad_is_posted_until_it_ends() {
    let mut ads = AdManager::new();
    ads.add_ad_at("ad_1".to_string(), "Buy merch".to_string(), 5, 10, 1_000_000);
    assert_eq!(ads.due_message_at("ad_1", 1_000_000), Some("Buy merch".to_string()));
    assert_eq!(ads.due_message_at("ad_1", 1_599_999), Some("Buy merch".to_string()));
    assert_eq!(ads.due_message_at("ad_1", 1_600_000), None);
    assert_eq!(ads.due_message_at("ad_2", 1_000_000), None);
    let active = ads.get_active_ads_at(1_599_999);
    assert_eq!(active.len(), 1);
    assert_eq!(active[0].0, "ad_1");
    assert_eq!(active[0].1.end_time_ms, 1_600_000);
    assert_eq!(active[0].1.interval_minutes, 5);
    assert!(ads.get_active_ads_at(1_600_000).is_empty());
    assert!(ads.remove_ad("ad_1"));
    assert!(!ads.remove_ad("ad_1"));
}

#[test]
fn ads_added_now_are_active() {
    let mut ads = AdManager::new();
    assert!(ads.add_ad("ad_now".to_string(), "hi".to_string(), 1, 10));
    let active = ads.get_active_ads();
    assert_eq!(active.len(), 1);
    assert_eq!(active[0].1.text, "hi");
    assert!(!ads.add_ad("ad_far".to_string(), "x".to_string(), 1, i64::MAX / 120000));
}

#[test]
fn start_ad_reads_its_arguments() {
    match StartAdCommand.plan(&strings(&["5", "10", "Follow", "us!"])) {
        StartAdPlan::Schedule { interval_minutes, duration_minutes, text } => {
            assert_eq!((interval_minutes, duration_minutes), (5, 10));
            assert_eq!(text, "Follow us!");
        }
        _ => panic!("expected a schedule"),
    }
    assert!(matches!(StartAdCommand.plan(&strings(&["x", "10", "t"])), StartAdPlan::InvalidNumber));
    assert!(matches!(StartAdCommand.plan(&strings(&["5", "-", "t"])), StartAdPlan::InvalidNumber));
    assert!(matches!(StartAdCommand.plan(&strings(&["5", "10"])),
        StartAdPlan::Usage(m) if m == "Usage: !startad <interval_minutes> <duration_minutes> <ad_text>"));
}

#[test]
fn start_ad_schedules_under_a_timestamp_id() {
    let mut ads = AdManager::new();
    let started = StartAdCommand.schedule_at(&mut ads, 5, 10, "Follow us!".to_string(), 1_700_000_000_123);
    assert_eq!(started.ad_id, "ad_1700000000");
    assert_eq!(started.sleep_seconds, 300);
    assert_eq!(started.reply, "Ad started: will run every 5 minutes for 10 minutes");
    assert_eq!(ads.due_message_at("ad_1700000000", 1_700_000_000_124), Some("Follow us!".to_string()));
    let before_epoch = StartAdCommand.schedule_at(&mut ads, -1, 1, "t".to_string(), -1500);
    assert_eq!(before_epoch.ad_id, "ad_-2");
    assert_eq!(before_epoch.sleep_seconds, (-60i64) as u64);
    assert_eq!(StopAdsCommand.stop(&mut ads), "All ads have been stopped.");
    assert_eq!(ads.due_message_at("ad_1700000000", 1_700_000_000_124), None);
}

#[test]
fn start_ad_now_gives_a_started_ad() {
    let mut ads = AdManager::new();
    let started = StartAdCommand.schedule(&mut ads, 2, 3, "x".to_string()).unwrap();
    assert!(started.ad_id.starts_with("ad_"));
    assert_eq!(started.sleep_seconds, 120);
    assert!(StartAdCommand.schedule(&mut ads, i64::MAX, 3, "x".to_string()).is_none());
}

#[test]
fn world_cooldown_is_per_channel() {
    let mut c = WorldCooldowns::new();
    assert!(c.try_use("chan", 1_000));
    assert!(!c.try_use("chan", 10_999));
    assert!(c.try_use("other", 10_999));
    assert!(c.try_use("chan", 11_000));
    assert!(!c.try_use("chan", 5_000));
}

#[test]
fn world_reply_formats_the_world() {
    let world = WorldInfo {
        id: "wrld_1".to_string(),
        name: "Cafe".to_string(),
        author_name: "Neko".to_string(),
        capacity: 32,
        description: "cozy".to_string(),
        release_status: "public".to_string(),
        created_at_ms: 0,
        updated_at_ms: 86_400_000,
    };
    match WorldCommand.reply(Ok(world)) {
        WorldReply::Info { first, second } => {
            assert_eq!(first, vec!["Current World: Cafe | Author: Neko | Capacity: 32 | Description: cozy | Status: public".to_string()]);
            assert_eq!(second, vec!["Published: 1970-01-01 | Last Updated: 1970-01-02 | World Link: https://vrchat.com/home/world/wrld_1".to_string()]);
        }
        _ => panic!("expected world lines"),
    }
    assert!(matches!(WorldCommand.reply(Err("timeout".to_string())),
        WorldReply::Failed(m) if m == "Unable to fetch current world information: timeout"));
    assert_eq!(WorldCommand.offline_reply(), "The VRChat status is currently offline.");
    assert_eq!(WorldCommand.send_failure_reply(false), "Error sending world link info. Please try again.");
}

#[test]
fn shoutout_cooldowns_follow_the_clock() {
    let mut c = ShoutoutCooldown::new();
    assert!(c.can_shoutout_at("foo", 0));
    assert!(c.can_shoutout("foo"));
    c.update_cooldowns_at("foo", 1_000);
    assert!(!c.can_shoutout_at("bar", 121_999));
    assert!(c.can_shoutout_at("bar", 122_000));
    assert!(!c.can_shoutout_at("foo", 122_000));
    assert_eq!(c.check_cooldowns_at("foo", 122_000), (true, false));
    assert!(c.can_shoutout_at("foo", 3_601_000));
    assert_eq!(c.get_remaining_cooldown_at("foo", 2_000), (Some(120_000), Some(3_599_000)));
    assert_eq!(c.get_remaining_cooldown_at("bar", 500_000), (None, None));
}

#[test]
fn shoutout_queue_is_first_in_first_out() {
    let mut c = ShoutoutCooldown::new();
    c.enqueue_api_shoutout("b".to_string(), "m".to_string(), "t1".to_string());
    c.enqueue_api_shoutout("b".to_string(), "m".to_string(), "t2".to_string());
    assert_eq!(c.dequeue_api_shoutout().unwrap().target_id, "t1");
    c.enqueue_api_shoutout("b".to_string(), "m".to_string(), "t3".to_string());
    assert_eq!(c.dequeue_api_shoutout().unwrap().target_id, "t2");
    assert_eq!(c.dequeue_api_shoutout().unwrap().target_id, "t3");
    assert!(c.dequeue_api_shoutout().is_none());
}

#[test]
fn shoutout_plan_refuses_self_and_broadcaster() {
    assert!(matches!(ShoutoutCommand.plan(&strings(&[]), "bob", "chan"), ShoutoutPlan::Usage(m) if m == "Usage: !so <username>"));
    assert!(matches!(ShoutoutCommand.plan(&strings(&["@@Foo"]), "bob", "chan"), ShoutoutPlan::Shoutout(t) if t == "foo"));
    assert!(matches!(ShoutoutCommand.plan(&strings(&["@BOB"]), "Bob", "chan"),
        ShoutoutPlan::Decline(m) if m == "@Bob, you're already awesome! No need to shout yourself out! pepeStepBro pepeStepBro "));
    assert!(matches!(ShoutoutCommand.plan(&strings(&["Chan"]), "bob", "chan"),
        ShoutoutPlan::Decline(m) if m == "@bob, 推し～！ Cannot shout out our oshi chan! They're already here blessing us with their sugoi presence! ٩(◕‿◕｡)۶"));
}

fn streamer(data: Option<StreamerData>) -> TwitchUser {
    TwitchUser {
        user_id: "42".to_string(),
        username: "neko".to_string(),
        display_name: "Neko".to_string(),
        role: UserRole::Viewer,
        last_seen_ms: 0,
        last_role_check_ms: 0,
        messages: VecDeque::new(),
        streamer_data: data,
    }
}

fn data() -> StreamerData {
    StreamerData {
        recent_games: vec!["VRChat".to_string()],
        current_tags: vec!["cozy".to_string(), "vtuber".to_string()],
        current_title: "Chill".to_string(),
        recent_titles: VecDeque::from(vec!["Chill".to_string(), "A".to_string(), "B".to_string(), "C".to_string()]),
        top_clips: vec![("Clip one".to_string(), "u1".to_string())],
    }
}

#[test]
fn simple_shoutout_uses_known_channel_data() {
    assert_eq!(
        simple_shoutout_message(&streamer(Some(data()))),
        "Go check out @Neko! They were last seen playing VRChat. Their last stream title was: \"Chill\". Follow them at https://twitch.tv/neko "
    );
    assert_eq!(
        simple_shoutout_message(&streamer(None)),
        "Go check out @Neko! They're an awesome streamer you don't want to miss! Follow them at https://twitch.tv/neko "
    );
}

#[test]
fn shoutout_prompt_lists_first_three_titles() {
    let p = shoutout_prompt(&streamer(Some(data())), &data());
    assert!(p.starts_with("Generate an engaging and friendly Twitch shoutout message for streamer @Neko with the following information:\n- Last played game: VRChat\n- Recent stream titles:\n  1. \"Chill\"\n  2. \"A\"\n  3. \"B\"\n- Stream tags: cozy, vtuber\n- Popular clips:\n  1. \"Clip one\"\n- Twitch URL: https://twitch.tv/neko\n\nThe shoutout"));
    assert!(!p.contains("\"C\""));
}

#[test]
fn ai_shoutout_always_ends_with_the_link() {
    assert_eq!(finish_ai_shoutout("Watch https://twitch.tv/neko now", "neko"), "Watch https://twitch.tv/neko now");
    assert_eq!(finish_ai_shoutout("  Watch Neko! ", "neko"), "Watch Neko! Check them out at https://twitch.tv/neko !");
    assert!(needs_refresh(&streamer(None), "neko"));
    assert!(!needs_refresh(&streamer(None), "42"));
}
