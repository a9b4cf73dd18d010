use twitch_bot::api::client::{TwitchToken, auth_callback, authorization_url, check_user_found, has_stored_tokens};
use twitch_bot::api::requests::channel::{ChannelError, Clip};
use twitch_bot::api::requests::followers::{follower_from_fields, follower_total};
use twitch_bot::api::requests::shoutout::{ShoutoutError, check_shoutout_ids, shoutout_outcome};
use twitch_bot::eventsub::events::channel_point_redemption::{new_redemption_followup, parse_redemption};
use twitch_bot::eventsub::events::notifications::{
    EventKind, ad_break_duration, ad_break_is_automatic, ad_break_message, ad_break_prompt, channel_update_message,
    cheer_reaction, classify_event, follow_welcome, follower_info, gift_message, raid_message, resub_message,
    stream_offline_messages, stream_online_message, subscribe_message, tier_label,
};
use twitch_bot::eventsub::events::redemptions::models::{RedemptionResult, RedemptionStatus};
use twitch_bot::eventsub::events::subscription_end::SubEndBatcher;
use twitch_bot::handler::{Route, hello_reply, route_message};
use twitch_bot::irc::commands::calc::{CalcStep, CalcToken, calc_error_reply, check_result, check_step, evaluation_order, tokenize};
use twitch_bot::irc::commands::followers::{FollowAgeLookup, followage_reply, followage_target, followers_reply, format_duration};
use twitch_bot::irc::commands::redeem_commands::{
    ActiveGamesPlan, OfflineRedeemPlan, active_games_plan, active_games_reply, complete_reply, offline_redeem_plan,
    toggle_redeem_reply,
};

fn strings(v: &[&str]) -> Vec<String> {
    v.iter().map(|s| s.to_string()).collect()
}

#[test]
fn notifications_are_classified() {
    assert_eq!(classify_event("channel.cheer"), EventKind::ChannelCheer);
    assert_eq!(classify_event("channel.subscription.end"), EventKind::SubscriptionEnd);
    assert_eq!(classify_event("channel.channel_points_custom_reward_redemption.update"), EventKind::RedemptionUpdate);
    assert_eq!(classify_event("channel.poll.begin"), EventKind::Unhandled);
}

#[test]
fn notification_messages() {
    assert_eq!(channel_update_message(Some("T"), Some("C")), Some("Channel updated! Category: C Title: T".to_string()));
    assert_eq!(channel_update_message(Some("T"), None), None);
    let (a, b) = stream_offline_messages(None);
    assert_eq!(a, "Unknown ended stream!  mao  Stay amazing and cute! mao");
    assert_eq!(b, "bark bark bark bark bark bark bark bark bark");
    assert_eq!(stream_online_message(Some("Neko"), None), "Neko has gone live! Stream started at Unknown time. Come join the fun!");
    assert_eq!(raid_message(Some("Fox"), Some(1), "Art"), "Welcome raiders! Thank you Fox for the raid with 1 viewer! They were just playing Art. Hope you all had fun and enjoy your stay!");
    assert_eq!(raid_message(None, None, "Art"), "Welcome raiders! Thank you Unknown for the raid with 0 viewers! They were just playing Art. Hope you all had fun and enjoy your stay!");
    assert_eq!(subscribe_message(Some("amy"), Some("2000"), Some(true)), "amy received a gifted Tier 2 subscription! Thank you to the generous gifter!");
    assert_eq!(subscribe_message(Some("amy"), None, None), "Thank you amy for subscribing with a Tier 1 subscription!");
    assert_eq!(resub_message(Some("amy"), Some("hi"), Some(7)), "Thank you amy for 7 months of support! They said: hi");
    assert_eq!(gift_message(None, Some(5), Some("9999"), Some(20)), "WOW! Anonymous just gifted 5 Unknown Tier subscriptions! They've gifted a total of 20 subs in the channel!");
    assert_eq!(tier_label("3000"), "Tier 3");
}

#[test]
fn cheers_pick_an_animation_by_size() {
    let value = |bits: u64| cheer_reaction(Some("x"), Some(bits)).unwrap().0.value;
    assert_eq!(value(0), 19);
    assert_eq!(value(1), 14);
    assert_eq!(value(99), 14);
    assert_eq!(value(100), 15);
    assert_eq!(value(4999), 16);
    assert_eq!(value(5000), 17);
    assert_eq!(value(14999), 18);
    assert_eq!(value(15000), 19);
    let (cue, line) = cheer_reaction(None, Some(250)).unwrap();
    assert_eq!(cue.endpoint, "/avatar/parameters/twitch");
    assert_eq!(cue.reset_value, 0);
    assert_eq!(line, "Thank you Anonymous for the 250 bits!");
    assert!(cheer_reaction(Some("x"), None).is_none());
}

#[test]
fn follows_and_ad_breaks() {
    assert_eq!(follower_info(Some("art"), None), "Channel description: art. Not currently live. ");
    assert_eq!(follower_info(Some(""), Some((Some("VRChat"), Some("hi")))), "Last seen streaming VRChat. Stream title: hi. ");
    assert_eq!(follow_welcome("amy", None), "Welcome to the community, amy! Thanks for following!");
    assert_eq!(follow_welcome("amy", Some(Ok("Hi amy".to_string()))), "Hi amy");
    assert_eq!(ad_break_duration(Some("90")), 90);
    assert_eq!(ad_break_duration(Some("ninety")), 0);
    assert_eq!(ad_break_duration(None), 0);
    assert!(ad_break_is_automatic(Some("true")));
    assert!(!ad_break_is_automatic(None));
    assert_eq!(ad_break_prompt(90, true), "Generate a short, friendly message (max 100 characters) for a Twitch streamer to say when an ad break of 90 seconds begins. This ad break was automatically scheduled.");
    assert_eq!(ad_break_message(90, Err("no ai".to_string())), "An ad break has begun for 90 seconds. We'll be right back after this short break!. Subscribe to watch ad-free!");
}

#[test]
fn ended_subscriptions_are_batched_by_tier() {
    let mut b = SubEndBatcher::new();
    assert!(!b.record_at("A".to_string(), "1000".to_string(), 2, 0));
    assert!(!b.record_at("B".to_string(), "2000".to_string(), 3, 4_999));
    assert!(b.record_at("C".to_string(), "1000".to_string(), 5, 5_000));
    assert_eq!(
        b.batch_messages(),
        vec![
            "Multiple Tier 1 subscriptions ended: A, C. See you next time! HUGGIES".to_string(),
            "B's Tier 2 sub ended after 3 months. Stay amazing and cute! luv".to_string(),
        ]
    );
    b.finish_batch(5_000);
    assert!(b.batch_messages().is_empty());
    assert!(!b.record_at("D".to_string(), "3000".to_string(), 1, 9_999));
    assert!(b.record_at("D".to_string(), "3000".to_string(), 2, 10_000));
    assert_eq!(b.batch_messages(), vec!["D's Tier 3 sub ended after 2 months. Stay amazing and cute! luv".to_string()]);
}

#[test]
fn redemptions_are_read_from_event_fields() {
    let r = parse_redemption(Some("r1"), None, Some("u1"), Some("amy"), Some("w1"), Some("Hydrate"), None, Some("FULFILLED"));
    assert_eq!(r.id, "r1");
    assert_eq!(r.broadcaster_id, "");
    assert_eq!(r.user_name, "amy");
    assert_eq!(r.status, RedemptionStatus::Fulfilled);
    assert!(r.user_input.is_none());
    let d = parse_redemption(None, None, None, None, None, None, Some("hi"), None);
    assert_eq!(d.status, RedemptionStatus::Unfulfilled);
    assert_eq!(d.user_input, Some("hi".to_string()));
    let ok = RedemptionResult { success: true, message: Some("done".to_string()), queue_number: None };
    assert_eq!(new_redemption_followup(&ok, Some(true)), (Some("done".to_string()), true));
    assert_eq!(new_redemption_followup(&ok, None), (Some("done".to_string()), false));
    let failed = RedemptionResult { success: false, message: Some("x".to_string()), queue_number: None };
    assert_eq!(new_redemption_followup(&failed, Some(true)), (None, false));
}

#[test]
fn follow_age_is_written_out() {
    assert_eq!(format_duration(0, 0), "0 seconds");
    assert_eq!(format_duration(0, 1_000), "1 second");
    assert_eq!(format_duration(0, 61_000), "1 minute and 1 second");
    assert_eq!(format_duration(0, 90_061_000), "1 day, 1 hour, 1 minute, and 1 second");
    assert_eq!(format_duration(0, 400 * 86_400_000), "1 year, 1 month, and 10 days");
    assert_eq!(format_duration(5_000, 0), "-5 seconds");
    assert_eq!(followage_target(&strings(&["@@amy"]), "bob"), "amy");
    assert_eq!(followage_target(&strings(&[]), "bob"), "bob");
    assert_eq!(followers_reply("bob", Ok(Ok(12))), "@bob, the channel currently has 12 followers!");
    assert_eq!(followers_reply("bob", Err("x".to_string())), "Sorry, I couldn't retrieve the channel information at the moment.");
    assert_eq!(
        followage_reply("bob", "amy", FollowAgeLookup::FollowingSince(0), 2_000),
        "@bob, amy has been following the channel for 2 seconds!"
    );
    assert_eq!(followage_reply("bob", "amy", FollowAgeLookup::NotFollowing, 0), "@bob, amy is not following this channel.");
}

#[test]
fn followers_are_read_from_api_fields() {
    let f = follower_from_fields(Some("1"), Some("amy"), Some("Amy"), Some("2024-01-01T00:00:00Z")).unwrap();
    assert_eq!(f.followed_at_ms, 1_704_067_200_000);
    assert_eq!(f.user_login, "amy");
    assert!(follower_from_fields(Some("1"), Some("amy"), Some("Amy"), Some("yesterday")).is_none());
    assert!(follower_from_fields(None, Some("amy"), Some("Amy"), Some("2024-01-01T00:00:00Z")).is_none());
    assert_eq!(follower_total(Some(4_294_967_297)), 1);
    assert_eq!(follower_total(None), 0);
}

#[test]
fn api_values_and_errors() {
    assert_eq!(ChannelError::ParseError.to_text(), "Failed to parse channel information");
    assert_eq!(ChannelError::APIError("401".to_string()).to_text(), "API error: 401");
    assert_eq!(ChannelError::Other("x".to_string()).to_text(), "Other error: x");
    assert!(matches!(Clip::try_from_fields(Some("t"), None), Err(ChannelError::ParseError)));
    let clip = Clip::try_from_fields(Some("t"), Some("u")).unwrap();
    assert_eq!((clip.title.as_str(), clip.url.as_str()), ("t", "u"));
    assert!(matches!(check_shoutout_ids("", "2"), Err(ShoutoutError::InvalidBroadcasterId(m)) if m == "Broadcaster ID cannot be empty"));
    assert!(check_shoutout_ids("1", "2").is_ok());
    assert_eq!(shoutout_outcome(Err("429".to_string())).unwrap_err().to_text(), "Failed to send shoutout: 429");
    assert_eq!(ShoutoutError::InvalidBroadcasterId("x".to_string()).to_text(), "Invalid broadcaster ID: x");
    let t = TwitchToken::from_config("a".to_string(), "r".to_string(), 100);
    assert_eq!(t.usable_at(100), None);
    let fresh = TwitchToken::received_at("a".to_string(), "r".to_string(), 60, 100);
    assert_eq!(fresh.usable_at(60_099), Some("a".to_string()));
    assert_eq!(fresh.usable_at(60_100), None);
    assert!(has_stored_tokens(Some("a"), Some("r")));
    assert!(!has_stored_tokens(Some("a"), None));
    assert!(authorization_url("cid").starts_with("https://id.twitch.tv/oauth2/authorize?client_id=cid&redirect_uri="));
    assert_eq!(auth_callback(Some("c0de"), None), (Some("c0de".to_string()), "Authorization successful! You can close this window now.".to_string()));
    assert_eq!(auth_callback(None, Some("denied")).1, "Authorization failed: denied. Please try again.");
    assert_eq!(auth_callback(None, None).1, "Authorization failed. Please try again.");
    assert_eq!(check_user_found("ghost", 0).unwrap_err(), "User not found: ghost");
}

fn kinds(tokens: &[CalcToken]) -> Vec<String> {
    tokens.iter().map(|t| match t {
        CalcToken::Number(n) => n.clone(),
        CalcToken::Constant(c) => c.clone(),
        CalcToken::Plus => "+".to_string(),
        CalcToken::Minus => "-".to_string(),
        CalcToken::Multiply => "*".to_string(),
        CalcToken::Divide => "/".to_string(),
        CalcToken::Power => "^".to_string(),
        CalcToken::LeftParen => "(".to_string(),
        CalcToken::RightParen => ")".to_string(),
    }).collect()
}

fn program(expr: &str) -> Vec<String> {
    let tokens = tokenize(expr).unwrap();
    evaluation_order(&tokens).iter().map(|s| match s {
        CalcStep::Operand(t) => kinds(std::slice::from_ref(t))[0].clone(),
        CalcStep::Apply(t) => format!("apply{}", kinds(std::slice::from_ref(t))[0]),
    }).collect()
}

#[test]
fn calc_tokenizes_expressions() {
    assert_eq!(kinds(&tokenize("π*2.5 + tau").unwrap()), strings(&["pi", "*", "2.5", "+", "tau"]));
    assert_eq!(tokenize("1.2.3").unwrap_err(), "Invalid number: invalid float literal");
    assert_eq!(tokenize(".").unwrap_err(), "Invalid number: invalid float literal");
    assert_eq!(tokenize("2 * x").unwrap_err(), "Unknown constant: x");
    assert_eq!(tokenize("2 $ 3").unwrap_err(), "Invalid character: $");
    assert_eq!(tokenize("pi2").unwrap_err(), "Unknown constant: pi2");
    assert!(tokenize("").unwrap().is_empty());
    assert_eq!(calc_error_reply("Division by zero"), "Error: Division by zero");
}

#[test]
fn calc_orders_operations_by_precedence() {
    assert_eq!(program("2+3*4"), strings(&["2", "3", "4", "apply*", "apply+"]));
    assert_eq!(program("(1+2)*3"), strings(&["1", "2", "apply+", "3", "apply*"]));
    assert_eq!(program("2^3^2"), strings(&["2", "3", "2", "apply^", "apply^"]));
    assert_eq!(program("8/2-1"), strings(&["8", "2", "apply/", "1", "apply-"]));
    assert_eq!(program("(1"), strings(&["1", "apply("]));
}

#[test]
fn redeem_admin_commands() {
    assert_eq!(toggle_redeem_reply("Hydrate", Some(false)), "Redeem 'Hydrate' has been disabled");
    assert_eq!(toggle_redeem_reply("Nap", None), "Redeem 'Nap' not found");
    assert_eq!(complete_reply("r1", Ok(())), "Redemption r1 marked as complete");
    assert_eq!(complete_reply("r1", Err("Redemption not found".to_string())), "Error completing redemption: Redemption not found");
    assert!(matches!(offline_redeem_plan(&strings(&["Hydrate", "true"])), OfflineRedeemPlan::Apply { offline: true, .. }));
    assert!(matches!(offline_redeem_plan(&strings(&["Hydrate", "yes"])), OfflineRedeemPlan::Fail(m) if m == "Invalid boolean value"));
    assert!(matches!(offline_redeem_plan(&strings(&["Hydrate"])), OfflineRedeemPlan::Usage(_)));
    match active_games_plan(&strings(&["Hydrate", "VRChat", "Tetris"])) {
        ActiveGamesPlan::Apply { title, games } => {
            assert_eq!(title, "Hydrate");
            assert_eq!(games, strings(&["VRChat", "Tetris"]));
            assert_eq!(active_games_reply(&title, &games, true), "Active games for 'Hydrate' set to: VRChat, Tetris");
        }
        _ => panic!("expected games"),
    }
}

#[test]
fn simple_loop_routes_commands() {
    assert_eq!(route_message("  !UPTIME please"), Route::Uptime);
    assert_eq!(route_message("!world"), Route::World);
    assert_eq!(route_message("!hello there"), Route::Hello);
    assert_eq!(route_message("hello"), Route::Ignore);
    assert_eq!(route_message("   "), Route::Ignore);
    assert_eq!(hello_reply("amy"), "Hello, amy! Welcome to the stream!");
}

#[test]
fn calc_checks_the_stack_before_values() {
    let plus = CalcStep::Apply(CalcToken::Plus);
    assert_eq!(check_step(1, &plus).unwrap_err(), "Invalid expression: not enough operands");
    assert_eq!(check_step(2, &plus).unwrap(), 1);
    assert_eq!(check_step(0, &CalcStep::Operand(CalcToken::Number("1".to_string()))).unwrap(), 1);
    assert_eq!(check_step(0, &CalcStep::Operand(CalcToken::LeftParen)).unwrap_err(), "Invalid expression");
    assert_eq!(check_step(3, &CalcStep::Apply(CalcToken::LeftParen)).unwrap_err(), "Invalid operator");
    assert_eq!(check_result(0).unwrap_err(), "Invalid expression");
    assert!(check_result(2).is_ok());
}

#[test]
fn calc_unclosed_paren_lacks_operands() {
    // "(1+2" leaves the "(" waiting; it is applied last, on the one value left.
    let steps = evaluation_order(&tokenize("(1+2").unwrap());
    let mut depth = 0usize;
    let mut error = None;
    for s in &steps {
        match check_step(depth, s) {
            Ok(d) => depth = d,
            Err(e) => {
                error = Some(e);
                break;
            }
        }
    }
    assert_eq!(error.as_deref(), Some("Invalid expression: not enough operands"));
}
