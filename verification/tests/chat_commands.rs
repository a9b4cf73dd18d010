use twitch_bot::irc::commands::debug::{debug_plan, LogLevel};
use twitch_bot::irc::command_system::{CommandRegistry, Dispatch, clean_chat_message, parse_command, read_legacy_line};
use twitch_bot::irc::commands::channel_management::{
    ContentCommand, ContentPlan, GameCommand, GameStep, RefreshAction, RefreshAds, RunAdCommand, TextPlan,
    TitleCommand,
};
use twitch_bot::irc::commands::continue_message::{ContinueCommand, ContinuePlan};
use twitch_bot::irc::commands::discord::{default_discord_message, discord_message};
use twitch_bot::irc::commands::uptime::UptimeCommand;
use twitch_bot::irc::commands::verify::{VerifyCommand, VerifyPlan};
use twitch_bot::irc::commands::vrc::{default_vrc_message, tidy_link_reply, vrc_message};
use twitch_bot::text::replace_all;
use twitch_bot::irc::commands::world::split_message;
use twitch_bot::roles::UserRole;

fn strings(v: &[&str]) -> Vec<String> {
    v.iter().map(|s| s.to_string()).collect()
}

#[test]
fn continue_without_remainder() {
    match ContinueCommand.plan(None) {
        ContinuePlan::Send(m) => assert_eq!(m, "No continuation available."),
        _ => panic!("expected a plain answer"),
    }
}

#[test]
fn continue_short_remainder_is_sent_whole() {
    match ContinueCommand.plan(Some("the rest".to_string())) {
        ContinuePlan::Send(m) => assert_eq!(m, "the rest"),
        _ => panic!("expected a plain answer"),
    }
}

#[test]
fn continue_long_remainder_is_cut_at_497_bytes() {
    let text = "a".repeat(600);
    match ContinueCommand.plan(Some(text)) {
        ContinuePlan::SendMore { message, rest } => {
            assert_eq!(message, format!("{}... (Use !continue to see more)", "a".repeat(497)));
            assert_eq!(rest, "a".repeat(103));
        }
        _ => panic!("expected a cut answer"),
    }
}

#[test]
fn split_short_message_is_one_line() {
    assert_eq!(split_message("hello world"), vec!["hello world".to_string()]);
}

#[test]
fn split_long_message_packs_words() {
    let word = "b".repeat(200);
    let message = format!("{} {} {}", word, word, word);
    let lines = split_message(&message);
    assert_eq!(lines, vec![format!("{} {}", word, word), word.clone()]);
    for line in &lines {
        assert!(line.len() <= 500);
    }
}

#[test]
fn split_over_long_word_is_cut_into_pieces() {
    let word = "c".repeat(600);
    let lines = split_message(&word);
    assert_eq!(lines, vec![format!("{}...", "c".repeat(497)), format!("{}...", "c".repeat(103))]);
}

#[test]
fn split_cut_inside_a_character_uses_the_replacement_character() {
    let word = format!("{}é", "d".repeat(496));
    let message = format!("{} {}", word, "e".repeat(10));
    let lines = split_message(&format!("{}{}", message, " ".repeat(0)));
    // 498 bytes of word plus a space and ten more: over 500, so the word is packed alone.
    assert_eq!(lines[0], word);
    assert_eq!(lines[1], "e".repeat(10));
    let long = format!("{}é{}", "d".repeat(496), "f".repeat(10));
    let pieces = split_message(&long);
    assert_eq!(pieces[0], format!("{}\u{FFFD}...", "d".repeat(496)));
    assert_eq!(pieces[1], format!("\u{FFFD}{}...", "f".repeat(10)));
}

#[test]
fn vrc_reply_spaces_out_the_link() {
    assert_eq!(tidy_link_reply("  Join https://vrc.group/x now ", "https://vrc.group/x"), "Join  https://vrc.group/x  now");
    assert_eq!(default_vrc_message("L"), "Join our VRChat community group! L ");
    assert_eq!(vrc_message(Some(Err("down".to_string())), "L"), "Join our VRChat community group! L ");
    assert_eq!(vrc_message(None, "L"), "Join our VRChat community group! L ");
}

#[test]
fn discord_reply_falls_back_to_default() {
    assert_eq!(default_discord_message("D"), "Join our Discord community! D ");
    assert_eq!(discord_message(Some(Ok("see D!".to_string())), "D"), "see  D !");
    assert_eq!(discord_message(None, "D"), "Join our Discord community! D ");
}

#[test]
fn uptime_reply_formats_hours_minutes_seconds() {
    assert_eq!(UptimeCommand.reply(Ok(Some(3725))), "Stream has been live for 1 hours, 2 minutes, and 5 seconds");
    assert_eq!(UptimeCommand.reply(Ok(Some(-3725))), "Stream has been live for -1 hours, -2 minutes, and -5 seconds");
    assert_eq!(UptimeCommand.reply(Ok(None)), "Stream is currently offline.");
    assert_eq!(
        UptimeCommand.reply(Err("x".to_string())),
        "Sorry, I couldn't retrieve the stream uptime. Please try again later."
    );
}

#[test]
fn verify_reads_one_code() {
    assert!(matches!(VerifyCommand.plan(&strings(&["123"])), VerifyPlan::Link(123)));
    assert!(matches!(VerifyCommand.plan(&strings(&["abc"])), VerifyPlan::Fail(m) if m == "Invalid verification code"));
    assert!(matches!(VerifyCommand.plan(&strings(&[])), VerifyPlan::Usage(m) if m == "Usage: !verify <code>"));
    assert!(matches!(VerifyCommand.plan(&strings(&["1", "2"])), VerifyPlan::Usage(_)));
}

#[test]
fn title_and_game_plans() {
    assert!(matches!(TitleCommand.plan(&strings(&[])), TextPlan::Usage(m) if m == "Usage: !title <new title>"));
    assert!(matches!(TitleCommand.plan(&strings(&["Big", "day"])), TextPlan::Proceed(t) if t == "Big day"));
    assert_eq!(TitleCommand.reply("Big day"), "Stream title updated to: Big day");
    assert!(matches!(GameCommand.plan(&strings(&[])), TextPlan::Usage(m) if m == "Usage: !game <category name>"));
    match GameCommand.after_search("just chat", Some(("509658".to_string(), "Just Chatting".to_string()))) {
        GameStep::Update { game_id, message } => {
            assert_eq!(game_id, "509658");
            assert_eq!(message, "Stream category updated to: Just Chatting");
        }
        _ => panic!("expected an update"),
    }
    assert!(matches!(GameCommand.after_search("zzz", None),
        GameStep::NotFound(m) if m == "Could not find a category matching 'zzz'"));
}

#[test]
fn content_label_switch_reads_on_in_any_case() {
    assert!(matches!(ContentCommand.plan(&strings(&["Gambling"])), ContentPlan::Apply { enable: true, .. }));
    assert!(matches!(ContentCommand.plan(&strings(&["Gambling", "ON"])), ContentPlan::Apply { enable: true, .. }));
    assert!(matches!(ContentCommand.plan(&strings(&["Gambling", "off"])), ContentPlan::Apply { enable: false, .. }));
    match ContentCommand.plan(&strings(&["Gambling", "OFF"])) {
        ContentPlan::Apply { label, enable } => {
            assert_eq!(label, "Gambling");
            assert!(!enable);
        }
        _ => panic!("expected a label"),
    }
    assert!(matches!(ContentCommand.plan(&strings(&[])), ContentPlan::Usage(m) if m.starts_with("Usage: !content <label> <on/off>")));
    assert_eq!(ContentCommand.reply("Gambling", false), "Content label Gambling has been turned off");
    assert_eq!(RunAdCommand.commercial_length(), 180);
    assert_eq!(RunAdCommand.reply(), "Starting a 3-minute ad break...");
}

#[test]
fn refresh_ads_runs_every_step_and_reports_failures() {
    let (mut run, first) = RefreshAds::start();
    assert!(matches!(first, RefreshAction::FetchBroadcasterId));
    let s = run.advance(Ok("1234".to_string()));
    assert!(s.say.is_empty());
    assert!(matches!(s.action, RefreshAction::SetLabel { ref label, enabled: true } if label == "DebatedSocialIssuesAndPolitics"));
    let s = run.advance(Err("boom".to_string()));
    assert_eq!(s.say, vec!["Failed to set content label: boom".to_string()]);
    match s.action {
        RefreshAction::Sleep(secs) => assert!((10..=20).contains(&secs)),
        _ => panic!("expected a pause"),
    }
    let s = run.advance(Ok(String::new()));
    assert!(matches!(s.action, RefreshAction::StartCommercial(180)));
    let s = run.advance(Err("no ads".to_string()));
    assert_eq!(s.say, vec!["Failed to start the commercial: no ads".to_string()]);
    assert!(matches!(s.action, RefreshAction::SetLabel { enabled: false, .. }));
    let s = run.advance(Ok(String::new()));
    assert_eq!(s.say, vec!["Ad refresh complete! wanwan wanwan".to_string()]);
    assert!(matches!(s.action, RefreshAction::Stop));
    let s = run.advance(Ok(String::new()));
    assert!(s.say.is_empty());
    assert!(matches!(s.action, RefreshAction::Stop));
}

#[test]
fn refresh_ads_stops_without_broadcaster_id() {
    let (mut run, _) = RefreshAds::start();
    let s = run.advance(Err("offline".to_string()));
    assert_eq!(s.say, vec!["Failed to get broadcaster ID: offline".to_string()]);
    assert!(matches!(s.action, RefreshAction::Stop));
}

#[test]
fn registry_checks_roles() {
    let registry = CommandRegistry::standard();
    assert!(matches!(registry.dispatch("!ping", UserRole::Viewer, "bob"), Dispatch::Execute));
    assert!(matches!(registry.dispatch("!so", UserRole::Viewer, "bob"),
        Dispatch::Deny(m) if m == "@bob, this command is only available to Subscribers and above."));
    assert!(matches!(registry.dispatch("!so", UserRole::VIP, "bob"), Dispatch::Execute));
    assert!(matches!(registry.dispatch("!title", UserRole::VIP, "amy"),
        Dispatch::Deny(m) if m == "@amy, this command is only available to Moderators and above."));
    assert!(matches!(registry.dispatch("!title", UserRole::Broadcaster, "amy"), Dispatch::Execute));
    assert!(matches!(registry.dispatch("!nope", UserRole::Broadcaster, "amy"), Dispatch::NotFound));
}

#[test]
fn higher_roles_keep_access() {
    let registry = CommandRegistry::standard();
    let roles = [UserRole::Viewer, UserRole::Subscriber, UserRole::VIP, UserRole::Moderator, UserRole::Broadcaster];
    for name in ["!ping", "!so", "!world", "!title", "!resetdrop"] {
        let mut allowed = false;
        for role in roles {
            let now = matches!(registry.dispatch(name, role, "x"), Dispatch::Execute);
            assert!(!allowed || now);
            allowed = now;
        }
        assert!(allowed);
    }
}

#[test]
fn chat_lines_are_cleaned_and_split() {
    assert_eq!(clean_chat_message("  !so\u{00A0}  foo \u{0007}"), "!so  foo");
    let p = parse_command("!so  foo bar").unwrap();
    assert_eq!(p.command, "!so");
    assert_eq!(p.args, vec!["foo".to_string(), "bar".to_string()]);
    assert!(parse_command("   ").is_none());
    let l = read_legacy_line("  !UPTIME ünïcode ").unwrap();
    assert_eq!(l.command, "!uptime");
    assert_eq!(l.args, vec!["ncode".to_string()]);
}

#[test]
fn debug_without_parameters_switches_info_to_debug() {
    let plan = debug_plan(LogLevel::Info, "alice", &Vec::new());
    assert_eq!(plan.levels, vec![LogLevel::Debug]);
    assert_eq!(plan.reply, "@alice, Log level is now DEBUG");
}

#[test]
fn debug_without_parameters_switches_verbose_to_info() {
    let plan = debug_plan(LogLevel::Verbose, "alice", &Vec::new());
    assert_eq!(plan.levels, vec![LogLevel::Info]);
    assert_eq!(plan.reply, "@alice, Log level is now INFO");
}

#[test]
fn debug_parameters_apply_in_order() {
    let plan = debug_plan(LogLevel::Info, "bob", &strings(&["VERBOSE", "status", "loud", "info"]));
    assert_eq!(plan.levels, vec![LogLevel::Verbose, LogLevel::Info]);
    assert_eq!(
        plan.reply,
        "@bob, Log level is now VERBOSE. Current log level: VERBOSE. Unknown option: loud. Log level is now INFO."
    );
}

#[test]
fn split_message_cuts_a_long_ascii_word_into_fitting_pieces() {
    let word = "a".repeat(1200);
    let message = format!("hello {} bye", word);
    let lines = split_message(&message);
    assert!(lines.iter().all(|l| l.len() <= 500));
    assert_eq!(lines.len(), 5);
    assert_eq!(lines[0], "hello");
    assert_eq!(lines[1], format!("{}...", "a".repeat(497)));
    assert_eq!(lines[2], format!("{}...", "a".repeat(497)));
    assert_eq!(lines[3], format!("{}...", "a".repeat(206)));
    assert_eq!(lines[4], "bye");
}

#[test]
fn replace_all_matches_str_replace() {
    for (s, from, to) in [("a-b-c", "-", "+"), ("aaa", "aa", "b"), ("abc", "", "x"), ("", "", "x"), ("", "a", "b"), ("xyz", "q", "r")] {
        assert_eq!(replace_all(s, from, to), s.replace(from, to));
    }
    assert_eq!(replace_all("abc", "", "x"), "xaxbxcx");
    assert_eq!(replace_all("aaa", "aa", "b"), "ba");
}
