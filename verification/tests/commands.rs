use lorian_bot::commands::{
    apply_votes, channel_named, commission_channel_for, holds_inappropriate_word, shorten,
    ticket_channel_named, commission_creator_id, contains_inappropriate_content,
    count_votes, custom_emoji_id, find_commission_channel, generate_star_display, help_entry,
    is_commission_channel, is_feedback_channel, is_relevant_reaction, may_close_commission,
    may_close_commission_channel, may_close_ticket, purge_amount, roles_text, route_command,
    route_component, ticket_channel_for, wrap_count, CommandRoute, ComponentRoute, ReactionCount,
    ReactionKind,
};
use lorian_bot::data::FeedbackMessage;
use lorian_bot::lang::{BotEmojis, EmojiManager, LanguageManager, Messages};
use lorian_bot::time::Timestamp;

fn plain() -> EmojiManager {
    EmojiManager::from_emojis(BotEmojis::default())
}

fn custom() -> EmojiManager {
    let mut b = BotEmojis::default();
    b.interface.insert("star".into(), "S".into());
    b.confirmations.insert("x_".into(), "x".into());
    b.status.insert("up".into(), "U".into());
    b.status.insert("down".into(), "D".into());
    EmojiManager::from_emojis(b)
}

#[test]
fn the_feedback_channel_is_one_channel() {
    assert!(is_feedback_channel("1400466972293992498"));
    assert!(!is_feedback_channel("1400466972293992499"));
    assert!(!is_feedback_channel(""));
}

#[test]
fn inappropriate_words_are_found_in_any_case() {
    assert!(contains_inappropriate_content("this is SPAM"));
    assert!(contains_inappropriate_content("a Scammer"));
    assert!(contains_inappropriate_content("abuses"));
    assert!(!contains_inappropriate_content("a fine text"));
    assert!(!contains_inappropriate_content(""));
    let v = |s: &str| s.chars().collect::<Vec<char>>();
    assert!(holds_inappropriate_word(&v("no spam please")));
    assert!(!holds_inappropriate_word(&v("no SPAM please")));
    assert!(!holds_inappropriate_word(&v("s pam")));
}

#[test]
fn stars_show_the_share_of_upvotes() {
    let e = custom();
    assert_eq!(generate_star_display(0, 0, &e), "xxxxx (No votes yet)");
    assert_eq!(generate_star_display(1, 0, &e), "SSSSS (U 1 | D 0)");
    assert_eq!(generate_star_display(0, 1, &e), "xxxxx (U 0 | D 1)");
    assert_eq!(generate_star_display(1, 1, &e), "SSxxx (U 1 | D 1)");
    assert_eq!(generate_star_display(3, 2, &e), "SSSxx (U 3 | D 2)");
    assert_eq!(generate_star_display(4, 1, &e), "SSSSx (U 4 | D 1)");
    assert_eq!(generate_star_display(1, 4, &e), "Sxxxx (U 1 | D 4)");
    assert_eq!(generate_star_display(2, 1, &e), "SSSxx (U 2 | D 1)");
    assert_eq!(generate_star_display(99, 1, &e), "SSSSx (U 99 | D 1)");
    assert_eq!(generate_star_display(i32::MAX, 0, &e), "SSSSS (U 2147483647 | D 0)");
}

#[test]
fn stars_fall_back_to_standard_emojis() {
    let e = plain();
    assert_eq!(generate_star_display(0, 0, &e), "❌❌❌❌❌ (No votes yet)");
    assert_eq!(generate_star_display(1, 1, &e), "⭐⭐❌❌❌ (⬆️ 1 | ⬇️ 1)");
}

fn r(kind: ReactionKind, count: u64) -> ReactionCount {
    ReactionCount { kind, count }
}

#[test]
fn votes_are_read_from_the_reactions() {
    let reactions = vec![
        r(ReactionKind::Custom(Some("up".into())), 3),
        r(ReactionKind::Custom(Some("heart".into())), 9),
        r(ReactionKind::Unicode("⬇️".into()), 2),
        r(ReactionKind::Custom(None), 7),
        r(ReactionKind::Other, 7),
        r(ReactionKind::Unicode("⬆️".into()), 5),
    ];
    assert_eq!(count_votes(&reactions), (5, 2));
    assert_eq!(count_votes(&Vec::new()), (0, 0));
    assert_eq!(count_votes(&vec![r(ReactionKind::Custom(Some("down".into())), 4)]), (0, 4));
    assert!(is_relevant_reaction(&ReactionKind::Custom(Some("up".into()))));
    assert!(is_relevant_reaction(&ReactionKind::Custom(Some("down".into()))));
    assert!(is_relevant_reaction(&ReactionKind::Unicode("⬆️".into())));
    assert!(is_relevant_reaction(&ReactionKind::Unicode("⬇️".into())));
    assert!(!is_relevant_reaction(&ReactionKind::Unicode("⬆".into())));
    assert!(!is_relevant_reaction(&ReactionKind::Custom(Some("Up".into()))));
    assert!(!is_relevant_reaction(&ReactionKind::Custom(None)));
    assert!(!is_relevant_reaction(&ReactionKind::Other));
}

#[test]
fn counts_wrap_like_a_cast() {
    assert_eq!(wrap_count(0), 0);
    assert_eq!(wrap_count(2147483647), 2147483647);
    assert_eq!(wrap_count(2147483648), -2147483648);
    assert_eq!(wrap_count(4294967295), -1);
    assert_eq!(wrap_count(4294967296), 0);
    assert_eq!(wrap_count(u64::MAX), -1);
    for n in [5u64, 1 << 31, (1 << 32) + 7, u64::MAX - 3] {
        assert_eq!(wrap_count(n), n as i32);
    }
}

#[test]
fn counts_are_derived_anew() {
    let f = FeedbackMessage {
        message_id: "f".into(),
        original_author_id: "1".into(),
        original_author_name: "a".into(),
        original_author_avatar: "u".into(),
        content: "c".into(),
        channel_id: "9".into(),
        upvotes: 10,
        downvotes: 10,
        created_at: Timestamp { secs: 1, nanos: 0 },
    };
    let (g, changed) = apply_votes(f.clone(), &vec![r(ReactionKind::Custom(Some("up".into())), 2)]);
    assert_eq!((g.upvotes, g.downvotes), (2, 0));
    assert!(changed);
    assert_eq!(g.content, "c");
    let (h, changed) = apply_votes(g, &vec![r(ReactionKind::Unicode("⬆️".into()), 2)]);
    assert_eq!((h.upvotes, h.downvotes), (2, 0));
    assert!(!changed);
}

#[test]
fn purge_takes_one_to_a_hundred() {
    assert_eq!(purge_amount(Some(1)), Some(1));
    assert_eq!(purge_amount(Some(100)), Some(100));
    assert_eq!(purge_amount(Some(0)), None);
    assert_eq!(purge_amount(Some(101)), None);
    assert_eq!(purge_amount(Some(-1)), None);
    assert_eq!(purge_amount(Some(i64::MIN)), None);
    assert_eq!(purge_amount(None), None);
}

#[test]
fn closing_is_for_creators_and_those_in_charge() {
    assert!(may_close_ticket(1, 1, 9));
    assert!(may_close_ticket(9, 1, 9));
    assert!(!may_close_ticket(2, 1, 9));
    assert_eq!(commission_creator_id("commission_close_42"), 42);
    assert_eq!(commission_creator_id("commission_close_"), 0);
    assert_eq!(commission_creator_id("commission_close_x"), 0);
    assert_eq!(commission_creator_id("other_42"), 0);
    assert!(may_close_commission(42, "commission_close_42", false));
    assert!(!may_close_commission(41, "commission_close_42", false));
    assert!(may_close_commission(41, "commission_close_42", true));
    assert!(may_close_commission(0, "garbage", false));
    assert!(may_close_commission_channel("commission-ana-42", 42, false));
    assert!(!may_close_commission_channel("commission-ana-42", 43, false));
    assert!(may_close_commission_channel("commission-ana-42", 43, true));
}

#[test]
fn channels_are_named_after_their_user() {
    assert_eq!(commission_channel_for("Ana B", 42), "commission-ana b-42");
    assert!(is_commission_channel("commission-x"));
    assert!(!is_commission_channel("ticket-x"));
    assert!(!is_commission_channel("a commission-x"));
    let channels = vec![
        (1, "general".to_string()),
        (2, "ticket-42".to_string()),
        (3, "commission-bo-7".to_string()),
        (4, "commission-ana-42".to_string()),
        (5, "commission-old-142".to_string()),
    ];
    assert_eq!(find_commission_channel(&channels, 42), Some(4));
    assert_eq!(find_commission_channel(&channels, 7), Some(3));
    assert_eq!(find_commission_channel(&channels, 14), Some(5));
    assert_eq!(find_commission_channel(&channels, 8), None);
    assert_eq!(find_commission_channel(&Vec::new(), 8), None);
    assert_eq!(ticket_channel_for(42, "ABCDEF12-3456"), "ticket-42-abcdef12");
    assert_eq!(ticket_channel_for(42, "AB"), "ticket-42-ab");
    assert_eq!(channel_named("commission-", "Ana", 7), "commission-Ana-7");
    assert_eq!(ticket_channel_named(7, "Tail"), "ticket-7-Tail");
    assert_eq!(shorten("123456789"), "12345678");
    assert_eq!(shorten("12345678"), "12345678");
    assert_eq!(shorten(""), "");
}

#[test]
fn emoji_codes_hold_a_number() {
    assert_eq!(custom_emoji_id("<:up:1400579660408029235>"), Some(1400579660408029235));
    assert_eq!(custom_emoji_id("<a:up:12>"), Some(12));
    assert_eq!(custom_emoji_id("<:up:12>:more"), Some(12));
    assert_eq!(custom_emoji_id("<:up:12"), None);
    assert_eq!(custom_emoji_id("<:up:>"), None);
    assert_eq!(custom_emoji_id("<:up:x>"), None);
    assert_eq!(custom_emoji_id("<:up>"), None);
    assert_eq!(custom_emoji_id("up"), None);
    assert_eq!(custom_emoji_id(""), None);
}

#[test]
fn roles_are_listed_up_to_ten() {
    assert_eq!(roles_text(&vec![], "none"), "none");
    assert_eq!(roles_text(&vec![5], "none"), "<@&5>");
    assert_eq!(roles_text(&vec![5, 6, 7], "none"), "<@&5>, <@&6>, <@&7>");
    let many: Vec<u64> = (1..=12).collect();
    assert_eq!(
        roles_text(&many, "none"),
        "<@&1>, <@&2>, <@&3>, <@&4>, <@&5>, <@&6>, <@&7>, <@&8>, <@&9>, <@&10>"
    );
}

#[test]
fn help_knows_eight_commands() {
    let mut m = Messages::default();
    m.embeds.help.commands.ping.title = "Ping".into();
    m.embeds.help.commands.reminder.usage = "/reminder".into();
    m.embeds.help.commands.commission_setup.title = "hidden".into();
    let l = LanguageManager::from_messages(m);
    assert_eq!(help_entry(&l, "ping").unwrap().title, "Ping");
    assert_eq!(help_entry(&l, "reminder").unwrap().usage, "/reminder");
    for known in ["info", "hello", "stats", "images", "userinfo", "purge"] {
        assert!(help_entry(&l, known).is_some());
    }
    assert!(help_entry(&l, "commission_setup").is_none());
    assert!(help_entry(&l, "").is_none());
}

#[test]
fn commands_and_controls_are_routed() {
    assert_eq!(route_command("ping"), CommandRoute::Ping);
    assert_eq!(route_command("images"), CommandRoute::Images);
    assert_eq!(route_command("User Info"), CommandRoute::UserInfo);
    assert_eq!(route_command("stats"), CommandRoute::Stats);
    assert_eq!(route_command("purge"), CommandRoute::Purge);
    assert_eq!(route_command("reminder"), CommandRoute::Reminder);
    assert_eq!(route_command("commission_setup"), CommandRoute::CommissionSetup);
    assert_eq!(route_command("commission_close"), CommandRoute::CommissionClose);
    assert_eq!(route_command("ticket_setup"), CommandRoute::TicketSetup);
    assert_eq!(route_command("ticket_close"), CommandRoute::TicketClose);
    assert_eq!(route_command("feedback_setup"), CommandRoute::FeedbackSetup);
    assert_eq!(route_command("info"), CommandRoute::Info);
    assert_eq!(route_command("hello"), CommandRoute::Hello);
    assert_eq!(route_command("help"), CommandRoute::Help);
    assert_eq!(route_command("Ping"), CommandRoute::Unknown);
    assert_eq!(route_component("help_select"), ComponentRoute::HelpSelect);
    assert_eq!(route_component("help_back"), ComponentRoute::HelpBack);
    assert_eq!(route_component("commission_create"), ComponentRoute::CommissionCreate);
    assert_eq!(route_component("commission_close_42"), ComponentRoute::CommissionClose);
    assert_eq!(route_component("commission_close_"), ComponentRoute::CommissionClose);
    assert_eq!(route_component("ticket_create"), ComponentRoute::TicketCreate);
    assert_eq!(route_component("ticket_close_ticket-1-ab"), ComponentRoute::TicketClose);
    assert_eq!(route_component("reminder_status_id"), ComponentRoute::ReminderStatus);
    assert_eq!(route_component("reminder_status"), ComponentRoute::Unknown);
    assert_eq!(route_component("help_selected"), ComponentRoute::Unknown);
    assert_eq!(route_component(""), ComponentRoute::Unknown);
}
