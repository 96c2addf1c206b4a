use lorian_bot::conversation::{AIMessage, ConversationContext, MessageRole};
use lorian_bot::data::{BotData, FeedbackMessage, Reminder};
use lorian_bot::message_data::{ButtonAction, ButtonMessageData, FeedbackReactionType, MessageType};
use lorian_bot::store::StringMap;
use lorian_bot::time::Timestamp;

fn ts(secs: i64) -> Timestamp {
    Timestamp { secs, nanos: 0 }
}

fn reminder(id: &str, due: i64, sent: bool, channel: &str) -> Reminder {
    Reminder {
        id: id.into(),
        user_id: "42".into(),
        user_name: "ana".into(),
        message: format!("do {}", id),
        channel_id: channel.into(),
        reminder_time: ts(due),
        created_at: ts(due - 100),
        is_sent: sent,
        is_private: false,
        mention_type: "none".into(),
        has_status: false,
    }
}

fn feedback(id: &str, created: i64) -> FeedbackMessage {
    FeedbackMessage {
        message_id: id.into(),
        original_author_id: "1".into(),
        original_author_name: "a".into(),
        original_author_avatar: "u".into(),
        content: "c".into(),
        channel_id: "9".into(),
        upvotes: 0,
        downvotes: 0,
        created_at: ts(created),
    }
}

fn ids(d: &BotData) -> Vec<String> {
    (0..d.reminders.len()).map(|i| d.reminders.key_at(i).clone()).collect()
}

#[test]
fn removing_unknown_ids_is_a_no_op() {
    let mut d = BotData::new();
    d.add_reminder(reminder("r1", 10, false, "5"));
    d.add_feedback_message("f1".into(), feedback("f1", 1));
    d.add_button_message("b1".into(), ButtonMessageData::new("b1".into(), "c".into(), MessageType::General));
    assert!(d.remove_reminder("nope").is_none());
    assert!(d.remove_feedback_message("nope").is_none());
    assert!(d.remove_button_message("nope").is_none());
    assert_eq!(d.reminders.len(), 1);
    assert_eq!(d.feedback_messages.len(), 1);
    assert_eq!(d.button_messages.len(), 1);
    assert!(d.get_reminder("r1").is_some());
    assert_eq!(d.remove_reminder("r1").map(|r| r.message), Some("do r1".to_string()));
    assert!(d.remove_reminder("r1").is_none());
    assert_eq!(d.reminders.len(), 0);
    assert!(d.remove_feedback_message("f1").is_some());
    assert!(d.remove_feedback_message("f1").is_none());
    assert!(d.remove_button_message("b1").is_some());
    assert!(d.remove_button_message("b1").is_none());
}

#[test]
fn pending_reminders_are_unsent_and_due() {
    let mut d = BotData::new();
    d.add_reminder(reminder("early", 10, false, "5"));
    d.add_reminder(reminder("late", 100, false, "5"));
    d.add_reminder(reminder("done", 10, true, "5"));
    d.add_reminder(reminder("now", 50, false, "5"));
    let at50: Vec<&str> = d.get_pending_reminders_at(ts(50)).iter().map(|r| r.id.as_str()).collect();
    assert_eq!(at50, vec!["early", "now"]);
    assert!(d.get_pending_reminders_at(ts(9)).is_empty());
    let almost = Timestamp { secs: 49, nanos: 999_999_999 };
    assert_eq!(d.get_pending_reminders_at(almost).len(), 1);
    let all_now: Vec<&str> = d.get_pending_reminders().iter().map(|r| r.id.as_str()).collect();
    assert_eq!(all_now, vec!["early", "late", "now"]);
}

#[test]
fn a_sweep_never_hands_a_reminder_out_twice() {
    let mut d = BotData::new();
    d.add_reminder(reminder("a", 10, false, "5"));
    d.add_reminder(reminder("b", 20, false, "77"));
    d.add_reminder(reminder("c", 30, false, "5"));
    d.add_reminder(reminder("bad", 5, false, "not-a-number"));
    let first: Vec<String> = d.claim_due_reminders_at(ts(20)).into_iter().map(|r| r.id).collect();
    assert_eq!(first, vec!["a", "b"]);
    let again: Vec<String> = d.claim_due_reminders_at(ts(20)).into_iter().map(|r| r.id).collect();
    assert!(again.is_empty());
    let later: Vec<String> = d.claim_due_reminders_at(ts(1000)).into_iter().map(|r| r.id).collect();
    assert_eq!(later, vec!["c"]);
    assert!(d.claim_due_reminders_at(ts(5000)).is_empty());
    assert!(d.get_reminder("a").unwrap().is_sent);
    assert!(d.get_reminder("c").unwrap().is_sent);
    assert!(!d.get_reminder("bad").unwrap().is_sent);
    assert_eq!(ids(&d), vec!["a", "b", "c", "bad"]);
}

#[test]
fn a_reminder_is_claimed_once() {
    let mut d = BotData::new();
    d.add_reminder(reminder("a", 10, false, "5"));
    assert!(d.claim_reminder_at("a", ts(9)).is_none());
    assert!(d.claim_reminder_at("zz", ts(99)).is_none());
    let got = d.claim_reminder_at("a", ts(10)).unwrap();
    assert_eq!(got.id, "a");
    assert!(!got.is_sent);
    assert!(d.claim_reminder_at("a", ts(10)).is_none());
    assert!(d.claim_reminder_at("a", ts(99)).is_none());
    assert!(d.get_reminder("a").unwrap().is_sent);
    assert!(BotData::reminder_has_channel(&reminder("x", 1, false, "123")));
    assert!(!BotData::reminder_has_channel(&reminder("x", 1, false, "")));
    assert!(!BotData::reminder_has_channel(&reminder("x", 1, false, "12a")));
}

#[test]
fn changes_are_stamped_with_the_given_time() {
    let mut d = BotData::new_at(ts(1));
    d.add_reminder_at(reminder("a", 10, false, "5"), ts(2));
    assert_eq!(d.last_updated, ts(2));
    d.mark_reminder_sent_at("zz", ts(3));
    assert_eq!(d.last_updated, ts(2));
    d.mark_reminder_sent_at("a", ts(3));
    assert_eq!(d.last_updated, ts(3));
    assert!(d.remove_reminder_at("zz", ts(4)).is_none());
    assert_eq!(d.last_updated, ts(3));
    d.add_feedback_message_at("f".into(), feedback("f", 1), ts(5));
    assert_eq!(d.last_updated, ts(5));
    d.clean_old_feedback_messages_at(1, ts(6));
    assert_eq!(d.last_updated, ts(5));
    d.clean_old_feedback_messages_at(0, ts(6));
    assert_eq!(d.last_updated, ts(6));
    assert!(d.remove_feedback_message_at("f", ts(7)).is_none());
    assert_eq!(d.last_updated, ts(6));
    d.add_feedback_message_at("g".into(), feedback("g", 1), ts(7));
    assert!(d.remove_feedback_message_at("g", ts(8)).is_some());
    assert_eq!(d.last_updated, ts(8));
    d.add_button_message_at("b".into(), ButtonMessageData::new("b".into(), "c".into(), MessageType::General), ts(8));
    assert_eq!(d.last_updated, ts(8));
    assert!(d.remove_button_message_at("zz", ts(9)).is_none());
    assert_eq!(d.last_updated, ts(8));
    assert!(d.remove_button_message_at("b", ts(9)).is_some());
    assert_eq!(d.last_updated, ts(9));
    assert!(d.remove_button_message_at("b", ts(99)).is_none());
    assert_eq!(d.last_updated, ts(9));
    d.add_conversation_context_at("u".into(), ConversationContext::new(), ts(10));
    assert_eq!(d.last_updated, ts(10));
    d.add_reminder_at(reminder("b", 10, false, "5"), ts(11));
    assert!(d.claim_reminder_at("b", ts(5)).is_none());
    assert_eq!(d.last_updated, ts(11));
    assert!(d.claim_reminder_at("b", ts(12)).is_some());
    assert_eq!(d.last_updated, ts(12));
    assert!(d.claim_due_reminders_at(ts(13)).is_empty());
    assert_eq!(d.last_updated, ts(12));
}

#[test]
fn a_released_claim_can_be_claimed_again() {
    let mut d = BotData::new_at(ts(1));
    d.add_reminder_at(reminder("a", 10, false, "5"), ts(2));
    assert!(!d.release_reminder_at("a", ts(3)));
    assert!(!d.release_reminder_at("zz", ts(3)));
    assert_eq!(d.last_updated, ts(2));
    assert!(d.claim_reminder_at("a", ts(20)).is_some());
    assert!(d.claim_reminder_at("a", ts(21)).is_none());
    assert!(d.release_reminder_at("a", ts(22)));
    assert_eq!(d.last_updated, ts(22));
    let a = d.get_reminder("a").unwrap();
    assert!(!a.is_sent);
    assert_eq!((a.message.as_str(), a.reminder_time, a.created_at), ("do a", ts(10), ts(-90)));
    assert!(!d.release_reminder_at("a", ts(23)));
    assert_eq!(d.last_updated, ts(22));
    let again: Vec<String> = d.claim_due_reminders_at(ts(30)).into_iter().map(|r| r.id).collect();
    assert_eq!(again, vec!["a"]);
    assert!(d.release_reminder("a"));
    assert!(!d.release_reminder("a"));
}

#[test]
fn marking_sent_flips_only_the_flag() {
    let mut d = BotData::new();
    d.add_reminder(reminder("a", 10, false, "5"));
    d.mark_reminder_sent("zz");
    assert!(!d.get_reminder("a").unwrap().is_sent);
    d.mark_reminder_sent("a");
    let a = d.get_reminder("a").unwrap();
    assert!(a.is_sent);
    assert_eq!(a.reminder_time, ts(10));
    assert_eq!(a.message, "do a");
    if let Some(r) = d.get_reminder_mut("a") {
        r.message = "changed".into();
    }
    assert_eq!(d.get_reminder("a").unwrap().message, "changed");
    assert!(d.get_reminder_mut("zz").is_none());
}

#[test]
fn old_sent_reminders_are_dropped() {
    let mut d = BotData::new();
    let day = 86400;
    let mut old_sent = reminder("old_sent", 0, true, "5");
    old_sent.created_at = ts(100 * day - 8 * day);
    let mut new_sent = reminder("new_sent", 0, true, "5");
    new_sent.created_at = ts(100 * day - 6 * day);
    let mut edge = reminder("edge", 0, true, "5");
    edge.created_at = ts(100 * day - 7 * day);
    let mut old_unsent = reminder("old_unsent", 0, false, "5");
    old_unsent.created_at = ts(0);
    d.add_reminder(old_sent);
    d.add_reminder(new_sent);
    d.add_reminder(edge);
    d.add_reminder(old_unsent);
    d.clean_old_reminders_at(7, ts(100 * day));
    assert_eq!(ids(&d), vec!["new_sent", "old_unsent"]);
    assert_eq!(d.last_updated, ts(100 * day));
    d.clean_old_reminders(0);
    assert_eq!(ids(&d), vec!["old_unsent"]);
}

#[test]
fn old_conversations_are_dropped() {
    let mut d = BotData::new();
    let day = 86400;
    d.add_conversation_context("old".into(), ConversationContext::new_at(ts(10 * day)));
    d.add_conversation_context("edge".into(), ConversationContext::new_at(ts(70 * day)));
    d.add_conversation_context(
        "just".into(),
        ConversationContext::new_at(Timestamp { secs: 70 * day, nanos: 1 }),
    );
    d.add_conversation_context("new".into(), ConversationContext::new_at(ts(99 * day)));
    d.clean_old_conversations_at(30, ts(100 * day));
    let left: Vec<String> = (0..d.conversations.len()).map(|i| d.conversations.key_at(i).clone()).collect();
    assert_eq!(left, vec!["just", "new"]);
    d.clean_old_conversations_at(i64::MAX, ts(100 * day));
    assert_eq!(d.conversations.len(), 2);
    d.clean_old_conversations_at(i64::MIN, ts(100 * day));
    assert_eq!(d.conversations.len(), 0);
    d.add_conversation_context("x".into(), ConversationContext::new());
    d.clean_old_conversations(1);
    assert_eq!(d.conversations.len(), 1);
}

#[test]
fn feedback_is_cut_down_to_the_newest() {
    let mut d = BotData::new();
    for (id, t) in [("a", 5), ("b", 1), ("c", 9), ("d", 1), ("e", 7)] {
        d.add_feedback_message(id.into(), feedback(id, t));
    }
    d.clean_old_feedback_messages(5);
    assert_eq!(d.feedback_messages.len(), 5);
    d.clean_old_feedback_messages(3);
    let left: Vec<String> =
        (0..d.feedback_messages.len()).map(|i| d.feedback_messages.key_at(i).clone()).collect();
    assert_eq!(left, vec!["a", "c", "e"]);
    d.clean_old_feedback_messages(0);
    assert_eq!(d.feedback_messages.len(), 0);
    d.clean_old_feedback_messages(0);
    assert_eq!(d.feedback_messages.len(), 0);
    let mut f = feedback("z", 3);
    f.upvotes = 2;
    d.add_feedback_message("z".into(), f);
    if let Some(m) = d.get_feedback_message_mut("z") {
        m.downvotes = 4;
    }
    let got = d.get_feedback_message("z").unwrap();
    assert_eq!((got.upvotes, got.downvotes), (2, 4));
    assert!(d.get_feedback_message_mut("q").is_none());
}

#[test]
fn messages_start_or_extend_a_conversation() {
    let mut d = BotData::new();
    d.add_message_to_conversation("u1", AIMessage::new(MessageRole::User, "one".into()));
    d.add_message_to_conversation_with_name("u1", "Ana", AIMessage::new(MessageRole::Assistant, "two".into()));
    d.add_message_to_conversation_with_name("u2", "Bo", AIMessage::new(MessageRole::User, "x".into()));
    d.record_message_at("u2", None, AIMessage::new(MessageRole::User, "y".into()), ts(77));
    let c1 = d.get_conversation_context("u1").unwrap();
    assert_eq!(c1.user_name, "Ana");
    assert_eq!(c1.get_conversation_summary(), "User: one\nAssistant: two\n");
    let c2 = d.get_conversation_context("u2").unwrap();
    assert_eq!(c2.user_name, "Bo");
    assert_eq!(c2.message_count(), 2);
    assert_eq!(c2.last_updated, ts(77));
    assert_eq!(d.last_updated, ts(77));
    assert!(d.get_conversation_context("u3").is_none());
    for i in 0..30 {
        d.add_message_to_conversation("u1", AIMessage::new(MessageRole::User, format!("m{}", i)));
    }
    assert_eq!(d.get_conversation_context("u1").unwrap().message_count(), 15);
    if let Some(c) = d.get_conversation_context_mut("u1") {
        c.update_summary("s".into());
    }
    assert_eq!(d.get_conversation_context("u1").unwrap().get_summary(), "s");
    assert!(d.get_conversation_context_mut("nobody").is_none());
}

#[test]
fn records_bind_controls_to_actions() {
    let mut r = ButtonMessageData::new_at("m".into(), "c".into(), MessageType::Ticket, ts(3));
    assert!(r.is_ticket_message());
    assert!(!r.is_feedback_message());
    r.add_button_action(
        "close".into(),
        ButtonAction::CloseTicket { ticket_channel_id: "c".into(), creator_id: "7".into() },
    );
    r.add_button_action(
        "vote".into(),
        ButtonAction::FeedbackReaction { reaction_type: FeedbackReactionType::Upvote, original_user_id: "8".into() },
    );
    let mut params = StringMap::new();
    params.insert("p".into(), "q".into());
    r.add_button_action("close".into(), ButtonAction::Custom { action_name: "n".into(), parameters: params });
    assert_eq!(r.button_actions.len(), 2);
    match r.get_button_action("close") {
        Some(ButtonAction::Custom { action_name, parameters }) => {
            assert_eq!(action_name, "n");
            assert_eq!(parameters.get("p").map(|s| s.as_str()), Some("q"));
        }
        other => panic!("unexpected {:?}", other),
    }
    assert!(r.get_button_action("none").is_none());
    r.add_metadata("creator_id".into(), "7".into());
    r.add_metadata("creator_id".into(), "9".into());
    assert_eq!(r.get_metadata("creator_id").map(|s| s.as_str()), Some("9"));
    assert_eq!(r.get_metadata("x"), None);
    let copy = r.clone();
    assert_eq!(copy.message_id, "m");
    assert_eq!(copy.created_at, ts(3));
    assert_eq!(copy.button_actions.len(), 2);
    assert_eq!(copy.get_metadata("creator_id").map(|s| s.as_str()), Some("9"));
    assert!(ButtonMessageData::new("a".into(), "b".into(), MessageType::Commission).is_ticket_message());
    assert!(ButtonMessageData::new("a".into(), "b".into(), MessageType::Feedback).is_feedback_message());
    assert!(!ButtonMessageData::new("a".into(), "b".into(), MessageType::General).is_ticket_message());
}

#[test]
fn a_cloned_aggregate_holds_the_same() {
    let mut d = BotData::new_at(ts(5));
    d.add_reminder(reminder("a", 10, false, "5"));
    d.add_feedback_message("f".into(), feedback("f", 2));
    d.add_message_to_conversation_with_name("u", "Ana", AIMessage::new(MessageRole::User, "hi".into()));
    d.add_button_message("b".into(), ButtonMessageData::new("b".into(), "c".into(), MessageType::Ticket));
    let e = d.clone();
    assert_eq!(e.last_updated, d.last_updated);
    assert_eq!(e.get_reminder("a").unwrap().message, "do a");
    assert_eq!(e.get_feedback_message("f").unwrap().created_at, ts(2));
    assert_eq!(e.get_conversation_context("u").unwrap().user_name, "Ana");
    assert_eq!(e.get_button_message("b").unwrap().message_type, MessageType::Ticket);
    let blank = BotData::default();
    assert_eq!(blank.reminders.len() + blank.conversations.len(), 0);
}
