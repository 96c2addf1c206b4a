use lorian_bot::conversation::{
    AIMessage, ConversationContext, MessageRole, MAX_CONTEXT_MESSAGES, SUMMARY_TRIGGER,
};
use lorian_bot::time::Timestamp;

fn msg(i: usize) -> AIMessage {
    AIMessage::new_at(MessageRole::User, format!("m{}", i), Timestamp { secs: i as i64, nanos: 0 })
}

#[test]
fn history_keeps_the_fifteen_most_recent_in_order() {
    let mut c = ConversationContext::new();
    for i in 0..40 {
        c.add_message(msg(i));
        assert!(c.message_count() <= 15);
        let first = if i >= 15 { i - 14 } else { 0 };
        let kept: Vec<String> = c.get_all_messages().iter().map(|m| m.content.clone()).collect();
        let expected: Vec<String> = (first..=i).map(|k| format!("m{}", k)).collect();
        assert_eq!(kept, expected);
    }
    assert_eq!(MAX_CONTEXT_MESSAGES, 15);
}

#[test]
fn an_overfull_history_is_cut_on_the_next_append() {
    let mut c = ConversationContext::new();
    c.messages = (0..30).map(msg).collect();
    c.add_message_at(msg(30), Timestamp { secs: 99, nanos: 1 });
    assert_eq!(c.message_count(), 15);
    assert_eq!(c.messages[0].content, "m16");
    assert_eq!(c.messages[14].content, "m30");
    assert_eq!(c.last_updated, Timestamp { secs: 99, nanos: 1 });
}

#[test]
fn recent_messages_are_the_last_ones() {
    let mut c = ConversationContext::new();
    for i in 0..5 {
        c.add_message(msg(i));
    }
    let last2: Vec<&str> = c.get_recent_messages(2).iter().map(|m| m.content.as_str()).collect();
    assert_eq!(last2, vec!["m3", "m4"]);
    assert_eq!(c.get_recent_messages(0).len(), 0);
    assert_eq!(c.get_recent_messages(5).len(), 5);
    assert_eq!(c.get_recent_messages(50).len(), 5);
    assert_eq!(c.get_recent_messages(2).len(), 2);
    assert_eq!(c.message_count(), 5);
}

#[test]
fn counter_triggers_on_every_twentieth_call() {
    let mut c = ConversationContext::new();
    for call in 1..=100u32 {
        let fired = c.increment_message_counter();
        assert_eq!(fired, call % 20 == 0, "call {}", call);
        assert_eq!(c.message_count_for_summary, call % 20);
    }
    assert_eq!(SUMMARY_TRIGGER, 20);
}

#[test]
fn counter_at_its_largest_value_triggers_and_resets() {
    let mut c = ConversationContext::new();
    c.message_count_for_summary = u32::MAX;
    assert!(c.increment_message_counter_at(Timestamp { secs: 5, nanos: 0 }));
    assert_eq!(c.message_count_for_summary, 0);
    assert_eq!(c.last_updated.secs, 5);
    c.message_count_for_summary = 18;
    assert!(!c.increment_message_counter());
    assert_eq!(c.message_count_for_summary, 19);
    assert!(c.increment_message_counter());
    assert_eq!(c.message_count_for_summary, 0);
}

#[test]
fn summary_is_replaced_as_a_whole() {
    let mut c = ConversationContext::new();
    assert!(!c.has_summary());
    assert_eq!(c.get_summary(), "");
    c.update_summary("likes rust".to_string());
    assert!(c.has_summary());
    c.update_summary_at("new".to_string(), Timestamp { secs: 7, nanos: 3 });
    assert_eq!(c.get_summary(), "new");
    assert_eq!(c.last_updated, Timestamp { secs: 7, nanos: 3 });
    c.update_summary(String::new());
    assert!(!c.has_summary());
}

#[test]
fn transcript_lists_role_and_text() {
    let mut c = ConversationContext::new();
    assert_eq!(c.get_conversation_summary(), "No previous conversation.");
    assert!(c.is_empty());
    c.add_message(AIMessage::new(MessageRole::User, "hi".into()));
    c.add_message(AIMessage::new(MessageRole::Assistant, "hello".into()));
    c.add_message(AIMessage::new(MessageRole::System, "note".into()));
    assert_eq!(c.get_conversation_summary(), "User: hi\nAssistant: hello\nSystem: note\n");
    assert!(!c.is_empty());
    c.clear_messages();
    assert!(c.is_empty());
    assert_eq!(c.get_conversation_summary(), "No previous conversation.");
}

#[test]
fn settings_are_stored_and_replaced() {
    let mut c = ConversationContext::new().with_user_name("Ana".into());
    assert_eq!(c.user_name, "Ana");
    assert_eq!(c.get_setting("k"), None);
    c.set_setting("k".into(), "1".into());
    c.set_setting("j".into(), "2".into());
    c.set_setting("k".into(), "3".into());
    assert_eq!(c.get_setting("k").map(|s| s.as_str()), Some("3"));
    assert_eq!(c.get_setting("j").map(|s| s.as_str()), Some("2"));
    assert_eq!(c.settings.len(), 2);
}

#[test]
fn message_builders_set_their_field() {
    let m = AIMessage::new(MessageRole::Assistant, "x".into())
        .with_channel("c1".into())
        .with_discord_message_id("d1".into());
    assert_eq!(m.role, MessageRole::Assistant);
    assert_eq!(m.content, "x");
    assert_eq!(m.channel_id.as_deref(), Some("c1"));
    assert_eq!(m.discord_message_id.as_deref(), Some("d1"));
    assert!(m.timestamp.secs > 1_600_000_000);
    let copy = m.clone();
    assert_eq!(copy.content, "x");
    assert_eq!(copy.channel_id.as_deref(), Some("c1"));
    let plain = AIMessage::new_at(MessageRole::User, "y".into(), Timestamp { secs: 1, nanos: 2 });
    assert_eq!(plain.channel_id, None);
    assert_eq!(plain.discord_message_id, None);
    assert_eq!(plain.timestamp, Timestamp { secs: 1, nanos: 2 });
}

#[test]
fn a_cloned_context_is_equal_field_by_field() {
    let mut c = ConversationContext::new_at(Timestamp { secs: 3, nanos: 4 }).with_user_name("Bo".into());
    c.add_message(msg(1));
    c.set_setting("a".into(), "b".into());
    c.update_summary("s".into());
    c.increment_message_counter();
    let d = c.clone();
    assert_eq!(d.user_name, c.user_name);
    assert_eq!(d.messages.len(), 1);
    assert_eq!(d.messages[0].content, "m1");
    assert_eq!(d.last_updated, c.last_updated);
    assert_eq!(d.get_setting("a").map(|s| s.as_str()), Some("b"));
    assert_eq!(d.user_summary, "s");
    assert_eq!(d.message_count_for_summary, 1);
    let e = ConversationContext::default();
    assert!(e.is_empty());
    assert_eq!(e.user_name, "");
}
