use lorian_bot::ai::{AIConfig, AIError, AIManager, MessageRoute, OwnerInfo};
use lorian_bot::conversation::{AIMessage, ConversationContext, MessageRole};
use lorian_bot::emotions::EmotionType;
use lorian_bot::gemini::{api_url, first_response, request_url, safety_settings, Candidate, GeminiError, SafetyRating};
use lorian_bot::lang::{BotEmojis, BotImages, EmojiManager, ImageManager, LanguageManager, Messages};
use lorian_bot::recovery::{AIJSONResponse, Recovered};
use lorian_bot::responses::{AIResponseBuilder, ButtonStyle, ButtonType};
use lorian_bot::time::Timestamp;

fn language() -> LanguageManager {
    let mut m = Messages::default();
    m.ai.embeds.title_format = "{emoji} Reply".into();
    m.ai.embeds.footer_format = "for {username} {emotion_emoji}".into();
    LanguageManager::from_messages(m)
}

fn images() -> ImageManager {
    let mut b = BotImages::default();
    b.avatar.insert("pointing".into(), "url-pointing".into());
    b.emotions.insert("happy".into(), "url-happy".into());
    b.talking.insert("talk1".into(), "url-talk".into());
    b.misc.insert("happy".into(), "url-misc-happy".into());
    ImageManager::from_images(b)
}

fn emojis() -> EmojiManager {
    EmojiManager::from_emojis(BotEmojis::default())
}

fn manager() -> AIManager {
    AIManager::new(AIConfig::with_key("key".into(), OwnerInfo::fallback())).ok().unwrap()
}

#[test]
fn buttons_know_their_id_style_and_label() {
    let c = ButtonType::Commission { label: "Order".into(), service_type: "web".into() };
    let t = ButtonType::Ticket { label: "Help".into() };
    let f = ButtonType::Feedback { label: "Rate".into(), action: "up".into() };
    let x = ButtonType::Custom { label: "Go".into(), custom_id: "go_1".into(), style: ButtonStyle::Danger };
    assert_eq!(c.custom_id(), "ai_commission_web");
    assert_eq!(t.custom_id(), "ai_create_ticket");
    assert_eq!(f.custom_id(), "ai_feedback_up");
    assert_eq!(x.custom_id(), "go_1");
    assert_eq!(c.style(), ButtonStyle::Primary);
    assert_eq!(t.style(), ButtonStyle::Secondary);
    assert_eq!(f.style(), ButtonStyle::Success);
    assert_eq!(x.style(), ButtonStyle::Danger);
    assert_eq!((c.label(), t.label(), f.label(), x.label()), ("Order", "Help", "Rate", "Go"));
    assert_eq!(c.metadata_value(), "commission:web");
    assert_eq!(t.metadata_value(), "ticket:create");
    assert_eq!(f.metadata_value(), "feedback:up");
    assert_eq!(x.metadata_value(), "custom:go_1");
    assert_eq!(x.clone().custom_id(), "go_1");
}

#[test]
fn a_reply_is_built_step_by_step() {
    let b = AIResponseBuilder::new();
    assert_eq!(b.get_content(), "");
    assert_eq!(*b.get_emotion(), EmotionType::Neutral);
    assert!(!b.has_buttons());
    let b = b
        .content("hello".into())
        .emotion(EmotionType::Happy)
        .add_button(ButtonType::Ticket { label: "Help".into() })
        .footer("foot".into())
        .custom_color((1, 2, 3))
        .thumbnail("url".into());
    assert_eq!(b.get_content(), "hello");
    assert_eq!(*b.get_emotion(), EmotionType::Happy);
    assert!(b.has_buttons());
    assert_eq!(b.get_buttons().len(), 1);
    let e = b.build_embed(&images(), &emojis(), "Ana", &language());
    assert_eq!(e.title, "😊 Reply");
    assert_eq!(e.description, "hello");
    assert_eq!(e.color, (1, 2, 3));
    assert_eq!(e.thumbnail, "url");
    assert_eq!(e.footer, "foot");
    assert!(e.fields.is_empty());
    assert_eq!(AIResponseBuilder::default().get_content(), "");
}

#[test]
fn a_card_takes_its_defaults_from_the_emotion() {
    let e = AIResponseBuilder::new().emotion(EmotionType::Happy).build_embed(&images(), &emojis(), "Ana", &language());
    assert_eq!(e.color, (255, 215, 0));
    assert_eq!(e.thumbnail, "url-happy");
    assert_eq!(e.footer, "for Ana 😊");
    let n = AIResponseBuilder::new().emotion(EmotionType::Curious).build_embed(&images(), &emojis(), "Bo", &language());
    assert_eq!(n.thumbnail, "url-pointing");
    assert_eq!(n.title, "🔍 Reply");
    let bare = ImageManager::from_images(BotImages::default());
    let d = AIResponseBuilder::new().build_embed(&bare, &emojis(), "Bo", &language());
    assert_eq!(d.thumbnail, "https://cdn.discordapp.com/embed/avatars/0.png");
    assert_eq!(d.color, (128, 128, 128));
}

#[test]
fn buttons_fill_rows_of_five() {
    let mut b = AIResponseBuilder::new();
    assert!(b.build_action_rows().is_empty());
    for i in 0..12 {
        b = b.add_button(ButtonType::Custom {
            label: format!("L{}", i),
            custom_id: format!("id{}", i),
            style: ButtonStyle::Primary,
        });
        let rows = b.build_action_rows();
        assert_eq!(rows.len(), (i + 1 + 4) / 5);
        let flat: Vec<&str> = rows.iter().flatten().map(|p| p.custom_id.as_str()).collect();
        let expected: Vec<String> = (0..=i).map(|k| format!("id{}", k)).collect();
        assert_eq!(flat, expected);
        assert!(rows.iter().all(|r| !r.is_empty() && r.len() <= 5));
        assert!(rows[..rows.len() - 1].iter().all(|r| r.len() == 5));
    }
    let rows = b.build_action_rows();
    assert_eq!(rows[2][1].label, "L11");
    assert_eq!(rows[2][1].style, ButtonStyle::Primary);
}

#[test]
fn metadata_records_buttons_emotion_and_count() {
    let b = AIResponseBuilder::new()
        .emotion(EmotionType::Helpful)
        .add_button(ButtonType::Ticket { label: "a".into() })
        .add_button(ButtonType::Feedback { label: "b".into(), action: "down".into() });
    let m = b.get_button_metadata();
    assert_eq!(m.len(), 4);
    assert_eq!(m.get("button_0").map(|s| s.as_str()), Some("ticket:create"));
    assert_eq!(m.get("button_1").map(|s| s.as_str()), Some("feedback:down"));
    assert_eq!(m.get("emotion").map(|s| s.as_str()), Some("Helpful"));
    assert_eq!(m.get("button_count").map(|s| s.as_str()), Some("2"));
    let empty = AIResponseBuilder::new().get_button_metadata();
    assert_eq!(empty.len(), 2);
    assert_eq!(empty.get("emotion").map(|s| s.as_str()), Some("Neutral"));
    assert_eq!(empty.get("button_count").map(|s| s.as_str()), Some("0"));
}

#[test]
fn the_assistant_needs_a_key() {
    assert_eq!(AIManager::new(AIConfig::with_key("".into(), OwnerInfo::fallback())).err(), Some(AIError::MissingApiKey));
    let m = manager();
    assert_eq!(m.get_ai_channel_id(), "1400493466080903171");
    assert_eq!(m.get_owner_id(), "1400464001133056111");
    assert!(m.should_process_message("1400493466080903171", "5"));
    assert!(!m.should_process_message("1400493466080903171", "1400464001133056111"));
    assert!(!m.should_process_message("1", "5"));
    let c = AIConfig::with_key("k".into(), OwnerInfo::fallback());
    assert_eq!(c.max_context_length, 15);
    assert_eq!(c.api_key, "k");
}

#[test]
fn incoming_messages_are_routed() {
    let m = manager();
    assert_eq!(m.route_message(true, "1400493466080903171", "5"), MessageRoute::Ignored);
    assert_eq!(m.route_message(true, "1400466972293992498", "5"), MessageRoute::Ignored);
    assert_eq!(m.route_message(false, "1400466972293992498", "5"), MessageRoute::Feedback);
    assert_eq!(m.route_message(false, "1400466972293992498", "1400464001133056111"), MessageRoute::Feedback);
    assert_eq!(m.route_message(false, "1400493466080903171", "5"), MessageRoute::Assistant);
    assert_eq!(m.route_message(false, "1400493466080903171", "1400464001133056111"), MessageRoute::Unanswered);
    assert_eq!(m.route_message(false, "77", "5"), MessageRoute::Unanswered);
}

#[test]
fn the_fallback_owner_is_fixed() {
    let o = OwnerInfo::fallback();
    assert_eq!(o.name, "TheLorian");
    assert_eq!(o.email, "the_lorian@centaury.net");
    assert_eq!(o.skills.len(), 5);
    assert_eq!(o.skills[1], "Rust Programming");
    assert_eq!(o.discord_id, "1400464001133056111");
    assert_eq!(o.sarcasm_level.as_deref(), Some("Moderate"));
    assert_eq!(o.response_style.as_deref(), Some("Quick and confident"));
    assert!(o.bio.starts_with("Passionate and creative developer"));
    assert!(o.personality.unwrap().ends_with("(much)."));
}

#[test]
fn image_addresses_are_searched_through_the_categories() {
    let i = images();
    assert_eq!(AIManager::get_image_url("happy", &i), "url-happy");
    assert_eq!(AIManager::get_image_url("talk1", &i), "url-talk");
    assert_eq!(AIManager::get_image_url("pointing", &i), "url-pointing");
    assert_eq!(AIManager::get_image_url("unknown", &i), "url-pointing");
    let bare = ImageManager::from_images(BotImages::default());
    assert_eq!(AIManager::get_image_url("happy", &bare), "https://cdn.discordapp.com/embed/avatars/0.png");
}

#[test]
fn a_reply_is_made_from_the_text_of_the_model() {
    let m = manager();
    let i = images();
    let r = m.generate_response("{\"content\":\"Hi\",\"color\":\"#4a90e2\",\"thumbnail\":\"happy\"}", &i);
    let e = r.build_embed(&i, &emojis(), "Ana", &language());
    assert_eq!(r.get_content(), "Hi");
    assert_eq!(*r.get_emotion(), EmotionType::Neutral);
    assert_eq!(e.color, (74, 144, 226));
    assert_eq!(e.thumbnail, "url-happy");
    let f = m.generate_response("un proyecto", &i);
    assert_eq!(f.get_content(), "un proyecto");
    assert_eq!(*f.get_emotion(), EmotionType::Professional);
    let e = f.build_embed(&i, &emojis(), "Ana", &language());
    assert_eq!(e.color, (25, 25, 112));
    let p = AIManager::reply_from(
        Recovered::PartialRecovered(AIJSONResponse { content: "c".into(), color: "indigo".into(), thumbnail: "none".into() }),
        &i,
    );
    let e = p.build_embed(&i, &emojis(), "Ana", &language());
    assert_eq!((p.get_content(), e.color, e.thumbnail.as_str()), ("c", (76, 81, 191), "url-pointing"));
    let q = AIManager::reply_from(Recovered::Fallback { content: "t".into(), emotion: EmotionType::Happy }, &i);
    assert_eq!((q.get_content(), *q.get_emotion()), ("t", EmotionType::Happy));
}

#[test]
fn summary_analysis_needs_messages_and_reads_the_verdict() {
    let mut c = ConversationContext::new();
    assert!(!AIManager::wants_summary_analysis(&c));
    c.add_message(AIMessage::new(MessageRole::User, "x".into()));
    assert!(AIManager::wants_summary_analysis(&c));
    assert_eq!(
        AIManager::analyze_user_summary("{\"update_summary\":true,\"content\":\"S\"}").as_deref(),
        Some("S")
    );
    assert_eq!(AIManager::analyze_user_summary("{\"update_summary\":false}"), None);
    assert_eq!(AIManager::analyze_user_summary("garbage"), None);
}

#[test]
fn the_first_part_of_the_first_candidate_is_the_reply() {
    let rating = SafetyRating { category: "c".into(), probability: "LOW".into() };
    let candidates = vec![
        Candidate { parts: vec!["one".into(), "two".into()], finish_reason: Some("STOP".into()), safety_ratings: Some(vec![rating]) },
        Candidate { parts: vec!["other".into()], finish_reason: None, safety_ratings: None },
    ];
    let r = first_response(Some(candidates)).unwrap();
    assert_eq!(r.content, "one");
    assert_eq!(r.finish_reason.as_deref(), Some("STOP"));
    assert_eq!(r.safety_ratings.unwrap()[0].probability, "LOW");
    assert_eq!(first_response(None).unwrap_err(), GeminiError::NoValidResponse);
    assert_eq!(first_response(Some(vec![])).unwrap_err(), GeminiError::NoValidResponse);
    let empty = vec![
        Candidate { parts: vec![], finish_reason: None, safety_ratings: None },
        Candidate { parts: vec!["late".into()], finish_reason: None, safety_ratings: None },
    ];
    assert_eq!(first_response(Some(empty)).unwrap_err(), GeminiError::NoValidResponse);
}

#[test]
fn requests_go_to_the_model_with_the_key() {
    assert_eq!(
        api_url(),
        "https://generativelanguage.googleapis.com/v1beta/models/gemini-1.5-flash:generateContent"
    );
    assert_eq!(request_url("http://x", "k"), "http://x?key=k");
    let s = safety_settings();
    assert_eq!(s.len(), 4);
    assert_eq!(s[0].category, "HARM_CATEGORY_HARASSMENT");
    assert_eq!(s[3].category, "HARM_CATEGORY_DANGEROUS_CONTENT");
    assert!(s.iter().all(|x| x.threshold == "BLOCK_MEDIUM_AND_ABOVE"));
}

#[test]
fn instants_are_ordered_by_seconds_then_nanoseconds() {
    let a = Timestamp { secs: 5, nanos: 9 };
    let b = Timestamp { secs: 6, nanos: 0 };
    let c = Timestamp { secs: 5, nanos: 10 };
    assert!(a.is_before(&b) && a.is_before(&c) && c.is_before(&b));
    assert!(!a.is_before(&a) && !b.is_before(&a));
    assert!(a.is_at_or_before(&a) && a.is_at_or_before(&c) && !c.is_at_or_before(&a));
    assert_eq!(Timestamp::from_secs(7), Timestamp { secs: 7, nanos: 0 });
    assert_eq!(b.timestamp(), 6);
    assert_eq!(a.plus_seconds(10), Some(Timestamp { secs: 15, nanos: 9 }));
    assert_eq!(a.plus_seconds(-10), Some(Timestamp { secs: -5, nanos: 9 }));
    assert_eq!(a.plus_seconds(i64::MAX), None);
    assert_eq!(Timestamp { secs: -5, nanos: 0 }.plus_seconds(i64::MIN), None);
    let now = Timestamp { secs: 10 * 86400, nanos: 5 };
    assert!(Timestamp { secs: 9 * 86400 + 1, nanos: 0 }.is_within_days(&now, 1));
    assert!(Timestamp { secs: 9 * 86400, nanos: 6 }.is_within_days(&now, 1));
    assert!(!Timestamp { secs: 9 * 86400, nanos: 5 }.is_within_days(&now, 1));
    assert!(!Timestamp { secs: 9 * 86400 - 1, nanos: 999 }.is_within_days(&now, 1));
    assert!(Timestamp { secs: i64::MIN, nanos: 0 }.is_within_days(&now, i64::MAX));
    assert!(!Timestamp { secs: i64::MAX, nanos: 0 }.is_within_days(&now, i64::MIN));
    assert!(Timestamp { secs: 11 * 86400, nanos: 6 }.is_within_days(&now, -1));
    assert!(!Timestamp { secs: 11 * 86400, nanos: 0 }.is_within_days(&now, -1));
}
