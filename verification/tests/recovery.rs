use lorian_bot::emotions::{EmotionManager, EmotionType};
use lorian_bot::recovery::{
    analysis_of_members, as_text, classify, find_content_span, hex_pair_of, escape_content, extract_json_from_text, find_member,
    find_text, fix_malformed_json, fix_with_captures, parse_analysis, parse_color, parse_response,
    rebuild_json, recover_response, response_from_members, response_of_members,
    summary_from_reply, AIJSONResponse, Member, Recovered,
};

fn is_safe_default(e: EmotionType) -> bool {
    matches!(
        e,
        EmotionType::Helpful | EmotionType::Friendly | EmotionType::Professional | EmotionType::Neutral
    )
}

#[test]
fn recovery_of_a_plain_object_returns_the_triple() {
    let text = "{\"content\":\"Hi\",\"color\":\"#4a90e2\",\"thumbnail\":\"pointing\"}";
    match recover_response(text, &EmotionManager::new()) {
        Recovered::Parsed(a) => {
            assert_eq!(a.content, "Hi");
            assert_eq!(a.color, "#4a90e2");
            assert_eq!(a.thumbnail, "pointing");
        }
        other => panic!("unexpected {:?}", other),
    }
}

#[test]
fn recovery_of_an_embedded_object_ignores_the_prose() {
    let text = "Sure! {\"content\":\"It works\",\"color\":\"#695acd\",\"thumbnail\":\"happy\"} Hope that helps.";
    match recover_response(text, &EmotionManager::new()) {
        Recovered::Parsed(a) => {
            assert_eq!(a.content, "It works");
            assert_eq!(a.color, "#695acd");
            assert_eq!(a.thumbnail, "happy");
        }
        other => panic!("unexpected {:?}", other),
    }
}

#[test]
fn recovery_escapes_an_inner_quote() {
    let text = "{\"content\":\"he said \"hi\"\",\"color\":\"#695acd\",\"thumbnail\":\"happy\"}";
    match recover_response(text, &EmotionManager::new()) {
        Recovered::PartialRecovered(a) => {
            assert_eq!(a.content, "he said \"hi\"");
            assert_eq!(a.color, "#695acd");
            assert_eq!(a.thumbnail, "happy");
        }
        other => panic!("unexpected {:?}", other),
    }
}

#[test]
fn recovery_of_plain_prose_falls_back_to_the_text() {
    let text = "zzz qqq xxx";
    match recover_response(text, &EmotionManager::new()) {
        Recovered::Fallback { content, emotion } => {
            assert_eq!(content, text);
            assert!(is_safe_default(emotion));
        }
        other => panic!("unexpected {:?}", other),
    }
}

#[test]
fn recovery_of_prose_with_keywords_infers_the_emotion() {
    let text = "Un PROYECTO de trabajo para la empresa";
    match recover_response(text, &EmotionManager::new()) {
        Recovered::Fallback { content, emotion } => {
            assert_eq!(content, text);
            assert_eq!(emotion, EmotionType::Professional);
        }
        other => panic!("unexpected {:?}", other),
    }
}

#[test]
fn recovery_of_braces_that_hold_no_object_falls_back() {
    let text = "look {here} now";
    match recover_response(text, &EmotionManager::new()) {
        Recovered::Fallback { content, .. } => assert_eq!(content, text),
        other => panic!("unexpected {:?}", other),
    }
}

#[test]
fn repaired_object_takes_defaults_for_missing_hints() {
    let text = "{\"content\":\"a \"b\" c\",\"color\" oops}";
    let fixed = fix_malformed_json(text).unwrap();
    assert_eq!(
        fixed,
        "{\"content\":\"a \\\"b\\\" c\",\"color\":\"#00BFFF\",\"thumbnail\":\"pointing\"}"
    );
    let parsed = parse_response(&fixed).unwrap();
    assert_eq!(parsed.content, "a \"b\" c");
    assert_eq!(parsed.color, "#00BFFF");
    assert_eq!(parsed.thumbnail, "pointing");
}

#[test]
fn repaired_object_uses_the_captured_hints() {
    let text = "{\"content\":\"x\ty\",\"color\":\"#123456\",\"thumbnail\":\"love\"}";
    let fixed = fix_malformed_json(text).unwrap();
    assert_eq!(
        fixed,
        "{\"content\":\"x\\ty\",\"color\":\"#123456\",\"thumbnail\":\"love\"}"
    );
    assert_eq!(parse_response(&fixed).unwrap().content, "x\ty");
}

#[test]
fn repair_without_a_span_needs_all_three_captures() {
    let text = "{\"content\" : \"plain\", \"color\" : \"red\", \"thumbnail\" : \"what\"}";
    let fixed = fix_malformed_json(text).unwrap();
    assert_eq!(fixed, "{\"content\":\"plain\",\"color\":\"red\",\"thumbnail\":\"what\"}");
    assert_eq!(fix_malformed_json("{\"content\" : \"plain\", \"color\" : \"red\"}"), None);
    assert_eq!(fix_malformed_json("nothing here"), None);
}

#[test]
fn fix_with_captures_follows_the_given_captures() {
    let with_span = "{\"content\":raw\",\"color\":1}";
    assert_eq!(
        fix_with_captures(with_span, None, Some("blue"), None).unwrap(),
        "{\"content\":\"raw\",\"color\":\"blue\",\"thumbnail\":\"pointing\"}"
    );
    assert_eq!(
        fix_with_captures("no span", Some("a\\b"), Some("c"), Some("t")).unwrap(),
        "{\"content\":\"a\\\\b\",\"color\":\"c\",\"thumbnail\":\"t\"}"
    );
    assert_eq!(fix_with_captures("no span", Some("a"), None, Some("t")), None);
    assert_eq!(fix_with_captures("no span", None, Some("c"), Some("t")), None);
}

#[test]
fn as_text_borrows_the_text() {
    let some = Some(String::from("abc"));
    assert_eq!(as_text(&some), Some("abc"));
    assert_eq!(as_text(&None), None);
}

#[test]
fn escape_content_escapes_the_five_characters() {
    let raw: Vec<char> = "a\\b\"c\nd\re\tf".chars().collect();
    let out: String = escape_content(&raw).iter().collect();
    assert_eq!(out, "a\\\\b\\\"c\\nd\\re\\tf");
    assert_eq!(escape_content(&Vec::new()).len(), 0);
}

#[test]
fn rebuild_json_puts_the_pieces_in_place() {
    let content: Vec<char> = "hello".chars().collect();
    assert_eq!(
        rebuild_json(&content, "#fff", "nya"),
        "{\"content\":\"hello\",\"color\":\"#fff\",\"thumbnail\":\"nya\"}"
    );
}

#[test]
fn extract_json_takes_first_open_to_last_close() {
    assert_eq!(extract_json_from_text("a {b} c {d} e").unwrap(), "{b} c {d}");
    assert_eq!(extract_json_from_text("{}").unwrap(), "{}");
    assert_eq!(extract_json_from_text("} before {"), None);
    assert_eq!(extract_json_from_text("no braces"), None);
    assert_eq!(extract_json_from_text("only { open"), None);
    assert_eq!(extract_json_from_text("é{ñ}ü").unwrap(), "{ñ}");
}

#[test]
fn parse_response_needs_three_text_members() {
    assert!(parse_response("{\"content\":\"a\",\"color\":\"b\"}").is_none());
    assert!(parse_response("{\"content\":1,\"color\":\"b\",\"thumbnail\":\"c\"}").is_none());
    assert!(parse_response("[1,2,3]").is_none());
    assert!(parse_response("not json").is_none());
    let ok = parse_response("{\"extra\":true,\"thumbnail\":\"c\",\"color\":\"b\",\"content\":\"a\\nb\"}")
        .unwrap();
    assert_eq!(ok.content, "a\nb");
    assert_eq!(ok.color, "b");
    assert_eq!(ok.thumbnail, "c");
}

fn members(list: Vec<(&str, Member)>) -> Vec<(String, Member)> {
    list.into_iter().map(|(k, m)| (k.to_string(), m)).collect()
}

fn text(t: &str) -> Member {
    Member::Text(t.to_string())
}

#[test]
fn a_response_is_read_from_the_members_of_an_object() {
    let m = members(vec![("thumbnail", text("z")), ("n", Member::Other), ("content", text("x")), ("color", text("y"))]);
    let r = response_of_members(&m).unwrap();
    assert_eq!((r.content.as_str(), r.color.as_str(), r.thumbnail.as_str()), ("x", "y", "z"));
    assert!(response_of_members(&members(vec![("content", text("x")), ("color", text("y"))])).is_none());
    assert!(response_of_members(&members(vec![
        ("content", text("x")),
        ("color", Member::Flag(true)),
        ("thumbnail", text("z"))
    ]))
    .is_none());
    assert!(response_of_members(&Vec::new()).is_none());
    assert!(matches!(find_member(&m, "n"), Some(Member::Other)));
    assert!(find_member(&m, "N").is_none());
    assert_eq!(find_text(&m, "color"), Some("y"));
    assert_eq!(find_text(&m, "n"), None);
    assert_eq!(find_text(&m, "none"), None);
    let r = response_from_members(Some("a"), Some("b"), Some("c")).unwrap();
    assert_eq!((r.content.as_str(), r.color.as_str(), r.thumbnail.as_str()), ("a", "b", "c"));
    assert!(response_from_members(None, Some("b"), Some("c")).is_none());
    assert!(response_from_members(Some("a"), None, Some("c")).is_none());
    assert!(response_from_members(Some("a"), Some("b"), None).is_none());
}

#[test]
fn the_first_step_that_found_a_response_decides() {
    let r = |c: &str| Some(AIJSONResponse { content: c.into(), color: "k".into(), thumbnail: "t".into() });
    match classify("txt", r("whole"), r("inner"), r("mended"), EmotionType::Happy) {
        Recovered::Parsed(a) => assert_eq!(a.content, "whole"),
        other => panic!("unexpected {:?}", other),
    }
    match classify("txt", None, r("inner"), r("mended"), EmotionType::Happy) {
        Recovered::Parsed(a) => assert_eq!(a.content, "inner"),
        other => panic!("unexpected {:?}", other),
    }
    match classify("txt", None, None, r("mended"), EmotionType::Happy) {
        Recovered::PartialRecovered(a) => assert_eq!(a.content, "mended"),
        other => panic!("unexpected {:?}", other),
    }
    match classify("txt", None, None, None, EmotionType::Happy) {
        Recovered::Fallback { content, emotion } => {
            assert_eq!(content, "txt");
            assert_eq!(emotion, EmotionType::Happy);
        }
        other => panic!("unexpected {:?}", other),
    }
}

#[test]
fn a_repeated_key_counts_once() {
    let r = parse_response("{\"content\":\"a\",\"content\":\"b\",\"color\":\"c\",\"thumbnail\":\"t\"}").unwrap();
    assert_eq!(r.content, "b");
    assert!(parse_response("\"just a string\"").is_none());
    assert!(parse_response("{}").is_none());
    assert!(parse_response("").is_none());
}

#[test]
fn analysis_reads_flag_and_optional_content() {
    let a = parse_analysis("{\"update_summary\":true,\"content\":\"New\"}").unwrap();
    assert!(a.update_summary);
    assert_eq!(a.content.as_deref(), Some("New"));
    let b = parse_analysis("{\"update_summary\":false}").unwrap();
    assert!(!b.update_summary);
    assert_eq!(b.content, None);
    let c = parse_analysis("{\"update_summary\":true,\"content\":null}").unwrap();
    assert_eq!(c.content, None);
    assert!(parse_analysis("{\"update_summary\":\"yes\"}").is_none());
    assert!(parse_analysis("{\"content\":\"x\"}").is_none());
    assert!(parse_analysis("{\"update_summary\":true,\"content\":5}").is_none());
    let d = analysis_of_members(&members(vec![("content", text("k")), ("update_summary", Member::Flag(false))]))
        .unwrap();
    assert!(!d.update_summary);
    assert_eq!(d.content.as_deref(), Some("k"));
    assert!(analysis_of_members(&members(vec![("update_summary", Member::Null)])).is_none());
    assert!(analysis_of_members(&members(vec![("update_summary", Member::Flag(true)), ("content", Member::Other)]))
        .is_none());
    let n = analysis_of_members(&members(vec![("update_summary", Member::Flag(true)), ("content", Member::Null)]))
        .unwrap();
    assert!(n.update_summary && n.content.is_none());
}

#[test]
fn summary_from_reply_follows_the_verdict() {
    assert_eq!(
        summary_from_reply("{\"update_summary\":true,\"content\":\"Ana, 30\"}").as_deref(),
        Some("Ana, 30")
    );
    assert_eq!(summary_from_reply("{\"update_summary\":false,\"content\":\"Ana\"}"), None);
    assert_eq!(
        summary_from_reply("Here: {\"update_summary\":true,\"content\":\"B\"} done").as_deref(),
        Some("B")
    );
    assert_eq!(summary_from_reply("{\"update_summary\":true}"), None);
    assert_eq!(summary_from_reply("nothing"), None);
}

#[test]
fn parse_color_reads_hex_and_names() {
    assert_eq!(parse_color("#4a90e2"), (74, 144, 226));
    assert_eq!(parse_color("#695ACD"), (105, 90, 205));
    assert_eq!(parse_color("#000000"), (0, 0, 0));
    assert_eq!(parse_color("#FFFFFF"), (255, 255, 255));
    assert_eq!(parse_color("#0a1B2c"), (10, 27, 44));
    assert_eq!(parse_color("#7b6fd3"), (123, 111, 211));
    assert_eq!(parse_color("#fff"), (105, 90, 205));
    assert_eq!(parse_color("#+ff"), (105, 90, 205));
    assert_eq!(parse_color("#+12345"), (105, 90, 205));
    assert_eq!(parse_color("#ff112233"), (105, 90, 205));
    assert_eq!(parse_color("#000000000000ff"), (105, 90, 205));
    assert_eq!(parse_color("#12345g"), (105, 90, 205));
    assert_eq!(parse_color("#12345"), (105, 90, 205));
    assert_eq!(parse_color("4a90e2"), (105, 90, 205));
    assert_eq!(parse_color("red"), (105, 90, 205));
    assert_eq!(parse_color("Cool-Blue"), (105, 90, 205));
    assert_eq!(parse_color("#\u{e9}a90e2"), (105, 90, 205));
    assert_eq!(parse_color("cool-blue"), (74, 144, 226));
    assert_eq!(parse_color("light-purple"), (123, 111, 211));
    assert_eq!(parse_color("deep-purple"), (80, 72, 199));
    assert_eq!(parse_color("sky-blue"), (111, 168, 220));
    assert_eq!(parse_color("soft-violet"), (142, 124, 195));
    assert_eq!(parse_color("dark-slate"), (45, 55, 72));
    assert_eq!(parse_color("bright-violet"), (128, 90, 213));
    assert_eq!(parse_color("indigo"), (76, 81, 191));
    assert_eq!(parse_color("periwinkle"), (102, 126, 234));
    assert_eq!(parse_color("base-purple"), (105, 90, 205));
    assert_eq!(parse_color("unknown"), (105, 90, 205));
    assert_eq!(parse_color("#"), (105, 90, 205));
    assert_eq!(parse_color("#xyz"), (105, 90, 205));
    assert_eq!(parse_color("#-ff"), (105, 90, 205));
    assert_eq!(parse_color("#1ffffffff"), (105, 90, 205));
    assert_eq!(parse_color(""), (105, 90, 205));
}

fn span(text: &str) -> Option<String> {
    let chars: Vec<char> = text.chars().collect();
    find_content_span(&chars).map(|v| v.into_iter().collect())
}

#[test]
fn the_content_span_leaves_out_the_opening_quote() {
    assert_eq!(
        span("{\"content\":\"he said \"hi\"\",\"color\":\"#695acd\"}").as_deref(),
        Some("he said \"hi\"")
    );
    assert_eq!(span("{\"content\":\"\",\"color\":\"k\"}").as_deref(), Some(""));
    assert_eq!(span("{\"content\":\"a\"\",\"color\":\"k\"}").as_deref(), Some("a\""));
    assert_eq!(span("{\"content\":\",\"color\"x\",\"color\":\"k\"}").as_deref(), Some(",\"color\"x"));
    assert_eq!(span("{\"content\":raw\",\"color\":1}").as_deref(), Some("raw"));
    assert_eq!(span("{\"content\":\"a\",\"color\",\"color\":\"k\"}").as_deref(), Some("a"));
    assert_eq!(span("x \"content\":\"a\",\"color\" \"content\":\"b\",\"color\"").as_deref(), Some("a"));
    assert_eq!(span("{\"content\":\"no marker\"}"), None);
    assert_eq!(span("{\"content\":"), None);
    assert_eq!(span("nothing"), None);
}

#[test]
fn a_repaired_object_gives_the_content_back() {
    for content in ["he said \"hi\"", "a\\b", "line\nbreak\rand\ttab", "", "\"", "plain", "\u{e9}\"\u{1f600}"] {
        let text = format!("{{\"content\":\"{}\",\"color\":\"#695acd\",\"thumbnail\":\"happy\"}}", content);
        let fixed = fix_malformed_json(&text).unwrap();
        let parsed = parse_response(&fixed).unwrap();
        assert_eq!(parsed.content, content);
        assert_eq!(parsed.color, "#695acd");
        assert_eq!(parsed.thumbnail, "happy");
    }
    assert_eq!(
        fix_malformed_json("{\"content\":\"he said \"hi\"\",\"color\":\"#695acd\",\"thumbnail\":\"happy\"}").unwrap(),
        "{\"content\":\"he said \\\"hi\\\"\",\"color\":\"#695acd\",\"thumbnail\":\"happy\"}"
    );
}

#[test]
fn two_hex_digits_write_a_byte() {
    assert_eq!(hex_pair_of('0', '0'), Some(0));
    assert_eq!(hex_pair_of('f', 'F'), Some(255));
    assert_eq!(hex_pair_of('4', 'a'), Some(74));
    assert_eq!(hex_pair_of('g', '0'), None);
    assert_eq!(hex_pair_of('0', '+'), None);
}
