use lorian_bot::schedule::{
    format_uptime, parse_duration, parse_time_string, plan_reminder, read_reminder_options, schedule_reminder,
    seconds_of_unit, CommandOption, OptionValue, ReminderError, ReminderRequest,
    MAX_DURATION_SECONDS,
};
use lorian_bot::time::Timestamp;

fn request(time: &str, message: &str) -> ReminderRequest {
    ReminderRequest {
        time: time.into(),
        message: message.into(),
        visibility: "public".into(),
        mention_type: "none".into(),
        has_status: false,
    }
}

#[test]
fn durations_are_an_integer_and_a_unit() {
    assert_eq!(parse_time_string("5s"), Some(5));
    assert_eq!(parse_time_string("5m"), Some(300));
    assert_eq!(parse_time_string("2h"), Some(7200));
    assert_eq!(parse_time_string("1d"), Some(86400));
    assert_eq!(parse_time_string("3D"), Some(259200));
    assert_eq!(parse_time_string("  10M \n"), Some(600));
    assert_eq!(parse_time_string("0s"), Some(0));
    assert_eq!(parse_time_string("-5m"), Some(-300));
    assert_eq!(parse_time_string("+5m"), Some(300));
    assert_eq!(seconds_of_unit('H'), Some(3600));
    assert_eq!(seconds_of_unit('x'), None);
}

#[test]
fn a_duration_without_whitespace_is_read_as_it_stands() {
    let v = |s: &str| s.chars().collect::<Vec<char>>();
    assert_eq!(parse_duration(&v("5m")), Some(300));
    assert_eq!(parse_duration(&v("-2H")), Some(-7200));
    assert_eq!(parse_duration(&v(" 5m")), None);
    assert_eq!(parse_duration(&v("5m ")), None);
    assert_eq!(parse_duration(&v("")), None);
    assert_eq!(parse_duration(&v("d")), None);
}

#[test]
fn other_forms_are_rejected() {
    for bad in ["", " ", "m", "5", "5x", "5 m", "1.5h", "five m", "5mm", "5m5", "--5m", "5é", "٥m"] {
        assert_eq!(parse_time_string(bad), None, "{:?}", bad);
    }
}

#[test]
fn durations_beyond_the_longest_are_rejected() {
    assert_eq!(parse_time_string("9223372036854775s"), Some(MAX_DURATION_SECONDS));
    assert_eq!(parse_time_string("9223372036854776s"), None);
    assert_eq!(parse_time_string("-9223372036854775s"), Some(-MAX_DURATION_SECONDS));
    assert_eq!(parse_time_string("-9223372036854776s"), None);
    assert_eq!(parse_time_string("9223372036854775807d"), None);
    assert_eq!(parse_time_string("106751991167d"), Some(106751991167 * 86400));
    assert_eq!(parse_time_string("106751991168d"), None);
    assert_eq!(parse_time_string("99999999999999999999s"), None);
}

#[test]
fn options_fill_a_request() {
    let options = vec![
        CommandOption { name: "time".into(), value: OptionValue::Text("5m".into()) },
        CommandOption { name: "message".into(), value: OptionValue::Text("tea".into()) },
        CommandOption { name: "visibility".into(), value: OptionValue::Text("private".into()) },
        CommandOption { name: "mention_type".into(), value: OptionValue::Text("everyone".into()) },
        CommandOption { name: "has_status".into(), value: OptionValue::Flag(true) },
        CommandOption { name: "has_status".into(), value: OptionValue::Text("no".into()) },
        CommandOption { name: "message".into(), value: OptionValue::Flag(false) },
        CommandOption { name: "other".into(), value: OptionValue::Other },
        CommandOption { name: "time".into(), value: OptionValue::Text("6m".into()) },
    ];
    let r = read_reminder_options(&options);
    assert_eq!(r.time, "6m");
    assert_eq!(r.message, "tea");
    assert_eq!(r.visibility, "private");
    assert_eq!(r.mention_type, "everyone");
    assert!(r.has_status);
    let d = read_reminder_options(&Vec::new());
    assert_eq!((d.time.as_str(), d.message.as_str()), ("", ""));
    assert_eq!((d.visibility.as_str(), d.mention_type.as_str(), d.has_status), ("public", "none", false));
}

#[test]
fn a_valid_request_becomes_a_reminder() {
    let now = Timestamp { secs: 1000, nanos: 7 };
    let mut q = request("2h", "call");
    q.visibility = "private".into();
    q.mention_type = "creator".into();
    q.has_status = true;
    let r = plan_reminder(&q, "42", "ana", Some("555"), "id-1".into(), now).unwrap();
    assert_eq!(r.id, "id-1");
    assert_eq!(r.user_id, "42");
    assert_eq!(r.user_name, "ana");
    assert_eq!(r.message, "call");
    assert_eq!(r.channel_id, "555");
    assert_eq!(r.reminder_time, Timestamp { secs: 8200, nanos: 7 });
    assert_eq!(r.created_at, now);
    assert!(!r.is_sent);
    assert!(r.is_private);
    assert_eq!(r.mention_type, "creator");
    assert!(r.has_status);
    let public = plan_reminder(&request("1s", "x"), "1", "b", Some("5"), "i".into(), now).unwrap();
    assert!(!public.is_private);
}

#[test]
fn invalid_requests_name_their_error() {
    let now = Timestamp { secs: 1000, nanos: 0 };
    assert_eq!(
        plan_reminder(&request("", "x"), "1", "a", Some("5"), "i".into(), now).unwrap_err(),
        ReminderError::InvalidTime
    );
    assert_eq!(
        plan_reminder(&request("5m", ""), "1", "a", None, "i".into(), now).unwrap_err(),
        ReminderError::InvalidTime
    );
    assert_eq!(
        plan_reminder(&request("5m", "x"), "1", "a", None, "i".into(), now).unwrap_err(),
        ReminderError::NoChannel
    );
    assert_eq!(
        plan_reminder(&request("soon", "x"), "1", "a", None, "i".into(), now).unwrap_err(),
        ReminderError::NoChannel
    );
    assert_eq!(
        plan_reminder(&request("soon", "x"), "1", "a", Some("5"), "i".into(), now).unwrap_err(),
        ReminderError::InvalidTime
    );
    let far = Timestamp { secs: i64::MAX - 10, nanos: 0 };
    assert_eq!(
        plan_reminder(&request("11s", "x"), "1", "a", Some("5"), "i".into(), far).unwrap_err(),
        ReminderError::InvalidTime
    );
    assert!(plan_reminder(&request("10s", "x"), "1", "a", Some("5"), "i".into(), far).is_ok());
}

#[test]
fn scheduling_now_uses_a_fresh_id_and_the_clock() {
    let a = schedule_reminder(&request("1h", "x"), "1", "a", Some("5")).unwrap();
    let b = schedule_reminder(&request("1h", "x"), "1", "a", Some("5")).unwrap();
    assert_ne!(a.id, b.id);
    assert_eq!(a.id.len(), 36);
    assert_eq!(a.reminder_time.secs - a.created_at.secs, 3600);
    assert!(a.created_at.secs > 1_600_000_000);
    assert_eq!(
        schedule_reminder(&request("1h", "x"), "1", "a", None).unwrap_err(),
        ReminderError::NoChannel
    );
}

#[test]
fn uptime_leaves_out_leading_zero_units() {
    assert_eq!(format_uptime(0), "0s");
    assert_eq!(format_uptime(59), "59s");
    assert_eq!(format_uptime(60), "1m 0s");
    assert_eq!(format_uptime(3599), "59m 59s");
    assert_eq!(format_uptime(3600), "1h 0m 0s");
    assert_eq!(format_uptime(86399), "23h 59m 59s");
    assert_eq!(format_uptime(86400), "1d 0h 0m 0s");
    assert_eq!(format_uptime(90061), "1d 1h 1m 1s");
}
