//! Scheduling input: durations written as `<integer><unit>`, the options of
//! a reminder request, and the reminder that a valid request creates.
use vstd::prelude::*;
use crate::data::Reminder;
use crate::text::{
    chars_of, decimal, decimal_u64, i64_value, opt_view, owned, parse_i64, push_all, push_text,
    slice_of, str_eq, string_of, trim, trim_exec,
};
use crate::time::{now, Timestamp};

verus! {

/// The longest duration, in seconds, in either direction.
pub const MAX_DURATION_SECONDS: i64 = 9_223_372_036_854_775;

/// The seconds that one unit stands for: `s`, `m`, `h` or `d`. The letter
/// may be in upper case as well: `5M` is five minutes like `5m`.
pub open spec fn unit_seconds(c: char) -> Option<int> {
    if c == 's' || c == 'S' {
        Some(1)
    } else if c == 'm' || c == 'M' {
        Some(60)
    } else if c == 'h' || c == 'H' {
        Some(3600)
    } else if c == 'd' || c == 'D' {
        Some(86400)
    } else {
        None
    }
}

/// The seconds that a duration text stands for. White space before and
/// after the duration is allowed and left aside; the unit may be in upper
/// case.
pub open spec fn duration_seconds(text: Seq<char>) -> Option<int> {
    plain_duration(trim(text))
}

/// The seconds that a duration stands for: a 64-bit integer followed by one
/// unit letter, within the longest duration.
pub open spec fn plain_duration(t: Seq<char>) -> Option<int> {
    if t.len() == 0 {
        None
    } else {
        match (i64_value(t.drop_last()), unit_seconds(t.last())) {
            (Some(n), Some(u)) => if -MAX_DURATION_SECONDS <= n * u <= MAX_DURATION_SECONDS {
                Some(n * u)
            } else {
                None
            },
            _ => None,
        }
    }
}

/// The seconds of one unit.
pub fn seconds_of_unit(c: char) -> (r: Option<i64>)
    ensures
        match r {
            Some(u) => unit_seconds(c) == Some(u as int),
            None => unit_seconds(c).is_none(),
        },
{
    if c == 's' || c == 'S' {
        Some(1)
    } else if c == 'm' || c == 'M' {
        Some(60)
    } else if c == 'h' || c == 'H' {
        Some(3600)
    } else if c == 'd' || c == 'D' {
        Some(86400)
    } else {
        None
    }
}

/// Reads a duration such as `5m`, `2h` or `1d` and gives it in seconds.
/// White space around it is left aside, and the unit may be in upper case.
/// Any other form is rejected, and so is a duration beyond the longest one.
pub fn parse_time_string(time_str: &str) -> (r: Option<i64>)
    ensures
        match r {
            Some(secs) => duration_seconds(time_str@) == Some(secs as int),
            None => duration_seconds(time_str@).is_none(),
        },
{
    let all = chars_of(time_str);
    let t = trim_exec(&all);
    parse_duration(&t)
}

/// Reads a duration that has no whitespace around it.
pub fn parse_duration(t: &Vec<char>) -> (r: Option<i64>)
    ensures
        match r {
            Some(secs) => plain_duration(t@) == Some(secs as int),
            None => plain_duration(t@).is_none(),
        },
{
    if t.len() == 0 {
        return None;
    }
    let number_part = slice_of(t, 0, t.len() - 1);
    let unit = t[t.len() - 1];
    proof {
        assert(number_part@ =~= t@.drop_last());
    }
    match (parse_i64(&number_part), seconds_of_unit(unit)) {
        (Some(n), Some(u)) => {
            assert(-0x8000_0000_0000_0000 * 86400 <= n * u <= 0x8000_0000_0000_0000 * 86400)
                by (nonlinear_arith)
                requires
                    -0x8000_0000_0000_0000 <= n <= 0x7FFF_FFFF_FFFF_FFFF,
                    1 <= u <= 86400,
            ;
            let wide: i128 = (n as i128) * (u as i128);
            if wide < -(MAX_DURATION_SECONDS as i128) || wide > MAX_DURATION_SECONDS as i128 {
                None
            } else {
                Some(wide as i64)
            }
        },
        _ => None,
    }
}

/// The value of a command option, as far as a reminder request reads it.
#[derive(Debug)]
pub enum OptionValue {
    Text(String),
    Flag(bool),
    Other,
}

/// One named option of a command.
#[derive(Debug)]
pub struct CommandOption {
    pub name: String,
    pub value: OptionValue,
}

/// What a reminder request asks for.
#[derive(Debug)]
pub struct ReminderRequest {
    pub time: String,
    pub message: String,
    pub visibility: String,
    pub mention_type: String,
    pub has_status: bool,
}

/// The texts and the flag of a request.
pub struct RequestView {
    pub time: Seq<char>,
    pub message: Seq<char>,
    pub visibility: Seq<char>,
    pub mention_type: Seq<char>,
    pub has_status: bool,
}

impl View for ReminderRequest {
    type V = RequestView;

    open spec fn view(&self) -> RequestView {
        RequestView {
            time: self.time@,
            message: self.message@,
            visibility: self.visibility@,
            mention_type: self.mention_type@,
            has_status: self.has_status,
        }
    }
}

/// The request before any option is read: public, nobody mentioned, no
/// status tracking.
pub open spec fn default_request() -> RequestView {
    RequestView {
        time: Seq::<char>::empty(),
        message: Seq::<char>::empty(),
        visibility: "public"@,
        mention_type: "none"@,
        has_status: false,
    }
}

/// The request after one more option. An option of another name, or of a
/// value of the wrong kind, changes nothing.
pub open spec fn with_option(q: RequestView, o: CommandOption) -> RequestView {
    if o.name@ == "time"@ {
        match o.value {
            OptionValue::Text(t) => RequestView { time: t@, ..q },
            _ => q,
        }
    } else if o.name@ == "message"@ {
        match o.value {
            OptionValue::Text(t) => RequestView { message: t@, ..q },
            _ => q,
        }
    } else if o.name@ == "visibility"@ {
        match o.value {
            OptionValue::Text(t) => RequestView { visibility: t@, ..q },
            _ => q,
        }
    } else if o.name@ == "mention_type"@ {
        match o.value {
            OptionValue::Text(t) => RequestView { mention_type: t@, ..q },
            _ => q,
        }
    } else if o.name@ == "has_status"@ {
        match o.value {
            OptionValue::Flag(b) => RequestView { has_status: b, ..q },
            _ => q,
        }
    } else {
        q
    }
}

/// The request after the first `n` options, read in order.
pub open spec fn request_of(options: Seq<CommandOption>, n: int) -> RequestView
    decreases n,
{
    if n <= 0 {
        default_request()
    } else {
        with_option(request_of(options, n - 1), options[n - 1])
    }
}

/// Reads the options of a reminder command; a later option of the same name
/// wins.
pub fn read_reminder_options(options: &Vec<CommandOption>) -> (r: ReminderRequest)
    ensures
        r@ == request_of(options@, options.len() as int),
{
    let mut request = ReminderRequest {
        time: String::new(),
        message: String::new(),
        visibility: owned("public"),
        mention_type: owned("none"),
        has_status: false,
    };
    proof {
        assert(request.time@ =~= Seq::<char>::empty());
        assert(request.message@ =~= Seq::<char>::empty());
    }
    let mut i: usize = 0;
    while i < options.len()
        invariant
            i <= options.len(),
            request@ == request_of(options@, i as int),
        decreases options.len() - i,
    {
        let option = &options[i];
        let name = option.name.as_str();
        if str_eq(name, "time") {
            match &option.value {
                OptionValue::Text(t) => {
                    request.time = t.clone();
                },
                _ => {},
            }
        } else if str_eq(name, "message") {
            match &option.value {
                OptionValue::Text(t) => {
                    request.message = t.clone();
                },
                _ => {},
            }
        } else if str_eq(name, "visibility") {
            match &option.value {
                OptionValue::Text(t) => {
                    request.visibility = t.clone();
                },
                _ => {},
            }
        } else if str_eq(name, "mention_type") {
            match &option.value {
                OptionValue::Text(t) => {
                    request.mention_type = t.clone();
                },
                _ => {},
            }
        } else if str_eq(name, "has_status") {
            match &option.value {
                OptionValue::Flag(b) => {
                    request.has_status = *b;
                },
                _ => {},
            }
        }
        i += 1;
    }
    request
}

/// Why a reminder request is turned down.
#[derive(Debug, Clone, Copy, PartialEq, Eq, Structural)]
pub enum ReminderError {
    /// The time or the message is missing, the time is no duration, or the
    /// due time cannot be represented.
    InvalidTime,
    /// No reminder channel is configured.
    NoChannel,
}

/// The outcome of a request made at `now` under the id `id`: the error, or
/// the fields of the reminder to store.
pub open spec fn planned(
    q: RequestView,
    user_id: Seq<char>,
    user_name: Seq<char>,
    channel: Option<Seq<char>>,
    id: Seq<char>,
    now: Timestamp,
    r: Result<Reminder, ReminderError>,
) -> bool {
    if q.time.len() == 0 || q.message.len() == 0 {
        r == Err::<Reminder, ReminderError>(ReminderError::InvalidTime)
    } else if channel.is_none() {
        r == Err::<Reminder, ReminderError>(ReminderError::NoChannel)
    } else {
        match duration_seconds(q.time) {
            None => r == Err::<Reminder, ReminderError>(ReminderError::InvalidTime),
            Some(secs) => if now.secs + secs > i64::MAX || now.secs + secs < i64::MIN {
                r == Err::<Reminder, ReminderError>(ReminderError::InvalidTime)
            } else {
                match r {
                    Ok(x) => {
                        &&& x.id@ == id
                        &&& x.user_id@ == user_id
                        &&& x.user_name@ == user_name
                        &&& x.message@ == q.message
                        &&& x.channel_id@ == channel.unwrap()
                        &&& x.reminder_time == (Timestamp {
                            secs: (now.secs + secs) as i64,
                            nanos: now.nanos,
                        })
                        &&& x.created_at == now
                        &&& !x.is_sent
                        &&& x.is_private == (q.visibility == "private"@)
                        &&& x.mention_type@ == q.mention_type
                        &&& x.has_status == q.has_status
                    },
                    Err(_) => false,
                }
            },
        }
    }
}

/// A fresh identifier: `uuid::Uuid::new_v4()`, written out. Nothing is
/// promised of it.
#[verifier::external_body]
fn new_identifier() -> String {
    uuid::Uuid::new_v4().to_string()
}

/// Decides a reminder request made at `now`, to be stored under `id`: the
/// reminder, or why there is none. `channel` is the configured reminder
/// channel.
pub fn plan_reminder(
    request: &ReminderRequest,
    user_id: &str,
    user_name: &str,
    channel: Option<&str>,
    id: String,
    now: Timestamp,
) -> (r: Result<Reminder, ReminderError>)
    ensures
        planned(request@, user_id@, user_name@, opt_view(channel), id@, now, r),
{
    if request.time.as_str().is_empty() || request.message.as_str().is_empty() {
        return Err(ReminderError::InvalidTime);
    }
    let channel_id = match channel {
        Some(c) => c,
        None => {
            return Err(ReminderError::NoChannel);
        },
    };
    let secs = match parse_time_string(request.time.as_str()) {
        Some(s) => s,
        None => {
            return Err(ReminderError::InvalidTime);
        },
    };
    let reminder_time = match now.plus_seconds(secs) {
        Some(t) => t,
        None => {
            return Err(ReminderError::InvalidTime);
        },
    };
    Ok(
        Reminder {
            id,
            user_id: owned(user_id),
            user_name: owned(user_name),
            message: request.message.clone(),
            channel_id: owned(channel_id),
            reminder_time,
            created_at: now,
            is_sent: false,
            is_private: str_eq(request.visibility.as_str(), "private"),
            mention_type: request.mention_type.clone(),
            has_status: request.has_status,
        },
    )
}

/// Decides a reminder request made now, under a fresh id.
pub fn schedule_reminder(
    request: &ReminderRequest,
    user_id: &str,
    user_name: &str,
    channel: Option<&str>,
) -> (r: Result<Reminder, ReminderError>)
    ensures
        exists|id: Seq<char>, now: Timestamp| #[trigger]
            planned(request@, user_id@, user_name@, opt_view(channel), id, now, r),
{
    let id = new_identifier();
    let at = now();
    let ghost id_view = id@;
    let r = plan_reminder(request, user_id, user_name, channel, id, at);
    proof {
        assert(planned(request@, user_id@, user_name@, opt_view(channel), id_view, at, r));
    }
    r
}

/// A running time in days, hours, minutes and seconds, leaving out the
/// leading units that are zero.
pub open spec fn uptime_text(secs: nat) -> Seq<char> {
    let days = secs / 86400;
    let hours = (secs % 86400) / 3600;
    let minutes = (secs % 3600) / 60;
    let seconds = secs % 60;
    if days > 0 {
        decimal(days) + "d "@ + decimal(hours) + "h "@ + decimal(minutes) + "m "@ + decimal(
            seconds,
        ) + "s"@
    } else if hours > 0 {
        decimal(hours) + "h "@ + decimal(minutes) + "m "@ + decimal(seconds) + "s"@
    } else if minutes > 0 {
        decimal(minutes) + "m "@ + decimal(seconds) + "s"@
    } else {
        decimal(seconds) + "s"@
    }
}

/// Writes a running time of `secs` seconds.
pub fn format_uptime(secs: u64) -> (r: String)
    ensures
        r@ == uptime_text(secs as nat),
{
    let days = secs / 86400;
    let hours = (secs % 86400) / 3600;
    let minutes = (secs % 3600) / 60;
    let seconds = secs % 60;
    let mut out: Vec<char> = Vec::new();
    if days > 0 {
        push_all(&mut out, &decimal_u64(days));
        push_text(&mut out, "d ");
    }
    if days > 0 || hours > 0 {
        push_all(&mut out, &decimal_u64(hours));
        push_text(&mut out, "h ");
    }
    if days > 0 || hours > 0 || minutes > 0 {
        push_all(&mut out, &decimal_u64(minutes));
        push_text(&mut out, "m ");
    }
    push_all(&mut out, &decimal_u64(seconds));
    push_text(&mut out, "s");
    proof {
        assert(out@ =~= uptime_text(secs as nat));
    }
    string_of(&out)
}

} // verus!
