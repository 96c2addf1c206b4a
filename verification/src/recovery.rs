//! Turning the free text of a model reply into a structured response: the
//! text as it is, the object embedded in it, a repaired object, or, failing
//! all, the text itself with an inferred emotion.
use vstd::prelude::*;
use crate::emotions::{emotion_outcome, EmotionManager, EmotionType};
use crate::store::{key_index, lookup};
use crate::text::{
    chars_of, find_char, find_char_exec, find_sub, find_sub_exec, find_sub_from, hex_digit_value,
    lemma_find_sub_first, lemma_find_sub_found, lowercase, matches_at, opt_view, owned, push_all,
    push_text, rfind_char, rfind_char_exec, slice_of, str_eq, string_of, string_view,
    value_of_hex_digit,
};

verus! {

/// One member of a JSON object, as far as it is read here.
#[derive(Debug)]
pub enum Member {
    /// A string.
    Text(String),
    /// `true` or `false`.
    Flag(bool),
    /// `null`.
    Null,
    /// A number, an array or an object.
    Other,
}

/// What a member holds.
pub enum MemberView {
    Text(Seq<char>),
    Flag(bool),
    Null,
    Other,
}

impl View for Member {
    type V = MemberView;

    open spec fn view(&self) -> MemberView {
        match self {
            Member::Text(t) => MemberView::Text(t@),
            Member::Flag(b) => MemberView::Flag(*b),
            Member::Null => MemberView::Null,
            Member::Other => MemberView::Other,
        }
    }
}

/// What a list of members holds: each key with what its member holds.
pub open spec fn members_view(m: Seq<(String, Member)>) -> Seq<(Seq<char>, MemberView)> {
    Seq::new(m.len(), |i: int| (m[i].0@, m[i].1@))
}

/// The members of the JSON object that a text is, as `serde_json` reads it:
/// each key once, with what it holds. None for a text that is no JSON or no
/// object.
pub uninterp spec fn json_object(text: Seq<char>) -> Option<Seq<(Seq<char>, MemberView)>>;

/// What the first capture group holds in the leftmost match of a pattern in
/// a text, as `regex` finds it. The outer `None` stands for a pattern that
/// does not compile, the inner one for no match or a group that took no
/// part in it.
pub uninterp spec fn first_capture(pattern: Seq<char>, text: Seq<char>) -> Option<
    Option<Seq<char>>,
>;

/// `serde_json::from_str` into a `Value`; the members of an object are handed
/// on, each variant of `Value` as the member that stands for it. An error and
/// a value that is no object become `None`.
#[verifier::external_body]
fn parse_object(text: &str) -> (r: Option<Vec<(String, Member)>>)
    ensures
        match r {
            Some(m) => json_object(text@) == Some(members_view(m@)),
            None => json_object(text@).is_none(),
        },
{
    match serde_json::from_str::<serde_json::Value>(text) {
        Ok(serde_json::Value::Object(map)) => Some(
            map.into_iter().map(|(key, value)| (key, match value {
                serde_json::Value::String(t) => Member::Text(t),
                serde_json::Value::Bool(b) => Member::Flag(b),
                serde_json::Value::Null => Member::Null,
                _ => Member::Other,
            })).collect(),
        ),
        _ => None,
    }
}

/// `Regex::new` on the pattern, then `Regex::captures` on the text and the
/// text of group 1 of what it found.
#[verifier::external_body]
fn capture_first(pattern: &str, text: &str) -> (r: Option<Option<String>>)
    ensures
        match r {
            Some(found) => first_capture(pattern@, text@) == Some(string_view(found)),
            None => first_capture(pattern@, text@).is_none(),
        },
{
    match regex::Regex::new(pattern) {
        Ok(re) => Some(match re.captures(text) {
            Some(found) => match found.get(1) {
                Some(group) => Some(group.as_str().to_string()),
                None => None,
            },
            None => None,
        }),
        Err(_) => None,
    }
}

/// The structured reply: a text and two presentation hints.
#[derive(Debug)]
pub struct AIJSONResponse {
    pub content: String,
    pub color: String,
    pub thumbnail: String,
}

/// The verdict of a summary analysis.
#[derive(Debug)]
pub struct AISummaryAnalysis {
    pub update_summary: bool,
    pub content: Option<String>,
}

impl AIJSONResponse {
    /// The three texts.
    pub open spec fn triple(&self) -> (Seq<char>, Seq<char>, Seq<char>) {
        (self.content@, self.color@, self.thumbnail@)
    }
}

/// How a structured response was obtained.
#[derive(Debug)]
pub enum Recovered {
    /// The text, or the object embedded in it, was a structured response.
    Parsed(AIJSONResponse),
    /// The embedded object had to be repaired first.
    PartialRecovered(AIJSONResponse),
    /// Nothing structured could be had: the text itself, with the emotion
    /// inferred from it.
    Fallback { content: String, emotion: EmotionType },
}

/// The text member of an object under a key.
pub open spec fn text_member(members: Seq<(Seq<char>, MemberView)>, key: Seq<char>) -> Option<
    Seq<char>,
> {
    match lookup(members, key) {
        Some(MemberView::Text(t)) => Some(t),
        _ => None,
    }
}

/// The structured response that an object holds: its text members `content`,
/// `color` and `thumbnail`, all three required.
pub open spec fn triple_of(members: Seq<(Seq<char>, MemberView)>) -> Option<
    (Seq<char>, Seq<char>, Seq<char>),
> {
    triple_from(
        text_member(members, "content"@),
        text_member(members, "color"@),
        text_member(members, "thumbnail"@),
    )
}

/// The structured response that a text holds as a whole.
pub open spec fn structured(text: Seq<char>) -> Option<(Seq<char>, Seq<char>, Seq<char>)> {
    match json_object(text) {
        Some(m) => triple_of(m),
        None => None,
    }
}

/// The summary verdict that an object holds: the boolean member
/// `update_summary`, required, and the member `content`, which is a text,
/// `null` or missing.
pub open spec fn analysis_of(members: Seq<(Seq<char>, MemberView)>) -> Option<
    (bool, Option<Seq<char>>),
> {
    match lookup(members, "update_summary"@) {
        Some(MemberView::Flag(update)) => match lookup(members, "content"@) {
            None => Some((update, None)),
            Some(MemberView::Null) => Some((update, None)),
            Some(MemberView::Text(t)) => Some((update, Some(t))),
            Some(_) => None,
        },
        _ => None,
    }
}

/// The summary verdict that a text holds as a whole.
pub open spec fn analysis_in(text: Seq<char>) -> Option<(bool, Option<Seq<char>>)> {
    match json_object(text) {
        Some(m) => analysis_of(m),
        None => None,
    }
}

/// The part of a text from its first `{` to its last `}`, if the brace
/// closes after it opens.
pub open spec fn embedded(text: Seq<char>) -> Option<Seq<char>> {
    match (find_char(text, '{', 0), rfind_char(text, '}')) {
        (Some(a), Some(b)) => if b > a {
            Some(text.subrange(a, b + 1))
        } else {
            None
        },
        _ => None,
    }
}

/// Where the content begins, given where its value begins: after the quote
/// that opens the value, where there is one.
pub open spec fn span_start(text: Seq<char>, value: int) -> int {
    if 0 <= value < text.len() && text[value] == '"' {
        value + 1
    } else {
        value
    }
}

/// The raw span of the content field: what stands between the quote that
/// opens the value after the literal `"content":` and the next `","color"`.
/// Neither that opening quote nor the quote that begins the marker belongs
/// to the span; whatever stands between them does, malformed or not.
pub open spec fn content_span(text: Seq<char>) -> Option<Seq<char>> {
    match find_sub(text, "\"content\":"@, 0) {
        Some(p) => {
            let start = span_start(text, p + 10);
            match find_sub(text, "\",\"color\""@, start) {
                Some(e) => Some(text.subrange(start, e)),
                None => None,
            }
        },
        None => None,
    }
}

/// A character as it stands inside a JSON string.
pub open spec fn escape_char(c: char) -> Seq<char> {
    if c == '\\' {
        seq!['\\', '\\']
    } else if c == '"' {
        seq!['\\', '"']
    } else if c == '\n' {
        seq!['\\', 'n']
    } else if c == '\r' {
        seq!['\\', 'r']
    } else if c == '\t' {
        seq!['\\', 't']
    } else {
        seq![c]
    }
}

/// The first `n` characters of a text, escaped for a JSON string.
pub open spec fn escaped(s: Seq<char>, n: int) -> Seq<char>
    decreases n,
{
    if n <= 0 {
        Seq::<char>::empty()
    } else {
        escaped(s, n - 1) + escape_char(s[n - 1])
    }
}

/// The object text built from three already escaped pieces.
pub open spec fn rebuilt(content: Seq<char>, color: Seq<char>, thumbnail: Seq<char>) -> Seq<char> {
    "{\"content\":\""@ + content + "\",\"color\":\""@ + color + "\",\"thumbnail\":\""@ + thumbnail
        + "\"}"@
}

/// A present value, or else the default.
pub open spec fn or_default(v: Option<Seq<char>>, default: Seq<char>) -> Seq<char> {
    match v {
        Some(s) => s,
        None => default,
    }
}

/// The repaired object, given what the three patterns captured in the text.
/// With a content span the colour and the image fall back to defaults;
/// without one all three captures are needed.
pub open spec fn repaired_with(
    text: Seq<char>,
    content: Option<Seq<char>>,
    color: Option<Seq<char>>,
    thumbnail: Option<Seq<char>>,
) -> Option<Seq<char>> {
    match content_span(text) {
        Some(raw) => Some(
            rebuilt(
                escaped(raw, raw.len() as int),
                or_default(color, "#00BFFF"@),
                or_default(thumbnail, "pointing"@),
            ),
        ),
        None => match (content, color, thumbnail) {
            (Some(c), Some(col), Some(th)) => Some(rebuilt(escaped(c, c.len() as int), col, th)),
            _ => None,
        },
    }
}

/// The pattern that finds the content of a reply.
pub open spec fn content_pattern() -> Seq<char> {
    "\"content\"\\s*:\\s*\"([^\"]*(?:\\\\.[^\"]*)*)"@
}

/// The pattern that finds the colour of a reply.
pub open spec fn color_pattern() -> Seq<char> {
    "\"color\"\\s*:\\s*\"([^\"]+)\""@
}

/// The pattern that finds the image of a reply.
pub open spec fn thumbnail_pattern() -> Seq<char> {
    "\"thumbnail\"\\s*:\\s*\"([^\"]+)\""@
}

/// The repaired object of a text, if the patterns compile and a content can
/// be found.
pub open spec fn repaired(text: Seq<char>) -> Option<Seq<char>> {
    match (
        first_capture(content_pattern(), text),
        first_capture(color_pattern(), text),
        first_capture(thumbnail_pattern(), text),
    ) {
        (Some(content), Some(color), Some(thumbnail)) => repaired_with(
            text,
            content,
            color,
            thumbnail,
        ),
        _ => None,
    }
}

/// A value is the fallback for a text: the text itself and an emotion that
/// its analysis can give.
pub open spec fn is_fallback(text: Seq<char>, r: Recovered) -> bool {
    match r {
        Recovered::Fallback { content, emotion } => content@ == text && emotion_outcome(
            lowercase(text),
            emotion,
        ),
        _ => false,
    }
}

/// A value is the recovery of a text, by the first step of the ladder that
/// succeeds.
pub open spec fn is_recovery(text: Seq<char>, r: Recovered) -> bool {
    match structured(text) {
        Some(t) => r matches Recovered::Parsed(a) && a.triple() == t,
        None => match embedded(text) {
            None => is_fallback(text, r),
            Some(inner) => match structured(inner) {
                Some(t) => r matches Recovered::Parsed(a) && a.triple() == t,
                None => match repaired(inner) {
                    None => is_fallback(text, r),
                    Some(fixed) => match structured(fixed) {
                        Some(t) => r matches Recovered::PartialRecovered(a) && a.triple() == t,
                        None => is_fallback(text, r),
                    },
                },
            },
        },
    }
}

/// The summary that a reply asks to store: the content of the verdict held
/// by the text or by the object embedded in it, if the verdict asks for an
/// update.
pub open spec fn requested_summary(text: Seq<char>) -> Option<Seq<char>> {
    let verdict = match analysis_in(text) {
        Some(a) => Some(a),
        None => match embedded(text) {
            Some(inner) => analysis_in(inner),
            None => None,
        },
    };
    match verdict {
        Some((true, content)) => content,
        _ => None,
    }
}

/// The number that two hexadecimal digits write.
pub open spec fn hex_pair(high: char, low: char) -> Option<int> {
    match (hex_digit_value(high), hex_digit_value(low)) {
        (Some(h), Some(l)) => Some(h * 16 + l),
        _ => None,
    }
}

/// The colour that a text of the form `#rrggbb` writes: `#` and exactly six
/// hexadecimal digits, two each for red, green and blue. No other text
/// writes a colour.
pub open spec fn rrggbb(color: Seq<char>) -> Option<(u8, u8, u8)> {
    if color.len() == 7 && color[0] == '#' {
        match (
            hex_pair(color[1], color[2]),
            hex_pair(color[3], color[4]),
            hex_pair(color[5], color[6]),
        ) {
            (Some(r), Some(g), Some(b)) => Some((r as u8, g as u8, b as u8)),
            _ => None,
        }
    } else {
        None
    }
}

/// The colour of a preset name; the base purple for an unknown one.
pub open spec fn named_color(color: Seq<char>) -> (u8, u8, u8) {
    if color == "#695acd"@ || color == "base-purple"@ {
        (105u8, 90u8, 205u8)
    } else if color == "#7b6fd3"@ || color == "light-purple"@ {
        (123u8, 111u8, 211u8)
    } else if color == "#5048c7"@ || color == "deep-purple"@ {
        (80u8, 72u8, 199u8)
    } else if color == "#4a90e2"@ || color == "cool-blue"@ {
        (74u8, 144u8, 226u8)
    } else if color == "#6fa8dc"@ || color == "sky-blue"@ {
        (111u8, 168u8, 220u8)
    } else if color == "#8e7cc3"@ || color == "soft-violet"@ {
        (142u8, 124u8, 195u8)
    } else if color == "#2d3748"@ || color == "dark-slate"@ {
        (45u8, 55u8, 72u8)
    } else if color == "#805ad5"@ || color == "bright-violet"@ {
        (128u8, 90u8, 213u8)
    } else if color == "#4c51bf"@ || color == "indigo"@ {
        (76u8, 81u8, 191u8)
    } else if color == "#667eea"@ || color == "periwinkle"@ {
        (102u8, 126u8, 234u8)
    } else {
        (105u8, 90u8, 205u8)
    }
}

/// The colour that a text stands for: the one it writes as `#rrggbb`, or
/// that of the preset it names; any other text stands for the base purple.
pub open spec fn color_of_text(color: Seq<char>) -> (u8, u8, u8) {
    match rrggbb(color) {
        Some(c) => c,
        None => named_color(color),
    }
}

/// The structured response made of three member texts, all three required.
pub open spec fn triple_from(
    content: Option<Seq<char>>,
    color: Option<Seq<char>>,
    thumbnail: Option<Seq<char>>,
) -> Option<(Seq<char>, Seq<char>, Seq<char>)> {
    match (content, color, thumbnail) {
        (Some(a), Some(b), Some(c)) => Some((a, b, c)),
        _ => None,
    }
}

/// The structured response made of the three member texts of an object, if
/// all three are there.
pub fn response_from_members(
    content: Option<&str>,
    color: Option<&str>,
    thumbnail: Option<&str>,
) -> (r: Option<AIJSONResponse>)
    ensures
        match r {
            Some(a) => triple_from(opt_view(content), opt_view(color), opt_view(thumbnail)) == Some(
                a.triple(),
            ),
            None => triple_from(opt_view(content), opt_view(color), opt_view(thumbnail)).is_none(),
        },
{
    match (content, color, thumbnail) {
        (Some(a), Some(b), Some(c)) => Some(
            AIJSONResponse {
                content: owned(a),
                color: owned(b),
                thumbnail: owned(c),
            },
        ),
        _ => None,
    }
}

/// The outcome of the ladder, given what each step found: the response in
/// the text as a whole, in the object embedded in it, in that object
/// repaired, and the emotion to fall back on.
pub open spec fn classified(
    text: Seq<char>,
    whole: Option<AIJSONResponse>,
    inner: Option<AIJSONResponse>,
    mended: Option<AIJSONResponse>,
    emotion: EmotionType,
    r: Recovered,
) -> bool {
    match whole {
        Some(a) => r == Recovered::Parsed(a),
        None => match inner {
            Some(a) => r == Recovered::Parsed(a),
            None => match mended {
                Some(a) => r == Recovered::PartialRecovered(a),
                None => r matches Recovered::Fallback { content, emotion: e } && content@ == text
                    && e == emotion,
            },
        },
    }
}

/// Decides the outcome of the ladder from what each step found: the first
/// step that found a response gives it; with none, the text itself stands
/// with the given emotion.
pub fn classify(
    text: &str,
    whole: Option<AIJSONResponse>,
    inner: Option<AIJSONResponse>,
    mended: Option<AIJSONResponse>,
    emotion: EmotionType,
) -> (r: Recovered)
    ensures
        classified(text@, whole, inner, mended, emotion, r),
{
    match whole {
        Some(a) => Recovered::Parsed(a),
        None => match inner {
            Some(a) => Recovered::Parsed(a),
            None => match mended {
                Some(a) => Recovered::PartialRecovered(a),
                None => Recovered::Fallback { content: owned(text), emotion },
            },
        },
    }
}

/// The member under a key.
pub fn find_member<'a>(members: &'a Vec<(String, Member)>, key: &str) -> (r: Option<&'a Member>)
    ensures
        match r {
            Some(m) => lookup(members_view(members@), key@) == Some(m@),
            None => lookup(members_view(members@), key@).is_none(),
        },
{
    let mut i: usize = 0;
    while i < members.len()
        invariant
            i <= members.len(),
            key_index(members_view(members@), key@, 0) == key_index(
                members_view(members@),
                key@,
                i as int,
            ),
        decreases members.len() - i,
    {
        if str_eq(members[i].0.as_str(), key) {
            return Some(&members[i].1);
        }
        i += 1;
    }
    None
}

/// The text of the member under a key, if the member is a text.
pub fn find_text<'a>(members: &'a Vec<(String, Member)>, key: &str) -> (r: Option<&'a str>)
    ensures
        opt_view(r) == text_member(members_view(members@), key@),
{
    match find_member(members, key) {
        Some(Member::Text(t)) => Some(t.as_str()),
        _ => None,
    }
}

/// The structured response held by the members of an object.
pub fn response_of_members(members: &Vec<(String, Member)>) -> (r: Option<AIJSONResponse>)
    ensures
        match r {
            Some(a) => triple_of(members_view(members@)) == Some(a.triple()),
            None => triple_of(members_view(members@)).is_none(),
        },
{
    response_from_members(
        find_text(members, "content"),
        find_text(members, "color"),
        find_text(members, "thumbnail"),
    )
}

/// The structured response that a text holds as a whole.
pub fn parse_response(text: &str) -> (r: Option<AIJSONResponse>)
    ensures
        match r {
            Some(a) => structured(text@) == Some(a.triple()),
            None => structured(text@).is_none(),
        },
{
    match parse_object(text) {
        Some(members) => response_of_members(&members),
        None => None,
    }
}

/// What a verdict says: whether to update, and with what.
pub open spec fn verdict_view(a: AISummaryAnalysis) -> (bool, Option<Seq<char>>) {
    (a.update_summary, string_view(a.content))
}

/// The summary verdict held by the members of an object.
pub fn analysis_of_members(members: &Vec<(String, Member)>) -> (r: Option<AISummaryAnalysis>)
    ensures
        match r {
            Some(a) => analysis_of(members_view(members@)) == Some(verdict_view(a)),
            None => analysis_of(members_view(members@)).is_none(),
        },
{
    match find_member(members, "update_summary") {
        Some(Member::Flag(update)) => {
            match find_member(members, "content") {
                None => Some(AISummaryAnalysis { update_summary: *update, content: None }),
                Some(Member::Null) => Some(
                    AISummaryAnalysis { update_summary: *update, content: None },
                ),
                Some(Member::Text(t)) => Some(
                    AISummaryAnalysis { update_summary: *update, content: Some(t.clone()) },
                ),
                Some(_) => None,
            }
        },
        _ => None,
    }
}

/// The summary verdict that a text holds as a whole.
pub fn parse_analysis(text: &str) -> (r: Option<AISummaryAnalysis>)
    ensures
        match r {
            Some(a) => analysis_in(text@) == Some(verdict_view(a)),
            None => analysis_in(text@).is_none(),
        },
{
    match parse_object(text) {
        Some(members) => analysis_of_members(&members),
        None => None,
    }
}

/// The part of a text from its first `{` to its last `}`.
pub fn extract_json_from_text(text: &str) -> (r: Option<String>)
    ensures
        match r {
            Some(s) => embedded(text@) == Some(s@),
            None => embedded(text@).is_none(),
        },
{
    let chars = chars_of(text);
    match find_char_exec(&chars, '{') {
        Some(start) => match rfind_char_exec(&chars, '}') {
            Some(end) => {
                if end > start {
                    Some(string_of(&slice_of(&chars, start, end + 1)))
                } else {
                    None
                }
            },
            None => None,
        },
        None => None,
    }
}

/// A text escaped for a JSON string: backslash, quote, line feed, carriage
/// return and tab get a backslash form.
pub fn escape_content(s: &Vec<char>) -> (r: Vec<char>)
    ensures
        r@ == escaped(s@, s.len() as int),
{
    let mut out: Vec<char> = Vec::new();
    let mut i: usize = 0;
    while i < s.len()
        invariant
            i <= s.len(),
            out@ == escaped(s@, i as int),
        decreases s.len() - i,
    {
        let c = s[i];
        let ghost before = out@;
        if c == '\\' {
            out.push('\\');
            out.push('\\');
        } else if c == '"' {
            out.push('\\');
            out.push('"');
        } else if c == '\n' {
            out.push('\\');
            out.push('n');
        } else if c == '\r' {
            out.push('\\');
            out.push('r');
        } else if c == '\t' {
            out.push('\\');
            out.push('t');
        } else {
            out.push(c);
        }
        proof {
            assert(out@ =~= before + escape_char(c));
        }
        i += 1;
    }
    out
}

/// The object text with the three pieces in place.
pub fn rebuild_json(content: &Vec<char>, color: &str, thumbnail: &str) -> (r: String)
    ensures
        r@ == rebuilt(content@, color@, thumbnail@),
{
    let mut out = chars_of("{\"content\":\"");
    push_all(&mut out, content);
    push_text(&mut out, "\",\"color\":\"");
    push_text(&mut out, color);
    push_text(&mut out, "\",\"thumbnail\":\"");
    push_text(&mut out, thumbnail);
    push_text(&mut out, "\"}");
    string_of(&out)
}

/// The raw span of the content field.
pub fn find_content_span(chars: &Vec<char>) -> (r: Option<Vec<char>>)
    ensures
        match r {
            Some(s) => content_span(chars@) == Some(s@),
            None => content_span(chars@).is_none(),
        },
{
    let key = chars_of("\"content\":");
    let mark = chars_of("\",\"color\"");
    proof {
        reveal_strlit("\"content\":");
        reveal_strlit("\",\"color\"");
    }
    match find_sub_exec(chars, &key) {
        Some(p) => {
            let value = p + 10;
            let start = if value < chars.len() && chars[value] == '"' {
                value + 1
            } else {
                value
            };
            match find_sub_from(chars, &mark, start) {
                Some(e) => Some(slice_of(chars, start, e)),
                None => None,
            }
        },
        None => None,
    }
}

/// Repairs an object text, given what the three patterns captured in it.
pub fn fix_with_captures(
    json_text: &str,
    content: Option<&str>,
    color: Option<&str>,
    thumbnail: Option<&str>,
) -> (r: Option<String>)
    ensures
        match r {
            Some(s) => repaired_with(
                json_text@,
                opt_view(content),
                opt_view(color),
                opt_view(thumbnail),
            ) == Some(s@),
            None => repaired_with(
                json_text@,
                opt_view(content),
                opt_view(color),
                opt_view(thumbnail),
            ).is_none(),
        },
{
    let chars = chars_of(json_text);
    match find_content_span(&chars) {
        Some(raw) => {
            let escaped_content = escape_content(&raw);
            let color_text = match color {
                Some(c) => c,
                None => "#00BFFF",
            };
            let thumbnail_text = match thumbnail {
                Some(t) => t,
                None => "pointing",
            };
            Some(rebuild_json(&escaped_content, color_text, thumbnail_text))
        },
        None => match (content, color, thumbnail) {
            (Some(c), Some(col), Some(th)) => {
                let escaped_content = escape_content(&chars_of(c));
                Some(rebuild_json(&escaped_content, col, th))
            },
            _ => None,
        },
    }
}

/// An object text whose content value holds `content` as it came, with
/// nothing escaped, closed by the marker of the colour; `rest` is whatever
/// follows the marker.
pub open spec fn framed(content: Seq<char>, rest: Seq<char>) -> Seq<char> {
    "{\"content\":\""@ + content + "\",\"color\""@ + rest
}

/// The marker that follows the content is the first one: none begins inside
/// the content, not even one whose last quote would be the quote that closes
/// the value.
pub open spec fn closed_by_marker(content: Seq<char>) -> bool {
    find_sub(content + "\",\"color\""@, "\",\"color\""@, 0) == Some(content.len() as int)
}

/// Whatever a content holds, bare quotes, backslashes and line breaks
/// included, the repair finds exactly that content in the object text that
/// frames it, without the quotes around it, and rebuilds the object with the
/// content escaped: nothing of the content is lost, cut or doubled.
pub proof fn lemma_framed_content_is_repaired(
    content: Seq<char>,
    rest: Seq<char>,
    captured: Option<Seq<char>>,
    color: Option<Seq<char>>,
    thumbnail: Option<Seq<char>>,
)
    requires
        closed_by_marker(content),
    ensures
        content_span(framed(content, rest)) == Some(content),
        repaired_with(framed(content, rest), captured, color, thumbnail) == Some(
            rebuilt(
                escaped(content, content.len() as int),
                or_default(color, "#00BFFF"@),
                or_default(thumbnail, "pointing"@),
            ),
        ),
{
    reveal_strlit("{\"content\":\"");
    reveal_strlit("\"content\":");
    reveal_strlit("\",\"color\"");
    let key = "\"content\":"@;
    let mark = "\",\"color\""@;
    let text = framed(content, rest);
    let end = 12 + content.len() as int;
    assert(text.len() == end + 9 + rest.len());
    assert(text.subrange(1, 11) =~= key);
    assert(!matches_at(text, key, 0)) by {
        assert(text.subrange(0, 10)[0] == '{');
    }
    lemma_find_sub_first(text, key, 0, 1);
    assert(span_start(text, 11) == 12);
    assert(text.subrange(end, end + 9) =~= mark);
    lemma_find_sub_found(content + mark, mark, 0);
    assert forall|j: int| 12 <= j < end implies !matches_at(text, mark, j) by {
        assert(!matches_at(content + mark, mark, j - 12));
        assert(text.subrange(j, j + 9) =~= (content + mark).subrange(j - 12, j - 3));
    }
    lemma_find_sub_first(text, mark, 12, end);
    assert(text.subrange(12, end) =~= content);
}

/// Repairs an object text whose content field is malformed.
pub fn fix_malformed_json(json_text: &str) -> (r: Option<String>)
    ensures
        match r {
            Some(s) => repaired(json_text@) == Some(s@),
            None => repaired(json_text@).is_none(),
        },
{
    let content = capture_first("\"content\"\\s*:\\s*\"([^\"]*(?:\\\\.[^\"]*)*)", json_text);
    let color = capture_first("\"color\"\\s*:\\s*\"([^\"]+)\"", json_text);
    let thumbnail = capture_first("\"thumbnail\"\\s*:\\s*\"([^\"]+)\"", json_text);
    match (content, color, thumbnail) {
        (Some(c), Some(col), Some(th)) => fix_with_captures(
            json_text,
            as_text(&c),
            as_text(&col),
            as_text(&th),
        ),
        _ => None,
    }
}

/// The text of an optional string.
pub fn as_text(s: &Option<String>) -> (r: Option<&str>)
    ensures
        opt_view(r) == string_view(*s),
{
    match s {
        Some(t) => Some(t.as_str()),
        None => None,
    }
}

/// Recovers a structured response from the text of a reply: the text as a
/// whole, then the object embedded in it, then that object repaired, and at
/// last the text itself with an inferred emotion. It never fails.
pub fn recover_response(text: &str, emotions: &EmotionManager) -> (r: Recovered)
    ensures
        is_recovery(text@, r),
{
    let whole = parse_response(text);
    let mut inner: Option<AIJSONResponse> = None;
    let mut mended: Option<AIJSONResponse> = None;
    if whole.is_none() {
        match extract_json_from_text(text) {
            Some(object) => {
                inner = parse_response(object.as_str());
                if inner.is_none() {
                    match fix_malformed_json(object.as_str()) {
                        Some(fixed) => {
                            mended = parse_response(fixed.as_str());
                        },
                        None => {},
                    }
                }
            },
            None => {},
        }
    }
    let emotion = if whole.is_none() && inner.is_none() && mended.is_none() {
        emotions.analyze_emotion(text)
    } else {
        EmotionType::Neutral
    };
    classify(text, whole, inner, mended, emotion)
}

/// The summary that the reply to a summary analysis asks to store.
pub fn summary_from_reply(text: &str) -> (r: Option<String>)
    ensures
        match r {
            Some(s) => requested_summary(text@) == Some(s@),
            None => requested_summary(text@).is_none(),
        },
{
    let verdict = match parse_analysis(text) {
        Some(a) => Some(a),
        None => match extract_json_from_text(text) {
            Some(inner) => parse_analysis(inner.as_str()),
            None => None,
        },
    };
    match verdict {
        Some(a) => {
            if a.update_summary {
                a.content
            } else {
                None
            }
        },
        None => None,
    }
}

/// The number that two hexadecimal digits write.
pub fn hex_pair_of(high: char, low: char) -> (r: Option<u8>)
    ensures
        match r {
            Some(v) => hex_pair(high, low) == Some(v as int),
            None => hex_pair(high, low).is_none(),
        },
{
    match (value_of_hex_digit(high), value_of_hex_digit(low)) {
        (Some(h), Some(l)) => Some(h * 16 + l),
        _ => None,
    }
}

/// The colour that a text stands for, as red, green and blue: `#rrggbb` is
/// read, a preset name is looked up, and any other text gives the base
/// purple.
pub fn parse_color(color: &str) -> (r: (u8, u8, u8))
    ensures
        r == color_of_text(color@),
{
    let chars = chars_of(color);
    if chars.len() == 7 && chars[0] == '#' {
        let red = hex_pair_of(chars[1], chars[2]);
        let green = hex_pair_of(chars[3], chars[4]);
        let blue = hex_pair_of(chars[5], chars[6]);
        match (red, green, blue) {
            (Some(r), Some(g), Some(b)) => {
                return (r, g, b);
            },
            _ => {},
        }
    }
    if str_eq(color, "#695acd") || str_eq(color, "base-purple") {
        (105, 90, 205)
    } else if str_eq(color, "#7b6fd3") || str_eq(color, "light-purple") {
        (123, 111, 211)
    } else if str_eq(color, "#5048c7") || str_eq(color, "deep-purple") {
        (80, 72, 199)
    } else if str_eq(color, "#4a90e2") || str_eq(color, "cool-blue") {
        (74, 144, 226)
    } else if str_eq(color, "#6fa8dc") || str_eq(color, "sky-blue") {
        (111, 168, 220)
    } else if str_eq(color, "#8e7cc3") || str_eq(color, "soft-violet") {
        (142, 124, 195)
    } else if str_eq(color, "#2d3748") || str_eq(color, "dark-slate") {
        (45, 55, 72)
    } else if str_eq(color, "#805ad5") || str_eq(color, "bright-violet") {
        (128, 90, 213)
    } else if str_eq(color, "#4c51bf") || str_eq(color, "indigo") {
        (76, 81, 191)
    } else if str_eq(color, "#667eea") || str_eq(color, "periwinkle") {
        (102, 126, 234)
    } else {
        (105, 90, 205)
    }
}

} // verus!
