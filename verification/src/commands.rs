//! The decisions behind the commands: routing, validation, permissions,
//! vote counting and the texts of the feedback cards.
use vstd::prelude::*;
use crate::data::FeedbackMessage;
use crate::lang::{emoji_of, EmojiManager, HelpCommand, LanguageManager};
use crate::text::{
    byte_prefix, chars_of, contains_exec, contains_sub, decimal, decimal_i64, decimal_int,
    decimal_u64, lowercase, matches_at, matches_at_exec, owned, parse_u64, push_all, push_text,
    slice_of, str_eq, string_of, take_bytes, to_lowercase, u64_value,
};

verus! {

/// The channel in which feedback is collected.
pub open spec fn feedback_channel() -> Seq<char> {
    "1400466972293992498"@
}

/// Whether a channel is the feedback channel.
pub fn is_feedback_channel(channel_id: &str) -> (r: bool)
    ensures
        r == (channel_id@ == feedback_channel()),
{
    str_eq(channel_id, "1400466972293992498")
}

/// Whether a lower-cased text holds a word that feedback may not hold.
pub open spec fn is_inappropriate(lower: Seq<char>) -> bool {
    contains_sub(lower, "spam"@) || contains_sub(lower, "scam"@) || contains_sub(lower, "abuse"@)
}

/// Whether a text holds a word that feedback may not hold, in any case.
pub fn contains_inappropriate_content(content: &str) -> (r: bool)
    ensures
        r == is_inappropriate(lowercase(content@)),
{
    let lower = chars_of(to_lowercase(content).as_str());
    holds_inappropriate_word(&lower)
}

/// Whether a text that is already in lower case holds a word that feedback
/// may not hold.
pub fn holds_inappropriate_word(lower: &Vec<char>) -> (r: bool)
    ensures
        r == is_inappropriate(lower@),
{
    contains_exec(lower, &chars_of("spam")) || contains_exec(lower, &chars_of("scam"))
        || contains_exec(lower, &chars_of("abuse"))
}

/// The emoji under a category and a name, or the fallback.
pub open spec fn emoji_or(emojis: &EmojiManager, category: Seq<char>, name: Seq<char>, fallback: Seq<
    char,
>) -> Seq<char> {
    match emoji_of(emojis.emojis(), category, name) {
        Some(e) => e@,
        None => fallback,
    }
}

/// `n` copies of `s` in a row.
pub open spec fn repeated(s: Seq<char>, n: int) -> Seq<char>
    decreases n,
{
    if n <= 0 {
        Seq::<char>::empty()
    } else {
        repeated(s, n - 1) + s
    }
}

/// The rating of a card on a scale of five: the share of upvotes, rounded
/// down.
pub open spec fn rating_of(upvotes: int, downvotes: int) -> int {
    if upvotes + downvotes > 0 {
        (upvotes * 5) / (upvotes + downvotes)
    } else {
        0
    }
}

/// The rating line of a feedback card: five marks, filled up to the
/// rating, then the two counts; five empty marks and a note while nobody
/// has voted.
pub open spec fn star_display(upvotes: int, downvotes: int, emojis: &EmojiManager) -> Seq<char> {
    let star = emoji_or(emojis, "interface"@, "star"@, "\u{2b50}"@);
    let empty = emoji_or(emojis, "confirmations"@, "x_"@, "\u{274c}"@);
    let up = emoji_or(emojis, "status"@, "up"@, "\u{2b06}\u{fe0f}"@);
    let down = emoji_or(emojis, "status"@, "down"@, "\u{2b07}\u{fe0f}"@);
    if upvotes + downvotes == 0 {
        repeated(empty, 5) + " (No votes yet)"@
    } else {
        let rating = rating_of(upvotes, downvotes);
        repeated(star, rating) + repeated(empty, 5 - rating) + " ("@ + up + " "@ + decimal_int(
            upvotes,
        ) + " | "@ + down + " "@ + decimal_int(downvotes) + ")"@
    }
}

/// The emoji under a category and a name, or the fallback.
pub fn emoji_or_default(emojis: &EmojiManager, category: &str, name: &str, fallback: &str) -> (r:
    Vec<char>)
    ensures
        r@ == emoji_or(emojis, category@, name@, fallback@),
{
    match emojis.get_emoji(category, name) {
        Some(e) => chars_of(e.as_str()),
        None => chars_of(fallback),
    }
}

/// Appends `n` copies of `s`.
pub fn push_repeated(out: &mut Vec<char>, s: &Vec<char>, n: u32)
    ensures
        final(out)@ == old(out)@ + repeated(s@, n as int),
{
    let ghost start = out@;
    let mut i: u32 = 0;
    proof {
        assert(out@ =~= start + repeated(s@, 0));
    }
    while i < n
        invariant
            i <= n,
            out@ == start + repeated(s@, i as int),
        decreases n - i,
    {
        push_all(out, s);
        i += 1;
        proof {
            assert(out@ =~= start + repeated(s@, i as int));
        }
    }
}

/// The rating line of a feedback card. The counts are numbers of votes:
/// neither is negative and their sum is a count too.
pub fn generate_star_display(upvotes: i32, downvotes: i32, emojis: &EmojiManager) -> (r: String)
    requires
        upvotes >= 0,
        downvotes >= 0,
        upvotes + downvotes <= i32::MAX,
    ensures
        r@ == star_display(upvotes as int, downvotes as int, emojis),
{
    let star = emoji_or_default(emojis, "interface", "star", "\u{2b50}");
    let empty = emoji_or_default(emojis, "confirmations", "x_", "\u{274c}");
    let up = emoji_or_default(emojis, "status", "up", "\u{2b06}\u{fe0f}");
    let down = emoji_or_default(emojis, "status", "down", "\u{2b07}\u{fe0f}");
    let total = upvotes + downvotes;
    let mut out: Vec<char> = Vec::new();
    if total == 0 {
        push_repeated(&mut out, &empty, 5);
        push_text(&mut out, " (No votes yet)");
        proof {
            assert(out@ =~= star_display(upvotes as int, downvotes as int, emojis));
        }
        return string_of(&out);
    }
    let wide: i64 = (upvotes as i64) * 5 / (total as i64);
    assert(0 <= wide <= 5) by (nonlinear_arith)
        requires
            wide == (upvotes * 5) / (total as int),
            0 <= upvotes <= total,
            total > 0,
    ;
    let rating: u32 = wide as u32;
    push_repeated(&mut out, &star, rating);
    push_repeated(&mut out, &empty, 5 - rating);
    push_text(&mut out, " (");
    push_all(&mut out, &up);
    push_text(&mut out, " ");
    push_all(&mut out, &decimal_i64(upvotes as i64));
    push_text(&mut out, " | ");
    push_all(&mut out, &down);
    push_text(&mut out, " ");
    push_all(&mut out, &decimal_i64(downvotes as i64));
    push_text(&mut out, ")");
    proof {
        assert(out@ =~= star_display(upvotes as int, downvotes as int, emojis));
    }
    string_of(&out)
}

/// What kind of reaction stands under a message.
#[derive(Debug)]
pub enum ReactionKind {
    /// A custom emoji, with its name if it has one.
    Custom(Option<String>),
    /// A standard emoji.
    Unicode(String),
    /// Anything else.
    Other,
}

/// One kind of reaction under a message and how often it was given.
#[derive(Debug)]
pub struct ReactionCount {
    pub kind: ReactionKind,
    pub count: u64,
}

/// Whether a reaction is a vote for.
pub open spec fn is_upvote(k: ReactionKind) -> bool {
    match k {
        ReactionKind::Custom(Some(name)) => name@ == "up"@,
        ReactionKind::Unicode(e) => e@ == "\u{2b06}\u{fe0f}"@,
        _ => false,
    }
}

/// Whether a reaction is a vote against.
pub open spec fn is_downvote(k: ReactionKind) -> bool {
    match k {
        ReactionKind::Custom(Some(name)) => name@ == "down"@,
        ReactionKind::Unicode(e) => e@ == "\u{2b07}\u{fe0f}"@,
        _ => false,
    }
}

/// A count as a 32-bit signed number, wrapping around beyond its range.
pub open spec fn wrapped(count: u64) -> int {
    let low = count as int % 0x1_0000_0000;
    if low < 0x8000_0000 {
        low
    } else {
        low - 0x1_0000_0000
    }
}

/// The votes among the first `n` reactions, for and against: the last
/// reaction of each kind counts.
pub open spec fn votes_of(reactions: Seq<ReactionCount>, n: int) -> (int, int)
    decreases n,
{
    if n <= 0 {
        (0, 0)
    } else {
        let before = votes_of(reactions, n - 1);
        let r = reactions[n - 1];
        if is_upvote(r.kind) {
            (wrapped(r.count), before.1)
        } else if is_downvote(r.kind) {
            (before.0, wrapped(r.count))
        } else {
            before
        }
    }
}

/// Whether a reaction is a vote for.
pub fn reaction_is_upvote(kind: &ReactionKind) -> (r: bool)
    ensures
        r == is_upvote(*kind),
{
    match kind {
        ReactionKind::Custom(Some(name)) => str_eq(name.as_str(), "up"),
        ReactionKind::Unicode(e) => str_eq(e.as_str(), "\u{2b06}\u{fe0f}"),
        _ => false,
    }
}

/// Whether a reaction is a vote against.
pub fn reaction_is_downvote(kind: &ReactionKind) -> (r: bool)
    ensures
        r == is_downvote(*kind),
{
    match kind {
        ReactionKind::Custom(Some(name)) => str_eq(name.as_str(), "down"),
        ReactionKind::Unicode(e) => str_eq(e.as_str(), "\u{2b07}\u{fe0f}"),
        _ => false,
    }
}

/// Whether a reaction is a vote at all.
pub fn is_relevant_reaction(kind: &ReactionKind) -> (r: bool)
    ensures
        r == (is_upvote(*kind) || is_downvote(*kind)),
{
    reaction_is_upvote(kind) || reaction_is_downvote(kind)
}

/// A count as a 32-bit signed number, wrapping around beyond its range.
pub fn wrap_count(count: u64) -> (r: i32)
    ensures
        r == wrapped(count),
{
    let low: u64 = count % 0x1_0000_0000;
    if low < 0x8000_0000 {
        low as i32
    } else {
        let wide: i64 = low as i64 - 0x1_0000_0000;
        wide as i32
    }
}

/// Counts the votes under a message from its reactions.
pub fn count_votes(reactions: &Vec<ReactionCount>) -> (r: (i32, i32))
    ensures
        (r.0 as int, r.1 as int) == votes_of(reactions@, reactions.len() as int),
{
    let mut upvotes: i32 = 0;
    let mut downvotes: i32 = 0;
    let mut i: usize = 0;
    while i < reactions.len()
        invariant
            i <= reactions.len(),
            (upvotes as int, downvotes as int) == votes_of(reactions@, i as int),
        decreases reactions.len() - i,
    {
        let reaction = &reactions[i];
        if reaction_is_upvote(&reaction.kind) {
            upvotes = wrap_count(reaction.count);
        } else if reaction_is_downvote(&reaction.kind) {
            downvotes = wrap_count(reaction.count);
        }
        i += 1;
    }
    (upvotes, downvotes)
}

/// The feedback entry with its counts derived anew from the reactions under
/// its card, and whether that changed a count.
pub fn apply_votes(feedback: FeedbackMessage, reactions: &Vec<ReactionCount>) -> (r: (
    FeedbackMessage,
    bool,
))
    ensures
        (r.0.upvotes as int, r.0.downvotes as int) == votes_of(
            reactions@,
            reactions.len() as int,
        ),
        r.0 == (FeedbackMessage { upvotes: r.0.upvotes, downvotes: r.0.downvotes, ..feedback }),
        r.1 == (r.0.upvotes != feedback.upvotes || r.0.downvotes != feedback.downvotes),
{
    let (upvotes, downvotes) = count_votes(reactions);
    let changed = upvotes != feedback.upvotes || downvotes != feedback.downvotes;
    let mut updated = feedback;
    updated.upvotes = upvotes;
    updated.downvotes = downvotes;
    (updated, changed)
}

/// The number of messages to delete that a purge asks for: the given
/// number, if it is from 1 to 100.
pub fn purge_amount(requested: Option<i64>) -> (r: Option<u64>)
    ensures
        r == match requested {
            Some(n) => if 1 <= n <= 100 {
                Some(n as u64)
            } else {
                None
            },
            None => None,
        },
{
    match requested {
        Some(n) => {
            if n >= 1 && n <= 100 {
                Some(n as u64)
            } else {
                None
            }
        },
        None => None,
    }
}

/// Whether a user may close a ticket: its creator and the owner may.
pub fn may_close_ticket(user_id: u64, creator_id: u64, owner_id: u64) -> (r: bool)
    ensures
        r == (user_id == creator_id || user_id == owner_id),
{
    user_id == creator_id || user_id == owner_id
}

/// The creator named by the control id of a commission's close button:
/// the number after `commission_close_`, or 0 where there is none.
pub open spec fn commission_creator(custom_id: Seq<char>) -> nat {
    if matches_at(custom_id, "commission_close_"@, 0) {
        match u64_value(custom_id.subrange(17, custom_id.len() as int)) {
            Some(v) => v,
            None => 0,
        }
    } else {
        0
    }
}

/// The creator named by the control id of a commission's close button.
pub fn commission_creator_id(custom_id: &str) -> (r: u64)
    ensures
        r == commission_creator(custom_id@),
{
    let chars = chars_of(custom_id);
    let prefix = chars_of("commission_close_");
    proof {
        reveal_strlit("commission_close_");
    }
    if matches_at_exec(&chars, &prefix, 0) {
        let rest = slice_of(&chars, 17, chars.len());
        match parse_u64(&rest) {
            Some(v) => v,
            None => 0,
        }
    } else {
        0
    }
}

/// Whether a user may close a commission by its button: its creator and
/// administrators may.
pub fn may_close_commission(user_id: u64, custom_id: &str, is_administrator: bool) -> (r: bool)
    ensures
        r == (user_id == commission_creator(custom_id@) || is_administrator),
{
    user_id == commission_creator_id(custom_id) || is_administrator
}

/// The name of a user's commission channel.
pub open spec fn commission_channel_name(user_name: Seq<char>, user_id: nat) -> Seq<char> {
    channel_name("commission-"@, lowercase(user_name), user_id)
}

/// A channel name made of a prefix, a name and a number.
pub open spec fn channel_name(prefix: Seq<char>, name: Seq<char>, user_id: nat) -> Seq<char> {
    prefix + name + "-"@ + decimal(user_id)
}

/// A channel name made of a prefix, a name and a number.
pub fn channel_named(prefix: &str, name: &str, user_id: u64) -> (r: String)
    ensures
        r@ == channel_name(prefix@, name@, user_id as nat),
{
    let mut out = chars_of(prefix);
    push_text(&mut out, name);
    push_text(&mut out, "-");
    push_all(&mut out, &decimal_u64(user_id));
    string_of(&out)
}

/// The name of the commission channel for a user.
pub fn commission_channel_for(user_name: &str, user_id: u64) -> (r: String)
    ensures
        r@ == commission_channel_name(user_name@, user_id as nat),
{
    channel_named("commission-", to_lowercase(user_name).as_str(), user_id)
}

/// Whether a channel name is that of a commission channel of the user.
pub open spec fn is_commission_of(name: Seq<char>, user_id: nat) -> bool {
    matches_at(name, "commission-"@, 0) && contains_sub(name, decimal(user_id))
}

/// Whether a channel name is that of a commission channel.
pub fn is_commission_channel(name: &str) -> (r: bool)
    ensures
        r == matches_at(name@, "commission-"@, 0),
{
    matches_at_exec(&chars_of(name), &chars_of("commission-"), 0)
}

/// Position of the first channel at or after `from` that is a commission
/// channel of the user.
pub open spec fn commission_index(names: Seq<(u64, String)>, user_id: nat, from: int) -> Option<
    int,
>
    decreases names.len() - from,
{
    if from < 0 || from >= names.len() {
        None
    } else if is_commission_of(names[from].1@, user_id) {
        Some(from)
    } else {
        commission_index(names, user_id, from + 1)
    }
}

/// The first of the given channels, each an id and a name, that is a
/// commission channel of the user.
pub fn find_commission_channel(channels: &Vec<(u64, String)>, user_id: u64) -> (r: Option<u64>)
    ensures
        r == match commission_index(channels@, user_id as nat, 0) {
            Some(i) => Some(channels@[i].0),
            None => None,
        },
{
    let id = decimal_u64(user_id);
    let prefix = chars_of("commission-");
    let mut i: usize = 0;
    while i < channels.len()
        invariant
            i <= channels.len(),
            id@ == decimal(user_id as nat),
            prefix@ == "commission-"@,
            commission_index(channels@, user_id as nat, 0) == commission_index(
                channels@,
                user_id as nat,
                i as int,
            ),
        decreases channels.len() - i,
    {
        let name = chars_of(channels[i].1.as_str());
        if matches_at_exec(&name, &prefix, 0) && contains_exec(&name, &id) {
            return Some(channels[i].0);
        }
        i += 1;
    }
    None
}

/// Whether a user may close a commission by command, in a channel of the
/// given name: administrators may, and the user named in the channel name.
pub fn may_close_commission_channel(channel_name: &str, user_id: u64, is_administrator: bool) -> (r:
    bool)
    ensures
        r == (is_administrator || contains_sub(channel_name@, decimal(user_id as nat))),
{
    is_administrator || contains_exec(&chars_of(channel_name), &decimal_u64(user_id))
}

/// The name of a ticket channel: `ticket-`, the user, and the first eight
/// bytes of a fresh id in lower case.
pub open spec fn ticket_name(user_id: nat, fresh: Seq<char>) -> Seq<char> {
    ticket_name_with(user_id, lowercase(short_text(fresh)))
}

/// The first eight bytes of a text; a text of fewer bytes as a whole.
pub open spec fn short_text(s: Seq<char>) -> Seq<char> {
    byte_prefix(s, 8)
}

/// The name of a ticket channel, given the end of the name.
pub open spec fn ticket_name_with(user_id: nat, tail: Seq<char>) -> Seq<char> {
    "ticket-"@ + decimal(user_id) + "-"@ + tail
}

/// The first eight bytes of a text; a text of fewer bytes as a whole.
pub fn shorten(s: &str) -> (r: String)
    ensures
        r@ == short_text(s@),
{
    take_bytes(s, 8)
}

/// The name of a ticket channel, given the end of the name.
pub fn ticket_channel_named(user_id: u64, tail: &str) -> (r: String)
    ensures
        r@ == ticket_name_with(user_id as nat, tail@),
{
    let mut out = chars_of("ticket-");
    push_all(&mut out, &decimal_u64(user_id));
    push_text(&mut out, "-");
    push_text(&mut out, tail);
    string_of(&out)
}

/// The name of the ticket channel for a user, given a fresh id.
pub fn ticket_channel_for(user_id: u64, fresh: &str) -> (r: String)
    ensures
        r@ == ticket_name(user_id as nat, fresh@),
{
    let short = shorten(fresh);
    ticket_channel_named(user_id, to_lowercase(short.as_str()).as_str())
}

/// The number in a custom emoji code of the form `<:name:number>`: what
/// stands after the second colon, without the closing bracket.
pub open spec fn emoji_number(code: Seq<char>) -> Option<nat> {
    match crate::text::find_char(code, ':', 0) {
        None => None,
        Some(first) => match crate::text::find_char(code, ':', first + 1) {
            None => None,
            Some(second) => {
                let rest = code.subrange(second + 1, code.len() as int);
                let end = match crate::text::find_char(rest, ':', 0) {
                    Some(third) => third,
                    None => rest.len() as int,
                };
                let part = rest.subrange(0, end);
                if part.len() > 0 && part.last() == '>' {
                    u64_value(part.drop_last())
                } else {
                    None
                }
            },
        },
    }
}

/// The number in a custom emoji code.
pub fn custom_emoji_id(code: &str) -> (r: Option<u64>)
    ensures
        match r {
            Some(v) => emoji_number(code@) == Some(v as nat),
            None => emoji_number(code@).is_none(),
        },
{
    let chars = chars_of(code);
    let first = match crate::text::find_char_exec(&chars, ':') {
        Some(i) => i,
        None => {
            return None;
        },
    };
    let after_first = slice_of(&chars, first + 1, chars.len());
    let second = match crate::text::find_char_exec(&after_first, ':') {
        Some(i) => first + 1 + i,
        None => {
            proof {
                lemma_find_shift(chars@, ':', first + 1);
            }
            return None;
        },
    };
    proof {
        lemma_find_shift(chars@, ':', first + 1);
    }
    let rest = slice_of(&chars, second + 1, chars.len());
    let end = match crate::text::find_char_exec(&rest, ':') {
        Some(i) => i,
        None => rest.len(),
    };
    let part = slice_of(&rest, 0, end);
    if part.len() > 0 && part[part.len() - 1] == '>' {
        let digits = slice_of(&part, 0, part.len() - 1);
        proof {
            assert(digits@ =~= part@.drop_last());
        }
        parse_u64(&digits)
    } else {
        None
    }
}

/// Searching from a position is searching the rest from its start.
pub proof fn lemma_find_shift(s: Seq<char>, c: char, from: int)
    requires
        0 <= from <= s.len(),
    ensures
        crate::text::find_char(s, c, from) == match crate::text::find_char(
            s.subrange(from, s.len() as int),
            c,
            0,
        ) {
            Some(i) => Some(from + i),
            None => None,
        },
{
    lemma_find_shift_at(s, c, from, 0);
}

/// Searching from `from + k` is searching the rest from `k`.
pub proof fn lemma_find_shift_at(s: Seq<char>, c: char, from: int, k: int)
    requires
        0 <= from <= s.len(),
        0 <= k,
    ensures
        crate::text::find_char(s, c, from + k) == match crate::text::find_char(
            s.subrange(from, s.len() as int),
            c,
            k,
        ) {
            Some(i) => Some(from + i),
            None => None,
        },
    decreases s.len() - from - k,
{
    let rest = s.subrange(from, s.len() as int);
    if from + k < s.len() {
        assert(rest[k] == s[from + k]);
        if s[from + k] != c {
            lemma_find_shift_at(s, c, from, k + 1);
        }
    }
}

/// The first ten roles as mentions, separated by commas; the given text
/// where there is no role.
pub open spec fn roles_line(roles: Seq<u64>, n: int) -> Seq<char>
    decreases n,
{
    if n <= 0 {
        Seq::<char>::empty()
    } else if n == 1 {
        "<@&"@ + decimal(roles[0] as nat) + ">"@
    } else {
        roles_line(roles, n - 1) + ", "@ + "<@&"@ + decimal(roles[n - 1] as nat) + ">"@
    }
}

/// The roles of a member as one line.
pub fn roles_text(roles: &Vec<u64>, no_roles: &str) -> (r: String)
    ensures
        r@ == if roles.len() == 0 {
            no_roles@
        } else if roles.len() > 10 {
            roles_line(roles@, 10)
        } else {
            roles_line(roles@, roles.len() as int)
        },
{
    if roles.len() == 0 {
        return owned(no_roles);
    }
    let limit = if roles.len() > 10 {
        10
    } else {
        roles.len()
    };
    let mut out: Vec<char> = Vec::new();
    let mut i: usize = 0;
    while i < limit
        invariant
            i <= limit <= roles.len(),
            out@ == roles_line(roles@, i as int),
        decreases limit - i,
    {
        let ghost before = out@;
        if i > 0 {
            push_text(&mut out, ", ");
        }
        push_text(&mut out, "<@&");
        push_all(&mut out, &decimal_u64(roles[i]));
        push_text(&mut out, ">");
        proof {
            if i == 0 {
                assert(before =~= Seq::<char>::empty());
                assert(out@ =~= roles_line(roles@, 1));
            } else {
                assert(out@ =~= roles_line(roles@, i + 1));
            }
        }
        i += 1;
    }
    string_of(&out)
}

/// The help texts of a command, if help knows the command.
pub open spec fn help_of(lang: &LanguageManager, name: Seq<char>) -> Option<HelpCommand> {
    let c = lang.messages().embeds.help.commands;
    if name == "ping"@ {
        Some(c.ping)
    } else if name == "info"@ {
        Some(c.info)
    } else if name == "hello"@ {
        Some(c.hello)
    } else if name == "stats"@ {
        Some(c.stats)
    } else if name == "images"@ {
        Some(c.images)
    } else if name == "userinfo"@ {
        Some(c.userinfo)
    } else if name == "purge"@ {
        Some(c.purge)
    } else if name == "reminder"@ {
        Some(c.reminder)
    } else {
        None
    }
}

/// The help texts of a command.
pub fn help_entry<'a>(lang: &'a LanguageManager, name: &str) -> (r: Option<&'a HelpCommand>)
    ensures
        match r {
            Some(h) => help_of(lang, name@) == Some(*h),
            None => help_of(lang, name@).is_none(),
        },
{
    let c = &lang.get().embeds.help.commands;
    if str_eq(name, "ping") {
        Some(&c.ping)
    } else if str_eq(name, "info") {
        Some(&c.info)
    } else if str_eq(name, "hello") {
        Some(&c.hello)
    } else if str_eq(name, "stats") {
        Some(&c.stats)
    } else if str_eq(name, "images") {
        Some(&c.images)
    } else if str_eq(name, "userinfo") {
        Some(&c.userinfo)
    } else if str_eq(name, "purge") {
        Some(&c.purge)
    } else if str_eq(name, "reminder") {
        Some(&c.reminder)
    } else {
        None
    }
}

/// What a command asks for.
#[derive(Debug, Clone, Copy, PartialEq, Eq, Structural)]
pub enum CommandRoute {
    Ping,
    Images,
    UserInfo,
    Stats,
    Purge,
    Reminder,
    CommissionSetup,
    CommissionClose,
    TicketSetup,
    TicketClose,
    FeedbackSetup,
    Info,
    Hello,
    Help,
    Unknown,
}

/// The route of a command name.
pub open spec fn command_route(name: Seq<char>) -> CommandRoute {
    if name == "ping"@ {
        CommandRoute::Ping
    } else if name == "images"@ {
        CommandRoute::Images
    } else if name == "User Info"@ {
        CommandRoute::UserInfo
    } else if name == "stats"@ {
        CommandRoute::Stats
    } else if name == "purge"@ {
        CommandRoute::Purge
    } else if name == "reminder"@ {
        CommandRoute::Reminder
    } else if name == "commission_setup"@ {
        CommandRoute::CommissionSetup
    } else if name == "commission_close"@ {
        CommandRoute::CommissionClose
    } else if name == "ticket_setup"@ {
        CommandRoute::TicketSetup
    } else if name == "ticket_close"@ {
        CommandRoute::TicketClose
    } else if name == "feedback_setup"@ {
        CommandRoute::FeedbackSetup
    } else if name == "info"@ {
        CommandRoute::Info
    } else if name == "hello"@ {
        CommandRoute::Hello
    } else if name == "help"@ {
        CommandRoute::Help
    } else {
        CommandRoute::Unknown
    }
}

/// Decides which command a name asks for.
pub fn route_command(name: &str) -> (r: CommandRoute)
    ensures
        r == command_route(name@),
{
    if str_eq(name, "ping") {
        CommandRoute::Ping
    } else if str_eq(name, "images") {
        CommandRoute::Images
    } else if str_eq(name, "User Info") {
        CommandRoute::UserInfo
    } else if str_eq(name, "stats") {
        CommandRoute::Stats
    } else if str_eq(name, "purge") {
        CommandRoute::Purge
    } else if str_eq(name, "reminder") {
        CommandRoute::Reminder
    } else if str_eq(name, "commission_setup") {
        CommandRoute::CommissionSetup
    } else if str_eq(name, "commission_close") {
        CommandRoute::CommissionClose
    } else if str_eq(name, "ticket_setup") {
        CommandRoute::TicketSetup
    } else if str_eq(name, "ticket_close") {
        CommandRoute::TicketClose
    } else if str_eq(name, "feedback_setup") {
        CommandRoute::FeedbackSetup
    } else if str_eq(name, "info") {
        CommandRoute::Info
    } else if str_eq(name, "hello") {
        CommandRoute::Hello
    } else if str_eq(name, "help") {
        CommandRoute::Help
    } else {
        CommandRoute::Unknown
    }
}

/// What the activation of a control asks for.
#[derive(Debug, Clone, Copy, PartialEq, Eq, Structural)]
pub enum ComponentRoute {
    HelpSelect,
    HelpBack,
    CommissionCreate,
    CommissionClose,
    TicketCreate,
    TicketClose,
    ReminderStatus,
    Unknown,
}

/// The route of a control id: an exact name, or a name followed by an id.
pub open spec fn component_route(id: Seq<char>) -> ComponentRoute {
    if id == "help_select"@ {
        ComponentRoute::HelpSelect
    } else if id == "help_back"@ {
        ComponentRoute::HelpBack
    } else if id == "commission_create"@ {
        ComponentRoute::CommissionCreate
    } else if matches_at(id, "commission_close_"@, 0) {
        ComponentRoute::CommissionClose
    } else if id == "ticket_create"@ {
        ComponentRoute::TicketCreate
    } else if matches_at(id, "ticket_close_"@, 0) {
        ComponentRoute::TicketClose
    } else if matches_at(id, "reminder_status_"@, 0) {
        ComponentRoute::ReminderStatus
    } else {
        ComponentRoute::Unknown
    }
}

/// Decides what the activation of a control asks for.
pub fn route_component(custom_id: &str) -> (r: ComponentRoute)
    ensures
        r == component_route(custom_id@),
{
    let chars = chars_of(custom_id);
    if str_eq(custom_id, "help_select") {
        ComponentRoute::HelpSelect
    } else if str_eq(custom_id, "help_back") {
        ComponentRoute::HelpBack
    } else if str_eq(custom_id, "commission_create") {
        ComponentRoute::CommissionCreate
    } else if matches_at_exec(&chars, &chars_of("commission_close_"), 0) {
        ComponentRoute::CommissionClose
    } else if str_eq(custom_id, "ticket_create") {
        ComponentRoute::TicketCreate
    } else if matches_at_exec(&chars, &chars_of("ticket_close_"), 0) {
        ComponentRoute::TicketClose
    } else if matches_at_exec(&chars, &chars_of("reminder_status_"), 0) {
        ComponentRoute::ReminderStatus
    } else {
        ComponentRoute::Unknown
    }
}

} // verus!
