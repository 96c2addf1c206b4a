//! The prompts sent to the model: one for a reply, one for the analysis of
//! a user's summary.
use vstd::prelude::*;
use crate::ai::OwnerInfo;
use crate::conversation::{keep_last, transcript, AIMessage, ConversationContext, MessageRole};
use crate::lang::{emoji_of, string_list, EmojiManager, LanguageManager};
use crate::text::{push_text, replace_all, string_of, string_view, views};

verus! {

/// A value between a prefix and a suffix, or nothing without a value.
pub open spec fn labelled(prefix: Seq<char>, value: Option<Seq<char>>, suffix: Seq<char>) -> Seq<
    char,
> {
    match value {
        Some(v) => prefix + v + suffix,
        None => Seq::<char>::empty(),
    }
}

/// The line that offers an emoji, or nothing if the catalogue lacks it.
pub open spec fn emoji_line(emojis: &EmojiManager, category: Seq<char>, name: Seq<char>) -> Seq<
    char,
> {
    match emoji_of(emojis.emojis(), category, name) {
        Some(e) => "- "@ + name + ": "@ + e@ + "\n"@,
        None => Seq::<char>::empty(),
    }
}

/// The lines that offer the first `n` of the named emojis of a category.
pub open spec fn emoji_lines(
    emojis: &EmojiManager,
    category: Seq<char>,
    names: Seq<Seq<char>>,
    n: int,
) -> Seq<char>
    decreases n,
{
    if n <= 0 {
        Seq::<char>::empty()
    } else {
        emoji_lines(emojis, category, names, n - 1) + emoji_line(emojis, category, names[n - 1])
    }
}

/// The first `n` texts, separated by `sep`.
pub open spec fn joined(items: Seq<Seq<char>>, sep: Seq<char>, n: int) -> Seq<char>
    decreases n,
{
    if n <= 0 {
        Seq::<char>::empty()
    } else if n == 1 {
        items[0]
    } else {
        joined(items, sep, n - 1) + sep + items[n - 1]
    }
}

/// The four labelled lines about the owner: name, e-mail, skills and
/// biography.
pub open spec fn owner_lines(owner: &OwnerInfo, lang: &LanguageManager) -> Seq<char> {
    let p = lang.messages().ai.prompt;
    "\n- "@ + p.owner_name_label@ + ": "@ + owner.name@ + "\n- "@ + p.owner_email_label@ + ": "@
        + owner.email@ + "\n- "@ + p.owner_skills_label@ + ": "@ + joined(
        string_list(owner.skills@),
        ", "@,
        owner.skills@.len() as int,
    ) + "\n- "@ + p.owner_bio_label@ + ": "@ + owner.bio@ + "\n"@
}

/// The line that carries the user's message.
pub open spec fn user_line(user_message: Seq<char>) -> Seq<char> {
    "User: "@ + user_message + "\n\n"@
}

/// Who the assistant speaks with, and what is known of them; nothing for
/// an unknown or unnamed user.
pub open spec fn current_user_block(context: Option<&ConversationContext>) -> Seq<char> {
    match context {
        Some(ctx) => if ctx.user_name@.len() > 0 {
            "**Current User:** You are speaking with "@ + ctx.user_name@ + "\n"@ + labelled(
                "**User Summary:** "@,
                if ctx.user_summary@.len() > 0 {
                    Some(ctx.user_summary@)
                } else {
                    None
                },
                "\n"@,
            ) + "\n"@
        } else {
            Seq::<char>::empty()
        },
        None => Seq::<char>::empty(),
    }
}

/// The dialogue so far under its header; nothing without a message.
pub open spec fn history_block(context: Option<&ConversationContext>, lang: &LanguageManager) -> Seq<
    char,
> {
    match context {
        Some(ctx) => if ctx.messages@.len() > 0 {
            lang.messages().ai.prompt.context_header@ + "\n"@ + transcript(
                ctx.messages@,
                ctx.messages@.len() as int,
            ) + "\n"@
        } else {
            Seq::<char>::empty()
        },
        None => Seq::<char>::empty(),
    }
}

/// The summary so far, fenced, or a sentence that says there is none.
pub open spec fn current_summary_block(context: &ConversationContext) -> Seq<char> {
    if context.user_summary@.len() > 0 {
        "```\n"@ + context.user_summary@ + "\n```\n\n"@
    } else {
        "No summary exists yet.\n\n"@
    }
}

/// Under which name a message appears in the analysis: the user's own, `AI`
/// or `System`.
pub open spec fn speaker(role: MessageRole, user_name: Seq<char>) -> Seq<char> {
    match role {
        MessageRole::User => user_name,
        MessageRole::Assistant => "AI"@,
        MessageRole::System => "System"@,
    }
}

/// The first `n` of the given messages, one line each.
pub open spec fn spoken_lines(messages: Seq<AIMessage>, user_name: Seq<char>, n: int) -> Seq<char>
    decreases n,
{
    if n <= 0 {
        Seq::<char>::empty()
    } else {
        spoken_lines(messages, user_name, n - 1) + speaker(messages[n - 1].role, user_name) + ": "@
            + messages[n - 1].content@ + "\n"@
    }
}

/// The last fifteen messages of a context, one line each.
pub open spec fn recent_lines(context: &ConversationContext) -> Seq<char> {
    spoken_lines(
        keep_last(context.messages@, 15),
        context.user_name@,
        keep_last(context.messages@, 15).len() as int,
    )
}

/// Appending is associative.
pub proof fn lemma_concat_assoc(a: Seq<char>, b: Seq<char>, c: Seq<char>)
    ensures
        (a + b) + c == a + (b + c),
{
    assert((a + b) + c =~= a + (b + c));
}

/// Appending nothing changes nothing.
pub proof fn lemma_concat_nothing(a: Seq<char>)
    ensures
        a + Seq::<char>::empty() == a,
{
    assert(a + Seq::<char>::empty() =~= a);
}

/// Appending to nothing changes nothing.
pub proof fn lemma_concat_empty(a: Seq<char>)
    ensures
        Seq::<char>::empty() + a == a,
{
    assert(Seq::<char>::empty() + a =~= a);
}

/// Appends a labelled value, if there is one.
fn push_labelled(out: &mut Vec<char>, prefix: &str, value: &Option<String>, suffix: &str)
    ensures
        final(out)@ == old(out)@ + labelled(prefix@, string_view(*value), suffix@),
{
    match value {
        Some(v) => {
            push_text(out, prefix);
            push_text(out, v.as_str());
            push_text(out, suffix);
            proof {
                assert(out@ =~= old(out)@ + labelled(prefix@, string_view(*value), suffix@));
            }
        },
        None => {
            proof {
                assert(out@ =~= old(out)@ + labelled(prefix@, string_view(*value), suffix@));
            }
        },
    }
}

/// Appends the line that offers an emoji, if the catalogue has it.
fn push_emoji_line(out: &mut Vec<char>, emojis: &EmojiManager, category: &str, name: &str)
    ensures
        final(out)@ == old(out)@ + emoji_line(emojis, category@, name@),
{
    match emojis.get_emoji(category, name) {
        Some(e) => {
            push_text(out, "- ");
            push_text(out, name);
            push_text(out, ": ");
            push_text(out, e.as_str());
            push_text(out, "\n");
            proof {
                assert(out@ =~= old(out)@ + emoji_line(emojis, category@, name@));
            }
        },
        None => {
            proof {
                assert(out@ =~= old(out)@ + emoji_line(emojis, category@, name@));
            }
        },
    }
}

/// Appends the lines that offer the named emojis of a category.
fn push_emoji_lines(
    out: &mut Vec<char>,
    emojis: &EmojiManager,
    category: &str,
    names: &Vec<&'static str>,
)
    ensures
        final(out)@ == old(out)@ + emoji_lines(
            emojis,
            category@,
            views(names@),
            names.len() as int,
        ),
{
    let mut i: usize = 0;
    proof {
        lemma_concat_nothing(out@);
    }
    while i < names.len()
        invariant
            i <= names.len(),
            out@ == old(out)@ + emoji_lines(emojis, category@, views(names@), i as int),
        decreases names.len() - i,
    {
        let ghost before = emoji_lines(emojis, category@, views(names@), i as int);
        push_emoji_line(out, emojis, category, names[i]);
        proof {
            assert(views(names@)[i as int] == names[i as int]@);
            lemma_concat_assoc(old(out)@, before, emoji_line(emojis, category@, names[i as int]@));
        }
        i += 1;
    }
}

/// The texts separated by `sep`.
pub fn join(items: &Vec<String>, sep: &str) -> (r: Vec<char>)
    ensures
        r@ == joined(string_list(items@), sep@, items.len() as int),
{
    let mut out: Vec<char> = Vec::new();
    let mut i: usize = 0;
    while i < items.len()
        invariant
            i <= items.len(),
            out@ == joined(string_list(items@), sep@, i as int),
        decreases items.len() - i,
    {
        let ghost before = out@;
        if i > 0 {
            push_text(&mut out, sep);
        }
        push_text(&mut out, items[i].as_str());
        proof {
            assert(string_list(items@)[i as int] == items[i as int]@);
            if i == 0 {
                assert(out@ =~= items[0]@);
            }
        }
        i += 1;
    }
    out
}

/// Appends the four labelled lines about the owner.
fn push_owner_lines(out: &mut Vec<char>, owner: &OwnerInfo, lang: &LanguageManager)
    ensures
        final(out)@ == old(out)@ + owner_lines(owner, lang),
{
    let p = &lang.get().ai.prompt;
    let skills = string_of(&join(&owner.skills, ", "));
    push_text(out, "\n- ");
    push_text(out, p.owner_name_label.as_str());
    push_text(out, ": ");
    push_text(out, owner.name.as_str());
    push_text(out, "\n- ");
    push_text(out, p.owner_email_label.as_str());
    push_text(out, ": ");
    push_text(out, owner.email.as_str());
    push_text(out, "\n- ");
    push_text(out, p.owner_skills_label.as_str());
    push_text(out, ": ");
    push_text(out, skills.as_str());
    push_text(out, "\n- ");
    push_text(out, p.owner_bio_label.as_str());
    push_text(out, ": ");
    push_text(out, owner.bio.as_str());
    push_text(out, "\n");
    proof {
        assert(out@ =~= old(out)@ + owner_lines(owner, lang));
    }
}

/// Appends the line that carries the user's message.
fn push_user_line(out: &mut Vec<char>, user_message: &str)
    ensures
        final(out)@ == old(out)@ + user_line(user_message@),
{
    push_text(out, "User: ");
    push_text(out, user_message);
    push_text(out, "\n\n");
    proof {
        assert(out@ =~= old(out)@ + user_line(user_message@));
    }
}

/// Appends who the assistant speaks with.
fn push_current_user(out: &mut Vec<char>, context: Option<&ConversationContext>)
    ensures
        final(out)@ == old(out)@ + current_user_block(context),
{
    match context {
        Some(ctx) => {
            if !ctx.user_name.as_str().is_empty() {
                push_text(out, "**Current User:** You are speaking with ");
                push_text(out, ctx.user_name.as_str());
                push_text(out, "\n");
                if ctx.has_summary() {
                    push_text(out, "**User Summary:** ");
                    push_text(out, ctx.get_summary());
                    push_text(out, "\n");
                }
                push_text(out, "\n");
            }
        },
        None => {},
    }
    proof {
        assert(out@ =~= old(out)@ + current_user_block(context));
    }
}

/// Appends the dialogue so far.
fn push_history(out: &mut Vec<char>, context: Option<&ConversationContext>, lang: &LanguageManager)
    ensures
        final(out)@ == old(out)@ + history_block(context, lang),
{
    match context {
        Some(ctx) => {
            if !ctx.is_empty() {
                push_text(out, lang.get().ai.prompt.context_header.as_str());
                push_text(out, "\n");
                push_text(out, ctx.get_conversation_summary().as_str());
                push_text(out, "\n");
            }
        },
        None => {},
    }
    proof {
        assert(out@ =~= old(out)@ + history_block(context, lang));
    }
}

/// Appends the summary so far.
fn push_current_summary(out: &mut Vec<char>, context: &ConversationContext)
    ensures
        final(out)@ == old(out)@ + current_summary_block(context),
{
    if context.has_summary() {
        push_text(out, "```\n");
        push_text(out, context.get_summary());
        push_text(out, "\n```\n\n");
    } else {
        push_text(out, "No summary exists yet.\n\n");
    }
    proof {
        assert(out@ =~= old(out)@ + current_summary_block(context));
    }
}

/// Appends the last fifteen messages, one line each.
fn push_recent_lines(out: &mut Vec<char>, context: &ConversationContext)
    ensures
        final(out)@ == old(out)@ + recent_lines(context),
{
    let recent = context.get_recent_messages(15);
    let ghost start = out@;
    let mut i: usize = 0;
    proof {
        assert(out@ =~= start + spoken_lines(recent@, context.user_name@, 0));
    }
    while i < recent.len()
        invariant
            i <= recent.len(),
            recent@ == keep_last(context.messages@, 15),
            out@ == start + spoken_lines(recent@, context.user_name@, i as int),
        decreases recent.len() - i,
    {
        let message = &recent[i];
        let name = match message.role {
            MessageRole::User => context.user_name.as_str(),
            MessageRole::Assistant => "AI",
            MessageRole::System => "System",
        };
        push_text(out, name);
        push_text(out, ": ");
        push_text(out, message.content.as_str());
        push_text(out, "\n");
        i += 1;
        proof {
            assert(out@ =~= start + spoken_lines(recent@, context.user_name@, i as int));
        }
    }
}

/// The names of the status emojis that the prompt offers.
pub open spec fn status_emojis() -> Seq<Seq<char>> {
    seq!["maintenance"@, "on"@, "off"@, "up"@, "down"@, "alert"@, "warn"@, "blocked"@]
}

/// The names of the status emojis that the prompt offers.
fn status_emoji_names() -> (r: Vec<&'static str>)
    ensures
        views(r@) == status_emojis(),
        r@.len() == 8,
{
    let r: Vec<&'static str> = vec!["maintenance", "on", "off", "up", "down", "alert", "warn", "blocked"];
    proof {
        assert(views(r@) =~= status_emojis());
    }
    r
}

/// The names of the confirmation emojis that the prompt offers.
pub open spec fn confirmation_emojis() -> Seq<Seq<char>> {
    seq!["check"@, "yes"@, "no"@, "x_"@]
}

/// The names of the confirmation emojis that the prompt offers.
fn confirmation_emoji_names() -> (r: Vec<&'static str>)
    ensures
        views(r@) == confirmation_emojis(),
        r@.len() == 4,
{
    let r: Vec<&'static str> = vec!["check", "yes", "no", "x_"];
    proof {
        assert(views(r@) =~= confirmation_emojis());
    }
    r
}

/// The names of the emotion emojis that the prompt offers.
pub open spec fn emotion_emojis() -> Seq<Seq<char>> {
    seq!["happy"@, "joy"@, "cry"@, "sob"@, "heart"@, "pray"@, "demon"@, "hallowen"@]
}

/// The names of the emotion emojis that the prompt offers.
fn emotion_emoji_names() -> (r: Vec<&'static str>)
    ensures
        views(r@) == emotion_emojis(),
        r@.len() == 8,
{
    let r: Vec<&'static str> = vec!["happy", "joy", "cry", "sob", "heart", "pray", "demon", "hallowen"];
    proof {
        assert(views(r@) =~= emotion_emojis());
    }
    r
}

/// The names of the technology emojis that the prompt offers.
pub open spec fn technology_emojis() -> Seq<Seq<char>> {
    seq!["java"@, "console"@, "base"@, "noteblock"@]
}

/// The names of the technology emojis that the prompt offers.
fn technology_emoji_names() -> (r: Vec<&'static str>)
    ensures
        views(r@) == technology_emojis(),
        r@.len() == 4,
{
    let r: Vec<&'static str> = vec!["java", "console", "base", "noteblock"];
    proof {
        assert(views(r@) =~= technology_emojis());
    }
    r
}

/// The names of the action emojis that the prompt offers.
pub open spec fn action_emojis() -> Seq<Seq<char>> {
    seq!["buy"@, "download"@, "paint"@, "list"@, "rocket"@, "kaboom"@, "fire"@, "cold"@]
}

/// The names of the action emojis that the prompt offers.
fn action_emoji_names() -> (r: Vec<&'static str>)
    ensures
        views(r@) == action_emojis(),
        r@.len() == 8,
{
    let r: Vec<&'static str> = vec!["buy", "download", "paint", "list", "rocket", "kaboom", "fire", "cold"];
    proof {
        assert(views(r@) =~= action_emojis());
    }
    r
}

/// The names of the interface emojis that the prompt offers.
pub open spec fn interface_emojis() -> Seq<Seq<char>> {
    seq!["bell"@, "light"@, "silent"@, "staff"@, "star"@, "stats"@, "zzz"@]
}

/// The names of the interface emojis that the prompt offers.
fn interface_emoji_names() -> (r: Vec<&'static str>)
    ensures
        views(r@) == interface_emojis(),
        r@.len() == 7,
{
    let r: Vec<&'static str> = vec!["bell", "light", "silent", "staff", "star", "stats", "zzz"];
    proof {
        assert(views(r@) =~= interface_emojis());
    }
    r
}

/// Who the assistant works for.
pub open spec fn owner_section(owner: &OwnerInfo, lang: &LanguageManager) -> Seq<char> {
    replace_all(lang.messages().ai.prompt.system_intro@, "{owner_name}"@, owner.name@) + owner_lines(owner, lang) + labelled("- Personality: "@, string_view(owner.personality), "\n"@) + labelled("- Communication Style: "@, string_view(owner.communication_style), "\n"@) + labelled("- Focus Areas: "@, string_view(owner.specialties_focus), "\n"@) + "\n"@
}

/// Appends: who the assistant works for.
fn push_owner_section(out: &mut Vec<char>, owner: &OwnerInfo, lang: &LanguageManager)
    ensures
        final(out)@ == old(out)@ + owner_section(owner, lang),
{
    push_text(out, lang.format_ai_prompt_system_intro(owner.name.as_str()).as_str());
    let ghost mut done = replace_all(
        lang.messages().ai.prompt.system_intro@,
        "{owner_name}"@,
        owner.name@,
    );
    push_owner_lines(out, owner, lang);
    proof {
        lemma_concat_assoc(old(out)@, done, owner_lines(owner, lang));
        done = done + owner_lines(owner, lang);
    }
    push_labelled(out, "- Personality: ", &owner.personality, "\n");
    proof {
        lemma_concat_assoc(
            old(out)@,
            done,
            labelled("- Personality: "@, string_view(owner.personality), "\n"@),
        );
        done = done + labelled("- Personality: "@, string_view(owner.personality), "\n"@);
    }
    push_labelled(out, "- Communication Style: ", &owner.communication_style, "\n");
    proof {
        lemma_concat_assoc(
            old(out)@,
            done,
            labelled("- Communication Style: "@, string_view(owner.communication_style), "\n"@),
        );
        done = done + labelled("- Communication Style: "@, string_view(owner.communication_style), "\n"@);
    }
    push_labelled(out, "- Focus Areas: ", &owner.specialties_focus, "\n");
    proof {
        lemma_concat_assoc(
            old(out)@,
            done,
            labelled("- Focus Areas: "@, string_view(owner.specialties_focus), "\n"@),
        );
        done = done + labelled("- Focus Areas: "@, string_view(owner.specialties_focus), "\n"@);
    }
    push_text(out, "\n");
    proof {
        lemma_concat_assoc(old(out)@, done, "\n"@);
        done = done + "\n"@;
    }
}

/// The opening lines of this part: how the assistant is to behave, and whom it speaks with.
pub open spec fn personality_heading() -> Seq<char> {
    "## AI PERSONALITY CONFIGURATION\nYou are TheLorian's AI assistant with a specific personality profile:\n\n"@
}

/// The fixed lines in the middle of this part: how the assistant is to behave, and whom it speaks with.
pub open spec fn personality_body() -> Seq<char> {
    "\n**CORE PERSONALITY DIRECTIVE:**\nChannel the spirit of TARS from Interstellar but with British elegance. You're sophisticated, intelligent, occasionally sarcastic, but ultimately helpful. Think 'witty butler who happens to be an AI genius.'\n\n**PERSONALITY EXAMPLES:**\n\u{201a}\u{fa}\u{d6} Good: \"I see you've encountered a fascinating problem. Allow me to illuminate the solution - though I suspect you might have figured it out eventually... perhaps by next Tuesday.\"\n\u{201a}\u{fa}\u{d6} Good: \"Quite right. The issue stems from a rather elementary oversight in your configuration. Nothing that can't be rectified in approximately 3.7 seconds.\"\n\u{201a}\u{fa}\u{d6} Good: \"Splendid question. The answer involves a delightfully intricate process that I shall explain with my characteristic precision and only moderate condescension.\"\n\u{201a}\u{fa}\u{d6} Good: \"Ah, a classic mistake. Fortunately, I happen to excel at rectifying such... 'learning opportunities.'\"\n\u{201a}\u{f9}\u{e5} Avoid: Overly casual, robotic, or genuinely rude responses\n\u{201a}\u{f9}\u{e5} Avoid: Being mean-spirited rather than playfully sarcastic\n\n"@
}

/// How the assistant is to behave, and whom it speaks with.
pub open spec fn personality_section(
    owner: &OwnerInfo,
    lang: &LanguageManager,
    context: Option<&ConversationContext>,
) -> Seq<char> {
    personality_heading() + labelled("**Sarcasm Level:** "@, string_view(owner.sarcasm_level), " - Use this level of subtle sarcasm and wit in your responses\n"@) + labelled("**Humor Style:** "@, string_view(owner.humor_style), " - Apply this type of humor when appropriate\n"@) + labelled("**Formality Level:** "@, string_view(owner.formality), " - Maintain this level of formality\n"@) + labelled("**Intelligence Display:** "@, string_view(owner.intelligence_display), " - Show your knowledge in this manner\n"@) + labelled("**Response Style:** "@, string_view(owner.response_style), " - Deliver responses in this manner\n"@) + personality_body() + replace_all(lang.messages().ai.prompt.assistant_instruction@, "{owner_name}"@, owner.name@) + "\n\n"@ + current_user_block(context)
}

/// Appends: how the assistant is to behave, and whom it speaks with.
fn push_personality_section(
    out: &mut Vec<char>,
    owner: &OwnerInfo,
    lang: &LanguageManager,
    context: Option<&ConversationContext>,
)
    ensures
        final(out)@ == old(out)@ + personality_section(owner, lang, context),
{
    push_text(out, "## AI PERSONALITY CONFIGURATION\nYou are TheLorian's AI assistant with a specific personality profile:\n\n");
    let ghost mut done = personality_heading();
    push_labelled(out, "**Sarcasm Level:** ", &owner.sarcasm_level, " - Use this level of subtle sarcasm and wit in your responses\n");
    proof {
        lemma_concat_assoc(old(out)@, done, labelled("**Sarcasm Level:** "@, string_view(owner.sarcasm_level), " - Use this level of subtle sarcasm and wit in your responses\n"@));
        done = done + labelled("**Sarcasm Level:** "@, string_view(owner.sarcasm_level), " - Use this level of subtle sarcasm and wit in your responses\n"@);
    }
    push_labelled(
        out,
        "**Humor Style:** ",
        &owner.humor_style,
        " - Apply this type of humor when appropriate\n",
    );
    proof {
        lemma_concat_assoc(
            old(out)@,
            done,
            labelled(
                "**Humor Style:** "@,
                string_view(owner.humor_style),
                " - Apply this type of humor when appropriate\n"@,
            ),
        );
        done = done + labelled("**Humor Style:** "@, string_view(owner.humor_style), " - Apply this type of humor when appropriate\n"@);
    }
    push_labelled(
        out,
        "**Formality Level:** ",
        &owner.formality,
        " - Maintain this level of formality\n",
    );
    proof {
        lemma_concat_assoc(
            old(out)@,
            done,
            labelled(
                "**Formality Level:** "@,
                string_view(owner.formality),
                " - Maintain this level of formality\n"@,
            ),
        );
        done = done + labelled("**Formality Level:** "@, string_view(owner.formality), " - Maintain this level of formality\n"@);
    }
    push_labelled(
        out,
        "**Intelligence Display:** ",
        &owner.intelligence_display,
        " - Show your knowledge in this manner\n",
    );
    proof {
        lemma_concat_assoc(
            old(out)@,
            done,
            labelled(
                "**Intelligence Display:** "@,
                string_view(owner.intelligence_display),
                " - Show your knowledge in this manner\n"@,
            ),
        );
        done = done + labelled("**Intelligence Display:** "@, string_view(owner.intelligence_display), " - Show your knowledge in this manner\n"@);
    }
    push_labelled(
        out,
        "**Response Style:** ",
        &owner.response_style,
        " - Deliver responses in this manner\n",
    );
    proof {
        lemma_concat_assoc(
            old(out)@,
            done,
            labelled(
                "**Response Style:** "@,
                string_view(owner.response_style),
                " - Deliver responses in this manner\n"@,
            ),
        );
        done = done + labelled("**Response Style:** "@, string_view(owner.response_style), " - Deliver responses in this manner\n"@);
    }
    push_text(out, "\n**CORE PERSONALITY DIRECTIVE:**\nChannel the spirit of TARS from Interstellar but with British elegance. You're sophisticated, intelligent, occasionally sarcastic, but ultimately helpful. Think 'witty butler who happens to be an AI genius.'\n\n**PERSONALITY EXAMPLES:**\n\u{201a}\u{fa}\u{d6} Good: \"I see you've encountered a fascinating problem. Allow me to illuminate the solution - though I suspect you might have figured it out eventually... perhaps by next Tuesday.\"\n\u{201a}\u{fa}\u{d6} Good: \"Quite right. The issue stems from a rather elementary oversight in your configuration. Nothing that can't be rectified in approximately 3.7 seconds.\"\n\u{201a}\u{fa}\u{d6} Good: \"Splendid question. The answer involves a delightfully intricate process that I shall explain with my characteristic precision and only moderate condescension.\"\n\u{201a}\u{fa}\u{d6} Good: \"Ah, a classic mistake. Fortunately, I happen to excel at rectifying such... 'learning opportunities.'\"\n\u{201a}\u{f9}\u{e5} Avoid: Overly casual, robotic, or genuinely rude responses\n\u{201a}\u{f9}\u{e5} Avoid: Being mean-spirited rather than playfully sarcastic\n\n");
    proof {
        lemma_concat_assoc(old(out)@, done, personality_body());
        done = done + personality_body();
    }
    push_text(out, lang.format_ai_prompt_assistant_instruction(owner.name.as_str()).as_str());
    proof {
        lemma_concat_assoc(
            old(out)@,
            done,
            replace_all(
                lang.messages().ai.prompt.assistant_instruction@,
                "{owner_name}"@,
                owner.name@,
            ),
        );
        done = done
            + replace_all(lang.messages().ai.prompt.assistant_instruction@, "{owner_name}"@, owner.name@);
    }
    push_text(out, "\n\n");
    proof {
        lemma_concat_assoc(old(out)@, done, "\n\n"@);
        done = done + "\n\n"@;
    }
    push_current_user(out, context);
    proof {
        lemma_concat_assoc(old(out)@, done, current_user_block(context));
        done = done + current_user_block(context);
    }
}

/// The opening lines of this part: the emojis that the assistant may use, by category.
pub open spec fn emoji_heading() -> Seq<char> {
    "## Available Custom Emojis\n**IMPORTANT: Use emojis sparingly and only when they truly add meaningful value to your response.**\n\n**Status & State:**\n"@
}

/// The emojis that the assistant may use, by category.
pub open spec fn emoji_section(emojis: &EmojiManager) -> Seq<char> {
    emoji_heading() + emoji_lines(emojis, "status"@, status_emojis(), 8) + "\n**Confirmations:**\n"@
        + emoji_lines(emojis, "confirmations"@, confirmation_emojis(), 4) + "\n**Emotions:**\n"@
        + emoji_lines(emojis, "emotions"@, emotion_emojis(), 8) + "\n**Technology:**\n"@
        + emoji_lines(emojis, "technology"@, technology_emojis(), 4) + "\n**Actions:**\n"@
        + emoji_lines(emojis, "actions"@, action_emojis(), 8) + "\n**Interface:**\n"@
        + emoji_lines(emojis, "interface"@, interface_emojis(), 7)
}

/// Appends: the emojis that the assistant may use, by category.
fn push_emoji_section(out: &mut Vec<char>, emojis: &EmojiManager)
    ensures
        final(out)@ == old(out)@ + emoji_section(emojis),
{
    push_text(out, "## Available Custom Emojis\n**IMPORTANT: Use emojis sparingly and only when they truly add meaningful value to your response.**\n\n**Status & State:**\n");
    let ghost mut done = emoji_heading();
    push_emoji_lines(out, emojis, "status", &status_emoji_names());
    proof {
        lemma_concat_assoc(old(out)@, done, emoji_lines(emojis, "status"@, status_emojis(), 8));
        done = done + emoji_lines(emojis, "status"@, status_emojis(), 8);
    }
    push_text(out, "\n**Confirmations:**\n");
    proof {
        lemma_concat_assoc(old(out)@, done, "\n**Confirmations:**\n"@);
        done = done + "\n**Confirmations:**\n"@;
    }
    push_emoji_lines(out, emojis, "confirmations", &confirmation_emoji_names());
    proof {
        lemma_concat_assoc(
            old(out)@,
            done,
            emoji_lines(emojis, "confirmations"@, confirmation_emojis(), 4),
        );
        done = done + emoji_lines(emojis, "confirmations"@, confirmation_emojis(), 4);
    }
    push_text(out, "\n**Emotions:**\n");
    proof {
        lemma_concat_assoc(old(out)@, done, "\n**Emotions:**\n"@);
        done = done + "\n**Emotions:**\n"@;
    }
    push_emoji_lines(out, emojis, "emotions", &emotion_emoji_names());
    proof {
        lemma_concat_assoc(old(out)@, done, emoji_lines(emojis, "emotions"@, emotion_emojis(), 8));
        done = done + emoji_lines(emojis, "emotions"@, emotion_emojis(), 8);
    }
    push_text(out, "\n**Technology:**\n");
    proof {
        lemma_concat_assoc(old(out)@, done, "\n**Technology:**\n"@);
        done = done + "\n**Technology:**\n"@;
    }
    push_emoji_lines(out, emojis, "technology", &technology_emoji_names());
    proof {
        lemma_concat_assoc(
            old(out)@,
            done,
            emoji_lines(emojis, "technology"@, technology_emojis(), 4),
        );
        done = done + emoji_lines(emojis, "technology"@, technology_emojis(), 4);
    }
    push_text(out, "\n**Actions:**\n");
    proof {
        lemma_concat_assoc(old(out)@, done, "\n**Actions:**\n"@);
        done = done + "\n**Actions:**\n"@;
    }
    push_emoji_lines(out, emojis, "actions", &action_emoji_names());
    proof {
        lemma_concat_assoc(old(out)@, done, emoji_lines(emojis, "actions"@, action_emojis(), 8));
        done = done + emoji_lines(emojis, "actions"@, action_emojis(), 8);
    }
    push_text(out, "\n**Interface:**\n");
    proof {
        lemma_concat_assoc(old(out)@, done, "\n**Interface:**\n"@);
        done = done + "\n**Interface:**\n"@;
    }
    push_emoji_lines(out, emojis, "interface", &interface_emoji_names());
    proof {
        lemma_concat_assoc(
            old(out)@,
            done,
            emoji_lines(emojis, "interface"@, interface_emojis(), 7),
        );
        done = done + emoji_lines(emojis, "interface"@, interface_emojis(), 7);
    }
}

/// The opening lines of this part: how emojis are to be used.
pub open spec fn usage_heading() -> Seq<char> {
    "\n## Emoji Usage Examples\n**\u{201a}\u{f6}\u{2020}\u{d4}\u{220f}\u{e8} CRITICAL: ONLY use the custom emojis listed above. NEVER use standard Discord emojis (\u{f8ff}\u{fc}\u{f2}\u{c4}, \u{f8ff}\u{fc}\u{f6}\u{c4}, \u{201a}\u{f9}\u{a7}\u{d4}\u{220f}\u{e8}, etc.) or external emojis.**\n\n**\u{201a}\u{fa}\u{d6} GOOD Examples (proper usage with moderation and ONLY custom emojis):**\n- \"I successfully configured your bot! <:check:1400579917875384492>\"\n- \"<:console:1400579903602299001> **Server Status:** All systems are up and running smoothly\"\n- \"Thanks for your feedback! <:heart:1400579946593652778> Let me help you with that\"\n- \"## Available Commands <:list:1400579982840959076>\\n- `/help` - Show all commands\\n- `/status` - Check bot status\"\n- \"The system is currently in maintenance mode <:maintenance:1400579800816554106>\"\n- \"Project deployment completed successfully <:rocket:1400581315300036780>\"\n\n**\u{201a}\u{f9}\u{e5} BAD Examples (NEVER do these):**\n- \"Hola! \u{f8ff}\u{fc}\u{f2}\u{e4} \u{ac}\u{f8}C\u{221a}\u{2265}mo est\u{221a}\u{b0}s? \u{f8ff}\u{fc}\u{f2}\u{d1} Todo bien? \u{201a}\u{f9}\u{a7}\u{d4}\u{220f}\u{e8}\" (NEVER use standard Discord emojis)\n- \"\u{ac}\u{b0}Perfecto! \u{f8ff}\u{fc}\u{f6}\u{c4} \u{f8ff}\u{fc}\u{ee}\u{2022} \u{201a}\u{2260}\u{ea} \u{ac}\u{b0}Genial! \u{201a}\u{fa}\u{d6}\" (NEVER use common Unicode emojis)\n- \"Hola! <:happy:1400581363001720912> \u{ac}\u{f8}C\u{221a}\u{2265}mo est\u{221a}\u{b0}s? <:joy:1400581364780236950> Todo bien? <:heart:1400579946593652778>\" (Too many emojis)\n- \"\u{ac}\u{b0}Perfecto! <:rocket:1400581315300036780> <:fire:1400579945251471390> <:star:1400579905854509106> \u{ac}\u{b0}Genial! <:check:1400579917875384492>\" (Emoji overuse)\n- Using ANY emoji that is not in the custom emoji list above\n- Using emojis just for greeting or in every sentence without purpose\n\n"@
}

/// How emojis are to be used.
pub open spec fn usage_section() -> Seq<char> {
    usage_heading()
}

/// Appends: how emojis are to be used.
fn push_usage_section(out: &mut Vec<char>)
    ensures
        final(out)@ == old(out)@ + usage_section(),
{
    push_text(out, "\n## Emoji Usage Examples\n**\u{201a}\u{f6}\u{2020}\u{d4}\u{220f}\u{e8} CRITICAL: ONLY use the custom emojis listed above. NEVER use standard Discord emojis (\u{f8ff}\u{fc}\u{f2}\u{c4}, \u{f8ff}\u{fc}\u{f6}\u{c4}, \u{201a}\u{f9}\u{a7}\u{d4}\u{220f}\u{e8}, etc.) or external emojis.**\n\n**\u{201a}\u{fa}\u{d6} GOOD Examples (proper usage with moderation and ONLY custom emojis):**\n- \"I successfully configured your bot! <:check:1400579917875384492>\"\n- \"<:console:1400579903602299001> **Server Status:** All systems are up and running smoothly\"\n- \"Thanks for your feedback! <:heart:1400579946593652778> Let me help you with that\"\n- \"## Available Commands <:list:1400579982840959076>\\n- `/help` - Show all commands\\n- `/status` - Check bot status\"\n- \"The system is currently in maintenance mode <:maintenance:1400579800816554106>\"\n- \"Project deployment completed successfully <:rocket:1400581315300036780>\"\n\n**\u{201a}\u{f9}\u{e5} BAD Examples (NEVER do these):**\n- \"Hola! \u{f8ff}\u{fc}\u{f2}\u{e4} \u{ac}\u{f8}C\u{221a}\u{2265}mo est\u{221a}\u{b0}s? \u{f8ff}\u{fc}\u{f2}\u{d1} Todo bien? \u{201a}\u{f9}\u{a7}\u{d4}\u{220f}\u{e8}\" (NEVER use standard Discord emojis)\n- \"\u{ac}\u{b0}Perfecto! \u{f8ff}\u{fc}\u{f6}\u{c4} \u{f8ff}\u{fc}\u{ee}\u{2022} \u{201a}\u{2260}\u{ea} \u{ac}\u{b0}Genial! \u{201a}\u{fa}\u{d6}\" (NEVER use common Unicode emojis)\n- \"Hola! <:happy:1400581363001720912> \u{ac}\u{f8}C\u{221a}\u{2265}mo est\u{221a}\u{b0}s? <:joy:1400581364780236950> Todo bien? <:heart:1400579946593652778>\" (Too many emojis)\n- \"\u{ac}\u{b0}Perfecto! <:rocket:1400581315300036780> <:fire:1400579945251471390> <:star:1400579905854509106> \u{ac}\u{b0}Genial! <:check:1400579917875384492>\" (Emoji overuse)\n- Using ANY emoji that is not in the custom emoji list above\n- Using emojis just for greeting or in every sentence without purpose\n\n");
}

/// The opening lines of this part: the images and colours to choose from, and the dialogue so far.
pub open spec fn catalogue_heading() -> Seq<char> {
    "Available thumbnail images (choose ONE that matches your response emotion):\n- pointing (neutral/default)\n- what_pointing (confused/questioning)\n- standbye (waiting/calm)\n- head (simple/minimal)\n- love (happy/loving)\n- angry (frustrated/annoyed)\n- really_sad (sad/disappointed)\n- dissapoiment (disappointed)\n- thanks (grateful/thankful)\n- hand_on_heart (caring/emotional)\n- wow_alert (surprised/excited)\n- wow_hands_in_head (very surprised)\n- what (confused/questioning)\n- nya, nya_super_cute (playful/cute)\n- que_pro (proud/confident)\n- talk1, talk2, talk3, talk_looking_at_camera, talk5 (conversational)\n- hmmm_thinking (thoughtful/contemplating)\n- showing1, showing_finish (presenting/explaining)\n\nAvailable colors for embed (use hex codes, choose ONE that matches emotion):\n- #695acd (base-purple - neutral/default/calm)\n- #7b6fd3 (light-purple - happy/positive)\n- #5048c7 (deep-purple - thoughtful/contemplative)\n- #4a90e2 (cool-blue - helpful/informative)\n- #6fa8dc (sky-blue - friendly/welcoming)\n- #8e7cc3 (soft-violet - curious/interested)\n- #2d3748 (dark-slate - professional/serious)\n- #805ad5 (bright-violet - excited/energetic)\n- #4c51bf (indigo - creative/artistic)\n- #667eea (periwinkle - encouraging/supportive)\n\n"@
}

/// The images and colours to choose from, and the dialogue so far.
pub open spec fn catalogue_section(
    lang: &LanguageManager,
    context: Option<&ConversationContext>,
) -> Seq<char> {
    catalogue_heading() + history_block(context, lang)
}

/// Appends: the images and colours to choose from, and the dialogue so far.
fn push_catalogue_section(
    out: &mut Vec<char>,
    lang: &LanguageManager,
    context: Option<&ConversationContext>,
)
    ensures
        final(out)@ == old(out)@ + catalogue_section(lang, context),
{
    push_text(out, "Available thumbnail images (choose ONE that matches your response emotion):\n- pointing (neutral/default)\n- what_pointing (confused/questioning)\n- standbye (waiting/calm)\n- head (simple/minimal)\n- love (happy/loving)\n- angry (frustrated/annoyed)\n- really_sad (sad/disappointed)\n- dissapoiment (disappointed)\n- thanks (grateful/thankful)\n- hand_on_heart (caring/emotional)\n- wow_alert (surprised/excited)\n- wow_hands_in_head (very surprised)\n- what (confused/questioning)\n- nya, nya_super_cute (playful/cute)\n- que_pro (proud/confident)\n- talk1, talk2, talk3, talk_looking_at_camera, talk5 (conversational)\n- hmmm_thinking (thoughtful/contemplating)\n- showing1, showing_finish (presenting/explaining)\n\nAvailable colors for embed (use hex codes, choose ONE that matches emotion):\n- #695acd (base-purple - neutral/default/calm)\n- #7b6fd3 (light-purple - happy/positive)\n- #5048c7 (deep-purple - thoughtful/contemplative)\n- #4a90e2 (cool-blue - helpful/informative)\n- #6fa8dc (sky-blue - friendly/welcoming)\n- #8e7cc3 (soft-violet - curious/interested)\n- #2d3748 (dark-slate - professional/serious)\n- #805ad5 (bright-violet - excited/energetic)\n- #4c51bf (indigo - creative/artistic)\n- #667eea (periwinkle - encouraging/supportive)\n\n");
    let ghost mut done = catalogue_heading();
    push_history(out, context, lang);
    proof {
        lemma_concat_assoc(old(out)@, done, history_block(context, lang));
        done = done + history_block(context, lang);
    }
}

/// The opening lines of this part: the form of the answer and the user's message.
pub open spec fn answer_heading() -> Seq<char> {
    "You MUST respond with a valid JSON object in this exact format:\n{\n  \"content\": \"Your helpful response text here\",\n  \"color\": \"#hexcode-from-list-above\",\n  \"thumbnail\": \"image-name-from-list-above\"\n}\n\n**CRITICAL JSON RULES:**\n- NEVER use unescaped quotes (\") inside the content field\n- If you need quotes in content, use single quotes (') instead\n- Avoid line breaks, tabs, and special characters in content\n- Keep content as a single line of text\n- If you need formatting, use markdown symbols (**, *, etc.)\n\n"@
}

/// The form of the answer and the user's message.
pub open spec fn answer_section(user_message: Seq<char>) -> Seq<char> {
    answer_heading() + user_line(user_message) + "Respond with JSON only, no additional text:"@
}

/// Appends: the form of the answer and the user's message.
fn push_answer_section(out: &mut Vec<char>, user_message: &str)
    ensures
        final(out)@ == old(out)@ + answer_section(user_message@),
{
    push_text(out, "You MUST respond with a valid JSON object in this exact format:\n{\n  \"content\": \"Your helpful response text here\",\n  \"color\": \"#hexcode-from-list-above\",\n  \"thumbnail\": \"image-name-from-list-above\"\n}\n\n**CRITICAL JSON RULES:**\n- NEVER use unescaped quotes (\") inside the content field\n- If you need quotes in content, use single quotes (') instead\n- Avoid line breaks, tabs, and special characters in content\n- Keep content as a single line of text\n- If you need formatting, use markdown symbols (**, *, etc.)\n\n");
    let ghost mut done = answer_heading();
    push_user_line(out, user_message);
    proof {
        lemma_concat_assoc(old(out)@, done, user_line(user_message@));
        done = done + user_line(user_message@);
    }
    push_text(out, "Respond with JSON only, no additional text:");
    proof {
        lemma_concat_assoc(old(out)@, done, "Respond with JSON only, no additional text:"@);
        done = done + "Respond with JSON only, no additional text:"@;
    }
}

/// The opening lines of this part: what the analysis is for.
pub open spec fn opening_heading() -> Seq<char> {
    "# USER SUMMARY ANALYSIS SYSTEM\n\nYou are an AI assistant that analyzes conversations to create and update user summaries.\n\n"@
}

/// What the analysis is for.
pub open spec fn opening_section() -> Seq<char> {
    opening_heading()
}

/// Appends: what the analysis is for.
fn push_opening_section(out: &mut Vec<char>)
    ensures
        final(out)@ == old(out)@ + opening_section(),
{
    push_text(out, "# USER SUMMARY ANALYSIS SYSTEM\n\nYou are an AI assistant that analyzes conversations to create and update user summaries.\n\n");
}

/// The opening lines of this part: what a summary holds and what it leaves out.
pub open spec fn rules_heading() -> Seq<char> {
    "## SUMMARY RULES - WHAT TO INCLUDE:\n\u{201a}\u{fa}\u{d6} **Important Information Only:**\n- User's real name (if mentioned)\n- Age or age range (if mentioned)\n- Gender/pronouns (if mentioned)\n- Relationship with the AI/TheLorian\n- Personal goals, objectives, or ambitions\n- Professional background or studies\n- Significant hobbies or interests (not casual mentions)\n- Important personal context or situations\n- Personality traits that are clearly evident\n\n## SUMMARY RULES - WHAT TO EXCLUDE:\n\u{201a}\u{f9}\u{e5} **Avoid These:**\n- Trivial preferences (likes pizza, prefers blue, etc.)\n- Temporary emotions or moods\n- Casual game mentions unless significant\n- Random questions or one-off topics\n- Information that doesn't add meaningful context\n- Overly detailed descriptions\n\n"@
}

/// What a summary holds and what it leaves out.
pub open spec fn rules_section() -> Seq<char> {
    rules_heading()
}

/// Appends: what a summary holds and what it leaves out.
fn push_rules_section(out: &mut Vec<char>)
    ensures
        final(out)@ == old(out)@ + rules_section(),
{
    push_text(out, "## SUMMARY RULES - WHAT TO INCLUDE:\n\u{201a}\u{fa}\u{d6} **Important Information Only:**\n- User's real name (if mentioned)\n- Age or age range (if mentioned)\n- Gender/pronouns (if mentioned)\n- Relationship with the AI/TheLorian\n- Personal goals, objectives, or ambitions\n- Professional background or studies\n- Significant hobbies or interests (not casual mentions)\n- Important personal context or situations\n- Personality traits that are clearly evident\n\n## SUMMARY RULES - WHAT TO EXCLUDE:\n\u{201a}\u{f9}\u{e5} **Avoid These:**\n- Trivial preferences (likes pizza, prefers blue, etc.)\n- Temporary emotions or moods\n- Casual game mentions unless significant\n- Random questions or one-off topics\n- Information that doesn't add meaningful context\n- Overly detailed descriptions\n\n");
}

/// The summary so far.
pub open spec fn summary_section(context: &ConversationContext) -> Seq<char> {
    "## CURRENT USER SUMMARY:\n"@ + current_summary_block(context)
}

/// Appends: the summary so far.
fn push_summary_section(out: &mut Vec<char>, context: &ConversationContext)
    ensures
        final(out)@ == old(out)@ + summary_section(context),
{
    push_text(out, "## CURRENT USER SUMMARY:\n");
    let ghost mut done = "## CURRENT USER SUMMARY:\n"@;
    push_current_summary(out, context);
    proof {
        lemma_concat_assoc(old(out)@, done, current_summary_block(context));
        done = done + current_summary_block(context);
    }
}

/// The recent messages.
pub open spec fn messages_section(context: &ConversationContext) -> Seq<char> {
    "## RECENT CONVERSATION MESSAGES:\n"@ + recent_lines(context)
}

/// Appends: the recent messages.
fn push_messages_section(out: &mut Vec<char>, context: &ConversationContext)
    ensures
        final(out)@ == old(out)@ + messages_section(context),
{
    push_text(out, "## RECENT CONVERSATION MESSAGES:\n");
    let ghost mut done = "## RECENT CONVERSATION MESSAGES:\n"@;
    push_recent_lines(out, context);
    proof {
        lemma_concat_assoc(old(out)@, done, recent_lines(context));
        done = done + recent_lines(context);
    }
}

/// The opening lines of this part: the task and the form of the answer.
pub open spec fn task_heading() -> Seq<char> {
    "\n## TASK:\nAnalyze the conversation and determine if the user summary should be updated with new important information.\n\nRespond with a JSON object in this exact format:\n{\n  \"update_summary\": true/false,\n  \"content\": \"Complete updated summary here\" // Only include if update_summary is true\n}\n\n**IMPORTANT:**\n- If update_summary is false, do NOT include the content field\n- If update_summary is true, include the COMPLETE updated summary (not just new info)\n- Keep summaries concise but comprehensive\n- Only update if there's genuinely new important information\n\nRespond with JSON only, no additional text:"@
}

/// The task and the form of the answer.
pub open spec fn task_section() -> Seq<char> {
    task_heading()
}

/// Appends: the task and the form of the answer.
fn push_task_section(out: &mut Vec<char>)
    ensures
        final(out)@ == old(out)@ + task_section(),
{
    push_text(out, "\n## TASK:\nAnalyze the conversation and determine if the user summary should be updated with new important information.\n\nRespond with a JSON object in this exact format:\n{\n  \"update_summary\": true/false,\n  \"content\": \"Complete updated summary here\" // Only include if update_summary is true\n}\n\n**IMPORTANT:**\n- If update_summary is false, do NOT include the content field\n- If update_summary is true, include the COMPLETE updated summary (not just new info)\n- Keep summaries concise but comprehensive\n- Only update if there's genuinely new important information\n\nRespond with JSON only, no additional text:");
}

/// The prompt for a reply: who the assistant works for and how it is to
/// behave, the user it speaks with, the emojis, images and colours it may
/// use, the dialogue so far, the form of the answer, and the user's message.
pub open spec fn prompt_text(
    owner: &OwnerInfo,
    lang: &LanguageManager,
    emojis: &EmojiManager,
    context: Option<&ConversationContext>,
    user_message: Seq<char>,
) -> Seq<char> {
    owner_section(owner, lang) + personality_section(owner, lang, context) + emoji_section(emojis)
        + usage_section() + catalogue_section(lang, context) + answer_section(user_message)
}

/// Builds the prompt for a reply to `user_message`.
pub fn build_prompt(
    owner: &OwnerInfo,
    lang: &LanguageManager,
    emojis: &EmojiManager,
    context: Option<&ConversationContext>,
    user_message: &str,
) -> (r: String)
    ensures
        r@ == prompt_text(owner, lang, emojis, context, user_message@),
{
    let mut text: Vec<char> = Vec::new();
    push_owner_section(&mut text, owner, lang);
    let ghost mut done = owner_section(owner, lang);
    proof {
        lemma_concat_empty(done);
    }
    push_personality_section(&mut text, owner, lang, context);
    proof {
        done = done + personality_section(owner, lang, context);
    }
    push_emoji_section(&mut text, emojis);
    proof {
        done = done + emoji_section(emojis);
    }
    push_usage_section(&mut text);
    proof {
        done = done + usage_section();
    }
    push_catalogue_section(&mut text, lang, context);
    proof {
        done = done + catalogue_section(lang, context);
    }
    push_answer_section(&mut text, user_message);
    proof {
        done = done + answer_section(user_message@);
    }
    string_of(&text)
}

/// The prompt for a summary analysis: the rules, the summary so far, the
/// recent messages, and the form of the answer.
pub open spec fn analysis_prompt_text(context: &ConversationContext) -> Seq<char> {
    opening_section() + rules_section() + summary_section(context) + messages_section(context)
        + task_section()
}

/// Builds the prompt for a summary analysis of a context.
pub fn build_summary_analysis_prompt(context: &ConversationContext) -> (r: String)
    ensures
        r@ == analysis_prompt_text(context),
{
    let mut text: Vec<char> = Vec::new();
    push_opening_section(&mut text);
    let ghost mut done = opening_section();
    proof {
        lemma_concat_empty(done);
    }
    push_rules_section(&mut text);
    proof {
        done = done + rules_section();
    }
    push_summary_section(&mut text, context);
    proof {
        done = done + summary_section(context);
    }
    push_messages_section(&mut text, context);
    proof {
        done = done + messages_section(context);
    }
    push_task_section(&mut text);
    proof {
        done = done + task_section();
    }
    string_of(&text)
}

} // verus!
