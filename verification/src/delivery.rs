//! What the scheduler sweep sends for a reminder that is due, what a
//! reminder request is answered with, and how a status choice on a delivered
//! reminder is read.
use vstd::prelude::*;
use crate::data::{has_channel, Reminder};
use crate::lang::{
    default_image_of, emoji_of, image_of, EmojiManager, ImageManager, LanguageManager,
};
use crate::responses::{default_avatar, EmbedField, EmbedPlan};
use crate::text::{
    byte_prefix, chars_of, decimal_i64, decimal_int, matches_at, matches_at_exec, owned, parse_u64,
    push_all, push_text, replace_all, slice_of, str_eq, string_of, take_bytes, u64_value,
};

verus! {

/// What one titled entry of a card says.
pub open spec fn field_view(f: EmbedField) -> (Seq<char>, Seq<char>, bool) {
    (f.name@, f.value@, f.inline)
}

/// What the titled entries of a card say, in order.
pub open spec fn fields_view(v: Seq<EmbedField>) -> Seq<(Seq<char>, Seq<char>, bool)> {
    Seq::new(v.len(), |i: int| field_view(v[i]))
}

/// A mention of a user.
pub open spec fn user_mention(user_id: Seq<char>) -> Seq<char> {
    "<@"@ + user_id + ">"@
}

/// A time stamp as the platform shows it, in the given style.
pub open spec fn time_tag(secs: int, style: Seq<char>) -> Seq<char> {
    "<t:"@ + decimal_int(secs) + ":"@ + style + ">"@
}

/// Whom the message of a reminder mentions: a private reminder its creator;
/// a public one its creator, everyone, or nobody, by its mention policy.
pub open spec fn mention_text(r: Reminder) -> Seq<char> {
    if r.is_private {
        user_mention(r.user_id@)
    } else if r.mention_type@ == "creator"@ {
        user_mention(r.user_id@)
    } else if r.mention_type@ == "everyone"@ {
        "@everyone"@
    } else {
        Seq::<char>::empty()
    }
}

/// The bell shown in front of a reminder title.
pub open spec fn bell_text(emojis: &EmojiManager) -> Seq<char> {
    match emoji_of(emojis.emojis(), "interface"@, "bell"@) {
        Some(e) => e@,
        None => "\u{1f514}"@,
    }
}

/// The image of a reminder card: the alert reaction, else the default for
/// success, else the default address.
pub open spec fn alert_image(images: &ImageManager) -> Seq<char> {
    match image_of(images.images(), "reactions"@, "wow_alert"@) {
        Some(u) => u@,
        None => match default_image_of(images.images(), "success"@) {
            Some(u) => u@,
            None => default_avatar(),
        },
    }
}

/// The control id of the status menu of a reminder.
pub open spec fn status_menu_id(reminder_id: Seq<char>) -> Seq<char> {
    "reminder_status_"@ + reminder_id
}

/// The entries of a notification card: when the reminder was created and,
/// for a public reminder, who created it.
pub open spec fn notification_fields(r: Reminder, lang: &LanguageManager) -> Seq<
    (Seq<char>, Seq<char>, bool),
> {
    let created = (
        lang.messages().embeds.reminder_notification.created_field@,
        time_tag(r.created_at.secs as int, "R"@),
        true,
    );
    if r.is_private {
        seq![created]
    } else {
        seq![
            created,
            (
                lang.messages().embeds.reminder_notification.user_field@,
                user_mention(r.user_id@),
                true,
            ),
        ]
    }
}

/// The text of a notification card: the language's sentence, then the
/// reminder's message in bold.
pub open spec fn notification_text(r: Reminder, lang: &LanguageManager) -> Seq<char> {
    lang.messages().embeds.reminder_notification.description@ + "\n\n**"@ + r.message@ + "**"@
}

/// The title of a notification card.
pub open spec fn notification_title(lang: &LanguageManager, emojis: &EmojiManager) -> Seq<char> {
    bell_text(emojis) + " "@ + lang.messages().embeds.reminder_notification.title@
}

/// The sentence for a status choice.
pub open spec fn status_sentence(value: Seq<char>) -> Seq<char> {
    if value == "confirmed"@ {
        "\u{2705} **Confirmed** - Task has been confirmed and will be done"@
    } else if value == "created"@ {
        "\u{2b50} **Created** - Task has been created/started"@
    } else if value == "completed"@ {
        "\u{1f389} **Completed** - Task has been finished successfully"@
    } else if value == "cancelled"@ {
        "\u{274c} **Cancelled** - Task has been cancelled"@
    } else if value == "failed"@ {
        "\u{1f4a5} **Failed** - Task failed to complete"@
    } else {
        "Status updated"@
    }
}

/// The status choices offered with a reminder: label, value and
/// description of each.
pub open spec fn status_choice_texts() -> Seq<(Seq<char>, Seq<char>, Seq<char>)> {
    seq![
        ("\u{2705} Confirmed"@, "confirmed"@, "Task has been confirmed and will be done"@),
        ("\u{2b50} Created"@, "created"@, "Task has been created/started"@),
        ("\u{1f389} Completed"@, "completed"@, "Task has been finished successfully"@),
        ("\u{274c} Cancelled"@, "cancelled"@, "Task has been cancelled"@),
        ("\u{1f4a5} Failed"@, "failed"@, "Task failed to complete"@),
    ]
}

/// The reminder id in a control id of the form `reminder_status_<id>`.
pub open spec fn status_target(custom_id: Seq<char>) -> Option<Seq<char>> {
    if matches_at(custom_id, "reminder_status_"@, 0) {
        Some(custom_id.subrange(16, custom_id.len() as int))
    } else {
        None
    }
}

/// What is sent for one reminder.
#[derive(Debug)]
pub struct Delivery {
    pub reminder_id: String,
    pub channel: u64,
    pub mention: String,
    pub embed: EmbedPlan,
    pub status_menu: Option<String>,
}

/// One choice of the status menu.
#[derive(Debug)]
pub struct StatusChoice {
    pub label: String,
    pub value: String,
    pub description: String,
}

/// A mention of a user.
pub fn mention_of(user_id: &str) -> (r: String)
    ensures
        r@ == user_mention(user_id@),
{
    let mut out = chars_of("<@");
    push_text(&mut out, user_id);
    push_text(&mut out, ">");
    string_of(&out)
}

/// A time stamp as the platform shows it.
pub fn time_tag_of(secs: i64, style: &str) -> (r: String)
    ensures
        r@ == time_tag(secs as int, style@),
{
    let mut out = chars_of("<t:");
    push_all(&mut out, &decimal_i64(secs));
    push_text(&mut out, ":");
    push_text(&mut out, style);
    push_text(&mut out, ">");
    string_of(&out)
}

/// Whom the message of a reminder mentions.
pub fn mention_content(reminder: &Reminder) -> (r: String)
    ensures
        r@ == mention_text(*reminder),
{
    if reminder.is_private {
        mention_of(reminder.user_id.as_str())
    } else if str_eq(reminder.mention_type.as_str(), "creator") {
        mention_of(reminder.user_id.as_str())
    } else if str_eq(reminder.mention_type.as_str(), "everyone") {
        owned("@everyone")
    } else {
        String::new()
    }
}

/// The bell shown in front of a reminder title.
pub fn bell_of(emojis: &EmojiManager) -> (r: String)
    ensures
        r@ == bell_text(emojis),
{
    match emojis.get_emoji("interface", "bell") {
        Some(e) => e.clone(),
        None => owned("\u{1f514}"),
    }
}

/// The image of a reminder card.
pub fn alert_image_of(images: &ImageManager) -> (r: String)
    ensures
        r@ == alert_image(images),
{
    match images.get_image("reactions", "wow_alert") {
        Some(u) => u.clone(),
        None => match images.get_default_image("success") {
            Some(u) => u.clone(),
            None => owned("https://cdn.discordapp.com/embed/avatars/0.png"),
        },
    }
}

/// The card that notifies of a due reminder.
pub fn notification_embed(
    reminder: &Reminder,
    lang: &LanguageManager,
    images: &ImageManager,
    emojis: &EmojiManager,
) -> (r: EmbedPlan)
    ensures
        r.title@ == notification_title(lang, emojis),
        r.description@ == notification_text(*reminder, lang),
        r.color == (255u8, 165u8, 0u8),
        r.thumbnail@ == alert_image(images),
        fields_view(r.fields@) == notification_fields(*reminder, lang),
        r.footer@ == lang.messages().embeds.reminder_notification.footer@,
{
    let texts = &lang.get().embeds.reminder_notification;
    let mut title = chars_of(bell_of(emojis).as_str());
    push_text(&mut title, " ");
    push_text(&mut title, texts.title.as_str());
    let mut description = chars_of(texts.description.as_str());
    push_text(&mut description, "\n\n**");
    push_text(&mut description, reminder.message.as_str());
    push_text(&mut description, "**");
    let mut fields: Vec<EmbedField> = Vec::new();
    fields.push(
        EmbedField {
            name: texts.created_field.clone(),
            value: time_tag_of(reminder.created_at.timestamp(), "R"),
            inline: true,
        },
    );
    if !reminder.is_private {
        fields.push(
            EmbedField {
                name: texts.user_field.clone(),
                value: mention_of(reminder.user_id.as_str()),
                inline: true,
            },
        );
    }
    proof {
        assert(fields_view(fields@) =~= notification_fields(*reminder, lang));
    }
    EmbedPlan {
        title: string_of(&title),
        description: string_of(&description),
        color: (255, 165, 0),
        thumbnail: alert_image_of(images),
        fields,
        footer: texts.footer.clone(),
    }
}

/// What is sent for a due reminder: where, with which mention and card, and
/// with a status menu if the reminder tracks its status. Without a channel
/// number as destination nothing can be sent.
pub fn plan_delivery(
    reminder: &Reminder,
    lang: &LanguageManager,
    images: &ImageManager,
    emojis: &EmojiManager,
) -> (r: Option<Delivery>)
    ensures
        r.is_some() == has_channel(*reminder),
        match r {
            Some(d) => {
                &&& d.reminder_id == reminder.id
                &&& u64_value(reminder.channel_id@) == Some(d.channel as nat)
                &&& d.mention@ == mention_text(*reminder)
                &&& d.embed.title@ == notification_title(lang, emojis)
                &&& d.embed.description@ == notification_text(*reminder, lang)
                &&& d.embed.color == (255u8, 165u8, 0u8)
                &&& d.embed.thumbnail@ == alert_image(images)
                &&& fields_view(d.embed.fields@) == notification_fields(*reminder, lang)
                &&& d.embed.footer@ == lang.messages().embeds.reminder_notification.footer@
                &&& match d.status_menu {
                    Some(id) => reminder.has_status && id@ == status_menu_id(reminder.id@),
                    None => !reminder.has_status,
                }
            },
            None => true,
        },
{
    let channel = match parse_u64(&chars_of(reminder.channel_id.as_str())) {
        Some(c) => c,
        None => {
            return None;
        },
    };
    let status_menu = if reminder.has_status {
        let mut id = chars_of("reminder_status_");
        push_text(&mut id, reminder.id.as_str());
        Some(string_of(&id))
    } else {
        None
    };
    Some(
        Delivery {
            reminder_id: reminder.id.clone(),
            channel,
            mention: mention_content(reminder),
            embed: notification_embed(reminder, lang, images, emojis),
            status_menu,
        },
    )
}

/// The status choices offered with a reminder.
pub fn status_choices() -> (r: Vec<StatusChoice>)
    ensures
        Seq::new(r@.len(), |i: int| (r@[i].label@, r@[i].value@, r@[i].description@))
            == status_choice_texts(),
{
    let mut out: Vec<StatusChoice> = Vec::new();
    out.push(
        StatusChoice { label: owned("\u{2705} Confirmed"), value: owned("confirmed"), description: owned(
            "Task has been confirmed and will be done",
        ) },
    );
    out.push(
        StatusChoice { label: owned("\u{2b50} Created"), value: owned("created"), description: owned(
            "Task has been created/started",
        ) },
    );
    out.push(
        StatusChoice { label: owned("\u{1f389} Completed"), value: owned("completed"), description: owned(
            "Task has been finished successfully",
        ) },
    );
    out.push(
        StatusChoice { label: owned("\u{274c} Cancelled"), value: owned("cancelled"), description: owned(
            "Task has been cancelled",
        ) },
    );
    out.push(
        StatusChoice { label: owned("\u{1f4a5} Failed"), value: owned("failed"), description: owned(
            "Task failed to complete",
        ) },
    );
    proof {
        assert(Seq::new(out@.len(), |i: int| (out@[i].label@, out@[i].value@, out@[i].description@))
            =~= status_choice_texts());
    }
    out
}

/// The sentence for a status choice.
pub fn status_text(value: &str) -> (r: String)
    ensures
        r@ == status_sentence(value@),
{
    if str_eq(value, "confirmed") {
        owned("\u{2705} **Confirmed** - Task has been confirmed and will be done")
    } else if str_eq(value, "created") {
        owned("\u{2b50} **Created** - Task has been created/started")
    } else if str_eq(value, "completed") {
        owned("\u{1f389} **Completed** - Task has been finished successfully")
    } else if str_eq(value, "cancelled") {
        owned("\u{274c} **Cancelled** - Task has been cancelled")
    } else if str_eq(value, "failed") {
        owned("\u{1f4a5} **Failed** - Task failed to complete")
    } else {
        owned("Status updated")
    }
}

/// The reminder id in the control id of a status menu.
pub fn status_reminder_id(custom_id: &str) -> (r: Option<String>)
    ensures
        match r {
            Some(id) => status_target(custom_id@) == Some(id@),
            None => status_target(custom_id@).is_none(),
        },
{
    let chars = chars_of(custom_id);
    let prefix = chars_of("reminder_status_");
    proof {
        reveal_strlit("reminder_status_");
    }
    if matches_at_exec(&chars, &prefix, 0) {
        Some(string_of(&slice_of(&chars, 16, chars.len())))
    } else {
        None
    }
}

/// The text of the card shown once a status was chosen for a reminder.
pub open spec fn completion_text(r: Option<Reminder>, value: Seq<char>, lang: &LanguageManager) -> Seq<
    char,
> {
    match r {
        Some(x) => notification_text(x, lang) + "\n\n"@ + status_sentence(value),
        None => "Status has been set to:\n\n"@ + status_sentence(value),
    }
}

/// The card shown once a status was chosen: it keeps what the reminder said,
/// if the reminder is still known, and names the status.
pub fn completion_embed(
    reminder: Option<&Reminder>,
    value: &str,
    lang: &LanguageManager,
    images: &ImageManager,
    emojis: &EmojiManager,
) -> (r: EmbedPlan)
    ensures
        r.description@ == completion_text(
            match reminder {
                Some(x) => Some(*x),
                None => None,
            },
            value@,
            lang,
        ),
        r.color == (0u8, 255u8, 127u8),
        r.footer@ == "Reminder completed \u{2022} Thank you!"@,
        match reminder {
            Some(x) => r.title@ == notification_title(lang, emojis) && r.thumbnail@ == alert_image(
                images,
            ) && fields_view(r.fields@) == notification_fields(*x, lang),
            None => r.title@ == "\u{1f4dd} Reminder Status Updated"@ && r.thumbnail@.len() == 0
                && r.fields@.len() == 0,
        },
{
    let sentence = status_text(value);
    match reminder {
        Some(x) => {
            let base = notification_embed(x, lang, images, emojis);
            let mut description = chars_of(base.description.as_str());
            push_text(&mut description, "\n\n");
            push_text(&mut description, sentence.as_str());
            proof {
                assert(description@ =~= completion_text(Some(*x), value@, lang));
            }
            EmbedPlan {
                title: base.title,
                description: string_of(&description),
                color: (0, 255, 127),
                thumbnail: base.thumbnail,
                fields: base.fields,
                footer: owned("Reminder completed \u{2022} Thank you!"),
            }
        },
        None => {
            let mut description = chars_of("Status has been set to:\n\n");
            push_text(&mut description, sentence.as_str());
            EmbedPlan {
                title: owned("\u{1f4dd} Reminder Status Updated"),
                description: string_of(&description),
                color: (0, 255, 127),
                thumbnail: String::new(),
                fields: Vec::new(),
                footer: owned("Reminder completed \u{2022} Thank you!"),
            }
        },
    }
}

/// The first eight bytes of an id; an id of fewer bytes as a whole.
pub open spec fn short_id(id: Seq<char>) -> Seq<char> {
    byte_prefix(id, 8)
}

/// The entries of the card that confirms a new reminder.
pub open spec fn confirmation_fields(r: Reminder, lang: &LanguageManager) -> Seq<
    (Seq<char>, Seq<char>, bool),
> {
    let t = lang.messages().embeds.reminder;
    seq![
        (t.time_field@, time_tag(r.reminder_time.secs as int, "F"@), true),
        (t.message_field@, r.message@, true),
        (t.channel_field@, "<#"@ + r.channel_id@ + ">"@, true),
        (
            t.visibility_field@,
            if r.is_private {
                t.visibility_private@
            } else {
                t.visibility_public@
            },
            true,
        ),
        (
            t.mention_field@,
            if r.mention_type@ == "creator"@ {
                t.mention_creator@
            } else if r.mention_type@ == "everyone"@ {
                t.mention_everyone@
            } else {
                t.mention_none@
            },
            true,
        ),
        (
            t.status_field@,
            if r.has_status {
                t.status_enabled@
            } else {
                t.status_disabled@
            },
            true,
        ),
    ]
}

/// The card that confirms a new reminder.
pub fn confirmation_embed(
    reminder: &Reminder,
    lang: &LanguageManager,
    images: &ImageManager,
    emojis: &EmojiManager,
) -> (r: EmbedPlan)
    ensures
        r.title@ == bell_text(emojis) + " "@ + lang.messages().embeds.reminder.title@,
        r.description@ == replace_all(
            lang.messages().embeds.reminder.success_message@,
            "{time}"@,
            time_tag(reminder.reminder_time.secs as int, "F"@),
        ),
        r.color == (138u8, 43u8, 226u8),
        r.thumbnail@ == alert_image(images),
        fields_view(r.fields@) == confirmation_fields(*reminder, lang),
        r.footer@ == replace_all(
            lang.messages().embeds.reminder.footer@,
            "{id}"@,
            short_id(reminder.id@),
        ),
{
    let texts = &lang.get().embeds.reminder;
    let when = time_tag_of(reminder.reminder_time.timestamp(), "F");
    let mut title = chars_of(bell_of(emojis).as_str());
    push_text(&mut title, " ");
    push_text(&mut title, texts.title.as_str());
    let mut channel = chars_of("<#");
    push_text(&mut channel, reminder.channel_id.as_str());
    push_text(&mut channel, ">");
    let visibility = if reminder.is_private {
        texts.visibility_private.clone()
    } else {
        texts.visibility_public.clone()
    };
    let mention = if str_eq(reminder.mention_type.as_str(), "creator") {
        texts.mention_creator.clone()
    } else if str_eq(reminder.mention_type.as_str(), "everyone") {
        texts.mention_everyone.clone()
    } else {
        texts.mention_none.clone()
    };
    let status = if reminder.has_status {
        texts.status_enabled.clone()
    } else {
        texts.status_disabled.clone()
    };
    let short = take_bytes(reminder.id.as_str(), 8);
    let mut fields: Vec<EmbedField> = Vec::new();
    fields.push(EmbedField { name: texts.time_field.clone(), value: when.clone(), inline: true });
    fields.push(
        EmbedField {
            name: texts.message_field.clone(),
            value: reminder.message.clone(),
            inline: true,
        },
    );
    fields.push(
        EmbedField { name: texts.channel_field.clone(), value: string_of(&channel), inline: true },
    );
    fields.push(
        EmbedField { name: texts.visibility_field.clone(), value: visibility, inline: true },
    );
    fields.push(EmbedField { name: texts.mention_field.clone(), value: mention, inline: true });
    fields.push(EmbedField { name: texts.status_field.clone(), value: status, inline: true });
    proof {
        assert(fields_view(fields@) =~= confirmation_fields(*reminder, lang));
    }
    EmbedPlan {
        title: string_of(&title),
        description: lang.format_reminder_success(when.as_str()),
        color: (138, 43, 226),
        thumbnail: alert_image_of(images),
        fields,
        footer: lang.format_reminder_footer(short.as_str()),
    }
}

} // verus!
