//! The cards of the feedback, commission and gallery features: what each
//! shows, as plain texts.
use vstd::prelude::*;
use crate::commands::{
    emoji_or, emoji_or_default, feedback_channel, generate_star_display, star_display,
};
use crate::delivery::{fields_view, time_tag, time_tag_of};
use crate::persistence::DataStats;
use crate::lang::{
    default_image_of, emoji_of, emoji_text_or, image_of, image_store, key_views, EmojiManager, ImageManager,
    LanguageManager, Messages,
};
use crate::prompt::lemma_concat_assoc;
use crate::responses::{EmbedField, EmbedPlan};
use crate::text::{
    chars_of, decimal, decimal_u64, owned, push_all, push_text, replace_all, string_of,
    to_uppercase, uppercase,
};

verus! {

/// The footer of a feedback card: the language's footer and the card's id.
pub open spec fn feedback_footer(lang: &LanguageManager, message_id: Seq<char>) -> Seq<char> {
    lang.messages().feedback.embeds.message.footer@ + " \u{2022} ID: "@ + message_id
}

/// The title of a feedback card.
pub open spec fn feedback_title(lang: &LanguageManager, emojis: &EmojiManager) -> Seq<char> {
    emoji_or(emojis, "interface"@, "star"@, "\u{2b50}"@) + " "@
        + lang.messages().feedback.embeds.message.title@
}

/// The card of a feedback entry: the text, and the rating derived from the
/// votes. The counts are numbers of votes.
pub fn feedback_card(
    content: &str,
    upvotes: i32,
    downvotes: i32,
    message_id: &str,
    lang: &LanguageManager,
    emojis: &EmojiManager,
) -> (r: EmbedPlan)
    requires
        upvotes >= 0,
        downvotes >= 0,
        upvotes + downvotes <= i32::MAX,
    ensures
        r.title@ == feedback_title(lang, emojis),
        r.description@ == content@,
        r.color == (147u8, 112u8, 219u8),
        r.thumbnail@.len() == 0,
        fields_view(r.fields@) == seq![
            (
                lang.messages().feedback.embeds.message.rating_field@,
                star_display(upvotes as int, downvotes as int, emojis),
                false,
            ),
        ],
        r.footer@ == feedback_footer(lang, message_id@),
{
    let texts = &lang.get().feedback.embeds.message;
    let mut title = emoji_or_default(emojis, "interface", "star", "\u{2b50}");
    push_text(&mut title, " ");
    push_text(&mut title, texts.title.as_str());
    let mut footer = chars_of(texts.footer.as_str());
    push_text(&mut footer, " \u{2022} ID: ");
    push_text(&mut footer, message_id);
    let mut fields: Vec<EmbedField> = Vec::new();
    fields.push(
        EmbedField {
            name: texts.rating_field.clone(),
            value: generate_star_display(upvotes, downvotes, emojis),
            inline: false,
        },
    );
    proof {
        assert(fields_view(fields@) =~= seq![
            (
                lang.messages().feedback.embeds.message.rating_field@,
                star_display(upvotes as int, downvotes as int, emojis),
                false,
            ),
        ]);
    }
    EmbedPlan {
        title: string_of(&title),
        description: owned(content),
        color: (147, 112, 219),
        thumbnail: String::new(),
        fields,
        footer: string_of(&footer),
    }
}

/// The first of the optional texts that is present, or the last resort.
pub open spec fn first_text(a: Option<String>, b: Option<String>, c: Option<String>, d: Option<
    String,
>, last: Seq<char>) -> Seq<char> {
    match a {
        Some(x) => x@,
        None => match b {
            Some(x) => x@,
            None => match c {
                Some(x) => x@,
                None => match d {
                    Some(x) => x@,
                    None => last,
                },
            },
        },
    }
}

/// The first of the optional texts that is present, or the last resort.
fn first_present(
    a: Option<&String>,
    b: Option<&String>,
    c: Option<&String>,
    d: Option<&String>,
    last: &str,
) -> (r: String)
    ensures
        r@ == match a {
            Some(x) => x@,
            None => match b {
                Some(x) => x@,
                None => match c {
                    Some(x) => x@,
                    None => match d {
                        Some(x) => x@,
                        None => last@,
                    },
                },
            },
        },
{
    match a {
        Some(x) => x.clone(),
        None => match b {
            Some(x) => x.clone(),
            None => match c {
                Some(x) => x.clone(),
                None => match d {
                    Some(x) => x.clone(),
                    None => owned(last),
                },
            },
        },
    }
}

/// The text of the commission card: the offer, how it works, the services,
/// and how to get in touch.
pub open spec fn commission_text(m: Messages) -> Seq<char> {
    let c = m.embeds.commission;
    c.description@ + "\n\n**"@ + c.how_it_works_title@ + "**\n"@ + c.how_it_works_step1@ + "\n"@
        + c.how_it_works_step2@ + "\n"@ + c.how_it_works_step3@ + "\n"@ + c.how_it_works_step4@
        + "\n\n**"@ + c.services_title@ + "**\n"@ + c.services_web@ + "\n"@ + c.services_design@
        + "\n"@ + c.services_programming@ + "\n"@ + c.services_consulting@
            + "\n\n\u{f0}\u{178}\u{201c}\u{a7} "@
        + c.contact_info@
}

/// The image of the commission card.
pub open spec fn commission_image(images: &ImageManager) -> Seq<char> {
    first_text(
        image_of(images.images(), "showing"@, "showing1"@),
        image_of(images.images(), "avatar"@, "pointing"@),
        default_image_of(images.images(), "info"@),
        image_of(images.images(), "avatar"@, "what_pointing"@),
        "https://cdn.discordapp.com/embed/avatars/1.png"@,
    )
}

/// The emoji in front of the commission card's title.
pub open spec fn commission_emoji(emojis: &EmojiManager) -> Seq<char> {
    match emoji_of(emojis.emojis(), "interface"@, "business"@) {
        Some(e) => e@,
        None => emoji_or(emojis, "interface"@, "star"@, "\u{f0}\u{178}\u{2019}\u{bc}"@),
    }
}

/// The card that offers commissions.
pub fn commission_card(lang: &LanguageManager, images: &ImageManager, emojis: &EmojiManager) -> (r:
    EmbedPlan)
    ensures
        r.title@ == commission_emoji(emojis) + " "@ + lang.messages().embeds.commission.title@,
        r.description@ == commission_text(lang.messages()),
        r.color == (105u8, 90u8, 205u8),
        r.thumbnail@ == commission_image(images),
        r.fields@.len() == 0,
        r.footer@ == lang.messages().embeds.commission.footer@,
{
    let c = &lang.get().embeds.commission;
    let mut title = match emojis.get_emoji("interface", "business") {
        Some(e) => chars_of(e.as_str()),
        None => emoji_or_default(emojis, "interface", "star", "\u{f0}\u{178}\u{2019}\u{bc}"),
    };
    push_text(&mut title, " ");
    push_text(&mut title, c.title.as_str());
    let thumbnail = first_present(
        images.get_image("showing", "showing1"),
        images.get_image("avatar", "pointing"),
        images.get_default_image("info"),
        images.get_image("avatar", "what_pointing"),
        "https://cdn.discordapp.com/embed/avatars/1.png",
    );
    let mut d = chars_of(c.description.as_str());
    push_text(&mut d, "\n\n**");
    push_text(&mut d, c.how_it_works_title.as_str());
    push_text(&mut d, "**\n");
    push_text(&mut d, c.how_it_works_step1.as_str());
    push_text(&mut d, "\n");
    push_text(&mut d, c.how_it_works_step2.as_str());
    push_text(&mut d, "\n");
    push_text(&mut d, c.how_it_works_step3.as_str());
    push_text(&mut d, "\n");
    push_text(&mut d, c.how_it_works_step4.as_str());
    push_text(&mut d, "\n\n**");
    push_text(&mut d, c.services_title.as_str());
    push_text(&mut d, "**\n");
    push_text(&mut d, c.services_web.as_str());
    push_text(&mut d, "\n");
    push_text(&mut d, c.services_design.as_str());
    push_text(&mut d, "\n");
    push_text(&mut d, c.services_programming.as_str());
    push_text(&mut d, "\n");
    push_text(&mut d, c.services_consulting.as_str());
    push_text(&mut d, "\n\n\u{f0}\u{178}\u{201c}\u{a7} ");
    push_text(&mut d, c.contact_info.as_str());
    EmbedPlan {
        title: string_of(&title),
        description: string_of(&d),
        color: (105, 90, 205),
        thumbnail,
        fields: Vec::new(),
        footer: c.footer.clone(),
    }
}

/// The text of the card that welcomes a user to a commission channel.
pub open spec fn welcome_text(m: Messages, username: Seq<char>) -> Seq<char> {
    let c = m.embeds.commission_created;
    c.description@ + "\n\n"@ + replace_all(c.welcome_message@, "{username}"@, username)
        + "\n\n**"@ + c.next_steps_title@ + "**\n"@ + c.next_steps_1@ + "\n"@ + c.next_steps_2@
        + "\n"@ + c.next_steps_3@ + "\n"@ + c.next_steps_4@
}

/// The image of the welcome card.
pub open spec fn welcome_image(images: &ImageManager) -> Seq<char> {
    first_text(
        image_of(images.images(), "emotions"@, "thanks"@),
        image_of(images.images(), "emotions"@, "hand_on_heart"@),
        default_image_of(images.images(), "success"@),
        image_of(images.images(), "emotions"@, "love"@),
        "https://cdn.discordapp.com/embed/avatars/2.png"@,
    )
}

/// The emoji in front of the welcome card's title.
pub open spec fn welcome_emoji(emojis: &EmojiManager) -> Seq<char> {
    match emoji_of(emojis.emojis(), "emotions"@, "happy"@) {
        Some(e) => e@,
        None => emoji_or(emojis, "interface"@, "success"@, "\u{e2}\u{153}\u{2026}"@),
    }
}

/// The card that welcomes a user to their commission channel.
pub fn commission_welcome_card(
    username: &str,
    lang: &LanguageManager,
    images: &ImageManager,
    emojis: &EmojiManager,
) -> (r: EmbedPlan)
    ensures
        r.title@ == welcome_emoji(emojis) + " "@ + lang.messages().embeds.commission_created.title@,
        r.description@ == welcome_text(lang.messages(), username@),
        r.color == (0u8, 255u8, 127u8),
        r.thumbnail@ == welcome_image(images),
        fields_view(r.fields@) == seq![
            (
                lang.messages().embeds.commission_created.contact_info_field@,
                lang.messages().embeds.commission_created.contact_info_value@,
                false,
            ),
        ],
        r.footer@ == replace_all(
            lang.messages().embeds.commission_created.footer@,
            "{username}"@,
            username@,
        ),
{
    let c = &lang.get().embeds.commission_created;
    proof {
        reveal_strlit("{username}");
    }
    let mut title = match emojis.get_emoji("emotions", "happy") {
        Some(e) => chars_of(e.as_str()),
        None => emoji_or_default(emojis, "interface", "success", "\u{e2}\u{153}\u{2026}"),
    };
    push_text(&mut title, " ");
    push_text(&mut title, c.title.as_str());
    let thumbnail = first_present(
        images.get_image("emotions", "thanks"),
        images.get_image("emotions", "hand_on_heart"),
        images.get_default_image("success"),
        images.get_image("emotions", "love"),
        "https://cdn.discordapp.com/embed/avatars/2.png",
    );
    let welcome = crate::text::fill(c.welcome_message.as_str(), "{username}", username);
    let mut d = chars_of(c.description.as_str());
    push_text(&mut d, "\n\n");
    push_text(&mut d, welcome.as_str());
    push_text(&mut d, "\n\n**");
    push_text(&mut d, c.next_steps_title.as_str());
    push_text(&mut d, "**\n");
    push_text(&mut d, c.next_steps_1.as_str());
    push_text(&mut d, "\n");
    push_text(&mut d, c.next_steps_2.as_str());
    push_text(&mut d, "\n");
    push_text(&mut d, c.next_steps_3.as_str());
    push_text(&mut d, "\n");
    push_text(&mut d, c.next_steps_4.as_str());
    let mut fields: Vec<EmbedField> = Vec::new();
    fields.push(
        EmbedField {
            name: c.contact_info_field.clone(),
            value: c.contact_info_value.clone(),
            inline: false,
        },
    );
    proof {
        assert(fields_view(fields@) =~= seq![
            (
                lang.messages().embeds.commission_created.contact_info_field@,
                lang.messages().embeds.commission_created.contact_info_value@,
                false,
            ),
        ]);
    }
    EmbedPlan {
        title: string_of(&title),
        description: string_of(&d),
        color: (0, 255, 127),
        thumbnail,
        fields,
        footer: crate::text::fill(c.footer.as_str(), "{username}", username),
    }
}

/// The image categories, in the order in which the gallery lists them.
pub open spec fn gallery_categories() -> Seq<Seq<char>> {
    seq!["avatar"@, "emotions"@, "reactions"@, "talking"@, "thinking"@, "showing"@, "misc"@]
}

/// How many images a category holds; none for an unknown category.
pub open spec fn category_size(images: &ImageManager, category: Seq<char>) -> nat {
    match image_store(images.images(), category) {
        Some(s) => s.entries().len(),
        None => 0,
    }
}

/// One line of the gallery: a name in bold and a number of images.
pub open spec fn gallery_line_text(name: Seq<char>, count: nat) -> Seq<char> {
    "**"@ + name + "**: "@ + decimal(count) + " images\n"@
}

/// The gallery lines of the first `n` categories: the name in capitals and
/// the number of images.
pub open spec fn gallery_lines(images: &ImageManager, n: int) -> Seq<char>
    decreases n,
{
    if n <= 0 {
        Seq::<char>::empty()
    } else {
        gallery_lines(images, n - 1) + gallery_line_text(
            uppercase(gallery_categories()[n - 1]),
            category_size(images, gallery_categories()[n - 1]),
        )
    }
}

/// One line of the gallery: a name in bold and a number of images.
pub fn gallery_line(name: &str, count: usize) -> (r: String)
    ensures
        r@ == gallery_line_text(name@, count as nat),
{
    let mut out = chars_of("**");
    push_text(&mut out, name);
    push_text(&mut out, "**: ");
    push_all(&mut out, &decimal_u64(count as u64));
    push_text(&mut out, " images\n");
    string_of(&out)
}

/// The number of images in the first `n` categories.
pub open spec fn gallery_total(images: &ImageManager, n: int) -> nat
    decreases n,
{
    if n <= 0 {
        0
    } else {
        gallery_total(images, n - 1) + category_size(images, gallery_categories()[n - 1])
    }
}

/// The text of the gallery card and the number of images it counts: the
/// language's sentence, then one line per category. The number stops at
/// the largest one a count can hold.
pub fn gallery_overview(lang: &LanguageManager, images: &ImageManager) -> (r: (String, usize))
    ensures
        r.0@ == lang.messages().embeds.images.description@ + "\n\n"@ + gallery_lines(images, 7),
        r.1 == if gallery_total(images, 7) <= usize::MAX {
            gallery_total(images, 7)
        } else {
            usize::MAX as nat
        },
{
    let categories = images.list_categories();
    let mut text = chars_of(lang.get().embeds.images.description.as_str());
    push_text(&mut text, "\n\n");
    let ghost start = text@;
    let mut total: usize = 0;
    let mut i: usize = 0;
    proof {
        assert(crate::text::views(categories@) == gallery_categories());
        assert(text@ =~= start + gallery_lines(images, 0));
    }
    while i < categories.len()
        invariant
            i <= categories.len(),
            categories.len() == 7,
            crate::text::views(categories@) == gallery_categories(),
            text@ == start + gallery_lines(images, i as int),
            total == if gallery_total(images, i as int) <= usize::MAX {
                gallery_total(images, i as int)
            } else {
                usize::MAX as nat
            },
        decreases categories.len() - i,
    {
        let category = categories[i];
        proof {
            assert(crate::text::views(categories@)[i as int] == category@);
        }
        let names = images.list_images_in_category(category);
        proof {
            assert(names@.len() == crate::lang::string_views(names@).len());
            match image_store(images.images(), category@) {
                Some(s) => {
                    assert(key_views(s).len() == s.entries().len());
                },
                None => {},
            }
        }
        let count = names.len();
        total = if total > usize::MAX - count {
            usize::MAX
        } else {
            total + count
        };
        let line = gallery_line(to_uppercase(category).as_str(), count);
        push_text(&mut text, line.as_str());
        i += 1;
        proof {
            lemma_concat_assoc(
                start,
                gallery_lines(images, i - 1),
                gallery_line_text(uppercase(category@), count as nat),
            );
        }
    }
    (string_of(&text), total)
}

/// What the titled entries of the statistics card say.
pub open spec fn stats_fields(stats: DataStats) -> Seq<(Seq<char>, Seq<char>, bool)> {
    seq![
        ("\u{1f4ac} Total Conversations"@, decimal(stats.conversations_count as nat), true),
        ("\u{1f4dd} Total Messages"@, decimal(stats.total_messages as nat), true),
        ("\u{1f3af} Button Messages"@, decimal(stats.button_messages_count as nat), true),
        ("\u{1f552} Last Updated"@, time_tag(stats.last_updated.secs as int, "R"@), false),
    ]
}

/// The card that shows the counts over the aggregate.
pub fn stats_card(stats: &DataStats) -> (r: EmbedPlan)
    ensures
        r.title@ == "\u{1f4ca} Bot Statistics"@,
        r.description@.len() == 0,
        r.color == (105u8, 90u8, 205u8),
        r.thumbnail@.len() == 0,
        fields_view(r.fields@) == stats_fields(*stats),
        r.footer@ == "TheLorian's Discord Bot"@,
{
    let mut fields: Vec<EmbedField> = Vec::new();
    fields.push(
        EmbedField {
            name: owned("\u{1f4ac} Total Conversations"),
            value: string_of(&decimal_u64(stats.conversations_count as u64)),
            inline: true,
        },
    );
    fields.push(
        EmbedField {
            name: owned("\u{1f4dd} Total Messages"),
            value: string_of(&decimal_u64(stats.total_messages as u64)),
            inline: true,
        },
    );
    fields.push(
        EmbedField {
            name: owned("\u{1f3af} Button Messages"),
            value: string_of(&decimal_u64(stats.button_messages_count as u64)),
            inline: true,
        },
    );
    fields.push(
        EmbedField {
            name: owned("\u{1f552} Last Updated"),
            value: time_tag_of(stats.last_updated.timestamp(), "R"),
            inline: false,
        },
    );
    proof {
        assert(fields_view(fields@) =~= stats_fields(*stats));
    }
    EmbedPlan {
        title: owned("\u{1f4ca} Bot Statistics"),
        description: String::new(),
        color: (105, 90, 205),
        thumbnail: String::new(),
        fields,
        footer: owned("TheLorian's Discord Bot"),
    }
}

/// The image of the feedback set-up card: the alert reaction, else the
/// default for feedback, else the language's own.
pub open spec fn setup_image(lang: &LanguageManager, images: &ImageManager) -> Seq<char> {
    match image_of(images.images(), "reactions"@, "wow_alert"@) {
        Some(u) => u@,
        None => match default_image_of(images.images(), "feedback"@) {
            Some(u) => u@,
            None => lang.messages().feedback.embeds.setup.thumbnail@,
        },
    }
}

/// What the titled entries of the feedback set-up card say: how feedback
/// works, and how it is rated.
pub open spec fn setup_fields(m: Messages) -> Seq<(Seq<char>, Seq<char>, bool)> {
    let s = m.feedback.embeds.setup;
    seq![
        (
            s.how_it_works_title@,
            s.how_it_works_step1@ + "\n"@ + s.how_it_works_step2@ + "\n"@ + s.how_it_works_step3@
                + "\n"@ + s.how_it_works_step4@,
            false,
        ),
        (
            s.rating_system_title@,
            s.rating_upvote@ + "\n"@ + s.rating_downvote@ + "\n"@ + s.rating_stars@,
            false,
        ),
    ]
}

/// The card that explains the feedback channel.
pub fn feedback_setup_card(lang: &LanguageManager, images: &ImageManager, emojis: &EmojiManager) -> (r:
    EmbedPlan)
    ensures
        r.title@ == emoji_or(emojis, "interface"@, "star"@, "\u{2b50}"@) + " "@
            + lang.messages().feedback.embeds.setup.title@,
        r.description@ == lang.messages().feedback.embeds.setup.description@,
        r.color == (147u8, 112u8, 219u8),
        r.thumbnail@ == setup_image(lang, images),
        fields_view(r.fields@) == setup_fields(lang.messages()),
        r.footer@ == lang.messages().feedback.embeds.setup.footer@,
{
    let s = &lang.get().feedback.embeds.setup;
    let mut title = emoji_or_default(emojis, "interface", "star", "\u{2b50}");
    push_text(&mut title, " ");
    push_text(&mut title, s.title.as_str());
    let mut how = chars_of(s.how_it_works_step1.as_str());
    push_text(&mut how, "\n");
    push_text(&mut how, s.how_it_works_step2.as_str());
    push_text(&mut how, "\n");
    push_text(&mut how, s.how_it_works_step3.as_str());
    push_text(&mut how, "\n");
    push_text(&mut how, s.how_it_works_step4.as_str());
    let mut rating = chars_of(s.rating_upvote.as_str());
    push_text(&mut rating, "\n");
    push_text(&mut rating, s.rating_downvote.as_str());
    push_text(&mut rating, "\n");
    push_text(&mut rating, s.rating_stars.as_str());
    let thumbnail = match images.get_image("reactions", "wow_alert") {
        Some(u) => u.clone(),
        None => match images.get_default_image("feedback") {
            Some(u) => u.clone(),
            None => s.thumbnail.clone(),
        },
    };
    let mut fields: Vec<EmbedField> = Vec::new();
    fields.push(
        EmbedField { name: s.how_it_works_title.clone(), value: string_of(&how), inline: false },
    );
    fields.push(
        EmbedField { name: s.rating_system_title.clone(), value: string_of(
            &rating,
        ), inline: false },
    );
    proof {
        assert(fields_view(fields@) =~= setup_fields(lang.messages()));
    }
    EmbedPlan {
        title: string_of(&title),
        description: s.description.clone(),
        color: (147, 112, 219),
        thumbnail,
        fields,
        footer: s.footer.clone(),
    }
}

/// The card that confirms the set-up of the feedback channel.
pub fn feedback_setup_confirmation(lang: &LanguageManager, emojis: &EmojiManager) -> (r: EmbedPlan)
    ensures
        r.title@ == emoji_text_or(emojis.emojis(), "success"@, "\u{e2}\u{153}\u{2026}"@) + " "@
            + lang.messages().feedback.messages.setup_success_title@,
        r.description@ == lang.messages().feedback.messages.setup_success@ + " <#"@
            + feedback_channel() + ">!"@,
        r.color == (0u8, 255u8, 127u8),
        r.thumbnail@.len() == 0,
        r.fields@.len() == 0,
        r.footer@ == lang.messages().feedback.messages.setup_success_footer@,
{
    let m = &lang.get().feedback.messages;
    let mut title = chars_of(emojis.success());
    push_text(&mut title, " ");
    push_text(&mut title, m.setup_success_title.as_str());
    let mut description = chars_of(m.setup_success.as_str());
    push_text(&mut description, " <#");
    push_text(&mut description, "1400466972293992498");
    push_text(&mut description, ">!");
    EmbedPlan {
        title: string_of(&title),
        description: string_of(&description),
        color: (0, 255, 127),
        thumbnail: String::new(),
        fields: Vec::new(),
        footer: m.setup_success_footer.clone(),
    }
}

} // verus!
