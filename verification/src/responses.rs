//! A reply under construction: its text, emotion, buttons and presentation,
//! and the plain description of the card and the button rows it becomes.
use vstd::prelude::*;
use crate::emotions::{color_of, emoji_of, image_category_of, image_name_of, name_of, EmotionType};
use crate::lang::{image_of, EmojiManager, ImageManager, LanguageManager};
use crate::store::{lemma_text_entries_put, put, text_entries, StringMap};
use crate::text::{
    chars_of, decimal, decimal_u64, owned, push_all, push_text, replace_all, string_of, string_view,
};

verus! {

/// The address of the image shown when no other can be found.
pub open spec fn default_avatar() -> Seq<char> {
    "https://cdn.discordapp.com/embed/avatars/0.png"@
}

/// Most buttons in one row.
pub const BUTTONS_PER_ROW: usize = 5;

/// How a button looks.
#[derive(Debug, Clone, Copy, PartialEq, Eq, Structural)]
pub enum ButtonStyle {
    Primary,
    Secondary,
    Success,
    Danger,
}

/// A button that a reply can offer.
#[derive(Debug)]
pub enum ButtonType {
    Commission { label: String, service_type: String },
    Ticket { label: String },
    Feedback { label: String, action: String },
    Custom { label: String, custom_id: String, style: ButtonStyle },
}

impl Clone for ButtonType {
    fn clone(&self) -> (r: Self)
        ensures
            r == *self,
    {
        match self {
            ButtonType::Commission { label, service_type } => ButtonType::Commission {
                label: label.clone(),
                service_type: service_type.clone(),
            },
            ButtonType::Ticket { label } => ButtonType::Ticket { label: label.clone() },
            ButtonType::Feedback { label, action } => ButtonType::Feedback {
                label: label.clone(),
                action: action.clone(),
            },
            ButtonType::Custom { label, custom_id, style } => ButtonType::Custom {
                label: label.clone(),
                custom_id: custom_id.clone(),
                style: *style,
            },
        }
    }
}

/// The control id of a button.
pub open spec fn custom_id_of(b: ButtonType) -> Seq<char> {
    match b {
        ButtonType::Commission { service_type, .. } => "ai_commission_"@ + service_type@,
        ButtonType::Ticket { .. } => "ai_create_ticket"@,
        ButtonType::Feedback { action, .. } => "ai_feedback_"@ + action@,
        ButtonType::Custom { custom_id, .. } => custom_id@,
    }
}

/// The style of a button.
pub open spec fn style_of(b: ButtonType) -> ButtonStyle {
    match b {
        ButtonType::Commission { .. } => ButtonStyle::Primary,
        ButtonType::Ticket { .. } => ButtonStyle::Secondary,
        ButtonType::Feedback { .. } => ButtonStyle::Success,
        ButtonType::Custom { style, .. } => style,
    }
}

/// The label of a button.
pub open spec fn label_of(b: ButtonType) -> Seq<char> {
    match b {
        ButtonType::Commission { label, .. } => label@,
        ButtonType::Ticket { label } => label@,
        ButtonType::Feedback { label, .. } => label@,
        ButtonType::Custom { label, .. } => label@,
    }
}

/// What the stored metadata says of a button.
pub open spec fn metadata_of(b: ButtonType) -> Seq<char> {
    match b {
        ButtonType::Commission { service_type, .. } => "commission:"@ + service_type@,
        ButtonType::Ticket { .. } => "ticket:create"@,
        ButtonType::Feedback { action, .. } => "feedback:"@ + action@,
        ButtonType::Custom { custom_id, .. } => "custom:"@ + custom_id@,
    }
}

impl ButtonType {
    /// The control id under which the button is known.
    pub fn custom_id(&self) -> (r: String)
        ensures
            r@ == custom_id_of(*self),
    {
        match self {
            ButtonType::Commission { service_type, .. } => {
                let mut out = chars_of("ai_commission_");
                push_text(&mut out, service_type.as_str());
                string_of(&out)
            },
            ButtonType::Ticket { .. } => owned("ai_create_ticket"),
            ButtonType::Feedback { action, .. } => {
                let mut out = chars_of("ai_feedback_");
                push_text(&mut out, action.as_str());
                string_of(&out)
            },
            ButtonType::Custom { custom_id, .. } => custom_id.clone(),
        }
    }

    /// The style of the button.
    pub fn style(&self) -> (r: ButtonStyle)
        ensures
            r == style_of(*self),
    {
        match self {
            ButtonType::Commission { .. } => ButtonStyle::Primary,
            ButtonType::Ticket { .. } => ButtonStyle::Secondary,
            ButtonType::Feedback { .. } => ButtonStyle::Success,
            ButtonType::Custom { style, .. } => *style,
        }
    }

    /// The label of the button.
    pub fn label(&self) -> (r: &str)
        ensures
            r@ == label_of(*self),
    {
        match self {
            ButtonType::Commission { label, .. } => label.as_str(),
            ButtonType::Ticket { label } => label.as_str(),
            ButtonType::Feedback { label, .. } => label.as_str(),
            ButtonType::Custom { label, .. } => label.as_str(),
        }
    }

    /// What the stored metadata says of the button.
    pub fn metadata_value(&self) -> (r: String)
        ensures
            r@ == metadata_of(*self),
    {
        match self {
            ButtonType::Commission { service_type, .. } => {
                let mut out = chars_of("commission:");
                push_text(&mut out, service_type.as_str());
                string_of(&out)
            },
            ButtonType::Ticket { .. } => owned("ticket:create"),
            ButtonType::Feedback { action, .. } => {
                let mut out = chars_of("feedback:");
                push_text(&mut out, action.as_str());
                string_of(&out)
            },
            ButtonType::Custom { custom_id, .. } => {
                let mut out = chars_of("custom:");
                push_text(&mut out, custom_id.as_str());
                string_of(&out)
            },
        }
    }
}

/// One titled entry of a card.
#[derive(Debug)]
pub struct EmbedField {
    pub name: String,
    pub value: String,
    pub inline: bool,
}

/// A card to show: what the presentation layer needs to draw it.
#[derive(Debug)]
pub struct EmbedPlan {
    pub title: String,
    pub description: String,
    pub color: (u8, u8, u8),
    pub thumbnail: String,
    pub fields: Vec<EmbedField>,
    pub footer: String,
}

/// A button to show.
#[derive(Debug)]
pub struct ButtonPlan {
    pub custom_id: String,
    pub label: String,
    pub style: ButtonStyle,
}

/// What a reply under construction holds.
pub struct ResponseView {
    pub content: Seq<char>,
    pub emotion: EmotionType,
    pub buttons: Seq<ButtonType>,
    pub thumbnail_override: Option<Seq<char>>,
    pub footer_text: Option<Seq<char>>,
    pub custom_color: Option<(u8, u8, u8)>,
}

/// A reply under construction.
pub struct AIResponseBuilder {
    content: String,
    emotion: EmotionType,
    buttons: Vec<ButtonType>,
    thumbnail_override: Option<String>,
    footer_text: Option<String>,
    custom_color: Option<(u8, u8, u8)>,
}

impl View for AIResponseBuilder {
    type V = ResponseView;

    closed spec fn view(&self) -> ResponseView {
        ResponseView {
            content: self.content@,
            emotion: self.emotion,
            buttons: self.buttons@,
            thumbnail_override: string_view(self.thumbnail_override),
            footer_text: string_view(self.footer_text),
            custom_color: self.custom_color,
        }
    }
}

/// The image of a reply: the override, else the image of the emotion, else
/// the first avatar, else the default address.
pub open spec fn thumbnail_for(v: ResponseView, images: &ImageManager) -> Seq<char> {
    match v.thumbnail_override {
        Some(t) => t,
        None => match image_of(
            images.images(),
            image_category_of(v.emotion),
            image_name_of(v.emotion),
        ) {
            Some(u) => u@,
            None => if images.images().avatar.entries().len() > 0 {
                images.images().avatar.entries()[0].1@
            } else {
                default_avatar()
            },
        },
    }
}

/// The footer of a reply: the custom one, else the language's footer for the
/// author and the emotion.
pub open spec fn footer_for(v: ResponseView, author: Seq<char>, lang: &LanguageManager) -> Seq<
    char,
> {
    match v.footer_text {
        Some(f) => f,
        None => replace_all(
            replace_all(lang.messages().ai.embeds.footer_format@, "{username}"@, author),
            "{emotion_emoji}"@,
            emoji_of(v.emotion),
        ),
    }
}

/// The metadata after the first `n` buttons were recorded: `button_<i>`
/// says what button `i` is.
pub open spec fn button_metadata(buttons: Seq<ButtonType>, n: int) -> Seq<
    (Seq<char>, Seq<char>),
>
    decreases n,
{
    if n <= 0 {
        Seq::<(Seq<char>, Seq<char>)>::empty()
    } else {
        put(
            button_metadata(buttons, n - 1),
            "button_"@ + decimal((n - 1) as nat),
            metadata_of(buttons[n - 1]),
        )
    }
}

/// The metadata of a reply: its buttons, then the emotion's name under
/// `emotion` and the number of buttons under `button_count`.
pub open spec fn metadata_for(v: ResponseView) -> Seq<(Seq<char>, Seq<char>)> {
    put(
        put(
            button_metadata(v.buttons, v.buttons.len() as int),
            "emotion"@,
            name_of(v.emotion),
        ),
        "button_count"@,
        decimal(v.buttons.len()),
    )
}

/// The number of rows that `n` buttons fill.
pub open spec fn row_count(n: int) -> int {
    (n + 4) / 5
}

impl AIResponseBuilder {
    /// An empty reply with the neutral emotion.
    pub fn new() -> (r: Self)
        ensures
            r@.content.len() == 0,
            r@.emotion == EmotionType::Neutral,
            r@.buttons.len() == 0,
            r@.thumbnail_override.is_none(),
            r@.footer_text.is_none(),
            r@.custom_color.is_none(),
    {
        AIResponseBuilder {
            content: String::new(),
            emotion: EmotionType::Neutral,
            buttons: Vec::new(),
            thumbnail_override: None,
            footer_text: None,
            custom_color: None,
        }
    }

    /// The same reply with the given text.
    pub fn content(self, content: String) -> (r: Self)
        ensures
            r@ == (ResponseView { content: content@, ..self@ }),
    {
        let mut b = self;
        b.content = content;
        b
    }

    /// The same reply with the given emotion.
    pub fn emotion(self, emotion: EmotionType) -> (r: Self)
        ensures
            r@ == (ResponseView { emotion, ..self@ }),
    {
        let mut b = self;
        b.emotion = emotion;
        b
    }

    /// The same reply with one more button.
    pub fn add_button(self, button: ButtonType) -> (r: Self)
        ensures
            r@ == (ResponseView { buttons: self@.buttons.push(button), ..self@ }),
    {
        let mut b = self;
        b.buttons.push(button);
        b
    }

    /// The same reply with the given image address.
    pub fn thumbnail(self, thumbnail_url: String) -> (r: Self)
        ensures
            r@ == (ResponseView { thumbnail_override: Some(thumbnail_url@), ..self@ }),
    {
        let mut b = self;
        b.thumbnail_override = Some(thumbnail_url);
        b
    }

    /// The same reply with the given footer.
    pub fn footer(self, footer_text: String) -> (r: Self)
        ensures
            r@ == (ResponseView { footer_text: Some(footer_text@), ..self@ }),
    {
        let mut b = self;
        b.footer_text = Some(footer_text);
        b
    }

    /// The same reply with the given colour.
    pub fn custom_color(self, color: (u8, u8, u8)) -> (r: Self)
        ensures
            r@ == (ResponseView { custom_color: Some(color), ..self@ }),
    {
        let mut b = self;
        b.custom_color = Some(color);
        b
    }

    /// The card of the reply.
    pub fn build_embed(
        &self,
        images: &ImageManager,
        _emojis: &EmojiManager,
        author_name: &str,
        lang: &LanguageManager,
    ) -> (r: EmbedPlan)
        ensures
            r.title@ == replace_all(
                lang.messages().ai.embeds.title_format@,
                "{emoji}"@,
                emoji_of(self@.emotion),
            ),
            r.description@ == self@.content,
            r.color == match self@.custom_color {
                Some(c) => c,
                None => color_of(self@.emotion),
            },
            r.thumbnail@ == thumbnail_for(self@, images),
            r.footer@ == footer_for(self@, author_name@, lang),
            r.fields@.len() == 0,
    {
        let color = match self.custom_color {
            Some(c) => c,
            None => self.emotion.color(),
        };
        let thumbnail = match &self.thumbnail_override {
            Some(t) => t.clone(),
            None => match images.get_image(
                self.emotion.image_category(),
                self.emotion.image_name(),
            ) {
                Some(u) => u.clone(),
                None => match images.get_random_avatar() {
                    Some(a) => a.clone(),
                    None => owned("https://cdn.discordapp.com/embed/avatars/0.png"),
                },
            },
        };
        let title = lang.format_ai_embed_title(self.emotion.emoji());
        let footer = match &self.footer_text {
            Some(f) => f.clone(),
            None => lang.format_ai_embed_footer(author_name, self.emotion.emoji()),
        };
        EmbedPlan {
            title,
            description: self.content.clone(),
            color,
            thumbnail,
            fields: Vec::new(),
            footer,
        }
    }

    /// The buttons of the reply in rows of at most five, in their order.
    pub fn build_action_rows(&self) -> (r: Vec<Vec<ButtonPlan>>)
        ensures
            r@.len() == row_count(self@.buttons.len() as int),
            forall|k: int|
                0 <= k < r@.len() ==> #[trigger] r@[k]@.len() == if k < r@.len() - 1 {
                    5int
                } else {
                    self@.buttons.len() - 5 * k
                },
            forall|i: int|
                0 <= i < self@.buttons.len() ==> {
                    let b = #[trigger] r@[i / 5]@[i % 5];
                    &&& b.custom_id@ == custom_id_of(self@.buttons[i])
                    &&& b.label@ == label_of(self@.buttons[i])
                    &&& b.style == style_of(self@.buttons[i])
                },
    {
        let mut rows: Vec<Vec<ButtonPlan>> = Vec::new();
        let mut current: Vec<ButtonPlan> = Vec::new();
        let mut i: usize = 0;
        let n = self.buttons.len();
        while i < n
            invariant
                i <= n,
                n == self.buttons@.len(),
                rows@.len() == i / 5,
                current@.len() == i % 5,
                forall|k: int| 0 <= k < rows@.len() ==> #[trigger] rows@[k]@.len() == 5,
                forall|j: int|
                    0 <= j < i - i % 5 ==> {
                        let b = #[trigger] rows@[j / 5]@[j % 5];
                        &&& b.custom_id@ == custom_id_of(self.buttons@[j])
                        &&& b.label@ == label_of(self.buttons@[j])
                        &&& b.style == style_of(self.buttons@[j])
                    },
                forall|j: int|
                    i - i % 5 <= j < i ==> {
                        let b = #[trigger] current@[j % 5];
                        &&& b.custom_id@ == custom_id_of(self.buttons@[j])
                        &&& b.label@ == label_of(self.buttons@[j])
                        &&& b.style == style_of(self.buttons@[j])
                    },
            decreases n - i,
        {
            let button = &self.buttons[i];
            let plan = ButtonPlan {
                custom_id: button.custom_id(),
                label: owned(button.label()),
                style: button.style(),
            };
            current.push(plan);
            if current.len() == BUTTONS_PER_ROW {
                let mut full: Vec<ButtonPlan> = Vec::new();
                std::mem::swap(&mut full, &mut current);
                rows.push(full);
            }
            i += 1;
        }
        if current.len() > 0 {
            rows.push(current);
        }
        rows
    }

    /// The text of the reply.
    pub fn get_content(&self) -> (r: &str)
        ensures
            r@ == self@.content,
    {
        self.content.as_str()
    }

    /// The emotion of the reply.
    pub fn get_emotion(&self) -> (r: &EmotionType)
        ensures
            *r == self@.emotion,
    {
        &self.emotion
    }

    /// The buttons of the reply.
    pub fn get_buttons(&self) -> (r: &[ButtonType])
        ensures
            r@ == self@.buttons,
    {
        self.buttons.as_slice()
    }

    /// Whether the reply has a button.
    pub fn has_buttons(&self) -> (r: bool)
        ensures
            r == (self@.buttons.len() > 0),
    {
        self.buttons.len() > 0
    }

    /// What is stored about the reply's buttons: one entry `button_<i>` for
    /// each, the emotion's name under `emotion`, and their number under
    /// `button_count`.
    pub fn get_button_metadata(&self) -> (r: StringMap)
        ensures
            text_entries(r.entries()) == metadata_for(self@),
    {
        let mut metadata = StringMap::new();
        proof {
            assert(text_entries(metadata.entries()) =~= button_metadata(self.buttons@, 0));
        }
        let mut i: usize = 0;
        while i < self.buttons.len()
            invariant
                i <= self.buttons.len(),
                text_entries(metadata.entries()) == button_metadata(self.buttons@, i as int),
            decreases self.buttons.len() - i,
        {
            let mut key = chars_of("button_");
            push_all(&mut key, &decimal_u64(i as u64));
            let key_text = string_of(&key);
            let value = self.buttons[i].metadata_value();
            proof {
                lemma_text_entries_put(metadata.entries(), key_text@, value);
            }
            metadata.insert(key_text, value);
            i += 1;
        }
        let emotion_key = owned("emotion");
        let emotion_name = owned(self.emotion.name());
        proof {
            lemma_text_entries_put(metadata.entries(), emotion_key@, emotion_name);
        }
        metadata.insert(emotion_key, emotion_name);
        let count_key = owned("button_count");
        let count = string_of(&decimal_u64(self.buttons.len() as u64));
        proof {
            lemma_text_entries_put(metadata.entries(), count_key@, count);
        }
        metadata.insert(count_key, count);
        metadata
    }
}

impl Default for AIResponseBuilder {
    fn default() -> (r: Self)
        ensures
            r@.content.len() == 0,
            r@.emotion == EmotionType::Neutral,
            r@.buttons.len() == 0,
    {
        Self::new()
    }
}

} // verus!
