//! The assistant's configuration and the steps around a model reply: which
//! messages are answered, and what reply is built from the model's text.
use vstd::prelude::*;
use crate::commands::{feedback_channel, is_feedback_channel};
use crate::emotions::{EmotionManager, EmotionType};
use crate::conversation::ConversationContext;
use crate::lang::{
    lemma_image_categories, or_else, BotImages, EmojiManager, ImageManager, LanguageManager,
};
use crate::prompt::{
    analysis_prompt_text, build_prompt, build_summary_analysis_prompt, prompt_text,
};
use crate::recovery::{
    color_of_text, is_recovery, parse_color, recover_response, summary_from_reply,
    requested_summary, AIJSONResponse, Recovered,
};
use crate::responses::{default_avatar, AIResponseBuilder, ResponseView};
use crate::text::{owned, str_eq, string_view};

verus! {

/// The channel in which the assistant answers unless configured otherwise.
pub open spec fn default_ai_channel() -> Seq<char> {
    "1400493466080903171"@
}

/// Who the assistant works for, and how it is to behave.
#[derive(Debug)]
pub struct OwnerInfo {
    pub name: String,
    pub email: String,
    pub skills: Vec<String>,
    pub bio: String,
    pub discord_id: String,
    pub personality: Option<String>,
    pub communication_style: Option<String>,
    pub specialties_focus: Option<String>,
    pub sarcasm_level: Option<String>,
    pub humor_style: Option<String>,
    pub formality: Option<String>,
    pub intelligence_display: Option<String>,
    pub response_style: Option<String>,
}

impl OwnerInfo {
    /// The owner description used when none can be loaded.
    pub fn fallback() -> (r: Self)
        ensures
            r.name@ == "TheLorian"@,
            r.email@ == "the_lorian@centaury.net"@,
            crate::lang::string_list(r.skills@) == seq!["Discord Bot Development"@, "Rust Programming"@, "Web Development"@, "Graphic Design"@, "Technology Consulting"@],
            r.bio@ == "Passionate and creative developer specialized in innovative technological solutions. Expert in creating Discord bots, web applications, and providing consulting services for unique projects."@,
            r.discord_id@ == "1400464001133056111"@,
            string_view(r.personality) == Some("Functional and direct, with adjustable humor levels like TARS. Intelligent and capable, but doesn't rub it in your face (much)."@),
            string_view(r.communication_style) == Some("Formal, precise, with a touch of elegant British sarcasm. Quick responses with confidence."@),
            string_view(r.specialties_focus) == Some("Technology solutions, bot development, and creative projects"@),
            string_view(r.sarcasm_level) == Some("Moderate"@),
            string_view(r.humor_style) == Some("British-elegant"@),
            string_view(r.formality) == Some("Professional-casual"@),
            string_view(r.intelligence_display) == Some("Subtle"@),
            string_view(r.response_style) == Some("Quick and confident"@),
    {
        let mut skills: Vec<String> = Vec::new();
        skills.push(owned("Discord Bot Development"));
        skills.push(owned("Rust Programming"));
        skills.push(owned("Web Development"));
        skills.push(owned("Graphic Design"));
        skills.push(owned("Technology Consulting"));
        proof {
            assert(crate::lang::string_list(skills@) =~= seq!["Discord Bot Development"@, "Rust Programming"@, "Web Development"@, "Graphic Design"@, "Technology Consulting"@]);
        }
        OwnerInfo {
            skills,
            name: owned("TheLorian"),
            email: owned("the_lorian@centaury.net"),
            bio: owned("Passionate and creative developer specialized in innovative technological solutions. Expert in creating Discord bots, web applications, and providing consulting services for unique projects."),
            discord_id: owned("1400464001133056111"),
            personality: Some(owned("Functional and direct, with adjustable humor levels like TARS. Intelligent and capable, but doesn't rub it in your face (much).")),
            communication_style: Some(owned("Formal, precise, with a touch of elegant British sarcasm. Quick responses with confidence.")),
            specialties_focus: Some(owned("Technology solutions, bot development, and creative projects")),
            sarcasm_level: Some(owned("Moderate")),
            humor_style: Some(owned("British-elegant")),
            formality: Some(owned("Professional-casual")),
            intelligence_display: Some(owned("Subtle")),
            response_style: Some(owned("Quick and confident")),
        }
    }
}

/// The set-up of the assistant.
#[derive(Debug)]
pub struct AIConfig {
    pub api_key: String,
    pub ai_channel_id: String,
    pub owner_info: OwnerInfo,
    pub max_context_length: usize,
}

impl AIConfig {
    /// The default set-up around an API key and an owner description.
    pub fn with_key(api_key: String, owner_info: OwnerInfo) -> (r: Self)
        ensures
            r.api_key == api_key,
            r.owner_info == owner_info,
            r.ai_channel_id@ == default_ai_channel(),
            r.max_context_length == 15,
    {
        AIConfig {
            api_key,
            ai_channel_id: owned("1400493466080903171"),
            owner_info,
            max_context_length: 15,
        }
    }
}

/// Why the assistant cannot be set up.
#[derive(Debug, Clone, Copy, PartialEq, Eq, Structural)]
pub enum AIError {
    /// No API key was given.
    MissingApiKey,
}

/// The image with the given name in the first category that has it.
pub open spec fn image_anywhere(images: BotImages, name: Seq<char>) -> Option<String> {
    or_else(
        images.avatar.value(name),
        or_else(
            images.emotions.value(name),
            or_else(
                images.reactions.value(name),
                or_else(
                    images.talking.value(name),
                    or_else(
                        images.thinking.value(name),
                        or_else(images.showing.value(name), images.misc.value(name)),
                    ),
                ),
            ),
        ),
    )
}

/// The address of the image with the given name: from the first category
/// that has it, else the first avatar, else the default address.
pub open spec fn image_url_of(images: BotImages, name: Seq<char>) -> Seq<char> {
    match image_anywhere(images, name) {
        Some(u) => u@,
        None => if images.avatar.entries().len() > 0 {
            images.avatar.entries()[0].1@
        } else {
            default_avatar()
        },
    }
}

/// The reply built from a recovery: a structured response gives the text,
/// the colour and the image; the fallback gives the text and the emotion.
pub open spec fn reply_for(rec: Recovered, images: BotImages) -> ResponseView {
    match rec {
        Recovered::Parsed(a) => structured_reply(a, images),
        Recovered::PartialRecovered(a) => structured_reply(a, images),
        Recovered::Fallback { content, emotion } => ResponseView {
            content: content@,
            emotion,
            buttons: Seq::empty(),
            thumbnail_override: None,
            footer_text: None,
            custom_color: None,
        },
    }
}

/// The reply built from a structured response.
pub open spec fn structured_reply(a: AIJSONResponse, images: BotImages) -> ResponseView {
    ResponseView {
        content: a.content@,
        emotion: EmotionType::Neutral,
        buttons: Seq::empty(),
        thumbnail_override: Some(image_url_of(images, a.thumbnail@)),
        footer_text: None,
        custom_color: Some(color_of_text(a.color@)),
    }
}

/// What is done with a message that came in.
#[derive(Debug, Clone, Copy, PartialEq, Eq, Structural)]
pub enum MessageRoute {
    /// Written by a bot: nothing is done.
    Ignored,
    /// Written in the feedback channel: it becomes a feedback card.
    Feedback,
    /// Written to the assistant: it is answered.
    Assistant,
    /// Anything else.
    Unanswered,
}

/// The assistant: its set-up and its emotion detection.
pub struct AIManager {
    config: AIConfig,
    emotion_manager: EmotionManager,
}

impl AIManager {
    /// The set-up.
    pub closed spec fn config(&self) -> AIConfig {
        self.config
    }

    /// Sets the assistant up; an empty API key is refused.
    pub fn new(config: AIConfig) -> (r: Result<Self, AIError>)
        ensures
            match r {
                Ok(m) => config.api_key@.len() > 0 && m.config() == config,
                Err(e) => config.api_key@.len() == 0 && e == AIError::MissingApiKey,
            },
    {
        if config.api_key.as_str().is_empty() {
            return Err(AIError::MissingApiKey);
        }
        Ok(AIManager { config, emotion_manager: EmotionManager::new() })
    }

    /// Whether a message is answered: one in the assistant's channel that
    /// was not written by the owner's account.
    pub fn should_process_message(&self, channel_id: &str, author_id: &str) -> (r: bool)
        ensures
            r == (channel_id@ == self.config().ai_channel_id@ && author_id@
                != self.config().owner_info.discord_id@),
    {
        str_eq(channel_id, self.config.ai_channel_id.as_str()) && !str_eq(
            author_id,
            self.config.owner_info.discord_id.as_str(),
        )
    }

    /// Decides what is done with a message: a bot's message is ignored, a
    /// message in the feedback channel becomes feedback, and of the rest
    /// the assistant answers those written in its channel by someone other
    /// than the owner.
    pub fn route_message(&self, author_is_bot: bool, channel_id: &str, author_id: &str) -> (r:
        MessageRoute)
        ensures
            r == if author_is_bot {
                MessageRoute::Ignored
            } else if channel_id@ == feedback_channel() {
                MessageRoute::Feedback
            } else if channel_id@ == self.config().ai_channel_id@ && author_id@
                != self.config().owner_info.discord_id@ {
                MessageRoute::Assistant
            } else {
                MessageRoute::Unanswered
            },
    {
        if author_is_bot {
            MessageRoute::Ignored
        } else if is_feedback_channel(channel_id) {
            MessageRoute::Feedback
        } else if self.should_process_message(channel_id, author_id) {
            MessageRoute::Assistant
        } else {
            MessageRoute::Unanswered
        }
    }

    /// The channel in which the assistant answers.
    pub fn get_ai_channel_id(&self) -> (r: &str)
        ensures
            r@ == self.config().ai_channel_id@,
    {
        self.config.ai_channel_id.as_str()
    }

    /// The account of the owner.
    pub fn get_owner_id(&self) -> (r: &str)
        ensures
            r@ == self.config().owner_info.discord_id@,
    {
        self.config.owner_info.discord_id.as_str()
    }

    /// The address of the image with the given name.
    pub fn get_image_url(thumbnail_name: &str, images: &ImageManager) -> (r: String)
        ensures
            r@ == image_url_of(images.images(), thumbnail_name@),
    {
        proof {
            lemma_image_categories(images.images());
        }
        let found0 = images.get_image("avatar", thumbnail_name);
        let found1 = images.get_image("emotions", thumbnail_name);
        let found2 = images.get_image("reactions", thumbnail_name);
        let found3 = images.get_image("talking", thumbnail_name);
        let found4 = images.get_image("thinking", thumbnail_name);
        let found5 = images.get_image("showing", thumbnail_name);
        let found6 = images.get_image("misc", thumbnail_name);
        let found = pick(
            found0,
            pick(found1, pick(found2, pick(found3, pick(found4, pick(found5, found6))))),
        );
        match found {
            Some(u) => u.clone(),
            None => match images.get_random_avatar() {
                Some(a) => a.clone(),
                None => owned("https://cdn.discordapp.com/embed/avatars/0.png"),
            },
        }
    }

    /// The reply for a recovery.
    pub fn reply_from(rec: Recovered, images: &ImageManager) -> (r: AIResponseBuilder)
        ensures
            r@ == reply_for(rec, images.images()),
    {
        match rec {
            Recovered::Parsed(a) => Self::structured_reply_from(a, images),
            Recovered::PartialRecovered(a) => Self::structured_reply_from(a, images),
            Recovered::Fallback { content, emotion } => {
                let b = AIResponseBuilder::new();
                proof {
                    assert(b@.buttons =~= Seq::empty());
                }
                b.content(content).emotion(emotion)
            },
        }
    }

    /// The reply for a structured response.
    fn structured_reply_from(a: AIJSONResponse, images: &ImageManager) -> (r: AIResponseBuilder)
        ensures
            r@ == structured_reply(a, images.images()),
    {
        let color = parse_color(a.color.as_str());
        let url = Self::get_image_url(a.thumbnail.as_str(), images);
        let b = AIResponseBuilder::new();
        proof {
            assert(b@.buttons =~= Seq::empty());
        }
        b.content(a.content).custom_color(color).thumbnail(url)
    }

    /// The reply for the text that the model returned: built from the
    /// structured response recovered from it, or, failing that, from the
    /// text itself and the emotion inferred from it.
    pub fn generate_response(&self, reply_text: &str, images: &ImageManager) -> (r:
        AIResponseBuilder)
        ensures
            exists|rec: Recovered| #[trigger]
                is_recovery(reply_text@, rec) && r@ == reply_for(rec, images.images()),
    {
        let rec = recover_response(reply_text, &self.emotion_manager);
        let ghost witness = rec;
        let r = Self::reply_from(rec, images);
        proof {
            assert(is_recovery(reply_text@, witness) && r@ == reply_for(witness, images.images()));
        }
        r
    }

    /// The prompt for a reply to `user_message`.
    pub fn build_prompt(
        &self,
        user_message: &str,
        context: Option<&ConversationContext>,
        emojis: &EmojiManager,
        lang: &LanguageManager,
    ) -> (r: String)
        ensures
            r@ == prompt_text(&self.config().owner_info, lang, emojis, context, user_message@),
    {
        build_prompt(&self.config.owner_info, lang, emojis, context, user_message)
    }

    /// The prompt for a summary analysis of a context.
    pub fn build_summary_analysis_prompt(&self, context: &ConversationContext) -> (r: String)
        ensures
            r@ == analysis_prompt_text(context),
    {
        build_summary_analysis_prompt(context)
    }

    /// Whether a context is worth a summary analysis: it holds a message.
    pub fn wants_summary_analysis(context: &ConversationContext) -> (r: bool)
        ensures
            r == (context.messages@.len() > 0),
    {
        !context.is_empty()
    }

    /// The summary that the model's reply to a summary analysis asks to
    /// store, if it asks for an update.
    pub fn analyze_user_summary(reply_text: &str) -> (r: Option<String>)
        ensures
            match r {
                Some(s) => requested_summary(reply_text@) == Some(s@),
                None => requested_summary(reply_text@).is_none(),
            },
    {
        summary_from_reply(reply_text)
    }
}

/// The first of two optional images that is present.
fn pick<'a>(a: Option<&'a String>, b: Option<&'a String>) -> (r: Option<&'a String>)
    ensures
        r == or_else(a, b),
{
    if a.is_some() {
        a
    } else {
        b
    }
}

} // verus!
