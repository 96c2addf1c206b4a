//! The texts that the assistant shows, grouped as in its language file, and
//! the catalogues of images and emojis.
use vstd::prelude::*;
use crate::text::views;
use crate::store::StringMap;
use crate::text::{
    chars_of, decimal, decimal_i64, decimal_int, decimal_u64, fill, find_char, find_char_exec,
    push_text, replace_all, slice_of, str_eq, string_of,
};

verus! {

/// All texts, by area.
#[derive(Debug, Default)]
pub struct Messages {
    pub commands: Commands,
    pub responses: Responses,
    pub embeds: Embeds,
    pub errors: Errors,
    pub system: System,
    pub ai: AISystem,
    pub commission: CommissionSystem,
    pub ticket: TicketSystem,
    pub feedback: FeedbackSystem,
}

/// Texts of the `Commands` group.
#[derive(Debug, Default)]
pub struct Commands {
    pub ping: CommandInfo,
    pub info: CommandInfo,
    pub hello: CommandInfo,
    pub help: CommandInfo,
    pub images: CommandInfo,
    pub userinfo: CommandInfo,
    pub stats: CommandInfo,
    pub purge: CommandInfo,
    pub reminder: CommandInfo,
    pub commission_setup: CommandInfo,
    pub commission_close: CommandInfo,
    pub ticket_setup: CommandInfo,
    pub ticket_close: CommandInfo,
    pub feedback_setup: CommandInfo,
}

/// Texts of the `CommandInfo` group.
#[derive(Debug, Default)]
pub struct CommandInfo {
    pub name: String,
    pub description: String,
}

/// Texts of the `Responses` group.
#[derive(Debug, Default)]
pub struct Responses {
    pub ping: String,
    pub info: String,
    pub hello: String,
    pub help: String,
    pub unknown_command: String,
}

/// Texts of the `Embeds` group.
#[derive(Debug, Default)]
pub struct Embeds {
    pub ping: PingEmbed,
    pub images: ImagesEmbed,
    pub userinfo: UserInfoEmbed,
    pub purge: PurgeEmbed,
    pub reminder: ReminderEmbed,
    pub reminder_notification: ReminderNotificationEmbed,
    pub help: HelpEmbed,
    pub commission: CommissionEmbed,
    pub commission_created: CommissionCreatedEmbed,
    pub commission_closed: CommissionClosedEmbed,
}

/// Texts of the `PingEmbed` group.
#[derive(Debug, Default)]
pub struct PingEmbed {
    pub title: String,
    pub description: String,
    pub latency_field: String,
    pub uptime_field: String,
    pub memory_field: String,
    pub latency_value: String,
    pub uptime_value: String,
    pub memory_value: String,
    pub footer: String,
    pub thumbnail: String,
}

/// Texts of the `ImagesEmbed` group.
#[derive(Debug, Default)]
pub struct ImagesEmbed {
    pub title: String,
    pub description: String,
    pub footer: String,
}

/// Texts of the `UserInfoEmbed` group.
#[derive(Debug, Default)]
pub struct UserInfoEmbed {
    pub title: String,
    pub description: String,
    pub user_id_field: String,
    pub account_created_field: String,
    pub server_joined_field: String,
    pub roles_field: String,
    pub ai_summary_field: String,
    pub no_ai_summary: String,
    pub status_field: String,
    pub activities_field: String,
    pub premium_field: String,
    pub no_roles: String,
    pub no_activities: String,
    pub no_premium: String,
    pub footer: String,
    pub thumbnail: String,
}

/// Texts of the `PurgeEmbed` group.
#[derive(Debug, Default)]
pub struct PurgeEmbed {
    pub title: String,
    pub description: String,
    pub success_message: String,
    pub error_permission: String,
    pub error_invalid_amount: String,
    pub error_failed: String,
    pub footer: String,
}

/// Texts of the `ReminderEmbed` group.
#[derive(Debug, Default)]
pub struct ReminderEmbed {
    pub title: String,
    pub description: String,
    pub success_message: String,
    pub time_field: String,
    pub message_field: String,
    pub channel_field: String,
    pub visibility_field: String,
    pub mention_field: String,
    pub status_field: String,
    pub error_invalid_time: String,
    pub error_no_channel: String,
    pub error_permission: String,
    pub error_failed: String,
    pub footer: String,
    pub visibility_public: String,
    pub visibility_private: String,
    pub mention_none: String,
    pub mention_creator: String,
    pub mention_everyone: String,
    pub status_enabled: String,
    pub status_disabled: String,
}

/// Texts of the `ReminderNotificationEmbed` group.
#[derive(Debug, Default)]
pub struct ReminderNotificationEmbed {
    pub title: String,
    pub description: String,
    pub user_field: String,
    pub created_field: String,
    pub footer: String,
}

/// Texts of the `HelpEmbed` group.
#[derive(Debug, Default)]
pub struct HelpEmbed {
    pub title: String,
    pub description: String,
    pub footer: String,
    pub select_placeholder: String,
    pub select_description: String,
    pub commands: HelpCommands,
}

/// Texts of the `HelpCommands` group.
#[derive(Debug, Default)]
pub struct HelpCommands {
    pub ping: HelpCommand,
    pub info: HelpCommand,
    pub hello: HelpCommand,
    pub stats: HelpCommand,
    pub images: HelpCommand,
    pub userinfo: HelpCommand,
    pub purge: HelpCommand,
    pub reminder: HelpCommand,
    pub commission_setup: HelpCommand,
    pub commission_close: HelpCommand,
}

/// Texts of the `HelpCommand` group.
#[derive(Debug, Default)]
pub struct HelpCommand {
    pub title: String,
    pub description: String,
    pub usage: String,
    pub details: String,
}

/// Texts of the `Errors` group.
#[derive(Debug, Default)]
pub struct Errors {
    pub client_creation: String,
    pub bot_start: String,
    pub token_missing: String,
}

/// Texts of the `System` group.
#[derive(Debug, Default)]
pub struct System {
    pub bot_connected: String,
}

/// Texts of the `AISystem` group.
#[derive(Debug, Default)]
pub struct AISystem {
    pub embeds: AIEmbeds,
    pub emotions: AIEmotions,
    pub prompt: AIPrompt,
    pub messages: AIMessages,
    pub data: AIData,
}

/// Texts of the `AIEmbeds` group.
#[derive(Debug, Default)]
pub struct AIEmbeds {
    pub title_format: String,
    pub footer_format: String,
    pub no_context: String,
}

/// Texts of the `AIEmotions` group.
#[derive(Debug, Default)]
pub struct AIEmotions {
    pub happy: String,
    pub excited: String,
    pub helpful: String,
    pub thoughtful: String,
    pub curious: String,
    pub friendly: String,
    pub professional: String,
    pub creative: String,
    pub encouraging: String,
    pub neutral: String,
}

/// Texts of the `AIPrompt` group.
#[derive(Debug, Default)]
pub struct AIPrompt {
    pub system_intro: String,
    pub owner_name_label: String,
    pub owner_email_label: String,
    pub owner_skills_label: String,
    pub owner_bio_label: String,
    pub assistant_instruction: String,
    pub emojis_header: String,
    pub emoji_active_status: String,
    pub emoji_alert: String,
    pub emoji_warning: String,
    pub emoji_correct: String,
    pub emoji_yes: String,
    pub emoji_no: String,
    pub emoji_happy: String,
    pub emoji_love: String,
    pub emoji_thanks: String,
    pub emoji_programming: String,
    pub emoji_java: String,
    pub emoji_success: String,
    pub emoji_great: String,
    pub emoji_art: String,
    pub emoji_star: String,
    pub emoji_stats: String,
    pub emojis_instruction: String,
    pub context_header: String,
    pub user_message_format: String,
}

/// Texts of the `AIMessages` group.
#[derive(Debug, Default)]
pub struct AIMessages {
    pub context_saved: String,
    pub response_generated: String,
    pub error_generating: String,
    pub error_saving_context: String,
}

/// Texts of the `AIData` group.
#[derive(Debug, Default)]
pub struct AIData {
    pub stats_header: String,
    pub button_messages_label: String,
    pub conversations_label: String,
    pub total_messages_label: String,
    pub last_updated_label: String,
}

/// Texts of the `CommissionEmbed` group.
#[derive(Debug, Default)]
pub struct CommissionEmbed {
    pub title: String,
    pub description: String,
    pub how_it_works_title: String,
    pub how_it_works_step1: String,
    pub how_it_works_step2: String,
    pub how_it_works_step3: String,
    pub how_it_works_step4: String,
    pub services_title: String,
    pub services_web: String,
    pub services_design: String,
    pub services_programming: String,
    pub services_consulting: String,
    pub contact_info: String,
    pub footer: String,
    pub button_text: String,
}

/// Texts of the `CommissionCreatedEmbed` group.
#[derive(Debug, Default)]
pub struct CommissionCreatedEmbed {
    pub title: String,
    pub description: String,
    pub welcome_message: String,
    pub next_steps_title: String,
    pub next_steps_1: String,
    pub next_steps_2: String,
    pub next_steps_3: String,
    pub next_steps_4: String,
    pub contact_info_field: String,
    pub contact_info_value: String,
    pub close_button_text: String,
    pub footer: String,
}

/// Texts of the `CommissionClosedEmbed` group.
#[derive(Debug, Default)]
pub struct CommissionClosedEmbed {
    pub title: String,
    pub description: String,
    pub closed_by_field: String,
    pub closed_at_field: String,
    pub contact_reminder: String,
    pub footer: String,
}

/// Texts of the `CommissionSystem` group.
#[derive(Debug, Default)]
pub struct CommissionSystem {
    pub messages: CommissionMessages,
}

/// Texts of the `CommissionMessages` group.
#[derive(Debug, Default)]
pub struct CommissionMessages {
    pub setup_success: String,
    pub setup_error_permission: String,
    pub setup_error_channel: String,
    pub channel_created: String,
    pub channel_creation_failed: String,
    pub close_success: String,
    pub close_error_not_commission: String,
    pub close_error_permission: String,
    pub close_error_failed: String,
    pub already_has_commission: String,
}

/// Texts of the `TicketSystem` group.
#[derive(Debug, Default)]
pub struct TicketSystem {
    pub embeds: TicketEmbeds,
    pub messages: TicketMessages,
}

/// Texts of the `TicketEmbeds` group.
#[derive(Debug, Default)]
pub struct TicketEmbeds {
    pub setup: TicketSetupEmbed,
    pub created: TicketCreatedEmbed,
}

/// Texts of the `TicketSetupEmbed` group.
#[derive(Debug, Default)]
pub struct TicketSetupEmbed {
    pub title: String,
    pub description: String,
    pub button_text: String,
    pub footer: String,
    pub thumbnail: String,
}

/// Texts of the `TicketCreatedEmbed` group.
#[derive(Debug, Default)]
pub struct TicketCreatedEmbed {
    pub title: String,
    pub description: String,
    pub footer: String,
    pub close_button_text: String,
}

/// Texts of the `TicketMessages` group.
#[derive(Debug, Default)]
pub struct TicketMessages {
    pub setup_success: String,
    pub setup_error_permission: String,
    pub setup_error_channel: String,
    pub channel_created: String,
    pub channel_creation_failed: String,
    pub close_success: String,
    pub close_error_not_ticket: String,
    pub close_error_permission: String,
    pub close_error_failed: String,
    pub already_has_ticket: String,
    pub owner_notification: String,
}

/// Texts of the `FeedbackSystem` group.
#[derive(Debug, Default)]
pub struct FeedbackSystem {
    pub embeds: FeedbackEmbeds,
    pub messages: FeedbackMessages,
}

/// Texts of the `FeedbackEmbeds` group.
#[derive(Debug, Default)]
pub struct FeedbackEmbeds {
    pub setup: FeedbackSetupEmbed,
    pub message: FeedbackMessageEmbed,
}

/// Texts of the `FeedbackSetupEmbed` group.
#[derive(Debug, Default)]
pub struct FeedbackSetupEmbed {
    pub title: String,
    pub description: String,
    pub how_it_works_title: String,
    pub how_it_works_step1: String,
    pub how_it_works_step2: String,
    pub how_it_works_step3: String,
    pub how_it_works_step4: String,
    pub rating_system_title: String,
    pub rating_upvote: String,
    pub rating_downvote: String,
    pub rating_stars: String,
    pub footer: String,
    pub thumbnail: String,
}

/// Texts of the `FeedbackMessageEmbed` group.
#[derive(Debug, Default)]
pub struct FeedbackMessageEmbed {
    pub title: String,
    pub rating_field: String,
    pub footer: String,
}

/// Texts of the `FeedbackMessages` group.
#[derive(Debug, Default)]
pub struct FeedbackMessages {
    pub setup_error_permission_title: String,
    pub setup_error_permission: String,
    pub setup_success_title: String,
    pub setup_success: String,
    pub setup_success_footer: String,
    pub content_filtered: String,
    pub no_votes_yet: String,
}

/// Image addresses by category and name.
#[derive(Debug, Default)]
pub struct BotImages {
    pub avatar: StringMap,
    pub emotions: StringMap,
    pub reactions: StringMap,
    pub talking: StringMap,
    pub thinking: StringMap,
    pub showing: StringMap,
    pub misc: StringMap,
    pub defaults: StringMap,
}

/// Emoji codes by category and name.
#[derive(Debug, Default)]
pub struct BotEmojis {
    pub status: StringMap,
    pub confirmations: StringMap,
    pub emotions: StringMap,
    pub technology: StringMap,
    pub actions: StringMap,
    pub interface: StringMap,
    pub defaults: StringMap,
}

/// Gives out the texts and fills their placeholders.
pub struct LanguageManager {
    messages: Messages,
}

/// Looks images up by category and name.
pub struct ImageManager {
    images: BotImages,
}

/// Looks emojis up by category and name.
pub struct EmojiManager {
    emojis: BotEmojis,
}

impl LanguageManager {
    /// The texts.
    pub closed spec fn messages(&self) -> Messages {
        self.messages
    }

    /// A manager over the given texts.
    pub fn from_messages(messages: Messages) -> (r: Self)
        ensures
            r.messages() == messages,
    {
        LanguageManager { messages }
    }

    /// The texts.
    pub fn get(&self) -> (r: &Messages)
        ensures
            *r == self.messages(),
    {
        &self.messages
    }

    /// The `responses.hello` text with `{username}` filled in.
    pub fn format_hello(&self, username: &str) -> (r: String)
        ensures
            r@ == replace_all(self.messages().responses.hello@, "{username}"@, username@),
    {
        proof {
            reveal_strlit("{username}");
        }
        fill(self.messages.responses.hello.as_str(), "{username}", username)
    }

    /// The `system.bot_connected` text with `{bot_name}` filled in.
    pub fn format_bot_connected(&self, bot_name: &str) -> (r: String)
        ensures
            r@ == replace_all(self.messages().system.bot_connected@, "{bot_name}"@, bot_name@),
    {
        proof {
            reveal_strlit("{bot_name}");
        }
        fill(self.messages.system.bot_connected.as_str(), "{bot_name}", bot_name)
    }

    /// The `embeds.ping.latency_value` text with `{latency}` filled in.
    pub fn format_ping_embed_latency(&self, latency: u64) -> (r: String)
        ensures
            r@ == replace_all(
                self.messages().embeds.ping.latency_value@,
                "{latency}"@,
                decimal(latency as nat),
            ),
    {
        proof {
            reveal_strlit("{latency}");
        }
        let latency_text = string_of(&decimal_u64(latency as u64));
        fill(self.messages.embeds.ping.latency_value.as_str(), "{latency}", latency_text.as_str())
    }

    /// The `embeds.ping.uptime_value` text with `{uptime}` filled in.
    pub fn format_ping_embed_uptime(&self, uptime: &str) -> (r: String)
        ensures
            r@ == replace_all(self.messages().embeds.ping.uptime_value@, "{uptime}"@, uptime@),
    {
        proof {
            reveal_strlit("{uptime}");
        }
        fill(self.messages.embeds.ping.uptime_value.as_str(), "{uptime}", uptime)
    }

    /// The `embeds.images.footer` text with `{total_images}` filled in.
    pub fn format_images_embed_footer(&self, total_images: usize) -> (r: String)
        ensures
            r@ == replace_all(
                self.messages().embeds.images.footer@,
                "{total_images}"@,
                decimal(total_images as nat),
            ),
    {
        proof {
            reveal_strlit("{total_images}");
        }
        let total_images_text = string_of(&decimal_u64(total_images as u64));
        fill(
            self.messages.embeds.images.footer.as_str(),
            "{total_images}",
            total_images_text.as_str(),
        )
    }

    /// The `embeds.userinfo.description` text with `{username}` filled in.
    pub fn format_userinfo_embed_description(&self, username: &str) -> (r: String)
        ensures
            r@ == replace_all(
                self.messages().embeds.userinfo.description@,
                "{username}"@,
                username@,
            ),
    {
        proof {
            reveal_strlit("{username}");
        }
        fill(self.messages.embeds.userinfo.description.as_str(), "{username}", username)
    }

    /// The `embeds.userinfo.footer` text with `{requester}` filled in.
    pub fn format_userinfo_embed_footer(&self, requester: &str) -> (r: String)
        ensures
            r@ == replace_all(self.messages().embeds.userinfo.footer@, "{requester}"@, requester@),
    {
        proof {
            reveal_strlit("{requester}");
        }
        fill(self.messages.embeds.userinfo.footer.as_str(), "{requester}", requester)
    }

    /// The `ai.embeds.title_format` text with `{emoji}` filled in.
    pub fn format_ai_embed_title(&self, emoji: &str) -> (r: String)
        ensures
            r@ == replace_all(self.messages().ai.embeds.title_format@, "{emoji}"@, emoji@),
    {
        proof {
            reveal_strlit("{emoji}");
        }
        fill(self.messages.ai.embeds.title_format.as_str(), "{emoji}", emoji)
    }

    /// The `ai.embeds.footer_format` text with `{username}`, `{emotion_emoji}` filled in.
    pub fn format_ai_embed_footer(&self, username: &str, emotion_emoji: &str) -> (r: String)
        ensures
            r@ == replace_all(
                replace_all(self.messages().ai.embeds.footer_format@, "{username}"@, username@),
                "{emotion_emoji}"@,
                emotion_emoji@,
            ),
    {
        proof {
            reveal_strlit("{username}");
            reveal_strlit("{emotion_emoji}");
        }
        let step0 = fill(self.messages.ai.embeds.footer_format.as_str(), "{username}", username);
        fill(step0.as_str(), "{emotion_emoji}", emotion_emoji)
    }

    /// The `ai.prompt.system_intro` text with `{owner_name}` filled in.
    pub fn format_ai_prompt_system_intro(&self, owner_name: &str) -> (r: String)
        ensures
            r@ == replace_all(
                self.messages().ai.prompt.system_intro@,
                "{owner_name}"@,
                owner_name@,
            ),
    {
        proof {
            reveal_strlit("{owner_name}");
        }
        fill(self.messages.ai.prompt.system_intro.as_str(), "{owner_name}", owner_name)
    }

    /// The `ai.prompt.assistant_instruction` text with `{owner_name}` filled in.
    pub fn format_ai_prompt_assistant_instruction(&self, owner_name: &str) -> (r: String)
        ensures
            r@ == replace_all(
                self.messages().ai.prompt.assistant_instruction@,
                "{owner_name}"@,
                owner_name@,
            ),
    {
        proof {
            reveal_strlit("{owner_name}");
        }
        fill(self.messages.ai.prompt.assistant_instruction.as_str(), "{owner_name}", owner_name)
    }

    /// The `ai.prompt.user_message_format` text with `{message}` filled in.
    pub fn format_ai_prompt_user_message(&self, message: &str) -> (r: String)
        ensures
            r@ == replace_all(
                self.messages().ai.prompt.user_message_format@,
                "{message}"@,
                message@,
            ),
    {
        proof {
            reveal_strlit("{message}");
        }
        fill(self.messages.ai.prompt.user_message_format.as_str(), "{message}", message)
    }

    /// The `ai.messages.context_saved` text with `{user_id}` filled in.
    pub fn format_ai_context_saved(&self, user_id: &str) -> (r: String)
        ensures
            r@ == replace_all(self.messages().ai.messages.context_saved@, "{user_id}"@, user_id@),
    {
        proof {
            reveal_strlit("{user_id}");
        }
        fill(self.messages.ai.messages.context_saved.as_str(), "{user_id}", user_id)
    }

    /// The `ai.messages.response_generated` text with `{username}`, `{channel_id}` filled in.
    pub fn format_ai_response_generated(&self, username: &str, channel_id: &str) -> (r: String)
        ensures
            r@ == replace_all(
                replace_all(
                    self.messages().ai.messages.response_generated@,
                    "{username}"@,
                    username@,
                ),
                "{channel_id}"@,
                channel_id@,
            ),
    {
        proof {
            reveal_strlit("{username}");
            reveal_strlit("{channel_id}");
        }
        let step0 = fill(
            self.messages.ai.messages.response_generated.as_str(),
            "{username}",
            username,
        );
        fill(step0.as_str(), "{channel_id}", channel_id)
    }

    /// The `ai.messages.error_generating` text with `{error}` filled in.
    pub fn format_ai_error_generating(&self, error: &str) -> (r: String)
        ensures
            r@ == replace_all(self.messages().ai.messages.error_generating@, "{error}"@, error@),
    {
        proof {
            reveal_strlit("{error}");
        }
        fill(self.messages.ai.messages.error_generating.as_str(), "{error}", error)
    }

    /// The `ai.messages.error_saving_context` text with `{error}` filled in.
    pub fn format_ai_error_saving_context(&self, error: &str) -> (r: String)
        ensures
            r@ == replace_all(
                self.messages().ai.messages.error_saving_context@,
                "{error}"@,
                error@,
            ),
    {
        proof {
            reveal_strlit("{error}");
        }
        fill(self.messages.ai.messages.error_saving_context.as_str(), "{error}", error)
    }

    /// The `embeds.purge.success_message` text with `{count}` filled in.
    pub fn format_purge_success(&self, count: u64) -> (r: String)
        ensures
            r@ == replace_all(
                self.messages().embeds.purge.success_message@,
                "{count}"@,
                decimal(count as nat),
            ),
    {
        proof {
            reveal_strlit("{count}");
        }
        let count_text = string_of(&decimal_u64(count as u64));
        fill(self.messages.embeds.purge.success_message.as_str(), "{count}", count_text.as_str())
    }

    /// The `embeds.purge.footer` text with `{count}` filled in.
    pub fn format_purge_footer(&self, count: u64) -> (r: String)
        ensures
            r@ == replace_all(
                self.messages().embeds.purge.footer@,
                "{count}"@,
                decimal(count as nat),
            ),
    {
        proof {
            reveal_strlit("{count}");
        }
        let count_text = string_of(&decimal_u64(count as u64));
        fill(self.messages.embeds.purge.footer.as_str(), "{count}", count_text.as_str())
    }

    /// The `embeds.purge.error_failed` text with `{error}` filled in.
    pub fn format_purge_error_failed(&self, error: &str) -> (r: String)
        ensures
            r@ == replace_all(self.messages().embeds.purge.error_failed@, "{error}"@, error@),
    {
        proof {
            reveal_strlit("{error}");
        }
        fill(self.messages.embeds.purge.error_failed.as_str(), "{error}", error)
    }

    /// The `embeds.reminder.success_message` text with `{time}` filled in.
    pub fn format_reminder_success(&self, time: &str) -> (r: String)
        ensures
            r@ == replace_all(self.messages().embeds.reminder.success_message@, "{time}"@, time@),
    {
        proof {
            reveal_strlit("{time}");
        }
        fill(self.messages.embeds.reminder.success_message.as_str(), "{time}", time)
    }

    /// The `embeds.reminder.footer` text with `{id}` filled in.
    pub fn format_reminder_footer(&self, id: &str) -> (r: String)
        ensures
            r@ == replace_all(self.messages().embeds.reminder.footer@, "{id}"@, id@),
    {
        proof {
            reveal_strlit("{id}");
        }
        fill(self.messages.embeds.reminder.footer.as_str(), "{id}", id)
    }

    /// The `embeds.reminder.error_failed` text with `{error}` filled in.
    pub fn format_reminder_error_failed(&self, error: &str) -> (r: String)
        ensures
            r@ == replace_all(self.messages().embeds.reminder.error_failed@, "{error}"@, error@),
    {
        proof {
            reveal_strlit("{error}");
        }
        fill(self.messages.embeds.reminder.error_failed.as_str(), "{error}", error)
    }

    /// The `commission.messages.setup_success` text with `{channel}` filled in.
    pub fn format_commission_setup_success(&self, channel: &str) -> (r: String)
        ensures
            r@ == replace_all(
                self.messages().commission.messages.setup_success@,
                "{channel}"@,
                channel@,
            ),
    {
        proof {
            reveal_strlit("{channel}");
        }
        fill(self.messages.commission.messages.setup_success.as_str(), "{channel}", channel)
    }

    /// The `commission.messages.channel_created` text with `{username}` filled in.
    pub fn format_commission_channel_created(&self, username: &str) -> (r: String)
        ensures
            r@ == replace_all(
                self.messages().commission.messages.channel_created@,
                "{username}"@,
                username@,
            ),
    {
        proof {
            reveal_strlit("{username}");
        }
        fill(self.messages.commission.messages.channel_created.as_str(), "{username}", username)
    }

    /// The `commission.messages.channel_creation_failed` text with `{error}` filled in.
    pub fn format_commission_channel_creation_failed(&self, error: &str) -> (r: String)
        ensures
            r@ == replace_all(
                self.messages().commission.messages.channel_creation_failed@,
                "{error}"@,
                error@,
            ),
    {
        proof {
            reveal_strlit("{error}");
        }
        fill(self.messages.commission.messages.channel_creation_failed.as_str(), "{error}", error)
    }

    /// The text that confirms a closed commission.
    pub fn format_commission_close_success(&self) -> (r: String)
        ensures
            r@ == self.messages().commission.messages.close_success@,
    {
        self.messages.commission.messages.close_success.clone()
    }

    /// The `commission.messages.close_error_failed` text with `{error}` filled in.
    pub fn format_commission_close_error_failed(&self, error: &str) -> (r: String)
        ensures
            r@ == replace_all(
                self.messages().commission.messages.close_error_failed@,
                "{error}"@,
                error@,
            ),
    {
        proof {
            reveal_strlit("{error}");
        }
        fill(self.messages.commission.messages.close_error_failed.as_str(), "{error}", error)
    }

    /// The `commission.messages.already_has_commission` text with `{channel}` filled in.
    pub fn format_commission_already_exists(&self, channel: &str) -> (r: String)
        ensures
            r@ == replace_all(
                self.messages().commission.messages.already_has_commission@,
                "{channel}"@,
                channel@,
            ),
    {
        proof {
            reveal_strlit("{channel}");
        }
        fill(
            self.messages.commission.messages.already_has_commission.as_str(),
            "{channel}",
            channel,
        )
    }

    /// The statistics block: the header and the four labelled counts, one
    /// per line.
    pub fn format_ai_data_stats(
        &self,
        button_count: usize,
        conversation_count: usize,
        total_messages: usize,
        timestamp: i64,
    ) -> (r: String)
        ensures
            r@ == self.messages().ai.data.stats_header@ + seq!['\n'] + replace_all(
                self.messages().ai.data.button_messages_label@,
                "{count}"@,
                decimal(button_count as nat),
            ) + seq!['\n'] + replace_all(
                self.messages().ai.data.conversations_label@,
                "{count}"@,
                decimal(conversation_count as nat),
            ) + seq!['\n'] + replace_all(
                self.messages().ai.data.total_messages_label@,
                "{count}"@,
                decimal(total_messages as nat),
            ) + seq!['\n'] + replace_all(
                self.messages().ai.data.last_updated_label@,
                "{timestamp}"@,
                decimal_int(timestamp as int),
            ),
    {
        proof {
            reveal_strlit("{count}");
            reveal_strlit("{timestamp}");
        }
        let data = &self.messages.ai.data;
        let buttons = string_of(&decimal_u64(button_count as u64));
        let conversations = string_of(&decimal_u64(conversation_count as u64));
        let total = string_of(&decimal_u64(total_messages as u64));
        let stamp = string_of(&decimal_i64(timestamp));
        let line1 = fill(data.button_messages_label.as_str(), "{count}", buttons.as_str());
        let line2 = fill(data.conversations_label.as_str(), "{count}", conversations.as_str());
        let line3 = fill(data.total_messages_label.as_str(), "{count}", total.as_str());
        let line4 = fill(data.last_updated_label.as_str(), "{timestamp}", stamp.as_str());
        let mut out = chars_of(data.stats_header.as_str());
        out.push('\n');
        push_text(&mut out, line1.as_str());
        out.push('\n');
        push_text(&mut out, line2.as_str());
        out.push('\n');
        push_text(&mut out, line3.as_str());
        out.push('\n');
        push_text(&mut out, line4.as_str());
        string_of(&out)
    }
}

/// The image catalogue of a category, if the category exists.
pub open spec fn image_store(images: BotImages, category: Seq<char>) -> Option<StringMap> {
    if category == "avatar"@ {
        Some(images.avatar)
    } else if category == "emotions"@ {
        Some(images.emotions)
    } else if category == "reactions"@ {
        Some(images.reactions)
    } else if category == "talking"@ {
        Some(images.talking)
    } else if category == "thinking"@ {
        Some(images.thinking)
    } else if category == "showing"@ {
        Some(images.showing)
    } else if category == "misc"@ {
        Some(images.misc)
    } else {
        None
    }
}

/// The image stored under a category and a name.
pub open spec fn image_of(images: BotImages, category: Seq<char>, name: Seq<char>) -> Option<
    String,
> {
    match image_store(images, category) {
        Some(s) => s.value(name),
        None => None,
    }
}

/// The image for a situation: the default entry names it as
/// `category.name`, or, without a dot, names another default entry.
pub open spec fn default_image_of(images: BotImages, situation: Seq<char>) -> Option<String> {
    match images.defaults.value(situation) {
        None => None,
        Some(reference) => match find_char(reference@, '.', 0) {
            Some(dot) => image_of(
                images,
                reference@.subrange(0, dot),
                reference@.subrange(dot + 1, reference@.len() as int),
            ),
            None => images.defaults.value(reference@),
        },
    }
}

/// Each image category names its own catalogue.
pub proof fn lemma_image_categories(images: BotImages)
    ensures
        image_store(images, "avatar"@) == Some(images.avatar),
        image_store(images, "emotions"@) == Some(images.emotions),
        image_store(images, "reactions"@) == Some(images.reactions),
        image_store(images, "talking"@) == Some(images.talking),
        image_store(images, "thinking"@) == Some(images.thinking),
        image_store(images, "showing"@) == Some(images.showing),
        image_store(images, "misc"@) == Some(images.misc),
{
    reveal_strlit("avatar");
    reveal_strlit("emotions");
    reveal_strlit("reactions");
    reveal_strlit("talking");
    reveal_strlit("thinking");
    reveal_strlit("showing");
    reveal_strlit("misc");
    assert("avatar"@.len() == 6);
    assert("emotions"@.len() == 8);
    assert("reactions"@.len() == 9);
    assert("talking"@.len() == 7);
    assert("thinking"@.len() == 8);
    assert("showing"@.len() == 7);
    assert("misc"@.len() == 4);
    assert("thinking"@[0] != "emotions"@[0]);
    assert("showing"@[0] != "talking"@[0]);
}

/// The emoji catalogue of a category, if the category exists.
pub open spec fn emoji_store(emojis: BotEmojis, category: Seq<char>) -> Option<StringMap> {
    if category == "status"@ {
        Some(emojis.status)
    } else if category == "confirmations"@ {
        Some(emojis.confirmations)
    } else if category == "emotions"@ {
        Some(emojis.emotions)
    } else if category == "technology"@ {
        Some(emojis.technology)
    } else if category == "actions"@ {
        Some(emojis.actions)
    } else if category == "interface"@ {
        Some(emojis.interface)
    } else {
        None
    }
}

/// The emoji stored under a category and a name.
pub open spec fn emoji_of(emojis: BotEmojis, category: Seq<char>, name: Seq<char>) -> Option<
    String,
> {
    match emoji_store(emojis, category) {
        Some(s) => s.value(name),
        None => None,
    }
}

/// The first of two optional values that is present.
pub open spec fn or_else<T>(a: Option<T>, b: Option<T>) -> Option<T> {
    if a.is_some() {
        a
    } else {
        b
    }
}

/// The emoji under `name` in the first catalogue that has it: the defaults,
/// then the categories in their order.
pub open spec fn emoji_anywhere(emojis: BotEmojis, name: Seq<char>) -> Option<String> {
    or_else(
        emojis.defaults.value(name),
        or_else(
            emojis.status.value(name),
            or_else(
                emojis.confirmations.value(name),
                or_else(
                    emojis.emotions.value(name),
                    or_else(
                        emojis.technology.value(name),
                        or_else(emojis.actions.value(name), emojis.interface.value(name)),
                    ),
                ),
            ),
        ),
    )
}

/// The emoji for a situation: the default entry names it as
/// `category.name`, or, without a dot, by a name that is looked up everywhere.
pub open spec fn default_emoji_of(emojis: BotEmojis, situation: Seq<char>) -> Option<String> {
    match emojis.defaults.value(situation) {
        None => None,
        Some(reference) => match find_char(reference@, '.', 0) {
            Some(dot) => emoji_of(
                emojis,
                reference@.subrange(0, dot),
                reference@.subrange(dot + 1, reference@.len() as int),
            ),
            None => emoji_anywhere(emojis, reference@),
        },
    }
}

/// The text of the default emoji for a situation, or `fallback` without one.
pub open spec fn emoji_text_or(emojis: BotEmojis, situation: Seq<char>, fallback: Seq<char>) -> Seq<
    char,
> {
    match default_emoji_of(emojis, situation) {
        Some(s) => s@,
        None => fallback,
    }
}

/// The keys of a catalogue, in order.
pub open spec fn key_views(m: StringMap) -> Seq<Seq<char>> {
    Seq::new(m.entries().len(), |i: int| m.entries()[i].0)
}

/// The texts of a list of owned strings.
pub open spec fn string_list(v: Seq<String>) -> Seq<Seq<char>> {
    Seq::new(v.len(), |i: int| v[i]@)
}

/// The views of a list of strings.
pub open spec fn string_views(v: Seq<&String>) -> Seq<Seq<char>> {
    Seq::new(v.len(), |i: int| v[i]@)
}

/// The keys of a catalogue, in order.
pub fn keys_of(m: &StringMap) -> (r: Vec<&String>)
    ensures
        string_views(r@) == key_views(*m),
{
    let mut out: Vec<&String> = Vec::new();
    let mut i: usize = 0;
    while i < m.len()
        invariant
            i <= m.entries().len(),
            out.len() == i,
            forall|j: int| 0 <= j < i ==> out[j]@ == m.entries()[j].0,
        decreases m.entries().len() - i,
    {
        out.push(m.key_at(i));
        i += 1;
    }
    proof {
        assert(string_views(out@) =~= key_views(*m));
    }
    out
}

/// The optional value `a`, or else `b`.
fn first_of<'a>(a: Option<&'a String>, b: Option<&'a String>) -> (r: Option<&'a String>)
    ensures
        r == or_else(a, b),
{
    if a.is_some() {
        a
    } else {
        b
    }
}

impl ImageManager {
    /// The catalogue.
    pub closed spec fn images(&self) -> BotImages {
        self.images
    }

    /// A manager over the given catalogue.
    pub fn from_images(images: BotImages) -> (r: Self)
        ensures
            r.images() == images,
    {
        ImageManager { images }
    }

    /// The catalogue of a category.
    fn store_of(&self, category: &str) -> (r: Option<&StringMap>)
        ensures
            match r {
                Some(s) => image_store(self.images(), category@) == Some(*s),
                None => image_store(self.images(), category@).is_none(),
            },
    {
        if str_eq(category, "avatar") {
            Some(&self.images.avatar)
        } else if str_eq(category, "emotions") {
            Some(&self.images.emotions)
        } else if str_eq(category, "reactions") {
            Some(&self.images.reactions)
        } else if str_eq(category, "talking") {
            Some(&self.images.talking)
        } else if str_eq(category, "thinking") {
            Some(&self.images.thinking)
        } else if str_eq(category, "showing") {
            Some(&self.images.showing)
        } else if str_eq(category, "misc") {
            Some(&self.images.misc)
        } else {
            None
        }
    }

    /// The image stored under a category and a name.
    pub fn get_image(&self, category: &str, name: &str) -> (r: Option<&String>)
        ensures
            match r {
                Some(u) => image_of(self.images(), category@, name@) == Some(*u),
                None => image_of(self.images(), category@, name@).is_none(),
            },
    {
        match self.store_of(category) {
            Some(s) => s.get(name),
            None => None,
        }
    }

    /// The image that the defaults name for a situation.
    pub fn get_default_image(&self, situation: &str) -> (r: Option<&String>)
        ensures
            match r {
                Some(u) => default_image_of(self.images(), situation@) == Some(*u),
                None => default_image_of(self.images(), situation@).is_none(),
            },
    {
        match self.images.defaults.get(situation) {
            None => None,
            Some(reference) => {
                let chars = chars_of(reference.as_str());
                match find_char_exec(&chars, '.') {
                    Some(dot) => {
                        let category = string_of(&slice_of(&chars, 0, dot));
                        let name = string_of(&slice_of(&chars, dot + 1, chars.len()));
                        self.get_image(category.as_str(), name.as_str())
                    },
                    None => self.images.defaults.get(reference.as_str()),
                }
            },
        }
    }

    /// The first avatar of the catalogue.
    pub fn get_random_avatar(&self) -> (r: Option<&String>)
        ensures
            match r {
                Some(u) => self.images().avatar.entries().len() > 0 && *u
                    == self.images().avatar.entries()[0].1,
                None => self.images().avatar.entries().len() == 0,
            },
    {
        if self.images.avatar.len() > 0 {
            Some(self.images.avatar.value_at(0))
        } else {
            None
        }
    }

    /// The image categories.
    pub fn list_categories(&self) -> (r: Vec<&'static str>)
        ensures
            views(r@) == seq![
                "avatar"@,
                "emotions"@,
                "reactions"@,
                "talking"@,
                "thinking"@,
                "showing"@,
                "misc"@,
            ],
    {
        let r: Vec<&'static str> = vec![
            "avatar",
            "emotions",
            "reactions",
            "talking",
            "thinking",
            "showing",
            "misc",
        ];
        proof {
            assert(views(r@) =~= seq![
                "avatar"@,
                "emotions"@,
                "reactions"@,
                "talking"@,
                "thinking"@,
                "showing"@,
                "misc"@,
            ]);
        }
        r
    }

    /// The names of the images of a category, in catalogue order; none for
    /// an unknown category.
    pub fn list_images_in_category(&self, category: &str) -> (r: Vec<&String>)
        ensures
            string_views(r@) == match image_store(self.images(), category@) {
                Some(s) => key_views(s),
                None => Seq::<Seq<char>>::empty(),
            },
    {
        match self.store_of(category) {
            Some(s) => keys_of(s),
            None => {
                let r: Vec<&String> = Vec::new();
                proof {
                    assert(string_views(r@) =~= Seq::<Seq<char>>::empty());
                }
                r
            },
        }
    }
}

impl EmojiManager {
    /// The catalogue.
    pub closed spec fn emojis(&self) -> BotEmojis {
        self.emojis
    }

    /// A manager over the given catalogue.
    pub fn from_emojis(emojis: BotEmojis) -> (r: Self)
        ensures
            r.emojis() == emojis,
    {
        EmojiManager { emojis }
    }

    /// The catalogue of a category.
    fn store_of(&self, category: &str) -> (r: Option<&StringMap>)
        ensures
            match r {
                Some(s) => emoji_store(self.emojis(), category@) == Some(*s),
                None => emoji_store(self.emojis(), category@).is_none(),
            },
    {
        if str_eq(category, "status") {
            Some(&self.emojis.status)
        } else if str_eq(category, "confirmations") {
            Some(&self.emojis.confirmations)
        } else if str_eq(category, "emotions") {
            Some(&self.emojis.emotions)
        } else if str_eq(category, "technology") {
            Some(&self.emojis.technology)
        } else if str_eq(category, "actions") {
            Some(&self.emojis.actions)
        } else if str_eq(category, "interface") {
            Some(&self.emojis.interface)
        } else {
            None
        }
    }

    /// The emoji stored under a category and a name.
    pub fn get_emoji(&self, category: &str, name: &str) -> (r: Option<&String>)
        ensures
            match r {
                Some(u) => emoji_of(self.emojis(), category@, name@) == Some(*u),
                None => emoji_of(self.emojis(), category@, name@).is_none(),
            },
    {
        match self.store_of(category) {
            Some(s) => s.get(name),
            None => None,
        }
    }

    /// The emoji under a name in the first catalogue that has it.
    fn find_anywhere(&self, name: &str) -> (r: Option<&String>)
        ensures
            match r {
                Some(u) => emoji_anywhere(self.emojis(), name@) == Some(*u),
                None => emoji_anywhere(self.emojis(), name@).is_none(),
            },
    {
        let e = &self.emojis;
        let tail5 = first_of(e.actions.get(name), e.interface.get(name));
        let tail4 = first_of(e.technology.get(name), tail5);
        let tail3 = first_of(e.emotions.get(name), tail4);
        let tail2 = first_of(e.confirmations.get(name), tail3);
        let tail1 = first_of(e.status.get(name), tail2);
        first_of(e.defaults.get(name), tail1)
    }

    /// The emoji that the defaults name for a situation.
    pub fn get_default_emoji(&self, situation: &str) -> (r: Option<&String>)
        ensures
            match r {
                Some(u) => default_emoji_of(self.emojis(), situation@) == Some(*u),
                None => default_emoji_of(self.emojis(), situation@).is_none(),
            },
    {
        match self.emojis.defaults.get(situation) {
            None => None,
            Some(reference) => {
                let chars = chars_of(reference.as_str());
                match find_char_exec(&chars, '.') {
                    Some(dot) => {
                        let category = string_of(&slice_of(&chars, 0, dot));
                        let name = string_of(&slice_of(&chars, dot + 1, chars.len()));
                        self.get_emoji(category.as_str(), name.as_str())
                    },
                    None => self.find_anywhere(reference.as_str()),
                }
            },
        }
    }

    /// The emoji categories.
    pub fn list_categories(&self) -> (r: Vec<&'static str>)
        ensures
            views(r@) == seq![
                "status"@,
                "confirmations"@,
                "emotions"@,
                "technology"@,
                "actions"@,
                "interface"@,
            ],
    {
        let r: Vec<&'static str> = vec![
            "status",
            "confirmations",
            "emotions",
            "technology",
            "actions",
            "interface",
        ];
        proof {
            assert(views(r@) =~= seq![
                "status"@,
                "confirmations"@,
                "emotions"@,
                "technology"@,
                "actions"@,
                "interface"@,
            ]);
        }
        r
    }

    /// The names of the emojis of a category, in catalogue order; none for
    /// an unknown category.
    pub fn list_emojis_in_category(&self, category: &str) -> (r: Vec<&String>)
        ensures
            string_views(r@) == match emoji_store(self.emojis(), category@) {
                Some(s) => key_views(s),
                None => Seq::<Seq<char>>::empty(),
            },
    {
        match self.store_of(category) {
            Some(s) => keys_of(s),
            None => {
                let r: Vec<&String> = Vec::new();
                proof {
                    assert(string_views(r@) =~= Seq::<Seq<char>>::empty());
                }
                r
            },
        }
    }

    /// The text of the default emoji for a situation, or the fallback.
    fn default_or<'a>(&'a self, situation: &str, fallback: &'a str) -> (r: &'a str)
        ensures
            r@ == emoji_text_or(self.emojis(), situation@, fallback@),
    {
        match self.get_default_emoji(situation) {
            Some(s) => s.as_str(),
            None => fallback,
        }
    }

    /// The emoji for success.
    pub fn success(&self) -> (r: &str)
        ensures
            r@ == emoji_text_or(self.emojis(), "success"@, "\u{e2}\u{153}\u{2026}"@),
    {
        self.default_or("success", "\u{e2}\u{153}\u{2026}")
    }

    /// The emoji for an error.
    pub fn error(&self) -> (r: &str)
        ensures
            r@ == emoji_text_or(self.emojis(), "error"@, "\u{e2}\u{152}"@),
    {
        self.default_or("error", "\u{e2}\u{152}")
    }

    /// The emoji for a warning.
    pub fn warning(&self) -> (r: &str)
        ensures
            r@ == emoji_text_or(self.emojis(), "warning"@, "\u{e2}\u{161}\u{a0}\u{ef}\u{b8}"@),
    {
        self.default_or("warning", "\u{e2}\u{161}\u{a0}\u{ef}\u{b8}")
    }

    /// The emoji for work in progress.
    pub fn loading(&self) -> (r: &str)
        ensures
            r@ == emoji_text_or(self.emojis(), "loading"@, "\u{f0}\u{178}\u{2019}\u{a4}"@),
    {
        self.default_or("loading", "\u{f0}\u{178}\u{2019}\u{a4}")
    }
}

} // verus!
