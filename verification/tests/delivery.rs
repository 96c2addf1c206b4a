use lorian_bot::data::Reminder;
use lorian_bot::delivery::{
    alert_image_of, bell_of, completion_embed, confirmation_embed, mention_content, mention_of,
    notification_embed, plan_delivery, status_choices, status_reminder_id, status_text,
    time_tag_of,
};
use lorian_bot::lang::{BotEmojis, BotImages, EmojiManager, ImageManager, LanguageManager, Messages};
use lorian_bot::time::Timestamp;

fn reminder() -> Reminder {
    Reminder {
        id: "0123456789abcdef".into(),
        user_id: "42".into(),
        user_name: "ana".into(),
        message: "tea".into(),
        channel_id: "555".into(),
        reminder_time: Timestamp { secs: 2000, nanos: 0 },
        created_at: Timestamp { secs: 1000, nanos: 5 },
        is_sent: false,
        is_private: false,
        mention_type: "none".into(),
        has_status: false,
    }
}

fn language() -> LanguageManager {
    let mut m = Messages::default();
    m.embeds.reminder_notification.title = "Reminder".into();
    m.embeds.reminder_notification.description = "It is time".into();
    m.embeds.reminder_notification.user_field = "By".into();
    m.embeds.reminder_notification.created_field = "Created".into();
    m.embeds.reminder_notification.footer = "foot".into();
    m.embeds.reminder.title = "New reminder".into();
    m.embeds.reminder.success_message = "Set for {time}".into();
    m.embeds.reminder.time_field = "Time".into();
    m.embeds.reminder.message_field = "Message".into();
    m.embeds.reminder.channel_field = "Channel".into();
    m.embeds.reminder.visibility_field = "Visibility".into();
    m.embeds.reminder.mention_field = "Mention".into();
    m.embeds.reminder.status_field = "Status".into();
    m.embeds.reminder.footer = "ID {id}".into();
    m.embeds.reminder.visibility_public = "public".into();
    m.embeds.reminder.visibility_private = "private".into();
    m.embeds.reminder.mention_none = "nobody".into();
    m.embeds.reminder.mention_creator = "creator".into();
    m.embeds.reminder.mention_everyone = "everyone".into();
    m.embeds.reminder.status_enabled = "on".into();
    m.embeds.reminder.status_disabled = "off".into();
    LanguageManager::from_messages(m)
}

fn no_images() -> ImageManager {
    ImageManager::from_images(BotImages::default())
}

fn no_emojis() -> EmojiManager {
    EmojiManager::from_emojis(BotEmojis::default())
}

fn fields(e: &lorian_bot::responses::EmbedPlan) -> Vec<(String, String, bool)> {
    e.fields.iter().map(|f| (f.name.clone(), f.value.clone(), f.inline)).collect()
}

#[test]
fn mentions_follow_visibility_and_policy() {
    let mut r = reminder();
    assert_eq!(mention_content(&r), "");
    r.mention_type = "creator".into();
    assert_eq!(mention_content(&r), "<@42>");
    r.mention_type = "everyone".into();
    assert_eq!(mention_content(&r), "@everyone");
    r.mention_type = "Everyone".into();
    assert_eq!(mention_content(&r), "");
    r.is_private = true;
    r.mention_type = "everyone".into();
    assert_eq!(mention_content(&r), "<@42>");
    r.mention_type = "none".into();
    assert_eq!(mention_content(&r), "<@42>");
    assert_eq!(mention_of("7"), "<@7>");
    assert_eq!(time_tag_of(1700000000, "F"), "<t:1700000000:F>");
    assert_eq!(time_tag_of(-3, "R"), "<t:-3:R>");
}

#[test]
fn a_due_reminder_becomes_a_delivery() {
    let r = reminder();
    let d = plan_delivery(&r, &language(), &no_images(), &no_emojis()).unwrap();
    assert_eq!(d.reminder_id, "0123456789abcdef");
    assert_eq!(d.channel, 555);
    assert_eq!(d.mention, "");
    assert_eq!(d.status_menu, None);
    assert_eq!(d.embed.title, "🔔 Reminder");
    assert_eq!(d.embed.description, "It is time\n\n**tea**");
    assert_eq!(d.embed.color, (255, 165, 0));
    assert_eq!(d.embed.thumbnail, "https://cdn.discordapp.com/embed/avatars/0.png");
    assert_eq!(d.embed.footer, "foot");
    assert_eq!(
        fields(&d.embed),
        vec![
            ("Created".to_string(), "<t:1000:R>".to_string(), true),
            ("By".to_string(), "<@42>".to_string(), true)
        ]
    );
}

#[test]
fn a_private_tracked_reminder_hides_its_creator_and_offers_a_menu() {
    let mut r = reminder();
    r.is_private = true;
    r.has_status = true;
    let d = plan_delivery(&r, &language(), &no_images(), &no_emojis()).unwrap();
    assert_eq!(d.mention, "<@42>");
    assert_eq!(d.status_menu.as_deref(), Some("reminder_status_0123456789abcdef"));
    assert_eq!(fields(&d.embed), vec![("Created".to_string(), "<t:1000:R>".to_string(), true)]);
    let e = notification_embed(&r, &language(), &no_images(), &no_emojis());
    assert_eq!(e.fields.len(), 1);
}

#[test]
fn a_reminder_without_a_channel_number_is_not_delivered() {
    let mut r = reminder();
    r.channel_id = "general".into();
    assert!(plan_delivery(&r, &language(), &no_images(), &no_emojis()).is_none());
    r.channel_id = "".into();
    assert!(plan_delivery(&r, &language(), &no_images(), &no_emojis()).is_none());
    r.channel_id = "18446744073709551616".into();
    assert!(plan_delivery(&r, &language(), &no_images(), &no_emojis()).is_none());
    r.channel_id = "+7".into();
    assert_eq!(plan_delivery(&r, &language(), &no_images(), &no_emojis()).unwrap().channel, 7);
}

#[test]
fn bell_and_image_come_from_the_catalogues() {
    let mut e = BotEmojis::default();
    e.interface.insert("bell".into(), "<:bell:1>".into());
    assert_eq!(bell_of(&EmojiManager::from_emojis(e)), "<:bell:1>");
    assert_eq!(bell_of(&no_emojis()), "🔔");
    let mut i = BotImages::default();
    i.emotions.insert("love".into(), "url-love".into());
    i.defaults.insert("success".into(), "emotions.love".into());
    assert_eq!(alert_image_of(&ImageManager::from_images(i)), "url-love");
    let mut j = BotImages::default();
    j.reactions.insert("wow_alert".into(), "url-wow".into());
    j.emotions.insert("love".into(), "url-love".into());
    j.defaults.insert("success".into(), "emotions.love".into());
    assert_eq!(alert_image_of(&ImageManager::from_images(j)), "url-wow");
}

#[test]
fn a_new_reminder_is_confirmed() {
    let mut r = reminder();
    r.mention_type = "everyone".into();
    r.has_status = true;
    let e = confirmation_embed(&r, &language(), &no_images(), &no_emojis());
    assert_eq!(e.title, "🔔 New reminder");
    assert_eq!(e.description, "Set for <t:2000:F>");
    assert_eq!(e.color, (138, 43, 226));
    assert_eq!(e.footer, "ID 01234567");
    let f: Vec<(String, String)> = e.fields.iter().map(|f| (f.name.clone(), f.value.clone())).collect();
    assert_eq!(
        f,
        vec![
            ("Time".to_string(), "<t:2000:F>".to_string()),
            ("Message".to_string(), "tea".to_string()),
            ("Channel".to_string(), "<#555>".to_string()),
            ("Visibility".to_string(), "public".to_string()),
            ("Mention".to_string(), "everyone".to_string()),
            ("Status".to_string(), "on".to_string()),
        ]
    );
    assert!(e.fields.iter().all(|f| f.inline));
    let mut p = reminder();
    p.id = "abc".into();
    p.is_private = true;
    p.mention_type = "creator".into();
    let e = confirmation_embed(&p, &language(), &no_images(), &no_emojis());
    assert_eq!(e.footer, "ID abc");
    assert_eq!(e.fields[3].value, "private");
    assert_eq!(e.fields[4].value, "creator");
    assert_eq!(e.fields[5].value, "off");
}

#[test]
fn status_choices_have_their_sentences() {
    let c = status_choices();
    let values: Vec<&str> = c.iter().map(|x| x.value.as_str()).collect();
    assert_eq!(values, vec!["confirmed", "created", "completed", "cancelled", "failed"]);
    assert_eq!(c[0].label, "✅ Confirmed");
    assert_eq!(c[4].description, "Task failed to complete");
    assert_eq!(status_text("confirmed"), "✅ **Confirmed** - Task has been confirmed and will be done");
    assert_eq!(status_text("created"), "⭐ **Created** - Task has been created/started");
    assert_eq!(status_text("completed"), "🎉 **Completed** - Task has been finished successfully");
    assert_eq!(status_text("cancelled"), "❌ **Cancelled** - Task has been cancelled");
    assert_eq!(status_text("failed"), "💥 **Failed** - Task failed to complete");
    assert_eq!(status_text("other"), "Status updated");
    assert_eq!(status_reminder_id("reminder_status_abc").as_deref(), Some("abc"));
    assert_eq!(status_reminder_id("reminder_status_").as_deref(), Some(""));
    assert_eq!(status_reminder_id("reminder_status"), None);
    assert_eq!(status_reminder_id("x_reminder_status_abc"), None);
}

#[test]
fn a_chosen_status_completes_the_card() {
    let r = reminder();
    let e = completion_embed(Some(&r), "completed", &language(), &no_images(), &no_emojis());
    assert_eq!(e.title, "🔔 Reminder");
    assert_eq!(
        e.description,
        "It is time\n\n**tea**\n\n🎉 **Completed** - Task has been finished successfully"
    );
    assert_eq!(e.color, (0, 255, 127));
    assert_eq!(e.footer, "Reminder completed • Thank you!");
    assert_eq!(e.fields.len(), 2);
    let lost = completion_embed(None, "zzz", &language(), &no_images(), &no_emojis());
    assert_eq!(lost.title, "📝 Reminder Status Updated");
    assert_eq!(lost.description, "Status has been set to:\n\nStatus updated");
    assert_eq!(lost.thumbnail, "");
    assert!(lost.fields.is_empty());
}
