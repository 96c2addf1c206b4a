use lorian_bot::cards::{
    commission_card, commission_welcome_card, feedback_card, feedback_setup_card,
    feedback_setup_confirmation, gallery_line, gallery_overview, stats_card,
};
use lorian_bot::persistence::DataStats;
use lorian_bot::time::Timestamp;
use lorian_bot::lang::{BotEmojis, BotImages, EmojiManager, ImageManager, LanguageManager, Messages};

fn language() -> LanguageManager {
    let mut m = Messages::default();
    m.feedback.embeds.message.title = "Feedback".into();
    m.feedback.embeds.message.rating_field = "Rating".into();
    m.feedback.embeds.message.footer = "Thanks".into();
    let c = &mut m.embeds.commission;
    c.title = "Commissions".into();
    c.description = "D".into();
    c.how_it_works_title = "How".into();
    c.how_it_works_step1 = "1".into();
    c.how_it_works_step2 = "2".into();
    c.how_it_works_step3 = "3".into();
    c.how_it_works_step4 = "4".into();
    c.services_title = "Services".into();
    c.services_web = "web".into();
    c.services_design = "design".into();
    c.services_programming = "code".into();
    c.services_consulting = "advice".into();
    c.contact_info = "mail me".into();
    c.footer = "foot".into();
    let w = &mut m.embeds.commission_created;
    w.title = "Welcome".into();
    w.description = "Created".into();
    w.welcome_message = "Hi {username}".into();
    w.next_steps_title = "Next".into();
    w.next_steps_1 = "a".into();
    w.next_steps_2 = "b".into();
    w.next_steps_3 = "c".into();
    w.next_steps_4 = "d".into();
    w.contact_info_field = "Contact".into();
    w.contact_info_value = "here".into();
    w.footer = "for {username}".into();
    m.embeds.images.description = "Gallery".into();
    LanguageManager::from_messages(m)
}

fn no_images() -> ImageManager {
    ImageManager::from_images(BotImages::default())
}

fn no_emojis() -> EmojiManager {
    EmojiManager::from_emojis(BotEmojis::default())
}

#[test]
fn a_feedback_card_shows_text_and_rating() {
    let mut e = BotEmojis::default();
    e.interface.insert("star".into(), "S".into());
    e.confirmations.insert("x_".into(), "x".into());
    let card = feedback_card("great", 3, 1, "77", &language(), &EmojiManager::from_emojis(e));
    assert_eq!(card.title, "S Feedback");
    assert_eq!(card.description, "great");
    assert_eq!(card.color, (147, 112, 219));
    assert_eq!(card.footer, "Thanks \u{2022} ID: 77");
    assert_eq!(card.fields.len(), 1);
    assert_eq!(card.fields[0].name, "Rating");
    assert_eq!(card.fields[0].value, "SSSxx (\u{2b06}\u{fe0f} 3 | \u{2b07}\u{fe0f} 1)");
    assert!(!card.fields[0].inline);
    let plain = feedback_card("", 0, 0, "1", &language(), &no_emojis());
    assert_eq!(plain.title, "\u{2b50} Feedback");
}

#[test]
fn the_commission_card_lists_steps_and_services() {
    let card = commission_card(&language(), &no_images(), &no_emojis());
    assert_eq!(card.title, "\u{f0}\u{178}\u{2019}\u{bc} Commissions");
    assert_eq!(
        card.description,
        "D\n\n**How**\n1\n2\n3\n4\n\n**Services**\nweb\ndesign\ncode\nadvice\n\n\u{f0}\u{178}\u{201c}\u{a7} mail me"
    );
    assert_eq!(card.color, (105, 90, 205));
    assert_eq!(card.thumbnail, "https://cdn.discordapp.com/embed/avatars/1.png");
    assert_eq!(card.footer, "foot");
    let mut i = BotImages::default();
    i.avatar.insert("pointing".into(), "p".into());
    i.avatar.insert("what_pointing".into(), "w".into());
    let mut e = BotEmojis::default();
    e.interface.insert("star".into(), "S".into());
    let card = commission_card(&language(), &ImageManager::from_images(i), &EmojiManager::from_emojis(e));
    assert_eq!(card.thumbnail, "p");
    assert_eq!(card.title, "S Commissions");
}

#[test]
fn the_welcome_card_names_the_user() {
    let card = commission_welcome_card("Ana", &language(), &no_images(), &no_emojis());
    assert_eq!(card.title, "\u{e2}\u{153}\u{2026} Welcome");
    assert_eq!(card.description, "Created\n\nHi Ana\n\n**Next**\na\nb\nc\nd");
    assert_eq!(card.color, (0, 255, 127));
    assert_eq!(card.thumbnail, "https://cdn.discordapp.com/embed/avatars/2.png");
    assert_eq!(card.footer, "for Ana");
    assert_eq!((card.fields[0].name.as_str(), card.fields[0].value.as_str()), ("Contact", "here"));
    let mut i = BotImages::default();
    i.emotions.insert("love".into(), "l".into());
    i.emotions.insert("hand_on_heart".into(), "h".into());
    let mut e = BotEmojis::default();
    e.emotions.insert("happy".into(), "H".into());
    let card = commission_welcome_card("Bo", &language(), &ImageManager::from_images(i), &EmojiManager::from_emojis(e));
    assert_eq!(card.thumbnail, "h");
    assert_eq!(card.title, "H Welcome");
}

#[test]
fn the_gallery_counts_each_category() {
    let mut i = BotImages::default();
    i.avatar.insert("a".into(), "1".into());
    i.avatar.insert("b".into(), "2".into());
    i.misc.insert("c".into(), "3".into());
    i.defaults.insert("d".into(), "avatar.a".into());
    let (text, total) = gallery_overview(&language(), &ImageManager::from_images(i));
    assert_eq!(
        text,
        "Gallery\n\n**AVATAR**: 2 images\n**EMOTIONS**: 0 images\n**REACTIONS**: 0 images\n**TALKING**: 0 images\n**THINKING**: 0 images\n**SHOWING**: 0 images\n**MISC**: 1 images\n"
    );
    assert_eq!(total, 3);
    let (_, none) = gallery_overview(&language(), &no_images());
    assert_eq!(none, 0);
    assert_eq!(gallery_line("Name", 12), "**Name**: 12 images\n");
}

#[test]
fn the_statistics_card_shows_the_counts() {
    let stats = DataStats {
        button_messages_count: 3,
        conversations_count: 20,
        total_messages: 100,
        last_updated: Timestamp { secs: 1700000000, nanos: 9 },
    };
    let card = stats_card(&stats);
    assert_eq!(card.title, "\u{1f4ca} Bot Statistics");
    assert_eq!(card.color, (105, 90, 205));
    assert_eq!(card.footer, "TheLorian's Discord Bot");
    let f: Vec<(&str, &str, bool)> =
        card.fields.iter().map(|f| (f.name.as_str(), f.value.as_str(), f.inline)).collect();
    assert_eq!(
        f,
        vec![
            ("\u{1f4ac} Total Conversations", "20", true),
            ("\u{1f4dd} Total Messages", "100", true),
            ("\u{1f3af} Button Messages", "3", true),
            ("\u{1f552} Last Updated", "<t:1700000000:R>", false),
        ]
    );
}

#[test]
fn the_feedback_set_up_cards_explain_and_confirm() {
    let mut m = Messages::default();
    let s = &mut m.feedback.embeds.setup;
    s.title = "Feedback".into();
    s.description = "Tell us".into();
    s.how_it_works_title = "How".into();
    s.how_it_works_step1 = "1".into();
    s.how_it_works_step2 = "2".into();
    s.how_it_works_step3 = "3".into();
    s.how_it_works_step4 = "4".into();
    s.rating_system_title = "Rating".into();
    s.rating_upvote = "up".into();
    s.rating_downvote = "down".into();
    s.rating_stars = "stars".into();
    s.footer = "foot".into();
    s.thumbnail = "own".into();
    m.feedback.messages.setup_success_title = "Done".into();
    m.feedback.messages.setup_success = "Ready in".into();
    m.feedback.messages.setup_success_footer = "ok".into();
    let lang = LanguageManager::from_messages(m);
    let card = feedback_setup_card(&lang, &no_images(), &no_emojis());
    assert_eq!(card.title, "\u{2b50} Feedback");
    assert_eq!(card.description, "Tell us");
    assert_eq!(card.color, (147, 112, 219));
    assert_eq!(card.thumbnail, "own");
    assert_eq!(card.footer, "foot");
    let f: Vec<(&str, &str, bool)> =
        card.fields.iter().map(|f| (f.name.as_str(), f.value.as_str(), f.inline)).collect();
    assert_eq!(f, vec![("How", "1\n2\n3\n4", false), ("Rating", "up\ndown\nstars", false)]);
    let mut i = BotImages::default();
    i.emotions.insert("love".into(), "l".into());
    i.defaults.insert("feedback".into(), "emotions.love".into());
    assert_eq!(feedback_setup_card(&lang, &ImageManager::from_images(i), &no_emojis()).thumbnail, "l");
    let done = feedback_setup_confirmation(&lang, &no_emojis());
    assert_eq!(done.title, "\u{e2}\u{153}\u{2026} Done");
    assert_eq!(done.description, "Ready in <#1400466972293992498>!");
    assert_eq!(done.color, (0, 255, 127));
    assert_eq!(done.footer, "ok");
}
