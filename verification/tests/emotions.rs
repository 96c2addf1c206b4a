use lorian_bot::emotions::{EmotionManager, EmotionType};

fn v(s: &str) -> Vec<char> {
    s.chars().collect()
}

#[test]
fn the_most_matched_emotion_wins() {
    let m = EmotionManager::new();
    assert_eq!(m.analyze_emotion("hola, genial y perfecto, excelente"), EmotionType::Happy);
    assert_eq!(m.analyze_emotion("un proyecto de arte"), EmotionType::Professional);
    assert_eq!(m.analyze_emotion("arte y proyecto"), EmotionType::Professional);
    assert_eq!(m.analyze_emotion("arte, diseño y un proyecto"), EmotionType::Creative);
    assert_eq!(m.analyze_emotion("\u{1f680}"), EmotionType::Excited);
}

#[test]
fn ties_keep_the_first_in_declaration_order() {
    let m = EmotionManager::new();
    assert_eq!(m.analyze_emotion("ayuda hola"), EmotionType::Helpful);
    assert_eq!(m.analyze_emotion("hola ayuda"), EmotionType::Helpful);
    assert_eq!(m.analyze_emotion("feliz wow"), EmotionType::Happy);
    assert_eq!(m.analyze_emotion("adelante con la idea"), EmotionType::Creative);
}

#[test]
fn matching_ignores_case() {
    let m = EmotionManager::new();
    assert_eq!(m.analyze_emotion("FELIZ"), EmotionType::Happy);
    assert_eq!(m.analyze_emotion("INCREÍBLE"), EmotionType::Happy);
    assert_eq!(m.analyze_emotion("Dime Más"), EmotionType::Curious);
}

#[test]
fn a_keyword_counts_once_however_often_it_occurs() {
    let m = EmotionManager::new();
    assert_eq!(EmotionManager::score_of(&v("hola hola hola"), &EmotionType::Friendly), 1);
    assert_eq!(EmotionManager::score_of(&v("hola saludos"), &EmotionType::Friendly), 2);
    assert_eq!(EmotionManager::score_of(&v("puedo ayudar"), &EmotionType::Helpful), 2);
    assert_eq!(EmotionManager::score_of(&v("anything"), &EmotionType::Neutral), 0);
    assert_eq!(m.analyze_emotion("hola hola hola ayuda puedo ayudar"), EmotionType::Helpful);
}

#[test]
fn nothing_matched_gives_a_safe_default() {
    let m = EmotionManager::new();
    let mut seen = Vec::new();
    for _ in 0..200 {
        let e = m.analyze_emotion("zzz");
        assert!(matches!(
            e,
            EmotionType::Helpful | EmotionType::Friendly | EmotionType::Professional | EmotionType::Neutral
        ));
        if !seen.contains(&e) {
            seen.push(e);
        }
    }
    assert!(seen.len() > 1);
    assert!(matches!(
        m.analyze_emotion(""),
        EmotionType::Helpful | EmotionType::Friendly | EmotionType::Professional | EmotionType::Neutral
    ));
}

#[test]
fn selection_follows_the_scores() {
    assert_eq!(EmotionManager::select_emotion(&vec![0, 0, 0, 0, 0, 0, 0, 0, 0], 0), EmotionType::Helpful);
    assert_eq!(EmotionManager::select_emotion(&vec![0, 0, 0, 0, 0, 0, 0, 0, 0], 1), EmotionType::Friendly);
    assert_eq!(EmotionManager::select_emotion(&vec![0, 0, 0, 0, 0, 0, 0, 0, 0], 2), EmotionType::Professional);
    assert_eq!(EmotionManager::select_emotion(&vec![0, 0, 0, 0, 0, 0, 0, 0, 0], 3), EmotionType::Neutral);
    assert_eq!(EmotionManager::select_emotion(&vec![0, 2, 0, 2, 1, 0, 0, 0, 0], 3), EmotionType::Excited);
    assert_eq!(EmotionManager::select_emotion(&vec![1, 2, 0, 2, 3, 0, 0, 0, 3], 0), EmotionType::Curious);
    assert_eq!(EmotionManager::select_emotion(&vec![0, 0, 0, 0, 0, 0, 0, 0, 1], 0), EmotionType::Encouraging);
}

#[test]
fn a_random_emotion_is_a_detectable_one() {
    let m = EmotionManager::new();
    let mut seen = Vec::new();
    for _ in 0..300 {
        let e = m.get_random_emotion();
        assert_ne!(e, EmotionType::Neutral);
        if !seen.contains(&e) {
            seen.push(e);
        }
    }
    assert!(seen.len() > 1);
}

#[test]
fn detectable_emotions_stand_in_declaration_order() {
    let m = EmotionManager::new();
    let all: Vec<EmotionType> = (0..9).map(|i| m.emotion_at(i)).collect();
    assert_eq!(
        all,
        vec![
            EmotionType::Happy,
            EmotionType::Excited,
            EmotionType::Helpful,
            EmotionType::Thoughtful,
            EmotionType::Curious,
            EmotionType::Friendly,
            EmotionType::Professional,
            EmotionType::Creative,
            EmotionType::Encouraging,
        ]
    );
}

#[test]
fn emotions_have_their_attributes() {
    assert_eq!(EmotionType::Happy.keywords().len(), 7);
    assert_eq!(EmotionType::Happy.keywords()[4], "increíble");
    assert_eq!(EmotionType::Helpful.keywords(), vec!["ayuda", "puedo ayudar", "aquí tienes", "te explico", "💡", "🤝"]);
    assert!(EmotionType::Neutral.keywords().is_empty());
    assert_eq!(EmotionType::Happy.image_category(), "emotions");
    assert_eq!(EmotionType::Helpful.image_category(), "talking");
    assert_eq!(EmotionType::Professional.image_category(), "avatar");
    assert_eq!(EmotionType::Neutral.image_category(), "avatar");
    assert_eq!(EmotionType::Helpful.image_name(), "explaining");
    assert_eq!(EmotionType::Encouraging.image_name(), "thumbs_up");
    assert_eq!(EmotionType::Neutral.image_name(), "pointing");
    assert_eq!(EmotionType::Excited.emoji(), "🎉");
    assert_eq!(EmotionType::Neutral.emoji(), "🤖");
    assert_eq!(EmotionType::Happy.color(), (255, 215, 0));
    assert_eq!(EmotionType::Professional.color(), (25, 25, 112));
    assert_eq!(EmotionType::Neutral.color(), (128, 128, 128));
    assert_eq!(EmotionType::Thoughtful.name(), "Thoughtful");
    assert_eq!(format!("{:?}", EmotionType::Curious), EmotionType::Curious.name());
}

#[test]
fn encouragement_is_for_three_emotions() {
    let m = EmotionManager::new();
    assert!(m.should_show_encouragement_buttons(&EmotionType::Helpful));
    assert!(m.should_show_encouragement_buttons(&EmotionType::Professional));
    assert!(m.should_show_encouragement_buttons(&EmotionType::Encouraging));
    assert!(!m.should_show_encouragement_buttons(&EmotionType::Happy));
    assert!(!m.should_show_encouragement_buttons(&EmotionType::Neutral));
}
