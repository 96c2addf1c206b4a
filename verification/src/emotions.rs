//! Emotion categories, their presentation attributes, and keyword scoring of
//! a text.
use vstd::prelude::*;
use crate::text::{chars_of, contains_exec, contains_sub, lowercase, to_lowercase, views};

verus! {

/// Emotions that a reply can carry.
#[derive(Debug, Clone, Copy, PartialEq, Eq, Structural)]
pub enum EmotionType {
    Happy,
    Excited,
    Helpful,
    Thoughtful,
    Curious,
    Friendly,
    Professional,
    Creative,
    Encouraging,
    Neutral,
}

/// The keywords that count towards an emotion.
pub open spec fn keywords_of(e: EmotionType) -> Seq<Seq<char>> {
    match e {
        EmotionType::Happy => seq!["feliz"@, "genial"@, "excelente"@, "perfecto"@, "increíble"@, "😊"@, "🎉"@],
        EmotionType::Excited => seq!["emocionante"@, "fantástico"@, "asombroso"@, "wow"@, "guau"@, "🚀"@, "⭐"@],
        EmotionType::Helpful => seq!["ayuda"@, "puedo ayudar"@, "aquí tienes"@, "te explico"@, "💡"@, "🤝"@],
        EmotionType::Thoughtful => seq!["considera"@, "piensa"@, "reflexiona"@, "analiza"@, "🤔"@, "💭"@],
        EmotionType::Curious => seq!["interesante"@, "dime más"@, "cuéntame"@, "explícame"@, "❓"@, "🔍"@],
        EmotionType::Friendly => seq!["hola"@, "saludos"@, "encantado"@, "un placer"@, "👋"@, "😄"@],
        EmotionType::Professional => seq!["servicio"@, "trabajo"@, "proyecto"@, "empresa"@, "negocio"@, "💼"@, "👔"@],
        EmotionType::Creative => seq!["diseño"@, "arte"@, "creatividad"@, "idea"@, "innovador"@, "🎨"@, "✨"@],
        EmotionType::Encouraging => seq!["puedes"@, "lograrás"@, "adelante"@, "ánimo"@, "éxito"@, "💪"@, "🌟"@],
        EmotionType::Neutral => Seq::<Seq<char>>::empty(),
    }
}

/// What `image_category` returns for an emotion.
pub open spec fn image_category_of(e: EmotionType) -> Seq<char> {
    match e {
        EmotionType::Happy => "emotions"@,
        EmotionType::Excited => "emotions"@,
        EmotionType::Helpful => "talking"@,
        EmotionType::Thoughtful => "talking"@,
        EmotionType::Curious => "talking"@,
        EmotionType::Friendly => "emotions"@,
        EmotionType::Professional => "avatar"@,
        EmotionType::Creative => "emotions"@,
        EmotionType::Encouraging => "emotions"@,
        EmotionType::Neutral => "avatar"@,
    }
}

/// What `image_name` returns for an emotion.
pub open spec fn image_name_of(e: EmotionType) -> Seq<char> {
    match e {
        EmotionType::Happy => "happy"@,
        EmotionType::Excited => "excited"@,
        EmotionType::Helpful => "explaining"@,
        EmotionType::Thoughtful => "thinking"@,
        EmotionType::Curious => "curious"@,
        EmotionType::Friendly => "friendly"@,
        EmotionType::Professional => "professional"@,
        EmotionType::Creative => "creative"@,
        EmotionType::Encouraging => "thumbs_up"@,
        EmotionType::Neutral => "pointing"@,
    }
}

/// What `emoji` returns for an emotion.
pub open spec fn emoji_of(e: EmotionType) -> Seq<char> {
    match e {
        EmotionType::Happy => "😊"@,
        EmotionType::Excited => "🎉"@,
        EmotionType::Helpful => "🤝"@,
        EmotionType::Thoughtful => "🤔"@,
        EmotionType::Curious => "🔍"@,
        EmotionType::Friendly => "👋"@,
        EmotionType::Professional => "💼"@,
        EmotionType::Creative => "🎨"@,
        EmotionType::Encouraging => "💪"@,
        EmotionType::Neutral => "🤖"@,
    }
}

/// The RGB colour of an emotion.
pub open spec fn color_of(e: EmotionType) -> (u8, u8, u8) {
    match e {
        EmotionType::Happy => (255, 215, 0),
        EmotionType::Excited => (255, 69, 0),
        EmotionType::Helpful => (0, 191, 255),
        EmotionType::Thoughtful => (138, 43, 226),
        EmotionType::Curious => (255, 20, 147),
        EmotionType::Friendly => (50, 205, 50),
        EmotionType::Professional => (25, 25, 112),
        EmotionType::Creative => (186, 85, 211),
        EmotionType::Encouraging => (34, 139, 34),
        EmotionType::Neutral => (128, 128, 128),
    }
}

impl EmotionType {
    /// Keywords whose presence in a text counts one point each.
    pub fn keywords(&self) -> (r: Vec<&'static str>)
        ensures
            views(r@) == keywords_of(*self),
    {
        let r: Vec<&'static str> = match self {
            EmotionType::Happy => vec!["feliz", "genial", "excelente", "perfecto", "increíble", "😊", "🎉"],
            EmotionType::Excited => vec!["emocionante", "fantástico", "asombroso", "wow", "guau", "🚀", "⭐"],
            EmotionType::Helpful => vec!["ayuda", "puedo ayudar", "aquí tienes", "te explico", "💡", "🤝"],
            EmotionType::Thoughtful => vec!["considera", "piensa", "reflexiona", "analiza", "🤔", "💭"],
            EmotionType::Curious => vec!["interesante", "dime más", "cuéntame", "explícame", "❓", "🔍"],
            EmotionType::Friendly => vec!["hola", "saludos", "encantado", "un placer", "👋", "😄"],
            EmotionType::Professional => vec!["servicio", "trabajo", "proyecto", "empresa", "negocio", "💼", "👔"],
            EmotionType::Creative => vec!["diseño", "arte", "creatividad", "idea", "innovador", "🎨", "✨"],
            EmotionType::Encouraging => vec!["puedes", "lograrás", "adelante", "ánimo", "éxito", "💪", "🌟"],
            EmotionType::Neutral => Vec::new(),
        };
        proof {
            assert(views(r@) =~= keywords_of(*self));
        }
        r
    }

    /// Image category that illustrates the emotion.
    pub fn image_category(&self) -> (r: &'static str)
        ensures
            r@ == image_category_of(*self),
    {
        match self {
            EmotionType::Happy => "emotions",
            EmotionType::Excited => "emotions",
            EmotionType::Helpful => "talking",
            EmotionType::Thoughtful => "talking",
            EmotionType::Curious => "talking",
            EmotionType::Friendly => "emotions",
            EmotionType::Professional => "avatar",
            EmotionType::Creative => "emotions",
            EmotionType::Encouraging => "emotions",
            EmotionType::Neutral => "avatar",
        }
    }

    /// Image name that illustrates the emotion.
    pub fn image_name(&self) -> (r: &'static str)
        ensures
            r@ == image_name_of(*self),
    {
        match self {
            EmotionType::Happy => "happy",
            EmotionType::Excited => "excited",
            EmotionType::Helpful => "explaining",
            EmotionType::Thoughtful => "thinking",
            EmotionType::Curious => "curious",
            EmotionType::Friendly => "friendly",
            EmotionType::Professional => "professional",
            EmotionType::Creative => "creative",
            EmotionType::Encouraging => "thumbs_up",
            EmotionType::Neutral => "pointing",
        }
    }

    /// Emoji that stands for the emotion.
    pub fn emoji(&self) -> (r: &'static str)
        ensures
            r@ == emoji_of(*self),
    {
        match self {
            EmotionType::Happy => "😊",
            EmotionType::Excited => "🎉",
            EmotionType::Helpful => "🤝",
            EmotionType::Thoughtful => "🤔",
            EmotionType::Curious => "🔍",
            EmotionType::Friendly => "👋",
            EmotionType::Professional => "💼",
            EmotionType::Creative => "🎨",
            EmotionType::Encouraging => "💪",
            EmotionType::Neutral => "🤖",
        }
    }

    /// Colour of the emotion, as red, green and blue.
    pub fn color(&self) -> (r: (u8, u8, u8))
        ensures
            r == color_of(*self),
    {
        match self {
            EmotionType::Happy => (255, 215, 0),
            EmotionType::Excited => (255, 69, 0),
            EmotionType::Helpful => (0, 191, 255),
            EmotionType::Thoughtful => (138, 43, 226),
            EmotionType::Curious => (255, 20, 147),
            EmotionType::Friendly => (50, 205, 50),
            EmotionType::Professional => (25, 25, 112),
            EmotionType::Creative => (186, 85, 211),
            EmotionType::Encouraging => (34, 139, 34),
            EmotionType::Neutral => (128, 128, 128),
        }
    }

    /// The variant's name, as `Debug` prints it.
    pub fn name(&self) -> (r: &'static str)
        ensures
            r@ == name_of(*self),
    {
        match self {
            EmotionType::Happy => "Happy",
            EmotionType::Excited => "Excited",
            EmotionType::Helpful => "Helpful",
            EmotionType::Thoughtful => "Thoughtful",
            EmotionType::Curious => "Curious",
            EmotionType::Friendly => "Friendly",
            EmotionType::Professional => "Professional",
            EmotionType::Creative => "Creative",
            EmotionType::Encouraging => "Encouraging",
            EmotionType::Neutral => "Neutral",
        }
    }
}

/// The name of a variant.
pub open spec fn name_of(e: EmotionType) -> Seq<char> {
    match e {
        EmotionType::Happy => "Happy"@,
        EmotionType::Excited => "Excited"@,
        EmotionType::Helpful => "Helpful"@,
        EmotionType::Thoughtful => "Thoughtful"@,
        EmotionType::Curious => "Curious"@,
        EmotionType::Friendly => "Friendly"@,
        EmotionType::Professional => "Professional"@,
        EmotionType::Creative => "Creative"@,
        EmotionType::Encouraging => "Encouraging"@,
        EmotionType::Neutral => "Neutral"@,
    }
}

/// The emotions that scoring can detect, in declaration order.
pub open spec fn detectable() -> Seq<EmotionType> {
    seq![
        EmotionType::Happy,
        EmotionType::Excited,
        EmotionType::Helpful,
        EmotionType::Thoughtful,
        EmotionType::Curious,
        EmotionType::Friendly,
        EmotionType::Professional,
        EmotionType::Creative,
        EmotionType::Encouraging,
    ]
}

/// The emotions among which one is drawn when no keyword matches.
pub open spec fn safe_defaults() -> Seq<EmotionType> {
    seq![
        EmotionType::Helpful,
        EmotionType::Friendly,
        EmotionType::Professional,
        EmotionType::Neutral,
    ]
}

/// How many of the first `n` keywords occur in `text`.
pub open spec fn hits(text: Seq<char>, kws: Seq<Seq<char>>, n: int) -> nat
    decreases n,
{
    if n <= 0 {
        0
    } else {
        hits(text, kws, n - 1) + if contains_sub(text, kws[n - 1]) {
            1nat
        } else {
            0nat
        }
    }
}

/// The score of an emotion on an already lower-cased text: one point per
/// keyword that occurs in it.
pub open spec fn score(lower: Seq<char>, e: EmotionType) -> nat {
    hits(lower, keywords_of(e), keywords_of(e).len() as int)
}

/// The scores of the detectable emotions on a lower-cased text.
pub open spec fn scores_of(lower: Seq<char>) -> Seq<nat> {
    Seq::new(detectable().len(), |i: int| score(lower, detectable()[i]))
}

/// `b` is the winning position: its score is positive, no score is higher,
/// and every earlier score is strictly lower.
pub open spec fn is_winner(scores: Seq<nat>, b: int) -> bool {
    &&& 0 <= b < scores.len()
    &&& scores[b] > 0
    &&& forall|j: int| 0 <= j < scores.len() ==> scores[j] <= scores[b]
    &&& forall|j: int| 0 <= j < b ==> scores[j] < scores[b]
}

/// No score is positive.
pub open spec fn all_zero(scores: Seq<nat>) -> bool {
    forall|j: int| 0 <= j < scores.len() ==> scores[j] == 0
}

/// The emotion chosen for the given scores, where `fallback` is the position
/// drawn among the safe defaults.
pub open spec fn chosen(scores: Seq<nat>, fallback: int, e: EmotionType) -> bool {
    if all_zero(scores) {
        e == safe_defaults()[fallback]
    } else {
        exists|b: int| is_winner(scores, b) && e == detectable()[b]
    }
}

/// `e` is a possible outcome of analysing a text whose lower-cased form is
/// `lower`.
pub open spec fn emotion_outcome(lower: Seq<char>, e: EmotionType) -> bool {
    exists|k: int| 0 <= k < safe_defaults().len() && chosen(scores_of(lower), k, e)
}

/// A number below `n`, drawn by `rand::thread_rng().gen_range(0..n)`.
#[verifier::external_body]
fn random_below(n: usize) -> (r: usize)
    requires
        n > 0,
    ensures
        r < n,
{
    rand::Rng::gen_range(&mut rand::thread_rng(), 0..n)
}

/// Detects the emotion of a text.
pub struct EmotionManager {
    emotions: Vec<EmotionType>,
}

impl EmotionManager {
    /// The manager scores exactly the detectable emotions, in their order.
    #[verifier::type_invariant]
    spec fn inv(self) -> bool {
        self.emotions@ == detectable()
    }

    /// The emotions this manager scores.
    pub closed spec fn emotions(&self) -> Seq<EmotionType> {
        self.emotions@
    }

    /// A manager that scores the detectable emotions.
    pub fn new() -> (r: Self)
        ensures
            r.emotions() == detectable(),
    {
        let emotions = vec![
            EmotionType::Happy,
            EmotionType::Excited,
            EmotionType::Helpful,
            EmotionType::Thoughtful,
            EmotionType::Curious,
            EmotionType::Friendly,
            EmotionType::Professional,
            EmotionType::Creative,
            EmotionType::Encouraging,
        ];
        proof {
            assert(emotions@ =~= detectable());
        }
        Self { emotions }
    }

    /// The score of one emotion on a lower-cased text.
    pub fn score_of(lower: &Vec<char>, emotion: &EmotionType) -> (r: usize)
        ensures
            r == score(lower@, *emotion),
    {
        let kws = emotion.keywords();
        let mut total: usize = 0;
        let mut i: usize = 0;
        while i < kws.len()
            invariant
                i <= kws.len(),
                views(kws@) == keywords_of(*emotion),
                total == hits(lower@, keywords_of(*emotion), i as int),
                total <= i,
            decreases kws.len() - i,
        {
            let kw = chars_of(kws[i]);
            proof {
                assert(views(kws@)[i as int] == kws[i as int]@);
            }
            if contains_exec(lower, &kw) {
                total += 1;
            }
            i += 1;
        }
        proof {
            assert(views(kws@).len() == kws.len());
        }
        total
    }

    /// The emotion with the highest positive score, the earliest one among
    /// equals; with no positive score, the safe default at `fallback`.
    pub fn select_emotion(scores: &Vec<usize>, fallback: usize) -> (r: EmotionType)
        requires
            scores.len() == detectable().len(),
            fallback < safe_defaults().len(),
        ensures
            chosen(scores@.map_values(|s: usize| s as nat), fallback as int, r),
    {
        let ghost sc = scores@.map_values(|s: usize| s as nat);
        let order = [
            EmotionType::Happy,
            EmotionType::Excited,
            EmotionType::Helpful,
            EmotionType::Thoughtful,
            EmotionType::Curious,
            EmotionType::Friendly,
            EmotionType::Professional,
            EmotionType::Creative,
            EmotionType::Encouraging,
        ];
        let mut best: usize = 0;
        let mut found = false;
        let mut i: usize = 0;
        while i < scores.len()
            invariant
                i <= scores.len(),
                scores.len() == 9,
                sc == scores@.map_values(|s: usize| s as nat),
                !found ==> forall|j: int| 0 <= j < i ==> sc[j] == 0,
                found ==> 0 <= best < i && sc[best as int] > 0
                    && (forall|j: int| 0 <= j < i ==> sc[j] <= sc[best as int])
                    && (forall|j: int| 0 <= j < best ==> sc[j] < sc[best as int]),
            decreases scores.len() - i,
        {
            if scores[i] > 0 && (!found || scores[i] > scores[best]) {
                best = i;
                found = true;
            }
            i += 1;
        }
        if found {
            proof {
                assert(is_winner(sc, best as int));
                assert(!all_zero(sc));
                assert(order@[best as int] == detectable()[best as int]);
            }
            order[best]
        } else {
            proof {
                assert(all_zero(sc));
            }
            let defaults = [
                EmotionType::Helpful,
                EmotionType::Friendly,
                EmotionType::Professional,
                EmotionType::Neutral,
            ];
            proof {
                assert(defaults@[fallback as int] == safe_defaults()[fallback as int]);
            }
            defaults[fallback]
        }
    }

    /// The emotion of `text`: the detectable emotion with the most keyword
    /// matches in the lower-cased text, the earliest one among equals; when
    /// nothing matches, one of the safe defaults, drawn at random.
    pub fn analyze_emotion(&self, text: &str) -> (r: EmotionType)
        ensures
            emotion_outcome(lowercase(text@), r),
    {
        proof {
            use_type_invariant(self);
        }
        let lower_text = to_lowercase(text);
        let lower = chars_of(lower_text.as_str());
        let mut scores: Vec<usize> = Vec::new();
        let mut i: usize = 0;
        while i < self.emotions.len()
            invariant
                i <= self.emotions.len(),
                self.emotions@ == detectable(),
                scores.len() == i,
                forall|j: int| 0 <= j < i ==> scores[j] == score(lower@, detectable()[j]),
            decreases self.emotions.len() - i,
        {
            let s = Self::score_of(&lower, &self.emotions[i]);
            scores.push(s);
            i += 1;
        }
        let k = random_below(4);
        let r = Self::select_emotion(&scores, k);
        proof {
            assert(scores@.map_values(|s: usize| s as nat) =~= scores_of(lower@));
            assert(chosen(scores_of(lower@), k as int, r));
        }
        r
    }

    /// The detectable emotion at a position, in declaration order.
    pub fn emotion_at(&self, index: usize) -> (r: EmotionType)
        requires
            index < detectable().len(),
        ensures
            r == detectable()[index as int],
    {
        proof {
            use_type_invariant(self);
        }
        self.emotions[index]
    }

    /// One of the detectable emotions, drawn at random.
    pub fn get_random_emotion(&self) -> (r: EmotionType)
        ensures
            detectable().contains(r),
    {
        proof {
            use_type_invariant(self);
        }
        let k = random_below(self.emotions.len());
        self.emotion_at(k)
    }

    /// Whether a reply with this emotion offers encouragement buttons.
    pub fn should_show_encouragement_buttons(&self, emotion: &EmotionType) -> (r: bool)
        ensures
            r == (*emotion == EmotionType::Helpful || *emotion == EmotionType::Professional
                || *emotion == EmotionType::Encouraging),
    {
        matches!(
            emotion,
            EmotionType::Helpful | EmotionType::Professional | EmotionType::Encouraging,
        )
    }
}

/// At most one position wins, so the winner of a scoring is unique.
pub proof fn lemma_winner_unique(scores: Seq<nat>, a: int, b: int)
    requires
        is_winner(scores, a),
        is_winner(scores, b),
    ensures
        a == b,
{
}

} // verus!
