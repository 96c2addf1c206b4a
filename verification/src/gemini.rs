//! What the model provider's answer is read as, and the fixed parts of a
//! request to it.
use vstd::prelude::*;
use crate::text::{chars_of, owned, push_text, string_of};

verus! {

/// How the provider rates a text in one category of harm.
#[derive(Debug)]
pub struct SafetyRating {
    pub category: String,
    pub probability: String,
}

/// The reply of the model.
#[derive(Debug)]
pub struct GeminiResponse {
    pub content: String,
    pub finish_reason: Option<String>,
    pub safety_ratings: Option<Vec<SafetyRating>>,
}

/// One candidate answer of the provider: its text parts and what came with
/// them.
#[derive(Debug)]
pub struct Candidate {
    pub parts: Vec<String>,
    pub finish_reason: Option<String>,
    pub safety_ratings: Option<Vec<SafetyRating>>,
}

/// What is asked of the provider in one category of harm.
#[derive(Debug)]
pub struct SafetySetting {
    pub category: String,
    pub threshold: String,
}

/// Why no reply could be had.
#[derive(Debug, Clone, Copy, PartialEq, Eq, Structural)]
pub enum GeminiError {
    /// The provider sent no candidate with a text part.
    NoValidResponse,
}

/// The address of the model.
pub open spec fn api_address() -> Seq<char> {
    "https://generativelanguage.googleapis.com/v1beta/models/gemini-1.5-flash:generateContent"@
}

/// The address of a request: the model's address with the key as a query.
pub open spec fn request_address(api_url: Seq<char>, api_key: Seq<char>) -> Seq<char> {
    api_url + "?key="@ + api_key
}

/// The categories of harm that a request names, each with the threshold
/// asked for.
pub open spec fn safety_texts() -> Seq<(Seq<char>, Seq<char>)> {
    seq![
        ("HARM_CATEGORY_HARASSMENT"@, "BLOCK_MEDIUM_AND_ABOVE"@),
        ("HARM_CATEGORY_HATE_SPEECH"@, "BLOCK_MEDIUM_AND_ABOVE"@),
        ("HARM_CATEGORY_SEXUALLY_EXPLICIT"@, "BLOCK_MEDIUM_AND_ABOVE"@),
        ("HARM_CATEGORY_DANGEROUS_CONTENT"@, "BLOCK_MEDIUM_AND_ABOVE"@),
    ]
}

/// The address of the model.
pub fn api_url() -> (r: String)
    ensures
        r@ == api_address(),
{
    owned("https://generativelanguage.googleapis.com/v1beta/models/gemini-1.5-flash:generateContent")
}

/// The address of a request.
pub fn request_url(api_url: &str, api_key: &str) -> (r: String)
    ensures
        r@ == request_address(api_url@, api_key@),
{
    let mut out = chars_of(api_url);
    push_text(&mut out, "?key=");
    push_text(&mut out, api_key);
    string_of(&out)
}

/// The safety settings of a request.
pub fn safety_settings() -> (r: Vec<SafetySetting>)
    ensures
        Seq::new(r@.len(), |i: int| (r@[i].category@, r@[i].threshold@)) == safety_texts(),
{
    let mut out: Vec<SafetySetting> = Vec::new();
    out.push(
        SafetySetting {
            category: owned("HARM_CATEGORY_HARASSMENT"),
            threshold: owned("BLOCK_MEDIUM_AND_ABOVE"),
        },
    );
    out.push(
        SafetySetting {
            category: owned("HARM_CATEGORY_HATE_SPEECH"),
            threshold: owned("BLOCK_MEDIUM_AND_ABOVE"),
        },
    );
    out.push(
        SafetySetting {
            category: owned("HARM_CATEGORY_SEXUALLY_EXPLICIT"),
            threshold: owned("BLOCK_MEDIUM_AND_ABOVE"),
        },
    );
    out.push(
        SafetySetting {
            category: owned("HARM_CATEGORY_DANGEROUS_CONTENT"),
            threshold: owned("BLOCK_MEDIUM_AND_ABOVE"),
        },
    );
    proof {
        assert(Seq::new(out@.len(), |i: int| (out@[i].category@, out@[i].threshold@))
            =~= safety_texts());
    }
    out
}

/// The reply in what the provider sent: the first text part of the first
/// candidate, with the candidate's finish reason and ratings.
pub fn first_response(candidates: Option<Vec<Candidate>>) -> (r: Result<
    GeminiResponse,
    GeminiError,
>)
    ensures
        match r {
            Ok(x) => match candidates {
                Some(c) => c@.len() > 0 && c@[0].parts@.len() > 0 && x.content == c@[0].parts@[0]
                    && x.finish_reason == c@[0].finish_reason && x.safety_ratings
                    == c@[0].safety_ratings,
                None => false,
            },
            Err(e) => e == GeminiError::NoValidResponse && match candidates {
                Some(c) => c@.len() == 0 || c@[0].parts@.len() == 0,
                None => true,
            },
        },
{
    match candidates {
        Some(list) => {
            let mut list = list;
            if list.len() == 0 {
                return Err(GeminiError::NoValidResponse);
            }
            let first = list.swap_remove(0);
            let mut parts = first.parts;
            if parts.len() == 0 {
                return Err(GeminiError::NoValidResponse);
            }
            let content = parts.swap_remove(0);
            Ok(
                GeminiResponse {
                    content,
                    finish_reason: first.finish_reason,
                    safety_ratings: first.safety_ratings,
                },
            )
        },
        None => Err(GeminiError::NoValidResponse),
    }
}

} // verus!
