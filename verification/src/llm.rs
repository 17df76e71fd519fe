//! The remote-completion side of the translate and voice-action flows:
//! the error taxonomy, the classification of an HTTP reply, and the exact
//! prompts sent with a translation or a spoken instruction. The network
//! call itself lives in the host; it feeds the status code and the texts
//! through these functions.

use vstd::prelude::*;

use crate::text::str_eq;

verus! {

/// Why a remote completion failed.
#[derive(Debug, Clone, PartialEq)]
pub enum GroqError {
    /// The service rejected the key.
    InvalidApiKey,
    /// The service throttled the request.
    RateLimit,
    /// The request ran out of time.
    Timeout,
    /// Transport or server failure, with its description.
    NetworkError(String),
    /// The reply was not of the expected shape.
    ParseError(String),
}

/// Mathematical image of a [`GroqError`].
pub enum GroqErrorV {
    InvalidApiKey,
    RateLimit,
    Timeout,
    NetworkError(Seq<char>),
    ParseError(Seq<char>),
}

impl View for GroqError {
    type V = GroqErrorV;

    open spec fn view(&self) -> GroqErrorV {
        match self {
            GroqError::InvalidApiKey => GroqErrorV::InvalidApiKey,
            GroqError::RateLimit => GroqErrorV::RateLimit,
            GroqError::Timeout => GroqErrorV::Timeout,
            GroqError::NetworkError(m) => GroqErrorV::NetworkError(m@),
            GroqError::ParseError(m) => GroqErrorV::ParseError(m@),
        }
    }
}

impl GroqError {
    /// The human-readable description of the failure.
    pub fn message(&self) -> (r: String)
        ensures
            r@ == match self@ {
                GroqErrorV::InvalidApiKey => "Invalid API key"@,
                GroqErrorV::RateLimit => "Rate limit exceeded"@,
                GroqErrorV::Timeout => "Request timeout"@,
                GroqErrorV::NetworkError(m) => "Network error: "@ + m,
                GroqErrorV::ParseError(m) => "Parse error: "@ + m,
            },
    {
        match self {
            GroqError::InvalidApiKey => String::from_str("Invalid API key"),
            GroqError::RateLimit => String::from_str("Rate limit exceeded"),
            GroqError::Timeout => String::from_str("Request timeout"),
            GroqError::NetworkError(m) => String::from_str("Network error: ").concat(m.as_str()),
            GroqError::ParseError(m) => String::from_str("Parse error: ").concat(m.as_str()),
        }
    }
}

/// How a completion endpoint answered, by status code alone.
#[derive(Debug, Clone, Copy, PartialEq, Eq, Structural)]
pub enum StatusClass {
    /// A success status: the body holds the completion.
    Success,
    /// The service rejected the key.
    InvalidKey,
    /// The service throttled the request.
    RateLimited,
    /// Any other failure status: the body describes the error.
    OtherFailure,
}

/// Classify an HTTP status code of the completion endpoint: the key is
/// rejected exactly on 401, throttling is exactly 429, success is the
/// 2xx range, and everything else is some other failure.
pub fn classify_http_status(status: u16) -> (r: StatusClass)
    ensures
        r == if status == 401 {
            StatusClass::InvalidKey
        } else if status == 429 {
            StatusClass::RateLimited
        } else if 200 <= status && status < 300 {
            StatusClass::Success
        } else {
            StatusClass::OtherFailure
        },
{
    if status == 401 {
        StatusClass::InvalidKey
    } else if status == 429 {
        StatusClass::RateLimited
    } else if 200 <= status && status < 300 {
        StatusClass::Success
    } else {
        StatusClass::OtherFailure
    }
}

/// The English name a translation prompt uses for a target-language code;
/// an unknown code is used as given.
pub open spec fn language_name_spec(code: Seq<char>) -> Seq<char> {
    if code == "fr"@ { "French"@ }
    else if code == "en"@ { "English"@ }
    else if code == "de"@ { "German"@ }
    else if code == "es"@ { "Spanish"@ }
    else if code == "it"@ { "Italian"@ }
    else if code == "pt"@ { "Portuguese"@ }
    else if code == "nl"@ { "Dutch"@ }
    else if code == "ru"@ { "Russian"@ }
    else if code == "zh"@ { "Chinese"@ }
    else if code == "ja"@ { "Japanese"@ }
    else if code == "ko"@ { "Korean"@ }
    else if code == "ar"@ { "Arabic"@ }
    else { code }
}

/// The English name of a target language, for the translation prompt.
pub fn translation_language_name(code: &str) -> (r: String)
    ensures
        r@ == language_name_spec(code@),
{
    if str_eq(code, "fr") { String::from_str("French") }
    else if str_eq(code, "en") { String::from_str("English") }
    else if str_eq(code, "de") { String::from_str("German") }
    else if str_eq(code, "es") { String::from_str("Spanish") }
    else if str_eq(code, "it") { String::from_str("Italian") }
    else if str_eq(code, "pt") { String::from_str("Portuguese") }
    else if str_eq(code, "nl") { String::from_str("Dutch") }
    else if str_eq(code, "ru") { String::from_str("Russian") }
    else if str_eq(code, "zh") { String::from_str("Chinese") }
    else if str_eq(code, "ja") { String::from_str("Japanese") }
    else if str_eq(code, "ko") { String::from_str("Korean") }
    else if str_eq(code, "ar") { String::from_str("Arabic") }
    else { String::from_str(code) }
}

/// The system prompt of the translate flow for a target-language code.
pub open spec fn translation_prompt_spec(code: Seq<char>) -> Seq<char> {
    let name = language_name_spec(code);
    "You are a professional translator. Translate the following text to "@
        + name
        + ". Only output the translation, nothing else. Preserve the original formatting, punctuation and tone. If the text is already in "@
        + name
        + ", return it unchanged."@
}

/// Build the system prompt that asks for a translation into the named
/// target language.
pub fn translation_system_prompt(code: &str) -> (r: String)
    ensures
        r@ == translation_prompt_spec(code@),
{
    let name = translation_language_name(code);
    let r = String::from_str(
        "You are a professional translator. Translate the following text to ",
    )
        .concat(name.as_str())
        .concat(
            ". Only output the translation, nothing else. Preserve the original formatting, punctuation and tone. If the text is already in ",
        )
        .concat(name.as_str())
        .concat(", return it unchanged.");
    proof {
        assert(r@ =~= translation_prompt_spec(code@));
    }
    r
}

/// The fixed system prompt of the voice-action flow: execute the spoken
/// instruction on the given text and return only the result.
pub fn voice_action_system_prompt() -> (r: &'static str)
    ensures
        r@ == "Tu es un assistant qui ex\u{e9}cute des instructions sur du texte.\nL'utilisateur te donne un texte et une instruction vocale.\nEx\u{e9}cute l'instruction demand\u{e9}e sur le texte fourni.\nRetourne UNIQUEMENT le r\u{e9}sultat, sans explication ni commentaire."@,
{
    "Tu es un assistant qui ex\u{e9}cute des instructions sur du texte.\nL'utilisateur te donne un texte et une instruction vocale.\nEx\u{e9}cute l'instruction demand\u{e9}e sur le texte fourni.\nRetourne UNIQUEMENT le r\u{e9}sultat, sans explication ni commentaire."
}

/// The user prompt of the voice-action flow: the spoken instruction
/// alone when nothing was selected, else the selection and the
/// instruction, labelled.
pub open spec fn voice_action_prompt_spec(selected: Seq<char>, instruction: Seq<char>) -> Seq<char> {
    if selected.len() == 0 {
        instruction
    } else {
        "Texte:\n"@ + selected + "\n\nInstruction: "@ + instruction
    }
}

/// Build the user prompt that carries the selection and the spoken
/// instruction to the completion service.
pub fn voice_action_user_prompt(selected: &str, instruction: &str) -> (r: String)
    ensures
        r@ == voice_action_prompt_spec(selected@, instruction@),
{
    if selected.unicode_len() == 0 {
        String::from_str(instruction)
    } else {
        let r = String::from_str("Texte:\n")
            .concat(selected)
            .concat("\n\nInstruction: ")
            .concat(instruction);
        proof {
            assert(r@ =~= voice_action_prompt_spec(selected@, instruction@));
        }
        r
    }
}

} // verus!
