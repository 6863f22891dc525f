//! Translation requests: language defaults, the provider query, and reading
//! the provider's answer.

use vstd::prelude::*;
use vstd::string::*;
use crate::json::{parse_json, string_at, error_text, json_accepts, json_string_at};

verus! {

/// The provider's endpoint; the query of a request goes to it by HTTP GET.
pub const TRANSLATE_ENDPOINT: &'static str = "https://api.mymemory.translated.net/get";

/// Text to translate, with optional source and target language tags.
#[derive(Debug, Clone, PartialEq, Eq)]
pub struct TranslationRequest {
    pub text: String,
    pub from: Option<String>,
    pub to: Option<String>,
}

/// A translation, with the language tags that were used.
#[derive(Debug, Clone, PartialEq, Eq)]
pub struct TranslationResult {
    pub original: String,
    pub translated: String,
    pub from: String,
    pub to: String,
}

#[derive(Debug, Clone, PartialEq, Eq)]
pub enum TranslationError {
    /// The provider could not be reached; holds the transport's message.
    RequestFailed(String),
    /// The provider's answer is not JSON; holds the parser's message.
    ResponseParseFailed(String),
    /// The answer holds no string at `responseData.translatedText`.
    NoTranslationFound,
}

pub open spec fn default_source() -> Seq<char> {
    "auto"@
}

pub open spec fn default_target() -> Seq<char> {
    "zh"@
}

/// Where the provider's answer holds the translated text.
pub open spec fn translated_text_pointer() -> Seq<char> {
    "/responseData/translatedText"@
}

/// A language tag, or the default where none was given.
pub open spec fn resolved(lang: Option<String>, default: Seq<char>) -> Seq<char> {
    match lang {
        Some(l) => l@,
        None => default,
    }
}

impl TranslationRequest {
    pub open spec fn source_spec(&self) -> Seq<char> {
        resolved(self.from, default_source())
    }

    pub open spec fn target_spec(&self) -> Seq<char> {
        resolved(self.to, default_target())
    }

    /// The provider's `langpair` parameter: `<from>|<to>`.
    pub open spec fn lang_pair_spec(&self) -> Seq<char> {
        self.source_spec() + "|"@ + self.target_spec()
    }

    pub fn source_lang(&self) -> (r: String)
        ensures
            r@ == self.source_spec(),
    {
        match &self.from {
            Some(l) => l.clone(),
            None => String::from_str("auto"),
        }
    }

    pub fn target_lang(&self) -> (r: String)
        ensures
            r@ == self.target_spec(),
    {
        match &self.to {
            Some(l) => l.clone(),
            None => String::from_str("zh"),
        }
    }

    pub fn lang_pair(&self) -> (r: String)
        ensures
            r@ == self.lang_pair_spec(),
    {
        let mut pair = self.source_lang();
        pair.append("|");
        let target = self.target_lang();
        pair.append(target.as_str());
        pair
    }

    /// The query parameters of the provider request: `q` and `langpair`.
    pub fn query(&self) -> (r: Vec<(String, String)>)
        ensures
            r@.len() == 2,
            r@[0].0@ == "q"@,
            r@[0].1@ == self.text@,
            r@[1].0@ == "langpair"@,
            r@[1].1@ == self.lang_pair_spec(),
    {
        let mut q: Vec<(String, String)> = Vec::new();
        q.push((String::from_str("q"), self.text.clone()));
        q.push((String::from_str("langpair"), self.lang_pair()));
        q
    }
}

/// `t` is the translation of `request` into `translated`.
pub open spec fn is_translation(t: TranslationResult, request: TranslationRequest, translated: Seq<char>) -> bool {
    &&& t.original@ == request.text@
    &&& t.translated@ == translated
    &&& t.from@ == request.source_spec()
    &&& t.to@ == request.target_spec()
}

/// The outcome for the string found at `responseData.translatedText`, if any.
pub fn translation_from_field(request: &TranslationRequest, field: Option<String>) -> (r: Result<
    TranslationResult,
    TranslationError,
>)
    ensures
        match field {
            Some(s) => r is Ok && is_translation(r->Ok_0, *request, s@),
            None => r matches Err(TranslationError::NoTranslationFound),
        },
{
    match field {
        Some(translated) => Ok(
            TranslationResult {
                original: request.text.clone(),
                translated,
                from: request.source_lang(),
                to: request.target_lang(),
            },
        ),
        None => Err(TranslationError::NoTranslationFound),
    }
}

/// Reads the provider's answer `body` to `request`.
pub fn translate_response(request: &TranslationRequest, body: &str) -> (r: Result<
    TranslationResult,
    TranslationError,
>)
    ensures
        !json_accepts(body@) ==> r matches Err(TranslationError::ResponseParseFailed(_)),
        json_accepts(body@) ==> match json_string_at(body@, translated_text_pointer()) {
            Some(s) => r is Ok && is_translation(r->Ok_0, *request, s),
            None => r matches Err(TranslationError::NoTranslationFound),
        },
{
    match parse_json(body) {
        Err(e) => Err(TranslationError::ResponseParseFailed(error_text(&e))),
        Ok(doc) => {
            let field = string_at(&doc, "/responseData/translatedText");
            translation_from_field(request, field)
        },
    }
}

/// A request that names no language has the source tag `auto` and the target tag `zh`.
pub proof fn lemma_default_languages(request: TranslationRequest, t: TranslationResult, translated: Seq<char>)
    requires
        request.from is None,
        request.to is None,
        is_translation(t, request, translated),
    ensures
        t.from@ == "auto"@,
        t.to@ == "zh"@,
{
}

impl TranslationError {
    /// The message shown to the user.
    pub fn message(&self) -> (r: String)
        ensures
            match self {
                TranslationError::RequestFailed(c) => r@ == "Request failed: "@ + c@,
                TranslationError::ResponseParseFailed(c) => r@ == "Failed to parse response: "@ + c@,
                TranslationError::NoTranslationFound => r@ == "No translation found"@,
            },
    {
        match self {
            TranslationError::RequestFailed(c) => {
                let mut m = String::from_str("Request failed: ");
                m.append(c.as_str());
                m
            },
            TranslationError::ResponseParseFailed(c) => {
                let mut m = String::from_str("Failed to parse response: ");
                m.append(c.as_str());
                m
            },
            TranslationError::NoTranslationFound => String::from_str("No translation found"),
        }
    }
}

} // verus!
