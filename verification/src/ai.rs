//! The chat-relay collaborator's data and decisions: provider settings,
//! their validation and public form, the per-provider endpoint, and the
//! extraction of a user-facing message from an API error body. The HTTP
//! exchange itself happens outside the library.

use crate::text::is_space;
use crate::text::is_space_char;
use vstd::prelude::*;
use vstd::string::StringSliceAdditionalSpecFns;
use vstd::utf8::encode_utf8;

verus! {

/// The chat-completion provider a message is relayed to.
#[derive(Clone, Copy, PartialEq, Eq, Structural, Debug)]
pub enum AiProvider {
    Openai,
    Deepseek,
}

/// The persisted provider settings, credential included.
#[derive(Debug, Clone)]
pub struct AiSettings {
    pub provider: AiProvider,
    pub api_key: String,
    pub model: String,
}

/// One chat message: a role and its content.
#[derive(Debug, Clone)]
pub struct ChatMessage {
    pub role: String,
    pub content: String,
}

/// The settings as shown to the caller: whether a key exists, never the key
/// itself.
#[derive(Debug, Clone)]
pub struct AiSettingsPublic {
    pub provider: AiProvider,
    pub has_api_key: bool,
    pub model: String,
}

impl AiSettings {
    /// The public form of the settings: the provider and model unchanged,
    /// and only the presence of the credential, never its value.
    pub fn into_public(self) -> (r: AiSettingsPublic)
        ensures
            r.provider == self.provider,
            r.has_api_key == (self.api_key@.len() > 0),
            r.model == self.model,
    {
        let has_api_key = !self.api_key.as_str().is_empty();
        AiSettingsPublic { provider: self.provider, has_api_key, model: self.model }
    }
}

/// Every character of the text is whitespace (an empty text counts).
pub open spec fn all_space(s: Seq<char>) -> bool {
    forall|i: int| 0 <= i < s.len() ==> is_space(s[i])
}

/// Checks whether the text is blank, that is, empty once trimmed.
fn is_blank(s: &str) -> (r: bool)
    ensures
        r == all_space(s@),
{
    let n = s.unicode_len();
    let mut j: usize = 0;
    while j < n
        invariant
            0 <= j <= n,
            n == s@.len(),
            forall|i: int| 0 <= i < j ==> is_space(s@[i]),
        decreases n - j,
    {
        if !is_space_char(s.get_char(j)) {
            return false;
        }
        j += 1;
    }
    true
}

/// Checks settings before they are persisted: the model name must not be
/// blank and must not exceed 100 bytes.
pub fn check_ai_settings(settings: &AiSettings) -> (r: Result<(), String>)
    ensures
        all_space(settings.model@) ==> (r matches Err(m) && m@ == "Model name is required"@),
        !all_space(settings.model@) && encode_utf8(settings.model@).len() as usize > 100 ==> (r matches
            Err(m) && m@ == "Model name is too long"@),
        r is Ok <==> (!all_space(settings.model@) && encode_utf8(settings.model@).len() as usize <= 100),
{
    let m = settings.model.as_str();
    proof {
        assert(m.spec_bytes() == encode_utf8(settings.model@));
    }
    if is_blank(m) {
        return Err("Model name is required".to_owned());
    }
    if m.len() > 100 {
        return Err("Model name is too long".to_owned());
    }
    Ok(())
}

/// The chat-completion endpoint of each provider.
pub fn get_api_url(provider: &AiProvider) -> (r: String)
    ensures
        *provider == AiProvider::Openai ==> r@ == "https://api.openai.com/v1/chat/completions"@,
        *provider == AiProvider::Deepseek ==> r@ == "https://api.deepseek.com/chat/completions"@,
{
    match provider {
        AiProvider::Openai => "https://api.openai.com/v1/chat/completions".to_owned(),
        AiProvider::Deepseek => "https://api.deepseek.com/chat/completions".to_owned(),
    }
}

/// Admits a message relay only with configured settings and a non-empty
/// key, reporting which of the two is missing.
pub fn require_api_key(settings: Option<AiSettings>) -> (r: Result<AiSettings, String>)
    ensures
        settings is None ==> (r matches Err(m) && m@
            == "AI settings not configured. Open settings to add your API key."@),
        settings is Some && settings->0.api_key@.len() == 0 ==> (r matches Err(m) && m@
            == "API key is not configured"@),
        settings is Some && settings->0.api_key@.len() > 0 ==> r == Ok::<AiSettings, String>(
            settings->0,
        ),
{
    match settings {
        Some(s) => {
            if s.api_key.as_str().is_empty() {
                Err("API key is not configured".to_owned())
            } else {
                Ok(s)
            }
        },
        None => Err("AI settings not configured. Open settings to add your API key.".to_owned()),
    }
}

/// What parsing a text as JSON yields; a function of the text alone.
pub uninterp spec fn parsed_json(s: Seq<char>) -> Option<serde_json::Value>;

/// What looking a field up in a JSON value yields: the field's value when
/// the value is an object that has it.
pub uninterp spec fn json_field(v: serde_json::Value, key: Seq<char>) -> Option<serde_json::Value>;

/// What reading a JSON value as a string yields: its text when it is a
/// string.
pub uninterp spec fn json_str(v: serde_json::Value) -> Option<Seq<char>>;

/// Relies on serde_json::from_str: the parsed document of a valid JSON
/// text.
#[verifier::external_body]
fn json_parse(s: &str) -> (r: Option<serde_json::Value>)
    ensures
        r == parsed_json(s@),
{
    serde_json::from_str(s).ok()
}

/// Relies on serde_json's Value::get: the value of an object's field, if
/// the value is an object with that field.
#[verifier::external_body]
fn json_get<'a>(v: &'a serde_json::Value, key: &str) -> (r: Option<&'a serde_json::Value>)
    ensures
        r is Some <==> json_field(*v, key@) is Some,
        r matches Some(x) ==> json_field(*v, key@) == Some(*x),
{
    v.get(key)
}

/// Relies on serde_json's Value::as_str: the text of a JSON string value.
#[verifier::external_body]
fn json_as_str(v: &serde_json::Value) -> (r: Option<String>)
    ensures
        r is Some <==> json_str(*v) is Some,
        r matches Some(s) ==> json_str(*v) == Some(s@),
{
    v.as_str().map(|s| s.to_owned())
}

/// The message a failed response body carries, if any: the text of the
/// `message` field of its `error` object.
pub open spec fn api_message_of(body: Seq<char>) -> Option<Seq<char>> {
    match parsed_json(body) {
        Some(doc) => match json_field(doc, "error"@) {
            Some(err) => match json_field(err, "message"@) {
                Some(msg) => json_str(msg),
                None => None,
            },
            None => None,
        },
        None => None,
    }
}

/// The user-facing message for a failed API call: the message the provider
/// sent if one was extracted, else a generic line naming the status.
pub fn api_error_message(extracted: Option<String>, status_text: &str) -> (r: String)
    ensures
        extracted matches Some(m) ==> r == m,
        extracted is None ==> r@ == "Request failed with status "@ + status_text@,
{
    match extracted {
        Some(m) => m,
        None => {
            let mut s = "Request failed with status ".to_owned();
            s.append(status_text);
            s
        },
    }
}

/// Extracts the provider's own error message from a failed response body
/// (the `message` field of its `error` object), falling back to a generic
/// line naming the status.
pub fn parse_api_error(status_text: &str, body: &str) -> (r: String)
    ensures
        api_message_of(body@) matches Some(m) ==> r@ == m,
        api_message_of(body@) is None ==> r@ == "Request failed with status "@ + status_text@,
{
    let mut extracted: Option<String> = None;
    if let Some(doc) = json_parse(body) {
        if let Some(err) = json_get(&doc, "error") {
            if let Some(msg) = json_get(err, "message") {
                extracted = json_as_str(msg);
            }
        }
    }
    api_error_message(extracted, status_text)
}

} // verus!
