//! Provider configuration, errors, request headers and the parts of a chat
//! completion that do not depend on the provider's wire format.
pub mod factory;
pub mod generic;
pub mod mistral;
pub mod sse;

use std::collections::HashMap;
use vstd::prelude::*;
use crate::backend::factory::BackendType;
use crate::types::{LlmChunk, ToolChoice};

verus! {

/// The error type of an HTTP request made with reqwest.
#[verifier::external_type_specification]
#[verifier::external_body]
pub struct ExRequestError(reqwest::Error);

/// Errors of the language-model backends.
#[derive(Debug)]
pub enum LlmError {
    /// The HTTP request itself failed.
    RequestFailed(reqwest::Error),
    /// The provider answered with a non-success status.
    ApiError { provider: String, status: u16, message: String },
    /// The provider's answer could not be understood.
    ParseError(String),
    /// The answer carried no token usage.
    MissingUsage,
    /// The environment variable that should hold the API key is not set.
    MissingApiKey { provider: String, env_var: String },
}

/// Result type of the backends.
pub type LlmResult<T> = Result<T, LlmError>;

/// Configuration for a provider.
#[derive(Debug)]
pub struct ProviderConfig {
    /// Provider name.
    pub name: String,
    /// Base URL for the API.
    pub api_base: String,
    /// Environment variable containing the API key.
    pub api_key_env_var: String,
    /// Backend type to use.
    pub backend: BackendType,
}

/// Options for a completion request.
#[derive(Debug, Default)]
pub struct CompletionOptions {
    /// Maximum tokens to generate.
    pub max_tokens: Option<u32>,
    /// Tool choice directive.
    pub tool_choice: Option<ToolChoice>,
    /// Extra headers to include.
    pub extra_headers: Option<HashMap<String, String>>,
}

/// The chat-completions endpoint below a base URL.
pub open spec fn endpoint_of(api_base: Seq<char>) -> Seq<char> {
    api_base + "/chat/completions"@
}

impl ProviderConfig {
    /// The environment variable to read the API key from: none when the
    /// provider names none.
    pub fn api_key_variable(&self) -> (v: Option<&str>)
        ensures
            match v {
                Some(name) => name@ == self.api_key_env_var@ && name@.len() > 0,
                None => self.api_key_env_var@.len() == 0,
            },
    {
        if self.api_key_env_var.as_str().is_empty() {
            None
        } else {
            Some(self.api_key_env_var.as_str())
        }
    }

    /// The chat-completions endpoint of the provider.
    pub fn endpoint(&self) -> (url: String)
        ensures
            url@ == endpoint_of(self.api_base@),
    {
        let mut url = self.api_base.clone();
        url.append("/chat/completions");
        url
    }
}

/// An HTTP status in the success class (what reqwest's `StatusCode::is_success` tests).
pub open spec fn is_success_status(status: u16) -> bool {
    200 <= status && status < 300
}

/// Whether the HTTP status is a success.
pub fn status_is_success(status: u16) -> (ok: bool)
    ensures
        ok == is_success_status(status),
{
    200 <= status && status < 300
}

/// The error for a non-success answer of a provider.
pub fn api_error(provider: &str, status: u16, body: String) -> (e: LlmError)
    ensures
        e matches LlmError::ApiError { provider: p, status: s, message: m } && p@ == provider@
            && s == status && m@ == body@,
{
    LlmError::ApiError { provider: provider.to_string(), status, message: body }
}

/// The text of the error for an answer that did not parse.
pub open spec fn parse_failure_text(reason: Seq<char>, body: Seq<char>) -> Seq<char> {
    "Failed to parse response: "@ + reason + "\nBody: "@ + body
}

/// The error for an answer whose body did not parse.
pub fn parse_failure(reason: &str, body: &str) -> (e: LlmError)
    ensures
        e matches LlmError::ParseError(m) && m@ == parse_failure_text(reason@, body@),
{
    let mut text = String::new();
    text.append("Failed to parse response: ");
    text.append(reason);
    text.append("\nBody: ");
    text.append(body);
    LlmError::ParseError(text)
}

/// The number of prompt tokens a completion reports, which is how a
/// conversation's tokens are counted.
pub fn prompt_tokens_of(chunk: &LlmChunk) -> (r: LlmResult<u32>)
    ensures
        match chunk.usage {
            Some(u) => r matches Ok(n) && n == u.prompt_tokens,
            None => r matches Err(LlmError::MissingUsage),
        },
{
    match &chunk.usage {
        Some(u) => Ok(u.prompt_tokens),
        None => Err(LlmError::MissingUsage),
    }
}

// ---------------------------------------------------------------- headers

/// A character allowed in an HTTP header value: a tab, or anything from the
/// space upwards except DEL (non-ASCII characters encode to bytes above 0x7f,
/// which header values accept).
pub open spec fn header_value_char(c: char) -> bool {
    c == '\t' || (c as u32 >= 32 && c as u32 != 127)
}

/// Whether every character of `s` may stand in a header value.
pub open spec fn valid_header_value(s: Seq<char>) -> bool {
    forall|i: int| 0 <= i < s.len() ==> header_value_char(#[trigger] s[i])
}

/// A character allowed in an HTTP header name: an ASCII letter or digit, or
/// one of `!#$%&'*+-.^_`|~`.
pub open spec fn header_name_char(c: char) -> bool {
    ||| ('a' <= c && c <= 'z')
    ||| ('A' <= c && c <= 'Z')
    ||| ('0' <= c && c <= '9')
    ||| c == '!' || c == '#' || c == '$' || c == '%' || c == '&' || c == '\''
    ||| c == '*' || c == '+' || c == '-' || c == '.' || c == '^' || c == '_'
    ||| c == '`' || c == '|' || c == '~'
}

/// Whether reqwest accepts `name` as a header name: 1 to 65535 characters,
/// each allowed in a header name (so each one byte long).
pub open spec fn header_name_accepts(name: Seq<char>) -> bool {
    &&& 1 <= name.len() <= 65535
    &&& forall|i: int| 0 <= i < name.len() ==> header_name_char(#[trigger] name[i])
}

/// `HeaderValue::from_str` of reqwest: it accepts a string exactly when each of
/// its bytes is a tab, or at least 32 and not 127.
#[verifier::external_body]
fn header_value_is_valid(s: &str) -> (ok: bool)
    ensures
        ok == valid_header_value(s@),
{
    reqwest::header::HeaderValue::from_str(s).is_ok()
}

/// `HeaderName::try_from(&String)` of reqwest: it accepts a name of 1 to
/// 65535 bytes, each an ASCII letter or digit or one of `!#$%&'*+-.^_`|~`.
#[verifier::external_body]
fn header_name_is_valid(name: &String) -> (ok: bool)
    ensures
        ok == header_name_accepts(name@),
{
    reqwest::header::HeaderName::try_from(name).is_ok()
}

/// A header as a pair of name and value.
pub open spec fn header_view(h: (String, String)) -> (Seq<char>, Seq<char>) {
    (h.0@, h.1@)
}

/// The views of a list of headers.
pub open spec fn headers_view(v: Seq<(String, String)>) -> Seq<(Seq<char>, Seq<char>)> {
    v.map_values(|h: (String, String)| header_view(h))
}

/// The extra headers that are kept: those whose name and value are both valid,
/// in their order.
pub open spec fn accepted_headers(extra: Seq<(Seq<char>, Seq<char>)>) -> Seq<(Seq<char>, Seq<char>)>
    decreases extra.len(),
{
    if extra.len() == 0 {
        Seq::empty()
    } else {
        let kept = accepted_headers(extra.drop_last());
        let h = extra.last();
        if header_name_accepts(h.0) && valid_header_value(h.1) {
            kept.push(h)
        } else {
            kept
        }
    }
}

/// The content-type header every request carries.
pub open spec fn json_content_type() -> (Seq<char>, Seq<char>) {
    ("content-type"@, "application/json"@)
}

/// The authorization value for an API key.
pub open spec fn bearer(key: Seq<char>) -> Seq<char> {
    "Bearer "@ + key
}

/// The authorization header for an API key.
pub open spec fn authorization(key: Seq<char>) -> (Seq<char>, Seq<char>) {
    ("authorization"@, bearer(key))
}

/// The extra headers whose name was found acceptable (`name_ok`, one flag per
/// header) and whose value is valid, in their order.
pub open spec fn selected_headers(
    extra: Seq<(Seq<char>, Seq<char>)>,
    name_ok: Seq<bool>,
) -> Seq<(Seq<char>, Seq<char>)>
    decreases extra.len(),
{
    if extra.len() == 0 {
        Seq::empty()
    } else {
        let kept = selected_headers(extra.drop_last(), name_ok.drop_last());
        let h = extra.last();
        if name_ok.last() && valid_header_value(h.1) {
            kept.push(h)
        } else {
            kept
        }
    }
}

proof fn lemma_selected_is_accepted(extra: Seq<(Seq<char>, Seq<char>)>, name_ok: Seq<bool>)
    requires
        name_ok.len() == extra.len(),
        forall|j: int| 0 <= j < extra.len() ==> name_ok[j] == header_name_accepts(#[trigger] extra[j].0),
    ensures
        selected_headers(extra, name_ok) == accepted_headers(extra),
    decreases extra.len(),
{
    if extra.len() > 0 {
        let e = extra.drop_last();
        let o = name_ok.drop_last();
        assert forall|j: int| 0 <= j < e.len() implies o[j] == header_name_accepts(#[trigger] e[j].0) by {
            assert(e[j] == extra[j]);
        }
        lemma_selected_is_accepted(e, o);
        assert(name_ok.last() == header_name_accepts(extra[extra.len() - 1].0));
    }
}

/// Keeps the extra headers whose name was found acceptable and whose value is
/// valid, in order.
pub fn select_headers(extra: &Vec<(String, String)>, name_ok: &Vec<bool>) -> (kept: Vec<(String, String)>)
    requires
        name_ok.len() == extra.len(),
    ensures
        headers_view(kept@) == selected_headers(headers_view(extra@), name_ok@),
{
    let mut kept: Vec<(String, String)> = Vec::new();
    for i in 0..extra.len()
        invariant
            name_ok.len() == extra.len(),
            headers_view(kept@) == selected_headers(headers_view(extra@).take(i as int), name_ok@.take(i as int)),
    {
        let ghost prefix = headers_view(extra@).take(i + 1);
        assert(prefix.drop_last() == headers_view(extra@).take(i as int));
        assert(name_ok@.take(i + 1).drop_last() == name_ok@.take(i as int));
        let value = &extra[i].1;
        if name_ok[i] && header_value_is_valid(value.as_str()) {
            let ghost old_kept = kept@;
            kept.push((extra[i].0.clone(), value.clone()));
            assert(headers_view(kept@) =~= headers_view(old_kept).push(header_view(extra@[i as int])));
        }
    }
    assert(headers_view(extra@).take(extra.len() as int) == headers_view(extra@));
    assert(name_ok@.take(extra.len() as int) == name_ok@);
    kept
}

/// Keeps the valid extra headers, in order.
pub fn filter_extra_headers(extra: &Vec<(String, String)>) -> (kept: Vec<(String, String)>)
    ensures
        headers_view(kept@) == accepted_headers(headers_view(extra@)),
{
    let mut name_ok: Vec<bool> = Vec::new();
    for i in 0..extra.len()
        invariant
            name_ok.len() == i,
            forall|j: int| 0 <= j < i ==> name_ok@[j] == header_name_accepts(#[trigger] extra@[j].0@),
    {
        let ok = header_name_is_valid(&extra[i].0);
        name_ok.push(ok);
    }
    proof {
        let ev = headers_view(extra@);
        assert forall|j: int| 0 <= j < ev.len() implies name_ok@[j] == header_name_accepts(#[trigger] ev[j].0) by {
            assert(ev[j].0 == extra@[j].0@);
        }
        lemma_selected_is_accepted(ev, name_ok@);
    }
    select_headers(extra, &name_ok)
}

/// The authorization value for `key`, when it is a valid header value.
pub fn bearer_value(key: &str) -> (r: Option<String>)
    ensures
        match r {
            Some(v) => v@ == bearer(key@) && valid_header_value(bearer(key@)),
            None => !valid_header_value(bearer(key@)),
        },
{
    let mut value = String::new();
    value.append("Bearer ");
    value.append(key);
    if header_value_is_valid(value.as_str()) {
        Some(value)
    } else {
        None
    }
}

/// The headers of a request to an OpenAI-compatible provider.
pub open spec fn generic_header_list(
    api_key: Option<Seq<char>>,
    extra: Seq<(Seq<char>, Seq<char>)>,
) -> Seq<(Seq<char>, Seq<char>)> {
    let auth = match api_key {
        Some(k) => if valid_header_value(bearer(k)) {
            seq![authorization(k)]
        } else {
            Seq::empty()
        },
        None => Seq::empty(),
    };
    seq![json_content_type()] + auth + accepted_headers(extra)
}

/// The headers of a request to an OpenAI-compatible provider, in the order in
/// which they are inserted: the JSON content type, the bearer authorization
/// when there is a key that makes a valid value, and the valid extra headers.
pub fn generic_headers(api_key: Option<&str>, extra: Option<&Vec<(String, String)>>) -> (h: Vec<(String, String)>)
    ensures
        headers_view(h@) == generic_header_list(
            match api_key { Some(k) => Some(k@), None => None },
            match extra { Some(e) => headers_view(e@), None => Seq::empty() },
        ),
{
    let mut h: Vec<(String, String)> = Vec::new();
    h.push(("content-type".to_string(), "application/json".to_string()));
    if let Some(key) = api_key {
        if let Some(v) = bearer_value(key) {
            h.push(("authorization".to_string(), v));
        }
    }
    let ghost head = headers_view(h@);
    let kept = match extra {
        Some(e) => filter_extra_headers(e),
        None => Vec::new(),
    };
    let ghost kept_view = headers_view(kept@);
    let mut all = h;
    let mut kept = kept;
    all.append(&mut kept);
    assert(headers_view(all@) =~= head + kept_view);
    all
}

/// The headers of a request to Mistral: as for an OpenAI-compatible provider,
/// but the key is required.
pub open spec fn mistral_header_list(
    key: Seq<char>,
    extra: Seq<(Seq<char>, Seq<char>)>,
) -> Seq<(Seq<char>, Seq<char>)> {
    seq![json_content_type(), authorization(key)] + accepted_headers(extra)
}

/// The headers of a request to Mistral. Without a key it is the missing-key
/// error; with a key that makes no valid header value it is `Ok(None)` (the
/// request cannot be made at all); otherwise the headers in insertion order.
pub fn mistral_headers(
    provider: &ProviderConfig,
    api_key: Option<&str>,
    extra: Option<&Vec<(String, String)>>,
) -> (r: LlmResult<Option<Vec<(String, String)>>>)
    ensures
        match api_key {
            None => r matches Err(LlmError::MissingApiKey { provider: p, env_var: v })
                && p@ == provider.name@ && v@ == provider.api_key_env_var@,
            Some(k) => if valid_header_value(bearer(k@)) {
                r matches Ok(Some(h)) && headers_view(h@) == mistral_header_list(
                    k@,
                    match extra { Some(e) => headers_view(e@), None => Seq::empty() },
                )
            } else {
                r matches Ok(None)
            },
        },
{
    let key = match api_key {
        Some(k) => k,
        None => {
            return Err(
                LlmError::MissingApiKey {
                    provider: provider.name.clone(),
                    env_var: provider.api_key_env_var.clone(),
                },
            );
        },
    };
    let auth = match bearer_value(key) {
        Some(v) => v,
        None => {
            return Ok(None);
        },
    };
    let mut h: Vec<(String, String)> = Vec::new();
    h.push(("content-type".to_string(), "application/json".to_string()));
    h.push(("authorization".to_string(), auth));
    let ghost head = headers_view(h@);
    let mut kept = match extra {
        Some(e) => filter_extra_headers(e),
        None => Vec::new(),
    };
    let ghost kept_view = headers_view(kept@);
    h.append(&mut kept);
    assert(headers_view(h@) =~= head + kept_view);
    Ok(Some(h))
}

} // verus!
