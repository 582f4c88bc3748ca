//! Text refinement through an Ollama server: the endpoints, the chat request, and how
//! the server's reply becomes a completion or an error. Sending the request is left to
//! the caller.

use vstd::prelude::*;

use crate::text::{trim_end_char_spec, trim_spec, trim_text, trim_trailing_slashes};

verus! {

/// `base_url` without trailing `/`, followed by `path`.
pub open spec fn spec_endpoint(base_url: Seq<char>, path: Seq<char>) -> Seq<char> {
    trim_end_char_spec(base_url, '/') + path
}

/// The chat endpoint of the server at `base_url`.
pub fn ollama_chat_url(base_url: &str) -> (url: String)
    ensures
        url@ == spec_endpoint(base_url@, "/api/chat"@),
{
    let mut url = trim_trailing_slashes(base_url);
    url.append("/api/chat");
    url
}

/// The model-list endpoint of the server at `base_url`, which a reachability check
/// asks.
pub fn ollama_tags_url(base_url: &str) -> (url: String)
    ensures
        url@ == spec_endpoint(base_url@, "/api/tags"@),
{
    let mut url = trim_trailing_slashes(base_url);
    url.append("/api/tags");
    url
}

/// Whether a reachability check succeeded, given the HTTP status of the answer (none
/// when the request failed): only a 200 counts.
pub fn reachable_from_status(status: Option<u16>) -> (reachable: bool)
    ensures
        reachable == (status == Some(200u16)),
{
    match status {
        Some(code) => code == 200,
        None => false,
    }
}

/// One chat message.
#[derive(Debug)]
pub struct OllamaMessage {
    pub role: String,
    pub content: String,
}

/// Generation options of a chat request.
#[derive(Debug)]
pub struct OllamaOptions {
    pub num_predict: i32,
}

/// A chat request, sent as JSON.
#[derive(Debug)]
pub struct OllamaChatRequest {
    pub model: String,
    pub messages: Vec<OllamaMessage>,
    pub stream: bool,
    pub options: OllamaOptions,
    /// Reasoning models emit a thinking trace before their answer unless this is off,
    /// and a short token budget may end before the answer starts.
    pub think: bool,
}

/// The token budget of a completion: the caller's when it is positive, 512 otherwise.
pub open spec fn spec_num_predict(max_tokens: i32) -> i32 {
    if max_tokens > 0 {
        max_tokens
    } else {
        512
    }
}

/// Whether `messages` are the chat for an optional system prompt and a user prompt:
/// the system message first when there is one, then the user message.
pub open spec fn is_chat_for(
    messages: Seq<OllamaMessage>,
    system_prompt: Option<Seq<char>>,
    user_prompt: Seq<char>,
) -> bool {
    match system_prompt {
        Some(system) => {
            &&& messages.len() == 2
            &&& messages[0].role@ == "system"@
            &&& messages[0].content@ == system
            &&& messages[1].role@ == "user"@
            &&& messages[1].content@ == user_prompt
        },
        None => {
            &&& messages.len() == 1
            &&& messages[0].role@ == "user"@
            &&& messages[0].content@ == user_prompt
        },
    }
}

/// The chat request for one stateless completion: no streaming, no thinking trace,
/// and the token budget `spec_num_predict` gives.
pub fn ollama_chat_request(
    model: &str,
    system_prompt: Option<&str>,
    user_prompt: &str,
    max_tokens: i32,
) -> (request: OllamaChatRequest)
    ensures
        request.model@ == model@,
        is_chat_for(
            request.messages@,
            match system_prompt {
                Some(s) => Some(s@),
                None => None,
            },
            user_prompt@,
        ),
        !request.stream,
        !request.think,
        request.options.num_predict == spec_num_predict(max_tokens),
        request.options.num_predict > 0,
{
    let mut messages: Vec<OllamaMessage> = Vec::new();
    match system_prompt {
        Some(system) => {
            messages.push(
                OllamaMessage { role: String::from_str("system"), content: system.to_owned() },
            );
        },
        None => {},
    }
    messages.push(OllamaMessage { role: String::from_str("user"), content: user_prompt.to_owned() });
    OllamaChatRequest {
        model: model.to_owned(),
        messages,
        stream: false,
        options: OllamaOptions { num_predict: if max_tokens > 0 {
            max_tokens
        } else {
            512
        } },
        think: false,
    }
}

/// What came back from a chat request.
#[derive(Debug)]
pub enum OllamaReply {
    /// The request failed (could not be sent, or the server answered with an error
    /// status); the client's error.
    RequestFailed(String),
    /// The answer was not a chat response; the parser's error.
    InvalidJson(String),
    /// The content of the answer's message.
    Message(String),
}

/// The error for a chat request to `url` that failed with `error`.
pub open spec fn spec_request_failed_error(url: Seq<char>, error: Seq<char>) -> Seq<char> {
    "Ollama request to "@ + url + " failed: "@ + error
}

/// The error for an answer from `url` that is not a chat response.
pub open spec fn spec_invalid_json_error(url: Seq<char>, error: Seq<char>) -> Seq<char> {
    "Ollama response from "@ + url + " was not valid JSON: "@ + error
}

/// The outcome of a chat request sent to `url`: the answer's content without leading
/// and trailing white space, or an error naming the endpoint.
pub fn ollama_completion_outcome(url: &str, reply: OllamaReply) -> (r: Result<String, String>)
    ensures
        match reply {
            OllamaReply::RequestFailed(e) => r matches Err(m) && m@ == spec_request_failed_error(
                url@,
                e@,
            ),
            OllamaReply::InvalidJson(e) => r matches Err(m) && m@ == spec_invalid_json_error(
                url@,
                e@,
            ),
            OllamaReply::Message(content) => r matches Ok(text) && text@ == trim_spec(content@),
        },
{
    match reply {
        OllamaReply::RequestFailed(e) => {
            let mut message = String::from_str("Ollama request to ");
            message.append(url);
            message.append(" failed: ");
            message.append(e.as_str());
            Err(message)
        },
        OllamaReply::InvalidJson(e) => {
            let mut message = String::from_str("Ollama response from ");
            message.append(url);
            message.append(" was not valid JSON: ");
            message.append(e.as_str());
            Err(message)
        },
        OllamaReply::Message(content) => Ok(trim_text(content.as_str())),
    }
}

/// A positive token budget reaches the server unchanged, whatever its size; a zero or
/// negative one becomes the default of 512.
pub proof fn lemma_budget_passes_through(max_tokens: i32)
    ensures
        max_tokens > 0 ==> spec_num_predict(max_tokens) == max_tokens,
        max_tokens <= 0 ==> spec_num_predict(max_tokens) == 512,
{
}

/// Trailing slashes on a server's base URL do not change its endpoints: `base` and
/// `base/` (or `base//`, ...) name the same server.
pub proof fn lemma_trailing_slash_irrelevant(base_url: Seq<char>, path: Seq<char>)
    ensures
        spec_endpoint(base_url.push('/'), path) == spec_endpoint(base_url, path),
{
    assert(base_url.push('/').drop_last() == base_url);
}

} // verus!
