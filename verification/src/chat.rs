//! The REST API's chat and listing endpoints: request and response types,
//! the conversation sent to each provider, and how each outcome of the
//! provider call becomes the endpoint's answer and the inference record.

use vstd::prelude::*;
use crate::logs::{AccessLogEntry, InferenceRecord};
use crate::text::{chars_of, same_text, string_from_chars};

verus! {

/// A single chat message in a conversation.
pub struct ChatMessage {
    /// Role of the message sender: "user" or "model".
    pub role: String,
    /// The content of the message.
    pub content: String,
}

/// Request body for the Gemini chat endpoint.
pub struct ChatRequest {
    /// The user's message.
    pub message: String,
    /// Conversation history for context.
    pub history: Vec<ChatMessage>,
    /// Model to use (default "gemini-2.0-flash").
    pub model: Option<String>,
}

/// Request body for the OpenAI chat endpoint.
pub struct OpenAIChatRequest {
    /// The user's message.
    pub message: String,
    /// Conversation history for context.
    pub history: Vec<ChatMessage>,
    /// Model to use (default "gpt-4o-mini").
    pub model: Option<String>,
}

/// Response from a chat endpoint.
pub struct ChatResponse {
    /// The AI's response message.
    pub response: String,
    /// The updated conversation history.
    pub history: Vec<ChatMessage>,
}

/// Health check response.
pub struct HealthResponse {
    pub status: String,
    pub uptime_secs: u64,
}

/// Error response of the REST API.
#[derive(Debug)]
pub struct ErrorResponse {
    pub error: String,
    pub code: u16,
}

/// A single OpenAI model returned by the list endpoint.
pub struct OpenAIModel {
    /// The model identifier (e.g., "gpt-4o-mini").
    pub id: String,
    /// Object type (always "model").
    pub object: Option<String>,
    /// Unix timestamp of the model's creation.
    pub created: Option<u64>,
    /// The organization that owns the model.
    pub owned_by: Option<String>,
}

/// Response from the OpenAI models list endpoint.
pub struct OpenAIModelsResponse {
    pub models: Vec<OpenAIModel>,
    pub total: usize,
}

/// Response of the access logs endpoint.
pub struct AccessLogsResponse {
    pub logs: Vec<AccessLogEntry>,
    pub total: usize,
}

/// Query parameters of the jira/list endpoint.
pub struct JiraListQuery {
    /// JQL query string (default "assignee = currentUser() ORDER BY updated DESC").
    pub jql: Option<String>,
    /// Maximum number of results (default 100).
    pub max_results: Option<u32>,
}

/// Jira issue summary of the list endpoint.
pub struct JiraIssueSummary {
    pub key: String,
    pub summary: String,
    pub status: String,
    pub status_category: String,
    pub assignee: Option<String>,
    pub priority: String,
    pub updated: String,
}

/// Response of the jira/list endpoint.
pub struct JiraListResponse {
    pub issues: Vec<JiraIssueSummary>,
    pub total: i32,
    pub jql: String,
}

/// The health response for a server up for `uptime_secs` seconds.
pub fn health(uptime_secs: u64) -> (r: HealthResponse)
    ensures
        r.status@ == "ok"@,
        r.uptime_secs == uptime_secs,
{
    HealthResponse { status: String::from_str("ok"), uptime_secs }
}

/// The JQL and result limit of a jira/list query, with their defaults.
pub fn jira_list_params(q: &JiraListQuery) -> (r: (String, u32))
    ensures
        r.0@ == (match q.jql {
            Some(j) => j@,
            None => "assignee = currentUser() ORDER BY updated DESC"@,
        }),
        r.1 == (match q.max_results {
            Some(m) => m,
            None => 100,
        }),
{
    let jql = match &q.jql {
        Some(j) => j.clone(),
        None => String::from_str("assignee = currentUser() ORDER BY updated DESC"),
    };
    let max = match q.max_results {
        Some(m) => m,
        None => 100,
    };
    (jql, max)
}

/// The chat providers of the REST API.
pub enum ChatProvider {
    Gemini,
    OpenAI,
}

/// The provider's name in logs ("gemini", "openai").
pub open spec fn provider_id(p: ChatProvider) -> Seq<char> {
    match p {
        ChatProvider::Gemini => "gemini"@,
        ChatProvider::OpenAI => "openai"@,
    }
}

/// The provider's name in messages ("Gemini", "OpenAI").
pub open spec fn provider_label(p: ChatProvider) -> Seq<char> {
    match p {
        ChatProvider::Gemini => "Gemini"@,
        ChatProvider::OpenAI => "OpenAI"@,
    }
}

/// The model used when a request names none.
pub open spec fn provider_default_model(p: ChatProvider) -> Seq<char> {
    match p {
        ChatProvider::Gemini => "gemini-2.0-flash"@,
        ChatProvider::OpenAI => "gpt-4o-mini"@,
    }
}

/// The text answered when the provider's reply holds none.
pub open spec fn provider_no_reply(p: ChatProvider) -> Seq<char> {
    "No response from "@ + provider_label(p)
}

/// Whether the API key is usable: set, and for Gemini not the placeholder
/// "YOUR_GEMINI_API_KEY_HERE".
pub open spec fn key_configured(p: ChatProvider, key: Seq<char>) -> bool {
    &&& key.len() != 0
    &&& (p == ChatProvider::Gemini ==> key != "YOUR_GEMINI_API_KEY_HERE"@)
}

/// Whether the provider's API key is usable.
pub fn api_key_configured(p: &ChatProvider, key: &str) -> (b: bool)
    ensures
        b == key_configured(*p, key@),
{
    let empty = chars_of(key).len() == 0;
    match p {
        ChatProvider::Gemini => !empty && !same_text(key, "YOUR_GEMINI_API_KEY_HERE"),
        ChatProvider::OpenAI => !empty,
    }
}

/// The model a chat request names, or the provider's default.
pub fn chat_model(p: &ChatProvider, model: &Option<String>) -> (r: String)
    ensures
        r@ == (match *model {
            Some(m) => m@,
            None => provider_default_model(*p),
        }),
{
    match model {
        Some(m) => m.clone(),
        None => match p {
            ChatProvider::Gemini => String::from_str("gemini-2.0-flash"),
            ChatProvider::OpenAI => String::from_str("gpt-4o-mini"),
        },
    }
}

/// The first `n` characters of `s` (all of them when shorter).
pub fn first_chars(s: &str, n: usize) -> (r: String)
    ensures
        r@ == (if s@.len() <= n {
            s@
        } else {
            s@.take(n as int)
        }),
{
    let c = chars_of(s);
    if c.len() <= n {
        return String::from_str(s);
    }
    let mut kept: Vec<char> = Vec::new();
    let mut i: usize = 0;
    while i < n
        invariant
            i <= n < c@.len(),
            kept@ == c@.take(i as int),
        decreases n - i,
    {
        kept.push(c[i]);
        i = i + 1;
        assert(kept@ =~= c@.take(i as int));
    }
    string_from_chars(&kept)
}

/// The role a history message has in the provider's request: OpenAI
/// calls the model "assistant".
pub open spec fn sent_role(p: ChatProvider, role: Seq<char>) -> Seq<char> {
    if p == ChatProvider::OpenAI && role == "model"@ {
        "assistant"@
    } else {
        role
    }
}

/// Whether `sent` is the conversation sent to the provider: the history,
/// with roles as the provider names them, then the user's message.
pub open spec fn conversation_sent(
    p: ChatProvider,
    history: Seq<ChatMessage>,
    message: Seq<char>,
    sent: Seq<ChatMessage>,
) -> bool {
    &&& sent.len() == history.len() + 1
    &&& forall|i: int|
        0 <= i < history.len() ==> (#[trigger] sent[i]).role@ == sent_role(p, history[i].role@)
            && sent[i].content@ == history[i].content@
    &&& sent[history.len() as int].role@ == "user"@
    &&& sent[history.len() as int].content@ == message
}

/// The conversation sent to the provider (role and text of each turn).
pub fn conversation_for(p: &ChatProvider, history: &[ChatMessage], message: &str) -> (r: Vec<
    ChatMessage,
>)
    ensures
        conversation_sent(*p, history@, message@, r@),
{
    let mut r: Vec<ChatMessage> = Vec::new();
    let mut i: usize = 0;
    while i < history.len()
        invariant
            i <= history@.len(),
            r@.len() == i,
            forall|k: int|
                0 <= k < i ==> (#[trigger] r@[k]).role@ == sent_role(*p, history@[k].role@)
                    && r@[k].content@ == history@[k].content@,
        decreases history@.len() - i,
    {
        let m = &history[i];
        let role = match p {
            ChatProvider::OpenAI => {
                if same_text(m.role.as_str(), "model") {
                    String::from_str("assistant")
                } else {
                    m.role.clone()
                }
            },
            ChatProvider::Gemini => m.role.clone(),
        };
        r.push(ChatMessage { role, content: m.content.clone() });
        i = i + 1;
    }
    r.push(ChatMessage { role: String::from_str("user"), content: String::from_str(message) });
    r
}

/// A copy of a chat history.
fn clone_history(history: &[ChatMessage]) -> (r: Vec<ChatMessage>)
    ensures
        r@.len() == history@.len(),
        forall|i: int|
            0 <= i < history@.len() ==> (#[trigger] r@[i]).role == history@[i].role
                && r@[i].content == history@[i].content,
{
    let mut r: Vec<ChatMessage> = Vec::new();
    let mut i: usize = 0;
    while i < history.len()
        invariant
            i <= history@.len(),
            r@.len() == i,
            forall|k: int|
                0 <= k < i ==> (#[trigger] r@[k]).role == history@[k].role && r@[k].content
                    == history@[k].content,
        decreases history@.len() - i,
    {
        r.push(ChatMessage { role: history[i].role.clone(), content: history[i].content.clone() });
        i = i + 1;
    }
    r
}

/// Whether `after` is the history extended by the user's message and the
/// model's reply.
pub open spec fn history_extended(
    before: Seq<ChatMessage>,
    message: Seq<char>,
    reply: Seq<char>,
    after: Seq<ChatMessage>,
) -> bool {
    &&& after.len() == before.len() + 2
    &&& forall|i: int|
        0 <= i < before.len() ==> (#[trigger] after[i]).role == before[i].role && after[i].content
            == before[i].content
    &&& after[before.len() as int].role@ == "user"@
    &&& after[before.len() as int].content@ == message
    &&& after[before.len() + 1int].role@ == "model"@
    &&& after[before.len() + 1int].content@ == reply
}

/// The history after one exchange: the user's message, then the model's
/// reply (as role "model" for either provider).
pub fn extended_history(history: &[ChatMessage], message: String, reply: String) -> (r: Vec<
    ChatMessage,
>)
    ensures
        history_extended(history@, message@, reply@, r@),
{
    let mut r = clone_history(history);
    r.push(ChatMessage { role: String::from_str("user"), content: message });
    r.push(ChatMessage { role: String::from_str("model"), content: reply });
    r
}

/// The texts of a Gemini reply: the parts of each candidate.
pub open spec fn gemini_reply_spec(candidates: Option<Seq<Seq<Seq<char>>>>) -> Seq<char> {
    match candidates {
        Some(c) => if c.len() > 0 {
            crate::text::join(c[0], Seq::empty())
        } else {
            provider_no_reply(ChatProvider::Gemini)
        },
        None => provider_no_reply(ChatProvider::Gemini),
    }
}

/// The views of the candidates' parts.
pub open spec fn candidates_view(c: Option<Vec<Vec<String>>>) -> Option<Seq<Seq<Seq<char>>>> {
    match c {
        Some(v) => Some(v@.map_values(|parts: Vec<String>| crate::text::strings_view(parts@))),
        None => None,
    }
}

/// The text of a Gemini reply: the parts of the first candidate joined,
/// or "No response from Gemini" when there is none.
pub fn gemini_reply_text(candidates: &Option<Vec<Vec<String>>>) -> (r: String)
    ensures
        r@ == gemini_reply_spec(candidates_view(*candidates)),
{
    match candidates {
        Some(c) => {
            if c.len() > 0 {
                let parts = &c[0];
                let mut out = String::new();
                let mut i: usize = 0;
                proof {
                    assert(crate::text::strings_view(parts@).take(0) =~= Seq::<Seq<char>>::empty());
                }
                while i < parts.len()
                    invariant
                        i <= parts@.len(),
                        out@ == crate::text::join(
                            crate::text::strings_view(parts@).take(i as int),
                            Seq::empty(),
                        ),
                    decreases parts@.len() - i,
                {
                    let ghost pre = crate::text::strings_view(parts@).take(i as int);
                    out = out.concat(parts[i].as_str());
                    i = i + 1;
                    proof {
                        let nxt = crate::text::strings_view(parts@).take(i as int);
                        assert(nxt.drop_last() =~= pre);
                        crate::text::lemma_join_empty_sep_push(nxt);
                    }
                }
                assert(crate::text::strings_view(parts@).take(i as int) =~= crate::text::strings_view(
                    parts@,
                ));
                out
            } else {
                String::from_str("No response from ").concat("Gemini")
            }
        },
        None => String::from_str("No response from ").concat("Gemini"),
    }
}

/// The text of an OpenAI reply: the content of the first choice, or
/// "No response from OpenAI" when there is none.
pub fn openai_reply_text(choices: &Option<Vec<Option<String>>>) -> (r: String)
    ensures
        r@ == (match *choices {
            Some(c) => if c@.len() > 0 && c@[0].is_some() {
                c@[0].unwrap()@
            } else {
                provider_no_reply(ChatProvider::OpenAI)
            },
            None => provider_no_reply(ChatProvider::OpenAI),
        }),
{
    match choices {
        Some(c) => {
            if c.len() > 0 {
                match &c[0] {
                    Some(t) => t.clone(),
                    None => String::from_str("No response from ").concat("OpenAI"),
                }
            } else {
                String::from_str("No response from ").concat("OpenAI")
            }
        },
        None => String::from_str("No response from ").concat("OpenAI"),
    }
}

/// How the call to the provider went.
pub enum ChatCallOutcome {
    /// The request could not be sent.
    SendFailed(String),
    /// The response body could not be read.
    ReadFailed { status: u16, error: String },
    /// The provider answered with a status that is not a success.
    HttpError { status: u16, body: String },
    /// The body is not the provider's JSON.
    ParseFailed { status: u16, error: String },
    /// The JSON holds an error.
    ApiError { status: u16, message: String },
    /// The reply text.
    Reply(String),
}

/// The endpoint's error for a failed call: message and code.
pub open spec fn chat_error_spec(p: ChatProvider, o: ChatCallOutcome) -> (Seq<char>, u16) {
    match o {
        ChatCallOutcome::SendFailed(e) => ("Failed to call "@ + provider_label(p) + " API: "@ + e@, 500),
        ChatCallOutcome::ReadFailed { status, error } => (
            "Failed to read "@ + provider_label(p) + " response: "@ + error@,
            500,
        ),
        ChatCallOutcome::HttpError { status, body } => (
            provider_label(p) + " API error: "@ + body@,
            status,
        ),
        ChatCallOutcome::ParseFailed { status, error } => (
            "Failed to parse "@ + provider_label(p) + " response: "@ + error@,
            500,
        ),
        ChatCallOutcome::ApiError { status, message } => (message@, 500),
        ChatCallOutcome::Reply(_) => (Seq::empty(), 200),
    }
}

/// The label of a provider.
fn label(p: &ChatProvider) -> (r: &'static str)
    ensures
        r@ == provider_label(*p),
{
    match p {
        ChatProvider::Gemini => "Gemini",
        ChatProvider::OpenAI => "OpenAI",
    }
}

/// The answer of a chat endpoint for the outcome of the provider call: the
/// reply with the extended history, or the error and its code.
pub fn chat_answer(
    p: &ChatProvider,
    history: &[ChatMessage],
    message: String,
    outcome: ChatCallOutcome,
) -> (r: Result<ChatResponse, ErrorResponse>)
    ensures
        match outcome {
            ChatCallOutcome::Reply(text) => r matches Ok(resp) && resp.response@ == text@
                && history_extended(history@, message@, text@, resp.history@),
            _ => r matches Err(e) && e.error@ == chat_error_spec(*p, outcome).0 && e.code
                == chat_error_spec(*p, outcome).1,
        },
{
    let name = label(p);
    match outcome {
        ChatCallOutcome::SendFailed(e) => Err(
            ErrorResponse {
                error: String::from_str("Failed to call ").concat(name).concat(" API: ").concat(
                    e.as_str(),
                ),
                code: 500,
            },
        ),
        ChatCallOutcome::ReadFailed { status, error } => Err(
            ErrorResponse {
                error: String::from_str("Failed to read ").concat(name).concat(
                    " response: ",
                ).concat(error.as_str()),
                code: 500,
            },
        ),
        ChatCallOutcome::HttpError { status, body } => Err(
            ErrorResponse {
                error: String::from_str(name).concat(" API error: ").concat(body.as_str()),
                code: status,
            },
        ),
        ChatCallOutcome::ParseFailed { status, error } => Err(
            ErrorResponse {
                error: String::from_str("Failed to parse ").concat(name).concat(
                    " response: ",
                ).concat(error.as_str()),
                code: 500,
            },
        ),
        ChatCallOutcome::ApiError { status, message } => Err(
            ErrorResponse { error: message, code: 500 },
        ),
        ChatCallOutcome::Reply(text) => {
            let reply = text.clone();
            let h = extended_history(history, message, text);
            Ok(ChatResponse { response: reply, history: h })
        },
    }
}

/// The error answered when the provider's API key is not configured.
pub open spec fn key_missing_error(p: ChatProvider) -> Seq<char> {
    match p {
        ChatProvider::Gemini => "Gemini API key not configured. Please set GEMINI_API_KEY in .env file."@,
        ChatProvider::OpenAI => "OpenAI API key not configured. Please set OPENAI_API_KEY in .env file."@,
    }
}

/// The 400 answer for a provider without an API key.
pub fn key_missing(p: &ChatProvider) -> (r: ErrorResponse)
    ensures
        r.error@ == key_missing_error(*p),
        r.code == 400,
{
    let error = match p {
        ChatProvider::Gemini => String::from_str(
            "Gemini API key not configured. Please set GEMINI_API_KEY in .env file.",
        ),
        ChatProvider::OpenAI => String::from_str(
            "OpenAI API key not configured. Please set OPENAI_API_KEY in .env file.",
        ),
    };
    ErrorResponse { error, code: 400 }
}

/// The success flag, status and error message logged for an outcome.
pub open spec fn outcome_log_spec(o: ChatCallOutcome) -> (bool, Option<u16>, Option<Seq<char>>) {
    match o {
        ChatCallOutcome::SendFailed(e) => (false, None, Some("HTTP error: "@ + e@)),
        ChatCallOutcome::ReadFailed { status, error } => (
            false,
            Some(status),
            Some("Failed to read response: "@ + error@),
        ),
        ChatCallOutcome::HttpError { status, body } => (false, Some(status), Some("API error: "@ + body@)),
        ChatCallOutcome::ParseFailed { status, error } => (
            false,
            Some(status),
            Some("Failed to parse response: "@ + error@),
        ),
        ChatCallOutcome::ApiError { status, message } => (false, Some(status), Some(message@)),
        ChatCallOutcome::Reply(_) => (true, Some(200), None),
    }
}

/// The inference record of a chat call: provider, model, "chat", and the
/// success, status and error of the outcome (`duration_ms`, the message
/// preview, token counts and metadata as given).
pub fn chat_inference_record(
    p: &ChatProvider,
    model: &str,
    outcome: &ChatCallOutcome,
    duration_ms: u64,
    preview: String,
    tokens: (Option<u32>, Option<u32>, Option<u32>),
    metadata: Option<String>,
) -> (r: InferenceRecord)
    ensures
        r.provider@ == provider_id(*p),
        r.model@ == model@,
        r.request_type@ == "chat"@,
        r.success == outcome_log_spec(*outcome).0,
        r.status_code == outcome_log_spec(*outcome).1,
        (match r.error_message {
            Some(m) => outcome_log_spec(*outcome).2 == Some(m@),
            None => outcome_log_spec(*outcome).2 is None,
        }),
        r.duration_ms == duration_ms,
        r.prompt_tokens == tokens.0,
        r.completion_tokens == tokens.1,
        r.total_tokens == tokens.2,
        r.system_prompt is None,
        r.user_message_preview == Some(preview),
        r.metadata == metadata,
{
    let (success, status_code, error_message): (bool, Option<u16>, Option<String>) = match outcome {
        ChatCallOutcome::SendFailed(e) => (
            false,
            None,
            Some(String::from_str("HTTP error: ").concat(e.as_str())),
        ),
        ChatCallOutcome::ReadFailed { status, error } => (
            false,
            Some(*status),
            Some(String::from_str("Failed to read response: ").concat(error.as_str())),
        ),
        ChatCallOutcome::HttpError { status, body } => (
            false,
            Some(*status),
            Some(String::from_str("API error: ").concat(body.as_str())),
        ),
        ChatCallOutcome::ParseFailed { status, error } => (
            false,
            Some(*status),
            Some(String::from_str("Failed to parse response: ").concat(error.as_str())),
        ),
        ChatCallOutcome::ApiError { status, message } => (false, Some(*status), Some(message.clone())),
        ChatCallOutcome::Reply(_) => (true, Some(200), None),
    };
    let provider = match p {
        ChatProvider::Gemini => String::from_str("gemini"),
        ChatProvider::OpenAI => String::from_str("openai"),
    };
    InferenceRecord {
        provider,
        model: String::from_str(model),
        request_type: String::from_str("chat"),
        success,
        status_code,
        duration_ms,
        prompt_tokens: tokens.0,
        completion_tokens: tokens.1,
        total_tokens: tokens.2,
        error_message,
        system_prompt: None,
        user_message_preview: Some(preview),
        metadata,
    }
}

/// The inference record of a chat refused for a missing API key.
pub fn key_missing_record(p: &ChatProvider, model: &str, duration_ms: u64, preview: String) -> (r:
    InferenceRecord)
    ensures
        r.provider@ == provider_id(*p),
        r.model@ == model@,
        r.request_type@ == "chat"@,
        !r.success,
        r.status_code == Some(400u16),
        r.error_message matches Some(m) && m@ == provider_label(*p) + " API key not configured"@,
        r.duration_ms == duration_ms,
        r.user_message_preview == Some(preview),
        r.metadata is None,
{
    let provider = match p {
        ChatProvider::Gemini => String::from_str("gemini"),
        ChatProvider::OpenAI => String::from_str("openai"),
    };
    InferenceRecord {
        provider,
        model: String::from_str(model),
        request_type: String::from_str("chat"),
        success: false,
        status_code: Some(400),
        duration_ms,
        prompt_tokens: None,
        completion_tokens: None,
        total_tokens: None,
        error_message: Some(String::from_str(label(p)).concat(" API key not configured")),
        system_prompt: None,
        user_message_preview: Some(preview),
        metadata: None,
    }
}

/// The preview of the user's message kept in the inference log: its
/// first 100 characters.
pub open spec fn message_preview(message: Seq<char>) -> Seq<char> {
    if message.len() <= 100 {
        message
    } else {
        message.take(100)
    }
}

/// The model a chat request uses: the one it names, or the provider's
/// default.
pub open spec fn chosen_model(p: ChatProvider, model: Option<String>) -> Seq<char> {
    match model {
        Some(m) => m@,
        None => provider_default_model(p),
    }
}

/// What a chat request asks of the caller first.
pub enum ChatStart {
    /// No usable API key: answer this 400 error and log this record;
    /// nothing is sent to the provider.
    Refused(ErrorResponse, InferenceRecord),
    /// Send this conversation to the provider, for this model.
    Send(String, Vec<ChatMessage>),
}

/// The first decision of a chat endpoint: refuse the request when the
/// provider's API key is not usable (the 400 answer, and its one inference
/// record taken `duration_ms` after the request came in), else send the
/// conversation for the chosen model.
pub fn chat_start(
    p: &ChatProvider,
    key: &str,
    model: &Option<String>,
    history: &[ChatMessage],
    message: &str,
    duration_ms: u64,
) -> (r: ChatStart)
    ensures
        !key_configured(*p, key@) ==> (r matches ChatStart::Refused(e, rec) && {
            &&& e.error@ == key_missing_error(*p)
            &&& e.code == 400
            &&& rec.provider@ == provider_id(*p)
            &&& rec.model@ == chosen_model(*p, *model)
            &&& rec.request_type@ == "chat"@
            &&& !rec.success
            &&& rec.status_code == Some(400u16)
            &&& (rec.error_message matches Some(m) && m@ == provider_label(*p)
                + " API key not configured"@)
            &&& rec.duration_ms == duration_ms
            &&& (rec.user_message_preview matches Some(v) && v@ == message_preview(message@))
        }),
        key_configured(*p, key@) ==> (r matches ChatStart::Send(m, conv) && m@ == chosen_model(
            *p,
            *model,
        ) && conversation_sent(*p, history@, message@, conv@)),
{
    let m = chat_model(p, model);
    if !api_key_configured(p, key) {
        let preview = first_chars(message, 100);
        let record = key_missing_record(p, m.as_str(), duration_ms, preview);
        return ChatStart::Refused(key_missing(p), record);
    }
    ChatStart::Send(m, conversation_for(p, history, message))
}

/// The last decision of a chat endpoint, once the provider was called: the
/// answer for the call's outcome, and the one inference record of the
/// request, which succeeds exactly when the answer does.
pub fn chat_finish(
    p: &ChatProvider,
    model: &str,
    history: &[ChatMessage],
    message: String,
    outcome: ChatCallOutcome,
    duration_ms: u64,
    tokens: (Option<u32>, Option<u32>, Option<u32>),
    metadata: Option<String>,
) -> (r: (Result<ChatResponse, ErrorResponse>, InferenceRecord))
    ensures
        r.1.success == r.0 is Ok,
        r.1.success == outcome_log_spec(outcome).0,
        r.1.status_code == outcome_log_spec(outcome).1,
        (match r.1.error_message {
            Some(m) => outcome_log_spec(outcome).2 == Some(m@),
            None => outcome_log_spec(outcome).2 is None,
        }),
        r.1.provider@ == provider_id(*p),
        r.1.model@ == model@,
        r.1.request_type@ == "chat"@,
        r.1.duration_ms == duration_ms,
        r.1.prompt_tokens == tokens.0,
        r.1.completion_tokens == tokens.1,
        r.1.total_tokens == tokens.2,
        r.1.metadata == metadata,
        r.1.user_message_preview matches Some(v) && v@ == message_preview(message@),
        match outcome {
            ChatCallOutcome::Reply(text) => r.0 matches Ok(resp) && resp.response@ == text@
                && history_extended(history@, message@, text@, resp.history@),
            _ => r.0 matches Err(e) && e.error@ == chat_error_spec(*p, outcome).0 && e.code
                == chat_error_spec(*p, outcome).1,
        },
{
    let preview = first_chars(message.as_str(), 100);
    let record = chat_inference_record(p, model, &outcome, duration_ms, preview, tokens, metadata);
    let answer = chat_answer(p, history, message, outcome);
    (answer, record)
}

/// The URL of Gemini's generateContent call for a model and key.
pub fn gemini_generate_url(model: &str, key: &str) -> (r: String)
    ensures
        r@ == "https://generativelanguage.googleapis.com/v1beta/models/"@ + model@
            + ":generateContent?key="@ + key@,
{
    String::from_str("https://generativelanguage.googleapis.com/v1beta/models/").concat(
        model,
    ).concat(":generateContent?key=").concat(key)
}

/// The models list answered by a models endpoint (none when the API gave
/// no list).
pub fn openai_models_response(models: Option<Vec<OpenAIModel>>) -> (r: OpenAIModelsResponse)
    ensures
        r.models@ == (match models {
            Some(m) => m@,
            None => Seq::empty(),
        }),
        r.total == r.models@.len(),
{
    let models = match models {
        Some(m) => m,
        None => Vec::new(),
    };
    let total = models.len();
    OpenAIModelsResponse { models, total }
}

/// The access logs response: all entries and their number.
pub fn access_logs_response(logs: Vec<AccessLogEntry>) -> (r: AccessLogsResponse)
    ensures
        r.logs == logs,
        r.total == logs@.len(),
{
    let total = logs.len();
    AccessLogsResponse { logs, total }
}

} // verus!
