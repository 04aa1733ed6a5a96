//! The Gemini API as the agent sees it: conversation contents, responses
//! (text, function calls, token usage) and how a failed call becomes an
//! agent error. The HTTP exchange and the JSON are the caller's.

use vstd::prelude::*;
use crate::agent::{AgentError, TokenUsage, ToolArg, ToolCall};
use crate::text::{contains_chars, contains_sub, chars_of};

verus! {

/// A part of a Gemini content.
pub enum GeminiPart {
    /// Text.
    Text(String),
    /// A function call: its name, its arguments, and their JSON text.
    FunctionCall { name: String, args: Vec<(String, ToolArg)>, args_json: String },
    /// A function response: the function's name and the response's JSON.
    FunctionResponse { name: String, response_json: String },
}

/// A Gemini content (message).
pub struct GeminiContent {
    pub role: String,
    pub parts: Vec<GeminiPart>,
}

/// Gemini function calling config.
pub struct GeminiFunctionCallingConfig {
    /// "AUTO", "ANY" or "NONE".
    pub mode: String,
}

/// Gemini tool config.
pub struct GeminiToolConfig {
    pub function_calling_config: GeminiFunctionCallingConfig,
}

/// Gemini usage metadata.
pub struct GeminiUsageMetadata {
    pub prompt_token_count: Option<u32>,
    pub candidates_token_count: Option<u32>,
    pub total_token_count: Option<u32>,
}

/// A Gemini candidate response.
pub struct GeminiCandidate {
    pub content: GeminiContent,
    pub finish_reason: Option<String>,
}

/// A Gemini API response.
pub struct GeminiResponse {
    pub candidates: Vec<GeminiCandidate>,
    pub usage_metadata: Option<GeminiUsageMetadata>,
}

/// Gemini error detail.
pub struct GeminiError {
    pub code: i32,
    pub message: String,
    pub status: String,
}

/// Gemini error response.
pub struct GeminiErrorResponse {
    pub error: GeminiError,
}

impl GeminiContent {
    /// A user message.
    pub fn user(text: &str) -> (r: GeminiContent)
        ensures
            r.role@ == "user"@,
            r.parts@.len() == 1,
            r.parts@[0] matches GeminiPart::Text(t) && t@ == text@,
    {
        let mut parts: Vec<GeminiPart> = Vec::new();
        parts.push(GeminiPart::Text(String::from_str(text)));
        GeminiContent { role: String::from_str("user"), parts }
    }

    /// A model message.
    pub fn model(text: &str) -> (r: GeminiContent)
        ensures
            r.role@ == "model"@,
            r.parts@.len() == 1,
            r.parts@[0] matches GeminiPart::Text(t) && t@ == text@,
    {
        let mut parts: Vec<GeminiPart> = Vec::new();
        parts.push(GeminiPart::Text(String::from_str(text)));
        GeminiContent { role: String::from_str("model"), parts }
    }

    /// A model message with function calls.
    pub fn model_with_function_calls(calls: Vec<GeminiPart>) -> (r: GeminiContent)
        ensures
            r.role@ == "model"@,
            r.parts == calls,
    {
        GeminiContent { role: String::from_str("model"), parts: calls }
    }

    /// A user message with function responses.
    pub fn user_with_function_responses(responses: Vec<GeminiPart>) -> (r: GeminiContent)
        ensures
            r.role@ == "user"@,
            r.parts == responses,
    {
        GeminiContent { role: String::from_str("user"), parts: responses }
    }
}

/// The tool config of a request: automatic function calling when tools
/// are offered.
pub fn tool_config_for(has_tools: bool) -> (r: Option<GeminiToolConfig>)
    ensures
        has_tools ==> (r matches Some(c) && c.function_calling_config.mode@ == "AUTO"@),
        !has_tools ==> r is None,
{
    if has_tools {
        Some(
            GeminiToolConfig {
                function_calling_config: GeminiFunctionCallingConfig {
                    mode: String::from_str("AUTO"),
                },
            },
        )
    } else {
        None
    }
}

/// The parts of the first candidate (none without candidates).
pub open spec fn first_parts(r: GeminiResponse) -> Seq<GeminiPart> {
    if r.candidates@.len() > 0 {
        r.candidates@[0].content.parts@
    } else {
        Seq::empty()
    }
}

/// The first text part, if any.
pub open spec fn first_text_part(ps: Seq<GeminiPart>) -> Option<Seq<char>>
    decreases ps.len(),
{
    if ps.len() == 0 {
        None
    } else {
        match ps[0] {
            GeminiPart::Text(t) => Some(t@),
            _ => first_text_part(ps.drop_first()),
        }
    }
}

/// Whether a part is a function call.
pub open spec fn is_call(p: GeminiPart) -> bool {
    p is FunctionCall
}

/// The function calls among the parts, in order.
pub open spec fn call_parts(ps: Seq<GeminiPart>) -> Seq<GeminiPart>
    decreases ps.len(),
{
    if ps.len() == 0 {
        Seq::empty()
    } else {
        let rest = call_parts(ps.drop_last());
        if is_call(ps.last()) {
            rest.push(ps.last())
        } else {
            rest
        }
    }
}

impl GeminiResponse {
    /// The first text of the first candidate.
    pub fn get_text(&self) -> (r: Option<String>)
        ensures
            match first_text_part(first_parts(*self)) {
                Some(t) => r matches Some(s) && s@ == t,
                None => r is None,
            },
    {
        if self.candidates.len() == 0 {
            return None;
        }
        let parts = &self.candidates[0].content.parts;
        let mut i: usize = 0;
        assert(parts@.skip(0) =~= parts@);
        while i < parts.len()
            invariant
                i <= parts@.len(),
                self.candidates@.len() > 0,
                *parts == self.candidates@[0].content.parts,
                first_text_part(parts@) == first_text_part(parts@.skip(i as int)),
            decreases parts@.len() - i,
        {
            assert(parts@.skip(i as int).drop_first() =~= parts@.skip(i + 1));
            assert(parts@.skip(i as int)[0] == parts@[i as int]);
            match &parts[i] {
                GeminiPart::Text(t) => {
                    return Some(t.clone());
                },
                _ => {},
            }
            i = i + 1;
        }
        None
    }

    /// Whether the first candidate calls functions.
    pub fn has_function_calls(&self) -> (b: bool)
        ensures
            b == (call_parts(first_parts(*self)).len() > 0),
    {
        if self.candidates.len() == 0 {
            return false;
        }
        let parts = &self.candidates[0].content.parts;
        let mut i: usize = 0;
        assert(parts@.take(0) =~= Seq::<GeminiPart>::empty());
        while i < parts.len()
            invariant
                i <= parts@.len(),
                self.candidates@.len() > 0,
                *parts == self.candidates@[0].content.parts,
                call_parts(parts@.take(i as int)).len() == 0,
            decreases parts@.len() - i,
        {
            assert(parts@.take(i + 1).drop_last() =~= parts@.take(i as int));
            assert(parts@.take(i + 1).last() == parts@[i as int]);
            match &parts[i] {
                GeminiPart::FunctionCall { .. } => {
                    proof {
                        lemma_call_parts_grow(parts@, i as int + 1);
                    }
                    return true;
                },
                _ => {},
            }
            i = i + 1;
        }
        assert(parts@.take(i as int) =~= parts@);
        false
    }

    /// The token usage, with absent counts as zero.
    pub fn get_token_usage(&self) -> (r: Option<TokenUsage>)
        ensures
            match self.usage_metadata {
                Some(u) => r matches Some(t) && t.prompt_tokens == or_zero(u.prompt_token_count)
                    && t.completion_tokens == or_zero(u.candidates_token_count) && t.total_tokens
                    == or_zero(u.total_token_count),
                None => r is None,
            },
    {
        match &self.usage_metadata {
            Some(u) => Some(
                TokenUsage {
                    prompt_tokens: match u.prompt_token_count {
                        Some(n) => n,
                        None => 0,
                    },
                    completion_tokens: match u.candidates_token_count {
                        Some(n) => n,
                        None => 0,
                    },
                    total_tokens: match u.total_token_count {
                        Some(n) => n,
                        None => 0,
                    },
                },
            ),
            None => None,
        }
    }
}

proof fn lemma_call_parts_grow(ps: Seq<GeminiPart>, n: int)
    requires
        0 < n <= ps.len(),
        is_call(ps[n - 1]),
    ensures
        call_parts(ps).len() > 0,
    decreases ps.len() - n,
{
    if n < ps.len() {
        lemma_call_parts_grow_step(ps, n);
    } else {
        assert(ps.last() == ps[n - 1]);
    }
}

proof fn lemma_call_parts_grow_step(ps: Seq<GeminiPart>, n: int)
    requires
        0 < n <= ps.len(),
        is_call(ps[n - 1]),
    ensures
        call_parts(ps).len() > 0,
    decreases ps.len() - n,
{
    lemma_call_parts_monotone(ps, n, ps.len() as int);
    assert(ps.take(n).last() == ps[n - 1]);
    assert(ps.take(n).len() == n);
    assert(call_parts(ps.take(n)).len() > 0);
    assert(ps.take(ps.len() as int) =~= ps);
}

proof fn lemma_call_parts_monotone(ps: Seq<GeminiPart>, n: int, m: int)
    requires
        0 <= n <= m <= ps.len(),
    ensures
        call_parts(ps.take(n)).len() <= call_parts(ps.take(m)).len(),
    decreases m - n,
{
    if n < m {
        lemma_call_parts_monotone(ps, n, m - 1);
        assert(ps.take(m).drop_last() =~= ps.take(m - 1));
    }
}

/// An absent count as zero.
pub open spec fn or_zero(o: Option<u32>) -> u32 {
    match o {
        Some(n) => n,
        None => 0,
    }
}

/// Whether a Gemini error message means a rate limit ("429", "quota" or
/// "rate" in it).
pub open spec fn is_rate_limit(message: Seq<char>) -> bool {
    contains_sub(message, "429"@) || contains_sub(message, "quota"@) || contains_sub(message, "rate"@)
}

/// The agent error for an answer that is not a success: the API's error
/// message when the body is its error JSON (a rate limit when it says
/// so), else the status and the body.
pub fn http_failure_error(status: &str, body: &str, api_message: Option<String>) -> (r: AgentError)
    ensures
        match api_message {
            Some(m) => if is_rate_limit(m@) {
                r == AgentError::RateLimited
            } else {
                r matches AgentError::ApiError(e) && e@ == m@
            },
            None => r matches AgentError::ApiError(e) && e@ == "HTTP "@ + status@ + ": "@ + body@,
        },
{
    match api_message {
        Some(m) => {
            let mc = chars_of(m.as_str());
            let p429 = chars_of("429");
            let quota = chars_of("quota");
            let rate = chars_of("rate");
            if contains_chars(&mc, &p429) || contains_chars(&mc, &quota) || contains_chars(
                &mc,
                &rate,
            ) {
                AgentError::RateLimited
            } else {
                AgentError::ApiError(m)
            }
        },
        None => AgentError::ApiError(
            String::from_str("HTTP ").concat(status).concat(": ").concat(body),
        ),
    }
}

/// The agent error for a request that could not be sent.
pub fn send_failure_error(is_timeout: bool, error: &str) -> (r: AgentError)
    ensures
        is_timeout ==> r == AgentError::Timeout,
        !is_timeout ==> (r matches AgentError::ApiError(e) && e@ == "HTTP error: "@ + error@),
{
    if is_timeout {
        AgentError::Timeout
    } else {
        AgentError::ApiError(String::from_str("HTTP error: ").concat(error))
    }
}

/// The agent error for a body that could not be read.
pub fn read_failure_error(error: &str) -> (r: AgentError)
    ensures
        r matches AgentError::ApiError(e) && e@ == "Failed to read response: "@ + error@,
{
    AgentError::ApiError(String::from_str("Failed to read response: ").concat(error))
}

/// The agent error for a success body that is not a response.
pub fn parse_failure_error(error: &str, body: &str) -> (r: AgentError)
    ensures
        r matches AgentError::ApiError(e) && e@ == "Failed to parse response: "@ + error@
            + " - Body: "@ + body@,
{
    AgentError::ApiError(
        String::from_str("Failed to parse response: ").concat(error).concat(" - Body: ").concat(
            body,
        ),
    )
}

/// A copy of tool arguments.
pub fn clone_args(args: &Vec<(String, ToolArg)>) -> (r: Vec<(String, ToolArg)>)
    ensures
        r@ == args@,
{
    let mut r: Vec<(String, ToolArg)> = Vec::new();
    let mut i: usize = 0;
    while i < args.len()
        invariant
            i <= args@.len(),
            r@ == args@.take(i as int),
        decreases args@.len() - i,
    {
        let a = match &args[i].1 {
            ToolArg::Text(s) => ToolArg::Text(s.clone()),
            ToolArg::Count(n) => ToolArg::Count(*n),
            ToolArg::Other(j) => ToolArg::Other(j.clone()),
        };
        r.push((args[i].0.clone(), a));
        i = i + 1;
        assert(r@ =~= args@.take(i as int));
    }
    assert(args@.take(i as int) =~= args@);
    r
}

/// The JSON text of a function call's arguments.
pub open spec fn part_json(p: GeminiPart) -> Option<String> {
    match p {
        GeminiPart::FunctionCall { args_json, .. } => Some(args_json),
        _ => None,
    }
}

/// Whether `c` is the tool call of the function call part `p`.
pub open spec fn call_of_part(c: ToolCall, p: GeminiPart) -> bool {
    match p {
        GeminiPart::FunctionCall { name, args, .. } => c.name == name && c.arguments@ == args@
            && c.id@.len() == 36,
        _ => false,
    }
}

impl GeminiResponse {
    /// The function calls of the first candidate as tool calls, each with a
    /// new random id.
    pub fn get_function_calls(&self) -> (r: Vec<(ToolCall, String)>)
        ensures
            r@.len() == call_parts(first_parts(*self)).len(),
            forall|i: int|
                0 <= i < r@.len() ==> call_of_part((#[trigger] r@[i]).0, call_parts(
                    first_parts(*self),
                )[i]) && part_json(call_parts(first_parts(*self))[i]) == Some(r@[i].1),
    {
        let mut r: Vec<(ToolCall, String)> = Vec::new();
        if self.candidates.len() == 0 {
            return r;
        }
        let parts = &self.candidates[0].content.parts;
        let mut i: usize = 0;
        assert(parts@.take(0) =~= Seq::<GeminiPart>::empty());
        while i < parts.len()
            invariant
                i <= parts@.len(),
                self.candidates@.len() > 0,
                *parts == self.candidates@[0].content.parts,
                r@.len() == call_parts(parts@.take(i as int)).len(),
                forall|k: int|
                    0 <= k < r@.len() ==> call_of_part(
                        (#[trigger] r@[k]).0,
                        call_parts(parts@.take(i as int))[k],
                    ) && part_json(call_parts(parts@.take(i as int))[k]) == Some(r@[k].1),
            decreases parts@.len() - i,
        {
            let ghost pre = parts@.take(i + 1);
            assert(pre.drop_last() =~= parts@.take(i as int));
            assert(pre.last() == parts@[i as int]);
            match &parts[i] {
                GeminiPart::FunctionCall { name, args, args_json } => {
                    let call = ToolCall {
                        id: crate::agents::new_uuid(),
                        name: name.clone(),
                        arguments: clone_args(args),
                    };
                    r.push((call, args_json.clone()));
                },
                _ => {},
            }
            i = i + 1;
        }
        assert(parts@.take(i as int) =~= parts@);
        assert(first_parts(*self) == parts@);
        r
    }
}

} // verus!
