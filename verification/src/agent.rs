//! Agent types shared across the LLM providers: requests, configuration,
//! tool calls and the errors of tools and of the agent loop, with the
//! decisions of the agent endpoints (status, provider choice, error codes).

use vstd::prelude::*;
use crate::text::{is_blank, same_text, trim};

verus! {

/// Request to the agent.
pub struct AgentRequest {
    /// The natural language question to answer.
    pub question: String,
    /// Unique chat ID for grouping related conversations.
    pub chat_id: Option<String>,
    /// Agent ID (for multi-agent support).
    pub agent_id: Option<String>,
    /// Model ID to use (e.g., "gemini-1.5-pro").
    pub model_id: Option<String>,
    /// Session ID for conversation continuity.
    pub session_id: Option<String>,
    /// Optional schema filter to focus queries.
    pub schema_filter: Option<String>,
    /// Connection ID to use for database operations.
    pub connection_id: Option<String>,
}

/// Citation for a source used in an answer.
pub struct SourceCitation {
    /// Type of source (e.g., "table", "query_result", "schema").
    pub source_type: String,
    /// Human-readable description of the source.
    pub description: String,
    /// Optional object reference (e.g., "HR.EMPLOYEES").
    pub reference: Option<String>,
}

/// Token usage statistics.
pub struct TokenUsage {
    /// Tokens used in the prompt.
    pub prompt_tokens: u32,
    /// Tokens used in the completion.
    pub completion_tokens: u32,
    /// Total tokens used.
    pub total_tokens: u32,
}

/// Tool execution error.
#[derive(Debug)]
pub enum ToolError {
    MissingParameter(String),
    InvalidParameter(String),
    UnknownTool(String),
    DatabaseError(String),
    ValidationError(String),
    NoConnection,
}

/// The display text of a tool error.
pub open spec fn tool_error_text(e: ToolError) -> Seq<char> {
    match e {
        ToolError::MissingParameter(p) => "Missing required parameter: "@ + p@,
        ToolError::InvalidParameter(p) => "Invalid parameter value: "@ + p@,
        ToolError::UnknownTool(p) => "Unknown tool: "@ + p@,
        ToolError::DatabaseError(p) => "Database error: "@ + p@,
        ToolError::ValidationError(p) => "Validation error: "@ + p@,
        ToolError::NoConnection => "No active connection"@,
    }
}

impl ToolError {
    /// The display text of the error.
    pub fn message(&self) -> (r: String)
        ensures
            r@ == tool_error_text(*self),
    {
        match self {
            ToolError::MissingParameter(p) => String::from_str(
                "Missing required parameter: ",
            ).concat(p.as_str()),
            ToolError::InvalidParameter(p) => String::from_str("Invalid parameter value: ").concat(
                p.as_str(),
            ),
            ToolError::UnknownTool(p) => String::from_str("Unknown tool: ").concat(p.as_str()),
            ToolError::DatabaseError(p) => String::from_str("Database error: ").concat(p.as_str()),
            ToolError::ValidationError(p) => String::from_str("Validation error: ").concat(
                p.as_str(),
            ),
            ToolError::NoConnection => String::from_str("No active connection"),
        }
    }
}

/// Agent execution error.
#[derive(Debug)]
pub enum AgentError {
    ProviderError(String),
    ApiError(String),
    RateLimited,
    ToolError(ToolError),
    ConfigError(String),
    Timeout,
    MaxIterationsExceeded,
}

/// The display text of an agent error.
pub open spec fn agent_error_text(e: AgentError) -> Seq<char> {
    match e {
        AgentError::ProviderError(p) => "Provider error: "@ + p@,
        AgentError::ApiError(p) => "API error: "@ + p@,
        AgentError::RateLimited => "Rate limit exceeded"@,
        AgentError::ToolError(t) => "Tool execution failed: "@ + tool_error_text(t),
        AgentError::ConfigError(p) => "Configuration error: "@ + p@,
        AgentError::Timeout => "Timeout"@,
        AgentError::MaxIterationsExceeded => "Max iterations exceeded"@,
    }
}

impl AgentError {
    /// The display text of the error.
    pub fn message(&self) -> (r: String)
        ensures
            r@ == agent_error_text(*self),
    {
        match self {
            AgentError::ProviderError(p) => String::from_str("Provider error: ").concat(p.as_str()),
            AgentError::ApiError(p) => String::from_str("API error: ").concat(p.as_str()),
            AgentError::RateLimited => String::from_str("Rate limit exceeded"),
            AgentError::ToolError(t) => {
                let inner = t.message();
                String::from_str("Tool execution failed: ").concat(inner.as_str())
            },
            AgentError::ConfigError(p) => String::from_str("Configuration error: ").concat(
                p.as_str(),
            ),
            AgentError::Timeout => String::from_str("Timeout"),
            AgentError::MaxIterationsExceeded => String::from_str("Max iterations exceeded"),
        }
    }

    /// The agent error that wraps a failed tool.
    pub fn from_tool(e: ToolError) -> (r: AgentError)
        ensures
            r == AgentError::ToolError(e),
    {
        AgentError::ToolError(e)
    }
}

/// HTTP status and error code of an agent error.
pub open spec fn agent_error_status(e: AgentError) -> (u16, Seq<char>) {
    match e {
        AgentError::ProviderError(_) => (500, "PROVIDER_ERROR"@),
        AgentError::ApiError(_) => (502, "API_ERROR"@),
        AgentError::RateLimited => (429, "RATE_LIMITED"@),
        AgentError::ToolError(_) => (500, "TOOL_ERROR"@),
        AgentError::ConfigError(_) => (503, "CONFIG_ERROR"@),
        AgentError::Timeout => (504, "TIMEOUT"@),
        AgentError::MaxIterationsExceeded => (500, "MAX_ITERATIONS"@),
    }
}

/// An error answered by an agent endpoint: HTTP status, message and code.
#[derive(Debug)]
pub struct AgentHttpError {
    pub status: u16,
    pub error: String,
    pub code: String,
}

/// Map an agent error to its HTTP answer.
pub fn map_agent_error(e: &AgentError) -> (r: AgentHttpError)
    ensures
        r.status == agent_error_status(*e).0,
        r.code@ == agent_error_status(*e).1,
        r.error@ == agent_error_text(*e),
{
    let (status, code): (u16, &str) = match e {
        AgentError::ProviderError(_) => (500, "PROVIDER_ERROR"),
        AgentError::ApiError(_) => (502, "API_ERROR"),
        AgentError::RateLimited => (429, "RATE_LIMITED"),
        AgentError::ToolError(_) => (500, "TOOL_ERROR"),
        AgentError::ConfigError(_) => (503, "CONFIG_ERROR"),
        AgentError::Timeout => (504, "TIMEOUT"),
        AgentError::MaxIterationsExceeded => (500, "MAX_ITERATIONS"),
    };
    AgentHttpError { status, error: e.message(), code: String::from_str(code) }
}

/// Configuration for the agent.
pub struct AgentConfig {
    /// Gemini API key.
    pub gemini_api_key: Option<String>,
    /// OpenAI API key.
    pub openai_api_key: Option<String>,
    /// Default model to use.
    pub default_model: String,
    /// Maximum iterations for the agent loop.
    pub max_iterations: u32,
    /// Timeout for LLM API calls (in seconds).
    pub api_timeout_secs: u64,
}

impl AgentConfig {
    /// The configuration from the environment's values: the two API keys
    /// and `DEFAULT_MODEL` (default "gemini-1.5-flash"); 10 iterations and
    /// a 60 second timeout.
    pub fn from_env_values(
        gemini_api_key: Option<String>,
        openai_api_key: Option<String>,
        default_model: Option<String>,
    ) -> (r: AgentConfig)
        ensures
            r.gemini_api_key == gemini_api_key,
            r.openai_api_key == openai_api_key,
            r.default_model@ == (match default_model {
                Some(m) => m@,
                None => "gemini-1.5-flash"@,
            }),
            r.max_iterations == 10,
            r.api_timeout_secs == 60,
    {
        let model = match default_model {
            Some(m) => m,
            None => String::from_str("gemini-1.5-flash"),
        };
        AgentConfig {
            gemini_api_key,
            openai_api_key,
            default_model: model,
            max_iterations: 10,
            api_timeout_secs: 60,
        }
    }

    /// Check if Gemini is configured.
    pub fn has_gemini(&self) -> (b: bool)
        ensures
            b == self.gemini_api_key.is_some(),
    {
        self.gemini_api_key.is_some()
    }

    /// Check if OpenAI is configured.
    pub fn has_openai(&self) -> (b: bool)
        ensures
            b == self.openai_api_key.is_some(),
    {
        self.openai_api_key.is_some()
    }

    /// Check if any provider is configured.
    pub fn is_configured(&self) -> (b: bool)
        ensures
            b == (self.gemini_api_key.is_some() || self.openai_api_key.is_some()),
    {
        self.has_gemini() || self.has_openai()
    }
}

/// The JSON value of a tool argument, as far as the tools read it.
pub enum ToolArg {
    /// A JSON string.
    Text(String),
    /// A JSON number that is a non-negative integer within `u64`.
    Count(u64),
    /// Any other JSON value, as its JSON text.
    Other(String),
}

/// Tool call requested by the LLM.
pub struct ToolCall {
    /// Unique ID for the tool call.
    pub id: String,
    /// Name of the tool to call.
    pub name: String,
    /// Arguments as key-value pairs (the keys are distinct).
    pub arguments: Vec<(String, ToolArg)>,
}

/// The argument stored under `name`.
pub open spec fn arg_lookup(args: Seq<(String, ToolArg)>, name: Seq<char>) -> Option<ToolArg>
    decreases args.len(),
{
    if args.len() == 0 {
        None
    } else if args[0].0@ == name {
        Some(args[0].1)
    } else {
        arg_lookup(args.drop_first(), name)
    }
}

proof fn lemma_lookup_skip(args: Seq<(String, ToolArg)>, name: Seq<char>, i: int)
    requires
        0 <= i < args.len(),
    ensures
        arg_lookup(args.skip(i), name) == (if args[i].0@ == name {
            Some(args[i].1)
        } else {
            arg_lookup(args.skip(i + 1), name)
        }),
{
    assert(args.skip(i).drop_first() =~= args.skip(i + 1));
    assert(args.skip(i)[0] == args[i]);
}

impl ToolCall {
    /// The argument stored under `name`, if any.
    pub fn lookup_arg(&self, name: &str) -> (r: Option<&ToolArg>)
        ensures
            r matches Some(a) ==> arg_lookup(self.arguments@, name@) == Some(*a),
            r is None ==> arg_lookup(self.arguments@, name@) is None,
    {
        let mut i: usize = 0;
        assert(self.arguments@.skip(0) =~= self.arguments@);
        while i < self.arguments.len()
            invariant
                i <= self.arguments@.len(),
                arg_lookup(self.arguments@, name@) == arg_lookup(
                    self.arguments@.skip(i as int),
                    name@,
                ),
            decreases self.arguments@.len() - i,
        {
            proof {
                lemma_lookup_skip(self.arguments@, name@, i as int);
            }
            if same_text(self.arguments[i].0.as_str(), name) {
                return Some(&self.arguments[i].1);
            }
            i = i + 1;
        }
        assert(self.arguments@.skip(i as int).len() == 0);
        None
    }

    /// Get a required string parameter.
    pub fn get_param(&self, name: &str) -> (r: Result<String, ToolError>)
        ensures
            match arg_lookup(self.arguments@, name@) {
                Some(ToolArg::Text(s)) => r == Ok::<String, ToolError>(s),
                _ => r matches Err(ToolError::MissingParameter(p)) && p@ == name@,
            },
    {
        match self.lookup_arg(name) {
            Some(ToolArg::Text(s)) => Ok(s.clone()),
            _ => Err(ToolError::MissingParameter(String::from_str(name))),
        }
    }

    /// Get an optional string parameter with a default.
    pub fn get_param_or(&self, name: &str, default: &str) -> (r: String)
        ensures
            r@ == (match arg_lookup(self.arguments@, name@) {
                Some(ToolArg::Text(s)) => s@,
                _ => default@,
            }),
    {
        match self.lookup_arg(name) {
            Some(ToolArg::Text(s)) => s.clone(),
            _ => String::from_str(default),
        }
    }

    /// Get an optional integer parameter with a default; the value is
    /// truncated to 32 bits as `as u32` does.
    pub fn get_int_param_or(&self, name: &str, default: u32) -> (r: u32)
        ensures
            r == (match arg_lookup(self.arguments@, name@) {
                Some(ToolArg::Count(n)) => n as u32,
                _ => default,
            }),
    {
        match self.lookup_arg(name) {
            Some(ToolArg::Count(n)) => *n as u32,
            _ => default,
        }
    }
}

/// Provider status.
pub struct ProviderStatus {
    /// Provider name.
    pub name: String,
    /// Whether the provider is configured.
    pub configured: bool,
    /// Number of available models.
    pub model_count: usize,
}

/// Agent status response.
pub struct AgentStatusResponse {
    /// Whether the agent is configured (has an API key).
    pub configured: bool,
    /// Available providers.
    pub providers: Vec<ProviderStatus>,
    /// Default model ID.
    pub default_model: String,
}

/// The agent status: the one provider ("google") with its model count,
/// which is zero when it is not configured.
pub fn agent_status(
    gemini_configured: bool,
    gemini_model_count: usize,
    default_model: String,
) -> (r: AgentStatusResponse)
    ensures
        r.configured == gemini_configured,
        r.providers@.len() == 1,
        r.providers@[0].name@ == "google"@,
        r.providers@[0].configured == gemini_configured,
        r.providers@[0].model_count == (if gemini_configured {
            gemini_model_count
        } else {
            0
        }),
        r.default_model == default_model,
{
    let provider = ProviderStatus {
        name: String::from_str("google"),
        configured: gemini_configured,
        model_count: if gemini_configured {
            gemini_model_count
        } else {
            0
        },
    };
    let mut providers: Vec<ProviderStatus> = Vec::new();
    providers.push(provider);
    AgentStatusResponse { configured: gemini_configured, providers, default_model }
}

/// The provider that answers an agent request.
#[derive(Debug)]
pub enum ProviderChoice {
    /// The Gemini provider, for this model.
    Gemini(String),
}

/// Whether the question is accepted: it has text once trimmed.
pub open spec fn question_ok(q: Seq<char>) -> bool {
    trim(q).len() != 0
}

/// The model an agent request asks for, or the default model.
pub open spec fn requested_model(req: AgentRequest, default_model: Seq<char>) -> Seq<char> {
    match req.model_id {
        Some(m) => m@,
        None => default_model,
    }
}

/// Whether `model` names an OpenAI model (starts with "gpt").
pub open spec fn is_gpt_model(model: Seq<char>) -> bool {
    model.len() >= 3 && model.take(3) == "gpt"@
}

/// The decision on an agent request: the model for the Gemini provider, or
/// the HTTP status, error code and message of the refusal.
pub open spec fn ask_decision(
    configured: bool,
    question: Seq<char>,
    model: Seq<char>,
    gemini_handles: bool,
    gemini_key_set: bool,
) -> Result<Seq<char>, (u16, Seq<char>, Seq<char>)> {
    if !configured {
        Err(
            (
                503,
                "AGENT_NOT_CONFIGURED"@,
                "Agent is not configured. Please set GEMINI_API_KEY in your environment."@,
            ),
        )
    } else if !question_ok(question) {
        Err((400, "EMPTY_QUESTION"@, "Question cannot be empty"@))
    } else if gemini_handles {
        if gemini_key_set {
            Ok(model)
        } else {
            Err((503, "GEMINI_NOT_CONFIGURED"@, "Gemini API key not configured"@))
        }
    } else if is_gpt_model(model) {
        Err((501, "NOT_IMPLEMENTED"@, "OpenAI provider not yet implemented"@))
    } else {
        Err((400, "UNKNOWN_MODEL"@, "Unknown model: "@ + model))
    }
}

/// Check an agent request and choose its provider: the agent must be
/// configured, the question non-blank, and the model (the request's or the
/// default) one that Gemini handles (`gemini_handles` is `handles_model`
/// of that model) with its API key set; a `gpt` model is not implemented.
pub fn choose_provider(
    req: &AgentRequest,
    configured: bool,
    default_model: &str,
    gemini_handles: bool,
    gemini_key_set: bool,
) -> (r: Result<ProviderChoice, AgentHttpError>)
    ensures
        match r {
            Ok(ProviderChoice::Gemini(m)) => ask_decision(
                configured,
                req.question@,
                requested_model(*req, default_model@),
                gemini_handles,
                gemini_key_set,
            ) == Ok::<Seq<char>, (u16, Seq<char>, Seq<char>)>(m@),
            Err(e) => ask_decision(
                configured,
                req.question@,
                requested_model(*req, default_model@),
                gemini_handles,
                gemini_key_set,
            ) == Err::<Seq<char>, (u16, Seq<char>, Seq<char>)>((e.status, e.code@, e.error@)),
        },
{
    if !configured {
        return Err(
            AgentHttpError {
                status: 503,
                error: String::from_str(
                    "Agent is not configured. Please set GEMINI_API_KEY in your environment.",
                ),
                code: String::from_str("AGENT_NOT_CONFIGURED"),
            },
        );
    }
    if is_blank(req.question.as_str()) {
        return Err(
            AgentHttpError {
                status: 400,
                error: String::from_str("Question cannot be empty"),
                code: String::from_str("EMPTY_QUESTION"),
            },
        );
    }
    let model: String = match &req.model_id {
        Some(m) => m.clone(),
        None => String::from_str(default_model),
    };
    if gemini_handles {
        if !gemini_key_set {
            return Err(
                AgentHttpError {
                    status: 503,
                    error: String::from_str("Gemini API key not configured"),
                    code: String::from_str("GEMINI_NOT_CONFIGURED"),
                },
            );
        }
        return Ok(ProviderChoice::Gemini(model));
    }
    let mc = crate::text::chars_of(model.as_str());
    let gpt = crate::text::chars_of("gpt");
    proof {
        reveal_strlit("gpt");
    }
    if crate::text::has_prefix(&mc, &gpt) {
        assert(mc@.take(3) =~= "gpt"@);
        return Err(
            AgentHttpError {
                status: 501,
                error: String::from_str("OpenAI provider not yet implemented"),
                code: String::from_str("NOT_IMPLEMENTED"),
            },
        );
    }
    proof {
        if mc@.len() >= 3 && mc@.take(3) == "gpt"@ {
            assert(crate::text::starts_with(mc@, gpt@));
        }
    }
    Err(
        AgentHttpError {
            status: 400,
            error: String::from_str("Unknown model: ").concat(model.as_str()),
            code: String::from_str("UNKNOWN_MODEL"),
        },
    )
}

} // verus!
