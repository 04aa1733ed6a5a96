//! Custom agents: their records, defaults, the rules for creating,
//! updating, deleting and listing them, and the template variables of
//! their system prompts.
//!
//! Agents are stored as JSON files by the caller. The temperature is a
//! float, which this library does not handle: an agent record is generic
//! over its type, and the caller clamps it.

use vstd::prelude::*;
use crate::text::{
    is_blank, join, join_path, joined_path, lex_lt, replace_all, replace_str, strings_view,
    trim,
};

verus! {

/// Tool description override.
pub struct ToolOverride {
    /// Custom description for the tool.
    pub description: String,
}

/// Custom agent configuration; `T` is the type of the temperature.
pub struct CustomAgent<T> {
    pub id: String,
    pub name: String,
    pub icon: String,
    pub description: String,
    pub provider: String,
    pub model: String,
    pub temperature: T,
    pub max_tokens: u32,
    /// System prompt (may contain template variables like {{SCHEMAS}}).
    pub system_prompt: String,
    pub starters: Vec<String>,
    /// Tool source: "builtin", "custom" or "none".
    pub tool_source: String,
    pub custom_openapi_url: Option<String>,
    pub enabled_tools: Vec<String>,
    /// Tool description overrides by tool id.
    pub tool_overrides: Vec<(String, ToolOverride)>,
    pub created_at: String,
    pub updated_at: String,
    pub is_builtin: bool,
}

/// Request to create an agent (defaults already applied to absent fields).
pub struct CreateAgentRequest<T> {
    pub name: String,
    pub icon: String,
    pub description: String,
    pub provider: String,
    pub model: String,
    pub temperature: T,
    pub max_tokens: u32,
    pub system_prompt: String,
    pub starters: Vec<String>,
    pub tool_source: String,
    pub custom_openapi_url: Option<String>,
    pub enabled_tools: Vec<String>,
    pub tool_overrides: Vec<(String, ToolOverride)>,
}

/// Request to update an agent: each present field replaces the agent's.
pub struct UpdateAgentRequest<T> {
    pub name: Option<String>,
    pub icon: Option<String>,
    pub description: Option<String>,
    pub provider: Option<String>,
    pub model: Option<String>,
    pub temperature: Option<T>,
    pub max_tokens: Option<u32>,
    pub system_prompt: Option<String>,
    pub starters: Option<Vec<String>>,
    pub tool_source: Option<String>,
    pub custom_openapi_url: Option<String>,
    pub enabled_tools: Option<Vec<String>>,
    pub tool_overrides: Option<Vec<(String, ToolOverride)>>,
}

/// Response listing agents.
pub struct AgentsListResponse<T> {
    pub agents: Vec<CustomAgent<T>>,
    pub count: usize,
}

/// Response of create and update.
pub struct AgentResponse<T> {
    pub agent: CustomAgent<T>,
}

/// Error of agent storage.
pub enum AgentStorageError {
    NotFound(String),
    CannotModifyBuiltin(String),
    StorageError(String),
    InvalidData(String),
}

/// The display text of a storage error.
pub open spec fn storage_error_text(e: AgentStorageError) -> Seq<char> {
    match e {
        AgentStorageError::NotFound(p) => "Agent not found: "@ + p@,
        AgentStorageError::CannotModifyBuiltin(p) => "Cannot modify builtin agent: "@ + p@,
        AgentStorageError::StorageError(p) => "Storage error: "@ + p@,
        AgentStorageError::InvalidData(p) => "Invalid agent data: "@ + p@,
    }
}

/// HTTP status and error code of a storage error.
pub open spec fn storage_error_status(e: AgentStorageError) -> (u16, Seq<char>) {
    match e {
        AgentStorageError::NotFound(_) => (404, "AGENT_NOT_FOUND"@),
        AgentStorageError::CannotModifyBuiltin(_) => (403, "CANNOT_MODIFY_BUILTIN"@),
        AgentStorageError::StorageError(_) => (500, "STORAGE_ERROR"@),
        AgentStorageError::InvalidData(_) => (400, "INVALID_DATA"@),
    }
}

impl AgentStorageError {
    /// The display text of the error.
    pub fn message(&self) -> (r: String)
        ensures
            r@ == storage_error_text(*self),
    {
        match self {
            AgentStorageError::NotFound(p) => String::from_str("Agent not found: ").concat(
                p.as_str(),
            ),
            AgentStorageError::CannotModifyBuiltin(p) => String::from_str(
                "Cannot modify builtin agent: ",
            ).concat(p.as_str()),
            AgentStorageError::StorageError(p) => String::from_str("Storage error: ").concat(
                p.as_str(),
            ),
            AgentStorageError::InvalidData(p) => String::from_str("Invalid agent data: ").concat(
                p.as_str(),
            ),
        }
    }
}

/// Map a storage error to its HTTP status, message and code.
pub fn map_storage_error(e: &AgentStorageError) -> (r: crate::agent::AgentHttpError)
    ensures
        r.status == storage_error_status(*e).0,
        r.code@ == storage_error_status(*e).1,
        r.error@ == storage_error_text(*e),
{
    let (status, code): (u16, &str) = match e {
        AgentStorageError::NotFound(_) => (404, "AGENT_NOT_FOUND"),
        AgentStorageError::CannotModifyBuiltin(_) => (403, "CANNOT_MODIFY_BUILTIN"),
        AgentStorageError::StorageError(_) => (500, "STORAGE_ERROR"),
        AgentStorageError::InvalidData(_) => (400, "INVALID_DATA"),
    };
    crate::agent::AgentHttpError { status, error: e.message(), code: String::from_str(code) }
}

/// The default provider.
pub fn default_provider() -> (r: String)
    ensures
        r@ == "gemini"@,
{
    String::from_str("gemini")
}

/// The default model.
pub fn default_model() -> (r: String)
    ensures
        r@ == "gemini-1.5-flash"@,
{
    String::from_str("gemini-1.5-flash")
}

/// The default maximum of tokens.
pub fn default_max_tokens() -> (r: u32)
    ensures
        r == 4096,
{
    4096
}

/// The default tool source.
pub fn default_tool_source() -> (r: String)
    ensures
        r@ == "builtin"@,
{
    String::from_str("builtin")
}

/// The default icon.
pub fn default_icon() -> (r: String)
    ensures
        r@ == "🤖"@,
{
    String::from_str("🤖")
}

/// The default enabled tools: all of them.
pub fn default_enabled_tools() -> (r: Vec<String>)
    ensures
        r@.len() == 1,
        r@[0]@ == "*"@,
{
    let mut v: Vec<String> = Vec::new();
    v.push(String::from_str("*"));
    v
}

/// The path of an agent's JSON file in the agents directory.
pub fn get_agent_path(agents_dir: &str, id: &str, separator: char) -> (r: String)
    ensures
        r@ == joined_path(agents_dir@, id@ + ".json"@, separator),
{
    let file = String::from_str(id).concat(".json");
    join_path(agents_dir, file.as_str(), separator)
}

/// `uuid::Uuid::new_v4().to_string()`: a random version 4 UUID in its
/// hyphenated form, which has 36 characters.
#[verifier::external_body]
pub(crate) fn new_uuid() -> (r: String)
    ensures
        r@.len() == 36,
{
    uuid::Uuid::new_v4().to_string()
}

/// `chrono::Utc::now().to_rfc3339()`: the current time; nothing is stated
/// of the text, which depends on the clock.
#[verifier::external_body]
fn utc_now_rfc3339() -> (r: String) {
    chrono::Utc::now().to_rfc3339()
}

/// Whether `a` is the built-in "Generic Chat" agent (no tools) with this
/// temperature, created and updated at the same time.
pub open spec fn is_builtin_agent<T>(a: CustomAgent<T>, temperature: T) -> bool {
    &&& a.id@ == "default"@
    &&& a.name@ == "Generic Chat"@
    &&& a.provider@ == "gemini"@
    &&& a.model@ == "gemini-1.5-flash"@
    &&& a.temperature == temperature
    &&& a.max_tokens == 4096
    &&& a.starters@.len() == 3
    &&& a.tool_source@ == "none"@
    &&& a.custom_openapi_url is None
    &&& a.enabled_tools@.len() == 0
    &&& a.tool_overrides@.len() == 0
    &&& a.created_at == a.updated_at
    &&& a.is_builtin
}

/// The built-in "Generic Chat" agent (no tools), stamped `now`.
pub fn builtin_agent_at<T>(now: String, temperature: T) -> (r: CustomAgent<T>)
    ensures
        is_builtin_agent(r, temperature),
        r.id@ == "default"@,
        r.name@ == "Generic Chat"@,
        r.provider@ == "gemini"@,
        r.model@ == "gemini-1.5-flash"@,
        r.temperature == temperature,
        r.max_tokens == 4096,
        r.starters@.len() == 3,
        r.tool_source@ == "none"@,
        r.custom_openapi_url is None,
        r.enabled_tools@.len() == 0,
        r.tool_overrides@.len() == 0,
        r.created_at == now,
        r.updated_at == now,
        r.is_builtin,
{
    let mut starters: Vec<String> = Vec::new();
    starters.push(String::from_str("Hello, how can you help me?"));
    starters.push(String::from_str("What can you do?"));
    starters.push(String::from_str("Tell me about yourself"));
    CustomAgent {
        id: String::from_str("default"),
        name: String::from_str("Generic Chat"),
        icon: String::from_str("💬"),
        description: String::from_str("General AI assistant without database tools"),
        provider: String::from_str("gemini"),
        model: String::from_str("gemini-1.5-flash"),
        temperature,
        max_tokens: 4096,
        system_prompt: String::from_str(
            "You are a helpful AI assistant. Answer questions clearly and concisely.",
        ),
        starters,
        tool_source: String::from_str("none"),
        custom_openapi_url: None,
        enabled_tools: Vec::new(),
        tool_overrides: Vec::new(),
        created_at: now.clone(),
        updated_at: now,
        is_builtin: true,
    }
}

/// The built-in "Generic Chat" agent, stamped with the current time.
pub fn create_builtin_agent<T>(temperature: T) -> (r: CustomAgent<T>)
    ensures
        is_builtin_agent(r, temperature),
        r.id@ == "default"@,
        r.name@ == "Generic Chat"@,
        r.temperature == temperature,
        r.created_at == r.updated_at,
        r.is_builtin,
{
    builtin_agent_at(utc_now_rfc3339(), temperature)
}

/// Whether initializing the agents directory creates the built-in agent:
/// only when its file does not exist yet.
pub open spec fn init_creates(builtin_exists: bool) -> bool {
    !builtin_exists
}

/// The agent to create when the agents directory is initialized: the
/// built-in agent, unless its file already exists.
pub fn init_agents<T>(builtin_exists: bool, temperature: T) -> (r: Option<CustomAgent<T>>)
    ensures
        r is Some == init_creates(builtin_exists),
        builtin_exists ==> r is None,
        !builtin_exists ==> (r matches Some(a) && is_builtin_agent(a, temperature)),
{
    if builtin_exists {
        None
    } else {
        Some(create_builtin_agent(temperature))
    }
}

/// Initializing twice is initializing once: after a first call the
/// built-in agent's file exists (it did already, or the created agent was
/// saved as it), so a second call creates nothing and an existing file is
/// never replaced.
pub proof fn law_init_agents_idempotent(builtin_exists: bool)
    ensures
        builtin_exists ==> !init_creates(builtin_exists),
        !init_creates(builtin_exists || init_creates(builtin_exists)),
{
}

/// A new (not built-in) agent from a request, with its id and stamp; the
/// temperature is the request's, as the caller clamped it.
pub fn new_agent<T>(request: CreateAgentRequest<T>, id: String, now: String) -> (r: CustomAgent<
    T,
>)
    ensures
        r.id == id,
        r.name == request.name,
        r.icon == request.icon,
        r.description == request.description,
        r.provider == request.provider,
        r.model == request.model,
        r.temperature == request.temperature,
        r.max_tokens == request.max_tokens,
        r.system_prompt == request.system_prompt,
        r.starters == request.starters,
        r.tool_source == request.tool_source,
        r.custom_openapi_url == request.custom_openapi_url,
        r.enabled_tools == request.enabled_tools,
        r.tool_overrides == request.tool_overrides,
        r.created_at == now,
        r.updated_at == now,
        !r.is_builtin,
{
    CustomAgent {
        id,
        name: request.name,
        icon: request.icon,
        description: request.description,
        provider: request.provider,
        model: request.model,
        temperature: request.temperature,
        max_tokens: request.max_tokens,
        system_prompt: request.system_prompt,
        starters: request.starters,
        tool_source: request.tool_source,
        custom_openapi_url: request.custom_openapi_url,
        enabled_tools: request.enabled_tools,
        tool_overrides: request.tool_overrides,
        created_at: now.clone(),
        updated_at: now,
        is_builtin: false,
    }
}

/// A new agent from a request, with a random UUID as its id and the
/// current time as its stamp.
pub fn create_agent<T>(request: CreateAgentRequest<T>) -> (r: CustomAgent<T>)
    ensures
        r.id@.len() == 36,
        r.name == request.name,
        r.icon == request.icon,
        r.description == request.description,
        r.provider == request.provider,
        r.model == request.model,
        r.temperature == request.temperature,
        r.max_tokens == request.max_tokens,
        r.system_prompt == request.system_prompt,
        r.starters == request.starters,
        r.tool_source == request.tool_source,
        r.custom_openapi_url == request.custom_openapi_url,
        r.enabled_tools == request.enabled_tools,
        r.tool_overrides == request.tool_overrides,
        r.created_at == r.updated_at,
        !r.is_builtin,
{
    let id = new_uuid();
    let now = utc_now_rfc3339();
    new_agent(request, id, now)
}

/// `new` when present, else `old`.
pub open spec fn or_keep<A>(new: Option<A>, old: A) -> A {
    match new {
        Some(v) => v,
        None => old,
    }
}

/// Whether `r` is `a` updated by `req` at `now`: a built-in agent takes only
/// new starters; another takes every field the request holds.
pub open spec fn updated_by<T>(r: CustomAgent<T>, a: CustomAgent<T>, req: UpdateAgentRequest<T>, now: String) -> bool {
    &&& r.id == a.id
    &&& r.is_builtin == a.is_builtin
    &&& r.created_at == a.created_at
    &&& r.updated_at == now
    &&& r.starters == or_keep(req.starters, a.starters)
    &&& if a.is_builtin {
        &&& r.name == a.name
        &&& r.icon == a.icon
        &&& r.description == a.description
        &&& r.provider == a.provider
        &&& r.model == a.model
        &&& r.temperature == a.temperature
        &&& r.max_tokens == a.max_tokens
        &&& r.system_prompt == a.system_prompt
        &&& r.tool_source == a.tool_source
        &&& r.custom_openapi_url == a.custom_openapi_url
        &&& r.enabled_tools == a.enabled_tools
        &&& r.tool_overrides == a.tool_overrides
    } else {
        &&& r.name == or_keep(req.name, a.name)
        &&& r.icon == or_keep(req.icon, a.icon)
        &&& r.description == or_keep(req.description, a.description)
        &&& r.provider == or_keep(req.provider, a.provider)
        &&& r.model == or_keep(req.model, a.model)
        &&& r.temperature == or_keep(req.temperature, a.temperature)
        &&& r.max_tokens == or_keep(req.max_tokens, a.max_tokens)
        &&& r.system_prompt == or_keep(req.system_prompt, a.system_prompt)
        &&& r.tool_source == or_keep(req.tool_source, a.tool_source)
        &&& r.custom_openapi_url == (match req.custom_openapi_url {
            Some(u) => Some(u),
            None => a.custom_openapi_url,
        })
        &&& r.enabled_tools == or_keep(req.enabled_tools, a.enabled_tools)
        &&& r.tool_overrides == or_keep(req.tool_overrides, a.tool_overrides)
    }
}

/// Apply an update request to an agent, stamped with the current time.
pub fn update_agent<T>(agent: CustomAgent<T>, request: UpdateAgentRequest<T>) -> (r: CustomAgent<T>)
    ensures
        exists|now: String| #[trigger] updated_by(r, agent, request, now),
{
    let now = utc_now_rfc3339();
    let r = apply_agent_update(agent, request, now);
    r
}

/// Apply an update request to an agent, stamped `now` (the temperature is
/// the request's, as the caller clamped it).
pub fn apply_agent_update<T>(agent: CustomAgent<T>, request: UpdateAgentRequest<T>, now: String) -> (r:
    CustomAgent<T>)
    ensures
        updated_by(r, agent, request, now),
{
    let mut a = agent;
    if a.is_builtin {
        if let Some(starters) = request.starters {
            a.starters = starters;
        }
        a.updated_at = now;
        return a;
    }
    if let Some(v) = request.name {
        a.name = v;
    }
    if let Some(v) = request.icon {
        a.icon = v;
    }
    if let Some(v) = request.description {
        a.description = v;
    }
    if let Some(v) = request.provider {
        a.provider = v;
    }
    if let Some(v) = request.model {
        a.model = v;
    }
    if let Some(v) = request.temperature {
        a.temperature = v;
    }
    if let Some(v) = request.max_tokens {
        a.max_tokens = v;
    }
    if let Some(v) = request.system_prompt {
        a.system_prompt = v;
    }
    if let Some(v) = request.starters {
        a.starters = v;
    }
    if let Some(v) = request.tool_source {
        a.tool_source = v;
    }
    if let Some(v) = request.custom_openapi_url {
        a.custom_openapi_url = Some(v);
    }
    if let Some(v) = request.enabled_tools {
        a.enabled_tools = v;
    }
    if let Some(v) = request.tool_overrides {
        a.tool_overrides = v;
    }
    a.updated_at = now;
    a
}

/// A built-in agent cannot be deleted.
pub fn check_delete<T>(agent: &CustomAgent<T>, id: &str) -> (r: Result<(), AgentStorageError>)
    ensures
        agent.is_builtin ==> (r matches Err(AgentStorageError::CannotModifyBuiltin(p)) && p@ == id@),
        !agent.is_builtin ==> r is Ok,
{
    if agent.is_builtin {
        Err(AgentStorageError::CannotModifyBuiltin(String::from_str(id)))
    } else {
        Ok(())
    }
}

/// The 400 answer for a blank agent name, if the name is blank.
pub fn check_agent_name(name: &str) -> (r: Option<crate::agent::AgentHttpError>)
    ensures
        trim(name@).len() == 0 ==> (r matches Some(e) && e.status == 400 && e.code@ == "INVALID_NAME"@
            && e.error@ == "Agent name cannot be empty"@),
        trim(name@).len() != 0 ==> r is None,
{
    if is_blank(name) {
        Some(
            crate::agent::AgentHttpError {
                status: 400,
                error: String::from_str("Agent name cannot be empty"),
                code: String::from_str("INVALID_NAME"),
            },
        )
    } else {
        None
    }
}

/// `a` is listed before `b`: built-in agents first, then by name.
pub open spec fn listed_before<T>(a: CustomAgent<T>, b: CustomAgent<T>) -> bool {
    ||| (a.is_builtin && !b.is_builtin)
    ||| (a.is_builtin == b.is_builtin && lex_lt(a.name@, b.name@))
}

/// The agents are in listing order.
pub open spec fn agents_listed<T>(v: Seq<CustomAgent<T>>) -> bool {
    forall|i: int, j: int| 0 <= i < j < v.len() ==> !listed_before(#[trigger] v[j], #[trigger] v[i])
}

proof fn lemma_listed_before_order<T>(a: CustomAgent<T>, b: CustomAgent<T>, c: CustomAgent<T>)
    ensures
        !listed_before(a, a),
        listed_before(a, b) && listed_before(b, c) ==> listed_before(a, c),
        listed_before(a, b) ==> !listed_before(b, a),
{
    crate::text::lemma_lex_irreflexive(a.name@);
    if lex_lt(a.name@, b.name@) && lex_lt(b.name@, c.name@) {
        crate::text::lemma_lex_transitive(a.name@, b.name@, c.name@);
    }
    if lex_lt(a.name@, b.name@) && lex_lt(b.name@, a.name@) {
        crate::text::lemma_lex_transitive(a.name@, b.name@, a.name@);
    }
}

/// Whether `a` is listed before `b` (built-in first, then by name).
fn before<T>(a: &CustomAgent<T>, b: &CustomAgent<T>) -> (r: bool)
    ensures
        r == listed_before(*a, *b),
{
    if a.is_builtin && !b.is_builtin {
        return true;
    }
    if a.is_builtin != b.is_builtin {
        return false;
    }
    let an = crate::text::chars_of(a.name.as_str());
    let bn = crate::text::chars_of(b.name.as_str());
    crate::text::chars_lt(&an, &bn)
}

/// Sort agents for listing: built-in agents first, then by name.
pub fn list_agents<T>(agents: Vec<CustomAgent<T>>) -> (r: Vec<CustomAgent<T>>)
    ensures
        agents_listed(r@),
        r@.to_multiset() == agents@.to_multiset(),
{
    broadcast use vstd::seq_lib::group_to_multiset_ensures;
    let ghost orig = agents@;
    let mut rest = agents;
    let n = rest.len();
    let mut out: Vec<CustomAgent<T>> = Vec::new();
    let mut i: usize = 0;
    assert(orig.skip(0) =~= orig);
    assert(orig.take(0) =~= Seq::<CustomAgent<T>>::empty());
    while rest.len() > 0
        invariant
            i <= orig.len() == n,
            rest@ == orig.skip(i as int),
            agents_listed(out@),
            out@.to_multiset() == orig.take(i as int).to_multiset(),
        decreases rest@.len(),
    {
        let a = rest.remove(0);
        proof {
            assert(orig.skip(i as int)[0] == orig[i as int]);
            assert(orig.take(i + 1) =~= orig.take(i as int).push(orig[i as int]));
            orig.take(i as int).to_multiset_ensures();
        }
        let mut p: usize = 0;
        while p < out.len() && !before(&a, &out[p])
            invariant
                p <= out@.len(),
                forall|k: int| 0 <= k < p ==> !listed_before(a, #[trigger] out@[k]),
            decreases out@.len() - p,
        {
            p = p + 1;
        }
        let ghost o = out@;
        out.insert(p, a);
        proof {
            let w = out@;
            assert(w =~= o.insert(p as int, a));
            assert(w.remove(p as int) =~= o);
            assert(w[p as int] == a);
            assert(w.to_multiset() =~= o.to_multiset().insert(a)) by {
                w.to_multiset_ensures();
                assert(w.remove(p as int).to_multiset() =~= w.to_multiset().remove(w[p as int]));
                assert(w.contains(a));
                assert(w.to_multiset().count(a) > 0);
            }
            assert forall|x: int, y: int| 0 <= x < y < w.len() implies !listed_before(
                #[trigger] w[y],
                #[trigger] w[x],
            ) by {
                if y < p {
                    assert(w[x] == o[x] && w[y] == o[y]);
                } else if y == p {
                    assert(w[x] == o[x]);
                } else if x == p {
                    assert(w[y] == o[y - 1]);
                    if listed_before(o[y - 1], a) {
                        if y - 1 == p {
                            lemma_listed_before_order(a, o[p as int], a);
                        } else {
                            lemma_listed_before_order(o[y - 1], a, o[p as int]);
                        }
                    }
                } else if x < p {
                    assert(w[x] == o[x] && w[y] == o[y - 1]);
                } else {
                    assert(w[x] == o[x - 1] && w[y] == o[y - 1]);
                }
            }
        }
        i = i + 1;
        assert(rest@ =~= orig.skip(i as int));
    }
    assert(orig.take(i as int) =~= orig);
    out
}

/// The response listing agents.
pub fn agents_list_response<T>(agents: Vec<CustomAgent<T>>) -> (r: AgentsListResponse<T>)
    ensures
        r.agents == agents,
        r.count == agents@.len(),
{
    let count = agents.len();
    AgentsListResponse { agents, count }
}

/// The system prompt with its template variables replaced, in order:
/// {{CONNECTION_NAME}} (default "Not connected"), {{CONNECTION_USER}}
/// (default "Unknown"), {{SCHEMAS}} (the schemas joined by ", ", default
/// "None available") and {{TIMESTAMP}}.
pub open spec fn resolved_prompt(
    prompt: Seq<char>,
    name: Option<Seq<char>>,
    user: Option<Seq<char>>,
    schemas: Option<Seq<Seq<char>>>,
    timestamp: Seq<char>,
) -> Seq<char> {
    let a = replace_all(
        prompt,
        "{{CONNECTION_NAME}}"@,
        match name {
            Some(n) => n,
            None => "Not connected"@,
        },
    );
    let b = replace_all(
        a,
        "{{CONNECTION_USER}}"@,
        match user {
            Some(u) => u,
            None => "Unknown"@,
        },
    );
    let c = replace_all(
        b,
        "{{SCHEMAS}}"@,
        match schemas {
            Some(s) => join(s, ", "@),
            None => "None available"@,
        },
    );
    replace_all(c, "{{TIMESTAMP}}"@, timestamp)
}

/// The text of an optional `&str`.
pub open spec fn opt_str_view(o: Option<&str>) -> Option<Seq<char>> {
    match o {
        Some(s) => Some(s@),
        None => None,
    }
}

/// The texts of optional schema names.
pub open spec fn schemas_view(schemas: Option<&[String]>) -> Option<Seq<Seq<char>>> {
    match schemas {
        Some(s) => Some(strings_view(s@)),
        None => None,
    }
}

/// Resolve the template variables of a system prompt, with `timestamp` as
/// the time.
pub fn resolve_template_variables_at(
    prompt: &str,
    connection_name: Option<&str>,
    connection_user: Option<&str>,
    schemas: Option<&[String]>,
    timestamp: &str,
) -> (r: String)
    ensures
        r@ == resolved_prompt(
            prompt@,
            opt_str_view(connection_name),
            opt_str_view(connection_user),
            schemas_view(schemas),
            timestamp@,
        ),
{
    let name = match connection_name {
        Some(n) => n,
        None => "Not connected",
    };
    let a = replace_str(prompt, "{{CONNECTION_NAME}}", name);
    let user = match connection_user {
        Some(u) => u,
        None => "Unknown",
    };
    let b = replace_str(a.as_str(), "{{CONNECTION_USER}}", user);
    let schemas_str = match schemas {
        Some(s) => crate::text::join_strings(s, ", "),
        None => String::from_str("None available"),
    };
    let c = replace_str(b.as_str(), "{{SCHEMAS}}", schemas_str.as_str());
    replace_str(c.as_str(), "{{TIMESTAMP}}", timestamp)
}

/// The local time as `%Y-%m-%d %H:%M:%S` (chrono's `Local::now()` and
/// `format`). Nothing is stated of the text: it depends on the clock and
/// the machine's time zone.
#[verifier::external_body]
fn local_now_formatted() -> (r: String) {
    chrono::Local::now().format("%Y-%m-%d %H:%M:%S").to_string()
}

/// Resolve the template variables of a system prompt at the current local
/// time.
pub fn resolve_template_variables(
    prompt: &str,
    connection_name: Option<&str>,
    connection_user: Option<&str>,
    schemas: Option<&[String]>,
) -> (r: String)
    ensures
        exists|t: Seq<char>|
            r@ == #[trigger] resolved_prompt(
                prompt@,
                opt_str_view(connection_name),
                opt_str_view(connection_user),
                schemas_view(schemas),
                t,
            ),
{
    let now = local_now_formatted();
    resolve_template_variables_at(prompt, connection_name, connection_user, schemas, now.as_str())
}

} // verus!
