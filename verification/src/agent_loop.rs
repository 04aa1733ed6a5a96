//! The Gemini agent loop as a state machine: the caller calls the model
//! and runs the tools when told to, and hands back what came of it; the
//! run decides the next step, keeps the conversation, the reasoning trace,
//! the token usage and the cited sources, and assembles the answer.

use vstd::prelude::*;
use crate::agent::{arg_lookup, AgentError, AgentRequest, SourceCitation, TokenUsage, ToolArg, ToolCall};
use crate::gemini_api::{
    call_of_part, call_parts, first_parts, first_text_part, or_zero, part_json, GeminiContent,
    GeminiPart, GeminiResponse,
};
use crate::text::{decimal, same_text};
use vstd::utf8::{decode_utf8, encode_utf8};
use vstd::string::StringSliceAdditionalSpecFns;

verus! {

/// Entry in the agent's reasoning trace.
pub struct TraceEntry {
    /// Step number (0 for the question).
    pub step: u32,
    /// "question", "tool_call", "tool_result" or "answer".
    pub action_type: String,
    pub content: String,
    /// RFC 3339 time of the entry.
    pub timestamp: String,
    pub tool_name: Option<String>,
    pub duration_ms: Option<u64>,
}

/// Response of the agent.
pub struct AgentResponse {
    pub answer: String,
    pub sources: Vec<SourceCitation>,
    pub trace: Vec<TraceEntry>,
    pub session_id: String,
    pub tokens_used: Option<TokenUsage>,
    pub model_id: Option<String>,
}

/// Result of a tool execution; `data_json` is the JSON text of its data.
pub struct ToolResult {
    pub tool_call_id: String,
    pub success: bool,
    pub data_json: String,
    pub error: Option<String>,
}

impl ToolResult {
    /// A successful result with its data (as JSON text).
    pub fn json(tool_call_id: &str, data_json: String) -> (r: ToolResult)
        ensures
            r.tool_call_id@ == tool_call_id@,
            r.success,
            r.data_json@ == data_json@,
            r.error is None,
    {
        ToolResult { tool_call_id: String::from_str(tool_call_id), success: true, data_json, error: None }
    }

    /// A failed result with its message (and `null` data).
    pub fn error(tool_call_id: &str, message: &str) -> (r: ToolResult)
        ensures
            r.tool_call_id@ == tool_call_id@,
            !r.success,
            r.data_json@ == "null"@,
            r.error matches Some(e) && e@ == message@,
    {
        ToolResult {
            tool_call_id: String::from_str(tool_call_id),
            success: false,
            data_json: String::from_str("null"),
            error: Some(String::from_str(message)),
        }
    }
}

/// The current UTC time as serde writes a `DateTime<Utc>`
/// (`to_rfc3339_opts(SecondsFormat::AutoSi, true)`); nothing is stated of
/// the text, which depends on the clock.
#[verifier::external_body]
fn utc_now_stamp() -> (r: String) {
    chrono::Utc::now().to_rfc3339_opts(chrono::SecondsFormat::AutoSi, true)
}

/// A lower-case hex digit.
pub open spec fn json_hex_digit(d: int) -> char {
    if d < 10 {
        (d + 48) as char
    } else {
        (d + 87) as char
    }
}

/// One character inside a JSON string literal, as serde_json writes it:
/// `"` and `\` and the control characters escaped (the short forms `\b`,
/// `\t`, `\n`, `\f`, `\r`, the others as `\u00XX` in lower-case hex),
/// every other character as it is.
pub open spec fn json_escape_char(c: char) -> Seq<char> {
    if c == '"' {
        seq!['\\', '"']
    } else if c == '\\' {
        seq!['\\', '\\']
    } else if c == '\u{8}' {
        seq!['\\', 'b']
    } else if c == '\t' {
        seq!['\\', 't']
    } else if c == '\n' {
        seq!['\\', 'n']
    } else if c == '\u{c}' {
        seq!['\\', 'f']
    } else if c == '\r' {
        seq!['\\', 'r']
    } else if (c as int) < 0x20 {
        seq!['\\', 'u', '0', '0', json_hex_digit((c as int) / 16), json_hex_digit((c as int) % 16)]
    } else {
        seq![c]
    }
}

/// The escaped characters of a JSON string literal.
pub open spec fn json_escaped(s: Seq<char>) -> Seq<char>
    decreases s.len(),
{
    if s.len() == 0 {
        Seq::empty()
    } else {
        json_escaped(s.drop_last()) + json_escape_char(s.last())
    }
}

/// The JSON text of a string value (serde_json's `Display` of
/// `Value::String`): the escaped characters between double quotes.
pub open spec fn json_string(s: Seq<char>) -> Seq<char> {
    seq!['"'] + json_escaped(s) + seq!['"']
}

/// `serde_json::Value::String(s).to_string()`: the string as a JSON string
/// literal (serde_json's `format_escaped_str`).
#[verifier::external_body]
fn json_quote(s: &str) -> (r: String)
    ensures
        r@ == json_string(s@),
{
    serde_json::Value::String(s.to_string()).to_string()
}

/// The upper-case form of a text (`str::to_uppercase`).
pub uninterp spec fn uppercase(s: Seq<char>) -> Seq<char>;

/// `str::to_uppercase`: the text in upper case, a function of the text.
#[verifier::external_body]
pub(crate) fn to_uppercase(s: &str) -> (r: String)
    ensures
        r@ == uppercase(s@),
{
    s.to_uppercase()
}

/// The JSON text of an argument (serde_json's `Display`).
pub open spec fn arg_display(a: ToolArg) -> Seq<char> {
    match a {
        ToolArg::Text(s) => json_string(s@),
        ToolArg::Count(n) => decimal(n as nat),
        ToolArg::Other(j) => j@,
    }
}

/// The string of an argument, or the empty text for another value.
pub open spec fn arg_str(a: Option<ToolArg>) -> Seq<char> {
    match a {
        Some(ToolArg::Text(s)) => s@,
        _ => Seq::empty(),
    }
}

/// The citation a successful tool call adds: (source type, description,
/// reference).
pub open spec fn citation_of(c: ToolCall) -> Option<(Seq<char>, Seq<char>, Option<Seq<char>>)> {
    let args = c.arguments@;
    if c.name@ == "list_schemas"@ {
        Some(("metadata"@, "Database schema listing"@, None))
    } else if c.name@ == "list_tables"@ {
        match arg_lookup(args, "schema"@) {
            Some(v) => Some(
                (
                    "metadata"@,
                    "Tables in "@ + arg_display(v),
                    Some(uppercase(arg_str(Some(v)))),
                ),
            ),
            None => None,
        }
    } else if c.name@ == "list_columns"@ {
        let schema = arg_str(arg_lookup(args, "schema"@));
        let table = arg_str(arg_lookup(args, "table"@));
        Some(
            (
                "metadata"@,
                "Columns in "@ + schema + "."@ + table,
                Some(uppercase(schema) + "."@ + uppercase(table)),
            ),
        )
    } else if c.name@ == "execute_query"@ {
        match arg_lookup(args, "sql"@) {
            Some(v) => Some(("query_result"@, "Query execution result"@, Some(arg_str(Some(v))))),
            None => None,
        }
    } else {
        None
    }
}

/// The value of a citation.
pub open spec fn citation_view(s: SourceCitation) -> (Seq<char>, Seq<char>, Option<Seq<char>>) {
    (
        s.source_type@,
        s.description@,
        match s.reference {
            Some(r) => Some(r@),
            None => None,
        },
    )
}

/// The string argument `name`, or the empty text.
fn str_arg(c: &ToolCall, name: &str) -> (r: String)
    ensures
        r@ == arg_str(arg_lookup(c.arguments@, name@)),
{
    match c.lookup_arg(name) {
        Some(ToolArg::Text(s)) => s.clone(),
        _ => String::new(),
    }
}

/// The citation for a successful tool call.
pub fn citation_for(c: &ToolCall) -> (r: Option<SourceCitation>)
    ensures
        match citation_of(*c) {
            Some(v) => r matches Some(s) && citation_view(s) == v,
            None => r is None,
        },
{
    if same_text(c.name.as_str(), "list_schemas") {
        return Some(
            SourceCitation {
                source_type: String::from_str("metadata"),
                description: String::from_str("Database schema listing"),
                reference: None,
            },
        );
    }
    if same_text(c.name.as_str(), "list_tables") {
        return match c.lookup_arg("schema") {
            Some(v) => {
                let shown = match v {
                    ToolArg::Text(s) => json_quote(s.as_str()),
                    ToolArg::Count(n) => crate::text::decimal_string(*n),
                    ToolArg::Other(j) => j.clone(),
                };
                let plain = match v {
                    ToolArg::Text(s) => s.clone(),
                    _ => String::new(),
                };
                Some(
                    SourceCitation {
                        source_type: String::from_str("metadata"),
                        description: String::from_str("Tables in ").concat(shown.as_str()),
                        reference: Some(to_uppercase(plain.as_str())),
                    },
                )
            },
            None => None,
        };
    }
    if same_text(c.name.as_str(), "list_columns") {
        let schema = str_arg(c, "schema");
        let table = str_arg(c, "table");
        let su = to_uppercase(schema.as_str());
        let tu = to_uppercase(table.as_str());
        return Some(
            SourceCitation {
                source_type: String::from_str("metadata"),
                description: String::from_str("Columns in ").concat(schema.as_str()).concat(
                    ".",
                ).concat(table.as_str()),
                reference: Some(su.concat(".").concat(tu.as_str())),
            },
        );
    }
    if same_text(c.name.as_str(), "execute_query") {
        return match c.lookup_arg("sql") {
            Some(v) => {
                let plain = match v {
                    ToolArg::Text(s) => s.clone(),
                    _ => String::new(),
                };
                Some(
                    SourceCitation {
                        source_type: String::from_str("query_result"),
                        description: String::from_str("Query execution result"),
                        reference: Some(plain),
                    },
                )
            },
            None => None,
        };
    }
    None
}

/// Whether two citations cite the same source (type and reference).
pub open spec fn same_source(a: SourceCitation, b: SourceCitation) -> bool {
    a.source_type@ == b.source_type@ && citation_view(a).2 == citation_view(b).2
}

/// The citations without repeats of a source, first ones kept.
pub open spec fn unique_sources(v: Seq<SourceCitation>) -> Seq<SourceCitation>
    decreases v.len(),
{
    if v.len() == 0 {
        Seq::empty()
    } else {
        let rest = unique_sources(v.drop_last());
        if exists|k: int| 0 <= k < rest.len() && same_source(#[trigger] rest[k], v.last()) {
            rest
        } else {
            rest.push(v.last())
        }
    }
}

/// Whether two optional references are equal.
fn same_reference(a: &Option<String>, b: &Option<String>) -> (r: bool)
    ensures
        r == (match (*a, *b) {
            (Some(x), Some(y)) => x@ == y@,
            (None, None) => true,
            _ => false,
        }),
{
    match (a, b) {
        (Some(x), Some(y)) => same_text(x.as_str(), y.as_str()),
        (None, None) => true,
        _ => false,
    }
}

/// Remove repeated sources, keeping the first of each.
pub fn dedup_sources(sources: Vec<SourceCitation>) -> (r: Vec<SourceCitation>)
    ensures
        r@ == unique_sources(sources@),
{
    let ghost orig = sources@;
    let mut rest = sources;
    let n = rest.len();
    let mut out: Vec<SourceCitation> = Vec::new();
    let mut i: usize = 0;
    assert(orig.skip(0) =~= orig);
    assert(orig.take(0) =~= Seq::<SourceCitation>::empty());
    while rest.len() > 0
        invariant
            i <= orig.len() == n,
            rest@ == orig.skip(i as int),
            out@ == unique_sources(orig.take(i as int)),
        decreases rest@.len(),
    {
        let s = rest.remove(0);
        let ghost pre = orig.take(i + 1);
        proof {
            assert(orig.skip(i as int)[0] == orig[i as int]);
            assert(pre.drop_last() =~= orig.take(i as int));
            assert(pre.last() == s);
        }
        let mut found = false;
        let mut k: usize = 0;
        while k < out.len()
            invariant
                k <= out@.len(),
                !found ==> forall|j: int| 0 <= j < k ==> !same_source(#[trigger] out@[j], s),
                found ==> exists|j: int| 0 <= j < out@.len() && same_source(#[trigger] out@[j], s),
            decreases out@.len() - k,
        {
            if same_text(out[k].source_type.as_str(), s.source_type.as_str()) && same_reference(
                &out[k].reference,
                &s.reference,
            ) {
                found = true;
                assert(same_source(out@[k as int], s));
            }
            k = k + 1;
        }
        if !found {
            out.push(s);
        }
        i = i + 1;
        assert(rest@ =~= orig.skip(i as int));
    }
    assert(orig.take(i as int) =~= orig);
    out
}

/// The trace summary of a tool result: its data (cut after 500 bytes and
/// marked) or its error.
pub open spec fn result_summary(r: ToolResult) -> Seq<char> {
    if r.success {
        let b = encode_utf8(r.data_json@);
        if b.len() > 500 {
            decode_utf8(b.take(500)) + "...(truncated)"@
        } else {
            r.data_json@
        }
    } else {
        "Error: "@ + (match r.error {
            Some(e) => e@,
            None => "Unknown"@,
        })
    }
}

/// Whether cutting the result's data after 500 bytes is possible: the text
/// is sliced there, which is only defined on a character boundary.
pub open spec fn summary_cut_ok(r: ToolResult) -> bool {
    &&& encode_utf8(r.data_json@).len() <= usize::MAX
    &&& (r.success && encode_utf8(r.data_json@).len() > 500 ==> vstd::utf8::is_char_boundary(
        encode_utf8(r.data_json@),
        500,
    ))
}

/// The trace summary of a tool result.
pub fn summarize_result(r: &ToolResult) -> (s: String)
    requires
        summary_cut_ok(*r),
    ensures
        s@ == result_summary(*r),
{
    broadcast use vstd::utf8::encode_utf8_decode_utf8;
    if r.success {
        let d = r.data_json.as_str();
        if d.len() > 500 {
            let (head, _) = d.split_at(500);
            assert(head.spec_bytes() =~= encode_utf8(r.data_json@).take(500));
            assert(decode_utf8(encode_utf8(head@)) == head@);
            String::from_str(head).concat("...(truncated)")
        } else {
            r.data_json.clone()
        }
    } else {
        let e = match &r.error {
            Some(e) => e.as_str(),
            None => "Unknown",
        };
        String::from_str("Error: ").concat(e)
    }
}

/// The JSON of a function response for a tool result: its data, or an
/// object with its error.
pub open spec fn response_json(r: ToolResult) -> Seq<char> {
    if r.success {
        r.data_json@
    } else {
        "{\"error\":"@ + json_string(
            match r.error {
                Some(e) => e@,
                None => "Unknown error"@,
            },
        ) + "}"@
    }
}

/// The JSON of a function response for a tool result.
fn function_response_json(r: &ToolResult) -> (s: String)
    ensures
        s@ == response_json(*r),
{
    if r.success {
        r.data_json.clone()
    } else {
        let e = match &r.error {
            Some(e) => e.as_str(),
            None => "Unknown error",
        };
        String::from_str("{\"error\":").concat(json_quote(e).as_str()).concat("}")
    }
}

/// Whether two tool calls are the same call.
pub open spec fn same_call(a: ToolCall, b: ToolCall) -> bool {
    a.id == b.id && a.name == b.name && a.arguments@ == b.arguments@
}

/// The two messages that close an iteration: the model's calls of the
/// iteration's tools, in order, then the user's responses to them.
pub open spec fn closes_round(
    calls: GeminiContent,
    responses: GeminiContent,
    round: Seq<(ToolCall, String)>,
) -> bool {
    &&& calls.role@ == "model"@
    &&& calls.parts@.len() == round.len()
    &&& forall|i: int|
        0 <= i < round.len() ==> (#[trigger] calls.parts@[i] matches GeminiPart::FunctionCall {
            name,
            ..
        } && name@ == round[i].0.name@)
    &&& responses.role@ == "user"@
    &&& responses.parts@.len() == round.len()
    &&& forall|i: int|
        0 <= i < round.len() ==> (#[trigger] responses.parts@[i] matches GeminiPart::FunctionResponse {
            name,
            ..
        } && name@ == round[i].0.name@)
}

/// What the run asks of the caller next.
pub enum AgentStep {
    /// Call the model with the conversation so far.
    CallModel,
    /// Run this tool call.
    RunTool(ToolCall),
    /// The run is over.
    Finished(Result<AgentResponse, AgentError>),
}

/// A run of the agent loop.
pub struct AgentRun {
    model: String,
    session_id: String,
    max_iterations: u32,
    iteration: u32,
    contents: Vec<GeminiContent>,
    trace: Vec<TraceEntry>,
    sources: Vec<SourceCitation>,
    tokens: TokenUsage,
    pending: Vec<(ToolCall, String)>,
    next: usize,
    model_calls: Vec<GeminiPart>,
    responses: Vec<GeminiPart>,
}

/// A copy of a tool call.
fn clone_call(c: &ToolCall) -> (r: ToolCall)
    ensures
        r.id == c.id,
        r.name == c.name,
        r.arguments@ == c.arguments@,
{
    ToolCall {
        id: c.id.clone(),
        name: c.name.clone(),
        arguments: crate::gemini_api::clone_args(&c.arguments),
    }
}

impl AgentRun {
    /// The model of the run.
    pub closed spec fn model_view(&self) -> Seq<char> {
        self.model@
    }

    /// The iterations started.
    pub closed spec fn iteration_view(&self) -> u32 {
        self.iteration
    }

    /// The iteration bound.
    pub closed spec fn max_view(&self) -> u32 {
        self.max_iterations
    }

    /// The tokens used so far.
    pub closed spec fn tokens_view(&self) -> TokenUsage {
        self.tokens
    }

    /// The sources cited so far.
    pub closed spec fn sources_view(&self) -> Seq<SourceCitation> {
        self.sources@
    }

    /// The conversation so far.
    pub closed spec fn contents_view(&self) -> Seq<GeminiContent> {
        self.contents@
    }

    /// The tool calls of the current iteration still to run.
    pub closed spec fn pending_view(&self) -> Seq<(ToolCall, String)> {
        self.pending@.skip(self.next as int)
    }

    /// The run waits for a model reply.
    pub closed spec fn awaits_model(&self) -> bool {
        self.next >= self.pending@.len() && 1 <= self.iteration <= self.max_iterations
    }

    /// The run waits for the result of the tool call at `next`.
    pub closed spec fn awaits_tool(&self) -> bool {
        self.next < self.pending@.len() && 1 <= self.iteration <= self.max_iterations
            && self.parts_recorded()
    }

    /// The tool call the run waits for.
    pub closed spec fn current_call(&self) -> ToolCall {
        self.pending@[self.next as int].0
    }

    /// The number of trace entries.
    pub closed spec fn trace_len(&self) -> nat {
        self.trace@.len()
    }

    /// The reasoning trace so far.
    pub closed spec fn trace_view(&self) -> Seq<TraceEntry> {
        self.trace@
    }

    /// The session of the run.
    pub closed spec fn session_view(&self) -> Seq<char> {
        self.session_id@
    }

    /// The tool calls of the current iteration, with their arguments' JSON.
    pub closed spec fn round_view(&self) -> Seq<(ToolCall, String)> {
        self.pending@
    }

    /// The calls already run this iteration, and their responses, are
    /// recorded in order.
    closed spec fn parts_recorded(&self) -> bool {
        &&& self.model_calls@.len() == self.next
        &&& self.responses@.len() == self.next
        &&& forall|i: int|
            0 <= i < self.next ==> (#[trigger] self.model_calls@[i] matches GeminiPart::FunctionCall {
                name,
                ..
            } && name@ == self.pending@[i].0.name@)
        &&& forall|i: int|
            0 <= i < self.next ==> (#[trigger] self.responses@[i] matches GeminiPart::FunctionResponse {
                name,
                ..
            } && name@ == self.pending@[i].0.name@)
    }

    /// Start a run for a request: the model is the request's (else
    /// `default_model`), the session the request's (else a new random id);
    /// the conversation opens with the question.
    pub fn start(request: &AgentRequest, default_model: &str, max_iterations: u32) -> (r: (
        AgentRun,
        AgentStep,
    ))
        ensures
            r.0.model_view() == (match request.model_id {
                Some(m) => m@,
                None => default_model@,
            }),
            r.0.max_view() == max_iterations,
            r.0.contents_view().len() == 1,
            r.0.contents_view()[0].role@ == "user"@,
            r.0.contents_view()[0].parts@.len() == 1,
            r.0.contents_view()[0].parts@[0] matches GeminiPart::Text(t) && t@ == request.question@,
            request.session_id matches Some(s) ==> r.0.session_view() == s@,
            r.0.trace_view().len() == 1,
            r.0.trace_view()[0].action_type@ == "question"@,
            r.0.trace_view()[0].content@ == request.question@,
            r.0.sources_view().len() == 0,
            r.0.tokens_view() == (TokenUsage { prompt_tokens: 0, completion_tokens: 0, total_tokens: 0 }),
            r.0.trace_len() == 1,
            max_iterations == 0 ==> r.1 matches AgentStep::Finished(Err(AgentError::MaxIterationsExceeded)),
            max_iterations > 0 ==> (r.1 is CallModel && r.0.awaits_model() && r.0.iteration_view()
                == 1),
    {
        let model = match &request.model_id {
            Some(m) => m.clone(),
            None => String::from_str(default_model),
        };
        let session_id = match &request.session_id {
            Some(s) => s.clone(),
            None => crate::agents::new_uuid(),
        };
        let mut contents: Vec<GeminiContent> = Vec::new();
        contents.push(GeminiContent::user(request.question.as_str()));
        let mut trace: Vec<TraceEntry> = Vec::new();
        trace.push(
            TraceEntry {
                step: 0,
                action_type: String::from_str("question"),
                content: request.question.clone(),
                timestamp: utc_now_stamp(),
                tool_name: None,
                duration_ms: None,
            },
        );
        let run = AgentRun {
            model,
            session_id,
            max_iterations,
            iteration: if max_iterations > 0 {
                1
            } else {
                0
            },
            contents,
            trace,
            sources: Vec::new(),
            tokens: TokenUsage { prompt_tokens: 0, completion_tokens: 0, total_tokens: 0 },
            pending: Vec::new(),
            next: 0,
            model_calls: Vec::new(),
            responses: Vec::new(),
        };
        if max_iterations == 0 {
            (run, AgentStep::Finished(Err(AgentError::MaxIterationsExceeded)))
        } else {
            (run, AgentStep::CallModel)
        }
    }

    /// Emit the tool call at `next`, with its trace entry.
    fn emit_call(&mut self, args_debug: &str) -> (r: AgentStep)
        requires
            old(self).next < old(self).pending@.len(),
        ensures
            r matches AgentStep::RunTool(c) && c.id == old(self).pending@[old(self).next as int].0.id
                && c.name == old(self).pending@[old(self).next as int].0.name && c.arguments@
                == old(self).pending@[old(self).next as int].0.arguments@,
            final(self).pending@ == old(self).pending@,
            final(self).next == old(self).next,
            final(self).trace@.len() == old(self).trace@.len() + 1,
            final(self).trace@.drop_last() == old(self).trace@,
            final(self).session_id == old(self).session_id,
            final(self).iteration == old(self).iteration,
            final(self).max_iterations == old(self).max_iterations,
            final(self).tokens == old(self).tokens,
            final(self).sources == old(self).sources,
            final(self).contents == old(self).contents,
            final(self).model == old(self).model,
            final(self).model_calls == old(self).model_calls,
            final(self).responses == old(self).responses,
            final(self).trace@.last().action_type@ == "tool_call"@,
            final(self).trace@.last().content@ == "Calling "@
                + old(self).pending@[old(self).next as int].0.name@ + " with "@ + args_debug@,
    {
        let c = clone_call(&self.pending[self.next].0);
        self.trace.push(
            TraceEntry {
                step: self.iteration,
                action_type: String::from_str("tool_call"),
                content: String::from_str("Calling ").concat(c.name.as_str()).concat(
                    " with ",
                ).concat(args_debug),
                timestamp: utc_now_stamp(),
                tool_name: Some(c.name.clone()),
                duration_ms: None,
            },
        );
        AgentStep::RunTool(c)
    }

    /// Take a model reply. Its token usage is added; when it calls tools,
    /// the first of them is to run (`first_args_debug` is the debug text of
    /// its arguments, for the trace); else its text (or "I couldn't
    /// generate a response.") is the answer, with the sources deduplicated.
    pub fn on_model_reply(&mut self, reply: &GeminiResponse, elapsed_ms: u64, first_args_debug: &str) -> (r:
        AgentStep)
        requires
            old(self).awaits_model(),
            reply.usage_metadata matches Some(u) ==> (old(self).tokens_view().prompt_tokens
                + or_zero(u.prompt_token_count) <= u32::MAX && old(self).tokens_view().completion_tokens
                + or_zero(u.candidates_token_count) <= u32::MAX && old(self).tokens_view().total_tokens
                + or_zero(u.total_token_count) <= u32::MAX),
        ensures
            final(self).tokens_view() == (match reply.usage_metadata {
                Some(u) => TokenUsage {
                    prompt_tokens: (old(self).tokens_view().prompt_tokens + or_zero(
                        u.prompt_token_count,
                    )) as u32,
                    completion_tokens: (old(self).tokens_view().completion_tokens + or_zero(
                        u.candidates_token_count,
                    )) as u32,
                    total_tokens: (old(self).tokens_view().total_tokens + or_zero(
                        u.total_token_count,
                    )) as u32,
                },
                None => old(self).tokens_view(),
            }),
            final(self).iteration_view() == old(self).iteration_view(),
            final(self).max_view() == old(self).max_view(),
            final(self).contents_view() == old(self).contents_view(),
            final(self).session_view() == old(self).session_view(),
            final(self).model_view() == old(self).model_view(),
            call_parts(first_parts(*reply)).len() > 0 ==> (r matches AgentStep::RunTool(c)
                && final(self).awaits_tool() && same_call(final(self).current_call(), c)
                && final(self).pending_view().len() == call_parts(first_parts(*reply)).len()
                && final(self).pending_view() == final(self).round_view()
                && (forall|i: int|
                0 <= i < final(self).pending_view().len() ==> call_of_part(
                    (#[trigger] final(self).pending_view()[i]).0,
                    call_parts(first_parts(*reply))[i],
                ) && part_json(call_parts(first_parts(*reply))[i]) == Some(
                    final(self).pending_view()[i].1,
                ))
                && final(self).sources_view() == old(self).sources_view()),
            call_parts(first_parts(*reply)).len() == 0 ==> (r matches AgentStep::Finished(Ok(resp))
                && resp.answer@ == (match first_text_part(first_parts(*reply)) {
                    Some(t) => t,
                    None => "I couldn't generate a response."@,
                }) && resp.sources@ == unique_sources(old(self).sources_view()) && resp.tokens_used
                == Some(final(self).tokens_view()) && resp.trace@.len() == old(self).trace_len() + 1
                && (resp.model_id matches Some(m) && m@ == old(self).model_view())
                && resp.session_id@ == old(self).session_view() && resp.trace@.drop_last()
                == old(self).trace_view() && resp.trace@.last().action_type@ == "answer"@
                && resp.trace@.last().content@ == resp.answer@),
    {
        match reply.get_token_usage() {
            Some(u) => {
                self.tokens = TokenUsage {
                    prompt_tokens: self.tokens.prompt_tokens + u.prompt_tokens,
                    completion_tokens: self.tokens.completion_tokens + u.completion_tokens,
                    total_tokens: self.tokens.total_tokens + u.total_tokens,
                };
            },
            None => {},
        }
        if reply.has_function_calls() {
            let calls = reply.get_function_calls();
            self.pending = calls;
            self.next = 0;
            self.model_calls = Vec::new();
            self.responses = Vec::new();
            assert(self.pending@.skip(0) =~= self.pending@);
            self.emit_call(first_args_debug)
        } else {
            let answer = match reply.get_text() {
                Some(t) => t,
                None => String::from_str("I couldn't generate a response."),
            };
            self.trace.push(
                TraceEntry {
                    step: self.iteration,
                    action_type: String::from_str("answer"),
                    content: answer.clone(),
                    timestamp: utc_now_stamp(),
                    tool_name: None,
                    duration_ms: Some(elapsed_ms),
                },
            );
            let mut sources: Vec<SourceCitation> = Vec::new();
            std::mem::swap(&mut sources, &mut self.sources);
            let unique = dedup_sources(sources);
            let mut trace: Vec<TraceEntry> = Vec::new();
            std::mem::swap(&mut trace, &mut self.trace);
            let resp = AgentResponse {
                answer,
                sources: unique,
                trace,
                session_id: self.session_id.clone(),
                tokens_used: Some(
                    TokenUsage {
                        prompt_tokens: self.tokens.prompt_tokens,
                        completion_tokens: self.tokens.completion_tokens,
                        total_tokens: self.tokens.total_tokens,
                    },
                ),
                model_id: Some(self.model.clone()),
            };
            AgentStep::Finished(Ok(resp))
        }
    }

    /// Take the result of the current tool call (run in `duration_ms`):
    /// trace it, cite its source when it succeeded, and record the call and
    /// its response for the conversation. The next call runs
    /// (`next_args_debug` is the debug text of its arguments), or, when all
    /// have run, the conversation takes them and the model is called again;
    /// after the last iteration the run fails.
    pub fn on_tool_result(&mut self, result: ToolResult, duration_ms: u64, next_args_debug: &str) -> (r:
        AgentStep)
        requires
            old(self).awaits_tool(),
            summary_cut_ok(result),
        ensures
            final(self).tokens_view() == old(self).tokens_view(),
            final(self).max_view() == old(self).max_view(),
            final(self).session_view() == old(self).session_view(),
            final(self).model_view() == old(self).model_view(),
            final(self).round_view() == old(self).round_view(),
            final(self).trace_view().take(old(self).trace_len() as int) == old(self).trace_view(),
            final(self).trace_view()[old(self).trace_len() as int].action_type@ == "tool_result"@,
            final(self).trace_view()[old(self).trace_len() as int].content@ == result_summary(result),
            final(self).trace_view()[old(self).trace_len() as int].step == old(self).iteration_view(),
            final(self).trace_view()[old(self).trace_len() as int].tool_name matches Some(n) && n@
                == old(self).current_call().name@,
            final(self).trace_view()[old(self).trace_len() as int].duration_ms == Some(duration_ms),
            final(self).sources_view() == (if result.success && citation_of(old(self).current_call()) is Some {
                old(self).sources_view().push(final(self).sources_view().last())
            } else {
                old(self).sources_view()
            }),
            result.success ==> (match citation_of(old(self).current_call()) {
                Some(v) => citation_view(final(self).sources_view().last()) == v,
                None => true,
            }),
            old(self).pending_view().len() > 1 ==> (r matches AgentStep::RunTool(c)
                && final(self).awaits_tool() && same_call(final(self).current_call(), c)
                && final(self).pending_view() == old(self).pending_view().drop_first()
                && final(self).iteration_view() == old(self).iteration_view()),
            old(self).pending_view().len() == 1 && old(self).iteration_view() < old(self).max_view() ==> (
            r matches AgentStep::CallModel && final(self).awaits_model()
                && final(self).iteration_view() == old(self).iteration_view() + 1
                && final(self).contents_view().len() == old(self).contents_view().len() + 2),
            old(self).pending_view().len() == 1 && old(self).iteration_view() >= old(self).max_view() ==> (
            r matches AgentStep::Finished(Err(AgentError::MaxIterationsExceeded))),
            old(self).pending_view().len() > 1 ==> final(self).contents_view()
                == old(self).contents_view(),
            old(self).pending_view().len() == 1 ==> (final(self).contents_view().len()
                == old(self).contents_view().len() + 2 && final(self).contents_view().take(
                old(self).contents_view().len() as int,
            ) == old(self).contents_view() && closes_round(
                final(self).contents_view()[old(self).contents_view().len() as int],
                final(self).contents_view()[old(self).contents_view().len() + 1int],
                old(self).round_view(),
            )),
    {
        let ghost old_sources = self.sources@;
        let call = clone_call(&self.pending[self.next].0);
        let args_json = self.pending[self.next].1.clone();
        let summary = summarize_result(&result);
        self.trace.push(
            TraceEntry {
                step: self.iteration,
                action_type: String::from_str("tool_result"),
                content: summary,
                timestamp: utc_now_stamp(),
                tool_name: Some(call.name.clone()),
                duration_ms: Some(duration_ms),
            },
        );
        if result.success {
            match citation_for(&call) {
                Some(s) => {
                    self.sources.push(s);
                },
                None => {},
            }
        }
        proof {
            assert(call.name == self.pending@[self.next as int].0.name);
            assert(call.arguments@ == self.pending@[self.next as int].0.arguments@);
            assert(citation_of(call) == citation_of(self.pending@[self.next as int].0));
        }
        let response = function_response_json(&result);
        self.model_calls.push(
            GeminiPart::FunctionCall {
                name: call.name.clone(),
                args: crate::gemini_api::clone_args(&call.arguments),
                args_json,
            },
        );
        self.responses.push(GeminiPart::FunctionResponse { name: call.name.clone(), response_json: response });
        let plen = self.pending.len();
        self.next = self.next + 1;
        assert(self.pending@.skip(self.next as int) =~= old(self).pending@.skip(
            old(self).next as int,
        ).drop_first());
        if self.next < self.pending.len() {
            let ghost traced = self.trace@;
            let step = self.emit_call(next_args_debug);
            assert(self.trace@[traced.len() - 1] == self.trace@.drop_last()[traced.len() - 1]);
            return step;
        }
        let mut calls: Vec<GeminiPart> = Vec::new();
        std::mem::swap(&mut calls, &mut self.model_calls);
        let mut responses: Vec<GeminiPart> = Vec::new();
        std::mem::swap(&mut responses, &mut self.responses);
        self.contents.push(GeminiContent::model_with_function_calls(calls));
        self.contents.push(GeminiContent::user_with_function_responses(responses));
        if self.iteration < self.max_iterations {
            self.iteration = self.iteration + 1;
            AgentStep::CallModel
        } else {
            AgentStep::Finished(Err(AgentError::MaxIterationsExceeded))
        }
    }

    /// The conversation to send to the model.
    pub fn contents(&self) -> (r: &Vec<GeminiContent>)
        ensures
            r@ == self.contents_view(),
    {
        &self.contents
    }
}

// ---------------------------------------------------------------------------
// The Gemini provider
// ---------------------------------------------------------------------------

/// The models the Gemini provider supports.
pub open spec fn gemini_models() -> Seq<Seq<char>> {
    seq!["gemini-1.5-flash"@, "gemini-1.5-flash-8b"@, "gemini-1.5-pro"@, "gemini-2.0-flash"@]
}

/// The Gemini agent provider: its API key, default model and request
/// timeout (the HTTP client is built from them by the caller).
pub struct GeminiProvider {
    pub api_key: String,
    pub default_model: String,
    pub timeout_secs: u64,
}

impl GeminiProvider {
    /// A provider with the default model `gemini-1.5-flash`.
    pub fn new(api_key: &str, timeout_secs: u64) -> (r: GeminiProvider)
        ensures
            r.api_key@ == api_key@,
            r.default_model@ == "gemini-1.5-flash"@,
            r.timeout_secs == timeout_secs,
    {
        GeminiProvider {
            api_key: String::from_str(api_key),
            default_model: String::from_str("gemini-1.5-flash"),
            timeout_secs,
        }
    }

    /// A provider with the given default model.
    pub fn with_model(api_key: &str, model: &str, timeout_secs: u64) -> (r: GeminiProvider)
        ensures
            r.api_key@ == api_key@,
            r.default_model@ == model@,
            r.timeout_secs == timeout_secs,
    {
        GeminiProvider {
            api_key: String::from_str(api_key),
            default_model: String::from_str(model),
            timeout_secs,
        }
    }

    /// The provider's name.
    pub fn name(&self) -> (r: &'static str)
        ensures
            r@ == "gemini"@,
    {
        proof {
            reveal_strlit("gemini");
        }
        "gemini"
    }

    /// Configured when it has an API key.
    pub fn is_configured(&self) -> (r: bool)
        ensures
            r == (self.api_key@.len() > 0),
    {
        !self.api_key.as_str().is_empty()
    }

    /// The default model.
    pub fn default_model(&self) -> (r: &str)
        ensures
            r@ == self.default_model@,
    {
        self.default_model.as_str()
    }

    /// The supported model ids.
    pub fn supported_models(&self) -> (r: Vec<&'static str>)
        ensures
            r@.map_values(|m: &str| m@) == gemini_models(),
    {
        let mut v: Vec<&'static str> = Vec::new();
        v.push("gemini-1.5-flash");
        v.push("gemini-1.5-flash-8b");
        v.push("gemini-1.5-pro");
        v.push("gemini-2.0-flash");
        proof {
            reveal_strlit("gemini-1.5-flash");
            reveal_strlit("gemini-1.5-flash-8b");
            reveal_strlit("gemini-1.5-pro");
            reveal_strlit("gemini-2.0-flash");
        }
        assert(v@.map_values(|m: &str| m@) =~= gemini_models());
        v
    }

    /// Whether the model is one of the supported ones.
    pub fn supports_model(&self, model_id: &str) -> (r: bool)
        ensures
            r == gemini_models().contains(model_id@),
    {
        let models = self.supported_models();
        let ghost ms = models@.map_values(|m: &str| m@);
        let mut i: usize = 0;
        while i < models.len()
            invariant
                i <= models@.len(),
                ms == models@.map_values(|m: &str| m@),
                ms == gemini_models(),
                forall|k: int| 0 <= k < i ==> ms[k] != model_id@,
            decreases models@.len() - i,
        {
            if same_text(models[i], model_id) {
                assert(ms[i as int] == model_id@);
                return true;
            }
            i = i + 1;
        }
        proof {
            if gemini_models().contains(model_id@) {
                let k = choose|k: int| 0 <= k < ms.len() && ms[k] == model_id@;
                assert(ms[k] != model_id@);
            }
        }
        false
    }
}

} // verus!
