//! The full detail of a task: its messages, the timeline of its tool calls
//! with their results, the tool breakdown and counts, and the records of
//! its metadata file.

use vstd::prelude::*;
use crate::history::FileInContextDetail;
use crate::messages::{
    extract_tool_result_text, message_summaries, messages_view, ostr, result_text_of,
    summarize_message, ConversationMessage, RawApiMessage, RawContentBlock,
};
use crate::messages::char_count;
use crate::text::{clone_opt_string, same_text};
use crate::util::{
    epoch_ms_to_iso, truncate_utf8, truncated, PROMPT_TRUNCATE_LEN, TOOL_INPUT_TRUNCATE_LEN,
    TOOL_RESULT_TRUNCATE_LEN,
};

verus! {

/// A tool call of the task timeline.
pub struct ToolCallDetail {
    /// Sequential index of the call in the task (0-based).
    pub call_index: usize,
    /// Message index where the tool_use block appears.
    pub message_index: usize,
    /// Tool name.
    pub tool_name: String,
    /// Tool use ID (links tool_use to tool_result).
    pub tool_use_id: String,
    /// First 300 characters of the JSON input.
    pub input_summary: String,
    /// Full input length in characters.
    pub input_full_length: usize,
    /// First 200 characters of the result text.
    pub result_summary: Option<String>,
    /// Full result length in characters.
    pub result_full_length: Option<usize>,
}

/// The value of a tool call.
pub ghost struct CallSpec {
    pub call_index: nat,
    pub message_index: nat,
    pub tool_name: Seq<char>,
    pub tool_use_id: Seq<char>,
    pub input_summary: Seq<char>,
    pub input_full_length: nat,
    pub result_summary: Option<Seq<char>>,
    pub result_full_length: Option<nat>,
}

impl View for ToolCallDetail {
    type V = CallSpec;

    open spec fn view(&self) -> CallSpec {
        CallSpec {
            call_index: self.call_index as nat,
            message_index: self.message_index as nat,
            tool_name: self.tool_name@,
            tool_use_id: self.tool_use_id@,
            input_summary: self.input_summary@,
            input_full_length: self.input_full_length as nat,
            result_summary: ostr(self.result_summary),
            result_full_length: match self.result_full_length {
                Some(n) => Some(n as nat),
                None => None,
            },
        }
    }
}

/// The values of a sequence of tool calls.
pub open spec fn calls_view(v: Seq<ToolCallDetail>) -> Seq<CallSpec> {
    v.map_values(|c: ToolCallDetail| c@)
}

/// The blocks of the messages in order, each with its message index.
pub open spec fn events(raw: Seq<RawApiMessage>) -> Seq<(nat, RawContentBlock)>
    decreases raw.len(),
{
    if raw.len() == 0 {
        Seq::empty()
    } else {
        events(raw.drop_last()) + raw.last().content@.map_values(
            |b: RawContentBlock| ((raw.len() - 1) as nat, b),
        )
    }
}

/// The position of the latest call with tool use id `id`.
pub open spec fn last_call_with_id(calls: Seq<CallSpec>, id: Seq<char>) -> Option<int>
    decreases calls.len(),
{
    if calls.len() == 0 {
        None
    } else if calls.last().tool_use_id == id {
        Some(calls.len() - 1)
    } else {
        last_call_with_id(calls.drop_last(), id)
    }
}

/// The position of `name` in a tool breakdown.
pub open spec fn name_position(b: Seq<(Seq<char>, nat)>, name: Seq<char>) -> Option<int>
    decreases b.len(),
{
    if b.len() == 0 {
        None
    } else if b.last().0 == name {
        Some(b.len() - 1)
    } else {
        name_position(b.drop_last(), name)
    }
}

/// The breakdown with one more use of `name` (a new name goes last).
pub open spec fn add_use(b: Seq<(Seq<char>, nat)>, name: Seq<char>) -> Seq<(Seq<char>, nat)> {
    match name_position(b, name) {
        Some(i) => b.update(i, (name, b[i].1 + 1)),
        None => b.push((name, 1nat)),
    }
}

/// What the walk over a task's blocks has gathered.
pub ghost struct DetailFold {
    pub calls: Seq<CallSpec>,
    pub breakdown: Seq<(Seq<char>, nat)>,
    pub thinking: nat,
}

/// One block of the walk: a tool use opens a call (and counts for its
/// tool), a tool result fills the latest call with its id, a thinking block
/// is counted.
pub open spec fn detail_step(s: DetailFold, ev: (nat, RawContentBlock)) -> DetailFold {
    match ev.1 {
        RawContentBlock::Thinking { .. } => DetailFold { thinking: s.thinking + 1, ..s },
        RawContentBlock::ToolUse { id, name, input_json, .. } => DetailFold {
            calls: s.calls.push(
                CallSpec {
                    call_index: s.calls.len(),
                    message_index: ev.0,
                    tool_name: name@,
                    tool_use_id: id@,
                    input_summary: truncated(input_json@, 300),
                    input_full_length: input_json@.len(),
                    result_summary: None,
                    result_full_length: None,
                },
            ),
            breakdown: add_use(s.breakdown, name@),
            ..s
        },
        RawContentBlock::ToolResult { tool_use_id, content, .. } => match last_call_with_id(
            s.calls,
            tool_use_id@,
        ) {
            Some(i) => DetailFold {
                calls: s.calls.update(
                    i,
                    CallSpec {
                        result_summary: Some(truncated(result_text_of(content), 200)),
                        result_full_length: Some(result_text_of(content).len()),
                        ..s.calls[i]
                    },
                ),
                ..s
            },
            None => s,
        },
        _ => s,
    }
}

/// The walk over a sequence of blocks.
pub open spec fn detail_fold(evs: Seq<(nat, RawContentBlock)>) -> DetailFold
    decreases evs.len(),
{
    if evs.len() == 0 {
        DetailFold { calls: Seq::empty(), breakdown: Seq::empty(), thinking: 0 }
    } else {
        detail_step(detail_fold(evs.drop_last()), evs.last())
    }
}

/// The text of the first text block of a message, if any.
pub open spec fn first_text(blocks: Seq<RawContentBlock>) -> Option<Seq<char>>
    decreases blocks.len(),
{
    if blocks.len() == 0 {
        None
    } else {
        match blocks[0] {
            RawContentBlock::Text { text } => Some(text@),
            _ => first_text(blocks.drop_first()),
        }
    }
}

/// The task prompt: the first text of the first user message that has one,
/// truncated to 200 characters.
pub open spec fn task_prompt_of(raw: Seq<RawApiMessage>) -> Option<Seq<char>>
    decreases raw.len(),
{
    if raw.len() == 0 {
        None
    } else if raw[0].role@ == "user"@ && first_text(raw[0].content@) is Some {
        Some(truncated(first_text(raw[0].content@)->0, 200))
    } else {
        task_prompt_of(raw.drop_first())
    }
}

/// The detail of a task's API conversation.
pub struct ApiHistoryDetail {
    pub messages: Vec<ConversationMessage>,
    pub tool_calls: Vec<ToolCallDetail>,
    /// Tool usage: (tool name, count), names in order of first use.
    pub tool_breakdown: Vec<(String, usize)>,
    pub message_count: usize,
    pub tool_use_count: usize,
    pub thinking_count: usize,
    pub task_prompt: Option<String>,
}

/// The values of a tool breakdown.
pub open spec fn breakdown_view(b: Seq<(String, usize)>) -> Seq<(Seq<char>, nat)> {
    b.map_values(|e: (String, usize)| (e.0@, e.1 as nat))
}

/// The first text block of a message, truncated for the task prompt.
fn prompt_of_message(blocks: &[RawContentBlock]) -> (r: Option<String>)
    ensures
        match first_text(blocks@) {
            Some(t) => r matches Some(s) && s@ == truncated(t, 200),
            None => r is None,
        },
{
    let mut j: usize = 0;
    assert(blocks@.skip(0) =~= blocks@);
    while j < blocks.len()
        invariant
            j <= blocks@.len(),
            first_text(blocks@) == first_text(blocks@.skip(j as int)),
        decreases blocks@.len() - j,
    {
        assert(blocks@.skip(j as int).drop_first() =~= blocks@.skip(j + 1));
        assert(blocks@.skip(j as int)[0] == blocks@[j as int]);
        match &blocks[j] {
            RawContentBlock::Text { text } => {
                return Some(truncate_utf8(text.as_str(), PROMPT_TRUNCATE_LEN));
            },
            _ => {},
        }
        j = j + 1;
    }
    None
}

/// The task prompt of a conversation.
pub fn task_prompt(raw: &[RawApiMessage]) -> (r: Option<String>)
    ensures
        ostr(r) == task_prompt_of(raw@),
{
    let mut i: usize = 0;
    assert(raw@.skip(0) =~= raw@);
    while i < raw.len()
        invariant
            i <= raw@.len(),
            task_prompt_of(raw@) == task_prompt_of(raw@.skip(i as int)),
        decreases raw@.len() - i,
    {
        assert(raw@.skip(i as int).drop_first() =~= raw@.skip(i + 1));
        assert(raw@.skip(i as int)[0] == raw@[i as int]);
        if same_text(raw[i].role.as_str(), "user") {
            let p = prompt_of_message(&raw[i].content);
            if p.is_some() {
                return p;
            }
        }
        i = i + 1;
    }
    None
}

/// The latest call with tool use id `id`.
fn find_last_call(calls: &Vec<ToolCallDetail>, id: &str) -> (r: Option<usize>)
    ensures
        match r {
            Some(k) => k < calls@.len() && last_call_with_id(calls_view(calls@), id@) == Some(
                k as int,
            ),
            None => last_call_with_id(calls_view(calls@), id@) is None,
        },
{
    let mut k: usize = calls.len();
    assert(calls_view(calls@).take(k as int) =~= calls_view(calls@));
    while k > 0
        invariant
            k <= calls@.len(),
            last_call_with_id(calls_view(calls@), id@) == last_call_with_id(
                calls_view(calls@).take(k as int),
                id@,
            ),
        decreases k,
    {
        let ghost t = calls_view(calls@).take(k as int);
        assert(t.drop_last() =~= calls_view(calls@).take(k - 1));
        assert(t.last() == calls@[k - 1]@);
        if same_text(calls[k - 1].tool_use_id.as_str(), id) {
            return Some(k - 1);
        }
        k = k - 1;
    }
    None
}

/// The position of `name` in the breakdown.
pub(crate) fn find_name(b: &Vec<(String, usize)>, name: &str) -> (r: Option<usize>)
    ensures
        match r {
            Some(k) => k < b@.len() && name_position(breakdown_view(b@), name@) == Some(k as int),
            None => name_position(breakdown_view(b@), name@) is None,
        },
{
    let mut k: usize = b.len();
    assert(breakdown_view(b@).take(k as int) =~= breakdown_view(b@));
    while k > 0
        invariant
            k <= b@.len(),
            name_position(breakdown_view(b@), name@) == name_position(
                breakdown_view(b@).take(k as int),
                name@,
            ),
        decreases k,
    {
        let ghost t = breakdown_view(b@).take(k as int);
        assert(t.drop_last() =~= breakdown_view(b@).take(k - 1));
        assert(t.last() == (b@[k - 1].0@, b@[k - 1].1 as nat));
        if same_text(b[k - 1].0.as_str(), name) {
            return Some(k - 1);
        }
        k = k - 1;
    }
    None
}

pub proof fn lemma_name_position_bound(b: Seq<(Seq<char>, nat)>, name: Seq<char>)
    ensures
        name_position(b, name) matches Some(i) ==> 0 <= i < b.len() && b[i].0 == name,
    decreases b.len(),
{
    if b.len() > 0 {
        lemma_name_position_bound(b.drop_last(), name);
    }
}

proof fn lemma_last_call_bound(c: Seq<CallSpec>, id: Seq<char>)
    ensures
        last_call_with_id(c, id) matches Some(i) ==> 0 <= i < c.len(),
    decreases c.len(),
{
    if c.len() > 0 {
        lemma_last_call_bound(c.drop_last(), id);
    }
}

/// Each count of the breakdown is at most the number of calls.
pub open spec fn counts_bounded(b: Seq<(Seq<char>, nat)>, n: nat) -> bool {
    forall|i: int| 0 <= i < b.len() ==> #[trigger] b[i].1 <= n
}

/// Walk the blocks of a task's messages: the tool call timeline with the
/// results joined to their calls, the tool breakdown, the counts of tool
/// uses and thinking blocks; then the message summaries (with the
/// timestamps joined from the UI messages) and the task prompt.
pub fn parse_api_history_detail(raw: &[RawApiMessage], timestamps: &[Option<String>]) -> (r:
    ApiHistoryDetail)
    requires
        timestamps@.len() == raw@.len(),
        events(raw@).len() < usize::MAX,
    ensures
        messages_view(r.messages@) == message_summaries(raw@, timestamps@),
        calls_view(r.tool_calls@) == detail_fold(events(raw@)).calls,
        breakdown_view(r.tool_breakdown@) == detail_fold(events(raw@)).breakdown,
        r.message_count == raw@.len(),
        r.tool_use_count == detail_fold(events(raw@)).calls.len(),
        r.thinking_count == detail_fold(events(raw@)).thinking,
        ostr(r.task_prompt) == task_prompt_of(raw@),
{
    let mut calls: Vec<ToolCallDetail> = Vec::new();
    let mut breakdown: Vec<(String, usize)> = Vec::new();
    let mut thinking: usize = 0;
    let mut i: usize = 0;
    let ghost total = events(raw@).len();
    proof {
        assert(events(raw@.take(0)) =~= Seq::<(nat, RawContentBlock)>::empty());
    }
    while i < raw.len()
        invariant
            i <= raw@.len(),
            total == events(raw@).len() < usize::MAX,
            events(raw@.take(i as int)).len() <= total,
            ({
                let f = detail_fold(events(raw@.take(i as int)));
                &&& calls_view(calls@) == f.calls
                &&& breakdown_view(breakdown@) == f.breakdown
                &&& thinking == f.thinking
                &&& f.calls.len() + f.thinking <= events(raw@.take(i as int)).len()
                &&& counts_bounded(f.breakdown, f.calls.len())
            }),
        decreases raw@.len() - i,
    {
        let msg = &raw[i];
        let ghost base = events(raw@.take(i as int));
        let ghost mapped = msg.content@.map_values(|b: RawContentBlock| (i as nat, b));
        proof {
            assert(raw@.take(i + 1).drop_last() =~= raw@.take(i as int));
            assert(raw@.take(i + 1).last() == raw@[i as int]);
            assert(events(raw@.take(i + 1)) == base + mapped);
            lemma_events_prefix(raw@, i + 1);
        }
        let mut j: usize = 0;
        assert(base + mapped.take(0) =~= base);
        while j < msg.content.len()
            invariant
                j <= msg.content@.len(),
                i < raw@.len(),
                *msg == raw@[i as int],
                mapped == msg.content@.map_values(|b: RawContentBlock| (i as nat, b)),
                base.len() + mapped.len() <= total,
                total < usize::MAX,
                calls_view(calls@) == detail_fold(base + mapped.take(j as int)).calls,
                breakdown_view(breakdown@) == detail_fold(base + mapped.take(j as int)).breakdown,
                thinking == detail_fold(base + mapped.take(j as int)).thinking,
                detail_fold(base + mapped.take(j as int)).calls.len() + detail_fold(
                    base + mapped.take(j as int),
                ).thinking <= base.len() + j,
                counts_bounded(
                    detail_fold(base + mapped.take(j as int)).breakdown,
                    detail_fold(base + mapped.take(j as int)).calls.len(),
                ),
            decreases msg.content@.len() - j,
        {
            let ghost prev = base + mapped.take(j as int);
            let ghost nxt = base + mapped.take(j + 1);
            let ghost f0 = detail_fold(prev);
            proof {
                assert(nxt.drop_last() =~= prev);
                assert(nxt.last() == (i as nat, msg.content@[j as int]));
            }
            match &msg.content[j] {
                RawContentBlock::Thinking { .. } => {
                    thinking = thinking + 1;
                },
                RawContentBlock::ToolUse { id, name, input_json, .. } => {
                    let call_index = calls.len();
                    let call = ToolCallDetail {
                        call_index,
                        message_index: i,
                        tool_name: name.clone(),
                        tool_use_id: id.clone(),
                        input_summary: truncate_utf8(input_json.as_str(), TOOL_INPUT_TRUNCATE_LEN),
                        input_full_length: char_count(input_json.as_str()),
                        result_summary: None,
                        result_full_length: None,
                    };
                    let ghost cv = call@;
                    let ghost cb = calls@;
                    calls.push(call);
                    assert(calls_view(calls@) =~= calls_view(cb).push(cv));
                    let ghost bb = breakdown_view(breakdown@);
                    proof {
                        lemma_name_position_bound(bb, name@);
                    }
                    match find_name(&breakdown, name.as_str()) {
                        Some(k) => {
                            assert(name_position(bb, name@) == Some(k as int));
                            let c = breakdown[k].1;
                            assert(bb[k as int].1 <= f0.calls.len());
                            breakdown.set(k, (name.clone(), c + 1));
                            assert(breakdown_view(breakdown@) =~= bb.update(
                                k as int,
                                (name@, bb[k as int].1 + 1),
                            ));
                        },
                        None => {
                            breakdown.push((name.clone(), 1));
                            assert(breakdown_view(breakdown@) =~= bb.push((name@, 1nat)));
                        },
                    }
                    assert(breakdown_view(breakdown@) == add_use(bb, name@));
                    assert(bb == f0.breakdown);
                    assert(detail_step(f0, nxt.last()).breakdown == add_use(f0.breakdown, name@));
                },
                RawContentBlock::ToolResult { tool_use_id, content, .. } => {
                    proof {
                        lemma_last_call_bound(calls_view(calls@), tool_use_id@);
                    }
                    match find_last_call(&calls, tool_use_id.as_str()) {
                        Some(k) => {
                            let text = extract_tool_result_text(content);
                            let old_call = &calls[k];
                            let updated = ToolCallDetail {
                                call_index: old_call.call_index,
                                message_index: old_call.message_index,
                                tool_name: old_call.tool_name.clone(),
                                tool_use_id: old_call.tool_use_id.clone(),
                                input_summary: old_call.input_summary.clone(),
                                input_full_length: old_call.input_full_length,
                                result_summary: Some(
                                    truncate_utf8(text.as_str(), TOOL_RESULT_TRUNCATE_LEN),
                                ),
                                result_full_length: Some(char_count(text.as_str())),
                            };
                            let ghost uv = updated@;
                            let ghost cb = calls_view(calls@);
                            calls.set(k, updated);
                            assert(calls_view(calls@) =~= cb.update(k as int, uv));
                        },
                        None => {},
                    }
                },
                _ => {},
            }
            j = j + 1;
            proof {
                let f1 = detail_fold(nxt);
                assert(f1 == detail_step(f0, nxt.last()));
                assert forall|q: int| 0 <= q < f1.breakdown.len() implies #[trigger] f1.breakdown[q].1
                    <= f1.calls.len() by {
                    if q < f0.breakdown.len() {
                        assert(f0.breakdown[q].1 <= f0.calls.len());
                    }
                }
            }
        }
        assert(mapped.take(j as int) =~= mapped);
        i = i + 1;
    }
    assert(raw@.take(i as int) =~= raw@);
    let mut messages: Vec<ConversationMessage> = Vec::new();
    let mut m: usize = 0;
    let ghost all = message_summaries(raw@, timestamps@);
    while m < raw.len()
        invariant
            m <= raw@.len() == timestamps@.len(),
            all == message_summaries(raw@, timestamps@),
            messages_view(messages@) == all.take(m as int),
        decreases raw@.len() - m,
    {
        let s = summarize_message(&raw[m], m, clone_opt_string(&timestamps[m]));
        let ghost before = messages@;
        let ghost sv = s@;
        messages.push(s);
        m = m + 1;
        assert(messages_view(messages@) =~= messages_view(before).push(sv));
        assert(all.take(m as int) =~= all.take(m - 1).push(all[m - 1]));
    }
    assert(all.take(m as int) =~= all);
    let tool_use_count = calls.len();
    ApiHistoryDetail {
        messages,
        tool_calls: calls,
        tool_breakdown: breakdown,
        message_count: raw.len(),
        tool_use_count,
        thinking_count: thinking,
        task_prompt: task_prompt(raw),
    }
}

pub proof fn lemma_events_prefix(raw: Seq<RawApiMessage>, n: int)
    requires
        0 <= n <= raw.len(),
    ensures
        events(raw.take(n)).len() <= events(raw).len(),
    decreases raw.len() - n,
{
    if n < raw.len() {
        lemma_events_prefix(raw, n + 1);
        assert(raw.take(n + 1).drop_last() =~= raw.take(n));
    } else {
        assert(raw.take(n) =~= raw);
    }
}

// ---------------------------------------------------------------------------
// task_metadata.json
// ---------------------------------------------------------------------------

/// A file-in-context entry of `task_metadata.json`.
pub struct RawFileInContext {
    pub path: String,
    pub record_state: Option<String>,
    pub record_source: Option<String>,
    pub cline_read_date: Option<u64>,
    pub cline_edit_date: Option<u64>,
    pub user_edit_date: Option<u64>,
}

/// A model usage entry of `task_metadata.json`.
pub struct RawModelUsage {
    pub ts: Option<u64>,
    pub model_id: Option<String>,
    pub model_provider_id: Option<String>,
    pub mode: Option<String>,
}

/// An environment history entry of `task_metadata.json`.
pub struct RawEnvironmentEntry {
    pub ts: Option<u64>,
    pub os_name: Option<String>,
    pub os_version: Option<String>,
    pub host_name: Option<String>,
    pub host_version: Option<String>,
    pub cline_version: Option<String>,
}

/// The content of `task_metadata.json`.
pub struct RawTaskMetadata {
    pub files_in_context: Vec<RawFileInContext>,
    pub model_usage: Vec<RawModelUsage>,
    pub environment_history: Vec<RawEnvironmentEntry>,
}

/// A model usage entry of the task detail.
pub struct ModelUsageDetail {
    /// ISO 8601 timestamp.
    pub timestamp: Option<String>,
    /// Model ID.
    pub model_id: Option<String>,
    /// Provider ID.
    pub model_provider_id: Option<String>,
    /// Mode: "act" or "plan".
    pub mode: Option<String>,
}

/// An environment snapshot of the task detail.
pub struct EnvironmentDetail {
    pub timestamp: Option<String>,
    pub os_name: Option<String>,
    pub os_version: Option<String>,
    pub host_name: Option<String>,
    pub host_version: Option<String>,
    pub cline_version: Option<String>,
}

/// Whether `text` renders the optional instant `ms`: present exactly when
/// `ms` is, and `<ms>ms` when chrono has no date-time for it.
pub open spec fn renders_instant(ms: Option<u64>, text: Option<String>) -> bool {
    match ms {
        None => text is None,
        Some(m) => text matches Some(t) && (!crate::util::utc_timestamp_exists(
            (m / 1000) as i64,
            ((m % 1000) * 1_000_000) as u32,
        ) ==> t@ == crate::text::decimal(m as nat) + "ms"@),
    }
}

/// An optional instant in ISO 8601 (local time).
fn iso_opt(ms: Option<u64>) -> (r: Option<String>)
    ensures
        renders_instant(ms, r),
{
    match ms {
        Some(m) => Some(epoch_ms_to_iso(m)),
        None => None,
    }
}

/// Whether a file detail renders a raw file entry.
pub open spec fn file_detail_of(d: FileInContextDetail, f: RawFileInContext) -> bool {
    &&& d.path == f.path
    &&& d.record_state == f.record_state
    &&& d.record_source == f.record_source
    &&& renders_instant(f.cline_read_date, d.cline_read_date)
    &&& renders_instant(f.cline_edit_date, d.cline_edit_date)
    &&& renders_instant(f.user_edit_date, d.user_edit_date)
}

/// Whether a model usage detail renders a raw entry.
pub open spec fn usage_detail_of(d: ModelUsageDetail, u: RawModelUsage) -> bool {
    &&& renders_instant(u.ts, d.timestamp)
    &&& d.model_id == u.model_id
    &&& d.model_provider_id == u.model_provider_id
    &&& d.mode == u.mode
}

/// Whether an environment detail renders a raw entry.
pub open spec fn environment_detail_of(d: EnvironmentDetail, e: RawEnvironmentEntry) -> bool {
    &&& renders_instant(e.ts, d.timestamp)
    &&& d.os_name == e.os_name
    &&& d.os_version == e.os_version
    &&& d.host_name == e.host_name
    &&& d.host_version == e.host_version
    &&& d.cline_version == e.cline_version
}

/// The metadata part of a task detail.
pub struct TaskMetadataDetail {
    pub files: Vec<FileInContextDetail>,
    pub files_in_context_count: usize,
    pub files_edited_count: usize,
    pub files_read_count: usize,
    pub model_usage: Vec<ModelUsageDetail>,
    pub environment: Vec<EnvironmentDetail>,
}

/// The files, model usage and environment of `task_metadata.json`, with
/// their instants rendered, and the counts of files edited by Cline and
/// read by its read tool.
pub fn parse_task_metadata_detail(meta: &RawTaskMetadata) -> (r: TaskMetadataDetail)
    ensures
        r.files@.len() == meta.files_in_context@.len(),
        forall|i: int|
            0 <= i < r.files@.len() ==> file_detail_of(
                #[trigger] r.files@[i],
                meta.files_in_context@[i],
            ),
        r.files_in_context_count == meta.files_in_context@.len(),
        r.files_edited_count as nat == crate::history::count_source(r.files@, "cline_edited"@),
        r.files_read_count as nat == crate::history::count_source(r.files@, "read_tool"@),
        r.model_usage@.len() == meta.model_usage@.len(),
        forall|i: int|
            0 <= i < r.model_usage@.len() ==> usage_detail_of(
                #[trigger] r.model_usage@[i],
                meta.model_usage@[i],
            ),
        r.environment@.len() == meta.environment_history@.len(),
        forall|i: int|
            0 <= i < r.environment@.len() ==> environment_detail_of(
                #[trigger] r.environment@[i],
                meta.environment_history@[i],
            ),
{
    let mut files: Vec<FileInContextDetail> = Vec::new();
    let mut i: usize = 0;
    while i < meta.files_in_context.len()
        invariant
            i <= meta.files_in_context@.len(),
            files@.len() == i,
            forall|k: int|
                0 <= k < i ==> file_detail_of(#[trigger] files@[k], meta.files_in_context@[k]),
        decreases meta.files_in_context@.len() - i,
    {
        let f = &meta.files_in_context[i];
        files.push(
            FileInContextDetail {
                path: f.path.clone(),
                record_state: clone_opt_string(&f.record_state),
                record_source: clone_opt_string(&f.record_source),
                cline_read_date: iso_opt(f.cline_read_date),
                cline_edit_date: iso_opt(f.cline_edit_date),
                user_edit_date: iso_opt(f.user_edit_date),
            },
        );
        i = i + 1;
    }
    let edited = crate::text::chars_of("cline_edited");
    let read = crate::text::chars_of("read_tool");
    let files_edited_count = crate::history::count_with_source(&files, &edited);
    let files_read_count = crate::history::count_with_source(&files, &read);
    let mut model_usage: Vec<ModelUsageDetail> = Vec::new();
    let mut j: usize = 0;
    while j < meta.model_usage.len()
        invariant
            j <= meta.model_usage@.len(),
            model_usage@.len() == j,
            forall|k: int|
                0 <= k < j ==> usage_detail_of(#[trigger] model_usage@[k], meta.model_usage@[k]),
        decreases meta.model_usage@.len() - j,
    {
        let u = &meta.model_usage[j];
        model_usage.push(
            ModelUsageDetail {
                timestamp: iso_opt(u.ts),
                model_id: clone_opt_string(&u.model_id),
                model_provider_id: clone_opt_string(&u.model_provider_id),
                mode: clone_opt_string(&u.mode),
            },
        );
        j = j + 1;
    }
    let mut environment: Vec<EnvironmentDetail> = Vec::new();
    let mut k: usize = 0;
    while k < meta.environment_history.len()
        invariant
            k <= meta.environment_history@.len(),
            environment@.len() == k,
            forall|q: int|
                0 <= q < k ==> environment_detail_of(
                    #[trigger] environment@[q],
                    meta.environment_history@[q],
                ),
        decreases meta.environment_history@.len() - k,
    {
        let e = &meta.environment_history[k];
        environment.push(
            EnvironmentDetail {
                timestamp: iso_opt(e.ts),
                os_name: clone_opt_string(&e.os_name),
                os_version: clone_opt_string(&e.os_version),
                host_name: clone_opt_string(&e.host_name),
                host_version: clone_opt_string(&e.host_version),
                cline_version: clone_opt_string(&e.cline_version),
            },
        );
        k = k + 1;
    }
    let files_in_context_count = files.len();
    TaskMetadataDetail {
        files,
        files_in_context_count,
        files_edited_count,
        files_read_count,
        model_usage,
        environment,
    }
}

/// Full detail of a task.
pub struct TaskDetailResponse {
    pub task_id: String,
    pub started_at: String,
    pub ended_at: Option<String>,
    pub message_count: usize,
    pub tool_use_count: usize,
    pub thinking_count: usize,
    pub task_prompt: Option<String>,
    pub messages: Vec<ConversationMessage>,
    pub tool_calls: Vec<ToolCallDetail>,
    /// Tool usage breakdown: (tool name, count).
    pub tool_breakdown: Vec<(String, usize)>,
    pub files: Vec<FileInContextDetail>,
    pub files_in_context_count: usize,
    pub files_edited_count: usize,
    pub files_read_count: usize,
    pub model_usage: Vec<ModelUsageDetail>,
    pub environment: Vec<EnvironmentDetail>,
    pub focus_chain: Option<String>,
    pub has_focus_chain: bool,
    pub api_history_size_bytes: u64,
    pub ui_messages_size_bytes: u64,
    pub task_dir_path: String,
}

/// What the task directory holds besides its conversation and metadata.
pub struct TaskFiles {
    pub task_id: String,
    pub started_at: String,
    pub ended_at: Option<String>,
    /// The focus chain markdown, when its file exists and was read.
    pub focus_chain: Option<String>,
    /// Whether the focus chain file exists.
    pub has_focus_chain: bool,
    pub api_history_size_bytes: u64,
    pub ui_messages_size_bytes: u64,
    pub task_dir_path: String,
}

/// Assemble the detail of a task from the walk of its conversation, its
/// metadata and what its directory holds.
pub fn task_detail_response(t: TaskFiles, api: ApiHistoryDetail, meta: TaskMetadataDetail) -> (r:
    TaskDetailResponse)
    ensures
        r.task_id == t.task_id,
        r.started_at == t.started_at,
        r.ended_at == t.ended_at,
        r.message_count == api.message_count,
        r.tool_use_count == api.tool_use_count,
        r.thinking_count == api.thinking_count,
        r.task_prompt == api.task_prompt,
        r.messages == api.messages,
        r.tool_calls == api.tool_calls,
        r.tool_breakdown == api.tool_breakdown,
        r.files == meta.files,
        r.files_in_context_count == meta.files_in_context_count,
        r.files_edited_count == meta.files_edited_count,
        r.files_read_count == meta.files_read_count,
        r.model_usage == meta.model_usage,
        r.environment == meta.environment,
        r.focus_chain == t.focus_chain,
        r.has_focus_chain == t.has_focus_chain,
        r.api_history_size_bytes == t.api_history_size_bytes,
        r.ui_messages_size_bytes == t.ui_messages_size_bytes,
        r.task_dir_path == t.task_dir_path,
{
    TaskDetailResponse {
        task_id: t.task_id,
        started_at: t.started_at,
        ended_at: t.ended_at,
        message_count: api.message_count,
        tool_use_count: api.tool_use_count,
        thinking_count: api.thinking_count,
        task_prompt: api.task_prompt,
        messages: api.messages,
        tool_calls: api.tool_calls,
        tool_breakdown: api.tool_breakdown,
        files: meta.files,
        files_in_context_count: meta.files_in_context_count,
        files_edited_count: meta.files_edited_count,
        files_read_count: meta.files_read_count,
        model_usage: meta.model_usage,
        environment: meta.environment,
        focus_chain: t.focus_chain,
        has_focus_chain: t.has_focus_chain,
        api_history_size_bytes: t.api_history_size_bytes,
        ui_messages_size_bytes: t.ui_messages_size_bytes,
        task_dir_path: t.task_dir_path,
    }
}

} // verus!
