//! The task list of the history views: a summary of each task directory
//! from its conversation, metadata and UI messages, and the list with its
//! totals and aggregate tool usage, newest task first. Reading the
//! directories and files is left to the caller.

use vstd::prelude::*;
use crate::detail::{
    breakdown_view, detail_fold, events, find_name, parse_api_history_detail, task_prompt_of,
    RawFileInContext, RawTaskMetadata, renders_instant,
};
use crate::history::{TaskHistoryListResponse, TaskHistorySummary};
use crate::messages::{ostr, RawApiMessage};
use crate::subtasks::RawUiMessage;
use crate::task_groups::{most_recent_first, sort_most_recent_first, Recency};
use crate::text::{chars_of, parse_u64, parse_u64_spec, same_text};
use crate::util::epoch_ms_to_iso;

verus! {

/// What the conversation of a task gives its summary.
pub struct ApiHistoryStats {
    pub message_count: usize,
    pub tool_use_count: usize,
    pub thinking_count: usize,
    /// Tool usage: (tool name, count), names in order of first use.
    pub tool_breakdown: Vec<(String, usize)>,
    pub task_prompt: Option<String>,
}

/// The summary statistics of a task's conversation
/// (`api_conversation_history.json`): its messages, tool uses (by tool),
/// thinking blocks and prompt; all zero when the file could not be read or
/// parsed (`None`).
pub fn summarize_api_history(messages: Option<&[RawApiMessage]>) -> (r: ApiHistoryStats)
    requires
        messages matches Some(m) ==> events(m@).len() < usize::MAX,
    ensures
        messages is None ==> r.message_count == 0 && r.tool_use_count == 0 && r.thinking_count == 0
            && r.tool_breakdown@.len() == 0 && r.task_prompt is None,
        messages matches Some(m) ==> {
            &&& r.message_count == m@.len()
            &&& r.tool_use_count == detail_fold(events(m@)).calls.len()
            &&& r.thinking_count == detail_fold(events(m@)).thinking
            &&& breakdown_view(r.tool_breakdown@) == detail_fold(events(m@)).breakdown
            &&& ostr(r.task_prompt) == task_prompt_of(m@)
        },
{
    match messages {
        None => ApiHistoryStats {
            message_count: 0,
            tool_use_count: 0,
            thinking_count: 0,
            tool_breakdown: Vec::new(),
            task_prompt: None,
        },
        Some(m) => {
            let mut stamps: Vec<Option<String>> = Vec::new();
            let mut i: usize = 0;
            while i < m.len()
                invariant
                    i <= m@.len(),
                    stamps@.len() == i,
                decreases m@.len() - i,
            {
                stamps.push(None);
                i = i + 1;
            }
            let d = parse_api_history_detail(m, &stamps);
            ApiHistoryStats {
                message_count: d.message_count,
                tool_use_count: d.tool_use_count,
                thinking_count: d.thinking_count,
                tool_breakdown: d.tool_breakdown,
                task_prompt: d.task_prompt,
            }
        },
    }
}

/// What the metadata of a task gives its summary.
pub struct MetadataStats {
    pub model_id: Option<String>,
    pub model_provider: Option<String>,
    pub cline_version: Option<String>,
    pub files_in_context: usize,
    pub files_edited: usize,
    pub files_read: usize,
}

/// The number of raw files whose record source is `source`.
pub open spec fn raw_source_count(fs: Seq<RawFileInContext>, source: Seq<char>) -> nat
    decreases fs.len(),
{
    if fs.len() == 0 {
        0
    } else {
        raw_source_count(fs.drop_last(), source) + if ostr(fs.last().record_source) == Some(source) {
            1nat
        } else {
            0nat
        }
    }
}

/// How many files have the record source `source`.
fn count_raw_source(fs: &[RawFileInContext], source: &str) -> (r: usize)
    ensures
        r == raw_source_count(fs@, source@),
{
    let mut n: usize = 0;
    let mut i: usize = 0;
    assert(fs@.take(0) =~= Seq::<RawFileInContext>::empty());
    while i < fs.len()
        invariant
            i <= fs@.len(),
            n == raw_source_count(fs@.take(i as int), source@),
            n <= i,
        decreases fs@.len() - i,
    {
        assert(fs@.take(i + 1).drop_last() =~= fs@.take(i as int));
        assert(fs@.take(i + 1).last() == fs@[i as int]);
        let hit = match &fs[i].record_source {
            Some(s) => same_text(s.as_str(), source),
            None => false,
        };
        if hit {
            n = n + 1;
        }
        i = i + 1;
    }
    assert(fs@.take(i as int) =~= fs@);
    n
}

/// The summary statistics of a task's metadata (`task_metadata.json`): the
/// model and provider of its first model usage, the Cline version of its
/// first environment entry, and the files in context, edited by Cline and
/// read by its read tool; nothing when the file could not be read or parsed
/// (`None`).
pub fn summarize_task_metadata(meta: Option<&RawTaskMetadata>) -> (r: MetadataStats)
    ensures
        meta is None ==> r.model_id is None && r.model_provider is None && r.cline_version is None
            && r.files_in_context == 0 && r.files_edited == 0 && r.files_read == 0,
        meta matches Some(m) ==> {
            &&& r.model_id == (if m.model_usage@.len() > 0 {
                m.model_usage@[0].model_id
            } else {
                None
            })
            &&& r.model_provider == (if m.model_usage@.len() > 0 {
                m.model_usage@[0].model_provider_id
            } else {
                None
            })
            &&& r.cline_version == (if m.environment_history@.len() > 0 {
                m.environment_history@[0].cline_version
            } else {
                None
            })
            &&& r.files_in_context == m.files_in_context@.len()
            &&& r.files_edited == raw_source_count(m.files_in_context@, "cline_edited"@)
            &&& r.files_read == raw_source_count(m.files_in_context@, "read_tool"@)
        },
{
    match meta {
        None => MetadataStats {
            model_id: None,
            model_provider: None,
            cline_version: None,
            files_in_context: 0,
            files_edited: 0,
            files_read: 0,
        },
        Some(m) => {
            let (model_id, model_provider) = if m.model_usage.len() > 0 {
                (m.model_usage[0].model_id.clone(), m.model_usage[0].model_provider_id.clone())
            } else {
                (None, None)
            };
            let cline_version = if m.environment_history.len() > 0 {
                m.environment_history[0].cline_version.clone()
            } else {
                None
            };
            proof {
                reveal_strlit("cline_edited");
                reveal_strlit("read_tool");
            }
            MetadataStats {
                model_id,
                model_provider,
                cline_version,
                files_in_context: m.files_in_context.len(),
                files_edited: count_raw_source(&m.files_in_context, "cline_edited"),
                files_read: count_raw_source(&m.files_in_context, "read_tool"),
            }
        },
    }
}

/// The end time of a task: the instant of its last UI message (none when
/// `ui_messages.json` could not be read or parsed, or is empty).
pub fn ui_end_time(ui: Option<&[RawUiMessage]>) -> (r: Option<String>)
    ensures
        match ui {
            Some(m) => if m@.len() > 0 {
                renders_instant(Some(m@.last().ts), r)
            } else {
                r is None
            },
            None => r is None,
        },
{
    match ui {
        Some(m) => {
            if m.len() > 0 {
                Some(epoch_ms_to_iso(m[m.len() - 1].ts))
            } else {
                None
            }
        },
        None => None,
    }
}

/// The start time of a task from its id (epoch milliseconds): the instant
/// rendered, or "unknown" for an id that is no number.
pub fn started_at_of(task_id: &str) -> (r: String)
    ensures
        match parse_u64_spec(task_id@) {
            Some(ms) => renders_instant(Some(ms as u64), Some(r)),
            None => r@ == "unknown"@,
        },
{
    let c = chars_of(task_id);
    match parse_u64(&c) {
        Some(ms) => epoch_ms_to_iso(ms),
        None => String::from_str("unknown"),
    }
}

/// The summary of a task directory from what its files gave.
pub fn task_summary(
    task_id: &str,
    api_size: u64,
    ui_size: u64,
    has_focus_chain: bool,
    api: ApiHistoryStats,
    meta: MetadataStats,
    ended_at: Option<String>,
) -> (r: TaskHistorySummary)
    ensures
        r.task_id@ == task_id@,
        match parse_u64_spec(task_id@) {
            Some(ms) => renders_instant(Some(ms as u64), Some(r.started_at)),
            None => r.started_at@ == "unknown"@,
        },
        r.ended_at == ended_at,
        r.message_count == api.message_count,
        r.tool_use_count == api.tool_use_count,
        r.thinking_count == api.thinking_count,
        r.tool_breakdown == api.tool_breakdown,
        r.task_prompt == api.task_prompt,
        r.model_id == meta.model_id,
        r.model_provider == meta.model_provider,
        r.cline_version == meta.cline_version,
        r.files_in_context == meta.files_in_context,
        r.files_edited == meta.files_edited,
        r.files_read == meta.files_read,
        r.api_history_size_bytes == api_size,
        r.ui_messages_size_bytes == ui_size,
        r.has_focus_chain == has_focus_chain,
{
    TaskHistorySummary {
        task_id: String::from_str(task_id),
        started_at: started_at_of(task_id),
        ended_at,
        message_count: api.message_count,
        tool_use_count: api.tool_use_count,
        thinking_count: api.thinking_count,
        tool_breakdown: api.tool_breakdown,
        model_id: meta.model_id,
        model_provider: meta.model_provider,
        files_in_context: meta.files_in_context,
        files_edited: meta.files_edited,
        files_read: meta.files_read,
        cline_version: meta.cline_version,
        api_history_size_bytes: api_size,
        ui_messages_size_bytes: ui_size,
        has_focus_chain,
        task_prompt: api.task_prompt,
    }
}

/// The name of the focus chain file of a task.
pub fn focus_chain_file(task_id: &str) -> (r: String)
    ensures
        r@ == "focus_chain_taskid_"@ + task_id@ + ".md"@,
{
    String::from_str("focus_chain_taskid_").concat(task_id).concat(".md")
}

// ---------------------------------------------------------------------------
// The task list
// ---------------------------------------------------------------------------

impl Recency for TaskHistorySummary {
    open spec fn recency(&self) -> Seq<char> {
        self.started_at@
    }

    fn recency_text(&self) -> (r: &str) {
        self.started_at.as_str()
    }
}

/// The breakdown with `n` more uses of `name` (a new name goes last).
pub open spec fn add_count(b: Seq<(Seq<char>, nat)>, name: Seq<char>, n: nat) -> Seq<(Seq<char>, nat)> {
    match crate::detail::name_position(b, name) {
        Some(i) => b.update(i, (name, b[i].1 + n)),
        None => b.push((name, n)),
    }
}

/// `acc` with every entry of `b` added, in order.
pub open spec fn merge_breakdown(acc: Seq<(Seq<char>, nat)>, b: Seq<(Seq<char>, nat)>) -> Seq<
    (Seq<char>, nat),
>
    decreases b.len(),
{
    if b.len() == 0 {
        acc
    } else {
        add_count(merge_breakdown(acc, b.drop_last()), b.last().0, b.last().1)
    }
}

/// The tool usage of all the tasks together, names in order of first use.
pub open spec fn aggregate_breakdown(ts: Seq<TaskHistorySummary>) -> Seq<(Seq<char>, nat)>
    decreases ts.len(),
{
    if ts.len() == 0 {
        Seq::empty()
    } else {
        merge_breakdown(aggregate_breakdown(ts.drop_last()), breakdown_view(ts.last().tool_breakdown@))
    }
}

/// The sum of the API history sizes.
pub open spec fn total_api_bytes(ts: Seq<TaskHistorySummary>) -> nat
    decreases ts.len(),
{
    if ts.len() == 0 {
        0
    } else {
        total_api_bytes(ts.drop_last()) + ts.last().api_history_size_bytes as nat
    }
}

/// The sum of the message counts.
pub open spec fn total_messages(ts: Seq<TaskHistorySummary>) -> nat
    decreases ts.len(),
{
    if ts.len() == 0 {
        0
    } else {
        total_messages(ts.drop_last()) + ts.last().message_count as nat
    }
}

/// The sum of the tool use counts.
pub open spec fn total_tool_uses(ts: Seq<TaskHistorySummary>) -> nat
    decreases ts.len(),
{
    if ts.len() == 0 {
        0
    } else {
        total_tool_uses(ts.drop_last()) + ts.last().tool_use_count as nat
    }
}

/// `a` is an earlier state of `b`: the same names at its positions, with
/// counts no greater.
pub open spec fn dominated(a: Seq<(Seq<char>, nat)>, b: Seq<(Seq<char>, nat)>) -> bool {
    &&& a.len() <= b.len()
    &&& forall|k: int| 0 <= k < a.len() ==> (#[trigger] a[k]).0 == b[k].0 && a[k].1 <= b[k].1
}

proof fn lemma_add_count_dominates(b: Seq<(Seq<char>, nat)>, name: Seq<char>, n: nat)
    ensures
        dominated(b, add_count(b, name, n)),
{
    crate::detail::lemma_name_position_bound(b, name);
}

proof fn lemma_merge_dominates(acc: Seq<(Seq<char>, nat)>, b: Seq<(Seq<char>, nat)>, j: int)
    requires
        0 <= j <= b.len(),
    ensures
        dominated(merge_breakdown(acc, b.take(j)), merge_breakdown(acc, b)),
    decreases b.len() - j,
{
    if j == b.len() {
        assert(b.take(j) =~= b);
    } else {
        lemma_merge_dominates(acc, b, j + 1);
        let t = b.take(j + 1);
        assert(t.drop_last() =~= b.take(j));
        lemma_add_count_dominates(merge_breakdown(acc, b.take(j)), t.last().0, t.last().1);
    }
}

proof fn lemma_merge_from_dominated(a: Seq<(Seq<char>, nat)>, c: Seq<(Seq<char>, nat)>)
    ensures
        dominated(a, merge_breakdown(a, c)),
    decreases c.len(),
{
    if c.len() == 0 {
    } else {
        lemma_merge_from_dominated(a, c.drop_last());
        lemma_add_count_dominates(merge_breakdown(a, c.drop_last()), c.last().0, c.last().1);
    }
}

proof fn lemma_aggregate_dominates(ts: Seq<TaskHistorySummary>, i: int)
    requires
        0 <= i <= ts.len(),
    ensures
        dominated(aggregate_breakdown(ts.take(i)), aggregate_breakdown(ts)),
    decreases ts.len() - i,
{
    if i == ts.len() {
        assert(ts.take(i) =~= ts);
    } else {
        lemma_aggregate_dominates(ts, i + 1);
        let t = ts.take(i + 1);
        assert(t.drop_last() =~= ts.take(i));
        lemma_merge_from_dominated(
            aggregate_breakdown(ts.take(i)),
            breakdown_view(t.last().tool_breakdown@),
        );
    }
}

/// The list can be totalled: the sums and every aggregate count fit.
pub open spec fn list_fits(ts: Seq<TaskHistorySummary>) -> bool {
    &&& total_api_bytes(ts) <= u64::MAX
    &&& total_messages(ts) <= usize::MAX
    &&& total_tool_uses(ts) <= usize::MAX
    &&& forall|k: int|
        0 <= k < aggregate_breakdown(ts).len() ==> (#[trigger] aggregate_breakdown(ts)[k]).1
            <= usize::MAX
}

proof fn lemma_sum_prefixes(ts: Seq<TaskHistorySummary>, i: int)
    requires
        0 <= i <= ts.len(),
    ensures
        total_api_bytes(ts.take(i)) <= total_api_bytes(ts),
        total_messages(ts.take(i)) <= total_messages(ts),
        total_tool_uses(ts.take(i)) <= total_tool_uses(ts),
    decreases ts.len() - i,
{
    if i == ts.len() {
        assert(ts.take(i) =~= ts);
    } else {
        lemma_sum_prefixes(ts, i + 1);
        assert(ts.take(i + 1).drop_last() =~= ts.take(i));
    }
}

/// The task list of the history views: the summaries, newest first (by
/// start time), with their number, the totals of API history bytes,
/// messages and tool calls, and the tool usage of all tasks together.
pub fn task_list_response(tasks_root: String, tasks: Vec<TaskHistorySummary>) -> (r: TaskHistoryListResponse)
    requires
        list_fits(tasks@),
    ensures
        most_recent_first(r.tasks@),
        r.tasks@.to_multiset() == tasks@.to_multiset(),
        r.total_tasks == tasks@.len(),
        r.total_api_history_bytes == total_api_bytes(tasks@),
        r.total_messages == total_messages(tasks@),
        r.total_tool_calls == total_tool_uses(tasks@),
        breakdown_view(r.aggregate_tool_breakdown@) == aggregate_breakdown(tasks@),
        r.tasks_root == tasks_root,
{
    let ghost ts = tasks@;
    let mut bytes: u64 = 0;
    let mut messages: usize = 0;
    let mut uses: usize = 0;
    let mut agg: Vec<(String, usize)> = Vec::new();
    let mut i: usize = 0;
    assert(ts.take(0) =~= Seq::<TaskHistorySummary>::empty());
    while i < tasks.len()
        invariant
            i <= ts.len(),
            ts == tasks@,
            list_fits(ts),
            bytes == total_api_bytes(ts.take(i as int)),
            messages == total_messages(ts.take(i as int)),
            uses == total_tool_uses(ts.take(i as int)),
            breakdown_view(agg@) == aggregate_breakdown(ts.take(i as int)),
        decreases ts.len() - i,
    {
        let ghost pre = ts.take(i + 1);
        proof {
            assert(pre.drop_last() =~= ts.take(i as int));
            assert(pre.last() == ts[i as int]);
            lemma_sum_prefixes(ts, i + 1);
            lemma_aggregate_dominates(ts, i + 1);
        }
        let t = &tasks[i];
        bytes = bytes + t.api_history_size_bytes;
        messages = messages + t.message_count;
        uses = uses + t.tool_use_count;
        let ghost base = aggregate_breakdown(ts.take(i as int));
        let ghost bv = breakdown_view(t.tool_breakdown@);
        let mut j: usize = 0;
        assert(bv.take(0) =~= Seq::<(Seq<char>, nat)>::empty());
        while j < t.tool_breakdown.len()
            invariant
                j <= t.tool_breakdown@.len(),
                bv == breakdown_view(t.tool_breakdown@),
                bv.len() == t.tool_breakdown@.len(),
                breakdown_view(agg@) == merge_breakdown(base, bv.take(j as int)),
                dominated(merge_breakdown(base, bv), aggregate_breakdown(ts)),
                merge_breakdown(base, bv) == aggregate_breakdown(pre),
                list_fits(ts),
            decreases t.tool_breakdown@.len() - j,
        {
            let ghost cur = breakdown_view(agg@);
            let ghost nxt = bv.take(j + 1);
            proof {
                assert(nxt.drop_last() =~= bv.take(j as int));
                assert(nxt.last() == bv[j as int]);
                lemma_merge_dominates(base, bv, j + 1);
            }
            let name = &t.tool_breakdown[j].0;
            let n = t.tool_breakdown[j].1;
            match find_name(&agg, name.as_str()) {
                Some(q) => {
                    proof {
                        let after = add_count(cur, name@, n as nat);
                        assert(after[q as int].1 == cur[q as int].1 + n);
                        assert(aggregate_breakdown(ts)[q as int].1 <= usize::MAX);
                    }
                    let c = agg[q].1;
                    agg.set(q, (name.clone(), c + n));
                    assert(breakdown_view(agg@) =~= cur.update(q as int, (name@, cur[q as int].1 + n as nat)));
                },
                None => {
                    agg.push((name.clone(), n));
                    assert(breakdown_view(agg@) =~= cur.push((name@, n as nat)));
                },
            }
            j = j + 1;
        }
        assert(bv.take(bv.len() as int) =~= bv);
        i = i + 1;
    }
    assert(ts.take(i as int) =~= ts);
    let total_tasks = tasks.len();
    let sorted = sort_most_recent_first(tasks);
    TaskHistoryListResponse {
        tasks: sorted,
        total_tasks,
        total_api_history_bytes: bytes,
        tasks_root,
        aggregate_tool_breakdown: agg,
        total_tool_calls: uses,
        total_messages: messages,
    }
}

} // verus!
