//! Aggregate statistics over the task list: totals, size extremes, usage
//! by model, provider and Cline version, file counts and the time range.
//! They do not depend on the order of the tasks. The averages and
//! percentages are floating point and computed by the caller from these.

use vstd::prelude::*;
use crate::detail::{add_use, breakdown_view, lemma_name_position_bound, name_position};
use crate::history::{TaskHistoryListResponse, TaskHistorySummary};
use crate::text::lex_lt;

verus! {

/// The integer statistics of the task list.
pub struct HistoryStatsCounts {
    pub total_tasks: usize,
    pub total_messages: usize,
    pub total_tool_calls: usize,
    pub total_thinking_blocks: usize,
    pub total_api_history_bytes: u64,
    pub total_ui_messages_bytes: u64,
    /// Smallest api_conversation_history.json size (0 without tasks).
    pub min_task_size_bytes: u64,
    /// Largest api_conversation_history.json size (0 without tasks).
    pub max_task_size_bytes: u64,
    /// Tool usage across all tasks.
    pub tool_breakdown: Vec<(String, usize)>,
    /// Tasks per model id, per provider, per Cline version (tasks without
    /// one are not counted), names in order of first appearance.
    pub model_usage: Vec<(String, usize)>,
    pub model_provider_usage: Vec<(String, usize)>,
    pub cline_version_usage: Vec<(String, usize)>,
    pub total_files_in_context: usize,
    pub total_files_edited: usize,
    pub total_files_read: usize,
    pub tasks_with_focus_chain: usize,
    /// Earliest and latest start time (least and greatest text).
    pub earliest_task: Option<String>,
    pub latest_task: Option<String>,
    pub tasks_root: String,
}

/// A per-task count that the statistics add up.
pub enum TaskCount {
    Thinking,
    UiBytes,
    FilesInContext,
    FilesEdited,
    FilesRead,
    FocusChain,
}

/// The count of one task: its thinking blocks, UI messages size, files in
/// context, files edited, files read, or one for a task with a focus chain.
pub open spec fn count_of(t: TaskHistorySummary, c: TaskCount) -> nat {
    match c {
        TaskCount::Thinking => t.thinking_count as nat,
        TaskCount::UiBytes => t.ui_messages_size_bytes as nat,
        TaskCount::FilesInContext => t.files_in_context as nat,
        TaskCount::FilesEdited => t.files_edited as nat,
        TaskCount::FilesRead => t.files_read as nat,
        TaskCount::FocusChain => if t.has_focus_chain {
            1
        } else {
            0
        },
    }
}

/// Sum of a per-task count over the tasks.
pub open spec fn sum_of(ts: Seq<TaskHistorySummary>, c: TaskCount) -> nat
    decreases ts.len(),
{
    if ts.len() == 0 {
        0
    } else {
        sum_of(ts.drop_last(), c) + count_of(ts.last(), c)
    }
}

/// The usage counts of the present names, in order of first appearance.
pub open spec fn usage_of(names: Seq<Option<String>>) -> Seq<(Seq<char>, nat)>
    decreases names.len(),
{
    if names.len() == 0 {
        Seq::empty()
    } else {
        let rest = usage_of(names.drop_last());
        match names.last() {
            Some(n) => add_use(rest, n@),
            None => rest,
        }
    }
}

/// The model ids of the tasks.
pub open spec fn model_ids(ts: Seq<TaskHistorySummary>) -> Seq<Option<String>> {
    ts.map_values(|t: TaskHistorySummary| t.model_id)
}

/// The model providers of the tasks.
pub open spec fn providers(ts: Seq<TaskHistorySummary>) -> Seq<Option<String>> {
    ts.map_values(|t: TaskHistorySummary| t.model_provider)
}

/// The Cline versions of the tasks.
pub open spec fn versions(ts: Seq<TaskHistorySummary>) -> Seq<Option<String>> {
    ts.map_values(|t: TaskHistorySummary| t.cline_version)
}

/// `x` is the least of the values and one of them.
pub open spec fn is_min_of(x: u64, vs: Seq<u64>) -> bool {
    (exists|i: int| 0 <= i < vs.len() && vs[i] == x) && forall|i: int| 0 <= i < vs.len() ==> x <= vs[i]
}

/// `x` is the greatest of the values and one of them.
pub open spec fn is_max_of(x: u64, vs: Seq<u64>) -> bool {
    (exists|i: int| 0 <= i < vs.len() && vs[i] == x) && forall|i: int| 0 <= i < vs.len() ==> vs[i] <= x
}

/// The API history sizes of the tasks.
pub open spec fn sizes(ts: Seq<TaskHistorySummary>) -> Seq<u64> {
    ts.map_values(|t: TaskHistorySummary| t.api_history_size_bytes)
}

/// The start times of the tasks.
pub open spec fn starts(ts: Seq<TaskHistorySummary>) -> Seq<Seq<char>> {
    ts.map_values(|t: TaskHistorySummary| t.started_at@)
}

/// `x` is one of the texts and no text is less.
pub open spec fn is_least_text(x: Seq<char>, vs: Seq<Seq<char>>) -> bool {
    (exists|i: int| 0 <= i < vs.len() && vs[i] == x) && forall|i: int|
        0 <= i < vs.len() ==> !lex_lt(#[trigger] vs[i], x)
}

/// `x` is one of the texts and no text is greater.
pub open spec fn is_greatest_text(x: Seq<char>, vs: Seq<Seq<char>>) -> bool {
    (exists|i: int| 0 <= i < vs.len() && vs[i] == x) && forall|i: int|
        0 <= i < vs.len() ==> !lex_lt(x, #[trigger] vs[i])
}

/// Count the present names, in order of first appearance.
fn usage_counts(names: &Vec<Option<String>>) -> (r: Vec<(String, usize)>)
    requires
        names@.len() <= usize::MAX,
    ensures
        breakdown_view(r@) == usage_of(names@),
{
    let mut r: Vec<(String, usize)> = Vec::new();
    let mut i: usize = 0;
    assert(names@.take(0) =~= Seq::<Option<String>>::empty());
    while i < names.len()
        invariant
            i <= names@.len(),
            breakdown_view(r@) == usage_of(names@.take(i as int)),
            forall|k: int| 0 <= k < r@.len() ==> #[trigger] r@[k].1 <= i,
        decreases names@.len() - i,
    {
        let ghost pre = names@.take(i + 1);
        assert(pre.drop_last() =~= names@.take(i as int));
        assert(pre.last() == names@[i as int]);
        match &names[i] {
            Some(n) => {
                let ghost bb = breakdown_view(r@);
                match crate::detail::find_name(&r, n.as_str()) {
                    Some(q) => {
                        let c = r[q].1;
                        r.set(q, (n.clone(), c + 1));
                        assert(breakdown_view(r@) =~= bb.update(q as int, (n@, bb[q as int].1 + 1)));
                    },
                    None => {
                        r.push((n.clone(), 1));
                        assert(breakdown_view(r@) =~= bb.push((n@, 1nat)));
                    },
                }
            },
            None => {},
        }
        i = i + 1;
    }
    assert(names@.take(i as int) =~= names@);
    r
}

/// Whether `r` holds the statistics of the task list.
pub open spec fn stats_for(r: HistoryStatsCounts, list: TaskHistoryListResponse) -> bool {
    &&& r.total_tasks == list.total_tasks
    &&& r.total_messages == list.total_messages
    &&& r.total_tool_calls == list.total_tool_calls
    &&& r.total_api_history_bytes == list.total_api_history_bytes
    &&& r.total_thinking_blocks == sum_of(list.tasks@, TaskCount::Thinking)
    &&& r.total_ui_messages_bytes == sum_of(list.tasks@, TaskCount::UiBytes)
    &&& r.total_files_in_context == sum_of(list.tasks@, TaskCount::FilesInContext)
    &&& r.total_files_edited == sum_of(list.tasks@, TaskCount::FilesEdited)
    &&& r.total_files_read == sum_of(list.tasks@, TaskCount::FilesRead)
    &&& r.tasks_with_focus_chain == sum_of(list.tasks@, TaskCount::FocusChain)
    &&& list.tasks@.len() == 0 ==> r.min_task_size_bytes == 0 && r.max_task_size_bytes == 0
        && r.earliest_task is None && r.latest_task is None
    &&& list.tasks@.len() > 0 ==> is_min_of(r.min_task_size_bytes, sizes(list.tasks@)) && is_max_of(
        r.max_task_size_bytes,
        sizes(list.tasks@),
    ) && (r.earliest_task matches Some(e) && is_least_text(e@, starts(list.tasks@))) && (
    r.latest_task matches Some(l) && is_greatest_text(l@, starts(list.tasks@)))
    &&& r.tool_breakdown@ == list.aggregate_tool_breakdown@
    &&& breakdown_view(r.model_usage@) == usage_of(model_ids(list.tasks@))
    &&& breakdown_view(r.model_provider_usage@) == usage_of(providers(list.tasks@))
    &&& breakdown_view(r.cline_version_usage@) == usage_of(versions(list.tasks@))
    &&& r.tasks_root == list.tasks_root
}

/// The statistics of the task list; the totals of messages, tool calls and
/// API history bytes are the list's own.
pub fn compute_stats(list: &TaskHistoryListResponse) -> (r: HistoryStatsCounts)
    requires
        sum_of(list.tasks@, TaskCount::Thinking) <= usize::MAX,
        sum_of(list.tasks@, TaskCount::UiBytes) <= u64::MAX,
        sum_of(list.tasks@, TaskCount::FilesInContext) <= usize::MAX,
        sum_of(list.tasks@, TaskCount::FilesEdited) <= usize::MAX,
        sum_of(list.tasks@, TaskCount::FilesRead) <= usize::MAX,
    ensures
        stats_for(r, *list),
        r.total_tasks == list.total_tasks,
        r.total_messages == list.total_messages,
        r.total_tool_calls == list.total_tool_calls,
        r.total_api_history_bytes == list.total_api_history_bytes,
        r.total_thinking_blocks == sum_of(list.tasks@, TaskCount::Thinking),
        r.total_ui_messages_bytes == sum_of(list.tasks@, TaskCount::UiBytes),
        r.total_files_in_context == sum_of(list.tasks@, TaskCount::FilesInContext),
        r.total_files_edited == sum_of(list.tasks@, TaskCount::FilesEdited),
        r.total_files_read == sum_of(list.tasks@, TaskCount::FilesRead),
        r.tasks_with_focus_chain == sum_of(list.tasks@, TaskCount::FocusChain),
        list.tasks@.len() == 0 ==> r.min_task_size_bytes == 0 && r.max_task_size_bytes == 0
            && r.earliest_task is None && r.latest_task is None,
        list.tasks@.len() > 0 ==> is_min_of(r.min_task_size_bytes, sizes(list.tasks@)) && is_max_of(
            r.max_task_size_bytes,
            sizes(list.tasks@),
        ) && (r.earliest_task matches Some(e) && is_least_text(e@, starts(list.tasks@))) && (
        r.latest_task matches Some(l) && is_greatest_text(l@, starts(list.tasks@))),
        r.tool_breakdown@ == list.aggregate_tool_breakdown@,
        breakdown_view(r.model_usage@) == usage_of(model_ids(list.tasks@)),
        breakdown_view(r.model_provider_usage@) == usage_of(providers(list.tasks@)),
        breakdown_view(r.cline_version_usage@) == usage_of(versions(list.tasks@)),
        r.tasks_root == list.tasks_root,
{
    let tasks = &list.tasks;
    let ghost ts = tasks@;
    let mut thinking: usize = 0;
    let mut ui: u64 = 0;
    let mut files: usize = 0;
    let mut edited: usize = 0;
    let mut read: usize = 0;
    let mut focus: usize = 0;
    let mut min_size: u64 = 0;
    let mut max_size: u64 = 0;
    let mut earliest: Option<String> = None;
    let mut latest: Option<String> = None;
    let mut model_ids_v: Vec<Option<String>> = Vec::new();
    let mut providers_v: Vec<Option<String>> = Vec::new();
    let mut versions_v: Vec<Option<String>> = Vec::new();
    let mut i: usize = 0;
    assert(ts.take(0) =~= Seq::<TaskHistorySummary>::empty());
    while i < tasks.len()
        invariant
            i <= ts.len() == tasks@.len(),
            ts == list.tasks@,
            tasks@ == ts,
            sum_of(ts, TaskCount::Thinking) <= usize::MAX,
            sum_of(ts, TaskCount::UiBytes) <= u64::MAX,
            sum_of(ts, TaskCount::FilesInContext) <= usize::MAX,
            sum_of(ts, TaskCount::FilesEdited) <= usize::MAX,
            sum_of(ts, TaskCount::FilesRead) <= usize::MAX,
            thinking == sum_of(ts.take(i as int), TaskCount::Thinking),
            ui == sum_of(ts.take(i as int), TaskCount::UiBytes),
            files == sum_of(ts.take(i as int), TaskCount::FilesInContext),
            edited == sum_of(ts.take(i as int), TaskCount::FilesEdited),
            read == sum_of(ts.take(i as int), TaskCount::FilesRead),
            focus == sum_of(ts.take(i as int), TaskCount::FocusChain),
            focus <= i,
            i == 0 ==> earliest is None && latest is None && min_size == 0 && max_size == 0,
            i > 0 ==> is_min_of(min_size, sizes(ts.take(i as int))) && is_max_of(
                max_size,
                sizes(ts.take(i as int)),
            ) && (earliest matches Some(e) && is_least_text(e@, starts(ts.take(i as int)))) && (
            latest matches Some(l) && is_greatest_text(l@, starts(ts.take(i as int)))),
            model_ids_v@ == model_ids(ts.take(i as int)),
            providers_v@ == providers(ts.take(i as int)),
            versions_v@ == versions(ts.take(i as int)),
        decreases ts.len() - i,
    {
        let t = &tasks[i];
        let ghost pre = ts.take(i + 1);
        proof {
            assert(pre.drop_last() =~= ts.take(i as int));
            assert(pre.last() == ts[i as int]);
            lemma_sum_prefix(ts, TaskCount::Thinking, i as int + 1);
            lemma_sum_prefix(ts, TaskCount::UiBytes, i as int + 1);
            lemma_sum_prefix(ts, TaskCount::FilesInContext, i as int + 1);
            lemma_sum_prefix(ts, TaskCount::FilesEdited, i as int + 1);
            lemma_sum_prefix(ts, TaskCount::FilesRead, i as int + 1);
        }
        proof {
            assert(sum_of(pre, TaskCount::Thinking) == thinking + t.thinking_count);
            assert(sum_of(pre, TaskCount::UiBytes) == ui + t.ui_messages_size_bytes);
            assert(sum_of(pre, TaskCount::FilesInContext) == files + t.files_in_context);
            assert(sum_of(pre, TaskCount::FilesEdited) == edited + t.files_edited);
            assert(sum_of(pre, TaskCount::FilesRead) == read + t.files_read);
        }
        thinking = thinking + t.thinking_count;
        ui = ui + t.ui_messages_size_bytes;
        files = files + t.files_in_context;
        edited = edited + t.files_edited;
        read = read + t.files_read;
        if t.has_focus_chain {
            focus = focus + 1;
        }
        let s = t.api_history_size_bytes;
        let sc = crate::text::chars_of(t.started_at.as_str());
        proof {
            assert(sizes(pre) =~= sizes(ts.take(i as int)).push(s));
            assert(starts(pre) =~= starts(ts.take(i as int)).push(t.started_at@));
        }
        if i == 0 {
            min_size = s;
            max_size = s;
            earliest = Some(t.started_at.clone());
            latest = Some(t.started_at.clone());
            proof {
                crate::text::lemma_lex_irreflexive(t.started_at@);
                assert(sizes(pre)[0] == s);
                assert(starts(pre)[0] == t.started_at@);
            }
        } else {
            let ghost old_min = min_size;
            let ghost old_max = max_size;
            if s < min_size {
                min_size = s;
            }
            if s > max_size {
                max_size = s;
            }
            proof {
                let sz = sizes(pre);
                assert(sz[i as int] == s);
                if min_size == old_min {
                    let k = choose|k: int| 0 <= k < sizes(ts.take(i as int)).len() && sizes(ts.take(i as int))[k] == old_min;
                    assert(sz[k] == old_min);
                }
                if max_size == old_max {
                    let k = choose|k: int| 0 <= k < sizes(ts.take(i as int)).len() && sizes(ts.take(i as int))[k] == old_max;
                    assert(sz[k] == old_max);
                }
                assert forall|q: int| 0 <= q < sz.len() implies min_size <= sz[q] && sz[q] <= max_size by {
                    if q < i {
                        assert(sz[q] == sizes(ts.take(i as int))[q]);
                    }
                }
            }
            let e = earliest.unwrap();
            let ec = crate::text::chars_of(e.as_str());
            let ghost old_e = e@;
            if crate::text::chars_lt(&sc, &ec) {
                earliest = Some(t.started_at.clone());
            } else {
                earliest = Some(e);
            }
            let l = latest.unwrap();
            let lc = crate::text::chars_of(l.as_str());
            let ghost old_l = l@;
            if crate::text::chars_lt(&lc, &sc) {
                latest = Some(t.started_at.clone());
            } else {
                latest = Some(l);
            }
            proof {
                let st = starts(pre);
                let prev = starts(ts.take(i as int));
                assert(st[i as int] == t.started_at@);
                assert forall|q: int| 0 <= q < i implies #[trigger] st[q] == prev[q] by {}
                let ne = earliest->0@;
                let nl = latest->0@;
                if ne == old_e {
                    let k = choose|k: int| 0 <= k < prev.len() && prev[k] == old_e;
                    assert(st[k] == old_e);
                    crate::text::lemma_lex_total(t.started_at@, old_e);
                } else {
                    assert(st[i as int] == ne);
                }
                if nl == old_l {
                    let k = choose|k: int| 0 <= k < prev.len() && prev[k] == old_l;
                    assert(st[k] == old_l);
                    crate::text::lemma_lex_total(t.started_at@, old_l);
                } else {
                    assert(st[i as int] == nl);
                }
                assert forall|q: int| 0 <= q < st.len() implies !lex_lt(#[trigger] st[q], ne) by {
                    crate::text::lemma_lex_irreflexive(ne);
                    if q < i {
                        assert(!lex_lt(prev[q], old_e));
                        if ne != old_e {
                            if lex_lt(st[q], ne) {
                                crate::text::lemma_lex_transitive(st[q], ne, old_e);
                            }
                        }
                    } else {
                        if ne == old_e {
                            crate::text::lemma_lex_total(st[q], old_e);
                        }
                    }
                }
                assert forall|q: int| 0 <= q < st.len() implies !lex_lt(nl, #[trigger] st[q]) by {
                    crate::text::lemma_lex_irreflexive(nl);
                    if q < i {
                        assert(!lex_lt(old_l, prev[q]));
                        if nl != old_l {
                            if lex_lt(nl, st[q]) {
                                crate::text::lemma_lex_transitive(old_l, nl, st[q]);
                            }
                        }
                    } else {
                        if nl == old_l {
                            crate::text::lemma_lex_total(st[q], old_l);
                        }
                    }
                }
            }
        }
        model_ids_v.push(crate::text::clone_opt_string(&t.model_id));
        providers_v.push(crate::text::clone_opt_string(&t.model_provider));
        versions_v.push(crate::text::clone_opt_string(&t.cline_version));
        proof {
            assert(model_ids(pre) =~= model_ids(ts.take(i as int)).push(t.model_id));
            assert(providers(pre) =~= providers(ts.take(i as int)).push(t.model_provider));
            assert(versions(pre) =~= versions(ts.take(i as int)).push(t.cline_version));
        }
        i = i + 1;
    }
    assert(ts.take(i as int) =~= ts);
    let model_usage = usage_counts(&model_ids_v);
    let model_provider_usage = usage_counts(&providers_v);
    let cline_version_usage = usage_counts(&versions_v);
    let mut tool_breakdown: Vec<(String, usize)> = Vec::new();
    let mut k: usize = 0;
    while k < list.aggregate_tool_breakdown.len()
        invariant
            k <= list.aggregate_tool_breakdown@.len(),
            tool_breakdown@ == list.aggregate_tool_breakdown@.take(k as int),
        decreases list.aggregate_tool_breakdown@.len() - k,
    {
        let e = &list.aggregate_tool_breakdown[k];
        tool_breakdown.push((e.0.clone(), e.1));
        k = k + 1;
        assert(tool_breakdown@ =~= list.aggregate_tool_breakdown@.take(k as int));
    }
    assert(list.aggregate_tool_breakdown@.take(k as int) =~= list.aggregate_tool_breakdown@);
    HistoryStatsCounts {
        total_tasks: list.total_tasks,
        total_messages: list.total_messages,
        total_tool_calls: list.total_tool_calls,
        total_thinking_blocks: thinking,
        total_api_history_bytes: list.total_api_history_bytes,
        total_ui_messages_bytes: ui,
        min_task_size_bytes: min_size,
        max_task_size_bytes: max_size,
        tool_breakdown,
        model_usage,
        model_provider_usage,
        cline_version_usage,
        total_files_in_context: files,
        total_files_edited: edited,
        total_files_read: read,
        tasks_with_focus_chain: focus,
        earliest_task: earliest,
        latest_task: latest,
        tasks_root: list.tasks_root.clone(),
    }
}

proof fn lemma_sum_prefix(ts: Seq<TaskHistorySummary>, c: TaskCount, n: int)
    requires
        0 <= n <= ts.len(),
    ensures
        sum_of(ts.take(n), c) <= sum_of(ts, c),
    decreases ts.len() - n,
{
    if n < ts.len() {
        lemma_sum_prefix(ts, c, n + 1);
        assert(ts.take(n + 1).drop_last() =~= ts.take(n));
    } else {
        assert(ts.take(n) =~= ts);
    }
}

/// Removing one task takes its count off the sum.
proof fn lemma_sum_remove(ts: Seq<TaskHistorySummary>, j: int, c: TaskCount)
    requires
        0 <= j < ts.len(),
    ensures
        sum_of(ts, c) == sum_of(ts.remove(j), c) + count_of(ts[j], c),
    decreases ts.len(),
{
    if j == ts.len() - 1 {
        assert(ts.remove(j) =~= ts.drop_last());
    } else {
        lemma_sum_remove(ts.drop_last(), j, c);
        assert(ts.remove(j).drop_last() =~= ts.drop_last().remove(j));
        assert(ts.remove(j).last() == ts.last());
    }
}

/// Task lists with the same tasks have the same sums.
proof fn lemma_sum_permutation(a: Seq<TaskHistorySummary>, b: Seq<TaskHistorySummary>, c: TaskCount)
    requires
        a.to_multiset() == b.to_multiset(),
    ensures
        sum_of(a, c) == sum_of(b, c),
    decreases a.len(),
{
    broadcast use vstd::seq_lib::group_to_multiset_ensures;

    a.to_multiset_ensures();
    b.to_multiset_ensures();
    if a.len() == 0 {
        assert(b.len() == 0);
    } else {
        let x = a.last();
        let ad = a.drop_last();
        assert(a =~= ad.push(x));
        assert(a.to_multiset().count(x) > 0);
        assert(b.contains(x));
        let j = choose|j: int| 0 <= j < b.len() && b[j] == x;
        let bd = b.remove(j);
        assert(bd.to_multiset() =~= b.to_multiset().remove(x));
        assert(ad.to_multiset() =~= a.to_multiset().remove(x));
        lemma_sum_permutation(ad, bd, c);
        lemma_sum_remove(b, j, c);
    }
}

/// A task of one list is a task of any list with the same tasks.
proof fn lemma_member_transfers(a: Seq<TaskHistorySummary>, b: Seq<TaskHistorySummary>, i: int) -> (k: int)
    requires
        a.to_multiset() == b.to_multiset(),
        0 <= i < a.len(),
    ensures
        0 <= k < b.len(),
        b[k] == a[i],
{
    broadcast use vstd::seq_lib::group_to_multiset_ensures;

    a.to_multiset_ensures();
    b.to_multiset_ensures();
    assert(a.contains(a[i]));
    assert(a.to_multiset().count(a[i]) > 0);
    assert(b.to_multiset().count(a[i]) > 0);
    assert(b.contains(a[i]));
    choose|k: int| 0 <= k < b.len() && b[k] == a[i]
}

/// The statistics do not depend on the order of the tasks: two lists with
/// the same tasks have the same totals, the same smallest and largest
/// sizes, and the same earliest and latest start times.
pub proof fn law_stats_order_independent(a: Seq<TaskHistorySummary>, b: Seq<TaskHistorySummary>, c: TaskCount)
    requires
        a.to_multiset() == b.to_multiset(),
    ensures
        sum_of(a, c) == sum_of(b, c),
        forall|x: u64, y: u64| is_min_of(x, sizes(a)) && is_min_of(y, sizes(b)) ==> x == y,
        forall|x: u64, y: u64| is_max_of(x, sizes(a)) && is_max_of(y, sizes(b)) ==> x == y,
        forall|x: Seq<char>, y: Seq<char>|
            is_least_text(x, starts(a)) && is_least_text(y, starts(b)) ==> x == y,
        forall|x: Seq<char>, y: Seq<char>|
            is_greatest_text(x, starts(a)) && is_greatest_text(y, starts(b)) ==> x == y,
{
    lemma_sum_permutation(a, b, c);
    assert forall|x: u64, y: u64| is_min_of(x, sizes(a)) && is_min_of(y, sizes(b)) implies x == y by {
        let i = choose|i: int| 0 <= i < sizes(a).len() && sizes(a)[i] == x;
        let k = lemma_member_transfers(a, b, i);
        assert(sizes(b)[k] == x);
        let j = choose|j: int| 0 <= j < sizes(b).len() && sizes(b)[j] == y;
        let m = lemma_member_transfers(b, a, j);
        assert(sizes(a)[m] == y);
    }
    assert forall|x: u64, y: u64| is_max_of(x, sizes(a)) && is_max_of(y, sizes(b)) implies x == y by {
        let i = choose|i: int| 0 <= i < sizes(a).len() && sizes(a)[i] == x;
        let k = lemma_member_transfers(a, b, i);
        assert(sizes(b)[k] == x);
        let j = choose|j: int| 0 <= j < sizes(b).len() && sizes(b)[j] == y;
        let m = lemma_member_transfers(b, a, j);
        assert(sizes(a)[m] == y);
    }
    assert forall|x: Seq<char>, y: Seq<char>|
        is_least_text(x, starts(a)) && is_least_text(y, starts(b)) implies x == y by {
        let i = choose|i: int| 0 <= i < starts(a).len() && starts(a)[i] == x;
        let k = lemma_member_transfers(a, b, i);
        assert(starts(b)[k] == x);
        let j = choose|j: int| 0 <= j < starts(b).len() && starts(b)[j] == y;
        let m = lemma_member_transfers(b, a, j);
        assert(starts(a)[m] == y);
        crate::text::lemma_lex_total(x, y);
    }
    assert forall|x: Seq<char>, y: Seq<char>|
        is_greatest_text(x, starts(a)) && is_greatest_text(y, starts(b)) implies x == y by {
        let i = choose|i: int| 0 <= i < starts(a).len() && starts(a)[i] == x;
        let k = lemma_member_transfers(a, b, i);
        assert(starts(b)[k] == x);
        let j = choose|j: int| 0 <= j < starts(b).len() && starts(b)[j] == y;
        let m = lemma_member_transfers(b, a, j);
        assert(starts(a)[m] == y);
        crate::text::lemma_lex_total(x, y);
    }
}

/// The usage counts as a map: each listed name to its count.
pub open spec fn usage_map(u: Seq<(Seq<char>, nat)>) -> Map<Seq<char>, nat> {
    Map::new(|n: Seq<char>| name_position(u, n) is Some, |n: Seq<char>| usage_count(u, n))
}

/// The count listed for a name (0 when it is not listed).
pub open spec fn usage_count(u: Seq<(Seq<char>, nat)>, n: Seq<char>) -> nat {
    match name_position(u, n) {
        Some(i) => u[i].1,
        None => 0,
    }
}

/// How many of the names are present and equal to `n`.
pub open spec fn name_count(names: Seq<Option<String>>, n: Seq<char>) -> nat
    decreases names.len(),
{
    if names.len() == 0 {
        0
    } else {
        name_count(names.drop_last(), n) + (if names.last() matches Some(x) && x@ == n {
            1nat
        } else {
            0
        })
    }
}

/// Which name of a task a usage list counts.
pub enum TaskName {
    Model,
    Provider,
    Version,
}

/// The names of one kind of the tasks.
pub open spec fn names_of(ts: Seq<TaskHistorySummary>, k: TaskName) -> Seq<Option<String>> {
    match k {
        TaskName::Model => model_ids(ts),
        TaskName::Provider => providers(ts),
        TaskName::Version => versions(ts),
    }
}

proof fn lemma_position_same_keys(b: Seq<(Seq<char>, nat)>, i: int, v: nat, n: Seq<char>)
    requires
        0 <= i < b.len(),
    ensures
        name_position(b.update(i, (b[i].0, v)), n) == name_position(b, n),
    decreases b.len(),
{
    let c = b.update(i, (b[i].0, v));
    if i < b.len() - 1 {
        assert(c.drop_last() =~= b.drop_last().update(i, (b[i].0, v)));
        lemma_position_same_keys(b.drop_last(), i, v, n);
    } else {
        assert(c.drop_last() =~= b.drop_last());
    }
}

proof fn lemma_count_add_use(b: Seq<(Seq<char>, nat)>, m: Seq<char>, n: Seq<char>)
    ensures
        usage_count(add_use(b, m), n) == usage_count(b, n) + (if m == n {
            1nat
        } else {
            0
        }),
        name_position(add_use(b, m), n) is Some == (name_position(b, n) is Some || m == n),
{
    lemma_name_position_bound(b, m);
    lemma_name_position_bound(b, n);
    match name_position(b, m) {
        Some(i) => {
            lemma_position_same_keys(b, i, b[i].1 + 1, n);
            assert(b.update(i, (m, b[i].1 + 1)) == b.update(i, (b[i].0, b[i].1 + 1)));
        },
        None => {
            assert(b.push((m, 1nat)).drop_last() =~= b);
        },
    }
}

proof fn lemma_usage_counts(names: Seq<Option<String>>, n: Seq<char>)
    ensures
        usage_count(usage_of(names), n) == name_count(names, n),
        name_position(usage_of(names), n) is Some == (name_count(names, n) > 0),
    decreases names.len(),
{
    if names.len() > 0 {
        lemma_usage_counts(names.drop_last(), n);
        match names.last() {
            Some(x) => lemma_count_add_use(usage_of(names.drop_last()), x@, n),
            None => {},
        }
    }
}

proof fn lemma_name_count_remove(names: Seq<Option<String>>, j: int, n: Seq<char>)
    requires
        0 <= j < names.len(),
    ensures
        name_count(names, n) == name_count(names.remove(j), n) + (if names[j] matches Some(x)
            && x@ == n {
            1nat
        } else {
            0
        }),
    decreases names.len(),
{
    if j == names.len() - 1 {
        assert(names.remove(j) =~= names.drop_last());
    } else {
        lemma_name_count_remove(names.drop_last(), j, n);
        assert(names.remove(j).drop_last() =~= names.drop_last().remove(j));
        assert(names.remove(j).last() == names.last());
    }
}

proof fn lemma_name_count_permutation(
    a: Seq<TaskHistorySummary>,
    b: Seq<TaskHistorySummary>,
    k: TaskName,
    n: Seq<char>,
)
    requires
        a.to_multiset() == b.to_multiset(),
    ensures
        name_count(names_of(a, k), n) == name_count(names_of(b, k), n),
    decreases a.len(),
{
    broadcast use vstd::seq_lib::group_to_multiset_ensures;

    a.to_multiset_ensures();
    b.to_multiset_ensures();
    if a.len() == 0 {
        assert(b.len() == 0);
        assert(names_of(a, k).len() == 0);
        assert(names_of(b, k).len() == 0);
    } else {
        let x = a.last();
        let ad = a.drop_last();
        assert(a =~= ad.push(x));
        assert(a.to_multiset().count(x) > 0);
        assert(b.contains(x));
        let j = choose|j: int| 0 <= j < b.len() && b[j] == x;
        let bd = b.remove(j);
        assert(bd.to_multiset() =~= b.to_multiset().remove(x));
        assert(ad.to_multiset() =~= a.to_multiset().remove(x));
        lemma_name_count_permutation(ad, bd, k, n);
        assert(names_of(a, k).drop_last() =~= names_of(ad, k));
        assert(names_of(b, k).remove(j) =~= names_of(bd, k));
        lemma_name_count_remove(names_of(b, k), j, n);
    }
}

/// Task lists with the same tasks have the same usage, as maps from name
/// to count.
proof fn lemma_usage_permutation(a: Seq<TaskHistorySummary>, b: Seq<TaskHistorySummary>, k: TaskName)
    requires
        a.to_multiset() == b.to_multiset(),
    ensures
        usage_map(usage_of(names_of(a, k))) == usage_map(usage_of(names_of(b, k))),
{
    assert forall|n: Seq<char>|
        #![trigger usage_count(usage_of(names_of(a, k)), n)]
        #![trigger name_position(usage_of(names_of(a, k)), n)]
        #![trigger name_position(usage_of(names_of(b, k)), n)]
        usage_count(usage_of(names_of(a, k)), n) == usage_count(usage_of(names_of(b, k)), n)
            && (name_position(usage_of(names_of(a, k)), n) is Some == name_position(
            usage_of(names_of(b, k)),
            n,
        ) is Some) by {
        lemma_usage_counts(names_of(a, k), n);
        lemma_usage_counts(names_of(b, k), n);
        lemma_name_count_permutation(a, b, k, n);
    }
    assert(usage_map(usage_of(names_of(a, k))) =~= usage_map(usage_of(names_of(b, k))));
}

/// `compute_stats` does not depend on the order of the tasks: for two task
/// lists that differ only in the order of their tasks, the statistics agree
/// field by field, the usage lists as maps from name to count.
pub proof fn law_compute_stats_order_independent(
    l1: TaskHistoryListResponse,
    l2: TaskHistoryListResponse,
    r1: HistoryStatsCounts,
    r2: HistoryStatsCounts,
)
    requires
        l1.tasks@.to_multiset() == l2.tasks@.to_multiset(),
        l1.total_tasks == l2.total_tasks,
        l1.total_messages == l2.total_messages,
        l1.total_tool_calls == l2.total_tool_calls,
        l1.total_api_history_bytes == l2.total_api_history_bytes,
        l1.aggregate_tool_breakdown@ == l2.aggregate_tool_breakdown@,
        l1.tasks_root == l2.tasks_root,
        stats_for(r1, l1),
        stats_for(r2, l2),
    ensures
        r1.total_tasks == r2.total_tasks,
        r1.total_messages == r2.total_messages,
        r1.total_tool_calls == r2.total_tool_calls,
        r1.total_api_history_bytes == r2.total_api_history_bytes,
        r1.total_thinking_blocks == r2.total_thinking_blocks,
        r1.total_ui_messages_bytes == r2.total_ui_messages_bytes,
        r1.total_files_in_context == r2.total_files_in_context,
        r1.total_files_edited == r2.total_files_edited,
        r1.total_files_read == r2.total_files_read,
        r1.tasks_with_focus_chain == r2.tasks_with_focus_chain,
        r1.min_task_size_bytes == r2.min_task_size_bytes,
        r1.max_task_size_bytes == r2.max_task_size_bytes,
        r1.earliest_task is None == r2.earliest_task is None,
        r1.earliest_task matches Some(e1) ==> (r2.earliest_task matches Some(e2) && e1@ == e2@),
        r1.latest_task is None == r2.latest_task is None,
        r1.latest_task matches Some(t1) ==> (r2.latest_task matches Some(t2) && t1@ == t2@),
        r1.tool_breakdown@ == r2.tool_breakdown@,
        usage_map(breakdown_view(r1.model_usage@)) == usage_map(breakdown_view(r2.model_usage@)),
        usage_map(breakdown_view(r1.model_provider_usage@)) == usage_map(
            breakdown_view(r2.model_provider_usage@),
        ),
        usage_map(breakdown_view(r1.cline_version_usage@)) == usage_map(
            breakdown_view(r2.cline_version_usage@),
        ),
        r1.tasks_root == r2.tasks_root,
{
    let a = l1.tasks@;
    let b = l2.tasks@;
    law_stats_order_independent(a, b, TaskCount::Thinking);
    law_stats_order_independent(a, b, TaskCount::UiBytes);
    law_stats_order_independent(a, b, TaskCount::FilesInContext);
    law_stats_order_independent(a, b, TaskCount::FilesEdited);
    law_stats_order_independent(a, b, TaskCount::FilesRead);
    law_stats_order_independent(a, b, TaskCount::FocusChain);
    lemma_usage_permutation(a, b, TaskName::Model);
    lemma_usage_permutation(a, b, TaskName::Provider);
    lemma_usage_permutation(a, b, TaskName::Version);
    broadcast use vstd::seq_lib::group_to_multiset_ensures;

    a.to_multiset_ensures();
    b.to_multiset_ensures();
    assert(a.len() == b.len());
    if a.len() > 0 {
        let e1 = r1.earliest_task->0;
        let e2 = r2.earliest_task->0;
        let t1 = r1.latest_task->0;
        let t2 = r2.latest_task->0;
        assert(e1@ == e2@);
        assert(t1@ == t2@);
        assert(r1.min_task_size_bytes == r2.min_task_size_bytes);
        assert(r1.max_task_size_bytes == r2.max_task_size_bytes);
    }
}

} // verus!
