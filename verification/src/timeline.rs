//! Focused views of a task's conversation: the tool call timeline (calls
//! paired with their results, success or failure, filters) and the thinking
//! blocks (with truncation and a minimum length).

use vstd::prelude::*;
use crate::detail::{add_use, breakdown_view, events, lemma_events_prefix, name_position};
use crate::messages::{
    char_count, extract_tool_result_text, ostr, result_text_of, RawApiMessage, RawContentBlock,
};
use crate::text::{chars_of, clone_opt_string, contains_chars, contains_sub, same_text};
use crate::util::{
    truncate_utf8, truncated, ERROR_TEXT_TRUNCATE_LEN, TOOL_INPUT_TRUNCATE_LEN,
    TOOL_RESULT_TRUNCATE_LEN,
};

verus! {

/// Query parameters of the tool timeline.
pub struct TaskToolsQuery {
    /// Filter by tool name (partial, case-insensitive match).
    pub tool_name: Option<String>,
    /// Only failed tool calls.
    pub failed_only: Option<bool>,
}

/// A tool call of the timeline with its result and success.
pub struct ToolCallTimelineEntry {
    pub call_index: usize,
    pub message_index: usize,
    /// Message index of the tool_result block, if found.
    pub result_message_index: Option<usize>,
    /// Timestamp of the tool_use message.
    pub timestamp: Option<String>,
    pub tool_name: String,
    pub tool_use_id: String,
    /// First 300 characters of the JSON input.
    pub input_summary: String,
    pub input_full_length: usize,
    /// First 200 characters of the result text.
    pub result_summary: Option<String>,
    pub result_full_length: Option<usize>,
    /// Success (no `is_error`), failure, or none without a result.
    pub success: Option<bool>,
    /// The error text (first 300 characters) of a failed result.
    pub error_text: Option<String>,
}

/// Response of the tool timeline.
pub struct ToolCallTimelineResponse {
    pub task_id: String,
    pub total_tool_calls: usize,
    pub filtered_count: usize,
    pub success_count: usize,
    pub failure_count: usize,
    pub no_result_count: usize,
    /// Tool usage: (tool name, count), names in order of first use.
    pub tool_breakdown: Vec<(String, usize)>,
    pub tool_calls: Vec<ToolCallTimelineEntry>,
}

/// The value of a timeline entry.
pub ghost struct EntrySpec {
    pub call_index: nat,
    pub message_index: nat,
    pub result_message_index: Option<nat>,
    pub timestamp: Option<Seq<char>>,
    pub tool_name: Seq<char>,
    pub tool_use_id: Seq<char>,
    pub input_summary: Seq<char>,
    pub input_full_length: nat,
    pub result_summary: Option<Seq<char>>,
    pub result_full_length: Option<nat>,
    pub success: Option<bool>,
    pub error_text: Option<Seq<char>>,
}

/// An optional count as a natural number.
pub open spec fn onat(o: Option<usize>) -> Option<nat> {
    match o {
        Some(n) => Some(n as nat),
        None => None,
    }
}

impl View for ToolCallTimelineEntry {
    type V = EntrySpec;

    open spec fn view(&self) -> EntrySpec {
        EntrySpec {
            call_index: self.call_index as nat,
            message_index: self.message_index as nat,
            result_message_index: onat(self.result_message_index),
            timestamp: ostr(self.timestamp),
            tool_name: self.tool_name@,
            tool_use_id: self.tool_use_id@,
            input_summary: self.input_summary@,
            input_full_length: self.input_full_length as nat,
            result_summary: ostr(self.result_summary),
            result_full_length: onat(self.result_full_length),
            success: self.success,
            error_text: ostr(self.error_text),
        }
    }
}

/// The values of timeline entries.
pub open spec fn entries_view(v: Seq<ToolCallTimelineEntry>) -> Seq<EntrySpec> {
    v.map_values(|e: ToolCallTimelineEntry| e@)
}

/// The position of the latest entry with tool use id `id`.
pub open spec fn last_entry_with_id(v: Seq<EntrySpec>, id: Seq<char>) -> Option<int>
    decreases v.len(),
{
    if v.len() == 0 {
        None
    } else if v.last().tool_use_id == id {
        Some(v.len() - 1)
    } else {
        last_entry_with_id(v.drop_last(), id)
    }
}

/// What the walk over the blocks has gathered.
pub ghost struct TimelineFold {
    pub entries: Seq<EntrySpec>,
    pub breakdown: Seq<(Seq<char>, nat)>,
}

/// One block of the walk: a tool use opens an entry (with the timestamp of
/// its message), a tool result completes the latest entry with its id
/// (success unless `is_error`; a failure also records its error text).
pub open spec fn timeline_step(
    s: TimelineFold,
    ev: (nat, RawContentBlock),
    ts: Seq<Option<String>>,
) -> TimelineFold {
    match ev.1 {
        RawContentBlock::ToolUse { id, name, input_json, .. } => TimelineFold {
            entries: s.entries.push(
                EntrySpec {
                    call_index: s.entries.len(),
                    message_index: ev.0,
                    result_message_index: None,
                    timestamp: ostr(ts[ev.0 as int]),
                    tool_name: name@,
                    tool_use_id: id@,
                    input_summary: truncated(input_json@, 300),
                    input_full_length: input_json@.len(),
                    result_summary: None,
                    result_full_length: None,
                    success: None,
                    error_text: None,
                },
            ),
            breakdown: add_use(s.breakdown, name@),
        },
        RawContentBlock::ToolResult { tool_use_id, content, is_error } => match last_entry_with_id(
            s.entries,
            tool_use_id@,
        ) {
            Some(i) => {
                let failed = is_error == Some(true);
                let text = result_text_of(content);
                TimelineFold {
                    entries: s.entries.update(
                        i,
                        EntrySpec {
                            result_message_index: Some(ev.0),
                            result_summary: Some(truncated(text, 200)),
                            result_full_length: Some(text.len()),
                            success: Some(!failed),
                            error_text: if failed {
                                Some(truncated(text, 300))
                            } else {
                                s.entries[i].error_text
                            },
                            ..s.entries[i]
                        },
                    ),
                    ..s
                }
            },
            None => s,
        },
        _ => s,
    }
}

/// The walk over a sequence of blocks.
pub open spec fn timeline_fold(evs: Seq<(nat, RawContentBlock)>, ts: Seq<Option<String>>) -> TimelineFold
    decreases evs.len(),
{
    if evs.len() == 0 {
        TimelineFold { entries: Seq::empty(), breakdown: Seq::empty() }
    } else {
        timeline_step(timeline_fold(evs.drop_last(), ts), evs.last(), ts)
    }
}

/// The number of entries with the given success.
pub open spec fn count_success(v: Seq<EntrySpec>, s: Option<bool>) -> nat
    decreases v.len(),
{
    if v.len() == 0 {
        0
    } else {
        count_success(v.drop_last(), s) + (if v.last().success == s {
            1nat
        } else {
            0nat
        })
    }
}

/// Whether an entry's outcome is backed by a result it was paired with: a
/// call with an outcome has, at its result's message, a `tool_result` for
/// its id, and it succeeded exactly when that result was not marked
/// `is_error: true` (absent or false is a success); a call without an
/// outcome has no result message.
pub open spec fn outcome_from_result(e: EntrySpec, evs: Seq<(nat, RawContentBlock)>) -> bool {
    match e.success {
        Some(ok) => exists|k: int|
            #![trigger evs[k]]
            0 <= k < evs.len() && e.result_message_index == Some(evs[k].0) && (
            evs[k].1 matches RawContentBlock::ToolResult { tool_use_id, is_error, .. }
                && tool_use_id@ == e.tool_use_id && ok == (is_error != Some(true))),
        None => e.result_message_index is None,
    }
}

proof fn lemma_last_entry_bound(v: Seq<EntrySpec>, id: Seq<char>)
    ensures
        last_entry_with_id(v, id) matches Some(i) ==> 0 <= i < v.len() && v[i].tool_use_id == id,
    decreases v.len(),
{
    if v.len() > 0 {
        lemma_last_entry_bound(v.drop_last(), id);
    }
}

/// A tool call succeeds or fails as the result paired with it says: it is
/// reported successful only after a `tool_result` for its id without
/// `is_error: true`, and failed only after one with `is_error: true`.
pub proof fn law_tool_success_from_result(evs: Seq<(nat, RawContentBlock)>, ts: Seq<Option<String>>)
    ensures
        forall|i: int|
            0 <= i < timeline_fold(evs, ts).entries.len() ==> outcome_from_result(
                #[trigger] timeline_fold(evs, ts).entries[i],
                evs,
            ),
    decreases evs.len(),
{
    if evs.len() > 0 {
        let pre = evs.drop_last();
        law_tool_success_from_result(pre, ts);
        let s = timeline_fold(pre, ts);
        let t = timeline_fold(evs, ts);
        let k = evs.len() - 1;
        assert forall|j: int| 0 <= j < s.entries.len() && outcome_from_result(s.entries[j], pre)
            implies outcome_from_result(s.entries[j], evs) by {
            if s.entries[j].success is Some {
                let w = choose|w: int|
                    #![trigger pre[w]]
                    0 <= w < pre.len() && s.entries[j].result_message_index == Some(pre[w].0) && (
                    pre[w].1 matches RawContentBlock::ToolResult { tool_use_id, is_error, .. }
                        && tool_use_id@ == s.entries[j].tool_use_id && s.entries[j].success->0 == (
                    is_error != Some(true)));
                assert(evs[w] == pre[w]);
            }
        }
        match evs.last().1 {
            RawContentBlock::ToolUse { .. } => {
                assert forall|j: int| 0 <= j < t.entries.len() implies outcome_from_result(
                    #[trigger] t.entries[j],
                    evs,
                ) by {
                    if j < s.entries.len() {
                        assert(t.entries[j] == s.entries[j]);
                    }
                }
            },
            RawContentBlock::ToolResult { tool_use_id, content, is_error } => {
                lemma_last_entry_bound(s.entries, tool_use_id@);
                match last_entry_with_id(s.entries, tool_use_id@) {
                    Some(i) => {
                        assert forall|j: int| 0 <= j < t.entries.len() implies outcome_from_result(
                            #[trigger] t.entries[j],
                            evs,
                        ) by {
                            if j == i {
                                assert(evs[k] == evs.last());
                            } else {
                                assert(t.entries[j] == s.entries[j]);
                            }
                        }
                    },
                    None => {},
                }
            },
            _ => {},
        }
    }
}

proof fn lemma_passing_keeps_outcome(
    v: Seq<EntrySpec>,
    name: Option<Seq<char>>,
    failed_only: bool,
    evs: Seq<(nat, RawContentBlock)>,
)
    requires
        forall|i: int| 0 <= i < v.len() ==> outcome_from_result(#[trigger] v[i], evs),
    ensures
        forall|j: int|
            0 <= j < entries_passing(v, name, failed_only).len() ==> outcome_from_result(
                #[trigger] entries_passing(v, name, failed_only)[j],
                evs,
            ),
    decreases v.len(),
{
    if v.len() > 0 {
        let d = v.drop_last();
        assert forall|i: int| 0 <= i < d.len() implies outcome_from_result(#[trigger] d[i], evs) by {
            assert(d[i] == v[i]);
        }
        lemma_passing_keeps_outcome(d, name, failed_only, evs);
        let rest = entries_passing(d, name, failed_only);
        assert(outcome_from_result(v[v.len() - 1], evs));
        if entry_passes(v.last(), name, failed_only) {
            assert forall|j: int| 0 <= j < rest.push(v.last()).len() implies outcome_from_result(
                #[trigger] rest.push(v.last())[j],
                evs,
            ) by {
                if j < rest.len() {
                    assert(rest.push(v.last())[j] == rest[j]);
                }
            }
        }
    }
}

/// A thinking block is cut only when a maximum is set (`max > 0`) and the
/// block is longer than it; then its text holds at most `max` characters.
/// Otherwise, and always with `max` 0, the block's full text is shown.
pub proof fn law_thinking_truncation(
    e: ThinkingBlockEntry,
    i: int,
    item: (nat, Seq<char>),
    ts: Seq<Option<String>>,
    max: usize,
)
    requires
        entry_shows(e, i, item, ts, max),
    ensures
        e.full_length == item.1.len(),
        e.is_truncated == (max > 0 && e.full_length > max),
        !e.is_truncated ==> e.thinking@ == item.1,
        e.is_truncated ==> e.thinking@.len() <= max,
        max == 0 ==> !e.is_truncated && e.thinking@ == item.1,
{
}

/// Every call has succeeded, failed, or has no result: the three counts
/// add up to the number of calls.
pub proof fn law_tool_counts_partition(v: Seq<EntrySpec>)
    ensures
        count_success(v, Some(true)) + count_success(v, Some(false)) + count_success(v, None)
            == v.len(),
    decreases v.len(),
{
    if v.len() > 0 {
        law_tool_counts_partition(v.drop_last());
        match v.last().success {
            Some(b) => {
                if b {
                    assert(v.last().success == Some(true));
                } else {
                    assert(v.last().success == Some(false));
                }
            },
            None => {},
        }
    }
}

/// The lower-case form of a text (`str::to_lowercase`).
pub uninterp spec fn lowercase(s: Seq<char>) -> Seq<char>;

/// `str::to_lowercase`: the text in lower case, a function of the text.
#[verifier::external_body]
fn to_lowercase(s: &str) -> (r: String)
    ensures
        r@ == lowercase(s@),
{
    s.to_lowercase()
}

/// Whether an entry passes the filters: its name contains the name filter
/// (both in lower case), and it failed when only failures are asked for.
pub open spec fn entry_passes(e: EntrySpec, name: Option<Seq<char>>, failed_only: bool) -> bool {
    &&& (name matches Some(n) ==> contains_sub(lowercase(e.tool_name), lowercase(n)))
    &&& (failed_only ==> e.success == Some(false))
}

/// The entries that pass the filters, in order.
pub open spec fn entries_passing(v: Seq<EntrySpec>, name: Option<Seq<char>>, failed_only: bool) -> Seq<
    EntrySpec,
>
    decreases v.len(),
{
    if v.len() == 0 {
        Seq::empty()
    } else {
        let rest = entries_passing(v.drop_last(), name, failed_only);
        if entry_passes(v.last(), name, failed_only) {
            rest.push(v.last())
        } else {
            rest
        }
    }
}

/// The latest entry with tool use id `id`.
fn find_last_entry(v: &Vec<ToolCallTimelineEntry>, id: &str) -> (r: Option<usize>)
    ensures
        match r {
            Some(k) => k < v@.len() && last_entry_with_id(entries_view(v@), id@) == Some(k as int),
            None => last_entry_with_id(entries_view(v@), id@) is None,
        },
{
    let mut k: usize = v.len();
    assert(entries_view(v@).take(k as int) =~= entries_view(v@));
    while k > 0
        invariant
            k <= v@.len(),
            last_entry_with_id(entries_view(v@), id@) == last_entry_with_id(
                entries_view(v@).take(k as int),
                id@,
            ),
        decreases k,
    {
        let ghost t = entries_view(v@).take(k as int);
        assert(t.drop_last() =~= entries_view(v@).take(k - 1));
        assert(t.last() == v@[k - 1]@);
        if same_text(v[k - 1].tool_use_id.as_str(), id) {
            return Some(k - 1);
        }
        k = k - 1;
    }
    None
}

/// The position of `name` in the breakdown.
fn find_name(b: &Vec<(String, usize)>, name: &str) -> (r: Option<usize>)
    ensures
        match r {
            Some(k) => k < b@.len() && name_position(breakdown_view(b@), name@) == Some(k as int),
            None => name_position(breakdown_view(b@), name@) is None,
        },
{
    let mut k: usize = b.len();
    assert(breakdown_view(b@).take(k as int) =~= breakdown_view(b@));
    while k > 0
        invariant
            k <= b@.len(),
            name_position(breakdown_view(b@), name@) == name_position(
                breakdown_view(b@).take(k as int),
                name@,
            ),
        decreases k,
    {
        let ghost t = breakdown_view(b@).take(k as int);
        assert(t.drop_last() =~= breakdown_view(b@).take(k - 1));
        assert(t.last() == (b@[k - 1].0@, b@[k - 1].1 as nat));
        if same_text(b[k - 1].0.as_str(), name) {
            return Some(k - 1);
        }
        k = k - 1;
    }
    None
}

/// Each count of the breakdown is at most `n`.
pub open spec fn counts_at_most(b: Seq<(Seq<char>, nat)>, n: nat) -> bool {
    forall|i: int| 0 <= i < b.len() ==> #[trigger] b[i].1 <= n
}

/// Count one more use of `name`.
fn count_use(breakdown: &mut Vec<(String, usize)>, name: &String, bound: Ghost<nat>)
    requires
        counts_at_most(breakdown_view(old(breakdown)@), bound@),
        bound@ < usize::MAX,
    ensures
        breakdown_view(final(breakdown)@) == add_use(breakdown_view(old(breakdown)@), name@),
        counts_at_most(breakdown_view(final(breakdown)@), bound@ + 1),
{
    let ghost bb = breakdown_view(breakdown@);
    match find_name(breakdown, name.as_str()) {
        Some(k) => {
            let c = breakdown[k].1;
            assert(bb[k as int].1 <= bound@);
            breakdown.set(k, (name.clone(), c + 1));
            assert(breakdown_view(breakdown@) =~= bb.update(k as int, (name@, bb[k as int].1 + 1)));
        },
        None => {
            breakdown.push((name.clone(), 1));
            assert(breakdown_view(breakdown@) =~= bb.push((name@, 1nat)));
        },
    }
}

/// The number of entries with the given success.
fn count_with_success(v: &Vec<ToolCallTimelineEntry>, s: Option<bool>) -> (n: usize)
    ensures
        n == count_success(entries_view(v@), s),
{
    let mut n: usize = 0;
    let mut i: usize = 0;
    while i < v.len()
        invariant
            i <= v@.len(),
            n <= i,
            n == count_success(entries_view(v@).take(i as int), s),
        decreases v@.len() - i,
    {
        let ghost t = entries_view(v@).take(i + 1);
        assert(t.drop_last() =~= entries_view(v@).take(i as int));
        assert(t.last() == v@[i as int]@);
        if v[i].success == s {
            n = n + 1;
        }
        i = i + 1;
    }
    assert(entries_view(v@).take(i as int) =~= entries_view(v@));
    n
}

/// The tool call timeline of a task: every tool use paired with the latest
/// result for its id, the counts of successes, failures and calls without a
/// result, the tool breakdown, then the calls that pass the filters.
pub fn parse_task_tools(
    task_id: &str,
    raw: &[RawApiMessage],
    timestamps: &[Option<String>],
    tool_name_filter: Option<&str>,
    failed_only: bool,
) -> (r: ToolCallTimelineResponse)
    requires
        timestamps@.len() == raw@.len(),
        events(raw@).len() < usize::MAX,
    ensures
        ({
            let f = timeline_fold(events(raw@), timestamps@);
            let name = match tool_name_filter {
                Some(n) => Some(n@),
                None => None,
            };
            &&& r.task_id@ == task_id@
            &&& r.total_tool_calls == f.entries.len()
            &&& r.success_count == count_success(f.entries, Some(true))
            &&& r.failure_count == count_success(f.entries, Some(false))
            &&& r.no_result_count == count_success(f.entries, None)
            &&& breakdown_view(r.tool_breakdown@) == f.breakdown
            &&& entries_view(r.tool_calls@) == entries_passing(f.entries, name, failed_only)
            &&& r.filtered_count == r.tool_calls@.len()
        }),
        r.success_count + r.failure_count + r.no_result_count == r.total_tool_calls,
        forall|j: int|
            0 <= j < r.tool_calls@.len() ==> outcome_from_result(
                (#[trigger] r.tool_calls@[j])@,
                events(raw@),
            ),
{
    let mut entries: Vec<ToolCallTimelineEntry> = Vec::new();
    let mut breakdown: Vec<(String, usize)> = Vec::new();
    let mut i: usize = 0;
    let ghost ts = timestamps@;
    let ghost total = events(raw@).len();
    assert(events(raw@.take(0)) =~= Seq::<(nat, RawContentBlock)>::empty());
    while i < raw.len()
        invariant
            i <= raw@.len() == ts.len(),
            ts == timestamps@,
            total == events(raw@).len() < usize::MAX,
            events(raw@.take(i as int)).len() <= total,
            entries_view(entries@) == timeline_fold(events(raw@.take(i as int)), ts).entries,
            breakdown_view(breakdown@) == timeline_fold(events(raw@.take(i as int)), ts).breakdown,
            entries@.len() <= events(raw@.take(i as int)).len(),
            counts_at_most(breakdown_view(breakdown@), entries@.len() as nat),
        decreases raw@.len() - i,
    {
        let msg = &raw[i];
        let ghost base = events(raw@.take(i as int));
        let ghost mapped = msg.content@.map_values(|b: RawContentBlock| (i as nat, b));
        proof {
            assert(raw@.take(i + 1).drop_last() =~= raw@.take(i as int));
            assert(raw@.take(i + 1).last() == raw@[i as int]);
            assert(events(raw@.take(i + 1)) == base + mapped);
            lemma_events_prefix(raw@, i + 1);
        }
        let mut j: usize = 0;
        assert(base + mapped.take(0) =~= base);
        while j < msg.content.len()
            invariant
                j <= msg.content@.len(),
                i < raw@.len() == ts.len(),
                ts == timestamps@,
                *msg == raw@[i as int],
                mapped == msg.content@.map_values(|b: RawContentBlock| (i as nat, b)),
                base.len() + mapped.len() <= total,
                total < usize::MAX,
                entries_view(entries@) == timeline_fold(base + mapped.take(j as int), ts).entries,
                breakdown_view(breakdown@) == timeline_fold(base + mapped.take(j as int), ts).breakdown,
                entries@.len() <= base.len() + j,
                counts_at_most(breakdown_view(breakdown@), entries@.len() as nat),
            decreases msg.content@.len() - j,
        {
            let ghost prev = base + mapped.take(j as int);
            let ghost nxt = base + mapped.take(j + 1);
            proof {
                assert(nxt.drop_last() =~= prev);
                assert(nxt.last() == (i as nat, msg.content@[j as int]));
            }
            match &msg.content[j] {
                RawContentBlock::ToolUse { id, name, input_json, .. } => {
                    let ghost n0 = entries@.len();
                    count_use(&mut breakdown, name, Ghost(n0 as nat));
                    let entry = ToolCallTimelineEntry {
                        call_index: entries.len(),
                        message_index: i,
                        result_message_index: None,
                        timestamp: clone_opt_string(&timestamps[i]),
                        tool_name: name.clone(),
                        tool_use_id: id.clone(),
                        input_summary: truncate_utf8(input_json.as_str(), TOOL_INPUT_TRUNCATE_LEN),
                        input_full_length: char_count(input_json.as_str()),
                        result_summary: None,
                        result_full_length: None,
                        success: None,
                        error_text: None,
                    };
                    let ghost ev = entry@;
                    let ghost eb = entries_view(entries@);
                    entries.push(entry);
                    assert(entries_view(entries@) =~= eb.push(ev));
                },
                RawContentBlock::ToolResult { tool_use_id, content, is_error } => {
                    match find_last_entry(&entries, tool_use_id.as_str()) {
                        Some(k) => {
                            let text = extract_tool_result_text(content);
                            let failed = match is_error {
                                Some(b) => *b,
                                None => false,
                            };
                            let old = &entries[k];
                            let error_text = if failed {
                                Some(truncate_utf8(text.as_str(), ERROR_TEXT_TRUNCATE_LEN))
                            } else {
                                clone_opt_string(&old.error_text)
                            };
                            let updated = ToolCallTimelineEntry {
                                call_index: old.call_index,
                                message_index: old.message_index,
                                result_message_index: Some(i),
                                timestamp: clone_opt_string(&old.timestamp),
                                tool_name: old.tool_name.clone(),
                                tool_use_id: old.tool_use_id.clone(),
                                input_summary: old.input_summary.clone(),
                                input_full_length: old.input_full_length,
                                result_summary: Some(
                                    truncate_utf8(text.as_str(), TOOL_RESULT_TRUNCATE_LEN),
                                ),
                                result_full_length: Some(char_count(text.as_str())),
                                success: Some(!failed),
                                error_text,
                            };
                            let ghost uv = updated@;
                            let ghost eb = entries_view(entries@);
                            entries.set(k, updated);
                            assert(entries_view(entries@) =~= eb.update(k as int, uv));
                        },
                        None => {},
                    }
                },
                _ => {},
            }
            j = j + 1;
        }
        assert(mapped.take(j as int) =~= mapped);
        i = i + 1;
    }
    assert(raw@.take(i as int) =~= raw@);
    let success_count = count_with_success(&entries, Some(true));
    let failure_count = count_with_success(&entries, Some(false));
    let no_result_count = count_with_success(&entries, None);
    let total_tool_calls = entries.len();
    proof {
        law_tool_counts_partition(entries_view(entries@));
    }
    let filter_lc: Option<Vec<char>> = match tool_name_filter {
        Some(f) => {
            let l = to_lowercase(f);
            Some(chars_of(l.as_str()))
        },
        None => None,
    };
    let ghost name = match tool_name_filter {
        Some(n) => Some(n@),
        None => None,
    };
    let ghost all = entries_view(entries@);
    let mut rest = entries;
    let n = rest.len();
    let mut kept: Vec<ToolCallTimelineEntry> = Vec::new();
    let mut q: usize = 0;
    assert(all.skip(0) =~= all);
    assert(entries_passing(all.take(0), name, failed_only) =~= Seq::<EntrySpec>::empty());
    while rest.len() > 0
        invariant
            q <= all.len() == n,
            entries_view(rest@) == all.skip(q as int),
            match filter_lc {
                Some(c) => name matches Some(nm) && c@ == lowercase(nm),
                None => name is None,
            },
            entries_view(kept@) == entries_passing(all.take(q as int), name, failed_only),
        decreases rest@.len(),
    {
        assert(entries_view(rest@).len() == rest@.len());
        let ghost rb = entries_view(rest@);
        let e = rest.remove(0);
        assert(rb[0] == e@);
        let ghost pre = all.take(q + 1);
        proof {
            assert(pre.drop_last() =~= all.take(q as int));
            assert(all.skip(q as int)[0] == all[q as int]);
            assert(pre.last() == e@);
            assert(entries_view(rest@) =~= rb.drop_first());
        }
        let name_ok = match &filter_lc {
            Some(c) => {
                let lc = to_lowercase(e.tool_name.as_str());
                let ec = chars_of(lc.as_str());
                contains_chars(&ec, c)
            },
            None => true,
        };
        let fail_ok = !failed_only || e.success == Some(false);
        let ghost ev = e@;
        let ghost kb = entries_view(kept@);
        if name_ok && fail_ok {
            kept.push(e);
            assert(entries_view(kept@) =~= kb.push(ev));
        }
        q = q + 1;
        assert(entries_view(rest@) =~= all.skip(q as int));
    }
    assert(all.take(q as int) =~= all);
    proof {
        law_tool_success_from_result(events(raw@), timestamps@);
        lemma_passing_keeps_outcome(all, name, failed_only, events(raw@));
        assert forall|j: int| 0 <= j < kept@.len() implies outcome_from_result(
            (#[trigger] kept@[j])@,
            events(raw@),
        ) by {
            assert(entries_view(kept@)[j] == kept@[j]@);
        }
    }
    let filtered_count = kept.len();
    ToolCallTimelineResponse {
        task_id: String::from_str(task_id),
        total_tool_calls,
        filtered_count,
        success_count,
        failure_count,
        no_result_count,
        tool_breakdown: breakdown,
        tool_calls: kept,
    }
}

// ---------------------------------------------------------------------------
// Thinking blocks
// ---------------------------------------------------------------------------

/// Query parameters of the thinking view.
pub struct TaskThinkingQuery {
    /// Maximum characters per block (default 1000, 0 for no truncation).
    pub max_length: Option<usize>,
    /// Minimum block length to include.
    pub min_length: Option<usize>,
}

/// A thinking block of the task.
pub struct ThinkingBlockEntry {
    /// Sequential index among the blocks shown (0-based).
    pub block_index: usize,
    /// Message index of the block.
    pub message_index: usize,
    /// Timestamp of its message.
    pub timestamp: Option<String>,
    /// The thinking text (truncated to the maximum length when longer).
    pub thinking: String,
    /// Full length in characters.
    pub full_length: usize,
    /// Whether the text was truncated.
    pub is_truncated: bool,
}

/// Response of the thinking view.
pub struct ThinkingBlocksResponse {
    pub task_id: String,
    /// Number of blocks shown.
    pub total_thinking_blocks: usize,
    /// Characters across all thinking blocks (shown or not).
    pub total_characters: usize,
    /// Average length: the total characters over the blocks shown.
    pub avg_block_length: usize,
    pub thinking_blocks: Vec<ThinkingBlockEntry>,
}

/// The thinking blocks of a message's content, with the message index.
pub open spec fn thinking_in(blocks: Seq<RawContentBlock>, idx: nat) -> Seq<(nat, Seq<char>)>
    decreases blocks.len(),
{
    if blocks.len() == 0 {
        Seq::empty()
    } else {
        let rest = thinking_in(blocks.drop_last(), idx);
        match blocks.last() {
            RawContentBlock::Thinking { thinking } => rest.push((idx, thinking@)),
            _ => rest,
        }
    }
}

/// The thinking blocks of the assistant messages, in order.
pub open spec fn thinking_items(raw: Seq<RawApiMessage>) -> Seq<(nat, Seq<char>)>
    decreases raw.len(),
{
    if raw.len() == 0 {
        Seq::empty()
    } else {
        thinking_items(raw.drop_last()) + (if raw.last().role@ == "assistant"@ {
            thinking_in(raw.last().content@, (raw.len() - 1) as nat)
        } else {
            Seq::empty()
        })
    }
}

/// The total length of the blocks.
pub open spec fn total_length(items: Seq<(nat, Seq<char>)>) -> nat
    decreases items.len(),
{
    if items.len() == 0 {
        0
    } else {
        total_length(items.drop_last()) + items.last().1.len()
    }
}

/// The blocks at least `min` long (all without a minimum).
pub open spec fn long_enough(items: Seq<(nat, Seq<char>)>, min: Option<usize>) -> Seq<
    (nat, Seq<char>),
>
    decreases items.len(),
{
    if items.len() == 0 {
        Seq::empty()
    } else {
        let rest = long_enough(items.drop_last(), min);
        if min matches Some(m) && items.last().1.len() < m {
            rest
        } else {
            rest.push(items.last())
        }
    }
}

/// Whether `e` shows the thinking block `item` as the `i`-th block, with
/// truncation to `max` characters (none for 0).
pub open spec fn entry_shows(
    e: ThinkingBlockEntry,
    i: int,
    item: (nat, Seq<char>),
    ts: Seq<Option<String>>,
    max: usize,
) -> bool {
    &&& e.block_index == i
    &&& e.message_index == item.0
    &&& e.timestamp == ts[item.0 as int]
    &&& e.full_length == item.1.len()
    &&& e.is_truncated == (max > 0 && item.1.len() > max)
    &&& e.thinking@ == (if max > 0 && item.1.len() > max {
        truncated(item.1, max as nat)
    } else {
        item.1
    })
}

proof fn lemma_total_prefix(items: Seq<(nat, Seq<char>)>, n: int)
    requires
        0 <= n <= items.len(),
    ensures
        total_length(items.take(n)) <= total_length(items),
    decreases items.len() - n,
{
    if n < items.len() {
        lemma_total_prefix(items, n + 1);
        assert(items.take(n + 1).drop_last() =~= items.take(n));
    } else {
        assert(items.take(n) =~= items);
    }
}

proof fn lemma_thinking_items_prefix(raw: Seq<RawApiMessage>, n: int)
    requires
        0 <= n <= raw.len(),
    ensures
        thinking_items(raw.take(n)).len() <= thinking_items(raw).len(),
        thinking_items(raw.take(n)) == thinking_items(raw).take(thinking_items(raw.take(n)).len() as int),
    decreases raw.len() - n,
{
    if n < raw.len() {
        lemma_thinking_items_prefix(raw, n + 1);
        assert(raw.take(n + 1).drop_last() =~= raw.take(n));
        let a = thinking_items(raw.take(n));
        let b = thinking_items(raw.take(n + 1));
        assert(b.take(a.len() as int) =~= a);
        assert(thinking_items(raw).take(a.len() as int) =~= thinking_items(raw).take(
            b.len() as int,
        ).take(a.len() as int));
    } else {
        assert(raw.take(n) =~= raw);
        assert(thinking_items(raw).take(thinking_items(raw).len() as int) =~= thinking_items(raw));
    }
}

/// The thinking blocks of a task's assistant messages: those at least
/// `min_length` long, truncated to `max_length` characters (default 1000, 0
/// for none). The totals (blocks, characters and the average length) count
/// every thinking block of the task, shown or not.
pub fn parse_task_thinking(
    task_id: &str,
    raw: &[RawApiMessage],
    timestamps: &[Option<String>],
    max_length: Option<usize>,
    min_length: Option<usize>,
) -> (r: ThinkingBlocksResponse)
    requires
        timestamps@.len() == raw@.len(),
        total_length(thinking_items(raw@)) <= usize::MAX,
        thinking_items(raw@).len() <= usize::MAX,
    ensures
        ({
            let items = thinking_items(raw@);
            let shown = long_enough(items, min_length);
            let max = match max_length {
                Some(m) => m,
                None => 1000usize,
            };
            &&& r.task_id@ == task_id@
            &&& r.total_thinking_blocks == items.len()
            &&& r.total_characters == total_length(items)
            &&& r.avg_block_length == (if items.len() > 0 {
                total_length(items) / items.len()
            } else {
                0
            })
            &&& r.thinking_blocks@.len() == shown.len()
            &&& forall|i: int|
                0 <= i < shown.len() ==> entry_shows(
                    #[trigger] r.thinking_blocks@[i],
                    i,
                    shown[i],
                    timestamps@,
                    max,
                )
            &&& forall|i: int|
                0 <= i < shown.len() ==> {
                    let b = #[trigger] r.thinking_blocks@[i];
                    &&& b.full_length == shown[i].1.len()
                    &&& b.is_truncated == (max > 0 && b.full_length > max)
                    &&& (!b.is_truncated ==> b.thinking@ == shown[i].1)
                    &&& (b.is_truncated ==> b.thinking@.len() <= max)
                }
        }),
        max_length == Some(0usize) ==> forall|i: int|
            0 <= i < r.thinking_blocks@.len() ==> !(#[trigger] r.thinking_blocks@[i]).is_truncated
                && r.thinking_blocks@[i].thinking@.len() == r.thinking_blocks@[i].full_length,
{
    let max: usize = match max_length {
        Some(m) => m,
        None => 1000,
    };
    let ghost all_items = thinking_items(raw@);
    let mut blocks: Vec<ThinkingBlockEntry> = Vec::new();
    let mut total: usize = 0;
    let mut seen: usize = 0;
    let mut i: usize = 0;
    assert(thinking_items(raw@.take(0)) =~= Seq::<(nat, Seq<char>)>::empty());
    while i < raw.len()
        invariant
            i <= raw@.len() == timestamps@.len(),
            all_items == thinking_items(raw@),
            total_length(all_items) <= usize::MAX,
            all_items.len() <= usize::MAX,
            total == total_length(thinking_items(raw@.take(i as int))),
            seen == thinking_items(raw@.take(i as int)).len(),
            blocks@.len() == long_enough(thinking_items(raw@.take(i as int)), min_length).len(),
            forall|k: int|
                0 <= k < blocks@.len() ==> entry_shows(
                    #[trigger] blocks@[k],
                    k,
                    long_enough(thinking_items(raw@.take(i as int)), min_length)[k],
                    timestamps@,
                    max,
                ),
        decreases raw@.len() - i,
    {
        let msg = &raw[i];
        let ghost base = thinking_items(raw@.take(i as int));
        proof {
            assert(raw@.take(i + 1).drop_last() =~= raw@.take(i as int));
            assert(raw@.take(i + 1).last() == raw@[i as int]);
            lemma_thinking_items_prefix(raw@, i + 1);
            lemma_total_prefix(all_items, thinking_items(raw@.take(i + 1)).len() as int);
        }
        if same_text(msg.role.as_str(), "assistant") {
            let ghost full = thinking_in(msg.content@, i as nat);
            proof {
                assert(thinking_items(raw@.take(i + 1)) == base + full);
            }
            let mut j: usize = 0;
            assert(thinking_in(msg.content@.take(0), i as nat) =~= Seq::<(nat, Seq<char>)>::empty());
            assert(base + Seq::<(nat, Seq<char>)>::empty() =~= base);
            while j < msg.content.len()
                invariant
                    j <= msg.content@.len(),
                    i < raw@.len() == timestamps@.len(),
                    *msg == raw@[i as int],
                    full == thinking_in(msg.content@, i as nat),
                    total_length(base + full) <= usize::MAX,
                    (base + full).len() <= usize::MAX,
                    total == total_length(base + thinking_in(msg.content@.take(j as int), i as nat)),
                    seen == (base + thinking_in(msg.content@.take(j as int), i as nat)).len(),
                    blocks@.len() == long_enough(
                        base + thinking_in(msg.content@.take(j as int), i as nat),
                        min_length,
                    ).len(),
                    forall|k: int|
                        0 <= k < blocks@.len() ==> entry_shows(
                            #[trigger] blocks@[k],
                            k,
                            long_enough(
                                base + thinking_in(msg.content@.take(j as int), i as nat),
                                min_length,
                            )[k],
                            timestamps@,
                            max,
                        ),
                decreases msg.content@.len() - j,
            {
                let ghost cur = base + thinking_in(msg.content@.take(j as int), i as nat);
                let ghost t1 = msg.content@.take(j + 1);
                proof {
                    assert(t1.drop_last() =~= msg.content@.take(j as int));
                    assert(t1.last() == msg.content@[j as int]);
                }
                match &msg.content[j] {
                    RawContentBlock::Thinking { thinking } => {
                        let full_length = char_count(thinking.as_str());
                        let ghost nxt = cur.push((i as nat, thinking@));
                        proof {
                            assert(base + thinking_in(t1, i as nat) =~= nxt);
                            assert(nxt.drop_last() =~= cur);
                            lemma_prefix_of_thinking(msg.content@, i as nat, j as int + 1);
                            assert(thinking_in(msg.content@, i as nat).take(
                                thinking_in(t1, i as nat).len() as int,
                            ) == thinking_in(t1, i as nat));
                            lemma_total_prefix(base + full, nxt.len() as int);
                            assert((base + full).take(nxt.len() as int) =~= nxt);
                        }
                        total = total + full_length;
                        seen = seen + 1;
                        let skip = match min_length {
                            Some(m) => full_length < m,
                            None => false,
                        };
                        if !skip {
                            let truncate = max > 0 && full_length > max;
                            let text = if truncate {
                                truncate_utf8(thinking.as_str(), max)
                            } else {
                                thinking.clone()
                            };
                            let e = ThinkingBlockEntry {
                                block_index: blocks.len(),
                                message_index: i,
                                timestamp: clone_opt_string(&timestamps[i]),
                                thinking: text,
                                full_length,
                                is_truncated: truncate,
                            };
                            blocks.push(e);
                        }
                        proof {
                            let ln = long_enough(nxt, min_length);
                            assert(long_enough(nxt, min_length) == (if !skip {
                                long_enough(cur, min_length).push((i as nat, thinking@))
                            } else {
                                long_enough(cur, min_length)
                            }));
                            assert forall|k: int| 0 <= k < blocks@.len() implies entry_shows(
                                #[trigger] blocks@[k],
                                k,
                                ln[k],
                                timestamps@,
                                max,
                            ) by {
                                if k < long_enough(cur, min_length).len() {
                                    assert(ln[k] == long_enough(cur, min_length)[k]);
                                }
                            }
                        }
                    },
                    _ => {
                        proof {
                            assert(base + thinking_in(t1, i as nat) =~= cur);
                        }
                    },
                }
                j = j + 1;
            }
            assert(msg.content@.take(j as int) =~= msg.content@);
        } else {
            proof {
                assert(thinking_items(raw@.take(i + 1)) =~= base);
            }
        }
        i = i + 1;
    }
    assert(raw@.take(i as int) =~= raw@);
    proof {
        let shown = long_enough(thinking_items(raw@), min_length);
        assert forall|k: int| 0 <= k < shown.len() implies {
            let b = #[trigger] blocks@[k];
            &&& b.full_length == shown[k].1.len()
            &&& b.is_truncated == (max > 0 && b.full_length > max)
            &&& (!b.is_truncated ==> b.thinking@ == shown[k].1)
            &&& (b.is_truncated ==> b.thinking@.len() <= max)
        } by {
            law_thinking_truncation(blocks@[k], k, shown[k], timestamps@, max);
        }
    }
    let avg = if seen > 0 {
        total / seen
    } else {
        0
    };
    ThinkingBlocksResponse {
        task_id: String::from_str(task_id),
        total_thinking_blocks: seen,
        total_characters: total,
        avg_block_length: avg,
        thinking_blocks: blocks,
    }
}

proof fn lemma_prefix_of_thinking(blocks: Seq<RawContentBlock>, idx: nat, n: int)
    requires
        0 <= n <= blocks.len(),
    ensures
        thinking_in(blocks.take(n), idx).len() <= thinking_in(blocks, idx).len(),
        thinking_in(blocks, idx).take(thinking_in(blocks.take(n), idx).len() as int) == thinking_in(
            blocks.take(n),
            idx,
        ),
    decreases blocks.len() - n,
{
    if n < blocks.len() {
        lemma_prefix_of_thinking(blocks, idx, n + 1);
        assert(blocks.take(n + 1).drop_last() =~= blocks.take(n));
        let a = thinking_in(blocks.take(n), idx);
        let b = thinking_in(blocks.take(n + 1), idx);
        assert(b.take(a.len() as int) =~= a);
        assert(thinking_in(blocks, idx).take(a.len() as int) =~= thinking_in(blocks, idx).take(
            b.len() as int,
        ).take(a.len() as int));
    } else {
        assert(blocks.take(n) =~= blocks);
        assert(thinking_in(blocks, idx).take(thinking_in(blocks, idx).len() as int) =~= thinking_in(
            blocks,
            idx,
        ));
    }
}

} // verus!
