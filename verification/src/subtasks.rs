//! Subtask detection: the task prompt and the user feedback of a Cline
//! task split its conversation into subtasks, each a range of API messages.
//!
//! - `say = "task"` in `ui_messages.json`: the initial prompt (subtask 0);
//! - `say = "user_feedback"` with non-blank text: a further subtask.
//!
//! Reading and deserializing the task files is left to the caller, which
//! hands over the UI messages and, for every API message, the names of the
//! tools it calls.

use vstd::prelude::*;
use crate::text::{
    chars_of, insert_sorted_unique, strictly_sorted, strings_view, trim, trim_chars,
};
use crate::util::epoch_ms_to_iso;

verus! {

/// A UI message of `ui_messages.json`, with the fields subtask detection
/// reads.
pub struct RawUiMessage {
    /// Epoch milliseconds.
    pub ts: u64,
    /// The message type ("say", "ask").
    pub msg_type: Option<String>,
    /// The index of the API message this UI message belongs to.
    pub conversation_history_index: Option<i64>,
    /// The "say" sub-type: "task", "user_feedback", "api_req_started", ...
    pub say: Option<String>,
    /// Text content.
    pub text: Option<String>,
}

/// The tool calls of one message of `api_conversation_history.json`: the
/// names of its `tool_use` blocks, in order.
pub struct ApiMessageTools {
    /// Names of the tools called, in order.
    pub tool_names: Vec<String>,
}

/// A task or feedback marker found among the UI messages.
pub struct SubtaskMarker {
    /// The prompt or feedback text.
    pub prompt: String,
    /// Epoch milliseconds.
    pub ts: u64,
    /// The conversation history index (-1 when absent).
    pub conversation_history_index: i64,
    /// Whether this is the initial task prompt.
    pub is_initial: bool,
}

/// A detected subtask within a Cline task conversation.
pub struct SubtaskEntry {
    /// Subtask index (0 = initial task, 1+ = feedback-driven subtasks).
    pub subtask_index: usize,
    /// The subtask prompt text.
    pub prompt: String,
    /// ISO 8601 timestamp when this subtask was issued.
    pub timestamp: String,
    /// Whether this is the initial task (true) or a feedback subtask.
    pub is_initial_task: bool,
    /// First message index in api_conversation_history for this subtask.
    pub message_range_start: usize,
    /// Last message index (inclusive); none when the conversation is empty.
    pub message_range_end: Option<usize>,
    /// Number of API messages in this subtask's range.
    pub message_count: usize,
    /// Number of tool calls within this subtask's message range.
    pub tool_call_count: usize,
    /// Tool names used in this subtask (deduplicated, sorted).
    pub tools_used: Vec<String>,
}

/// Response for GET /history/tasks/:taskId/subtasks.
pub struct SubtasksResponse {
    /// Task ID.
    pub task_id: String,
    /// Total number of subtasks (including the initial task).
    pub total_subtasks: usize,
    /// Whether the task has feedback-driven subtasks (total > 1).
    pub has_subtasks: bool,
    /// The detected subtasks in chronological order.
    pub subtasks: Vec<SubtaskEntry>,
}

/// The value of a marker.
pub ghost struct MarkerSpec {
    pub prompt: Seq<char>,
    pub ts: u64,
    pub index: i64,
    pub is_initial: bool,
}

impl View for SubtaskMarker {
    type V = MarkerSpec;

    open spec fn view(&self) -> MarkerSpec {
        MarkerSpec {
            prompt: self.prompt@,
            ts: self.ts,
            index: self.conversation_history_index,
            is_initial: self.is_initial,
        }
    }
}

/// The values of a sequence of markers.
pub open spec fn markers_view(v: Seq<SubtaskMarker>) -> Seq<MarkerSpec> {
    v.map_values(|m: SubtaskMarker| m@)
}

/// The text of an optional string, empty when absent.
pub open spec fn text_or_empty(t: Option<String>) -> Seq<char> {
    match t {
        Some(s) => s@,
        None => Seq::<char>::empty(),
    }
}

/// The marker a UI message makes, if any.
pub open spec fn marker_of(m: RawUiMessage) -> Option<MarkerSpec> {
    let index = match m.conversation_history_index {
        Some(i) => i,
        None => -1i64,
    };
    match m.say {
        Some(say) => if say@ == "task"@ {
            Some(MarkerSpec { prompt: text_or_empty(m.text), ts: m.ts, index, is_initial: true })
        } else if say@ == "user_feedback"@ && trim(text_or_empty(m.text)).len() > 0 {
            Some(MarkerSpec { prompt: text_or_empty(m.text), ts: m.ts, index, is_initial: false })
        } else {
            None
        },
        None => None,
    }
}

/// The markers among the UI messages, in order.
pub open spec fn markers_of(ms: Seq<RawUiMessage>) -> Seq<MarkerSpec>
    decreases ms.len(),
{
    if ms.len() == 0 {
        Seq::<MarkerSpec>::empty()
    } else {
        let rest = markers_of(ms.drop_last());
        match marker_of(ms.last()) {
            Some(m) => rest.push(m),
            None => rest,
        }
    }
}

/// The tool names of every API message.
pub open spec fn api_tools_view(api: Seq<ApiMessageTools>) -> Seq<Seq<Seq<char>>> {
    api.map_values(|m: ApiMessageTools| strings_view(m.tool_names@))
}

/// Message `k` lies in the window that `count_tools_in_range` scans.
pub open spec fn in_tool_window(len: nat, start: nat, range_end: nat, k: int) -> bool {
    start <= k && k <= range_end && k < len
}

/// The number of tool calls among the messages before `hi` in the window.
pub open spec fn tool_calls_upto(
    msgs: Seq<Seq<Seq<char>>>,
    start: nat,
    range_end: nat,
    hi: int,
) -> nat
    decreases hi,
{
    if hi <= 0 {
        0
    } else {
        let k = hi - 1;
        tool_calls_upto(msgs, start, range_end, k) + if in_tool_window(
            msgs.len(),
            start,
            range_end,
            k,
        ) {
            msgs[k].len()
        } else {
            0
        }
    }
}

/// The number of tool calls in the window.
pub open spec fn tool_calls_in(msgs: Seq<Seq<Seq<char>>>, start: nat, range_end: nat) -> nat {
    tool_calls_upto(msgs, start, range_end, msgs.len() as int)
}

/// The names of the tools called in the window.
pub open spec fn tools_in(msgs: Seq<Seq<Seq<char>>>, start: nat, range_end: nat) -> Set<
    Seq<char>,
> {
    Set::new(
        |x: Seq<char>|
            exists|k: int, j: int|
                in_tool_window(msgs.len(), start, range_end, k) && 0 <= j < msgs[k].len()
                    && msgs[k][j] == x,
    )
}

/// All tool calls of the conversation.
pub open spec fn total_tool_calls(msgs: Seq<Seq<Seq<char>>>) -> nat {
    tool_calls_in(msgs, 0, msgs.len())
}

proof fn lemma_tool_calls_monotone(
    msgs: Seq<Seq<Seq<char>>>,
    start: nat,
    range_end: nat,
    hi: int,
    hi2: int,
)
    requires
        hi <= hi2,
    ensures
        tool_calls_upto(msgs, start, range_end, hi) <= tool_calls_upto(msgs, start, range_end, hi2),
    decreases hi2 - hi,
{
    if hi < hi2 {
        lemma_tool_calls_monotone(msgs, start, range_end, hi, hi2 - 1);
    }
}

proof fn lemma_tool_calls_window_le_total(
    msgs: Seq<Seq<Seq<char>>>,
    start: nat,
    range_end: nat,
    hi: int,
)
    requires
        hi <= msgs.len(),
    ensures
        tool_calls_upto(msgs, start, range_end, hi) <= tool_calls_upto(msgs, 0, msgs.len(), hi),
    decreases hi,
{
    if hi > 0 {
        lemma_tool_calls_window_le_total(msgs, start, range_end, hi - 1);
    }
}

/// Extract the task and feedback markers from the UI messages: `say =
/// "task"` gives the initial marker, `say = "user_feedback"` with non-blank
/// text a further one; an absent index counts as -1.
pub fn extract_subtask_markers(ui_messages: &[RawUiMessage]) -> (r: Vec<SubtaskMarker>)
    ensures
        markers_view(r@) == markers_of(ui_messages@),
{
    let task = chars_of("task");
    let feedback = chars_of("user_feedback");
    let mut r: Vec<SubtaskMarker> = Vec::new();
    let mut i: usize = 0;
    while i < ui_messages.len()
        invariant
            i <= ui_messages@.len(),
            task@ == "task"@,
            feedback@ == "user_feedback"@,
            markers_view(r@) == markers_of(ui_messages@.take(i as int)),
        decreases ui_messages@.len() - i,
    {
        let ghost pre = ui_messages@.take(i + 1);
        proof {
            assert(pre.drop_last() =~= ui_messages@.take(i as int));
            assert(pre.last() == ui_messages@[i as int]);
        }
        let msg = &ui_messages[i];
        let index = match msg.conversation_history_index {
            Some(x) => x,
            None => -1,
        };
        let text = match &msg.text {
            Some(t) => t.clone(),
            None => String::new(),
        };
        match &msg.say {
            Some(say) => {
                let sc = chars_of(say.as_str());
                if crate::text::chars_eq(&sc, &task) {
                    let ghost before = markers_view(r@);
                    r.push(SubtaskMarker {
                        prompt: text,
                        ts: msg.ts,
                        conversation_history_index: index,
                        is_initial: true,
                    });
                    assert(markers_view(r@) =~= before.push(marker_of(*msg)->0));
                } else if crate::text::chars_eq(&sc, &feedback) {
                    let tc = chars_of(text.as_str());
                    let trimmed = trim_chars(&tc);
                    if trimmed.len() > 0 {
                        let ghost before = markers_view(r@);
                        r.push(SubtaskMarker {
                            prompt: text,
                            ts: msg.ts,
                            conversation_history_index: index,
                            is_initial: false,
                        });
                        assert(markers_view(r@) =~= before.push(marker_of(*msg)->0));
                    }
                }
            },
            None => {},
        }
        i = i + 1;
    }
    assert(ui_messages@.take(ui_messages@.len() as int) =~= ui_messages@);
    r
}

/// Count the tool calls in the messages from `range_start` to `range_end`
/// (inclusive, clipped to the conversation), with the names of the tools
/// used, deduplicated and sorted.
pub fn count_tools_in_range(
    api_messages: &[ApiMessageTools],
    range_start: usize,
    range_end: usize,
) -> (r: (usize, Vec<String>))
    requires
        total_tool_calls(api_tools_view(api_messages@)) <= usize::MAX,
    ensures
        r.0 as nat == tool_calls_in(
            api_tools_view(api_messages@),
            range_start as nat,
            range_end as nat,
        ),
        strictly_sorted(strings_view(r.1@)),
        strings_view(r.1@).to_set() == tools_in(
            api_tools_view(api_messages@),
            range_start as nat,
            range_end as nat,
        ),
{
    let ghost msgs = api_tools_view(api_messages@);
    let n = api_messages.len();
    let mut count: usize = 0;
    let mut names: Vec<String> = Vec::new();
    let mut k: usize = 0;
    proof {
        lemma_tool_calls_window_le_total(msgs, range_start as nat, range_end as nat, n as int);
    }
    while k < n
        invariant
            k <= n == api_messages@.len(),
            msgs == api_tools_view(api_messages@),
            msgs.len() == n,
            tool_calls_upto(msgs, range_start as nat, range_end as nat, n as int) <= usize::MAX,
            count as nat == tool_calls_upto(msgs, range_start as nat, range_end as nat, k as int),
            strictly_sorted(strings_view(names@)),
            strings_view(names@).to_set() == Set::new(
                |x: Seq<char>|
                    exists|m: int, j: int|
                        in_tool_window(n as nat, range_start as nat, range_end as nat, m) && m < k
                            && 0 <= j < msgs[m].len() && msgs[m][j] == x,
            ),
        decreases n - k,
    {
        let ghost before_set = strings_view(names@).to_set();
        if range_start <= k && k <= range_end {
            let tools = &api_messages[k].tool_names;
            proof {
                lemma_tool_calls_monotone(
                    msgs,
                    range_start as nat,
                    range_end as nat,
                    k + 1,
                    n as int,
                );
                assert(msgs[k as int] == strings_view(tools@));
            }
            count = count + tools.len();
            let mut j: usize = 0;
            while j < tools.len()
                invariant
                    j <= tools@.len(),
                    strictly_sorted(strings_view(names@)),
                    strings_view(names@).to_set() == before_set.union(
                        strings_view(tools@).take(j as int).to_set(),
                    ),
                decreases tools@.len() - j,
            {
                let ghost s0 = strings_view(names@).to_set();
                insert_sorted_unique(&mut names, tools[j].clone());
                proof {
                    assert(strings_view(tools@).take(j + 1) =~= strings_view(tools@).take(
                        j as int,
                    ).push(tools@[j as int]@));
                    strings_view(tools@).take(j as int).lemma_push_to_set_commute(
                        tools@[j as int]@,
                    );
                    assert(strings_view(names@).to_set() =~= before_set.union(
                        strings_view(tools@).take(j + 1).to_set(),
                    ));
                }
                j = j + 1;
            }
            proof {
                assert(strings_view(tools@).take(tools@.len() as int) =~= strings_view(tools@));
                assert forall|x: Seq<char>|
                    strings_view(names@).to_set().contains(x) == (exists|m: int, j: int|
                        in_tool_window(n as nat, range_start as nat, range_end as nat, m) && m
                            < k + 1 && 0 <= j < msgs[m].len() && msgs[m][j] == x) by {
                    if strings_view(tools@).to_set().contains(x) {
                        let jj = choose|jj: int|
                            0 <= jj < strings_view(tools@).len() && strings_view(tools@)[jj] == x;
                        assert(msgs[k as int][jj] == x);
                    }
                    if exists|m: int, j: int|
                        in_tool_window(n as nat, range_start as nat, range_end as nat, m) && m < k
                            + 1 && 0 <= j < msgs[m].len() && msgs[m][j] == x {
                        let (m, jj) = choose|m: int, j: int|
                            in_tool_window(n as nat, range_start as nat, range_end as nat, m) && m
                                < k + 1 && 0 <= j < msgs[m].len() && msgs[m][j] == x;
                        if m == k {
                            assert(strings_view(tools@)[jj] == x);
                        }
                    }
                }
                assert(strings_view(names@).to_set() =~= Set::new(
                    |x: Seq<char>|
                        exists|m: int, j: int|
                            in_tool_window(n as nat, range_start as nat, range_end as nat, m) && m
                                < k + 1 && 0 <= j < msgs[m].len() && msgs[m][j] == x,
                ));
            }
        } else {
            proof {
                assert(strings_view(names@).to_set() =~= Set::new(
                    |x: Seq<char>|
                        exists|m: int, j: int|
                            in_tool_window(n as nat, range_start as nat, range_end as nat, m) && m
                                < k + 1 && 0 <= j < msgs[m].len() && msgs[m][j] == x,
                ));
            }
        }
        k = k + 1;
    }
    proof {
        assert(strings_view(names@).to_set() =~= tools_in(
            msgs,
            range_start as nat,
            range_end as nat,
        ));
    }
    (count, names)
}

/// The first message of a subtask: 0 for the initial task, else the
/// message after the feedback's index.
pub open spec fn subtask_start(m: MarkerSpec) -> nat {
    if m.is_initial || m.index < 0 {
        0
    } else {
        (m.index + 1) as nat
    }
}

/// The last message of a conversation of `total` messages, if any.
pub open spec fn last_message(total: nat) -> Option<nat> {
    if total > 0 {
        Some((total - 1) as nat)
    } else {
        None
    }
}

/// The last message (inclusive) of subtask `i`: the index of the next
/// marker, or the end of the conversation for the last subtask.
pub open spec fn subtask_end(ms: Seq<MarkerSpec>, i: int, total: nat) -> Option<nat> {
    if i + 1 < ms.len() {
        if ms[i + 1].index < 0 {
            last_message(total)
        } else {
            Some(ms[i + 1].index as nat)
        }
    } else {
        last_message(total)
    }
}

/// The number of messages from `start` to `end` (inclusive).
pub open spec fn range_count(start: nat, end: Option<nat>) -> nat {
    match end {
        Some(e) => if e >= start {
            (e - start + 1) as nat
        } else {
            0
        },
        None => 0,
    }
}

/// The entry for subtask `i`, but for its timestamp.
pub open spec fn entry_fields_match(
    e: SubtaskEntry,
    ms: Seq<MarkerSpec>,
    i: int,
    msgs: Seq<Seq<Seq<char>>>,
) -> bool {
    let start = subtask_start(ms[i]);
    let end = subtask_end(ms, i, msgs.len());
    let window_end: nat = match end {
        Some(x) => x,
        None => 0,
    };
    &&& e.subtask_index == i
    &&& e.prompt@ == ms[i].prompt
    &&& e.is_initial_task == ms[i].is_initial
    &&& e.message_range_start == start
    &&& e.message_range_end == (match end {
        Some(x) => Some(x as usize),
        None => None::<usize>,
    })
    &&& e.message_count == range_count(start, end)
    &&& e.tool_call_count == tool_calls_in(msgs, start, window_end)
    &&& strictly_sorted(strings_view(e.tools_used@))
    &&& strings_view(e.tools_used@).to_set() == tools_in(msgs, start, window_end)
}

/// Whether the entry's message count is the size of its inclusive message
/// range: `end - start + 1` when the range ends at or after its start, 0
/// when it ends before it or has no end.
pub open spec fn counts_its_range(e: SubtaskEntry) -> bool {
    match e.message_range_end {
        Some(end) => if end >= e.message_range_start {
            e.message_count == end - e.message_range_start + 1
        } else {
            e.message_count == 0
        },
        None => e.message_count == 0,
    }
}

/// A subtask's message count is the number of messages in its inclusive
/// range `message_range_start..=message_range_end` (0 for an empty or
/// missing range).
pub proof fn law_subtask_count_is_its_range(
    e: SubtaskEntry,
    ms: Seq<MarkerSpec>,
    i: int,
    msgs: Seq<Seq<Seq<char>>>,
)
    requires
        0 <= i < ms.len(),
        indexes_fit(ms),
        msgs.len() <= usize::MAX,
        entry_fields_match(e, ms, i, msgs),
    ensures
        counts_its_range(e),
{
    if i + 1 < ms.len() {
        assert(ms[i + 1].index < usize::MAX);
    }
}

/// The history indexes fit in a `usize` (the range arithmetic converts
/// them).
pub open spec fn indexes_fit(ms: Seq<MarkerSpec>) -> bool {
    forall|i: int| 0 <= i < ms.len() ==> (#[trigger] ms[i]).index < usize::MAX
}

/// Build the subtask entries from the markers, the timestamp text of each
/// marker and the tool calls of every API message.
pub fn build_subtasks(
    task_id: &str,
    markers: &[SubtaskMarker],
    timestamps: &[String],
    api_messages: &[ApiMessageTools],
) -> (r: SubtasksResponse)
    requires
        timestamps@.len() == markers@.len(),
        indexes_fit(markers_view(markers@)),
        total_tool_calls(api_tools_view(api_messages@)) <= usize::MAX,
    ensures
        r.task_id@ == task_id@,
        r.total_subtasks == markers@.len(),
        r.has_subtasks == (markers@.len() > 1),
        r.subtasks@.len() == markers@.len(),
        forall|i: int|
            0 <= i < markers@.len() ==> {
                &&& entry_fields_match(
                    #[trigger] r.subtasks@[i],
                    markers_view(markers@),
                    i,
                    api_tools_view(api_messages@),
                )
                &&& r.subtasks@[i].timestamp@ == timestamps@[i]@
            },
        forall|i: int| 0 <= i < r.subtasks@.len() ==> counts_its_range(#[trigger] r.subtasks@[i]),
{
    let ghost ms = markers_view(markers@);
    let ghost msgs = api_tools_view(api_messages@);
    let total = api_messages.len();
    let n = markers.len();
    let mut subtasks: Vec<SubtaskEntry> = Vec::new();
    let mut i: usize = 0;
    while i < n
        invariant
            i <= n == markers@.len() == timestamps@.len(),
            ms == markers_view(markers@),
            msgs == api_tools_view(api_messages@),
            total == msgs.len(),
            indexes_fit(ms),
            total_tool_calls(msgs) <= usize::MAX,
            subtasks@.len() == i,
            forall|j: int|
                0 <= j < i ==> {
                    &&& entry_fields_match(#[trigger] subtasks@[j], ms, j, msgs)
                    &&& subtasks@[j].timestamp@ == timestamps@[j]@
                },
        decreases n - i,
    {
        let marker = &markers[i];
        assert(ms[i as int] == marker@);
        assert(marker.conversation_history_index < usize::MAX);
        let range_start: usize = if marker.is_initial {
            0
        } else {
            let idx = marker.conversation_history_index;
            if idx < 0 {
                0
            } else {
                (idx as usize) + 1
            }
        };
        let last: Option<usize> = if total > 0 {
            Some(total - 1)
        } else {
            None
        };
        let range_end: Option<usize> = if i + 1 < n {
            let next_idx = markers[i + 1].conversation_history_index;
            assert(ms[i + 1] == markers@[i + 1]@);
            if next_idx < 0 {
                last
            } else {
                Some(next_idx as usize)
            }
        } else {
            last
        };
        let message_count: usize = match range_end {
            Some(end) => if end >= range_start {
                end - range_start + 1
            } else {
                0
            },
            None => 0,
        };
        let window_end: usize = match range_end {
            Some(x) => x,
            None => 0,
        };
        let (tool_call_count, tools_used) = count_tools_in_range(
            api_messages,
            range_start,
            window_end,
        );
        subtasks.push(
            SubtaskEntry {
                subtask_index: i,
                prompt: marker.prompt.clone(),
                timestamp: timestamps[i].clone(),
                is_initial_task: marker.is_initial,
                message_range_start: range_start,
                message_range_end: range_end,
                message_count,
                tool_call_count,
                tools_used,
            },
        );
        i = i + 1;
    }
    assert forall|j: int| 0 <= j < subtasks@.len() implies counts_its_range(
        #[trigger] subtasks@[j],
    ) by {
        law_subtask_count_is_its_range(subtasks@[j], ms, j, msgs);
    }
    SubtasksResponse {
        task_id: String::from_str(task_id),
        total_subtasks: n,
        has_subtasks: n > 1,
        subtasks,
    }
}

/// The UI messages' history indexes fit in a `usize`.
pub open spec fn ui_indexes_fit(ui: Seq<RawUiMessage>) -> bool {
    forall|i: int|
        0 <= i < ui.len() ==> ((#[trigger] ui[i]).conversation_history_index matches Some(x)
            ==> x < usize::MAX)
}

proof fn lemma_markers_fit(ui: Seq<RawUiMessage>)
    requires
        ui_indexes_fit(ui),
    ensures
        indexes_fit(markers_of(ui)),
    decreases ui.len(),
{
    if ui.len() > 0 {
        assert(ui_indexes_fit(ui.drop_last())) by {
            assert forall|i: int| 0 <= i < ui.drop_last().len() implies ((#[trigger] ui.drop_last()[
                i
            ]).conversation_history_index matches Some(x) ==> x < usize::MAX) by {
                assert(ui.drop_last()[i] == ui[i]);
            }
        }
        lemma_markers_fit(ui.drop_last());
        assert(ui.last() == ui[ui.len() - 1]);
    }
}

/// Detect the subtasks of a task from its UI messages and the tool calls of
/// its API messages. Subtask `i` covers the messages from its start (0, or
/// the message after its feedback) to the index of the next marker (or the
/// end of the conversation). The timestamps are the markers' times in local
/// time (ISO 8601).
pub fn parse_task_subtasks(
    task_id: &str,
    ui_messages: &[RawUiMessage],
    api_messages: &[ApiMessageTools],
) -> (r: SubtasksResponse)
    requires
        ui_indexes_fit(ui_messages@),
        total_tool_calls(api_tools_view(api_messages@)) <= usize::MAX,
    ensures
        r.task_id@ == task_id@,
        r.total_subtasks == markers_of(ui_messages@).len(),
        r.has_subtasks == (markers_of(ui_messages@).len() > 1),
        r.subtasks@.len() == markers_of(ui_messages@).len(),
        forall|i: int|
            0 <= i < r.subtasks@.len() ==> entry_fields_match(
                #[trigger] r.subtasks@[i],
                markers_of(ui_messages@),
                i,
                api_tools_view(api_messages@),
            ),
        forall|i: int| 0 <= i < r.subtasks@.len() ==> counts_its_range(#[trigger] r.subtasks@[i]),
{
    let markers = extract_subtask_markers(ui_messages);
    proof {
        lemma_markers_fit(ui_messages@);
    }
    let mut timestamps: Vec<String> = Vec::new();
    let mut i: usize = 0;
    while i < markers.len()
        invariant
            i <= markers@.len(),
            timestamps@.len() == i,
        decreases markers@.len() - i,
    {
        timestamps.push(epoch_ms_to_iso(markers[i].ts));
        i = i + 1;
    }
    build_subtasks(task_id, &markers, &timestamps, api_messages)
}

} // verus!
