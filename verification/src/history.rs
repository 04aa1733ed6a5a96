//! Conversation history views: the task list and its filters, the files a
//! task held in context, and the summaries of a task's API messages.
//!
//! Cline stores each task under `tasks/<task-id>/`; reading and
//! deserializing those files is left to the caller, which hands over their
//! content as values of the types below.

use vstd::prelude::*;
use crate::text::{chars_eq, chars_of, contains_chars, contains_sub};

verus! {

/// Summary of a single Cline task.
pub struct TaskHistorySummary {
    /// Task ID (directory name, epoch milliseconds).
    pub task_id: String,
    /// ISO 8601 timestamp derived from task_id (task start time).
    pub started_at: String,
    /// ISO 8601 timestamp of the last UI message (task end time).
    pub ended_at: Option<String>,
    /// Total number of API messages (user + assistant turns).
    pub message_count: usize,
    /// Number of tool_use blocks across all assistant messages.
    pub tool_use_count: usize,
    /// Number of thinking blocks.
    pub thinking_count: usize,
    /// Tool usage breakdown: (tool name, count).
    pub tool_breakdown: Vec<(String, usize)>,
    /// Model ID used.
    pub model_id: Option<String>,
    /// Model provider id.
    pub model_provider: Option<String>,
    /// Number of files in context.
    pub files_in_context: usize,
    /// Files edited by Cline.
    pub files_edited: usize,
    /// Files read by Cline.
    pub files_read: usize,
    /// Cline version that created the task.
    pub cline_version: Option<String>,
    /// Size of api_conversation_history.json in bytes.
    pub api_history_size_bytes: u64,
    /// Size of ui_messages.json in bytes.
    pub ui_messages_size_bytes: u64,
    /// Whether a focus_chain markdown file exists for the task.
    pub has_focus_chain: bool,
    /// First user message text (truncated to 200 chars).
    pub task_prompt: Option<String>,
}

/// Response for GET /history/tasks.
pub struct TaskHistoryListResponse {
    /// Task summaries (newest first).
    pub tasks: Vec<TaskHistorySummary>,
    /// Total number of task directories found.
    pub total_tasks: usize,
    /// Total size of all api_conversation_history.json files (bytes).
    pub total_api_history_bytes: u64,
    /// Root path that was scanned.
    pub tasks_root: String,
    /// Aggregate tool usage across all tasks: (tool name, count).
    pub aggregate_tool_breakdown: Vec<(String, usize)>,
    /// Total tool calls across all tasks.
    pub total_tool_calls: usize,
    /// Total messages across all tasks.
    pub total_messages: usize,
}

/// Query parameters for GET /history/tasks.
pub struct HistoryTasksQuery {
    /// Force a re-scan from disk.
    pub refresh: Option<bool>,
    /// Filter by model_id (substring).
    pub model: Option<String>,
    /// Limit the number of results.
    pub limit: Option<usize>,
    /// Offset for pagination.
    pub offset: Option<usize>,
}

/// Query parameters for GET /history/stats.
pub struct HistoryStatsQuery {
    /// Force a re-scan from disk.
    pub refresh: Option<bool>,
}

/// Error response for history endpoints.
#[derive(Debug)]
pub struct HistoryErrorResponse {
    pub error: String,
    pub code: u16,
}

/// A file tracked by Cline during the task (from task_metadata.json).
pub struct FileInContextDetail {
    /// File path (relative).
    pub path: String,
    /// Record state: "active" or "stale".
    pub record_state: Option<String>,
    /// Record source: "file_mentioned", "read_tool", "cline_edited", "user_edited".
    pub record_source: Option<String>,
    /// ISO 8601 timestamp when Cline read this file.
    pub cline_read_date: Option<String>,
    /// ISO 8601 timestamp when Cline edited this file.
    pub cline_edit_date: Option<String>,
    /// ISO 8601 timestamp when the user edited this file.
    pub user_edit_date: Option<String>,
}

/// Response for GET /history/tasks/:taskId/files.
pub struct TaskFilesResponse {
    /// Task ID.
    pub task_id: String,
    /// Number of files in context (before filtering).
    pub total_files: usize,
    /// Files edited by Cline.
    pub files_edited_count: usize,
    /// Files read by Cline.
    pub files_read_count: usize,
    /// Files mentioned by the user.
    pub files_mentioned_count: usize,
    /// Files edited by the user.
    pub files_user_edited_count: usize,
    /// The files that pass the filters.
    pub files: Vec<FileInContextDetail>,
}

/// Query parameters for GET /history/tasks/:taskId/files.
pub struct TaskFilesQuery {
    /// Filter by record state.
    pub state: Option<String>,
    /// Filter by record source.
    pub source: Option<String>,
}

/// The text of an optional string.
pub open spec fn opt_str(o: Option<String>) -> Option<Seq<char>> {
    match o {
        Some(s) => Some(s@),
        None => None,
    }
}

// ---------------------------------------------------------------------------
// Task list filters
// ---------------------------------------------------------------------------

/// The task's model id contains the filter text.
pub open spec fn task_matches_model(t: TaskHistorySummary, model: Seq<char>) -> bool {
    match t.model_id {
        Some(id) => contains_sub(id@, model),
        None => false,
    }
}

/// The tasks whose model id contains the filter text, in order.
pub open spec fn tasks_with_model(ts: Seq<TaskHistorySummary>, model: Seq<char>) -> Seq<
    TaskHistorySummary,
>
    decreases ts.len(),
{
    if ts.len() == 0 {
        Seq::<TaskHistorySummary>::empty()
    } else {
        let rest = tasks_with_model(ts.drop_last(), model);
        if task_matches_model(ts.last(), model) {
            rest.push(ts.last())
        } else {
            rest
        }
    }
}

/// The page of `ts` that starts at `offset` and holds at most `limit`
/// entries.
pub open spec fn page_of<A>(ts: Seq<A>, offset: nat, limit: Option<nat>) -> Seq<A> {
    let after = if offset < ts.len() {
        ts.skip(offset as int)
    } else {
        Seq::<A>::empty()
    };
    match limit {
        Some(l) => if l < after.len() {
            after.take(l as int)
        } else {
            after
        },
        None => after,
    }
}

/// Pages tile the list: the page of `a` items at `offset` followed by the
/// page of `b` items right after it is the page of `a + b` items at
/// `offset`. So paging with `offset` stepping by `limit` shows every item
/// once, in order; a page that is short of `limit` is the last one.
pub proof fn law_pages_tile<A>(ts: Seq<A>, offset: nat, a: nat, b: nat)
    ensures
        page_of(ts, offset, Some(a)) + page_of(ts, offset + a, Some(b)) == page_of(
            ts,
            offset,
            Some(a + b),
        ),
        page_of(ts, offset, Some(a)).len() < a ==> page_of(ts, offset + a, Some(b)).len() == 0,
{
    if offset < ts.len() {
        let after = ts.skip(offset as int);
        if a < after.len() {
            assert(ts.skip((offset + a) as int) =~= after.skip(a as int));
            if b < after.len() - a {
                assert(after.take(a as int) + after.skip(a as int).take(b as int) =~= after.take(
                    (a + b) as int,
                ));
            } else {
                assert(after.take(a as int) + after.skip(a as int) =~= after);
            }
        }
    }
}

/// Whether the task's model id contains the filter text.
fn task_has_model(t: &TaskHistorySummary, model: &[char]) -> (b: bool)
    ensures
        b == task_matches_model(*t, model@),
{
    match &t.model_id {
        Some(id) => {
            let c = chars_of(id.as_str());
            contains_chars(&c, model)
        },
        None => false,
    }
}

/// Whether the filter text occurs in the task's model id, at any position.
pub open spec fn model_id_has_text(t: TaskHistorySummary, m: Seq<char>) -> bool {
    match t.model_id {
        Some(id) => exists|k: int|
            0 <= k && k + m.len() <= id@.len() && #[trigger] id@.subrange(k, k + m.len()) == m,
        None => false,
    }
}

/// The model filter keeps exactly the tasks whose model id contains the
/// filter text somewhere (not only at its start), in their order: every
/// task with such a model id is kept, and every kept task has one.
pub proof fn law_model_filter_keeps_substring_matches(ts: Seq<TaskHistorySummary>, m: Seq<char>)
    ensures
        forall|i: int|
            0 <= i < ts.len() && model_id_has_text(#[trigger] ts[i], m) ==> tasks_with_model(
                ts,
                m,
            ).contains(ts[i]),
        forall|j: int|
            0 <= j < tasks_with_model(ts, m).len() ==> model_id_has_text(
                #[trigger] tasks_with_model(ts, m)[j],
                m,
            ),
    decreases ts.len(),
{
    if ts.len() > 0 {
        let d = ts.drop_last();
        law_model_filter_keeps_substring_matches(d, m);
        let rest = tasks_with_model(d, m);
        let t = ts.last();
        assert forall|i: int| 0 <= i < ts.len() && model_id_has_text(#[trigger] ts[i], m) implies tasks_with_model(
            ts,
            m,
        ).contains(ts[i]) by {
            let id = ts[i].model_id->0;
            let k = choose|k: int|
                0 <= k && k + m.len() <= id@.len() && #[trigger] id@.subrange(k, k + m.len()) == m;
            assert(crate::text::occurs_at(id@, m, k));
            assert(task_matches_model(ts[i], m));
            if i < d.len() {
                assert(d[i] == ts[i]);
                assert(rest.contains(d[i]));
                let w = choose|w: int| 0 <= w < rest.len() && rest[w] == d[i];
                if task_matches_model(t, m) {
                    assert(rest.push(t)[w] == d[i]);
                }
            } else {
                assert(ts[i] == t);
                assert(rest.push(t)[rest.len() as int] == t);
            }
        }
        assert forall|j: int| 0 <= j < tasks_with_model(ts, m).len() implies model_id_has_text(
            #[trigger] tasks_with_model(ts, m)[j],
            m,
        ) by {
            let f = tasks_with_model(ts, m);
            if j < rest.len() {
                assert(f[j] == rest[j]);
            } else {
                assert(f[j] == t);
                assert(task_matches_model(t, m));
                let id = t.model_id->0;
                let k = choose|k: int| crate::text::occurs_at(id@, m, k);
                assert(id@.subrange(k, k + m.len()) == m);
            }
        }
    }
}

/// Apply the optional query filters to a task list: keep the tasks whose
/// model id contains `model`, then skip `offset` tasks and keep at most
/// `limit`. `total_tasks` stays the number of task directories found.
pub fn apply_filters(response: TaskHistoryListResponse, params: &HistoryTasksQuery) -> (r:
    TaskHistoryListResponse)
    ensures
        ({
            let filtered = match params.model {
                Some(m) => tasks_with_model(response.tasks@, m@),
                None => response.tasks@,
            };
            &&& r.tasks@ == page_of(
                filtered,
                match params.offset {
                    Some(o) => o as nat,
                    None => 0,
                },
                match params.limit {
                    Some(l) => Some(l as nat),
                    None => None::<nat>,
                },
            )
        }),
        r.total_tasks == response.total_tasks,
        params.offset is None && params.limit is None ==> (params.model matches Some(m) ==> (forall|
            i: int,
        |
            0 <= i < response.tasks@.len() && model_id_has_text(#[trigger] response.tasks@[i], m@)
                ==> r.tasks@.contains(response.tasks@[i]))),
        params.model matches Some(m) ==> (forall|j: int|
            0 <= j < r.tasks@.len() ==> model_id_has_text(#[trigger] r.tasks@[j], m@)),
        r.total_api_history_bytes == response.total_api_history_bytes,
        r.tasks_root == response.tasks_root,
        r.aggregate_tool_breakdown == response.aggregate_tool_breakdown,
        r.total_tool_calls == response.total_tool_calls,
        r.total_messages == response.total_messages,
{
    let ghost given = response.tasks@;
    let mut response = response;
    match &params.model {
        Some(model) => {
            let m = chars_of(model.as_str());
            let mut kept: Vec<TaskHistorySummary> = Vec::new();
            let mut tasks = Vec::new();
            std::mem::swap(&mut tasks, &mut response.tasks);
            let ghost all = tasks@;
            let n = tasks.len();
            let mut i: usize = 0;
            while tasks.len() > 0
                invariant
                    i <= all.len() == n,
                    tasks@ == all.skip(i as int),
                    m@ == model@,
                    kept@ == tasks_with_model(all.take(i as int), model@),
                decreases tasks@.len(),
            {
                let t = tasks.remove(0);
                let ghost pre = all.take(i + 1);
                proof {
                    assert(pre.drop_last() =~= all.take(i as int));
                    assert(pre.last() == all[i as int]);
                    assert(all.skip(i as int)[0] == all[i as int]);
                }
                if task_has_model(&t, &m) {
                    kept.push(t);
                }
                i = i + 1;
                assert(tasks@ =~= all.skip(i as int));
            }
            assert(all.take(i as int) =~= all);
            response.tasks = kept;
        },
        None => {},
    }
    let offset = match params.offset {
        Some(o) => o,
        None => 0,
    };
    let ghost filtered = response.tasks@;
    if offset > 0 && offset < response.tasks.len() {
        response.tasks = response.tasks.split_off(offset);
    } else if offset >= response.tasks.len() {
        response.tasks.clear();
    }
    proof {
        if offset == 0 {
            assert(filtered.skip(0) =~= filtered);
        }
        if offset < filtered.len() {
            assert(response.tasks@ =~= filtered.skip(offset as int));
        }
    }
    match params.limit {
        Some(limit) => {
            response.tasks.truncate(limit);
        },
        None => {},
    }
    proof {
        let after = if offset < filtered.len() {
            filtered.skip(offset as int)
        } else {
            Seq::<TaskHistorySummary>::empty()
        };
        match params.limit {
            Some(l) => {
                if l >= after.len() {
                    assert(response.tasks@ =~= after);
                }
            },
            None => {},
        }
        if params.model is Some {
            let m = params.model->0;
            {
                law_model_filter_keeps_substring_matches(given, m@);
                assert(filtered == tasks_with_model(given, m@));
                assert forall|j: int| 0 <= j < response.tasks@.len() implies model_id_has_text(
                    #[trigger] response.tasks@[j],
                    m@,
                ) by {
                    assert(after[j] == filtered[offset + j]);
                    assert(response.tasks@[j] == after[j]);
                }
                if params.offset is None && params.limit is None {
                    assert(response.tasks@ =~= filtered);
                }
            }
        }
    }
    response
}

// ---------------------------------------------------------------------------
// Files in context
// ---------------------------------------------------------------------------

/// The file's record source is `source`.
pub open spec fn has_source(f: FileInContextDetail, source: Seq<char>) -> bool {
    opt_str(f.record_source) == Some(source)
}

/// The number of files whose record source is `source`.
pub open spec fn count_source(fs: Seq<FileInContextDetail>, source: Seq<char>) -> nat
    decreases fs.len(),
{
    if fs.len() == 0 {
        0
    } else {
        count_source(fs.drop_last(), source) + if has_source(fs.last(), source) {
            1nat
        } else {
            0nat
        }
    }
}

/// The file passes the optional source and state filters.
pub open spec fn file_passes(
    f: FileInContextDetail,
    source: Option<Seq<char>>,
    state: Option<Seq<char>>,
) -> bool {
    &&& (source matches Some(s) ==> opt_str(f.record_source) == Some(s))
    &&& (state matches Some(s) ==> opt_str(f.record_state) == Some(s))
}

/// The files that pass the filters, in order.
pub open spec fn files_passing(
    fs: Seq<FileInContextDetail>,
    source: Option<Seq<char>>,
    state: Option<Seq<char>>,
) -> Seq<FileInContextDetail>
    decreases fs.len(),
{
    if fs.len() == 0 {
        Seq::<FileInContextDetail>::empty()
    } else {
        let rest = files_passing(fs.drop_last(), source, state);
        if file_passes(fs.last(), source, state) {
            rest.push(fs.last())
        } else {
            rest
        }
    }
}

/// The text of an optional `&str`.
pub open spec fn opt_text(o: Option<&str>) -> Option<Seq<char>> {
    match o {
        Some(s) => Some(s@),
        None => None,
    }
}

/// Whether an optional string holds exactly `text`.
fn opt_is(o: &Option<String>, text: &[char]) -> (b: bool)
    ensures
        b == (opt_str(*o) == Some(text@)),
{
    match o {
        Some(s) => {
            let c = chars_of(s.as_str());
            chars_eq(&c, text)
        },
        None => false,
    }
}

/// The number of files whose record source is `source`.
pub(crate) fn count_with_source(files: &[FileInContextDetail], source: &[char]) -> (n: usize)
    ensures
        n as nat == count_source(files@, source@),
{
    let mut n: usize = 0;
    let mut i: usize = 0;
    while i < files.len()
        invariant
            i <= files@.len(),
            n <= i,
            n as nat == count_source(files@.take(i as int), source@),
        decreases files@.len() - i,
    {
        let ghost pre = files@.take(i + 1);
        proof {
            assert(pre.drop_last() =~= files@.take(i as int));
            assert(pre.last() == files@[i as int]);
        }
        if opt_is(&files[i].record_source, source) {
            n = n + 1;
        }
        i = i + 1;
    }
    assert(files@.take(files@.len() as int) =~= files@);
    n
}

/// The files-in-context view of a task: counts by record source over all
/// files, then the files that match the optional source and state filters.
pub fn parse_task_files(
    task_id: &str,
    all_files: Vec<FileInContextDetail>,
    source_filter: Option<&str>,
    state_filter: Option<&str>,
) -> (r: TaskFilesResponse)
    ensures
        r.task_id@ == task_id@,
        r.total_files == all_files@.len(),
        r.files_edited_count as nat == count_source(all_files@, "cline_edited"@),
        r.files_read_count as nat == count_source(all_files@, "read_tool"@),
        r.files_mentioned_count as nat == count_source(all_files@, "file_mentioned"@),
        r.files_user_edited_count as nat == count_source(all_files@, "user_edited"@),
        r.files@ == files_passing(all_files@, opt_text(source_filter), opt_text(state_filter)),
{
    let total_files = all_files.len();
    let edited = chars_of("cline_edited");
    let read = chars_of("read_tool");
    let mentioned = chars_of("file_mentioned");
    let user_edited = chars_of("user_edited");
    let files_edited_count = count_with_source(&all_files, &edited);
    let files_read_count = count_with_source(&all_files, &read);
    let files_mentioned_count = count_with_source(&all_files, &mentioned);
    let files_user_edited_count = count_with_source(&all_files, &user_edited);
    let source = match source_filter {
        Some(s) => Some(chars_of(s)),
        None => None,
    };
    let state = match state_filter {
        Some(s) => Some(chars_of(s)),
        None => None,
    };
    let ghost src_v = opt_text(source_filter);
    let ghost st_v = opt_text(state_filter);
    let mut files = all_files;
    let ghost all = files@;
    let n = files.len();
    let mut kept: Vec<FileInContextDetail> = Vec::new();
    let mut i: usize = 0;
    while files.len() > 0
        invariant
            i <= all.len() == n,
            files@ == all.skip(i as int),
            (source matches Some(c) ==> src_v == Some(c@)) && (source is None ==> src_v is None),
            (state matches Some(c) ==> st_v == Some(c@)) && (state is None ==> st_v is None),
            kept@ == files_passing(all.take(i as int), src_v, st_v),
        decreases files@.len(),
    {
        let f = files.remove(0);
        let ghost pre = all.take(i + 1);
        proof {
            assert(pre.drop_last() =~= all.take(i as int));
            assert(all.skip(i as int)[0] == all[i as int]);
            assert(pre.last() == all[i as int]);
        }
        let source_ok = match &source {
            Some(c) => opt_is(&f.record_source, c),
            None => true,
        };
        let state_ok = match &state {
            Some(c) => opt_is(&f.record_state, c),
            None => true,
        };
        if source_ok && state_ok {
            kept.push(f);
        }
        i = i + 1;
        assert(files@ =~= all.skip(i as int));
    }
    assert(all.take(i as int) =~= all);
    TaskFilesResponse {
        task_id: String::from_str(task_id),
        total_files,
        files_edited_count,
        files_read_count,
        files_mentioned_count,
        files_user_edited_count,
        files: kept,
    }
}

} // verus!
