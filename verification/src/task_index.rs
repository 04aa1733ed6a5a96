//! The cached task index of the history views: the in-memory copy of the
//! task list with its generation, the decisions of the single-flight
//! refresh (serve the cache, or scan), and the task id check.

use vstd::prelude::*;
use crate::history::{HistoryErrorResponse, TaskHistoryListResponse};
use crate::messages::TaskMessagesQuery;
use crate::text::{chars_of, decimal, decimal_string, same_text};

verus! {

/// The cached task list and the number of refreshes done (it wraps).
pub struct TaskIndexCache {
    cached: Option<TaskHistoryListResponse>,
    generation: u64,
}

/// The generation after one more refresh.
pub open spec fn next_generation(g: u64) -> u64 {
    if g == u64::MAX {
        0
    } else {
        (g + 1) as u64
    }
}

/// Whether a caller that took the generation `gen_before` before waiting
/// for the refresh lock is served from the cache: when another refresh ran
/// meanwhile, or, unless it asked for a refresh, when the cache is filled.
pub open spec fn serves_after_wait(
    cached: Option<TaskHistoryListResponse>,
    generation: u64,
    gen_before: u64,
    force_refresh: bool,
) -> bool {
    &&& cached is Some
    &&& (generation != gen_before || !force_refresh)
}

impl TaskIndexCache {
    /// The cached list.
    pub closed spec fn cached_view(&self) -> Option<TaskHistoryListResponse> {
        self.cached
    }

    /// The generation.
    pub closed spec fn generation_view(&self) -> u64 {
        self.generation
    }

    /// A cache holding what the disk cache gave, at generation 0.
    pub fn new(disk: Option<TaskHistoryListResponse>) -> (r: TaskIndexCache)
        ensures
            r.cached_view() == disk,
            r.generation_view() == 0,
    {
        TaskIndexCache { cached: disk, generation: 0 }
    }

    /// The current generation (taken before waiting for the refresh lock).
    pub fn generation(&self) -> (r: u64)
        ensures
            r == self.generation_view(),
    {
        self.generation
    }

    /// The fast path: the cached list, unless a refresh is asked for.
    pub fn cached(&self, force_refresh: bool) -> (r: Option<&TaskHistoryListResponse>)
        ensures
            force_refresh ==> r is None,
            !force_refresh ==> match self.cached_view() {
                Some(c) => r == Some(&c),
                None => r is None,
            },
    {
        if force_refresh {
            None
        } else {
            match &self.cached {
                Some(c) => Some(c),
                None => None,
            }
        }
    }

    /// After waiting for the refresh lock: the cached list to serve, or
    /// `None` when this caller must scan.
    pub fn after_wait(&self, gen_before: u64, force_refresh: bool) -> (r: Option<&TaskHistoryListResponse>)
        ensures
            serves_after_wait(self.cached_view(), self.generation_view(), gen_before, force_refresh)
                ==> r == Some(&self.cached_view()->0),
            !serves_after_wait(self.cached_view(), self.generation_view(), gen_before, force_refresh)
                ==> r is None,
    {
        match &self.cached {
            Some(c) => {
                if self.generation != gen_before || !force_refresh {
                    Some(c)
                } else {
                    None
                }
            },
            None => None,
        }
    }

    /// Store a freshly scanned list and count the refresh.
    pub fn store(&mut self, response: TaskHistoryListResponse)
        ensures
            final(self).cached_view() == Some(response),
            final(self).generation_view() == next_generation(old(self).generation_view()),
    {
        self.cached = Some(response);
        self.generation = if self.generation == u64::MAX {
            0
        } else {
            self.generation + 1
        };
    }
}

/// A refresh serves every caller that waited for it: once a scan is
/// stored, a caller that took the generation before it is served from the
/// cache whether or not it asked for a refresh, and scans nothing.
pub proof fn law_waiters_share_the_refresh(
    response: TaskHistoryListResponse,
    gen_before: u64,
    force_refresh: bool,
)
    ensures
        serves_after_wait(Some(response), next_generation(gen_before), gen_before, force_refresh),
{
}

/// The error when the scan itself failed.
pub fn scan_failed(e: &str) -> (r: HistoryErrorResponse)
    ensures
        r.code == 500,
        r.error@ == "Failed to scan task histories: "@ + e@,
{
    HistoryErrorResponse {
        error: String::from_str("Failed to scan task histories: ").concat(e),
        code: 500,
    }
}

/// Every character is an ASCII digit.
pub open spec fn all_ascii_digits(s: Seq<char>) -> bool {
    forall|k: int| 0 <= k < s.len() ==> '0' <= #[trigger] s[k] && s[k] <= '9'
}

/// A task id is a non-empty run of ASCII digits (epoch milliseconds); any
/// other is refused with a 400.
pub fn validate_task_id(task_id: &str) -> (r: Result<(), HistoryErrorResponse>)
    ensures
        task_id@.len() > 0 && all_ascii_digits(task_id@) ==> r is Ok,
        !(task_id@.len() > 0 && all_ascii_digits(task_id@)) ==> (r matches Err(e) && e.code == 400
            && e.error@ == "Invalid task_id '"@ + task_id@
            + "': must be a numeric epoch milliseconds value"@),
{
    let c = chars_of(task_id);
    let mut ok = c.len() > 0;
    let mut i: usize = 0;
    while i < c.len()
        invariant
            i <= c@.len(),
            c@ == task_id@,
            ok == (c@.len() > 0 && forall|k: int| 0 <= k < i ==> '0' <= #[trigger] c@[k] && c@[k] <= '9'),
        decreases c@.len() - i,
    {
        if !('0' <= c[i] && c[i] <= '9') {
            ok = false;
        }
        i = i + 1;
    }
    if ok {
        Ok(())
    } else {
        Err(
            HistoryErrorResponse {
                error: String::from_str("Invalid task_id '").concat(task_id).concat(
                    "': must be a numeric epoch milliseconds value",
                ),
                code: 400,
            },
        )
    }
}

/// The file a history view reads, whose absence is answered with a 404.
pub enum HistorySource {
    /// `api_conversation_history.json` (messages, detail, tools, thinking).
    Conversation,
    /// `task_metadata.json` (files).
    Metadata,
    /// `ui_messages.json` (subtasks).
    UiMessages,
}

/// The 404 message for a task without the source file.
pub open spec fn not_found_text(task_id: Seq<char>, source: HistorySource) -> Seq<char> {
    "Task '"@ + task_id + (match source {
        HistorySource::Conversation => "' not found or has no conversation history"@,
        HistorySource::Metadata => "' not found or has no task_metadata.json"@,
        HistorySource::UiMessages => "' not found or has no ui_messages.json"@,
    })
}

/// The 404 answer for a task without the file a view reads.
pub fn task_not_found(task_id: &str, source: HistorySource) -> (r: HistoryErrorResponse)
    ensures
        r.code == 404,
        r.error@ == not_found_text(task_id@, source),
{
    let tail = match source {
        HistorySource::Conversation => "' not found or has no conversation history",
        HistorySource::Metadata => "' not found or has no task_metadata.json",
        HistorySource::UiMessages => "' not found or has no ui_messages.json",
    };
    proof {
        reveal_strlit("' not found or has no conversation history");
        reveal_strlit("' not found or has no task_metadata.json");
        reveal_strlit("' not found or has no ui_messages.json");
    }
    HistoryErrorResponse { error: String::from_str("Task '").concat(task_id).concat(tail), code: 404 }
}

/// The 404 answer for a message index that a task does not have.
pub fn message_not_found(task_id: &str, index: usize) -> (r: HistoryErrorResponse)
    ensures
        r.code == 404,
        r.error@ == "Message index "@ + decimal(index as nat) + " not found in task '"@ + task_id@
            + "' (task may not exist or index is out of bounds)"@,
{
    HistoryErrorResponse {
        error: String::from_str("Message index ").concat(decimal_string(index as u64).as_str()).concat(
            " not found in task '",
        ).concat(task_id).concat("' (task may not exist or index is out of bounds)"),
        code: 404,
    }
}

/// The 500 answer when a view's parse failed: "Failed to <what>: <e>".
pub fn view_failed(what: &str, e: &str) -> (r: HistoryErrorResponse)
    ensures
        r.code == 500,
        r.error@ == "Failed to "@ + what@ + ": "@ + e@,
{
    HistoryErrorResponse {
        error: String::from_str("Failed to ").concat(what).concat(": ").concat(e),
        code: 500,
    }
}

/// The paging of the messages view: the offset (0 by default), the limit
/// (20 by default, at most 100) and the role filter, which must be "user"
/// or "assistant".
pub fn messages_paging(q: &TaskMessagesQuery) -> (r: Result<(usize, usize, Option<String>), HistoryErrorResponse>)
    ensures
        match q.role {
            Some(role) => role@ != "user"@ && role@ != "assistant"@,
            None => false,
        } ==> (r matches Err(e) && e.code == 400 && e.error@ == "Invalid role '"@ + q.role->0@
            + "': must be 'user' or 'assistant'"@),
        !(match q.role {
            Some(role) => role@ != "user"@ && role@ != "assistant"@,
            None => false,
        }) ==> (r matches Ok((offset, limit, role)) && {
            &&& offset == (match q.offset {
                Some(o) => o,
                None => 0,
            })
            &&& limit == (match q.limit {
                Some(l) => if l < 100 {
                    l
                } else {
                    100
                },
                None => 20,
            })
            &&& role == q.role
        }),
{
    proof {
        reveal_strlit("user");
        reveal_strlit("assistant");
    }
    let role = match &q.role {
        Some(r) => {
            if !same_text(r.as_str(), "user") && !same_text(r.as_str(), "assistant") {
                return Err(
                    HistoryErrorResponse {
                        error: String::from_str("Invalid role '").concat(r.as_str()).concat(
                            "': must be 'user' or 'assistant'",
                        ),
                        code: 400,
                    },
                );
            }
            Some(r.clone())
        },
        None => None,
    };
    let offset = match q.offset {
        Some(o) => o,
        None => 0,
    };
    let limit = match q.limit {
        Some(l) => if l < 100 {
            l
        } else {
            100
        },
        None => 20,
    };
    Ok((offset, limit, role))
}

} // verus!
