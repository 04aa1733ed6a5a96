//! The server's in-memory logs: HTTP access entries and AI inference
//! entries, each numbered from a counter that only grows, each keeping only
//! its most recent entries.

use vstd::prelude::*;
use crate::text::clone_opt_string;

verus! {

/// Number of access log entries kept.
pub const ACCESS_LOG_CAPACITY: usize = 1000;

/// Number of inference log entries kept.
pub const INFERENCE_LOG_CAPACITY: usize = 500;

/// Single access log entry for an HTTP request.
pub struct AccessLogEntry {
    pub id: u64,
    pub timestamp: String,
    pub method: String,
    pub path: String,
    pub status_code: u16,
    pub duration_ms: u64,
    pub client_ip: String,
}

/// Single inference log entry for an AI model call; `metadata` is the JSON
/// text of any additional details.
pub struct InferenceLogEntry {
    pub id: u64,
    pub timestamp: String,
    pub provider: String,
    pub model: String,
    pub request_type: String,
    pub success: bool,
    pub status_code: Option<u16>,
    pub duration_ms: u64,
    pub prompt_tokens: Option<u32>,
    pub completion_tokens: Option<u32>,
    pub total_tokens: Option<u32>,
    pub error_message: Option<String>,
    pub system_prompt: Option<String>,
    pub user_message_preview: Option<String>,
    pub metadata: Option<String>,
}

/// What the caller tells about one inference call.
pub struct InferenceRecord {
    pub provider: String,
    pub model: String,
    pub request_type: String,
    pub success: bool,
    pub status_code: Option<u16>,
    pub duration_ms: u64,
    pub prompt_tokens: Option<u32>,
    pub completion_tokens: Option<u32>,
    pub total_tokens: Option<u32>,
    pub error_message: Option<String>,
    pub system_prompt: Option<String>,
    pub user_message_preview: Option<String>,
    pub metadata: Option<String>,
}

/// The current local time in RFC 3339 form
/// (`chrono::Local::now().to_rfc3339()`). Nothing is stated of the text:
/// it depends on the clock and the machine's time zone.
#[verifier::external_body]
fn local_now_rfc3339() -> (r: String) {
    chrono::Local::now().to_rfc3339()
}

/// The ids of a log, in order: strictly increasing, none above the counter.
pub open spec fn ids_ordered(ids: Seq<u64>, counter: u64) -> bool {
    &&& forall|i: int, j: int| 0 <= i < j < ids.len() ==> ids[i] < ids[j]
    &&& forall|i: int| 0 <= i < ids.len() ==> ids[i] <= counter
}

/// The entries kept after appending `x` to `old`, at most `cap` of them:
/// the oldest entry goes when the log is over capacity.
pub open spec fn appended_kept<T>(old: Seq<T>, x: T, cap: nat) -> Seq<T> {
    let all = old.push(x);
    if all.len() > cap {
        all.skip(all.len() - cap)
    } else {
        all
    }
}

/// The log of HTTP requests.
pub struct AccessLog {
    entries: Vec<AccessLogEntry>,
    counter: u64,
}

/// The ids of access log entries.
pub open spec fn access_ids(s: Seq<AccessLogEntry>) -> Seq<u64> {
    s.map_values(|e: AccessLogEntry| e.id)
}

impl AccessLog {
    /// The entries kept, oldest first.
    pub closed spec fn entries_view(&self) -> Seq<AccessLogEntry> {
        self.entries@
    }

    /// The number of entries ever added.
    pub closed spec fn counter_view(&self) -> u64 {
        self.counter
    }

    /// At most the capacity is kept, and the ids are ordered.
    pub open spec fn wf(&self) -> bool {
        &&& self.entries_view().len() <= ACCESS_LOG_CAPACITY
        &&& ids_ordered(access_ids(self.entries_view()), self.counter_view())
    }

    /// An empty log.
    pub fn new() -> (r: AccessLog)
        ensures
            r.wf(),
            r.entries_view().len() == 0,
            r.counter_view() == 0,
    {
        AccessLog { entries: Vec::new(), counter: 0 }
    }

    /// Add an entry, stamped with the current time and numbered one past
    /// the last id given; the oldest entry goes beyond the capacity.
    pub fn add(
        &mut self,
        method: String,
        path: String,
        status_code: u16,
        duration_ms: u64,
        client_ip: String,
    )
        requires
            old(self).wf(),
            old(self).counter_view() < u64::MAX,
        ensures
            final(self).wf(),
            final(self).counter_view() == old(self).counter_view() + 1,
            final(self).entries_view().len() > 0,
            final(self).entries_view() == appended_kept(
                old(self).entries_view(),
                final(self).entries_view().last(),
                ACCESS_LOG_CAPACITY as nat,
            ),
            ({
                let e = final(self).entries_view().last();
                &&& e.id == final(self).counter_view()
                &&& e.method == method
                &&& e.path == path
                &&& e.status_code == status_code
                &&& e.duration_ms == duration_ms
                &&& e.client_ip == client_ip
            }),
    {
        self.counter = self.counter + 1;
        let id = self.counter;
        let entry = AccessLogEntry {
            id,
            timestamp: local_now_rfc3339(),
            method,
            path,
            status_code,
            duration_ms,
            client_ip,
        };
        let ghost before = self.entries@;
        self.entries.push(entry);
        let ghost all = self.entries@;
        if self.entries.len() > ACCESS_LOG_CAPACITY {
            self.entries.remove(0);
            assert(self.entries@ =~= all.skip(all.len() - ACCESS_LOG_CAPACITY));
        }
        proof {
            let ids = access_ids(self.entries@);
            assert forall|i: int, j: int| 0 <= i < j < ids.len() implies ids[i] < ids[j] by {
                assert(ids[j] == self.entries@[j].id);
                assert(ids[i] == self.entries@[i].id);
                if j == ids.len() - 1 {
                    if all.len() > ACCESS_LOG_CAPACITY {
                        assert(self.entries@[i] == before[i + 1]);
                        assert(access_ids(before)[i + 1] == before[i + 1].id);
                    } else {
                        assert(self.entries@[i] == before[i]);
                        assert(access_ids(before)[i] == before[i].id);
                    }
                } else if all.len() > ACCESS_LOG_CAPACITY {
                    assert(self.entries@[i] == before[i + 1]);
                    assert(self.entries@[j] == before[j + 1]);
                    assert(access_ids(before)[i + 1] == before[i + 1].id);
                    assert(access_ids(before)[j + 1] == before[j + 1].id);
                } else {
                    assert(self.entries@[i] == before[i]);
                    assert(self.entries@[j] == before[j]);
                    assert(access_ids(before)[i] == before[i].id);
                    assert(access_ids(before)[j] == before[j].id);
                }
            }
            assert forall|i: int| 0 <= i < ids.len() implies ids[i] <= self.counter by {
                assert(ids[i] == self.entries@[i].id);
                if i < ids.len() - 1 {
                    if all.len() > ACCESS_LOG_CAPACITY {
                        assert(self.entries@[i] == before[i + 1]);
                        assert(access_ids(before)[i + 1] == before[i + 1].id);
                    } else {
                        assert(self.entries@[i] == before[i]);
                        assert(access_ids(before)[i] == before[i].id);
                    }
                }
            }
        }
    }

    /// All entries, oldest first.
    pub fn get(&self) -> (r: Vec<AccessLogEntry>)
        ensures
            r@ == self.entries_view(),
    {
        let mut r: Vec<AccessLogEntry> = Vec::new();
        let mut i: usize = 0;
        while i < self.entries.len()
            invariant
                i <= self.entries@.len(),
                r@ == self.entries@.take(i as int),
            decreases self.entries@.len() - i,
        {
            let e = &self.entries[i];
            r.push(
                AccessLogEntry {
                    id: e.id,
                    timestamp: e.timestamp.clone(),
                    method: e.method.clone(),
                    path: e.path.clone(),
                    status_code: e.status_code,
                    duration_ms: e.duration_ms,
                    client_ip: e.client_ip.clone(),
                },
            );
            i = i + 1;
            assert(r@ =~= self.entries@.take(i as int));
        }
        assert(self.entries@.take(i as int) =~= self.entries@);
        r
    }

    /// Remove all entries; numbering goes on from the counter.
    pub fn clear(&mut self)
        requires
            old(self).wf(),
        ensures
            final(self).wf(),
            final(self).entries_view().len() == 0,
            final(self).counter_view() == old(self).counter_view(),
    {
        self.entries = Vec::new();
        assert(access_ids(self.entries@) =~= Seq::<u64>::empty());
    }
}

/// The ids of inference log entries.
pub open spec fn inference_ids(s: Seq<InferenceLogEntry>) -> Seq<u64> {
    s.map_values(|e: InferenceLogEntry| e.id)
}

/// Whether an inference entry carries what the record told.
pub open spec fn entry_records(e: InferenceLogEntry, r: InferenceRecord) -> bool {
    &&& e.provider == r.provider
    &&& e.model == r.model
    &&& e.request_type == r.request_type
    &&& e.success == r.success
    &&& e.status_code == r.status_code
    &&& e.duration_ms == r.duration_ms
    &&& e.prompt_tokens == r.prompt_tokens
    &&& e.completion_tokens == r.completion_tokens
    &&& e.total_tokens == r.total_tokens
    &&& e.error_message == r.error_message
    &&& e.system_prompt == r.system_prompt
    &&& e.user_message_preview == r.user_message_preview
    &&& e.metadata == r.metadata
}

/// The log of AI inference calls.
pub struct InferenceLog {
    entries: Vec<InferenceLogEntry>,
    counter: u64,
}

impl InferenceLog {
    /// The entries kept, oldest first.
    pub closed spec fn entries_view(&self) -> Seq<InferenceLogEntry> {
        self.entries@
    }

    /// The number of entries ever added.
    pub closed spec fn counter_view(&self) -> u64 {
        self.counter
    }

    /// At most the capacity is kept, and the ids are ordered.
    pub open spec fn wf(&self) -> bool {
        &&& self.entries_view().len() <= INFERENCE_LOG_CAPACITY
        &&& ids_ordered(inference_ids(self.entries_view()), self.counter_view())
    }

    /// An empty log.
    pub fn new() -> (r: InferenceLog)
        ensures
            r.wf(),
            r.entries_view().len() == 0,
            r.counter_view() == 0,
    {
        InferenceLog { entries: Vec::new(), counter: 0 }
    }

    /// Add an entry for `record`, stamped with the current time and
    /// numbered one past the last id given; the oldest entry goes beyond
    /// the capacity.
    pub fn add(&mut self, record: InferenceRecord)
        requires
            old(self).wf(),
            old(self).counter_view() < u64::MAX,
        ensures
            final(self).wf(),
            final(self).counter_view() == old(self).counter_view() + 1,
            final(self).entries_view().len() > 0,
            final(self).entries_view() == appended_kept(
                old(self).entries_view(),
                final(self).entries_view().last(),
                INFERENCE_LOG_CAPACITY as nat,
            ),
            final(self).entries_view().last().id == final(self).counter_view(),
            entry_records(final(self).entries_view().last(), record),
    {
        self.counter = self.counter + 1;
        let id = self.counter;
        let entry = InferenceLogEntry {
            id,
            timestamp: local_now_rfc3339(),
            provider: record.provider,
            model: record.model,
            request_type: record.request_type,
            success: record.success,
            status_code: record.status_code,
            duration_ms: record.duration_ms,
            prompt_tokens: record.prompt_tokens,
            completion_tokens: record.completion_tokens,
            total_tokens: record.total_tokens,
            error_message: record.error_message,
            system_prompt: record.system_prompt,
            user_message_preview: record.user_message_preview,
            metadata: record.metadata,
        };
        let ghost before = self.entries@;
        self.entries.push(entry);
        let ghost all = self.entries@;
        if self.entries.len() > INFERENCE_LOG_CAPACITY {
            self.entries.remove(0);
            assert(self.entries@ =~= all.skip(all.len() - INFERENCE_LOG_CAPACITY));
        }
        proof {
            let ids = inference_ids(self.entries@);
            assert forall|i: int, j: int| 0 <= i < j < ids.len() implies ids[i] < ids[j] by {
                assert(ids[j] == self.entries@[j].id);
                assert(ids[i] == self.entries@[i].id);
                if j == ids.len() - 1 {
                    if all.len() > INFERENCE_LOG_CAPACITY {
                        assert(self.entries@[i] == before[i + 1]);
                        assert(inference_ids(before)[i + 1] == before[i + 1].id);
                    } else {
                        assert(self.entries@[i] == before[i]);
                        assert(inference_ids(before)[i] == before[i].id);
                    }
                } else if all.len() > INFERENCE_LOG_CAPACITY {
                    assert(self.entries@[i] == before[i + 1]);
                    assert(self.entries@[j] == before[j + 1]);
                    assert(inference_ids(before)[i + 1] == before[i + 1].id);
                    assert(inference_ids(before)[j + 1] == before[j + 1].id);
                } else {
                    assert(self.entries@[i] == before[i]);
                    assert(self.entries@[j] == before[j]);
                    assert(inference_ids(before)[i] == before[i].id);
                    assert(inference_ids(before)[j] == before[j].id);
                }
            }
            assert forall|i: int| 0 <= i < ids.len() implies ids[i] <= self.counter by {
                assert(ids[i] == self.entries@[i].id);
                if i < ids.len() - 1 {
                    if all.len() > INFERENCE_LOG_CAPACITY {
                        assert(self.entries@[i] == before[i + 1]);
                        assert(inference_ids(before)[i + 1] == before[i + 1].id);
                    } else {
                        assert(self.entries@[i] == before[i]);
                        assert(inference_ids(before)[i] == before[i].id);
                    }
                }
            }
        }
    }

    /// All entries, oldest first.
    pub fn get(&self) -> (r: Vec<InferenceLogEntry>)
        ensures
            r@ == self.entries_view(),
    {
        let mut r: Vec<InferenceLogEntry> = Vec::new();
        let mut i: usize = 0;
        while i < self.entries.len()
            invariant
                i <= self.entries@.len(),
                r@ == self.entries@.take(i as int),
            decreases self.entries@.len() - i,
        {
            let e = &self.entries[i];
            r.push(
                InferenceLogEntry {
                    id: e.id,
                    timestamp: e.timestamp.clone(),
                    provider: e.provider.clone(),
                    model: e.model.clone(),
                    request_type: e.request_type.clone(),
                    success: e.success,
                    status_code: e.status_code,
                    duration_ms: e.duration_ms,
                    prompt_tokens: e.prompt_tokens,
                    completion_tokens: e.completion_tokens,
                    total_tokens: e.total_tokens,
                    error_message: clone_opt_string(&e.error_message),
                    system_prompt: clone_opt_string(&e.system_prompt),
                    user_message_preview: clone_opt_string(&e.user_message_preview),
                    metadata: clone_opt_string(&e.metadata),
                },
            );
            i = i + 1;
            assert(r@ =~= self.entries@.take(i as int));
        }
        assert(self.entries@.take(i as int) =~= self.entries@);
        r
    }

    /// Remove all entries; numbering goes on from the counter.
    pub fn clear(&mut self)
        requires
            old(self).wf(),
        ensures
            final(self).wf(),
            final(self).entries_view().len() == 0,
            final(self).counter_view() == old(self).counter_view(),
    {
        self.entries = Vec::new();
        assert(inference_ids(self.entries@) =~= Seq::<u64>::empty());
    }
}

/// Whether a bearer token matches the session's token.
pub fn verify_token(expected: &str, token: &str) -> (b: bool)
    ensures
        b == (expected@ == token@),
{
    crate::text::same_text(expected, token)
}

/// Whether an `Authorization` header carries the session's token:
/// `Bearer <token>` with exactly that token.
pub open spec fn header_authorizes(expected: Seq<char>, header: Option<Seq<char>>) -> bool {
    match header {
        Some(h) => crate::text::starts_with(h, "Bearer "@) && h.skip(7) == expected,
        None => false,
    }
}

/// The authentication check of the protected routes: a missing header, one
/// without the `Bearer ` prefix, or another token is refused.
pub fn authorized(expected: &str, header: Option<&str>) -> (b: bool)
    ensures
        b == header_authorizes(expected@, match header {
            Some(h) => Some(h@),
            None => None,
        }),
{
    proof {
        reveal_strlit("Bearer ");
    }
    match header {
        None => false,
        Some(h) => {
            let c = crate::text::chars_of(h);
            let p = crate::text::chars_of("Bearer ");
            if !crate::text::has_prefix(&c, &p) {
                return false;
            }
            let rest = crate::text::sub_chars(&c, 7, c.len());
            let e = crate::text::chars_of(expected);
            assert(rest@ =~= h@.skip(7));
            crate::text::chars_eq(&rest, &e)
        },
    }
}

/// The last `cap` entries of `all` (all of them when there are fewer).
pub open spec fn newest<T>(all: Seq<T>, cap: nat) -> Seq<T> {
    if all.len() > cap {
        all.skip(all.len() - cap)
    } else {
        all
    }
}

/// A log that holds the newest `cap` of the entries added so far holds,
/// after one more is added, the newest `cap` of them all: the logs keep
/// only their last entries (1000 requests, 500 inferences).
pub proof fn law_log_keeps_newest<T>(all: Seq<T>, x: T, cap: nat)
    requires
        cap > 0,
    ensures
        appended_kept(newest(all, cap), x, cap) == newest(all.push(x), cap),
{
    let kept = newest(all, cap);
    let a = all.push(x);
    if all.len() > cap {
        assert(kept.push(x).skip(kept.push(x).len() - cap) =~= a.skip(a.len() - cap));
    } else if a.len() > cap {
        assert(kept.push(x).skip(kept.push(x).len() - cap) =~= a.skip(a.len() - cap));
    } else {
        assert(kept.push(x) =~= a);
    }
}

/// Adding an entry to a log that keeps `cap` entries leaves
/// `min(len + 1, cap)` of them: the newest of the old entries, then the
/// new one. With `counter_view` counting the adds since `new` (0, then one
/// more per `add`), the new entry's id is the number of adds so far.
pub proof fn law_log_append<T>(before: Seq<T>, x: T, cap: nat)
    requires
        cap > 0,
    ensures
        appended_kept(before, x, cap).len() == (if before.len() + 1 < cap {
            before.len() + 1
        } else {
            cap
        }),
        appended_kept(before, x, cap) == before.push(x).skip(
            before.len() + 1 - appended_kept(before, x, cap).len(),
        ),
        appended_kept(before, x, cap).last() == x,
{
    let all = before.push(x);
    if all.len() > cap {
        assert(all.skip(all.len() - cap).last() == all.last());
    } else {
        assert(all.skip(0) =~= all);
    }
}

} // verus!
