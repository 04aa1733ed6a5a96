//! The task list of a checkpoint workspace: the checkpoint commits grouped
//! by task, the count of distinct files their steps changed, and the
//! ordering of tasks and workspaces with the most recent first.

use vstd::prelude::*;
use crate::shadow_git::{
    ClineTaskSummary, CommitSpec, CheckpointCommit, WorkspaceInfo, commits_for_task, commits_view,
    task_ids,
};
use crate::text::{
    chars_lt, chars_of, lex_lt, lines_of, same_text, split_lines, string_from_chars,
    strictly_sorted, strings_view, char_vecs_view, insert_sorted_unique, lemma_lex_total,
    lemma_lex_transitive, lemma_sorted_no_duplicates,
};

verus! {

// ---------------------------------------------------------------------------
// Most recent first
// ---------------------------------------------------------------------------

/// An entry with a modification time (ISO 8601 text) by which lists are
/// ordered, the most recent first.
pub trait Recency {
    spec fn recency(&self) -> Seq<char>;

    fn recency_text(&self) -> (r: &str)
        ensures
            r@ == self.recency(),
    ;
}

impl Recency for WorkspaceInfo {
    open spec fn recency(&self) -> Seq<char> {
        self.last_modified@
    }

    fn recency_text(&self) -> (r: &str) {
        self.last_modified.as_str()
    }
}

impl Recency for ClineTaskSummary {
    open spec fn recency(&self) -> Seq<char> {
        self.last_modified@
    }

    fn recency_text(&self) -> (r: &str) {
        self.last_modified.as_str()
    }
}

/// No entry is more recent than one before it.
pub open spec fn most_recent_first<T: Recency>(v: Seq<T>) -> bool {
    forall|i: int, j: int|
        0 <= i < j < v.len() ==> !lex_lt(#[trigger] v[i].recency(), #[trigger] v[j].recency())
}

/// The entries, the most recent first (by their modification text), each
/// kept once.
pub fn sort_most_recent_first<T: Recency>(items: Vec<T>) -> (r: Vec<T>)
    ensures
        most_recent_first(r@),
        r@.to_multiset() == items@.to_multiset(),
{
    broadcast use vstd::seq_lib::group_to_multiset_ensures;

    let ghost orig = items@;
    let mut rest = items;
    let n = rest.len();
    let mut out: Vec<T> = Vec::new();
    let mut i: usize = 0;
    assert(orig.skip(0) =~= orig);
    assert(orig.take(0) =~= Seq::<T>::empty());
    while rest.len() > 0
        invariant
            i <= orig.len() == n,
            rest@ == orig.skip(i as int),
            most_recent_first(out@),
            out@.to_multiset() == orig.take(i as int).to_multiset(),
        decreases rest@.len(),
    {
        let a = rest.remove(0);
        proof {
            assert(orig.skip(i as int)[0] == orig[i as int]);
            assert(orig.take(i + 1) =~= orig.take(i as int).push(orig[i as int]));
            orig.take(i as int).to_multiset_ensures();
        }
        let ac = chars_of(a.recency_text());
        let mut p: usize = 0;
        let mut stop = false;
        while p < out.len() && !stop
            invariant
                p <= out@.len(),
                ac@ == a.recency(),
                forall|k: int| 0 <= k < p ==> !lex_lt(#[trigger] out@[k].recency(), a.recency()),
                stop ==> p < out@.len() && lex_lt(out@[p as int].recency(), a.recency()),
            decreases out@.len() - p, if stop { 0int } else { 1int },
        {
            let pc = chars_of(out[p].recency_text());
            if chars_lt(&pc, &ac) {
                stop = true;
            } else {
                p = p + 1;
            }
        }
        let ghost o = out@;
        out.insert(p, a);
        proof {
            let w = out@;
            assert(w =~= o.insert(p as int, a));
            assert(w.remove(p as int) =~= o);
            assert(w[p as int] == a);
            assert(w.to_multiset() =~= o.to_multiset().insert(a)) by {
                w.to_multiset_ensures();
                assert(w.remove(p as int).to_multiset() =~= w.to_multiset().remove(w[p as int]));
                assert(w.contains(a));
                assert(w.to_multiset().count(a) > 0);
            }
            assert forall|x: int, y: int| 0 <= x < y < w.len() implies !lex_lt(
                #[trigger] w[x].recency(),
                #[trigger] w[y].recency(),
            ) by {
                if y < p {
                    assert(w[x] == o[x] && w[y] == o[y]);
                } else if y == p {
                    assert(w[x] == o[x]);
                } else if x == p {
                    assert(w[y] == o[y - 1]);
                    let top = o[p as int].recency();
                    let other = o[y - 1].recency();
                    lemma_lex_total(other, top);
                    if lex_lt(other, top) {
                        lemma_lex_transitive(other, top, a.recency());
                    }
                    lemma_lex_total(other, a.recency());
                } else if x < p {
                    assert(w[x] == o[x] && w[y] == o[y - 1]);
                } else {
                    assert(w[x] == o[x - 1] && w[y] == o[y - 1]);
                }
            }
        }
        i = i + 1;
        assert(rest@ =~= orig.skip(i as int));
    }
    assert(orig.take(i as int) =~= orig);
    out
}

// ---------------------------------------------------------------------------
// Tasks of a workspace
// ---------------------------------------------------------------------------

/// The checkpoint commits of one task, in the order of the log (newest
/// first).
pub struct TaskCommitGroup {
    /// The task id of the commits.
    pub task_id: String,
    /// Their hashes, newest first.
    pub hashes: Vec<String>,
    /// The timestamp of the newest of them.
    pub last_modified: String,
}

/// The hashes of the commits.
pub open spec fn commit_hashes(cs: Seq<CommitSpec>) -> Seq<Seq<char>> {
    cs.map_values(|c: CommitSpec| c.hash)
}

/// The group holds exactly the commits of its task, in log order, and the
/// timestamp of the first (newest) of them.
pub open spec fn group_matches(g: TaskCommitGroup, cs: Seq<CommitSpec>) -> bool {
    let tc = commits_for_task(cs, g.task_id@);
    &&& tc.len() > 0
    &&& strings_view(g.hashes@) == commit_hashes(tc)
    &&& g.last_modified@ == tc[0].timestamp
}

/// The task ids of the groups.
pub open spec fn group_ids(gs: Seq<TaskCommitGroup>) -> Seq<Seq<char>> {
    gs.map_values(|g: TaskCommitGroup| g.task_id@)
}

/// A task id that no commit carries has no commits.
proof fn lemma_absent_task_has_no_commits(cs: Seq<CommitSpec>, t: Seq<char>)
    requires
        !task_ids(cs).contains(t),
    ensures
        commits_for_task(cs, t).len() == 0,
    decreases cs.len(),
{
    if cs.len() > 0 {
        let d = cs.drop_last();
        assert(task_ids(d) =~= task_ids(cs).drop_last());
        if task_ids(d).contains(t) {
            let k = choose|k: int| 0 <= k < task_ids(d).len() && task_ids(d)[k] == t;
            assert(task_ids(cs)[k] == t);
        }
        assert(task_ids(cs)[cs.len() - 1] == cs.last().task_id);
        lemma_absent_task_has_no_commits(d, t);
    }
}

/// The checkpoint commits grouped by task: one group per task id, each
/// with the task's commits in log order.
pub fn group_task_commits(commits: &[CheckpointCommit]) -> (r: Vec<TaskCommitGroup>)
    ensures
        forall|k: int| 0 <= k < r@.len() ==> group_matches(#[trigger] r@[k], commits_view(commits@)),
        group_ids(r@).no_duplicates(),
        group_ids(r@).to_set() == task_ids(commits_view(commits@)).to_set(),
{
    let ghost cs = commits_view(commits@);
    let mut r: Vec<TaskCommitGroup> = Vec::new();
    let mut i: usize = 0;
    proof {
        assert(task_ids(cs.take(0)).to_set() =~= Set::<Seq<char>>::empty());
        assert(group_ids(r@) =~= Seq::<Seq<char>>::empty());
    }
    while i < commits.len()
        invariant
            i <= commits@.len(),
            cs == commits_view(commits@),
            forall|k: int| 0 <= k < r@.len() ==> group_matches(#[trigger] r@[k], cs.take(i as int)),
            group_ids(r@).no_duplicates(),
            group_ids(r@).to_set() == task_ids(cs.take(i as int)).to_set(),
        decreases commits@.len() - i,
    {
        let ghost prev = cs.take(i as int);
        let ghost pre = cs.take(i + 1);
        let ghost c = commits@[i as int]@;
        let ghost t = c.task_id;
        proof {
            assert(pre.drop_last() =~= prev);
            assert(pre.last() == c);
            assert(task_ids(pre) =~= task_ids(prev).push(t));
            task_ids(prev).lemma_push_to_set_commute(t);
        }
        let mut q: usize = 0;
        let mut found = false;
        while q < r.len() && !found
            invariant
                q <= r@.len(),
                forall|k: int| 0 <= k < q ==> (#[trigger] r@[k]).task_id@ != t,
                found ==> q < r@.len() && r@[q as int].task_id@ == t,
                i < commits@.len(),
                t == commits@[i as int].task_id@,
            decreases r@.len() - q, if found { 0int } else { 1int },
        {
            if same_text(r[q].task_id.as_str(), commits[i].task_id.as_str()) {
                found = true;
            } else {
                q = q + 1;
            }
        }
        let ghost old_r = r@;
        if found {
            let mut g = r.remove(q);
            let ghost gv = g;
            g.hashes.push(commits[i].hash.clone());
            r.insert(q, g);
            proof {
                let w = r@;
                assert forall|k: int| 0 <= k < w.len() && k != q implies w[k] == old_r[k] by {}
                assert(group_ids(w) =~= group_ids(old_r));
                assert forall|k: int| 0 <= k < w.len() implies group_matches(#[trigger] w[k], pre) by {
                    if k == q {
                        let tc = commits_for_task(prev, t);
                        assert(group_ids(old_r)[q as int] == t);
                        assert(commits_for_task(pre, t) == tc.push(c));
                        assert(commit_hashes(tc.push(c)) =~= commit_hashes(tc).push(c.hash));
                        assert(strings_view(w[k].hashes@) =~= strings_view(gv.hashes@).push(c.hash));
                    } else {
                        assert(group_ids(old_r)[k] == old_r[k].task_id@);
                        assert(group_ids(old_r)[q as int] == t);
                        assert(old_r[k].task_id@ != t);
                        assert(commits_for_task(pre, old_r[k].task_id@) == commits_for_task(
                            prev,
                            old_r[k].task_id@,
                        ));
                    }
                }
                assert(task_ids(prev).to_set().contains(t)) by {
                    assert(group_ids(old_r)[q as int] == t);
                    assert(group_ids(old_r).to_set().contains(t));
                }
                assert(task_ids(prev).to_set().insert(t) =~= task_ids(prev).to_set());
            }
        } else {
            let mut hs: Vec<String> = Vec::new();
            hs.push(commits[i].hash.clone());
            let g = TaskCommitGroup {
                task_id: commits[i].task_id.clone(),
                hashes: hs,
                last_modified: commits[i].timestamp.clone(),
            };
            r.push(g);
            proof {
                let w = r@;
                assert(!group_ids(old_r).contains(t)) by {
                    if group_ids(old_r).contains(t) {
                        let k = choose|k: int| 0 <= k < group_ids(old_r).len() && group_ids(old_r)[k] == t;
                        assert(old_r[k].task_id@ == t);
                    }
                }
                assert(!task_ids(prev).contains(t)) by {
                    if task_ids(prev).contains(t) {
                        assert(task_ids(prev).to_set().contains(t));
                        assert(group_ids(old_r).to_set().contains(t));
                    }
                }
                lemma_absent_task_has_no_commits(prev, t);
                assert(group_ids(w) =~= group_ids(old_r).push(t));
                group_ids(old_r).lemma_push_to_set_commute(t);
                assert forall|a: int, b: int| 0 <= a < b < group_ids(w).len() implies group_ids(w)[a]
                    != group_ids(w)[b] by {
                    if b == old_r.len() {
                        assert(group_ids(w)[a] == group_ids(old_r)[a]);
                    } else {
                        assert(group_ids(old_r)[a] != group_ids(old_r)[b]);
                    }
                }
                assert forall|k: int| 0 <= k < w.len() implies group_matches(#[trigger] w[k], pre) by {
                    if k == old_r.len() {
                        let tc = commits_for_task(prev, t);
                        assert(tc =~= Seq::<CommitSpec>::empty());
                        assert(commits_for_task(pre, t) =~= seq![c]);
                        assert(strings_view(w[k].hashes@) =~= seq![c.hash]);
                        assert(commit_hashes(seq![c]) =~= seq![c.hash]);
                    } else {
                        assert(w[k] == old_r[k]);
                        assert(group_ids(old_r)[k] == old_r[k].task_id@);
                        assert(old_r[k].task_id@ != t);
                    }
                }
            }
        }
        i = i + 1;
    }
    assert(cs.take(commits@.len() as int) =~= cs);
    r
}

// ---------------------------------------------------------------------------
// Files changed
// ---------------------------------------------------------------------------

/// The non-empty lines of a `git diff --name-only` output: the file names.
pub open spec fn named_lines(out: Seq<char>) -> Set<Seq<char>> {
    lines_of(out).to_set().filter(|l: Seq<char>| l.len() > 0)
}

/// The distinct file names across the outputs.
pub open spec fn files_named(outs: Seq<Seq<char>>) -> Set<Seq<char>>
    decreases outs.len(),
{
    if outs.len() == 0 {
        Set::<Seq<char>>::empty()
    } else {
        files_named(outs.drop_last()).union(named_lines(outs.last()))
    }
}

/// The number of non-empty lines.
pub open spec fn count_named(ls: Seq<Seq<char>>) -> nat
    decreases ls.len(),
{
    if ls.len() == 0 {
        0
    } else {
        count_named(ls.drop_last()) + if ls.last().len() > 0 {
            1nat
        } else {
            0nat
        }
    }
}

/// The number of distinct files named across the `git diff --name-only`
/// outputs of a task's steps.
pub fn changed_file_count(outputs: &[String]) -> (r: usize)
    ensures
        r == files_named(strings_view(outputs@)).len(),
{
    let ghost outs = strings_view(outputs@);
    let mut names: Vec<String> = Vec::new();
    let mut i: usize = 0;
    proof {
        assert(outs.take(0) =~= Seq::<Seq<char>>::empty());
        assert(strings_view(names@).to_set() =~= Set::<Seq<char>>::empty());
    }
    while i < outputs.len()
        invariant
            i <= outputs@.len(),
            outs == strings_view(outputs@),
            strictly_sorted(strings_view(names@)),
            strings_view(names@).to_set() == files_named(outs.take(i as int)),
        decreases outputs@.len() - i,
    {
        let ghost base = files_named(outs.take(i as int));
        let chars = chars_of(outputs[i].as_str());
        let lines = split_lines(&chars);
        let ghost ls = char_vecs_view(lines@);
        let mut j: usize = 0;
        proof {
            assert(ls.take(0).to_set().filter(|l: Seq<char>| l.len() > 0) =~= Set::<Seq<char>>::empty());
            assert(base.union(Set::<Seq<char>>::empty()) =~= base);
        }
        while j < lines.len()
            invariant
                j <= lines@.len(),
                ls == char_vecs_view(lines@),
                strictly_sorted(strings_view(names@)),
                strings_view(names@).to_set() == base.union(
                    ls.take(j as int).to_set().filter(|l: Seq<char>| l.len() > 0),
                ),
            decreases lines@.len() - j,
        {
            let ghost l = ls[j as int];
            proof {
                assert(ls.take(j + 1) =~= ls.take(j as int).push(l));
                ls.take(j as int).lemma_push_to_set_commute(l);
            }
            let ghost before = ls.take(j as int).to_set().filter(|l: Seq<char>| l.len() > 0);
            let ghost after = ls.take(j + 1).to_set().filter(|l: Seq<char>| l.len() > 0);
            if lines[j].len() > 0 {
                let name = string_from_chars(&lines[j]);
                insert_sorted_unique(&mut names, name);
                assert(after =~= before.insert(l));
                assert(base.union(after) =~= base.union(before).insert(l));
            } else {
                assert(after =~= before);
            }
            j = j + 1;
        }
        proof {
            let pre = outs.take(i + 1);
            assert(pre.drop_last() =~= outs.take(i as int));
            assert(pre.last() == outs[i as int]);
            assert(ls.take(lines@.len() as int) =~= ls);
        }
        i = i + 1;
    }
    assert(outs.take(outputs@.len() as int) =~= outs);
    proof {
        lemma_sorted_no_duplicates(strings_view(names@));
        strings_view(names@).unique_seq_to_set();
    }
    names.len()
}

/// The number of non-empty lines of an output (`git diff --name-only`: the
/// files a commit changed).
pub fn named_line_count(output: &str) -> (r: usize)
    ensures
        r == count_named(lines_of(output@)),
{
    let chars = chars_of(output);
    let lines = split_lines(&chars);
    let ghost ls = char_vecs_view(lines@);
    let mut n: usize = 0;
    let mut j: usize = 0;
    assert(ls.take(0) =~= Seq::<Seq<char>>::empty());
    while j < lines.len()
        invariant
            j <= lines@.len(),
            ls == char_vecs_view(lines@),
            n == count_named(ls.take(j as int)),
            n <= j,
        decreases lines@.len() - j,
    {
        proof {
            assert(ls.take(j + 1).drop_last() =~= ls.take(j as int));
            assert(ls.take(j + 1).last() == ls[j as int]);
        }
        if lines[j].len() > 0 {
            n = n + 1;
        }
        j = j + 1;
    }
    assert(ls.take(lines@.len() as int) =~= ls);
    n
}

/// What a git invocation gave: it could not be started (with the reason),
/// or it ran, with its exit status and what it printed.
pub enum GitRun {
    NotStarted(String),
    Ran { success: bool, stdout: String },
}

/// The number of files a step's commit changed, from `git diff --name-only
/// <hash>^..<hash>`: its named lines when it succeeded, none when git
/// could not be started, and `None` when it failed (a root commit, which
/// `git diff-tree` has to count).
pub fn commit_file_count(diff: &GitRun) -> (r: Option<usize>)
    ensures
        diff matches GitRun::NotStarted(_) ==> r == Some(0usize),
        diff matches GitRun::Ran { success, stdout } ==> (if *success {
            r == Some(count_named(lines_of(stdout@)) as usize)
        } else {
            r is None
        }),
{
    match diff {
        GitRun::NotStarted(_) => Some(0),
        GitRun::Ran { success, stdout } => {
            if *success {
                Some(named_line_count(stdout.as_str()))
            } else {
                None
            }
        },
    }
}

/// The number of files a root commit holds, from `git diff-tree
/// --no-commit-id --name-only -r <hash>`: its named lines whatever its
/// status, none when git could not be started.
pub fn root_commit_file_count(tree: &GitRun) -> (r: usize)
    ensures
        tree matches GitRun::NotStarted(_) ==> r == 0,
        tree matches GitRun::Ran { stdout, .. } ==> r == count_named(lines_of(stdout@)),
{
    match tree {
        GitRun::NotStarted(_) => 0,
        GitRun::Ran { stdout, .. } => named_line_count(stdout.as_str()),
    }
}

// ---------------------------------------------------------------------------
// Task summaries
// ---------------------------------------------------------------------------

/// The value of a task summary.
pub ghost struct TaskSummarySpec {
    pub task_id: Seq<char>,
    pub workspace_id: Seq<char>,
    pub steps: nat,
    pub files_changed: nat,
    pub last_modified: Seq<char>,
}

impl View for ClineTaskSummary {
    type V = TaskSummarySpec;

    open spec fn view(&self) -> TaskSummarySpec {
        TaskSummarySpec {
            task_id: self.task_id@,
            workspace_id: self.workspace_id@,
            steps: self.steps as nat,
            files_changed: self.files_changed as nat,
            last_modified: self.last_modified@,
        }
    }
}

/// The summary of a task's commits: its id, its workspace, one step per
/// commit, the files its steps changed and its newest timestamp.
pub open spec fn summary_of(workspace_id: Seq<char>, g: TaskCommitGroup, files: usize) -> TaskSummarySpec {
    TaskSummarySpec {
        task_id: g.task_id@,
        workspace_id,
        steps: g.hashes@.len(),
        files_changed: files as nat,
        last_modified: g.last_modified@,
    }
}

/// The summaries of the groups, in their order.
pub open spec fn summaries_of(
    workspace_id: Seq<char>,
    gs: Seq<TaskCommitGroup>,
    files: Seq<usize>,
) -> Seq<TaskSummarySpec> {
    Seq::new(gs.len(), |k: int| summary_of(workspace_id, gs[k], files[k]))
}

/// The values of the summaries.
pub open spec fn summaries_view(v: Seq<ClineTaskSummary>) -> Seq<TaskSummarySpec> {
    v.map_values(|s: ClineTaskSummary| s@)
}

/// Sequences with the same items keep the same items under a map.
proof fn lemma_map_values_multiset<A, B>(a: Seq<A>, b: Seq<A>, f: spec_fn(A) -> B)
    requires
        a.to_multiset() == b.to_multiset(),
    ensures
        a.map_values(f).to_multiset() == b.map_values(f).to_multiset(),
    decreases a.len(),
{
    broadcast use vstd::seq_lib::group_to_multiset_ensures;

    a.to_multiset_ensures();
    b.to_multiset_ensures();
    if a.len() == 0 {
        assert(b.len() == 0);
        assert(a.map_values(f) =~= Seq::<B>::empty());
        assert(b.map_values(f) =~= Seq::<B>::empty());
    } else {
        let x = a.last();
        let ad = a.drop_last();
        assert(a =~= ad.push(x));
        assert(a.to_multiset().count(x) > 0);
        assert(b.contains(x));
        let j = choose|j: int| 0 <= j < b.len() && b[j] == x;
        let bd = b.remove(j);
        assert(bd.to_multiset() =~= b.to_multiset().remove(x));
        assert(ad.to_multiset() =~= a.to_multiset().remove(x));
        lemma_map_values_multiset(ad, bd, f);
        assert(a.map_values(f) =~= ad.map_values(f).push(f(x)));
        let bm = b.map_values(f);
        assert(bm.remove(j) =~= bd.map_values(f));
        assert(bm[j] == f(x));
        assert(bm.remove(j).to_multiset() =~= bm.to_multiset().remove(f(x)));
        assert(bm.contains(f(x)));
        assert(bm.to_multiset() =~= bm.to_multiset().remove(f(x)).insert(f(x)));
    }
}

/// The task list of a workspace: a summary of each task's commits (with
/// the number of files its steps changed), the most recent first.
pub fn list_tasks_for_workspace(
    workspace_id: &str,
    groups: &[TaskCommitGroup],
    files_changed: &[usize],
) -> (r: Vec<ClineTaskSummary>)
    requires
        files_changed@.len() == groups@.len(),
    ensures
        most_recent_first(r@),
        summaries_view(r@).to_multiset() == summaries_of(workspace_id@, groups@, files_changed@).to_multiset(),
{
    let mut v: Vec<ClineTaskSummary> = Vec::new();
    let mut k: usize = 0;
    while k < groups.len()
        invariant
            k <= groups@.len() == files_changed@.len(),
            summaries_view(v@) == summaries_of(workspace_id@, groups@, files_changed@).take(k as int),
        decreases groups@.len() - k,
    {
        let g = &groups[k];
        let ghost before = summaries_view(v@);
        v.push(
            ClineTaskSummary {
                task_id: g.task_id.clone(),
                workspace_id: String::from_str(workspace_id),
                steps: g.hashes.len(),
                files_changed: files_changed[k],
                last_modified: g.last_modified.clone(),
            },
        );
        assert(v@.last()@ == summary_of(workspace_id@, groups@[k as int], files_changed@[k as int]));
        assert(summaries_view(v@) =~= before.push(v@.last()@));
        k = k + 1;
        assert(summaries_view(v@) =~= summaries_of(workspace_id@, groups@, files_changed@).take(k as int));
    }
    assert(summaries_of(workspace_id@, groups@, files_changed@).take(k as int) =~= summaries_of(
        workspace_id@,
        groups@,
        files_changed@,
    ));
    let ghost unsorted = v@;
    let r = sort_most_recent_first(v);
    proof {
        lemma_map_values_multiset(r@, unsorted, |s: ClineTaskSummary| s@);
    }
    r
}

/// Which git directory of a workspace is read: `.git` (active) before
/// `.git_disabled` (paused); none when it has neither.
pub fn pick_git_dir(has_git: bool, has_git_disabled: bool) -> (r: Option<(&'static str, bool)>)
    ensures
        has_git ==> (r matches Some((name, active)) && name@ == ".git"@ && active),
        !has_git && has_git_disabled ==> (r matches Some((name, active)) && name@
            == ".git_disabled"@ && !active),
        !has_git && !has_git_disabled ==> r is None,
{
    proof {
        reveal_strlit(".git");
        reveal_strlit(".git_disabled");
    }
    if has_git {
        Some((".git", true))
    } else if has_git_disabled {
        Some((".git_disabled", false))
    } else {
        None
    }
}

/// A discovered workspace: its id, git directory and state, the number of
/// distinct tasks among its checkpoint commits and the time of the newest.
pub fn workspace_info(id: String, git_dir: String, active: bool, commits: &[CheckpointCommit]) -> (r:
    WorkspaceInfo)
    ensures
        r.id@ == id@,
        r.git_dir@ == git_dir@,
        r.active == active,
        r.task_count as nat == task_ids(commits_view(commits@)).to_set().len(),
        r.last_modified@ == crate::shadow_git::latest_timestamp(commits_view(commits@)),
{
    let (task_count, last_modified) = crate::shadow_git::count_tasks_and_latest(commits);
    WorkspaceInfo { id, git_dir, active, task_count, last_modified }
}

} // verus!
