//! Task bundle projections: the slice of the state that a task bundle
//! carries, each kind of record selected by the ids the bundle names,
//! copied, and ordered by id.
use vstd::prelude::*;
use crate::text::str_eq;
use crate::order::{text_lt, text_less, lemma_text_lt_total, lemma_text_lt_transitive};
use crate::events::{Projected, Logged, record_keys_unique};
use crate::error::AgentOsError;
use crate::state::{KernelState, GoalRecord, TaskRecord, ThreadRecord, ArtifactRecord, EvidenceRecord};
use crate::approval::Approval;
use crate::artifacts::FinalSubmission;
use crate::context::{ContextSnapshot, MemoryRecord, same_memory};
use crate::tools::{ToolInvocation, same_call};
use crate::memento::{MementoFragment, same_memento};
use crate::review::{Review, same_review};

verus! {

/// `ids` names `k`.
pub open spec fn names(ids: Seq<String>, k: Seq<char>) -> bool {
    exists|i: int| 0 <= i < ids.len() && ids[i]@ == k
}

/// How many of the first `n` records of `v` `ids` names.
pub open spec fn named_count<T: Projected>(v: Seq<T>, ids: Seq<String>, n: int) -> nat
    decreases n,
{
    if n <= 0 {
        0
    } else {
        named_count(v, ids, n - 1) + if names(ids, v[n - 1].key_of()) {
            1nat
        } else {
            0nat
        }
    }
}

/// `r` copies, in increasing order of id, records among the first `n` of
/// `v` that `ids` names, record `i` of `r` copying record `idx[i]` of `v`,
/// and as many as there are.
pub open spec fn selected_via<T: Logged>(v: Seq<T>, ids: Seq<String>, r: Seq<T>, idx: Seq<int>, n: int) -> bool {
    &&& idx.len() == r.len()
    &&& r.len() == named_count(v, ids, n)
    &&& forall|i: int|
        0 <= i < r.len() ==> 0 <= #[trigger] idx[i] < n && names(ids, v[idx[i]].key_of()) && v[idx[i]].copies(&r[i])
    &&& forall|a: int, b: int| 0 <= a < b < r.len() ==> text_lt(#[trigger] r[a].key_of(), #[trigger] r[b].key_of())
}

/// `r` copies, in increasing order of id, the records of `v` that `ids`
/// names: one copy of a named record for each named record.
pub open spec fn selects<T: Logged>(v: Seq<T>, ids: Seq<String>, r: Seq<T>) -> bool {
    exists|idx: Seq<int>| selected_via(v, ids, r, idx, v.len() as int)
}

fn names_key(ids: &Vec<String>, k: &str) -> (r: bool)
    ensures
        r == names(ids@, k@),
{
    let mut i: usize = 0;
    while i < ids.len()
        invariant
            i <= ids@.len(),
            forall|j: int| 0 <= j < i ==> ids@[j]@ != k@,
        decreases ids@.len() - i,
    {
        if str_eq(ids[i].as_str(), k) {
            return true;
        }
        i = i + 1;
    }
    false
}

/// Inserting, at its place in id order, a copy `x` of the named record `j`
/// of `v` extends the selection by that record.
proof fn lemma_insert_selected<T: Logged>(
    v: Seq<T>,
    ids: Seq<String>,
    r: Seq<T>,
    idx: Seq<int>,
    j: int,
    p: int,
    x: T,
)
    requires
        0 <= j < v.len(),
        0 <= p <= r.len(),
        selected_via(v, ids, r, idx, j),
        names(ids, v[j].key_of()),
        v[j].copies(&x),
        x.key_of() == v[j].key_of(),
        forall|q: int| 0 <= q < p ==> text_lt(#[trigger] r[q].key_of(), x.key_of()),
        forall|q: int| p <= q < r.len() ==> text_lt(x.key_of(), #[trigger] r[q].key_of()),
    ensures
        selected_via(v, ids, r.insert(p, x), idx.insert(p, j), j + 1),
{
    let r2 = r.insert(p, x);
    let idx2 = idx.insert(p, j);
    let k = x.key_of();
    assert forall|i: int| 0 <= i < r2.len() implies 0 <= #[trigger] idx2[i] < j + 1 && names(ids, v[idx2[i]].key_of())
        && v[idx2[i]].copies(&r2[i]) by {
        if i < p {
            assert(r2[i] == r[i] && idx2[i] == idx[i]);
        } else if i > p {
            assert(r2[i] == r[i - 1] && idx2[i] == idx[i - 1]);
        }
    }
    assert forall|a: int, b: int| 0 <= a < b < r2.len() implies text_lt(#[trigger] r2[a].key_of(), #[trigger] r2[b].key_of()) by {
        if a < p && b == p {
            assert(r2[a] == r[a]);
        } else if a < p && b > p {
            assert(r2[a] == r[a]);
            assert(r2[b] == r[b - 1]);
            lemma_text_lt_transitive(r2[a].key_of(), k, r2[b].key_of());
        } else if a == p {
            assert(r2[b] == r[b - 1]);
        } else if b < p {
            assert(r2[a] == r[a]);
            assert(r2[b] == r[b]);
        } else {
            assert(r2[a] == r[a - 1]);
            assert(r2[b] == r[b - 1]);
        }
    }
}

/// Copies the records of `v` that `ids` names, in increasing order of id.
pub fn select_by_ids<T: Logged>(v: &Vec<T>, ids: &Vec<String>) -> (r: Vec<T>)
    requires
        record_keys_unique(v@),
    ensures
        selects(v@, ids@, r@),
{
    let mut out: Vec<T> = Vec::new();
    let ghost mut idx: Seq<int> = Seq::empty();
    let mut j: usize = 0;
    while j < v.len()
        invariant
            j <= v@.len(),
            record_keys_unique(v@),
            selected_via(v@, ids@, out@, idx, j as int),
        decreases v@.len() - j,
    {
        if names_key(ids, v[j].key()) {
            let x = v[j].log_copy();
            let ghost k = v@[j as int].key_of();
            proof {
                v@[j as int].lemma_copy_keeps_key(&x);
            }
            let ghost before = out@;
            proof {
                assert forall|i: int| 0 <= i < before.len() implies #[trigger] before[i].key_of() != k by {
                    let w = idx[i];
                    v@[w].lemma_copy_keeps_key(&before[i]);
                    if before[i].key_of() == k {
                        assert(v@[w].key_of() == v@[j as int].key_of());
                    }
                }
            }
            let mut p: usize = 0;
            while p < out.len() && text_less(out[p].key(), x.key())
                invariant
                    out@ == before,
                    x.key_of() == k,
                    p <= before.len(),
                    forall|q: int| 0 <= q < p ==> text_lt(#[trigger] before[q].key_of(), k),
                decreases before.len() - p,
            {
                p = p + 1;
            }
            proof {
                assert forall|q: int| p <= q < before.len() implies text_lt(k, #[trigger] before[q].key_of()) by {
                    lemma_text_lt_total(k, before[p as int].key_of());
                    if q > p {
                        assert(text_lt(before[p as int].key_of(), before[q].key_of()));
                        lemma_text_lt_transitive(k, before[p as int].key_of(), before[q].key_of());
                    }
                }
                lemma_insert_selected(v@, ids@, before, idx, j as int, p as int, x);
                idx = idx.insert(p as int, j as int);
            }
            out.insert(p, x);
        }
        j = j + 1;
    }
    proof {
        assert(selected_via(v@, ids@, out@, idx, v@.len() as int));
    }
    out
}

impl Logged for ToolInvocation {
    open spec fn copies(&self, other: &Self) -> bool {
        same_call(*self, *other)
    }

    proof fn lemma_copy_keeps_key(&self, other: &Self) {
    }

    fn log_copy(&self) -> (r: Self) {
        self.duplicate()
    }
}

impl Logged for MementoFragment {
    open spec fn copies(&self, other: &Self) -> bool {
        same_memento(*self, *other)
    }

    proof fn lemma_copy_keeps_key(&self, other: &Self) {
    }

    fn log_copy(&self) -> (r: Self) {
        self.duplicate()
    }
}

impl Logged for Review {
    open spec fn copies(&self, other: &Self) -> bool {
        same_review(*other, *self)
    }

    proof fn lemma_copy_keeps_key(&self, other: &Self) {
    }

    fn log_copy(&self) -> (r: Self) {
        self.duplicate()
    }
}

impl Logged for MemoryRecord {
    open spec fn copies(&self, other: &Self) -> bool {
        same_memory(*self, *other)
    }

    proof fn lemma_copy_keeps_key(&self, other: &Self) {
    }

    fn log_copy(&self) -> (r: Self) {
        self.duplicate()
    }
}

/// The ids a task bundle names, kind by kind.
#[derive(Debug)]
pub struct BundleSelection {
    pub goal_id: String,
    pub task_ids: Vec<String>,
    pub thread_ids: Vec<String>,
    pub context_ids: Vec<String>,
    pub tool_call_ids: Vec<String>,
    pub memento_ids: Vec<String>,
    pub artifact_ids: Vec<String>,
    pub evidence_ids: Vec<String>,
    pub review_ids: Vec<String>,
    pub approval_ids: Vec<String>,
    pub memory_ids: Vec<String>,
}

/// The slice of the state a task bundle carries: its goal and, kind by
/// kind, copies of the records it names, in increasing order of id.
#[derive(Debug)]
pub struct TaskBundleProjection {
    pub goal: GoalRecord,
    pub tasks: Vec<TaskRecord>,
    pub threads: Vec<ThreadRecord>,
    pub context_snapshots: Vec<ContextSnapshot>,
    pub tool_invocations: Vec<ToolInvocation>,
    pub mementos: Vec<MementoFragment>,
    pub artifacts: Vec<ArtifactRecord>,
    pub evidence: Vec<EvidenceRecord>,
    pub reviews: Vec<Review>,
    pub approvals: Vec<Approval>,
    pub memory_records: Vec<MemoryRecord>,
    pub final_submissions: Vec<(String, FinalSubmission)>,
}

/// `p` is the projection of `state` for `selection` and `goal`: the goal,
/// and for each kind the records of `state` that `selection` names.
pub open spec fn is_projection(p: TaskBundleProjection, state: KernelState, selection: BundleSelection, goal: GoalRecord) -> bool {
    &&& p.goal == goal
    &&& selects(state.tasks@, selection.task_ids@, p.tasks@)
    &&& selects(state.threads@, selection.thread_ids@, p.threads@)
    &&& selects(state.context_snapshots@, selection.context_ids@, p.context_snapshots@)
    &&& selects(state.tool_invocations@, selection.tool_call_ids@, p.tool_invocations@)
    &&& selects(state.mementos@, selection.memento_ids@, p.mementos@)
    &&& selects(state.artifacts@, selection.artifact_ids@, p.artifacts@)
    &&& selects(state.evidence@, selection.evidence_ids@, p.evidence@)
    &&& selects(state.reviews@, selection.review_ids@, p.reviews@)
    &&& selects(state.approvals@, selection.approval_ids@, p.approvals@)
    &&& selects(state.memory_records@, selection.memory_ids@, p.memory_records@)
    &&& selects(state.final_submissions@, selection.task_ids@, p.final_submissions@)
}

/// The projection of `state` for `selection`, carrying `goal`. Refused
/// when it would not hold one task for each task id the selection names.
pub fn projection_snapshot(state: &KernelState, selection: &BundleSelection, goal: GoalRecord) -> (r: Result<
    TaskBundleProjection,
    AgentOsError,
>)
    requires
        state.wf(),
    ensures
        r is Err <==> named_count(state.tasks@, selection.task_ids@, state.tasks@.len() as int) != selection.task_ids@.len(),
        r matches Err(e) ==> e == AgentOsError::Validation("task bundle projection lost selected tasks"),
        r matches Ok(p) ==> is_projection(p, *state, *selection, goal),
{
    proof {
        assert(record_keys_unique(state.tasks@));
        assert(record_keys_unique(state.threads@));
        assert(record_keys_unique(state.context_snapshots@));
        assert(record_keys_unique(state.tool_invocations@));
        assert(record_keys_unique(state.mementos@));
        assert(record_keys_unique(state.artifacts@));
        assert(record_keys_unique(state.evidence@));
        assert(record_keys_unique(state.reviews@));
        assert(record_keys_unique(state.approvals@));
        assert(record_keys_unique(state.memory_records@));
        assert(record_keys_unique(state.final_submissions@));
    }
    let tasks = select_by_ids(&state.tasks, &selection.task_ids);
    let threads = select_by_ids(&state.threads, &selection.thread_ids);
    let context_snapshots = select_by_ids(&state.context_snapshots, &selection.context_ids);
    let tool_invocations = select_by_ids(&state.tool_invocations, &selection.tool_call_ids);
    let mementos = select_by_ids(&state.mementos, &selection.memento_ids);
    let artifacts = select_by_ids(&state.artifacts, &selection.artifact_ids);
    let evidence = select_by_ids(&state.evidence, &selection.evidence_ids);
    let reviews = select_by_ids(&state.reviews, &selection.review_ids);
    let approvals = select_by_ids(&state.approvals, &selection.approval_ids);
    let memory_records = select_by_ids(&state.memory_records, &selection.memory_ids);
    let final_submissions = select_by_ids(&state.final_submissions, &selection.task_ids);
    if tasks.len() != selection.task_ids.len() {
        proof {
            let idx = choose|idx: Seq<int>| selected_via(state.tasks@, selection.task_ids@, tasks@, idx, state.tasks@.len() as int);
        }
        return Err(AgentOsError::Validation("task bundle projection lost selected tasks"));
    }
    proof {
        let idx = choose|idx: Seq<int>| selected_via(state.tasks@, selection.task_ids@, tasks@, idx, state.tasks@.len() as int);
    }
    Ok(TaskBundleProjection {
        goal,
        tasks,
        threads,
        context_snapshots,
        tool_invocations,
        mementos,
        artifacts,
        evidence,
        reviews,
        approvals,
        memory_records,
        final_submissions,
    })
}

} // verus!
