//! The kernel's typed events and how they project onto the state. Each
//! event carries the record it produced; applying it keeps that record
//! under its id, in place of the one kept there before, and replaying a log
//! applies its events in order to a fresh state.
use vstd::prelude::*;
use crate::text::str_eq;
use crate::approval::Approval;
use crate::artifacts::FinalSubmission;
use crate::context::{ContextSnapshot, ContextCompaction, MemoryRecord};
use crate::communication::{CommunicationProfile, same_profile};
use crate::permission_requests::{PermissionRequest, same_request};
use crate::tools::ToolInvocation;
use crate::memento::MementoFragment;
use crate::review::Review;
use crate::state::{KernelState, GoalRecord, TaskRecord, ThreadRecord, ArtifactRecord, EvidenceRecord};
use crate::goals::same_goal;
use crate::tasks::same_task;
use crate::agents::{same_thread, AgentInvocation};
use crate::artifacts::{same_artifact, same_evidence, same_submission};
use crate::review::same_approval;
use crate::context::{same_context, same_compaction};

verus! {

/// A record the state keeps under a text id.
pub trait Projected: Sized {
    /// The record's id.
    spec fn key_of(&self) -> Seq<char>;

    fn key(&self) -> (r: &str)
        ensures
            r@ == self.key_of(),
    ;
}

impl Projected for GoalRecord {
    open spec fn key_of(&self) -> Seq<char> {
        self.goal_id@
    }

    fn key(&self) -> (r: &str) {
        self.goal_id.as_str()
    }
}

impl Projected for TaskRecord {
    open spec fn key_of(&self) -> Seq<char> {
        self.task_id@
    }

    fn key(&self) -> (r: &str) {
        self.task_id.as_str()
    }
}

impl Projected for ThreadRecord {
    open spec fn key_of(&self) -> Seq<char> {
        self.lifecycle.thread_id@
    }

    fn key(&self) -> (r: &str) {
        self.lifecycle.thread_id.as_str()
    }
}

impl Projected for ArtifactRecord {
    open spec fn key_of(&self) -> Seq<char> {
        self.artifact_id@
    }

    fn key(&self) -> (r: &str) {
        self.artifact_id.as_str()
    }
}

impl Projected for EvidenceRecord {
    open spec fn key_of(&self) -> Seq<char> {
        self.evidence_id@
    }

    fn key(&self) -> (r: &str) {
        self.evidence_id.as_str()
    }
}

impl Projected for Approval {
    open spec fn key_of(&self) -> Seq<char> {
        self.approval_id@
    }

    fn key(&self) -> (r: &str) {
        self.approval_id.as_str()
    }
}

impl Projected for AgentInvocation {
    open spec fn key_of(&self) -> Seq<char> {
        self.invocation_id@
    }

    fn key(&self) -> (r: &str) {
        self.invocation_id.as_str()
    }
}

impl Projected for PermissionRequest {
    open spec fn key_of(&self) -> Seq<char> {
        self.permission_request_id@
    }

    fn key(&self) -> (r: &str) {
        self.permission_request_id.as_str()
    }
}

impl Projected for ContextSnapshot {
    open spec fn key_of(&self) -> Seq<char> {
        self.context_id@
    }

    fn key(&self) -> (r: &str) {
        self.context_id.as_str()
    }
}

impl Projected for ContextCompaction {
    open spec fn key_of(&self) -> Seq<char> {
        self.compaction_id@
    }

    fn key(&self) -> (r: &str) {
        self.compaction_id.as_str()
    }
}

impl Projected for (String, FinalSubmission) {
    open spec fn key_of(&self) -> Seq<char> {
        self.0@
    }

    fn key(&self) -> (r: &str) {
        self.0.as_str()
    }
}

impl Projected for CommunicationProfile {
    open spec fn key_of(&self) -> Seq<char> {
        self.communication_profile_id@
    }

    fn key(&self) -> (r: &str) {
        self.communication_profile_id.as_str()
    }
}

impl Projected for MemoryRecord {
    open spec fn key_of(&self) -> Seq<char> {
        self.memory_id@
    }

    fn key(&self) -> (r: &str) {
        self.memory_id.as_str()
    }
}

impl Projected for ToolInvocation {
    open spec fn key_of(&self) -> Seq<char> {
        self.call_id@
    }

    fn key(&self) -> (r: &str) {
        self.call_id.as_str()
    }
}

impl Projected for MementoFragment {
    open spec fn key_of(&self) -> Seq<char> {
        self.memento_id@
    }

    fn key(&self) -> (r: &str) {
        self.memento_id.as_str()
    }
}

impl Projected for Review {
    open spec fn key_of(&self) -> Seq<char> {
        self.review_id@
    }

    fn key(&self) -> (r: &str) {
        self.review_id.as_str()
    }
}

/// Whether some record of `v` is kept under id `k`.
pub fn holds_key<T: Projected>(v: &Vec<T>, k: &str) -> (r: bool)
    ensures
        r == keeps_key(v@, k@),
{
    let mut i: usize = 0;
    while i < v.len()
        invariant
            i <= v@.len(),
            forall|j: int| 0 <= j < i ==> #[trigger] v@[j].key_of() != k@,
        decreases v@.len() - i,
    {
        if str_eq(v[i].key(), k) {
            assert(v@[i as int].key_of() == k@);
            return true;
        }
        i = i + 1;
    }
    false
}

/// No id is kept twice.
pub open spec fn record_keys_unique<T: Projected>(v: Seq<T>) -> bool {
    forall|i: int, j: int| 0 <= i < v.len() && 0 <= j < v.len() && #[trigger] v[i].key_of() == #[trigger] v[j].key_of() ==> i == j
}

/// `i` is the first position that keeps id `k`.
pub open spec fn first_with_key<T: Projected>(v: Seq<T>, k: Seq<char>, i: int) -> bool {
    &&& 0 <= i < v.len()
    &&& v[i].key_of() == k
    &&& forall|j: int| 0 <= j < i ==> #[trigger] v[j].key_of() != k
}

/// Some record is kept under id `k`.
pub open spec fn keeps_key<T: Projected>(v: Seq<T>, k: Seq<char>) -> bool {
    exists|i: int| 0 <= i < v.len() && #[trigger] v[i].key_of() == k
}

/// `v` with `x` kept under its id: in place of the first record kept under
/// it, or after the others if there is none.
pub open spec fn with_record<T: Projected>(v: Seq<T>, x: T) -> Seq<T> {
    if keeps_key(v, x.key_of()) {
        v.update(choose|i: int| first_with_key(v, x.key_of(), i), x)
    } else {
        v.push(x)
    }
}

/// Keeps `x` under its id in `v`.
pub(crate) fn keep_record<T: Projected>(v: &mut Vec<T>, x: T)
    ensures
        final(v)@ == with_record(old(v)@, x),
        record_keys_unique(old(v)@) ==> record_keys_unique(final(v)@),
{
    let ghost before = v@;
    let mut i: usize = 0;
    while i < v.len()
        invariant
            v@ == before,
            before == old(v)@,
            i <= v@.len(),
            forall|j: int| 0 <= j < i ==> #[trigger] v@[j].key_of() != x.key_of(),
        decreases v@.len() - i,
    {
        if str_eq(v[i].key(), x.key()) {
            proof {
                assert(first_with_key(before, x.key_of(), i as int));
                assert(keeps_key(before, x.key_of()));
                let p = choose|p: int| first_with_key(before, x.key_of(), p);
                if p < i {
                    assert(before[p].key_of() != x.key_of());
                }
                if i < p {
                    assert(before[i as int].key_of() != x.key_of());
                }
                assert(p == i);
            }
            v.set(i, x);
            assert(v@ =~= with_record(before, x));
            proof {
                if record_keys_unique(before) {
                    assert forall|a: int, b: int|
                        0 <= a < v@.len() && 0 <= b < v@.len() && #[trigger] v@[a].key_of() == #[trigger] v@[b].key_of()
                        implies a == b by {
                        assert(v@[a].key_of() == before[a].key_of());
                        assert(v@[b].key_of() == before[b].key_of());
                    }
                }
            }
            return;
        }
        i = i + 1;
    }
    proof {
        if keeps_key(before, x.key_of()) {
            let w = choose|w: int| 0 <= w < before.len() && #[trigger] before[w].key_of() == x.key_of();
            assert(before[w].key_of() != x.key_of());
        }
    }
    v.push(x);
    assert(v@ =~= with_record(before, x));
    proof {
        if record_keys_unique(before) {
            assert forall|a: int, b: int|
                0 <= a < v@.len() && 0 <= b < v@.len() && #[trigger] v@[a].key_of() == #[trigger] v@[b].key_of()
                implies a == b by {
                if a < before.len() {
                    assert(v@[a] == before[a]);
                }
                if b < before.len() {
                    assert(v@[b] == before[b]);
                }
            }
        }
    }
}

/// The record kept under id `k` in `v`, if any.
pub open spec fn record_at<T: Projected>(v: Seq<T>, k: Seq<char>) -> Option<T> {
    if keeps_key(v, k) {
        Some(v[choose|i: int| first_with_key(v, k, i)])
    } else {
        None
    }
}

/// Keeping `x` keeps ids unique, puts `x` under its id and leaves every
/// other id as it was.
pub proof fn lemma_with_record<T: Projected>(v: Seq<T>, x: T, k: Seq<char>)
    requires
        record_keys_unique(v),
    ensures
        record_keys_unique(with_record(v, x)),
        record_at(with_record(v, x), k) == (if x.key_of() == k { Some(x) } else { record_at(v, k) }),
{
    let w = with_record(v, x);
    if keeps_key(v, x.key_of()) {
        let p = choose|i: int| first_with_key(v, x.key_of(), i);
        let i0 = choose|i: int| 0 <= i < v.len() && #[trigger] v[i].key_of() == x.key_of();
        assert(first_with_key(v, x.key_of(), i0)) by {
            assert forall|j: int| 0 <= j < i0 implies #[trigger] v[j].key_of() != x.key_of() by {
                if v[j].key_of() == x.key_of() {
                    assert(j == i0);
                }
            }
        }
        assert(first_with_key(v, x.key_of(), p));
        assert(w == v.update(p, x));
        assert forall|a: int, b: int| 0 <= a < w.len() && 0 <= b < w.len() && #[trigger] w[a].key_of() == #[trigger] w[b].key_of()
            implies a == b by {
            assert(w[a].key_of() == v[a].key_of());
            assert(w[b].key_of() == v[b].key_of());
        }
        if x.key_of() == k {
            assert(w[p].key_of() == k);
            assert(keeps_key(w, k));
            let q = choose|i: int| first_with_key(w, k, i);
            assert(first_with_key(w, k, p)) by {
                assert forall|j: int| 0 <= j < p implies #[trigger] w[j].key_of() != k by {
                    if w[j].key_of() == k {
                        assert(w[j].key_of() == w[p].key_of());
                    }
                }
            }
            assert(first_with_key(w, k, q));
            assert(w[q].key_of() == w[p].key_of());
            assert(q == p);
        } else {
            if keeps_key(v, k) {
                let a = choose|i: int| first_with_key(v, k, i);
                let a0 = choose|i: int| 0 <= i < v.len() && #[trigger] v[i].key_of() == k;
                assert(first_with_key(v, k, a0)) by {
                    assert forall|j: int| 0 <= j < a0 implies #[trigger] v[j].key_of() != k by {
                        if v[j].key_of() == k {
                            assert(j == a0);
                        }
                    }
                }
                assert(first_with_key(v, k, a));
                assert(a != p);
                assert(w[a] == v[a]);
                assert(keeps_key(w, k));
                let b = choose|i: int| first_with_key(w, k, i);
                assert(first_with_key(w, k, a)) by {
                    assert forall|j: int| 0 <= j < a implies #[trigger] w[j].key_of() != k by {
                        if w[j].key_of() == k {
                            assert(w[j].key_of() == w[a].key_of());
                        }
                    }
                }
                assert(first_with_key(w, k, b));
                assert(w[b].key_of() == w[a].key_of());
                assert(b == a);
            } else {
                if keeps_key(w, k) {
                    let c = choose|i: int| 0 <= i < w.len() && #[trigger] w[i].key_of() == k;
                    assert(c != p);
                    assert(v[c].key_of() == k);
                }
            }
        }
    } else {
        assert(w == v.push(x));
        assert forall|a: int, b: int| 0 <= a < w.len() && 0 <= b < w.len() && #[trigger] w[a].key_of() == #[trigger] w[b].key_of()
            implies a == b by {
            if a < v.len() && b == v.len() {
                assert(v[a].key_of() == x.key_of());
            }
            if b < v.len() && a == v.len() {
                assert(v[b].key_of() == x.key_of());
            }
            if a < v.len() && b < v.len() {
                assert(w[a] == v[a]);
                assert(w[b] == v[b]);
            }
        }
        let n = v.len() as int;
        if x.key_of() == k {
            assert(w[n].key_of() == k);
            assert(keeps_key(w, k));
            let q = choose|i: int| first_with_key(w, k, i);
            assert(first_with_key(w, k, n)) by {
                assert forall|j: int| 0 <= j < n implies #[trigger] w[j].key_of() != k by {
                    assert(w[j] == v[j]);
                }
            }
            assert(first_with_key(w, k, q));
            assert(q == n);
        } else {
            if keeps_key(v, k) {
                let a = choose|i: int| first_with_key(v, k, i);
                let a0 = choose|i: int| 0 <= i < v.len() && #[trigger] v[i].key_of() == k;
                assert(first_with_key(v, k, a0)) by {
                    assert forall|j: int| 0 <= j < a0 implies #[trigger] v[j].key_of() != k by {
                        if v[j].key_of() == k {
                            assert(j == a0);
                        }
                    }
                }
                assert(first_with_key(v, k, a));
                assert(w[a] == v[a]);
                assert(keeps_key(w, k));
                let b = choose|i: int| first_with_key(w, k, i);
                assert(first_with_key(w, k, a)) by {
                    assert forall|j: int| 0 <= j < a implies #[trigger] w[j].key_of() != k by {
                        assert(w[j] == v[j]);
                    }
                }
                assert(first_with_key(w, k, b));
                assert(w[b].key_of() == w[a].key_of());
                assert(b == a);
            } else {
                if keeps_key(w, k) {
                    let c = choose|i: int| 0 <= i < w.len() && #[trigger] w[i].key_of() == k;
                    assert(c != n);
                    assert(w[c] == v[c]);
                }
            }
        }
    }
}

/// A record kind the log carries copies of.
pub trait Logged: Projected {
    /// `other` is a copy of this record.
    spec fn copies(&self, other: &Self) -> bool;

    /// A copy keeps the record's id.
    proof fn lemma_copy_keeps_key(&self, other: &Self)
        requires
            self.copies(other),
        ensures
            self.key_of() == other.key_of(),
    ;

    fn log_copy(&self) -> (r: Self)
        ensures
            self.copies(&r),
    ;
}

impl Logged for GoalRecord {
    open spec fn copies(&self, other: &Self) -> bool {
        same_goal(*other, *self)
    }

    proof fn lemma_copy_keeps_key(&self, other: &Self) {
    }

    fn log_copy(&self) -> (r: Self) {
        self.duplicate()
    }
}

impl Logged for TaskRecord {
    open spec fn copies(&self, other: &Self) -> bool {
        same_task(*other, *self)
    }

    proof fn lemma_copy_keeps_key(&self, other: &Self) {
    }

    fn log_copy(&self) -> (r: Self) {
        self.duplicate()
    }
}

impl Logged for ThreadRecord {
    open spec fn copies(&self, other: &Self) -> bool {
        same_thread(*other, *self)
    }

    proof fn lemma_copy_keeps_key(&self, other: &Self) {
    }

    fn log_copy(&self) -> (r: Self) {
        self.duplicate()
    }
}

impl Logged for ArtifactRecord {
    open spec fn copies(&self, other: &Self) -> bool {
        same_artifact(*self, *other)
    }

    proof fn lemma_copy_keeps_key(&self, other: &Self) {
    }

    fn log_copy(&self) -> (r: Self) {
        self.duplicate()
    }
}

impl Logged for EvidenceRecord {
    open spec fn copies(&self, other: &Self) -> bool {
        same_evidence(*self, *other)
    }

    proof fn lemma_copy_keeps_key(&self, other: &Self) {
    }

    fn log_copy(&self) -> (r: Self) {
        self.duplicate()
    }
}

impl Logged for Approval {
    open spec fn copies(&self, other: &Self) -> bool {
        same_approval(*self, *other)
    }

    proof fn lemma_copy_keeps_key(&self, other: &Self) {
    }

    fn log_copy(&self) -> (r: Self) {
        self.duplicate()
    }
}

impl Logged for AgentInvocation {
    open spec fn copies(&self, other: &Self) -> bool {
        *other == *self
    }

    proof fn lemma_copy_keeps_key(&self, other: &Self) {
    }

    fn log_copy(&self) -> (r: Self) {
        self.duplicate()
    }
}

impl Logged for CommunicationProfile {
    open spec fn copies(&self, other: &Self) -> bool {
        same_profile(*self, *other)
    }

    proof fn lemma_copy_keeps_key(&self, other: &Self) {
    }

    fn log_copy(&self) -> (r: Self) {
        self.duplicate()
    }
}

impl Logged for PermissionRequest {
    open spec fn copies(&self, other: &Self) -> bool {
        same_request(*other, *self)
    }

    proof fn lemma_copy_keeps_key(&self, other: &Self) {
    }

    fn log_copy(&self) -> (r: Self) {
        self.duplicate()
    }
}

impl Logged for ContextSnapshot {
    open spec fn copies(&self, other: &Self) -> bool {
        same_context(*self, *other)
    }

    proof fn lemma_copy_keeps_key(&self, other: &Self) {
    }

    fn log_copy(&self) -> (r: Self) {
        self.duplicate()
    }
}

impl Logged for ContextCompaction {
    open spec fn copies(&self, other: &Self) -> bool {
        same_compaction(*self, *other)
    }

    proof fn lemma_copy_keeps_key(&self, other: &Self) {
    }

    fn log_copy(&self) -> (r: Self) {
        self.duplicate()
    }
}

impl Logged for (String, FinalSubmission) {
    open spec fn copies(&self, other: &Self) -> bool {
        self.0 == other.0 && same_submission(self.1, other.1)
    }

    proof fn lemma_copy_keeps_key(&self, other: &Self) {
    }

    fn log_copy(&self) -> (r: Self) {
        (self.0.clone(), self.1.duplicate())
    }
}

/// `w` copies `v` record by record.
pub open spec fn copied_seq<T: Logged>(v: Seq<T>, w: Seq<T>) -> bool {
    &&& v.len() == w.len()
    &&& forall|i: int| 0 <= i < v.len() ==> #[trigger] v[i].copies(&w[i])
}

/// Some position is the first that keeps id `k`, when one keeps it.
pub proof fn lemma_first_exists<T: Projected>(v: Seq<T>, k: Seq<char>, i: int)
    requires
        0 <= i < v.len(),
        v[i].key_of() == k,
    ensures
        exists|p: int| first_with_key(v, k, p),
    decreases i,
{
    if exists|j: int| 0 <= j < i && #[trigger] v[j].key_of() == k {
        let j = choose|j: int| 0 <= j < i && #[trigger] v[j].key_of() == k;
        lemma_first_exists(v, k, j);
    } else {
        assert(first_with_key(v, k, i));
    }
}

/// Keeping a record and its copy in two sequences that copy each other
/// keeps them copies of each other.
pub proof fn lemma_with_record_copied<T: Logged>(v: Seq<T>, w: Seq<T>, x: T, y: T)
    requires
        copied_seq(v, w),
        x.copies(&y),
    ensures
        copied_seq(with_record(v, x), with_record(w, y)),
{
    assert forall|i: int| 0 <= i < v.len() implies #[trigger] v[i].key_of() == w[i].key_of() by {
        v[i].lemma_copy_keeps_key(&w[i]);
    }
    x.lemma_copy_keeps_key(&y);
    let k = x.key_of();
    if keeps_key(v, k) {
        let i0 = choose|i: int| 0 <= i < v.len() && #[trigger] v[i].key_of() == k;
        assert(w[i0].key_of() == k);
        assert(keeps_key(w, k));
        lemma_first_exists(v, k, i0);
        lemma_first_exists(w, k, i0);
        let p = choose|i: int| first_with_key(v, k, i);
        let q = choose|i: int| first_with_key(w, k, i);
        assert(first_with_key(v, k, p));
        assert(first_with_key(w, k, q));
        if p < q {
            assert(w[p].key_of() == k);
        }
        if q < p {
            assert(v[q].key_of() == k);
        }
        assert(p == q);
        let a = with_record(v, x);
        let b = with_record(w, y);
        assert(a == v.update(p, x));
        assert(b == w.update(p, y));
        assert forall|i: int| 0 <= i < a.len() implies #[trigger] a[i].copies(&b[i]) by {
            if i != p {
                assert(a[i] == v[i]);
                assert(b[i] == w[i]);
            }
        }
    } else {
        if keeps_key(w, k) {
            let j = choose|i: int| 0 <= i < w.len() && #[trigger] w[i].key_of() == k;
            assert(v[j].key_of() == k);
        }
        let a = with_record(v, x);
        let b = with_record(w, y);
        assert forall|i: int| 0 <= i < a.len() implies #[trigger] a[i].copies(&b[i]) by {
            if i < v.len() {
                assert(a[i] == v[i]);
                assert(b[i] == w[i]);
            }
        }
    }
}

/// Keeping a record whose id is not kept yet appends it.
pub proof fn lemma_with_record_new<T: Projected>(v: Seq<T>, x: T)
    requires
        forall|i: int| 0 <= i < v.len() ==> #[trigger] v[i].key_of() != x.key_of(),
    ensures
        with_record(v, x) == v.push(x),
{
}

/// Keeping a record whose id is first kept at `p` replaces the record at
/// `p`.
pub proof fn lemma_with_record_first<T: Projected>(v: Seq<T>, p: int, x: T)
    requires
        first_with_key(v, x.key_of(), p),
    ensures
        with_record(v, x) == v.update(p, x),
{
    assert(keeps_key(v, x.key_of()));
    let q = choose|i: int| first_with_key(v, x.key_of(), i);
    assert(first_with_key(v, x.key_of(), q));
    if q < p {
        assert(v[q].key_of() == x.key_of());
    }
    if p < q {
        assert(v[p].key_of() == x.key_of());
    }
}

/// Keeping a record whose id sits at `p` in a sequence of distinct ids
/// replaces the record at `p`.
pub proof fn lemma_with_record_at<T: Projected>(v: Seq<T>, p: int, x: T)
    requires
        record_keys_unique(v),
        0 <= p < v.len(),
        v[p].key_of() == x.key_of(),
    ensures
        with_record(v, x) == v.update(p, x),
{
    assert(keeps_key(v, x.key_of()));
    let q = choose|i: int| first_with_key(v, x.key_of(), i);
    lemma_first_exists(v, x.key_of(), p);
    assert(first_with_key(v, x.key_of(), q));
    assert(v[q].key_of() == v[p].key_of());
}

/// An event of the kernel, with the record it produced. Goal and task
/// updates and completions, thread status changes, approval decisions and
/// context invalidations carry the record as it stands after the change.
#[derive(Debug)]
pub enum KernelEvent {
    GoalRegistered(GoalRecord),
    GoalUpdated(GoalRecord),
    TaskSpawned(TaskRecord),
    TaskUpdated(TaskRecord),
    TaskCompleted(TaskRecord),
    ThreadConfigured(ThreadRecord),
    ThreadStatusChanged(ThreadRecord),
    AgentGoalAccomplished(ThreadRecord),
    AgentInvocationRecorded(AgentInvocation),
    CommunicationProfileAssigned(CommunicationProfile),
    PermissionRequested(PermissionRequest),
    PermissionRequestResolved(PermissionRequest),
    ReviewRequested(Review),
    ReviewSubmitted(Review),
    ArtifactCommitted(ArtifactRecord),
    EvidenceAttached(EvidenceRecord),
    ApprovalRequested(Approval),
    ApprovalRecorded(Approval),
    ContextLoaded(ContextSnapshot),
    ContextInvalidated(ContextSnapshot),
    ContextCompacted(ContextCompaction),
    FinalSubmitted { task_id: String, submission: FinalSubmission },
}

/// The event's type, as it is named in the log.
pub open spec fn event_type_of(e: KernelEvent) -> Seq<char> {
    match e {
        KernelEvent::GoalRegistered(_) => "GoalRegistered"@,
        KernelEvent::GoalUpdated(_) => "GoalUpdated"@,
        KernelEvent::TaskSpawned(_) => "TaskSpawned"@,
        KernelEvent::TaskUpdated(_) => "TaskUpdated"@,
        KernelEvent::TaskCompleted(_) => "TaskCompleted"@,
        KernelEvent::ThreadConfigured(_) => "ThreadConfigured"@,
        KernelEvent::ThreadStatusChanged(_) => "ThreadStatusChanged"@,
        KernelEvent::AgentGoalAccomplished(_) => "AgentGoalAccomplished"@,
        KernelEvent::AgentInvocationRecorded(_) => "AgentInvocationRecorded"@,
        KernelEvent::CommunicationProfileAssigned(_) => "CommunicationProfileAssigned"@,
        KernelEvent::PermissionRequested(_) => "PermissionRequested"@,
        KernelEvent::PermissionRequestResolved(_) => "PermissionRequestResolved"@,
        KernelEvent::ReviewRequested(_) => "ReviewRequested"@,
        KernelEvent::ReviewSubmitted(_) => "ReviewSubmitted"@,
        KernelEvent::ArtifactCommitted(_) => "ArtifactCommitted"@,
        KernelEvent::EvidenceAttached(_) => "EvidenceAttached"@,
        KernelEvent::ApprovalRequested(_) => "ApprovalRequested"@,
        KernelEvent::ApprovalRecorded(_) => "ApprovalRecorded"@,
        KernelEvent::ContextLoaded(_) => "ContextLoaded"@,
        KernelEvent::ContextInvalidated(_) => "ContextInvalidated"@,
        KernelEvent::ContextCompacted(_) => "ContextCompacted"@,
        KernelEvent::FinalSubmitted { .. } => "FinalSubmitted"@,
    }
}

impl KernelEvent {
    /// The event's type, as it is named in the log.
    pub fn event_type(&self) -> (r: &'static str)
        ensures
            r@ == event_type_of(*self),
    {
        match self {
            KernelEvent::GoalRegistered(_) => "GoalRegistered",
            KernelEvent::GoalUpdated(_) => "GoalUpdated",
            KernelEvent::TaskSpawned(_) => "TaskSpawned",
            KernelEvent::TaskUpdated(_) => "TaskUpdated",
            KernelEvent::TaskCompleted(_) => "TaskCompleted",
            KernelEvent::ThreadConfigured(_) => "ThreadConfigured",
            KernelEvent::ThreadStatusChanged(_) => "ThreadStatusChanged",
            KernelEvent::AgentGoalAccomplished(_) => "AgentGoalAccomplished",
            KernelEvent::AgentInvocationRecorded(_) => "AgentInvocationRecorded",
            KernelEvent::CommunicationProfileAssigned(_) => "CommunicationProfileAssigned",
            KernelEvent::PermissionRequested(_) => "PermissionRequested",
            KernelEvent::PermissionRequestResolved(_) => "PermissionRequestResolved",
            KernelEvent::ReviewRequested(_) => "ReviewRequested",
            KernelEvent::ReviewSubmitted(_) => "ReviewSubmitted",
            KernelEvent::ArtifactCommitted(_) => "ArtifactCommitted",
            KernelEvent::EvidenceAttached(_) => "EvidenceAttached",
            KernelEvent::ApprovalRequested(_) => "ApprovalRequested",
            KernelEvent::ApprovalRecorded(_) => "ApprovalRecorded",
            KernelEvent::ContextLoaded(_) => "ContextLoaded",
            KernelEvent::ContextInvalidated(_) => "ContextInvalidated",
            KernelEvent::ContextCompacted(_) => "ContextCompacted",
            KernelEvent::FinalSubmitted { .. } => "FinalSubmitted",
        }
    }

    /// A copy of this event.
    pub fn log_copy(&self) -> (r: KernelEvent)
        ensures
            event_copies(*self, r),
    {
        match self {
            KernelEvent::GoalRegistered(x) => KernelEvent::GoalRegistered(x.log_copy()),
            KernelEvent::GoalUpdated(x) => KernelEvent::GoalUpdated(x.log_copy()),
            KernelEvent::TaskSpawned(x) => KernelEvent::TaskSpawned(x.log_copy()),
            KernelEvent::TaskUpdated(x) => KernelEvent::TaskUpdated(x.log_copy()),
            KernelEvent::TaskCompleted(x) => KernelEvent::TaskCompleted(x.log_copy()),
            KernelEvent::ThreadConfigured(x) => KernelEvent::ThreadConfigured(x.log_copy()),
            KernelEvent::ThreadStatusChanged(x) => KernelEvent::ThreadStatusChanged(x.log_copy()),
            KernelEvent::AgentGoalAccomplished(x) => KernelEvent::AgentGoalAccomplished(x.log_copy()),
            KernelEvent::AgentInvocationRecorded(x) => KernelEvent::AgentInvocationRecorded(x.log_copy()),
            KernelEvent::CommunicationProfileAssigned(x) => KernelEvent::CommunicationProfileAssigned(x.log_copy()),
            KernelEvent::PermissionRequested(x) => KernelEvent::PermissionRequested(x.log_copy()),
            KernelEvent::PermissionRequestResolved(x) => KernelEvent::PermissionRequestResolved(x.log_copy()),
            KernelEvent::ReviewRequested(x) => KernelEvent::ReviewRequested(x.log_copy()),
            KernelEvent::ReviewSubmitted(x) => KernelEvent::ReviewSubmitted(x.log_copy()),
            KernelEvent::ArtifactCommitted(x) => KernelEvent::ArtifactCommitted(x.log_copy()),
            KernelEvent::EvidenceAttached(x) => KernelEvent::EvidenceAttached(x.log_copy()),
            KernelEvent::ApprovalRequested(x) => KernelEvent::ApprovalRequested(x.log_copy()),
            KernelEvent::ApprovalRecorded(x) => KernelEvent::ApprovalRecorded(x.log_copy()),
            KernelEvent::ContextLoaded(x) => KernelEvent::ContextLoaded(x.log_copy()),
            KernelEvent::ContextInvalidated(x) => KernelEvent::ContextInvalidated(x.log_copy()),
            KernelEvent::ContextCompacted(x) => KernelEvent::ContextCompacted(x.log_copy()),
            KernelEvent::FinalSubmitted { task_id, submission } => KernelEvent::FinalSubmitted { task_id: task_id.clone(), submission: submission.duplicate() },
        }
    }
}

/// `b` is a copy of event `a`: the same type, with a copy of its record.
pub open spec fn event_copies(a: KernelEvent, b: KernelEvent) -> bool {
    match a {
        KernelEvent::GoalRegistered(x) => b matches KernelEvent::GoalRegistered(y) && x.copies(&y),
        KernelEvent::GoalUpdated(x) => b matches KernelEvent::GoalUpdated(y) && x.copies(&y),
        KernelEvent::TaskSpawned(x) => b matches KernelEvent::TaskSpawned(y) && x.copies(&y),
        KernelEvent::TaskUpdated(x) => b matches KernelEvent::TaskUpdated(y) && x.copies(&y),
        KernelEvent::TaskCompleted(x) => b matches KernelEvent::TaskCompleted(y) && x.copies(&y),
        KernelEvent::ThreadConfigured(x) => b matches KernelEvent::ThreadConfigured(y) && x.copies(&y),
        KernelEvent::ThreadStatusChanged(x) => b matches KernelEvent::ThreadStatusChanged(y) && x.copies(&y),
        KernelEvent::AgentGoalAccomplished(x) => b matches KernelEvent::AgentGoalAccomplished(y) && x.copies(&y),
        KernelEvent::AgentInvocationRecorded(x) => b matches KernelEvent::AgentInvocationRecorded(y) && x.copies(&y),
        KernelEvent::CommunicationProfileAssigned(x) => b matches KernelEvent::CommunicationProfileAssigned(y) && x.copies(&y),
        KernelEvent::PermissionRequested(x) => b matches KernelEvent::PermissionRequested(y) && x.copies(&y),
        KernelEvent::PermissionRequestResolved(x) => b matches KernelEvent::PermissionRequestResolved(y) && x.copies(&y),
        KernelEvent::ReviewRequested(x) => b matches KernelEvent::ReviewRequested(y) && x.copies(&y),
        KernelEvent::ReviewSubmitted(x) => b matches KernelEvent::ReviewSubmitted(y) && x.copies(&y),
        KernelEvent::ArtifactCommitted(x) => b matches KernelEvent::ArtifactCommitted(y) && x.copies(&y),
        KernelEvent::EvidenceAttached(x) => b matches KernelEvent::EvidenceAttached(y) && x.copies(&y),
        KernelEvent::ApprovalRequested(x) => b matches KernelEvent::ApprovalRequested(y) && x.copies(&y),
        KernelEvent::ApprovalRecorded(x) => b matches KernelEvent::ApprovalRecorded(y) && x.copies(&y),
        KernelEvent::ContextLoaded(x) => b matches KernelEvent::ContextLoaded(y) && x.copies(&y),
        KernelEvent::ContextInvalidated(x) => b matches KernelEvent::ContextInvalidated(y) && x.copies(&y),
        KernelEvent::ContextCompacted(x) => b matches KernelEvent::ContextCompacted(y) && x.copies(&y),
        KernelEvent::FinalSubmitted { task_id, submission } => b matches KernelEvent::FinalSubmitted { task_id: t, submission: u } && task_id == t && same_submission(submission, u),
    }
}

/// The goal record an event carries, if any.
pub open spec fn goal_of(e: KernelEvent) -> Option<GoalRecord> {
    match e {
        KernelEvent::GoalRegistered(x) => Some(x),
        KernelEvent::GoalUpdated(x) => Some(x),
        _ => None,
    }
}

/// Picks the goal record of an event.
pub open spec fn goal_pick() -> spec_fn(KernelEvent) -> Option<GoalRecord> {
    |x: KernelEvent| goal_of(x)
}

/// The task record an event carries, if any.
pub open spec fn task_of(e: KernelEvent) -> Option<TaskRecord> {
    match e {
        KernelEvent::TaskSpawned(x) => Some(x),
        KernelEvent::TaskUpdated(x) => Some(x),
        KernelEvent::TaskCompleted(x) => Some(x),
        _ => None,
    }
}

/// Picks the task record of an event.
pub open spec fn task_pick() -> spec_fn(KernelEvent) -> Option<TaskRecord> {
    |x: KernelEvent| task_of(x)
}

/// The thread record an event carries, if any.
pub open spec fn thread_of(e: KernelEvent) -> Option<ThreadRecord> {
    match e {
        KernelEvent::ThreadConfigured(x) => Some(x),
        KernelEvent::ThreadStatusChanged(x) => Some(x),
        KernelEvent::AgentGoalAccomplished(x) => Some(x),
        _ => None,
    }
}

/// Picks the thread record of an event.
pub open spec fn thread_pick() -> spec_fn(KernelEvent) -> Option<ThreadRecord> {
    |x: KernelEvent| thread_of(x)
}

/// The invocation edge an event carries, if any.
pub open spec fn invocation_of(e: KernelEvent) -> Option<AgentInvocation> {
    match e {
        KernelEvent::AgentInvocationRecorded(x) => Some(x),
        _ => None,
    }
}

/// Picks the invocation edge of an event.
pub open spec fn invocation_pick() -> spec_fn(KernelEvent) -> Option<AgentInvocation> {
    |x: KernelEvent| invocation_of(x)
}

/// The communication profile an event carries, if any.
pub open spec fn profile_of(e: KernelEvent) -> Option<CommunicationProfile> {
    match e {
        KernelEvent::CommunicationProfileAssigned(x) => Some(x),
        _ => None,
    }
}

/// Picks the communication profile of an event.
pub open spec fn profile_pick() -> spec_fn(KernelEvent) -> Option<CommunicationProfile> {
    |x: KernelEvent| profile_of(x)
}

/// The permission request an event carries, if any.
pub open spec fn request_of(e: KernelEvent) -> Option<PermissionRequest> {
    match e {
        KernelEvent::PermissionRequested(x) => Some(x),
        KernelEvent::PermissionRequestResolved(x) => Some(x),
        _ => None,
    }
}

/// Picks the permission request of an event.
pub open spec fn request_pick() -> spec_fn(KernelEvent) -> Option<PermissionRequest> {
    |x: KernelEvent| request_of(x)
}

/// The review an event carries, if any.
pub open spec fn review_of(e: KernelEvent) -> Option<Review> {
    match e {
        KernelEvent::ReviewRequested(x) => Some(x),
        KernelEvent::ReviewSubmitted(x) => Some(x),
        _ => None,
    }
}

/// Picks the review of an event.
pub open spec fn review_pick() -> spec_fn(KernelEvent) -> Option<Review> {
    |x: KernelEvent| review_of(x)
}

/// The artifact record an event carries, if any.
pub open spec fn artifact_of(e: KernelEvent) -> Option<ArtifactRecord> {
    match e {
        KernelEvent::ArtifactCommitted(x) => Some(x),
        _ => None,
    }
}

/// Picks the artifact record of an event.
pub open spec fn artifact_pick() -> spec_fn(KernelEvent) -> Option<ArtifactRecord> {
    |x: KernelEvent| artifact_of(x)
}

/// The evidence record an event carries, if any.
pub open spec fn evidence_of(e: KernelEvent) -> Option<EvidenceRecord> {
    match e {
        KernelEvent::EvidenceAttached(x) => Some(x),
        _ => None,
    }
}

/// Picks the evidence record of an event.
pub open spec fn evidence_pick() -> spec_fn(KernelEvent) -> Option<EvidenceRecord> {
    |x: KernelEvent| evidence_of(x)
}

/// The approval record an event carries, if any.
pub open spec fn approval_of(e: KernelEvent) -> Option<Approval> {
    match e {
        KernelEvent::ApprovalRequested(x) => Some(x),
        KernelEvent::ApprovalRecorded(x) => Some(x),
        _ => None,
    }
}

/// Picks the approval record of an event.
pub open spec fn approval_pick() -> spec_fn(KernelEvent) -> Option<Approval> {
    |x: KernelEvent| approval_of(x)
}

/// The context record an event carries, if any.
pub open spec fn context_of(e: KernelEvent) -> Option<ContextSnapshot> {
    match e {
        KernelEvent::ContextLoaded(x) => Some(x),
        KernelEvent::ContextInvalidated(x) => Some(x),
        _ => None,
    }
}

/// Picks the context record of an event.
pub open spec fn context_pick() -> spec_fn(KernelEvent) -> Option<ContextSnapshot> {
    |x: KernelEvent| context_of(x)
}

/// The compaction record an event carries, if any.
pub open spec fn compaction_of(e: KernelEvent) -> Option<ContextCompaction> {
    match e {
        KernelEvent::ContextCompacted(x) => Some(x),
        _ => None,
    }
}

/// Picks the compaction record of an event.
pub open spec fn compaction_pick() -> spec_fn(KernelEvent) -> Option<ContextCompaction> {
    |x: KernelEvent| compaction_of(x)
}

/// The final record an event carries, if any.
pub open spec fn final_of(e: KernelEvent) -> Option<(String, FinalSubmission)> {
    match e {
        KernelEvent::FinalSubmitted { task_id, submission } => Some((task_id, submission)),
        _ => None,
    }
}

/// Picks the final record of an event.
pub open spec fn final_pick() -> spec_fn(KernelEvent) -> Option<(String, FinalSubmission)> {
    |x: KernelEvent| final_of(x)
}

/// `v` after the records that `pick` finds in `events` are kept in order.
pub open spec fn replayed<T: Projected>(v: Seq<T>, events: Seq<KernelEvent>, pick: spec_fn(KernelEvent) -> Option<T>) -> Seq<T>
    decreases events.len(),
{
    if events.len() == 0 {
        v
    } else {
        step_with(replayed(v, events.drop_last(), pick), events.last(), pick)
    }
}

/// `v` after the record that `pick` finds in `e`, if any, is kept.
pub open spec fn step_with<T: Projected>(v: Seq<T>, e: KernelEvent, pick: spec_fn(KernelEvent) -> Option<T>) -> Seq<T> {
    match pick(e) {
        Some(x) => with_record(v, x),
        None => v,
    }
}

/// The record of the last event in `events` that `pick` finds under id
/// `k`, if there is one.
pub open spec fn last_record<T: Projected>(events: Seq<KernelEvent>, pick: spec_fn(KernelEvent) -> Option<T>, k: Seq<char>) -> Option<T>
    decreases events.len(),
{
    if events.len() == 0 {
        None
    } else {
        match pick(events.last()) {
            Some(x) => if x.key_of() == k {
                Some(x)
            } else {
                last_record(events.drop_last(), pick, k)
            },
            None => last_record(events.drop_last(), pick, k),
        }
    }
}

/// Replaying a log from nothing keeps each id once, and under each id the
/// record of the log's last event for that id.
pub proof fn law_replay_keeps_last_record<T: Projected>(
    events: Seq<KernelEvent>,
    pick: spec_fn(KernelEvent) -> Option<T>,
    k: Seq<char>,
)
    ensures
        record_keys_unique(replayed(Seq::<T>::empty(), events, pick)),
        record_at(replayed(Seq::<T>::empty(), events, pick), k) == last_record(events, pick, k),
    decreases events.len(),
{
    if events.len() == 0 {
        let e = Seq::<T>::empty();
        assert(!keeps_key(e, k));
    } else {
        law_replay_keeps_last_record(events.drop_last(), pick, k);
        let before = replayed(Seq::<T>::empty(), events.drop_last(), pick);
        assert(replayed(Seq::<T>::empty(), events, pick) == step_with(before, events.last(), pick));
        match pick(events.last()) {
            Some(x) => {
                lemma_with_record(before, x, k);
            },
            None => {},
        }
    }
}

/// The log only grows: replaying it with one more event is replaying it
/// and then applying that event.
pub proof fn law_replay_of_appended_log<T: Projected>(
    v: Seq<T>,
    events: Seq<KernelEvent>,
    e: KernelEvent,
    pick: spec_fn(KernelEvent) -> Option<T>,
)
    ensures
        replayed(v, events.push(e), pick) == step_with(replayed(v, events, pick), e, pick),
{
    assert(events.push(e).drop_last() =~= events);
}

/// The kinds of records the kernel derives from its event log.
pub struct Projection {
    pub goals: Seq<GoalRecord>,
    pub tasks: Seq<TaskRecord>,
    pub threads: Seq<ThreadRecord>,
    pub invocations: Seq<AgentInvocation>,
    pub communication_profiles: Seq<CommunicationProfile>,
    pub permission_requests: Seq<PermissionRequest>,
    pub reviews: Seq<Review>,
    pub artifacts: Seq<ArtifactRecord>,
    pub evidence: Seq<EvidenceRecord>,
    pub approvals: Seq<Approval>,
    pub context_snapshots: Seq<ContextSnapshot>,
    pub context_compactions: Seq<ContextCompaction>,
    pub final_submissions: Seq<(String, FinalSubmission)>,
}

/// The records of `s` that its event log determines.
pub open spec fn projection_of(s: KernelState) -> Projection {
    Projection {
        goals: s.goals@,
        tasks: s.tasks@,
        threads: s.threads@,
        invocations: s.invocations@,
        communication_profiles: s.communication_profiles@,
        permission_requests: s.permission_requests@,
        reviews: s.reviews@,
        artifacts: s.artifacts@,
        evidence: s.evidence@,
        approvals: s.approvals@,
        context_snapshots: s.context_snapshots@,
        context_compactions: s.context_compactions@,
        final_submissions: s.final_submissions@,
    }
}

/// What replaying `events` from nothing gives, kind by kind.
pub open spec fn replay_projection(events: Seq<KernelEvent>) -> Projection {
    Projection {
        goals: replayed(Seq::empty(), events, goal_pick()),
        tasks: replayed(Seq::empty(), events, task_pick()),
        threads: replayed(Seq::empty(), events, thread_pick()),
        invocations: replayed(Seq::empty(), events, invocation_pick()),
        communication_profiles: replayed(Seq::empty(), events, profile_pick()),
        permission_requests: replayed(Seq::empty(), events, request_pick()),
        reviews: replayed(Seq::empty(), events, review_pick()),
        artifacts: replayed(Seq::empty(), events, artifact_pick()),
        evidence: replayed(Seq::empty(), events, evidence_pick()),
        approvals: replayed(Seq::empty(), events, approval_pick()),
        context_snapshots: replayed(Seq::empty(), events, context_pick()),
        context_compactions: replayed(Seq::empty(), events, compaction_pick()),
        final_submissions: replayed(Seq::empty(), events, final_pick()),
    }
}

/// Each kind of record in `p` is a copy, record by record, of what
/// replaying `events` from nothing gives.
pub closed spec fn log_matches(p: Projection, events: Seq<KernelEvent>) -> bool {
    let q = replay_projection(events);
    &&& copied_seq(p.goals, q.goals)
    &&& copied_seq(p.tasks, q.tasks)
    &&& copied_seq(p.threads, q.threads)
    &&& copied_seq(p.invocations, q.invocations)
    &&& copied_seq(p.communication_profiles, q.communication_profiles)
    &&& copied_seq(p.permission_requests, q.permission_requests)
    &&& copied_seq(p.reviews, q.reviews)
    &&& copied_seq(p.artifacts, q.artifacts)
    &&& copied_seq(p.evidence, q.evidence)
    &&& copied_seq(p.approvals, q.approvals)
    &&& copied_seq(p.context_snapshots, q.context_snapshots)
    &&& copied_seq(p.context_compactions, q.context_compactions)
    &&& copied_seq(p.final_submissions, q.final_submissions)
}

/// The state a kernel derives from its log: each kind of record it keeps
/// is, record by record, a copy of what replaying its event log from
/// nothing gives.
pub proof fn law_state_is_replay_of_log(s: KernelState)
    requires
        s.wf(),
    ensures
        copied_seq(s.goals@, replayed(Seq::empty(), s.events@, goal_pick())),
        copied_seq(s.tasks@, replayed(Seq::empty(), s.events@, task_pick())),
        copied_seq(s.threads@, replayed(Seq::empty(), s.events@, thread_pick())),
        copied_seq(s.invocations@, replayed(Seq::empty(), s.events@, invocation_pick())),
        copied_seq(s.communication_profiles@, replayed(Seq::empty(), s.events@, profile_pick())),
        copied_seq(s.permission_requests@, replayed(Seq::empty(), s.events@, request_pick())),
        copied_seq(s.reviews@, replayed(Seq::empty(), s.events@, review_pick())),
        copied_seq(s.artifacts@, replayed(Seq::empty(), s.events@, artifact_pick())),
        copied_seq(s.evidence@, replayed(Seq::empty(), s.events@, evidence_pick())),
        copied_seq(s.approvals@, replayed(Seq::empty(), s.events@, approval_pick())),
        copied_seq(s.context_snapshots@, replayed(Seq::empty(), s.events@, context_pick())),
        copied_seq(s.context_compactions@, replayed(Seq::empty(), s.events@, compaction_pick())),
        copied_seq(s.final_submissions@, replayed(Seq::empty(), s.events@, final_pick())),
{
}

/// An empty log matches a state that keeps none of these records.
pub proof fn lemma_empty_log_matches(p: Projection)
    requires
        p.goals.len() == 0,
        p.tasks.len() == 0,
        p.threads.len() == 0,
        p.invocations.len() == 0,
        p.communication_profiles.len() == 0,
        p.permission_requests.len() == 0,
        p.reviews.len() == 0,
        p.artifacts.len() == 0,
        p.evidence.len() == 0,
        p.approvals.len() == 0,
        p.context_snapshots.len() == 0,
        p.context_compactions.len() == 0,
        p.final_submissions.len() == 0,
    ensures
        log_matches(p, Seq::empty()),
{
}

/// Keeping goal record `x` in the state and logging `e`, which carries a
/// copy of `x`, keeps the state the replay of its log.
pub proof fn lemma_log_goal(p: Projection, events: Seq<KernelEvent>, x: GoalRecord, e: KernelEvent)
    requires
        log_matches(p, events),
        goal_of(e) matches Some(c) && x.copies(&c),
    ensures
        log_matches(Projection { goals: with_record(p.goals, x), ..p }, events.push(e)),
{
    law_replay_of_appended_log(Seq::<GoalRecord>::empty(), events, e, goal_pick());
    law_replay_of_appended_log(Seq::<TaskRecord>::empty(), events, e, task_pick());
    law_replay_of_appended_log(Seq::<ThreadRecord>::empty(), events, e, thread_pick());
    law_replay_of_appended_log(Seq::<AgentInvocation>::empty(), events, e, invocation_pick());
    law_replay_of_appended_log(Seq::<CommunicationProfile>::empty(), events, e, profile_pick());
    law_replay_of_appended_log(Seq::<PermissionRequest>::empty(), events, e, request_pick());
    law_replay_of_appended_log(Seq::<Review>::empty(), events, e, review_pick());
    law_replay_of_appended_log(Seq::<ArtifactRecord>::empty(), events, e, artifact_pick());
    law_replay_of_appended_log(Seq::<EvidenceRecord>::empty(), events, e, evidence_pick());
    law_replay_of_appended_log(Seq::<Approval>::empty(), events, e, approval_pick());
    law_replay_of_appended_log(Seq::<ContextSnapshot>::empty(), events, e, context_pick());
    law_replay_of_appended_log(Seq::<ContextCompaction>::empty(), events, e, compaction_pick());
    law_replay_of_appended_log(Seq::<(String, FinalSubmission)>::empty(), events, e, final_pick());
    let q = replay_projection(events);
    lemma_with_record_copied(p.goals, q.goals, x, goal_of(e)->Some_0);
}

/// Keeping task record `x` in the state and logging `e`, which carries a
/// copy of `x`, keeps the state the replay of its log.
pub proof fn lemma_log_task(p: Projection, events: Seq<KernelEvent>, x: TaskRecord, e: KernelEvent)
    requires
        log_matches(p, events),
        task_of(e) matches Some(c) && x.copies(&c),
    ensures
        log_matches(Projection { tasks: with_record(p.tasks, x), ..p }, events.push(e)),
{
    law_replay_of_appended_log(Seq::<GoalRecord>::empty(), events, e, goal_pick());
    law_replay_of_appended_log(Seq::<TaskRecord>::empty(), events, e, task_pick());
    law_replay_of_appended_log(Seq::<ThreadRecord>::empty(), events, e, thread_pick());
    law_replay_of_appended_log(Seq::<AgentInvocation>::empty(), events, e, invocation_pick());
    law_replay_of_appended_log(Seq::<CommunicationProfile>::empty(), events, e, profile_pick());
    law_replay_of_appended_log(Seq::<PermissionRequest>::empty(), events, e, request_pick());
    law_replay_of_appended_log(Seq::<Review>::empty(), events, e, review_pick());
    law_replay_of_appended_log(Seq::<ArtifactRecord>::empty(), events, e, artifact_pick());
    law_replay_of_appended_log(Seq::<EvidenceRecord>::empty(), events, e, evidence_pick());
    law_replay_of_appended_log(Seq::<Approval>::empty(), events, e, approval_pick());
    law_replay_of_appended_log(Seq::<ContextSnapshot>::empty(), events, e, context_pick());
    law_replay_of_appended_log(Seq::<ContextCompaction>::empty(), events, e, compaction_pick());
    law_replay_of_appended_log(Seq::<(String, FinalSubmission)>::empty(), events, e, final_pick());
    let q = replay_projection(events);
    lemma_with_record_copied(p.tasks, q.tasks, x, task_of(e)->Some_0);
}

/// Keeping artifact record `x` in the state and logging `e`, which carries a
/// copy of `x`, keeps the state the replay of its log.
pub proof fn lemma_log_artifact(p: Projection, events: Seq<KernelEvent>, x: ArtifactRecord, e: KernelEvent)
    requires
        log_matches(p, events),
        artifact_of(e) matches Some(c) && x.copies(&c),
    ensures
        log_matches(Projection { artifacts: with_record(p.artifacts, x), ..p }, events.push(e)),
{
    law_replay_of_appended_log(Seq::<GoalRecord>::empty(), events, e, goal_pick());
    law_replay_of_appended_log(Seq::<TaskRecord>::empty(), events, e, task_pick());
    law_replay_of_appended_log(Seq::<ThreadRecord>::empty(), events, e, thread_pick());
    law_replay_of_appended_log(Seq::<AgentInvocation>::empty(), events, e, invocation_pick());
    law_replay_of_appended_log(Seq::<CommunicationProfile>::empty(), events, e, profile_pick());
    law_replay_of_appended_log(Seq::<PermissionRequest>::empty(), events, e, request_pick());
    law_replay_of_appended_log(Seq::<Review>::empty(), events, e, review_pick());
    law_replay_of_appended_log(Seq::<ArtifactRecord>::empty(), events, e, artifact_pick());
    law_replay_of_appended_log(Seq::<EvidenceRecord>::empty(), events, e, evidence_pick());
    law_replay_of_appended_log(Seq::<Approval>::empty(), events, e, approval_pick());
    law_replay_of_appended_log(Seq::<ContextSnapshot>::empty(), events, e, context_pick());
    law_replay_of_appended_log(Seq::<ContextCompaction>::empty(), events, e, compaction_pick());
    law_replay_of_appended_log(Seq::<(String, FinalSubmission)>::empty(), events, e, final_pick());
    let q = replay_projection(events);
    lemma_with_record_copied(p.artifacts, q.artifacts, x, artifact_of(e)->Some_0);
}

/// Keeping evidence record `x` in the state and logging `e`, which carries a
/// copy of `x`, keeps the state the replay of its log.
pub proof fn lemma_log_evidence(p: Projection, events: Seq<KernelEvent>, x: EvidenceRecord, e: KernelEvent)
    requires
        log_matches(p, events),
        evidence_of(e) matches Some(c) && x.copies(&c),
    ensures
        log_matches(Projection { evidence: with_record(p.evidence, x), ..p }, events.push(e)),
{
    law_replay_of_appended_log(Seq::<GoalRecord>::empty(), events, e, goal_pick());
    law_replay_of_appended_log(Seq::<TaskRecord>::empty(), events, e, task_pick());
    law_replay_of_appended_log(Seq::<ThreadRecord>::empty(), events, e, thread_pick());
    law_replay_of_appended_log(Seq::<AgentInvocation>::empty(), events, e, invocation_pick());
    law_replay_of_appended_log(Seq::<CommunicationProfile>::empty(), events, e, profile_pick());
    law_replay_of_appended_log(Seq::<PermissionRequest>::empty(), events, e, request_pick());
    law_replay_of_appended_log(Seq::<Review>::empty(), events, e, review_pick());
    law_replay_of_appended_log(Seq::<ArtifactRecord>::empty(), events, e, artifact_pick());
    law_replay_of_appended_log(Seq::<EvidenceRecord>::empty(), events, e, evidence_pick());
    law_replay_of_appended_log(Seq::<Approval>::empty(), events, e, approval_pick());
    law_replay_of_appended_log(Seq::<ContextSnapshot>::empty(), events, e, context_pick());
    law_replay_of_appended_log(Seq::<ContextCompaction>::empty(), events, e, compaction_pick());
    law_replay_of_appended_log(Seq::<(String, FinalSubmission)>::empty(), events, e, final_pick());
    let q = replay_projection(events);
    lemma_with_record_copied(p.evidence, q.evidence, x, evidence_of(e)->Some_0);
}

/// Keeping approval record `x` in the state and logging `e`, which carries a
/// copy of `x`, keeps the state the replay of its log.
pub proof fn lemma_log_approval(p: Projection, events: Seq<KernelEvent>, x: Approval, e: KernelEvent)
    requires
        log_matches(p, events),
        approval_of(e) matches Some(c) && x.copies(&c),
    ensures
        log_matches(Projection { approvals: with_record(p.approvals, x), ..p }, events.push(e)),
{
    law_replay_of_appended_log(Seq::<GoalRecord>::empty(), events, e, goal_pick());
    law_replay_of_appended_log(Seq::<TaskRecord>::empty(), events, e, task_pick());
    law_replay_of_appended_log(Seq::<ThreadRecord>::empty(), events, e, thread_pick());
    law_replay_of_appended_log(Seq::<AgentInvocation>::empty(), events, e, invocation_pick());
    law_replay_of_appended_log(Seq::<CommunicationProfile>::empty(), events, e, profile_pick());
    law_replay_of_appended_log(Seq::<PermissionRequest>::empty(), events, e, request_pick());
    law_replay_of_appended_log(Seq::<Review>::empty(), events, e, review_pick());
    law_replay_of_appended_log(Seq::<ArtifactRecord>::empty(), events, e, artifact_pick());
    law_replay_of_appended_log(Seq::<EvidenceRecord>::empty(), events, e, evidence_pick());
    law_replay_of_appended_log(Seq::<Approval>::empty(), events, e, approval_pick());
    law_replay_of_appended_log(Seq::<ContextSnapshot>::empty(), events, e, context_pick());
    law_replay_of_appended_log(Seq::<ContextCompaction>::empty(), events, e, compaction_pick());
    law_replay_of_appended_log(Seq::<(String, FinalSubmission)>::empty(), events, e, final_pick());
    let q = replay_projection(events);
    lemma_with_record_copied(p.approvals, q.approvals, x, approval_of(e)->Some_0);
}

/// Keeping context record `x` in the state and logging `e`, which carries a
/// copy of `x`, keeps the state the replay of its log.
pub proof fn lemma_log_context(p: Projection, events: Seq<KernelEvent>, x: ContextSnapshot, e: KernelEvent)
    requires
        log_matches(p, events),
        context_of(e) matches Some(c) && x.copies(&c),
    ensures
        log_matches(Projection { context_snapshots: with_record(p.context_snapshots, x), ..p }, events.push(e)),
{
    law_replay_of_appended_log(Seq::<GoalRecord>::empty(), events, e, goal_pick());
    law_replay_of_appended_log(Seq::<TaskRecord>::empty(), events, e, task_pick());
    law_replay_of_appended_log(Seq::<ThreadRecord>::empty(), events, e, thread_pick());
    law_replay_of_appended_log(Seq::<AgentInvocation>::empty(), events, e, invocation_pick());
    law_replay_of_appended_log(Seq::<CommunicationProfile>::empty(), events, e, profile_pick());
    law_replay_of_appended_log(Seq::<PermissionRequest>::empty(), events, e, request_pick());
    law_replay_of_appended_log(Seq::<Review>::empty(), events, e, review_pick());
    law_replay_of_appended_log(Seq::<ArtifactRecord>::empty(), events, e, artifact_pick());
    law_replay_of_appended_log(Seq::<EvidenceRecord>::empty(), events, e, evidence_pick());
    law_replay_of_appended_log(Seq::<Approval>::empty(), events, e, approval_pick());
    law_replay_of_appended_log(Seq::<ContextSnapshot>::empty(), events, e, context_pick());
    law_replay_of_appended_log(Seq::<ContextCompaction>::empty(), events, e, compaction_pick());
    law_replay_of_appended_log(Seq::<(String, FinalSubmission)>::empty(), events, e, final_pick());
    let q = replay_projection(events);
    lemma_with_record_copied(p.context_snapshots, q.context_snapshots, x, context_of(e)->Some_0);
}

/// Keeping compaction record `x` in the state and logging `e`, which carries a
/// copy of `x`, keeps the state the replay of its log.
pub proof fn lemma_log_compaction(p: Projection, events: Seq<KernelEvent>, x: ContextCompaction, e: KernelEvent)
    requires
        log_matches(p, events),
        compaction_of(e) matches Some(c) && x.copies(&c),
    ensures
        log_matches(Projection { context_compactions: with_record(p.context_compactions, x), ..p }, events.push(e)),
{
    law_replay_of_appended_log(Seq::<GoalRecord>::empty(), events, e, goal_pick());
    law_replay_of_appended_log(Seq::<TaskRecord>::empty(), events, e, task_pick());
    law_replay_of_appended_log(Seq::<ThreadRecord>::empty(), events, e, thread_pick());
    law_replay_of_appended_log(Seq::<AgentInvocation>::empty(), events, e, invocation_pick());
    law_replay_of_appended_log(Seq::<CommunicationProfile>::empty(), events, e, profile_pick());
    law_replay_of_appended_log(Seq::<PermissionRequest>::empty(), events, e, request_pick());
    law_replay_of_appended_log(Seq::<Review>::empty(), events, e, review_pick());
    law_replay_of_appended_log(Seq::<ArtifactRecord>::empty(), events, e, artifact_pick());
    law_replay_of_appended_log(Seq::<EvidenceRecord>::empty(), events, e, evidence_pick());
    law_replay_of_appended_log(Seq::<Approval>::empty(), events, e, approval_pick());
    law_replay_of_appended_log(Seq::<ContextSnapshot>::empty(), events, e, context_pick());
    law_replay_of_appended_log(Seq::<ContextCompaction>::empty(), events, e, compaction_pick());
    law_replay_of_appended_log(Seq::<(String, FinalSubmission)>::empty(), events, e, final_pick());
    let q = replay_projection(events);
    lemma_with_record_copied(p.context_compactions, q.context_compactions, x, compaction_of(e)->Some_0);
}

/// Keeping final record `x` in the state and logging `e`, which carries a
/// copy of `x`, keeps the state the replay of its log.
pub proof fn lemma_log_final(p: Projection, events: Seq<KernelEvent>, x: (String, FinalSubmission), e: KernelEvent)
    requires
        log_matches(p, events),
        final_of(e) matches Some(c) && x.copies(&c),
    ensures
        log_matches(Projection { final_submissions: with_record(p.final_submissions, x), ..p }, events.push(e)),
{
    law_replay_of_appended_log(Seq::<GoalRecord>::empty(), events, e, goal_pick());
    law_replay_of_appended_log(Seq::<TaskRecord>::empty(), events, e, task_pick());
    law_replay_of_appended_log(Seq::<ThreadRecord>::empty(), events, e, thread_pick());
    law_replay_of_appended_log(Seq::<AgentInvocation>::empty(), events, e, invocation_pick());
    law_replay_of_appended_log(Seq::<CommunicationProfile>::empty(), events, e, profile_pick());
    law_replay_of_appended_log(Seq::<PermissionRequest>::empty(), events, e, request_pick());
    law_replay_of_appended_log(Seq::<Review>::empty(), events, e, review_pick());
    law_replay_of_appended_log(Seq::<ArtifactRecord>::empty(), events, e, artifact_pick());
    law_replay_of_appended_log(Seq::<EvidenceRecord>::empty(), events, e, evidence_pick());
    law_replay_of_appended_log(Seq::<Approval>::empty(), events, e, approval_pick());
    law_replay_of_appended_log(Seq::<ContextSnapshot>::empty(), events, e, context_pick());
    law_replay_of_appended_log(Seq::<ContextCompaction>::empty(), events, e, compaction_pick());
    law_replay_of_appended_log(Seq::<(String, FinalSubmission)>::empty(), events, e, final_pick());
    let q = replay_projection(events);
    lemma_with_record_copied(p.final_submissions, q.final_submissions, x, final_of(e)->Some_0);
}

/// Keeping thread record `x` in the state and logging `e`, which carries a
/// copy of `x`, keeps the state the replay of its log.
pub proof fn lemma_log_thread(p: Projection, events: Seq<KernelEvent>, x: ThreadRecord, e: KernelEvent)
    requires
        log_matches(p, events),
        thread_of(e) matches Some(c) && x.copies(&c),
    ensures
        log_matches(Projection { threads: with_record(p.threads, x), ..p }, events.push(e)),
{
    law_replay_of_appended_log(Seq::<GoalRecord>::empty(), events, e, goal_pick());
    law_replay_of_appended_log(Seq::<TaskRecord>::empty(), events, e, task_pick());
    law_replay_of_appended_log(Seq::<ThreadRecord>::empty(), events, e, thread_pick());
    law_replay_of_appended_log(Seq::<AgentInvocation>::empty(), events, e, invocation_pick());
    law_replay_of_appended_log(Seq::<CommunicationProfile>::empty(), events, e, profile_pick());
    law_replay_of_appended_log(Seq::<PermissionRequest>::empty(), events, e, request_pick());
    law_replay_of_appended_log(Seq::<Review>::empty(), events, e, review_pick());
    law_replay_of_appended_log(Seq::<ArtifactRecord>::empty(), events, e, artifact_pick());
    law_replay_of_appended_log(Seq::<EvidenceRecord>::empty(), events, e, evidence_pick());
    law_replay_of_appended_log(Seq::<Approval>::empty(), events, e, approval_pick());
    law_replay_of_appended_log(Seq::<ContextSnapshot>::empty(), events, e, context_pick());
    law_replay_of_appended_log(Seq::<ContextCompaction>::empty(), events, e, compaction_pick());
    law_replay_of_appended_log(Seq::<(String, FinalSubmission)>::empty(), events, e, final_pick());
    let q = replay_projection(events);
    lemma_with_record_copied(p.threads, q.threads, x, thread_of(e)->Some_0);
}

/// Keeping invocation edge `x` in the state and logging `e`, which carries a
/// copy of `x`, keeps the state the replay of its log.
pub proof fn lemma_log_invocation(p: Projection, events: Seq<KernelEvent>, x: AgentInvocation, e: KernelEvent)
    requires
        log_matches(p, events),
        invocation_of(e) matches Some(c) && x.copies(&c),
    ensures
        log_matches(Projection { invocations: with_record(p.invocations, x), ..p }, events.push(e)),
{
    law_replay_of_appended_log(Seq::<GoalRecord>::empty(), events, e, goal_pick());
    law_replay_of_appended_log(Seq::<TaskRecord>::empty(), events, e, task_pick());
    law_replay_of_appended_log(Seq::<ThreadRecord>::empty(), events, e, thread_pick());
    law_replay_of_appended_log(Seq::<AgentInvocation>::empty(), events, e, invocation_pick());
    law_replay_of_appended_log(Seq::<CommunicationProfile>::empty(), events, e, profile_pick());
    law_replay_of_appended_log(Seq::<PermissionRequest>::empty(), events, e, request_pick());
    law_replay_of_appended_log(Seq::<Review>::empty(), events, e, review_pick());
    law_replay_of_appended_log(Seq::<ArtifactRecord>::empty(), events, e, artifact_pick());
    law_replay_of_appended_log(Seq::<EvidenceRecord>::empty(), events, e, evidence_pick());
    law_replay_of_appended_log(Seq::<Approval>::empty(), events, e, approval_pick());
    law_replay_of_appended_log(Seq::<ContextSnapshot>::empty(), events, e, context_pick());
    law_replay_of_appended_log(Seq::<ContextCompaction>::empty(), events, e, compaction_pick());
    law_replay_of_appended_log(Seq::<(String, FinalSubmission)>::empty(), events, e, final_pick());
    let q = replay_projection(events);
    lemma_with_record_copied(p.invocations, q.invocations, x, invocation_of(e)->Some_0);
}

/// Keeping communication profile `x` in the state and logging `e`, which carries a
/// copy of `x`, keeps the state the replay of its log.
pub proof fn lemma_log_profile(p: Projection, events: Seq<KernelEvent>, x: CommunicationProfile, e: KernelEvent)
    requires
        log_matches(p, events),
        profile_of(e) matches Some(c) && x.copies(&c),
    ensures
        log_matches(Projection { communication_profiles: with_record(p.communication_profiles, x), ..p }, events.push(e)),
{
    law_replay_of_appended_log(Seq::<GoalRecord>::empty(), events, e, goal_pick());
    law_replay_of_appended_log(Seq::<TaskRecord>::empty(), events, e, task_pick());
    law_replay_of_appended_log(Seq::<ThreadRecord>::empty(), events, e, thread_pick());
    law_replay_of_appended_log(Seq::<AgentInvocation>::empty(), events, e, invocation_pick());
    law_replay_of_appended_log(Seq::<CommunicationProfile>::empty(), events, e, profile_pick());
    law_replay_of_appended_log(Seq::<PermissionRequest>::empty(), events, e, request_pick());
    law_replay_of_appended_log(Seq::<Review>::empty(), events, e, review_pick());
    law_replay_of_appended_log(Seq::<ArtifactRecord>::empty(), events, e, artifact_pick());
    law_replay_of_appended_log(Seq::<EvidenceRecord>::empty(), events, e, evidence_pick());
    law_replay_of_appended_log(Seq::<Approval>::empty(), events, e, approval_pick());
    law_replay_of_appended_log(Seq::<ContextSnapshot>::empty(), events, e, context_pick());
    law_replay_of_appended_log(Seq::<ContextCompaction>::empty(), events, e, compaction_pick());
    law_replay_of_appended_log(Seq::<(String, FinalSubmission)>::empty(), events, e, final_pick());
    let q = replay_projection(events);
    lemma_with_record_copied(p.communication_profiles, q.communication_profiles, x, profile_of(e)->Some_0);
}

/// Keeping permission request `x` in the state and logging `e`, which carries a
/// copy of `x`, keeps the state the replay of its log.
pub proof fn lemma_log_request(p: Projection, events: Seq<KernelEvent>, x: PermissionRequest, e: KernelEvent)
    requires
        log_matches(p, events),
        request_of(e) matches Some(c) && x.copies(&c),
    ensures
        log_matches(Projection { permission_requests: with_record(p.permission_requests, x), ..p }, events.push(e)),
{
    law_replay_of_appended_log(Seq::<GoalRecord>::empty(), events, e, goal_pick());
    law_replay_of_appended_log(Seq::<TaskRecord>::empty(), events, e, task_pick());
    law_replay_of_appended_log(Seq::<ThreadRecord>::empty(), events, e, thread_pick());
    law_replay_of_appended_log(Seq::<AgentInvocation>::empty(), events, e, invocation_pick());
    law_replay_of_appended_log(Seq::<CommunicationProfile>::empty(), events, e, profile_pick());
    law_replay_of_appended_log(Seq::<PermissionRequest>::empty(), events, e, request_pick());
    law_replay_of_appended_log(Seq::<Review>::empty(), events, e, review_pick());
    law_replay_of_appended_log(Seq::<ArtifactRecord>::empty(), events, e, artifact_pick());
    law_replay_of_appended_log(Seq::<EvidenceRecord>::empty(), events, e, evidence_pick());
    law_replay_of_appended_log(Seq::<Approval>::empty(), events, e, approval_pick());
    law_replay_of_appended_log(Seq::<ContextSnapshot>::empty(), events, e, context_pick());
    law_replay_of_appended_log(Seq::<ContextCompaction>::empty(), events, e, compaction_pick());
    law_replay_of_appended_log(Seq::<(String, FinalSubmission)>::empty(), events, e, final_pick());
    let q = replay_projection(events);
    lemma_with_record_copied(p.permission_requests, q.permission_requests, x, request_of(e)->Some_0);
}

/// Keeping review `x` in the state and logging `e`, which carries a
/// copy of `x`, keeps the state the replay of its log.
pub proof fn lemma_log_review(p: Projection, events: Seq<KernelEvent>, x: Review, e: KernelEvent)
    requires
        log_matches(p, events),
        review_of(e) matches Some(c) && x.copies(&c),
    ensures
        log_matches(Projection { reviews: with_record(p.reviews, x), ..p }, events.push(e)),
{
    law_replay_of_appended_log(Seq::<GoalRecord>::empty(), events, e, goal_pick());
    law_replay_of_appended_log(Seq::<TaskRecord>::empty(), events, e, task_pick());
    law_replay_of_appended_log(Seq::<ThreadRecord>::empty(), events, e, thread_pick());
    law_replay_of_appended_log(Seq::<AgentInvocation>::empty(), events, e, invocation_pick());
    law_replay_of_appended_log(Seq::<CommunicationProfile>::empty(), events, e, profile_pick());
    law_replay_of_appended_log(Seq::<PermissionRequest>::empty(), events, e, request_pick());
    law_replay_of_appended_log(Seq::<Review>::empty(), events, e, review_pick());
    law_replay_of_appended_log(Seq::<ArtifactRecord>::empty(), events, e, artifact_pick());
    law_replay_of_appended_log(Seq::<EvidenceRecord>::empty(), events, e, evidence_pick());
    law_replay_of_appended_log(Seq::<Approval>::empty(), events, e, approval_pick());
    law_replay_of_appended_log(Seq::<ContextSnapshot>::empty(), events, e, context_pick());
    law_replay_of_appended_log(Seq::<ContextCompaction>::empty(), events, e, compaction_pick());
    law_replay_of_appended_log(Seq::<(String, FinalSubmission)>::empty(), events, e, final_pick());
    let q = replay_projection(events);
    lemma_with_record_copied(p.reviews, q.reviews, x, review_of(e)->Some_0);
}

/// State `post` is state `pre` after event `e` is applied: the record it
/// carries is kept under its id, a copy of the event is appended to the
/// log, and nothing else changes.
pub open spec fn event_applied(pre: KernelState, post: KernelState, e: KernelEvent) -> bool {
    &&& post.goals@ == step_with(pre.goals@, e, goal_pick())
    &&& post.tasks@ == step_with(pre.tasks@, e, task_pick())
    &&& post.threads@ == step_with(pre.threads@, e, thread_pick())
    &&& post.invocations@ == step_with(pre.invocations@, e, invocation_pick())
    &&& post.communication_profiles@ == step_with(pre.communication_profiles@, e, profile_pick())
    &&& post.permission_requests@ == step_with(pre.permission_requests@, e, request_pick())
    &&& post.reviews@ == step_with(pre.reviews@, e, review_pick())
    &&& post.artifacts@ == step_with(pre.artifacts@, e, artifact_pick())
    &&& post.evidence@ == step_with(pre.evidence@, e, evidence_pick())
    &&& post.approvals@ == step_with(pre.approvals@, e, approval_pick())
    &&& post.context_snapshots@ == step_with(pre.context_snapshots@, e, context_pick())
    &&& post.context_compactions@ == step_with(pre.context_compactions@, e, compaction_pick())
    &&& post.final_submissions@ == step_with(pre.final_submissions@, e, final_pick())
    &&& post.events@.len() == pre.events@.len() + 1
    &&& post.events@.drop_last() == pre.events@
    &&& event_copies(e, post.events@.last())
    &&& post == (KernelState {
        goals: post.goals,
        tasks: post.tasks,
        threads: post.threads,
        invocations: post.invocations,
        communication_profiles: post.communication_profiles,
        permission_requests: post.permission_requests,
        reviews: post.reviews,
        artifacts: post.artifacts,
        evidence: post.evidence,
        approvals: post.approvals,
        context_snapshots: post.context_snapshots,
        context_compactions: post.context_compactions,
        final_submissions: post.final_submissions,
        events: post.events,
        ..pre
    })
}

impl KernelState {
    /// Applies event `e`: keeps the record it carries under its id, in
    /// place of the one kept there before, and appends the event to the log.
    pub fn apply_event(&mut self, event: KernelEvent)
        requires
            old(self).wf(),
        ensures
            final(self).wf(),
            event_applied(*old(self), *final(self), event),
    {
        let ghost pre = *self;
        let logged = event.log_copy();
        match event {
            KernelEvent::GoalRegistered(x) => {
                let ghost gx = x;
                proof {
                    assert(record_keys_unique(self.goals@));
                }
                keep_record(&mut self.goals, x);
                proof {
                    assert forall|a: int, b: int|
                        0 <= a < self.goals@.len() && 0 <= b < self.goals@.len()
                            && #[trigger] self.goals@[a].goal_id@ == #[trigger] self.goals@[b].goal_id@
                        implies a == b by {
                        assert(self.goals@[a].key_of() == self.goals@[b].key_of());
                    }
                    lemma_log_goal(projection_of(pre), pre.events@, gx, logged);
                }
            },
            KernelEvent::GoalUpdated(x) => {
                let ghost gx = x;
                proof {
                    assert(record_keys_unique(self.goals@));
                }
                keep_record(&mut self.goals, x);
                proof {
                    assert forall|a: int, b: int|
                        0 <= a < self.goals@.len() && 0 <= b < self.goals@.len()
                            && #[trigger] self.goals@[a].goal_id@ == #[trigger] self.goals@[b].goal_id@
                        implies a == b by {
                        assert(self.goals@[a].key_of() == self.goals@[b].key_of());
                    }
                    lemma_log_goal(projection_of(pre), pre.events@, gx, logged);
                }
            },
            KernelEvent::TaskSpawned(x) => {
                let ghost gx = x;
                proof {
                    assert(record_keys_unique(self.tasks@));
                }
                keep_record(&mut self.tasks, x);
                proof {
                    assert forall|a: int, b: int|
                        0 <= a < self.tasks@.len() && 0 <= b < self.tasks@.len()
                            && #[trigger] self.tasks@[a].task_id@ == #[trigger] self.tasks@[b].task_id@
                        implies a == b by {
                        assert(self.tasks@[a].key_of() == self.tasks@[b].key_of());
                    }
                    lemma_log_task(projection_of(pre), pre.events@, gx, logged);
                }
            },
            KernelEvent::TaskUpdated(x) => {
                let ghost gx = x;
                proof {
                    assert(record_keys_unique(self.tasks@));
                }
                keep_record(&mut self.tasks, x);
                proof {
                    assert forall|a: int, b: int|
                        0 <= a < self.tasks@.len() && 0 <= b < self.tasks@.len()
                            && #[trigger] self.tasks@[a].task_id@ == #[trigger] self.tasks@[b].task_id@
                        implies a == b by {
                        assert(self.tasks@[a].key_of() == self.tasks@[b].key_of());
                    }
                    lemma_log_task(projection_of(pre), pre.events@, gx, logged);
                }
            },
            KernelEvent::TaskCompleted(x) => {
                let ghost gx = x;
                proof {
                    assert(record_keys_unique(self.tasks@));
                }
                keep_record(&mut self.tasks, x);
                proof {
                    assert forall|a: int, b: int|
                        0 <= a < self.tasks@.len() && 0 <= b < self.tasks@.len()
                            && #[trigger] self.tasks@[a].task_id@ == #[trigger] self.tasks@[b].task_id@
                        implies a == b by {
                        assert(self.tasks@[a].key_of() == self.tasks@[b].key_of());
                    }
                    lemma_log_task(projection_of(pre), pre.events@, gx, logged);
                }
            },
            KernelEvent::ThreadConfigured(x) => {
                let ghost gx = x;
                proof {
                    assert(record_keys_unique(self.threads@));
                }
                keep_record(&mut self.threads, x);
                proof {
                    assert forall|a: int, b: int|
                        0 <= a < self.threads@.len() && 0 <= b < self.threads@.len()
                            && #[trigger] self.threads@[a].lifecycle.thread_id@ == #[trigger] self.threads@[b].lifecycle.thread_id@
                        implies a == b by {
                        assert(self.threads@[a].key_of() == self.threads@[b].key_of());
                    }
                    lemma_log_thread(projection_of(pre), pre.events@, gx, logged);
                }
            },
            KernelEvent::ThreadStatusChanged(x) => {
                let ghost gx = x;
                proof {
                    assert(record_keys_unique(self.threads@));
                }
                keep_record(&mut self.threads, x);
                proof {
                    assert forall|a: int, b: int|
                        0 <= a < self.threads@.len() && 0 <= b < self.threads@.len()
                            && #[trigger] self.threads@[a].lifecycle.thread_id@ == #[trigger] self.threads@[b].lifecycle.thread_id@
                        implies a == b by {
                        assert(self.threads@[a].key_of() == self.threads@[b].key_of());
                    }
                    lemma_log_thread(projection_of(pre), pre.events@, gx, logged);
                }
            },
            KernelEvent::AgentGoalAccomplished(x) => {
                let ghost gx = x;
                proof {
                    assert(record_keys_unique(self.threads@));
                }
                keep_record(&mut self.threads, x);
                proof {
                    assert forall|a: int, b: int|
                        0 <= a < self.threads@.len() && 0 <= b < self.threads@.len()
                            && #[trigger] self.threads@[a].lifecycle.thread_id@ == #[trigger] self.threads@[b].lifecycle.thread_id@
                        implies a == b by {
                        assert(self.threads@[a].key_of() == self.threads@[b].key_of());
                    }
                    lemma_log_thread(projection_of(pre), pre.events@, gx, logged);
                }
            },
            KernelEvent::AgentInvocationRecorded(x) => {
                let ghost gx = x;
                proof {
                    assert(record_keys_unique(self.invocations@));
                }
                keep_record(&mut self.invocations, x);
                proof {
                    assert forall|a: int, b: int|
                        0 <= a < self.invocations@.len() && 0 <= b < self.invocations@.len()
                            && #[trigger] self.invocations@[a].invocation_id@ == #[trigger] self.invocations@[b].invocation_id@
                        implies a == b by {
                        assert(self.invocations@[a].key_of() == self.invocations@[b].key_of());
                    }
                    lemma_log_invocation(projection_of(pre), pre.events@, gx, logged);
                }
            },
            KernelEvent::CommunicationProfileAssigned(x) => {
                let ghost gx = x;
                proof {
                    assert(record_keys_unique(self.communication_profiles@));
                }
                keep_record(&mut self.communication_profiles, x);
                proof {
                    assert forall|a: int, b: int|
                        0 <= a < self.communication_profiles@.len() && 0 <= b < self.communication_profiles@.len()
                            && #[trigger] self.communication_profiles@[a].communication_profile_id@ == #[trigger] self.communication_profiles@[b].communication_profile_id@
                        implies a == b by {
                        assert(self.communication_profiles@[a].key_of() == self.communication_profiles@[b].key_of());
                    }
                    lemma_log_profile(projection_of(pre), pre.events@, gx, logged);
                }
            },
            KernelEvent::PermissionRequested(x) => {
                let ghost gx = x;
                proof {
                    assert(record_keys_unique(self.permission_requests@));
                }
                keep_record(&mut self.permission_requests, x);
                proof {
                    assert forall|a: int, b: int|
                        0 <= a < self.permission_requests@.len() && 0 <= b < self.permission_requests@.len()
                            && #[trigger] self.permission_requests@[a].permission_request_id@ == #[trigger] self.permission_requests@[b].permission_request_id@
                        implies a == b by {
                        assert(self.permission_requests@[a].key_of() == self.permission_requests@[b].key_of());
                    }
                    lemma_log_request(projection_of(pre), pre.events@, gx, logged);
                }
            },
            KernelEvent::PermissionRequestResolved(x) => {
                let ghost gx = x;
                proof {
                    assert(record_keys_unique(self.permission_requests@));
                }
                keep_record(&mut self.permission_requests, x);
                proof {
                    assert forall|a: int, b: int|
                        0 <= a < self.permission_requests@.len() && 0 <= b < self.permission_requests@.len()
                            && #[trigger] self.permission_requests@[a].permission_request_id@ == #[trigger] self.permission_requests@[b].permission_request_id@
                        implies a == b by {
                        assert(self.permission_requests@[a].key_of() == self.permission_requests@[b].key_of());
                    }
                    lemma_log_request(projection_of(pre), pre.events@, gx, logged);
                }
            },
            KernelEvent::ReviewRequested(x) => {
                let ghost gx = x;
                proof {
                    assert(record_keys_unique(self.reviews@));
                }
                keep_record(&mut self.reviews, x);
                proof {
                    assert forall|a: int, b: int|
                        0 <= a < self.reviews@.len() && 0 <= b < self.reviews@.len()
                            && #[trigger] self.reviews@[a].review_id@ == #[trigger] self.reviews@[b].review_id@
                        implies a == b by {
                        assert(self.reviews@[a].key_of() == self.reviews@[b].key_of());
                    }
                    lemma_log_review(projection_of(pre), pre.events@, gx, logged);
                }
            },
            KernelEvent::ReviewSubmitted(x) => {
                let ghost gx = x;
                proof {
                    assert(record_keys_unique(self.reviews@));
                }
                keep_record(&mut self.reviews, x);
                proof {
                    assert forall|a: int, b: int|
                        0 <= a < self.reviews@.len() && 0 <= b < self.reviews@.len()
                            && #[trigger] self.reviews@[a].review_id@ == #[trigger] self.reviews@[b].review_id@
                        implies a == b by {
                        assert(self.reviews@[a].key_of() == self.reviews@[b].key_of());
                    }
                    lemma_log_review(projection_of(pre), pre.events@, gx, logged);
                }
            },
            KernelEvent::ArtifactCommitted(x) => {
                let ghost gx = x;
                proof {
                    assert(record_keys_unique(self.artifacts@));
                }
                keep_record(&mut self.artifacts, x);
                proof {
                    assert forall|a: int, b: int|
                        0 <= a < self.artifacts@.len() && 0 <= b < self.artifacts@.len()
                            && #[trigger] self.artifacts@[a].artifact_id@ == #[trigger] self.artifacts@[b].artifact_id@
                        implies a == b by {
                        assert(self.artifacts@[a].key_of() == self.artifacts@[b].key_of());
                    }
                    lemma_log_artifact(projection_of(pre), pre.events@, gx, logged);
                }
            },
            KernelEvent::EvidenceAttached(x) => {
                let ghost gx = x;
                proof {
                    assert(record_keys_unique(self.evidence@));
                }
                keep_record(&mut self.evidence, x);
                proof {
                    assert forall|a: int, b: int|
                        0 <= a < self.evidence@.len() && 0 <= b < self.evidence@.len()
                            && #[trigger] self.evidence@[a].evidence_id@ == #[trigger] self.evidence@[b].evidence_id@
                        implies a == b by {
                        assert(self.evidence@[a].key_of() == self.evidence@[b].key_of());
                    }
                    lemma_log_evidence(projection_of(pre), pre.events@, gx, logged);
                }
            },
            KernelEvent::ApprovalRequested(x) => {
                let ghost gx = x;
                proof {
                    assert(record_keys_unique(self.approvals@));
                }
                keep_record(&mut self.approvals, x);
                proof {
                    assert forall|a: int, b: int|
                        0 <= a < self.approvals@.len() && 0 <= b < self.approvals@.len()
                            && #[trigger] self.approvals@[a].approval_id@ == #[trigger] self.approvals@[b].approval_id@
                        implies a == b by {
                        assert(self.approvals@[a].key_of() == self.approvals@[b].key_of());
                    }
                    lemma_log_approval(projection_of(pre), pre.events@, gx, logged);
                }
            },
            KernelEvent::ApprovalRecorded(x) => {
                let ghost gx = x;
                proof {
                    assert(record_keys_unique(self.approvals@));
                }
                keep_record(&mut self.approvals, x);
                proof {
                    assert forall|a: int, b: int|
                        0 <= a < self.approvals@.len() && 0 <= b < self.approvals@.len()
                            && #[trigger] self.approvals@[a].approval_id@ == #[trigger] self.approvals@[b].approval_id@
                        implies a == b by {
                        assert(self.approvals@[a].key_of() == self.approvals@[b].key_of());
                    }
                    lemma_log_approval(projection_of(pre), pre.events@, gx, logged);
                }
            },
            KernelEvent::ContextLoaded(x) => {
                let ghost gx = x;
                proof {
                    assert(record_keys_unique(self.context_snapshots@));
                }
                keep_record(&mut self.context_snapshots, x);
                proof {
                    assert forall|a: int, b: int|
                        0 <= a < self.context_snapshots@.len() && 0 <= b < self.context_snapshots@.len()
                            && #[trigger] self.context_snapshots@[a].context_id@ == #[trigger] self.context_snapshots@[b].context_id@
                        implies a == b by {
                        assert(self.context_snapshots@[a].key_of() == self.context_snapshots@[b].key_of());
                    }
                    lemma_log_context(projection_of(pre), pre.events@, gx, logged);
                }
            },
            KernelEvent::ContextInvalidated(x) => {
                let ghost gx = x;
                proof {
                    assert(record_keys_unique(self.context_snapshots@));
                }
                keep_record(&mut self.context_snapshots, x);
                proof {
                    assert forall|a: int, b: int|
                        0 <= a < self.context_snapshots@.len() && 0 <= b < self.context_snapshots@.len()
                            && #[trigger] self.context_snapshots@[a].context_id@ == #[trigger] self.context_snapshots@[b].context_id@
                        implies a == b by {
                        assert(self.context_snapshots@[a].key_of() == self.context_snapshots@[b].key_of());
                    }
                    lemma_log_context(projection_of(pre), pre.events@, gx, logged);
                }
            },
            KernelEvent::ContextCompacted(x) => {
                let ghost gx = x;
                proof {
                    assert(record_keys_unique(self.context_compactions@));
                }
                keep_record(&mut self.context_compactions, x);
                proof {
                    assert forall|a: int, b: int|
                        0 <= a < self.context_compactions@.len() && 0 <= b < self.context_compactions@.len()
                            && #[trigger] self.context_compactions@[a].compaction_id@ == #[trigger] self.context_compactions@[b].compaction_id@
                        implies a == b by {
                        assert(self.context_compactions@[a].key_of() == self.context_compactions@[b].key_of());
                    }
                    lemma_log_compaction(projection_of(pre), pre.events@, gx, logged);
                }
            },
            KernelEvent::FinalSubmitted { task_id, submission } => {
                let x = (task_id, submission);
                let ghost gx = x;
                keep_record(&mut self.final_submissions, x);
                proof {
                    lemma_log_final(projection_of(pre), pre.events@, gx, logged);
                }
            },
        }
        self.events.push(logged);
        proof {
            assert(self.events@ == pre.events@.push(logged));
            assert(self.events@.drop_last() =~= pre.events@);
        }
    }

    /// Applies `events` in order; the log grows by a copy of each.
    pub fn replay_events(&mut self, events: Vec<KernelEvent>)
        requires
            old(self).wf(),
        ensures
            final(self).wf(),
            final(self).goals@ == replayed(old(self).goals@, events@, goal_pick()),
            final(self).tasks@ == replayed(old(self).tasks@, events@, task_pick()),
            final(self).threads@ == replayed(old(self).threads@, events@, thread_pick()),
            final(self).invocations@ == replayed(old(self).invocations@, events@, invocation_pick()),
            final(self).communication_profiles@ == replayed(old(self).communication_profiles@, events@, profile_pick()),
            final(self).permission_requests@ == replayed(old(self).permission_requests@, events@, request_pick()),
            final(self).reviews@ == replayed(old(self).reviews@, events@, review_pick()),
            final(self).artifacts@ == replayed(old(self).artifacts@, events@, artifact_pick()),
            final(self).evidence@ == replayed(old(self).evidence@, events@, evidence_pick()),
            final(self).approvals@ == replayed(old(self).approvals@, events@, approval_pick()),
            final(self).context_snapshots@ == replayed(old(self).context_snapshots@, events@, context_pick()),
            final(self).context_compactions@ == replayed(old(self).context_compactions@, events@, compaction_pick()),
            final(self).final_submissions@ == replayed(old(self).final_submissions@, events@, final_pick()),
            final(self).events@.len() == old(self).events@.len() + events@.len(),
            final(self).events@.subrange(0, old(self).events@.len() as int) == old(self).events@,
            forall|i: int| 0 <= i < events@.len() ==> event_copies(
                #[trigger] events@[i],
                final(self).events@[old(self).events@.len() + i],
            ),
            *final(self) == (KernelState {
                goals: final(self).goals,
                tasks: final(self).tasks,
                threads: final(self).threads,
                invocations: final(self).invocations,
                communication_profiles: final(self).communication_profiles,
                permission_requests: final(self).permission_requests,
                reviews: final(self).reviews,
                artifacts: final(self).artifacts,
                evidence: final(self).evidence,
                approvals: final(self).approvals,
                context_snapshots: final(self).context_snapshots,
                context_compactions: final(self).context_compactions,
                final_submissions: final(self).final_submissions,
                events: final(self).events,
                ..*old(self)
            }),
    {
        let ghost all = events@;
        let ghost start = *self;
        let mut rest = events;
        let ghost mut k: int = 0;
        while rest.len() > 0
            invariant
                self.wf(),
                0 <= k <= all.len(),
                rest@ == all.subrange(k, all.len() as int),
                self.goals@ == replayed(start.goals@, all.subrange(0, k), goal_pick()),
                self.tasks@ == replayed(start.tasks@, all.subrange(0, k), task_pick()),
                self.threads@ == replayed(start.threads@, all.subrange(0, k), thread_pick()),
                self.invocations@ == replayed(start.invocations@, all.subrange(0, k), invocation_pick()),
                self.communication_profiles@ == replayed(start.communication_profiles@, all.subrange(0, k), profile_pick()),
                self.permission_requests@ == replayed(start.permission_requests@, all.subrange(0, k), request_pick()),
                self.reviews@ == replayed(start.reviews@, all.subrange(0, k), review_pick()),
                self.artifacts@ == replayed(start.artifacts@, all.subrange(0, k), artifact_pick()),
                self.evidence@ == replayed(start.evidence@, all.subrange(0, k), evidence_pick()),
                self.approvals@ == replayed(start.approvals@, all.subrange(0, k), approval_pick()),
                self.context_snapshots@ == replayed(start.context_snapshots@, all.subrange(0, k), context_pick()),
                self.context_compactions@ == replayed(start.context_compactions@, all.subrange(0, k), compaction_pick()),
                self.final_submissions@ == replayed(start.final_submissions@, all.subrange(0, k), final_pick()),
                self.events@.len() == start.events@.len() + k,
                self.events@.subrange(0, start.events@.len() as int) == start.events@,
                forall|i: int| 0 <= i < k ==> event_copies(#[trigger] all[i], self.events@[start.events@.len() + i]),
                *self == (KernelState {
                    goals: self.goals,
                    tasks: self.tasks,
                    threads: self.threads,
                    invocations: self.invocations,
                    communication_profiles: self.communication_profiles,
                    permission_requests: self.permission_requests,
                    reviews: self.reviews,
                    artifacts: self.artifacts,
                    evidence: self.evidence,
                    approvals: self.approvals,
                    context_snapshots: self.context_snapshots,
                    context_compactions: self.context_compactions,
                    final_submissions: self.final_submissions,
                    events: self.events,
                    ..start
                }),
            decreases rest@.len(),
        {
            let e = rest.remove(0);
            proof {
                let done = all.subrange(0, k + 1);
                assert(done.drop_last() =~= all.subrange(0, k));
                assert(done.last() == e);
            }
            let ghost before = self.events@;
            self.apply_event(e);
            proof {
                assert(self.events@.subrange(0, start.events@.len() as int) =~= before.subrange(0, start.events@.len() as int));
                assert forall|i: int| 0 <= i < k + 1 implies event_copies(#[trigger] all[i], self.events@[start.events@.len() + i]) by {
                    if i < k {
                        assert(self.events@[start.events@.len() + i] == before[start.events@.len() + i]);
                    }
                }
                k = k + 1;
            }
            assert(rest@ =~= all.subrange(k, all.len() as int));
        }
        assert(all.subrange(0, k) =~= all);
    }

    /// The state that `events`, applied in order to a fresh state, give:
    /// each kind of record replayed from nothing, the log a copy of
    /// `events`, the rest empty.
    pub fn from_events(events: Vec<KernelEvent>) -> (r: KernelState)
        ensures
            r.wf(),
            r.goals@ == replayed(Seq::empty(), events@, goal_pick()),
            r.tasks@ == replayed(Seq::empty(), events@, task_pick()),
            r.threads@ == replayed(Seq::empty(), events@, thread_pick()),
            r.invocations@ == replayed(Seq::empty(), events@, invocation_pick()),
            r.communication_profiles@ == replayed(Seq::empty(), events@, profile_pick()),
            r.permission_requests@ == replayed(Seq::empty(), events@, request_pick()),
            r.reviews@ == replayed(Seq::empty(), events@, review_pick()),
            r.artifacts@ == replayed(Seq::empty(), events@, artifact_pick()),
            r.evidence@ == replayed(Seq::empty(), events@, evidence_pick()),
            r.approvals@ == replayed(Seq::empty(), events@, approval_pick()),
            r.context_snapshots@ == replayed(Seq::empty(), events@, context_pick()),
            r.context_compactions@ == replayed(Seq::empty(), events@, compaction_pick()),
            r.final_submissions@ == replayed(Seq::empty(), events@, final_pick()),
            r.events@.len() == events@.len(),
            forall|i: int| 0 <= i < events@.len() ==> event_copies(#[trigger] events@[i], r.events@[i]),
            unprojected_empty(r),
    {
        let mut s = KernelState::new();
        proof {
            assert(s.goals@ =~= Seq::empty());
            assert(s.tasks@ =~= Seq::empty());
            assert(s.threads@ =~= Seq::empty());
            assert(s.invocations@ =~= Seq::empty());
            assert(s.communication_profiles@ =~= Seq::empty());
            assert(s.permission_requests@ =~= Seq::empty());
            assert(s.reviews@ =~= Seq::empty());
            assert(s.artifacts@ =~= Seq::empty());
            assert(s.evidence@ =~= Seq::empty());
            assert(s.approvals@ =~= Seq::empty());
            assert(s.context_snapshots@ =~= Seq::empty());
            assert(s.context_compactions@ =~= Seq::empty());
            assert(s.final_submissions@ =~= Seq::empty());
        }
        s.replay_events(events);
        s
    }
}

/// Every collection that no event fills is empty.
pub open spec fn unprojected_empty(s: KernelState) -> bool {
    &&& s.permission_grants@.len() == 0
    &&& s.budget_ledgers@.len() == 0
    &&& s.resource_leases@.len() == 0
    &&& s.environments@.len() == 0
    &&& s.environment_leases@.len() == 0
    &&& s.provider_profiles@.len() == 0
    &&& s.capabilities@.len() == 0
    &&& s.messages@.len() == 0
    &&& s.ready_queue@.len() == 0
    &&& s.role_profiles@.len() == 0
    &&& s.permission_profiles@.len() == 0
    &&& s.sandbox_profiles@.len() == 0
    &&& s.review_findings@.len() == 0
    &&& s.verifications@.len() == 0
    &&& s.tool_descriptors@.len() == 0
    &&& s.tool_invocations@.len() == 0
    &&& s.client_threads@.len() == 0
    &&& s.turn_inputs@.len() == 0
    &&& s.mementos@.len() == 0
    &&& s.memory_records@.len() == 0
    &&& s.automation_schedules@.len() == 0
    &&& s.automation_runs@.len() == 0
    &&& s.package_installs@.len() == 0
    &&& s.routing_policies@.len() == 0
    &&& s.model_aliases@.len() == 0
    &&& s.provider_stream_sessions@.len() == 0
    &&& s.reconciliation_reports@.len() == 0
    &&& s.resource_sessions@.len() == 0
    &&& s.syscall_results@.len() == 0
    &&& s.process_sessions@.len() == 0
    &&& s.audit_events@.len() == 0
    &&& s.event_log@.len() == 0
    &&& s.blackboard_entries@.len() == 0
}

/// `post`'s log is `pre`'s with event `e` appended.
pub open spec fn appended(pre: KernelState, post: KernelState, e: KernelEvent) -> bool {
    post.events@ == pre.events@.push(e)
}

impl KernelState {
    /// Logs event `e`, which carries a copy of the goal record `x` that
    /// this state now keeps, in place of `pre`'s record under its id or as
    /// a new one; nothing else has changed since `pre`.
    pub(crate) fn log_goal(&mut self, e: KernelEvent, Ghost(pre): Ghost<KernelState>, Ghost(x): Ghost<GoalRecord>)
        requires
            pre.wf(),
            goal_of(e) matches Some(c) && x.copies(&c),
            *old(self) == (KernelState { goals: old(self).goals, ..pre }),
            (old(self).goals@ == pre.goals@.push(x) && !crate::state::has_goal(pre.goals@, x.goal_id@)) || (exists|p: int|
                0 <= p < pre.goals@.len() && old(self).goals@ == pre.goals@.update(p, x) && #[trigger] pre.goals@[p].goal_id@
                    == x.goal_id@),
        ensures
            final(self).wf(),
            appended(pre, *final(self), e),
            *final(self) == (KernelState { goals: old(self).goals, events: final(self).events, ..pre }),
    {
        proof {
            assert(record_keys_unique(pre.goals@));
            if old(self).goals@ == pre.goals@.push(x) && !crate::state::has_goal(pre.goals@, x.goal_id@) {
                assert forall|i: int| 0 <= i < pre.goals@.len() implies #[trigger] pre.goals@[i].key_of() != x.key_of() by {
                    if pre.goals@[i].goal_id@ == x.goal_id@ {
                        assert(crate::state::has_goal(pre.goals@, x.goal_id@));
                    }
                }
                lemma_with_record_new(pre.goals@, x);
            } else {
                let p = choose|p: int|
                    0 <= p < pre.goals@.len() && old(self).goals@ == pre.goals@.update(p, x) && #[trigger] pre.goals@[p].goal_id@
                        == x.goal_id@;
                lemma_with_record_at(pre.goals@, p, x);
            }
            lemma_with_record(pre.goals@, x, x.key_of());
            let v = old(self).goals@;
            assert forall|a: int, b: int|
                0 <= a < v.len() && 0 <= b < v.len() && #[trigger] v[a].goal_id@ == #[trigger] v[b].goal_id@ implies a == b by {
                assert(v[a].key_of() == v[b].key_of());
            }
            lemma_log_goal(projection_of(pre), pre.events@, x, e);
        }
        self.events.push(e);
    }

    /// Logs event `e`, which carries a copy of the thread record `x` that
    /// this state now keeps, in place of `pre`'s record under its id or as
    /// a new one; nothing else has changed since `pre`.
    pub(crate) fn log_thread(&mut self, e: KernelEvent, Ghost(pre): Ghost<KernelState>, Ghost(x): Ghost<ThreadRecord>)
        requires
            pre.wf(),
            thread_of(e) matches Some(c) && x.copies(&c),
            *old(self) == (KernelState { threads: old(self).threads, ..pre }),
            (old(self).threads@ == pre.threads@.push(x) && !crate::state::has_thread(pre.threads@, x.lifecycle.thread_id@)) || (exists|p: int|
                0 <= p < pre.threads@.len() && old(self).threads@ == pre.threads@.update(p, x) && #[trigger] pre.threads@[p].lifecycle.thread_id@
                    == x.lifecycle.thread_id@),
        ensures
            final(self).wf(),
            appended(pre, *final(self), e),
            *final(self) == (KernelState { threads: old(self).threads, events: final(self).events, ..pre }),
    {
        proof {
            assert(record_keys_unique(pre.threads@));
            if old(self).threads@ == pre.threads@.push(x) && !crate::state::has_thread(pre.threads@, x.lifecycle.thread_id@) {
                assert forall|i: int| 0 <= i < pre.threads@.len() implies #[trigger] pre.threads@[i].key_of() != x.key_of() by {
                    if pre.threads@[i].lifecycle.thread_id@ == x.lifecycle.thread_id@ {
                        assert(crate::state::has_thread(pre.threads@, x.lifecycle.thread_id@));
                    }
                }
                lemma_with_record_new(pre.threads@, x);
            } else {
                let p = choose|p: int|
                    0 <= p < pre.threads@.len() && old(self).threads@ == pre.threads@.update(p, x) && #[trigger] pre.threads@[p].lifecycle.thread_id@
                        == x.lifecycle.thread_id@;
                lemma_with_record_at(pre.threads@, p, x);
            }
            lemma_with_record(pre.threads@, x, x.key_of());
            let v = old(self).threads@;
            assert forall|a: int, b: int|
                0 <= a < v.len() && 0 <= b < v.len() && #[trigger] v[a].lifecycle.thread_id@ == #[trigger] v[b].lifecycle.thread_id@ implies a == b by {
                assert(v[a].key_of() == v[b].key_of());
            }
            lemma_log_thread(projection_of(pre), pre.events@, x, e);
        }
        self.events.push(e);
    }

    /// Logs event `e`, which carries a copy of the task record `x` that
    /// this state now keeps, in place of `pre`'s record under its id or as
    /// a new one; nothing else has changed since `pre`.
    pub(crate) fn log_task(&mut self, e: KernelEvent, Ghost(pre): Ghost<KernelState>, Ghost(x): Ghost<TaskRecord>)
        requires
            pre.wf(),
            task_of(e) matches Some(c) && x.copies(&c),
            *old(self) == (KernelState { tasks: old(self).tasks, ..pre }),
            (old(self).tasks@ == pre.tasks@.push(x) && !crate::state::has_task(pre.tasks@, x.task_id@)) || (exists|p: int|
                0 <= p < pre.tasks@.len() && old(self).tasks@ == pre.tasks@.update(p, x) && #[trigger] pre.tasks@[p].task_id@
                    == x.task_id@),
        ensures
            final(self).wf(),
            appended(pre, *final(self), e),
            *final(self) == (KernelState { tasks: old(self).tasks, events: final(self).events, ..pre }),
    {
        proof {
            assert(record_keys_unique(pre.tasks@));
            if old(self).tasks@ == pre.tasks@.push(x) && !crate::state::has_task(pre.tasks@, x.task_id@) {
                assert forall|i: int| 0 <= i < pre.tasks@.len() implies #[trigger] pre.tasks@[i].key_of() != x.key_of() by {
                    if pre.tasks@[i].task_id@ == x.task_id@ {
                        assert(crate::state::has_task(pre.tasks@, x.task_id@));
                    }
                }
                lemma_with_record_new(pre.tasks@, x);
            } else {
                let p = choose|p: int|
                    0 <= p < pre.tasks@.len() && old(self).tasks@ == pre.tasks@.update(p, x) && #[trigger] pre.tasks@[p].task_id@
                        == x.task_id@;
                lemma_with_record_at(pre.tasks@, p, x);
            }
            lemma_with_record(pre.tasks@, x, x.key_of());
            let v = old(self).tasks@;
            assert forall|a: int, b: int|
                0 <= a < v.len() && 0 <= b < v.len() && #[trigger] v[a].task_id@ == #[trigger] v[b].task_id@ implies a == b by {
                assert(v[a].key_of() == v[b].key_of());
            }
            lemma_log_task(projection_of(pre), pre.events@, x, e);
        }
        self.events.push(e);
    }

    /// Logs event `e`, which carries a copy of the artifact record `x` that
    /// this state now keeps, in place of `pre`'s record under its id or as
    /// a new one; nothing else has changed since `pre`.
    pub(crate) fn log_artifact(&mut self, e: KernelEvent, Ghost(pre): Ghost<KernelState>, Ghost(x): Ghost<ArtifactRecord>)
        requires
            pre.wf(),
            artifact_of(e) matches Some(c) && x.copies(&c),
            *old(self) == (KernelState { artifacts: old(self).artifacts, ..pre }),
            (old(self).artifacts@ == pre.artifacts@.push(x) && !crate::state::has_artifact(pre.artifacts@, x.artifact_id@)) || (exists|p: int|
                0 <= p < pre.artifacts@.len() && old(self).artifacts@ == pre.artifacts@.update(p, x) && #[trigger] pre.artifacts@[p].artifact_id@
                    == x.artifact_id@),
        ensures
            final(self).wf(),
            appended(pre, *final(self), e),
            *final(self) == (KernelState { artifacts: old(self).artifacts, events: final(self).events, ..pre }),
    {
        proof {
            assert(record_keys_unique(pre.artifacts@));
            if old(self).artifacts@ == pre.artifacts@.push(x) && !crate::state::has_artifact(pre.artifacts@, x.artifact_id@) {
                assert forall|i: int| 0 <= i < pre.artifacts@.len() implies #[trigger] pre.artifacts@[i].key_of() != x.key_of() by {
                    if pre.artifacts@[i].artifact_id@ == x.artifact_id@ {
                        assert(crate::state::has_artifact(pre.artifacts@, x.artifact_id@));
                    }
                }
                lemma_with_record_new(pre.artifacts@, x);
            } else {
                let p = choose|p: int|
                    0 <= p < pre.artifacts@.len() && old(self).artifacts@ == pre.artifacts@.update(p, x) && #[trigger] pre.artifacts@[p].artifact_id@
                        == x.artifact_id@;
                lemma_with_record_at(pre.artifacts@, p, x);
            }
            lemma_with_record(pre.artifacts@, x, x.key_of());
            let v = old(self).artifacts@;
            assert forall|a: int, b: int|
                0 <= a < v.len() && 0 <= b < v.len() && #[trigger] v[a].artifact_id@ == #[trigger] v[b].artifact_id@ implies a == b by {
                assert(v[a].key_of() == v[b].key_of());
            }
            lemma_log_artifact(projection_of(pre), pre.events@, x, e);
        }
        self.events.push(e);
    }

    /// Logs event `e`, which carries a copy of the evidence record `x` that
    /// this state now keeps, in place of `pre`'s record under its id or as
    /// a new one; nothing else has changed since `pre`.
    pub(crate) fn log_evidence(&mut self, e: KernelEvent, Ghost(pre): Ghost<KernelState>, Ghost(x): Ghost<EvidenceRecord>)
        requires
            pre.wf(),
            evidence_of(e) matches Some(c) && x.copies(&c),
            *old(self) == (KernelState { evidence: old(self).evidence, ..pre }),
            (old(self).evidence@ == pre.evidence@.push(x) && !crate::state::has_evidence(pre.evidence@, x.evidence_id@)) || (exists|p: int|
                0 <= p < pre.evidence@.len() && old(self).evidence@ == pre.evidence@.update(p, x) && #[trigger] pre.evidence@[p].evidence_id@
                    == x.evidence_id@),
        ensures
            final(self).wf(),
            appended(pre, *final(self), e),
            *final(self) == (KernelState { evidence: old(self).evidence, events: final(self).events, ..pre }),
    {
        proof {
            assert(record_keys_unique(pre.evidence@));
            if old(self).evidence@ == pre.evidence@.push(x) && !crate::state::has_evidence(pre.evidence@, x.evidence_id@) {
                assert forall|i: int| 0 <= i < pre.evidence@.len() implies #[trigger] pre.evidence@[i].key_of() != x.key_of() by {
                    if pre.evidence@[i].evidence_id@ == x.evidence_id@ {
                        assert(crate::state::has_evidence(pre.evidence@, x.evidence_id@));
                    }
                }
                lemma_with_record_new(pre.evidence@, x);
            } else {
                let p = choose|p: int|
                    0 <= p < pre.evidence@.len() && old(self).evidence@ == pre.evidence@.update(p, x) && #[trigger] pre.evidence@[p].evidence_id@
                        == x.evidence_id@;
                lemma_with_record_at(pre.evidence@, p, x);
            }
            lemma_with_record(pre.evidence@, x, x.key_of());
            let v = old(self).evidence@;
            assert forall|a: int, b: int|
                0 <= a < v.len() && 0 <= b < v.len() && #[trigger] v[a].evidence_id@ == #[trigger] v[b].evidence_id@ implies a == b by {
                assert(v[a].key_of() == v[b].key_of());
            }
            lemma_log_evidence(projection_of(pre), pre.events@, x, e);
        }
        self.events.push(e);
    }

    /// Logs event `e`, which carries a copy of the approval record `x` that
    /// this state now keeps, in place of `pre`'s record under its id or as
    /// a new one; nothing else has changed since `pre`.
    pub(crate) fn log_approval(&mut self, e: KernelEvent, Ghost(pre): Ghost<KernelState>, Ghost(x): Ghost<Approval>)
        requires
            pre.wf(),
            approval_of(e) matches Some(c) && x.copies(&c),
            *old(self) == (KernelState { approvals: old(self).approvals, ..pre }),
            (old(self).approvals@ == pre.approvals@.push(x) && !crate::state::has_approval(pre.approvals@, x.approval_id@)) || (exists|p: int|
                0 <= p < pre.approvals@.len() && old(self).approvals@ == pre.approvals@.update(p, x) && #[trigger] pre.approvals@[p].approval_id@
                    == x.approval_id@),
        ensures
            final(self).wf(),
            appended(pre, *final(self), e),
            *final(self) == (KernelState { approvals: old(self).approvals, events: final(self).events, ..pre }),
    {
        proof {
            assert(record_keys_unique(pre.approvals@));
            if old(self).approvals@ == pre.approvals@.push(x) && !crate::state::has_approval(pre.approvals@, x.approval_id@) {
                assert forall|i: int| 0 <= i < pre.approvals@.len() implies #[trigger] pre.approvals@[i].key_of() != x.key_of() by {
                    if pre.approvals@[i].approval_id@ == x.approval_id@ {
                        assert(crate::state::has_approval(pre.approvals@, x.approval_id@));
                    }
                }
                lemma_with_record_new(pre.approvals@, x);
            } else {
                let p = choose|p: int|
                    0 <= p < pre.approvals@.len() && old(self).approvals@ == pre.approvals@.update(p, x) && #[trigger] pre.approvals@[p].approval_id@
                        == x.approval_id@;
                lemma_with_record_at(pre.approvals@, p, x);
            }
            lemma_with_record(pre.approvals@, x, x.key_of());
            let v = old(self).approvals@;
            assert forall|a: int, b: int|
                0 <= a < v.len() && 0 <= b < v.len() && #[trigger] v[a].approval_id@ == #[trigger] v[b].approval_id@ implies a == b by {
                assert(v[a].key_of() == v[b].key_of());
            }
            lemma_log_approval(projection_of(pre), pre.events@, x, e);
        }
        self.events.push(e);
    }

    /// Logs event `e`, which carries a copy of the context record `x` that
    /// this state now keeps, in place of `pre`'s record under its id or as
    /// a new one; nothing else has changed since `pre`.
    pub(crate) fn log_context(&mut self, e: KernelEvent, Ghost(pre): Ghost<KernelState>, Ghost(x): Ghost<ContextSnapshot>)
        requires
            pre.wf(),
            context_of(e) matches Some(c) && x.copies(&c),
            *old(self) == (KernelState { context_snapshots: old(self).context_snapshots, ..pre }),
            (old(self).context_snapshots@ == pre.context_snapshots@.push(x) && !crate::context::has_context(pre.context_snapshots@, x.context_id@)) || (exists|p: int|
                0 <= p < pre.context_snapshots@.len() && old(self).context_snapshots@ == pre.context_snapshots@.update(p, x) && #[trigger] pre.context_snapshots@[p].context_id@
                    == x.context_id@),
        ensures
            final(self).wf(),
            appended(pre, *final(self), e),
            *final(self) == (KernelState { context_snapshots: old(self).context_snapshots, events: final(self).events, ..pre }),
    {
        proof {
            assert(record_keys_unique(pre.context_snapshots@));
            if old(self).context_snapshots@ == pre.context_snapshots@.push(x) && !crate::context::has_context(pre.context_snapshots@, x.context_id@) {
                assert forall|i: int| 0 <= i < pre.context_snapshots@.len() implies #[trigger] pre.context_snapshots@[i].key_of() != x.key_of() by {
                    if pre.context_snapshots@[i].context_id@ == x.context_id@ {
                        assert(crate::context::has_context(pre.context_snapshots@, x.context_id@));
                    }
                }
                lemma_with_record_new(pre.context_snapshots@, x);
            } else {
                let p = choose|p: int|
                    0 <= p < pre.context_snapshots@.len() && old(self).context_snapshots@ == pre.context_snapshots@.update(p, x) && #[trigger] pre.context_snapshots@[p].context_id@
                        == x.context_id@;
                lemma_with_record_at(pre.context_snapshots@, p, x);
            }
            lemma_with_record(pre.context_snapshots@, x, x.key_of());
            let v = old(self).context_snapshots@;
            assert forall|a: int, b: int|
                0 <= a < v.len() && 0 <= b < v.len() && #[trigger] v[a].context_id@ == #[trigger] v[b].context_id@ implies a == b by {
                assert(v[a].key_of() == v[b].key_of());
            }
            lemma_log_context(projection_of(pre), pre.events@, x, e);
        }
        self.events.push(e);
    }

    /// Logs event `e`, which carries a copy of the compaction record `x` that
    /// this state now keeps, in place of `pre`'s record under its id or as
    /// a new one; nothing else has changed since `pre`.
    pub(crate) fn log_compaction(&mut self, e: KernelEvent, Ghost(pre): Ghost<KernelState>, Ghost(x): Ghost<ContextCompaction>)
        requires
            pre.wf(),
            compaction_of(e) matches Some(c) && x.copies(&c),
            *old(self) == (KernelState { context_compactions: old(self).context_compactions, ..pre }),
            (old(self).context_compactions@ == pre.context_compactions@.push(x) && !crate::context::has_compaction(pre.context_compactions@, x.compaction_id@)) || (exists|p: int|
                0 <= p < pre.context_compactions@.len() && old(self).context_compactions@ == pre.context_compactions@.update(p, x) && #[trigger] pre.context_compactions@[p].compaction_id@
                    == x.compaction_id@),
        ensures
            final(self).wf(),
            appended(pre, *final(self), e),
            *final(self) == (KernelState { context_compactions: old(self).context_compactions, events: final(self).events, ..pre }),
    {
        proof {
            assert(record_keys_unique(pre.context_compactions@));
            if old(self).context_compactions@ == pre.context_compactions@.push(x) && !crate::context::has_compaction(pre.context_compactions@, x.compaction_id@) {
                assert forall|i: int| 0 <= i < pre.context_compactions@.len() implies #[trigger] pre.context_compactions@[i].key_of() != x.key_of() by {
                    if pre.context_compactions@[i].compaction_id@ == x.compaction_id@ {
                        assert(crate::context::has_compaction(pre.context_compactions@, x.compaction_id@));
                    }
                }
                lemma_with_record_new(pre.context_compactions@, x);
            } else {
                let p = choose|p: int|
                    0 <= p < pre.context_compactions@.len() && old(self).context_compactions@ == pre.context_compactions@.update(p, x) && #[trigger] pre.context_compactions@[p].compaction_id@
                        == x.compaction_id@;
                lemma_with_record_at(pre.context_compactions@, p, x);
            }
            lemma_with_record(pre.context_compactions@, x, x.key_of());
            let v = old(self).context_compactions@;
            assert forall|a: int, b: int|
                0 <= a < v.len() && 0 <= b < v.len() && #[trigger] v[a].compaction_id@ == #[trigger] v[b].compaction_id@ implies a == b by {
                assert(v[a].key_of() == v[b].key_of());
            }
            lemma_log_compaction(projection_of(pre), pre.events@, x, e);
        }
        self.events.push(e);
    }

    /// Logs event `e`, a review whose copy this state now keeps
    /// under its id; nothing else has changed since `pre`.
    pub(crate) fn log_review(&mut self, e: KernelEvent, Ghost(pre): Ghost<KernelState>, Ghost(x): Ghost<Review>)
        requires
            pre.wf(),
            review_of(e) matches Some(c) && x.copies(&c),
            *old(self) == (KernelState { reviews: old(self).reviews, ..pre }),
            old(self).reviews@ == with_record(pre.reviews@, x),
        ensures
            final(self).wf(),
            appended(pre, *final(self), e),
            *final(self) == (KernelState { reviews: old(self).reviews, events: final(self).events, ..pre }),
    {
        proof {
            assert(record_keys_unique(pre.reviews@));
            lemma_with_record(pre.reviews@, x, x.key_of());
            let v = old(self).reviews@;
            assert forall|a: int, b: int|
                0 <= a < v.len() && 0 <= b < v.len() && #[trigger] v[a].review_id@
                    == #[trigger] v[b].review_id@ implies a == b by {
                assert(v[a].key_of() == v[b].key_of());
            }
            lemma_log_review(projection_of(pre), pre.events@, x, e);
        }
        self.events.push(e);
    }

    /// Logs event `e`, a permission request whose copy this state now keeps
    /// under its id; nothing else has changed since `pre`.
    pub(crate) fn log_request(&mut self, e: KernelEvent, Ghost(pre): Ghost<KernelState>, Ghost(x): Ghost<PermissionRequest>)
        requires
            pre.wf(),
            request_of(e) matches Some(c) && x.copies(&c),
            *old(self) == (KernelState { permission_requests: old(self).permission_requests, ..pre }),
            old(self).permission_requests@ == with_record(pre.permission_requests@, x),
        ensures
            final(self).wf(),
            appended(pre, *final(self), e),
            *final(self) == (KernelState { permission_requests: old(self).permission_requests, events: final(self).events, ..pre }),
    {
        proof {
            assert(record_keys_unique(pre.permission_requests@));
            lemma_with_record(pre.permission_requests@, x, x.key_of());
            let v = old(self).permission_requests@;
            assert forall|a: int, b: int|
                0 <= a < v.len() && 0 <= b < v.len() && #[trigger] v[a].permission_request_id@
                    == #[trigger] v[b].permission_request_id@ implies a == b by {
                assert(v[a].key_of() == v[b].key_of());
            }
            lemma_log_request(projection_of(pre), pre.events@, x, e);
        }
        self.events.push(e);
    }

    /// Logs event `e`, a communication profile whose copy this state now keeps
    /// under its id; nothing else has changed since `pre`.
    pub(crate) fn log_profile(&mut self, e: KernelEvent, Ghost(pre): Ghost<KernelState>, Ghost(x): Ghost<CommunicationProfile>)
        requires
            pre.wf(),
            profile_of(e) matches Some(c) && x.copies(&c),
            *old(self) == (KernelState { communication_profiles: old(self).communication_profiles, ..pre }),
            old(self).communication_profiles@ == with_record(pre.communication_profiles@, x),
        ensures
            final(self).wf(),
            appended(pre, *final(self), e),
            *final(self) == (KernelState { communication_profiles: old(self).communication_profiles, events: final(self).events, ..pre }),
    {
        proof {
            assert(record_keys_unique(pre.communication_profiles@));
            lemma_with_record(pre.communication_profiles@, x, x.key_of());
            let v = old(self).communication_profiles@;
            assert forall|a: int, b: int|
                0 <= a < v.len() && 0 <= b < v.len() && #[trigger] v[a].communication_profile_id@
                    == #[trigger] v[b].communication_profile_id@ implies a == b by {
                assert(v[a].key_of() == v[b].key_of());
            }
            lemma_log_profile(projection_of(pre), pre.events@, x, e);
        }
        self.events.push(e);
    }

    /// Logs event `e`, an invocation edge whose copy this state now keeps
    /// under its id; nothing else has changed since `pre`.
    pub(crate) fn log_invocation(&mut self, e: KernelEvent, Ghost(pre): Ghost<KernelState>, Ghost(x): Ghost<AgentInvocation>)
        requires
            pre.wf(),
            invocation_of(e) matches Some(c) && x.copies(&c),
            *old(self) == (KernelState { invocations: old(self).invocations, ..pre }),
            old(self).invocations@ == with_record(pre.invocations@, x),
        ensures
            final(self).wf(),
            appended(pre, *final(self), e),
            *final(self) == (KernelState { invocations: old(self).invocations, events: final(self).events, ..pre }),
    {
        proof {
            lemma_with_record(pre.invocations@, x, x.key_of());
            lemma_log_invocation(projection_of(pre), pre.events@, x, e);
        }
        self.events.push(e);
    }

    /// Logs event `e`, a final submission whose copy this state now keeps
    /// under its task id; nothing else has changed since `pre`.
    pub(crate) fn log_final(&mut self, e: KernelEvent, Ghost(pre): Ghost<KernelState>, Ghost(x): Ghost<(String, FinalSubmission)>)
        requires
            pre.wf(),
            final_of(e) matches Some(c) && x.copies(&c),
            *old(self) == (KernelState { final_submissions: old(self).final_submissions, ..pre }),
            old(self).final_submissions@ == with_record(pre.final_submissions@, x),
        ensures
            final(self).wf(),
            appended(pre, *final(self), e),
            *final(self) == (KernelState { final_submissions: old(self).final_submissions, events: final(self).events, ..pre }),
    {
        proof {
            lemma_with_record(pre.final_submissions@, x, x.key_of());
            lemma_log_final(projection_of(pre), pre.events@, x, e);
        }
        self.events.push(e);
    }
}

} // verus!
