//! The host's runtime jobs: the queue of turns waiting for a runtime
//! worker, and the decisions taken when a worker starts, finishes or fails,
//! when a turn is interrupted, and when a thread is resumed.
use vstd::prelude::*;
use crate::error::AgentOsError;
use crate::lifecycle::{ThreadStatus, ThreadLifecycle, thread_transition_allowed, transitioned};
use crate::client_threads::{has_summary, summary_pos};
use crate::threads::thread_lifecycle_replaced;
use crate::events::Logged;
use crate::scope::texts;
use crate::order::{text_lt, text_less, strictly_sorted, lemma_text_lt_irreflexive, lemma_text_lt_total,
    lemma_text_lt_transitive};
use crate::state::{KernelState, ThreadRecord, has_task, task_pos, has_thread, thread_pos};
use crate::text::str_eq;
use crate::lifecycle::copy_opt_string;

verus! {

/// Where a runtime job stands.
#[derive(Debug, Clone, Copy, PartialEq, Eq, Structural)]
pub enum RuntimeJobStatus {
    Queued,
    Running,
    Completed,
    Blocked,
    Failed,
    Interrupted,
}

/// The turn a runtime job runs.
#[derive(Debug)]
pub struct RuntimeJob {
    pub client_thread_id: String,
    pub agent_thread_id: String,
    pub turn_id: String,
    pub task_id: String,
}

/// A runtime job and where it stands; `last_error` says why a job
/// blocked or failed.
#[derive(Debug)]
pub struct RuntimeJobRecord {
    pub runtime_job_id: String,
    pub job: RuntimeJob,
    pub status: RuntimeJobStatus,
    pub last_error: Option<String>,
}

/// How a runtime worker's run of a job ended.
#[derive(Debug)]
pub struct RuntimeRunReport {
    pub task_id: String,
    pub status: ThreadStatus,
    pub final_submitted: bool,
}

/// An entry of the runtime job log: what happened to which job.
#[derive(Debug)]
pub struct RuntimeJobEvent {
    pub event_type: &'static str,
    pub runtime_job_id: String,
}

/// The log entry type for a job that has reached `status`.
pub open spec fn job_event_type(status: RuntimeJobStatus) -> Seq<char> {
    match status {
        RuntimeJobStatus::Completed => "RuntimeJobCompleted"@,
        RuntimeJobStatus::Blocked => "RuntimeJobBlocked"@,
        RuntimeJobStatus::Queued => "RuntimeJobQueued"@,
        RuntimeJobStatus::Interrupted => "RuntimeJobInterrupted"@,
        RuntimeJobStatus::Failed => "RuntimeJobFailed"@,
        RuntimeJobStatus::Running => "RuntimeJobUpdated"@,
    }
}

fn job_event_type_for(status: RuntimeJobStatus) -> (r: &'static str)
    ensures
        r@ == job_event_type(status),
{
    match status {
        RuntimeJobStatus::Completed => "RuntimeJobCompleted",
        RuntimeJobStatus::Blocked => "RuntimeJobBlocked",
        RuntimeJobStatus::Queued => "RuntimeJobQueued",
        RuntimeJobStatus::Interrupted => "RuntimeJobInterrupted",
        RuntimeJobStatus::Failed => "RuntimeJobFailed",
        RuntimeJobStatus::Running => "RuntimeJobUpdated",
    }
}

/// `after` is log `before` with one entry of type `t` for job `id`.
pub open spec fn logged_job(before: Seq<RuntimeJobEvent>, after: Seq<RuntimeJobEvent>, t: Seq<char>, id: Seq<char>) -> bool {
    &&& after.len() == before.len() + 1
    &&& after.drop_last() == before
    &&& after.last().event_type@ == t
    &&& after.last().runtime_job_id@ == id
}

/// The runtime jobs, kept in order of their ids, and the log of what
/// happened to them.
#[derive(Debug)]
pub struct RuntimeJobRegistry {
    pub records: Vec<RuntimeJobRecord>,
    pub events: Vec<RuntimeJobEvent>,
}

/// The ids of the jobs, in order.
pub open spec fn job_ids(rs: Seq<RuntimeJobRecord>) -> Seq<Seq<char>> {
    rs.map_values(|r: RuntimeJobRecord| r.runtime_job_id@)
}

pub open spec fn has_job(rs: Seq<RuntimeJobRecord>, id: Seq<char>) -> bool {
    exists|i: int| 0 <= i < rs.len() && rs[i].runtime_job_id@ == id
}

pub open spec fn job_pos(rs: Seq<RuntimeJobRecord>, id: Seq<char>) -> int {
    choose|i: int| 0 <= i < rs.len() && rs[i].runtime_job_id@ == id
}

/// The jobs by id.
pub open spec fn job_map(rs: Seq<RuntimeJobRecord>) -> Map<Seq<char>, RuntimeJobRecord> {
    Map::new(|n: Seq<char>| has_job(rs, n), |n: Seq<char>| rs[job_pos(rs, n)])
}

proof fn lemma_job_ids_unique(rs: Seq<RuntimeJobRecord>)
    requires
        strictly_sorted(job_ids(rs)),
    ensures
        forall|i: int, j: int| 0 <= i < rs.len() && 0 <= j < rs.len() && rs[i].runtime_job_id@ == rs[j].runtime_job_id@ ==> i == j,
{
    assert forall|i: int, j: int| 0 <= i < rs.len() && 0 <= j < rs.len() && rs[i].runtime_job_id@ == rs[j].runtime_job_id@ implies i == j by {
        let ids = job_ids(rs);
        assert(ids[i] == rs[i].runtime_job_id@ && ids[j] == rs[j].runtime_job_id@);
        if i < j {
            assert(text_lt(ids[i], ids[j]));
            lemma_text_lt_irreflexive(ids[i]);
        }
        if j < i {
            assert(text_lt(ids[j], ids[i]));
            lemma_text_lt_irreflexive(ids[j]);
        }
    }
}

proof fn lemma_job_pos(rs: Seq<RuntimeJobRecord>, i: int)
    requires
        strictly_sorted(job_ids(rs)),
        0 <= i < rs.len(),
    ensures
        has_job(rs, rs[i].runtime_job_id@),
        job_pos(rs, rs[i].runtime_job_id@) == i,
{
    lemma_job_ids_unique(rs);
    assert(rs[i].runtime_job_id@ == rs[i].runtime_job_id@);
    let p = job_pos(rs, rs[i].runtime_job_id@);
    assert(rs[p].runtime_job_id@ == rs[i].runtime_job_id@);
}

impl RuntimeJob {
    /// A copy of this job.
    pub fn duplicate(&self) -> (r: RuntimeJob)
        ensures
            r == *self,
    {
        RuntimeJob {
            client_thread_id: self.client_thread_id.clone(),
            agent_thread_id: self.agent_thread_id.clone(),
            turn_id: self.turn_id.clone(),
            task_id: self.task_id.clone(),
        }
    }

    /// The job that runs the active turn of thread `thread`; a thread with
    /// no active turn has none to run.
    pub fn from_active_turn(thread: &ThreadRecord) -> (r: Result<RuntimeJob, AgentOsError>)
        ensures
            thread.lifecycle.active_turn.turn_id is None ==> r == Err::<RuntimeJob, AgentOsError>(
                AgentOsError::InvalidTransition("thread has no active turn"),
            ),
            thread.lifecycle.active_turn.turn_id matches Some(turn) ==> r == Ok::<RuntimeJob, AgentOsError>(RuntimeJob {
                client_thread_id: thread.lifecycle.thread_id,
                agent_thread_id: thread.lifecycle.thread_id,
                turn_id: turn,
                task_id: thread.task_id,
            }),
    {
        match &thread.lifecycle.active_turn.turn_id {
            None => Err(AgentOsError::InvalidTransition("thread has no active turn")),
            Some(turn) => Ok(RuntimeJob {
                client_thread_id: thread.lifecycle.thread_id.clone(),
                agent_thread_id: thread.lifecycle.thread_id.clone(),
                turn_id: turn.clone(),
                task_id: thread.task_id.clone(),
            }),
        }
    }
}

impl RuntimeJobRecord {
    /// A copy of this record.
    pub fn duplicate(&self) -> (r: RuntimeJobRecord)
        ensures
            r == *self,
    {
        RuntimeJobRecord {
            runtime_job_id: self.runtime_job_id.clone(),
            job: self.job.duplicate(),
            status: self.status,
            last_error: copy_opt_string(&self.last_error),
        }
    }

    /// A new job, queued.
    pub fn queued(runtime_job_id: String, job: RuntimeJob) -> (r: RuntimeJobRecord)
        ensures
            r == (RuntimeJobRecord { runtime_job_id, job, status: RuntimeJobStatus::Queued, last_error: None }),
    {
        RuntimeJobRecord { runtime_job_id, job, status: RuntimeJobStatus::Queued, last_error: None }
    }
}

impl RuntimeJobRegistry {
    pub open spec fn wf(&self) -> bool {
        strictly_sorted(job_ids(self.records@))
    }

    /// No jobs.
    pub fn new() -> (r: RuntimeJobRegistry)
        ensures
            r.wf(),
            r.records@.len() == 0,
            r.events@.len() == 0,
    {
        RuntimeJobRegistry { records: Vec::new(), events: Vec::new() }
    }

    fn log_job(&mut self, event_type: &'static str, runtime_job_id: String)
        ensures
            final(self).records == old(self).records,
            logged_job(old(self).events@, final(self).events@, event_type@, runtime_job_id@),
    {
        let ghost before = self.events@;
        self.events.push(RuntimeJobEvent { event_type, runtime_job_id });
        assert(self.events@.drop_last() =~= before);
    }

    /// The position of job `id`, if any.
    pub fn find(&self, id: &str) -> (r: Option<usize>)
        requires
            self.wf(),
        ensures
            r is None <==> !has_job(self.records@, id@),
            r matches Some(k) ==> k < self.records@.len() && k == job_pos(self.records@, id@)
                && self.records@[k as int].runtime_job_id@ == id@,
    {
        let mut i: usize = 0;
        while i < self.records.len()
            invariant
                self.wf(),
                i <= self.records@.len(),
                forall|j: int| 0 <= j < i ==> self.records@[j].runtime_job_id@ != id@,
            decreases self.records@.len() - i,
        {
            if str_eq(self.records[i].runtime_job_id.as_str(), id) {
                proof {
                    lemma_job_pos(self.records@, i as int);
                }
                return Some(i);
            }
            i = i + 1;
        }
        None
    }

    /// Queues `record` under its id, replacing a job of that id; the jobs
    /// stay in order of their ids.
    pub fn enqueue_runtime_job(&mut self, record: RuntimeJobRecord)
        requires
            old(self).wf(),
        ensures
            final(self).wf(),
            job_map(final(self).records@) == job_map(old(self).records@).insert(record.runtime_job_id@, record),
            logged_job(old(self).events@, final(self).events@, "RuntimeJobQueued"@, record.runtime_job_id@),
    {
        let logged_id = record.runtime_job_id.clone();
        let ghost rs0 = self.records@;
        let ghost id = record.runtime_job_id@;
        let ghost d = record;
        proof {
            lemma_job_ids_unique(rs0);
        }
        let mut p: usize = 0;
        while p < self.records.len() && text_less(self.records[p].runtime_job_id.as_str(), record.runtime_job_id.as_str())
            invariant
                self.records@ == rs0,
                id == record.runtime_job_id@,
                p <= rs0.len(),
                forall|j: int| 0 <= j < p ==> text_lt(#[trigger] rs0[j].runtime_job_id@, id),
            decreases rs0.len() - p,
        {
            p = p + 1;
        }
        let replace = p < self.records.len() && str_eq(self.records[p].runtime_job_id.as_str(), record.runtime_job_id.as_str());
        proof {
            assert forall|j: int| p <= j < rs0.len() && !(replace && j == p) implies text_lt(id, #[trigger] rs0[j].runtime_job_id@) by {
                let ids = job_ids(rs0);
                assert(ids[p as int] == rs0[p as int].runtime_job_id@);
                assert(ids[j] == rs0[j].runtime_job_id@);
                lemma_text_lt_total(id, rs0[p as int].runtime_job_id@);
                if j > p {
                    assert(text_lt(ids[p as int], ids[j]));
                    if rs0[p as int].runtime_job_id@ == id {
                    } else if text_lt(id, rs0[p as int].runtime_job_id@) {
                        lemma_text_lt_transitive(id, rs0[p as int].runtime_job_id@, rs0[j].runtime_job_id@);
                    }
                }
            }
        }
        if replace {
            self.records.set(p, record);
        } else {
            self.records.insert(p, record);
        }
        proof {
            let rs = self.records@;
            if replace {
                assert(rs =~= rs0.update(p as int, d));
            } else {
                assert(rs =~= rs0.insert(p as int, d));
            }
            let ids = job_ids(rs);
            let ids0 = job_ids(rs0);
            assert forall|a: int, b: int| 0 <= a < b < ids.len() implies text_lt(#[trigger] ids[a], #[trigger] ids[b]) by {
                assert(ids[a] == rs[a].runtime_job_id@);
                assert(ids[b] == rs[b].runtime_job_id@);
                if replace {
                    if a != p && b != p {
                        assert(ids0[a] == rs0[a].runtime_job_id@ && ids0[b] == rs0[b].runtime_job_id@);
                    } else if a == p {
                        assert(rs0[b].runtime_job_id@ == ids0[b]);
                    } else {
                        assert(text_lt(rs0[a].runtime_job_id@, id));
                    }
                } else {
                    if b < p {
                        assert(ids0[a] == rs0[a].runtime_job_id@ && ids0[b] == rs0[b].runtime_job_id@);
                    } else if b == p {
                        assert(text_lt(rs0[a].runtime_job_id@, id));
                    } else if a == p {
                        assert(rs[b] == rs0[b - 1]);
                    } else if a < p {
                        assert(rs[b] == rs0[b - 1]);
                        assert(text_lt(rs0[a].runtime_job_id@, id));
                        assert(text_lt(id, rs0[b - 1].runtime_job_id@));
                        lemma_text_lt_transitive(rs0[a].runtime_job_id@, id, rs0[b - 1].runtime_job_id@);
                    } else {
                        assert(rs[a] == rs0[a - 1]);
                        assert(rs[b] == rs0[b - 1]);
                        assert(ids0[a - 1] == rs0[a - 1].runtime_job_id@ && ids0[b - 1] == rs0[b - 1].runtime_job_id@);
                    }
                }
            }
            assert(strictly_sorted(job_ids(rs)));
            lemma_job_ids_unique(rs);
            let m = job_map(rs);
            let m0 = job_map(rs0).insert(id, d);
            assert forall|n: Seq<char>| #[trigger] m.dom().contains(n) <==> m0.dom().contains(n) by {
                if has_job(rs, n) {
                    let i = choose|i: int| 0 <= i < rs.len() && rs[i].runtime_job_id@ == n;
                    if n != id {
                        if replace {
                            assert(rs0[i].runtime_job_id@ == n);
                        } else if i < p {
                            assert(rs0[i].runtime_job_id@ == n);
                        } else {
                            assert(rs0[i - 1].runtime_job_id@ == n);
                        }
                    }
                }
                if has_job(rs0, n) && n != id {
                    let i = choose|i: int| 0 <= i < rs0.len() && rs0[i].runtime_job_id@ == n;
                    if replace {
                        assert(rs[i].runtime_job_id@ == n);
                    } else if i < p {
                        assert(rs[i].runtime_job_id@ == n);
                    } else {
                        assert(rs[i + 1].runtime_job_id@ == n);
                    }
                }
                if n == id {
                    assert(rs[p as int].runtime_job_id@ == n);
                }
            }
            assert forall|n: Seq<char>| #[trigger] m.dom().contains(n) implies m[n] == m0[n] by {
                if n == id {
                    lemma_job_pos(rs, p as int);
                } else {
                    let i = job_pos(rs, n);
                    let j = if replace || i < p { i } else { i - 1 };
                    assert(rs[i] == rs0[j]);
                    lemma_job_pos(rs0, j);
                }
            }
            assert(m =~= m0);
        }
        self.log_job("RuntimeJobQueued", logged_id);
    }
}

// ---------------------------------------------------------------------------
// Which job runs next

/// Job `r` is queued, for thread `thread` when one is named.
pub open spec fn queued_for(r: RuntimeJobRecord, thread: Option<Seq<char>>) -> bool {
    &&& r.status == RuntimeJobStatus::Queued
    &&& thread matches Some(t) ==> r.job.client_thread_id@ == t
}

/// `id` is the smallest id of a job queued (for `thread`), or there is
/// none and `id` is `None`.
pub open spec fn is_next_queued(rs: Seq<RuntimeJobRecord>, thread: Option<Seq<char>>, id: Option<Seq<char>>) -> bool {
    match id {
        None => forall|j: int| 0 <= j < rs.len() ==> !queued_for(#[trigger] rs[j], thread),
        Some(id) => has_job(rs, id) && queued_for(rs[job_pos(rs, id)], thread) && forall|j: int|
            0 <= j < rs.len() && queued_for(#[trigger] rs[j], thread) ==> !text_lt(rs[j].runtime_job_id@, id),
    }
}

/// The runtime job status a worker's report leads to.
pub open spec fn finished_status(report: RuntimeRunReport) -> RuntimeJobStatus {
    if report.status == ThreadStatus::Interrupted {
        RuntimeJobStatus::Interrupted
    } else if report.status == ThreadStatus::WaitingTool {
        RuntimeJobStatus::Queued
    } else if report.final_submitted && report.status == ThreadStatus::Completed {
        RuntimeJobStatus::Completed
    } else if report.status == ThreadStatus::Blocked {
        RuntimeJobStatus::Blocked
    } else {
        RuntimeJobStatus::Failed
    }
}

/// The name of a thread status.
pub open spec fn status_name(s: ThreadStatus) -> &'static str {
    match s {
        ThreadStatus::Created => "Created",
        ThreadStatus::Ready => "Ready",
        ThreadStatus::Running => "Running",
        ThreadStatus::WaitingTool => "WaitingTool",
        ThreadStatus::WaitingPermission => "WaitingPermission",
        ThreadStatus::WaitingUser => "WaitingUser",
        ThreadStatus::Blocked => "Blocked",
        ThreadStatus::Suspended => "Suspended",
        ThreadStatus::ResidentIdle => "ResidentIdle",
        ThreadStatus::Unloaded => "Unloaded",
        ThreadStatus::Completing => "Completing",
        ThreadStatus::Completed => "Completed",
        ThreadStatus::Failed => "Failed",
        ThreadStatus::Interrupted => "Interrupted",
        ThreadStatus::Quarantined => "Quarantined",
        ThreadStatus::Terminated => "Terminated",
    }
}

/// The name of thread status `s`.
pub fn thread_status_name(s: ThreadStatus) -> (r: &'static str)
    ensures
        r == status_name(s),
{
    match s {
        ThreadStatus::Created => "Created",
        ThreadStatus::Ready => "Ready",
        ThreadStatus::Running => "Running",
        ThreadStatus::WaitingTool => "WaitingTool",
        ThreadStatus::WaitingPermission => "WaitingPermission",
        ThreadStatus::WaitingUser => "WaitingUser",
        ThreadStatus::Blocked => "Blocked",
        ThreadStatus::Suspended => "Suspended",
        ThreadStatus::ResidentIdle => "ResidentIdle",
        ThreadStatus::Unloaded => "Unloaded",
        ThreadStatus::Completing => "Completing",
        ThreadStatus::Completed => "Completed",
        ThreadStatus::Failed => "Failed",
        ThreadStatus::Interrupted => "Interrupted",
        ThreadStatus::Quarantined => "Quarantined",
        ThreadStatus::Terminated => "Terminated",
    }
}

/// Why a blocked run of task `task_id` stopped: the task's blocked reason,
/// or that the run blocked without a final submission.
pub open spec fn blocked_reason(s: KernelState, task_id: Seq<char>) -> Seq<char> {
    let t = s.tasks@[task_pos(s.tasks@, task_id)];
    if has_task(s.tasks@, task_id) && t.blocked_reason is Some {
        t.blocked_reason.unwrap()@
    } else {
        "runtime blocked without final submission"@
    }
}

/// The error a finished job records: why it blocked or failed; `None`
/// keeps the one it had.
pub open spec fn finished_error(s: KernelState, report: RuntimeRunReport) -> Option<Seq<char>> {
    match finished_status(report) {
        RuntimeJobStatus::Blocked => Some(blocked_reason(s, report.task_id@)),
        RuntimeJobStatus::Failed => Some("runtime finished with status "@ + status_name(report.status)@),
        _ => None,
    }
}

/// Why job `id` cannot start running: it is unknown or not queued.
pub open spec fn start_error(rs: Seq<RuntimeJobRecord>, id: Seq<char>) -> Option<AgentOsError> {
    if !has_job(rs, id) {
        Some(AgentOsError::NotFound("runtime job"))
    } else if rs[job_pos(rs, id)].status != RuntimeJobStatus::Queued {
        Some(AgentOsError::InvalidTransition("runtime job is not queued"))
    } else {
        None
    }
}

/// The jobs of `rs` that satisfy `f`, in order.
pub open spec fn jobs_where(rs: Seq<RuntimeJobRecord>, f: spec_fn(RuntimeJobRecord) -> bool) -> Seq<RuntimeJobRecord>
    decreases rs.len(),
{
    if rs.len() == 0 {
        Seq::empty()
    } else if f(rs.last()) {
        jobs_where(rs.drop_last(), f).push(rs.last())
    } else {
        jobs_where(rs.drop_last(), f)
    }
}

/// `rs` with the jobs of turn `turn` interrupted.
pub open spec fn interrupted_for_turn(rs: Seq<RuntimeJobRecord>, turn: Seq<char>) -> Seq<RuntimeJobRecord> {
    rs.map_values(|r: RuntimeJobRecord| if r.job.turn_id@ == turn {
        RuntimeJobRecord { status: RuntimeJobStatus::Interrupted, ..r }
    } else {
        r
    })
}

proof fn lemma_job_ids_same_positions(a: Seq<RuntimeJobRecord>, b: Seq<RuntimeJobRecord>)
    requires
        a.len() == b.len(),
        forall|i: int| 0 <= i < a.len() ==> #[trigger] a[i].runtime_job_id == b[i].runtime_job_id,
    ensures
        job_ids(a) == job_ids(b),
{
    assert(job_ids(a) =~= job_ids(b));
}

impl RuntimeJobRegistry {
    fn next_queued_for(&self, thread: Option<&str>) -> (r: Option<String>)
        requires
            self.wf(),
        ensures
            is_next_queued(self.records@, match thread { Some(t) => Some(t@), None => None },
                match r { Some(id) => Some(id@), None => None }),
    {
        let ghost th: Option<Seq<char>> = match thread { Some(t) => Some(t@), None => None };
        let mut i: usize = 0;
        while i < self.records.len()
            invariant
                self.wf(),
                th == match thread { Some(t) => Some(t@), None => None },
                i <= self.records@.len(),
                forall|j: int| 0 <= j < i ==> !queued_for(#[trigger] self.records@[j], th),
            decreases self.records@.len() - i,
        {
            let r = &self.records[i];
            let matches_thread = match thread {
                Some(t) => str_eq(r.job.client_thread_id.as_str(), t),
                None => true,
            };
            if r.status == RuntimeJobStatus::Queued && matches_thread {
                proof {
                    let rs = self.records@;
                    lemma_job_pos(rs, i as int);
                    assert forall|j: int| 0 <= j < rs.len() && queued_for(#[trigger] rs[j], th)
                        implies !text_lt(rs[j].runtime_job_id@, rs[i as int].runtime_job_id@) by {
                        let ids = job_ids(rs);
                        assert(ids[j] == rs[j].runtime_job_id@ && ids[i as int] == rs[i as int].runtime_job_id@);
                        if j > i {
                            assert(text_lt(ids[i as int], ids[j]));
                            crate::order::lemma_text_lt_asymmetric(ids[i as int], ids[j]);
                        } else if j == i {
                            lemma_text_lt_irreflexive(ids[j]);
                        }
                    }
                }
                return Some(r.runtime_job_id.clone());
            }
            i = i + 1;
        }
        None
    }

    /// The id of the queued job that comes first in id order, if any.
    pub fn next_queued_runtime_job_id(&self) -> (r: Option<String>)
        requires
            self.wf(),
        ensures
            is_next_queued(self.records@, None, match r { Some(id) => Some(id@), None => None }),
    {
        self.next_queued_for(None)
    }

    /// The id of the queued job of thread `client_thread_id` that comes
    /// first in id order, if any.
    pub fn next_queued_runtime_job_id_for_thread(&self, client_thread_id: &str) -> (r: Option<String>)
        requires
            self.wf(),
        ensures
            is_next_queued(self.records@, Some(client_thread_id@), match r { Some(id) => Some(id@), None => None }),
    {
        self.next_queued_for(Some(client_thread_id))
    }

    /// Job `runtime_job_id` starts running and its job is returned; only a
    /// queued job starts.
    pub fn mark_runtime_job_running(&mut self, runtime_job_id: &str) -> (r: Result<RuntimeJob, AgentOsError>)
        requires
            old(self).wf(),
        ensures
            final(self).wf(),
            match start_error(old(self).records@, runtime_job_id@) {
                Some(e) => r == Err::<RuntimeJob, AgentOsError>(e) && final(self).records@ == old(self).records@
                    && final(self).events@ == old(self).events@,
                None => {
                    let k = job_pos(old(self).records@, runtime_job_id@);
                    let rec = old(self).records@[k];
                    &&& r == Ok::<RuntimeJob, AgentOsError>(rec.job)
                    &&& logged_job(old(self).events@, final(self).events@, "RuntimeJobStarted"@, runtime_job_id@)
                    &&& final(self).records@ == old(self).records@.update(k,
                        RuntimeJobRecord { status: RuntimeJobStatus::Running, ..rec })
                },
            },
    {
        let k = match self.find(runtime_job_id) {
            None => return Err(AgentOsError::NotFound("runtime job")),
            Some(k) => k,
        };
        if self.records[k].status != RuntimeJobStatus::Queued {
            return Err(AgentOsError::InvalidTransition("runtime job is not queued"));
        }
        let job = self.records[k].job.duplicate();
        let mut rec = self.records[k].duplicate();
        rec.status = RuntimeJobStatus::Running;
        let ghost before = self.records@;
        self.records.set(k, rec);
        proof {
            lemma_job_ids_same_positions(before, self.records@);
        }
        self.log_job("RuntimeJobStarted", String::from_str(runtime_job_id));
        Ok(job)
    }

    /// Whether a background worker may be spawned for job
    /// `runtime_job_id`: not while one runs for it, and only for a queued
    /// job.
    pub fn ensure_runtime_job_can_spawn(&self, runtime_job_id: &str, worker_running: bool) -> (r: Result<(), AgentOsError>)
        requires
            self.wf(),
        ensures
            worker_running ==> r == Err::<(), AgentOsError>(
                AgentOsError::InvalidTransition("runtime job already has a background worker"),
            ),
            !worker_running && !has_job(self.records@, runtime_job_id@) ==> r == Err::<(), AgentOsError>(
                AgentOsError::NotFound("runtime job"),
            ),
            !worker_running && has_job(self.records@, runtime_job_id@) ==> (r is Ok <==> self.records@[job_pos(
                self.records@,
                runtime_job_id@,
            )].status == RuntimeJobStatus::Queued),
            !worker_running && has_job(self.records@, runtime_job_id@) && r is Err ==> r == Err::<(), AgentOsError>(
                AgentOsError::InvalidTransition("runtime job cannot spawn a background worker"),
            ),
    {
        if worker_running {
            return Err(AgentOsError::InvalidTransition("runtime job already has a background worker"));
        }
        match self.find(runtime_job_id) {
            None => Err(AgentOsError::NotFound("runtime job")),
            Some(k) => if self.records[k].status != RuntimeJobStatus::Queued {
                Err(AgentOsError::InvalidTransition("runtime job cannot spawn a background worker"))
            } else {
                Ok(())
            },
        }
    }

    /// Job `runtime_job_id` fails with `error`.
    pub fn fail_runtime_job(&mut self, runtime_job_id: &str, error: String) -> (r: Result<(), AgentOsError>)
        requires
            old(self).wf(),
        ensures
            final(self).wf(),
            !has_job(old(self).records@, runtime_job_id@) ==> r == Err::<(), AgentOsError>(
                AgentOsError::NotFound("runtime job"),
            ) && final(self).records@ == old(self).records@ && final(self).events@ == old(self).events@,
            has_job(old(self).records@, runtime_job_id@) ==> {
                let k = job_pos(old(self).records@, runtime_job_id@);
                &&& r is Ok
                &&& logged_job(old(self).events@, final(self).events@, "RuntimeJobFailed"@, runtime_job_id@)
                &&& final(self).records@ == old(self).records@.update(k, RuntimeJobRecord {
                    status: RuntimeJobStatus::Failed,
                    last_error: Some(error),
                    ..old(self).records@[k]
                })
            },
    {
        let k = match self.find(runtime_job_id) {
            None => return Err(AgentOsError::NotFound("runtime job")),
            Some(k) => k,
        };
        let mut rec = self.records[k].duplicate();
        rec.status = RuntimeJobStatus::Failed;
        rec.last_error = Some(error);
        let ghost before = self.records@;
        self.records.set(k, rec);
        proof {
            lemma_job_ids_same_positions(before, self.records@);
        }
        self.log_job("RuntimeJobFailed", String::from_str(runtime_job_id));
        Ok(())
    }

    /// Records how a worker's run of job `runtime_job_id` ended: an
    /// interrupted run interrupts the job, a run waiting on a background
    /// tool queues it again, a completed run with a final submission
    /// completes it, a blocked run blocks it with the task's blocked reason,
    /// and any other run fails it.
    pub fn finish_runtime_job(&mut self, state: &KernelState, runtime_job_id: &str, report: &RuntimeRunReport) -> (r: Result<(), AgentOsError>)
        requires
            old(self).wf(),
            state.wf(),
        ensures
            final(self).wf(),
            !has_job(old(self).records@, runtime_job_id@) ==> r == Err::<(), AgentOsError>(
                AgentOsError::NotFound("runtime job"),
            ) && final(self).records@ == old(self).records@ && final(self).events@ == old(self).events@,
            has_job(old(self).records@, runtime_job_id@) ==> {
                let k = job_pos(old(self).records@, runtime_job_id@);
                let rec = old(self).records@[k];
                let new = final(self).records@[k];
                &&& r is Ok
                &&& logged_job(old(self).events@, final(self).events@, job_event_type(new.status), runtime_job_id@)
                &&& final(self).records@ == old(self).records@.update(k, new)
                &&& new == RuntimeJobRecord { status: finished_status(*report), last_error: new.last_error, ..rec }
                &&& match finished_error(*state, *report) {
                    Some(text) => new.last_error matches Some(e) && e@ == text,
                    None => new.last_error == rec.last_error,
                }
            },
    {
        let blocked = if report.status == ThreadStatus::Blocked {
            let text = match state.find_task(report.task_id.as_str()) {
                Some(t) => match &state.tasks[t].blocked_reason {
                    Some(reason) => reason.clone(),
                    None => String::from_str("runtime blocked without final submission"),
                },
                None => String::from_str("runtime blocked without final submission"),
            };
            Some(text)
        } else {
            None
        };
        let k = match self.find(runtime_job_id) {
            None => return Err(AgentOsError::NotFound("runtime job")),
            Some(k) => k,
        };
        let mut rec = self.records[k].duplicate();
        if report.status == ThreadStatus::Interrupted {
            rec.status = RuntimeJobStatus::Interrupted;
        } else if report.status == ThreadStatus::WaitingTool {
            rec.status = RuntimeJobStatus::Queued;
        } else if report.final_submitted && report.status == ThreadStatus::Completed {
            rec.status = RuntimeJobStatus::Completed;
        } else if report.status == ThreadStatus::Blocked {
            rec.status = RuntimeJobStatus::Blocked;
            rec.last_error = blocked;
        } else {
            let mut text = String::from_str("runtime finished with status ");
            text.append(thread_status_name(report.status));
            rec.status = RuntimeJobStatus::Failed;
            rec.last_error = Some(text);
        }
        let event_type = job_event_type_for(rec.status);
        let ghost before = self.records@;
        self.records.set(k, rec);
        proof {
            lemma_job_ids_same_positions(before, self.records@);
        }
        self.log_job(event_type, String::from_str(runtime_job_id));
        Ok(())
    }

    /// The jobs of thread `client_thread_id`, in id order.
    pub fn runtime_jobs_for_thread(&self, client_thread_id: &str) -> (r: Vec<RuntimeJobRecord>)
        ensures
            r@ == jobs_where(self.records@, |x: RuntimeJobRecord| x.job.client_thread_id@ == client_thread_id@),
    {
        let ghost f = |x: RuntimeJobRecord| x.job.client_thread_id@ == client_thread_id@;
        let mut out: Vec<RuntimeJobRecord> = Vec::new();
        let mut i: usize = 0;
        while i < self.records.len()
            invariant
                f == |x: RuntimeJobRecord| x.job.client_thread_id@ == client_thread_id@,
                i <= self.records@.len(),
                out@ == jobs_where(self.records@.take(i as int), f),
            decreases self.records@.len() - i,
        {
            proof {
                assert(self.records@.take(i + 1).drop_last() =~= self.records@.take(i as int));
                assert(self.records@.take(i + 1).last() == self.records@[i as int]);
            }
            if str_eq(self.records[i].job.client_thread_id.as_str(), client_thread_id) {
                out.push(self.records[i].duplicate());
            }
            i = i + 1;
        }
        proof {
            assert(self.records@.take(self.records@.len() as int) =~= self.records@);
        }
        out
    }

    /// Interrupts every job of turn `turn_id` and returns them, in id order.
    pub fn interrupt_runtime_jobs_for_turn(&mut self, turn_id: &str) -> (r: Vec<RuntimeJobRecord>)
        requires
            old(self).wf(),
        ensures
            final(self).wf(),
            final(self).records@ == interrupted_for_turn(old(self).records@, turn_id@),
            r@ == jobs_where(final(self).records@, |x: RuntimeJobRecord| x.job.turn_id@ == turn_id@),
            final(self).events@.len() == old(self).events@.len() + r@.len(),
            final(self).events@.subrange(0, old(self).events@.len() as int) == old(self).events@,
            forall|i: int| 0 <= i < r@.len() ==> {
                let e = #[trigger] final(self).events@[old(self).events@.len() + i];
                e.event_type@ == "RuntimeJobInterrupted"@ && e.runtime_job_id@ == r@[i].runtime_job_id@
            },
    {
        let ghost ev0 = self.events@;
        let ghost f = |x: RuntimeJobRecord| x.job.turn_id@ == turn_id@;
        let ghost rs0 = self.records@;
        let ghost goal = interrupted_for_turn(rs0, turn_id@);
        let mut out: Vec<RuntimeJobRecord> = Vec::new();
        let mut i: usize = 0;
        while i < self.records.len()
            invariant
                f == |x: RuntimeJobRecord| x.job.turn_id@ == turn_id@,
                goal == interrupted_for_turn(rs0, turn_id@),
                i <= self.records@.len(),
                self.records@.len() == rs0.len(),
                forall|j: int| 0 <= j < i ==> #[trigger] self.records@[j] == goal[j],
                forall|j: int| i <= j < rs0.len() ==> #[trigger] self.records@[j] == rs0[j],
                out@ == jobs_where(goal.take(i as int), f),
                self.events@.len() == ev0.len() + out@.len(),
                self.events@.subrange(0, ev0.len() as int) == ev0,
                forall|j: int| 0 <= j < out@.len() ==> {
                    let e = #[trigger] self.events@[ev0.len() + j];
                    e.event_type@ == "RuntimeJobInterrupted"@ && e.runtime_job_id@ == out@[j].runtime_job_id@
                },
            decreases self.records@.len() - i,
        {
            proof {
                assert(goal.take(i + 1).drop_last() =~= goal.take(i as int));
                assert(goal.take(i + 1).last() == goal[i as int]);
            }
            if str_eq(self.records[i].job.turn_id.as_str(), turn_id) {
                let mut rec = self.records[i].duplicate();
                rec.status = RuntimeJobStatus::Interrupted;
                let logged_id = rec.runtime_job_id.clone();
                let ghost outb = out@;
                out.push(rec.duplicate());
                self.records.set(i, rec);
                let ghost evb = self.events@;
                self.log_job("RuntimeJobInterrupted", logged_id);
                assert(self.events@.subrange(0, ev0.len() as int) =~= evb.subrange(0, ev0.len() as int));
                assert forall|j: int| 0 <= j < out@.len() implies {
                    let e = #[trigger] self.events@[ev0.len() + j];
                    e.event_type@ == "RuntimeJobInterrupted"@ && e.runtime_job_id@ == out@[j].runtime_job_id@
                } by {
                    if j < outb.len() {
                        assert(self.events@[ev0.len() + j] == evb[ev0.len() + j]);
                        assert(out@[j] == outb[j]);
                    } else {
                        assert(self.events@[ev0.len() + j] == self.events@.last());
                    }
                }
            }
            i = i + 1;
        }
        proof {
            assert(self.records@ =~= goal);
            assert(goal.take(goal.len() as int) =~= goal);
            lemma_job_ids_same_positions(rs0, self.records@);
        }
        out
    }
}

/// The job picked to run next can start running.
pub proof fn law_next_queued_job_can_start(reg: RuntimeJobRegistry, thread: Option<Seq<char>>, id: Seq<char>)
    requires
        reg.wf(),
        is_next_queued(reg.records@, thread, Some(id)),
    ensures
        start_error(reg.records@, id) is None,
{
}

/// Once a turn is interrupted, none of its jobs starts running again.
pub proof fn law_interrupted_jobs_do_not_start(reg: RuntimeJobRegistry, turn: Seq<char>, id: Seq<char>)
    requires
        reg.wf(),
        has_job(reg.records@, id),
        reg.records@[job_pos(reg.records@, id)].job.turn_id@ == turn,
    ensures
        start_error(interrupted_for_turn(reg.records@, turn), id) == Some(AgentOsError::InvalidTransition("runtime job is not queued")),
{
    let rs = reg.records@;
    let after = interrupted_for_turn(rs, turn);
    let k = job_pos(rs, id);
    assert(after[k].runtime_job_id == rs[k].runtime_job_id);
    lemma_job_ids_same_positions(rs, after);
    lemma_job_pos(after, k);
}

// ---------------------------------------------------------------------------
// Resuming a thread

/// Why thread `id` cannot be resumed: it is unknown or deleted, or it has
/// finished or is quarantined.
pub open spec fn resume_error(s: KernelState, id: Seq<char>) -> Option<AgentOsError> {
    let deleted = has_summary(s.client_threads@, id) && s.client_threads@[summary_pos(s.client_threads@, id)].deleted;
    if !has_thread(s.threads@, id) || deleted {
        Some(AgentOsError::NotFound("thread"))
    } else if finished_or_quarantined(s.threads@[thread_pos(s.threads@, id)].lifecycle.status) {
        Some(AgentOsError::InvalidTransition("thread cannot be resumed"))
    } else {
        None
    }
}

/// A thread that has finished or is quarantined.
pub open spec fn finished_or_quarantined(s: ThreadStatus) -> bool {
    matches!(s, ThreadStatus::Completing | ThreadStatus::Completed | ThreadStatus::Failed | ThreadStatus::Quarantined
        | ThreadStatus::Terminated)
}

/// A thread stopped in the middle of a turn.
pub open spec fn mid_turn(s: ThreadStatus) -> bool {
    matches!(s, ThreadStatus::Running | ThreadStatus::WaitingTool | ThreadStatus::WaitingPermission | ThreadStatus::WaitingUser)
}

/// `after` is `before` with the lifecycle of thread `k` (id `id`) set to
/// `lc` and the thread added to the ready queue.
pub open spec fn made_ready(before: KernelState, after: KernelState, k: int, id: Seq<char>, lc: ThreadLifecycle) -> bool {
    &&& after.threads@ == before.threads@.update(k, ThreadRecord { lifecycle: lc, ..before.threads@[k] })
    &&& forall|x: Seq<char>| #[trigger] texts(after.ready_queue@).contains(x) <==> (texts(before.ready_queue@).contains(x) || x == id)
    &&& after.events@.len() > before.events@.len()
    &&& after.events@.subrange(0, before.events@.len() as int) == before.events@
    &&& after.events@.last() matches crate::events::KernelEvent::ThreadStatusChanged(x0) && after.threads@[k].copies(&x0)
    &&& after == KernelState { threads: after.threads, ready_queue: after.ready_queue, events: after.events, ..before }
}

impl KernelState {
    /// Prepares thread `client_thread_id` for a resumed run at `now`: a
    /// created or ready thread stays as it is; a thread stopped mid-turn is
    /// interrupted to recover the turn and then made ready; an interrupted,
    /// blocked, suspended, idle or unloaded thread is made ready. An unknown
    /// or deleted thread is `NotFound`; a finished or quarantined one cannot
    /// be resumed.
    pub fn prepare_thread_for_resume(&mut self, client_thread_id: &str, now: String) -> (r: Result<(), AgentOsError>)
        requires
            old(self).wf(),
        ensures
            final(self).wf(),
            match resume_error(*old(self), client_thread_id@) {
                Some(e) => r == Err::<(), AgentOsError>(e) && *final(self) == *old(self),
                None => r is Ok && {
                    let k = thread_pos(old(self).threads@, client_thread_id@);
                    let l0 = old(self).threads@[k].lifecycle;
                    let l2 = final(self).threads@[k].lifecycle;
                    if l0.status == ThreadStatus::Created || l0.status == ThreadStatus::Ready {
                        *final(self) == *old(self)
                    } else if mid_turn(l0.status) {
                        &&& made_ready(*old(self), *final(self), k, client_thread_id@, l2)
                        &&& final(self).events@.len() == old(self).events@.len() + 2
                        &&& exists|l1: ThreadLifecycle, r1: String, r2: String|
                            r1@ == "resume recovered incomplete turn"@ && r2@ == "resume requested after recovery"@
                            && #[trigger] transitioned(l0, l1, ThreadStatus::Interrupted, Some(r1), now)
                            && #[trigger] transitioned(l1, l2, ThreadStatus::Ready, Some(r2), now)
                    } else {
                        &&& made_ready(*old(self), *final(self), k, client_thread_id@, l2)
                        &&& final(self).events@.len() == old(self).events@.len() + 1
                        &&& exists|r1: String| r1@ == "resume requested"@
                            && #[trigger] transitioned(l0, l2, ThreadStatus::Ready, Some(r1), now)
                    }
                },
            },
    {
        let k = match self.find_thread(client_thread_id) {
            None => return Err(AgentOsError::NotFound("thread")),
            Some(k) => k,
        };
        match self.find_summary(client_thread_id) {
            Some(i) => if self.client_threads[i].deleted {
                return Err(AgentOsError::NotFound("thread"));
            },
            None => {},
        }
        let ghost s0 = *self;
        match self.threads[k].lifecycle.status {
            ThreadStatus::Created | ThreadStatus::Ready => Ok(()),
            ThreadStatus::Running | ThreadStatus::WaitingTool | ThreadStatus::WaitingPermission
            | ThreadStatus::WaitingUser => {
                let r1 = String::from_str("resume recovered incomplete turn");
                let l1 = match self.transition_thread(client_thread_id, ThreadStatus::Interrupted, Some(r1), now.clone()) {
                    Err(e) => return Err(e),
                    Ok(l) => l,
                };
                let ghost s1 = *self;
                proof {
                    assert(self.threads@[k as int].lifecycle.thread_id@ == client_thread_id@);
                    assert(thread_pos(self.threads@, client_thread_id@) == k);
                }
                let r2 = String::from_str("resume requested after recovery");
                match self.transition_thread(client_thread_id, ThreadStatus::Ready, Some(r2), now) {
                    Err(e) => return Err(e),
                    Ok(l2) => {
                        proof {
                            assert(self.threads@ =~= s0.threads@.update(k as int, ThreadRecord { lifecycle: l2, ..s0.threads@[k as int] }));
                            assert(self.events@.subrange(0, s0.events@.len() as int) =~= s0.events@) by {
                                assert(self.events@.drop_last() == s1.events@);
                                assert(s1.events@.drop_last() == s0.events@);
                                assert forall|i: int| 0 <= i < s0.events@.len() implies self.events@[i] == s0.events@[i] by {
                                    assert(self.events@[i] == self.events@.drop_last()[i]);
                                    assert(s1.events@[i] == s1.events@.drop_last()[i]);
                                }
                            }
                        }
                    },
                }
                Ok(())
            },
            ThreadStatus::Interrupted | ThreadStatus::Blocked | ThreadStatus::Suspended | ThreadStatus::ResidentIdle
            | ThreadStatus::Unloaded => {
                let r1 = String::from_str("resume requested");
                match self.transition_thread(client_thread_id, ThreadStatus::Ready, Some(r1), now) {
                    Err(e) => return Err(e),
                    Ok(_) => {},
                }
                proof {
                    assert(self.events@.subrange(0, s0.events@.len() as int) =~= self.events@.drop_last());
                }
                Ok(())
            },
            _ => Err(AgentOsError::InvalidTransition("thread cannot be resumed")),
        }
    }
}

} // verus!
