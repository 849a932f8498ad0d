//! Reconciliation after a restart: tool calls a thread's task left
//! running are cancelled, the thread's leases whose expiry passed are
//! reclaimed, and a report lists them with the task's patch artifacts.
//! The thread's own status is left to the caller.
use vstd::prelude::*;
use crate::error::AgentOsError;
use crate::state::{KernelState, ThreadRecord, has_thread, thread_pos, ResourceLease, ResourceLeaseStatus, EnvironmentLease,
    EnvironmentLeaseStatus, ArtifactRecord, ArtifactType};
use crate::tools::{ToolInvocation, ToolCallStatus};
use crate::clock::{parse_rfc3339, rfc3339_parsed};
use crate::scope::texts;
use crate::text::{str_eq, copy_strings};

verus! {

/// A record of one reconciliation of a thread.
#[derive(Debug)]
pub struct ReconciliationReport {
    pub reconciliation_id: String,
    pub thread_id: String,
    pub agent_id: String,
    pub task_id: String,
    pub orphan_tool_call_ids: Vec<String>,
    pub workspace_diff_refs: Vec<String>,
    pub reclaimed_resource_lease_ids: Vec<String>,
    pub reclaimed_environment_lease_ids: Vec<String>,
    pub created_at: String,
}

/// A call of task `task` still marked running.
pub open spec fn is_orphan(c: ToolInvocation, task: Seq<char>) -> bool {
    c.task_id@ == task && c.status == ToolCallStatus::Running
}

/// An expiry time that can be read and lies before `now_nanos`.
pub open spec fn expired(expiry: Option<String>, now_nanos: i128) -> bool {
    expiry matches Some(t) && rfc3339_parsed(t@) matches Some(p) && p.0 < now_nanos
}

/// A granted lease of thread `thread` whose expiry passed.
pub open spec fn resource_reclaimable(l: ResourceLease, thread: Seq<char>, now_nanos: i128) -> bool {
    l.thread_id@ == thread && l.status == ResourceLeaseStatus::Granted && expired(l.lease_expires_at, now_nanos)
}

/// An active attachment of thread `thread` whose expiry passed.
pub open spec fn environment_reclaimable(l: EnvironmentLease, thread: Seq<char>, now_nanos: i128) -> bool {
    l.thread_id@ == thread && l.status == EnvironmentLeaseStatus::Active && expired(l.expires_at, now_nanos)
}

/// A patch artifact of task `task`.
pub open spec fn is_workspace_diff(a: ArtifactRecord, task: Seq<char>) -> bool {
    a.task_id@ == task && a.artifact_type == ArtifactType::Patch
}

/// The ids of the orphan calls of `task`, in order.
pub open spec fn orphan_ids(cs: Seq<ToolInvocation>, task: Seq<char>) -> Seq<Seq<char>>
    decreases cs.len(),
{
    if cs.len() == 0 {
        Seq::empty()
    } else {
        let rest = orphan_ids(cs.drop_last(), task);
        if is_orphan(cs.last(), task) { rest.push(cs.last().call_id@) } else { rest }
    }
}

/// The ids of the reclaimable resource leases of `thread`, in order.
pub open spec fn reclaimable_resource_ids(ls: Seq<ResourceLease>, thread: Seq<char>, now_nanos: i128) -> Seq<Seq<char>>
    decreases ls.len(),
{
    if ls.len() == 0 {
        Seq::empty()
    } else {
        let rest = reclaimable_resource_ids(ls.drop_last(), thread, now_nanos);
        if resource_reclaimable(ls.last(), thread, now_nanos) { rest.push(ls.last().resource_lease_id@) } else { rest }
    }
}

/// The ids of the reclaimable attachments of `thread`, in order.
pub open spec fn reclaimable_environment_ids(ls: Seq<EnvironmentLease>, thread: Seq<char>, now_nanos: i128) -> Seq<Seq<char>>
    decreases ls.len(),
{
    if ls.len() == 0 {
        Seq::empty()
    } else {
        let rest = reclaimable_environment_ids(ls.drop_last(), thread, now_nanos);
        if environment_reclaimable(ls.last(), thread, now_nanos) {
            rest.push(ls.last().environment_lease_id@)
        } else {
            rest
        }
    }
}

/// The ids of the patch artifacts of `task`, in order.
pub open spec fn diff_ids(as_: Seq<ArtifactRecord>, task: Seq<char>) -> Seq<Seq<char>>
    decreases as_.len(),
{
    if as_.len() == 0 {
        Seq::empty()
    } else {
        let rest = diff_ids(as_.drop_last(), task);
        if is_workspace_diff(as_.last(), task) { rest.push(as_.last().artifact_id@) } else { rest }
    }
}

/// A call cancelled by reconciliation at `now`.
pub open spec fn cancelled(c: ToolInvocation, now: String) -> ToolInvocation {
    ToolInvocation { status: ToolCallStatus::Cancelled, completed_at: Some(now), ..c }
}

/// Two reports that agree field by field.
pub open spec fn same_report(a: ReconciliationReport, b: ReconciliationReport) -> bool {
    &&& a == ReconciliationReport {
        orphan_tool_call_ids: a.orphan_tool_call_ids,
        workspace_diff_refs: a.workspace_diff_refs,
        reclaimed_resource_lease_ids: a.reclaimed_resource_lease_ids,
        reclaimed_environment_lease_ids: a.reclaimed_environment_lease_ids,
        ..b
    }
    &&& a.orphan_tool_call_ids@ == b.orphan_tool_call_ids@
    &&& a.workspace_diff_refs@ == b.workspace_diff_refs@
    &&& a.reclaimed_resource_lease_ids@ == b.reclaimed_resource_lease_ids@
    &&& a.reclaimed_environment_lease_ids@ == b.reclaimed_environment_lease_ids@
}

impl ReconciliationReport {
    /// A copy of this report.
    pub fn duplicate(&self) -> (r: ReconciliationReport)
        ensures
            same_report(*self, r),
    {
        ReconciliationReport {
            reconciliation_id: self.reconciliation_id.clone(),
            thread_id: self.thread_id.clone(),
            agent_id: self.agent_id.clone(),
            task_id: self.task_id.clone(),
            orphan_tool_call_ids: copy_strings(&self.orphan_tool_call_ids),
            workspace_diff_refs: copy_strings(&self.workspace_diff_refs),
            reclaimed_resource_lease_ids: copy_strings(&self.reclaimed_resource_lease_ids),
            reclaimed_environment_lease_ids: copy_strings(&self.reclaimed_environment_lease_ids),
            created_at: self.created_at.clone(),
        }
    }
}

fn is_expired(expiry: &Option<String>, now_nanos: i128) -> (r: bool)
    ensures
        r == expired(*expiry, now_nanos),
{
    match expiry {
        None => false,
        Some(t) => match parse_rfc3339(t.as_str()) {
            None => false,
            Some((n, _)) => n < now_nanos,
        },
    }
}

proof fn lemma_texts_push(v: Seq<String>, s: String)
    ensures
        texts(v.push(s)) == texts(v).push(s@),
{
    assert(texts(v.push(s)) =~= texts(v).push(s@));
}

impl KernelState {
    fn cancel_orphan_calls(&mut self, task: &str, now: &String) -> (ids: Vec<String>)
        requires
            old(self).wf(),
        ensures
            final(self).wf(),
            texts(ids@) == orphan_ids(old(self).tool_invocations@, task@),
            final(self).tool_invocations@.len() == old(self).tool_invocations@.len(),
            forall|i: int| 0 <= i < old(self).tool_invocations@.len() ==> #[trigger] final(self).tool_invocations@[i] == if is_orphan(
                old(self).tool_invocations@[i],
                task@,
            ) {
                cancelled(old(self).tool_invocations@[i], *now)
            } else {
                old(self).tool_invocations@[i]
            },
            *final(self) == (KernelState { tool_invocations: final(self).tool_invocations, ..*old(self) }),
    {
        let mut ids: Vec<String> = Vec::new();
        let mut i: usize = 0;
        while i < self.tool_invocations.len()
            invariant
                self.wf(),
                i <= self.tool_invocations@.len(),
                self.tool_invocations@.len() == old(self).tool_invocations@.len(),
                texts(ids@) == orphan_ids(old(self).tool_invocations@.subrange(0, i as int), task@),
                forall|q: int| 0 <= q < i ==> #[trigger] self.tool_invocations@[q] == if is_orphan(old(self).tool_invocations@[q], task@) {
                    cancelled(old(self).tool_invocations@[q], *now)
                } else {
                    old(self).tool_invocations@[q]
                },
                forall|q: int| i <= q < self.tool_invocations@.len() ==> #[trigger] self.tool_invocations@[q] == old(self).tool_invocations@[q],
                *self == (KernelState { tool_invocations: self.tool_invocations, ..*old(self) }),
            decreases self.tool_invocations@.len() - i,
        {
            proof {
                let pre = old(self).tool_invocations@.subrange(0, i + 1);
                assert(pre.drop_last() =~= old(self).tool_invocations@.subrange(0, i as int));
                assert(pre.last() == old(self).tool_invocations@[i as int]);
            }
            if str_eq(self.tool_invocations[i].task_id.as_str(), task) && self.tool_invocations[i].status == ToolCallStatus::Running {
                let ghost before = *self;
                let ghost before_ids = ids@;
                let mut c = self.tool_invocations.remove(i);
                ids.push(c.call_id.clone());
                c.status = ToolCallStatus::Cancelled;
                c.completed_at = Some(now.clone());
                self.tool_invocations.insert(i, c);
                proof {
                    lemma_texts_push(before_ids, ids@.last());
                    assert(ids@ =~= before_ids.push(ids@.last()));
                    assert(self.tool_invocations@ =~= before.tool_invocations@.update(i as int, c));
                    assert forall|a: int, b: int|
                        0 <= a < self.tool_invocations@.len() && 0 <= b < self.tool_invocations@.len()
                            && #[trigger] self.tool_invocations@[a].call_id@ == #[trigger] self.tool_invocations@[b].call_id@
                        implies a == b by {
                        assert(self.tool_invocations@[a].call_id@ == before.tool_invocations@[a].call_id@);
                        assert(self.tool_invocations@[b].call_id@ == before.tool_invocations@[b].call_id@);
                    }
                }
            }
            i = i + 1;
        }
        assert(old(self).tool_invocations@.subrange(0, i as int) =~= old(self).tool_invocations@);
        ids
    }

    fn reclaim_resource_leases(&mut self, thread: &str, now: &String, now_nanos: i128) -> (ids: Vec<String>)
        requires
            old(self).wf(),
        ensures
            final(self).wf(),
            texts(ids@) == reclaimable_resource_ids(old(self).resource_leases@, thread@, now_nanos),
            final(self).resource_leases@.len() == old(self).resource_leases@.len(),
            forall|i: int| 0 <= i < old(self).resource_leases@.len() ==> #[trigger] final(self).resource_leases@[i] == if resource_reclaimable(
                old(self).resource_leases@[i],
                thread@,
                now_nanos,
            ) {
                ResourceLease { status: ResourceLeaseStatus::Expired, released_at: Some(*now), ..old(self).resource_leases@[i] }
            } else {
                old(self).resource_leases@[i]
            },
            *final(self) == (KernelState { resource_leases: final(self).resource_leases, ..*old(self) }),
    {
        let mut ids: Vec<String> = Vec::new();
        let mut i: usize = 0;
        while i < self.resource_leases.len()
            invariant
                self.wf(),
                i <= self.resource_leases@.len(),
                self.resource_leases@.len() == old(self).resource_leases@.len(),
                texts(ids@) == reclaimable_resource_ids(old(self).resource_leases@.subrange(0, i as int), thread@, now_nanos),
                forall|q: int| 0 <= q < i ==> #[trigger] self.resource_leases@[q] == if resource_reclaimable(
                    old(self).resource_leases@[q],
                    thread@,
                    now_nanos,
                ) {
                    ResourceLease { status: ResourceLeaseStatus::Expired, released_at: Some(*now), ..old(self).resource_leases@[q] }
                } else {
                    old(self).resource_leases@[q]
                },
                forall|q: int| i <= q < self.resource_leases@.len() ==> #[trigger] self.resource_leases@[q] == old(self).resource_leases@[q],
                *self == (KernelState { resource_leases: self.resource_leases, ..*old(self) }),
            decreases self.resource_leases@.len() - i,
        {
            proof {
                let pre = old(self).resource_leases@.subrange(0, i + 1);
                assert(pre.drop_last() =~= old(self).resource_leases@.subrange(0, i as int));
                assert(pre.last() == old(self).resource_leases@[i as int]);
            }
            if str_eq(self.resource_leases[i].thread_id.as_str(), thread) && self.resource_leases[i].status
                == ResourceLeaseStatus::Granted && is_expired(&self.resource_leases[i].lease_expires_at, now_nanos) {
                let ghost before = *self;
                let ghost before_ids = ids@;
                let mut l = self.resource_leases.remove(i);
                ids.push(l.resource_lease_id.clone());
                l.status = ResourceLeaseStatus::Expired;
                l.released_at = Some(now.clone());
                self.resource_leases.insert(i, l);
                proof {
                    lemma_texts_push(before_ids, ids@.last());
                    assert(ids@ =~= before_ids.push(ids@.last()));
                    assert(self.resource_leases@ =~= before.resource_leases@.update(i as int, l));
                    assert forall|a: int, b: int|
                        0 <= a < self.resource_leases@.len() && 0 <= b < self.resource_leases@.len()
                            && #[trigger] self.resource_leases@[a].resource_lease_id@ == #[trigger] self.resource_leases@[b].resource_lease_id@
                        implies a == b by {
                        assert(self.resource_leases@[a].resource_lease_id@ == before.resource_leases@[a].resource_lease_id@);
                        assert(self.resource_leases@[b].resource_lease_id@ == before.resource_leases@[b].resource_lease_id@);
                    }
                    assert forall|a: int, b: int|
                        0 <= a < self.resource_leases@.len() && 0 <= b < self.resource_leases@.len() && a != b
                        implies !crate::state::resource_leases_clash(#[trigger] self.resource_leases@[a], #[trigger] self.resource_leases@[b]) by {
                        if a != i && b != i {
                            assert(!crate::state::resource_leases_clash(before.resource_leases@[a], before.resource_leases@[b]));
                        }
                    }
                }
            }
            i = i + 1;
        }
        assert(old(self).resource_leases@.subrange(0, i as int) =~= old(self).resource_leases@);
        ids
    }

    fn reclaim_environment_leases(&mut self, thread: &str, now: &String, now_nanos: i128) -> (ids: Vec<String>)
        requires
            old(self).wf(),
        ensures
            final(self).wf(),
            texts(ids@) == reclaimable_environment_ids(old(self).environment_leases@, thread@, now_nanos),
            final(self).environment_leases@.len() == old(self).environment_leases@.len(),
            forall|i: int| 0 <= i < old(self).environment_leases@.len() ==> #[trigger] final(self).environment_leases@[i] == if environment_reclaimable(
                old(self).environment_leases@[i],
                thread@,
                now_nanos,
            ) {
                EnvironmentLease { status: EnvironmentLeaseStatus::Expired, released_at: Some(*now), ..old(self).environment_leases@[i] }
            } else {
                old(self).environment_leases@[i]
            },
            *final(self) == (KernelState { environment_leases: final(self).environment_leases, ..*old(self) }),
    {
        let mut ids: Vec<String> = Vec::new();
        let mut i: usize = 0;
        while i < self.environment_leases.len()
            invariant
                self.wf(),
                i <= self.environment_leases@.len(),
                self.environment_leases@.len() == old(self).environment_leases@.len(),
                texts(ids@) == reclaimable_environment_ids(old(self).environment_leases@.subrange(0, i as int), thread@, now_nanos),
                forall|q: int| 0 <= q < i ==> #[trigger] self.environment_leases@[q] == if environment_reclaimable(
                    old(self).environment_leases@[q],
                    thread@,
                    now_nanos,
                ) {
                    EnvironmentLease { status: EnvironmentLeaseStatus::Expired, released_at: Some(*now), ..old(self).environment_leases@[q] }
                } else {
                    old(self).environment_leases@[q]
                },
                forall|q: int| i <= q < self.environment_leases@.len() ==> #[trigger] self.environment_leases@[q] == old(self).environment_leases@[q],
                *self == (KernelState { environment_leases: self.environment_leases, ..*old(self) }),
            decreases self.environment_leases@.len() - i,
        {
            proof {
                let pre = old(self).environment_leases@.subrange(0, i + 1);
                assert(pre.drop_last() =~= old(self).environment_leases@.subrange(0, i as int));
                assert(pre.last() == old(self).environment_leases@[i as int]);
            }
            if str_eq(self.environment_leases[i].thread_id.as_str(), thread) && self.environment_leases[i].status
                == EnvironmentLeaseStatus::Active && is_expired(&self.environment_leases[i].expires_at, now_nanos) {
                let ghost before = *self;
                let ghost before_ids = ids@;
                let mut l = self.environment_leases.remove(i);
                ids.push(l.environment_lease_id.clone());
                l.status = EnvironmentLeaseStatus::Expired;
                l.released_at = Some(now.clone());
                self.environment_leases.insert(i, l);
                proof {
                    lemma_texts_push(before_ids, ids@.last());
                    assert(ids@ =~= before_ids.push(ids@.last()));
                    assert(self.environment_leases@ =~= before.environment_leases@.update(i as int, l));
                    assert forall|a: int, b: int|
                        0 <= a < self.environment_leases@.len() && 0 <= b < self.environment_leases@.len()
                            && #[trigger] self.environment_leases@[a].environment_lease_id@
                            == #[trigger] self.environment_leases@[b].environment_lease_id@ implies a == b by {
                        assert(self.environment_leases@[a].environment_lease_id@ == before.environment_leases@[a].environment_lease_id@);
                        assert(self.environment_leases@[b].environment_lease_id@ == before.environment_leases@[b].environment_lease_id@);
                    }
                    assert forall|a: int, b: int|
                        0 <= a < self.environment_leases@.len() && 0 <= b < self.environment_leases@.len() && a != b
                        implies !crate::state::environment_leases_clash(#[trigger] self.environment_leases@[a], #[trigger] self.environment_leases@[b]) by {
                        if a != i && b != i {
                            assert(!crate::state::environment_leases_clash(before.environment_leases@[a], before.environment_leases@[b]));
                        }
                    }
                }
            }
            i = i + 1;
        }
        assert(old(self).environment_leases@.subrange(0, i as int) =~= old(self).environment_leases@);
        ids
    }

    fn workspace_diffs(&self, task: &str) -> (ids: Vec<String>)
        ensures
            texts(ids@) == diff_ids(self.artifacts@, task@),
    {
        let mut ids: Vec<String> = Vec::new();
        let mut i: usize = 0;
        while i < self.artifacts.len()
            invariant
                i <= self.artifacts@.len(),
                texts(ids@) == diff_ids(self.artifacts@.subrange(0, i as int), task@),
            decreases self.artifacts@.len() - i,
        {
            proof {
                let pre = self.artifacts@.subrange(0, i + 1);
                assert(pre.drop_last() =~= self.artifacts@.subrange(0, i as int));
                assert(pre.last() == self.artifacts@[i as int]);
            }
            if str_eq(self.artifacts[i].task_id.as_str(), task) && self.artifacts[i].artifact_type == ArtifactType::Patch {
                let ghost before_ids = ids@;
                ids.push(self.artifacts[i].artifact_id.clone());
                proof {
                    lemma_texts_push(before_ids, ids@.last());
                    assert(ids@ =~= before_ids.push(ids@.last()));
                }
            }
            i = i + 1;
        }
        assert(self.artifacts@.subrange(0, i as int) =~= self.artifacts@);
        ids
    }

    /// Reconciles thread `thread_id` after a restart, at `now` (the
    /// instant `now_unix_nanos`), recording report `reconciliation_id`:
    /// the running calls of the thread's task are cancelled, the thread's
    /// granted resource leases and active attachments whose expiry passed
    /// are expired, and the report lists them, in store order, with the
    /// task's patch artifacts. An unknown thread is `NotFound`.
    pub fn reconcile_thread_recovery(&mut self, thread_id: &str, reconciliation_id: String, now: String, now_unix_nanos: i128) -> (r: Result<
        ReconciliationReport,
        AgentOsError,
    >)
        requires
            old(self).wf(),
        ensures
            final(self).wf(),
            !has_thread(old(self).threads@, thread_id@) ==> r == Err::<ReconciliationReport, AgentOsError>(
                AgentOsError::NotFound("thread"),
            ) && *final(self) == *old(self),
            has_thread(old(self).threads@, thread_id@) ==> {
                let t = old(self).threads@[thread_pos(old(self).threads@, thread_id@)];
                let task = t.task_id@;
                let o = *old(self);
                let f = *final(self);
                let rep = f.reconciliation_reports@.last();
                &&& f.tool_invocations@.len() == o.tool_invocations@.len()
                &&& forall|i: int| 0 <= i < o.tool_invocations@.len() ==> #[trigger] f.tool_invocations@[i] == if is_orphan(
                    o.tool_invocations@[i],
                    task,
                ) {
                    cancelled(o.tool_invocations@[i], now)
                } else {
                    o.tool_invocations@[i]
                }
                &&& f.resource_leases@.len() == o.resource_leases@.len()
                &&& forall|i: int| 0 <= i < o.resource_leases@.len() ==> #[trigger] f.resource_leases@[i] == if resource_reclaimable(
                    o.resource_leases@[i],
                    thread_id@,
                    now_unix_nanos,
                ) {
                    ResourceLease { status: ResourceLeaseStatus::Expired, released_at: Some(now), ..o.resource_leases@[i] }
                } else {
                    o.resource_leases@[i]
                }
                &&& f.environment_leases@.len() == o.environment_leases@.len()
                &&& forall|i: int| 0 <= i < o.environment_leases@.len() ==> #[trigger] f.environment_leases@[i] == if environment_reclaimable(
                    o.environment_leases@[i],
                    thread_id@,
                    now_unix_nanos,
                ) {
                    EnvironmentLease { status: EnvironmentLeaseStatus::Expired, released_at: Some(now), ..o.environment_leases@[i] }
                } else {
                    o.environment_leases@[i]
                }
                &&& rep.reconciliation_id == reconciliation_id
                &&& rep.thread_id@ == thread_id@
                &&& rep.agent_id == t.agent_id
                &&& rep.task_id == t.task_id
                &&& texts(rep.orphan_tool_call_ids@) == orphan_ids(o.tool_invocations@, task)
                &&& texts(rep.workspace_diff_refs@) == diff_ids(o.artifacts@, task)
                &&& texts(rep.reclaimed_resource_lease_ids@) == reclaimable_resource_ids(o.resource_leases@, thread_id@, now_unix_nanos)
                &&& texts(rep.reclaimed_environment_lease_ids@) == reclaimable_environment_ids(
                    o.environment_leases@,
                    thread_id@,
                    now_unix_nanos,
                )
                &&& rep.created_at == now
                &&& f.reconciliation_reports@ == o.reconciliation_reports@.push(rep)
                &&& r matches Ok(v) && same_report(rep, v)
                &&& f == (KernelState {
                    tool_invocations: f.tool_invocations,
                    resource_leases: f.resource_leases,
                    environment_leases: f.environment_leases,
                    reconciliation_reports: f.reconciliation_reports,
                    ..o
                })
            },
    {
        let k = match self.find_thread(thread_id) {
            None => return Err(AgentOsError::NotFound("thread")),
            Some(k) => k,
        };
        let agent_id = self.threads[k].agent_id.clone();
        let task_id = self.threads[k].task_id.clone();
        let diffs = self.workspace_diffs(task_id.as_str());
        let orphans = self.cancel_orphan_calls(task_id.as_str(), &now);
        let leases = self.reclaim_resource_leases(thread_id, &now, now_unix_nanos);
        let attachments = self.reclaim_environment_leases(thread_id, &now, now_unix_nanos);
        let report = ReconciliationReport {
            reconciliation_id,
            thread_id: String::from_str(thread_id),
            agent_id,
            task_id,
            orphan_tool_call_ids: orphans,
            workspace_diff_refs: diffs,
            reclaimed_resource_lease_ids: leases,
            reclaimed_environment_lease_ids: attachments,
            created_at: now,
        };
        let out = report.duplicate();
        self.reconciliation_reports.push(report);
        Ok(out)
    }
}

} // verus!
