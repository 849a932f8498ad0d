//! Context snapshots an agent loads, their invalidation and compaction,
//! and durable memory, which is proposed with evidence as provenance and
//! becomes authoritative only when committed.
use vstd::prelude::*;
use crate::error::AgentOsError;
use crate::json::{JsonNumber, JsonValue, json_same, compare_numbers, number_order};
use crate::state::{KernelState, has_agent, has_thread, thread_pos, has_artifact, artifact_pos, has_evidence, evidence_pos,
    EvidenceStatus};
use crate::agents::agent_thread_index;
use crate::text::{str_eq, copy_strings};

use crate::events::{KernelEvent, Logged, appended};
verus! {

/// Whether a loaded context still reflects its sources.
#[derive(Debug, Clone, Copy, PartialEq, Eq, Structural)]
pub enum ContextFreshness {
    Fresh,
    Stale,
}

/// What an agent loads into its context for a task. The pollution score
/// is an exact decimal.
#[derive(Debug)]
pub struct LoadContextInput {
    pub agent_id: String,
    pub task_id: String,
    pub loaded_refs: Vec<String>,
    pub summary_artifact_id: Option<String>,
    pub freshness: ContextFreshness,
    pub pollution_score: JsonNumber,
    pub token_estimate: u64,
}

/// A loaded context.
#[derive(Debug)]
pub struct ContextSnapshot {
    pub context_id: String,
    pub agent_id: String,
    pub task_id: String,
    pub loaded_refs: Vec<String>,
    pub summary_artifact_id: Option<String>,
    pub freshness: ContextFreshness,
    pub pollution_score: JsonNumber,
    pub token_estimate: u64,
    pub created_at: String,
    pub invalidated_at: Option<String>,
}

/// Where a memory record is in its life.
#[derive(Debug, Clone, Copy, PartialEq, Eq, Structural)]
pub enum MemoryStatus {
    Proposed,
    Active,
    Superseded,
    Invalidated,
}

/// A proposed memory write.
#[derive(Debug)]
pub struct ProposeMemoryWriteInput {
    pub namespace: String,
    pub content: JsonValue,
    pub created_by_agent_id: String,
    pub source_evidence_ids: Vec<String>,
}

/// The approval of a proposed memory write.
#[derive(Debug)]
pub struct CommitMemoryWriteInput {
    pub memory_id: String,
    pub approved_by: String,
}

/// A durable memory record.
#[derive(Debug)]
pub struct MemoryRecord {
    pub memory_id: String,
    pub namespace: String,
    pub status: MemoryStatus,
    pub content: JsonValue,
    pub source_evidence_ids: Vec<String>,
    pub created_by_agent_id: Option<String>,
    pub approved_by: Option<String>,
    pub created_at: String,
    pub activated_at: Option<String>,
    pub superseded_by: Option<String>,
}

/// A compaction of a thread's context window.
#[derive(Debug)]
pub struct CompactContextInput {
    pub thread_id: String,
    pub agent_id: String,
    pub task_id: String,
    pub summary_artifact_id: Option<String>,
    pub superseded_refs: Vec<String>,
    pub token_estimate: u64,
}

/// A recorded compaction: the summary that replaced the superseded
/// context entries.
#[derive(Debug)]
pub struct ContextCompaction {
    pub compaction_id: String,
    pub thread_id: String,
    pub agent_id: String,
    pub task_id: String,
    pub summary_artifact_id: Option<String>,
    pub superseded_refs: Vec<String>,
    pub token_estimate: u64,
    pub created_at: String,
}

pub open spec fn has_context(cs: Seq<ContextSnapshot>, id: Seq<char>) -> bool {
    exists|i: int| 0 <= i < cs.len() && cs[i].context_id@ == id
}

pub open spec fn context_pos(cs: Seq<ContextSnapshot>, id: Seq<char>) -> int {
    choose|i: int| 0 <= i < cs.len() && cs[i].context_id@ == id
}

pub open spec fn context_ids_unique(cs: Seq<ContextSnapshot>) -> bool {
    forall|i: int, j: int| 0 <= i < cs.len() && 0 <= j < cs.len() && #[trigger] cs[i].context_id@ == #[trigger] cs[j].context_id@ ==> i == j
}

pub open spec fn has_memory(ms: Seq<MemoryRecord>, id: Seq<char>) -> bool {
    exists|i: int| 0 <= i < ms.len() && ms[i].memory_id@ == id
}

pub open spec fn memory_pos(ms: Seq<MemoryRecord>, id: Seq<char>) -> int {
    choose|i: int| 0 <= i < ms.len() && ms[i].memory_id@ == id
}

pub open spec fn memory_ids_unique(ms: Seq<MemoryRecord>) -> bool {
    forall|i: int, j: int| 0 <= i < ms.len() && 0 <= j < ms.len() && #[trigger] ms[i].memory_id@ == #[trigger] ms[j].memory_id@ ==> i == j
}

/// Every memory record names at least one piece of source evidence.
pub open spec fn memory_has_provenance(ms: Seq<MemoryRecord>) -> bool {
    forall|i: int| 0 <= i < ms.len() ==> (#[trigger] ms[i]).source_evidence_ids@.len() > 0
}

pub open spec fn has_compaction(cs: Seq<ContextCompaction>, id: Seq<char>) -> bool {
    exists|i: int| 0 <= i < cs.len() && cs[i].compaction_id@ == id
}

pub open spec fn compaction_ids_unique(cs: Seq<ContextCompaction>) -> bool {
    forall|i: int, j: int| 0 <= i < cs.len() && 0 <= j < cs.len() && #[trigger] cs[i].compaction_id@ == #[trigger] cs[j].compaction_id@ ==> i == j
}

/// The decimal zero.
pub open spec fn zero() -> JsonNumber {
    JsonNumber { mantissa: 0, scale: 0 }
}

/// The decimal one.
pub open spec fn one() -> JsonNumber {
    JsonNumber { mantissa: 1, scale: 0 }
}

/// Why summary artifact `summary` cannot serve task `task`: it is
/// unknown, or belongs to another task.
pub open spec fn summary_error(s: KernelState, summary: Option<String>, task: Seq<char>, foreign: &'static str) -> Option<AgentOsError> {
    match summary {
        Some(a) => if !has_artifact(s.artifacts@, a@) {
            Some(AgentOsError::NotFound("artifact"))
        } else if s.artifacts@[artifact_pos(s.artifacts@, a@)].task_id@ != task {
            Some(AgentOsError::Validation(foreign))
        } else {
            None
        },
        None => None,
    }
}

/// Why a context load is refused: nothing to load, a pollution score
/// outside 0 to 1, an unknown agent, a task other than the agent's own,
/// or an unusable summary artifact.
pub open spec fn load_error(s: KernelState, input: LoadContextInput) -> Option<AgentOsError> {
    if input.loaded_refs@.len() == 0 && input.summary_artifact_id is None {
        Some(AgentOsError::Validation("context load requires at least one loaded ref or summary artifact"))
    } else if number_order(input.pollution_score, zero()) < 0 || number_order(input.pollution_score, one()) > 0 {
        Some(AgentOsError::Validation("context pollution score must be between 0.0 and 1.0"))
    } else if !has_agent(s.threads@, input.agent_id@) {
        Some(AgentOsError::NotFound("agent"))
    } else if s.threads@[agent_thread_index(s.threads@, input.agent_id@)].task_id@ != input.task_id@ {
        Some(AgentOsError::PermissionDenied("context load task must match agent thread task"))
    } else {
        summary_error(s, input.summary_artifact_id, input.task_id@, "context summary artifact must belong to task")
    }
}

/// Why evidence `ids` cannot serve as provenance: the first that is
/// unknown, or not active.
pub open spec fn provenance_error(s: KernelState, ids: Seq<String>) -> Option<AgentOsError>
    decreases ids.len(),
{
    if ids.len() == 0 {
        None
    } else if !has_evidence(s.evidence@, ids[0]@) {
        Some(AgentOsError::NotFound("evidence"))
    } else if s.evidence@[evidence_pos(s.evidence@, ids[0]@)].status != EvidenceStatus::Active {
        Some(AgentOsError::Validation("memory provenance evidence is not active"))
    } else {
        provenance_error(s, ids.subrange(1, ids.len() as int))
    }
}

/// Why a memory write is refused: no namespace, no provenance, or
/// provenance that is unknown or not active.
pub open spec fn propose_error(s: KernelState, input: ProposeMemoryWriteInput) -> Option<AgentOsError> {
    if input.namespace@.len() == 0 {
        Some(AgentOsError::Validation("memory write requires a namespace"))
    } else if input.source_evidence_ids@.len() == 0 {
        Some(AgentOsError::Validation("memory write requires source evidence provenance"))
    } else {
        provenance_error(s, input.source_evidence_ids@)
    }
}

/// Why memory `id` cannot be committed: it is unknown, or not proposed.
pub open spec fn commit_error(s: KernelState, id: Seq<char>) -> Option<AgentOsError> {
    if !has_memory(s.memory_records@, id) {
        Some(AgentOsError::NotFound("memory"))
    } else if s.memory_records@[memory_pos(s.memory_records@, id)].status != MemoryStatus::Proposed {
        Some(AgentOsError::InvalidTransition("memory is not Proposed"))
    } else {
        None
    }
}

/// Why a compaction is refused: an unknown thread, a task other than the
/// thread's, or an unusable summary artifact.
pub open spec fn compact_error(s: KernelState, input: CompactContextInput) -> Option<AgentOsError> {
    if !has_thread(s.threads@, input.thread_id@) {
        Some(AgentOsError::NotFound("thread"))
    } else if s.threads@[thread_pos(s.threads@, input.thread_id@)].task_id@ != input.task_id@ {
        Some(AgentOsError::PermissionDenied("context compaction task must match thread task"))
    } else {
        summary_error(s, input.summary_artifact_id, input.task_id@, "compaction summary artifact must belong to task")
    }
}

/// Two memory records that agree field by field.
pub open spec fn same_memory(a: MemoryRecord, b: MemoryRecord) -> bool {
    &&& a == MemoryRecord { content: a.content, source_evidence_ids: a.source_evidence_ids, ..b }
    &&& json_same(a.content, b.content)
    &&& a.source_evidence_ids@ == b.source_evidence_ids@
}

/// Two context snapshots that agree field by field.
pub open spec fn same_context(a: ContextSnapshot, b: ContextSnapshot) -> bool {
    &&& a == ContextSnapshot { loaded_refs: a.loaded_refs, ..b }
    &&& a.loaded_refs@ == b.loaded_refs@
}

/// Two compactions that agree field by field.
pub open spec fn same_compaction(a: ContextCompaction, b: ContextCompaction) -> bool {
    &&& a == ContextCompaction { superseded_refs: a.superseded_refs, ..b }
    &&& a.superseded_refs@ == b.superseded_refs@
}

fn copy_opt(o: &Option<String>) -> (r: Option<String>)
    ensures
        r == *o,
{
    match o {
        Some(s) => Some(s.clone()),
        None => None,
    }
}

impl ContextSnapshot {
    /// A copy of this snapshot.
    pub fn duplicate(&self) -> (r: ContextSnapshot)
        ensures
            same_context(*self, r),
    {
        ContextSnapshot {
            context_id: self.context_id.clone(),
            agent_id: self.agent_id.clone(),
            task_id: self.task_id.clone(),
            loaded_refs: copy_strings(&self.loaded_refs),
            summary_artifact_id: copy_opt(&self.summary_artifact_id),
            freshness: self.freshness,
            pollution_score: self.pollution_score,
            token_estimate: self.token_estimate,
            created_at: self.created_at.clone(),
            invalidated_at: copy_opt(&self.invalidated_at),
        }
    }
}

impl MemoryRecord {
    /// A copy of this record.
    pub fn duplicate(&self) -> (r: MemoryRecord)
        ensures
            same_memory(*self, r),
    {
        MemoryRecord {
            memory_id: self.memory_id.clone(),
            namespace: self.namespace.clone(),
            status: self.status,
            content: self.content.duplicate(),
            source_evidence_ids: copy_strings(&self.source_evidence_ids),
            created_by_agent_id: copy_opt(&self.created_by_agent_id),
            approved_by: copy_opt(&self.approved_by),
            created_at: self.created_at.clone(),
            activated_at: copy_opt(&self.activated_at),
            superseded_by: copy_opt(&self.superseded_by),
        }
    }
}

impl ContextCompaction {
    /// A copy of this compaction.
    pub fn duplicate(&self) -> (r: ContextCompaction)
        ensures
            same_compaction(*self, r),
    {
        ContextCompaction {
            compaction_id: self.compaction_id.clone(),
            thread_id: self.thread_id.clone(),
            agent_id: self.agent_id.clone(),
            task_id: self.task_id.clone(),
            summary_artifact_id: copy_opt(&self.summary_artifact_id),
            superseded_refs: copy_strings(&self.superseded_refs),
            token_estimate: self.token_estimate,
            created_at: self.created_at.clone(),
        }
    }
}

impl KernelState {
    fn check_summary(&self, summary: &Option<String>, task_id: &str, foreign: &'static str) -> (r: Result<(), AgentOsError>)
        requires
            self.wf(),
        ensures
            match summary_error(*self, *summary, task_id@, foreign) {
                Some(e) => r == Err::<(), AgentOsError>(e),
                None => r is Ok,
            },
    {
        if let Some(artifact_id) = summary {
            let a = match self.find_artifact(artifact_id.as_str()) {
                None => return Err(AgentOsError::NotFound("artifact")),
                Some(a) => a,
            };
            if !str_eq(self.artifacts[a].task_id.as_str(), task_id) {
                return Err(AgentOsError::Validation(foreign));
            }
        }
        Ok(())
    }

    /// Loads a context for agent `input.agent_id` on its task under id
    /// `context_id` at `now`, as `load_error` allows.
    pub fn load_context(&mut self, input: LoadContextInput, context_id: String, now: String) -> (r: Result<
        ContextSnapshot,
        AgentOsError,
    >)
        requires
            old(self).wf(),
            !has_context(old(self).context_snapshots@, context_id@),
        ensures
            load_context_post(*old(self), *final(self), input, context_id, now, r),
    {
        if input.loaded_refs.len() == 0 && input.summary_artifact_id.is_none() {
            return Err(AgentOsError::Validation("context load requires at least one loaded ref or summary artifact"));
        }
        if compare_numbers(input.pollution_score, JsonNumber { mantissa: 0, scale: 0 }) < 0 || compare_numbers(
            input.pollution_score,
            JsonNumber { mantissa: 1, scale: 0 },
        ) > 0 {
            return Err(AgentOsError::Validation("context pollution score must be between 0.0 and 1.0"));
        }
        let k = match self.find_first_agent_thread(input.agent_id.as_str()) {
            None => return Err(AgentOsError::NotFound("agent")),
            Some(k) => k,
        };
        if !str_eq(self.threads[k].task_id.as_str(), input.task_id.as_str()) {
            return Err(AgentOsError::PermissionDenied("context load task must match agent thread task"));
        }
        match self.check_summary(&input.summary_artifact_id, input.task_id.as_str(), "context summary artifact must belong to task") {
            Err(e) => return Err(e),
            Ok(()) => {},
        }
        let snapshot = ContextSnapshot {
            context_id,
            agent_id: input.agent_id,
            task_id: input.task_id,
            loaded_refs: input.loaded_refs,
            summary_artifact_id: input.summary_artifact_id,
            freshness: input.freshness,
            pollution_score: input.pollution_score,
            token_estimate: input.token_estimate,
            created_at: now,
            invalidated_at: None,
        };
        let out = snapshot.duplicate();
        let ghost before = self.context_snapshots@;
        let logged = snapshot.log_copy();
        let ghost pre = *self;
        let ghost gx = snapshot;
        self.context_snapshots.push(snapshot);
        proof {
            assert forall|a: int, b: int|
                0 <= a < self.context_snapshots@.len() && 0 <= b < self.context_snapshots@.len()
                    && #[trigger] self.context_snapshots@[a].context_id@ == #[trigger] self.context_snapshots@[b].context_id@
                implies a == b by {
                if a < before.len() {
                    assert(self.context_snapshots@[a] == before[a]);
                }
                if b < before.len() {
                    assert(self.context_snapshots@[b] == before[b]);
                }
            }
        }
        self.log_context(KernelEvent::ContextLoaded(logged), Ghost(pre), Ghost(gx));
        Ok(out)
    }

    fn check_memory_provenance(&self, ids: &Vec<String>) -> (r: Result<(), AgentOsError>)
        requires
            self.wf(),
        ensures
            match provenance_error(*self, ids@) {
                Some(e) => r == Err::<(), AgentOsError>(e),
                None => r is Ok,
            },
    {
        let mut i: usize = 0;
        assert(ids@.subrange(0, ids@.len() as int) =~= ids@);
        while i < ids.len()
            invariant
                self.wf(),
                i <= ids@.len(),
                provenance_error(*self, ids@) == provenance_error(*self, ids@.subrange(i as int, ids@.len() as int)),
            decreases ids@.len() - i,
        {
            proof {
                let rest = ids@.subrange(i as int, ids@.len() as int);
                assert(rest[0] == ids@[i as int]);
                assert(rest.subrange(1, rest.len() as int) =~= ids@.subrange(i + 1, ids@.len() as int));
            }
            let e = match self.find_evidence(ids[i].as_str()) {
                None => return Err(AgentOsError::NotFound("evidence")),
                Some(e) => e,
            };
            if self.evidence[e].status != EvidenceStatus::Active {
                return Err(AgentOsError::Validation("memory provenance evidence is not active"));
            }
            i = i + 1;
        }
        Ok(())
    }

    /// Proposes memory write `input` under id `memory_id` at `now`, as
    /// `propose_error` allows. The record is only `Proposed`: it is not
    /// authoritative until committed.
    pub fn propose_memory_write(&mut self, input: ProposeMemoryWriteInput, memory_id: String, now: String) -> (r: Result<
        MemoryRecord,
        AgentOsError,
    >)
        requires
            old(self).wf(),
            !has_memory(old(self).memory_records@, memory_id@),
        ensures
            propose_memory_write_post(*old(self), *final(self), input, memory_id, now, r),
    {
        if input.namespace.unicode_len() == 0 {
            return Err(AgentOsError::Validation("memory write requires a namespace"));
        }
        if input.source_evidence_ids.len() == 0 {
            return Err(AgentOsError::Validation("memory write requires source evidence provenance"));
        }
        match self.check_memory_provenance(&input.source_evidence_ids) {
            Err(e) => return Err(e),
            Ok(()) => {},
        }
        let record = MemoryRecord {
            memory_id,
            namespace: input.namespace,
            status: MemoryStatus::Proposed,
            content: input.content,
            source_evidence_ids: input.source_evidence_ids,
            created_by_agent_id: Some(input.created_by_agent_id),
            approved_by: None,
            created_at: now,
            activated_at: None,
            superseded_by: None,
        };
        proof {
            crate::json::lemma_json_same_refl(record.content);
        }
        let out = record.duplicate();
        let ghost before = self.memory_records@;
        self.memory_records.push(record);
        proof {
            assert forall|a: int, b: int|
                0 <= a < self.memory_records@.len() && 0 <= b < self.memory_records@.len()
                    && #[trigger] self.memory_records@[a].memory_id@ == #[trigger] self.memory_records@[b].memory_id@
                implies a == b by {
                if a < before.len() {
                    assert(self.memory_records@[a] == before[a]);
                }
                if b < before.len() {
                    assert(self.memory_records@[b] == before[b]);
                }
            }
            assert forall|a: int| 0 <= a < self.memory_records@.len() implies (#[trigger] self.memory_records@[a]).source_evidence_ids@.len() > 0 by {
                if a < before.len() {
                    assert(self.memory_records@[a] == before[a]);
                }
            }
        }
        Ok(out)
    }

    /// Commits proposed memory `input.memory_id` at `now`, approved by
    /// `input.approved_by`: it becomes `Active`. An unknown record is
    /// `NotFound`; one that is not `Proposed` is an `InvalidTransition`.
    pub fn commit_memory_write(&mut self, input: CommitMemoryWriteInput, now: String) -> (r: Result<MemoryRecord, AgentOsError>)
        requires
            old(self).wf(),
        ensures
            commit_memory_write_post(*old(self), *final(self), input, now, r),
    {
        let k = match self.find_memory(input.memory_id.as_str()) {
            None => return Err(AgentOsError::NotFound("memory")),
            Some(k) => k,
        };
        if self.memory_records[k].status != MemoryStatus::Proposed {
            return Err(AgentOsError::InvalidTransition("memory is not Proposed"));
        }
        let mut cur = self.memory_records.remove(k);
        cur.status = MemoryStatus::Active;
        cur.approved_by = Some(input.approved_by);
        cur.activated_at = Some(now);
        proof {
            crate::json::lemma_json_same_refl(cur.content);
        }
        let out = cur.duplicate();
        self.memory_records.insert(k, cur);
        proof {
            assert(self.memory_records@ =~= old(self).memory_records@.update(k as int, cur));
            assert forall|a: int, b: int|
                0 <= a < self.memory_records@.len() && 0 <= b < self.memory_records@.len()
                    && #[trigger] self.memory_records@[a].memory_id@ == #[trigger] self.memory_records@[b].memory_id@
                implies a == b by {
                assert(self.memory_records@[a].memory_id@ == old(self).memory_records@[a].memory_id@);
                assert(self.memory_records@[b].memory_id@ == old(self).memory_records@[b].memory_id@);
            }
            assert forall|a: int| 0 <= a < self.memory_records@.len() implies (#[trigger] self.memory_records@[a]).source_evidence_ids@.len() > 0 by {
                if a != k {
                    assert(self.memory_records@[a] == old(self).memory_records@[a]);
                }
            }
        }
        Ok(out)
    }

    /// Invalidates memory `memory_id`, whatever its status. An unknown
    /// record is `NotFound`.
    pub fn invalidate_memory(&mut self, memory_id: &str) -> (r: Result<MemoryRecord, AgentOsError>)
        requires
            old(self).wf(),
        ensures
            invalidate_memory_post(*old(self), *final(self), memory_id@, r),
    {
        let k = match self.find_memory(memory_id) {
            None => return Err(AgentOsError::NotFound("memory")),
            Some(k) => k,
        };
        let mut cur = self.memory_records.remove(k);
        cur.status = MemoryStatus::Invalidated;
        proof {
            crate::json::lemma_json_same_refl(cur.content);
        }
        let out = cur.duplicate();
        self.memory_records.insert(k, cur);
        proof {
            assert(self.memory_records@ =~= old(self).memory_records@.update(k as int, cur));
            assert forall|a: int, b: int|
                0 <= a < self.memory_records@.len() && 0 <= b < self.memory_records@.len()
                    && #[trigger] self.memory_records@[a].memory_id@ == #[trigger] self.memory_records@[b].memory_id@
                implies a == b by {
                assert(self.memory_records@[a].memory_id@ == old(self).memory_records@[a].memory_id@);
                assert(self.memory_records@[b].memory_id@ == old(self).memory_records@[b].memory_id@);
            }
            assert forall|a: int| 0 <= a < self.memory_records@.len() implies (#[trigger] self.memory_records@[a]).source_evidence_ids@.len() > 0 by {
                if a != k {
                    assert(self.memory_records@[a] == old(self).memory_records@[a]);
                }
            }
        }
        Ok(out)
    }

    /// The position of memory record `id`, if any.
    pub fn find_memory(&self, id: &str) -> (r: Option<usize>)
        requires
            memory_ids_unique(self.memory_records@),
        ensures
            r.is_none() <==> !has_memory(self.memory_records@, id@),
            r matches Some(i) ==> i == memory_pos(self.memory_records@, id@) && i < self.memory_records@.len(),
    {
        let mut i: usize = 0;
        while i < self.memory_records.len()
            invariant
                i <= self.memory_records@.len(),
                memory_ids_unique(self.memory_records@),
                forall|j: int| 0 <= j < i ==> self.memory_records@[j].memory_id@ != id@,
            decreases self.memory_records@.len() - i,
        {
            if str_eq(self.memory_records[i].memory_id.as_str(), id) {
                proof {
                    let k = memory_pos(self.memory_records@, id@);
                    assert(self.memory_records@[k].memory_id@ == self.memory_records@[i as int].memory_id@);
                }
                return Some(i);
            }
            i = i + 1;
        }
        None
    }

    /// The position of context snapshot `id`, if any.
    pub fn find_context(&self, id: &str) -> (r: Option<usize>)
        requires
            context_ids_unique(self.context_snapshots@),
        ensures
            r.is_none() <==> !has_context(self.context_snapshots@, id@),
            r matches Some(i) ==> i == context_pos(self.context_snapshots@, id@) && i < self.context_snapshots@.len(),
    {
        let mut i: usize = 0;
        while i < self.context_snapshots.len()
            invariant
                i <= self.context_snapshots@.len(),
                context_ids_unique(self.context_snapshots@),
                forall|j: int| 0 <= j < i ==> self.context_snapshots@[j].context_id@ != id@,
            decreases self.context_snapshots@.len() - i,
        {
            if str_eq(self.context_snapshots[i].context_id.as_str(), id) {
                proof {
                    let k = context_pos(self.context_snapshots@, id@);
                    assert(self.context_snapshots@[k].context_id@ == self.context_snapshots@[i as int].context_id@);
                }
                return Some(i);
            }
            i = i + 1;
        }
        None
    }

    /// Marks context snapshot `context_id` stale at `now`: stale context is
    /// marked, not silently reused. An unknown snapshot is `NotFound`.
    pub fn invalidate_context(&mut self, context_id: &str, now: String) -> (r: Result<ContextSnapshot, AgentOsError>)
        requires
            old(self).wf(),
        ensures
            invalidate_context_post(*old(self), *final(self), context_id@, now, r),
    {
        let k = match self.find_context(context_id) {
            None => return Err(AgentOsError::NotFound("context")),
            Some(k) => k,
        };
        let ghost pre = *self;
        let mut cur = self.context_snapshots.remove(k);
        cur.freshness = ContextFreshness::Stale;
        cur.invalidated_at = Some(now);
        let out = cur.duplicate();
        let logged = cur.log_copy();
        let ghost gx = cur;
        self.context_snapshots.insert(k, cur);
        proof {
            assert(self.context_snapshots@ =~= old(self).context_snapshots@.update(k as int, cur));
            assert forall|a: int, b: int|
                0 <= a < self.context_snapshots@.len() && 0 <= b < self.context_snapshots@.len()
                    && #[trigger] self.context_snapshots@[a].context_id@ == #[trigger] self.context_snapshots@[b].context_id@
                implies a == b by {
                assert(self.context_snapshots@[a].context_id@ == old(self).context_snapshots@[a].context_id@);
                assert(self.context_snapshots@[b].context_id@ == old(self).context_snapshots@[b].context_id@);
            }
        }
        assert(pre.context_snapshots@[k as int].context_id@ == gx.context_id@);
        self.log_context(KernelEvent::ContextInvalidated(logged), Ghost(pre), Ghost(gx));
        Ok(out)
    }

    /// Records compaction `input` of a thread's context window under id
    /// `compaction_id` at `now`, linking the summary to the entries it
    /// supersedes, as `compact_error` allows.
    pub fn compact_context(&mut self, input: CompactContextInput, compaction_id: String, now: String) -> (r: Result<
        ContextCompaction,
        AgentOsError,
    >)
        requires
            old(self).wf(),
            !has_compaction(old(self).context_compactions@, compaction_id@),
        ensures
            compact_context_post(*old(self), *final(self), input, compaction_id, now, r),
    {
        let k = match self.find_thread(input.thread_id.as_str()) {
            None => return Err(AgentOsError::NotFound("thread")),
            Some(k) => k,
        };
        if !str_eq(self.threads[k].task_id.as_str(), input.task_id.as_str()) {
            return Err(AgentOsError::PermissionDenied("context compaction task must match thread task"));
        }
        match self.check_summary(&input.summary_artifact_id, input.task_id.as_str(), "compaction summary artifact must belong to task") {
            Err(e) => return Err(e),
            Ok(()) => {},
        }
        let compaction = ContextCompaction {
            compaction_id,
            thread_id: input.thread_id,
            agent_id: input.agent_id,
            task_id: input.task_id,
            summary_artifact_id: input.summary_artifact_id,
            superseded_refs: input.superseded_refs,
            token_estimate: input.token_estimate,
            created_at: now,
        };
        let out = compaction.duplicate();
        let ghost before = self.context_compactions@;
        let logged = compaction.log_copy();
        let ghost pre = *self;
        let ghost gx = compaction;
        self.context_compactions.push(compaction);
        proof {
            assert forall|a: int, b: int|
                0 <= a < self.context_compactions@.len() && 0 <= b < self.context_compactions@.len()
                    && #[trigger] self.context_compactions@[a].compaction_id@ == #[trigger] self.context_compactions@[b].compaction_id@
                implies a == b by {
                if a < before.len() {
                    assert(self.context_compactions@[a] == before[a]);
                }
                if b < before.len() {
                    assert(self.context_compactions@[b] == before[b]);
                }
            }
        }
        self.log_compaction(KernelEvent::ContextCompacted(logged), Ghost(pre), Ghost(gx));
        Ok(out)
    }
}

/// Memory is authoritative only once committed, and committed once: after
/// a commit, committing the same record again is refused as an
/// `InvalidTransition`.
pub proof fn law_memory_commits_once(before: KernelState, after: KernelState, id: Seq<char>, m: MemoryRecord)
    requires
        after.wf(),
        commit_error(before, id) is None,
        m.memory_id@ == id,
        m.status == MemoryStatus::Active,
        after.memory_records@ == before.memory_records@.update(memory_pos(before.memory_records@, id), m),
    ensures
        commit_error(after, id) == Some(AgentOsError::InvalidTransition("memory is not Proposed")),
{
    let k = memory_pos(before.memory_records@, id);
    assert(after.memory_records@[k] == m);
    assert(has_memory(after.memory_records@, id));
    let p = memory_pos(after.memory_records@, id);
    assert(after.memory_records@[p].memory_id@ == after.memory_records@[k].memory_id@);
}

/// What `load_context` ensures, as a relation between the state before and after the call, its arguments and its result.
pub open spec fn load_context_post(pre: KernelState, post: KernelState, input: LoadContextInput, context_id: String, now: String, r: Result<
        ContextSnapshot,
        AgentOsError,
    >) -> bool {
    &&& (post.wf())
    &&& (match load_error(pre, input) {
                Some(e) => r == Err::<ContextSnapshot, AgentOsError>(e) && post == pre,
                None => r matches Ok(v) && {
                    let c = post.context_snapshots@.last();
                    &&& c == (ContextSnapshot {
                        context_id,
                        agent_id: input.agent_id,
                        task_id: input.task_id,
                        loaded_refs: c.loaded_refs,
                        summary_artifact_id: input.summary_artifact_id,
                        freshness: input.freshness,
                        pollution_score: input.pollution_score,
                        token_estimate: input.token_estimate,
                        created_at: now,
                        invalidated_at: None,
                    })
                    &&& c.loaded_refs@ == input.loaded_refs@
                    &&& same_context(c, v)
                    &&& post.context_snapshots@ == pre.context_snapshots@.push(c)
                    &&& appended(pre, post, post.events@.last())
                    &&& post.events@.last() matches KernelEvent::ContextLoaded(x0) && c.copies(&x0)
                    &&& post == (KernelState { context_snapshots: post.context_snapshots, events: post.events, ..pre })
                },
            })
}

/// What `invalidate_context` ensures, as a relation between the state before and after the call, its arguments and its result.
pub open spec fn invalidate_context_post(pre: KernelState, post: KernelState, context_id: Seq<char>, now: String, r: Result<ContextSnapshot, AgentOsError>) -> bool {
    &&& (post.wf())
    &&& (!has_context(pre.context_snapshots@, context_id) ==> r == Err::<ContextSnapshot, AgentOsError>(
                AgentOsError::NotFound("context"),
            ) && post == pre)
    &&& (has_context(pre.context_snapshots@, context_id) ==> {
                let k = context_pos(pre.context_snapshots@, context_id);
                let c = ContextSnapshot {
                    freshness: ContextFreshness::Stale,
                    invalidated_at: Some(now),
                    ..pre.context_snapshots@[k]
                };
                &&& r matches Ok(v) && same_context(c, v)
                &&& post.context_snapshots@ == pre.context_snapshots@.update(k, c)
                &&& appended(pre, post, post.events@.last())
                &&& post.events@.last() matches KernelEvent::ContextInvalidated(x0) && c.copies(&x0)
                &&& post == (KernelState { context_snapshots: post.context_snapshots, events: post.events, ..pre })
            })
}

/// What `compact_context` ensures, as a relation between the state before and after the call, its arguments and its result.
pub open spec fn compact_context_post(pre: KernelState, post: KernelState, input: CompactContextInput, compaction_id: String, now: String, r: Result<
        ContextCompaction,
        AgentOsError,
    >) -> bool {
    &&& (post.wf())
    &&& (match compact_error(pre, input) {
                Some(e) => r == Err::<ContextCompaction, AgentOsError>(e) && post == pre,
                None => r matches Ok(v) && {
                    let c = post.context_compactions@.last();
                    &&& c == (ContextCompaction {
                        compaction_id,
                        thread_id: input.thread_id,
                        agent_id: input.agent_id,
                        task_id: input.task_id,
                        summary_artifact_id: input.summary_artifact_id,
                        superseded_refs: c.superseded_refs,
                        token_estimate: input.token_estimate,
                        created_at: now,
                    })
                    &&& c.superseded_refs@ == input.superseded_refs@
                    &&& same_compaction(c, v)
                    &&& post.context_compactions@ == pre.context_compactions@.push(c)
                    &&& appended(pre, post, post.events@.last())
                    &&& post.events@.last() matches KernelEvent::ContextCompacted(x0) && c.copies(&x0)
                    &&& post == (KernelState { context_compactions: post.context_compactions, events: post.events, ..pre })
                },
            })
}

/// What `propose_memory_write` ensures, as a relation between the state before and after the call, its arguments and its result.
pub open spec fn propose_memory_write_post(pre: KernelState, post: KernelState, input: ProposeMemoryWriteInput, memory_id: String, now: String, r: Result<
        MemoryRecord,
        AgentOsError,
    >) -> bool {
    &&& (post.wf())
    &&& (match propose_error(pre, input) {
                Some(e) => r == Err::<MemoryRecord, AgentOsError>(e) && post == pre,
                None => r matches Ok(v) && {
                    let m = post.memory_records@.last();
                    &&& m == (MemoryRecord {
                        memory_id,
                        namespace: input.namespace,
                        status: MemoryStatus::Proposed,
                        content: m.content,
                        source_evidence_ids: m.source_evidence_ids,
                        created_by_agent_id: Some(input.created_by_agent_id),
                        approved_by: None,
                        created_at: now,
                        activated_at: None,
                        superseded_by: None,
                    })
                    &&& json_same(input.content, m.content)
                    &&& m.source_evidence_ids@ == input.source_evidence_ids@
                    &&& same_memory(m, v)
                    &&& post.memory_records@ == pre.memory_records@.push(m)
                    &&& post == (KernelState { memory_records: post.memory_records, ..pre })
                },
            })
}

/// What `commit_memory_write` ensures, as a relation between the state before and after the call, its arguments and its result.
pub open spec fn commit_memory_write_post(pre: KernelState, post: KernelState, input: CommitMemoryWriteInput, now: String, r: Result<MemoryRecord, AgentOsError>) -> bool {
    &&& (post.wf())
    &&& (match commit_error(pre, input.memory_id@) {
                Some(e) => r == Err::<MemoryRecord, AgentOsError>(e) && post == pre,
                None => {
                    let k = memory_pos(pre.memory_records@, input.memory_id@);
                    let m = MemoryRecord {
                        status: MemoryStatus::Active,
                        approved_by: Some(input.approved_by),
                        activated_at: Some(now),
                        ..pre.memory_records@[k]
                    };
                    &&& r matches Ok(v) && same_memory(m, v)
                    &&& post.memory_records@ == pre.memory_records@.update(k, m)
                    &&& post == (KernelState { memory_records: post.memory_records, ..pre })
                },
            })
}

/// What `invalidate_memory` ensures, as a relation between the state before and after the call, its arguments and its result.
pub open spec fn invalidate_memory_post(pre: KernelState, post: KernelState, memory_id: Seq<char>, r: Result<MemoryRecord, AgentOsError>) -> bool {
    &&& (post.wf())
    &&& (!has_memory(pre.memory_records@, memory_id) ==> r == Err::<MemoryRecord, AgentOsError>(
                AgentOsError::NotFound("memory"),
            ) && post == pre)
    &&& (has_memory(pre.memory_records@, memory_id) ==> {
                let k = memory_pos(pre.memory_records@, memory_id);
                let m = MemoryRecord { status: MemoryStatus::Invalidated, ..pre.memory_records@[k] };
                &&& r matches Ok(v) && same_memory(m, v)
                &&& post.memory_records@ == pre.memory_records@.update(k, m)
                &&& post == (KernelState { memory_records: post.memory_records, ..pre })
            })
}

} // verus!
