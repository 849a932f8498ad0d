//! Work products: evidence, committed artifacts and final submissions.
//!
//! A patch needs diff evidence and a writable workspace; a final answer
//! needs an evidence map whose every claim cites active evidence.
use vstd::prelude::*;
use crate::text::{str_eq, copy_strings};
use crate::error::AgentOsError;
use crate::json::{JsonValue, JsonNumber, member_pos, json_same, find_member};
use crate::lifecycle::copy_opt_string;
use crate::agents::{FilesystemMode, ProfileStatus, SandboxProfile, agent_thread_index, has_sandbox, sandbox_pos,
    sandbox_ids_unique};
use crate::review::{expiry_passed, opt_json_same};
use crate::state::{KernelState, ArtifactRecord, ArtifactStatus, ArtifactType, EvidenceRecord, EvidenceStatus,
    EvidenceType, EnvironmentLease, EnvironmentLeaseStatus, AttachMode, has_goal, has_task, has_artifact,
    has_evidence, evidence_pos, has_agent, has_environment, environment_pos};

use crate::events::{KernelEvent, Logged, Projected, appended, first_with_key, lemma_with_record_first, lemma_with_record_new, with_record, lemma_first_exists};
verus! {

/// Bytes already written to a blob store: where, their hash and length.
#[derive(Debug)]
pub struct StoredBlob {
    pub blob_ref: String,
    pub content_hash: String,
    pub byte_len: u64,
}

/// Evidence to attach.
#[derive(Debug)]
pub struct AttachEvidenceInput {
    pub goal_id: String,
    pub task_id: Option<String>,
    pub artifact_id: Option<String>,
    pub evidence_type: EvidenceType,
    pub producer_agent_id: Option<String>,
    pub claim: Option<String>,
    pub blob_ref: Option<String>,
    pub content_hash: Option<String>,
    pub stored_blob: Option<StoredBlob>,
    pub metadata: JsonValue,
}

/// An artifact to commit.
#[derive(Debug)]
pub struct CommitArtifactInput {
    pub goal_id: String,
    pub task_id: String,
    pub owner_agent_id: String,
    pub artifact_type: ArtifactType,
    pub blob_ref: Option<String>,
    pub content_hash: Option<String>,
    pub stored_blob: Option<StoredBlob>,
    pub metadata: JsonValue,
    pub evidence_ids: Vec<String>,
    pub supersedes: Option<String>,
}

/// One claim of a final answer and the evidence it rests on.
#[derive(Debug)]
pub struct EvidenceMapEntry {
    pub claim: String,
    pub evidence_refs: Vec<String>,
}

/// The final answer of a task.
#[derive(Debug)]
pub struct FinalSubmission {
    pub summary: String,
    pub changed_artifacts: Vec<String>,
    pub evidence_map: Vec<EvidenceMapEntry>,
    pub unverified_claims: Vec<String>,
    pub known_risks: Vec<String>,
    pub tests_run: Vec<String>,
    pub tests_not_run: Vec<String>,
    pub approvals: Vec<String>,
}

// ---------------------------------------------------------------------------
// Setting a member

/// `r` is the object `v` with member `key` set to `x`: an existing member
/// keeps its place, a new one comes last, and `null` counts as an empty
/// object.
pub open spec fn member_set(r: JsonValue, v: JsonValue, key: Seq<char>, x: JsonValue) -> bool {
    r matches JsonValue::Object(rs) && match v {
        JsonValue::Object(ms) => match member_pos(ms@, key) {
            Some(p) => {
                &&& rs@.len() == ms@.len()
                &&& rs@[p].0@ == key
                &&& rs@[p].1 == x
                &&& forall|i: int| 0 <= i < ms@.len() && i != p ==> rs@[i] == ms@[i]
            },
            None => {
                &&& rs@.len() == ms@.len() + 1
                &&& rs@.drop_last() == ms@
                &&& rs@.last().0@ == key
                &&& rs@.last().1 == x
            },
        },
        JsonValue::Null => rs@.len() == 1 && rs@[0].0@ == key && rs@[0].1 == x,
        _ => false,
    }
}

/// Sets member `key` of an object (or of `null`) to `x`.
pub fn with_member(v: JsonValue, key: &str, x: JsonValue) -> (r: JsonValue)
    requires
        v is Object || v is Null,
    ensures
        member_set(r, v, key@, x),
{
    match v {
        JsonValue::Object(mut ms) => {
            let ghost before = ms@;
            proof {
                crate::json::lemma_member_pos_bounds(ms@, key@);
            }
            match find_member(&ms, key) {
                Some(p) => {
                    let (k, _) = ms.remove(p);
                    ms.insert(p, (k, x));
                    assert forall|i: int| 0 <= i < before.len() && i != p implies ms@[i] == before[i] by {}
                },
                None => {
                    ms.push((String::from_str(key), x));
                    assert(ms@.drop_last() =~= before);
                },
            }
            JsonValue::Object(ms)
        },
        _ => {
            let mut ms: Vec<(String, JsonValue)> = Vec::new();
            ms.push((String::from_str(key), x));
            JsonValue::Object(ms)
        },
    }
}

/// A whole number as a JSON integer.
pub open spec fn json_count(n: u64) -> JsonValue {
    JsonValue::Number(JsonNumber { mantissa: n as i128, scale: 0 })
}

// ---------------------------------------------------------------------------
// Evidence

/// Why evidence cannot be attached: an unknown goal, task or artifact.
pub open spec fn evidence_error(state: KernelState, input: AttachEvidenceInput) -> Option<AgentOsError> {
    if !has_goal(state.goals@, input.goal_id@) {
        Some(AgentOsError::NotFound("goal"))
    } else if input.task_id is Some && !has_task(state.tasks@, input.task_id.unwrap()@) {
        Some(AgentOsError::NotFound("task"))
    } else if input.artifact_id is Some && !has_artifact(state.artifacts@, input.artifact_id.unwrap()@) {
        Some(AgentOsError::NotFound("artifact"))
    } else {
        None
    }
}

/// The blob reference and hash a record keeps: the stored blob's, or else
/// the ones given.
pub open spec fn blob_fields(stored: Option<StoredBlob>, blob_ref: Option<String>, content_hash: Option<String>) -> (
    Option<String>,
    Option<String>,
) {
    match stored {
        Some(b) => (Some(b.blob_ref), Some(b.content_hash)),
        None => (blob_ref, content_hash),
    }
}

/// Metadata with the stored blob's length noted as `blob_byte_len`.
pub open spec fn metadata_noted(r: JsonValue, metadata: JsonValue, stored: Option<StoredBlob>) -> bool {
    match stored {
        Some(b) => member_set(r, metadata, "blob_byte_len"@, json_count(b.byte_len)),
        None => r == metadata,
    }
}

/// Metadata that a blob length can be noted in.
pub open spec fn notable(metadata: JsonValue, stored: Option<StoredBlob>) -> bool {
    stored is Some ==> (metadata is Object || metadata is Null)
}

/// Two evidence records that agree field by field.
pub open spec fn same_evidence(a: EvidenceRecord, b: EvidenceRecord) -> bool {
    &&& a.evidence_id == b.evidence_id
    &&& a.goal_id == b.goal_id
    &&& a.task_id == b.task_id
    &&& a.artifact_id == b.artifact_id
    &&& a.evidence_type == b.evidence_type
    &&& a.producer_agent_id == b.producer_agent_id
    &&& a.claim == b.claim
    &&& a.blob_ref == b.blob_ref
    &&& a.content_hash == b.content_hash
    &&& json_same(a.metadata, b.metadata)
    &&& a.status == b.status
    &&& a.created_at == b.created_at
    &&& a.invalidated_by == b.invalidated_by
}

impl EvidenceRecord {
    /// A copy of this evidence record.
    pub fn duplicate(&self) -> (r: EvidenceRecord)
        ensures
            same_evidence(*self, r),
    {
        EvidenceRecord {
            evidence_id: self.evidence_id.clone(),
            goal_id: self.goal_id.clone(),
            task_id: copy_opt_string(&self.task_id),
            artifact_id: copy_opt_string(&self.artifact_id),
            evidence_type: self.evidence_type,
            producer_agent_id: copy_opt_string(&self.producer_agent_id),
            claim: copy_opt_string(&self.claim),
            blob_ref: copy_opt_string(&self.blob_ref),
            content_hash: copy_opt_string(&self.content_hash),
            metadata: self.metadata.duplicate(),
            status: self.status,
            created_at: self.created_at.clone(),
            invalidated_by: copy_opt_string(&self.invalidated_by),
        }
    }
}

// ---------------------------------------------------------------------------
// Artifacts

/// A sandbox that lets its thread write to the workspace.
pub open spec fn sandbox_writable(sb: SandboxProfile) -> bool {
    sb.status == ProfileStatus::Active && (sb.filesystem_mode == FilesystemMode::WorkspaceWrite || sb.filesystem_mode
        == FilesystemMode::IsolatedWorktree)
}

/// The sandbox `id` exists and is writable.
pub open spec fn sandbox_id_writable(state: KernelState, id: Seq<char>) -> bool {
    has_sandbox(state.sandbox_profiles@, id) && sandbox_writable(
        state.sandbox_profiles@[sandbox_pos(state.sandbox_profiles@, id)],
    )
}

/// The environment a lease attaches to exists and runs in a writable sandbox.
pub open spec fn lease_environment_writable(state: KernelState, lease: EnvironmentLease) -> bool {
    has_environment(state.environments@, lease.environment_id@) && sandbox_id_writable(
        state,
        state.environments@[environment_pos(state.environments@, lease.environment_id@)].sandbox_profile_id@,
    )
}

/// An active lease of the owner's thread on the task that may write.
pub open spec fn writing_lease(lease: EnvironmentLease, agent: Seq<char>, thread: Seq<char>, task: Seq<char>) -> bool {
    &&& lease.agent_id@ == agent
    &&& lease.thread_id@ == thread
    &&& lease.task_id@ == task
    &&& lease.status == EnvironmentLeaseStatus::Active
    &&& (lease.attach_mode == AttachMode::WorkspaceWrite || lease.attach_mode == AttachMode::Exclusive)
}

/// Scans leases in order for an unexpired writing lease on a writable
/// environment; a lease whose expiry is not RFC 3339 stops the scan.
pub open spec fn lease_scan(
    state: KernelState,
    leases: Seq<EnvironmentLease>,
    agent: Seq<char>,
    thread: Seq<char>,
    task: Seq<char>,
    now: i128,
) -> Result<bool, AgentOsError>
    decreases leases.len(),
{
    if leases.len() == 0 {
        Ok(false)
    } else {
        let l = leases[0];
        let rest = lease_scan(state, leases.drop_first(), agent, thread, task, now);
        if !writing_lease(l, agent, thread, task) {
            rest
        } else {
            match expiry_passed(l.expires_at, now) {
                Err(e) => Err(e),
                Ok(true) => rest,
                Ok(false) => if lease_environment_writable(state, l) {
                    Ok(true)
                } else {
                    rest
                },
            }
        }
    }
}

/// Why the owner of a patch may not change the workspace, checked in order.
pub open spec fn workspace_mutation_error(state: KernelState, owner: Seq<char>, task: Seq<char>, now: i128) -> Option<AgentOsError> {
    if !has_agent(state.threads@, owner) {
        Some(AgentOsError::NotFound("agent"))
    } else {
        let t = state.threads@[agent_thread_index(state.threads@, owner)];
        if t.task_id@ != task {
            Some(AgentOsError::PermissionDenied("artifact owner is not bound to task"))
        } else if !has_sandbox(state.sandbox_profiles@, t.sandbox_profile_id@) {
            Some(AgentOsError::NotFound("sandbox profile"))
        } else if !sandbox_id_writable(state, t.sandbox_profile_id@) {
            Some(AgentOsError::PermissionDenied("artifact owner sandbox does not allow workspace mutation"))
        } else {
            match lease_scan(state, state.environment_leases@, owner, t.lifecycle.thread_id@, task, now) {
                Err(e) => Some(e),
                Ok(true) => None,
                Ok(false) => Some(
                    AgentOsError::PermissionDenied("workspace mutation requires an active writable environment lease"),
                ),
            }
        }
    }
}

/// Some cited evidence id names diff evidence.
pub open spec fn cites_diff(state: KernelState, ids: Seq<String>) -> bool {
    exists|i: int|
        0 <= i < ids.len() && has_evidence(state.evidence@, ids[i]@) && state.evidence@[evidence_pos(
            state.evidence@,
            ids[i]@,
        )].evidence_type == EvidenceType::DiffRef
}

/// Why an artifact cannot be committed: an unknown task, or a patch without
/// diff evidence or without a writable workspace.
pub open spec fn artifact_error(state: KernelState, input: CommitArtifactInput, now: i128) -> Option<AgentOsError> {
    if !has_task(state.tasks@, input.task_id@) {
        Some(AgentOsError::NotFound("task"))
    } else if input.artifact_type == ArtifactType::Patch && !cites_diff(state, input.evidence_ids@) {
        Some(AgentOsError::Validation("patch artifact requires diff evidence"))
    } else if input.artifact_type == ArtifactType::Patch {
        workspace_mutation_error(state, input.owner_agent_id@, input.task_id@, now)
    } else {
        None
    }
}

/// `v` is the string `t`.
pub open spec fn is_text(v: JsonValue, t: Seq<char>) -> bool {
    v matches JsonValue::String(s) && s@ == t
}

/// The metadata of a committed artifact: the given metadata and the cited
/// evidence ids, plus the stored blob's length.
pub open spec fn artifact_metadata(r: JsonValue, metadata: JsonValue, evidence_ids: Seq<String>) -> bool {
    r matches JsonValue::Object(ms) && {
        &&& ms@.len() == 2
        &&& ms@[0].0@ == "metadata"@
        &&& ms@[0].1 == metadata
        &&& ms@[1].0@ == "evidence_ids"@
        &&& ms@[1].1 matches JsonValue::Array(xs) && xs@.len() == evidence_ids.len() && forall|i: int|
            0 <= i < xs@.len() ==> is_text(#[trigger] xs@[i], evidence_ids[i]@)
    }
}

/// Two artifact records that agree field by field.
pub open spec fn same_artifact(a: ArtifactRecord, b: ArtifactRecord) -> bool {
    &&& a.artifact_id == b.artifact_id
    &&& a.artifact_type == b.artifact_type
    &&& a.owner_agent_id == b.owner_agent_id
    &&& a.goal_id == b.goal_id
    &&& a.task_id == b.task_id
    &&& a.version == b.version
    &&& a.status == b.status
    &&& a.blob_ref == b.blob_ref
    &&& a.content_hash == b.content_hash
    &&& json_same(a.metadata, b.metadata)
    &&& a.created_at == b.created_at
    &&& a.updated_at == b.updated_at
    &&& a.supersedes == b.supersedes
}

impl ArtifactRecord {
    /// A copy of this artifact record.
    pub fn duplicate(&self) -> (r: ArtifactRecord)
        ensures
            same_artifact(*self, r),
    {
        ArtifactRecord {
            artifact_id: self.artifact_id.clone(),
            artifact_type: self.artifact_type,
            owner_agent_id: self.owner_agent_id.clone(),
            goal_id: self.goal_id.clone(),
            task_id: self.task_id.clone(),
            version: self.version,
            status: self.status,
            blob_ref: copy_opt_string(&self.blob_ref),
            content_hash: copy_opt_string(&self.content_hash),
            metadata: self.metadata.duplicate(),
            created_at: self.created_at.clone(),
            updated_at: self.updated_at.clone(),
            supersedes: copy_opt_string(&self.supersedes),
        }
    }
}

// ---------------------------------------------------------------------------
// Final submissions

/// Why a final answer is refused: no evidence map, a claim without
/// evidence, or cited evidence that is unknown or not active.
pub open spec fn final_error(evidence: Seq<EvidenceRecord>, map: Seq<EvidenceMapEntry>) -> Option<AgentOsError> {
    if map.len() == 0 {
        Some(AgentOsError::Validation("final answer without evidence map is rejected"))
    } else {
        entries_error(evidence, map)
    }
}

/// The first fault among the map's entries, in order.
pub open spec fn entries_error(evidence: Seq<EvidenceRecord>, map: Seq<EvidenceMapEntry>) -> Option<AgentOsError>
    decreases map.len(),
{
    if map.len() == 0 {
        None
    } else if map[0].evidence_refs@.len() == 0 {
        Some(AgentOsError::Validation("claim lacks evidence refs"))
    } else if refs_error(evidence, map[0].evidence_refs@) is Some {
        refs_error(evidence, map[0].evidence_refs@)
    } else {
        entries_error(evidence, map.drop_first())
    }
}

/// The first cited evidence id, in order, that is unknown or not active.
pub open spec fn refs_error(evidence: Seq<EvidenceRecord>, refs: Seq<String>) -> Option<AgentOsError>
    decreases refs.len(),
{
    if refs.len() == 0 {
        None
    } else if !has_evidence(evidence, refs[0]@) {
        Some(AgentOsError::NotFound("evidence"))
    } else if evidence[evidence_pos(evidence, refs[0]@)].status != EvidenceStatus::Active {
        Some(AgentOsError::Validation("evidence is not active"))
    } else {
        refs_error(evidence, refs.drop_first())
    }
}

/// The position of the first submission recorded for `task`.
pub open spec fn submission_pos(subs: Seq<(String, FinalSubmission)>, task: Seq<char>) -> Option<int> {
    if exists|i: int| 0 <= i < subs.len() && subs[i].0@ == task {
        Some(choose|i: int| 0 <= i < subs.len() && subs[i].0@ == task && forall|j: int| 0 <= j < i ==> subs[j].0@ != task)
    } else {
        None
    }
}

/// The submissions after recording `sub` for `task`: it replaces the
/// first one recorded for the task, or else comes last.
pub open spec fn submission_recorded(
    after: Seq<(String, FinalSubmission)>,
    before: Seq<(String, FinalSubmission)>,
    task: Seq<char>,
    sub: FinalSubmission,
) -> bool {
    match submission_pos(before, task) {
        Some(p) => after.len() == before.len() && after[p].0@ == task && after[p].1 == sub && forall|i: int|
            0 <= i < before.len() && i != p ==> after[i] == before[i],
        None => after.drop_last() == before && after.len() == before.len() + 1 && after.last().0@ == task
            && after.last().1 == sub,
    }
}

/// Recording a submission for a task that has one replaces the first.
#[verifier::rlimit(40)]
proof fn lemma_recorded_replaces(
    a: Seq<(String, FinalSubmission)>,
    b: Seq<(String, FinalSubmission)>,
    task: Seq<char>,
    sub: FinalSubmission,
    p: int,
)
    requires
        submission_recorded(a, b, task, sub),
        submission_pos(b, task) == Some(p),
    ensures
        a == with_record(b, a[p]),
        a[p].1 == sub,
{
    let x = a[p];
    assert(exists|i: int| 0 <= i < b.len() && b[i].0@ == task);
    let i0 = choose|i: int| 0 <= i < b.len() && b[i].0@ == task;
    assert(b[i0].key_of() == task);
    lemma_first_exists(b, task, i0);
    let f = choose|i: int| first_with_key(b, task, i);
    assert(first_with_key(b, task, f));
    assert forall|j: int| 0 <= j < f implies b[j].0@ != task by {
        assert(b[j].key_of() != task);
    }
    assert(0 <= f < b.len() && b[f].0@ == task && forall|j: int| 0 <= j < f ==> b[j].0@ != task);
    assert(0 <= p < b.len() && b[p].0@ == task && forall|j: int| 0 <= j < p ==> b[j].0@ != task);
    assert forall|j: int| 0 <= j < p implies #[trigger] b[j].key_of() != x.key_of() by {
        assert(b[j].0@ != task);
    }
    assert(first_with_key(b, x.key_of(), p));
    lemma_with_record_first(b, p, x);
    assert(a =~= b.update(p, x));
}

/// Recording a submission for a task that has none appends it.
#[verifier::rlimit(40)]
proof fn lemma_recorded_appends(
    a: Seq<(String, FinalSubmission)>,
    b: Seq<(String, FinalSubmission)>,
    task: Seq<char>,
    sub: FinalSubmission,
)
    requires
        submission_recorded(a, b, task, sub),
        submission_pos(b, task) is None,
    ensures
        a == with_record(b, a.last()),
        a.last().1 == sub,
{
    let x = a.last();
    assert forall|i: int| 0 <= i < b.len() implies #[trigger] b[i].key_of() != x.key_of() by {}
    lemma_with_record_new(b, x);
    assert(a =~= b.push(x));
}

fn find_submission(subs: &Vec<(String, FinalSubmission)>, task_id: &str) -> (r: Option<usize>)
    ensures
        match submission_pos(subs@, task_id@) {
            Some(p) => r matches Some(x) && x as int == p && x < subs@.len(),
            None => r is None,
        },
        r matches Some(x) ==> subs@[x as int].0@ == task_id@,
{
    let mut p: usize = 0;
    while p < subs.len()
        invariant
            p <= subs@.len(),
            forall|j: int| 0 <= j < p ==> subs@[j].0@ != task_id@,
        decreases subs@.len() - p,
    {
        if str_eq(subs[p].0.as_str(), task_id) {
            proof {
                assert(0 <= p < subs@.len() && subs@[p as int].0@ == task_id@ && forall|j: int|
                    0 <= j < p ==> subs@[j].0@ != task_id@);
                let c = choose|i: int|
                    0 <= i < subs@.len() && subs@[i].0@ == task_id@ && forall|j: int| 0 <= j < i ==> subs@[j].0@ != task_id@;
                if c < p {
                    assert(subs@[c].0@ != task_id@);
                }
                if p < c {
                    assert(subs@[p as int].0@ != task_id@);
                }
            }
            return Some(p);
        }
        p = p + 1;
    }
    None
}

#[verifier::rlimit(40)]
fn record_submission(subs: &mut Vec<(String, FinalSubmission)>, task_id: &str, sub: FinalSubmission)
    ensures
        submission_recorded(final(subs)@, old(subs)@, task_id@, sub),
{
    let ghost before = subs@;
    match find_submission(subs, task_id) {
        Some(p) => {
            let (k, _) = subs.remove(p);
            let ghost key = k;
            subs.insert(p, (k, sub));
            assert(subs@ =~= before.update(p as int, (key, sub)));
        },
        None => {
            subs.push((String::from_str(task_id), sub));
            assert(subs@.drop_last() =~= old(subs)@);
        },
    }
}

/// Two final submissions that agree claim by claim.
pub open spec fn same_submission(a: FinalSubmission, b: FinalSubmission) -> bool {
    &&& a.summary == b.summary
    &&& a.changed_artifacts@ == b.changed_artifacts@
    &&& a.evidence_map@.len() == b.evidence_map@.len()
    &&& forall|i: int| 0 <= i < a.evidence_map@.len() ==> #[trigger] a.evidence_map@[i].claim == b.evidence_map@[i].claim
        && a.evidence_map@[i].evidence_refs@ == b.evidence_map@[i].evidence_refs@
    &&& a.unverified_claims@ == b.unverified_claims@
    &&& a.known_risks@ == b.known_risks@
    &&& a.tests_run@ == b.tests_run@
    &&& a.tests_not_run@ == b.tests_not_run@
    &&& a.approvals@ == b.approvals@
}

impl FinalSubmission {
    /// A copy of this submission.
    pub fn duplicate(&self) -> (r: FinalSubmission)
        ensures
            same_submission(*self, r),
    {
        let mut map: Vec<EvidenceMapEntry> = Vec::new();
        let mut i: usize = 0;
        while i < self.evidence_map.len()
            invariant
                i <= self.evidence_map@.len(),
                map@.len() == i,
                forall|j: int| 0 <= j < i ==> #[trigger] map@[j].claim == self.evidence_map@[j].claim
                    && map@[j].evidence_refs@ == self.evidence_map@[j].evidence_refs@,
            decreases self.evidence_map@.len() - i,
        {
            let e = &self.evidence_map[i];
            map.push(EvidenceMapEntry { claim: e.claim.clone(), evidence_refs: copy_strings(&e.evidence_refs) });
            i = i + 1;
        }
        FinalSubmission {
            summary: self.summary.clone(),
            changed_artifacts: copy_strings(&self.changed_artifacts),
            evidence_map: map,
            unverified_claims: copy_strings(&self.unverified_claims),
            known_risks: copy_strings(&self.known_risks),
            tests_run: copy_strings(&self.tests_run),
            tests_not_run: copy_strings(&self.tests_not_run),
            approvals: copy_strings(&self.approvals),
        }
    }
}

impl KernelState {
    /// Attaches evidence `evidence_id` at `now` to a known goal (and task
    /// and artifact, when named). A stored blob replaces the given blob
    /// reference and hash, and its length is noted in the metadata. The
    /// evidence starts active.
    pub fn attach_evidence(&mut self, input: AttachEvidenceInput, evidence_id: String, now: String) -> (r: Result<EvidenceRecord, AgentOsError>)
        requires
            old(self).wf(),
            !has_evidence(old(self).evidence@, evidence_id@),
            notable(input.metadata, input.stored_blob),
        ensures
            attach_evidence_post(*old(self), *final(self), input, evidence_id, now, r),
    {
        if self.find_goal(input.goal_id.as_str()).is_none() {
            return Err(AgentOsError::NotFound("goal"));
        }
        if let Some(task_id) = &input.task_id {
            if self.find_task(task_id.as_str()).is_none() {
                return Err(AgentOsError::NotFound("task"));
            }
        }
        if let Some(artifact_id) = &input.artifact_id {
            if self.find_artifact(artifact_id.as_str()).is_none() {
                return Err(AgentOsError::NotFound("artifact"));
            }
        }
        let (blob_ref, content_hash, metadata) = match input.stored_blob {
            Some(b) => {
                let len = JsonValue::Number(JsonNumber { mantissa: b.byte_len as i128, scale: 0 });
                (Some(b.blob_ref), Some(b.content_hash), with_member(input.metadata, "blob_byte_len", len))
            },
            None => (input.blob_ref, input.content_hash, input.metadata),
        };
        let evidence = EvidenceRecord {
            evidence_id,
            goal_id: input.goal_id,
            task_id: input.task_id,
            artifact_id: input.artifact_id,
            evidence_type: input.evidence_type,
            producer_agent_id: input.producer_agent_id,
            claim: input.claim,
            blob_ref,
            content_hash,
            metadata,
            status: EvidenceStatus::Active,
            created_at: now,
            invalidated_by: None,
        };
        let copy = evidence.duplicate();
        let ghost before = self.evidence@;
        let logged = evidence.log_copy();
        let ghost pre = *self;
        let ghost gx = evidence;
        self.evidence.push(evidence);
        proof {
            assert(self.evidence@.drop_last() =~= before);
            let n = before.len();
            assert forall|i: int, j: int|
                0 <= i < self.evidence@.len() && 0 <= j < self.evidence@.len() && #[trigger] self.evidence@[i].evidence_id@
                    == #[trigger] self.evidence@[j].evidence_id@ implies i == j by {
                if i < n && j == n {
                    assert(before[i].evidence_id@ == evidence_id@);
                }
                if j < n && i == n {
                    assert(before[j].evidence_id@ == evidence_id@);
                }
            }
        }
        self.log_evidence(KernelEvent::EvidenceAttached(logged), Ghost(pre), Ghost(gx));
        Ok(copy)
    }

    fn find_sandbox(&self, id: &str) -> (r: Option<usize>)
        requires
            sandbox_ids_unique(self.sandbox_profiles@),
        ensures
            r.is_none() <==> !has_sandbox(self.sandbox_profiles@, id@),
            r matches Some(i) ==> i == sandbox_pos(self.sandbox_profiles@, id@) && i < self.sandbox_profiles@.len(),
    {
        let mut i: usize = 0;
        while i < self.sandbox_profiles.len()
            invariant
                i <= self.sandbox_profiles@.len(),
                sandbox_ids_unique(self.sandbox_profiles@),
                forall|j: int| 0 <= j < i ==> self.sandbox_profiles@[j].sandbox_profile_id@ != id@,
            decreases self.sandbox_profiles@.len() - i,
        {
            if str_eq(self.sandbox_profiles[i].sandbox_profile_id.as_str(), id) {
                proof {
                    let k = sandbox_pos(self.sandbox_profiles@, id@);
                    assert(self.sandbox_profiles@[k].sandbox_profile_id@ == self.sandbox_profiles@[i as int].sandbox_profile_id@);
                }
                return Some(i);
            }
            i = i + 1;
        }
        None
    }

    fn sandbox_writable_by_id(&self, id: &str) -> (r: bool)
        requires
            self.wf(),
        ensures
            r == sandbox_id_writable(*self, id@),
    {
        match self.find_sandbox(id) {
            None => false,
            Some(k) => {
                let sb = &self.sandbox_profiles[k];
                sb.status == ProfileStatus::Active && (sb.filesystem_mode == FilesystemMode::WorkspaceWrite
                    || sb.filesystem_mode == FilesystemMode::IsolatedWorktree)
            },
        }
    }

    fn check_workspace_mutation(&self, owner: &str, task: &str, now: i128) -> (r: Result<(), AgentOsError>)
        requires
            self.wf(),
        ensures
            match workspace_mutation_error(*self, owner@, task@, now) {
                Some(e) => r == Err::<(), AgentOsError>(e),
                None => r is Ok,
            },
    {
        let k = match self.find_agent_thread(owner) {
            None => return Err(AgentOsError::NotFound("agent")),
            Some(k) => k,
        };
        proof {
            let c = agent_thread_index(self.threads@, owner@);
            assert(crate::state::first_agent_thread(self.threads@, owner@, c));
            if c < k {
                assert(self.threads@[c].agent_id@ != owner@);
            }
            if k < c {
                assert(self.threads@[k as int].agent_id@ != owner@);
            }
        }
        let t = &self.threads[k];
        if !str_eq(t.task_id.as_str(), task) {
            return Err(AgentOsError::PermissionDenied("artifact owner is not bound to task"));
        }
        if self.find_sandbox(t.sandbox_profile_id.as_str()).is_none() {
            return Err(AgentOsError::NotFound("sandbox profile"));
        }
        if !self.sandbox_writable_by_id(t.sandbox_profile_id.as_str()) {
            return Err(AgentOsError::PermissionDenied("artifact owner sandbox does not allow workspace mutation"));
        }
        let leases = &self.environment_leases;
        let mut i: usize = 0;
        assert(leases@.subrange(0, leases@.len() as int) =~= leases@);
        while i < leases.len()
            invariant
                self.wf(),
                leases == &self.environment_leases,
                i <= leases@.len(),
                workspace_mutation_error(*self, owner@, task@, now) == (match lease_scan(
                    *self,
                    leases@,
                    owner@,
                    t.lifecycle.thread_id@,
                    task@,
                    now,
                ) {
                    Err(e) => Some(e),
                    Ok(true) => None,
                    Ok(false) => Some(
                        AgentOsError::PermissionDenied("workspace mutation requires an active writable environment lease"),
                    ),
                }),
                lease_scan(*self, leases@, owner@, t.lifecycle.thread_id@, task@, now) == lease_scan(
                    *self,
                    leases@.subrange(i as int, leases@.len() as int),
                    owner@,
                    t.lifecycle.thread_id@,
                    task@,
                    now,
                ),
            decreases leases@.len() - i,
        {
            proof {
                let rest = leases@.subrange(i as int, leases@.len() as int);
                assert(rest[0] == leases@[i as int]);
                assert(rest.drop_first() =~= leases@.subrange(i + 1, leases@.len() as int));
            }
            let l = &leases[i];
            let candidate = str_eq(l.agent_id.as_str(), owner) && str_eq(l.thread_id.as_str(), t.lifecycle.thread_id.as_str())
                && str_eq(l.task_id.as_str(), task) && l.status == EnvironmentLeaseStatus::Active && (l.attach_mode
                == AttachMode::WorkspaceWrite || l.attach_mode == AttachMode::Exclusive);
            if candidate {
                let expired = match &l.expires_at {
                    None => false,
                    Some(e) => match crate::clock::rfc3339_is_past(e.as_str(), now) {
                        Err(err) => return Err(err),
                        Ok(b) => b,
                    },
                };
                if !expired {
                    if let Some(e) = self.find_environment(l.environment_id.as_str()) {
                        if self.sandbox_writable_by_id(self.environments[e].sandbox_profile_id.as_str()) {
                            return Ok(());
                        }
                    }
                }
            }
            i = i + 1;
        }
        Err(AgentOsError::PermissionDenied("workspace mutation requires an active writable environment lease"))
    }

    fn check_cites_diff(&self, ids: &Vec<String>) -> (r: bool)
        requires
            self.wf(),
        ensures
            r == cites_diff(*self, ids@),
    {
        let mut i: usize = 0;
        while i < ids.len()
            invariant
                self.wf(),
                i <= ids@.len(),
                forall|j: int|
                    0 <= j < i ==> !(has_evidence(self.evidence@, (#[trigger] ids@[j])@) && self.evidence@[evidence_pos(
                        self.evidence@,
                        ids@[j]@,
                    )].evidence_type == EvidenceType::DiffRef),
            decreases ids@.len() - i,
        {
            if let Some(k) = self.find_evidence(ids[i].as_str()) {
                if self.evidence[k].evidence_type == EvidenceType::DiffRef {
                    return true;
                }
            }
            i = i + 1;
        }
        false
    }

    /// Commits artifact `artifact_id` at `now`, version 1 and submitted. A
    /// patch must cite diff evidence and be committed by an owner bound to
    /// the task, in a writable sandbox, holding an unexpired writable lease
    /// (as of `now_unix_nanos`) on an environment with a writable sandbox.
    pub fn commit_artifact(
        &mut self,
        input: CommitArtifactInput,
        artifact_id: String,
        now: String,
        now_unix_nanos: i128,
    ) -> (r: Result<ArtifactRecord, AgentOsError>)
        requires
            old(self).wf(),
            !has_artifact(old(self).artifacts@, artifact_id@),
        ensures
            commit_artifact_post(*old(self), *final(self), input, artifact_id, now, now_unix_nanos, r),
    {
        if self.find_task(input.task_id.as_str()).is_none() {
            return Err(AgentOsError::NotFound("task"));
        }
        if input.artifact_type == ArtifactType::Patch {
            if !self.check_cites_diff(&input.evidence_ids) {
                return Err(AgentOsError::Validation("patch artifact requires diff evidence"));
            }
            match self.check_workspace_mutation(input.owner_agent_id.as_str(), input.task_id.as_str(), now_unix_nanos) {
                Err(e) => return Err(e),
                Ok(()) => {},
            }
        }
        let mut ids: Vec<JsonValue> = Vec::new();
        let mut i: usize = 0;
        while i < input.evidence_ids.len()
            invariant
                i <= input.evidence_ids@.len(),
                ids@.len() == i,
                forall|j: int| 0 <= j < i ==> is_text(#[trigger] ids@[j], input.evidence_ids@[j]@),
            decreases input.evidence_ids@.len() - i,
        {
            ids.push(JsonValue::String(input.evidence_ids[i].clone()));
            i = i + 1;
        }
        let mut members: Vec<(String, JsonValue)> = Vec::new();
        members.push((String::from_str("metadata"), input.metadata));
        members.push((String::from_str("evidence_ids"), JsonValue::Array(ids)));
        let base = JsonValue::Object(members);
        let ghost base_view = base;
        let (blob_ref, content_hash, metadata) = match input.stored_blob {
            Some(b) => {
                let len = JsonValue::Number(JsonNumber { mantissa: b.byte_len as i128, scale: 0 });
                (Some(b.blob_ref), Some(b.content_hash), with_member(base, "blob_byte_len", len))
            },
            None => (input.blob_ref, input.content_hash, base),
        };
        let artifact = ArtifactRecord {
            artifact_id,
            artifact_type: input.artifact_type,
            owner_agent_id: input.owner_agent_id,
            goal_id: input.goal_id,
            task_id: input.task_id,
            version: 1,
            status: ArtifactStatus::Submitted,
            blob_ref,
            content_hash,
            metadata,
            created_at: now.clone(),
            updated_at: now,
            supersedes: input.supersedes,
        };
        let copy = artifact.duplicate();
        let ghost before = self.artifacts@;
        let logged = artifact.log_copy();
        let ghost pre = *self;
        let ghost gx = artifact;
        self.artifacts.push(artifact);
        proof {
            assert(self.artifacts@.drop_last() =~= before);
            let n = before.len();
            assert forall|x: int, y: int|
                0 <= x < self.artifacts@.len() && 0 <= y < self.artifacts@.len() && #[trigger] self.artifacts@[x].artifact_id@
                    == #[trigger] self.artifacts@[y].artifact_id@ implies x == y by {
                if x < n && y == n {
                    assert(before[x].artifact_id@ == artifact_id@);
                }
                if y < n && x == n {
                    assert(before[y].artifact_id@ == artifact_id@);
                }
            }
            assert(artifact_metadata(base_view, input.metadata, input.evidence_ids@));
        }
        self.log_artifact(KernelEvent::ArtifactCommitted(logged), Ghost(pre), Ghost(gx));
        Ok(copy)
    }

    fn check_refs(&self, refs: &Vec<String>) -> (r: Result<(), AgentOsError>)
        requires
            self.wf(),
        ensures
            match refs_error(self.evidence@, refs@) {
                Some(e) => r == Err::<(), AgentOsError>(e),
                None => r is Ok,
            },
    {
        let mut i: usize = 0;
        assert(refs@.subrange(0, refs@.len() as int) =~= refs@);
        while i < refs.len()
            invariant
                self.wf(),
                i <= refs@.len(),
                refs_error(self.evidence@, refs@) == refs_error(self.evidence@, refs@.subrange(i as int, refs@.len() as int)),
            decreases refs@.len() - i,
        {
            proof {
                let rest = refs@.subrange(i as int, refs@.len() as int);
                assert(rest[0] == refs@[i as int]);
                assert(rest.drop_first() =~= refs@.subrange(i + 1, refs@.len() as int));
            }
            let k = match self.find_evidence(refs[i].as_str()) {
                None => return Err(AgentOsError::NotFound("evidence")),
                Some(k) => k,
            };
            if self.evidence[k].status != EvidenceStatus::Active {
                return Err(AgentOsError::Validation("evidence is not active"));
            }
            i = i + 1;
        }
        Ok(())
    }

    fn check_final(&self, map: &Vec<EvidenceMapEntry>) -> (r: Result<(), AgentOsError>)
        requires
            self.wf(),
        ensures
            match final_error(self.evidence@, map@) {
                Some(e) => r == Err::<(), AgentOsError>(e),
                None => r is Ok,
            },
    {
        if map.len() == 0 {
            return Err(AgentOsError::Validation("final answer without evidence map is rejected"));
        }
        let mut i: usize = 0;
        assert(map@.subrange(0, map@.len() as int) =~= map@);
        while i < map.len()
            invariant
                self.wf(),
                i <= map@.len(),
                map@.len() > 0,
                final_error(self.evidence@, map@) == entries_error(self.evidence@, map@.subrange(i as int, map@.len() as int)),
            decreases map@.len() - i,
        {
            proof {
                let rest = map@.subrange(i as int, map@.len() as int);
                assert(rest[0] == map@[i as int]);
                assert(rest.drop_first() =~= map@.subrange(i + 1, map@.len() as int));
            }
            if map[i].evidence_refs.len() == 0 {
                return Err(AgentOsError::Validation("claim lacks evidence refs"));
            }
            match self.check_refs(&map[i].evidence_refs) {
                Err(e) => return Err(e),
                Ok(()) => {},
            }
            i = i + 1;
        }
        Ok(())
    }

    /// Records the final answer of task `task_id` by agent `agent_id`,
    /// replacing an earlier one. Every claim of its evidence map must cite
    /// evidence, all of it known and active.
    pub fn submit_final(&mut self, agent_id: &str, task_id: &str, final_submission: FinalSubmission) -> (r: Result<(), AgentOsError>)
        requires
            old(self).wf(),
        ensures
            submit_final_post(*old(self), *final(self), agent_id@, task_id@, final_submission, r),
    {
        match self.check_final(&final_submission.evidence_map) {
            Err(e) => return Err(e),
            Ok(()) => {},
        }
        let ghost before = *self;
        let ghost sub = final_submission;
        let found = find_submission(&self.final_submissions, task_id);
        record_submission(&mut self.final_submissions, task_id, final_submission);
        let idx = match found {
            Some(p) => p,
            None => self.final_submissions.len() - 1,
        };
        let logged = self.final_submissions[idx].log_copy();
        let ghost gx = self.final_submissions@[idx as int];
        proof {
            match submission_pos(before.final_submissions@, task_id@) {
                Some(p) => lemma_recorded_replaces(self.final_submissions@, before.final_submissions@, task_id@, sub, p),
                None => lemma_recorded_appends(self.final_submissions@, before.final_submissions@, task_id@, sub),
            }
        }
        let (logged_task, logged_submission) = logged;
        self.log_final(
            KernelEvent::FinalSubmitted { task_id: logged_task, submission: logged_submission },
            Ghost(before),
            Ghost(gx),
        );
        Ok(())
    }
}

/// A patch is only ever committed with diff evidence.
pub proof fn law_patch_needs_diff(state: KernelState, input: CommitArtifactInput, now: i128)
    requires
        artifact_error(state, input, now) is None,
        input.artifact_type == ArtifactType::Patch,
    ensures
        cites_diff(state, input.evidence_ids@),
{
}

/// What `commit_artifact` ensures, as a relation between the state before and after the call, its arguments and its result.
pub open spec fn commit_artifact_post(pre: KernelState, post: KernelState, input: CommitArtifactInput, artifact_id: String, now: String, now_unix_nanos: i128, r: Result<ArtifactRecord, AgentOsError>) -> bool {
    &&& (post.wf())
    &&& (match artifact_error(pre, input, now_unix_nanos) {
                Some(e) => r == Err::<ArtifactRecord, AgentOsError>(e) && post == pre,
                None => r matches Ok(v) && {
                    let a = post.artifacts@.last();
                    let (blob_ref, content_hash) = blob_fields(input.stored_blob, input.blob_ref, input.content_hash);
                    &&& post.artifacts@.drop_last() == pre.artifacts@
                    &&& post.artifacts@.len() == pre.artifacts@.len() + 1
                    &&& same_artifact(a, v)
                    &&& a.artifact_id == artifact_id
                    &&& a.artifact_type == input.artifact_type
                    &&& a.owner_agent_id == input.owner_agent_id
                    &&& a.goal_id == input.goal_id
                    &&& a.task_id == input.task_id
                    &&& a.version == 1
                    &&& a.status == ArtifactStatus::Submitted
                    &&& a.blob_ref == blob_ref
                    &&& a.content_hash == content_hash
                    &&& (match input.stored_blob {
                        Some(b) => exists|base: JsonValue|
                            artifact_metadata(base, input.metadata, input.evidence_ids@) && member_set(
                                a.metadata,
                                base,
                                "blob_byte_len"@,
                                json_count(b.byte_len),
                            ),
                        None => artifact_metadata(a.metadata, input.metadata, input.evidence_ids@),
                    })
                    &&& a.created_at == now
                    &&& a.updated_at == now
                    &&& a.supersedes == input.supersedes
                    &&& appended(pre, post, post.events@.last())
                    &&& post.events@.last() matches KernelEvent::ArtifactCommitted(x0) && post.artifacts@.last().copies(&x0)
                    &&& post == (KernelState { artifacts: post.artifacts, events: post.events, ..pre })
                },
            })
}

/// What `attach_evidence` ensures, as a relation between the state before and after the call, its arguments and its result.
pub open spec fn attach_evidence_post(pre: KernelState, post: KernelState, input: AttachEvidenceInput, evidence_id: String, now: String, r: Result<EvidenceRecord, AgentOsError>) -> bool {
    &&& (post.wf())
    &&& (match evidence_error(pre, input) {
                Some(e) => r == Err::<EvidenceRecord, AgentOsError>(e) && post == pre,
                None => r matches Ok(v) && {
                    let ev = post.evidence@.last();
                    let (blob_ref, content_hash) = blob_fields(input.stored_blob, input.blob_ref, input.content_hash);
                    &&& post.evidence@.drop_last() == pre.evidence@
                    &&& post.evidence@.len() == pre.evidence@.len() + 1
                    &&& same_evidence(ev, v)
                    &&& ev.evidence_id == evidence_id
                    &&& ev.goal_id == input.goal_id
                    &&& ev.task_id == input.task_id
                    &&& ev.artifact_id == input.artifact_id
                    &&& ev.evidence_type == input.evidence_type
                    &&& ev.producer_agent_id == input.producer_agent_id
                    &&& ev.claim == input.claim
                    &&& ev.blob_ref == blob_ref
                    &&& ev.content_hash == content_hash
                    &&& metadata_noted(ev.metadata, input.metadata, input.stored_blob)
                    &&& ev.status == EvidenceStatus::Active
                    &&& ev.created_at == now
                    &&& ev.invalidated_by is None
                    &&& appended(pre, post, post.events@.last())
                    &&& post.events@.last() matches KernelEvent::EvidenceAttached(x0) && post.evidence@.last().copies(&x0)
                    &&& post == (KernelState { evidence: post.evidence, events: post.events, ..pre })
                },
            })
}

/// What `submit_final` ensures, as a relation between the state before and after the call, its arguments and its result.
pub open spec fn submit_final_post(pre: KernelState, post: KernelState, agent_id: Seq<char>, task_id: Seq<char>, final_submission: FinalSubmission, r: Result<(), AgentOsError>) -> bool {
    &&& (post.wf())
    &&& (match final_error(pre.evidence@, final_submission.evidence_map@) {
                Some(e) => r == Err::<(), AgentOsError>(e) && post == pre,
                None => r is Ok && {
                    &&& submission_recorded(
                        post.final_submissions@,
                        pre.final_submissions@,
                        task_id,
                        final_submission,
                    )
                    &&& appended(pre, post, post.events@.last())
                    &&& post.events@.last() matches KernelEvent::FinalSubmitted { task_id: t, submission: u } && t@
                        == task_id && same_submission(final_submission, u)
                    &&& post == (KernelState { final_submissions: post.final_submissions, events: post.events, ..pre })
                },
            })
}

} // verus!
