//! The syscall gate: which syscalls the kernel accepts at all, which
//! operation a syscall names and whether it needs authorization, replay
//! of results already given for an idempotency key, and the agent
//! lifecycle syscalls, which need no payload but a reason.
use vstd::prelude::*;
use crate::error::AgentOsError;
use crate::json::{JsonValue, member, text_of, json_same};
use crate::approval::SyscallEnvelope;
use crate::lifecycle::{ThreadStatus, ThreadLifecycle, thread_transition_allowed, transitioned};
use crate::state::{KernelState, has_agent};
use crate::agents::agent_thread_index;
use crate::text::{str_eq, copy_strings};

verus! {

/// The operations a syscall can name.
#[derive(Debug, Clone, Copy, PartialEq, Eq, Structural)]
pub enum SyscallOp {
    GoalRegister,
    TaskSpawn,
    TaskUpdate,
    TaskBlock,
    TaskComplete,
    AgentSpawn,
    AgentYield,
    AgentSuspend,
    AgentResume,
    AgentFail,
    AgentComplete,
    SendMessage,
    BlackboardPost,
    ContextLoad,
    ContextInvalidate,
    ContextCommitSummary,
    MemoryProposeWrite,
    MemoryCommitWrite,
    MemoryInvalidate,
    ToolDiscover,
    ToolInvoke,
    MementoCreate,
    MementoArm,
    MementoConsume,
    ArtifactCommit,
    EvidenceAttach,
    ReviewRequest,
    ReviewSubmit,
    VerifySubmit,
    ApprovalRequest,
    ApprovalRecord,
    FinalSubmit,
    PolicyCheck,
}

/// The operation syscall type `t` names, if any.
pub open spec fn op_named(t: Seq<char>) -> Option<SyscallOp> {
    if t == "goal.register"@ { Some(SyscallOp::GoalRegister) }
    else if t == "task.spawn"@ { Some(SyscallOp::TaskSpawn) }
    else if t == "task.update"@ { Some(SyscallOp::TaskUpdate) }
    else if t == "task.block"@ { Some(SyscallOp::TaskBlock) }
    else if t == "task.complete"@ { Some(SyscallOp::TaskComplete) }
    else if t == "agent.spawn"@ { Some(SyscallOp::AgentSpawn) }
    else if t == "agent.yield"@ { Some(SyscallOp::AgentYield) }
    else if t == "agent.suspend"@ { Some(SyscallOp::AgentSuspend) }
    else if t == "agent.resume"@ { Some(SyscallOp::AgentResume) }
    else if t == "agent.fail"@ { Some(SyscallOp::AgentFail) }
    else if t == "agent.complete"@ { Some(SyscallOp::AgentComplete) }
    else if t == "comm.send_supervisor"@ || t == "human.message"@ { Some(SyscallOp::SendMessage) }
    else if t == "blackboard.post"@ { Some(SyscallOp::BlackboardPost) }
    else if t == "context.load"@ { Some(SyscallOp::ContextLoad) }
    else if t == "context.invalidate"@ { Some(SyscallOp::ContextInvalidate) }
    else if t == "context.commit_summary"@ { Some(SyscallOp::ContextCommitSummary) }
    else if t == "memory.propose_write"@ { Some(SyscallOp::MemoryProposeWrite) }
    else if t == "memory.commit_write"@ { Some(SyscallOp::MemoryCommitWrite) }
    else if t == "memory.invalidate"@ { Some(SyscallOp::MemoryInvalidate) }
    else if t == "tool.discover"@ { Some(SyscallOp::ToolDiscover) }
    else if t == "tool.invoke"@ { Some(SyscallOp::ToolInvoke) }
    else if t == "memento.create"@ { Some(SyscallOp::MementoCreate) }
    else if t == "memento.arm"@ { Some(SyscallOp::MementoArm) }
    else if t == "memento.consume"@ { Some(SyscallOp::MementoConsume) }
    else if t == "artifact.commit"@ { Some(SyscallOp::ArtifactCommit) }
    else if t == "evidence.attach"@ { Some(SyscallOp::EvidenceAttach) }
    else if t == "review.request"@ { Some(SyscallOp::ReviewRequest) }
    else if t == "review.submit"@ { Some(SyscallOp::ReviewSubmit) }
    else if t == "verify.submit"@ { Some(SyscallOp::VerifySubmit) }
    else if t == "approval.request"@ { Some(SyscallOp::ApprovalRequest) }
    else if t == "approval.record"@ { Some(SyscallOp::ApprovalRecord) }
    else if t == "final.submit"@ { Some(SyscallOp::FinalSubmit) }
    else if t == "policy.check"@ { Some(SyscallOp::PolicyCheck) }
    else { None }
}

/// Every operation but goal registration and the recording of an
/// approval decision is authorized against the syscall's capability.
pub open spec fn needs_authorization(op: SyscallOp) -> bool {
    !matches!(op, SyscallOp::GoalRegister | SyscallOp::ApprovalRecord)
}

/// Whether a syscall result accepted or rejected the syscall.
#[derive(Debug, Clone, Copy, PartialEq, Eq, Structural)]
pub enum SyscallStatus {
    Accepted,
    Rejected,
}

/// What the kernel answered a syscall.
#[derive(Debug)]
pub struct SyscallResult {
    pub syscall_id: String,
    pub status: SyscallStatus,
    pub reason: Option<&'static str>,
    pub event_ids: Vec<String>,
    pub output: JsonValue,
}

/// Two results that agree field by field.
pub open spec fn same_result(a: SyscallResult, b: SyscallResult) -> bool {
    &&& a == SyscallResult { event_ids: a.event_ids, output: a.output, ..b }
    &&& a.event_ids@ == b.event_ids@
    &&& json_same(a.output, b.output)
}

/// A syscall refused before anything runs: an ABI version other than the
/// supported one, or no agent, task or type.
pub open spec fn envelope_rejection(s: SyscallEnvelope, supported_abi: Seq<char>) -> Option<&'static str> {
    if s.abi_version@ != supported_abi {
        Some("unsupported ABI version")
    } else if s.agent_id@.len() == 0 || s.task_id@.len() == 0 || s.syscall_type@.len() == 0 {
        Some("syscall lacks identity, type, or task binding")
    } else {
        None
    }
}

/// Some result is kept under idempotency key `key`.
pub open spec fn has_result(rs: Seq<(String, SyscallResult)>, key: Seq<char>) -> bool {
    exists|i: int| 0 <= i < rs.len() && rs[i].0@ == key
}

/// The position of the result kept under `key` (meaningful when `has_result`).
pub open spec fn result_pos(rs: Seq<(String, SyscallResult)>, key: Seq<char>) -> int {
    choose|i: int| 0 <= i < rs.len() && rs[i].0@ == key
}

/// At most one result per idempotency key.
pub open spec fn result_keys_unique(rs: Seq<(String, SyscallResult)>) -> bool {
    forall|i: int, j: int| 0 <= i < rs.len() && 0 <= j < rs.len() && #[trigger] rs[i].0@ == #[trigger] rs[j].0@ ==> i == j
}

/// What becomes of a syscall before its operation runs.
#[derive(Debug)]
pub enum SyscallGate {
    /// Refused before anything runs, with this result.
    Rejected(SyscallResult),
    /// Already answered under its idempotency key: this result again.
    Replayed(SyscallResult),
    /// To be run as this operation.
    Dispatch(SyscallOp),
}

/// The status an agent lifecycle syscall moves the agent's thread to, and
/// why.
pub open spec fn lifecycle_target(op: SyscallOp, payload: JsonValue) -> Option<(ThreadStatus, Option<Seq<char>>)> {
    match op {
        SyscallOp::AgentYield => Some((ThreadStatus::Ready, Some("cooperative yield"@))),
        SyscallOp::AgentSuspend => Some((ThreadStatus::Suspended, Some("suspend requested"@))),
        SyscallOp::AgentResume => Some((ThreadStatus::Ready, Some("resume requested"@))),
        SyscallOp::AgentFail => Some((ThreadStatus::Failed, text_of(member(payload, "reason"@)))),
        SyscallOp::AgentComplete => Some((ThreadStatus::Completed, Some("assignment completed"@))),
        _ => None,
    }
}

/// The text of an optional reason.
pub open spec fn reason_text(o: Option<String>) -> Option<Seq<char>> {
    match o {
        Some(s) => Some(s@),
        None => None,
    }
}

fn copy_opt(o: &Option<String>) -> (r: Option<String>)
    ensures
        r == *o,
{
    match o {
        Some(s) => Some(s.clone()),
        None => None,
    }
}

impl SyscallResult {
    /// A refusal of syscall `syscall_id` for `reason`.
    pub fn rejected(syscall_id: String, reason: &'static str) -> (r: SyscallResult)
        ensures
            r.syscall_id == syscall_id,
            r.status == SyscallStatus::Rejected,
            r.reason == Some(reason),
            r.event_ids@.len() == 0,
            r.output is Null,
    {
        SyscallResult { syscall_id, status: SyscallStatus::Rejected, reason: Some(reason), event_ids: Vec::new(), output: JsonValue::Null }
    }

    /// An acceptance of syscall `syscall_id` that recorded `event_ids` and
    /// gave `output`.
    pub fn accepted(syscall_id: String, event_ids: Vec<String>, output: JsonValue) -> (r: SyscallResult)
        ensures
            r == (SyscallResult { syscall_id, status: SyscallStatus::Accepted, reason: None, event_ids, output }),
    {
        SyscallResult { syscall_id, status: SyscallStatus::Accepted, reason: None, event_ids, output }
    }

    /// A copy of this result.
    pub fn duplicate(&self) -> (r: SyscallResult)
        ensures
            same_result(*self, r),
    {
        SyscallResult {
            syscall_id: self.syscall_id.clone(),
            status: self.status,
            reason: self.reason,
            event_ids: copy_strings(&self.event_ids),
            output: self.output.duplicate(),
        }
    }
}

/// The operation syscall type `t` names, if any.
pub fn syscall_op(t: &str) -> (r: Option<SyscallOp>)
    ensures
        r == op_named(t@),
{
    proof {
        reveal_strlit("goal.register");
        reveal_strlit("task.spawn");
        reveal_strlit("task.update");
        reveal_strlit("task.block");
        reveal_strlit("task.complete");
        reveal_strlit("agent.spawn");
        reveal_strlit("agent.yield");
        reveal_strlit("agent.suspend");
        reveal_strlit("agent.resume");
        reveal_strlit("agent.fail");
        reveal_strlit("agent.complete");
        reveal_strlit("comm.send_supervisor");
        reveal_strlit("human.message");
        reveal_strlit("blackboard.post");
        reveal_strlit("context.load");
        reveal_strlit("context.invalidate");
        reveal_strlit("context.commit_summary");
        reveal_strlit("memory.propose_write");
        reveal_strlit("memory.commit_write");
        reveal_strlit("memory.invalidate");
        reveal_strlit("tool.discover");
        reveal_strlit("tool.invoke");
        reveal_strlit("memento.create");
        reveal_strlit("memento.arm");
        reveal_strlit("memento.consume");
        reveal_strlit("artifact.commit");
        reveal_strlit("evidence.attach");
        reveal_strlit("review.request");
        reveal_strlit("review.submit");
        reveal_strlit("verify.submit");
        reveal_strlit("approval.request");
        reveal_strlit("approval.record");
        reveal_strlit("final.submit");
        reveal_strlit("policy.check");
    }
    if str_eq(t, "goal.register") {
        return Some(SyscallOp::GoalRegister);
    }
    if str_eq(t, "task.spawn") {
        return Some(SyscallOp::TaskSpawn);
    }
    if str_eq(t, "task.update") {
        return Some(SyscallOp::TaskUpdate);
    }
    if str_eq(t, "task.block") {
        return Some(SyscallOp::TaskBlock);
    }
    if str_eq(t, "task.complete") {
        return Some(SyscallOp::TaskComplete);
    }
    if str_eq(t, "agent.spawn") {
        return Some(SyscallOp::AgentSpawn);
    }
    if str_eq(t, "agent.yield") {
        return Some(SyscallOp::AgentYield);
    }
    if str_eq(t, "agent.suspend") {
        return Some(SyscallOp::AgentSuspend);
    }
    if str_eq(t, "agent.resume") {
        return Some(SyscallOp::AgentResume);
    }
    if str_eq(t, "agent.fail") {
        return Some(SyscallOp::AgentFail);
    }
    if str_eq(t, "agent.complete") {
        return Some(SyscallOp::AgentComplete);
    }
    if str_eq(t, "comm.send_supervisor") {
        return Some(SyscallOp::SendMessage);
    }
    if str_eq(t, "human.message") {
        return Some(SyscallOp::SendMessage);
    }
    if str_eq(t, "blackboard.post") {
        return Some(SyscallOp::BlackboardPost);
    }
    if str_eq(t, "context.load") {
        return Some(SyscallOp::ContextLoad);
    }
    if str_eq(t, "context.invalidate") {
        return Some(SyscallOp::ContextInvalidate);
    }
    if str_eq(t, "context.commit_summary") {
        return Some(SyscallOp::ContextCommitSummary);
    }
    if str_eq(t, "memory.propose_write") {
        return Some(SyscallOp::MemoryProposeWrite);
    }
    if str_eq(t, "memory.commit_write") {
        return Some(SyscallOp::MemoryCommitWrite);
    }
    if str_eq(t, "memory.invalidate") {
        return Some(SyscallOp::MemoryInvalidate);
    }
    if str_eq(t, "tool.discover") {
        return Some(SyscallOp::ToolDiscover);
    }
    if str_eq(t, "tool.invoke") {
        return Some(SyscallOp::ToolInvoke);
    }
    if str_eq(t, "memento.create") {
        return Some(SyscallOp::MementoCreate);
    }
    if str_eq(t, "memento.arm") {
        return Some(SyscallOp::MementoArm);
    }
    if str_eq(t, "memento.consume") {
        return Some(SyscallOp::MementoConsume);
    }
    if str_eq(t, "artifact.commit") {
        return Some(SyscallOp::ArtifactCommit);
    }
    if str_eq(t, "evidence.attach") {
        return Some(SyscallOp::EvidenceAttach);
    }
    if str_eq(t, "review.request") {
        return Some(SyscallOp::ReviewRequest);
    }
    if str_eq(t, "review.submit") {
        return Some(SyscallOp::ReviewSubmit);
    }
    if str_eq(t, "verify.submit") {
        return Some(SyscallOp::VerifySubmit);
    }
    if str_eq(t, "approval.request") {
        return Some(SyscallOp::ApprovalRequest);
    }
    if str_eq(t, "approval.record") {
        return Some(SyscallOp::ApprovalRecord);
    }
    if str_eq(t, "final.submit") {
        return Some(SyscallOp::FinalSubmit);
    }
    if str_eq(t, "policy.check") {
        return Some(SyscallOp::PolicyCheck);
    }
    None
}

/// Whether operation `op` is authorized against the syscall's capability.
pub fn op_needs_authorization(op: SyscallOp) -> (r: bool)
    ensures
        r == needs_authorization(op),
{
    !matches!(op, SyscallOp::GoalRegister | SyscallOp::ApprovalRecord)
}

impl KernelState {
    pub(crate) fn find_result(&self, key: &str) -> (r: Option<usize>)
        requires
            result_keys_unique(self.syscall_results@),
        ensures
            r.is_none() <==> !has_result(self.syscall_results@, key@),
            r matches Some(i) ==> i == result_pos(self.syscall_results@, key@) && i < self.syscall_results@.len(),
    {
        let mut i: usize = 0;
        while i < self.syscall_results.len()
            invariant
                i <= self.syscall_results@.len(),
                result_keys_unique(self.syscall_results@),
                forall|j: int| 0 <= j < i ==> self.syscall_results@[j].0@ != key@,
            decreases self.syscall_results@.len() - i,
        {
            if str_eq(self.syscall_results[i].0.as_str(), key) {
                proof {
                    let k = result_pos(self.syscall_results@, key@);
                    assert(self.syscall_results@[k].0@ == self.syscall_results@[i as int].0@);
                }
                return Some(i);
            }
            i = i + 1;
        }
        None
    }

    /// Decides what becomes of syscall `s`, for a kernel that supports ABI
    /// version `supported_abi`: a wrong ABI version or a missing agent,
    /// task or type is answered with a rejection; a syscall whose
    /// idempotency key was answered before gets that answer again; an
    /// unknown type is a `Validation` error; otherwise its operation runs.
    pub fn syscall_gate(&self, s: &SyscallEnvelope, supported_abi: &str) -> (r: Result<SyscallGate, AgentOsError>)
        requires
            self.wf(),
        ensures
            envelope_rejection(*s, supported_abi@) matches Some(m) ==> (r matches Ok(SyscallGate::Rejected(x)) && x.syscall_id
                == s.syscall_id && x.status == SyscallStatus::Rejected && x.reason == Some(m) && x.event_ids@.len() == 0
                && x.output is Null),
            envelope_rejection(*s, supported_abi@) is None && has_result(self.syscall_results@, s.idempotency_key@) ==> (r matches Ok(
                SyscallGate::Replayed(x),
            ) && same_result(self.syscall_results@[result_pos(self.syscall_results@, s.idempotency_key@)].1, x)),
            envelope_rejection(*s, supported_abi@) is None && !has_result(self.syscall_results@, s.idempotency_key@) ==> match op_named(
                s.syscall_type@,
            ) {
                Some(op) => r == Ok::<SyscallGate, AgentOsError>(SyscallGate::Dispatch(op)),
                None => r == Err::<SyscallGate, AgentOsError>(AgentOsError::Validation("unknown syscall op")),
            },
    {
        if !str_eq(s.abi_version.as_str(), supported_abi) {
            return Ok(SyscallGate::Rejected(SyscallResult::rejected(s.syscall_id.clone(), "unsupported ABI version")));
        }
        if s.agent_id.unicode_len() == 0 || s.task_id.unicode_len() == 0 || s.syscall_type.unicode_len() == 0 {
            return Ok(
                SyscallGate::Rejected(SyscallResult::rejected(s.syscall_id.clone(), "syscall lacks identity, type, or task binding")),
            );
        }
        if let Some(k) = self.find_result(s.idempotency_key.as_str()) {
            return Ok(SyscallGate::Replayed(self.syscall_results[k].1.duplicate()));
        }
        match syscall_op(s.syscall_type.as_str()) {
            Some(op) => Ok(SyscallGate::Dispatch(op)),
            None => Err(AgentOsError::Validation("unknown syscall op")),
        }
    }

    /// Keeps `result` as the answer to idempotency key `key`.
    pub fn record_syscall_result(&mut self, key: String, result: SyscallResult)
        requires
            old(self).wf(),
            !has_result(old(self).syscall_results@, key@),
        ensures
            final(self).wf(),
            final(self).syscall_results@ == old(self).syscall_results@.push((key, result)),
            *final(self) == (KernelState { syscall_results: final(self).syscall_results, ..*old(self) }),
    {
        let ghost before = self.syscall_results@;
        self.syscall_results.push((key, result));
        proof {
            assert forall|a: int, b: int|
                0 <= a < self.syscall_results@.len() && 0 <= b < self.syscall_results@.len()
                    && #[trigger] self.syscall_results@[a].0@ == #[trigger] self.syscall_results@[b].0@ implies a == b by {
                if a < before.len() {
                    assert(self.syscall_results@[a] == before[a]);
                }
                if b < before.len() {
                    assert(self.syscall_results@[b] == before[b]);
                }
            }
        }
    }

    /// Keeps `result` as the answer to idempotency key `key`, replacing an
    /// answer kept before under that key.
    pub fn keep_syscall_result(&mut self, key: String, result: SyscallResult)
        requires
            old(self).wf(),
        ensures
            final(self).wf(),
            has_result(final(self).syscall_results@, key@),
            final(self).syscall_results@[result_pos(final(self).syscall_results@, key@)].1 == result,
            forall|k: Seq<char>| k != key@ ==> (#[trigger] has_result(final(self).syscall_results@, k) <==> has_result(
                old(self).syscall_results@,
                k,
            )),
            *final(self) == (KernelState { syscall_results: final(self).syscall_results, ..*old(self) }),
    {
        let ghost before = self.syscall_results@;
        let ghost key_view = key@;
        match self.find_result(key.as_str()) {
            Some(i) => {
                let ghost kept = (key, result);
                self.syscall_results.set(i, (key, result));
                proof {
                    let rs = self.syscall_results@;
                    assert forall|a: int, b: int|
                        0 <= a < rs.len() && 0 <= b < rs.len() && #[trigger] rs[a].0@ == #[trigger] rs[b].0@ implies a == b by {
                        assert(rs[a].0@ == before[a].0@);
                        assert(rs[b].0@ == before[b].0@);
                    }
                    assert(rs[i as int].0@ == key_view);
                    let p = result_pos(rs, key_view);
                    assert(rs[p].0@ == rs[i as int].0@);
                    assert forall|k: Seq<char>| k != key_view implies (#[trigger] has_result(rs, k) <==> has_result(before, k)) by {
                        if has_result(rs, k) {
                            let j = choose|j: int| 0 <= j < rs.len() && rs[j].0@ == k;
                            assert(before[j].0@ == k);
                        }
                        if has_result(before, k) {
                            let j = choose|j: int| 0 <= j < before.len() && before[j].0@ == k;
                            assert(rs[j].0@ == k);
                        }
                    }
                }
            },
            None => {
                self.record_syscall_result(key, result);
                proof {
                    let rs = self.syscall_results@;
                    let n = before.len() as int;
                    assert(rs[n].0@ == key_view);
                    let p = result_pos(rs, key_view);
                    assert(rs[p].0@ == rs[n].0@);
                    assert forall|k: Seq<char>| k != key_view implies (#[trigger] has_result(rs, k) <==> has_result(before, k)) by {
                        if has_result(rs, k) {
                            let j = choose|j: int| 0 <= j < rs.len() && rs[j].0@ == k;
                            assert(j < n);
                            assert(before[j].0@ == k);
                        }
                        if has_result(before, k) {
                            let j = choose|j: int| 0 <= j < before.len() && before[j].0@ == k;
                            assert(rs[j].0@ == k);
                        }
                    }
                }
            },
        }
    }

    /// Moves the (first) thread of agent `agent_id` to `next` for `reason`
    /// at `now`, as `transition_thread` does. An unknown agent is
    /// `NotFound`.
    pub fn transition_thread_by_agent(&mut self, agent_id: &str, next: ThreadStatus, reason: Option<String>, now: String) -> (r: Result<
        ThreadLifecycle,
        AgentOsError,
    >)
        requires
            old(self).wf(),
        ensures
            final(self).wf(),
            !has_agent(old(self).threads@, agent_id@) ==> r == Err::<ThreadLifecycle, AgentOsError>(AgentOsError::NotFound("agent"))
                && *final(self) == *old(self),
            has_agent(old(self).threads@, agent_id@) ==> {
                let k = agent_thread_index(old(self).threads@, agent_id@);
                let lc = old(self).threads@[k].lifecycle;
                if !thread_transition_allowed(lc.status, next) {
                    r == Err::<ThreadLifecycle, AgentOsError>(AgentOsError::InvalidTransition("thread transition is not allowed"))
                        && *final(self) == *old(self)
                } else {
                    &&& r matches Ok(n) && transitioned(lc, n, next, reason, now)
                    &&& crate::threads::thread_lifecycle_replaced(*old(self), *final(self), k, r->Ok_0)
                    &&& next == ThreadStatus::Ready ==> forall|x: Seq<char>| #[trigger] crate::scope::texts(
                        final(self).ready_queue@,
                    ).contains(x) <==> (crate::scope::texts(old(self).ready_queue@).contains(x) || x == lc.thread_id@)
                    &&& next != ThreadStatus::Ready ==> final(self).ready_queue == old(self).ready_queue
                }
            },
    {
        let k = match self.find_first_agent_thread(agent_id) {
            None => return Err(AgentOsError::NotFound("agent")),
            Some(k) => k,
        };
        let thread_id = self.threads[k].lifecycle.thread_id.clone();
        proof {
            assert(crate::state::has_thread(self.threads@, thread_id@));
            let p = crate::state::thread_pos(self.threads@, thread_id@);
            assert(self.threads@[p].lifecycle.thread_id@ == self.threads@[k as int].lifecycle.thread_id@);
        }
        self.transition_thread(thread_id.as_str(), next, reason, now)
    }

    /// Runs agent lifecycle syscall `s` (yield, suspend, resume, fail or
    /// complete) at `now` (the instant `now_unix_nanos`): it is authorized
    /// first (a refusal stands, and nothing changes); then the agent's
    /// thread moves as `lifecycle_target` says, the reason of a failure
    /// being the payload's `reason`, as `transition_thread_by_agent` does;
    /// a completion then triggers the fragments armed on the thread's
    /// completion. Any other operation is a `Validation` error.
    pub fn agent_lifecycle_syscall(&mut self, s: &SyscallEnvelope, op: SyscallOp, now: String, now_unix_nanos: i128) -> (r: Result<
        ThreadLifecycle,
        AgentOsError,
    >)
        requires
            old(self).wf(),
        ensures
            agent_lifecycle_syscall_post(*old(self), *final(self), s, op, now, now_unix_nanos, r),
    {
        let (next, reason): (ThreadStatus, Option<String>) = match op {
            SyscallOp::AgentYield => (ThreadStatus::Ready, Some(String::from_str("cooperative yield"))),
            SyscallOp::AgentSuspend => (ThreadStatus::Suspended, Some(String::from_str("suspend requested"))),
            SyscallOp::AgentResume => (ThreadStatus::Ready, Some(String::from_str("resume requested"))),
            SyscallOp::AgentFail => (ThreadStatus::Failed, match s.payload.get_str("reason") {
                Some(t) => Some(String::from_str(t)),
                None => None,
            }),
            SyscallOp::AgentComplete => (ThreadStatus::Completed, Some(String::from_str("assignment completed"))),
            _ => return Err(AgentOsError::Validation("not an agent lifecycle syscall")),
        };
        match self.authorize(s, now_unix_nanos) {
            Err(e) => return Err(e),
            Ok(()) => {},
        }
        let lc = match self.transition_thread_by_agent(s.agent_id.as_str(), next, reason, now.clone()) {
            Err(e) => return Err(e),
            Ok(lc) => lc,
        };
        let ghost mid = *self;
        if op == SyscallOp::AgentComplete {
            self.trigger_child_completion_mementos(lc.thread_id.as_str(), now);
        }
        Ok(lc)
    }
}

/// `after` is `before` with the fragments armed on the completion of
/// thread `child` triggered at `now`.
pub open spec fn completion_triggered(before: KernelState, after: KernelState, child: Seq<char>, now: String) -> bool {
    &&& after.mementos@.len() == before.mementos@.len()
    &&& forall|k: int| 0 <= k < before.mementos@.len() ==> #[trigger] after.mementos@[k] == if crate::memento::triggered_by(
        before.mementos@[k],
        child,
    ) {
        crate::memento::with_status(before.mementos@[k], crate::memento::MementoStatus::Triggered, now)
    } else {
        before.mementos@[k]
    }
    &&& after == (KernelState { mementos: after.mementos, ..before })
}

/// What `agent_lifecycle_syscall` ensures, as a relation between the state before and after the call, its arguments and its result.
pub open spec fn agent_lifecycle_syscall_post(pre: KernelState, post: KernelState, s: &SyscallEnvelope, op: SyscallOp, now: String, now_unix_nanos: i128, r: Result<
        ThreadLifecycle,
        AgentOsError,
    >) -> bool {
    &&& (post.wf())
    &&& (match lifecycle_target(op, s.payload) {
                None => r == Err::<ThreadLifecycle, AgentOsError>(AgentOsError::Validation("not an agent lifecycle syscall"))
                    && post == pre,
                Some((next, why)) => match crate::capability::authorize_outcome(pre, *s, now_unix_nanos) {
                    Err(e) => r == Err::<ThreadLifecycle, AgentOsError>(e) && post == pre,
                    Ok(_) => if !has_agent(pre.threads@, s.agent_id@) {
                        r == Err::<ThreadLifecycle, AgentOsError>(AgentOsError::NotFound("agent")) && post == pre
                    } else {
                        let k = agent_thread_index(pre.threads@, s.agent_id@);
                        let lc = pre.threads@[k].lifecycle;
                        if !thread_transition_allowed(lc.status, next) {
                            r == Err::<ThreadLifecycle, AgentOsError>(
                                AgentOsError::InvalidTransition("thread transition is not allowed"),
                            ) && post == pre
                        } else {
                            &&& r matches Ok(n) && reason_text(n.status_reason) == why && transitioned(lc, n, next, n.status_reason, now)
                            &&& exists|mid: KernelState| {
                                &&& crate::threads::thread_lifecycle_replaced(pre, mid, k, r->Ok_0)
                                &&& mid.mementos == pre.mementos
                                &&& if op == SyscallOp::AgentComplete {
                                    completion_triggered(mid, post, lc.thread_id@, now)
                                } else {
                                    post == mid
                                }
                            }
                        }
                    },
                },
            })
}

} // verus!
