//! Running a syscall: the admission checks first, then the authorization its operation
//! needs, then the operation with the input its payload was read into; an
//! accepted answer is kept under the syscall's idempotency key, so the
//! same syscall coming again is answered with it.
use vstd::prelude::*;
use crate::error::AgentOsError;
use crate::json::JsonValue;
use crate::approval::{Approval, SyscallEnvelope};
use crate::goals::register_goal_post;
use crate::tasks::{spawn_task_post, update_task_post, complete_task_post};
use crate::agents::spawn_agent_post;
use crate::syscall::agent_lifecycle_syscall_post;
use crate::communication::send_message_post;
use crate::blackboard::post_blackboard_post;
use crate::context::{load_context_post, invalidate_context_post, compact_context_post, propose_memory_write_post,
    commit_memory_write_post, invalidate_memory_post};
use crate::tools::{start_tool_call_post, same_descriptor, denial_recorded};
use crate::memento::{create_memento_post, arm_memento_post, consume_memento_post};
use crate::artifacts::{commit_artifact_post, attach_evidence_post, submit_final_post};
use crate::review::{request_review_post, submit_review_post, submit_verification_post, request_approval_post,
    record_approval_post};
use crate::capability::authorize_outcome;
use crate::lifecycle::ThreadLifecycle;
use crate::events::{holds_key, keeps_key, Projected};
use crate::communication::CommunicationProfile;
use crate::state::{KernelState, EventRecord, GoalRecord, TaskRecord, ThreadRecord, ArtifactRecord, EvidenceRecord};
use crate::syscall::{SyscallOp, SyscallGate, SyscallResult, SyscallStatus, op_named, needs_authorization,
    envelope_rejection, has_result, result_pos, same_result};
use crate::goals::RegisterGoalInput;
use crate::tasks::{SpawnTaskInput, UpdateTaskInput, CompleteTaskInput};
use crate::agents::{SpawnAgentInput, SpawnIds};
use crate::communication::{SendMessageInput, MessageDelivery, MessageDeliveryStatus};
use crate::blackboard::{PostBlackboardInput, BlackboardEntry};
use crate::context::{LoadContextInput, CompactContextInput, ProposeMemoryWriteInput, CommitMemoryWriteInput,
    ContextSnapshot, ContextCompaction, MemoryRecord};
use crate::tools::{ToolInvokeInput, ToolInvocation, ToolDescriptor};
use crate::memento::{CreateMementoInput, MementoFragment};
use crate::artifacts::{CommitArtifactInput, AttachEvidenceInput, FinalSubmission};
use crate::review::{RequestReviewInput, SubmitReviewInput, SubmitVerificationInput, RequestApprovalInput,
    RecordApprovalInput, Review, Verification};
use crate::lifecycle::TaskStatus;

verus! {

/// A syscall's operation with its payload read into the input the
/// operation takes, and the ids of what it will create.
#[derive(Debug)]
pub enum SyscallRequest {
    GoalRegister { input: RegisterGoalInput, goal_id: String },
    TaskSpawn { input: SpawnTaskInput, task_id: String },
    TaskUpdate(UpdateTaskInput),
    TaskBlock(UpdateTaskInput),
    TaskComplete(CompleteTaskInput),
    AgentSpawn { input: SpawnAgentInput, ids: SpawnIds },
    AgentYield,
    AgentSuspend,
    AgentResume,
    AgentFail,
    AgentComplete,
    SendMessage { input: SendMessageInput, message_id: String, audit_id: String },
    BlackboardPost { input: PostBlackboardInput, entry_id: String },
    ContextLoad { input: LoadContextInput, context_id: String },
    ContextInvalidate { context_id: String },
    ContextCommitSummary { input: CompactContextInput, compaction_id: String },
    MemoryProposeWrite { input: ProposeMemoryWriteInput, memory_id: String },
    MemoryCommitWrite(CommitMemoryWriteInput),
    MemoryInvalidate { memory_id: String },
    ToolDiscover,
    ToolInvoke { input: ToolInvokeInput, call_id: String, audit_id: String },
    MementoCreate { input: CreateMementoInput, memento_id: String },
    MementoArm { memento_id: String, content_hash: String },
    MementoConsume { memento_id: String },
    ArtifactCommit { input: CommitArtifactInput, artifact_id: String },
    EvidenceAttach { input: AttachEvidenceInput, evidence_id: String },
    ReviewRequest { input: RequestReviewInput, review_id: String },
    ReviewSubmit { input: SubmitReviewInput, finding_ids: Vec<String> },
    VerifySubmit { input: SubmitVerificationInput, verification_id: String },
    ApprovalRequest { input: RequestApprovalInput, approval_id: String },
    ApprovalRecord(RecordApprovalInput),
    FinalSubmit(FinalSubmission),
    PolicyCheck,
}

/// What an operation gave back.
#[derive(Debug)]
pub enum SyscallOutput {
    Goal(GoalRecord),
    Task(TaskRecord),
    Thread(ThreadRecord),
    Lifecycle(ThreadLifecycle),
    Message(MessageDelivery),
    BlackboardEntry(BlackboardEntry),
    Context(ContextSnapshot),
    Compaction(ContextCompaction),
    Memory(MemoryRecord),
    Tools(Vec<ToolDescriptor>),
    ToolCall(ToolInvocation),
    Memento(MementoFragment),
    Artifact(ArtifactRecord),
    Evidence(EvidenceRecord),
    Review(Review),
    Verification(Verification),
    Approval(Approval),
    FinalSubmitted,
    PolicyAllowed,
}

/// How a syscall was answered: with a result given before anything ran
/// (a rejection or a replay), or with what its operation gave back and the
/// accepted result kept as the answer to its idempotency key.
#[derive(Debug)]
pub enum SyscallStep {
    Answered(SyscallResult),
    Ran(SyscallOutput, SyscallResult),
}

/// The operation a request is for.
pub open spec fn request_op(r: SyscallRequest) -> SyscallOp {
    match r {
        SyscallRequest::GoalRegister { .. } => SyscallOp::GoalRegister,
        SyscallRequest::TaskSpawn { .. } => SyscallOp::TaskSpawn,
        SyscallRequest::TaskUpdate(_) => SyscallOp::TaskUpdate,
        SyscallRequest::TaskBlock(_) => SyscallOp::TaskBlock,
        SyscallRequest::TaskComplete(_) => SyscallOp::TaskComplete,
        SyscallRequest::AgentSpawn { .. } => SyscallOp::AgentSpawn,
        SyscallRequest::AgentYield => SyscallOp::AgentYield,
        SyscallRequest::AgentSuspend => SyscallOp::AgentSuspend,
        SyscallRequest::AgentResume => SyscallOp::AgentResume,
        SyscallRequest::AgentFail => SyscallOp::AgentFail,
        SyscallRequest::AgentComplete => SyscallOp::AgentComplete,
        SyscallRequest::SendMessage { .. } => SyscallOp::SendMessage,
        SyscallRequest::BlackboardPost { .. } => SyscallOp::BlackboardPost,
        SyscallRequest::ContextLoad { .. } => SyscallOp::ContextLoad,
        SyscallRequest::ContextInvalidate { .. } => SyscallOp::ContextInvalidate,
        SyscallRequest::ContextCommitSummary { .. } => SyscallOp::ContextCommitSummary,
        SyscallRequest::MemoryProposeWrite { .. } => SyscallOp::MemoryProposeWrite,
        SyscallRequest::MemoryCommitWrite(_) => SyscallOp::MemoryCommitWrite,
        SyscallRequest::MemoryInvalidate { .. } => SyscallOp::MemoryInvalidate,
        SyscallRequest::ToolDiscover => SyscallOp::ToolDiscover,
        SyscallRequest::ToolInvoke { .. } => SyscallOp::ToolInvoke,
        SyscallRequest::MementoCreate { .. } => SyscallOp::MementoCreate,
        SyscallRequest::MementoArm { .. } => SyscallOp::MementoArm,
        SyscallRequest::MementoConsume { .. } => SyscallOp::MementoConsume,
        SyscallRequest::ArtifactCommit { .. } => SyscallOp::ArtifactCommit,
        SyscallRequest::EvidenceAttach { .. } => SyscallOp::EvidenceAttach,
        SyscallRequest::ReviewRequest { .. } => SyscallOp::ReviewRequest,
        SyscallRequest::ReviewSubmit { .. } => SyscallOp::ReviewSubmit,
        SyscallRequest::VerifySubmit { .. } => SyscallOp::VerifySubmit,
        SyscallRequest::ApprovalRequest { .. } => SyscallOp::ApprovalRequest,
        SyscallRequest::ApprovalRecord(_) => SyscallOp::ApprovalRecord,
        SyscallRequest::FinalSubmit(_) => SyscallOp::FinalSubmit,
        SyscallRequest::PolicyCheck => SyscallOp::PolicyCheck,
    }
}

/// The ids a request creates records under are not taken yet (one id per
/// review finding), and evidence noting a stored blob has object metadata
/// to note it in.
pub open spec fn request_ready(s: KernelState, r: SyscallRequest) -> bool {
    match r {
        SyscallRequest::GoalRegister { goal_id, .. } => !crate::state::has_goal(s.goals@, goal_id@),
        SyscallRequest::TaskSpawn { task_id, .. } => !crate::state::has_task(s.tasks@, task_id@),
        SyscallRequest::AgentSpawn { ids, .. } => crate::agents::spawn_ids_fresh(s, ids),
        SyscallRequest::ContextLoad { context_id, .. } => !crate::context::has_context(s.context_snapshots@, context_id@),
        SyscallRequest::ContextCommitSummary { compaction_id, .. } => !crate::context::has_compaction(
            s.context_compactions@,
            compaction_id@,
        ),
        SyscallRequest::MemoryProposeWrite { memory_id, .. } => !crate::context::has_memory(s.memory_records@, memory_id@),
        SyscallRequest::ToolInvoke { call_id, .. } => !crate::tools::has_call(s.tool_invocations@, call_id@),
        SyscallRequest::MementoCreate { memento_id, .. } => !crate::memento::has_memento(s.mementos@, memento_id@),
        SyscallRequest::ArtifactCommit { artifact_id, .. } => !crate::state::has_artifact(s.artifacts@, artifact_id@),
        SyscallRequest::EvidenceAttach { input, evidence_id } => !crate::state::has_evidence(s.evidence@, evidence_id@)
            && crate::artifacts::notable(input.metadata, input.stored_blob),
        SyscallRequest::ReviewRequest { review_id, .. } => !crate::review::has_review(s.reviews@, review_id@),
        SyscallRequest::ReviewSubmit { input, finding_ids } => finding_ids@.len() == input.findings@.len(),
        SyscallRequest::ApprovalRequest { approval_id, .. } => !crate::state::has_approval(s.approvals@, approval_id@),
        _ => true,
    }
}

/// The agent lifecycle operations.
pub open spec fn is_lifecycle_op(op: SyscallOp) -> bool {
    matches!(op, SyscallOp::AgentYield | SyscallOp::AgentSuspend | SyscallOp::AgentResume | SyscallOp::AgentFail
        | SyscallOp::AgentComplete)
}

/// Request `req` of syscall `s` ran on state `pre` at `now` (the instant
/// `nanos`), left state `post` and gave back `res`: the named operation's
/// own contract relates them, with the operation's result carried in the
/// output of its kind. Tool discovery gives back a copy of every tool, a
/// policy check allows; neither changes the state.
pub open spec fn ran_as(
    pre: KernelState,
    post: KernelState,
    s: SyscallEnvelope,
    req: SyscallRequest,
    now: String,
    nanos: i128,
    res: Result<SyscallOutput, AgentOsError>,
) -> bool {
    match req {
        SyscallRequest::GoalRegister { input, goal_id } => match res {
            Ok(SyscallOutput::Goal(x)) => register_goal_post(pre, post, input, goal_id, now, Ok(x)),
            Err(e) => register_goal_post(pre, post, input, goal_id, now, Err(e)),
            _ => false,
        },
        SyscallRequest::TaskSpawn { input, task_id } => match res {
            Ok(SyscallOutput::Task(x)) => spawn_task_post(pre, post, input, task_id, now, Ok(x)),
            Err(e) => spawn_task_post(pre, post, input, task_id, now, Err(e)),
            _ => false,
        },
        SyscallRequest::TaskUpdate(input) => match res {
            Ok(SyscallOutput::Task(x)) => update_task_post(pre, post, input, now, Ok(x)),
            Err(e) => update_task_post(pre, post, input, now, Err(e)),
            _ => false,
        },
        SyscallRequest::TaskBlock(input) => {
            let blocked = UpdateTaskInput { status: Some(TaskStatus::Blocked), ..input };
            match res {
                Ok(SyscallOutput::Task(x)) => update_task_post(pre, post, blocked, now, Ok(x)),
                Err(e) => update_task_post(pre, post, blocked, now, Err(e)),
                _ => false,
            }
        },
        SyscallRequest::TaskComplete(input) => match res {
            Ok(SyscallOutput::Task(x)) => complete_task_post(pre, post, input, now, Ok(x)),
            Err(e) => complete_task_post(pre, post, input, now, Err(e)),
            _ => false,
        },
        SyscallRequest::AgentSpawn { input, ids } => match res {
            Ok(SyscallOutput::Thread(x)) => spawn_agent_post(pre, post, input, ids, now, Ok(x)),
            Err(e) => spawn_agent_post(pre, post, input, ids, now, Err(e)),
            _ => false,
        },
        SyscallRequest::AgentYield | SyscallRequest::AgentSuspend | SyscallRequest::AgentResume
        | SyscallRequest::AgentFail | SyscallRequest::AgentComplete => match res {
            Ok(SyscallOutput::Lifecycle(x)) => agent_lifecycle_syscall_post(pre, post, &s, request_op(req), now, nanos, Ok(x)),
            Err(e) => agent_lifecycle_syscall_post(pre, post, &s, request_op(req), now, nanos, Err(e)),
            _ => false,
        },
        SyscallRequest::SendMessage { input, message_id, audit_id } => match res {
            Ok(SyscallOutput::Message(x)) => send_message_post(pre, post, input, message_id, audit_id, now, Ok(x)),
            Err(e) => send_message_post(pre, post, input, message_id, audit_id, now, Err(e)),
            _ => false,
        },
        SyscallRequest::BlackboardPost { input, entry_id } => match res {
            Ok(SyscallOutput::BlackboardEntry(x)) => post_blackboard_post(pre, post, input, entry_id, now, Ok(x)),
            Err(e) => post_blackboard_post(pre, post, input, entry_id, now, Err(e)),
            _ => false,
        },
        SyscallRequest::ContextLoad { input, context_id } => match res {
            Ok(SyscallOutput::Context(x)) => load_context_post(pre, post, input, context_id, now, Ok(x)),
            Err(e) => load_context_post(pre, post, input, context_id, now, Err(e)),
            _ => false,
        },
        SyscallRequest::ContextInvalidate { context_id } => match res {
            Ok(SyscallOutput::Context(x)) => invalidate_context_post(pre, post, context_id@, now, Ok(x)),
            Err(e) => invalidate_context_post(pre, post, context_id@, now, Err(e)),
            _ => false,
        },
        SyscallRequest::ContextCommitSummary { input, compaction_id } => match res {
            Ok(SyscallOutput::Compaction(x)) => compact_context_post(pre, post, input, compaction_id, now, Ok(x)),
            Err(e) => compact_context_post(pre, post, input, compaction_id, now, Err(e)),
            _ => false,
        },
        SyscallRequest::MemoryProposeWrite { input, memory_id } => match res {
            Ok(SyscallOutput::Memory(x)) => propose_memory_write_post(pre, post, input, memory_id, now, Ok(x)),
            Err(e) => propose_memory_write_post(pre, post, input, memory_id, now, Err(e)),
            _ => false,
        },
        SyscallRequest::MemoryCommitWrite(input) => match res {
            Ok(SyscallOutput::Memory(x)) => commit_memory_write_post(pre, post, input, now, Ok(x)),
            Err(e) => commit_memory_write_post(pre, post, input, now, Err(e)),
            _ => false,
        },
        SyscallRequest::MemoryInvalidate { memory_id } => match res {
            Ok(SyscallOutput::Memory(x)) => invalidate_memory_post(pre, post, memory_id@, Ok(x)),
            Err(e) => invalidate_memory_post(pre, post, memory_id@, Err(e)),
            _ => false,
        },
        SyscallRequest::ToolDiscover => post == pre && match res {
            Ok(SyscallOutput::Tools(v)) => v@.len() == pre.tool_descriptors@.len() && forall|i: int|
                0 <= i < v@.len() ==> same_descriptor(pre.tool_descriptors@[i], #[trigger] v@[i]),
            _ => false,
        },
        SyscallRequest::ToolInvoke { input, call_id, .. } => match res {
            Ok(SyscallOutput::ToolCall(x)) => start_tool_call_post(pre, post, s.agent_id@, s.task_id, s.risk_level, input,
                call_id, now, Ok(x)),
            Err(e) => start_tool_call_post(pre, post, s.agent_id@, s.task_id, s.risk_level, input, call_id, now, Err(e)),
            _ => false,
        },
        SyscallRequest::MementoCreate { input, memento_id } => match res {
            Ok(SyscallOutput::Memento(x)) => create_memento_post(pre, post, input, memento_id, now, Ok(x)),
            Err(e) => create_memento_post(pre, post, input, memento_id, now, Err(e)),
            _ => false,
        },
        SyscallRequest::MementoArm { memento_id, content_hash } => match res {
            Ok(SyscallOutput::Memento(x)) => arm_memento_post(pre, post, s.agent_id@, memento_id@, content_hash, now, Ok(x)),
            Err(e) => arm_memento_post(pre, post, s.agent_id@, memento_id@, content_hash, now, Err(e)),
            _ => false,
        },
        SyscallRequest::MementoConsume { memento_id } => match res {
            Ok(SyscallOutput::Memento(x)) => consume_memento_post(pre, post, s.agent_id@, memento_id@, now, Ok(x)),
            Err(e) => consume_memento_post(pre, post, s.agent_id@, memento_id@, now, Err(e)),
            _ => false,
        },
        SyscallRequest::ArtifactCommit { input, artifact_id } => match res {
            Ok(SyscallOutput::Artifact(x)) => commit_artifact_post(pre, post, input, artifact_id, now, nanos, Ok(x)),
            Err(e) => commit_artifact_post(pre, post, input, artifact_id, now, nanos, Err(e)),
            _ => false,
        },
        SyscallRequest::EvidenceAttach { input, evidence_id } => match res {
            Ok(SyscallOutput::Evidence(x)) => attach_evidence_post(pre, post, input, evidence_id, now, Ok(x)),
            Err(e) => attach_evidence_post(pre, post, input, evidence_id, now, Err(e)),
            _ => false,
        },
        SyscallRequest::ReviewRequest { input, review_id } => match res {
            Ok(SyscallOutput::Review(x)) => request_review_post(pre, post, input, review_id, now, Ok(x)),
            Err(e) => request_review_post(pre, post, input, review_id, now, Err(e)),
            _ => false,
        },
        SyscallRequest::ReviewSubmit { input, finding_ids } => match res {
            Ok(SyscallOutput::Review(x)) => submit_review_post(pre, post, input, finding_ids, now, Ok(x)),
            Err(e) => submit_review_post(pre, post, input, finding_ids, now, Err(e)),
            _ => false,
        },
        SyscallRequest::VerifySubmit { input, verification_id } => match res {
            Ok(SyscallOutput::Verification(x)) => submit_verification_post(pre, post, input, verification_id, now, Ok(x)),
            Err(e) => submit_verification_post(pre, post, input, verification_id, now, Err(e)),
            _ => false,
        },
        SyscallRequest::ApprovalRequest { input, approval_id } => match res {
            Ok(SyscallOutput::Approval(x)) => request_approval_post(pre, post, input, approval_id, now, nanos, Ok(x)),
            Err(e) => request_approval_post(pre, post, input, approval_id, now, nanos, Err(e)),
            _ => false,
        },
        SyscallRequest::ApprovalRecord(input) => match res {
            Ok(SyscallOutput::Approval(x)) => record_approval_post(pre, post, input, now, nanos, Ok(x)),
            Err(e) => record_approval_post(pre, post, input, now, nanos, Err(e)),
            _ => false,
        },
        SyscallRequest::FinalSubmit(f) => match res {
            Ok(SyscallOutput::FinalSubmitted) => submit_final_post(pre, post, s.agent_id@, s.task_id@, f, Ok(())),
            Err(e) => submit_final_post(pre, post, s.agent_id@, s.task_id@, f, Err(e)),
            _ => false,
        },
        SyscallRequest::PolicyCheck => post == pre && res == Ok::<SyscallOutput, AgentOsError>(SyscallOutput::PolicyAllowed),
    }
}

/// The name of an output's kind.
pub open spec fn output_kind(out: SyscallOutput) -> &'static str {
    match out {
        SyscallOutput::Goal(_) => "goal",
        SyscallOutput::Task(_) => "task",
        SyscallOutput::Thread(_) => "thread",
        SyscallOutput::Lifecycle(_) => "thread_lifecycle",
        SyscallOutput::Message(_) => "message_delivery",
        SyscallOutput::BlackboardEntry(_) => "blackboard_entry",
        SyscallOutput::Context(_) => "context",
        SyscallOutput::Compaction(_) => "context_compaction",
        SyscallOutput::Memory(_) => "memory",
        SyscallOutput::Tools(_) => "tools",
        SyscallOutput::ToolCall(_) => "tool_call",
        SyscallOutput::Memento(_) => "memento",
        SyscallOutput::Artifact(_) => "artifact",
        SyscallOutput::Evidence(_) => "evidence",
        SyscallOutput::Review(_) => "review",
        SyscallOutput::Verification(_) => "verification",
        SyscallOutput::Approval(_) => "approval",
        SyscallOutput::FinalSubmitted => "final_submission",
        SyscallOutput::PolicyAllowed => "policy_decision",
    }
}

/// The id of the record an output holds, if it holds one.
pub open spec fn output_id(out: SyscallOutput) -> Option<String> {
    match out {
        SyscallOutput::Goal(x) => Some(x.goal_id),
        SyscallOutput::Task(x) => Some(x.task_id),
        SyscallOutput::Thread(x) => Some(x.lifecycle.thread_id),
        SyscallOutput::Lifecycle(x) => Some(x.thread_id),
        SyscallOutput::BlackboardEntry(x) => Some(x.entry_id),
        SyscallOutput::Context(x) => Some(x.context_id),
        SyscallOutput::Compaction(x) => Some(x.compaction_id),
        SyscallOutput::Memory(x) => Some(x.memory_id),
        SyscallOutput::ToolCall(x) => Some(x.call_id),
        SyscallOutput::Memento(x) => Some(x.memento_id),
        SyscallOutput::Artifact(x) => Some(x.artifact_id),
        SyscallOutput::Evidence(x) => Some(x.evidence_id),
        SyscallOutput::Review(x) => Some(x.review_id),
        SyscallOutput::Verification(x) => Some(x.verification_id),
        SyscallOutput::Approval(x) => Some(x.approval_id),
        _ => None,
    }
}

/// `j` is the answer an output is kept as: `{"output": kind}`, with
/// `"id": id` added when the output holds a record.
pub open spec fn is_answer_json(j: JsonValue, out: SyscallOutput) -> bool {
    match j {
        JsonValue::Object(ms) => {
            &&& ms@.len() == (if output_id(out) is Some { 2int } else { 1int })
            &&& ms@[0].0@ == "output"@
            &&& ms@[0].1 matches JsonValue::String(k) && k@ == output_kind(out)@
            &&& output_id(out) matches Some(id) ==> ms@[1].0@ == "id"@ && ms@[1].1 == JsonValue::String(id)
        },
        _ => false,
    }
}

/// `fin` is `mid` with `x`, the accepted answer to syscall `s` that gave
/// `out`, kept under the syscall's idempotency key.
/// The type of the event that an accepted run of operation `op` with
/// output `out` records; a message is recorded as delivered or rejected.
pub open spec fn logged_event_type(op: SyscallOp, out: SyscallOutput) -> Seq<char> {
    match op {
        SyscallOp::SendMessage => match out {
            SyscallOutput::Message(m) => if m.delivery_status == MessageDeliveryStatus::Delivered {
                "CommunicationMessageDelivered"@
            } else {
                "CommunicationMessageRejected"@
            },
            _ => "CommunicationMessageDelivered"@,
        },
        SyscallOp::GoalRegister => "GoalRegistered"@,
        SyscallOp::TaskSpawn => "TaskSpawned"@,
        SyscallOp::TaskUpdate => "TaskUpdated"@,
        SyscallOp::TaskBlock => "TaskUpdated"@,
        SyscallOp::TaskComplete => "TaskCompleted"@,
        SyscallOp::AgentSpawn => "ThreadConfigured"@,
        SyscallOp::AgentYield => "ThreadStatusChanged"@,
        SyscallOp::AgentSuspend => "ThreadStatusChanged"@,
        SyscallOp::AgentResume => "ThreadStatusChanged"@,
        SyscallOp::AgentFail => "ThreadStatusChanged"@,
        SyscallOp::AgentComplete => "ThreadStatusChanged"@,
        SyscallOp::BlackboardPost => "BlackboardPostSubmitted"@,
        SyscallOp::ContextLoad => "ContextLoaded"@,
        SyscallOp::ContextInvalidate => "ContextInvalidated"@,
        SyscallOp::ContextCommitSummary => "ContextCompacted"@,
        SyscallOp::MemoryProposeWrite => "MemoryWriteProposed"@,
        SyscallOp::MemoryCommitWrite => "MemoryWriteCommitted"@,
        SyscallOp::MemoryInvalidate => "MemoryInvalidated"@,
        SyscallOp::ToolDiscover => "ToolsDiscovered"@,
        SyscallOp::ToolInvoke => "ToolCallStarted"@,
        SyscallOp::MementoCreate => "MementoFragmentCreated"@,
        SyscallOp::MementoArm => "MementoFragmentArmed"@,
        SyscallOp::MementoConsume => "MementoFragmentConsumed"@,
        SyscallOp::ArtifactCommit => "ArtifactCommitted"@,
        SyscallOp::EvidenceAttach => "EvidenceAttached"@,
        SyscallOp::ReviewRequest => "ReviewRequested"@,
        SyscallOp::ReviewSubmit => "ReviewSubmitted"@,
        SyscallOp::VerifySubmit => "VerificationSubmitted"@,
        SyscallOp::ApprovalRequest => "ApprovalRequested"@,
        SyscallOp::ApprovalRecord => "ApprovalRecorded"@,
        SyscallOp::FinalSubmit => "FinalSubmitted"@,
        SyscallOp::PolicyCheck => "PolicyChecked"@,
    }
}

fn event_type_for(op: SyscallOp, out: &SyscallOutput) -> (r: &'static str)
    ensures
        r@ == logged_event_type(op, *out),
{
    match op {
        SyscallOp::SendMessage => match out {
            SyscallOutput::Message(m) => if m.delivery_status == MessageDeliveryStatus::Delivered {
                "CommunicationMessageDelivered"
            } else {
                "CommunicationMessageRejected"
            },
            _ => "CommunicationMessageDelivered",
        },
        SyscallOp::GoalRegister => "GoalRegistered",
        SyscallOp::TaskSpawn => "TaskSpawned",
        SyscallOp::TaskUpdate => "TaskUpdated",
        SyscallOp::TaskBlock => "TaskUpdated",
        SyscallOp::TaskComplete => "TaskCompleted",
        SyscallOp::AgentSpawn => "ThreadConfigured",
        SyscallOp::AgentYield => "ThreadStatusChanged",
        SyscallOp::AgentSuspend => "ThreadStatusChanged",
        SyscallOp::AgentResume => "ThreadStatusChanged",
        SyscallOp::AgentFail => "ThreadStatusChanged",
        SyscallOp::AgentComplete => "ThreadStatusChanged",
        SyscallOp::BlackboardPost => "BlackboardPostSubmitted",
        SyscallOp::ContextLoad => "ContextLoaded",
        SyscallOp::ContextInvalidate => "ContextInvalidated",
        SyscallOp::ContextCommitSummary => "ContextCompacted",
        SyscallOp::MemoryProposeWrite => "MemoryWriteProposed",
        SyscallOp::MemoryCommitWrite => "MemoryWriteCommitted",
        SyscallOp::MemoryInvalidate => "MemoryInvalidated",
        SyscallOp::ToolDiscover => "ToolsDiscovered",
        SyscallOp::ToolInvoke => "ToolCallStarted",
        SyscallOp::MementoCreate => "MementoFragmentCreated",
        SyscallOp::MementoArm => "MementoFragmentArmed",
        SyscallOp::MementoConsume => "MementoFragmentConsumed",
        SyscallOp::ArtifactCommit => "ArtifactCommitted",
        SyscallOp::EvidenceAttach => "EvidenceAttached",
        SyscallOp::ReviewRequest => "ReviewRequested",
        SyscallOp::ReviewSubmit => "ReviewSubmitted",
        SyscallOp::VerifySubmit => "VerificationSubmitted",
        SyscallOp::ApprovalRequest => "ApprovalRequested",
        SyscallOp::ApprovalRecord => "ApprovalRecorded",
        SyscallOp::FinalSubmit => "FinalSubmitted",
        SyscallOp::PolicyCheck => "PolicyChecked",
    }
}

/// The state `fin` keeps the accepted answer `x` to syscall `s` (operation
/// `op`, output `out`) under its idempotency key, the answer naming event
/// `event_id`, and logs that event at `now`; nothing else changes from `mid`.
pub open spec fn kept_answer(
    mid: KernelState,
    fin: KernelState,
    s: SyscallEnvelope,
    op: SyscallOp,
    out: SyscallOutput,
    x: SyscallResult,
    event_id: String,
    now: String,
) -> bool {
    let ev = fin.event_log@.last();
    &&& x.syscall_id == s.syscall_id
    &&& x.status == SyscallStatus::Accepted
    &&& x.reason is None
    &&& x.event_ids@ == seq![event_id]
    &&& is_answer_json(x.output, out)
    &&& has_result(fin.syscall_results@, s.idempotency_key@)
    &&& same_result(x, fin.syscall_results@[result_pos(fin.syscall_results@, s.idempotency_key@)].1)
    &&& fin.event_log@ == mid.event_log@.push(ev)
    &&& ev.event_id == event_id
    &&& ev.event_type@ == logged_event_type(op, out)
    &&& ev.syscall_id == s.syscall_id
    &&& ev.agent_id == s.agent_id
    &&& ev.task_id == s.task_id
    &&& ev.recorded_at == now
    &&& fin == (KernelState { syscall_results: fin.syscall_results, event_log: fin.event_log, ..mid })
}

fn output_kind_of(out: &SyscallOutput) -> (r: &'static str)
    ensures
        r == output_kind(*out),
{
    match out {
        SyscallOutput::Goal(_) => "goal",
        SyscallOutput::Task(_) => "task",
        SyscallOutput::Thread(_) => "thread",
        SyscallOutput::Lifecycle(_) => "thread_lifecycle",
        SyscallOutput::Message(_) => "message_delivery",
        SyscallOutput::BlackboardEntry(_) => "blackboard_entry",
        SyscallOutput::Context(_) => "context",
        SyscallOutput::Compaction(_) => "context_compaction",
        SyscallOutput::Memory(_) => "memory",
        SyscallOutput::Tools(_) => "tools",
        SyscallOutput::ToolCall(_) => "tool_call",
        SyscallOutput::Memento(_) => "memento",
        SyscallOutput::Artifact(_) => "artifact",
        SyscallOutput::Evidence(_) => "evidence",
        SyscallOutput::Review(_) => "review",
        SyscallOutput::Verification(_) => "verification",
        SyscallOutput::Approval(_) => "approval",
        SyscallOutput::FinalSubmitted => "final_submission",
        SyscallOutput::PolicyAllowed => "policy_decision",
    }
}

fn output_id_of(out: &SyscallOutput) -> (r: Option<String>)
    ensures
        r == output_id(*out),
{
    match out {
        SyscallOutput::Goal(x) => Some(x.goal_id.clone()),
        SyscallOutput::Task(x) => Some(x.task_id.clone()),
        SyscallOutput::Thread(x) => Some(x.lifecycle.thread_id.clone()),
        SyscallOutput::Lifecycle(x) => Some(x.thread_id.clone()),
        SyscallOutput::BlackboardEntry(x) => Some(x.entry_id.clone()),
        SyscallOutput::Context(x) => Some(x.context_id.clone()),
        SyscallOutput::Compaction(x) => Some(x.compaction_id.clone()),
        SyscallOutput::Memory(x) => Some(x.memory_id.clone()),
        SyscallOutput::ToolCall(x) => Some(x.call_id.clone()),
        SyscallOutput::Memento(x) => Some(x.memento_id.clone()),
        SyscallOutput::Artifact(x) => Some(x.artifact_id.clone()),
        SyscallOutput::Evidence(x) => Some(x.evidence_id.clone()),
        SyscallOutput::Review(x) => Some(x.review_id.clone()),
        SyscallOutput::Verification(x) => Some(x.verification_id.clone()),
        SyscallOutput::Approval(x) => Some(x.approval_id.clone()),
        _ => None,
    }
}

/// The answer output `out` is kept as.
pub fn answer_json(out: &SyscallOutput) -> (j: JsonValue)
    ensures
        is_answer_json(j, *out),
{
    let mut ms: Vec<(String, JsonValue)> = Vec::new();
    ms.push((String::from_str("output"), JsonValue::String(String::from_str(output_kind_of(out)))));
    match output_id_of(out) {
        Some(id) => ms.push((String::from_str("id"), JsonValue::String(id))),
        None => {},
    }
    JsonValue::Object(ms)
}

impl KernelState {
    fn discover_tools(&self) -> (r: Vec<ToolDescriptor>)
        ensures
            r@.len() == self.tool_descriptors@.len(),
            forall|i: int| 0 <= i < r@.len() ==> same_descriptor(self.tool_descriptors@[i], #[trigger] r@[i]),
    {
        let mut out: Vec<ToolDescriptor> = Vec::new();
        let mut i: usize = 0;
        while i < self.tool_descriptors.len()
            invariant
                i <= self.tool_descriptors@.len(),
                out@.len() == i,
                forall|j: int| 0 <= j < i ==> same_descriptor(self.tool_descriptors@[j], #[trigger] out@[j]),
            decreases self.tool_descriptors@.len() - i,
        {
            out.push(self.tool_descriptors[i].duplicate());
            i = i + 1;
        }
        out
    }

    /// Runs the operation request `request` names, on its input and ids,
    /// for syscall `s` at `now` (the instant `now_unix_nanos`); an agent
    /// lifecycle operation authorizes the syscall itself.
    fn run_request(&mut self, s: &SyscallEnvelope, request: SyscallRequest, now: String, now_unix_nanos: i128) -> (r: Result<
        SyscallOutput,
        AgentOsError,
    >)
        requires
            old(self).wf(),
            request_ready(*old(self), request),
        ensures
            final(self).wf(),
            ran_as(*old(self), *final(self), *s, request, now, now_unix_nanos, r),
    {
        match request {
            SyscallRequest::GoalRegister { input, goal_id } => match self.register_goal(input, goal_id, now) {
                Err(e) => Err(e),
                Ok(x) => Ok(SyscallOutput::Goal(x)),
            },
            SyscallRequest::TaskSpawn { input, task_id } => match self.spawn_task(input, task_id, now) {
                Err(e) => Err(e),
                Ok(x) => Ok(SyscallOutput::Task(x)),
            },
            SyscallRequest::TaskUpdate(input) => match self.update_task(input, now) {
                Err(e) => Err(e),
                Ok(x) => Ok(SyscallOutput::Task(x)),
            },
            SyscallRequest::TaskBlock(input) => {
                let blocked = UpdateTaskInput { status: Some(TaskStatus::Blocked), ..input };
                match self.update_task(blocked, now) {
                    Err(e) => Err(e),
                    Ok(x) => Ok(SyscallOutput::Task(x)),
                }
            },
            SyscallRequest::TaskComplete(input) => match self.complete_task(input, now) {
                Err(e) => Err(e),
                Ok(x) => Ok(SyscallOutput::Task(x)),
            },
            SyscallRequest::AgentSpawn { input, ids } => match self.spawn_agent(input, ids, now) {
                Err(e) => Err(e),
                Ok(x) => Ok(SyscallOutput::Thread(x)),
            },
            SyscallRequest::AgentYield => match self.agent_lifecycle_syscall(s, SyscallOp::AgentYield, now, now_unix_nanos) {
                Err(e) => Err(e),
                Ok(x) => Ok(SyscallOutput::Lifecycle(x)),
            },
            SyscallRequest::AgentSuspend => match self.agent_lifecycle_syscall(s, SyscallOp::AgentSuspend, now, now_unix_nanos) {
                Err(e) => Err(e),
                Ok(x) => Ok(SyscallOutput::Lifecycle(x)),
            },
            SyscallRequest::AgentResume => match self.agent_lifecycle_syscall(s, SyscallOp::AgentResume, now, now_unix_nanos) {
                Err(e) => Err(e),
                Ok(x) => Ok(SyscallOutput::Lifecycle(x)),
            },
            SyscallRequest::AgentFail => match self.agent_lifecycle_syscall(s, SyscallOp::AgentFail, now, now_unix_nanos) {
                Err(e) => Err(e),
                Ok(x) => Ok(SyscallOutput::Lifecycle(x)),
            },
            SyscallRequest::AgentComplete => match self.agent_lifecycle_syscall(s, SyscallOp::AgentComplete, now, now_unix_nanos) {
                Err(e) => Err(e),
                Ok(x) => Ok(SyscallOutput::Lifecycle(x)),
            },
            SyscallRequest::SendMessage { input, message_id, audit_id } => match self.send_message(input, message_id, audit_id, now) {
                Err(e) => Err(e),
                Ok(x) => Ok(SyscallOutput::Message(x)),
            },
            SyscallRequest::BlackboardPost { input, entry_id } => match self.post_blackboard(input, entry_id, now) {
                Err(e) => Err(e),
                Ok(x) => Ok(SyscallOutput::BlackboardEntry(x)),
            },
            SyscallRequest::ContextLoad { input, context_id } => match self.load_context(input, context_id, now) {
                Err(e) => Err(e),
                Ok(x) => Ok(SyscallOutput::Context(x)),
            },
            SyscallRequest::ContextInvalidate { context_id } => match self.invalidate_context(context_id.as_str(), now) {
                Err(e) => Err(e),
                Ok(x) => Ok(SyscallOutput::Context(x)),
            },
            SyscallRequest::ContextCommitSummary { input, compaction_id } => match self.compact_context(input, compaction_id, now) {
                Err(e) => Err(e),
                Ok(x) => Ok(SyscallOutput::Compaction(x)),
            },
            SyscallRequest::MemoryProposeWrite { input, memory_id } => match self.propose_memory_write(input, memory_id, now) {
                Err(e) => Err(e),
                Ok(x) => Ok(SyscallOutput::Memory(x)),
            },
            SyscallRequest::MemoryCommitWrite(input) => match self.commit_memory_write(input, now) {
                Err(e) => Err(e),
                Ok(x) => Ok(SyscallOutput::Memory(x)),
            },
            SyscallRequest::MemoryInvalidate { memory_id } => match self.invalidate_memory(memory_id.as_str()) {
                Err(e) => Err(e),
                Ok(x) => Ok(SyscallOutput::Memory(x)),
            },
            SyscallRequest::ToolDiscover => Ok(SyscallOutput::Tools(self.discover_tools())),
            SyscallRequest::ToolInvoke { input, call_id, .. } => match self.start_tool_call(
                s.agent_id.as_str(),
                s.task_id.clone(),
                s.risk_level,
                input,
                call_id,
                now,
            ) {
                Err(e) => Err(e),
                Ok(x) => Ok(SyscallOutput::ToolCall(x)),
            },
            SyscallRequest::MementoCreate { input, memento_id } => match self.create_memento(input, memento_id, now) {
                Err(e) => Err(e),
                Ok(x) => Ok(SyscallOutput::Memento(x)),
            },
            SyscallRequest::MementoArm { memento_id, content_hash } => match self.arm_memento(
                s.agent_id.as_str(),
                memento_id.as_str(),
                content_hash,
                now,
            ) {
                Err(e) => Err(e),
                Ok(x) => Ok(SyscallOutput::Memento(x)),
            },
            SyscallRequest::MementoConsume { memento_id } => match self.consume_memento(s.agent_id.as_str(), memento_id.as_str(), now) {
                Err(e) => Err(e),
                Ok(x) => Ok(SyscallOutput::Memento(x)),
            },
            SyscallRequest::ArtifactCommit { input, artifact_id } => match self.commit_artifact(input, artifact_id, now, now_unix_nanos) {
                Err(e) => Err(e),
                Ok(x) => Ok(SyscallOutput::Artifact(x)),
            },
            SyscallRequest::EvidenceAttach { input, evidence_id } => match self.attach_evidence(input, evidence_id, now) {
                Err(e) => Err(e),
                Ok(x) => Ok(SyscallOutput::Evidence(x)),
            },
            SyscallRequest::ReviewRequest { input, review_id } => match self.request_review(input, review_id, now) {
                Err(e) => Err(e),
                Ok(x) => Ok(SyscallOutput::Review(x)),
            },
            SyscallRequest::ReviewSubmit { input, finding_ids } => match self.submit_review(input, finding_ids, now) {
                Err(e) => Err(e),
                Ok(x) => Ok(SyscallOutput::Review(x)),
            },
            SyscallRequest::VerifySubmit { input, verification_id } => match self.submit_verification(input, verification_id, now) {
                Err(e) => Err(e),
                Ok(x) => Ok(SyscallOutput::Verification(x)),
            },
            SyscallRequest::ApprovalRequest { input, approval_id } => match self.request_approval(input, approval_id, now, now_unix_nanos) {
                Err(e) => Err(e),
                Ok(x) => Ok(SyscallOutput::Approval(x)),
            },
            SyscallRequest::ApprovalRecord(input) => match self.record_approval(input, now, now_unix_nanos) {
                Err(e) => Err(e),
                Ok(x) => Ok(SyscallOutput::Approval(x)),
            },
            SyscallRequest::FinalSubmit(submission) => match self.submit_final(s.agent_id.as_str(), s.task_id.as_str(), submission) {
                Err(e) => Err(e),
                Ok(()) => Ok(SyscallOutput::FinalSubmitted),
            },
            SyscallRequest::PolicyCheck => Ok(SyscallOutput::PolicyAllowed),
        }
    }

    /// Runs syscall `s`, whose payload was read into `request`, for a kernel
    /// that supports ABI version `supported_abi`, at `now` (the instant
    /// `now_unix_nanos`). The admission checks answer first: a rejection, or
    /// the answer kept for the syscall's idempotency key, is given back with
    /// nothing changed, and an unknown type is a `Validation` error. A
    /// request for another operation than the syscall names is a
    /// `Validation` error. An operation that needs authorization runs only
    /// when the syscall is authorized: a refusal stands and changes
    /// nothing, except that a refused call of a known tool is kept as
    /// denied, with a Deny audit record and a ToolCallDenied log entry. Then the named operation runs on the request's input and
    /// ids as its own contract says (`ran_as`); a refusal is returned with
    /// the state the operation left, and an accepted run is logged as event
    /// `event_id` and kept as the answer to the syscall's idempotency key,
    /// so the same syscall coming again is answered with it, does not run
    /// again and logs nothing.
    pub fn handle_syscall(
        &mut self,
        s: &SyscallEnvelope,
        supported_abi: &str,
        request: SyscallRequest,
        now: String,
        now_unix_nanos: i128,
        event_id: String,
    ) -> (r: Result<SyscallStep, AgentOsError>)
        requires
            old(self).wf(),
            request_ready(*old(self), request),
        ensures
            final(self).wf(),
            envelope_rejection(*s, supported_abi@) matches Some(m) ==> (r matches Ok(SyscallStep::Answered(x))
                && x.syscall_id == s.syscall_id && x.status == SyscallStatus::Rejected && x.reason == Some(m)
                && x.event_ids@.len() == 0 && x.output is Null && *final(self) == *old(self)),
            envelope_rejection(*s, supported_abi@) is None && has_result(old(self).syscall_results@, s.idempotency_key@)
                ==> (r matches Ok(SyscallStep::Answered(x)) && same_result(
                old(self).syscall_results@[result_pos(old(self).syscall_results@, s.idempotency_key@)].1,
                x,
            ) && *final(self) == *old(self)),
            envelope_rejection(*s, supported_abi@) is None && !has_result(old(self).syscall_results@, s.idempotency_key@)
                ==> match op_named(s.syscall_type@) {
                None => r == Err::<SyscallStep, AgentOsError>(AgentOsError::Validation("unknown syscall op"))
                    && *final(self) == *old(self),
                Some(op) => if request_op(request) != op {
                    r == Err::<SyscallStep, AgentOsError>(AgentOsError::Validation("syscall payload does not match its op"))
                        && *final(self) == *old(self)
                } else if needs_authorization(op) && authorize_outcome(*old(self), *s, now_unix_nanos) is Err {
                    r == Err::<SyscallStep, AgentOsError>(authorize_outcome(*old(self), *s, now_unix_nanos)->Err_0)
                        && match request {
                        SyscallRequest::ToolInvoke { input, call_id, audit_id } => denial_recorded(
                            *old(self),
                            *final(self),
                            *s,
                            input,
                            call_id,
                            audit_id,
                            event_id,
                            authorize_outcome(*old(self), *s, now_unix_nanos)->Err_0,
                            now,
                        ),
                        _ => *final(self) == *old(self),
                    }
                } else {
                    exists|mid: KernelState, res: Result<SyscallOutput, AgentOsError>|
                        #[trigger] ran_as(*old(self), mid, *s, request, now, now_unix_nanos, res) && match res {
                            Err(e) => r == Err::<SyscallStep, AgentOsError>(e) && *final(self) == mid,
                            Ok(out) => r matches Ok(SyscallStep::Ran(o, x)) && o == out && kept_answer(
                                mid,
                                *final(self),
                                *s,
                                op,
                                out,
                                x,
                                event_id,
                                now,
                            ),
                        }
                },
            },
    {
        let op = match self.syscall_gate(s, supported_abi) {
            Err(e) => return Err(e),
            Ok(SyscallGate::Rejected(x)) => return Ok(SyscallStep::Answered(x)),
            Ok(SyscallGate::Replayed(x)) => return Ok(SyscallStep::Answered(x)),
            Ok(SyscallGate::Dispatch(op)) => op,
        };
        let asked = match &request {
            SyscallRequest::GoalRegister { .. } => SyscallOp::GoalRegister,
            SyscallRequest::TaskSpawn { .. } => SyscallOp::TaskSpawn,
            SyscallRequest::TaskUpdate(_) => SyscallOp::TaskUpdate,
            SyscallRequest::TaskBlock(_) => SyscallOp::TaskBlock,
            SyscallRequest::TaskComplete(_) => SyscallOp::TaskComplete,
            SyscallRequest::AgentSpawn { .. } => SyscallOp::AgentSpawn,
            SyscallRequest::AgentYield => SyscallOp::AgentYield,
            SyscallRequest::AgentSuspend => SyscallOp::AgentSuspend,
            SyscallRequest::AgentResume => SyscallOp::AgentResume,
            SyscallRequest::AgentFail => SyscallOp::AgentFail,
            SyscallRequest::AgentComplete => SyscallOp::AgentComplete,
            SyscallRequest::SendMessage { .. } => SyscallOp::SendMessage,
            SyscallRequest::BlackboardPost { .. } => SyscallOp::BlackboardPost,
            SyscallRequest::ContextLoad { .. } => SyscallOp::ContextLoad,
            SyscallRequest::ContextInvalidate { .. } => SyscallOp::ContextInvalidate,
            SyscallRequest::ContextCommitSummary { .. } => SyscallOp::ContextCommitSummary,
            SyscallRequest::MemoryProposeWrite { .. } => SyscallOp::MemoryProposeWrite,
            SyscallRequest::MemoryCommitWrite(_) => SyscallOp::MemoryCommitWrite,
            SyscallRequest::MemoryInvalidate { .. } => SyscallOp::MemoryInvalidate,
            SyscallRequest::ToolDiscover => SyscallOp::ToolDiscover,
            SyscallRequest::ToolInvoke { .. } => SyscallOp::ToolInvoke,
            SyscallRequest::MementoCreate { .. } => SyscallOp::MementoCreate,
            SyscallRequest::MementoArm { .. } => SyscallOp::MementoArm,
            SyscallRequest::MementoConsume { .. } => SyscallOp::MementoConsume,
            SyscallRequest::ArtifactCommit { .. } => SyscallOp::ArtifactCommit,
            SyscallRequest::EvidenceAttach { .. } => SyscallOp::EvidenceAttach,
            SyscallRequest::ReviewRequest { .. } => SyscallOp::ReviewRequest,
            SyscallRequest::ReviewSubmit { .. } => SyscallOp::ReviewSubmit,
            SyscallRequest::VerifySubmit { .. } => SyscallOp::VerifySubmit,
            SyscallRequest::ApprovalRequest { .. } => SyscallOp::ApprovalRequest,
            SyscallRequest::ApprovalRecord(_) => SyscallOp::ApprovalRecord,
            SyscallRequest::FinalSubmit(_) => SyscallOp::FinalSubmit,
            SyscallRequest::PolicyCheck => SyscallOp::PolicyCheck,
        };
        if asked != op {
            return Err(AgentOsError::Validation("syscall payload does not match its op"));
        }
        let lifecycle = matches!(op, SyscallOp::AgentYield | SyscallOp::AgentSuspend | SyscallOp::AgentResume
            | SyscallOp::AgentFail | SyscallOp::AgentComplete);
        if !lifecycle && crate::syscall::op_needs_authorization(op) {
            match self.authorize(s, now_unix_nanos) {
                Err(e) => {
                    match request {
                        SyscallRequest::ToolInvoke { input, call_id, audit_id } => {
                            self.record_denied_tool_call(s, input, call_id, audit_id, event_id, &e, now);
                        },
                        _ => {},
                    }
                    return Err(e);
                },
                Ok(()) => {},
            }
        }
        let ghost pre = *self;
        let ghost req = request;
        let recorded_at = now.clone();
        let res = self.run_request(s, request, now, now_unix_nanos);
        let ghost mid = *self;
        match res {
            Err(e) => {
                assert(ran_as(pre, mid, *s, req, now, now_unix_nanos, Err(e)));
                Err(e)
            },
            Ok(out) => {
                let event_type = event_type_for(op, &out);
                let mut event_ids: Vec<String> = Vec::new();
                event_ids.push(event_id.clone());
                assert(event_ids@ =~= seq![event_id]);
                let x = SyscallResult::accepted(s.syscall_id.clone(), event_ids, answer_json(&out));
                let kept = x.duplicate();
                self.event_log.push(EventRecord {
                    event_id,
                    event_type,
                    syscall_id: s.syscall_id.clone(),
                    agent_id: s.agent_id.clone(),
                    task_id: s.task_id.clone(),
                    recorded_at,
                });
                let ghost logged = *self;
                self.keep_syscall_result(s.idempotency_key.clone(), kept);
                proof {
                    assert(ran_as(pre, mid, *s, req, now, now_unix_nanos, Ok(out)));
                    assert(self.event_log@ == logged.event_log@);
                    assert(kept_answer(mid, *self, *s, op, out, x, event_id, now));
                }
                Ok(SyscallStep::Ran(out, x))
            },
        }
    }
}

/// A syscall accepted once is answered the same when it comes again: its
/// answer is kept under its idempotency key, which is exactly what
/// `handle_syscall` gives back, without running anything or logging an
/// event, for a syscall with that key that passes the admission checks;
/// the accepted run itself logged exactly one event, the one its answer
/// names.
pub proof fn law_accepted_syscall_is_replayed(
    mid: KernelState,
    fin: KernelState,
    s: SyscallEnvelope,
    op: SyscallOp,
    out: SyscallOutput,
    x: SyscallResult,
    event_id: String,
    now: String,
)
    requires
        kept_answer(mid, fin, s, op, out, x, event_id, now),
    ensures
        fin.event_log@.len() == mid.event_log@.len() + 1,
        fin.event_log@.last().event_id == event_id,
        has_result(fin.syscall_results@, s.idempotency_key@),
        same_result(x, fin.syscall_results@[result_pos(fin.syscall_results@, s.idempotency_key@)].1),
        fin.syscall_results@[result_pos(fin.syscall_results@, s.idempotency_key@)].1.status == SyscallStatus::Accepted,
        fin.syscall_results@[result_pos(fin.syscall_results@, s.idempotency_key@)].1.syscall_id == s.syscall_id,
{
}

proof fn lemma_keeps_key_goals(v: Seq<GoalRecord>, k: Seq<char>)
    ensures
        keeps_key(v, k) == crate::state::has_goal(v, k),
{
    if keeps_key(v, k) {
        let i = choose|i: int| 0 <= i < v.len() && #[trigger] v[i].key_of() == k;
        assert(v[i].goal_id@ == k);
    }
    if crate::state::has_goal(v, k) {
        let i = choose|i: int| 0 <= i < v.len() && v[i].goal_id@ == k;
        assert(v[i].key_of() == k);
    }
}

proof fn lemma_keeps_key_tasks(v: Seq<TaskRecord>, k: Seq<char>)
    ensures
        keeps_key(v, k) == crate::state::has_task(v, k),
{
    if keeps_key(v, k) {
        let i = choose|i: int| 0 <= i < v.len() && #[trigger] v[i].key_of() == k;
        assert(v[i].task_id@ == k);
    }
    if crate::state::has_task(v, k) {
        let i = choose|i: int| 0 <= i < v.len() && v[i].task_id@ == k;
        assert(v[i].key_of() == k);
    }
}

proof fn lemma_keeps_key_threads(v: Seq<ThreadRecord>, k: Seq<char>)
    ensures
        keeps_key(v, k) == crate::state::has_thread(v, k),
{
    if keeps_key(v, k) {
        let i = choose|i: int| 0 <= i < v.len() && #[trigger] v[i].key_of() == k;
        assert(v[i].lifecycle.thread_id@ == k);
    }
    if crate::state::has_thread(v, k) {
        let i = choose|i: int| 0 <= i < v.len() && v[i].lifecycle.thread_id@ == k;
        assert(v[i].key_of() == k);
    }
}

proof fn lemma_keeps_key_invocations(v: Seq<crate::agents::AgentInvocation>, k: Seq<char>)
    ensures
        keeps_key(v, k) == crate::agents::has_invocation(v, k),
{
    if keeps_key(v, k) {
        let i = choose|i: int| 0 <= i < v.len() && #[trigger] v[i].key_of() == k;
        assert(v[i].invocation_id@ == k);
    }
    if crate::agents::has_invocation(v, k) {
        let i = choose|i: int| 0 <= i < v.len() && v[i].invocation_id@ == k;
        assert(v[i].key_of() == k);
    }
}

proof fn lemma_keeps_key_communication_profiles(v: Seq<CommunicationProfile>, k: Seq<char>)
    ensures
        keeps_key(v, k) == crate::state::has_comm_profile(v, k),
{
    if keeps_key(v, k) {
        let i = choose|i: int| 0 <= i < v.len() && #[trigger] v[i].key_of() == k;
        assert(v[i].communication_profile_id@ == k);
    }
    if crate::state::has_comm_profile(v, k) {
        let i = choose|i: int| 0 <= i < v.len() && v[i].communication_profile_id@ == k;
        assert(v[i].key_of() == k);
    }
}

proof fn lemma_keeps_key_context_snapshots(v: Seq<ContextSnapshot>, k: Seq<char>)
    ensures
        keeps_key(v, k) == crate::context::has_context(v, k),
{
    if keeps_key(v, k) {
        let i = choose|i: int| 0 <= i < v.len() && #[trigger] v[i].key_of() == k;
        assert(v[i].context_id@ == k);
    }
    if crate::context::has_context(v, k) {
        let i = choose|i: int| 0 <= i < v.len() && v[i].context_id@ == k;
        assert(v[i].key_of() == k);
    }
}

proof fn lemma_keeps_key_context_compactions(v: Seq<ContextCompaction>, k: Seq<char>)
    ensures
        keeps_key(v, k) == crate::context::has_compaction(v, k),
{
    if keeps_key(v, k) {
        let i = choose|i: int| 0 <= i < v.len() && #[trigger] v[i].key_of() == k;
        assert(v[i].compaction_id@ == k);
    }
    if crate::context::has_compaction(v, k) {
        let i = choose|i: int| 0 <= i < v.len() && v[i].compaction_id@ == k;
        assert(v[i].key_of() == k);
    }
}

proof fn lemma_keeps_key_memory_records(v: Seq<MemoryRecord>, k: Seq<char>)
    ensures
        keeps_key(v, k) == crate::context::has_memory(v, k),
{
    if keeps_key(v, k) {
        let i = choose|i: int| 0 <= i < v.len() && #[trigger] v[i].key_of() == k;
        assert(v[i].memory_id@ == k);
    }
    if crate::context::has_memory(v, k) {
        let i = choose|i: int| 0 <= i < v.len() && v[i].memory_id@ == k;
        assert(v[i].key_of() == k);
    }
}

proof fn lemma_keeps_key_tool_invocations(v: Seq<ToolInvocation>, k: Seq<char>)
    ensures
        keeps_key(v, k) == crate::tools::has_call(v, k),
{
    if keeps_key(v, k) {
        let i = choose|i: int| 0 <= i < v.len() && #[trigger] v[i].key_of() == k;
        assert(v[i].call_id@ == k);
    }
    if crate::tools::has_call(v, k) {
        let i = choose|i: int| 0 <= i < v.len() && v[i].call_id@ == k;
        assert(v[i].key_of() == k);
    }
}

proof fn lemma_keeps_key_mementos(v: Seq<MementoFragment>, k: Seq<char>)
    ensures
        keeps_key(v, k) == crate::memento::has_memento(v, k),
{
    if keeps_key(v, k) {
        let i = choose|i: int| 0 <= i < v.len() && #[trigger] v[i].key_of() == k;
        assert(v[i].memento_id@ == k);
    }
    if crate::memento::has_memento(v, k) {
        let i = choose|i: int| 0 <= i < v.len() && v[i].memento_id@ == k;
        assert(v[i].key_of() == k);
    }
}

proof fn lemma_keeps_key_artifacts(v: Seq<ArtifactRecord>, k: Seq<char>)
    ensures
        keeps_key(v, k) == crate::state::has_artifact(v, k),
{
    if keeps_key(v, k) {
        let i = choose|i: int| 0 <= i < v.len() && #[trigger] v[i].key_of() == k;
        assert(v[i].artifact_id@ == k);
    }
    if crate::state::has_artifact(v, k) {
        let i = choose|i: int| 0 <= i < v.len() && v[i].artifact_id@ == k;
        assert(v[i].key_of() == k);
    }
}

proof fn lemma_keeps_key_evidence(v: Seq<EvidenceRecord>, k: Seq<char>)
    ensures
        keeps_key(v, k) == crate::state::has_evidence(v, k),
{
    if keeps_key(v, k) {
        let i = choose|i: int| 0 <= i < v.len() && #[trigger] v[i].key_of() == k;
        assert(v[i].evidence_id@ == k);
    }
    if crate::state::has_evidence(v, k) {
        let i = choose|i: int| 0 <= i < v.len() && v[i].evidence_id@ == k;
        assert(v[i].key_of() == k);
    }
}

proof fn lemma_keeps_key_reviews(v: Seq<Review>, k: Seq<char>)
    ensures
        keeps_key(v, k) == crate::review::has_review(v, k),
{
    if keeps_key(v, k) {
        let i = choose|i: int| 0 <= i < v.len() && #[trigger] v[i].key_of() == k;
        assert(v[i].review_id@ == k);
    }
    if crate::review::has_review(v, k) {
        let i = choose|i: int| 0 <= i < v.len() && v[i].review_id@ == k;
        assert(v[i].key_of() == k);
    }
}

proof fn lemma_keeps_key_approvals(v: Seq<Approval>, k: Seq<char>)
    ensures
        keeps_key(v, k) == crate::state::has_approval(v, k),
{
    if keeps_key(v, k) {
        let i = choose|i: int| 0 <= i < v.len() && #[trigger] v[i].key_of() == k;
        assert(v[i].approval_id@ == k);
    }
    if crate::state::has_approval(v, k) {
        let i = choose|i: int| 0 <= i < v.len() && v[i].approval_id@ == k;
        assert(v[i].key_of() == k);
    }
}

impl KernelState {
    /// Whether `request` may run on this state: the ids it would create
    /// records under are free, a review submission names one id per
    /// finding, and evidence that stores a blob has object metadata or none.
    pub fn request_is_ready(&self, request: &SyscallRequest) -> (r: bool)
        ensures
            r == request_ready(*self, *request),
    {
        match request {
            SyscallRequest::GoalRegister { goal_id, .. } => {
                let r = !holds_key(&self.goals, goal_id.as_str());
                proof {
                    lemma_keeps_key_goals(self.goals@, goal_id@);
                }
                r
            },
            SyscallRequest::TaskSpawn { task_id, .. } => {
                let r = !holds_key(&self.tasks, task_id.as_str());
                proof {
                    lemma_keeps_key_tasks(self.tasks@, task_id@);
                }
                r
            },
            SyscallRequest::AgentSpawn { ids, .. } => {
                let r = !holds_key(&self.threads, ids.thread_id.as_str())
                    && !holds_key(&self.communication_profiles, ids.communication_profile_id.as_str())
                    && !holds_key(&self.invocations, ids.invocation_id.as_str());
                proof {
                    lemma_keeps_key_threads(self.threads@, ids.thread_id@);
                    lemma_keeps_key_communication_profiles(self.communication_profiles@, ids.communication_profile_id@);
                    lemma_keeps_key_invocations(self.invocations@, ids.invocation_id@);
                }
                r
            },
            SyscallRequest::ContextLoad { context_id, .. } => {
                let r = !holds_key(&self.context_snapshots, context_id.as_str());
                proof {
                    lemma_keeps_key_context_snapshots(self.context_snapshots@, context_id@);
                }
                r
            },
            SyscallRequest::ContextCommitSummary { compaction_id, .. } => {
                let r = !holds_key(&self.context_compactions, compaction_id.as_str());
                proof {
                    lemma_keeps_key_context_compactions(self.context_compactions@, compaction_id@);
                }
                r
            },
            SyscallRequest::MemoryProposeWrite { memory_id, .. } => {
                let r = !holds_key(&self.memory_records, memory_id.as_str());
                proof {
                    lemma_keeps_key_memory_records(self.memory_records@, memory_id@);
                }
                r
            },
            SyscallRequest::ToolInvoke { call_id, .. } => {
                let r = !holds_key(&self.tool_invocations, call_id.as_str());
                proof {
                    lemma_keeps_key_tool_invocations(self.tool_invocations@, call_id@);
                }
                r
            },
            SyscallRequest::MementoCreate { memento_id, .. } => {
                let r = !holds_key(&self.mementos, memento_id.as_str());
                proof {
                    lemma_keeps_key_mementos(self.mementos@, memento_id@);
                }
                r
            },
            SyscallRequest::ArtifactCommit { artifact_id, .. } => {
                let r = !holds_key(&self.artifacts, artifact_id.as_str());
                proof {
                    lemma_keeps_key_artifacts(self.artifacts@, artifact_id@);
                }
                r
            },
            SyscallRequest::EvidenceAttach { input, evidence_id } => {
                let stores_blob = match &input.stored_blob {
                    Some(_) => true,
                    None => false,
                };
                let object_or_null = match &input.metadata {
                    JsonValue::Object(_) => true,
                    JsonValue::Null => true,
                    _ => false,
                };
                let r = !holds_key(&self.evidence, evidence_id.as_str()) && (!stores_blob || object_or_null);
                proof {
                    lemma_keeps_key_evidence(self.evidence@, evidence_id@);
                }
                r
            },
            SyscallRequest::ReviewRequest { review_id, .. } => {
                let r = !holds_key(&self.reviews, review_id.as_str());
                proof {
                    lemma_keeps_key_reviews(self.reviews@, review_id@);
                }
                r
            },
            SyscallRequest::ReviewSubmit { input, finding_ids } => finding_ids.len() == input.findings.len(),
            SyscallRequest::ApprovalRequest { approval_id, .. } => {
                let r = !holds_key(&self.approvals, approval_id.as_str());
                proof {
                    lemma_keeps_key_approvals(self.approvals@, approval_id@);
                }
                r
            },
            _ => true,
        }
    }
}

} // verus!
