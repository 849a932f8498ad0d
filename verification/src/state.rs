//! The kernel's projected state: the records that admission, leasing,
//! permission and lifecycle decisions read, each collection keyed by a
//! unique id.
use vstd::prelude::*;
use crate::text::str_eq;
use crate::json::JsonValue;
use crate::lifecycle::{TaskStatus, ThreadLifecycle, TurnStatus};
use crate::permissions::{PermissionSet, PermissionGrant};
use crate::approval::{Approval, CapabilityToken};
use crate::communication::{CommunicationProfile, AgentMessage};
use crate::artifacts::FinalSubmission;
use crate::blackboard::BlackboardEntry;
use crate::events::{KernelEvent, log_matches, projection_of};
use crate::ecosystem::EcosystemCatalog;
use crate::context::{ContextSnapshot, MemoryRecord, ContextCompaction, context_ids_unique, memory_ids_unique,
    memory_has_provenance, compaction_ids_unique};
use crate::automation::{AutomationSchedule, AutomationRun, schedule_ids_unique, run_ids_unique};
use crate::packages::{PackageInstallRecord, package_names_unique};
use crate::provider::{RoutingPolicy, ModelAlias, ProviderStreamSession, policy_ids_unique, aliases_unique,
    session_ids_unique};
use crate::recovery::ReconciliationReport;
use crate::sessions::{ResourceSession, resource_session_ids_unique};
use crate::syscall::{SyscallResult, result_keys_unique};
use crate::process::{ProcessSession, process_ids_unique};
use crate::memento::{MementoFragment, memento_ids_unique};
use crate::client_threads::{ClientThread, TurnInputRecord, summary_ids_unique};
use crate::tools::{ToolDescriptor, ToolInvocation, tool_names, call_ids_unique};
use crate::order::strictly_sorted;
use crate::review::{Review, ReviewFinding, Verification, review_ids_unique};
use crate::permission_requests::{PermissionRequest, request_ids_unique};
use crate::agents::{AgentGoalStatus, RoleProfile, PermissionProfile, SandboxProfile, AgentInvocation, role_ids_unique,
    permission_profile_ids_unique, sandbox_ids_unique};

verus! {

/// A unit of work inside a goal.
#[derive(Debug)]
pub struct TaskRecord {
    pub task_id: String,
    pub goal_id: String,
    pub parent_task_id: Option<String>,
    pub risk_level: u8,
    pub status: TaskStatus,
    pub depends_on: Vec<String>,
    pub priority: i32,
    pub owner_agent_id: Option<String>,
    pub blocked_reason: Option<String>,
    pub title: String,
    pub description: String,
    pub required_artifact_types: Vec<ArtifactType>,
    pub required_evidence_types: Vec<EvidenceType>,
    pub updated_at: String,
}

/// An Agent Thread as the kernel tracks it.
#[derive(Debug)]
pub struct ThreadRecord {
    pub agent_id: String,
    pub session_id: String,
    pub task_id: String,
    pub goal_id: String,
    pub parent_thread_id: Option<String>,
    pub provider_profile_id: String,
    pub communication_profile_id: String,
    pub role: String,
    pub security_level: u8,
    pub permissions_snapshot: PermissionSet,
    pub lifecycle: ThreadLifecycle,
    pub invocation_id: String,
    pub root_thread_id: String,
    pub agent_path: String,
    pub owner: String,
    pub role_profile_id: String,
    pub permission_profile_id: String,
    pub sandbox_profile_id: String,
    pub goal: String,
    pub goal_status: AgentGoalStatus,
    pub goal_revision: u32,
    pub accomplished_at: Option<String>,
    pub success_criteria: Vec<String>,
    pub failure_criteria: Vec<String>,
    pub workspace_roots: Vec<String>,
    pub created_at: String,
}

/// Which records a budget ledger is bound to.
#[derive(Debug, Clone, Copy, PartialEq, Eq, Structural)]
pub enum BudgetScope {
    Goal,
    Task,
    Agent,
    ProviderProfile,
    HumanAttention,
}

#[derive(Debug, Clone, Copy, PartialEq, Eq, Structural)]
pub enum BudgetStatus {
    Active,
    Exhausted,
}

/// Limits and usage of one budget. Costs are counted in millionths of the
/// currency unit.
#[derive(Debug)]
pub struct BudgetLedger {
    pub budget_ledger_id: String,
    pub scope_type: BudgetScope,
    pub scope_id: String,
    pub status: BudgetStatus,
    pub token_limit: Option<u64>,
    pub tool_call_limit: Option<u64>,
    pub wall_time_limit_ms: Option<u64>,
    pub cost_limit_micros: Option<u64>,
    pub human_interrupt_limit: Option<u64>,
    pub model_request_limit: Option<u64>,
    pub tokens_used: u64,
    pub tool_calls_used: u64,
    pub wall_time_used_ms: u64,
    pub cost_used_micros: u64,
    pub human_interrupts_used: u64,
    pub model_requests_used: u64,
    pub updated_at: String,
}

#[derive(Debug, Clone, Copy, PartialEq, Eq, Structural)]
pub enum ResourceType {
    ProviderSlot,
    Lock,
    Port,
    Device,
}

#[derive(Debug, Clone, Copy, PartialEq, Eq, Structural)]
pub enum LeaseMode {
    Shared,
    Exclusive,
}

#[derive(Debug, Clone, Copy, PartialEq, Eq, Structural)]
pub enum ResourceLeaseStatus {
    Granted,
    Denied,
    Released,
    Expired,
}

/// A lease on a named resource.
#[derive(Debug)]
pub struct ResourceLease {
    pub resource_lease_id: String,
    pub resource_type: ResourceType,
    pub resource_id: String,
    pub owner_agent_id: String,
    pub thread_id: String,
    pub goal_id: String,
    pub task_id: String,
    pub mode: LeaseMode,
    pub status: ResourceLeaseStatus,
    pub reason: Option<String>,
    pub lease_expires_at: Option<String>,
    pub created_at: String,
    pub released_at: Option<String>,
}

#[derive(Debug, Clone, Copy, PartialEq, Eq, Structural)]
pub enum EnvironmentStatus {
    Provisioning,
    Ready,
    Attached,
    Terminated,
}

/// An execution environment threads can attach to.
#[derive(Debug)]
pub struct ExecutionEnvironment {
    pub environment_id: String,
    pub status: EnvironmentStatus,
    pub sandbox_profile_id: String,
    pub backend_type: BackendType,
    pub template_name: String,
    pub reuse_policy: ReusePolicy,
    pub created_at: String,
    pub updated_at: String,
}

/// Where an environment runs.
#[derive(Debug, Clone, Copy, PartialEq, Eq, Structural)]
pub enum BackendType {
    LocalProcess,
    IsolatedWorktree,
}

/// Whether an environment may serve more than one attachment over time.
#[derive(Debug, Clone, Copy, PartialEq, Eq, Structural)]
pub enum ReusePolicy {
    Ephemeral,
    Reusable,
}

#[derive(Debug, Clone, Copy, PartialEq, Eq, Structural)]
pub enum AttachMode {
    ReadOnly,
    WorkspaceWrite,
    Exclusive,
}

#[derive(Debug, Clone, Copy, PartialEq, Eq, Structural)]
pub enum EnvironmentLeaseStatus {
    Active,
    Released,
    Expired,
}

/// A thread's attachment to an execution environment.
#[derive(Debug)]
pub struct EnvironmentLease {
    pub environment_lease_id: String,
    pub environment_id: String,
    pub agent_id: String,
    pub thread_id: String,
    pub task_id: String,
    pub attach_mode: AttachMode,
    pub status: EnvironmentLeaseStatus,
    pub started_at: String,
    pub expires_at: Option<String>,
    pub released_at: Option<String>,
}

/// Which provider a provider profile routes to by default.
#[derive(Debug)]
pub struct ProviderProfile {
    pub provider_profile_id: String,
    pub default_provider_id: Option<String>,
    pub status: crate::agents::ProfileStatus,
    pub default_model_alias: Option<String>,
    pub allowed_model_aliases: Vec<String>,
    pub fallback_chain: Vec<String>,
}

/// A registered goal.
#[derive(Debug)]
pub struct GoalRecord {
    pub goal_id: String,
    pub namespace: String,
    pub created_by: String,
    pub title: String,
    pub description: String,
    pub acceptance_criteria: Vec<String>,
    pub constraints: Vec<String>,
    pub risk_level: u8,
    pub deadline: Option<String>,
    pub root_task_id: Option<String>,
    pub created_at: String,
    pub updated_at: String,
}

/// Kinds of committed artifacts.
#[derive(Debug, Clone, Copy, PartialEq, Eq, Structural)]
pub enum ArtifactType {
    Patch,
    Report,
    Document,
    Dataset,
    FinalAnswer,
}

/// Kinds of evidence.
#[derive(Debug, Clone, Copy, PartialEq, Eq, Structural)]
pub enum EvidenceType {
    CommandLog,
    DiffRef,
    SourceRef,
    ExternalReference,
    TestResult,
}

#[derive(Debug, Clone, Copy, PartialEq, Eq, Structural)]
pub enum EvidenceStatus {
    Active,
    Stale,
    Revoked,
}

/// A committed work product.
#[derive(Debug)]
pub struct ArtifactRecord {
    pub artifact_id: String,
    pub artifact_type: ArtifactType,
    pub owner_agent_id: String,
    pub goal_id: String,
    pub task_id: String,
    pub version: u32,
    pub status: ArtifactStatus,
    pub blob_ref: Option<String>,
    pub content_hash: Option<String>,
    pub metadata: JsonValue,
    pub created_at: String,
    pub updated_at: String,
    pub supersedes: Option<String>,
}

#[derive(Debug, Clone, Copy, PartialEq, Eq, Structural)]
pub enum ArtifactStatus {
    Submitted,
    Superseded,
}

/// A piece of evidence.
#[derive(Debug)]
pub struct EvidenceRecord {
    pub evidence_id: String,
    pub goal_id: String,
    pub task_id: Option<String>,
    pub artifact_id: Option<String>,
    pub evidence_type: EvidenceType,
    pub producer_agent_id: Option<String>,
    pub claim: Option<String>,
    pub blob_ref: Option<String>,
    pub content_hash: Option<String>,
    pub metadata: JsonValue,
    pub status: EvidenceStatus,
    pub created_at: String,
    pub invalidated_by: Option<String>,
}

/// Who carried out an audited action.
#[derive(Debug, Clone, Copy, PartialEq, Eq, Structural)]
pub enum AuditActorType {
    Agent,
    User,
    System,
}

/// Whether an audited action was allowed.
#[derive(Debug, Clone, Copy, PartialEq, Eq, Structural)]
pub enum AuditResult {
    Allow,
    Deny,
}

/// An audit record: who did what to which resource, and the outcome.
#[derive(Debug)]
pub struct AuditRecord {
    pub audit_id: String,
    pub actor_type: AuditActorType,
    pub actor_id: String,
    pub action: String,
    pub resource_type: String,
    pub resource_id: String,
    pub reason: Option<&'static str>,
    pub result: AuditResult,
    pub created_at: String,
}

/// An entry of the kernel's event log: which syscall's run it records,
/// under which event type, for which agent and task, and when.
#[derive(Debug)]
pub struct EventRecord {
    pub event_id: String,
    pub event_type: &'static str,
    pub syscall_id: String,
    pub agent_id: String,
    pub task_id: String,
    pub recorded_at: String,
}

/// The projected state.
#[derive(Debug)]
pub struct KernelState {
    pub goals: Vec<GoalRecord>,
    pub artifacts: Vec<ArtifactRecord>,
    pub evidence: Vec<EvidenceRecord>,
    pub tasks: Vec<TaskRecord>,
    pub threads: Vec<ThreadRecord>,
    pub permission_grants: Vec<PermissionGrant>,
    pub budget_ledgers: Vec<BudgetLedger>,
    pub resource_leases: Vec<ResourceLease>,
    pub environments: Vec<ExecutionEnvironment>,
    pub environment_leases: Vec<EnvironmentLease>,
    pub provider_profiles: Vec<ProviderProfile>,
    pub approvals: Vec<Approval>,
    pub capabilities: Vec<CapabilityToken>,
    pub communication_profiles: Vec<CommunicationProfile>,
    pub messages: Vec<AgentMessage>,
    pub ready_queue: Vec<String>,
    pub role_profiles: Vec<RoleProfile>,
    pub permission_profiles: Vec<PermissionProfile>,
    pub sandbox_profiles: Vec<SandboxProfile>,
    pub invocations: Vec<AgentInvocation>,
    pub permission_requests: Vec<PermissionRequest>,
    pub reviews: Vec<Review>,
    pub review_findings: Vec<ReviewFinding>,
    pub verifications: Vec<Verification>,
    pub final_submissions: Vec<(String, FinalSubmission)>,
    pub tool_descriptors: Vec<ToolDescriptor>,
    pub tool_invocations: Vec<ToolInvocation>,
    pub client_threads: Vec<ClientThread>,
    pub turn_inputs: Vec<TurnInputRecord>,
    pub ecosystem: EcosystemCatalog,
    pub mementos: Vec<MementoFragment>,
    pub context_snapshots: Vec<ContextSnapshot>,
    pub memory_records: Vec<MemoryRecord>,
    pub context_compactions: Vec<ContextCompaction>,
    pub automation_schedules: Vec<AutomationSchedule>,
    pub automation_runs: Vec<AutomationRun>,
    pub package_installs: Vec<PackageInstallRecord>,
    pub routing_policies: Vec<RoutingPolicy>,
    pub model_aliases: Vec<ModelAlias>,
    pub provider_stream_sessions: Vec<ProviderStreamSession>,
    pub reconciliation_reports: Vec<ReconciliationReport>,
    pub resource_sessions: Vec<ResourceSession>,
    pub syscall_results: Vec<(String, SyscallResult)>,
    pub process_sessions: Vec<ProcessSession>,
    pub audit_events: Vec<AuditRecord>,
    pub event_log: Vec<EventRecord>,
    pub blackboard_entries: Vec<BlackboardEntry>,
    pub events: Vec<KernelEvent>,
}

// ---------------------------------------------------------------------------
// Lookups

/// Some task has id `id`.
pub open spec fn has_task(tasks: Seq<TaskRecord>, id: Seq<char>) -> bool {
    exists|i: int| 0 <= i < tasks.len() && tasks[i].task_id@ == id
}

/// The position of the task with id `id` (meaningful when `has_task`).
pub open spec fn task_pos(tasks: Seq<TaskRecord>, id: Seq<char>) -> int {
    choose|i: int| 0 <= i < tasks.len() && tasks[i].task_id@ == id
}

/// Task ids are unique.
pub open spec fn task_ids_unique(tasks: Seq<TaskRecord>) -> bool {
    forall|i: int, j: int|
        0 <= i < tasks.len() && 0 <= j < tasks.len() && #[trigger] tasks[i].task_id@ == #[trigger] tasks[j].task_id@ ==> i == j
}

pub open spec fn has_thread(threads: Seq<ThreadRecord>, id: Seq<char>) -> bool {
    exists|i: int| 0 <= i < threads.len() && threads[i].lifecycle.thread_id@ == id
}

pub open spec fn thread_pos(threads: Seq<ThreadRecord>, id: Seq<char>) -> int {
    choose|i: int| 0 <= i < threads.len() && threads[i].lifecycle.thread_id@ == id
}

pub open spec fn thread_ids_unique(threads: Seq<ThreadRecord>) -> bool {
    forall|i: int, j: int|
        0 <= i < threads.len() && 0 <= j < threads.len() && #[trigger] threads[i].lifecycle.thread_id@
            == #[trigger] threads[j].lifecycle.thread_id@ ==> i == j
}

pub open spec fn has_profile(profiles: Seq<ProviderProfile>, id: Seq<char>) -> bool {
    exists|i: int| 0 <= i < profiles.len() && profiles[i].provider_profile_id@ == id
}

pub open spec fn profile_pos(profiles: Seq<ProviderProfile>, id: Seq<char>) -> int {
    choose|i: int| 0 <= i < profiles.len() && profiles[i].provider_profile_id@ == id
}

pub open spec fn profile_ids_unique(profiles: Seq<ProviderProfile>) -> bool {
    forall|i: int, j: int|
        0 <= i < profiles.len() && 0 <= j < profiles.len() && #[trigger] profiles[i].provider_profile_id@
            == #[trigger] profiles[j].provider_profile_id@ ==> i == j
}

pub open spec fn has_lease(leases: Seq<ResourceLease>, id: Seq<char>) -> bool {
    exists|i: int| 0 <= i < leases.len() && leases[i].resource_lease_id@ == id
}

pub open spec fn lease_pos(leases: Seq<ResourceLease>, id: Seq<char>) -> int {
    choose|i: int| 0 <= i < leases.len() && leases[i].resource_lease_id@ == id
}

pub open spec fn lease_ids_unique(leases: Seq<ResourceLease>) -> bool {
    forall|i: int, j: int|
        0 <= i < leases.len() && 0 <= j < leases.len() && #[trigger] leases[i].resource_lease_id@
            == #[trigger] leases[j].resource_lease_id@ ==> i == j
}

pub open spec fn has_ledger(ledgers: Seq<BudgetLedger>, id: Seq<char>) -> bool {
    exists|i: int| 0 <= i < ledgers.len() && ledgers[i].budget_ledger_id@ == id
}

pub open spec fn ledger_pos(ledgers: Seq<BudgetLedger>, id: Seq<char>) -> int {
    choose|i: int| 0 <= i < ledgers.len() && ledgers[i].budget_ledger_id@ == id
}

pub open spec fn ledger_ids_unique(ledgers: Seq<BudgetLedger>) -> bool {
    forall|i: int, j: int|
        0 <= i < ledgers.len() && 0 <= j < ledgers.len() && #[trigger] ledgers[i].budget_ledger_id@
            == #[trigger] ledgers[j].budget_ledger_id@ ==> i == j
}

pub open spec fn has_goal(goals: Seq<GoalRecord>, id: Seq<char>) -> bool {
    exists|i: int| 0 <= i < goals.len() && goals[i].goal_id@ == id
}

pub open spec fn goal_pos(goals: Seq<GoalRecord>, id: Seq<char>) -> int {
    choose|i: int| 0 <= i < goals.len() && goals[i].goal_id@ == id
}

pub open spec fn goal_ids_unique(goals: Seq<GoalRecord>) -> bool {
    forall|i: int, j: int|
        0 <= i < goals.len() && 0 <= j < goals.len() && #[trigger] goals[i].goal_id@ == #[trigger] goals[j].goal_id@ ==> i == j
}

pub open spec fn has_artifact(artifacts: Seq<ArtifactRecord>, id: Seq<char>) -> bool {
    exists|i: int| 0 <= i < artifacts.len() && artifacts[i].artifact_id@ == id
}

pub open spec fn artifact_pos(artifacts: Seq<ArtifactRecord>, id: Seq<char>) -> int {
    choose|i: int| 0 <= i < artifacts.len() && artifacts[i].artifact_id@ == id
}

pub open spec fn artifact_ids_unique(artifacts: Seq<ArtifactRecord>) -> bool {
    forall|i: int, j: int|
        0 <= i < artifacts.len() && 0 <= j < artifacts.len() && #[trigger] artifacts[i].artifact_id@
            == #[trigger] artifacts[j].artifact_id@ ==> i == j
}

pub open spec fn has_evidence(evidence: Seq<EvidenceRecord>, id: Seq<char>) -> bool {
    exists|i: int| 0 <= i < evidence.len() && evidence[i].evidence_id@ == id
}

pub open spec fn evidence_pos(evidence: Seq<EvidenceRecord>, id: Seq<char>) -> int {
    choose|i: int| 0 <= i < evidence.len() && evidence[i].evidence_id@ == id
}

pub open spec fn evidence_ids_unique(evidence: Seq<EvidenceRecord>) -> bool {
    forall|i: int, j: int|
        0 <= i < evidence.len() && 0 <= j < evidence.len() && #[trigger] evidence[i].evidence_id@
            == #[trigger] evidence[j].evidence_id@ ==> i == j
}

pub open spec fn has_environment(envs: Seq<ExecutionEnvironment>, id: Seq<char>) -> bool {
    exists|i: int| 0 <= i < envs.len() && envs[i].environment_id@ == id
}

pub open spec fn environment_pos(envs: Seq<ExecutionEnvironment>, id: Seq<char>) -> int {
    choose|i: int| 0 <= i < envs.len() && envs[i].environment_id@ == id
}

pub open spec fn environment_ids_unique(envs: Seq<ExecutionEnvironment>) -> bool {
    forall|i: int, j: int|
        0 <= i < envs.len() && 0 <= j < envs.len() && #[trigger] envs[i].environment_id@
            == #[trigger] envs[j].environment_id@ ==> i == j
}

pub open spec fn has_env_lease(leases: Seq<EnvironmentLease>, id: Seq<char>) -> bool {
    exists|i: int| 0 <= i < leases.len() && leases[i].environment_lease_id@ == id
}

pub open spec fn env_lease_pos(leases: Seq<EnvironmentLease>, id: Seq<char>) -> int {
    choose|i: int| 0 <= i < leases.len() && leases[i].environment_lease_id@ == id
}

pub open spec fn env_lease_ids_unique(leases: Seq<EnvironmentLease>) -> bool {
    forall|i: int, j: int|
        0 <= i < leases.len() && 0 <= j < leases.len() && #[trigger] leases[i].environment_lease_id@
            == #[trigger] leases[j].environment_lease_id@ ==> i == j
}

/// Two granted leases on the same resource, of which one is exclusive.
pub open spec fn resource_leases_clash(a: ResourceLease, b: ResourceLease) -> bool {
    &&& a.status == ResourceLeaseStatus::Granted
    &&& b.status == ResourceLeaseStatus::Granted
    &&& a.resource_type == b.resource_type
    &&& a.resource_id@ == b.resource_id@
    &&& (a.mode == LeaseMode::Exclusive || b.mode == LeaseMode::Exclusive)
}

/// No two distinct granted leases on one resource clash.
pub open spec fn resource_leases_exclusive(leases: Seq<ResourceLease>) -> bool {
    forall|i: int, j: int|
        0 <= i < leases.len() && 0 <= j < leases.len() && i != j ==> !resource_leases_clash(#[trigger] leases[i], #[trigger] leases[j])
}

/// Two active attachments to one environment, of which one is exclusive.
pub open spec fn environment_leases_clash(a: EnvironmentLease, b: EnvironmentLease) -> bool {
    &&& a.status == EnvironmentLeaseStatus::Active
    &&& b.status == EnvironmentLeaseStatus::Active
    &&& a.environment_id@ == b.environment_id@
    &&& (a.attach_mode == AttachMode::Exclusive || b.attach_mode == AttachMode::Exclusive)
}

/// No two distinct active attachments to one environment clash.
pub open spec fn environment_leases_exclusive(leases: Seq<EnvironmentLease>) -> bool {
    forall|i: int, j: int|
        0 <= i < leases.len() && 0 <= j < leases.len() && i != j ==> !environment_leases_clash(#[trigger] leases[i], #[trigger] leases[j])
}

pub open spec fn has_approval(approvals: Seq<Approval>, id: Seq<char>) -> bool {
    exists|i: int| 0 <= i < approvals.len() && approvals[i].approval_id@ == id
}

pub open spec fn approval_pos(approvals: Seq<Approval>, id: Seq<char>) -> int {
    choose|i: int| 0 <= i < approvals.len() && approvals[i].approval_id@ == id
}

pub open spec fn approval_ids_unique(approvals: Seq<Approval>) -> bool {
    forall|i: int, j: int|
        0 <= i < approvals.len() && 0 <= j < approvals.len() && #[trigger] approvals[i].approval_id@
            == #[trigger] approvals[j].approval_id@ ==> i == j
}

pub open spec fn has_capability(caps: Seq<CapabilityToken>, id: Seq<char>) -> bool {
    exists|i: int| 0 <= i < caps.len() && caps[i].capability_id@ == id
}

pub open spec fn capability_pos(caps: Seq<CapabilityToken>, id: Seq<char>) -> int {
    choose|i: int| 0 <= i < caps.len() && caps[i].capability_id@ == id
}

pub open spec fn capability_ids_unique(caps: Seq<CapabilityToken>) -> bool {
    forall|i: int, j: int|
        0 <= i < caps.len() && 0 <= j < caps.len() && #[trigger] caps[i].capability_id@
            == #[trigger] caps[j].capability_id@ ==> i == j
}

/// Some thread runs agent `agent`.
pub open spec fn has_agent(threads: Seq<ThreadRecord>, agent: Seq<char>) -> bool {
    exists|i: int| 0 <= i < threads.len() && threads[i].agent_id@ == agent
}

/// The first thread running agent `agent`.
pub open spec fn first_agent_thread(threads: Seq<ThreadRecord>, agent: Seq<char>, i: int) -> bool {
    0 <= i < threads.len() && threads[i].agent_id@ == agent && forall|j: int| 0 <= j < i ==> threads[j].agent_id@ != agent
}

pub open spec fn has_comm_profile(profiles: Seq<CommunicationProfile>, id: Seq<char>) -> bool {
    exists|i: int| 0 <= i < profiles.len() && profiles[i].communication_profile_id@ == id
}

pub open spec fn comm_profile_pos(profiles: Seq<CommunicationProfile>, id: Seq<char>) -> int {
    choose|i: int| 0 <= i < profiles.len() && profiles[i].communication_profile_id@ == id
}

pub open spec fn comm_profile_ids_unique(profiles: Seq<CommunicationProfile>) -> bool {
    forall|i: int, j: int|
        0 <= i < profiles.len() && 0 <= j < profiles.len() && #[trigger] profiles[i].communication_profile_id@
            == #[trigger] profiles[j].communication_profile_id@ ==> i == j
}

/// No thread id occurs twice in the ready queue.
pub open spec fn queue_unique(queue: Seq<Seq<char>>) -> bool {
    forall|i: int, j: int| 0 <= i < queue.len() && 0 <= j < queue.len() && #[trigger] queue[i] == #[trigger] queue[j] ==> i == j
}

impl KernelState {
    /// Every collection is keyed by a unique id.
    pub open spec fn wf(&self) -> bool {
        &&& resource_leases_exclusive(self.resource_leases@)
        &&& environment_leases_exclusive(self.environment_leases@)
        &&& goal_ids_unique(self.goals@)
        &&& artifact_ids_unique(self.artifacts@)
        &&& evidence_ids_unique(self.evidence@)
        &&& task_ids_unique(self.tasks@)
        &&& thread_ids_unique(self.threads@)
        &&& profile_ids_unique(self.provider_profiles@)
        &&& lease_ids_unique(self.resource_leases@)
        &&& environment_ids_unique(self.environments@)
        &&& env_lease_ids_unique(self.environment_leases@)
        &&& approval_ids_unique(self.approvals@)
        &&& capability_ids_unique(self.capabilities@)
        &&& comm_profile_ids_unique(self.communication_profiles@)
        &&& ledger_ids_unique(self.budget_ledgers@)
        &&& role_ids_unique(self.role_profiles@)
        &&& permission_profile_ids_unique(self.permission_profiles@)
        &&& sandbox_ids_unique(self.sandbox_profiles@)
        &&& request_ids_unique(self.permission_requests@)
        &&& review_ids_unique(self.reviews@)
        &&& strictly_sorted(tool_names(self.tool_descriptors@))
        &&& call_ids_unique(self.tool_invocations@)
        &&& summary_ids_unique(self.client_threads@)
        &&& self.ecosystem.wf()
        &&& memento_ids_unique(self.mementos@)
        &&& context_ids_unique(self.context_snapshots@)
        &&& memory_ids_unique(self.memory_records@)
        &&& memory_has_provenance(self.memory_records@)
        &&& compaction_ids_unique(self.context_compactions@)
        &&& schedule_ids_unique(self.automation_schedules@)
        &&& run_ids_unique(self.automation_runs@)
        &&& package_names_unique(self.package_installs@)
        &&& policy_ids_unique(self.routing_policies@)
        &&& aliases_unique(self.model_aliases@)
        &&& session_ids_unique(self.provider_stream_sessions@)
        &&& resource_session_ids_unique(self.resource_sessions@)
        &&& result_keys_unique(self.syscall_results@)
        &&& process_ids_unique(self.process_sessions@)
        &&& log_matches(projection_of(*self), self.events@)
        &&& crate::events::record_keys_unique(self.final_submissions@)
        &&& crate::events::record_keys_unique(self.invocations@)
    }

    /// A state with no records.
    pub fn new() -> (r: KernelState)
        ensures
            r.wf(),
            r.goals@.len() == 0,
            r.artifacts@.len() == 0,
            r.evidence@.len() == 0,
            r.tasks@.len() == 0,
            r.threads@.len() == 0,
            r.permission_grants@.len() == 0,
            r.budget_ledgers@.len() == 0,
            r.resource_leases@.len() == 0,
            r.environments@.len() == 0,
            r.environment_leases@.len() == 0,
            r.provider_profiles@.len() == 0,
            r.approvals@.len() == 0,
            r.capabilities@.len() == 0,
            r.communication_profiles@.len() == 0,
            r.messages@.len() == 0,
            r.ready_queue@.len() == 0,
            r.role_profiles@.len() == 0,
            r.permission_profiles@.len() == 0,
            r.sandbox_profiles@.len() == 0,
            r.invocations@.len() == 0,
            r.permission_requests@.len() == 0,
            r.reviews@.len() == 0,
            r.review_findings@.len() == 0,
            r.verifications@.len() == 0,
            r.final_submissions@.len() == 0,
            r.tool_descriptors@.len() == 0,
            r.tool_invocations@.len() == 0,
            r.client_threads@.len() == 0,
            r.turn_inputs@.len() == 0,
            r.mementos@.len() == 0,
            r.context_snapshots@.len() == 0,
            r.memory_records@.len() == 0,
            r.context_compactions@.len() == 0,
            r.automation_schedules@.len() == 0,
            r.automation_runs@.len() == 0,
            r.package_installs@.len() == 0,
            r.routing_policies@.len() == 0,
            r.model_aliases@.len() == 0,
            r.provider_stream_sessions@.len() == 0,
            r.reconciliation_reports@.len() == 0,
            r.resource_sessions@.len() == 0,
            r.syscall_results@.len() == 0,
            r.process_sessions@.len() == 0,
            r.audit_events@.len() == 0,
            r.event_log@.len() == 0,
            r.blackboard_entries@.len() == 0,
            r.events@.len() == 0,
    {
        let r = KernelState {
            goals: Vec::new(),
            artifacts: Vec::new(),
            evidence: Vec::new(),
            tasks: Vec::new(),
            threads: Vec::new(),
            permission_grants: Vec::new(),
            budget_ledgers: Vec::new(),
            resource_leases: Vec::new(),
            environments: Vec::new(),
            environment_leases: Vec::new(),
            provider_profiles: Vec::new(),
            approvals: Vec::new(),
            capabilities: Vec::new(),
            communication_profiles: Vec::new(),
            messages: Vec::new(),
            ready_queue: Vec::new(),
            role_profiles: Vec::new(),
            permission_profiles: Vec::new(),
            sandbox_profiles: Vec::new(),
            invocations: Vec::new(),
            permission_requests: Vec::new(),
            reviews: Vec::new(),
            review_findings: Vec::new(),
            verifications: Vec::new(),
            final_submissions: Vec::new(),
            tool_descriptors: Vec::new(),
            tool_invocations: Vec::new(),
            client_threads: Vec::new(),
            turn_inputs: Vec::new(),
            ecosystem: EcosystemCatalog::new(),
            mementos: Vec::new(),
            context_snapshots: Vec::new(),
            memory_records: Vec::new(),
            context_compactions: Vec::new(),
            automation_schedules: Vec::new(),
            automation_runs: Vec::new(),
            package_installs: Vec::new(),
            routing_policies: Vec::new(),
            model_aliases: Vec::new(),
            provider_stream_sessions: Vec::new(),
            reconciliation_reports: Vec::new(),
            resource_sessions: Vec::new(),
            syscall_results: Vec::new(),
            process_sessions: Vec::new(),
            audit_events: Vec::new(),
            event_log: Vec::new(),
            blackboard_entries: Vec::new(),
            events: Vec::new(),
        };
        proof {
            crate::events::lemma_empty_log_matches(projection_of(r));
        }
        r
    }

    /// The position of the task `task_id`, if there is one.
    pub fn find_task(&self, task_id: &str) -> (r: Option<usize>)
        requires
            task_ids_unique(self.tasks@),
        ensures
            r.is_none() <==> !has_task(self.tasks@, task_id@),
            r.is_some() ==> r.unwrap() == task_pos(self.tasks@, task_id@) && r.unwrap() < self.tasks@.len(),
    {
        let mut i: usize = 0;
        while i < self.tasks.len()
            invariant
                i <= self.tasks@.len(),
                task_ids_unique(self.tasks@),
                forall|j: int| 0 <= j < i ==> self.tasks@[j].task_id@ != task_id@,
            decreases self.tasks@.len() - i,
        {
            if str_eq(self.tasks[i].task_id.as_str(), task_id) {
                proof {
                    let k = task_pos(self.tasks@, task_id@);
                    assert(self.tasks@[k].task_id@ == self.tasks@[i as int].task_id@);
                }
                return Some(i);
            }
            i = i + 1;
        }
        None
    }

    /// The position of the thread `thread_id`, if there is one.
    pub fn find_thread(&self, thread_id: &str) -> (r: Option<usize>)
        requires
            thread_ids_unique(self.threads@),
        ensures
            r.is_none() <==> !has_thread(self.threads@, thread_id@),
            r.is_some() ==> r.unwrap() == thread_pos(self.threads@, thread_id@) && r.unwrap() < self.threads@.len(),
    {
        let mut i: usize = 0;
        while i < self.threads.len()
            invariant
                i <= self.threads@.len(),
                thread_ids_unique(self.threads@),
                forall|j: int| 0 <= j < i ==> self.threads@[j].lifecycle.thread_id@ != thread_id@,
            decreases self.threads@.len() - i,
        {
            if str_eq(self.threads[i].lifecycle.thread_id.as_str(), thread_id) {
                proof {
                    let k = thread_pos(self.threads@, thread_id@);
                    assert(self.threads@[k].lifecycle.thread_id@ == self.threads@[i as int].lifecycle.thread_id@);
                }
                return Some(i);
            }
            i = i + 1;
        }
        None
    }

    /// The position of the provider profile `profile_id`, if there is one.
    pub fn find_provider_profile(&self, profile_id: &str) -> (r: Option<usize>)
        requires
            profile_ids_unique(self.provider_profiles@),
        ensures
            r.is_none() <==> !has_profile(self.provider_profiles@, profile_id@),
            r.is_some() ==> r.unwrap() == profile_pos(self.provider_profiles@, profile_id@) && r.unwrap()
                < self.provider_profiles@.len(),
    {
        let mut i: usize = 0;
        while i < self.provider_profiles.len()
            invariant
                i <= self.provider_profiles@.len(),
                profile_ids_unique(self.provider_profiles@),
                forall|j: int| 0 <= j < i ==> self.provider_profiles@[j].provider_profile_id@ != profile_id@,
            decreases self.provider_profiles@.len() - i,
        {
            if str_eq(self.provider_profiles[i].provider_profile_id.as_str(), profile_id) {
                proof {
                    let k = profile_pos(self.provider_profiles@, profile_id@);
                    assert(self.provider_profiles@[k].provider_profile_id@ == self.provider_profiles@[i as int].provider_profile_id@);
                }
                return Some(i);
            }
            i = i + 1;
        }
        None
    }

    /// The position of the resource lease `lease_id`, if there is one.
    pub fn find_resource_lease(&self, lease_id: &str) -> (r: Option<usize>)
        requires
            lease_ids_unique(self.resource_leases@),
        ensures
            r.is_none() <==> !has_lease(self.resource_leases@, lease_id@),
            r.is_some() ==> r.unwrap() == lease_pos(self.resource_leases@, lease_id@) && r.unwrap()
                < self.resource_leases@.len(),
    {
        let mut i: usize = 0;
        while i < self.resource_leases.len()
            invariant
                i <= self.resource_leases@.len(),
                lease_ids_unique(self.resource_leases@),
                forall|j: int| 0 <= j < i ==> self.resource_leases@[j].resource_lease_id@ != lease_id@,
            decreases self.resource_leases@.len() - i,
        {
            if str_eq(self.resource_leases[i].resource_lease_id.as_str(), lease_id) {
                proof {
                    let k = lease_pos(self.resource_leases@, lease_id@);
                    assert(self.resource_leases@[k].resource_lease_id@ == self.resource_leases@[i as int].resource_lease_id@);
                }
                return Some(i);
            }
            i = i + 1;
        }
        None
    }

    /// The position of the budget ledger `ledger_id`, if there is one.
    pub fn find_budget_ledger(&self, ledger_id: &str) -> (r: Option<usize>)
        requires
            ledger_ids_unique(self.budget_ledgers@),
        ensures
            r.is_none() <==> !has_ledger(self.budget_ledgers@, ledger_id@),
            r.is_some() ==> r.unwrap() == ledger_pos(self.budget_ledgers@, ledger_id@) && r.unwrap()
                < self.budget_ledgers@.len(),
    {
        let mut i: usize = 0;
        while i < self.budget_ledgers.len()
            invariant
                i <= self.budget_ledgers@.len(),
                ledger_ids_unique(self.budget_ledgers@),
                forall|j: int| 0 <= j < i ==> self.budget_ledgers@[j].budget_ledger_id@ != ledger_id@,
            decreases self.budget_ledgers@.len() - i,
        {
            if str_eq(self.budget_ledgers[i].budget_ledger_id.as_str(), ledger_id) {
                proof {
                    let k = ledger_pos(self.budget_ledgers@, ledger_id@);
                    assert(self.budget_ledgers@[k].budget_ledger_id@ == self.budget_ledgers@[i as int].budget_ledger_id@);
                }
                return Some(i);
            }
            i = i + 1;
        }
        None
    }

    /// The position of the goal `goal_id`, if there is one.
    pub fn find_goal(&self, goal_id: &str) -> (r: Option<usize>)
        requires
            goal_ids_unique(self.goals@),
        ensures
            r.is_none() <==> !has_goal(self.goals@, goal_id@),
            r.is_some() ==> r.unwrap() == goal_pos(self.goals@, goal_id@) && r.unwrap() < self.goals@.len(),
    {
        let mut i: usize = 0;
        while i < self.goals.len()
            invariant
                i <= self.goals@.len(),
                goal_ids_unique(self.goals@),
                forall|j: int| 0 <= j < i ==> self.goals@[j].goal_id@ != goal_id@,
            decreases self.goals@.len() - i,
        {
            if str_eq(self.goals[i].goal_id.as_str(), goal_id) {
                proof {
                    let k = goal_pos(self.goals@, goal_id@);
                    assert(self.goals@[k].goal_id@ == self.goals@[i as int].goal_id@);
                }
                return Some(i);
            }
            i = i + 1;
        }
        None
    }

    /// The position of the artifact `artifact_id`, if there is one.
    pub fn find_artifact(&self, artifact_id: &str) -> (r: Option<usize>)
        requires
            artifact_ids_unique(self.artifacts@),
        ensures
            r.is_none() <==> !has_artifact(self.artifacts@, artifact_id@),
            r.is_some() ==> r.unwrap() == artifact_pos(self.artifacts@, artifact_id@) && r.unwrap() < self.artifacts@.len(),
    {
        let mut i: usize = 0;
        while i < self.artifacts.len()
            invariant
                i <= self.artifacts@.len(),
                artifact_ids_unique(self.artifacts@),
                forall|j: int| 0 <= j < i ==> self.artifacts@[j].artifact_id@ != artifact_id@,
            decreases self.artifacts@.len() - i,
        {
            if str_eq(self.artifacts[i].artifact_id.as_str(), artifact_id) {
                proof {
                    let k = artifact_pos(self.artifacts@, artifact_id@);
                    assert(self.artifacts@[k].artifact_id@ == self.artifacts@[i as int].artifact_id@);
                }
                return Some(i);
            }
            i = i + 1;
        }
        None
    }

    /// The position of the evidence record `evidence_id`, if there is one.
    pub fn find_evidence(&self, evidence_id: &str) -> (r: Option<usize>)
        requires
            evidence_ids_unique(self.evidence@),
        ensures
            r.is_none() <==> !has_evidence(self.evidence@, evidence_id@),
            r.is_some() ==> r.unwrap() == evidence_pos(self.evidence@, evidence_id@) && r.unwrap() < self.evidence@.len(),
    {
        let mut i: usize = 0;
        while i < self.evidence.len()
            invariant
                i <= self.evidence@.len(),
                evidence_ids_unique(self.evidence@),
                forall|j: int| 0 <= j < i ==> self.evidence@[j].evidence_id@ != evidence_id@,
            decreases self.evidence@.len() - i,
        {
            if str_eq(self.evidence[i].evidence_id.as_str(), evidence_id) {
                proof {
                    let k = evidence_pos(self.evidence@, evidence_id@);
                    assert(self.evidence@[k].evidence_id@ == self.evidence@[i as int].evidence_id@);
                }
                return Some(i);
            }
            i = i + 1;
        }
        None
    }

    /// The position of the environment `environment_id`, if there is one.
    pub fn find_environment(&self, environment_id: &str) -> (r: Option<usize>)
        requires
            environment_ids_unique(self.environments@),
        ensures
            r.is_none() <==> !has_environment(self.environments@, environment_id@),
            r.is_some() ==> r.unwrap() == environment_pos(self.environments@, environment_id@) && r.unwrap() < self.environments@.len(),
    {
        let mut i: usize = 0;
        while i < self.environments.len()
            invariant
                i <= self.environments@.len(),
                environment_ids_unique(self.environments@),
                forall|j: int| 0 <= j < i ==> self.environments@[j].environment_id@ != environment_id@,
            decreases self.environments@.len() - i,
        {
            if str_eq(self.environments[i].environment_id.as_str(), environment_id) {
                proof {
                    let k = environment_pos(self.environments@, environment_id@);
                    assert(self.environments@[k].environment_id@ == self.environments@[i as int].environment_id@);
                }
                return Some(i);
            }
            i = i + 1;
        }
        None
    }

    /// The position of the environment lease `environment_lease_id`, if there is one.
    pub fn find_environment_lease(&self, environment_lease_id: &str) -> (r: Option<usize>)
        requires
            env_lease_ids_unique(self.environment_leases@),
        ensures
            r.is_none() <==> !has_env_lease(self.environment_leases@, environment_lease_id@),
            r.is_some() ==> r.unwrap() == env_lease_pos(self.environment_leases@, environment_lease_id@) && r.unwrap() < self.environment_leases@.len(),
    {
        let mut i: usize = 0;
        while i < self.environment_leases.len()
            invariant
                i <= self.environment_leases@.len(),
                env_lease_ids_unique(self.environment_leases@),
                forall|j: int| 0 <= j < i ==> self.environment_leases@[j].environment_lease_id@ != environment_lease_id@,
            decreases self.environment_leases@.len() - i,
        {
            if str_eq(self.environment_leases[i].environment_lease_id.as_str(), environment_lease_id) {
                proof {
                    let k = env_lease_pos(self.environment_leases@, environment_lease_id@);
                    assert(self.environment_leases@[k].environment_lease_id@ == self.environment_leases@[i as int].environment_lease_id@);
                }
                return Some(i);
            }
            i = i + 1;
        }
        None
    }

    /// The position of the approval `approval_id`, if there is one.
    pub fn find_approval(&self, approval_id: &str) -> (r: Option<usize>)
        requires
            approval_ids_unique(self.approvals@),
        ensures
            r.is_none() <==> !has_approval(self.approvals@, approval_id@),
            r.is_some() ==> r.unwrap() == approval_pos(self.approvals@, approval_id@) && r.unwrap() < self.approvals@.len(),
    {
        let mut i: usize = 0;
        while i < self.approvals.len()
            invariant
                i <= self.approvals@.len(),
                approval_ids_unique(self.approvals@),
                forall|j: int| 0 <= j < i ==> self.approvals@[j].approval_id@ != approval_id@,
            decreases self.approvals@.len() - i,
        {
            if str_eq(self.approvals[i].approval_id.as_str(), approval_id) {
                proof {
                    let k = approval_pos(self.approvals@, approval_id@);
                    assert(self.approvals@[k].approval_id@ == self.approvals@[i as int].approval_id@);
                }
                return Some(i);
            }
            i = i + 1;
        }
        None
    }

    /// The position of the capability token `capability_id`, if there is one.
    pub fn find_capability(&self, capability_id: &str) -> (r: Option<usize>)
        requires
            capability_ids_unique(self.capabilities@),
        ensures
            r.is_none() <==> !has_capability(self.capabilities@, capability_id@),
            r.is_some() ==> r.unwrap() == capability_pos(self.capabilities@, capability_id@) && r.unwrap() < self.capabilities@.len(),
    {
        let mut i: usize = 0;
        while i < self.capabilities.len()
            invariant
                i <= self.capabilities@.len(),
                capability_ids_unique(self.capabilities@),
                forall|j: int| 0 <= j < i ==> self.capabilities@[j].capability_id@ != capability_id@,
            decreases self.capabilities@.len() - i,
        {
            if str_eq(self.capabilities[i].capability_id.as_str(), capability_id) {
                proof {
                    let k = capability_pos(self.capabilities@, capability_id@);
                    assert(self.capabilities@[k].capability_id@ == self.capabilities@[i as int].capability_id@);
                }
                return Some(i);
            }
            i = i + 1;
        }
        None
    }

    /// The position of the first thread that runs agent `agent_id`, if any.
    pub fn find_agent_thread(&self, agent_id: &str) -> (r: Option<usize>)
        ensures
            r.is_none() <==> !has_agent(self.threads@, agent_id@),
            r matches Some(i) ==> first_agent_thread(self.threads@, agent_id@, i as int),
    {
        let mut i: usize = 0;
        while i < self.threads.len()
            invariant
                i <= self.threads@.len(),
                forall|j: int| 0 <= j < i ==> self.threads@[j].agent_id@ != agent_id@,
            decreases self.threads@.len() - i,
        {
            if str_eq(self.threads[i].agent_id.as_str(), agent_id) {
                return Some(i);
            }
            i = i + 1;
        }
        None
    }

    /// The position of the communication profile `profile_id`, if there is one.
    pub fn find_communication_profile(&self, profile_id: &str) -> (r: Option<usize>)
        requires
            comm_profile_ids_unique(self.communication_profiles@),
        ensures
            r.is_none() <==> !has_comm_profile(self.communication_profiles@, profile_id@),
            r.is_some() ==> r.unwrap() == comm_profile_pos(self.communication_profiles@, profile_id@) && r.unwrap() < self.communication_profiles@.len(),
    {
        let mut i: usize = 0;
        while i < self.communication_profiles.len()
            invariant
                i <= self.communication_profiles@.len(),
                comm_profile_ids_unique(self.communication_profiles@),
                forall|j: int| 0 <= j < i ==> self.communication_profiles@[j].communication_profile_id@ != profile_id@,
            decreases self.communication_profiles@.len() - i,
        {
            if str_eq(self.communication_profiles[i].communication_profile_id.as_str(), profile_id) {
                proof {
                    let k = comm_profile_pos(self.communication_profiles@, profile_id@);
                    assert(self.communication_profiles@[k].communication_profile_id@ == self.communication_profiles@[i as int].communication_profile_id@);
                }
                return Some(i);
            }
            i = i + 1;
        }
        None
    }
}

} // verus!
