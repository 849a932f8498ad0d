//! Agents: the role, permission and sandbox profiles they are spawned
//! from, the invocation edges that record each delegation, spawning a
//! thread under a parent, and retargeting a thread's goal.
use vstd::prelude::*;
use crate::text::{str_eq, copy_strings};
use crate::lifecycle::copy_opt_string;
use crate::error::AgentOsError;
use crate::scope::{texts, names_allow, string_list_allows};
use crate::permissions::{PermissionSet, PermissionView, opt_text, child_snapshot_outcome, child_permission_snapshot,
    effective_permissions, effective_permission_set_for_thread};
use crate::lifecycle::{ThreadStatus, ThreadLifecycle, ActiveTurn};
use crate::communication::{CommunicationProfile, CommunicationScope, SupervisorRoute, BlackboardRoute, HumanRoute,
    CompletionRoute};
use crate::state::{KernelState, ThreadRecord, has_task, task_pos, has_thread, thread_pos, has_comm_profile, has_agent,
    first_agent_thread};

use crate::events::{KernelEvent, Logged, Projected};
verus! {

/// Whether a profile may be used.
#[derive(Debug, Clone, Copy, PartialEq, Eq, Structural)]
pub enum ProfileStatus {
    Active,
    Retired,
}

/// What a role is allowed and defaults to.
#[derive(Debug)]
pub struct RoleProfile {
    pub role_profile_id: String,
    pub status: ProfileStatus,
    pub name: String,
    pub default_permission_profile_id: String,
    pub default_sandbox_profile_id: String,
    pub default_provider_profile_id: Option<String>,
    pub default_scheduler_policy_id: Option<String>,
    pub allowed_child_role_profile_ids: Vec<String>,
}

/// A named permission set.
#[derive(Debug)]
pub struct PermissionProfile {
    pub permission_profile_id: String,
    pub status: ProfileStatus,
    pub permission_set: PermissionSet,
}

/// A named sandbox.
#[derive(Debug)]
pub struct SandboxProfile {
    pub sandbox_profile_id: String,
    pub status: ProfileStatus,
    pub filesystem_mode: FilesystemMode,
}

/// What a sandbox lets a thread do with files.
#[derive(Debug, Clone, Copy, PartialEq, Eq, Structural)]
pub enum FilesystemMode {
    ReadOnly,
    WorkspaceWrite,
    TempOnly,
    IsolatedWorktree,
}

/// Whether a thread's goal is still being worked on.
#[derive(Debug, Clone, Copy, PartialEq, Eq, Structural)]
pub enum AgentGoalStatus {
    Active,
    Accomplished,
}

/// How a callee stands to its caller.
#[derive(Debug, Clone, Copy, PartialEq, Eq, Structural)]
pub enum InvocationRelationship {
    RootSupervisor,
    SupervisorDelegation,
    ReviewRequest,
    ProducerAssignment,
}

#[derive(Debug, Clone, Copy, PartialEq, Eq, Structural)]
pub enum InvocationStatus {
    Active,
    Completed,
}

/// The edge recorded for each delegation: who called whom, at which
/// security levels, for which goal.
#[derive(Debug)]
pub struct AgentInvocation {
    pub invocation_id: String,
    pub goal_id: String,
    pub task_id: String,
    pub caller_thread_id: Option<String>,
    pub caller_agent_id: Option<String>,
    pub caller_security_level: Option<u8>,
    pub callee_thread_id: String,
    pub callee_agent_id: String,
    pub callee_security_level: u8,
    pub relationship: InvocationRelationship,
    pub goal: String,
    pub status: InvocationStatus,
    pub created_at: String,
    pub updated_at: String,
}

impl AgentInvocation {
    /// A copy of this edge.
    pub fn duplicate(&self) -> (r: AgentInvocation)
        ensures
            r == *self,
    {
        AgentInvocation {
            invocation_id: self.invocation_id.clone(),
            goal_id: self.goal_id.clone(),
            task_id: self.task_id.clone(),
            caller_thread_id: copy_opt_string(&self.caller_thread_id),
            caller_agent_id: copy_opt_string(&self.caller_agent_id),
            caller_security_level: self.caller_security_level,
            callee_thread_id: self.callee_thread_id.clone(),
            callee_agent_id: self.callee_agent_id.clone(),
            callee_security_level: self.callee_security_level,
            relationship: self.relationship,
            goal: self.goal.clone(),
            status: self.status,
            created_at: self.created_at.clone(),
            updated_at: self.updated_at.clone(),
        }
    }
}

/// A request to start an agent on a task.
#[derive(Debug)]
pub struct SpawnAgentInput {
    pub task_id: String,
    pub role_profile_id: String,
    pub owner: String,
    pub local_goal: String,
    pub success_criteria: Vec<String>,
    pub failure_criteria: Vec<String>,
    pub parent_thread_id: Option<String>,
    pub workspace_roots: Vec<String>,
}

/// The fresh identifiers a spawned agent is given.
#[derive(Debug)]
pub struct SpawnIds {
    pub thread_id: String,
    pub agent_id: String,
    pub invocation_id: String,
    pub session_id: String,
    pub communication_profile_id: String,
}

// ---------------------------------------------------------------------------
// Profile lookups

pub open spec fn has_role(roles: Seq<RoleProfile>, id: Seq<char>) -> bool {
    exists|i: int| 0 <= i < roles.len() && roles[i].role_profile_id@ == id
}

pub open spec fn role_pos(roles: Seq<RoleProfile>, id: Seq<char>) -> int {
    choose|i: int| 0 <= i < roles.len() && roles[i].role_profile_id@ == id
}

pub open spec fn role_ids_unique(roles: Seq<RoleProfile>) -> bool {
    forall|i: int, j: int|
        0 <= i < roles.len() && 0 <= j < roles.len() && #[trigger] roles[i].role_profile_id@
            == #[trigger] roles[j].role_profile_id@ ==> i == j
}

pub open spec fn has_permission_profile(profiles: Seq<PermissionProfile>, id: Seq<char>) -> bool {
    exists|i: int| 0 <= i < profiles.len() && profiles[i].permission_profile_id@ == id
}

pub open spec fn permission_profile_pos(profiles: Seq<PermissionProfile>, id: Seq<char>) -> int {
    choose|i: int| 0 <= i < profiles.len() && profiles[i].permission_profile_id@ == id
}

pub open spec fn permission_profile_ids_unique(profiles: Seq<PermissionProfile>) -> bool {
    forall|i: int, j: int|
        0 <= i < profiles.len() && 0 <= j < profiles.len() && #[trigger] profiles[i].permission_profile_id@
            == #[trigger] profiles[j].permission_profile_id@ ==> i == j
}

pub open spec fn has_sandbox(profiles: Seq<SandboxProfile>, id: Seq<char>) -> bool {
    exists|i: int| 0 <= i < profiles.len() && profiles[i].sandbox_profile_id@ == id
}

pub open spec fn sandbox_pos(profiles: Seq<SandboxProfile>, id: Seq<char>) -> int {
    choose|i: int| 0 <= i < profiles.len() && profiles[i].sandbox_profile_id@ == id
}

pub open spec fn sandbox_ids_unique(profiles: Seq<SandboxProfile>) -> bool {
    forall|i: int, j: int|
        0 <= i < profiles.len() && 0 <= j < profiles.len() && #[trigger] profiles[i].sandbox_profile_id@
            == #[trigger] profiles[j].sandbox_profile_id@ ==> i == j
}

/// The role `id` exists and is active.
pub open spec fn role_active(state: KernelState, id: Seq<char>) -> bool {
    has_role(state.role_profiles@, id) && state.role_profiles@[role_pos(state.role_profiles@, id)].status
        == ProfileStatus::Active
}

/// The role `id`.
pub open spec fn role_of(state: KernelState, id: Seq<char>) -> RoleProfile {
    state.role_profiles@[role_pos(state.role_profiles@, id)]
}

/// The permission profile `id` exists and is active.
pub open spec fn permission_profile_active(state: KernelState, id: Seq<char>) -> bool {
    has_permission_profile(state.permission_profiles@, id)
        && state.permission_profiles@[permission_profile_pos(state.permission_profiles@, id)].status
        == ProfileStatus::Active
}

/// The permission profile `id`.
pub open spec fn permission_profile_of(state: KernelState, id: Seq<char>) -> PermissionProfile {
    state.permission_profiles@[permission_profile_pos(state.permission_profiles@, id)]
}

/// The sandbox profile `id` exists and is active.
pub open spec fn sandbox_active(state: KernelState, id: Seq<char>) -> bool {
    has_sandbox(state.sandbox_profiles@, id) && state.sandbox_profiles@[sandbox_pos(state.sandbox_profiles@, id)].status
        == ProfileStatus::Active
}

impl KernelState {
    /// The position of the role `id`, when it exists and is active.
    pub fn find_active_role(&self, id: &str) -> (r: Option<usize>)
        requires
            role_ids_unique(self.role_profiles@),
        ensures
            r.is_none() <==> !role_active(*self, id@),
            r.is_some() ==> r.unwrap() == role_pos(self.role_profiles@, id@) && r.unwrap() < self.role_profiles@.len(),
    {
        let mut i: usize = 0;
        while i < self.role_profiles.len()
            invariant
                i <= self.role_profiles@.len(),
                role_ids_unique(self.role_profiles@),
                forall|j: int| 0 <= j < i ==> self.role_profiles@[j].role_profile_id@ != id@,
            decreases self.role_profiles@.len() - i,
        {
            if str_eq(self.role_profiles[i].role_profile_id.as_str(), id) {
                proof {
                    let k = role_pos(self.role_profiles@, id@);
                    assert(self.role_profiles@[k].role_profile_id@ == self.role_profiles@[i as int].role_profile_id@);
                }
                if self.role_profiles[i].status == ProfileStatus::Active {
                    return Some(i);
                }
                return None;
            }
            i = i + 1;
        }
        None
    }

    /// The position of the permission profile `id`, when it exists and is active.
    pub fn find_active_permission_profile(&self, id: &str) -> (r: Option<usize>)
        requires
            permission_profile_ids_unique(self.permission_profiles@),
        ensures
            r.is_none() <==> !permission_profile_active(*self, id@),
            r.is_some() ==> r.unwrap() == permission_profile_pos(self.permission_profiles@, id@) && r.unwrap()
                < self.permission_profiles@.len(),
    {
        let mut i: usize = 0;
        while i < self.permission_profiles.len()
            invariant
                i <= self.permission_profiles@.len(),
                permission_profile_ids_unique(self.permission_profiles@),
                forall|j: int| 0 <= j < i ==> self.permission_profiles@[j].permission_profile_id@ != id@,
            decreases self.permission_profiles@.len() - i,
        {
            if str_eq(self.permission_profiles[i].permission_profile_id.as_str(), id) {
                proof {
                    let k = permission_profile_pos(self.permission_profiles@, id@);
                    assert(self.permission_profiles@[k].permission_profile_id@
                        == self.permission_profiles@[i as int].permission_profile_id@);
                }
                if self.permission_profiles[i].status == ProfileStatus::Active {
                    return Some(i);
                }
                return None;
            }
            i = i + 1;
        }
        None
    }

    /// Whether the sandbox profile `id` exists and is active.
    pub fn sandbox_is_active(&self, id: &str) -> (r: bool)
        requires
            sandbox_ids_unique(self.sandbox_profiles@),
        ensures
            r == sandbox_active(*self, id@),
    {
        let mut i: usize = 0;
        while i < self.sandbox_profiles.len()
            invariant
                i <= self.sandbox_profiles@.len(),
                sandbox_ids_unique(self.sandbox_profiles@),
                forall|j: int| 0 <= j < i ==> self.sandbox_profiles@[j].sandbox_profile_id@ != id@,
            decreases self.sandbox_profiles@.len() - i,
        {
            if str_eq(self.sandbox_profiles[i].sandbox_profile_id.as_str(), id) {
                proof {
                    let k = sandbox_pos(self.sandbox_profiles@, id@);
                    assert(self.sandbox_profiles@[k].sandbox_profile_id@ == self.sandbox_profiles@[i as int].sandbox_profile_id@);
                }
                return self.sandbox_profiles[i].status == ProfileStatus::Active;
            }
            i = i + 1;
        }
        false
    }
}

// ---------------------------------------------------------------------------
// Security levels, paths and relationships

/// The level of a root agent; a human stands at level 0.
pub open spec fn root_agent_level() -> u8 {
    1
}

/// A child stands one level below its parent (the level saturates at the top).
pub open spec fn child_level(parent: u8) -> u8 {
    if parent == u8::MAX { u8::MAX } else { (parent + 1) as u8 }
}

/// Control-plane actions are open to levels 0 and 1 only.
pub open spec fn allows_control_plane(level: u8) -> bool {
    level <= 1
}

fn child_security_level(parent: u8) -> (r: u8)
    ensures
        r == child_level(parent),
{
    if parent == u8::MAX { u8::MAX } else { parent + 1 }
}

/// `s` with every leading copy of `p` removed.
pub open spec fn trim_start_all(s: Seq<char>, p: Seq<char>) -> Seq<char>
    decreases s.len(),
{
    if p.len() > 0 && p.len() <= s.len() && s.subrange(0, p.len() as int) == p {
        trim_start_all(s.subrange(p.len() as int, s.len() as int), p)
    } else {
        s
    }
}

/// The path of a new agent: `/` for a root, else `/<parent id without
/// its thread_ prefix>/<role name>`.
pub open spec fn agent_path_for(parent: Option<Seq<char>>, role_name: Seq<char>) -> Seq<char> {
    match parent {
        Some(p) => "/"@ + trim_start_all(p, "thread_"@) + "/"@ + role_name,
        None => "/"@,
    }
}

fn trim_thread_prefix(s: &str) -> (r: String)
    ensures
        r@ == trim_start_all(s@, "thread_"@),
{
    let p = "thread_";
    proof {
        reveal_strlit("thread_");
    }
    let n = s.unicode_len();
    let m = p.unicode_len();
    let mut i: usize = 0;
    assert(s@.subrange(0, n as int) =~= s@);
    loop
        invariant
            n == s@.len(),
            m == p@.len(),
            m == 7,
            p@ == "thread_"@,
            i <= n,
            trim_start_all(s@, p@) == trim_start_all(s@.subrange(i as int, n as int), p@),
        decreases n - i,
    {
        let rest = s.substring_char(i, n);
        if m <= n - i && str_eq(rest.substring_char(0, m), p) {
            assert(s@.subrange(i as int, n as int).subrange(m as int, (n - i) as int) =~= s@.subrange(
                (i + m) as int,
                n as int,
            ));
            i = i + m;
        } else {
            return String::from_str(rest);
        }
    }
}

fn agent_path(parent_thread_id: &Option<String>, role_name: &str) -> (r: String)
    ensures
        r@ == agent_path_for(opt_text(*parent_thread_id), role_name@),
{
    match parent_thread_id {
        Some(parent) => {
            let mut path = String::from_str("/");
            let trimmed = trim_thread_prefix(parent.as_str());
            path.append(trimmed.as_str());
            path.append("/");
            path.append(role_name);
            path
        },
        None => String::from_str("/"),
    }
}

/// How a spawned agent stands to its caller, by role name.
pub open spec fn relationship_for(has_parent: bool, role_name: Seq<char>) -> InvocationRelationship {
    if role_name == "SupervisorAgent"@ {
        if has_parent {
            InvocationRelationship::SupervisorDelegation
        } else {
            InvocationRelationship::RootSupervisor
        }
    } else if role_name == "ReviewerAgent"@ {
        InvocationRelationship::ReviewRequest
    } else {
        InvocationRelationship::ProducerAssignment
    }
}

fn invocation_relationship(has_parent: bool, role_name: &str) -> (r: InvocationRelationship)
    ensures
        r == relationship_for(has_parent, role_name@),
{
    if str_eq(role_name, "SupervisorAgent") {
        if has_parent {
            InvocationRelationship::SupervisorDelegation
        } else {
            InvocationRelationship::RootSupervisor
        }
    } else if str_eq(role_name, "ReviewerAgent") {
        InvocationRelationship::ReviewRequest
    } else {
        InvocationRelationship::ProducerAssignment
    }
}

// ---------------------------------------------------------------------------
// The default communication profile

/// The profile every spawned agent starts with: status reports to its
/// supervisor, goal-scoped posts on the standard channels, and, for a
/// supervisor only, questions and escalations to a human.
pub open spec fn is_default_profile(
    p: CommunicationProfile,
    id: Seq<char>,
    agent_id: Seq<char>,
    thread_id: Seq<char>,
    role_name: Seq<char>,
    now: Seq<char>,
) -> bool {
    let supervisor = role_name == "SupervisorAgent"@;
    &&& p.communication_profile_id@ == id
    &&& p.agent_id@ == agent_id
    &&& p.thread_id@ == thread_id
    &&& p.status == ProfileStatus::Active
    &&& p.supervisor.enabled
    &&& texts(p.supervisor.allowed_message_types@) == seq![
        "StatusUpdate"@,
        "BlockerReport"@,
        "RiskReport"@,
        "CompletionReport"@,
    ]
    &&& !p.supervisor.trigger_turn
    &&& opt_text(p.supervisor.rate_limit) == Some("10/hour"@)
    &&& p.blackboard.enabled
    &&& p.blackboard.allowed_scopes == CommunicationScope::Goal
    &&& texts(p.blackboard.allowed_channels@) == seq![
        "facts"@,
        "risks"@,
        "blockers"@,
        "artifacts"@,
        "evidence"@,
        "test-results"@,
        "review-results"@,
    ]
    &&& texts(p.blackboard.allowed_entry_types@) == seq![
        "known_fact"@,
        "hypothesis"@,
        "risk"@,
        "open_question"@,
        "test_result"@,
        "review_result"@,
    ]
    &&& p.blackboard.broadcast == supervisor
    &&& !p.blackboard.requires_review
    &&& p.human.enabled == supervisor
    &&& texts(p.human.allowed_message_types@) == seq!["HumanQuestion"@, "HumanEscalation"@, "ApprovalRequest"@]
    &&& p.human.requires_supervisor_approval == !supervisor
    &&& p.human.attention_budget == Some(3u32)
    &&& p.completion == (CompletionRoute {
        required_report: true,
        allowed_artifact_refs: true,
        allowed_evidence_refs: true,
    })
    &&& p.created_at@ == now
}

pub(crate) fn text_list(items: &[&str]) -> (r: Vec<String>)
    ensures
        texts(r@) == items@.map_values(|s: &str| s@),
{
    let mut out: Vec<String> = Vec::new();
    let mut i: usize = 0;
    while i < items.len()
        invariant
            i <= items@.len(),
            out@.len() == i,
            forall|j: int| 0 <= j < i ==> #[trigger] out@[j]@ == items@[j]@,
        decreases items@.len() - i,
    {
        let t = String::from_str(items[i]);
        out.push(t);
        i = i + 1;
    }
    assert(texts(out@) =~= items@.map_values(|s: &str| s@));
    out
}

/// The communication profile a new agent is given.
pub fn default_communication_profile(
    id: String,
    agent_id: String,
    thread_id: String,
    role_name: &str,
    now: String,
) -> (r: CommunicationProfile)
    ensures
        is_default_profile(r, id@, agent_id@, thread_id@, role_name@, now@),
{
    let supervisor = str_eq(role_name, "SupervisorAgent");
    let supervisor_types = text_list(&["StatusUpdate", "BlockerReport", "RiskReport", "CompletionReport"]);
    let channels = text_list(
        &["facts", "risks", "blockers", "artifacts", "evidence", "test-results", "review-results"],
    );
    let entry_types = text_list(
        &["known_fact", "hypothesis", "risk", "open_question", "test_result", "review_result"],
    );
    let human_types = text_list(&["HumanQuestion", "HumanEscalation", "ApprovalRequest"]);
    let r = CommunicationProfile {
        communication_profile_id: id,
        agent_id,
        thread_id,
        status: ProfileStatus::Active,
        supervisor: SupervisorRoute {
            enabled: true,
            allowed_message_types: supervisor_types,
            trigger_turn: false,
            rate_limit: Some(String::from_str("10/hour")),
        },
        blackboard: BlackboardRoute {
            enabled: true,
            allowed_scopes: CommunicationScope::Goal,
            allowed_channels: channels,
            allowed_entry_types: entry_types,
            broadcast: supervisor,
            requires_review: false,
        },
        human: HumanRoute {
            enabled: supervisor,
            allowed_message_types: human_types,
            requires_supervisor_approval: !supervisor,
            attention_budget: Some(3),
        },
        completion: CompletionRoute { required_report: true, allowed_artifact_refs: true, allowed_evidence_refs: true },
        created_at: now,
    };
    assert(texts(r.supervisor.allowed_message_types@) =~= seq![
        "StatusUpdate"@,
        "BlockerReport"@,
        "RiskReport"@,
        "CompletionReport"@,
    ]);
    assert(texts(r.blackboard.allowed_channels@) =~= seq![
        "facts"@,
        "risks"@,
        "blockers"@,
        "artifacts"@,
        "evidence"@,
        "test-results"@,
        "review-results"@,
    ]);
    assert(texts(r.blackboard.allowed_entry_types@) =~= seq![
        "known_fact"@,
        "hypothesis"@,
        "risk"@,
        "open_question"@,
        "test_result"@,
        "review_result"@,
    ]);
    assert(texts(r.human.allowed_message_types@) =~= seq!["HumanQuestion"@, "HumanEscalation"@, "ApprovalRequest"@]);
    r
}

// ---------------------------------------------------------------------------
// Thread records

/// Two thread records that agree field by field.
pub open spec fn same_thread(a: ThreadRecord, b: ThreadRecord) -> bool {
    &&& a.agent_id == b.agent_id
    &&& a.session_id == b.session_id
    &&& a.task_id == b.task_id
    &&& a.goal_id == b.goal_id
    &&& a.parent_thread_id == b.parent_thread_id
    &&& a.provider_profile_id == b.provider_profile_id
    &&& a.communication_profile_id == b.communication_profile_id
    &&& a.role == b.role
    &&& a.security_level == b.security_level
    &&& a.permissions_snapshot@ == b.permissions_snapshot@
    &&& a.lifecycle == b.lifecycle
    &&& a.invocation_id == b.invocation_id
    &&& a.root_thread_id == b.root_thread_id
    &&& a.agent_path == b.agent_path
    &&& a.owner == b.owner
    &&& a.role_profile_id == b.role_profile_id
    &&& a.permission_profile_id == b.permission_profile_id
    &&& a.sandbox_profile_id == b.sandbox_profile_id
    &&& a.goal == b.goal
    &&& a.goal_status == b.goal_status
    &&& a.goal_revision == b.goal_revision
    &&& a.accomplished_at == b.accomplished_at
    &&& a.success_criteria@ == b.success_criteria@
    &&& a.failure_criteria@ == b.failure_criteria@
    &&& a.workspace_roots@ == b.workspace_roots@
    &&& a.created_at == b.created_at
}

impl ThreadRecord {
    /// A copy of this thread record.
    pub fn duplicate(&self) -> (r: ThreadRecord)
        ensures
            same_thread(r, *self),
    {
        ThreadRecord {
            agent_id: self.agent_id.clone(),
            session_id: self.session_id.clone(),
            task_id: self.task_id.clone(),
            goal_id: self.goal_id.clone(),
            parent_thread_id: copy_opt_string(&self.parent_thread_id),
            provider_profile_id: self.provider_profile_id.clone(),
            communication_profile_id: self.communication_profile_id.clone(),
            role: self.role.clone(),
            security_level: self.security_level,
            permissions_snapshot: self.permissions_snapshot.duplicate(),
            lifecycle: self.lifecycle.duplicate(),
            invocation_id: self.invocation_id.clone(),
            root_thread_id: self.root_thread_id.clone(),
            agent_path: self.agent_path.clone(),
            owner: self.owner.clone(),
            role_profile_id: self.role_profile_id.clone(),
            permission_profile_id: self.permission_profile_id.clone(),
            sandbox_profile_id: self.sandbox_profile_id.clone(),
            goal: self.goal.clone(),
            goal_status: self.goal_status,
            goal_revision: self.goal_revision,
            accomplished_at: copy_opt_string(&self.accomplished_at),
            success_criteria: copy_strings(&self.success_criteria),
            failure_criteria: copy_strings(&self.failure_criteria),
            workspace_roots: copy_strings(&self.workspace_roots),
            created_at: self.created_at.clone(),
        }
    }
}

// ---------------------------------------------------------------------------
// Spawning

/// The view of an optional permission set.
pub open spec fn opt_permissions(o: Option<PermissionSet>) -> Option<PermissionView> {
    match o {
        Some(e) => Some(e@),
        None => None,
    }
}

/// The parent thread a spawn names, if it names one.
pub open spec fn parent_thread(state: KernelState, input: SpawnAgentInput) -> Option<ThreadRecord> {
    match input.parent_thread_id {
        Some(p) => Some(state.threads@[thread_pos(state.threads@, p@)]),
        None => None,
    }
}

/// The permission set of the role a spawn asks for.
pub open spec fn spawn_role_permission(state: KernelState, input: SpawnAgentInput) -> PermissionView {
    permission_profile_of(state, role_of(state, input.role_profile_id@).default_permission_profile_id@).permission_set@
}

/// The permission snapshot a spawn gives the child, or `None` when the
/// request exceeds what the parent (or, for a root, the role) has.
pub open spec fn spawn_snapshot(state: KernelState, input: SpawnAgentInput, explicit: Option<PermissionView>) -> Option<PermissionView> {
    let role_permission = spawn_role_permission(state, input);
    let parent = match parent_thread(state, input) {
        Some(p) => effective_permissions(state.permission_grants@, p),
        None => role_permission,
    };
    let requested = match explicit {
        Some(e) => e,
        None => role_permission,
    };
    child_snapshot_outcome(parent, role_permission, requested)
}

/// Whether the parent's role refuses the child's role: a parent with a role
/// must have an active role that lists the child role (or `*`).
pub open spec fn parent_role_error(state: KernelState, parent: ThreadRecord, child_role: Seq<char>) -> Option<AgentOsError> {
    if parent.role_profile_id@.len() == 0 {
        None
    } else if !role_active(state, parent.role_profile_id@) {
        Some(AgentOsError::NotFound("active role profile"))
    } else if !names_allow(texts(role_of(state, parent.role_profile_id@).allowed_child_role_profile_ids@), child_role) {
        Some(AgentOsError::PermissionDenied("parent role cannot spawn requested child role"))
    } else {
        None
    }
}

/// Why a spawn is refused, checked in order, or `None` when it goes ahead.
pub open spec fn spawn_error(state: KernelState, input: SpawnAgentInput, explicit: Option<PermissionView>) -> Option<AgentOsError> {
    if !has_task(state.tasks@, input.task_id@) {
        Some(AgentOsError::NotFound("task"))
    } else if !role_active(state, input.role_profile_id@) {
        Some(AgentOsError::NotFound("active role profile"))
    } else if !permission_profile_active(state, role_of(state, input.role_profile_id@).default_permission_profile_id@) {
        Some(AgentOsError::NotFound("active permission profile"))
    } else if !sandbox_active(state, role_of(state, input.role_profile_id@).default_sandbox_profile_id@) {
        Some(AgentOsError::NotFound("active sandbox profile"))
    } else if input.parent_thread_id is Some && !has_thread(state.threads@, input.parent_thread_id.unwrap()@) {
        Some(AgentOsError::NotFound("parent thread"))
    } else if parent_thread(state, input) is Some && parent_role_error(
        state,
        parent_thread(state, input).unwrap(),
        input.role_profile_id@,
    ) is Some {
        parent_role_error(state, parent_thread(state, input).unwrap(), input.role_profile_id@)
    } else if spawn_snapshot(state, input, explicit) is None {
        Some(AgentOsError::PermissionDenied("child permissions must be a subset of parent effective permissions"))
    } else {
        None
    }
}

/// The ids a spawn is given are not in use.
pub open spec fn spawn_ids_fresh(state: KernelState, ids: SpawnIds) -> bool {
    &&& !has_thread(state.threads@, ids.thread_id@)
    &&& !has_comm_profile(state.communication_profiles@, ids.communication_profile_id@)
    &&& !has_invocation(state.invocations@, ids.invocation_id@)
}

/// The thread record a successful spawn creates.
pub open spec fn is_spawned_thread(
    t: ThreadRecord,
    state: KernelState,
    input: SpawnAgentInput,
    explicit: Option<PermissionView>,
    ids: SpawnIds,
    now: Seq<char>,
) -> bool {
    let task = state.tasks@[task_pos(state.tasks@, input.task_id@)];
    let role = role_of(state, input.role_profile_id@);
    let parent = parent_thread(state, input);
    &&& t.agent_id@ == ids.agent_id@
    &&& t.session_id@ == ids.session_id@
    &&& t.task_id@ == task.task_id@
    &&& t.goal_id@ == task.goal_id@
    &&& opt_text(t.parent_thread_id) == opt_text(input.parent_thread_id)
    &&& t.provider_profile_id@ == (match role.default_provider_profile_id {
        Some(p) => p@,
        None => "prov_default"@,
    })
    &&& t.communication_profile_id@ == ids.communication_profile_id@
    &&& t.role@ == role.name@
    &&& t.security_level == (match parent {
        Some(p) => child_level(p.security_level),
        None => root_agent_level(),
    })
    &&& t.permissions_snapshot@ == spawn_snapshot(state, input, explicit).unwrap()
    &&& t.lifecycle.thread_id@ == ids.thread_id@
    &&& t.lifecycle.status == ThreadStatus::Created
    &&& t.lifecycle.status_reason is None
    &&& t.lifecycle.termination_reason is None
    &&& t.lifecycle.active_turn.turn_id is None
    &&& t.lifecycle.active_turn.status is None
    &&& t.lifecycle.active_turn.active_step_id is None
    &&& t.lifecycle.active_turn.started_at is None
    &&& !t.lifecycle.recovery_dirty
    &&& t.lifecycle.last_checkpoint_id is None
    &&& t.lifecycle.updated_at@ == now
    &&& t.invocation_id@ == ids.invocation_id@
    &&& t.root_thread_id@ == (match parent {
        Some(p) => p.root_thread_id@,
        None => ids.thread_id@,
    })
    &&& t.agent_path@ == agent_path_for(opt_text(input.parent_thread_id), role.name@)
    &&& t.owner@ == input.owner@
    &&& t.role_profile_id@ == role.role_profile_id@
    &&& t.permission_profile_id@ == role.default_permission_profile_id@
    &&& t.sandbox_profile_id@ == role.default_sandbox_profile_id@
    &&& t.goal@ == input.local_goal@
    &&& t.goal_status == AgentGoalStatus::Active
    &&& t.goal_revision == 1
    &&& t.accomplished_at is None
    &&& t.success_criteria@ == input.success_criteria@
    &&& t.failure_criteria@ == input.failure_criteria@
    &&& t.workspace_roots@ == input.workspace_roots@
    &&& t.created_at@ == now
}

/// The invocation edge a successful spawn records.
pub open spec fn is_spawn_invocation(
    v: AgentInvocation,
    state: KernelState,
    input: SpawnAgentInput,
    ids: SpawnIds,
    callee_level: u8,
    now: Seq<char>,
) -> bool {
    let task = state.tasks@[task_pos(state.tasks@, input.task_id@)];
    let role = role_of(state, input.role_profile_id@);
    let parent = parent_thread(state, input);
    &&& v.invocation_id@ == ids.invocation_id@
    &&& v.goal_id@ == task.goal_id@
    &&& v.task_id@ == task.task_id@
    &&& opt_text(v.caller_thread_id) == (match parent {
        Some(p) => Some(p.lifecycle.thread_id@),
        None => None,
    })
    &&& opt_text(v.caller_agent_id) == (match parent {
        Some(p) => Some(p.agent_id@),
        None => None,
    })
    &&& v.caller_security_level == (match parent {
        Some(p) => Some(p.security_level),
        None => None,
    })
    &&& v.callee_thread_id@ == ids.thread_id@
    &&& v.callee_agent_id@ == ids.agent_id@
    &&& v.callee_security_level == callee_level
    &&& v.relationship == relationship_for(parent is Some, role.name@)
    &&& v.goal@ == input.local_goal@
    &&& v.status == InvocationStatus::Active
    &&& v.created_at@ == now
    &&& v.updated_at@ == now
}

impl KernelState {
    fn check_parent_role(&self, parent_role_profile_id: &str, child_role: &str) -> (r: Result<(), AgentOsError>)
        requires
            self.wf(),
        ensures
            ({
                let fake = parent_role_profile_id@;
                match (if fake.len() == 0 {
                    None
                } else if !role_active(*self, fake) {
                    Some(AgentOsError::NotFound("active role profile"))
                } else if !names_allow(texts(role_of(*self, fake).allowed_child_role_profile_ids@), child_role@) {
                    Some(AgentOsError::PermissionDenied("parent role cannot spawn requested child role"))
                } else {
                    None
                }) {
                    Some(e) => r == Err::<(), AgentOsError>(e),
                    None => r is Ok,
                }
            }),
    {
        if parent_role_profile_id.unicode_len() == 0 {
            return Ok(());
        }
        let k = match self.find_active_role(parent_role_profile_id) {
            None => return Err(AgentOsError::NotFound("active role profile")),
            Some(k) => k,
        };
        if !string_list_allows(self.role_profiles[k].allowed_child_role_profile_ids.as_slice(), child_role) {
            return Err(AgentOsError::PermissionDenied("parent role cannot spawn requested child role"));
        }
        Ok(())
    }

    /// Starts an agent on a task under the role `input.role_profile_id`,
    /// with the role's own permissions. See `spawn_agent_with_permissions`.
    pub fn spawn_agent(&mut self, input: SpawnAgentInput, ids: SpawnIds, now: String) -> (r: Result<ThreadRecord, AgentOsError>)
        requires
            old(self).wf(),
            spawn_ids_fresh(*old(self), ids),
        ensures
            spawn_agent_post(*old(self), *final(self), input, ids, now, r),
    {
        self.spawn_agent_with_permissions(input, None, ids, now)
    }

    /// Starts an agent on a task. The task, the role (active), the role's
    /// permission and sandbox profiles (active) and the parent thread, when
    /// one is named, must exist; a parent with a role must be allowed to
    /// spawn the child's role; and the requested permissions (or the role's)
    /// must lie within the parent's effective permissions (or, for a root,
    /// the role's). The child then gets the thread `ids.thread_id`, the
    /// default communication profile and an invocation edge from its
    /// parent; its security level is one below its parent's, or the root
    /// level; its permissions are the request narrowed to its role.
    pub fn spawn_agent_with_permissions(
        &mut self,
        input: SpawnAgentInput,
        explicit_permissions: Option<PermissionSet>,
        ids: SpawnIds,
        now: String,
    ) -> (r: Result<ThreadRecord, AgentOsError>)
        requires
            old(self).wf(),
            spawn_ids_fresh(*old(self), ids),
        ensures
            final(self).wf(),
            ({
                let explicit = opt_permissions(explicit_permissions);
                match spawn_error(*old(self), input, explicit) {
                    Some(e) => r == Err::<ThreadRecord, AgentOsError>(e) && *final(self) == *old(self),
                    None => r matches Ok(t) && {
                        let role = role_of(*old(self), input.role_profile_id@);
                        &&& final(self).threads@.len() == old(self).threads@.len() + 1
                        &&& final(self).threads@.drop_last() == old(self).threads@
                        &&& same_thread(t, final(self).threads@.last())
                        &&& is_spawned_thread(t, *old(self), input, explicit, ids, now@)
                        &&& final(self).events@.len() == old(self).events@.len() + 3
                        &&& final(self).events@.subrange(0, old(self).events@.len() as int) == old(self).events@
                        &&& final(self).events@[old(self).events@.len() as int] matches KernelEvent::ThreadConfigured(x0)
                            && final(self).threads@.last().copies(&x0)
                        &&& final(self).events@[old(self).events@.len() + 1int] matches KernelEvent::CommunicationProfileAssigned(x2)
                            && final(self).communication_profiles@.last().copies(&x2)
                        &&& final(self).events@.last() matches KernelEvent::AgentInvocationRecorded(x1)
                            && final(self).invocations@.last().copies(&x1)
                        &&& final(self).communication_profiles@.len() == old(self).communication_profiles@.len() + 1
                        &&& final(self).communication_profiles@.drop_last() == old(self).communication_profiles@
                        &&& is_default_profile(
                            final(self).communication_profiles@.last(),
                            ids.communication_profile_id@,
                            ids.agent_id@,
                            ids.thread_id@,
                            role.name@,
                            now@,
                        )
                        &&& final(self).invocations@.len() == old(self).invocations@.len() + 1
                        &&& final(self).invocations@.drop_last() == old(self).invocations@
                        &&& is_spawn_invocation(
                            final(self).invocations@.last(),
                            *old(self),
                            input,
                            ids,
                            t.security_level,
                            now@,
                        )
                        &&& *final(self) == (KernelState {
                            threads: final(self).threads,
                            communication_profiles: final(self).communication_profiles,
                            invocations: final(self).invocations,
                            events: final(self).events,
                            ..*old(self)
                        })
                    },
                }
            }),
    {
        let ti = match self.find_task(input.task_id.as_str()) {
            None => return Err(AgentOsError::NotFound("task")),
            Some(ti) => ti,
        };
        let ri = match self.find_active_role(input.role_profile_id.as_str()) {
            None => return Err(AgentOsError::NotFound("active role profile")),
            Some(ri) => ri,
        };
        let pi = match self.find_active_permission_profile(self.role_profiles[ri].default_permission_profile_id.as_str()) {
            None => return Err(AgentOsError::NotFound("active permission profile")),
            Some(pi) => pi,
        };
        if !self.sandbox_is_active(self.role_profiles[ri].default_sandbox_profile_id.as_str()) {
            return Err(AgentOsError::NotFound("active sandbox profile"));
        }
        let parent_index: Option<usize> = match &input.parent_thread_id {
            None => None,
            Some(parent_id) => {
                let k = match self.find_thread(parent_id.as_str()) {
                    None => return Err(AgentOsError::NotFound("parent thread")),
                    Some(k) => k,
                };
                match self.check_parent_role(self.threads[k].role_profile_id.as_str(), input.role_profile_id.as_str()) {
                    Err(e) => return Err(e),
                    Ok(()) => {},
                }
                Some(k)
            },
        };
        let parent_permissions = match parent_index {
            Some(k) => Some(effective_permission_set_for_thread(&self.permission_grants, &self.threads[k])),
            None => None,
        };
        let snapshot = match child_permission_snapshot(
            parent_permissions.as_ref(),
            &self.permission_profiles[pi].permission_set,
            explicit_permissions,
        ) {
            Err(e) => return Err(e),
            Ok(s) => s,
        };
        let role = &self.role_profiles[ri];
        let security_level = match parent_index {
            Some(k) => child_security_level(self.threads[k].security_level),
            None => 1,
        };
        let root_thread_id = match parent_index {
            Some(k) => self.threads[k].root_thread_id.clone(),
            None => ids.thread_id.clone(),
        };
        let provider_profile_id = match &role.default_provider_profile_id {
            Some(p) => p.clone(),
            None => String::from_str("prov_default"),
        };
        let relationship = invocation_relationship(parent_index.is_some(), role.name.as_str());
        let (caller_thread_id, caller_agent_id, caller_security_level) = match parent_index {
            Some(k) => (
                Some(self.threads[k].lifecycle.thread_id.clone()),
                Some(self.threads[k].agent_id.clone()),
                Some(self.threads[k].security_level),
            ),
            None => (None, None, None),
        };
        let path = agent_path(&input.parent_thread_id, role.name.as_str());
        let profile = default_communication_profile(
            ids.communication_profile_id.clone(),
            ids.agent_id.clone(),
            ids.thread_id.clone(),
            role.name.as_str(),
            now.clone(),
        );
        let invocation = AgentInvocation {
            invocation_id: ids.invocation_id.clone(),
            goal_id: self.tasks[ti].goal_id.clone(),
            task_id: self.tasks[ti].task_id.clone(),
            caller_thread_id,
            caller_agent_id,
            caller_security_level,
            callee_thread_id: ids.thread_id.clone(),
            callee_agent_id: ids.agent_id.clone(),
            callee_security_level: security_level,
            relationship,
            goal: input.local_goal.clone(),
            status: InvocationStatus::Active,
            created_at: now.clone(),
            updated_at: now.clone(),
        };
        let thread = ThreadRecord {
            agent_id: ids.agent_id,
            session_id: ids.session_id,
            task_id: self.tasks[ti].task_id.clone(),
            goal_id: self.tasks[ti].goal_id.clone(),
            parent_thread_id: input.parent_thread_id,
            provider_profile_id,
            communication_profile_id: ids.communication_profile_id,
            role: role.name.clone(),
            security_level,
            permissions_snapshot: snapshot,
            lifecycle: ThreadLifecycle {
                thread_id: ids.thread_id,
                status: ThreadStatus::Created,
                status_reason: None,
                termination_reason: None,
                active_turn: ActiveTurn { turn_id: None, status: None, active_step_id: None, started_at: None },
                recovery_dirty: false,
                last_checkpoint_id: None,
                updated_at: now.clone(),
            },
            invocation_id: ids.invocation_id,
            root_thread_id,
            agent_path: path,
            owner: input.owner,
            role_profile_id: role.role_profile_id.clone(),
            permission_profile_id: role.default_permission_profile_id.clone(),
            sandbox_profile_id: role.default_sandbox_profile_id.clone(),
            goal: input.local_goal,
            goal_status: AgentGoalStatus::Active,
            goal_revision: 1,
            accomplished_at: None,
            success_criteria: input.success_criteria,
            failure_criteria: input.failure_criteria,
            workspace_roots: input.workspace_roots,
            created_at: now,
        };
        let copy = thread.duplicate();
        let logged = thread.log_copy();
        let ghost pre = *self;
        let ghost x = thread;
        self.threads.push(thread);
        proof {
            assert(self.threads@ =~= pre.threads@.push(x));
        }
        let e = KernelEvent::ThreadConfigured(logged);
        let ghost ge = e;
        self.log_thread(e, Ghost(pre), Ghost(x));
        let ghost pre1 = *self;
        let ghost z = profile;
        let logged_profile = profile.log_copy();
        self.communication_profiles.push(profile);
        proof {
            assert(z.communication_profile_id@ == ids.communication_profile_id@);
            assert forall|i: int| 0 <= i < pre1.communication_profiles@.len() implies #[trigger] pre1.communication_profiles@[i].key_of()
                != z.key_of() by {
                if pre1.communication_profiles@[i].communication_profile_id@ == ids.communication_profile_id@ {
                    assert(has_comm_profile(old(self).communication_profiles@, ids.communication_profile_id@));
                }
            }
            crate::events::lemma_with_record_new(pre1.communication_profiles@, z);
            assert(self.communication_profiles@ =~= pre1.communication_profiles@.push(z));
        }
        let e1 = KernelEvent::CommunicationProfileAssigned(logged_profile);
        let ghost ge1 = e1;
        self.log_profile(e1, Ghost(pre1), Ghost(z));
        let ghost pre2 = *self;
        let ghost y = invocation;
        let logged_edge = invocation.log_copy();
        self.invocations.push(invocation);
        proof {
            assert(y.invocation_id@ == ids.invocation_id@);
            assert forall|i: int| 0 <= i < pre2.invocations@.len() implies #[trigger] pre2.invocations@[i].key_of() != y.key_of() by {
                if pre2.invocations@[i].invocation_id@ == ids.invocation_id@ {
                    assert(has_invocation(old(self).invocations@, ids.invocation_id@));
                }
            }
            crate::events::lemma_with_record_new(pre2.invocations@, y);
            assert(self.invocations@ =~= pre2.invocations@.push(y));
        }
        let e2 = KernelEvent::AgentInvocationRecorded(logged_edge);
        let ghost ge2 = e2;
        self.log_invocation(e2, Ghost(pre2), Ghost(y));
        proof {
            assert(self.threads@.drop_last() =~= old(self).threads@);
            assert(self.threads@.last() == x);
            assert(self.events@ == pre.events@.push(ge).push(ge1).push(ge2));
            assert(self.communication_profiles@.last() == z);
            assert(self.events@.subrange(0, old(self).events@.len() as int) =~= old(self).events@);
            assert(self.communication_profiles@.drop_last() =~= old(self).communication_profiles@);
            assert(self.invocations@.drop_last() =~= old(self).invocations@);
            assert(self.invocations@.last() == y);
        }
        Ok(copy)
    }
}

// ---------------------------------------------------------------------------
// Retargeting and accomplishing goals

/// The first invocation with id `id`.
pub open spec fn first_invocation(invocations: Seq<AgentInvocation>, id: Seq<char>, i: int) -> bool {
    0 <= i < invocations.len() && invocations[i].invocation_id@ == id && forall|j: int|
        0 <= j < i ==> invocations[j].invocation_id@ != id
}

/// Some invocation has id `id`.
pub open spec fn has_invocation(invocations: Seq<AgentInvocation>, id: Seq<char>) -> bool {
    exists|i: int| 0 <= i < invocations.len() && invocations[i].invocation_id@ == id
}

/// The position of the first invocation with id `id`.
pub open spec fn invocation_pos(invocations: Seq<AgentInvocation>, id: Seq<char>) -> int {
    choose|i: int| first_invocation(invocations, id, i)
}

/// The first active invocation whose callee is thread `thread`.
pub open spec fn first_open_invocation(invocations: Seq<AgentInvocation>, thread: Seq<char>, i: int) -> bool {
    &&& 0 <= i < invocations.len()
    &&& invocations[i].callee_thread_id@ == thread
    &&& invocations[i].status == InvocationStatus::Active
    &&& forall|j: int|
        0 <= j < i ==> !(invocations[j].callee_thread_id@ == thread && invocations[j].status == InvocationStatus::Active)
}

/// Some invocation of thread `thread` is still active.
pub open spec fn has_open_invocation(invocations: Seq<AgentInvocation>, thread: Seq<char>) -> bool {
    exists|i: int|
        0 <= i < invocations.len() && invocations[i].callee_thread_id@ == thread && invocations[i].status
            == InvocationStatus::Active
}

/// The position of the first active invocation of thread `thread`.
pub open spec fn open_invocation_pos(invocations: Seq<AgentInvocation>, thread: Seq<char>) -> int {
    choose|i: int| first_open_invocation(invocations, thread, i)
}

/// The first thread that runs agent `agent`.
pub open spec fn agent_thread_index(threads: Seq<ThreadRecord>, agent: Seq<char>) -> int {
    choose|i: int| first_agent_thread(threads, agent, i)
}

/// The thread a goal change is aimed at, by thread id, agent id, both, or
/// else the requester's own thread `requester`.
pub open spec fn goal_target(
    threads: Seq<ThreadRecord>,
    requester: int,
    target_thread_id: Option<String>,
    target_agent_id: Option<String>,
) -> Result<int, AgentOsError> {
    match target_thread_id {
        Some(t) => if !has_thread(threads, t@) {
            Err(AgentOsError::NotFound("thread"))
        } else {
            match target_agent_id {
                Some(a) => if threads[thread_pos(threads, t@)].agent_id@ != a@ {
                    Err(AgentOsError::Validation("target_thread_id and target_agent_id identify different agents"))
                } else {
                    Ok(thread_pos(threads, t@))
                },
                None => Ok(thread_pos(threads, t@)),
            }
        },
        None => match target_agent_id {
            Some(a) => if !has_agent(threads, a@) {
                Err(AgentOsError::NotFound("agent"))
            } else {
                Ok(agent_thread_index(threads, a@))
            },
            None => Ok(requester),
        },
    }
}

/// Whether a goal change by `requester` may go ahead, and on which thread:
/// the requester must be a supervisor at a control-plane security level,
/// and may retarget its own thread or a direct child.
pub open spec fn set_goal_outcome(
    threads: Seq<ThreadRecord>,
    requester: Seq<char>,
    target_thread_id: Option<String>,
    target_agent_id: Option<String>,
) -> Result<int, AgentOsError> {
    if !has_agent(threads, requester) {
        Err(AgentOsError::NotFound("agent"))
    } else {
        let q = agent_thread_index(threads, requester);
        let rq = threads[q];
        if !allows_control_plane(rq.security_level) {
            Err(AgentOsError::PermissionDenied("set_goal requires security_level <= 1"))
        } else if rq.role@ != "SupervisorAgent"@ {
            Err(AgentOsError::PermissionDenied("set_goal requires SupervisorAgent role"))
        } else {
            match goal_target(threads, q, target_thread_id, target_agent_id) {
                Err(e) => Err(e),
                Ok(k) => if threads[k].lifecycle.thread_id@ != rq.lifecycle.thread_id@ && opt_text(
                    threads[k].parent_thread_id,
                ) != Some(rq.lifecycle.thread_id@) {
                    Err(AgentOsError::PermissionDenied("set_goal can only target the Supervisor thread or a direct child"))
                } else {
                    Ok(k)
                },
            }
        }
    }
}

/// The revision after `n`, saturating at the top.
pub open spec fn next_revision(n: u32) -> u32 {
    if n == u32::MAX { u32::MAX } else { (n + 1) as u32 }
}

/// A thread record with a new active goal.
pub open spec fn retargeted(
    t: ThreadRecord,
    goal: String,
    success_criteria: Option<Vec<String>>,
    failure_criteria: Option<Vec<String>>,
    now: String,
) -> ThreadRecord {
    ThreadRecord {
        goal,
        goal_status: AgentGoalStatus::Active,
        goal_revision: next_revision(t.goal_revision),
        accomplished_at: None,
        success_criteria: match success_criteria {
            Some(c) => c,
            None => t.success_criteria,
        },
        failure_criteria: match failure_criteria {
            Some(c) => c,
            None => t.failure_criteria,
        },
        lifecycle: ThreadLifecycle { updated_at: now, ..t.lifecycle },
        ..t
    }
}

impl KernelState {
    pub(crate) fn find_first_agent_thread(&self, agent_id: &str) -> (r: Option<usize>)
        ensures
            r.is_none() <==> !has_agent(self.threads@, agent_id@),
            r matches Some(i) ==> i == agent_thread_index(self.threads@, agent_id@) && i < self.threads@.len(),
    {
        let r = self.find_agent_thread(agent_id);
        proof {
            if let Some(i) = r {
                let c = agent_thread_index(self.threads@, agent_id@);
                assert(first_agent_thread(self.threads@, agent_id@, c));
                if c < i {
                    assert(self.threads@[c].agent_id@ != agent_id@);
                }
                if i < c {
                    assert(self.threads@[i as int].agent_id@ != agent_id@);
                }
            }
        }
        r
    }

    fn find_invocation(&self, invocation_id: &str) -> (r: Option<usize>)
        ensures
            r.is_none() <==> !has_invocation(self.invocations@, invocation_id@),
            r matches Some(i) ==> i == invocation_pos(self.invocations@, invocation_id@) && i < self.invocations@.len(),
    {
        let mut i: usize = 0;
        while i < self.invocations.len()
            invariant
                i <= self.invocations@.len(),
                forall|j: int| 0 <= j < i ==> self.invocations@[j].invocation_id@ != invocation_id@,
            decreases self.invocations@.len() - i,
        {
            if str_eq(self.invocations[i].invocation_id.as_str(), invocation_id) {
                proof {
                    let c = invocation_pos(self.invocations@, invocation_id@);
                    assert(first_invocation(self.invocations@, invocation_id@, i as int));
                    if c < i {
                        assert(self.invocations@[c].invocation_id@ != invocation_id@);
                    }
                    if i < c {
                        assert(self.invocations@[i as int].invocation_id@ != invocation_id@);
                    }
                }
                return Some(i);
            }
            i = i + 1;
        }
        None
    }

    fn find_open_invocation(&self, thread_id: &str) -> (r: Option<usize>)
        ensures
            r.is_none() <==> !has_open_invocation(self.invocations@, thread_id@),
            r matches Some(i) ==> i == open_invocation_pos(self.invocations@, thread_id@) && i < self.invocations@.len(),
    {
        let mut i: usize = 0;
        while i < self.invocations.len()
            invariant
                i <= self.invocations@.len(),
                forall|j: int|
                    0 <= j < i ==> !(self.invocations@[j].callee_thread_id@ == thread_id@ && self.invocations@[j].status
                        == InvocationStatus::Active),
            decreases self.invocations@.len() - i,
        {
            if str_eq(self.invocations[i].callee_thread_id.as_str(), thread_id) && self.invocations[i].status
                == InvocationStatus::Active {
                proof {
                    let c = open_invocation_pos(self.invocations@, thread_id@);
                    assert(first_open_invocation(self.invocations@, thread_id@, i as int));
                    if c < i {
                        assert(!(self.invocations@[c].callee_thread_id@ == thread_id@ && self.invocations@[c].status
                            == InvocationStatus::Active));
                    }
                    if i < c {
                        assert(!(self.invocations@[i as int].callee_thread_id@ == thread_id@
                            && self.invocations@[i as int].status == InvocationStatus::Active));
                    }
                }
                return Some(i);
            }
            i = i + 1;
        }
        None
    }

    fn resolve_goal_target(
        &self,
        requester_agent_id: &str,
        target_thread_id: &Option<String>,
        target_agent_id: &Option<String>,
    ) -> (r: Result<usize, AgentOsError>)
        requires
            self.wf(),
        ensures
            match set_goal_outcome(self.threads@, requester_agent_id@, *target_thread_id, *target_agent_id) {
                Err(e) => r == Err::<usize, AgentOsError>(e),
                Ok(k) => r matches Ok(x) && x as int == k && 0 <= k < self.threads@.len(),
            },
    {
        let q = match self.find_first_agent_thread(requester_agent_id) {
            None => return Err(AgentOsError::NotFound("agent")),
            Some(q) => q,
        };
        if self.threads[q].security_level > 1 {
            return Err(AgentOsError::PermissionDenied("set_goal requires security_level <= 1"));
        }
        if !str_eq(self.threads[q].role.as_str(), "SupervisorAgent") {
            return Err(AgentOsError::PermissionDenied("set_goal requires SupervisorAgent role"));
        }
        let k = match target_thread_id {
            Some(t) => {
                let k = match self.find_thread(t.as_str()) {
                    None => return Err(AgentOsError::NotFound("thread")),
                    Some(k) => k,
                };
                if let Some(a) = target_agent_id {
                    if !str_eq(self.threads[k].agent_id.as_str(), a.as_str()) {
                        return Err(AgentOsError::Validation("target_thread_id and target_agent_id identify different agents"));
                    }
                }
                k
            },
            None => match target_agent_id {
                Some(a) => match self.find_first_agent_thread(a.as_str()) {
                    None => return Err(AgentOsError::NotFound("agent")),
                    Some(k) => k,
                },
                None => q,
            },
        };
        let own = str_eq(self.threads[k].lifecycle.thread_id.as_str(), self.threads[q].lifecycle.thread_id.as_str());
        let child = match &self.threads[k].parent_thread_id {
            Some(p) => str_eq(p.as_str(), self.threads[q].lifecycle.thread_id.as_str()),
            None => false,
        };
        if !own && !child {
            return Err(AgentOsError::PermissionDenied("set_goal can only target the Supervisor thread or a direct child"));
        }
        Ok(k)
    }

    /// Gives a thread a new active goal. The requester must run as a
    /// `SupervisorAgent` at security level 0 or 1, and may target its own
    /// thread or a direct child's (by thread id, agent id, or both, which
    /// must agree). The goal revision goes up by one and any accomplishment
    /// is cleared; criteria that are given replace the old ones. A title
    /// renames the thread's task (an unknown task is then `NotFound`, after
    /// the thread has been retargeted), and the thread's invocation edge
    /// takes the new goal and becomes active again.
    #[verifier::spinoff_prover]
    #[verifier::rlimit(60)]
    pub fn set_agent_goal(
        &mut self,
        requester_agent_id: &str,
        target_thread_id: Option<String>,
        target_agent_id: Option<String>,
        goal: String,
        title: Option<String>,
        success_criteria: Option<Vec<String>>,
        failure_criteria: Option<Vec<String>>,
        now: String,
    ) -> (r: Result<ThreadRecord, AgentOsError>)
        requires
            old(self).wf(),
        ensures
            final(self).wf(),
            match set_goal_outcome(old(self).threads@, requester_agent_id@, target_thread_id, target_agent_id) {
                Err(e) => r == Err::<ThreadRecord, AgentOsError>(e) && *final(self) == *old(self),
                Ok(k) => {
                    let t = retargeted(old(self).threads@[k], goal, success_criteria, failure_criteria, now);
                    &&& final(self).threads@ == old(self).threads@.update(k, t)
                    &&& final(self).events@.len() > old(self).events@.len()
                    &&& final(self).events@.subrange(0, old(self).events@.len() as int) == old(self).events@
                    &&& final(self).events@[old(self).events@.len() as int] matches KernelEvent::ThreadConfigured(x0)
                        && final(self).threads@[k].copies(&x0)
                    &&& if title is Some && !has_task(old(self).tasks@, t.task_id@) {
                        &&& r == Err::<ThreadRecord, AgentOsError>(AgentOsError::NotFound("task"))
                        &&& final(self).events@.len() == old(self).events@.len() + 1
                        &&& *final(self) == (KernelState { threads: final(self).threads, events: final(self).events, ..*old(self) })
                    } else {
                        &&& r matches Ok(x) && same_thread(x, t)
                        &&& title matches Some(new_title) ==> {
                            let j = task_pos(old(self).tasks@, t.task_id@);
                            final(self).tasks@ == old(self).tasks@.update(
                                j,
                                crate::state::TaskRecord { title: new_title, updated_at: now, ..old(self).tasks@[j] },
                            )
                        }
                        &&& title is Some ==> (final(self).events@[old(self).events@.len() + 1int] matches crate::events::KernelEvent::TaskUpdated(x0)
                            && final(self).tasks@[task_pos(old(self).tasks@, t.task_id@)].copies(&x0))
                        &&& title is None ==> final(self).tasks == old(self).tasks
                        &&& final(self).events@.len() == old(self).events@.len() + 1 + (if title is Some { 1int } else { 0int })
                            + (if has_invocation(old(self).invocations@, t.invocation_id@) { 1int } else { 0int })
                        &&& has_invocation(old(self).invocations@, t.invocation_id@) ==> {
                            let v = invocation_pos(old(self).invocations@, t.invocation_id@);
                            &&& final(self).invocations@ == old(self).invocations@.update(
                                v,
                                AgentInvocation {
                                    goal,
                                    status: InvocationStatus::Active,
                                    updated_at: now,
                                    ..old(self).invocations@[v]
                                },
                            )
                            &&& final(self).events@.last() matches KernelEvent::AgentInvocationRecorded(x1)
                                && final(self).invocations@[v].copies(&x1)
                        }
                        &&& !has_invocation(old(self).invocations@, t.invocation_id@) ==> final(self).invocations
                            == old(self).invocations
                        &&& *final(self) == (KernelState {
                            threads: final(self).threads,
                            tasks: final(self).tasks,
                            invocations: final(self).invocations,
                            events: final(self).events,
                            ..*old(self)
                        })
                    }
                },
            },
    {
        let k = match self.resolve_goal_target(requester_agent_id, &target_thread_id, &target_agent_id) {
            Err(e) => return Err(e),
            Ok(k) => k,
        };
        let ghost before = *self;
        let mut rec = self.threads.remove(k);
        rec.goal = goal.clone();
        rec.goal_status = AgentGoalStatus::Active;
        rec.goal_revision = if rec.goal_revision == u32::MAX { u32::MAX } else { rec.goal_revision + 1 };
        rec.accomplished_at = None;
        if let Some(c) = success_criteria {
            rec.success_criteria = c;
        }
        if let Some(c) = failure_criteria {
            rec.failure_criteria = c;
        }
        rec.lifecycle.updated_at = now.clone();
        let result = rec.duplicate();
        let task_id = rec.task_id.clone();
        let invocation_id = rec.invocation_id.clone();
        let logged = rec.log_copy();
        let ghost x = rec;
        self.threads.insert(k, rec);
        proof {
            assert(self.threads@ =~= before.threads@.update(k as int, x));
            assert(before.threads@[k as int].lifecycle.thread_id@ == x.lifecycle.thread_id@);
        }
        let e = KernelEvent::ThreadConfigured(logged);
        let ghost ge = e;
        self.log_thread(e, Ghost(before), Ghost(x));
        proof {
            assert(self.events@ == before.events@.push(ge));
            assert(self.events@.subrange(0, before.events@.len() as int) =~= before.events@);
            assert(self.threads@[k as int] == x);
        }
        let ghost thread_logged = *self;
        if let Some(new_title) = title {
            let update = crate::tasks::UpdateTaskInput {
                task_id,
                status: None,
                blocked_reason: None,
                owner_agent_id: None,
                title: Some(new_title),
                description: None,
            };
            match self.update_task(update, now.clone()) {
                Err(e) => return Err(e),
                Ok(_) => {},
            }
            proof {
                assert(self.events@.subrange(0, before.events@.len() as int) =~= thread_logged.events@.subrange(
                    0,
                    before.events@.len() as int,
                ));
                assert(self.events@[before.events@.len() as int] == thread_logged.events@[before.events@.len() as int]);
            }
        }
        if let Some(v) = self.find_invocation(invocation_id.as_str()) {
            let ghost mid = *self;
            let mut inv = self.invocations.remove(v);
            inv.goal = goal;
            inv.status = InvocationStatus::Active;
            inv.updated_at = now;
            let logged_edge = inv.log_copy();
            let ghost y = inv;
            self.invocations.insert(v, inv);
            proof {
                assert(self.invocations@ =~= mid.invocations@.update(v as int, y));
                crate::events::lemma_with_record_at(mid.invocations@, v as int, y);
            }
            let e3 = KernelEvent::AgentInvocationRecorded(logged_edge);
            let ghost ge3 = e3;
            self.log_invocation(e3, Ghost(mid), Ghost(y));
            proof {
                assert(self.events@ == mid.events@.push(ge3));
                assert(self.events@.subrange(0, before.events@.len() as int) =~= mid.events@.subrange(0, before.events@.len() as int));
                assert(self.events@[before.events@.len() as int] == mid.events@[before.events@.len() as int]);
                if mid.events@.len() > before.events@.len() + 1 {
                    assert(self.events@[before.events@.len() + 1int] == mid.events@[before.events@.len() + 1int]);
                }
                assert(self.invocations@[v as int] == y);
            }
        }
        Ok(result)
    }
}

/// What an agent reports when it declares its goal accomplished.
#[derive(Debug)]
pub struct AgentGoalCompletion {
    pub thread: ThreadRecord,
    pub summary: String,
    pub evidence_refs: Vec<String>,
    pub artifact_refs: Vec<String>,
    pub known_risks: Vec<String>,
    pub completed_at: String,
}

/// A thread record whose goal has been declared accomplished at `now`.
pub open spec fn accomplished(t: ThreadRecord, summary: String, now: String) -> ThreadRecord {
    ThreadRecord {
        goal_status: AgentGoalStatus::Accomplished,
        accomplished_at: Some(now),
        lifecycle: ThreadLifecycle {
            status: ThreadStatus::Completing,
            status_reason: Some(summary),
            active_turn: ActiveTurn { status: Some(crate::lifecycle::TurnStatus::InProgress), ..t.lifecycle.active_turn },
            updated_at: now,
            recovery_dirty: true,
            ..t.lifecycle
        },
        ..t
    }
}

impl KernelState {
    /// The agent `agent_id` declares its goal accomplished: its (first)
    /// thread records the accomplishment and moves to `Completing` with the
    /// summary as reason, its turn stays in progress and the thread is
    /// marked for recovery; its first active invocation edge is completed.
    /// An unknown agent is `NotFound`.
    pub fn accomplish_agent_goal(
        &mut self,
        agent_id: &str,
        summary: String,
        evidence_refs: Vec<String>,
        artifact_refs: Vec<String>,
        known_risks: Vec<String>,
        now: String,
    ) -> (r: Result<AgentGoalCompletion, AgentOsError>)
        requires
            old(self).wf(),
        ensures
            final(self).wf(),
            !has_agent(old(self).threads@, agent_id@) ==> r == Err::<AgentGoalCompletion, AgentOsError>(
                AgentOsError::NotFound("agent"),
            ) && *final(self) == *old(self),
            has_agent(old(self).threads@, agent_id@) ==> {
                let k = agent_thread_index(old(self).threads@, agent_id@);
                let t = accomplished(old(self).threads@[k], summary, now);
                let thread_id = t.lifecycle.thread_id@;
                &&& final(self).threads@ == old(self).threads@.update(k, t)
                &&& r matches Ok(c) && {
                    &&& same_thread(c.thread, t)
                    &&& c.summary == summary
                    &&& c.evidence_refs == evidence_refs
                    &&& c.artifact_refs == artifact_refs
                    &&& c.known_risks == known_risks
                    &&& c.completed_at == now
                }
                &&& has_open_invocation(old(self).invocations@, thread_id) ==> {
                    let v = open_invocation_pos(old(self).invocations@, thread_id);
                    &&& final(self).invocations@ == old(self).invocations@.update(
                        v,
                        AgentInvocation { status: InvocationStatus::Completed, updated_at: now, ..old(self).invocations@[v] },
                    )
                    &&& final(self).events@.len() == old(self).events@.len() + 2
                    &&& final(self).events@.last() matches KernelEvent::AgentInvocationRecorded(x1)
                        && final(self).invocations@[v].copies(&x1)
                }
                &&& !has_open_invocation(old(self).invocations@, thread_id) ==> final(self).invocations
                    == old(self).invocations && final(self).events@.len() == old(self).events@.len() + 1
                &&& final(self).events@.subrange(0, old(self).events@.len() as int) == old(self).events@
                &&& final(self).events@[old(self).events@.len() as int] matches KernelEvent::AgentGoalAccomplished(x0)
                    && final(self).threads@[k].copies(&x0)
                &&& *final(self) == (KernelState {
                    threads: final(self).threads,
                    invocations: final(self).invocations,
                    events: final(self).events,
                    ..*old(self)
                })
            },
    {
        let k = match self.find_first_agent_thread(agent_id) {
            None => return Err(AgentOsError::NotFound("agent")),
            Some(k) => k,
        };
        let ghost before = *self;
        let mut rec = self.threads.remove(k);
        rec.goal_status = AgentGoalStatus::Accomplished;
        rec.accomplished_at = Some(now.clone());
        rec.lifecycle.status = ThreadStatus::Completing;
        rec.lifecycle.status_reason = Some(summary.clone());
        rec.lifecycle.active_turn.status = Some(crate::lifecycle::TurnStatus::InProgress);
        rec.lifecycle.updated_at = now.clone();
        rec.lifecycle.recovery_dirty = true;
        let thread = rec.duplicate();
        let thread_id = rec.lifecycle.thread_id.clone();
        let logged = rec.log_copy();
        let ghost x = rec;
        self.threads.insert(k, rec);
        proof {
            assert(self.threads@ =~= before.threads@.update(k as int, x));
            assert(before.threads@[k as int].lifecycle.thread_id@ == x.lifecycle.thread_id@);
        }
        let e = KernelEvent::AgentGoalAccomplished(logged);
        let ghost ge = e;
        self.log_thread(e, Ghost(before), Ghost(x));
        proof {
            assert(self.events@ == before.events@.push(ge));
            assert(self.events@.drop_last() =~= before.events@);
            assert(self.threads@[k as int] == x);
        }
        proof {
            assert(self.events@.subrange(0, before.events@.len() as int) =~= before.events@);
        }
        if let Some(v) = self.find_open_invocation(thread_id.as_str()) {
            let ghost mid = *self;
            let mut inv = self.invocations.remove(v);
            inv.status = InvocationStatus::Completed;
            inv.updated_at = now.clone();
            let logged_edge = inv.log_copy();
            let ghost y = inv;
            self.invocations.insert(v, inv);
            proof {
                assert(self.invocations@ =~= mid.invocations@.update(v as int, y));
                crate::events::lemma_with_record_at(mid.invocations@, v as int, y);
            }
            let e3 = KernelEvent::AgentInvocationRecorded(logged_edge);
            let ghost ge3 = e3;
            self.log_invocation(e3, Ghost(mid), Ghost(y));
            proof {
                assert(self.events@ == mid.events@.push(ge3));
                assert(self.events@.subrange(0, before.events@.len() as int) =~= mid.events@.subrange(0, before.events@.len() as int));
                assert(self.events@[before.events@.len() as int] == mid.events@[before.events@.len() as int]);
                assert(self.invocations@[v as int] == y);
            }
        }
        Ok(AgentGoalCompletion { thread, summary, evidence_refs, artifact_refs, known_risks, completed_at: now })
    }
}

/// Security levels go down the delegation chain: a root agent starts at
/// level 1, a child of an agent at level 1 or below sits one level lower,
/// and so no delegated child reaches the control plane, which is open to
/// levels 0 and 1 only.
pub proof fn law_delegated_agents_stay_off_the_control_plane(parent_level: u8)
    requires
        parent_level >= root_agent_level(),
    ensures
        allows_control_plane(root_agent_level()),
        child_level(parent_level) > parent_level || parent_level == u8::MAX,
        !allows_control_plane(child_level(parent_level)),
{
}

/// A spawned child never holds more than its parent: its permission
/// snapshot lies within the parent's effective permissions (for a root,
/// within its role's), within its role's permissions, and within what was
/// requested.
pub proof fn law_spawned_child_within_parent(state: KernelState, input: SpawnAgentInput, explicit: Option<PermissionView>)
    requires
        spawn_error(state, input, explicit) is None,
    ensures
        ({
            let role_permission = spawn_role_permission(state, input);
            let snapshot = spawn_snapshot(state, input, explicit).unwrap();
            &&& crate::permissions::permission_subset(snapshot, role_permission)
            &&& match parent_thread(state, input) {
                Some(p) => crate::permissions::permission_subset(snapshot, effective_permissions(state.permission_grants@, p)),
                None => true,
            }
            &&& match explicit {
                Some(e) => crate::permissions::permission_subset(snapshot, e),
                None => true,
            }
        }),
{
    let role_permission = spawn_role_permission(state, input);
    let parent = match parent_thread(state, input) {
        Some(p) => effective_permissions(state.permission_grants@, p),
        None => role_permission,
    };
    let requested = match explicit {
        Some(e) => e,
        None => role_permission,
    };
    crate::permissions::law_child_snapshot_within_parent_and_role(parent, role_permission, requested);
}

/// What `spawn_agent` ensures, as a relation between the state before and after the call, its arguments and its result.
pub open spec fn spawn_agent_post(pre: KernelState, post: KernelState, input: SpawnAgentInput, ids: SpawnIds, now: String, r: Result<ThreadRecord, AgentOsError>) -> bool {
    &&& (post.wf())
    &&& (match spawn_error(pre, input, None) {
                Some(e) => r == Err::<ThreadRecord, AgentOsError>(e) && post == pre,
                None => r matches Ok(t) && {
                    &&& post.threads@.len() == pre.threads@.len() + 1
                    &&& post.threads@.drop_last() == pre.threads@
                    &&& same_thread(t, post.threads@.last())
                    &&& is_spawned_thread(t, pre, input, None, ids, now@)
                },
            })
}

} // verus!
