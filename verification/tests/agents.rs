use agent_os_kernel::agents::{
    AgentGoalStatus, FilesystemMode, InvocationRelationship, InvocationStatus, PermissionProfile, ProfileStatus,
    RoleProfile, SandboxProfile, SpawnAgentInput, SpawnIds,
};
use agent_os_kernel::blackboard::{BlackboardSection, PostBlackboardInput};
use agent_os_kernel::communication::{CommunicationScope, MessageDeliveryStatus, MessageRoute, SendMessageInput};
use agent_os_kernel::json::JsonValue;
use agent_os_kernel::error::AgentOsError;
use agent_os_kernel::goals::RegisterGoalInput;
use agent_os_kernel::lifecycle::ThreadStatus;
use agent_os_kernel::permission_requests::PermissionRequestStatus;
use agent_os_kernel::permissions::{PermissionGrantScope, PermissionSet, ToolDriverClass};
use agent_os_kernel::state::{AuditActorType, AuditResult, KernelState, ThreadRecord};
use agent_os_kernel::tasks::SpawnTaskInput;

fn s(text: &str) -> String {
    text.to_string()
}

fn strings(items: &[&str]) -> Vec<String> {
    items.iter().map(|t| t.to_string()).collect()
}

fn permission_set() -> PermissionSet {
    PermissionSet {
        max_risk_level: 2,
        allowed_syscalls: strings(&["tool.invoke"]),
        resource_scopes: strings(&["tool:read_file"]),
        allowed_tool_names: strings(&["read_file"]),
        allowed_tool_driver_classes: vec![ToolDriverClass::Filesystem],
        approval_required_above: 2,
        requires_evidence_for: strings(&["read_file"]),
    }
}

fn supervisor_permissions() -> PermissionSet {
    PermissionSet {
        max_risk_level: 4,
        allowed_syscalls: strings(&["*"]),
        resource_scopes: strings(&["*"]),
        allowed_tool_names: strings(&["*"]),
        allowed_tool_driver_classes: vec![
            ToolDriverClass::Filesystem,
            ToolDriverClass::Shell,
            ToolDriverClass::Mcp,
            ToolDriverClass::KernelBuiltin,
        ],
        approval_required_above: 4,
        requires_evidence_for: Vec::new(),
    }
}

fn producer_permissions() -> PermissionSet {
    PermissionSet {
        max_risk_level: 3,
        allowed_syscalls: strings(&["tool.invoke", "task.update"]),
        resource_scopes: strings(&["tool:read_file"]),
        allowed_tool_names: strings(&["read_file", "apply_patch"]),
        allowed_tool_driver_classes: vec![ToolDriverClass::Filesystem],
        approval_required_above: 2,
        requires_evidence_for: Vec::new(),
    }
}

fn role(id: &str, name: &str, permission: &str, children: &[&str]) -> RoleProfile {
    RoleProfile {
        role_profile_id: s(id),
        status: ProfileStatus::Active,
        name: s(name),
        default_permission_profile_id: s(permission),
        default_sandbox_profile_id: s("sbox_workspace_write"),
        default_provider_profile_id: Some(s("prov_default")),
        default_scheduler_policy_id: Some(s("sched_foreground")),
        allowed_child_role_profile_ids: strings(children),
    }
}

fn ids(n: &str) -> SpawnIds {
    SpawnIds {
        thread_id: format!("thread_{n}"),
        agent_id: format!("agt_{n}"),
        invocation_id: format!("inv_{n}"),
        session_id: format!("sess_{n}"),
        communication_profile_id: format!("comm_{n}"),
    }
}

fn spawn_input(task_id: &str, role_id: &str, goal: &str, parent: Option<&str>) -> SpawnAgentInput {
    SpawnAgentInput {
        task_id: s(task_id),
        role_profile_id: s(role_id),
        owner: s("user"),
        local_goal: s(goal),
        success_criteria: Vec::new(),
        failure_criteria: Vec::new(),
        parent_thread_id: parent.map(s),
        workspace_roots: Vec::new(),
    }
}

fn base_state() -> KernelState {
    let mut state = KernelState::new();
    state
        .register_goal(
            RegisterGoalInput {
                namespace: s("test"),
                created_by: s("user"),
                title: s("Permission"),
                description: s("Permission fixture"),
                acceptance_criteria: strings(&["permission response recorded"]),
                constraints: Vec::new(),
                risk_level: 3,
                deadline: None,
            },
            s("goal_1"),
            s("2026-01-01T00:00:00Z"),
        )
        .unwrap();
    state
        .spawn_task(
            SpawnTaskInput {
                goal_id: s("goal_1"),
                parent_task_id: None,
                title: s("Coordinate"),
                description: s("Coordinate permissions"),
                depends_on: Vec::new(),
                required_artifact_types: Vec::new(),
                required_evidence_types: Vec::new(),
                priority: 10,
                risk_level: 3,
            },
            s("task_1"),
            s("2026-01-01T00:00:00Z"),
        )
        .unwrap();
    state.role_profiles.push(role("role_supervisor", "SupervisorAgent", "perm_supervisor", &["*"]));
    state.role_profiles.push(role("role_producer", "ProducerAgent", "perm_producer", &[]));
    state.role_profiles.push(role("role_reviewer", "ReviewerAgent", "perm_producer", &[]));
    state.permission_profiles.push(PermissionProfile {
        permission_profile_id: s("perm_supervisor"),
        status: ProfileStatus::Active,
        permission_set: supervisor_permissions(),
    });
    state.permission_profiles.push(PermissionProfile {
        permission_profile_id: s("perm_producer"),
        status: ProfileStatus::Active,
        permission_set: producer_permissions(),
    });
    state.sandbox_profiles.push(SandboxProfile {
        sandbox_profile_id: s("sbox_workspace_write"),
        status: ProfileStatus::Active,
        filesystem_mode: FilesystemMode::WorkspaceWrite,
    });
    state
}

fn parent_child_fixture() -> (KernelState, ThreadRecord, ThreadRecord) {
    let mut state = base_state();
    let parent = state
        .spawn_agent(spawn_input("task_1", "role_supervisor", "supervise", None), ids("parent"), s("t0"))
        .unwrap();
    let child = state
        .spawn_agent(
            spawn_input("task_1", "role_producer", "produce", Some(&parent.lifecycle.thread_id)),
            ids("child"),
            s("t1"),
        )
        .unwrap();
    (state, parent, child)
}

#[test]
fn duplicate_deny_permission_response_is_idempotent() {
    let (mut kernel, parent, child) = parent_child_fixture();
    let request = kernel
        .request_permissions(
            &child.agent_id,
            "Need bounded read permission".to_string(),
            permission_set(),
            PermissionGrantScope::Session,
            s("permreq_1"),
            s("t2"),
        )
        .unwrap();

    let (first, first_grant) = kernel
        .respond_permission_request(
            &parent.agent_id,
            &request.permission_request_id,
            None,
            Some("Denied for test".to_string()),
            s("permgrant_1"),
            s("t3"),
        )
        .unwrap();
    let (second, second_grant) = kernel
        .respond_permission_request(
            &parent.agent_id,
            &request.permission_request_id,
            None,
            Some("Denied for test".to_string()),
            s("permgrant_2"),
            s("t4"),
        )
        .unwrap();

    assert_eq!(first.status, PermissionRequestStatus::Denied);
    assert!(first_grant.is_none());
    assert_eq!(second.status, PermissionRequestStatus::Denied);
    assert!(second_grant.is_none());
}

#[test]
fn root_agent_starts_at_level_one_and_child_one_below() {
    let (state, parent, child) = parent_child_fixture();
    assert_eq!(parent.security_level, 1);
    assert_eq!(child.security_level, 2);
    assert_eq!(parent.root_thread_id, "thread_parent");
    assert_eq!(child.root_thread_id, "thread_parent");
    assert_eq!(parent.agent_path, "/");
    assert_eq!(child.agent_path, "/parent/ProducerAgent");
    assert_eq!(child.parent_thread_id.as_deref(), Some("thread_parent"));
    assert_eq!(child.lifecycle.status, ThreadStatus::Created);
    assert_eq!(child.goal, "produce");
    assert_eq!(child.goal_status, AgentGoalStatus::Active);
    assert_eq!(child.goal_revision, 1);
    assert_eq!(child.provider_profile_id, "prov_default");
    assert_eq!(state.threads.len(), 2);
    assert_eq!(state.communication_profiles.len(), 2);
    assert_eq!(state.invocations.len(), 2);
    assert_eq!(state.invocations[0].relationship, InvocationRelationship::RootSupervisor);
    assert_eq!(state.invocations[0].caller_thread_id, None);
    assert_eq!(state.invocations[1].relationship, InvocationRelationship::ProducerAssignment);
    assert_eq!(state.invocations[1].caller_thread_id.as_deref(), Some("thread_parent"));
    assert_eq!(state.invocations[1].caller_security_level, Some(1));
    assert_eq!(state.invocations[1].callee_security_level, 2);
}

#[test]
fn child_snapshot_is_role_narrowed_to_parent() {
    let (_state, _parent, child) = parent_child_fixture();
    assert_eq!(child.permissions_snapshot.max_risk_level, 3);
    assert_eq!(child.permissions_snapshot.allowed_syscalls, strings(&["tool.invoke", "task.update"]));
    assert_eq!(child.permissions_snapshot.allowed_tool_names, strings(&["read_file", "apply_patch"]));
}

#[test]
fn default_communication_profiles_differ_for_supervisors() {
    let (state, _parent, _child) = parent_child_fixture();
    let supervisor = &state.communication_profiles[0];
    let producer = &state.communication_profiles[1];
    assert!(supervisor.human.enabled);
    assert!(!supervisor.human.requires_supervisor_approval);
    assert!(supervisor.blackboard.broadcast);
    assert!(!producer.human.enabled);
    assert!(producer.human.requires_supervisor_approval);
    assert!(!producer.blackboard.broadcast);
    assert_eq!(producer.blackboard.allowed_scopes, CommunicationScope::Goal);
    assert_eq!(producer.supervisor.rate_limit.as_deref(), Some("10/hour"));
    assert_eq!(producer.human.attention_budget, Some(3));
    assert_eq!(producer.supervisor.allowed_message_types.len(), 4);
    assert_eq!(producer.blackboard.allowed_channels.len(), 7);
    assert_eq!(producer.agent_id, "agt_child");
    assert_eq!(producer.thread_id, "thread_child");
}

#[test]
fn parent_role_must_allow_child_role() {
    let (mut state, _parent, child) = parent_child_fixture();
    let result = state.spawn_agent(
        spawn_input("task_1", "role_producer", "grandchild", Some(&child.lifecycle.thread_id)),
        ids("grandchild"),
        s("t5"),
    );
    assert_eq!(
        result.unwrap_err(),
        AgentOsError::PermissionDenied("parent role cannot spawn requested child role")
    );
    assert_eq!(state.threads.len(), 2);
}

#[test]
fn spawn_refuses_unknown_task_role_and_parent() {
    let mut state = base_state();
    let unknown_task = state.spawn_agent(spawn_input("task_x", "role_supervisor", "g", None), ids("a"), s("t"));
    assert_eq!(unknown_task.unwrap_err(), AgentOsError::NotFound("task"));
    let unknown_role = state.spawn_agent(spawn_input("task_1", "role_x", "g", None), ids("b"), s("t"));
    assert_eq!(unknown_role.unwrap_err(), AgentOsError::NotFound("active role profile"));
    let unknown_parent =
        state.spawn_agent(spawn_input("task_1", "role_producer", "g", Some("thread_x")), ids("c"), s("t"));
    assert_eq!(unknown_parent.unwrap_err(), AgentOsError::NotFound("parent thread"));
    assert!(state.threads.is_empty());
}

#[test]
fn explicit_child_permissions_must_stay_within_parent() {
    let (mut state, parent, _child) = parent_child_fixture();
    let mut too_much = producer_permissions();
    too_much.max_risk_level = 5;
    let result = state.spawn_agent_with_permissions(
        spawn_input("task_1", "role_producer", "g", Some(&parent.lifecycle.thread_id)),
        Some(too_much),
        ids("wide"),
        s("t6"),
    );
    assert_eq!(
        result.unwrap_err(),
        AgentOsError::PermissionDenied("child permissions must be a subset of parent effective permissions")
    );
    let narrow = state
        .spawn_agent_with_permissions(
            spawn_input("task_1", "role_producer", "g", Some(&parent.lifecycle.thread_id)),
            Some(permission_set()),
            ids("narrow"),
            s("t7"),
        )
        .unwrap();
    assert_eq!(narrow.permissions_snapshot.max_risk_level, 2);
    assert_eq!(narrow.permissions_snapshot.allowed_syscalls, strings(&["tool.invoke"]));
}

#[test]
fn supervisor_retargets_direct_child_goal() {
    let (mut state, parent, child) = parent_child_fixture();
    let updated = state
        .set_agent_goal(
            &parent.agent_id,
            None,
            Some(child.agent_id.clone()),
            s("produce more"),
            None,
            Some(strings(&["tests pass"])),
            None,
            s("t8"),
        )
        .unwrap();
    assert_eq!(updated.goal, "produce more");
    assert_eq!(updated.goal_revision, 2);
    assert_eq!(updated.success_criteria, strings(&["tests pass"]));
    assert_eq!(updated.lifecycle.updated_at, "t8");
    assert_eq!(state.threads[1].goal, "produce more");
    assert_eq!(state.invocations[1].goal, "produce more");
    assert_eq!(state.invocations[1].updated_at, "t8");
}

#[test]
fn set_goal_requires_supervisor_and_direct_child() {
    let (mut state, parent, child) = parent_child_fixture();
    let by_child = state.set_agent_goal(&child.agent_id, None, None, s("x"), None, None, None, s("t"));
    assert_eq!(by_child.unwrap_err(), AgentOsError::PermissionDenied("set_goal requires security_level <= 1"));
    let mismatch = state.set_agent_goal(
        &parent.agent_id,
        Some(child.lifecycle.thread_id.clone()),
        Some(parent.agent_id.clone()),
        s("x"),
        None,
        None,
        None,
        s("t"),
    );
    assert_eq!(
        mismatch.unwrap_err(),
        AgentOsError::Validation("target_thread_id and target_agent_id identify different agents")
    );
    let unknown = state.set_agent_goal("agt_nobody", None, None, s("x"), None, None, None, s("t"));
    assert_eq!(unknown.unwrap_err(), AgentOsError::NotFound("agent"));
}

#[test]
fn set_goal_title_renames_task() {
    let (mut state, parent, _child) = parent_child_fixture();
    state
        .set_agent_goal(&parent.agent_id, None, None, s("lead"), Some(s("Renamed")), None, None, s("t9"))
        .unwrap();
    assert_eq!(state.tasks[0].title, "Renamed");
    assert_eq!(state.tasks[0].updated_at, "t9");
}

#[test]
fn accomplishing_a_goal_completes_the_invocation() {
    let (mut state, _parent, child) = parent_child_fixture();
    let completion = state
        .accomplish_agent_goal(&child.agent_id, s("done"), strings(&["ev_1"]), Vec::new(), Vec::new(), s("t10"))
        .unwrap();
    assert_eq!(completion.thread.goal_status, AgentGoalStatus::Accomplished);
    assert_eq!(completion.thread.accomplished_at.as_deref(), Some("t10"));
    assert_eq!(completion.thread.lifecycle.status, ThreadStatus::Completing);
    assert_eq!(completion.thread.lifecycle.status_reason.as_deref(), Some("done"));
    assert!(completion.thread.lifecycle.recovery_dirty);
    assert_eq!(completion.summary, "done");
    assert_eq!(state.invocations[1].status, InvocationStatus::Completed);
    assert_eq!(state.invocations[0].status, InvocationStatus::Active);
    let unknown = state.accomplish_agent_goal("agt_x", s("x"), Vec::new(), Vec::new(), Vec::new(), s("t"));
    assert_eq!(unknown.unwrap_err(), AgentOsError::NotFound("agent"));
}

#[test]
fn approved_grant_is_narrowed_and_recorded() {
    let (mut state, parent, child) = parent_child_fixture();
    let request = state
        .request_permissions(&child.agent_id, s("read"), permission_set(), PermissionGrantScope::Session, s("rq"), s("t"))
        .unwrap();
    assert_eq!(request.status, PermissionRequestStatus::Pending);
    assert_eq!(request.approver_thread_id.as_deref(), Some("thread_parent"));
    let (answer, grant) = state
        .respond_permission_request(&parent.agent_id, "rq", Some(permission_set()), None, s("g1"), s("t2"))
        .unwrap();
    assert_eq!(answer.status, PermissionRequestStatus::Approved);
    let grant = grant.unwrap();
    assert_eq!(grant.permission_grant_id, "g1");
    assert_eq!(grant.thread_id, "thread_child");
    assert_eq!(grant.granted_by_thread_id, "thread_parent");
    assert_eq!(grant.session_id.as_deref(), Some("sess_child"));
    assert_eq!(grant.permissions.max_risk_level, 2);
    assert_eq!(state.permission_grants.len(), 1);
    let again = state.respond_permission_request(&parent.agent_id, "rq", None, None, s("g2"), s("t3"));
    assert_eq!(again.unwrap_err(), AgentOsError::InvalidTransition("permission request is already resolved"));
}

#[test]
fn permission_requests_are_checked() {
    let (mut state, parent, child) = parent_child_fixture();
    let mut nothing = permission_set();
    nothing.max_risk_level = 0;
    nothing.allowed_syscalls.clear();
    nothing.resource_scopes.clear();
    nothing.allowed_tool_names.clear();
    nothing.allowed_tool_driver_classes.clear();
    let empty = state.request_permissions(&child.agent_id, s("x"), nothing, PermissionGrantScope::Session, s("a"), s("t"));
    assert_eq!(
        empty.unwrap_err(),
        AgentOsError::Validation("request_permissions requires at least one permission field")
    );
    let no_turn = state.request_permissions(&child.agent_id, s("x"), permission_set(), PermissionGrantScope::Turn, s("b"), s("t"));
    assert_eq!(
        no_turn.unwrap_err(),
        AgentOsError::Validation("turn-scoped permission requests require an active turn")
    );
    let root = state.request_permissions(&parent.agent_id, s("x"), permission_set(), PermissionGrantScope::Session, s("c"), s("t"));
    assert_eq!(
        root.unwrap_err(),
        AgentOsError::PermissionDenied("permission requests require a direct parent approver")
    );
    state
        .request_permissions(&child.agent_id, s("x"), producer_permissions(), PermissionGrantScope::Session, s("d"), s("t"))
        .unwrap();
    let mut beyond = producer_permissions();
    beyond.max_risk_level = 4;
    let too_much = state.respond_permission_request(&parent.agent_id, "d", Some(beyond), None, s("g"), s("t"));
    assert_eq!(
        too_much.unwrap_err(),
        AgentOsError::PermissionDenied("granted permissions must be a subset of requested permissions")
    );
    let wrong_approver = state.respond_permission_request(&child.agent_id, "d", None, None, s("g"), s("t"));
    assert_eq!(
        wrong_approver.unwrap_err(),
        AgentOsError::PermissionDenied("agent_control approve_permission requires security_level <= 1")
    );
}

fn message(from: &ThreadRecord, route: MessageRoute, message_type: &str) -> SendMessageInput {
    SendMessageInput {
        message_type: s(message_type),
        route,
        source_agent_id: from.agent_id.clone(),
        source_thread_id: from.lifecycle.thread_id.clone(),
        target_agent_id: None,
        target_thread_id: None,
        channel_id: None,
        goal_id: from.goal_id.clone(),
        task_id: from.task_id.clone(),
        risk_level: 1,
        payload: JsonValue::Null,
        artifact_refs: Vec::new(),
        evidence_refs: Vec::new(),
    }
}

#[test]
fn refused_message_is_kept_and_audited() {
    let (mut state, _parent, child) = parent_child_fixture();
    let refused = state
        .send_message(message(&child, MessageRoute::Blackboard, "StatusUpdate"), s("msg_1"), s("audit_1"), s("t5"))
        .unwrap();
    assert_eq!(refused.delivery_status, MessageDeliveryStatus::Rejected);
    assert_eq!(refused.rejected_reason, Some("blackboard route requires BlackboardPost message type"));
    assert_eq!(state.messages.len(), 1);
    assert!(state.messages[0].delivered_at.is_none());
    assert_eq!(state.audit_events.len(), 1);
    let audit = &state.audit_events[0];
    assert_eq!(audit.audit_id, "audit_1");
    assert_eq!(audit.actor_type, AuditActorType::Agent);
    assert_eq!(audit.actor_id, child.agent_id);
    assert_eq!(audit.action, "communication.denied");
    assert_eq!(audit.resource_type, "message");
    assert_eq!(audit.resource_id, "msg_1");
    assert_eq!(audit.result, AuditResult::Deny);
    assert_eq!(audit.reason, Some("blackboard route requires BlackboardPost message type"));
}

#[test]
fn delivered_message_leaves_no_audit() {
    let (mut state, _parent, child) = parent_child_fixture();
    let delivered = state
        .send_message(message(&child, MessageRoute::Supervisor, "StatusUpdate"), s("msg_2"), s("audit_2"), s("t6"))
        .unwrap();
    assert_eq!(delivered.delivery_status, MessageDeliveryStatus::Delivered);
    assert_eq!(state.messages[0].delivered_at.as_deref(), Some("t6"));
    assert!(state.audit_events.is_empty());
}

fn post(from: &ThreadRecord, goal_id: &str) -> PostBlackboardInput {
    PostBlackboardInput {
        source_agent_id: from.agent_id.clone(),
        source_thread_id: from.lifecycle.thread_id.clone(),
        channel_id: Some(s("risks")),
        goal_id: s(goal_id),
        task_id: None,
        scope: CommunicationScope::Goal,
        section: BlackboardSection::Risk,
        content: JsonValue::Object(vec![(s("text"), JsonValue::String(s("flaky test")))]),
        source_evidence_ids: Vec::new(),
    }
}

#[test]
fn accepted_blackboard_post_is_kept() {
    let (mut state, _parent, child) = parent_child_fixture();
    let goal_id = child.goal_id.clone();
    let entry = state.post_blackboard(post(&child, &goal_id), s("bb_1"), s("t7")).unwrap();
    assert_eq!(entry.entry_id, "bb_1");
    assert_eq!(state.blackboard_entries.len(), 1);
    assert_eq!(state.blackboard_entries[0].entry_id, "bb_1");
    assert_eq!(state.blackboard_entries[0].created_at, "t7");
    assert_eq!(state.blackboard_entries[0].created_by_agent_id.as_deref(), Some(child.agent_id.as_str()));
}

#[test]
fn refused_blackboard_post_keeps_nothing() {
    let (mut state, _parent, child) = parent_child_fixture();
    let mut off_goal = post(&child, "goal_elsewhere");
    off_goal.channel_id = Some(s("risks"));
    assert!(state.post_blackboard(off_goal, s("bb_2"), s("t8")).is_err());
    assert!(state.blackboard_entries.is_empty());
}

#[test]
fn thread_changes_are_logged_and_replayed() {
    let (mut state, parent, child) = parent_child_fixture();
    state
        .set_agent_goal(&parent.agent_id, None, Some(child.agent_id.clone()), s("produce more"), None, None, None, s("t8"))
        .unwrap();
    state.transition_thread(&child.lifecycle.thread_id, ThreadStatus::Ready, None, s("t9")).unwrap();
    state.accomplish_agent_goal(&child.agent_id, s("done"), Vec::new(), Vec::new(), Vec::new(), s("t10")).unwrap();
    let logged: Vec<&str> = state.events.iter().map(|e| e.event_type()).collect();
    assert_eq!(
        logged,
        vec![
            "GoalRegistered",
            "GoalUpdated",
            "TaskSpawned",
            "ThreadConfigured",
            "CommunicationProfileAssigned",
            "AgentInvocationRecorded",
            "ThreadConfigured",
            "CommunicationProfileAssigned",
            "AgentInvocationRecorded",
            "ThreadConfigured",
            "AgentInvocationRecorded",
            "ThreadStatusChanged",
            "AgentGoalAccomplished",
            "AgentInvocationRecorded",
        ]
    );
    let mut copy = Vec::new();
    for e in &state.events {
        copy.push(e.log_copy());
    }
    let replayed = KernelState::from_events(copy);
    assert_eq!(replayed.threads.len(), 2);
    assert_eq!(replayed.threads[1].lifecycle.thread_id, child.lifecycle.thread_id);
    assert_eq!(replayed.threads[1].goal, "produce more");
    assert_eq!(replayed.threads[1].goal_status, AgentGoalStatus::Accomplished);
    assert_eq!(replayed.threads[1].lifecycle.status, state.threads[1].lifecycle.status);
    assert_eq!(replayed.threads[0].lifecycle.thread_id, parent.lifecycle.thread_id);
    assert_eq!(replayed.invocations.len(), 2);
    assert_eq!(replayed.communication_profiles.len(), 2);
    assert_eq!(replayed.communication_profiles[1].thread_id, child.lifecycle.thread_id);
    assert_eq!(replayed.invocations[1].callee_thread_id, child.lifecycle.thread_id);
    assert_eq!(replayed.invocations[1].goal, "produce more");
    assert_eq!(replayed.invocations[1].status, InvocationStatus::Completed);
    assert_eq!(replayed.invocations[1].updated_at, state.invocations[1].updated_at);
}

#[test]
fn permission_requests_are_logged_and_replayed() {
    let (mut kernel, parent, child) = parent_child_fixture();
    let logged_before = kernel.events.len();
    kernel
        .request_permissions(
            &child.agent_id,
            s("Need bounded read permission"),
            permission_set(),
            PermissionGrantScope::Session,
            s("permreq_1"),
            s("t2"),
        )
        .unwrap();
    kernel
        .respond_permission_request(&parent.agent_id, "permreq_1", None, Some(s("Denied for test")), s("permgrant_1"), s("t3"))
        .unwrap();
    kernel
        .respond_permission_request(&parent.agent_id, "permreq_1", None, Some(s("Denied for test")), s("permgrant_2"), s("t4"))
        .unwrap();
    let logged: Vec<&str> = kernel.events[logged_before..].iter().map(|e| e.event_type()).collect();
    assert_eq!(logged, vec!["PermissionRequested", "PermissionRequestResolved"]);
    let mut copy = Vec::new();
    for e in &kernel.events {
        copy.push(e.log_copy());
    }
    let replayed = KernelState::from_events(copy);
    assert_eq!(replayed.permission_requests.len(), 1);
    assert_eq!(replayed.permission_requests[0].permission_request_id, "permreq_1");
    assert_eq!(replayed.permission_requests[0].status, PermissionRequestStatus::Denied);
    assert_eq!(replayed.permission_requests[0].decision_reason.as_deref(), Some("Denied for test"));
}
