use agent_os_kernel::agents::{FilesystemMode, PermissionProfile, ProfileStatus, SpawnAgentInput, SpawnIds};
use agent_os_kernel::error::AgentOsError;
use agent_os_kernel::export::task_subtree_ids;
use agent_os_kernel::goals::RegisterGoalInput;
use agent_os_kernel::json::JsonValue;
use agent_os_kernel::lifecycle::TaskStatus;
use agent_os_kernel::permissions::{PermissionSet, ToolDriverClass};
use agent_os_kernel::provider::StreamRequest;
use agent_os_kernel::seeds::{
    core_model_aliases, core_roles, core_sandboxes, default_provider_profile, default_routing_policy,
    strict_text_provider_profile,
};
use agent_os_kernel::state::{KernelState, TaskRecord};
use agent_os_kernel::tasks::SpawnTaskInput;
use agent_os_kernel::tools::ToolDescriptor;
use agent_os_kernel::tool_catalog::{apply_core_model_metadata, core_tool_descriptors, filesystem_tool_descriptors};

fn s(text: &str) -> String {
    text.to_string()
}

fn task(id: &str, parent: Option<&str>) -> TaskRecord {
    TaskRecord {
        task_id: s(id),
        goal_id: s("goal_1"),
        parent_task_id: parent.map(s),
        risk_level: 1,
        status: TaskStatus::Ready,
        depends_on: Vec::new(),
        priority: 0,
        owner_agent_id: None,
        blocked_reason: None,
        title: s(id),
        description: s(id),
        required_artifact_types: Vec::new(),
        required_evidence_types: Vec::new(),
        updated_at: s("t0"),
    }
}

// ---- task subtree ----

#[test]
fn subtree_holds_root_and_all_descendants_in_order() {
    let mut state = KernelState::new();
    state.tasks.push(task("task_c", Some("task_b")));
    state.tasks.push(task("task_b", Some("task_a")));
    state.tasks.push(task("task_a", None));
    state.tasks.push(task("task_d", Some("task_a")));
    state.tasks.push(task("task_x", None));
    state.tasks.push(task("task_y", Some("task_x")));
    assert_eq!(task_subtree_ids(&state, "task_a"), vec![s("task_a"), s("task_b"), s("task_c"), s("task_d")]);
    assert_eq!(task_subtree_ids(&state, "task_b"), vec![s("task_b"), s("task_c")]);
    assert_eq!(task_subtree_ids(&state, "task_y"), vec![s("task_y")]);
    assert_eq!(task_subtree_ids(&state, "task_missing"), vec![s("task_missing")]);
}

// ---- core profiles ----

#[test]
fn core_roles_are_supervisor_producer_and_reviewer() {
    let roles = core_roles();
    let names: Vec<&str> = roles.iter().map(|r| r.name.as_str()).collect();
    assert_eq!(names, vec!["SupervisorAgent", "ProducerAgent", "ReviewerAgent"]);
    assert_eq!(roles[0].allowed_child_role_profile_ids, vec![s("*")]);
    assert_eq!(roles[1].default_permission_profile_id, "perm_producer");
    assert_eq!(roles[1].default_sandbox_profile_id, "sbox_workspace_write");
    assert_eq!(roles[2].default_scheduler_policy_id.as_deref(), Some("sched_review"));
    assert!(roles.iter().all(|r| r.default_provider_profile_id.as_deref() == Some("prov_default")));
    let sandboxes = core_sandboxes();
    let modes: Vec<FilesystemMode> = sandboxes.iter().map(|p| p.filesystem_mode).collect();
    assert_eq!(modes, vec![FilesystemMode::ReadOnly, FilesystemMode::WorkspaceWrite, FilesystemMode::TempOnly]);
    assert_eq!(sandboxes[2].sandbox_profile_id, "sbox_test_temp");
}

#[test]
fn core_provider_profiles_and_aliases() {
    let routing = default_routing_policy();
    assert_eq!(routing.routing_policy_id, "route_default");
    assert_eq!(routing.rules.len(), 2);
    let default = default_provider_profile();
    assert_eq!(default.default_model_alias.as_deref(), Some("general-primary"));
    assert_eq!(default.allowed_model_aliases.len(), 4);
    let strict = strict_text_provider_profile();
    assert_eq!(strict.allowed_model_aliases, vec![s("text-only")]);
    let aliases = core_model_aliases(vec![s("a1"), s("a2"), s("a3"), s("a4")], s("t0"));
    let names: Vec<&str> = aliases.iter().map(|a| a.alias.as_str()).collect();
    assert_eq!(names, vec!["coding-primary", "review-primary", "general-primary", "text-only"]);
    assert_eq!(aliases[3].model_alias_id, "a4");
    assert_eq!(aliases[0].provider_model_name, "primary-coding-model");
    match &aliases[3].capabilities {
        JsonValue::Object(ms) => {
            assert_eq!(ms[4].0, "structured_output");
            assert!(matches!(ms[4].1, JsonValue::Bool(false)));
        }
        _ => panic!("capabilities are not an object"),
    }
}

fn descriptor(name: &str, risk_level: u8) -> ToolDescriptor {
    ToolDescriptor {
        tool_id: format!("tool_{name}"),
        name: s(name),
        version: s("0.2.0"),
        description: String::new(),
        risk_level,
        driver_class: ToolDriverClass::KernelBuiltin,
        input_schema: JsonValue::Null,
        output_schema: JsonValue::Null,
        evidence_type: None,
        foreground_timeout_ms: 15_000,
        required_resource_scopes: Vec::new(),
        driver_config: JsonValue::Null,
        model_input_schema: None,
        injected_fields: Vec::new(),
        created_at: s("t0"),
    }
}

fn producer_permissions() -> PermissionProfile {
    PermissionProfile {
        permission_profile_id: s("perm_producer"),
        status: ProfileStatus::Active,
        permission_set: PermissionSet {
            max_risk_level: 4,
            allowed_syscalls: vec![s("*")],
            resource_scopes: vec![s("*")],
            allowed_tool_names: vec![s("*")],
            allowed_tool_driver_classes: vec![ToolDriverClass::Filesystem, ToolDriverClass::Shell],
            approval_required_above: 4,
            requires_evidence_for: Vec::new(),
        },
    }
}

fn seeded_kernel() -> KernelState {
    let ids = vec![s("alias_1"), s("alias_2"), s("alias_3"), s("alias_4")];
    let catalog = vec![descriptor("write_file", 4), descriptor("read_file", 1), descriptor("write_file", 3)];
    KernelState::with_core_profiles(vec![producer_permissions()], catalog, ids, s("t0"))
}

#[test]
fn fresh_kernel_installs_profiles_and_catalog() {
    let state = seeded_kernel();
    assert_eq!(state.role_profiles.len(), 3);
    assert_eq!(state.sandbox_profiles.len(), 3);
    assert_eq!(state.permission_profiles[0].permission_profile_id, "perm_producer");
    assert_eq!(state.provider_profiles[1].provider_profile_id, "prov_strict_text");
    assert_eq!(state.model_aliases.len(), 4);
    let names: Vec<&str> = state.tool_descriptors.iter().map(|d| d.name.as_str()).collect();
    assert_eq!(names, vec!["read_file", "write_file"]);
    assert_eq!(state.tool_descriptors[1].risk_level, 3);
    assert!(state.tasks.is_empty());
}

fn stream_request(role: &str, alias: Option<&str>, structured: bool) -> StreamRequest {
    StreamRequest {
        thread_id: s("thread_p"),
        task_id: s("task_1"),
        provider_profile_id: s("prov_default"),
        model_routing_policy_id: s("route_default"),
        requested_model_alias: alias.map(s),
        role: s(role),
        output_schema: if structured { Some(JsonValue::Object(Vec::new())) } else { None },
    }
}

#[test]
fn core_routing_serves_each_role_its_alias() {
    let mut state = seeded_kernel();
    state
        .register_goal(
            RegisterGoalInput {
                namespace: s("test"),
                created_by: s("user"),
                title: s("Route"),
                description: s("Routing fixture"),
                acceptance_criteria: vec![s("routed")],
                constraints: Vec::new(),
                risk_level: 1,
                deadline: None,
            },
            s("goal_1"),
            s("t0"),
        )
        .unwrap();
    state
        .spawn_task(
            SpawnTaskInput {
                goal_id: s("goal_1"),
                parent_task_id: None,
                title: s("Work"),
                description: s("Work"),
                depends_on: Vec::new(),
                required_artifact_types: Vec::new(),
                required_evidence_types: Vec::new(),
                priority: 1,
                risk_level: 1,
            },
            s("task_1"),
            s("t0"),
        )
        .unwrap();
    state
        .spawn_agent(
            SpawnAgentInput {
                task_id: s("task_1"),
                role_profile_id: s("role_producer"),
                owner: s("user"),
                local_goal: s("work"),
                success_criteria: Vec::new(),
                failure_criteria: Vec::new(),
                parent_thread_id: None,
                workspace_roots: Vec::new(),
            },
            SpawnIds {
                thread_id: s("thread_p"),
                agent_id: s("agt_p"),
                invocation_id: s("inv_p"),
                session_id: s("sess_p"),
                communication_profile_id: s("comm_p"),
            },
            s("t0"),
        )
        .unwrap();
    let producer = state.resolve_provider_route(&stream_request("ProducerAgent", None, true), s("t1")).unwrap();
    assert_eq!(producer.selected_model_alias, "coding-primary");
    assert_eq!(producer.provider_model_name, "primary-coding-model");
    assert!(!producer.fallback_applied);
    let reviewer = state.resolve_provider_route(&stream_request("ReviewerAgent", None, false), s("t1")).unwrap();
    assert_eq!(reviewer.selected_model_alias, "review-primary");
    let other = state.resolve_provider_route(&stream_request("SupervisorAgent", None, false), s("t1")).unwrap();
    assert_eq!(other.selected_model_alias, "general-primary");
    assert_eq!(
        state.resolve_provider_route(&stream_request("ProducerAgent", Some("text-only"), true), s("t1")).unwrap_err(),
        AgentOsError::PermissionDenied("model alias does not support structured output")
    );
}

#[test]
fn core_tool_catalog_carries_model_metadata() {
    let tools = core_tool_descriptors(s("2026-01-01T00:00:00Z"));
    let names: Vec<&str> = tools.iter().map(|d| d.name.as_str()).collect();
    assert_eq!(
        names,
        vec![
            "write_file", "read_file", "delete_file", "replace_text", "run_command", "set_goal",
            "accomplish_goal", "update_checklist", "record_evidence", "report_supervisor",
            "post_blackboard", "ask_human", "request_permissions", "load_skill",
            "read_skill_resource", "submit_final", "agent_control",
        ]
    );
    let read = &tools[1];
    assert_eq!(read.tool_id, "tool_read_file");
    assert_eq!(read.version, "0.2.0");
    assert_eq!(read.risk_level, 1);
    assert_eq!(read.created_at, "2026-01-01T00:00:00Z");
    assert_eq!(read.foreground_timeout_ms, 15_000);
    assert_eq!(read.injected_fields, vec![(s("workspace_root"), s("workspace_root"))]);
    assert!(read.description.starts_with("Read a workspace file"));
    assert!(read.model_input_schema.is_some());
    let run = &tools[4];
    assert_eq!(run.driver_class, ToolDriverClass::Shell);
    assert_eq!(run.injected_fields, vec![(s("cwd"), s("workspace_root"))]);
    let skill = &tools[14];
    assert_eq!(skill.required_resource_scopes, vec![s("skill:*"), s("skill_file:*")]);
    assert_eq!(tools[16].risk_level, 6);
    assert!(tools.iter().all(|d| d.model_input_schema.is_some() && !d.description.is_empty()));
}

#[test]
fn filesystem_tools_come_without_model_metadata() {
    let tools = filesystem_tool_descriptors(s("t0"));
    assert_eq!(tools.len(), 5);
    assert!(tools.iter().all(|d| d.model_input_schema.is_none() && d.description.is_empty()));
    let other = apply_core_model_metadata(descriptor("apply_patch", 3));
    assert!(other.model_input_schema.is_none());
    assert_eq!(other.description, "");
    let write = apply_core_model_metadata(filesystem_tool_descriptors(s("t0")).remove(0));
    assert_eq!(write.description, "Create or fully replace one workspace file.");
    assert_eq!(write.name, "write_file");
}
