use agent_os_kernel::agents::{
    FilesystemMode, PermissionProfile, ProfileStatus, RoleProfile, SandboxProfile, SpawnAgentInput, SpawnIds,
};
use agent_os_kernel::approval::SyscallEnvelope;
use agent_os_kernel::ecosystem::{
    discover_mcp_resource_definitions, discover_mcp_resource_template_definitions, stable_mcp_resource_id,
    stable_mcp_tool_id, CommandDefinition, EcosystemSource, EcosystemSourceKind, EcosystemSourceScope,
    ImportedAgentProfile, InstructionDocument, McpResourceDefinition, McpServerSpec, McpTransportKind, SkillDefinition,
};
use agent_os_kernel::dispatch::{SyscallOutput, SyscallRequest, SyscallStep};
use agent_os_kernel::error::AgentOsError;
use agent_os_kernel::goals::RegisterGoalInput;
use agent_os_kernel::json::{JsonNumber, JsonValue};
use agent_os_kernel::lifecycle::ThreadStatus;
use agent_os_kernel::permissions::{PermissionSet, ToolDriverClass};
use agent_os_kernel::provider::{
    ModelAlias, ProviderStreamEventType, ProviderStreamStatus, ProviderUsage, RoutingPolicy, StreamRequest,
};
use agent_os_kernel::sessions::{OpenResourceSessionInput, ResourceSessionStatus, ResourceSessionType};
use agent_os_kernel::state::{
    BackendType, EnvironmentLeaseStatus, EnvironmentStatus, ExecutionEnvironment, KernelState, ProviderProfile,
    ReusePolicy, AttachMode, EnvironmentLease, AuditResult,
};
use agent_os_kernel::syscall::{syscall_op, SyscallGate, SyscallOp, SyscallResult, SyscallStatus};
use agent_os_kernel::process::{
    ProcessCommandMode, ProcessLifecycleState, ProcessOutputStream, ProcessOutputStreamName, StartProcessSessionInput,
};
use agent_os_kernel::tasks::SpawnTaskInput;
use agent_os_kernel::tool_output::ToolStreamOutput;
use agent_os_kernel::tools::{ToolCallStatus, ToolDescriptor, ToolInvokeInput};

fn s(text: &str) -> String {
    text.to_string()
}

fn fixture(sandbox_mode: FilesystemMode) -> KernelState {
    let mut state = KernelState::new();
    state
        .register_goal(
            RegisterGoalInput {
                namespace: s("test"),
                created_by: s("user"),
                title: s("Patch"),
                description: s("Patch fixture"),
                acceptance_criteria: vec![s("patched")],
                constraints: Vec::new(),
                risk_level: 2,
                deadline: None,
            },
            s("goal_1"),
            s("t0"),
        )
        .unwrap();
    state
        .spawn_task(
            SpawnTaskInput {
                goal_id: s("goal_1"),
                parent_task_id: None,
                title: s("Edit"),
                description: s("Edit files"),
                depends_on: Vec::new(),
                required_artifact_types: Vec::new(),
                required_evidence_types: Vec::new(),
                priority: 10,
                risk_level: 2,
            },
            s("task_1"),
            s("t0"),
        )
        .unwrap();
    state.role_profiles.push(RoleProfile {
        role_profile_id: s("role_worker"),
        status: ProfileStatus::Active,
        name: s("WorkerAgent"),
        default_permission_profile_id: s("perm_worker"),
        default_sandbox_profile_id: s("sbox_main"),
        default_provider_profile_id: None,
        default_scheduler_policy_id: None,
        allowed_child_role_profile_ids: Vec::new(),
    });
    state.permission_profiles.push(PermissionProfile {
        permission_profile_id: s("perm_worker"),
        status: ProfileStatus::Active,
        permission_set: PermissionSet {
            max_risk_level: 3,
            allowed_syscalls: vec![s("*")],
            resource_scopes: vec![s("*")],
            allowed_tool_names: vec![s("*")],
            allowed_tool_driver_classes: vec![ToolDriverClass::Filesystem],
            approval_required_above: 3,
            requires_evidence_for: Vec::new(),
        },
    });
    state.sandbox_profiles.push(SandboxProfile {
        sandbox_profile_id: s("sbox_main"),
        status: ProfileStatus::Active,
        filesystem_mode: sandbox_mode,
    });
    state.sandbox_profiles.push(SandboxProfile {
        sandbox_profile_id: s("sbox_env"),
        status: ProfileStatus::Active,
        filesystem_mode: FilesystemMode::WorkspaceWrite,
    });
    state.environments.push(ExecutionEnvironment {
        environment_id: s("env_1"),
        status: EnvironmentStatus::Ready,
        sandbox_profile_id: s("sbox_env"),
        backend_type: BackendType::LocalProcess,
        template_name: s("default"),
        reuse_policy: ReusePolicy::Reusable,
        created_at: s("2026-01-01T00:00:00Z"),
        updated_at: s("2026-01-01T00:00:00Z"),
    });
    state
        .spawn_agent(
            SpawnAgentInput {
                task_id: s("task_1"),
                role_profile_id: s("role_worker"),
                owner: s("user"),
                local_goal: s("edit"),
                success_criteria: Vec::new(),
                failure_criteria: Vec::new(),
                parent_thread_id: None,
                workspace_roots: Vec::new(),
            },
            SpawnIds {
                thread_id: s("thread_w"),
                agent_id: s("agt_w"),
                invocation_id: s("inv_w"),
                session_id: s("sess_w"),
                communication_profile_id: s("comm_w"),
            },
            s("t0"),
        )
        .unwrap();
    state
}

fn kernel() -> KernelState {
    fixture(FilesystemMode::WorkspaceWrite)
}

fn source() -> EcosystemSource {
    EcosystemSource {
        source_kind: EcosystemSourceKind::Agents,
        source_scope: EcosystemSourceScope::Project,
        source_path: s("D:/repo/AGENTS.md"),
    }
}

fn obj(members: Vec<(&str, JsonValue)>) -> JsonValue {
    JsonValue::Object(members.into_iter().map(|(k, v)| (s(k), v)).collect())
}

fn text(t: &str) -> JsonValue {
    JsonValue::String(s(t))
}

fn server(command: Vec<String>) -> McpServerSpec {
    McpServerSpec {
        server_id: s("mcp_local"),
        name: s("local"),
        transport: McpTransportKind::LocalStdio,
        command,
        environment: Vec::new(),
        enabled: true,
        timeout_ms: 1000,
        source: source(),
        created_at: s("t0"),
    }
}

// ---- ecosystem ----

#[test]
fn ecosystem_items_are_validated_then_kept_by_id() {
    let mut state = kernel();
    let doc = InstructionDocument {
        instruction_id: s("inst_agents"),
        source: source(),
        precedence_rank: 7,
        content: s("project rule"),
        content_hash: s("hash_inst"),
        created_at: s("2026-07-03T00:00:00Z"),
    };
    assert_eq!(state.import_instruction_document(doc).unwrap().precedence_rank, 7);
    let skill = SkillDefinition {
        skill_id: s("skill_agents"),
        name: s("agents-source"),
        description: s("Agents source skill"),
        root_path: s("D:/repo/.agents/skills/agents-source"),
        skill_file_path: s("D:/repo/.agents/skills/agents-source/SKILL.md"),
        source: source(),
        content: s("Use the project rule."),
        metadata: Vec::new(),
        content_hash: s("hash_skill"),
        created_at: s("2026-07-03T00:00:00Z"),
    };
    state.import_skill_definition(skill).unwrap();
    assert_eq!(state.ecosystem.instruction_documents.len(), 1);
    assert_eq!(state.ecosystem.skills.len(), 1);
    let command = |template: &str| CommandDefinition {
        command_id: s("cmd_1"),
        name: s("deploy"),
        description: s("Deploy"),
        template: s(template),
        source: source(),
        content_hash: s("hash_cmd"),
        created_at: s("t0"),
    };
    assert_eq!(
        state.import_command_definition(command("run !`rm -rf`")).unwrap_err(),
        AgentOsError::Validation("command templates must not use shell interpolation")
    );
    assert_eq!(
        state.import_command_definition(command("  ")).unwrap_err(),
        AgentOsError::Validation("command requires id, name, non-empty template, and content hash")
    );
    state.import_command_definition(command("deploy $ARGUMENTS")).unwrap();
    state.import_command_definition(command("deploy again")).unwrap();
    assert_eq!(state.ecosystem.commands.len(), 1);
    assert_eq!(state.ecosystem.commands[0].template, "deploy again");
    let profile = ImportedAgentProfile {
        imported_agent_profile_id: s("iap_1"),
        name: s("critic"),
        description: s(""),
        prompt: s("\n"),
        source: source(),
        content_hash: s("h"),
        created_at: s("t0"),
    };
    assert_eq!(
        state.register_imported_agent_profile(profile).unwrap_err(),
        AgentOsError::Validation("imported agent profile requires id, name, prompt, and content hash")
    );
}

#[test]
fn mcp_resources_need_a_registered_server() {
    let mut state = kernel();
    let resource = McpResourceDefinition {
        mcp_resource_id: s("mcpres_1"),
        server_name: s("local"),
        uri: s("file:///notes.md"),
        name: None,
        description: None,
        mime_type: None,
        source: source(),
        created_at: s("t0"),
    };
    assert_eq!(state.register_mcp_server_spec(server(Vec::new())).unwrap_err(), AgentOsError::Validation("local stdio MCP server requires id, name, and command"));
    assert_eq!(state.register_mcp_resource_definition(resource).unwrap_err(), AgentOsError::NotFound("MCP server"));
    state.register_mcp_server_spec(server(vec![s("mcp-server")])).unwrap();
    let resource = McpResourceDefinition {
        mcp_resource_id: s("mcpres_1"),
        server_name: s("local"),
        uri: s("file:///notes.md"),
        name: None,
        description: None,
        mime_type: None,
        source: source(),
        created_at: s("t0"),
    };
    assert_eq!(state.register_mcp_resource_definition(resource).unwrap().uri, "file:///notes.md");
}

#[test]
fn stable_ids_hash_server_and_item() {
    let a = stable_mcp_resource_id("local", "file:///a");
    let b = stable_mcp_resource_id("local", "file:///b");
    assert!(a.starts_with("mcpres_"));
    assert_eq!(a.len(), "mcpres_".len() + 16);
    assert!(a["mcpres_".len()..].chars().all(|c| c.is_ascii_hexdigit() && !c.is_ascii_uppercase()));
    assert_ne!(a, b);
    assert_eq!(a, stable_mcp_resource_id("local", "file:///a"));
    // the digest of "local\nfile:///a" differs from that of "localfile:///a"
    assert_ne!(stable_mcp_tool_id("local", "x"), stable_mcp_tool_id("localx", ""));
    assert_eq!(stable_mcp_tool_id("a", "b"), "mcptool_7e18f737311b2dc3");
    assert_eq!(a, "mcpres_d51911b71f1bba23");
}

#[test]
fn discovered_resources_read_listed_items() {
    let listed = vec![
        obj(vec![("uri", text("file:///a")), ("name", text("A")), ("mimeType", text("text/plain"))]),
        obj(vec![("uri", text("file:///b")), ("mime_type", text("text/markdown"))]),
    ];
    let defs = discover_mcp_resource_definitions(&server(vec![s("srv")]), &listed, source(), s("t1")).unwrap();
    assert_eq!(defs.len(), 2);
    assert_eq!(defs[0].name.as_deref(), Some("A"));
    assert_eq!(defs[0].mime_type.as_deref(), Some("text/plain"));
    assert_eq!(defs[1].mime_type.as_deref(), Some("text/markdown"));
    assert_eq!(defs[1].mcp_resource_id, stable_mcp_resource_id("local", "file:///b"));
    let missing = vec![obj(vec![("name", text("no uri"))])];
    assert_eq!(
        discover_mcp_resource_definitions(&server(vec![s("srv")]), &missing, source(), s("t1")).unwrap_err(),
        AgentOsError::Validation("MCP resource missing string field uri")
    );
    let bad_name = vec![obj(vec![("uri", text("file:///a")), ("name", JsonValue::Bool(true))])];
    assert_eq!(
        discover_mcp_resource_definitions(&server(vec![s("srv")]), &bad_name, source(), s("t1")).unwrap_err(),
        AgentOsError::Validation("MCP resource field name must be a string")
    );
    assert_eq!(
        discover_mcp_resource_definitions(&server(Vec::new()), &listed, source(), s("t1")).unwrap_err(),
        AgentOsError::Validation("local stdio MCP server requires id, name, and command")
    );
    let templates = vec![obj(vec![("uri_template", text("file:///{path}"))])];
    let defs = discover_mcp_resource_template_definitions(&server(vec![s("srv")]), &templates, source(), s("t1")).unwrap();
    assert_eq!(defs[0].uri_template, "file:///{path}");
    assert!(defs[0].mcp_resource_template_id.starts_with("mcprestpl_"));
}

// ---- provider routing ----

fn routed_kernel() -> KernelState {
    let mut state = kernel();
    state.provider_profiles.push(ProviderProfile {
        provider_profile_id: s("prov_1"),
        default_provider_id: Some(s("openai")),
        status: ProfileStatus::Active,
        default_model_alias: Some(s("general")),
        allowed_model_aliases: vec![s("general"), s("backup"), s("coder")],
        fallback_chain: vec![s("disabled"), s("backup")],
    });
    state.routing_policies.push(RoutingPolicy {
        routing_policy_id: s("route_default"),
        status: ProfileStatus::Active,
        rules: vec![obj(vec![
            ("when", obj(vec![("role", text("CoderAgent"))])),
            ("use", obj(vec![("model_alias", text("coder"))])),
        ])],
    });
    let caps = |streaming: bool| obj(vec![("streaming", JsonValue::Bool(streaming))]);
    state.register_model_alias("general", "openai", "gpt-general", caps(false), "prov_1", s("alias_1"), s("t0"));
    state.register_model_alias("backup", "openai", "gpt-backup", caps(true), "prov_1", s("alias_2"), s("t0"));
    state.register_model_alias("coder", "openai", "gpt-coder", caps(true), "prov_1", s("alias_3"), s("t0"));
    state
}

fn request(role: &str, alias: Option<&str>) -> StreamRequest {
    StreamRequest {
        thread_id: s("thread_w"),
        task_id: s("task_1"),
        provider_profile_id: s("prov_1"),
        model_routing_policy_id: s("route_default"),
        requested_model_alias: alias.map(s),
        role: s(role),
        output_schema: None,
    }
}

#[test]
fn route_falls_back_when_preferred_alias_cannot_stream() {
    let state = routed_kernel();
    let decision = state.resolve_provider_route(&request("WorkerAgent", None), s("t1")).unwrap();
    assert_eq!(decision.selected_model_alias, "backup");
    assert!(decision.fallback_applied);
    assert_eq!(decision.fallback_from_model_alias.as_deref(), Some("general"));
    assert_eq!(decision.provider_model_name, "gpt-backup");
    let by_role = state.resolve_provider_route(&request("CoderAgent", None), s("t1")).unwrap();
    assert_eq!(by_role.selected_model_alias, "coder");
    assert!(!by_role.fallback_applied);
    assert_eq!(
        state.resolve_provider_route(&request("WorkerAgent", Some("other")), s("t1")).unwrap_err(),
        AgentOsError::PermissionDenied("provider profile does not allow model alias")
    );
    let mut structured = request("CoderAgent", None);
    structured.output_schema = Some(obj(vec![]));
    assert_eq!(
        state.resolve_provider_route(&structured, s("t1")).unwrap_err(),
        AgentOsError::PermissionDenied("model alias does not support structured output")
    );
    let mut no_thread = request("CoderAgent", None);
    no_thread.thread_id = s("thread_x");
    assert_eq!(state.resolve_provider_route(&no_thread, s("t1")).unwrap_err(), AgentOsError::NotFound("thread"));
}

#[test]
fn stream_session_records_usage_until_completed() {
    let mut state = routed_kernel();
    let session = state
        .open_stream_session(request("WorkerAgent", None), s("stream_1"), s("evt_fb"), s("evt_start"), s("t1"))
        .unwrap();
    assert_eq!(session.stream_events.len(), 2);
    assert_eq!(session.stream_events[0].event_type, ProviderStreamEventType::ProviderFallback);
    assert_eq!(session.stream_events[1].event_type, ProviderStreamEventType::StreamStarted);
    let usage = ProviderUsage { input_tokens: 10, output_tokens: 5, cost_micros: 250 };
    state.record_provider_usage("stream_1", usage, s("evt_u1"), s("t2")).unwrap();
    let after = state.record_provider_usage("stream_1", usage, s("evt_u2"), s("t3")).unwrap();
    assert_eq!(after.usage, ProviderUsage { input_tokens: 20, output_tokens: 10, cost_micros: 500 });
    match &after.stream_events[3].payload {
        JsonValue::Object(ms) => {
            assert!(matches!(ms[0].1, JsonValue::Number(JsonNumber { mantissa: 20, scale: 0 })));
            assert!(matches!(ms[2].1, JsonValue::Number(JsonNumber { mantissa: 500, scale: 6 })));
        }
        _ => panic!("usage payload is not an object"),
    }
    let done = state.complete_stream_session("stream_1", s("evt_done"), s("t4")).unwrap();
    assert_eq!(done.status, ProviderStreamStatus::Completed);
    assert_eq!(done.completed_at.as_deref(), Some("t4"));
    assert_eq!(
        state.record_provider_stream_event("stream_1", ProviderStreamEventType::TextDelta, JsonValue::Null, s("e"), s("t5")).unwrap_err(),
        AgentOsError::InvalidTransition("provider stream session is not open")
    );
    assert_eq!(state.complete_stream_session("stream_x", s("e"), s("t5")).unwrap_err(), AgentOsError::NotFound("provider stream session"));
}

#[test]
fn registering_an_alias_allows_it_once() {
    let mut state = routed_kernel();
    state.register_model_alias("fresh", "openai", "gpt-fresh", JsonValue::Null, "prov_1", s("alias_4"), s("t1"));
    state.register_model_alias("fresh", "openai", "gpt-fresh-2", JsonValue::Null, "prov_1", s("alias_5"), s("t2"));
    let allowed: Vec<&String> = state.provider_profiles[0].allowed_model_aliases.iter().filter(|a| a.as_str() == "fresh").collect();
    assert_eq!(allowed.len(), 1);
    let fresh: Vec<&ModelAlias> = state.model_aliases.iter().filter(|a| a.alias == "fresh").collect();
    assert_eq!(fresh.len(), 1);
    assert_eq!(fresh[0].provider_model_name, "gpt-fresh-2");
    assert_eq!(fresh[0].status, "Active");
}

// ---- recovery, environments and resource sessions ----

#[test]
fn reconciliation_cancels_orphans_and_reclaims_expired_leases() {
    let mut state = kernel();
    state.tool_invocations.push(agent_os_kernel::tools::ToolInvocation {
        call_id: s("call_1"),
        tool_id: s("tool_x"),
        tool_name: s("x"),
        agent_id: s("agt_w"),
        task_id: s("task_1"),
        status: ToolCallStatus::Running,
        risk_level: 1,
        input: JsonValue::Null,
        output: None,
        evidence_ids: Vec::new(),
        created_at: s("t0"),
        completed_at: None,
    });
    state.environment_leases.push(EnvironmentLease {
        environment_lease_id: s("envl_old"),
        environment_id: s("env_1"),
        agent_id: s("agt_w"),
        thread_id: s("thread_w"),
        task_id: s("task_1"),
        attach_mode: AttachMode::ReadOnly,
        status: EnvironmentLeaseStatus::Active,
        started_at: s("t0"),
        expires_at: Some(s("2020-01-01T00:00:00Z")),
        released_at: None,
    });
    let now_nanos: i128 = 1_800_000_000 * 1_000_000_000;
    let report = state.reconcile_thread_recovery("thread_w", s("rec_1"), s("t9"), now_nanos).unwrap();
    assert_eq!(report.orphan_tool_call_ids, vec![s("call_1")]);
    assert_eq!(report.reclaimed_environment_lease_ids, vec![s("envl_old")]);
    assert!(report.reclaimed_resource_lease_ids.is_empty());
    assert_eq!(state.tool_invocations[0].status, ToolCallStatus::Cancelled);
    assert_eq!(state.tool_invocations[0].completed_at.as_deref(), Some("t9"));
    assert_eq!(state.environment_leases[0].status, EnvironmentLeaseStatus::Expired);
    assert_eq!(state.reconciliation_reports.len(), 1);
    assert_eq!(state.reconcile_thread_recovery("thread_x", s("rec_2"), s("t9"), now_nanos).unwrap_err(), AgentOsError::NotFound("thread"));
}

#[test]
fn environments_and_resource_sessions() {
    let mut state = kernel();
    let env = state.create_environment(BackendType::IsolatedWorktree, s("/tmp/wt"), s("sbox_env"), ReusePolicy::Ephemeral, s("env_2"), s("t1"));
    assert_eq!(env.status, EnvironmentStatus::Ready);
    assert_eq!(state.environments.len(), 2);
    let open = |thread: Option<&str>| OpenResourceSessionInput {
        resource_type: ResourceSessionType::Terminal,
        client_thread_id: thread.map(s),
        owner_agent_id: Some(s("agt_w")),
        lease_expires_at: None,
        payload: JsonValue::Null,
    };
    assert_eq!(state.open_resource_session(open(Some("thread_x")), s("rsess_1"), s("t1")).unwrap_err(), AgentOsError::NotFound("thread"));
    let session = state.open_resource_session(open(Some("thread_w")), s("rsess_1"), s("t1")).unwrap();
    assert_eq!(session.status, ResourceSessionStatus::Active);
    let closed = state.close_resource_session("rsess_1", s("t2")).unwrap();
    assert_eq!(closed.status, ResourceSessionStatus::Closed);
    assert_eq!(closed.closed_at.as_deref(), Some("t2"));
    assert_eq!(
        state.close_resource_session("rsess_1", s("t3")).unwrap_err(),
        AgentOsError::InvalidTransition("only active resource sessions can be closed")
    );
}

// ---- tools ----

fn descriptor(name: &str) -> ToolDescriptor {
    ToolDescriptor {
        tool_id: format!("tool_{name}"),
        name: s(name),
        version: s("0.2.0"),
        description: String::new(),
        risk_level: 2,
        driver_class: ToolDriverClass::Filesystem,
        input_schema: obj(vec![("type", text("object"))]),
        output_schema: obj(vec![("type", text("object"))]),
        evidence_type: None,
        foreground_timeout_ms: 1000,
        required_resource_scopes: Vec::new(),
        driver_config: JsonValue::Null,
        model_input_schema: None,
        injected_fields: Vec::new(),
        created_at: s("t0"),
    }
}

#[test]
fn registered_tools_stay_sorted_by_name() {
    let mut state = kernel();
    state.register_tool_descriptor(descriptor("write_file"));
    state.register_tool_descriptor(descriptor("apply_patch"));
    state.register_tool_descriptor(descriptor("read_file"));
    let mut replaced = descriptor("read_file");
    replaced.risk_level = 1;
    state.register_tool_descriptor(replaced);
    let names: Vec<&str> = state.tool_descriptors.iter().map(|d| d.name.as_str()).collect();
    assert_eq!(names, vec!["apply_patch", "read_file", "write_file"]);
    assert_eq!(state.tool_descriptors[1].risk_level, 1);
    let proposal = state
        .record_tool_proposal(
            "agt_w",
            "task_1",
            ToolInvokeInput { tool_name: s("read_file"), input: JsonValue::Null, evidence_claim: None },
            1,
            s("call_p"),
            s("t1"),
        )
        .unwrap();
    assert_eq!(proposal.status, ToolCallStatus::Proposed);
    assert_eq!(proposal.tool_id, "tool_read_file");
    assert_eq!(
        state
            .record_tool_proposal("agt_w", "task_1", ToolInvokeInput { tool_name: s("nope"), input: JsonValue::Null, evidence_claim: None }, 1, s("call_q"), s("t1"))
            .unwrap_err(),
        AgentOsError::NotFound("tool")
    );
}

// ---- syscalls ----

fn envelope(kind: &str, key: &str) -> SyscallEnvelope {
    SyscallEnvelope {
        syscall_id: s("sys_1"),
        syscall_type: s(kind),
        agent_id: s("agt_w"),
        task_id: s("task_1"),
        session_id: s("sess_w"),
        capability_token: Some(s("cap_1")),
        risk_level: 1,
        resource_scope: JsonValue::Null,
        abi_version: s("v1"),
        idempotency_key: s(key),
        payload: obj(vec![("reason", text("tests failed"))]),
    }
}

#[test]
fn syscall_names_map_to_operations() {
    assert_eq!(syscall_op("human.message"), Some(SyscallOp::SendMessage));
    assert_eq!(syscall_op("comm.send_supervisor"), Some(SyscallOp::SendMessage));
    assert_eq!(syscall_op("memento.arm"), Some(SyscallOp::MementoArm));
    assert_eq!(syscall_op("policy.check"), Some(SyscallOp::PolicyCheck));
    assert_eq!(syscall_op("policy.checks"), None);
}

#[test]
fn syscall_gate_rejects_replays_and_dispatches() {
    let mut state = kernel();
    let mut wrong_abi = envelope("agent.yield", "k1");
    wrong_abi.abi_version = s("v0");
    match state.syscall_gate(&wrong_abi, "v1").unwrap() {
        SyscallGate::Rejected(r) => {
            assert_eq!(r.status, SyscallStatus::Rejected);
            assert_eq!(r.reason, Some("unsupported ABI version"));
        }
        _ => panic!("expected a rejection"),
    }
    let mut anonymous = envelope("agent.yield", "k1");
    anonymous.agent_id = s("");
    assert!(matches!(state.syscall_gate(&anonymous, "v1").unwrap(), SyscallGate::Rejected(_)));
    assert!(matches!(state.syscall_gate(&envelope("agent.yield", "k1"), "v1").unwrap(), SyscallGate::Dispatch(SyscallOp::AgentYield)));
    assert_eq!(state.syscall_gate(&envelope("agent.dance", "k1"), "v1").unwrap_err(), AgentOsError::Validation("unknown syscall op"));
    state.record_syscall_result(s("k1"), SyscallResult::accepted(s("sys_1"), vec![s("evt_1")], JsonValue::Bool(true)));
    match state.syscall_gate(&envelope("agent.yield", "k1"), "v1").unwrap() {
        SyscallGate::Replayed(r) => assert_eq!(r.event_ids, vec![s("evt_1")]),
        _ => panic!("expected a replay"),
    }
}

#[test]
fn agent_lifecycle_syscalls_are_authorized_first() {
    let mut state = kernel();
    assert_eq!(
        state.agent_lifecycle_syscall(&envelope("agent.fail", "k"), SyscallOp::AgentFail, s("t1"), 0).unwrap_err(),
        AgentOsError::PermissionDenied("unknown capability token")
    );
    state
        .grant_capability("agt_w", "task_1", vec![s("*")], vec![s("*")], 3, None, s("cap_1"), s("t0"), 0)
        .unwrap();
    assert_eq!(
        state.agent_lifecycle_syscall(&envelope("policy.check", "k"), SyscallOp::PolicyCheck, s("t1"), 0).unwrap_err(),
        AgentOsError::Validation("not an agent lifecycle syscall")
    );
    let failed = state.agent_lifecycle_syscall(&envelope("agent.fail", "k"), SyscallOp::AgentFail, s("t1"), 0).unwrap();
    assert_eq!(failed.status, ThreadStatus::Failed);
    assert_eq!(failed.status_reason.as_deref(), Some("tests failed"));
    assert_eq!(
        state.agent_lifecycle_syscall(&envelope("agent.resume", "k"), SyscallOp::AgentResume, s("t2"), 0).unwrap_err(),
        AgentOsError::InvalidTransition("thread transition is not allowed")
    );
}

// ---- tool output capture and process sessions ----

#[test]
fn stream_capture_keeps_head_and_bounded_tail() {
    let mut out = ToolStreamOutput::empty();
    out.append_bounded(b"abc", 4);
    assert_eq!(out.head, b"abc".to_vec());
    assert_eq!(out.tail, b"abc".to_vec());
    assert!(!out.truncated);
    out.append_bounded(b"defg", 4);
    assert_eq!(out.head, b"abcd".to_vec());
    assert_eq!(out.tail, b"defg".to_vec());
    assert!(out.truncated);
    assert_eq!(out.bytes, 7);
    out.append_bounded(b"", 4);
    assert_eq!(out.tail, b"defg".to_vec());
    out.bytes = usize::MAX - 1;
    out.append_bounded(b"xy", 4);
    assert_eq!(out.bytes, usize::MAX);
    assert_eq!(out.tail, b"fgxy".to_vec());
}

#[test]
fn process_sessions_run_and_exit() {
    let mut state = kernel();
    let input = StartProcessSessionInput {
        tool_call_id: s("call_1"),
        agent_id: s("agt_w"),
        thread_id: s("thread_w"),
        task_id: s("task_1"),
        session_id: s("sess_w"),
        syscall_id: s("sys_1"),
        capability_id: None,
        workspace_root: s("/ws"),
        cwd: s("/ws"),
        command_mode: ProcessCommandMode::Argv,
        command: s("cargo"),
        args: vec![s("test")],
        executed_program: s("cargo"),
        executed_args: vec![s("test")],
        environment_keys: Vec::new(),
    };
    state.start_process_session(input, s("proc_1"), s("t1"));
    assert_eq!(state.process_sessions[0].state, ProcessLifecycleState::Starting);
    assert_eq!(state.process_session_by_tool_call_id("call_1"), Some(0));
    assert_eq!(state.process_session_by_tool_call_id("call_2"), None);
    state.mark_process_session_running("proc_1", Some(42), Some(s("/spool/out")), None, s("t2")).unwrap();
    assert_eq!(state.process_sessions[0].os_pid, Some(42));
    assert_eq!(state.process_sessions[0].stdout.spool_path.as_deref(), Some("/spool/out"));
    let stream = |name| ProcessOutputStream { name, sequence: 3, bytes: 10, cursor: 10, truncated: false, spool_path: None };
    state
        .exit_process_session("proc_1", Some(0), stream(ProcessOutputStreamName::Stdout), stream(ProcessOutputStreamName::Stderr), s("t3"))
        .unwrap();
    assert_eq!(state.process_sessions[0].state, ProcessLifecycleState::Exited);
    assert_eq!(state.process_sessions[0].completed_at.as_deref(), Some("t3"));
    assert_eq!(state.fail_process_session("proc_x", s("boom"), s("t4")).unwrap_err(), AgentOsError::NotFound("process session"));
}

// ---- running syscalls ----

#[test]
fn handled_syscalls_are_authorized_run_and_replayed() {
    let mut state = kernel();
    let register = RegisterGoalInput {
        namespace: s("test"),
        created_by: s("user"),
        title: s("Second"),
        description: s("Second goal"),
        acceptance_criteria: vec![s("done")],
        constraints: Vec::new(),
        risk_level: 1,
        deadline: None,
    };
    let goal_env = envelope("goal.register", "k_goal");
    match state
        .handle_syscall(&goal_env, "v1", SyscallRequest::GoalRegister { input: register, goal_id: s("goal_2") }, s("t1"), 0, s("evt_1"))
        .unwrap()
    {
        SyscallStep::Ran(SyscallOutput::Goal(goal), kept) => {
            assert_eq!(goal.goal_id, "goal_2");
            assert_eq!(kept.syscall_id, "sys_1");
            assert_eq!(kept.status, SyscallStatus::Accepted);
            assert_eq!(kept.event_ids, vec![s("evt_1")]);
        }
        other => panic!("unexpected step {other:?}"),
    }
    match state.handle_syscall(&goal_env, "v1", SyscallRequest::PolicyCheck, s("t2"), 0, s("evt_2")).unwrap() {
        SyscallStep::Answered(result) => {
            assert_eq!(result.status, SyscallStatus::Accepted);
            match &result.output {
                JsonValue::Object(ms) => {
                    assert!(matches!(&ms[0].1, JsonValue::String(k) if k == "goal"));
                    assert!(matches!(&ms[1].1, JsonValue::String(id) if id == "goal_2"));
                }
                other => panic!("unexpected answer {other:?}"),
            }
        }
        other => panic!("unexpected step {other:?}"),
    }
    assert_eq!(state.goals.len(), 2);
    assert_eq!(state.event_log.len(), 1);
    assert_eq!(state.event_log[0].event_type, "GoalRegistered");
    assert_eq!(state.event_log[0].event_id, "evt_1");
    assert_eq!(state.event_log[0].recorded_at, "t1");
    assert_eq!(
        state.handle_syscall(&envelope("policy.check", "k_p"), "v1", SyscallRequest::PolicyCheck, s("t2"), 0, s("evt_3")).unwrap_err(),
        AgentOsError::PermissionDenied("unknown capability token")
    );
    assert_eq!(
        state.handle_syscall(&envelope("policy.check", "k_q"), "v1", SyscallRequest::ToolDiscover, s("t2"), 0, s("evt_4")).unwrap_err(),
        AgentOsError::Validation("syscall payload does not match its op")
    );
    state
        .grant_capability("agt_w", "task_1", vec![s("*")], vec![s("*")], 3, None, s("cap_1"), s("t0"), 0)
        .unwrap();
    assert!(matches!(
        state.handle_syscall(&envelope("policy.check", "k_p"), "v1", SyscallRequest::PolicyCheck, s("t2"), 0, s("evt_5")).unwrap(),
        SyscallStep::Ran(SyscallOutput::PolicyAllowed, _)
    ));
    match state.handle_syscall(&envelope("agent.fail", "k_f"), "v1", SyscallRequest::AgentFail, s("t3"), 0, s("evt_6")).unwrap() {
        SyscallStep::Ran(SyscallOutput::Lifecycle(lc), _) => {
            assert_eq!(lc.status, ThreadStatus::Failed);
            assert_eq!(lc.status_reason.as_deref(), Some("tests failed"));
        }
        other => panic!("unexpected step {other:?}"),
    }
    let mut old_abi = envelope("policy.check", "k_r");
    old_abi.abi_version = s("v0");
    match state.handle_syscall(&old_abi, "v1", SyscallRequest::PolicyCheck, s("t4"), 0, s("evt_7")).unwrap() {
        SyscallStep::Answered(result) => assert_eq!(result.reason, Some("unsupported ABI version")),
        other => panic!("unexpected step {other:?}"),
    }
    let logged: Vec<&str> = state.event_log.iter().map(|e| e.event_type).collect();
    assert_eq!(logged, vec!["GoalRegistered", "PolicyChecked", "ThreadStatusChanged"]);
}

#[test]
fn refused_tool_call_is_kept_as_denied_and_audited() {
    let mut state = kernel();
    state.register_tool_descriptor(descriptor("read_file"));
    let call = |name: &str, id: &str| SyscallRequest::ToolInvoke {
        input: ToolInvokeInput { tool_name: s(name), input: obj(vec![("path", text("a.txt"))]), evidence_claim: None },
        call_id: s(id),
        audit_id: s("audit_d"),
    };
    assert_eq!(
        state.handle_syscall(&envelope("tool.invoke", "k_t"), "v1", call("read_file", "call_d"), s("t5"), 0, s("evt_d")).unwrap_err(),
        AgentOsError::PermissionDenied("unknown capability token")
    );
    let denied = state.tool_invocations.last().unwrap();
    assert_eq!(denied.call_id, "call_d");
    assert_eq!(denied.status, ToolCallStatus::Denied);
    assert_eq!(denied.completed_at.as_deref(), Some("t5"));
    match &denied.output {
        Some(JsonValue::Object(ms)) => {
            assert!(matches!(&ms[0].1, JsonValue::String(t) if t == "denied"));
            assert!(matches!(&ms[1].1, JsonValue::String(t) if t == "unknown capability token"));
        }
        other => panic!("unexpected output {other:?}"),
    }
    let audit = state.audit_events.last().unwrap();
    assert_eq!(audit.result, AuditResult::Deny);
    assert_eq!(audit.resource_id, "call_d");
    assert_eq!(state.event_log.last().unwrap().event_type, "ToolCallDenied");
    let calls = state.tool_invocations.len();
    assert!(state.handle_syscall(&envelope("tool.invoke", "k_u"), "v1", call("no_such_tool", "call_e"), s("t6"), 0, s("evt_e")).is_err());
    assert_eq!(state.tool_invocations.len(), calls);
}
