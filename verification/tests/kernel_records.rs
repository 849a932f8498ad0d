use agent_os_kernel::agents::{
    FilesystemMode, PermissionProfile, ProfileStatus, RoleProfile, SandboxProfile, SpawnAgentInput, SpawnIds,
};
use agent_os_kernel::artifacts::AttachEvidenceInput;
use agent_os_kernel::automation::{AutomationScheduleKind, AutomationScheduleStatus, CreateAutomationScheduleInput};
use agent_os_kernel::client_threads::TurnInputKind;
use agent_os_kernel::context::{
    CommitMemoryWriteInput, CompactContextInput, ContextFreshness, LoadContextInput, MemoryStatus, ProposeMemoryWriteInput,
};
use agent_os_kernel::error::AgentOsError;
use agent_os_kernel::goals::RegisterGoalInput;
use agent_os_kernel::json::{JsonNumber, JsonValue};
use agent_os_kernel::lifecycle::ThreadStatus;
use agent_os_kernel::memento::{
    CreateMementoInput, MementoAnchor, MementoAnchorType, MementoLinks, MementoProjection, MementoStatus,
};
use agent_os_kernel::packages::{PackageInstallProvenance, PackageInstallStatus, PackageManifest, PackageManifestRecord};
use agent_os_kernel::ecosystem::{EcosystemSource, EcosystemSourceKind, EcosystemSourceScope};
use agent_os_kernel::permissions::{PermissionSet, ToolDriverClass};
use agent_os_kernel::state::{
    BackendType, EnvironmentStatus, EvidenceType, ExecutionEnvironment, KernelState, ReusePolicy,
};
use agent_os_kernel::tasks::SpawnTaskInput;

fn s(text: &str) -> String {
    text.to_string()
}

fn fixture(sandbox_mode: FilesystemMode) -> KernelState {
    let mut state = KernelState::new();
    state
        .register_goal(
            RegisterGoalInput {
                namespace: s("test"),
                created_by: s("user"),
                title: s("Patch"),
                description: s("Patch fixture"),
                acceptance_criteria: vec![s("patched")],
                constraints: Vec::new(),
                risk_level: 2,
                deadline: None,
            },
            s("goal_1"),
            s("t0"),
        )
        .unwrap();
    state
        .spawn_task(
            SpawnTaskInput {
                goal_id: s("goal_1"),
                parent_task_id: None,
                title: s("Edit"),
                description: s("Edit files"),
                depends_on: Vec::new(),
                required_artifact_types: Vec::new(),
                required_evidence_types: Vec::new(),
                priority: 10,
                risk_level: 2,
            },
            s("task_1"),
            s("t0"),
        )
        .unwrap();
    state.role_profiles.push(RoleProfile {
        role_profile_id: s("role_worker"),
        status: ProfileStatus::Active,
        name: s("WorkerAgent"),
        default_permission_profile_id: s("perm_worker"),
        default_sandbox_profile_id: s("sbox_main"),
        default_provider_profile_id: None,
        default_scheduler_policy_id: None,
        allowed_child_role_profile_ids: Vec::new(),
    });
    state.permission_profiles.push(PermissionProfile {
        permission_profile_id: s("perm_worker"),
        status: ProfileStatus::Active,
        permission_set: PermissionSet {
            max_risk_level: 3,
            allowed_syscalls: vec![s("*")],
            resource_scopes: vec![s("*")],
            allowed_tool_names: vec![s("*")],
            allowed_tool_driver_classes: vec![ToolDriverClass::Filesystem],
            approval_required_above: 3,
            requires_evidence_for: Vec::new(),
        },
    });
    state.sandbox_profiles.push(SandboxProfile {
        sandbox_profile_id: s("sbox_main"),
        status: ProfileStatus::Active,
        filesystem_mode: sandbox_mode,
    });
    state.sandbox_profiles.push(SandboxProfile {
        sandbox_profile_id: s("sbox_env"),
        status: ProfileStatus::Active,
        filesystem_mode: FilesystemMode::WorkspaceWrite,
    });
    state.environments.push(ExecutionEnvironment {
        environment_id: s("env_1"),
        status: EnvironmentStatus::Ready,
        sandbox_profile_id: s("sbox_env"),
        backend_type: BackendType::LocalProcess,
        template_name: s("default"),
        reuse_policy: ReusePolicy::Reusable,
        created_at: s("2026-01-01T00:00:00Z"),
        updated_at: s("2026-01-01T00:00:00Z"),
    });
    state
        .spawn_agent(
            SpawnAgentInput {
                task_id: s("task_1"),
                role_profile_id: s("role_worker"),
                owner: s("user"),
                local_goal: s("edit"),
                success_criteria: Vec::new(),
                failure_criteria: Vec::new(),
                parent_thread_id: None,
                workspace_roots: Vec::new(),
            },
            SpawnIds {
                thread_id: s("thread_w"),
                agent_id: s("agt_w"),
                invocation_id: s("inv_w"),
                session_id: s("sess_w"),
                communication_profile_id: s("comm_w"),
            },
            s("t0"),
        )
        .unwrap();
    state
}

fn kernel() -> KernelState {
    fixture(FilesystemMode::WorkspaceWrite)
}

fn source() -> EcosystemSource {
    EcosystemSource {
        source_kind: EcosystemSourceKind::AgentOs,
        source_scope: EcosystemSourceScope::Config,
        source_path: s(".agent-os/config.json"),
    }
}

// ---- client threads ----

#[test]
fn archive_unarchive_and_delete_thread() {
    let mut state = kernel();
    let archived = state.archive_thread("thread_w", s("t1")).unwrap();
    assert!(archived.archived);
    assert!(!archived.deleted);
    assert_eq!(archived.title, "edit");
    assert_eq!(archived.updated_at, "t1");
    let back = state.unarchive_thread("thread_w", s("t2")).unwrap();
    assert!(!back.archived);
    let deleted = state.delete_thread("thread_w", s("t3")).unwrap();
    assert!(deleted.archived && deleted.deleted);
    assert_eq!(state.client_threads.len(), 1);
    assert_eq!(
        state.archive_thread("thread_w", s("t4")).unwrap_err(),
        AgentOsError::InvalidTransition("thread is deleted")
    );
    assert_eq!(state.rename_thread("thread_w", s("new"), s("t4")).unwrap_err(), AgentOsError::InvalidTransition("thread is deleted"));
    assert_eq!(state.archive_thread("thread_x", s("t4")).unwrap_err(), AgentOsError::NotFound("thread"));
}

#[test]
fn rename_trims_and_refuses_blank_titles() {
    let mut state = kernel();
    let renamed = state.rename_thread("thread_w", s("  Release notes \n"), s("t1")).unwrap();
    assert_eq!(renamed.title, "Release notes");
    assert_eq!(state.archive_thread("thread_w", s("t2")).unwrap().title, "Release notes");
    assert_eq!(
        state.rename_thread("thread_w", s(" \t "), s("t3")).unwrap_err(),
        AgentOsError::Validation("thread title must not be empty")
    );
    assert_eq!(
        state.rename_thread("thread_x", s(""), s("t3")).unwrap_err(),
        AgentOsError::Validation("thread title must not be empty")
    );
}

#[test]
fn turn_input_needs_the_active_turn() {
    let mut state = kernel();
    assert_eq!(
        state.record_turn_input("client_1", "thread_w", "turn_1", TurnInputKind::Start, s("hi"), s("in_1"), s("t1")).unwrap_err(),
        AgentOsError::Validation("turn is not active on thread")
    );
    state.start_turn("thread_w", s("turn_1"), s("t1")).unwrap();
    let record = state
        .record_turn_input("client_1", "thread_w", "turn_1", TurnInputKind::Steer, s("focus"), s("in_1"), s("t2"))
        .unwrap();
    assert_eq!(record.submitted_by_client_id, "client_1");
    assert_eq!(record.kind, TurnInputKind::Steer);
    assert_eq!(state.turn_inputs.len(), 1);
    assert_eq!(
        state.record_turn_input("client_1", "thread_x", "turn_1", TurnInputKind::Start, s("hi"), s("in_2"), s("t3")).unwrap_err(),
        AgentOsError::NotFound("thread")
    );
}

#[test]
fn checkpoint_cleans_the_recovery_cursor() {
    let mut state = kernel();
    state.transition_thread("thread_w", ThreadStatus::Ready, None, s("t1")).unwrap();
    assert!(state.threads[0].lifecycle.recovery_dirty);
    let lc = state.record_checkpoint("thread_w", s("ckpt_1"), s("t2")).unwrap();
    assert!(!lc.recovery_dirty);
    assert_eq!(lc.last_checkpoint_id.as_deref(), Some("ckpt_1"));
    assert_eq!(lc.status, ThreadStatus::Ready);
    assert_eq!(state.record_checkpoint("thread_x", s("c"), s("t3")).unwrap_err(), AgentOsError::NotFound("thread"));
}

// ---- mementos ----

fn memento(priority: i32, anchor_type: MementoAnchorType, anchor_ref: Option<String>) -> CreateMementoInput {
    CreateMementoInput {
        owner_agent_id: s("agt_w"),
        owner_thread_id: s("thread_w"),
        goal_id: s("goal_1"),
        task_id: s("task_1"),
        anchor: MementoAnchor { anchor_type, anchor_ref },
        content: JsonValue::String(s("remember the tests")),
        projection: MementoProjection { priority },
        links: MementoLinks {
            related_artifact_ids: Vec::new(),
            related_evidence_ids: Vec::new(),
            related_child_thread_ids: Vec::new(),
            related_tool_call_ids: Vec::new(),
        },
        supersedes: None,
        expires_at: None,
    }
}

#[test]
fn memento_lifecycle_is_owner_scoped() {
    let mut state = kernel();
    let draft = state.create_memento(memento(1, MementoAnchorType::Manual, None), s("mmt_1"), s("t1")).unwrap();
    assert_eq!(draft.status, MementoStatus::Draft);
    assert!(draft.visibility.owner_only);
    assert_eq!(draft.immutability.content_hash, "");
    let mut foreign = memento(1, MementoAnchorType::Manual, None);
    foreign.owner_agent_id = s("agt_other");
    assert_eq!(
        state.create_memento(foreign, s("mmt_2"), s("t1")).unwrap_err(),
        AgentOsError::PermissionDenied("only owner agent can create owner memento")
    );
    assert_eq!(state.arm_memento("agt_other", "mmt_1", s("h"), s("t2")).unwrap_err(), AgentOsError::PermissionDenied("only owner can arm memento"));
    assert_eq!(
        state.consume_memento("agt_w", "mmt_1", s("t2")).unwrap_err(),
        AgentOsError::InvalidTransition("memento cannot be consumed from current status")
    );
    let armed = state.arm_memento("agt_w", "mmt_1", s("sha_content"), s("t2")).unwrap();
    assert_eq!(armed.status, MementoStatus::Armed);
    assert_eq!(armed.immutability.content_hash, "sha_content");
    assert_eq!(armed.immutability.committed_by.as_deref(), Some("agt_w"));
    assert_eq!(
        state.arm_memento("agt_w", "mmt_1", s("h"), s("t3")).unwrap_err(),
        AgentOsError::InvalidTransition("only draft mementos can be armed")
    );
    let consumed = state.consume_memento("agt_w", "mmt_1", s("t3")).unwrap();
    assert_eq!(consumed.status, MementoStatus::Consumed);
    assert_eq!(
        state.consume_memento("agt_w", "mmt_1", s("t4")).unwrap_err(),
        AgentOsError::InvalidTransition("memento cannot be consumed from current status")
    );
    assert_eq!(state.arm_memento("agt_w", "mmt_x", s("h"), s("t4")).unwrap_err(), AgentOsError::NotFound("memento"));
}

#[test]
fn visible_mementos_come_by_priority() {
    let mut state = kernel();
    state.create_memento(memento(1, MementoAnchorType::Manual, None), s("mmt_low"), s("t1")).unwrap();
    state.create_memento(memento(5, MementoAnchorType::Manual, None), s("mmt_high"), s("t1")).unwrap();
    state.create_memento(memento(1, MementoAnchorType::Manual, None), s("mmt_low2"), s("t1")).unwrap();
    let ids: Vec<String> = state
        .visible_mementos_for_thread("thread_w", "thread_w")
        .unwrap()
        .into_iter()
        .map(|m| m.memento_id)
        .collect();
    assert_eq!(ids, vec![s("mmt_high"), s("mmt_low"), s("mmt_low2")]);
    assert_eq!(
        state.visible_mementos_for_thread("thread_child", "thread_w").unwrap_err(),
        AgentOsError::PermissionDenied("child or peer thread cannot read owner mementos")
    );
}

#[test]
fn child_completion_triggers_armed_mementos() {
    let mut state = kernel();
    state
        .create_memento(memento(1, MementoAnchorType::ChildThreadCompleted, Some(s("thread_child"))), s("mmt_1"), s("t1"))
        .unwrap();
    state
        .create_memento(memento(1, MementoAnchorType::ChildThreadCompleted, Some(s("thread_other"))), s("mmt_2"), s("t1"))
        .unwrap();
    state.arm_memento("agt_w", "mmt_1", s("h1"), s("t2")).unwrap();
    state.arm_memento("agt_w", "mmt_2", s("h2"), s("t2")).unwrap();
    state.trigger_child_completion_mementos("thread_child", s("t3"));
    assert_eq!(state.mementos[0].status, MementoStatus::Triggered);
    assert_eq!(state.mementos[0].updated_at, "t3");
    assert_eq!(state.mementos[1].status, MementoStatus::Armed);
    assert_eq!(state.consume_memento("agt_w", "mmt_1", s("t4")).unwrap().status, MementoStatus::Consumed);
}

// ---- context and memory ----

fn load(score: JsonNumber) -> LoadContextInput {
    LoadContextInput {
        agent_id: s("agt_w"),
        task_id: s("task_1"),
        loaded_refs: vec![s("file:a.rs")],
        summary_artifact_id: None,
        freshness: ContextFreshness::Fresh,
        pollution_score: score,
        token_estimate: 120,
    }
}

#[test]
fn context_load_checks_score_agent_and_task() {
    let mut state = kernel();
    let snapshot = state.load_context(load(JsonNumber { mantissa: 25, scale: 2 }), s("ctx_1"), s("t1")).unwrap();
    assert_eq!(snapshot.loaded_refs, vec![s("file:a.rs")]);
    assert_eq!(snapshot.invalidated_at, None);
    assert_eq!(
        state.load_context(load(JsonNumber { mantissa: 101, scale: 2 }), s("ctx_2"), s("t1")).unwrap_err(),
        AgentOsError::Validation("context pollution score must be between 0.0 and 1.0")
    );
    assert_eq!(
        state.load_context(load(JsonNumber { mantissa: -1, scale: 0 }), s("ctx_2"), s("t1")).unwrap_err(),
        AgentOsError::Validation("context pollution score must be between 0.0 and 1.0")
    );
    assert!(state.load_context(load(JsonNumber { mantissa: 1, scale: 0 }), s("ctx_3"), s("t1")).is_ok());
    let mut empty = load(JsonNumber { mantissa: 0, scale: 0 });
    empty.loaded_refs.clear();
    assert_eq!(
        state.load_context(empty, s("ctx_4"), s("t1")).unwrap_err(),
        AgentOsError::Validation("context load requires at least one loaded ref or summary artifact")
    );
    let mut other_task = load(JsonNumber { mantissa: 0, scale: 0 });
    other_task.task_id = s("task_2");
    assert_eq!(
        state.load_context(other_task, s("ctx_5"), s("t1")).unwrap_err(),
        AgentOsError::PermissionDenied("context load task must match agent thread task")
    );
    let mut stranger = load(JsonNumber { mantissa: 0, scale: 0 });
    stranger.agent_id = s("agt_x");
    assert_eq!(state.load_context(stranger, s("ctx_6"), s("t1")).unwrap_err(), AgentOsError::NotFound("agent"));
    let stale = state.invalidate_context("ctx_1", s("t2")).unwrap();
    assert_eq!(stale.freshness, ContextFreshness::Stale);
    assert_eq!(stale.invalidated_at.as_deref(), Some("t2"));
    assert_eq!(state.invalidate_context("ctx_x", s("t2")).unwrap_err(), AgentOsError::NotFound("context"));
}

fn evidence_input() -> AttachEvidenceInput {
    AttachEvidenceInput {
        goal_id: s("goal_1"),
        task_id: Some(s("task_1")),
        artifact_id: None,
        evidence_type: EvidenceType::CommandLog,
        producer_agent_id: Some(s("agt_w")),
        claim: None,
        blob_ref: None,
        content_hash: None,
        stored_blob: None,
        metadata: JsonValue::Null,
    }
}

#[test]
fn memory_is_proposed_with_provenance_then_committed_once() {
    let mut state = kernel();
    state.attach_evidence(evidence_input(), s("evd_1"), s("t0")).unwrap();
    let propose = |ids: Vec<String>| ProposeMemoryWriteInput {
        namespace: s("project"),
        content: JsonValue::Bool(true),
        created_by_agent_id: s("agt_w"),
        source_evidence_ids: ids,
    };
    assert_eq!(
        state.propose_memory_write(propose(Vec::new()), s("mem_0"), s("t1")).unwrap_err(),
        AgentOsError::Validation("memory write requires source evidence provenance")
    );
    assert_eq!(
        state.propose_memory_write(propose(vec![s("evd_x")]), s("mem_0"), s("t1")).unwrap_err(),
        AgentOsError::NotFound("evidence")
    );
    let mut no_namespace = propose(vec![s("evd_1")]);
    no_namespace.namespace = s("");
    assert_eq!(
        state.propose_memory_write(no_namespace, s("mem_0"), s("t1")).unwrap_err(),
        AgentOsError::Validation("memory write requires a namespace")
    );
    let proposed = state.propose_memory_write(propose(vec![s("evd_1")]), s("mem_1"), s("t1")).unwrap();
    assert_eq!(proposed.status, MemoryStatus::Proposed);
    assert_eq!(proposed.created_by_agent_id.as_deref(), Some("agt_w"));
    let commit = || CommitMemoryWriteInput { memory_id: s("mem_1"), approved_by: s("user") };
    let active = state.commit_memory_write(commit(), s("t2")).unwrap();
    assert_eq!(active.status, MemoryStatus::Active);
    assert_eq!(active.approved_by.as_deref(), Some("user"));
    assert_eq!(active.activated_at.as_deref(), Some("t2"));
    assert_eq!(state.commit_memory_write(commit(), s("t3")).unwrap_err(), AgentOsError::InvalidTransition("memory is not Proposed"));
    assert_eq!(state.invalidate_memory("mem_1").unwrap().status, MemoryStatus::Invalidated);
    assert_eq!(state.invalidate_memory("mem_x").unwrap_err(), AgentOsError::NotFound("memory"));
}

#[test]
fn compaction_links_summary_to_superseded_refs() {
    let mut state = kernel();
    let input = CompactContextInput {
        thread_id: s("thread_w"),
        agent_id: s("agt_w"),
        task_id: s("task_1"),
        summary_artifact_id: None,
        superseded_refs: vec![s("ctx_1"), s("ctx_2")],
        token_estimate: 50,
    };
    let compaction = state.compact_context(input, s("cmpct_1"), s("t1")).unwrap();
    assert_eq!(compaction.superseded_refs, vec![s("ctx_1"), s("ctx_2")]);
    let bad = CompactContextInput {
        thread_id: s("thread_w"),
        agent_id: s("agt_w"),
        task_id: s("task_1"),
        summary_artifact_id: Some(s("art_x")),
        superseded_refs: Vec::new(),
        token_estimate: 0,
    };
    assert_eq!(state.compact_context(bad, s("cmpct_2"), s("t1")).unwrap_err(), AgentOsError::NotFound("artifact"));
}

// ---- automation ----

fn schedule(interval: Option<u64>) -> CreateAutomationScheduleInput {
    CreateAutomationScheduleInput {
        name: s("nightly"),
        kind: AutomationScheduleKind::ThreadWakeup,
        target_thread_id: Some(s("thread_w")),
        workspace: None,
        prompt: s("check in"),
        next_run_at: Some(s("2026-01-01T00:00:00Z")),
        interval_seconds: interval,
        created_by_client_id: s("client_1"),
        payload: JsonValue::Null,
    }
}

#[test]
fn automation_schedule_validation() {
    let mut state = kernel();
    let mut blank = schedule(None);
    blank.name = s("  ");
    assert_eq!(
        state.create_automation_schedule(blank, s("auto_1"), s("t1")).unwrap_err(),
        AgentOsError::Validation("automation schedule name must not be empty")
    );
    let mut no_prompt = schedule(None);
    no_prompt.prompt = s("");
    assert_eq!(
        state.create_automation_schedule(no_prompt, s("auto_1"), s("t1")).unwrap_err(),
        AgentOsError::Validation("automation schedule prompt must not be empty")
    );
    let mut no_target = schedule(None);
    no_target.target_thread_id = None;
    assert_eq!(
        state.create_automation_schedule(no_target, s("auto_1"), s("t1")).unwrap_err(),
        AgentOsError::Validation("thread wakeup automation requires target_thread_id")
    );
    let created = state.create_automation_schedule(schedule(None), s("auto_1"), s("t1")).unwrap();
    assert_eq!(created.status, AutomationScheduleStatus::Active);
    assert_eq!(created.last_run_at, None);
}

#[test]
fn queued_run_advances_a_repeating_schedule() {
    let mut state = kernel();
    state.create_automation_schedule(schedule(Some(3600)), s("auto_1"), s("t1")).unwrap();
    let run = state.queue_automation_run("auto_1", s("2026-01-01T00:00:00Z"), s("run_1"), s("t2")).unwrap();
    assert_eq!(run.scheduled_for, "2026-01-01T00:00:00Z");
    assert_eq!(run.prompt, "check in");
    let updated = &state.automation_schedules[0];
    assert_eq!(updated.last_run_at.as_deref(), Some("2026-01-01T00:00:00Z"));
    assert_eq!(updated.next_run_at.as_deref(), Some("2026-01-01T01:00:00Z"));
    assert_eq!(state.queue_automation_run("auto_x", s("x"), s("run_2"), s("t3")).unwrap_err(), AgentOsError::NotFound("automation schedule"));
    let bad = state.queue_automation_run("auto_1", s("not a time"), s("run_3"), s("t3"));
    assert_eq!(bad.unwrap_err(), AgentOsError::Validation("invalid automation scheduled_for"));
    assert_eq!(state.automation_runs.len(), 2);
    assert_eq!(state.automation_schedules[0].next_run_at.as_deref(), Some("2026-01-01T01:00:00Z"));
}

#[test]
fn due_schedules_are_those_not_after_now() {
    let mut state = kernel();
    state.create_automation_schedule(schedule(None), s("auto_1"), s("t1")).unwrap();
    let mut later = schedule(None);
    later.next_run_at = Some(s("2026-06-01T00:00:00Z"));
    state.create_automation_schedule(later, s("auto_2"), s("t1")).unwrap();
    assert_eq!(state.due_automation_schedules("2026-02-01T00:00:00Z").unwrap(), vec![0usize]);
    assert_eq!(state.due_automation_schedules("2026-07-01T00:00:00Z").unwrap(), vec![0usize, 1]);
    assert_eq!(state.due_automation_schedules("2026-01-01T00:00:00Z").unwrap(), vec![0usize]);
    assert_eq!(state.due_automation_schedules("yesterday").unwrap_err(), AgentOsError::Validation("invalid scheduler clock"));
}

// ---- packages ----

fn manifest(name: &str) -> PackageManifestRecord {
    PackageManifestRecord {
        package_id: s("pkg_1"),
        manifest: PackageManifest { package_name: s(name), version: s("1.0.0") },
        root_path: s("/pkgs/demo"),
        manifest_path: s("/pkgs/demo/package.json"),
        source: source(),
        content_hash: s("sha_pkg"),
    }
}

#[test]
fn package_installs_once_and_toggles() {
    let mut state = kernel();
    let by = || PackageInstallProvenance { installed_by: s("user") };
    let installed = state.install_package_manifest(manifest("demo"), by(), s("pkg_install_1"), s("t1")).unwrap();
    assert_eq!(installed.status, PackageInstallStatus::Enabled);
    assert!(!installed.trust_policy.require_signature);
    assert_eq!(
        state.install_package_manifest(manifest("demo"), by(), s("pkg_install_2"), s("t2")).unwrap_err(),
        AgentOsError::Validation("package is already installed")
    );
    let mut blank = manifest("other");
    blank.manifest.version = s(" ");
    assert_eq!(
        state.install_package_manifest(blank, by(), s("pkg_install_3"), s("t2")).unwrap_err(),
        AgentOsError::Validation("package manifest record field version must not be empty")
    );
    assert_eq!(
        state
            .install_package_manifest(manifest("other"), PackageInstallProvenance { installed_by: s("") }, s("pkg_install_3"), s("t2"))
            .unwrap_err(),
        AgentOsError::Validation("package install provenance installed_by must not be empty")
    );
    assert_eq!(
        state.disable_package("demo", s("   "), s("t3")).unwrap_err(),
        AgentOsError::Validation("package disable reason must not be empty")
    );
    let disabled = state.disable_package("demo", s("broken"), s("t3")).unwrap();
    assert_eq!(disabled.status, PackageInstallStatus::Disabled);
    assert_eq!(disabled.disabled_reason.as_deref(), Some("broken"));
    let enabled = state.enable_package("demo", s("t4")).unwrap();
    assert_eq!(enabled.status, PackageInstallStatus::Enabled);
    assert_eq!(enabled.disabled_reason, None);
    assert_eq!(state.enable_package("ghost", s("t5")).unwrap_err(), AgentOsError::NotFound("package"));
}
