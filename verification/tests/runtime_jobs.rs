use agent_os_kernel::agents::{
    FilesystemMode, PermissionProfile, ProfileStatus, RoleProfile, SandboxProfile, SpawnAgentInput, SpawnIds,
};
use agent_os_kernel::error::AgentOsError;
use agent_os_kernel::goals::RegisterGoalInput;
use agent_os_kernel::lifecycle::{TaskStatus, ThreadStatus};
use agent_os_kernel::permissions::{PermissionSet, ToolDriverClass};
use agent_os_kernel::runtime_jobs::{
    thread_status_name, RuntimeJob, RuntimeJobRecord, RuntimeJobRegistry, RuntimeJobStatus, RuntimeRunReport,
};
use agent_os_kernel::state::{KernelState, TaskRecord};
use agent_os_kernel::tasks::SpawnTaskInput;

fn s(text: &str) -> String {
    text.to_string()
}

fn job(thread: &str, turn: &str) -> RuntimeJob {
    RuntimeJob { client_thread_id: s(thread), agent_thread_id: s(thread), turn_id: s(turn), task_id: s("task_1") }
}

fn registry() -> RuntimeJobRegistry {
    let mut jobs = RuntimeJobRegistry::new();
    jobs.enqueue_runtime_job(RuntimeJobRecord::queued(s("job_c"), job("thread_b", "turn_2")));
    jobs.enqueue_runtime_job(RuntimeJobRecord::queued(s("job_a"), job("thread_a", "turn_1")));
    jobs.enqueue_runtime_job(RuntimeJobRecord::queued(s("job_b"), job("thread_a", "turn_1")));
    jobs
}

fn report(status: ThreadStatus, final_submitted: bool) -> RuntimeRunReport {
    RuntimeRunReport { task_id: s("task_1"), status, final_submitted }
}

#[test]
fn jobs_are_kept_in_id_order_and_picked_first_queued() {
    let mut jobs = registry();
    let ids: Vec<&str> = jobs.records.iter().map(|r| r.runtime_job_id.as_str()).collect();
    assert_eq!(ids, vec!["job_a", "job_b", "job_c"]);
    let logged: Vec<(&str, &str)> = jobs.events.iter().map(|e| (e.event_type, e.runtime_job_id.as_str())).collect();
    assert_eq!(
        logged,
        vec![("RuntimeJobQueued", "job_c"), ("RuntimeJobQueued", "job_a"), ("RuntimeJobQueued", "job_b")]
    );
    assert_eq!(jobs.next_queued_runtime_job_id(), Some(s("job_a")));
    assert_eq!(jobs.next_queued_runtime_job_id_for_thread("thread_b"), Some(s("job_c")));
    assert_eq!(jobs.next_queued_runtime_job_id_for_thread("thread_z"), None);
    let started = jobs.mark_runtime_job_running("job_a").unwrap();
    assert_eq!(started.turn_id, "turn_1");
    assert_eq!(jobs.records[0].status, RuntimeJobStatus::Running);
    assert_eq!(jobs.next_queued_runtime_job_id(), Some(s("job_b")));
    assert_eq!(
        jobs.mark_runtime_job_running("job_a").unwrap_err(),
        AgentOsError::InvalidTransition("runtime job is not queued")
    );
    assert_eq!(jobs.mark_runtime_job_running("job_x").unwrap_err(), AgentOsError::NotFound("runtime job"));
    jobs.enqueue_runtime_job(RuntimeJobRecord::queued(s("job_a"), job("thread_a", "turn_3")));
    assert_eq!(jobs.records.len(), 3);
    assert_eq!(jobs.records[0].status, RuntimeJobStatus::Queued);
    assert_eq!(jobs.records[0].job.turn_id, "turn_3");
}

#[test]
fn spawning_needs_a_queued_job_without_worker() {
    let mut jobs = registry();
    assert_eq!(jobs.ensure_runtime_job_can_spawn("job_a", false), Ok(()));
    assert_eq!(
        jobs.ensure_runtime_job_can_spawn("job_a", true),
        Err(AgentOsError::InvalidTransition("runtime job already has a background worker"))
    );
    assert_eq!(jobs.ensure_runtime_job_can_spawn("job_x", false), Err(AgentOsError::NotFound("runtime job")));
    jobs.fail_runtime_job("job_a", s("runtime worker panicked")).unwrap();
    assert_eq!(jobs.records[0].status, RuntimeJobStatus::Failed);
    assert_eq!(jobs.records[0].last_error.as_deref(), Some("runtime worker panicked"));
    assert_eq!(
        jobs.ensure_runtime_job_can_spawn("job_a", false),
        Err(AgentOsError::InvalidTransition("runtime job cannot spawn a background worker"))
    );
}

fn kernel_with_task(blocked_reason: Option<&str>) -> KernelState {
    let mut state = KernelState::new();
    state.tasks.push(TaskRecord {
        task_id: s("task_1"),
        goal_id: s("goal_1"),
        parent_task_id: None,
        risk_level: 1,
        status: TaskStatus::Blocked,
        depends_on: Vec::new(),
        priority: 0,
        owner_agent_id: None,
        blocked_reason: blocked_reason.map(s),
        title: s("t"),
        description: s("d"),
        required_artifact_types: Vec::new(),
        required_evidence_types: Vec::new(),
        updated_at: s("t0"),
    });
    state
}

#[test]
fn finished_runs_set_job_status() {
    let state = kernel_with_task(None);
    let mut jobs = registry();
    jobs.finish_runtime_job(&state, "job_a", &report(ThreadStatus::Completed, true)).unwrap();
    assert_eq!(jobs.records[0].status, RuntimeJobStatus::Completed);
    jobs.finish_runtime_job(&state, "job_b", &report(ThreadStatus::WaitingTool, false)).unwrap();
    assert_eq!(jobs.records[1].status, RuntimeJobStatus::Queued);
    jobs.finish_runtime_job(&state, "job_b", &report(ThreadStatus::Blocked, false)).unwrap();
    assert_eq!(jobs.records[1].status, RuntimeJobStatus::Blocked);
    assert_eq!(jobs.records[1].last_error.as_deref(), Some("runtime blocked without final submission"));
    let last = jobs.events.last().unwrap();
    assert_eq!(last.event_type, "RuntimeJobBlocked");
    assert_eq!(last.runtime_job_id, "job_b");
    jobs.finish_runtime_job(&state, "job_c", &report(ThreadStatus::Completed, false)).unwrap();
    assert_eq!(jobs.records[2].status, RuntimeJobStatus::Failed);
    assert_eq!(jobs.records[2].last_error.as_deref(), Some("runtime finished with status Completed"));
    jobs.finish_runtime_job(&state, "job_c", &report(ThreadStatus::Interrupted, false)).unwrap();
    assert_eq!(jobs.records[2].status, RuntimeJobStatus::Interrupted);
    assert_eq!(
        jobs.finish_runtime_job(&state, "job_x", &report(ThreadStatus::Completed, true)),
        Err(AgentOsError::NotFound("runtime job"))
    );
    let blocked = kernel_with_task(Some("waiting on review"));
    jobs.finish_runtime_job(&blocked, "job_a", &report(ThreadStatus::Blocked, false)).unwrap();
    assert_eq!(jobs.records[0].last_error.as_deref(), Some("waiting on review"));
    assert_eq!(thread_status_name(ThreadStatus::WaitingTool), "WaitingTool");
}

#[test]
fn interrupting_a_turn_interrupts_only_its_jobs() {
    let mut jobs = registry();
    let logged_before = jobs.events.len();
    let interrupted = jobs.interrupt_runtime_jobs_for_turn("turn_1");
    assert_eq!(jobs.events.len(), logged_before + 2);
    assert!(jobs.events[logged_before..].iter().all(|e| e.event_type == "RuntimeJobInterrupted"));
    let ids: Vec<&str> = interrupted.iter().map(|r| r.runtime_job_id.as_str()).collect();
    assert_eq!(ids, vec!["job_a", "job_b"]);
    assert!(interrupted.iter().all(|r| r.status == RuntimeJobStatus::Interrupted));
    assert_eq!(jobs.records[2].status, RuntimeJobStatus::Queued);
    assert_eq!(
        jobs.mark_runtime_job_running("job_b").unwrap_err(),
        AgentOsError::InvalidTransition("runtime job is not queued")
    );
    let of_thread = jobs.runtime_jobs_for_thread("thread_a");
    assert_eq!(of_thread.len(), 2);
    assert_eq!(jobs.runtime_jobs_for_thread("thread_b")[0].runtime_job_id, "job_c");
}

fn resumable_kernel() -> KernelState {
    let mut state = KernelState::new();
    state
        .register_goal(
            RegisterGoalInput {
                namespace: s("test"),
                created_by: s("user"),
                title: s("Resume"),
                description: s("Resume fixture"),
                acceptance_criteria: vec![s("resumed")],
                constraints: Vec::new(),
                risk_level: 1,
                deadline: None,
            },
            s("goal_1"),
            s("t0"),
        )
        .unwrap();
    state
        .spawn_task(
            SpawnTaskInput {
                goal_id: s("goal_1"),
                parent_task_id: None,
                title: s("Work"),
                description: s("Work"),
                depends_on: Vec::new(),
                required_artifact_types: Vec::new(),
                required_evidence_types: Vec::new(),
                priority: 1,
                risk_level: 1,
            },
            s("task_1"),
            s("t0"),
        )
        .unwrap();
    state.role_profiles.push(RoleProfile {
        role_profile_id: s("role_worker"),
        status: ProfileStatus::Active,
        name: s("WorkerAgent"),
        default_permission_profile_id: s("perm_worker"),
        default_sandbox_profile_id: s("sbox_main"),
        default_provider_profile_id: None,
        default_scheduler_policy_id: None,
        allowed_child_role_profile_ids: Vec::new(),
    });
    state.permission_profiles.push(PermissionProfile {
        permission_profile_id: s("perm_worker"),
        status: ProfileStatus::Active,
        permission_set: PermissionSet {
            max_risk_level: 3,
            allowed_syscalls: vec![s("*")],
            resource_scopes: vec![s("*")],
            allowed_tool_names: vec![s("*")],
            allowed_tool_driver_classes: vec![ToolDriverClass::Filesystem],
            approval_required_above: 3,
            requires_evidence_for: Vec::new(),
        },
    });
    state.sandbox_profiles.push(SandboxProfile {
        sandbox_profile_id: s("sbox_main"),
        status: ProfileStatus::Active,
        filesystem_mode: FilesystemMode::WorkspaceWrite,
    });
    state
        .spawn_agent(
            SpawnAgentInput {
                task_id: s("task_1"),
                role_profile_id: s("role_worker"),
                owner: s("user"),
                local_goal: s("work"),
                success_criteria: Vec::new(),
                failure_criteria: Vec::new(),
                parent_thread_id: None,
                workspace_roots: Vec::new(),
            },
            SpawnIds {
                thread_id: s("thread_w"),
                agent_id: s("agt_w"),
                invocation_id: s("inv_w"),
                session_id: s("sess_w"),
                communication_profile_id: s("comm_w"),
            },
            s("t0"),
        )
        .unwrap();
    state
}

#[test]
fn resuming_recovers_a_thread_stopped_mid_turn() {
    let mut state = resumable_kernel();
    state.prepare_thread_for_resume("thread_w", s("t1")).unwrap();
    assert_eq!(state.threads[0].lifecycle.status, ThreadStatus::Created);
    state.transition_thread("thread_w", ThreadStatus::Running, None, s("t2")).unwrap();
    state.transition_thread("thread_w", ThreadStatus::WaitingTool, None, s("t3")).unwrap();
    state.prepare_thread_for_resume("thread_w", s("t4")).unwrap();
    assert_eq!(state.threads[0].lifecycle.status, ThreadStatus::Ready);
    assert_eq!(state.threads[0].lifecycle.status_reason.as_deref(), Some("resume requested after recovery"));
    assert!(state.ready_queue.contains(&s("thread_w")));
    state.transition_thread("thread_w", ThreadStatus::Suspended, None, s("t5")).unwrap();
    state.prepare_thread_for_resume("thread_w", s("t6")).unwrap();
    assert_eq!(state.threads[0].lifecycle.status_reason.as_deref(), Some("resume requested"));
    state.transition_thread("thread_w", ThreadStatus::Failed, Some(s("boom")), s("t7")).unwrap();
    assert_eq!(
        state.prepare_thread_for_resume("thread_w", s("t8")),
        Err(AgentOsError::InvalidTransition("thread cannot be resumed"))
    );
    assert_eq!(state.prepare_thread_for_resume("thread_x", s("t8")), Err(AgentOsError::NotFound("thread")));
}
