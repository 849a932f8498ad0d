use agent_os_kernel::agents::{
    FilesystemMode, PermissionProfile, ProfileStatus, RoleProfile, SandboxProfile, SpawnAgentInput, SpawnIds,
};
use agent_os_kernel::artifacts::{
    AttachEvidenceInput, CommitArtifactInput, EvidenceMapEntry, FinalSubmission, StoredBlob,
};
use agent_os_kernel::error::AgentOsError;
use agent_os_kernel::goals::RegisterGoalInput;
use agent_os_kernel::json::{JsonNumber, JsonValue};
use agent_os_kernel::permissions::{PermissionSet, ToolDriverClass};
use agent_os_kernel::state::{BackendType, ReusePolicy, 
    ArtifactStatus, ArtifactType, AttachMode, EnvironmentStatus, EvidenceStatus, EvidenceType,
    ExecutionEnvironment, KernelState,
};
use agent_os_kernel::tasks::SpawnTaskInput;
use agent_os_kernel::review::{RequestReviewInput, ReviewVerdict, SubmitReviewInput};

fn s(text: &str) -> String {
    text.to_string()
}

fn fixture(sandbox_mode: FilesystemMode) -> KernelState {
    let mut state = KernelState::new();
    state
        .register_goal(
            RegisterGoalInput {
                namespace: s("test"),
                created_by: s("user"),
                title: s("Patch"),
                description: s("Patch fixture"),
                acceptance_criteria: vec![s("patched")],
                constraints: Vec::new(),
                risk_level: 2,
                deadline: None,
            },
            s("goal_1"),
            s("t0"),
        )
        .unwrap();
    state
        .spawn_task(
            SpawnTaskInput {
                goal_id: s("goal_1"),
                parent_task_id: None,
                title: s("Edit"),
                description: s("Edit files"),
                depends_on: Vec::new(),
                required_artifact_types: Vec::new(),
                required_evidence_types: Vec::new(),
                priority: 10,
                risk_level: 2,
            },
            s("task_1"),
            s("t0"),
        )
        .unwrap();
    state.role_profiles.push(RoleProfile {
        role_profile_id: s("role_worker"),
        status: ProfileStatus::Active,
        name: s("WorkerAgent"),
        default_permission_profile_id: s("perm_worker"),
        default_sandbox_profile_id: s("sbox_main"),
        default_provider_profile_id: None,
        default_scheduler_policy_id: None,
        allowed_child_role_profile_ids: Vec::new(),
    });
    state.permission_profiles.push(PermissionProfile {
        permission_profile_id: s("perm_worker"),
        status: ProfileStatus::Active,
        permission_set: PermissionSet {
            max_risk_level: 3,
            allowed_syscalls: vec![s("*")],
            resource_scopes: vec![s("*")],
            allowed_tool_names: vec![s("*")],
            allowed_tool_driver_classes: vec![ToolDriverClass::Filesystem],
            approval_required_above: 3,
            requires_evidence_for: Vec::new(),
        },
    });
    state.sandbox_profiles.push(SandboxProfile {
        sandbox_profile_id: s("sbox_main"),
        status: ProfileStatus::Active,
        filesystem_mode: sandbox_mode,
    });
    state.sandbox_profiles.push(SandboxProfile {
        sandbox_profile_id: s("sbox_env"),
        status: ProfileStatus::Active,
        filesystem_mode: FilesystemMode::WorkspaceWrite,
    });
    state.environments.push(ExecutionEnvironment {
        environment_id: s("env_1"),
        status: EnvironmentStatus::Ready,
        sandbox_profile_id: s("sbox_env"),
        backend_type: BackendType::LocalProcess,
        template_name: s("default"),
        reuse_policy: ReusePolicy::Reusable,
        created_at: s("2026-01-01T00:00:00Z"),
        updated_at: s("2026-01-01T00:00:00Z"),
    });
    state
        .spawn_agent(
            SpawnAgentInput {
                task_id: s("task_1"),
                role_profile_id: s("role_worker"),
                owner: s("user"),
                local_goal: s("edit"),
                success_criteria: Vec::new(),
                failure_criteria: Vec::new(),
                parent_thread_id: None,
                workspace_roots: Vec::new(),
            },
            SpawnIds {
                thread_id: s("thread_w"),
                agent_id: s("agt_w"),
                invocation_id: s("inv_w"),
                session_id: s("sess_w"),
                communication_profile_id: s("comm_w"),
            },
            s("t0"),
        )
        .unwrap();
    state
}

fn evidence(kind: EvidenceType) -> AttachEvidenceInput {
    AttachEvidenceInput {
        goal_id: s("goal_1"),
        task_id: Some(s("task_1")),
        artifact_id: None,
        evidence_type: kind,
        producer_agent_id: Some(s("agt_w")),
        claim: Some(s("changed a file")),
        blob_ref: Some(s("blob_given")),
        content_hash: Some(s("hash_given")),
        stored_blob: None,
        metadata: JsonValue::Object(Vec::new()),
    }
}

fn patch(evidence_ids: Vec<String>) -> CommitArtifactInput {
    CommitArtifactInput {
        goal_id: s("goal_1"),
        task_id: s("task_1"),
        owner_agent_id: s("agt_w"),
        artifact_type: ArtifactType::Patch,
        blob_ref: None,
        content_hash: None,
        stored_blob: None,
        metadata: JsonValue::Null,
        evidence_ids,
        supersedes: None,
    }
}

#[test]
fn evidence_keeps_given_blob_or_stored_one() {
    let mut state = fixture(FilesystemMode::WorkspaceWrite);
    let plain = state.attach_evidence(evidence(EvidenceType::CommandLog), s("evd_1"), s("t1")).unwrap();
    assert_eq!(plain.blob_ref.as_deref(), Some("blob_given"));
    assert_eq!(plain.status, EvidenceStatus::Active);
    let mut stored = evidence(EvidenceType::CommandLog);
    stored.stored_blob = Some(StoredBlob { blob_ref: s("blob_1"), content_hash: s("sha_1"), byte_len: 42 });
    let noted = state.attach_evidence(stored, s("evd_2"), s("t2")).unwrap();
    assert_eq!(noted.blob_ref.as_deref(), Some("blob_1"));
    assert_eq!(noted.content_hash.as_deref(), Some("sha_1"));
    match &noted.metadata {
        JsonValue::Object(members) => {
            assert_eq!(members.len(), 1);
            assert_eq!(members[0].0, "blob_byte_len");
            assert!(matches!(members[0].1, JsonValue::Number(JsonNumber { mantissa: 42, scale: 0 })));
        }
        _ => panic!("metadata is not an object"),
    }
    let mut unknown = evidence(EvidenceType::CommandLog);
    unknown.task_id = Some(s("task_x"));
    assert_eq!(state.attach_evidence(unknown, s("evd_3"), s("t3")).unwrap_err(), AgentOsError::NotFound("task"));
}

#[test]
fn patch_requires_diff_evidence() {
    let mut state = fixture(FilesystemMode::WorkspaceWrite);
    state.attach_evidence(evidence(EvidenceType::CommandLog), s("evd_log"), s("t1")).unwrap();
    let result = state.commit_artifact(patch(vec![s("evd_log")]), s("art_1"), s("t2"), 0);
    assert_eq!(result.unwrap_err(), AgentOsError::Validation("patch artifact requires diff evidence"));
}

#[test]
fn patch_requires_writable_environment_lease() {
    let mut state = fixture(FilesystemMode::WorkspaceWrite);
    state.attach_evidence(evidence(EvidenceType::DiffRef), s("evd_diff"), s("t1")).unwrap();
    let without_lease = state.commit_artifact(patch(vec![s("evd_diff")]), s("art_1"), s("t2"), 0);
    assert_eq!(
        without_lease.unwrap_err(),
        AgentOsError::PermissionDenied("workspace mutation requires an active writable environment lease")
    );
    state
        .attach_environment("env_1", s("agt_w"), s("thread_w"), s("task_1"), AttachMode::WorkspaceWrite, s("envl_1"), s("t3"))
        .unwrap();
    let artifact = state.commit_artifact(patch(vec![s("evd_diff")]), s("art_2"), s("t4"), 0).unwrap();
    assert_eq!(artifact.version, 1);
    assert_eq!(artifact.status, ArtifactStatus::Submitted);
    assert_eq!(artifact.created_at, "t4");
    match &artifact.metadata {
        JsonValue::Object(members) => {
            assert_eq!(members[0].0, "metadata");
            assert_eq!(members[1].0, "evidence_ids");
        }
        _ => panic!("metadata is not an object"),
    }
}

#[test]
fn read_only_sandbox_cannot_commit_patch() {
    let mut state = fixture(FilesystemMode::ReadOnly);
    state.attach_evidence(evidence(EvidenceType::DiffRef), s("evd_diff"), s("t1")).unwrap();
    let result = state.commit_artifact(patch(vec![s("evd_diff")]), s("art_1"), s("t2"), 0);
    assert_eq!(
        result.unwrap_err(),
        AgentOsError::PermissionDenied("artifact owner sandbox does not allow workspace mutation")
    );
}

#[test]
fn reports_commit_without_workspace_checks() {
    let mut state = fixture(FilesystemMode::ReadOnly);
    let mut report = patch(Vec::new());
    report.artifact_type = ArtifactType::Report;
    let artifact = state.commit_artifact(report, s("art_r"), s("t1"), 0).unwrap();
    assert_eq!(artifact.artifact_type, ArtifactType::Report);
    assert_eq!(state.artifacts.len(), 1);
}

#[test]
fn final_answer_needs_active_evidence_for_every_claim() {
    let mut state = fixture(FilesystemMode::WorkspaceWrite);
    state.attach_evidence(evidence(EvidenceType::CommandLog), s("evd_1"), s("t1")).unwrap();
    let submission = |refs: Vec<String>| FinalSubmission {
        summary: s("done"),
        changed_artifacts: Vec::new(),
        evidence_map: vec![EvidenceMapEntry { claim: s("it works"), evidence_refs: refs }],
        unverified_claims: Vec::new(),
        known_risks: Vec::new(),
        tests_run: Vec::new(),
        tests_not_run: Vec::new(),
        approvals: Vec::new(),
    };
    let mut empty = submission(Vec::new());
    empty.evidence_map.clear();
    assert_eq!(
        state.submit_final("agt_w", "task_1", empty).unwrap_err(),
        AgentOsError::Validation("final answer without evidence map is rejected")
    );
    assert_eq!(
        state.submit_final("agt_w", "task_1", submission(Vec::new())).unwrap_err(),
        AgentOsError::Validation("claim lacks evidence refs")
    );
    assert_eq!(
        state.submit_final("agt_w", "task_1", submission(vec![s("evd_x")])).unwrap_err(),
        AgentOsError::NotFound("evidence")
    );
    state.submit_final("agt_w", "task_1", submission(vec![s("evd_1")])).unwrap();
    state.submit_final("agt_w", "task_1", submission(vec![s("evd_1")])).unwrap();
    assert_eq!(state.final_submissions.len(), 1);
    assert_eq!(state.final_submissions[0].0, "task_1");
    let finals: Vec<&str> =
        state.events.iter().map(|e| e.event_type()).filter(|t| *t == "FinalSubmitted").collect();
    assert_eq!(finals.len(), 2);
    assert_eq!(state.events.last().map(|e| e.event_type()), Some("FinalSubmitted"));
}

#[test]
fn reviews_are_logged_and_replayed() {
    let mut state = fixture(FilesystemMode::ReadOnly);
    let mut report = patch(Vec::new());
    report.artifact_type = ArtifactType::Report;
    state.commit_artifact(report, s("art_r"), s("t1"), 0).unwrap();
    let request = RequestReviewInput { artifact_id: s("art_r"), reviewer_agent_id: s("agt_r"), focus: vec![s("tests")] };
    state.request_review(request, s("rev_1"), s("t2")).unwrap();
    let submit = SubmitReviewInput {
        review_id: s("rev_1"),
        reviewer_agent_id: s("agt_r"),
        verdict: ReviewVerdict::Approve,
        evidence_ids: Vec::new(),
        findings: Vec::new(),
    };
    state.submit_review(submit, Vec::new(), s("t3")).unwrap();
    let n = state.events.len();
    let logged: Vec<&str> = state.events[n - 2..].iter().map(|e| e.event_type()).collect();
    assert_eq!(logged, vec!["ReviewRequested", "ReviewSubmitted"]);
    let mut copy = Vec::new();
    for e in &state.events {
        copy.push(e.log_copy());
    }
    let replayed = KernelState::from_events(copy);
    assert_eq!(replayed.reviews.len(), 1);
    assert_eq!(replayed.reviews[0].review_id, "rev_1");
    assert_eq!(replayed.reviews[0].verdict, ReviewVerdict::Approve);
    assert_eq!(replayed.reviews[0].submitted_at.as_deref(), Some("t3"));
    assert_eq!(replayed.artifacts.len(), 1);
}
