use agent_os_kernel::artifacts::FinalSubmission;
use agent_os_kernel::events::KernelEvent;
use agent_os_kernel::goals::RegisterGoalInput;
use agent_os_kernel::tasks::SpawnTaskInput;
use agent_os_kernel::lifecycle::TaskStatus;
use agent_os_kernel::state::{GoalRecord, KernelState, TaskRecord};

fn s(text: &str) -> String {
    text.to_string()
}

fn goal(id: &str) -> GoalRecord {
    GoalRecord {
        goal_id: s(id),
        namespace: s("default"),
        created_by: s("user"),
        title: s("Ship it"),
        description: s("Ship the feature"),
        acceptance_criteria: vec![s("tests pass")],
        constraints: Vec::new(),
        risk_level: 2,
        deadline: None,
        root_task_id: None,
        created_at: s("t0"),
        updated_at: s("t0"),
    }
}

fn task(id: &str, goal_id: &str, status: TaskStatus) -> TaskRecord {
    TaskRecord {
        task_id: s(id),
        goal_id: s(goal_id),
        parent_task_id: None,
        risk_level: 1,
        status,
        depends_on: Vec::new(),
        priority: 0,
        owner_agent_id: None,
        blocked_reason: None,
        title: s(id),
        description: s(id),
        required_artifact_types: Vec::new(),
        required_evidence_types: Vec::new(),
        updated_at: s("t0"),
    }
}

fn submission(summary: &str) -> FinalSubmission {
    FinalSubmission {
        summary: s(summary),
        changed_artifacts: Vec::new(),
        evidence_map: Vec::new(),
        unverified_claims: Vec::new(),
        known_risks: Vec::new(),
        tests_run: Vec::new(),
        tests_not_run: Vec::new(),
        approvals: Vec::new(),
    }
}

#[test]
fn replay_keeps_the_last_record_under_each_id() {
    let events = vec![
        KernelEvent::GoalRegistered(goal("goal_1")),
        KernelEvent::TaskSpawned(task("task_1", "goal_1", TaskStatus::Ready)),
        KernelEvent::TaskSpawned(task("task_2", "goal_1", TaskStatus::Ready)),
        KernelEvent::TaskUpdated(task("task_1", "goal_1", TaskStatus::Blocked)),
        KernelEvent::TaskCompleted(task("task_1", "goal_1", TaskStatus::Completed)),
    ];
    let state = KernelState::from_events(events);
    assert_eq!(state.goals.len(), 1);
    assert_eq!(state.tasks.len(), 2);
    assert_eq!(state.tasks[0].task_id, "task_1");
    assert_eq!(state.tasks[0].status, TaskStatus::Completed);
    assert_eq!(state.tasks[1].status, TaskStatus::Ready);
    assert!(state.threads.is_empty());
}

#[test]
fn goal_update_event_sets_the_root_task() {
    let mut rooted = goal("goal_1");
    rooted.root_task_id = Some(s("task_1"));
    rooted.updated_at = s("t5");
    let events = vec![
        KernelEvent::GoalRegistered(goal("goal_1")),
        KernelEvent::GoalUpdated(rooted),
        KernelEvent::TaskSpawned(task("task_1", "goal_1", TaskStatus::Ready)),
        KernelEvent::TaskSpawned(task("task_3", "goal_missing", TaskStatus::Ready)),
    ];
    let state = KernelState::from_events(events);
    assert_eq!(state.goals.len(), 1);
    assert_eq!(state.goals[0].root_task_id.as_deref(), Some("task_1"));
    assert_eq!(state.goals[0].updated_at, "t5");
    assert_eq!(state.tasks.len(), 2);
    assert_eq!(state.events.len(), 4);
    assert_eq!(state.events[1].event_type(), "GoalUpdated");
}

#[test]
fn re_registered_goal_replaces_the_earlier_record() {
    let mut second = goal("goal_1");
    second.title = s("Ship it twice");
    let mut state = KernelState::new();
    state.apply_event(KernelEvent::GoalRegistered(goal("goal_1")));
    state.apply_event(KernelEvent::GoalRegistered(second));
    assert_eq!(state.goals.len(), 1);
    assert_eq!(state.goals[0].title, "Ship it twice");
}

#[test]
fn final_submission_is_kept_under_its_task() {
    let events = vec![
        KernelEvent::FinalSubmitted { task_id: s("task_1"), submission: submission("first") },
        KernelEvent::FinalSubmitted { task_id: s("task_2"), submission: submission("other") },
        KernelEvent::FinalSubmitted { task_id: s("task_1"), submission: submission("second") },
    ];
    let state = KernelState::from_events(events);
    assert_eq!(state.final_submissions.len(), 2);
    assert_eq!(state.final_submissions[0].0, "task_1");
    assert_eq!(state.final_submissions[0].1.summary, "second");
    assert_eq!(state.final_submissions[1].1.summary, "other");
}

#[test]
fn events_name_their_type() {
    assert_eq!(KernelEvent::GoalRegistered(goal("g")).event_type(), "GoalRegistered");
    assert_eq!(
        KernelEvent::FinalSubmitted { task_id: s("t"), submission: submission("x") }.event_type(),
        "FinalSubmitted"
    );
    assert_eq!(KernelEvent::TaskCompleted(task("t", "g", TaskStatus::Completed)).event_type(), "TaskCompleted");
}

#[test]
fn an_empty_log_gives_an_empty_state() {
    let state = KernelState::from_events(Vec::new());
    assert!(state.goals.is_empty() && state.tasks.is_empty() && state.final_submissions.is_empty());
}

#[test]
fn operations_log_their_events_and_replay_rebuilds_the_state() {
    let mut state = KernelState::new();
    state
        .register_goal(
            RegisterGoalInput {
                namespace: s("default"),
                created_by: s("user"),
                title: s("Ship it"),
                description: s("Ship the feature"),
                acceptance_criteria: vec![s("tests pass")],
                constraints: Vec::new(),
                risk_level: 2,
                deadline: None,
            },
            s("goal_1"),
            s("t0"),
        )
        .unwrap();
    state
        .spawn_task(
            SpawnTaskInput {
                goal_id: s("goal_1"),
                parent_task_id: None,
                risk_level: 1,
                depends_on: Vec::new(),
                priority: 0,
                title: s("Write code"),
                description: s("Write the code"),
                required_artifact_types: Vec::new(),
                required_evidence_types: Vec::new(),
            },
            s("task_1"),
            s("t1"),
        )
        .unwrap();
    state.submit_final("agt_1", "task_1", submission("done")).unwrap_err();
    let logged: Vec<&str> = state.events.iter().map(|e| e.event_type()).collect();
    assert_eq!(logged, vec!["GoalRegistered", "GoalUpdated", "TaskSpawned"]);
    let mut copy = Vec::new();
    for e in &state.events {
        copy.push(e.log_copy());
    }
    let replayed = KernelState::from_events(copy);
    assert_eq!(replayed.goals.len(), 1);
    assert_eq!(replayed.goals[0].root_task_id.as_deref(), Some("task_1"));
    assert_eq!(replayed.goals[0].updated_at, state.goals[0].updated_at);
    assert_eq!(replayed.tasks.len(), 1);
    assert_eq!(replayed.tasks[0].title, "Write code");
}
