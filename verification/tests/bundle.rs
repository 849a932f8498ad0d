use agent_os_kernel::bundle::{projection_snapshot, BundleSelection};
use agent_os_kernel::error::AgentOsError;
use agent_os_kernel::events::KernelEvent;
use agent_os_kernel::lifecycle::TaskStatus;
use agent_os_kernel::state::{GoalRecord, KernelState, TaskRecord};

fn s(text: &str) -> String {
    text.to_string()
}

fn goal() -> GoalRecord {
    GoalRecord {
        goal_id: s("goal_1"),
        namespace: s("default"),
        created_by: s("user"),
        title: s("Ship it"),
        description: s("Ship the feature"),
        acceptance_criteria: vec![s("tests pass")],
        constraints: Vec::new(),
        risk_level: 2,
        deadline: None,
        root_task_id: None,
        created_at: s("t0"),
        updated_at: s("t0"),
    }
}

fn task(id: &str) -> TaskRecord {
    TaskRecord {
        task_id: s(id),
        goal_id: s("goal_1"),
        parent_task_id: None,
        risk_level: 1,
        status: TaskStatus::Ready,
        depends_on: Vec::new(),
        priority: 0,
        owner_agent_id: None,
        blocked_reason: None,
        title: s(id),
        description: s(id),
        required_artifact_types: Vec::new(),
        required_evidence_types: Vec::new(),
        updated_at: s("t0"),
    }
}

fn selection(task_ids: &[&str]) -> BundleSelection {
    BundleSelection {
        goal_id: s("goal_1"),
        task_ids: task_ids.iter().map(|t| s(t)).collect(),
        thread_ids: Vec::new(),
        context_ids: Vec::new(),
        tool_call_ids: Vec::new(),
        memento_ids: Vec::new(),
        artifact_ids: Vec::new(),
        evidence_ids: Vec::new(),
        review_ids: Vec::new(),
        approval_ids: Vec::new(),
        memory_ids: Vec::new(),
    }
}

fn state() -> KernelState {
    KernelState::from_events(vec![
        KernelEvent::GoalRegistered(goal()),
        KernelEvent::TaskSpawned(task("task_3")),
        KernelEvent::TaskSpawned(task("task_1")),
        KernelEvent::TaskSpawned(task("task_2")),
    ])
}

#[test]
fn projection_holds_the_selected_tasks_in_id_order() {
    let state = state();
    let p = projection_snapshot(&state, &selection(&["task_3", "task_1"]), goal()).unwrap();
    let ids: Vec<&str> = p.tasks.iter().map(|t| t.task_id.as_str()).collect();
    assert_eq!(ids, vec!["task_1", "task_3"]);
    assert_eq!(p.goal.goal_id, "goal_1");
    assert!(p.threads.is_empty() && p.final_submissions.is_empty());
}

#[test]
fn projection_refuses_a_selection_naming_a_missing_task() {
    let state = state();
    assert_eq!(
        projection_snapshot(&state, &selection(&["task_1", "task_9"]), goal()).unwrap_err(),
        AgentOsError::Validation("task bundle projection lost selected tasks")
    );
}
