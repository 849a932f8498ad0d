//! Tasks: spawning, status updates and evidence-gated completion.
use vstd::prelude::*;
use crate::text::{copy_strings, copy_vec};
use crate::scope::texts;
use crate::error::AgentOsError;
use crate::lifecycle::{TaskStatus, copy_opt_string, is_closed_task_status};
use crate::state::{KernelState, TaskRecord, GoalRecord, ArtifactType, EvidenceType, EvidenceStatus,
    has_task, task_pos, task_ids_unique, has_goal, goal_pos, goal_ids_unique, has_artifact, artifact_pos, has_evidence, evidence_pos};

use crate::events::{KernelEvent, Logged, appended};
verus! {

/// Input of `spawn_task`.
#[derive(Debug)]
pub struct SpawnTaskInput {
    pub goal_id: String,
    pub parent_task_id: Option<String>,
    pub title: String,
    pub description: String,
    pub depends_on: Vec<String>,
    pub required_artifact_types: Vec<ArtifactType>,
    pub required_evidence_types: Vec<EvidenceType>,
    pub priority: i32,
    pub risk_level: u8,
}

/// Input of `update_task`; absent fields stay as they are.
#[derive(Debug)]
pub struct UpdateTaskInput {
    pub task_id: String,
    pub status: Option<TaskStatus>,
    pub blocked_reason: Option<String>,
    pub owner_agent_id: Option<String>,
    pub title: Option<String>,
    pub description: Option<String>,
}

/// Input of `complete_task`.
#[derive(Debug)]
pub struct CompleteTaskInput {
    pub task_id: String,
    pub artifact_ids: Vec<String>,
    pub evidence_ids: Vec<String>,
}

/// Two task records hold the same values.
pub open spec fn same_task(a: TaskRecord, b: TaskRecord) -> bool {
    &&& a.task_id == b.task_id
    &&& a.goal_id == b.goal_id
    &&& a.parent_task_id == b.parent_task_id
    &&& a.risk_level == b.risk_level
    &&& a.status == b.status
    &&& a.depends_on@ == b.depends_on@
    &&& a.priority == b.priority
    &&& a.owner_agent_id == b.owner_agent_id
    &&& a.blocked_reason == b.blocked_reason
    &&& a.title == b.title
    &&& a.description == b.description
    &&& a.required_artifact_types@ == b.required_artifact_types@
    &&& a.required_evidence_types@ == b.required_evidence_types@
    &&& a.updated_at == b.updated_at
}

impl TaskRecord {
    /// A duplicate of the task record.
    pub fn duplicate(&self) -> (r: TaskRecord)
        ensures
            same_task(r, *self),
    {
        TaskRecord {
            task_id: self.task_id.clone(),
            goal_id: self.goal_id.clone(),
            parent_task_id: copy_opt_string(&self.parent_task_id),
            risk_level: self.risk_level,
            status: self.status,
            depends_on: copy_strings(&self.depends_on),
            priority: self.priority,
            owner_agent_id: copy_opt_string(&self.owner_agent_id),
            blocked_reason: copy_opt_string(&self.blocked_reason),
            title: self.title.clone(),
            description: self.description.clone(),
            required_artifact_types: copy_vec(&self.required_artifact_types),
            required_evidence_types: copy_vec(&self.required_evidence_types),
            updated_at: self.updated_at.clone(),
        }
    }
}

/// Every dependency names an existing task.
pub open spec fn dependencies_exist(tasks: Seq<TaskRecord>, deps: Seq<Seq<char>>) -> bool {
    forall|i: int| 0 <= i < deps.len() ==> has_task(tasks, #[trigger] deps[i])
}

/// Every dependency names an existing, completed task.
pub open spec fn dependencies_completed(tasks: Seq<TaskRecord>, deps: Seq<Seq<char>>) -> bool {
    forall|i: int|
        0 <= i < deps.len() ==> has_task(tasks, #[trigger] deps[i]) && tasks[task_pos(tasks, deps[i])].status
            == TaskStatus::Completed
}

/// The error `validate_task_transition` gives for `task` moving to `next`, if any.
pub open spec fn task_transition_error(tasks: Seq<TaskRecord>, task: TaskRecord, next: TaskStatus) -> Option<AgentOsError> {
    if task.status == next {
        None
    } else if is_closed_task_status(task.status) {
        Some(AgentOsError::InvalidTransition("task is closed"))
    } else if next == TaskStatus::Ready && !dependencies_completed(tasks, texts(task.depends_on@)) {
        // the first offending dependency decides which error is reported
        Some(first_dependency_error(tasks, texts(task.depends_on@)))
    } else {
        None
    }
}

/// The error for the first dependency that is missing or not completed.
pub open spec fn first_dependency_error(tasks: Seq<TaskRecord>, deps: Seq<Seq<char>>) -> AgentOsError
    decreases deps.len(),
{
    if deps.len() == 0 {
        AgentOsError::Validation("no dependency error")
    } else if !has_task(tasks, deps[0]) {
        AgentOsError::NotFound("dependency task")
    } else if tasks[task_pos(tasks, deps[0])].status != TaskStatus::Completed {
        AgentOsError::InvalidTransition("task cannot become Ready until its dependencies are Completed")
    } else {
        first_dependency_error(tasks, deps.drop_first())
    }
}

/// One of `ids` names an artifact of type `t`.
pub open spec fn provides_artifact_type(state: KernelState, ids: Seq<Seq<char>>, t: ArtifactType) -> bool {
    exists|i: int|
        0 <= i < ids.len() && has_artifact(state.artifacts@, #[trigger] ids[i])
            && state.artifacts@[artifact_pos(state.artifacts@, ids[i])].artifact_type == t
}

/// One of `ids` names active evidence of type `t`.
pub open spec fn provides_evidence_type(state: KernelState, ids: Seq<Seq<char>>, t: EvidenceType) -> bool {
    exists|i: int|
        0 <= i < ids.len() && has_evidence(state.evidence@, #[trigger] ids[i])
            && state.evidence@[evidence_pos(state.evidence@, ids[i])].status == EvidenceStatus::Active
            && state.evidence@[evidence_pos(state.evidence@, ids[i])].evidence_type == t
}

/// The provided artifacts and evidence cover every type the task requires.
pub open spec fn completion_covered(state: KernelState, task: TaskRecord, artifact_ids: Seq<Seq<char>>, evidence_ids: Seq<Seq<char>>) -> bool {
    &&& forall|i: int|
        0 <= i < task.required_artifact_types@.len() ==> provides_artifact_type(
            state,
            artifact_ids,
            #[trigger] task.required_artifact_types@[i],
        )
    &&& forall|i: int|
        0 <= i < task.required_evidence_types@.len() ==> provides_evidence_type(
            state,
            evidence_ids,
            #[trigger] task.required_evidence_types@[i],
        )
}

impl KernelState {
    fn first_dependency_problem(&self, deps: &Vec<String>) -> (r: Option<AgentOsError>)
        requires
            task_ids_unique(self.tasks@),
        ensures
            r.is_none() <==> dependencies_completed(self.tasks@, texts(deps@)),
            r.is_some() ==> r.unwrap() == first_dependency_error(self.tasks@, texts(deps@)),
    {
        let mut i: usize = 0;
        assert(texts(deps@).subrange(0, deps@.len() as int) =~= texts(deps@));
        while i < deps.len()
            invariant
                i <= deps@.len(),
                task_ids_unique(self.tasks@),
                forall|j: int|
                    0 <= j < i ==> has_task(self.tasks@, #[trigger] texts(deps@)[j]) && self.tasks@[task_pos(
                        self.tasks@,
                        texts(deps@)[j],
                    )].status == TaskStatus::Completed,
                first_dependency_error(self.tasks@, texts(deps@)) == first_dependency_error(
                    self.tasks@,
                    texts(deps@).subrange(i as int, deps@.len() as int),
                ),
            decreases deps@.len() - i,
        {
            let ghost rest = texts(deps@).subrange(i as int, deps@.len() as int);
            assert(rest[0] == deps@[i as int]@);
            assert(texts(deps@)[i as int] == deps@[i as int]@);
            match self.find_task(deps[i].as_str()) {
                None => return Some(AgentOsError::NotFound("dependency task")),
                Some(k) => {
                    if self.tasks[k].status != TaskStatus::Completed {
                        return Some(
                            AgentOsError::InvalidTransition(
                                "task cannot become Ready until its dependencies are Completed",
                            ),
                        );
                    }
                },
            }
            assert(rest.drop_first() =~= texts(deps@).subrange(i + 1, deps@.len() as int));
            i = i + 1;
        }
        None
    }

    /// Whether `task` may move to status `next`: always when unchanged, never
    /// out of a closed status, and to `Ready` only once every dependency has
    /// completed.
    pub fn validate_task_transition(&self, task: &TaskRecord, next: TaskStatus) -> (r: Result<(), AgentOsError>)
        requires
            self.wf(),
        ensures
            r.is_ok() <==> task_transition_error(self.tasks@, *task, next).is_none(),
            r.is_err() ==> r == Err::<(), AgentOsError>(task_transition_error(self.tasks@, *task, next).unwrap()),
    {
        if task.status == next {
            return Ok(());
        }
        if matches!(task.status, TaskStatus::Completed | TaskStatus::Failed | TaskStatus::Cancelled) {
            return Err(AgentOsError::InvalidTransition("task is closed"));
        }
        if next == TaskStatus::Ready {
            match self.first_dependency_problem(&task.depends_on) {
                Some(e) => return Err(e),
                None => {},
            }
        }
        Ok(())
    }

    fn take_task(&mut self, k: usize) -> (r: TaskRecord)
        requires
            k < old(self).tasks@.len(),
        ensures
            r == old(self).tasks@[k as int],
            final(self).tasks@ == old(self).tasks@.remove(k as int),
            *final(self) == (KernelState { tasks: final(self).tasks, ..*old(self) }),
    {
        self.tasks.remove(k)
    }

    /// Puts back at `k` a task taken out of a well-formed state, keeping its
    /// id, and logs it as updated, or as completed when `completed`.
    fn put_task(&mut self, k: usize, task: TaskRecord, completed: bool, Ghost(before): Ghost<KernelState>)
        requires
            k < before.tasks@.len(),
            before.wf(),
            old(self).tasks@ == before.tasks@.remove(k as int),
            *old(self) == (KernelState { tasks: old(self).tasks, ..before }),
            task.task_id@ == before.tasks@[k as int].task_id@,
        ensures
            final(self).tasks@ == before.tasks@.update(k as int, task),
            appended(before, *final(self), final(self).events@.last()),
            completed ==> (final(self).events@.last() matches KernelEvent::TaskCompleted(x0) && task.copies(&x0)),
            !completed ==> (final(self).events@.last() matches KernelEvent::TaskUpdated(x0) && task.copies(&x0)),
            *final(self) == (KernelState { tasks: final(self).tasks, events: final(self).events, ..before }),
            final(self).wf(),
    {
        let logged = task.log_copy();
        let ghost gx = task;
        self.tasks.insert(k, task);
        assert(self.tasks@ =~= before.tasks@.update(k as int, task));
        assert forall|i: int, j: int|
            0 <= i < self.tasks@.len() && 0 <= j < self.tasks@.len() && #[trigger] self.tasks@[i].task_id@
                == #[trigger] self.tasks@[j].task_id@ implies i == j by {
            assert(self.tasks@[i].task_id@ == before.tasks@[i].task_id@);
            assert(self.tasks@[j].task_id@ == before.tasks@[j].task_id@);
        }
        let e = if completed { KernelEvent::TaskCompleted(logged) } else { KernelEvent::TaskUpdated(logged) };
        self.log_task(e, Ghost(before), Ghost(gx));
    }

    /// Changes the fields of task `input.task_id` that the input sets,
    /// stamping the update with `now`. A status change must pass
    /// `validate_task_transition`; an unknown task is `NotFound`.
    pub fn update_task(&mut self, input: UpdateTaskInput, now: String) -> (r: Result<TaskRecord, AgentOsError>)
        requires
            old(self).wf(),
        ensures
            update_task_post(*old(self), *final(self), input, now, r),
    {
        let k = match self.find_task(input.task_id.as_str()) {
            None => return Err(AgentOsError::NotFound("task")),
            Some(k) => k,
        };
        if let Some(next_status) = input.status {
            match self.validate_task_transition(&self.tasks[k], next_status) {
                Err(e) => return Err(e),
                Ok(()) => {},
            }
        }
        let ghost before = *self;
        let mut task = self.take_task(k);
        if let Some(next_status) = input.status {
            task.status = next_status;
        }
        if input.blocked_reason.is_some() {
            task.blocked_reason = input.blocked_reason;
        }
        if input.owner_agent_id.is_some() {
            task.owner_agent_id = input.owner_agent_id;
        }
        if let Some(title) = input.title {
            task.title = title;
        }
        if let Some(description) = input.description {
            task.description = description;
        }
        task.updated_at = now;
        let result = task.duplicate();
        self.put_task(k, task, false, Ghost(before));
        Ok(result)
    }

    fn artifact_types_provided(&self, ids: &Vec<String>, t: ArtifactType) -> (r: bool)
        requires
            self.wf(),
        ensures
            r == provides_artifact_type(*self, texts(ids@), t),
    {
        let mut i: usize = 0;
        while i < ids.len()
            invariant
                i <= ids@.len(),
                self.wf(),
                forall|j: int|
                    0 <= j < i ==> !(has_artifact(self.artifacts@, #[trigger] texts(ids@)[j])
                        && self.artifacts@[artifact_pos(self.artifacts@, texts(ids@)[j])].artifact_type == t),
            decreases ids@.len() - i,
        {
            assert(texts(ids@)[i as int] == ids@[i as int]@);
            match self.find_artifact(ids[i].as_str()) {
                Some(k) => {
                    if self.artifacts[k].artifact_type == t {
                        return true;
                    }
                },
                None => {},
            }
            i = i + 1;
        }
        false
    }

    fn evidence_types_provided(&self, ids: &Vec<String>, t: EvidenceType) -> (r: bool)
        requires
            self.wf(),
        ensures
            r == provides_evidence_type(*self, texts(ids@), t),
    {
        let mut i: usize = 0;
        while i < ids.len()
            invariant
                i <= ids@.len(),
                self.wf(),
                forall|j: int|
                    0 <= j < i ==> !(has_evidence(self.evidence@, #[trigger] texts(ids@)[j])
                        && self.evidence@[evidence_pos(self.evidence@, texts(ids@)[j])].status == EvidenceStatus::Active
                        && self.evidence@[evidence_pos(self.evidence@, texts(ids@)[j])].evidence_type == t),
            decreases ids@.len() - i,
        {
            assert(texts(ids@)[i as int] == ids@[i as int]@);
            match self.find_evidence(ids[i].as_str()) {
                Some(k) => {
                    if self.evidence[k].status == EvidenceStatus::Active && self.evidence[k].evidence_type == t {
                        return true;
                    }
                },
                None => {},
            }
            i = i + 1;
        }
        false
    }

    fn completion_problem(&self, task: &TaskRecord, input: &CompleteTaskInput) -> (r: Option<AgentOsError>)
        requires
            self.wf(),
        ensures
            r.is_none() <==> completion_covered(*self, *task, texts(input.artifact_ids@), texts(input.evidence_ids@)),
            r.is_some() ==> r.unwrap() is Validation,
    {
        let mut i: usize = 0;
        while i < task.required_artifact_types.len()
            invariant
                self.wf(),
                i <= task.required_artifact_types@.len(),
                forall|j: int|
                    0 <= j < i ==> provides_artifact_type(
                        *self,
                        texts(input.artifact_ids@),
                        #[trigger] task.required_artifact_types@[j],
                    ),
            decreases task.required_artifact_types@.len() - i,
        {
            if !self.artifact_types_provided(&input.artifact_ids, task.required_artifact_types[i]) {
                return Some(AgentOsError::Validation("task completion missing required artifact type"));
            }
            i = i + 1;
        }
        let mut e: usize = 0;
        while e < task.required_evidence_types.len()
            invariant
                self.wf(),
                e <= task.required_evidence_types@.len(),
                forall|j: int|
                    0 <= j < task.required_artifact_types@.len() ==> provides_artifact_type(
                        *self,
                        texts(input.artifact_ids@),
                        #[trigger] task.required_artifact_types@[j],
                    ),
                forall|j: int|
                    0 <= j < e ==> provides_evidence_type(
                        *self,
                        texts(input.evidence_ids@),
                        #[trigger] task.required_evidence_types@[j],
                    ),
            decreases task.required_evidence_types@.len() - e,
        {
            if !self.evidence_types_provided(&input.evidence_ids, task.required_evidence_types[e]) {
                return Some(AgentOsError::Validation("task completion missing required evidence type"));
            }
            e = e + 1;
        }
        None
    }

    /// Completes task `input.task_id` at time `now`. Refused with
    /// `Validation` unless the named artifacts cover every required artifact
    /// type and the named active evidence covers every required evidence type;
    /// an unknown task is `NotFound`.
    pub fn complete_task(&mut self, input: CompleteTaskInput, now: String) -> (r: Result<TaskRecord, AgentOsError>)
        requires
            old(self).wf(),
        ensures
            complete_task_post(*old(self), *final(self), input, now, r),
    {
        let k = match self.find_task(input.task_id.as_str()) {
            None => return Err(AgentOsError::NotFound("task")),
            Some(k) => k,
        };
        if let Some(e) = self.completion_problem(&self.tasks[k], &input) {
            return Err(e);
        }
        let ghost before = *self;
        let mut task = self.take_task(k);
        task.status = TaskStatus::Completed;
        task.updated_at = now;
        let result = task.duplicate();
        self.put_task(k, task, true, Ghost(before));
        Ok(result)
    }

    fn all_tasks_exist(&self, ids: &Vec<String>) -> (r: bool)
        requires
            self.wf(),
        ensures
            r == dependencies_exist(self.tasks@, texts(ids@)),
    {
        let mut i: usize = 0;
        while i < ids.len()
            invariant
                self.wf(),
                i <= ids@.len(),
                forall|j: int| 0 <= j < i ==> has_task(self.tasks@, #[trigger] texts(ids@)[j]),
            decreases ids@.len() - i,
        {
            assert(texts(ids@)[i as int] == ids@[i as int]@);
            if self.find_task(ids[i].as_str()).is_none() {
                return false;
            }
            i = i + 1;
        }
        true
    }

    /// Spawns task `task_id` (a fresh id) in goal `input.goal_id` at time
    /// `now`. Refused with `NotFound` when the goal, the parent task or a
    /// dependency does not exist. The first task of a goal becomes its root
    /// task.
    pub fn spawn_task(&mut self, input: SpawnTaskInput, task_id: String, now: String) -> (r: Result<TaskRecord, AgentOsError>)
        requires
            old(self).wf(),
            !has_task(old(self).tasks@, task_id@),
        ensures
            spawn_task_post(*old(self), *final(self), input, task_id, now, r),
    {
        let g = match self.find_goal(input.goal_id.as_str()) {
            None => return Err(AgentOsError::NotFound("goal")),
            Some(g) => g,
        };
        if let Some(parent) = &input.parent_task_id {
            if self.find_task(parent.as_str()).is_none() {
                return Err(AgentOsError::NotFound("parent task"));
            }
        }
        if !self.all_tasks_exist(&input.depends_on) {
            return Err(AgentOsError::NotFound("dependency task"));
        }
        let task = TaskRecord {
            task_id: task_id.clone(),
            goal_id: input.goal_id,
            parent_task_id: input.parent_task_id,
            risk_level: input.risk_level,
            status: TaskStatus::Created,
            depends_on: input.depends_on,
            priority: input.priority,
            owner_agent_id: None,
            blocked_reason: None,
            title: input.title,
            description: input.description,
            required_artifact_types: input.required_artifact_types,
            required_evidence_types: input.required_evidence_types,
            updated_at: now.clone(),
        };
        let result = task.duplicate();
        let ghost pre0 = *self;
        if self.goals[g].root_task_id.is_none() {
            let mut goal = self.goals.remove(g);
            goal.root_task_id = Some(task_id);
            goal.updated_at = now;
            let ghost gv = goal;
            let goal_logged = goal.log_copy();
            self.goals.insert(g, goal);
            assert(self.goals@ =~= old(self).goals@.update(g as int, gv));
            assert forall|a: int, b: int|
                0 <= a < self.goals@.len() && 0 <= b < self.goals@.len() && #[trigger] self.goals@[a].goal_id@
                    == #[trigger] self.goals@[b].goal_id@ implies a == b by {
                assert(self.goals@[a].goal_id@ == old(self).goals@[a].goal_id@);
                assert(self.goals@[b].goal_id@ == old(self).goals@[b].goal_id@);
            }
            assert(pre0.goals@[g as int].goal_id@ == gv.goal_id@);
            self.log_goal(KernelEvent::GoalUpdated(goal_logged), Ghost(pre0), Ghost(gv));
        }
        let ghost pre1 = *self;
        let logged = task.log_copy();
        let ghost tx = task;
        self.tasks.push(task);
        assert forall|a: int, b: int|
            0 <= a < self.tasks@.len() && 0 <= b < self.tasks@.len() && #[trigger] self.tasks@[a].task_id@
                == #[trigger] self.tasks@[b].task_id@ implies a == b by {
            if a < old(self).tasks@.len() && b < old(self).tasks@.len() {
            } else if a < old(self).tasks@.len() {
                assert(old(self).tasks@[a].task_id@ == task_id@);
            } else if b < old(self).tasks@.len() {
                assert(old(self).tasks@[b].task_id@ == task_id@);
            }
        }
        self.log_task(KernelEvent::TaskSpawned(logged), Ghost(pre1), Ghost(tx));
        proof {
            assert(self.events@.drop_last() =~= pre1.events@);
            if pre1.events@.len() > pre0.events@.len() {
                assert(pre1.events@.drop_last() =~= pre0.events@);
            }
        }
        Ok(result)
    }
}

/// What `spawn_task` ensures, as a relation between the state before and after the call, its arguments and its result.
pub open spec fn spawn_task_post(pre: KernelState, post: KernelState, input: SpawnTaskInput, task_id: String, now: String, r: Result<TaskRecord, AgentOsError>) -> bool {
    &&& (post.wf())
    &&& (r.is_err() ==> post == pre)
    &&& (!has_goal(pre.goals@, input.goal_id@) ==> r == Err::<TaskRecord, AgentOsError>(AgentOsError::NotFound("goal")))
    &&& (has_goal(pre.goals@, input.goal_id@) && input.parent_task_id.is_some() && !has_task(
                pre.tasks@,
                input.parent_task_id.unwrap()@,
            ) ==> r == Err::<TaskRecord, AgentOsError>(AgentOsError::NotFound("parent task")))
    &&& (r.is_ok() <==> has_goal(pre.goals@, input.goal_id@) && (input.parent_task_id.is_some() ==> has_task(
                pre.tasks@,
                input.parent_task_id.unwrap()@,
            )) && dependencies_exist(pre.tasks@, texts(input.depends_on@)))
    &&& (r.is_ok() ==> {
                let g = goal_pos(pre.goals@, input.goal_id@);
                let goal = pre.goals@[g];
                &&& same_task(r.unwrap(), post.tasks@[pre.tasks@.len() as int])
                &&& post.tasks@ == pre.tasks@.push(TaskRecord {
                    task_id: task_id,
                    goal_id: input.goal_id,
                    parent_task_id: input.parent_task_id,
                    risk_level: input.risk_level,
                    status: TaskStatus::Created,
                    depends_on: input.depends_on,
                    priority: input.priority,
                    owner_agent_id: None,
                    blocked_reason: None,
                    title: input.title,
                    description: input.description,
                    required_artifact_types: input.required_artifact_types,
                    required_evidence_types: input.required_evidence_types,
                    updated_at: now,
                })
                &&& post.goals@ == if goal.root_task_id.is_none() {
                    pre.goals@.update(g, GoalRecord { root_task_id: Some(task_id), updated_at: now, ..goal })
                } else {
                    pre.goals@
                }
                &&& post.events@.last() matches KernelEvent::TaskSpawned(x0) && post.tasks@.last().copies(&x0)
                &&& (goal.root_task_id.is_none() ==> {
                    &&& post.events@.len() == pre.events@.len() + 2
                    &&& post.events@.drop_last().drop_last() == pre.events@
                    &&& post.events@[pre.events@.len() as int] matches KernelEvent::GoalUpdated(x1) && post.goals@[g].copies(&x1)
                })
                &&& (goal.root_task_id.is_some() ==> appended(pre, post, post.events@.last()))
                &&& post == (KernelState { tasks: post.tasks, goals: post.goals, events: post.events, ..pre })
            })
}

/// What `update_task` ensures, as a relation between the state before and after the call, its arguments and its result.
pub open spec fn update_task_post(pre: KernelState, post: KernelState, input: UpdateTaskInput, now: String, r: Result<TaskRecord, AgentOsError>) -> bool {
    &&& (post.wf())
    &&& (r.is_err() ==> post == pre)
    &&& (!has_task(pre.tasks@, input.task_id@) ==> r == Err::<TaskRecord, AgentOsError>(AgentOsError::NotFound("task")))
    &&& (has_task(pre.tasks@, input.task_id@) ==> {
                let k = task_pos(pre.tasks@, input.task_id@);
                let t = pre.tasks@[k];
                let err = match input.status {
                    Some(s) => task_transition_error(pre.tasks@, t, s),
                    None => None,
                };
                if err.is_some() {
                    r == Err::<TaskRecord, AgentOsError>(err.unwrap())
                } else {
                    &&& r.is_ok()
                    &&& same_task(r.unwrap(), post.tasks@[k])
                    &&& post.tasks@ == pre.tasks@.update(k, TaskRecord {
                        status: match input.status { Some(s) => s, None => t.status },
                        blocked_reason: if input.blocked_reason.is_some() { input.blocked_reason } else { t.blocked_reason },
                        owner_agent_id: if input.owner_agent_id.is_some() { input.owner_agent_id } else { t.owner_agent_id },
                        title: match input.title { Some(x) => x, None => t.title },
                        description: match input.description { Some(x) => x, None => t.description },
                        updated_at: now,
                        ..t
                    })
                    &&& appended(pre, post, post.events@.last())
                    &&& post.events@.last() matches KernelEvent::TaskUpdated(x0) && post.tasks@[k].copies(&x0)
                    &&& post == (KernelState { tasks: post.tasks, events: post.events, ..pre })
                }
            })
}

/// What `complete_task` ensures, as a relation between the state before and after the call, its arguments and its result.
pub open spec fn complete_task_post(pre: KernelState, post: KernelState, input: CompleteTaskInput, now: String, r: Result<TaskRecord, AgentOsError>) -> bool {
    &&& (post.wf())
    &&& (r.is_err() ==> post == pre)
    &&& (!has_task(pre.tasks@, input.task_id@) ==> r == Err::<TaskRecord, AgentOsError>(AgentOsError::NotFound("task")))
    &&& (has_task(pre.tasks@, input.task_id@) ==> {
                let k = task_pos(pre.tasks@, input.task_id@);
                let t = pre.tasks@[k];
                if completion_covered(pre, t, texts(input.artifact_ids@), texts(input.evidence_ids@)) {
                    &&& r.is_ok()
                    &&& post.tasks@ == pre.tasks@.update(k, TaskRecord { status: TaskStatus::Completed, updated_at: now, ..t })
                    &&& same_task(r.unwrap(), post.tasks@[k])
                    &&& appended(pre, post, post.events@.last())
                    &&& post.events@.last() matches KernelEvent::TaskCompleted(x0) && post.tasks@[k].copies(&x0)
                    &&& post == (KernelState { tasks: post.tasks, events: post.events, ..pre })
                } else {
                    r.is_err() && (r.unwrap_err() is Validation)
                }
            })
}

} // verus!
