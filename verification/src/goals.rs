//! Goals: registering the top-level objectives tasks are spawned under.
use vstd::prelude::*;
use crate::text::copy_strings;
use crate::error::AgentOsError;
use crate::lifecycle::copy_opt_string;
use crate::state::{KernelState, GoalRecord, has_goal};
use crate::events::{KernelEvent, Logged, appended};

verus! {

/// A goal as its registrant describes it.
#[derive(Debug)]
pub struct RegisterGoalInput {
    pub namespace: String,
    pub created_by: String,
    pub title: String,
    pub description: String,
    pub acceptance_criteria: Vec<String>,
    pub constraints: Vec<String>,
    pub risk_level: u8,
    pub deadline: Option<String>,
}

/// Two goal records that agree field by field.
pub open spec fn same_goal(a: GoalRecord, b: GoalRecord) -> bool {
    &&& a.goal_id == b.goal_id
    &&& a.namespace == b.namespace
    &&& a.created_by == b.created_by
    &&& a.title == b.title
    &&& a.description == b.description
    &&& a.acceptance_criteria@ == b.acceptance_criteria@
    &&& a.constraints@ == b.constraints@
    &&& a.risk_level == b.risk_level
    &&& a.deadline == b.deadline
    &&& a.root_task_id == b.root_task_id
    &&& a.created_at == b.created_at
    &&& a.updated_at == b.updated_at
}

impl GoalRecord {
    /// A copy of this goal.
    pub fn duplicate(&self) -> (r: GoalRecord)
        ensures
            same_goal(r, *self),
    {
        GoalRecord {
            goal_id: self.goal_id.clone(),
            namespace: self.namespace.clone(),
            created_by: self.created_by.clone(),
            title: self.title.clone(),
            description: self.description.clone(),
            acceptance_criteria: copy_strings(&self.acceptance_criteria),
            constraints: copy_strings(&self.constraints),
            risk_level: self.risk_level,
            deadline: copy_opt_string(&self.deadline),
            root_task_id: copy_opt_string(&self.root_task_id),
            created_at: self.created_at.clone(),
            updated_at: self.updated_at.clone(),
        }
    }
}

impl KernelState {
    /// Registers goal `goal_id` at `now`. A goal must state its acceptance
    /// criteria before any work begins; it starts with no root task.
    pub fn register_goal(&mut self, input: RegisterGoalInput, goal_id: String, now: String) -> (r: Result<GoalRecord, AgentOsError>)
        requires
            old(self).wf(),
            !has_goal(old(self).goals@, goal_id@),
        ensures
            register_goal_post(*old(self), *final(self), input, goal_id, now, r),
    {
        if input.acceptance_criteria.len() == 0 {
            return Err(AgentOsError::Validation("goal must have acceptance criteria before execution begins"));
        }
        let goal = GoalRecord {
            goal_id,
            namespace: input.namespace,
            created_by: input.created_by,
            title: input.title,
            description: input.description,
            acceptance_criteria: input.acceptance_criteria,
            constraints: input.constraints,
            risk_level: input.risk_level,
            deadline: input.deadline,
            root_task_id: None,
            created_at: now.clone(),
            updated_at: now,
        };
        let copy = goal.duplicate();
        let logged = goal.log_copy();
        let ghost pre = *self;
        let ghost gx = goal;
        let ghost before = self.goals@;
        self.goals.push(goal);
        proof {
            let n = before.len();
            assert forall|i: int, j: int|
                0 <= i < self.goals@.len() && 0 <= j < self.goals@.len() && #[trigger] self.goals@[i].goal_id@
                    == #[trigger] self.goals@[j].goal_id@ implies i == j by {
                if i < n && j == n {
                    assert(before[i].goal_id@ == goal_id@);
                }
                if j < n && i == n {
                    assert(before[j].goal_id@ == goal_id@);
                }
            }
        }
        self.log_goal(KernelEvent::GoalRegistered(logged), Ghost(pre), Ghost(gx));
        Ok(copy)
    }
}

/// What `register_goal` ensures, as a relation between the state before and after the call, its arguments and its result.
pub open spec fn register_goal_post(pre: KernelState, post: KernelState, input: RegisterGoalInput, goal_id: String, now: String, r: Result<GoalRecord, AgentOsError>) -> bool {
    &&& (post.wf())
    &&& (input.acceptance_criteria@.len() == 0 ==> r == Err::<GoalRecord, AgentOsError>(
                AgentOsError::Validation("goal must have acceptance criteria before execution begins"),
            ) && post == pre)
    &&& (input.acceptance_criteria@.len() > 0 ==> (r matches Ok(g) && {
                &&& post.goals@ == pre.goals@.push(GoalRecord {
                    goal_id,
                    namespace: input.namespace,
                    created_by: input.created_by,
                    title: input.title,
                    description: input.description,
                    acceptance_criteria: input.acceptance_criteria,
                    constraints: input.constraints,
                    risk_level: input.risk_level,
                    deadline: input.deadline,
                    root_task_id: None,
                    created_at: now,
                    updated_at: now,
                })
                &&& same_goal(g, post.goals@.last())
                &&& appended(pre, post, post.events@.last())
                &&& post.events@.last() matches KernelEvent::GoalRegistered(c) && post.goals@.last().copies(&c)
                &&& post == (KernelState { goals: post.goals, events: post.events, ..pre })
            }))
}

} // verus!
