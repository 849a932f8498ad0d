//! Agent-thread, turn and task lifecycles.
use vstd::prelude::*;
use crate::error::AgentOsError;

verus! {

/// Status of an Agent Thread.
#[derive(Debug, Clone, Copy, PartialEq, Eq, Structural)]
pub enum ThreadStatus {
    Created,
    Ready,
    Running,
    WaitingTool,
    WaitingPermission,
    WaitingUser,
    Blocked,
    Suspended,
    ResidentIdle,
    Unloaded,
    Completing,
    Completed,
    Failed,
    Interrupted,
    Quarantined,
    Terminated,
}

/// Status of the active turn of a thread.
#[derive(Debug, Clone, Copy, PartialEq, Eq, Structural)]
pub enum TurnStatus {
    InProgress,
    AwaitingTool,
    AwaitingPermission,
    AwaitingUser,
    Blocked,
    Completed,
    Failed,
    Interrupted,
}

/// Status of a task.
#[derive(Debug, Clone, Copy, PartialEq, Eq, Structural)]
pub enum TaskStatus {
    Created,
    Ready,
    Blocked,
    Completed,
    Failed,
    Cancelled,
}

/// The thread lifecycle graph: which status may follow which.
pub open spec fn thread_transition_allowed(current: ThreadStatus, next: ThreadStatus) -> bool {
    if current == next {
        true
    } else {
        match current {
            ThreadStatus::Created => matches!(
                next,
                ThreadStatus::Ready | ThreadStatus::Running | ThreadStatus::Failed
                    | ThreadStatus::Terminated
            ),
            ThreadStatus::Ready => matches!(
                next,
                ThreadStatus::Running | ThreadStatus::Blocked | ThreadStatus::Suspended
                    | ThreadStatus::Unloaded | ThreadStatus::Failed | ThreadStatus::Terminated
            ),
            ThreadStatus::Running => matches!(
                next,
                ThreadStatus::Ready | ThreadStatus::WaitingTool | ThreadStatus::WaitingPermission
                    | ThreadStatus::WaitingUser | ThreadStatus::Blocked | ThreadStatus::Completing
                    | ThreadStatus::Completed | ThreadStatus::Failed | ThreadStatus::Interrupted
                    | ThreadStatus::Suspended
            ),
            ThreadStatus::WaitingTool | ThreadStatus::WaitingPermission
            | ThreadStatus::WaitingUser => matches!(
                next,
                ThreadStatus::Ready | ThreadStatus::Running | ThreadStatus::Blocked
                    | ThreadStatus::Failed | ThreadStatus::Interrupted | ThreadStatus::Suspended
            ),
            ThreadStatus::Blocked | ThreadStatus::Suspended | ThreadStatus::ResidentIdle
            | ThreadStatus::Unloaded => matches!(
                next,
                ThreadStatus::Ready | ThreadStatus::Running | ThreadStatus::Failed
                    | ThreadStatus::Terminated | ThreadStatus::Interrupted
            ),
            ThreadStatus::Completing => matches!(next, ThreadStatus::Completed | ThreadStatus::Failed),
            ThreadStatus::Interrupted => matches!(
                next,
                ThreadStatus::Ready | ThreadStatus::Running | ThreadStatus::Failed
                    | ThreadStatus::Terminated
            ),
            ThreadStatus::Quarantined => matches!(next, ThreadStatus::Terminated | ThreadStatus::Failed),
            ThreadStatus::Completed | ThreadStatus::Failed | ThreadStatus::Terminated => false,
        }
    }
}

/// A thread that has completed, failed or been terminated.
pub open spec fn is_terminal_thread_status(status: ThreadStatus) -> bool {
    matches!(status, ThreadStatus::Completed | ThreadStatus::Failed | ThreadStatus::Terminated)
}

/// Whether a thread may move from `current` to `next`.
pub fn valid_thread_transition(current: ThreadStatus, next: ThreadStatus) -> (r: bool)
    ensures
        r == thread_transition_allowed(current, next),
{
    if current == next {
        return true;
    }
    match current {
        ThreadStatus::Created => matches!(
            next,
            ThreadStatus::Ready | ThreadStatus::Running | ThreadStatus::Failed
                | ThreadStatus::Terminated
        ),
        ThreadStatus::Ready => matches!(
            next,
            ThreadStatus::Running | ThreadStatus::Blocked | ThreadStatus::Suspended
                | ThreadStatus::Unloaded | ThreadStatus::Failed | ThreadStatus::Terminated
        ),
        ThreadStatus::Running => matches!(
            next,
            ThreadStatus::Ready | ThreadStatus::WaitingTool | ThreadStatus::WaitingPermission
                | ThreadStatus::WaitingUser | ThreadStatus::Blocked | ThreadStatus::Completing
                | ThreadStatus::Completed | ThreadStatus::Failed | ThreadStatus::Interrupted
                | ThreadStatus::Suspended
        ),
        ThreadStatus::WaitingTool | ThreadStatus::WaitingPermission | ThreadStatus::WaitingUser => {
            matches!(
                next,
                ThreadStatus::Ready | ThreadStatus::Running | ThreadStatus::Blocked
                    | ThreadStatus::Failed | ThreadStatus::Interrupted | ThreadStatus::Suspended
            )
        },
        ThreadStatus::Blocked | ThreadStatus::Suspended | ThreadStatus::ResidentIdle
        | ThreadStatus::Unloaded => {
            matches!(
                next,
                ThreadStatus::Ready | ThreadStatus::Running | ThreadStatus::Failed
                    | ThreadStatus::Terminated | ThreadStatus::Interrupted
            )
        },
        ThreadStatus::Completing => matches!(next, ThreadStatus::Completed | ThreadStatus::Failed),
        ThreadStatus::Interrupted => matches!(
            next,
            ThreadStatus::Ready | ThreadStatus::Running | ThreadStatus::Failed
                | ThreadStatus::Terminated
        ),
        ThreadStatus::Quarantined => matches!(next, ThreadStatus::Terminated | ThreadStatus::Failed),
        ThreadStatus::Completed | ThreadStatus::Failed | ThreadStatus::Terminated => false,
    }
}

/// Staying in the same status is always a valid transition.
pub proof fn law_thread_transition_reflexive(status: ThreadStatus)
    ensures
        thread_transition_allowed(status, status),
{
}

/// A completed, failed or terminated thread never changes status again.
pub proof fn law_terminal_thread_status_is_final(current: ThreadStatus, next: ThreadStatus)
    requires
        is_terminal_thread_status(current),
        next != current,
    ensures
        !thread_transition_allowed(current, next),
{
}

/// Every thread that is not yet terminal may still fail.
pub proof fn law_live_thread_can_fail(current: ThreadStatus)
    requires
        !is_terminal_thread_status(current),
    ensures
        thread_transition_allowed(current, ThreadStatus::Failed),
{
}

/// A thread that has not run yet leaves `Ready` only to run, to wait
/// (blocked, suspended or unloaded), or to end by failure or termination;
/// in particular it is never marked completed or completing.
pub proof fn law_ready_thread_successors(next: ThreadStatus)
    ensures
        thread_transition_allowed(ThreadStatus::Ready, next) <==> matches!(
            next,
            ThreadStatus::Ready | ThreadStatus::Running | ThreadStatus::Blocked | ThreadStatus::Suspended
                | ThreadStatus::Unloaded | ThreadStatus::Failed | ThreadStatus::Terminated
        ),
{
}

/// Where each status can be entered from. A thread completes only from
/// running or completing, starts completing only while running, waits on a
/// tool, a permission or a user only after running, never returns to
/// `Created`, and is never put into quarantine or into `ResidentIdle` by a
/// transition; a completed or terminated thread cannot fail.
pub proof fn law_thread_status_predecessors(current: ThreadStatus)
    ensures
        thread_transition_allowed(current, ThreadStatus::Created) <==> current == ThreadStatus::Created,
        thread_transition_allowed(current, ThreadStatus::Completed) <==> matches!(
            current,
            ThreadStatus::Running | ThreadStatus::Completing | ThreadStatus::Completed
        ),
        thread_transition_allowed(current, ThreadStatus::Completing) <==> matches!(
            current,
            ThreadStatus::Running | ThreadStatus::Completing
        ),
        thread_transition_allowed(current, ThreadStatus::WaitingTool) <==> matches!(
            current,
            ThreadStatus::Running | ThreadStatus::WaitingTool
        ),
        thread_transition_allowed(current, ThreadStatus::WaitingPermission) <==> matches!(
            current,
            ThreadStatus::Running | ThreadStatus::WaitingPermission
        ),
        thread_transition_allowed(current, ThreadStatus::WaitingUser) <==> matches!(
            current,
            ThreadStatus::Running | ThreadStatus::WaitingUser
        ),
        thread_transition_allowed(current, ThreadStatus::Quarantined) <==> current == ThreadStatus::Quarantined,
        thread_transition_allowed(current, ThreadStatus::ResidentIdle) <==> current == ThreadStatus::ResidentIdle,
        thread_transition_allowed(current, ThreadStatus::Unloaded) <==> matches!(
            current,
            ThreadStatus::Ready | ThreadStatus::Unloaded
        ),
        thread_transition_allowed(current, ThreadStatus::Ready) <==> matches!(
            current,
            ThreadStatus::Created | ThreadStatus::Ready | ThreadStatus::Running | ThreadStatus::WaitingTool
                | ThreadStatus::WaitingPermission | ThreadStatus::WaitingUser | ThreadStatus::Blocked
                | ThreadStatus::Suspended | ThreadStatus::ResidentIdle | ThreadStatus::Unloaded
                | ThreadStatus::Interrupted
        ),
        thread_transition_allowed(current, ThreadStatus::Running) <==> matches!(
            current,
            ThreadStatus::Created | ThreadStatus::Ready | ThreadStatus::Running | ThreadStatus::WaitingTool
                | ThreadStatus::WaitingPermission | ThreadStatus::WaitingUser | ThreadStatus::Blocked
                | ThreadStatus::Suspended | ThreadStatus::ResidentIdle | ThreadStatus::Unloaded
                | ThreadStatus::Interrupted
        ),
        thread_transition_allowed(current, ThreadStatus::Blocked) <==> matches!(
            current,
            ThreadStatus::Ready | ThreadStatus::Running | ThreadStatus::WaitingTool
                | ThreadStatus::WaitingPermission | ThreadStatus::WaitingUser | ThreadStatus::Blocked
        ),
        thread_transition_allowed(current, ThreadStatus::Suspended) <==> matches!(
            current,
            ThreadStatus::Ready | ThreadStatus::Running | ThreadStatus::WaitingTool
                | ThreadStatus::WaitingPermission | ThreadStatus::WaitingUser | ThreadStatus::Suspended
        ),
        thread_transition_allowed(current, ThreadStatus::Interrupted) <==> matches!(
            current,
            ThreadStatus::Running | ThreadStatus::WaitingTool | ThreadStatus::WaitingPermission
                | ThreadStatus::WaitingUser | ThreadStatus::Blocked | ThreadStatus::Suspended
                | ThreadStatus::ResidentIdle | ThreadStatus::Unloaded | ThreadStatus::Interrupted
        ),
        thread_transition_allowed(current, ThreadStatus::Terminated) <==> matches!(
            current,
            ThreadStatus::Created | ThreadStatus::Ready | ThreadStatus::Blocked | ThreadStatus::Suspended
                | ThreadStatus::ResidentIdle | ThreadStatus::Unloaded | ThreadStatus::Interrupted
                | ThreadStatus::Quarantined | ThreadStatus::Terminated
        ),
        thread_transition_allowed(current, ThreadStatus::Failed) <==> !matches!(
            current,
            ThreadStatus::Completed | ThreadStatus::Terminated
        ),
{
}

/// The turn a thread is working on.
#[derive(Debug)]
pub struct ActiveTurn {
    pub turn_id: Option<String>,
    pub status: Option<TurnStatus>,
    pub active_step_id: Option<String>,
    pub started_at: Option<String>,
}

/// A copy of an optional string.
pub fn copy_opt_string(s: &Option<String>) -> (r: Option<String>)
    ensures
        r == *s,
{
    match s {
        Some(v) => Some(v.clone()),
        None => None,
    }
}

impl ActiveTurn {
    /// A copy of this turn.
    pub fn duplicate(&self) -> (r: ActiveTurn)
        ensures
            r == *self,
    {
        ActiveTurn {
            turn_id: copy_opt_string(&self.turn_id),
            status: self.status,
            active_step_id: copy_opt_string(&self.active_step_id),
            started_at: copy_opt_string(&self.started_at),
        }
    }
}

/// The lifecycle part of an Agent Control Block.
#[derive(Debug)]
pub struct ThreadLifecycle {
    pub thread_id: String,
    pub status: ThreadStatus,
    pub status_reason: Option<String>,
    pub termination_reason: Option<String>,
    pub active_turn: ActiveTurn,
    pub recovery_dirty: bool,
    pub last_checkpoint_id: Option<String>,
    pub updated_at: String,
}

/// The turn status a transition to `next` imposes on an existing turn, if any.
pub open spec fn turn_status_after(next: ThreadStatus, current: Option<TurnStatus>) -> Option<TurnStatus> {
    match next {
        ThreadStatus::Ready => Some(TurnStatus::Completed),
        ThreadStatus::Running => Some(TurnStatus::InProgress),
        ThreadStatus::Blocked => Some(TurnStatus::Blocked),
        ThreadStatus::Interrupted => Some(TurnStatus::Interrupted),
        ThreadStatus::Completed => Some(TurnStatus::Completed),
        ThreadStatus::Failed => Some(TurnStatus::Failed),
        ThreadStatus::Terminated => Some(TurnStatus::Interrupted),
        _ => current,
    }
}

/// A transition to `next` closes the active step of an existing turn.
pub open spec fn transition_clears_step(next: ThreadStatus) -> bool {
    matches!(next, ThreadStatus::Ready | ThreadStatus::Blocked | ThreadStatus::Interrupted)
}

/// `n` is `o` after an accepted transition to `next` with `reason` at `now`.
pub open spec fn transitioned(o: ThreadLifecycle, n: ThreadLifecycle, next: ThreadStatus, reason: Option<String>, now: String) -> bool {
    &&& n.thread_id == o.thread_id
    &&& n.status == next
    &&& n.status_reason == reason
    &&& n.updated_at == now
    &&& n.recovery_dirty
    &&& n.last_checkpoint_id == o.last_checkpoint_id
    &&& n.active_turn.turn_id == o.active_turn.turn_id
    &&& n.active_turn.started_at == o.active_turn.started_at
    &&& n.termination_reason == (if is_terminal_thread_status(next) {
        reason
    } else {
        o.termination_reason
    })
    &&& n.active_turn.status == (if o.active_turn.turn_id.is_some() || is_terminal_thread_status(next) {
        turn_status_after(next, o.active_turn.status)
    } else {
        o.active_turn.status
    })
    &&& n.active_turn.active_step_id == (if o.active_turn.turn_id.is_some() && transition_clears_step(next) {
        None
    } else {
        o.active_turn.active_step_id
    })
}

impl ThreadLifecycle {
    /// A copy of this lifecycle record.
    pub fn duplicate(&self) -> (r: ThreadLifecycle)
        ensures
            r == *self,
    {
        ThreadLifecycle {
            thread_id: self.thread_id.clone(),
            status: self.status,
            status_reason: copy_opt_string(&self.status_reason),
            termination_reason: copy_opt_string(&self.termination_reason),
            active_turn: self.active_turn.duplicate(),
            recovery_dirty: self.recovery_dirty,
            last_checkpoint_id: copy_opt_string(&self.last_checkpoint_id),
            updated_at: self.updated_at.clone(),
        }
    }

    /// Moves the thread to `next`, recording `reason` and the time `now`.
    ///
    /// A transition outside the lifecycle graph is refused and leaves the
    /// thread unchanged. An existing turn follows the thread: it completes
    /// when the thread becomes ready or completes, resumes when it runs, and
    /// is blocked, interrupted or failed with it. A final status records the
    /// reason as the termination reason. Every accepted transition marks the
    /// recovery cursor dirty.
    pub fn transition(&mut self, next: ThreadStatus, reason: Option<String>, now: String) -> (r: Result<(), AgentOsError>)
        ensures
            r.is_err() <==> !thread_transition_allowed(old(self).status, next),
            r.is_err() ==> *final(self) == *old(self) && r == Err::<(), AgentOsError>(
                AgentOsError::InvalidTransition("thread transition is not allowed"),
            ),
            r.is_ok() ==> transitioned(*old(self), *final(self), next, reason, now),
    {
        if !valid_thread_transition(self.status, next) {
            return Err(AgentOsError::InvalidTransition("thread transition is not allowed"));
        }
        let has_turn = self.active_turn.turn_id.is_some();
        self.status = next;
        self.status_reason = reason.clone();
        self.updated_at = now;
        if has_turn {
            match next {
                ThreadStatus::Ready => {
                    self.active_turn.status = Some(TurnStatus::Completed);
                    self.active_turn.active_step_id = None;
                },
                ThreadStatus::Running => {
                    self.active_turn.status = Some(TurnStatus::InProgress);
                },
                ThreadStatus::Blocked => {
                    self.active_turn.status = Some(TurnStatus::Blocked);
                    self.active_turn.active_step_id = None;
                },
                ThreadStatus::Interrupted => {
                    self.active_turn.status = Some(TurnStatus::Interrupted);
                    self.active_turn.active_step_id = None;
                },
                _ => {},
            }
        }
        match next {
            ThreadStatus::Completed => {
                self.termination_reason = reason;
                self.active_turn.status = Some(TurnStatus::Completed);
            },
            ThreadStatus::Failed => {
                self.termination_reason = reason;
                self.active_turn.status = Some(TurnStatus::Failed);
            },
            ThreadStatus::Terminated => {
                self.termination_reason = reason;
                self.active_turn.status = Some(TurnStatus::Interrupted);
            },
            _ => {},
        }
        self.recovery_dirty = true;
        Ok(())
    }
}

/// A task that can no longer change status.
pub open spec fn is_closed_task_status(status: TaskStatus) -> bool {
    matches!(status, TaskStatus::Completed | TaskStatus::Failed | TaskStatus::Cancelled)
}

} // verus!
