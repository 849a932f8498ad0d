//! Kernel operations on Agent Threads: status transitions and turn starts.
use vstd::prelude::*;
use crate::scope::texts;
use crate::error::AgentOsError;
use crate::lifecycle::{ThreadStatus, TurnStatus, ThreadLifecycle, thread_transition_allowed, transitioned, valid_thread_transition};
use crate::state::{KernelState, ThreadRecord, has_thread, thread_pos};
use crate::scheduler::{AdmissionDecision, AdmissionRejection, admission_matches, queue_ordered};
use crate::events::{KernelEvent, Logged};

verus! {

/// `new` is `old` with the lifecycle of thread `k` replaced by `lc`, and a
/// `ThreadStatusChanged` event carrying a copy of the new record logged.
pub open spec fn thread_lifecycle_replaced(old: KernelState, new: KernelState, k: int, lc: ThreadLifecycle) -> bool {
    &&& 0 <= k < old.threads@.len()
    &&& new.threads@ == old.threads@.update(k, ThreadRecord { lifecycle: lc, ..old.threads@[k] })
    &&& new.events@.len() == old.events@.len() + 1
    &&& new.events@.drop_last() == old.events@
    &&& new.events@.last() matches KernelEvent::ThreadStatusChanged(x0) && new.threads@[k].copies(&x0)
    &&& new == KernelState { threads: new.threads, ready_queue: new.ready_queue, events: new.events, ..old }
}

/// No thread has (or last had) an active turn with id `turn_id`.
pub open spec fn turn_id_fresh(s: KernelState, turn_id: Seq<char>) -> bool {
    forall|i: int| 0 <= i < s.threads@.len() ==> !(#[trigger] s.threads@[i].lifecycle.active_turn.turn_id matches Some(o)
        && o@ == turn_id)
}

/// A thread busy in a turn.
pub open spec fn is_busy_status(s: ThreadStatus) -> bool {
    matches!(s, ThreadStatus::Running | ThreadStatus::WaitingTool | ThreadStatus::WaitingPermission | ThreadStatus::WaitingUser)
}

/// The error a refused admission turns into.
pub open spec fn admission_error(d: AdmissionDecision) -> AgentOsError {
    match d {
        AdmissionDecision::Rejected(AdmissionRejection::OutOfBudget { .. }) => AgentOsError::BudgetExhausted(
            "turn.start rejected: budget ledger is exhausted",
        ),
        AdmissionDecision::Rejected(AdmissionRejection::DependencyBlocked { .. }) => AgentOsError::InvalidTransition(
            "turn.start rejected: task is blocked on dependencies",
        ),
        AdmissionDecision::Rejected(AdmissionRejection::ProviderSlotUnavailable { .. }) => AgentOsError::ResourceConflict(
            "turn.start rejected: provider slot is unavailable",
        ),
        AdmissionDecision::Allowed => AgentOsError::Validation("turn admitted"),
    }
}

impl KernelState {
    pub(crate) fn replace_lifecycle(&mut self, k: usize, lc: ThreadLifecycle)
        requires
            k < old(self).threads@.len(),
            old(self).wf(),
            lc.thread_id@ == old(self).threads@[k as int].lifecycle.thread_id@,
        ensures
            thread_lifecycle_replaced(*old(self), *final(self), k as int, lc),
            final(self).ready_queue == old(self).ready_queue,
            final(self).wf(),
    {
        let ghost pre = *self;
        let mut rec = self.threads.remove(k);
        rec.lifecycle = lc;
        let logged = rec.log_copy();
        let ghost x = rec;
        self.threads.insert(k, rec);
        assert(self.threads@ =~= pre.threads@.update(k as int, x));
        let e = KernelEvent::ThreadStatusChanged(logged);
        let ghost ge = e;
        self.log_thread(e, Ghost(pre), Ghost(x));
        assert(self.threads@[k as int] == x);
        assert(self.events@ == pre.events@.push(ge));
        assert(self.events@.drop_last() =~= pre.events@);
        assert(self.events@.last() == ge);
    }

    /// Moves thread `thread_id` to status `next`.
    ///
    /// An unknown thread is `NotFound`; a move outside the lifecycle graph is
    /// an `InvalidTransition`; either way the state is unchanged. Otherwise the
    /// thread's lifecycle is updated as `ThreadLifecycle::transition` states,
    /// and a thread that becomes `Ready` joins the ready queue.
    pub fn transition_thread(&mut self, thread_id: &str, next: ThreadStatus, reason: Option<String>, now: String) -> (r: Result<ThreadLifecycle, AgentOsError>)
        requires
            old(self).wf(),
        ensures
            final(self).wf(),
            !has_thread(old(self).threads@, thread_id@) ==> r == Err::<ThreadLifecycle, AgentOsError>(AgentOsError::NotFound("thread")),
            has_thread(old(self).threads@, thread_id@) && !thread_transition_allowed(
                old(self).threads@[thread_pos(old(self).threads@, thread_id@)].lifecycle.status,
                next,
            ) ==> r == Err::<ThreadLifecycle, AgentOsError>(AgentOsError::InvalidTransition("thread transition is not allowed")),
            has_thread(old(self).threads@, thread_id@) && thread_transition_allowed(
                old(self).threads@[thread_pos(old(self).threads@, thread_id@)].lifecycle.status,
                next,
            ) ==> r.is_ok(),
            r.is_err() ==> *final(self) == *old(self),
            r.is_ok() ==> {
                let k = thread_pos(old(self).threads@, thread_id@);
                &&& has_thread(old(self).threads@, thread_id@)
                &&& transitioned(old(self).threads@[k].lifecycle, r.unwrap(), next, reason, now)
                &&& thread_lifecycle_replaced(*old(self), *final(self), k, r.unwrap())
                &&& next == ThreadStatus::Ready ==> queue_ordered(*final(self), texts(final(self).ready_queue@))
                    && forall|s: Seq<char>| #[trigger] texts(final(self).ready_queue@).contains(s) <==> (texts(
                    old(self).ready_queue@,
                ).contains(s) || s == thread_id@)
                &&& next != ThreadStatus::Ready ==> final(self).ready_queue == old(self).ready_queue
            },
    {
        let k = match self.find_thread(thread_id) {
            None => return Err(AgentOsError::NotFound("thread")),
            Some(k) => k,
        };
        let mut lc = self.threads[k].lifecycle.duplicate();
        match lc.transition(next, reason, now) {
            Err(e) => return Err(e),
            Ok(()) => {},
        }
        let result = lc.duplicate();
        self.replace_lifecycle(k, lc);
        if next == ThreadStatus::Ready {
            let ghost mid = *self;
            self.enqueue_ready(thread_id);
            assert(self.threads == mid.threads);
        }
        Ok(result)
    }

    /// Starts a new turn `turn_id` on thread `thread_id` at time `now`.
    ///
    /// Refused when the thread is unknown (`NotFound`), already busy in a
    /// turn or unable to move to `Running` (`InvalidTransition`), or when
    /// admission rejects it: an exhausted budget is `BudgetExhausted`, an
    /// unfinished dependency `InvalidTransition`, a busy provider slot
    /// `ResourceConflict`. A started turn runs the thread, clears its status
    /// reason and is in progress under the new turn id `turn_id`, which no
    /// thread has held as its active turn before.
    pub fn start_turn(&mut self, thread_id: &str, turn_id: String, now: String) -> (r: Result<ThreadLifecycle, AgentOsError>)
        requires
            old(self).wf(),
            turn_id_fresh(*old(self), turn_id@),
        ensures
            final(self).wf(),
            final(self).ready_queue == old(self).ready_queue,
            r.is_err() ==> *final(self) == *old(self),
            !has_thread(old(self).threads@, thread_id@) ==> r == Err::<ThreadLifecycle, AgentOsError>(AgentOsError::NotFound("thread")),
            has_thread(old(self).threads@, thread_id@) ==> {
                let k = thread_pos(old(self).threads@, thread_id@);
                let t = old(self).threads@[k];
                if is_busy_status(t.lifecycle.status) {
                    r == Err::<ThreadLifecycle, AgentOsError>(AgentOsError::InvalidTransition("turn.start rejected because thread is busy"))
                } else if !thread_transition_allowed(t.lifecycle.status, ThreadStatus::Running) {
                    r == Err::<ThreadLifecycle, AgentOsError>(AgentOsError::InvalidTransition("thread transition is not allowed"))
                } else {
                    exists|d: AdmissionDecision|
                        admission_matches(*old(self), t, d) && if d is Allowed {
                            &&& r.is_ok()
                            &&& r.unwrap() == ThreadLifecycle {
                                status: ThreadStatus::Running,
                                status_reason: None,
                                updated_at: now,
                                active_turn: crate::lifecycle::ActiveTurn {
                                    turn_id: Some(turn_id),
                                    status: Some(TurnStatus::InProgress),
                                    started_at: Some(now),
                                    ..t.lifecycle.active_turn
                                },
                                ..t.lifecycle
                            }
                            &&& thread_lifecycle_replaced(*old(self), *final(self), k, r.unwrap())
                        } else {
                            r == Err::<ThreadLifecycle, AgentOsError>(admission_error(d))
                        }
                }
            },
    {
        let k = match self.find_thread(thread_id) {
            None => return Err(AgentOsError::NotFound("thread")),
            Some(k) => k,
        };
        let status = self.threads[k].lifecycle.status;
        if matches!(
            status,
            ThreadStatus::Running | ThreadStatus::WaitingTool | ThreadStatus::WaitingPermission
                | ThreadStatus::WaitingUser
        ) {
            return Err(AgentOsError::InvalidTransition("turn.start rejected because thread is busy"));
        }
        if !valid_thread_transition(status, ThreadStatus::Running) {
            return Err(AgentOsError::InvalidTransition("thread transition is not allowed"));
        }
        let decision = self.evaluate_admission(&self.threads[k]);
        match decision {
            AdmissionDecision::Allowed => {},
            AdmissionDecision::Rejected(rejection) => {
                return match rejection {
                    AdmissionRejection::OutOfBudget { .. } => Err(
                        AgentOsError::BudgetExhausted("turn.start rejected: budget ledger is exhausted"),
                    ),
                    AdmissionRejection::DependencyBlocked { .. } => Err(
                        AgentOsError::InvalidTransition("turn.start rejected: task is blocked on dependencies"),
                    ),
                    AdmissionRejection::ProviderSlotUnavailable { .. } => Err(
                        AgentOsError::ResourceConflict("turn.start rejected: provider slot is unavailable"),
                    ),
                };
            },
        }
        let mut lc = self.threads[k].lifecycle.duplicate();
        lc.status = ThreadStatus::Running;
        lc.status_reason = None;
        lc.active_turn.turn_id = Some(turn_id);
        lc.active_turn.status = Some(TurnStatus::InProgress);
        lc.active_turn.started_at = Some(now.clone());
        lc.updated_at = now;
        let result = lc.duplicate();
        self.replace_lifecycle(k, lc);
        Ok(result)
    }
}

} // verus!
