//! Turn admission and the cooperative ready queue.
//!
//! A thread may start a turn unless a budget ledger bound to it is
//! exhausted, its task waits on an unfinished dependency, or the provider
//! slot of its default provider is leased to another thread. Threads that
//! become ready wait in a queue ordered by descending task priority, ties
//! broken by thread id.
use vstd::prelude::*;
use crate::text::str_eq;
use crate::scope::texts;
use crate::order::{text_less, text_lt, lemma_text_lt_irreflexive, lemma_text_lt_transitive, lemma_text_lt_total};
use crate::error::AgentOsError;
use crate::lifecycle::TaskStatus;
use crate::state::{queue_unique, KernelState, ThreadRecord, TaskRecord, BudgetLedger, BudgetScope, BudgetStatus, ResourceLease, ResourceType, ResourceLeaseStatus, has_task, task_pos, task_ids_unique, has_thread, thread_pos, has_profile, profile_pos, profile_ids_unique};

verus! {

/// Why a turn was refused admission.
#[derive(Debug)]
pub enum AdmissionRejection {
    /// A budget ledger bound to the thread's goal, task, agent or provider
    /// profile is exhausted.
    OutOfBudget { scope_id: String, budget_ledger_id: String },
    /// The task waits on dependencies that have not completed.
    DependencyBlocked { task_id: String, blocked_on: Vec<String> },
    /// Another thread holds the default provider's slot.
    ProviderSlotUnavailable { provider_id: String },
}

/// Outcome of evaluating turn admission.
#[derive(Debug)]
pub enum AdmissionDecision {
    Allowed,
    Rejected(AdmissionRejection),
}

impl AdmissionDecision {
    /// Whether the turn was admitted.
    pub fn is_allowed(&self) -> (r: bool)
        ensures
            r == (self is Allowed),
    {
        match self {
            AdmissionDecision::Allowed => true,
            AdmissionDecision::Rejected(_) => false,
        }
    }
}

/// The ledger is bound to the thread.
pub open spec fn ledger_matches(ledger: BudgetLedger, thread: ThreadRecord) -> bool {
    match ledger.scope_type {
        BudgetScope::Goal => ledger.scope_id@ == thread.goal_id@,
        BudgetScope::Task => ledger.scope_id@ == thread.task_id@,
        BudgetScope::Agent => ledger.scope_id@ == thread.agent_id@,
        BudgetScope::ProviderProfile => ledger.scope_id@ == thread.provider_profile_id@,
        BudgetScope::HumanAttention => ledger.scope_id@ == thread.goal_id@ || ledger.scope_id@
            == thread.task_id@ || ledger.scope_id@ == thread.agent_id@,
    }
}

/// Ledger `i` is bound to the thread and exhausted.
pub open spec fn exhausted_for(ledgers: Seq<BudgetLedger>, thread: ThreadRecord, i: int) -> bool {
    0 <= i < ledgers.len() && ledger_matches(ledgers[i], thread) && ledgers[i].status == BudgetStatus::Exhausted
}

pub open spec fn budget_blocked(ledgers: Seq<BudgetLedger>, thread: ThreadRecord) -> bool {
    exists|i: int| exhausted_for(ledgers, thread, i)
}

/// The dependencies among `deps` that name a task which has not completed, in order.
pub open spec fn unfinished(tasks: Seq<TaskRecord>, deps: Seq<Seq<char>>) -> Seq<Seq<char>>
    decreases deps.len(),
{
    if deps.len() == 0 {
        Seq::empty()
    } else {
        let rest = unfinished(tasks, deps.drop_last());
        let d = deps.last();
        if has_task(tasks, d) && tasks[task_pos(tasks, d)].status != TaskStatus::Completed {
            rest.push(d)
        } else {
            rest
        }
    }
}

/// The thread's task exists and waits on an unfinished dependency.
pub open spec fn dependency_blocked(tasks: Seq<TaskRecord>, thread: ThreadRecord) -> bool {
    has_task(tasks, thread.task_id@) && unfinished(tasks, texts(tasks[task_pos(tasks, thread.task_id@)].depends_on@)).len() > 0
}

/// The default provider of the thread's provider profile, if any.
pub open spec fn default_provider(state: KernelState, thread: ThreadRecord) -> Option<Seq<char>> {
    if has_profile(state.provider_profiles@, thread.provider_profile_id@) {
        match state.provider_profiles@[profile_pos(state.provider_profiles@, thread.provider_profile_id@)].default_provider_id {
            Some(p) => Some(p@),
            None => None,
        }
    } else {
        None
    }
}

/// Lease `i` is a granted slot of `provider` held by a thread other than `thread_id`.
pub open spec fn slot_held_by_other(leases: Seq<ResourceLease>, provider: Seq<char>, thread_id: Seq<char>, i: int) -> bool {
    0 <= i < leases.len() && leases[i].resource_type == ResourceType::ProviderSlot && leases[i].resource_id@
        == provider && leases[i].status == ResourceLeaseStatus::Granted && leases[i].thread_id@ != thread_id
}

pub open spec fn provider_busy(state: KernelState, thread: ThreadRecord) -> bool {
    &&& default_provider(state, thread).is_some()
    &&& exists|i: int|
        slot_held_by_other(
            state.resource_leases@,
            default_provider(state, thread).unwrap(),
            thread.lifecycle.thread_id@,
            i,
        )
}

/// `r` reports the exhausted ledger `ledger`.
pub open spec fn reports_out_of_budget(r: AdmissionRejection, ledger: BudgetLedger) -> bool {
    match r {
        AdmissionRejection::OutOfBudget { scope_id, budget_ledger_id } => scope_id@ == ledger.scope_id@
            && budget_ledger_id@ == ledger.budget_ledger_id@,
        _ => false,
    }
}

/// `r` reports that task `task` waits on `deps`.
pub open spec fn reports_dependencies(r: AdmissionRejection, task: Seq<char>, deps: Seq<Seq<char>>) -> bool {
    match r {
        AdmissionRejection::DependencyBlocked { task_id, blocked_on } => task_id@ == task && texts(blocked_on@) == deps,
        _ => false,
    }
}

/// `r` reports that the slot of `provider` is held elsewhere.
pub open spec fn reports_busy_provider(r: AdmissionRejection, provider: Option<Seq<char>>) -> bool {
    match r {
        AdmissionRejection::ProviderSlotUnavailable { provider_id } => Some(provider_id@) == provider,
        _ => false,
    }
}

/// The first ledger bound to the thread and exhausted is ledger `i`.
pub open spec fn first_exhausted(ledgers: Seq<BudgetLedger>, thread: ThreadRecord, i: int) -> bool {
    exhausted_for(ledgers, thread, i) && forall|j: int| 0 <= j < i ==> !exhausted_for(ledgers, thread, j)
}

/// The admission rules, in the order the kernel applies them.
pub open spec fn admission_matches(state: KernelState, thread: ThreadRecord, d: AdmissionDecision) -> bool {
    if budget_blocked(state.budget_ledgers@, thread) {
        exists|i: int|
            first_exhausted(state.budget_ledgers@, thread, i) && (d matches AdmissionDecision::Rejected(rej)
                && reports_out_of_budget(rej, state.budget_ledgers@[i]))
    } else if dependency_blocked(state.tasks@, thread) {
        d matches AdmissionDecision::Rejected(rej) && reports_dependencies(
            rej,
            thread.task_id@,
            unfinished(state.tasks@, texts(state.tasks@[task_pos(state.tasks@, thread.task_id@)].depends_on@)),
        )
    } else if provider_busy(state, thread) {
        d matches AdmissionDecision::Rejected(rej) && reports_busy_provider(rej, default_provider(state, thread))
    } else {
        d is Allowed
    }
}

impl KernelState {
    fn budget_rejection(&self, thread: &ThreadRecord) -> (r: Option<AdmissionRejection>)
        ensures
            r.is_none() <==> !budget_blocked(self.budget_ledgers@, *thread),
            r.is_some() ==> exists|i: int|
                first_exhausted(self.budget_ledgers@, *thread, i) && reports_out_of_budget(
                    r.unwrap(),
                    self.budget_ledgers@[i],
                ),
    {
        let mut i: usize = 0;
        while i < self.budget_ledgers.len()
            invariant
                i <= self.budget_ledgers@.len(),
                forall|j: int| 0 <= j < i ==> !exhausted_for(self.budget_ledgers@, *thread, j),
            decreases self.budget_ledgers@.len() - i,
        {
            let ledger = &self.budget_ledgers[i];
            let matches_scope = match ledger.scope_type {
                BudgetScope::Goal => str_eq(ledger.scope_id.as_str(), thread.goal_id.as_str()),
                BudgetScope::Task => str_eq(ledger.scope_id.as_str(), thread.task_id.as_str()),
                BudgetScope::Agent => str_eq(ledger.scope_id.as_str(), thread.agent_id.as_str()),
                BudgetScope::ProviderProfile => str_eq(
                    ledger.scope_id.as_str(),
                    thread.provider_profile_id.as_str(),
                ),
                BudgetScope::HumanAttention => str_eq(ledger.scope_id.as_str(), thread.goal_id.as_str())
                    || str_eq(ledger.scope_id.as_str(), thread.task_id.as_str()) || str_eq(
                    ledger.scope_id.as_str(),
                    thread.agent_id.as_str(),
                ),
            };
            if matches_scope && ledger.status == BudgetStatus::Exhausted {
                assert(exhausted_for(self.budget_ledgers@, *thread, i as int));
                assert(first_exhausted(self.budget_ledgers@, *thread, i as int));
                return Some(
                    AdmissionRejection::OutOfBudget {
                        scope_id: ledger.scope_id.clone(),
                        budget_ledger_id: ledger.budget_ledger_id.clone(),
                    },
                );
            }
            i = i + 1;
        }
        None
    }

    /// The dependencies among `deps` that are unfinished tasks, in order.
    fn unfinished_dependencies(&self, deps: &Vec<String>) -> (r: Vec<String>)
        requires
            task_ids_unique(self.tasks@),
        ensures
            texts(r@) == unfinished(self.tasks@, texts(deps@)),
    {
        let mut out: Vec<String> = Vec::new();
        let mut i: usize = 0;
        while i < deps.len()
            invariant
                i <= deps@.len(),
                task_ids_unique(self.tasks@),
                texts(out@) == unfinished(self.tasks@, texts(deps@).subrange(0, i as int)),
            decreases deps@.len() - i,
        {
            let ghost next = texts(deps@).subrange(0, i + 1);
            assert(next.drop_last() =~= texts(deps@).subrange(0, i as int));
            assert(next.last() == deps@[i as int]@);
            match self.find_task(deps[i].as_str()) {
                Some(k) => {
                    if self.tasks[k].status != TaskStatus::Completed {
                        out.push(deps[i].clone());
                    }
                },
                None => {},
            }
            assert(texts(out@) =~= unfinished(self.tasks@, next));
            i = i + 1;
        }
        assert(texts(deps@).subrange(0, deps@.len() as int) =~= texts(deps@));
        out
    }

    fn dependency_rejection(&self, thread: &ThreadRecord) -> (r: Option<AdmissionRejection>)
        requires
            task_ids_unique(self.tasks@),
        ensures
            r.is_none() <==> !dependency_blocked(self.tasks@, *thread),
            r.is_some() ==> reports_dependencies(
                r.unwrap(),
                thread.task_id@,
                unfinished(self.tasks@, texts(self.tasks@[task_pos(self.tasks@, thread.task_id@)].depends_on@)),
            ),
    {
        match self.find_task(thread.task_id.as_str()) {
            None => None,
            Some(k) => {
                let blocked_on = self.unfinished_dependencies(&self.tasks[k].depends_on);
                if blocked_on.len() == 0 {
                    None
                } else {
                    Some(
                        AdmissionRejection::DependencyBlocked {
                            task_id: self.tasks[k].task_id.clone(),
                            blocked_on,
                        },
                    )
                }
            },
        }
    }

    fn provider_slot_rejection(&self, thread: &ThreadRecord) -> (r: Option<AdmissionRejection>)
        requires
            profile_ids_unique(self.provider_profiles@),
        ensures
            r.is_none() <==> !provider_busy(*self, *thread),
            r.is_some() ==> reports_busy_provider(r.unwrap(), default_provider(*self, *thread)),
    {
        let k = match self.find_provider_profile(thread.provider_profile_id.as_str()) {
            Some(k) => k,
            None => return None,
        };
        let provider_id = match &self.provider_profiles[k].default_provider_id {
            Some(p) => p,
            None => return None,
        };
        assert(default_provider(*self, *thread) == Some(provider_id@));
        let mut i: usize = 0;
        while i < self.resource_leases.len()
            invariant
                i <= self.resource_leases@.len(),
                default_provider(*self, *thread) == Some(provider_id@),
                forall|j: int| 0 <= j < i ==> !slot_held_by_other(
                    self.resource_leases@,
                    provider_id@,
                    thread.lifecycle.thread_id@,
                    j,
                ),
            decreases self.resource_leases@.len() - i,
        {
            let lease = &self.resource_leases[i];
            if lease.resource_type == ResourceType::ProviderSlot && str_eq(lease.resource_id.as_str(), provider_id.as_str())
                && lease.status == ResourceLeaseStatus::Granted && !str_eq(
                lease.thread_id.as_str(),
                thread.lifecycle.thread_id.as_str(),
            ) {
                assert(slot_held_by_other(self.resource_leases@, provider_id@, thread.lifecycle.thread_id@, i as int));
                assert(default_provider(*self, *thread).unwrap() == provider_id@);
                assert(slot_held_by_other(
                    self.resource_leases@,
                    default_provider(*self, *thread).unwrap(),
                    thread.lifecycle.thread_id@,
                    i as int,
                ));
                assert(provider_busy(*self, *thread));
                return Some(AdmissionRejection::ProviderSlotUnavailable { provider_id: provider_id.clone() });
            }
            i = i + 1;
        }
        None
    }

    /// The admission decision for `thread` under the current ledgers, tasks
    /// and leases. Budget exhaustion is reported before dependency blocking,
    /// and that before a busy provider slot.
    pub fn evaluate_admission(&self, thread: &ThreadRecord) -> (r: AdmissionDecision)
        requires
            self.wf(),
        ensures
            admission_matches(*self, *thread, r),
    {
        if let Some(rejection) = self.budget_rejection(thread) {
            return AdmissionDecision::Rejected(rejection);
        }
        if let Some(rejection) = self.dependency_rejection(thread) {
            return AdmissionDecision::Rejected(rejection);
        }
        if let Some(rejection) = self.provider_slot_rejection(thread) {
            return AdmissionDecision::Rejected(rejection);
        }
        AdmissionDecision::Allowed
    }

    /// Whether the thread `thread_id` may start a new turn; never changes state.
    pub fn evaluate_turn_admission(&self, thread_id: &str) -> (r: Result<AdmissionDecision, AgentOsError>)
        requires
            self.wf(),
        ensures
            r.is_err() <==> !has_thread(self.threads@, thread_id@),
            r.is_ok() ==> admission_matches(
                *self,
                self.threads@[thread_pos(self.threads@, thread_id@)],
                r.unwrap(),
            ),
    {
        match self.find_thread(thread_id) {
            None => Err(AgentOsError::NotFound("thread")),
            Some(k) => Ok(self.evaluate_admission(&self.threads[k])),
        }
    }
}

} // verus!

verus! {

/// The task priority of the thread `id`; 0 when the thread or its task is unknown.
pub open spec fn priority_of(state: KernelState, id: Seq<char>) -> int {
    if has_thread(state.threads@, id) && has_task(
        state.tasks@,
        state.threads@[thread_pos(state.threads@, id)].task_id@,
    ) {
        state.tasks@[task_pos(state.tasks@, state.threads@[thread_pos(state.threads@, id)].task_id@)].priority as int
    } else {
        0
    }
}

/// Thread `a` is scheduled before thread `b`: higher priority first, then by id.
pub open spec fn queue_before(state: KernelState, a: Seq<char>, b: Seq<char>) -> bool {
    priority_of(state, a) > priority_of(state, b) || (priority_of(state, a) == priority_of(state, b)
        && text_lt(a, b))
}

/// Each queued thread is scheduled before every later one.
pub open spec fn queue_ordered(state: KernelState, q: Seq<Seq<char>>) -> bool {
    forall|i: int, j: int| 0 <= i < j < q.len() ==> queue_before(state, #[trigger] q[i], #[trigger] q[j])
}

proof fn lemma_queue_before_irreflexive(state: KernelState, a: Seq<char>)
    ensures
        !queue_before(state, a, a),
{
    lemma_text_lt_irreflexive(a);
}

proof fn lemma_queue_before_transitive(state: KernelState, a: Seq<char>, b: Seq<char>, c: Seq<char>)
    requires
        queue_before(state, a, b),
        queue_before(state, b, c),
    ensures
        queue_before(state, a, c),
{
    if priority_of(state, a) == priority_of(state, b) && priority_of(state, b) == priority_of(state, c) {
        lemma_text_lt_transitive(a, b, c);
    }
}

proof fn lemma_queue_before_total(state: KernelState, a: Seq<char>, b: Seq<char>)
    ensures
        a == b || queue_before(state, a, b) || queue_before(state, b, a),
{
    lemma_text_lt_total(a, b);
}

impl KernelState {
    /// The task priority of thread `thread_id` (0 when unknown).
    pub fn thread_priority(&self, thread_id: &str) -> (r: i32)
        requires
            self.wf(),
        ensures
            r as int == priority_of(*self, thread_id@),
    {
        match self.find_thread(thread_id) {
            None => 0,
            Some(k) => match self.find_task(self.threads[k].task_id.as_str()) {
                None => 0,
                Some(t) => self.tasks[t].priority,
            },
        }
    }

    /// Puts `value` at its place in the ordered list `list` unless already there.
    fn insert_in_queue_order(&self, list: &mut Vec<String>, value: &String)
        requires
            self.wf(),
            queue_ordered(*self, texts(old(list)@)),
        ensures
            queue_ordered(*self, texts(final(list)@)),
            forall|s: Seq<char>| #[trigger] texts(final(list)@).contains(s) <==> (texts(old(list)@).contains(s) || s == value@),
    {
        let ghost before = texts(list@);
        let pv = self.thread_priority(value.as_str());
        let mut i: usize = 0;
        let mut found = false;
        while !found && i < list.len()
            invariant
                self.wf(),
                pv as int == priority_of(*self, value@),
                i <= list@.len(),
                list@ == old(list)@,
                before == texts(list@),
                queue_ordered(*self, before),
                forall|j: int| 0 <= j < i ==> queue_before(*self, #[trigger] before[j], value@),
                found ==> i < list@.len() && !queue_before(*self, before[i as int], value@),
            decreases list@.len() - i + (if found { 0int } else { 1int }),
        {
            assert(before[i as int] == list@[i as int]@);
            let pi = self.thread_priority(list[i].as_str());
            let earlier = pi > pv || (pi == pv && text_less(list[i].as_str(), value.as_str()));
            if !earlier {
                found = true;
            } else {
                i = i + 1;
            }
        }
        if i < list.len() && str_eq(list[i].as_str(), value.as_str()) {
            assert(before[i as int] == value@);
            assert forall|s: Seq<char>| #[trigger] texts(list@).contains(s) <==> (before.contains(s) || s == value@) by {
                if s == value@ {
                    assert(before[i as int] == s);
                }
            }
            return;
        }
        proof {
            if i < list@.len() {
                assert(before[i as int] == list@[i as int]@);
                lemma_queue_before_total(*self, before[i as int], value@);
            }
        }
        list.insert(i, value.clone());
        let ghost after = texts(list@);
        assert(after =~= before.insert(i as int, value@));
        assert forall|a: int, b: int| 0 <= a < b < after.len() implies queue_before(*self, #[trigger] after[a], #[trigger] after[b]) by {
            if b < i {
                assert(after[a] == before[a] && after[b] == before[b]);
            } else if b == i {
                assert(after[a] == before[a]);
            } else if a == i {
                assert(after[b] == before[b - 1]);
                if b - 1 > i {
                    lemma_queue_before_transitive(*self, value@, before[i as int], before[b - 1]);
                }
            } else if a < i {
                assert(after[a] == before[a] && after[b] == before[b - 1]);
            } else {
                assert(after[a] == before[a - 1] && after[b] == before[b - 1]);
            }
        }
        assert forall|s: Seq<char>| #[trigger] after.contains(s) <==> (before.contains(s) || s == value@) by {
            if s == value@ {
                assert(after[i as int] == s);
            }
            if before.contains(s) {
                let j = choose|j: int| 0 <= j < before.len() && before[j] == s;
                if j < i {
                    assert(after[j] == s);
                } else {
                    assert(after[j + 1] == s);
                }
            }
            if after.contains(s) {
                let j = choose|j: int| 0 <= j < after.len() && after[j] == s;
                if j < i {
                    assert(before[j] == s);
                } else if j > i {
                    assert(before[j - 1] == s);
                }
            }
        }
    }

    /// Records that thread `thread_id` is ready to be scheduled. The queue is
    /// reordered by descending task priority, ties broken by thread id, and
    /// holds each thread at most once.
    pub fn enqueue_ready(&mut self, thread_id: &str)
        requires
            old(self).wf(),
        ensures
            final(self).wf(),
            *final(self) == (KernelState { ready_queue: final(self).ready_queue, ..*old(self) }),
            queue_ordered(*final(self), texts(final(self).ready_queue@)),
            forall|s: Seq<char>| #[trigger] texts(final(self).ready_queue@).contains(s) <==> (texts(
                old(self).ready_queue@,
            ).contains(s) || s == thread_id@),
    {
        let mut out: Vec<String> = Vec::new();
        let mut i: usize = 0;
        while i < self.ready_queue.len()
            invariant
                self.wf(),
                i <= self.ready_queue@.len(),
                queue_ordered(*self, texts(out@)),
                forall|s: Seq<char>| #[trigger] texts(out@).contains(s) <==> texts(self.ready_queue@).subrange(0, i as int).contains(s),
            decreases self.ready_queue@.len() - i,
        {
            self.insert_in_queue_order(&mut out, &self.ready_queue[i]);
            proof {
                let ghost prev = texts(self.ready_queue@).subrange(0, i as int);
                let ghost next = texts(self.ready_queue@).subrange(0, i + 1);
                assert(next =~= prev.push(self.ready_queue@[i as int]@));
                assert forall|s: Seq<char>| #[trigger] texts(out@).contains(s) <==> next.contains(s) by {
                    if next.contains(s) && s != self.ready_queue@[i as int]@ {
                        let j = choose|j: int| 0 <= j < next.len() && next[j] == s;
                        assert(prev[j] == s);
                    }
                    if prev.contains(s) {
                        let j = choose|j: int| 0 <= j < i && prev[j] == s;
                        assert(next[j] == s);
                    }
                    if s == self.ready_queue@[i as int]@ {
                        assert(next[i as int] == s);
                    }
                }
            }
            i = i + 1;
        }
        assert(texts(self.ready_queue@).subrange(0, self.ready_queue@.len() as int) =~= texts(self.ready_queue@));
        let id = String::from_str(thread_id);
        self.insert_in_queue_order(&mut out, &id);
        self.ready_queue = out;
    }

    /// Removes and returns the thread at the head of the ready queue.
    pub fn drain_next_ready(&mut self) -> (r: Option<String>)
        ensures
            *final(self) == (KernelState { ready_queue: final(self).ready_queue, ..*old(self) }),
            r.is_none() <==> old(self).ready_queue@.len() == 0,
            r.is_some() ==> r.unwrap() == old(self).ready_queue@[0] && final(self).ready_queue@
                == old(self).ready_queue@.drop_first(),
            r.is_none() ==> final(self).ready_queue@ == old(self).ready_queue@,
    {
        if self.ready_queue.len() == 0 {
            None
        } else {
            let head = self.ready_queue.remove(0);
            assert(self.ready_queue@ =~= old(self).ready_queue@.drop_first());
            Some(head)
        }
    }

    /// A copy of the ready queue, head first.
    pub fn ready_queue_snapshot(&self) -> (r: Vec<String>)
        ensures
            r@ == self.ready_queue@,
    {
        let mut out: Vec<String> = Vec::new();
        let mut i: usize = 0;
        while i < self.ready_queue.len()
            invariant
                i <= self.ready_queue@.len(),
                out@ == self.ready_queue@.subrange(0, i as int),
            decreases self.ready_queue@.len() - i,
        {
            out.push(self.ready_queue[i].clone());
            assert(out@ =~= self.ready_queue@.subrange(0, i + 1));
            i = i + 1;
        }
        assert(out@ =~= self.ready_queue@);
        out
    }
}

/// The thread at the head of an ordered ready queue is scheduled before
/// every other queued thread: it has the highest priority, and among equal
/// priorities the smallest id.
pub proof fn law_head_of_ready_queue_goes_first(state: KernelState, q: Seq<Seq<char>>, other: Seq<char>)
    requires
        queue_ordered(state, q),
        q.len() > 0,
        q.contains(other),
        other != q[0],
    ensures
        queue_before(state, q[0], other),
        priority_of(state, q[0]) >= priority_of(state, other),
{
    let j = choose|j: int| 0 <= j < q.len() && q[j] == other;
    assert(j != 0);
    assert(queue_before(state, q[0], q[j]));
}

/// A queue ordered by priority and id never holds a thread twice.
pub proof fn law_ready_queue_has_no_duplicates(state: KernelState, q: Seq<Seq<char>>)
    requires
        queue_ordered(state, q),
    ensures
        queue_unique(q),
{
    assert forall|i: int, j: int| 0 <= i < q.len() && 0 <= j < q.len() && #[trigger] q[i] == #[trigger] q[j] implies i == j by {
        if i < j {
            assert(queue_before(state, q[i], q[j]));
            lemma_queue_before_irreflexive(state, q[i]);
        } else if j < i {
            assert(queue_before(state, q[j], q[i]));
            lemma_queue_before_irreflexive(state, q[j]);
        }
    }
}

} // verus!
