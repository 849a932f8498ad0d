//! Automation schedules: prompts that wake a thread (or run in a
//! workspace) at a time, possibly repeating at an interval, and the runs
//! queued from them.
use vstd::prelude::*;
use crate::error::AgentOsError;
use crate::json::{JsonValue, json_same};
use crate::state::KernelState;
use crate::text::{str_eq, is_blank, trimmed};
use crate::clock::{next_interval_timestamp, next_interval_text, next_interval_error, parse_rfc3339, rfc3339_parsed};

verus! {

/// What a schedule does when it fires.
#[derive(Debug, Clone, Copy, PartialEq, Eq, Structural)]
pub enum AutomationScheduleKind {
    ThreadWakeup,
    Prompt,
}

/// Whether a schedule fires.
#[derive(Debug, Clone, Copy, PartialEq, Eq, Structural)]
pub enum AutomationScheduleStatus {
    Active,
    Paused,
}

/// Where a run is in its life.
#[derive(Debug, Clone, Copy, PartialEq, Eq, Structural)]
pub enum AutomationRunStatus {
    Queued,
    Running,
    Completed,
    Failed,
}

/// What a client gives to create a schedule.
#[derive(Debug)]
pub struct CreateAutomationScheduleInput {
    pub name: String,
    pub kind: AutomationScheduleKind,
    pub target_thread_id: Option<String>,
    pub workspace: Option<String>,
    pub prompt: String,
    pub next_run_at: Option<String>,
    pub interval_seconds: Option<u64>,
    pub created_by_client_id: String,
    pub payload: JsonValue,
}

/// A schedule.
#[derive(Debug)]
pub struct AutomationSchedule {
    pub schedule_id: String,
    pub name: String,
    pub kind: AutomationScheduleKind,
    pub status: AutomationScheduleStatus,
    pub target_thread_id: Option<String>,
    pub workspace: Option<String>,
    pub prompt: String,
    pub next_run_at: Option<String>,
    pub interval_seconds: Option<u64>,
    pub created_by_client_id: String,
    pub created_at: String,
    pub updated_at: String,
    pub last_run_at: Option<String>,
    pub payload: JsonValue,
}

/// A run queued from a schedule.
#[derive(Debug)]
pub struct AutomationRun {
    pub run_id: String,
    pub schedule_id: String,
    pub kind: AutomationScheduleKind,
    pub status: AutomationRunStatus,
    pub target_thread_id: Option<String>,
    pub workspace: Option<String>,
    pub prompt: String,
    pub scheduled_for: String,
    pub queued_at: String,
    pub started_at: Option<String>,
    pub completed_at: Option<String>,
    pub error: Option<String>,
    pub payload: JsonValue,
}

pub open spec fn has_schedule(ss: Seq<AutomationSchedule>, id: Seq<char>) -> bool {
    exists|i: int| 0 <= i < ss.len() && ss[i].schedule_id@ == id
}

pub open spec fn schedule_pos(ss: Seq<AutomationSchedule>, id: Seq<char>) -> int {
    choose|i: int| 0 <= i < ss.len() && ss[i].schedule_id@ == id
}

pub open spec fn schedule_ids_unique(ss: Seq<AutomationSchedule>) -> bool {
    forall|i: int, j: int| 0 <= i < ss.len() && 0 <= j < ss.len() && #[trigger] ss[i].schedule_id@ == #[trigger] ss[j].schedule_id@ ==> i == j
}

pub open spec fn has_run(rs: Seq<AutomationRun>, id: Seq<char>) -> bool {
    exists|i: int| 0 <= i < rs.len() && rs[i].run_id@ == id
}

pub open spec fn run_ids_unique(rs: Seq<AutomationRun>) -> bool {
    forall|i: int, j: int| 0 <= i < rs.len() && 0 <= j < rs.len() && #[trigger] rs[i].run_id@ == #[trigger] rs[j].run_id@ ==> i == j
}

/// Why a schedule cannot be created: a blank name or prompt, or a thread
/// wakeup without a target thread.
pub open spec fn schedule_error(input: CreateAutomationScheduleInput) -> Option<AgentOsError> {
    if trimmed(input.name@).len() == 0 {
        Some(AgentOsError::Validation("automation schedule name must not be empty"))
    } else if trimmed(input.prompt@).len() == 0 {
        Some(AgentOsError::Validation("automation schedule prompt must not be empty"))
    } else if input.kind == AutomationScheduleKind::ThreadWakeup && input.target_thread_id is None {
        Some(AgentOsError::Validation("thread wakeup automation requires target_thread_id"))
    } else {
        None
    }
}

/// Two schedules that agree field by field.
pub open spec fn same_schedule(a: AutomationSchedule, b: AutomationSchedule) -> bool {
    &&& a == AutomationSchedule { payload: a.payload, ..b }
    &&& json_same(a.payload, b.payload)
}

/// Two runs that agree field by field.
pub open spec fn same_run(a: AutomationRun, b: AutomationRun) -> bool {
    &&& a == AutomationRun { payload: a.payload, ..b }
    &&& json_same(a.payload, b.payload)
}

/// The run that schedule `s` queues for `scheduled_for` under id `id` at
/// `now`, but for its payload, which copies the schedule's.
pub open spec fn queued_run(r: AutomationRun, s: AutomationSchedule, id: String, scheduled_for: String, now: String) -> bool {
    &&& r == (AutomationRun {
        run_id: id,
        schedule_id: s.schedule_id,
        kind: s.kind,
        status: AutomationRunStatus::Queued,
        target_thread_id: s.target_thread_id,
        workspace: s.workspace,
        prompt: s.prompt,
        scheduled_for,
        queued_at: now,
        started_at: None,
        completed_at: None,
        error: None,
        payload: r.payload,
    })
    &&& json_same(s.payload, r.payload)
}

/// A schedule that has fired for `scheduled_for` at `now`, its next run
/// `next` (when it repeats).
pub open spec fn rescheduled(s: AutomationSchedule, scheduled_for: String, next: Option<String>, now: String) -> AutomationSchedule {
    AutomationSchedule { last_run_at: Some(scheduled_for), next_run_at: next, updated_at: now, ..s }
}

fn copy_opt(o: &Option<String>) -> (r: Option<String>)
    ensures
        r == *o,
{
    match o {
        Some(s) => Some(s.clone()),
        None => None,
    }
}

impl AutomationSchedule {
    /// A copy of this schedule.
    pub fn duplicate(&self) -> (r: AutomationSchedule)
        ensures
            same_schedule(*self, r),
    {
        AutomationSchedule {
            schedule_id: self.schedule_id.clone(),
            name: self.name.clone(),
            kind: self.kind,
            status: self.status,
            target_thread_id: copy_opt(&self.target_thread_id),
            workspace: copy_opt(&self.workspace),
            prompt: self.prompt.clone(),
            next_run_at: copy_opt(&self.next_run_at),
            interval_seconds: self.interval_seconds,
            created_by_client_id: self.created_by_client_id.clone(),
            created_at: self.created_at.clone(),
            updated_at: self.updated_at.clone(),
            last_run_at: copy_opt(&self.last_run_at),
            payload: self.payload.duplicate(),
        }
    }
}

impl AutomationRun {
    /// A copy of this run.
    pub fn duplicate(&self) -> (r: AutomationRun)
        ensures
            same_run(*self, r),
    {
        AutomationRun {
            run_id: self.run_id.clone(),
            schedule_id: self.schedule_id.clone(),
            kind: self.kind,
            status: self.status,
            target_thread_id: copy_opt(&self.target_thread_id),
            workspace: copy_opt(&self.workspace),
            prompt: self.prompt.clone(),
            scheduled_for: self.scheduled_for.clone(),
            queued_at: self.queued_at.clone(),
            started_at: copy_opt(&self.started_at),
            completed_at: copy_opt(&self.completed_at),
            error: copy_opt(&self.error),
            payload: self.payload.duplicate(),
        }
    }
}

/// Schedule `s` is due at instant `now_nanos`: it is active, has a next
/// run time, and that time is not after `now_nanos`.
pub open spec fn is_due(s: AutomationSchedule, now_nanos: i128) -> bool {
    &&& s.status == AutomationScheduleStatus::Active
    &&& s.next_run_at matches Some(t) && rfc3339_parsed(t@) matches Some(p) && p.0 <= now_nanos
}

/// A schedule whose next run time cannot be read.
pub open spec fn unreadable(s: AutomationSchedule) -> bool {
    &&& s.status == AutomationScheduleStatus::Active
    &&& s.next_run_at matches Some(t) && rfc3339_parsed(t@) is None
}

impl KernelState {
    /// The position of schedule `id`, if any.
    pub fn find_schedule(&self, id: &str) -> (r: Option<usize>)
        requires
            schedule_ids_unique(self.automation_schedules@),
        ensures
            r.is_none() <==> !has_schedule(self.automation_schedules@, id@),
            r matches Some(i) ==> i == schedule_pos(self.automation_schedules@, id@) && i < self.automation_schedules@.len(),
    {
        let mut i: usize = 0;
        while i < self.automation_schedules.len()
            invariant
                i <= self.automation_schedules@.len(),
                schedule_ids_unique(self.automation_schedules@),
                forall|j: int| 0 <= j < i ==> self.automation_schedules@[j].schedule_id@ != id@,
            decreases self.automation_schedules@.len() - i,
        {
            if str_eq(self.automation_schedules[i].schedule_id.as_str(), id) {
                proof {
                    let k = schedule_pos(self.automation_schedules@, id@);
                    assert(self.automation_schedules@[k].schedule_id@ == self.automation_schedules@[i as int].schedule_id@);
                }
                return Some(i);
            }
            i = i + 1;
        }
        None
    }

    /// Creates schedule `input` under id `schedule_id` at `now`, active, as
    /// `schedule_error` allows.
    pub fn create_automation_schedule(&mut self, input: CreateAutomationScheduleInput, schedule_id: String, now: String) -> (r: Result<
        AutomationSchedule,
        AgentOsError,
    >)
        requires
            old(self).wf(),
            !has_schedule(old(self).automation_schedules@, schedule_id@),
        ensures
            final(self).wf(),
            match schedule_error(input) {
                Some(e) => r == Err::<AutomationSchedule, AgentOsError>(e) && *final(self) == *old(self),
                None => r matches Ok(v) && {
                    let s = final(self).automation_schedules@.last();
                    &&& s == (AutomationSchedule {
                        schedule_id,
                        name: input.name,
                        kind: input.kind,
                        status: AutomationScheduleStatus::Active,
                        target_thread_id: input.target_thread_id,
                        workspace: input.workspace,
                        prompt: input.prompt,
                        next_run_at: input.next_run_at,
                        interval_seconds: input.interval_seconds,
                        created_by_client_id: input.created_by_client_id,
                        created_at: now,
                        updated_at: now,
                        last_run_at: None,
                        payload: s.payload,
                    })
                    &&& json_same(input.payload, s.payload)
                    &&& same_schedule(s, v)
                    &&& final(self).automation_schedules@ == old(self).automation_schedules@.push(s)
                    &&& *final(self) == (KernelState { automation_schedules: final(self).automation_schedules, ..*old(self) })
                },
            },
    {
        if is_blank(input.name.as_str()) {
            return Err(AgentOsError::Validation("automation schedule name must not be empty"));
        }
        if is_blank(input.prompt.as_str()) {
            return Err(AgentOsError::Validation("automation schedule prompt must not be empty"));
        }
        if input.kind == AutomationScheduleKind::ThreadWakeup && input.target_thread_id.is_none() {
            return Err(AgentOsError::Validation("thread wakeup automation requires target_thread_id"));
        }
        let schedule = AutomationSchedule {
            schedule_id,
            name: input.name,
            kind: input.kind,
            status: AutomationScheduleStatus::Active,
            target_thread_id: input.target_thread_id,
            workspace: input.workspace,
            prompt: input.prompt,
            next_run_at: input.next_run_at,
            interval_seconds: input.interval_seconds,
            created_by_client_id: input.created_by_client_id,
            created_at: now.clone(),
            updated_at: now,
            last_run_at: None,
            payload: input.payload,
        };
        proof {
            crate::json::lemma_json_same_refl(schedule.payload);
        }
        let out = schedule.duplicate();
        let ghost before = self.automation_schedules@;
        self.automation_schedules.push(schedule);
        proof {
            assert forall|a: int, b: int|
                0 <= a < self.automation_schedules@.len() && 0 <= b < self.automation_schedules@.len()
                    && #[trigger] self.automation_schedules@[a].schedule_id@ == #[trigger] self.automation_schedules@[b].schedule_id@
                implies a == b by {
                if a < before.len() {
                    assert(self.automation_schedules@[a] == before[a]);
                }
                if b < before.len() {
                    assert(self.automation_schedules@[b] == before[b]);
                }
            }
        }
        Ok(out)
    }

    /// Queues a run of schedule `schedule_id` for `scheduled_for` under id
    /// `run_id` at `now`. An unknown schedule is `NotFound`; one that is not
    /// active is an `InvalidTransition`. The run is queued; then the
    /// schedule records `scheduled_for` as its last run and, when it
    /// repeats, the next run one interval later. When that next time
    /// cannot be computed the run stays queued, the schedule is left as it
    /// was, and the error is `next_interval_error`.
    pub fn queue_automation_run(&mut self, schedule_id: &str, scheduled_for: String, run_id: String, now: String) -> (r: Result<
        AutomationRun,
        AgentOsError,
    >)
        requires
            old(self).wf(),
            !has_run(old(self).automation_runs@, run_id@),
        ensures
            final(self).wf(),
            !has_schedule(old(self).automation_schedules@, schedule_id@) ==> r == Err::<AutomationRun, AgentOsError>(
                AgentOsError::NotFound("automation schedule"),
            ) && *final(self) == *old(self),
            has_schedule(old(self).automation_schedules@, schedule_id@) ==> {
                let k = schedule_pos(old(self).automation_schedules@, schedule_id@);
                let s = old(self).automation_schedules@[k];
                if s.status != AutomationScheduleStatus::Active {
                    r == Err::<AutomationRun, AgentOsError>(AgentOsError::InvalidTransition("automation schedule is not active"))
                        && *final(self) == *old(self)
                } else {
                    let run = final(self).automation_runs@.last();
                    &&& queued_run(run, s, run_id, scheduled_for, now)
                    &&& final(self).automation_runs@ == old(self).automation_runs@.push(run)
                    &&& match s.interval_seconds {
                        Some(n) if next_interval_text(scheduled_for@, n) is None => {
                            &&& r == Err::<AutomationRun, AgentOsError>(next_interval_error(scheduled_for@, n))
                            &&& *final(self) == (KernelState { automation_runs: final(self).automation_runs, ..*old(self) })
                        },
                        _ => {
                            let updated = final(self).automation_schedules@[k];
                            &&& r matches Ok(v) && same_run(run, v)
                            &&& updated == rescheduled(s, scheduled_for, updated.next_run_at, now)
                            &&& match s.interval_seconds {
                                Some(n) => updated.next_run_at matches Some(t) && next_interval_text(scheduled_for@, n) == Some(t@),
                                None => updated.next_run_at is None,
                            }
                            &&& final(self).automation_schedules@ == old(self).automation_schedules@.update(k, updated)
                            &&& *final(self) == (KernelState {
                                automation_runs: final(self).automation_runs,
                                automation_schedules: final(self).automation_schedules,
                                ..*old(self)
                            })
                        },
                    }
                }
            },
    {
        let k = match self.find_schedule(schedule_id) {
            None => return Err(AgentOsError::NotFound("automation schedule")),
            Some(k) => k,
        };
        if self.automation_schedules[k].status != AutomationScheduleStatus::Active {
            return Err(AgentOsError::InvalidTransition("automation schedule is not active"));
        }
        let s = &self.automation_schedules[k];
        let run = AutomationRun {
            run_id,
            schedule_id: s.schedule_id.clone(),
            kind: s.kind,
            status: AutomationRunStatus::Queued,
            target_thread_id: copy_opt(&s.target_thread_id),
            workspace: copy_opt(&s.workspace),
            prompt: s.prompt.clone(),
            scheduled_for: scheduled_for.clone(),
            queued_at: now.clone(),
            started_at: None,
            completed_at: None,
            error: None,
            payload: s.payload.duplicate(),
        };
        let interval = s.interval_seconds;
        proof {
            crate::json::lemma_json_same_refl(run.payload);
        }
        let out = run.duplicate();
        let ghost before_runs = self.automation_runs@;
        self.automation_runs.push(run);
        proof {
            assert forall|a: int, b: int|
                0 <= a < self.automation_runs@.len() && 0 <= b < self.automation_runs@.len()
                    && #[trigger] self.automation_runs@[a].run_id@ == #[trigger] self.automation_runs@[b].run_id@
                implies a == b by {
                if a < before_runs.len() {
                    assert(self.automation_runs@[a] == before_runs[a]);
                }
                if b < before_runs.len() {
                    assert(self.automation_runs@[b] == before_runs[b]);
                }
            }
        }
        let next = match interval {
            Some(n) => match next_interval_timestamp(scheduled_for.as_str(), n) {
                Err(e) => return Err(e),
                Ok(t) => Some(t),
            },
            None => None,
        };
        let ghost mid = *self;
        let mut updated = self.automation_schedules.remove(k);
        updated.last_run_at = Some(scheduled_for);
        updated.next_run_at = next;
        updated.updated_at = now;
        self.automation_schedules.insert(k, updated);
        proof {
            assert(self.automation_schedules@ =~= mid.automation_schedules@.update(k as int, updated));
            assert forall|a: int, b: int|
                0 <= a < self.automation_schedules@.len() && 0 <= b < self.automation_schedules@.len()
                    && #[trigger] self.automation_schedules@[a].schedule_id@ == #[trigger] self.automation_schedules@[b].schedule_id@
                implies a == b by {
                assert(self.automation_schedules@[a].schedule_id@ == mid.automation_schedules@[a].schedule_id@);
                assert(self.automation_schedules@[b].schedule_id@ == mid.automation_schedules@[b].schedule_id@);
            }
        }
        Ok(out)
    }

    /// The schedules due at `now`, in store order: active ones whose next
    /// run time is not after `now`. A `now` that is not RFC 3339 is refused
    /// (`Validation`); so is an active schedule whose next run time cannot
    /// be read, when no earlier schedule failed.
    pub fn due_automation_schedules(&self, now: &str) -> (r: Result<Vec<usize>, AgentOsError>)
        ensures
            rfc3339_parsed(now@) is None ==> r == Err::<Vec<usize>, AgentOsError>(AgentOsError::Validation("invalid scheduler clock")),
            rfc3339_parsed(now@) matches Some(p) ==> {
                let ss = self.automation_schedules@;
                if exists|i: int| 0 <= i < ss.len() && #[trigger] unreadable(ss[i]) {
                    r == Err::<Vec<usize>, AgentOsError>(AgentOsError::Validation("invalid automation next_run_at"))
                } else {
                    r matches Ok(v) && {
                        &&& forall|i: int, j: int| 0 <= i < j < v@.len() ==> #[trigger] v@[i] < #[trigger] v@[j]
                        &&& forall|i: int| 0 <= i < v@.len() ==> #[trigger] v@[i] < ss.len() && is_due(ss[v@[i] as int], p.0)
                        &&& forall|k: int| 0 <= k < ss.len() && #[trigger] is_due(ss[k], p.0) ==> exists|i: int| 0 <= i < v@.len() && v@[i] == k
                    }
                }
            },
    {
        let now_instant = match parse_rfc3339(now) {
            None => return Err(AgentOsError::Validation("invalid scheduler clock")),
            Some((n, _)) => n,
        };
        let ss = &self.automation_schedules;
        let mut out: Vec<usize> = Vec::new();
        let mut i: usize = 0;
        while i < ss.len()
            invariant
                ss@ == self.automation_schedules@,
                i <= ss@.len(),
                rfc3339_parsed(now@) matches Some(p) && p.0 == now_instant,
                forall|q: int| 0 <= q < i ==> !unreadable(#[trigger] ss@[q]),
                forall|a: int, b: int| 0 <= a < b < out@.len() ==> #[trigger] out@[a] < #[trigger] out@[b],
                forall|a: int| 0 <= a < out@.len() ==> #[trigger] out@[a] < i && is_due(ss@[out@[a] as int], now_instant),
                forall|q: int| 0 <= q < i && #[trigger] is_due(ss@[q], now_instant) ==> exists|a: int| 0 <= a < out@.len() && out@[a] == q,
            decreases ss@.len() - i,
        {
            if ss[i].status == AutomationScheduleStatus::Active {
                if let Some(t) = &ss[i].next_run_at {
                    let due = match parse_rfc3339(t.as_str()) {
                        None => {
                            assert(unreadable(ss@[i as int]));
                            assert(exists|q: int| 0 <= q < self.automation_schedules@.len() && #[trigger] unreadable(
                                self.automation_schedules@[q],
                            ));
                            return Err(AgentOsError::Validation("invalid automation next_run_at"));
                        },
                        Some((d, _)) => d,
                    };
                    if due <= now_instant {
                        let ghost before = out@;
                        out.push(i);
                        proof {
                            assert forall|q: int| 0 <= q < i + 1 && #[trigger] is_due(ss@[q], now_instant) implies exists|a: int|
                                0 <= a < out@.len() && out@[a] == q by {
                                if q == i {
                                    assert(out@[before.len() as int] == q);
                                } else {
                                    let a = choose|a: int| 0 <= a < before.len() && before[a] == q;
                                    assert(out@[a] == q);
                                }
                            }
                        }
                    }
                }
            }
            i = i + 1;
        }
        Ok(out)
    }
}

} // verus!
