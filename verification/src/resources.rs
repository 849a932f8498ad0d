//! Resource leases, environment attachments and budget ledgers.
use vstd::prelude::*;
use crate::text::str_eq;
use crate::error::AgentOsError;
use crate::lifecycle::copy_opt_string;
use crate::state::{KernelState, ResourceLease, ResourceType, LeaseMode, ResourceLeaseStatus,
    EnvironmentLease, EnvironmentLeaseStatus, EnvironmentStatus, AttachMode, BudgetLedger, BudgetScope, BudgetStatus,
    resource_leases_clash, resource_leases_exclusive, environment_leases_clash, environment_leases_exclusive,
    has_lease, lease_pos, lease_ids_unique, has_environment, environment_pos, has_env_lease, env_lease_pos,
    env_lease_ids_unique, has_ledger, ledger_pos, ledger_ids_unique};

verus! {

impl ResourceLease {
    /// A copy of this lease.
    pub fn duplicate(&self) -> (r: ResourceLease)
        ensures
            r == *self,
    {
        ResourceLease {
            resource_lease_id: self.resource_lease_id.clone(),
            resource_type: self.resource_type,
            resource_id: self.resource_id.clone(),
            owner_agent_id: self.owner_agent_id.clone(),
            thread_id: self.thread_id.clone(),
            goal_id: self.goal_id.clone(),
            task_id: self.task_id.clone(),
            mode: self.mode,
            status: self.status,
            reason: copy_opt_string(&self.reason),
            lease_expires_at: copy_opt_string(&self.lease_expires_at),
            created_at: self.created_at.clone(),
            released_at: copy_opt_string(&self.released_at),
        }
    }
}

impl EnvironmentLease {
    /// A copy of this attachment.
    pub fn duplicate(&self) -> (r: EnvironmentLease)
        ensures
            r == *self,
    {
        EnvironmentLease {
            environment_lease_id: self.environment_lease_id.clone(),
            environment_id: self.environment_id.clone(),
            agent_id: self.agent_id.clone(),
            thread_id: self.thread_id.clone(),
            task_id: self.task_id.clone(),
            attach_mode: self.attach_mode,
            status: self.status,
            started_at: self.started_at.clone(),
            expires_at: copy_opt_string(&self.expires_at),
            released_at: copy_opt_string(&self.released_at),
        }
    }
}

impl BudgetLedger {
    /// A copy of this ledger.
    pub fn duplicate(&self) -> (r: BudgetLedger)
        ensures
            r == *self,
    {
        BudgetLedger {
            budget_ledger_id: self.budget_ledger_id.clone(),
            scope_type: self.scope_type,
            scope_id: self.scope_id.clone(),
            status: self.status,
            token_limit: self.token_limit,
            tool_call_limit: self.tool_call_limit,
            wall_time_limit_ms: self.wall_time_limit_ms,
            cost_limit_micros: self.cost_limit_micros,
            human_interrupt_limit: self.human_interrupt_limit,
            model_request_limit: self.model_request_limit,
            tokens_used: self.tokens_used,
            tool_calls_used: self.tool_calls_used,
            wall_time_used_ms: self.wall_time_used_ms,
            cost_used_micros: self.cost_used_micros,
            human_interrupts_used: self.human_interrupts_used,
            model_requests_used: self.model_requests_used,
            updated_at: self.updated_at.clone(),
        }
    }
}

/// A granted lease on the resource conflicts with a lease in `mode`.
pub open spec fn lease_conflicts(leases: Seq<ResourceLease>, resource_type: ResourceType, resource_id: Seq<char>, mode: LeaseMode) -> bool {
    exists|i: int|
        0 <= i < leases.len() && #[trigger] leases[i].resource_type == resource_type && leases[i].resource_id@ == resource_id
            && leases[i].status == ResourceLeaseStatus::Granted && (leases[i].mode == LeaseMode::Exclusive || mode
            == LeaseMode::Exclusive)
}

/// An active attachment to the environment conflicts with one in `mode`.
pub open spec fn attachment_conflicts(leases: Seq<EnvironmentLease>, environment_id: Seq<char>, mode: AttachMode) -> bool {
    exists|i: int|
        0 <= i < leases.len() && #[trigger] leases[i].environment_id@ == environment_id && leases[i].status
            == EnvironmentLeaseStatus::Active && (leases[i].attach_mode == AttachMode::Exclusive || mode
            == AttachMode::Exclusive)
}

/// Usage of one ledger after a debit.
pub struct BudgetDebit {
    pub tokens: u64,
    pub tool_calls: u64,
    pub wall_time_ms: u64,
    pub cost_micros: u64,
    pub human_interrupts: u64,
    pub model_requests: u64,
}

/// `used` is over the optional `limit`.
pub open spec fn over_limit(limit: Option<u64>, used: int) -> bool {
    match limit {
        Some(l) => used > l,
        None => false,
    }
}

/// A ledger whose usage exceeds one of its limits.
pub open spec fn ledger_over_limit(l: BudgetLedger) -> bool {
    ||| over_limit(l.token_limit, l.tokens_used as int)
    ||| over_limit(l.tool_call_limit, l.tool_calls_used as int)
    ||| over_limit(l.wall_time_limit_ms, l.wall_time_used_ms as int)
    ||| over_limit(l.cost_limit_micros, l.cost_used_micros as int)
    ||| over_limit(l.human_interrupt_limit, l.human_interrupts_used as int)
    ||| over_limit(l.model_request_limit, l.model_requests_used as int)
}

/// The debit fits the ledger's counters.
pub open spec fn debit_fits(l: BudgetLedger, d: BudgetDebit) -> bool {
    &&& l.tokens_used + d.tokens <= u64::MAX
    &&& l.tool_calls_used + d.tool_calls <= u64::MAX
    &&& l.wall_time_used_ms + d.wall_time_ms <= u64::MAX
    &&& l.cost_used_micros + d.cost_micros <= u64::MAX
    &&& l.human_interrupts_used + d.human_interrupts <= u64::MAX
    &&& l.model_requests_used + d.model_requests <= u64::MAX
}

/// `n` is `o` with the debit added to its usage, stamped `now`, exhausted when over a limit.
pub open spec fn debited(o: BudgetLedger, d: BudgetDebit, now: String, n: BudgetLedger) -> bool {
    &&& n.tokens_used == o.tokens_used + d.tokens
    &&& n.tool_calls_used == o.tool_calls_used + d.tool_calls
    &&& n.wall_time_used_ms == o.wall_time_used_ms + d.wall_time_ms
    &&& n.cost_used_micros == o.cost_used_micros + d.cost_micros
    &&& n.human_interrupts_used == o.human_interrupts_used + d.human_interrupts
    &&& n.model_requests_used == o.model_requests_used + d.model_requests
    &&& n.updated_at == now
    &&& n.status == (if ledger_over_limit(n) { BudgetStatus::Exhausted } else { o.status })
    &&& n.budget_ledger_id == o.budget_ledger_id
    &&& n.scope_type == o.scope_type
    &&& n.scope_id == o.scope_id
    &&& n.token_limit == o.token_limit
    &&& n.tool_call_limit == o.tool_call_limit
    &&& n.wall_time_limit_ms == o.wall_time_limit_ms
    &&& n.cost_limit_micros == o.cost_limit_micros
    &&& n.human_interrupt_limit == o.human_interrupt_limit
    &&& n.model_request_limit == o.model_request_limit
}

fn exceeds(limit: Option<u64>, used: u64) -> (r: bool)
    ensures
        r == over_limit(limit, used as int),
{
    match limit {
        Some(l) => used > l,
        None => false,
    }
}

impl KernelState {
    fn resource_lease_conflicts(&self, resource_type: ResourceType, resource_id: &str, mode: LeaseMode) -> (r: bool)
        ensures
            r == lease_conflicts(self.resource_leases@, resource_type, resource_id@, mode),
    {
        let mut i: usize = 0;
        while i < self.resource_leases.len()
            invariant
                i <= self.resource_leases@.len(),
                forall|j: int|
                    0 <= j < i ==> !(#[trigger] self.resource_leases@[j].resource_type == resource_type
                        && self.resource_leases@[j].resource_id@ == resource_id@ && self.resource_leases@[j].status
                        == ResourceLeaseStatus::Granted && (self.resource_leases@[j].mode == LeaseMode::Exclusive
                        || mode == LeaseMode::Exclusive)),
            decreases self.resource_leases@.len() - i,
        {
            let lease = &self.resource_leases[i];
            if lease.resource_type == resource_type && str_eq(lease.resource_id.as_str(), resource_id)
                && lease.status == ResourceLeaseStatus::Granted && (lease.mode == LeaseMode::Exclusive || mode
                == LeaseMode::Exclusive) {
                return true;
            }
            i = i + 1;
        }
        false
    }

    /// Requests a lease `resource_lease_id` (a fresh id) on a resource at
    /// time `now`. The request is recorded either way: as `Granted` when no
    /// granted lease on the same resource is exclusive and the request itself
    /// is not exclusive while another lease is granted, else as `Denied`, in
    /// which case the call answers `ResourceConflict`.
    pub fn request_resource_lease(
        &mut self,
        resource_type: ResourceType,
        resource_id: String,
        owner_agent_id: String,
        thread_id: String,
        goal_id: String,
        task_id: String,
        mode: LeaseMode,
        reason: Option<String>,
        resource_lease_id: String,
        now: String,
    ) -> (r: Result<ResourceLease, AgentOsError>)
        requires
            old(self).wf(),
            !has_lease(old(self).resource_leases@, resource_lease_id@),
        ensures
            final(self).wf(),
            ({
                let conflict = lease_conflicts(old(self).resource_leases@, resource_type, resource_id@, mode);
                &&& final(self).resource_leases@ == old(self).resource_leases@.push(ResourceLease {
                    resource_lease_id,
                    resource_type,
                    resource_id,
                    owner_agent_id,
                    thread_id,
                    goal_id,
                    task_id,
                    mode,
                    status: if conflict { ResourceLeaseStatus::Denied } else { ResourceLeaseStatus::Granted },
                    reason,
                    lease_expires_at: None,
                    created_at: now,
                    released_at: None,
                })
                &&& *final(self) == (KernelState { resource_leases: final(self).resource_leases, ..*old(self) })
                &&& r.is_err() <==> conflict
                &&& conflict ==> r == Err::<ResourceLease, AgentOsError>(AgentOsError::ResourceConflict("resource lease conflict resolved as denial"))
                &&& !conflict ==> r == Ok::<ResourceLease, AgentOsError>(final(self).resource_leases@.last())
            }),
    {
        let conflicting = self.resource_lease_conflicts(resource_type, resource_id.as_str(), mode);
        let lease = ResourceLease {
            resource_lease_id,
            resource_type,
            resource_id,
            owner_agent_id,
            thread_id,
            goal_id,
            task_id,
            mode,
            status: if conflicting { ResourceLeaseStatus::Denied } else { ResourceLeaseStatus::Granted },
            reason,
            lease_expires_at: None,
            created_at: now,
            released_at: None,
        };
        let result = lease.duplicate();
        let ghost before = self.resource_leases@;
        self.resource_leases.push(lease);
        proof {
            let leases = self.resource_leases@;
            let n = before.len() as int;
            assert forall|i: int, j: int|
                0 <= i < leases.len() && 0 <= j < leases.len() && i != j implies !resource_leases_clash(
                #[trigger] leases[i],
                #[trigger] leases[j],
            ) by {
                if i == n && !conflicting {
                    if resource_leases_clash(leases[i], leases[j]) {
                        assert(before[j].resource_type == resource_type);
                    }
                } else if j == n && !conflicting {
                    if resource_leases_clash(leases[i], leases[j]) {
                        assert(before[i].resource_type == resource_type);
                    }
                } else if i < n && j < n {
                    assert(leases[i] == before[i] && leases[j] == before[j]);
                }
            }
            assert forall|i: int, j: int|
                0 <= i < leases.len() && 0 <= j < leases.len() && #[trigger] leases[i].resource_lease_id@
                    == #[trigger] leases[j].resource_lease_id@ implies i == j by {
                if i < n && j == n {
                    assert(before[i].resource_lease_id@ == leases[n].resource_lease_id@);
                } else if j < n && i == n {
                    assert(before[j].resource_lease_id@ == leases[n].resource_lease_id@);
                }
            }
        }
        if conflicting {
            return Err(AgentOsError::ResourceConflict("resource lease conflict resolved as denial"));
        }
        Ok(result)
    }

    /// Releases the granted lease `resource_lease_id` at time `now`. An
    /// unknown lease is `NotFound`; one that is not granted is
    /// `InvalidTransition`.
    pub fn release_resource_lease(&mut self, resource_lease_id: &str, now: String) -> (r: Result<ResourceLease, AgentOsError>)
        requires
            old(self).wf(),
        ensures
            final(self).wf(),
            r.is_err() ==> *final(self) == *old(self),
            !has_lease(old(self).resource_leases@, resource_lease_id@) ==> r == Err::<ResourceLease, AgentOsError>(
                AgentOsError::NotFound("resource lease"),
            ),
            has_lease(old(self).resource_leases@, resource_lease_id@) ==> {
                let k = lease_pos(old(self).resource_leases@, resource_lease_id@);
                let l = old(self).resource_leases@[k];
                if l.status != ResourceLeaseStatus::Granted {
                    r == Err::<ResourceLease, AgentOsError>(AgentOsError::InvalidTransition("only granted resource leases can be released"))
                } else {
                    &&& final(self).resource_leases@ == old(self).resource_leases@.update(
                        k,
                        ResourceLease { status: ResourceLeaseStatus::Released, released_at: Some(now), ..l },
                    )
                    &&& r == Ok::<ResourceLease, AgentOsError>(final(self).resource_leases@[k])
                    &&& *final(self) == (KernelState { resource_leases: final(self).resource_leases, ..*old(self) })
                }
            },
    {
        let k = match self.find_resource_lease(resource_lease_id) {
            None => return Err(AgentOsError::NotFound("resource lease")),
            Some(k) => k,
        };
        if self.resource_leases[k].status != ResourceLeaseStatus::Granted {
            return Err(AgentOsError::InvalidTransition("only granted resource leases can be released"));
        }
        let ghost before = self.resource_leases@;
        let mut lease = self.resource_leases.remove(k);
        lease.status = ResourceLeaseStatus::Released;
        lease.released_at = Some(now);
        let result = lease.duplicate();
        self.resource_leases.insert(k, lease);
        proof {
            let leases = self.resource_leases@;
            assert(leases =~= before.update(k as int, leases[k as int]));
            assert forall|i: int, j: int|
                0 <= i < leases.len() && 0 <= j < leases.len() && i != j implies !resource_leases_clash(
                #[trigger] leases[i],
                #[trigger] leases[j],
            ) by {
                if i != k && j != k {
                    assert(leases[i] == before[i] && leases[j] == before[j]);
                }
            }
            assert forall|i: int, j: int|
                0 <= i < leases.len() && 0 <= j < leases.len() && #[trigger] leases[i].resource_lease_id@
                    == #[trigger] leases[j].resource_lease_id@ implies i == j by {
                assert(leases[i].resource_lease_id@ == before[i].resource_lease_id@);
                assert(leases[j].resource_lease_id@ == before[j].resource_lease_id@);
            }
        }
        Ok(result)
    }

    fn environment_attachment_conflicts(&self, environment_id: &str, mode: AttachMode) -> (r: bool)
        ensures
            r == attachment_conflicts(self.environment_leases@, environment_id@, mode),
    {
        let mut i: usize = 0;
        while i < self.environment_leases.len()
            invariant
                i <= self.environment_leases@.len(),
                forall|j: int|
                    0 <= j < i ==> !(#[trigger] self.environment_leases@[j].environment_id@ == environment_id@
                        && self.environment_leases@[j].status == EnvironmentLeaseStatus::Active
                        && (self.environment_leases@[j].attach_mode == AttachMode::Exclusive || mode
                        == AttachMode::Exclusive)),
            decreases self.environment_leases@.len() - i,
        {
            let lease = &self.environment_leases[i];
            if str_eq(lease.environment_id.as_str(), environment_id) && lease.status == EnvironmentLeaseStatus::Active
                && (lease.attach_mode == AttachMode::Exclusive || mode == AttachMode::Exclusive) {
                return true;
            }
            i = i + 1;
        }
        false
    }

    /// Attaches thread `thread_id` of agent `agent_id` to environment
    /// `environment_id` with lease `environment_lease_id` (a fresh id) at
    /// time `now`. An unknown environment is `NotFound`; one that is neither
    /// ready nor attached is `Validation`; an exclusive attachment beside
    /// another active one is `ResourceConflict`.
    pub fn attach_environment(
        &mut self,
        environment_id: &str,
        agent_id: String,
        thread_id: String,
        task_id: String,
        attach_mode: AttachMode,
        environment_lease_id: String,
        now: String,
    ) -> (r: Result<EnvironmentLease, AgentOsError>)
        requires
            old(self).wf(),
            !has_env_lease(old(self).environment_leases@, environment_lease_id@),
        ensures
            final(self).wf(),
            r.is_err() ==> *final(self) == *old(self),
            !has_environment(old(self).environments@, environment_id@) ==> r == Err::<EnvironmentLease, AgentOsError>(
                AgentOsError::NotFound("environment"),
            ),
            has_environment(old(self).environments@, environment_id@) ==> {
                let env = old(self).environments@[environment_pos(old(self).environments@, environment_id@)];
                if env.status != EnvironmentStatus::Ready && env.status != EnvironmentStatus::Attached {
                    r == Err::<EnvironmentLease, AgentOsError>(AgentOsError::Validation("environment is not attachable"))
                } else if attachment_conflicts(old(self).environment_leases@, environment_id@, attach_mode) {
                    r == Err::<EnvironmentLease, AgentOsError>(AgentOsError::ResourceConflict("exclusive environment lease conflict"))
                } else {
                    &&& final(self).environment_leases@ == old(self).environment_leases@.push(EnvironmentLease {
                        environment_lease_id,
                        environment_id: env.environment_id,
                        agent_id,
                        thread_id,
                        task_id,
                        attach_mode,
                        status: EnvironmentLeaseStatus::Active,
                        started_at: now,
                        expires_at: None,
                        released_at: None,
                    })
                    &&& r == Ok::<EnvironmentLease, AgentOsError>(final(self).environment_leases@.last())
                    &&& *final(self) == (KernelState { environment_leases: final(self).environment_leases, ..*old(self) })
                }
            },
    {
        let e = match self.find_environment(environment_id) {
            None => return Err(AgentOsError::NotFound("environment")),
            Some(e) => e,
        };
        let status = self.environments[e].status;
        if status != EnvironmentStatus::Ready && status != EnvironmentStatus::Attached {
            return Err(AgentOsError::Validation("environment is not attachable"));
        }
        if self.environment_attachment_conflicts(environment_id, attach_mode) {
            return Err(AgentOsError::ResourceConflict("exclusive environment lease conflict"));
        }
        let lease = EnvironmentLease {
            environment_lease_id,
            environment_id: self.environments[e].environment_id.clone(),
            agent_id,
            thread_id,
            task_id,
            attach_mode,
            status: EnvironmentLeaseStatus::Active,
            started_at: now,
            expires_at: None,
            released_at: None,
        };
        let result = lease.duplicate();
        let ghost before = self.environment_leases@;
        self.environment_leases.push(lease);
        proof {
            let leases = self.environment_leases@;
            let n = before.len() as int;
            assert forall|i: int, j: int|
                0 <= i < leases.len() && 0 <= j < leases.len() && i != j implies !environment_leases_clash(
                #[trigger] leases[i],
                #[trigger] leases[j],
            ) by {
                if i == n {
                    if environment_leases_clash(leases[i], leases[j]) {
                        assert(before[j].environment_id@ == environment_id@);
                    }
                } else if j == n {
                    if environment_leases_clash(leases[i], leases[j]) {
                        assert(before[i].environment_id@ == environment_id@);
                    }
                } else {
                    assert(leases[i] == before[i] && leases[j] == before[j]);
                }
            }
            assert forall|i: int, j: int|
                0 <= i < leases.len() && 0 <= j < leases.len() && #[trigger] leases[i].environment_lease_id@
                    == #[trigger] leases[j].environment_lease_id@ implies i == j by {
                if i < n && j == n {
                    assert(before[i].environment_lease_id@ == leases[n].environment_lease_id@);
                } else if j < n && i == n {
                    assert(before[j].environment_lease_id@ == leases[n].environment_lease_id@);
                }
            }
        }
        Ok(result)
    }

    /// Releases the active attachment `environment_lease_id` at time `now`.
    /// An unknown attachment is `NotFound`; one that is not active is
    /// `InvalidTransition`.
    pub fn release_environment_lease(&mut self, environment_lease_id: &str, now: String) -> (r: Result<EnvironmentLease, AgentOsError>)
        requires
            old(self).wf(),
        ensures
            final(self).wf(),
            r.is_err() ==> *final(self) == *old(self),
            !has_env_lease(old(self).environment_leases@, environment_lease_id@) ==> r == Err::<EnvironmentLease, AgentOsError>(
                AgentOsError::NotFound("environment lease"),
            ),
            has_env_lease(old(self).environment_leases@, environment_lease_id@) ==> {
                let k = env_lease_pos(old(self).environment_leases@, environment_lease_id@);
                let l = old(self).environment_leases@[k];
                if l.status != EnvironmentLeaseStatus::Active {
                    r == Err::<EnvironmentLease, AgentOsError>(AgentOsError::InvalidTransition("only active environment leases can be released"))
                } else {
                    &&& final(self).environment_leases@ == old(self).environment_leases@.update(
                        k,
                        EnvironmentLease { status: EnvironmentLeaseStatus::Released, released_at: Some(now), ..l },
                    )
                    &&& r == Ok::<EnvironmentLease, AgentOsError>(final(self).environment_leases@[k])
                    &&& *final(self) == (KernelState { environment_leases: final(self).environment_leases, ..*old(self) })
                }
            },
    {
        let k = match self.find_environment_lease(environment_lease_id) {
            None => return Err(AgentOsError::NotFound("environment lease")),
            Some(k) => k,
        };
        if self.environment_leases[k].status != EnvironmentLeaseStatus::Active {
            return Err(AgentOsError::InvalidTransition("only active environment leases can be released"));
        }
        let ghost before = self.environment_leases@;
        let mut lease = self.environment_leases.remove(k);
        lease.status = EnvironmentLeaseStatus::Released;
        lease.released_at = Some(now);
        let result = lease.duplicate();
        self.environment_leases.insert(k, lease);
        proof {
            let leases = self.environment_leases@;
            assert(leases =~= before.update(k as int, leases[k as int]));
            assert forall|i: int, j: int|
                0 <= i < leases.len() && 0 <= j < leases.len() && i != j implies !environment_leases_clash(
                #[trigger] leases[i],
                #[trigger] leases[j],
            ) by {
                if i != k && j != k {
                    assert(leases[i] == before[i] && leases[j] == before[j]);
                }
            }
            assert forall|i: int, j: int|
                0 <= i < leases.len() && 0 <= j < leases.len() && #[trigger] leases[i].environment_lease_id@
                    == #[trigger] leases[j].environment_lease_id@ implies i == j by {
                assert(leases[i].environment_lease_id@ == before[i].environment_lease_id@);
                assert(leases[j].environment_lease_id@ == before[j].environment_lease_id@);
            }
        }
        Ok(result)
    }

    /// Creates an active ledger `budget_ledger_id` (a fresh id) for the scope
    /// with the given limits and no usage, at time `now`.
    pub fn create_budget_ledger(
        &mut self,
        scope_type: BudgetScope,
        scope_id: String,
        token_limit: Option<u64>,
        tool_call_limit: Option<u64>,
        wall_time_limit_ms: Option<u64>,
        cost_limit_micros: Option<u64>,
        human_interrupt_limit: Option<u64>,
        model_request_limit: Option<u64>,
        budget_ledger_id: String,
        now: String,
    ) -> (r: BudgetLedger)
        requires
            old(self).wf(),
            !has_ledger(old(self).budget_ledgers@, budget_ledger_id@),
        ensures
            final(self).wf(),
            r == (BudgetLedger {
                budget_ledger_id,
                scope_type,
                scope_id,
                status: BudgetStatus::Active,
                token_limit,
                tool_call_limit,
                wall_time_limit_ms,
                cost_limit_micros,
                human_interrupt_limit,
                model_request_limit,
                tokens_used: 0,
                tool_calls_used: 0,
                wall_time_used_ms: 0,
                cost_used_micros: 0,
                human_interrupts_used: 0,
                model_requests_used: 0,
                updated_at: now,
            }),
            final(self).budget_ledgers@ == old(self).budget_ledgers@.push(r),
            *final(self) == (KernelState { budget_ledgers: final(self).budget_ledgers, ..*old(self) }),
    {
        let ledger = BudgetLedger {
            budget_ledger_id,
            scope_type,
            scope_id,
            status: BudgetStatus::Active,
            token_limit,
            tool_call_limit,
            wall_time_limit_ms,
            cost_limit_micros,
            human_interrupt_limit,
            model_request_limit,
            tokens_used: 0,
            tool_calls_used: 0,
            wall_time_used_ms: 0,
            cost_used_micros: 0,
            human_interrupts_used: 0,
            model_requests_used: 0,
            updated_at: now,
        };
        let result = ledger.duplicate();
        let ghost before = self.budget_ledgers@;
        self.budget_ledgers.push(ledger);
        proof {
            let ls = self.budget_ledgers@;
            let n = before.len() as int;
            assert forall|i: int, j: int|
                0 <= i < ls.len() && 0 <= j < ls.len() && #[trigger] ls[i].budget_ledger_id@
                    == #[trigger] ls[j].budget_ledger_id@ implies i == j by {
                if i < n && j == n {
                    assert(before[i].budget_ledger_id@ == ls[n].budget_ledger_id@);
                } else if j < n && i == n {
                    assert(before[j].budget_ledger_id@ == ls[n].budget_ledger_id@);
                }
            }
        }
        result
    }

    /// Debits ledger `budget_ledger_id` at time `now`. An unknown ledger is
    /// `NotFound`; one that is no longer active is `BudgetExhausted` and
    /// unchanged. Otherwise the usage grows by the debit and is recorded; when
    /// it now exceeds a limit the ledger becomes exhausted and the call
    /// answers `BudgetExhausted`.
    pub fn debit_budget(&mut self, budget_ledger_id: &str, debit: BudgetDebit, now: String) -> (r: Result<BudgetLedger, AgentOsError>)
        requires
            old(self).wf(),
            has_ledger(old(self).budget_ledgers@, budget_ledger_id@) ==> debit_fits(
                old(self).budget_ledgers@[ledger_pos(old(self).budget_ledgers@, budget_ledger_id@)],
                debit,
            ),
        ensures
            final(self).wf(),
            !has_ledger(old(self).budget_ledgers@, budget_ledger_id@) ==> r == Err::<BudgetLedger, AgentOsError>(
                AgentOsError::NotFound("budget ledger"),
            ) && *final(self) == *old(self),
            has_ledger(old(self).budget_ledgers@, budget_ledger_id@) ==> {
                let k = ledger_pos(old(self).budget_ledgers@, budget_ledger_id@);
                let l = old(self).budget_ledgers@[k];
                if l.status != BudgetStatus::Active {
                    r == Err::<BudgetLedger, AgentOsError>(AgentOsError::BudgetExhausted("budget ledger is not active"))
                        && *final(self) == *old(self)
                } else {
                    let n = final(self).budget_ledgers@[k];
                    &&& final(self).budget_ledgers@.len() == old(self).budget_ledgers@.len()
                    &&& final(self).budget_ledgers@ == old(self).budget_ledgers@.update(k, n)
                    &&& debited(l, debit, now, n)
                    &&& *final(self) == (KernelState { budget_ledgers: final(self).budget_ledgers, ..*old(self) })
                    &&& if ledger_over_limit(n) {
                        r == Err::<BudgetLedger, AgentOsError>(AgentOsError::BudgetExhausted("budget debit exhausted ledger"))
                    } else {
                        r == Ok::<BudgetLedger, AgentOsError>(n)
                    }
                }
            },
    {
        let k = match self.find_budget_ledger(budget_ledger_id) {
            None => return Err(AgentOsError::NotFound("budget ledger")),
            Some(k) => k,
        };
        if self.budget_ledgers[k].status != BudgetStatus::Active {
            return Err(AgentOsError::BudgetExhausted("budget ledger is not active"));
        }
        let ghost before = self.budget_ledgers@;
        let mut next = self.budget_ledgers.remove(k);
        next.tokens_used = next.tokens_used + debit.tokens;
        next.tool_calls_used = next.tool_calls_used + debit.tool_calls;
        next.wall_time_used_ms = next.wall_time_used_ms + debit.wall_time_ms;
        next.cost_used_micros = next.cost_used_micros + debit.cost_micros;
        next.human_interrupts_used = next.human_interrupts_used + debit.human_interrupts;
        next.model_requests_used = next.model_requests_used + debit.model_requests;
        next.updated_at = now;
        let exhausted = exceeds(next.token_limit, next.tokens_used) || exceeds(next.tool_call_limit, next.tool_calls_used)
            || exceeds(next.wall_time_limit_ms, next.wall_time_used_ms) || exceeds(
            next.cost_limit_micros,
            next.cost_used_micros,
        ) || exceeds(next.human_interrupt_limit, next.human_interrupts_used) || exceeds(
            next.model_request_limit,
            next.model_requests_used,
        );
        if exhausted {
            next.status = BudgetStatus::Exhausted;
        }
        let result = next.duplicate();
        self.budget_ledgers.insert(k, next);
        proof {
            let ls = self.budget_ledgers@;
            assert(ls =~= before.update(k as int, ls[k as int]));
            assert forall|i: int, j: int|
                0 <= i < ls.len() && 0 <= j < ls.len() && #[trigger] ls[i].budget_ledger_id@
                    == #[trigger] ls[j].budget_ledger_id@ implies i == j by {
                assert(ls[i].budget_ledger_id@ == before[i].budget_ledger_id@);
                assert(ls[j].budget_ledger_id@ == before[j].budget_ledger_id@);
            }
        }
        if exhausted {
            return Err(AgentOsError::BudgetExhausted("budget debit exhausted ledger"));
        }
        Ok(result)
    }
}

/// In a well-formed state an exclusive granted lease is the only granted
/// lease on its resource.
pub proof fn law_exclusive_lease_is_alone(state: KernelState, i: int, j: int)
    requires
        state.wf(),
        0 <= i < state.resource_leases@.len(),
        0 <= j < state.resource_leases@.len(),
        i != j,
        state.resource_leases@[i].status == ResourceLeaseStatus::Granted,
        state.resource_leases@[i].mode == LeaseMode::Exclusive,
        state.resource_leases@[j].status == ResourceLeaseStatus::Granted,
    ensures
        !(state.resource_leases@[j].resource_type == state.resource_leases@[i].resource_type
            && state.resource_leases@[j].resource_id@ == state.resource_leases@[i].resource_id@),
{
    assert(!resource_leases_clash(state.resource_leases@[i], state.resource_leases@[j]));
}

/// In a well-formed state an exclusive active attachment is the only active
/// attachment to its environment.
pub proof fn law_exclusive_attachment_is_alone(state: KernelState, i: int, j: int)
    requires
        state.wf(),
        0 <= i < state.environment_leases@.len(),
        0 <= j < state.environment_leases@.len(),
        i != j,
        state.environment_leases@[i].status == EnvironmentLeaseStatus::Active,
        state.environment_leases@[i].attach_mode == AttachMode::Exclusive,
        state.environment_leases@[j].status == EnvironmentLeaseStatus::Active,
    ensures
        state.environment_leases@[j].environment_id@ != state.environment_leases@[i].environment_id@,
{
    assert(!environment_leases_clash(state.environment_leases@[i], state.environment_leases@[j]));
}

} // verus!
