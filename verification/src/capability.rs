//! Granting capability tokens and authorizing syscalls against them.
use vstd::prelude::*;
use crate::text::{str_eq, copy_strings};
use crate::error::AgentOsError;
use crate::lifecycle::copy_opt_string;
use crate::scope::{texts, names_allow, scopes_allow, scope_keys, requested_scope_key, string_list_allows, scope_list_allows};
use crate::permissions::{PermissionView, effective_permissions, effective_permission_set_for_thread};
use crate::approval::{CapabilityToken, SyscallEnvelope, capability_approval_outcome, syscall_approval_outcome,
    validate_capability_approval, validate_syscall_approval};
use crate::state::{KernelState, has_agent, first_agent_thread, has_approval, approval_pos, has_capability, capability_pos,
    capability_ids_unique};

verus! {

/// Every name in `names` is admitted by the allow list `allowed`.
pub open spec fn all_names_admitted(allowed: Seq<Seq<char>>, names: Seq<Seq<char>>) -> bool {
    forall|i: int| 0 <= i < names.len() ==> names_allow(allowed, #[trigger] names[i])
}

/// Every scope in `scopes` is admitted by some pattern of `allowed`.
pub open spec fn all_scopes_admitted(allowed: Seq<Seq<char>>, scopes: Seq<Seq<char>>) -> bool {
    forall|i: int| 0 <= i < scopes.len() ==> scopes_allow(allowed, #[trigger] scopes[i])
}

/// The thread that runs agent `agent` (the first one, when several do).
pub open spec fn agent_thread_pos(state: KernelState, agent: Seq<char>) -> int {
    choose|i: int| first_agent_thread(state.threads@, agent, i)
}

/// The outcome of granting a capability.
pub open spec fn grant_outcome(
    state: KernelState,
    agent: Seq<char>,
    task: Seq<char>,
    syscalls: Seq<Seq<char>>,
    scopes: Seq<Seq<char>>,
    risk_ceiling: u8,
    approval_id: Option<Seq<char>>,
    now: i128,
) -> Result<(), AgentOsError> {
    if !has_agent(state.threads@, agent) {
        Err(AgentOsError::NotFound("agent"))
    } else {
        let t = state.threads@[agent_thread_pos(state, agent)];
        let p = effective_permissions(state.permission_grants@, t);
        if t.task_id@ != task {
            Err(AgentOsError::Validation("capability task does not match agent task"))
        } else if risk_ceiling > p.max_risk_level {
            Err(AgentOsError::PermissionDenied("capability exceeds effective permission risk ceiling"))
        } else if !all_names_admitted(p.allowed_syscalls, syscalls) {
            Err(AgentOsError::PermissionDenied("effective permissions do not allow syscall"))
        } else if !all_scopes_admitted(p.resource_scopes, scopes) {
            Err(AgentOsError::PermissionDenied("effective permissions do not allow resource scope"))
        } else if risk_ceiling > p.approval_required_above {
            match approval_id {
                None => Err(AgentOsError::ApprovalRequired(
                    "high-risk capability requires an approved bounded approval scope",
                )),
                Some(id) => if !has_approval(state.approvals@, id) {
                    Err(AgentOsError::NotFound("approval"))
                } else {
                    capability_approval_outcome(
                        state.approvals@[approval_pos(state.approvals@, id)],
                        syscalls,
                        risk_ceiling,
                        t.goal_id@,
                        task,
                        now,
                    )
                },
            }
        } else {
            Ok(())
        }
    }
}

/// The first requested scope that the token or the permissions refuse decides the error.
pub open spec fn scope_refusal(token: Seq<Seq<char>>, perm: Seq<Seq<char>>, req: Seq<Seq<char>>) -> Option<AgentOsError>
    decreases req.len(),
{
    if req.len() == 0 {
        None
    } else if !scopes_allow(token, req[0]) {
        Some(AgentOsError::PermissionDenied("capability does not allow resource scope"))
    } else if !scopes_allow(perm, req[0]) {
        Some(AgentOsError::PermissionDenied("effective permissions do not allow resource scope"))
    } else {
        scope_refusal(token, perm, req.drop_first())
    }
}

/// The outcome of authorizing a syscall.
pub open spec fn authorize_outcome(state: KernelState, s: SyscallEnvelope, now: i128) -> Result<(), AgentOsError> {
    match s.capability_token {
        None => Err(AgentOsError::PermissionDenied("syscall lacks capability context and is rejected by ABI")),
        Some(cap_id) => if !has_capability(state.capabilities@, cap_id@) {
            Err(AgentOsError::PermissionDenied("unknown capability token"))
        } else {
            let cap = state.capabilities@[capability_pos(state.capabilities@, cap_id@)];
            if cap.revoked_at.is_some() {
                Err(AgentOsError::PermissionDenied("capability token is revoked"))
            } else if cap.agent_id@ != s.agent_id@ || cap.task_id@ != s.task_id@ {
                Err(AgentOsError::PermissionDenied("capability token identity or task scope mismatch"))
            } else if !names_allow(texts(cap.syscalls@), s.syscall_type@) {
                Err(AgentOsError::PermissionDenied("capability does not allow syscall"))
            } else if s.risk_level > cap.risk_ceiling {
                Err(AgentOsError::PermissionDenied("syscall risk exceeds capability ceiling"))
            } else if !has_agent(state.threads@, s.agent_id@) {
                Err(AgentOsError::NotFound("agent"))
            } else {
                let t = state.threads@[agent_thread_pos(state, s.agent_id@)];
                let p = effective_permissions(state.permission_grants@, t);
                if !names_allow(p.allowed_syscalls, s.syscall_type@) {
                    Err(AgentOsError::PermissionDenied("effective permissions do not allow syscall"))
                } else if s.risk_level > p.max_risk_level {
                    Err(AgentOsError::PermissionDenied("syscall risk exceeds effective permission ceiling"))
                } else {
                    match scope_keys(s.resource_scope) {
                        None => Err(AgentOsError::Validation("resource scope is malformed")),
                        Some(req) => match scope_refusal(texts(cap.resource_scopes@), p.resource_scopes, req) {
                            Some(e) => Err(e),
                            None => if s.risk_level > p.approval_required_above {
                                match cap.approval_id {
                                    None => Err(AgentOsError::ApprovalRequired(
                                        "syscall risk requires approved bounded approval scope",
                                    )),
                                    Some(aid) => if !has_approval(state.approvals@, aid@) {
                                        Err(AgentOsError::NotFound("approval"))
                                    } else {
                                        syscall_approval_outcome(
                                            state.approvals@[approval_pos(state.approvals@, aid@)],
                                            s,
                                            t.goal_id@,
                                            now,
                                        )
                                    },
                                }
                            } else {
                                Ok(())
                            },
                        },
                    }
                }
            }
        }
    }
}

fn names_admitted(allowed: &Vec<String>, names: &Vec<String>) -> (r: bool)
    ensures
        r == all_names_admitted(texts(allowed@), texts(names@)),
{
    let mut i: usize = 0;
    while i < names.len()
        invariant
            i <= names@.len(),
            forall|j: int| 0 <= j < i ==> names_allow(texts(allowed@), #[trigger] texts(names@)[j]),
        decreases names@.len() - i,
    {
        assert(texts(names@)[i as int] == names@[i as int]@);
        if !string_list_allows(allowed.as_slice(), names[i].as_str()) {
            return false;
        }
        i = i + 1;
    }
    true
}

fn scopes_admitted(allowed: &Vec<String>, scopes: &Vec<String>) -> (r: bool)
    ensures
        r == all_scopes_admitted(texts(allowed@), texts(scopes@)),
{
    let mut i: usize = 0;
    while i < scopes.len()
        invariant
            i <= scopes@.len(),
            forall|j: int| 0 <= j < i ==> scopes_allow(texts(allowed@), #[trigger] texts(scopes@)[j]),
        decreases scopes@.len() - i,
    {
        assert(texts(scopes@)[i as int] == scopes@[i as int]@);
        if !scope_list_allows(allowed.as_slice(), scopes[i].as_str()) {
            return false;
        }
        i = i + 1;
    }
    true
}

fn first_scope_refusal(token: &Vec<String>, perm: &Vec<String>, req: &Vec<String>) -> (r: Option<AgentOsError>)
    ensures
        r == scope_refusal(texts(token@), texts(perm@), texts(req@)),
{
    let mut i: usize = 0;
    assert(texts(req@).subrange(0, req@.len() as int) =~= texts(req@));
    while i < req.len()
        invariant
            i <= req@.len(),
            scope_refusal(texts(token@), texts(perm@), texts(req@)) == scope_refusal(
                texts(token@),
                texts(perm@),
                texts(req@).subrange(i as int, req@.len() as int),
            ),
        decreases req@.len() - i,
    {
        let ghost rest = texts(req@).subrange(i as int, req@.len() as int);
        assert(rest[0] == req@[i as int]@);
        if !scope_list_allows(token.as_slice(), req[i].as_str()) {
            return Some(AgentOsError::PermissionDenied("capability does not allow resource scope"));
        }
        if !scope_list_allows(perm.as_slice(), req[i].as_str()) {
            return Some(AgentOsError::PermissionDenied("effective permissions do not allow resource scope"));
        }
        assert(rest.drop_first() =~= texts(req@).subrange(i + 1, req@.len() as int));
        i = i + 1;
    }
    assert(texts(req@).subrange(i as int, req@.len() as int) =~= Seq::<Seq<char>>::empty());
    None
}

/// Two tokens hold the same values.
pub open spec fn same_token(a: CapabilityToken, b: CapabilityToken) -> bool {
    &&& a.capability_id == b.capability_id
    &&& a.agent_id == b.agent_id
    &&& a.task_id == b.task_id
    &&& a.role == b.role
    &&& a.syscalls@ == b.syscalls@
    &&& a.resource_scopes@ == b.resource_scopes@
    &&& a.risk_ceiling == b.risk_ceiling
    &&& a.approval_id == b.approval_id
    &&& a.created_at == b.created_at
    &&& a.revoked_at == b.revoked_at
}

impl CapabilityToken {
    /// A copy of this token.
    pub fn duplicate(&self) -> (r: CapabilityToken)
        ensures
            same_token(r, *self),
    {
        CapabilityToken {
            capability_id: self.capability_id.clone(),
            agent_id: self.agent_id.clone(),
            task_id: self.task_id.clone(),
            role: self.role.clone(),
            syscalls: copy_strings(&self.syscalls),
            resource_scopes: copy_strings(&self.resource_scopes),
            risk_ceiling: self.risk_ceiling,
            approval_id: copy_opt_string(&self.approval_id),
            created_at: self.created_at.clone(),
            revoked_at: copy_opt_string(&self.revoked_at),
        }
    }
}

impl KernelState {
    fn check_grant(
        &self,
        agent_id: &str,
        task_id: &str,
        syscalls: &Vec<String>,
        resource_scopes: &Vec<String>,
        risk_ceiling: u8,
        approval_id: &Option<String>,
        now_unix_nanos: i128,
    ) -> (r: Result<usize, AgentOsError>)
        requires
            self.wf(),
        ensures
            r.is_ok() <==> grant_outcome(*self, agent_id@, task_id@, texts(syscalls@), texts(resource_scopes@), risk_ceiling, crate::permissions::opt_text(*approval_id), now_unix_nanos).is_ok(),
            r matches Err(e) ==> grant_outcome(*self, agent_id@, task_id@, texts(syscalls@), texts(resource_scopes@), risk_ceiling, crate::permissions::opt_text(*approval_id), now_unix_nanos) == Err::<(), AgentOsError>(e),
            r matches Ok(k) ==> k == agent_thread_pos(*self, agent_id@) && k < self.threads@.len(),
    {
        let k = match self.find_agent_thread(agent_id) {
            None => return Err(AgentOsError::NotFound("agent")),
            Some(k) => k,
        };
        proof {
            let p = agent_thread_pos(*self, agent_id@);
            assert(first_agent_thread(self.threads@, agent_id@, k as int));
            if p != k {
                if p < k {
                    assert(self.threads@[p].agent_id@ != agent_id@);
                } else {
                    assert(self.threads@[k as int].agent_id@ != agent_id@);
                }
            }
        }
        let thread = &self.threads[k];
        if !str_eq(thread.task_id.as_str(), task_id) {
            return Err(AgentOsError::Validation("capability task does not match agent task"));
        }
        let permission = effective_permission_set_for_thread(&self.permission_grants, thread);
        if risk_ceiling > permission.max_risk_level {
            return Err(AgentOsError::PermissionDenied("capability exceeds effective permission risk ceiling"));
        }
        if !names_admitted(&permission.allowed_syscalls, syscalls) {
            return Err(AgentOsError::PermissionDenied("effective permissions do not allow syscall"));
        }
        if !scopes_admitted(&permission.resource_scopes, resource_scopes) {
            return Err(AgentOsError::PermissionDenied("effective permissions do not allow resource scope"));
        }
        if risk_ceiling > permission.approval_required_above {
            let id = match approval_id {
                None => return Err(AgentOsError::ApprovalRequired("high-risk capability requires an approved bounded approval scope")),
                Some(id) => id,
            };
            let a = match self.find_approval(id.as_str()) {
                None => return Err(AgentOsError::NotFound("approval")),
                Some(a) => a,
            };
            match validate_capability_approval(&self.approvals[a], syscalls, risk_ceiling, thread.goal_id.as_str(), task_id, now_unix_nanos) {
                Err(e) => return Err(e),
                Ok(()) => {},
            }
        }
        Ok(k)
    }

    /// Grants agent `agent_id` a capability `capability_id` (a fresh id) for
    /// task `task_id` at time `now` (`now_unix_nanos` in Unix nanoseconds).
    /// The capability must stay within the agent thread's effective
    /// permissions; above their approval threshold it needs an approval that
    /// covers it. The token carries the thread's role.
    pub fn grant_capability(
        &mut self,
        agent_id: &str,
        task_id: &str,
        syscalls: Vec<String>,
        resource_scopes: Vec<String>,
        risk_ceiling: u8,
        approval_id: Option<String>,
        capability_id: String,
        now: String,
        now_unix_nanos: i128,
    ) -> (r: Result<CapabilityToken, AgentOsError>)
        requires
            old(self).wf(),
            !has_capability(old(self).capabilities@, capability_id@),
        ensures
            final(self).wf(),
            ({
                let outcome = grant_outcome(*old(self), agent_id@, task_id@, texts(syscalls@), texts(resource_scopes@), risk_ceiling, crate::permissions::opt_text(approval_id), now_unix_nanos);
                match outcome {
                    Err(e) => r == Err::<CapabilityToken, AgentOsError>(e) && *final(self) == *old(self),
                    Ok(()) => {
                        let t = old(self).threads@[agent_thread_pos(*old(self), agent_id@)];
                        let n = old(self).capabilities@.len() as int;
                        &&& final(self).capabilities@.len() == n + 1
                        &&& final(self).capabilities@.subrange(0, n) == old(self).capabilities@
                        &&& same_token(final(self).capabilities@[n], CapabilityToken {
                            capability_id,
                            agent_id: final(self).capabilities@[n].agent_id,
                            task_id: final(self).capabilities@[n].task_id,
                            role: t.role,
                            syscalls,
                            resource_scopes,
                            risk_ceiling,
                            approval_id,
                            created_at: now,
                            revoked_at: None,
                        })
                        &&& final(self).capabilities@[n].agent_id@ == agent_id@
                        &&& final(self).capabilities@[n].task_id@ == task_id@
                        &&& r matches Ok(tok) && same_token(tok, final(self).capabilities@[n])
                        &&& *final(self) == (KernelState { capabilities: final(self).capabilities, ..*old(self) })
                    },
                }
            }),
    {
        let k = match self.check_grant(agent_id, task_id, &syscalls, &resource_scopes, risk_ceiling, &approval_id, now_unix_nanos) {
            Err(e) => return Err(e),
            Ok(k) => k,
        };
        let token = CapabilityToken {
            capability_id,
            agent_id: String::from_str(agent_id),
            task_id: String::from_str(task_id),
            role: self.threads[k].role.clone(),
            syscalls,
            resource_scopes,
            risk_ceiling,
            approval_id,
            created_at: now,
            revoked_at: None,
        };
        let result = token.duplicate();
        let ghost before = self.capabilities@;
        self.capabilities.push(token);
        proof {
            let caps = self.capabilities@;
            let n = before.len() as int;
            assert(caps.subrange(0, n) =~= before);
            assert forall|i: int, j: int|
                0 <= i < caps.len() && 0 <= j < caps.len() && #[trigger] caps[i].capability_id@
                    == #[trigger] caps[j].capability_id@ implies i == j by {
                if i < n && j == n {
                    assert(before[i].capability_id@ == caps[n].capability_id@);
                } else if j < n && i == n {
                    assert(before[j].capability_id@ == caps[n].capability_id@);
                }
            }
        }
        Ok(result)
    }

    /// Decides whether a syscall may proceed at time `now_unix_nanos`: it
    /// needs a live token for its own agent and task that allows its type,
    /// risk and resource scopes; the agent thread's effective permissions must
    /// allow the same; above the approval threshold the token's approval must
    /// cover the syscall. Never changes state.
    pub fn authorize(&self, syscall: &SyscallEnvelope, now_unix_nanos: i128) -> (r: Result<(), AgentOsError>)
        requires
            self.wf(),
        ensures
            r == authorize_outcome(*self, *syscall, now_unix_nanos),
    {
        let capability_id = match &syscall.capability_token {
            None => return Err(AgentOsError::PermissionDenied("syscall lacks capability context and is rejected by ABI")),
            Some(c) => c,
        };
        let c = match self.find_capability(capability_id.as_str()) {
            None => return Err(AgentOsError::PermissionDenied("unknown capability token")),
            Some(c) => c,
        };
        let cap = &self.capabilities[c];
        if cap.revoked_at.is_some() {
            return Err(AgentOsError::PermissionDenied("capability token is revoked"));
        }
        if !str_eq(cap.agent_id.as_str(), syscall.agent_id.as_str()) || !str_eq(cap.task_id.as_str(), syscall.task_id.as_str()) {
            return Err(AgentOsError::PermissionDenied("capability token identity or task scope mismatch"));
        }
        if !string_list_allows(cap.syscalls.as_slice(), syscall.syscall_type.as_str()) {
            return Err(AgentOsError::PermissionDenied("capability does not allow syscall"));
        }
        if syscall.risk_level > cap.risk_ceiling {
            return Err(AgentOsError::PermissionDenied("syscall risk exceeds capability ceiling"));
        }
        let k = match self.find_agent_thread(syscall.agent_id.as_str()) {
            None => return Err(AgentOsError::NotFound("agent")),
            Some(k) => k,
        };
        proof {
            let p = agent_thread_pos(*self, syscall.agent_id@);
            assert(first_agent_thread(self.threads@, syscall.agent_id@, k as int));
            if p != k {
                if p < k {
                    assert(self.threads@[p].agent_id@ != syscall.agent_id@);
                } else {
                    assert(self.threads@[k as int].agent_id@ != syscall.agent_id@);
                }
            }
        }
        let thread = &self.threads[k];
        let permission = effective_permission_set_for_thread(&self.permission_grants, thread);
        if !string_list_allows(permission.allowed_syscalls.as_slice(), syscall.syscall_type.as_str()) {
            return Err(AgentOsError::PermissionDenied("effective permissions do not allow syscall"));
        }
        if syscall.risk_level > permission.max_risk_level {
            return Err(AgentOsError::PermissionDenied("syscall risk exceeds effective permission ceiling"));
        }
        let requested = match requested_scope_key(&syscall.resource_scope) {
            Err(_) => return Err(AgentOsError::Validation("resource scope is malformed")),
            Ok(v) => v,
        };
        match first_scope_refusal(&cap.resource_scopes, &permission.resource_scopes, &requested) {
            Some(e) => return Err(e),
            None => {},
        }
        if syscall.risk_level > permission.approval_required_above {
            let approval_id = match &cap.approval_id {
                None => return Err(AgentOsError::ApprovalRequired("syscall risk requires approved bounded approval scope")),
                Some(a) => a,
            };
            let a = match self.find_approval(approval_id.as_str()) {
                None => return Err(AgentOsError::NotFound("approval")),
                Some(a) => a,
            };
            return validate_syscall_approval(&self.approvals[a], syscall, thread.goal_id.as_str(), now_unix_nanos);
        }
        Ok(())
    }
}

/// An authorized syscall stays within the thread's effective permissions:
/// its type is allowed, its risk is under the ceiling, and every resource
/// scope it names is allowed.
pub proof fn law_authorized_syscall_within_permissions(state: KernelState, s: SyscallEnvelope, now: i128)
    requires
        authorize_outcome(state, s, now) is Ok,
    ensures
        has_agent(state.threads@, s.agent_id@),
        ({
            let p = effective_permissions(state.permission_grants@, state.threads@[agent_thread_pos(state, s.agent_id@)]);
            &&& names_allow(p.allowed_syscalls, s.syscall_type@)
            &&& s.risk_level <= p.max_risk_level
            &&& scope_keys(s.resource_scope) is Some
            &&& all_scopes_admitted(p.resource_scopes, scope_keys(s.resource_scope).unwrap())
        }),
{
    let cap = state.capabilities@[capability_pos(state.capabilities@, s.capability_token.unwrap()@)];
    let p = effective_permissions(state.permission_grants@, state.threads@[agent_thread_pos(state, s.agent_id@)]);
    lemma_no_refusal_admits(texts(cap.resource_scopes@), p.resource_scopes, scope_keys(s.resource_scope).unwrap());
}

proof fn lemma_no_refusal_admits(token: Seq<Seq<char>>, perm: Seq<Seq<char>>, req: Seq<Seq<char>>)
    requires
        scope_refusal(token, perm, req) is None,
    ensures
        all_scopes_admitted(perm, req),
        all_scopes_admitted(token, req),
    decreases req.len(),
{
    if req.len() > 0 {
        lemma_no_refusal_admits(token, perm, req.drop_first());
        assert forall|i: int| 0 <= i < req.len() implies scopes_allow(perm, #[trigger] req[i]) && scopes_allow(token, req[i]) by {
            if i > 0 {
                assert(req[i] == req.drop_first()[i - 1]);
            }
        }
    }
}

/// A syscall is authorized only under a live capability token it presents:
/// the token exists, is not revoked, was granted to the calling agent for
/// the syscall's task, lists the syscall type, reaches at least the
/// syscall's risk level and admits every resource scope it names. Above the
/// thread's approval threshold the token must carry an approved, unexpired
/// approval that lists the syscall type, reaches its risk level and is bound
/// to the thread's goal and to the syscall's task.
pub proof fn law_authorized_syscall_within_capability(state: KernelState, s: SyscallEnvelope, now: i128)
    requires
        authorize_outcome(state, s, now) is Ok,
    ensures
        s.capability_token is Some,
        has_capability(state.capabilities@, s.capability_token.unwrap()@),
        ({
            let cap = state.capabilities@[capability_pos(state.capabilities@, s.capability_token.unwrap()@)];
            let t = state.threads@[agent_thread_pos(state, s.agent_id@)];
            let p = effective_permissions(state.permission_grants@, t);
            &&& cap.revoked_at is None
            &&& cap.agent_id@ == s.agent_id@
            &&& cap.task_id@ == s.task_id@
            &&& names_allow(texts(cap.syscalls@), s.syscall_type@)
            &&& s.risk_level <= cap.risk_ceiling
            &&& scope_keys(s.resource_scope) is Some
            &&& all_scopes_admitted(texts(cap.resource_scopes@), scope_keys(s.resource_scope).unwrap())
            &&& s.risk_level > p.approval_required_above ==> (cap.approval_id matches Some(aid) && has_approval(
                state.approvals@,
                aid@,
            ) && {
                let a = state.approvals@[approval_pos(state.approvals@, aid@)];
                &&& a.status == crate::approval::ApprovalStatus::Approved
                &&& texts(a.scope.syscall_types@).contains(s.syscall_type@)
                &&& s.risk_level <= a.scope.risk_ceiling
                &&& a.scope.goal_id@ == t.goal_id@
                &&& a.scope.task_id matches Some(tk) ==> tk@ == s.task_id@
            })
        }),
{
    let cap = state.capabilities@[capability_pos(state.capabilities@, s.capability_token.unwrap()@)];
    let t = state.threads@[agent_thread_pos(state, s.agent_id@)];
    let p = effective_permissions(state.permission_grants@, t);
    lemma_no_refusal_admits(texts(cap.resource_scopes@), p.resource_scopes, scope_keys(s.resource_scope).unwrap());
    if s.risk_level > p.approval_required_above {
        let aid = cap.approval_id.unwrap();
        crate::approval::law_syscall_approval_binds_goal_task_and_risk(
            state.approvals@[approval_pos(state.approvals@, aid@)],
            s,
            t.goal_id@,
            now,
        );
    }
}

/// A syscall presenting no capability token, or one above the token's risk
/// ceiling, is never authorized.
pub proof fn law_syscall_above_token_ceiling_is_refused(state: KernelState, s: SyscallEnvelope, now: i128)
    requires
        s.capability_token is None || (has_capability(state.capabilities@, s.capability_token.unwrap()@)
            && s.risk_level > state.capabilities@[capability_pos(state.capabilities@, s.capability_token.unwrap()@)].risk_ceiling),
    ensures
        authorize_outcome(state, s, now) is Err,
{
}

/// A granted capability stays within the agent's thread: the task is the
/// thread's, and the ceiling, syscalls and scopes lie within its effective
/// permissions. A ceiling above the approval threshold needs a named
/// approval that is approved, unexpired, at least as high, bound to the
/// thread's goal and to the task when it names one, and lists every
/// granted syscall.
pub proof fn law_granted_capability_within_thread(
    state: KernelState,
    agent: Seq<char>,
    task: Seq<char>,
    syscalls: Seq<Seq<char>>,
    scopes: Seq<Seq<char>>,
    risk_ceiling: u8,
    approval_id: Option<Seq<char>>,
    now: i128,
)
    requires
        grant_outcome(state, agent, task, syscalls, scopes, risk_ceiling, approval_id, now) is Ok,
    ensures
        has_agent(state.threads@, agent),
        ({
            let t = state.threads@[agent_thread_pos(state, agent)];
            let p = effective_permissions(state.permission_grants@, t);
            &&& t.task_id@ == task
            &&& risk_ceiling <= p.max_risk_level
            &&& forall|i: int| 0 <= i < syscalls.len() ==> names_allow(p.allowed_syscalls, #[trigger] syscalls[i])
            &&& forall|i: int| 0 <= i < scopes.len() ==> scopes_allow(p.resource_scopes, #[trigger] scopes[i])
            &&& risk_ceiling > p.approval_required_above ==> (approval_id matches Some(id) && has_approval(state.approvals@, id) && {
                let a = state.approvals@[approval_pos(state.approvals@, id)];
                &&& a.status == crate::approval::ApprovalStatus::Approved
                &&& risk_ceiling <= a.scope.risk_ceiling
                &&& a.scope.goal_id@ == t.goal_id@
                &&& a.scope.task_id matches Some(tk) ==> tk@ == task
                &&& forall|i: int| 0 <= i < syscalls.len() ==> texts(a.scope.syscall_types@).contains(#[trigger] syscalls[i])
            })
        }),
{
    let t = state.threads@[agent_thread_pos(state, agent)];
    let p = effective_permissions(state.permission_grants@, t);
    if risk_ceiling > p.approval_required_above {
        let id = approval_id.unwrap();
        crate::approval::law_capability_approval_binds_goal_task_and_risk(
            state.approvals@[approval_pos(state.approvals@, id)],
            syscalls,
            risk_ceiling,
            t.goal_id@,
            task,
            now,
        );
    }
}

proof fn lemma_admitted_scopes_have_no_refusal(token: Seq<Seq<char>>, perm: Seq<Seq<char>>, req: Seq<Seq<char>>)
    requires
        all_scopes_admitted(token, req),
        all_scopes_admitted(perm, req),
    ensures
        scope_refusal(token, perm, req) is None,
    decreases req.len(),
{
    if req.len() > 0 {
        assert(scopes_allow(token, req[0]));
        assert(scopes_allow(perm, req[0]));
        let rest = req.drop_first();
        assert forall|i: int| 0 <= i < rest.len() implies scopes_allow(token, #[trigger] rest[i]) && scopes_allow(perm, rest[i]) by {
            assert(rest[i] == req[i + 1]);
        }
        lemma_admitted_scopes_have_no_refusal(token, perm, rest);
    }
}

/// Conversely, a syscall is authorized when it presents a live token
/// granted to its agent for its task that lists its type, reaches its risk
/// and admits its resource scopes, the agent's effective permissions allow
/// the type, the risk and the scopes, and, above the approval threshold,
/// the token carries an approval that admits the syscall.
pub proof fn law_syscall_within_token_and_permissions_is_authorized(state: KernelState, s: SyscallEnvelope, now: i128)
    requires
        s.capability_token is Some,
        has_capability(state.capabilities@, s.capability_token.unwrap()@),
        has_agent(state.threads@, s.agent_id@),
        scope_keys(s.resource_scope) is Some,
        ({
            let cap = state.capabilities@[capability_pos(state.capabilities@, s.capability_token.unwrap()@)];
            let t = state.threads@[agent_thread_pos(state, s.agent_id@)];
            let p = effective_permissions(state.permission_grants@, t);
            let req = scope_keys(s.resource_scope).unwrap();
            &&& cap.revoked_at is None
            &&& cap.agent_id@ == s.agent_id@
            &&& cap.task_id@ == s.task_id@
            &&& names_allow(texts(cap.syscalls@), s.syscall_type@)
            &&& s.risk_level <= cap.risk_ceiling
            &&& names_allow(p.allowed_syscalls, s.syscall_type@)
            &&& s.risk_level <= p.max_risk_level
            &&& all_scopes_admitted(texts(cap.resource_scopes@), req)
            &&& all_scopes_admitted(p.resource_scopes, req)
            &&& s.risk_level > p.approval_required_above ==> (cap.approval_id matches Some(aid) && has_approval(
                state.approvals@,
                aid@,
            ) && syscall_approval_outcome(state.approvals@[approval_pos(state.approvals@, aid@)], s, t.goal_id@, now) is Ok)
        }),
    ensures
        authorize_outcome(state, s, now) is Ok,
{
    let cap = state.capabilities@[capability_pos(state.capabilities@, s.capability_token.unwrap()@)];
    let t = state.threads@[agent_thread_pos(state, s.agent_id@)];
    let p = effective_permissions(state.permission_grants@, t);
    lemma_admitted_scopes_have_no_refusal(texts(cap.resource_scopes@), p.resource_scopes, scope_keys(s.resource_scope).unwrap());
}

/// Conversely, a capability within the agent's thread is granted: its task
/// is the thread's, its ceiling, syscalls and scopes lie within the
/// thread's effective permissions, and above the approval threshold it
/// names an existing approval that admits it.
pub proof fn law_capability_within_thread_is_granted(
    state: KernelState,
    agent: Seq<char>,
    task: Seq<char>,
    syscalls: Seq<Seq<char>>,
    scopes: Seq<Seq<char>>,
    risk_ceiling: u8,
    approval_id: Option<Seq<char>>,
    now: i128,
)
    requires
        has_agent(state.threads@, agent),
        ({
            let t = state.threads@[agent_thread_pos(state, agent)];
            let p = effective_permissions(state.permission_grants@, t);
            &&& t.task_id@ == task
            &&& risk_ceiling <= p.max_risk_level
            &&& forall|i: int| 0 <= i < syscalls.len() ==> names_allow(p.allowed_syscalls, #[trigger] syscalls[i])
            &&& forall|i: int| 0 <= i < scopes.len() ==> scopes_allow(p.resource_scopes, #[trigger] scopes[i])
            &&& risk_ceiling > p.approval_required_above ==> (approval_id matches Some(id) && has_approval(state.approvals@, id)
                && capability_approval_outcome(
                state.approvals@[approval_pos(state.approvals@, id)],
                syscalls,
                risk_ceiling,
                t.goal_id@,
                task,
                now,
            ) is Ok)
        }),
    ensures
        grant_outcome(state, agent, task, syscalls, scopes, risk_ceiling, approval_id, now) is Ok,
{
}

} // verus!
