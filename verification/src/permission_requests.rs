//! Permission requests: a child asks its direct parent for more
//! permissions, and the parent grants a part of them or denies.
use vstd::prelude::*;
use crate::text::str_eq;
use crate::error::AgentOsError;
use crate::lifecycle::copy_opt_string;
use crate::permissions::{PermissionSet, PermissionView, PermissionGrant, PermissionGrantScope, opt_text, asks_for_nothing,
    permission_subset, intersection, effective_permissions, effective_permission_set_for_thread,
    requested_permissions_is_empty, permission_set_is_subset, intersect_permission_sets};
use crate::agents::{agent_thread_index, allows_control_plane, opt_permissions};
use crate::state::{KernelState, ThreadRecord, has_thread, thread_pos, has_agent};
use crate::events::{KernelEvent, Logged, Projected};

verus! {

#[derive(Debug, Clone, Copy, PartialEq, Eq, Structural)]
pub enum PermissionRequestStatus {
    Pending,
    Approved,
    Denied,
}

/// A child's request for more permissions, answered by its direct parent.
#[derive(Debug)]
pub struct PermissionRequest {
    pub permission_request_id: String,
    pub requester_agent_id: String,
    pub requester_thread_id: String,
    pub approver_agent_id: Option<String>,
    pub approver_thread_id: Option<String>,
    pub task_id: String,
    pub goal_id: String,
    pub session_id: String,
    pub turn_id: Option<String>,
    pub requested_permissions: PermissionSet,
    pub granted_permissions: Option<PermissionSet>,
    pub scope: PermissionGrantScope,
    pub reason: String,
    pub status: PermissionRequestStatus,
    pub decision_reason: Option<String>,
    pub created_at: String,
    pub updated_at: String,
}

pub open spec fn has_request(requests: Seq<PermissionRequest>, id: Seq<char>) -> bool {
    exists|i: int| 0 <= i < requests.len() && requests[i].permission_request_id@ == id
}

pub open spec fn request_pos(requests: Seq<PermissionRequest>, id: Seq<char>) -> int {
    choose|i: int| 0 <= i < requests.len() && requests[i].permission_request_id@ == id
}

pub open spec fn request_ids_unique(requests: Seq<PermissionRequest>) -> bool {
    forall|i: int, j: int|
        0 <= i < requests.len() && 0 <= j < requests.len() && #[trigger] requests[i].permission_request_id@
            == #[trigger] requests[j].permission_request_id@ ==> i == j
}

/// Two requests that agree field by field.
pub open spec fn same_request(a: PermissionRequest, b: PermissionRequest) -> bool {
    &&& a.permission_request_id == b.permission_request_id
    &&& a.requester_agent_id == b.requester_agent_id
    &&& a.requester_thread_id == b.requester_thread_id
    &&& a.approver_agent_id == b.approver_agent_id
    &&& a.approver_thread_id == b.approver_thread_id
    &&& a.task_id == b.task_id
    &&& a.goal_id == b.goal_id
    &&& a.session_id == b.session_id
    &&& a.turn_id == b.turn_id
    &&& a.requested_permissions@ == b.requested_permissions@
    &&& opt_permissions(a.granted_permissions) == opt_permissions(b.granted_permissions)
    &&& a.scope == b.scope
    &&& a.reason == b.reason
    &&& a.status == b.status
    &&& a.decision_reason == b.decision_reason
    &&& a.created_at == b.created_at
    &&& a.updated_at == b.updated_at
}

/// Two grants that agree field by field.
pub open spec fn same_grant(a: PermissionGrant, b: PermissionGrant) -> bool {
    &&& a.permission_grant_id == b.permission_grant_id
    &&& a.permission_request_id == b.permission_request_id
    &&& a.agent_id == b.agent_id
    &&& a.thread_id == b.thread_id
    &&& a.task_id == b.task_id
    &&& a.goal_id == b.goal_id
    &&& a.granted_by_agent_id == b.granted_by_agent_id
    &&& a.granted_by_thread_id == b.granted_by_thread_id
    &&& a.permissions@ == b.permissions@
    &&& a.scope == b.scope
    &&& a.session_id == b.session_id
    &&& a.turn_id == b.turn_id
    &&& a.created_at == b.created_at
}

impl PermissionRequest {
    /// A copy of this request.
    pub fn duplicate(&self) -> (r: PermissionRequest)
        ensures
            same_request(r, *self),
    {
        PermissionRequest {
            permission_request_id: self.permission_request_id.clone(),
            requester_agent_id: self.requester_agent_id.clone(),
            requester_thread_id: self.requester_thread_id.clone(),
            approver_agent_id: copy_opt_string(&self.approver_agent_id),
            approver_thread_id: copy_opt_string(&self.approver_thread_id),
            task_id: self.task_id.clone(),
            goal_id: self.goal_id.clone(),
            session_id: self.session_id.clone(),
            turn_id: copy_opt_string(&self.turn_id),
            requested_permissions: self.requested_permissions.duplicate(),
            granted_permissions: match &self.granted_permissions {
                Some(p) => Some(p.duplicate()),
                None => None,
            },
            scope: self.scope,
            reason: self.reason.clone(),
            status: self.status,
            decision_reason: copy_opt_string(&self.decision_reason),
            created_at: self.created_at.clone(),
            updated_at: self.updated_at.clone(),
        }
    }
}

impl PermissionGrant {
    /// A copy of this grant.
    pub fn duplicate(&self) -> (r: PermissionGrant)
        ensures
            same_grant(r, *self),
    {
        PermissionGrant {
            permission_grant_id: self.permission_grant_id.clone(),
            permission_request_id: self.permission_request_id.clone(),
            agent_id: self.agent_id.clone(),
            thread_id: self.thread_id.clone(),
            task_id: self.task_id.clone(),
            goal_id: self.goal_id.clone(),
            granted_by_agent_id: self.granted_by_agent_id.clone(),
            granted_by_thread_id: self.granted_by_thread_id.clone(),
            permissions: self.permissions.duplicate(),
            scope: self.scope,
            session_id: copy_opt_string(&self.session_id),
            turn_id: copy_opt_string(&self.turn_id),
            created_at: self.created_at.clone(),
        }
    }
}

// ---------------------------------------------------------------------------
// Asking

/// Why a permission request is refused, checked in order: it must ask for
/// something, come from a known agent with a parent thread, and, when
/// scoped to a turn, be made during a turn.
pub open spec fn request_error(
    threads: Seq<ThreadRecord>,
    requester: Seq<char>,
    requested: PermissionView,
    scope: PermissionGrantScope,
) -> Option<AgentOsError> {
    if asks_for_nothing(requested) {
        Some(AgentOsError::Validation("request_permissions requires at least one permission field"))
    } else if !has_agent(threads, requester) {
        Some(AgentOsError::NotFound("agent"))
    } else {
        let t = threads[agent_thread_index(threads, requester)];
        if t.parent_thread_id is None {
            Some(AgentOsError::PermissionDenied("permission requests require a direct parent approver"))
        } else if !has_thread(threads, t.parent_thread_id.unwrap()@) {
            Some(AgentOsError::NotFound("thread"))
        } else if scope == PermissionGrantScope::Turn && t.lifecycle.active_turn.turn_id is None {
            Some(AgentOsError::Validation("turn-scoped permission requests require an active turn"))
        } else {
            None
        }
    }
}

/// The pending request a successful `request_permissions` records.
pub open spec fn is_new_request(
    q: PermissionRequest,
    threads: Seq<ThreadRecord>,
    requester: Seq<char>,
    reason: String,
    requested: PermissionSet,
    scope: PermissionGrantScope,
    request_id: String,
    now: String,
) -> bool {
    let t = threads[agent_thread_index(threads, requester)];
    let approver = threads[thread_pos(threads, t.parent_thread_id.unwrap()@)];
    &&& q.permission_request_id == request_id
    &&& q.requester_agent_id == t.agent_id
    &&& q.requester_thread_id == t.lifecycle.thread_id
    &&& q.approver_agent_id == Some(approver.agent_id)
    &&& q.approver_thread_id == Some(approver.lifecycle.thread_id)
    &&& q.task_id == t.task_id
    &&& q.goal_id == t.goal_id
    &&& q.session_id == t.session_id
    &&& q.turn_id == (match scope {
        PermissionGrantScope::Turn => t.lifecycle.active_turn.turn_id,
        PermissionGrantScope::Session => None,
    })
    &&& q.requested_permissions == requested
    &&& q.granted_permissions is None
    &&& q.scope == scope
    &&& q.reason == reason
    &&& q.status == PermissionRequestStatus::Pending
    &&& q.decision_reason is None
    &&& q.created_at == now
    &&& q.updated_at == now
}

// ---------------------------------------------------------------------------
// Answering

/// The checks on who answers a request, in order: a known agent at a
/// control-plane security level, answering a known request addressed to
/// its own thread.
pub open spec fn responder_error(state: KernelState, approver: Seq<char>, request_id: Seq<char>) -> Option<AgentOsError> {
    if !has_agent(state.threads@, approver) {
        Some(AgentOsError::NotFound("agent"))
    } else {
        let a = state.threads@[agent_thread_index(state.threads@, approver)];
        if !allows_control_plane(a.security_level) {
            Some(AgentOsError::PermissionDenied("agent_control approve_permission requires security_level <= 1"))
        } else if !has_request(state.permission_requests@, request_id) {
            Some(AgentOsError::NotFound("permission request"))
        } else if opt_text(state.permission_requests@[request_pos(state.permission_requests@, request_id)].approver_thread_id)
            != Some(a.lifecycle.thread_id@) {
            Some(AgentOsError::PermissionDenied("permission request can only be answered by the direct parent"))
        } else {
            None
        }
    }
}

/// The status and granted permissions an answer gives a pending request:
/// a grant is narrowed to what the approver holds, and a grant that
/// narrows to nothing is a denial.
pub open spec fn resolution(granted: Option<PermissionView>, approver: PermissionView) -> (PermissionRequestStatus, Option<PermissionView>) {
    match granted {
        Some(c) => {
            let n = intersection(c, approver);
            if !asks_for_nothing(n) {
                (PermissionRequestStatus::Approved, Some(n))
            } else {
                (PermissionRequestStatus::Denied, None)
            }
        },
        None => (PermissionRequestStatus::Denied, None),
    }
}

/// The grant an approved request gives.
pub open spec fn is_new_grant(
    g: PermissionGrant,
    q: PermissionRequest,
    requester: ThreadRecord,
    approver: ThreadRecord,
    permissions: PermissionView,
    grant_id: String,
    now: String,
) -> bool {
    &&& g.permission_grant_id == grant_id
    &&& g.permission_request_id == q.permission_request_id
    &&& g.agent_id == requester.agent_id
    &&& g.thread_id == requester.lifecycle.thread_id
    &&& g.task_id == requester.task_id
    &&& g.goal_id == requester.goal_id
    &&& g.granted_by_agent_id == approver.agent_id
    &&& g.granted_by_thread_id == approver.lifecycle.thread_id
    &&& g.permissions@ == permissions
    &&& g.scope == q.scope
    &&& g.session_id == (match q.scope {
        PermissionGrantScope::Session => Some(q.session_id),
        PermissionGrantScope::Turn => None,
    })
    &&& g.turn_id == (match q.scope {
        PermissionGrantScope::Turn => q.turn_id,
        PermissionGrantScope::Session => None,
    })
    &&& g.created_at == now
}

impl KernelState {
    fn find_request(&self, request_id: &str) -> (r: Option<usize>)
        requires
            request_ids_unique(self.permission_requests@),
        ensures
            r.is_none() <==> !has_request(self.permission_requests@, request_id@),
            r matches Some(i) ==> i == request_pos(self.permission_requests@, request_id@) && i
                < self.permission_requests@.len(),
    {
        let mut i: usize = 0;
        while i < self.permission_requests.len()
            invariant
                i <= self.permission_requests@.len(),
                request_ids_unique(self.permission_requests@),
                forall|j: int| 0 <= j < i ==> self.permission_requests@[j].permission_request_id@ != request_id@,
            decreases self.permission_requests@.len() - i,
        {
            if str_eq(self.permission_requests[i].permission_request_id.as_str(), request_id) {
                proof {
                    let k = request_pos(self.permission_requests@, request_id@);
                    assert(self.permission_requests@[k].permission_request_id@
                        == self.permission_requests@[i as int].permission_request_id@);
                }
                return Some(i);
            }
            i = i + 1;
        }
        None
    }

    fn first_agent_thread_pos(&self, agent_id: &str) -> (r: Option<usize>)
        ensures
            r.is_none() <==> !has_agent(self.threads@, agent_id@),
            r matches Some(i) ==> i == agent_thread_index(self.threads@, agent_id@) && i < self.threads@.len(),
    {
        let r = self.find_agent_thread(agent_id);
        proof {
            if let Some(i) = r {
                let c = agent_thread_index(self.threads@, agent_id@);
                assert(crate::state::first_agent_thread(self.threads@, agent_id@, c));
                if c < i {
                    assert(self.threads@[c].agent_id@ != agent_id@);
                }
                if i < c {
                    assert(self.threads@[i as int].agent_id@ != agent_id@);
                }
            }
        }
        r
    }

    /// The agent `requester_agent_id` asks its direct parent for
    /// `requested_permissions`, for its session or for its current turn.
    /// The request is recorded as pending under `request_id`, addressed to
    /// the parent's thread. See `request_error` for the refusals.
    pub fn request_permissions(
        &mut self,
        requester_agent_id: &str,
        reason: String,
        requested_permissions: PermissionSet,
        scope: PermissionGrantScope,
        request_id: String,
        now: String,
    ) -> (r: Result<PermissionRequest, AgentOsError>)
        requires
            old(self).wf(),
            !has_request(old(self).permission_requests@, request_id@),
        ensures
            final(self).wf(),
            match request_error(old(self).threads@, requester_agent_id@, requested_permissions@, scope) {
                Some(e) => r == Err::<PermissionRequest, AgentOsError>(e) && *final(self) == *old(self),
                None => r matches Ok(q) && {
                    &&& final(self).permission_requests@.drop_last() == old(self).permission_requests@
                    &&& same_request(q, final(self).permission_requests@.last())
                    &&& is_new_request(
                        final(self).permission_requests@.last(),
                        old(self).threads@,
                        requester_agent_id@,
                        reason,
                        requested_permissions,
                        scope,
                        request_id,
                        now,
                    )
                    &&& final(self).events@.len() == old(self).events@.len() + 1
                    &&& final(self).events@.drop_last() == old(self).events@
                    &&& final(self).events@.last() matches KernelEvent::PermissionRequested(x0)
                        && final(self).permission_requests@.last().copies(&x0)
                    &&& *final(self) == (KernelState {
                        permission_requests: final(self).permission_requests,
                        events: final(self).events,
                        ..*old(self)
                    })
                },
            },
    {
        if requested_permissions_is_empty(&requested_permissions) {
            return Err(AgentOsError::Validation("request_permissions requires at least one permission field"));
        }
        let k = match self.first_agent_thread_pos(requester_agent_id) {
            None => return Err(AgentOsError::NotFound("agent")),
            Some(k) => k,
        };
        let parent_id = match &self.threads[k].parent_thread_id {
            None => return Err(AgentOsError::PermissionDenied("permission requests require a direct parent approver")),
            Some(p) => p,
        };
        let a = match self.find_thread(parent_id.as_str()) {
            None => return Err(AgentOsError::NotFound("thread")),
            Some(a) => a,
        };
        let turn_id = match scope {
            PermissionGrantScope::Turn => match &self.threads[k].lifecycle.active_turn.turn_id {
                None => return Err(AgentOsError::Validation("turn-scoped permission requests require an active turn")),
                Some(t) => Some(t.clone()),
            },
            PermissionGrantScope::Session => None,
        };
        let requester = &self.threads[k];
        let approver = &self.threads[a];
        let request = PermissionRequest {
            permission_request_id: request_id,
            requester_agent_id: requester.agent_id.clone(),
            requester_thread_id: requester.lifecycle.thread_id.clone(),
            approver_agent_id: Some(approver.agent_id.clone()),
            approver_thread_id: Some(approver.lifecycle.thread_id.clone()),
            task_id: requester.task_id.clone(),
            goal_id: requester.goal_id.clone(),
            session_id: requester.session_id.clone(),
            turn_id,
            requested_permissions,
            granted_permissions: None,
            scope,
            reason,
            status: PermissionRequestStatus::Pending,
            decision_reason: None,
            created_at: now.clone(),
            updated_at: now,
        };
        let copy = request.duplicate();
        let logged = request.log_copy();
        let ghost pre = *self;
        let ghost x = request;
        self.permission_requests.push(request);
        proof {
            assert forall|i: int| 0 <= i < pre.permission_requests@.len() implies #[trigger] pre.permission_requests@[i].key_of()
                != x.key_of() by {
                if pre.permission_requests@[i].permission_request_id@ == x.permission_request_id@ {
                    assert(has_request(pre.permission_requests@, x.permission_request_id@));
                }
            }
            crate::events::lemma_with_record_new(pre.permission_requests@, x);
            assert(self.permission_requests@ =~= pre.permission_requests@.push(x));
        }
        let e = KernelEvent::PermissionRequested(logged);
        let ghost ge = e;
        self.log_request(e, Ghost(pre), Ghost(x));
        proof {
            assert(self.permission_requests@.drop_last() =~= pre.permission_requests@);
            assert(self.permission_requests@.last() == x);
            assert(self.events@ == pre.events@.push(ge));
            assert(self.events@.drop_last() =~= pre.events@);
        }
        Ok(copy)
    }

    /// The agent `approver_agent_id` answers request `request_id`. The
    /// approver must stand at a control-plane security level and be the
    /// request's addressee. Denying a request that is already denied
    /// changes nothing and gives it back; any other answer to a request
    /// that is no longer pending is an `InvalidTransition`. A grant must lie
    /// within what was requested; it is narrowed to the approver's own
    /// effective permissions and, if anything is left, recorded as grant
    /// `grant_id` for the requester's session or turn, approving the
    /// request; otherwise the request is denied.
    pub fn respond_permission_request(
        &mut self,
        approver_agent_id: &str,
        request_id: &str,
        granted_permissions: Option<PermissionSet>,
        decision_reason: Option<String>,
        grant_id: String,
        now: String,
    ) -> (r: Result<(PermissionRequest, Option<PermissionGrant>), AgentOsError>)
        requires
            old(self).wf(),
        ensures
            final(self).wf(),
            ({
                let s = *old(self);
                let granted = opt_permissions(granted_permissions);
                let j = request_pos(s.permission_requests@, request_id@);
                let q = s.permission_requests@[j];
                let a = s.threads@[agent_thread_index(s.threads@, approver_agent_id@)];
                if responder_error(s, approver_agent_id@, request_id@) is Some {
                    r == Err::<(PermissionRequest, Option<PermissionGrant>), AgentOsError>(
                        responder_error(s, approver_agent_id@, request_id@).unwrap(),
                    ) && *final(self) == s
                } else if q.status == PermissionRequestStatus::Denied && granted is None {
                    &&& r matches Ok((x, g)) && same_request(x, q) && g is None
                    &&& *final(self) == s
                } else if q.status != PermissionRequestStatus::Pending {
                    r == Err::<(PermissionRequest, Option<PermissionGrant>), AgentOsError>(
                        AgentOsError::InvalidTransition("permission request is already resolved"),
                    ) && *final(self) == s
                } else if !has_thread(s.threads@, q.requester_thread_id@) {
                    r == Err::<(PermissionRequest, Option<PermissionGrant>), AgentOsError>(AgentOsError::NotFound("thread"))
                        && *final(self) == s
                } else if granted is Some && !permission_subset(granted.unwrap(), q.requested_permissions@) {
                    r == Err::<(PermissionRequest, Option<PermissionGrant>), AgentOsError>(
                        AgentOsError::PermissionDenied("granted permissions must be a subset of requested permissions"),
                    ) && *final(self) == s
                } else {
                    let requester = s.threads@[thread_pos(s.threads@, q.requester_thread_id@)];
                    let (status, given) = resolution(granted, effective_permissions(s.permission_grants@, a));
                    let nq = final(self).permission_requests@[j];
                    &&& final(self).permission_requests@ == s.permission_requests@.update(j, nq)
                    &&& nq == (PermissionRequest {
                        status,
                        granted_permissions: nq.granted_permissions,
                        decision_reason,
                        updated_at: now,
                        ..q
                    })
                    &&& opt_permissions(nq.granted_permissions) == given
                    &&& r matches Ok((x, g)) && same_request(x, nq) && {
                        match given {
                            Some(p) => {
                                &&& final(self).permission_grants@.drop_last() == s.permission_grants@
                                &&& final(self).permission_grants@.len() == s.permission_grants@.len() + 1
                                &&& is_new_grant(final(self).permission_grants@.last(), q, requester, a, p, grant_id, now)
                                &&& g matches Some(gg) && same_grant(gg, final(self).permission_grants@.last())
                            },
                            None => g is None && final(self).permission_grants == s.permission_grants,
                        }
                    }
                    &&& final(self).events@.len() == s.events@.len() + 1
                    &&& final(self).events@.drop_last() == s.events@
                    &&& final(self).events@.last() matches KernelEvent::PermissionRequestResolved(x0) && nq.copies(&x0)
                    &&& *final(self) == (KernelState {
                        permission_requests: final(self).permission_requests,
                        permission_grants: final(self).permission_grants,
                        events: final(self).events,
                        ..s
                    })
                }
            }),
    {
        let ai = match self.first_agent_thread_pos(approver_agent_id) {
            None => return Err(AgentOsError::NotFound("agent")),
            Some(ai) => ai,
        };
        if self.threads[ai].security_level > 1 {
            return Err(AgentOsError::PermissionDenied("agent_control approve_permission requires security_level <= 1"));
        }
        let j = match self.find_request(request_id) {
            None => return Err(AgentOsError::NotFound("permission request")),
            Some(j) => j,
        };
        let addressed = match &self.permission_requests[j].approver_thread_id {
            Some(t) => str_eq(t.as_str(), self.threads[ai].lifecycle.thread_id.as_str()),
            None => false,
        };
        if !addressed {
            return Err(AgentOsError::PermissionDenied("permission request can only be answered by the direct parent"));
        }
        if self.permission_requests[j].status != PermissionRequestStatus::Pending {
            if self.permission_requests[j].status == PermissionRequestStatus::Denied && granted_permissions.is_none() {
                return Ok((self.permission_requests[j].duplicate(), None));
            }
            return Err(AgentOsError::InvalidTransition("permission request is already resolved"));
        }
        let ri = match self.find_thread(self.permission_requests[j].requester_thread_id.as_str()) {
            None => return Err(AgentOsError::NotFound("thread")),
            Some(ri) => ri,
        };
        let approver_permissions = effective_permission_set_for_thread(&self.permission_grants, &self.threads[ai]);
        let mut grant: Option<PermissionGrant> = None;
        let mut status = PermissionRequestStatus::Denied;
        let mut given: Option<PermissionSet> = None;
        if let Some(candidate) = granted_permissions {
            if !permission_set_is_subset(&candidate, &self.permission_requests[j].requested_permissions) {
                return Err(AgentOsError::PermissionDenied("granted permissions must be a subset of requested permissions"));
            }
            let normalized = intersect_permission_sets(&candidate, &approver_permissions);
            if !requested_permissions_is_empty(&normalized) {
                let q = &self.permission_requests[j];
                let requester = &self.threads[ri];
                let approver = &self.threads[ai];
                status = PermissionRequestStatus::Approved;
                grant = Some(PermissionGrant {
                    permission_grant_id: grant_id,
                    permission_request_id: q.permission_request_id.clone(),
                    agent_id: requester.agent_id.clone(),
                    thread_id: requester.lifecycle.thread_id.clone(),
                    task_id: requester.task_id.clone(),
                    goal_id: requester.goal_id.clone(),
                    granted_by_agent_id: approver.agent_id.clone(),
                    granted_by_thread_id: approver.lifecycle.thread_id.clone(),
                    permissions: normalized.duplicate(),
                    scope: q.scope,
                    session_id: match q.scope {
                        PermissionGrantScope::Session => Some(q.session_id.clone()),
                        PermissionGrantScope::Turn => None,
                    },
                    turn_id: match q.scope {
                        PermissionGrantScope::Turn => copy_opt_string(&q.turn_id),
                        PermissionGrantScope::Session => None,
                    },
                    created_at: now.clone(),
                });
                given = Some(normalized);
            }
        }
        let ghost before = *self;
        let mut q = self.permission_requests.remove(j);
        q.status = status;
        q.granted_permissions = given;
        q.decision_reason = decision_reason;
        q.updated_at = now;
        let answer = q.duplicate();
        let logged = q.log_copy();
        let ghost y = q;
        self.permission_requests.insert(j, q);
        proof {
            assert(self.permission_requests@ =~= before.permission_requests@.update(j as int, y));
            assert(crate::events::record_keys_unique(before.permission_requests@));
            crate::events::lemma_with_record_at(before.permission_requests@, j as int, y);
        }
        let e = KernelEvent::PermissionRequestResolved(logged);
        let ghost ge = e;
        self.log_request(e, Ghost(before), Ghost(y));
        proof {
            assert(self.events@ == before.events@.push(ge));
            assert(self.events@.drop_last() =~= before.events@);
            assert(self.permission_requests@[j as int] == y);
        }
        match grant {
            Some(g) => {
                let copy = g.duplicate();
                let ghost grants = self.permission_grants@;
                self.permission_grants.push(g);
                assert(self.permission_grants@.drop_last() =~= grants);
                Ok((answer, Some(copy)))
            },
            None => Ok((answer, None)),
        }
    }
}

/// What a grant gives never exceeds what was asked for, nor what the
/// approver itself holds.
pub proof fn law_grant_within_request_and_approver(granted: PermissionView, requested: PermissionView, approver: PermissionView)
    requires
        permission_subset(granted, requested),
        resolution(Some(granted), approver).1 is Some,
    ensures
        permission_subset(resolution(Some(granted), approver).1.unwrap(), requested),
        permission_subset(resolution(Some(granted), approver).1.unwrap(), approver),
{
    crate::permissions::law_child_snapshot_within_parent_and_role(requested, approver, granted);
}

} // verus!
