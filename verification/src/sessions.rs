//! Provisioned execution environments, and resource sessions (such as
//! terminals) that clients open for a thread or an agent and close.
use vstd::prelude::*;
use crate::error::AgentOsError;
use crate::json::{JsonValue, json_same};
use crate::state::{KernelState, ExecutionEnvironment, EnvironmentStatus, BackendType, ReusePolicy, has_environment,
    has_thread, has_agent};
use crate::text::str_eq;

verus! {

/// What a resource session gives access to.
#[derive(Debug, Clone, Copy, PartialEq, Eq, Structural)]
pub enum ResourceSessionType {
    Terminal,
    Browser,
}

/// Whether a resource session is in use.
#[derive(Debug, Clone, Copy, PartialEq, Eq, Structural)]
pub enum ResourceSessionStatus {
    Active,
    Closed,
}

/// What a client gives to open a resource session.
#[derive(Debug)]
pub struct OpenResourceSessionInput {
    pub resource_type: ResourceSessionType,
    pub client_thread_id: Option<String>,
    pub owner_agent_id: Option<String>,
    pub lease_expires_at: Option<String>,
    pub payload: JsonValue,
}

/// A resource session.
#[derive(Debug)]
pub struct ResourceSession {
    pub session_id: String,
    pub resource_type: ResourceSessionType,
    pub client_thread_id: Option<String>,
    pub owner_agent_id: Option<String>,
    pub status: ResourceSessionStatus,
    pub lease_expires_at: Option<String>,
    pub created_at: String,
    pub updated_at: String,
    pub closed_at: Option<String>,
    pub payload: JsonValue,
}

pub open spec fn has_resource_session(ss: Seq<ResourceSession>, id: Seq<char>) -> bool {
    exists|i: int| 0 <= i < ss.len() && ss[i].session_id@ == id
}

pub open spec fn resource_session_pos(ss: Seq<ResourceSession>, id: Seq<char>) -> int {
    choose|i: int| 0 <= i < ss.len() && ss[i].session_id@ == id
}

pub open spec fn resource_session_ids_unique(ss: Seq<ResourceSession>) -> bool {
    forall|i: int, j: int| 0 <= i < ss.len() && 0 <= j < ss.len() && #[trigger] ss[i].session_id@ == #[trigger] ss[j].session_id@ ==> i == j
}

/// Two sessions that agree field by field.
pub open spec fn same_resource_session(a: ResourceSession, b: ResourceSession) -> bool {
    &&& a == ResourceSession { payload: a.payload, ..b }
    &&& json_same(a.payload, b.payload)
}

/// Why a session cannot be opened: its thread or its agent is unknown.
pub open spec fn open_session_error(s: KernelState, input: OpenResourceSessionInput) -> Option<AgentOsError> {
    if input.client_thread_id matches Some(t) && !has_thread(s.threads@, t@) {
        Some(AgentOsError::NotFound("thread"))
    } else if input.owner_agent_id matches Some(a) && !has_agent(s.threads@, a@) {
        Some(AgentOsError::NotFound("agent"))
    } else {
        None
    }
}

fn copy_opt(o: &Option<String>) -> (r: Option<String>)
    ensures
        r == *o,
{
    match o {
        Some(s) => Some(s.clone()),
        None => None,
    }
}

impl ResourceSession {
    /// A copy of this session.
    pub fn duplicate(&self) -> (r: ResourceSession)
        ensures
            same_resource_session(*self, r),
    {
        ResourceSession {
            session_id: self.session_id.clone(),
            resource_type: self.resource_type,
            client_thread_id: copy_opt(&self.client_thread_id),
            owner_agent_id: copy_opt(&self.owner_agent_id),
            status: self.status,
            lease_expires_at: copy_opt(&self.lease_expires_at),
            created_at: self.created_at.clone(),
            updated_at: self.updated_at.clone(),
            closed_at: copy_opt(&self.closed_at),
            payload: self.payload.duplicate(),
        }
    }
}

impl ExecutionEnvironment {
    /// A copy of this environment.
    pub fn duplicate(&self) -> (r: ExecutionEnvironment)
        ensures
            r == *self,
    {
        ExecutionEnvironment {
            environment_id: self.environment_id.clone(),
            status: self.status,
            sandbox_profile_id: self.sandbox_profile_id.clone(),
            backend_type: self.backend_type,
            template_name: self.template_name.clone(),
            reuse_policy: self.reuse_policy,
            created_at: self.created_at.clone(),
            updated_at: self.updated_at.clone(),
        }
    }
}

impl KernelState {
    /// Records environment `environment_id`, provisioned at `now` on
    /// `backend_type` from `template_name` under sandbox
    /// `sandbox_profile_id`: it is ready. (An isolated worktree's root
    /// directory is created by the caller before.)
    pub fn create_environment(
        &mut self,
        backend_type: BackendType,
        template_name: String,
        sandbox_profile_id: String,
        reuse_policy: ReusePolicy,
        environment_id: String,
        now: String,
    ) -> (r: ExecutionEnvironment)
        requires
            old(self).wf(),
            !has_environment(old(self).environments@, environment_id@),
        ensures
            final(self).wf(),
            r == (ExecutionEnvironment {
                environment_id,
                status: EnvironmentStatus::Ready,
                sandbox_profile_id,
                backend_type,
                template_name,
                reuse_policy,
                created_at: now,
                updated_at: now,
            }),
            final(self).environments@ == old(self).environments@.push(r),
            *final(self) == (KernelState { environments: final(self).environments, ..*old(self) }),
    {
        let env = ExecutionEnvironment {
            environment_id,
            status: EnvironmentStatus::Ready,
            sandbox_profile_id,
            backend_type,
            template_name,
            reuse_policy,
            created_at: now.clone(),
            updated_at: now,
        };
        let out = env.duplicate();
        let ghost before = self.environments@;
        self.environments.push(env);
        proof {
            assert forall|a: int, b: int|
                0 <= a < self.environments@.len() && 0 <= b < self.environments@.len()
                    && #[trigger] self.environments@[a].environment_id@ == #[trigger] self.environments@[b].environment_id@
                implies a == b by {
                if a < before.len() {
                    assert(self.environments@[a] == before[a]);
                }
                if b < before.len() {
                    assert(self.environments@[b] == before[b]);
                }
            }
        }
        out
    }

    /// The position of resource session `id`, if any.
    pub fn find_resource_session(&self, id: &str) -> (r: Option<usize>)
        requires
            resource_session_ids_unique(self.resource_sessions@),
        ensures
            r.is_none() <==> !has_resource_session(self.resource_sessions@, id@),
            r matches Some(i) ==> i == resource_session_pos(self.resource_sessions@, id@) && i < self.resource_sessions@.len(),
    {
        let mut i: usize = 0;
        while i < self.resource_sessions.len()
            invariant
                i <= self.resource_sessions@.len(),
                resource_session_ids_unique(self.resource_sessions@),
                forall|j: int| 0 <= j < i ==> self.resource_sessions@[j].session_id@ != id@,
            decreases self.resource_sessions@.len() - i,
        {
            if str_eq(self.resource_sessions[i].session_id.as_str(), id) {
                proof {
                    let k = resource_session_pos(self.resource_sessions@, id@);
                    assert(self.resource_sessions@[k].session_id@ == self.resource_sessions@[i as int].session_id@);
                }
                return Some(i);
            }
            i = i + 1;
        }
        None
    }

    /// Opens resource session `session_id` for `input` at `now`, active, as
    /// `open_session_error` allows.
    pub fn open_resource_session(&mut self, input: OpenResourceSessionInput, session_id: String, now: String) -> (r: Result<
        ResourceSession,
        AgentOsError,
    >)
        requires
            old(self).wf(),
            !has_resource_session(old(self).resource_sessions@, session_id@),
        ensures
            final(self).wf(),
            match open_session_error(*old(self), input) {
                Some(e) => r == Err::<ResourceSession, AgentOsError>(e) && *final(self) == *old(self),
                None => r matches Ok(v) && {
                    let x = final(self).resource_sessions@.last();
                    &&& x == (ResourceSession {
                        session_id,
                        resource_type: input.resource_type,
                        client_thread_id: input.client_thread_id,
                        owner_agent_id: input.owner_agent_id,
                        status: ResourceSessionStatus::Active,
                        lease_expires_at: input.lease_expires_at,
                        created_at: now,
                        updated_at: now,
                        closed_at: None,
                        payload: x.payload,
                    })
                    &&& json_same(input.payload, x.payload)
                    &&& same_resource_session(x, v)
                    &&& final(self).resource_sessions@ == old(self).resource_sessions@.push(x)
                    &&& *final(self) == (KernelState { resource_sessions: final(self).resource_sessions, ..*old(self) })
                },
            },
    {
        if let Some(t) = &input.client_thread_id {
            if self.find_thread(t.as_str()).is_none() {
                return Err(AgentOsError::NotFound("thread"));
            }
        }
        if let Some(a) = &input.owner_agent_id {
            if self.find_agent_thread(a.as_str()).is_none() {
                return Err(AgentOsError::NotFound("agent"));
            }
        }
        let session = ResourceSession {
            session_id,
            resource_type: input.resource_type,
            client_thread_id: input.client_thread_id,
            owner_agent_id: input.owner_agent_id,
            status: ResourceSessionStatus::Active,
            lease_expires_at: input.lease_expires_at,
            created_at: now.clone(),
            updated_at: now,
            closed_at: None,
            payload: input.payload,
        };
        proof {
            crate::json::lemma_json_same_refl(session.payload);
        }
        let out = session.duplicate();
        let ghost before = self.resource_sessions@;
        self.resource_sessions.push(session);
        proof {
            assert forall|a: int, b: int|
                0 <= a < self.resource_sessions@.len() && 0 <= b < self.resource_sessions@.len()
                    && #[trigger] self.resource_sessions@[a].session_id@ == #[trigger] self.resource_sessions@[b].session_id@
                implies a == b by {
                if a < before.len() {
                    assert(self.resource_sessions@[a] == before[a]);
                }
                if b < before.len() {
                    assert(self.resource_sessions@[b] == before[b]);
                }
            }
        }
        Ok(out)
    }

    /// Closes active resource session `session_id` at `now`. An unknown
    /// session is `NotFound`; a closed one an `InvalidTransition`.
    pub fn close_resource_session(&mut self, session_id: &str, now: String) -> (r: Result<ResourceSession, AgentOsError>)
        requires
            old(self).wf(),
        ensures
            final(self).wf(),
            !has_resource_session(old(self).resource_sessions@, session_id@) ==> r == Err::<ResourceSession, AgentOsError>(
                AgentOsError::NotFound("resource session"),
            ) && *final(self) == *old(self),
            has_resource_session(old(self).resource_sessions@, session_id@) ==> {
                let k = resource_session_pos(old(self).resource_sessions@, session_id@);
                let x0 = old(self).resource_sessions@[k];
                if x0.status != ResourceSessionStatus::Active {
                    r == Err::<ResourceSession, AgentOsError>(
                        AgentOsError::InvalidTransition("only active resource sessions can be closed"),
                    ) && *final(self) == *old(self)
                } else {
                    let x = ResourceSession { status: ResourceSessionStatus::Closed, updated_at: now, closed_at: Some(now), ..x0 };
                    &&& r matches Ok(v) && same_resource_session(x, v)
                    &&& final(self).resource_sessions@ == old(self).resource_sessions@.update(k, x)
                    &&& *final(self) == (KernelState { resource_sessions: final(self).resource_sessions, ..*old(self) })
                }
            },
    {
        let k = match self.find_resource_session(session_id) {
            None => return Err(AgentOsError::NotFound("resource session")),
            Some(k) => k,
        };
        if self.resource_sessions[k].status != ResourceSessionStatus::Active {
            return Err(AgentOsError::InvalidTransition("only active resource sessions can be closed"));
        }
        let mut x = self.resource_sessions.remove(k);
        x.status = ResourceSessionStatus::Closed;
        x.updated_at = now.clone();
        x.closed_at = Some(now);
        proof {
            crate::json::lemma_json_same_refl(x.payload);
        }
        let out = x.duplicate();
        self.resource_sessions.insert(k, x);
        proof {
            assert(self.resource_sessions@ =~= old(self).resource_sessions@.update(k as int, x));
            assert forall|a: int, b: int|
                0 <= a < self.resource_sessions@.len() && 0 <= b < self.resource_sessions@.len()
                    && #[trigger] self.resource_sessions@[a].session_id@ == #[trigger] self.resource_sessions@[b].session_id@
                implies a == b by {
                assert(self.resource_sessions@[a].session_id@ == old(self).resource_sessions@[a].session_id@);
                assert(self.resource_sessions@[b].session_id@ == old(self).resource_sessions@[b].session_id@);
            }
        }
        Ok(out)
    }
}

} // verus!
