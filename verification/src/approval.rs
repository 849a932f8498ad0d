//! Bounded approvals, capability tokens and syscall authorization.
//!
//! A syscall needs a live capability token for its agent and task, and stays
//! within both the token and the thread's effective permissions. Above the
//! approval threshold it also needs an active approval whose scope covers the
//! syscall, its risk, goal, task and resources.
use vstd::prelude::*;
use crate::text::str_eq;
use crate::error::AgentOsError;
use crate::json::JsonValue;
use crate::clock::{rfc3339_parsed, rfc3339_is_past};
use crate::scope::{texts, names_allow, scopes_allow, scope_keys, requested_scope_key, string_list_allows, scope_list_allows};

verus! {

#[derive(Debug, Clone, Copy, PartialEq, Eq, Structural)]
pub enum ApprovalStatus {
    Requested,
    Approved,
    Denied,
}

/// What an approval covers.
#[derive(Debug)]
pub struct ApprovalScope {
    pub goal_id: String,
    pub task_id: Option<String>,
    pub syscall_types: Vec<String>,
    pub resource_scopes: Vec<JsonValue>,
    pub risk_ceiling: u8,
}

/// A human or supervisor decision on a risky action.
#[derive(Debug)]
pub struct Approval {
    pub approval_id: String,
    pub goal_id: String,
    pub task_id: Option<String>,
    pub requested_by_agent_id: String,
    pub approval_type: String,
    pub scope: ApprovalScope,
    pub risk_level: u8,
    pub status: ApprovalStatus,
    pub decision_by: Option<String>,
    pub decision_reason: Option<String>,
    pub created_at: String,
    pub decided_at: Option<String>,
    pub expires_at: Option<String>,
}

/// Authority handed to one agent for one task.
#[derive(Debug)]
pub struct CapabilityToken {
    pub capability_id: String,
    pub agent_id: String,
    pub task_id: String,
    pub role: String,
    pub syscalls: Vec<String>,
    pub resource_scopes: Vec<String>,
    pub risk_ceiling: u8,
    pub approval_id: Option<String>,
    pub created_at: String,
    pub revoked_at: Option<String>,
}

/// A syscall as it reaches the kernel.
#[derive(Debug)]
pub struct SyscallEnvelope {
    pub syscall_id: String,
    pub syscall_type: String,
    pub agent_id: String,
    pub task_id: String,
    pub session_id: String,
    pub capability_token: Option<String>,
    pub risk_level: u8,
    pub resource_scope: JsonValue,
    pub abi_version: String,
    pub idempotency_key: String,
    pub payload: JsonValue,
}

/// Whether the approval is in force at `now`: approved and not expired.
/// `None` when its expiry is not an RFC 3339 timestamp.
pub open spec fn approval_active(a: Approval, now: i128) -> Option<bool> {
    if a.status != ApprovalStatus::Approved {
        Some(false)
    } else {
        match a.expires_at {
            None => Some(true),
            Some(t) => match rfc3339_parsed(t@) {
                None => None,
                Some((instant, _)) => Some(!(instant < now)),
            },
        }
    }
}

/// The approval's task scope admits `task`.
pub open spec fn task_admitted(a: Approval, task: Seq<char>) -> bool {
    match a.scope.task_id {
        None => true,
        Some(t) => t@ == task,
    }
}

/// The scopes named by the approval's resource entries, concatenated;
/// entries that name no valid scope contribute nothing.
pub open spec fn approved_keys(items: Seq<JsonValue>, n: nat) -> Seq<Seq<char>>
    decreases n,
{
    if n == 0 || n > items.len() {
        Seq::empty()
    } else {
        approved_keys(items, (n - 1) as nat) + match scope_keys(items[n - 1]) {
            Some(k) => k,
            None => Seq::empty(),
        }
    }
}

/// The approval's resource scope covers the requested resource value.
pub open spec fn resources_admitted(a: Approval, requested: JsonValue) -> bool {
    match scope_keys(requested) {
        None => false,
        Some(req) => {
            let approved = approved_keys(a.scope.resource_scopes@, a.scope.resource_scopes@.len());
            req.len() == 0 || (approved.len() > 0 && forall|i: int| 0 <= i < req.len() ==> scopes_allow(approved, #[trigger] req[i]))
        },
    }
}

/// Every syscall is listed literally among the approved syscall types.
pub open spec fn syscalls_listed(listed: Seq<Seq<char>>, syscalls: Seq<Seq<char>>) -> bool {
    forall|i: int| 0 <= i < syscalls.len() ==> listed.contains(#[trigger] syscalls[i])
}

/// The outcome of checking an approval for a capability grant.
pub open spec fn capability_approval_outcome(a: Approval, syscalls: Seq<Seq<char>>, risk_ceiling: u8, goal: Seq<char>, task: Seq<char>, now: i128) -> Result<(), AgentOsError> {
    match approval_active(a, now) {
        None => Err(AgentOsError::Validation("invalid RFC 3339 timestamp")),
        Some(false) => Err(AgentOsError::ApprovalRequired("approval is not active")),
        Some(true) => if a.scope.risk_ceiling < risk_ceiling {
            Err(AgentOsError::ApprovalRequired("approval risk ceiling is lower than capability risk ceiling"))
        } else if a.scope.goal_id@ != goal {
            Err(AgentOsError::ApprovalRequired("approval goal scope does not match capability"))
        } else if !task_admitted(a, task) {
            Err(AgentOsError::ApprovalRequired("approval task scope does not match capability"))
        } else if !syscalls_listed(texts(a.scope.syscall_types@), syscalls) {
            Err(AgentOsError::ApprovalRequired("approval does not cover syscall"))
        } else {
            Ok(())
        },
    }
}

/// The outcome of checking an approval for one syscall.
pub open spec fn syscall_approval_outcome(a: Approval, s: SyscallEnvelope, goal: Seq<char>, now: i128) -> Result<(), AgentOsError> {
    match approval_active(a, now) {
        None => Err(AgentOsError::Validation("invalid RFC 3339 timestamp")),
        Some(false) => Err(AgentOsError::ApprovalRequired("approval is not active")),
        Some(true) => if !texts(a.scope.syscall_types@).contains(s.syscall_type@) {
            Err(AgentOsError::ApprovalRequired("approval does not cover requested syscall"))
        } else if a.scope.risk_ceiling < s.risk_level {
            Err(AgentOsError::ApprovalRequired("approval risk ceiling is lower than syscall risk"))
        } else if a.scope.goal_id@ != goal {
            Err(AgentOsError::ApprovalRequired("approval goal scope does not match syscall"))
        } else if !task_admitted(a, s.task_id@) {
            Err(AgentOsError::ApprovalRequired("approval task scope does not match syscall"))
        } else if !resources_admitted(a, s.resource_scope) {
            Err(AgentOsError::ApprovalRequired("approval resource scope does not match syscall"))
        } else {
            Ok(())
        },
    }
}

/// Whether `approval` is in force at `now` (Unix nanoseconds).
pub fn approval_is_active(approval: &Approval, now_unix_nanos: i128) -> (r: Result<bool, AgentOsError>)
    ensures
        r.is_err() <==> approval_active(*approval, now_unix_nanos) is None,
        r matches Ok(b) ==> approval_active(*approval, now_unix_nanos) == Some(b),
        r.is_err() ==> r == Err::<bool, AgentOsError>(AgentOsError::Validation("invalid RFC 3339 timestamp")),
{
    if approval.status != ApprovalStatus::Approved {
        return Ok(false);
    }
    match &approval.expires_at {
        None => Ok(true),
        Some(expires_at) => match rfc3339_is_past(expires_at.as_str(), now_unix_nanos) {
            Err(e) => Err(e),
            Ok(past) => Ok(!past),
        },
    }
}

/// Whether the approval's task scope admits `task_id`.
pub fn approval_task_allows(approval: &Approval, task_id: &str) -> (r: bool)
    ensures
        r == task_admitted(*approval, task_id@),
{
    match &approval.scope.task_id {
        None => true,
        Some(t) => str_eq(t.as_str(), task_id),
    }
}

pub(crate) fn list_contains(list: &Vec<String>, value: &str) -> (r: bool)
    ensures
        r == texts(list@).contains(value@),
{
    let mut i: usize = 0;
    while i < list.len()
        invariant
            i <= list@.len(),
            forall|j: int| 0 <= j < i ==> list@[j]@ != value@,
        decreases list@.len() - i,
    {
        if str_eq(list[i].as_str(), value) {
            assert(texts(list@)[i as int] == value@);
            return true;
        }
        i = i + 1;
    }
    assert forall|j: int| 0 <= j < texts(list@).len() implies texts(list@)[j] != value@ by {
        assert(texts(list@)[j] == list@[j]@);
    }
    false
}

/// Whether the approval's resource scopes cover the requested resource value.
pub fn approval_resource_allows(approval: &Approval, requested: &JsonValue) -> (r: bool)
    ensures
        r == resources_admitted(*approval, *requested),
{
    let req_keys = match requested_scope_key(requested) {
        Ok(scopes) => scopes,
        Err(_) => return false,
    };
    if req_keys.len() == 0 {
        return true;
    }
    let items = &approval.scope.resource_scopes;
    let mut approved: Vec<String> = Vec::new();
    let mut i: usize = 0;
    while i < items.len()
        invariant
            i <= items@.len(),
            texts(approved@) == approved_keys(items@, i as nat),
        decreases items@.len() - i,
    {
        match requested_scope_key(&items[i]) {
            Ok(keys) => {
                let ghost before = texts(approved@);
                let mut j: usize = 0;
                while j < keys.len()
                    invariant
                        j <= keys@.len(),
                        texts(approved@) == before + texts(keys@).subrange(0, j as int),
                    decreases keys@.len() - j,
                {
                    let ghost prev = approved@;
                    approved.push(keys[j].clone());
                    assert(texts(approved@) =~= texts(prev).push(keys@[j as int]@));
                    assert(texts(keys@).subrange(0, j + 1) =~= texts(keys@).subrange(0, j as int).push(keys@[j as int]@));
                    assert(texts(approved@) =~= before + texts(keys@).subrange(0, j + 1));
                    j = j + 1;
                }
                assert(texts(keys@).subrange(0, keys@.len() as int) =~= texts(keys@));
            },
            Err(_) => {
                assert(approved_keys(items@, (i + 1) as nat) =~= approved_keys(items@, i as nat));
            },
        }
        i = i + 1;
    }
    if approved.len() == 0 {
        return false;
    }
    let mut k: usize = 0;
    while k < req_keys.len()
        invariant
            k <= req_keys@.len(),
            Some(texts(req_keys@)) == scope_keys(*requested),
            texts(approved@) == approved_keys(approval.scope.resource_scopes@, approval.scope.resource_scopes@.len()),
            approved@.len() > 0,
            req_keys@.len() > 0,
            forall|j: int| 0 <= j < k ==> scopes_allow(texts(approved@), #[trigger] texts(req_keys@)[j]),
        decreases req_keys@.len() - k,
    {
        assert(texts(req_keys@)[k as int] == req_keys@[k as int]@);
        if !scope_list_allows(approved.as_slice(), req_keys[k].as_str()) {
            return false;
        }
        k = k + 1;
    }
    true
}

/// Checks that an approval covers a capability grant of `syscalls` up to
/// `risk_ceiling` for `goal_id`/`task_id` at time `now`.
pub fn validate_capability_approval(
    approval: &Approval,
    syscalls: &Vec<String>,
    risk_ceiling: u8,
    goal_id: &str,
    task_id: &str,
    now_unix_nanos: i128,
) -> (r: Result<(), AgentOsError>)
    ensures
        r == capability_approval_outcome(*approval, texts(syscalls@), risk_ceiling, goal_id@, task_id@, now_unix_nanos),
{
    match approval_is_active(approval, now_unix_nanos) {
        Err(e) => return Err(e),
        Ok(false) => return Err(AgentOsError::ApprovalRequired("approval is not active")),
        Ok(true) => {},
    }
    if approval.scope.risk_ceiling < risk_ceiling {
        return Err(AgentOsError::ApprovalRequired("approval risk ceiling is lower than capability risk ceiling"));
    }
    if !str_eq(approval.scope.goal_id.as_str(), goal_id) {
        return Err(AgentOsError::ApprovalRequired("approval goal scope does not match capability"));
    }
    if !approval_task_allows(approval, task_id) {
        return Err(AgentOsError::ApprovalRequired("approval task scope does not match capability"));
    }
    let mut i: usize = 0;
    while i < syscalls.len()
        invariant
            i <= syscalls@.len(),
            approval_active(*approval, now_unix_nanos) == Some(true),
            !(approval.scope.risk_ceiling < risk_ceiling),
            approval.scope.goal_id@ == goal_id@,
            task_admitted(*approval, task_id@),
            forall|j: int| 0 <= j < i ==> texts(approval.scope.syscall_types@).contains(#[trigger] texts(syscalls@)[j]),
        decreases syscalls@.len() - i,
    {
        assert(texts(syscalls@)[i as int] == syscalls@[i as int]@);
        if !list_contains(&approval.scope.syscall_types, syscalls[i].as_str()) {
            return Err(AgentOsError::ApprovalRequired("approval does not cover syscall"));
        }
        i = i + 1;
    }
    Ok(())
}

/// Checks that an approval covers the syscall `syscall` for `goal_id` at time `now`.
pub fn validate_syscall_approval(approval: &Approval, syscall: &SyscallEnvelope, goal_id: &str, now_unix_nanos: i128) -> (r: Result<(), AgentOsError>)
    ensures
        r == syscall_approval_outcome(*approval, *syscall, goal_id@, now_unix_nanos),
{
    match approval_is_active(approval, now_unix_nanos) {
        Err(e) => return Err(e),
        Ok(false) => return Err(AgentOsError::ApprovalRequired("approval is not active")),
        Ok(true) => {},
    }
    if !list_contains(&approval.scope.syscall_types, syscall.syscall_type.as_str()) {
        return Err(AgentOsError::ApprovalRequired("approval does not cover requested syscall"));
    }
    if approval.scope.risk_ceiling < syscall.risk_level {
        return Err(AgentOsError::ApprovalRequired("approval risk ceiling is lower than syscall risk"));
    }
    if !str_eq(approval.scope.goal_id.as_str(), goal_id) {
        return Err(AgentOsError::ApprovalRequired("approval goal scope does not match syscall"));
    }
    if !approval_task_allows(approval, syscall.task_id.as_str()) {
        return Err(AgentOsError::ApprovalRequired("approval task scope does not match syscall"));
    }
    if !approval_resource_allows(approval, &syscall.resource_scope) {
        return Err(AgentOsError::ApprovalRequired("approval resource scope does not match syscall"));
    }
    Ok(())
}

/// An approval that admits a capability grant is approved and unexpired at
/// `now`, reaches at least the capability's risk ceiling, is bound to the
/// capability's goal, to its task when it names one, and lists every syscall
/// the capability grants.
pub proof fn law_capability_approval_binds_goal_task_and_risk(
    a: Approval,
    syscalls: Seq<Seq<char>>,
    risk_ceiling: u8,
    goal: Seq<char>,
    task: Seq<char>,
    now: i128,
)
    requires
        capability_approval_outcome(a, syscalls, risk_ceiling, goal, task, now) is Ok,
    ensures
        a.status == ApprovalStatus::Approved,
        a.expires_at matches Some(t) ==> (rfc3339_parsed(t@) matches Some((instant, _)) && now <= instant),
        risk_ceiling <= a.scope.risk_ceiling,
        a.scope.goal_id@ == goal,
        a.scope.task_id matches Some(t) ==> t@ == task,
        forall|i: int| 0 <= i < syscalls.len() ==> texts(a.scope.syscall_types@).contains(#[trigger] syscalls[i]),
{
}

/// An approval that admits a syscall is approved and unexpired at `now`,
/// lists the syscall's type, reaches its risk level, and is bound to the
/// thread's goal and to the syscall's task when it names one, and covers
/// the syscall's resources.
pub proof fn law_syscall_approval_binds_goal_task_and_risk(a: Approval, s: SyscallEnvelope, goal: Seq<char>, now: i128)
    requires
        syscall_approval_outcome(a, s, goal, now) is Ok,
    ensures
        a.status == ApprovalStatus::Approved,
        a.expires_at matches Some(t) ==> (rfc3339_parsed(t@) matches Some((instant, _)) && now <= instant),
        texts(a.scope.syscall_types@).contains(s.syscall_type@),
        s.risk_level <= a.scope.risk_ceiling,
        a.scope.goal_id@ == goal,
        a.scope.task_id matches Some(t) ==> t@ == s.task_id@,
        scope_keys(s.resource_scope) is Some,
        resources_admitted(a, s.resource_scope),
{
}

/// An approval that is not approved admits neither a capability grant nor
/// a syscall.
pub proof fn law_unapproved_approval_admits_nothing(
    a: Approval,
    s: SyscallEnvelope,
    syscalls: Seq<Seq<char>>,
    risk_ceiling: u8,
    goal: Seq<char>,
    task: Seq<char>,
    now: i128,
)
    requires
        a.status != ApprovalStatus::Approved,
    ensures
        capability_approval_outcome(a, syscalls, risk_ceiling, goal, task, now) is Err,
        syscall_approval_outcome(a, s, goal, now) is Err,
{
}

/// Conversely, an approved approval that has not expired at `now`, reaches
/// the capability's risk ceiling, is bound to its goal and task and lists
/// every granted syscall admits the grant.
pub proof fn law_bounded_approval_admits_capability(
    a: Approval,
    syscalls: Seq<Seq<char>>,
    risk_ceiling: u8,
    goal: Seq<char>,
    task: Seq<char>,
    now: i128,
)
    requires
        a.status == ApprovalStatus::Approved,
        a.expires_at matches Some(t) ==> (rfc3339_parsed(t@) matches Some((instant, _)) && now <= instant),
        risk_ceiling <= a.scope.risk_ceiling,
        a.scope.goal_id@ == goal,
        a.scope.task_id matches Some(t) ==> t@ == task,
        forall|i: int| 0 <= i < syscalls.len() ==> texts(a.scope.syscall_types@).contains(#[trigger] syscalls[i]),
    ensures
        capability_approval_outcome(a, syscalls, risk_ceiling, goal, task, now) is Ok,
{
}

/// Conversely, an approved approval that has not expired at `now`, lists
/// the syscall's type, reaches its risk, is bound to the goal and the
/// syscall's task, and covers its resources admits the syscall.
pub proof fn law_bounded_approval_admits_syscall(a: Approval, s: SyscallEnvelope, goal: Seq<char>, now: i128)
    requires
        a.status == ApprovalStatus::Approved,
        a.expires_at matches Some(t) ==> (rfc3339_parsed(t@) matches Some((instant, _)) && now <= instant),
        texts(a.scope.syscall_types@).contains(s.syscall_type@),
        s.risk_level <= a.scope.risk_ceiling,
        a.scope.goal_id@ == goal,
        a.scope.task_id matches Some(t) ==> t@ == s.task_id@,
        resources_admitted(a, s.resource_scope),
    ensures
        syscall_approval_outcome(a, s, goal, now) is Ok,
{
}

} // verus!
