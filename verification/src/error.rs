//! The kernel's error kinds.
use vstd::prelude::*;

verus! {

/// Why a kernel operation was refused. Each variant carries a fixed
/// human-readable reason.
#[derive(Debug, Clone, Copy, PartialEq, Eq)]
pub enum AgentOsError {
    NotFound(&'static str),
    Validation(&'static str),
    PermissionDenied(&'static str),
    ApprovalRequired(&'static str),
    InvalidTransition(&'static str),
    ResourceConflict(&'static str),
    BudgetExhausted(&'static str),
}

/// The reason an error carries.
pub open spec fn reason_of(e: AgentOsError) -> &'static str {
    match e {
        AgentOsError::NotFound(m) => m,
        AgentOsError::Validation(m) => m,
        AgentOsError::PermissionDenied(m) => m,
        AgentOsError::ApprovalRequired(m) => m,
        AgentOsError::InvalidTransition(m) => m,
        AgentOsError::ResourceConflict(m) => m,
        AgentOsError::BudgetExhausted(m) => m,
    }
}

impl AgentOsError {
    /// The reason this error carries.
    pub fn reason(&self) -> (r: &'static str)
        ensures
            r == reason_of(*self),
    {
        match self {
            AgentOsError::NotFound(m) => m,
            AgentOsError::Validation(m) => m,
            AgentOsError::PermissionDenied(m) => m,
            AgentOsError::ApprovalRequired(m) => m,
            AgentOsError::InvalidTransition(m) => m,
            AgentOsError::ResourceConflict(m) => m,
            AgentOsError::BudgetExhausted(m) => m,
        }
    }
}

} // verus!
