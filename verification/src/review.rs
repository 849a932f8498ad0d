//! Independent review, verification and approval records.
//!
//! A reviewing agent is never the author of what it reviews, only the assigned
//! reviewing agent submits a review, an agent never verifies its own artifact, and
//! an approval is decided once, before it expires.
use vstd::prelude::*;
use crate::text::{str_eq, copy_strings};
use crate::error::AgentOsError;
use crate::json::{JsonValue, json_same, items_same, duplicate_items};
use crate::lifecycle::copy_opt_string;
use crate::permissions::opt_text;
use crate::clock::{rfc3339_parsed, rfc3339_is_past};
use crate::approval::{Approval, ApprovalScope, ApprovalStatus};
use crate::state::{KernelState, has_artifact, artifact_pos, has_goal, has_task, task_pos, has_agent, has_approval,
    approval_pos, approval_ids_unique};

use crate::events::{KernelEvent, Logged, Projected, appended};
verus! {

#[derive(Debug, Clone, Copy, PartialEq, Eq, Structural)]
pub enum ReviewStatus {
    Requested,
    Submitted,
}

#[derive(Debug, Clone, Copy, PartialEq, Eq, Structural)]
pub enum ReviewVerdict {
    Approve,
    NeedsRevision,
    Reject,
}

#[derive(Debug, Clone, Copy, PartialEq, Eq, Structural)]
pub enum FindingSeverity {
    Info,
    Low,
    Medium,
    High,
    Critical,
}

#[derive(Debug, Clone, Copy, PartialEq, Eq, Structural)]
pub enum FindingStatus {
    Open,
    Resolved,
}

/// A review of one version of an artifact.
#[derive(Debug)]
pub struct Review {
    pub review_id: String,
    pub artifact_id: String,
    pub artifact_version: u32,
    pub reviewer_agent_id: String,
    pub status: ReviewStatus,
    pub focus: Vec<String>,
    pub verdict: ReviewVerdict,
    pub evidence_ids: Vec<String>,
    pub created_at: String,
    pub submitted_at: Option<String>,
}

/// One finding of a submitted review.
#[derive(Debug)]
pub struct ReviewFinding {
    pub finding_id: String,
    pub review_id: String,
    pub severity: FindingSeverity,
    pub title: String,
    pub body: String,
    pub location: Option<JsonValue>,
    pub evidence_ids: Vec<String>,
    pub status: FindingStatus,
}

/// A request for a review.
#[derive(Debug)]
pub struct RequestReviewInput {
    pub artifact_id: String,
    pub reviewer_agent_id: String,
    pub focus: Vec<String>,
}

/// A finding as the reviewing agent submits it.
#[derive(Debug)]
pub struct ReviewFindingInput {
    pub severity: FindingSeverity,
    pub title: String,
    pub body: String,
    pub location: Option<JsonValue>,
    pub evidence_ids: Vec<String>,
}

/// A submitted review.
#[derive(Debug)]
pub struct SubmitReviewInput {
    pub review_id: String,
    pub reviewer_agent_id: String,
    pub verdict: ReviewVerdict,
    pub evidence_ids: Vec<String>,
    pub findings: Vec<ReviewFindingInput>,
}

#[derive(Debug, Clone, Copy, PartialEq, Eq, Structural)]
pub enum VerificationVerdict {
    Pass,
    Fail,
    Inconclusive,
}

#[derive(Debug, Clone, Copy, PartialEq, Eq, Structural)]
pub enum VerificationStatus {
    Submitted,
    Passed,
    Failed,
}

/// A submitted verification.
#[derive(Debug)]
pub struct SubmitVerificationInput {
    pub artifact_id: Option<String>,
    pub final_artifact_id: Option<String>,
    pub verifier_agent_id: String,
    pub checked_claims: Vec<JsonValue>,
    pub unsupported_claims: Vec<String>,
    pub stale_evidence_ids: Vec<String>,
    pub verdict: VerificationVerdict,
}

/// A verification of an artifact or a final submission.
#[derive(Debug)]
pub struct Verification {
    pub verification_id: String,
    pub artifact_id: Option<String>,
    pub final_artifact_id: Option<String>,
    pub verifier_agent_id: String,
    pub status: VerificationStatus,
    pub checked_claims: Vec<JsonValue>,
    pub unsupported_claims: Vec<String>,
    pub stale_evidence_ids: Vec<String>,
    pub verdict: VerificationVerdict,
    pub created_at: String,
    pub submitted_at: Option<String>,
}

/// A request for an approval.
#[derive(Debug)]
pub struct RequestApprovalInput {
    pub goal_id: String,
    pub task_id: Option<String>,
    pub requested_by_agent_id: String,
    pub approval_type: String,
    pub scope: ApprovalScope,
    pub risk_level: u8,
    pub expires_at: Option<String>,
}

/// A decision on a requested approval.
#[derive(Debug)]
pub struct RecordApprovalInput {
    pub approval_id: String,
    pub status: ApprovalStatus,
    pub decision_by: String,
    pub decision_reason: Option<String>,
}

pub open spec fn has_review(reviews: Seq<Review>, id: Seq<char>) -> bool {
    exists|i: int| 0 <= i < reviews.len() && reviews[i].review_id@ == id
}

pub open spec fn review_pos(reviews: Seq<Review>, id: Seq<char>) -> int {
    choose|i: int| 0 <= i < reviews.len() && reviews[i].review_id@ == id
}

pub open spec fn review_ids_unique(reviews: Seq<Review>) -> bool {
    forall|i: int, j: int|
        0 <= i < reviews.len() && 0 <= j < reviews.len() && #[trigger] reviews[i].review_id@
            == #[trigger] reviews[j].review_id@ ==> i == j
}

/// Two reviews that agree field by field.
pub open spec fn same_review(a: Review, b: Review) -> bool {
    &&& a.review_id == b.review_id
    &&& a.artifact_id == b.artifact_id
    &&& a.artifact_version == b.artifact_version
    &&& a.reviewer_agent_id == b.reviewer_agent_id
    &&& a.status == b.status
    &&& a.focus@ == b.focus@
    &&& a.verdict == b.verdict
    &&& a.evidence_ids@ == b.evidence_ids@
    &&& a.created_at == b.created_at
    &&& a.submitted_at == b.submitted_at
}

/// Two optional JSON values with the same content.
pub open spec fn opt_json_same(a: Option<JsonValue>, b: Option<JsonValue>) -> bool {
    match (a, b) {
        (Some(x), Some(y)) => json_same(x, y),
        (None, None) => true,
        _ => false,
    }
}

/// Two verifications that agree field by field.
pub open spec fn same_verification(a: Verification, b: Verification) -> bool {
    &&& a.verification_id == b.verification_id
    &&& a.artifact_id == b.artifact_id
    &&& a.final_artifact_id == b.final_artifact_id
    &&& a.verifier_agent_id == b.verifier_agent_id
    &&& a.status == b.status
    &&& items_same(a.checked_claims@, b.checked_claims@)
    &&& a.unsupported_claims@ == b.unsupported_claims@
    &&& a.stale_evidence_ids@ == b.stale_evidence_ids@
    &&& a.verdict == b.verdict
    &&& a.created_at == b.created_at
    &&& a.submitted_at == b.submitted_at
}

/// Two approvals that agree field by field.
pub open spec fn same_approval(a: Approval, b: Approval) -> bool {
    &&& a.approval_id == b.approval_id
    &&& a.goal_id == b.goal_id
    &&& a.task_id == b.task_id
    &&& a.requested_by_agent_id == b.requested_by_agent_id
    &&& a.approval_type == b.approval_type
    &&& a.scope.goal_id == b.scope.goal_id
    &&& a.scope.task_id == b.scope.task_id
    &&& a.scope.syscall_types@ == b.scope.syscall_types@
    &&& items_same(a.scope.resource_scopes@, b.scope.resource_scopes@)
    &&& a.scope.risk_ceiling == b.scope.risk_ceiling
    &&& a.risk_level == b.risk_level
    &&& a.status == b.status
    &&& a.decision_by == b.decision_by
    &&& a.decision_reason == b.decision_reason
    &&& a.created_at == b.created_at
    &&& a.decided_at == b.decided_at
    &&& a.expires_at == b.expires_at
}

impl Review {
    /// A copy of this review.
    pub fn duplicate(&self) -> (r: Review)
        ensures
            same_review(r, *self),
    {
        Review {
            review_id: self.review_id.clone(),
            artifact_id: self.artifact_id.clone(),
            artifact_version: self.artifact_version,
            reviewer_agent_id: self.reviewer_agent_id.clone(),
            status: self.status,
            focus: copy_strings(&self.focus),
            verdict: self.verdict,
            evidence_ids: copy_strings(&self.evidence_ids),
            created_at: self.created_at.clone(),
            submitted_at: copy_opt_string(&self.submitted_at),
        }
    }
}

impl Verification {
    /// A copy of this verification.
    pub fn duplicate(&self) -> (r: Verification)
        ensures
            same_verification(*self, r),
    {
        Verification {
            verification_id: self.verification_id.clone(),
            artifact_id: copy_opt_string(&self.artifact_id),
            final_artifact_id: copy_opt_string(&self.final_artifact_id),
            verifier_agent_id: self.verifier_agent_id.clone(),
            status: self.status,
            checked_claims: duplicate_items(&self.checked_claims),
            unsupported_claims: copy_strings(&self.unsupported_claims),
            stale_evidence_ids: copy_strings(&self.stale_evidence_ids),
            verdict: self.verdict,
            created_at: self.created_at.clone(),
            submitted_at: copy_opt_string(&self.submitted_at),
        }
    }
}

impl Approval {
    /// A copy of this approval.
    pub fn duplicate(&self) -> (r: Approval)
        ensures
            same_approval(*self, r),
    {
        Approval {
            approval_id: self.approval_id.clone(),
            goal_id: self.goal_id.clone(),
            task_id: copy_opt_string(&self.task_id),
            requested_by_agent_id: self.requested_by_agent_id.clone(),
            approval_type: self.approval_type.clone(),
            scope: ApprovalScope {
                goal_id: self.scope.goal_id.clone(),
                task_id: copy_opt_string(&self.scope.task_id),
                syscall_types: copy_strings(&self.scope.syscall_types),
                resource_scopes: duplicate_items(&self.scope.resource_scopes),
                risk_ceiling: self.scope.risk_ceiling,
            },
            risk_level: self.risk_level,
            status: self.status,
            decision_by: copy_opt_string(&self.decision_by),
            decision_reason: copy_opt_string(&self.decision_reason),
            created_at: self.created_at.clone(),
            decided_at: copy_opt_string(&self.decided_at),
            expires_at: copy_opt_string(&self.expires_at),
        }
    }
}

// ---------------------------------------------------------------------------
// Reviews

/// Why a review request is refused: an unknown artifact, or a reviewing agent who
/// owns it.
pub open spec fn review_request_error(state: KernelState, input: RequestReviewInput) -> Option<AgentOsError> {
    if !has_artifact(state.artifacts@, input.artifact_id@) {
        Some(AgentOsError::NotFound("artifact"))
    } else if state.artifacts@[artifact_pos(state.artifacts@, input.artifact_id@)].owner_agent_id@
        == input.reviewer_agent_id@ {
        Some(AgentOsError::PermissionDenied("ReviewerAgent must be independent from artifact owner"))
    } else {
        None
    }
}

/// Why a submitted review is refused: an unknown review, or a submitter
/// other than the assigned reviewing agent.
pub open spec fn review_submit_error(state: KernelState, review_id: Seq<char>, reviewer: Seq<char>) -> Option<AgentOsError> {
    if !has_review(state.reviews@, review_id) {
        Some(AgentOsError::NotFound("review"))
    } else if state.reviews@[review_pos(state.reviews@, review_id)].reviewer_agent_id@ != reviewer {
        Some(AgentOsError::PermissionDenied("only assigned reviewing agent can submit review"))
    } else {
        None
    }
}

/// The finding recorded for a submitted finding.
pub open spec fn is_recorded_finding(f: ReviewFinding, input: ReviewFindingInput, finding_id: String, review_id: String) -> bool {
    &&& f.finding_id == finding_id
    &&& f.review_id == review_id
    &&& f.severity == input.severity
    &&& f.title == input.title
    &&& f.body == input.body
    &&& opt_json_same(input.location, f.location)
    &&& f.evidence_ids@ == input.evidence_ids@
    &&& f.status == FindingStatus::Open
}

// ---------------------------------------------------------------------------
// Verifications

/// Why a verification is refused: an unknown artifact, or a verifier who
/// owns it.
pub open spec fn verification_error(state: KernelState, input: SubmitVerificationInput) -> Option<AgentOsError> {
    match input.artifact_id {
        Some(a) => if !has_artifact(state.artifacts@, a@) {
            Some(AgentOsError::NotFound("artifact"))
        } else if state.artifacts@[artifact_pos(state.artifacts@, a@)].owner_agent_id@ == input.verifier_agent_id@ {
            Some(AgentOsError::PermissionDenied("WorkerAgent cannot verify its own artifact"))
        } else {
            None
        },
        None => None,
    }
}

/// The status a verdict gives a verification.
pub open spec fn verification_status(verdict: VerificationVerdict) -> VerificationStatus {
    match verdict {
        VerificationVerdict::Pass => VerificationStatus::Passed,
        VerificationVerdict::Fail => VerificationStatus::Failed,
        VerificationVerdict::Inconclusive => VerificationStatus::Submitted,
    }
}

// ---------------------------------------------------------------------------
// Approvals

/// Whether an optional RFC 3339 timestamp is known to lie before `now`;
/// `Err` when it is not RFC 3339.
pub open spec fn expiry_passed(expires_at: Option<String>, now_unix_nanos: i128) -> Result<bool, AgentOsError> {
    match expires_at {
        None => Ok(false),
        Some(e) => match rfc3339_parsed(e@) {
            None => Err(AgentOsError::Validation("invalid RFC 3339 timestamp")),
            Some(p) => Ok(p.0 < now_unix_nanos),
        },
    }
}

/// Why an approval request is refused, checked in order.
pub open spec fn approval_request_error(state: KernelState, input: RequestApprovalInput, now_unix_nanos: i128) -> Option<AgentOsError> {
    if input.scope.goal_id@ != input.goal_id@ {
        Some(AgentOsError::Validation("approval scope goal must match approval goal"))
    } else if opt_text(input.scope.task_id) != opt_text(input.task_id) {
        Some(AgentOsError::Validation("approval scope task must match approval task"))
    } else if expiry_passed(input.expires_at, now_unix_nanos) is Err {
        Some(expiry_passed(input.expires_at, now_unix_nanos)->Err_0)
    } else if expiry_passed(input.expires_at, now_unix_nanos) == Ok::<bool, AgentOsError>(true) {
        Some(AgentOsError::InvalidTransition("approval request is already expired"))
    } else if !has_goal(state.goals@, input.goal_id@) {
        Some(AgentOsError::NotFound("goal"))
    } else if input.task_id is Some && !has_task(state.tasks@, input.task_id.unwrap()@) {
        Some(AgentOsError::NotFound("task"))
    } else if input.task_id is Some && state.tasks@[task_pos(state.tasks@, input.task_id.unwrap()@)].goal_id@
        != input.goal_id@ {
        Some(AgentOsError::Validation("approval task does not belong to approval goal"))
    } else if !has_agent(state.threads@, input.requested_by_agent_id@) {
        Some(AgentOsError::NotFound("agent"))
    } else {
        None
    }
}

/// Why a decision cannot be recorded, checked in order: an unknown
/// approval, one already decided, or one that has expired.
pub open spec fn approval_decision_error(state: KernelState, approval_id: Seq<char>, now_unix_nanos: i128) -> Option<AgentOsError> {
    if !has_approval(state.approvals@, approval_id) {
        Some(AgentOsError::NotFound("approval"))
    } else {
        let a = state.approvals@[approval_pos(state.approvals@, approval_id)];
        if a.status != ApprovalStatus::Requested {
            Some(AgentOsError::InvalidTransition("approval decision can only be recorded once"))
        } else if expiry_passed(a.expires_at, now_unix_nanos) is Err {
            Some(expiry_passed(a.expires_at, now_unix_nanos)->Err_0)
        } else if expiry_passed(a.expires_at, now_unix_nanos) == Ok::<bool, AgentOsError>(true) {
            Some(AgentOsError::InvalidTransition("approval request expired before decision"))
        } else {
            None
        }
    }
}

fn expiry_check(expires_at: &Option<String>, now_unix_nanos: i128) -> (r: Result<bool, AgentOsError>)
    ensures
        r == expiry_passed(*expires_at, now_unix_nanos),
{
    match expires_at {
        None => Ok(false),
        Some(e) => rfc3339_is_past(e.as_str(), now_unix_nanos),
    }
}

impl KernelState {
    fn find_review(&self, review_id: &str) -> (r: Option<usize>)
        requires
            review_ids_unique(self.reviews@),
        ensures
            r.is_none() <==> !has_review(self.reviews@, review_id@),
            r matches Some(i) ==> i == review_pos(self.reviews@, review_id@) && i < self.reviews@.len(),
    {
        let mut i: usize = 0;
        while i < self.reviews.len()
            invariant
                i <= self.reviews@.len(),
                review_ids_unique(self.reviews@),
                forall|j: int| 0 <= j < i ==> self.reviews@[j].review_id@ != review_id@,
            decreases self.reviews@.len() - i,
        {
            if str_eq(self.reviews[i].review_id.as_str(), review_id) {
                proof {
                    let k = review_pos(self.reviews@, review_id@);
                    assert(self.reviews@[k].review_id@ == self.reviews@[i as int].review_id@);
                }
                return Some(i);
            }
            i = i + 1;
        }
        None
    }

    /// Asks `input.reviewer_agent_id` to review the current version of
    /// artifact `input.artifact_id`, as review `review_id`. The reviewing agent
    /// must not own the artifact. The review starts requested, with the
    /// verdict `NeedsRevision` and no evidence.
    pub fn request_review(&mut self, input: RequestReviewInput, review_id: String, now: String) -> (r: Result<Review, AgentOsError>)
        requires
            old(self).wf(),
            !has_review(old(self).reviews@, review_id@),
        ensures
            request_review_post(*old(self), *final(self), input, review_id, now, r),
    {
        let k = match self.find_artifact(input.artifact_id.as_str()) {
            None => return Err(AgentOsError::NotFound("artifact")),
            Some(k) => k,
        };
        if str_eq(self.artifacts[k].owner_agent_id.as_str(), input.reviewer_agent_id.as_str()) {
            return Err(AgentOsError::PermissionDenied("ReviewerAgent must be independent from artifact owner"));
        }
        let review = Review {
            review_id,
            artifact_id: self.artifacts[k].artifact_id.clone(),
            artifact_version: self.artifacts[k].version,
            reviewer_agent_id: input.reviewer_agent_id,
            status: ReviewStatus::Requested,
            focus: input.focus,
            verdict: ReviewVerdict::NeedsRevision,
            evidence_ids: Vec::new(),
            created_at: now,
            submitted_at: None,
        };
        let copy = review.duplicate();
        let logged = review.log_copy();
        let ghost pre = *self;
        let ghost x = review;
        self.reviews.push(review);
        proof {
            assert forall|i: int| 0 <= i < pre.reviews@.len() implies #[trigger] pre.reviews@[i].key_of() != x.key_of() by {
                if pre.reviews@[i].review_id@ == x.review_id@ {
                    assert(has_review(pre.reviews@, x.review_id@));
                }
            }
            crate::events::lemma_with_record_new(pre.reviews@, x);
            assert(self.reviews@ =~= pre.reviews@.push(x));
        }
        let e = KernelEvent::ReviewRequested(logged);
        let ghost ge = e;
        self.log_review(e, Ghost(pre), Ghost(x));
        proof {
            assert(self.reviews@.drop_last() =~= pre.reviews@);
            assert(self.reviews@.last() == x);
            assert(self.events@ == pre.events@.push(ge));
            assert(self.events@.drop_last() =~= pre.events@);
        }
        Ok(copy)
    }

    /// The assigned reviewing agent submits review `input.review_id` with its
    /// verdict and evidence; each finding is recorded, open, under the
    /// matching id of `finding_ids`.
    pub fn submit_review(&mut self, input: SubmitReviewInput, finding_ids: Vec<String>, now: String) -> (r: Result<Review, AgentOsError>)
        requires
            old(self).wf(),
            finding_ids@.len() == input.findings@.len(),
        ensures
            submit_review_post(*old(self), *final(self), input, finding_ids, now, r),
    {
        let k = match self.find_review(input.review_id.as_str()) {
            None => return Err(AgentOsError::NotFound("review")),
            Some(k) => k,
        };
        if !str_eq(self.reviews[k].reviewer_agent_id.as_str(), input.reviewer_agent_id.as_str()) {
            return Err(AgentOsError::PermissionDenied("only assigned reviewing agent can submit review"));
        }
        let ghost s0 = *self;
        let mut review = self.reviews.remove(k);
        review.status = ReviewStatus::Submitted;
        review.verdict = input.verdict;
        review.evidence_ids = input.evidence_ids;
        review.submitted_at = Some(now);
        let copy = review.duplicate();
        let review_id = review.review_id.clone();
        let logged = review.log_copy();
        let ghost y = review;
        self.reviews.insert(k, review);
        proof {
            assert(self.reviews@ =~= s0.reviews@.update(k as int, y));
            assert(crate::events::record_keys_unique(s0.reviews@));
            crate::events::lemma_with_record_at(s0.reviews@, k as int, y);
        }
        let e = KernelEvent::ReviewSubmitted(logged);
        let ghost ge = e;
        self.log_review(e, Ghost(s0), Ghost(y));
        proof {
            assert(self.events@ == s0.events@.push(ge));
            assert(self.events@.drop_last() =~= s0.events@);
            assert(self.reviews@[k as int] == y);
        }
        let ghost s1 = *self;
        let n = self.review_findings.len();
        let findings = &input.findings;
        let mut i: usize = 0;
        while i < findings.len()
            invariant
                i <= findings@.len(),
                findings == &input.findings,
                finding_ids@.len() == findings@.len(),
                n == s1.review_findings@.len(),
                self.review_findings@.len() == n + i,
                self.review_findings@.subrange(0, n as int) == s1.review_findings@,
                *self == (KernelState { review_findings: self.review_findings, ..s1 }),
                review_id == s0.reviews@[k as int].review_id,
                forall|j: int|
                    0 <= j < i ==> is_recorded_finding(
                        #[trigger] self.review_findings@[n + j],
                        findings@[j],
                        finding_ids@[j],
                        review_id,
                    ),
            decreases findings@.len() - i,
        {
            let f = &findings[i];
            let record = ReviewFinding {
                finding_id: finding_ids[i].clone(),
                review_id: review_id.clone(),
                severity: f.severity,
                title: f.title.clone(),
                body: f.body.clone(),
                location: match &f.location {
                    Some(l) => Some(l.duplicate()),
                    None => None,
                },
                evidence_ids: copy_strings(&f.evidence_ids),
                status: FindingStatus::Open,
            };
            let ghost prev = self.review_findings@;
            self.review_findings.push(record);
            proof {
                assert(self.review_findings@.subrange(0, n as int) =~= prev.subrange(0, n as int));
                assert forall|j: int| 0 <= j < i + 1 implies is_recorded_finding(
                    #[trigger] self.review_findings@[n + j],
                    findings@[j],
                    finding_ids@[j],
                    review_id,
                ) by {
                    if j < i {
                        assert(self.review_findings@[n + j] == prev[n + j]);
                    }
                }
            }
            i = i + 1;
        }
        Ok(copy)
    }

    /// Records a verification as `verification_id`, submitted at `now`. A
    /// verified artifact must exist and belong to someone other than the
    /// verifier. The verdict sets the status: `Pass` passes, `Fail` fails,
    /// `Inconclusive` leaves it submitted.
    pub fn submit_verification(&mut self, input: SubmitVerificationInput, verification_id: String, now: String) -> (r: Result<Verification, AgentOsError>)
        requires
            old(self).wf(),
        ensures
            submit_verification_post(*old(self), *final(self), input, verification_id, now, r),
    {
        if let Some(artifact_id) = &input.artifact_id {
            let k = match self.find_artifact(artifact_id.as_str()) {
                None => return Err(AgentOsError::NotFound("artifact")),
                Some(k) => k,
            };
            if str_eq(self.artifacts[k].owner_agent_id.as_str(), input.verifier_agent_id.as_str()) {
                return Err(AgentOsError::PermissionDenied("WorkerAgent cannot verify its own artifact"));
            }
        }
        let status = match input.verdict {
            VerificationVerdict::Pass => VerificationStatus::Passed,
            VerificationVerdict::Fail => VerificationStatus::Failed,
            VerificationVerdict::Inconclusive => VerificationStatus::Submitted,
        };
        let verification = Verification {
            verification_id,
            artifact_id: input.artifact_id,
            final_artifact_id: input.final_artifact_id,
            verifier_agent_id: input.verifier_agent_id,
            status,
            checked_claims: input.checked_claims,
            unsupported_claims: input.unsupported_claims,
            stale_evidence_ids: input.stale_evidence_ids,
            verdict: input.verdict,
            created_at: now.clone(),
            submitted_at: Some(now),
        };
        let copy = verification.duplicate();
        let ghost before = self.verifications@;
        self.verifications.push(verification);
        assert(self.verifications@.drop_last() =~= before);
        Ok(copy)
    }

    /// Records a request for approval as `approval_id` at `now`. The scope
    /// must name the approval's goal and task, an expiry must lie in the
    /// future of `now_unix_nanos`, the goal (and task, within that goal)
    /// must exist and the requesting agent must run a thread.
    pub fn request_approval(
        &mut self,
        input: RequestApprovalInput,
        approval_id: String,
        now: String,
        now_unix_nanos: i128,
    ) -> (r: Result<Approval, AgentOsError>)
        requires
            old(self).wf(),
            !has_approval(old(self).approvals@, approval_id@),
        ensures
            request_approval_post(*old(self), *final(self), input, approval_id, now, now_unix_nanos, r),
    {
        if !str_eq(input.scope.goal_id.as_str(), input.goal_id.as_str()) {
            return Err(AgentOsError::Validation("approval scope goal must match approval goal"));
        }
        let same_task = match (&input.scope.task_id, &input.task_id) {
            (Some(a), Some(b)) => str_eq(a.as_str(), b.as_str()),
            (None, None) => true,
            _ => false,
        };
        if !same_task {
            return Err(AgentOsError::Validation("approval scope task must match approval task"));
        }
        match expiry_check(&input.expires_at, now_unix_nanos) {
            Err(e) => return Err(e),
            Ok(true) => return Err(AgentOsError::InvalidTransition("approval request is already expired")),
            Ok(false) => {},
        }
        if self.find_goal(input.goal_id.as_str()).is_none() {
            return Err(AgentOsError::NotFound("goal"));
        }
        if let Some(task_id) = &input.task_id {
            let t = match self.find_task(task_id.as_str()) {
                None => return Err(AgentOsError::NotFound("task")),
                Some(t) => t,
            };
            if !str_eq(self.tasks[t].goal_id.as_str(), input.goal_id.as_str()) {
                return Err(AgentOsError::Validation("approval task does not belong to approval goal"));
            }
        }
        if self.find_agent_thread(input.requested_by_agent_id.as_str()).is_none() {
            return Err(AgentOsError::NotFound("agent"));
        }
        let approval = Approval {
            approval_id,
            goal_id: input.goal_id,
            task_id: input.task_id,
            requested_by_agent_id: input.requested_by_agent_id,
            approval_type: input.approval_type,
            scope: input.scope,
            risk_level: input.risk_level,
            status: ApprovalStatus::Requested,
            decision_by: None,
            decision_reason: None,
            created_at: now,
            decided_at: None,
            expires_at: input.expires_at,
        };
        let copy = approval.duplicate();
        let ghost before = self.approvals@;
        let logged = approval.log_copy();
        let ghost pre = *self;
        let ghost gx = approval;
        self.approvals.push(approval);
        proof {
            assert(self.approvals@.drop_last() =~= before);
            let n = before.len();
            assert forall|i: int, j: int|
                0 <= i < self.approvals@.len() && 0 <= j < self.approvals@.len() && #[trigger] self.approvals@[i].approval_id@
                    == #[trigger] self.approvals@[j].approval_id@ implies i == j by {
                if i < n && j == n {
                    assert(before[i].approval_id@ == approval_id@);
                }
                if j < n && i == n {
                    assert(before[j].approval_id@ == approval_id@);
                }
            }
        }
        self.log_approval(KernelEvent::ApprovalRequested(logged), Ghost(pre), Ghost(gx));
        Ok(copy)
    }

    /// Records the decision on approval `input.approval_id` at `now`. Only a
    /// requested approval that has not expired by `now_unix_nanos` can be
    /// decided, and only once.
    pub fn record_approval(&mut self, input: RecordApprovalInput, now: String, now_unix_nanos: i128) -> (r: Result<Approval, AgentOsError>)
        requires
            old(self).wf(),
        ensures
            record_approval_post(*old(self), *final(self), input, now, now_unix_nanos, r),
    {
        let k = match self.find_approval(input.approval_id.as_str()) {
            None => return Err(AgentOsError::NotFound("approval")),
            Some(k) => k,
        };
        if self.approvals[k].status != ApprovalStatus::Requested {
            return Err(AgentOsError::InvalidTransition("approval decision can only be recorded once"));
        }
        match expiry_check(&self.approvals[k].expires_at, now_unix_nanos) {
            Err(e) => return Err(e),
            Ok(true) => return Err(AgentOsError::InvalidTransition("approval request expired before decision")),
            Ok(false) => {},
        }
        let ghost before = *self;
        let mut approval = self.approvals.remove(k);
        approval.status = input.status;
        approval.decision_by = Some(input.decision_by);
        approval.decision_reason = input.decision_reason;
        approval.decided_at = Some(now);
        let copy = approval.duplicate();
        let logged = approval.log_copy();
        let ghost gx = approval;
        self.approvals.insert(k, approval);
        proof {
            assert(self.approvals@ =~= before.approvals@.update(k as int, approval));
            assert forall|i: int, j: int|
                0 <= i < self.approvals@.len() && 0 <= j < self.approvals@.len() && #[trigger] self.approvals@[i].approval_id@
                    == #[trigger] self.approvals@[j].approval_id@ implies i == j by {
                assert(self.approvals@[i].approval_id@ == before.approvals@[i].approval_id@);
                assert(self.approvals@[j].approval_id@ == before.approvals@[j].approval_id@);
            }
        }
        assert(before.approvals@[k as int].approval_id@ == gx.approval_id@);
        self.log_approval(KernelEvent::ApprovalRecorded(logged), Ghost(before), Ghost(gx));
        Ok(copy)
    }
}

/// An agent never reviews its own work: every review request that is
/// accepted names a reviewing agent other than the artifact's owner.
pub proof fn law_review_is_independent(state: KernelState, input: RequestReviewInput)
    requires
        review_request_error(state, input) is None,
    ensures
        state.artifacts@[artifact_pos(state.artifacts@, input.artifact_id@)].owner_agent_id@ != input.reviewer_agent_id@,
{
}

/// An agent never verifies its own artifact.
pub proof fn law_verification_is_independent(state: KernelState, input: SubmitVerificationInput)
    requires
        verification_error(state, input) is None,
        input.artifact_id is Some,
    ensures
        state.artifacts@[artifact_pos(state.artifacts@, input.artifact_id.unwrap()@)].owner_agent_id@
            != input.verifier_agent_id@,
{
}

/// An approval is decided at most once: a decision on anything but a
/// requested approval is refused.
pub proof fn law_approval_decided_once(state: KernelState, approval_id: Seq<char>, now_unix_nanos: i128)
    requires
        has_approval(state.approvals@, approval_id),
        state.approvals@[approval_pos(state.approvals@, approval_id)].status != ApprovalStatus::Requested,
    ensures
        approval_decision_error(state, approval_id, now_unix_nanos) == Some(
            AgentOsError::InvalidTransition("approval decision can only be recorded once"),
        ),
{
}

/// What `request_review` ensures, as a relation between the state before and after the call, its arguments and its result.
pub open spec fn request_review_post(pre: KernelState, post: KernelState, input: RequestReviewInput, review_id: String, now: String, r: Result<Review, AgentOsError>) -> bool {
    &&& (post.wf())
    &&& (match review_request_error(pre, input) {
                Some(e) => r == Err::<Review, AgentOsError>(e) && post == pre,
                None => r matches Ok(v) && {
                    let artifact = pre.artifacts@[artifact_pos(pre.artifacts@, input.artifact_id@)];
                    let rv = post.reviews@.last();
                    &&& post.reviews@.drop_last() == pre.reviews@
                    &&& post.reviews@.len() == pre.reviews@.len() + 1
                    &&& same_review(v, rv)
                    &&& rv.review_id == review_id
                    &&& rv.artifact_id == artifact.artifact_id
                    &&& rv.artifact_version == artifact.version
                    &&& rv.reviewer_agent_id == input.reviewer_agent_id
                    &&& rv.status == ReviewStatus::Requested
                    &&& rv.focus == input.focus
                    &&& rv.verdict == ReviewVerdict::NeedsRevision
                    &&& rv.evidence_ids@.len() == 0
                    &&& rv.created_at == now
                    &&& rv.submitted_at is None
                    &&& post.events@.len() == pre.events@.len() + 1
                    &&& post.events@.drop_last() == pre.events@
                    &&& post.events@.last() matches KernelEvent::ReviewRequested(x0) && rv.copies(&x0)
                    &&& post == (KernelState { reviews: post.reviews, events: post.events, ..pre })
                },
            })
}

/// What `submit_review` ensures, as a relation between the state before and after the call, its arguments and its result.
pub open spec fn submit_review_post(pre: KernelState, post: KernelState, input: SubmitReviewInput, finding_ids: Vec<String>, now: String, r: Result<Review, AgentOsError>) -> bool {
    &&& (post.wf())
    &&& (match review_submit_error(pre, input.review_id@, input.reviewer_agent_id@) {
                Some(e) => r == Err::<Review, AgentOsError>(e) && post == pre,
                None => r matches Ok(v) && {
                    let k = review_pos(pre.reviews@, input.review_id@);
                    let before = pre.reviews@[k];
                    let n = pre.review_findings@.len();
                    &&& post.reviews@ == pre.reviews@.update(
                        k,
                        Review {
                            status: ReviewStatus::Submitted,
                            verdict: input.verdict,
                            evidence_ids: input.evidence_ids,
                            submitted_at: Some(now),
                            ..before
                        },
                    )
                    &&& same_review(v, post.reviews@[k])
                    &&& post.review_findings@.len() == n + input.findings@.len()
                    &&& post.review_findings@.subrange(0, n as int) == pre.review_findings@
                    &&& forall|i: int|
                        0 <= i < input.findings@.len() ==> is_recorded_finding(
                            #[trigger] post.review_findings@[n + i],
                            input.findings@[i],
                            finding_ids@[i],
                            before.review_id,
                        )
                    &&& post.events@.len() == pre.events@.len() + 1
                    &&& post.events@.drop_last() == pre.events@
                    &&& post.events@.last() matches KernelEvent::ReviewSubmitted(x0) && post.reviews@[k].copies(&x0)
                    &&& post == (KernelState {
                        reviews: post.reviews,
                        review_findings: post.review_findings,
                        events: post.events,
                        ..pre
                    })
                },
            })
}

/// What `submit_verification` ensures, as a relation between the state before and after the call, its arguments and its result.
pub open spec fn submit_verification_post(pre: KernelState, post: KernelState, input: SubmitVerificationInput, verification_id: String, now: String, r: Result<Verification, AgentOsError>) -> bool {
    &&& (post.wf())
    &&& (match verification_error(pre, input) {
                Some(e) => r == Err::<Verification, AgentOsError>(e) && post == pre,
                None => r matches Ok(v) && {
                    let w = post.verifications@.last();
                    &&& post.verifications@.drop_last() == pre.verifications@
                    &&& post.verifications@.len() == pre.verifications@.len() + 1
                    &&& same_verification(w, v)
                    &&& w.verification_id == verification_id
                    &&& w.artifact_id == input.artifact_id
                    &&& w.final_artifact_id == input.final_artifact_id
                    &&& w.verifier_agent_id == input.verifier_agent_id
                    &&& w.status == verification_status(input.verdict)
                    &&& w.checked_claims == input.checked_claims
                    &&& w.unsupported_claims == input.unsupported_claims
                    &&& w.stale_evidence_ids == input.stale_evidence_ids
                    &&& w.verdict == input.verdict
                    &&& w.created_at == now
                    &&& w.submitted_at == Some(now)
                    &&& post == (KernelState { verifications: post.verifications, ..pre })
                },
            })
}

/// What `request_approval` ensures, as a relation between the state before and after the call, its arguments and its result.
pub open spec fn request_approval_post(pre: KernelState, post: KernelState, input: RequestApprovalInput, approval_id: String, now: String, now_unix_nanos: i128, r: Result<Approval, AgentOsError>) -> bool {
    &&& (post.wf())
    &&& (match approval_request_error(pre, input, now_unix_nanos) {
                Some(e) => r == Err::<Approval, AgentOsError>(e) && post == pre,
                None => r matches Ok(v) && {
                    let a = post.approvals@.last();
                    &&& post.approvals@.drop_last() == pre.approvals@
                    &&& post.approvals@.len() == pre.approvals@.len() + 1
                    &&& same_approval(a, v)
                    &&& a == (Approval {
                        approval_id,
                        goal_id: input.goal_id,
                        task_id: input.task_id,
                        requested_by_agent_id: input.requested_by_agent_id,
                        approval_type: input.approval_type,
                        scope: input.scope,
                        risk_level: input.risk_level,
                        status: ApprovalStatus::Requested,
                        decision_by: None,
                        decision_reason: None,
                        created_at: now,
                        decided_at: None,
                        expires_at: input.expires_at,
                    })
                    &&& appended(pre, post, post.events@.last())
                    &&& post.events@.last() matches KernelEvent::ApprovalRequested(x0) && a.copies(&x0)
                    &&& post == (KernelState { approvals: post.approvals, events: post.events, ..pre })
                },
            })
}

/// What `record_approval` ensures, as a relation between the state before and after the call, its arguments and its result.
pub open spec fn record_approval_post(pre: KernelState, post: KernelState, input: RecordApprovalInput, now: String, now_unix_nanos: i128, r: Result<Approval, AgentOsError>) -> bool {
    &&& (post.wf())
    &&& (match approval_decision_error(pre, input.approval_id@, now_unix_nanos) {
                Some(e) => r == Err::<Approval, AgentOsError>(e) && post == pre,
                None => r matches Ok(v) && {
                    let k = approval_pos(pre.approvals@, input.approval_id@);
                    let a = post.approvals@[k];
                    &&& post.approvals@ == pre.approvals@.update(k, a)
                    &&& a == (Approval {
                        status: input.status,
                        decision_by: Some(input.decision_by),
                        decision_reason: input.decision_reason,
                        decided_at: Some(now),
                        ..pre.approvals@[k]
                    })
                    &&& same_approval(a, v)
                    &&& appended(pre, post, post.events@.last())
                    &&& post.events@.last() matches KernelEvent::ApprovalRecorded(x0) && a.copies(&x0)
                    &&& post == (KernelState { approvals: post.approvals, events: post.events, ..pre })
                },
            })
}

} // verus!
