//! Blackboard posts: who may publish which section of the shared
//! blackboard, and with what provenance.
use vstd::prelude::*;
use crate::error::AgentOsError;
use crate::json::{JsonValue, json_same};
use crate::text::copy_strings;
use crate::lifecycle::copy_opt_string;
use crate::events::{Projected, keep_record, with_record};
use crate::scope::texts;
use crate::permissions::opt_text;
use crate::communication::{CommunicationScope, scope_rank, contains_text, rank};
use crate::state::{KernelState, EvidenceRecord, EvidenceStatus, has_thread, thread_pos, has_goal, has_task, task_pos,
    has_evidence, evidence_pos, has_comm_profile, comm_profile_pos};

verus! {

/// The sections of the blackboard.
#[derive(Debug, Clone, Copy, PartialEq, Eq, Structural)]
pub enum BlackboardSection {
    Goal,
    Constraint,
    KnownFact,
    Hypothesis,
    Decision,
    OpenQuestion,
    Risk,
    TestResult,
    ReviewResult,
    AcceptanceCriterion,
}

#[derive(Debug, Clone, Copy, PartialEq, Eq, Structural)]
pub enum BlackboardStatus {
    Active,
    Superseded,
}

/// A post an agent asks to publish.
#[derive(Debug)]
pub struct PostBlackboardInput {
    pub source_agent_id: String,
    pub source_thread_id: String,
    pub channel_id: Option<String>,
    pub goal_id: String,
    pub task_id: Option<String>,
    pub scope: CommunicationScope,
    pub section: BlackboardSection,
    pub content: JsonValue,
    pub source_evidence_ids: Vec<String>,
}

/// A published blackboard entry.
#[derive(Debug)]
pub struct BlackboardEntry {
    pub entry_id: String,
    pub goal_id: String,
    pub task_id: Option<String>,
    pub section: BlackboardSection,
    pub status: BlackboardStatus,
    pub content: JsonValue,
    pub source_evidence_ids: Vec<String>,
    pub created_by_agent_id: Option<String>,
    pub created_at: String,
    pub superseded_by: Option<String>,
}

/// The entry type a section is listed under in a communication profile.
pub open spec fn section_key(section: BlackboardSection) -> Seq<char> {
    match section {
        BlackboardSection::Goal => "goal"@,
        BlackboardSection::Constraint => "constraint"@,
        BlackboardSection::KnownFact => "known_fact"@,
        BlackboardSection::Hypothesis => "hypothesis"@,
        BlackboardSection::Decision => "decision"@,
        BlackboardSection::OpenQuestion => "open_question"@,
        BlackboardSection::Risk => "risk"@,
        BlackboardSection::TestResult => "test_result"@,
        BlackboardSection::ReviewResult => "review_result"@,
        BlackboardSection::AcceptanceCriterion => "acceptance_criterion"@,
    }
}

/// The entry type of a section.
pub fn blackboard_section_key(section: BlackboardSection) -> (r: &'static str)
    ensures
        r@ == section_key(section),
{
    match section {
        BlackboardSection::Goal => "goal",
        BlackboardSection::Constraint => "constraint",
        BlackboardSection::KnownFact => "known_fact",
        BlackboardSection::Hypothesis => "hypothesis",
        BlackboardSection::Decision => "decision",
        BlackboardSection::OpenQuestion => "open_question",
        BlackboardSection::Risk => "risk",
        BlackboardSection::TestResult => "test_result",
        BlackboardSection::ReviewResult => "review_result",
        BlackboardSection::AcceptanceCriterion => "acceptance_criterion",
    }
}

/// Facts and decisions must cite evidence.
pub open spec fn needs_provenance(section: BlackboardSection) -> bool {
    section == BlackboardSection::KnownFact || section == BlackboardSection::Decision
}

/// The first fault among the cited evidence ids, in order: an id that names
/// no evidence, evidence that is not active, or evidence of another goal.
pub open spec fn provenance_error(evidence: Seq<EvidenceRecord>, goal: Seq<char>, ids: Seq<String>) -> Option<AgentOsError>
    decreases ids.len(),
{
    if ids.len() == 0 {
        None
    } else if !has_evidence(evidence, ids[0]@) {
        Some(AgentOsError::NotFound("evidence"))
    } else if evidence[evidence_pos(evidence, ids[0]@)].status != EvidenceStatus::Active {
        Some(AgentOsError::Validation("blackboard provenance evidence must be active"))
    } else if evidence[evidence_pos(evidence, ids[0]@)].goal_id@ != goal {
        Some(AgentOsError::Validation("blackboard provenance evidence must belong to goal"))
    } else {
        provenance_error(evidence, goal, ids.drop_first())
    }
}

/// The checks of the sender's communication profile on a post, in order.
pub open spec fn post_profile_error(state: KernelState, input: PostBlackboardInput, profile_id: Seq<char>) -> Option<AgentOsError> {
    if !has_comm_profile(state.communication_profiles@, profile_id) {
        Some(AgentOsError::NotFound("communication profile"))
    } else {
        let p = state.communication_profiles@[comm_profile_pos(state.communication_profiles@, profile_id)];
        if !p.blackboard.enabled {
            Some(AgentOsError::PermissionDenied("blackboard route is not allowed"))
        } else if scope_rank(input.scope) > scope_rank(p.blackboard.allowed_scopes) {
            Some(AgentOsError::PermissionDenied("blackboard scope exceeds profile"))
        } else if input.channel_id is None {
            Some(AgentOsError::Validation("blackboard post requires a channel"))
        } else if !texts(p.blackboard.allowed_channels@).contains(input.channel_id.unwrap()@) {
            Some(AgentOsError::PermissionDenied("blackboard channel is not allowed"))
        } else if !texts(p.blackboard.allowed_entry_types@).contains(section_key(input.section)) {
            Some(AgentOsError::PermissionDenied("blackboard entry type is not allowed"))
        } else if needs_provenance(input.section) && input.source_evidence_ids@.len() == 0 {
            Some(AgentOsError::Validation("facts and decisions require evidence provenance"))
        } else {
            provenance_error(state.evidence@, input.goal_id@, input.source_evidence_ids@)
        }
    }
}

/// Why a post is refused, checked in order, or `None` when it may be published.
pub open spec fn blackboard_post_error(state: KernelState, input: PostBlackboardInput) -> Option<AgentOsError> {
    if !has_thread(state.threads@, input.source_thread_id@) {
        Some(AgentOsError::NotFound("thread"))
    } else {
        let t = state.threads@[thread_pos(state.threads@, input.source_thread_id@)];
        if t.agent_id@ != input.source_agent_id@ {
            Some(AgentOsError::Validation("blackboard source agent does not match thread"))
        } else if !has_goal(state.goals@, input.goal_id@) {
            Some(AgentOsError::NotFound("goal"))
        } else if input.goal_id@ != t.goal_id@ {
            Some(AgentOsError::PermissionDenied("blackboard post goal must match source thread goal"))
        } else if input.scope == CommunicationScope::Task && input.task_id is None {
            Some(AgentOsError::Validation("task-scoped blackboard post requires task_id"))
        } else if input.task_id is Some && !has_task(state.tasks@, input.task_id.unwrap()@) {
            Some(AgentOsError::NotFound("task"))
        } else if input.task_id is Some
            && state.tasks@[task_pos(state.tasks@, input.task_id.unwrap()@)].goal_id@ != input.goal_id@ {
            Some(AgentOsError::Validation("blackboard task does not belong to goal"))
        } else {
            post_profile_error(state, input, t.communication_profile_id@)
        }
    }
}

impl KernelState {
    fn check_provenance(&self, goal_id: &str, ids: &Vec<String>) -> (r: Result<(), AgentOsError>)
        requires
            self.wf(),
        ensures
            match provenance_error(self.evidence@, goal_id@, ids@) {
                Some(e) => r == Err::<(), AgentOsError>(e),
                None => r is Ok,
            },
    {
        let mut i: usize = 0;
        assert(ids@.subrange(0, ids@.len() as int) =~= ids@);
        while i < ids.len()
            invariant
                self.wf(),
                i <= ids@.len(),
                provenance_error(self.evidence@, goal_id@, ids@)
                    == provenance_error(self.evidence@, goal_id@, ids@.subrange(i as int, ids@.len() as int)),
            decreases ids@.len() - i,
        {
            let ghost rest = ids@.subrange(i as int, ids@.len() as int);
            assert(rest[0] == ids@[i as int]);
            assert(rest.drop_first() =~= ids@.subrange(i + 1, ids@.len() as int));
            let k = match self.find_evidence(ids[i].as_str()) {
                None => return Err(AgentOsError::NotFound("evidence")),
                Some(k) => k,
            };
            if self.evidence[k].status != EvidenceStatus::Active {
                return Err(AgentOsError::Validation("blackboard provenance evidence must be active"));
            }
            if !crate::text::str_eq(self.evidence[k].goal_id.as_str(), goal_id) {
                return Err(AgentOsError::Validation("blackboard provenance evidence must belong to goal"));
            }
            i = i + 1;
        }
        assert(ids@.subrange(i as int, ids@.len() as int).len() == 0);
        Ok(())
    }

    fn check_post_profile(&self, input: &PostBlackboardInput, profile_id: &str) -> (r: Result<(), AgentOsError>)
        requires
            self.wf(),
        ensures
            match post_profile_error(*self, *input, profile_id@) {
                Some(e) => r == Err::<(), AgentOsError>(e),
                None => r is Ok,
            },
    {
        let p = match self.find_communication_profile(profile_id) {
            None => return Err(AgentOsError::NotFound("communication profile")),
            Some(p) => p,
        };
        let profile = &self.communication_profiles[p];
        if !profile.blackboard.enabled {
            return Err(AgentOsError::PermissionDenied("blackboard route is not allowed"));
        }
        if rank(input.scope) > rank(profile.blackboard.allowed_scopes) {
            return Err(AgentOsError::PermissionDenied("blackboard scope exceeds profile"));
        }
        let channel = match &input.channel_id {
            None => return Err(AgentOsError::Validation("blackboard post requires a channel")),
            Some(c) => c,
        };
        if !contains_text(&profile.blackboard.allowed_channels, channel.as_str()) {
            return Err(AgentOsError::PermissionDenied("blackboard channel is not allowed"));
        }
        if !contains_text(&profile.blackboard.allowed_entry_types, blackboard_section_key(input.section)) {
            return Err(AgentOsError::PermissionDenied("blackboard entry type is not allowed"));
        }
        let cites_nothing = input.source_evidence_ids.len() == 0;
        if (input.section == BlackboardSection::KnownFact || input.section == BlackboardSection::Decision) && cites_nothing {
            return Err(AgentOsError::Validation("facts and decisions require evidence provenance"));
        }
        self.check_provenance(input.goal_id.as_str(), &input.source_evidence_ids)
    }

    /// Checks a post against the sender thread, its goal and task, its
    /// communication profile and its cited evidence. On success gives the
    /// posting agent and the task the post is bound to.
    pub fn validate_blackboard_post(&self, input: &PostBlackboardInput) -> (r: Result<(String, Option<String>), AgentOsError>)
        requires
            self.wf(),
        ensures
            match blackboard_post_error(*self, *input) {
                Some(e) => r == Err::<(String, Option<String>), AgentOsError>(e),
                None => r is Ok && r.unwrap().0@ == input.source_agent_id@ && opt_text(r.unwrap().1) == opt_text(input.task_id),
            },
    {
        let k = match self.find_thread(input.source_thread_id.as_str()) {
            None => return Err(AgentOsError::NotFound("thread")),
            Some(k) => k,
        };
        let thread = &self.threads[k];
        if !crate::text::str_eq(thread.agent_id.as_str(), input.source_agent_id.as_str()) {
            return Err(AgentOsError::Validation("blackboard source agent does not match thread"));
        }
        if self.find_goal(input.goal_id.as_str()).is_none() {
            return Err(AgentOsError::NotFound("goal"));
        }
        if !crate::text::str_eq(input.goal_id.as_str(), thread.goal_id.as_str()) {
            return Err(AgentOsError::PermissionDenied("blackboard post goal must match source thread goal"));
        }
        if input.scope == CommunicationScope::Task && input.task_id.is_none() {
            return Err(AgentOsError::Validation("task-scoped blackboard post requires task_id"));
        }
        if let Some(task_id) = &input.task_id {
            let j = match self.find_task(task_id.as_str()) {
                None => return Err(AgentOsError::NotFound("task")),
                Some(j) => j,
            };
            if !crate::text::str_eq(self.tasks[j].goal_id.as_str(), input.goal_id.as_str()) {
                return Err(AgentOsError::Validation("blackboard task does not belong to goal"));
            }
        }
        match self.check_post_profile(input, thread.communication_profile_id.as_str()) {
            Err(e) => Err(e),
            Ok(()) => {
                let task = match &input.task_id {
                    Some(t) => Some(t.clone()),
                    None => None,
                };
                Ok((thread.agent_id.clone(), task))
            },
        }
    }

    /// Publishes a post as entry `entry_id` at time `now`, once
    /// `validate_blackboard_post` accepts it. The entry is active, carries
    /// the post's goal, task, section, content and evidence, and names the
    /// posting agent.
    pub fn post_blackboard(&mut self, input: PostBlackboardInput, entry_id: String, now: String) -> (r: Result<BlackboardEntry, AgentOsError>)
        requires
            old(self).wf(),
        ensures
            final(self).wf(),
            post_blackboard_post(*old(self), *final(self), input, entry_id, now, r),
    {
        match self.validate_blackboard_post(&input) {
            Err(e) => Err(e),
            Ok(_) => {
                let entry = BlackboardEntry {
                    entry_id,
                    goal_id: input.goal_id,
                    task_id: input.task_id,
                    section: input.section,
                    status: BlackboardStatus::Active,
                    content: input.content,
                    source_evidence_ids: input.source_evidence_ids,
                    created_by_agent_id: Some(input.source_agent_id),
                    created_at: now,
                    superseded_by: None,
                };
                let stored = entry.duplicate();
                keep_record(&mut self.blackboard_entries, stored);
                Ok(entry)
            },
        }
    }
}

impl Projected for BlackboardEntry {
    open spec fn key_of(&self) -> Seq<char> {
        self.entry_id@
    }

    fn key(&self) -> (r: &str) {
        self.entry_id.as_str()
    }
}

/// Two entries that agree field by field.
pub open spec fn same_entry(a: BlackboardEntry, b: BlackboardEntry) -> bool {
    &&& a == (BlackboardEntry { content: a.content, source_evidence_ids: a.source_evidence_ids, ..b })
    &&& json_same(a.content, b.content)
    &&& a.source_evidence_ids@ == b.source_evidence_ids@
}

impl BlackboardEntry {
    /// A copy of this entry.
    pub fn duplicate(&self) -> (r: BlackboardEntry)
        ensures
            same_entry(*self, r),
    {
        BlackboardEntry {
            entry_id: self.entry_id.clone(),
            goal_id: self.goal_id.clone(),
            task_id: copy_opt_string(&self.task_id),
            section: self.section,
            status: self.status,
            content: self.content.duplicate(),
            source_evidence_ids: copy_strings(&self.source_evidence_ids),
            created_by_agent_id: copy_opt_string(&self.created_by_agent_id),
            created_at: self.created_at.clone(),
            superseded_by: copy_opt_string(&self.superseded_by),
        }
    }
}

/// What `post_blackboard` ensures: a refused post changes nothing; an
/// accepted one gives back the new entry and keeps a copy of it under its
/// id among the blackboard entries, and nothing else changes.
pub open spec fn post_blackboard_post(
    pre: KernelState,
    post: KernelState,
    input: PostBlackboardInput,
    entry_id: String,
    now: String,
    r: Result<BlackboardEntry, AgentOsError>,
) -> bool {
    &&& (match blackboard_post_error(pre, input) {
                Some(e) => r == Err::<BlackboardEntry, AgentOsError>(e) && post == pre,
                None => r matches Ok(entry) && {
                    &&& entry.entry_id == entry_id
                    &&& entry.goal_id == input.goal_id
                    &&& entry.task_id == input.task_id
                    &&& entry.section == input.section
                    &&& entry.status == BlackboardStatus::Active
                    &&& entry.content == input.content
                    &&& entry.source_evidence_ids == input.source_evidence_ids
                    &&& entry.created_by_agent_id == Some(input.source_agent_id)
                    &&& entry.created_at == now
                    &&& entry.superseded_by is None
                    &&& exists|stored: BlackboardEntry| same_entry(entry, stored)
                        && #[trigger] with_record(pre.blackboard_entries@, stored) == post.blackboard_entries@
                    &&& post == (KernelState { blackboard_entries: post.blackboard_entries, ..pre })
                },
            })
}

} // verus!
