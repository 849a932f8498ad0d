//! Communication gates: which messages an agent may send on which route,
//! and which blackboard posts it may publish.
use vstd::prelude::*;
use crate::text::{str_eq, copy_strings};
use crate::error::AgentOsError;
use crate::agents::ProfileStatus;
use crate::json::{JsonValue, member, text_of};
use crate::scope::{texts, names_allow, string_list_allows};
use crate::state::{KernelState, AuditRecord, AuditActorType, AuditResult, EvidenceStatus, has_thread, thread_pos, has_goal, has_task, task_pos, has_evidence,
    evidence_pos, has_comm_profile, comm_profile_pos};

verus! {

/// How far a message or post reaches.
#[derive(Debug, Clone, Copy, PartialEq, Eq, Structural)]
pub enum CommunicationScope {
    Isolated,
    Task,
    Goal,
    Global,
}

/// The reach of a scope: `Isolated` < `Task` < `Goal` < `Global`.
pub open spec fn scope_rank(s: CommunicationScope) -> int {
    match s {
        CommunicationScope::Isolated => 0,
        CommunicationScope::Task => 1,
        CommunicationScope::Goal => 2,
        CommunicationScope::Global => 3,
    }
}

pub(crate) fn rank(s: CommunicationScope) -> (r: u8)
    ensures
        r as int == scope_rank(s),
{
    match s {
        CommunicationScope::Isolated => 0,
        CommunicationScope::Task => 1,
        CommunicationScope::Goal => 2,
        CommunicationScope::Global => 3,
    }
}

/// Which channel a message travels on.
#[derive(Debug, Clone, Copy, PartialEq, Eq, Structural)]
pub enum MessageRoute {
    Supervisor,
    Blackboard,
    Human,
}

#[derive(Debug, Clone, Copy, PartialEq, Eq, Structural)]
pub enum MessageDeliveryStatus {
    Delivered,
    Rejected,
}

/// Messages to the supervisor.
#[derive(Debug)]
pub struct SupervisorRoute {
    pub enabled: bool,
    pub allowed_message_types: Vec<String>,
    pub trigger_turn: bool,
    pub rate_limit: Option<String>,
}

/// Posts to the shared blackboard.
#[derive(Debug)]
pub struct BlackboardRoute {
    pub enabled: bool,
    pub allowed_scopes: CommunicationScope,
    pub allowed_channels: Vec<String>,
    pub allowed_entry_types: Vec<String>,
    pub broadcast: bool,
    pub requires_review: bool,
}

/// Messages to a human.
#[derive(Debug)]
pub struct HumanRoute {
    pub enabled: bool,
    pub allowed_message_types: Vec<String>,
    pub requires_supervisor_approval: bool,
    pub attention_budget: Option<u32>,
}

/// What a completion report may carry.
#[derive(Debug, Clone, Copy, PartialEq, Eq, Structural)]
pub struct CompletionRoute {
    pub required_report: bool,
    pub allowed_artifact_refs: bool,
    pub allowed_evidence_refs: bool,
}

/// The routes an agent thread may use.
#[derive(Debug)]
pub struct CommunicationProfile {
    pub communication_profile_id: String,
    pub agent_id: String,
    pub thread_id: String,
    pub status: ProfileStatus,
    pub supervisor: SupervisorRoute,
    pub blackboard: BlackboardRoute,
    pub human: HumanRoute,
    pub completion: CompletionRoute,
    pub created_at: String,
}

/// `b` holds what `a` holds.
pub open spec fn same_profile(a: CommunicationProfile, b: CommunicationProfile) -> bool {
    &&& a.communication_profile_id == b.communication_profile_id
    &&& a.agent_id == b.agent_id
    &&& a.thread_id == b.thread_id
    &&& a.status == b.status
    &&& a.supervisor.enabled == b.supervisor.enabled
    &&& a.supervisor.allowed_message_types@ == b.supervisor.allowed_message_types@
    &&& a.supervisor.trigger_turn == b.supervisor.trigger_turn
    &&& a.supervisor.rate_limit == b.supervisor.rate_limit
    &&& a.blackboard.enabled == b.blackboard.enabled
    &&& a.blackboard.allowed_scopes == b.blackboard.allowed_scopes
    &&& a.blackboard.allowed_channels@ == b.blackboard.allowed_channels@
    &&& a.blackboard.allowed_entry_types@ == b.blackboard.allowed_entry_types@
    &&& a.blackboard.broadcast == b.blackboard.broadcast
    &&& a.blackboard.requires_review == b.blackboard.requires_review
    &&& a.human.enabled == b.human.enabled
    &&& a.human.allowed_message_types@ == b.human.allowed_message_types@
    &&& a.human.requires_supervisor_approval == b.human.requires_supervisor_approval
    &&& a.human.attention_budget == b.human.attention_budget
    &&& a.completion == b.completion
    &&& a.created_at == b.created_at
}

impl CommunicationProfile {
    /// A copy of this profile.
    pub fn duplicate(&self) -> (r: CommunicationProfile)
        ensures
            same_profile(*self, r),
    {
        CommunicationProfile {
            communication_profile_id: self.communication_profile_id.clone(),
            agent_id: self.agent_id.clone(),
            thread_id: self.thread_id.clone(),
            status: self.status,
            supervisor: SupervisorRoute {
                enabled: self.supervisor.enabled,
                allowed_message_types: copy_strings(&self.supervisor.allowed_message_types),
                trigger_turn: self.supervisor.trigger_turn,
                rate_limit: crate::lifecycle::copy_opt_string(&self.supervisor.rate_limit),
            },
            blackboard: BlackboardRoute {
                enabled: self.blackboard.enabled,
                allowed_scopes: self.blackboard.allowed_scopes,
                allowed_channels: copy_strings(&self.blackboard.allowed_channels),
                allowed_entry_types: copy_strings(&self.blackboard.allowed_entry_types),
                broadcast: self.blackboard.broadcast,
                requires_review: self.blackboard.requires_review,
            },
            human: HumanRoute {
                enabled: self.human.enabled,
                allowed_message_types: copy_strings(&self.human.allowed_message_types),
                requires_supervisor_approval: self.human.requires_supervisor_approval,
                attention_budget: self.human.attention_budget,
            },
            completion: self.completion,
            created_at: self.created_at.clone(),
        }
    }
}

/// A message an agent asks to send.
#[derive(Debug)]
pub struct SendMessageInput {
    pub message_type: String,
    pub route: MessageRoute,
    pub source_agent_id: String,
    pub source_thread_id: String,
    pub target_agent_id: Option<String>,
    pub target_thread_id: Option<String>,
    pub channel_id: Option<String>,
    pub goal_id: String,
    pub task_id: String,
    pub risk_level: u8,
    pub payload: JsonValue,
    pub artifact_refs: Vec<String>,
    pub evidence_refs: Vec<String>,
}

/// A message as recorded, delivered or rejected.
#[derive(Debug)]
pub struct AgentMessage {
    pub message_id: String,
    pub message_type: String,
    pub route: MessageRoute,
    pub source_agent_id: String,
    pub source_thread_id: String,
    pub target_agent_id: Option<String>,
    pub target_thread_id: Option<String>,
    pub channel_id: Option<String>,
    pub goal_id: String,
    pub task_id: String,
    pub risk_level: u8,
    pub trigger_turn: bool,
    pub requires_review: bool,
    pub payload: JsonValue,
    pub artifact_refs: Vec<String>,
    pub evidence_refs: Vec<String>,
    pub delivery_status: MessageDeliveryStatus,
    pub rejected_reason: Option<&'static str>,
    pub created_at: String,
    pub delivered_at: Option<String>,
}

/// What became of a sent message.
#[derive(Debug, Clone, Copy, PartialEq, Eq)]
pub struct MessageDelivery {
    pub delivery_status: MessageDeliveryStatus,
    pub rejected_reason: Option<&'static str>,
    pub trigger_turn: bool,
    pub requires_review: bool,
}

/// The communication scope a blackboard payload names.
pub open spec fn comm_scope_named(text: Seq<char>) -> CommunicationScope {
    if text == "task"@ {
        CommunicationScope::Task
    } else if text == "goal"@ {
        CommunicationScope::Goal
    } else if text == "global"@ {
        CommunicationScope::Global
    } else {
        CommunicationScope::Isolated
    }
}

/// Reads a scope name: `task`, `goal` or `global`; anything else reaches nowhere.
pub fn parse_comm_scope(value: &str) -> (r: CommunicationScope)
    ensures
        r == comm_scope_named(value@),
{
    if str_eq(value, "task") {
        CommunicationScope::Task
    } else if str_eq(value, "goal") {
        CommunicationScope::Goal
    } else if str_eq(value, "global") {
        CommunicationScope::Global
    } else {
        CommunicationScope::Isolated
    }
}

/// The verdict of a route that only checks its switch and message types.
pub open spec fn route_verdict(enabled: bool, allowed: Seq<Seq<char>>, message_type: Seq<char>, disabled_reason: &'static str) -> (bool, Option<&'static str>) {
    if !enabled {
        (false, Some(disabled_reason))
    } else if !names_allow(allowed, message_type) {
        (false, Some("message type is not allowed"))
    } else {
        (true, None)
    }
}

/// Whether a route admits a message type: it must be enabled and list the type (or `*`).
pub fn route_allowed(enabled: bool, allowed_types: &Vec<String>, message_type: &str, disabled_reason: &'static str) -> (r: (bool, Option<&'static str>))
    ensures
        r == route_verdict(enabled, texts(allowed_types@), message_type@, disabled_reason),
{
    if !enabled {
        return (false, Some(disabled_reason));
    }
    if !string_list_allows(allowed_types.as_slice(), message_type) {
        return (false, Some("message type is not allowed"));
    }
    (true, None)
}

/// The verdict of the blackboard route on a message.
pub open spec fn blackboard_verdict(p: CommunicationProfile, input: SendMessageInput) -> (bool, Option<&'static str>) {
    let scope = match text_of(member(input.payload, "scope"@)) {
        Some(t) => comm_scope_named(t),
        None => CommunicationScope::Task,
    };
    if !p.blackboard.enabled {
        (false, Some("blackboard route is not allowed"))
    } else if input.message_type@ != "BlackboardPost"@ {
        (false, Some("blackboard route requires BlackboardPost message type"))
    } else if scope_rank(scope) > scope_rank(p.blackboard.allowed_scopes) {
        (false, Some("blackboard scope exceeds profile"))
    } else if input.channel_id is Some && !texts(p.blackboard.allowed_channels@).contains(input.channel_id.unwrap()@) {
        (false, Some("blackboard channel is not allowed"))
    } else {
        match text_of(member(input.payload, "entry_type"@)) {
            None => (false, Some("blackboard post requires entry_type")),
            Some(entry_type) => if !texts(p.blackboard.allowed_entry_types@).contains(entry_type) {
                (false, Some("blackboard entry type is not allowed"))
            } else {
                (true, None)
            },
        }
    }
}

/// The verdict of the profile on a message.
pub open spec fn communication_verdict(p: CommunicationProfile, input: SendMessageInput) -> (bool, Option<&'static str>) {
    match input.route {
        MessageRoute::Supervisor => route_verdict(
            p.supervisor.enabled,
            texts(p.supervisor.allowed_message_types@),
            input.message_type@,
            "supervisor route is not allowed",
        ),
        MessageRoute::Blackboard => blackboard_verdict(p, input),
        MessageRoute::Human => route_verdict(
            p.human.enabled,
            texts(p.human.allowed_message_types@),
            input.message_type@,
            "human route is not allowed",
        ),
    }
}

pub(crate) fn contains_text(list: &Vec<String>, value: &str) -> (r: bool)
    ensures
        r == texts(list@).contains(value@),
{
    let mut i: usize = 0;
    while i < list.len()
        invariant
            i <= list@.len(),
            forall|j: int| 0 <= j < i ==> list@[j]@ != value@,
        decreases list@.len() - i,
    {
        if str_eq(list[i].as_str(), value) {
            assert(texts(list@)[i as int] == value@);
            return true;
        }
        i = i + 1;
    }
    assert forall|j: int| 0 <= j < texts(list@).len() implies texts(list@)[j] != value@ by {
        assert(texts(list@)[j] == list@[j]@);
    }
    false
}

/// Whether the profile lets `input` through, and why not when it does not.
pub fn communication_allowed(profile: &CommunicationProfile, input: &SendMessageInput) -> (r: (bool, Option<&'static str>))
    ensures
        r == communication_verdict(*profile, *input),
{
    match input.route {
        MessageRoute::Supervisor => route_allowed(
            profile.supervisor.enabled,
            &profile.supervisor.allowed_message_types,
            input.message_type.as_str(),
            "supervisor route is not allowed",
        ),
        MessageRoute::Blackboard => {
            if !profile.blackboard.enabled {
                return (false, Some("blackboard route is not allowed"));
            }
            if !str_eq(input.message_type.as_str(), "BlackboardPost") {
                return (false, Some("blackboard route requires BlackboardPost message type"));
            }
            let scope = match input.payload.get_str("scope") {
                Some(t) => parse_comm_scope(t),
                None => CommunicationScope::Task,
            };
            if rank(scope) > rank(profile.blackboard.allowed_scopes) {
                return (false, Some("blackboard scope exceeds profile"));
            }
            if let Some(channel) = &input.channel_id {
                if !contains_text(&profile.blackboard.allowed_channels, channel.as_str()) {
                    return (false, Some("blackboard channel is not allowed"));
                }
            }
            let entry_type = match input.payload.get_str("entry_type") {
                None => return (false, Some("blackboard post requires entry_type")),
                Some(e) => e,
            };
            if !contains_text(&profile.blackboard.allowed_entry_types, entry_type) {
                return (false, Some("blackboard entry type is not allowed"));
            }
            (true, None)
        },
        MessageRoute::Human => route_allowed(
            profile.human.enabled,
            &profile.human.allowed_message_types,
            input.message_type.as_str(),
            "human route is not allowed",
        ),
    }
}

/// A message goes through exactly when no reason refuses it, and only over
/// a route its profile opens. A supervisor or human message needs the route
/// enabled and its type listed. A blackboard post needs the blackboard
/// enabled, the `BlackboardPost` type, an allowed channel when it names one,
/// a listed entry type, and a scope (task when the payload names none) that
/// reaches no further than the profile's: a global post needs a global
/// profile, a goal post a goal or global one, a task post anything but an
/// isolated one.
pub proof fn law_message_allowed_within_profile(p: CommunicationProfile, input: SendMessageInput)
    ensures
        communication_verdict(p, input).0 <==> communication_verdict(p, input).1 is None,
        communication_verdict(p, input).0 && input.route == MessageRoute::Supervisor ==> p.supervisor.enabled
            && names_allow(texts(p.supervisor.allowed_message_types@), input.message_type@),
        communication_verdict(p, input).0 && input.route == MessageRoute::Human ==> p.human.enabled
            && names_allow(texts(p.human.allowed_message_types@), input.message_type@),
        communication_verdict(p, input).0 && input.route == MessageRoute::Blackboard ==> {
            let named = text_of(member(input.payload, "scope"@));
            let allowed = p.blackboard.allowed_scopes;
            &&& p.blackboard.enabled
            &&& input.message_type@ == "BlackboardPost"@
            &&& named == Some("global"@) ==> allowed == CommunicationScope::Global
            &&& named == Some("goal"@) ==> (allowed == CommunicationScope::Goal || allowed == CommunicationScope::Global)
            &&& (named is None || named == Some("task"@)) ==> allowed != CommunicationScope::Isolated
            &&& input.channel_id matches Some(c) ==> texts(p.blackboard.allowed_channels@).contains(c@)
            &&& text_of(member(input.payload, "entry_type"@)) matches Some(e)
                && texts(p.blackboard.allowed_entry_types@).contains(e)
        },
{
    reveal_strlit("global");
    reveal_strlit("goal");
    reveal_strlit("task");
    assert("global"@ != "task"@ && "global"@ != "goal"@) by {
        assert("global"@.len() != "task"@.len());
        assert("global"@.len() != "goal"@.len());
    }
    assert("goal"@ != "task"@) by {
        assert("goal"@[0] != "task"@[0]);
    }
    assert(comm_scope_named("global"@) == CommunicationScope::Global);
    assert(comm_scope_named("goal"@) == CommunicationScope::Goal);
    assert(comm_scope_named("task"@) == CommunicationScope::Task);
}

/// Conversely, a message that its route admits goes through: an enabled
/// supervisor or human route with its type listed, or a blackboard post of
/// type `BlackboardPost` on an enabled blackboard whose scope is within the
/// profile's, naming an allowed channel (or none) and a listed entry type.
pub proof fn law_admitted_message_goes_through(p: CommunicationProfile, input: SendMessageInput)
    ensures
        input.route == MessageRoute::Supervisor && p.supervisor.enabled && names_allow(
            texts(p.supervisor.allowed_message_types@),
            input.message_type@,
        ) ==> communication_verdict(p, input) == (true, None::<&'static str>),
        input.route == MessageRoute::Human && p.human.enabled && names_allow(
            texts(p.human.allowed_message_types@),
            input.message_type@,
        ) ==> communication_verdict(p, input) == (true, None::<&'static str>),
        ({
            let named = text_of(member(input.payload, "scope"@));
            let allowed = p.blackboard.allowed_scopes;
            &&& input.route == MessageRoute::Blackboard
            &&& p.blackboard.enabled
            &&& input.message_type@ == "BlackboardPost"@
            &&& allowed == CommunicationScope::Global || (allowed == CommunicationScope::Goal && named != Some("global"@))
                || (allowed == CommunicationScope::Task && (named is None || named == Some("task"@)))
            &&& input.channel_id matches Some(c) ==> texts(p.blackboard.allowed_channels@).contains(c@)
            &&& text_of(member(input.payload, "entry_type"@)) matches Some(e)
                && texts(p.blackboard.allowed_entry_types@).contains(e)
        }) ==> communication_verdict(p, input) == (true, None::<&'static str>),
{
    reveal_strlit("global");
    reveal_strlit("goal");
    reveal_strlit("task");
    assert("global"@ != "task"@ && "global"@ != "goal"@) by {
        assert("global"@.len() != "task"@.len());
        assert("global"@.len() != "goal"@.len());
    }
    assert("goal"@ != "task"@) by {
        assert("goal"@[0] != "task"@[0]);
    }
    assert(comm_scope_named("global"@) == CommunicationScope::Global);
    assert(comm_scope_named("goal"@) == CommunicationScope::Goal);
    assert(comm_scope_named("task"@) == CommunicationScope::Task);
}

/// Whether a delivered message on `route` wakes the receiver for a new turn.
pub open spec fn triggers_turn(p: CommunicationProfile, route: MessageRoute) -> bool {
    match route {
        MessageRoute::Supervisor => p.supervisor.trigger_turn,
        _ => false,
    }
}

/// Whether a message on `route` needs review.
pub open spec fn needs_review(p: CommunicationProfile, route: MessageRoute) -> bool {
    match route {
        MessageRoute::Blackboard => p.blackboard.requires_review,
        MessageRoute::Human => p.human.requires_supervisor_approval,
        _ => false,
    }
}

/// The thread sending `input`, when its agent matches.
pub open spec fn send_error(state: KernelState, input: SendMessageInput) -> Option<AgentOsError> {
    if !has_thread(state.threads@, input.source_thread_id@) {
        Some(AgentOsError::NotFound("thread"))
    } else {
        let t = state.threads@[thread_pos(state.threads@, input.source_thread_id@)];
        if t.agent_id@ != input.source_agent_id@ {
            Some(AgentOsError::Validation("message source agent does not match thread"))
        } else if !has_comm_profile(state.communication_profiles@, t.communication_profile_id@) {
            Some(AgentOsError::NotFound("communication profile"))
        } else {
            None
        }
    }
}

/// The profile that governs what the thread sending `input` may say.
pub open spec fn sender_profile(state: KernelState, input: SendMessageInput) -> CommunicationProfile {
    let t = state.threads@[thread_pos(state.threads@, input.source_thread_id@)];
    state.communication_profiles@[comm_profile_pos(state.communication_profiles@, t.communication_profile_id@)]
}

impl KernelState {
    /// Sends a message as `message_id` at time `now`. The sender thread must
    /// exist, belong to the sending agent and have a communication profile;
    /// the message is then recorded either delivered or rejected with the
    /// profile's reason.
    pub fn send_message(&mut self, input: SendMessageInput, message_id: String, audit_id: String, now: String) -> (r: Result<MessageDelivery, AgentOsError>)
        requires
            old(self).wf(),
        ensures
            send_message_post(*old(self), *final(self), input, message_id, audit_id, now, r),
    {
        let k = match self.find_thread(input.source_thread_id.as_str()) {
            None => return Err(AgentOsError::NotFound("thread")),
            Some(k) => k,
        };
        if !str_eq(self.threads[k].agent_id.as_str(), input.source_agent_id.as_str()) {
            return Err(AgentOsError::Validation("message source agent does not match thread"));
        }
        let p = match self.find_communication_profile(self.threads[k].communication_profile_id.as_str()) {
            None => return Err(AgentOsError::NotFound("communication profile")),
            Some(p) => p,
        };
        let profile = &self.communication_profiles[p];
        let (allowed, reason) = communication_allowed(profile, &input);
        let trigger_turn = match input.route {
            MessageRoute::Supervisor => profile.supervisor.trigger_turn,
            _ => false,
        };
        let requires_review = match input.route {
            MessageRoute::Blackboard => profile.blackboard.requires_review,
            MessageRoute::Human => profile.human.requires_supervisor_approval,
            _ => false,
        };
        let status = if allowed { MessageDeliveryStatus::Delivered } else { MessageDeliveryStatus::Rejected };
        let denial = if allowed {
            None
        } else {
            Some(AuditRecord {
                audit_id,
                actor_type: AuditActorType::Agent,
                actor_id: input.source_agent_id.clone(),
                action: String::from_str("communication.denied"),
                resource_type: String::from_str("message"),
                resource_id: message_id.clone(),
                reason,
                result: AuditResult::Deny,
                created_at: now.clone(),
            })
        };
        let message = AgentMessage {
            message_id,
            message_type: input.message_type,
            route: input.route,
            source_agent_id: input.source_agent_id,
            source_thread_id: input.source_thread_id,
            target_agent_id: input.target_agent_id,
            target_thread_id: input.target_thread_id,
            channel_id: input.channel_id,
            goal_id: input.goal_id,
            task_id: input.task_id,
            risk_level: input.risk_level,
            trigger_turn,
            requires_review,
            payload: input.payload,
            artifact_refs: input.artifact_refs,
            evidence_refs: input.evidence_refs,
            delivery_status: status,
            rejected_reason: reason,
            created_at: now.clone(),
            delivered_at: if allowed { Some(now) } else { None },
        };
        self.messages.push(message);
        match denial {
            Some(a) => self.audit_events.push(a),
            None => {},
        }
        Ok(MessageDelivery { delivery_status: status, rejected_reason: reason, trigger_turn, requires_review })
    }
}

/// What `send_message` ensures, as a relation between the state before and after the call, its arguments and its result.
pub open spec fn send_message_post(
    pre: KernelState,
    post: KernelState,
    input: SendMessageInput,
    message_id: String,
    audit_id: String,
    now: String,
    r: Result<MessageDelivery, AgentOsError>,
) -> bool {
    &&& (post.wf())
    &&& (send_error(pre, input) matches Some(e) ==> r == Err::<MessageDelivery, AgentOsError>(e) && post == pre)
    &&& (send_error(pre, input) is None ==> {
                let p = sender_profile(pre, input);
                let (allowed, reason) = communication_verdict(p, input);
                let m = post.messages@.last();
                &&& post.messages@ == pre.messages@.push(m)
                &&& post == (KernelState { messages: post.messages, audit_events: post.audit_events, ..pre })
                &&& (allowed ==> post.audit_events@ == pre.audit_events@)
                &&& (!allowed ==> {
                    let a = post.audit_events@.last();
                    &&& post.audit_events@ == pre.audit_events@.push(a)
                    &&& a.audit_id == audit_id
                    &&& a.actor_type == AuditActorType::Agent
                    &&& a.actor_id == input.source_agent_id
                    &&& a.action@ == "communication.denied"@
                    &&& a.resource_type@ == "message"@
                    &&& a.resource_id == message_id
                    &&& a.reason == reason
                    &&& a.result == AuditResult::Deny
                    &&& a.created_at == now
                })
                &&& r == Ok::<MessageDelivery, AgentOsError>(MessageDelivery {
                    delivery_status: if allowed { MessageDeliveryStatus::Delivered } else { MessageDeliveryStatus::Rejected },
                    rejected_reason: reason,
                    trigger_turn: triggers_turn(p, input.route),
                    requires_review: needs_review(p, input.route),
                })
                &&& m.message_id == message_id
                &&& m.message_type == input.message_type
                &&& m.route == input.route
                &&& m.source_agent_id == input.source_agent_id
                &&& m.source_thread_id == input.source_thread_id
                &&& m.goal_id == input.goal_id
                &&& m.task_id == input.task_id
                &&& m.delivery_status == r.unwrap().delivery_status
                &&& m.rejected_reason == reason
                &&& m.trigger_turn == triggers_turn(p, input.route)
                &&& m.requires_review == needs_review(p, input.route)
                &&& m.created_at == now
                &&& m.delivered_at == (if allowed { Some(now) } else { None })
            })
}

} // verus!
