//! Model routing and provider stream sessions: which model alias a
//! request is served by (requested, by role, or the profile's default,
//! falling back along the profile's chain), and the sessions that record
//! a stream's events and usage.
use vstd::prelude::*;
use crate::error::AgentOsError;
use crate::json::{JsonValue, JsonNumber, member, text_of, json_same};
use crate::state::{KernelState, has_thread, has_task, has_profile, profile_pos};
use crate::agents::ProfileStatus;
use crate::text::{str_eq, copy_strings};

verus! {

/// A request to stream from a model.
#[derive(Debug)]
pub struct StreamRequest {
    pub thread_id: String,
    pub task_id: String,
    pub provider_profile_id: String,
    pub model_routing_policy_id: String,
    pub requested_model_alias: Option<String>,
    pub role: String,
    pub output_schema: Option<JsonValue>,
}

/// A routing policy: rules `{"when": {"role": ..}, "use": {"model_alias": ..}}`.
#[derive(Debug)]
pub struct RoutingPolicy {
    pub routing_policy_id: String,
    pub status: ProfileStatus,
    pub rules: Vec<JsonValue>,
}

/// A model alias and the provider model behind it.
#[derive(Debug)]
pub struct ModelAlias {
    pub model_alias_id: String,
    pub alias: String,
    pub provider_id: String,
    pub provider_model_name: String,
    pub capabilities: JsonValue,
    pub limits: JsonValue,
    pub cost: JsonValue,
    pub status: String,
    pub created_at: String,
    pub updated_at: String,
}

/// The model a request is routed to.
#[derive(Debug)]
pub struct ProviderRouteDecision {
    pub provider_profile_id: String,
    pub routing_policy_id: String,
    pub requested_model_alias: Option<String>,
    pub selected_model_alias: String,
    pub provider_id: String,
    pub provider_model_name: String,
    pub fallback_applied: bool,
    pub fallback_from_model_alias: Option<String>,
    pub resolved_at: String,
}

/// Whether a stream session still takes events.
#[derive(Debug, Clone, Copy, PartialEq, Eq, Structural)]
pub enum ProviderStreamStatus {
    Open,
    Completed,
}

/// What a stream event records.
#[derive(Debug, Clone, Copy, PartialEq, Eq, Structural)]
pub enum ProviderStreamEventType {
    ProviderFallback,
    StreamStarted,
    TextDelta,
    UsageUpdated,
    StreamCompleted,
}

/// One event of a stream.
#[derive(Debug)]
pub struct ProviderStreamEvent {
    pub event_id: String,
    pub session_id: String,
    pub event_type: ProviderStreamEventType,
    pub payload: JsonValue,
    pub created_at: String,
}

/// Tokens and cost a stream used; cost in millionths of the currency unit.
#[derive(Debug, Clone, Copy, PartialEq, Eq, Structural)]
pub struct ProviderUsage {
    pub input_tokens: u64,
    pub output_tokens: u64,
    pub cost_micros: u64,
}

/// A stream from a provider.
#[derive(Debug)]
pub struct ProviderStreamSession {
    pub session_id: String,
    pub request: StreamRequest,
    pub route_decision: ProviderRouteDecision,
    pub status: ProviderStreamStatus,
    pub stream_events: Vec<ProviderStreamEvent>,
    pub usage: ProviderUsage,
    pub created_at: String,
    pub completed_at: Option<String>,
}

pub open spec fn has_alias(aliases: Seq<ModelAlias>, a: Seq<char>) -> bool {
    exists|i: int| 0 <= i < aliases.len() && aliases[i].alias@ == a
}

pub open spec fn alias_pos(aliases: Seq<ModelAlias>, a: Seq<char>) -> int {
    choose|i: int| 0 <= i < aliases.len() && aliases[i].alias@ == a
}

pub open spec fn aliases_unique(aliases: Seq<ModelAlias>) -> bool {
    forall|i: int, j: int| 0 <= i < aliases.len() && 0 <= j < aliases.len() && #[trigger] aliases[i].alias@ == #[trigger] aliases[j].alias@ ==> i == j
}

pub open spec fn has_policy(ps: Seq<RoutingPolicy>, id: Seq<char>) -> bool {
    exists|i: int| 0 <= i < ps.len() && ps[i].routing_policy_id@ == id
}

pub open spec fn policy_pos(ps: Seq<RoutingPolicy>, id: Seq<char>) -> int {
    choose|i: int| 0 <= i < ps.len() && ps[i].routing_policy_id@ == id
}

pub open spec fn policy_ids_unique(ps: Seq<RoutingPolicy>) -> bool {
    forall|i: int, j: int| 0 <= i < ps.len() && 0 <= j < ps.len() && #[trigger] ps[i].routing_policy_id@ == #[trigger] ps[j].routing_policy_id@ ==> i == j
}

pub open spec fn has_session(ss: Seq<ProviderStreamSession>, id: Seq<char>) -> bool {
    exists|i: int| 0 <= i < ss.len() && ss[i].session_id@ == id
}

pub open spec fn session_pos(ss: Seq<ProviderStreamSession>, id: Seq<char>) -> int {
    choose|i: int| 0 <= i < ss.len() && ss[i].session_id@ == id
}

pub open spec fn session_ids_unique(ss: Seq<ProviderStreamSession>) -> bool {
    forall|i: int, j: int| 0 <= i < ss.len() && 0 <= j < ss.len() && #[trigger] ss[i].session_id@ == #[trigger] ss[j].session_id@ ==> i == j
}

/// The boolean value of an optional member.
pub open spec fn bool_of(v: Option<JsonValue>) -> Option<bool> {
    match v {
        Some(JsonValue::Bool(b)) => Some(b),
        _ => None,
    }
}

/// The member `key` of an optional object.
pub open spec fn member_of(v: Option<JsonValue>, key: Seq<char>) -> Option<JsonValue> {
    match v {
        Some(x) => member(x, key),
        None => None,
    }
}

/// The alias a routing rule sends role `role` to, if it names that role
/// and an alias.
pub open spec fn rule_alias(rule: JsonValue, role: Seq<char>) -> Option<Seq<char>> {
    if text_of(member_of(member(rule, "when"@), "role"@)) == Some(role) {
        text_of(member_of(member(rule, "use"@), "model_alias"@))
    } else {
        None
    }
}

/// The alias the first rule naming role `role` and an alias gives.
pub open spec fn role_routing_alias(rules: Seq<JsonValue>, role: Seq<char>) -> Option<Seq<char>>
    decreases rules.len(),
{
    if rules.len() == 0 {
        None
    } else {
        match rule_alias(rules[0], role) {
            Some(a) => Some(a),
            None => role_routing_alias(rules.subrange(1, rules.len() as int), role),
        }
    }
}

/// Why alias `a` cannot stream the request: it is unknown or not active,
/// does not stream, or (when structured output is wanted) does not give it.
pub open spec fn streaming_alias_error(s: KernelState, a: Seq<char>, structured: bool) -> Option<AgentOsError> {
    let rec = s.model_aliases@[alias_pos(s.model_aliases@, a)];
    if !has_alias(s.model_aliases@, a) || rec.status@ != "Active"@ {
        Some(AgentOsError::PermissionDenied("model alias is not active or allowed"))
    } else if bool_of(member(rec.capabilities, "streaming"@)) != Some(true) {
        Some(AgentOsError::PermissionDenied("model alias does not support streaming"))
    } else if structured && bool_of(member(rec.capabilities, "structured_output"@)) != Some(true) {
        Some(AgentOsError::PermissionDenied("model alias does not support structured output"))
    } else {
        None
    }
}

/// The profile lists alias `a` among its allowed ones.
pub open spec fn profile_allows(p: crate::state::ProviderProfile, a: Seq<char>) -> bool {
    exists|i: int| 0 <= i < p.allowed_model_aliases@.len() && p.allowed_model_aliases@[i]@ == a
}

/// The first alias of `chain` from position `from` on that the profile
/// allows and that can stream.
pub open spec fn first_fallback(s: KernelState, p: crate::state::ProviderProfile, chain: Seq<String>, structured: bool) -> Option<int>
    decreases chain.len(),
{
    if chain.len() == 0 {
        None
    } else if profile_allows(p, chain[0]@) && streaming_alias_error(s, chain[0]@, structured) is None {
        Some(0)
    } else {
        match first_fallback(s, p, chain.subrange(1, chain.len() as int), structured) {
            Some(i) => Some(i + 1),
            None => None,
        }
    }
}

/// A fallback found is allowed and can stream.
proof fn lemma_first_fallback_found(s: KernelState, p: crate::state::ProviderProfile, chain: Seq<String>, structured: bool)
    ensures
        first_fallback(s, p, chain, structured) matches Some(i) ==> 0 <= i < chain.len() && profile_allows(p, chain[i]@)
            && streaming_alias_error(s, chain[i]@, structured) is None,
    decreases chain.len(),
{
    if chain.len() > 0 {
        let rest = chain.subrange(1, chain.len() as int);
        lemma_first_fallback_found(s, p, rest, structured);
        if let Some(i) = first_fallback(s, p, rest, structured) {
            assert(rest[i] == chain[i + 1]);
        }
    }
}

/// The active provider profile a request names.
pub open spec fn active_profile(s: KernelState, id: Seq<char>) -> bool {
    has_profile(s.provider_profiles@, id) && s.provider_profiles@[profile_pos(s.provider_profiles@, id)].status
        == ProfileStatus::Active
}

/// The active routing policy a request names.
pub open spec fn active_policy(s: KernelState, id: Seq<char>) -> bool {
    has_policy(s.routing_policies@, id) && s.routing_policies@[policy_pos(s.routing_policies@, id)].status
        == ProfileStatus::Active
}

/// The alias a request prefers: the one it asks for, else its role's
/// under the policy, else the profile's default.
pub open spec fn preferred_alias(s: KernelState, req: StreamRequest) -> Option<Seq<char>> {
    let p = s.provider_profiles@[profile_pos(s.provider_profiles@, req.provider_profile_id@)];
    let pol = s.routing_policies@[policy_pos(s.routing_policies@, req.model_routing_policy_id@)];
    match req.requested_model_alias {
        Some(a) => Some(a@),
        None => match role_routing_alias(pol.rules@, req.role@) {
            Some(a) => Some(a),
            None => match p.default_model_alias {
                Some(a) => Some(a@),
                None => None,
            },
        },
    }
}

/// How a request is routed: an error, or the alias chosen and, when it is
/// a fallback, the alias it replaces.
pub enum RouteOutcome {
    Refused(AgentOsError),
    Chosen(Seq<char>, Option<Seq<char>>),
}

/// The routing of request `req`: its thread, task, active profile and
/// active policy must exist; some alias must be preferred, and the
/// profile must allow it. When the preferred alias cannot stream, the
/// first alias of the profile's fallback chain that is allowed and can
/// stream replaces it; with no such alias, the preferred alias's error
/// stands.
pub open spec fn route_outcome(s: KernelState, req: StreamRequest) -> RouteOutcome {
    let p = s.provider_profiles@[profile_pos(s.provider_profiles@, req.provider_profile_id@)];
    let structured = req.output_schema is Some;
    if !has_thread(s.threads@, req.thread_id@) {
        RouteOutcome::Refused(AgentOsError::NotFound("thread"))
    } else if !has_task(s.tasks@, req.task_id@) {
        RouteOutcome::Refused(AgentOsError::NotFound("task"))
    } else if !active_profile(s, req.provider_profile_id@) {
        RouteOutcome::Refused(AgentOsError::NotFound("active provider profile"))
    } else if !active_policy(s, req.model_routing_policy_id@) {
        RouteOutcome::Refused(AgentOsError::NotFound("active routing policy"))
    } else {
        match preferred_alias(s, req) {
            None => RouteOutcome::Refused(AgentOsError::Validation("no model alias available")),
            Some(a) => if !profile_allows(p, a) {
                RouteOutcome::Refused(AgentOsError::PermissionDenied("provider profile does not allow model alias"))
            } else {
                match streaming_alias_error(s, a, structured) {
                    None => RouteOutcome::Chosen(a, None),
                    Some(e) => match first_fallback(s, p, p.fallback_chain@, structured) {
                        Some(i) => RouteOutcome::Chosen(p.fallback_chain@[i]@, Some(a)),
                        None => RouteOutcome::Refused(e),
                    },
                }
            },
        }
    }
}

/// `d` is the decision that routes `req` to alias `a` (a fallback from
/// `from`, when that is given) at `now`.
pub open spec fn is_decision(d: ProviderRouteDecision, s: KernelState, req: StreamRequest, a: Seq<char>, from: Option<Seq<char>>, now: String) -> bool {
    let rec = s.model_aliases@[alias_pos(s.model_aliases@, a)];
    &&& d.provider_profile_id@ == req.provider_profile_id@
    &&& d.routing_policy_id@ == req.model_routing_policy_id@
    &&& d.requested_model_alias == req.requested_model_alias
    &&& d.selected_model_alias@ == a
    &&& d.provider_id == rec.provider_id
    &&& d.provider_model_name == rec.provider_model_name
    &&& d.fallback_applied == from is Some
    &&& crate::ecosystem::opt_text(d.fallback_from_model_alias) == from
    &&& d.resolved_at == now
}

/// Two requests that agree field by field.
pub open spec fn same_request(a: StreamRequest, b: StreamRequest) -> bool {
    &&& a == StreamRequest { output_schema: a.output_schema, ..b }
    &&& match (a.output_schema, b.output_schema) {
        (Some(x), Some(y)) => json_same(x, y),
        (None, None) => true,
        _ => false,
    }
}

fn copy_opt(o: &Option<String>) -> (r: Option<String>)
    ensures
        r == *o,
{
    match o {
        Some(s) => Some(s.clone()),
        None => None,
    }
}

impl StreamRequest {
    /// A copy of this request.
    pub fn duplicate(&self) -> (r: StreamRequest)
        ensures
            same_request(*self, r),
    {
        StreamRequest {
            thread_id: self.thread_id.clone(),
            task_id: self.task_id.clone(),
            provider_profile_id: self.provider_profile_id.clone(),
            model_routing_policy_id: self.model_routing_policy_id.clone(),
            requested_model_alias: copy_opt(&self.requested_model_alias),
            role: self.role.clone(),
            output_schema: match &self.output_schema {
                Some(v) => Some(v.duplicate()),
                None => None,
            },
        }
    }
}

impl ProviderRouteDecision {
    /// A copy of this decision.
    pub fn duplicate(&self) -> (r: ProviderRouteDecision)
        ensures
            r == *self,
    {
        ProviderRouteDecision {
            provider_profile_id: self.provider_profile_id.clone(),
            routing_policy_id: self.routing_policy_id.clone(),
            requested_model_alias: copy_opt(&self.requested_model_alias),
            selected_model_alias: self.selected_model_alias.clone(),
            provider_id: self.provider_id.clone(),
            provider_model_name: self.provider_model_name.clone(),
            fallback_applied: self.fallback_applied,
            fallback_from_model_alias: copy_opt(&self.fallback_from_model_alias),
            resolved_at: self.resolved_at.clone(),
        }
    }
}

fn rule_alias_exec(rule: &JsonValue, role: &str) -> (r: Option<String>)
    ensures
        crate::ecosystem::opt_text(r) == rule_alias(*rule, role@),
{
    let when = match rule.get("when") {
        Some(w) => w,
        None => return None,
    };
    match when.get_str("role") {
        Some(x) => {
            if !str_eq(x, role) {
                return None;
            }
        },
        None => return None,
    }
    match rule.get("use") {
        Some(u) => match u.get_str("model_alias") {
            Some(a) => Some(String::from_str(a)),
            None => None,
        },
        None => None,
    }
}

fn role_routing_alias_exec(rules: &Vec<JsonValue>, role: &str) -> (r: Option<String>)
    ensures
        crate::ecosystem::opt_text(r) == role_routing_alias(rules@, role@),
{
    let mut i: usize = 0;
    assert(rules@.subrange(0, rules@.len() as int) =~= rules@);
    while i < rules.len()
        invariant
            i <= rules@.len(),
            role_routing_alias(rules@, role@) == role_routing_alias(rules@.subrange(i as int, rules@.len() as int), role@),
        decreases rules@.len() - i,
    {
        proof {
            let rest = rules@.subrange(i as int, rules@.len() as int);
            assert(rest[0] == rules@[i as int]);
            assert(rest.subrange(1, rest.len() as int) =~= rules@.subrange(i + 1, rules@.len() as int));
        }
        match rule_alias_exec(&rules[i], role) {
            Some(a) => return Some(a),
            None => {},
        }
        i = i + 1;
    }
    None
}

impl KernelState {
    /// The position of alias `a`, if it is registered.
    pub fn find_alias(&self, a: &str) -> (r: Option<usize>)
        requires
            aliases_unique(self.model_aliases@),
        ensures
            r.is_none() <==> !has_alias(self.model_aliases@, a@),
            r matches Some(i) ==> i == alias_pos(self.model_aliases@, a@) && i < self.model_aliases@.len(),
    {
        let mut i: usize = 0;
        while i < self.model_aliases.len()
            invariant
                i <= self.model_aliases@.len(),
                aliases_unique(self.model_aliases@),
                forall|j: int| 0 <= j < i ==> self.model_aliases@[j].alias@ != a@,
            decreases self.model_aliases@.len() - i,
        {
            if str_eq(self.model_aliases[i].alias.as_str(), a) {
                proof {
                    let k = alias_pos(self.model_aliases@, a@);
                    assert(self.model_aliases@[k].alias@ == self.model_aliases@[i as int].alias@);
                }
                return Some(i);
            }
            i = i + 1;
        }
        None
    }

    /// The position of routing policy `id`, if any.
    pub fn find_policy(&self, id: &str) -> (r: Option<usize>)
        requires
            policy_ids_unique(self.routing_policies@),
        ensures
            r.is_none() <==> !has_policy(self.routing_policies@, id@),
            r matches Some(i) ==> i == policy_pos(self.routing_policies@, id@) && i < self.routing_policies@.len(),
    {
        let mut i: usize = 0;
        while i < self.routing_policies.len()
            invariant
                i <= self.routing_policies@.len(),
                policy_ids_unique(self.routing_policies@),
                forall|j: int| 0 <= j < i ==> self.routing_policies@[j].routing_policy_id@ != id@,
            decreases self.routing_policies@.len() - i,
        {
            if str_eq(self.routing_policies[i].routing_policy_id.as_str(), id) {
                proof {
                    let k = policy_pos(self.routing_policies@, id@);
                    assert(self.routing_policies@[k].routing_policy_id@ == self.routing_policies@[i as int].routing_policy_id@);
                }
                return Some(i);
            }
            i = i + 1;
        }
        None
    }

    /// The position of stream session `id`, if any.
    pub fn find_session(&self, id: &str) -> (r: Option<usize>)
        requires
            session_ids_unique(self.provider_stream_sessions@),
        ensures
            r.is_none() <==> !has_session(self.provider_stream_sessions@, id@),
            r matches Some(i) ==> i == session_pos(self.provider_stream_sessions@, id@) && i < self.provider_stream_sessions@.len(),
    {
        let mut i: usize = 0;
        while i < self.provider_stream_sessions.len()
            invariant
                i <= self.provider_stream_sessions@.len(),
                session_ids_unique(self.provider_stream_sessions@),
                forall|j: int| 0 <= j < i ==> self.provider_stream_sessions@[j].session_id@ != id@,
            decreases self.provider_stream_sessions@.len() - i,
        {
            if str_eq(self.provider_stream_sessions[i].session_id.as_str(), id) {
                proof {
                    let k = session_pos(self.provider_stream_sessions@, id@);
                    assert(self.provider_stream_sessions@[k].session_id@ == self.provider_stream_sessions@[i as int].session_id@);
                }
                return Some(i);
            }
            i = i + 1;
        }
        None
    }

    fn streaming_alias(&self, a: &str, structured: bool) -> (r: Result<usize, AgentOsError>)
        requires
            self.wf(),
        ensures
            match streaming_alias_error(*self, a@, structured) {
                Some(e) => r == Err::<usize, AgentOsError>(e),
                None => r matches Ok(k) && k == alias_pos(self.model_aliases@, a@) && has_alias(self.model_aliases@, a@)
                    && k < self.model_aliases@.len(),
            },
    {
        let k = match self.find_alias(a) {
            None => return Err(AgentOsError::PermissionDenied("model alias is not active or allowed")),
            Some(k) => k,
        };
        let rec = &self.model_aliases[k];
        proof {
            reveal_strlit("Active");
        }
        if !str_eq(rec.status.as_str(), "Active") {
            return Err(AgentOsError::PermissionDenied("model alias is not active or allowed"));
        }
        let streaming = match rec.capabilities.get("streaming") {
            Some(JsonValue::Bool(b)) => *b,
            _ => false,
        };
        if !streaming {
            return Err(AgentOsError::PermissionDenied("model alias does not support streaming"));
        }
        if structured {
            let so = match rec.capabilities.get("structured_output") {
                Some(JsonValue::Bool(b)) => *b,
                _ => false,
            };
            if !so {
                return Err(AgentOsError::PermissionDenied("model alias does not support structured output"));
            }
        }
        Ok(k)
    }

    fn profile_allows_exec(&self, k: usize, a: &str) -> (r: bool)
        requires
            k < self.provider_profiles@.len(),
        ensures
            r == profile_allows(self.provider_profiles@[k as int], a@),
    {
        let allowed = &self.provider_profiles[k].allowed_model_aliases;
        let mut i: usize = 0;
        while i < allowed.len()
            invariant
                allowed@ == self.provider_profiles@[k as int].allowed_model_aliases@,
                i <= allowed@.len(),
                forall|j: int| 0 <= j < i ==> allowed@[j]@ != a@,
            decreases allowed@.len() - i,
        {
            if str_eq(allowed[i].as_str(), a) {
                return true;
            }
            i = i + 1;
        }
        false
    }

    fn first_fallback_exec(&self, k: usize, structured: bool) -> (r: Option<usize>)
        requires
            self.wf(),
            k < self.provider_profiles@.len(),
        ensures
            match first_fallback(*self, self.provider_profiles@[k as int], self.provider_profiles@[k as int].fallback_chain@, structured) {
                Some(i) => (r matches Some(j) && j as int == i) && 0 <= i < self.provider_profiles@[k as int].fallback_chain@.len(),
                None => r is None,
            },
    {
        let chain = &self.provider_profiles[k].fallback_chain;
        let ghost p = self.provider_profiles@[k as int];
        let mut i: usize = 0;
        assert(chain@.subrange(0, chain@.len() as int) =~= chain@);
        while i < chain.len()
            invariant
                self.wf(),
                k < self.provider_profiles@.len(),
                p == self.provider_profiles@[k as int],
                chain@ == p.fallback_chain@,
                i <= chain@.len(),
                first_fallback(*self, p, chain@, structured) == match first_fallback(
                    *self,
                    p,
                    chain@.subrange(i as int, chain@.len() as int),
                    structured,
                ) {
                    Some(j) => Some(j + i),
                    None => None,
                },
            decreases chain@.len() - i,
        {
            proof {
                let rest = chain@.subrange(i as int, chain@.len() as int);
                assert(rest[0] == chain@[i as int]);
                assert(rest.subrange(1, rest.len() as int) =~= chain@.subrange(i + 1, chain@.len() as int));
            }
            if self.profile_allows_exec(k, chain[i].as_str()) {
                match self.streaming_alias(chain[i].as_str(), structured) {
                    Ok(_) => return Some(i),
                    Err(_) => {},
                }
            }
            i = i + 1;
        }
        None
    }

    /// Routes `request` at `now` as `route_outcome` says.
    pub fn resolve_provider_route(&self, request: &StreamRequest, now: String) -> (r: Result<ProviderRouteDecision, AgentOsError>)
        requires
            self.wf(),
        ensures
            match route_outcome(*self, *request) {
                RouteOutcome::Refused(e) => r == Err::<ProviderRouteDecision, AgentOsError>(e),
                RouteOutcome::Chosen(a, from) => r matches Ok(d) && is_decision(d, *self, *request, a, from, now),
            },
    {
        if self.find_thread(request.thread_id.as_str()).is_none() {
            return Err(AgentOsError::NotFound("thread"));
        }
        if self.find_task(request.task_id.as_str()).is_none() {
            return Err(AgentOsError::NotFound("task"));
        }
        let pk = match self.find_provider_profile(request.provider_profile_id.as_str()) {
            None => return Err(AgentOsError::NotFound("active provider profile")),
            Some(pk) => pk,
        };
        if self.provider_profiles[pk].status != ProfileStatus::Active {
            return Err(AgentOsError::NotFound("active provider profile"));
        }
        let rk = match self.find_policy(request.model_routing_policy_id.as_str()) {
            None => return Err(AgentOsError::NotFound("active routing policy")),
            Some(rk) => rk,
        };
        if self.routing_policies[rk].status != ProfileStatus::Active {
            return Err(AgentOsError::NotFound("active routing policy"));
        }
        let preferred = match &request.requested_model_alias {
            Some(a) => a.clone(),
            None => match role_routing_alias_exec(&self.routing_policies[rk].rules, request.role.as_str()) {
                Some(a) => a,
                None => match &self.provider_profiles[pk].default_model_alias {
                    Some(a) => a.clone(),
                    None => return Err(AgentOsError::Validation("no model alias available")),
                },
            },
        };
        assert(preferred_alias(*self, *request) == Some(preferred@));
        if !self.profile_allows_exec(pk, preferred.as_str()) {
            return Err(AgentOsError::PermissionDenied("provider profile does not allow model alias"));
        }
        let structured = request.output_schema.is_some();
        let (ak, from) = match self.streaming_alias(preferred.as_str(), structured) {
            Ok(ak) => (ak, None),
            Err(e) => match self.first_fallback_exec(pk, structured) {
                None => return Err(e),
                Some(i) => {
                    proof {
                        lemma_first_fallback_found(
                            *self,
                            self.provider_profiles@[pk as int],
                            self.provider_profiles@[pk as int].fallback_chain@,
                            structured,
                        );
                    }
                    assert(streaming_alias_error(*self, self.provider_profiles@[pk as int].fallback_chain@[i as int]@, structured) is None);
                    let ak = match self.streaming_alias(self.provider_profiles[pk].fallback_chain[i].as_str(), structured) {
                        Ok(ak) => ak,
                        Err(e2) => return Err(e2),
                    };
                    (ak, Some(preferred))
                },
            },
        };
        let rec = &self.model_aliases[ak];
        Ok(ProviderRouteDecision {
            provider_profile_id: request.provider_profile_id.clone(),
            routing_policy_id: request.model_routing_policy_id.clone(),
            requested_model_alias: copy_opt(&request.requested_model_alias),
            selected_model_alias: rec.alias.clone(),
            provider_id: rec.provider_id.clone(),
            provider_model_name: rec.provider_model_name.clone(),
            fallback_applied: from.is_some(),
            fallback_from_model_alias: from,
            resolved_at: now,
        })
    }
}

// ---------------------------------------------------------------------------
// Stream sessions

/// A count as a JSON number.
pub open spec fn count_json(n: u64) -> JsonValue {
    JsonValue::Number(JsonNumber { mantissa: n as i128, scale: 0 })
}

/// Millionths as a JSON decimal.
pub open spec fn micros_json(n: u64) -> JsonValue {
    JsonValue::Number(JsonNumber { mantissa: n as i128, scale: 6 })
}

/// The payload of a fallback event: `{"from": .., "to": .., "provider_id": ..}`.
pub open spec fn is_fallback_payload(v: JsonValue, d: ProviderRouteDecision) -> bool {
    v matches JsonValue::Object(ms) && {
        &&& ms@.len() == 3
        &&& ms@[0].0@ == "from"@ && match d.fallback_from_model_alias {
            Some(f) => crate::artifacts::is_text(ms@[0].1, f@),
            None => ms@[0].1 is Null,
        }
        &&& ms@[1].0@ == "to"@ && crate::artifacts::is_text(ms@[1].1, d.selected_model_alias@)
        &&& ms@[2].0@ == "provider_id"@ && crate::artifacts::is_text(ms@[2].1, d.provider_id@)
    }
}

/// The payload of a start event: `{"model_alias": .., "provider_id": ..,
/// "provider_model_name": ..}`.
pub open spec fn is_started_payload(v: JsonValue, d: ProviderRouteDecision) -> bool {
    v matches JsonValue::Object(ms) && {
        &&& ms@.len() == 3
        &&& ms@[0].0@ == "model_alias"@ && crate::artifacts::is_text(ms@[0].1, d.selected_model_alias@)
        &&& ms@[1].0@ == "provider_id"@ && crate::artifacts::is_text(ms@[1].1, d.provider_id@)
        &&& ms@[2].0@ == "provider_model_name"@ && crate::artifacts::is_text(ms@[2].1, d.provider_model_name@)
    }
}

/// The payload of a usage or completion event: the totals so far.
pub open spec fn is_usage_payload(v: JsonValue, u: ProviderUsage) -> bool {
    v matches JsonValue::Object(ms) && {
        &&& ms@.len() == 3
        &&& ms@[0].0@ == "input_tokens"@ && ms@[0].1 == count_json(u.input_tokens)
        &&& ms@[1].0@ == "output_tokens"@ && ms@[1].1 == count_json(u.output_tokens)
        &&& ms@[2].0@ == "cost"@ && ms@[2].1 == micros_json(u.cost_micros)
    }
}

/// `e` is event `id` of session `session` of type `t` at `now`, its
/// payload aside.
pub open spec fn is_event(e: ProviderStreamEvent, id: String, session: Seq<char>, t: ProviderStreamEventType, now: String) -> bool {
    &&& e.event_id == id
    &&& e.session_id@ == session
    &&& e.event_type == t
    &&& e.created_at == now
}

/// Two events that agree field by field.
pub open spec fn same_event(a: ProviderStreamEvent, b: ProviderStreamEvent) -> bool {
    &&& a == ProviderStreamEvent { payload: a.payload, ..b }
    &&& json_same(a.payload, b.payload)
}

/// Two sessions that agree field by field.
pub open spec fn same_session(a: ProviderStreamSession, b: ProviderStreamSession) -> bool {
    &&& a == ProviderStreamSession { request: a.request, stream_events: a.stream_events, ..b }
    &&& same_request(a.request, b.request)
    &&& a.stream_events@.len() == b.stream_events@.len()
    &&& forall|i: int| 0 <= i < a.stream_events@.len() ==> same_event(#[trigger] a.stream_events@[i], b.stream_events@[i])
}

/// Why session `id` takes no more events: it is unknown, or not open.
pub open spec fn session_error(s: KernelState, id: Seq<char>) -> Option<AgentOsError> {
    if !has_session(s.provider_stream_sessions@, id) {
        Some(AgentOsError::NotFound("provider stream session"))
    } else if s.provider_stream_sessions@[session_pos(s.provider_stream_sessions@, id)].status != ProviderStreamStatus::Open {
        Some(AgentOsError::InvalidTransition("provider stream session is not open"))
    } else {
        None
    }
}

/// `after` is `before` with session `k` replaced by `x`.
pub open spec fn session_replaced(before: KernelState, after: KernelState, k: int, x: ProviderStreamSession) -> bool {
    &&& 0 <= k < before.provider_stream_sessions@.len()
    &&& after.provider_stream_sessions@ == before.provider_stream_sessions@.update(k, x)
    &&& after == (KernelState { provider_stream_sessions: after.provider_stream_sessions, ..before })
}

/// Session `b` is `a` with event `e` appended and usage `u` and status
/// `st` and completion `done`.
pub open spec fn session_extended(
    a: ProviderStreamSession,
    b: ProviderStreamSession,
    u: ProviderUsage,
    st: ProviderStreamStatus,
    done: Option<String>,
) -> bool {
    &&& b == ProviderStreamSession { usage: u, status: st, completed_at: done, stream_events: b.stream_events, ..a }
    &&& b.stream_events@.drop_last() == a.stream_events@
    &&& b.stream_events@.len() == a.stream_events@.len() + 1
}

fn text_json(t: &str) -> (r: JsonValue)
    ensures
        crate::artifacts::is_text(r, t@),
{
    JsonValue::String(String::from_str(t))
}

fn usage_payload(u: ProviderUsage) -> (r: JsonValue)
    ensures
        is_usage_payload(r, u),
{
    let mut ms: Vec<(String, JsonValue)> = Vec::new();
    ms.push((String::from_str("input_tokens"), JsonValue::Number(JsonNumber { mantissa: u.input_tokens as i128, scale: 0 })));
    ms.push((String::from_str("output_tokens"), JsonValue::Number(JsonNumber { mantissa: u.output_tokens as i128, scale: 0 })));
    ms.push((String::from_str("cost"), JsonValue::Number(JsonNumber { mantissa: u.cost_micros as i128, scale: 6 })));
    JsonValue::Object(ms)
}

impl ProviderStreamEvent {
    /// A copy of this event.
    pub fn duplicate(&self) -> (r: ProviderStreamEvent)
        ensures
            same_event(*self, r),
    {
        ProviderStreamEvent {
            event_id: self.event_id.clone(),
            session_id: self.session_id.clone(),
            event_type: self.event_type,
            payload: self.payload.duplicate(),
            created_at: self.created_at.clone(),
        }
    }
}

impl ProviderStreamSession {
    /// A copy of this session.
    pub fn duplicate(&self) -> (r: ProviderStreamSession)
        ensures
            same_session(*self, r),
    {
        let mut events: Vec<ProviderStreamEvent> = Vec::new();
        let mut i: usize = 0;
        while i < self.stream_events.len()
            invariant
                i <= self.stream_events@.len(),
                events@.len() == i,
                forall|j: int| 0 <= j < i ==> same_event(#[trigger] self.stream_events@[j], events@[j]),
            decreases self.stream_events@.len() - i,
        {
            events.push(self.stream_events[i].duplicate());
            i = i + 1;
        }
        ProviderStreamSession {
            session_id: self.session_id.clone(),
            request: self.request.duplicate(),
            route_decision: self.route_decision.duplicate(),
            status: self.status,
            stream_events: events,
            usage: self.usage,
            created_at: self.created_at.clone(),
            completed_at: copy_opt(&self.completed_at),
        }
    }
}

impl KernelState {
    /// Opens stream session `session_id` for `request` at `now`, routed as
    /// `resolve_provider_route` says (its refusals stand, and nothing
    /// changes). The session is open with no usage; its events are a
    /// fallback event `fallback_event_id` when a fallback was applied, then
    /// the start event `started_event_id`.
    pub fn open_stream_session(
        &mut self,
        request: StreamRequest,
        session_id: String,
        fallback_event_id: String,
        started_event_id: String,
        now: String,
    ) -> (r: Result<ProviderStreamSession, AgentOsError>)
        requires
            old(self).wf(),
            !has_session(old(self).provider_stream_sessions@, session_id@),
        ensures
            final(self).wf(),
            match route_outcome(*old(self), request) {
                RouteOutcome::Refused(e) => r == Err::<ProviderStreamSession, AgentOsError>(e) && *final(self) == *old(self),
                RouteOutcome::Chosen(a, from) => r matches Ok(v) && {
                    let x = final(self).provider_stream_sessions@.last();
                    let d = x.route_decision;
                    let evs = x.stream_events@;
                    &&& is_decision(d, *old(self), request, a, from, now)
                    &&& x.session_id == session_id
                    &&& same_request(request, x.request)
                    &&& x.status == ProviderStreamStatus::Open
                    &&& x.usage == (ProviderUsage { input_tokens: 0, output_tokens: 0, cost_micros: 0 })
                    &&& x.created_at == now
                    &&& x.completed_at is None
                    &&& evs.len() == (if from is Some { 2int } else { 1int })
                    &&& from is Some ==> is_event(evs[0], fallback_event_id, session_id@, ProviderStreamEventType::ProviderFallback, now)
                        && is_fallback_payload(evs[0].payload, d)
                    &&& is_event(evs.last(), started_event_id, session_id@, ProviderStreamEventType::StreamStarted, now)
                    &&& is_started_payload(evs.last().payload, d)
                    &&& same_session(x, v)
                    &&& final(self).provider_stream_sessions@ == old(self).provider_stream_sessions@.push(x)
                    &&& *final(self) == (KernelState { provider_stream_sessions: final(self).provider_stream_sessions, ..*old(self) })
                },
            },
    {
        let decision = match self.resolve_provider_route(&request, now.clone()) {
            Err(e) => return Err(e),
            Ok(d) => d,
        };
        let mut events: Vec<ProviderStreamEvent> = Vec::new();
        if decision.fallback_applied {
            let mut ms: Vec<(String, JsonValue)> = Vec::new();
            let from = match &decision.fallback_from_model_alias {
                Some(f) => text_json(f.as_str()),
                None => JsonValue::Null,
            };
            ms.push((String::from_str("from"), from));
            ms.push((String::from_str("to"), text_json(decision.selected_model_alias.as_str())));
            ms.push((String::from_str("provider_id"), text_json(decision.provider_id.as_str())));
            events.push(ProviderStreamEvent {
                event_id: fallback_event_id,
                session_id: session_id.clone(),
                event_type: ProviderStreamEventType::ProviderFallback,
                payload: JsonValue::Object(ms),
                created_at: now.clone(),
            });
        }
        let mut ms: Vec<(String, JsonValue)> = Vec::new();
        ms.push((String::from_str("model_alias"), text_json(decision.selected_model_alias.as_str())));
        ms.push((String::from_str("provider_id"), text_json(decision.provider_id.as_str())));
        ms.push((String::from_str("provider_model_name"), text_json(decision.provider_model_name.as_str())));
        events.push(ProviderStreamEvent {
            event_id: started_event_id,
            session_id: session_id.clone(),
            event_type: ProviderStreamEventType::StreamStarted,
            payload: JsonValue::Object(ms),
            created_at: now.clone(),
        });
        let ghost req = request;
        let session = ProviderStreamSession {
            session_id,
            request,
            route_decision: decision,
            status: ProviderStreamStatus::Open,
            stream_events: events,
            usage: ProviderUsage { input_tokens: 0, output_tokens: 0, cost_micros: 0 },
            created_at: now,
            completed_at: None,
        };
        proof {
            match req.output_schema {
                Some(x) => crate::json::lemma_json_same_refl(x),
                None => {},
            }
        }
        let out = session.duplicate();
        let ghost before = self.provider_stream_sessions@;
        self.provider_stream_sessions.push(session);
        proof {
            assert forall|a: int, b: int|
                0 <= a < self.provider_stream_sessions@.len() && 0 <= b < self.provider_stream_sessions@.len()
                    && #[trigger] self.provider_stream_sessions@[a].session_id@ == #[trigger] self.provider_stream_sessions@[b].session_id@
                implies a == b by {
                if a < before.len() {
                    assert(self.provider_stream_sessions@[a] == before[a]);
                }
                if b < before.len() {
                    assert(self.provider_stream_sessions@[b] == before[b]);
                }
            }
        }
        Ok(out)
    }

    fn extend_session(
        &mut self,
        k: usize,
        event: ProviderStreamEvent,
        usage: ProviderUsage,
        status: ProviderStreamStatus,
        done: Option<String>,
    ) -> (r: ProviderStreamSession)
        requires
            old(self).wf(),
            k < old(self).provider_stream_sessions@.len(),
        ensures
            final(self).wf(),
            ({
                let x = final(self).provider_stream_sessions@[k as int];
                &&& session_extended(old(self).provider_stream_sessions@[k as int], x, usage, status, done)
                &&& x.stream_events@.last() == event
                &&& session_replaced(*old(self), *final(self), k as int, x)
                &&& same_session(x, r)
            }),
    {
        let mut x = self.provider_stream_sessions.remove(k);
        let ghost x0 = x;
        x.stream_events.push(event);
        x.usage = usage;
        x.status = status;
        x.completed_at = done;
        assert(x.stream_events@.drop_last() =~= x0.stream_events@);
        let out = x.duplicate();
        self.provider_stream_sessions.insert(k, x);
        proof {
            assert(self.provider_stream_sessions@ =~= old(self).provider_stream_sessions@.update(k as int, x));
            assert forall|a: int, b: int|
                0 <= a < self.provider_stream_sessions@.len() && 0 <= b < self.provider_stream_sessions@.len()
                    && #[trigger] self.provider_stream_sessions@[a].session_id@ == #[trigger] self.provider_stream_sessions@[b].session_id@
                implies a == b by {
                assert(self.provider_stream_sessions@[a].session_id@ == old(self).provider_stream_sessions@[a].session_id@);
                assert(self.provider_stream_sessions@[b].session_id@ == old(self).provider_stream_sessions@[b].session_id@);
            }
        }
        out
    }

    /// Adds `usage` to the totals of open session `session_id` and records
    /// the new totals as event `event_id` at `now`. An unknown session is
    /// `NotFound`; a closed one an `InvalidTransition`.
    pub fn record_provider_usage(&mut self, session_id: &str, usage: ProviderUsage, event_id: String, now: String) -> (r: Result<
        ProviderStreamSession,
        AgentOsError,
    >)
        requires
            old(self).wf(),
            has_session(old(self).provider_stream_sessions@, session_id@) ==> {
                let u = old(self).provider_stream_sessions@[session_pos(old(self).provider_stream_sessions@, session_id@)].usage;
                &&& u.input_tokens + usage.input_tokens <= u64::MAX
                &&& u.output_tokens + usage.output_tokens <= u64::MAX
                &&& u.cost_micros + usage.cost_micros <= u64::MAX
            },
        ensures
            final(self).wf(),
            match session_error(*old(self), session_id@) {
                Some(e) => r == Err::<ProviderStreamSession, AgentOsError>(e) && *final(self) == *old(self),
                None => {
                    let k = session_pos(old(self).provider_stream_sessions@, session_id@);
                    let x0 = old(self).provider_stream_sessions@[k];
                    let x = final(self).provider_stream_sessions@[k];
                    let total = ProviderUsage {
                        input_tokens: (x0.usage.input_tokens + usage.input_tokens) as u64,
                        output_tokens: (x0.usage.output_tokens + usage.output_tokens) as u64,
                        cost_micros: (x0.usage.cost_micros + usage.cost_micros) as u64,
                    };
                    &&& session_extended(x0, x, total, ProviderStreamStatus::Open, x0.completed_at)
                    &&& is_event(x.stream_events@.last(), event_id, session_id@, ProviderStreamEventType::UsageUpdated, now)
                    &&& is_usage_payload(x.stream_events@.last().payload, total)
                    &&& session_replaced(*old(self), *final(self), k, x)
                    &&& r matches Ok(v) && same_session(x, v)
                },
            },
    {
        let k = match self.find_session(session_id) {
            None => return Err(AgentOsError::NotFound("provider stream session")),
            Some(k) => k,
        };
        if self.provider_stream_sessions[k].status != ProviderStreamStatus::Open {
            return Err(AgentOsError::InvalidTransition("provider stream session is not open"));
        }
        let u = self.provider_stream_sessions[k].usage;
        let total = ProviderUsage {
            input_tokens: u.input_tokens + usage.input_tokens,
            output_tokens: u.output_tokens + usage.output_tokens,
            cost_micros: u.cost_micros + usage.cost_micros,
        };
        let event = ProviderStreamEvent {
            event_id,
            session_id: String::from_str(session_id),
            event_type: ProviderStreamEventType::UsageUpdated,
            payload: usage_payload(total),
            created_at: now,
        };
        let done = copy_opt(&self.provider_stream_sessions[k].completed_at);
        Ok(self.extend_session(k, event, total, ProviderStreamStatus::Open, done))
    }

    /// Records event `event_id` of type `event_type` with `payload` at
    /// `now` in open session `session_id`. An unknown session is
    /// `NotFound`; a closed one an `InvalidTransition`.
    pub fn record_provider_stream_event(
        &mut self,
        session_id: &str,
        event_type: ProviderStreamEventType,
        payload: JsonValue,
        event_id: String,
        now: String,
    ) -> (r: Result<ProviderStreamSession, AgentOsError>)
        requires
            old(self).wf(),
        ensures
            final(self).wf(),
            match session_error(*old(self), session_id@) {
                Some(e) => r == Err::<ProviderStreamSession, AgentOsError>(e) && *final(self) == *old(self),
                None => {
                    let k = session_pos(old(self).provider_stream_sessions@, session_id@);
                    let x0 = old(self).provider_stream_sessions@[k];
                    let x = final(self).provider_stream_sessions@[k];
                    &&& session_extended(x0, x, x0.usage, ProviderStreamStatus::Open, x0.completed_at)
                    &&& is_event(x.stream_events@.last(), event_id, session_id@, event_type, now)
                    &&& x.stream_events@.last().payload == payload
                    &&& session_replaced(*old(self), *final(self), k, x)
                    &&& r matches Ok(v) && same_session(x, v)
                },
            },
    {
        let k = match self.find_session(session_id) {
            None => return Err(AgentOsError::NotFound("provider stream session")),
            Some(k) => k,
        };
        if self.provider_stream_sessions[k].status != ProviderStreamStatus::Open {
            return Err(AgentOsError::InvalidTransition("provider stream session is not open"));
        }
        let event = ProviderStreamEvent { event_id, session_id: String::from_str(session_id), event_type, payload, created_at: now };
        let u = self.provider_stream_sessions[k].usage;
        let done = copy_opt(&self.provider_stream_sessions[k].completed_at);
        Ok(self.extend_session(k, event, u, ProviderStreamStatus::Open, done))
    }

    /// Completes open session `session_id` at `now`, recording its totals
    /// as event `event_id`. An unknown session is `NotFound`; a closed one
    /// an `InvalidTransition`.
    pub fn complete_stream_session(&mut self, session_id: &str, event_id: String, now: String) -> (r: Result<
        ProviderStreamSession,
        AgentOsError,
    >)
        requires
            old(self).wf(),
        ensures
            final(self).wf(),
            match session_error(*old(self), session_id@) {
                Some(e) => r == Err::<ProviderStreamSession, AgentOsError>(e) && *final(self) == *old(self),
                None => {
                    let k = session_pos(old(self).provider_stream_sessions@, session_id@);
                    let x0 = old(self).provider_stream_sessions@[k];
                    let x = final(self).provider_stream_sessions@[k];
                    &&& session_extended(x0, x, x0.usage, ProviderStreamStatus::Completed, Some(now))
                    &&& is_event(x.stream_events@.last(), event_id, session_id@, ProviderStreamEventType::StreamCompleted, now)
                    &&& is_usage_payload(x.stream_events@.last().payload, x0.usage)
                    &&& session_replaced(*old(self), *final(self), k, x)
                    &&& r matches Ok(v) && same_session(x, v)
                },
            },
    {
        let k = match self.find_session(session_id) {
            None => return Err(AgentOsError::NotFound("provider stream session")),
            Some(k) => k,
        };
        if self.provider_stream_sessions[k].status != ProviderStreamStatus::Open {
            return Err(AgentOsError::InvalidTransition("provider stream session is not open"));
        }
        let u = self.provider_stream_sessions[k].usage;
        let event = ProviderStreamEvent {
            event_id,
            session_id: String::from_str(session_id),
            event_type: ProviderStreamEventType::StreamCompleted,
            payload: usage_payload(u),
            created_at: now.clone(),
        };
        Ok(self.extend_session(k, event, u, ProviderStreamStatus::Completed, Some(now)))
    }
}

/// The limits a registered alias starts with.
pub open spec fn is_default_limits(v: JsonValue) -> bool {
    v matches JsonValue::Object(ms) && {
        &&& ms@.len() == 2
        &&& ms@[0].0@ == "context_window"@ && ms@[0].1 == count_json(128000)
        &&& ms@[1].0@ == "max_output_tokens"@ && ms@[1].1 == count_json(16000)
    }
}

/// The cost a registered alias starts with: unknown.
pub open spec fn is_unknown_cost(v: JsonValue) -> bool {
    v matches JsonValue::Object(ms) && {
        &&& ms@.len() == 2
        &&& ms@[0].0@ == "input_per_1m"@ && ms@[0].1 is Null
        &&& ms@[1].0@ == "output_per_1m"@ && ms@[1].1 is Null
    }
}

/// `m` is alias `alias` registered under id `id` at `now`.
pub open spec fn is_registered_alias(m: ModelAlias, alias: Seq<char>, provider_id: Seq<char>, model: Seq<char>, capabilities: JsonValue, id: String, now: String) -> bool {
    &&& m.model_alias_id == id
    &&& m.alias@ == alias
    &&& m.provider_id@ == provider_id
    &&& m.provider_model_name@ == model
    &&& m.capabilities == capabilities
    &&& is_default_limits(m.limits)
    &&& is_unknown_cost(m.cost)
    &&& m.status@ == "Active"@
    &&& m.created_at == now
    &&& m.updated_at == now
}

impl KernelState {
    /// Registers model alias `alias` for model `provider_model_name` of
    /// `provider_id` with `capabilities`, under id `model_alias_id` at
    /// `now`, replacing an alias of that name; when provider profile
    /// `provider_profile_id` exists and does not allow the alias yet, it
    /// allows it from now on.
    pub fn register_model_alias(
        &mut self,
        alias: &str,
        provider_id: &str,
        provider_model_name: &str,
        capabilities: JsonValue,
        provider_profile_id: &str,
        model_alias_id: String,
        now: String,
    )
        requires
            old(self).wf(),
        ensures
            final(self).wf(),
            ({
                let ms0 = old(self).model_aliases@;
                let ms = final(self).model_aliases@;
                if has_alias(ms0, alias@) {
                    let k = alias_pos(ms0, alias@);
                    ms.len() == ms0.len() && ms == ms0.update(k, ms[k]) && is_registered_alias(
                        ms[k],
                        alias@,
                        provider_id@,
                        provider_model_name@,
                        capabilities,
                        model_alias_id,
                        now,
                    )
                } else {
                    ms.len() == ms0.len() + 1 && ms.drop_last() == ms0 && is_registered_alias(
                        ms.last(),
                        alias@,
                        provider_id@,
                        provider_model_name@,
                        capabilities,
                        model_alias_id,
                        now,
                    )
                }
            }),
            ({
                let ps0 = old(self).provider_profiles@;
                let ps = final(self).provider_profiles@;
                if has_profile(ps0, provider_profile_id@) && !profile_allows(
                    ps0[profile_pos(ps0, provider_profile_id@)],
                    alias@,
                ) {
                    let k = profile_pos(ps0, provider_profile_id@);
                    &&& ps.len() == ps0.len()
                    &&& ps == ps0.update(k, ps[k])
                    &&& ps[k] == (crate::state::ProviderProfile { allowed_model_aliases: ps[k].allowed_model_aliases, ..ps0[k] })
                    &&& ps[k].allowed_model_aliases@.drop_last() == ps0[k].allowed_model_aliases@
                    &&& ps[k].allowed_model_aliases@.len() == ps0[k].allowed_model_aliases@.len() + 1
                    &&& ps[k].allowed_model_aliases@.last()@ == alias@
                } else {
                    ps == ps0
                }
            }),
            *final(self) == (KernelState {
                model_aliases: final(self).model_aliases,
                provider_profiles: final(self).provider_profiles,
                ..*old(self)
            }),
    {
        let mut limits: Vec<(String, JsonValue)> = Vec::new();
        limits.push((String::from_str("context_window"), JsonValue::Number(JsonNumber { mantissa: 128000, scale: 0 })));
        limits.push((String::from_str("max_output_tokens"), JsonValue::Number(JsonNumber { mantissa: 16000, scale: 0 })));
        let mut cost: Vec<(String, JsonValue)> = Vec::new();
        cost.push((String::from_str("input_per_1m"), JsonValue::Null));
        cost.push((String::from_str("output_per_1m"), JsonValue::Null));
        proof {
            reveal_strlit("Active");
        }
        let record = ModelAlias {
            model_alias_id,
            alias: String::from_str(alias),
            provider_id: String::from_str(provider_id),
            provider_model_name: String::from_str(provider_model_name),
            capabilities,
            limits: JsonValue::Object(limits),
            cost: JsonValue::Object(cost),
            status: String::from_str("Active"),
            created_at: now.clone(),
            updated_at: now,
        };
        let ghost ms0 = self.model_aliases@;
        match self.find_alias(alias) {
            Some(k) => {
                self.model_aliases.set(k, record);
                proof {
                    assert forall|a: int, b: int|
                        0 <= a < self.model_aliases@.len() && 0 <= b < self.model_aliases@.len()
                            && #[trigger] self.model_aliases@[a].alias@ == #[trigger] self.model_aliases@[b].alias@ implies a == b by {
                        assert(self.model_aliases@[a].alias@ == ms0[a].alias@);
                        assert(self.model_aliases@[b].alias@ == ms0[b].alias@);
                    }
                }
            },
            None => {
                self.model_aliases.push(record);
                proof {
                    assert(self.model_aliases@.drop_last() =~= ms0);
                    assert forall|a: int, b: int|
                        0 <= a < self.model_aliases@.len() && 0 <= b < self.model_aliases@.len()
                            && #[trigger] self.model_aliases@[a].alias@ == #[trigger] self.model_aliases@[b].alias@ implies a == b by {
                        if a < ms0.len() {
                            assert(self.model_aliases@[a] == ms0[a]);
                        }
                        if b < ms0.len() {
                            assert(self.model_aliases@[b] == ms0[b]);
                        }
                    }
                }
            },
        }
        let ghost mid = *self;
        if let Some(pk) = self.find_provider_profile(provider_profile_id) {
            if !self.profile_allows_exec(pk, alias) {
                let mut p = self.provider_profiles.remove(pk);
                let ghost p0 = p;
                p.allowed_model_aliases.push(String::from_str(alias));
                assert(p.allowed_model_aliases@.drop_last() =~= p0.allowed_model_aliases@);
                self.provider_profiles.insert(pk, p);
                proof {
                    assert(self.provider_profiles@ =~= mid.provider_profiles@.update(pk as int, p));
                    assert forall|a: int, b: int|
                        0 <= a < self.provider_profiles@.len() && 0 <= b < self.provider_profiles@.len()
                            && #[trigger] self.provider_profiles@[a].provider_profile_id@
                            == #[trigger] self.provider_profiles@[b].provider_profile_id@ implies a == b by {
                        assert(self.provider_profiles@[a].provider_profile_id@ == mid.provider_profiles@[a].provider_profile_id@);
                        assert(self.provider_profiles@[b].provider_profile_id@ == mid.provider_profiles@[b].provider_profile_id@);
                    }
                }
            }
        }
    }
}

/// A completed stream takes nothing more: usage, events and completion
/// of it are refused as an `InvalidTransition`.
pub proof fn law_completed_stream_is_closed(before: KernelState, after: KernelState, id: Seq<char>, k: int, x: ProviderStreamSession)
    requires
        after.wf(),
        session_error(before, id) is None,
        k == session_pos(before.provider_stream_sessions@, id),
        x.session_id == before.provider_stream_sessions@[k].session_id,
        x.status == ProviderStreamStatus::Completed,
        session_replaced(before, after, k, x),
    ensures
        session_error(after, id) == Some(AgentOsError::InvalidTransition("provider stream session is not open")),
{
    assert(after.provider_stream_sessions@[k].session_id@ == id);
    assert(has_session(after.provider_stream_sessions@, id));
    let p = session_pos(after.provider_stream_sessions@, id);
    assert(after.provider_stream_sessions@[p].session_id@ == after.provider_stream_sessions@[k].session_id@);
}

} // verus!
