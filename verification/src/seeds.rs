//! The core profiles a fresh kernel starts with: the supervising, producing
//! and reviewing roles, the read-only, workspace-write and temp-output
//! sandboxes, the default routing policy, the default and strict-text
//! provider profiles, and the core model aliases.
use vstd::prelude::*;
use crate::scope::texts;
use crate::permissions::opt_text;
use crate::agents::{RoleProfile, SandboxProfile, PermissionProfile, ProfileStatus, FilesystemMode, text_list};
use crate::json::{JsonValue, member, text_of};
use crate::provider::{RoutingPolicy, ModelAlias, StreamRequest, RouteOutcome, role_routing_alias, rule_alias,
    member_of, bool_of, is_default_limits, is_unknown_cost, route_outcome, streaming_alias_error, has_alias,
    alias_pos, has_policy, policy_pos, profile_allows};
use crate::state::{has_thread, has_task, has_profile, profile_pos};
use crate::state::{KernelState, ProviderProfile};
use crate::tools::{ToolDescriptor, tool_map};
use crate::agents::permission_profile_ids_unique;

verus! {

/// `r` is an active core role that runs with the default provider profile.
pub open spec fn is_core_role(
    r: RoleProfile,
    id: Seq<char>,
    name: Seq<char>,
    permission: Seq<char>,
    sandbox: Seq<char>,
    scheduler: Seq<char>,
    children: Seq<Seq<char>>,
) -> bool {
    &&& r.role_profile_id@ == id
    &&& r.status == ProfileStatus::Active
    &&& r.name@ == name
    &&& r.default_permission_profile_id@ == permission
    &&& r.default_sandbox_profile_id@ == sandbox
    &&& opt_text(r.default_provider_profile_id) == Some("prov_default"@)
    &&& opt_text(r.default_scheduler_policy_id) == Some(scheduler)
    &&& texts(r.allowed_child_role_profile_ids@) == children
}

/// The core roles, in order: the supervising role (which may start any
/// role), the producing role and the reviewing role.
pub open spec fn are_core_roles(rs: Seq<RoleProfile>) -> bool {
    &&& rs.len() == 3
    &&& is_core_role(rs[0], "role_supervisor"@, "SupervisorAgent"@, "perm_supervisor"@, "sbox_readonly"@,
        "sched_foreground"@, seq!["*"@])
    &&& is_core_role(rs[1], "role_producer"@, "ProducerAgent"@, "perm_producer"@, "sbox_workspace_write"@,
        "sched_background"@, seq![])
    &&& is_core_role(rs[2], "role_reviewer"@, "ReviewerAgent"@, "perm_reviewer"@, "sbox_readonly"@,
        "sched_review"@, seq![])
}

fn core_role(
    id: &str,
    name: &str,
    permission: &str,
    sandbox: &str,
    scheduler: &str,
    children: Vec<String>,
) -> (r: RoleProfile)
    ensures
        is_core_role(r, id@, name@, permission@, sandbox@, scheduler@, texts(children@)),
{
    RoleProfile {
        role_profile_id: String::from_str(id),
        status: ProfileStatus::Active,
        name: String::from_str(name),
        default_permission_profile_id: String::from_str(permission),
        default_sandbox_profile_id: String::from_str(sandbox),
        default_provider_profile_id: Some(String::from_str("prov_default")),
        default_scheduler_policy_id: Some(String::from_str(scheduler)),
        allowed_child_role_profile_ids: children,
    }
}

/// The core role profiles.
pub fn core_roles() -> (r: Vec<RoleProfile>)
    ensures
        are_core_roles(r@),
{
    let mut r: Vec<RoleProfile> = Vec::new();
    let any = text_list(&["*"]);
    proof {
        assert(texts(any@) =~= seq!["*"@]);
    }
    r.push(core_role("role_supervisor", "SupervisorAgent", "perm_supervisor", "sbox_readonly", "sched_foreground", any));
    let none = Vec::new();
    proof {
        assert(texts(none@) =~= Seq::<Seq<char>>::empty());
    }
    r.push(core_role("role_producer", "ProducerAgent", "perm_producer", "sbox_workspace_write", "sched_background", none));
    let none = Vec::new();
    proof {
        assert(texts(none@) =~= Seq::<Seq<char>>::empty());
    }
    r.push(core_role("role_reviewer", "ReviewerAgent", "perm_reviewer", "sbox_readonly", "sched_review", none));
    r
}

/// The core sandboxes, in order: read-only, workspace-write and temp-only.
pub open spec fn are_core_sandboxes(ss: Seq<SandboxProfile>) -> bool {
    &&& ss.len() == 3
    &&& ss[0] == (SandboxProfile { sandbox_profile_id: ss[0].sandbox_profile_id, status: ProfileStatus::Active,
        filesystem_mode: FilesystemMode::ReadOnly })
    &&& ss[0].sandbox_profile_id@ == "sbox_readonly"@
    &&& ss[1] == (SandboxProfile { sandbox_profile_id: ss[1].sandbox_profile_id, status: ProfileStatus::Active,
        filesystem_mode: FilesystemMode::WorkspaceWrite })
    &&& ss[1].sandbox_profile_id@ == "sbox_workspace_write"@
    &&& ss[2] == (SandboxProfile { sandbox_profile_id: ss[2].sandbox_profile_id, status: ProfileStatus::Active,
        filesystem_mode: FilesystemMode::TempOnly })
    &&& ss[2].sandbox_profile_id@ == "sbox_test_temp"@
}

/// The core sandbox profiles.
pub fn core_sandboxes() -> (r: Vec<SandboxProfile>)
    ensures
        are_core_sandboxes(r@),
{
    let mut r: Vec<SandboxProfile> = Vec::new();
    r.push(SandboxProfile {
        sandbox_profile_id: String::from_str("sbox_readonly"),
        status: ProfileStatus::Active,
        filesystem_mode: FilesystemMode::ReadOnly,
    });
    r.push(SandboxProfile {
        sandbox_profile_id: String::from_str("sbox_workspace_write"),
        status: ProfileStatus::Active,
        filesystem_mode: FilesystemMode::WorkspaceWrite,
    });
    r.push(SandboxProfile {
        sandbox_profile_id: String::from_str("sbox_test_temp"),
        status: ProfileStatus::Active,
        filesystem_mode: FilesystemMode::TempOnly,
    });
    r
}


// ---------------------------------------------------------------------------
// Routing and providers

/// `v` is the rule `{"when": {"role": role}, "use": {"model_alias": alias}}`.
pub open spec fn is_role_rule(v: JsonValue, role: Seq<char>, alias: Seq<char>) -> bool {
    v matches JsonValue::Object(ms) && {
        &&& ms@.len() == 2
        &&& ms@[0].0@ == "when"@
        &&& is_text_object(ms@[0].1, "role"@, role)
        &&& ms@[1].0@ == "use"@
        &&& is_text_object(ms@[1].1, "model_alias"@, alias)
    }
}

/// `v` is `{key: value}` with a text value.
pub open spec fn is_text_object(v: JsonValue, key: Seq<char>, value: Seq<char>) -> bool {
    match v {
        JsonValue::Object(m) => m@.len() == 1 && m@[0].0@ == key && match m@[0].1 {
            JsonValue::String(s) => s@ == value,
            _ => false,
        },
        _ => false,
    }
}

/// The alias the default routing policy picks for `role`.
pub open spec fn default_route(role: Seq<char>) -> Option<Seq<char>> {
    if role == "ProducerAgent"@ {
        Some("coding-primary"@)
    } else if role == "ReviewerAgent"@ {
        Some("review-primary"@)
    } else {
        None
    }
}

fn text_member(key: &str, value: &str) -> (r: JsonValue)
    ensures
        is_text_object(r, key@, value@),
{
    let mut m: Vec<(String, JsonValue)> = Vec::new();
    m.push((String::from_str(key), JsonValue::String(String::from_str(value))));
    JsonValue::Object(m)
}

fn role_rule(role: &str, alias: &str) -> (r: JsonValue)
    ensures
        is_role_rule(r, role@, alias@),
{
    let mut ms: Vec<(String, JsonValue)> = Vec::new();
    ms.push((String::from_str("when"), text_member("role", role)));
    ms.push((String::from_str("use"), text_member("model_alias", alias)));
    JsonValue::Object(ms)
}

proof fn lemma_role_rule(v: JsonValue, role: Seq<char>, alias: Seq<char>, x: Seq<char>)
    requires
        is_role_rule(v, role, alias),
    ensures
        rule_alias(v, x) == (if x == role { Some(alias) } else { None }),
{
    reveal_strlit("when");
    reveal_strlit("use");
    reveal_strlit("role");
    reveal_strlit("model_alias");
    let ms = v->Object_0@;
    assert("when"@.len() != "use"@.len());
    assert(ms[0].0@ != "use"@);
    assert(ms.drop_first()[0] == ms[1]);
    assert(member(v, "when"@) == Some(ms[0].1));
    assert(crate::json::member_pos(ms.drop_first(), "use"@) == Some(0int));
    assert(member(v, "use"@) == Some(ms[1].1));
    assert(text_of(member_of(member(v, "when"@), "role"@)) == Some(role));
    assert(text_of(member_of(member(v, "use"@), "model_alias"@)) == Some(alias));
}

/// The routing policy a fresh kernel starts with: the producing role is
/// served by `coding-primary`, the reviewing role by `review-primary`.
pub fn default_routing_policy() -> (r: RoutingPolicy)
    ensures
        r.routing_policy_id@ == "route_default"@,
        r.status == ProfileStatus::Active,
        r.rules@.len() == 2,
        is_role_rule(r.rules@[0], "ProducerAgent"@, "coding-primary"@),
        is_role_rule(r.rules@[1], "ReviewerAgent"@, "review-primary"@),
        forall|role: Seq<char>| #[trigger] role_routing_alias(r.rules@, role) == default_route(role),
{
    let mut rules: Vec<JsonValue> = Vec::new();
    rules.push(role_rule("ProducerAgent", "coding-primary"));
    rules.push(role_rule("ReviewerAgent", "review-primary"));
    proof {
        reveal_strlit("ProducerAgent");
        reveal_strlit("ReviewerAgent");
        assert("ProducerAgent"@[0] != "ReviewerAgent"@[0]);
        reveal_with_fuel(role_routing_alias, 3);
        assert forall|role: Seq<char>| #[trigger] role_routing_alias(rules@, role) == default_route(role) by {
            lemma_role_rule(rules@[0], "ProducerAgent"@, "coding-primary"@, role);
            lemma_role_rule(rules@[1], "ReviewerAgent"@, "review-primary"@, role);
            let rest = rules@.subrange(1, 2);
            assert(rest[0] == rules@[1]);
            assert(rest.subrange(1, 1) =~= Seq::<JsonValue>::empty());
            assert(role_routing_alias(rest.subrange(1, rest.len() as int), role) is None);
        }
    }
    RoutingPolicy { routing_policy_id: String::from_str("route_default"), status: ProfileStatus::Active, rules }
}

/// `p` is an active provider profile of `primary-provider` with no
/// fallback chain.
pub open spec fn is_seed_provider(p: ProviderProfile, id: Seq<char>, default_alias: Seq<char>, allowed: Seq<Seq<char>>) -> bool {
    &&& p.provider_profile_id@ == id
    &&& opt_text(p.default_provider_id) == Some("primary-provider"@)
    &&& p.status == ProfileStatus::Active
    &&& opt_text(p.default_model_alias) == Some(default_alias)
    &&& texts(p.allowed_model_aliases@) == allowed
    &&& p.fallback_chain@.len() == 0
}

/// The default provider profile: `general-primary` by default, and the
/// coding, review, general and text-only aliases allowed.
pub fn default_provider_profile() -> (r: ProviderProfile)
    ensures
        is_seed_provider(r, "prov_default"@, "general-primary"@,
            seq!["coding-primary"@, "review-primary"@, "general-primary"@, "text-only"@]),
{
    let allowed = text_list(&["coding-primary", "review-primary", "general-primary", "text-only"]);
    proof {
        assert(texts(allowed@) =~= seq!["coding-primary"@, "review-primary"@, "general-primary"@, "text-only"@]);
    }
    ProviderProfile {
        provider_profile_id: String::from_str("prov_default"),
        default_provider_id: Some(String::from_str("primary-provider")),
        status: ProfileStatus::Active,
        default_model_alias: Some(String::from_str("general-primary")),
        allowed_model_aliases: allowed,
        fallback_chain: Vec::new(),
    }
}

/// The strict-text provider profile: only `text-only`.
pub fn strict_text_provider_profile() -> (r: ProviderProfile)
    ensures
        is_seed_provider(r, "prov_strict_text"@, "text-only"@, seq!["text-only"@]),
{
    let allowed = text_list(&["text-only"]);
    proof {
        assert(texts(allowed@) =~= seq!["text-only"@]);
    }
    ProviderProfile {
        provider_profile_id: String::from_str("prov_strict_text"),
        default_provider_id: Some(String::from_str("primary-provider")),
        status: ProfileStatus::Active,
        default_model_alias: Some(String::from_str("text-only")),
        allowed_model_aliases: allowed,
        fallback_chain: Vec::new(),
    }
}

// ---------------------------------------------------------------------------
// Model aliases

/// `v` is `{"streaming": .., "tool_calling": true, "reasoning": true,
/// "image_input": .., "structured_output": ..}`.
pub open spec fn is_seed_capabilities(v: JsonValue, streaming: bool, image_input: bool, structured_output: bool) -> bool {
    v matches JsonValue::Object(ms) && {
        &&& ms@.len() == 5
        &&& ms@[0].0@ == "streaming"@ && ms@[0].1 == JsonValue::Bool(streaming)
        &&& ms@[1].0@ == "tool_calling"@ && ms@[1].1 == JsonValue::Bool(true)
        &&& ms@[2].0@ == "reasoning"@ && ms@[2].1 == JsonValue::Bool(true)
        &&& ms@[3].0@ == "image_input"@ && ms@[3].1 == JsonValue::Bool(image_input)
        &&& ms@[4].0@ == "structured_output"@ && ms@[4].1 == JsonValue::Bool(structured_output)
    }
}

/// `m` is the core alias `alias` for `model` of `primary-provider`, made
/// under id `id` at `now`.
pub open spec fn is_seed_alias(m: ModelAlias, id: String, alias: Seq<char>, model: Seq<char>, full: bool, now: String) -> bool {
    &&& m.model_alias_id == id
    &&& m.alias@ == alias
    &&& m.provider_id@ == "primary-provider"@
    &&& m.provider_model_name@ == model
    &&& is_seed_capabilities(m.capabilities, true, full, full)
    &&& is_default_limits(m.limits)
    &&& is_unknown_cost(m.cost)
    &&& m.status@ == "Active"@
    &&& m.created_at == now
    &&& m.updated_at == now
}

/// The core aliases, under the ids `ids` in order: coding, review and
/// general models with images and structured output, and a text-only model
/// without either.
pub open spec fn are_core_aliases(ms: Seq<ModelAlias>, ids: Seq<String>, now: String) -> bool {
    &&& ms.len() == 4
    &&& is_seed_alias(ms[0], ids[0], "coding-primary"@, "primary-coding-model"@, true, now)
    &&& is_seed_alias(ms[1], ids[1], "review-primary"@, "primary-review-model"@, true, now)
    &&& is_seed_alias(ms[2], ids[2], "general-primary"@, "primary-general-model"@, true, now)
    &&& is_seed_alias(ms[3], ids[3], "text-only"@, "primary-text-model"@, false, now)
}

fn seed_alias(id: String, alias: &str, model: &str, full: bool, now: &String) -> (r: ModelAlias)
    ensures
        is_seed_alias(r, id, alias@, model@, full, *now),
{
    let mut caps: Vec<(String, JsonValue)> = Vec::new();
    caps.push((String::from_str("streaming"), JsonValue::Bool(true)));
    caps.push((String::from_str("tool_calling"), JsonValue::Bool(true)));
    caps.push((String::from_str("reasoning"), JsonValue::Bool(true)));
    caps.push((String::from_str("image_input"), JsonValue::Bool(full)));
    caps.push((String::from_str("structured_output"), JsonValue::Bool(full)));
    let mut limits: Vec<(String, JsonValue)> = Vec::new();
    limits.push((String::from_str("context_window"), JsonValue::Number(crate::json::JsonNumber { mantissa: 128000, scale: 0 })));
    limits.push((String::from_str("max_output_tokens"), JsonValue::Number(crate::json::JsonNumber { mantissa: 16000, scale: 0 })));
    let mut cost: Vec<(String, JsonValue)> = Vec::new();
    cost.push((String::from_str("input_per_1m"), JsonValue::Null));
    cost.push((String::from_str("output_per_1m"), JsonValue::Null));
    ModelAlias {
        model_alias_id: id,
        alias: String::from_str(alias),
        provider_id: String::from_str("primary-provider"),
        provider_model_name: String::from_str(model),
        capabilities: JsonValue::Object(caps),
        limits: JsonValue::Object(limits),
        cost: JsonValue::Object(cost),
        status: String::from_str("Active"),
        created_at: now.clone(),
        updated_at: now.clone(),
    }
}

/// The core model aliases, made at `now` under the ids `ids`.
pub fn core_model_aliases(ids: Vec<String>, now: String) -> (r: Vec<ModelAlias>)
    requires
        ids@.len() == 4,
    ensures
        are_core_aliases(r@, ids@, now),
{
    let mut ids = ids;
    let ghost given = ids@;
    let text_id = ids.pop().unwrap();
    let general_id = ids.pop().unwrap();
    let review_id = ids.pop().unwrap();
    let coding_id = ids.pop().unwrap();
    let mut r: Vec<ModelAlias> = Vec::new();
    r.push(seed_alias(coding_id, "coding-primary", "primary-coding-model", true, &now));
    r.push(seed_alias(review_id, "review-primary", "primary-review-model", true, &now));
    r.push(seed_alias(general_id, "general-primary", "primary-general-model", true, &now));
    r.push(seed_alias(text_id, "text-only", "primary-text-model", false, &now));
    r
}


// ---------------------------------------------------------------------------
// A fresh kernel

/// The tools of `ds` by name, a later tool replacing an earlier one of the
/// same name.
pub open spec fn catalog_map(ds: Seq<ToolDescriptor>) -> Map<Seq<char>, ToolDescriptor>
    decreases ds.len(),
{
    if ds.len() == 0 {
        Map::empty()
    } else {
        catalog_map(ds.drop_last()).insert(ds.last().name@, ds.last())
    }
}

impl KernelState {
    /// A fresh kernel state with the core profiles installed: the core
    /// roles, sandboxes, routing policy, provider profiles and model aliases
    /// (made at `now` under the ids `alias_ids`), the permission profiles
    /// `permission_profiles`, and the tool catalog `tool_descriptors`
    /// registered by name in order.
    pub fn with_core_profiles(
        permission_profiles: Vec<PermissionProfile>,
        tool_descriptors: Vec<ToolDescriptor>,
        alias_ids: Vec<String>,
        now: String,
    ) -> (r: KernelState)
        requires
            permission_profile_ids_unique(permission_profiles@),
            alias_ids@.len() == 4,
        ensures
            r.wf(),
            are_core_roles(r.role_profiles@),
            are_core_sandboxes(r.sandbox_profiles@),
            r.permission_profiles@ == permission_profiles@,
            r.routing_policies@.len() == 1,
            r.routing_policies@[0].routing_policy_id@ == "route_default"@,
            r.routing_policies@[0].status == ProfileStatus::Active,
            forall|role: Seq<char>| #[trigger] role_routing_alias(r.routing_policies@[0].rules@, role) == default_route(role),
            r.provider_profiles@.len() == 2,
            is_seed_provider(r.provider_profiles@[0], "prov_default"@, "general-primary"@,
                seq!["coding-primary"@, "review-primary"@, "general-primary"@, "text-only"@]),
            is_seed_provider(r.provider_profiles@[1], "prov_strict_text"@, "text-only"@, seq!["text-only"@]),
            are_core_aliases(r.model_aliases@, alias_ids@, now),
            tool_map(r.tool_descriptors@) == catalog_map(tool_descriptors@),
            r.goals@.len() == 0,
            r.tasks@.len() == 0,
            r.threads@.len() == 0,
            r.ready_queue@.len() == 0,
    {
        let mut s = KernelState::new();
        s.role_profiles = core_roles();
        s.sandbox_profiles = core_sandboxes();
        s.permission_profiles = permission_profiles;
        let mut policies: Vec<RoutingPolicy> = Vec::new();
        policies.push(default_routing_policy());
        s.routing_policies = policies;
        let mut providers: Vec<ProviderProfile> = Vec::new();
        providers.push(default_provider_profile());
        providers.push(strict_text_provider_profile());
        s.provider_profiles = providers;
        s.model_aliases = core_model_aliases(alias_ids, now);
        proof {
            reveal_strlit("role_supervisor");
            reveal_strlit("role_producer");
            reveal_strlit("role_reviewer");
            reveal_strlit("sbox_readonly");
            reveal_strlit("sbox_workspace_write");
            reveal_strlit("sbox_test_temp");
            reveal_strlit("prov_default");
            reveal_strlit("prov_strict_text");
            reveal_strlit("coding-primary");
            reveal_strlit("review-primary");
            reveal_strlit("general-primary");
            reveal_strlit("text-only");
            assert("role_producer"@[5] != "role_reviewer"@[5]);
            assert("coding-primary"@[0] != "review-primary"@[0]);
            assert("sbox_readonly"@[5] != "sbox_workspace_write"@[5]);
            assert("sbox_readonly"@[5] != "sbox_test_temp"@[5]);
            assert("sbox_workspace_write"@[5] != "sbox_test_temp"@[5]);
            assert("prov_default"@[5] != "prov_strict_text"@[5]);
            assert("coding-primary"@[0] != "general-primary"@[0]);
            assert("coding-primary"@[0] != "text-only"@[0]);
            assert("review-primary"@[0] != "general-primary"@[0]);
            assert("review-primary"@[0] != "text-only"@[0]);
            assert("general-primary"@[0] != "text-only"@[0]);
            assert(crate::agents::role_ids_unique(s.role_profiles@));
            assert(crate::agents::sandbox_ids_unique(s.sandbox_profiles@));
            assert(crate::state::profile_ids_unique(s.provider_profiles@));
            assert(crate::provider::policy_ids_unique(s.routing_policies@));
            assert(crate::provider::aliases_unique(s.model_aliases@));
            assert(s.tool_descriptors@ =~= Seq::<ToolDescriptor>::empty());
            assert(tool_map(s.tool_descriptors@) =~= catalog_map(tool_descriptors@.subrange(0, 0)));
        }
        let ghost given = tool_descriptors@;
        let mut rest = tool_descriptors;
        while rest.len() > 0
            invariant
                s.wf(),
                are_core_roles(s.role_profiles@),
                are_core_sandboxes(s.sandbox_profiles@),
                s.permission_profiles@ == permission_profiles@,
                s.routing_policies@.len() == 1,
                s.routing_policies@[0].routing_policy_id@ == "route_default"@,
                s.routing_policies@[0].status == ProfileStatus::Active,
                forall|role: Seq<char>| #[trigger] role_routing_alias(s.routing_policies@[0].rules@, role) == default_route(role),
                s.provider_profiles@.len() == 2,
                is_seed_provider(s.provider_profiles@[0], "prov_default"@, "general-primary"@,
                    seq!["coding-primary"@, "review-primary"@, "general-primary"@, "text-only"@]),
                is_seed_provider(s.provider_profiles@[1], "prov_strict_text"@, "text-only"@, seq!["text-only"@]),
                are_core_aliases(s.model_aliases@, alias_ids@, now),
                s.goals@.len() == 0,
                s.tasks@.len() == 0,
                s.threads@.len() == 0,
                s.ready_queue@.len() == 0,
                rest@.len() <= given.len(),
                rest@ == given.subrange(given.len() - rest@.len(), given.len() as int),
                tool_map(s.tool_descriptors@) == catalog_map(given.subrange(0, given.len() - rest@.len())),
            decreases rest@.len(),
        {
            let ghost k = given.len() - rest@.len();
            let d = rest.remove(0);
            proof {
                assert(d == given[k]);
                assert(rest@ =~= given.subrange(k + 1, given.len() as int));
                assert(given.subrange(0, k + 1).drop_last() =~= given.subrange(0, k));
                assert(given.subrange(0, k + 1).last() == given[k]);
            }
            let _ = s.register_tool_descriptor(d);
        }
        proof {
            assert(given.subrange(0, given.len() as int) =~= given);
        }
        s
    }
}

proof fn lemma_seed_capabilities(v: JsonValue, full: bool)
    requires
        is_seed_capabilities(v, true, full, full),
    ensures
        bool_of(member(v, "streaming"@)) == Some(true),
        bool_of(member(v, "structured_output"@)) == Some(full),
{
    reveal_strlit("streaming");
    reveal_strlit("tool_calling");
    reveal_strlit("reasoning");
    reveal_strlit("image_input");
    reveal_strlit("structured_output");
    let ms = v->Object_0@;
    let key = "structured_output"@;
    assert(key.len() == 17);
    assert(ms[0].0@ != key && ms[1].0@ != key && ms[2].0@ != key && ms[3].0@ != key);
    let d1 = ms.drop_first();
    let d2 = d1.drop_first();
    let d3 = d2.drop_first();
    let d4 = d3.drop_first();
    assert(d4[0] == ms[4]);
    assert(crate::json::member_pos(d4, key) == Some(0int));
    assert(d3[0] == ms[3]);
    assert(crate::json::member_pos(d3, key) == Some(1int));
    assert(d2[0] == ms[2]);
    assert(crate::json::member_pos(d2, key) == Some(2int));
    assert(d1[0] == ms[1]);
    assert(crate::json::member_pos(d1, key) == Some(3int));
    assert(crate::json::member_pos(ms, key) == Some(4int));
}

/// The kernel's profiles, routing policies and aliases are the core ones.
pub open spec fn has_core_routing(s: KernelState) -> bool {
    exists|ids: Seq<String>, now: String| #[trigger] are_core_aliases(s.model_aliases@, ids, now)
        && s.routing_policies@.len() == 1
        && s.routing_policies@[0].routing_policy_id@ == "route_default"@
        && s.routing_policies@[0].status == ProfileStatus::Active
        && (forall|role: Seq<char>| #[trigger] role_routing_alias(s.routing_policies@[0].rules@, role) == default_route(role))
        && s.provider_profiles@.len() == 2
        && is_seed_provider(s.provider_profiles@[0], "prov_default"@, "general-primary"@,
            seq!["coding-primary"@, "review-primary"@, "general-primary"@, "text-only"@])
        && is_seed_provider(s.provider_profiles@[1], "prov_strict_text"@, "text-only"@, seq!["text-only"@])
}

/// With the core profiles, a request of an existing thread and task routed
/// through `prov_default` and `route_default` without naming an alias is
/// served directly by its role's alias: `coding-primary` for the producing
/// role, `review-primary` for the reviewing role, and `general-primary` for
/// any other role.
pub proof fn law_core_routing(s: KernelState, req: StreamRequest)
    requires
        s.wf(),
        has_core_routing(s),
        has_thread(s.threads@, req.thread_id@),
        has_task(s.tasks@, req.task_id@),
        req.provider_profile_id@ == "prov_default"@,
        req.model_routing_policy_id@ == "route_default"@,
        req.requested_model_alias is None,
    ensures
        route_outcome(s, req) == RouteOutcome::Chosen(
            match default_route(req.role@) {
                Some(a) => a,
                None => "general-primary"@,
            },
            None,
        ),
{
    let (ids, now) = choose|ids: Seq<String>, now: String| #[trigger] are_core_aliases(s.model_aliases@, ids, now)
        && s.routing_policies@.len() == 1
        && s.routing_policies@[0].routing_policy_id@ == "route_default"@
        && s.routing_policies@[0].status == ProfileStatus::Active
        && (forall|role: Seq<char>| #[trigger] role_routing_alias(s.routing_policies@[0].rules@, role) == default_route(role))
        && s.provider_profiles@.len() == 2
        && is_seed_provider(s.provider_profiles@[0], "prov_default"@, "general-primary"@,
            seq!["coding-primary"@, "review-primary"@, "general-primary"@, "text-only"@])
        && is_seed_provider(s.provider_profiles@[1], "prov_strict_text"@, "text-only"@, seq!["text-only"@]);
    let ps = s.provider_profiles@;
    let ms = s.model_aliases@;
    let p = ps[0];
    assert(has_profile(ps, "prov_default"@));
    assert(profile_pos(ps, "prov_default"@) == 0);
    assert(has_policy(s.routing_policies@, "route_default"@));
    assert(policy_pos(s.routing_policies@, "route_default"@) == 0);
    let a = match default_route(req.role@) {
        Some(a) => a,
        None => "general-primary"@,
    };
    let k: int = if a == "coding-primary"@ { 0 } else if a == "review-primary"@ { 1 } else { 2 };
    reveal_strlit("coding-primary");
    reveal_strlit("review-primary");
    reveal_strlit("general-primary");
    assert("coding-primary"@[0] != "review-primary"@[0]);
    assert(texts(p.allowed_model_aliases@).len() == 4);
    assert(p.allowed_model_aliases@.len() == 4);
    assert(texts(p.allowed_model_aliases@)[k] == p.allowed_model_aliases@[k]@);
    assert(p.allowed_model_aliases@[k]@ == a);
    assert(profile_allows(p, a));
    assert(ms[k].alias@ == a);
    assert(has_alias(ms, a));
    assert(alias_pos(ms, a) == k);
    lemma_seed_capabilities(ms[k].capabilities, true);
    assert(streaming_alias_error(s, a, req.output_schema is Some) is None);
}

} // verus!
