//! Tools: which tools a turn may see, whether an agent may call one, and
//! the life of a tool call from its start to its driver's result.
use vstd::prelude::*;
use crate::text::{str_eq, copy_strings};
use crate::error::{AgentOsError, reason_of};
use crate::json::{JsonValue, json_same};
use crate::lifecycle::copy_opt_string;
use crate::scope::{texts, names_allow, string_list_allows};
use crate::order::{text_lt, text_less, strictly_sorted, lemma_text_lt_irreflexive, lemma_text_lt_asymmetric};
use crate::permissions::{PermissionSet, PermissionView, ToolDriverClass, effective_permissions,
    effective_permission_set_for_thread};
use crate::agents::allows_control_plane;
use crate::state::{KernelState, ThreadRecord, EvidenceType, has_agent, AuditRecord, AuditActorType, AuditResult, EventRecord};
use crate::approval::SyscallEnvelope;

use crate::events::Logged;
verus! {

/// A tool the kernel can run. Beside what the kernel checks a call
/// against, it carries what the model is shown (a description and the
/// input schema the model fills in) and the input fields the runtime fills
/// in itself, each from a named runtime value.
#[derive(Debug)]
pub struct ToolDescriptor {
    pub tool_id: String,
    pub name: String,
    pub version: String,
    pub description: String,
    pub risk_level: u8,
    pub driver_class: ToolDriverClass,
    pub input_schema: JsonValue,
    pub output_schema: JsonValue,
    pub evidence_type: Option<EvidenceType>,
    pub foreground_timeout_ms: u64,
    pub required_resource_scopes: Vec<String>,
    pub driver_config: JsonValue,
    pub model_input_schema: Option<JsonValue>,
    pub injected_fields: Vec<(String, String)>,
    pub created_at: String,
}

/// Which tools a turn is planned for.
#[derive(Debug, Clone, Copy, PartialEq, Eq, Structural)]
pub enum ToolPlanningMode {
    Normal,
    FinalizationOnly,
    PrePatchResolution,
}

/// How a tool is offered to the model.
#[derive(Debug, Clone, Copy, PartialEq, Eq, Structural)]
pub enum ToolExposure {
    Direct,
    Deferred,
    Hidden,
    Disabled,
}

/// One tool of a plan and how it is offered.
#[derive(Debug)]
pub struct ToolPlanEntry {
    pub tool_id: String,
    pub tool_name: String,
    pub exposure: ToolExposure,
    pub reason: Option<&'static str>,
}

/// The tools offered to one turn of a thread.
#[derive(Debug)]
pub struct ToolPlan {
    pub plan_id: String,
    pub thread_id: String,
    pub agent_id: String,
    pub task_id: String,
    pub mode: ToolPlanningMode,
    pub image_input: bool,
    pub entries: Vec<ToolPlanEntry>,
    pub created_at: String,
}

#[derive(Debug, Clone, Copy, PartialEq, Eq, Structural)]
pub enum ToolCallStatus {
    Proposed,
    Running,
    Completed,
    Failed,
    Denied,
    Cancelled,
}

/// A request to call a tool.
#[derive(Debug)]
pub struct ToolInvokeInput {
    pub tool_name: String,
    pub input: JsonValue,
    pub evidence_claim: Option<String>,
}

/// One call of a tool.
#[derive(Debug)]
pub struct ToolInvocation {
    pub call_id: String,
    pub tool_id: String,
    pub tool_name: String,
    pub agent_id: String,
    pub task_id: String,
    pub status: ToolCallStatus,
    pub risk_level: u8,
    pub input: JsonValue,
    pub output: Option<JsonValue>,
    pub evidence_ids: Vec<String>,
    pub created_at: String,
    pub completed_at: Option<String>,
}

pub open spec fn has_call(calls: Seq<ToolInvocation>, id: Seq<char>) -> bool {
    exists|i: int| 0 <= i < calls.len() && calls[i].call_id@ == id
}

pub open spec fn call_pos(calls: Seq<ToolInvocation>, id: Seq<char>) -> int {
    choose|i: int| 0 <= i < calls.len() && calls[i].call_id@ == id
}

pub open spec fn call_ids_unique(calls: Seq<ToolInvocation>) -> bool {
    forall|i: int, j: int|
        0 <= i < calls.len() && 0 <= j < calls.len() && #[trigger] calls[i].call_id@ == #[trigger] calls[j].call_id@
            ==> i == j
}

/// The names of the registered tools, in order.
pub open spec fn tool_names(ds: Seq<ToolDescriptor>) -> Seq<Seq<char>> {
    ds.map_values(|d: ToolDescriptor| d.name@)
}

pub open spec fn has_tool(ds: Seq<ToolDescriptor>, name: Seq<char>) -> bool {
    exists|i: int| 0 <= i < ds.len() && ds[i].name@ == name
}

pub open spec fn tool_pos(ds: Seq<ToolDescriptor>, name: Seq<char>) -> int {
    choose|i: int| 0 <= i < ds.len() && ds[i].name@ == name
}

/// A tool that a planning mode offers at all.
pub open spec fn mode_allows(mode: ToolPlanningMode, name: Seq<char>) -> bool {
    match mode {
        ToolPlanningMode::Normal => true,
        ToolPlanningMode::FinalizationOnly => name == "submit_final"@ || name == "accomplish_goal"@,
        ToolPlanningMode::PrePatchResolution => name == "apply_patch"@ || name == "submit_final"@ || name
            == "accomplish_goal"@,
    }
}

/// Whether a planning mode offers the tool `name` at all.
pub fn planning_mode_allows_tool(mode: ToolPlanningMode, name: &str) -> (r: bool)
    ensures
        r == mode_allows(mode, name@),
{
    match mode {
        ToolPlanningMode::Normal => true,
        ToolPlanningMode::FinalizationOnly => str_eq(name, "submit_final") || str_eq(name, "accomplish_goal"),
        ToolPlanningMode::PrePatchResolution => str_eq(name, "apply_patch") || str_eq(name, "submit_final") || str_eq(
            name,
            "accomplish_goal",
        ),
    }
}

/// Why the permissions `p` do not cover calling tool `d` at `risk`.
pub open spec fn tool_permission_error(p: PermissionView, d: ToolDescriptor, risk: u8) -> Option<AgentOsError> {
    if risk > p.max_risk_level || d.risk_level > p.max_risk_level {
        Some(AgentOsError::PermissionDenied("tool risk exceeds effective permission ceiling"))
    } else if !names_allow(p.allowed_tool_names, d.name@) && d.driver_class != ToolDriverClass::Mcp {
        Some(AgentOsError::PermissionDenied("effective permissions do not allow tool"))
    } else if !p.allowed_tool_driver_classes.contains(d.driver_class) {
        Some(AgentOsError::PermissionDenied("effective permissions do not allow tool driver class"))
    } else {
        None
    }
}

/// A tool that acts on the control plane.
pub open spec fn is_control_plane_tool(name: Seq<char>) -> bool {
    name == "agent_control"@ || name == "set_goal"@
}

/// Why thread `t` may not call tool `d` at `risk`: control-plane tools need
/// a control-plane security level, and every tool needs the thread's
/// effective permissions.
pub open spec fn tool_authority_error(grants: Seq<crate::permissions::PermissionGrant>, t: ThreadRecord, d: ToolDescriptor, risk: u8) -> Option<AgentOsError> {
    if is_control_plane_tool(d.name@) && !allows_control_plane(t.security_level) {
        Some(AgentOsError::PermissionDenied("control-plane tool requires security_level <= 1"))
    } else {
        tool_permission_error(effective_permissions(grants, t), d, risk)
    }
}

/// A tool call is permitted exactly when neither the call's risk nor the
/// tool's exceeds the permission ceiling, the tool is named by the allowed
/// tool names (MCP tools are exempt), and the tool's driver class is among
/// the allowed driver classes.
pub proof fn law_tool_permitted_within_permissions(p: PermissionView, d: ToolDescriptor, risk: u8)
    ensures
        tool_permission_error(p, d, risk) is None <==> {
            &&& risk <= p.max_risk_level
            &&& d.risk_level <= p.max_risk_level
            &&& (names_allow(p.allowed_tool_names, d.name@) || d.driver_class == ToolDriverClass::Mcp)
            &&& p.allowed_tool_driver_classes.contains(d.driver_class)
        },
        tool_permission_error(p, d, risk) matches Some(e) ==> e is PermissionDenied,
{
}

/// A thread may call a tool only within its effective permissions: the
/// tool's driver class is allowed, its name is allowed (or it is an MCP
/// tool), both risks are under the ceiling, and a control-plane tool needs
/// a control-plane security level.
pub proof fn law_tool_authority_within_thread(grants: Seq<crate::permissions::PermissionGrant>, t: ThreadRecord, d: ToolDescriptor, risk: u8)
    requires
        tool_authority_error(grants, t, d, risk) is None,
    ensures
        ({
            let p = effective_permissions(grants, t);
            &&& p.allowed_tool_driver_classes.contains(d.driver_class)
            &&& names_allow(p.allowed_tool_names, d.name@) || d.driver_class == ToolDriverClass::Mcp
            &&& risk <= p.max_risk_level
            &&& d.risk_level <= p.max_risk_level
        }),
        (d.name@ == "agent_control"@ || d.name@ == "set_goal"@) ==> t.security_level <= 1,
{
    law_tool_permitted_within_permissions(effective_permissions(grants, t), d, risk);
}

/// Checks that `permissions` cover calling `descriptor` at `risk_level`.
pub fn require_tool_permission(permissions: &PermissionSet, descriptor: &ToolDescriptor, risk_level: u8) -> (r: Result<(), AgentOsError>)
    ensures
        match tool_permission_error(permissions@, *descriptor, risk_level) {
            Some(e) => r == Err::<(), AgentOsError>(e),
            None => r is Ok,
        },
{
    if risk_level > permissions.max_risk_level || descriptor.risk_level > permissions.max_risk_level {
        return Err(AgentOsError::PermissionDenied("tool risk exceeds effective permission ceiling"));
    }
    if !string_list_allows(permissions.allowed_tool_names.as_slice(), descriptor.name.as_str())
        && descriptor.driver_class != ToolDriverClass::Mcp {
        return Err(AgentOsError::PermissionDenied("effective permissions do not allow tool"));
    }
    let mut i: usize = 0;
    while i < permissions.allowed_tool_driver_classes.len()
        invariant
            tool_permission_error(permissions@, *descriptor, risk_level) == (if permissions@.allowed_tool_driver_classes.contains(
                descriptor.driver_class,
            ) {
                None
            } else {
                Some(AgentOsError::PermissionDenied("effective permissions do not allow tool driver class"))
            }),
            i <= permissions.allowed_tool_driver_classes@.len(),
            forall|j: int| 0 <= j < i ==> permissions.allowed_tool_driver_classes@[j] != descriptor.driver_class,
        decreases permissions.allowed_tool_driver_classes@.len() - i,
    {
        if permissions.allowed_tool_driver_classes[i] == descriptor.driver_class {
            assert(permissions@.allowed_tool_driver_classes[i as int] == descriptor.driver_class);
            return Ok(());
        }
        i = i + 1;
    }
    Err(AgentOsError::PermissionDenied("effective permissions do not allow tool driver class"))
}

fn is_control_plane_name(name: &str) -> (r: bool)
    ensures
        r == is_control_plane_tool(name@),
{
    str_eq(name, "agent_control") || str_eq(name, "set_goal")
}

/// Checks that thread `thread` may call `descriptor` at `risk_level`.
pub fn require_tool_authority(
    grants: &Vec<crate::permissions::PermissionGrant>,
    thread: &ThreadRecord,
    descriptor: &ToolDescriptor,
    risk_level: u8,
) -> (r: Result<(), AgentOsError>)
    ensures
        match tool_authority_error(grants@, *thread, *descriptor, risk_level) {
            Some(e) => r == Err::<(), AgentOsError>(e),
            None => r is Ok,
        },
{
    if is_control_plane_name(descriptor.name.as_str()) && thread.security_level > 1 {
        return Err(AgentOsError::PermissionDenied("control-plane tool requires security_level <= 1"));
    }
    let effective = effective_permission_set_for_thread(grants, thread);
    require_tool_permission(&effective, descriptor, risk_level)
}

// ---------------------------------------------------------------------------
// Planning

/// How a tool is offered before discovery is settled, and why.
pub open spec fn base_exposure(
    grants: Seq<crate::permissions::PermissionGrant>,
    t: ThreadRecord,
    image_input: bool,
    mode: ToolPlanningMode,
    d: ToolDescriptor,
) -> (ToolExposure, Option<&'static str>) {
    if !mode_allows(mode, d.name@) {
        (ToolExposure::Hidden, Some("tool hidden by planning mode"))
    } else if d.name@ == "read_image"@ && !image_input {
        (ToolExposure::Disabled, Some("read_image requires a model with image_input capability"))
    } else if tool_authority_error(grants, t, d, d.risk_level) is Some {
        (ToolExposure::Disabled, Some(reason_of(tool_authority_error(grants, t, d, d.risk_level).unwrap())))
    } else if d.name@ == "tool_search"@ {
        (ToolExposure::Hidden, Some("no deferred tools are available for discovery"))
    } else if d.driver_class == ToolDriverClass::Mcp {
        (ToolExposure::Deferred, Some("MCP tool is discoverable through tool_search"))
    } else {
        (ToolExposure::Direct, None)
    }
}

/// Some tool is offered for discovery only.
pub open spec fn any_deferred(
    grants: Seq<crate::permissions::PermissionGrant>,
    t: ThreadRecord,
    image_input: bool,
    mode: ToolPlanningMode,
    ds: Seq<ToolDescriptor>,
) -> bool {
    exists|j: int| 0 <= j < ds.len() && base_exposure(grants, t, image_input, mode, ds[j]).0 == ToolExposure::Deferred
}

/// How a tool is offered: `tool_search` is offered directly exactly when
/// some tool waits to be discovered and the mode allows searching.
pub open spec fn planned_exposure(
    grants: Seq<crate::permissions::PermissionGrant>,
    t: ThreadRecord,
    image_input: bool,
    mode: ToolPlanningMode,
    ds: Seq<ToolDescriptor>,
    d: ToolDescriptor,
) -> (ToolExposure, Option<&'static str>) {
    let base = base_exposure(grants, t, image_input, mode, d);
    if d.name@ == "tool_search"@ {
        if any_deferred(grants, t, image_input, mode, ds) && base.0 == ToolExposure::Hidden && mode_allows(
            mode,
            "tool_search"@,
        ) {
            (ToolExposure::Direct, Some("deferred tools are available for discovery"))
        } else {
            (ToolExposure::Hidden, Some("no deferred tools are available for discovery"))
        }
    } else {
        base
    }
}

fn exposure_of(
    grants: &Vec<crate::permissions::PermissionGrant>,
    thread: &ThreadRecord,
    image_input: bool,
    mode: ToolPlanningMode,
    d: &ToolDescriptor,
) -> (r: (ToolExposure, Option<&'static str>))
    ensures
        r == base_exposure(grants@, *thread, image_input, mode, *d),
{
    if !planning_mode_allows_tool(mode, d.name.as_str()) {
        return (ToolExposure::Hidden, Some("tool hidden by planning mode"));
    }
    if str_eq(d.name.as_str(), "read_image") && !image_input {
        return (ToolExposure::Disabled, Some("read_image requires a model with image_input capability"));
    }
    if let Err(e) = require_tool_authority(grants, thread, d, d.risk_level) {
        return (ToolExposure::Disabled, Some(e.reason()));
    }
    if str_eq(d.name.as_str(), "tool_search") {
        return (ToolExposure::Hidden, Some("no deferred tools are available for discovery"));
    }
    if d.driver_class == ToolDriverClass::Mcp {
        return (ToolExposure::Deferred, Some("MCP tool is discoverable through tool_search"));
    }
    (ToolExposure::Direct, None)
}

impl KernelState {
    /// Plans which registered tools a turn of `thread` is offered, in
    /// registration order (by name): each tool is hidden outside its
    /// planning mode, disabled when the model lacks image input for
    /// `read_image` or the thread lacks the authority, deferred to
    /// discovery when served over MCP, and offered directly otherwise;
    /// `tool_search` is offered exactly when something waits to be
    /// discovered.
    pub fn plan_tools_for_turn(
        &self,
        thread: &ThreadRecord,
        image_input: bool,
        mode: ToolPlanningMode,
        plan_id: String,
        now: String,
    ) -> (r: ToolPlan)
        ensures
            r.plan_id == plan_id,
            r.thread_id == thread.lifecycle.thread_id,
            r.agent_id == thread.agent_id,
            r.task_id == thread.task_id,
            r.mode == mode,
            r.image_input == image_input,
            r.created_at == now,
            r.entries@.len() == self.tool_descriptors@.len(),
            forall|i: int|
                0 <= i < r.entries@.len() ==> {
                    let d = self.tool_descriptors@[i];
                    let (x, why) = planned_exposure(
                        self.permission_grants@,
                        *thread,
                        image_input,
                        mode,
                        self.tool_descriptors@,
                        d,
                    );
                    &&& (#[trigger] r.entries@[i]).tool_id == d.tool_id
                    &&& r.entries@[i].tool_name == d.name
                    &&& r.entries@[i].exposure == x
                    &&& r.entries@[i].reason == why
                },
    {
        let ds = &self.tool_descriptors;
        let mut base: Vec<(ToolExposure, Option<&'static str>)> = Vec::new();
        let mut deferred = false;
        let mut i: usize = 0;
        while i < ds.len()
            invariant
                i <= ds@.len(),
                base@.len() == i,
                forall|j: int|
                    0 <= j < i ==> #[trigger] base@[j] == base_exposure(
                        self.permission_grants@,
                        *thread,
                        image_input,
                        mode,
                        ds@[j],
                    ),
                deferred <==> exists|j: int| 0 <= j < i && base@[j].0 == ToolExposure::Deferred,
            decreases ds@.len() - i,
        {
            let e = exposure_of(&self.permission_grants, thread, image_input, mode, &ds[i]);
            let ghost was = deferred;
            let ghost old_base = base@;
            if e.0 == ToolExposure::Deferred {
                deferred = true;
            }
            base.push(e);
            proof {
                assert(base@ == old_base.push(e));
                if was {
                    let j = choose|j: int| 0 <= j < i && old_base[j].0 == ToolExposure::Deferred;
                    assert(base@[j] == old_base[j]);
                }
                if e.0 == ToolExposure::Deferred {
                    assert(base@[i as int].0 == ToolExposure::Deferred);
                }
                if !deferred {
                    assert forall|j: int| 0 <= j < i + 1 implies base@[j].0 != ToolExposure::Deferred by {
                        if j < i {
                            assert(base@[j] == old_base[j]);
                        }
                    }
                }
            }
            i = i + 1;
        }
        assert(deferred == any_deferred(self.permission_grants@, *thread, image_input, mode, ds@)) by {
            if deferred {
                let j = choose|j: int| 0 <= j < ds@.len() && base@[j].0 == ToolExposure::Deferred;
                assert(base@[j] == base_exposure(self.permission_grants@, *thread, image_input, mode, ds@[j]));
            }
            if any_deferred(self.permission_grants@, *thread, image_input, mode, ds@) {
                let j = choose|j: int|
                    0 <= j < ds@.len() && base_exposure(self.permission_grants@, *thread, image_input, mode, ds@[j]).0
                        == ToolExposure::Deferred;
                assert(base@[j] == base_exposure(self.permission_grants@, *thread, image_input, mode, ds@[j]));
            }
        }
        let search_allowed = planning_mode_allows_tool(mode, "tool_search");
        let mut entries: Vec<ToolPlanEntry> = Vec::new();
        let mut k: usize = 0;
        while k < ds.len()
            invariant
                k <= ds@.len(),
                base@.len() == ds@.len(),
                entries@.len() == k,
                search_allowed == mode_allows(mode, "tool_search"@),
                deferred == any_deferred(self.permission_grants@, *thread, image_input, mode, ds@),
                forall|j: int|
                    0 <= j < ds@.len() ==> #[trigger] base@[j] == base_exposure(
                        self.permission_grants@,
                        *thread,
                        image_input,
                        mode,
                        ds@[j],
                    ),
                forall|j: int|
                    0 <= j < k ==> {
                        let d = ds@[j];
                        let (x, why) = planned_exposure(self.permission_grants@, *thread, image_input, mode, ds@, d);
                        &&& (#[trigger] entries@[j]).tool_id == d.tool_id
                        &&& entries@[j].tool_name == d.name
                        &&& entries@[j].exposure == x
                        &&& entries@[j].reason == why
                    },
            decreases ds@.len() - k,
        {
            let (x, why) = base[k];
            let (exposure, reason) = if str_eq(ds[k].name.as_str(), "tool_search") {
                if deferred && x == ToolExposure::Hidden && search_allowed {
                    (ToolExposure::Direct, Some("deferred tools are available for discovery"))
                } else {
                    (ToolExposure::Hidden, Some("no deferred tools are available for discovery"))
                }
            } else {
                (x, why)
            };
            proof {
                assert(base@[k as int] == base_exposure(self.permission_grants@, *thread, image_input, mode, ds@[k as int]));
            }
            entries.push(ToolPlanEntry { tool_id: ds[k].tool_id.clone(), tool_name: ds[k].name.clone(), exposure, reason });
            k = k + 1;
        }
        ToolPlan {
            plan_id,
            thread_id: thread.lifecycle.thread_id.clone(),
            agent_id: thread.agent_id.clone(),
            task_id: thread.task_id.clone(),
            mode,
            image_input,
            entries,
            created_at: now,
        }
    }
}

// ---------------------------------------------------------------------------
// Calls

proof fn lemma_tool_names_unique(ds: Seq<ToolDescriptor>)
    requires
        strictly_sorted(tool_names(ds)),
    ensures
        forall|i: int, j: int| 0 <= i < ds.len() && 0 <= j < ds.len() && ds[i].name@ == ds[j].name@ ==> i == j,
{
    assert forall|i: int, j: int| 0 <= i < ds.len() && 0 <= j < ds.len() && ds[i].name@ == ds[j].name@ implies i == j by {
        let names = tool_names(ds);
        assert(names[i] == ds[i].name@ && names[j] == ds[j].name@);
        if i < j {
            assert(text_lt(names[i], names[j]));
            lemma_text_lt_irreflexive(names[i]);
        }
        if j < i {
            assert(text_lt(names[j], names[i]));
            lemma_text_lt_irreflexive(names[j]);
        }
    }
}

/// The object `{"status": "failed", "stage": stage, "error": error}`.
pub open spec fn is_failure_output(v: JsonValue, stage: Seq<char>, error: Seq<char>) -> bool {
    v matches JsonValue::Object(ms) && {
        &&& ms@.len() == 3
        &&& ms@[0].0@ == "status"@ && crate::artifacts::is_text(ms@[0].1, "failed"@)
        &&& ms@[1].0@ == "stage"@ && crate::artifacts::is_text(ms@[1].1, stage)
        &&& ms@[2].0@ == "error"@ && crate::artifacts::is_text(ms@[2].1, error)
    }
}

/// A failure report that also carries the output the schema refused.
pub open spec fn is_invalid_output_report(v: JsonValue, error: Seq<char>, output: JsonValue) -> bool {
    v matches JsonValue::Object(ms) && {
        &&& ms@.len() == 4
        &&& ms@[0].0@ == "status"@ && crate::artifacts::is_text(ms@[0].1, "failed"@)
        &&& ms@[1].0@ == "stage"@ && crate::artifacts::is_text(ms@[1].1, "output_schema"@)
        &&& ms@[2].0@ == "error"@ && crate::artifacts::is_text(ms@[2].1, error)
        &&& ms@[3].0@ == "invalid_output"@ && ms@[3].1 == output
    }
}

fn text_value(t: &str) -> (r: JsonValue)
    ensures
        r matches JsonValue::String(x) && x@ == t@,
{
    JsonValue::String(String::from_str(t))
}

fn failure_report(stage: &str, error: &str) -> (r: JsonValue)
    ensures
        is_failure_output(r, stage@, error@),
{
    let mut ms: Vec<(String, JsonValue)> = Vec::new();
    ms.push((String::from_str("status"), text_value("failed")));
    ms.push((String::from_str("stage"), text_value(stage)));
    ms.push((String::from_str("error"), text_value(error)));
    JsonValue::Object(ms)
}

fn invalid_output_report(error: &str, output: JsonValue) -> (r: JsonValue)
    ensures
        is_invalid_output_report(r, error@, output),
{
    let mut ms: Vec<(String, JsonValue)> = Vec::new();
    ms.push((String::from_str("status"), text_value("failed")));
    ms.push((String::from_str("stage"), text_value("output_schema")));
    ms.push((String::from_str("error"), text_value(error)));
    ms.push((String::from_str("invalid_output"), output));
    JsonValue::Object(ms)
}

/// Why a tool call cannot start: an unknown tool, a risk above the tool's
/// declared risk, an unknown agent, or missing authority.
pub open spec fn call_start_error(state: KernelState, agent: Seq<char>, risk: u8, tool: Seq<char>) -> Option<AgentOsError> {
    if !has_tool(state.tool_descriptors@, tool) {
        Some(AgentOsError::NotFound("tool"))
    } else {
        let d = state.tool_descriptors@[tool_pos(state.tool_descriptors@, tool)];
        if risk > d.risk_level {
            Some(AgentOsError::PermissionDenied("syscall risk exceeds tool descriptor risk declaration"))
        } else if !has_agent(state.threads@, agent) {
            Some(AgentOsError::NotFound("agent"))
        } else {
            tool_authority_error(
                state.permission_grants@,
                state.threads@[crate::agents::agent_thread_index(state.threads@, agent)],
                d,
                risk,
            )
        }
    }
}

/// Two tool calls that agree field by field.
pub open spec fn same_call(a: ToolInvocation, b: ToolInvocation) -> bool {
    &&& a.call_id == b.call_id
    &&& a.tool_id == b.tool_id
    &&& a.tool_name == b.tool_name
    &&& a.agent_id == b.agent_id
    &&& a.task_id == b.task_id
    &&& a.status == b.status
    &&& a.risk_level == b.risk_level
    &&& json_same(a.input, b.input)
    &&& crate::review::opt_json_same(a.output, b.output)
    &&& a.evidence_ids@ == b.evidence_ids@
    &&& a.created_at == b.created_at
    &&& a.completed_at == b.completed_at
}

impl ToolInvocation {
    /// A copy of this call.
    pub fn duplicate(&self) -> (r: ToolInvocation)
        ensures
            same_call(*self, r),
    {
        ToolInvocation {
            call_id: self.call_id.clone(),
            tool_id: self.tool_id.clone(),
            tool_name: self.tool_name.clone(),
            agent_id: self.agent_id.clone(),
            task_id: self.task_id.clone(),
            status: self.status,
            risk_level: self.risk_level,
            input: self.input.duplicate(),
            output: match &self.output {
                Some(o) => Some(o.duplicate()),
                None => None,
            },
            evidence_ids: copy_strings(&self.evidence_ids),
            created_at: self.created_at.clone(),
            completed_at: copy_opt_string(&self.completed_at),
        }
    }
}

impl KernelState {
    /// The position of the registered tool `name`, if there is one.
    pub fn find_tool(&self, name: &str) -> (r: Option<usize>)
        requires
            strictly_sorted(tool_names(self.tool_descriptors@)),
        ensures
            r.is_none() <==> !has_tool(self.tool_descriptors@, name@),
            r matches Some(i) ==> i == tool_pos(self.tool_descriptors@, name@) && i < self.tool_descriptors@.len(),
    {
        proof {
            lemma_tool_names_unique(self.tool_descriptors@);
        }
        let mut i: usize = 0;
        while i < self.tool_descriptors.len()
            invariant
                i <= self.tool_descriptors@.len(),
                forall|a: int, b: int|
                    0 <= a < self.tool_descriptors@.len() && 0 <= b < self.tool_descriptors@.len()
                        && self.tool_descriptors@[a].name@ == self.tool_descriptors@[b].name@ ==> a == b,
                forall|j: int| 0 <= j < i ==> self.tool_descriptors@[j].name@ != name@,
            decreases self.tool_descriptors@.len() - i,
        {
            if str_eq(self.tool_descriptors[i].name.as_str(), name) {
                proof {
                    let k = tool_pos(self.tool_descriptors@, name@);
                    assert(self.tool_descriptors@[k].name@ == self.tool_descriptors@[i as int].name@);
                }
                return Some(i);
            }
            i = i + 1;
        }
        None
    }

    /// Starts call `call_id` of tool `input.tool_name` for agent `agent_id`
    /// on task `task_id` at `risk_level` (see `call_start_error` for the
    /// refusals). An input that fails the tool's input schema is recorded as
    /// a failed call with the schema's reason; otherwise the call is
    /// recorded as running.
    pub fn start_tool_call(
        &mut self,
        agent_id: &str,
        task_id: String,
        risk_level: u8,
        input: ToolInvokeInput,
        call_id: String,
        now: String,
    ) -> (r: Result<ToolInvocation, AgentOsError>)
        requires
            old(self).wf(),
            !has_call(old(self).tool_invocations@, call_id@),
        ensures
            start_tool_call_post(*old(self), *final(self), agent_id@, task_id, risk_level, input, call_id, now, r),
    {
        let k = match self.find_tool(input.tool_name.as_str()) {
            None => return Err(AgentOsError::NotFound("tool")),
            Some(k) => k,
        };
        if risk_level > self.tool_descriptors[k].risk_level {
            return Err(AgentOsError::PermissionDenied("syscall risk exceeds tool descriptor risk declaration"));
        }
        let t = match self.find_agent_thread(agent_id) {
            None => return Err(AgentOsError::NotFound("agent")),
            Some(t) => t,
        };
        proof {
            let c = crate::agents::agent_thread_index(self.threads@, agent_id@);
            assert(crate::state::first_agent_thread(self.threads@, agent_id@, c));
            if c < t {
                assert(self.threads@[c].agent_id@ != agent_id@);
            }
            if t < c {
                assert(self.threads@[t as int].agent_id@ != agent_id@);
            }
        }
        match require_tool_authority(&self.permission_grants, &self.threads[t], &self.tool_descriptors[k], risk_level) {
            Err(e) => return Err(e),
            Ok(()) => {},
        }
        let d = &self.tool_descriptors[k];
        let (status, output, completed_at) = match crate::schema::schema_check(&d.input_schema, &input.input) {
            Some(m) => (ToolCallStatus::Failed, Some(failure_report("input_schema", m)), Some(now.clone())),
            None => (ToolCallStatus::Running, None, None),
        };
        let call = ToolInvocation {
            call_id,
            tool_id: d.tool_id.clone(),
            tool_name: d.name.clone(),
            agent_id: String::from_str(agent_id),
            task_id,
            status,
            risk_level,
            input: input.input,
            output,
            evidence_ids: Vec::new(),
            created_at: now,
            completed_at,
        };
        let copy = call.duplicate();
        let ghost before = self.tool_invocations@;
        self.tool_invocations.push(call);
        proof {
            assert(self.tool_invocations@.drop_last() =~= before);
            let n = before.len();
            assert forall|i: int, j: int|
                0 <= i < self.tool_invocations@.len() && 0 <= j < self.tool_invocations@.len()
                    && #[trigger] self.tool_invocations@[i].call_id@ == #[trigger] self.tool_invocations@[j].call_id@
                implies i == j by {
                if i < n && j == n {
                    assert(before[i].call_id@ == call_id@);
                }
                if j < n && i == n {
                    assert(before[j].call_id@ == call_id@);
                }
            }
        }
        Ok(copy)
    }
}

// ---------------------------------------------------------------------------
// Finishing calls

/// Some call on task `task` is still running.
pub open spec fn task_has_running_call(calls: Seq<ToolInvocation>, task: Seq<char>) -> bool {
    exists|i: int| 0 <= i < calls.len() && calls[i].task_id@ == task && calls[i].status == ToolCallStatus::Running
}

/// The thread a finished background tool wakes: the agent's thread, when
/// it waits on tools and no call on the task still runs.
pub open spec fn wake_target(s: KernelState, agent: Seq<char>, task: Seq<char>) -> Option<int> {
    if has_agent(s.threads@, agent) {
        let k = crate::agents::agent_thread_index(s.threads@, agent);
        if s.threads@[k].lifecycle.status == crate::lifecycle::ThreadStatus::WaitingTool && !task_has_running_call(
            s.tool_invocations@,
            task,
        ) {
            Some(k)
        } else {
            None
        }
    } else {
        None
    }
}

/// `after` is `before` with thread `k` moved to `Ready` at `now` because its
/// background tools completed, and queued.
pub open spec fn woken(before: KernelState, after: KernelState, k: int, now: String) -> bool {
    exists|lc: crate::lifecycle::ThreadLifecycle, reason: String|
        reason@ == "background tool completed"@ && crate::lifecycle::transitioned(
            before.threads@[k].lifecycle,
            lc,
            crate::lifecycle::ThreadStatus::Ready,
            Some(reason),
            now,
        ) && crate::threads::thread_lifecycle_replaced(before, after, k, lc) && crate::scheduler::queue_ordered(
            after,
            texts(after.ready_queue@),
        ) && forall|x: Seq<char>| #[trigger]
            texts(after.ready_queue@).contains(x) <==> (texts(before.ready_queue@).contains(x)
                || x == before.threads@[k].lifecycle.thread_id@)
}

/// The metadata of tool evidence: the call, the tool and its output.
pub open spec fn is_tool_evidence_metadata(v: JsonValue, call_id: Seq<char>, tool_name: Seq<char>, output: JsonValue) -> bool {
    v matches JsonValue::Object(ms) && {
        &&& ms@.len() == 3
        &&& ms@[0].0@ == "tool_call_id"@ && crate::artifacts::is_text(ms@[0].1, call_id)
        &&& ms@[1].0@ == "tool_name"@ && crate::artifacts::is_text(ms@[1].1, tool_name)
        &&& ms@[2].0@ == "output"@ && json_same(output, ms@[2].1)
    }
}

/// Why a finished call cannot be recorded: an unknown call, a call that
/// is not running, an unknown tool, or (for a tool that produces evidence)
/// an unknown agent, or a goal or task the evidence cannot attach to.
pub open spec fn completion_error(s: KernelState, call_id: Seq<char>, result: Result<JsonValue, AgentOsError>) -> Option<AgentOsError> {
    if !has_call(s.tool_invocations@, call_id) {
        Some(AgentOsError::NotFound("tool call"))
    } else {
        let c = s.tool_invocations@[call_pos(s.tool_invocations@, call_id)];
        if c.status != ToolCallStatus::Running {
            Some(AgentOsError::InvalidTransition("tool call is not running"))
        } else if !has_tool(s.tool_descriptors@, c.tool_name@) {
            Some(AgentOsError::NotFound("tool"))
        } else {
            let d = s.tool_descriptors@[tool_pos(s.tool_descriptors@, c.tool_name@)];
            if result is Ok && crate::schema::schema_error(d.output_schema, result->Ok_0) is None
                && d.evidence_type is Some {
                if !has_agent(s.threads@, c.agent_id@) {
                    Some(AgentOsError::NotFound("agent"))
                } else if !crate::state::has_goal(
                    s.goals@,
                    s.threads@[crate::agents::agent_thread_index(s.threads@, c.agent_id@)].goal_id@,
                ) {
                    Some(AgentOsError::NotFound("goal"))
                } else if !crate::state::has_task(s.tasks@, c.task_id@) {
                    Some(AgentOsError::NotFound("task"))
                } else {
                    None
                }
            } else {
                None
            }
        }
    }
}

/// A running call after its driver reported `result` at `now`.
pub open spec fn finished_call(
    c: ToolInvocation,
    old_call: ToolInvocation,
    d: ToolDescriptor,
    result: Result<JsonValue, AgentOsError>,
    evidence_id: String,
    now: String,
) -> bool {
    &&& c == (ToolInvocation {
        status: c.status,
        output: c.output,
        evidence_ids: c.evidence_ids,
        completed_at: Some(now),
        ..old_call
    })
    &&& match result {
        Err(e) => c.status == ToolCallStatus::Failed && (c.output matches Some(o) && is_failure_output(
            o,
            "driver"@,
            reason_of(e)@,
        )) && c.evidence_ids == old_call.evidence_ids,
        Ok(out) => match crate::schema::schema_error(d.output_schema, out) {
            Some(m) => c.status == ToolCallStatus::Failed && (c.output matches Some(o) && is_invalid_output_report(
                o,
                m@,
                out,
            )) && c.evidence_ids == old_call.evidence_ids,
            None => {
                &&& c.status == ToolCallStatus::Completed
                &&& c.output == Some(out)
                &&& c.evidence_ids@ == (if d.evidence_type is Some {
                    old_call.evidence_ids@.push(evidence_id)
                } else {
                    old_call.evidence_ids@
                })
            },
        },
    }
}

impl KernelState {
    fn find_call(&self, call_id: &str) -> (r: Option<usize>)
        requires
            call_ids_unique(self.tool_invocations@),
        ensures
            r.is_none() <==> !has_call(self.tool_invocations@, call_id@),
            r matches Some(i) ==> i == call_pos(self.tool_invocations@, call_id@) && i < self.tool_invocations@.len(),
    {
        let mut i: usize = 0;
        while i < self.tool_invocations.len()
            invariant
                i <= self.tool_invocations@.len(),
                call_ids_unique(self.tool_invocations@),
                forall|j: int| 0 <= j < i ==> self.tool_invocations@[j].call_id@ != call_id@,
            decreases self.tool_invocations@.len() - i,
        {
            if str_eq(self.tool_invocations[i].call_id.as_str(), call_id) {
                proof {
                    let k = call_pos(self.tool_invocations@, call_id@);
                    assert(self.tool_invocations@[k].call_id@ == self.tool_invocations@[i as int].call_id@);
                }
                return Some(i);
            }
            i = i + 1;
        }
        None
    }

    fn running_call_on(&self, task_id: &str) -> (r: bool)
        ensures
            r == task_has_running_call(self.tool_invocations@, task_id@),
    {
        let mut i: usize = 0;
        while i < self.tool_invocations.len()
            invariant
                i <= self.tool_invocations@.len(),
                forall|j: int|
                    0 <= j < i ==> !(self.tool_invocations@[j].task_id@ == task_id@ && self.tool_invocations@[j].status
                        == ToolCallStatus::Running),
            decreases self.tool_invocations@.len() - i,
        {
            if str_eq(self.tool_invocations[i].task_id.as_str(), task_id) && self.tool_invocations[i].status
                == ToolCallStatus::Running {
                return true;
            }
            i = i + 1;
        }
        false
    }

    /// Once a background tool of agent `agent_id` on task `task_id` has
    /// finished: the agent's thread, when it waits on tools and no call on
    /// the task still runs, becomes ready again. An unknown agent is
    /// `NotFound`.
    pub fn ready_thread_after_background_tool(&mut self, agent_id: &str, task_id: &str, now: String) -> (r: Result<(), AgentOsError>)
        requires
            old(self).wf(),
        ensures
            final(self).wf(),
            !has_agent(old(self).threads@, agent_id@) ==> r == Err::<(), AgentOsError>(AgentOsError::NotFound("agent"))
                && *final(self) == *old(self),
            has_agent(old(self).threads@, agent_id@) ==> r is Ok && match wake_target(*old(self), agent_id@, task_id@) {
                None => *final(self) == *old(self),
                Some(k) => woken(*old(self), *final(self), k, now),
            },
    {
        let k = match self.find_agent_thread(agent_id) {
            None => return Err(AgentOsError::NotFound("agent")),
            Some(k) => k,
        };
        proof {
            let c = crate::agents::agent_thread_index(self.threads@, agent_id@);
            assert(crate::state::first_agent_thread(self.threads@, agent_id@, c));
            if c < k {
                assert(self.threads@[c].agent_id@ != agent_id@);
            }
            if k < c {
                assert(self.threads@[k as int].agent_id@ != agent_id@);
            }
        }
        if self.threads[k].lifecycle.status != crate::lifecycle::ThreadStatus::WaitingTool {
            return Ok(());
        }
        if self.running_call_on(task_id) {
            return Ok(());
        }
        let thread_id = self.threads[k].lifecycle.thread_id.clone();
        let reason = String::from_str("background tool completed");
        let ghost before = *self;
        let ghost reason_view = reason;
        proof {
            assert(crate::state::has_thread(self.threads@, thread_id@));
            let p = crate::state::thread_pos(self.threads@, thread_id@);
            assert(self.threads@[p].lifecycle.thread_id@ == self.threads@[k as int].lifecycle.thread_id@);
        }
        match self.transition_thread(thread_id.as_str(), crate::lifecycle::ThreadStatus::Ready, Some(reason), now) {
            Err(e) => Err(e),
            Ok(lc) => {
                assert(woken(before, *self, k as int, now)) by {
                    assert(reason_view@ == "background tool completed"@);
                }
                Ok(())
            },
        }
    }

    /// Records what the driver of running call `call_id` reported at `now`:
    /// a driver error or an output that fails the tool's output schema fails
    /// the call with a report; a valid output completes it and, for a tool
    /// that produces evidence, attaches evidence `evidence_id` of the call's
    /// output for the agent's goal and the call's task. Then the agent's
    /// thread is woken as `ready_thread_after_background_tool` states.
    pub fn complete_tool_call(
        &mut self,
        call_id: &str,
        result: Result<JsonValue, AgentOsError>,
        evidence_claim: Option<String>,
        content_hash: Option<String>,
        evidence_id: String,
        now: String,
    ) -> (r: Result<ToolInvocation, AgentOsError>)
        requires
            old(self).wf(),
            !crate::state::has_evidence(old(self).evidence@, evidence_id@),
        ensures
            final(self).wf(),
            completion_error(*old(self), call_id@, result) matches Some(e) ==> r == Err::<ToolInvocation, AgentOsError>(e)
                && *final(self) == *old(self),
            completion_error(*old(self), call_id@, result) is None ==> {
                let p = call_pos(old(self).tool_invocations@, call_id@);
                let c = old(self).tool_invocations@[p];
                let d = old(self).tool_descriptors@[tool_pos(old(self).tool_descriptors@, c.tool_name@)];
                exists|mid: KernelState| {
                    &&& mid.tool_invocations@.len() == old(self).tool_invocations@.len()
                    &&& finished_call(mid.tool_invocations@[p], c, d, result, evidence_id, now)
                    &&& mid.tool_invocations@ == old(self).tool_invocations@.update(p, mid.tool_invocations@[p])
                    &&& (if result is Ok && crate::schema::schema_error(d.output_schema, result->Ok_0) is None
                        && d.evidence_type is Some {
                        let ev = mid.evidence@.last();
                        &&& mid.evidence@.drop_last() == old(self).evidence@
                        &&& mid.evidence@.len() == old(self).evidence@.len() + 1
                        &&& ev.evidence_id == evidence_id
                        &&& ev.goal_id == old(self).threads@[crate::agents::agent_thread_index(
                            old(self).threads@,
                            c.agent_id@,
                        )].goal_id
                        &&& ev.task_id == Some(c.task_id)
                        &&& ev.artifact_id is None
                        &&& ev.evidence_type == d.evidence_type.unwrap()
                        &&& ev.producer_agent_id == Some(c.agent_id)
                        &&& ev.claim == evidence_claim
                        &&& ev.blob_ref is None
                        &&& ev.content_hash == content_hash
                        &&& is_tool_evidence_metadata(ev.metadata, c.call_id@, c.tool_name@, result->Ok_0)
                        &&& ev.status == crate::state::EvidenceStatus::Active
                        &&& ev.created_at == now
                        &&& crate::events::appended(*old(self), mid, mid.events@.last())
                        &&& (mid.events@.last() matches crate::events::KernelEvent::EvidenceAttached(x0) && ev.copies(&x0))
                        &&& mid == (KernelState {
                            tool_invocations: mid.tool_invocations,
                            evidence: mid.evidence,
                            events: mid.events,
                            ..*old(self)
                        })
                    } else {
                        mid == (KernelState { tool_invocations: mid.tool_invocations, ..*old(self) })
                    })
                    &&& if !has_agent(mid.threads@, c.agent_id@) {
                        r == Err::<ToolInvocation, AgentOsError>(AgentOsError::NotFound("agent")) && *final(self) == mid
                    } else {
                        &&& r matches Ok(v) && same_call(mid.tool_invocations@[p], v)
                        &&& match wake_target(mid, c.agent_id@, c.task_id@) {
                            None => *final(self) == mid,
                            Some(k) => woken(mid, *final(self), k, now),
                        }
                    }
                }
            },
    {
        let p = match self.find_call(call_id) {
            None => return Err(AgentOsError::NotFound("tool call")),
            Some(p) => p,
        };
        if self.tool_invocations[p].status != ToolCallStatus::Running {
            return Err(AgentOsError::InvalidTransition("tool call is not running"));
        }
        let k = match self.find_tool(self.tool_invocations[p].tool_name.as_str()) {
            None => return Err(AgentOsError::NotFound("tool")),
            Some(k) => k,
        };
        let ghost s0 = *self;
        let ghost old_call = self.tool_invocations@[p as int];
        let (status, output, evidence_ids): (ToolCallStatus, JsonValue, Option<String>) = match result {
            Err(e) => (ToolCallStatus::Failed, failure_report("driver", e.reason()), None),
            Ok(out) => match crate::schema::schema_check(&self.tool_descriptors[k].output_schema, &out) {
                Some(m) => (ToolCallStatus::Failed, invalid_output_report(m, out), None),
                None => {
                    if let Some(t) = self.tool_descriptors[k].evidence_type {
                        let a = match self.find_agent_thread(self.tool_invocations[p].agent_id.as_str()) {
                            None => return Err(AgentOsError::NotFound("agent")),
                            Some(a) => a,
                        };
                        proof {
                            let agent = self.tool_invocations@[p as int].agent_id@;
                            let c = crate::agents::agent_thread_index(self.threads@, agent);
                            assert(crate::state::first_agent_thread(self.threads@, agent, c));
                            if c < a {
                                assert(self.threads@[c].agent_id@ != agent);
                            }
                            if a < c {
                                assert(self.threads@[a as int].agent_id@ != agent);
                            }
                        }
                        if self.find_goal(self.threads[a].goal_id.as_str()).is_none() {
                            return Err(AgentOsError::NotFound("goal"));
                        }
                        if self.find_task(self.tool_invocations[p].task_id.as_str()).is_none() {
                            return Err(AgentOsError::NotFound("task"));
                        }
                        let mut ms: Vec<(String, JsonValue)> = Vec::new();
                        ms.push((String::from_str("tool_call_id"), JsonValue::String(self.tool_invocations[p].call_id.clone())));
                        ms.push((String::from_str("tool_name"), JsonValue::String(self.tool_invocations[p].tool_name.clone())));
                        ms.push((String::from_str("output"), out.duplicate()));
                        let input = crate::artifacts::AttachEvidenceInput {
                            goal_id: self.threads[a].goal_id.clone(),
                            task_id: Some(self.tool_invocations[p].task_id.clone()),
                            artifact_id: None,
                            evidence_type: t,
                            producer_agent_id: Some(self.tool_invocations[p].agent_id.clone()),
                            claim: evidence_claim,
                            blob_ref: None,
                            content_hash,
                            stored_blob: None,
                            metadata: JsonValue::Object(ms),
                        };
                        let ghost ev_input = input;
                        match self.attach_evidence(input, evidence_id.clone(), now.clone()) {
                            Err(e) => {
                                assert(false);
                                return Err(e);
                            },
                            Ok(_) => {},
                        }
                        (ToolCallStatus::Completed, out, Some(evidence_id))
                    } else {
                        (ToolCallStatus::Completed, out, None)
                    }
                },
            },
        };
        let ghost s1 = *self;
        let mut call = self.tool_invocations.remove(p);
        call.status = status;
        call.output = Some(output);
        if let Some(id) = evidence_ids {
            call.evidence_ids.push(id);
        }
        call.completed_at = Some(now.clone());
        let copy = call.duplicate();
        let agent = call.agent_id.clone();
        let task = call.task_id.clone();
        self.tool_invocations.insert(p, call);
        proof {
            assert(self.tool_invocations@ =~= s1.tool_invocations@.update(p as int, call));
            assert forall|i: int, j: int|
                0 <= i < self.tool_invocations@.len() && 0 <= j < self.tool_invocations@.len()
                    && #[trigger] self.tool_invocations@[i].call_id@ == #[trigger] self.tool_invocations@[j].call_id@
                implies i == j by {
                assert(self.tool_invocations@[i].call_id@ == s1.tool_invocations@[i].call_id@);
                assert(self.tool_invocations@[j].call_id@ == s1.tool_invocations@[j].call_id@);
            }
        }
        let ghost mid = *self;
        match self.ready_thread_after_background_tool(agent.as_str(), task.as_str(), now) {
            Err(e) => Err(e),
            Ok(()) => Ok(copy),
        }
    }
}

// ---------------------------------------------------------------------------
// Registration and proposals

/// Two descriptors that agree field by field.
pub open spec fn same_descriptor(a: ToolDescriptor, b: ToolDescriptor) -> bool {
    &&& a == ToolDescriptor {
        input_schema: a.input_schema,
        output_schema: a.output_schema,
        required_resource_scopes: a.required_resource_scopes,
        driver_config: a.driver_config,
        model_input_schema: a.model_input_schema,
        injected_fields: a.injected_fields,
        ..b
    }
    &&& json_same(a.input_schema, b.input_schema)
    &&& json_same(a.output_schema, b.output_schema)
    &&& a.required_resource_scopes@ == b.required_resource_scopes@
    &&& json_same(a.driver_config, b.driver_config)
    &&& match (a.model_input_schema, b.model_input_schema) {
        (Some(x), Some(y)) => json_same(x, y),
        (None, None) => true,
        _ => false,
    }
    &&& a.injected_fields@ == b.injected_fields@
}

fn copy_pairs(v: &Vec<(String, String)>) -> (r: Vec<(String, String)>)
    ensures
        r@ == v@,
{
    let mut out: Vec<(String, String)> = Vec::new();
    let mut i: usize = 0;
    while i < v.len()
        invariant
            i <= v@.len(),
            out@ == v@.subrange(0, i as int),
        decreases v@.len() - i,
    {
        out.push((v[i].0.clone(), v[i].1.clone()));
        proof {
            assert(v@.subrange(0, i + 1) =~= v@.subrange(0, i as int).push(v@[i as int]));
        }
        i = i + 1;
    }
    proof {
        assert(v@.subrange(0, v@.len() as int) =~= v@);
    }
    out
}

/// The registered tools by name.
pub open spec fn tool_map(ds: Seq<ToolDescriptor>) -> Map<Seq<char>, ToolDescriptor> {
    Map::new(|n: Seq<char>| has_tool(ds, n), |n: Seq<char>| ds[tool_pos(ds, n)])
}

impl ToolDescriptor {
    /// A copy of this descriptor.
    pub fn duplicate(&self) -> (r: ToolDescriptor)
        ensures
            same_descriptor(*self, r),
    {
        ToolDescriptor {
            tool_id: self.tool_id.clone(),
            name: self.name.clone(),
            version: self.version.clone(),
            description: self.description.clone(),
            risk_level: self.risk_level,
            driver_class: self.driver_class,
            input_schema: self.input_schema.duplicate(),
            output_schema: self.output_schema.duplicate(),
            evidence_type: self.evidence_type,
            foreground_timeout_ms: self.foreground_timeout_ms,
            required_resource_scopes: copy_strings(&self.required_resource_scopes),
            driver_config: self.driver_config.duplicate(),
            model_input_schema: match &self.model_input_schema {
                Some(x) => Some(x.duplicate()),
                None => None,
            },
            injected_fields: copy_pairs(&self.injected_fields),
            created_at: self.created_at.clone(),
        }
    }
}

proof fn lemma_sorted_tool_map(ds: Seq<ToolDescriptor>, i: int)
    requires
        strictly_sorted(tool_names(ds)),
        0 <= i < ds.len(),
    ensures
        has_tool(ds, ds[i].name@),
        tool_pos(ds, ds[i].name@) == i,
{
    lemma_tool_names_unique(ds);
    assert(ds[i].name@ == ds[i].name@);
    let p = tool_pos(ds, ds[i].name@);
    assert(ds[p].name@ == ds[i].name@);
}

impl KernelState {
    /// Registers tool `descriptor` under its name, replacing a tool of that
    /// name; the tools stay sorted by name.
    pub fn register_tool_descriptor(&mut self, descriptor: ToolDescriptor) -> (r: ToolDescriptor)
        requires
            old(self).wf(),
        ensures
            final(self).wf(),
            same_descriptor(descriptor, r),
            tool_map(final(self).tool_descriptors@) == tool_map(old(self).tool_descriptors@).insert(descriptor.name@, descriptor),
            *final(self) == (KernelState { tool_descriptors: final(self).tool_descriptors, ..*old(self) }),
    {
        let out = descriptor.duplicate();
        let ghost ds0 = self.tool_descriptors@;
        let ghost name = descriptor.name@;
        let ghost d = descriptor;
        proof {
            lemma_tool_names_unique(ds0);
        }
        let mut p: usize = 0;
        while p < self.tool_descriptors.len() && text_less(self.tool_descriptors[p].name.as_str(), descriptor.name.as_str())
            invariant
                self.tool_descriptors@ == ds0,
                name == descriptor.name@,
                p <= ds0.len(),
                forall|j: int| 0 <= j < p ==> text_lt(#[trigger] ds0[j].name@, name),
            decreases ds0.len() - p,
        {
            p = p + 1;
        }
        let replace = p < self.tool_descriptors.len() && str_eq(self.tool_descriptors[p].name.as_str(), descriptor.name.as_str());
        proof {
            // every tool from position p on sorts after the new name, but the one at p when it is replaced
            assert forall|j: int| p <= j < ds0.len() && !(replace && j == p) implies text_lt(name, #[trigger] ds0[j].name@) by {
                let names = tool_names(ds0);
                assert(names[p as int] == ds0[p as int].name@);
                assert(names[j] == ds0[j].name@);
                crate::order::lemma_text_lt_total(name, ds0[p as int].name@);
                if j > p {
                    assert(text_lt(names[p as int], names[j]));
                    if ds0[p as int].name@ == name {
                    } else if text_lt(name, ds0[p as int].name@) {
                        crate::order::lemma_text_lt_transitive(name, ds0[p as int].name@, ds0[j].name@);
                    }
                }
            }
        }
        if replace {
            self.tool_descriptors.set(p, descriptor);
        } else {
            self.tool_descriptors.insert(p, descriptor);
        }
        proof {
            let ds = self.tool_descriptors@;
            if replace {
                assert(ds =~= ds0.update(p as int, d));
            } else {
                assert(ds =~= ds0.insert(p as int, d));
            }
            let names = tool_names(ds);
            let names0 = tool_names(ds0);
            assert forall|a: int, b: int| 0 <= a < b < names.len() implies text_lt(#[trigger] names[a], #[trigger] names[b]) by {
                assert(names[a] == ds[a].name@);
                assert(names[b] == ds[b].name@);
                if replace {
                    if a != p && b != p {
                        assert(names0[a] == ds0[a].name@ && names0[b] == ds0[b].name@);
                    } else if a == p {
                        assert(ds0[b].name@ == names0[b]);
                    } else {
                        assert(text_lt(ds0[a].name@, name));
                    }
                } else {
                    if b < p {
                        assert(names0[a] == ds0[a].name@ && names0[b] == ds0[b].name@);
                    } else if b == p {
                        assert(text_lt(ds0[a].name@, name));
                    } else if a == p {
                        assert(ds[b] == ds0[b - 1]);
                    } else if a < p {
                        assert(ds[b] == ds0[b - 1]);
                        assert(text_lt(ds0[a].name@, name));
                        assert(text_lt(name, ds0[b - 1].name@));
                        crate::order::lemma_text_lt_transitive(ds0[a].name@, name, ds0[b - 1].name@);
                    } else {
                        assert(ds[a] == ds0[a - 1]);
                        assert(ds[b] == ds0[b - 1]);
                        assert(names0[a - 1] == ds0[a - 1].name@ && names0[b - 1] == ds0[b - 1].name@);
                    }
                }
            }
            assert(strictly_sorted(tool_names(ds)));
            lemma_tool_names_unique(ds);
            let m = tool_map(ds);
            let m0 = tool_map(ds0).insert(name, d);
            assert forall|n: Seq<char>| #[trigger] m.dom().contains(n) <==> m0.dom().contains(n) by {
                if has_tool(ds, n) {
                    let i = choose|i: int| 0 <= i < ds.len() && ds[i].name@ == n;
                    if n != name {
                        if replace {
                            assert(ds0[i].name@ == n);
                        } else if i < p {
                            assert(ds0[i].name@ == n);
                        } else {
                            assert(ds0[i - 1].name@ == n);
                        }
                    }
                }
                if has_tool(ds0, n) && n != name {
                    let i = choose|i: int| 0 <= i < ds0.len() && ds0[i].name@ == n;
                    if replace {
                        assert(ds[i].name@ == n);
                    } else if i < p {
                        assert(ds[i].name@ == n);
                    } else {
                        assert(ds[i + 1].name@ == n);
                    }
                }
                if n == name {
                    assert(ds[p as int].name@ == n);
                }
            }
            assert forall|n: Seq<char>| #[trigger] m.dom().contains(n) implies m[n] == m0[n] by {
                if n == name {
                    lemma_sorted_tool_map(ds, p as int);
                } else {
                    let i = tool_pos(ds, n);
                    let j = if replace || i < p { i } else { i - 1 };
                    assert(ds[i] == ds0[j]);
                    lemma_sorted_tool_map(ds0, j);
                }
            }
            assert(m =~= m0);
        }
        out
    }

    /// Records that agent `agent_id` proposes calling tool
    /// `input.tool_name` for task `task_id` at `risk_level`, as call
    /// `call_id` at `now`. An unknown tool is `NotFound`.
    pub fn record_tool_proposal(
        &mut self,
        agent_id: &str,
        task_id: &str,
        input: ToolInvokeInput,
        risk_level: u8,
        call_id: String,
        now: String,
    ) -> (r: Result<ToolInvocation, AgentOsError>)
        requires
            old(self).wf(),
            !has_call(old(self).tool_invocations@, call_id@),
        ensures
            final(self).wf(),
            !has_tool(old(self).tool_descriptors@, input.tool_name@) ==> r == Err::<ToolInvocation, AgentOsError>(
                AgentOsError::NotFound("tool"),
            ) && *final(self) == *old(self),
            has_tool(old(self).tool_descriptors@, input.tool_name@) ==> (r matches Ok(v) && {
                let d = old(self).tool_descriptors@[tool_pos(old(self).tool_descriptors@, input.tool_name@)];
                let c = final(self).tool_invocations@.last();
                &&& c == (ToolInvocation {
                    call_id,
                    tool_id: d.tool_id,
                    tool_name: input.tool_name,
                    agent_id: c.agent_id,
                    task_id: c.task_id,
                    status: ToolCallStatus::Proposed,
                    risk_level,
                    input: input.input,
                    output: None,
                    evidence_ids: c.evidence_ids,
                    created_at: now,
                    completed_at: None,
                })
                &&& c.agent_id@ == agent_id@
                &&& c.task_id@ == task_id@
                &&& c.evidence_ids@.len() == 0
                &&& same_call(c, v)
                &&& final(self).tool_invocations@ == old(self).tool_invocations@.push(c)
                &&& *final(self) == (KernelState { tool_invocations: final(self).tool_invocations, ..*old(self) })
            }),
    {
        let k = match self.find_tool(input.tool_name.as_str()) {
            None => return Err(AgentOsError::NotFound("tool")),
            Some(k) => k,
        };
        let call = ToolInvocation {
            call_id,
            tool_id: self.tool_descriptors[k].tool_id.clone(),
            tool_name: input.tool_name,
            agent_id: String::from_str(agent_id),
            task_id: String::from_str(task_id),
            status: ToolCallStatus::Proposed,
            risk_level,
            input: input.input,
            output: None,
            evidence_ids: Vec::new(),
            created_at: now,
            completed_at: None,
        };
        proof {
            crate::json::lemma_json_same_refl(call.input);
        }
        let out = call.duplicate();
        let ghost before = self.tool_invocations@;
        let ghost fresh = call.call_id@;
        self.tool_invocations.push(call);
        proof {
            let n = before.len() as int;
            assert(self.tool_invocations@[n].call_id@ == fresh);
            assert forall|a: int, b: int|
                0 <= a < self.tool_invocations@.len() && 0 <= b < self.tool_invocations@.len()
                    && #[trigger] self.tool_invocations@[a].call_id@ == #[trigger] self.tool_invocations@[b].call_id@
                implies a == b by {
                if a < n {
                    assert(self.tool_invocations@[a] == before[a]);
                    if b == n {
                        assert(before[a].call_id@ == fresh);
                        assert(has_call(before, fresh));
                    }
                }
                if b < n {
                    assert(self.tool_invocations@[b] == before[b]);
                    if a == n {
                        assert(before[b].call_id@ == fresh);
                        assert(has_call(before, fresh));
                    }
                }
            }
        }
        Ok(out)
    }
}

/// What `start_tool_call` ensures, as a relation between the state before and after the call, its arguments and its result.
pub open spec fn start_tool_call_post(pre: KernelState, post: KernelState, agent_id: Seq<char>, task_id: String, risk_level: u8, input: ToolInvokeInput, call_id: String, now: String, r: Result<ToolInvocation, AgentOsError>) -> bool {
    &&& (post.wf())
    &&& (match call_start_error(pre, agent_id, risk_level, input.tool_name@) {
                Some(e) => r == Err::<ToolInvocation, AgentOsError>(e) && post == pre,
                None => r matches Ok(v) && {
                    let d = pre.tool_descriptors@[tool_pos(pre.tool_descriptors@, input.tool_name@)];
                    let c = post.tool_invocations@.last();
                    &&& post.tool_invocations@.drop_last() == pre.tool_invocations@
                    &&& post.tool_invocations@.len() == pre.tool_invocations@.len() + 1
                    &&& same_call(c, v)
                    &&& c.call_id == call_id
                    &&& c.tool_id == d.tool_id
                    &&& c.tool_name == d.name
                    &&& c.agent_id@ == agent_id
                    &&& c.task_id == task_id
                    &&& c.risk_level == risk_level
                    &&& c.input == input.input
                    &&& c.evidence_ids@.len() == 0
                    &&& c.created_at == now
                    &&& match crate::schema::schema_error(d.input_schema, input.input) {
                        Some(m) => {
                            &&& c.status == ToolCallStatus::Failed
                            &&& c.output matches Some(o) && is_failure_output(o, "input_schema"@, m@)
                            &&& c.completed_at == Some(now)
                        },
                        None => c.status == ToolCallStatus::Running && c.output is None && c.completed_at is None,
                    }
                    &&& post == (KernelState { tool_invocations: post.tool_invocations, ..pre })
                },
            })
}

/// The output a refused call keeps: its status, denied, and the refusal's
/// reason.
pub open spec fn is_denied_output(o: JsonValue, reason: Seq<char>) -> bool {
    o matches JsonValue::Object(ms) && {
        &&& ms@.len() == 2
        &&& ms@[0].0@ == "status"@
        &&& (ms@[0].1 matches JsonValue::String(t) && t@ == "denied"@)
        &&& ms@[1].0@ == "reason"@
        &&& (ms@[1].1 matches JsonValue::String(t) && t@ == reason)
    }
}

/// What refusing syscall `s`'s call of tool `input.tool_name` with error
/// `e` at `now` leaves: for a known tool, the call `call_id` kept as
/// denied with the refusal as its output, a Deny audit record `audit_id`
/// and a ToolCallDenied log entry `event_id`; for an unknown tool, nothing.
pub open spec fn denial_recorded(
    pre: KernelState,
    post: KernelState,
    s: SyscallEnvelope,
    input: ToolInvokeInput,
    call_id: String,
    audit_id: String,
    event_id: String,
    e: AgentOsError,
    now: String,
) -> bool {
    if !has_tool(pre.tool_descriptors@, input.tool_name@) {
        post == pre
    } else {
        let d = pre.tool_descriptors@[tool_pos(pre.tool_descriptors@, input.tool_name@)];
        let c = post.tool_invocations@.last();
        let a = post.audit_events@.last();
        let ev = post.event_log@.last();
        &&& post.tool_invocations@ == pre.tool_invocations@.push(c)
        &&& c.call_id == call_id
        &&& c.tool_id == d.tool_id
        &&& c.tool_name == input.tool_name
        &&& c.agent_id == s.agent_id
        &&& c.task_id == s.task_id
        &&& c.status == ToolCallStatus::Denied
        &&& c.risk_level == s.risk_level
        &&& c.input == input.input
        &&& (c.output matches Some(o) && is_denied_output(o, reason_of(e)@))
        &&& c.evidence_ids@.len() == 0
        &&& c.created_at == now
        &&& c.completed_at == Some(now)
        &&& post.audit_events@ == pre.audit_events@.push(a)
        &&& a.audit_id == audit_id
        &&& a.actor_type == AuditActorType::Agent
        &&& a.actor_id == s.agent_id
        &&& a.action@ == "tool.invoke"@
        &&& a.resource_type@ == "tool_invocation"@
        &&& a.resource_id == call_id
        &&& a.reason == Some(reason_of(e))
        &&& a.result == AuditResult::Deny
        &&& a.created_at == now
        &&& post.event_log@ == pre.event_log@.push(ev)
        &&& ev.event_id == event_id
        &&& ev.event_type@ == "ToolCallDenied"@
        &&& ev.syscall_id == s.syscall_id
        &&& ev.agent_id == s.agent_id
        &&& ev.task_id == s.task_id
        &&& ev.recorded_at == now
        &&& post == (KernelState {
            tool_invocations: post.tool_invocations,
            audit_events: post.audit_events,
            event_log: post.event_log,
            ..pre
        })
    }
}

impl KernelState {
    /// Records that syscall `s`'s call of `input.tool_name` was refused by
    /// authorization with `e` at `now`, as `denial_recorded` says.
    pub fn record_denied_tool_call(
        &mut self,
        s: &SyscallEnvelope,
        input: ToolInvokeInput,
        call_id: String,
        audit_id: String,
        event_id: String,
        e: &AgentOsError,
        now: String,
    )
        requires
            old(self).wf(),
            !has_call(old(self).tool_invocations@, call_id@),
        ensures
            final(self).wf(),
            denial_recorded(*old(self), *final(self), *s, input, call_id, audit_id, event_id, *e, now),
    {
        let i = match self.find_tool(input.tool_name.as_str()) {
            None => return,
            Some(i) => i,
        };
        let reason = e.reason();
        let mut ms: Vec<(String, JsonValue)> = Vec::new();
        ms.push((String::from_str("status"), JsonValue::String(String::from_str("denied"))));
        ms.push((String::from_str("reason"), JsonValue::String(String::from_str(reason))));
        let call = ToolInvocation {
            call_id: call_id.clone(),
            tool_id: self.tool_descriptors[i].tool_id.clone(),
            tool_name: input.tool_name,
            agent_id: s.agent_id.clone(),
            task_id: s.task_id.clone(),
            status: ToolCallStatus::Denied,
            risk_level: s.risk_level,
            input: input.input,
            output: Some(JsonValue::Object(ms)),
            evidence_ids: Vec::new(),
            created_at: now.clone(),
            completed_at: Some(now.clone()),
        };
        let ghost before = self.tool_invocations@;
        self.tool_invocations.push(call);
        proof {
            let n = before.len();
            assert forall|a: int, b: int|
                0 <= a < self.tool_invocations@.len() && 0 <= b < self.tool_invocations@.len()
                    && #[trigger] self.tool_invocations@[a].call_id@ == #[trigger] self.tool_invocations@[b].call_id@
                implies a == b by {
                if a < n && b == n {
                    assert(before[a].call_id@ == call_id@);
                }
                if b < n && a == n {
                    assert(before[b].call_id@ == call_id@);
                }
            }
        }
        self.audit_events.push(AuditRecord {
            audit_id,
            actor_type: AuditActorType::Agent,
            actor_id: s.agent_id.clone(),
            action: String::from_str("tool.invoke"),
            resource_type: String::from_str("tool_invocation"),
            resource_id: call_id,
            reason: Some(reason),
            result: AuditResult::Deny,
            created_at: now.clone(),
        });
        self.event_log.push(EventRecord {
            event_id,
            event_type: "ToolCallDenied",
            syscall_id: s.syscall_id.clone(),
            agent_id: s.agent_id.clone(),
            task_id: s.task_id.clone(),
            recorded_at: now,
        });
    }
}

} // verus!
