//! Permission sets: the ceilings an agent thread works under, and the
//! algebra the kernel uses to narrow them for children (intersection), widen
//! them with grants (merge) and compare them (subset).
use vstd::prelude::*;
use crate::scope::{names_allow, scopes_allow, pattern_allows, texts, string_list_allows, scope_list_allows};
use crate::error::AgentOsError;
use crate::text::{str_eq, copy_strings, copy_vec};
use crate::lifecycle::TurnStatus;
use crate::state::ThreadRecord;
use crate::order::{sorted_union, union_strings, strictly_sorted, lemma_text_lt_irreflexive};

verus! {

/// The class of driver that executes a tool.
#[derive(Debug, Clone, Copy, PartialEq, Eq, Structural)]
pub enum ToolDriverClass {
    Filesystem,
    Shell,
    Mcp,
    KernelBuiltin,
}

/// Whether a grant lasts for the session or only the current turn.
#[derive(Debug, Clone, Copy, PartialEq, Eq, Structural)]
pub enum PermissionGrantScope {
    Session,
    Turn,
}

/// Permissions a parent granted to one of its child threads.
#[derive(Debug)]
pub struct PermissionGrant {
    pub permission_grant_id: String,
    pub permission_request_id: String,
    pub agent_id: String,
    pub thread_id: String,
    pub task_id: String,
    pub goal_id: String,
    pub granted_by_agent_id: String,
    pub granted_by_thread_id: String,
    pub permissions: PermissionSet,
    pub scope: PermissionGrantScope,
    pub session_id: Option<String>,
    pub turn_id: Option<String>,
    pub created_at: String,
}

/// What an agent thread may do.
#[derive(Debug)]
pub struct PermissionSet {
    pub max_risk_level: u8,
    pub allowed_syscalls: Vec<String>,
    pub resource_scopes: Vec<String>,
    pub allowed_tool_names: Vec<String>,
    pub allowed_tool_driver_classes: Vec<ToolDriverClass>,
    pub approval_required_above: u8,
    pub requires_evidence_for: Vec<String>,
}

/// The mathematical content of a permission set.
pub struct PermissionView {
    pub max_risk_level: u8,
    pub allowed_syscalls: Seq<Seq<char>>,
    pub resource_scopes: Seq<Seq<char>>,
    pub allowed_tool_names: Seq<Seq<char>>,
    pub allowed_tool_driver_classes: Seq<ToolDriverClass>,
    pub approval_required_above: u8,
    pub requires_evidence_for: Seq<Seq<char>>,
}

impl View for PermissionSet {
    type V = PermissionView;

    open spec fn view(&self) -> PermissionView {
        PermissionView {
            max_risk_level: self.max_risk_level,
            allowed_syscalls: texts(self.allowed_syscalls@),
            resource_scopes: texts(self.resource_scopes@),
            allowed_tool_names: texts(self.allowed_tool_names@),
            allowed_tool_driver_classes: self.allowed_tool_driver_classes@,
            approval_required_above: self.approval_required_above,
            requires_evidence_for: texts(self.requires_evidence_for@),
        }
    }
}

/// Every name of `child` is admitted by the allow list `parent`.
pub open spec fn names_within(child: Seq<Seq<char>>, parent: Seq<Seq<char>>) -> bool {
    forall|i: int| 0 <= i < child.len() ==> names_allow(parent, #[trigger] child[i])
}

/// Every scope of `child` is admitted by some pattern of `parent`.
pub open spec fn scopes_within(child: Seq<Seq<char>>, parent: Seq<Seq<char>>) -> bool {
    forall|i: int| 0 <= i < child.len() ==> scopes_allow(parent, #[trigger] child[i])
}

/// Every driver class of `child` occurs in `parent`.
pub open spec fn classes_within(child: Seq<ToolDriverClass>, parent: Seq<ToolDriverClass>) -> bool {
    forall|i: int| 0 <= i < child.len() ==> parent.contains(#[trigger] child[i])
}

/// `child` asks for nothing that `parent` does not allow.
pub open spec fn permission_subset(child: PermissionView, parent: PermissionView) -> bool {
    &&& child.max_risk_level <= parent.max_risk_level
    &&& child.approval_required_above <= parent.approval_required_above
    &&& names_within(child.allowed_syscalls, parent.allowed_syscalls)
    &&& scopes_within(child.resource_scopes, parent.resource_scopes)
    &&& names_within(child.allowed_tool_names, parent.allowed_tool_names)
    &&& classes_within(child.allowed_tool_driver_classes, parent.allowed_tool_driver_classes)
}

/// The entries of `list` that the allow list `parent` admits, in order.
pub open spec fn keep_names(list: Seq<Seq<char>>, parent: Seq<Seq<char>>) -> Seq<Seq<char>>
    decreases list.len(),
{
    if list.len() == 0 {
        Seq::empty()
    } else {
        let rest = keep_names(list.drop_last(), parent);
        if names_allow(parent, list.last()) {
            rest.push(list.last())
        } else {
            rest
        }
    }
}

/// The entries of `list` that some pattern of `parent` admits, in order.
pub open spec fn keep_scopes(list: Seq<Seq<char>>, parent: Seq<Seq<char>>) -> Seq<Seq<char>>
    decreases list.len(),
{
    if list.len() == 0 {
        Seq::empty()
    } else {
        let rest = keep_scopes(list.drop_last(), parent);
        if scopes_allow(parent, list.last()) {
            rest.push(list.last())
        } else {
            rest
        }
    }
}

/// The driver classes of `list` that occur in `parent`, in order.
pub open spec fn keep_classes(list: Seq<ToolDriverClass>, parent: Seq<ToolDriverClass>) -> Seq<
    ToolDriverClass,
>
    decreases list.len(),
{
    if list.len() == 0 {
        Seq::empty()
    } else {
        let rest = keep_classes(list.drop_last(), parent);
        if parent.contains(list.last()) {
            rest.push(list.last())
        } else {
            rest
        }
    }
}

/// `left` followed by the classes of `right` that are not yet present.
pub open spec fn add_classes(left: Seq<ToolDriverClass>, right: Seq<ToolDriverClass>) -> Seq<
    ToolDriverClass,
>
    decreases right.len(),
{
    if right.len() == 0 {
        left
    } else {
        let prior = add_classes(left, right.drop_last());
        if prior.contains(right.last()) {
            prior
        } else {
            prior.push(right.last())
        }
    }
}

pub open spec fn min_u8(a: u8, b: u8) -> u8 {
    if a <= b { a } else { b }
}

pub open spec fn max_u8(a: u8, b: u8) -> u8 {
    if a >= b { a } else { b }
}

// ---------------------------------------------------------------------------
// Lemmas about the filters

proof fn lemma_keep_names_members(list: Seq<Seq<char>>, parent: Seq<Seq<char>>)
    ensures
        forall|i: int|
            0 <= i < keep_names(list, parent).len() ==> names_allow(parent, #[trigger] keep_names(list, parent)[i])
                && list.contains(keep_names(list, parent)[i]),
    decreases list.len(),
{
    if list.len() > 0 {
        lemma_keep_names_members(list.drop_last(), parent);
        let rest = keep_names(list.drop_last(), parent);
        assert forall|i: int| 0 <= i < keep_names(list, parent).len() implies names_allow(
            parent,
            #[trigger] keep_names(list, parent)[i],
        ) && list.contains(keep_names(list, parent)[i]) by {
            if i < rest.len() {
                let j = choose|j: int| 0 <= j < list.drop_last().len() && list.drop_last()[j] == rest[i];
                assert(list[j] == rest[i]);
            } else {
                assert(list[list.len() - 1] == list.last());
            }
        }
    }
}

proof fn lemma_keep_scopes_members(list: Seq<Seq<char>>, parent: Seq<Seq<char>>)
    ensures
        forall|i: int|
            0 <= i < keep_scopes(list, parent).len() ==> scopes_allow(parent, #[trigger] keep_scopes(list, parent)[i])
                && list.contains(keep_scopes(list, parent)[i]),
    decreases list.len(),
{
    if list.len() > 0 {
        lemma_keep_scopes_members(list.drop_last(), parent);
        let rest = keep_scopes(list.drop_last(), parent);
        assert forall|i: int| 0 <= i < keep_scopes(list, parent).len() implies scopes_allow(
            parent,
            #[trigger] keep_scopes(list, parent)[i],
        ) && list.contains(keep_scopes(list, parent)[i]) by {
            if i < rest.len() {
                let j = choose|j: int| 0 <= j < list.drop_last().len() && list.drop_last()[j] == rest[i];
                assert(list[j] == rest[i]);
            } else {
                assert(list[list.len() - 1] == list.last());
            }
        }
    }
}

proof fn lemma_keep_classes_members(list: Seq<ToolDriverClass>, parent: Seq<ToolDriverClass>)
    ensures
        forall|i: int|
            0 <= i < keep_classes(list, parent).len() ==> parent.contains(#[trigger] keep_classes(list, parent)[i])
                && list.contains(keep_classes(list, parent)[i]),
    decreases list.len(),
{
    if list.len() > 0 {
        lemma_keep_classes_members(list.drop_last(), parent);
        let rest = keep_classes(list.drop_last(), parent);
        assert forall|i: int| 0 <= i < keep_classes(list, parent).len() implies parent.contains(
            #[trigger] keep_classes(list, parent)[i],
        ) && list.contains(keep_classes(list, parent)[i]) by {
            if i < rest.len() {
                let j = choose|j: int| 0 <= j < list.drop_last().len() && list.drop_last()[j] == rest[i];
                assert(list[j] == rest[i]);
            } else {
                assert(list[list.len() - 1] == list.last());
            }
        }
    }
}

proof fn lemma_add_classes_contains(left: Seq<ToolDriverClass>, right: Seq<ToolDriverClass>)
    ensures
        forall|c: ToolDriverClass| #[trigger] add_classes(left, right).contains(c) <==> (left.contains(c) || right.contains(c)),
    decreases right.len(),
{
    if right.len() > 0 {
        lemma_add_classes_contains(left, right.drop_last());
        let prior = add_classes(left, right.drop_last());
        assert forall|c: ToolDriverClass| #[trigger] add_classes(left, right).contains(c) <==> (left.contains(c)
            || right.contains(c)) by {
            if right.contains(c) && !right.drop_last().contains(c) {
                let j = choose|j: int| 0 <= j < right.len() && right[j] == c;
                if j < right.len() - 1 {
                    assert(right.drop_last()[j] == c);
                }
                if !prior.contains(c) {
                    assert(add_classes(left, right)[prior.len() as int] == c);
                }
            }
            if right.drop_last().contains(c) {
                let j = choose|j: int| 0 <= j < right.drop_last().len() && right.drop_last()[j] == c;
                assert(right[j] == c);
            }
            if add_classes(left, right).contains(c) && !prior.contains(c) {
                let j = choose|j: int| 0 <= j < add_classes(left, right).len() && add_classes(left, right)[j] == c;
                assert(j == prior.len());
                assert(right[right.len() - 1] == c);
            }
            if prior.contains(c) && !prior.contains(right.last()) {
                let j = choose|j: int| 0 <= j < prior.len() && prior[j] == c;
                assert(add_classes(left, right)[j] == c);
            }
        }
    }
}

/// A value is admitted by an allow list that holds it.
proof fn lemma_names_allow_member(list: Seq<Seq<char>>, value: Seq<char>)
    requires
        list.contains(value),
    ensures
        names_allow(list, value),
{
    let j = choose|j: int| 0 <= j < list.len() && list[j] == value;
    assert(list[j] == value);
}

/// A scope is admitted by a pattern list that holds it.
proof fn lemma_scopes_allow_member(list: Seq<Seq<char>>, value: Seq<char>)
    requires
        list.contains(value),
    ensures
        scopes_allow(list, value),
{
    let j = choose|j: int| 0 <= j < list.len() && list[j] == value;
    assert(pattern_allows(list[j], value));
}

// ---------------------------------------------------------------------------
// Executable algebra

fn all_names_allowed(child: &[String], parent: &[String]) -> (r: bool)
    ensures
        r == names_within(texts(child@), texts(parent@)),
{
    let mut i: usize = 0;
    while i < child.len()
        invariant
            i <= child@.len(),
            forall|j: int| 0 <= j < i ==> names_allow(texts(parent@), #[trigger] texts(child@)[j]),
        decreases child@.len() - i,
    {
        if !string_list_allows(parent, child[i].as_str()) {
            assert(texts(child@)[i as int] == child@[i as int]@);
            return false;
        }
        assert(texts(child@)[i as int] == child@[i as int]@);
        i = i + 1;
    }
    true
}

fn all_scopes_allowed(child: &[String], parent: &[String]) -> (r: bool)
    ensures
        r == scopes_within(texts(child@), texts(parent@)),
{
    let mut i: usize = 0;
    while i < child.len()
        invariant
            i <= child@.len(),
            forall|j: int| 0 <= j < i ==> scopes_allow(texts(parent@), #[trigger] texts(child@)[j]),
        decreases child@.len() - i,
    {
        if !scope_list_allows(parent, child[i].as_str()) {
            assert(texts(child@)[i as int] == child@[i as int]@);
            return false;
        }
        assert(texts(child@)[i as int] == child@[i as int]@);
        i = i + 1;
    }
    true
}

fn class_list_contains(list: &[ToolDriverClass], class: ToolDriverClass) -> (r: bool)
    ensures
        r == list@.contains(class),
{
    let mut i: usize = 0;
    while i < list.len()
        invariant
            i <= list@.len(),
            forall|j: int| 0 <= j < i ==> list@[j] != class,
        decreases list@.len() - i,
    {
        if list[i] == class {
            return true;
        }
        i = i + 1;
    }
    false
}

fn all_classes_contained(child: &[ToolDriverClass], parent: &[ToolDriverClass]) -> (r: bool)
    ensures
        r == classes_within(child@, parent@),
{
    let mut i: usize = 0;
    while i < child.len()
        invariant
            i <= child@.len(),
            forall|j: int| 0 <= j < i ==> parent@.contains(#[trigger] child@[j]),
        decreases child@.len() - i,
    {
        if !class_list_contains(parent, child[i]) {
            return false;
        }
        i = i + 1;
    }
    true
}

/// Whether `child` stays within `parent` on every bounded field.
pub fn permission_set_is_subset(child: &PermissionSet, parent: &PermissionSet) -> (r: bool)
    ensures
        r == permission_subset(child@, parent@),
{
    child.max_risk_level <= parent.max_risk_level
        && child.approval_required_above <= parent.approval_required_above
        && all_names_allowed(child.allowed_syscalls.as_slice(), parent.allowed_syscalls.as_slice())
        && all_scopes_allowed(child.resource_scopes.as_slice(), parent.resource_scopes.as_slice())
        && all_names_allowed(child.allowed_tool_names.as_slice(), parent.allowed_tool_names.as_slice())
        && all_classes_contained(
        child.allowed_tool_driver_classes.as_slice(),
        parent.allowed_tool_driver_classes.as_slice(),
    )
}

fn filter_names(requested: &Vec<String>, parent: &Vec<String>) -> (r: Vec<String>)
    ensures
        texts(r@) == keep_names(texts(requested@), texts(parent@)),
{
    let mut out: Vec<String> = Vec::new();
    let mut i: usize = 0;
    while i < requested.len()
        invariant
            i <= requested@.len(),
            texts(out@) == keep_names(texts(requested@).subrange(0, i as int), texts(parent@)),
        decreases requested@.len() - i,
    {
        let ghost pre = texts(requested@).subrange(0, i as int);
        let ghost next = texts(requested@).subrange(0, i + 1);
        assert(next.drop_last() =~= pre);
        assert(next.last() == requested@[i as int]@);
        if string_list_allows(parent.as_slice(), requested[i].as_str()) {
            out.push(requested[i].clone());
        }
        assert(texts(out@) =~= keep_names(next, texts(parent@)));
        i = i + 1;
    }
    assert(texts(requested@).subrange(0, requested@.len() as int) =~= texts(requested@));
    out
}

fn filter_scopes(requested: &Vec<String>, parent: &Vec<String>) -> (r: Vec<String>)
    ensures
        texts(r@) == keep_scopes(texts(requested@), texts(parent@)),
{
    let mut out: Vec<String> = Vec::new();
    let mut i: usize = 0;
    while i < requested.len()
        invariant
            i <= requested@.len(),
            texts(out@) == keep_scopes(texts(requested@).subrange(0, i as int), texts(parent@)),
        decreases requested@.len() - i,
    {
        let ghost pre = texts(requested@).subrange(0, i as int);
        let ghost next = texts(requested@).subrange(0, i + 1);
        assert(next.drop_last() =~= pre);
        assert(next.last() == requested@[i as int]@);
        if scope_list_allows(parent.as_slice(), requested[i].as_str()) {
            out.push(requested[i].clone());
        }
        assert(texts(out@) =~= keep_scopes(next, texts(parent@)));
        i = i + 1;
    }
    assert(texts(requested@).subrange(0, requested@.len() as int) =~= texts(requested@));
    out
}

fn filter_classes(requested: &Vec<ToolDriverClass>, parent: &Vec<ToolDriverClass>) -> (r: Vec<
    ToolDriverClass,
>)
    ensures
        r@ == keep_classes(requested@, parent@),
{
    let mut out: Vec<ToolDriverClass> = Vec::new();
    let mut i: usize = 0;
    while i < requested.len()
        invariant
            i <= requested@.len(),
            out@ == keep_classes(requested@.subrange(0, i as int), parent@),
        decreases requested@.len() - i,
    {
        let ghost next = requested@.subrange(0, i + 1);
        assert(next.drop_last() =~= requested@.subrange(0, i as int));
        if class_list_contains(parent.as_slice(), requested[i]) {
            out.push(requested[i]);
        }
        assert(out@ =~= keep_classes(next, parent@));
        i = i + 1;
    }
    assert(requested@.subrange(0, requested@.len() as int) =~= requested@);
    out
}

/// `left` followed by each class of `right` not yet present.
pub fn union_tool_driver_classes(left: &Vec<ToolDriverClass>, right: &Vec<ToolDriverClass>) -> (r: Vec<
    ToolDriverClass,
>)
    ensures
        r@ == add_classes(left@, right@),
{
    let mut values = left.clone();
    let mut i: usize = 0;
    while i < right.len()
        invariant
            i <= right@.len(),
            values@ == add_classes(left@, right@.subrange(0, i as int)),
        decreases right@.len() - i,
    {
        let ghost next = right@.subrange(0, i + 1);
        assert(next.drop_last() =~= right@.subrange(0, i as int));
        if !class_list_contains(values.as_slice(), right[i]) {
            values.push(right[i]);
        }
        assert(values@ =~= add_classes(left@, next));
        i = i + 1;
    }
    assert(right@.subrange(0, right@.len() as int) =~= right@);
    values
}

/// The part of `requested` that `parent` also allows. Evidence
/// requirements of both are kept.
pub open spec fn intersection(requested: PermissionView, parent: PermissionView) -> PermissionView {
    PermissionView {
        max_risk_level: min_u8(requested.max_risk_level, parent.max_risk_level),
        allowed_syscalls: keep_names(requested.allowed_syscalls, parent.allowed_syscalls),
        resource_scopes: keep_scopes(requested.resource_scopes, parent.resource_scopes),
        allowed_tool_names: keep_names(requested.allowed_tool_names, parent.allowed_tool_names),
        allowed_tool_driver_classes: keep_classes(
            requested.allowed_tool_driver_classes,
            parent.allowed_tool_driver_classes,
        ),
        approval_required_above: min_u8(requested.approval_required_above, parent.approval_required_above),
        requires_evidence_for: sorted_union(requested.requires_evidence_for, parent.requires_evidence_for),
    }
}

/// Everything either side allows.
pub open spec fn merge(left: PermissionView, right: PermissionView) -> PermissionView {
    PermissionView {
        max_risk_level: max_u8(left.max_risk_level, right.max_risk_level),
        allowed_syscalls: sorted_union(left.allowed_syscalls, right.allowed_syscalls),
        resource_scopes: sorted_union(left.resource_scopes, right.resource_scopes),
        allowed_tool_names: sorted_union(left.allowed_tool_names, right.allowed_tool_names),
        allowed_tool_driver_classes: add_classes(
            left.allowed_tool_driver_classes,
            right.allowed_tool_driver_classes,
        ),
        approval_required_above: max_u8(left.approval_required_above, right.approval_required_above),
        requires_evidence_for: sorted_union(left.requires_evidence_for, right.requires_evidence_for),
    }
}

/// The permissions `requested` narrowed to what `parent` allows.
pub fn intersect_permission_sets(requested: &PermissionSet, parent: &PermissionSet) -> (r: PermissionSet)
    ensures
        r@ == intersection(requested@, parent@),
{
    PermissionSet {
        max_risk_level: if requested.max_risk_level <= parent.max_risk_level {
            requested.max_risk_level
        } else {
            parent.max_risk_level
        },
        allowed_syscalls: filter_names(&requested.allowed_syscalls, &parent.allowed_syscalls),
        resource_scopes: filter_scopes(&requested.resource_scopes, &parent.resource_scopes),
        allowed_tool_names: filter_names(&requested.allowed_tool_names, &parent.allowed_tool_names),
        allowed_tool_driver_classes: filter_classes(
            &requested.allowed_tool_driver_classes,
            &parent.allowed_tool_driver_classes,
        ),
        approval_required_above: if requested.approval_required_above <= parent.approval_required_above {
            requested.approval_required_above
        } else {
            parent.approval_required_above
        },
        requires_evidence_for: union_strings(
            requested.requires_evidence_for.as_slice(),
            parent.requires_evidence_for.as_slice(),
        ),
    }
}

/// The union of two permission sets, field by field.
pub fn merge_permission_sets(left: &PermissionSet, right: &PermissionSet) -> (r: PermissionSet)
    ensures
        r@ == merge(left@, right@),
{
    PermissionSet {
        max_risk_level: if left.max_risk_level >= right.max_risk_level {
            left.max_risk_level
        } else {
            right.max_risk_level
        },
        allowed_syscalls: union_strings(left.allowed_syscalls.as_slice(), right.allowed_syscalls.as_slice()),
        resource_scopes: union_strings(left.resource_scopes.as_slice(), right.resource_scopes.as_slice()),
        allowed_tool_names: union_strings(left.allowed_tool_names.as_slice(), right.allowed_tool_names.as_slice()),
        allowed_tool_driver_classes: union_tool_driver_classes(
            &left.allowed_tool_driver_classes,
            &right.allowed_tool_driver_classes,
        ),
        approval_required_above: if left.approval_required_above >= right.approval_required_above {
            left.approval_required_above
        } else {
            right.approval_required_above
        },
        requires_evidence_for: union_strings(
            left.requires_evidence_for.as_slice(),
            right.requires_evidence_for.as_slice(),
        ),
    }
}

/// Asks for no risk, syscall, scope, tool or driver class at all.
pub open spec fn asks_for_nothing(p: PermissionView) -> bool {
    &&& p.max_risk_level == 0
    &&& p.allowed_syscalls.len() == 0
    &&& p.resource_scopes.len() == 0
    &&& p.allowed_tool_names.len() == 0
    &&& p.allowed_tool_driver_classes.len() == 0
}

/// Whether a permission request asks for nothing.
pub fn requested_permissions_is_empty(permissions: &PermissionSet) -> (r: bool)
    ensures
        r == asks_for_nothing(permissions@),
{
    permissions.max_risk_level == 0 && permissions.allowed_syscalls.len() == 0
        && permissions.resource_scopes.len() == 0 && permissions.allowed_tool_names.len() == 0
        && permissions.allowed_tool_driver_classes.len() == 0
}

// ---------------------------------------------------------------------------
// Laws of the permission algebra

proof fn lemma_names_within_self(list: Seq<Seq<char>>)
    ensures
        names_within(list, list),
{
    assert forall|i: int| 0 <= i < list.len() implies names_allow(list, #[trigger] list[i]) by {
        assert(list[i] == list[i]);
    }
}

proof fn lemma_scopes_within_self(list: Seq<Seq<char>>)
    ensures
        scopes_within(list, list),
{
    assert forall|i: int| 0 <= i < list.len() implies scopes_allow(list, #[trigger] list[i]) by {
        assert(pattern_allows(list[i], list[i]));
    }
}

/// Every permission set is within itself.
pub proof fn law_permission_subset_reflexive(p: PermissionView)
    ensures
        permission_subset(p, p),
{
    lemma_names_within_self(p.allowed_syscalls);
    lemma_scopes_within_self(p.resource_scopes);
    lemma_names_within_self(p.allowed_tool_names);
    assert forall|i: int| 0 <= i < p.allowed_tool_driver_classes.len() implies p.allowed_tool_driver_classes.contains(
        #[trigger] p.allowed_tool_driver_classes[i],
    ) by {}
}

/// The intersection of `requested` with `parent` is within both of them.
pub proof fn law_intersection_within_both(requested: PermissionView, parent: PermissionView)
    ensures
        permission_subset(intersection(requested, parent), parent),
        permission_subset(intersection(requested, parent), requested),
{
    let r = intersection(requested, parent);
    lemma_keep_names_members(requested.allowed_syscalls, parent.allowed_syscalls);
    lemma_keep_scopes_members(requested.resource_scopes, parent.resource_scopes);
    lemma_keep_names_members(requested.allowed_tool_names, parent.allowed_tool_names);
    lemma_keep_classes_members(requested.allowed_tool_driver_classes, parent.allowed_tool_driver_classes);
    assert forall|i: int| 0 <= i < r.allowed_syscalls.len() implies names_allow(
        requested.allowed_syscalls,
        #[trigger] r.allowed_syscalls[i],
    ) by {
        lemma_names_allow_member(requested.allowed_syscalls, r.allowed_syscalls[i]);
    }
    assert forall|i: int| 0 <= i < r.resource_scopes.len() implies scopes_allow(
        requested.resource_scopes,
        #[trigger] r.resource_scopes[i],
    ) by {
        lemma_scopes_allow_member(requested.resource_scopes, r.resource_scopes[i]);
    }
    assert forall|i: int| 0 <= i < r.allowed_tool_names.len() implies names_allow(
        requested.allowed_tool_names,
        #[trigger] r.allowed_tool_names[i],
    ) by {
        lemma_names_allow_member(requested.allowed_tool_names, r.allowed_tool_names[i]);
    }
}

proof fn lemma_sorted_union_contains(a: Seq<Seq<char>>, b: Seq<Seq<char>>)
    requires
        exists|s: Seq<Seq<char>>|
            strictly_sorted(s) && forall|x: Seq<char>| #[trigger] s.contains(x) <==> (a.contains(x) || b.contains(x)),
    ensures
        forall|x: Seq<char>| #[trigger] sorted_union(a, b).contains(x) <==> (a.contains(x) || b.contains(x)),
{
}

/// Some strictly sorted list holds exactly the entries of `a` and `b`.
proof fn lemma_sorted_union_exists(a: Seq<Seq<char>>, b: Seq<Seq<char>>)
    ensures
        exists|s: Seq<Seq<char>>|
            strictly_sorted(s) && forall|x: Seq<char>| #[trigger] s.contains(x) <==> (a.contains(x) || b.contains(x)),
    decreases a.len() + b.len(),
{
    crate::order::lemma_sorted_union_exists(a, b);
}

proof fn lemma_names_within_union(child: Seq<Seq<char>>, other: Seq<Seq<char>>)
    ensures
        names_within(child, sorted_union(child, other)),
        names_within(child, sorted_union(other, child)),
{
    lemma_sorted_union_exists(child, other);
    lemma_sorted_union_exists(other, child);
    assert forall|i: int| 0 <= i < child.len() implies names_allow(sorted_union(child, other), #[trigger] child[i]) by {
        assert(child.contains(child[i]));
        lemma_names_allow_member(sorted_union(child, other), child[i]);
    }
    assert forall|i: int| 0 <= i < child.len() implies names_allow(sorted_union(other, child), #[trigger] child[i]) by {
        assert(child.contains(child[i]));
        lemma_names_allow_member(sorted_union(other, child), child[i]);
    }
}

proof fn lemma_scopes_within_union(child: Seq<Seq<char>>, other: Seq<Seq<char>>)
    ensures
        scopes_within(child, sorted_union(child, other)),
        scopes_within(child, sorted_union(other, child)),
{
    lemma_sorted_union_exists(child, other);
    lemma_sorted_union_exists(other, child);
    assert forall|i: int| 0 <= i < child.len() implies scopes_allow(sorted_union(child, other), #[trigger] child[i]) by {
        assert(child.contains(child[i]));
        lemma_scopes_allow_member(sorted_union(child, other), child[i]);
    }
    assert forall|i: int| 0 <= i < child.len() implies scopes_allow(sorted_union(other, child), #[trigger] child[i]) by {
        assert(child.contains(child[i]));
        lemma_scopes_allow_member(sorted_union(other, child), child[i]);
    }
}

/// Both sides of a merge are within the merged set.
pub proof fn law_merge_covers_both(left: PermissionView, right: PermissionView)
    ensures
        permission_subset(left, merge(left, right)),
        permission_subset(right, merge(left, right)),
{
    lemma_names_within_union(left.allowed_syscalls, right.allowed_syscalls);
    lemma_names_within_union(right.allowed_syscalls, left.allowed_syscalls);
    lemma_scopes_within_union(left.resource_scopes, right.resource_scopes);
    lemma_scopes_within_union(right.resource_scopes, left.resource_scopes);
    lemma_names_within_union(left.allowed_tool_names, right.allowed_tool_names);
    lemma_names_within_union(right.allowed_tool_names, left.allowed_tool_names);
    lemma_add_classes_contains(left.allowed_tool_driver_classes, right.allowed_tool_driver_classes);
    let m = merge(left, right).allowed_tool_driver_classes;
    assert forall|i: int| 0 <= i < left.allowed_tool_driver_classes.len() implies m.contains(
        #[trigger] left.allowed_tool_driver_classes[i],
    ) by {
        assert(left.allowed_tool_driver_classes.contains(left.allowed_tool_driver_classes[i]));
    }
    assert forall|i: int| 0 <= i < right.allowed_tool_driver_classes.len() implies m.contains(
        #[trigger] right.allowed_tool_driver_classes[i],
    ) by {
        assert(right.allowed_tool_driver_classes.contains(right.allowed_tool_driver_classes[i]));
    }
}

} // verus!

verus! {

/// Every entry of `a` occurs in `b`.
pub open spec fn entries_within(a: Seq<Seq<char>>, b: Seq<Seq<char>>) -> bool {
    forall|i: int| 0 <= i < a.len() ==> b.contains(#[trigger] a[i])
}

/// `big` literally holds everything `small` allows.
pub open spec fn covers(small: PermissionView, big: PermissionView) -> bool {
    &&& small.max_risk_level <= big.max_risk_level
    &&& small.approval_required_above <= big.approval_required_above
    &&& entries_within(small.allowed_syscalls, big.allowed_syscalls)
    &&& entries_within(small.resource_scopes, big.resource_scopes)
    &&& entries_within(small.allowed_tool_names, big.allowed_tool_names)
    &&& classes_within(small.allowed_tool_driver_classes, big.allowed_tool_driver_classes)
}

proof fn lemma_covers_implies_subset(small: PermissionView, big: PermissionView)
    requires
        covers(small, big),
    ensures
        permission_subset(small, big),
{
    assert forall|i: int| 0 <= i < small.allowed_syscalls.len() implies names_allow(
        big.allowed_syscalls,
        #[trigger] small.allowed_syscalls[i],
    ) by {
        lemma_names_allow_member(big.allowed_syscalls, small.allowed_syscalls[i]);
    }
    assert forall|i: int| 0 <= i < small.resource_scopes.len() implies scopes_allow(
        big.resource_scopes,
        #[trigger] small.resource_scopes[i],
    ) by {
        lemma_scopes_allow_member(big.resource_scopes, small.resource_scopes[i]);
    }
    assert forall|i: int| 0 <= i < small.allowed_tool_names.len() implies names_allow(
        big.allowed_tool_names,
        #[trigger] small.allowed_tool_names[i],
    ) by {
        lemma_names_allow_member(big.allowed_tool_names, small.allowed_tool_names[i]);
    }
}

proof fn lemma_covers_transitive(a: PermissionView, b: PermissionView, c: PermissionView)
    requires
        covers(a, b),
        covers(b, c),
    ensures
        covers(a, c),
{
    assert forall|i: int| 0 <= i < a.allowed_syscalls.len() implies c.allowed_syscalls.contains(#[trigger] a.allowed_syscalls[i]) by {
        let j = choose|j: int| 0 <= j < b.allowed_syscalls.len() && b.allowed_syscalls[j] == a.allowed_syscalls[i];
        assert(c.allowed_syscalls.contains(b.allowed_syscalls[j]));
    }
    assert forall|i: int| 0 <= i < a.resource_scopes.len() implies c.resource_scopes.contains(#[trigger] a.resource_scopes[i]) by {
        let j = choose|j: int| 0 <= j < b.resource_scopes.len() && b.resource_scopes[j] == a.resource_scopes[i];
        assert(c.resource_scopes.contains(b.resource_scopes[j]));
    }
    assert forall|i: int| 0 <= i < a.allowed_tool_names.len() implies c.allowed_tool_names.contains(#[trigger] a.allowed_tool_names[i]) by {
        let j = choose|j: int| 0 <= j < b.allowed_tool_names.len() && b.allowed_tool_names[j] == a.allowed_tool_names[i];
        assert(c.allowed_tool_names.contains(b.allowed_tool_names[j]));
    }
    assert forall|i: int| 0 <= i < a.allowed_tool_driver_classes.len() implies c.allowed_tool_driver_classes.contains(
        #[trigger] a.allowed_tool_driver_classes[i],
    ) by {
        let j = choose|j: int| 0 <= j < b.allowed_tool_driver_classes.len() && b.allowed_tool_driver_classes[j] == a.allowed_tool_driver_classes[i];
        assert(c.allowed_tool_driver_classes.contains(b.allowed_tool_driver_classes[j]));
    }
}

proof fn lemma_covers_self(a: PermissionView)
    ensures
        covers(a, a),
{
    assert forall|i: int| 0 <= i < a.allowed_syscalls.len() implies a.allowed_syscalls.contains(#[trigger] a.allowed_syscalls[i]) by {}
    assert forall|i: int| 0 <= i < a.resource_scopes.len() implies a.resource_scopes.contains(#[trigger] a.resource_scopes[i]) by {}
    assert forall|i: int| 0 <= i < a.allowed_tool_names.len() implies a.allowed_tool_names.contains(#[trigger] a.allowed_tool_names[i]) by {}
    assert forall|i: int| 0 <= i < a.allowed_tool_driver_classes.len() implies a.allowed_tool_driver_classes.contains(
        #[trigger] a.allowed_tool_driver_classes[i],
    ) by {}
}

proof fn lemma_union_holds_both(a: Seq<Seq<char>>, b: Seq<Seq<char>>)
    ensures
        entries_within(a, sorted_union(a, b)),
        entries_within(b, sorted_union(a, b)),
{
    lemma_sorted_union_exists(a, b);
    assert forall|i: int| 0 <= i < a.len() implies sorted_union(a, b).contains(#[trigger] a[i]) by {
        assert(a.contains(a[i]));
    }
    assert forall|i: int| 0 <= i < b.len() implies sorted_union(a, b).contains(#[trigger] b[i]) by {
        assert(b.contains(b[i]));
    }
}

proof fn lemma_merge_covers_both(left: PermissionView, right: PermissionView)
    ensures
        covers(left, merge(left, right)),
        covers(right, merge(left, right)),
{
    lemma_union_holds_both(left.allowed_syscalls, right.allowed_syscalls);
    lemma_union_holds_both(left.resource_scopes, right.resource_scopes);
    lemma_union_holds_both(left.allowed_tool_names, right.allowed_tool_names);
    lemma_add_classes_contains(left.allowed_tool_driver_classes, right.allowed_tool_driver_classes);
    let m = merge(left, right).allowed_tool_driver_classes;
    assert forall|i: int| 0 <= i < left.allowed_tool_driver_classes.len() implies m.contains(
        #[trigger] left.allowed_tool_driver_classes[i],
    ) by {
        assert(left.allowed_tool_driver_classes.contains(left.allowed_tool_driver_classes[i]));
    }
    assert forall|i: int| 0 <= i < right.allowed_tool_driver_classes.len() implies m.contains(
        #[trigger] right.allowed_tool_driver_classes[i],
    ) by {
        assert(right.allowed_tool_driver_classes.contains(right.allowed_tool_driver_classes[i]));
    }
}

/// The intersection of `requested` with anything is literally held by `requested`.
proof fn lemma_intersection_covered_by_requested(requested: PermissionView, parent: PermissionView)
    ensures
        covers(intersection(requested, parent), requested),
{
    lemma_keep_names_members(requested.allowed_syscalls, parent.allowed_syscalls);
    lemma_keep_scopes_members(requested.resource_scopes, parent.resource_scopes);
    lemma_keep_names_members(requested.allowed_tool_names, parent.allowed_tool_names);
    lemma_keep_classes_members(requested.allowed_tool_driver_classes, parent.allowed_tool_driver_classes);
}

/// Members of `list` admitted by a list within `parent` are admitted by `parent`.
proof fn lemma_subset_passes_to_members(child: PermissionView, parent: PermissionView, small: PermissionView)
    requires
        covers(small, child),
        permission_subset(child, parent),
    ensures
        permission_subset(small, parent),
{
    assert forall|i: int| 0 <= i < small.allowed_syscalls.len() implies names_allow(
        parent.allowed_syscalls,
        #[trigger] small.allowed_syscalls[i],
    ) by {
        let j = choose|j: int| 0 <= j < child.allowed_syscalls.len() && child.allowed_syscalls[j] == small.allowed_syscalls[i];
        assert(names_allow(parent.allowed_syscalls, child.allowed_syscalls[j]));
    }
    assert forall|i: int| 0 <= i < small.resource_scopes.len() implies scopes_allow(
        parent.resource_scopes,
        #[trigger] small.resource_scopes[i],
    ) by {
        let j = choose|j: int| 0 <= j < child.resource_scopes.len() && child.resource_scopes[j] == small.resource_scopes[i];
        assert(scopes_allow(parent.resource_scopes, child.resource_scopes[j]));
    }
    assert forall|i: int| 0 <= i < small.allowed_tool_names.len() implies names_allow(
        parent.allowed_tool_names,
        #[trigger] small.allowed_tool_names[i],
    ) by {
        let j = choose|j: int| 0 <= j < child.allowed_tool_names.len() && child.allowed_tool_names[j] == small.allowed_tool_names[i];
        assert(names_allow(parent.allowed_tool_names, child.allowed_tool_names[j]));
    }
    assert forall|i: int| 0 <= i < small.allowed_tool_driver_classes.len() implies parent.allowed_tool_driver_classes.contains(
        #[trigger] small.allowed_tool_driver_classes[i],
    ) by {
        let j = choose|j: int| 0 <= j < child.allowed_tool_driver_classes.len() && child.allowed_tool_driver_classes[j] == small.allowed_tool_driver_classes[i];
        assert(parent.allowed_tool_driver_classes.contains(child.allowed_tool_driver_classes[j]));
    }
}

impl PermissionSet {
    /// A copy of this permission set.
    pub fn duplicate(&self) -> (r: PermissionSet)
        ensures
            r@ == self@,
    {
        PermissionSet {
            max_risk_level: self.max_risk_level,
            allowed_syscalls: copy_strings(&self.allowed_syscalls),
            resource_scopes: copy_strings(&self.resource_scopes),
            allowed_tool_names: copy_strings(&self.allowed_tool_names),
            allowed_tool_driver_classes: copy_vec(&self.allowed_tool_driver_classes),
            approval_required_above: self.approval_required_above,
            requires_evidence_for: copy_strings(&self.requires_evidence_for),
        }
    }
}

/// The text of an optional string.
pub open spec fn opt_text(o: Option<String>) -> Option<Seq<char>> {
    match o {
        Some(s) => Some(s@),
        None => None,
    }
}

/// A turn that is still under way.
pub open spec fn turn_open(s: Option<TurnStatus>) -> bool {
    matches!(s, Some(TurnStatus::InProgress) | Some(TurnStatus::AwaitingTool) | Some(TurnStatus::AwaitingPermission) | Some(TurnStatus::AwaitingUser))
}

/// The grant applies to the thread now: for its session, or for its current open turn.
pub open spec fn grant_active(g: PermissionGrant, t: ThreadRecord) -> bool {
    &&& g.thread_id@ == t.lifecycle.thread_id@
    &&& match g.scope {
        PermissionGrantScope::Session => opt_text(g.session_id) == Some(t.session_id@),
        PermissionGrantScope::Turn => opt_text(g.turn_id) == opt_text(t.lifecycle.active_turn.turn_id) && turn_open(
            t.lifecycle.active_turn.status,
        ),
    }
}

/// The thread's snapshot widened by each of the first `n` grants that applies to it.
pub open spec fn effective_view(grants: Seq<PermissionGrant>, n: nat, t: ThreadRecord) -> PermissionView
    decreases n,
{
    if n == 0 || n > grants.len() {
        t.permissions_snapshot@
    } else {
        let prev = effective_view(grants, (n - 1) as nat, t);
        if grant_active(grants[n - 1], t) {
            merge(prev, grants[n - 1].permissions@)
        } else {
            prev
        }
    }
}

/// The permissions a thread has now: its snapshot and every grant that applies.
pub open spec fn effective_permissions(grants: Seq<PermissionGrant>, t: ThreadRecord) -> PermissionView {
    effective_view(grants, grants.len(), t)
}

fn opt_str_eq(a: &Option<String>, b: &Option<String>) -> (r: bool)
    ensures
        r == (opt_text(*a) == opt_text(*b)),
{
    match (a, b) {
        (Some(x), Some(y)) => str_eq(x.as_str(), y.as_str()),
        (None, None) => true,
        _ => false,
    }
}

fn grant_applies(g: &PermissionGrant, t: &ThreadRecord) -> (r: bool)
    ensures
        r == grant_active(*g, *t),
{
    if !str_eq(g.thread_id.as_str(), t.lifecycle.thread_id.as_str()) {
        return false;
    }
    match g.scope {
        PermissionGrantScope::Session => match &g.session_id {
            Some(s) => str_eq(s.as_str(), t.session_id.as_str()),
            None => false,
        },
        PermissionGrantScope::Turn => opt_str_eq(&g.turn_id, &t.lifecycle.active_turn.turn_id) && matches!(
            t.lifecycle.active_turn.status,
            Some(TurnStatus::InProgress) | Some(TurnStatus::AwaitingTool) | Some(TurnStatus::AwaitingPermission)
                | Some(TurnStatus::AwaitingUser)
        ),
    }
}

/// The permissions thread `thread` has now, given the grants in `grants`.
pub fn effective_permission_set_for_thread(grants: &Vec<PermissionGrant>, thread: &ThreadRecord) -> (r: PermissionSet)
    ensures
        r@ == effective_permissions(grants@, *thread),
{
    let mut effective = thread.permissions_snapshot.duplicate();
    let mut i: usize = 0;
    while i < grants.len()
        invariant
            i <= grants@.len(),
            effective@ == effective_view(grants@, i as nat, *thread),
        decreases grants@.len() - i,
    {
        if grant_applies(&grants[i], thread) {
            effective = merge_permission_sets(&effective, &grants[i].permissions);
        }
        i = i + 1;
    }
    effective
}

proof fn lemma_effective_covers(grants: Seq<PermissionGrant>, n: nat, t: ThreadRecord)
    requires
        n <= grants.len(),
    ensures
        covers(t.permissions_snapshot@, effective_view(grants, n, t)),
        forall|k: int| 0 <= k < n && k < grants.len() && grant_active(#[trigger] grants[k], t) ==> covers(
            grants[k].permissions@,
            effective_view(grants, n, t),
        ),
    decreases n,
{
    if n == 0 {
        lemma_covers_self(t.permissions_snapshot@);
    } else {
        lemma_effective_covers(grants, (n - 1) as nat, t);
        let prev = effective_view(grants, (n - 1) as nat, t);
        if grant_active(grants[n - 1], t) {
            lemma_merge_covers_both(prev, grants[n - 1].permissions@);
            lemma_covers_transitive(t.permissions_snapshot@, prev, merge(prev, grants[n - 1].permissions@));
            assert forall|k: int| 0 <= k < n && k < grants.len() && grant_active(#[trigger] grants[k], t) implies covers(
                grants[k].permissions@,
                effective_view(grants, n, t),
            ) by {
                if k < n - 1 {
                    lemma_covers_transitive(grants[k].permissions@, prev, merge(prev, grants[n - 1].permissions@));
                }
            }
        }
    }
}

/// A thread's effective permissions never fall below its own snapshot: grants only widen them.
pub proof fn law_effective_permissions_cover_snapshot(grants: Seq<PermissionGrant>, t: ThreadRecord)
    ensures
        permission_subset(t.permissions_snapshot@, effective_permissions(grants, t)),
{
    lemma_effective_covers(grants, grants.len() as nat, t);
    lemma_covers_implies_subset(t.permissions_snapshot@, effective_permissions(grants, t));
}

/// Every grant that applies to a thread is within its effective permissions.
pub proof fn law_active_grant_within_effective(grants: Seq<PermissionGrant>, t: ThreadRecord, k: int)
    requires
        0 <= k < grants.len(),
        grant_active(grants[k], t),
    ensures
        permission_subset(grants[k].permissions@, effective_permissions(grants, t)),
{
    lemma_effective_covers(grants, grants.len() as nat, t);
    lemma_covers_implies_subset(grants[k].permissions@, effective_permissions(grants, t));
}

/// The outcome of deriving a child's permission snapshot.
pub open spec fn child_snapshot_outcome(parent: PermissionView, role: PermissionView, requested: PermissionView) -> Option<PermissionView> {
    if permission_subset(requested, parent) {
        Some(intersection(requested, role))
    } else {
        None
    }
}

/// The permission snapshot of a child thread: the explicitly requested
/// permissions (or else the role's) must stay within the parent's effective
/// permissions (or, for a root thread, the role's), and are then narrowed to
/// the role. A request beyond the parent is `PermissionDenied`.
pub fn child_permission_snapshot(
    parent_permissions: Option<&PermissionSet>,
    role_permission: &PermissionSet,
    explicit_permissions: Option<PermissionSet>,
) -> (r: Result<PermissionSet, AgentOsError>)
    ensures
        ({
            let parent = match parent_permissions {
                Some(p) => p@,
                None => role_permission@,
            };
            let requested = match explicit_permissions {
                Some(e) => e@,
                None => role_permission@,
            };
            match child_snapshot_outcome(parent, role_permission@, requested) {
                Some(v) => r matches Ok(s) && s@ == v,
                None => r == Err::<PermissionSet, AgentOsError>(
                    AgentOsError::PermissionDenied("child permissions must be a subset of parent effective permissions"),
                ),
            }
        }),
{
    let requested = match explicit_permissions {
        Some(e) => e,
        None => role_permission.duplicate(),
    };
    let within = match parent_permissions {
        Some(p) => permission_set_is_subset(&requested, p),
        None => permission_set_is_subset(&requested, role_permission),
    };
    if !within {
        return Err(AgentOsError::PermissionDenied("child permissions must be a subset of parent effective permissions"));
    }
    Ok(intersect_permission_sets(&requested, role_permission))
}

/// A child's permission snapshot stays within its parent's permissions, its
/// role's permissions and what it asked for.
pub proof fn law_child_snapshot_within_parent_and_role(parent: PermissionView, role: PermissionView, requested: PermissionView)
    requires
        child_snapshot_outcome(parent, role, requested) is Some,
    ensures
        permission_subset(child_snapshot_outcome(parent, role, requested).unwrap(), parent),
        permission_subset(child_snapshot_outcome(parent, role, requested).unwrap(), role),
        permission_subset(child_snapshot_outcome(parent, role, requested).unwrap(), requested),
{
    let s = intersection(requested, role);
    law_intersection_within_both(requested, role);
    lemma_intersection_covered_by_requested(requested, role);
    lemma_subset_passes_to_members(requested, parent, s);
}

} // verus!
