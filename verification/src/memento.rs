//! Memento fragments: reminders an agent leaves for itself. A fragment is
//! drafted by the owner of a thread, armed (which freezes its content
//! hash), possibly triggered when a child thread completes, and consumed.
//! Only the owner sees or changes it.
use vstd::prelude::*;
use crate::error::AgentOsError;
use crate::json::{JsonValue, json_same};
use crate::state::{KernelState, has_thread, thread_pos};
use crate::text::{str_eq, copy_strings};

verus! {

/// Where a fragment is in its life.
#[derive(Debug, Clone, Copy, PartialEq, Eq, Structural)]
pub enum MementoStatus {
    Draft,
    Armed,
    Triggered,
    Projected,
    Consumed,
}

/// What event a fragment waits for.
#[derive(Debug, Clone, Copy, PartialEq, Eq, Structural)]
pub enum MementoAnchorType {
    Manual,
    ChildThreadCompleted,
}

/// The event a fragment waits for, and what it refers to.
#[derive(Debug)]
pub struct MementoAnchor {
    pub anchor_type: MementoAnchorType,
    pub anchor_ref: Option<String>,
}

/// How prominently a fragment is shown to its owner.
#[derive(Debug)]
pub struct MementoProjection {
    pub priority: i32,
}

/// Records a fragment refers to.
#[derive(Debug)]
pub struct MementoLinks {
    pub related_artifact_ids: Vec<String>,
    pub related_evidence_ids: Vec<String>,
    pub related_child_thread_ids: Vec<String>,
    pub related_tool_call_ids: Vec<String>,
}

/// What freezes a fragment's content once it is armed.
#[derive(Debug)]
pub struct MementoImmutability {
    pub content_hash: String,
    pub committed_at: Option<String>,
    pub committed_by: Option<String>,
}

/// Who may see a fragment.
#[derive(Debug, Clone, Copy, PartialEq, Eq, Structural)]
pub struct MementoVisibility {
    pub owner_only: bool,
    pub child_visible: bool,
}

/// A memento fragment.
#[derive(Debug)]
pub struct MementoFragment {
    pub memento_id: String,
    pub owner_agent_id: String,
    pub owner_thread_id: String,
    pub goal_id: String,
    pub task_id: String,
    pub status: MementoStatus,
    pub anchor: MementoAnchor,
    pub content: JsonValue,
    pub projection: MementoProjection,
    pub immutability: MementoImmutability,
    pub visibility: MementoVisibility,
    pub links: MementoLinks,
    pub supersedes: Option<String>,
    pub superseded_by: Option<String>,
    pub created_at: String,
    pub updated_at: String,
    pub expires_at: Option<String>,
}

/// What an owner gives to draft a fragment.
#[derive(Debug)]
pub struct CreateMementoInput {
    pub owner_agent_id: String,
    pub owner_thread_id: String,
    pub goal_id: String,
    pub task_id: String,
    pub anchor: MementoAnchor,
    pub content: JsonValue,
    pub projection: MementoProjection,
    pub links: MementoLinks,
    pub supersedes: Option<String>,
    pub expires_at: Option<String>,
}

/// Two link sets with the same ids.
pub open spec fn same_links(a: MementoLinks, b: MementoLinks) -> bool {
    &&& a.related_artifact_ids@ == b.related_artifact_ids@
    &&& a.related_evidence_ids@ == b.related_evidence_ids@
    &&& a.related_child_thread_ids@ == b.related_child_thread_ids@
    &&& a.related_tool_call_ids@ == b.related_tool_call_ids@
}

/// Two fragments that agree field by field.
pub open spec fn same_memento(a: MementoFragment, b: MementoFragment) -> bool {
    &&& a == MementoFragment { content: a.content, links: a.links, ..b }
    &&& json_same(a.content, b.content)
    &&& same_links(a.links, b.links)
}

/// Some fragment has id `id`.
pub open spec fn has_memento(ms: Seq<MementoFragment>, id: Seq<char>) -> bool {
    exists|i: int| 0 <= i < ms.len() && ms[i].memento_id@ == id
}

/// The position of fragment `id` (meaningful when `has_memento`).
pub open spec fn memento_pos(ms: Seq<MementoFragment>, id: Seq<char>) -> int {
    choose|i: int| 0 <= i < ms.len() && ms[i].memento_id@ == id
}

/// Fragment ids are unique.
pub open spec fn memento_ids_unique(ms: Seq<MementoFragment>) -> bool {
    forall|i: int, j: int| 0 <= i < ms.len() && 0 <= j < ms.len() && #[trigger] ms[i].memento_id@ == #[trigger] ms[j].memento_id@ ==> i == j
}

/// Why a fragment cannot be drafted: its thread is unknown, or belongs to
/// another agent.
pub open spec fn create_error(s: KernelState, input: CreateMementoInput) -> Option<AgentOsError> {
    if !has_thread(s.threads@, input.owner_thread_id@) {
        Some(AgentOsError::NotFound("thread"))
    } else if s.threads@[thread_pos(s.threads@, input.owner_thread_id@)].agent_id@ != input.owner_agent_id@ {
        Some(AgentOsError::PermissionDenied("only owner agent can create owner memento"))
    } else {
        None
    }
}

/// The draft made from `input` under id `id` at `now`.
pub open spec fn drafted(m: MementoFragment, input: CreateMementoInput, id: String, now: String) -> bool {
    &&& m == (MementoFragment {
        memento_id: id,
        owner_agent_id: input.owner_agent_id,
        owner_thread_id: input.owner_thread_id,
        goal_id: input.goal_id,
        task_id: input.task_id,
        status: MementoStatus::Draft,
        anchor: input.anchor,
        content: m.content,
        projection: input.projection,
        immutability: MementoImmutability { content_hash: m.immutability.content_hash, committed_at: None, committed_by: None },
        visibility: MementoVisibility { owner_only: true, child_visible: false },
        links: m.links,
        supersedes: input.supersedes,
        superseded_by: None,
        created_at: now,
        updated_at: now,
        expires_at: input.expires_at,
    })
    &&& m.immutability.content_hash@.len() == 0
    &&& json_same(input.content, m.content)
    &&& same_links(input.links, m.links)
}

/// Why owner `agent` cannot change fragment `id`: it is unknown, or not
/// theirs.
pub open spec fn owner_error(s: KernelState, agent: Seq<char>, id: Seq<char>, denied: &'static str) -> Option<AgentOsError> {
    if !has_memento(s.mementos@, id) {
        Some(AgentOsError::NotFound("memento"))
    } else if s.mementos@[memento_pos(s.mementos@, id)].owner_agent_id@ != agent {
        Some(AgentOsError::PermissionDenied(denied))
    } else {
        None
    }
}

/// Why fragment `id` cannot be armed by `agent`.
pub open spec fn arm_error(s: KernelState, agent: Seq<char>, id: Seq<char>) -> Option<AgentOsError> {
    match owner_error(s, agent, id, "only owner can arm memento") {
        Some(e) => Some(e),
        None => if s.mementos@[memento_pos(s.mementos@, id)].status != MementoStatus::Draft {
            Some(AgentOsError::InvalidTransition("only draft mementos can be armed"))
        } else {
            None
        },
    }
}

/// A fragment that may be consumed.
pub open spec fn consumable(st: MementoStatus) -> bool {
    matches!(st, MementoStatus::Triggered | MementoStatus::Projected | MementoStatus::Armed)
}

/// Why fragment `id` cannot be consumed by `agent`.
pub open spec fn consume_error(s: KernelState, agent: Seq<char>, id: Seq<char>) -> Option<AgentOsError> {
    match owner_error(s, agent, id, "only owner can consume memento") {
        Some(e) => Some(e),
        None => if !consumable(s.mementos@[memento_pos(s.mementos@, id)].status) {
            Some(AgentOsError::InvalidTransition("memento cannot be consumed from current status"))
        } else {
            None
        },
    }
}

/// `m` armed by `agent` with content hash `hash` at `now`.
pub open spec fn armed(m: MementoFragment, agent: String, hash: String, now: String) -> MementoFragment {
    MementoFragment {
        status: MementoStatus::Armed,
        immutability: MementoImmutability { content_hash: hash, committed_at: Some(now), committed_by: Some(agent) },
        updated_at: now,
        ..m
    }
}

/// `m` with status `st` at `now`.
pub open spec fn with_status(m: MementoFragment, st: MementoStatus, now: String) -> MementoFragment {
    MementoFragment { status: st, updated_at: now, ..m }
}

/// `after` is `before` with fragment `k` replaced by `m` and nothing else
/// changed.
pub open spec fn memento_replaced(before: KernelState, after: KernelState, k: int, m: MementoFragment) -> bool {
    &&& 0 <= k < before.mementos@.len()
    &&& after.mementos@ == before.mementos@.update(k, m)
    &&& after == (KernelState { mementos: after.mementos, ..before })
}

/// A fragment that a completion of child thread `child` triggers.
pub open spec fn triggered_by(m: MementoFragment, child: Seq<char>) -> bool {
    &&& m.status == MementoStatus::Armed
    &&& m.anchor.anchor_type == MementoAnchorType::ChildThreadCompleted
    &&& m.anchor.anchor_ref matches Some(r) && r@ == child
}

// ---------------------------------------------------------------------------
// The owner's view, by priority

/// `idx` lists the owner's fragments of `ms`, each once, highest priority
/// first, fragments of equal priority in the order they were made.
pub open spec fn is_visible_order(ms: Seq<MementoFragment>, owner: Seq<char>, idx: Seq<int>) -> bool {
    &&& forall|i: int| 0 <= i < idx.len() ==> 0 <= #[trigger] idx[i] < ms.len() && ms[idx[i]].owner_thread_id@ == owner
    &&& forall|k: int| 0 <= k < ms.len() && #[trigger] ms[k].owner_thread_id@ == owner ==> idx.contains(k)
    &&& forall|i: int, j: int| 0 <= i < j < idx.len() ==> {
        let a = ms[#[trigger] idx[i]];
        let b = ms[#[trigger] idx[j]];
        a.projection.priority > b.projection.priority || (a.projection.priority == b.projection.priority && idx[i]
            < idx[j])
    }
}

fn copy_opt(o: &Option<String>) -> (r: Option<String>)
    ensures
        r == *o,
{
    match o {
        Some(s) => Some(s.clone()),
        None => None,
    }
}

impl MementoLinks {
    /// A copy of these links.
    pub fn duplicate(&self) -> (r: MementoLinks)
        ensures
            same_links(*self, r),
    {
        MementoLinks {
            related_artifact_ids: copy_strings(&self.related_artifact_ids),
            related_evidence_ids: copy_strings(&self.related_evidence_ids),
            related_child_thread_ids: copy_strings(&self.related_child_thread_ids),
            related_tool_call_ids: copy_strings(&self.related_tool_call_ids),
        }
    }
}

impl MementoFragment {
    /// A copy of this fragment.
    pub fn duplicate(&self) -> (r: MementoFragment)
        ensures
            same_memento(*self, r),
    {
        MementoFragment {
            memento_id: self.memento_id.clone(),
            owner_agent_id: self.owner_agent_id.clone(),
            owner_thread_id: self.owner_thread_id.clone(),
            goal_id: self.goal_id.clone(),
            task_id: self.task_id.clone(),
            status: self.status,
            anchor: MementoAnchor { anchor_type: self.anchor.anchor_type, anchor_ref: copy_opt(&self.anchor.anchor_ref) },
            content: self.content.duplicate(),
            projection: MementoProjection { priority: self.projection.priority },
            immutability: MementoImmutability {
                content_hash: self.immutability.content_hash.clone(),
                committed_at: copy_opt(&self.immutability.committed_at),
                committed_by: copy_opt(&self.immutability.committed_by),
            },
            visibility: self.visibility,
            links: self.links.duplicate(),
            supersedes: copy_opt(&self.supersedes),
            superseded_by: copy_opt(&self.superseded_by),
            created_at: self.created_at.clone(),
            updated_at: self.updated_at.clone(),
            expires_at: copy_opt(&self.expires_at),
        }
    }
}

/// The positions of the fragments of `owner` in `ms`, highest priority
/// first, fragments of equal priority in store order.
fn visible_order(ms: &Vec<MementoFragment>, owner_thread_id: &str) -> (order: Vec<usize>)
    ensures
        forall|i: int| 0 <= i < order@.len() ==> #[trigger] order@[i] < ms@.len() && ms@[order@[i] as int].owner_thread_id@ == owner_thread_id@,
        forall|q: int| 0 <= q < ms@.len() && #[trigger] ms@[q].owner_thread_id@ == owner_thread_id@ ==> exists|w: int| 0 <= w < order@.len() && order@[w] == q,
        forall|i: int, j: int| 0 <= i < j < order@.len() ==> {
            let a = ms@[#[trigger] order@[i] as int];
            let b = ms@[#[trigger] order@[j] as int];
            a.projection.priority > b.projection.priority || (a.projection.priority == b.projection.priority
                && order@[i] < order@[j])
        },
{
    let mut order: Vec<usize> = Vec::new();
    let mut k: usize = 0;
    while k < ms.len()
        invariant
            k <= ms@.len(),
            forall|i: int| 0 <= i < order@.len() ==> #[trigger] order@[i] < k && ms@[order@[i] as int].owner_thread_id@ == owner_thread_id@,
            forall|q: int| 0 <= q < k && #[trigger] ms@[q].owner_thread_id@ == owner_thread_id@ ==> exists|w: int| 0 <= w < order@.len() && order@[w] == q,
            forall|i: int, j: int| 0 <= i < j < order@.len() ==> {
                let a = ms@[#[trigger] order@[i] as int];
                let b = ms@[#[trigger] order@[j] as int];
                a.projection.priority > b.projection.priority || (a.projection.priority == b.projection.priority
                    && order@[i] < order@[j])
            },
        decreases ms@.len() - k,
    {
        if str_eq(ms[k].owner_thread_id.as_str(), owner_thread_id) {
            let p = ms[k].projection.priority;
            let mut pos: usize = 0;
            while pos < order.len() && ms[order[pos]].projection.priority >= p
                invariant
                    pos <= order@.len(),
                    k < ms@.len(),
                    p == ms@[k as int].projection.priority,
                    forall|i: int| 0 <= i < order@.len() ==> #[trigger] order@[i] < k,
                    forall|i: int| 0 <= i < pos ==> ms@[#[trigger] order@[i] as int].projection.priority >= p,
                decreases order@.len() - pos,
            {
                pos = pos + 1;
            }
            let ghost before = order@;
            order.insert(pos, k);
            proof {
                assert(order@ == before.insert(pos as int, k));
                assert forall|i: int, j: int| 0 <= i < j < order@.len() implies {
                    let a = ms@[#[trigger] order@[i] as int];
                    let b = ms@[#[trigger] order@[j] as int];
                    a.projection.priority > b.projection.priority || (a.projection.priority
                        == b.projection.priority && order@[i] < order@[j])
                } by {
                    if j < pos {
                    } else if j == pos {
                        assert(order@[i] == before[i]);
                    } else if i < pos {
                        assert(order@[j] == before[j - 1]);
                        assert(order@[i] == before[i]);
                        if pos < before.len() {
                            assert(ms@[before[pos as int] as int].projection.priority < p);
                            if i < pos {
                                assert(order@[i] == before[i]);
                            }
                        }
                        if j - 1 > pos {
                            assert(before[pos as int] == order@[pos + 1]);
                        }
                    } else if i == pos {
                        assert(order@[j] == before[j - 1]);
                        assert(ms@[before[pos as int] as int].projection.priority < p);
                        if j - 1 > pos {
                            assert(before[pos as int] == order@[pos + 1]);
                        }
                    } else {
                        assert(order@[j] == before[j - 1]);
                        assert(order@[i] == before[i - 1]);
                    }
                }
                assert forall|q: int| 0 <= q < k + 1 && #[trigger] ms@[q].owner_thread_id@ == owner_thread_id@ implies exists|w: int|
                    0 <= w < order@.len() && order@[w] == q by {
                    if q == k {
                        assert(order@[pos as int] == q);
                    } else {
                        let w = choose|w: int| 0 <= w < before.len() && before[w] == q;
                        let w2 = if w < pos { w } else { w + 1 };
                        assert(order@[w2] == q);
                    }
                }
                assert forall|i: int| 0 <= i < order@.len() implies #[trigger] order@[i] < k + 1 && ms@[order@[i] as int].owner_thread_id@
                    == owner_thread_id@ by {
                    if i < pos {
                        assert(order@[i] == before[i]);
                    } else if i > pos {
                        assert(order@[i] == before[i - 1]);
                    }
                }
            }
        }
        k = k + 1;
    }
    order
}

impl KernelState {
    /// The position of fragment `id`, if there is one.
    pub fn find_memento(&self, id: &str) -> (r: Option<usize>)
        requires
            memento_ids_unique(self.mementos@),
        ensures
            r.is_none() <==> !has_memento(self.mementos@, id@),
            r matches Some(i) ==> i == memento_pos(self.mementos@, id@) && i < self.mementos@.len(),
    {
        let mut i: usize = 0;
        while i < self.mementos.len()
            invariant
                i <= self.mementos@.len(),
                memento_ids_unique(self.mementos@),
                forall|j: int| 0 <= j < i ==> self.mementos@[j].memento_id@ != id@,
            decreases self.mementos@.len() - i,
        {
            if str_eq(self.mementos[i].memento_id.as_str(), id) {
                proof {
                    let k = memento_pos(self.mementos@, id@);
                    assert(self.mementos@[k].memento_id@ == self.mementos@[i as int].memento_id@);
                }
                return Some(i);
            }
            i = i + 1;
        }
        None
    }

    /// The fragments of thread `owner_thread_id` as thread
    /// `requester_thread_id` asks for them: only the owner thread may read
    /// them (`PermissionDenied` otherwise). They come highest priority
    /// first; fragments of equal priority in the order they were made.
    pub fn visible_mementos_for_thread(&self, requester_thread_id: &str, owner_thread_id: &str) -> (r: Result<
        Vec<MementoFragment>,
        AgentOsError,
    >)
        requires
            self.wf(),
        ensures
            requester_thread_id@ != owner_thread_id@ ==> r == Err::<Vec<MementoFragment>, AgentOsError>(
                AgentOsError::PermissionDenied("child or peer thread cannot read owner mementos"),
            ),
            requester_thread_id@ == owner_thread_id@ ==> (r matches Ok(v) && exists|idx: Seq<int>|
                #[trigger] is_visible_order(self.mementos@, owner_thread_id@, idx) && idx.len() == v@.len() && forall|i: int|
                    0 <= i < v@.len() ==> same_memento(self.mementos@[idx[i]], #[trigger] v@[i])),
    {
        if !str_eq(requester_thread_id, owner_thread_id) {
            return Err(AgentOsError::PermissionDenied("child or peer thread cannot read owner mementos"));
        }
        let ms = &self.mementos;
        let order = visible_order(ms, owner_thread_id);
        let mut out: Vec<MementoFragment> = Vec::new();
        let mut i: usize = 0;
        while i < order.len()
            invariant
                i <= order@.len(),
                out@.len() == i,
                forall|j: int| 0 <= j < order@.len() ==> #[trigger] order@[j] < ms@.len(),
                forall|j: int| 0 <= j < i ==> same_memento(ms@[order@[j] as int], #[trigger] out@[j]),
            decreases order@.len() - i,
        {
            out.push(ms[order[i]].duplicate());
            i = i + 1;
        }
        let ghost idx = order@.map_values(|x: usize| x as int);
        proof {
            assert forall|q: int| 0 <= q < ms@.len() && #[trigger] ms@[q].owner_thread_id@ == owner_thread_id@ implies idx.contains(q) by {
                let w = choose|w: int| 0 <= w < order@.len() && order@[w] == q;
                assert(idx[w] == q);
            }
        }
        assert(is_visible_order(self.mementos@, owner_thread_id@, idx));
        Ok(out)
    }

    /// Drafts a fragment from `input` under id `memento_id` at `now`: an
    /// unknown owner thread is `NotFound`; a thread of another agent than
    /// the input's owner is `PermissionDenied`. The draft is visible to
    /// its owner only and carries no content hash yet.
    pub fn create_memento(&mut self, input: CreateMementoInput, memento_id: String, now: String) -> (r: Result<
        MementoFragment,
        AgentOsError,
    >)
        requires
            old(self).wf(),
            !has_memento(old(self).mementos@, memento_id@),
        ensures
            create_memento_post(*old(self), *final(self), input, memento_id, now, r),
    {
        let k = match self.find_thread(input.owner_thread_id.as_str()) {
            None => return Err(AgentOsError::NotFound("thread")),
            Some(k) => k,
        };
        if !str_eq(self.threads[k].agent_id.as_str(), input.owner_agent_id.as_str()) {
            return Err(AgentOsError::PermissionDenied("only owner agent can create owner memento"));
        }
        let memento = MementoFragment {
            memento_id,
            owner_agent_id: input.owner_agent_id,
            owner_thread_id: input.owner_thread_id,
            goal_id: input.goal_id,
            task_id: input.task_id,
            status: MementoStatus::Draft,
            anchor: input.anchor,
            content: input.content,
            projection: input.projection,
            immutability: MementoImmutability { content_hash: String::new(), committed_at: None, committed_by: None },
            visibility: MementoVisibility { owner_only: true, child_visible: false },
            links: input.links,
            supersedes: input.supersedes,
            superseded_by: None,
            created_at: now.clone(),
            updated_at: now,
            expires_at: input.expires_at,
        };
        proof {
            crate::json::lemma_json_same_refl(memento.content);
        }
        let out = memento.duplicate();
        let ghost before = self.mementos@;
        self.mementos.push(memento);
        proof {
            assert forall|a: int, b: int|
                0 <= a < self.mementos@.len() && 0 <= b < self.mementos@.len() && #[trigger] self.mementos@[a].memento_id@
                    == #[trigger] self.mementos@[b].memento_id@ implies a == b by {
                if a < before.len() {
                    assert(self.mementos@[a] == before[a]);
                }
                if b < before.len() {
                    assert(self.mementos@[b] == before[b]);
                }
            }
        }
        Ok(out)
    }

    fn replace_memento(&mut self, k: usize, m: MementoFragment)
        requires
            old(self).wf(),
            k < old(self).mementos@.len(),
            m.memento_id@ == old(self).mementos@[k as int].memento_id@,
        ensures
            final(self).wf(),
            memento_replaced(*old(self), *final(self), k as int, m),
    {
        let ghost before = self.mementos@;
        self.mementos.set(k, m);
        proof {
            assert forall|a: int, b: int|
                0 <= a < self.mementos@.len() && 0 <= b < self.mementos@.len() && #[trigger] self.mementos@[a].memento_id@
                    == #[trigger] self.mementos@[b].memento_id@ implies a == b by {
                assert(self.mementos@[a].memento_id@ == before[a].memento_id@);
                assert(self.mementos@[b].memento_id@ == before[b].memento_id@);
            }
        }
    }

    /// Owner `owner_agent_id` arms draft fragment `memento_id` at `now`,
    /// freezing its content under hash `content_hash`. An unknown fragment
    /// is `NotFound`; another agent's is `PermissionDenied`; one that is no
    /// longer a draft is an `InvalidTransition`.
    pub fn arm_memento(&mut self, owner_agent_id: &str, memento_id: &str, content_hash: String, now: String) -> (r: Result<
        MementoFragment,
        AgentOsError,
    >)
        requires
            old(self).wf(),
        ensures
            arm_memento_post(*old(self), *final(self), owner_agent_id@, memento_id@, content_hash, now, r),
    {
        let k = match self.find_memento(memento_id) {
            None => return Err(AgentOsError::NotFound("memento")),
            Some(k) => k,
        };
        if !str_eq(self.mementos[k].owner_agent_id.as_str(), owner_agent_id) {
            return Err(AgentOsError::PermissionDenied("only owner can arm memento"));
        }
        if self.mementos[k].status != MementoStatus::Draft {
            return Err(AgentOsError::InvalidTransition("only draft mementos can be armed"));
        }
        let mut next = self.mementos.remove(k);
        let ghost cur = next;
        next.status = MementoStatus::Armed;
        next.immutability = MementoImmutability {
            content_hash,
            committed_at: Some(now.clone()),
            committed_by: Some(next.owner_agent_id.clone()),
        };
        next.updated_at = now;
        assert(next == armed(cur, next.owner_agent_id, content_hash, now));
        proof {
            crate::json::lemma_json_same_refl(next.content);
        }
        let out = next.duplicate();
        self.mementos.insert(k, next);
        proof {
            assert(self.mementos@ =~= old(self).mementos@.update(k as int, next));
            assert forall|a: int, b: int|
                0 <= a < self.mementos@.len() && 0 <= b < self.mementos@.len() && #[trigger] self.mementos@[a].memento_id@
                    == #[trigger] self.mementos@[b].memento_id@ implies a == b by {
                assert(self.mementos@[a].memento_id@ == old(self).mementos@[a].memento_id@);
                assert(self.mementos@[b].memento_id@ == old(self).mementos@[b].memento_id@);
            }
        }
        Ok(out)
    }

    /// Owner `owner_agent_id` consumes fragment `memento_id` at `now`. An
    /// unknown fragment is `NotFound`; another agent's is
    /// `PermissionDenied`; one that is not armed, triggered or projected
    /// is an `InvalidTransition`.
    pub fn consume_memento(&mut self, owner_agent_id: &str, memento_id: &str, now: String) -> (r: Result<
        MementoFragment,
        AgentOsError,
    >)
        requires
            old(self).wf(),
        ensures
            consume_memento_post(*old(self), *final(self), owner_agent_id@, memento_id@, now, r),
    {
        let k = match self.find_memento(memento_id) {
            None => return Err(AgentOsError::NotFound("memento")),
            Some(k) => k,
        };
        if !str_eq(self.mementos[k].owner_agent_id.as_str(), owner_agent_id) {
            return Err(AgentOsError::PermissionDenied("only owner can consume memento"));
        }
        if !matches!(self.mementos[k].status, MementoStatus::Triggered | MementoStatus::Projected | MementoStatus::Armed) {
            return Err(AgentOsError::InvalidTransition("memento cannot be consumed from current status"));
        }
        let mut next = self.mementos.remove(k);
        next.status = MementoStatus::Consumed;
        next.updated_at = now;
        proof {
            crate::json::lemma_json_same_refl(next.content);
        }
        let out = next.duplicate();
        self.mementos.insert(k, next);
        proof {
            assert(self.mementos@ =~= old(self).mementos@.update(k as int, next));
            assert forall|a: int, b: int|
                0 <= a < self.mementos@.len() && 0 <= b < self.mementos@.len() && #[trigger] self.mementos@[a].memento_id@
                    == #[trigger] self.mementos@[b].memento_id@ implies a == b by {
                assert(self.mementos@[a].memento_id@ == old(self).mementos@[a].memento_id@);
                assert(self.mementos@[b].memento_id@ == old(self).mementos@[b].memento_id@);
            }
        }
        Ok(out)
    }

    /// Child thread `child_thread_id` completed at `now`: every armed
    /// fragment anchored on that completion is triggered; nothing else
    /// changes.
    pub fn trigger_child_completion_mementos(&mut self, child_thread_id: &str, now: String)
        requires
            old(self).wf(),
        ensures
            final(self).wf(),
            final(self).mementos@.len() == old(self).mementos@.len(),
            forall|k: int| 0 <= k < old(self).mementos@.len() ==> #[trigger] final(self).mementos@[k] == if triggered_by(
                old(self).mementos@[k],
                child_thread_id@,
            ) {
                with_status(old(self).mementos@[k], MementoStatus::Triggered, now)
            } else {
                old(self).mementos@[k]
            },
            *final(self) == (KernelState { mementos: final(self).mementos, ..*old(self) }),
    {
        let mut k: usize = 0;
        while k < self.mementos.len()
            invariant
                self.wf(),
                k <= self.mementos@.len(),
                self.mementos@.len() == old(self).mementos@.len(),
                forall|q: int| 0 <= q < k ==> #[trigger] self.mementos@[q] == if triggered_by(old(self).mementos@[q], child_thread_id@) {
                    with_status(old(self).mementos@[q], MementoStatus::Triggered, now)
                } else {
                    old(self).mementos@[q]
                },
                forall|q: int| k <= q < self.mementos@.len() ==> #[trigger] self.mementos@[q] == old(self).mementos@[q],
                *self == (KernelState { mementos: self.mementos, ..*old(self) }),
            decreases self.mementos@.len() - k,
        {
            let hit = self.mementos[k].status == MementoStatus::Armed && self.mementos[k].anchor.anchor_type
                == MementoAnchorType::ChildThreadCompleted && match &self.mementos[k].anchor.anchor_ref {
                Some(r) => str_eq(r.as_str(), child_thread_id),
                None => false,
            };
            if hit {
                let ghost before = *self;
                let mut m = self.mementos.remove(k);
                m.status = MementoStatus::Triggered;
                m.updated_at = now.clone();
                self.mementos.insert(k, m);
                proof {
                    assert(self.mementos@ =~= before.mementos@.update(k as int, m));
                    assert forall|a: int, b: int|
                        0 <= a < self.mementos@.len() && 0 <= b < self.mementos@.len()
                            && #[trigger] self.mementos@[a].memento_id@ == #[trigger] self.mementos@[b].memento_id@
                        implies a == b by {
                        assert(self.mementos@[a].memento_id@ == before.mementos@[a].memento_id@);
                        assert(self.mementos@[b].memento_id@ == before.mementos@[b].memento_id@);
                    }
                }
            }
            k = k + 1;
        }
    }
}

/// A consumed fragment is done: it can be neither armed nor consumed
/// again.
pub proof fn law_consumed_memento_is_final(before: KernelState, after: KernelState, agent: Seq<char>, id: Seq<char>, now: String)
    requires
        before.wf(),
        after.wf(),
        consume_error(before, agent, id) is None,
        memento_replaced(before, after, memento_pos(before.mementos@, id), with_status(
            before.mementos@[memento_pos(before.mementos@, id)],
            MementoStatus::Consumed,
            now,
        )),
    ensures
        arm_error(after, agent, id) == Some(AgentOsError::InvalidTransition("only draft mementos can be armed")),
        consume_error(after, agent, id) == Some(AgentOsError::InvalidTransition("memento cannot be consumed from current status")),
{
    let k = memento_pos(before.mementos@, id);
    assert(after.mementos@[k].memento_id@ == id);
    assert(has_memento(after.mementos@, id));
    let p = memento_pos(after.mementos@, id);
    assert(after.mementos@[p].memento_id@ == after.mementos@[k].memento_id@);
}

/// What `create_memento` ensures, as a relation between the state before and after the call, its arguments and its result.
pub open spec fn create_memento_post(pre: KernelState, post: KernelState, input: CreateMementoInput, memento_id: String, now: String, r: Result<
        MementoFragment,
        AgentOsError,
    >) -> bool {
    &&& (post.wf())
    &&& (match create_error(pre, input) {
                Some(e) => r == Err::<MementoFragment, AgentOsError>(e) && post == pre,
                None => r matches Ok(v) && {
                    let m = post.mementos@.last();
                    &&& drafted(m, input, memento_id, now)
                    &&& same_memento(m, v)
                    &&& post.mementos@ == pre.mementos@.push(m)
                    &&& post == (KernelState { mementos: post.mementos, ..pre })
                },
            })
}

/// What `arm_memento` ensures, as a relation between the state before and after the call, its arguments and its result.
pub open spec fn arm_memento_post(pre: KernelState, post: KernelState, owner_agent_id: Seq<char>, memento_id: Seq<char>, content_hash: String, now: String, r: Result<
        MementoFragment,
        AgentOsError,
    >) -> bool {
    &&& (post.wf())
    &&& (match arm_error(pre, owner_agent_id, memento_id) {
                Some(e) => r == Err::<MementoFragment, AgentOsError>(e) && post == pre,
                None => {
                    let k = memento_pos(pre.mementos@, memento_id);
                    let m = post.mementos@[k];
                    &&& r matches Ok(v) && same_memento(m, v)
                    &&& m.owner_agent_id@ == owner_agent_id
                    &&& m == armed(pre.mementos@[k], m.owner_agent_id, content_hash, now)
                    &&& memento_replaced(pre, post, k, m)
                },
            })
}

/// What `consume_memento` ensures, as a relation between the state before and after the call, its arguments and its result.
pub open spec fn consume_memento_post(pre: KernelState, post: KernelState, owner_agent_id: Seq<char>, memento_id: Seq<char>, now: String, r: Result<
        MementoFragment,
        AgentOsError,
    >) -> bool {
    &&& (post.wf())
    &&& (match consume_error(pre, owner_agent_id, memento_id) {
                Some(e) => r == Err::<MementoFragment, AgentOsError>(e) && post == pre,
                None => {
                    let k = memento_pos(pre.mementos@, memento_id);
                    let m = with_status(pre.mementos@[k], MementoStatus::Consumed, now);
                    &&& r matches Ok(v) && same_memento(m, v)
                    &&& memento_replaced(pre, post, k, m)
                },
            })
}

} // verus!
