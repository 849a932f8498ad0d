//! What clients see of agent threads: titles, archiving and deletion of
//! thread summaries, the inputs submitted to active turns, and
//! checkpoints.
use vstd::prelude::*;
use crate::error::AgentOsError;
use crate::lifecycle::{ThreadStatus, ThreadLifecycle};
use crate::state::{KernelState, ThreadRecord, has_thread, thread_pos};
use crate::text::{str_eq, trim_ws, trimmed};

verus! {

/// A thread as clients list it.
#[derive(Debug)]
pub struct ClientThread {
    pub client_thread_id: String,
    pub agent_thread_id: String,
    pub task_id: Option<String>,
    pub goal_id: Option<String>,
    pub title: String,
    pub status: ThreadStatus,
    pub active_turn_id: Option<String>,
    pub archived: bool,
    pub deleted: bool,
    pub updated_at: String,
}

/// How a turn input was submitted.
#[derive(Debug, Clone, Copy, PartialEq, Eq, Structural)]
pub enum TurnInputKind {
    Start,
    Steer,
}

/// An input a client submitted to the active turn of a thread.
#[derive(Debug)]
pub struct TurnInputRecord {
    pub input_id: String,
    pub client_thread_id: String,
    pub turn_id: String,
    pub submitted_by_client_id: String,
    pub kind: TurnInputKind,
    pub input: String,
    pub created_at: String,
}

/// Some summary is kept for thread `id`.
pub open spec fn has_summary(ts: Seq<ClientThread>, id: Seq<char>) -> bool {
    exists|i: int| 0 <= i < ts.len() && ts[i].client_thread_id@ == id
}

/// The position of the summary of thread `id` (meaningful when `has_summary`).
pub open spec fn summary_pos(ts: Seq<ClientThread>, id: Seq<char>) -> int {
    choose|i: int| 0 <= i < ts.len() && ts[i].client_thread_id@ == id
}

/// At most one summary per thread.
pub open spec fn summary_ids_unique(ts: Seq<ClientThread>) -> bool {
    forall|i: int, j: int|
        0 <= i < ts.len() && 0 <= j < ts.len() && #[trigger] ts[i].client_thread_id@ == #[trigger] ts[j].client_thread_id@
            ==> i == j
}

/// How clients see thread `t` at `now`: title, archiving and deletion come
/// from its kept summary (the goal, not archived, not deleted, when none
/// is kept); the rest from the thread itself.
pub open spec fn client_view(s: KernelState, t: ThreadRecord, now: String) -> ClientThread {
    let id = t.lifecycle.thread_id;
    let kept = has_summary(s.client_threads@, id@);
    let c = s.client_threads@[summary_pos(s.client_threads@, id@)];
    ClientThread {
        client_thread_id: id,
        agent_thread_id: id,
        task_id: Some(t.task_id),
        goal_id: Some(t.goal_id),
        title: if kept { c.title } else { t.goal },
        status: t.lifecycle.status,
        active_turn_id: t.lifecycle.active_turn.turn_id,
        archived: kept && c.archived,
        deleted: kept && c.deleted,
        updated_at: now,
    }
}

/// Why thread `id` cannot be changed by a client: it is unknown, or deleted.
pub open spec fn app_update_error(s: KernelState, id: Seq<char>, now: String) -> Option<AgentOsError> {
    if !has_thread(s.threads@, id) {
        Some(AgentOsError::NotFound("thread"))
    } else if client_view(s, s.threads@[thread_pos(s.threads@, id)], now).deleted {
        Some(AgentOsError::InvalidTransition("thread is deleted"))
    } else {
        None
    }
}

/// `after` is `before` with summary `c` kept for its thread, replacing the
/// one kept before if any.
pub open spec fn summary_saved(before: KernelState, after: KernelState, c: ClientThread) -> bool {
    &&& after.client_threads@ == if has_summary(before.client_threads@, c.client_thread_id@) {
        before.client_threads@.update(summary_pos(before.client_threads@, c.client_thread_id@), c)
    } else {
        before.client_threads@.push(c)
    }
    &&& after == (KernelState { client_threads: after.client_threads, ..before })
}

/// How a client change edits the view of a thread.
#[derive(Debug, Clone, Copy, PartialEq, Eq, Structural)]
pub enum ThreadEdit {
    Archive,
    Unarchive,
    Delete,
}

/// The view `v` after edit `e`.
pub open spec fn edited(v: ClientThread, e: ThreadEdit) -> ClientThread {
    match e {
        ThreadEdit::Archive => ClientThread { archived: true, ..v },
        ThreadEdit::Unarchive => ClientThread { archived: false, ..v },
        ThreadEdit::Delete => ClientThread { archived: true, deleted: true, ..v },
    }
}

/// The lifecycle of a thread after checkpoint `id` was committed at `now`.
pub open spec fn checkpointed(lc: ThreadLifecycle, id: String, now: String) -> ThreadLifecycle {
    ThreadLifecycle { last_checkpoint_id: Some(id), recovery_dirty: false, updated_at: now, ..lc }
}

fn copy_opt(o: &Option<String>) -> (r: Option<String>)
    ensures
        r == *o,
{
    match o {
        Some(s) => Some(s.clone()),
        None => None,
    }
}

/// Deletion is final: once a summary marking thread `id` deleted has been
/// kept, every later client change of that thread is refused as an
/// `InvalidTransition`, whatever its time.
pub proof fn law_deleted_thread_stays_deleted(before: KernelState, after: KernelState, v: ClientThread, id: Seq<char>, later: String)
    requires
        after.wf(),
        summary_saved(before, after, v),
        v.client_thread_id@ == id,
        v.deleted,
        has_thread(before.threads@, id),
    ensures
        app_update_error(after, id, later) == Some(AgentOsError::InvalidTransition("thread is deleted")),
{
    let ts = after.client_threads@;
    let i = if has_summary(before.client_threads@, id) {
        summary_pos(before.client_threads@, id)
    } else {
        before.client_threads@.len() as int
    };
    assert(ts[i] == v);
    assert(has_summary(ts, id));
    let p = summary_pos(ts, id);
    assert(ts[p].client_thread_id@ == ts[i].client_thread_id@);
    assert(p == i);
    assert(after.threads == before.threads);
}

impl ClientThread {
    /// A copy of this summary.
    pub fn duplicate(&self) -> (r: ClientThread)
        ensures
            r == *self,
    {
        ClientThread {
            client_thread_id: self.client_thread_id.clone(),
            agent_thread_id: self.agent_thread_id.clone(),
            task_id: copy_opt(&self.task_id),
            goal_id: copy_opt(&self.goal_id),
            title: self.title.clone(),
            status: self.status,
            active_turn_id: copy_opt(&self.active_turn_id),
            archived: self.archived,
            deleted: self.deleted,
            updated_at: self.updated_at.clone(),
        }
    }
}

impl TurnInputRecord {
    /// A copy of this record.
    pub fn duplicate(&self) -> (r: TurnInputRecord)
        ensures
            r == *self,
    {
        TurnInputRecord {
            input_id: self.input_id.clone(),
            client_thread_id: self.client_thread_id.clone(),
            turn_id: self.turn_id.clone(),
            submitted_by_client_id: self.submitted_by_client_id.clone(),
            kind: self.kind,
            input: self.input.clone(),
            created_at: self.created_at.clone(),
        }
    }
}

impl KernelState {
    /// The position of the summary kept for thread `id`, if any.
    pub fn find_summary(&self, id: &str) -> (r: Option<usize>)
        requires
            summary_ids_unique(self.client_threads@),
        ensures
            r.is_none() <==> !has_summary(self.client_threads@, id@),
            r matches Some(i) ==> i == summary_pos(self.client_threads@, id@) && i < self.client_threads@.len(),
    {
        let mut i: usize = 0;
        while i < self.client_threads.len()
            invariant
                i <= self.client_threads@.len(),
                summary_ids_unique(self.client_threads@),
                forall|j: int| 0 <= j < i ==> self.client_threads@[j].client_thread_id@ != id@,
            decreases self.client_threads@.len() - i,
        {
            if str_eq(self.client_threads[i].client_thread_id.as_str(), id) {
                proof {
                    let k = summary_pos(self.client_threads@, id@);
                    assert(self.client_threads@[k].client_thread_id@ == self.client_threads@[i as int].client_thread_id@);
                }
                return Some(i);
            }
            i = i + 1;
        }
        None
    }

    /// How clients see the thread at position `k` at `now`.
    fn current_client_thread(&self, k: usize, now: String) -> (r: ClientThread)
        requires
            self.wf(),
            k < self.threads@.len(),
        ensures
            r == client_view(*self, self.threads@[k as int], now),
    {
        let t = &self.threads[k];
        let (title, archived, deleted) = match self.find_summary(t.lifecycle.thread_id.as_str()) {
            Some(i) => (self.client_threads[i].title.clone(), self.client_threads[i].archived, self.client_threads[i].deleted),
            None => (t.goal.clone(), false, false),
        };
        ClientThread {
            client_thread_id: t.lifecycle.thread_id.clone(),
            agent_thread_id: t.lifecycle.thread_id.clone(),
            task_id: Some(t.task_id.clone()),
            goal_id: Some(t.goal_id.clone()),
            title,
            status: t.lifecycle.status,
            active_turn_id: copy_opt(&t.lifecycle.active_turn.turn_id),
            archived,
            deleted,
            updated_at: now,
        }
    }

    /// The position of thread `thread_id` when a client may change it.
    fn thread_for_app_update(&self, thread_id: &str, now: String) -> (r: Result<usize, AgentOsError>)
        requires
            self.wf(),
        ensures
            match app_update_error(*self, thread_id@, now) {
                Some(e) => r == Err::<usize, AgentOsError>(e),
                None => r matches Ok(k) && k as int == thread_pos(self.threads@, thread_id@) && k < self.threads@.len(),
            },
    {
        let k = match self.find_thread(thread_id) {
            None => return Err(AgentOsError::NotFound("thread")),
            Some(k) => k,
        };
        let current = self.current_client_thread(k, now);
        if current.deleted {
            return Err(AgentOsError::InvalidTransition("thread is deleted"));
        }
        Ok(k)
    }

    /// Keeps summary `c` for its thread, replacing an earlier one.
    fn save_client_thread(&mut self, c: ClientThread)
        requires
            old(self).wf(),
        ensures
            final(self).wf(),
            summary_saved(*old(self), *final(self), c),
    {
        match self.find_summary(c.client_thread_id.as_str()) {
            Some(i) => {
                let ghost before = self.client_threads@;
                self.client_threads.set(i, c);
                proof {
                    assert forall|a: int, b: int|
                        0 <= a < self.client_threads@.len() && 0 <= b < self.client_threads@.len()
                            && #[trigger] self.client_threads@[a].client_thread_id@
                            == #[trigger] self.client_threads@[b].client_thread_id@ implies a == b by {
                        assert(self.client_threads@[a].client_thread_id@ == before[a].client_thread_id@);
                        assert(self.client_threads@[b].client_thread_id@ == before[b].client_thread_id@);
                    }
                }
            },
            None => {
                let ghost before = self.client_threads@;
                self.client_threads.push(c);
                proof {
                    assert forall|a: int, b: int|
                        0 <= a < self.client_threads@.len() && 0 <= b < self.client_threads@.len()
                            && #[trigger] self.client_threads@[a].client_thread_id@
                            == #[trigger] self.client_threads@[b].client_thread_id@ implies a == b by {
                        if a < before.len() && b < before.len() {
                            assert(self.client_threads@[a] == before[a]);
                            assert(self.client_threads@[b] == before[b]);
                        } else if a < before.len() {
                            assert(self.client_threads@[a] == before[a]);
                        } else if b < before.len() {
                            assert(self.client_threads@[b] == before[b]);
                        }
                    }
                }
            },
        }
    }

    fn edit_client_thread(&mut self, thread_id: &str, edit: ThreadEdit, now: String) -> (r: Result<ClientThread, AgentOsError>)
        requires
            old(self).wf(),
        ensures
            final(self).wf(),
            match app_update_error(*old(self), thread_id@, now) {
                Some(e) => r == Err::<ClientThread, AgentOsError>(e) && *final(self) == *old(self),
                None => {
                    let v = edited(
                        client_view(*old(self), old(self).threads@[thread_pos(old(self).threads@, thread_id@)], now),
                        edit,
                    );
                    r == Ok::<ClientThread, AgentOsError>(v) && summary_saved(*old(self), *final(self), v)
                },
            },
    {
        let k = match self.thread_for_app_update(thread_id, now.clone()) {
            Err(e) => return Err(e),
            Ok(k) => k,
        };
        let mut thread = self.current_client_thread(k, now);
        match edit {
            ThreadEdit::Archive => {
                thread.archived = true;
            },
            ThreadEdit::Unarchive => {
                thread.archived = false;
            },
            ThreadEdit::Delete => {
                thread.archived = true;
                thread.deleted = true;
            },
        }
        let out = thread.duplicate();
        self.save_client_thread(thread);
        Ok(out)
    }

    /// Archives thread `thread_id` for clients at `now`. An unknown thread
    /// is `NotFound`; a deleted one is an `InvalidTransition`.
    pub fn archive_thread(&mut self, thread_id: &str, now: String) -> (r: Result<ClientThread, AgentOsError>)
        requires
            old(self).wf(),
        ensures
            final(self).wf(),
            match app_update_error(*old(self), thread_id@, now) {
                Some(e) => r == Err::<ClientThread, AgentOsError>(e) && *final(self) == *old(self),
                None => {
                    let v = ClientThread {
                        archived: true,
                        ..client_view(*old(self), old(self).threads@[thread_pos(old(self).threads@, thread_id@)], now)
                    };
                    r == Ok::<ClientThread, AgentOsError>(v) && summary_saved(*old(self), *final(self), v)
                },
            },
    {
        self.edit_client_thread(thread_id, ThreadEdit::Archive, now)
    }

    /// Brings thread `thread_id` back from the archive at `now`. An unknown
    /// thread is `NotFound`; a deleted one is an `InvalidTransition`.
    pub fn unarchive_thread(&mut self, thread_id: &str, now: String) -> (r: Result<ClientThread, AgentOsError>)
        requires
            old(self).wf(),
        ensures
            final(self).wf(),
            match app_update_error(*old(self), thread_id@, now) {
                Some(e) => r == Err::<ClientThread, AgentOsError>(e) && *final(self) == *old(self),
                None => {
                    let v = ClientThread {
                        archived: false,
                        ..client_view(*old(self), old(self).threads@[thread_pos(old(self).threads@, thread_id@)], now)
                    };
                    r == Ok::<ClientThread, AgentOsError>(v) && summary_saved(*old(self), *final(self), v)
                },
            },
    {
        self.edit_client_thread(thread_id, ThreadEdit::Unarchive, now)
    }

    /// Deletes thread `thread_id` for clients at `now` (a deleted thread is
    /// archived too, and no client can change it any more). An unknown
    /// thread is `NotFound`; a deleted one is an `InvalidTransition`.
    pub fn delete_thread(&mut self, thread_id: &str, now: String) -> (r: Result<ClientThread, AgentOsError>)
        requires
            old(self).wf(),
        ensures
            final(self).wf(),
            match app_update_error(*old(self), thread_id@, now) {
                Some(e) => r == Err::<ClientThread, AgentOsError>(e) && *final(self) == *old(self),
                None => {
                    let v = ClientThread {
                        archived: true,
                        deleted: true,
                        ..client_view(*old(self), old(self).threads@[thread_pos(old(self).threads@, thread_id@)], now)
                    };
                    r == Ok::<ClientThread, AgentOsError>(v) && summary_saved(*old(self), *final(self), v)
                },
            },
    {
        self.edit_client_thread(thread_id, ThreadEdit::Delete, now)
    }

    /// Renames thread `thread_id` to `title` with surrounding whitespace
    /// removed. A blank title is a `Validation` error, whatever the thread;
    /// otherwise as `archive_thread`.
    pub fn rename_thread(&mut self, thread_id: &str, title: String, now: String) -> (r: Result<ClientThread, AgentOsError>)
        requires
            old(self).wf(),
        ensures
            final(self).wf(),
            trimmed(title@).len() == 0 ==> r == Err::<ClientThread, AgentOsError>(
                AgentOsError::Validation("thread title must not be empty"),
            ) && *final(self) == *old(self),
            trimmed(title@).len() > 0 ==> match app_update_error(*old(self), thread_id@, now) {
                Some(e) => r == Err::<ClientThread, AgentOsError>(e) && *final(self) == *old(self),
                None => r matches Ok(v) && v.title@ == trimmed(title@) && v == (ClientThread {
                    title: v.title,
                    ..client_view(*old(self), old(self).threads@[thread_pos(old(self).threads@, thread_id@)], now)
                }) && summary_saved(*old(self), *final(self), v),
            },
    {
        let title = trim_ws(title.as_str());
        if title.unicode_len() == 0 {
            return Err(AgentOsError::Validation("thread title must not be empty"));
        }
        let k = match self.thread_for_app_update(thread_id, now.clone()) {
            Err(e) => return Err(e),
            Ok(k) => k,
        };
        let mut thread = self.current_client_thread(k, now);
        thread.title = title;
        let out = thread.duplicate();
        self.save_client_thread(thread);
        Ok(out)
    }

    /// Records input `input` that client `client_id` submitted, as `kind`,
    /// to turn `turn_id` of thread `client_thread_id`, under id `input_id`
    /// at `now`. An unknown thread is `NotFound`; a turn that is not the
    /// thread's active one is a `Validation` error.
    pub fn record_turn_input(
        &mut self,
        client_id: &str,
        client_thread_id: &str,
        turn_id: &str,
        kind: TurnInputKind,
        input: String,
        input_id: String,
        now: String,
    ) -> (r: Result<TurnInputRecord, AgentOsError>)
        requires
            old(self).wf(),
        ensures
            final(self).wf(),
            !has_thread(old(self).threads@, client_thread_id@) ==> r == Err::<TurnInputRecord, AgentOsError>(
                AgentOsError::NotFound("thread"),
            ) && *final(self) == *old(self),
            has_thread(old(self).threads@, client_thread_id@) ==> {
                let t = old(self).threads@[thread_pos(old(self).threads@, client_thread_id@)];
                if !(t.lifecycle.active_turn.turn_id matches Some(a) && a@ == turn_id@) {
                    r == Err::<TurnInputRecord, AgentOsError>(AgentOsError::Validation("turn is not active on thread"))
                        && *final(self) == *old(self)
                } else {
                    let rec = TurnInputRecord {
                        input_id,
                        client_thread_id: r->Ok_0.client_thread_id,
                        turn_id: r->Ok_0.turn_id,
                        submitted_by_client_id: r->Ok_0.submitted_by_client_id,
                        kind,
                        input,
                        created_at: now,
                    };
                    &&& r == Ok::<TurnInputRecord, AgentOsError>(rec)
                    &&& rec.client_thread_id@ == client_thread_id@
                    &&& rec.turn_id@ == turn_id@
                    &&& rec.submitted_by_client_id@ == client_id@
                    &&& final(self).turn_inputs@ == old(self).turn_inputs@.push(rec)
                    &&& *final(self) == (KernelState { turn_inputs: final(self).turn_inputs, ..*old(self) })
                }
            },
    {
        let k = match self.find_thread(client_thread_id) {
            None => return Err(AgentOsError::NotFound("thread")),
            Some(k) => k,
        };
        let active = match &self.threads[k].lifecycle.active_turn.turn_id {
            Some(a) => str_eq(a.as_str(), turn_id),
            None => false,
        };
        if !active {
            return Err(AgentOsError::Validation("turn is not active on thread"));
        }
        let record = TurnInputRecord {
            input_id,
            client_thread_id: String::from_str(client_thread_id),
            turn_id: String::from_str(turn_id),
            submitted_by_client_id: String::from_str(client_id),
            kind,
            input,
            created_at: now,
        };
        let out = record.duplicate();
        self.turn_inputs.push(record);
        Ok(out)
    }

    /// Commits checkpoint `checkpoint_id` for thread `thread_id` at `now`:
    /// the thread's recovery cursor is clean again. An unknown thread is
    /// `NotFound`.
    pub fn record_checkpoint(&mut self, thread_id: &str, checkpoint_id: String, now: String) -> (r: Result<
        ThreadLifecycle,
        AgentOsError,
    >)
        requires
            old(self).wf(),
        ensures
            final(self).wf(),
            !has_thread(old(self).threads@, thread_id@) ==> r == Err::<ThreadLifecycle, AgentOsError>(
                AgentOsError::NotFound("thread"),
            ) && *final(self) == *old(self),
            has_thread(old(self).threads@, thread_id@) ==> {
                let k = thread_pos(old(self).threads@, thread_id@);
                let lc = checkpointed(old(self).threads@[k].lifecycle, checkpoint_id, now);
                r == Ok::<ThreadLifecycle, AgentOsError>(lc) && crate::threads::thread_lifecycle_replaced(
                    *old(self),
                    *final(self),
                    k,
                    lc,
                ) && final(self).ready_queue == old(self).ready_queue
            },
    {
        let k = match self.find_thread(thread_id) {
            None => return Err(AgentOsError::NotFound("thread")),
            Some(k) => k,
        };
        let mut lc = self.threads[k].lifecycle.duplicate();
        lc.last_checkpoint_id = Some(checkpoint_id);
        lc.recovery_dirty = false;
        lc.updated_at = now;
        let out = lc.duplicate();
        self.replace_lifecycle(k, lc);
        Ok(out)
    }
}

} // verus!
