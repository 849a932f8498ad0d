//! What a task bundle is exported for: a root task and every task below it.
use vstd::prelude::*;
use crate::scope::texts;
use crate::order::{strictly_sorted, insert_sorted_unique};
use crate::approval::list_contains;
use crate::state::{KernelState, TaskRecord};

verus! {

/// `id` is `root`, or the id of a task whose parent is reached from `root`
/// in fewer than `n` steps.
pub open spec fn reaches(tasks: Seq<TaskRecord>, root: Seq<char>, id: Seq<char>, n: nat) -> bool
    decreases n,
{
    id == root || (n > 0 && exists|i: int|
        0 <= i < tasks.len() && #[trigger] tasks[i].task_id@ == id && match tasks[i].parent_task_id {
            Some(p) => reaches(tasks, root, p@, (n - 1) as nat),
            None => false,
        })
}

/// `id` is the root or one of its descendants along parent links.
pub open spec fn in_subtree(tasks: Seq<TaskRecord>, root: Seq<char>, id: Seq<char>) -> bool {
    exists|n: nat| #[trigger] reaches(tasks, root, id, n)
}

/// Every task whose parent is in `ids` is in `ids` itself.
pub open spec fn closed_under_children(tasks: Seq<TaskRecord>, ids: Seq<Seq<char>>) -> bool {
    forall|j: int| 0 <= j < tasks.len() ==> match #[trigger] tasks[j].parent_task_id {
        Some(p) => ids.contains(p@) ==> ids.contains(tasks[j].task_id@),
        None => true,
    }
}

/// How many of the tasks have an id outside `ids`.
pub open spec fn missing(tasks: Seq<TaskRecord>, ids: Seq<Seq<char>>) -> nat
    decreases tasks.len(),
{
    if tasks.len() == 0 {
        0
    } else {
        missing(tasks.drop_last(), ids) + (if ids.contains(tasks.last().task_id@) { 0nat } else { 1nat })
    }
}

proof fn lemma_missing_shrinks(tasks: Seq<TaskRecord>, a: Seq<Seq<char>>, b: Seq<Seq<char>>)
    requires
        forall|x: Seq<char>| a.contains(x) ==> b.contains(x),
    ensures
        missing(tasks, b) <= missing(tasks, a),
        (exists|i: int| 0 <= i < tasks.len() && b.contains(#[trigger] tasks[i].task_id@) && !a.contains(tasks[i].task_id@))
            ==> missing(tasks, b) < missing(tasks, a),
    decreases tasks.len(),
{
    if tasks.len() > 0 {
        let rest = tasks.drop_last();
        lemma_missing_shrinks(rest, a, b);
        if exists|i: int| 0 <= i < tasks.len() && b.contains(#[trigger] tasks[i].task_id@) && !a.contains(tasks[i].task_id@) {
            let i = choose|i: int| 0 <= i < tasks.len() && b.contains(#[trigger] tasks[i].task_id@) && !a.contains(tasks[i].task_id@);
            if i < rest.len() {
                assert(rest[i] == tasks[i]);
                assert(b.contains(rest[i].task_id@) && !a.contains(rest[i].task_id@));
            }
        }
    }
}

proof fn lemma_child_reaches(tasks: Seq<TaskRecord>, root: Seq<char>, i: int, p: Seq<char>)
    requires
        0 <= i < tasks.len(),
        tasks[i].parent_task_id matches Some(q) && q@ == p,
        in_subtree(tasks, root, p),
    ensures
        in_subtree(tasks, root, tasks[i].task_id@),
{
    let n = choose|n: nat| #[trigger] reaches(tasks, root, p, n);
    assert(reaches(tasks, root, tasks[i].task_id@, n + 1));
}

proof fn lemma_closed_is_complete(tasks: Seq<TaskRecord>, root: Seq<char>, ids: Seq<Seq<char>>, id: Seq<char>, n: nat)
    requires
        ids.contains(root),
        closed_under_children(tasks, ids),
        reaches(tasks, root, id, n),
    ensures
        ids.contains(id),
    decreases n,
{
    if id != root {
        let i = choose|i: int|
            0 <= i < tasks.len() && #[trigger] tasks[i].task_id@ == id && match tasks[i].parent_task_id {
                Some(p) => reaches(tasks, root, p@, (n - 1) as nat),
                None => false,
            };
        let p = tasks[i].parent_task_id.unwrap();
        lemma_closed_is_complete(tasks, root, ids, p@, (n - 1) as nat);
    }
}

/// The ids of the task `root_task_id` and of all tasks below it, in text
/// order: each pass over the tasks adds those whose parent is already
/// selected, until a pass adds nothing.
pub fn task_subtree_ids(state: &KernelState, root_task_id: &str) -> (r: Vec<String>)
    ensures
        strictly_sorted(texts(r@)),
        forall|x: Seq<char>| #[trigger] texts(r@).contains(x) <==> in_subtree(state.tasks@, root_task_id@, x),
{
    let ghost tasks = state.tasks@;
    let mut ids: Vec<String> = Vec::new();
    ids.push(root_task_id.to_string());
    proof {
        assert(texts(ids@)[0] == root_task_id@);
        assert(reaches(tasks, root_task_id@, root_task_id@, 0));
    }
    let mut changed = true;
    while changed
        invariant
            tasks == state.tasks@,
            strictly_sorted(texts(ids@)),
            texts(ids@).contains(root_task_id@),
            forall|x: Seq<char>| texts(ids@).contains(x) ==> in_subtree(tasks, root_task_id@, x),
            !changed ==> closed_under_children(tasks, texts(ids@)),
        decreases missing(tasks, texts(ids@)) + (if changed { 1nat } else { 0nat }),
    {
        let ghost start = texts(ids@);
        changed = false;
        let mut i: usize = 0;
        while i < state.tasks.len()
            invariant
                tasks == state.tasks@,
                i <= tasks.len(),
                strictly_sorted(texts(ids@)),
                texts(ids@).contains(root_task_id@),
                forall|x: Seq<char>| texts(ids@).contains(x) ==> in_subtree(tasks, root_task_id@, x),
                forall|x: Seq<char>| start.contains(x) ==> texts(ids@).contains(x),
                changed ==> missing(tasks, texts(ids@)) < missing(tasks, start),
                !changed ==> texts(ids@) == start,
                !changed ==> forall|j: int| 0 <= j < i ==> match #[trigger] tasks[j].parent_task_id {
                    Some(p) => start.contains(p@) ==> start.contains(tasks[j].task_id@),
                    None => true,
                },
            decreases tasks.len() - i,
        {
            let task = &state.tasks[i];
            if let Some(parent) = &task.parent_task_id {
                if list_contains(&ids, parent.as_str()) && !list_contains(&ids, task.task_id.as_str()) {
                    let ghost before = texts(ids@);
                    proof {
                        lemma_child_reaches(tasks, root_task_id@, i as int, parent@);
                    }
                    insert_sorted_unique(&mut ids, &task.task_id);
                    proof {
                        assert(texts(ids@).contains(tasks[i as int].task_id@));
                        lemma_missing_shrinks(tasks, start, texts(ids@));
                        lemma_missing_shrinks(tasks, before, texts(ids@));
                    }
                    changed = true;
                }
            }
            i = i + 1;
        }
        proof {
            if !changed {
                assert(closed_under_children(tasks, texts(ids@)));
            }
        }
    }
    proof {
        assert forall|x: Seq<char>| in_subtree(tasks, root_task_id@, x) implies #[trigger] texts(ids@).contains(x) by {
            let n = choose|n: nat| #[trigger] reaches(tasks, root_task_id@, x, n);
            lemma_closed_is_complete(tasks, root_task_id@, texts(ids@), x, n);
        }
    }
    ids
}

/// A bundle exported for a task covers its children: the root is in its own
/// subtree, and a task whose parent is in the subtree is in it as well.
pub proof fn law_subtree_includes_children(state: KernelState, root: Seq<char>, i: int)
    requires
        0 <= i < state.tasks@.len(),
    ensures
        in_subtree(state.tasks@, root, root),
        state.tasks@[i].parent_task_id matches Some(p) && in_subtree(state.tasks@, root, p@)
            ==> in_subtree(state.tasks@, root, state.tasks@[i].task_id@),
{
    assert(reaches(state.tasks@, root, root, 0));
    if let Some(p) = state.tasks@[i].parent_task_id {
        if in_subtree(state.tasks@, root, p@) {
            lemma_child_reaches(state.tasks@, root, i, p@);
        }
    }
}

} // verus!
