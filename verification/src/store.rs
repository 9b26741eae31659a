//! The ordered task list and its position-addressed mutations.
//!
//! Both sides of the system run the same four mutations over the same model:
//! the client applies them optimistically to its cached list, the server
//! applies them to the authoritative one. A task's identity is its position,
//! so removing an element shifts every later index down by one; the law at
//! the end pins that shift down.

use vstd::prelude::*;

use crate::task::{Task, TaskView};

verus! {

/// Append `t` at the end.
pub open spec fn spec_add(s: Seq<TaskView>, t: TaskView) -> Seq<TaskView> {
    s.push(t)
}

/// Replace the whole record at position `i`.
pub open spec fn spec_replace(s: Seq<TaskView>, i: int, t: TaskView) -> Seq<TaskView> {
    s.update(i, t)
}

/// Remove the record at position `i`; every later record moves down one.
pub open spec fn spec_remove(s: Seq<TaskView>, i: int) -> Seq<TaskView> {
    s.remove(i)
}

/// Append a task at the end of the list. Never fails.
pub fn push_task(tasks: &mut Vec<Task>, t: Task)
    ensures
        final(tasks).deep_view() == spec_add(old(tasks).deep_view(), t@),
{
    let ghost before = tasks.deep_view();
    let ghost tv = t@;
    tasks.push(t);
    proof {
        assert(tasks.deep_view() =~= spec_add(before, tv));
    }
}

/// Replace the whole record at position `i`. Applied exactly when `i` is in
/// range; an out-of-range `i` changes nothing and reports `false`.
pub fn replace_task(tasks: &mut Vec<Task>, i: usize, t: Task) -> (applied: bool)
    ensures
        applied == (i < old(tasks).len()),
        applied ==> final(tasks).deep_view() == spec_replace(
            old(tasks).deep_view(),
            i as int,
            t@,
        ),
        !applied ==> *final(tasks) == *old(tasks),
{
    let ghost before = tasks.deep_view();
    let ghost tv = t@;
    if i < tasks.len() {
        tasks[i] = t;
        proof {
            assert(tasks.deep_view() =~= spec_replace(before, i as int, tv));
        }
        true
    } else {
        false
    }
}

/// Remove the record at position `i`, shifting every later record down by
/// one. Applied exactly when `i` is in range; an out-of-range `i` changes
/// nothing and reports `false`.
pub fn remove_task(tasks: &mut Vec<Task>, i: usize) -> (applied: bool)
    ensures
        applied == (i < old(tasks).len()),
        applied ==> final(tasks).deep_view() == spec_remove(old(tasks).deep_view(), i as int),
        !applied ==> *final(tasks) == *old(tasks),
{
    let ghost before = tasks.deep_view();
    if i < tasks.len() {
        tasks.remove(i);
        proof {
            assert(tasks.deep_view() =~= spec_remove(before, i as int));
        }
        true
    } else {
        false
    }
}

/// Set the completion flag of the record at position `i`, keeping its title.
/// Applied exactly when `i` is in range.
pub fn set_done(tasks: &mut Vec<Task>, i: usize, done: bool) -> (applied: bool)
    ensures
        applied == (i < old(tasks).len()),
        applied ==> final(tasks).deep_view() == spec_replace(
            old(tasks).deep_view(),
            i as int,
            TaskView { title: old(tasks).deep_view()[i as int].title, done },
        ),
        !applied ==> *final(tasks) == *old(tasks),
{
    let ghost before = tasks.deep_view();
    if i < tasks.len() {
        let title = tasks[i].title.clone();
        let replaced = replace_task(tasks, i, Task { title, done });
        proof {
            assert(tasks.deep_view() =~= spec_replace(
                before,
                i as int,
                TaskView { title: before[i as int].title, done },
            ));
        }
        replaced
    } else {
        false
    }
}

/// Replace the title of the record at position `i`, keeping its flag.
/// Applied exactly when `i` is in range.
pub fn set_title(tasks: &mut Vec<Task>, i: usize, title: String) -> (applied: bool)
    ensures
        applied == (i < old(tasks).len()),
        applied ==> final(tasks).deep_view() == spec_replace(
            old(tasks).deep_view(),
            i as int,
            TaskView { title: title@, done: old(tasks).deep_view()[i as int].done },
        ),
        !applied ==> *final(tasks) == *old(tasks),
{
    let ghost before = tasks.deep_view();
    let ghost titlev = title@;
    if i < tasks.len() {
        let done = tasks[i].done;
        let replaced = replace_task(tasks, i, Task { title, done });
        proof {
            assert(tasks.deep_view() =~= spec_replace(
                before,
                i as int,
                TaskView { title: titlev, done: before[i as int].done },
            ));
        }
        replaced
    } else {
        false
    }
}

/// Law: removing the record at position `d` keeps every earlier record at
/// its index and moves every later record down exactly one position, so an
/// index `j >= d` afterwards addresses the record that sat at `j + 1`.
pub proof fn lemma_remove_shifts(s: Seq<TaskView>, d: int)
    requires
        0 <= d < s.len(),
    ensures
        spec_remove(s, d).len() == s.len() - 1,
        forall|j: int| 0 <= j < d ==> #[trigger] spec_remove(s, d)[j] == s[j],
        forall|j: int| d <= j < s.len() - 1 ==> #[trigger] spec_remove(s, d)[j] == s[j + 1],
{
}

/// Law: after removing the record at position `d`, a replace addressed to a
/// position `j` at or past `d` mutates the record that sat at `j + 1` before
/// the removal — never the one that sat at `j`.
pub proof fn lemma_replace_after_remove(s: Seq<TaskView>, d: int, j: int, t: TaskView)
    requires
        0 <= d <= j < s.len() - 1,
    ensures
        spec_remove(s, d)[j] == s[j + 1],
        spec_replace(spec_remove(s, d), j, t)[j] == t,
        forall|k: int| 0 <= k < s.len() - 1 && k != j ==> #[trigger] spec_replace(
            spec_remove(s, d),
            j,
            t,
        )[k] == spec_remove(s, d)[k],
{
}

} // verus!
