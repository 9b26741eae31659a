//! The task record: a title and a completion flag. Identity is positional
//! (a task is addressed by its index in the ordered list), so the record
//! itself carries no identifier.

use vstd::prelude::*;

verus! {

/// Mathematical model of a task: the title as a sequence of characters
/// and the completion flag.
pub struct TaskView {
    pub title: Seq<char>,
    pub done: bool,
}

/// One entry of the ordered task list.
pub struct Task {
    pub title: String,
    pub done: bool,
}

impl View for Task {
    type V = TaskView;

    open spec fn view(&self) -> TaskView {
        TaskView { title: self.title@, done: self.done }
    }
}

impl DeepView for Task {
    type V = TaskView;

    open spec fn deep_view(&self) -> TaskView {
        self.view()
    }
}

impl Clone for Task {
    fn clone(&self) -> (r: Self)
        ensures
            r == *self,
    {
        Task { title: self.title.clone(), done: self.done }
    }
}

impl Task {
    pub fn new(title: String, done: bool) -> (r: Task)
        ensures
            r@ == (TaskView { title: title@, done }),
    {
        Task { title, done }
    }
}

/// Copy an ordered task list element by element; the copy is equal to the
/// original, value for value.
pub fn clone_tasks(tasks: &Vec<Task>) -> (r: Vec<Task>)
    ensures
        r@ =~= tasks@,
        r.deep_view() =~= tasks.deep_view(),
{
    let mut out: Vec<Task> = Vec::new();
    let mut i: usize = 0;
    while i < tasks.len()
        invariant
            i <= tasks.len(),
            out@ =~= tasks@.take(i as int),
        decreases tasks.len() - i,
    {
        out.push(tasks[i].clone());
        i += 1;
    }
    proof {
        lemma_value_equal_views(&out, tasks);
    }
    out
}

/// Value-equal task vectors have equal views.
proof fn lemma_value_equal_views(a: &Vec<Task>, b: &Vec<Task>)
    requires
        a@ =~= b@,
    ensures
        a.deep_view() =~= b.deep_view(),
{
}

} // verus!
