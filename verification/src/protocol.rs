//! The client's side of the synchronization protocol.
//!
//! Every user action runs in the same order: read the current list out of
//! the signal, apply the mutation to a copy, `set` the copy — the optimistic
//! update, visible to every subscriber before any network round trip — and
//! hand back the request that encodes the same mutation for the server. A
//! reply's `success` field is read by `confirm_mutation`; on failure the
//! client reconciles against a fresh list with `apply_list_body` instead of
//! keeping the diverged optimistic copy.
//!
//! `lemma_optimistic_agreement` is the protocol's correctness invariant:
//! the optimistic mutation and the server's handling of the very request
//! sent for it take both ordered lists to the same state, so positional
//! addressing stays valid across strictly sequential actions.

use vstd::prelude::*;

use crate::routes::{api_item_path, collection_path, item_path_string};
use crate::server::{api_transition, Method, ReplySpec};
use crate::signal::Signal;
use crate::store::{
    push_task, remove_task, set_done, set_title, spec_add, spec_remove, spec_replace,
};
use crate::task::{clone_tasks, Task, TaskView};
use crate::wire::{
    parse_success_field, parse_tasks_list, parsed_success, parsed_task_fields, parsed_tasks,
    task_body_string, task_json,
};
use vstd::string::StringExecFns;

verus! {

/// Why an action was refused before anything was mutated or sent.
#[derive(Clone, Copy, PartialEq, Eq, Structural, Debug)]
pub enum ClientError {
    EmptyTitle,
    IndexOutOfRange,
}

/// A request ready for the transport: the method, the path, and for an add
/// or replace the encoded record.
#[derive(Debug)]
pub struct HttpRequest {
    pub method: Method,
    pub url: String,
    pub body: Option<String>,
}

/// The list the UI currently shows: the last value the signal held.
pub open spec fn current_tasks(sig: &Signal<Vec<Task>>) -> Seq<TaskView> {
    sig.held().last().deep_view()
}

/// The signal took exactly one more value and kept its subscribers: the
/// shape of every optimistic update.
pub open spec fn signal_stepped(pre: &Signal<Vec<Task>>, post: &Signal<Vec<Task>>) -> bool {
    &&& post.held().len() == pre.held().len() + 1
    &&& post.held().drop_last() == pre.held()
    &&& post.spec_subscriber_count() == pre.spec_subscriber_count()
    &&& forall|i: int|
        0 <= i < pre.spec_subscriber_count() ==> #[trigger] post.mark(i) == pre.mark(i)
}

/// The signal is exactly as it was: the shape of every refused action.
pub open spec fn signal_untouched(pre: &Signal<Vec<Task>>, post: &Signal<Vec<Task>>) -> bool {
    &&& post.held() == pre.held()
    &&& post.spec_subscriber_count() == pre.spec_subscriber_count()
    &&& forall|i: int|
        0 <= i < pre.spec_subscriber_count() ==> #[trigger] post.mark(i) == pre.mark(i)
}

/// The request that lists the server's tasks.
pub fn list_request() -> (r: HttpRequest)
    ensures
        r.method == Method::Get,
        r.url@ == collection_path(),
        r.body is None,
{
    HttpRequest { method: Method::Get, url: String::from_str("/api/tasks"), body: None }
}

/// Add a task with the given title, not yet done. An empty title is refused
/// with nothing mutated or sent; otherwise the new record is appended to the
/// shown list at once and the returned request appends the same record on
/// the server.
pub fn add_task(sig: &mut Signal<Vec<Task>>, title: String) -> (r: Result<
    HttpRequest,
    ClientError,
>)
    requires
        old(sig).wf(),
    ensures
        final(sig).wf(),
        r is Ok <==> title@.len() > 0,
        r matches Err(e) ==> e == ClientError::EmptyTitle && signal_untouched(old(sig), final(sig)),
        r matches Ok(req) ==> {
            &&& signal_stepped(old(sig), final(sig))
            &&& current_tasks(final(sig)) == spec_add(
                current_tasks(old(sig)),
                TaskView { title: title@, done: false },
            )
            &&& req.method == Method::Post
            &&& req.url@ == collection_path()
            &&& req.body matches Some(b) && b@ == task_json(title@, false)
                && parsed_task_fields(b@) == Some(TaskView { title: title@, done: false })
        },
{
    if title.as_str().is_empty() {
        return Err(ClientError::EmptyTitle);
    }
    let body = task_body_string(title.as_str(), false);
    let mut tasks = clone_tasks(sig.current());
    push_task(&mut tasks, Task { title, done: false });
    sig.set(tasks);
    proof {
        assert(final(sig).held().drop_last() =~= old(sig).held());
    }
    Ok(
        HttpRequest {
            method: Method::Post,
            url: String::from_str("/api/tasks"),
            body: Some(body),
        },
    )
}

/// Set the completion flag of the task at `index`. An index past the shown
/// list is refused with nothing mutated or sent; otherwise the shown record
/// is updated at once and the returned request replaces the same record,
/// whole, on the server.
pub fn toggle_task(sig: &mut Signal<Vec<Task>>, index: usize, checked: bool) -> (r: Result<
    HttpRequest,
    ClientError,
>)
    requires
        old(sig).wf(),
    ensures
        final(sig).wf(),
        r is Ok <==> index < current_tasks(old(sig)).len(),
        r matches Err(e) ==> e == ClientError::IndexOutOfRange && signal_untouched(
            old(sig),
            final(sig),
        ),
        r matches Ok(req) ==> {
            let updated = TaskView {
                title: current_tasks(old(sig))[index as int].title,
                done: checked,
            };
            &&& signal_stepped(old(sig), final(sig))
            &&& current_tasks(final(sig)) == spec_replace(
                current_tasks(old(sig)),
                index as int,
                updated,
            )
            &&& req.method == Method::Put
            &&& req.url@ == api_item_path(index as int)
            &&& req.body matches Some(b) && b@ == task_json(updated.title, checked)
                && parsed_task_fields(b@) == Some(updated)
        },
{
    let mut tasks = clone_tasks(sig.current());
    if index >= tasks.len() {
        return Err(ClientError::IndexOutOfRange);
    }
    let body = task_body_string(tasks[index].title.as_str(), checked);
    set_done(&mut tasks, index, checked);
    sig.set(tasks);
    proof {
        assert(final(sig).held().drop_last() =~= old(sig).held());
    }
    Ok(
        HttpRequest { method: Method::Put, url: item_path_string(index), body: Some(body) },
    )
}

/// Replace the title of the task at `index`. An index past the shown list is
/// refused with nothing mutated or sent; otherwise the shown record is
/// updated at once and the returned request replaces the same record, whole,
/// on the server.
pub fn edit_task(sig: &mut Signal<Vec<Task>>, index: usize, title: String) -> (r: Result<
    HttpRequest,
    ClientError,
>)
    requires
        old(sig).wf(),
    ensures
        final(sig).wf(),
        r is Ok <==> index < current_tasks(old(sig)).len(),
        r matches Err(e) ==> e == ClientError::IndexOutOfRange && signal_untouched(
            old(sig),
            final(sig),
        ),
        r matches Ok(req) ==> {
            let updated = TaskView {
                title: title@,
                done: current_tasks(old(sig))[index as int].done,
            };
            &&& signal_stepped(old(sig), final(sig))
            &&& current_tasks(final(sig)) == spec_replace(
                current_tasks(old(sig)),
                index as int,
                updated,
            )
            &&& req.method == Method::Put
            &&& req.url@ == api_item_path(index as int)
            &&& req.body matches Some(b) && b@ == task_json(title@, updated.done)
                && parsed_task_fields(b@) == Some(updated)
        },
{
    let mut tasks = clone_tasks(sig.current());
    if index >= tasks.len() {
        return Err(ClientError::IndexOutOfRange);
    }
    let done = tasks[index].done;
    let body = task_body_string(title.as_str(), done);
    set_title(&mut tasks, index, title);
    sig.set(tasks);
    proof {
        assert(final(sig).held().drop_last() =~= old(sig).held());
    }
    Ok(
        HttpRequest { method: Method::Put, url: item_path_string(index), body: Some(body) },
    )
}

/// Remove the task at `index`; every later task moves up one position, on
/// the shown list at once and on the server when the returned request is
/// handled. An index past the shown list is refused with nothing mutated or
/// sent.
pub fn delete_task(sig: &mut Signal<Vec<Task>>, index: usize) -> (r: Result<
    HttpRequest,
    ClientError,
>)
    requires
        old(sig).wf(),
    ensures
        final(sig).wf(),
        r is Ok <==> index < current_tasks(old(sig)).len(),
        r matches Err(e) ==> e == ClientError::IndexOutOfRange && signal_untouched(
            old(sig),
            final(sig),
        ),
        r matches Ok(req) ==> {
            &&& signal_stepped(old(sig), final(sig))
            &&& current_tasks(final(sig)) == spec_remove(current_tasks(old(sig)), index as int)
            &&& req.method == Method::Delete
            &&& req.url@ == api_item_path(index as int)
            &&& req.body is None
        },
{
    let mut tasks = clone_tasks(sig.current());
    if index >= tasks.len() {
        return Err(ClientError::IndexOutOfRange);
    }
    remove_task(&mut tasks, index);
    sig.set(tasks);
    proof {
        assert(final(sig).held().drop_last() =~= old(sig).held());
    }
    Ok(HttpRequest { method: Method::Delete, url: item_path_string(index), body: None })
}

/// Did the server confirm a mutation? True exactly when the reply body
/// decodes to a true `success` field; anything else — no body, no field, a
/// false field — is a failed confirmation, to be answered by reconciling,
/// not by crashing.
pub fn confirm_mutation(body: &str) -> (r: bool)
    ensures
        r == (parsed_success(body@) == Some(true)),
{
    match parse_success_field(body) {
        Some(ok) => ok,
        None => false,
    }
}

/// Reconcile the shown list against a list reply's body: when the body
/// decodes to a task list, show exactly that list; a body that does not
/// decode changes nothing and reports failure.
pub fn apply_list_body(sig: &mut Signal<Vec<Task>>, body: &str) -> (r: bool)
    requires
        old(sig).wf(),
    ensures
        final(sig).wf(),
        r == (parsed_tasks(body@) is Some),
        r ==> signal_stepped(old(sig), final(sig)) && parsed_tasks(body@) == Some(
            current_tasks(final(sig)),
        ),
        !r ==> signal_untouched(old(sig), final(sig)),
{
    match parse_tasks_list(body) {
        Some(tasks) => {
            sig.set(tasks);
            proof {
                assert(final(sig).held().drop_last() =~= old(sig).held());
            }
            true
        },
        None => false,
    }
}

/// Law (client/server agreement): starting from equal ordered lists, an
/// optimistic mutation and the server's handling of the very request sent
/// for it — the same record to the collection path, or the same record or
/// removal to the path printed for the same index — leave the two lists
/// equal again. Positional addressing therefore stays valid across strictly
/// sequential actions.
pub proof fn lemma_optimistic_agreement(s: Seq<TaskView>, t: TaskView, i: int)
    ensures
        api_transition(s, Method::Post, collection_path(), Some(t)) == (
            spec_add(s, t),
            ReplySpec::Accepted,
        ),
        0 <= i < s.len() && i <= usize::MAX ==> api_transition(
            s,
            Method::Put,
            api_item_path(i),
            Some(t),
        ) == (spec_replace(s, i, t), ReplySpec::Accepted),
        0 <= i < s.len() && i <= usize::MAX ==> api_transition(
            s,
            Method::Delete,
            api_item_path(i),
            None,
        ) == (spec_remove(s, i), ReplySpec::Accepted),
{
    if 0 <= i <= usize::MAX {
        crate::routes::lemma_item_path_round_trip(i);
    }
}

} // verus!
