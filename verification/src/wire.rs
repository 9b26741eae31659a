//! The JSON bodies on the wire.
//!
//! Encoding and decoding go through the `json` crate; each call stands behind
//! one trusted function here. What a body decodes to is given a name
//! (`parsed_task_fields`, `parsed_tasks`, `parsed_success`), the encoders are
//! named too, and each encoder promises that decoding its output gives back
//! exactly what was encoded — the round trip the protocol rests on. Everything
//! that acts on a decoded value is verified against these names.

use vstd::prelude::*;

use crate::task::{Task, TaskView};

verus! {

/// The encoding of one task record, `{"title":…,"done":…}`, with json's
/// string escaping.
pub uninterp spec fn task_json(title: Seq<char>, done: bool) -> Seq<char>;

/// The encoding of a task-list reply, `{"tasks":[…]}`.
pub uninterp spec fn tasks_json(tasks: Seq<TaskView>) -> Seq<char>;

/// The encoding of an error reply, `{"success":false,"error":…}`.
pub uninterp spec fn error_json(label: Seq<char>) -> Seq<char>;

/// The `title` and `done` fields a body decodes to, if it parses as JSON and
/// both fields have the right type.
pub uninterp spec fn parsed_task_fields(s: Seq<char>) -> Option<TaskView>;

/// The list of task records a body decodes to, if it parses as JSON with a
/// well-formed `tasks` array.
pub uninterp spec fn parsed_tasks(s: Seq<char>) -> Option<Seq<TaskView>>;

/// The `success` field a body decodes to, if it parses as JSON and the field
/// is a boolean.
pub uninterp spec fn parsed_success(s: Seq<char>) -> Option<bool>;

/// Relies on json's object builder and `JsonValue::dump`: encodes one task
/// record, and decoding the result gives the record back.
#[verifier::external_body]
pub(crate) fn task_body_string(title: &str, done: bool) -> (r: String)
    ensures
        r@ == task_json(title@, done),
        parsed_task_fields(r@) == Some(TaskView { title: title@, done }),
{
    let mut v = json::JsonValue::new_object();
    let _ = v.insert("title", title);
    let _ = v.insert("done", done);
    v.dump()
}

/// Relies on `json::parse` and the accessors `as_str`/`as_bool`: decodes one
/// task record.
#[verifier::external_body]
pub(crate) fn parse_task_fields(s: &str) -> (r: Option<Task>)
    ensures
        r.deep_view() == parsed_task_fields(s@),
{
    let v = json::parse(s).ok()?;
    let title = v["title"].as_str()?.to_owned();
    let done = v["done"].as_bool()?;
    Some(Task { title, done })
}

/// Relies on json's object builder and `JsonValue::dump`: encodes the
/// task-list reply, and decoding the result gives the list back, in order.
#[verifier::external_body]
pub(crate) fn tasks_body_string(tasks: &Vec<Task>) -> (r: String)
    ensures
        r@ == tasks_json(tasks.deep_view()),
        parsed_tasks(r@) == Some(tasks.deep_view()),
{
    let mut arr = json::JsonValue::new_array();
    for t in tasks {
        let mut o = json::JsonValue::new_object();
        let _ = o.insert("title", t.title.as_str());
        let _ = o.insert("done", t.done);
        let _ = arr.push(o);
    }
    let mut v = json::JsonValue::new_object();
    let _ = v.insert("tasks", arr);
    v.dump()
}

/// Relies on `json::parse` and the accessors `as_str`/`as_bool`: decodes a
/// task-list reply, keeping the order of the array.
#[verifier::external_body]
pub(crate) fn parse_tasks_list(s: &str) -> (r: Option<Vec<Task>>)
    ensures
        r is Some <==> parsed_tasks(s@) is Some,
        r matches Some(ts) ==> parsed_tasks(s@) == Some(ts.deep_view()),
{
    let v = json::parse(s).ok()?;
    let items = match &v["tasks"] {
        json::JsonValue::Array(items) => items,
        _ => return None,
    };
    let mut out = Vec::new();
    for item in items {
        let title = item["title"].as_str()?.to_owned();
        let done = item["done"].as_bool()?;
        out.push(Task { title, done });
    }
    Some(out)
}

/// Relies on json's object builder and `JsonValue::dump`: the fixed success
/// reply, `{"success":true}`, which decodes to a true `success` field.
#[verifier::external_body]
pub(crate) fn success_body_string() -> (r: String)
    ensures
        r@ == "{\"success\":true}"@,
        parsed_success(r@) == Some(true),
{
    let mut v = json::JsonValue::new_object();
    let _ = v.insert("success", true);
    v.dump()
}

/// Relies on json's object builder and `JsonValue::dump`: encodes an error
/// reply, which decodes to a false `success` field.
#[verifier::external_body]
pub(crate) fn error_body_string(label: &str) -> (r: String)
    ensures
        r@ == error_json(label@),
        parsed_success(r@) == Some(false),
{
    let mut v = json::JsonValue::new_object();
    let _ = v.insert("success", false);
    let _ = v.insert("error", label);
    v.dump()
}

/// Relies on `json::parse` and the accessor `as_bool`: decodes the `success`
/// field of a mutation reply.
#[verifier::external_body]
pub(crate) fn parse_success_field(s: &str) -> (r: Option<bool>)
    ensures
        r == parsed_success(s@),
{
    let v = json::parse(s).ok()?;
    v["success"].as_bool()
}

} // verus!
