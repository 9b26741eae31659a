//! The authoritative task store's request handling.
//!
//! One request is read, handled against the ordered store, and answered
//! before the next is looked at, so `api_transition` — one store in, one
//! store out — is the whole story of what a request does. `handle_api` is the
//! executable handler and is pinned to that transition; `render_reply` turns
//! an outcome into a status and a JSON body. The transport (accepting
//! connections, reading bodies, writing responses) stays outside the library.

use vstd::prelude::*;

use crate::routes::{
    api_item_path, collection_path, is_collection, item_segment, parse_item_index, spec_parse_index,
    str_eq, str_starts_with,
};
use crate::store::{push_task, remove_task, replace_task, spec_add, spec_remove, spec_replace};
use crate::task::{clone_tasks, Task, TaskView};
use crate::wire::{
    error_body_string, error_json, parse_task_fields, parsed_success, parsed_task_fields,
    parsed_tasks, success_body_string, tasks_body_string, tasks_json,
};

verus! {

/// A request method, as the store cares about it.
#[derive(Clone, Copy, PartialEq, Eq, Structural, Debug)]
pub enum Method {
    Get,
    Post,
    Put,
    Delete,
    Other,
}

/// Why a request was turned away. A missing or unreadable index is an
/// invalid parameter; an index past the end of the list is a task error; a
/// body that does not decode to a task record is an invalid body; any other
/// method on an API path is an invalid request.
#[derive(Clone, Copy, PartialEq, Eq, Structural, Debug)]
pub enum ApiError {
    InvalidParameter,
    TaskError,
    InvalidBody,
    InvalidRequest,
}

/// The model of a handled request's outcome.
pub enum ReplySpec {
    List(Seq<TaskView>),
    Accepted,
    Rejected(ApiError),
    NotHandled,
}

/// What a handled request returns: the listed snapshot, an acceptance, a
/// rejection, or — for a path outside the API — nothing, so the caller can
/// serve it otherwise.
pub enum ApiOutcome {
    List(Vec<Task>),
    Accepted,
    Rejected(ApiError),
    NotHandled,
}

impl View for ApiOutcome {
    type V = ReplySpec;

    open spec fn view(&self) -> ReplySpec {
        match self {
            ApiOutcome::List(ts) => ReplySpec::List(ts.deep_view()),
            ApiOutcome::Accepted => ReplySpec::Accepted,
            ApiOutcome::Rejected(e) => ReplySpec::Rejected(*e),
            ApiOutcome::NotHandled => ReplySpec::NotHandled,
        }
    }
}

/// The method a request line names.
pub open spec fn spec_method(m: Seq<char>) -> Method {
    if m == "GET"@ {
        Method::Get
    } else if m == "POST"@ {
        Method::Post
    } else if m == "PUT"@ {
        Method::Put
    } else if m == "DELETE"@ {
        Method::Delete
    } else {
        Method::Other
    }
}

/// Read a request method.
pub fn parse_method(m: &str) -> (r: Method)
    ensures
        r == spec_method(m@),
{
    if str_eq(m, "GET") {
        Method::Get
    } else if str_eq(m, "POST") {
        Method::Post
    } else if str_eq(m, "PUT") {
        Method::Put
    } else if str_eq(m, "DELETE") {
        Method::Delete
    } else {
        Method::Other
    }
}

impl Method {
    /// The method's name on the request line; reading the name back gives
    /// the method, so the transport carries exactly what the client chose.
    pub fn as_str(&self) -> (r: &'static str)
        requires
            *self != Method::Other,
        ensures
            spec_method(r@) == *self,
    {
        proof {
            reveal_strlit("GET");
            reveal_strlit("POST");
            reveal_strlit("PUT");
            reveal_strlit("DELETE");
            assert("GET"@.len() == 3);
            assert("POST"@.len() == 4);
            assert("PUT"@.len() == 3);
            assert("DELETE"@.len() == 6);
            assert("PUT"@ != "GET"@) by {
                if "PUT"@ == "GET"@ {
                    assert("PUT"@[0] == "GET"@[0]);
                    assert(false);
                }
            }
        }
        match self {
            Method::Get => "GET",
            Method::Post => "POST",
            Method::Put => "PUT",
            Method::Delete => "DELETE",
            Method::Other => "GET",
        }
    }
}

/// What one request does to the store, and what it answers.
///
/// A list never fails and never changes the store. An add appends at the
/// end. A replace and a remove first want an index — absent or unreadable is
/// an invalid parameter, past the end a task error, both leaving the store
/// untouched — and a replace then wants a body that decodes to a record. A
/// path outside the API is not handled; the store never changes for a
/// request that is not accepted.
pub open spec fn api_transition(
    s: Seq<TaskView>,
    m: Method,
    p: Seq<char>,
    body: Option<TaskView>,
) -> (Seq<TaskView>, ReplySpec) {
    if !is_collection(p) && item_segment(p) is None {
        (s, ReplySpec::NotHandled)
    } else {
        match m {
            Method::Get => (s, ReplySpec::List(s)),
            Method::Post => match body {
                Some(t) => (spec_add(s, t), ReplySpec::Accepted),
                None => (s, ReplySpec::Rejected(ApiError::InvalidBody)),
            },
            Method::Put => match spec_item_index(p) {
                None => (s, ReplySpec::Rejected(ApiError::InvalidParameter)),
                Some(i) => if i >= s.len() {
                    (s, ReplySpec::Rejected(ApiError::TaskError))
                } else {
                    match body {
                        Some(t) => (spec_replace(s, i, t), ReplySpec::Accepted),
                        None => (s, ReplySpec::Rejected(ApiError::InvalidBody)),
                    }
                },
            },
            Method::Delete => match spec_item_index(p) {
                None => (s, ReplySpec::Rejected(ApiError::InvalidParameter)),
                Some(i) => if i >= s.len() {
                    (s, ReplySpec::Rejected(ApiError::TaskError))
                } else {
                    (spec_remove(s, i), ReplySpec::Accepted)
                },
            },
            Method::Other => (s, ReplySpec::Rejected(ApiError::InvalidRequest)),
        }
    }
}

/// The position an API path addresses, if its index segment is present and
/// readable.
pub open spec fn spec_item_index(p: Seq<char>) -> Option<int> {
    match item_segment(p) {
        Some(seg) => spec_parse_index(seg),
        None => None,
    }
}

/// Handle one request against the store: exactly the step `api_transition`
/// takes on the store's model, with the request body read as a task record.
pub fn handle_api(store: &mut Vec<Task>, method: &str, path: &str, body: &str) -> (r: ApiOutcome)
    ensures
        ({
            let (s2, reply) = api_transition(
                old(store).deep_view(),
                spec_method(method@),
                path@,
                parsed_task_fields(body@),
            );
            final(store).deep_view() == s2 && r@ == reply
        }),
{
    let is_coll = str_eq(path, "/api/tasks");
    let is_item = str_starts_with(path, "/api/tasks/");
    proof {
        assert(is_coll == is_collection(path@));
        assert(is_item == (item_segment(path@) is Some));
    }
    if !is_coll && !is_item {
        return ApiOutcome::NotHandled;
    }
    match parse_method(method) {
        Method::Get => ApiOutcome::List(clone_tasks(store)),
        Method::Post => match parse_task_fields(body) {
            Some(t) => {
                push_task(store, t);
                ApiOutcome::Accepted
            },
            None => ApiOutcome::Rejected(ApiError::InvalidBody),
        },
        Method::Put => match parse_item_index(path) {
            None => ApiOutcome::Rejected(ApiError::InvalidParameter),
            Some(i) => if i >= store.len() {
                ApiOutcome::Rejected(ApiError::TaskError)
            } else {
                match parse_task_fields(body) {
                    Some(t) => {
                        replace_task(store, i, t);
                        ApiOutcome::Accepted
                    },
                    None => ApiOutcome::Rejected(ApiError::InvalidBody),
                }
            },
        },
        Method::Delete => match parse_item_index(path) {
            None => ApiOutcome::Rejected(ApiError::InvalidParameter),
            Some(i) => if i >= store.len() {
                ApiOutcome::Rejected(ApiError::TaskError)
            } else {
                remove_task(store, i);
                ApiOutcome::Accepted
            },
        },
        Method::Other => ApiOutcome::Rejected(ApiError::InvalidRequest),
    }
}

impl ApiError {
    /// The error's label on the wire.
    pub open spec fn spec_label(&self) -> Seq<char> {
        match self {
            ApiError::InvalidParameter => "Invalid parameter"@,
            ApiError::TaskError => "Task error"@,
            ApiError::InvalidBody => "Invalid body"@,
            ApiError::InvalidRequest => "Invalid request"@,
        }
    }

    /// The error's label on the wire.
    pub fn label(&self) -> (r: &'static str)
        ensures
            r@ == self.spec_label(),
    {
        match self {
            ApiError::InvalidParameter => "Invalid parameter",
            ApiError::TaskError => "Task error",
            ApiError::InvalidBody => "Invalid body",
            ApiError::InvalidRequest => "Invalid request",
        }
    }
}

/// A rendered response: the status to send and the JSON body.
pub struct HttpReply {
    pub status: u16,
    pub body: String,
}

/// Render an outcome: a listed snapshot or an acceptance answer with status
/// 200, a rejection with 404 for a task error and 400 otherwise; every
/// rejection body decodes to a false `success` field, every acceptance body
/// to a true one, and a list body decodes back to the listed tasks. A
/// request outside the API renders to nothing.
pub fn render_reply(r: &ApiOutcome) -> (h: Option<HttpReply>)
    ensures
        h is Some <==> !(r@ is NotHandled),
        h matches Some(reply) ==> match r@ {
            ReplySpec::List(ts) => reply.status == 200 && reply.body@ == tasks_json(ts)
                && parsed_tasks(reply.body@) == Some(ts),
            ReplySpec::Accepted => reply.status == 200 && parsed_success(reply.body@)
                == Some(true),
            ReplySpec::Rejected(e) => reply.status == (if e == ApiError::TaskError {
                404u16
            } else {
                400u16
            }) && reply.body@ == error_json(e.spec_label()) && parsed_success(reply.body@)
                == Some(false),
            ReplySpec::NotHandled => false,
        },
{
    match r {
        ApiOutcome::List(ts) => Some(
            HttpReply { status: 200, body: tasks_body_string(ts) },
        ),
        ApiOutcome::Accepted => Some(HttpReply { status: 200, body: success_body_string() }),
        ApiOutcome::Rejected(e) => {
            let status: u16 = if *e == ApiError::TaskError {
                404
            } else {
                400
            };
            Some(HttpReply { status, body: error_body_string(e.label()) })
        },
        ApiOutcome::NotHandled => None,
    }
}

/// Law (round trip): adding a record and then listing answers with a list
/// whose last element is exactly the record added, and nothing else moved.
pub proof fn lemma_add_then_list(s: Seq<TaskView>, t: TaskView)
    ensures
        ({
            let (s1, r1) = api_transition(s, Method::Post, collection_path(), Some(t));
            let (s2, r2) = api_transition(s1, Method::Get, collection_path(), None);
            &&& r1 == ReplySpec::Accepted
            &&& s1 == s.push(t)
            &&& s2 == s1
            &&& r2 == ReplySpec::List(s.push(t))
            &&& s1.len() == s.len() + 1
            &&& s1.last() == t
            &&& forall|k: int| 0 <= k < s.len() ==> s1[k] == s[k]
        }),
{
}

/// Law (idempotence of read): a list request never changes the store, so
/// repeated lists without an intervening mutation answer identically,
/// whatever bodies ride along.
pub proof fn lemma_read_idempotent(
    s: Seq<TaskView>,
    p: Seq<char>,
    b1: Option<TaskView>,
    b2: Option<TaskView>,
)
    requires
        is_collection(p) || item_segment(p) is Some,
    ensures
        ({
            let (s1, r1) = api_transition(s, Method::Get, p, b1);
            let (s2, r2) = api_transition(s1, Method::Get, p, b2);
            s1 == s && s2 == s && r1 == r2
        }),
{
}

/// Law (boundary): a replace addressed past the end of the list is turned
/// away as a task error and leaves the store exactly as it was, whatever the
/// body holds.
pub proof fn lemma_put_out_of_range(s: Seq<TaskView>, i: int, body: Option<TaskView>)
    requires
        s.len() <= i <= usize::MAX,
    ensures
        api_transition(s, Method::Put, api_item_path(i), body) == (
            s,
            ReplySpec::Rejected(ApiError::TaskError),
        ),
{
    crate::routes::lemma_item_path_round_trip(i);
}

/// Law: a remove addressed past the end of the list — on an empty list, any
/// index at all — is turned away as a task error and leaves the store
/// exactly as it was.
pub proof fn lemma_delete_out_of_range(s: Seq<TaskView>, i: int)
    requires
        s.len() <= i <= usize::MAX,
    ensures
        api_transition(s, Method::Delete, api_item_path(i), None) == (
            s,
            ReplySpec::Rejected(ApiError::TaskError),
        ),
{
    crate::routes::lemma_item_path_round_trip(i);
}

} // verus!
