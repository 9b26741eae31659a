use tasklist::server::{handle_api, render_reply, ApiError, ApiOutcome, Method};
use tasklist::task::Task;

fn listed(store: &mut Vec<Task>) -> Vec<Task> {
    match handle_api(store, "GET", "/api/tasks", "") {
        ApiOutcome::List(ts) => ts,
        _ => panic!("list request was not answered with a list"),
    }
}

fn accepted(outcome: &ApiOutcome) -> bool {
    matches!(outcome, ApiOutcome::Accepted)
}

fn rejected_with(outcome: &ApiOutcome, e: ApiError) -> bool {
    matches!(outcome, ApiOutcome::Rejected(got) if *got == e)
}

#[test]
fn post_then_get_shows_the_record_last() {
    let mut store: Vec<Task> = vec![Task::new(String::from("old"), true)];
    let r = handle_api(&mut store, "POST", "/api/tasks", "{\"title\":\"x\",\"done\":false}");
    assert!(accepted(&r));
    let ts = listed(&mut store);
    assert_eq!(ts.len(), 2);
    assert_eq!(ts.last().unwrap().title, "x");
    assert!(!ts.last().unwrap().done);
}

#[test]
fn repeated_get_answers_identically() {
    let mut store: Vec<Task> = vec![
        Task::new(String::from("a"), false),
        Task::new(String::from("b"), true),
    ];
    let r1 = handle_api(&mut store, "GET", "/api/tasks", "");
    let r2 = handle_api(&mut store, "GET", "/api/tasks", "");
    let b1 = render_reply(&r1).unwrap();
    let b2 = render_reply(&r2).unwrap();
    assert_eq!(b1.status, 200);
    assert_eq!(b1.body, b2.body);
    assert_eq!(store.len(), 2);
}

#[test]
fn delete_shifts_and_put_hits_the_shifted_record() {
    // [A, B, C]: DELETE /api/tasks/0 leaves [B, C]; PUT /api/tasks/0 then
    // mutates what was B, not A
    let mut store: Vec<Task> = vec![
        Task::new(String::from("A"), false),
        Task::new(String::from("B"), false),
        Task::new(String::from("C"), false),
    ];
    let r = handle_api(&mut store, "DELETE", "/api/tasks/0", "");
    assert!(accepted(&r));
    let ts = listed(&mut store);
    assert_eq!(ts.len(), 2);
    assert_eq!(ts[0].title, "B");
    assert_eq!(ts[1].title, "C");

    let r = handle_api(
        &mut store,
        "PUT",
        "/api/tasks/0",
        "{\"title\":\"B-edited\",\"done\":true}",
    );
    assert!(accepted(&r));
    let ts = listed(&mut store);
    assert_eq!(ts[0].title, "B-edited");
    assert!(ts[0].done);
    assert_eq!(ts[1].title, "C");
}

#[test]
fn put_past_the_end_is_an_error_and_leaves_the_store() {
    let mut store: Vec<Task> = vec![
        Task::new(String::from("a"), false),
        Task::new(String::from("b"), true),
    ];
    let r = handle_api(&mut store, "PUT", "/api/tasks/5", "{\"title\":\"x\",\"done\":false}");
    assert!(rejected_with(&r, ApiError::TaskError));
    let reply = render_reply(&r).unwrap();
    assert_eq!(reply.status, 404);
    assert_eq!(reply.body, "{\"success\":false,\"error\":\"Task error\"}");
    let ts = listed(&mut store);
    assert_eq!(ts.len(), 2);
    assert_eq!(ts[0].title, "a");
    assert_eq!(ts[1].title, "b");
    assert!(ts[1].done);
}

#[test]
fn delete_on_an_empty_store_is_an_error_and_the_store_stays_empty() {
    let mut store: Vec<Task> = Vec::new();
    let r = handle_api(&mut store, "DELETE", "/api/tasks/0", "");
    assert!(rejected_with(&r, ApiError::TaskError));
    assert_eq!(store.len(), 0);
    assert_eq!(listed(&mut store).len(), 0);
}

#[test]
fn missing_or_unreadable_index_is_an_invalid_parameter() {
    let mut store: Vec<Task> = vec![Task::new(String::from("a"), false)];
    for path in ["/api/tasks", "/api/tasks/", "/api/tasks/abc", "/api/tasks/1x"] {
        let r = handle_api(&mut store, "PUT", path, "{\"title\":\"x\",\"done\":false}");
        assert!(rejected_with(&r, ApiError::InvalidParameter));
        let r = handle_api(&mut store, "DELETE", path, "");
        assert!(rejected_with(&r, ApiError::InvalidParameter));
    }
    assert_eq!(store.len(), 1);
}

#[test]
fn a_body_that_does_not_decode_is_an_invalid_body() {
    let mut store: Vec<Task> = Vec::new();
    for body in ["", "not json", "{}", "{\"title\":\"x\"}", "{\"title\":3,\"done\":false}"] {
        let r = handle_api(&mut store, "POST", "/api/tasks", body);
        assert!(rejected_with(&r, ApiError::InvalidBody));
    }
    assert_eq!(store.len(), 0);
}

#[test]
fn index_is_checked_before_the_body() {
    let mut store: Vec<Task> = Vec::new();
    let r = handle_api(&mut store, "PUT", "/api/tasks/9", "not json");
    assert!(rejected_with(&r, ApiError::TaskError));
    let r = handle_api(&mut store, "PUT", "/api/tasks/x", "not json");
    assert!(rejected_with(&r, ApiError::InvalidParameter));
}

#[test]
fn other_methods_on_api_paths_are_invalid_requests() {
    let mut store: Vec<Task> = Vec::new();
    let r = handle_api(&mut store, "PATCH", "/api/tasks", "");
    assert!(rejected_with(&r, ApiError::InvalidRequest));
    let reply = render_reply(&r).unwrap();
    assert_eq!(reply.status, 400);
    assert_eq!(reply.body, "{\"success\":false,\"error\":\"Invalid request\"}");
}

#[test]
fn paths_outside_the_api_are_not_handled() {
    let mut store: Vec<Task> = vec![Task::new(String::from("a"), false)];
    let r = handle_api(&mut store, "GET", "/index.html", "");
    assert!(matches!(r, ApiOutcome::NotHandled));
    assert!(render_reply(&r).is_none());
    assert_eq!(store.len(), 1);
}

#[test]
fn acceptance_renders_the_success_body() {
    let mut store: Vec<Task> = Vec::new();
    let r = handle_api(&mut store, "POST", "/api/tasks", "{\"title\":\"x\",\"done\":true}");
    let reply = render_reply(&r).unwrap();
    assert_eq!(reply.status, 200);
    assert_eq!(reply.body, "{\"success\":true}");
}

#[test]
fn list_renders_the_tasks_body() {
    let mut store: Vec<Task> = vec![Task::new(String::from("x"), false)];
    let r = handle_api(&mut store, "GET", "/api/tasks", "");
    let reply = render_reply(&r).unwrap();
    assert_eq!(reply.status, 200);
    assert_eq!(reply.body, "{\"tasks\":[{\"title\":\"x\",\"done\":false}]}");
}

#[test]
fn method_names_round_trip() {
    assert_eq!(Method::Get.as_str(), "GET");
    assert_eq!(Method::Post.as_str(), "POST");
    assert_eq!(Method::Put.as_str(), "PUT");
    assert_eq!(Method::Delete.as_str(), "DELETE");
}

#[test]
fn error_labels() {
    assert_eq!(ApiError::InvalidParameter.label(), "Invalid parameter");
    assert_eq!(ApiError::TaskError.label(), "Task error");
    assert_eq!(ApiError::InvalidBody.label(), "Invalid body");
    assert_eq!(ApiError::InvalidRequest.label(), "Invalid request");
}
