use tasklist::store::{push_task, remove_task, replace_task, set_done, set_title};
use tasklist::task::{clone_tasks, Task};

fn abc() -> Vec<Task> {
    vec![
        Task::new(String::from("A"), false),
        Task::new(String::from("B"), false),
        Task::new(String::from("C"), true),
    ]
}

#[test]
fn push_appends_at_the_end() {
    let mut tasks = abc();
    push_task(&mut tasks, Task::new(String::from("D"), false));
    assert_eq!(tasks.len(), 4);
    assert_eq!(tasks[3].title, "D");
}

#[test]
fn replace_swaps_the_whole_record() {
    let mut tasks = abc();
    let applied = replace_task(&mut tasks, 1, Task::new(String::from("B2"), true));
    assert!(applied);
    assert_eq!(tasks[1].title, "B2");
    assert!(tasks[1].done);
    assert_eq!(tasks[0].title, "A");
    assert_eq!(tasks[2].title, "C");
}

#[test]
fn replace_out_of_range_changes_nothing() {
    let mut tasks = abc();
    let applied = replace_task(&mut tasks, 3, Task::new(String::from("X"), true));
    assert!(!applied);
    assert_eq!(tasks.len(), 3);
    assert_eq!(tasks[0].title, "A");
    assert_eq!(tasks[1].title, "B");
    assert_eq!(tasks[2].title, "C");
}

#[test]
fn remove_shifts_later_records_down() {
    let mut tasks = abc();
    let applied = remove_task(&mut tasks, 0);
    assert!(applied);
    assert_eq!(tasks.len(), 2);
    assert_eq!(tasks[0].title, "B");
    assert_eq!(tasks[1].title, "C");
}

#[test]
fn replace_after_remove_hits_the_shifted_record() {
    // tasks [A, B, C]: removing position 0 leaves [B, C]; a replace at
    // position 0 must now mutate what was B, never A
    let mut tasks = abc();
    assert!(remove_task(&mut tasks, 0));
    assert!(replace_task(&mut tasks, 0, Task::new(String::from("B-edited"), false)));
    assert_eq!(tasks.len(), 2);
    assert_eq!(tasks[0].title, "B-edited");
    assert_eq!(tasks[1].title, "C");
}

#[test]
fn remove_out_of_range_changes_nothing() {
    let mut tasks: Vec<Task> = Vec::new();
    let applied = remove_task(&mut tasks, 0);
    assert!(!applied);
    assert_eq!(tasks.len(), 0);
}

#[test]
fn set_done_keeps_the_title() {
    let mut tasks = abc();
    assert!(set_done(&mut tasks, 0, true));
    assert_eq!(tasks[0].title, "A");
    assert!(tasks[0].done);
}

#[test]
fn set_title_keeps_the_flag() {
    let mut tasks = abc();
    assert!(set_title(&mut tasks, 2, String::from("C2")));
    assert_eq!(tasks[2].title, "C2");
    assert!(tasks[2].done);
}

#[test]
fn clone_tasks_copies_every_record() {
    let tasks = abc();
    let copy = clone_tasks(&tasks);
    assert_eq!(copy.len(), 3);
    for (a, b) in tasks.iter().zip(copy.iter()) {
        assert_eq!(a.title, b.title);
        assert_eq!(a.done, b.done);
    }
}
