use tasklist::routes::{item_path_string, item_segment_of, parse_item_index, str_eq, str_starts_with};

#[test]
fn prints_item_paths() {
    assert_eq!(item_path_string(0), "/api/tasks/0");
    assert_eq!(item_path_string(7), "/api/tasks/7");
    assert_eq!(item_path_string(123), "/api/tasks/123");
}

#[test]
fn reads_item_indices() {
    assert_eq!(parse_item_index("/api/tasks/0"), Some(0));
    assert_eq!(parse_item_index("/api/tasks/42"), Some(42));
}

#[test]
fn reading_inverts_printing() {
    for i in [0usize, 1, 10, 99, 12345] {
        assert_eq!(parse_item_index(&item_path_string(i)), Some(i));
    }
}

#[test]
fn collection_path_has_no_index() {
    assert_eq!(parse_item_index("/api/tasks"), None);
    assert_eq!(item_segment_of("/api/tasks"), None);
}

#[test]
fn bad_index_segments_are_rejected() {
    assert_eq!(parse_item_index("/api/tasks/"), None);
    assert_eq!(parse_item_index("/api/tasks/abc"), None);
    assert_eq!(parse_item_index("/api/tasks/1x"), None);
    assert_eq!(parse_item_index("/api/tasks/-1"), None);
    assert_eq!(parse_item_index("/api/tasks/1/2"), None);
}

#[test]
fn segments_are_what_stands_after_the_prefix() {
    assert_eq!(item_segment_of("/api/tasks/15"), Some("15"));
    assert_eq!(item_segment_of("/api/tasks/"), Some(""));
    assert_eq!(item_segment_of("/index.html"), None);
}

#[test]
fn string_equality() {
    assert!(str_eq("GET", "GET"));
    assert!(!str_eq("GET", "PUT"));
    assert!(!str_eq("GET", "GETX"));
    assert!(str_eq("", ""));
}

#[test]
fn string_prefixes() {
    assert!(str_starts_with("/api/tasks/3", "/api/tasks/"));
    assert!(str_starts_with("abc", ""));
    assert!(!str_starts_with("/api", "/api/tasks/"));
    assert!(!str_starts_with("/app/tasks/3", "/api/tasks/"));
}
