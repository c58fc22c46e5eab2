use project_starter::text::{copy_strings, is_blank, join_path, parent_path};

#[test]
fn blank_names() {
    assert!(is_blank(""));
    assert!(is_blank("   "));
    assert!(is_blank("\t\n\r"));
    assert!(is_blank("\u{3000}\u{a0}\u{2028}"));
}

#[test]
fn names_with_text_are_not_blank() {
    assert!(!is_blank("demo"));
    assert!(!is_blank("  demo  "));
    assert!(!is_blank("\u{200b}"));
    assert!(!is_blank(" x"));
}

#[test]
fn join_adds_one_separator() {
    assert_eq!(join_path("/home/u/rustprojects", "demo"), "/home/u/rustprojects/demo");
    assert_eq!(join_path("/home/u/rustprojects/", "demo"), "/home/u/rustprojects/demo");
    assert_eq!(join_path("", "demo"), "demo");
    assert_eq!(join_path("/", "demo"), "/demo");
    assert_eq!(join_path("/p/demo", "src/main.rs"), "/p/demo/src/main.rs");
}

#[test]
fn parent_is_text_before_last_separator() {
    assert_eq!(parent_path("/home/u/rustprojects/demo"), "/home/u/rustprojects");
    assert_eq!(parent_path("/demo"), "/");
    assert_eq!(parent_path("demo"), "");
    assert_eq!(parent_path("a/b/"), "a/b");
    assert_eq!(parent_path("a/b"), "a");
}

#[test]
fn copy_keeps_every_string() {
    let v = vec!["druid".to_string(), "serde".to_string()];
    assert_eq!(copy_strings(&v), v);
    assert!(copy_strings(&Vec::new()).is_empty());
}
