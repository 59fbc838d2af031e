use rust_ext::unified_diff;

#[test]
fn diff_single_line_change() {
    assert_eq!(
        unified_diff("a\n", "b\n", Some("x")),
        "--- x.orig\n+++ x.new\n@@ -1 +1 @@\n-a\n+b\n"
    );
}

#[test]
fn diff_default_name_is_file() {
    assert_eq!(
        unified_diff("a\n", "b\n", None),
        "--- file.orig\n+++ file.new\n@@ -1 +1 @@\n-a\n+b\n"
    );
}

#[test]
fn diff_with_context_lines() {
    assert_eq!(
        unified_diff("a\nb\nc\n", "a\nB\nc\n", None),
        "--- file.orig\n+++ file.new\n@@ -1,3 +1,3 @@\n a\n-b\n+B\n c\n"
    );
}

#[test]
fn diff_added_line() {
    assert_eq!(
        unified_diff("a\n", "a\nb\n", Some("notes.txt")),
        "--- notes.txt.orig\n+++ notes.txt.new\n@@ -1 +1,2 @@\n a\n+b\n"
    );
}

#[test]
fn diff_identical_texts_have_no_hunks() {
    assert_eq!(unified_diff("same\ntext\n", "same\ntext\n", Some("x")), "");
    assert_eq!(unified_diff("", "", None), "");
}

#[test]
fn diff_different_texts_start_with_header() {
    let d = unified_diff("one\ntwo\n", "one\nthree\n", Some("doc"));
    assert!(d.starts_with("--- doc.orig\n+++ doc.new\n@@ "));
    assert!(d.contains("-two\n"));
    assert!(d.contains("+three\n"));
}
