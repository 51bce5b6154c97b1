use confmg::diff::diff_texts;

#[test]
fn same_text_has_no_diff() {
    assert_eq!(diff_texts("", ""), None);
    assert_eq!(diff_texts("a\n", "a\n"), None);
    assert_eq!(diff_texts("one\ntwo\nthree", "one\ntwo\nthree"), None);
}

#[test]
fn changed_line_is_one_hunk() {
    let diff = diff_texts("a\n", "b\n").unwrap();
    println!("{:?}", diff);
    assert_eq!(
        diff,
        "\u{1b}[1m--- original\n+++ modified\n\u{1b}[0m\u{1b}[36m@@ -1 +1 @@\u{1b}[0m\n\u{1b}[31m-a\n\u{1b}[0m\u{1b}[32m+b\n\u{1b}[0m"
    );
}

#[test]
fn missing_line_end_is_a_difference() {
    let diff = diff_texts("a\n", "a").unwrap();
    println!("{:?}", diff);
    assert!(!diff.is_empty());
    assert_eq!(diff.matches("@@ -").count(), 1);
    assert!(diff.contains("No newline at end of file"));
}

#[test]
fn source_is_the_text_before() {
    let diff = diff_texts("old\n", "new\n").unwrap();
    assert!(diff.contains("-old\n"));
    assert!(diff.contains("+new\n"));
    let back = diff_texts("new\n", "old\n").unwrap();
    assert!(back.contains("-new\n"));
    assert!(back.contains("+old\n"));
}

#[test]
fn regions_far_apart_are_hunks_of_their_own() {
    let mut source = String::new();
    let mut target = String::new();
    for i in 0..30 {
        source.push_str(&format!("line {}\n", i));
        if i == 2 {
            target.push_str("line two\n");
        } else if i == 25 {
            target.push_str("line twenty-five\n");
        } else {
            target.push_str(&format!("line {}\n", i));
        }
    }
    let diff = diff_texts(&source, &target).unwrap();
    assert_eq!(diff.matches("@@ -").count(), 2);
}

#[test]
fn regions_side_by_side_are_one_hunk() {
    let diff = diff_texts("a\nb\nc\nd\n", "A\nb\nc\nD\n").unwrap();
    assert_eq!(diff.matches("@@ -").count(), 1);
}
