use convfmt::strip::strip_markers;

fn strip(s: &str) -> String {
    let v: Vec<char> = s.chars().collect();
    strip_markers(&v).iter().collect()
}

#[test]
fn strip_plain_markers() {
    assert_eq!(strip("<>abc</>"), "abc");
    assert_eq!(strip("a<>b</>c"), "abc");
    assert_eq!(strip("</>"), "");
    assert_eq!(strip("<>"), "");
}

#[test]
fn strip_leaves_clean_text_alone() {
    assert_eq!(strip(""), "");
    assert_eq!(strip("<x>y</x>"), "<x>y</x>");
    assert_eq!(strip("< >"), "< >");
}

#[test]
fn strip_nested_markers() {
    // Removing an inner marker may uncover an outer one; none survives.
    assert_eq!(strip("<<>>"), "");
    assert_eq!(strip("<</>>"), "");
    let out = strip("a<<><>>b");
    assert!(!out.contains("<>") && !out.contains("</>"));
}
