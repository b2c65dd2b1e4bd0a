use task_manager::text::same_text;

#[test]
fn equal_texts_are_the_same() {
    assert!(same_text("", ""));
    assert!(same_text("Write report", "Write report"));
    assert!(same_text("naïve ✓", "naïve ✓"));
}

#[test]
fn different_texts_are_not_the_same() {
    assert!(!same_text("a", "b"));
    assert!(!same_text("a", "A"));
    assert!(!same_text("a", "ab"));
    assert!(!same_text("ab", "a"));
    assert!(!same_text("", " "));
    assert!(!same_text("é", "e"));
}
