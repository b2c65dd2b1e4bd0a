use task_manager::Priority;

#[test]
fn labels_have_their_exact_capitals() {
    assert_eq!(Priority::Low.to_string(), "Low");
    assert_eq!(Priority::Medium.to_string(), "Medium");
    assert_eq!(Priority::High.to_string(), "High");
}

#[test]
fn labels_are_read_back_exactly() {
    assert_eq!(Priority::from_label("Low"), Some(Priority::Low));
    assert_eq!(Priority::from_label("Medium"), Some(Priority::Medium));
    assert_eq!(Priority::from_label("High"), Some(Priority::High));
    assert_eq!(Priority::from_label("low"), None);
    assert_eq!(Priority::from_label("HIGH"), None);
    assert_eq!(Priority::from_label(" Low"), None);
    assert_eq!(Priority::from_label(""), None);
}

#[test]
fn every_label_round_trips() {
    for priority in [Priority::Low, Priority::Medium, Priority::High] {
        assert_eq!(Priority::from_label(&priority.to_string()), Some(priority));
    }
}

#[test]
fn lowered_words_are_recognised() {
    assert_eq!(Priority::from_lowered("low"), Some(Priority::Low));
    assert_eq!(Priority::from_lowered("medium"), Some(Priority::Medium));
    assert_eq!(Priority::from_lowered("high"), Some(Priority::High));
    assert_eq!(Priority::from_lowered("High"), None);
    assert_eq!(Priority::from_lowered("urgent"), None);
}

#[test]
fn typed_text_is_matched_without_regard_to_case() {
    assert_eq!(Priority::from_text("low"), Some(Priority::Low));
    assert_eq!(Priority::from_text("LOW"), Some(Priority::Low));
    assert_eq!(Priority::from_text("Medium"), Some(Priority::Medium));
    assert_eq!(Priority::from_text("mEdIuM"), Some(Priority::Medium));
    assert_eq!(Priority::from_text("HIGH"), Some(Priority::High));
    assert_eq!(Priority::from_text("hIgH"), Some(Priority::High));
}

#[test]
fn unknown_text_is_not_recognised() {
    assert_eq!(Priority::from_text("urgent"), None);
    assert_eq!(Priority::from_text(""), None);
    assert_eq!(Priority::from_text("high "), None);
    assert_eq!(Priority::from_text("lo"), None);
}

#[test]
fn unknown_text_counts_as_low() {
    assert_eq!(Priority::from_text_or_low("urgent"), Priority::Low);
    assert_eq!(Priority::from_text_or_low(""), Priority::Low);
    assert_eq!(Priority::from_text_or_low("HIGH"), Priority::High);
    assert_eq!(Priority::from_text_or_low("Medium"), Priority::Medium);
}
