use todo_backend::todo::CreateTodo;
use todo_backend::todo::UpdateTodo;
use todo_backend::validation::Validate;
use todo_backend::validation::ValidationError;
use todo_backend::validation::Violation;
use todo_backend::validation::TITLE_MAX_LENGTH;
use todo_backend::validation::TITLE_MIN_LENGTH;

fn with_title(title: String) -> CreateTodo {
    CreateTodo::new(title, None)
}

#[test]
fn title_bounds_are_one_and_one_hundred() {
    assert_eq!(TITLE_MIN_LENGTH, 1);
    assert_eq!(TITLE_MAX_LENGTH, 100);
}

#[test]
fn title_of_one_character_is_valid() {
    assert_eq!(with_title("a".to_string()).validate(), Ok(()));
}

#[test]
fn title_of_one_hundred_characters_is_valid() {
    assert_eq!(with_title("a".repeat(100)).validate(), Ok(()));
}

#[test]
fn empty_title_is_invalid() {
    let error = with_title(String::new()).validate().unwrap_err();
    assert_eq!(error.len(), 1);
    let violation = error.get(0).unwrap();
    assert_eq!(violation.field(), "title");
    assert_eq!(violation.constraint(), "length must be between 1 and 100");
    assert!(error.get(1).is_none());
}

#[test]
fn title_of_one_hundred_and_one_characters_is_invalid() {
    let error = with_title("a".repeat(101)).validate().unwrap_err();
    assert_eq!(error.message(), "title: length must be between 1 and 100");
}

#[test]
fn title_length_counts_characters_not_bytes() {
    let title = "あ".repeat(100);
    assert_eq!(title.len(), 300);
    assert_eq!(with_title(title).validate(), Ok(()));
    assert!(with_title("あ".repeat(101)).validate().is_err());
}

#[test]
fn description_is_not_constrained() {
    let payload = CreateTodo::new("a".to_string(), Some("d".repeat(5000)));
    assert_eq!(payload.validate(), Ok(()));
    let payload = CreateTodo::new("a".to_string(), Some(String::new()));
    assert_eq!(payload.validate(), Ok(()));
}

#[test]
fn update_payload_is_always_valid() {
    assert_eq!(UpdateTodo::new(None, None, None).validate(), Ok(()));
    assert_eq!(UpdateTodo::new(Some(String::new()), None, None).validate(), Ok(()));
    assert_eq!(UpdateTodo::new(Some("a".repeat(500)), Some("d".to_string()), Some(true)).validate(), Ok(()));
}

#[test]
fn message_of_no_violation_is_empty() {
    assert_eq!(ValidationError::new(vec![]).message(), "");
}

#[test]
fn message_has_one_line_per_violation() {
    let error = ValidationError::new(vec![
        Violation::new("title".to_string(), "length must be between 1 and 100".to_string()),
        Violation::new("description".to_string(), "must not be blank".to_string()),
        Violation::new("id".to_string(), "".to_string()),
    ]);
    assert_eq!(error.len(), 3);
    assert_eq!(
        error.message(),
        "title: length must be between 1 and 100\ndescription: must not be blank\nid: "
    );
}
