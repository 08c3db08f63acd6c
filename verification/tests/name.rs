use locale_validation::messages::Messages;
use locale_validation::rules::{collect_failures, validate_field, ValidationRule};
use locale_validation::validations::name::{
    has_max_length, has_min_length, has_valid_chars, is_not_empty, name_rules, validate_name,
    MAX_NAME_LENGTH, MIN_NAME_LENGTH,
};
use validator::ValidationError;

fn no_catalog() -> Messages {
    Messages::new(None, None, None)
}

fn message_of(e: &ValidationError) -> String {
    e.message.as_ref().map(|m| m.to_string()).unwrap_or_default()
}

fn value_of(e: &ValidationError) -> Option<String> {
    e.params.get("value").and_then(|v| v.as_str()).map(String::from)
}

#[test]
fn name_limits() {
    assert_eq!(MIN_NAME_LENGTH, 2);
    assert_eq!(MAX_NAME_LENGTH, 100);
}

#[test]
fn valid_names_pass() {
    let m = no_catalog();
    assert!(validate_name("Ada Lovelace", &m).is_ok());
    assert!(validate_name("Al", &m).is_ok());
    assert!(validate_name(&"a".repeat(100), &m).is_ok());
    assert!(validate_name("  Grace\tHopper ", &m).is_ok());
    assert!(validate_name("José Ángel", &m).is_ok());
    assert!(validate_name("山田 太郎", &m).is_ok());
}

#[test]
fn valid_names_pass_validate_field() {
    let m = no_catalog();
    let rules = name_rules();
    assert!(validate_field("name", "Ada Lovelace", &rules, &m).is_none());
    assert!(validate_field("name", "Al", &rules, &m).is_none());
    assert!(validate_field("name", &"b".repeat(100), &rules, &m).is_none());
}

#[test]
fn empty_name_is_rejected() {
    let e = validate_name("", &no_catalog()).unwrap_err();
    assert_eq!(e.code, "name.invalid");
    assert_eq!(
        message_of(&e),
        "Name must not be empty, Name must be at least 2 characters long"
    );
    assert!(message_of(&e).contains("must not be empty"));
    assert_eq!(value_of(&e), Some(String::new()));
    assert_eq!(e.params.len(), 1);
}

#[test]
fn blank_name_is_rejected() {
    let e = validate_name("   ", &no_catalog()).unwrap_err();
    assert_eq!(e.code, "name.invalid");
    assert_eq!(message_of(&e), "Name must not be empty");
    assert_eq!(value_of(&e), Some("   ".to_string()));
    let e = validate_name("\t\u{a0}\u{3000}", &no_catalog()).unwrap_err();
    assert_eq!(message_of(&e), "Name must not be empty");
}

#[test]
fn short_name_is_rejected() {
    let e = validate_name("A", &no_catalog()).unwrap_err();
    assert_eq!(message_of(&e), "Name must be at least 2 characters long");
    assert_eq!(value_of(&e), Some("A".to_string()));
}

#[test]
fn long_name_is_rejected() {
    let name = "a".repeat(101);
    let e = validate_name(&name, &no_catalog()).unwrap_err();
    assert_eq!(e.code, "name.invalid");
    assert_eq!(message_of(&e), "Name must be less than 100 characters");
    assert_eq!(value_of(&e), Some(name));
}

#[test]
fn name_with_other_characters_is_rejected() {
    let e = validate_name("R2D2", &no_catalog()).unwrap_err();
    assert_eq!(message_of(&e), "Name can only contain letters and spaces");
    let e = validate_name("Anne-Marie", &no_catalog()).unwrap_err();
    assert_eq!(message_of(&e), "Name can only contain letters and spaces");
}

#[test]
fn name_failures_come_in_the_order_of_the_rules() {
    let e = validate_name("1", &no_catalog()).unwrap_err();
    assert_eq!(
        message_of(&e),
        "Name must be at least 2 characters long, Name can only contain letters and spaces"
    );
    let name = "1".repeat(101);
    let e = validate_name(&name, &no_catalog()).unwrap_err();
    assert_eq!(
        message_of(&e),
        "Name must be less than 100 characters, Name can only contain letters and spaces"
    );
}

#[test]
fn name_length_is_counted_in_characters() {
    let m = no_catalog();
    // One letter is too short, however many bytes it takes.
    let e = validate_name("é", &m).unwrap_err();
    assert_eq!(message_of(&e), "Name must be at least 2 characters long");
    assert!(has_min_length("é", &m).is_err());
    assert!(has_min_length("éé", &m).is_ok());
    // A hundred letters fit, however many bytes they take.
    assert!(validate_name(&"é".repeat(51), &m).is_ok());
    assert!(validate_name(&"é".repeat(100), &m).is_ok());
    assert!(validate_name(&"山".repeat(100), &m).is_ok());
    let e = validate_name(&"é".repeat(101), &m).unwrap_err();
    assert_eq!(message_of(&e), "Name must be less than 100 characters");
    assert!(has_max_length(&"山".repeat(100), &m).is_ok());
    assert!(has_max_length(&"山".repeat(101), &m).is_err());
}

#[test]
fn name_rules_one_by_one() {
    let m = no_catalog();
    assert_eq!(is_not_empty("", &m), Err("Name must not be empty".to_string()));
    assert_eq!(is_not_empty(" \n", &m), Err("Name must not be empty".to_string()));
    assert_eq!(is_not_empty(" a ", &m), Ok(()));
    assert_eq!(is_not_empty("1", &m), Ok(()));
    assert_eq!(has_min_length("a", &m), Err("Name must be at least 2 characters long".to_string()));
    assert_eq!(has_min_length("ab", &m), Ok(()));
    assert_eq!(has_max_length(&"a".repeat(100), &m), Ok(()));
    assert_eq!(
        has_max_length(&"a".repeat(101), &m),
        Err("Name must be less than 100 characters".to_string())
    );
    assert_eq!(has_valid_chars("", &m), Ok(()));
    assert_eq!(has_valid_chars("a b", &m), Ok(()));
    assert_eq!(
        has_valid_chars("a_b", &m),
        Err("Name can only contain letters and spaces".to_string())
    );
}

#[test]
fn name_rules_are_four_in_order() {
    assert_eq!(
        name_rules(),
        vec![
            ValidationRule::NameNotEmpty,
            ValidationRule::NameMinLength,
            ValidationRule::NameMaxLength,
            ValidationRule::NameValidChars,
        ]
    );
}

#[test]
fn name_messages_come_from_the_catalog() {
    let m = Messages::new(
        None,
        Some(r#"{"name": {"empty": "Nama tidak boleh kosong", "too_short": "Nama terlalu pendek"}}"#),
        None,
    );
    let e = validate_name("", &m).unwrap_err();
    assert_eq!(e.code, "name.invalid");
    assert_eq!(message_of(&e), "Nama tidak boleh kosong, Nama terlalu pendek");
    let e = validate_name("1", &m).unwrap_err();
    assert_eq!(message_of(&e), "Nama terlalu pendek, Name can only contain letters and spaces");
}

#[test]
fn name_messages_are_read_from_the_validation_namespace_only() {
    let catalog = r#"{"name": {"empty": "elsewhere"}}"#;
    let m = Messages::new(Some(catalog), None, Some(catalog));
    let e = validate_name("  ", &m).unwrap_err();
    assert_eq!(message_of(&e), "Name must not be empty");
}

#[test]
fn equal_messages_are_given_once() {
    let m = Messages::new(
        None,
        Some(r#"{"name": {"empty": "Bad name", "too_short": "Bad name", "invalid_chars": "Bad name"}}"#),
        None,
    );
    let e = validate_name("", &m).unwrap_err();
    assert_eq!(message_of(&e), "Bad name");
    let failures = collect_failures("1", &name_rules(), &m);
    assert_eq!(failures, vec!["Bad name".to_string()]);
}

#[test]
fn every_rule_is_run() {
    let m = no_catalog();
    let rules = vec![
        ValidationRule::NameValidChars,
        ValidationRule::NameMinLength,
        ValidationRule::NameNotEmpty,
    ];
    assert_eq!(
        collect_failures("1", &rules, &m),
        vec![
            "Name can only contain letters and spaces".to_string(),
            "Name must be at least 2 characters long".to_string(),
        ]
    );
    assert_eq!(collect_failures("Ada", &rules, &m), Vec::<String>::new());
    assert_eq!(collect_failures("1", &Vec::new(), &m), Vec::<String>::new());
}

#[test]
fn validate_field_names_the_code_after_the_field() {
    let m = no_catalog();
    let e = validate_field("nickname", "", &name_rules(), &m).unwrap();
    assert_eq!(e.code, "nickname.invalid");
    assert_eq!(
        message_of(&e),
        "Name must not be empty, Name must be at least 2 characters long"
    );
    assert!(validate_field("nickname", "", &Vec::new(), &m).is_none());
}

#[test]
fn validating_a_name_twice_gives_the_same() {
    let m = no_catalog();
    assert_eq!(validate_name("", &m), validate_name("", &m));
    assert_eq!(validate_name("Ada", &m), validate_name("Ada", &m));
}
