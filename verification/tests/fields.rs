use locale_validation::errors::{add_error, field_error, into_result};
use locale_validation::fields::{
    validate_fields, validate_login_data, validate_register_data, FieldValidator,
};
use locale_validation::messages::Messages;
use locale_validation::requests::{LoginRequest, RegisterRequest};
use validator::{ValidationError, ValidationErrors};

fn no_catalog() -> Messages {
    Messages::new(None, None, None)
}

fn wording(e: &ValidationError) -> String {
    e.message.as_ref().map(|m| m.to_string()).unwrap_or_default()
}

fn register(name: &str, email: &str, password: &str) -> RegisterRequest {
    RegisterRequest {
        name: name.to_string(),
        email: email.to_string(),
        password: password.to_string(),
    }
}

fn errors_of_field<'a>(errors: &'a ValidationErrors, field: &str) -> Vec<&'a ValidationError> {
    match errors.field_errors().get(field) {
        Some(list) => list.iter().collect(),
        None => Vec::new(),
    }
}

#[test]
fn add_error_carries_code_message_and_value() {
    let e = add_error("email.invalid", "Invalid email format".to_string(), "a@b");
    assert_eq!(e.code, "email.invalid");
    assert_eq!(wording(&e), "Invalid email format");
    assert_eq!(e.params.len(), 1);
    assert_eq!(e.params.get("value"), Some(&serde_json::Value::String("a@b".to_string())));
}

#[test]
fn field_error_joins_the_failures() {
    assert!(field_error("name", "x", &Vec::new()).is_none());
    let e = field_error("name", "x", &vec!["one".to_string()]).unwrap();
    assert_eq!(e.code, "name.invalid");
    assert_eq!(wording(&e), "one");
    assert_eq!(e.params.get("value").and_then(|v| v.as_str()), Some("x"));
    let e = field_error("city", "y", &vec!["one".to_string(), "two".to_string(), "3".to_string()])
        .unwrap();
    assert_eq!(e.code, "city.invalid");
    assert_eq!(wording(&e), "one, two, 3");
}

#[test]
fn into_result_turns_an_error_into_err() {
    assert_eq!(into_result(None), Ok(()));
    let e = add_error("a.invalid", "m".to_string(), "v");
    assert_eq!(into_result(Some(e.clone())), Err(e));
}

#[test]
fn field_validators_run_their_rule_set() {
    let m = no_catalog();
    assert!(FieldValidator::Name.run("Ada", &m).is_ok());
    assert_eq!(FieldValidator::Name.run("1", &m).unwrap_err().code, "name.invalid");
    assert!(FieldValidator::Email.run("user@example.com", &m).is_ok());
    assert_eq!(FieldValidator::Email.run("Ada", &m).unwrap_err().code, "email.invalid");
    assert!(FieldValidator::Password.run("Abcdefg1!", &m).is_ok());
    assert_eq!(FieldValidator::Password.run("Ada", &m).unwrap_err().code, "password.invalid");
}

#[test]
fn valid_fields_give_ok() {
    let m = no_catalog();
    assert!(validate_fields(Vec::new(), &m).is_ok());
    let fields = vec![
        ("name", "Ada Lovelace", FieldValidator::Name),
        ("email", "ada@example.com", FieldValidator::Email),
        ("password", "Abcdefg1!", FieldValidator::Password),
    ];
    assert!(validate_fields(fields, &m).is_ok());
}

#[test]
fn rejected_fields_are_gathered_by_name() {
    let m = no_catalog();
    let fields = vec![
        ("name", "", FieldValidator::Name),
        ("email", "ada@example.com", FieldValidator::Email),
        ("password", "password", FieldValidator::Password),
    ];
    let errors = validate_fields(fields, &m).unwrap_err();
    assert_eq!(errors.errors().len(), 2);
    let name = errors_of_field(&errors, "name");
    assert_eq!(name.len(), 1);
    assert_eq!(name[0].code, "name.invalid");
    assert_eq!(
        wording(name[0]),
        "Name must not be empty, Name must be at least 2 characters long"
    );
    assert!(errors_of_field(&errors, "email").is_empty());
    let password = errors_of_field(&errors, "password");
    assert_eq!(password.len(), 1);
    assert_eq!(password[0].code, "password.invalid");
    assert_eq!(
        wording(password[0]),
        "Password must contain at least one uppercase letter, \
         Password must contain at least one digit, \
         Password must contain at least one special character"
    );
}

#[test]
fn one_field_given_twice_keeps_both_errors_in_order() {
    let m = no_catalog();
    let fields = vec![
        ("contact", "a@b.c", FieldValidator::Email),
        ("contact", "ok@example.com", FieldValidator::Email),
        ("contact", "1", FieldValidator::Name),
    ];
    let errors = validate_fields(fields, &m).unwrap_err();
    assert_eq!(errors.errors().len(), 1);
    let contact = errors_of_field(&errors, "contact");
    assert_eq!(contact.len(), 2);
    assert_eq!(contact[0].code, "email.invalid");
    assert_eq!(contact[0].params.get("value").and_then(|v| v.as_str()), Some("a@b.c"));
    assert_eq!(contact[1].code, "name.invalid");
    assert_eq!(contact[1].params.get("value").and_then(|v| v.as_str()), Some("1"));
}

#[test]
fn the_entry_is_named_by_the_field_and_the_code_by_the_rule_set() {
    let m = no_catalog();
    let errors = validate_fields(vec![("login", "x", FieldValidator::Email)], &m).unwrap_err();
    let login = errors_of_field(&errors, "login");
    assert_eq!(login.len(), 1);
    assert_eq!(login[0].code, "email.invalid");
    assert!(errors_of_field(&errors, "email").is_empty());
}

#[test]
fn register_data_is_validated_field_by_field() {
    let m = no_catalog();
    assert!(validate_register_data(&register("Ada", "ada@example.com", "Abcdefg1!"), &m).is_ok());
    let errors = validate_register_data(&register("", "a@b.c", "password"), &m).unwrap_err();
    assert_eq!(errors.errors().len(), 3);
    assert_eq!(errors_of_field(&errors, "name")[0].code, "name.invalid");
    assert_eq!(errors_of_field(&errors, "email")[0].code, "email.invalid");
    assert_eq!(errors_of_field(&errors, "password")[0].code, "password.invalid");
    let errors = validate_register_data(&register("Ada", "ada@example.com", "short"), &m)
        .unwrap_err();
    assert_eq!(errors.errors().len(), 1);
    assert_eq!(errors_of_field(&errors, "password").len(), 1);
}

#[test]
fn login_data_is_validated_without_a_name() {
    let m = no_catalog();
    let good = LoginRequest { email: "ada@example.com".to_string(), password: "Abcdefg1!".to_string() };
    assert!(validate_login_data(&good, &m).is_ok());
    let bad = LoginRequest { email: "ada".to_string(), password: "".to_string() };
    let errors = validate_login_data(&bad, &m).unwrap_err();
    assert_eq!(errors.errors().len(), 2);
    assert_eq!(errors_of_field(&errors, "email")[0].code, "email.invalid");
    assert_eq!(errors_of_field(&errors, "password")[0].code, "password.invalid");
    assert!(errors_of_field(&errors, "name").is_empty());
}

#[test]
fn validation_is_repeatable() {
    let m = Messages::new(None, Some(r#"{"name": {"empty": "Leer"}}"#), None);
    let data = register("", "user@@example..com", "password");
    let first = validate_register_data(&data, &m);
    let second = validate_register_data(&data, &m);
    assert!(first.is_err());
    assert_eq!(first, second);
    assert_eq!(
        serde_json::to_string(&first.unwrap_err().field_errors().get("name")).unwrap(),
        serde_json::to_string(&second.unwrap_err().field_errors().get("name")).unwrap()
    );
    let good = register("Ada", "ada@example.com", "Abcdefg1!");
    assert_eq!(validate_register_data(&good, &m), validate_register_data(&good, &m));
}

#[test]
fn messages_of_the_language_reach_the_errors() {
    let m = Messages::new(
        None,
        Some(r#"{"name": {"empty": "Nama kosong", "too_short": "Nama pendek"}, "password": {"too_short": "Sandi pendek"}}"#),
        None,
    );
    let errors = validate_register_data(&register("", "ada@example.com", "Ab1!"), &m).unwrap_err();
    assert_eq!(wording(errors_of_field(&errors, "name")[0]), "Nama kosong, Nama pendek");
    assert_eq!(wording(errors_of_field(&errors, "password")[0]), "Sandi pendek");
}
