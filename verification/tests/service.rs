use locale_validation::messages::Messages;
use locale_validation::service::UserServiceError;

#[test]
fn service_errors_have_english_texts() {
    let m = Messages::new(None, None, None);
    assert_eq!(UserServiceError::NotFound.to_message(&m), "User not found");
    assert_eq!(UserServiceError::InvalidCredentials.to_message(&m), "Invalid credentials");
    assert_eq!(UserServiceError::DuplicateEmail.to_message(&m), "Duplicate email");
    assert_eq!(
        UserServiceError::DbError("timeout".to_string()).to_message(&m),
        "Database error occurred during user registration"
    );
    assert_eq!(
        UserServiceError::JwtGenerationError("key".to_string()).to_message(&m),
        "JWT generation failed"
    );
    assert_eq!(
        UserServiceError::PasswordHashingError("salt".to_string()).to_message(&m),
        "Password hashing failed"
    );
}

#[test]
fn service_errors_read_their_namespace() {
    let user = r#"{"fetch": {"not_found": "Benutzer nicht gefunden"},
                   "login": {"invalid_credentials": "wrong namespace"}}"#;
    let auth = r#"{"login": {"invalid_credentials": "Falsche Zugangsdaten"},
                   "register": {"duplicate": "Schon vergeben", "db_error": "Datenbankfehler"},
                   "auth": {"jwt_generation_failed": "JWT fehlgeschlagen",
                            "password_hashing_failed": "Hash fehlgeschlagen"},
                   "fetch": {"not_found": "wrong namespace"}}"#;
    let m = Messages::new(Some(user), None, Some(auth));
    assert_eq!(UserServiceError::NotFound.to_message(&m), "Benutzer nicht gefunden");
    assert_eq!(UserServiceError::InvalidCredentials.to_message(&m), "Falsche Zugangsdaten");
    assert_eq!(UserServiceError::DuplicateEmail.to_message(&m), "Schon vergeben");
    assert_eq!(UserServiceError::DbError(String::new()).to_message(&m), "Datenbankfehler");
    assert_eq!(
        UserServiceError::JwtGenerationError(String::new()).to_message(&m),
        "JWT fehlgeschlagen"
    );
    assert_eq!(
        UserServiceError::PasswordHashingError(String::new()).to_message(&m),
        "Hash fehlgeschlagen"
    );
}

#[test]
fn the_detail_of_a_service_error_is_not_shown() {
    let m = Messages::new(None, None, None);
    assert_eq!(
        UserServiceError::DbError("a".to_string()).to_message(&m),
        UserServiceError::DbError("b".to_string()).to_message(&m)
    );
}
