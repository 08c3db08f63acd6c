//! The rules for a password.

use vstd::prelude::*;
use validator::ValidationError;
use crate::errors::{into_result, rejection_of, ErrorRecord};
use crate::messages::{Messages, MessagesView};
use crate::rules::{failure_of, field_outcome, validate_field, ValidationResult, ValidationRule};
use crate::text::{any_char, byte_length, contains_char, CharClass};

verus! {

/// The least number of bytes of a password.
pub const MIN_PASSWORD_LENGTH: usize = 8;

/// The greatest number of bytes of a password.
pub const MAX_PASSWORD_LENGTH: usize = 128;

/// A password is rejected where it has fewer than 8 bytes.
pub fn has_min_length(password: &str, messages: &Messages) -> (result: ValidationResult)
    ensures
        failure_of(result) == ValidationRule::PasswordMinLength.verdict(password@, messages@),
{
    if byte_length(password) < MIN_PASSWORD_LENGTH {
        Err(
            messages.get_validation_message(
                "password.too_short",
                "Password must be at least 8 char long",
            ),
        )
    } else {
        Ok(())
    }
}

/// A password is rejected where it has more than 128 bytes.
pub fn has_max_length(password: &str, messages: &Messages) -> (result: ValidationResult)
    ensures
        failure_of(result) == ValidationRule::PasswordMaxLength.verdict(password@, messages@),
{
    if byte_length(password) > MAX_PASSWORD_LENGTH {
        Err(
            messages.get_validation_message(
                "password.too_long",
                "Password must be no more than 128 char long",
            ),
        )
    } else {
        Ok(())
    }
}

/// A password is rejected where it holds a space.
pub fn has_no_space(password: &str, messages: &Messages) -> (result: ValidationResult)
    ensures
        failure_of(result) == ValidationRule::PasswordNoSpace.verdict(password@, messages@),
{
    if contains_char(password, ' ') {
        Err(
            messages.get_validation_message(
                "password.contains_space",
                "Password must not contain spaces",
            ),
        )
    } else {
        Ok(())
    }
}

/// A password is rejected where it holds none of `A` to `Z`.
pub fn has_uppercase(password: &str, messages: &Messages) -> (result: ValidationResult)
    ensures
        failure_of(result) == ValidationRule::PasswordUppercase.verdict(password@, messages@),
{
    if !any_char(password, CharClass::AsciiUppercase) {
        Err(
            messages.get_validation_message(
                "password.missing_uppercase",
                "Password must contain at least one uppercase letter",
            ),
        )
    } else {
        Ok(())
    }
}

/// A password is rejected where it holds none of `a` to `z`.
pub fn has_lowercase(password: &str, messages: &Messages) -> (result: ValidationResult)
    ensures
        failure_of(result) == ValidationRule::PasswordLowercase.verdict(password@, messages@),
{
    if !any_char(password, CharClass::AsciiLowercase) {
        Err(
            messages.get_validation_message(
                "password.missing_lowercase",
                "Password must contain at least one lowercase letter",
            ),
        )
    } else {
        Ok(())
    }
}

/// A password is rejected where it holds none of `0` to `9`.
pub fn has_digit(password: &str, messages: &Messages) -> (result: ValidationResult)
    ensures
        failure_of(result) == ValidationRule::PasswordDigit.verdict(password@, messages@),
{
    if !any_char(password, CharClass::AsciiDigit) {
        Err(
            messages.get_validation_message(
                "password.missing_digit",
                "Password must contain at least one digit",
            ),
        )
    } else {
        Ok(())
    }
}

/// A password is rejected where each of its characters is a letter or a
/// number.
pub fn has_special_char(password: &str, messages: &Messages) -> (result: ValidationResult)
    ensures
        failure_of(result) == ValidationRule::PasswordSpecialChar.verdict(password@, messages@),
{
    if !any_char(password, CharClass::Special) {
        Err(
            messages.get_validation_message(
                "password.missing_special_char",
                "Password must contain at least one special character",
            ),
        )
    } else {
        Ok(())
    }
}

/// The rules for a password, in the order in which their messages are given.
pub open spec fn password_rule_set() -> Seq<ValidationRule> {
    seq![
        ValidationRule::PasswordMinLength,
        ValidationRule::PasswordMaxLength,
        ValidationRule::PasswordNoSpace,
        ValidationRule::PasswordUppercase,
        ValidationRule::PasswordLowercase,
        ValidationRule::PasswordDigit,
        ValidationRule::PasswordSpecialChar,
    ]
}

/// The rules for a password.
pub fn password_rules() -> (rules: Vec<ValidationRule>)
    ensures
        rules@ == password_rule_set(),
{
    let rules = vec![
        ValidationRule::PasswordMinLength,
        ValidationRule::PasswordMaxLength,
        ValidationRule::PasswordNoSpace,
        ValidationRule::PasswordUppercase,
        ValidationRule::PasswordLowercase,
        ValidationRule::PasswordDigit,
        ValidationRule::PasswordSpecialChar,
    ];
    assert(rules@ =~= password_rule_set());
    rules
}

/// What the rules for a password make of `password`.
pub open spec fn password_outcome(password: Seq<char>, messages: MessagesView) -> Option<
    ErrorRecord,
> {
    field_outcome("password"@, password, password_rule_set(), messages)
}

/// Validates a password. The error, where there is one, has the code
/// `password.invalid` and names every rule that the password breaks.
pub fn validate_password(password: &str, messages: &Messages) -> (result: Result<
    (),
    ValidationError,
>)
    ensures
        rejection_of(result) == password_outcome(password@, messages@),
{
    let rules = password_rules();
    into_result(validate_field("password", password, &rules, messages))
}

} // verus!
