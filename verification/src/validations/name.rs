//! The rules for a person's name.

use vstd::prelude::*;
use vstd::string::StrSliceExecFns;
use validator::ValidationError;
use crate::errors::{into_result, rejection_of, ErrorRecord};
use crate::messages::{Messages, MessagesView};
use crate::rules::{failure_of, field_outcome, validate_field, ValidationResult, ValidationRule};
use crate::text::{all_chars, CharClass};

verus! {

/// The least number of characters of a name.
pub const MIN_NAME_LENGTH: usize = 2;

/// The greatest number of characters of a name.
pub const MAX_NAME_LENGTH: usize = 100;

/// A name is rejected where nothing is left of it once the white space
/// around it is taken away: where it holds nothing but white space.
pub fn is_not_empty(name: &str, messages: &Messages) -> (result: ValidationResult)
    ensures
        failure_of(result) == ValidationRule::NameNotEmpty.verdict(name@, messages@),
{
    if all_chars(name, CharClass::Whitespace) {
        Err(messages.get_validation_message("name.empty", "Name must not be empty"))
    } else {
        Ok(())
    }
}

/// A name is rejected where it has fewer than 2 characters.
pub fn has_min_length(name: &str, messages: &Messages) -> (result: ValidationResult)
    ensures
        failure_of(result) == ValidationRule::NameMinLength.verdict(name@, messages@),
{
    if name.unicode_len() < MIN_NAME_LENGTH {
        Err(
            messages.get_validation_message(
                "name.too_short",
                "Name must be at least 2 characters long",
            ),
        )
    } else {
        Ok(())
    }
}

/// A name is rejected where it has more than 100 characters.
pub fn has_max_length(name: &str, messages: &Messages) -> (result: ValidationResult)
    ensures
        failure_of(result) == ValidationRule::NameMaxLength.verdict(name@, messages@),
{
    if name.unicode_len() > MAX_NAME_LENGTH {
        Err(
            messages.get_validation_message(
                "name.too_long",
                "Name must be less than 100 characters",
            ),
        )
    } else {
        Ok(())
    }
}

/// A name is rejected where it holds anything but letters and white space.
pub fn has_valid_chars(name: &str, messages: &Messages) -> (result: ValidationResult)
    ensures
        failure_of(result) == ValidationRule::NameValidChars.verdict(name@, messages@),
{
    if !all_chars(name, CharClass::AlphabeticOrWhitespace) {
        Err(
            messages.get_validation_message(
                "name.invalid_chars",
                "Name can only contain letters and spaces",
            ),
        )
    } else {
        Ok(())
    }
}

/// The rules for a name, in the order in which their messages are given.
pub open spec fn name_rule_set() -> Seq<ValidationRule> {
    seq![
        ValidationRule::NameNotEmpty,
        ValidationRule::NameMinLength,
        ValidationRule::NameMaxLength,
        ValidationRule::NameValidChars,
    ]
}

/// The rules for a name.
pub fn name_rules() -> (rules: Vec<ValidationRule>)
    ensures
        rules@ == name_rule_set(),
{
    let rules = vec![
        ValidationRule::NameNotEmpty,
        ValidationRule::NameMinLength,
        ValidationRule::NameMaxLength,
        ValidationRule::NameValidChars,
    ];
    assert(rules@ =~= name_rule_set());
    rules
}

/// What the rules for a name make of `name`.
pub open spec fn name_outcome(name: Seq<char>, messages: MessagesView) -> Option<ErrorRecord> {
    field_outcome("name"@, name, name_rule_set(), messages)
}

/// Validates a name. The error, where there is one, has the code
/// `name.invalid` and names every rule that the name breaks.
pub fn validate_name(name: &str, messages: &Messages) -> (result: Result<(), ValidationError>)
    ensures
        rejection_of(result) == name_outcome(name@, messages@),
{
    let rules = name_rules();
    into_result(validate_field("name", name, &rules, messages))
}

} // verus!
