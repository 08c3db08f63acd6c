//! Validation errors: one record for each rejected field, and the set of them
//! by field name.
//!
//! The records are `validator::ValidationError` and the set is
//! `validator::ValidationErrors`. The contracts speak of what they hold: an
//! `ErrorRecord` for an error, and a map from field name to records for a set.

use vstd::prelude::*;
use vstd::string::StringExecFns;
use std::borrow::Cow;
use std::collections::HashMap;
use validator::{ValidationError, ValidationErrors};
use crate::messages::MessageCatalog;
use crate::text::{join, joined};

verus! {

#[verifier::external_type_specification]
#[verifier::external_body]
pub struct ExValidationError(ValidationError);

#[verifier::external_type_specification]
#[verifier::external_body]
pub struct ExValidationErrors(ValidationErrors);

/// What a validation error holds.
#[verifier::ext_equal]
pub struct ErrorRecord {
    /// The machine-readable code, such as `email.invalid`.
    pub code: Seq<char>,
    /// The message for the reader, already in the reader's language.
    pub message: Option<Seq<char>>,
    /// The parameters by name, each by the shape of its JSON value.
    pub params: Map<Seq<char>, MessageCatalog>,
}

/// What `e` holds: its code, its message, and its parameters.
pub uninterp spec fn error_record(e: ValidationError) -> ErrorRecord;

/// The errors that `errors` holds for each field, in the order in which they
/// were added. None where `errors` holds anything but errors of fields (the
/// errors of a nested struct or of a list); no function here makes such a set.
pub uninterp spec fn field_errors(errors: ValidationErrors) -> Option<
    Map<Seq<char>, Seq<ErrorRecord>>,
>;

/// The errors by field, with `record` added last under `field`.
pub open spec fn with_error(
    errors: Map<Seq<char>, Seq<ErrorRecord>>,
    field: Seq<char>,
    record: ErrorRecord,
) -> Map<Seq<char>, Seq<ErrorRecord>> {
    let earlier = if errors.contains_key(field) {
        errors[field]
    } else {
        Seq::empty()
    };
    errors.insert(field, earlier.push(record))
}

/// The record of a rejected value: `code`, `message`, and the value itself
/// as the parameter `value`.
pub open spec fn rejection(code: Seq<char>, message: Seq<char>, value: Seq<char>) -> ErrorRecord {
    ErrorRecord {
        code,
        message: Some(message),
        params: Map::empty().insert("value"@, MessageCatalog::Leaf(value)),
    }
}

/// The record that a field's failures amount to: none where nothing failed,
/// else one record with the code `<field>.invalid` and all the failure
/// messages in one, joined by a comma and a space.
pub open spec fn field_verdict(field: Seq<char>, value: Seq<char>, failures: Seq<Seq<char>>) -> Option<
    ErrorRecord,
> {
    if failures.len() == 0 {
        None
    } else {
        Some(rejection(field + ".invalid"@, joined(failures, ", "@), value))
    }
}

/// The record of an error that may be absent.
pub open spec fn record_of(e: Option<ValidationError>) -> Option<ErrorRecord> {
    match e {
        Some(e) => Some(error_record(e)),
        None => None,
    }
}

/// The record of the error of a result, none where the result is `Ok`.
pub open spec fn rejection_of(result: Result<(), ValidationError>) -> Option<ErrorRecord> {
    match result {
        Ok(()) => None,
        Err(e) => Some(error_record(e)),
    }
}

/// `ValidationErrors::new` of validator makes a set without entries.
pub assume_specification[ ValidationErrors::new ]() -> (errors: ValidationErrors)
    ensures
        field_errors(errors) == Some(Map::<Seq<char>, Seq<ErrorRecord>>::empty()),
;

/// `ValidationErrors::add` of validator appends `error` to the errors of
/// `field`, which it enters first where the set has none for it. It panics
/// where the entry of `field` is not one of field errors, which `requires`
/// leaves out.
pub assume_specification[ ValidationErrors::add ](
    errors: &mut ValidationErrors,
    field: &'static str,
    error: ValidationError,
)
    requires
        field_errors(*old(errors)) is Some,
    ensures
        field_errors(*final(errors)) == Some(
            with_error(field_errors(*old(errors))->0, field@, error_record(error)),
        ),
;

/// `ValidationErrors::is_empty` of validator tells whether the set has no
/// entry at all.
pub assume_specification[ ValidationErrors::is_empty ](errors: &ValidationErrors) -> (empty: bool)
    ensures
        field_errors(*errors) matches Some(by_field) ==> empty == (by_field.dom() == Set::<
            Seq<char>,
        >::empty()),
;

/// Builds a `validator::ValidationError` from its three public fields: the
/// code, the message, and one parameter named `param` whose value is the JSON
/// string `value`.
#[verifier::external_body]
fn new_error(code: String, message: String, param: &'static str, value: &str) -> (e:
    ValidationError)
    ensures
        error_record(e) == (ErrorRecord {
            code: code@,
            message: Some(message@),
            params: Map::empty().insert(param@, MessageCatalog::Leaf(value@)),
        }),
{
    let mut params = HashMap::new();
    params.insert(Cow::Borrowed(param), serde_json::Value::String(value.to_owned()));
    ValidationError { code: Cow::Owned(code), message: Some(Cow::Owned(message)), params }
}

/// The error for a rejected value: it carries `code`, `message`, and the
/// value itself as the parameter `value`.
pub fn add_error(code: &'static str, message: String, field_value: &str) -> (e: ValidationError)
    ensures
        error_record(e) == rejection(code@, message@, field_value@),
{
    new_error(String::from_str(code), message, "value", field_value)
}

/// The error for one field, from the messages of the rules that its value
/// broke: none where there are no messages, else one error for the field.
pub fn field_error(field: &str, value: &str, failures: &Vec<String>) -> (e: Option<ValidationError>)
    ensures
        record_of(e) == field_verdict(field@, value@, failures.deep_view()),
{
    assert(failures.deep_view().len() == failures.len());
    if failures.len() == 0 {
        None
    } else {
        let mut code = String::from_str(field);
        code.append(".invalid");
        let message = join(failures, ", ");
        Some(new_error(code, message, "value", value))
    }
}

/// `Err` with the error where there is one, else `Ok`.
pub fn into_result(e: Option<ValidationError>) -> (result: Result<(), ValidationError>)
    ensures
        rejection_of(result) == record_of(e),
{
    match e {
        Some(e) => Err(e),
        None => Ok(()),
    }
}

} // verus!
