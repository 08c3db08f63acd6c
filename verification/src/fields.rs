//! The validation of several fields at once, and the set of their errors.

use vstd::prelude::*;
use validator::{ValidationError, ValidationErrors};
use crate::errors::{field_errors, rejection_of, with_error, ErrorRecord};
use crate::messages::{Messages, MessagesView};
use crate::requests::{LoginRequest, RegisterRequest};
use crate::validations::email::{email_outcome, validate_email};
use crate::validations::name::{name_outcome, validate_name};
use crate::validations::password::{password_outcome, validate_password};

verus! {

/// The rule set that a field is put to.
#[derive(Clone, Copy, Debug, PartialEq, Eq, Structural)]
pub enum FieldValidator {
    /// The rules for a name.
    Name,
    /// The rules for an email address.
    Email,
    /// The rules for a password.
    Password,
}

impl FieldValidator {
    /// What the rule set makes of `value`.
    pub open spec fn outcome(self, value: Seq<char>, messages: MessagesView) -> Option<ErrorRecord> {
        match self {
            FieldValidator::Name => name_outcome(value, messages),
            FieldValidator::Email => email_outcome(value, messages),
            FieldValidator::Password => password_outcome(value, messages),
        }
    }

    /// Puts `value` to the rule set.
    pub fn run(&self, value: &str, messages: &Messages) -> (result: Result<(), ValidationError>)
        ensures
            rejection_of(result) == self.outcome(value@, messages@),
    {
        match self {
            FieldValidator::Name => validate_name(value, messages),
            FieldValidator::Email => validate_email(value, messages),
            FieldValidator::Password => validate_password(value, messages),
        }
    }
}

/// One field to validate: its name, its value, and the rule set for it.
pub type FieldValidation<'a> = (&'static str, &'a str, FieldValidator);

/// One field to validate, as the contracts see it.
pub struct FieldModel {
    pub name: Seq<char>,
    pub value: Seq<char>,
    pub validator: FieldValidator,
}

/// The fields of a list, as the contracts see them.
pub open spec fn field_models<'a>(fields: Seq<FieldValidation<'a>>) -> Seq<FieldModel> {
    Seq::new(
        fields.len(),
        |i: int| FieldModel { name: fields[i].0@, value: fields[i].1@, validator: fields[i].2 },
    )
}

/// The errors by field name that the fields of `fields` give: each field
/// whose value its rule set rejects adds its record under its name, after
/// those of the fields before it. A field whose value is accepted adds
/// nothing.
pub open spec fn collected_errors(fields: Seq<FieldModel>, messages: MessagesView) -> Map<
    Seq<char>,
    Seq<ErrorRecord>,
>
    decreases fields.len(),
{
    if fields.len() == 0 {
        Map::empty()
    } else {
        let earlier = collected_errors(fields.drop_last(), messages);
        let field = fields.last();
        match field.validator.outcome(field.value, messages) {
            Some(record) => with_error(earlier, field.name, record),
            None => earlier,
        }
    }
}

/// The errors that the fields of `fields` give, by field name; none where
/// every value is accepted.
pub open spec fn fields_outcome(fields: Seq<FieldModel>, messages: MessagesView) -> Option<
    Map<Seq<char>, Seq<ErrorRecord>>,
> {
    let errors = collected_errors(fields, messages);
    if errors.dom() == Set::<Seq<char>>::empty() {
        None
    } else {
        Some(errors)
    }
}

/// Whether `result` is what a validation of several fields owes for
/// `outcome`: `Ok` where there are no errors, else a set that holds these
/// errors and nothing else.
pub open spec fn is_outcome(
    result: Result<(), ValidationErrors>,
    outcome: Option<Map<Seq<char>, Seq<ErrorRecord>>>,
) -> bool {
    match result {
        Ok(()) => outcome is None,
        Err(errors) => outcome is Some && field_errors(errors) == outcome,
    }
}

/// Validates each field of `fields` with its rule set and gathers the errors
/// by field name. `Ok` where every value is accepted; else the set of the
/// errors, one for each rejected field, and nothing for the others.
pub fn validate_fields(fields: Vec<FieldValidation>, messages: &Messages) -> (result: Result<
    (),
    ValidationErrors,
>)
    ensures
        is_outcome(result, fields_outcome(field_models(fields@), messages@)),
{
    let mut errors = ValidationErrors::new();
    let mut i: usize = 0;
    let ghost models = field_models(fields@);
    assert(models.take(0) =~= Seq::<FieldModel>::empty());
    while i < fields.len()
        invariant
            i <= fields.len(),
            models == field_models(fields@),
            field_errors(errors) == Some(collected_errors(models.take(i as int), messages@)),
        decreases fields.len() - i,
    {
        let field = fields[i].0;
        let value = fields[i].1;
        let validator = fields[i].2;
        proof {
            let next = models.take(i + 1);
            assert(next.drop_last() =~= models.take(i as int));
            assert(next.last() == models[i as int]);
        }
        match validator.run(value, messages) {
            Err(error) => {
                errors.add(field, error);
            },
            Ok(()) => {},
        }
        i = i + 1;
    }
    assert(models.take(fields.len() as int) =~= models);
    if errors.is_empty() {
        Ok(())
    } else {
        Err(errors)
    }
}

/// The fields of a request to register, each with its rule set.
pub open spec fn register_fields(name: Seq<char>, email: Seq<char>, password: Seq<char>) -> Seq<
    FieldModel,
> {
    seq![
        FieldModel { name: "name"@, value: name, validator: FieldValidator::Name },
        FieldModel { name: "email"@, value: email, validator: FieldValidator::Email },
        FieldModel { name: "password"@, value: password, validator: FieldValidator::Password },
    ]
}

/// Validates a request to register: its name, its email address and its
/// password.
pub fn validate_register_data(data: &RegisterRequest, messages: &Messages) -> (result: Result<
    (),
    ValidationErrors,
>)
    ensures
        is_outcome(
            result,
            fields_outcome(register_fields(data.name@, data.email@, data.password@), messages@),
        ),
{
    let fields: Vec<FieldValidation> = vec![
        ("name", data.name.as_str(), FieldValidator::Name),
        ("email", data.email.as_str(), FieldValidator::Email),
        ("password", data.password.as_str(), FieldValidator::Password),
    ];
    assert(field_models(fields@) =~= register_fields(data.name@, data.email@, data.password@));
    validate_fields(fields, messages)
}

/// The fields of a request to sign in, each with its rule set.
pub open spec fn login_fields(email: Seq<char>, password: Seq<char>) -> Seq<FieldModel> {
    seq![
        FieldModel { name: "email"@, value: email, validator: FieldValidator::Email },
        FieldModel { name: "password"@, value: password, validator: FieldValidator::Password },
    ]
}

/// Validates a request to sign in: its email address and its password.
pub fn validate_login_data(data: &LoginRequest, messages: &Messages) -> (result: Result<
    (),
    ValidationErrors,
>)
    ensures
        is_outcome(result, fields_outcome(login_fields(data.email@, data.password@), messages@)),
{
    let fields: Vec<FieldValidation> = vec![
        ("email", data.email.as_str(), FieldValidator::Email),
        ("password", data.password.as_str(), FieldValidator::Password),
    ];
    assert(field_models(fields@) =~= login_fields(data.email@, data.password@));
    validate_fields(fields, messages)
}

} // verus!
