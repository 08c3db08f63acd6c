//! The validation rules and the pipeline that runs a set of them on one value.
//!
//! A rule looks at one property of one value. The pipeline runs every rule of
//! a set, whether or not an earlier one failed, and gathers the messages of
//! those that did, so that a client learns of every broken constraint at once.

use vstd::prelude::*;
use validator::ValidationError;
use crate::errors::{field_error, field_verdict, record_of, ErrorRecord};
use crate::messages::{MessageCatalog, Messages, MessagesView};
use crate::text::{byte_len, contains_text, has_any, has_only, CharClass};
use crate::validations::email;
use crate::validations::email::{domain_of, email_grammar_accepts};
use crate::validations::name;
use crate::validations::password;

verus! {

/// What a rule answers: `Ok` where the value keeps it, else the message for
/// the reader.
pub type ValidationResult = Result<(), String>;

/// One rule: a single property of a single value.
#[derive(Clone, Copy, Debug, PartialEq, Eq, Structural)]
pub enum ValidationRule {
    /// A name holds something other than white space.
    NameNotEmpty,
    /// A name has at least 2 characters.
    NameMinLength,
    /// A name has at most 100 characters.
    NameMaxLength,
    /// A name holds letters and white space only.
    NameValidChars,
    /// An email address has at least 5 bytes.
    EmailMinLength,
    /// An email address has at most 254 bytes.
    EmailMaxLength,
    /// An email address holds an `@` and a dot.
    EmailAtAndDot,
    /// Where an email address holds both, the first `@` stands before the last dot.
    EmailAtBeforeDot,
    /// An email address holds no space and nothing outside ASCII.
    EmailNoInvalidChars,
    /// An email address holds no two dots in a row.
    EmailNoConsecutiveDots,
    /// An email address neither begins nor ends with a dot.
    EmailNoLeadingOrTrailingDot,
    /// The domain of an email address does not begin with a dot.
    EmailDomainStartsWithoutDot,
    /// An email address has a domain: it holds an `@`.
    EmailDomainExists,
    /// The domain of an email address is not empty, holds no space, and holds a dot.
    EmailDomainStructure,
    /// At least 2 bytes stand before the first dot of the domain.
    EmailDomainSegmentLength,
    /// What follows the last dot of the domain has at least 2 bytes and is
    /// made of letters.
    EmailTldFormat,
    /// The email address is one by the grammar of email addresses.
    EmailFormat,
    /// A password has at least 8 bytes.
    PasswordMinLength,
    /// A password has at most 128 bytes.
    PasswordMaxLength,
    /// A password holds no space.
    PasswordNoSpace,
    /// A password holds one of `A` to `Z`.
    PasswordUppercase,
    /// A password holds one of `a` to `z`.
    PasswordLowercase,
    /// A password holds one of `0` to `9`.
    PasswordDigit,
    /// A password holds a character that is neither a letter nor a number.
    PasswordSpecialChar,
}

impl ValidationRule {
    /// Whether `value` breaks the rule.
    pub open spec fn broken_by(self, value: Seq<char>) -> bool {
        match self {
            ValidationRule::NameNotEmpty => has_only(value, CharClass::Whitespace),
            ValidationRule::NameMinLength => value.len() < name::MIN_NAME_LENGTH,
            ValidationRule::NameMaxLength => value.len() > name::MAX_NAME_LENGTH,
            ValidationRule::NameValidChars => !has_only(value, CharClass::AlphabeticOrWhitespace),
            ValidationRule::EmailMinLength => byte_len(value) < email::MIN_EMAIL_LENGTH,
            ValidationRule::EmailMaxLength => byte_len(value) > email::MAX_EMAIL_LENGTH,
            ValidationRule::EmailAtAndDot => !email::at_and_dot(value),
            ValidationRule::EmailAtBeforeDot => email::at_and_dot(value)
                && !email::at_before_last_dot(value),
            ValidationRule::EmailNoInvalidChars => email::invalid_chars(value),
            ValidationRule::EmailNoConsecutiveDots => email::consecutive_dots(value),
            ValidationRule::EmailNoLeadingOrTrailingDot => email::leading_or_trailing_dot(value),
            ValidationRule::EmailDomainStartsWithoutDot => email::domain_begins_with_dot(value),
            ValidationRule::EmailDomainExists => domain_of(value) is None,
            ValidationRule::EmailDomainStructure => domain_of(value) matches Some(domain)
                && !email::valid_domain(domain),
            ValidationRule::EmailDomainSegmentLength => domain_of(value) matches Some(domain)
                && domain.contains('.') && !email::valid_domain_length(domain),
            ValidationRule::EmailTldFormat => domain_of(value) matches Some(domain)
                && domain.contains('.') && !email::valid_tld(domain),
            ValidationRule::EmailFormat => !email_grammar_accepts(value),
            ValidationRule::PasswordMinLength => byte_len(value) < password::MIN_PASSWORD_LENGTH,
            ValidationRule::PasswordMaxLength => byte_len(value) > password::MAX_PASSWORD_LENGTH,
            ValidationRule::PasswordNoSpace => value.contains(' '),
            ValidationRule::PasswordUppercase => !has_any(value, CharClass::AsciiUppercase),
            ValidationRule::PasswordLowercase => !has_any(value, CharClass::AsciiLowercase),
            ValidationRule::PasswordDigit => !has_any(value, CharClass::AsciiDigit),
            ValidationRule::PasswordSpecialChar => !has_any(value, CharClass::Special),
        }
    }

    /// The message of the rule, from the catalog of validation messages:
    /// the text at the rule's own path, or the rule's own English text where
    /// the catalog has none. The rule on `@` and dot takes the text for a
    /// missing `@` before the text for a missing dot, whichever of the two
    /// is missing.
    pub open spec fn message(self, catalog: MessageCatalog) -> Seq<char> {
        match self {
            ValidationRule::NameNotEmpty => catalog.resolve(
                "name.empty"@,
                "Name must not be empty"@,
            ),
            ValidationRule::NameMinLength => catalog.resolve(
                "name.too_short"@,
                "Name must be at least 2 characters long"@,
            ),
            ValidationRule::NameMaxLength => catalog.resolve(
                "name.too_long"@,
                "Name must be less than 100 characters"@,
            ),
            ValidationRule::NameValidChars => catalog.resolve(
                "name.invalid_chars"@,
                "Name can only contain letters and spaces"@,
            ),
            ValidationRule::EmailMinLength => catalog.resolve(
                "email.too_short"@,
                "Email must be at least 5 characters"@,
            ),
            ValidationRule::EmailMaxLength => catalog.resolve(
                "email.too_long"@,
                "Email must be less than 254 characters"@,
            ),
            ValidationRule::EmailAtAndDot => {
                let missing_at = catalog.resolve("email.missing_at"@, ""@);
                let missing_dot = catalog.resolve("email.missing_dot"@, ""@);
                if missing_at.len() != 0 {
                    missing_at
                } else if missing_dot.len() != 0 {
                    missing_dot
                } else {
                    "Email must contain '@' and '.'"@
                }
            },
            ValidationRule::EmailAtBeforeDot => catalog.resolve(
                "email.at_before_dot"@,
                "The '@' must come before the last '.'"@,
            ),
            ValidationRule::EmailNoInvalidChars => catalog.resolve(
                "email.invalid_chars"@,
                "Email must not contain spaces or non-ASCII characters"@,
            ),
            ValidationRule::EmailNoConsecutiveDots => catalog.resolve(
                "email.consecutive_dots"@,
                "Email must not contain consecutive dots"@,
            ),
            ValidationRule::EmailNoLeadingOrTrailingDot => catalog.resolve(
                "email.starts_or_ends_with_dot"@,
                "Email must not start or end with a dot"@,
            ),
            ValidationRule::EmailDomainStartsWithoutDot => catalog.resolve(
                "email.domain_starts_with_dot"@,
                "The domain part must not start with a dot"@,
            ),
            ValidationRule::EmailDomainExists => catalog.resolve(
                "email.missing_domain"@,
                "Email must have a domain part after '@'"@,
            ),
            ValidationRule::EmailDomainStructure => catalog.resolve(
                "email.invalid_domain"@,
                "The domain part of the email is invalid"@,
            ),
            ValidationRule::EmailDomainSegmentLength => catalog.resolve(
                "email.invalid_domain_length"@,
                "The domain part (after '@') must have at least 2 characters before the first dot"@,
            ),
            ValidationRule::EmailTldFormat => catalog.resolve(
                "email.invalid_tld"@,
                "The TLD (after the last '.') must be at least 2 characters long and alphabetic"@,
            ),
            ValidationRule::EmailFormat => catalog.resolve(
                "email.invalid"@,
                "Invalid email format"@,
            ),
            ValidationRule::PasswordMinLength => catalog.resolve(
                "password.too_short"@,
                "Password must be at least 8 char long"@,
            ),
            ValidationRule::PasswordMaxLength => catalog.resolve(
                "password.too_long"@,
                "Password must be no more than 128 char long"@,
            ),
            ValidationRule::PasswordNoSpace => catalog.resolve(
                "password.contains_space"@,
                "Password must not contain spaces"@,
            ),
            ValidationRule::PasswordUppercase => catalog.resolve(
                "password.missing_uppercase"@,
                "Password must contain at least one uppercase letter"@,
            ),
            ValidationRule::PasswordLowercase => catalog.resolve(
                "password.missing_lowercase"@,
                "Password must contain at least one lowercase letter"@,
            ),
            ValidationRule::PasswordDigit => catalog.resolve(
                "password.missing_digit"@,
                "Password must contain at least one digit"@,
            ),
            ValidationRule::PasswordSpecialChar => catalog.resolve(
                "password.missing_special_char"@,
                "Password must contain at least one special character"@,
            ),
        }
    }

    /// What the rule says of `value`: its message where `value` breaks it,
    /// nothing where `value` keeps it.
    pub open spec fn verdict(self, value: Seq<char>, messages: MessagesView) -> Option<Seq<char>> {
        if self.broken_by(value) {
            Some(self.message(messages.validation))
        } else {
            None
        }
    }

    /// Checks `value` against the rule.
    pub fn check(&self, value: &str, messages: &Messages) -> (result: ValidationResult)
        ensures
            failure_of(result) == self.verdict(value@, messages@),
    {
        match self {
            ValidationRule::NameNotEmpty => name::is_not_empty(value, messages),
            ValidationRule::NameMinLength => name::has_min_length(value, messages),
            ValidationRule::NameMaxLength => name::has_max_length(value, messages),
            ValidationRule::NameValidChars => name::has_valid_chars(value, messages),
            ValidationRule::EmailMinLength => email::has_min_length(value, messages),
            ValidationRule::EmailMaxLength => email::has_max_length(value, messages),
            ValidationRule::EmailAtAndDot => email::has_at_and_dot(value, messages),
            ValidationRule::EmailAtBeforeDot => email::is_at_before_dot(value, messages),
            ValidationRule::EmailNoInvalidChars => email::has_no_invalid_chars(value, messages),
            ValidationRule::EmailNoConsecutiveDots => email::has_no_consecutive_dots(
                value,
                messages,
            ),
            ValidationRule::EmailNoLeadingOrTrailingDot => email::has_no_leading_or_trailing_dot(
                value,
                messages,
            ),
            ValidationRule::EmailDomainStartsWithoutDot => email::domain_starts_without_dot(
                value,
                messages,
            ),
            ValidationRule::EmailDomainExists => email::domain_exists(value, messages),
            ValidationRule::EmailDomainStructure => email::is_structure_valid_domain(
                value,
                messages,
            ),
            ValidationRule::EmailDomainSegmentLength => email::has_valid_domain_segment_length(
                value,
                messages,
            ),
            ValidationRule::EmailTldFormat => email::has_valid_tld_format(value, messages),
            ValidationRule::EmailFormat => email::is_overall_format_valid(value, messages),
            ValidationRule::PasswordMinLength => password::has_min_length(value, messages),
            ValidationRule::PasswordMaxLength => password::has_max_length(value, messages),
            ValidationRule::PasswordNoSpace => password::has_no_space(value, messages),
            ValidationRule::PasswordUppercase => password::has_uppercase(value, messages),
            ValidationRule::PasswordLowercase => password::has_lowercase(value, messages),
            ValidationRule::PasswordDigit => password::has_digit(value, messages),
            ValidationRule::PasswordSpecialChar => password::has_special_char(value, messages),
        }
    }
}

/// The message of a rule's answer, none where the answer is `Ok`.
pub open spec fn failure_of(result: ValidationResult) -> Option<Seq<char>> {
    match result {
        Ok(()) => None,
        Err(message) => Some(message@),
    }
}

/// `failures`, and after them the message of `verdict` where there is one
/// that `failures` does not hold yet: a message that two rules give in the
/// same words is kept once.
pub open spec fn noted(failures: Seq<Seq<char>>, verdict: Option<Seq<char>>) -> Seq<Seq<char>> {
    match verdict {
        Some(message) => if failures.contains(message) {
            failures
        } else {
            failures.push(message)
        },
        None => failures,
    }
}

/// The messages of the rules of `rules` that `value` breaks, in the order of
/// the rules, each text once.
pub open spec fn failure_messages(rules: Seq<ValidationRule>, value: Seq<char>, messages: MessagesView) -> Seq<Seq<char>>
    decreases rules.len(),
{
    if rules.len() == 0 {
        Seq::empty()
    } else {
        noted(
            failure_messages(rules.drop_last(), value, messages),
            rules.last().verdict(value, messages),
        )
    }
}

/// Adds the message of `result`, where it has one, to `failures`, unless
/// `failures` holds the same text already.
pub fn note_failure(failures: &mut Vec<String>, result: ValidationResult)
    ensures
        final(failures).deep_view() == noted(old(failures).deep_view(), failure_of(result)),
{
    match result {
        Ok(()) => {},
        Err(message) => {
            if !contains_text(failures, message.as_str()) {
                let ghost before = failures.deep_view();
                failures.push(message);
                assert(failures.deep_view() =~= before.push(message@));
            }
        },
    }
}

/// Runs every rule of `rules` on `value` and gathers the messages of those
/// that `value` breaks. No rule is skipped because an earlier one failed.
pub fn collect_failures(value: &str, rules: &Vec<ValidationRule>, messages: &Messages) -> (failures:
    Vec<String>)
    ensures
        failures.deep_view() == failure_messages(rules@, value@, messages@),
{
    let mut failures: Vec<String> = Vec::new();
    let mut i: usize = 0;
    assert(rules@.take(0) =~= Seq::<ValidationRule>::empty());
    assert(failures.deep_view() =~= Seq::<Seq<char>>::empty());
    while i < rules.len()
        invariant
            i <= rules.len(),
            failures.deep_view() == failure_messages(rules@.take(i as int), value@, messages@),
        decreases rules.len() - i,
    {
        let result = rules[i].check(value, messages);
        proof {
            let next = rules@.take(i + 1);
            assert(next.drop_last() =~= rules@.take(i as int));
            assert(next.last() == rules@[i as int]);
        }
        note_failure(&mut failures, result);
        i = i + 1;
    }
    assert(rules@.take(rules.len() as int) =~= rules@);
    failures
}

/// What the rules of `rules` make of the value of a field: no record where
/// the value keeps them all, else one record for the field, with the
/// messages of all the rules that the value breaks.
pub open spec fn field_outcome(
    field: Seq<char>,
    value: Seq<char>,
    rules: Seq<ValidationRule>,
    messages: MessagesView,
) -> Option<ErrorRecord> {
    field_verdict(field, value, failure_messages(rules, value, messages))
}

/// Validates the value of one field against a set of rules. Gives no error
/// where the value keeps every rule, else one error for the field, whose
/// code is `<field_name>.invalid` and whose message names every rule that
/// the value breaks.
pub fn validate_field(
    field_name: &str,
    value: &str,
    rules: &Vec<ValidationRule>,
    messages: &Messages,
) -> (e: Option<ValidationError>)
    ensures
        record_of(e) == field_outcome(field_name@, value@, rules@, messages@),
{
    let failures = collect_failures(value, rules, messages);
    field_error(field_name, value, &failures)
}

} // verus!
