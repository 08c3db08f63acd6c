//! The rules for an email address.
//!
//! The structural rules look at the shape of the address: its length, its
//! `@`, its dots, its domain. An address that keeps them all is then put to
//! the grammar of email addresses, which catches what they let through.

use vstd::prelude::*;
use vstd::string::StrSliceExecFns;
use email_address::EmailAddress;
use validator::ValidationError;
use crate::errors::{field_error, field_verdict, into_result, rejection_of, ErrorRecord};
use crate::messages::{text_of, Messages, MessagesView};
use crate::rules::{
    collect_failures, failure_messages, failure_of, note_failure, noted, ValidationResult,
    ValidationRule,
};
use crate::text::{
    all_chars, any_char, begins_with, byte_len, byte_length, contains_adjacent, contains_char,
    ends_with, ends_with_char, find_char, has_adjacent, has_any, has_only, last_position,
    lemma_last_position, lemma_position, position, rfind_char, starts_with_char, CharClass,
};

verus! {

/// The least number of bytes of an email address.
pub const MIN_EMAIL_LENGTH: usize = 5;

/// The greatest number of bytes of an email address.
pub const MAX_EMAIL_LENGTH: usize = 254;

/// The least number of bytes before the first dot of a domain.
pub const MIN_DOMAIN_SEGMENT_LENGTH: usize = 2;

/// The least number of bytes after the last dot of a domain.
pub const MIN_TLD_LENGTH: usize = 2;

/// Whether `address` is an email address by the grammar of email addresses.
pub uninterp spec fn email_grammar_accepts(address: Seq<char>) -> bool;

/// `EmailAddress::is_valid` of email_address parses `address` by the grammar
/// of RFC 5322 with the crate's default options and tells whether that
/// succeeded. The answer depends on `address` alone.
pub assume_specification[ EmailAddress::is_valid ](address: &str) -> (ok: bool)
    ensures
        ok == email_grammar_accepts(address@),
;

/// The length of `email` lies between 5 and 254 bytes.
pub open spec fn valid_length(email: Seq<char>) -> bool {
    MIN_EMAIL_LENGTH <= byte_len(email) <= MAX_EMAIL_LENGTH
}

/// `email` holds an `@` and a dot.
pub open spec fn at_and_dot(email: Seq<char>) -> bool {
    email.contains('@') && email.contains('.')
}

/// `email` holds an `@` and a dot, and its first `@` stands before its last
/// dot.
pub open spec fn at_before_last_dot(email: Seq<char>) -> bool {
    at_and_dot(email) && position(email, '@') < last_position(email, '.')
}

/// `email` holds a space or a character outside ASCII.
pub open spec fn invalid_chars(email: Seq<char>) -> bool {
    has_any(email, CharClass::SpaceOrNonAscii)
}

/// `email` holds two dots in a row.
pub open spec fn consecutive_dots(email: Seq<char>) -> bool {
    has_adjacent(email, '.')
}

/// `email` begins or ends with a dot.
pub open spec fn leading_or_trailing_dot(email: Seq<char>) -> bool {
    begins_with(email, '.') || ends_with(email, '.')
}

/// The domain of `email`: what stands between its first `@` and its second,
/// or between its first `@` and its end where it has one `@` only. None
/// where `email` holds no `@`.
pub open spec fn domain_of(email: Seq<char>) -> Option<Seq<char>> {
    if email.contains('@') {
        let rest = email.skip(position(email, '@') as int + 1);
        Some(rest.take(position(rest, '@') as int))
    } else {
        None
    }
}

/// `email` has a domain, and it begins with a dot.
pub open spec fn domain_begins_with_dot(email: Seq<char>) -> bool {
    domain_of(email) matches Some(domain) && begins_with(domain, '.')
}

/// `domain` is not empty, holds no space, and holds a dot.
pub open spec fn valid_domain(domain: Seq<char>) -> bool {
    domain.len() != 0 && !domain.contains(' ') && domain.contains('.')
}

/// `domain` holds a dot, and at least 2 bytes stand before its first dot.
pub open spec fn valid_domain_length(domain: Seq<char>) -> bool {
    domain.contains('.') && byte_len(domain.take(position(domain, '.') as int))
        >= MIN_DOMAIN_SEGMENT_LENGTH
}

/// What follows the last dot of `domain`. Meant for a domain that holds one.
pub open spec fn tld_of(domain: Seq<char>) -> Seq<char> {
    domain.skip(last_position(domain, '.') + 1)
}

/// `domain` holds a dot, and what follows its last dot has at least 2 bytes
/// and is made of letters.
pub open spec fn valid_tld(domain: Seq<char>) -> bool {
    domain.contains('.') && byte_len(tld_of(domain)) >= MIN_TLD_LENGTH && has_only(
        tld_of(domain),
        CharClass::Alphabetic,
    )
}

/// Whether the length of `email` lies between 5 and 254 bytes.
pub fn is_valid_length(email: &str) -> (valid: bool)
    ensures
        valid == valid_length(email@),
{
    let length = byte_length(email);
    length >= MIN_EMAIL_LENGTH && length <= MAX_EMAIL_LENGTH
}

/// Whether `email` holds an `@` and a dot.
pub fn contains_at_and_dot(email: &str) -> (both: bool)
    ensures
        both == at_and_dot(email@),
{
    contains_char(email, '@') && contains_char(email, '.')
}

/// Whether `email` holds an `@` and a dot, the first `@` before the last dot.
pub fn is_at_before_last_dot(email: &str) -> (before: bool)
    ensures
        before == at_before_last_dot(email@),
{
    proof {
        lemma_position(email@, '@');
        lemma_last_position(email@, '.');
    }
    match find_char(email, '@') {
        Some(at) => match rfind_char(email, '.') {
            Some(dot) => at < dot,
            None => false,
        },
        None => false,
    }
}

/// Whether `email` holds a space or a character outside ASCII.
pub fn contains_invalid_chars(email: &str) -> (invalid: bool)
    ensures
        invalid == invalid_chars(email@),
{
    any_char(email, CharClass::SpaceOrNonAscii)
}

/// Whether `email` holds two dots in a row.
pub fn contains_consecutive_dots(email: &str) -> (found: bool)
    ensures
        found == consecutive_dots(email@),
{
    contains_adjacent(email, '.')
}

/// Whether `email` begins or ends with a dot.
pub fn starts_or_ends_with_dot(email: &str) -> (dot: bool)
    ensures
        dot == leading_or_trailing_dot(email@),
{
    starts_with_char(email, '.') || ends_with_char(email, '.')
}

/// The domain of `email`, where it has one.
pub fn get_domain(email: &str) -> (domain: Option<&str>)
    ensures
        text_of(domain) == domain_of(email@),
{
    proof {
        lemma_position(email@, '@');
    }
    match find_char(email, '@') {
        None => None,
        Some(at) => {
            let length = email.unicode_len();
            let rest = email.substring_char(at + 1, length);
            assert(rest@ == email@.skip(at + 1));
            match find_char(rest, '@') {
                Some(end) => Some(rest.substring_char(0, end)),
                None => {
                    assert(rest@.take(rest@.len() as int) == rest@);
                    Some(rest)
                },
            }
        },
    }
}

/// Whether `email` has a domain that begins with a dot.
pub fn domain_starts_with_dot(email: &str) -> (dot: bool)
    ensures
        dot == domain_begins_with_dot(email@),
{
    match get_domain(email) {
        Some(domain) => starts_with_char(domain, '.'),
        None => false,
    }
}

/// Whether `domain` is not empty, holds no space, and holds a dot.
pub fn is_valid_domain(domain: &str) -> (valid: bool)
    ensures
        valid == valid_domain(domain@),
{
    !domain.is_empty() && !contains_char(domain, ' ') && contains_char(domain, '.')
}

/// Whether `domain` holds a dot with at least 2 bytes before the first one.
pub fn has_valid_domain_length(domain: &str) -> (valid: bool)
    ensures
        valid == valid_domain_length(domain@),
{
    proof {
        lemma_position(domain@, '.');
    }
    match find_char(domain, '.') {
        Some(first_dot) => byte_length(domain.substring_char(0, first_dot))
            >= MIN_DOMAIN_SEGMENT_LENGTH,
        None => false,
    }
}

/// Whether `domain` holds a dot, and what follows the last one has at least
/// 2 bytes and is made of letters.
pub fn has_valid_tld(domain: &str) -> (valid: bool)
    ensures
        valid == valid_tld(domain@),
{
    proof {
        lemma_last_position(domain@, '.');
    }
    match rfind_char(domain, '.') {
        Some(last_dot) => {
            let length = domain.unicode_len();
            let tld = domain.substring_char(last_dot + 1, length);
            assert(tld@ == tld_of(domain@));
            byte_length(tld) >= MIN_TLD_LENGTH && all_chars(tld, CharClass::Alphabetic)
        },
        None => false,
    }
}

/// An email address is rejected where it has fewer than 5 bytes.
pub fn has_min_length(email: &str, messages: &Messages) -> (result: ValidationResult)
    ensures
        failure_of(result) == ValidationRule::EmailMinLength.verdict(email@, messages@),
{
    if byte_length(email) < MIN_EMAIL_LENGTH {
        Err(
            messages.get_validation_message(
                "email.too_short",
                "Email must be at least 5 characters",
            ),
        )
    } else {
        Ok(())
    }
}

/// An email address is rejected where it has more than 254 bytes.
pub fn has_max_length(email: &str, messages: &Messages) -> (result: ValidationResult)
    ensures
        failure_of(result) == ValidationRule::EmailMaxLength.verdict(email@, messages@),
{
    if byte_length(email) > MAX_EMAIL_LENGTH {
        Err(
            messages.get_validation_message(
                "email.too_long",
                "Email must be less than 254 characters",
            ),
        )
    } else {
        Ok(())
    }
}

/// An email address is rejected where it lacks an `@` or a dot. The message
/// is the catalog's text for a missing `@`; where the catalog has none, its
/// text for a missing dot; where it has neither, the English text.
pub fn has_at_and_dot(email: &str, messages: &Messages) -> (result: ValidationResult)
    ensures
        failure_of(result) == ValidationRule::EmailAtAndDot.verdict(email@, messages@),
{
    if !contains_at_and_dot(email) {
        let missing_at = messages.get_validation_message("email.missing_at", "");
        let missing_dot = messages.get_validation_message("email.missing_dot", "");
        if !missing_at.as_str().is_empty() {
            Err(missing_at)
        } else if !missing_dot.as_str().is_empty() {
            Err(missing_dot)
        } else {
            Err("Email must contain '@' and '.'".to_string())
        }
    } else {
        Ok(())
    }
}

/// An email address that holds an `@` and a dot is rejected where its first
/// `@` does not stand before its last dot.
pub fn is_at_before_dot(email: &str, messages: &Messages) -> (result: ValidationResult)
    ensures
        failure_of(result) == ValidationRule::EmailAtBeforeDot.verdict(email@, messages@),
{
    if contains_at_and_dot(email) && !is_at_before_last_dot(email) {
        Err(
            messages.get_validation_message(
                "email.at_before_dot",
                "The '@' must come before the last '.'",
            ),
        )
    } else {
        Ok(())
    }
}

/// An email address is rejected where it holds a space or a character
/// outside ASCII.
pub fn has_no_invalid_chars(email: &str, messages: &Messages) -> (result: ValidationResult)
    ensures
        failure_of(result) == ValidationRule::EmailNoInvalidChars.verdict(email@, messages@),
{
    if contains_invalid_chars(email) {
        Err(
            messages.get_validation_message(
                "email.invalid_chars",
                "Email must not contain spaces or non-ASCII characters",
            ),
        )
    } else {
        Ok(())
    }
}

/// An email address is rejected where it holds two dots in a row.
pub fn has_no_consecutive_dots(email: &str, messages: &Messages) -> (result: ValidationResult)
    ensures
        failure_of(result) == ValidationRule::EmailNoConsecutiveDots.verdict(email@, messages@),
{
    if contains_consecutive_dots(email) {
        Err(
            messages.get_validation_message(
                "email.consecutive_dots",
                "Email must not contain consecutive dots",
            ),
        )
    } else {
        Ok(())
    }
}

/// An email address is rejected where it begins or ends with a dot.
pub fn has_no_leading_or_trailing_dot(email: &str, messages: &Messages) -> (result:
    ValidationResult)
    ensures
        failure_of(result) == ValidationRule::EmailNoLeadingOrTrailingDot.verdict(
            email@,
            messages@,
        ),
{
    if starts_or_ends_with_dot(email) {
        Err(
            messages.get_validation_message(
                "email.starts_or_ends_with_dot",
                "Email must not start or end with a dot",
            ),
        )
    } else {
        Ok(())
    }
}

/// An email address is rejected where its domain begins with a dot.
pub fn domain_starts_without_dot(email: &str, messages: &Messages) -> (result: ValidationResult)
    ensures
        failure_of(result) == ValidationRule::EmailDomainStartsWithoutDot.verdict(
            email@,
            messages@,
        ),
{
    if domain_starts_with_dot(email) {
        Err(
            messages.get_validation_message(
                "email.domain_starts_with_dot",
                "The domain part must not start with a dot",
            ),
        )
    } else {
        Ok(())
    }
}

/// An email address is rejected where it has no domain.
pub fn domain_exists(email: &str, messages: &Messages) -> (result: ValidationResult)
    ensures
        failure_of(result) == ValidationRule::EmailDomainExists.verdict(email@, messages@),
{
    if get_domain(email).is_none() {
        Err(
            messages.get_validation_message(
                "email.missing_domain",
                "Email must have a domain part after '@'",
            ),
        )
    } else {
        Ok(())
    }
}

/// An email address is rejected where its domain is empty, holds a space,
/// or holds no dot.
pub fn is_structure_valid_domain(email: &str, messages: &Messages) -> (result: ValidationResult)
    ensures
        failure_of(result) == ValidationRule::EmailDomainStructure.verdict(email@, messages@),
{
    let broken = match get_domain(email) {
        Some(domain) => !is_valid_domain(domain),
        None => false,
    };
    if broken {
        Err(
            messages.get_validation_message(
                "email.invalid_domain",
                "The domain part of the email is invalid",
            ),
        )
    } else {
        Ok(())
    }
}

/// An email address is rejected where its domain holds a dot and fewer than
/// 2 bytes stand before the first one.
pub fn has_valid_domain_segment_length(email: &str, messages: &Messages) -> (result:
    ValidationResult)
    ensures
        failure_of(result) == ValidationRule::EmailDomainSegmentLength.verdict(email@, messages@),
{
    let broken = match get_domain(email) {
        Some(domain) => contains_char(domain, '.') && !has_valid_domain_length(domain),
        None => false,
    };
    if broken {
        Err(
            messages.get_validation_message(
                "email.invalid_domain_length",
                "The domain part (after '@') must have at least 2 characters before the first dot",
            ),
        )
    } else {
        Ok(())
    }
}

/// An email address is rejected where its domain holds a dot and what
/// follows the last one has fewer than 2 bytes or is not made of letters.
pub fn has_valid_tld_format(email: &str, messages: &Messages) -> (result: ValidationResult)
    ensures
        failure_of(result) == ValidationRule::EmailTldFormat.verdict(email@, messages@),
{
    let broken = match get_domain(email) {
        Some(domain) => contains_char(domain, '.') && !has_valid_tld(domain),
        None => false,
    };
    if broken {
        Err(
            messages.get_validation_message(
                "email.invalid_tld",
                "The TLD (after the last '.') must be at least 2 characters long and alphabetic",
            ),
        )
    } else {
        Ok(())
    }
}

/// What the rule of the grammar answers, given whether the grammar accepts
/// the address.
pub open spec fn format_verdict(well_formed: bool, messages: MessagesView) -> Option<Seq<char>> {
    if well_formed {
        None
    } else {
        Some(ValidationRule::EmailFormat.message(messages.validation))
    }
}

/// The answer of the rule of the grammar, given whether the grammar accepts
/// the address.
pub fn format_result(well_formed: bool, messages: &Messages) -> (result: ValidationResult)
    ensures
        failure_of(result) == format_verdict(well_formed, messages@),
{
    if !well_formed {
        Err(messages.get_validation_message("email.invalid", "Invalid email format"))
    } else {
        Ok(())
    }
}

/// An email address is rejected where the grammar of email addresses does
/// not accept it.
pub fn is_overall_format_valid(email: &str, messages: &Messages) -> (result: ValidationResult)
    ensures
        failure_of(result) == ValidationRule::EmailFormat.verdict(email@, messages@),
{
    format_result(EmailAddress::is_valid(email), messages)
}

/// The structural rules for an email address, in the order in which their
/// messages are given.
pub open spec fn email_rule_set() -> Seq<ValidationRule> {
    seq![
        ValidationRule::EmailMinLength,
        ValidationRule::EmailMaxLength,
        ValidationRule::EmailAtAndDot,
        ValidationRule::EmailAtBeforeDot,
        ValidationRule::EmailNoInvalidChars,
        ValidationRule::EmailNoConsecutiveDots,
        ValidationRule::EmailNoLeadingOrTrailingDot,
        ValidationRule::EmailDomainStartsWithoutDot,
        ValidationRule::EmailDomainExists,
        ValidationRule::EmailDomainStructure,
        ValidationRule::EmailDomainSegmentLength,
        ValidationRule::EmailTldFormat,
    ]
}

/// The structural rules for an email address.
pub fn email_rules() -> (rules: Vec<ValidationRule>)
    ensures
        rules@ == email_rule_set(),
{
    let rules = vec![
        ValidationRule::EmailMinLength,
        ValidationRule::EmailMaxLength,
        ValidationRule::EmailAtAndDot,
        ValidationRule::EmailAtBeforeDot,
        ValidationRule::EmailNoInvalidChars,
        ValidationRule::EmailNoConsecutiveDots,
        ValidationRule::EmailNoLeadingOrTrailingDot,
        ValidationRule::EmailDomainStartsWithoutDot,
        ValidationRule::EmailDomainExists,
        ValidationRule::EmailDomainStructure,
        ValidationRule::EmailDomainSegmentLength,
        ValidationRule::EmailTldFormat,
    ];
    assert(rules@ =~= email_rule_set());
    rules
}

/// The failures of an email address, from those of the structural rules:
/// where there are any, they stand; where there are none, the grammar has
/// the last word.
pub open spec fn with_format_check(
    structural: Seq<Seq<char>>,
    well_formed: bool,
    messages: MessagesView,
) -> Seq<Seq<char>> {
    if structural.len() == 0 {
        noted(structural, format_verdict(well_formed, messages))
    } else {
        structural
    }
}

/// What the rules for an email address make of `email`, given whether the
/// grammar accepts it.
pub open spec fn email_outcome_given(
    email: Seq<char>,
    well_formed: bool,
    messages: MessagesView,
) -> Option<ErrorRecord> {
    field_verdict(
        "email"@,
        email,
        with_format_check(
            failure_messages(email_rule_set(), email, messages),
            well_formed,
            messages,
        ),
    )
}

/// What the rules for an email address make of `email`.
pub open spec fn email_outcome(email: Seq<char>, messages: MessagesView) -> Option<ErrorRecord> {
    email_outcome_given(email, email_grammar_accepts(email), messages)
}

/// The last step of the validation of an email address: from the failures
/// of the structural rules and the answer of the grammar to the result. The
/// answer of the grammar counts only where no structural rule failed.
pub fn conclude_email(
    email: &str,
    structural: Vec<String>,
    well_formed: bool,
    messages: &Messages,
) -> (result: Result<(), ValidationError>)
    ensures
        rejection_of(result) == field_verdict(
            "email"@,
            email@,
            with_format_check(structural.deep_view(), well_formed, messages@),
        ),
{
    let mut failures = structural;
    assert(failures.deep_view().len() == failures.len());
    if failures.len() == 0 {
        note_failure(&mut failures, format_result(well_formed, messages));
    }
    into_result(field_error("email", email, &failures))
}

/// Validates an email address. The error, where there is one, has the code
/// `email.invalid` and names every structural rule that the address breaks,
/// or the grammar where it breaks none of them.
pub fn validate_email(email: &str, messages: &Messages) -> (result: Result<(), ValidationError>)
    ensures
        rejection_of(result) == email_outcome(email@, messages@),
{
    let rules = email_rules();
    let structural = collect_failures(email, &rules, messages);
    assert(structural.deep_view().len() == structural.len());
    let well_formed = if structural.len() == 0 {
        EmailAddress::is_valid(email)
    } else {
        true
    };
    conclude_email(email, structural, well_formed, messages)
}

} // verus!
