//! What holds of the engine as a whole, proved from the contracts of its
//! parts.

use vstd::prelude::*;
use validator::ValidationErrors;
use crate::errors::{field_errors, field_verdict};
use crate::fields::{fields_outcome, is_outcome, FieldModel};
use crate::messages::{catalog_of, lemma_split_not_empty, MessageCatalog, MessagesView};
use crate::rules::{failure_messages, field_outcome, ValidationRule};
use crate::text::{byte_len, has_any, has_only, CharClass};
use crate::validations::email::{email_grammar_accepts, email_outcome, email_rule_set};
use crate::validations::name::{name_outcome, name_rule_set, MAX_NAME_LENGTH, MIN_NAME_LENGTH};
use crate::validations::password::{
    password_outcome, password_rule_set, MAX_PASSWORD_LENGTH, MIN_PASSWORD_LENGTH,
};

verus! {

/// A value keeps every rule of `rules`.
pub open spec fn keeps_all(rules: Seq<ValidationRule>, value: Seq<char>) -> bool {
    forall|i: int| 0 <= i < rules.len() ==> !(#[trigger] rules[i]).broken_by(value)
}

/// The pipeline stops at no rule: whichever rule of the set a value breaks,
/// the message of that rule is among the failures.
pub proof fn lemma_every_broken_rule_is_reported(
    rules: Seq<ValidationRule>,
    value: Seq<char>,
    messages: MessagesView,
    i: int,
)
    requires
        0 <= i < rules.len(),
        rules[i].broken_by(value),
    ensures
        failure_messages(rules, value, messages).contains(rules[i].message(messages.validation)),
    decreases rules.len(),
{
    let earlier = failure_messages(rules.drop_last(), value, messages);
    let all = failure_messages(rules, value, messages);
    let wanted = rules[i].message(messages.validation);
    if i < rules.len() - 1 {
        lemma_every_broken_rule_is_reported(rules.drop_last(), value, messages, i);
        let at = choose|k: int| 0 <= k < earlier.len() && earlier[k] == wanted;
        assert(all[at] == wanted);
    } else {
        if earlier.contains(wanted) {
        } else {
            assert(all == earlier.push(wanted));
            assert(all[earlier.len() as int] == wanted);
        }
    }
}

/// A set of rules gives no failure for exactly the values that keep every
/// rule of it.
pub proof fn lemma_no_failure_iff_all_rules_kept(
    rules: Seq<ValidationRule>,
    value: Seq<char>,
    messages: MessagesView,
)
    ensures
        failure_messages(rules, value, messages).len() == 0 <==> keeps_all(rules, value),
    decreases rules.len(),
{
    if rules.len() > 0 {
        let front = rules.drop_last();
        lemma_no_failure_iff_all_rules_kept(front, value, messages);
        if keeps_all(rules, value) {
            assert forall|i: int| 0 <= i < front.len() implies !(#[trigger] front[i]).broken_by(
                value,
            ) by {
                assert(front[i] == rules[i]);
            }
            assert(!rules[rules.len() - 1].broken_by(value));
        }
        if failure_messages(rules, value, messages).len() == 0 {
            assert forall|i: int| 0 <= i < rules.len() implies !(#[trigger] rules[i]).broken_by(
                value,
            ) by {
                if i < front.len() {
                    assert(front[i] == rules[i]);
                }
            }
        }
    }
}

/// No text stands twice among the failures of a value, whatever the rules
/// and the catalogs: a message that two rules give in the same words is
/// given once.
pub proof fn lemma_failures_hold_each_text_once(
    rules: Seq<ValidationRule>,
    value: Seq<char>,
    messages: MessagesView,
)
    ensures
        failure_messages(rules, value, messages).no_duplicates(),
    decreases rules.len(),
{
    if rules.len() > 0 {
        lemma_failures_hold_each_text_once(rules.drop_last(), value, messages);
    }
}

/// A field passes for exactly the values that keep every rule of its set.
pub proof fn lemma_field_passes_iff_all_rules_kept(
    field: Seq<char>,
    value: Seq<char>,
    rules: Seq<ValidationRule>,
    messages: MessagesView,
)
    ensures
        field_outcome(field, value, rules, messages) is None <==> keeps_all(rules, value),
{
    lemma_no_failure_iff_all_rules_kept(rules, value, messages);
}

/// A name as it should be: between 2 and 100 characters long, made of
/// letters and white space, and not of white space alone.
pub open spec fn is_valid_name(name: Seq<char>) -> bool {
    &&& MIN_NAME_LENGTH <= name.len() <= MAX_NAME_LENGTH
    &&& has_only(name, CharClass::AlphabeticOrWhitespace)
    &&& !has_only(name, CharClass::Whitespace)
}

/// The rules for a name accept every valid name, whatever the catalogs
/// hold, and nothing else.
pub proof fn lemma_valid_names_pass(name: Seq<char>, messages: MessagesView)
    ensures
        name_outcome(name, messages) is None <==> is_valid_name(name),
{
    let rules = name_rule_set();
    lemma_no_failure_iff_all_rules_kept(rules, name, messages);
    if keeps_all(rules, name) {
        assert(!rules[0].broken_by(name));
        assert(!rules[1].broken_by(name));
        assert(!rules[2].broken_by(name));
        assert(!rules[3].broken_by(name));
    }
}

/// The empty name is rejected whatever the catalogs hold: the error has the
/// code `name.invalid`, and the message of the rule against empty names is
/// among the failures that its message is made of.
pub proof fn lemma_empty_name_is_rejected(messages: MessagesView)
    ensures
        name_outcome(Seq::empty(), messages) matches Some(record) && record.code
            == "name.invalid"@,
        failure_messages(name_rule_set(), Seq::empty(), messages).contains(
            ValidationRule::NameNotEmpty.message(messages.validation),
        ),
{
    let rules = name_rule_set();
    assert(rules[0].broken_by(Seq::empty()));
    lemma_every_broken_rule_is_reported(rules, Seq::empty(), messages, 0);
    reveal_strlit("name");
    reveal_strlit(".invalid");
    reveal_strlit("name.invalid");
    assert("name"@ + ".invalid"@ =~= "name.invalid"@);
}

/// The code of an error is never blank, whatever the field is called.
pub proof fn lemma_error_code_is_never_blank(
    field: Seq<char>,
    value: Seq<char>,
    failures: Seq<Seq<char>>,
)
    ensures
        field_verdict(field, value, failures) matches Some(record) ==> record.code.len() > 0,
{
    reveal_strlit(".invalid");
}

/// A password as it should be: between 8 and 128 bytes long, without a
/// space, and with a capital, a small letter and a digit of ASCII and a
/// character that is neither letter nor number.
pub open spec fn is_valid_password(password: Seq<char>) -> bool {
    &&& MIN_PASSWORD_LENGTH <= byte_len(password) <= MAX_PASSWORD_LENGTH
    &&& !password.contains(' ')
    &&& has_any(password, CharClass::AsciiUppercase)
    &&& has_any(password, CharClass::AsciiLowercase)
    &&& has_any(password, CharClass::AsciiDigit)
    &&& has_any(password, CharClass::Special)
}

/// The rules for a password accept every valid password, whatever the
/// catalogs hold, and nothing else.
pub proof fn lemma_valid_passwords_pass(password: Seq<char>, messages: MessagesView)
    ensures
        password_outcome(password, messages) is None <==> is_valid_password(password),
{
    let rules = password_rule_set();
    lemma_no_failure_iff_all_rules_kept(rules, password, messages);
    if keeps_all(rules, password) {
        assert(!rules[0].broken_by(password));
        assert(!rules[1].broken_by(password));
        assert(!rules[2].broken_by(password));
        assert(!rules[3].broken_by(password));
        assert(!rules[4].broken_by(password));
        assert(!rules[5].broken_by(password));
        assert(!rules[6].broken_by(password));
    }
}

/// An email address passes where it keeps every structural rule and the
/// grammar accepts it, and nowhere else.
pub proof fn lemma_email_passes_iff_structure_and_grammar(email: Seq<char>, messages: MessagesView)
    ensures
        email_outcome(email, messages) is None <==> keeps_all(email_rule_set(), email)
            && email_grammar_accepts(email),
{
    lemma_no_failure_iff_all_rules_kept(email_rule_set(), email, messages);
}

/// Without a catalog every lookup gives the fallback, word for word: for
/// every path and every fallback.
pub proof fn lemma_missing_catalog_gives_fallback(path: Seq<char>, fallback: Seq<char>)
    ensures
        MessageCatalog::Null.resolve(path, fallback) == fallback,
        catalog_of(None).resolve(path, fallback) == fallback,
{
    lemma_split_not_empty(path, '.');
}

/// A lookup gives either a message of the catalog or the fallback, and the
/// fallback on every miss.
pub proof fn lemma_resolve_gives_leaf_or_fallback(
    catalog: MessageCatalog,
    path: Seq<char>,
    fallback: Seq<char>,
)
    ensures
        match catalog.at(path) {
            Some(MessageCatalog::Leaf(message)) => catalog.resolve(path, fallback) == message,
            _ => catalog.resolve(path, fallback) == fallback,
        },
{
}

/// Validation is repeatable: two runs on the same fields with the same
/// catalogs agree on whether the fields pass and, where they do not, on
/// every error of every field.
pub proof fn lemma_validation_is_repeatable(
    first: Result<(), ValidationErrors>,
    second: Result<(), ValidationErrors>,
    fields: Seq<FieldModel>,
    messages: MessagesView,
)
    requires
        is_outcome(first, fields_outcome(fields, messages)),
        is_outcome(second, fields_outcome(fields, messages)),
    ensures
        first is Ok <==> second is Ok,
        first matches Err(a) ==> second matches Err(b) && field_errors(a) == field_errors(b),
{
}

} // verus!
