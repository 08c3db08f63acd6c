//! The supported languages, the message namespaces, and the choice of a
//! language from a request's language preference.

use vstd::prelude::*;
use vstd::string::StrSliceExecFns;
use vstd::string::StringExecFns;
use crate::text::{chars_of, find_char, position};

verus! {

/// A supported language.
#[derive(Debug, Clone, Copy, PartialEq, Eq, Structural, Hash)]
pub enum Lang {
    En,
    Id,
    De,
    Ja,
}

/// A partition of the messages by concern. Each has one catalog per language.
#[derive(Debug, Clone, Copy, PartialEq, Eq, Structural, Hash)]
pub enum Namespace {
    Validation,
    User,
    Auth,
}

/// `c`, or its lower-case form where `c` is one of `A` to `Z`.
pub open spec fn ascii_lower(c: char) -> char {
    if 'A' <= c && c <= 'Z' {
        ((c as u8) + 32) as char
    } else {
        c
    }
}

/// `s` with each of `A` to `Z` replaced by its lower-case form.
pub open spec fn ascii_lowercase(s: Seq<char>) -> Seq<char> {
    Seq::new(s.len(), |i: int| ascii_lower(s[i]))
}

/// The first language tag of a preference list, up to its first hyphen: what
/// stands before the first comma, and of that what stands before the first `-`.
pub open spec fn primary_subtag(header: Seq<char>) -> Seq<char> {
    let first = header.take(position(header, ',') as int);
    first.take(position(first, '-') as int)
}

impl Lang {
    /// The language that every unknown or absent code stands for.
    pub open spec fn fallback() -> Lang {
        Lang::En
    }

    /// The language that is written exactly as `code`, if there is one.
    pub open spec fn named(code: Seq<char>) -> Option<Lang> {
        if code == seq!['i', 'd'] {
            Some(Lang::Id)
        } else if code == seq!['d', 'e'] {
            Some(Lang::De)
        } else if code == seq!['j', 'a'] {
            Some(Lang::Ja)
        } else if code == seq!['e', 'n'] {
            Some(Lang::En)
        } else {
            None
        }
    }

    /// The language for `code`, whatever the case of its ASCII letters; the
    /// fallback where no language has that code.
    pub open spec fn of_code(code: Seq<char>) -> Lang {
        match Lang::named(ascii_lowercase(code)) {
            Some(lang) => lang,
            None => Lang::fallback(),
        }
    }

    /// The language that a preference list selects: the one named by the
    /// primary subtag of its first entry. Quality weights are not read. An
    /// absent list selects the fallback.
    pub open spec fn of_preference(header: Option<Seq<char>>) -> Lang {
        match header {
            Some(h) => Lang::of_code(primary_subtag(h)),
            None => Lang::fallback(),
        }
    }

    /// The code of the language, which is also the name of its directory.
    pub open spec fn code_text(self) -> Seq<char> {
        match self {
            Lang::En => seq!['e', 'n'],
            Lang::Id => seq!['i', 'd'],
            Lang::De => seq!['d', 'e'],
            Lang::Ja => seq!['j', 'a'],
        }
    }

    /// The language for a language code. Never fails: an unknown code gives
    /// the fallback language.
    pub fn from_code(code: &str) -> (lang: Lang)
        ensures
            lang == Lang::of_code(code@),
    {
        let v = chars_of(code);
        let ghost lowered = ascii_lowercase(code@);
        if v.len() != 2 {
            assert(lowered.len() != 2);
            assert(seq!['i', 'd'].len() == 2 && seq!['d', 'e'].len() == 2);
            assert(seq!['j', 'a'].len() == 2 && seq!['e', 'n'].len() == 2);
            return Lang::En;
        }
        let a = to_ascii_lower(v[0]);
        let b = to_ascii_lower(v[1]);
        assert(lowered =~= seq![a, b]);
        assert(seq![a, b][0] == a && seq![a, b][1] == b);
        if a == 'i' && b == 'd' {
            Lang::Id
        } else if a == 'd' && b == 'e' {
            Lang::De
        } else if a == 'j' && b == 'a' {
            Lang::Ja
        } else {
            Lang::En
        }
    }

    /// The code of the language.
    pub fn code(&self) -> (code: &'static str)
        ensures
            code@ == self.code_text(),
    {
        match self {
            Lang::En => {
                proof {
                    reveal_strlit("en");
                }
                assert("en"@ =~= seq!['e', 'n']);
                "en"
            },
            Lang::Id => {
                proof {
                    reveal_strlit("id");
                }
                assert("id"@ =~= seq!['i', 'd']);
                "id"
            },
            Lang::De => {
                proof {
                    reveal_strlit("de");
                }
                assert("de"@ =~= seq!['d', 'e']);
                "de"
            },
            Lang::Ja => {
                proof {
                    reveal_strlit("ja");
                }
                assert("ja"@ =~= seq!['j', 'a']);
                "ja"
            },
        }
    }
}

impl Namespace {
    /// The name of the namespace, which is also the stem of its file's name.
    pub open spec fn name_text(self) -> Seq<char> {
        match self {
            Namespace::Validation => "validation"@,
            Namespace::User => "user"@,
            Namespace::Auth => "auth"@,
        }
    }

    /// The name of the namespace.
    pub fn name(&self) -> (name: &'static str)
        ensures
            name@ == self.name_text(),
    {
        match self {
            Namespace::Validation => "validation",
            Namespace::User => "user",
            Namespace::Auth => "auth",
        }
    }
}

/// Where the catalog of `namespace` in `lang` is kept.
pub open spec fn message_file_path_text(lang: Lang, namespace: Namespace) -> Seq<char> {
    "locales/"@ + lang.code_text() + "/"@ + namespace.name_text() + ".json"@
}

/// Where the catalog of `namespace` in `lang` is kept: one file per language
/// and namespace.
pub fn message_file_path(lang: Lang, namespace: Namespace) -> (path: String)
    ensures
        path@ == message_file_path_text(lang, namespace),
{
    let mut path = String::from_str("locales/");
    path.append(lang.code());
    path.append("/");
    path.append(namespace.name());
    path.append(".json");
    path
}

/// The lower-case form of `c` where `c` is one of `A` to `Z`, else `c`.
pub fn to_ascii_lower(c: char) -> (lower: char)
    ensures
        lower == ascii_lower(c),
{
    if c >= 'A' && c <= 'Z' {
        ((c as u8) + 32) as char
    } else {
        c
    }
}

/// The language that a request asks for, from the value of its language
/// preference header. Only the primary subtag of the first entry counts.
pub fn get_lang(header: Option<&str>) -> (lang: Lang)
    ensures
        lang == Lang::of_preference(
            match header {
                Some(h) => Some(h@),
                None => None,
            },
        ),
{
    match header {
        None => Lang::En,
        Some(h) => {
            let first = match find_char(h, ',') {
                Some(end) => h.substring_char(0, end),
                None => {
                    assert(h@.take(h@.len() as int) == h@);
                    h
                },
            };
            let primary = match find_char(first, '-') {
                Some(end) => first.substring_char(0, end),
                None => {
                    assert(first@.take(first@.len() as int) == first@);
                    first
                },
            };
            Lang::from_code(primary)
        },
    }
}

} // verus!
