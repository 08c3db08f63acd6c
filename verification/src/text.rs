//! Character and string primitives that the validation rules are built from.
//!
//! Strings are modelled by their view, a `Seq<char>`. The length of a name
//! is its number of characters. The lengths of an email address, of its
//! parts and of a password are lengths in bytes of the UTF-8 encoding, as
//! `str::len` gives them. Positions are positions of characters.

use vstd::prelude::*;
use vstd::utf8::encode_utf8;

verus! {

/// Whether `c`, a character outside ASCII, has the Unicode property
/// `Alphabetic`.
pub uninterp spec fn char_is_alphabetic(c: char) -> bool;

/// Whether `c`, a character outside ASCII, has the Unicode property
/// `White_Space`.
pub uninterp spec fn char_is_whitespace(c: char) -> bool;

/// Whether `c`, a character outside ASCII, is a letter or a number in the
/// sense of Unicode: it has the property `Alphabetic` or one of the general
/// categories `Nd`, `Nl`, `No`.
pub uninterp spec fn char_is_alphanumeric(c: char) -> bool;

/// `c` is one of `a` to `z` or of `A` to `Z`.
pub open spec fn is_ascii_letter(c: char) -> bool {
    ('a' <= c && c <= 'z') || ('A' <= c && c <= 'Z')
}

/// `c` is one of `0` to `9`.
pub open spec fn is_ascii_digit(c: char) -> bool {
    '0' <= c && c <= '9'
}

/// `c` is the space or one of the five controls from the tabulator to the
/// carriage return.
pub open spec fn is_ascii_space(c: char) -> bool {
    c == ' ' || ('\u{9}' <= c && c <= '\u{d}')
}

/// `c` is a letter: within ASCII one of the 52 letters, outside ASCII what
/// Unicode calls alphabetic.
pub open spec fn alphabetic(c: char) -> bool {
    if c <= '\u{7f}' {
        is_ascii_letter(c)
    } else {
        char_is_alphabetic(c)
    }
}

/// `c` is white space: within ASCII the space and the five controls from the
/// tabulator to the carriage return, outside ASCII what Unicode calls white
/// space.
pub open spec fn whitespace(c: char) -> bool {
    if c <= '\u{7f}' {
        is_ascii_space(c)
    } else {
        char_is_whitespace(c)
    }
}

/// `c` is a letter or a number: within ASCII one of the 52 letters and 10
/// digits, outside ASCII what Unicode calls alphabetic or numeric.
pub open spec fn alphanumeric(c: char) -> bool {
    if c <= '\u{7f}' {
        is_ascii_letter(c) || is_ascii_digit(c)
    } else {
        char_is_alphanumeric(c)
    }
}

/// `char::is_alphabetic` of std tells whether `c` has the Unicode property
/// `Alphabetic`. Within ASCII these are the letters `a` to `z` and `A` to
/// `Z` and nothing else; outside ASCII the table of the property is named,
/// not written out. The result depends on `c` alone.
pub assume_specification[ char::is_alphabetic ](c: char) -> (b: bool)
    ensures
        b == (if c <= '\u{7f}' {
            is_ascii_letter(c)
        } else {
            char_is_alphabetic(c)
        }),
;

/// `char::is_whitespace` of std tells whether `c` has the Unicode property
/// `White_Space`. Within ASCII these are the space and U+0009 to U+000D and
/// nothing else; outside ASCII the table of the property is named, not
/// written out. The result depends on `c` alone.
pub assume_specification[ char::is_whitespace ](c: char) -> (b: bool)
    ensures
        b == (if c <= '\u{7f}' {
            is_ascii_space(c)
        } else {
            char_is_whitespace(c)
        }),
;

/// `char::is_alphanumeric` of std tells whether `c` is alphabetic or
/// numeric. Within ASCII these are the letters and the digits `0` to `9` and
/// nothing else; outside ASCII the tables are named, not written out. The
/// result depends on `c` alone.
pub assume_specification[ char::is_alphanumeric ](c: char) -> (b: bool)
    ensures
        b == (if c <= '\u{7f}' {
            is_ascii_letter(c) || is_ascii_digit(c)
        } else {
            char_is_alphanumeric(c)
        }),
;

/// A set of characters that a rule asks about.
#[derive(Clone, Copy, Debug)]
pub enum CharClass {
    /// The one character given.
    Is(char),
    /// `A` to `Z`.
    AsciiUppercase,
    /// `a` to `z`.
    AsciiLowercase,
    /// `0` to `9`.
    AsciiDigit,
    /// Unicode letters.
    Alphabetic,
    /// Unicode white space.
    Whitespace,
    /// Unicode letters and white space: what a name may hold.
    AlphabeticOrWhitespace,
    /// Everything that is neither a Unicode letter nor a Unicode number.
    Special,
    /// The space character and everything outside ASCII: what an email
    /// address may not hold.
    SpaceOrNonAscii,
}

impl CharClass {
    /// Whether `c` belongs to the class.
    pub open spec fn holds(self, c: char) -> bool {
        match self {
            CharClass::Is(x) => c == x,
            CharClass::AsciiUppercase => 'A' <= c && c <= 'Z',
            CharClass::AsciiLowercase => 'a' <= c && c <= 'z',
            CharClass::AsciiDigit => is_ascii_digit(c),
            CharClass::Alphabetic => alphabetic(c),
            CharClass::Whitespace => whitespace(c),
            CharClass::AlphabeticOrWhitespace => alphabetic(c) || whitespace(c),
            CharClass::Special => !alphanumeric(c),
            CharClass::SpaceOrNonAscii => c == ' ' || c > '\u{7f}',
        }
    }

    /// Tests one character.
    pub fn test(&self, c: char) -> (b: bool)
        ensures
            b == self.holds(c),
    {
        match self {
            CharClass::Is(x) => c == *x,
            CharClass::AsciiUppercase => c >= 'A' && c <= 'Z',
            CharClass::AsciiLowercase => c >= 'a' && c <= 'z',
            CharClass::AsciiDigit => c >= '0' && c <= '9',
            CharClass::Alphabetic => c.is_alphabetic(),
            CharClass::Whitespace => c.is_whitespace(),
            CharClass::AlphabeticOrWhitespace => c.is_alphabetic() || c.is_whitespace(),
            CharClass::Special => !c.is_alphanumeric(),
            CharClass::SpaceOrNonAscii => c == ' ' || c > '\u{7f}',
        }
    }
}

/// Some character of `s` belongs to `class`.
pub open spec fn has_any(s: Seq<char>, class: CharClass) -> bool {
    exists|i: int| 0 <= i < s.len() && class.holds(#[trigger] s[i])
}

/// Every character of `s` belongs to `class`. True of the empty string.
pub open spec fn has_only(s: Seq<char>, class: CharClass) -> bool {
    forall|i: int| 0 <= i < s.len() ==> class.holds(#[trigger] s[i])
}

/// The number of bytes that `s` takes in UTF-8.
pub open spec fn byte_len(s: Seq<char>) -> nat {
    encode_utf8(s).len()
}

/// The index of the first `c` in `s`, or the length of `s` where there is none.
pub open spec fn position(s: Seq<char>, c: char) -> nat
    decreases s.len(),
{
    if s.len() == 0 {
        0
    } else if s[0] == c {
        0
    } else {
        1 + position(s.drop_first(), c)
    }
}

/// The index of the last `c` in `s`, or -1 where there is none.
pub open spec fn last_position(s: Seq<char>, c: char) -> int
    decreases s.len(),
{
    if s.len() == 0 {
        -1
    } else if s.last() == c {
        s.len() - 1
    } else {
        last_position(s.drop_last(), c)
    }
}

/// `c` stands twice in a row somewhere in `s`.
pub open spec fn has_adjacent(s: Seq<char>, c: char) -> bool {
    exists|i: int| 0 <= i && i + 1 < s.len() && #[trigger] s[i] == c && s[i + 1] == c
}

/// `s` is not empty and begins with `c`.
pub open spec fn begins_with(s: Seq<char>, c: char) -> bool {
    s.len() > 0 && s[0] == c
}

/// `s` is not empty and ends with `c`.
pub open spec fn ends_with(s: Seq<char>, c: char) -> bool {
    s.len() > 0 && s[s.len() - 1] == c
}

/// The pieces of `parts`, with `sep` between each two neighbours.
pub open spec fn joined(parts: Seq<Seq<char>>, sep: Seq<char>) -> Seq<char>
    decreases parts.len(),
{
    if parts.len() == 0 {
        Seq::empty()
    } else if parts.len() == 1 {
        parts[0]
    } else {
        joined(parts.drop_last(), sep) + sep + parts.last()
    }
}

/// What `position` finds: it lies within `s` or at its end, nothing before it
/// is `c`, and where it lies within `s` it is a `c`.
pub proof fn lemma_position(s: Seq<char>, c: char)
    ensures
        position(s, c) <= s.len(),
        forall|j: int| 0 <= j < position(s, c) ==> s[j] != c,
        position(s, c) < s.len() ==> s[position(s, c) as int] == c,
        position(s, c) < s.len() <==> s.contains(c),
    decreases s.len(),
{
    if s.len() == 0 {
    } else if s[0] == c {
        assert(s.contains(c));
    } else {
        let rest = s.drop_first();
        lemma_position(rest, c);
        assert forall|j: int| 0 <= j < position(s, c) implies s[j] != c by {
            if j > 0 {
                assert(s[j] == rest[j - 1]);
            }
        }
        if position(rest, c) < rest.len() {
            assert(s[position(s, c) as int] == rest[position(rest, c) as int]);
            assert(s.contains(c));
        } else {
            assert forall|j: int| 0 <= j < s.len() implies s[j] != c by {}
        }
    }
}

/// The first `c` of `s` is where `position` says.
pub proof fn lemma_position_found(s: Seq<char>, c: char, i: int)
    requires
        0 <= i < s.len(),
        s[i] == c,
        forall|j: int| 0 <= j < i ==> s[j] != c,
    ensures
        position(s, c) == i,
{
    lemma_position(s, c);
    if position(s, c) < i {
        assert(s[position(s, c) as int] == c);
    }
}

/// Without a `c` in it, `s` has its length for position.
pub proof fn lemma_position_absent(s: Seq<char>, c: char)
    requires
        forall|j: int| 0 <= j < s.len() ==> s[j] != c,
    ensures
        position(s, c) == s.len(),
{
    lemma_position(s, c);
    if position(s, c) < s.len() {
        assert(s[position(s, c) as int] == c);
    }
}

/// What `last_position` finds: it lies within `s` or is -1, nothing after it
/// is `c`, and where it lies within `s` it is a `c`.
pub proof fn lemma_last_position(s: Seq<char>, c: char)
    ensures
        -1 <= last_position(s, c) < s.len(),
        forall|j: int| last_position(s, c) < j < s.len() ==> s[j] != c,
        last_position(s, c) >= 0 ==> s[last_position(s, c)] == c,
        last_position(s, c) >= 0 <==> s.contains(c),
    decreases s.len(),
{
    if s.len() == 0 {
    } else if s.last() == c {
        assert(s[s.len() - 1] == c);
    } else {
        let front = s.drop_last();
        lemma_last_position(front, c);
        assert forall|j: int| last_position(s, c) < j < s.len() implies s[j] != c by {
            if j < s.len() - 1 {
                assert(s[j] == front[j]);
            }
        }
        if last_position(front, c) >= 0 {
            assert(s[last_position(s, c)] == front[last_position(front, c)]);
        } else {
            assert forall|j: int| 0 <= j < s.len() implies s[j] != c by {}
        }
    }
}

/// The characters of `s`.
pub fn chars_of(s: &str) -> (v: Vec<char>)
    ensures
        v@ == s@,
{
    let mut v: Vec<char> = Vec::new();
    for c in it: s.chars()
        invariant
            it.seq() == s@,
            v@ == it.seq().take(it.index() as int),
    {
        v.push(c);
    }
    v
}

/// The length of `s` in bytes.
pub fn byte_length(s: &str) -> (n: usize)
    ensures
        n == byte_len(s@),
{
    s.as_bytes().len()
}

/// Whether some character of `s` belongs to `class`.
pub fn any_char(s: &str, class: CharClass) -> (found: bool)
    ensures
        found == has_any(s@, class),
{
    let v = chars_of(s);
    let mut i: usize = 0;
    while i < v.len()
        invariant
            i <= v.len(),
            v@ == s@,
            forall|j: int| 0 <= j < i ==> !class.holds(#[trigger] s@[j]),
        decreases v.len() - i,
    {
        if class.test(v[i]) {
            assert(class.holds(s@[i as int]));
            return true;
        }
        i = i + 1;
    }
    false
}

/// Whether every character of `s` belongs to `class`.
pub fn all_chars(s: &str, class: CharClass) -> (all: bool)
    ensures
        all == has_only(s@, class),
{
    let v = chars_of(s);
    let mut i: usize = 0;
    while i < v.len()
        invariant
            i <= v.len(),
            v@ == s@,
            forall|j: int| 0 <= j < i ==> class.holds(#[trigger] s@[j]),
        decreases v.len() - i,
    {
        if !class.test(v[i]) {
            assert(!class.holds(s@[i as int]));
            return false;
        }
        i = i + 1;
    }
    true
}

/// Whether `c` occurs in `s`.
pub fn contains_char(s: &str, c: char) -> (found: bool)
    ensures
        found == s@.contains(c),
{
    let found = any_char(s, CharClass::Is(c));
    proof {
        if found {
            let i = choose|i: int| 0 <= i < s@.len() && CharClass::Is(c).holds(#[trigger] s@[i]);
            assert(s@[i] == c);
        } else {
            assert forall|i: int| 0 <= i < s@.len() implies s@[i] != c by {
                assert(!CharClass::Is(c).holds(s@[i]));
            }
        }
    }
    found
}

/// The index of the first `c` in `s`, counted in characters.
pub fn find_char(s: &str, c: char) -> (r: Option<usize>)
    ensures
        match r {
            Some(i) => i < s@.len() && i == position(s@, c),
            None => position(s@, c) == s@.len(),
        },
{
    let v = chars_of(s);
    let mut i: usize = 0;
    while i < v.len()
        invariant
            i <= v.len(),
            v@ == s@,
            forall|j: int| 0 <= j < i ==> s@[j] != c,
        decreases v.len() - i,
    {
        if v[i] == c {
            proof {
                lemma_position_found(s@, c, i as int);
            }
            return Some(i);
        }
        i = i + 1;
    }
    proof {
        lemma_position_absent(s@, c);
    }
    None
}

/// The index of the last `c` in `s`, counted in characters.
pub fn rfind_char(s: &str, c: char) -> (r: Option<usize>)
    ensures
        match r {
            Some(i) => i < s@.len() && i == last_position(s@, c),
            None => last_position(s@, c) == -1,
        },
{
    let v = chars_of(s);
    let mut i: usize = v.len();
    proof {
        lemma_last_position(s@, c);
    }
    while i > 0
        invariant
            i <= v.len(),
            v@ == s@,
            forall|j: int| i <= j < s@.len() ==> s@[j] != c,
            -1 <= last_position(s@, c) < s@.len(),
            last_position(s@, c) >= 0 ==> s@[last_position(s@, c)] == c,
            forall|j: int| last_position(s@, c) < j < s@.len() ==> s@[j] != c,
        decreases i,
    {
        i = i - 1;
        if v[i] == c {
            return Some(i);
        }
    }
    None
}

/// Whether `c` stands twice in a row somewhere in `s`.
pub fn contains_adjacent(s: &str, c: char) -> (found: bool)
    ensures
        found == has_adjacent(s@, c),
{
    let v = chars_of(s);
    let mut i: usize = 1;
    while i < v.len()
        invariant
            1 <= i,
            v@ == s@,
            forall|j: int| 0 <= j && j + 1 < i ==> !(#[trigger] s@[j] == c && s@[j + 1] == c),
        decreases v.len() - i,
    {
        if v[i - 1] == c && v[i] == c {
            assert(s@[i - 1] == c && s@[i - 1 + 1] == c);
            return true;
        }
        i = i + 1;
    }
    false
}

/// Whether `s` begins with `c`.
pub fn starts_with_char(s: &str, c: char) -> (b: bool)
    ensures
        b == begins_with(s@, c),
{
    let v = chars_of(s);
    v.len() > 0 && v[0] == c
}

/// Whether `s` ends with `c`.
pub fn ends_with_char(s: &str, c: char) -> (b: bool)
    ensures
        b == ends_with(s@, c),
{
    let v = chars_of(s);
    v.len() > 0 && v[v.len() - 1] == c
}

/// `parts`, with `sep` between each two neighbours.
pub fn join(parts: &Vec<String>, sep: &str) -> (text: String)
    ensures
        text@ == joined(parts.deep_view(), sep@),
{
    let mut text = String::new();
    let mut i: usize = 0;
    while i < parts.len()
        invariant
            i <= parts.len(),
            text@ == joined(parts.deep_view().take(i as int), sep@),
        decreases parts.len() - i,
    {
        let ghost so_far = parts.deep_view().take(i as int);
        let ghost next = parts.deep_view().take(i + 1);
        proof {
            assert(next.drop_last() == so_far);
            assert(next.last() == parts[i as int]@);
        }
        if i > 0 {
            text.append(sep);
        } else {
            assert(text@ + parts[i as int]@ == parts[i as int]@);
        }
        text.append(parts[i].as_str());
        i = i + 1;
    }
    assert(parts.deep_view().take(parts.len() as int) == parts.deep_view());
    text
}

/// Whether `list` holds a string equal to `text`.
pub fn contains_text(list: &Vec<String>, text: &str) -> (found: bool)
    ensures
        found == list.deep_view().contains(text@),
{
    let mut i: usize = 0;
    while i < list.len()
        invariant
            i <= list.len(),
            forall|j: int| 0 <= j < i ==> list.deep_view()[j] != text@,
        decreases list.len() - i,
    {
        if same_text(list[i].as_str(), text) {
            assert(list.deep_view()[i as int] == text@);
            return true;
        }
        i = i + 1;
    }
    false
}

/// Whether `a` and `b` hold the same characters.
pub fn same_text(a: &str, b: &str) -> (same: bool)
    ensures
        same == (a@ == b@),
{
    let x = chars_of(a);
    let y = chars_of(b);
    if x.len() != y.len() {
        return false;
    }
    let mut i: usize = 0;
    while i < x.len()
        invariant
            i <= x.len(),
            x.len() == y.len(),
            x@ == a@,
            y@ == b@,
            forall|j: int| 0 <= j < i ==> a@[j] == b@[j],
        decreases x.len() - i,
    {
        if x[i] != y[i] {
            assert(a@[i as int] != b@[i as int]);
            return false;
        }
        i = i + 1;
    }
    assert(a@ =~= b@);
    true
}

} // verus!
