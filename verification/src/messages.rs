//! Message catalogs and the resolution of a dotted path to a message.
//!
//! A catalog is a JSON document, held as a `serde_json::Value`. What the
//! contracts say of it they say of its shape, a `MessageCatalog`: a tree with
//! strings for leaves. A lookup never fails: every miss gives the fallback
//! that the caller handed in.

use vstd::prelude::*;
use vstd::string::StrSliceExecFns;
use vstd::string::StringExecFns;
use serde_json::Value;
use crate::locale::Namespace;
use crate::text::{chars_of, position, lemma_position, lemma_position_found, lemma_position_absent};

verus! {

/// The shape of a catalog.
pub enum MessageCatalog {
    /// Nothing that a lookup can use: no document at all, or a value that is
    /// neither a string nor an object (a number, a boolean, an array, null).
    Null,
    /// A message.
    Leaf(Seq<char>),
    /// Children by key.
    Branch(Map<Seq<char>, MessageCatalog>),
}

/// `s` cut at each `sep`. The pieces do not hold `sep`; there is always at
/// least one piece, and an empty `s` gives one empty piece.
pub open spec fn split(s: Seq<char>, sep: char) -> Seq<Seq<char>>
    decreases s.len(),
{
    let p = position(s, sep);
    if p >= s.len() {
        seq![s]
    } else {
        seq![s.take(p as int)] + split(s.skip(p as int + 1), sep)
    }
}

impl MessageCatalog {
    /// The child under `key`; none where this is no branch or has no such key.
    pub open spec fn child(self, key: Seq<char>) -> Option<MessageCatalog> {
        match self {
            MessageCatalog::Branch(children) => if children.contains_key(key) {
                Some(children[key])
            } else {
                None
            },
            _ => None,
        }
    }

    /// The message, where this is a leaf.
    pub open spec fn text(self) -> Option<Seq<char>> {
        match self {
            MessageCatalog::Leaf(message) => Some(message),
            _ => None,
        }
    }

    /// The node that is reached by going down one key after the other.
    pub open spec fn descend(self, keys: Seq<Seq<char>>) -> Option<MessageCatalog>
        decreases keys.len(),
    {
        if keys.len() == 0 {
            Some(self)
        } else {
            match self.child(keys[0]) {
                Some(next) => next.descend(keys.drop_first()),
                None => None,
            }
        }
    }

    /// The node at a dotted path: one lookup for each piece between dots.
    pub open spec fn at(self, path: Seq<char>) -> Option<MessageCatalog> {
        self.descend(split(path, '.'))
    }

    /// The message at a dotted path, or `fallback` where the path leads
    /// nowhere or does not end in a leaf.
    pub open spec fn resolve(self, path: Seq<char>, fallback: Seq<char>) -> Seq<char> {
        match self.at(path) {
            Some(MessageCatalog::Leaf(message)) => message,
            _ => fallback,
        }
    }
}

#[verifier::external_type_specification]
#[verifier::external_body]
pub struct ExValue(Value);

/// The shape of a JSON value: a string is a leaf, an object is a branch with
/// the shapes of its members under their keys, and every other value is
/// `Null`.
pub uninterp spec fn json_tree(v: Value) -> MessageCatalog;

/// The shape of the JSON document that `text` is written as, or none where
/// `text` is no JSON document.
pub uninterp spec fn json_document(text: Seq<char>) -> Option<MessageCatalog>;

/// The shape of the value that a lookup handed out.
pub open spec fn tree_of(v: Option<&Value>) -> Option<MessageCatalog> {
    match v {
        Some(v) => Some(json_tree(*v)),
        None => None,
    }
}

/// The characters of a string that may be absent.
pub open spec fn text_of(s: Option<&str>) -> Option<Seq<char>> {
    match s {
        Some(s) => Some(s@),
        None => None,
    }
}

/// The catalog that the content of a catalog file stands for. A file that is
/// missing, or whose content is no JSON document, stands for `Null`.
pub open spec fn catalog_of(content: Option<Seq<char>>) -> MessageCatalog {
    match content {
        Some(text) => match json_document(text) {
            Some(catalog) => catalog,
            None => MessageCatalog::Null,
        },
        None => MessageCatalog::Null,
    }
}

/// `Value::get` of serde_json with a string for index: the member under
/// `key` where `v` is an object that has one, else nothing.
#[verifier::external_body]
fn member<'a>(v: &'a Value, key: &str) -> (r: Option<&'a Value>)
    ensures
        tree_of(r) == json_tree(*v).child(key@),
{
    v.get(key)
}

/// `Value::as_str` of serde_json: the string where `v` is a JSON string,
/// else nothing.
pub assume_specification<'a>[ Value::as_str ](v: &'a Value) -> (r: Option<&'a str>)
    ensures
        text_of(r) == json_tree(*v).text(),
;

/// `serde_json::from_str` at the type `Value`: the value that `text`
/// describes, or nothing where the parser rejects `text`. What a text parses
/// to depends on the text alone.
#[verifier::external_body]
fn parse_json(text: &str) -> (r: Option<Value>)
    ensures
        match r {
            Some(v) => json_document(text@) == Some(json_tree(v)),
            None => json_document(text@) is None,
        },
{
    serde_json::from_str(text).ok()
}

/// The JSON value `null`.
#[verifier::external_body]
fn null_value() -> (v: Value)
    ensures
        json_tree(v) == MessageCatalog::Null,
{
    Value::Null
}

/// The catalog for the content of a catalog file. `None` stands for a file
/// that could not be read. This never fails: a missing or malformed file
/// gives the null catalog, in which every lookup misses.
pub fn load_message_file(content: Option<&str>) -> (catalog: Value)
    ensures
        json_tree(catalog) == catalog_of(text_of(content)),
{
    match content {
        Some(text) => match parse_json(text) {
            Some(catalog) => catalog,
            None => null_value(),
        },
        None => null_value(),
    }
}

/// The catalogs of one language, one for each namespace.
#[derive(Debug)]
pub struct Messages {
    pub user: Value,
    pub validation: Value,
    pub auth: Value,
}

/// The shapes of the catalogs of one language.
pub struct MessagesView {
    pub user: MessageCatalog,
    pub validation: MessageCatalog,
    pub auth: MessageCatalog,
}

impl MessagesView {
    /// The catalog of `namespace`.
    pub open spec fn of(self, namespace: Namespace) -> MessageCatalog {
        match namespace {
            Namespace::User => self.user,
            Namespace::Validation => self.validation,
            Namespace::Auth => self.auth,
        }
    }
}

impl View for Messages {
    type V = MessagesView;

    open spec fn view(&self) -> MessagesView {
        MessagesView {
            user: json_tree(self.user),
            validation: json_tree(self.validation),
            auth: json_tree(self.auth),
        }
    }
}

impl Messages {
    /// The catalogs of one language, from the contents of its three catalog
    /// files. `None` stands for a file that could not be read.
    pub fn new(user: Option<&str>, validation: Option<&str>, auth: Option<&str>) -> (messages:
        Messages)
        ensures
            messages@.user == catalog_of(text_of(user)),
            messages@.validation == catalog_of(text_of(validation)),
            messages@.auth == catalog_of(text_of(auth)),
    {
        Messages {
            user: load_message_file(user),
            validation: load_message_file(validation),
            auth: load_message_file(auth),
        }
    }

    /// The node of the catalog of `namespace` at the dotted `path`.
    pub fn get(&self, namespace: &Namespace, path: &str) -> (node: Option<&Value>)
        ensures
            tree_of(node) == self@.of(*namespace).at(path@),
    {
        let root = match namespace {
            Namespace::User => &self.user,
            Namespace::Validation => &self.validation,
            Namespace::Auth => &self.auth,
        };
        let chars = chars_of(path);
        let mut current = root;
        let mut start: usize = 0;
        let mut i: usize = 0;
        assert(path@.skip(0) == path@);
        while i < chars.len()
            invariant
                start <= i <= chars.len(),
                chars@ == path@,
                json_tree(*root) == self@.of(*namespace),
                forall|j: int| start <= j < i ==> path@[j] != '.',
                json_tree(*root).at(path@) == json_tree(*current).at(path@.skip(start as int)),
            decreases chars.len() - i,
        {
            if chars[i] == '.' {
                let key = path.substring_char(start, i);
                let ghost rest = path@.skip(start as int);
                proof {
                    let tail = split(path@.skip(i + 1), '.');
                    let node = json_tree(*current);
                    lemma_position_found(rest, '.', i - start);
                    assert(rest.take(i - start) == key@);
                    assert(rest.skip(i - start + 1) == path@.skip(i + 1));
                    assert(split(rest, '.') == seq![key@] + tail);
                    assert((seq![key@] + tail)[0] == key@);
                    assert((seq![key@] + tail).drop_first() == tail);
                    assert(node.at(rest) == match node.child(key@) {
                        Some(next) => next.descend(tail),
                        None => None,
                    });
                }
                match member(current, key) {
                    Some(next) => {
                        current = next;
                    },
                    None => {
                        return None;
                    },
                }
                start = i + 1;
            }
            i = i + 1;
        }
        let key = path.substring_char(start, i);
        proof {
            let rest = path@.skip(start as int);
            let node = json_tree(*current);
            lemma_position_absent(rest, '.');
            assert(rest == key@);
            assert(split(rest, '.') == seq![key@]);
            assert(seq![key@][0] == key@);
            assert(seq![key@].drop_first() == Seq::<Seq<char>>::empty());
            assert(node.at(rest) == match node.child(key@) {
                Some(next) => next.descend(Seq::<Seq<char>>::empty()),
                None => None,
            });
        }
        member(current, key)
    }

    /// The message of `namespace` at the dotted `path`, or `fallback` where
    /// there is none.
    pub fn get_str(&self, namespace: Namespace, path: &str, fallback: &str) -> (message: String)
        ensures
            message@ == self@.of(namespace).resolve(path@, fallback@),
    {
        let found = match self.get(&namespace, path) {
            Some(node) => node.as_str(),
            None => None,
        };
        match found {
            Some(message) => String::from_str(message),
            None => String::from_str(fallback),
        }
    }

    /// A message about user accounts.
    pub fn get_user_message(&self, key: &str, default: &str) -> (message: String)
        ensures
            message@ == self@.user.resolve(key@, default@),
    {
        self.get_str(Namespace::User, key, default)
    }

    /// A message about signing in and registering.
    pub fn get_auth_message(&self, key: &str, default: &str) -> (message: String)
        ensures
            message@ == self@.auth.resolve(key@, default@),
    {
        self.get_str(Namespace::Auth, key, default)
    }

    /// A message about a rejected input.
    pub fn get_validation_message(&self, key: &str, default: &str) -> (message: String)
        ensures
            message@ == self@.validation.resolve(key@, default@),
    {
        self.get_str(Namespace::Validation, key, default)
    }
}

/// A path always has at least one piece.
pub proof fn lemma_split_not_empty(s: Seq<char>, sep: char)
    ensures
        split(s, sep).len() >= 1,
    decreases s.len(),
{
    lemma_position(s, sep);
    if position(s, sep) < s.len() {
        lemma_split_not_empty(s.skip(position(s, sep) as int + 1), sep);
    }
}

} // verus!
