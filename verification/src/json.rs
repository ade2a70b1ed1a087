//! JSON documents as trees of plain values, and the parser that reads them.

use crate::text::str_eq;
use vstd::prelude::*;

verus! {

/// `serde_json::Value`, of which nothing is known but what `value_tree`
/// names.
#[verifier::external_type_specification]
#[verifier::external_body]
pub struct ExJsonValue(serde_json::Value);

/// `serde_json::Error`, which is carried to the caller as it is.
#[verifier::external_type_specification]
#[verifier::external_body]
pub struct ExJsonError(serde_json::Error);

/// A JSON value. A number that is no integer of 64 bits keeps only the fact
/// that it is a number.
#[derive(Debug)]
pub enum Json {
    Null,
    Bool(bool),
    Integer(i64),
    Number,
    Text(String),
    Array(Vec<Json>),
    Object(Vec<(String, Json)>),
}

/// The position of the first member named `key` among `members`, if any.
pub open spec fn member_index(members: Seq<(String, Json)>, key: Seq<char>) -> Option<int>
    decreases members.len(),
{
    if members.len() == 0 {
        None
    } else if members[0].0@ == key {
        Some(0)
    } else {
        match member_index(members.drop_first(), key) {
            Some(i) => Some(i + 1),
            None => None,
        }
    }
}

/// The tree that `text` stands for as a JSON document; nothing where `text`
/// is no such document.
pub uninterp spec fn json_document(text: Seq<char>) -> Option<Json>;

/// What a `serde_json::Value` holds, as a tree.
pub uninterp spec fn value_tree(value: serde_json::Value) -> Json;

/// `serde_json::from_str`, read as a `serde_json::Value`: whether `text`
/// parses, and what the value holds where it does, depend on `text` alone.
#[verifier::external_body]
fn parse_value(text: &str) -> (r: Result<serde_json::Value, serde_json::Error>)
    ensures
        r matches Ok(value) ==> json_document(text@) == Some(value_tree(value)),
        r is Err ==> json_document(text@) is None,
{
    serde_json::from_str::<serde_json::Value>(text)
}

/// Moves what a `serde_json::Value` holds into a `Json`, variant by variant;
/// of a number it keeps what `serde_json::Number::as_i64` gives.
#[verifier::external_body]
fn tree_of(value: serde_json::Value) -> (tree: Json)
    ensures
        tree == value_tree(value),
{
    match value {
        serde_json::Value::Null => Json::Null,
        serde_json::Value::Bool(b) => Json::Bool(b),
        serde_json::Value::Number(n) => n.as_i64().map_or(Json::Number, Json::Integer),
        serde_json::Value::String(s) => Json::Text(s),
        serde_json::Value::Array(a) => Json::Array(a.into_iter().map(tree_of).collect()),
        serde_json::Value::Object(o) => Json::Object(
            o.into_iter().map(|(k, v)| (k, tree_of(v))).collect(),
        ),
    }
}

/// Reads `text` as a JSON document. One that does not parse is refused with
/// the parser's error.
pub fn parse_document(text: &str) -> (r: Result<Json, serde_json::Error>)
    ensures
        r matches Ok(tree) ==> json_document(text@) == Some(tree),
        r is Err ==> json_document(text@) is None,
{
    match parse_value(text) {
        Ok(value) => Ok(tree_of(value)),
        Err(e) => Err(e),
    }
}

/// The lower-case hexadecimal digit of `d`.
pub open spec fn hex_lower(d: int) -> char {
    if d < 10 {
        (48 + d) as u8 as char
    } else {
        (87 + d) as u8 as char
    }
}

/// What one character becomes inside a JSON string literal: the double
/// quote and the backslash get a backslash before them; backspace, tab,
/// line feed, form feed and carriage return are written by their letter;
/// any other character below U+0020 is written as `\u00` and its two
/// hexadecimal digits; every other character stands for itself.
pub open spec fn json_escaped_char(c: char) -> Seq<char> {
    if c == '"' {
        seq!['\\', '"']
    } else if c == '\\' {
        seq!['\\', '\\']
    } else if c == '\u{8}' {
        seq!['\\', 'b']
    } else if c == '\t' {
        seq!['\\', 't']
    } else if c == '\n' {
        seq!['\\', 'n']
    } else if c == '\u{c}' {
        seq!['\\', 'f']
    } else if c == '\r' {
        seq!['\\', 'r']
    } else if (c as u32) < 0x20 {
        seq!['\\', 'u', '0', '0', hex_lower(c as u32 as int / 16), hex_lower(c as u32 as int % 16)]
    } else {
        seq![c]
    }
}

/// The characters of `text`, each as it stands inside a JSON string
/// literal.
pub open spec fn json_escaped(text: Seq<char>) -> Seq<char>
    decreases text.len(),
{
    if text.len() == 0 {
        Seq::empty()
    } else {
        json_escaped(text.drop_last()) + json_escaped_char(text.last())
    }
}

/// The JSON string literal that stands for `text`: the text between double
/// quotes, with the escapes that JSON asks for.
pub open spec fn json_string_literal(text: Seq<char>) -> Seq<char> {
    seq!['"'] + json_escaped(text) + seq!['"']
}

/// The text that `serde_json` writes for a `Value::String`, by `to_string`:
/// a double quote, the string with a backslash escape for the double quote,
/// the backslash and each character below U+0020, and a double quote.
#[verifier::external_body]
pub(crate) fn quote(text: &str) -> (literal: String)
    ensures
        literal@ == json_string_literal(text@),
{
    serde_json::Value::from(text).to_string()
}

/// In a list whose first `skipped` members are not named `key`, the search
/// for `key` is the search in the rest, moved by `skipped`.
proof fn lemma_member_index_skip(members: Seq<(String, Json)>, key: Seq<char>, skipped: int)
    requires
        0 <= skipped <= members.len(),
        forall|k: int| 0 <= k < skipped ==> (#[trigger] members[k]).0@ != key,
    ensures
        member_index(members, key) == match member_index(members.skip(skipped), key) {
            Some(i) => Some(i + skipped),
            None => None,
        },
    decreases skipped,
{
    if skipped == 0 {
        assert(members.skip(0) =~= members);
    } else {
        let rest = members.drop_first();
        lemma_member_index_skip(rest, key, skipped - 1);
        assert(rest.skip(skipped - 1) =~= members.skip(skipped));
    }
}

impl Json {
    /// The member named `key` of an object; nothing where there is none or
    /// the value is no object.
    pub fn member(&self, key: &str) -> (r: Option<&Json>)
        ensures
            r matches Some(j) ==> self.spec_member(key@) == Some(*j),
            r is None ==> self.spec_member(key@) is None,
    {
        match self {
            Json::Object(members) => {
                let mut i: usize = 0;
                while i < members.len()
                    invariant
                        i <= members.len(),
                        self is Object && self->Object_0 == *members,
                        forall|k: int| 0 <= k < i ==> (#[trigger] members@[k]).0@ != key@,
                    decreases members.len() - i,
                {
                    if str_eq(members[i].0.as_str(), key) {
                        proof {
                            lemma_member_index_skip(members@, key@, i as int);
                        }
                        return Some(&members[i].1);
                    }
                    i += 1;
                }
                proof {
                    lemma_member_index_skip(members@, key@, i as int);
                }
                None
            },
            _ => None,
        }
    }

    /// The member named `key`, where this value is an object that has one.
    pub open spec fn spec_member(&self, key: Seq<char>) -> Option<Json> {
        match self {
            Json::Object(members) => match member_index(members@, key) {
                Some(i) => Some(members@[i].1),
                None => None,
            },
            _ => None,
        }
    }

    /// The element at `index`, where this value is an array that long.
    pub open spec fn spec_element(&self, index: int) -> Option<Json> {
        match self {
            Json::Array(elements) => if 0 <= index < elements@.len() {
                Some(elements@[index])
            } else {
                None
            },
            _ => None,
        }
    }

    /// The text of this value, where it is a string.
    pub open spec fn spec_text(&self) -> Option<Seq<char>> {
        match self {
            Json::Text(s) => Some(s@),
            _ => None,
        }
    }

    /// The integer of this value, where it is one.
    pub open spec fn spec_integer(&self) -> Option<i64> {
        match self {
            Json::Integer(i) => Some(*i),
            _ => None,
        }
    }

    /// The element at `index` of an array; nothing for any other value.
    pub fn element(&self, index: usize) -> (r: Option<&Json>)
        ensures
            r matches Some(j) ==> self.spec_element(index as int) == Some(*j),
            r is None ==> self.spec_element(index as int) is None,
    {
        match self {
            Json::Array(elements) => if index < elements.len() {
                Some(&elements[index])
            } else {
                None
            },
            _ => None,
        }
    }

    /// The text of a string; nothing for any other value.
    pub fn text(&self) -> (r: Option<&str>)
        ensures
            r matches Some(s) ==> self.spec_text() == Some(s@),
            r is None ==> self.spec_text() is None,
    {
        match self {
            Json::Text(s) => Some(s.as_str()),
            _ => None,
        }
    }

    /// The integer of an integer number; nothing for any other value.
    pub fn integer(&self) -> (r: Option<i64>)
        ensures
            r == self.spec_integer(),
    {
        match self {
            Json::Integer(i) => Some(*i),
            _ => None,
        }
    }
}

} // verus!
