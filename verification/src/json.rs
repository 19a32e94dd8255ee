//! JSON documents as values of the library's own.
//!
//! The catalog answers in JSON. `serde_json` reads the text; what it read is
//! copied into a `Json`, and everything that looks into a document is
//! verified code over that type.

use crate::text::push_text;
use vstd::prelude::*;

verus! {

/// A JSON document.
#[derive(Debug, PartialEq, Eq)]
pub enum Json {
    /// `null`.
    Null,
    /// `true` or `false`.
    Bool(bool),
    /// A number: its value where it is an integer of 64 bits with sign, and
    /// nothing where it is a fraction or lies outside that range.
    Number(Option<i64>),
    /// A string.
    Text(String),
    /// An array, with its items in order.
    Array(Vec<Json>),
    /// An object, with its members as pairs of name and value.
    Object(Vec<(String, Json)>),
}

/// `serde_json::Value`: what `serde_json` has read. Nothing is known of a
/// value but what `json_of` names.
#[verifier::external_type_specification]
#[verifier::external_body]
pub struct ExJsonValue(serde_json::Value);

/// `serde_json::Error`: why a text could not be read. Nothing is known of
/// it.
#[verifier::external_type_specification]
#[verifier::external_body]
pub struct ExJsonError(serde_json::Error);

/// The document that `text` is the JSON notation of, and nothing where it is
/// the notation of none.
pub uninterp spec fn parsed_json(text: Seq<char>) -> Option<Json>;

/// The JSON string literal for `text`: the text between double quotes, with
/// the characters escaped that JSON does not take as they are.
pub uninterp spec fn json_string_literal(text: Seq<char>) -> Seq<char>;

/// What a value of `serde_json` holds, as a `Json`: the same variant with
/// the same content, the items of an array in their order, and the members
/// of an object in the order in which the map of `serde_json` hands them out.
/// Of a number it holds what `Number::as_i64` gives.
pub uninterp spec fn json_of(value: serde_json::Value) -> Json;

/// Copies a value of `serde_json` into a `Json`, variant by variant. The
/// copy is what `json_of` names.
#[verifier::external_body]
fn json_of_value(value: serde_json::Value) -> (document: Json)
    ensures
        document == json_of(value),
{
    match value {
        serde_json::Value::Null => Json::Null,
        serde_json::Value::Bool(b) => Json::Bool(b),
        serde_json::Value::Number(n) => Json::Number(n.as_i64()),
        serde_json::Value::String(s) => Json::Text(s),
        serde_json::Value::Array(items) => Json::Array(
            items.into_iter().map(json_of_value).collect(),
        ),
        serde_json::Value::Object(members) => Json::Object(
            members.into_iter().map(|(name, v)| (name, json_of_value(v))).collect(),
        ),
    }
}

/// `serde_json::from_str`, reading a `serde_json::Value`. The result depends
/// on the text alone: it holds the document that the text denotes, or it is
/// the error that says why the text denotes none.
#[verifier::external_body]
fn read_value(text: &str) -> (r: Result<serde_json::Value, serde_json::Error>)
    ensures
        match r {
            Ok(value) => parsed_json(text@) == Some(json_of(value)),
            Err(_) => parsed_json(text@) is None,
        },
{
    serde_json::from_str::<serde_json::Value>(text)
}

/// `serde_json::to_string` of a string: the JSON string literal for it.
/// Writing a string into memory has no way to fail.
#[verifier::external_body]
fn write_json_string(text: &str) -> (literal: String)
    ensures
        literal@ == json_string_literal(text@),
{
    serde_json::to_string(text).unwrap_or_default()
}

/// Appends the JSON string literal for `text` to `out`.
pub fn push_json_string(out: &mut String, text: &str)
    ensures
        final(out)@ == old(out)@ + json_string_literal(text@),
{
    let literal = write_json_string(text);
    push_text(out, literal.as_str());
}

/// The first member named `name` among `members`.
pub open spec fn member_of(members: Seq<(String, Json)>, name: Seq<char>) -> Option<Json>
    decreases members.len(),
{
    if members.len() == 0 {
        None
    } else if members[0].0@ == name {
        Some(members[0].1)
    } else {
        member_of(members.drop_first(), name)
    }
}

/// The first member named `name` among `members`.
fn find_member<'a>(members: &'a Vec<(String, Json)>, name: &str) -> (r: Option<&'a Json>)
    ensures
        r is Some <==> member_of(members@, name@) is Some,
        r is Some ==> *r->Some_0 == member_of(members@, name@)->Some_0,
{
    let wanted = name.to_owned();
    let mut i: usize = 0;
    assert(members@.skip(0) =~= members@);
    while i < members.len()
        invariant
            i <= members.len(),
            wanted@ == name@,
            member_of(members@, name@) == member_of(members@.skip(i as int), name@),
        decreases members.len() - i,
    {
        if members[i].0 == wanted {
            return Some(&members[i].1);
        }
        assert(members@.skip(i as int).drop_first() =~= members@.skip(i + 1));
        i = i + 1;
    }
    None
}

impl Json {
    /// The member named `name`, where this is an object that has one.
    pub open spec fn member(self, name: Seq<char>) -> Option<Json> {
        match self {
            Json::Object(members) => member_of(members@, name),
            _ => None,
        }
    }

    /// The item at position `i`, where this is an array that has one.
    pub open spec fn item(self, i: int) -> Option<Json> {
        match self {
            Json::Array(items) => if 0 <= i < items@.len() {
                Some(items@[i])
            } else {
                None
            },
            _ => None,
        }
    }

    /// The items, where this is an array.
    pub open spec fn items(self) -> Option<Seq<Json>> {
        match self {
            Json::Array(items) => Some(items@),
            _ => None,
        }
    }

    /// The integer, where this is a number that is one.
    pub open spec fn integer(self) -> Option<i64> {
        match self {
            Json::Number(n) => n,
            _ => None,
        }
    }

    /// The characters, where this is a string.
    pub open spec fn text(self) -> Option<Seq<char>> {
        match self {
            Json::Text(s) => Some(s@),
            _ => None,
        }
    }

    /// Whether this is `true`.
    pub open spec fn is_true(self) -> bool {
        self == Json::Bool(true)
    }

    /// Reads the document that `text` denotes. A text that denotes none gives
    /// nothing.
    pub fn parse(text: &str) -> (r: Option<Json>)
        ensures
            r == parsed_json(text@),
    {
        match read_value(text) {
            Ok(value) => Some(json_of_value(value)),
            Err(_) => None,
        }
    }

    /// The member named `name`, where this is an object that has one. Of two
    /// members of one name the first is taken.
    pub fn get(&self, name: &str) -> (r: Option<&Json>)
        ensures
            r is Some <==> self.member(name@) is Some,
            r is Some ==> *r->Some_0 == self.member(name@)->Some_0,
    {
        match self {
            Json::Object(members) => find_member(members, name),
            _ => None,
        }
    }

    /// The item at position `i`, where this is an array that has one.
    pub fn at(&self, i: usize) -> (r: Option<&Json>)
        ensures
            r is Some <==> self.item(i as int) is Some,
            r is Some ==> *r->Some_0 == self.item(i as int)->Some_0,
    {
        match self {
            Json::Array(items) => {
                if i < items.len() {
                    Some(&items[i])
                } else {
                    None
                }
            },
            _ => None,
        }
    }

    /// The integer, where this is a number that is one.
    pub fn as_i64(&self) -> (r: Option<i64>)
        ensures
            r == self.integer(),
    {
        match self {
            Json::Number(n) => *n,
            _ => None,
        }
    }

    /// The string, where this is one.
    pub fn as_str(&self) -> (r: Option<&String>)
        ensures
            r is Some <==> self.text() is Some,
            r is Some ==> r->Some_0@ == self.text()->Some_0,
    {
        match self {
            Json::Text(s) => Some(s),
            _ => None,
        }
    }

    /// Whether this is `true`.
    pub fn is_bool_true(&self) -> (r: bool)
        ensures
            r == self.is_true(),
    {
        match self {
            Json::Bool(b) => *b,
            _ => false,
        }
    }
}

} // verus!
