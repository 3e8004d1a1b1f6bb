//! JSON documents as `serde_json` holds them, and the mathematical model
//! that the contracts of this crate speak of.
//!
//! Parsing and printing JSON text is left to `serde_json`. Everything this
//! file says about it is believed, not proved: the type declarations, the
//! uninterpreted functions and the specifications of its functions below.

use vstd::prelude::*;

verus! {

/// A JSON number: an integer, or a number written with a fraction or an
/// exponent, which is kept as the bit pattern of its binary64 value.
pub enum JsonNumber {
    Integer(int),
    Real(u64),
}

/// A JSON document. An object lists its members in document order.
pub enum Json {
    Null,
    Bool(bool),
    Number(JsonNumber),
    String(Seq<char>),
    Array(Seq<Json>),
    Object(Seq<(Seq<char>, Json)>),
}

/// `serde_json::Value`, as a type whose inside only `serde_json` reads.
#[verifier::external_type_specification]
#[verifier::external_body]
pub struct ExValue(serde_json::Value);

/// `serde_json::Error`, as a type whose inside only `serde_json` reads.
#[verifier::external_type_specification]
#[verifier::external_body]
pub struct ExError(serde_json::Error);

/// The document that a `serde_json::Value` holds.
pub uninterp spec fn json_of(value: serde_json::Value) -> Json;

/// What `serde_json` reads from a text: the document, or, where the text
/// is not JSON, the message of the parser's error.
pub uninterp spec fn json_parse(text: Seq<u8>) -> Result<Json, Seq<char>>;

/// The compact text that `serde_json` prints for a document.
pub uninterp spec fn json_text(document: Json) -> Seq<char>;

/// The value of the first member of `members` named `key`.
pub open spec fn member(members: Seq<(Seq<char>, Json)>, key: Seq<char>) -> Option<Json>
    decreases members.len(),
{
    if members.len() == 0 {
        None
    } else if members[0].0 == key {
        Some(members[0].1)
    } else {
        member(members.drop_first(), key)
    }
}

impl Json {
    /// The value of an integer between `low` and `high`, nothing for any
    /// other document.
    pub open spec fn integer_within(self, low: int, high: int) -> Option<int> {
        match self {
            Json::Number(JsonNumber::Integer(n)) => if low <= n <= high {
                Some(n)
            } else {
                None
            },
            _ => None,
        }
    }

    /// The text of a JSON string, nothing for any other document.
    pub open spec fn text(self) -> Option<Seq<char>> {
        match self {
            Json::String(text) => Some(text),
            _ => None,
        }
    }
}

/// A member that no earlier member shares its name with is the one that
/// `member` finds under that name.
pub proof fn lemma_member_at(members: Seq<(Seq<char>, Json)>, i: int)
    requires
        0 <= i < members.len(),
        forall|j: int| 0 <= j < i ==> (#[trigger] members[j]).0 != members[i].0,
    ensures
        member(members, members[i].0) == Some(members[i].1),
    decreases i,
{
    if i > 0 {
        let rest = members.drop_first();
        assert(rest[i - 1] == members[i]);
        assert forall|j: int| 0 <= j < i - 1 implies (#[trigger] rest[j]).0 != rest[i - 1].0 by {
            assert(rest[j] == members[j + 1]);
        }
        lemma_member_at(rest, i - 1);
    }
}

/// What `member` finds is the value of some member of that name, and it
/// finds nothing only where no member has the name.
pub proof fn lemma_member_index(members: Seq<(Seq<char>, Json)>, key: Seq<char>)
    ensures
        match member(members, key) {
            Some(value) => exists|i: int|
                0 <= i < members.len() && #[trigger] members[i] == (key, value),
            None => forall|i: int| 0 <= i < members.len() ==> (#[trigger] members[i]).0 != key,
        },
    decreases members.len(),
{
    if members.len() > 0 && members[0].0 != key {
        let rest = members.drop_first();
        lemma_member_index(rest, key);
        match member(rest, key) {
            Some(value) => {
                let i = choose|i: int| 0 <= i < rest.len() && #[trigger] rest[i] == (key, value);
                assert(members[i + 1] == (key, value));
            },
            None => {
                assert forall|i: int| 0 <= i < members.len() implies (#[trigger] members[i]).0
                    != key by {
                    if i > 0 {
                        assert(rest[i - 1] == members[i]);
                    }
                }
            },
        }
    } else if members.len() > 0 {
        assert(members[0] == (key, members[0].1));
    }
}

/// `serde_json::from_slice` at `Value`: the document that the bytes spell,
/// or, where they spell none, the text that the parser's error displays.
#[verifier::external_body]
pub(crate) fn parse(text: &[u8]) -> (parsed: Result<serde_json::Value, String>)
    ensures
        match parsed {
            Ok(value) => json_parse(text@) == Ok::<Json, Seq<char>>(json_of(value)),
            Err(message) => json_parse(text@) == Err::<Json, Seq<char>>(message@),
        },
{
    match serde_json::from_slice::<serde_json::Value>(text) {
        Ok(value) => Ok(value),
        Err(error) => Err(error.to_string()),
    }
}

/// `Display` of `serde_json::Value`: the document as compact JSON text.
#[verifier::external_body]
pub(crate) fn print(value: &serde_json::Value) -> (text: String)
    ensures
        text@ == json_text(json_of(*value)),
{
    value.to_string()
}

/// `Value::is_null`: whether the document is `null`.
pub assume_specification[ serde_json::Value::is_null ](value: &serde_json::Value) -> (r: bool)
    ensures
        r == (json_of(*value) is Null),
;

/// `Value::as_str`: the text of a JSON string, nothing for any other document.
pub assume_specification<'a>[ serde_json::Value::as_str ](value: &'a serde_json::Value) -> (r:
    Option<&'a str>)
    ensures
        match r {
            Some(text) => json_of(*value) == Json::String(text@),
            None => !(json_of(*value) is String),
        },
;

/// `Value::as_i64`: the value of an integer that fits `i64`, nothing for a
/// larger integer, a number with a fraction or any other document.
pub assume_specification[ serde_json::Value::as_i64 ](value: &serde_json::Value) -> (r: Option<
    i64,
>)
    ensures
        match r {
            Some(n) => json_of(*value) == Json::Number(JsonNumber::Integer(n as int)),
            None => json_of(*value).integer_within(i64::MIN as int, i64::MAX as int) is None,
        },
;

/// `Clone` of `Value`: a value that holds the same document.
pub assume_specification[ <serde_json::Value as Clone>::clone ](value: &serde_json::Value) -> (r:
    serde_json::Value)
    ensures
        json_of(r) == json_of(*value),
;

/// `Value::as_object` and `Map::len`: the number of members of an object,
/// nothing for any other document.
#[verifier::external_body]
pub(crate) fn member_count(value: &serde_json::Value) -> (r: Option<usize>)
    ensures
        match json_of(*value) {
            Json::Object(members) => r matches Some(count) && count == members.len(),
            _ => r is None,
        },
{
    value.as_object().map(|members| members.len())
}

/// `Value::get` with a name: the value of the member of that name where the
/// document is an object that has one, else nothing. No two members of a
/// `Value` share a name, so the first of a name is the only one.
#[verifier::external_body]
pub(crate) fn get<'a>(value: &'a serde_json::Value, key: &str) -> (r: Option<
    &'a serde_json::Value,
>)
    ensures
        match r {
            Some(found) => json_of(*value) matches Json::Object(members) && member(members, key@)
                == Some(json_of(*found)),
            None => json_of(*value) matches Json::Object(members) ==> member(members, key@) is None,
        },
{
    value.get(key)
}

/// `Value::Null`: the document `null`.
#[verifier::external_body]
pub(crate) fn null() -> (r: serde_json::Value)
    ensures
        json_of(r) == Json::Null,
{
    serde_json::Value::Null
}

/// `Value::from` at `i64`: the number with that integer value.
#[verifier::external_body]
pub(crate) fn from_i64(n: i64) -> (r: serde_json::Value)
    ensures
        json_of(r) == Json::Number(JsonNumber::Integer(n as int)),
{
    serde_json::Value::from(n)
}

/// `Value::from` at `String`: the JSON string with that text.
#[verifier::external_body]
pub(crate) fn from_string(text: String) -> (r: serde_json::Value)
    ensures
        json_of(r) == Json::String(text@),
{
    serde_json::Value::from(text)
}

/// The documents that a list of named values holds, name by name.
pub open spec fn members_of(members: Seq<(String, serde_json::Value)>) -> Seq<(Seq<char>, Json)> {
    Seq::new(members.len(), |i: int| (members[i].0@, json_of(members[i].1)))
}

/// Whether no two of the members share a name.
pub open spec fn distinct_names(members: Seq<(Seq<char>, Json)>) -> bool {
    forall|i: int, j: int| 0 <= i < j < members.len() ==> members[i].0 != members[j].0
}

/// `FromIterator<(String, Value)>` of `Value`: the object with the given
/// members in the given order, where no name comes twice.
#[verifier::external_body]
pub(crate) fn object(members: Vec<(String, serde_json::Value)>) -> (r: serde_json::Value)
    ensures
        distinct_names(members_of(members@)) ==> json_of(r) == Json::Object(members_of(members@)),
{
    members.into_iter().collect::<serde_json::Value>()
}

/// A member of an object under construction.
pub(crate) fn entry(name: &str, value: serde_json::Value) -> (named: (String, serde_json::Value))
    ensures
        named.0@ == name@,
        named.1 == value,
{
    (name.to_owned(), value)
}

} // verus!
