//! A JSON document as a tree of plain values, and the reading of one from
//! text.

use crate::error::ParseError;
use vstd::prelude::*;

verus! {

/// A JSON number. An integer that fits 64 bits keeps its value; of any other
/// number only this much is kept, that it is one.
#[derive(Clone, Copy, Debug, PartialEq, Eq, Structural)]
pub enum JsonNumber {
    /// A non-negative integer.
    Unsigned(u64),
    /// A negative integer.
    Negative(i64),
    /// A number with a fraction or an exponent, or an integer beyond 64 bits.
    Real,
}

impl JsonNumber {
    /// The number that reads as `unsigned` where it fits an unsigned integer
    /// and as `signed` where it fits a signed one.
    pub open spec fn of_parts(unsigned: Option<u64>, signed: Option<i64>) -> JsonNumber {
        match (unsigned, signed) {
            (Some(u), _) => JsonNumber::Unsigned(u),
            (None, Some(i)) => JsonNumber::Negative(i),
            (None, None) => JsonNumber::Real,
        }
    }

    /// Builds a number from its two integer readings.
    pub fn from_parts(unsigned: Option<u64>, signed: Option<i64>) -> (number: JsonNumber)
        ensures
            number == JsonNumber::of_parts(unsigned, signed),
    {
        match unsigned {
            Some(u) => JsonNumber::Unsigned(u),
            None => match signed {
                Some(i) => JsonNumber::Negative(i),
                None => JsonNumber::Real,
            },
        }
    }
}

/// The mathematical value of a JSON document.
pub enum JsonValue {
    Null,
    Bool(bool),
    Number(JsonNumber),
    Text(Seq<char>),
    Array(Seq<JsonValue>),
    Object(Seq<(Seq<char>, JsonValue)>),
}

/// The value of the first entry of `fields` whose key is `key`.
pub open spec fn first_with_key(fields: Seq<(Seq<char>, JsonValue)>, key: Seq<char>) -> Option<
    JsonValue,
>
    decreases fields.len(),
{
    if fields.len() == 0 {
        None
    } else if fields[0].0 == key {
        Some(fields[0].1)
    } else {
        first_with_key(fields.drop_first(), key)
    }
}

impl JsonValue {
    /// The member `key` of an object; `None` for a missing member and for
    /// anything that is not an object.
    pub open spec fn field(self, key: Seq<char>) -> Option<JsonValue> {
        match self {
            JsonValue::Object(fields) => first_with_key(fields, key),
            _ => None,
        }
    }

    /// The member `key`, with `Null` standing for a missing one.
    pub open spec fn field_or_null(self, key: Seq<char>) -> JsonValue {
        match self.field(key) {
            Some(value) => value,
            None => JsonValue::Null,
        }
    }

    /// The element at `index` of an array.
    pub open spec fn item(self, index: int) -> Option<JsonValue> {
        match self {
            JsonValue::Array(items) => if 0 <= index < items.len() {
                Some(items[index])
            } else {
                None
            },
            _ => None,
        }
    }

    /// The text of a string value.
    pub open spec fn as_text(self) -> Option<Seq<char>> {
        match self {
            JsonValue::Text(text) => Some(text),
            _ => None,
        }
    }

    /// The value of a non-negative integer.
    pub open spec fn as_unsigned(self) -> Option<u64> {
        match self {
            JsonValue::Number(JsonNumber::Unsigned(n)) => Some(n),
            _ => None,
        }
    }
}

/// The member `key` of the object found at `parent`, if there is one.
pub open spec fn member(parent: Option<JsonValue>, key: Seq<char>) -> Option<JsonValue> {
    match parent {
        Some(value) => value.field(key),
        None => None,
    }
}

/// The element at `index` of the array found at `parent`, if there is one.
pub open spec fn element(parent: Option<JsonValue>, index: int) -> Option<JsonValue> {
    match parent {
        Some(value) => value.item(index),
        None => None,
    }
}

/// The text of the string found at `place`, if there is one.
pub open spec fn text_at(place: Option<JsonValue>) -> Option<Seq<char>> {
    match place {
        Some(value) => value.as_text(),
        None => None,
    }
}

/// The non-negative integer found at `place`, if there is one.
pub open spec fn unsigned_at(place: Option<JsonValue>) -> Option<u64> {
    match place {
        Some(value) => value.as_unsigned(),
        None => None,
    }
}

/// A JSON document held in memory.
#[derive(Debug)]
pub enum Json {
    Null,
    Bool(bool),
    Number(JsonNumber),
    Str(String),
    Array(Vec<Json>),
    /// The members in the order they are held; a lookup finds the first
    /// member with the key asked for.
    Object(Vec<(String, Json)>),
}

/// The value that a document in memory stands for.
pub open spec fn value_of(json: Json) -> JsonValue
    decreases json,
{
    match json {
        Json::Null => JsonValue::Null,
        Json::Bool(b) => JsonValue::Bool(b),
        Json::Number(n) => JsonValue::Number(n),
        Json::Str(s) => JsonValue::Text(s@),
        Json::Array(items) => JsonValue::Array(
            Seq::new(
                items.len() as nat,
                |i: int|
                    if 0 <= i < items.len() {
                        value_of(items[i])
                    } else {
                        JsonValue::Null
                    },
            ),
        ),
        Json::Object(fields) => JsonValue::Object(
            Seq::new(
                fields.len() as nat,
                |i: int|
                    if 0 <= i < fields.len() {
                        (fields[i].0@, value_of(fields[i].1))
                    } else {
                        (Seq::empty(), JsonValue::Null)
                    },
            ),
        ),
    }
}

impl View for Json {
    type V = JsonValue;

    open spec fn view(&self) -> JsonValue {
        value_of(*self)
    }
}

/// The value of a place in a document that may not exist.
pub open spec fn value_at(place: Option<&Json>) -> Option<JsonValue> {
    match place {
        Some(json) => Some(json@),
        None => None,
    }
}

/// An array in memory stands for the values of its elements, in order.
pub proof fn lemma_array_value(items: Vec<Json>)
    ensures
        Json::Array(items)@ is Array,
        Json::Array(items)@->Array_0.len() == items.len(),
        forall|i: int| 0 <= i < items.len() ==> Json::Array(items)@->Array_0[i] == items[i]@,
{
}

/// The document that `text` denotes under the JSON grammar, or `None` where
/// `text` is not one JSON document.
pub uninterp spec fn document_of(text: Seq<char>) -> Option<JsonValue>;

#[verifier::external_type_specification]
#[verifier::external_body]
pub struct ExValue(serde_json::Value);

#[verifier::external_type_specification]
#[verifier::external_body]
pub struct ExSyntaxError(serde_json::Error);

/// Copies a `serde_json::Value` into a [`Json`], variant by variant. An
/// object's members come in the order in which `serde_json::Map` hands them
/// out; of a number, what `Number::as_u64` and `Number::as_i64` return is
/// kept.
#[verifier::external_body]
fn json_from_value(value: &serde_json::Value) -> Json {
    match value {
        serde_json::Value::Null => Json::Null,
        serde_json::Value::Bool(b) => Json::Bool(*b),
        serde_json::Value::Number(n) => Json::Number(JsonNumber::from_parts(n.as_u64(), n.as_i64())),
        serde_json::Value::String(s) => Json::Str(s.clone()),
        serde_json::Value::Array(a) => Json::Array(a.iter().map(json_from_value).collect()),
        serde_json::Value::Object(m) => Json::Object(
            m.iter().map(|(k, v)| (k.clone(), json_from_value(v))).collect(),
        ),
    }
}

/// Calls `serde_json::from_str` for a `serde_json::Value`. The contract
/// claims that the outcome depends on `text` alone: the same text always
/// gives the same document, or always fails.
#[verifier::external_body]
fn read_document(text: &str) -> (outcome: Result<Json, serde_json::Error>)
    ensures
        match outcome {
            Ok(json) => document_of(text@) == Some(json@),
            Err(_) => document_of(text@) is None,
        },
{
    match serde_json::from_str::<serde_json::Value>(text) {
        Ok(value) => Ok(json_from_value(&value)),
        Err(error) => Err(error),
    }
}

impl Json {
    /// Looks up the member `key` of an object.
    pub fn get(&self, key: &str) -> (found: Option<&Json>)
        ensures
            match found {
                Some(member) => self@.field(key@) == Some(member@),
                None => self@.field(key@) is None,
            },
    {
        match self {
            Json::Object(fields) => {
                let wanted = key.to_owned();
                let ghost all = self@->Object_0;
                let mut i: usize = 0;
                assert(all.skip(0) == all);
                while i < fields.len()
                    invariant
                        i <= fields.len(),
                        wanted@ == key@,
                        self@ == JsonValue::Object(all),
                        all.len() == fields.len(),
                        forall|j: int|
                            0 <= j < fields.len() ==> all[j] == (
                                (#[trigger] fields[j]).0@,
                                fields[j].1@,
                            ),
                        first_with_key(all, key@) == first_with_key(all.skip(i as int), key@),
                    decreases fields.len() - i,
                {
                    let ghost rest = all.skip(i as int);
                    assert(rest[0] == all[i as int]);
                    assert(rest.drop_first() == all.skip(i + 1));
                    if fields[i].0 == wanted {
                        return Some(&fields[i].1);
                    }
                    i = i + 1;
                }
                assert(all.skip(i as int).len() == 0);
                None
            },
            _ => None,
        }
    }

    /// Reads one JSON document from `text`.
    pub fn parse(text: &str) -> (outcome: Result<Json, ParseError>)
        ensures
            match outcome {
                Ok(json) => document_of(text@) == Some(json@),
                Err(error) => document_of(text@) is None && error == ParseError::Syntax,
            },
    {
        match read_document(text) {
            Ok(json) => Ok(json),
            Err(_) => Err(ParseError::Syntax),
        }
    }

    /// The element at `index` of an array.
    pub fn at(&self, index: usize) -> (found: Option<&Json>)
        ensures
            match found {
                Some(element) => self@.item(index as int) == Some(element@),
                None => self@.item(index as int) is None,
            },
    {
        match self {
            Json::Array(items) => if index < items.len() {
                Some(&items[index])
            } else {
                None
            },
            _ => None,
        }
    }

    /// The member `key` of the object at `parent`.
    pub fn get_member<'a>(parent: Option<&'a Json>, key: &str) -> (found: Option<&'a Json>)
        ensures
            value_at(found) == member(value_at(parent), key@),
    {
        match parent {
            Some(json) => json.get(key),
            None => None,
        }
    }

    /// The element at `index` of the array at `parent`.
    pub fn get_element<'a>(parent: Option<&'a Json>, index: usize) -> (found: Option<&'a Json>)
        ensures
            value_at(found) == element(value_at(parent), index as int),
    {
        match parent {
            Some(json) => json.at(index),
            None => None,
        }
    }

    /// The text of a string value.
    pub fn as_str(&self) -> (text: Option<&str>)
        ensures
            match text {
                Some(s) => self@.as_text() == Some(s@),
                None => self@.as_text() is None,
            },
    {
        match self {
            Json::Str(s) => Some(s.as_str()),
            _ => None,
        }
    }

    /// The value of a non-negative integer.
    pub fn as_u64(&self) -> (number: Option<u64>)
        ensures
            number == self@.as_unsigned(),
    {
        match self {
            Json::Number(JsonNumber::Unsigned(n)) => Some(*n),
            _ => None,
        }
    }

    /// Whether the value is `null`.
    pub fn is_null(&self) -> (null: bool)
        ensures
            null == (self@ is Null),
    {
        match self {
            Json::Null => true,
            _ => false,
        }
    }
}

} // verus!
