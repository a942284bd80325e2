//! A structured value as carried in envelope payloads.

use vstd::prelude::*;

use crate::text::{owned, str_eq};

verus! {

/// A structured value. Numbers keep the decimal text they were written
/// with, so that no precision is lost on the way through.
#[derive(Debug)]
pub enum JsonValue {
    Null,
    Bool(bool),
    Number(String),
    Str(String),
    Array(Vec<JsonValue>),
    Object(Vec<(String, JsonValue)>),
}

/// The value of the first field named `key`.
pub open spec fn field_of(fields: Seq<(String, JsonValue)>, key: Seq<char>) -> Option<JsonValue>
    decreases fields.len(),
{
    if fields.len() == 0 {
        None
    } else if fields[0].0@ == key {
        Some(fields[0].1)
    } else {
        field_of(fields.drop_first(), key)
    }
}

impl JsonValue {
    /// The field `key` of an object; `None` for a missing field or another kind.
    pub open spec fn spec_get(self, key: Seq<char>) -> Option<JsonValue> {
        match self {
            JsonValue::Object(fields) => field_of(fields@, key),
            _ => None,
        }
    }

    /// The text of a string value.
    pub open spec fn spec_str(self) -> Option<Seq<char>> {
        match self {
            JsonValue::Str(s) => Some(s@),
            _ => None,
        }
    }

    /// The text of the string field `key` of an object.
    pub open spec fn str_field(self, key: Seq<char>) -> Option<Seq<char>> {
        match self.spec_get(key) {
            Some(v) => v.spec_str(),
            None => None,
        }
    }

    /// A string value holding `s`.
    pub fn string(s: &str) -> (r: JsonValue)
        ensures
            r.spec_str() == Some(s@),
    {
        JsonValue::Str(owned(s))
    }

    /// An object of one string field.
    pub fn object1(key: &str, value: JsonValue) -> (r: JsonValue)
        ensures
            r matches JsonValue::Object(fields) && fields@.len() == 1 && fields@[0].0@ == key@
                && fields@[0].1 == value,
            r.spec_get(key@) == Some(value),
    {
        let mut fields: Vec<(String, JsonValue)> = Vec::new();
        fields.push((owned(key), value));
        let r = JsonValue::Object(fields);
        assert(r.spec_get(key@) == Some(value)) by {
            reveal_with_fuel(field_of, 2);
        }
        r
    }

    /// The field `key` of an object.
    pub fn get(&self, key: &str) -> (r: Option<&JsonValue>)
        ensures
            r.is_some() == self.spec_get(key@).is_some(),
            r.is_some() ==> *r.unwrap() == self.spec_get(key@).unwrap(),
    {
        match self {
            JsonValue::Object(fields) => {
                let mut i: usize = 0;
                assert(fields@.skip(0) =~= fields@);
                while i < fields.len()
                    invariant
                        i <= fields@.len(),
                        self.spec_get(key@) == field_of(fields@, key@),
                        field_of(fields@, key@) == field_of(fields@.skip(i as int), key@),
                    decreases fields@.len() - i,
                {
                    assert(fields@.skip(i as int)[0] == fields@[i as int]);
                    assert(fields@.skip(i as int).drop_first() =~= fields@.skip(i + 1));
                    if str_eq(fields[i].0.as_str(), key) {
                        assert(field_of(fields@.skip(i as int), key@) == Some(fields@[i as int].1));
                        return Some(&fields[i].1);
                    }
                    i += 1;
                }
                None
            },
            _ => None,
        }
    }

    /// The text of a string value.
    pub fn as_str(&self) -> (r: Option<&String>)
        ensures
            r.is_some() == self.spec_str().is_some(),
            r.is_some() ==> r.unwrap()@ == self.spec_str().unwrap(),
    {
        match self {
            JsonValue::Str(s) => Some(s),
            _ => None,
        }
    }
}

} // verus!
