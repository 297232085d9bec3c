//! A structured document tree, as the orchestration core reads settings
//! files and external-tool output. Parsing is delegated to serde_json behind
//! a trusted boundary; everything that inspects the parsed tree is verified
//! code over [`JsonValue`].

use vstd::prelude::*;
use crate::strutil::parse_u64_dec;

verus! {

/// A parsed structured document. Numbers are held as their decimal
/// rendering, so that the verified readers can interpret exactly the fields
/// they need (the core only ever reads small unsigned integers).
#[derive(Debug)]
pub enum JsonValue {
    Null,
    Bool(bool),
    /// A number, as its decimal text rendering.
    Num(String),
    Str(String),
    Arr(Vec<JsonValue>),
    Obj(Vec<(String, JsonValue)>),
}

#[verifier::external_type_specification]
#[verifier::external_body]
pub struct ExSerdeJsonValue(serde_json::Value);

/// Relies on serde_json::Value's variant accessors: rebuilds the parsed
/// document as a plain tree, with each number rendered by serde_json's own
/// decimal formatting.
#[verifier::external_body]
fn json_tree(v: &serde_json::Value) -> JsonValue {
    match v {
        serde_json::Value::Null => JsonValue::Null,
        serde_json::Value::Bool(b) => JsonValue::Bool(*b),
        serde_json::Value::Number(n) => JsonValue::Num(n.to_string()),
        serde_json::Value::String(s) => JsonValue::Str(s.clone()),
        serde_json::Value::Array(a) => JsonValue::Arr(a.iter().map(json_tree).collect()),
        serde_json::Value::Object(o) => JsonValue::Obj(
            o.iter().map(|(k, val)| (k.clone(), json_tree(val))).collect(),
        ),
    }
}

/// Whether serde_json accepts the text as one JSON document; a function of
/// the text alone.
pub uninterp spec fn json_text_wellformed(s: Seq<char>) -> bool;

/// The tree serde_json parses out of a well-formed text; a function of the
/// text alone, meaningful only where `json_text_wellformed` holds.
pub uninterp spec fn json_doc_of(s: Seq<char>) -> JsonValue;

/// Relies on serde_json::from_str::<serde_json::Value>: parses a JSON
/// document, returning the tree the text denotes, or nothing on malformed
/// text.
#[verifier::external_body]
pub(crate) fn parse_json(s: &str) -> (r: Option<JsonValue>)
    ensures
        r is Some <==> json_text_wellformed(s@),
        r is Some ==> r->0 == json_doc_of(s@),
{
    match serde_json::from_str::<serde_json::Value>(s) {
        Ok(v) => Some(json_tree(&v)),
        Err(_) => None,
    }
}

/// First field with the given name among an object's fields.
pub open spec fn spec_lookup(fields: Seq<(String, JsonValue)>, key: Seq<char>) -> Option<JsonValue>
    decreases fields.len(),
{
    if fields.len() == 0 {
        None
    } else if fields[0].0@ == key {
        Some(fields[0].1)
    } else {
        spec_lookup(fields.drop_first(), key)
    }
}

/// Field of an object by name; nothing on any other kind of value.
pub open spec fn spec_get(v: JsonValue, key: Seq<char>) -> Option<JsonValue> {
    match v {
        JsonValue::Obj(fields) => spec_lookup(fields@, key),
        _ => None,
    }
}

impl JsonValue {
    /// Looks a field up by name, as reading a missing-tolerant document.
    #[verifier::loop_isolation(false)]
    pub fn get<'a>(&'a self, key: &str) -> (r: Option<&'a JsonValue>)
        ensures
            match r {
                Some(x) => spec_get(*self, key@) == Some(*x),
                None => spec_get(*self, key@) is None,
            },
    {
        match self {
            JsonValue::Obj(fields) => {
                let len = fields.len();
                proof {
                    assert(fields@.subrange(0, len as int) =~= fields@);
                }
                let mut i: usize = 0;
                while i < len
                    invariant
                        len == fields@.len(),
                        i <= len,
                        spec_lookup(fields@, key@) == spec_lookup(
                            fields@.subrange(i as int, len as int),
                            key@,
                        ),
                    decreases len - i,
                {
                    proof {
                        let rest = fields@.subrange(i as int, len as int);
                        assert(rest.drop_first() =~= fields@.subrange(i + 1, len as int));
                        assert(rest[0] == fields@[i as int]);
                    }
                    if crate::strutil::str_eq(fields[i].0.as_str(), key) {
                        assert(spec_lookup(fields@, key@) == Some(fields@[i as int].1));
                        return Some(&fields[i].1);
                    }
                    i = i + 1;
                }
                proof {
                    assert(fields@.subrange(len as int, len as int) =~= Seq::<(
                        String,
                        JsonValue,
                    )>::empty());
                }
                None
            },
            _ => None,
        }
    }

    /// The value's text, when it is a string.
    pub fn as_str<'a>(&'a self) -> (r: Option<&'a String>)
        ensures
            match r {
                Some(s) => self is Str && s@ == self->Str_0@,
                None => !(self is Str),
            },
    {
        match self {
            JsonValue::Str(s) => Some(s),
            _ => None,
        }
    }

    /// The value, when it is a boolean.
    pub fn as_bool(&self) -> (r: Option<bool>)
        ensures
            match r {
                Some(b) => self is Bool && b == self->Bool_0,
                None => !(self is Bool),
            },
    {
        match self {
            JsonValue::Bool(b) => Some(*b),
            _ => None,
        }
    }

    /// The value read as an unsigned integer: a number whose rendering is
    /// plain decimal digits. Fractional, negative, huge or non-number values
    /// read as nothing.
    pub fn as_u64(&self) -> (r: Option<u64>)
        ensures
            r == spec_as_u64(*self),
    {
        match self {
            JsonValue::Num(s) => parse_u64_dec(s.as_str()),
            _ => None,
        }
    }

    /// The value read as a signed integer: a number whose rendering is an
    /// optionally signed run of decimal digits.
    pub fn as_i64(&self) -> (r: Option<i64>)
        ensures
            r == spec_as_i64(*self),
    {
        match self {
            JsonValue::Num(s) => crate::strutil::parse_i64_dec(s.as_str()),
            _ => None,
        }
    }

    /// The value's items, when it is an array.
    pub fn as_arr<'a>(&'a self) -> (r: Option<&'a Vec<JsonValue>>)
        ensures
            match r {
                Some(items) => self is Arr && items@ == self->Arr_0@,
                None => !(self is Arr),
            },
    {
        match self {
            JsonValue::Arr(items) => Some(items),
            _ => None,
        }
    }

    /// The number's decimal rendering, when the value is a number.
    pub fn as_num_text<'a>(&'a self) -> (r: Option<&'a String>)
        ensures
            match r {
                Some(s) => self is Num && s@ == self->Num_0@,
                None => !(self is Num),
            },
    {
        match self {
            JsonValue::Num(s) => Some(s),
            _ => None,
        }
    }
}

/// The signed-integer reading of a value, defined exactly for a number
/// rendered as an optionally signed short run of decimal digits.
pub open spec fn spec_as_i64(v: JsonValue) -> Option<i64> {
    match v {
        JsonValue::Num(s) => {
            if crate::strutil::all_digits_signed(s@) && (if s@.len() > 0 && s@[0] == '-' {
                s@.len() <= 19
            } else {
                s@.len() <= 18
            }) {
                Some(crate::strutil::dec_val_signed(s@) as i64)
            } else {
                None
            }
        },
        _ => None,
    }
}

/// The unsigned-integer reading of a value: defined exactly for a number
/// rendered as one to nineteen decimal digits.
pub open spec fn spec_as_u64(v: JsonValue) -> Option<u64> {
    match v {
        JsonValue::Num(s) => {
            if 1 <= s@.len() <= 19 && crate::strutil::all_digits(s@) {
                Some(crate::strutil::dec_val(s@) as u64)
            } else {
                None
            }
        },
        _ => None,
    }
}

} // verus!
