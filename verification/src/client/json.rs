//! The parsed form of a response body.
//!
//! General JSON parsing is the transport collaborator's business; it is
//! done by serde_json behind the trusted items below. Everything the
//! decoders then read — the shape of the document, its strings, booleans,
//! unsigned numbers, arrays and object fields — is carried in the
//! library's own [`Json`] value, and every decision taken on it is
//! verified.

use vstd::prelude::*;

use crate::client::text::str_eq;

verus! {

/// A parsed JSON document, reduced to what the decoders read. A number
/// holds its unsigned 64-bit value, or `None` when it has no such value
/// (negative or fractional).
pub enum Json {
    /// The JSON null value.
    Null,
    /// A boolean.
    Bool(bool),
    /// A number, as its unsigned 64-bit value if it has one.
    Num(Option<u64>),
    /// A string.
    Str(String),
    /// An array, in document order.
    Arr(Vec<Json>),
    /// An object, as its fields in the parser's order.
    Obj(Vec<(String, Json)>),
}

/// What parsing a body yields, as a function of the text alone; `None`
/// for text that is not JSON.
pub uninterp spec fn json_of(s: Seq<char>) -> Option<Json>;

#[verifier::external_type_specification]
#[verifier::external_body]
pub struct ExJsonValue(serde_json::Value);

/// Relies on serde_json::Value: each variant is carried over one for one —
/// an object as its fields in the map's order, an array in document order,
/// a number as its unsigned 64-bit value if it has one.
#[verifier::external_body]
fn json_from_value(v: serde_json::Value) -> Json {
    match v {
        serde_json::Value::Null => Json::Null,
        serde_json::Value::Bool(b) => Json::Bool(b),
        serde_json::Value::Number(n) => Json::Num(n.as_u64()),
        serde_json::Value::String(s) => Json::Str(s),
        serde_json::Value::Array(a) => Json::Arr(a.into_iter().map(json_from_value).collect()),
        serde_json::Value::Object(m) => Json::Obj(
            m.into_iter().map(|(k, x)| (k, json_from_value(x))).collect(),
        ),
    }
}

/// Relies on serde_json::from_str::<serde_json::Value>: whether and how a
/// text parses as JSON depends on the text alone; text that is not JSON
/// yields `None`.
#[verifier::external_body]
pub(crate) fn parse_json(s: &str) -> (r: Option<Json>)
    ensures
        r == json_of(s@),
{
    serde_json::from_str::<serde_json::Value>(s).ok().map(json_from_value)
}

/// The value of the first field named `key`, if any.
pub open spec fn spec_obj_get(fields: Seq<(String, Json)>, key: Seq<char>) -> Option<Json>
    decreases fields.len(),
{
    if fields.len() == 0 {
        None
    } else if fields[0].0@ == key {
        Some(fields[0].1)
    } else {
        spec_obj_get(fields.drop_first(), key)
    }
}

/// Looks a field up by its exact name.
pub fn obj_get<'a>(fields: &'a Vec<(String, Json)>, key: &str) -> (r: Option<&'a Json>)
    ensures
        r is Some <==> spec_obj_get(fields@, key@) is Some,
        r matches Some(v) ==> spec_obj_get(fields@, key@) == Some(*v),
{
    let mut i: usize = 0;
    proof {
        assert(fields@.skip(0) =~= fields@);
    }
    while i < fields.len()
        invariant
            i <= fields@.len(),
            spec_obj_get(fields@, key@) == spec_obj_get(fields@.skip(i as int), key@),
        decreases fields@.len() - i,
    {
        let ghost rest = fields@.skip(i as int);
        proof {
            assert(rest[0] == fields@[i as int]);
            assert(rest.drop_first() =~= fields@.skip(i + 1 as int));
        }
        if str_eq(fields[i].0.as_str(), key) {
            return Some(&fields[i].1);
        }
        i += 1;
    }
    proof {
        assert(fields@.skip(fields@.len() as int) =~= Seq::<(String, Json)>::empty());
    }
    None
}

} // verus!
