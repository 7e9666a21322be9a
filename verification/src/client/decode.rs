//! The response normalizer: decodes a response body into outcome records,
//! in the shape the destination kind calls for — one record for a direct
//! URL, an ordered list for a topic. A body of any other shape is a decode
//! failure; it is never coerced to an empty result.

use vstd::prelude::*;

use crate::client::error::PublishFailure;
use crate::client::json::{json_of, obj_get, parse_json, spec_obj_get, Json};
use crate::client::request::{DecodeMode, QstashResponse};

verus! {

/// A field read as an optional string: it may be absent, null, or a
/// string; any other shape refuses.
pub open spec fn str_field_ok(o: Option<Json>) -> bool {
    match o {
        None => true,
        Some(j) => j is Null || j is Str,
    }
}

/// The string of such a field; absent and null both read as `None`.
pub open spec fn str_field(o: Option<Json>) -> Option<String> {
    match o {
        Some(Json::Str(s)) => Some(s),
        _ => None,
    }
}

/// A field read as an optional boolean: absent, null, or a boolean.
pub open spec fn bool_field_ok(o: Option<Json>) -> bool {
    match o {
        None => true,
        Some(j) => j is Null || j is Bool,
    }
}

/// The boolean of such a field; absent and null both read as `None`.
pub open spec fn bool_field(o: Option<Json>) -> Option<bool> {
    match o {
        Some(Json::Bool(b)) => Some(b),
        _ => None,
    }
}

/// A field read as an optional unsigned 64-bit number: absent, null, or
/// a number with such a value.
pub open spec fn u64_field_ok(o: Option<Json>) -> bool {
    match o {
        None => true,
        Some(j) => j is Null || (j matches Json::Num(Some(_))),
    }
}

/// The number of such a field; absent and null both read as `None`.
pub open spec fn u64_field(o: Option<Json>) -> Option<u64> {
    match o {
        Some(Json::Num(Some(n))) => Some(n),
        _ => None,
    }
}

/// A field read as an optional unsigned 32-bit number.
pub open spec fn u32_field_ok(o: Option<Json>) -> bool {
    match o {
        None => true,
        Some(j) => j is Null || (j matches Json::Num(Some(n)) && n <= u32::MAX),
    }
}

/// The number of such a field; absent and null both read as `None`.
pub open spec fn u32_field(o: Option<Json>) -> Option<u32> {
    match o {
        Some(Json::Num(Some(n))) => if n <= u32::MAX {
            Some(n as u32)
        } else {
            None
        },
        _ => None,
    }
}

/// A required string field: present and a string, or nothing.
pub open spec fn req_str(o: Option<Json>) -> Option<String> {
    match o {
        Some(Json::Str(s)) => Some(s),
        _ => None,
    }
}

/// A required unsigned 64-bit number field: present and a number with
/// such a value, or nothing.
pub open spec fn req_u64(o: Option<Json>) -> Option<u64> {
    match o {
        Some(Json::Num(Some(n))) => Some(n),
        _ => None,
    }
}

/// The outcome record a JSON value decodes to: an object whose
/// `messageId`, `url` and `error` fields (if present) are strings and
/// whose `deduplicated` field (if present) is a boolean. Anything else
/// decodes to nothing.
pub open spec fn spec_record_of(j: Json) -> Option<QstashResponse> {
    match j {
        Json::Obj(fields) => {
            let mid = spec_obj_get(fields@, "messageId"@);
            let url = spec_obj_get(fields@, "url"@);
            let err = spec_obj_get(fields@, "error"@);
            let ded = spec_obj_get(fields@, "deduplicated"@);
            if str_field_ok(mid) && str_field_ok(url) && str_field_ok(err) && bool_field_ok(ded) {
                Some(
                    QstashResponse {
                        message_id: str_field(mid),
                        url: str_field(url),
                        error: str_field(err),
                        deduplicated: bool_field(ded),
                    },
                )
            } else {
                None
            }
        },
        _ => None,
    }
}

/// The records of a JSON array, in the array's order; nothing if any
/// element is not an outcome record.
pub open spec fn spec_records_of(items: Seq<Json>) -> Option<Seq<QstashResponse>>
    decreases items.len(),
{
    if items.len() == 0 {
        Some(Seq::empty())
    } else {
        match spec_records_of(items.drop_last()) {
            None => None,
            Some(rs) => match spec_record_of(items.last()) {
                None => None,
                Some(r) => Some(rs.push(r)),
            },
        }
    }
}

/// What a response body decodes to under a decode mode. A body that is
/// not JSON is a decode failure. In single mode the body must be one
/// outcome record, and the result is that record alone; in list mode it
/// must be an array of records, and the result keeps the array's order.
pub open spec fn spec_decode(mode: DecodeMode, parsed: Option<Json>) -> Result<
    Seq<QstashResponse>,
    PublishFailure,
> {
    match parsed {
        None => Err(PublishFailure::Decode),
        Some(j) => match mode {
            DecodeMode::Single => match spec_record_of(j) {
                Some(r) => Ok(seq![r]),
                None => Err(PublishFailure::Decode),
            },
            DecodeMode::List => match j {
                Json::Arr(items) => match spec_records_of(items@) {
                    Some(rs) => Ok(rs),
                    None => Err(PublishFailure::Decode),
                },
                _ => Err(PublishFailure::Decode),
            },
        },
    }
}

/// Reads an optional string field of an object, refusing other shapes.
pub(crate) fn get_str_field(fields: &Vec<(String, Json)>, key: &str) -> (r: Result<Option<String>, ()>)
    ensures
        r is Ok <==> str_field_ok(spec_obj_get(fields@, key@)),
        r matches Ok(v) ==> v == str_field(spec_obj_get(fields@, key@)),
{
    match obj_get(fields, key) {
        None => Ok(None),
        Some(j) => match j {
            Json::Null => Ok(None),
            Json::Str(s) => Ok(Some(s.clone())),
            _ => Err(()),
        },
    }
}

/// Reads an optional boolean field of an object, refusing other shapes.
pub(crate) fn get_bool_field(fields: &Vec<(String, Json)>, key: &str) -> (r: Result<Option<bool>, ()>)
    ensures
        r is Ok <==> bool_field_ok(spec_obj_get(fields@, key@)),
        r matches Ok(v) ==> v == bool_field(spec_obj_get(fields@, key@)),
{
    match obj_get(fields, key) {
        None => Ok(None),
        Some(j) => match j {
            Json::Null => Ok(None),
            Json::Bool(b) => Ok(Some(*b)),
            _ => Err(()),
        },
    }
}

/// Reads an optional unsigned 64-bit field of an object.
pub(crate) fn get_u64_field(fields: &Vec<(String, Json)>, key: &str) -> (r: Result<
    Option<u64>,
    (),
>)
    ensures
        r is Ok <==> u64_field_ok(spec_obj_get(fields@, key@)),
        r matches Ok(v) ==> v == u64_field(spec_obj_get(fields@, key@)),
{
    match obj_get(fields, key) {
        None => Ok(None),
        Some(j) => match j {
            Json::Null => Ok(None),
            Json::Num(n) => match n {
                Some(v) => Ok(Some(*v)),
                None => Err(()),
            },
            _ => Err(()),
        },
    }
}

/// Reads an optional unsigned 32-bit field of an object.
pub(crate) fn get_u32_field(fields: &Vec<(String, Json)>, key: &str) -> (r: Result<
    Option<u32>,
    (),
>)
    ensures
        r is Ok <==> u32_field_ok(spec_obj_get(fields@, key@)),
        r matches Ok(v) ==> v == u32_field(spec_obj_get(fields@, key@)),
{
    match obj_get(fields, key) {
        None => Ok(None),
        Some(j) => match j {
            Json::Null => Ok(None),
            Json::Num(n) => match n {
                Some(v) => if *v <= u32::MAX as u64 {
                    Ok(Some(*v as u32))
                } else {
                    Err(())
                },
                None => Err(()),
            },
            _ => Err(()),
        },
    }
}

/// Reads a required string field of an object.
pub(crate) fn get_req_str_field(fields: &Vec<(String, Json)>, key: &str) -> (r: Result<
    String,
    (),
>)
    ensures
        r is Ok <==> req_str(spec_obj_get(fields@, key@)) is Some,
        r matches Ok(v) ==> req_str(spec_obj_get(fields@, key@)) == Some(v),
{
    match obj_get(fields, key) {
        None => Err(()),
        Some(j) => match j {
            Json::Str(s) => Ok(s.clone()),
            _ => Err(()),
        },
    }
}

/// Reads a required unsigned 64-bit field of an object.
pub(crate) fn get_req_u64_field(fields: &Vec<(String, Json)>, key: &str) -> (r: Result<u64, ()>)
    ensures
        r is Ok <==> req_u64(spec_obj_get(fields@, key@)) is Some,
        r matches Ok(v) ==> req_u64(spec_obj_get(fields@, key@)) == Some(v),
{
    match obj_get(fields, key) {
        None => Err(()),
        Some(j) => match j {
            Json::Num(n) => match n {
                Some(v) => Ok(*v),
                None => Err(()),
            },
            _ => Err(()),
        },
    }
}

/// The strings of a JSON array, in order; nothing if any element is not
/// a string.
pub open spec fn spec_strings_of(items: Seq<Json>) -> Option<Seq<String>>
    decreases items.len(),
{
    if items.len() == 0 {
        Some(Seq::empty())
    } else {
        match spec_strings_of(items.drop_last()) {
            None => None,
            Some(ss) => match items.last() {
                Json::Str(s) => Some(ss.push(s)),
                _ => None,
            },
        }
    }
}

proof fn lemma_strings_of_bad_item(items: Seq<Json>, i: int)
    requires
        0 <= i < items.len(),
        !(items[i] is Str),
    ensures
        spec_strings_of(items) is None,
    decreases items.len(),
{
    if i < items.len() - 1 {
        lemma_strings_of_bad_item(items.drop_last(), i);
    }
}

/// Reads every element of a JSON array as a string, keeping order.
#[verifier::loop_isolation(false)]
pub(crate) fn strings_of_array(items: &Vec<Json>) -> (r: Option<Vec<String>>)
    ensures
        r is Some <==> spec_strings_of(items@) is Some,
        r matches Some(ss) ==> spec_strings_of(items@) == Some(ss@),
{
    let mut out: Vec<String> = Vec::new();
    let mut i: usize = 0;
    proof {
        assert(items@.take(0) =~= Seq::<Json>::empty());
    }
    while i < items.len()
        invariant
            i <= items@.len(),
            spec_strings_of(items@.take(i as int)) == Some(out@),
        decreases items@.len() - i,
    {
        proof {
            assert(items@.take(i + 1 as int).drop_last() =~= items@.take(i as int));
            assert(items@.take(i + 1 as int).last() == items@[i as int]);
        }
        match &items[i] {
            Json::Str(s) => {
                out.push(s.clone());
            },
            _ => {
                proof {
                    lemma_strings_of_bad_item(items@, i as int);
                }
                return None;
            },
        }
        i += 1;
    }
    proof {
        assert(items@.take(items@.len() as int) =~= items@);
    }
    Some(out)
}

/// The view of decoded pass-through header entries: each value list as
/// its sequence.
pub open spec fn header_entries_view(v: Seq<(String, Vec<String>)>) -> Seq<(String, Seq<String>)> {
    v.map_values(|p: (String, Vec<String>)| (p.0, p.1@))
}

/// The header entries of a JSON object: each field value must be an
/// array of strings.
pub open spec fn spec_header_entries_of(entries: Seq<(String, Json)>) -> Option<
    Seq<(String, Seq<String>)>,
>
    decreases entries.len(),
{
    if entries.len() == 0 {
        Some(Seq::empty())
    } else {
        match spec_header_entries_of(entries.drop_last()) {
            None => None,
            Some(hs) => match entries.last().1 {
                Json::Arr(items) => match spec_strings_of(items@) {
                    Some(ss) => Some(hs.push((entries.last().0, ss))),
                    None => None,
                },
                _ => None,
            },
        }
    }
}

proof fn lemma_header_entries_bad_item(entries: Seq<(String, Json)>, i: int)
    requires
        0 <= i < entries.len(),
        !(entries[i].1 matches Json::Arr(items) && spec_strings_of(items@) is Some),
    ensures
        spec_header_entries_of(entries) is None,
    decreases entries.len(),
{
    if i < entries.len() - 1 {
        lemma_header_entries_bad_item(entries.drop_last(), i);
    }
}

/// Decodes the fields of a JSON object as header entries.
#[verifier::loop_isolation(false)]
pub(crate) fn header_entries_of(entries: &Vec<(String, Json)>) -> (r: Option<
    Vec<(String, Vec<String>)>,
>)
    ensures
        r is Some <==> spec_header_entries_of(entries@) is Some,
        r matches Some(hs) ==> spec_header_entries_of(entries@) == Some(header_entries_view(hs@)),
{
    let mut out: Vec<(String, Vec<String>)> = Vec::new();
    let mut i: usize = 0;
    proof {
        assert(entries@.take(0) =~= Seq::<(String, Json)>::empty());
        assert(header_entries_view(out@) =~= Seq::<(String, Seq<String>)>::empty());
    }
    while i < entries.len()
        invariant
            i <= entries@.len(),
            spec_header_entries_of(entries@.take(i as int)) == Some(header_entries_view(out@)),
        decreases entries@.len() - i,
    {
        let ghost pre = header_entries_view(out@);
        proof {
            assert(entries@.take(i + 1 as int).drop_last() =~= entries@.take(i as int));
            assert(entries@.take(i + 1 as int).last() == entries@[i as int]);
        }
        match &entries[i].1 {
            Json::Arr(items) => {
                match strings_of_array(items) {
                    Some(ss) => {
                        let ghost ssv = ss@;
                        let name = entries[i].0.clone();
                        out.push((name, ss));
                        proof {
                            assert(header_entries_view(out@) =~= pre.push(
                                (entries@[i as int].0, ssv),
                            ));
                        }
                    },
                    None => {
                        proof {
                            lemma_header_entries_bad_item(entries@, i as int);
                        }
                        return None;
                    },
                }
            },
            _ => {
                proof {
                    lemma_header_entries_bad_item(entries@, i as int);
                }
                return None;
            },
        }
        i += 1;
    }
    proof {
        assert(entries@.take(entries@.len() as int) =~= entries@);
    }
    Some(out)
}

/// An optional header-map field: absent, null, or an object whose every
/// value is an array of strings.
pub open spec fn header_map_ok(o: Option<Json>) -> bool {
    match o {
        None => true,
        Some(j) => match j {
            Json::Null => true,
            Json::Obj(entries) => spec_header_entries_of(entries@) is Some,
            _ => false,
        },
    }
}

/// The entries of such a field; absent and null both read as `None`.
pub open spec fn header_map(o: Option<Json>) -> Option<Seq<(String, Seq<String>)>> {
    match o {
        Some(Json::Obj(entries)) => spec_header_entries_of(entries@),
        _ => None,
    }
}

/// Reads an optional header-map field of an object.
pub(crate) fn get_header_map_field(fields: &Vec<(String, Json)>, key: &str) -> (r: Result<
    Option<Vec<(String, Vec<String>)>>,
    (),
>)
    ensures
        r is Ok <==> header_map_ok(spec_obj_get(fields@, key@)),
        r matches Ok(v) ==> match v {
            None => header_map(spec_obj_get(fields@, key@)) is None,
            Some(hs) => header_map(spec_obj_get(fields@, key@)) == Some(header_entries_view(hs@)),
        },
{
    match obj_get(fields, key) {
        None => Ok(None),
        Some(j) => match j {
            Json::Null => Ok(None),
            Json::Obj(entries) => match header_entries_of(entries) {
                Some(hs) => Ok(Some(hs)),
                None => Err(()),
            },
            _ => Err(()),
        },
    }
}

/// Decodes one JSON value as an outcome record.
pub fn record_of_json(j: &Json) -> (r: Option<QstashResponse>)
    ensures
        r == spec_record_of(*j),
{
    match j {
        Json::Obj(fields) => {
            let message_id = match get_str_field(fields, "messageId") {
                Ok(v) => v,
                Err(_) => {
                    return None;
                },
            };
            let url = match get_str_field(fields, "url") {
                Ok(v) => v,
                Err(_) => {
                    return None;
                },
            };
            let error = match get_str_field(fields, "error") {
                Ok(v) => v,
                Err(_) => {
                    return None;
                },
            };
            let deduplicated = match get_bool_field(fields, "deduplicated") {
                Ok(v) => v,
                Err(_) => {
                    return None;
                },
            };
            Some(QstashResponse { message_id, url, error, deduplicated })
        },
        _ => None,
    }
}

proof fn lemma_records_of_bad_item(items: Seq<Json>, i: int)
    requires
        0 <= i < items.len(),
        spec_record_of(items[i]) is None,
    ensures
        spec_records_of(items) is None,
    decreases items.len(),
{
    if i == items.len() - 1 {
    } else {
        lemma_records_of_bad_item(items.drop_last(), i);
    }
}

/// Decodes every element of a JSON array as an outcome record, keeping
/// the array's order.
#[verifier::loop_isolation(false)]
fn records_of_array(items: &Vec<Json>) -> (r: Option<Vec<QstashResponse>>)
    ensures
        r is Some <==> spec_records_of(items@) is Some,
        r matches Some(rs) ==> spec_records_of(items@) == Some(rs@),
{
    let mut out: Vec<QstashResponse> = Vec::new();
    let mut i: usize = 0;
    proof {
        assert(items@.take(0) =~= Seq::<Json>::empty());
    }
    while i < items.len()
        invariant
            i <= items@.len(),
            spec_records_of(items@.take(i as int)) == Some(out@),
        decreases items@.len() - i,
    {
        proof {
            assert(items@.take(i + 1 as int).drop_last() =~= items@.take(i as int));
            assert(items@.take(i + 1 as int).last() == items@[i as int]);
        }
        match record_of_json(&items[i]) {
            Some(rec) => {
                out.push(rec);
            },
            None => {
                proof {
                    lemma_records_of_bad_item(items@, i as int);
                }
                return None;
            },
        }
        i += 1;
    }
    proof {
        assert(items@.take(items@.len() as int) =~= items@);
    }
    Some(out)
}

/// Decodes a response body under a decode mode: the single outcome record
/// wrapped as a one-element result, or the array of records in the
/// server's order. A body that does not parse, or does not match the
/// shape the mode calls for, is a decode failure — never an empty result.
pub fn decode_publish_response(mode: DecodeMode, body: &str) -> (r: Result<
    Vec<QstashResponse>,
    PublishFailure,
>)
    ensures
        r is Ok <==> spec_decode(mode, json_of(body@)) is Ok,
        r matches Ok(rs) ==> spec_decode(mode, json_of(body@)) == Ok::<_, PublishFailure>(rs@),
        r matches Err(e) ==> spec_decode(mode, json_of(body@)) == Err::<Seq<QstashResponse>, _>(e),
{
    let parsed = match parse_json(body) {
        Some(j) => j,
        None => {
            return Err(PublishFailure::Decode);
        },
    };
    match mode {
        DecodeMode::Single => {
            match record_of_json(&parsed) {
                Some(rec) => {
                    let mut out: Vec<QstashResponse> = Vec::new();
                    out.push(rec);
                    proof {
                        assert(out@ =~= seq![spec_record_of(parsed)->0]);
                    }
                    Ok(out)
                },
                None => Err(PublishFailure::Decode),
            }
        },
        DecodeMode::List => {
            match parsed {
                Json::Arr(items) => {
                    match records_of_array(&items) {
                        Some(rs) => Ok(rs),
                        None => Err(PublishFailure::Decode),
                    }
                },
                _ => Err(PublishFailure::Decode),
            }
        },
    }
}

// ---------------------------------------------------------------------------
// Laws of the normalizer
// ---------------------------------------------------------------------------

/// Law: under single mode a successful decode is one outcome record —
/// never a list — whatever the body held.
pub proof fn lemma_single_mode_one_record(parsed: Option<Json>)
    requires
        spec_decode(DecodeMode::Single, parsed) is Ok,
    ensures
        spec_decode(DecodeMode::Single, parsed)->Ok_0.len() == 1,
{
}

/// Law: under list mode a successful decode has one record per array
/// element, the i-th record decoded from the i-th element — the server's
/// order is kept exactly.
pub proof fn lemma_list_mode_keeps_order(items: Seq<Json>)
    requires
        spec_records_of(items) is Some,
    ensures
        spec_records_of(items)->0.len() == items.len(),
        forall|i: int|
            0 <= i < items.len() ==> spec_record_of(#[trigger] items[i]) == Some(
                spec_records_of(items)->0[i],
            ),
    decreases items.len(),
{
    if items.len() == 0 {
    } else {
        lemma_list_mode_keeps_order(items.drop_last());
        assert forall|i: int| 0 <= i < items.len() implies spec_record_of(#[trigger] items[i])
            == Some(spec_records_of(items)->0[i]) by {
            if i < items.len() - 1 {
                assert(items.drop_last()[i] == items[i]);
            }
        }
    }
}

} // verus!
