//! JSON documents, read through serde_json into a value type of the library's own.

use vstd::prelude::*;

verus! {

/// A JSON value. Object members keep the order in which serde_json hands them out.
#[derive(Debug)]
pub enum Json {
    Null,
    Bool(bool),
    /// A number, as its JSON text.
    Number(String),
    Str(String),
    Array(Vec<Json>),
    /// An object: member names, and their values at the same positions.
    Object(Vec<String>, Vec<Json>),
}

#[verifier::external_type_specification]
#[verifier::external_body]
pub struct ExValue(serde_json::Value);

/// The value that serde_json reads from the text `s`; `None` when `s` is not one valid
/// JSON document.
pub uninterp spec fn json_of(s: Seq<char>) -> Option<Json>;

/// Relies on `serde_json::from_str` into `serde_json::Value`: parses `s` as one JSON
/// document, or gives the error's text; the value is converted variant for variant.
#[verifier::external_body]
pub(crate) fn json_parse(s: &str) -> (r: Result<Json, String>)
    ensures
        match json_of(s@) {
            Some(j) => r == Ok::<Json, String>(j),
            None => r is Err,
        },
{
    serde_json::from_str::<serde_json::Value>(s).map(|v| json_from_value(&v)).map_err(|e| e.to_string())
}

/// Relies on the variants of `serde_json::Value`: converts one for one, numbers as their
/// JSON text.
#[verifier::external_body]
fn json_from_value(v: &serde_json::Value) -> Json {
    match v {
        serde_json::Value::Null => Json::Null,
        serde_json::Value::Bool(b) => Json::Bool(*b),
        serde_json::Value::Number(n) => Json::Number(n.to_string()),
        serde_json::Value::String(s) => Json::Str(s.clone()),
        serde_json::Value::Array(a) => Json::Array(a.iter().map(json_from_value).collect()),
        serde_json::Value::Object(m) => Json::Object(m.keys().cloned().collect(), m.values().map(json_from_value).collect()),
    }
}

/// The first member named `key`.
pub open spec fn member(keys: Seq<String>, values: Seq<Json>, key: Seq<char>) -> Option<Json>
    decreases keys.len(),
{
    if keys.len() == 0 || values.len() == 0 {
        None
    } else if keys[0]@ == key {
        Some(values[0])
    } else {
        member(keys.drop_first(), values.drop_first(), key)
    }
}

/// The member `key` of an object; `None` for anything else.
pub open spec fn get_member(j: Json, key: Seq<char>) -> Option<Json> {
    match j {
        Json::Object(k, v) => member(k@, v@, key),
        _ => None,
    }
}

/// The text of a string value.
pub open spec fn str_of(j: Option<Json>) -> Option<Seq<char>> {
    match j {
        Some(Json::Str(s)) => Some(s@),
        _ => None,
    }
}

/// The elements of an array value.
pub open spec fn array_of(j: Option<Json>) -> Option<Seq<Json>> {
    match j {
        Some(Json::Array(a)) => Some(a@),
        _ => None,
    }
}

/// The member `key` of an object.
pub fn json_member<'a>(j: &'a Json, key: &str) -> (r: Option<&'a Json>)
    ensures
        match get_member(*j, key@) {
            Some(x) => r matches Some(y) && *y == x,
            None => r is None,
        },
{
    match j {
        Json::Object(ks, vs) => {
            let mut i: usize = 0;
            assert(ks@.subrange(0, ks@.len() as int) =~= ks@);
            assert(vs@.subrange(0, vs@.len() as int) =~= vs@);
            while i < ks.len() && i < vs.len()
                invariant
                    i <= ks@.len(),
                    i <= vs@.len(),
                    get_member(*j, key@) == member(ks@, vs@, key@),
                    member(ks@, vs@, key@) == member(
                        ks@.subrange(i as int, ks@.len() as int),
                        vs@.subrange(i as int, vs@.len() as int),
                        key@,
                    ),
                decreases ks@.len() - i,
            {
                assert(ks@.subrange(i as int, ks@.len() as int).drop_first() =~= ks@.subrange(i + 1, ks@.len() as int));
                assert(vs@.subrange(i as int, vs@.len() as int).drop_first() =~= vs@.subrange(i + 1, vs@.len() as int));
                if String::from_str(ks[i].as_str()) == String::from_str(key) {
                    assert(ks@.subrange(i as int, ks@.len() as int)[0] == ks@[i as int]);
                    assert(vs@.subrange(i as int, vs@.len() as int)[0] == vs@[i as int]);
                    assert(ks@[i as int]@ == key@);
                    assert(member(ks@, vs@, key@) == Some(vs@[i as int]));
                    assert(get_member(*j, key@) == Some(vs@[i as int]));
                    return Some(&vs[i]);
                }
                i = i + 1;
            }
            None
        },
        _ => None,
    }
}

/// The text of the string member `key` of an object.
pub fn json_str_member(j: &Json, key: &str) -> (r: Option<String>)
    ensures
        match str_of(get_member(*j, key@)) {
            Some(s) => r matches Some(t) && t@ == s,
            None => r is None,
        },
{
    match json_member(j, key) {
        Some(Json::Str(s)) => Some(String::from_str(s.as_str())),
        _ => None,
    }
}

} // verus!
