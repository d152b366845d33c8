//! A plain JSON document tree, and the trusted bridge that obtains one
//! from raw report text.

use vstd::prelude::*;

verus! {

/// A JSON value. Object members and array elements are held in order.
/// The audit schema uses only small non-negative integers, so a number
/// outside the non-negative 64-bit range is kept only as a marker.
#[derive(Debug)]
pub enum Json {
    Null,
    Bool(bool),
    UInt(u64),
    OtherNum,
    Text(String),
    Arr(Vec<Json>),
    Obj(Vec<(String, Json)>),
}

/// The document that well-formed JSON text denotes, or nothing where the
/// text is not well-formed JSON. The denotation is a function of the text
/// alone.
pub uninterp spec fn json_of(s: Seq<char>) -> Option<Json>;

/// Declares serde_json's value type, so that the conversion below may take
/// it; nothing is assumed about what such a value holds.
#[verifier::external_type_specification]
#[verifier::external_body]
pub struct ExJsonValue(serde_json::Value);

/// Conversion half of [`parse_json_text`]: reshapes a decoded
/// `serde_json::Value` into the crate's own tree, one variant to one
/// variant. Called only from that wrapper's body.
#[verifier::external_body]
fn value_of(v: &serde_json::Value) -> Json {
    match v {
        serde_json::Value::Null => Json::Null,
        serde_json::Value::Bool(b) => Json::Bool(*b),
        serde_json::Value::Number(n) => match n.as_u64() {
            Some(u) => Json::UInt(u),
            None => Json::OtherNum,
        },
        serde_json::Value::String(s) => Json::Text(s.clone()),
        serde_json::Value::Array(a) => Json::Arr(a.iter().map(value_of).collect()),
        serde_json::Value::Object(m) => Json::Obj(
            m.iter().map(|(k, val)| (k.clone(), value_of(val))).collect(),
        ),
    }
}

/// Relies on `serde_json::from_str::<serde_json::Value>`: whether the text
/// is well-formed JSON, and which document it denotes, depend on the text
/// alone. On failure the error carries serde_json's description.
#[verifier::external_body]
pub fn parse_json_text(s: &str) -> (r: Result<Json, String>)
    ensures
        r is Ok <==> json_of(s@) is Some,
        r matches Ok(j) ==> json_of(s@) == Some(j),
{
    match serde_json::from_str::<serde_json::Value>(s) {
        Ok(v) => Ok(value_of(&v)),
        Err(e) => Err(format!("{}", e)),
    }
}

/// The value filed under `key` in an object's member list, searching from
/// the front.
pub open spec fn obj_lookup(entries: Seq<(String, Json)>, key: Seq<char>) -> Option<Json>
    decreases entries.len(),
{
    if entries.len() == 0 {
        None
    } else if entries[0].0@ == key {
        Some(entries[0].1)
    } else {
        obj_lookup(entries.drop_first(), key)
    }
}

/// Finds the value filed under `key` in an object's member list.
pub fn obj_get<'a>(entries: &'a Vec<(String, Json)>, key: &str) -> (r: Option<&'a Json>)
    ensures
        match r {
            Some(j) => obj_lookup(entries@, key@) == Some(*j),
            None => obj_lookup(entries@, key@) is None,
        },
{
    let k = key.to_owned();
    let mut i: usize = 0;
    proof {
        assert(entries@.skip(0) =~= entries@);
    }
    while i < entries.len()
        invariant
            i <= entries@.len(),
            k@ == key@,
            obj_lookup(entries@, key@) == obj_lookup(entries@.skip(i as int), key@),
        decreases entries@.len() - i,
    {
        proof {
            assert(entries@.skip(i as int)[0] == entries@[i as int]);
            assert(entries@.skip(i as int).drop_first() =~= entries@.skip(i + 1));
        }
        if entries[i].0 == k {
            return Some(&entries[i].1);
        }
        i = i + 1;
    }
    proof {
        assert(entries@.skip(entries@.len() as int) =~= Seq::<(String, Json)>::empty());
    }
    None
}

} // verus!
