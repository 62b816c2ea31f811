//! The crate's own model of a JSON document, and the trusted parser behind it.
//!
//! The orchestrator's payload arrives as JSON text. Parsing is delegated to
//! serde_json behind one trusted wrapper; everything read out of the parsed
//! document afterwards is verified code over the `Json` tree defined here.

use vstd::prelude::*;

verus! {

/// One JSON value. A number is kept as its printed text, so that a document
/// may carry any JSON number while this crate stays free of floating point;
/// an object is kept as its fields in order of appearance after the parser's
/// own key handling.
#[derive(Debug, PartialEq)]
pub enum Json {
    Null,
    Bool(bool),
    Num(String),
    Str(String),
    Arr(Vec<Json>),
    Obj(Vec<(String, Json)>),
}

/// The value of the first field named `key`, if any.
pub open spec fn key_lookup(fields: Seq<(String, Json)>, key: Seq<char>) -> Option<Json>
    decreases fields.len(),
{
    if fields.len() == 0 {
        None
    } else if fields[0].0@ == key {
        Some(fields[0].1)
    } else {
        key_lookup(fields.drop_first(), key)
    }
}

/// `key_lookup` returns the field at the first index whose name matches.
pub proof fn lemma_key_lookup_at(fields: Seq<(String, Json)>, key: Seq<char>, i: int)
    requires
        0 <= i < fields.len(),
        fields[i].0@ == key,
        forall|j: int| 0 <= j < i ==> fields[j].0@ != key,
    ensures
        key_lookup(fields, key) == Some(fields[i].1),
    decreases i,
{
    if i > 0 {
        lemma_key_lookup_at(fields.drop_first(), key, i - 1);
    }
}

/// `key_lookup` finds nothing when no field bears the name.
pub proof fn lemma_key_lookup_none(fields: Seq<(String, Json)>, key: Seq<char>)
    requires
        forall|j: int| 0 <= j < fields.len() ==> fields[j].0@ != key,
    ensures
        key_lookup(fields, key) is None,
    decreases fields.len(),
{
    if fields.len() > 0 {
        lemma_key_lookup_none(fields.drop_first(), key);
    }
}

/// Index of the first field named `key`, related to `key_lookup`.
pub(crate) fn find_key(fields: &Vec<(String, Json)>, key: &String) -> (r: Option<usize>)
    ensures
        match r {
            Some(i) => i < fields@.len() && fields@[i as int].0@ == key@
                && key_lookup(fields@, key@) == Some(fields@[i as int].1),
            None => key_lookup(fields@, key@) is None,
        },
{
    let mut i: usize = 0;
    while i < fields.len()
        invariant
            i <= fields@.len(),
            forall|j: int| 0 <= j < i ==> fields@[j].0@ != key@,
        decreases fields@.len() - i,
    {
        if fields[i].0 == *key {
            proof {
                lemma_key_lookup_at(fields@, key@, i as int);
            }
            return Some(i);
        }
        i = i + 1;
    }
    proof {
        lemma_key_lookup_none(fields@, key@);
    }
    None
}

#[verifier::external_type_specification]
#[verifier::external_body]
pub struct ExValue(serde_json::Value);

/// What serde_json's parser yields on these bytes, carried over into this
/// crate's `Json` tree: `Some` exactly on the byte strings that form one
/// well-formed JSON document. The result depends on the bytes alone.
pub uninterp spec fn parse_json_doc(s: Seq<u8>) -> Option<Json>;

/// Relies on serde_json::Value's public variants: rebuilds a parsed document
/// as this crate's `Json` tree, one arm per variant, each number kept as its
/// printed text and each object's fields in the order the map hands them out.
#[verifier::external_body]
fn json_of_value(v: serde_json::Value) -> Json {
    match v {
        serde_json::Value::Null => Json::Null,
        serde_json::Value::Bool(b) => Json::Bool(b),
        serde_json::Value::Number(n) => Json::Num(n.to_string()),
        serde_json::Value::String(s) => Json::Str(s),
        serde_json::Value::Array(a) => Json::Arr(a.into_iter().map(json_of_value).collect()),
        serde_json::Value::Object(o) => Json::Obj(
            o.into_iter().map(|p| (p.0, json_of_value(p.1))).collect(),
        ),
    }
}

/// Relies on serde_json::from_slice: parses exactly one JSON document from the
/// bytes, deterministically, and reports a diagnostic message otherwise. The
/// parse outcome is named by `parse_json_doc`.
#[verifier::external_body]
pub(crate) fn parse_json_bytes(bytes: &Vec<u8>) -> (r: Result<Json, String>)
    ensures
        match r {
            Ok(doc) => parse_json_doc(bytes@) == Some(doc),
            Err(_) => parse_json_doc(bytes@) is None,
        },
{
    match serde_json::from_slice::<serde_json::Value>(bytes) {
        Ok(v) => Ok(json_of_value(v)),
        Err(e) => Err(e.to_string()),
    }
}

} // verus!
