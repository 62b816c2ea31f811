//! Decoding of the one payload a helper process receives on standard input:
//! a JSON object with an `idl` field (an opaque interface description) and a
//! `dest_crate` field (where the generated crate goes). The decoder's contract
//! pins, for every byte string, whether decoding succeeds and exactly which
//! values or which error come out.

use vstd::prelude::*;

use crate::json::Json;
use crate::json::find_key;
use crate::json::key_lookup;
use crate::json::parse_json_bytes;
use crate::json::parse_json_doc;

verus! {

/// Where the generated crate should be written: a filesystem path, and an
/// optional crate name (when absent, the downstream builder picks a default).
#[derive(Debug, PartialEq)]
pub struct GlueGunDestinationCrate {
    /// Path at which to create the crate.
    pub path: String,

    /// Name to give the crate; `None` lets the builder choose.
    pub crate_name: Option<String>,
}

/// Why a payload was rejected. `Syntax` carries the parser's own diagnostic
/// text; the other variants name the first field, in decoding order, whose
/// absence or shape broke the payload.
#[derive(Debug, PartialEq)]
pub enum DecodeError {
    /// The bytes are not one well-formed JSON document.
    Syntax(String),
    /// The document is not a JSON object.
    NotObject,
    /// The document has no `idl` field.
    MissingIdl,
    /// The document has no `dest_crate` field.
    MissingDestCrate,
    /// The `dest_crate` field is not a JSON object.
    DestNotObject,
    /// The `dest_crate` object has no `path` field.
    MissingPath,
    /// The `dest_crate.path` field is not a string.
    PathNotString,
    /// The `dest_crate.crate_name` field is neither a string nor null.
    CrateNameNotString,
}

/// The destination-crate descriptor a JSON value denotes: an object whose
/// `path` field is a string and whose `crate_name` field, if present, is a
/// string or null. Fields beyond those two are tolerated.
pub open spec fn dest_result(j: Json) -> Result<GlueGunDestinationCrate, DecodeError> {
    match j {
        Json::Obj(fields) => match key_lookup(fields@, "path"@) {
            Option::None => Err(DecodeError::MissingPath),
            Option::Some(pv) => match pv {
                Json::Str(p) => match key_lookup(fields@, "crate_name"@) {
                    Option::None => Ok(
                        GlueGunDestinationCrate { path: p, crate_name: Option::None },
                    ),
                    Option::Some(nv) => match nv {
                        Json::Null => Ok(
                            GlueGunDestinationCrate { path: p, crate_name: Option::None },
                        ),
                        Json::Str(n) => Ok(
                            GlueGunDestinationCrate { path: p, crate_name: Option::Some(n) },
                        ),
                        _ => Err(DecodeError::CrateNameNotString),
                    },
                },
                _ => Err(DecodeError::PathNotString),
            },
        },
        _ => Err(DecodeError::DestNotObject),
    }
}

/// The payload a JSON document denotes: an object carrying an `idl` field,
/// taken as it stands, and a `dest_crate` field read by `dest_result`.
/// Errors in the destination descriptor surface before a missing `idl`.
pub open spec fn payload_result(doc: Json) -> Result<(Json, GlueGunDestinationCrate), DecodeError> {
    match doc {
        Json::Obj(fields) => match key_lookup(fields@, "dest_crate"@) {
            Option::None => Err(DecodeError::MissingDestCrate),
            Option::Some(dj) => match dest_result(dj) {
                Err(e) => Err(e),
                Ok(d) => match key_lookup(fields@, "idl"@) {
                    Option::None => Err(DecodeError::MissingIdl),
                    Option::Some(i) => Ok((i, d)),
                },
            },
        },
        _ => Err(DecodeError::NotObject),
    }
}

/// Reads a destination-crate descriptor out of one JSON value.
pub fn dest_of_json(j: &Json) -> (r: Result<GlueGunDestinationCrate, DecodeError>)
    ensures
        r == dest_result(*j),
{
    match j {
        Json::Obj(fields) => {
            let path_key = String::from_str("path");
            let p = match find_key(fields, &path_key) {
                Option::None => {
                    return Err(DecodeError::MissingPath);
                },
                Option::Some(i) => match &fields[i].1 {
                    Json::Str(p) => p.clone(),
                    _ => {
                        return Err(DecodeError::PathNotString);
                    },
                },
            };
            let name_key = String::from_str("crate_name");
            let crate_name = match find_key(fields, &name_key) {
                Option::None => Option::None,
                Option::Some(i) => match &fields[i].1 {
                    Json::Null => Option::None,
                    Json::Str(n) => Option::Some(n.clone()),
                    _ => {
                        return Err(DecodeError::CrateNameNotString);
                    },
                },
            };
            Ok(GlueGunDestinationCrate { path: p, crate_name })
        },
        _ => Err(DecodeError::DestNotObject),
    }
}

/// Decodes the whole standard-input payload. For every byte string the result
/// is pinned: the bytes parse as one JSON document and carry a well-formed
/// payload, and the exact `idl` value and descriptor come back; or the first
/// offending part of the document names the error; or the bytes are not JSON
/// at all and the parser's diagnostic comes back as `Syntax`.
pub fn decode_payload(input: &Vec<u8>) -> (r: Result<(Json, GlueGunDestinationCrate), DecodeError>)
    ensures
        match parse_json_doc(input@) {
            Option::Some(doc) => r == payload_result(doc),
            Option::None => r is Err && r->Err_0 is Syntax,
        },
{
    let doc = match parse_json_bytes(input) {
        Ok(d) => d,
        Err(m) => {
            return Err(DecodeError::Syntax(m));
        },
    };
    let mut fields = match doc {
        Json::Obj(f) => f,
        _ => {
            return Err(DecodeError::NotObject);
        },
    };
    let dest_key = String::from_str("dest_crate");
    let dest = match find_key(&fields, &dest_key) {
        Option::None => {
            return Err(DecodeError::MissingDestCrate);
        },
        Option::Some(i) => match dest_of_json(&fields[i].1) {
            Ok(d) => d,
            Err(e) => {
                return Err(e);
            },
        },
    };
    let idl_key = String::from_str("idl");
    let idl_idx = match find_key(&fields, &idl_key) {
        Option::None => {
            return Err(DecodeError::MissingIdl);
        },
        Option::Some(i) => i,
    };
    let pair = fields.remove(idl_idx);
    Ok((pair.1, dest))
}

/// Writes a destination-crate descriptor back as a JSON value. The contract
/// is the round-trip law: reading the encoding yields the descriptor again,
/// field for field, for every descriptor.
pub fn dest_to_json(dest: &GlueGunDestinationCrate) -> (r: Json)
    ensures
        dest_result(r) == Ok::<GlueGunDestinationCrate, DecodeError>(*dest),
{
    let mut fields: Vec<(String, Json)> = Vec::new();
    fields.push((String::from_str("path"), Json::Str(dest.path.clone())));
    let name_json = match &dest.crate_name {
        Option::Some(n) => Json::Str(n.clone()),
        Option::None => Json::Null,
    };
    fields.push((String::from_str("crate_name"), name_json));
    let r = Json::Obj(fields);
    proof {
        reveal_strlit("path");
        reveal_strlit("crate_name");
        assert(fields@.len() == 2);
        assert(fields@[0].0@ == "path"@);
        assert(fields@[0].0@ != "crate_name"@);
        assert(key_lookup(fields@, "path"@) == Some(fields@[0].1));
        assert(key_lookup(fields@, "crate_name"@) == key_lookup(fields@.drop_first(), "crate_name"@));
        assert(fields@.drop_first()[0].0@ == "crate_name"@);
        assert(key_lookup(fields@.drop_first(), "crate_name"@) == Some(fields@[1].1));
    }
    r
}

/// The well-formed-payload law: a JSON object that carries any `idl` value,
/// and a `dest_crate` object whose `path` is a string and whose `crate_name`
/// is null, decodes to exactly that `idl` value, that path, and no crate name.
pub proof fn lemma_well_formed_payload(
    doc: Json,
    fields: Vec<(String, Json)>,
    dv: Vec<(String, Json)>,
    idl: Json,
    path: String,
)
    requires
        doc == Json::Obj(fields),
        key_lookup(fields@, "idl"@) == Some(idl),
        key_lookup(fields@, "dest_crate"@) == Some(Json::Obj(dv)),
        key_lookup(dv@, "path"@) == Some(Json::Str(path)),
        key_lookup(dv@, "crate_name"@) == Some(Json::Null),
    ensures
        payload_result(doc) == Ok::<(Json, GlueGunDestinationCrate), DecodeError>(
            (idl, GlueGunDestinationCrate { path, crate_name: Option::None }),
        ),
{
}

} // verus!
