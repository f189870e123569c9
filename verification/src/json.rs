//! Response normalization. A response is either the "no content" success
//! (status 204), which becomes an explicit variant, or it carries a body that
//! must parse as JSON and is handed back as is; anything else is a decode
//! error. Statuses other than 204 are not interpreted: a 4xx or 5xx JSON body
//! is a normal parse result, and reading it is the caller's business.

use vstd::prelude::*;

use crate::rest::LcuError;

verus! {

#[verifier::external_type_specification]
#[verifier::external_body]
pub struct ExJsonValue(serde_json::Value);

#[verifier::external_type_specification]
#[verifier::external_body]
pub struct ExJsonError(serde_json::Error);

/// Whether `serde_json` parses these bytes as one JSON value. Parsing is a
/// deterministic function of the bytes alone, so the outcome has a name.
pub uninterp spec fn json_ok(bytes: Seq<u8>) -> bool;

/// Relies on `serde_json::from_slice::<Value>`: whether it returns `Ok` is a
/// deterministic function of the input bytes, named `json_ok`.
#[verifier::external_body]
fn parse_json(bytes: &[u8]) -> (r: Result<serde_json::Value, serde_json::Error>)
    ensures
        r is Ok <==> json_ok(bytes@),
{
    serde_json::from_slice(bytes)
}

/// Relies on `serde_json`'s `Map` and `Value` constructors: builds the JSON
/// object with the single field named `key` holding the number `code`.
#[verifier::external_body]
fn singleton_object(key: &str, code: u16) -> (r: serde_json::Value) {
    let mut object = serde_json::Map::new();
    object.insert(key.to_owned(), serde_json::Value::from(code));
    serde_json::Value::Object(object)
}

/// A normalized response: an empty "no content" success, or the parsed body.
/// A `Value` carries, as ghost information, the bytes it was parsed from.
pub enum LcuResponse {
    NoContent,
    Value(serde_json::Value, Ghost<Seq<u8>>),
}

impl LcuResponse {
    /// The caller-facing generic value: a parsed body is handed back as is,
    /// and the empty success becomes the sentinel object `{"status": 204}`,
    /// so a caller can tell "succeeded with no payload" apart without reading
    /// the HTTP status itself.
    pub fn into_value(self) -> (r: serde_json::Value)
        ensures
            self matches LcuResponse::Value(v, _) ==> r == v,
    {
        match self {
            LcuResponse::NoContent => singleton_object("status", 204),
            LcuResponse::Value(v, _) => v,
        }
    }
}

/// What `normalize_response` returns for a response with the given status and
/// body bytes: status 204 is the empty success whatever the body holds; any
/// other status yields the value parsed from exactly the body's bytes when
/// they are JSON, and a decode error when they are not.
pub open spec fn normalized(status: u16, body: Seq<u8>, r: Result<LcuResponse, LcuError>) -> bool {
    &&& (status == 204 ==> (r matches Ok(resp) && resp is NoContent))
    &&& (status != 204 && json_ok(body) ==> (r matches Ok(resp) && (
    resp matches LcuResponse::Value(_, src) && src@ == body)))
    &&& (status != 204 && !json_ok(body) ==> (r matches Err(e) && e is Decode))
}

/// Normalize one response, the same way for every request method.
pub fn normalize_response(status: u16, body: &[u8]) -> (r: Result<LcuResponse, LcuError>)
    ensures
        normalized(status, body@, r),
{
    if status == 204 {
        return Ok(LcuResponse::NoContent);
    }
    match parse_json(body) {
        Ok(v) => Ok(LcuResponse::Value(v, Ghost(body@))),
        Err(e) => Err(LcuError::Decode(e)),
    }
}

/// Normalization is deterministic on the client's side: two results obtained
/// from one status and equal body bytes agree on success, agree on whether
/// the response was the empty success, and parsed values come from the same
/// bytes. Together with the request methods taking the client by shared
/// reference, this is the client's statelessness: repeating a request against
/// an unchanged backend response yields the same normalized outcome.
pub proof fn lemma_normalization_deterministic(
    status: u16,
    body: Seq<u8>,
    r1: Result<LcuResponse, LcuError>,
    r2: Result<LcuResponse, LcuError>,
)
    requires
        normalized(status, body, r1),
        normalized(status, body, r2),
    ensures
        r1 is Ok <==> r2 is Ok,
        (r1 is Ok && r2 is Ok) ==> (r1->Ok_0 is NoContent <==> r2->Ok_0 is NoContent),
        (r1 is Ok && r2 is Ok && r1->Ok_0 is Value && r2->Ok_0 is Value) ==> r1->Ok_0->Value_1@
            == r2->Ok_0->Value_1@,
{
}

} // verus!
