//! The HTTP transport, held behind trusted declarations: building a client
//! handle that carries one fixed bearer credential and tolerates the local
//! host's self-issued certificate.

use vstd::prelude::*;

verus! {

#[verifier::external_type_specification]
#[verifier::external_body]
pub struct ExClient(reqwest::Client);

#[verifier::external_type_specification]
#[verifier::external_body]
pub struct ExReqwestError(reqwest::Error);

#[verifier::external_type_specification]
#[verifier::external_body]
pub struct ExHeaderValue(reqwest::header::HeaderValue);

#[verifier::external_type_specification]
#[verifier::external_body]
pub struct ExInvalidHeaderValue(reqwest::header::InvalidHeaderValue);

/// Relies on `reqwest::Client`'s derived `Clone`: a client is a shared,
/// reference-counted handle (an `Arc` around the transport), so the clone is
/// a handle to the very same transport and configuration.
pub assume_specification[ <reqwest::Client as Clone>::clone ](c: &reqwest::Client) -> (r:
    reqwest::Client)
    ensures
        r == *c,
;

/// A character that may stand in an HTTP header value: the visible range and
/// everything above it, or a tab. Every byte of the UTF-8 encoding of such a
/// character is a legal header-value byte, and for a character outside this
/// set some byte of its encoding is not.
pub open spec fn valid_header_char(c: char) -> bool {
    c == '\t' || (32 <= c as u32 && c as u32 != 127)
}

/// A text whose characters may all stand in an HTTP header value.
pub open spec fn valid_header_text(s: Seq<char>) -> bool {
    forall|i: int| 0 <= i < s.len() ==> valid_header_char(s[i])
}

/// Relies on `http::HeaderValue::from_str` (reqwest re-exports it): it returns
/// `Ok` exactly when every byte of the text is a legal header-value byte
/// (at least 32 and not 127, or a tab). The fixed `Bearer ` prefix is made of
/// legal bytes, so the outcome turns on the token alone.
#[verifier::external_body]
fn bearer_header(token: &str) -> (r: Result<
    reqwest::header::HeaderValue,
    reqwest::header::InvalidHeaderValue,
>)
    ensures
        r is Ok <==> valid_header_text(token@),
{
    reqwest::header::HeaderValue::from_str(&format!("Bearer {}", token))
}

/// Relies on reqwest's `ClientBuilder`: `default_headers` makes every request
/// of the built client carry the given authorization header,
/// `danger_accept_invalid_certs(true)` lets the local host's self-issued
/// certificate pass, and `build` constructs the handle without touching the
/// network. Nothing is promised of the outcome: the builder decides.
#[verifier::external_body]
fn build_transport(auth: reqwest::header::HeaderValue) -> (r: Result<
    reqwest::Client,
    reqwest::Error,
>) {
    let mut headers = reqwest::header::HeaderMap::new();
    headers.insert(reqwest::header::AUTHORIZATION, auth);
    reqwest::Client::builder().default_headers(headers).danger_accept_invalid_certs(true).build()
}

/// Build a transport handle whose every request carries `Bearer <token>`.
/// Returns the header error when the token cannot stand in a header, and the
/// builder's error when the transport cannot be built.
pub(crate) fn build_authenticated_transport(token: &str) -> (r: Result<
    reqwest::Client,
    crate::rest::LcuError,
>)
    ensures
        !valid_header_text(token@) <==> (r matches Err(e) && e is InvalidCredential),
        valid_header_text(token@) ==> (r is Ok || (r matches Err(e) && e is Construction)),
{
    let header = match bearer_header(token) {
        Ok(h) => h,
        Err(e) => {
            return Err(crate::rest::LcuError::InvalidCredential(e));
        },
    };
    match build_transport(header) {
        Ok(c) => Ok(c),
        Err(e) => Err(crate::rest::LcuError::Construction(e)),
    }
}

} // verus!
