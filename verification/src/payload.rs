//! The payload of a token: a claim set written as a JSON object.
//!
//! The object holds `iss`, `sub`, `aud`, `exp`, `nbf`, `iat` and `jti` where
//! the claim set has them, and one member for each application-defined
//! claim. Which JSON text belongs to which claim set is for `serde_json`
//! and the claims type of `jwt` to say; which claim sets the library takes
//! is said here.

use crate::claims::{ClaimSet, ClaimSetView, ClaimValue};
use crate::error::TokenError;
use jwt::{Claims, RegisteredClaims};
use serde_json::Value;
use vstd::prelude::*;

verus! {

/// The JSON text that stands for a claim set, where it has one.
pub uninterp spec fn spec_payload_json(claims: ClaimSetView) -> Option<Seq<u8>>;

/// The claim set that a JSON text stands for, where it stands for one.
pub uninterp spec fn spec_parse_payload(json: Seq<u8>) -> Option<ClaimSetView>;

/// An optional claim set as contracts see it.
pub open spec fn parsed_view(parsed: Option<ClaimSet>) -> Option<ClaimSetView> {
    match parsed {
        Some(claims) => Some(claims@),
        None => None,
    }
}

/// An optional byte string as contracts see it.
pub open spec fn bytes_view(bytes: Option<Vec<u8>>) -> Option<Seq<u8>> {
    match bytes {
        Some(b) => Some(b@),
        None => None,
    }
}

/// `serde_json::to_vec` on a `jwt::Claims` that holds the claim set, field
/// for field, its application-defined claims as the private claims; a
/// claim given as JSON text goes through `serde_json::from_str`. The names
/// of a claim set differ from each other, so the map of the private claims
/// holds them all. The contract gives the outcome a name and says nothing
/// more of it.
#[verifier::external_body]
pub(crate) fn payload_json(claims: ClaimSet) -> (json: Option<Vec<u8>>)
    requires
        claims.wf(),
    ensures
        bytes_view(json) == spec_payload_json(claims@),
{
    let ClaimSet { issuer, subject, audience, expiration, not_before, issued_at, json_web_token_id, custom_claims } = claims;
    let private = custom_claims.into_iter().map(|(name, value)| Some((name, match value {
        ClaimValue::Null => Value::Null,
        ClaimValue::Bool(b) => Value::Bool(b),
        ClaimValue::Integer(n) => Value::from(n),
        ClaimValue::Text(s) => Value::String(s),
        ClaimValue::Json(text) => serde_json::from_str(&text).ok()?,
    }))).collect::<Option<_>>()?;
    let registered = RegisteredClaims { issuer, subject, audience, expiration, not_before, issued_at, json_web_token_id };
    serde_json::to_vec(&Claims { registered, private }).ok()
}

/// `serde_json::from_slice` to a `jwt::Claims`, which becomes the claim
/// set field for field, its private claims as the application-defined
/// claims. A number is an `Integer` where `Number::as_i64` gives one; a
/// list, an object and any other number is handed over as the JSON text
/// that `to_string` gives. The contract gives the outcome a name and says
/// nothing more of it; in particular nothing says that the invariant of a
/// claim set holds of it.
#[verifier::external_body]
pub(crate) fn parse_payload(json: &[u8]) -> (parsed: Option<ClaimSet>)
    ensures
        parsed_view(parsed) == spec_parse_payload(json@),
{
    let Claims { registered, private } = serde_json::from_slice(json).ok()?;
    let RegisteredClaims { issuer, subject, audience, expiration, not_before, issued_at, json_web_token_id } = registered;
    let custom_claims = private.into_iter().map(|(name, value)| (name, match value {
        Value::Null => ClaimValue::Null,
        Value::Bool(b) => ClaimValue::Bool(b),
        Value::String(s) => ClaimValue::Text(s),
        Value::Number(n) => match n.as_i64() {
            Some(i) => ClaimValue::Integer(i),
            None => ClaimValue::Json(n.to_string()),
        },
        other => ClaimValue::Json(other.to_string()),
    })).collect();
    Some(ClaimSet { issuer, subject, audience, expiration, not_before, issued_at, json_web_token_id, custom_claims })
}

/// What becomes of a parsed payload: a claim set is accepted if its
/// invariant holds, that is, if its window does not end before it starts,
/// none of its application-defined claims has a reserved name, and these
/// claims stand in the order of their names. Everything else is malformed.
pub open spec fn accepted(parsed: Option<ClaimSetView>) -> Result<ClaimSetView, TokenError> {
    match parsed {
        Some(claims) => if claims.wf() {
            Ok(claims)
        } else {
            Err(TokenError::Malformed)
        },
        None => Err(TokenError::Malformed),
    }
}

/// The outcome of a decoding as contracts see it.
pub open spec fn outcome_view(outcome: Result<ClaimSet, TokenError>) -> Result<
    ClaimSetView,
    TokenError,
> {
    match outcome {
        Ok(claims) => Ok(claims@),
        Err(e) => Err(e),
    }
}

/// Accepts a parsed payload or refuses it as malformed.
pub fn accept_claims(parsed: Option<ClaimSet>) -> (outcome: Result<ClaimSet, TokenError>)
    ensures
        outcome_view(outcome) == accepted(parsed_view(parsed)),
        outcome matches Ok(claims) ==> claims.wf(),
{
    match parsed {
        Some(claims) => {
            if claims.is_well_formed() {
                Ok(claims)
            } else {
                Err(TokenError::Malformed)
            }
        },
        None => Err(TokenError::Malformed),
    }
}

/// Whether a claim set reads back from its own JSON text: it has a JSON
/// text, and that text stands for the same claim set.
pub open spec fn reads_back(claims: ClaimSetView) -> bool {
    spec_payload_json(claims) is Some && spec_parse_payload(spec_payload_json(claims)->0) == Some(
        claims,
    )
}

/// Finds out whether a claim set reads back from its own JSON text, by
/// writing the text and reading it.
pub fn check_reads_back(claims: &ClaimSet) -> (back: bool)
    requires
        claims.wf(),
    ensures
        back == reads_back(claims@),
{
    match payload_json(claims.clone()) {
        Some(json) => match parse_payload(json.as_slice()) {
            Some(parsed) => parsed.same(claims),
            None => false,
        },
        None => false,
    }
}

/// The claim set that a JSON text stands for, or `Malformed`.
pub fn decode_claims(json: &[u8]) -> (outcome: Result<ClaimSet, TokenError>)
    ensures
        outcome_view(outcome) == accepted(spec_parse_payload(json@)),
        outcome matches Ok(claims) ==> claims.wf(),
{
    accept_claims(parse_payload(json))
}

} // verus!
