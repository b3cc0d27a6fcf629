//! What signing and verifying owe each other.

use crate::base64url;
use crate::base64url::well_formed;
use crate::claims::{ClaimSetView, ClaimValueView};
use crate::context::{RequestView, ResponseView};
use crate::codec::{
    authenticated,
    dot_free,
    joined,
    lemma_segments_extra_dot,
    lemma_segments_joined,
    lemma_segments_rejoined,
    lemma_token_is_text,
    lemma_token_segments,
    lemma_well_formed_plain,
    segments,
    signed,
    signing_input,
    verified,
};
use crate::error::TokenError;
use crate::mac::code_of;
use crate::middleware::{
    after_invoke,
    session_of,
    SessionConfigView,
    checked,
    examined,
    in_window,
    issued,
    minted,
    state_of,
    RequestState,
};
use crate::session::{after_login, claims_of, user_of};
use crate::transport::{cookie_value, TokenLocationView};
use crate::payload::{accepted, reads_back, spec_parse_payload, spec_payload_json};
use vstd::prelude::*;
use vstd::utf8::decode_utf8;

verus! {

/// A signed token authenticates under the key that signed it, and carries
/// the JSON text that was signed.
pub proof fn law_signed_authenticates(claims: ClaimSetView, key: Seq<u8>)
    requires
        signed(claims, key) is Some,
    ensures
        authenticated(signed(claims, key)->0, key) == Ok::<Seq<u8>, TokenError>(
            spec_payload_json(claims)->0,
        ),
{
    lemma_token_segments(spec_payload_json(claims)->0, key);
}

/// Verifying a signed token under the key that signed it gives what
/// reading the claim set's own JSON text gives. So a claim set that reads
/// back from its JSON text comes back from its token unchanged.
pub proof fn law_round_trip(claims: ClaimSetView, key: Seq<u8>)
    requires
        claims.wf(),
        signed(claims, key) is Some,
    ensures
        verified(signed(claims, key)->0, key) == accepted(
            spec_parse_payload(spec_payload_json(claims)->0),
        ),
        reads_back(claims) ==> verified(signed(claims, key)->0, key) == Ok::<
            ClaimSetView,
            TokenError,
        >(claims),
{
    law_signed_authenticates(claims, key);
}

/// A token that authenticates no longer does once its
/// signature segment is replaced by any other text. The signature is bad
/// where the other text is base64url, and the token is malformed where it is
/// not.
pub proof fn law_tampered_signature(token: Seq<u8>, key: Seq<u8>, forged: Seq<u8>)
    requires
        authenticated(token, key) is Ok,
        forged != segments(token)->0.signature,
    ensures
        verified(joined(joined(segments(token)->0.header, segments(token)->0.payload), forged), key) == Err::<
            ClaimSetView,
            TokenError,
        >(
            if well_formed(forged) {
                TokenError::BadSignature
            } else {
                TokenError::Malformed
            },
        ),
{
    let header = segments(token)->0.header;
    let payload = segments(token)->0.payload;
    let signature = segments(token)->0.signature;
    lemma_segments_rejoined(token);
    if dot_free(forged) {
        lemma_segments_joined(header, payload, forged);
        if well_formed(forged) {
            base64url::lemma_encoded_decoded(forged);
            base64url::lemma_encoded_decoded(signature);
        }
    } else {
        lemma_segments_extra_dot(header, payload, forged);
        if well_formed(forged) {
            lemma_well_formed_plain(forged);
        }
    }
}

/// A token with one bit of one character changed.
pub open spec fn flipped(token: Seq<u8>, place: int, bit: u8) -> Seq<u8> {
    token.update(place, token[place] ^ (1u8 << bit))
}

/// Bit by bit: a token that authenticates no longer does
/// once any one bit of its signature segment is flipped. The signature is
/// bad where the segment is still base64url, and the token is malformed
/// where it is not.
pub proof fn law_flipped_bit(token: Seq<u8>, key: Seq<u8>, place: int, bit: u8)
    requires
        authenticated(token, key) is Ok,
        token.len() - segments(token)->0.signature.len() <= place < token.len(),
        bit < 8,
    ensures
        verified(flipped(token, place, bit), key) is Err,
        verified(flipped(token, place, bit), key) == Err::<ClaimSetView, TokenError>(
            TokenError::BadSignature,
        ) || verified(flipped(token, place, bit), key) == Err::<ClaimSetView, TokenError>(
            TokenError::Malformed,
        ),
        well_formed(flipped(token, place, bit).skip(token.len() - segments(token)->0.signature.len()))
            <==> verified(flipped(token, place, bit), key) == Err::<ClaimSetView, TokenError>(
            TokenError::BadSignature,
        ),
{
    let header = segments(token)->0.header;
    let payload = segments(token)->0.payload;
    let signature = segments(token)->0.signature;
    lemma_segments_rejoined(token);
    let start = token.len() - signature.len();
    let old = token[place];
    let new = old ^ (1u8 << bit);
    assert(new != old) by (bit_vector)
        requires
            new == old ^ (1u8 << bit),
            bit < 8,
    ;
    let forged = signature.update(place - start, new);
    assert(forged[place - start] != signature[place - start]);
    assert(flipped(token, place, bit) =~= joined(joined(header, payload), forged));
    assert(flipped(token, place, bit).skip(start) =~= forged);
    law_tampered_signature(token, key, forged);
}

/// A token whose window ended before now is expired, whatever else
/// it says.
pub proof fn law_expired(claims: ClaimSetView, now: u64)
    requires
        claims.wf(),
        claims.expires_at is Some,
        claims.expires_at->0 < now,
    ensures
        in_window(claims, now) == Err::<ClaimSetView, TokenError>(TokenError::Expired),
{
}

/// A token whose window starts after now is not yet valid,
/// whatever else it says.
pub proof fn law_not_yet_valid(claims: ClaimSetView, now: u64)
    requires
        claims.issued_not_before is Some,
        now < claims.issued_not_before->0,
    ensures
        in_window(claims, now) == Err::<ClaimSetView, TokenError>(TokenError::NotYetValid),
{
}

/// A token holds from the first second of its window to the last, both
/// included, and an end that is missing leaves the window open.
pub proof fn law_in_window(claims: ClaimSetView, now: u64)
    requires
        claims.issued_not_before is Some ==> claims.issued_not_before->0 <= now,
        claims.expires_at is Some ==> now <= claims.expires_at->0,
    ensures
        in_window(claims, now) == Ok::<ClaimSetView, TokenError>(claims),
{
}

/// What the middleware makes of a token is what the window makes of its
/// claims: a verified token is rejected as `Expired` or `NotYetValid`, or
/// accepted, by its window alone, and a token that does not verify is
/// rejected for the reason for which it does not.
pub proof fn law_checked_by_window(key: Seq<u8>, token: Seq<u8>, now: u64)
    ensures
        verified(token, key) matches Ok(claims) ==> checked(key, token, now) == in_window(
            claims,
            now,
        ),
        verified(token, key) matches Err(e) ==> checked(key, token, now) == Err::<
            ClaimSetView,
            TokenError,
        >(e),
{
}

/// A request that brings a signed token in the configured cookie is
/// examined as the claims of the token are by their window, provided that
/// these claims read back from their JSON text. Within the window the
/// request is verified and gets a session with the subject of the claims as
/// its user and with their application-defined claims, nothing lost and
/// nothing added; outside the window it stays as it was.
pub proof fn law_token_then_request(
    config: SessionConfigView,
    claims: ClaimSetView,
    request: RequestView,
    now: u64,
)
    requires
        claims.wf(),
        reads_back(claims),
        signed(claims, config.key) is Some,
        config.location matches TokenLocationView::Cookie(name) && cookie_value(
            request.cookies,
            name,
        ) == Some(decode_utf8(signed(claims, config.key)->0)),
    ensures
        verified(signed(claims, config.key)->0, config.key) == Ok::<ClaimSetView, TokenError>(
            claims,
        ),
        examined(config, request, now) == Some(in_window(claims, now)),
        in_window(claims, now) is Ok ==> state_of(examined(config, request, now))
            == RequestState::Verified && after_invoke(config, request, now) == (RequestView {
            session: Some(session_of(claims)),
            ..request
        }),
        in_window(claims, now) is Err ==> after_invoke(config, request, now) == request,
{
    law_round_trip(claims, config.key);
    lemma_token_is_text(spec_payload_json(claims)->0, config.key);
}

/// A request that brings back the cookie that a
/// login set is examined as the claims of the login are by their window,
/// provided that these claims read back from their JSON text. So the request has
/// the user of the login from the second of the login to the last second of
/// the configured time, and is rejected as `Expired` after that.
pub proof fn law_login_then_request(
    response: ResponseView,
    subject: Option<Seq<char>>,
    custom_claims: Seq<(Seq<char>, ClaimValueView)>,
    login: u64,
    request: RequestView,
    now: u64,
)
    requires
        response.config is Some,
        response.config->0.location is Cookie,
        issued(response.config->0, subject, custom_claims, login) is Some,
        reads_back(minted(response.config->0, subject, custom_claims, login)->0),
        after_login(response, subject, custom_claims, login).set_cookie is Some,
        cookie_value(
            request.cookies,
            after_login(response, subject, custom_claims, login).set_cookie->0.name,
        ) == Some(after_login(response, subject, custom_claims, login).set_cookie->0.value),
    ensures
        examined(response.config->0, request, now) == Some(
            in_window(minted(response.config->0, subject, custom_claims, login)->0, now),
        ),
        login <= now <= login + response.config->0.expiration_time ==> user_of(
            after_invoke(response.config->0, request, now),
        ) == subject && claims_of(after_invoke(response.config->0, request, now)) == Some(
            custom_claims,
        ),
        now > login + response.config->0.expiration_time ==> state_of(
            examined(response.config->0, request, now),
        ) == RequestState::Expired && after_invoke(response.config->0, request, now) == request,
{
    let config = response.config->0;
    let claims = minted(config, subject, custom_claims, login)->0;
    law_token_then_request(config, claims, request, now);
}

/// A signed token does not verify under a key that gives what
/// was signed another code than the key that signed it; its signature is
/// bad.
pub proof fn law_wrong_key(claims: ClaimSetView, key: Seq<u8>, other: Seq<u8>)
    requires
        signed(claims, key) is Some,
        code_of(other, signing_input(spec_payload_json(claims)->0)) != code_of(
            key,
            signing_input(spec_payload_json(claims)->0),
        ),
    ensures
        verified(signed(claims, key)->0, other) == Err::<ClaimSetView, TokenError>(
            TokenError::BadSignature,
        ),
{
    lemma_token_segments(spec_payload_json(claims)->0, key);
}

} // verus!
