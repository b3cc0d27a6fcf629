//! Tokens on the wire: three base64url segments with a dot between them.
//!
//! The first segment is the fixed header, the second the payload, and the
//! third the authentication code of the first two with the dot between
//! them. Signing builds such a text; verifying takes one apart, checks the
//! code and only then reads the payload. Neither looks at the clock.

use crate::base64url;
use crate::base64url::{decoded, encoded, well_formed};
use crate::claims::{ClaimSet, ClaimSetView};
use crate::error::TokenError;
use crate::mac::{authentication_code, code_of, same_code, HASH_LIMIT};
use crate::payload::{
    accept_claims,
    accepted,
    outcome_view,
    parse_payload,
    payload_json,
    spec_parse_payload,
    spec_payload_json,
};
use vstd::prelude::*;
use vstd::slice::slice_subrange;
use vstd::utf8::{encode_utf8, is_ascii_chars, valid_utf8};

verus! {

/// The dot that stands between two segments.
pub const SEPARATOR: u8 = 46;

/// A payload shorter than this, 2^60 bytes, can always be signed: its
/// segment, with the header before it, stays within the limit of the hash.
pub const PAYLOAD_LIMIT: u64 = 0x1000_0000_0000_0000;

/// The header of every token, `{"alg":"HS256","typ":"JWT"}`, as contracts
/// see it.
pub open spec fn header_bytes() -> Seq<u8> {
    seq![
        123u8, 34, 97, 108, 103, 34, 58, 34, 72, 83, 50, 53, 54, 34, 44, 34, 116, 121, 112, 34, 58,
        34, 74, 87, 84, 34, 125,
    ]
}

/// The header of every token: the algorithm is HMAC with SHA-256 and the
/// type is JWT.
pub fn header_json() -> (header: Vec<u8>)
    ensures
        header@ == header_bytes(),
{
    let header: Vec<u8> = vec![
        123u8, 34, 97, 108, 103, 34, 58, 34, 72, 83, 50, 53, 54, 34, 44, 34, 116, 121, 112, 34, 58,
        34, 74, 87, 84, 34, 125,
    ];
    assert(header@ =~= header_bytes());
    header
}

/// Two texts with a dot between them.
pub open spec fn joined(left: Seq<u8>, right: Seq<u8>) -> Seq<u8> {
    left + seq![SEPARATOR] + right
}

/// What is signed for a payload: the header segment, a dot and the payload
/// segment.
pub open spec fn signing_input(payload: Seq<u8>) -> Seq<u8> {
    joined(encoded(header_bytes()), encoded(payload))
}

/// The token for a payload under a key, where the payload can be
/// authenticated.
pub open spec fn token_of(payload: Seq<u8>, key: Seq<u8>) -> Option<Seq<u8>> {
    match code_of(key, signing_input(payload)) {
        Some(code) => Some(joined(signing_input(payload), encoded(code))),
        None => None,
    }
}

/// The token for a claim set under a key, where it has one.
pub open spec fn signed(claims: ClaimSetView, key: Seq<u8>) -> Option<Seq<u8>> {
    match spec_payload_json(claims) {
        Some(payload) => token_of(payload, key),
        None => None,
    }
}

/// Whether a text has exactly two dots, at `first` and `second`.
pub open spec fn splits_at(token: Seq<u8>, first: int, second: int) -> bool {
    &&& 0 <= first < second < token.len()
    &&& token[first] == SEPARATOR
    &&& token[second] == SEPARATOR
    &&& forall|k: int|
        0 <= k < token.len() && k != first && k != second ==> #[trigger] token[k] != SEPARATOR
}

/// The three parts of a token.
pub ghost struct Segments {
    pub header: Seq<u8>,
    pub payload: Seq<u8>,
    pub signature: Seq<u8>,
}

/// The parts that a text falls into when it is cut at two places.
pub open spec fn cut(token: Seq<u8>, first: int, second: int) -> Segments {
    Segments {
        header: token.subrange(0, first),
        payload: token.subrange(first + 1, second),
        signature: token.subrange(second + 1, token.len() as int),
    }
}

/// The three segments of a text with exactly two dots.
pub open spec fn segments(token: Seq<u8>) -> Option<Segments> {
    if exists|first: int, second: int| splits_at(token, first, second) {
        let (first, second) = choose|first: int, second: int| splits_at(token, first, second);
        Some(cut(token, first, second))
    } else {
        None
    }
}

/// The payload that a text carries under a key. The text is malformed
/// unless it has three segments that are all base64url; after that the
/// signature is bad unless the third is the code of the first two.
pub open spec fn authenticated(token: Seq<u8>, key: Seq<u8>) -> Result<Seq<u8>, TokenError> {
    match segments(token) {
        None => Err(TokenError::Malformed),
        Some(parts) => {
            if !well_formed(parts.header) || !well_formed(parts.payload) || !well_formed(
                parts.signature,
            ) {
                Err(TokenError::Malformed)
            } else if code_of(key, joined(parts.header, parts.payload)) != decoded(
                parts.signature,
            ) {
                Err(TokenError::BadSignature)
            } else {
                Ok(decoded(parts.payload)->0)
            }
        },
    }
}

/// What verifying a text under a key gives: the claim set of its payload,
/// once the text is authenticated.
pub open spec fn verified(token: Seq<u8>, key: Seq<u8>) -> Result<ClaimSetView, TokenError> {
    match authenticated(token, key) {
        Ok(payload) => accepted(spec_parse_payload(payload)),
        Err(e) => Err(e),
    }
}

/// An optional token as contracts see it: its bytes.
pub open spec fn token_view(token: Option<String>) -> Option<Seq<u8>> {
    match token {
        Some(text) => Some(encode_utf8(text@)),
        None => None,
    }
}

/// A text has at most one pair of places at which it splits.
pub proof fn lemma_split_unique(token: Seq<u8>, i: int, j: int, k: int, l: int)
    requires
        splits_at(token, i, j),
        splits_at(token, k, l),
    ensures
        i == k,
        j == l,
{
}

/// The segments of a text that splits at two given places.
pub proof fn lemma_segments_at(token: Seq<u8>, first: int, second: int)
    requires
        splits_at(token, first, second),
    ensures
        segments(token) == Some(cut(token, first, second)),
{
    let (i, j) = choose|i: int, j: int| splits_at(token, i, j);
    lemma_split_unique(token, first, second, i, j);
}

/// Whether a text holds no dot.
pub open spec fn dot_free(text: Seq<u8>) -> bool {
    forall|i: int| 0 <= i < text.len() ==> #[trigger] text[i] != SEPARATOR
}

/// No character of a base64url text is a dot, and all are ASCII.
pub proof fn lemma_well_formed_plain(text: Seq<u8>)
    requires
        well_formed(text),
    ensures
        dot_free(text),
        forall|i: int| 0 <= i < text.len() ==> #[trigger] text[i] < 128,
{
    assert forall|i: int| 0 <= i < text.len() implies #[trigger] text[i] != SEPARATOR && text[i]
        < 128 by {
        base64url::lemma_well_formed_alphabet(text, i);
    }
}

/// Three texts without dots, joined by dots, come apart into the same three.
pub proof fn lemma_segments_joined(header: Seq<u8>, payload: Seq<u8>, signature: Seq<u8>)
    requires
        dot_free(header),
        dot_free(payload),
        dot_free(signature),
    ensures
        segments(joined(joined(header, payload), signature)) == Some(
            Segments { header, payload, signature },
        ),
{
    let token = joined(joined(header, payload), signature);
    let first = header.len() as int;
    let second = first + 1 + payload.len();
    assert forall|k: int|
        0 <= k < token.len() && k != first && k != second implies #[trigger] token[k]
        != SEPARATOR by {
        if k < first {
            assert(token[k] == header[k]);
        } else if k < second {
            assert(token[k] == payload[k - first - 1]);
        } else {
            assert(token[k] == signature[k - second - 1]);
        }
    }
    lemma_segments_at(token, first, second);
    assert(token.subrange(0, first) =~= header);
    assert(token.subrange(first + 1, second) =~= payload);
    assert(token.subrange(second + 1, token.len() as int) =~= signature);
}

/// A text comes apart into segments without dots, and is these segments
/// joined by dots.
pub proof fn lemma_segments_rejoined(token: Seq<u8>)
    requires
        segments(token) is Some,
    ensures
        dot_free(segments(token)->0.header),
        dot_free(segments(token)->0.payload),
        dot_free(segments(token)->0.signature),
        token == joined(
            joined(segments(token)->0.header, segments(token)->0.payload),
            segments(token)->0.signature,
        ),
{
    let (first, second) = choose|first: int, second: int| splits_at(token, first, second);
    let header = segments(token)->0.header;
    let payload = segments(token)->0.payload;
    let signature = segments(token)->0.signature;
    assert forall|i: int| 0 <= i < header.len() implies #[trigger] header[i] != SEPARATOR by {
        assert(header[i] == token[i]);
    }
    assert forall|i: int| 0 <= i < payload.len() implies #[trigger] payload[i] != SEPARATOR by {
        assert(payload[i] == token[first + 1 + i]);
    }
    assert forall|i: int| 0 <= i < signature.len() implies #[trigger] signature[i]
        != SEPARATOR by {
        assert(signature[i] == token[second + 1 + i]);
    }
    assert(token =~= joined(joined(header, payload), signature));
}

/// Three texts joined by dots, one of which holds a dot, do not come apart
/// into three segments.
pub proof fn lemma_segments_extra_dot(header: Seq<u8>, payload: Seq<u8>, signature: Seq<u8>)
    requires
        !dot_free(header) || !dot_free(payload) || !dot_free(signature),
    ensures
        segments(joined(joined(header, payload), signature)) is None,
{
    let token = joined(joined(header, payload), signature);
    let first = header.len() as int;
    let second = first + 1 + payload.len();
    assert(token[first] == SEPARATOR);
    assert(token[second] == SEPARATOR);
    let extra: int = if !dot_free(header) {
        choose|i: int| 0 <= i < header.len() && header[i] == SEPARATOR
    } else if !dot_free(payload) {
        first + 1 + choose|i: int| 0 <= i < payload.len() && payload[i] == SEPARATOR
    } else {
        second + 1 + choose|i: int| 0 <= i < signature.len() && signature[i] == SEPARATOR
    };
    assert(0 <= extra < token.len() && extra != first && extra != second);
    assert(token[extra] == SEPARATOR) by {
        if !dot_free(header) {
            assert(token[extra] == header[extra]);
        } else if !dot_free(payload) {
            assert(token[extra] == payload[extra - first - 1]);
        } else {
            assert(token[extra] == signature[extra - second - 1]);
        }
    }
    if exists|a: int, b: int| splits_at(token, a, b) {
        let (a, b) = choose|a: int, b: int| splits_at(token, a, b);
        assert(token[first] == SEPARATOR);
        assert(token[second] == SEPARATOR);
        assert(token[extra] == SEPARATOR);
    }
}

/// A payload within its limit can be signed with a key within the limit of
/// the hash.
pub proof fn lemma_signable(payload: Seq<u8>, key: Seq<u8>)
    requires
        payload.len() < PAYLOAD_LIMIT,
        key.len() < HASH_LIMIT,
    ensures
        token_of(payload, key) is Some,
{
    base64url::lemma_encoded_len(header_bytes());
    base64url::lemma_encoded_len(payload);
}

/// A text of ASCII bytes is valid UTF-8.
pub proof fn lemma_ascii_valid(bytes: Seq<u8>)
    requires
        forall|i: int| 0 <= i < bytes.len() ==> #[trigger] bytes[i] < 128,
    ensures
        valid_utf8(bytes),
{
    let chars = Seq::new(bytes.len(), |i: int| bytes[i] as char);
    assert(is_ascii_chars(chars));
    vstd::utf8::is_ascii_chars_encode_utf8(chars);
    assert(encode_utf8(chars) =~= bytes);
    vstd::utf8::encode_utf8_valid_utf8(chars);
}

/// The token for a payload comes apart into the encodings of the header,
/// of the payload and of the code. Each decodes to what was encoded, and
/// every byte of the token is ASCII.
pub proof fn lemma_token_segments(payload: Seq<u8>, key: Seq<u8>)
    requires
        token_of(payload, key) is Some,
    ensures
        segments(token_of(payload, key)->0) == Some(
            Segments {
                header: encoded(header_bytes()),
                payload: encoded(payload),
                signature: encoded(code_of(key, signing_input(payload))->0),
            },
        ),
        decoded(encoded(header_bytes())) == Some(header_bytes()),
        decoded(encoded(payload)) == Some(payload),
        decoded(encoded(code_of(key, signing_input(payload))->0)) == code_of(
            key,
            signing_input(payload),
        ),
        forall|i: int|
            0 <= i < token_of(payload, key)->0.len() ==> #[trigger] (token_of(payload, key)->0)[i]
                < 128,
{
    let code = code_of(key, signing_input(payload))->0;
    let token = token_of(payload, key)->0;
    let header = encoded(header_bytes());
    let body = encoded(payload);
    let signature = encoded(code);
    base64url::lemma_decoded_encoded(header_bytes());
    base64url::lemma_decoded_encoded(payload);
    base64url::lemma_decoded_encoded(code);
    lemma_well_formed_plain(header);
    lemma_well_formed_plain(body);
    lemma_well_formed_plain(signature);
    lemma_segments_joined(header, body, signature);
    assert forall|i: int| 0 <= i < token.len() implies #[trigger] token[i] < 128 by {
        let first = header.len() as int;
        let second = first + 1 + body.len();
        if i < first {
            assert(token[i] == header[i]);
        } else if first < i < second {
            assert(token[i] == body[i - first - 1]);
        } else if i > second {
            assert(token[i] == signature[i - second - 1]);
        }
    }
}

/// A token is a text: it is valid UTF-8 and is the bytes of the characters
/// that it decodes to.
pub proof fn lemma_token_is_text(payload: Seq<u8>, key: Seq<u8>)
    requires
        token_of(payload, key) is Some,
    ensures
        valid_utf8(token_of(payload, key)->0),
        encode_utf8(vstd::utf8::decode_utf8(token_of(payload, key)->0)) == token_of(
            payload,
            key,
        )->0,
{
    lemma_token_segments(payload, key);
    lemma_ascii_valid(token_of(payload, key)->0);
    vstd::utf8::decode_utf8_encode_utf8(token_of(payload, key)->0);
}

/// `String::from_utf8`: the text whose bytes are the given ones, which
/// exists exactly when they are valid UTF-8.
#[verifier::external_body]
fn string_from_utf8(bytes: Vec<u8>) -> (text: Option<String>)
    ensures
        text is Some <==> valid_utf8(bytes@),
        text matches Some(s) ==> encode_utf8(s@) == bytes@,
{
    String::from_utf8(bytes).ok()
}

/// Finds the two dots of a text that has exactly two.
pub fn split(token: &[u8]) -> (places: Option<(usize, usize)>)
    ensures
        places is Some <==> segments(token@) is Some,
        places matches Some((first, second)) ==> splits_at(token@, first as int, second as int),
{
    let n = token.len();
    let mut dots: usize = 0;
    let mut first: usize = 0;
    let mut second: usize = 0;
    let mut third: usize = 0;
    let mut i: usize = 0;
    while i < n
        invariant
            i <= n,
            n == token@.len(),
            dots <= 3,
            dots >= 1 ==> first < i && token@[first as int] == SEPARATOR,
            dots >= 2 ==> first < second < i && token@[second as int] == SEPARATOR,
            dots >= 3 ==> second < third < i && token@[third as int] == SEPARATOR,
            dots == 0 ==> forall|k: int| 0 <= k < i ==> #[trigger] token@[k] != SEPARATOR,
            dots == 1 ==> forall|k: int|
                0 <= k < i && k != first ==> #[trigger] token@[k] != SEPARATOR,
            dots == 2 ==> forall|k: int|
                0 <= k < i && k != first && k != second ==> #[trigger] token@[k] != SEPARATOR,
        decreases n - i,
    {
        if token[i] == SEPARATOR {
            if dots == 0 {
                first = i;
                dots = 1;
            } else if dots == 1 {
                second = i;
                dots = 2;
            } else if dots == 2 {
                third = i;
                dots = 3;
            }
        }
        i += 1;
    }
    if dots == 2 {
        proof {
            lemma_segments_at(token@, first as int, second as int);
        }
        Some((first, second))
    } else {
        proof {
            if exists|a: int, b: int| splits_at(token@, a, b) {
                let (a, b) = choose|a: int, b: int| splits_at(token@, a, b);
                if dots == 0 {
                    assert(token@[a] == SEPARATOR);
                } else if dots == 1 {
                    assert(token@[a] == SEPARATOR);
                    assert(token@[b] == SEPARATOR);
                } else {
                    assert(token@[first as int] == SEPARATOR);
                    assert(token@[second as int] == SEPARATOR);
                    assert(token@[third as int] == SEPARATOR);
                }
            }
        }
        None
    }
}

/// Signs a payload: the token for it under the key, or `None` where the
/// payload or the key is too long to be authenticated. That is never so
/// for a payload and a key within their limits.
pub fn sign_payload(payload: &[u8], key: &[u8]) -> (token: Option<String>)
    ensures
        token_view(token) == token_of(payload@, key@),
        payload@.len() < PAYLOAD_LIMIT && key@.len() < HASH_LIMIT ==> token is Some,
{
    proof {
        if payload@.len() < PAYLOAD_LIMIT && key@.len() < HASH_LIMIT {
            lemma_signable(payload@, key@);
        }
    }
    let header = header_json();
    let mut text = base64url::encode(header.as_slice());
    let mut body = base64url::encode(payload);
    text.push(SEPARATOR);
    text.append(&mut body);
    assert(text@ =~= signing_input(payload@));
    match authentication_code(key, text.as_slice()) {
        None => None,
        Some(code) => {
            let mut signature = base64url::encode(code.as_slice());
            text.push(SEPARATOR);
            text.append(&mut signature);
            proof {
                assert(text@ =~= joined(signing_input(payload@), encoded(code@)));
                lemma_token_is_text(payload@, key@);
            }
            string_from_utf8(text)
        },
    }
}

/// Takes a token apart and checks its signature: the payload that it
/// carries, `Malformed` or `BadSignature`.
pub fn authenticate(token: &[u8], key: &[u8]) -> (payload: Result<Vec<u8>, TokenError>)
    ensures
        payload is Ok <==> authenticated(token@, key@) is Ok,
        payload matches Ok(p) ==> authenticated(token@, key@) == Ok::<Seq<u8>, TokenError>(p@),
        payload matches Err(e) ==> authenticated(token@, key@) == Err::<Seq<u8>, TokenError>(e),
{
    let (first, second) = match split(token) {
        Some((first, second)) => (first, second),
        None => {
            return Err(TokenError::Malformed);
        },
    };
    proof {
        assert(splits_at(token@, first as int, second as int));
        lemma_segments_at(token@, first as int, second as int);
    }
    let header = base64url::decode(slice_subrange(token, 0, first));
    let body = base64url::decode(slice_subrange(token, first + 1, second));
    let end = token.len();
    let signature = base64url::decode(slice_subrange(token, second + 1, end));
    match (header, body, signature) {
        (Some(_), Some(body), Some(signature)) => {
            let input = slice_subrange(token, 0, second);
            assert(input@ =~= joined(
                token@.subrange(0, first as int),
                token@.subrange(first + 1, second as int),
            ));
            let matches = match authentication_code(key, input) {
                Some(code) => same_code(code.as_slice(), signature.as_slice()),
                None => false,
            };
            if matches {
                Ok(body)
            } else {
                Err(TokenError::BadSignature)
            }
        },
        _ => Err(TokenError::Malformed),
    }
}

/// Signs a claim set with a key. The token is the header, the claim set's
/// JSON text and the code of the two, each in base64url, with dots between
/// them. `None` where the claim set has no JSON text or cannot be
/// authenticated under the key.
pub fn sign(claims: &ClaimSet, key: &[u8]) -> (token: Option<String>)
    requires
        claims.wf(),
    ensures
        token_view(token) == signed(claims@, key@),
{
    match payload_json(claims.clone()) {
        Some(payload) => sign_payload(payload.as_slice(), key),
        None => None,
    }
}

/// Verifies a token under a key and gives back its claim set. The token is
/// `Malformed` unless it is three base64url segments with dots between
/// them; then its signature is bad unless the third segment is the code of
/// the first two under the key; then it is `Malformed` unless its payload
/// stands for a claim set. The time window is not looked at.
pub fn verify(token: &str, key: &[u8]) -> (outcome: Result<ClaimSet, TokenError>)
    ensures
        outcome_view(outcome) == verified(encode_utf8(token@), key@),
        outcome matches Ok(claims) ==> claims.wf(),
{
    match authenticate(token.as_bytes(), key) {
        Ok(payload) => accept_claims(parse_payload(payload.as_slice())),
        Err(e) => Err(e),
    }
}

} // verus!
