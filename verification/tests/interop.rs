use hmac::{Hmac, Mac};
use jwt::header::HeaderType;
use jwt::{AlgorithmType, Claims, Header, RegisteredClaims, SignWithKey, Token, VerifyWithKey};
use nickel_jwt_session::base64url::{decode, encode};
use nickel_jwt_session::claims::{ClaimSet, ClaimValue};
use nickel_jwt_session::codec::{sign, verify};
use nickel_jwt_session::mac::authentication_code;
use nickel_jwt_session::middleware::SessionMiddleware;
use sha2::Sha256;
use std::collections::BTreeMap;

fn carl() -> ClaimSet {
    ClaimSet::new(
        Some("example.org".to_owned()),
        Some("carl".to_owned()),
        Some(1000),
        Some(1060),
        vec![
            ("admin".to_owned(), ClaimValue::Bool(true)),
            ("name".to_owned(), ClaimValue::Text("Carl".to_owned())),
            ("visits".to_owned(), ClaimValue::Integer(3)),
        ],
    )
    .unwrap()
}

fn carl_elsewhere() -> Claims {
    let mut private = BTreeMap::new();
    private.insert("admin".to_owned(), serde_json::Value::Bool(true));
    private.insert("name".to_owned(), serde_json::Value::String("Carl".to_owned()));
    private.insert("visits".to_owned(), serde_json::Value::from(3));
    Claims {
        registered: RegisteredClaims {
            issuer: Some("example.org".to_owned()),
            subject: Some("carl".to_owned()),
            expiration: Some(1060),
            not_before: Some(1000),
            ..Default::default()
        },
        private,
    }
}

#[test]
fn other_verifiers_accept_our_tokens() {
    let token = sign(&carl(), b"s1").unwrap();
    let key: Hmac<Sha256> = Hmac::new_from_slice(b"s1").unwrap();
    let claims: Claims = token.as_str().verify_with_key(&key).unwrap();
    assert_eq!(claims, carl_elsewhere());
    let wrong: Hmac<Sha256> = Hmac::new_from_slice(b"s2").unwrap();
    let refused: Result<Claims, jwt::Error> = token.as_str().verify_with_key(&wrong);
    assert!(refused.is_err());
}

#[test]
fn we_accept_the_tokens_of_other_signers() {
    let key: Hmac<Sha256> = Hmac::new_from_slice(b"s1").unwrap();
    let token: String = carl_elsewhere().sign_with_key(&key).unwrap();
    assert_eq!(verify(&token, b"s1"), Ok(carl()));
}

#[test]
fn our_tokens_are_those_of_other_signers_with_the_same_header() {
    let key: Hmac<Sha256> = Hmac::new_from_slice(b"s1").unwrap();
    let header = Header {
        algorithm: AlgorithmType::Hs256,
        type_: Some(HeaderType::JsonWebToken),
        ..Default::default()
    };
    let elsewhere = Token::new(header, carl_elsewhere()).sign_with_key(&key).unwrap();
    assert_eq!(sign(&carl(), b"s1").unwrap(), elsewhere.as_str());
}

#[test]
fn the_middleware_issues_tokens_that_other_verifiers_accept() {
    let middleware = SessionMiddleware::new("s1").issuer("example.org").expiration_time(60);
    let token = middleware.make_token(Some("carl"), vec![], 1000).unwrap();
    let key: Hmac<Sha256> = Hmac::new_from_slice(b"s1").unwrap();
    let claims: Claims = token.as_str().verify_with_key(&key).unwrap();
    assert_eq!(claims.registered.issuer, Some("example.org".to_owned()));
    assert_eq!(claims.registered.subject, Some("carl".to_owned()));
    assert_eq!(claims.registered.not_before, Some(1000));
    assert_eq!(claims.registered.expiration, Some(1060));
    assert!(claims.private.is_empty());
}

#[test]
fn code_agrees_with_another_implementation() {
    let mut key: Vec<u8> = Vec::new();
    let mut message: Vec<u8> = Vec::new();
    for n in 0..200u32 {
        let mut other: Hmac<Sha256> = Hmac::new_from_slice(&key).unwrap();
        other.update(&message);
        assert_eq!(
            authentication_code(&key, &message).unwrap(),
            other.finalize().into_bytes().to_vec()
        );
        key.push((n * 7 % 256) as u8);
        message.push((n * 13 % 256) as u8);
        message.push((n * 31 % 256) as u8);
    }
}

#[test]
fn encoding_agrees_with_another_implementation() {
    let mut bytes: Vec<u8> = Vec::new();
    for n in 0..300u32 {
        let elsewhere = base64::encode_config(&bytes, base64::URL_SAFE_NO_PAD);
        assert_eq!(encode(&bytes), elsewhere.into_bytes());
        bytes.push((n * 151 % 256) as u8);
    }
}

#[test]
fn decoding_agrees_with_another_implementation_on_short_texts() {
    let alphabet = b"AZaz09-_Q=+/. g";
    let mut texts: Vec<Vec<u8>> = vec![vec![]];
    for _ in 0..4 {
        let mut longer = Vec::new();
        for text in texts.iter() {
            for c in alphabet.iter() {
                let mut next = text.clone();
                next.push(*c);
                longer.push(next);
            }
        }
        for text in longer.iter() {
            if text.contains(&b'=') {
                continue;
            }
            let elsewhere = base64::decode_config(text, base64::URL_SAFE_NO_PAD).ok();
            assert_eq!(decode(text), elsewhere);
        }
        texts = longer;
    }
}

#[test]
fn padding_is_refused_here() {
    assert_eq!(decode(b"QQ=="), None);
    assert_eq!(decode(b"QUE="), None);
}
