use nickel_jwt_session::base64url::{decode, encode, symbol, value};

#[test]
fn encodes_the_rfc_4648_vectors_without_padding() {
    assert_eq!(encode(b""), b"".to_vec());
    assert_eq!(encode(b"f"), b"Zg".to_vec());
    assert_eq!(encode(b"fo"), b"Zm8".to_vec());
    assert_eq!(encode(b"foo"), b"Zm9v".to_vec());
    assert_eq!(encode(b"foob"), b"Zm9vYg".to_vec());
    assert_eq!(encode(b"fooba"), b"Zm9vYmE".to_vec());
    assert_eq!(encode(b"foobar"), b"Zm9vYmFy".to_vec());
}

#[test]
fn decodes_the_rfc_4648_vectors_without_padding() {
    assert_eq!(decode(b""), Some(b"".to_vec()));
    assert_eq!(decode(b"Zg"), Some(b"f".to_vec()));
    assert_eq!(decode(b"Zm8"), Some(b"fo".to_vec()));
    assert_eq!(decode(b"Zm9v"), Some(b"foo".to_vec()));
    assert_eq!(decode(b"Zm9vYg"), Some(b"foob".to_vec()));
    assert_eq!(decode(b"Zm9vYmE"), Some(b"fooba".to_vec()));
    assert_eq!(decode(b"Zm9vYmFy"), Some(b"foobar".to_vec()));
}

#[test]
fn uses_the_url_safe_characters() {
    assert_eq!(encode(&[0xfb, 0xff]), b"-_8".to_vec());
    assert_eq!(decode(b"-_8"), Some(vec![0xfb, 0xff]));
    assert_eq!(decode(b"+/8"), None);
    assert_eq!(symbol(62), b'-');
    assert_eq!(symbol(63), b'_');
    assert_eq!(value(b'+'), None);
    assert_eq!(value(b'/'), None);
}

#[test]
fn alphabet_is_a_bijection() {
    for v in 0u8..64 {
        assert_eq!(value(symbol(v)), Some(v));
    }
    let mut members = 0;
    for c in 0u8..=255 {
        if let Some(v) = value(c) {
            assert_eq!(symbol(v), c);
            members += 1;
        }
    }
    assert_eq!(members, 64);
}

#[test]
fn refuses_padding_and_strays() {
    assert_eq!(decode(b"Zg=="), None);
    assert_eq!(decode(b"Zm8="), None);
    assert_eq!(decode(b"Zm 9v"), None);
    assert_eq!(decode(b"Zm9v\n"), None);
    assert_eq!(decode(b"Zm9v."), None);
}

#[test]
fn refuses_a_single_character_and_loose_bits() {
    assert_eq!(decode(b"Z"), None);
    assert_eq!(decode(b"Zm9vY"), None);
    // "Zh" would be "f" with the four unused bits not zero.
    assert_eq!(decode(b"Zh"), None);
    // "Zm9" would be "fo" with the two unused bits not zero.
    assert_eq!(decode(b"Zm9"), None);
}

#[test]
fn decoding_undoes_encoding() {
    let mut bytes: Vec<u8> = Vec::new();
    for n in 0..300u32 {
        assert_eq!(decode(&encode(&bytes)), Some(bytes.clone()));
        bytes.push((n * 37 % 256) as u8);
    }
}

#[test]
fn a_text_that_decodes_is_the_encoding_of_its_bytes() {
    for text in [&b"AA"[..], b"AQ", b"AAA", b"AAE", b"____", b"abcd-w", b"0123456789A"] {
        let bytes = decode(text).unwrap();
        assert_eq!(encode(&bytes), text.to_vec());
    }
}
