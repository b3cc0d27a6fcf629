//! The URL-safe base64 alphabet without padding, in its canonical form.
//!
//! Every byte string has exactly one encoding, and a text decodes only if it
//! is the encoding of some byte string: stray characters, padding and unused
//! trailing bits that are not zero are all refused.

use vstd::prelude::*;

verus! {

/// The character that stands for the six-bit value `v`.
pub open spec fn symbol_of(v: int) -> u8 {
    if v < 26 {
        (v + 65) as u8
    } else if v < 52 {
        (v + 71) as u8
    } else if v < 62 {
        (v - 4) as u8
    } else if v == 62 {
        45u8
    } else {
        95u8
    }
}

/// The six-bit value that the character `c` stands for, if it belongs to the
/// alphabet.
pub open spec fn value_of(c: u8) -> Option<int> {
    if 65 <= c <= 90 {
        Some(c - 65)
    } else if 97 <= c <= 122 {
        Some(c - 71)
    } else if 48 <= c <= 57 {
        Some(c + 4)
    } else if c == 45 {
        Some(62int)
    } else if c == 95 {
        Some(63int)
    } else {
        None
    }
}

/// The encoding of a byte string: three bytes become four characters, and a
/// rest of one or two bytes becomes two or three.
pub open spec fn encoded(bytes: Seq<u8>) -> Seq<u8>
    decreases bytes.len(),
{
    if bytes.len() == 0 {
        seq![]
    } else if bytes.len() == 1 {
        head_of_one(bytes[0] as int)
    } else if bytes.len() == 2 {
        head_of_two(bytes[0] as int, bytes[1] as int)
    } else {
        head_of_three(bytes[0] as int, bytes[1] as int, bytes[2] as int) + encoded(bytes.skip(3))
    }
}

/// The two characters for a rest of one byte.
pub open spec fn head_of_one(b0: int) -> Seq<u8> {
    seq![symbol_of(b0 / 4), symbol_of(b0 % 4 * 16)]
}

/// The three characters for a rest of two bytes.
pub open spec fn head_of_two(b0: int, b1: int) -> Seq<u8> {
    seq![symbol_of(b0 / 4), symbol_of(b0 % 4 * 16 + b1 / 16), symbol_of(b1 % 16 * 4)]
}

/// The four characters for three bytes.
pub open spec fn head_of_three(b0: int, b1: int, b2: int) -> Seq<u8> {
    seq![
        symbol_of(b0 / 4),
        symbol_of(b0 % 4 * 16 + b1 / 16),
        symbol_of(b1 % 16 * 4 + b2 / 64),
        symbol_of(b2 % 64),
    ]
}

/// The byte string that a text encodes, or `None` where it encodes none.
pub open spec fn decoded(text: Seq<u8>) -> Option<Seq<u8>>
    decreases text.len(),
{
    if text.len() == 0 {
        Some(seq![])
    } else if text.len() == 1 {
        None
    } else if value_of(text[0]) is None || value_of(text[1]) is None {
        None
    } else {
        let a = value_of(text[0])->0;
        let b = value_of(text[1])->0;
        if text.len() == 2 {
            if b % 16 == 0 {
                Some(seq![(a * 4 + b / 16) as u8])
            } else {
                None
            }
        } else if value_of(text[2]) is None {
            None
        } else {
            let c = value_of(text[2])->0;
            if text.len() == 3 {
                if c % 4 == 0 {
                    Some(seq![(a * 4 + b / 16) as u8, (b % 16 * 16 + c / 4) as u8])
                } else {
                    None
                }
            } else if value_of(text[3]) is None {
                None
            } else {
                let d = value_of(text[3])->0;
                match decoded(text.skip(4)) {
                    Some(rest) => Some(
                        seq![
                            (a * 4 + b / 16) as u8,
                            (b % 16 * 16 + c / 4) as u8,
                            (c % 4 * 64 + d) as u8,
                        ] + rest,
                    ),
                    None => None,
                }
            }
        }
    }
}

/// Whether a text is the encoding of some byte string.
pub open spec fn well_formed(text: Seq<u8>) -> bool {
    decoded(text) is Some
}

/// A value and its character determine each other.
pub proof fn lemma_symbol_value(v: int)
    requires
        0 <= v < 64,
    ensures
        value_of(symbol_of(v)) == Some(v),
{
}

/// Only the characters of the alphabet have a value, and each is the
/// character of its value.
pub proof fn lemma_value_symbol(c: u8)
    requires
        value_of(c) is Some,
    ensures
        0 <= value_of(c)->0 < 64,
        symbol_of(value_of(c)->0) == c,
{
}

/// Three bytes cut into four values and put together again are the same
/// three bytes.
proof fn lemma_cut_join(b0: int, b1: int, b2: int)
    requires
        0 <= b0 < 256,
        0 <= b1 < 256,
        0 <= b2 < 256,
    ensures
        0 <= b0 / 4 < 64,
        0 <= b0 % 4 * 16 + b1 / 16 < 64,
        0 <= b1 % 16 * 4 + b2 / 64 < 64,
        0 <= b2 % 64 < 64,
        (b0 / 4) * 4 + (b0 % 4 * 16 + b1 / 16) / 16 == b0,
        (b0 % 4 * 16 + b1 / 16) % 16 * 16 + (b1 % 16 * 4 + b2 / 64) / 4 == b1,
        (b1 % 16 * 4 + b2 / 64) % 4 * 64 + b2 % 64 == b2,
        (b0 % 4 * 16) % 16 == 0,
        (b1 % 16 * 4) % 4 == 0,
{
}

/// Four values put together into three bytes and cut again are the same
/// four values.
proof fn lemma_join_cut(a: int, b: int, c: int, d: int)
    requires
        0 <= a < 64,
        0 <= b < 64,
        0 <= c < 64,
        0 <= d < 64,
    ensures
        0 <= a * 4 + b / 16 < 256,
        0 <= b % 16 * 16 + c / 4 < 256,
        0 <= c % 4 * 64 + d < 256,
        (a * 4 + b / 16) / 4 == a,
        (a * 4 + b / 16) % 4 * 16 + (b % 16 * 16 + c / 4) / 16 == b,
        (b % 16 * 16 + c / 4) % 16 * 4 + (c % 4 * 64 + d) / 64 == c,
        (c % 4 * 64 + d) % 64 == d,
        b % 16 == 0 ==> (a * 4 + b / 16) % 4 * 16 == b,
        c % 4 == 0 ==> (b % 16 * 16 + c / 4) % 16 * 4 == c,
{
}

/// Decoding undoes encoding.
pub proof fn lemma_decoded_encoded(bytes: Seq<u8>)
    ensures
        decoded(encoded(bytes)) == Some(bytes),
    decreases bytes.len(),
{
    let text = encoded(bytes);
    if bytes.len() == 0 {
        assert(bytes =~= seq![]);
    } else if bytes.len() == 1 {
        let b0 = bytes[0] as int;
        lemma_cut_join(b0, 0, 0);
        lemma_symbol_value(b0 / 4);
        lemma_symbol_value(b0 % 4 * 16);
        assert(decoded(text)->0 =~= bytes);
    } else if bytes.len() == 2 {
        let b0 = bytes[0] as int;
        let b1 = bytes[1] as int;
        lemma_cut_join(b0, b1, 0);
        lemma_symbol_value(b0 / 4);
        lemma_symbol_value(b0 % 4 * 16 + b1 / 16);
        lemma_symbol_value(b1 % 16 * 4);
        assert(decoded(text)->0 =~= bytes);
    } else {
        let b0 = bytes[0] as int;
        let b1 = bytes[1] as int;
        let b2 = bytes[2] as int;
        lemma_cut_join(b0, b1, b2);
        lemma_symbol_value(b0 / 4);
        lemma_symbol_value(b0 % 4 * 16 + b1 / 16);
        lemma_symbol_value(b1 % 16 * 4 + b2 / 64);
        lemma_symbol_value(b2 % 64);
        lemma_decoded_encoded(bytes.skip(3));
        assert(text.skip(4) =~= encoded(bytes.skip(3)));
        assert(decoded(text)->0 =~= bytes);
    }
}

/// A text that decodes is the encoding of what it decodes to.
pub proof fn lemma_encoded_decoded(text: Seq<u8>)
    requires
        decoded(text) is Some,
    ensures
        encoded(decoded(text)->0) == text,
    decreases text.len(),
{
    let bytes = decoded(text)->0;
    if text.len() == 0 {
        assert(text =~= seq![]);
    } else {
        lemma_value_symbol(text[0]);
        lemma_value_symbol(text[1]);
        let a = value_of(text[0])->0;
        let b = value_of(text[1])->0;
        if text.len() == 2 {
            lemma_join_cut(a, b, 0, 0);
            assert(bytes.len() == 1);
            assert(bytes[0] as int == a * 4 + b / 16);
            assert(encoded(bytes) =~= text);
        } else {
            lemma_value_symbol(text[2]);
            let c = value_of(text[2])->0;
            if text.len() == 3 {
                lemma_join_cut(a, b, c, 0);
                assert(bytes.len() == 2);
                assert(bytes[0] as int == a * 4 + b / 16);
                assert(bytes[1] as int == b % 16 * 16 + c / 4);
                assert(encoded(bytes) =~= text);
            } else {
                lemma_value_symbol(text[3]);
                let d = value_of(text[3])->0;
                let rest = decoded(text.skip(4))->0;
                lemma_join_cut(a, b, c, d);
                lemma_encoded_decoded(text.skip(4));
                assert(bytes.len() >= 3);
                assert(bytes[0] as int == a * 4 + b / 16);
                assert(bytes[1] as int == b % 16 * 16 + c / 4);
                assert(bytes[2] as int == c % 4 * 64 + d);
                assert(bytes.skip(3) =~= rest);
                assert(encoded(bytes) =~= text);
            }
        }
    }
}

/// The encoding of `n` bytes has four characters for every three bytes,
/// and two or three for a rest of one or two.
pub proof fn lemma_encoded_len(bytes: Seq<u8>)
    ensures
        encoded(bytes).len() == (4 * bytes.len() + 2) / 3,
    decreases bytes.len(),
{
    if bytes.len() >= 3 {
        lemma_encoded_len(bytes.skip(3));
    }
}

/// Every character of a text that decodes belongs to the alphabet.
pub proof fn lemma_well_formed_alphabet(text: Seq<u8>, i: int)
    requires
        well_formed(text),
        0 <= i < text.len(),
    ensures
        value_of(text[i]) is Some,
    decreases text.len(),
{
    if i >= 4 {
        lemma_well_formed_alphabet(text.skip(4), i - 4);
    }
}

/// The character for a six-bit value.
pub fn symbol(v: u8) -> (c: u8)
    ensures
        c == symbol_of(v as int),
{
    if v < 26 {
        v + 65
    } else if v < 52 {
        v + 71
    } else if v < 62 {
        v - 4
    } else if v == 62 {
        45
    } else {
        95
    }
}

/// The six-bit value of a character of the alphabet.
pub fn value(c: u8) -> (v: Option<u8>)
    ensures
        v is Some <==> value_of(c) is Some,
        v matches Some(x) ==> value_of(c) == Some(x as int) && x < 64,
{
    if 65 <= c && c <= 90 {
        Some(c - 65)
    } else if 97 <= c && c <= 122 {
        Some(c - 71)
    } else if 48 <= c && c <= 57 {
        Some(c + 4)
    } else if c == 45 {
        Some(62)
    } else if c == 95 {
        Some(63)
    } else {
        None
    }
}

/// Encodes a byte string.
pub fn encode(bytes: &[u8]) -> (text: Vec<u8>)
    ensures
        text@ == encoded(bytes@),
{
    let n = bytes.len();
    let mut text: Vec<u8> = Vec::new();
    let mut i: usize = 0;
    proof {
        assert(bytes@.skip(0) =~= bytes@);
        assert(text@ + encoded(bytes@) =~= encoded(bytes@));
    }
    while n - i >= 3
        invariant
            i <= n,
            n == bytes@.len(),
            encoded(bytes@) == text@ + encoded(bytes@.skip(i as int)),
        decreases n - i,
    {
        let b0 = bytes[i];
        let b1 = bytes[i + 1];
        let b2 = bytes[i + 2];
        proof {
            let rest = bytes@.skip(i as int);
            assert(rest.skip(3) =~= bytes@.skip(i + 3));
            let head = head_of_three(b0 as int, b1 as int, b2 as int);
            assert(text@ + (head + encoded(rest.skip(3))) =~= text@.push(head[0]).push(
                head[1],
            ).push(head[2]).push(head[3]) + encoded(rest.skip(3)));
        }
        text.push(symbol(b0 / 4));
        text.push(symbol(b0 % 4 * 16 + b1 / 16));
        text.push(symbol(b1 % 16 * 4 + b2 / 64));
        text.push(symbol(b2 % 64));
        i += 3;
    }
    proof {
        let rest = bytes@.skip(i as int);
        if n - i == 1 {
            let head = head_of_one(rest[0] as int);
            assert(text@ + encoded(rest) =~= text@.push(head[0]).push(head[1]));
        } else if n - i == 2 {
            let head = head_of_two(rest[0] as int, rest[1] as int);
            assert(text@ + encoded(rest) =~= text@.push(head[0]).push(head[1]).push(head[2]));
        } else {
            assert(text@ + encoded(rest) =~= text@);
        }
    }
    if n - i == 1 {
        let b0 = bytes[i];
        text.push(symbol(b0 / 4));
        text.push(symbol(b0 % 4 * 16));
    } else if n - i == 2 {
        let b0 = bytes[i];
        let b1 = bytes[i + 1];
        text.push(symbol(b0 / 4));
        text.push(symbol(b0 % 4 * 16 + b1 / 16));
        text.push(symbol(b1 % 16 * 4));
    }
    text
}

/// What a text decodes to, given the bytes of its front part and what the
/// rest of it decodes to.
pub open spec fn resumed(front: Seq<u8>, tail: Option<Seq<u8>>) -> Option<Seq<u8>> {
    match tail {
        Some(rest) => Some(front + rest),
        None => None,
    }
}

/// Decodes a text, or refuses it where it is the encoding of no byte string.
pub fn decode(text: &[u8]) -> (bytes: Option<Vec<u8>>)
    ensures
        bytes is Some <==> decoded(text@) is Some,
        bytes matches Some(b) ==> decoded(text@) == Some(b@),
{
    let n = text.len();
    let mut bytes: Vec<u8> = Vec::new();
    let mut i: usize = 0;
    proof {
        assert(text@.skip(0) =~= text@);
        if decoded(text@) is Some {
            assert(bytes@ + decoded(text@)->0 =~= decoded(text@)->0);
        }
    }
    while n - i >= 4
        invariant
            i <= n,
            n == text@.len(),
            decoded(text@) == resumed(bytes@, decoded(text@.skip(i as int))),
        decreases n - i,
    {
        let a = value(text[i]);
        let b = value(text[i + 1]);
        let c = value(text[i + 2]);
        let d = value(text[i + 3]);
        proof {
            let rest = text@.skip(i as int);
            assert(rest.skip(4) =~= text@.skip(i + 4));
        }
        match (a, b, c, d) {
            (Some(a), Some(b), Some(c), Some(d)) => {
                proof {
                    let rest = text@.skip(i as int);
                    let tail = decoded(rest.skip(4));
                    if tail is Some {
                        assert(bytes@ + (seq![
                            (a * 4 + b / 16) as u8,
                            (b % 16 * 16 + c / 4) as u8,
                            (c % 4 * 64 + d) as u8,
                        ] + tail->0) =~= bytes@.push((a * 4 + b / 16) as u8).push(
                            (b % 16 * 16 + c / 4) as u8,
                        ).push((c % 4 * 64 + d) as u8) + tail->0);
                    }
                }
                bytes.push(a * 4 + b / 16);
                bytes.push(b % 16 * 16 + c / 4);
                bytes.push(c % 4 * 64 + d);
            },
            _ => {
                return None;
            },
        }
        i += 4;
    }
    if n - i == 0 {
        proof {
            assert(bytes@ + seq![] =~= bytes@);
        }
        Some(bytes)
    } else if n - i == 1 {
        None
    } else if n - i == 2 {
        match (value(text[i]), value(text[i + 1])) {
            (Some(a), Some(b)) => {
                if b % 16 == 0 {
                    proof {
                        assert(bytes@ + seq![(a * 4 + b / 16) as u8] =~= bytes@.push(
                            (a * 4 + b / 16) as u8,
                        ));
                    }
                    bytes.push(a * 4 + b / 16);
                    Some(bytes)
                } else {
                    None
                }
            },
            _ => None,
        }
    } else {
        match (value(text[i]), value(text[i + 1]), value(text[i + 2])) {
            (Some(a), Some(b), Some(c)) => {
                if c % 4 == 0 {
                    proof {
                        assert(bytes@ + seq![
                            (a * 4 + b / 16) as u8,
                            (b % 16 * 16 + c / 4) as u8,
                        ] =~= bytes@.push((a * 4 + b / 16) as u8).push(
                            (b % 16 * 16 + c / 4) as u8,
                        ));
                    }
                    bytes.push(a * 4 + b / 16);
                    bytes.push(b % 16 * 16 + c / 4);
                    Some(bytes)
                } else {
                    None
                }
            },
            _ => None,
        }
    }
}

} // verus!
