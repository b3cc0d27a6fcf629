//! The message authentication code that signs a token.

use crypto::hmac::Hmac;
use crypto::mac::Mac;
use crypto::sha2::Sha256;
use crypto::util;
use vstd::prelude::*;

verus! {

/// The HMAC-SHA-256 code of a message under a key: 32 bytes that only a
/// holder of the key can compute.
pub uninterp spec fn spec_hmac_sha256(key: Seq<u8>, message: Seq<u8>) -> Seq<u8>;

/// SHA-256 counts the bits of its input in 64 bits, so it is defined for
/// fewer than 2^61 bytes.
pub const HASH_LIMIT: u64 = 0x2000_0000_0000_0000;

/// The length of the block that the key is padded to and that is hashed
/// before the message.
pub const BLOCK_LEN: u64 = 64;

/// The length of a code: the 32 bytes of SHA-256.
pub const CODE_LEN: usize = 32;

/// Whether a message can be authenticated under a key: both within the
/// limit of the hash.
pub open spec fn hashable(key: Seq<u8>, message: Seq<u8>) -> bool {
    key.len() < HASH_LIMIT && message.len() + BLOCK_LEN < HASH_LIMIT
}

/// The code of a message under a key, where it has one.
pub open spec fn code_of(key: Seq<u8>, message: Seq<u8>) -> Option<Seq<u8>> {
    if hashable(key, message) {
        Some(spec_hmac_sha256(key, message))
    } else {
        None
    }
}

/// `crypto::hmac::Hmac` over `crypto::sha2::Sha256`, fed the whole message
/// at once. The contract gives the code a name and says of it only that it
/// has the 32 bytes of the digest.
/// The digest refuses an input whose bit count overflows 64 bits, so such
/// keys and messages are left out.
#[verifier::external_body]
fn hmac_sha256(key: &[u8], message: &[u8]) -> (code: Vec<u8>)
    requires
        hashable(key@, message@),
    ensures
        code@ == spec_hmac_sha256(key@, message@),
        code@.len() == CODE_LEN,
{
    let mut mac = Hmac::new(Sha256::new(), key);
    mac.input(message);
    mac.result().code().to_vec()
}

/// `crypto::util::fixed_time_eq`: whether two byte strings are equal, found
/// in a time that depends on their length alone. It looks at the first byte
/// of each when the lengths agree, so two empty strings are left out.
#[verifier::external_body]
fn fixed_time_eq(left: &[u8], right: &[u8]) -> (equal: bool)
    requires
        left@.len() != right@.len() || left@.len() > 0,
    ensures
        equal == (left@ == right@),
{
    util::fixed_time_eq(left, right)
}

/// The code of a message under a key, or `None` where the hash is not
/// defined for them.
pub fn authentication_code(key: &[u8], message: &[u8]) -> (code: Option<Vec<u8>>)
    ensures
        code is Some <==> code_of(key@, message@) is Some,
        code matches Some(c) ==> code_of(key@, message@) == Some(c@) && c@.len() == CODE_LEN,
{
    if (key.len() as u64) < HASH_LIMIT && (message.len() as u64) < HASH_LIMIT - BLOCK_LEN {
        Some(hmac_sha256(key, message))
    } else {
        None
    }
}

/// Whether two codes are the same, without giving away through the time it
/// takes where they first differ.
pub fn same_code(left: &[u8], right: &[u8]) -> (same: bool)
    ensures
        same == (left@ == right@),
{
    if left.len() == 0 && right.len() == 0 {
        assert(left@ =~= right@);
        true
    } else {
        fixed_time_eq(left, right)
    }
}

} // verus!
