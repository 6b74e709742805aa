//! The digest step shared by all three signing protocols: HMAC-SHA256 over
//! the canonical string with the account's secret key.  The digest itself is
//! computed by the `hmac` and `sha2` crates behind one trusted wrapper; its
//! 32-byte result is given a name, `hmac_sha256_of`, that the contracts of
//! the canonical-string builders compose with the hex and base64 encodings.

use vstd::prelude::*;

verus! {

use crate::codec::{hex_lower_of, base64_of};

/// The HMAC-SHA256 tag of a message under a key.  The tag is a pure
/// function of the two byte strings; its 32 bytes are not written out here.
pub uninterp spec fn hmac_sha256_of(key: Seq<u8>, msg: Seq<u8>) -> Seq<u8>;

/// Relies on `Hmac<Sha256>` from the `hmac` crate (with `sha2`): the
/// HMAC-SHA256 tag of `msg` under `key`, always 32 bytes.  HMAC accepts keys
/// of any length, so `new_from_slice` cannot fail.
#[verifier::external_body]
pub fn hmac_sha256(key: &[u8], msg: &[u8]) -> (r: Vec<u8>)
    ensures
        r@ == hmac_sha256_of(key@, msg@),
        r@.len() == 32,
{
    let mut mac = <hmac::Hmac<sha2::Sha256> as hmac::KeyInit>::new_from_slice(key)
        .expect("HMAC accepts keys of any length");
    hmac::Mac::update(&mut mac, msg);
    hmac::Mac::finalize(mac).into_bytes().to_vec()
}

/// The lowercase-hex HMAC-SHA256 signature, as used by the Binance protocol.
pub fn hmac_sha256_hex(key: &[u8], msg: &[u8]) -> (r: Vec<u8>)
    ensures
        r@ == hex_lower_of(hmac_sha256_of(key@, msg@)),
{
    let tag = hmac_sha256(key, msg);
    crate::codec::hex_encode(tag.as_slice())
}

/// The base64 HMAC-SHA256 signature, as used by the Huobi and OKEX
/// protocols.
pub fn hmac_sha256_base64(key: &[u8], msg: &[u8]) -> (r: Vec<u8>)
    ensures
        r@ == base64_of(hmac_sha256_of(key@, msg@)),
{
    let tag = hmac_sha256(key, msg);
    crate::codec::base64_encode(tag.as_slice())
}

} // verus!
