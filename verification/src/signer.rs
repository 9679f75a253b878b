//! The keyed message-authentication signer ("HMAC signer").
//!
//! The 64-byte HMAC-SHA-512 tag of a message is a pure function of key and
//! message; computing it is delegated to the `hmac` crate and only named
//! here.  Tag comparison goes through the crate's constant-time
//! `verify_slice`, never through an early-exit byte loop.
use hmac::KeyInit;
use hmac::Mac;
use vstd::prelude::*;

verus! {

/// The 64-byte HMAC-SHA-512 tag of a message under a key.
/// Named only: computing it is delegated to the `hmac` crate.
pub uninterp spec fn hmac_sha512(key: Seq<u8>, msg: Seq<char>) -> Seq<u8>;

/// Relies on `hmac::SimpleHmac<Sha512>` (`Mac::update` / `Mac::finalize`):
/// the tag is a function of the key bytes and the message characters alone
/// (the message is fed in as its UTF-8 bytes), and it is 64 bytes long.
/// `new_from_slice` accepts keys of any length.
#[verifier::external_body]
pub(crate) fn hmac_sign(key: &Vec<u8>, msg: &String) -> (r: Vec<u8>)
    ensures
        r@ == hmac_sha512(key@, msg@),
        r@.len() == 64,
{
    let mut mac = hmac::SimpleHmac::<sha2::Sha512>::new_from_slice(key.as_slice())
        .expect("HMAC accepts keys of any length");
    mac.update(msg.as_bytes());
    mac.finalize().into_bytes().to_vec()
}

/// Relies on `Mac::verify_slice` of the same `hmac::SimpleHmac<Sha512>`
/// instance: it succeeds exactly when the candidate equals the freshly
/// computed 64-byte tag, compared in constant time.
#[verifier::external_body]
pub(crate) fn hmac_verify(key: &Vec<u8>, msg: &String, candidate: &Vec<u8>) -> (r: bool)
    ensures
        r == (candidate@ == hmac_sha512(key@, msg@)),
{
    let mut mac = hmac::SimpleHmac::<sha2::Sha512>::new_from_slice(key.as_slice())
        .expect("HMAC accepts keys of any length");
    mac.update(msg.as_bytes());
    mac.verify_slice(candidate.as_slice()).is_ok()
}

} // verus!
