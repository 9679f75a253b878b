//! The time-windowed one-time code ("TOTP engine").
//!
//! A code is a pure function of the shared secret and the time-step counter
//! `timestamp / step_seconds`; what that function computes (an HMAC-SHA-512
//! based construction formatted as eight decimal digits) is left to the
//! `totp_rs` crate and only named here.  Acceptance of a submitted code —
//! the current step, one step of clock skew in either direction, nothing
//! else — is the library's own verified logic.
use vstd::prelude::*;

verus! {

/// The eight-digit one-time code for a secret and a time-step counter.
/// Named only: computing it is delegated to the `totp_rs` crate.
pub uninterp spec fn totp_code(key: Seq<u8>, counter: u64) -> Seq<char>;

/// The shape of an issued code: exactly eight ASCII decimal digits.
pub open spec fn is_decimal_code(s: Seq<char>) -> bool {
    &&& s.len() == 8
    &&& forall|i: int| 0 <= i < s.len() ==> '0' <= #[trigger] s[i] <= '9'
}

/// The time-step counter a timestamp falls into.
pub open spec fn step_counter(ts: u64, ttl_s: u64) -> u64
    recommends
        ttl_s >= 1,
{
    ((ts as int) / (ttl_s as int)) as u64
}

/// Whether a submitted code is accepted at a timestamp: it must be the code
/// of the current time step or of the step just before or just after it,
/// absorbing one step of clock skew in either direction.  The step just
/// after is accepted deliberately: when the verifier's clock runs behind
/// the issuer's, a freshly issued code sits one step in the verifier's
/// future, and it must still pass one step length after issuance.
pub open spec fn totp_accepts(key: Seq<u8>, ttl_s: u64, token: Seq<char>, ts: u64) -> bool
    recommends
        ttl_s >= 1,
{
    let c = step_counter(ts, ttl_s);
    ||| token == totp_code(key, c)
    ||| (c >= 1 && token == totp_code(key, (c - 1) as u64))
    ||| (c < u64::MAX && token == totp_code(key, (c + 1) as u64))
}

/// Relies on `totp_rs::Builder` and `totp_rs::Totp::generate`: with a step of
/// one second the generated token is the HMAC-SHA-512 one-time code of the
/// secret and the counter alone, rendered as exactly eight decimal digits
/// (zero padded).  It never panics: eight digits is a supported width and the
/// secret may have any length.
#[verifier::external_body]
pub(crate) fn hotp_sha512(key: &Vec<u8>, counter: u64) -> (r: String)
    ensures
        r@ == totp_code(key@, counter),
        is_decimal_code(r@),
{
    let totp = totp_rs::Builder::new()
        .with_algorithm(totp_rs::Algorithm::SHA512)
        .with_digits(8)
        .with_step_duration(1)
        .with_secret(key.clone())
        .build_noncompliant();
    format!("{}", totp.generate(counter))
}

/// Accept a submitted code at a timestamp if it matches the code of the
/// current time step or of the immediately adjacent steps.
pub fn totp_check(key: &Vec<u8>, ttl_s: u64, token: &String, ts: u64) -> (r: bool)
    requires
        ttl_s >= 1,
    ensures
        r == totp_accepts(key@, ttl_s, token@, ts),
{
    let c: u64 = ts / ttl_s;
    proof {
        vstd::arithmetic::div_mod::lemma_div_pos_is_pos(ts as int, ttl_s as int);
        vstd::arithmetic::div_mod::lemma_div_nonincreasing(ts as int, ttl_s as int);
        assert(c == step_counter(ts, ttl_s));
    }
    let current = hotp_sha512(key, c);
    if *token == current {
        return true;
    }
    if c >= 1 {
        let previous = hotp_sha512(key, c - 1);
        if *token == previous {
            return true;
        }
    }
    if c < u64::MAX {
        let next = hotp_sha512(key, c + 1);
        if *token == next {
            return true;
        }
    }
    false
}

} // verus!
