//! The CSRF challenge supplier: composes the one-time-code engine and the
//! MAC signer into `generate` / `verify` over a pair of validated keys.
//!
//! A supplier is immutable after construction and every operation is a pure
//! computation over (key material, timestamp, input text), so one supplier is
//! safely shared by any number of concurrent requests.
use rand::Rng;
use vstd::prelude::*;

use crate::codec::{b32_decode, b32_encode, base32_decode, base32_encode, lemma_base32_round_trip};
use crate::csrf::CsrfConfig;
use crate::error::MinchirError;
use crate::signer::{hmac_sha512, hmac_sign, hmac_verify};
use crate::totp::{hotp_sha512, is_decimal_code, step_counter, totp_accepts, totp_check, totp_code};
use crate::Res;

verus! {

/// A pre-shared key is usable when it decodes from unpadded base32 to
/// between 512 and 1024 bits, sized for the SHA-512 based constructions.
pub open spec fn key_ok(k: Seq<char>) -> bool {
    match base32_decode(k) {
        Some(b) => 64 <= b.len() <= 128,
        None => false,
    }
}

pub open spec fn opt_key_ok(k: Option<String>) -> bool {
    match k {
        Some(s) => key_ok(s@),
        None => true,
    }
}

/// How a supplier key relates to its configured source: the decoded
/// pre-shared secret, or a fresh 512-bit random key where none was given.
pub open spec fn key_matches(bytes: Seq<u8>, k: Option<String>) -> bool {
    match k {
        Some(s) => base32_decode(s@) == Some(bytes),
        None => bytes.len() == 64,
    }
}

/// Relies on `rand::rng` (`ThreadRng`) and `Rng::fill_bytes`: the buffer
/// is filled with cryptographically secure random bytes.  Nothing is assumed
/// of the values, only of the length.
#[verifier::external_body]
fn random_key_vec(n_bytes: usize) -> (r: Vec<u8>)
    ensures
        r@.len() == n_bytes,
{
    let mut key = vec![0u8; n_bytes];
    rand::rng().fill_bytes(key.as_mut_slice());
    key
}

/// Relies on `std::time::SystemTime::now` and `duration_since(UNIX_EPOCH)`:
/// the current time as whole seconds since the Unix epoch, or `None` when
/// the clock reads before the epoch.  Nothing is assumed of the value.
#[verifier::external_body]
fn unix_now() -> (r: Option<u64>)
{
    match std::time::SystemTime::now().duration_since(std::time::UNIX_EPOCH) {
        Ok(d) => Some(d.as_secs()),
        Err(_) => None,
    }
}

/// The validated key material and parameters behind `generate` and `verify`.
#[derive(Debug)]
pub struct CsrfSupplier {
    pub totp_key: Vec<u8>,
    pub hmac_key: Vec<u8>,
    pub totp_ttl_s: u64,
}

impl CsrfSupplier {
    /// Well-formedness: both keys are 512 to 1024 bits and the step length
    /// is positive.  `build` establishes this; every operation preserves it
    /// trivially, as a supplier is never mutated.
    pub open spec fn wf(&self) -> bool {
        &&& 64 <= self.totp_key@.len() <= 128
        &&& 64 <= self.hmac_key@.len() <= 128
        &&& 1 <= self.totp_ttl_s
    }

    /// The token issued at a timestamp: the one-time code of the current
    /// time step.
    pub open spec fn spec_token(&self, ts: u64) -> Seq<char> {
        totp_code(self.totp_key@, step_counter(ts, self.totp_ttl_s))
    }

    /// The MAC tag binding a token.
    pub open spec fn spec_tag(&self, token: Seq<char>) -> Seq<u8> {
        hmac_sha512(self.hmac_key@, token)
    }

    /// The cookie value issued at a timestamp: the base32-encoded tag over
    /// the issued token.
    pub open spec fn spec_cookie(&self, ts: u64) -> Seq<char> {
        base32_encode(self.spec_tag(self.spec_token(ts)))
    }

    /// When a (token, cookie) pair passes verification at a timestamp: the
    /// cookie decodes, the token is accepted for the time window, and the
    /// decoded signature equals the recomputed tag.
    pub open spec fn verify_ok(&self, token: Seq<char>, enc: Seq<char>, ts: u64) -> bool {
        &&& base32_decode(enc) is Some
        &&& totp_accepts(self.totp_key@, self.totp_ttl_s, token, ts)
        &&& base32_decode(enc) == Some(self.spec_tag(token))
    }

    /// Which single check failed for a rejected pair, in the order the
    /// checks run: signature decoding, then the time window, then the
    /// constant-time tag comparison.
    pub open spec fn verify_err_is(
        &self,
        token: Seq<char>,
        enc: Seq<char>,
        ts: u64,
        e: MinchirError,
    ) -> bool {
        match e {
            MinchirError::HmacBase32DecodingError { encoded } => {
                &&& base32_decode(enc) is None
                &&& encoded@ == enc
            },
            MinchirError::TotpVerificationError => {
                &&& base32_decode(enc) is Some
                &&& !totp_accepts(self.totp_key@, self.totp_ttl_s, token, ts)
            },
            MinchirError::HmacVerificationError => {
                &&& base32_decode(enc) is Some
                &&& totp_accepts(self.totp_key@, self.totp_ttl_s, token, ts)
                &&& base32_decode(enc) != Some(self.spec_tag(token))
            },
            _ => false,
        }
    }

    /// Validate or derive both keys.  Fails exactly when a pre-shared secret
    /// does not decode to an accepted key size; where none is given, a fresh
    /// 512-bit random key is drawn.
    pub fn build(config: &CsrfConfig) -> (r: Res<CsrfSupplier>)
        requires
            config.totp_ttl_s >= 1,
        ensures
            match r {
                Ok(s) => {
                    &&& s.wf()
                    &&& s.totp_ttl_s == config.totp_ttl_s
                    &&& key_matches(s.totp_key@, config.totp_key)
                    &&& key_matches(s.hmac_key@, config.hmac_key)
                },
                Err(e) => {
                    &&& e == (MinchirError::ConfigCsrfTotpKeyValidationError {
                        min_bits: 512usize,
                        max_bits: 1024usize,
                    })
                    &&& (!opt_key_ok(config.totp_key) || !opt_key_ok(config.hmac_key))
                },
            },
    {
        let totp_key = match Self::resolve_key(&config.totp_key) {
            Ok(k) => k,
            Err(e) => {
                return Err(e);
            },
        };
        let hmac_key = match Self::resolve_key(&config.hmac_key) {
            Ok(k) => k,
            Err(e) => {
                return Err(e);
            },
        };
        Ok(CsrfSupplier { totp_key, hmac_key, totp_ttl_s: config.totp_ttl_s })
    }

    /// Decode and size-check a pre-shared key, or draw a random minimum-size
    /// key where none was configured.
    fn resolve_key(configured: &Option<String>) -> (r: Res<Vec<u8>>)
        ensures
            match r {
                Ok(v) => key_matches(v@, *configured) && 64 <= v@.len() <= 128,
                Err(e) => {
                    &&& e == (MinchirError::ConfigCsrfTotpKeyValidationError {
                        min_bits: 512usize,
                        max_bits: 1024usize,
                    })
                    &&& !opt_key_ok(*configured)
                },
            },
    {
        match configured {
            Some(encoded) => {
                match b32_decode(encoded) {
                    Some(bytes) => {
                        if bytes.len() >= 64 && bytes.len() <= 128 {
                            Ok(bytes)
                        } else {
                            Err(MinchirError::ConfigCsrfTotpKeyValidationError {
                                min_bits: 512,
                                max_bits: 1024,
                            })
                        }
                    },
                    None => Err(MinchirError::ConfigCsrfTotpKeyValidationError {
                        min_bits: 512,
                        max_bits: 1024,
                    }),
                }
            },
            None => Ok(random_key_vec(64)),
        }
    }

    /// Issue the challenge for a timestamp: the one-time code of the current
    /// step, and the base32-encoded MAC tag over that code.  The result is a
    /// function of the supplier and the timestamp alone — the determinism
    /// the whole scheme rests on.
    pub fn generate_at(&self, ts: u64) -> (r: (String, String))
        requires
            self.wf(),
        ensures
            r.0@ == self.spec_token(ts),
            r.1@ == self.spec_cookie(ts),
            is_decimal_code(r.0@),
    {
        proof {
            vstd::arithmetic::div_mod::lemma_div_pos_is_pos(ts as int, self.totp_ttl_s as int);
            vstd::arithmetic::div_mod::lemma_div_nonincreasing(ts as int, self.totp_ttl_s as int);
        }
        let token = hotp_sha512(&self.totp_key, ts / self.totp_ttl_s);
        let tag = hmac_sign(&self.hmac_key, &token);
        let cookie = b32_encode(&tag);
        (token, cookie)
    }

    /// Check a submitted (token, cookie) pair at a timestamp.  Exactly one
    /// outcome holds: the cookie is not unpadded base32
    /// (`HmacBase32DecodingError`, carrying the offending text), or the
    /// token matches no accepted time step (`TotpVerificationError`), or the
    /// decoded signature differs from the recomputed tag
    /// (`HmacVerificationError`), or all three checks pass.
    pub fn verify_at(&self, totp_token: &String, enc_hmac_code: &String, ts: u64) -> (r: Res<()>)
        requires
            self.wf(),
        ensures
            match r {
                Ok(()) => self.verify_ok(totp_token@, enc_hmac_code@, ts),
                Err(e) => self.verify_err_is(totp_token@, enc_hmac_code@, ts, e),
            },
    {
        match b32_decode(enc_hmac_code) {
            None => Err(MinchirError::HmacBase32DecodingError {
                encoded: enc_hmac_code.clone(),
            }),
            Some(signature) => {
                if !totp_check(&self.totp_key, self.totp_ttl_s, totp_token, ts) {
                    Err(MinchirError::TotpVerificationError)
                } else if hmac_verify(&self.hmac_key, totp_token, &signature) {
                    Ok(())
                } else {
                    Err(MinchirError::HmacVerificationError)
                }
            },
        }
    }

    /// Issue a challenge for the current wall-clock time.
    pub fn generate(&self) -> (r: Res<(String, String)>)
        requires
            self.wf(),
        ensures
            match r {
                Ok(p) => is_decimal_code(p.0@) && exists|ts: u64| p.0@ == self.spec_token(ts)
                    && p.1@ == self.spec_cookie(ts),
                Err(e) => e == MinchirError::TotpSystemTimeError,
            },
    {
        match unix_now() {
            Some(ts) => {
                let p = self.generate_at(ts);
                proof {
                    assert(p.0@ == self.spec_token(ts) && p.1@ == self.spec_cookie(ts));
                }
                Ok(p)
            },
            None => Err(MinchirError::TotpSystemTimeError),
        }
    }

    /// Check a submitted pair against the current wall-clock time.
    pub fn verify(&self, totp_token: &String, hmac_code: &String) -> (r: Res<()>)
        requires
            self.wf(),
        ensures
            match r {
                Ok(()) => exists|ts: u64| self.verify_ok(totp_token@, hmac_code@, ts),
                Err(e) => e == MinchirError::TotpSystemTimeError
                    || exists|ts: u64| self.verify_err_is(totp_token@, hmac_code@, ts, e),
            },
    {
        match unix_now() {
            Some(ts) => {
                let r = self.verify_at(totp_token, hmac_code, ts);
                proof {
                    match &r {
                        Ok(_) => {
                            assert(self.verify_ok(totp_token@, hmac_code@, ts));
                        },
                        Err(e) => {
                            assert(self.verify_err_is(totp_token@, hmac_code@, ts, *e));
                        },
                    }
                }
                r
            },
            None => Err(MinchirError::TotpSystemTimeError),
        }
    }
}

/// Determinism: the challenge is a function of the supplier's key material
/// and the timestamp alone, so two `generate_at` calls with equal inputs
/// return equal (token, cookie) pairs — see `generate_at`'s `ensures`.
pub proof fn lemma_generate_deterministic(s1: CsrfSupplier, s2: CsrfSupplier, ts: u64)
    requires
        s1.totp_key@ == s2.totp_key@,
        s1.hmac_key@ == s2.hmac_key@,
        s1.totp_ttl_s == s2.totp_ttl_s,
    ensures
        s1.spec_token(ts) == s2.spec_token(ts),
        s1.spec_cookie(ts) == s2.spec_cookie(ts),
{
}

/// Skew tolerance, accepting half: the challenge issued at time `t` passes
/// verification at `t` itself and still one step earlier, absorbing the
/// clock drift between rendering a page and submitting its form.
pub proof fn lemma_skew_tolerance(s: CsrfSupplier, t: u64)
    requires
        s.wf(),
        s.totp_ttl_s <= t,
    ensures
        s.verify_ok(s.spec_token(t), s.spec_cookie(t), t),
        s.verify_ok(s.spec_token(t), s.spec_cookie(t), (t - s.totp_ttl_s) as u64),
{
    let ttl = s.totp_ttl_s as int;
    let c = step_counter(t, s.totp_ttl_s);
    lemma_base32_round_trip(s.spec_tag(s.spec_token(t)));
    vstd::arithmetic::div_mod::lemma_div_pos_is_pos(t as int, ttl);
    vstd::arithmetic::div_mod::lemma_div_nonincreasing(t as int, ttl);
    vstd::arithmetic::div_mod::lemma_div_pos_is_pos(t - ttl, ttl);
    vstd::arithmetic::div_mod::lemma_div_nonincreasing(t - ttl, ttl);
    vstd::arithmetic::div_mod::lemma_div_minus_one(t as int, ttl);
    assert(step_counter((t - s.totp_ttl_s) as u64, s.totp_ttl_s) == c - 1);
}

/// Skew tolerance, rejecting half: two steps after it was issued the
/// challenge no longer verifies, and the failure is the one-time-code check.
/// The codes of the three steps around the stale window must differ from
/// the issued one: on the rare secrets and timestamps where two of these
/// eight-digit codes collide, the stale token would still be accepted.
pub proof fn lemma_skew_expiry(s: CsrfSupplier, t: u64)
    requires
        s.wf(),
        2 * s.totp_ttl_s <= t,
        ({
            let c = step_counter(t, s.totp_ttl_s);
            &&& s.spec_token(t) != totp_code(s.totp_key@, (c - 1) as u64)
            &&& s.spec_token(t) != totp_code(s.totp_key@, (c - 2) as u64)
            &&& (c >= 3 ==> s.spec_token(t) != totp_code(s.totp_key@, (c - 3) as u64))
        }),
    ensures
        !s.verify_ok(s.spec_token(t), s.spec_cookie(t), (t - 2 * s.totp_ttl_s) as u64),
        s.verify_err_is(
            s.spec_token(t),
            s.spec_cookie(t),
            (t - 2 * s.totp_ttl_s) as u64,
            MinchirError::TotpVerificationError,
        ),
{
    let ttl = s.totp_ttl_s as int;
    let c = step_counter(t, s.totp_ttl_s);
    lemma_base32_round_trip(s.spec_tag(s.spec_token(t)));
    vstd::arithmetic::div_mod::lemma_div_pos_is_pos(t as int, ttl);
    vstd::arithmetic::div_mod::lemma_div_nonincreasing(t as int, ttl);
    vstd::arithmetic::div_mod::lemma_div_pos_is_pos(t - 2 * ttl, ttl);
    vstd::arithmetic::div_mod::lemma_div_nonincreasing(t - 2 * ttl, ttl);
    vstd::arithmetic::div_mod::lemma_div_minus_one(t as int, ttl);
    vstd::arithmetic::div_mod::lemma_div_minus_one(t - ttl, ttl);
    assert(step_counter((t - 2 * s.totp_ttl_s) as u64, s.totp_ttl_s) == c - 2);
    assert(c >= 2) by {
        vstd::arithmetic::div_mod::lemma_div_pos_is_pos(t - 2 * ttl, ttl);
        assert((t as int) / ttl == (t - 2 * ttl) / ttl + 2);
    }
}

/// Tamper detection: any signature other than the tag of the issued token —
/// a single flipped bit included — is rejected as a signature mismatch when
/// presented with that token, and never verifies.
pub proof fn lemma_tamper_detection(s: CsrfSupplier, ts: u64, sig: Seq<u8>)
    requires
        s.wf(),
        sig != s.spec_tag(s.spec_token(ts)),
    ensures
        !s.verify_ok(s.spec_token(ts), base32_encode(sig), ts),
        s.verify_err_is(
            s.spec_token(ts),
            base32_encode(sig),
            ts,
            MinchirError::HmacVerificationError,
        ),
{
    lemma_base32_round_trip(sig);
}

} // verus!
