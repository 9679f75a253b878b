//! A stateless anti-forgery (CSRF) token library for a login/consent web
//! surface.
//!
//! The core issues a short-lived, self-verifying `(token, signature)` pair on
//! every safe request and validates that pair on every unsafe request, without
//! any server-side session state.  The token is a time-windowed one-time code
//! (HMAC-SHA-512 based, eight decimal digits); the signature is the unpadded
//! base32 encoding of an HMAC-SHA-512 tag over the token.
use vstd::prelude::*;

pub mod cli;
pub mod codec;
pub mod csrf;
pub mod error;
pub mod handlers;
pub mod kv;
pub mod settings;
pub mod signer;
pub mod totp;

verus! {

/// Shorthand for results whose error is this library's error type.
pub type Res<T> = Result<T, crate::error::MinchirError>;

} // verus!
