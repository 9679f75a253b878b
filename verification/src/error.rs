//! The library's error taxonomy.
//!
//! Configuration errors are fatal at startup; the verification errors
//! (`TotpVerificationError`, `HmacBase32DecodingError`, `HmacVerificationError`)
//! are user-facing "bad request" outcomes; the remaining variants carry
//! failures of the surrounding collaborators as plain text.
use vstd::prelude::*;

verus! {

#[derive(Debug)]
pub enum MinchirError {
    GenericError { msg: String },
    /// A yaml file could not be read.
    YamlIoError { msg: String },
    /// A yaml file could not be parsed.
    YamlParseError { msg: String },
    /// Two yaml documents hold incompatible kinds of values under one key.
    YamlMergeError {
        lh_type: String,
        lh_name: String,
        lh_file: String,
        rh_name: String,
        rh_file: String,
    },
    YamlScopesNotAMapError,
    YamlScopesKeyHasNoSequenceError { key: String },
    YamlScopesKeyHasNonStringItemError { key: String },
    YamlTranslationsNotAMapError,
    YamlTranslationsKeyHasNoMapError { key: String },
    YamlTranslationsKeyHasNonStringMapError { key: String },
    /// A pre-shared secret does not decode to a key of the accepted size.
    ConfigCsrfTotpKeyValidationError { min_bits: usize, max_bits: usize },
    /// The submitted one-time code matches no accepted time step.
    TotpVerificationError,
    TotpUrlError { msg: String },
    /// The clock could not be read as seconds since the Unix epoch.
    TotpSystemTimeError,
    /// The submitted signature is not unpadded base32.
    HmacBase32DecodingError { encoded: String },
    /// The submitted signature does not match the recomputed tag.
    HmacVerificationError,
    LdapClientCaBundleError { msg: String },
    HydraApiClientCaBundleError { msg: String },
    HydraApiClientBuildError { msg: String },
    TemplatingError { msg: String },
    LdapPoolBuildError { msg: String },
    LdapPoolAccessError { msg: String },
}

} // verus!
