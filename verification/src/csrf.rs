//! CSRF configuration and request/response integration.
//!
//! `CsrfConfig` carries the names, cookie attributes and key material the
//! defense is built from; `into_cookie` renders the `Set-Cookie` header value
//! carrying a signature.  The request-side guard lives further down in this
//! module, the token supplier in the `supplier` submodule.
use vstd::prelude::*;

use crate::kv::{find_first, lookup_pair};

pub mod supplier;

verus! {

/// The SameSite attribute a CSRF cookie is sent with.
#[derive(Clone, Copy, Debug, PartialEq, Eq, Structural)]
pub enum SameSitePolicy {
    Strict,
    Lax,
    /// The attribute value `None`: the cookie is sent on cross-site requests.
    CrossSite,
}

impl SameSitePolicy {
    /// The attribute value as it appears in a `Set-Cookie` header.
    pub open spec fn spec_attr(self) -> Seq<char> {
        match self {
            SameSitePolicy::Strict => "Strict"@,
            SameSitePolicy::Lax => "Lax"@,
            SameSitePolicy::CrossSite => "None"@,
        }
    }

    pub fn attr(&self) -> (r: &'static str)
        ensures
            r@ == self.spec_attr(),
    {
        match self {
            SameSitePolicy::Strict => "Strict",
            SameSitePolicy::Lax => "Lax",
            SameSitePolicy::CrossSite => "None",
        }
    }
}

/// Immutable configuration of the CSRF defense, built once at startup.
#[derive(Clone, Debug)]
pub struct CsrfConfig {
    /// The form field carrying the one-time code (default `csrf_token`).
    pub form_field_name: String,
    /// The cookie carrying the MAC signature (default `csrf_cookie`).
    pub cookie_name: String,
    pub cookie_http_only: bool,
    pub cookie_secure: bool,
    pub cookie_domain: Option<String>,
    pub cookie_path: String,
    pub cookie_samesite: SameSitePolicy,
    /// Length of a time step in seconds (default 300).
    pub totp_ttl_s: u64,
    /// Pre-shared one-time-code secret, unpadded base32; random if absent.
    pub totp_key: Option<String>,
    /// Pre-shared MAC secret, unpadded base32; random if absent.
    pub hmac_key: Option<String>,
}

impl CsrfConfig {
    /// A configuration with the default field name, cookie name, SameSite
    /// policy and domain, mirroring what the settings file can override.
    pub fn from_parts(
        totp_ttl_s: u64,
        totp_key: Option<String>,
        hmac_key: Option<String>,
        cookie_secure: bool,
        cookie_http_only: bool,
        cookie_path: String,
    ) -> (r: CsrfConfig)
        ensures
            r.form_field_name@ == "csrf_token"@,
            r.cookie_name@ == "csrf_cookie"@,
            r.cookie_http_only == cookie_http_only,
            r.cookie_secure == cookie_secure,
            r.cookie_domain is None,
            r.cookie_path == cookie_path,
            r.cookie_samesite == SameSitePolicy::Strict,
            r.totp_ttl_s == totp_ttl_s,
            r.totp_key == totp_key,
            r.hmac_key == hmac_key,
    {
        CsrfConfig {
            form_field_name: String::from_str("csrf_token"),
            cookie_name: String::from_str("csrf_cookie"),
            cookie_http_only,
            cookie_secure,
            cookie_domain: None,
            cookie_path,
            cookie_samesite: SameSitePolicy::Strict,
            totp_ttl_s,
            totp_key,
            hmac_key,
        }
    }

    /// The `Set-Cookie` header value carrying `value` as a session-scoped
    /// cookie with the configured attributes (never an expiry).
    pub open spec fn spec_cookie_header(self, value: Seq<char>) -> Seq<char> {
        self.cookie_name@ + "="@ + value
            + (if self.cookie_http_only { "; HttpOnly"@ } else { Seq::<char>::empty() })
            + (if self.cookie_secure { "; Secure"@ } else { Seq::<char>::empty() })
            + "; SameSite="@ + self.cookie_samesite.spec_attr()
            + (match self.cookie_domain {
                Some(d) => "; Domain="@ + d@,
                None => Seq::<char>::empty(),
            })
            + "; Path="@ + self.cookie_path@
    }

    /// Render the `Set-Cookie` header value carrying the given signature.
    pub fn into_cookie(&self, value: &str) -> (r: String)
        ensures
            r@ == self.spec_cookie_header(value@),
    {
        let mut s = self.cookie_name.clone();
        s.append("=");
        s.append(value);
        if self.cookie_http_only {
            s.append("; HttpOnly");
        }
        if self.cookie_secure {
            s.append("; Secure");
        }
        s.append("; SameSite=");
        s.append(self.cookie_samesite.attr());
        match &self.cookie_domain {
            Some(d) => {
                s.append("; Domain=");
                s.append(d.as_str());
            },
            None => {},
        }
        s.append("; Path=");
        s.append(self.cookie_path.as_str());
        proof {
            assert(s@ =~= self.spec_cookie_header(value@));
        }
        s
    }
}

/// An ephemeral challenge: the one-time code embedded in the page and the
/// encoded signature set as a cookie.  Created per safe request, consumed by
/// the paired unsafe request, never stored.
#[derive(Clone, Debug)]
pub struct CsrfData {
    pub token: String,
    pub cookie: String,
}

/// Why the guard rejected an unsafe request, in the order the checks run.
/// Callers surface all of these as one generic "bad request" outcome; the
/// detail is for server-side diagnostics only.
#[derive(Debug)]
pub enum CsrfGuardError {
    /// The Content-Type header is absent or is not
    /// `application/x-www-form-urlencoded`.
    BadContentType,
    /// The configured CSRF cookie is absent from the request.
    MissingCookie,
    /// The configured form field is absent from the submitted form.
    MissingFormField,
    /// Token and cookie were present but failed cryptographic verification.
    VerificationFailed { source: crate::error::MinchirError },
}

/// ASCII lower-casing of one character, all others unchanged.
pub open spec fn lower_char(c: char) -> char {
    if 'A' <= c && c <= 'Z' {
        (((c as u8) + 32) as char)
    } else {
        c
    }
}

/// Whether a Content-Type value announces a url-encoded form: it must start,
/// case-insensitively, with `application/x-www-form-urlencoded` (a charset
/// parameter may follow).
pub open spec fn is_form_content_type(ct: Seq<char>) -> bool {
    let m = "application/x-www-form-urlencoded"@;
    &&& ct.len() >= m.len()
    &&& forall|i: int| 0 <= i < m.len() ==> lower_char(#[trigger] ct[i]) == m[i]
}

pub open spec fn spec_content_type_ok(ct: Option<String>) -> bool {
    match ct {
        Some(s) => is_form_content_type(s@),
        None => false,
    }
}

/// Case-insensitive prefix test for `application/x-www-form-urlencoded`.
pub fn content_type_is_form(ct: &String) -> (r: bool)
    ensures
        r == is_form_content_type(ct@),
{
    proof {
        reveal_strlit("application/x-www-form-urlencoded");
    }
    let m = "application/x-www-form-urlencoded";
    let m_len = m.unicode_len();
    let ct_str = ct.as_str();
    if ct_str.unicode_len() < m_len {
        return false;
    }
    let mut i: usize = 0;
    while i < m_len
        invariant
            0 <= i <= m_len,
            m@ == "application/x-www-form-urlencoded"@,
            m_len == m@.len(),
            ct_str@ == ct@,
            ct@.len() >= m_len,
            forall|j: int| 0 <= j < i ==> lower_char(#[trigger] ct@[j]) == m@[j],
        decreases m_len - i,
    {
        let c = ct_str.get_char(i);
        let folded = if 'A' <= c && c <= 'Z' {
            ((c as u8) + 32) as char
        } else {
            c
        };
        if folded != m.get_char(i) {
            return false;
        }
        i += 1;
    }
    true
}

/// Whether an HTTP method only reads: such requests get a fresh challenge,
/// all others must present one.
pub open spec fn spec_is_safe_method(m: Seq<char>) -> bool {
    ||| m == "GET"@
    ||| m == "HEAD"@
    ||| m == "OPTIONS"@
    ||| m == "TRACE"@
}

pub fn is_safe_method(method: &String) -> (r: bool)
    ensures
        r == spec_is_safe_method(method@),
{
    if *method == String::from_str("GET") {
        true
    } else if *method == String::from_str("HEAD") {
        true
    } else if *method == String::from_str("OPTIONS") {
        true
    } else {
        *method == String::from_str("TRACE")
    }
}

/// The stateless request guard: one shared supplier plus the configuration,
/// selecting generate-or-verify by HTTP method and enforcing the request
/// shape before any cryptographic check.
pub struct CsrfGuard {
    pub config: CsrfConfig,
    pub supplier: supplier::CsrfSupplier,
}

impl CsrfGuard {
    pub open spec fn wf(&self) -> bool {
        &&& self.supplier.wf()
        &&& self.supplier.totp_ttl_s == self.config.totp_ttl_s
    }

    /// Build the supplier for a configuration and keep both together.
    pub fn build(config: CsrfConfig) -> (r: crate::Res<CsrfGuard>)
        requires
            config.totp_ttl_s >= 1,
        ensures
            match r {
                Ok(g) => {
                    &&& g.wf()
                    &&& g.config == config
                    &&& supplier::key_matches(g.supplier.totp_key@, config.totp_key)
                    &&& supplier::key_matches(g.supplier.hmac_key@, config.hmac_key)
                },
                Err(e) => {
                    &&& e == (crate::error::MinchirError::ConfigCsrfTotpKeyValidationError {
                        min_bits: 512usize,
                        max_bits: 1024usize,
                    })
                    &&& (!supplier::opt_key_ok(config.totp_key)
                        || !supplier::opt_key_ok(config.hmac_key))
                },
            },
    {
        let s = supplier::CsrfSupplier::build(&config)?;
        Ok(CsrfGuard { config, supplier: s })
    }

    /// The safe-method path: issue a fresh challenge for the page to embed
    /// and for the response to set as a cookie.
    pub fn issue(&self, now: u64) -> (r: CsrfData)
        requires
            self.wf(),
        ensures
            r.token@ == self.supplier.spec_token(now),
            r.cookie@ == self.supplier.spec_cookie(now),
            crate::totp::is_decimal_code(r.token@),
    {
        let (token, cookie) = self.supplier.generate_at(now);
        CsrfData { token, cookie }
    }

    /// Everything `check` promises about its result, over the structured
    /// request data it was handed.
    pub open spec fn spec_check_outcome(
        &self,
        content_type: Option<String>,
        cookies: Seq<(String, String)>,
        form_data: Seq<(String, String)>,
        now: u64,
        r: Result<CsrfData, CsrfGuardError>,
    ) -> bool {
        let cookie = lookup_pair(cookies, self.config.cookie_name@);
        let field = lookup_pair(form_data, self.config.form_field_name@);
        match r {
            Ok(d) => {
                &&& spec_content_type_ok(content_type)
                &&& cookie is Some
                &&& field is Some
                &&& d.token == field.unwrap()
                &&& d.cookie == cookie.unwrap()
                &&& self.supplier.verify_ok(d.token@, d.cookie@, now)
            },
            Err(CsrfGuardError::BadContentType) => !spec_content_type_ok(content_type),
            Err(CsrfGuardError::MissingCookie) => {
                &&& spec_content_type_ok(content_type)
                &&& cookie is None
            },
            Err(CsrfGuardError::MissingFormField) => {
                &&& spec_content_type_ok(content_type)
                &&& cookie is Some
                &&& field is None
            },
            Err(CsrfGuardError::VerificationFailed { source }) => {
                &&& spec_content_type_ok(content_type)
                &&& cookie is Some
                &&& field is Some
                &&& self.supplier.verify_err_is(
                    field.unwrap()@,
                    cookie.unwrap()@,
                    now,
                    source,
                )
            },
        }
    }

    /// The unsafe-method path.  The request shape is enforced before any
    /// cryptographic check: the Content-Type must announce a url-encoded
    /// form, the configured cookie and form field must both be present, and
    /// only then is the (token, cookie) pair verified.
    pub fn check(
        &self,
        content_type: &Option<String>,
        cookies: &Vec<(String, String)>,
        form_data: &Vec<(String, String)>,
        now: u64,
    ) -> (r: Result<CsrfData, CsrfGuardError>)
        requires
            self.wf(),
        ensures
            self.spec_check_outcome(*content_type, cookies@, form_data@, now, r),
    {
        let ct_ok = match content_type {
            Some(ct) => content_type_is_form(ct),
            None => false,
        };
        if !ct_ok {
            return Err(CsrfGuardError::BadContentType);
        }
        let cookie = match find_first(cookies, &self.config.cookie_name) {
            Some(c) => c,
            None => {
                return Err(CsrfGuardError::MissingCookie);
            },
        };
        let token = match find_first(form_data, &self.config.form_field_name) {
            Some(t) => t,
            None => {
                return Err(CsrfGuardError::MissingFormField);
            },
        };
        match self.supplier.verify_at(&token, &cookie, now) {
            Ok(()) => Ok(CsrfData { token, cookie }),
            Err(source) => Err(CsrfGuardError::VerificationFailed { source }),
        }
    }

    /// Select the path by HTTP method, as the request integration does: safe
    /// methods get a fresh challenge, every other method must present one.
    pub fn handle(
        &self,
        method: &String,
        content_type: &Option<String>,
        cookies: &Vec<(String, String)>,
        form_data: &Vec<(String, String)>,
        now: u64,
    ) -> (r: Result<CsrfData, CsrfGuardError>)
        requires
            self.wf(),
        ensures
            spec_is_safe_method(method@) ==> match r {
                Ok(d) => d.token@ == self.supplier.spec_token(now)
                    && d.cookie@ == self.supplier.spec_cookie(now),
                Err(_) => false,
            },
            !spec_is_safe_method(method@) ==> self.spec_check_outcome(
                *content_type,
                cookies@,
                form_data@,
                now,
                r,
            ),
    {
        if is_safe_method(method) {
            Ok(self.issue(now))
        } else {
            self.check(content_type, cookies, form_data, now)
        }
    }
}

} // verus!

