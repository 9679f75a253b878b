//! The merged application configuration, with its startup validation and
//! path normalization.
use vstd::prelude::*;

use crate::codec::b32_decode;
use crate::csrf::supplier::opt_key_ok;
use crate::csrf::CsrfConfig;
use crate::error::MinchirError;
use crate::Res;

verus! {

// Accepted size of a pre-shared secret, sized for the SHA-512 based
// constructions.
pub const TOTP_MIN_KEY_LENGTH_BITS: usize = 512;
pub const TOTP_MAX_KEY_LENGTH_BITS: usize = 1024;

#[derive(Clone, Debug)]
pub struct Config {
    pub server: Server,
    pub csrf: Csrf,
    pub hydra: Hydra,
    pub ldap: Ldap,
}

#[derive(Clone, Debug)]
pub struct Server {
    pub port: u16,
    pub assets_path: String,
    pub cookies: Cookies,
}

#[derive(Clone, Debug)]
pub struct Cookies {
    pub secure: bool,
    pub http_only: bool,
    pub path: String,
}

#[derive(Clone, Debug)]
pub struct Csrf {
    pub totp_ttl_s: u64,
    pub totp_key: Option<String>,
    pub hmac_key: Option<String>,
}

#[derive(Clone, Debug)]
pub struct Hydra {
    pub admin_url: String,
    pub skip_tls_verification: bool,
    pub ca_bundle: Option<String>,
    pub timeout_ms: u64,
    pub remember_for_s: u64,
}

#[derive(Clone, Debug)]
pub struct Ldap {
    pub server_url: String,
    pub skip_tls_verification: bool,
    pub ca_bundle: Option<String>,
    pub bind_dn: String,
    pub bind_password: String,
    pub user_search_base_dn: String,
    pub user_search_object_class: String,
    pub user_attribute_uid: String,
    pub user_attribute_given_name: String,
    pub user_attribute_surname: String,
    pub user_attribute_mail: String,
}

/// A sequence with every trailing `sep` character removed.
pub open spec fn spec_trim_trailing(s: Seq<char>, sep: char) -> Seq<char>
    decreases s.len(),
{
    if s.len() > 0 && s.last() == sep {
        spec_trim_trailing(s.drop_last(), sep)
    } else {
        s
    }
}

impl Cookies {
    pub fn new(secure: bool, http_only: bool, path: String) -> (r: Cookies)
        ensures
            r.secure == secure,
            r.http_only == http_only,
            r.path == path,
    {
        Cookies { secure, http_only, path }
    }

    pub fn secure(&self) -> (r: &bool)
        ensures
            r == self.secure,
    {
        &self.secure
    }

    pub fn http_only(&self) -> (r: &bool)
        ensures
            r == self.http_only,
    {
        &self.http_only
    }

    pub fn path(&self) -> (r: &String)
        ensures
            r == self.path,
    {
        &self.path
    }
}

impl Server {
    pub fn new(port: u16, assets_path: String, cookies: Cookies) -> (r: Server)
        ensures
            r.port == port,
            r.assets_path == assets_path,
            r.cookies == cookies,
    {
        Server { port, assets_path, cookies }
    }

    pub fn port(&self) -> (r: &u16)
        ensures
            r == self.port,
    {
        &self.port
    }

    pub fn cookies(&self) -> (r: &Cookies)
        ensures
            r == self.cookies,
    {
        &self.cookies
    }

    /// The language translations fall back to when a request names none.
    pub fn default_language(&self) -> (r: &'static str)
        ensures
            r@ == "en"@,
    {
        "en"
    }

    /// A subfolder of the configured assets directory; the bare subfolder
    /// where no base directory is configured, so the path stays relative.
    pub fn assets_path(&self, subfolder: &str) -> (r: String)
        ensures
            r@ == (if self.assets_path@.len() == 0 {
                subfolder@
            } else {
                self.assets_path@ + "/"@ + subfolder@
            }),
    {
        if self.assets_path.as_str().unicode_len() == 0 {
            return subfolder.to_owned();
        }
        let mut s = self.assets_path.clone();
        s.append("/");
        s.append(subfolder);
        s
    }
}

impl Csrf {
    pub fn new(totp_ttl_s: u64, totp_key: Option<String>, hmac_key: Option<String>) -> (r: Csrf)
        ensures
            r.totp_ttl_s == totp_ttl_s,
            r.totp_key == totp_key,
            r.hmac_key == hmac_key,
    {
        Csrf { totp_ttl_s, totp_key, hmac_key }
    }

    pub fn totp_ttl_s(&self) -> (r: &u64)
        ensures
            r == self.totp_ttl_s,
    {
        &self.totp_ttl_s
    }

    pub fn totp_key(&self) -> (r: &Option<String>)
        ensures
            r == self.totp_key,
    {
        &self.totp_key
    }

    pub fn hmac_key(&self) -> (r: &Option<String>)
        ensures
            r == self.hmac_key,
    {
        &self.hmac_key
    }
}

impl Hydra {
    pub fn new(
        admin_url: String,
        skip_tls_verification: bool,
        ca_bundle: Option<String>,
        timeout_ms: u64,
        remember_for_s: u64,
    ) -> (r: Hydra)
        ensures
            r.admin_url == admin_url,
            r.skip_tls_verification == skip_tls_verification,
            r.ca_bundle == ca_bundle,
            r.timeout_ms == timeout_ms,
            r.remember_for_s == remember_for_s,
    {
        Hydra { admin_url, skip_tls_verification, ca_bundle, timeout_ms, remember_for_s }
    }

    pub fn admin_url(&self) -> (r: &String)
        ensures
            r == self.admin_url,
    {
        &self.admin_url
    }

    pub fn skip_tls_verification(&self) -> (r: &bool)
        ensures
            r == self.skip_tls_verification,
    {
        &self.skip_tls_verification
    }

    pub fn ca_bundle(&self) -> (r: &Option<String>)
        ensures
            r == self.ca_bundle,
    {
        &self.ca_bundle
    }

    pub fn timeout_ms(&self) -> (r: &u64)
        ensures
            r == self.timeout_ms,
    {
        &self.timeout_ms
    }

    pub fn remember_for_s(&self) -> (r: &u64)
        ensures
            r == self.remember_for_s,
    {
        &self.remember_for_s
    }
}

impl Default for Hydra {
    fn default() -> (r: Hydra)
        ensures
            r.admin_url@ == Seq::<char>::empty(),
            !r.skip_tls_verification,
            r.ca_bundle is None,
            r.timeout_ms == 0,
            r.remember_for_s == 0,
    {
        Hydra {
            admin_url: String::new(),
            skip_tls_verification: false,
            ca_bundle: None,
            timeout_ms: 0,
            remember_for_s: 0,
        }
    }
}

impl Ldap {
    pub fn new(
        server_url: String,
        skip_tls_verification: bool,
        ca_bundle: Option<String>,
        bind_dn: String,
        bind_password: String,
        user_search_base_dn: String,
        user_search_object_class: String,
        user_attribute_uid: String,
        user_attribute_given_name: String,
        user_attribute_surname: String,
        user_attribute_mail: String,
    ) -> (r: Ldap)
        ensures
            r.server_url == server_url,
            r.skip_tls_verification == skip_tls_verification,
            r.ca_bundle == ca_bundle,
            r.bind_dn == bind_dn,
            r.bind_password == bind_password,
            r.user_search_base_dn == user_search_base_dn,
            r.user_search_object_class == user_search_object_class,
            r.user_attribute_uid == user_attribute_uid,
            r.user_attribute_given_name == user_attribute_given_name,
            r.user_attribute_surname == user_attribute_surname,
            r.user_attribute_mail == user_attribute_mail,
    {
        Ldap {
            server_url,
            skip_tls_verification,
            ca_bundle,
            bind_dn,
            bind_password,
            user_search_base_dn,
            user_search_object_class,
            user_attribute_uid,
            user_attribute_given_name,
            user_attribute_surname,
            user_attribute_mail,
        }
    }

    pub fn server_url(&self) -> (r: &String)
        ensures
            r == self.server_url,
    {
        &self.server_url
    }

    pub fn skip_tls_verification(&self) -> (r: &bool)
        ensures
            r == self.skip_tls_verification,
    {
        &self.skip_tls_verification
    }

    pub fn ca_bundle(&self) -> (r: &Option<String>)
        ensures
            r == self.ca_bundle,
    {
        &self.ca_bundle
    }

    pub fn bind_dn(&self) -> (r: &String)
        ensures
            r == self.bind_dn,
    {
        &self.bind_dn
    }

    pub fn bind_password(&self) -> (r: &String)
        ensures
            r == self.bind_password,
    {
        &self.bind_password
    }

    pub fn user_search_base_dn(&self) -> (r: &String)
        ensures
            r == self.user_search_base_dn,
    {
        &self.user_search_base_dn
    }

    pub fn user_search_object_class(&self) -> (r: &String)
        ensures
            r == self.user_search_object_class,
    {
        &self.user_search_object_class
    }

    pub fn user_attribute_uid(&self) -> (r: &String)
        ensures
            r == self.user_attribute_uid,
    {
        &self.user_attribute_uid
    }

    pub fn user_attribute_given_name(&self) -> (r: &String)
        ensures
            r == self.user_attribute_given_name,
    {
        &self.user_attribute_given_name
    }

    pub fn user_attribute_surname(&self) -> (r: &String)
        ensures
            r == self.user_attribute_surname,
    {
        &self.user_attribute_surname
    }

    pub fn user_attribute_mail(&self) -> (r: &String)
        ensures
            r == self.user_attribute_mail,
    {
        &self.user_attribute_mail
    }
}

impl Default for Ldap {
    fn default() -> (r: Ldap)
        ensures
            r.server_url@ == Seq::<char>::empty(),
            !r.skip_tls_verification,
            r.ca_bundle is None,
            r.bind_dn@ == Seq::<char>::empty(),
            r.bind_password@ == Seq::<char>::empty(),
            r.user_search_base_dn@ == Seq::<char>::empty(),
            r.user_search_object_class@ == Seq::<char>::empty(),
            r.user_attribute_uid@ == Seq::<char>::empty(),
            r.user_attribute_given_name@ == Seq::<char>::empty(),
            r.user_attribute_surname@ == Seq::<char>::empty(),
            r.user_attribute_mail@ == Seq::<char>::empty(),
    {
        Ldap {
            server_url: String::new(),
            skip_tls_verification: false,
            ca_bundle: None,
            bind_dn: String::new(),
            bind_password: String::new(),
            user_search_base_dn: String::new(),
            user_search_object_class: String::new(),
            user_attribute_uid: String::new(),
            user_attribute_given_name: String::new(),
            user_attribute_surname: String::new(),
            user_attribute_mail: String::new(),
        }
    }
}

/// Whether a pre-shared secret, if supplied at all, decodes from unpadded
/// base32 to an accepted key size.
fn key_size_ok(key: &Option<String>) -> (r: bool)
    ensures
        r == opt_key_ok(*key),
{
    match key {
        Some(k) => {
            match b32_decode(k) {
                Some(bytes) => {
                    bytes.len() >= TOTP_MIN_KEY_LENGTH_BITS / 8
                        && bytes.len() <= TOTP_MAX_KEY_LENGTH_BITS / 8
                },
                None => false,
            }
        },
        None => true,
    }
}

/// Remove every trailing `separator` from a path-like value, in place.
pub fn normalize_path(path: &mut String, separator: char)
    ensures
        final(path)@ == spec_trim_trailing(old(path)@, separator),
{
    let ghost orig: Seq<char> = path@;
    let mut end: usize = path.as_str().unicode_len();
    proof {
        assert(orig.take(end as int) =~= orig);
    }
    while end > 0 && path.as_str().get_char(end - 1) == separator
        invariant
            path@ == orig,
            end <= orig.len(),
            spec_trim_trailing(orig, separator)
                == spec_trim_trailing(orig.take(end as int), separator),
        decreases end,
    {
        proof {
            assert(orig.take(end as int).last() == orig[end - 1]);
            assert(orig.take(end as int).drop_last() =~= orig.take(end as int - 1));
        }
        end -= 1;
    }
    proof {
        assert(spec_trim_trailing(orig.take(end as int), separator) == orig.take(end as int));
    }
    let trimmed = path.as_str().substring_char(0, end).to_owned();
    *path = trimmed;
}

impl Config {
    pub fn new(server: Server, csrf: Csrf, hydra: Hydra, ldap: Ldap) -> (r: Config)
        ensures
            r.server == server,
            r.csrf == csrf,
            r.hydra == hydra,
            r.ldap == ldap,
    {
        Config { server, csrf, hydra, ldap }
    }

    pub fn server(&self) -> (r: &Server)
        ensures
            r == self.server,
    {
        &self.server
    }

    pub fn csrf(&self) -> (r: &Csrf)
        ensures
            r == self.csrf,
    {
        &self.csrf
    }

    pub fn hydra(&self) -> (r: &Hydra)
        ensures
            r == self.hydra,
    {
        &self.hydra
    }

    pub fn ldap(&self) -> (r: &Ldap)
        ensures
            r == self.ldap,
    {
        &self.ldap
    }

    /// Fail fast at startup unless every supplied pre-shared secret decodes
    /// from unpadded base32 to a key of 512 to 1024 bits — the same rule the
    /// supplier enforces when it is built.
    pub fn validate(&self) -> (r: Res<()>)
        ensures
            match r {
                Ok(()) => {
                    &&& opt_key_ok(self.csrf.totp_key)
                    &&& opt_key_ok(self.csrf.hmac_key)
                },
                Err(e) => {
                    &&& (!opt_key_ok(self.csrf.totp_key) || !opt_key_ok(self.csrf.hmac_key))
                    &&& e == (MinchirError::ConfigCsrfTotpKeyValidationError {
                        min_bits: TOTP_MIN_KEY_LENGTH_BITS,
                        max_bits: TOTP_MAX_KEY_LENGTH_BITS,
                    })
                },
            },
    {
        if key_size_ok(&self.csrf.totp_key) && key_size_ok(&self.csrf.hmac_key) {
            Ok(())
        } else {
            Err(MinchirError::ConfigCsrfTotpKeyValidationError {
                min_bits: TOTP_MIN_KEY_LENGTH_BITS,
                max_bits: TOTP_MAX_KEY_LENGTH_BITS,
            })
        }
    }

    /// Strip trailing separators from the configured paths and URLs.
    pub fn normalize(&mut self)
        ensures
            final(self).server.assets_path@
                == spec_trim_trailing(old(self).server.assets_path@, '/'),
            final(self).server.cookies.path@
                == spec_trim_trailing(old(self).server.cookies.path@, '/'),
            final(self).hydra.admin_url@
                == spec_trim_trailing(old(self).hydra.admin_url@, '/'),
            final(self).server.port == old(self).server.port,
            final(self).server.cookies.secure == old(self).server.cookies.secure,
            final(self).server.cookies.http_only == old(self).server.cookies.http_only,
            final(self).csrf == old(self).csrf,
            final(self).ldap == old(self).ldap,
            final(self).hydra.skip_tls_verification == old(self).hydra.skip_tls_verification,
            final(self).hydra.ca_bundle == old(self).hydra.ca_bundle,
            final(self).hydra.timeout_ms == old(self).hydra.timeout_ms,
            final(self).hydra.remember_for_s == old(self).hydra.remember_for_s,
    {
        normalize_path(&mut self.server.assets_path, '/');
        normalize_path(&mut self.server.cookies.path, '/');
        normalize_path(&mut self.hydra.admin_url, '/');
    }

    /// The CSRF configuration this application configuration stands for:
    /// default names, strict SameSite, and the configured cookie flags,
    /// window length and pre-shared secrets.
    pub fn to_csrf_config(self) -> (r: CsrfConfig)
        ensures
            r.form_field_name@ == "csrf_token"@,
            r.cookie_name@ == "csrf_cookie"@,
            r.cookie_http_only == self.server.cookies.http_only,
            r.cookie_secure == self.server.cookies.secure,
            r.cookie_domain is None,
            r.cookie_path == self.server.cookies.path,
            r.cookie_samesite == crate::csrf::SameSitePolicy::Strict,
            r.totp_ttl_s == self.csrf.totp_ttl_s,
            r.totp_key == self.csrf.totp_key,
            r.hmac_key == self.csrf.hmac_key,
    {
        CsrfConfig::from_parts(
            self.csrf.totp_ttl_s,
            self.csrf.totp_key,
            self.csrf.hmac_key,
            self.server.cookies.secure,
            self.server.cookies.http_only,
            self.server.cookies.path,
        )
    }
}

} // verus!
