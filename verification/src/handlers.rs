//! The form-handling decisions of the login, consent and logout pages.
//!
//! Each page's POST handler first decides, from the submitted fields alone,
//! whether the form is well shaped and which action the user took; that
//! decision is plain logic and lives here, verified.  The HTTP exchange
//! around it — rendering, redirects, the authorization-server and directory
//! calls — stays in the surrounding program.
use vstd::prelude::*;

pub mod consent;
pub mod login;
pub mod logout;

verus! {

/// Why a submitted form is rejected before any work is done on it.
#[derive(Clone, Copy, Debug, PartialEq, Eq, Structural)]
pub enum FormError {
    /// Neither or both of the form's submit buttons were pressed.
    NotExactlyOneAction,
    /// A mandatory field is missing.
    MissingField,
}

/// How a checkbox value parses: only the exact text `true` sets the flag,
/// anything else (a missing field included) leaves it unset.
pub open spec fn spec_flag(v: Option<String>) -> bool {
    match v {
        Some(s) => s@ == "true"@,
        None => false,
    }
}

/// Parse an optional checkbox field into its flag.
pub fn parse_flag(v: &Option<String>) -> (r: bool)
    ensures
        r == spec_flag(*v),
{
    match v {
        Some(s) => *s == String::from_str("true"),
        None => false,
    }
}

} // verus!
