//! The consent form: its fields, the decision which action a submission
//! asks for, and the scope/claim table the consent page renders.
use vstd::prelude::*;

use crate::handlers::{parse_flag, spec_flag, FormError};

verus! {

pub struct ConsentForm {
    pub consent_challenge: Option<String>,
    pub remember_consent: Option<String>,
    pub consent: Option<String>,
    pub cancel: Option<String>,
}

/// What a well-shaped consent submission asks for.
#[derive(Debug)]
pub enum ConsentAction {
    /// The cancel button: reject the consent request.
    Cancel { consent_challenge: String },
    /// The consent button: accept the consent request.
    Accept { consent_challenge: String, remember_consent: bool },
}

/// Decide what a consent submission asks for.  Exactly one of the two
/// buttons must have been pressed and the challenge must be present; the
/// remember checkbox counts as set only for the exact value `true`.
pub fn consent_form_action(form: ConsentForm) -> (r: Result<ConsentAction, FormError>)
    ensures
        match r {
            Ok(a) => {
                &&& form.consent is Some <==> !(form.cancel is Some)
                &&& form.consent_challenge is Some
                &&& match a {
                    ConsentAction::Cancel { consent_challenge } => {
                        &&& form.cancel is Some
                        &&& consent_challenge == form.consent_challenge.unwrap()
                    },
                    ConsentAction::Accept { consent_challenge, remember_consent } => {
                        &&& form.consent is Some
                        &&& consent_challenge == form.consent_challenge.unwrap()
                        &&& remember_consent == spec_flag(form.remember_consent)
                    },
                }
            },
            Err(FormError::NotExactlyOneAction) => {
                form.consent is Some <==> form.cancel is Some
            },
            Err(FormError::MissingField) => {
                &&& (form.consent is Some <==> !(form.cancel is Some))
                &&& form.consent_challenge is None
            },
        },
{
    let pressed_consent = form.consent.is_some();
    let pressed_cancel = form.cancel.is_some();
    if pressed_consent == pressed_cancel {
        return Err(FormError::NotExactlyOneAction);
    }
    let consent_challenge = match form.consent_challenge {
        Some(c) => c,
        None => {
            return Err(FormError::MissingField);
        },
    };
    if pressed_cancel {
        return Ok(ConsentAction::Cancel { consent_challenge });
    }
    let remember_consent = parse_flag(&form.remember_consent);
    Ok(ConsentAction::Accept { consent_challenge, remember_consent })
}

/// The table the consent page renders: each requested scope, in order, with
/// the fixed list of claims shown under it.
pub fn prepare_scopes_and_claims(scopes: Option<Vec<String>>) -> (r: Vec<(String, Vec<String>)>)
    ensures
        match scopes {
            Some(s) => {
                &&& r@.len() == s@.len()
                &&& forall|i: int| 0 <= i < s@.len() ==> {
                    &&& (#[trigger] r@[i]).0 == s@[i]
                    &&& r@[i].1@.len() == 3
                    &&& r@[i].1@[0]@ == "Claim 1"@
                    &&& r@[i].1@[1]@ == "Claim 2"@
                    &&& r@[i].1@[2]@ == "Claim 3"@
                }
            },
            None => r@.len() == 0,
        },
{
    let scopes = match scopes {
        Some(s) => s,
        None => Vec::new(),
    };
    let mut result: Vec<(String, Vec<String>)> = Vec::new();
    let mut i: usize = 0;
    while i < scopes.len()
        invariant
            0 <= i <= scopes@.len(),
            result@.len() == i,
            forall|j: int| 0 <= j < i ==> {
                &&& (#[trigger] result@[j]).0 == scopes@[j]
                &&& result@[j].1@.len() == 3
                &&& result@[j].1@[0]@ == "Claim 1"@
                &&& result@[j].1@[1]@ == "Claim 2"@
                &&& result@[j].1@[2]@ == "Claim 3"@
            },
        decreases scopes@.len() - i,
    {
        let mut claims: Vec<String> = Vec::new();
        claims.push(String::from_str("Claim 1"));
        claims.push(String::from_str("Claim 2"));
        claims.push(String::from_str("Claim 3"));
        result.push((scopes[i].clone(), claims));
        i += 1;
    }
    result
}

} // verus!
