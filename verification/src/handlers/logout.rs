//! The logout form: its fields and the decision which action a submission
//! asks for.
use vstd::prelude::*;

use crate::handlers::FormError;

verus! {

pub struct ConsentForm {
    pub logout_challenge: Option<String>,
    pub logout: Option<String>,
    pub cancel: Option<String>,
}

/// What a well-shaped logout submission asks for.
#[derive(Debug)]
pub enum LogoutAction {
    /// The cancel button: reject the logout request.
    Cancel { logout_challenge: String },
    /// The logout button: accept the logout request.
    Logout { logout_challenge: String },
}

/// Decide what a logout submission asks for.  Exactly one of the two
/// buttons must have been pressed and the challenge must be present.
pub fn logout_form_action(form: ConsentForm) -> (r: Result<LogoutAction, FormError>)
    ensures
        match r {
            Ok(a) => {
                &&& form.logout is Some <==> !(form.cancel is Some)
                &&& form.logout_challenge is Some
                &&& match a {
                    LogoutAction::Cancel { logout_challenge } => {
                        &&& form.cancel is Some
                        &&& logout_challenge == form.logout_challenge.unwrap()
                    },
                    LogoutAction::Logout { logout_challenge } => {
                        &&& form.logout is Some
                        &&& logout_challenge == form.logout_challenge.unwrap()
                    },
                }
            },
            Err(FormError::NotExactlyOneAction) => {
                form.logout is Some <==> form.cancel is Some
            },
            Err(FormError::MissingField) => {
                &&& (form.logout is Some <==> !(form.cancel is Some))
                &&& form.logout_challenge is None
            },
        },
{
    let pressed_logout = form.logout.is_some();
    let pressed_cancel = form.cancel.is_some();
    if pressed_logout == pressed_cancel {
        return Err(FormError::NotExactlyOneAction);
    }
    let logout_challenge = match form.logout_challenge {
        Some(c) => c,
        None => {
            return Err(FormError::MissingField);
        },
    };
    if pressed_cancel {
        return Ok(LogoutAction::Cancel { logout_challenge });
    }
    Ok(LogoutAction::Logout { logout_challenge })
}

} // verus!
