//! The login form: its fields as the form parser hands them over, and the
//! decision which action a submission asks for.
use vstd::prelude::*;

use crate::handlers::{parse_flag, spec_flag, FormError};

verus! {

pub struct LoginForm {
    pub login_challenge: Option<String>,
    pub username: Option<String>,
    pub password: Option<String>,
    pub totp: Option<String>,
    pub remember_me: Option<String>,
    pub login: Option<String>,
    pub cancel: Option<String>,
}

/// What a well-shaped login submission asks for.
#[derive(Debug)]
pub enum LoginAction {
    /// The cancel button: reject the login request.
    Cancel { login_challenge: String },
    /// The login button: check the submitted credentials.
    Attempt {
        login_challenge: String,
        username: String,
        password: String,
        totp: String,
        remember_me: bool,
    },
}

/// Decide what a login submission asks for.  Exactly one of the two buttons
/// must have been pressed and the challenge must be present; a login attempt
/// must also carry username, password and one-time code.  The remember-me
/// checkbox counts as set only for the exact value `true`.
pub fn login_form_action(form: LoginForm) -> (r: Result<LoginAction, FormError>)
    ensures
        match r {
            Ok(a) => {
                &&& form.login is Some <==> !(form.cancel is Some)
                &&& form.login_challenge is Some
                &&& match a {
                    LoginAction::Cancel { login_challenge } => {
                        &&& form.cancel is Some
                        &&& login_challenge == form.login_challenge.unwrap()
                    },
                    LoginAction::Attempt {
                        login_challenge,
                        username,
                        password,
                        totp,
                        remember_me,
                    } => {
                        &&& form.login is Some
                        &&& login_challenge == form.login_challenge.unwrap()
                        &&& form.username is Some && username == form.username.unwrap()
                        &&& form.password is Some && password == form.password.unwrap()
                        &&& form.totp is Some && totp == form.totp.unwrap()
                        &&& remember_me == spec_flag(form.remember_me)
                    },
                }
            },
            Err(FormError::NotExactlyOneAction) => {
                form.login is Some <==> form.cancel is Some
            },
            Err(FormError::MissingField) => {
                &&& (form.login is Some <==> !(form.cancel is Some))
                &&& (form.login_challenge is None
                    || (form.login is Some && (form.username is None
                        || form.password is None || form.totp is None)))
            },
        },
{
    let pressed_login = form.login.is_some();
    let pressed_cancel = form.cancel.is_some();
    if pressed_login == pressed_cancel {
        return Err(FormError::NotExactlyOneAction);
    }
    let login_challenge = match form.login_challenge {
        Some(c) => c,
        None => {
            return Err(FormError::MissingField);
        },
    };
    if pressed_cancel {
        return Ok(LoginAction::Cancel { login_challenge });
    }
    let username = match form.username {
        Some(u) => u,
        None => {
            return Err(FormError::MissingField);
        },
    };
    let password = match form.password {
        Some(p) => p,
        None => {
            return Err(FormError::MissingField);
        },
    };
    let totp = match form.totp {
        Some(t) => t,
        None => {
            return Err(FormError::MissingField);
        },
    };
    let remember_me = parse_flag(&form.remember_me);
    Ok(LoginAction::Attempt { login_challenge, username, password, totp, remember_me })
}

} // verus!
