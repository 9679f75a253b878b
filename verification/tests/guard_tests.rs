use minchir::csrf::{CsrfConfig, CsrfGuard, CsrfGuardError, SameSitePolicy};
use minchir::error::MinchirError;
use minchir::Res;

const TOTP_SECRET: &str =
    "D2GXOZOMIQWGBVDYKSTHDSSIUN4PJYEQJHWWZ7WRR74ZVK44XAFCBKXLEFTS4AQ7TW7SOGASASU7PWACUAJJRRGD57PABBEY2UIHUVA";
const HMAC_SECRET: &str =
    "756RWGP4FYARJ52O2ZSDVARXTMGPEVDXV54UC22HUZFO26RUBTTVDAS57EQ5WQBL4SLXNNCLCX5KME7OY44I2UGWJDQQSQJRYHGISUY";
const TS: u64 = 801231316;

fn fixed_config() -> CsrfConfig {
    CsrfConfig::from_parts(
        300,
        Some(TOTP_SECRET.to_string()),
        Some(HMAC_SECRET.to_string()),
        true,
        true,
        "/".to_string(),
    )
}

fn fixed_guard() -> Res<CsrfGuard> {
    CsrfGuard::build(fixed_config())
}

fn form_ct() -> Option<String> {
    Some("application/x-www-form-urlencoded".to_string())
}

#[test]
fn safe_request_issues_the_expected_challenge() -> Res<()> {
    let guard = fixed_guard()?;
    let d = guard.issue(TS);
    assert_eq!(d.token, "48030610");
    assert_eq!(
        d.cookie,
        "EEFQVS25ZW72BHINSZSYSLDVF7QNFTRD32KNBTRXL5Y33UC5PXW6B5GD6O7JBPUVJT4XMASEDHLCTXA7CZ3LEBY3ORQWSMXMVNYMAHY"
    );
    Ok(())
}

#[test]
fn round_trip_through_the_guard_succeeds() -> Res<()> {
    let guard = fixed_guard()?;
    let d = guard.issue(TS);

    let cookies = vec![
        ("session".to_string(), "opaque".to_string()),
        ("csrf_cookie".to_string(), d.cookie.clone()),
    ];
    let form = vec![
        ("username".to_string(), "janedoe".to_string()),
        ("csrf_token".to_string(), d.token.clone()),
    ];

    let verified = guard.check(&form_ct(), &cookies, &form, TS);
    match verified {
        Ok(out) => {
            assert_eq!(out.token, d.token);
            assert_eq!(out.cookie, d.cookie);
        }
        Err(e) => panic!("expected the round trip to verify, got {e:?}"),
    }
    Ok(())
}

#[test]
fn content_type_matching_is_case_insensitive_and_tolerates_charset() -> Res<()> {
    let guard = fixed_guard()?;
    let d = guard.issue(TS);
    let cookies = vec![("csrf_cookie".to_string(), d.cookie.clone())];
    let form = vec![("csrf_token".to_string(), d.token.clone())];

    let ct = Some("APPLICATION/X-WWW-Form-URLEncoded; charset=UTF-8".to_string());
    assert!(guard.check(&ct, &cookies, &form, TS).is_ok());
    Ok(())
}

#[test]
fn json_posts_are_rejected_before_any_cryptographic_check() -> Res<()> {
    let guard = fixed_guard()?;

    // Even a request that carries a valid pair is turned away on the
    // Content-Type alone; with an empty cookie jar and form this shows the
    // header check runs first.
    let ct = Some("application/json".to_string());
    let r = guard.check(&ct, &Vec::new(), &Vec::new(), TS);
    assert!(matches!(r, Err(CsrfGuardError::BadContentType)));

    let r = guard.check(&None, &Vec::new(), &Vec::new(), TS);
    assert!(matches!(r, Err(CsrfGuardError::BadContentType)));
    Ok(())
}

#[test]
fn missing_cookie_is_rejected_before_the_totp_engine_runs() -> Res<()> {
    let guard = fixed_guard()?;
    let d = guard.issue(TS);
    let form = vec![("csrf_token".to_string(), d.token.clone())];

    let r = guard.check(&form_ct(), &Vec::new(), &form, TS);
    assert!(matches!(r, Err(CsrfGuardError::MissingCookie)));
    Ok(())
}

#[test]
fn missing_form_field_is_rejected() -> Res<()> {
    let guard = fixed_guard()?;
    let d = guard.issue(TS);
    let cookies = vec![("csrf_cookie".to_string(), d.cookie.clone())];

    let r = guard.check(&form_ct(), &cookies, &Vec::new(), TS);
    assert!(matches!(r, Err(CsrfGuardError::MissingFormField)));
    Ok(())
}

#[test]
fn stale_pairs_fail_verification_through_the_guard() -> Res<()> {
    let guard = fixed_guard()?;
    let d = guard.issue(TS - 600);
    let cookies = vec![("csrf_cookie".to_string(), d.cookie.clone())];
    let form = vec![("csrf_token".to_string(), d.token.clone())];

    let r = guard.check(&form_ct(), &cookies, &form, TS);
    match r {
        Err(CsrfGuardError::VerificationFailed { source }) => {
            assert!(matches!(source, MinchirError::TotpVerificationError));
        }
        other => panic!("expected a verification failure, got {other:?}"),
    }
    Ok(())
}

#[test]
fn handle_dispatches_on_the_method() -> Res<()> {
    let guard = fixed_guard()?;
    let d = guard.issue(TS);
    let cookies = vec![("csrf_cookie".to_string(), d.cookie.clone())];
    let form = vec![("csrf_token".to_string(), d.token.clone())];

    for safe in ["GET", "HEAD", "OPTIONS", "TRACE"] {
        let r = guard.handle(&safe.to_string(), &None, &Vec::new(), &Vec::new(), TS);
        match r {
            Ok(out) => assert_eq!(out.token, d.token),
            Err(e) => panic!("safe methods must issue a challenge, got {e:?}"),
        }
    }

    // An unsafe method without the form Content-Type is turned away.
    let r = guard.handle(&"POST".to_string(), &None, &Vec::new(), &Vec::new(), TS);
    assert!(matches!(r, Err(CsrfGuardError::BadContentType)));

    // An unsafe method with the full pair passes.
    let r = guard.handle(&"POST".to_string(), &form_ct(), &cookies, &form, TS);
    assert!(r.is_ok());
    Ok(())
}

#[test]
fn first_matching_cookie_and_field_win() -> Res<()> {
    let guard = fixed_guard()?;
    let d = guard.issue(TS);

    let cookies = vec![
        ("csrf_cookie".to_string(), d.cookie.clone()),
        ("csrf_cookie".to_string(), "AAAA".to_string()),
    ];
    let form = vec![
        ("csrf_token".to_string(), d.token.clone()),
        ("csrf_token".to_string(), "99999999".to_string()),
    ];
    assert!(guard.check(&form_ct(), &cookies, &form, TS).is_ok());
    Ok(())
}

#[test]
fn cookie_header_carries_the_configured_attributes() {
    let cfg = fixed_config();
    assert_eq!(
        cfg.into_cookie("VALUE"),
        "csrf_cookie=VALUE; HttpOnly; Secure; SameSite=Strict; Path=/"
    );

    let mut plain = CsrfConfig::from_parts(300, None, None, false, false, "/app".to_string());
    plain.cookie_domain = Some("example.org".to_string());
    plain.cookie_samesite = SameSitePolicy::Lax;
    assert_eq!(
        plain.into_cookie("V"),
        "csrf_cookie=V; SameSite=Lax; Domain=example.org; Path=/app"
    );
}
