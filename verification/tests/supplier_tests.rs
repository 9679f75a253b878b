use minchir::csrf::supplier::CsrfSupplier;
use minchir::error::MinchirError;
use minchir::settings::config::{Config, Cookies, Csrf, Hydra, Ldap, Server};
use minchir::Res;

fn build_config(csrf: Csrf) -> Config {
    let cookies = Cookies::new(true, true, "/".to_string());
    let server = Server::new(8080, "".to_string(), cookies);
    Config::new(server, csrf, Hydra::default(), Ldap::default())
}

fn build_supplier(
    ttl: u64,
    totp_secret: Option<&str>,
    hmac_secret: Option<&str>,
) -> Res<CsrfSupplier> {
    let csrf = Csrf::new(
        ttl,
        totp_secret.map(|s| s.to_string()),
        hmac_secret.map(|s| s.to_string()),
    );
    let cfg = build_config(csrf);
    CsrfSupplier::build(&cfg.to_csrf_config())
}

struct Vector {
    totp_secret: &'static str,
    hmac_secret: &'static str,
    ts: u64,
    totp_current: &'static str,
    hmac_current: &'static str,
    totp_prev: &'static str,
    hmac_prev: &'static str,
}

const VECTORS: [Vector; 3] = [
    Vector {
        totp_secret:
            "D2GXOZOMIQWGBVDYKSTHDSSIUN4PJYEQJHWWZ7WRR74ZVK44XAFCBKXLEFTS4AQ7TW7SOGASASU7PWACUAJJRRGD57PABBEY2UIHUVA",
        hmac_secret:
            "756RWGP4FYARJ52O2ZSDVARXTMGPEVDXV54UC22HUZFO26RUBTTVDAS57EQ5WQBL4SLXNNCLCX5KME7OY44I2UGWJDQQSQJRYHGISUY",
        ts: 801231316u64,
        totp_current: "48030610",
        hmac_current:
            "EEFQVS25ZW72BHINSZSYSLDVF7QNFTRD32KNBTRXL5Y33UC5PXW6B5GD6O7JBPUVJT4XMASEDHLCTXA7CZ3LEBY3ORQWSMXMVNYMAHY",
        totp_prev: "61179155",
        hmac_prev:
            "BU4KAOEGBCRBUBVVDGAPJV3552QOPXB6UHVOUTQQQIDZKMHWMHFGLKDNB2F4QSYVHK5WEODPU25R3LLKIOIMMXDXJDHRFYWQM6BLMDY",
    },
    Vector {
        totp_secret:
            "3K5DYHK3F6M3JVPWMNZ75ZH4C2WCSQ77X3IZCIBWASCTLD5BBNQ5SQIEPAOPFNH467LJ2KEUY5OD4DF3TVVJ5DJLXXGMFILFLWBL6ZA",
        hmac_secret:
            "3G7B7FJAW62GGMVX63RLKCSLRZ2JPYGIDZ6MH6RWUCVH2I6TCG3GNTY5DKYSQIXF4GHHWEKCVBSXCPXRCISE4KRT524ELBFZVCUAHPQ",
        ts: 1116591316u64,
        totp_current: "57228566",
        hmac_current:
            "KRGSIAIGHNPQ2CT2QLTAARWTKNMTTAVM3RKQQ4QS27BH6XXOSENFIH7ZXWAZUY44JAP4ZGHE5WLBQHM2OEKZ3WMUUPXYMT6TI62BMQQ",
        totp_prev: "28797404",
        hmac_prev:
            "TOTAG54P7OKJFFDXY2AVGVT524ELF4YH5KIBAI7236HE74BDFUURVDKWYIPDCV7XXNVYIQHZA3ULGWPTWZBOUJURJ2ICTYU5OEGWKNY",
    },
    Vector {
        totp_secret:
            "SNNP3SYNRHKHM6B3MMGGSTGCVUBK4PI7TVIDTG7OAPSLASSHPGFGRZTXJIEYVKYGP5S7Z66BWWPOMWKYJHDRN2LYNXFSBF7PEMXD4PI",
        hmac_secret:
            "BY52DF2VH556XQO4J44FMJW3QN7QD7GU4WJJWXTPQDQQRK5HSIT4UIHFRI7MF3WFWSPK75WAAJQIWJ3LRFKFYRCW4NEC7DBPKGG25DQ",
        ts: 1431951316u64,
        totp_current: "44586690",
        hmac_current:
            "PNFW6SM2ZQDFJUX6RQI5YFVYVZHOVA3JVEC5QWH6DN33K5MXGHN6536TXDXVGOTRBL54XAWFX6QROUYFKJ6BD5YEQYIVISC5MKEPWHQ",
        totp_prev: "45287569",
        hmac_prev:
            "PUJU3NESDW3GV5OIFCZXI7VXRRKT6SVBNGM6HUXC6GZZG3DXPS2MWGNFF4THMB5P7NGQ3XGDX3RKHGAUDJHS64DQDVFQNYJSQHB6C5A",
    },
];

#[test]
fn unit_should_generate_expected_tokens() -> Res<()> {
    for v in &VECTORS {
        let sup = build_supplier(300, Some(v.totp_secret), Some(v.hmac_secret))?;

        let (t, h) = sup.generate_at(v.ts);
        assert_eq!(t, v.totp_current);
        assert_eq!(h, v.hmac_current);

        let (t, h) = sup.generate_at(v.ts - 300);
        assert_eq!(t, v.totp_prev);
        assert_eq!(h, v.hmac_prev);
    }
    Ok(())
}

#[test]
fn unit_should_verify_given_tokens() -> Res<()> {
    for v in &VECTORS {
        let sup = build_supplier(300, Some(v.totp_secret), Some(v.hmac_secret))?;

        sup.verify_at(&v.totp_current.to_string(), &v.hmac_current.to_string(), v.ts)?;
        sup.verify_at(&v.totp_prev.to_string(), &v.hmac_prev.to_string(), v.ts)?;
    }
    Ok(())
}

#[test]
fn unit_should_generate_and_verify_with_random_keys() -> Res<()> {
    let sup = build_supplier(300, None, None)?;

    let (totp_token, hmac_code) = sup.generate()?;

    sup.verify(&totp_token, &hmac_code)?;

    Ok(())
}

#[test]
fn unit_should_reject_random_totp_token() -> Res<()> {
    let sup = build_supplier(300, None, None)?;

    let (_, hmac_code) = sup.generate()?;
    let totp_token = "123456";

    let result = sup.verify(&totp_token.to_string(), &hmac_code);
    let error = result.expect_err("Should have failed to verify totp");

    if let MinchirError::TotpVerificationError = error {
        return Ok(());
    }

    panic!("Should have returned a totp verification error!");
}

#[test]
fn unit_should_reject_non_base_32_hmac_cookie() -> Res<()> {
    let sup = build_supplier(300, None, None)?;

    let (totp_token, _) = sup.generate()?;
    let hmac_code = "lowercase-not-in-alphabet";

    let result = sup.verify(&totp_token, &hmac_code.to_string());
    let error = result.expect_err("Should have failed to decode");

    if let MinchirError::HmacBase32DecodingError { encoded: _ } = error {
        return Ok(());
    }

    panic!("Should have returned a base32 decoding error!");
}

#[test]
fn unit_should_reject_random_hmac_cookie() -> Res<()> {
    let sup = build_supplier(300, None, None)?;

    let (totp_token, hmac_code) = sup.generate()?;
    let hmac_code = format!("{}{}", "AAAA", &hmac_code[4..]);

    let result = sup.verify(&totp_token, &hmac_code);
    let error = result.expect_err("Should have failed to verify hmac");

    if let MinchirError::HmacVerificationError = error {
        return Ok(());
    }

    panic!("Should have returned a hmac verification error!");
}

#[test]
fn generate_is_deterministic() -> Res<()> {
    let v = &VECTORS[0];
    let sup = build_supplier(300, Some(v.totp_secret), Some(v.hmac_secret))?;

    let first = sup.generate_at(v.ts);
    let second = sup.generate_at(v.ts);
    assert_eq!(first.0, second.0);
    assert_eq!(first.1, second.1);
    assert_eq!(first.0.len(), 8);
    assert!(first.0.chars().all(|c| c.is_ascii_digit()));

    let other = build_supplier(300, Some(v.totp_secret), Some(v.hmac_secret))?;
    let third = other.generate_at(v.ts);
    assert_eq!(first.0, third.0);
    assert_eq!(first.1, third.1);

    Ok(())
}

#[test]
fn challenge_verifies_within_one_step_and_expires_after_two() -> Res<()> {
    let v = &VECTORS[0];
    let sup = build_supplier(300, Some(v.totp_secret), Some(v.hmac_secret))?;

    let (token, cookie) = sup.generate_at(v.ts);
    sup.verify_at(&token, &cookie, v.ts)?;
    sup.verify_at(&token, &cookie, v.ts - 300)?;

    let stale = sup.verify_at(&token, &cookie, v.ts - 600);
    let error = stale.expect_err("Two steps of skew should not be tolerated");
    assert!(matches!(error, MinchirError::TotpVerificationError));

    Ok(())
}

#[test]
fn flipping_a_signature_bit_is_a_mismatch() -> Res<()> {
    let v = &VECTORS[0];
    let sup = build_supplier(300, Some(v.totp_secret), Some(v.hmac_secret))?;

    let (token, cookie) = sup.generate_at(v.ts);

    // Changing one character inside a full base32 group alters bits of the
    // decoded 64-byte signature ('A' to 'B', for one, flips a single bit).
    for pos in [0usize, 40, 80] {
        let mut tampered: Vec<char> = cookie.chars().collect();
        tampered[pos] = match tampered[pos] {
            'A' => 'B',
            'Z' => 'Y',
            '7' => '6',
            c => ((c as u8) + 1) as char,
        };
        let tampered: String = tampered.into_iter().collect();
        assert_ne!(tampered, cookie);

        let result = sup.verify_at(&token, &tampered, v.ts);
        let error = result.expect_err("A tampered signature must not verify");
        assert!(matches!(error, MinchirError::HmacVerificationError));
    }

    Ok(())
}

#[test]
fn malformed_cookie_values_decode_to_errors_not_crashes() -> Res<()> {
    let v = &VECTORS[0];
    let sup = build_supplier(300, Some(v.totp_secret), Some(v.hmac_secret))?;
    let (token, _) = sup.generate_at(v.ts);

    for bad in [
        "=",
        "========",
        "abcdefgh",
        "AAAA AAAA",
        "AAAA=AAA",
        "ÄÖÜ",
        "\u{1F980}",
        "01189998819991197253",
    ] {
        let result = sup.verify_at(&token, &bad.to_string(), v.ts);
        match result {
            Err(MinchirError::HmacBase32DecodingError { encoded }) => {
                assert_eq!(encoded, bad);
            }
            other => panic!("expected a decoding error for {bad:?}, got {other:?}"),
        }
    }

    Ok(())
}

#[test]
fn short_valid_base32_cookie_is_a_mismatch_not_a_crash() -> Res<()> {
    let v = &VECTORS[0];
    let sup = build_supplier(300, Some(v.totp_secret), Some(v.hmac_secret))?;
    let (token, _) = sup.generate_at(v.ts);

    // Valid base32 of the wrong length — the empty string included —
    // decodes fine and then fails the constant-time tag comparison.
    for wrong_length in ["AAAA", ""] {
        let result = sup.verify_at(&token, &wrong_length.to_string(), v.ts);
        let error = result.expect_err("A wrong-length signature cannot match");
        assert!(matches!(error, MinchirError::HmacVerificationError));
    }

    Ok(())
}

#[test]
fn preshared_keys_of_wrong_size_fail_the_build() {
    let too_short = "MFRGGZDF"; // five bytes
    let result = build_supplier(300, Some(too_short), None);
    match result {
        Err(MinchirError::ConfigCsrfTotpKeyValidationError { min_bits, max_bits }) => {
            assert_eq!(min_bits, 512);
            assert_eq!(max_bits, 1024);
        }
        other => panic!("expected a key validation error, got {other:?}"),
    }

    let not_base32 = "lowercase!";
    let result = build_supplier(300, None, Some(not_base32));
    assert!(matches!(
        result,
        Err(MinchirError::ConfigCsrfTotpKeyValidationError { .. })
    ));
}

#[test]
fn one_shared_supplier_serves_interleaved_requests() -> Res<()> {
    let v = &VECTORS[0];
    let w = &VECTORS[1];
    let sup = build_supplier(300, Some(v.totp_secret), Some(v.hmac_secret))?;

    // Two simulated request streams hammer the same supplier with different
    // timestamps; every challenge stays valid for its own timestamp and the
    // streams never contaminate each other.
    let stream_a: Vec<(String, String)> = (0..32u64).map(|i| sup.generate_at(v.ts + 300 * i)).collect();
    let stream_b: Vec<(String, String)> = (0..32u64).map(|i| sup.generate_at(w.ts + 300 * i)).collect();

    for i in 0..32u64 {
        let (ta, ha) = &stream_a[i as usize];
        let (tb, hb) = &stream_b[i as usize];
        sup.verify_at(ta, ha, v.ts + 300 * i)?;
        sup.verify_at(tb, hb, w.ts + 300 * i)?;
        assert_ne!(ha, hb);
        assert_eq!(*ta, sup.generate_at(v.ts + 300 * i).0);
    }

    Ok(())
}
