use mc_auth::store::{decode_credentials, encode_credentials, CachedCredentials};
use mc_auth::numeral::{dec_to_u64, u64_to_dec};

fn record(token: &str, expiry: u64, refresh: &str) -> CachedCredentials {
    CachedCredentials {
        access_token: String::from(token),
        access_token_expiry: expiry,
        refresh_credential: String::from(refresh),
    }
}

#[test]
fn encode_has_exact_textual_form() {
    let c = record("abc", 42, "r");
    assert_eq!(encode_credentials(&c), "3\nabc\n42\nr");
}

#[test]
fn encode_empty_record() {
    let c = record("", 0, "");
    assert_eq!(encode_credentials(&c), "0\n\n0\n");
}

#[test]
fn round_trip_plain_record() {
    let c = record("eyJhbGciOi.token.value", 1_700_000_000, "M.R3_BAY.refresh");
    let back = decode_credentials(&encode_credentials(&c)).unwrap();
    assert_eq!(back.access_token, c.access_token);
    assert_eq!(back.access_token_expiry, c.access_token_expiry);
    assert_eq!(back.refresh_credential, c.refresh_credential);
}

#[test]
fn round_trip_secrets_with_newlines_and_unicode() {
    let c = record("line one\nline two\n", u64::MAX, "sn\u{00f6}flinga \u{2603}\n\n");
    let back = decode_credentials(&encode_credentials(&c)).unwrap();
    assert_eq!(back.access_token, c.access_token);
    assert_eq!(back.access_token_expiry, c.access_token_expiry);
    assert_eq!(back.refresh_credential, c.refresh_credential);
}

#[test]
fn round_trip_default_record() {
    let c = CachedCredentials::default();
    assert_eq!(c.access_token, "");
    assert_eq!(c.access_token_expiry, 0);
    assert_eq!(c.refresh_credential, "");
    let back = decode_credentials(&encode_credentials(&c)).unwrap();
    assert_eq!(back.access_token, "");
    assert_eq!(back.access_token_expiry, 0);
    assert_eq!(back.refresh_credential, "");
}

#[test]
fn load_twice_gives_equal_records() {
    let text = encode_credentials(&record("tok", 77, "ref"));
    let first = decode_credentials(&text).unwrap();
    let second = decode_credentials(&text).unwrap();
    assert_eq!(first.access_token, second.access_token);
    assert_eq!(first.access_token_expiry, second.access_token_expiry);
    assert_eq!(first.refresh_credential, second.refresh_credential);
}

#[test]
fn corrupt_records_are_rejected_not_panicked() {
    assert!(decode_credentials("").is_err());
    assert!(decode_credentials("no newline at all").is_err());
    assert!(decode_credentials("x\nabc\n42\nr").is_err());
    assert!(decode_credentials("\nabc\n42\nr").is_err());
    assert!(decode_credentials("5\nab").is_err());
    assert!(decode_credentials("3\nabcX42\nr").is_err());
    assert!(decode_credentials("3\nabc\n\nr").is_err());
    assert!(decode_credentials("3\nabc\n42r").is_err());
    assert!(decode_credentials("3\nabc\n18446744073709551616\nr").is_err());
    assert!(decode_credentials("99999999999999999999\nabc\n42\nr").is_err());
}

#[test]
fn decode_accepts_redundant_leading_zeros() {
    let c = decode_credentials("03\nabc\n042\nr").unwrap();
    assert_eq!(c.access_token, "abc");
    assert_eq!(c.access_token_expiry, 42);
    assert_eq!(c.refresh_credential, "r");
}

#[test]
fn numerals_write_and_read_back() {
    assert_eq!(u64_to_dec(0), "0");
    assert_eq!(u64_to_dec(7), "7");
    assert_eq!(u64_to_dec(1234567890), "1234567890");
    assert_eq!(u64_to_dec(u64::MAX), "18446744073709551615");
    assert_eq!(dec_to_u64("0"), Some(0));
    assert_eq!(dec_to_u64("1234567890"), Some(1234567890));
    assert_eq!(dec_to_u64("18446744073709551615"), Some(u64::MAX));
    assert_eq!(dec_to_u64("18446744073709551616"), None);
    assert_eq!(dec_to_u64(""), None);
    assert_eq!(dec_to_u64("12a"), None);
    assert_eq!(dec_to_u64("-3"), None);
}
