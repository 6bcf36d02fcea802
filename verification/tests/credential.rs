use blake2::digest::consts::U16;
use blake2::{Blake2s, Digest};
use ip_tracker::address::IpAddress;
use ip_tracker::credential::{
    generate_token, generate_token_at, parse_credential, CredentialError,
};
use ip_tracker::db::{AppIpReport, UserId};

fn expected_token(app_id: u32, user: u64, millis: u128) -> String {
    let input = format!("{}{}", user, millis);
    format!("{}:{}", app_id, hex::encode(Blake2s::<U16>::digest(input.into_bytes())))
}

#[test]
fn test_generate_token() {
    let token = generate_token(u32::MIN, &UserId(u64::MIN));
    let (split_left, split_right) = token.split_once(':').unwrap();
    assert!(!token.is_empty());
    assert!(!split_left.is_empty());
    assert!(!split_right.is_empty());
    let token = generate_token(u32::MIN, &UserId(u64::MAX));
    let (split_left, split_right) = token.split_once(':').unwrap();
    assert!(!token.is_empty());
    assert!(!split_left.is_empty());
    assert!(!split_right.is_empty());
    let token = generate_token(u32::MAX, &UserId(u64::MIN));
    let (split_left, split_right) = token.split_once(':').unwrap();
    assert!(!token.is_empty());
    assert!(!split_left.is_empty());
    assert!(!split_right.is_empty());
    let token = generate_token(u32::MAX, &UserId(u64::MAX));
    let (split_left, split_right) = token.split_once(':').unwrap();
    assert!(!token.is_empty());
    assert!(!split_left.is_empty());
    assert!(!split_right.is_empty());
}

#[test]
fn token_at_a_fixed_time_is_the_hex_of_the_digest() {
    assert_eq!(
        generate_token_at(1000, &UserId(42), 1_700_000_000_000),
        expected_token(1000, 42, 1_700_000_000_000)
    );
    assert_eq!(generate_token_at(0, &UserId(0), 0), expected_token(0, 0, 0));
    assert_eq!(
        generate_token_at(u32::MAX, &UserId(u64::MAX), u128::MAX),
        expected_token(u32::MAX, u64::MAX, u128::MAX)
    );
}

#[test]
fn token_has_the_id_a_colon_and_32_hex_digits() {
    let token = generate_token_at(1000, &UserId(42), 5);
    let (id, digest) = token.split_once(':').unwrap();
    assert_eq!(id, "1000");
    assert_eq!(digest.len(), 32);
    assert!(digest.chars().all(|c| c.is_ascii_digit() || ('a'..='f').contains(&c)));
    let token = generate_token(77, &UserId(1));
    let (id, digest) = token.split_once(':').unwrap();
    assert_eq!(id, "77");
    assert_eq!(digest.len(), 32);
}

#[test]
fn token_is_not_its_own_input() {
    let token = generate_token_at(7, &UserId(42), 1234);
    assert_ne!(token, "7:421234");
    assert!(!token.contains("421234"));
}

#[test]
fn token_changes_with_user_and_time() {
    let base = generate_token_at(7, &UserId(42), 1234);
    assert_ne!(base, generate_token_at(7, &UserId(43), 1234));
    assert_ne!(base, generate_token_at(7, &UserId(42), 1235));
    assert_eq!(base, generate_token_at(7, &UserId(42), 1234));
}

#[test]
fn new_token_reads_back_as_its_application() {
    for app_id in [0u32, 1, 9, 10, 999, 1000, 9999, u32::MAX] {
        let token = generate_token(app_id, &UserId(42));
        assert_eq!(parse_credential(&token), Ok(app_id as u64));
        let token = generate_token_at(app_id, &UserId(u64::MAX), 1);
        assert_eq!(parse_credential(&token), Ok(app_id as u64));
    }
}

#[test]
fn credential_without_colon_is_refused() {
    assert_eq!(parse_credential(""), Err(CredentialError::MissingSeparator));
    assert_eq!(parse_credential("1000"), Err(CredentialError::MissingSeparator));
    assert_eq!(parse_credential("abcdef"), Err(CredentialError::MissingSeparator));
}

#[test]
fn credential_without_number_is_refused() {
    assert_eq!(parse_credential(":"), Err(CredentialError::InvalidId));
    assert_eq!(parse_credential(":abc"), Err(CredentialError::InvalidId));
    assert_eq!(parse_credential("abc:def"), Err(CredentialError::InvalidId));
    assert_eq!(parse_credential("12a:def"), Err(CredentialError::InvalidId));
    assert_eq!(parse_credential("-1:def"), Err(CredentialError::InvalidId));
    assert_eq!(parse_credential("+:def"), Err(CredentialError::InvalidId));
    assert_eq!(parse_credential(" 1:def"), Err(CredentialError::InvalidId));
    assert_eq!(parse_credential("1 :def"), Err(CredentialError::InvalidId));
    assert_eq!(parse_credential("١٢:def"), Err(CredentialError::InvalidId));
}

#[test]
fn credential_id_is_what_stands_before_the_first_colon() {
    assert_eq!(parse_credential("1000:abcd"), Ok(1000));
    assert_eq!(parse_credential("0:"), Ok(0));
    assert_eq!(parse_credential("5:6:7"), Ok(5));
    assert_eq!(parse_credential("007:x"), Ok(7));
    assert_eq!(parse_credential("+12:x"), Ok(12));
    assert_eq!(parse_credential("18446744073709551615:x"), Ok(u64::MAX));
}

#[test]
fn credential_id_above_64_bits_is_refused() {
    assert_eq!(parse_credential("18446744073709551616:x"), Err(CredentialError::InvalidId));
    assert_eq!(parse_credential("99999999999999999999999:x"), Err(CredentialError::InvalidId));
    assert_eq!(parse_credential("18446744073709551620:x"), Err(CredentialError::InvalidId));
}

#[test]
fn credential_agrees_with_the_standard_reading() {
    for text in [
        "1:a", "+1:a", "-1:a", "00:a", "+0:a", "++1:a", "1+:a", "184467440737095516150:a",
        "18446744073709551615:a", "18446744073709551616:a", "é1:a", "1é:a", ":", "::", "a", "",
    ] {
        let expected = match text.split_once(':') {
            None => Err(CredentialError::MissingSeparator),
            Some((id, _)) => id.parse::<u64>().map_err(|_| CredentialError::InvalidId),
        };
        assert_eq!(parse_credential(text), expected, "credential {:?}", text);
    }
}

#[test]
fn report_keeps_the_whole_credential() {
    let addr = IpAddress::V4([203, 0, 113, 7]);
    let report = AppIpReport::from_str("1000:abcdef", addr).unwrap();
    assert_eq!(report.id, UserId(1000));
    assert_eq!(report.token, "1000:abcdef");
    assert_eq!(report.addr, addr);
    let report = AppIpReport::new(UserId(3), "x".to_string(), IpAddress::V6([0; 8]));
    assert_eq!(report.id, UserId(3));
    assert_eq!(report.token, "x");
    assert_eq!(report.addr, IpAddress::V6([0; 8]));
}

#[test]
fn report_refusals_say_which() {
    let addr = IpAddress::V4([10, 0, 0, 1]);
    assert_eq!(AppIpReport::from_str("abcdef", addr).err(), Some("Invalid token format"));
    assert_eq!(AppIpReport::from_str("", addr).err(), Some("Invalid token format"));
    assert_eq!(AppIpReport::from_str("abc:def", addr).err(), Some("Failed to convert ID"));
    assert_eq!(AppIpReport::from_str(":def", addr).err(), Some("Failed to convert ID"));
}
