use std::time::{Duration, SystemTime, SystemTimeError};

use auth_token::auth::TokenAssets;
use auth_token::clock::whole_seconds;
use auth_token::encoding::{encode_as_b64, join_with_dot};
use auth_token::error::{ClockFailure, EncodeFailure, Error};
use auth_token::json::{push_decimal, quote, quote_outcome};
use auth_token::signing::{append_signature, Algorithm};
use auth_token::token::{Claims, Header, Token, ONE_HOUR, TYP};

fn example_assets() -> TokenAssets {
    TokenAssets::new("ABC123", "com.example.app", "TEAM01", b"no key is needed here")
}

fn before_epoch() -> SystemTimeError {
    let later = SystemTime::UNIX_EPOCH + Duration::from_secs(1);
    SystemTime::UNIX_EPOCH.duration_since(later).unwrap_err()
}

fn decimal_of(n: u64) -> String {
    let mut out = String::new();
    push_decimal(&mut out, n);
    out
}

#[test]
fn new_keeps_the_four_values() {
    let assets = TokenAssets::new("ABC123", "com.example.app", "TEAM01", &[1u8, 2, 3]);
    assert_eq!(assets.key_id(), "ABC123");
    assert_eq!(assets.service_id(), "com.example.app");
    assert_eq!(assets.team_id(), "TEAM01");
    assert_eq!(assets.private_key(), &[1u8, 2, 3]);
}

#[test]
fn new_does_not_look_at_the_key() {
    let assets = TokenAssets::new("", "", "", b"");
    assert_eq!(assets.key_id(), "");
    assert_eq!(assets.private_key(), b"");
}

#[test]
fn header_is_es256_with_team_and_service_joined_by_a_dot() {
    let header = Header::from_token_assets(&example_assets());
    assert_eq!(header.typ(), "JWT");
    assert_eq!(TYP, "JWT");
    assert_eq!(header.alg(), Algorithm::ES256);
    assert_eq!(header.alg().as_str(), "ES256");
    assert_eq!(header.kid(), "ABC123");
    assert_eq!(header.id(), "TEAM01.com.example.app");
}

#[test]
fn header_new_keeps_what_it_is_given() {
    let header = Header::new("key", "team.service");
    assert_eq!(header.kid(), "key");
    assert_eq!(header.id(), "team.service");
    assert_eq!(header.alg(), Algorithm::ES256);
}

#[test]
fn header_of_empty_identifiers_has_a_lone_dot_as_id() {
    let header = Header::from_token_assets(&TokenAssets::new("", "", "", b""));
    assert_eq!(header.kid(), "");
    assert_eq!(header.id(), ".");
    assert_eq!(
        header.to_json().unwrap(),
        "{\"typ\":\"JWT\",\"alg\":\"ES256\",\"kid\":\"\",\"id\":\".\"}"
    );
}

#[test]
fn claims_expire_one_hour_after_issue() {
    assert_eq!(ONE_HOUR, 3600);
    let assets = example_assets();
    for iat in [0u64, 1, 59, 1_700_000_000, u64::MAX - 3600] {
        let claims = Claims::from_reading(&assets, Ok(iat)).unwrap();
        assert_eq!(claims.iat(), iat);
        assert_eq!(claims.exp(), iat + 3600);
        assert_eq!(claims.exp() - claims.iat(), 3600);
        assert_eq!(claims.iss(), "TEAM01");
        assert_eq!(claims.sub(), "com.example.app");
    }
}

#[test]
fn reading_without_room_for_the_expiry_is_a_clock_failure() {
    let assets = example_assets();
    for iat in [u64::MAX - 3599, u64::MAX - 1, u64::MAX] {
        let failure = Claims::from_reading(&assets, Ok(iat)).unwrap_err();
        assert!(matches!(failure, Error::SystemTimeError(ClockFailure::ExpiryOutOfRange)));
        let failure = Token::from_reading(&assets, Ok(iat)).unwrap_err();
        assert!(matches!(failure, Error::SystemTimeError(ClockFailure::ExpiryOutOfRange)));
    }
}

/// The reading of a clock that stands at `time`.
fn reading_at(time: SystemTime) -> Result<u64, SystemTimeError> {
    time.duration_since(SystemTime::UNIX_EPOCH).map(|elapsed| elapsed.as_secs())
}

#[test]
fn time_before_the_epoch_is_a_clock_failure() {
    let assets = example_assets();
    let reading = reading_at(SystemTime::UNIX_EPOCH - Duration::from_secs(1));
    assert!(reading.is_err());
    let failure = Token::from_reading(&assets, reading).unwrap_err();
    match failure {
        Error::SystemTimeError(ClockFailure::BeforeEpoch(e)) => {
            assert_eq!(e.duration(), Duration::from_secs(1));
        }
        other => panic!("not a clock failure: {:?}", other),
    }
    let failure = Claims::from_reading(&assets, Err(before_epoch())).unwrap_err();
    assert!(matches!(failure, Error::SystemTimeError(ClockFailure::BeforeEpoch(_))));
}

#[test]
fn whole_seconds_drops_the_fraction_of_time_elapsed() {
    assert_eq!(whole_seconds(Ok(Duration::from_secs(0))).unwrap(), 0);
    assert_eq!(whole_seconds(Ok(Duration::from_millis(999))).unwrap(), 0);
    assert_eq!(whole_seconds(Ok(Duration::from_millis(1_700_000_000_999))).unwrap(), 1_700_000_000);
    assert_eq!(whole_seconds(Ok(Duration::from_secs(u64::MAX))).unwrap(), u64::MAX);
}

#[test]
fn whole_seconds_hands_on_the_error_of_a_time_before_the_epoch() {
    let earlier = SystemTime::UNIX_EPOCH - Duration::from_secs(90);
    let answer = earlier.duration_since(SystemTime::UNIX_EPOCH);
    let failure = whole_seconds(answer).unwrap_err();
    assert_eq!(failure.duration(), Duration::from_secs(90));
}

#[test]
fn with_claims_puts_the_header_of_the_credentials_beside_them() {
    let assets = example_assets();
    let claims = Claims::from_reading(&assets, Ok(42));
    let token = Token::with_claims(&assets, claims).unwrap();
    assert_eq!(token.header().kid(), "ABC123");
    assert_eq!(token.header().id(), "TEAM01.com.example.app");
    assert_eq!(token.claims().iat(), 42);
    assert_eq!(token.claims().exp(), 3642);
    assert_eq!(token.claims().iss(), "TEAM01");
    assert_eq!(token.claims().sub(), "com.example.app");
}

#[test]
fn with_claims_hands_on_the_failure_to_make_them() {
    let assets = example_assets();
    let failed = Claims::from_reading(&assets, Err(before_epoch()));
    match Token::with_claims(&assets, failed).unwrap_err() {
        Error::SystemTimeError(ClockFailure::BeforeEpoch(e)) => {
            assert_eq!(e.duration(), Duration::from_secs(1))
        }
        other => panic!("not a clock failure: {:?}", other),
    }
    let refused = serde_json::from_str::<u64>("x").unwrap_err();
    let failed = Err(Error::from(refused));
    assert!(matches!(
        Token::with_claims(&assets, failed),
        Err(Error::SerdeJsonError(EncodeFailure::Json(_)))
    ));
}

#[test]
fn segments_are_as_long_as_their_documents_make_them() {
    for (json, len) in [("", 0usize), ("a", 2), ("ab", 3), ("abc", 4), ("abcd", 6), ("\u{e9}", 3)] {
        assert_eq!(encode_as_b64(json).unwrap().len(), len);
        assert_eq!(len, (4 * json.len() + 2) / 3);
    }
}

#[test]
fn readings_within_one_second_give_the_same_token() {
    let assets = example_assets();
    let start = SystemTime::UNIX_EPOCH + Duration::from_millis(1_700_000_000_000);
    let end = SystemTime::UNIX_EPOCH + Duration::from_millis(1_700_000_000_999);
    let first = Token::from_reading(&assets, reading_at(start)).unwrap();
    let second = Token::from_reading(&assets, reading_at(end)).unwrap();
    assert_eq!(first.claims().iat(), 1_700_000_000);
    assert_eq!(second.claims().iat(), 1_700_000_000);
    assert_eq!(first.signing_input().unwrap(), second.signing_input().unwrap());
}

#[test]
fn claims_from_the_clock_are_issued_now() {
    let before = reading_at(SystemTime::now()).unwrap();
    let claims = Claims::from_token_assets(&example_assets()).unwrap();
    let after = reading_at(SystemTime::now()).unwrap();
    assert!(before <= claims.iat() && claims.iat() <= after);
    assert_eq!(claims.exp(), claims.iat() + 3600);
    assert_eq!(claims.iss(), "TEAM01");
    assert_eq!(claims.sub(), "com.example.app");
}

#[test]
fn token_from_the_clock_is_issued_now() {
    let before = reading_at(SystemTime::now()).unwrap();
    let token = Token::from_token_assets(&example_assets()).unwrap();
    let after = reading_at(SystemTime::now()).unwrap();
    assert!(before <= token.claims().iat() && token.claims().iat() <= after);
    assert_eq!(token.claims().exp() - token.claims().iat(), 3600);
    assert_eq!(token.header().id(), "TEAM01.com.example.app");
}

#[test]
fn header_document_of_the_example() {
    let token = Token::from_reading(&example_assets(), Ok(1_700_000_000)).unwrap();
    assert_eq!(
        token.header().to_json().unwrap(),
        "{\"typ\":\"JWT\",\"alg\":\"ES256\",\"kid\":\"ABC123\",\"id\":\"TEAM01.com.example.app\"}"
    );
}

#[test]
fn claims_document_of_the_example() {
    let token = Token::from_reading(&example_assets(), Ok(1_700_000_000)).unwrap();
    assert_eq!(
        token.claims().to_json().unwrap(),
        "{\"iss\":\"TEAM01\",\"iat\":1700000000,\"exp\":1700003600,\"sub\":\"com.example.app\"}"
    );
}

#[test]
fn documents_are_laid_out_around_their_values() {
    assert_eq!(
        Header::document(Algorithm::ES256, "1", "2"),
        "{\"typ\":\"JWT\",\"alg\":\"ES256\",\"kid\":1,\"id\":2}"
    );
    assert_eq!(
        Claims::document("\"a\"", 7, 3607, "\"b\""),
        "{\"iss\":\"a\",\"iat\":7,\"exp\":3607,\"sub\":\"b\"}"
    );
}

#[test]
fn documents_agree_with_the_serializer_on_every_value() {
    let assets = TokenAssets::new("k \"1\"", "svc\\one\n", "t\u{e9}am\u{1}", b"");
    let token = Token::from_reading(&assets, Ok(u64::MAX - 3600)).unwrap();

    let header: serde_json::Value =
        serde_json::from_str(&token.header().to_json().unwrap()).unwrap();
    let header = header.as_object().unwrap();
    assert_eq!(header.len(), 4);
    assert_eq!(header["typ"].as_str(), Some("JWT"));
    assert_eq!(header["alg"].as_str(), Some("ES256"));
    assert_eq!(header["kid"].as_str(), Some("k \"1\""));
    assert_eq!(header["id"].as_str(), Some("t\u{e9}am\u{1}.svc\\one\n"));

    let claims: serde_json::Value =
        serde_json::from_str(&token.claims().to_json().unwrap()).unwrap();
    let claims = claims.as_object().unwrap();
    assert_eq!(claims.len(), 4);
    assert_eq!(claims["iss"].as_str(), Some("t\u{e9}am\u{1}"));
    assert_eq!(claims["iat"].as_u64(), Some(u64::MAX - 3600));
    assert_eq!(claims["exp"].as_u64(), Some(u64::MAX));
    assert_eq!(claims["sub"].as_str(), Some("svc\\one\n"));
}

#[test]
fn quote_writes_a_json_string_literal() {
    assert_eq!(quote("").unwrap(), "\"\"");
    assert_eq!(quote("ABC123").unwrap(), "\"ABC123\"");
    assert_eq!(quote("a\"b").unwrap(), "\"a\\\"b\"");
    assert_eq!(quote("a\\b").unwrap(), "\"a\\\\b\"");
    assert_eq!(quote("line\nbreak\ttab").unwrap(), "\"line\\nbreak\\ttab\"");
    assert_eq!(quote("\u{1}").unwrap(), "\"\\u0001\"");
    assert_eq!(quote("caf\u{e9}").unwrap(), "\"caf\u{e9}\"");
}

#[test]
fn quote_outcome_files_each_answer_of_the_serializer() {
    assert_eq!(quote_outcome(Ok(String::from("\"a\""))).unwrap(), "\"a\"");
    let refused = serde_json::from_str::<u64>("x").unwrap_err();
    let line = refused.line();
    match quote_outcome(Err(refused)).unwrap_err() {
        Error::SerdeJsonError(EncodeFailure::Json(e)) => assert_eq!(e.line(), line),
        other => panic!("not a failure to serialize: {:?}", other),
    }
}

#[test]
fn decimal_numerals_have_no_leading_zero() {
    assert_eq!(decimal_of(0), "0");
    assert_eq!(decimal_of(9), "9");
    assert_eq!(decimal_of(10), "10");
    assert_eq!(decimal_of(109), "109");
    assert_eq!(decimal_of(1_700_000_000), "1700000000");
    assert_eq!(decimal_of(1_700_003_600), "1700003600");
    assert_eq!(decimal_of(u64::MAX), "18446744073709551615");
}

#[test]
fn push_decimal_appends_to_what_is_there() {
    let mut out = String::from("\"iat\":");
    push_decimal(&mut out, 42);
    assert_eq!(out, "\"iat\":42");
}

#[test]
fn decimal_numerals_agree_with_the_serializer() {
    for n in [0u64, 7, 10, 99, 100, 3600, 1_700_000_000, u64::MAX / 10, u64::MAX] {
        assert_eq!(decimal_of(n), serde_json::to_string(&n).unwrap());
    }
}

#[test]
fn encode_as_b64_is_url_safe_and_unpadded() {
    assert_eq!(encode_as_b64("").unwrap(), "");
    assert_eq!(encode_as_b64("f").unwrap(), "Zg");
    assert_eq!(encode_as_b64("fo").unwrap(), "Zm8");
    assert_eq!(encode_as_b64("foo").unwrap(), "Zm9v");
    assert_eq!(encode_as_b64("foob").unwrap(), "Zm9vYg");
    assert_eq!(encode_as_b64("???").unwrap(), "Pz8_");
    assert_eq!(encode_as_b64(">>>").unwrap(), "Pj4-");
    assert_eq!(encode_as_b64("{\"a\":\"\u{e9}\"}").unwrap(), "eyJhIjoiw6kifQ");
}

#[test]
fn signing_input_is_two_encoded_documents_joined_by_a_dot() {
    let token = Token::from_reading(&example_assets(), Ok(1_700_000_000)).unwrap();
    let header_chars = encode_as_b64(&token.header().to_json().unwrap()).unwrap();
    let claims_chars = encode_as_b64(&token.claims().to_json().unwrap()).unwrap();
    assert_eq!(token.signing_input().unwrap(), format!("{}.{}", header_chars, claims_chars));
    assert_eq!(
        header_chars,
        "eyJ0eXAiOiJKV1QiLCJhbGciOiJFUzI1NiIsImtpZCI6IkFCQzEyMyIsImlkIjoiVEVBTTAxLmNvbS5leGFtcGxlLmFwcCJ9"
    );
    assert_eq!(
        claims_chars,
        "eyJpc3MiOiJURUFNMDEiLCJpYXQiOjE3MDAwMDAwMDAsImV4cCI6MTcwMDAwMzYwMCwic3ViIjoiY29tLmV4YW1wbGUuYXBwIn0"
    );
}

#[test]
fn join_with_dot_puts_one_dot_between() {
    assert_eq!(join_with_dot(String::from("ab"), "cd"), "ab.cd");
    assert_eq!(join_with_dot(String::new(), ""), ".");
}

#[test]
fn same_reading_gives_the_same_text_to_sign() {
    let assets = example_assets();
    let first = Token::from_reading(&assets, Ok(1_700_000_000)).unwrap();
    let second = Token::from_reading(&assets, Ok(1_700_000_000)).unwrap();
    assert_eq!(first.claims().iat(), second.claims().iat());
    assert_eq!(first.signing_input().unwrap(), second.signing_input().unwrap());
}

#[test]
fn a_second_later_only_the_two_times_differ() {
    let assets = example_assets();
    let first = Token::from_reading(&assets, Ok(1_700_000_000)).unwrap();
    let second = Token::from_reading(&assets, Ok(1_700_000_001)).unwrap();
    assert_eq!(first.header().to_json().unwrap(), second.header().to_json().unwrap());
    assert_eq!(first.claims().iss(), second.claims().iss());
    assert_eq!(first.claims().sub(), second.claims().sub());
    assert_eq!(second.claims().iat(), first.claims().iat() + 1);
    assert_eq!(second.claims().exp(), first.claims().exp() + 1);
    assert_eq!(
        second.claims().to_json().unwrap(),
        "{\"iss\":\"TEAM01\",\"iat\":1700000001,\"exp\":1700003601,\"sub\":\"com.example.app\"}"
    );
    assert_ne!(first.signing_input().unwrap(), second.signing_input().unwrap());
}

#[test]
fn append_signature_joins_with_a_dot() {
    let token = append_signature(String::from("aa.bb"), Ok(String::from("cc"))).unwrap();
    assert_eq!(token, "aa.bb.cc");
}

#[test]
fn append_signature_files_a_failure_to_sign() {
    let refused = jsonwebtoken::EncodingKey::from_ec_pem(b"no key").err().unwrap();
    let failure = append_signature(String::from("aa.bb"), Err(refused.clone())).unwrap_err();
    match failure {
        Error::JsonWebTokenError(e) => assert_eq!(e, refused),
        other => panic!("not a failure to sign: {:?}", other),
    }
}

#[test]
fn each_failure_names_its_stage() {
    assert_eq!(Error::SerdeJsonError(EncodeFailure::Oversized).message(), "JSON error");
    let json = serde_json::from_str::<u64>("x").unwrap_err();
    assert_eq!(Error::SerdeJsonError(EncodeFailure::Json(json)).message(), "JSON error");
    let refused = jsonwebtoken::EncodingKey::from_ec_pem(b"no key").err().unwrap();
    assert_eq!(Error::JsonWebTokenError(refused).message(), "JWT error");
    assert_eq!(
        Error::SystemTimeError(ClockFailure::ExpiryOutOfRange).message(),
        "System time error"
    );
    assert_eq!(
        Error::SystemTimeError(ClockFailure::BeforeEpoch(before_epoch())).message(),
        "System time error"
    );
}

#[test]
fn outside_errors_convert_to_their_stage() {
    let json = serde_json::from_str::<u64>("x").unwrap_err();
    assert!(matches!(Error::from(json), Error::SerdeJsonError(EncodeFailure::Json(_))));
    let refused = jsonwebtoken::EncodingKey::from_ec_pem(b"no key").err().unwrap();
    assert!(matches!(Error::from(refused), Error::JsonWebTokenError(_)));
    assert!(matches!(
        Error::from(before_epoch()),
        Error::SystemTimeError(ClockFailure::BeforeEpoch(_))
    ));
}
