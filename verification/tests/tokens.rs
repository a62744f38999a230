use auth_server::auth::token::access_token::{
    claims_from_payload, check_decoded, create_access_token, create_access_token_at,
    validate_token, validate_token_at,
};
use auth_server::auth::token::constants::{
    SigningAlgorithm, ACCESS_TOKEN_EXPIRATION, ALGORITHM, REFRESH_ALGORITHM, REFRESH_KEY_LENGTH,
    REFRESH_TOKEN_EXPIRATION, SECRET_KEY_LENGTH,
};
use auth_server::auth::token::errors::{
    ExpiredAccessTokenError, ExpiredRefreshTokenError, TokenError, TokenValidationNotSuccessfull,
};
use auth_server::auth::token::jwt::{find_claim, find_integer, find_text, Claim, ClaimValue};
use auth_server::auth::token::keys::{provision_keys, SigningKeyPair};
use auth_server::auth::token::refresh_token::{
    check_decoded_refresh, create_refresh_token, create_refresh_token_at, read_refresh_claims,
    refresh_claims_from_payload, validate_refresh_token, validate_refresh_token_at,
};
use auth_server::auth::user::UserInfo;

fn alice() -> UserInfo {
    UserInfo {
        user_id: 7,
        username: "alice".to_string(),
        password: "hash".to_string(),
        email: "a@x.com".to_string(),
    }
}

const KEY_A: &str = "0123456789abcdefghijklmnopqrstuvwxyzABCDEFGHIJKLMNOPQRSTUVWXYZ01";
const KEY_B: &str = "zyxwvutsrqponmlkjihgfedcba9876543210ZYXWVUTSRQPONMLKJIHGFEDCBA98";

fn tamper_last(token: &str) -> String {
    let mut bytes = token.as_bytes().to_vec();
    let last = bytes.len() - 1;
    bytes[last] = if bytes[last] == b'A' { b'B' } else { b'A' };
    String::from_utf8(bytes).unwrap()
}

#[test]
fn constants_have_their_values() {
    assert_eq!(ACCESS_TOKEN_EXPIRATION, 3600);
    assert_eq!(REFRESH_TOKEN_EXPIRATION, 86400);
    assert_eq!(SECRET_KEY_LENGTH, 86);
    assert_eq!(REFRESH_KEY_LENGTH, 86);
    assert_eq!(ALGORITHM, SigningAlgorithm::HS256);
    assert_eq!(REFRESH_ALGORITHM, SigningAlgorithm::HS512);
}

#[test]
fn access_token_has_the_known_text() {
    let token = create_access_token_at(&alice(), "secret", 1000).unwrap();
    let parts: Vec<&str> = token.split('.').collect();
    assert_eq!(parts.len(), 3);
    // {"typ":"JWT","alg":"HS256"} and {"username":"alice","exp":4600}
    assert_eq!(parts[0], "eyJ0eXAiOiJKV1QiLCJhbGciOiJIUzI1NiJ9");
    assert_eq!(parts[1], "eyJ1c2VybmFtZSI6ImFsaWNlIiwiZXhwIjo0NjAwfQ");
    assert_eq!(parts[2].len(), 43);
}

#[test]
fn access_token_is_fixed_by_its_inputs() {
    let first = create_access_token_at(&alice(), KEY_A, 1000).unwrap();
    let second = create_access_token_at(&alice(), KEY_A, 1000).unwrap();
    assert_eq!(first, second);
    let later = create_access_token_at(&alice(), KEY_A, 1001).unwrap();
    assert_ne!(first, later);
}

#[test]
fn issued_access_token_validates_at_once() {
    let token = create_access_token_at(&alice(), KEY_A, 1000).unwrap();
    let claims = validate_token_at(&token, KEY_A, 1000).unwrap();
    assert_eq!(claims.username, "alice");
    assert_eq!(claims.exp, 4600);
}

#[test]
fn access_token_is_valid_up_to_its_expiry() {
    let token = create_access_token_at(&alice(), KEY_A, 1000).unwrap();
    assert!(validate_token_at(&token, KEY_A, 4600).is_ok());
    assert!(validate_token_at(&token, KEY_A, i64::MIN).is_ok());
}

#[test]
fn access_token_expires_after_an_hour() {
    let token = create_access_token_at(&alice(), KEY_A, 1000).unwrap();
    assert_eq!(validate_token_at(&token, KEY_A, 4601).unwrap_err(), TokenError::Expired);
    assert_eq!(validate_token_at(&token, KEY_A, i64::MAX).unwrap_err(), TokenError::Expired);
}

#[test]
fn long_expired_token_is_expired_not_invalid() {
    let token = create_access_token_at(&alice(), KEY_A, -100_000).unwrap();
    assert_eq!(validate_token_at(&token, KEY_A, 0).unwrap_err(), TokenError::Expired);
}

#[test]
fn tampered_signature_is_invalid() {
    let token = create_access_token_at(&alice(), KEY_A, 1000).unwrap();
    let forged = tamper_last(&token);
    assert_ne!(forged, token);
    assert_eq!(validate_token_at(&forged, KEY_A, 1000).unwrap_err(), TokenError::SignatureInvalid);
    assert_eq!(validate_token_at(&forged, KEY_A, 9999).unwrap_err(), TokenError::SignatureInvalid);
}

#[test]
fn tampered_payload_is_invalid() {
    let token = create_access_token_at(&alice(), KEY_A, 1000).unwrap();
    let other = create_access_token_at(&alice(), KEY_A, 999_999).unwrap();
    let ours: Vec<&str> = token.split('.').collect();
    let theirs: Vec<&str> = other.split('.').collect();
    let spliced = format!("{}.{}.{}", ours[0], theirs[1], ours[2]);
    assert_eq!(validate_token_at(&spliced, KEY_A, 1000).unwrap_err(), TokenError::SignatureInvalid);
}

#[test]
fn malformed_tokens_are_invalid() {
    for text in ["", "abc", "a.b", "a.b.c", "a.b.c.d", "..", "."] {
        assert_eq!(validate_token_at(text, KEY_A, 0).unwrap_err(), TokenError::SignatureInvalid);
        assert_eq!(
            validate_refresh_token_at(text, KEY_A, 0).unwrap_err(),
            TokenError::SignatureInvalid
        );
    }
}

#[test]
fn token_of_one_user_fails_under_another_users_key() {
    let token = create_access_token_at(&alice(), KEY_A, 1000).unwrap();
    assert_eq!(validate_token_at(&token, KEY_B, 1000).unwrap_err(), TokenError::SignatureInvalid);
    let same_claims_other_key = create_access_token_at(&alice(), KEY_B, 1000).unwrap();
    assert_ne!(token, same_claims_other_key);
    assert_eq!(
        validate_token_at(&same_claims_other_key, KEY_A, 1000).unwrap_err(),
        TokenError::SignatureInvalid
    );
    assert!(validate_token_at(&same_claims_other_key, KEY_B, 1000).is_ok());
}

#[test]
fn expiry_that_does_not_fit_is_refused() {
    let r = create_access_token_at(&alice(), KEY_A, i64::MAX - 3599);
    assert_eq!(r.unwrap_err(), TokenError::ExpiryOutOfRange);
    let edge = create_access_token_at(&alice(), KEY_A, i64::MAX - 3600).unwrap();
    assert_eq!(validate_token_at(&edge, KEY_A, i64::MAX).unwrap().exp, i64::MAX);
    let r = create_refresh_token_at(&alice(), "s", KEY_A, i64::MAX - 86399);
    assert_eq!(r.unwrap_err(), TokenError::ExpiryOutOfRange);
    assert!(create_refresh_token_at(&alice(), "s", KEY_A, i64::MAX - 86400).is_ok());
}

#[test]
fn clock_issued_access_token_validates_now() {
    let token = create_access_token(&alice(), KEY_A).unwrap();
    let claims = validate_token(&token, KEY_A).unwrap();
    assert_eq!(claims.username, "alice");
    assert_eq!(validate_token(&token, KEY_B).unwrap_err(), TokenError::SignatureInvalid);
}

#[test]
fn unusual_user_names_survive_the_token() {
    for name in ["", "a\"b\\c", "zażółć gęślą jaźń", "line\nbreak\u{0}", "😀.."] {
        let mut user = alice();
        user.username = name.to_string();
        let token = create_access_token_at(&user, KEY_A, -5000).unwrap();
        let claims = validate_token_at(&token, KEY_A, -5000).unwrap();
        assert_eq!(claims.username, name);
        assert_eq!(claims.exp, -1400);
    }
}

#[test]
fn refresh_token_has_the_known_text() {
    let token = create_refresh_token_at(&alice(), "sess-1", "secret", 1000).unwrap();
    let parts: Vec<&str> = token.split('.').collect();
    assert_eq!(parts.len(), 3);
    // {"typ":"JWT","alg":"HS512"} and {"session":"sess-1","sub":"alice","exp":87400}
    assert_eq!(parts[0], "eyJ0eXAiOiJKV1QiLCJhbGciOiJIUzUxMiJ9");
    assert_eq!(parts[1], "eyJzZXNzaW9uIjoic2Vzcy0xIiwic3ViIjoiYWxpY2UiLCJleHAiOjg3NDAwfQ");
    assert_eq!(parts[2].len(), 86);
}

#[test]
fn refresh_token_is_good_before_its_expiry_only() {
    let token = create_refresh_token_at(&alice(), "sess-1", KEY_B, 1000).unwrap();
    assert_eq!(validate_refresh_token_at(&token, KEY_B, 1000), Ok(true));
    assert_eq!(validate_refresh_token_at(&token, KEY_B, 87399), Ok(true));
    assert_eq!(validate_refresh_token_at(&token, KEY_B, 87400), Ok(false));
    assert_eq!(validate_refresh_token_at(&token, KEY_B, 87401), Ok(false));
}

#[test]
fn refresh_token_with_bad_signature_is_invalid() {
    let token = create_refresh_token_at(&alice(), "sess-1", KEY_B, 1000).unwrap();
    assert_eq!(
        validate_refresh_token_at(&tamper_last(&token), KEY_B, 1000),
        Err(TokenError::SignatureInvalid)
    );
    assert_eq!(validate_refresh_token_at(&token, KEY_A, 1000), Err(TokenError::SignatureInvalid));
}

#[test]
fn clock_issued_refresh_token_validates_now() {
    let token = create_refresh_token(&alice(), "sess-1", KEY_B).unwrap();
    assert_eq!(validate_refresh_token(&token, KEY_B), Ok(true));
}

#[test]
fn token_classes_do_not_stand_in_for_each_other() {
    let access = create_access_token_at(&alice(), KEY_A, 1000).unwrap();
    let refresh = create_refresh_token_at(&alice(), "sess-1", KEY_A, 1000).unwrap();
    assert_eq!(validate_refresh_token_at(&access, KEY_A, 1000), Err(TokenError::SignatureInvalid));
    assert_eq!(validate_token_at(&refresh, KEY_A, 1000).unwrap_err(), TokenError::SignatureInvalid);
}

#[test]
fn well_signed_token_without_the_claims_is_invalid() {
    // a refresh payload signed with the access algorithm would carry no `username`
    let payload = vec![
        Claim { name: "sub".to_string(), value: ClaimValue::Text("alice".to_string()) },
        Claim { name: "exp".to_string(), value: ClaimValue::Integer(10) },
    ];
    assert!(claims_from_payload(&payload).is_none());
    assert_eq!(check_decoded(Some(payload), 0).unwrap_err(), TokenError::SignatureInvalid);
    assert_eq!(check_decoded(None, 0).unwrap_err(), TokenError::SignatureInvalid);
    let ill_typed = vec![
        Claim { name: "username".to_string(), value: ClaimValue::Integer(1) },
        Claim { name: "exp".to_string(), value: ClaimValue::Integer(10) },
    ];
    assert!(claims_from_payload(&ill_typed).is_none());
    let no_number = vec![
        Claim { name: "username".to_string(), value: ClaimValue::Text("a".to_string()) },
        Claim { name: "exp".to_string(), value: ClaimValue::Other },
    ];
    assert!(claims_from_payload(&no_number).is_none());
}

#[test]
fn decoded_claims_are_judged_by_the_clock() {
    let payload = || {
        vec![
            Claim { name: "extra".to_string(), value: ClaimValue::Other },
            Claim { name: "username".to_string(), value: ClaimValue::Text("bob".to_string()) },
            Claim { name: "exp".to_string(), value: ClaimValue::Integer(50) },
        ]
    };
    let claims = check_decoded(Some(payload()), 50).unwrap();
    assert_eq!((claims.username.as_str(), claims.exp), ("bob", 50));
    assert_eq!(check_decoded(Some(payload()), 51).unwrap_err(), TokenError::Expired);
}

#[test]
fn decoded_refresh_claims_are_judged_by_the_clock() {
    let payload = || {
        vec![
            Claim { name: "session".to_string(), value: ClaimValue::Text("s".to_string()) },
            Claim { name: "sub".to_string(), value: ClaimValue::Text("bob".to_string()) },
            Claim { name: "exp".to_string(), value: ClaimValue::Integer(50) },
        ]
    };
    let claims = refresh_claims_from_payload(&payload()).unwrap();
    assert_eq!((claims.session.as_str(), claims.sub.as_str(), claims.exp), ("s", "bob", 50));
    assert_eq!(check_decoded_refresh(Some(payload()), 49), Ok(true));
    assert_eq!(check_decoded_refresh(Some(payload()), 50), Ok(false));
    assert_eq!(check_decoded_refresh(None, 0), Err(TokenError::SignatureInvalid));
    let short = vec![Claim { name: "exp".to_string(), value: ClaimValue::Integer(50) }];
    assert_eq!(check_decoded_refresh(Some(short), 0), Err(TokenError::SignatureInvalid));
}

#[test]
fn first_claim_of_a_name_is_found() {
    let payload = vec![
        Claim { name: "a".to_string(), value: ClaimValue::Integer(1) },
        Claim { name: "b".to_string(), value: ClaimValue::Text("x".to_string()) },
        Claim { name: "a".to_string(), value: ClaimValue::Integer(2) },
    ];
    assert!(matches!(find_claim(&payload, &"a".to_string()), Some(ClaimValue::Integer(1))));
    assert!(find_claim(&payload, &"c".to_string()).is_none());
    assert_eq!(find_integer(&payload, &"a".to_string()), Some(1));
    assert_eq!(find_integer(&payload, &"b".to_string()), None);
    assert_eq!(find_text(&payload, &"b".to_string()), Some("x".to_string()));
    assert_eq!(find_text(&payload, &"a".to_string()), None);
    assert_eq!(find_text(&Vec::new(), &"a".to_string()), None);
}

#[test]
fn key_pair_needs_two_different_full_secrets() {
    let access = "a".repeat(86);
    let refresh = "b".repeat(86);
    let pair = SigningKeyPair::new(3, access.clone(), refresh.clone()).unwrap();
    assert_eq!(pair.user_id, 3);
    assert_eq!(pair.access_secret, access);
    assert_eq!(pair.refresh_secret, refresh);
    assert!(SigningKeyPair::new(3, access.clone(), access.clone()).is_none());
    assert!(SigningKeyPair::new(3, "a".repeat(85), refresh.clone()).is_none());
    assert!(SigningKeyPair::new(3, KEY_A.to_string(), refresh.clone()).is_none());
    assert!(SigningKeyPair::new(3, access.clone(), "b".repeat(87)).is_none());
}

#[test]
fn provisioned_keys_are_random_and_distinct() {
    let pair = provision_keys(11).unwrap();
    assert_eq!(pair.user_id, 11);
    assert_eq!(pair.access_secret.len(), 86);
    assert_eq!(pair.refresh_secret.len(), 86);
    assert_ne!(pair.access_secret, pair.refresh_secret);
    assert!(pair.access_secret.chars().all(|c| c.is_ascii_alphanumeric()));
    assert!(pair.refresh_secret.chars().all(|c| c.is_ascii_alphanumeric()));
    let again = provision_keys(11).unwrap();
    assert_eq!(again.user_id, 11);
    assert_ne!(pair.access_secret, again.access_secret);
    assert_ne!(pair.refresh_secret, again.refresh_secret);
}

#[test]
fn token_errors_have_their_messages() {
    assert_eq!(ExpiredAccessTokenError.message(), "Access token has expired!");
    assert_eq!(ExpiredRefreshTokenError.message(), "Refresh token has expired");
    assert_eq!(
        TokenValidationNotSuccessfull.message(),
        "Validation of the access token was not successfull!"
    );
}

#[test]
fn keys_that_differ_in_zero_padding_sign_alike() {
    // HMAC pads a short key with zero bytes, so these two keys are one key
    let token = create_access_token_at(&alice(), "k", 1000).unwrap();
    assert_eq!(token, create_access_token_at(&alice(), "k\u{0}", 1000).unwrap());
    assert!(validate_token_at(&token, "k\u{0}", 1000).is_ok());
    assert_eq!(validate_token_at(&token, "K", 1000).unwrap_err(), TokenError::SignatureInvalid);
}

#[test]
fn signature_byte_changed_into_a_dot_is_invalid() {
    let token = create_access_token_at(&alice(), KEY_A, 1000).unwrap();
    let cut = token.rfind('.').unwrap() + 1;
    for at in [cut, cut + 20, token.len() - 1] {
        let mut bytes = token.as_bytes().to_vec();
        bytes[at] = b'.';
        let forged = String::from_utf8(bytes).unwrap();
        assert_eq!(
            validate_token_at(&forged, KEY_A, 1000).unwrap_err(),
            TokenError::SignatureInvalid
        );
    }
    let refresh = create_refresh_token_at(&alice(), "s", KEY_B, 1000).unwrap();
    let mut bytes = refresh.as_bytes().to_vec();
    let last = bytes.len() - 1;
    bytes[last] = b'.';
    assert_eq!(
        validate_refresh_token_at(&String::from_utf8(bytes).unwrap(), KEY_B, 1000),
        Err(TokenError::SignatureInvalid)
    );
    assert_eq!(
        validate_token_at(&format!("{}.", token), KEY_A, 1000).unwrap_err(),
        TokenError::SignatureInvalid
    );
}

#[test]
fn every_signature_byte_is_guarded() {
    let token = create_access_token_at(&alice(), KEY_A, 1000).unwrap();
    let cut = token.rfind('.').unwrap() + 1;
    for at in cut..token.len() {
        let mut bytes = token.as_bytes().to_vec();
        bytes[at] = if bytes[at] == b'x' { b'y' } else { b'x' };
        let forged = String::from_utf8(bytes).unwrap();
        assert_eq!(
            validate_token_at(&forged, KEY_A, 1000).unwrap_err(),
            TokenError::SignatureInvalid
        );
    }
}

#[test]
fn claims_are_written_with_their_date() {
    let token = create_access_token_at(&alice(), KEY_A, 1000).unwrap();
    let claims = validate_token_at(&token, KEY_A, 1000).unwrap();
    assert_eq!(
        claims.to_text(),
        Some("Claims { username: alice, exp: 01:16:40 01-01-1970 }".to_string())
    );
    let later = create_access_token_at(&alice(), KEY_A, 1_700_000_000 - 3600).unwrap();
    assert_eq!(
        validate_token_at(&later, KEY_A, 0).unwrap().to_text(),
        Some("Claims { username: alice, exp: 22:13:20 14-11-2023 }".to_string())
    );
    let edge = create_access_token_at(&alice(), KEY_A, i64::MAX - 3600).unwrap();
    assert_eq!(validate_token_at(&edge, KEY_A, 0).unwrap().to_text(), None);
}

#[test]
fn read_claims_of_a_refresh_token() {
    let token = create_refresh_token_at(&alice(), "sess-1", KEY_B, 1000).unwrap();
    let claims = read_refresh_claims(&token, KEY_B).unwrap();
    assert_eq!(
        (claims.session.as_str(), claims.sub.as_str(), claims.exp),
        ("sess-1", "alice", 87400)
    );
    assert!(read_refresh_claims(&token, KEY_A).is_none());
    assert!(read_refresh_claims(&tamper_last(&token), KEY_B).is_none());
    assert!(read_refresh_claims("", KEY_B).is_none());
}

#[test]
fn token_classes_are_apart_under_one_key_and_any_time() {
    let access = create_access_token_at(&alice(), KEY_A, 1000).unwrap();
    let refresh = create_refresh_token_at(&alice(), "sess-1", KEY_A, 1000).unwrap();
    for now in [i64::MIN, 0, 1000, 4600, 87400, i64::MAX] {
        assert_eq!(
            validate_refresh_token_at(&access, KEY_A, now),
            Err(TokenError::SignatureInvalid)
        );
        assert_eq!(
            validate_token_at(&refresh, KEY_A, now).unwrap_err(),
            TokenError::SignatureInvalid
        );
    }
    assert!(read_refresh_claims(&access, KEY_A).is_none());
}
