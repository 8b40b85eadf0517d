use rbac_auth::token::{issue, validate, TokenError};

const SECRET: &str = "a-signing-secret-of-sufficient-length";
const OTHER_SECRET: &str = "b-signing-secret-of-sufficient-length";
const SUB: &str = "f47ac10b-58cc-4372-a567-0e02b2c3d479";

#[test]
fn issued_token_validates_immediately() {
    let now: u64 = 1_700_000_000;
    let token = issue(SUB, 3600, SECRET, now);
    let claims = validate(&token, SECRET, now).unwrap();
    assert_eq!(claims.sub, SUB);
    assert_eq!(claims.exp, now + 3600);
}

#[test]
fn issued_token_validates_until_the_deadline() {
    let now: u64 = 1_700_000_000;
    let token = issue(SUB, 60, SECRET, now);
    assert!(validate(&token, SECRET, now + 59).is_ok());
    assert_eq!(validate(&token, SECRET, now + 60), Err(TokenError::Expired));
    assert_eq!(validate(&token, SECRET, now + 61), Err(TokenError::Expired));
}

#[test]
fn wrong_secret_is_rejected() {
    let now: u64 = 1_700_000_000;
    let token = issue(SUB, 3600, SECRET, now);
    assert_eq!(validate(&token, OTHER_SECRET, now), Err(TokenError::Invalid));
}

#[test]
fn tampering_with_any_byte_is_rejected() {
    let now: u64 = 1_700_000_000;
    let token = issue(SUB, 3600, SECRET, now);
    for i in 0..token.len() {
        let mut bytes = token.clone().into_bytes();
        bytes[i] = if bytes[i] == b'A' { b'B' } else { b'A' };
        let tampered = String::from_utf8(bytes).unwrap();
        assert!(
            validate(&tampered, SECRET, now).is_err(),
            "tampered byte {} was accepted",
            i
        );
    }
}

#[test]
fn truncated_and_garbage_tokens_are_invalid() {
    let now: u64 = 1_700_000_000;
    let token = issue(SUB, 3600, SECRET, now);
    assert_eq!(validate(&token[..token.len() - 1], SECRET, now + 7200), Err(TokenError::Invalid));
    assert_eq!(validate("", SECRET, now), Err(TokenError::Invalid));
    assert_eq!(validate("not-a-token", SECRET, now), Err(TokenError::Invalid));
    assert_eq!(validate("a.b.c", SECRET, now), Err(TokenError::Invalid));
}
