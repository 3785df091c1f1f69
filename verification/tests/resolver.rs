//! Tests of the identity resolver: header handling, scheme stripping, and
//! the rejection of every unusable token.

use hmac::Mac;
use jwt::SignWithKey;
use std::collections::BTreeMap;
use todo_auth::{sign, AuthError, Claims, JwtVerifier};

fn secret() -> Vec<u8> {
    b"resolver-test-secret".to_vec()
}

fn signed_token() -> String {
    let claims = Claims {
        id: String::from("a1b2c3d4-e5f6-4789-8abc-def012345678"),
        name: String::from("Ana"),
        email: String::from("a@x.com"),
    };
    sign(&claims, &secret()).unwrap()
}

#[test]
fn missing_header_yields_no_identity() {
    let verifier = JwtVerifier::new(secret());
    assert_eq!(
        verifier.resolve(None).unwrap_err(),
        AuthError::Unauthorized
    );
    // An endpoint that tolerates anonymous callers is left without an
    // identity, not rejected.
    assert!(verifier.resolve_context(None).unwrap().is_none());
}

#[test]
fn unverifiable_header_is_rejected_not_anonymous() {
    let verifier = JwtVerifier::new(secret());
    let header = String::from("Bearer not.a.token");
    assert_eq!(
        verifier.resolve(Some(&header)).unwrap_err(),
        AuthError::Unauthorized
    );
    // Even where anonymous callers are tolerated, a bad token is an error,
    // never silently ignored.
    assert_eq!(
        verifier.resolve_context(Some(&header)).unwrap_err(),
        AuthError::Unauthorized
    );
}

#[test]
fn bearer_scheme_is_stripped() {
    let verifier = JwtVerifier::new(secret());
    let header = format!("Bearer {}", signed_token());
    let identity = verifier.resolve(Some(&header)).unwrap();
    assert_eq!(identity.id, "a1b2c3d4-e5f6-4789-8abc-def012345678");
    assert_eq!(identity.name, "Ana");
    assert_eq!(identity.email, "a@x.com");
}

#[test]
fn raw_token_is_accepted() {
    let verifier = JwtVerifier::new(secret());
    let header = signed_token();
    let identity = verifier.resolve(Some(&header)).unwrap();
    assert_eq!(identity.email, "a@x.com");
}

#[test]
fn token_signed_with_other_secret_is_rejected() {
    let verifier = JwtVerifier::new(b"another-secret".to_vec());
    let header = signed_token();
    assert_eq!(
        verifier.resolve(Some(&header)).unwrap_err(),
        AuthError::Unauthorized
    );
}

#[test]
fn malformed_identifier_claim_is_rejected() {
    let secret = secret();
    let key: hmac::Hmac<sha2::Sha256> = hmac::Mac::new_from_slice(&secret).unwrap();
    let mut claims = BTreeMap::new();
    claims.insert("id", "not-an-identifier");
    claims.insert("name", "Ana");
    claims.insert("email", "a@x.com");
    let header = claims.sign_with_key(&key).unwrap();

    let verifier = JwtVerifier::new(secret);
    assert_eq!(
        verifier.resolve(Some(&header)).unwrap_err(),
        AuthError::Unauthorized
    );
}

#[test]
fn missing_claim_field_is_rejected() {
    let secret = secret();
    let key: hmac::Hmac<sha2::Sha256> = hmac::Mac::new_from_slice(&secret).unwrap();
    let mut claims = BTreeMap::new();
    claims.insert("id", "a1b2c3d4-e5f6-4789-8abc-def012345678");
    claims.insert("name", "Ana");
    let header = claims.sign_with_key(&key).unwrap();

    let verifier = JwtVerifier::new(secret);
    assert_eq!(
        verifier.resolve(Some(&header)).unwrap_err(),
        AuthError::Unauthorized
    );
}

#[test]
fn resolve_context_hands_back_the_identity() {
    let verifier = JwtVerifier::new(secret());
    let header = format!("Bearer {}", signed_token());
    let identity = verifier.resolve_context(Some(&header)).unwrap().unwrap();
    assert_eq!(identity.name, "Ana");
}
