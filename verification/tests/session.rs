//! Tests of registration and the session issuance flow: the uniform
//! rejection of bad credentials, the stored hash, and the issued token.

use todo_auth::{
    login, validate_login, validate_register, verify, AuthError, LoginForm, RegisterForm, User,
};

const NOW: i64 = 1_700_000_000;

fn secret() -> Vec<u8> {
    b"session-test-secret".to_vec()
}

fn register_ana() -> User {
    let form = RegisterForm {
        name: Some(String::from("Ana")),
        email: Some(String::from("a@x.com")),
        password: Some(String::from("longenough1")),
    };
    User::create(form, NOW).unwrap()
}

#[test]
fn register_stores_a_hash_not_the_password() {
    let user = register_ana();
    assert_eq!(user.name, "Ana");
    assert_eq!(user.email, "a@x.com");
    assert_ne!(user.password, "longenough1");
    assert_eq!(user.password.len(), 60);
    assert_eq!(user.created_at, NOW);
    assert!(user.updated_at.is_none());
}

#[test]
fn register_then_login_then_verify_claims() {
    let user = register_ana();
    let secret = secret();
    let token = login(Some(&user), &String::from("longenough1"), &secret).unwrap();
    let claims = verify(&token, &secret).unwrap();
    assert_eq!(claims.email, "a@x.com");
    assert_eq!(claims.name, "Ana");
    assert_eq!(claims.id, user.id);
}

#[test]
fn wrong_password_yields_invalid_credentials_and_no_token() {
    let user = register_ana();
    let outcome = login(Some(&user), &String::from("wrongpassword"), &secret());
    assert_eq!(outcome.unwrap_err(), AuthError::InvalidCredentials);
}

#[test]
fn unknown_identifier_and_wrong_password_are_indistinguishable() {
    let user = register_ana();
    let unknown = login(None, &String::from("longenough1"), &secret());
    let mismatch = login(Some(&user), &String::from("longenough2"), &secret());
    assert_eq!(unknown.unwrap_err(), AuthError::InvalidCredentials);
    assert_eq!(mismatch.unwrap_err(), AuthError::InvalidCredentials);
}

#[test]
fn verify_password_accepts_only_the_right_password() {
    let user = register_ana();
    assert!(user.verify_password("longenough1").unwrap());
    assert!(!user.verify_password("longenough2").unwrap());
}

#[test]
fn unparsable_stored_hash_is_a_server_fault() {
    let mut user = register_ana();
    user.password = String::from("not-a-bcrypt-hash");
    assert_eq!(
        user.verify_password("longenough1").unwrap_err(),
        AuthError::InternalError
    );
    assert_eq!(
        login(Some(&user), &String::from("longenough1"), &secret()).unwrap_err(),
        AuthError::InternalError
    );
}

#[test]
fn login_form_validation() {
    let good = LoginForm {
        email: Some(String::from("a@x.com")),
        password: Some(String::from("longenough1")),
    };
    assert!(validate_login(&good).is_ok());

    let missing_email = LoginForm { email: None, password: Some(String::from("longenough1")) };
    let bad_email = LoginForm {
        email: Some(String::from("not-an-email")),
        password: Some(String::from("longenough1")),
    };
    let short_password = LoginForm {
        email: Some(String::from("a@x.com")),
        password: Some(String::from("short")),
    };
    let missing_password = LoginForm { email: Some(String::from("a@x.com")), password: None };
    for form in [missing_email, bad_email, short_password, missing_password] {
        assert_eq!(validate_login(&form).unwrap_err(), AuthError::ValidationError);
    }
}

#[test]
fn register_form_validation() {
    let good = RegisterForm {
        name: Some(String::from("Ana")),
        email: Some(String::from("a@x.com")),
        password: Some(String::from("longenough1")),
    };
    assert!(validate_register(&good).is_ok());

    let missing_name = RegisterForm {
        name: None,
        email: Some(String::from("a@x.com")),
        password: Some(String::from("longenough1")),
    };
    assert_eq!(
        validate_register(&missing_name).unwrap_err(),
        AuthError::ValidationError
    );
    assert_eq!(
        User::create(missing_name, NOW).unwrap_err(),
        AuthError::ValidationError
    );

    let edge_emails = [
        ("@x.com", false),
        ("a@", false),
        ("a@b", true),
        ("ab", false),
        ("a@@", true),
    ];
    for (email, ok) in edge_emails {
        let form = RegisterForm {
            name: Some(String::from("Ana")),
            email: Some(String::from(email)),
            password: Some(String::from("longenough1")),
        };
        assert_eq!(validate_register(&form).is_ok(), ok, "email {:?}", email);
    }
}

#[test]
fn register_assigns_fresh_wellformed_identifiers() {
    let u1 = register_ana();
    let u2 = register_ana();
    assert!(todo_auth::check_id_shape(&u1.id));
    assert!(todo_auth::check_id_shape(&u2.id));
    assert_ne!(u1.id, u2.id);
}
