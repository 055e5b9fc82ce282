use auth_backend::auth::{
    check_credentials, check_registration, is_strong_password, is_valid_email, login, login_at,
    login_handler, login_response, record_registration, register, register_handler,
    register_response, sign_claims,
    signing_outcome, AuthError, TOKEN_LIFETIME_SECS,
};
use auth_backend::model::{ApiResponse, Claims};
use auth_backend::store::CredentialStore;
use auth_backend::LoginRequest;

fn s(text: &str) -> String {
    text.to_string()
}

#[test]
fn first_registration_succeeds_second_conflicts() {
    let mut store = CredentialStore::new();
    assert_eq!(register(&mut store, &s("user@example.com"), &s("secret1")), Ok(()));
    let stored = store.get(&s("user@example.com")).unwrap();
    let again = register(&mut store, &s("user@example.com"), &s("secret1"));
    assert_eq!(again, Err(AuthError::DuplicateAccount));
    assert_eq!(store.get(&s("user@example.com")), Some(stored));
    let (status, body) = register_response(&again);
    assert_eq!(status, 409);
    assert!(matches!(body, ApiResponse::Error(_)));
}

#[test]
fn stored_hash_is_not_the_password() {
    let mut store = CredentialStore::new();
    assert_eq!(register(&mut store, &s("x@y.z"), &s("secret1")), Ok(()));
    let stored = store.get(&s("x@y.z")).unwrap();
    assert_ne!(stored, "secret1");
    assert!(stored.starts_with("$2b$12$"));
    assert_eq!(stored.chars().count(), 60);
}

#[test]
fn hashed_password_verifies_only_for_itself() {
    let mut store = CredentialStore::new();
    assert_eq!(register(&mut store, &s("a@b.com"), &s("secret1")), Ok(()));
    assert_eq!(check_credentials(&store, &s("a@b.com"), &s("secret1")), Ok(()));
    assert_eq!(
        check_credentials(&store, &s("a@b.com"), &s("secret2")),
        Err(AuthError::AuthenticationFailed)
    );
}

#[test]
fn email_without_at_is_rejected() {
    let mut store = CredentialStore::new();
    let r = register(&mut store, &s("bademail"), &s("secret1"));
    assert_eq!(r, Err(AuthError::InvalidEmail));
    assert!(!store.contains(&s("bademail")));
    assert_eq!(register_response(&r).0, 400);
}

#[test]
fn empty_email_is_rejected_before_password() {
    let store = CredentialStore::new();
    assert_eq!(check_registration(&store, &s(""), &s("ab")), Err(AuthError::InvalidEmail));
}

#[test]
fn short_password_is_rejected() {
    let mut store = CredentialStore::new();
    let r = register(&mut store, &s("a@b.com"), &s("ab12"));
    assert_eq!(r, Err(AuthError::WeakPassword));
    assert!(!store.contains(&s("a@b.com")));
    assert_eq!(register_response(&r).0, 400);
}

#[test]
fn password_length_counts_characters() {
    assert!(is_strong_password(&s("abcdef")));
    assert!(!is_strong_password(&s("abcde")));
    assert!(is_strong_password(&s("ñññççç")));
    assert!(!is_strong_password(&s("ñññ")));
    assert!(!is_strong_password(&s("")));
}

#[test]
fn email_form_rules() {
    assert!(is_valid_email(&s("@")));
    assert!(is_valid_email(&s("a@b.com")));
    assert!(!is_valid_email(&s("")));
    assert!(!is_valid_email(&s("bademail")));
}

#[test]
fn unknown_email_gets_generic_401() {
    let store = CredentialStore::new();
    let r = login(&store, &s("nobody@b.com"), &s("secret1"), &s("key"));
    assert_eq!(r, Err(AuthError::AuthenticationFailed));
    let (status, body) = login_response(r);
    assert_eq!(status, 401);
    match body {
        ApiResponse::Error(e) => assert_eq!(e.error, AuthError::AuthenticationFailed.message()),
        ApiResponse::Success(_) => panic!("expected an error body"),
    }
}

#[test]
fn end_to_end_register_then_login() {
    let mut store = CredentialStore::new();
    let (status, _) = register_response(&register(&mut store, &s("a@b.com"), &s("secret1")));
    assert_eq!(status, 201);
    let ok = login(&store, &s("a@b.com"), &s("secret1"), &s("key"));
    let (status, body) = login_response(ok);
    assert_eq!(status, 200);
    match body {
        ApiResponse::Success(b) => assert!(!b.token.is_empty()),
        ApiResponse::Error(_) => panic!("expected a token"),
    }
    let bad = login(&store, &s("a@b.com"), &s("wrong!!"), &s("key"));
    assert_eq!(bad, Err(AuthError::AuthenticationFailed));
    assert_eq!(login_response(bad).0, 401);
}

#[test]
fn claims_expire_one_hour_after_issue() {
    let c = Claims::issue(&s("a@b.com"), 1_700_000_000);
    assert_eq!(c.sub, "a@b.com");
    assert_eq!(c.exp, 1_700_003_600);
    assert_eq!(TOKEN_LIFETIME_SECS, 3600);
}

#[test]
fn signed_token_has_three_parts() {
    let c = Claims::issue(&s("a@b.com"), 0);
    let t = sign_claims(&c, &s("key")).unwrap();
    assert_eq!(t.split('.').count(), 3);
    assert_ne!(t, "a@b.com");
    let again = sign_claims(&c, &s("key")).unwrap();
    assert_eq!(t, again);
    let other = sign_claims(&c, &s("other key")).unwrap();
    assert_ne!(t, other);
}

#[test]
fn expiry_overflow_is_a_signing_failure() {
    let mut store = CredentialStore::new();
    store.insert(s("a@b.com"), bcrypt::hash("secret1", 4).unwrap());
    let r = login_at(&store, &s("a@b.com"), &s("secret1"), i64::MAX, &s("key"));
    assert_eq!(r, Err(AuthError::TokenSigningFailed));
    assert_eq!(login_response(r).0, 500);
    let ok = login_at(&store, &s("a@b.com"), &s("secret1"), 100, &s("key"));
    let expected = sign_claims(&Claims::issue(&s("a@b.com"), 100), &s("key"));
    assert_eq!(ok, expected);
}

#[test]
fn hashing_failure_leaves_store_untouched() {
    let mut store = CredentialStore::new();
    let failed = record_registration(&mut store, &s("a@b.com"), Err(bcrypt::BcryptError::CostNotAllowed(1)));
    assert_eq!(failed, Err(AuthError::HashingFailed));
    assert!(!store.contains(&s("a@b.com")));
    assert_eq!(register_response(&failed).0, 500);
    assert_eq!(record_registration(&mut store, &s("a@b.com"), Ok(s("h"))), Ok(()));
    assert_eq!(store.get(&s("a@b.com")), Some(s("h")));
}

#[test]
fn signing_error_maps_to_500() {
    let err = jsonwebtoken::errors::Error::from(jsonwebtoken::errors::ErrorKind::InvalidKeyFormat);
    let r = signing_outcome(Err(err));
    assert_eq!(r, Err(AuthError::TokenSigningFailed));
    assert_eq!(signing_outcome(Ok(s("t"))), Ok(s("t")));
}

#[test]
fn error_statuses_and_messages() {
    assert_eq!(AuthError::InvalidEmail.status(), 400);
    assert_eq!(AuthError::WeakPassword.status(), 400);
    assert_eq!(AuthError::DuplicateAccount.status(), 409);
    assert_eq!(AuthError::HashingFailed.status(), 500);
    assert_eq!(AuthError::AuthenticationFailed.status(), 401);
    assert_eq!(AuthError::TokenSigningFailed.status(), 500);
    assert_eq!(AuthError::DuplicateAccount.message(), "El usuario ya existe");
    assert_eq!(AuthError::AuthenticationFailed.message(), "Credenciales inválidas");
    let (status, body) = register_response(&Ok(()));
    assert_eq!(status, 201);
    match body {
        ApiResponse::Success(b) => assert_eq!(b.token, "Usuario registrado exitosamente"),
        ApiResponse::Error(_) => panic!("expected a confirmation"),
    }
}

#[test]
fn store_insert_replaces_and_keeps_others() {
    let mut store = CredentialStore::new();
    store.insert(s("a"), s("1"));
    store.insert(s("b"), s("2"));
    store.insert(s("a"), s("3"));
    assert_eq!(store.get(&s("a")), Some(s("3")));
    assert_eq!(store.get(&s("b")), Some(s("2")));
    assert_eq!(store.get(&s("c")), None);
    assert!(store.contains(&s("b")));
}

fn request(email: &str, password: &str) -> LoginRequest {
    LoginRequest { email: s(email), password: s(password) }
}

#[test]
fn handlers_answer_with_status_and_body() {
    let mut store = CredentialStore::new();
    let (status, body) = register_handler(&mut store, &request("bademail", "secret1"));
    assert_eq!(status, 400);
    match body {
        ApiResponse::Error(e) => assert_eq!(e.error, "El correo electrónico no es válido"),
        ApiResponse::Success(_) => panic!("expected an error body"),
    }
    let (status, _) = register_handler(&mut store, &request("a@b.com", "ab12"));
    assert_eq!(status, 400);
    assert!(!store.contains(&s("a@b.com")));
    let (status, _) = register_handler(&mut store, &request("a@b.com", "secret1"));
    assert_eq!(status, 201);
    let (status, body) = login_handler(&store, &request("a@b.com", "secret1"), &s("key"));
    assert_eq!(status, 200);
    assert!(matches!(body, ApiResponse::Success(b) if !b.token.is_empty()));
    let (status, _) = login_handler(&store, &request("c@d.com", "secret1"), &s("key"));
    assert_eq!(status, 401);
}

#[test]
fn emails_are_not_normalized() {
    let mut store = CredentialStore::new();
    store.insert(s("a@b.com"), s("h"));
    assert!(!store.contains(&s("A@b.com")));
    assert_eq!(check_registration(&store, &s("A@b.com"), &s("secret1")), Ok(()));
}
