use passkey_core::errors::AuthError;
use passkey_core::service::{AuthService, UserRecord};

fn service() -> AuthService {
    AuthService::new("localhost", "http://localhost:8080").expect("relying party")
}

fn add_user(svc: &mut AuthService, email: &str) {
    svc.users.insert(
        email.to_string(),
        UserRecord {
            first_name: "Alice".to_string(),
            last_name: "Smith".to_string(),
            verified: false,
            credential: None,
        },
    );
}

#[test]
fn recover_unknown_email_issues_nothing() {
    let mut svc = service();
    assert!(svc.recover_account("ghost@example.com").is_none());
}

#[test]
fn token_consume_is_idempotent_once() {
    let mut svc = service();
    add_user(&mut svc, "alice@example.com");
    let token = svc.recover_account("alice@example.com").expect("token for known account");
    assert_eq!(svc.reset_account(token).expect("first consume"), "alice@example.com");
    assert_eq!(svc.reset_account(token), Err(AuthError::TokenNotFound));
    assert_eq!(svc.reset_account(token), Err(AuthError::TokenNotFound));
}

#[test]
fn validate_marks_verified_then_rejects_reuse() {
    let mut svc = service();
    add_user(&mut svc, "alice@example.com");
    let token = svc.recover_account("alice@example.com").expect("token");
    assert_eq!(svc.validate_account(token).expect("first consume"), "alice@example.com");
    assert!(svc.users.get(&"alice@example.com".to_string()).expect("record").verified);
    assert_eq!(svc.validate_account(token), Err(AuthError::TokenNotFound));
}

#[test]
fn validate_unknown_token_is_refused() {
    let mut svc = service();
    assert_eq!(svc.validate_account(123456789), Err(AuthError::TokenNotFound));
}

#[test]
fn validate_token_of_missing_account_still_consumes_it() {
    let mut svc = service();
    add_user(&mut svc, "alice@example.com");
    let token = svc.recover_account("alice@example.com").expect("token");
    svc.users.remove_key(&"alice@example.com".to_string());
    assert_eq!(svc.validate_account(token), Err(AuthError::Store));
    assert_eq!(svc.validate_account(token), Err(AuthError::TokenNotFound));
}

#[test]
fn distinct_tokens_resolve_independently() {
    let mut svc = service();
    add_user(&mut svc, "alice@example.com");
    add_user(&mut svc, "bob@example.com");
    let t_alice = svc.recover_account("alice@example.com").expect("token");
    let t_bob = svc.recover_account("bob@example.com").expect("token");
    assert_ne!(t_alice, t_bob);
    assert_eq!(svc.reset_account(t_bob).expect("bob"), "bob@example.com");
    assert_eq!(svc.reset_account(t_alice).expect("alice"), "alice@example.com");
}
