use passkey_core::errors::AuthError;
use passkey_core::service::{AuthService, UserRecord};
use webauthn_rs::prelude::Passkey;

fn service() -> AuthService {
    AuthService::new("localhost", "http://localhost:8080").expect("relying party")
}

fn add_user(svc: &mut AuthService, email: &str, credential: Option<Passkey>) {
    svc.users.insert(
        email.to_string(),
        UserRecord {
            first_name: "Alice".to_string(),
            last_name: "Smith".to_string(),
            verified: false,
            credential,
        },
    );
}

/// A syntactically well-formed stored credential. Its key material is
/// meaningless, so any signature verification against it fails, which is
/// exactly what the negative-path tests need.
fn fake_passkey() -> Passkey {
    let coord: Vec<u8> = (0u8..32u8).collect();
    let json = format!(
        r#"{{"cred":{{"cred_id":"c2FtcGxlLWNyZWQtaWQ","cred":{{"type_":"ES256","key":{{"EC_EC2":{{"curve":"SECP256R1","x":{:?},"y":{:?}}}}}}},"counter":0,"transports":null,"user_verified":false,"backup_eligible":false,"backup_state":false,"registration_policy":"required","extensions":{{}},"attestation":{{"data":"None","metadata":"None"}},"attestation_format":"none"}}}}"#,
        coord, coord
    );
    serde_json::from_str(&json).expect("fabricated passkey json")
}

/// A structurally valid registration response whose binary fields are
/// meaningless, so it parses but can never verify.
const FAKE_REGISTER_RESPONSE: &str = r#"{"id":"AAAA","rawId":"AAAA","response":{"attestationObject":"AAAA","clientDataJSON":"AAAA"},"type":"public-key"}"#;

/// A structurally valid authentication response of the same kind.
const FAKE_AUTH_RESPONSE: &str = r#"{"id":"AAAA","rawId":"AAAA","response":{"authenticatorData":"AAAA","clientDataJSON":"AAAA","signature":"AAAA","userHandle":null},"type":"public-key"}"#;

#[test]
fn register_begin_rejects_wrong_mode_combinations() {
    let mut svc = service();
    add_user(&mut svc, "alice@example.com", None);
    let refused = svc.register_begin("alice@example.com", false);
    assert_eq!(refused.err(), Some(AuthError::RegistrationRefused));
    let refused = svc.register_begin("ghost@example.com", true);
    assert_eq!(refused.err(), Some(AuthError::RegistrationRefused));
    let refused = svc.register_begin("not-an-email", false);
    assert_eq!(refused.err(), Some(AuthError::InvalidEmail));
    assert!(svc.registration_states.take(&0).is_none());
}

#[test]
fn register_begin_issues_state_and_payload() {
    let mut svc = service();
    let started = svc.register_begin("alice@example.com", false).expect("begin");
    assert!(started.payload.contains("challenge"));
    assert!(svc.registration_states.get(&started.state_id).is_some());
}

#[test]
fn register_complete_validates_names_first() {
    let mut svc = service();
    let started = svc.register_begin("alice@example.com", false).expect("begin");
    let r = svc.register_complete(started.state_id, "not json", "A", "Smith");
    assert_eq!(r.err(), Some(AuthError::InvalidName));
    let r = svc.register_complete(started.state_id, "not json", "Alice", "Smith4");
    assert_eq!(r.err(), Some(AuthError::InvalidName));
    // the state survived both rejected calls
    assert!(svc.registration_states.get(&started.state_id).is_some());
}

#[test]
fn registration_state_is_single_use() {
    let mut svc = service();
    let started = svc.register_begin("alice@example.com", false).expect("begin");
    // a malformed response consumes nothing
    let r = svc.register_complete(started.state_id, "not json", "Alice", "Smith");
    assert_eq!(r.err(), Some(AuthError::InvalidResponse));
    assert!(svc.registration_states.get(&started.state_id).is_some());
    // an unverifiable response consumes the state
    let r = svc.register_complete(started.state_id, FAKE_REGISTER_RESPONSE, "Alice", "Smith");
    assert_eq!(r.err(), Some(AuthError::Verification));
    assert!(svc.registration_states.get(&started.state_id).is_none());
    // the same identifier is now refused
    let r = svc.register_complete(started.state_id, FAKE_REGISTER_RESPONSE, "Alice", "Smith");
    assert_eq!(r.err(), Some(AuthError::CeremonyState));
}

#[test]
fn register_complete_unknown_state_is_refused() {
    let mut svc = service();
    let r = svc.register_complete(987654321, FAKE_REGISTER_RESPONSE, "Alice", "Smith");
    assert_eq!(r.err(), Some(AuthError::CeremonyState));
}

#[test]
fn login_begin_requires_credential() {
    let mut svc = service();
    add_user(&mut svc, "alice@example.com", None);
    assert_eq!(svc.login_begin("alice@example.com").err(), Some(AuthError::NoCredential));
    assert_eq!(svc.login_begin("ghost@example.com").err(), Some(AuthError::NoCredential));
    assert_eq!(svc.login_begin("bad").err(), Some(AuthError::InvalidEmail));
}

#[test]
fn login_begin_uses_stored_credential() {
    let mut svc = service();
    add_user(&mut svc, "alice@example.com", Some(fake_passkey()));
    let started = svc.login_begin("alice@example.com").expect("begin");
    assert!(started.payload.contains("challenge"));
    assert!(svc.authentication_states.get(&started.state_id).is_some());
}

#[test]
fn login_begin_prefers_cached_credential() {
    let mut svc = service();
    add_user(&mut svc, "alice@example.com", None);
    svc.credential_cache.insert("alice@example.com".to_string(), fake_passkey());
    svc.login_begin("alice@example.com").expect("credential from the cache");
}

#[test]
fn authentication_state_is_single_use() {
    let mut svc = service();
    add_user(&mut svc, "alice@example.com", Some(fake_passkey()));
    let started = svc.login_begin("alice@example.com").expect("begin");
    // a malformed response consumes nothing
    assert_eq!(svc.login_complete(started.state_id, "garbage").err(), Some(AuthError::InvalidResponse));
    assert!(svc.authentication_states.get(&started.state_id).is_some());
    // a response that was not signed over the issued challenge is rejected
    // and the state is consumed
    assert_eq!(
        svc.login_complete(started.state_id, FAKE_AUTH_RESPONSE).err(),
        Some(AuthError::Verification)
    );
    assert!(svc.authentication_states.get(&started.state_id).is_none());
    // the same identifier is now refused
    assert_eq!(
        svc.login_complete(started.state_id, FAKE_AUTH_RESPONSE).err(),
        Some(AuthError::CeremonyState)
    );
}

#[test]
fn login_complete_unknown_state_is_refused() {
    let mut svc = service();
    assert_eq!(svc.login_complete(13371337, FAKE_AUTH_RESPONSE).err(), Some(AuthError::CeremonyState));
}

#[test]
fn end_to_end_new_account_registration() {
    let mut svc = service();
    let started = svc.register_begin("alice@example.com", false).expect("begin");
    assert!(svc.registration_states.get(&started.state_id).is_some());
    // the ceremony engine's verification is what produces the credential;
    // apply its successful outcome as the completing step does
    let done = svc
        .apply_registration_success("alice@example.com", false, "Alice", "Smith", fake_passkey())
        .expect("apply");
    assert_eq!(done.email, "alice@example.com");
    let token = done.verification_token.expect("token issued for a new account");
    let record = svc.users.get(&"alice@example.com".to_string()).expect("created");
    assert!(!record.verified);
    assert_eq!(record.first_name, "Alice");
    assert_eq!(record.last_name, "Smith");
    assert!(record.credential.is_some());
    // the validation route marks the account verified, exactly once
    assert_eq!(svc.validate_account(token).expect("validate"), "alice@example.com");
    assert!(svc.users.get(&"alice@example.com".to_string()).expect("record").verified);
    assert_eq!(svc.validate_account(token), Err(AuthError::TokenNotFound));
}

#[test]
fn reset_replaces_credential_and_keeps_the_record() {
    let mut svc = service();
    add_user(&mut svc, "alice@example.com", Some(fake_passkey()));
    svc.users
        .get(&"alice@example.com".to_string())
        .expect("present");
    let done = svc
        .apply_registration_success("alice@example.com", true, "Ignored", "Names", fake_passkey())
        .expect("reset apply");
    assert!(done.verification_token.is_none());
    let record = svc.users.get(&"alice@example.com".to_string()).expect("record");
    assert_eq!(record.first_name, "Alice");
    assert_eq!(record.last_name, "Smith");
    assert!(record.credential.is_some());
}

#[test]
fn apply_refuses_mismatched_mode() {
    let mut svc = service();
    let r = svc.apply_registration_success("ghost@example.com", true, "Alice", "Smith", fake_passkey());
    assert_eq!(r.err(), Some(AuthError::Store));
    add_user(&mut svc, "alice@example.com", None);
    let r = svc.apply_registration_success("alice@example.com", false, "Alice", "Smith", fake_passkey());
    assert_eq!(r.err(), Some(AuthError::Store));
}

#[test]
fn recovery_token_leads_into_reset_mode() {
    let mut svc = service();
    add_user(&mut svc, "alice@example.com", Some(fake_passkey()));
    let token = svc.recover_account("alice@example.com").expect("token");
    let email = svc.reset_account(token).expect("consume");
    // the recovered email may now begin a reset-mode registration
    svc.register_begin(&email, true).expect("reset-mode begin");
}

#[test]
fn new_rejects_malformed_relying_party() {
    assert!(AuthService::new("localhost", "not a url").is_none());
    assert!(AuthService::new("elsewhere.example", "http://localhost:8080").is_none());
}
