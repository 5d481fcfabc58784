use passkey_core::errors::AuthError;
use passkey_core::validate::{is_valid_display_name, is_valid_email};

#[test]
fn display_name_accepts_plain_names() {
    assert!(is_valid_display_name("Alice"));
    assert!(is_valid_display_name("Jean-Pierre O'Neil"));
    assert!(is_valid_display_name("Anna Maria"));
}

#[test]
fn display_name_accepts_latin_letters() {
    assert!(is_valid_display_name("Éloïse"));
    assert!(is_valid_display_name("Åsa Öberg"));
    assert!(is_valid_display_name("Müller"));
}

#[test]
fn display_name_length_bounds() {
    assert!(!is_valid_display_name(""));
    assert!(!is_valid_display_name("A"));
    assert!(is_valid_display_name("Al"));
    assert!(is_valid_display_name(&"a".repeat(50)));
    assert!(!is_valid_display_name(&"a".repeat(51)));
}

#[test]
fn display_name_rejects_other_characters() {
    assert!(!is_valid_display_name("Alice3"));
    assert!(!is_valid_display_name("alice@example.com"));
    assert!(!is_valid_display_name("Bob_Smith"));
    assert!(!is_valid_display_name("x\u{00D7}y"));
}

#[test]
fn email_validation() {
    assert!(is_valid_email("alice@example.com"));
    assert!(is_valid_email("a.b-c@sub.example.org"));
    assert!(!is_valid_email(""));
    assert!(!is_valid_email("not-an-email"));
    assert!(!is_valid_email("a@"));
    assert!(!is_valid_email("@example.com"));
}

#[test]
fn error_descriptions_are_nonempty() {
    let errors = [
        AuthError::InvalidEmail,
        AuthError::InvalidName,
        AuthError::InvalidResponse,
        AuthError::RegistrationRefused,
        AuthError::NoCredential,
        AuthError::CeremonyState,
        AuthError::Verification,
        AuthError::CeremonyUnavailable,
        AuthError::TokenNotFound,
        AuthError::Store,
    ];
    for e in errors {
        assert!(!e.describe().is_empty());
    }
}

#[test]
fn register_page_contextual_messages() {
    let ctx = passkey_core::pages::register_page(Some("true"), None);
    assert_eq!(
        ctx.success_message,
        Some("Account recovery successful. Please reset your passkey.")
    );
    assert!(ctx.error_message.is_none());
    let ctx = passkey_core::pages::register_page(Some("false"), Some("recovery_failed"));
    assert!(ctx.success_message.is_none());
    assert_eq!(
        ctx.error_message,
        Some("Invalid or expired recovery link. Please try again.")
    );
    let ctx = passkey_core::pages::register_page(None, Some("unknown"));
    assert!(ctx.success_message.is_none());
    assert!(ctx.error_message.is_none());
}
