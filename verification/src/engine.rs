//! The ceremony engine: produces and verifies the public-key ceremony
//! artifacts of registration and authentication. It wraps the cryptographic
//! ceremony library and persists nothing itself; the orchestration layer owns
//! every store.

use vstd::prelude::*;

use crate::errors::AuthError;

verus! {

#[verifier::external_type_specification]
#[verifier::external_body]
pub struct ExWebauthn(webauthn_rs::Webauthn);

#[verifier::external_type_specification]
#[verifier::external_body]
pub struct ExPasskeyRegistration(webauthn_rs::prelude::PasskeyRegistration);

#[verifier::external_type_specification]
#[verifier::external_body]
pub struct ExPasskeyAuthentication(webauthn_rs::prelude::PasskeyAuthentication);

#[verifier::external_type_specification]
#[verifier::external_body]
pub struct ExPasskey(webauthn_rs::prelude::Passkey);

#[verifier::external_type_specification]
#[verifier::external_body]
pub struct ExRegisterPublicKeyCredential(webauthn_rs::prelude::RegisterPublicKeyCredential);

#[verifier::external_type_specification]
#[verifier::external_body]
pub struct ExPublicKeyCredential(webauthn_rs::prelude::PublicKeyCredential);

#[verifier::external_type_specification]
#[verifier::external_body]
pub struct ExCreationChallengeResponse(webauthn_rs::prelude::CreationChallengeResponse);

#[verifier::external_type_specification]
#[verifier::external_body]
pub struct ExRequestChallengeResponse(webauthn_rs::prelude::RequestChallengeResponse);

#[verifier::external_type_specification]
#[verifier::external_body]
pub struct ExWebauthnError(webauthn_rs::prelude::WebauthnError);

#[verifier::external_type_specification]
#[verifier::external_body]
pub struct ExJsonError(serde_json::Error);

/// Relies on the derived Clone of webauthn_rs's Passkey: a clone equals the
/// credential it was cloned from.
pub assume_specification[ <webauthn_rs::prelude::Passkey as Clone>::clone ](
    p: &webauthn_rs::prelude::Passkey,
) -> (r: webauthn_rs::prelude::Passkey)
    ensures
        r == *p,
;

/// Whether a relying-party identifier and origin form a workable
/// configuration: the origin parses as a URL whose effective domain matches
/// the identifier. A function of the two strings alone.
pub uninterp spec fn rp_config_ok(rp_id: Seq<char>, rp_origin: Seq<char>) -> bool;

/// Builds the relying-party identity every ceremony is scoped to.
///
/// Relies on url::Url::parse and on webauthn_rs's WebauthnBuilder::new and
/// WebauthnBuilder::build: a configuration is returned exactly when the
/// origin is a well-formed URL whose effective domain matches the
/// relying-party identifier; each step depends on the two strings alone.
#[verifier::external_body]
pub fn new_relying_party(rp_id: &str, rp_origin: &str) -> (r: Option<webauthn_rs::Webauthn>)
    ensures
        r is Some <==> rp_config_ok(rp_id@, rp_origin@),
{
    let url = url::Url::parse(rp_origin).ok()?;
    let builder = webauthn_rs::WebauthnBuilder::new(rp_id, &url).ok()?;
    builder.build().ok()
}

/// Relies on webauthn_rs's Webauthn::start_passkey_registration: on success
/// it returns a fresh random challenge payload and the server-side state the
/// completing step must verify against; the challenge is drawn anew on every
/// call, so nothing is promised of the value. The only failure is an empty
/// user id, name or display name, and the 16-byte user id is never empty, so
/// non-empty names guarantee success.
#[verifier::external_body]
fn start_passkey_registration(
    rp: &webauthn_rs::Webauthn,
    user_id: u128,
    user_email: &str,
    user_display_name: &str,
) -> (r: Result<
    (webauthn_rs::prelude::CreationChallengeResponse, webauthn_rs::prelude::PasskeyRegistration),
    webauthn_rs::prelude::WebauthnError,
>)
    ensures
        user_email@.len() > 0 && user_display_name@.len() > 0 ==> r is Ok,
{
    rp.start_passkey_registration(
        uuid::Uuid::from_u128(user_id),
        user_email,
        user_display_name,
        None,
    )
}

/// Relies on webauthn_rs's Webauthn::finish_passkey_registration: it returns
/// a credential exactly when the signed attestation response is valid against
/// the state produced by the matching begin call under this relying party.
#[verifier::external_body]
fn finish_passkey_registration(
    rp: &webauthn_rs::Webauthn,
    response: &webauthn_rs::prelude::RegisterPublicKeyCredential,
    state: &webauthn_rs::prelude::PasskeyRegistration,
) -> (r: Result<webauthn_rs::prelude::Passkey, webauthn_rs::prelude::WebauthnError>) {
    rp.finish_passkey_registration(response, state)
}

/// Relies on webauthn_rs's Webauthn::start_passkey_authentication: it
/// returns a fresh random challenge payload listing the given credential as
/// acceptable, and the server-side state the completing step must verify
/// against. It fixes the verification policy itself, and with a policy given
/// the challenge construction has no failure path, so it always succeeds.
#[verifier::external_body]
fn start_passkey_authentication(
    rp: &webauthn_rs::Webauthn,
    credential: &webauthn_rs::prelude::Passkey,
) -> (r: Result<
    (webauthn_rs::prelude::RequestChallengeResponse, webauthn_rs::prelude::PasskeyAuthentication),
    webauthn_rs::prelude::WebauthnError,
>)
    ensures
        r is Ok,
{
    rp.start_passkey_authentication(core::slice::from_ref(credential))
}

/// Relies on webauthn_rs's Webauthn::finish_passkey_authentication: it
/// succeeds exactly when the signed assertion is valid against the stored
/// state, which binds the challenge issued at begin time; a response signed
/// over any other challenge is rejected.
#[verifier::external_body]
fn finish_passkey_authentication(
    rp: &webauthn_rs::Webauthn,
    response: &webauthn_rs::prelude::PublicKeyCredential,
    state: &webauthn_rs::prelude::PasskeyAuthentication,
) -> (r: Result<(), webauthn_rs::prelude::WebauthnError>) {
    rp.finish_passkey_authentication(response, state).map(|_| ())
}

/// Relies on serde_json::to_string: the client-facing challenge payload,
/// serialized. The payload is plain derived-serializable data, on which
/// serialization cannot fail.
#[verifier::external_body]
fn creation_options_json(
    ccr: &webauthn_rs::prelude::CreationChallengeResponse,
) -> (r: Option<String>)
    ensures
        r is Some,
{
    serde_json::to_string(&ccr.public_key).ok()
}

/// Relies on serde_json::to_string: the client-facing challenge payload,
/// serialized. The payload is plain derived-serializable data, on which
/// serialization cannot fail.
#[verifier::external_body]
fn request_options_json(
    rcr: &webauthn_rs::prelude::RequestChallengeResponse,
) -> (r: Option<String>)
    ensures
        r is Some,
{
    serde_json::to_string(&rcr.public_key).ok()
}

/// Relies on the AsRef impl of the challenge's base64 wrapper type: the raw
/// bytes of the server challenge inside a registration challenge payload.
#[verifier::external_body]
fn creation_challenge_bytes(
    ccr: &webauthn_rs::prelude::CreationChallengeResponse,
) -> (r: Vec<u8>) {
    ccr.public_key.challenge.as_ref().to_vec()
}

/// Relies on the AsRef impl of the challenge's base64 wrapper type: the raw
/// bytes of the server challenge inside an authentication challenge payload.
#[verifier::external_body]
fn request_challenge_bytes(rcr: &webauthn_rs::prelude::RequestChallengeResponse) -> (r: Vec<u8>) {
    rcr.public_key.challenge.as_ref().to_vec()
}

/// Whether a text is the JSON form of a structurally well-formed
/// registration response. A function of the text alone.
pub uninterp spec fn register_response_ok(text: Seq<char>) -> bool;

/// Relies on serde_json::from_str for RegisterPublicKeyCredential: a signed
/// attestation response parsed from its JSON form; parsing succeeds exactly
/// on structurally well-formed texts and depends on the text alone.
#[verifier::external_body]
pub fn parse_register_response(text: &str) -> (r: Result<
    webauthn_rs::prelude::RegisterPublicKeyCredential,
    serde_json::Error,
>)
    ensures
        r is Ok <==> register_response_ok(text@),
{
    serde_json::from_str(text)
}

/// Whether a text is the JSON form of a structurally well-formed
/// authentication response. A function of the text alone.
pub uninterp spec fn auth_response_ok(text: Seq<char>) -> bool;

/// Relies on serde_json::from_str for PublicKeyCredential: a signed
/// assertion response parsed from its JSON form; parsing succeeds exactly
/// on structurally well-formed texts and depends on the text alone.
#[verifier::external_body]
pub fn parse_auth_response(text: &str) -> (r: Result<
    webauthn_rs::prelude::PublicKeyCredential,
    serde_json::Error,
>)
    ensures
        r is Ok <==> auth_response_ok(text@),
{
    serde_json::from_str(text)
}

/// Starts a registration ceremony: asks the ceremony library for a challenge
/// scoped to the relying party and returns the client-facing payload, the raw
/// challenge bytes, and the opaque server-side state. The challenge is
/// random; with non-empty names a challenge is always issued.
pub fn begin_registration(
    rp: &webauthn_rs::Webauthn,
    user_id: u128,
    user_email: &str,
    user_display_name: &str,
) -> (r: Result<(String, Vec<u8>, webauthn_rs::prelude::PasskeyRegistration), AuthError>)
    ensures
        r matches Err(e) ==> e == AuthError::CeremonyUnavailable,
        user_email@.len() > 0 && user_display_name@.len() > 0 ==> r is Ok,
{
    match start_passkey_registration(rp, user_id, user_email, user_display_name) {
        Ok((ccr, state)) => {
            let payload = match creation_options_json(&ccr) {
                Some(p) => p,
                None => {
                    return Err(AuthError::CeremonyUnavailable);
                },
            };
            let challenge = creation_challenge_bytes(&ccr);
            Ok((payload, challenge, state))
        },
        Err(_) => Err(AuthError::CeremonyUnavailable),
    }
}

/// Completes a registration ceremony: verifies the signed attestation
/// response against the state of the matching begin call and returns the
/// verified credential. Persists nothing; the caller owns the stores.
pub fn complete_registration(
    rp: &webauthn_rs::Webauthn,
    response: &webauthn_rs::prelude::RegisterPublicKeyCredential,
    state: &webauthn_rs::prelude::PasskeyRegistration,
) -> (r: Result<webauthn_rs::prelude::Passkey, AuthError>)
    ensures
        r matches Err(e) ==> e == AuthError::Verification,
{
    match finish_passkey_registration(rp, response, state) {
        Ok(passkey) => Ok(passkey),
        Err(_) => Err(AuthError::Verification),
    }
}

/// Starts an authentication ceremony for one stored credential and returns
/// the client-facing payload, the raw challenge bytes, and the opaque
/// server-side state; a challenge is always issued.
pub fn begin_authentication(
    rp: &webauthn_rs::Webauthn,
    credential: &webauthn_rs::prelude::Passkey,
) -> (r: Result<(String, Vec<u8>, webauthn_rs::prelude::PasskeyAuthentication), AuthError>)
    ensures
        r is Ok,
{
    match start_passkey_authentication(rp, credential) {
        Ok((rcr, state)) => {
            let payload = match request_options_json(&rcr) {
                Some(p) => p,
                None => {
                    return Err(AuthError::CeremonyUnavailable);
                },
            };
            let challenge = request_challenge_bytes(&rcr);
            Ok((payload, challenge, state))
        },
        Err(_) => Err(AuthError::CeremonyUnavailable),
    }
}

/// Completes an authentication ceremony: verifies the signed assertion
/// against the stored state, which binds the challenge issued at begin time,
/// so a response over a substituted challenge is rejected. Persists nothing;
/// success is the caller's signal to establish a session.
pub fn complete_authentication(
    rp: &webauthn_rs::Webauthn,
    response: &webauthn_rs::prelude::PublicKeyCredential,
    state: &webauthn_rs::prelude::PasskeyAuthentication,
) -> (r: Result<(), AuthError>)
    ensures
        r matches Err(e) ==> e == AuthError::Verification,
{
    match finish_passkey_authentication(rp, response, state) {
        Ok(()) => Ok(()),
        Err(_) => Err(AuthError::Verification),
    }
}

} // verus!
