//! Ceremony orchestration: the begin/complete entry points of the
//! registration and authentication ceremonies, the account and credential
//! store they read and update, the one-time ceremony state stores, and the
//! single-use token operations for account verification and recovery.

use vstd::prelude::*;

use crate::engine;
use crate::errors::AuthError;
use crate::fresh_id;
use crate::store::KeyedStore;
use crate::validate::{display_name_ok, email_ok, is_valid_display_name, is_valid_email};

verus! {

/// One account: display names, the verification flag, and at most one stored
/// credential.
pub struct UserRecord {
    pub first_name: String,
    pub last_name: String,
    pub verified: bool,
    pub credential: Option<webauthn_rs::prelude::Passkey>,
}

/// The one-time state bridging the begin and complete steps of a
/// registration ceremony: the ceremony library's internal state, the issued
/// challenge, the target account and the reset-versus-new-account mode.
pub struct StoredRegistrationState {
    pub registration_state: webauthn_rs::prelude::PasskeyRegistration,
    pub challenge: Vec<u8>,
    pub email: String,
    pub reset_mode: bool,
}

/// The one-time state bridging the begin and complete steps of an
/// authentication ceremony.
pub struct StoredAuthenticationState {
    pub authentication_state: webauthn_rs::prelude::PasskeyAuthentication,
    pub server_challenge: Vec<u8>,
}

/// What a begin step hands the client: the challenge payload to answer and
/// the opaque identifier under which the server keeps the ceremony state.
pub struct CeremonyStart {
    pub state_id: u128,
    pub payload: String,
}

/// What a completed registration hands back: the account it belongs to and,
/// for a new account, the single-use verification token to send by mail.
pub struct RegistrationDone {
    pub email: String,
    pub verification_token: Option<u128>,
}

/// The authentication core: the relying-party identity, the account store,
/// the in-memory credential cache bridging reset ceremonies, the two
/// one-time ceremony state stores, and the single-use tokens.
pub struct AuthService {
    pub rp: webauthn_rs::Webauthn,
    pub users: KeyedStore<String, UserRecord>,
    pub credential_cache: KeyedStore<String, webauthn_rs::prelude::Passkey>,
    pub registration_states: KeyedStore<u128, StoredRegistrationState>,
    pub authentication_states: KeyedStore<u128, StoredAuthenticationState>,
    pub tokens: KeyedStore<u128, String>,
}

impl AuthService {
    /// Every store is well-formed.
    pub open spec fn wf(self) -> bool {
        &&& self.users.wf()
        &&& self.credential_cache.wf()
        &&& self.registration_states.wf()
        &&& self.authentication_states.wf()
        &&& self.tokens.wf()
    }

    /// Whether an account can authenticate: a credential sits in the cache
    /// or on the stored account record.
    pub open spec fn has_credential(self, email: Seq<char>) -> bool {
        ||| self.credential_cache@.dom().contains(email)
        ||| (self.users@.dom().contains(email) && self.users@[email].credential is Some)
    }

    /// A fresh service scoped to the given relying-party identity and
    /// origin, with every store empty. None exactly when the relying-party
    /// configuration is malformed.
    pub fn new(rp_id: &str, rp_origin: &str) -> (r: Option<AuthService>)
        ensures
            r is Some <==> engine::rp_config_ok(rp_id@, rp_origin@),
            r matches Some(s) ==> s.wf() && s.users@ == Map::<Seq<char>, UserRecord>::empty()
                && s.credential_cache@ == Map::<
                Seq<char>,
                webauthn_rs::prelude::Passkey,
            >::empty() && s.registration_states@ == Map::<u128, StoredRegistrationState>::empty()
                && s.authentication_states@ == Map::<u128, StoredAuthenticationState>::empty()
                && s.tokens@ == Map::<u128, String>::empty(),
    {
        let rp = match engine::new_relying_party(rp_id, rp_origin) {
            Some(rp) => rp,
            None => {
                return None;
            },
        };
        Some(
            AuthService {
                rp,
                users: KeyedStore::new(),
                credential_cache: KeyedStore::new(),
                registration_states: KeyedStore::new(),
                authentication_states: KeyedStore::new(),
                tokens: KeyedStore::new(),
            },
        )
    }
}

/// No store changed between two service states.
pub open spec fn stores_unchanged(pre: AuthService, post: AuthService) -> bool {
    &&& post.users@ == pre.users@
    &&& post.credential_cache@ == pre.credential_cache@
    &&& post.registration_states@ == pre.registration_states@
    &&& post.authentication_states@ == pre.authentication_states@
    &&& post.tokens@ == pre.tokens@
}

/// Only the registration ceremony states changed.
pub open spec fn only_registration_states_changed(pre: AuthService, post: AuthService) -> bool {
    &&& post.users@ == pre.users@
    &&& post.credential_cache@ == pre.credential_cache@
    &&& post.authentication_states@ == pre.authentication_states@
    &&& post.tokens@ == pre.tokens@
}

/// Only the authentication ceremony states changed.
pub open spec fn only_authentication_states_changed(pre: AuthService, post: AuthService) -> bool {
    &&& post.users@ == pre.users@
    &&& post.credential_cache@ == pre.credential_cache@
    &&& post.registration_states@ == pre.registration_states@
    &&& post.tokens@ == pre.tokens@
}

/// The store updates of a successfully verified registration: the verified
/// credential is cached; on a new account a record is created, unverified,
/// under the given names and credential, and a verification token is issued
/// to that account; on a reset only the credential of the existing record is
/// replaced, and no token is issued. Ceremony state stores are not spoken of
/// here.
pub open spec fn registration_applied(
    pre: AuthService,
    post: AuthService,
    email: Seq<char>,
    reset_mode: bool,
    first: Seq<char>,
    last: Seq<char>,
    credential: webauthn_rs::prelude::Passkey,
    done: RegistrationDone,
) -> bool {
    &&& done.email@ == email
    &&& post.credential_cache@ == pre.credential_cache@.insert(email, credential)
    &&& post.users@.dom().contains(email)
    &&& post.users@ == pre.users@.insert(email, post.users@[email])
    &&& post.users@[email].credential == Some(credential)
    &&& if !reset_mode {
        &&& post.users@[email].first_name@ == first
        &&& post.users@[email].last_name@ == last
        &&& post.users@[email].verified == false
        &&& done.verification_token matches Some(t) && post.tokens@.dom().contains(t)
            && post.tokens@[t]@ == email && post.tokens@ == pre.tokens@.insert(
            t,
            post.tokens@[t],
        )
    } else {
        &&& post.users@[email].first_name == pre.users@[email].first_name
        &&& post.users@[email].last_name == pre.users@[email].last_name
        &&& post.users@[email].verified == pre.users@[email].verified
        &&& done.verification_token is None
        &&& post.tokens@ == pre.tokens@
    }
}

impl AuthService {
    /// Begins a registration ceremony. The email must be well-formed; a new
    /// account may be begun only for an unregistered email and a reset only
    /// for a registered one — any other combination is refused before any
    /// challenge or state is issued; every admissible request is granted a
    /// challenge. On success the ceremony state is stored under a fresh
    /// identifier, bound to the target email and mode, and any cached
    /// credential of that email is dropped.
    pub fn register_begin(&mut self, email: &str, reset_mode: bool) -> (r: Result<
        CeremonyStart,
        AuthError,
    >)
        requires
            old(self).wf(),
        ensures
            final(self).wf(),
            r == Err::<CeremonyStart, AuthError>(AuthError::InvalidEmail) <==> !email_ok(email@),
            email_ok(email@) ==> (r == Err::<CeremonyStart, AuthError>(
                AuthError::RegistrationRefused,
            ) <==> reset_mode != old(self).users@.dom().contains(email@)),
            r is Err ==> stores_unchanged(*old(self), *final(self)) && (r == Err::<
                CeremonyStart,
                AuthError,
            >(AuthError::InvalidEmail) || r == Err::<CeremonyStart, AuthError>(
                AuthError::RegistrationRefused,
            )),
            email_ok(email@) && reset_mode == old(self).users@.dom().contains(email@) ==> r is Ok,
            r matches Ok(started) ==> {
                &&& final(self).registration_states@.dom().contains(started.state_id)
                &&& final(self).registration_states@ == old(self).registration_states@.insert(
                    started.state_id,
                    final(self).registration_states@[started.state_id],
                )
                &&& final(self).registration_states@[started.state_id].email@ == email@
                &&& final(self).registration_states@[started.state_id].reset_mode == reset_mode
                &&& final(self).credential_cache@ == old(self).credential_cache@.remove(email@)
                &&& final(self).users@ == old(self).users@
                &&& final(self).authentication_states@ == old(self).authentication_states@
                &&& final(self).tokens@ == old(self).tokens@
            },
    {
        if !is_valid_email(email) {
            return Err(AuthError::InvalidEmail);
        }
        let email_key: String = email.to_owned();
        let registered = self.users.contains_key(&email_key);
        if reset_mode != registered {
            return Err(AuthError::RegistrationRefused);
        }
        let user_handle = fresh_id();
        match engine::begin_registration(&self.rp, user_handle, email, email) {
            Err(e) => Err(e),
            Ok((payload, challenge, registration_state)) => {
                let state_id = fresh_id();
                self.credential_cache.remove_key(&email_key);
                let stored = StoredRegistrationState {
                    registration_state,
                    challenge,
                    email: email_key,
                    reset_mode,
                };
                self.registration_states.insert(state_id, stored);
                Ok(CeremonyStart { state_id, payload })
            },
        }
    }

    /// Applies a successfully verified registration to the stores: the
    /// mode must still match the account's presence, exactly as the begin
    /// step demanded; then the credential is persisted and cached, the
    /// account created on a new registration, and a verification token
    /// issued to a new account.
    pub fn apply_registration_success(
        &mut self,
        email: &str,
        reset_mode: bool,
        first_name: &str,
        last_name: &str,
        credential: webauthn_rs::prelude::Passkey,
    ) -> (r: Result<RegistrationDone, AuthError>)
        requires
            old(self).wf(),
        ensures
            final(self).wf(),
            final(self).registration_states@ == old(self).registration_states@,
            final(self).authentication_states@ == old(self).authentication_states@,
            r is Err <==> reset_mode != old(self).users@.dom().contains(email@),
            r is Err ==> r == Err::<RegistrationDone, AuthError>(AuthError::Store)
                && stores_unchanged(*old(self), *final(self)),
            r matches Ok(done) ==> registration_applied(
                *old(self),
                *final(self),
                email@,
                reset_mode,
                first_name@,
                last_name@,
                credential,
                done,
            ),
    {
        let email_key: String = email.to_owned();
        let registered = self.users.contains_key(&email_key);
        if reset_mode != registered {
            return Err(AuthError::Store);
        }
        let cached = credential.clone();
        if !reset_mode {
            let record = UserRecord {
                first_name: first_name.to_owned(),
                last_name: last_name.to_owned(),
                verified: false,
                credential: Some(credential),
            };
            self.users.insert(email_key.clone(), record);
            self.credential_cache.insert(email_key.clone(), cached);
            let token = fresh_id();
            self.tokens.insert(token, email_key.clone());
            Ok(RegistrationDone { email: email_key, verification_token: Some(token) })
        } else {
            let (old_first, old_last, old_verified) = match self.users.get(&email_key) {
                Some(record) => (
                    record.first_name.clone(),
                    record.last_name.clone(),
                    record.verified,
                ),
                None => vstd::pervasive::unreached(),
            };
            let record = UserRecord {
                first_name: old_first,
                last_name: old_last,
                verified: old_verified,
                credential: Some(credential),
            };
            self.users.insert(email_key.clone(), record);
            self.credential_cache.insert(email_key.clone(), cached);
            Ok(RegistrationDone { email: email_key, verification_token: None })
        }
    }

    /// Completes a registration ceremony from an already parsed client
    /// response: validates the display names, consumes the one-time ceremony
    /// state — it is removed whatever follows, so a second completion with
    /// the same identifier is refused — re-checks the stored mode against
    /// the account's presence, verifies the response, and applies the result.
    pub fn register_complete_parsed(
        &mut self,
        state_id: u128,
        response: &webauthn_rs::prelude::RegisterPublicKeyCredential,
        first_name: &str,
        last_name: &str,
    ) -> (r: Result<RegistrationDone, AuthError>)
        requires
            old(self).wf(),
        ensures
            final(self).wf(),
            r == Err::<RegistrationDone, AuthError>(AuthError::InvalidName) <==> !(
            display_name_ok(first_name@) && display_name_ok(last_name@)),
            r == Err::<RegistrationDone, AuthError>(AuthError::InvalidName) ==> stores_unchanged(
                *old(self),
                *final(self),
            ),
            display_name_ok(first_name@) && display_name_ok(last_name@) ==> (r == Err::<
                RegistrationDone,
                AuthError,
            >(AuthError::CeremonyState) <==> !old(
                self,
            ).registration_states@.dom().contains(state_id)),
            r == Err::<RegistrationDone, AuthError>(AuthError::CeremonyState) ==> stores_unchanged(
                *old(self),
                *final(self),
            ),
            display_name_ok(first_name@) && display_name_ok(last_name@) && old(
                self,
            ).registration_states@.dom().contains(state_id) ==> {
                let stored = old(self).registration_states@[state_id];
                &&& final(self).registration_states@ == old(
                    self,
                ).registration_states@.remove(state_id)
                &&& (r == Err::<RegistrationDone, AuthError>(AuthError::Store) <==> stored.reset_mode
                    != old(self).users@.dom().contains(stored.email@))
                &&& (r == Err::<RegistrationDone, AuthError>(AuthError::Store) || r == Err::<
                    RegistrationDone,
                    AuthError,
                >(AuthError::Verification)) ==> only_registration_states_changed(
                    *old(self),
                    *final(self),
                )
                &&& r is Ok || r == Err::<RegistrationDone, AuthError>(AuthError::Store) || r
                    == Err::<RegistrationDone, AuthError>(AuthError::Verification)
                &&& r matches Ok(done) ==> exists|pk: webauthn_rs::prelude::Passkey|
                    registration_applied(
                        *old(self),
                        *final(self),
                        stored.email@,
                        stored.reset_mode,
                        first_name@,
                        last_name@,
                        pk,
                        done,
                    )
            },
    {
        if !(is_valid_display_name(first_name) && is_valid_display_name(last_name)) {
            return Err(AuthError::InvalidName);
        }
        let stored = match self.registration_states.take(&state_id) {
            None => {
                return Err(AuthError::CeremonyState);
            },
            Some(stored) => stored,
        };
        let registered = self.users.contains_key(&stored.email);
        if stored.reset_mode != registered {
            return Err(AuthError::Store);
        }
        match engine::complete_registration(&self.rp, response, &stored.registration_state) {
            Err(e) => Err(e),
            Ok(credential) => {
                let ghost witness = credential;
                let ghost mid = *self;
                let r = self.apply_registration_success(
                    stored.email.as_str(),
                    stored.reset_mode,
                    first_name,
                    last_name,
                    credential,
                );
                proof {
                    if r is Ok {
                        let done = r->Ok_0;
                        assert(registration_applied(
                            mid,
                            *self,
                            stored.email@,
                            stored.reset_mode,
                            first_name@,
                            last_name@,
                            witness,
                            done,
                        ));
                        assert(registration_applied(
                            *old(self),
                            *self,
                            stored.email@,
                            stored.reset_mode,
                            first_name@,
                            last_name@,
                            witness,
                            done,
                        ));
                    }
                }
                r
            },
        }
    }

    /// Completes a registration ceremony from the client's JSON response:
    /// the response is parsed first, so a malformed response changes
    /// nothing; the rest behaves as completing with the parsed response.
    pub fn register_complete(
        &mut self,
        state_id: u128,
        response_json: &str,
        first_name: &str,
        last_name: &str,
    ) -> (r: Result<RegistrationDone, AuthError>)
        requires
            old(self).wf(),
        ensures
            final(self).wf(),
            r == Err::<RegistrationDone, AuthError>(AuthError::InvalidName) <==> !(
            display_name_ok(first_name@) && display_name_ok(last_name@)),
            display_name_ok(first_name@) && display_name_ok(last_name@) ==> (r == Err::<
                RegistrationDone,
                AuthError,
            >(AuthError::InvalidResponse) <==> !engine::register_response_ok(response_json@)),
            r == Err::<RegistrationDone, AuthError>(AuthError::InvalidName) || r == Err::<
                RegistrationDone,
                AuthError,
            >(AuthError::InvalidResponse) || r == Err::<RegistrationDone, AuthError>(
                AuthError::CeremonyState,
            ) ==> stores_unchanged(*old(self), *final(self)),
            display_name_ok(first_name@) && display_name_ok(last_name@)
                && engine::register_response_ok(response_json@) ==> (r == Err::<
                RegistrationDone,
                AuthError,
            >(AuthError::CeremonyState) <==> !old(self).registration_states@.dom().contains(
                state_id,
            )),
            display_name_ok(first_name@) && display_name_ok(last_name@)
                && engine::register_response_ok(response_json@) && old(
                self,
            ).registration_states@.dom().contains(state_id) ==> {
                let stored = old(self).registration_states@[state_id];
                &&& final(self).registration_states@ == old(
                    self,
                ).registration_states@.remove(state_id)
                &&& (r == Err::<RegistrationDone, AuthError>(AuthError::Store) <==> stored.reset_mode
                    != old(self).users@.dom().contains(stored.email@))
                &&& (r == Err::<RegistrationDone, AuthError>(AuthError::Store) || r == Err::<
                    RegistrationDone,
                    AuthError,
                >(AuthError::Verification)) ==> only_registration_states_changed(
                    *old(self),
                    *final(self),
                )
                &&& r is Ok || r == Err::<RegistrationDone, AuthError>(AuthError::Store) || r
                    == Err::<RegistrationDone, AuthError>(AuthError::Verification)
                &&& r matches Ok(done) ==> exists|pk: webauthn_rs::prelude::Passkey|
                    registration_applied(
                        *old(self),
                        *final(self),
                        stored.email@,
                        stored.reset_mode,
                        first_name@,
                        last_name@,
                        pk,
                        done,
                    )
            },
    {
        if !(is_valid_display_name(first_name) && is_valid_display_name(last_name)) {
            return Err(AuthError::InvalidName);
        }
        let response = match engine::parse_register_response(response_json) {
            Err(_) => {
                return Err(AuthError::InvalidResponse);
            },
            Ok(response) => response,
        };
        self.register_complete_parsed(state_id, &response, first_name, last_name)
    }

    /// Begins an authentication ceremony. The email must be well-formed and
    /// must have a usable credential — in the cache bridging a just-reset
    /// ceremony, or on the stored account record — else nothing is issued;
    /// every request with a usable credential is granted a challenge. On
    /// success the ceremony state and its challenge are stored under a fresh
    /// identifier.
    pub fn login_begin(&mut self, email: &str) -> (r: Result<CeremonyStart, AuthError>)
        requires
            old(self).wf(),
        ensures
            final(self).wf(),
            r == Err::<CeremonyStart, AuthError>(AuthError::InvalidEmail) <==> !email_ok(email@),
            email_ok(email@) ==> (r == Err::<CeremonyStart, AuthError>(AuthError::NoCredential)
                <==> !old(self).has_credential(email@)),
            r is Err ==> stores_unchanged(*old(self), *final(self)) && (r == Err::<
                CeremonyStart,
                AuthError,
            >(AuthError::InvalidEmail) || r == Err::<CeremonyStart, AuthError>(
                AuthError::NoCredential,
            )),
            email_ok(email@) && old(self).has_credential(email@) ==> r is Ok,
            r matches Ok(started) ==> {
                &&& final(self).authentication_states@.dom().contains(started.state_id)
                &&& final(self).authentication_states@ == old(
                    self,
                ).authentication_states@.insert(
                    started.state_id,
                    final(self).authentication_states@[started.state_id],
                )
                &&& only_authentication_states_changed(*old(self), *final(self))
            },
    {
        if !is_valid_email(email) {
            return Err(AuthError::InvalidEmail);
        }
        let email_key: String = email.to_owned();
        let credential = match self.credential_cache.get(&email_key) {
            Some(cached) => Some(cached.clone()),
            None => match self.users.get(&email_key) {
                Some(record) => match &record.credential {
                    Some(stored) => Some(stored.clone()),
                    None => None,
                },
                None => None,
            },
        };
        let credential = match credential {
            Some(credential) => credential,
            None => {
                return Err(AuthError::NoCredential);
            },
        };
        match engine::begin_authentication(&self.rp, &credential) {
            Err(e) => Err(e),
            Ok((payload, challenge, authentication_state)) => {
                let state_id = fresh_id();
                let stored = StoredAuthenticationState {
                    authentication_state,
                    server_challenge: challenge,
                };
                self.authentication_states.insert(state_id, stored);
                Ok(CeremonyStart { state_id, payload })
            },
        }
    }

    /// Completes an authentication ceremony from an already parsed client
    /// response: consumes the one-time ceremony state — it is removed
    /// whatever the verification says, so a second completion with the same
    /// identifier is refused — and verifies the signed assertion against it.
    /// Success is the caller's signal to establish a session; nothing else
    /// changes.
    pub fn login_complete_parsed(
        &mut self,
        state_id: u128,
        response: &webauthn_rs::prelude::PublicKeyCredential,
    ) -> (r: Result<(), AuthError>)
        requires
            old(self).wf(),
        ensures
            final(self).wf(),
            r == Err::<(), AuthError>(AuthError::CeremonyState) <==> !old(
                self,
            ).authentication_states@.dom().contains(state_id),
            r == Err::<(), AuthError>(AuthError::CeremonyState) ==> stores_unchanged(
                *old(self),
                *final(self),
            ),
            old(self).authentication_states@.dom().contains(state_id) ==> {
                &&& final(self).authentication_states@ == old(
                    self,
                ).authentication_states@.remove(state_id)
                &&& only_authentication_states_changed(*old(self), *final(self))
                &&& (r is Ok || r == Err::<(), AuthError>(AuthError::Verification))
            },
    {
        let stored = match self.authentication_states.take(&state_id) {
            None => {
                return Err(AuthError::CeremonyState);
            },
            Some(stored) => stored,
        };
        engine::complete_authentication(&self.rp, response, &stored.authentication_state)
    }

    /// Completes an authentication ceremony from the client's JSON response:
    /// the response is parsed first, so a malformed response changes
    /// nothing; the rest behaves as completing with the parsed response.
    pub fn login_complete(&mut self, state_id: u128, response_json: &str) -> (r: Result<
        (),
        AuthError,
    >)
        requires
            old(self).wf(),
        ensures
            final(self).wf(),
            r == Err::<(), AuthError>(AuthError::InvalidResponse) <==> !engine::auth_response_ok(
                response_json@,
            ),
            r == Err::<(), AuthError>(AuthError::InvalidResponse) || r == Err::<(), AuthError>(
                AuthError::CeremonyState,
            ) ==> stores_unchanged(*old(self), *final(self)),
            engine::auth_response_ok(response_json@) ==> (r == Err::<(), AuthError>(
                AuthError::CeremonyState,
            ) <==> !old(self).authentication_states@.dom().contains(state_id)),
            engine::auth_response_ok(response_json@) && old(
                self,
            ).authentication_states@.dom().contains(state_id) ==> {
                &&& final(self).authentication_states@ == old(
                    self,
                ).authentication_states@.remove(state_id)
                &&& only_authentication_states_changed(*old(self), *final(self))
                &&& (r is Ok || r == Err::<(), AuthError>(AuthError::Verification))
            },
    {
        let response = match engine::parse_auth_response(response_json) {
            Err(_) => {
                return Err(AuthError::InvalidResponse);
            },
            Ok(response) => response,
        };
        self.login_complete_parsed(state_id, &response)
    }

    /// Consumes a verification token and marks its account verified. The
    /// token is resolved and removed atomically: a second call with the same
    /// token is refused, whether or not the account could be marked.
    pub fn validate_account(&mut self, token: u128) -> (r: Result<String, AuthError>)
        requires
            old(self).wf(),
        ensures
            final(self).wf(),
            r is Err ==> r == Err::<String, AuthError>(AuthError::TokenNotFound) || r == Err::<
                String,
                AuthError,
            >(AuthError::Store),
            r is Err ==> final(self).users@ == old(self).users@,
            r == Err::<String, AuthError>(AuthError::TokenNotFound) <==> !old(
                self,
            ).tokens@.dom().contains(token),
            r == Err::<String, AuthError>(AuthError::TokenNotFound) ==> stores_unchanged(
                *old(self),
                *final(self),
            ),
            old(self).tokens@.dom().contains(token) ==> {
                let email = old(self).tokens@[token]@;
                &&& final(self).tokens@ == old(self).tokens@.remove(token)
                &&& final(self).credential_cache@ == old(self).credential_cache@
                &&& final(self).registration_states@ == old(self).registration_states@
                &&& final(self).authentication_states@ == old(self).authentication_states@
                &&& (r == Err::<String, AuthError>(AuthError::Store) <==> !old(
                    self,
                ).users@.dom().contains(email))
                &&& r == Err::<String, AuthError>(AuthError::Store) ==> final(self).users@ == old(
                    self,
                ).users@
                &&& (r matches Ok(resolved) ==> {
                    &&& resolved@ == email
                    &&& final(self).users@ == old(self).users@.insert(
                        email,
                        final(self).users@[email],
                    )
                    &&& final(self).users@[email].verified == true
                    &&& final(self).users@[email].first_name == old(self).users@[email].first_name
                    &&& final(self).users@[email].last_name == old(self).users@[email].last_name
                    &&& final(self).users@[email].credential == old(self).users@[email].credential
                })
            },
    {
        let email = match self.tokens.take(&token) {
            None => {
                return Err(AuthError::TokenNotFound);
            },
            Some(email) => email,
        };
        let (first, last, credential) = match self.users.take(&email) {
            None => {
                return Err(AuthError::Store);
            },
            Some(record) => (record.first_name, record.last_name, record.credential),
        };
        let record = UserRecord { first_name: first, last_name: last, verified: true, credential };
        self.users.insert(email.clone(), record);
        proof {
            assert(final(self).users@ =~= old(self).users@.insert(
                email@,
                final(self).users@[email@],
            ));
        }
        Ok(email)
    }

    /// Issues a recovery token for a registered account. An unregistered
    /// email gets none, and nothing changes — the caller's answer must not
    /// reveal which of the two happened.
    pub fn recover_account(&mut self, email: &str) -> (r: Option<u128>)
        requires
            old(self).wf(),
        ensures
            final(self).wf(),
            r is Some <==> old(self).users@.dom().contains(email@),
            r is None ==> stores_unchanged(*old(self), *final(self)),
            r matches Some(token) ==> {
                &&& final(self).tokens@.dom().contains(token)
                &&& final(self).tokens@[token]@ == email@
                &&& final(self).tokens@ == old(self).tokens@.insert(
                    token,
                    final(self).tokens@[token],
                )
                &&& final(self).users@ == old(self).users@
                &&& final(self).credential_cache@ == old(self).credential_cache@
                &&& final(self).registration_states@ == old(self).registration_states@
                &&& final(self).authentication_states@ == old(self).authentication_states@
            },
    {
        let email_key: String = email.to_owned();
        if !self.users.contains_key(&email_key) {
            return None;
        }
        let token = fresh_id();
        self.tokens.insert(token, email_key);
        Some(token)
    }

    /// Consumes a recovery token and resolves it to its account, the signal
    /// to redirect the client into a reset-mode registration. The token is
    /// resolved and removed atomically: a second call with the same token is
    /// refused.
    pub fn reset_account(&mut self, token: u128) -> (r: Result<String, AuthError>)
        requires
            old(self).wf(),
        ensures
            final(self).wf(),
            r == Err::<String, AuthError>(AuthError::TokenNotFound) <==> !old(
                self,
            ).tokens@.dom().contains(token),
            r is Err ==> r == Err::<String, AuthError>(AuthError::TokenNotFound)
                && stores_unchanged(*old(self), *final(self)),
            r matches Ok(resolved) ==> {
                &&& resolved@ == old(self).tokens@[token]@
                &&& final(self).tokens@ == old(self).tokens@.remove(token)
                &&& final(self).users@ == old(self).users@
                &&& final(self).credential_cache@ == old(self).credential_cache@
                &&& final(self).registration_states@ == old(self).registration_states@
                &&& final(self).authentication_states@ == old(self).authentication_states@
            },
    {
        match self.tokens.take(&token) {
            None => Err(AuthError::TokenNotFound),
            Some(email) => Ok(email),
        }
    }
}

/// One-time registration state: a completion that got past its input checks
/// removes the state it was given, whatever the verification said; the same
/// identifier is then absent, so by register_complete_parsed's contract a
/// second completion with it is refused with CeremonyState.
pub proof fn lemma_registration_state_single_use(
    pre: AuthService,
    post: AuthService,
    state_id: u128,
)
    requires
        post.registration_states@ == pre.registration_states@.remove(state_id),
    ensures
        !post.registration_states@.dom().contains(state_id),
{
}

/// One-time authentication state: as for registration, a completed
/// authentication removes its state, so by login_complete_parsed's contract
/// a second completion with the same identifier is refused with
/// CeremonyState.
pub proof fn lemma_authentication_state_single_use(
    pre: AuthService,
    post: AuthService,
    state_id: u128,
)
    requires
        post.authentication_states@ == pre.authentication_states@.remove(state_id),
    ensures
        !post.authentication_states@.dom().contains(state_id),
{
}

/// Single-use tokens are idempotent-once: once a consume resolved a token,
/// the token is absent from the store, so by the contracts of
/// validate_account and reset_account every later consume of the same token
/// is refused with TokenNotFound.
pub proof fn lemma_token_single_use(pre: AuthService, post: AuthService, token: u128)
    requires
        post.tokens@ == pre.tokens@.remove(token),
    ensures
        !post.tokens@.dom().contains(token),
{
}

/// Begin-then-complete compatibility: the state a successful registration
/// begin stores matches the account's presence at that moment, so an
/// immediate completion with valid display names is never refused for its
/// state or its mode — by register_complete_parsed's contract it returns
/// the verification outcome.
pub proof fn lemma_begun_registration_completable(
    pre: AuthService,
    post: AuthService,
    email: Seq<char>,
    reset_mode: bool,
    state_id: u128,
)
    requires
        post.registration_states@.dom().contains(state_id),
        post.registration_states@[state_id].email@ == email,
        post.registration_states@[state_id].reset_mode == reset_mode,
        post.users@ == pre.users@,
        reset_mode == pre.users@.dom().contains(email),
    ensures
        post.registration_states@.dom().contains(state_id),
        post.registration_states@[state_id].reset_mode == post.users@.dom().contains(
            post.registration_states@[state_id].email@,
        ),
{
}

} // verus!
