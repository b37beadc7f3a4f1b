use crate::challenge::{fresh, fresh_part, ChallengeStore, Kept};
use crate::credential::CredentialVerifier;
use crate::error::WebauthnError;
use crate::ident::{new_uuid_v4, utc_now_millis};
use crate::models::{NewUser, User, UserView};
use vstd::prelude::*;
use webauthn_rs::prelude::{
    CreationChallengeResponse, Passkey, PasskeyAuthentication, PasskeyRegistration,
    PublicKeyCredential, RegisterPublicKeyCredential, RequestChallengeResponse,
};

verus! {

/// A registration under way: the identifier that the user will have, and the
/// verifier's state.
pub struct PendingRegistration {
    pub user_id: u128,
    pub state: PasskeyRegistration,
}

/// What starting a registration hands out: the identifier under which the
/// ceremony is finished, the identifier that the user will have, and the
/// challenge for the client.
pub struct RegistrationStart {
    pub ceremony_id: u128,
    pub user_id: u128,
    pub challenge: CreationChallengeResponse,
}

/// What starting an authentication hands out: the identifier under which the
/// ceremony is finished, and the challenge for the client.
pub struct AuthenticationStart {
    pub ceremony_id: u128,
    pub challenge: RequestChallengeResponse,
}

/// Whether a ceremony can be finished at a moment: it is pending and fresh.
pub open spec fn can_finish(
    pending: Map<u128, i64>,
    lifetime: i64,
    ceremony_id: u128,
    now: i64,
) -> bool {
    pending.contains_key(ceremony_id) && fresh(pending[ceremony_id], now, lifetime)
}

/// Why finishing a ceremony fails, if it does: no ceremony is pending under
/// the identifier, or it is stale; or the verifier rejected the response.
pub open spec fn finish_refusal(
    pending: Map<u128, i64>,
    lifetime: i64,
    ceremony_id: u128,
    now: i64,
    verified: bool,
) -> Option<WebauthnError> {
    if !can_finish(pending, lifetime, ceremony_id, now) {
        Some(WebauthnError::NoChallengeFound)
    } else if !verified {
        Some(WebauthnError::CeremonyVerificationFailed)
    } else {
        None
    }
}

/// The ceremonies that are pending after one was finished: that one is gone,
/// however it ended.
pub open spec fn after_finish(pending: Map<u128, i64>, ceremony_id: u128) -> Map<u128, i64> {
    pending.remove(ceremony_id)
}

/// The pending ceremonies that are still fresh at a moment.
pub open spec fn still_fresh(pending: Map<u128, i64>, now: i64, lifetime: i64) -> Map<u128, i64> {
    Map::new(
        |id: u128| pending.contains_key(id) && fresh(pending[id], now, lifetime),
        |id: u128| pending[id],
    )
}

/// The moments at which the kept ceremonies were started.
pub open spec fn start_times<S>(kept: Map<u128, Kept<S>>) -> Map<u128, i64> {
    Map::new(|id: u128| kept.contains_key(id), |id: u128| kept[id].started_at)
}

/// Whether a registration ended as it must, given whether the verifier
/// accepted the response: refused for the reason that `finish_refusal` gives,
/// or answered with the user under the ceremony's identifier and the name
/// that was sent.
pub open spec fn registration_ends(
    pending: Map<u128, i64>,
    lifetime: i64,
    ceremony_id: u128,
    candidate: u128,
    username: Seq<char>,
    now: i64,
    verified: bool,
    r: Result<(User, Passkey), WebauthnError>,
) -> bool {
    match finish_refusal(pending, lifetime, ceremony_id, now, verified) {
        None => r matches Ok((user, _)) && user@ == (UserView {
            id: candidate,
            username,
            created_at: now,
        }),
        Some(e) => r matches Err(given) && given == e,
    }
}

/// Whether an authentication ended as it must, given whether the verifier
/// accepted the response: refused for the reason that `finish_refusal` gives,
/// or answered with the user.
pub open spec fn login_ends(
    pending: Map<u128, i64>,
    lifetime: i64,
    ceremony_id: u128,
    known: User,
    now: i64,
    verified: bool,
    r: Result<User, WebauthnError>,
) -> bool {
    match finish_refusal(pending, lifetime, ceremony_id, now, verified) {
        None => r matches Ok(who) && who == known,
        Some(e) => r matches Err(given) && given == e,
    }
}

/// The status that answers the finish of a registration.
pub fn registration_status(registered: bool) -> (status: u16)
    ensures
        status == if registered {
            201u16
        } else {
            400u16
        },
{
    if registered {
        201
    } else {
        400
    }
}

/// The status that answers the finish of an authentication.
pub fn login_status(authenticated: bool) -> (status: u16)
    ensures
        status == if authenticated {
            200u16
        } else {
            401u16
        },
{
    if authenticated {
        200
    } else {
        401
    }
}

/// What a registration ends in, once its state was found: the new user with
/// the accepted credential, or the failure of the verification.
pub fn conclude_registration(
    user_id: u128,
    username: String,
    created_at: i64,
    verified: Option<Passkey>,
) -> (r: Result<(User, Passkey), WebauthnError>)
    ensures
        match verified {
            Some(passkey) => r matches Ok((user, accepted)) && accepted == passkey && user@ == (
            UserView { id: user_id, username: username@, created_at }),
            None => r matches Err(e) && e == WebauthnError::CeremonyVerificationFailed,
        },
{
    match verified {
        Some(passkey) => Ok((User::with_identity(user_id, username, created_at), passkey)),
        None => Err(WebauthnError::CeremonyVerificationFailed),
    }
}

/// What an authentication ends in, once its state was found: the user, or the
/// failure of the verification.
pub fn conclude_login(user: User, verified: bool) -> (r: Result<User, WebauthnError>)
    ensures
        r == if verified {
            Ok::<User, WebauthnError>(user)
        } else {
            Err::<User, WebauthnError>(WebauthnError::CeremonyVerificationFailed)
        },
{
    if verified {
        Ok(user)
    } else {
        Err(WebauthnError::CeremonyVerificationFailed)
    }
}

/// The ceremonies of registration and authentication: each is started, which
/// leaves its state pending under a new identifier, and finished once, which
/// takes the state away before the response is verified.
pub struct AuthService {
    verifier: CredentialVerifier,
    reg_challenges: ChallengeStore<PendingRegistration>,
    auth_challenges: ChallengeStore<PasskeyAuthentication>,
}

impl AuthService {
    /// The registrations that are pending, each with the moment at which it
    /// was started.
    pub closed spec fn pending_registrations(&self) -> Map<u128, i64> {
        start_times(self.reg_challenges@)
    }

    /// The identifier that the user of a pending registration will have.
    pub closed spec fn candidate(&self, ceremony_id: u128) -> u128 {
        self.reg_challenges@[ceremony_id].state.user_id
    }

    /// The authentications that are pending, each with the moment at which it
    /// was started.
    pub closed spec fn pending_authentications(&self) -> Map<u128, i64> {
        start_times(self.auth_challenges@)
    }

    /// For how many milliseconds a ceremony can be finished after it was
    /// started.
    pub closed spec fn lifetime(&self) -> i64 {
        self.reg_challenges.lifetime()
    }

    /// Whether the service is consistent: both stores are, and both kinds of
    /// ceremony have the same lifetime.
    pub closed spec fn well_formed(&self) -> bool {
        &&& self.reg_challenges.well_formed()
        &&& self.auth_challenges.well_formed()
        &&& self.auth_challenges.lifetime() == self.reg_challenges.lifetime()
    }

    /// Whether a registration is kept under an identifier, fresh or not.
    pub fn registration_pending(&self, ceremony_id: u128) -> (b: bool)
        ensures
            b == self.pending_registrations().contains_key(ceremony_id),
    {
        self.reg_challenges.contains(ceremony_id)
    }

    /// Whether an authentication is kept under an identifier, fresh or not.
    pub fn authentication_pending(&self, ceremony_id: u128) -> (b: bool)
        ensures
            b == self.pending_authentications().contains_key(ceremony_id),
    {
        self.auth_challenges.contains(ceremony_id)
    }

    /// A service around a verifier, with no ceremony pending, in which a
    /// ceremony can be finished for so many milliseconds after its start.
    pub fn new(verifier: CredentialVerifier, lifetime: i64) -> (service: AuthService)
        ensures
            service.well_formed(),
            service.lifetime() == lifetime,
            service.pending_registrations() == Map::<u128, i64>::empty(),
            service.pending_authentications() == Map::<u128, i64>::empty(),
    {
        AuthService {
            verifier,
            reg_challenges: ChallengeStore::new(lifetime),
            auth_challenges: ChallengeStore::new(lifetime),
        }
    }

    /// Drops the ceremonies that are stale at the given moment, which could
    /// no longer be finished, and leaves the others as they are.
    pub fn purge(&mut self, now: i64)
        requires
            old(self).well_formed(),
        ensures
            final(self).well_formed(),
            final(self).lifetime() == old(self).lifetime(),
            final(self).pending_registrations() == still_fresh(
                old(self).pending_registrations(),
                now,
                old(self).lifetime(),
            ),
            final(self).pending_authentications() == still_fresh(
                old(self).pending_authentications(),
                now,
                old(self).lifetime(),
            ),
            forall|id: u128|
                final(self).pending_registrations().contains_key(id) ==> final(self).candidate(id)
                    == old(self).candidate(id),
    {
        self.reg_challenges.purge(now);
        self.auth_challenges.purge(now);
    }

    /// Takes in what the verifier answered to the start of a registration.
    /// Where it refused, nothing changes; otherwise the state is pending
    /// from now on under the ceremony's identifier, in place of what was
    /// pending there, and the identifiers and the challenge are handed out.
    pub fn record_registration(
        &mut self,
        ceremony_id: u128,
        user_id: u128,
        started: Option<(CreationChallengeResponse, PasskeyRegistration)>,
        now: i64,
    ) -> (r: Result<RegistrationStart, WebauthnError>)
        requires
            old(self).well_formed(),
        ensures
            final(self).well_formed(),
            final(self).lifetime() == old(self).lifetime(),
            final(self).pending_authentications() == old(self).pending_authentications(),
            match started {
                Some((challenge, _)) => {
                    &&& r matches Ok(start) && start.ceremony_id == ceremony_id && start.user_id
                        == user_id && start.challenge == challenge
                    &&& final(self).pending_registrations() == old(
                        self,
                    ).pending_registrations().insert(ceremony_id, now)
                    &&& final(self).candidate(ceremony_id) == user_id
                    &&& forall|other: u128|
                        other != ceremony_id ==> final(self).candidate(other) == old(
                            self,
                        ).candidate(other)
                },
                None => {
                    &&& r matches Err(e) && e == WebauthnError::VerifierError
                    &&& final(self).pending_registrations() == old(self).pending_registrations()
                    &&& forall|other: u128| final(self).candidate(other) == old(self).candidate(other)
                },
            },
    {
        match started {
            None => Err(WebauthnError::VerifierError),
            Some((challenge, state)) => {
                self.reg_challenges.insert(ceremony_id, PendingRegistration { user_id, state }, now);
                Ok(RegistrationStart { ceremony_id, user_id, challenge })
            },
        }
    }

    /// Takes in what the verifier answered to the start of an authentication.
    /// Where it refused, nothing changes; otherwise the state is pending
    /// from now on under the ceremony's identifier, in place of what was
    /// pending there, and the identifier and the challenge are handed out.
    pub fn record_authentication(
        &mut self,
        ceremony_id: u128,
        started: Option<(RequestChallengeResponse, PasskeyAuthentication)>,
        now: i64,
    ) -> (r: Result<AuthenticationStart, WebauthnError>)
        requires
            old(self).well_formed(),
        ensures
            final(self).well_formed(),
            final(self).lifetime() == old(self).lifetime(),
            final(self).pending_registrations() == old(self).pending_registrations(),
            forall|other: u128| final(self).candidate(other) == old(self).candidate(other),
            match started {
                Some((challenge, _)) => {
                    &&& r matches Ok(start) && start.ceremony_id == ceremony_id && start.challenge
                        == challenge
                    &&& final(self).pending_authentications() == old(
                        self,
                    ).pending_authentications().insert(ceremony_id, now)
                },
                None => {
                    &&& r matches Err(e) && e == WebauthnError::VerifierError
                    &&& final(self).pending_authentications() == old(
                        self,
                    ).pending_authentications()
                },
            },
    {
        match started {
            None => Err(WebauthnError::VerifierError),
            Some((challenge, state)) => {
                self.auth_challenges.insert(ceremony_id, state, now);
                Ok(AuthenticationStart { ceremony_id, challenge })
            },
        }
    }

    /// Starts a registration for a name, under new identifiers, at this
    /// moment. Where the verifier refuses, nothing changes; otherwise the
    /// ceremony is pending under the identifier that is handed out, and no
    /// other ceremony is touched.
    pub fn generate_registration_options(&mut self, username: &str) -> (r: Result<
        RegistrationStart,
        WebauthnError,
    >)
        requires
            old(self).well_formed(),
        ensures
            final(self).well_formed(),
            final(self).lifetime() == old(self).lifetime(),
            final(self).pending_authentications() == old(self).pending_authentications(),
            match r {
                Ok(start) => {
                    &&& final(self).pending_registrations().contains_key(start.ceremony_id)
                    &&& final(self).pending_registrations().remove(start.ceremony_id) == old(
                        self,
                    ).pending_registrations().remove(start.ceremony_id)
                    &&& final(self).candidate(start.ceremony_id) == start.user_id
                    &&& forall|other: u128|
                        other != start.ceremony_id ==> final(self).candidate(other) == old(
                            self,
                        ).candidate(other)
                },
                Err(e) => {
                    &&& e == WebauthnError::VerifierError
                    &&& final(self).pending_registrations() == old(self).pending_registrations()
                    &&& forall|other: u128| final(self).candidate(other) == old(self).candidate(other)
                },
            },
    {
        let ceremony_id: u128 = new_uuid_v4();
        let user_id: u128 = new_uuid_v4();
        let now: i64 = utc_now_millis();
        let started = self.verifier.start_passkey_registration(user_id, username);
        self.record_registration(ceremony_id, user_id, started, now)
    }

    /// Finishes a registration at this moment. The ceremony is no longer
    /// pending afterwards, however this ends. Where none was pending under
    /// the identifier, or a stale one, the answer is `NoChallengeFound`;
    /// where the verifier rejects the response it is
    /// `CeremonyVerificationFailed`, and there is no user. Otherwise the
    /// answer is the user to store, under the identifier that the ceremony
    /// was started for and the name that was sent, with the credential.
    pub fn register_user(
        &mut self,
        ceremony_id: u128,
        new_user: NewUser,
        reg_response: &RegisterPublicKeyCredential,
    ) -> (r: Result<(User, Passkey), WebauthnError>)
        requires
            old(self).well_formed(),
        ensures
            final(self).well_formed(),
            final(self).lifetime() == old(self).lifetime(),
            final(self).pending_registrations() == after_finish(
                old(self).pending_registrations(),
                ceremony_id,
            ),
            final(self).pending_authentications() == old(self).pending_authentications(),
            forall|other: u128|
                other != ceremony_id ==> final(self).candidate(other) == old(self).candidate(other),
            exists|now: i64, verified: bool| #[trigger]
                registration_ends(
                    old(self).pending_registrations(),
                    old(self).lifetime(),
                    ceremony_id,
                    old(self).candidate(ceremony_id),
                    new_user.username@,
                    now,
                    verified,
                    r,
                ),
    {
        let now: i64 = utc_now_millis();
        let taken = self.reg_challenges.take(ceremony_id, now);
        let pending = match taken {
            Some(pending) => pending,
            None => {
                let r = Err(WebauthnError::NoChallengeFound);
                assert(registration_ends(
                    old(self).pending_registrations(),
                    old(self).lifetime(),
                    ceremony_id,
                    old(self).candidate(ceremony_id),
                    new_user.username@,
                    now,
                    true,
                    r,
                ));
                return r;
            },
        };
        let verified = self.verifier.finish_passkey_registration(reg_response, &pending.state);
        let ghost accepted = verified.is_some();
        let r = conclude_registration(pending.user_id, new_user.username, now, verified);
        assert(registration_ends(
            old(self).pending_registrations(),
            old(self).lifetime(),
            ceremony_id,
            old(self).candidate(ceremony_id),
            new_user.username@,
            now,
            accepted,
            r,
        ));
        r
    }

    /// Starts an authentication against the credentials of a user, under a
    /// new identifier, at this moment. Where the verifier refuses, nothing
    /// changes; otherwise the ceremony is pending under the identifier that
    /// is handed out, and no other ceremony is touched.
    pub fn generate_authentication_options(&mut self, credentials: &Vec<Passkey>) -> (r: Result<
        AuthenticationStart,
        WebauthnError,
    >)
        requires
            old(self).well_formed(),
        ensures
            final(self).well_formed(),
            final(self).lifetime() == old(self).lifetime(),
            final(self).pending_registrations() == old(self).pending_registrations(),
            forall|other: u128| final(self).candidate(other) == old(self).candidate(other),
            match r {
                Ok(start) => {
                    &&& final(self).pending_authentications().contains_key(start.ceremony_id)
                    &&& final(self).pending_authentications().remove(start.ceremony_id) == old(
                        self,
                    ).pending_authentications().remove(start.ceremony_id)
                },
                Err(e) => e == WebauthnError::VerifierError && final(self).pending_authentications()
                    == old(self).pending_authentications(),
            },
    {
        let ceremony_id: u128 = new_uuid_v4();
        let now: i64 = utc_now_millis();
        let started = self.verifier.start_passkey_authentication(credentials);
        self.record_authentication(ceremony_id, started, now)
    }

    /// Finishes an authentication at this moment for the user that the name
    /// was resolved to. Where the name resolved to nobody the answer is
    /// `UserNotFound`, and the ceremony stays pending. Otherwise the ceremony
    /// is no longer pending afterwards, however this ends; the answer is
    /// `NoChallengeFound` where none was pending under the identifier, or a
    /// stale one, `CeremonyVerificationFailed` where the verifier rejects the
    /// response, and else the user.
    pub fn login_user(
        &mut self,
        ceremony_id: u128,
        user: Option<User>,
        auth_response: &PublicKeyCredential,
    ) -> (r: Result<User, WebauthnError>)
        requires
            old(self).well_formed(),
        ensures
            final(self).well_formed(),
            final(self).lifetime() == old(self).lifetime(),
            final(self).pending_registrations() == old(self).pending_registrations(),
            forall|other: u128| final(self).candidate(other) == old(self).candidate(other),
            match user {
                None => {
                    &&& r matches Err(e) && e == WebauthnError::UserNotFound
                    &&& final(self).pending_authentications() == old(
                        self,
                    ).pending_authentications()
                },
                Some(known) => {
                    &&& final(self).pending_authentications() == after_finish(
                        old(self).pending_authentications(),
                        ceremony_id,
                    )
                    &&& exists|now: i64, verified: bool| #[trigger]
                        login_ends(
                            old(self).pending_authentications(),
                            old(self).lifetime(),
                            ceremony_id,
                            known,
                            now,
                            verified,
                            r,
                        )
                },
            },
    {
        let known = match user {
            Some(known) => known,
            None => {
                return Err(WebauthnError::UserNotFound);
            },
        };
        let now: i64 = utc_now_millis();
        let taken = self.auth_challenges.take(ceremony_id, now);
        let state = match taken {
            Some(state) => state,
            None => {
                let r = Err(WebauthnError::NoChallengeFound);
                assert(login_ends(
                    old(self).pending_authentications(),
                    old(self).lifetime(),
                    ceremony_id,
                    known,
                    now,
                    true,
                    r,
                ));
                return r;
            },
        };
        let verified = self.verifier.finish_passkey_authentication(auth_response, &state);
        let r = conclude_login(known, verified);
        assert(login_ends(
            old(self).pending_authentications(),
            old(self).lifetime(),
            ceremony_id,
            known,
            now,
            verified,
            r,
        ));
        r
    }
}

} // verus!
