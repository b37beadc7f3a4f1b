use vstd::prelude::*;
use webauthn_rs::prelude::{
    CreationChallengeResponse, Passkey, PasskeyAuthentication, PasskeyRegistration,
    PublicKeyCredential, RegisterPublicKeyCredential, RequestChallengeResponse,
};
use webauthn_rs::Webauthn;

verus! {

/// The credential verifier of webauthn-rs, carried through as it is.
#[verifier::external_type_specification]
#[verifier::external_body]
pub struct ExWebauthn(webauthn_rs::Webauthn);

/// The verifier's state of a registration under way.
#[verifier::external_type_specification]
#[verifier::external_body]
pub struct ExPasskeyRegistration(webauthn_rs::prelude::PasskeyRegistration);

/// The verifier's state of an authentication under way.
#[verifier::external_type_specification]
#[verifier::external_body]
pub struct ExPasskeyAuthentication(webauthn_rs::prelude::PasskeyAuthentication);

/// A credential that the verifier has accepted.
#[verifier::external_type_specification]
#[verifier::external_body]
pub struct ExPasskey(webauthn_rs::prelude::Passkey);

/// The challenge that starts a registration.
#[verifier::external_type_specification]
#[verifier::external_body]
pub struct ExCreationChallengeResponse(webauthn_rs::prelude::CreationChallengeResponse);

/// The challenge that starts an authentication.
#[verifier::external_type_specification]
#[verifier::external_body]
pub struct ExRequestChallengeResponse(webauthn_rs::prelude::RequestChallengeResponse);

/// A client's response to a registration challenge.
#[verifier::external_type_specification]
#[verifier::external_body]
pub struct ExRegisterPublicKeyCredential(webauthn_rs::prelude::RegisterPublicKeyCredential);

/// A client's response to an authentication challenge.
#[verifier::external_type_specification]
#[verifier::external_body]
pub struct ExPublicKeyCredential(webauthn_rs::prelude::PublicKeyCredential);

/// Builds the verifier of webauthn-rs for a relying party: calls
/// `Url::parse` on the origin, `WebauthnBuilder::new`, `rp_name`, `timeout`
/// with the given milliseconds, and `build`. `None` where the origin is no
/// URL or the identifier is no domain of the origin; nothing is promised of
/// when that is. The timeout of what comes back fits 32 bits of
/// milliseconds, which the two `start_` calls need in order to return.
#[verifier::external_body]
fn build_webauthn(rp_id: &str, rp_origin: &str, rp_name: &str, timeout_millis: u32) -> (r: Option<
    Webauthn,
>) {
    let origin = webauthn_rs::prelude::Url::parse(rp_origin).ok()?;
    let builder = webauthn_rs::prelude::WebauthnBuilder::new(rp_id, &origin).ok()?;
    let timeout = std::time::Duration::from_millis(u64::from(timeout_millis));
    builder.rp_name(rp_name).timeout(timeout).build().ok()
}

/// The credential verifier of a relying party. There is one way to make it,
/// `build`, so that the time it gives a client for a ceremony is always a
/// number of milliseconds that fits 32 bits.
pub struct CredentialVerifier {
    webauthn: Webauthn,
}

impl CredentialVerifier {
    /// The verifier of a relying party, from its identifier, its origin, its
    /// name, and the milliseconds that a client has for a ceremony. `None`
    /// where webauthn-rs refuses the identifier and the origin.
    pub fn build(rp_id: &str, rp_origin: &str, rp_name: &str, timeout_millis: u32) -> (r: Option<
        CredentialVerifier,
    >) {
        match build_webauthn(rp_id, rp_origin, rp_name, timeout_millis) {
            Some(webauthn) => Some(CredentialVerifier { webauthn }),
            None => None,
        }
    }

    /// Calls `Webauthn::start_passkey_registration` for a user identifier and
    /// a name, which serves as display name too, with no credential excluded.
    /// `None` where the verifier refuses. The challenge is drawn at random:
    /// nothing is promised of what comes back.
    #[verifier::external_body]
    pub(crate) fn start_passkey_registration(&self, user_id: u128, username: &str) -> (r: Option<
        (CreationChallengeResponse, PasskeyRegistration),
    >) {
        self.webauthn.start_passkey_registration(
            webauthn_rs::prelude::Uuid::from_u128(user_id),
            username,
            username,
            None,
        ).ok()
    }

    /// Calls `Webauthn::finish_passkey_registration`. `None` where the
    /// verifier rejects the response; nothing is promised of when it does.
    #[verifier::external_body]
    pub(crate) fn finish_passkey_registration(
        &self,
        response: &RegisterPublicKeyCredential,
        state: &PasskeyRegistration,
    ) -> (r: Option<Passkey>) {
        self.webauthn.finish_passkey_registration(response, state).ok()
    }

    /// Calls `Webauthn::start_passkey_authentication` for the credentials of
    /// a user. `None` where the verifier refuses. The challenge is drawn at
    /// random: nothing is promised of what comes back.
    #[verifier::external_body]
    pub(crate) fn start_passkey_authentication(&self, credentials: &Vec<Passkey>) -> (r: Option<
        (RequestChallengeResponse, PasskeyAuthentication),
    >) {
        self.webauthn.start_passkey_authentication(credentials.as_slice()).ok()
    }

    /// Calls `Webauthn::finish_passkey_authentication` and says whether the
    /// verifier accepted the response; nothing is promised of when it does.
    #[verifier::external_body]
    pub(crate) fn finish_passkey_authentication(
        &self,
        response: &PublicKeyCredential,
        state: &PasskeyAuthentication,
    ) -> (accepted: bool) {
        self.webauthn.finish_passkey_authentication(response, state).is_ok()
    }
}

} // verus!
