//! The calls into the primitives, each for whatever cipher suite the caller
//! has bound.

use vstd::prelude::*;
use opaque_ke::ciphersuite::CipherSuite;
use opaque_ke::errors::{PakeError, ProtocolError};
use opaque_ke::{
    ClientLogin, ClientLoginFinishParameters, ClientLoginStartParameters, ClientRegistration,
    ClientRegistrationFinishParameters, CredentialResponse, RegistrationResponse,
};
use rand::rngs::OsRng;
use crate::flow::FinishInputs;
use crate::status::{LoginArtifacts, PrimitiveFailure, StartArtifacts};

verus! {

#[verifier::external_type_specification]
#[verifier::external_body]
pub struct ExProtocolError(ProtocolError);

/// How a `ProtocolError` of the primitives reads: the variant of
/// `PrimitiveFailure` that is named after its variant, or after that of the
/// `PakeError` inside a `VerificationError`.
pub uninterp spec fn failure_kind(error: ProtocolError) -> PrimitiveFailure;

/// Tells the variants of `opaque_ke::errors::ProtocolError` apart, and inside
/// `VerificationError` those of `PakeError`: each gives the variant of
/// `PrimitiveFailure` of its name.
#[verifier::external_body]
pub(crate) fn failure_of(error: &ProtocolError) -> (kind: PrimitiveFailure)
    ensures
        kind == failure_kind(*error),
{
    match error {
        ProtocolError::VerificationError(PakeError::CryptoError(_)) => PrimitiveFailure::Crypto,
        ProtocolError::VerificationError(PakeError::IncompleteKeysError) => PrimitiveFailure::IncompleteKeys,
        ProtocolError::VerificationError(PakeError::IncompatibleServerStaticPublicKeyError) => PrimitiveFailure::IncompatibleServerStaticPublicKey,
        ProtocolError::VerificationError(PakeError::KeyExchangeMacValidationError) => PrimitiveFailure::KeyExchangeMacValidation,
        ProtocolError::VerificationError(PakeError::InvalidLoginError) => PrimitiveFailure::InvalidLogin,
        ProtocolError::VerificationError(PakeError::SerializationError) => PrimitiveFailure::Serialization,
        ProtocolError::ServerError => PrimitiveFailure::Server,
        ProtocolError::ServerInvalidEnvelopeCredentialsFormatError => PrimitiveFailure::ServerInvalidEnvelopeCredentialsFormat,
        ProtocolError::ClientError => PrimitiveFailure::Client,
    }
}

/// Whether a byte sequence ends with another.
pub open spec fn ends_with(bytes: Seq<u8>, tail: Seq<u8>) -> bool {
    tail.len() <= bytes.len() && bytes.skip(bytes.len() - tail.len()) == tail
}

/// `ClientRegistration::start` with the operating system's random source,
/// the message and the state serialized. The blinding is random; what the
/// source fixes for every suite is that the state keeps the password as it
/// came, and its serialization ends with it.
#[verifier::external_body]
pub(crate) fn registration_start<CS: CipherSuite>(password: &[u8]) -> (r: Result<
    StartArtifacts,
    ProtocolError,
>)
    ensures
        r matches Ok(started) ==> ends_with(started.state@, password@),
{
    let mut rng = OsRng;
    let started = ClientRegistration::<CS>::start(&mut rng, password)?;
    Ok(StartArtifacts { message: started.message.serialize(), state: started.state.serialize() })
}

/// `ClientRegistration::deserialize`, asked only whether it accepts the
/// bytes. What it accepts depends on the suite, so nothing is claimed.
#[verifier::external_body]
pub(crate) fn registration_state_parses<CS: CipherSuite>(bytes: &[u8]) -> (ok: bool) {
    ClientRegistration::<CS>::deserialize(bytes).is_ok()
}

/// `RegistrationResponse::deserialize` on the server's message of the
/// inputs, asked only whether it accepts the bytes. What it accepts depends on
/// the suite, so nothing is claimed.
#[verifier::external_body]
pub(crate) fn registration_response_parses<CS: CipherSuite>(inputs: &FinishInputs) -> (ok: bool) {
    RegistrationResponse::<CS>::deserialize(&inputs.server_message).is_ok()
}

/// `ClientRegistration::finish` on the inputs' state and server message, each
/// deserialized as what it is, with the operating system's random source and
/// the default parameters; the upload message serialized. The client key pair
/// is random, so nothing is claimed of what comes back.
#[verifier::external_body]
pub(crate) fn registration_finish<CS: CipherSuite>(inputs: &FinishInputs) -> (r: Result<
    Vec<u8>,
    ProtocolError,
>) {
    let mut rng = OsRng;
    let state = ClientRegistration::<CS>::deserialize(&inputs.state)?;
    let response = RegistrationResponse::<CS>::deserialize(&inputs.server_message)?;
    let done = state.finish(&mut rng, response, ClientRegistrationFinishParameters::Default)?;
    Ok(done.message.serialize())
}

/// `ClientLogin::start` with the operating system's random source and the
/// default parameters, the message and the state serialized. Blinding and key
/// exchange are random; what the source fixes for every suite is that the
/// state keeps the password as it came, and its serialization ends with it.
#[verifier::external_body]
pub(crate) fn login_start<CS: CipherSuite>(password: &[u8]) -> (r: Result<
    StartArtifacts,
    ProtocolError,
>)
    ensures
        r matches Ok(started) ==> ends_with(started.state@, password@),
{
    let mut rng = OsRng;
    let params = ClientLoginStartParameters::default();
    let started = ClientLogin::<CS>::start(&mut rng, password, params)?;
    Ok(StartArtifacts { message: started.message.serialize(), state: started.state.serialize() })
}

/// `ClientLogin::deserialize`, asked only whether it accepts the bytes. What
/// it accepts depends on the suite, so nothing is claimed.
#[verifier::external_body]
pub(crate) fn login_state_parses<CS: CipherSuite>(bytes: &[u8]) -> (ok: bool) {
    ClientLogin::<CS>::deserialize(bytes).is_ok()
}

/// `CredentialResponse::deserialize` on the server's message of the inputs,
/// asked only whether it accepts the bytes. What it accepts depends on the
/// suite, so nothing is claimed.
#[verifier::external_body]
pub(crate) fn credential_response_parses<CS: CipherSuite>(inputs: &FinishInputs) -> (ok: bool) {
    CredentialResponse::<CS>::deserialize(&inputs.server_message).is_ok()
}

/// `ClientLogin::finish` on the inputs' state and server message, each
/// deserialized as what it is, with the default parameters; the finalization
/// message serialized, the session key as it is. What comes back depends on
/// the suite, so nothing is claimed of it.
#[verifier::external_body]
pub(crate) fn login_finish<CS: CipherSuite>(inputs: &FinishInputs) -> (r: Result<
    LoginArtifacts,
    ProtocolError,
>) {
    let state = ClientLogin::<CS>::deserialize(&inputs.state)?;
    let response = CredentialResponse::<CS>::deserialize(&inputs.server_message)?;
    let done = state.finish(response, ClientLoginFinishParameters::default())?;
    Ok(LoginArtifacts { message: done.message.serialize(), session_key: done.session_key })
}

} // verus!
