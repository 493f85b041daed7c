use vstd::prelude::*;

verus! {

/// The one-bit status that every boundary operation reports.
#[derive(Clone, Copy, Debug, PartialEq, Eq, Structural)]
pub enum OpaqueStatus {
    /// Every output was written.
    Success,
    /// The call failed; what the slots hold is not to be used.
    Failure,
}

/// Why a flow step did not produce its artifact.
#[derive(Clone, Copy, Debug, PartialEq, Eq, Structural)]
pub enum OpaqueError {
    /// The text is not an unpadded URL-safe encoding of any byte sequence.
    MalformedEncoding,
    /// The decoded client state is not a state of the expected flow.
    InvalidState,
    /// The decoded server reply is not a reply of the expected flow.
    InvalidServerMessage,
    /// The server's reply did not verify under the password.
    AuthenticationFailed,
    /// The primitives rejected their input.
    CryptoError,
    /// An output slot is absent or cannot hold what must be written.
    DestinationUnavailable,
}

/// How the primitive library's protocol error reads, variant for variant.
#[derive(Clone, Copy, Debug, PartialEq, Eq, Structural)]
pub enum PrimitiveFailure {
    Crypto,
    IncompleteKeys,
    IncompatibleServerStaticPublicKey,
    KeyExchangeMacValidation,
    InvalidLogin,
    Serialization,
    Server,
    ServerInvalidEnvelopeCredentialsFormat,
    Client,
}

/// The message and the client state that a start step hands out.
pub struct StartArtifacts {
    pub message: Vec<u8>,
    pub state: Vec<u8>,
}

/// The message and the session key that a finished login hands out.
pub struct LoginArtifacts {
    pub message: Vec<u8>,
    pub session_key: Vec<u8>,
}

} // verus!
