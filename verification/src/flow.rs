//! The two client flows, registration and login, as the decisions taken
//! around the primitives: what is handed to them, and what is made of what
//! they hand back.
//!
//! The functions of this module keep nothing between calls. A client state is
//! text in the caller's hands, and a state text that is presented to a finish
//! step twice is taken to the primitives twice: reuse is not detected here.
//! `crate::instance::ClientFlow` is the checked form, which hands a state on
//! once.

use vstd::prelude::*;
use opaque_ke::ciphersuite::CipherSuite;
use opaque_ke::errors::ProtocolError;
use crate::encoding::{
    decode, decode_spec, encode, encode_spec, is_symbol, lemma_outside_alphabet_undecodable,
};
use crate::slot::{
    copy_cstr, pair_stored, slot_after, slot_takes, slot_view, update_login_message_state,
    update_message_session, update_registration_message_state, MessageSession, MessageState,
};
use crate::status::{LoginArtifacts, OpaqueError, OpaqueStatus, PrimitiveFailure, StartArtifacts};
use crate::suite::{
    credential_response_parses, ends_with, failure_kind, failure_of, login_finish, login_start,
    login_state_parses, registration_finish, registration_response_parses, registration_start,
    registration_state_parses,
};

verus! {

/// The decoded inputs of a finish step, ready for the primitives.
pub struct FinishInputs {
    pub state: Vec<u8>,
    pub server_message: Vec<u8>,
}

/// What the primitives made of the inputs of a finish step.
pub enum PrimitiveReply<T> {
    /// The state bytes are no client state of this flow.
    StateRejected,
    /// The server's bytes are no reply of this flow.
    ServerMessageRejected,
    /// Both were read, and the step failed.
    Failed(ProtocolError),
    /// The step produced its artifact.
    Completed(T),
}

/// The failures by which the primitives say that the server's reply does not
/// verify under the password: the envelope does not open, or the key
/// exchange's authentication tag is wrong.
pub open spec fn is_verification_failure(failure: PrimitiveFailure) -> bool {
    failure == PrimitiveFailure::InvalidLogin || failure
        == PrimitiveFailure::KeyExchangeMacValidation
}

/// The outcome of a start step, given what the primitives returned.
pub open spec fn start_outcome(started: Result<StartArtifacts, ProtocolError>) -> Result<
    StartArtifacts,
    OpaqueError,
> {
    match started {
        Ok(artifacts) => Ok(artifacts),
        Err(_) => Err(OpaqueError::CryptoError),
    }
}

/// The inputs that a finish step hands on, once its state text has decoded to
/// `state` and the primitives were asked whether they read it. A state that
/// they do not read refuses the step as `InvalidState` before the server's
/// message is looked at; after that a server's message that is malformed
/// refuses it as `MalformedEncoding`.
pub open spec fn finish_inputs_spec(
    state: Seq<u8>,
    state_reads: bool,
    server_message_text: Seq<u8>,
) -> Result<(Seq<u8>, Seq<u8>), OpaqueError> {
    if !state_reads {
        Err(OpaqueError::InvalidState)
    } else {
        match decode_spec(server_message_text) {
            Some(server_message) => Ok((state, server_message)),
            None => Err(OpaqueError::MalformedEncoding),
        }
    }
}

/// Whether a finish step on two texts comes to hand inputs on, given whether
/// the primitives read the state.
pub open spec fn finish_admitted(
    state_text: Seq<u8>,
    server_message_text: Seq<u8>,
    state_reads: bool,
) -> bool {
    decode_spec(state_text) matches Some(state) && finish_inputs_spec(
        state,
        state_reads,
        server_message_text,
    ) is Ok
}

/// What a finish step returns on two texts, given whether the primitives read
/// the state and what the step comes to once its inputs are handed on. The
/// state is examined first: malformed state text is `MalformedEncoding`, a
/// state that does not read is `InvalidState`, and only then is the server's
/// message decoded.
pub open spec fn finish_decision<T>(
    state_text: Seq<u8>,
    server_message_text: Seq<u8>,
    state_reads: bool,
    outcome: Result<T, OpaqueError>,
) -> Result<T, OpaqueError> {
    match decode_spec(state_text) {
        None => Err(OpaqueError::MalformedEncoding),
        Some(state) => match finish_inputs_spec(state, state_reads, server_message_text) {
            Err(e) => Err(e),
            Ok(_) => outcome,
        },
    }
}

/// The outcome of a registration finish, given what the primitives returned.
pub open spec fn register_finish_outcome(reply: PrimitiveReply<Vec<u8>>) -> Result<
    Vec<u8>,
    OpaqueError,
> {
    match reply {
        PrimitiveReply::StateRejected => Err(OpaqueError::InvalidState),
        PrimitiveReply::ServerMessageRejected => Err(OpaqueError::InvalidServerMessage),
        PrimitiveReply::Failed(_) => Err(OpaqueError::CryptoError),
        PrimitiveReply::Completed(record) => Ok(record),
    }
}

/// The outcome of a login finish, given what the primitives returned.
pub open spec fn login_finish_outcome(reply: PrimitiveReply<LoginArtifacts>) -> Result<
    LoginArtifacts,
    OpaqueError,
> {
    match reply {
        PrimitiveReply::StateRejected => Err(OpaqueError::InvalidState),
        PrimitiveReply::ServerMessageRejected => Err(OpaqueError::InvalidServerMessage),
        PrimitiveReply::Failed(error) => if is_verification_failure(failure_kind(error)) {
            Err(OpaqueError::AuthenticationFailed)
        } else {
            Err(OpaqueError::CryptoError)
        },
        PrimitiveReply::Completed(artifacts) => Ok(artifacts),
    }
}

/// What a start step returns, given what the primitives returned: the
/// artifacts as they made them, or `CryptoError` where they rejected the
/// password.
pub fn start_result(started: Result<StartArtifacts, ProtocolError>) -> (r: Result<
    StartArtifacts,
    OpaqueError,
>)
    ensures
        r == start_outcome(started),
{
    match started {
        Ok(artifacts) => Ok(artifacts),
        Err(_) => Err(OpaqueError::CryptoError),
    }
}

/// The inputs of a finish step, from the decoded state, whether the
/// primitives read it, and the text of the server's message. The state's
/// reading is looked at before the server's message is decoded.
pub fn finish_inputs(state: Vec<u8>, state_reads: bool, server_message_text: &[u8]) -> (r: Result<
    FinishInputs,
    OpaqueError,
>)
    ensures
        match r {
            Ok(inputs) => finish_inputs_spec(state@, state_reads, server_message_text@) == Ok::<
                (Seq<u8>, Seq<u8>),
                OpaqueError,
            >((inputs.state@, inputs.server_message@)),
            Err(e) => finish_inputs_spec(state@, state_reads, server_message_text@) == Err::<
                (Seq<u8>, Seq<u8>),
                OpaqueError,
            >(e),
        },
{
    if !state_reads {
        return Err(OpaqueError::InvalidState);
    }
    match decode(server_message_text) {
        Ok(server_message) => Ok(FinishInputs { state, server_message }),
        Err(e) => Err(e),
    }
}

/// What a registration finish returns, given what the primitives made of its
/// inputs: the record, or the error that names what they refused.
pub fn register_finish_result(reply: PrimitiveReply<Vec<u8>>) -> (r: Result<Vec<u8>, OpaqueError>)
    ensures
        r == register_finish_outcome(reply),
{
    match reply {
        PrimitiveReply::StateRejected => Err(OpaqueError::InvalidState),
        PrimitiveReply::ServerMessageRejected => Err(OpaqueError::InvalidServerMessage),
        PrimitiveReply::Failed(_) => Err(OpaqueError::CryptoError),
        PrimitiveReply::Completed(record) => Ok(record),
    }
}

/// What a login finish returns, given what the primitives made of its inputs:
/// message and session key, or the error that names what they refused. A reply
/// that does not verify is `AuthenticationFailed`, and no session key comes
/// with it.
pub fn login_finish_result(reply: PrimitiveReply<LoginArtifacts>) -> (r: Result<
    LoginArtifacts,
    OpaqueError,
>)
    ensures
        r == login_finish_outcome(reply),
{
    match reply {
        PrimitiveReply::StateRejected => Err(OpaqueError::InvalidState),
        PrimitiveReply::ServerMessageRejected => Err(OpaqueError::InvalidServerMessage),
        PrimitiveReply::Failed(error) => match failure_of(&error) {
            PrimitiveFailure::InvalidLogin => Err(OpaqueError::AuthenticationFailed),
            PrimitiveFailure::KeyExchangeMacValidation => Err(OpaqueError::AuthenticationFailed),
            _ => Err(OpaqueError::CryptoError),
        },
        PrimitiveReply::Completed(artifacts) => Ok(artifacts),
    }
}

/// What a start step leaves at the boundary: on artifacts, their encodings
/// stored into the two slots, message first; on a failure of the primitives a
/// failed call and the slots as they were.
pub open spec fn start_effect(
    started: Result<StartArtifacts, ProtocolError>,
    before: MessageState,
    status: OpaqueStatus,
    now: MessageState,
) -> bool {
    match started {
        Ok(artifacts) => pair_stored(
            before.message,
            before.state,
            encode_spec(artifacts.message@),
            encode_spec(artifacts.state@),
            status,
            now.message,
            now.state,
        ),
        Err(_) => status == OpaqueStatus::Failure && now == before,
    }
}

/// What a registration finish leaves at the boundary: the encoded record
/// written into the slot, or a failed call and the slot as it was.
pub open spec fn register_finish_effect(
    reply: PrimitiveReply<Vec<u8>>,
    before: Option<Vec<u8>>,
    status: OpaqueStatus,
    now: Option<Vec<u8>>,
) -> bool {
    match register_finish_outcome(reply) {
        Ok(record) => {
            &&& status == if slot_takes(before, encode_spec(record@)) {
                OpaqueStatus::Success
            } else {
                OpaqueStatus::Failure
            }
            &&& slot_view(now) == slot_after(before, encode_spec(record@))
        },
        Err(_) => status == OpaqueStatus::Failure && now == before,
    }
}

/// What a login finish leaves at the boundary: the encoded message and the
/// encoded session key stored into the two slots, message first, or a failed
/// call and the slots as they were.
pub open spec fn login_finish_effect(
    reply: PrimitiveReply<LoginArtifacts>,
    before: MessageSession,
    status: OpaqueStatus,
    now: MessageSession,
) -> bool {
    match login_finish_outcome(reply) {
        Ok(artifacts) => pair_stored(
            before.message,
            before.session,
            encode_spec(artifacts.message@),
            encode_spec(artifacts.session_key@),
            status,
            now.message,
            now.session,
        ),
        Err(_) => status == OpaqueStatus::Failure && now == before,
    }
}

/// Stores what a start step produced: on artifacts, their encodings go to the
/// two slots, message first; on a failure of the primitives nothing is
/// written.
pub fn store_start(
    started: Result<StartArtifacts, ProtocolError>,
    login: bool,
    message_state: &mut MessageState,
) -> (status: OpaqueStatus)
    ensures
        start_effect(started, *old(message_state), status, *final(message_state)),
{
    match start_result(started) {
        Ok(c) => if login {
            update_login_message_state(c, message_state)
        } else {
            update_registration_message_state(c, message_state)
        },
        Err(_) => OpaqueStatus::Failure,
    }
}

/// Stores what a registration finish produced: the encoded record goes to the
/// slot; any refusal by the primitives fails the call with the slot untouched.
pub fn store_registration_record(
    reply: PrimitiveReply<Vec<u8>>,
    new_message_buffer: &mut Option<Vec<u8>>,
) -> (status: OpaqueStatus)
    ensures
        register_finish_effect(reply, *old(new_message_buffer), status, *final(new_message_buffer)),
{
    match register_finish_result(reply) {
        Ok(record) => {
            let message_encoded = encode(record.as_slice());
            copy_cstr(message_encoded.as_slice(), new_message_buffer)
        },
        Err(_) => OpaqueStatus::Failure,
    }
}

/// Stores what a login finish produced: the encoded finalization message and
/// the encoded session key go to the two slots, message first; any refusal by
/// the primitives fails the call with both slots untouched.
pub fn store_login_session(
    reply: PrimitiveReply<LoginArtifacts>,
    message_session: &mut MessageSession,
) -> (status: OpaqueStatus)
    ensures
        login_finish_effect(reply, *old(message_session), status, *final(message_session)),
{
    match login_finish_result(reply) {
        Ok(c) => update_message_session(c, message_session),
        Err(_) => OpaqueStatus::Failure,
    }
}

/// Takes decoded inputs to the primitives of a registration finish: the state
/// is read before the server's message, and the step runs only on inputs that
/// both read.
pub fn registration_reply<CS: CipherSuite>(inputs: &FinishInputs) -> (reply: PrimitiveReply<
    Vec<u8>,
>) {
    let state_reads = registration_state_parses::<CS>(inputs.state.as_slice());
    let message_reads = state_reads && registration_response_parses::<CS>(inputs);
    match refusal_of_readings(state_reads, message_reads) {
        Some(refusal) => refusal,
        None => reply_of_step(registration_finish::<CS>(inputs)),
    }
}

/// Takes decoded inputs to the primitives of a login finish: the state is read
/// before the server's message, and the step runs only on inputs that both
/// read.
pub fn login_reply<CS: CipherSuite>(inputs: &FinishInputs) -> (reply: PrimitiveReply<
    LoginArtifacts,
>) {
    let state_reads = login_state_parses::<CS>(inputs.state.as_slice());
    let message_reads = state_reads && credential_response_parses::<CS>(inputs);
    match refusal_of_readings(state_reads, message_reads) {
        Some(refusal) => refusal,
        None => reply_of_step(login_finish::<CS>(inputs)),
    }
}

/// Registration start. The primitives draw fresh randomness; the state holds
/// the password at its end, and a failure is always `CryptoError`.
pub fn client_register<CS: CipherSuite>(password: &[u8]) -> (r: Result<StartArtifacts, OpaqueError>)
    ensures
        r is Err ==> r == Err::<StartArtifacts, OpaqueError>(OpaqueError::CryptoError),
        r matches Ok(started) ==> ends_with(started.state@, password@),
{
    start_result(registration_start::<CS>(password))
}

/// Login start, with the default parameters. The primitives draw fresh
/// randomness; the state holds the password at its end, and a failure is
/// always `CryptoError`.
pub fn client_login<CS: CipherSuite>(password: &[u8]) -> (r: Result<StartArtifacts, OpaqueError>)
    ensures
        r is Err ==> r == Err::<StartArtifacts, OpaqueError>(OpaqueError::CryptoError),
        r matches Ok(started) ==> ends_with(started.state@, password@),
{
    start_result(login_start::<CS>(password))
}

/// What the readings of a finish step's inputs refuse before the step runs:
/// a state that does not read refuses it as `StateRejected`, whatever the
/// server's message; a server's message that does not read refuses it as
/// `ServerMessageRejected`; where both read, nothing is refused.
pub open spec fn reading_refusal<T>(state_reads: bool, server_message_reads: bool) -> Option<
    PrimitiveReply<T>,
> {
    if !state_reads {
        Some(PrimitiveReply::StateRejected)
    } else if !server_message_reads {
        Some(PrimitiveReply::ServerMessageRejected)
    } else {
        None
    }
}

/// The reply of a finish step that ran: its artifact, or the failure of the
/// primitives as they gave it.
pub open spec fn step_reply<T>(finished: Result<T, ProtocolError>) -> PrimitiveReply<T> {
    match finished {
        Ok(artifact) => PrimitiveReply::Completed(artifact),
        Err(error) => PrimitiveReply::Failed(error),
    }
}

/// The refusal, if any, that the readings of a finish step's inputs call for.
pub fn refusal_of_readings<T>(state_reads: bool, server_message_reads: bool) -> (refusal: Option<
    PrimitiveReply<T>,
>)
    ensures
        refusal == reading_refusal::<T>(state_reads, server_message_reads),
{
    if !state_reads {
        Some(PrimitiveReply::StateRejected)
    } else if !server_message_reads {
        Some(PrimitiveReply::ServerMessageRejected)
    } else {
        None
    }
}

/// The reply for what a finish step returned once it ran.
pub fn reply_of_step<T>(finished: Result<T, ProtocolError>) -> (reply: PrimitiveReply<T>)
    ensures
        reply == step_reply(finished),
{
    match finished {
        Ok(artifact) => PrimitiveReply::Completed(artifact),
        Err(error) => PrimitiveReply::Failed(error),
    }
}

/// Registration finish. The state is examined before the server's message:
/// malformed state text is `MalformedEncoding`, a state that the primitives do
/// not read is `InvalidState`, then a malformed server's message is
/// `MalformedEncoding`; on inputs that are handed on the result is what
/// `register_finish_outcome` makes of the primitives' reply.
pub fn client_register_finish<CS: CipherSuite>(
    client_register_state: &[u8],
    server_message: &[u8],
) -> (r: Result<Vec<u8>, OpaqueError>)
    ensures
        decode_spec(client_register_state@) is None ==> r == Err::<Vec<u8>, OpaqueError>(
            OpaqueError::MalformedEncoding,
        ),
        exists|state_reads: bool, reply: PrimitiveReply<Vec<u8>>|
            r == finish_decision(
                client_register_state@,
                server_message@,
                state_reads,
                register_finish_outcome(reply),
            ),
{
    let ghost none = register_finish_outcome(PrimitiveReply::StateRejected);
    let state = match decode(client_register_state) {
        Ok(bytes) => bytes,
        Err(e) => {
            let r = Err(e);
            assert(r == finish_decision(client_register_state@, server_message@, false, none));
            return r;
        },
    };
    let state_reads = registration_state_parses::<CS>(state.as_slice());
    match finish_inputs(state, state_reads, server_message) {
        Ok(inputs) => {
            let reply = registration_reply::<CS>(&inputs);
            let r = register_finish_result(reply);
            assert(r == finish_decision(
                client_register_state@,
                server_message@,
                state_reads,
                register_finish_outcome(reply),
            ));
            r
        },
        Err(e) => {
            let r = Err(e);
            assert(r == finish_decision(
                client_register_state@,
                server_message@,
                state_reads,
                none,
            ));
            r
        },
    }
}

/// Login finish. The state is examined before the server's message: malformed
/// state text is `MalformedEncoding`, a state that the primitives do not read
/// is `InvalidState`, then a malformed server's message is
/// `MalformedEncoding`; on inputs that are handed on the result is what
/// `login_finish_outcome` makes of the primitives' reply.
pub fn client_login_finish<CS: CipherSuite>(
    client_login_state: &[u8],
    server_message: &[u8],
) -> (r: Result<LoginArtifacts, OpaqueError>)
    ensures
        decode_spec(client_login_state@) is None ==> r == Err::<LoginArtifacts, OpaqueError>(
            OpaqueError::MalformedEncoding,
        ),
        exists|state_reads: bool, reply: PrimitiveReply<LoginArtifacts>|
            r == finish_decision(
                client_login_state@,
                server_message@,
                state_reads,
                login_finish_outcome(reply),
            ),
{
    let ghost none = login_finish_outcome(PrimitiveReply::StateRejected);
    let state = match decode(client_login_state) {
        Ok(bytes) => bytes,
        Err(e) => {
            let r = Err(e);
            assert(r == finish_decision(client_login_state@, server_message@, false, none));
            return r;
        },
    };
    let state_reads = login_state_parses::<CS>(state.as_slice());
    match finish_inputs(state, state_reads, server_message) {
        Ok(inputs) => {
            let reply = login_reply::<CS>(&inputs);
            let r = login_finish_result(reply);
            assert(r == finish_decision(
                client_login_state@,
                server_message@,
                state_reads,
                login_finish_outcome(reply),
            ));
            r
        },
        Err(e) => {
            let r = Err(e);
            assert(r == finish_decision(client_login_state@, server_message@, state_reads, none));
            r
        },
    }
}

/// What a start step on a password leaves at the boundary, given what the
/// primitives returned: `start_effect`, of artifacts whose state ends with
/// the password.
pub open spec fn start_c_effect(
    password: Seq<u8>,
    started: Result<StartArtifacts, ProtocolError>,
    before: MessageState,
    status: OpaqueStatus,
    now: MessageState,
) -> bool {
    &&& started matches Ok(artifacts) ==> ends_with(artifacts.state@, password)
    &&& start_effect(started, before, status, now)
}

/// What a registration finish on two texts leaves at the boundary, given
/// whether the primitives read the state and what they replied: where no
/// inputs are handed on, a failed call and the slot as it was; else
/// `register_finish_effect`.
pub open spec fn register_finish_c_effect(
    state_text: Seq<u8>,
    server_message_text: Seq<u8>,
    state_reads: bool,
    reply: PrimitiveReply<Vec<u8>>,
    before: Option<Vec<u8>>,
    status: OpaqueStatus,
    now: Option<Vec<u8>>,
) -> bool {
    if finish_admitted(state_text, server_message_text, state_reads) {
        register_finish_effect(reply, before, status, now)
    } else {
        status == OpaqueStatus::Failure && now == before
    }
}

/// What a login finish on two texts leaves at the boundary, given whether the
/// primitives read the state and what they replied: where no inputs are
/// handed on, a failed call and the slots as they were; else
/// `login_finish_effect`.
pub open spec fn login_finish_c_effect(
    state_text: Seq<u8>,
    server_message_text: Seq<u8>,
    state_reads: bool,
    reply: PrimitiveReply<LoginArtifacts>,
    before: MessageSession,
    status: OpaqueStatus,
    now: MessageSession,
) -> bool {
    if finish_admitted(state_text, server_message_text, state_reads) {
        login_finish_effect(reply, before, status, now)
    } else {
        status == OpaqueStatus::Failure && now == before
    }
}

/// register-start at the boundary: what `store_start` leaves of whatever the
/// primitives returned for the password.
pub fn client_register_c<CS: CipherSuite>(
    password: &[u8],
    message_state: &mut MessageState,
) -> (status: OpaqueStatus)
    ensures
        exists|started: Result<StartArtifacts, ProtocolError>|
            start_c_effect(
                password@,
                started,
                *old(message_state),
                status,
                *final(message_state),
            ),
{
    let started = registration_start::<CS>(password);
    let ghost made = started;
    let status = store_start(started, false, message_state);
    assert(start_c_effect(password@, made, *old(message_state), status, *message_state));
    status
}

/// login-start at the boundary: what `store_start` leaves of whatever the
/// primitives returned for the password.
pub fn client_login_c<CS: CipherSuite>(
    password: &[u8],
    message_state: &mut MessageState,
) -> (status: OpaqueStatus)
    ensures
        exists|started: Result<StartArtifacts, ProtocolError>|
            start_c_effect(
                password@,
                started,
                *old(message_state),
                status,
                *final(message_state),
            ),
{
    let started = login_start::<CS>(password);
    let ghost made = started;
    let status = store_start(started, true, message_state);
    assert(start_c_effect(password@, made, *old(message_state), status, *message_state));
    status
}

/// register-finish at the boundary. The state is examined before the server's
/// message. Malformed state text, a state that the primitives do not read, and
/// then a malformed server's message each fail the call with the slot
/// untouched; on inputs that are handed on the slot holds what
/// `store_registration_record` leaves of the primitives' reply.
pub fn client_register_finish_c<CS: CipherSuite>(
    client_register_state: &[u8],
    server_message: &[u8],
    new_message_buffer: &mut Option<Vec<u8>>,
) -> (status: OpaqueStatus)
    ensures
        decode_spec(client_register_state@) is None ==> status == OpaqueStatus::Failure
            && *final(new_message_buffer) == *old(new_message_buffer),
        exists|state_reads: bool, reply: PrimitiveReply<Vec<u8>>|
            register_finish_c_effect(
                client_register_state@,
                server_message@,
                state_reads,
                reply,
                *old(new_message_buffer),
                status,
                *final(new_message_buffer),
            ),
{
    let ghost before = *new_message_buffer;
    let ghost none = PrimitiveReply::<Vec<u8>>::StateRejected;
    let state = match decode(client_register_state) {
        Ok(bytes) => bytes,
        Err(_) => {
            assert(register_finish_c_effect(
                client_register_state@,
                server_message@,
                false,
                none,
                before,
                OpaqueStatus::Failure,
                *new_message_buffer,
            ));
            return OpaqueStatus::Failure;
        },
    };
    let state_reads = registration_state_parses::<CS>(state.as_slice());
    match finish_inputs(state, state_reads, server_message) {
        Ok(inputs) => {
            let reply = registration_reply::<CS>(&inputs);
            let ghost made = reply;
            let status = store_registration_record(reply, new_message_buffer);
            assert(register_finish_c_effect(
                client_register_state@,
                server_message@,
                state_reads,
                made,
                before,
                status,
                *new_message_buffer,
            ));
            status
        },
        Err(_) => {
            assert(register_finish_c_effect(
                client_register_state@,
                server_message@,
                state_reads,
                none,
                before,
                OpaqueStatus::Failure,
                *new_message_buffer,
            ));
            OpaqueStatus::Failure
        },
    }
}

/// login-finish at the boundary. The state is examined before the server's
/// message. Malformed state text, a state that the primitives do not read, and
/// then a malformed server's message each fail the call with both slots
/// untouched; on inputs that are handed on the slots hold what
/// `store_login_session` leaves of the primitives' reply.
pub fn client_login_finish_c<CS: CipherSuite>(
    client_login_state: &[u8],
    server_message: &[u8],
    message_session: &mut MessageSession,
) -> (status: OpaqueStatus)
    ensures
        decode_spec(client_login_state@) is None ==> status == OpaqueStatus::Failure
            && *final(message_session) == *old(message_session),
        exists|state_reads: bool, reply: PrimitiveReply<LoginArtifacts>|
            login_finish_c_effect(
                client_login_state@,
                server_message@,
                state_reads,
                reply,
                *old(message_session),
                status,
                *final(message_session),
            ),
{
    let ghost before = *message_session;
    let ghost none = PrimitiveReply::<LoginArtifacts>::StateRejected;
    let state = match decode(client_login_state) {
        Ok(bytes) => bytes,
        Err(_) => {
            assert(login_finish_c_effect(
                client_login_state@,
                server_message@,
                false,
                none,
                before,
                OpaqueStatus::Failure,
                *message_session,
            ));
            return OpaqueStatus::Failure;
        },
    };
    let state_reads = login_state_parses::<CS>(state.as_slice());
    match finish_inputs(state, state_reads, server_message) {
        Ok(inputs) => {
            let reply = login_reply::<CS>(&inputs);
            let ghost made = reply;
            let status = store_login_session(reply, message_session);
            assert(login_finish_c_effect(
                client_login_state@,
                server_message@,
                state_reads,
                made,
                before,
                status,
                *message_session,
            ));
            status
        },
        Err(_) => {
            assert(login_finish_c_effect(
                client_login_state@,
                server_message@,
                state_reads,
                none,
                before,
                OpaqueStatus::Failure,
                *message_session,
            ));
            OpaqueStatus::Failure
        },
    }
}

/// A reply that does not verify under the password is `AuthenticationFailed`:
/// the login yields no session key, and at the boundary the call fails with
/// both slots as they were.
pub proof fn lemma_unverified_login_yields_no_key(
    error: ProtocolError,
    before: MessageSession,
    status: OpaqueStatus,
    now: MessageSession,
)
    requires
        is_verification_failure(failure_kind(error)),
        login_finish_effect(PrimitiveReply::Failed(error), before, status, now),
    ensures
        login_finish_outcome(PrimitiveReply::Failed(error)) == Err::<
            LoginArtifacts,
            OpaqueError,
        >(OpaqueError::AuthenticationFailed),
        status == OpaqueStatus::Failure,
        now == before,
{
}

/// State text with a byte outside the alphabet refuses a finish step as
/// `MalformedEncoding`, whatever the server's message and the primitives.
pub proof fn lemma_text_outside_alphabet_refused<T>(
    state_text: Seq<u8>,
    server_message_text: Seq<u8>,
    i: int,
    state_reads: bool,
    outcome: Result<T, OpaqueError>,
)
    requires
        0 <= i < state_text.len(),
        !is_symbol(state_text[i]),
    ensures
        !finish_admitted(state_text, server_message_text, state_reads),
        finish_decision(state_text, server_message_text, state_reads, outcome) == Err::<
            T,
            OpaqueError,
        >(OpaqueError::MalformedEncoding),
{
    lemma_outside_alphabet_undecodable(state_text, i);
}

/// The state is examined before the server's message: state text that decodes
/// to a state that the primitives do not read refuses a finish step as
/// `InvalidState`, whatever the server's message holds.
pub proof fn lemma_state_examined_first<T>(
    state_text: Seq<u8>,
    server_message_text: Seq<u8>,
    outcome: Result<T, OpaqueError>,
)
    requires
        decode_spec(state_text) is Some,
    ensures
        !finish_admitted(state_text, server_message_text, false),
        finish_decision(state_text, server_message_text, false, outcome) == Err::<
            T,
            OpaqueError,
        >(OpaqueError::InvalidState),
{
}

/// Once the state has decoded and read, a server's message with a byte
/// outside the alphabet refuses a finish step as `MalformedEncoding`.
pub proof fn lemma_server_message_outside_alphabet_refused<T>(
    state_text: Seq<u8>,
    server_message_text: Seq<u8>,
    i: int,
    outcome: Result<T, OpaqueError>,
)
    requires
        decode_spec(state_text) is Some,
        0 <= i < server_message_text.len(),
        !is_symbol(server_message_text[i]),
    ensures
        !finish_admitted(state_text, server_message_text, true),
        finish_decision(state_text, server_message_text, true, outcome) == Err::<T, OpaqueError>(
            OpaqueError::MalformedEncoding,
        ),
{
    lemma_outside_alphabet_undecodable(server_message_text, i);
}

} // verus!
