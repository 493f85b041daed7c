//! One run of a flow, from idle through started to completed, which lets a
//! client state be taken to the primitives once and no more.

use vstd::prelude::*;
use opaque_ke::ciphersuite::CipherSuite;
use opaque_ke::errors::ProtocolError;
use crate::encoding::{decode, decode_spec};
use crate::flow::{
    finish_admitted, finish_inputs, finish_inputs_spec, login_finish_effect, login_reply,
    register_finish_effect, registration_reply, start_c_effect, start_effect,
    store_login_session,
    store_registration_record, store_start, FinishInputs, PrimitiveReply,
};
use crate::slot::{MessageSession, MessageState};
use crate::status::{LoginArtifacts, OpaqueError, OpaqueStatus, StartArtifacts};
use crate::suite::{
    login_start, login_state_parses, registration_start, registration_state_parses,
};

verus! {

/// Which of the two flows an instance runs.
#[derive(Clone, Copy, Debug, PartialEq, Eq, Structural)]
pub enum FlowKind {
    Registration,
    Login,
}

/// How far an instance has come. `Completed` is terminal.
#[derive(Clone, Copy, Debug, PartialEq, Eq, Structural)]
pub enum FlowPhase {
    Idle,
    Started,
    Completed,
}

/// One run of one flow.
pub struct ClientFlow {
    kind: FlowKind,
    phase: FlowPhase,
}

/// The phase after a start step that was called in `phase` and ended with
/// `status`: only an idle instance starts, and only a start that succeeded.
pub open spec fn phase_after_start(phase: FlowPhase, status: OpaqueStatus) -> FlowPhase {
    if phase == FlowPhase::Idle && status == OpaqueStatus::Success {
        FlowPhase::Started
    } else {
        phase
    }
}

/// The phase after the inputs of a finish step were asked for in `phase`, and
/// what the asking returns. Only a started instance hands its state on, and it
/// is completed by doing so; a state that the primitives do not read, and
/// after that a malformed server's message, hand nothing on and leave the
/// instance started.
pub open spec fn finish_step(
    phase: FlowPhase,
    state: Seq<u8>,
    state_reads: bool,
    server_message_text: Seq<u8>,
) -> (FlowPhase, Result<(Seq<u8>, Seq<u8>), OpaqueError>) {
    if phase != FlowPhase::Started {
        (phase, Err(OpaqueError::InvalidState))
    } else {
        match finish_inputs_spec(state, state_reads, server_message_text) {
            Ok(inputs) => (FlowPhase::Completed, Ok(inputs)),
            Err(e) => (FlowPhase::Started, Err(e)),
        }
    }
}

/// Whether a finish step of the flow `wanted` on two texts, asked of an
/// instance of the flow `kind` in `phase`, comes to hand inputs on, given
/// whether the primitives read the state. A step of the other flow, an
/// instance that is not started, and state text that is malformed hand nothing
/// on; after that `finish_step` decides.
pub open spec fn finish_gate(
    kind: FlowKind,
    wanted: FlowKind,
    phase: FlowPhase,
    state_text: Seq<u8>,
    server_message_text: Seq<u8>,
    state_reads: bool,
) -> bool {
    kind == wanted && phase == FlowPhase::Started && finish_admitted(
        state_text,
        server_message_text,
        state_reads,
    )
}

/// The phase after a finish step: completed where inputs were handed on, and
/// as it was where not.
pub open spec fn phase_after_finish(phase: FlowPhase, handed_on: bool) -> FlowPhase {
    if handed_on {
        FlowPhase::Completed
    } else {
        phase
    }
}

/// What a registration finish of an instance leaves, given whether the
/// primitives read the state and what they replied.
pub open spec fn registration_finished(
    kind: FlowKind,
    phase: FlowPhase,
    state_text: Seq<u8>,
    server_message_text: Seq<u8>,
    state_reads: bool,
    reply: PrimitiveReply<Vec<u8>>,
    before: Option<Vec<u8>>,
    status: OpaqueStatus,
    now: Option<Vec<u8>>,
    phase_now: FlowPhase,
) -> bool {
    let handed_on = finish_gate(
        kind,
        FlowKind::Registration,
        phase,
        state_text,
        server_message_text,
        state_reads,
    );
    &&& phase_now == phase_after_finish(phase, handed_on)
    &&& if handed_on {
        register_finish_effect(reply, before, status, now)
    } else {
        status == OpaqueStatus::Failure && now == before
    }
}

/// What a login finish of an instance leaves, given whether the primitives
/// read the state and what they replied.
pub open spec fn login_finished(
    kind: FlowKind,
    phase: FlowPhase,
    state_text: Seq<u8>,
    server_message_text: Seq<u8>,
    state_reads: bool,
    reply: PrimitiveReply<LoginArtifacts>,
    before: MessageSession,
    status: OpaqueStatus,
    now: MessageSession,
    phase_now: FlowPhase,
) -> bool {
    let handed_on = finish_gate(
        kind,
        FlowKind::Login,
        phase,
        state_text,
        server_message_text,
        state_reads,
    );
    &&& phase_now == phase_after_finish(phase, handed_on)
    &&& if handed_on {
        login_finish_effect(reply, before, status, now)
    } else {
        status == OpaqueStatus::Failure && now == before
    }
}

impl ClientFlow {
    /// The flow that this instance runs.
    pub closed spec fn flow_kind(&self) -> FlowKind {
        self.kind
    }

    /// How far this instance has come.
    pub closed spec fn flow_phase(&self) -> FlowPhase {
        self.phase
    }

    /// An idle instance of a flow.
    pub fn new(kind: FlowKind) -> (flow: ClientFlow)
        ensures
            flow.flow_kind() == kind,
            flow.flow_phase() == FlowPhase::Idle,
    {
        ClientFlow { kind, phase: FlowPhase::Idle }
    }

    /// The flow that this instance runs.
    pub fn kind(&self) -> (kind: FlowKind)
        ensures
            kind == self.flow_kind(),
    {
        self.kind
    }

    /// How far this instance has come.
    pub fn phase(&self) -> (phase: FlowPhase)
        ensures
            phase == self.flow_phase(),
    {
        self.phase
    }

    /// The start step of this instance's flow, given what the primitives
    /// returned. An instance that is not idle fails the call and writes
    /// nothing; an idle one hands the artifacts to the slots and is started
    /// once both were written.
    pub fn start_with(
        &mut self,
        started: Result<StartArtifacts, ProtocolError>,
        message_state: &mut MessageState,
    ) -> (status: OpaqueStatus)
        ensures
            final(self).flow_kind() == old(self).flow_kind(),
            final(self).flow_phase() == phase_after_start(old(self).flow_phase(), status),
            old(self).flow_phase() == FlowPhase::Idle ==> start_effect(
                started,
                *old(message_state),
                status,
                *final(message_state),
            ),
            old(self).flow_phase() != FlowPhase::Idle ==> status == OpaqueStatus::Failure
                && *final(message_state) == *old(message_state),
    {
        match self.phase {
            FlowPhase::Idle => {
                let login = match self.kind {
                    FlowKind::Registration => false,
                    FlowKind::Login => true,
                };
                let status = store_start(started, login, message_state);
                match status {
                    OpaqueStatus::Success => {
                        self.phase = FlowPhase::Started;
                    },
                    OpaqueStatus::Failure => {},
                }
                status
            },
            _ => OpaqueStatus::Failure,
        }
    }

    /// The start step of this instance's flow on a password. An instance that
    /// is not idle fails the call before the primitives are asked, and writes
    /// nothing; for an idle one the primitives draw fresh randomness, and the
    /// call leaves what `start_with` leaves of whatever they returned.
    pub fn start<CS: CipherSuite>(
        &mut self,
        password: &[u8],
        message_state: &mut MessageState,
    ) -> (status: OpaqueStatus)
        ensures
            final(self).flow_kind() == old(self).flow_kind(),
            final(self).flow_phase() == phase_after_start(old(self).flow_phase(), status),
            old(self).flow_phase() == FlowPhase::Idle ==> exists|
                started: Result<StartArtifacts, ProtocolError>,
            |
                start_c_effect(
                    password@,
                    started,
                    *old(message_state),
                    status,
                    *final(message_state),
                ),
            old(self).flow_phase() != FlowPhase::Idle ==> status == OpaqueStatus::Failure
                && *final(message_state) == *old(message_state),
    {
        match self.phase {
            FlowPhase::Idle => {
                let started = match self.kind {
                    FlowKind::Registration => registration_start::<CS>(password),
                    FlowKind::Login => login_start::<CS>(password),
                };
                let ghost made = started;
                let status = self.start_with(started, message_state);
                assert(start_c_effect(
                    password@,
                    made,
                    *old(message_state),
                    status,
                    *message_state,
                ));
                status
            },
            _ => OpaqueStatus::Failure,
        }
    }

    /// The inputs of this instance's finish step, from the decoded state,
    /// whether the primitives read it, and the text of the server's message.
    /// An instance that is not started refuses with `InvalidState`; a state
    /// that does not read, and after that a malformed server's message, refuse
    /// and use nothing up; inputs that are handed out complete the instance.
    pub fn finish_inputs(
        &mut self,
        state: Vec<u8>,
        state_reads: bool,
        server_message_text: &[u8],
    ) -> (r: Result<FinishInputs, OpaqueError>)
        ensures
            final(self).flow_kind() == old(self).flow_kind(),
            final(self).flow_phase() == finish_step(
                old(self).flow_phase(),
                state@,
                state_reads,
                server_message_text@,
            ).0,
            match r {
                Ok(inputs) => finish_step(
                    old(self).flow_phase(),
                    state@,
                    state_reads,
                    server_message_text@,
                ).1 == Ok::<(Seq<u8>, Seq<u8>), OpaqueError>(
                    (inputs.state@, inputs.server_message@),
                ),
                Err(e) => finish_step(
                    old(self).flow_phase(),
                    state@,
                    state_reads,
                    server_message_text@,
                ).1 == Err::<(Seq<u8>, Seq<u8>), OpaqueError>(e),
            },
    {
        match self.phase {
            FlowPhase::Started => {
                let r = finish_inputs(state, state_reads, server_message_text);
                if r.is_ok() {
                    self.phase = FlowPhase::Completed;
                }
                r
            },
            _ => Err(OpaqueError::InvalidState),
        }
    }

    /// register-finish of this instance. Only a started registration takes
    /// its state to the primitives; the state is examined before the server's
    /// message, and the instance is completed once inputs are handed on. Any
    /// other instance, and text that hands nothing on, fail the call with the
    /// slot untouched and the phase as it was.
    pub fn finish_registration<CS: CipherSuite>(
        &mut self,
        state_text: &[u8],
        server_message_text: &[u8],
        new_message_buffer: &mut Option<Vec<u8>>,
    ) -> (status: OpaqueStatus)
        ensures
            final(self).flow_kind() == old(self).flow_kind(),
            (old(self).flow_kind() != FlowKind::Registration || old(self).flow_phase()
                != FlowPhase::Started || decode_spec(state_text@) is None) ==> status
                == OpaqueStatus::Failure && *final(new_message_buffer) == *old(new_message_buffer)
                && final(self).flow_phase() == old(self).flow_phase(),
            exists|state_reads: bool, reply: PrimitiveReply<Vec<u8>>|
                registration_finished(
                    old(self).flow_kind(),
                    old(self).flow_phase(),
                    state_text@,
                    server_message_text@,
                    state_reads,
                    reply,
                    *old(new_message_buffer),
                    status,
                    *final(new_message_buffer),
                    final(self).flow_phase(),
                ),
    {
        let ghost before = *new_message_buffer;
        let ghost none = PrimitiveReply::<Vec<u8>>::StateRejected;
        let started = match (self.kind, self.phase) {
            (FlowKind::Registration, FlowPhase::Started) => true,
            _ => false,
        };
        let decoded = if started {
            decode(state_text)
        } else {
            Err(OpaqueError::InvalidState)
        };
        let state = match decoded {
            Ok(bytes) => bytes,
            Err(_) => {
                assert(registration_finished(
                    self.kind,
                    self.phase,
                    state_text@,
                    server_message_text@,
                    false,
                    none,
                    before,
                    OpaqueStatus::Failure,
                    *new_message_buffer,
                    self.phase,
                ));
                return OpaqueStatus::Failure;
            },
        };
        let state_reads = registration_state_parses::<CS>(state.as_slice());
        match self.finish_inputs(state, state_reads, server_message_text) {
            Ok(inputs) => {
                let reply = registration_reply::<CS>(&inputs);
                let ghost made = reply;
                let status = store_registration_record(reply, new_message_buffer);
                assert(registration_finished(
                    old(self).kind,
                    old(self).phase,
                    state_text@,
                    server_message_text@,
                    state_reads,
                    made,
                    before,
                    status,
                    *new_message_buffer,
                    self.phase,
                ));
                status
            },
            Err(_) => {
                assert(registration_finished(
                    old(self).kind,
                    old(self).phase,
                    state_text@,
                    server_message_text@,
                    state_reads,
                    none,
                    before,
                    OpaqueStatus::Failure,
                    *new_message_buffer,
                    self.phase,
                ));
                OpaqueStatus::Failure
            },
        }
    }

    /// login-finish of this instance. Only a started login takes its state to
    /// the primitives; the state is examined before the server's message, and
    /// the instance is completed once inputs are handed on. Any other
    /// instance, and text that hands nothing on, fail the call with both slots
    /// untouched and the phase as it was.
    pub fn finish_login<CS: CipherSuite>(
        &mut self,
        state_text: &[u8],
        server_message_text: &[u8],
        message_session: &mut MessageSession,
    ) -> (status: OpaqueStatus)
        ensures
            final(self).flow_kind() == old(self).flow_kind(),
            (old(self).flow_kind() != FlowKind::Login || old(self).flow_phase()
                != FlowPhase::Started || decode_spec(state_text@) is None) ==> status
                == OpaqueStatus::Failure && *final(message_session) == *old(message_session)
                && final(self).flow_phase() == old(self).flow_phase(),
            exists|state_reads: bool, reply: PrimitiveReply<LoginArtifacts>|
                login_finished(
                    old(self).flow_kind(),
                    old(self).flow_phase(),
                    state_text@,
                    server_message_text@,
                    state_reads,
                    reply,
                    *old(message_session),
                    status,
                    *final(message_session),
                    final(self).flow_phase(),
                ),
    {
        let ghost before = *message_session;
        let ghost none = PrimitiveReply::<LoginArtifacts>::StateRejected;
        let started = match (self.kind, self.phase) {
            (FlowKind::Login, FlowPhase::Started) => true,
            _ => false,
        };
        let decoded = if started {
            decode(state_text)
        } else {
            Err(OpaqueError::InvalidState)
        };
        let state = match decoded {
            Ok(bytes) => bytes,
            Err(_) => {
                assert(login_finished(
                    self.kind,
                    self.phase,
                    state_text@,
                    server_message_text@,
                    false,
                    none,
                    before,
                    OpaqueStatus::Failure,
                    *message_session,
                    self.phase,
                ));
                return OpaqueStatus::Failure;
            },
        };
        let state_reads = login_state_parses::<CS>(state.as_slice());
        match self.finish_inputs(state, state_reads, server_message_text) {
            Ok(inputs) => {
                let reply = login_reply::<CS>(&inputs);
                let ghost made = reply;
                let status = store_login_session(reply, message_session);
                assert(login_finished(
                    old(self).kind,
                    old(self).phase,
                    state_text@,
                    server_message_text@,
                    state_reads,
                    made,
                    before,
                    status,
                    *message_session,
                    self.phase,
                ));
                status
            },
            Err(_) => {
                assert(login_finished(
                    old(self).kind,
                    old(self).phase,
                    state_text@,
                    server_message_text@,
                    state_reads,
                    none,
                    before,
                    OpaqueStatus::Failure,
                    *message_session,
                    self.phase,
                ));
                OpaqueStatus::Failure
            },
        }
    }
}

/// A client state is handed on at most once: after inputs were handed out,
/// the instance is completed, and whatever is asked of it next is refused
/// with `InvalidState`.
pub proof fn lemma_state_used_once(
    phase: FlowPhase,
    state: Seq<u8>,
    state_reads: bool,
    server_message_text: Seq<u8>,
    next_state: Seq<u8>,
    next_state_reads: bool,
    next_server_message_text: Seq<u8>,
)
    requires
        finish_step(phase, state, state_reads, server_message_text).1 is Ok,
    ensures
        phase == FlowPhase::Started,
        finish_step(phase, state, state_reads, server_message_text).0 == FlowPhase::Completed,
        finish_step(
            FlowPhase::Completed,
            next_state,
            next_state_reads,
            next_server_message_text,
        ) == (
            FlowPhase::Completed,
            Err::<(Seq<u8>, Seq<u8>), OpaqueError>(OpaqueError::InvalidState),
        ),
{
}

/// A finish step that handed a state on leaves an instance that hands on
/// nothing more: every later finish step, of either flow, on any text and
/// whatever the primitives read, is refused and leaves the instance completed.
pub proof fn lemma_finish_is_single_use(
    kind: FlowKind,
    wanted: FlowKind,
    phase: FlowPhase,
    state_text: Seq<u8>,
    server_message_text: Seq<u8>,
    state_reads: bool,
    next_wanted: FlowKind,
    next_state_text: Seq<u8>,
    next_server_message_text: Seq<u8>,
    next_state_reads: bool,
)
    requires
        finish_gate(kind, wanted, phase, state_text, server_message_text, state_reads),
    ensures
        phase_after_finish(phase, true) == FlowPhase::Completed,
        !finish_gate(
            kind,
            next_wanted,
            phase_after_finish(phase, true),
            next_state_text,
            next_server_message_text,
            next_state_reads,
        ),
        phase_after_finish(FlowPhase::Completed, false) == FlowPhase::Completed,
{
}

/// A completed instance stays completed: no start step moves it.
pub proof fn lemma_completed_is_terminal(status: OpaqueStatus)
    ensures
        phase_after_start(FlowPhase::Completed, status) == FlowPhase::Completed,
{
}

} // verus!
