//! Caller-owned output slots of fixed capacity, and the writing of
//! terminated text into them.

use vstd::prelude::*;
use crate::encoding::{encode, encode_spec, encoded_len};
use crate::status::{LoginArtifacts, OpaqueError, OpaqueStatus, StartArtifacts};

verus! {

/// The two slots of a start step. A slot that is `None` is unavailable; one
/// that is `Some` is a buffer whose length is its capacity.
pub struct MessageState {
    pub message: Option<Vec<u8>>,
    pub state: Option<Vec<u8>>,
}

/// The two slots of a finished login.
pub struct MessageSession {
    pub message: Option<Vec<u8>>,
    pub session: Option<Vec<u8>>,
}

/// What a slot holds, if it is there.
pub open spec fn slot_view(slot: Option<Vec<u8>>) -> Option<Seq<u8>> {
    match slot {
        Some(buffer) => Some(buffer@),
        None => None,
    }
}

/// Whether a slot is there and has room for a text and its terminator.
pub open spec fn slot_takes(slot: Option<Vec<u8>>, text: Seq<u8>) -> bool {
    slot matches Some(buffer) && text.len() < buffer@.len()
}

/// A buffer after a text was written at its start: the text, one zero byte,
/// and behind it what the buffer held before.
pub open spec fn filled(buffer: Seq<u8>, text: Seq<u8>) -> Seq<u8>
    recommends
        text.len() < buffer.len(),
{
    text + seq![0u8] + buffer.skip(text.len() as int + 1)
}

/// What a slot holds after an attempt to write a text into it: the filled
/// buffer where the slot takes the text, and what it held before where not.
pub open spec fn slot_after(slot: Option<Vec<u8>>, text: Seq<u8>) -> Option<Seq<u8>> {
    match slot {
        Some(buffer) => Some(
            if text.len() < buffer@.len() {
                filled(buffer@, text)
            } else {
                buffer@
            },
        ),
        None => None,
    }
}

/// Whether two slots take two texts, one each.
pub open spec fn pair_takes(
    first: Option<Vec<u8>>,
    second: Option<Vec<u8>>,
    first_text: Seq<u8>,
    second_text: Seq<u8>,
) -> bool {
    slot_takes(first, first_text) && slot_takes(second, second_text)
}

/// What the second of two slots holds after the two writes were attempted in
/// order: the second is attempted only once the first has succeeded.
pub open spec fn second_after(
    first: Option<Vec<u8>>,
    second: Option<Vec<u8>>,
    first_text: Seq<u8>,
    second_text: Seq<u8>,
) -> Option<Seq<u8>> {
    if slot_takes(first, first_text) {
        slot_after(second, second_text)
    } else {
        slot_view(second)
    }
}

fn write_terminated(src: &[u8], buffer: &mut Vec<u8>)
    requires
        src@.len() < old(buffer)@.len(),
    ensures
        final(buffer)@ == filled(old(buffer)@, src@),
{
    let n: usize = src.len();
    let mut i: usize = 0;
    while i < n
        invariant
            n == src@.len(),
            n < old(buffer)@.len(),
            i <= n,
            buffer@.len() == old(buffer)@.len(),
            forall|j: int| 0 <= j < i ==> buffer@[j] == src@[j],
            forall|j: int| i <= j < buffer@.len() ==> buffer@[j] == old(buffer)@[j],
        decreases n - i,
    {
        buffer.set(i, src[i]);
        i += 1;
    }
    buffer.set(n, 0);
    assert(buffer@ =~= filled(old(buffer)@, src@));
}

/// Writes a text and one terminating zero byte at the start of a slot. An
/// absent slot, or one without room for both, refuses the write as
/// `DestinationUnavailable` and is left as it was; the slot's capacity never
/// changes.
pub fn store_text(src: &[u8], dst: &mut Option<Vec<u8>>) -> (r: Result<(), OpaqueError>)
    ensures
        r == if slot_takes(*old(dst), src@) {
            Ok::<(), OpaqueError>(())
        } else {
            Err::<(), OpaqueError>(OpaqueError::DestinationUnavailable)
        },
        slot_view(*final(dst)) == slot_after(*old(dst), src@),
{
    match dst {
        Some(buffer) => {
            if src.len() < buffer.len() {
                write_terminated(src, buffer);
                Ok(())
            } else {
                Err(OpaqueError::DestinationUnavailable)
            }
        },
        None => Err(OpaqueError::DestinationUnavailable),
    }
}

/// `store_text` with its result collapsed to the status of the boundary.
pub fn copy_cstr(src: &[u8], dst: &mut Option<Vec<u8>>) -> (status: OpaqueStatus)
    ensures
        status == if slot_takes(*old(dst), src@) {
            OpaqueStatus::Success
        } else {
            OpaqueStatus::Failure
        },
        slot_view(*final(dst)) == slot_after(*old(dst), src@),
{
    match store_text(src, dst) {
        Ok(_) => OpaqueStatus::Success,
        Err(_) => OpaqueStatus::Failure,
    }
}

/// What holds after two texts were written into two slots, the first before
/// the second: the status is success exactly where both slots took their text,
/// the first slot holds what one attempted write leaves, and the second was
/// attempted only once the first had succeeded.
pub open spec fn pair_stored(
    first_before: Option<Vec<u8>>,
    second_before: Option<Vec<u8>>,
    first_text: Seq<u8>,
    second_text: Seq<u8>,
    status: OpaqueStatus,
    first_now: Option<Vec<u8>>,
    second_now: Option<Vec<u8>>,
) -> bool {
    &&& status == if pair_takes(first_before, second_before, first_text, second_text) {
        OpaqueStatus::Success
    } else {
        OpaqueStatus::Failure
    }
    &&& slot_view(first_now) == slot_after(first_before, first_text)
    &&& slot_view(second_now) == second_after(
        first_before,
        second_before,
        first_text,
        second_text,
    )
}

/// The number of bytes a slot needs for the encoded text of `n` bytes and its
/// terminator, where that number fits the machine.
pub fn slot_capacity_for(n: usize) -> (room: Option<usize>)
    ensures
        room == if encoded_len(n as int) + 1 <= usize::MAX {
            Some((encoded_len(n as int) + 1) as usize)
        } else {
            None::<usize>
        },
{
    let groups: usize = n / 3;
    let rest: usize = n % 3;
    let tail: usize = if rest == 0 {
        1
    } else {
        rest + 2
    };
    if groups > (usize::MAX - tail) / 4 {
        None
    } else {
        Some(groups * 4 + tail)
    }
}

fn store_pair(
    first_text: &[u8],
    second_text: &[u8],
    first: &mut Option<Vec<u8>>,
    second: &mut Option<Vec<u8>>,
) -> (status: OpaqueStatus)
    ensures
        pair_stored(
            *old(first),
            *old(second),
            first_text@,
            second_text@,
            status,
            *final(first),
            *final(second),
        ),
{
    match copy_cstr(first_text, first) {
        OpaqueStatus::Failure => OpaqueStatus::Failure,
        OpaqueStatus::Success => copy_cstr(second_text, second),
    }
}

/// Hands the artifacts of a registration start to the caller: the encoded
/// message into the message slot, then the encoded state into the state slot.
pub fn update_registration_message_state(
    reg_start_result: StartArtifacts,
    message_state: &mut MessageState,
) -> (status: OpaqueStatus)
    ensures
        pair_stored(
            old(message_state).message,
            old(message_state).state,
            encode_spec(reg_start_result.message@),
            encode_spec(reg_start_result.state@),
            status,
            final(message_state).message,
            final(message_state).state,
        ),
{
    let message_encoded = encode(reg_start_result.message.as_slice());
    let state_encoded = encode(reg_start_result.state.as_slice());
    store_pair(
        message_encoded.as_slice(),
        state_encoded.as_slice(),
        &mut message_state.message,
        &mut message_state.state,
    )
}

/// Hands the artifacts of a login start to the caller: the encoded message
/// into the message slot, then the encoded state into the state slot.
pub fn update_login_message_state(
    login_start_result: StartArtifacts,
    message_state: &mut MessageState,
) -> (status: OpaqueStatus)
    ensures
        pair_stored(
            old(message_state).message,
            old(message_state).state,
            encode_spec(login_start_result.message@),
            encode_spec(login_start_result.state@),
            status,
            final(message_state).message,
            final(message_state).state,
        ),
{
    let message_encoded = encode(login_start_result.message.as_slice());
    let state_encoded = encode(login_start_result.state.as_slice());
    store_pair(
        message_encoded.as_slice(),
        state_encoded.as_slice(),
        &mut message_state.message,
        &mut message_state.state,
    )
}

/// Hands the artifacts of a finished login to the caller: the encoded message
/// into the message slot, then the encoded session key into the session slot.
pub fn update_message_session(
    login_finish_result: LoginArtifacts,
    message_session: &mut MessageSession,
) -> (status: OpaqueStatus)
    ensures
        pair_stored(
            old(message_session).message,
            old(message_session).session,
            encode_spec(login_finish_result.message@),
            encode_spec(login_finish_result.session_key@),
            status,
            final(message_session).message,
            final(message_session).session,
        ),
{
    let message_encoded = encode(login_finish_result.message.as_slice());
    let session_encoded = encode(login_finish_result.session_key.as_slice());
    store_pair(
        message_encoded.as_slice(),
        session_encoded.as_slice(),
        &mut message_session.message,
        &mut message_session.session,
    )
}

/// A write into an absent slot fails and changes nothing, and where the first
/// of two slots is absent the second is left as it was, whatever the texts.
pub proof fn lemma_absent_slot_writes_nothing(
    first: Option<Vec<u8>>,
    second: Option<Vec<u8>>,
    first_text: Seq<u8>,
    second_text: Seq<u8>,
)
    requires
        first is None,
    ensures
        !slot_takes(first, first_text),
        slot_after(first, first_text) == slot_view(first),
        forall|status: OpaqueStatus, first_now: Option<Vec<u8>>, second_now: Option<Vec<u8>>|
            pair_stored(first, second, first_text, second_text, status, first_now, second_now)
                ==> status == OpaqueStatus::Failure && slot_view(first_now) == slot_view(first)
                && slot_view(second_now) == slot_view(second),
{
}

/// A write that fails, for want of the slot or of room in it, leaves the slot
/// holding what it held.
pub proof fn lemma_failed_write_keeps_slot(slot: Option<Vec<u8>>, text: Seq<u8>)
    requires
        !slot_takes(slot, text),
    ensures
        slot_after(slot, text) == slot_view(slot),
{
}

} // verus!
