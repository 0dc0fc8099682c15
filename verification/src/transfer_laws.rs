//! What holds of every upload from the first chunk to the comparison of
//! the digests.

use vstd::prelude::*;
use crate::digest::first_token_spec;
use crate::transfer::{
    upload_step, UploadAction, UploadEvent, UploadSession, UploadState,
};

verus! {

/// The bytes that the events report as read, in order.
pub open spec fn bytes_read(events: Seq<UploadEvent>) -> Seq<u8>
    decreases events.len(),
{
    if events.len() == 0 {
        Seq::empty()
    } else {
        bytes_read(events.drop_last()) + match events.last() {
            UploadEvent::ChunkRead(bytes) => bytes@,
            _ => Seq::empty(),
        }
    }
}

/// The bytes that the actions ask to write, in order: what the remote
/// file holds once each action has been carried out.
pub open spec fn bytes_written(actions: Seq<UploadAction>) -> Seq<u8>
    decreases actions.len(),
{
    if actions.len() == 0 {
        Seq::empty()
    } else {
        bytes_written(actions.drop_last()) + match actions.last() {
            UploadAction::WriteChunk(bytes) => bytes@,
            _ => Seq::empty(),
        }
    }
}

/// The upload `session` in the state `state`.
pub open spec fn in_state(session: UploadSession, state: UploadState) -> UploadSession {
    UploadSession {
        target: session.target,
        file_name: session.file_name,
        local_hash: session.local_hash,
        state,
    }
}

/// The upload goes through `states` as `events` are reported one after
/// the other, and asks for `actions` in turn.
pub open spec fn is_run(
    session: UploadSession,
    states: Seq<UploadState>,
    events: Seq<UploadEvent>,
    actions: Seq<UploadAction>,
) -> bool {
    &&& states.len() == events.len() + 1
    &&& actions.len() == events.len()
    &&& states[0] == session.state
    &&& forall|i: int|
        0 <= i < events.len() ==> upload_step(
            in_state(session, states[i]),
            #[trigger] events[i],
            states[i + 1],
            actions[i],
        )
}

/// Every event reports a chunk that holds at least one byte.
pub open spec fn all_chunks(events: Seq<UploadEvent>) -> bool {
    forall|i: int|
        0 <= i < events.len() ==> (#[trigger] events[i] matches UploadEvent::ChunkRead(bytes)
            && bytes@.len() > 0)
}

/// Every byte read is written once and in its place: while chunks come
/// in, the bytes asked to be written are, put together, the bytes read,
/// however the bundle is cut into chunks, and the upload goes on
/// transferring.
pub proof fn lemma_written_is_read(
    session: UploadSession,
    states: Seq<UploadState>,
    events: Seq<UploadEvent>,
    actions: Seq<UploadAction>,
)
    requires
        is_run(session, states, events, actions),
        session.state matches UploadState::Transferring { complete: false, .. },
        all_chunks(events),
    ensures
        bytes_written(actions) == bytes_read(events),
        states.last() matches UploadState::Transferring { complete: false, .. },
    decreases events.len(),
{
    if events.len() > 0 {
        let n = events.len() - 1;
        assert(is_run(session, states.drop_last(), events.drop_last(), actions.drop_last())) by {
            assert forall|i: int| 0 <= i < n implies upload_step(
                in_state(session, states.drop_last()[i]),
                #[trigger] events.drop_last()[i],
                states.drop_last()[i + 1],
                actions.drop_last()[i],
            ) by {
                assert(events.drop_last()[i] == events[i]);
            }
        }
        assert(all_chunks(events.drop_last())) by {
            assert forall|i: int| 0 <= i < n implies (
            #[trigger] events.drop_last()[i] matches UploadEvent::ChunkRead(bytes) && bytes@.len()
                > 0) by {
                assert(events.drop_last()[i] == events[i]);
            }
        }
        lemma_written_is_read(
            session,
            states.drop_last(),
            events.drop_last(),
            actions.drop_last(),
        );
        assert(states.drop_last().last() == states[n]);
        assert(upload_step(in_state(session, states[n]), events[n], states[n + 1], actions[n]));
        assert(events.last() == events[n]);
        assert(actions.last() == actions[n]);
    }
}

/// An upload whose bytes arrive as they were sent is verified, however
/// the bundle is cut into chunks. `digest` stands for what the digest
/// tool computes of the bytes of a file. Where the digest known on this
/// side is that of the bytes read, and the tool on the remote side prints
/// that of the bytes written, the end of the bundle leads to the
/// comparison and the comparison to `Verified`: no integrity mismatch is
/// reported.
pub proof fn lemma_faithful_upload_is_verified(
    session: UploadSession,
    states: Seq<UploadState>,
    events: Seq<UploadEvent>,
    actions: Seq<UploadAction>,
    digest: spec_fn(Seq<u8>) -> Seq<char>,
    end: UploadEvent,
    waiting: UploadState,
    asked: UploadAction,
    output: UploadEvent,
    post: UploadState,
    action: UploadAction,
)
    requires
        is_run(session, states, events, actions),
        session.state == (UploadState::Transferring { sent: 0, complete: false }),
        all_chunks(events),
        session.local_hash@ == digest(bytes_read(events)),
        end matches UploadEvent::ChunkRead(bytes) && bytes@.len() == 0,
        upload_step(in_state(session, states.last()), end, waiting, asked),
        output matches UploadEvent::DigestOutput(printed) && first_token_spec(printed@) == digest(
            bytes_written(actions),
        ),
        upload_step(in_state(session, waiting), output, post, action),
    ensures
        asked is RunDigest,
        post == UploadState::Verified,
        action == UploadAction::Done,
{
    lemma_written_is_read(session, states, events, actions);
}

} // verus!
