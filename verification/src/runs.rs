//! Whole operations of the attested-channel module: a start followed by the
//! events that the channel reports, and what holds of the key cache and of
//! the outcome whatever the channel does.

use vstd::prelude::*;
use crate::eaa_kbc::{
    annotation_of_text, channel_live, decrypt_begun, event_handled, kek_fetch_begun,
    keks_received, ChannelState, EaaModel, EventModel, StepModel,
};
use crate::error::DecryptFailure;
use crate::exchange::{kek_reply, payload_outcome, remote_message, version_reply};
use crate::protocol::Answer;

verus! {

/// The module and its last step after the events were fed to it one by one,
/// for as long as it asked for more.
pub open spec fn run(at: (EaaModel, StepModel), events: Seq<EventModel>) -> (EaaModel, StepModel)
    decreases events.len(),
{
    if events.len() == 0 || !(at.1 is Next) {
        at
    } else {
        run(event_handled(at.0, events[0]), events.drop_first())
    }
}

/// A decryption from its start through the events that the channel reports.
pub open spec fn decrypt_run(s: EaaModel, messages: Seq<char>, events: Seq<EventModel>) -> (
    EaaModel,
    StepModel,
) {
    run(decrypt_begun(s, messages), events)
}

/// Whether a decryption on a fresh channel can be in this state while it asks for more.
pub open spec fn setting_up_or_decrypting(state: ChannelState) -> bool {
    state is Connecting || state is Negotiating || state is VersionExchange || state is Decrypting
}

/// Every start and every event keeps the module's invariant.
pub proof fn lemma_steps_keep_invariant(s: EaaModel, messages: Seq<char>, event: EventModel)
    requires
        s.wf(),
    ensures
        decrypt_begun(s, messages).0.wf(),
        kek_fetch_begun(s).0.wf(),
        event_handled(s, event).0.wf(),
{
}

/// Any failure of the channel leaves the module disconnected and without keys.
pub proof fn lemma_channel_failure_drops_keys(s: EaaModel, event: EventModel)
    requires
        s.wf(),
        event is ConnectFailed || event is NegotiationFailed || event is TransmitFailed
            || event is ReceiveFailed,
    ensures
        event_handled(s, event).0.state is Disconnected,
        event_handled(s, event).0.kek_cache == Map::<Seq<char>, Seq<u8>>::empty(),
        event_handled(s, event).1 is Failed,
{
}

/// Whether the module waits for nothing: it has no channel, or an idle one.
pub open spec fn at_rest(state: ChannelState) -> bool {
    state is Disconnected || state is Ready
}

/// While an operation asks for more the module is under way, and once it
/// has ended the module is at rest.
pub open spec fn in_step(at: (EaaModel, StepModel)) -> bool {
    at.0.wf() && (at.1 is Next <==> !at_rest(at.0.state))
}

/// Feeding events to an operation keeps the module in step with it.
pub proof fn lemma_run_stays_in_step(at: (EaaModel, StepModel), events: Seq<EventModel>)
    requires
        in_step(at),
    ensures
        in_step(run(at, events)),
    decreases events.len(),
{
    if events.len() > 0 && at.1 is Next {
        lemma_run_stays_in_step(event_handled(at.0, events[0]), events.drop_first());
    }
}

/// However a decryption ends, by success or by any failure, it leaves the
/// module at rest and sound, ready for the next request.
pub proof fn lemma_ended_decryption_leaves_module_at_rest(
    s: EaaModel,
    messages: Seq<char>,
    events: Seq<EventModel>,
)
    requires
        s.wf(),
        at_rest(s.state),
        !(decrypt_run(s, messages, events).1 is Next),
    ensures
        decrypt_run(s, messages, events).0.wf(),
        at_rest(decrypt_run(s, messages, events).0.state),
{
    lemma_run_stays_in_step(decrypt_begun(s, messages), events);
}

/// The version that an event grants: the one of a version reply that
/// arrives while the version exchange is under way, and no other.
pub open spec fn version_granted(s: EaaModel, event: EventModel) -> Option<Seq<char>> {
    match (s.state, event) {
        (ChannelState::VersionExchange, EventModel::Received(bytes)) => version_reply(bytes),
        _ => None,
    }
}

/// The protocol version changes only when a version reply grants one: a
/// start, and every event that grants none, leaves it as it was. So a
/// handshake that fails, like any other failure of the channel, keeps the
/// version of the channel before.
pub proof fn lemma_only_granted_version_is_written(
    s: EaaModel,
    messages: Seq<char>,
    event: EventModel,
)
    ensures
        decrypt_begun(s, messages).0.protocol_version == s.protocol_version,
        kek_fetch_begun(s).0.protocol_version == s.protocol_version,
        event_handled(s, event).0.protocol_version == match version_granted(s, event) {
            Some(version) => version,
            None => s.protocol_version,
        },
{
}

/// Where the handshake on a fresh connection fails, the operation ends with
/// a negotiation error, no request is sent, and the module is left without
/// a channel and with the version it had.
pub proof fn lemma_failed_handshake_keeps_version(s: EaaModel, event: EventModel)
    requires
        s.state is Negotiating,
        !(event is Negotiated),
    ensures
        event_handled(s, event).1 == StepModel::Failed(DecryptFailure::NegotiationError),
        event_handled(s, event).0.state is Disconnected,
        event_handled(s, event).0.protocol_version == s.protocol_version,
{
}

/// A reply to a request for keys only adds to the cache: every key that
/// was cached stays cached, with its value unless the reply grants a key of
/// the same id, and the channel stays live.
pub proof fn lemma_kek_reply_keeps_other_keys(s: EaaModel, bytes: Seq<u8>, kid: Seq<char>)
    requires
        s.kek_cache.contains_key(kid),
    ensures
        keks_received(s, bytes).0.kek_cache.contains_key(kid),
        (kek_reply(bytes) matches Ok(keks) && keks.contains_key(kid)) || keks_received(
            s,
            bytes,
        ).0.kek_cache[kid] == s.kek_cache[kid],
        keks_received(s, bytes).0.state is Ready,
        keks_received(s, bytes).0.kbs_url == s.kbs_url,
{
}

/// A decryption never adds a key: while it runs on a channel that it set up,
/// the cache stays empty.
pub proof fn lemma_run_without_keys(at: (EaaModel, StepModel), events: Seq<EventModel>)
    requires
        at.0.wf(),
        at.0.kek_cache == Map::<Seq<char>, Seq<u8>>::empty(),
        at.1 is Next ==> setting_up_or_decrypting(at.0.state),
    ensures
        run(at, events).0.kek_cache == Map::<Seq<char>, Seq<u8>>::empty(),
    decreases events.len(),
{
    if events.len() > 0 && at.1 is Next {
        let next = event_handled(at.0, events[0]);
        lemma_run_without_keys(next, events.drop_first());
    }
}

/// A decryption for the service of the current channel leaves the key cache
/// as it was, provided the channel answers the request: the cache is the
/// same at every point of the run.
pub proof fn lemma_same_service_keeps_keys(
    s: EaaModel,
    messages: Seq<char>,
    events: Seq<EventModel>,
)
    requires
        s.wf(),
        annotation_of_text(messages) matches Some(annotation) && annotation.url == s.kbs_url,
        events.len() > 0 ==> events[0] is Received,
    ensures
        decrypt_run(s, messages, events).0.kek_cache == s.kek_cache,
{
    let begun = decrypt_begun(s, messages);
    if channel_live(s.state) {
        if events.len() > 0 && begun.1 is Next {
            let next = event_handled(begun.0, events[0]);
            assert(!(next.1 is Next));
            assert(run(next, events.drop_first()) == next);
        }
    } else {
        lemma_run_without_keys(begun, events);
    }
}

/// A decryption for another service than that of the current channel leaves
/// the key cache empty, however it ends and at every point on the way.
pub proof fn lemma_other_service_drops_keys(
    s: EaaModel,
    messages: Seq<char>,
    events: Seq<EventModel>,
)
    requires
        s.wf(),
        annotation_of_text(messages) matches Some(annotation) && annotation.url != s.kbs_url,
    ensures
        decrypt_run(s, messages, events).0.kek_cache == Map::<Seq<char>, Seq<u8>>::empty(),
{
    lemma_run_without_keys(decrypt_begun(s, messages), events);
}

/// A malformed annotation ends the decryption at once and changes nothing.
pub proof fn lemma_malformed_annotation_changes_nothing(
    s: EaaModel,
    messages: Seq<char>,
    events: Seq<EventModel>,
)
    requires
        annotation_of_text(messages) is None,
    ensures
        decrypt_run(s, messages, events) == (s, StepModel::Failed(DecryptFailure::ParseError)),
{
}

/// An answer that says `OK` and has no entry for the requested payload, or
/// no data at all, violates the protocol.
pub proof fn lemma_ok_without_payload_violates_protocol(answer: Answer, requested: Seq<char>)
    requires
        answer.status == "OK"@,
        answer.data matches Some(data) ==> !data.contains_key(requested),
    ensures
        payload_outcome(answer, requested) == Err::<Seq<u8>, DecryptFailure>(
            DecryptFailure::ProtocolViolation,
        ),
{
}

/// An answer that says `Fail` is a remote error that carries exactly the
/// service's message.
pub proof fn lemma_fail_carries_remote_message(answer: Answer, requested: Seq<char>)
    requires
        answer.status == "Fail"@,
    ensures
        payload_outcome(answer, requested) == Err::<Seq<u8>, DecryptFailure>(
            DecryptFailure::RemoteError(remote_message(answer)),
        ),
        answer.error matches Some(message) ==> payload_outcome(answer, requested) == Err::<
            Seq<u8>,
            DecryptFailure,
        >(DecryptFailure::RemoteError(message)),
{
    reveal_strlit("OK");
    reveal_strlit("Fail");
    assert("OK"@.len() == 2);
    assert("Fail"@.len() == 4);
}

} // verus!
