//! What the bridge does about data, callers, broken connections and sockets that go.

use vstd::prelude::*;

use bytes::Bytes;

use crate::config::SocketStatus;
use crate::epoll_bridge;
use crate::epoll_bridge::commands::IoCommand;
use crate::epoll_bridge::{
    raw_state_to_status, AnswerView, Bridge, CallView, Effect, EffectView, Endpoints, NextView,
    SocketId, SocketView, Sockets, Step, StepView,
};
use crate::error::SrtError;
use crate::laws::commands;
use crate::laws::results;
use crate::laws::status;

verus! {

/// Every socket is listed, each once, and no other is.
pub proof fn law_sockets_are_listed<E: Endpoints>(
    b: &Bridge<E>,
    ids: Vec<SocketId>,
    id: SocketId,
)
    requires
        call_ensures(Bridge::<E>::ids, (b,), ids),
    ensures
        ids@.no_duplicates(),
        ids@.contains(id) <==> b@.contains_key(id),
{
    assert(ids@.to_set().contains(id) <==> b@.dom().contains(id));
}

/// Whether the end of a connection attempt is gone after: who waits for it is taken out,
/// and where somebody does the state is read for them.
pub open spec fn finishes<E: Endpoints>(
    before: Sockets<E>,
    after: Sockets<E>,
    id: SocketId,
    step: StepView<E>,
) -> bool {
    &&& status::others_stay(before, after, id)
    &&& after.contains_key(id) <==> before.contains_key(id)
    &&& before.contains_key(id) ==> after[id] == (SocketView { connect_reply: None, ..before[id] })
    &&& before.contains_key(id) && before[id].connect_reply is Some ==> commands::only_calls(
        step,
        CallView::ReadCompletedConnect { id, reply: before[id].connect_reply->Some_0 },
    )
    &&& !before.contains_key(id) || before[id].connect_reply is None ==> commands::does_nothing(
        step,
    )
}

/// The end of a connection attempt is looked at for whoever waits for it.
pub proof fn law_a_connection_attempt_ends<E: Endpoints>(
    b: &mut Bridge<E>,
    id: SocketId,
    step: Step<E>,
)
    requires
        call_ensures(Bridge::<E>::finish_connect, (b, id), step),
    ensures
        finishes(old(b)@, final(b)@, id, step@),
{
}

/// In the connected state success is answered and the socket is connected; in any other
/// the last error is answered and the socket is broken. The answer comes first.
pub proof fn law_a_connection_attempt_is_answered<E: Endpoints>(
    b: &mut Bridge<E>,
    id: SocketId,
    reply: E::Reply,
    raw: i32,
    step: Step<E>,
)
    requires
        call_ensures(Bridge::<E>::connect_completed, (b, id, reply, raw), step),
    ensures
        step@.next is Done,
        step@.effects.len() >= 1,
        raw == 5 ==> step@.effects[0] == (EffectView::<E>::Answer {
            reply,
            answer: AnswerView::Done(Ok(())),
        }) && status::turns_to(
            old(b)@,
            final(b)@,
            id,
            SocketStatus::Connected,
            results::inner(step@.effects, 1, 0),
        ),
        raw != 5 ==> step@.effects[0] == (EffectView::<E>::AnswerLastError { reply })
            && status::turns_to(
            old(b)@,
            final(b)@,
            id,
            SocketStatus::Broken,
            results::inner(step@.effects, 1, 0),
        ),
{
    let new = if raw == 5 {
        SocketStatus::Connected
    } else {
        SocketStatus::Broken
    };
    status::lemma_turns_to(old(b)@, id, new);
    assert(results::inner(step@.effects, 1, 0) =~= epoll_bridge::with_status_effects(
        old(b)@,
        id,
        new,
    ));
}

/// What was received is counted before it is read, and read only where there is something.
pub proof fn law_receiving_begins<E: Endpoints>(
    id: SocketId,
    ret: i32,
    pending: i32,
    step: Step<E>,
)
    ensures
        call_ensures(Bridge::<E>::handle_recv, (id,), step) ==> commands::only_calls(
            step@,
            CallView::CountReceived { id },
        ),
        call_ensures(Bridge::<E>::received_counted, (id, ret, pending), step) ==> {
            &&& ret >= 0 && pending > 0 ==> commands::only_calls(step@, CallView::Receive { id })
            &&& ret < 0 || pending <= 0 ==> commands::does_nothing(step@)
        },
{
}

/// A message goes to the reader of its socket, where it has one: the bytes that were
/// received and no others, with the time at which they were sent where it is known. Then
/// the next one is looked for. Receiving ends where there was none.
pub proof fn law_messages_are_delivered<E: Endpoints>(
    b: &Bridge<E>,
    id: SocketId,
    ret: i32,
    buf: &[u8],
    srctime: i64,
    step: Step<E>,
)
    requires
        ret <= buf@.len(),
        call_ensures(Bridge::<E>::message_received, (b, id, ret, buf, srctime), step),
    ensures
        ret <= 0 ==> commands::does_nothing(step@),
        ret > 0 ==> step@.next == NextView::Call(CallView::<E>::CountReceived { id }),
        ret > 0 && b@.contains_key(id) && b@[id].recv_tx is Some ==> step@.effects.len() == 1 && (
        step@.effects[0] matches EffectView::Deliver { id: to, packet } && to == id
            && packet.data.len() == ret && (forall|i: int|
            0 <= i < ret ==> #[trigger] packet.data[i] == buf@[i]) && (srctime != 0
            ==> packet.sender_timestamp_us == Some(srctime)) && (srctime == 0
            ==> packet.sender_timestamp_us is None)),
        ret > 0 && (!b@.contains_key(id) || b@[id].recv_tx is None) ==> step@.effects.len() == 0,
{
}

/// Whether sending goes on. A packet that waits comes first, and waits no more; where none
/// waits the next is taken from the channel; and where there is no channel sending ends.
pub open spec fn sends_on<E: Endpoints>(
    before: Sockets<E>,
    after: Sockets<E>,
    id: SocketId,
    step: StepView<E>,
) -> bool {
    if before.contains_key(id) && before[id].send_backlog.len() > 0 {
        &&& status::others_stay(before, after, id)
        &&& after.contains_key(id)
        &&& step.effects.len() == 0
        &&& step.next matches NextView::Call(CallView::Send { id: on, data, backlogged }) && on == id
            && backlogged && before[id].send_backlog == seq![data] + after[id].send_backlog
        &&& after[id] == (SocketView { send_backlog: after[id].send_backlog, ..before[id] })
    } else {
        &&& after == before
        &&& before.contains_key(id) && before[id].send_rx is Some ==> commands::only_calls(
            step,
            CallView::TakeOutgoing { id },
        )
        &&& !before.contains_key(id) || before[id].send_rx is None ==> commands::does_nothing(step)
    }
}

/// Sending begins with the packets that wait.
pub proof fn law_sending_begins<E: Endpoints>(b: &mut Bridge<E>, id: SocketId, step: Step<E>)
    requires
        call_ensures(Bridge::<E>::handle_send, (b, id), step),
    ensures
        sends_on(old(b)@, final(b)@, id, step@),
{
    if old(b)@.contains_key(id) && old(b)@[id].send_backlog.len() > 0 {
        let backlog = old(b)@[id].send_backlog;
        assert(backlog =~= seq![backlog[0]] + backlog.skip(1));
    }
}

/// A packet from the channel is sent as it is; without one sending ends.
pub proof fn law_the_channel_is_sent<E: Endpoints>(
    id: SocketId,
    data: Option<Bytes>,
    step: Step<E>,
)
    requires
        call_ensures(Bridge::<E>::outgoing_taken, (id, data), step),
    ensures
        data matches Some(packet) ==> commands::only_calls(
            step@,
            CallView::Send { id, data: packet, backlogged: false },
        ),
        data is None ==> commands::does_nothing(step@),
{
}

/// A packet that was sent is followed by the next: after one that waited by the next that
/// waits or one from the channel, after one from the channel by the next from there.
pub proof fn law_sending_goes_on<E: Endpoints>(
    b: &mut Bridge<E>,
    id: SocketId,
    data: Bytes,
    backlogged: bool,
    step: Step<E>,
)
    requires
        call_ensures(
            Bridge::<E>::send_finished,
            (b, id, data, backlogged, Ok::<(), SrtError>(())),
            step,
        ),
    ensures
        backlogged ==> sends_on(old(b)@, final(b)@, id, step@),
        !backlogged ==> final(b)@ == old(b)@,
        !backlogged && old(b)@.contains_key(id) && old(b)@[id].send_rx is Some
            ==> commands::only_calls(step@, CallView::TakeOutgoing { id }),
        !backlogged && (!old(b)@.contains_key(id) || old(b)@[id].send_rx is None)
            ==> commands::does_nothing(step@),
{
    if old(b)@.contains_key(id) && old(b)@[id].send_backlog.len() > 0 {
        let backlog = old(b)@[id].send_backlog;
        assert(backlog =~= seq![backlog[0]] + backlog.skip(1));
    }
}

/// A packet that could not be sent ends sending. Where there was no room it waits: before
/// all others where it waited already, behind them where it came from the channel. On any
/// other error it is dropped.
pub proof fn law_sending_fails<E: Endpoints>(
    b: &mut Bridge<E>,
    id: SocketId,
    data: Bytes,
    backlogged: bool,
    error: SrtError,
    step: Step<E>,
)
    requires
        call_ensures(
            Bridge::<E>::send_finished,
            (b, id, data, backlogged, Err::<(), SrtError>(error)),
            step,
        ),
    ensures
        commands::does_nothing(step@),
        status::others_stay(old(b)@, final(b)@, id),
        final(b)@.contains_key(id) <==> old(b)@.contains_key(id),
        error != SrtError::AsyncSend ==> final(b)@ == old(b)@,
        error == SrtError::AsyncSend && old(b)@.contains_key(id) ==> final(b)@[id] == (SocketView {
            send_backlog: final(b)@[id].send_backlog,
            ..old(b)@[id]
        }),
        error == SrtError::AsyncSend && old(b)@.contains_key(id) && backlogged
            ==> final(b)@[id].send_backlog == seq![data] + old(b)@[id].send_backlog,
        error == SrtError::AsyncSend && old(b)@.contains_key(id) && !backlogged
            ==> final(b)@[id].send_backlog == old(b)@[id].send_backlog + seq![data],
{
}

/// Whether effects follow an accepted caller: calls on its socket do not block, it is
/// watched for data and errors, and it is announced where somebody takes callers over.
pub open spec fn takes_in<E: Endpoints>(
    effects: Seq<EffectView<E>>,
    listener: SocketId,
    accepted: SocketId,
    announced: bool,
) -> bool {
    &&& effects.len() == if announced {
        3int
    } else {
        2int
    }
    &&& effects[0] matches EffectView::SetOptions { id, settings } && id == accepted
        && results::unblocks(settings)
    &&& effects[1] == (EffectView::<E>::AddToEpoll { id: accepted, events: 0x8000_0009 })
    &&& announced ==> effects[2] == (EffectView::<E>::NotifyAccept { listener, accepted })
}

/// A caller that was accepted is announced if and only if its listener has an accept
/// channel, whatever else is kept for the listener.
pub proof fn law_accepted_callers_are_announced<E: Endpoints>(
    b: &Bridge<E>,
    listener: SocketId,
    accepted: SocketId,
    step: Step<E>,
)
    requires
        call_ensures(
            Bridge::<E>::accept_finished,
            (b, listener, Ok::<SocketId, SrtError>(accepted)),
            step,
        ),
    ensures
        step@.next is Done,
        takes_in(
            step@.effects,
            listener,
            accepted,
            b@.contains_key(listener) && b@[listener].accept_tx is Some,
        ),
{
}

/// What follows an accepted caller depends on nothing but whether its listener has an
/// accept channel: not on its status, its other channels, its policy or the other sockets.
pub proof fn law_only_the_accept_channel_decides<E: Endpoints>(
    b: &Bridge<E>,
    other: &Bridge<E>,
    listener: SocketId,
    result: Result<SocketId, SrtError>,
    step: Step<E>,
    other_step: Step<E>,
)
    requires
        call_ensures(Bridge::<E>::accept_finished, (b, listener, result), step),
        call_ensures(Bridge::<E>::accept_finished, (other, listener, result), other_step),
        b@.contains_key(listener) && other@.contains_key(listener),
        b@[listener].accept_tx is Some <==> other@[listener].accept_tx is Some,
    ensures
        step@ == other_step@,
{
}

/// A socket that was registered as a listener and then made to listen announces every
/// caller that it accepts.
pub proof fn law_listeners_announce_their_callers<E: Endpoints>(
    registering: &mut Bridge<E>,
    listening: &mut Bridge<E>,
    accepting: &Bridge<E>,
    id: SocketId,
    accept_tx: E::AcceptTx,
    access_control: Option<E::Policy>,
    reply: E::Reply,
    accepted: SocketId,
    registered: Step<E>,
    listened: Step<E>,
    step: Step<E>,
)
    requires
        call_ensures(
            Bridge::<E>::process_command,
            (registering, IoCommand::RegisterListener { id, accept_tx, access_control }),
            registered,
        ),
        *old(listening) == *final(registering),
        call_ensures(
            Bridge::<E>::listen_finished,
            (listening, id, reply, Ok::<(), SrtError>(())),
            listened,
        ),
        *accepting == *final(listening),
        call_ensures(
            Bridge::<E>::accept_finished,
            (accepting, id, Ok::<SocketId, SrtError>(accepted)),
            step,
        ),
    ensures
        accepting@[id].last_status == SocketStatus::Listening,
        step@.effects.contains(EffectView::<E>::NotifyAccept { listener: id, accepted }),
{
    assert(step@.effects[2] == (EffectView::<E>::NotifyAccept { listener: id, accepted }));
}

/// A caller is asked for once a listener has one, and where it could not be accepted
/// nothing follows.
pub proof fn law_accepting<E: Endpoints>(
    b: &Bridge<E>,
    id: SocketId,
    error: SrtError,
    step: Step<E>,
)
    ensures
        call_ensures(Bridge::<E>::handle_accept, (id,), step) ==> commands::only_calls(
            step@,
            CallView::Accept { id },
        ),
        call_ensures(
            Bridge::<E>::accept_finished,
            (b, id, Err::<SocketId, SrtError>(error)),
            step,
        ) ==> commands::does_nothing(step@),
{
}

/// A socket on which libsrt reports an error is broken.
pub proof fn law_errors_break<E: Endpoints>(b: &mut Bridge<E>, id: SocketId, step: Step<E>)
    requires
        call_ensures(Bridge::<E>::handle_error, (b, id), step),
    ensures
        step@.next is Done,
        status::turns_to(old(b)@, final(b)@, id, SocketStatus::Broken, step@.effects),
{
    status::lemma_turns_to(old(b)@, id, SocketStatus::Broken);
}

/// A polled socket takes over the state that libsrt has for it, unless it has that status
/// already. Whoever waits for a socket that is broken or closed learns the last error, and
/// waits no more; else they go on waiting.
pub proof fn law_polled_states<E: Endpoints>(
    b: &mut Bridge<E>,
    id: SocketId,
    raw: i32,
    step: Step<E>,
    new: SocketStatus,
)
    requires
        call_ensures(Bridge::<E>::polled_state_read, (b, id, raw), step),
        call_ensures(raw_state_to_status, (raw,), new),
    ensures
        step@.next is Done,
        !old(b)@.contains_key(id) || old(b)@[id].last_status == new ==> final(b)@ == old(b)@
            && step@.effects.len() == 0,
        old(b)@.contains_key(id) && old(b)@[id].last_status != new && new != SocketStatus::Broken
            && new != SocketStatus::Closed ==> status::turns_to(
            old(b)@,
            final(b)@,
            id,
            new,
            step@.effects,
        ),
        old(b)@.contains_key(id) && old(b)@[id].last_status != new && (new == SocketStatus::Broken
            || new == SocketStatus::Closed) ==> {
            let waiting = old(b)@[id].connect_reply;
            let answers: int = if waiting is Some {
                1
            } else {
                0
            };
            &&& step@.effects.len() >= answers
            &&& waiting is Some ==> step@.effects.last() == (EffectView::<E>::AnswerLastError {
                reply: waiting->Some_0,
            })
            &&& status::turns_to(
                old(b)@.insert(id, SocketView { connect_reply: None, ..old(b)@[id] }),
                final(b)@,
                id,
                new,
                results::inner(step@.effects, 0, answers),
            )
        },
{
    let m = old(b)@;
    if m.contains_key(id) && m[id].last_status != new {
        status::lemma_turns_to(m, id, new);
        assert(step@.effects.len() > 0 ==> step@.effects.subrange(
            0,
            step@.effects.len() as int,
        ) =~= step@.effects);
        if new == SocketStatus::Broken || new == SocketStatus::Closed {
            let quiet = m.insert(id, SocketView { connect_reply: None, ..m[id] });
            status::lemma_turns_to(quiet, id, new);
            assert(final(b)@ =~= epoll_bridge::with_status(quiet, id, new));
            let answers: int = if m[id].connect_reply is Some {
                1
            } else {
                0
            };
            assert(results::inner(step@.effects, 0, answers)
                =~= epoll_bridge::with_status_effects(quiet, id, new));
        } else {
            assert(step@.effects =~= epoll_bridge::with_status_effects(m, id, new));
        }
    }
}

/// Whether effects are rid of sockets, one after the other.
pub open spec fn rids_of_all<E: Endpoints>(
    m: Sockets<E>,
    ids: Seq<SocketId>,
    error: SrtError,
    effects: Seq<EffectView<E>>,
) -> bool
    decreases ids.len(),
{
    if ids.len() == 0 {
        effects.len() == 0
    } else {
        exists|k: int|
            0 <= k <= effects.len() && rids_of_all(
                m,
                ids.drop_last(),
                error,
                effects.take(k),
            ) && commands::rids_of(
                m.remove_keys(ids.drop_last().to_set()),
                ids.last(),
                error,
                #[trigger] effects.skip(k),
            )
    }
}

/// Sockets are closed one after the other.
pub proof fn lemma_rids_of_all<E: Endpoints>(
    m: Sockets<E>,
    ids: Seq<SocketId>,
    error: SrtError,
)
    ensures
        rids_of_all(m, ids, error, epoll_bridge::traffic::closing_effects(m, ids, error)),
    decreases ids.len(),
{
    if ids.len() > 0 {
        let all = epoll_bridge::traffic::closing_effects(m, ids, error);
        let first = epoll_bridge::traffic::closing_effects(m, ids.drop_last(), error);
        lemma_rids_of_all(m, ids.drop_last(), error);
        let k = first.len() as int;
        assert(all.take(k) =~= first);
        let left = m.remove_keys(ids.drop_last().to_set());
        let tail = epoll_bridge::close_effects::<E>(ids.last())
            + epoll_bridge::farewell_effects(left, ids.last(), error);
        assert(all.skip(k) =~= tail);
        assert(left.contains_key(ids.last()) && left[ids.last()].connect_reply is None ==> (
        SocketView { connect_reply: None, ..left[ids.last()] }) =~= left[ids.last()]);
        assert(commands::rids_of(left, ids.last(), error, tail));
        assert(rids_of_all(m, ids.drop_last(), error, all.take(k)));
    }
}

/// At the end the bridge is rid of every socket, each once, and whoever waits learns that
/// the socket was closed; the watch list is given back last.
pub proof fn law_cleanup<E: Endpoints>(
    b: &mut Bridge<E>,
    effects: Vec<Effect<E>>,
) -> (ids: Seq<SocketId>)
    requires
        call_ensures(Bridge::<E>::cleanup, (b,), effects),
    ensures
        forall|id: SocketId| !final(b)@.contains_key(id),
        ids.no_duplicates(),
        forall|id: SocketId| ids.contains(id) <==> #[trigger] old(b)@.contains_key(id),
        ({
            let told = epoll_bridge::effects_view(effects@);
            told.len() > 0 && told.last() is ReleaseEpoll && rids_of_all(
                old(b)@,
                ids,
                SrtError::SocketClosed,
                told.drop_last(),
            )
        }),
{
    let ids = choose|ids: Seq<SocketId>|
        epoll_bridge::traffic::lists(ids, old(b)@) && epoll_bridge::effects_view(effects@)
            == #[trigger] epoll_bridge::traffic::cleanup_effects(old(b)@, ids);
    lemma_rids_of_all(old(b)@, ids, SrtError::SocketClosed);
    assert(epoll_bridge::effects_view(effects@).drop_last()
        =~= epoll_bridge::traffic::closing_effects(old(b)@, ids, SrtError::SocketClosed));
    assert forall|id: SocketId| ids.contains(id) <==> #[trigger] old(b)@.contains_key(id) by {
        assert(ids.to_set().contains(id) <==> old(b)@.dom().contains(id));
    }
    ids
}

} // verus!
