//! What holds of the bridge as a whole.

use vstd::prelude::*;

use bytes::Bytes;

use crate::config::{ConfigView, SocketStatus};
use crate::epoll_bridge as bridge;
use crate::epoll_bridge::commands;
use crate::epoll_bridge::commands::CommandView;
use crate::epoll_bridge::io_loop;
use crate::epoll_bridge::io_loop::{LoopView, PollEvent, Task, MAX_BACKOFF_STEPS};
use crate::epoll_bridge::results;
use crate::epoll_bridge::results::SRTS_CONNECTED;
use crate::epoll_bridge::traffic;
use crate::epoll_bridge::{
    AnswerView, CallView, EffectView, Endpoints, NextView, RawMember, SocketId, SocketView, Sockets,
    StepView, SRT_EPOLL_IN,
};
use crate::error::SrtError;
use crate::group::GroupMemberStats;
use crate::options;
use crate::options::{SettingView, SocketOption};
use crate::stats;

verus! {

/// The state numbers of libsrt are read back as the statuses that they stand for.
pub proof fn law_states_read_back(status: SocketStatus)
    ensures
        bridge::status_of(status.number()) == status,
{
}

/// A state number that libsrt does not have counts as the end of a socket, and so
/// never as one that could still be used.
pub proof fn law_unknown_states_are_terminal(raw: i32)
    requires
        forall|s: SocketStatus| raw != #[trigger] s.number(),
    ensures
        bridge::status_of(raw) == SocketStatus::NonExist,
        bridge::is_terminal(bridge::status_of(raw)),
{
    assert(raw != SocketStatus::Init.number());
    assert(raw != SocketStatus::Opened.number());
    assert(raw != SocketStatus::Listening.number());
    assert(raw != SocketStatus::Connecting.number());
    assert(raw != SocketStatus::Connected.number());
    assert(raw != SocketStatus::Broken.number());
    assert(raw != SocketStatus::Closing.number());
    assert(raw != SocketStatus::Closed.number());
}

/// A status is terminal or one that a usable socket can have, never both.
pub proof fn law_terminal_or_usable(status: SocketStatus)
    ensures
        bridge::is_terminal(status) <==> !(status == SocketStatus::Init || status
            == SocketStatus::Opened || status == SocketStatus::Listening || status
            == SocketStatus::Connecting || status == SocketStatus::Connected),
        bridge::is_live(status) ==> !bridge::is_terminal(status),
{
}

/// When a socket has come to its end, its reader and, if it was live, its writer
/// are let go of, so that neither waits for ever; and those who watch the status
/// are told before that.
pub proof fn law_end_frees_reader_and_writer<E: Endpoints>(
    id: SocketId,
    s: SocketView<E>,
    status: SocketStatus,
)
    requires
        bridge::is_terminal(status),
    ensures
        bridge::status_updated(s, status).recv_tx is None,
        bridge::is_live(s.last_status) ==> bridge::status_updated(s, status).send_rx is None,
        s.recv_tx matches Some(channel) ==> bridge::status_effects(id, s, status).contains(
            EffectView::CloseRecv { channel },
        ),
        bridge::is_live(s.last_status) && s.send_rx is Some ==> bridge::status_effects(
            id,
            s,
            status,
        ).contains(EffectView::CloseSend { channel: s.send_rx->Some_0 }),
        s.status_tx is Some ==> bridge::status_effects(id, s, status)[0]
            == (EffectView::<E>::PublishStatus { id, status }),
{
    let effects = bridge::status_effects(id, s, status);
    let told: int = if s.status_tx is Some {
        1
    } else {
        0
    };
    if s.recv_tx is Some {
        assert(effects[told] == (EffectView::<E>::CloseRecv { channel: s.recv_tx->Some_0 }));
    }
    if bridge::is_live(s.last_status) && s.send_rx is Some {
        assert(effects.last() == (EffectView::<E>::CloseSend { channel: s.send_rx->Some_0 }));
    }
}

/// A group counts as broken until it has members. It keeps its sending channel
/// all the same.
pub proof fn law_new_group_keeps_its_writer<E: Endpoints>(s: SocketView<E>, status: SocketStatus)
    requires
        s.last_status == SocketStatus::Init,
    ensures
        bridge::status_updated(s, status).send_rx == s.send_rx,
{
}

/// Whether a list of effects lets go of what was kept for a socket only after it
/// has closed the socket.
pub open spec fn closes_before_release<E: Endpoints>(effects: Seq<EffectView<E>>) -> bool {
    forall|i: int|
        0 <= i < effects.len() && (#[trigger] effects[i]) is Release ==> exists|j: int|
            0 <= j < i && #[trigger] effects[j] == (EffectView::<E>::CloseSocket {
                id: effects[i]->Release_id,
            })
}

proof fn lemma_order_of_both<E: Endpoints>(a: Seq<EffectView<E>>, b: Seq<EffectView<E>>)
    requires
        closes_before_release(a),
        closes_before_release(b),
    ensures
        closes_before_release(a + b),
{
    let effects = a + b;
    assert forall|i: int|
        0 <= i < effects.len() && (#[trigger] effects[i]) is Release implies exists|j: int|
        0 <= j < i && #[trigger] effects[j] == (EffectView::<E>::CloseSocket {
            id: effects[i]->Release_id,
        }) by {
        let close = EffectView::<E>::CloseSocket { id: effects[i]->Release_id };
        if i < a.len() {
            assert(a[i] is Release);
            let j = choose|j: int| 0 <= j < i && #[trigger] a[j] == close;
            assert(effects[j] == close);
        } else {
            assert(b[i - a.len()] is Release);
            let j = choose|j: int| 0 <= j < i - a.len() && #[trigger] b[j] == close;
            assert(effects[j + a.len()] == close);
        }
    }
}

proof fn lemma_close_one<E: Endpoints>(m: Sockets<E>, id: SocketId, error: SrtError)
    ensures
        closes_before_release(bridge::close_effects(id) + bridge::farewell_effects(m, id, error)),
        closes_before_release(bridge::close_effects(id) + bridge::release_effects(m, id)),
{
    let a = bridge::close_effects(id) + bridge::farewell_effects(m, id, error);
    assert(a[1] == (EffectView::<E>::CloseSocket { id }));
    let b = bridge::close_effects(id) + bridge::release_effects(m, id);
    assert(b[1] == (EffectView::<E>::CloseSocket { id }));
}

/// What is kept for a socket, its policy above all, outlives the socket in libsrt:
/// when sockets are closed together, it is let go of only after its socket was
/// closed.
pub proof fn law_release_follows_close<E: Endpoints>(
    m: Sockets<E>,
    ids: Seq<SocketId>,
    error: SrtError,
)
    ensures
        closes_before_release(traffic::closing_effects(m, ids, error)),
    decreases ids.len(),
{
    if ids.len() > 0 {
        law_release_follows_close(m, ids.drop_last(), error);
        let before = traffic::closing_effects(m, ids.drop_last(), error);
        let rest = traffic::without(m, ids.drop_last());
        let one = bridge::close_effects(ids.last()) + bridge::farewell_effects(
            rest,
            ids.last(),
            error,
        );
        lemma_close_one(rest, ids.last(), error);
        lemma_order_of_both(before, one);
        assert(traffic::closing_effects(m, ids, error) =~= before + one);
    }
}

/// The same holds when the bridge ends.
pub proof fn law_cleanup_releases_after_close<E: Endpoints>(m: Sockets<E>, ids: Seq<SocketId>)
    ensures
        closes_before_release(traffic::cleanup_effects(m, ids)),
{
    let all = traffic::closing_effects(m, ids, SrtError::SocketClosed);
    law_release_follows_close(m, ids, SrtError::SocketClosed);
    lemma_order_of_both(all, seq![EffectView::<E>::ReleaseEpoll]);
    assert(traffic::cleanup_effects(m, ids) =~= all + seq![EffectView::<E>::ReleaseEpoll]);
}

/// The same holds of every command, and of a listener that cannot listen.
pub proof fn law_commands_release_after_close<E: Endpoints>(
    m: Sockets<E>,
    cmd: CommandView<E>,
    id: SocketId,
    reply: E::Reply,
    error: SrtError,
)
    ensures
        closes_before_release(commands::command_step(m, cmd).effects),
        closes_before_release(results::refused_listen(m, id, reply, error).effects),
{
    match cmd {
        CommandView::Close { id } => {
            lemma_close_one(m, id, SrtError::SocketClosed);
        },
        _ => {},
    }
    lemma_close_one(m, id, error);
    lemma_order_of_both(
        bridge::close_effects(id) + bridge::release_effects(m, id),
        seq![bridge::answering::<E>(reply, AnswerView::Done(Err(error)))],
    );
}

/// The same holds of every task of the loop.
pub proof fn law_tasks_release_after_close<E: Endpoints>(v: LoopView<E>, task: Task)
    ensures
        closes_before_release(io_loop::task_step(v, task).effects),
{
    match task {
        Task::ReapZombies => {
            law_release_follows_close(v.sockets, v.zombies, SrtError::ConnectionLost);
        },
        _ => {},
    }
}

/// A listener with a policy never listens without it: the hook is armed first, and
/// where that fails the socket is closed, forgotten and not watched, and the error
/// is answered. It listens once the hook is armed.
pub proof fn law_policy_is_armed_before_listening<E: Endpoints>(
    m: Sockets<E>,
    id: SocketId,
    backlog: i32,
    reply: E::Reply,
    error: SrtError,
)
    requires
        commands::has_policy(m, id),
    ensures
        commands::command_step(m, CommandView::Listen { id, backlog, reply }) == bridge::calling(
            CallView::<E>::ArmAcceptHook { id, backlog, reply },
        ),
        ({
            let refused = results::arming_step(m, id, backlog, reply, Err(error));
            &&& refused.next == NextView::<E>::Done
            &&& refused.effects.contains(EffectView::CloseSocket { id })
            &&& refused.effects.last() == bridge::answering::<E>(
                reply,
                AnswerView::Done(Err(error)),
            )
            &&& forall|i: int|
                0 <= i < refused.effects.len() ==> !((#[trigger] refused.effects[i]) is AddToEpoll)
        }),
        ({
            let after = results::sockets_after_arming(m, id, Err(error));
            !after.contains_key(id) && same_but(m, after, id)
        }),
        results::sockets_after_arming(m, id, Ok(())) == m,
        results::arming_step(m, id, backlog, reply, Ok(())) == bridge::calling(
            CallView::<E>::Listen { id, backlog, reply },
        ),
{
    assert(m.remove(id).remove(id) =~= m.remove(id));
    let refused = results::refused_listen(m, id, reply, error);
    assert(refused.effects[1] == (EffectView::<E>::CloseSocket { id }));
}

/// Handing over the channels of a listener does not cost it the policy that it was
/// given before.
pub proof fn law_registering_keeps_the_policy<E: Endpoints>(
    m: Sockets<E>,
    id: SocketId,
    accept_tx: E::AcceptTx,
    policy: E::Policy,
    recv_tx: E::RecvTx,
    send_rx: E::SendRx,
    status_tx: E::StatusTx,
)
    ensures
        ({
            let listener = commands::sockets_after_command(
                m,
                CommandView::RegisterListener { id, accept_tx, access_control: Some(policy) },
            );
            let registered = commands::sockets_after_command(
                listener,
                CommandView::RegisterSocket { id, recv_tx, send_rx, status_tx },
            );
            commands::has_policy(registered, id) && registered[id].access_control == Some(policy)
                && registered[id].accept_tx == Some(accept_tx)
        }),
{
}

/// Whether success is answered to somebody.
pub open spec fn answers_success<E: Endpoints>(
    effects: Seq<EffectView<E>>,
    reply: E::Reply,
) -> bool {
    effects.contains(bridge::answering(reply, AnswerView::Done(Ok(()))))
}

/// A connection is reported only when libsrt has the socket in the connected
/// state, be it at once or at the end of the handshake.
pub proof fn law_success_means_connected<E: Endpoints>(
    m: Sockets<E>,
    id: SocketId,
    reply: E::Reply,
    raw: i32,
)
    ensures
        answers_success(results::connect_step(m, id, reply, raw).effects, reply) <==> raw
            == SRTS_CONNECTED,
        answers_success(traffic::completion_step(m, id, reply, raw).effects, reply) <==> raw
            == SRTS_CONNECTED,
{
    let ok = bridge::answering::<E>(reply, AnswerView::Done(Ok(())));
    let first = results::connect_step(m, id, reply, raw).effects;
    let second = traffic::completion_step(m, id, reply, raw).effects;
    if raw == SRTS_CONNECTED {
        assert(first.last() == ok);
        assert(second[0] == ok);
    }
}

/// While the handshake may be under way nobody is answered: who waits is kept with
/// the socket, where the end of the handshake finds them.
pub proof fn law_waiting_is_kept<E: Endpoints>(
    m: Sockets<E>,
    id: SocketId,
    reply: E::Reply,
    raw: i32,
)
    requires
        m.contains_key(id),
        results::may_connect(raw),
    ensures
        ({
            let after = results::sockets_after_connect(m, id, reply, raw);
            &&& traffic::is_awaited(after, id)
            &&& after[id].connect_reply == Some(reply)
            &&& after[id].last_status == SocketStatus::Connecting
        }),
        ({
            let step = results::connect_step(m, id, reply, raw);
            &&& step.next == NextView::<E>::Done
            &&& forall|i: int, r: E::Reply|
                0 <= i < step.effects.len() ==> !(#[trigger] answers(step.effects[i], r))
        }),
{
}

/// Who waits for a connection is answered when the socket is closed.
pub proof fn law_closing_answers_who_waits<E: Endpoints>(
    m: Sockets<E>,
    id: SocketId,
    reply: E::Reply,
    error: SrtError,
)
    requires
        m.contains_key(id),
        m[id].connect_reply == Some(reply),
    ensures
        bridge::farewell_effects(m, id, error)[0] == bridge::answering::<E>(
            reply,
            AnswerView::Done(Err(error)),
        ),
{
}

/// What a socket has yet to send: its backlog, then what is in its channel.
pub open spec fn pending<E: Endpoints>(
    m: Sockets<E>,
    id: SocketId,
    channel: Seq<Bytes>,
) -> Seq<Bytes> {
    m[id].send_backlog + channel
}

/// Packets are sent in the order in which they were handed over: what is sent next
/// is the first that is pending, and the others stay as they are. The channel is
/// looked at only when there is no backlog.
pub proof fn law_first_is_sent_first<E: Endpoints>(
    m: Sockets<E>,
    id: SocketId,
    channel: Seq<Bytes>,
)
    requires
        m.contains_key(id),
        m[id].send_rx is Some,
    ensures
        traffic::has_backlog(m, id) ==> traffic::send_step(m, id) == bridge::calling(
            CallView::<E>::Send { id, data: pending(m, id, channel)[0], backlogged: true },
        ) && pending(traffic::sockets_after_send(m, id), id, channel) == pending(
            m,
            id,
            channel,
        ).skip(1),
        !traffic::has_backlog(m, id) ==> traffic::send_step(m, id) == bridge::calling(
            CallView::<E>::TakeOutgoing { id },
        ) && traffic::sockets_after_send(m, id) == m && pending(m, id, channel) == channel,
{
    let all = pending(m, id, channel);
    if traffic::has_backlog(m, id) {
        assert(pending(traffic::sockets_after_send(m, id), id, channel) =~= all.skip(1));
    } else {
        assert(all =~= channel);
    }
}

/// A packet that finds no room is the first that is pending again, be it from the
/// backlog or from the channel: nothing is lost, doubled or overtaken.
pub proof fn law_no_room_loses_nothing<E: Endpoints>(
    m: Sockets<E>,
    id: SocketId,
    data: Bytes,
    backlogged: bool,
    rest: Seq<Bytes>,
)
    requires
        m.contains_key(id),
        backlogged || !traffic::has_backlog(m, id),
    ensures
        pending(traffic::with_data(m, id, data, backlogged), id, rest) == seq![data] + pending(
            m,
            id,
            rest,
        ),
{
    assert(pending(traffic::with_data(m, id, data, backlogged), id, rest) =~= seq![data] + pending(
        m,
        id,
        rest,
    ));
}

/// A run of sending: the sockets, what is left in the channel, and what was sent.
#[verifier::reject_recursive_types(E)]
pub struct SendRun<E: Endpoints> {
    pub sockets: Sockets<E>,
    pub channel: Seq<Bytes>,
    pub sent: Seq<Bytes>,
}

/// The run after one more packet was taken and sent, where there is one.
pub open spec fn sent_one<E: Endpoints>(run: SendRun<E>, id: SocketId) -> SendRun<E> {
    if traffic::has_backlog(run.sockets, id) {
        SendRun {
            sockets: traffic::sockets_after_send(run.sockets, id),
            sent: run.sent.push(run.sockets[id].send_backlog[0]),
            ..run
        }
    } else if run.channel.len() > 0 {
        SendRun { channel: run.channel.skip(1), sent: run.sent.push(run.channel[0]), ..run }
    } else {
        run
    }
}

/// The run after so many packets more.
pub open spec fn sent_many<E: Endpoints>(run: SendRun<E>, id: SocketId, count: nat) -> SendRun<E>
    decreases count,
{
    if count == 0 {
        run
    } else {
        sent_one(sent_many(run, id, (count - 1) as nat), id)
    }
}

/// However many packets are sent in a run, what was sent and what is still pending
/// are together what they were: nothing is lost, doubled or overtaken.
pub proof fn law_sending_keeps_the_order<E: Endpoints>(run: SendRun<E>, id: SocketId, count: nat)
    requires
        run.sockets.contains_key(id),
    ensures
        ({
            let after = sent_many(run, id, count);
            &&& after.sockets.contains_key(id)
            &&& after.sent + pending(after.sockets, id, after.channel) == run.sent + pending(
                run.sockets,
                id,
                run.channel,
            )
        }),
    decreases count,
{
    if count > 0 {
        let before = sent_many(run, id, (count - 1) as nat);
        law_sending_keeps_the_order(run, id, (count - 1) as nat);
        let after = sent_one(before, id);
        assert(after.sent + pending(after.sockets, id, after.channel) =~= before.sent + pending(
            before.sockets,
            id,
            before.channel,
        ));
    }
}

/// Taking a packet from the backlog and putting it back changes nothing.
pub proof fn law_no_room_undoes_taking<E: Endpoints>(m: Sockets<E>, id: SocketId)
    requires
        traffic::has_backlog(m, id),
    ensures
        traffic::with_data(
            traffic::sockets_after_send(m, id),
            id,
            m[id].send_backlog[0],
            true,
        ) == m,
{
    let after = traffic::with_data(
        traffic::sockets_after_send(m, id),
        id,
        m[id].send_backlog[0],
        true,
    );
    assert(seq![m[id].send_backlog[0]] + m[id].send_backlog.skip(1) =~= m[id].send_backlog);
    assert(after[id] =~= m[id]);
    assert(after =~= m);
}

proof fn lemma_closing_covers_each<E: Endpoints>(
    m: Sockets<E>,
    ids: Seq<SocketId>,
    error: SrtError,
    id: SocketId,
)
    requires
        ids.contains(id),
        m.contains_key(id),
    ensures
        traffic::closing_effects(m, ids, error).contains(EffectView::CloseSocket { id }),
        m[id].connect_reply matches Some(reply) ==> traffic::closing_effects(
            m,
            ids,
            error,
        ).contains(bridge::answering(reply, AnswerView::Done(Err(error)))),
    decreases ids.len(),
{
    let before = traffic::closing_effects(m, ids.drop_last(), error);
    let all = traffic::closing_effects(m, ids, error);
    let close = EffectView::<E>::CloseSocket { id };
    if ids.drop_last().contains(id) {
        lemma_closing_covers_each(m, ids.drop_last(), error, id);
        let i = choose|i: int| 0 <= i < before.len() && before[i] == close;
        assert(all[i] == close);
        if m[id].connect_reply is Some {
            let answer = bridge::answering::<E>(
                m[id].connect_reply->Some_0,
                AnswerView::Done(Err(error)),
            );
            let j = choose|j: int| 0 <= j < before.len() && before[j] == answer;
            assert(all[j] == answer);
        }
    } else {
        let i = choose|i: int| 0 <= i < ids.len() && ids[i] == id;
        if i < ids.len() - 1 {
            assert(ids.drop_last()[i] == id);
        }
        assert(!ids.drop_last().to_set().contains(id));
        assert(all[before.len() as int + 1] == close);
        if m[id].connect_reply is Some {
            assert(all[before.len() as int + 2] == bridge::answering::<E>(
                m[id].connect_reply->Some_0,
                AnswerView::Done(Err(error)),
            ));
        }
    }
}

/// A dead socket that nobody reads any more is found by a sweep: at once where its
/// reader was let go of, and otherwise when the probe says that the reader is gone.
/// It is then closed and forgotten, and who waits for it to connect is told that
/// the connection is lost. As long as somebody reads it, it stays.
pub proof fn law_dead_sockets_are_reaped<E: Endpoints>(
    v: LoopView<E>,
    id: SocketId,
    ids: Seq<SocketId>,
)
    requires
        v.sockets.contains_key(id),
        traffic::is_dead(v.sockets[id]),
    ensures
        v.sockets[id].recv_tx is Some ==> io_loop::task_step(v, Task::ProbeZombie { id })
            == bridge::calling(CallView::<E>::ProbeRecv { id }) && io_loop::state_after_task(
            v,
            Task::ProbeZombie { id },
            ids,
        ) == v && io_loop::state_after_probe(v, id, false) == v,
        ({
            let found = if v.sockets[id].recv_tx is None {
                io_loop::state_after_task(v, Task::ProbeZombie { id }, ids)
            } else {
                io_loop::state_after_probe(v, id, true)
            };
            let reaped = io_loop::state_after_task(found, Task::ReapZombies, ids);
            let effects = io_loop::task_step(found, Task::ReapZombies).effects;
            &&& found.zombies.contains(id)
            &&& !reaped.sockets.contains_key(id)
            &&& effects.contains(EffectView::CloseSocket { id })
            &&& v.sockets[id].connect_reply matches Some(reply) ==> effects.contains(
                bridge::answering(reply, AnswerView::Done(Err(SrtError::ConnectionLost))),
            )
        }),
{
    let zombies = v.zombies.push(id);
    assert(zombies.last() == id);
    assert(zombies.to_set().contains(id));
    lemma_closing_covers_each(v.sockets, zombies, SrtError::ConnectionLost, id);
}

/// Whether a socket is dead and nobody reads it: its reader was let go of, or is
/// one of those that are gone.
pub open spec fn is_abandoned<E: Endpoints>(
    m: Sockets<E>,
    id: SocketId,
    gone: Set<SocketId>,
) -> bool {
    m.contains_key(id) && traffic::is_dead(m[id]) && (m[id].recv_tx is None || gone.contains(id))
}

/// The state of the loop after a socket was probed; `gone` are the sockets whose
/// reader turns out to be gone when it is asked for.
pub open spec fn probed_one<E: Endpoints>(
    v: LoopView<E>,
    id: SocketId,
    gone: Set<SocketId>,
) -> LoopView<E> {
    let after = io_loop::state_after_task(v, Task::ProbeZombie { id }, Seq::empty());
    if io_loop::task_step(v, Task::ProbeZombie { id }).next is Call {
        io_loop::state_after_probe(after, id, gone.contains(id))
    } else {
        after
    }
}

/// The state of the loop after sockets were probed, one after the other.
pub open spec fn probed<E: Endpoints>(
    v: LoopView<E>,
    ids: Seq<SocketId>,
    gone: Set<SocketId>,
) -> LoopView<E>
    decreases ids.len(),
{
    if ids.len() == 0 {
        v
    } else {
        probed_one(probed(v, ids.drop_last(), gone), ids.last(), gone)
    }
}

proof fn lemma_probes<E: Endpoints>(v: LoopView<E>, ids: Seq<SocketId>, gone: Set<SocketId>)
    requires
        ids.no_duplicates(),
        v.zombies.len() == 0,
    ensures
        probed(v, ids, gone) == (LoopView { zombies: probed(v, ids, gone).zombies, ..v }),
        probed(v, ids, gone).zombies.no_duplicates(),
        forall|id: SocketId| #[trigger]
            probed(v, ids, gone).zombies.contains(id) <==> ids.contains(id) && is_abandoned(
                v.sockets,
                id,
                gone,
            ),
    decreases ids.len(),
{
    let z = probed(v, ids, gone).zombies;
    if ids.len() > 0 {
        let rest = ids.drop_last();
        let last = ids.last();
        lemma_probes(v, rest, gone);
        let before = probed(v, rest, gone).zombies;
        assert(!rest.contains(last)) by {
            if rest.contains(last) {
                let i = choose|i: int| 0 <= i < rest.len() && rest[i] == last;
                assert(ids[i] == ids[ids.len() - 1]);
            }
        }
        assert(!before.contains(last));
        assert(z == (if is_abandoned(v.sockets, last, gone) {
            before.push(last)
        } else {
            before
        }));
        assert forall|id: SocketId| #[trigger] z.contains(id) <==> ids.contains(id) && is_abandoned(
            v.sockets,
            id,
            gone,
        ) by {
            assert(before.contains(id) <==> rest.contains(id) && is_abandoned(v.sockets, id, gone));
            assert(ids.contains(id) <==> rest.contains(id) || id == last) by {
                assert(ids =~= rest.push(last));
                if rest.contains(id) {
                    let i = choose|i: int| 0 <= i < rest.len() && rest[i] == id;
                    assert(ids[i] == id);
                }
                assert(ids[ids.len() - 1] == last);
                if ids.contains(id) && id != last {
                    let i = choose|i: int| 0 <= i < ids.len() && ids[i] == id;
                    assert(rest[i] == id);
                }
            }
            if is_abandoned(v.sockets, last, gone) {
                if before.contains(id) {
                    let i = choose|i: int| 0 <= i < before.len() && before[i] == id;
                    assert(z[i] == id);
                }
                assert(z[z.len() - 1] == last);
                if z.contains(id) && id != last {
                    let i = choose|i: int| 0 <= i < z.len() && z[i] == id;
                    assert(before[i] == id);
                }
            }
        }
        assert forall|i: int, j: int| 0 <= i < j < z.len() implies z[i] != z[j] by {
            if j >= before.len() {
                assert(before.contains(before[i]));
            }
        }
    }
}

/// A whole sweep finds the dead sockets that nobody reads, all of them and no
/// others, and each of them once.
pub proof fn law_sweep_finds_exactly_the_abandoned<E: Endpoints>(
    v: LoopView<E>,
    ids: Seq<SocketId>,
    gone: Set<SocketId>,
)
    requires
        traffic::lists(ids, v.sockets),
        v.zombies.len() == 0,
    ensures
        probed(v, ids, gone).zombies.no_duplicates(),
        forall|id: SocketId| #[trigger]
            probed(v, ids, gone).zombies.contains(id) <==> v.sockets.contains_key(id)
                && traffic::is_dead(v.sockets[id]) && (v.sockets[id].recv_tx is None
                || gone.contains(id)),
{
    lemma_probes(v, ids, gone);
    assert forall|id: SocketId| ids.contains(id) <==> v.sockets.contains_key(id) by {
        assert(ids.to_set().contains(id) <==> ids.contains(id));
    }
}

proof fn lemma_closes_only_these<E: Endpoints>(
    m: Sockets<E>,
    ids: Seq<SocketId>,
    error: SrtError,
    i: int,
)
    requires
        0 <= i < traffic::closing_effects(m, ids, error).len(),
        traffic::closing_effects(m, ids, error)[i] is CloseSocket,
    ensures
        ids.contains(traffic::closing_effects(m, ids, error)[i]->CloseSocket_id),
    decreases ids.len(),
{
    if ids.len() > 0 {
        let before = traffic::closing_effects(m, ids.drop_last(), error);
        let id = traffic::closing_effects(m, ids, error)[i]->CloseSocket_id;
        if i < before.len() {
            assert(before[i] == traffic::closing_effects(m, ids, error)[i]);
            lemma_closes_only_these(m, ids.drop_last(), error, i);
            let k = choose|k: int| 0 <= k < ids.drop_last().len() && ids.drop_last()[k] == id;
            assert(ids[k] == id);
        } else {
            assert(id == ids.last());
            assert(ids[ids.len() - 1] == id);
        }
    }
}

/// Sockets that are listed once are closed once, and no others are closed.
pub proof fn law_each_is_closed_once<E: Endpoints>(
    m: Sockets<E>,
    ids: Seq<SocketId>,
    error: SrtError,
)
    requires
        ids.no_duplicates(),
    ensures
        ({
            let effects = traffic::closing_effects(m, ids, error);
            &&& forall|i: int|
                0 <= i < effects.len() && (#[trigger] effects[i]) is CloseSocket ==> ids.contains(
                    effects[i]->CloseSocket_id,
                )
            &&& forall|i: int, j: int|
                0 <= i < j < effects.len() && (#[trigger] effects[i]) is CloseSocket && (
                #[trigger] effects[j]) is CloseSocket ==> effects[i]->CloseSocket_id
                    != effects[j]->CloseSocket_id
            &&& forall|k: int|
                0 <= k < ids.len() ==> effects.contains(
                    EffectView::CloseSocket { id: #[trigger] ids[k] },
                )
        }),
    decreases ids.len(),
{
    let effects = traffic::closing_effects(m, ids, error);
    assert forall|i: int|
        0 <= i < effects.len() && (#[trigger] effects[i]) is CloseSocket implies ids.contains(
        effects[i]->CloseSocket_id,
    ) by {
        lemma_closes_only_these(m, ids, error, i);
    }
    if ids.len() > 0 {
        let rest = ids.drop_last();
        let last = ids.last();
        let before = traffic::closing_effects(m, rest, error);
        law_each_is_closed_once(m, rest, error);
        assert(!rest.contains(last)) by {
            if rest.contains(last) {
                let k = choose|k: int| 0 <= k < rest.len() && rest[k] == last;
                assert(ids[k] == ids[ids.len() - 1]);
            }
        }
        let at = before.len() as int + 1;
        assert(effects[at] == (EffectView::<E>::CloseSocket { id: last }));
        assert forall|i: int, j: int|
            0 <= i < j < effects.len() && (#[trigger] effects[i]) is CloseSocket && (
            #[trigger] effects[j]) is CloseSocket implies effects[i]->CloseSocket_id
            != effects[j]->CloseSocket_id by {
            if j < before.len() {
                assert(before[i] == effects[i] && before[j] == effects[j]);
            } else {
                assert(j == at);
                assert(i < before.len());
                assert(before[i] == effects[i]);
                assert(rest.contains(before[i]->CloseSocket_id));
            }
        }
        assert forall|k: int| 0 <= k < ids.len() implies effects.contains(
            EffectView::CloseSocket { id: #[trigger] ids[k] },
        ) by {
            if k < rest.len() {
                let close = EffectView::<E>::CloseSocket { id: rest[k] };
                assert(before.contains(close));
                let i = choose|i: int| 0 <= i < before.len() && before[i] == close;
                assert(effects[i] == close);
            }
        }
    }
}

/// A sweep, its probes and the reaping that follows leave every socket that is
/// read or not dead as it was, and nothing else; each of the others is closed, and
/// closed once.
pub proof fn law_sweep_reaps_exactly_the_abandoned<E: Endpoints>(
    v: LoopView<E>,
    ids: Seq<SocketId>,
    gone: Set<SocketId>,
)
    requires
        traffic::lists(ids, v.sockets),
    ensures
        ({
            let swept = io_loop::state_after_task(v, Task::SweepZombies, ids);
            let found = probed(swept, ids, gone);
            let reaped = io_loop::state_after_task(found, Task::ReapZombies, ids);
            let effects = io_loop::task_step(found, Task::ReapZombies).effects;
            &&& forall|id: SocketId| #[trigger]
                reaped.sockets.contains_key(id) <==> v.sockets.contains_key(id) && !is_abandoned(
                    v.sockets,
                    id,
                    gone,
                )
            &&& forall|id: SocketId|
                reaped.sockets.contains_key(id) ==> #[trigger] reaped.sockets[id]
                    == v.sockets[id]
            &&& forall|id: SocketId|
                is_abandoned(v.sockets, id, gone) <==> #[trigger] effects.contains(
                    EffectView::CloseSocket { id },
                )
            &&& forall|i: int, j: int|
                0 <= i < j < effects.len() && (#[trigger] effects[i]) is CloseSocket && (
                #[trigger] effects[j]) is CloseSocket ==> effects[i]->CloseSocket_id
                    != effects[j]->CloseSocket_id
        }),
{
    let swept = io_loop::state_after_task(v, Task::SweepZombies, ids);
    let found = probed(swept, ids, gone);
    let z = found.zombies;
    let effects = io_loop::task_step(found, Task::ReapZombies).effects;
    lemma_probes(swept, ids, gone);
    law_sweep_finds_exactly_the_abandoned(swept, ids, gone);
    law_each_is_closed_once(v.sockets, z, SrtError::ConnectionLost);
    assert forall|id: SocketId| z.to_set().contains(id) <==> is_abandoned(v.sockets, id, gone) by {
        assert(z.contains(id) <==> is_abandoned(v.sockets, id, gone));
    }
    assert forall|id: SocketId|
        is_abandoned(v.sockets, id, gone) <==> #[trigger] effects.contains(
            EffectView::CloseSocket { id },
        ) by {
        let close = EffectView::<E>::CloseSocket { id };
        assert(z.contains(id) <==> is_abandoned(v.sockets, id, gone));
        if z.contains(id) {
            let k = choose|k: int| 0 <= k < z.len() && z[k] == id;
            assert(effects.contains(EffectView::CloseSocket { id: z[k] }));
        }
        if effects.contains(close) {
            let i = choose|i: int| 0 <= i < effects.len() && effects[i] == close;
            assert(z.contains(effects[i]->CloseSocket_id));
        }
    }
}

/// A socket that can still be used, a listener or a group is never reaped: a probe
/// does not find it, and asks nobody about it.
pub proof fn law_the_living_are_not_reaped<E: Endpoints>(
    v: LoopView<E>,
    id: SocketId,
    ids: Seq<SocketId>,
)
    requires
        v.sockets.contains_key(id),
        !bridge::is_terminal(v.sockets[id].last_status) || v.sockets[id].is_listener
            || v.sockets[id].is_group,
    ensures
        io_loop::state_after_task(v, Task::ProbeZombie { id }, ids) == v,
        io_loop::task_step(v, Task::ProbeZombie { id }) == bridge::done::<E>(Seq::empty()),
{
}

/// A sweep probes every socket before it closes any.
pub proof fn law_sweep_probes_all<E: Endpoints>(v: LoopView<E>, ids: Seq<SocketId>, id: SocketId)
    requires
        traffic::lists(ids, v.sockets),
        v.sockets.contains_key(id),
    ensures
        ({
            let swept = io_loop::state_after_task(v, Task::SweepZombies, ids);
            exists|i: int|
                0 <= i < ids.len() && #[trigger] swept.agenda[i] == (Task::ProbeZombie { id })
        }),
        io_loop::state_after_task(v, Task::SweepZombies, ids).agenda[ids.len() as int]
            == Task::ReapZombies,
{
    let swept = io_loop::state_after_task(v, Task::SweepZombies, ids);
    assert(ids.to_set().contains(id));
    let i = choose|i: int| 0 <= i < ids.len() && ids[i] == id;
    assert(swept.agenda[i] == (Task::ProbeZombie { id }));
}

/// A listener with a caller at the door accepts, and nothing else is done about
/// the event.
pub proof fn law_listeners_only_accept<E: Endpoints>(m: Sockets<E>, event: PollEvent)
    requires
        m.contains_key(event.fd),
        m[event.fd].is_listener,
        event.events & SRT_EPOLL_IN != 0,
    ensures
        io_loop::event_plan(m, event) == seq![Task::Accept { id: event.fd }],
{
}

/// The rest after failures in a row doubles from one failure to the next, up to
/// the limit, and stays there.
pub proof fn law_backoff_doubles(failures: nat)
    ensures
        failures < MAX_BACKOFF_STEPS ==> io_loop::backoff(failures + 1) == 2 * io_loop::backoff(
            failures,
        ),
        failures >= MAX_BACKOFF_STEPS ==> io_loop::backoff(failures) == 128,
{
    reveal_with_fuel(io_loop::backoff, 9);
}

/// Whether two states of the bridge agree on every socket but one.
pub open spec fn same_but<E: Endpoints>(a: Sockets<E>, b: Sockets<E>, id: SocketId) -> bool {
    a.remove(id) == b.remove(id)
}

/// What becomes of one socket leaves the others alone.
pub proof fn law_others_are_left_alone<E: Endpoints>(
    m: Sockets<E>,
    id: SocketId,
    reply: E::Reply,
    raw: i32,
    status: SocketStatus,
    data: Bytes,
    backlogged: bool,
)
    ensures
        same_but(m, bridge::with_status(m, id, status), id),
        same_but(m, results::sockets_after_connect(m, id, reply, raw), id),
        same_but(m, traffic::sockets_after_completion(m, id, raw), id),
        same_but(m, traffic::sockets_after_poll(m, id, raw), id),
        same_but(m, traffic::sockets_after_send(m, id), id),
        same_but(m, traffic::with_data(m, id, data, backlogged), id),
        same_but(m, traffic::without_reply(m, id), id),
{
    assert(m.remove(id) =~= bridge::with_status(m, id, status).remove(id));
    assert(m.remove(id) =~= results::sockets_after_connect(m, id, reply, raw).remove(id));
    assert(m.remove(id) =~= traffic::sockets_after_completion(m, id, raw).remove(id));
    assert(m.remove(id) =~= traffic::sockets_after_poll(m, id, raw).remove(id));
    assert(m.remove(id) =~= traffic::sockets_after_send(m, id).remove(id));
    assert(m.remove(id) =~= traffic::with_data(m, id, data, backlogged).remove(id));
    assert(m.remove(id) =~= traffic::without_reply(m, id).remove(id));
}

/// Whether the last word of a list of settings is that calls do not block.
pub open spec fn ends_nonblocking(settings: Seq<SettingView>) -> bool {
    &&& settings.len() >= 2
    &&& settings.take(2) == results::nonblocking()
    &&& forall|i: int|
        2 <= i < settings.len() ==> (#[trigger] settings[i]).option != SocketOption::RcvSyn
            && settings[i].option != SocketOption::SndSyn
}

/// All sockets are non-blocking: those that are created and groups, whatever their
/// configuration asks for, and those that are accepted.
pub proof fn law_sockets_do_not_block<E: Endpoints>(
    m: Sockets<E>,
    id: SocketId,
    config: ConfigView,
    reply: E::Reply,
    listener: SocketId,
)
    ensures
        ({
            let created = results::created_step::<E>(config, reply, Ok(id)).effects[0];
            created is SetOptions && created->SetOptions_id == id && ends_nonblocking(
                created->SetOptions_settings,
            )
        }),
        ({
            let accepted = traffic::accept_effects(m, listener, id)[0];
            accepted is SetOptions && accepted->SetOptions_id == id && ends_nonblocking(
                accepted->SetOptions_settings,
            )
        }),
{
    let settings = results::initial_settings(config);
    let wanted = options::wanted_settings(options::option_table(config));
    assert(settings.take(2) =~= results::nonblocking());
    assert(results::nonblocking().take(2) =~= results::nonblocking());
    assert forall|i: int| 2 <= i < settings.len() implies (#[trigger] settings[i]).option
        != SocketOption::RcvSyn && settings[i].option != SocketOption::SndSyn by {
        assert(settings[i] == wanted[i - 2]);
        options::law_configuration_does_not_block(config, i - 2);
    }
}

/// Who is to be answered for a command.
pub open spec fn asker<E: Endpoints>(cmd: CommandView<E>) -> Option<E::Reply> {
    match cmd {
        CommandView::CreateSocket { reply, .. } => Some(reply),
        CommandView::Bind { reply, .. } => Some(reply),
        CommandView::Listen { reply, .. } => Some(reply),
        CommandView::Connect { reply, .. } => Some(reply),
        CommandView::GetStats { reply, .. } => Some(reply),
        CommandView::GetState { reply, .. } => Some(reply),
        CommandView::GetPeerAddr { reply, .. } => Some(reply),
        CommandView::GetLocalAddr { reply, .. } => Some(reply),
        CommandView::GetStreamId { reply, .. } => Some(reply),
        CommandView::CreateGroup { reply, .. } => Some(reply),
        CommandView::ConnectGroup { reply, .. } => Some(reply),
        CommandView::GetGroupMemberStats { reply, .. } => Some(reply),
        CommandView::RegisterSocket { .. } => None,
        CommandView::RegisterListener { .. } => None,
        CommandView::Close { .. } => None,
        CommandView::Shutdown => None,
    }
}

/// Who is to be answered after a call.
pub open spec fn caller<E: Endpoints>(call: CallView<E>) -> Option<E::Reply> {
    match call {
        CallView::CreateSocket { reply, .. } => Some(reply),
        CallView::Bind { reply, .. } => Some(reply),
        CallView::ArmAcceptHook { reply, .. } => Some(reply),
        CallView::Listen { reply, .. } => Some(reply),
        CallView::Connect { reply, .. } => Some(reply),
        CallView::ReadConnectState { reply, .. } => Some(reply),
        CallView::ReadStats { reply, .. } => Some(reply),
        CallView::ReadState { reply, .. } => Some(reply),
        CallView::ReadPeerName { reply, .. } => Some(reply),
        CallView::ReadLocalName { reply, .. } => Some(reply),
        CallView::ReadStreamId { reply, .. } => Some(reply),
        CallView::CreateGroup { reply, .. } => Some(reply),
        CallView::ConnectGroup { reply, .. } => Some(reply),
        CallView::CountMembers { reply, .. } => Some(reply),
        CallView::ReadMembers { reply, .. } => Some(reply),
        CallView::ReadMemberStats { reply, .. } => Some(reply),
        CallView::ReadCompletedConnect { reply, .. } => Some(reply),
        _ => None,
    }
}

/// Whether an effect answers somebody.
pub open spec fn answers<E: Endpoints>(effect: EffectView<E>, reply: E::Reply) -> bool {
    match effect {
        EffectView::Answer { reply: r, .. } => r == reply,
        EffectView::AnswerLastError { reply: r } => r == reply,
        _ => false,
    }
}

/// Whether a step does not forget who is to be answered: it answers, or makes a
/// call after which it will.
pub open spec fn remembers<E: Endpoints>(step: StepView<E>, reply: E::Reply) -> bool {
    ||| exists|i: int| 0 <= i < step.effects.len() && answers(#[trigger] step.effects[i], reply)
    ||| step.next matches NextView::Call(call) && caller(call) == Some(reply)
}

/// Whoever gives a command that is to be answered is not forgotten.
pub proof fn law_askers_are_remembered<E: Endpoints>(
    m: Sockets<E>,
    cmd: CommandView<E>,
    reply: E::Reply,
)
    requires
        asker(cmd) == Some(reply),
    ensures
        remembers(commands::command_step(m, cmd), reply),
{
    match cmd {
        CommandView::ConnectGroup { endpoints, .. } => {
            if endpoints.len() == 0 {
                assert(answers(commands::command_step(m, cmd).effects[0], reply));
            }
        },
        _ => {},
    }
}

/// Nor are they when a call has returned: a new socket, a listener that cannot
/// listen, the end of a handshake and the members of a group are all answered for.
pub proof fn law_callers_are_remembered<E: Endpoints>(
    m: Sockets<E>,
    id: SocketId,
    reply: E::Reply,
    config: ConfigView,
    created: Result<SocketId, SrtError>,
    error: SrtError,
    raw: i32,
)
    ensures
        remembers(results::created_step::<E>(config, reply, created), reply),
        remembers(results::refused_listen(m, id, reply, error), reply),
        remembers(traffic::completion_step(m, id, reply, raw), reply),
        m.contains_key(id) ==> remembers(results::connect_step(m, id, reply, raw), reply)
            || results::sockets_after_connect(m, id, reply, raw)[id].connect_reply == Some(reply),
{
    let created_effects = results::created_step::<E>(config, reply, created).effects;
    assert(answers(created_effects[created_effects.len() - 1], reply));
    let refused = results::refused_listen(m, id, reply, error).effects;
    assert(answers(refused[refused.len() - 1], reply));
    assert(answers(traffic::completion_step(m, id, reply, raw).effects[0], reply));
    let connect = results::connect_step(m, id, reply, raw).effects;
    if !results::may_connect(raw) {
        assert(answers(connect[connect.len() - 1], reply));
    }
}

/// A question for the members of a group is answered with an entry for every
/// member, in order, or waits for the statistics of one that is not broken.
pub proof fn law_members_are_all_listed<E: Endpoints>(
    id: SocketId,
    members: Seq<RawMember>,
    done: Seq<GroupMemberStats>,
    reply: E::Reply,
)
    requires
        done.len() <= members.len(),
        forall|i: int| 0 <= i < done.len() ==> (#[trigger] done[i]).id == members[i].id,
    ensures
        ({
            let step = results::members_step::<E>(id, members, done, reply);
            &&& remembers(step, reply)
            &&& step.next is Done ==> step.effects.len() == 1 && (
            step.effects[0] matches EffectView::Answer { answer: AnswerView::Members(list), .. }
                && list.len() == members.len() && forall|i: int|
                0 <= i < list.len() ==> (#[trigger] list[i]).id == members[i].id)
            &&& step.next matches NextView::Call(CallView::ReadMemberStats { done: d, .. })
                ==> d.len() < members.len() && !results::is_broken_member(members[d.len() as int])
        }),
    decreases members.len() - done.len(),
{
    let step = results::members_step::<E>(id, members, done, reply);
    if done.len() >= members.len() {
        assert(answers(step.effects[0], reply));
    } else if results::is_broken_member(members[done.len() as int]) {
        law_members_are_all_listed::<E>(
            id,
            members,
            done.push(results::member_entry(members[done.len() as int], stats::zeroed())),
            reply,
        );
    }
}

} // verus!
