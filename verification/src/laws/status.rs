//! What becomes of a socket when its status becomes known.

use vstd::prelude::*;

use crate::config::{MemberStatus, SocketStatus};
use crate::epoll_bridge;
use crate::epoll_bridge::{
    is_terminal_status, map_member_status, raw_state_to_status, Bridge, Effect, EffectView,
    Endpoints, SocketId, SocketState, SocketView, Sockets,
};

verus! {

/// Whether a socket has come to its end.
pub open spec fn has_ended(status: SocketStatus) -> bool {
    status == SocketStatus::Broken || status == SocketStatus::Closing || status
        == SocketStatus::Closed || status == SocketStatus::NonExist
}

/// Four statuses are the end of a socket: broken, closing, closed and gone.
pub proof fn law_four_statuses_are_the_end(status: SocketStatus, b: bool)
    requires
        call_ensures(is_terminal_status, (status,), b),
    ensures
        b <==> has_ended(status),
{
}

/// The state numbers of libsrt count up from a new socket; any other number is that of a
/// socket that does not exist.
pub proof fn law_state_numbers(raw: i32, status: SocketStatus)
    requires
        call_ensures(raw_state_to_status, (raw,), status),
    ensures
        status == SocketStatus::Init <==> raw == 1,
        status == SocketStatus::Opened <==> raw == 2,
        status == SocketStatus::Listening <==> raw == 3,
        status == SocketStatus::Connecting <==> raw == 4,
        status == SocketStatus::Connected <==> raw == 5,
        status == SocketStatus::Broken <==> raw == 6,
        status == SocketStatus::Closing <==> raw == 7,
        status == SocketStatus::Closed <==> raw == 8,
        status == SocketStatus::NonExist <==> raw < 1 || raw > 8,
{
}

/// The member state numbers of libsrt count up from a member that is not there yet; any
/// other number is that of a broken one.
pub proof fn law_member_numbers(raw: i32, status: MemberStatus)
    requires
        call_ensures(map_member_status, (raw,), status),
    ensures
        status == MemberStatus::Pending <==> raw == 0,
        status == MemberStatus::Idle <==> raw == 1,
        status == MemberStatus::Running <==> raw == 2,
        status == MemberStatus::Broken <==> raw < 0 || raw > 2,
{
}

/// How a socket relates to the one it was before its status became known. Its status is the
/// new one. It has lost its receiving channel where it has ended, and its sending channel
/// where it has ended and was connected or connecting before. All else is as it was.
pub open spec fn is_updated<E: Endpoints>(
    before: SocketView<E>,
    after: SocketView<E>,
    status: SocketStatus,
) -> bool {
    &&& after.last_status == status
    &&& has_ended(status) ==> after.recv_tx is None
    &&& !has_ended(status) ==> after.recv_tx == before.recv_tx
    &&& has_ended(status) && (before.last_status == SocketStatus::Connected || before.last_status
        == SocketStatus::Connecting) ==> after.send_rx is None
    &&& !has_ended(status) || !(before.last_status == SocketStatus::Connected || before.last_status
        == SocketStatus::Connecting) ==> after.send_rx == before.send_rx
    &&& after.send_backlog == before.send_backlog
    &&& after.status_tx == before.status_tx
    &&& after.accept_tx == before.accept_tx
    &&& after.access_control == before.access_control
    &&& after.is_listener == before.is_listener
    &&& after.is_group == before.is_group
    &&& after.connect_reply == before.connect_reply
}

/// Whether effects tell of the change from one socket to another. They tell the status to
/// those who watch it, and let go of each channel that was lost, in this order; and they
/// do no more.
pub open spec fn tells<E: Endpoints>(
    id: SocketId,
    before: SocketView<E>,
    after: SocketView<E>,
    effects: Seq<EffectView<E>>,
) -> bool {
    let watched: int = if before.status_tx is Some {
        1
    } else {
        0
    };
    let unread: int = if before.recv_tx is Some && after.recv_tx is None {
        1
    } else {
        0
    };
    let unsent: int = if before.send_rx is Some && after.send_rx is None {
        1
    } else {
        0
    };
    &&& effects.len() == watched + unread + unsent
    &&& watched == 1 ==> effects[0] == (EffectView::<E>::PublishStatus {
        id,
        status: after.last_status,
    })
    &&& unread == 1 ==> effects[watched] == (EffectView::<E>::CloseRecv {
        channel: before.recv_tx->Some_0,
    })
    &&& unsent == 1 ==> effects[watched + unread] == (EffectView::<E>::CloseSend {
        channel: before.send_rx->Some_0,
    })
}

/// Whether one socket of many has taken a status over, and the effects tell of it. Where
/// it is not looked after nothing changes and nothing is told.
pub open spec fn turns_to<E: Endpoints>(
    before: Sockets<E>,
    after: Sockets<E>,
    id: SocketId,
    status: SocketStatus,
    effects: Seq<EffectView<E>>,
) -> bool {
    &&& after.dom() == before.dom()
    &&& others_stay(before, after, id)
    &&& before.contains_key(id) ==> is_updated(before[id], after[id], status) && tells(
        id,
        before[id],
        after[id],
        effects,
    )
    &&& !before.contains_key(id) ==> effects.len() == 0
}

/// Whether every socket but one is as it was.
pub open spec fn others_stay<E: Endpoints>(
    before: Sockets<E>,
    after: Sockets<E>,
    id: SocketId,
) -> bool {
    forall|other: SocketId|
        other != id ==> (#[trigger] after.contains_key(other) <==> before.contains_key(other)) && (
        before.contains_key(other) ==> after[other] == before[other])
}

/// A status that becomes known is taken over, and told to those it concerns.
pub proof fn law_a_status_is_taken_over<E: Endpoints>(
    state: &mut SocketState<E>,
    id: SocketId,
    status: SocketStatus,
    effects: &mut Vec<Effect<E>>,
    out: (),
)
    requires
        call_ensures(SocketState::<E>::update_status, (state, id, status, effects), out),
    ensures
        is_updated(old(state)@, final(state)@, status),
        ({
            let told = epoll_bridge::effects_view(final(effects)@);
            let first = epoll_bridge::effects_view(old(effects)@);
            first.len() <= told.len() && told.take(first.len() as int) == first && tells(
                id,
                old(state)@,
                final(state)@,
                told.skip(first.len() as int),
            )
        }),
{
    let told = epoll_bridge::effects_view(final(effects)@);
    let first = epoll_bridge::effects_view(old(effects)@);
    assert(told.take(first.len() as int) =~= first);
    assert(told.skip(first.len() as int) =~= epoll_bridge::status_effects(
        id,
        old(state)@,
        status,
    ));
}

/// The status of one socket of many is taken over as that of the one alone.
pub proof fn lemma_turns_to<E: Endpoints>(m: Sockets<E>, id: SocketId, status: SocketStatus)
    ensures
        turns_to(
            m,
            epoll_bridge::with_status(m, id, status),
            id,
            status,
            epoll_bridge::with_status_effects(m, id, status),
        ),
{
    assert(epoll_bridge::with_status(m, id, status).dom() =~= m.dom());
}

/// Whether nothing is known of a socket yet.
pub open spec fn is_new<E: Endpoints>(
    s: SocketView<E>,
    is_listener: bool,
    is_group: bool,
) -> bool {
    &&& s.recv_tx is None
    &&& s.send_rx is None
    &&& s.send_backlog.len() == 0
    &&& s.status_tx is None
    &&& s.accept_tx is None
    &&& s.access_control is None
    &&& s.is_listener == is_listener
    &&& s.is_group == is_group
    &&& s.last_status == SocketStatus::Init
    &&& s.connect_reply is None
}

/// A new socket has no channels, and a new bridge no sockets.
pub proof fn law_beginnings<E: Endpoints>(
    is_listener: bool,
    is_group: bool,
    state: SocketState<E>,
    bridge: Bridge<E>,
    id: SocketId,
)
    ensures
        call_ensures(SocketState::<E>::new, (is_listener, is_group), state) ==> is_new(
            state@,
            is_listener,
            is_group,
        ),
        call_ensures(Bridge::<E>::new, (), bridge) ==> !bridge@.contains_key(id),
{
}

/// What is kept for a socket is found, and a bridge is empty where it has none.
pub proof fn law_sockets_are_found<E: Endpoints>(
    bridge: &Bridge<E>,
    id: SocketId,
    found: Option<&SocketState<E>>,
    empty: bool,
)
    ensures
        call_ensures(Bridge::<E>::get, (bridge, id), found) ==> (found is Some
            <==> bridge@.contains_key(id)) && (found is Some ==> found->Some_0@ == bridge@[id]),
        call_ensures(Bridge::<E>::is_empty, (bridge,), empty) ==> (empty <==> forall|other: SocketId|
            !bridge@.contains_key(other)),
{
    if call_ensures(Bridge::<E>::is_empty, (bridge,), empty) {
        if forall|other: SocketId| !bridge@.contains_key(other) {
            assert(bridge@.dom() =~= Set::empty());
        }
        if empty {
            assert forall|other: SocketId| !bridge@.contains_key(other) by {
                assert(!bridge@.dom().contains(other));
            }
        }
    }
}

} // verus!
