//! What the steps of setting sockets, listeners and groups up do.

use vstd::prelude::*;

use bytes::Bytes;

use crate::addr::SocketAddr;
use crate::config::{ConfigView, SocketStatus};
use crate::epoll_bridge::SocketId;
use crate::error::SrtError;
use crate::flow::{answer_in_time, answer_of, Awaited, FlowStep, Order, OrderView, Wait};
use crate::group::{GroupFlow, GroupMemberStats, GroupMode, SrtGroup, SrtGroupBuilder};
use crate::listener::{BindFlow, SrtListener, SrtListenerBuilder};
use crate::received_packet;
use crate::received_packet::ReceivedPacket;
use crate::socket::{
    payload, received, received_bytes, stats_answer, ConnectFlow, SendOutcome, SrtSocket,
    SrtSocketBuilder,
};
use crate::stats::SrtStats;

verus! {

/// The view of an order shows all of it.
pub proof fn law_orders_show_themselves(order: Order)
    ensures
        match order {
            Order::CreateSocket { config } => order@ == OrderView::CreateSocket { config: config@ },
            Order::Register { id, status, capacity } => order@ == OrderView::Register {
                id,
                status,
                capacity,
            },
            Order::RegisterListener { id, capacity } => order@ == OrderView::RegisterListener {
                id,
                capacity,
            },
            Order::Bind { id, addr } => order@ == OrderView::Bind { id, addr },
            Order::Listen { id, backlog } => order@ == OrderView::Listen { id, backlog },
            Order::Connect { id, addr } => order@ == OrderView::Connect { id, addr },
            Order::CreateGroup { mode, config } => order@ == OrderView::CreateGroup {
                mode,
                config: config@,
            },
            Order::ConnectGroup { id, endpoints } => order@ == OrderView::ConnectGroup {
                id,
                endpoints: endpoints@,
            },
            Order::GetLocalAddr { id } => order@ == OrderView::GetLocalAddr { id },
            Order::GetPeerAddr { id } => order@ == OrderView::GetPeerAddr { id },
            Order::GetStreamId { id } => order@ == OrderView::GetStreamId { id },
            Order::Close { id } => order@ == OrderView::Close { id },
        },
{
}

/// A step of a flow that gives the orders, and no others, in their order.
pub open spec fn orders<T>(step: FlowStep<T>, wanted: Seq<OrderView>) -> bool {
    &&& step.orders@.len() == wanted.len()
    &&& forall|i: int| 0 <= i < wanted.len() ==> (#[trigger] step.orders@[i])@ == wanted[i]
}

/// Whether a flow has ended with an error.
pub open spec fn failed_with<T>(step: FlowStep<T>, error: SrtError) -> bool {
    step.wait matches Wait::Finished(result) && (result matches Err(e) && e == error)
}

/// Connecting begins with a socket that has the configuration of the builder in every
/// field. The local address, the peer and the Stream ID are kept, and the time to wait
/// for the connection is two seconds longer than libsrt's own.
pub proof fn law_connect_begins(
    b: SrtSocketBuilder,
    remote: SocketAddr,
    begun: (ConnectFlow, FlowStep<SrtSocket>),
)
    requires
        b.config.connect_timeout.secs + 2 <= u64::MAX,
        call_ensures(SrtSocketBuilder::connect, (b, remote), begun),
    ensures
        orders(begun.1, seq![OrderView::CreateSocket { config: b.config@ }]),
        begun.1.wait is Created,
        begun.0.bind_addr == b.bind_addr,
        begun.0.remote == remote,
        begun.0.budget.secs == b.config.connect_timeout.secs + 2,
        begun.0.budget.nanos == b.config.connect_timeout.nanos,
        begun.0.stream_id@ == b.config.stream_id@,
{
    assert(begun.1@.orders.len() == begun.1.orders@.len());
    assert(begun.1@.orders[0] == begun.1.orders@[0]@);
}

/// A rendezvous begins like a connection of the same builder with rendezvous mode and
/// the local address set.
pub proof fn law_rendezvous_begins(
    b: SrtSocketBuilder,
    local: SocketAddr,
    remote: SocketAddr,
    begun: (ConnectFlow, FlowStep<SrtSocket>),
)
    requires
        b.config.connect_timeout.secs + 2 <= u64::MAX,
        call_ensures(SrtSocketBuilder::connect_rendezvous, (b, local, remote), begun),
    ensures
        orders(
            begun.1,
            seq![OrderView::CreateSocket {
                config: ConfigView { rendezvous: true, ..b.config@ },
            }],
        ),
        begun.1.wait is Created,
        begun.0.bind_addr == Some(local),
        begun.0.remote == remote,
        begun.0.budget.secs == b.config.connect_timeout.secs + 2,
        begun.0.budget.nanos == b.config.connect_timeout.nanos,
        begun.0.stream_id@ == b.config.stream_id@,
{
    assert(begun.1@.orders.len() == begun.1.orders@.len());
    assert(begun.1@.orders[0] == begun.1.orders@[0]@);
}

/// A new socket is registered, and then bound where a local address was given, and
/// connected to the peer where none was. Without a socket the flow ends.
pub proof fn law_connect_goes_on_from_a_socket(
    flow: &ConnectFlow,
    created: Option<Result<SocketId, SrtError>>,
    step: FlowStep<SrtSocket>,
)
    requires
        call_ensures(ConnectFlow::created, (flow, created), step),
    ensures
        match created {
            Some(Ok(id)) => {
                let register = OrderView::Register {
                    id,
                    status: SocketStatus::Init,
                    capacity: 256,
                };
                match flow.bind_addr {
                    Some(addr) => step.wait is Bound && orders(
                        step,
                        seq![register, OrderView::Bind { id, addr }],
                    ),
                    None => step.wait == Wait::<SrtSocket>::ConnectedWithin(flow.budget) && orders(
                        step,
                        seq![register, OrderView::Connect { id, addr: flow.remote }],
                    ),
                }
            },
            Some(Err(error)) => failed_with(step, error) && step.orders@.len() == 0,
            None => failed_with(step, SrtError::SocketFail) && step.orders@.len() == 0,
        },
{
    assert(forall|i: int|
        0 <= i < step.orders@.len() ==> (#[trigger] step.orders@[i])@ == step@.orders[i]);
    assert(step@.orders.len() == step.orders@.len());
}

/// A socket that was bound is connected to the peer, for as long as the budget says. One
/// that could not be bound is closed.
pub proof fn law_connect_goes_on_from_binding(
    flow: &ConnectFlow,
    id: SocketId,
    bound: Option<Result<(), SrtError>>,
    step: FlowStep<SrtSocket>,
)
    requires
        call_ensures(ConnectFlow::bound, (flow, id, bound), step),
    ensures
        match bound {
            Some(Ok(_)) => step.wait == Wait::<SrtSocket>::ConnectedWithin(flow.budget) && orders(
                step,
                seq![OrderView::Connect { id, addr: flow.remote }],
            ),
            Some(Err(error)) => failed_with(step, error) && orders(
                step,
                seq![OrderView::Close { id }],
            ),
            None => failed_with(step, SrtError::SocketFail) && orders(
                step,
                seq![OrderView::Close { id }],
            ),
        },
{
    assert(forall|i: int|
        0 <= i < step.orders@.len() ==> (#[trigger] step.orders@[i])@ == step@.orders[i]);
    assert(step@.orders.len() == step.orders@.len());
}

/// A socket that is connected is asked for its addresses. One that is not is closed, and
/// the error, or that the time ran out, is reported.
pub proof fn law_connect_goes_on_from_connecting(
    flow: &ConnectFlow,
    id: SocketId,
    awaited: Awaited,
    step: FlowStep<SrtSocket>,
)
    requires
        call_ensures(ConnectFlow::connected, (flow, id, awaited), step),
    ensures
        match awaited {
            Awaited::Answered(Some(Ok(_))) => step.wait is Answers && orders(
                step,
                seq![OrderView::GetLocalAddr { id }, OrderView::GetPeerAddr { id }],
            ),
            Awaited::Answered(Some(Err(error))) => failed_with(step, error) && orders(
                step,
                seq![OrderView::Close { id }],
            ),
            Awaited::Answered(None) => failed_with(step, SrtError::SocketFail) && orders(
                step,
                seq![OrderView::Close { id }],
            ),
            Awaited::TimedOut => failed_with(step, SrtError::Timeout) && orders(
                step,
                seq![OrderView::Close { id }],
            ),
        },
{
    assert(forall|i: int|
        0 <= i < step.orders@.len() ==> (#[trigger] step.orders@[i])@ == step@.orders[i]);
    assert(step@.orders.len() == step.orders@.len());
}

/// Whether an address is all zeros.
pub open spec fn is_zero(addr: SocketAddr) -> bool {
    addr is V4 && addr->V4_port == 0 && addr->V4_octets@ == seq![0u8, 0, 0, 0]
}

/// A socket has the addresses that the bridge found, and the Stream ID that it was
/// connected or accepted with. Where no local address was found it is all zeros.
pub proof fn law_sockets_know_who_they_are(
    flow: ConnectFlow,
    id: SocketId,
    local: Option<SocketAddr>,
    peer: Option<SocketAddr>,
    stream_id: Option<String>,
    socket: SrtSocket,
)
    ensures
        call_ensures(ConnectFlow::named, (flow, id, local, peer), socket) ==> socket.id == id && (
        local is Some ==> socket.local_addr == local->Some_0) && (local is None ==> is_zero(
            socket.local_addr,
        )) && socket.peer_addr == peer && socket.stream_id@ == flow.stream_id@,
        call_ensures(SrtSocket::accepted, (id, local, peer, stream_id), socket) ==> socket.id == id
            && (local is Some ==> socket.local_addr == local->Some_0) && (local is None ==> is_zero(
            socket.local_addr,
        )) && socket.peer_addr == peer && (stream_id is Some ==> socket.stream_id@
            == stream_id->Some_0@) && (stream_id is None ==> socket.stream_id@.len() == 0),
{
}

/// An accepted socket counts as connected. It is registered first and then asked for
/// its addresses and its Stream ID.
pub proof fn law_accepting_begins(id: SocketId, step: FlowStep<SrtSocket>)
    requires
        call_ensures(SrtSocket::from_accepted, (id,), step),
    ensures
        step.wait is Answers,
        orders(
            step,
            seq![
                OrderView::Register { id, status: SocketStatus::Connected, capacity: 256 },
                OrderView::GetLocalAddr { id },
                OrderView::GetPeerAddr { id },
                OrderView::GetStreamId { id },
            ],
        ),
{
    assert(forall|i: int|
        0 <= i < step.orders@.len() ==> (#[trigger] step.orders@[i])@ == step@.orders[i]);
    assert(step@.orders.len() == step.orders@.len());
}

/// What a socket says of itself is what it holds, and closing names the socket.
pub proof fn law_socket_getters(
    socket: &SrtSocket,
    local: SocketAddr,
    peer: Option<SocketAddr>,
    stream_id: &str,
    order: Order,
)
    ensures
        call_ensures(SrtSocket::local_addr, (socket,), local) ==> local == socket.local_addr,
        call_ensures(SrtSocket::peer_addr, (socket,), peer) ==> peer == socket.peer_addr,
        call_ensures(SrtSocket::stream_id, (socket,), stream_id) ==> stream_id@
            == socket.stream_id@,
        call_ensures(SrtSocket::close, (socket,), order) ==> order@ == (OrderView::Close {
            id: socket.id,
        }),
{
}

/// What is sent is a copy of the data, byte for byte. Sending counts its bytes, also
/// where there was no room for them; it fails only where the bridge holds the channel no
/// more.
pub proof fn law_sending(
    socket: &SrtSocket,
    group: &SrtGroup,
    data: &[u8],
    outcome: SendOutcome,
    taken: bool,
    result: Result<usize, SrtError>,
    packet: Bytes,
)
    ensures
        call_ensures(payload, (data,), packet) ==> received_packet::contents(packet) == data@,
        call_ensures(SrtSocket::send, (socket, data, outcome), result) ==> (result is Err
            <==> outcome == SendOutcome::Closed) && (result is Ok ==> result->Ok_0 == data@.len())
            && (result is Err ==> result->Err_0 == SrtError::AsyncSend),
        call_ensures(SrtGroup::send, (group, data, taken), result) ==> (result is Ok <==> taken) && (
        result is Ok ==> result->Ok_0 == data@.len()) && (result is Err ==> result->Err_0
            == SrtError::ConnectionLost),
{
    assert(data.len() == data@.len());
}

/// A receiver gets the packet that came, payload and time alike, and learns that the
/// connection is lost when no more will come.
pub proof fn law_receiving(
    socket: &SrtSocket,
    group: &SrtGroup,
    packet: ReceivedPacket,
    got: Result<ReceivedPacket, SrtError>,
    bytes: Result<Bytes, SrtError>,
)
    ensures
        call_ensures(SrtSocket::recv, (socket, Some(packet)), got) ==> got is Ok && got->Ok_0
            == packet,
        call_ensures(SrtGroup::recv, (group, Some(packet)), got) ==> got is Ok && got->Ok_0
            == packet,
        call_ensures(received, (Some(packet),), got) ==> got is Ok && got->Ok_0 == packet,
        call_ensures(SrtSocket::recv_bytes, (socket, Some(packet)), bytes) ==> bytes is Ok
            && bytes->Ok_0 == packet.data,
        call_ensures(SrtGroup::recv_bytes, (group, Some(packet)), bytes) ==> bytes is Ok
            && bytes->Ok_0 == packet.data,
        call_ensures(received_bytes, (Some(packet),), bytes) ==> bytes is Ok && bytes->Ok_0
            == packet.data,
        call_ensures(SrtSocket::recv, (socket, None::<ReceivedPacket>), got) ==> got is Err
            && got->Err_0 == SrtError::ConnectionLost,
        call_ensures(SrtGroup::recv, (group, None::<ReceivedPacket>), got) ==> got is Err
            && got->Err_0 == SrtError::ConnectionLost,
        call_ensures(SrtSocket::recv_bytes, (socket, None::<ReceivedPacket>), bytes) ==> bytes is Err
            && bytes->Err_0 == SrtError::ConnectionLost,
        call_ensures(SrtGroup::recv_bytes, (group, None::<ReceivedPacket>), bytes) ==> bytes is Err
            && bytes->Err_0 == SrtError::ConnectionLost,
{
}

/// Statistics are those that the bridge answers, and zero where it does not.
pub proof fn law_statistics_are_answered(
    socket: &SrtSocket,
    group: &SrtGroup,
    answer: Option<Result<SrtStats, SrtError>>,
    stats: SrtStats,
    zero: SrtStats,
)
    requires
        call_ensures(SrtStats::default, (), zero),
        call_ensures(SrtSocket::stats, (socket, answer), stats) || call_ensures(
            SrtGroup::stats,
            (group, answer),
            stats,
        ) || call_ensures(stats_answer, (answer,), stats),
    ensures
        answer is Some && answer->Some_0 is Ok ==> stats == answer->Some_0->Ok_0,
        answer is None || answer->Some_0 is Err ==> stats == zero,
{
}

/// Waiting for a status ends at that status, at a broken or closed socket, or when no
/// change can come any more; and then with the status that the socket has.
pub proof fn law_waiting_for_a_status(
    socket: &SrtSocket,
    target: SocketStatus,
    current: SocketStatus,
    watched: bool,
    reached: Option<SocketStatus>,
)
    requires
        call_ensures(SrtSocket::wait_for_state, (socket, target, current, watched), reached),
    ensures
        reached is None <==> watched && current != target && current != SocketStatus::Broken
            && current != SocketStatus::Closed,
        reached is Some ==> reached->Some_0 == current,
{
}

/// No answer counts as a failure to set up, and time that ran out as a timeout.
pub proof fn law_answers(
    answer: Option<Result<(), SrtError>>,
    awaited: Awaited,
    result: Result<(), SrtError>,
)
    ensures
        call_ensures(answer_of::<()>, (answer,), result) ==> match answer {
            Some(r) => result == r,
            None => result is Err && result->Err_0 == SrtError::SocketFail,
        },
        call_ensures(answer_in_time, (awaited,), result) ==> match awaited {
            Awaited::Answered(Some(r)) => result == r,
            Awaited::Answered(None) => result is Err && result->Err_0 == SrtError::SocketFail,
            Awaited::TimedOut => result is Err && result->Err_0 == SrtError::Timeout,
        },
{
}

/// Binding begins with a socket that has the configuration of the builder in every
/// field; the policy, the address and the backlog are kept.
pub proof fn law_bind_begins<P>(
    b: SrtListenerBuilder<P>,
    addr: SocketAddr,
    begun: (BindFlow, Option<P>, FlowStep<SrtListener>),
)
    requires
        call_ensures(SrtListenerBuilder::<P>::bind, (b, addr), begun),
    ensures
        orders(begun.2, seq![OrderView::CreateSocket { config: b.config@ }]),
        begun.2.wait is Created,
        begun.1 == b.access_control,
        begun.0.addr == addr,
        begun.0.backlog == b.backlog,
{
    assert(begun.2@.orders.len() == begun.2.orders@.len());
    assert(begun.2@.orders[0] == begun.2.orders@[0]@);
}

/// A listener's accept channel and policy are handed over first, then its other channels;
/// then it is bound.
pub proof fn law_bind_goes_on_from_a_socket(
    flow: &BindFlow,
    created: Option<Result<SocketId, SrtError>>,
    step: FlowStep<SrtListener>,
)
    requires
        call_ensures(BindFlow::created, (flow, created), step),
    ensures
        match created {
            Some(Ok(id)) => step.wait is Bound && orders(
                step,
                seq![
                    OrderView::RegisterListener { id, capacity: 16 },
                    OrderView::Register { id, status: SocketStatus::Init, capacity: 1 },
                    OrderView::Bind { id, addr: flow.addr },
                ],
            ),
            Some(Err(error)) => failed_with(step, error) && step.orders@.len() == 0,
            None => failed_with(step, SrtError::SocketFail) && step.orders@.len() == 0,
        },
{
    assert(forall|i: int|
        0 <= i < step.orders@.len() ==> (#[trigger] step.orders@[i])@ == step@.orders[i]);
    assert(step@.orders.len() == step.orders@.len());
}

/// A bound socket is told to listen with the backlog that was set, and a listening one is
/// asked for its address; an error ends the flow.
pub proof fn law_bind_goes_on(
    flow: &BindFlow,
    id: SocketId,
    answer: Option<Result<(), SrtError>>,
    step: FlowStep<SrtListener>,
)
    ensures
        call_ensures(BindFlow::bound, (flow, id, answer), step) ==> match answer {
            Some(Ok(_)) => step.wait is Listening && orders(
                step,
                seq![OrderView::Listen { id, backlog: flow.backlog }],
            ),
            Some(Err(error)) => failed_with(step, error) && step.orders@.len() == 0,
            None => failed_with(step, SrtError::SocketFail) && step.orders@.len() == 0,
        },
        call_ensures(BindFlow::listening, (flow, id, answer), step) ==> match answer {
            Some(Ok(_)) => step.wait is Answers && orders(step, seq![OrderView::GetLocalAddr { id }]),
            Some(Err(error)) => failed_with(step, error) && step.orders@.len() == 0,
            None => failed_with(step, SrtError::SocketFail) && step.orders@.len() == 0,
        },
{
    assert(forall|i: int|
        0 <= i < step.orders@.len() ==> (#[trigger] step.orders@[i])@ == step@.orders[i]);
    assert(step@.orders.len() == step.orders@.len());
}

/// A listener has the address that the bridge found, or else the one it was bound to. It
/// hands accepted sockets on, and learns that it was closed when no more will come.
pub proof fn law_listeners(
    flow: &BindFlow,
    id: SocketId,
    local: Option<SocketAddr>,
    made: SrtListener,
    listener: &SrtListener,
    accepted: Option<SocketId>,
    result: Result<SocketId, SrtError>,
    addr: SocketAddr,
    order: Order,
)
    ensures
        call_ensures(BindFlow::named, (flow, id, local), made) ==> made.id == id && (
        local is Some ==> made.local_addr == local->Some_0) && (local is None ==> made.local_addr
            == flow.addr),
        call_ensures(SrtListener::accept, (listener, accepted), result) ==> match accepted {
            Some(socket) => result is Ok && result->Ok_0 == socket,
            None => result is Err && result->Err_0 == SrtError::SocketClosed,
        },
        call_ensures(SrtListener::local_addr, (listener,), addr) ==> addr == listener.local_addr,
        call_ensures(SrtListener::close, (listener,), order) ==> order@ == (OrderView::Close {
            id: listener.id,
        }),
{
}

/// Connecting a group begins with a group of the type and the configuration of the
/// builder, unless there are no endpoints: then it fails at once.
pub proof fn law_group_begins(b: SrtGroupBuilder, begun: (GroupFlow, FlowStep<SrtGroup>))
    requires
        call_ensures(SrtGroupBuilder::connect, (b,), begun),
    ensures
        begun.0.mode == b.mode,
        begun.0.endpoints@ == b.endpoints@,
        b.endpoints@.len() == 0 ==> failed_with(begun.1, SrtError::InvalidParam)
            && begun.1.orders@.len() == 0,
        b.endpoints@.len() > 0 ==> begun.1.wait is Created && orders(
            begun.1,
            seq![OrderView::CreateGroup {
                mode: if b.mode == GroupMode::Broadcast {
                    1
                } else {
                    2
                },
                config: b.config@,
            }],
        ),
{
    assert(begun.1@.orders.len() == begun.1.orders@.len());
    if b.endpoints@.len() > 0 {
        assert(begun.1@.orders[0] == begun.1.orders@[0]@);
    }
}

/// A new group is registered and connected to all its endpoints, in their order; once
/// that is done the flow ends with the group.
pub proof fn law_group_goes_on(
    flow: &GroupFlow,
    created: Option<Result<SocketId, SrtError>>,
    step: FlowStep<SrtGroup>,
)
    requires
        call_ensures(GroupFlow::created, (flow, created), step),
    ensures
        match created {
            Some(Ok(id)) => step.wait is Connected && orders(
                step,
                seq![
                    OrderView::Register { id, status: SocketStatus::Init, capacity: 8192 },
                    OrderView::ConnectGroup { id, endpoints: flow.endpoints@ },
                ],
            ),
            Some(Err(error)) => failed_with(step, error) && step.orders@.len() == 0,
            None => failed_with(step, SrtError::SocketFail) && step.orders@.len() == 0,
        },
{
    assert(forall|i: int|
        0 <= i < step.orders@.len() ==> (#[trigger] step.orders@[i])@ == step@.orders[i]);
    assert(step@.orders.len() == step.orders@.len());
}

/// A group that is connected knows its mode and its endpoints; one that is not is an
/// error.
pub proof fn law_group_ends(
    flow: GroupFlow,
    id: SocketId,
    connected: Option<Result<(), SrtError>>,
    step: FlowStep<SrtGroup>,
)
    requires
        call_ensures(GroupFlow::connected, (flow, id, connected), step),
    ensures
        step.orders@.len() == 0,
        match connected {
            Some(Ok(_)) => step.wait matches Wait::Finished(result) && (result matches Ok(group)
                && group.id == id && group.mode == flow.mode && group.endpoints@
                == flow.endpoints@),
            Some(Err(error)) => failed_with(step, error),
            None => failed_with(step, SrtError::SocketFail),
        },
{
    assert(step@.orders.len() == step.orders@.len());
}

/// What a group says of itself is what it holds; the statistics of its members are those
/// that the bridge answers.
pub proof fn law_group_getters(
    group: &SrtGroup,
    mode: GroupMode,
    endpoints: &[SocketAddr],
    number: i32,
    order: Order,
    answer: Option<Vec<GroupMemberStats>>,
    members: Vec<GroupMemberStats>,
)
    ensures
        call_ensures(SrtGroup::mode, (group,), mode) ==> mode == group.mode,
        call_ensures(SrtGroup::endpoints, (group,), endpoints) ==> endpoints@ == group.endpoints@,
        call_ensures(SrtGroup::close, (group,), order) ==> order@ == (OrderView::Close {
            id: group.id,
        }),
        call_ensures(GroupMode::to_srt_type, (mode,), number) ==> (number == 1 <==> mode
            == GroupMode::Broadcast) && (number == 2 <==> mode == GroupMode::Backup),
        call_ensures(SrtGroup::member_stats, (group, answer), members) ==> match answer {
            Some(list) => members@ == list@,
            None => members@.len() == 0,
        },
{
}

} // verus!
