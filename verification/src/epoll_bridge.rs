//! The bridge between libsrt and asynchronous callers.
//!
//! All calls into libsrt are made on one thread. The rules that this thread
//! follows are functions from the state of the bridge and what a call returned
//! to the next state, the effects to carry out and the call to make next.
//! Whoever runs the bridge carries out the effects in order, makes the call and
//! hands its result to the function that goes on from there.

use std::collections::{HashMap, VecDeque};
use vstd::prelude::*;

use bytes::Bytes;

use crate::addr::{RawSockAddr, SocketAddr};
use crate::config::{ConfigView, MemberStatus, SocketStatus, SrtConfig};
use crate::error::SrtError;
use crate::group::GroupMemberStats;
use crate::options::{OptionSetting, SettingView};
use crate::received_packet::ReceivedPacket;
use crate::stats::SrtStats;

pub mod commands;
pub mod io_loop;
pub mod laws;
pub mod results;
pub mod traffic;

verus! {

broadcast use vstd::std_specs::hash::group_hash_axioms;

/// Opaque identifier of a socket.
pub type SocketId = i32;

/// Readable, or a connection to accept.
pub const SRT_EPOLL_IN: u32 = 0x1;

/// Writable.
pub const SRT_EPOLL_OUT: u32 = 0x4;

/// A connection attempt has ended; libsrt shares the bit with `SRT_EPOLL_OUT`.
pub const SRT_EPOLL_CONNECT: u32 = 0x4;

/// The socket is broken.
pub const SRT_EPOLL_ERR: u32 = 0x8;

/// Report changes only.
pub const SRT_EPOLL_ET: u32 = 0x8000_0000;

/// What a listener is watched for.
pub const LISTENER_EVENTS: u32 = 0x9;

/// What a connected socket is watched for. Being writable is not among it: what
/// is to be sent is drained at every turn of the loop.
pub const CONNECTED_EVENTS: u32 = 0x8000_0009;

/// What a connecting socket is watched for.
pub const CONNECTING_EVENTS: u32 = 0x8000_000d;

/// The ends of the channels between the bridge and its callers. The bridge holds
/// them, hands them on and lets go of them; it does not look inside.
pub trait Endpoints {
    /// Where received packets go.
    type RecvTx;

    /// Where data to be sent comes from.
    type SendRx;

    /// Where status changes go.
    type StatusTx;

    /// Where accepted sockets go.
    type AcceptTx;

    /// The policy of a listener, in the place that libsrt was told of.
    type Policy;

    /// Where the answer to a command goes.
    type Reply;
}

/// What the bridge keeps for a socket.
#[verifier::reject_recursive_types(E)]
pub struct SocketState<E: Endpoints> {
    pub recv_tx: Option<E::RecvTx>,
    pub send_rx: Option<E::SendRx>,
    /// Data that libsrt had no room for.
    pub send_backlog: VecDeque<Bytes>,
    pub status_tx: Option<E::StatusTx>,
    /// For listeners: where accepted sockets go.
    pub accept_tx: Option<E::AcceptTx>,
    /// For listeners: the policy.
    pub access_control: Option<E::Policy>,
    pub is_listener: bool,
    pub is_group: bool,
    /// Last known status.
    pub last_status: SocketStatus,
    /// Who waits for the connection to come about.
    pub connect_reply: Option<E::Reply>,
}

/// What the bridge keeps for a socket, with the backlog as a sequence.
#[verifier::ext_equal]
#[verifier::reject_recursive_types(E)]
pub struct SocketView<E: Endpoints> {
    pub recv_tx: Option<E::RecvTx>,
    pub send_rx: Option<E::SendRx>,
    pub send_backlog: Seq<Bytes>,
    pub status_tx: Option<E::StatusTx>,
    pub accept_tx: Option<E::AcceptTx>,
    pub access_control: Option<E::Policy>,
    pub is_listener: bool,
    pub is_group: bool,
    pub last_status: SocketStatus,
    pub connect_reply: Option<E::Reply>,
}

impl<E: Endpoints> View for SocketState<E> {
    type V = SocketView<E>;

    open spec fn view(&self) -> SocketView<E> {
        SocketView {
            recv_tx: self.recv_tx,
            send_rx: self.send_rx,
            send_backlog: self.send_backlog@,
            status_tx: self.status_tx,
            accept_tx: self.accept_tx,
            access_control: self.access_control,
            is_listener: self.is_listener,
            is_group: self.is_group,
            last_status: self.last_status,
            connect_reply: self.connect_reply,
        }
    }
}

/// The sockets of the bridge.
pub type Sockets<E> = Map<SocketId, SocketView<E>>;

/// A socket of which nothing is known yet.
pub open spec fn fresh<E: Endpoints>(is_listener: bool, is_group: bool) -> SocketView<E> {
    SocketView {
        recv_tx: None,
        send_rx: None,
        send_backlog: Seq::empty(),
        status_tx: None,
        accept_tx: None,
        access_control: None,
        is_listener,
        is_group,
        last_status: SocketStatus::Init,
        connect_reply: None,
    }
}

/// What libsrt says of a member of a group.
#[derive(Debug, Clone, Copy)]
pub struct RawMember {
    pub id: SocketId,
    pub peeraddr: RawSockAddr,
    pub sockstate: i32,
    pub memberstate: i32,
    pub weight: u16,
}

/// The answer to a command.
pub enum Answer {
    Socket(Result<SocketId, SrtError>),
    Done(Result<(), SrtError>),
    Stats(Result<SrtStats, SrtError>),
    State(SocketStatus),
    Addr(Option<SocketAddr>),
    StreamId(String),
    Members(Vec<GroupMemberStats>),
}

/// The answer to a command, with strings and lists as sequences.
pub enum AnswerView {
    Socket(Result<SocketId, SrtError>),
    Done(Result<(), SrtError>),
    Stats(Result<SrtStats, SrtError>),
    State(SocketStatus),
    Addr(Option<SocketAddr>),
    StreamId(Seq<char>),
    Members(Seq<GroupMemberStats>),
}

impl View for Answer {
    type V = AnswerView;

    open spec fn view(&self) -> AnswerView {
        match *self {
            Answer::Socket(r) => AnswerView::Socket(r),
            Answer::Done(r) => AnswerView::Done(r),
            Answer::Stats(r) => AnswerView::Stats(r),
            Answer::State(s) => AnswerView::State(s),
            Answer::Addr(a) => AnswerView::Addr(a),
            Answer::StreamId(s) => AnswerView::StreamId(s@),
            Answer::Members(v) => AnswerView::Members(v@),
        }
    }
}

/// Something to be done outside, whose outcome does not matter.
#[verifier::reject_recursive_types(E)]
#[allow(inconsistent_fields)]
pub enum Effect<E: Endpoints> {
    /// Set socket options, one after the other.
    SetOptions { id: SocketId, settings: Vec<OptionSetting> },
    /// Watch a socket.
    AddToEpoll { id: SocketId, events: u32 },
    /// Stop watching a socket.
    RemoveFromEpoll { id: SocketId },
    /// Close a socket.
    CloseSocket { id: SocketId },
    /// Give the whole watch list back.
    ReleaseEpoll,
    /// Tell the watchers of a socket its status.
    PublishStatus { id: SocketId, status: SocketStatus },
    /// Let go of the receiving channel, so that its reader wakes up.
    CloseRecv { channel: E::RecvTx },
    /// Let go of the sending channel, so that its writer wakes up.
    CloseSend { channel: E::SendRx },
    /// Hand a packet to the reader of a socket.
    Deliver { id: SocketId, packet: ReceivedPacket },
    /// Tell a listener of an accepted socket.
    NotifyAccept { listener: SocketId, accepted: SocketId },
    /// Answer a command.
    Answer { reply: E::Reply, answer: Answer },
    /// Answer a command with libsrt's last error.
    AnswerLastError { reply: E::Reply },
    /// Let go of what was kept for a socket.
    Release { id: SocketId, state: SocketState<E> },
}

/// A packet, with the payload as a sequence.
pub struct PacketView {
    pub data: Seq<u8>,
    pub sender_timestamp_us: Option<i64>,
}

/// Something to be done outside, with strings and lists as sequences.
#[verifier::reject_recursive_types(E)]
#[allow(inconsistent_fields)]
pub enum EffectView<E: Endpoints> {
    SetOptions { id: SocketId, settings: Seq<SettingView> },
    AddToEpoll { id: SocketId, events: u32 },
    RemoveFromEpoll { id: SocketId },
    CloseSocket { id: SocketId },
    ReleaseEpoll,
    PublishStatus { id: SocketId, status: SocketStatus },
    CloseRecv { channel: E::RecvTx },
    CloseSend { channel: E::SendRx },
    Deliver { id: SocketId, packet: PacketView },
    NotifyAccept { listener: SocketId, accepted: SocketId },
    Answer { reply: E::Reply, answer: AnswerView },
    AnswerLastError { reply: E::Reply },
    Release { id: SocketId, state: SocketView<E> },
}

impl<E: Endpoints> View for Effect<E> {
    type V = EffectView<E>;

    open spec fn view(&self) -> EffectView<E> {
        match *self {
            Effect::SetOptions { id, settings } => EffectView::SetOptions {
                id,
                settings: crate::options::settings(settings@),
            },
            Effect::AddToEpoll { id, events } => EffectView::AddToEpoll { id, events },
            Effect::RemoveFromEpoll { id } => EffectView::RemoveFromEpoll { id },
            Effect::CloseSocket { id } => EffectView::CloseSocket { id },
            Effect::ReleaseEpoll => EffectView::ReleaseEpoll,
            Effect::PublishStatus { id, status } => EffectView::PublishStatus { id, status },
            Effect::CloseRecv { channel } => EffectView::CloseRecv { channel },
            Effect::CloseSend { channel } => EffectView::CloseSend { channel },
            Effect::Deliver { id, packet } => EffectView::Deliver {
                id,
                packet: PacketView {
                    data: crate::received_packet::contents(packet.data),
                    sender_timestamp_us: packet.sender_timestamp_us,
                },
            },
            Effect::NotifyAccept { listener, accepted } => EffectView::NotifyAccept {
                listener,
                accepted,
            },
            Effect::Answer { reply, answer } => EffectView::Answer { reply, answer: answer@ },
            Effect::AnswerLastError { reply } => EffectView::AnswerLastError { reply },
            Effect::Release { id, state } => EffectView::Release { id, state: state@ },
        }
    }
}

/// A list of effects, with strings and lists as sequences.
pub open spec fn effects_view<E: Endpoints>(effects: Seq<Effect<E>>) -> Seq<EffectView<E>> {
    Seq::new(effects.len(), |i: int| effects[i]@)
}

/// A call to be made outside, whose result decides how to go on. What is needed
/// to go on travels with it.
#[verifier::reject_recursive_types(E)]
pub enum Call<E: Endpoints> {
    /// `srt_create_socket`; goes on with [`Bridge::socket_created`].
    CreateSocket { config: SrtConfig, reply: E::Reply },
    /// `srt_bind`; goes on with [`Bridge::bind_finished`].
    Bind { id: SocketId, addr: SocketAddr, reply: E::Reply },
    /// `srt_listen_callback`; goes on with [`Bridge::accept_hook_armed`].
    ArmAcceptHook { id: SocketId, backlog: i32, reply: E::Reply },
    /// `srt_listen`; goes on with [`Bridge::listen_finished`].
    Listen { id: SocketId, backlog: i32, reply: E::Reply },
    /// `srt_connect`; goes on with [`Bridge::connect_returned`].
    Connect { id: SocketId, addr: SocketAddr, reply: E::Reply },
    /// `srt_getsockstate`; goes on with [`Bridge::connect_state_read`].
    ReadConnectState { id: SocketId, reply: E::Reply },
    /// `srt_getsockstate`; goes on with [`Bridge::registered_state_read`].
    ReadRegisteredState { id: SocketId },
    /// `srt_bistats`; goes on with [`Bridge::stats_read`].
    ReadStats { id: SocketId, reply: E::Reply },
    /// `srt_getsockstate`; goes on with [`Bridge::state_read`].
    ReadState { id: SocketId, reply: E::Reply },
    /// `srt_getpeername`; goes on with [`Bridge::name_read`].
    ReadPeerName { id: SocketId, reply: E::Reply },
    /// `srt_getsockname`; goes on with [`Bridge::name_read`].
    ReadLocalName { id: SocketId, reply: E::Reply },
    /// `srt_getsockflag` for the Stream ID; goes on with [`Bridge::stream_id_read`].
    ReadStreamId { id: SocketId, reply: E::Reply },
    /// `srt_create_group`; goes on with [`Bridge::group_created`].
    CreateGroup { group_type: i32, config: SrtConfig, reply: E::Reply },
    /// `srt_connect_group`; goes on with [`Bridge::group_connected`].
    ConnectGroup { id: SocketId, endpoints: Vec<SocketAddr>, reply: E::Reply },
    /// `srt_group_data` without a buffer; goes on with [`Bridge::members_counted`].
    CountMembers { id: SocketId, reply: E::Reply },
    /// `srt_group_data`; goes on with [`Bridge::members_read`].
    ReadMembers { id: SocketId, capacity: usize, reply: E::Reply },
    /// `srt_bistats` for a member; goes on with [`Bridge::member_stats_read`].
    ReadMemberStats {
        id: SocketId,
        members: Vec<RawMember>,
        done: Vec<GroupMemberStats>,
        reply: E::Reply,
    },
    /// `srt_getsockstate`; goes on with [`Bridge::connect_completed`].
    ReadCompletedConnect { id: SocketId, reply: E::Reply },
    /// `srt_getsockflag` for what was received; goes on with
    /// [`Bridge::received_counted`].
    CountReceived { id: SocketId },
    /// `srt_recvmsg2`; goes on with [`Bridge::message_received`].
    Receive { id: SocketId },
    /// `srt_sendmsg2`; goes on with [`Bridge::send_finished`].
    Send { id: SocketId, data: Bytes, backlogged: bool },
    /// Take what is to be sent next from the sending channel; goes on with
    /// [`Bridge::outgoing_taken`].
    TakeOutgoing { id: SocketId },
    /// `srt_accept`; goes on with [`Bridge::accept_finished`].
    Accept { id: SocketId },
    /// `srt_getsockstate`; goes on with [`Bridge::polled_state_read`].
    ReadPolledState { id: SocketId },
    /// Ask whether the reader of a socket is gone; goes on with
    /// [`io_loop::IoLoop::recv_probed`].
    ProbeRecv { id: SocketId },
}

/// A call to be made outside, with strings and lists as sequences.
#[verifier::reject_recursive_types(E)]
pub enum CallView<E: Endpoints> {
    CreateSocket { config: ConfigView, reply: E::Reply },
    Bind { id: SocketId, addr: SocketAddr, reply: E::Reply },
    ArmAcceptHook { id: SocketId, backlog: i32, reply: E::Reply },
    Listen { id: SocketId, backlog: i32, reply: E::Reply },
    Connect { id: SocketId, addr: SocketAddr, reply: E::Reply },
    ReadConnectState { id: SocketId, reply: E::Reply },
    ReadRegisteredState { id: SocketId },
    ReadStats { id: SocketId, reply: E::Reply },
    ReadState { id: SocketId, reply: E::Reply },
    ReadPeerName { id: SocketId, reply: E::Reply },
    ReadLocalName { id: SocketId, reply: E::Reply },
    ReadStreamId { id: SocketId, reply: E::Reply },
    CreateGroup { group_type: i32, config: ConfigView, reply: E::Reply },
    ConnectGroup { id: SocketId, endpoints: Seq<SocketAddr>, reply: E::Reply },
    CountMembers { id: SocketId, reply: E::Reply },
    ReadMembers { id: SocketId, capacity: usize, reply: E::Reply },
    ReadMemberStats {
        id: SocketId,
        members: Seq<RawMember>,
        done: Seq<GroupMemberStats>,
        reply: E::Reply,
    },
    ReadCompletedConnect { id: SocketId, reply: E::Reply },
    CountReceived { id: SocketId },
    Receive { id: SocketId },
    Send { id: SocketId, data: Bytes, backlogged: bool },
    TakeOutgoing { id: SocketId },
    Accept { id: SocketId },
    ReadPolledState { id: SocketId },
    ProbeRecv { id: SocketId },
}

impl<E: Endpoints> View for Call<E> {
    type V = CallView<E>;

    open spec fn view(&self) -> CallView<E> {
        match *self {
            Call::CreateSocket { config, reply } => CallView::CreateSocket {
                config: config@,
                reply,
            },
            Call::Bind { id, addr, reply } => CallView::Bind { id, addr, reply },
            Call::ArmAcceptHook { id, backlog, reply } => CallView::ArmAcceptHook {
                id,
                backlog,
                reply,
            },
            Call::Listen { id, backlog, reply } => CallView::Listen { id, backlog, reply },
            Call::Connect { id, addr, reply } => CallView::Connect { id, addr, reply },
            Call::ReadConnectState { id, reply } => CallView::ReadConnectState { id, reply },
            Call::ReadRegisteredState { id } => CallView::ReadRegisteredState { id },
            Call::ReadStats { id, reply } => CallView::ReadStats { id, reply },
            Call::ReadState { id, reply } => CallView::ReadState { id, reply },
            Call::ReadPeerName { id, reply } => CallView::ReadPeerName { id, reply },
            Call::ReadLocalName { id, reply } => CallView::ReadLocalName { id, reply },
            Call::ReadStreamId { id, reply } => CallView::ReadStreamId { id, reply },
            Call::CreateGroup { group_type, config, reply } => CallView::CreateGroup {
                group_type,
                config: config@,
                reply,
            },
            Call::ConnectGroup { id, endpoints, reply } => CallView::ConnectGroup {
                id,
                endpoints: endpoints@,
                reply,
            },
            Call::CountMembers { id, reply } => CallView::CountMembers { id, reply },
            Call::ReadMembers { id, capacity, reply } => CallView::ReadMembers {
                id,
                capacity,
                reply,
            },
            Call::ReadMemberStats { id, members, done, reply } => CallView::ReadMemberStats {
                id,
                members: members@,
                done: done@,
                reply,
            },
            Call::ReadCompletedConnect { id, reply } => CallView::ReadCompletedConnect { id, reply },
            Call::CountReceived { id } => CallView::CountReceived { id },
            Call::Receive { id } => CallView::Receive { id },
            Call::Send { id, data, backlogged } => CallView::Send { id, data, backlogged },
            Call::TakeOutgoing { id } => CallView::TakeOutgoing { id },
            Call::Accept { id } => CallView::Accept { id },
            Call::ReadPolledState { id } => CallView::ReadPolledState { id },
            Call::ProbeRecv { id } => CallView::ProbeRecv { id },
        }
    }
}

/// How to go on after the effects of a step.
#[verifier::reject_recursive_types(E)]
pub enum Next<E: Endpoints> {
    /// Make a call and go on with its result.
    Call(Call<E>),
    /// The work is done.
    Done,
    /// The work is done, and the bridge is to shut down.
    Shutdown,
}

/// How to go on after the effects of a step, with lists as sequences.
#[verifier::reject_recursive_types(E)]
pub enum NextView<E: Endpoints> {
    Call(CallView<E>),
    Done,
    Shutdown,
}

/// One step: effects to carry out in order, and how to go on.
#[verifier::reject_recursive_types(E)]
pub struct Step<E: Endpoints> {
    pub effects: Vec<Effect<E>>,
    pub next: Next<E>,
}

/// One step, with lists as sequences.
#[verifier::ext_equal]
#[verifier::reject_recursive_types(E)]
pub struct StepView<E: Endpoints> {
    pub effects: Seq<EffectView<E>>,
    pub next: NextView<E>,
}

impl<E: Endpoints> View for Step<E> {
    type V = StepView<E>;

    open spec fn view(&self) -> StepView<E> {
        StepView {
            effects: effects_view(self.effects@),
            next: match self.next {
                Next::Call(call) => NextView::Call(call@),
                Next::Done => NextView::Done,
                Next::Shutdown => NextView::Shutdown,
            },
        }
    }
}

/// A step that is done after its effects.
pub open spec fn done<E: Endpoints>(effects: Seq<EffectView<E>>) -> StepView<E> {
    StepView { effects, next: NextView::Done }
}

/// A step without effects that goes on with a call.
pub open spec fn calling<E: Endpoints>(call: CallView<E>) -> StepView<E> {
    StepView { effects: Seq::empty(), next: NextView::Call(call) }
}

/// A step that shuts the bridge down.
pub open spec fn stopping<E: Endpoints>() -> StepView<E> {
    StepView { effects: Seq::empty(), next: NextView::Shutdown }
}

/// The effect that answers a command.
pub open spec fn answering<E: Endpoints>(reply: E::Reply, answer: AnswerView) -> EffectView<E> {
    EffectView::Answer { reply, answer }
}

/// Whether no further I/O is possible on a socket with this status: broken,
/// closing, closed, or not known to libsrt any more.
pub open spec fn is_terminal(status: SocketStatus) -> bool {
    status == SocketStatus::Broken || status == SocketStatus::Closing || status
        == SocketStatus::Closed || status == SocketStatus::NonExist
}

/// Whether a socket with this status is connected or about to be.
pub open spec fn is_live(status: SocketStatus) -> bool {
    status == SocketStatus::Connected || status == SocketStatus::Connecting
}

/// The status that a state number of libsrt stands for. A number that libsrt
/// does not have counts as a socket that does not exist.
pub open spec fn status_of(raw: i32) -> SocketStatus {
    if raw == 1 {
        SocketStatus::Init
    } else if raw == 2 {
        SocketStatus::Opened
    } else if raw == 3 {
        SocketStatus::Listening
    } else if raw == 4 {
        SocketStatus::Connecting
    } else if raw == 5 {
        SocketStatus::Connected
    } else if raw == 6 {
        SocketStatus::Broken
    } else if raw == 7 {
        SocketStatus::Closing
    } else if raw == 8 {
        SocketStatus::Closed
    } else {
        SocketStatus::NonExist
    }
}

/// The status that a member state number of libsrt stands for.
pub open spec fn member_status_of(raw: i32) -> MemberStatus {
    if raw == 0 {
        MemberStatus::Pending
    } else if raw == 1 {
        MemberStatus::Idle
    } else if raw == 2 {
        MemberStatus::Running
    } else {
        MemberStatus::Broken
    }
}

/// A socket after its status became known. A terminal status takes the receiving
/// channel away, so that its reader does not wait for ever. It takes the sending
/// channel away only from a socket that was live: a new group counts as broken
/// until it has members.
pub open spec fn status_updated<E: Endpoints>(
    s: SocketView<E>,
    status: SocketStatus,
) -> SocketView<E> {
    SocketView {
        last_status: status,
        recv_tx: if is_terminal(status) {
            None
        } else {
            s.recv_tx
        },
        send_rx: if is_terminal(status) && is_live(s.last_status) {
            None
        } else {
            s.send_rx
        },
        ..s
    }
}

/// What is to be done outside when a status becomes known: those who watch it
/// are told first, then the channels that the socket loses are let go of.
pub open spec fn status_effects<E: Endpoints>(
    id: SocketId,
    s: SocketView<E>,
    status: SocketStatus,
) -> Seq<EffectView<E>> {
    (if s.status_tx is Some {
        seq![EffectView::PublishStatus { id, status }]
    } else {
        Seq::empty()
    }) + (if is_terminal(status) && s.recv_tx is Some {
        seq![EffectView::CloseRecv { channel: s.recv_tx->Some_0 }]
    } else {
        Seq::empty()
    }) + (if is_terminal(status) && is_live(s.last_status) && s.send_rx is Some {
        seq![EffectView::CloseSend { channel: s.send_rx->Some_0 }]
    } else {
        Seq::empty()
    })
}

/// The sockets after the status of one became known; no change where the socket
/// is not among them.
pub open spec fn with_status<E: Endpoints>(
    m: Sockets<E>,
    id: SocketId,
    status: SocketStatus,
) -> Sockets<E> {
    if m.contains_key(id) {
        m.insert(id, status_updated(m[id], status))
    } else {
        m
    }
}

/// What is to be done outside when the status of a socket becomes known.
pub open spec fn with_status_effects<E: Endpoints>(
    m: Sockets<E>,
    id: SocketId,
    status: SocketStatus,
) -> Seq<EffectView<E>> {
    if m.contains_key(id) {
        status_effects(id, m[id], status)
    } else {
        Seq::empty()
    }
}

/// What it takes to be rid of a socket: libsrt stops watching it and closes it,
/// and only then is let go of what was kept for it.
pub open spec fn close_effects<E: Endpoints>(id: SocketId) -> Seq<EffectView<E>> {
    seq![EffectView::RemoveFromEpoll { id }, EffectView::CloseSocket { id }]
}

/// Letting go of what was kept for a socket.
pub open spec fn release_effects<E: Endpoints>(m: Sockets<E>, id: SocketId) -> Seq<EffectView<E>> {
    if m.contains_key(id) {
        seq![EffectView::Release { id, state: m[id] }]
    } else {
        Seq::empty()
    }
}

/// Letting go of what was kept for a socket, with an error for whoever waits for
/// it to connect.
pub open spec fn farewell_effects<E: Endpoints>(
    m: Sockets<E>,
    id: SocketId,
    error: SrtError,
) -> Seq<EffectView<E>> {
    if m.contains_key(id) {
        (if m[id].connect_reply is Some {
            seq![answering(m[id].connect_reply->Some_0, AnswerView::Done(Err(error)))]
        } else {
            Seq::empty()
        }).push(
            EffectView::Release { id, state: SocketView { connect_reply: None, ..m[id] } },
        )
    } else {
        Seq::empty()
    }
}

/// Whether no further I/O is possible on a socket with this status.
pub fn is_terminal_status(status: SocketStatus) -> (b: bool)
    ensures
        b == is_terminal(status),
{
    match status {
        SocketStatus::Broken
        | SocketStatus::Closing
        | SocketStatus::Closed
        | SocketStatus::NonExist => true,
        _ => false,
    }
}

/// The status that a state number of libsrt stands for.
pub fn raw_state_to_status(raw: i32) -> (status: SocketStatus)
    ensures
        status == status_of(raw),
{
    match raw {
        1 => SocketStatus::Init,
        2 => SocketStatus::Opened,
        3 => SocketStatus::Listening,
        4 => SocketStatus::Connecting,
        5 => SocketStatus::Connected,
        6 => SocketStatus::Broken,
        7 => SocketStatus::Closing,
        8 => SocketStatus::Closed,
        9 => SocketStatus::NonExist,
        _ => SocketStatus::NonExist,
    }
}

/// The status that a member state number of libsrt stands for.
pub fn map_member_status(raw: i32) -> (status: MemberStatus)
    ensures
        status == member_status_of(raw),
{
    match raw {
        0 => MemberStatus::Pending,
        1 => MemberStatus::Idle,
        2 => MemberStatus::Running,
        3 => MemberStatus::Broken,
        _ => MemberStatus::Broken,
    }
}

/// Adds an effect to a list.
pub(crate) fn add_effect<E: Endpoints>(effects: &mut Vec<Effect<E>>, effect: Effect<E>)
    ensures
        effects_view(final(effects)@) == effects_view(old(effects)@).push(effect@),
{
    effects.push(effect);
    assert(effects_view(effects@) =~= effects_view(old(effects)@).push(effect@));
}

impl<E: Endpoints> SocketState<E> {
    /// A socket of which nothing is known yet.
    pub fn new(is_listener: bool, is_group: bool) -> (s: SocketState<E>)
        ensures
            s@ == fresh::<E>(is_listener, is_group),
    {
        SocketState {
            recv_tx: None,
            send_rx: None,
            send_backlog: VecDeque::new(),
            status_tx: None,
            accept_tx: None,
            access_control: None,
            is_listener,
            is_group,
            last_status: SocketStatus::Init,
            connect_reply: None,
        }
    }

    /// Takes over a status that became known.
    pub fn update_status(
        &mut self,
        id: SocketId,
        status: SocketStatus,
        effects: &mut Vec<Effect<E>>,
    )
        ensures
            final(self)@ == status_updated(old(self)@, status),
            effects_view(final(effects)@) == effects_view(old(effects)@) + status_effects(
                id,
                old(self)@,
                status,
            ),
    {
        let ghost before = effects_view(effects@);
        let previous = self.last_status;
        self.last_status = status;
        if self.status_tx.is_some() {
            add_effect(effects, Effect::PublishStatus { id, status });
        }
        if is_terminal_status(status) {
            match self.recv_tx.take() {
                Some(channel) => {
                    add_effect(effects, Effect::CloseRecv { channel });
                },
                None => {},
            }
            if previous == SocketStatus::Connected || previous == SocketStatus::Connecting {
                match self.send_rx.take() {
                    Some(channel) => {
                        add_effect(effects, Effect::CloseSend { channel });
                    },
                    None => {},
                }
            }
        }
        assert(effects_view(effects@) =~= before + status_effects(id, old(self)@, status));
    }
}

/// The sockets that the bridge looks after.
#[verifier::reject_recursive_types(E)]
pub struct Bridge<E: Endpoints> {
    pub sockets: HashMap<SocketId, SocketState<E>>,
}

impl<E: Endpoints> View for Bridge<E> {
    type V = Sockets<E>;

    open spec fn view(&self) -> Sockets<E> {
        self.sockets@.map_values(|s: SocketState<E>| s@)
    }
}

impl<E: Endpoints> Bridge<E> {
    /// A bridge without sockets.
    pub fn new() -> (b: Bridge<E>)
        ensures
            b@ == Map::<SocketId, SocketView<E>>::empty(),
    {
        let b = Bridge { sockets: HashMap::new() };
        assert(b@ =~= Map::<SocketId, SocketView<E>>::empty());
        b
    }

    /// What is kept for a socket.
    pub fn get(&self, id: SocketId) -> (s: Option<&SocketState<E>>)
        ensures
            match s {
                Some(state) => self@.contains_key(id) && state@ == self@[id],
                None => !self@.contains_key(id),
            },
    {
        self.sockets.get(&id)
    }

    /// Whether there is no socket.
    pub fn is_empty(&self) -> (b: bool)
        ensures
            b == (self@.dom() =~= Set::empty()),
    {
        let b = self.sockets.is_empty();
        assert(self@.dom() =~= self.sockets@.dom());
        b
    }

    /// Takes a socket out.
    pub(crate) fn take(&mut self, id: SocketId) -> (s: Option<SocketState<E>>)
        ensures
            final(self)@ == old(self)@.remove(id),
            match s {
                Some(state) => old(self)@.contains_key(id) && state@ == old(self)@[id],
                None => !old(self)@.contains_key(id),
            },
    {
        let s = self.sockets.remove(&id);
        assert(self@ =~= old(self)@.remove(id));
        s
    }

    /// Puts a socket in.
    pub(crate) fn put(&mut self, id: SocketId, state: SocketState<E>)
        ensures
            final(self)@ == old(self)@.insert(id, state@),
    {
        self.sockets.insert(id, state);
        assert(self@ =~= old(self)@.insert(id, state@));
    }

    /// Takes over a status that became known, where the socket is looked after.
    pub(crate) fn set_status(
        &mut self,
        id: SocketId,
        status: SocketStatus,
        effects: &mut Vec<Effect<E>>,
    )
        ensures
            final(self)@ == with_status(old(self)@, id, status),
            effects_view(final(effects)@) == effects_view(old(effects)@) + with_status_effects(
                old(self)@,
                id,
                status,
            ),
    {
        match self.take(id) {
            Some(mut state) => {
                state.update_status(id, status, effects);
                self.put(id, state);
                assert(self@ =~= with_status(old(self)@, id, status));
            },
            None => {
                assert(self@ =~= old(self)@);
                assert(effects_view(effects@) =~= effects_view(old(effects)@)
                    + with_status_effects(old(self)@, id, status));
            },
        }
    }

    /// Closes a socket in libsrt and then takes it out. What was kept for it is
    /// handed to the caller, who lets go of it after the effects so far.
    pub(crate) fn close_and_release(
        &mut self,
        id: SocketId,
        effects: &mut Vec<Effect<E>>,
    ) -> (s: Option<SocketState<E>>)
        ensures
            final(self)@ == old(self)@.remove(id),
            effects_view(final(effects)@) == effects_view(old(effects)@) + close_effects(id),
            match s {
                Some(state) => old(self)@.contains_key(id) && state@ == old(self)@[id],
                None => !old(self)@.contains_key(id),
            },
    {
        add_effect(effects, Effect::RemoveFromEpoll { id });
        add_effect(effects, Effect::CloseSocket { id });
        assert(effects_view(effects@) =~= effects_view(old(effects)@) + close_effects(id));
        self.take(id)
    }

    /// Closes a socket and lets go of what was kept for it, with an error for
    /// whoever waits for it to connect.
    pub(crate) fn close_with_farewell(
        &mut self,
        id: SocketId,
        error: SrtError,
        effects: &mut Vec<Effect<E>>,
    )
        ensures
            final(self)@ == old(self)@.remove(id),
            effects_view(final(effects)@) == effects_view(old(effects)@) + close_effects(id)
                + farewell_effects(old(self)@, id, error),
    {
        let ghost m = self@;
        let ghost before = effects_view(effects@);
        match self.close_and_release(id, effects) {
            Some(mut state) => {
                match state.connect_reply.take() {
                    Some(reply) => {
                        add_effect(
                            effects,
                            Effect::Answer { reply, answer: Answer::Done(Err(error)) },
                        );
                    },
                    None => {},
                }
                add_effect(effects, Effect::Release { id, state });
            },
            None => {},
        }
        assert(effects_view(effects@) =~= before + close_effects(id) + farewell_effects(
            m,
            id,
            error,
        ));
    }
}

} // verus!
