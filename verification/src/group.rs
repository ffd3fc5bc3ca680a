//! Socket groups for bonding, and the builder that connects them.

use vstd::prelude::*;

use bytes::Bytes;

use crate::addr::SocketAddr;
use crate::config;
use crate::config::{
    ConfigView, CryptoModeConfig, KeySize, MemberStatus, RetransmitAlgo, SocketStatus, SrtConfig,
};
use crate::duration::Duration;
use crate::epoll_bridge::SocketId;
use crate::error::SrtError;
use crate::flow;
use crate::flow::{
    answer_of, latency_millis, step_0, step_1, step_2, FlowStep, FlowView, Order, OrderView, Wait,
    WaitView,
};
use crate::received_packet::ReceivedPacket;
use crate::socket;
use crate::socket::{received, received_bytes, stats_answer};
use crate::stats::SrtStats;

verus! {

/// How many packets may wait to be sent.
pub const GROUP_CHANNEL_CAPACITY: usize = 8192;

/// State and statistics of one link of a group.
#[derive(Debug, Clone, Copy)]
pub struct GroupMemberStats {
    /// libsrt member socket ID.
    pub id: SocketId,
    /// Peer address this member is connected to, where it is known.
    pub peer_addr: Option<SocketAddr>,
    /// Underlying SRT socket status (connection state).
    pub socket_status: SocketStatus,
    /// Status of the member within the group.
    pub member_status: MemberStatus,
    /// Member priority (backup mode).
    pub weight: u16,
    /// Traffic statistics of the member. Zeroed when libsrt reports the member
    /// as broken.
    pub stats: SrtStats,
}

/// How the links of a group are used.
#[derive(Debug, Clone, Copy, PartialEq, Eq, Structural)]
pub enum GroupMode {
    /// All links are active at the same time: SMPTE 2022-7 hitless redundancy.
    Broadcast,
    /// One link is active, the others step in.
    Backup,
}

impl GroupMode {
    /// libsrt's number of the group type.
    pub open spec fn srt_type(self) -> i32 {
        match self {
            GroupMode::Broadcast => 1,
            GroupMode::Backup => 2,
        }
    }

    /// libsrt's number of the group type.
    pub fn to_srt_type(self) -> (t: i32)
        ensures
            t == self.srt_type(),
    {
        match self {
            GroupMode::Broadcast => 1,
            GroupMode::Backup => 2,
        }
    }
}

/// A group that is connected.
#[derive(Debug)]
pub struct SrtGroup {
    pub id: SocketId,
    pub mode: GroupMode,
    pub endpoints: Vec<SocketAddr>,
}

/// A group that is connected, with the endpoints as a sequence.
#[verifier::ext_equal]
pub struct GroupInfo {
    pub id: SocketId,
    pub mode: GroupMode,
    pub endpoints: Seq<SocketAddr>,
}

impl View for SrtGroup {
    type V = GroupInfo;

    open spec fn view(&self) -> GroupInfo {
        GroupInfo { id: self.id, mode: self.mode, endpoints: self.endpoints@ }
    }
}

impl SrtGroup {
    /// A builder with the default configuration and no endpoints.
    pub fn builder(mode: GroupMode) -> (b: SrtGroupBuilder)
        ensures
            b@ == new_builder(mode),
    {
        SrtGroupBuilder::new(mode)
    }

    /// What sending comes to, once the bridge has taken the [`socket::payload`] or
    /// is known to hold the channel no more.
    pub fn send(&self, data: &[u8], taken: bool) -> (result: Result<usize, SrtError>)
        ensures
            result == (if taken {
                Ok(data@.len() as usize)
            } else {
                Err::<usize, SrtError>(SrtError::ConnectionLost)
            }),
    {
        if taken {
            Ok(data.len())
        } else {
            Err(SrtError::ConnectionLost)
        }
    }

    /// What receiving comes to, once the next packet came or the channel ended.
    pub fn recv(&self, packet: Option<ReceivedPacket>) -> (result: Result<
        ReceivedPacket,
        SrtError,
    >)
        ensures
            result == (match packet {
                Some(p) => Ok(p),
                None => Err(SrtError::ConnectionLost),
            }),
    {
        received(packet)
    }

    /// What receiving without metadata comes to.
    pub fn recv_bytes(&self, packet: Option<ReceivedPacket>) -> (result: Result<Bytes, SrtError>)
        ensures
            result == (match packet {
                Some(p) => Ok(p.data),
                None => Err(SrtError::ConnectionLost),
            }),
    {
        received_bytes(packet)
    }

    /// The statistics of the whole group, once the bridge has answered.
    pub fn stats(&self, answer: Option<Result<SrtStats, SrtError>>) -> (s: SrtStats)
        ensures
            s == socket::stats_said(answer),
    {
        stats_answer(answer)
    }

    /// The statistics of each member, once the bridge has answered; none where it
    /// has not.
    pub fn member_stats(&self, answer: Option<Vec<GroupMemberStats>>) -> (members: Vec<
        GroupMemberStats,
    >)
        ensures
            members@ == (match answer {
                Some(list) => list@,
                None => Seq::empty(),
            }),
    {
        match answer {
            Some(list) => list,
            None => Vec::new(),
        }
    }

    /// How the links are used.
    pub fn mode(&self) -> (mode: GroupMode)
        ensures
            mode == self@.mode,
    {
        self.mode
    }

    /// The endpoints that the group is connected to.
    pub fn endpoints(&self) -> (endpoints: &[SocketAddr])
        ensures
            endpoints@ == self@.endpoints,
    {
        self.endpoints.as_slice()
    }

    /// The order that closes the group and all its members.
    pub fn close(&self) -> (order: Order)
        ensures
            order@ == (OrderView::Close { id: self@.id }),
    {
        Order::Close { id: self.id }
    }
}

/// Configures a group and connects it.
#[derive(Debug)]
pub struct SrtGroupBuilder {
    pub mode: GroupMode,
    pub config: SrtConfig,
    pub endpoints: Vec<SocketAddr>,
}

/// What a group is built from.
pub struct GroupBuilderView {
    pub mode: GroupMode,
    pub config: ConfigView,
    pub endpoints: Seq<SocketAddr>,
}

impl View for SrtGroupBuilder {
    type V = GroupBuilderView;

    open spec fn view(&self) -> GroupBuilderView {
        GroupBuilderView { mode: self.mode, config: self.config@, endpoints: self.endpoints@ }
    }
}

/// The builder with the default configuration and no endpoints.
pub open spec fn new_builder(mode: GroupMode) -> GroupBuilderView {
    GroupBuilderView { mode, config: config::default_config(), endpoints: Seq::empty() }
}

/// A group that is being connected.
#[derive(Debug)]
pub struct GroupFlow {
    pub mode: GroupMode,
    pub endpoints: Vec<SocketAddr>,
}

/// A group that is being connected, with the endpoints as a sequence.
#[verifier::ext_equal]
pub struct GroupFlowView {
    pub mode: GroupMode,
    pub endpoints: Seq<SocketAddr>,
}

impl View for GroupFlow {
    type V = GroupFlowView;

    open spec fn view(&self) -> GroupFlowView {
        GroupFlowView { mode: self.mode, endpoints: self.endpoints@ }
    }
}

/// The first step of a group. A group without endpoints is not even created.
pub open spec fn connect_start(b: GroupBuilderView) -> FlowView<GroupInfo> {
    if b.endpoints.len() == 0 {
        flow::failed(SrtError::InvalidParam)
    } else {
        FlowView {
            orders: seq![OrderView::CreateGroup { mode: b.mode.srt_type(), config: b.config }],
            wait: WaitView::Created,
        }
    }
}

/// The step after a group was asked for.
pub open spec fn created_step(
    f: GroupFlowView,
    created: Option<Result<SocketId, SrtError>>,
) -> FlowView<GroupInfo> {
    match flow::said(created) {
        Ok(id) => FlowView {
            orders: seq![
                OrderView::Register {
                    id,
                    status: SocketStatus::Init,
                    capacity: GROUP_CHANNEL_CAPACITY,
                },
                OrderView::ConnectGroup { id, endpoints: f.endpoints },
            ],
            wait: WaitView::Connected,
        },
        Err(error) => flow::failed(error),
    }
}

/// The end of a group that was told to connect.
pub open spec fn connected_end(
    f: GroupFlowView,
    id: SocketId,
    connected: Option<Result<(), SrtError>>,
) -> FlowView<GroupInfo> {
    FlowView {
        orders: Seq::empty(),
        wait: WaitView::Finished(
            match flow::said(connected) {
                Ok(_) => Ok(GroupInfo { id, mode: f.mode, endpoints: f.endpoints }),
                Err(error) => Err(error),
            },
        ),
    }
}

/// A copy of a list of addresses.
fn copy_of(list: &Vec<SocketAddr>) -> (copy: Vec<SocketAddr>)
    ensures
        copy@ == list@,
{
    let mut copy: Vec<SocketAddr> = Vec::new();
    for i in 0..list.len()
        invariant
            copy@ == list@.take(i as int),
    {
        copy.push(list[i]);
        assert(copy@ =~= list@.take(i + 1));
    }
    assert(list@.take(list@.len() as int) =~= list@);
    copy
}

impl SrtGroupBuilder {
    /// The builder with another configuration.
    pub open spec fn with_config(self, config: SrtConfig) -> SrtGroupBuilder {
        SrtGroupBuilder { config, ..self }
    }

    /// A builder with the default configuration and no endpoints.
    pub fn new(mode: GroupMode) -> (b: SrtGroupBuilder)
        ensures
            b@ == new_builder(mode),
    {
        let b = SrtGroupBuilder { mode, config: SrtConfig::default(), endpoints: Vec::new() };
        assert(b@.endpoints =~= Seq::empty());
        b
    }

    /// Adds an endpoint.
    pub fn add_endpoint(self, addr: SocketAddr) -> (b: Self)
        ensures
            b@ == (GroupBuilderView { endpoints: self@.endpoints.push(addr), ..self@ }),
    {
        let mut builder = self;
        builder.endpoints.push(addr);
        builder
    }

    /// Sets the latency of both sides.
    pub fn latency(self, latency: Duration) -> (b: Self)
        ensures
            b == self.with_config(
                SrtConfig {
                    recv_latency: flow::latency_option(latency),
                    peer_latency: flow::latency_option(latency),
                    ..self.config
                },
            ),
    {
        let mut builder = self;
        let ms: u32 = latency_millis(latency);
        builder.config.recv_latency = ms;
        builder.config.peer_latency = ms;
        builder
    }

    /// Sets the latency of the sending side.
    pub fn sender_latency(self, latency: Duration) -> (b: Self)
        ensures
            b == self.with_config(
                SrtConfig { peer_latency: flow::latency_option(latency), ..self.config },
            ),
    {
        let mut builder = self;
        let ms: u32 = latency_millis(latency);
        builder.config.peer_latency = ms;
        builder
    }

    /// Sets the latency of the receiving side.
    pub fn receiver_latency(self, latency: Duration) -> (b: Self)
        ensures
            b == self.with_config(
                SrtConfig { recv_latency: flow::latency_option(latency), ..self.config },
            ),
    {
        let mut builder = self;
        let ms: u32 = latency_millis(latency);
        builder.config.recv_latency = ms;
        builder
    }

    /// Turns encryption on.
    pub fn encryption(self, passphrase: &str, key_size: KeySize) -> (b: Self)
        ensures
            b.config.passphrase@ == passphrase@,
            b == self.with_config(
                SrtConfig { passphrase: b.config.passphrase, key_size, ..self.config },
            ),
    {
        let mut builder = self;
        builder.config.passphrase = passphrase.to_owned();
        builder.config.key_size = key_size;
        builder
    }

    /// Sets the cipher mode.
    pub fn crypto_mode(self, mode: CryptoModeConfig) -> (b: Self)
        ensures
            b == self.with_config(SrtConfig { crypto_mode: mode, ..self.config }),
    {
        let mut builder = self;
        builder.config.crypto_mode = mode;
        builder
    }

    /// Sets the maximum segment size.
    pub fn mss(self, mss: u32) -> (b: Self)
        ensures
            b == self.with_config(SrtConfig { mss, ..self.config }),
    {
        let mut builder = self;
        builder.config.mss = mss;
        builder
    }

    /// Sets the flow control window.
    pub fn flight_flag_size(self, size: u32) -> (b: Self)
        ensures
            b == self.with_config(SrtConfig { flight_flag_size: size, ..self.config }),
    {
        let mut builder = self;
        builder.config.flight_flag_size = size;
        builder
    }

    /// Sets the size of the send buffer in bytes.
    pub fn send_buffer_size(self, size: u32) -> (b: Self)
        ensures
            b == self.with_config(SrtConfig { send_buffer_size: size, ..self.config }),
    {
        let mut builder = self;
        builder.config.send_buffer_size = size;
        builder
    }

    /// Sets the size of the receive buffer in bytes.
    pub fn recv_buffer_size(self, size: u32) -> (b: Self)
        ensures
            b == self.with_config(SrtConfig { recv_buffer_size: size, ..self.config }),
    {
        let mut builder = self;
        builder.config.recv_buffer_size = size;
        builder
    }

    /// Sets after which silence the peer counts as gone.
    pub fn peer_idle_timeout(self, timeout: Duration) -> (b: Self)
        ensures
            b == self.with_config(SrtConfig { peer_idle_timeout: timeout, ..self.config }),
    {
        let mut builder = self;
        builder.config.peer_idle_timeout = timeout;
        builder
    }

    /// Sets how long a connection may take to come about.
    pub fn connect_timeout(self, timeout: Duration) -> (b: Self)
        ensures
            b == self.with_config(SrtConfig { connect_timeout: timeout, ..self.config }),
    {
        let mut builder = self;
        builder.config.connect_timeout = timeout;
        builder
    }

    /// Sets the live transmission mode.
    pub fn live_mode(self) -> (b: Self)
        ensures
            b.config@ == config::in_live_mode(self.config@),
            b == self.with_config(b.config),
    {
        let mut builder = self;
        builder.config.live_defaults();
        builder
    }

    /// Sets the Stream ID.
    pub fn stream_id(self, id: String) -> (b: Self)
        ensures
            b == self.with_config(SrtConfig { stream_id: id, ..self.config }),
    {
        let mut builder = self;
        builder.config.stream_id = id;
        builder
    }

    /// Sets the packet filter (FEC).
    pub fn packet_filter(self, filter: String) -> (b: Self)
        ensures
            b == self.with_config(SrtConfig { packet_filter: filter, ..self.config }),
    {
        let mut builder = self;
        builder.config.packet_filter = filter;
        builder
    }

    /// Sets the maximum bandwidth in bytes per second.
    pub fn max_bw(self, bw: i64) -> (b: Self)
        ensures
            b == self.with_config(SrtConfig { max_bw: bw, ..self.config }),
    {
        let mut builder = self;
        builder.config.max_bw = bw;
        builder
    }

    /// Sets the estimated input bandwidth in bytes per second.
    pub fn input_bw(self, bw: i64) -> (b: Self)
        ensures
            b == self.with_config(SrtConfig { input_bw: bw, ..self.config }),
    {
        let mut builder = self;
        builder.config.input_bw = bw;
        builder
    }

    /// Sets the overhead bandwidth in percent.
    pub fn overhead_bw(self, pct: i32) -> (b: Self)
        ensures
            b == self.with_config(SrtConfig { overhead_bw: pct, ..self.config }),
    {
        let mut builder = self;
        builder.config.overhead_bw = pct;
        builder
    }

    /// Sets the maximum bandwidth of retransmission in bytes per second.
    pub fn max_rexmit_bw(self, bw: i64) -> (b: Self)
        ensures
            b == self.with_config(SrtConfig { max_rexmit_bw: bw, ..self.config }),
    {
        let mut builder = self;
        builder.config.max_rexmit_bw = bw;
        builder
    }

    /// Sets whether peers that do not encrypt are turned away.
    pub fn enforced_encryption(self, enforce: bool) -> (b: Self)
        ensures
            b == self.with_config(SrtConfig { enforced_encryption: enforce, ..self.config }),
    {
        let mut builder = self;
        builder.config.enforced_encryption = enforce;
        builder
    }

    /// Sets the payload size.
    pub fn payload_size(self, size: u32) -> (b: Self)
        ensures
            b == self.with_config(SrtConfig { payload_size: size, ..self.config }),
    {
        let mut builder = self;
        builder.config.payload_size = size;
        builder
    }

    /// Sets the IP type of service.
    pub fn ip_tos(self, tos: i32) -> (b: Self)
        ensures
            b == self.with_config(SrtConfig { ip_tos: tos, ..self.config }),
    {
        let mut builder = self;
        builder.config.ip_tos = tos;
        builder
    }

    /// Sets the IP time to live.
    pub fn ip_ttl(self, ttl: i32) -> (b: Self)
        ensures
            b == self.with_config(SrtConfig { ip_ttl: ttl, ..self.config }),
    {
        let mut builder = self;
        builder.config.ip_ttl = ttl;
        builder
    }

    /// Sets the retransmission algorithm.
    pub fn retransmit_algo(self, algo: RetransmitAlgo) -> (b: Self)
        ensures
            b == self.with_config(SrtConfig { retransmit_algo: algo, ..self.config }),
    {
        let mut builder = self;
        builder.config.retransmit_algo = algo;
        builder
    }

    /// Sets the delay of dropping at the sender in milliseconds.
    pub fn send_drop_delay(self, delay: i32) -> (b: Self)
        ensures
            b == self.with_config(SrtConfig { send_drop_delay: delay, ..self.config }),
    {
        let mut builder = self;
        builder.config.send_drop_delay = delay;
        builder
    }

    /// Sets the tolerance of reordering.
    pub fn loss_max_ttl(self, ttl: i32) -> (b: Self)
        ensures
            b == self.with_config(SrtConfig { loss_max_ttl: ttl, ..self.config }),
    {
        let mut builder = self;
        builder.config.loss_max_ttl = ttl;
        builder
    }

    /// Sets after how many packets the key is renewed.
    pub fn km_refresh_rate(self, rate: u32) -> (b: Self)
        ensures
            b == self.with_config(SrtConfig { km_refresh_rate: rate, ..self.config }),
    {
        let mut builder = self;
        builder.config.km_refresh_rate = rate;
        builder
    }

    /// Sets how many packets ahead a new key is announced.
    pub fn km_pre_announce(self, packets: u32) -> (b: Self)
        ensures
            b == self.with_config(SrtConfig { km_pre_announce: packets, ..self.config }),
    {
        let mut builder = self;
        builder.config.km_pre_announce = packets;
        builder
    }

    /// Sets whether packets that come too late are dropped.
    pub fn tlpkt_drop(self, enable: bool) -> (b: Self)
        ensures
            b == self.with_config(SrtConfig { tlpkt_drop: enable, ..self.config }),
    {
        let mut builder = self;
        builder.config.tlpkt_drop = enable;
        builder
    }

    /// Begins to connect the group to all its endpoints.
    pub fn connect(self) -> (begun: (GroupFlow, FlowStep<SrtGroup>))
        ensures
            begun.0@ == (GroupFlowView { mode: self@.mode, endpoints: self@.endpoints }),
            begun.1@ == connect_start(self@),
    {
        let step = if self.endpoints.len() == 0 {
            step_0(Wait::Finished(Err(SrtError::InvalidParam)))
        } else {
            step_1(
                Order::CreateGroup { mode: self.mode.to_srt_type(), config: self.config },
                Wait::Created,
            )
        };
        (GroupFlow { mode: self.mode, endpoints: self.endpoints }, step)
    }
}

impl GroupFlow {
    /// Goes on when the group was asked for.
    pub fn created(&self, created: Option<Result<SocketId, SrtError>>) -> (step: FlowStep<
        SrtGroup,
    >)
        ensures
            step@ == created_step(self@, created),
    {
        match answer_of(created) {
            Ok(id) => step_2(
                Order::Register {
                    id,
                    status: SocketStatus::Init,
                    capacity: GROUP_CHANNEL_CAPACITY,
                },
                Order::ConnectGroup { id, endpoints: copy_of(&self.endpoints) },
                Wait::Connected,
            ),
            Err(error) => step_0(Wait::Finished(Err(error))),
        }
    }

    /// Ends when the group was told to connect.
    pub fn connected(
        self,
        id: SocketId,
        connected: Option<Result<(), SrtError>>,
    ) -> (step: FlowStep<SrtGroup>)
        ensures
            step@ == connected_end(self@, id, connected),
    {
        match answer_of(connected) {
            Ok(_) => step_0(
                Wait::Finished(
                    Ok(SrtGroup { id, mode: self.mode, endpoints: self.endpoints }),
                ),
            ),
            Err(error) => step_0(Wait::Finished(Err(error))),
        }
    }
}

/// A group without endpoints gives no order at all, and fails.
pub proof fn law_group_needs_endpoints(b: GroupBuilderView)
    ensures
        connect_start(b).orders.len() == 0 <==> b.endpoints.len() == 0,
        b.endpoints.len() == 0 ==> connect_start(b) == flow::failed::<GroupInfo>(
            SrtError::InvalidParam,
        ),
{
}

} // verus!
