//! Sockets, and the builder that connects them.

use vstd::prelude::*;

use bytes::Bytes;

use crate::addr;
use crate::addr::SocketAddr;
use crate::config;
use crate::config::{
    ConfigView, CryptoModeConfig, KeySize, RetransmitAlgo, SocketStatus, SrtConfig,
};
use crate::duration::Duration;
use crate::epoll_bridge::SocketId;
use crate::error::SrtError;
use crate::flow;
use crate::flow::{
    answer_in_time, answer_of, latency_millis, step_0, step_1, step_2, Awaited, FlowStep, FlowView,
    Order, OrderView, Wait, WaitView,
};
use crate::received_packet;
use crate::received_packet::ReceivedPacket;
use crate::stats;
use crate::stats::SrtStats;

verus! {

/// How many packets may wait to be sent.
pub const SEND_CHANNEL_CAPACITY: usize = 256;

/// By how many seconds waiting for a connection outlasts libsrt's own limit.
/// libsrt may leave a socket connecting for ever.
pub const CONNECT_GRACE_SECS: u64 = 2;

/// What came of offering a packet to the sending channel.
#[derive(Debug, Clone, Copy, PartialEq, Eq, Structural)]
pub enum SendOutcome {
    /// It was taken.
    Taken,
    /// There was no room, and the packet was dropped.
    Full,
    /// The bridge holds the channel no more.
    Closed,
}

/// A socket that is connected to a peer.
#[derive(Debug)]
pub struct SrtSocket {
    pub id: SocketId,
    pub local_addr: SocketAddr,
    pub peer_addr: Option<SocketAddr>,
    pub stream_id: String,
}

/// A socket that is connected to a peer, with the Stream ID as text.
#[verifier::ext_equal]
pub struct SocketInfo {
    pub id: SocketId,
    pub local_addr: SocketAddr,
    pub peer_addr: Option<SocketAddr>,
    pub stream_id: Seq<char>,
}

impl View for SrtSocket {
    type V = SocketInfo;

    open spec fn view(&self) -> SocketInfo {
        SocketInfo {
            id: self.id,
            local_addr: self.local_addr,
            peer_addr: self.peer_addr,
            stream_id: self.stream_id@,
        }
    }
}

/// Whether an address is the one found, or the unspecified one where none was
/// found.
pub open spec fn is_found_or_unspecified(addr: SocketAddr, found: Option<SocketAddr>) -> bool {
    match found {
        Some(a) => addr == a,
        None => addr::is_unspecified(addr),
    }
}

/// Whether waiting for a status is over: it is there, or can never come.
pub open spec fn wait_is_over(current: SocketStatus, target: SocketStatus) -> bool {
    current == target || current == SocketStatus::Broken || current == SocketStatus::Closed
}

/// What a statistics answer says; zero where there is none.
pub open spec fn stats_said(answer: Option<Result<SrtStats, SrtError>>) -> SrtStats {
    match answer {
        Some(Ok(s)) => s,
        _ => stats::zeroed(),
    }
}

/// What a statistics answer says; zero where there is none.
pub fn stats_answer(answer: Option<Result<SrtStats, SrtError>>) -> (s: SrtStats)
    ensures
        s == stats_said(answer),
{
    match answer {
        Some(Ok(s)) => s,
        _ => SrtStats::default(),
    }
}

/// The packet in which data goes to the bridge to be sent: a copy of the data.
pub fn payload(data: &[u8]) -> (packet: Bytes)
    ensures
        received_packet::contents(packet) == data@,
{
    Bytes::copy_from_slice(data)
}

/// What a receiver gets: a packet, or the loss of the connection where the
/// channel has ended.
pub fn received(packet: Option<ReceivedPacket>) -> (result: Result<ReceivedPacket, SrtError>)
    ensures
        result == (match packet {
            Some(p) => Ok(p),
            None => Err(SrtError::ConnectionLost),
        }),
{
    match packet {
        Some(p) => Ok(p),
        None => Err(SrtError::ConnectionLost),
    }
}

/// What a receiver gets that does not care for metadata.
pub fn received_bytes(packet: Option<ReceivedPacket>) -> (result: Result<Bytes, SrtError>)
    ensures
        result == (match packet {
            Some(p) => Ok(p.data),
            None => Err(SrtError::ConnectionLost),
        }),
{
    match received(packet) {
        Ok(p) => Ok(p.into_bytes()),
        Err(error) => Err(error),
    }
}

impl SrtSocket {
    /// A builder with the default configuration.
    pub fn builder() -> (b: SrtSocketBuilder)
        ensures
            b@ == new_builder(),
    {
        SrtSocketBuilder::new()
    }

    /// Begins to set up an accepted socket.
    pub fn from_accepted(id: SocketId) -> (step: FlowStep<SrtSocket>)
        ensures
            step@ == (FlowView::<SocketInfo> {
                orders: seq![
                    OrderView::Register {
                        id,
                        status: SocketStatus::Connected,
                        capacity: SEND_CHANNEL_CAPACITY,
                    },
                    OrderView::GetLocalAddr { id },
                    OrderView::GetPeerAddr { id },
                    OrderView::GetStreamId { id },
                ],
                wait: WaitView::Answers,
            }),
    {
        let mut orders: Vec<Order> = Vec::new();
        orders.push(
            Order::Register {
                id,
                status: SocketStatus::Connected,
                capacity: SEND_CHANNEL_CAPACITY,
            },
        );
        orders.push(Order::GetLocalAddr { id });
        orders.push(Order::GetPeerAddr { id });
        orders.push(Order::GetStreamId { id });
        let step = FlowStep { orders, wait: Wait::Answers };
        assert(step@.orders =~= seq![
            OrderView::Register {
                id,
                status: SocketStatus::Connected,
                capacity: SEND_CHANNEL_CAPACITY,
            },
            OrderView::GetLocalAddr { id },
            OrderView::GetPeerAddr { id },
            OrderView::GetStreamId { id },
        ]);
        step
    }

    /// Goes on when the bridge has said what it knows of an accepted socket.
    pub fn accepted(
        id: SocketId,
        local: Option<SocketAddr>,
        peer: Option<SocketAddr>,
        stream_id: Option<String>,
    ) -> (socket: SrtSocket)
        ensures
            socket.id == id,
            is_found_or_unspecified(socket.local_addr, local),
            socket.peer_addr == peer,
            socket.stream_id@ == (match stream_id {
                Some(s) => s@,
                None => Seq::empty(),
            }),
    {
        SrtSocket {
            id,
            local_addr: match local {
                Some(found) => found,
                None => addr::unspecified(),
            },
            peer_addr: peer,
            stream_id: match stream_id {
                Some(s) => s,
                None => String::new(),
            },
        }
    }

    /// What sending comes to, once the [`payload`] was offered to the bridge. Data
    /// that found no room is dropped without an error; only a socket that the bridge
    /// has let go of is one.
    pub fn send(&self, data: &[u8], outcome: SendOutcome) -> (result: Result<usize, SrtError>)
        ensures
            result == (if outcome == SendOutcome::Closed {
                Err(SrtError::AsyncSend)
            } else {
                Ok::<usize, SrtError>(data@.len() as usize)
            }),
    {
        match outcome {
            SendOutcome::Closed => Err(SrtError::AsyncSend),
            _ => Ok(data.len()),
        }
    }

    /// What receiving comes to, once the next packet came or the channel ended.
    pub fn recv(&self, packet: Option<ReceivedPacket>) -> (result: Result<
        ReceivedPacket,
        SrtError,
    >)
        ensures
            result == (match packet {
                Some(p) => Ok(p),
                None => Err(SrtError::ConnectionLost),
            }),
    {
        received(packet)
    }

    /// What receiving without metadata comes to.
    pub fn recv_bytes(&self, packet: Option<ReceivedPacket>) -> (result: Result<Bytes, SrtError>)
        ensures
            result == (match packet {
                Some(p) => Ok(p.data),
                None => Err(SrtError::ConnectionLost),
            }),
    {
        received_bytes(packet)
    }

    /// The local address.
    pub fn local_addr(&self) -> (a: SocketAddr)
        ensures
            a == self@.local_addr,
    {
        self.local_addr
    }

    /// The address of the peer.
    pub fn peer_addr(&self) -> (a: Option<SocketAddr>)
        ensures
            a == self@.peer_addr,
    {
        self.peer_addr
    }

    /// The Stream ID.
    pub fn stream_id(&self) -> (s: &str)
        ensures
            s@ == self@.stream_id,
    {
        self.stream_id.as_str()
    }

    /// The statistics, once the bridge has answered.
    pub fn stats(&self, answer: Option<Result<SrtStats, SrtError>>) -> (s: SrtStats)
        ensures
            s == stats_said(answer),
    {
        stats_answer(answer)
    }

    /// Looks whether waiting for a status is over; `watched` is false once no
    /// further change can come. Gives the status that the wait ends with.
    pub fn wait_for_state(
        &self,
        target: SocketStatus,
        current: SocketStatus,
        watched: bool,
    ) -> (reached: Option<SocketStatus>)
        ensures
            reached == (if wait_is_over(current, target) || !watched {
                Some(current)
            } else {
                None
            }),
    {
        if current == target || current == SocketStatus::Broken || current == SocketStatus::Closed {
            Some(current)
        } else if !watched {
            Some(current)
        } else {
            None
        }
    }

    /// The order that closes the socket.
    pub fn close(&self) -> (order: Order)
        ensures
            order@ == (OrderView::Close { id: self@.id }),
    {
        Order::Close { id: self.id }
    }
}

/// Configures a socket and connects it.
#[derive(Debug)]
pub struct SrtSocketBuilder {
    pub config: SrtConfig,
    pub bind_addr: Option<SocketAddr>,
}

/// What a socket is built from.
pub struct SocketBuilderView {
    pub config: ConfigView,
    pub bind_addr: Option<SocketAddr>,
}

impl View for SrtSocketBuilder {
    type V = SocketBuilderView;

    open spec fn view(&self) -> SocketBuilderView {
        SocketBuilderView { config: self.config@, bind_addr: self.bind_addr }
    }
}

/// The builder with the default configuration.
pub open spec fn new_builder() -> SocketBuilderView {
    SocketBuilderView { config: config::default_config(), bind_addr: None }
}

/// A connection that is being set up.
#[derive(Debug)]
pub struct ConnectFlow {
    pub bind_addr: Option<SocketAddr>,
    pub remote: SocketAddr,
    /// How long to wait for the connection.
    pub budget: Duration,
    pub stream_id: String,
}

/// A connection that is being set up, with the Stream ID as text.
#[verifier::ext_equal]
pub struct ConnectView {
    pub bind_addr: Option<SocketAddr>,
    pub remote: SocketAddr,
    pub budget: Duration,
    pub stream_id: Seq<char>,
}

impl View for ConnectFlow {
    type V = ConnectView;

    open spec fn view(&self) -> ConnectView {
        ConnectView {
            bind_addr: self.bind_addr,
            remote: self.remote,
            budget: self.budget,
            stream_id: self.stream_id@,
        }
    }
}

/// How long to wait for a connection: somewhat longer than libsrt does.
pub open spec fn connect_budget(timeout: Duration) -> Duration {
    Duration { secs: (timeout.secs + CONNECT_GRACE_SECS) as u64, nanos: timeout.nanos }
}

/// Whether the time to wait for a connection can be represented.
pub open spec fn has_budget(timeout: Duration) -> bool {
    timeout.secs + CONNECT_GRACE_SECS <= u64::MAX
}

/// Whether the time to wait for a connection can be represented.
pub fn has_connect_budget(timeout: Duration) -> (b: bool)
    ensures
        b == has_budget(timeout),
{
    timeout.checked_add_secs(CONNECT_GRACE_SECS).is_some()
}

/// The connection that a builder sets up.
pub open spec fn connection(b: SocketBuilderView, remote: SocketAddr) -> ConnectView {
    ConnectView {
        bind_addr: b.bind_addr,
        remote,
        budget: connect_budget(b.config.connect_timeout),
        stream_id: b.config.stream_id,
    }
}

/// The first step of a connection.
pub open spec fn connect_start(b: SocketBuilderView) -> FlowView<SocketInfo> {
    FlowView {
        orders: seq![OrderView::CreateSocket { config: b.config }],
        wait: WaitView::Created,
    }
}

/// The order that registers the socket of a connection.
pub open spec fn registering(id: SocketId) -> OrderView {
    OrderView::Register { id, status: SocketStatus::Init, capacity: SEND_CHANNEL_CAPACITY }
}

/// The step after the socket of a connection was asked for: it is registered,
/// and bound where an address was given.
pub open spec fn created_step(
    c: ConnectView,
    created: Option<Result<SocketId, SrtError>>,
) -> FlowView<SocketInfo> {
    match flow::said(created) {
        Ok(id) => match c.bind_addr {
            Some(addr) => FlowView {
                orders: seq![registering(id), OrderView::Bind { id, addr }],
                wait: WaitView::Bound,
            },
            None => FlowView {
                orders: seq![registering(id), OrderView::Connect { id, addr: c.remote }],
                wait: WaitView::ConnectedWithin(c.budget),
            },
        },
        Err(error) => flow::failed(error),
    }
}

/// The step after the socket of a connection was bound.
pub open spec fn bound_step(
    c: ConnectView,
    id: SocketId,
    bound: Option<Result<(), SrtError>>,
) -> FlowView<SocketInfo> {
    match flow::said(bound) {
        Ok(_) => FlowView {
            orders: seq![OrderView::Connect { id, addr: c.remote }],
            wait: WaitView::ConnectedWithin(c.budget),
        },
        Err(error) => flow::closed(id, error),
    }
}

/// The step after the socket of a connection was told to connect.
pub open spec fn connected_step(id: SocketId, awaited: Awaited) -> FlowView<SocketInfo> {
    match flow::said_in_time(awaited) {
        Ok(_) => FlowView {
            orders: seq![OrderView::GetLocalAddr { id }, OrderView::GetPeerAddr { id }],
            wait: WaitView::Answers,
        },
        Err(error) => flow::closed(id, error),
    }
}

impl SrtSocketBuilder {
    /// The builder with another configuration.
    pub open spec fn with_config(self, config: SrtConfig) -> SrtSocketBuilder {
        SrtSocketBuilder { config, ..self }
    }

    /// A builder with the default configuration.
    pub fn new() -> (b: SrtSocketBuilder)
        ensures
            b@ == new_builder(),
    {
        SrtSocketBuilder { config: SrtConfig::default(), bind_addr: None }
    }

    /// Sets the latency of both sides.
    pub fn latency(self, latency: Duration) -> (b: Self)
        ensures
            b == self.with_config(
                SrtConfig {
                    recv_latency: flow::latency_option(latency),
                    peer_latency: flow::latency_option(latency),
                    ..self.config
                },
            ),
    {
        let mut builder = self;
        let ms: u32 = latency_millis(latency);
        builder.config.recv_latency = ms;
        builder.config.peer_latency = ms;
        builder
    }

    /// Sets the latency of the sending side.
    pub fn sender_latency(self, latency: Duration) -> (b: Self)
        ensures
            b == self.with_config(
                SrtConfig { peer_latency: flow::latency_option(latency), ..self.config },
            ),
    {
        let mut builder = self;
        let ms: u32 = latency_millis(latency);
        builder.config.peer_latency = ms;
        builder
    }

    /// Sets the latency of the receiving side.
    pub fn receiver_latency(self, latency: Duration) -> (b: Self)
        ensures
            b == self.with_config(
                SrtConfig { recv_latency: flow::latency_option(latency), ..self.config },
            ),
    {
        let mut builder = self;
        let ms: u32 = latency_millis(latency);
        builder.config.recv_latency = ms;
        builder
    }

    /// Turns encryption on.
    pub fn encryption(self, passphrase: &str, key_size: KeySize) -> (b: Self)
        ensures
            b.config.passphrase@ == passphrase@,
            b == self.with_config(
                SrtConfig { passphrase: b.config.passphrase, key_size, ..self.config },
            ),
    {
        let mut builder = self;
        builder.config.passphrase = passphrase.to_owned();
        builder.config.key_size = key_size;
        builder
    }

    /// Sets the cipher mode.
    pub fn crypto_mode(self, mode: CryptoModeConfig) -> (b: Self)
        ensures
            b == self.with_config(SrtConfig { crypto_mode: mode, ..self.config }),
    {
        let mut builder = self;
        builder.config.crypto_mode = mode;
        builder
    }

    /// Sets the maximum segment size.
    pub fn mss(self, mss: u32) -> (b: Self)
        ensures
            b == self.with_config(SrtConfig { mss, ..self.config }),
    {
        let mut builder = self;
        builder.config.mss = mss;
        builder
    }

    /// Sets the flow control window.
    pub fn flight_flag_size(self, size: u32) -> (b: Self)
        ensures
            b == self.with_config(SrtConfig { flight_flag_size: size, ..self.config }),
    {
        let mut builder = self;
        builder.config.flight_flag_size = size;
        builder
    }

    /// Sets the size of the send buffer in bytes.
    pub fn send_buffer_size(self, size: u32) -> (b: Self)
        ensures
            b == self.with_config(SrtConfig { send_buffer_size: size, ..self.config }),
    {
        let mut builder = self;
        builder.config.send_buffer_size = size;
        builder
    }

    /// Sets the size of the receive buffer in bytes.
    pub fn recv_buffer_size(self, size: u32) -> (b: Self)
        ensures
            b == self.with_config(SrtConfig { recv_buffer_size: size, ..self.config }),
    {
        let mut builder = self;
        builder.config.recv_buffer_size = size;
        builder
    }

    /// Sets after which silence the peer counts as gone.
    pub fn peer_idle_timeout(self, timeout: Duration) -> (b: Self)
        ensures
            b == self.with_config(SrtConfig { peer_idle_timeout: timeout, ..self.config }),
    {
        let mut builder = self;
        builder.config.peer_idle_timeout = timeout;
        builder
    }

    /// Sets how long a connection may take to come about.
    pub fn connect_timeout(self, timeout: Duration) -> (b: Self)
        ensures
            b == self.with_config(SrtConfig { connect_timeout: timeout, ..self.config }),
    {
        let mut builder = self;
        builder.config.connect_timeout = timeout;
        builder
    }

    /// Sets the live transmission mode.
    pub fn live_mode(self) -> (b: Self)
        ensures
            b.config@ == config::in_live_mode(self.config@),
            b == self.with_config(b.config),
    {
        let mut builder = self;
        builder.config.live_defaults();
        builder
    }

    /// Sets the file transmission mode.
    pub fn file_mode(self) -> (b: Self)
        ensures
            b.config@ == config::in_file_mode(self.config@),
            b == self.with_config(b.config),
    {
        let mut builder = self;
        builder.config.file_defaults();
        builder
    }

    /// Sets the Stream ID.
    pub fn stream_id(self, id: String) -> (b: Self)
        ensures
            b == self.with_config(SrtConfig { stream_id: id, ..self.config }),
    {
        let mut builder = self;
        builder.config.stream_id = id;
        builder
    }

    /// Sets the packet filter (FEC).
    pub fn packet_filter(self, filter: String) -> (b: Self)
        ensures
            b == self.with_config(SrtConfig { packet_filter: filter, ..self.config }),
    {
        let mut builder = self;
        builder.config.packet_filter = filter;
        builder
    }

    /// Sets the maximum bandwidth in bytes per second.
    pub fn max_bw(self, bw: i64) -> (b: Self)
        ensures
            b == self.with_config(SrtConfig { max_bw: bw, ..self.config }),
    {
        let mut builder = self;
        builder.config.max_bw = bw;
        builder
    }

    /// Sets the estimated input bandwidth in bytes per second.
    pub fn input_bw(self, bw: i64) -> (b: Self)
        ensures
            b == self.with_config(SrtConfig { input_bw: bw, ..self.config }),
    {
        let mut builder = self;
        builder.config.input_bw = bw;
        builder
    }

    /// Sets the overhead bandwidth in percent.
    pub fn overhead_bw(self, pct: i32) -> (b: Self)
        ensures
            b == self.with_config(SrtConfig { overhead_bw: pct, ..self.config }),
    {
        let mut builder = self;
        builder.config.overhead_bw = pct;
        builder
    }

    /// Sets the maximum bandwidth of retransmission in bytes per second.
    pub fn max_rexmit_bw(self, bw: i64) -> (b: Self)
        ensures
            b == self.with_config(SrtConfig { max_rexmit_bw: bw, ..self.config }),
    {
        let mut builder = self;
        builder.config.max_rexmit_bw = bw;
        builder
    }

    /// Sets whether peers that do not encrypt are turned away.
    pub fn enforced_encryption(self, enforce: bool) -> (b: Self)
        ensures
            b == self.with_config(SrtConfig { enforced_encryption: enforce, ..self.config }),
    {
        let mut builder = self;
        builder.config.enforced_encryption = enforce;
        builder
    }

    /// Sets the payload size.
    pub fn payload_size(self, size: u32) -> (b: Self)
        ensures
            b == self.with_config(SrtConfig { payload_size: size, ..self.config }),
    {
        let mut builder = self;
        builder.config.payload_size = size;
        builder
    }

    /// Sets the IP type of service.
    pub fn ip_tos(self, tos: i32) -> (b: Self)
        ensures
            b == self.with_config(SrtConfig { ip_tos: tos, ..self.config }),
    {
        let mut builder = self;
        builder.config.ip_tos = tos;
        builder
    }

    /// Sets the IP time to live.
    pub fn ip_ttl(self, ttl: i32) -> (b: Self)
        ensures
            b == self.with_config(SrtConfig { ip_ttl: ttl, ..self.config }),
    {
        let mut builder = self;
        builder.config.ip_ttl = ttl;
        builder
    }

    /// Sets the retransmission algorithm.
    pub fn retransmit_algo(self, algo: RetransmitAlgo) -> (b: Self)
        ensures
            b == self.with_config(SrtConfig { retransmit_algo: algo, ..self.config }),
    {
        let mut builder = self;
        builder.config.retransmit_algo = algo;
        builder
    }

    /// Sets the delay of dropping at the sender in milliseconds.
    pub fn send_drop_delay(self, delay: i32) -> (b: Self)
        ensures
            b == self.with_config(SrtConfig { send_drop_delay: delay, ..self.config }),
    {
        let mut builder = self;
        builder.config.send_drop_delay = delay;
        builder
    }

    /// Sets the tolerance of reordering.
    pub fn loss_max_ttl(self, ttl: i32) -> (b: Self)
        ensures
            b == self.with_config(SrtConfig { loss_max_ttl: ttl, ..self.config }),
    {
        let mut builder = self;
        builder.config.loss_max_ttl = ttl;
        builder
    }

    /// Sets after how many packets the key is renewed.
    pub fn km_refresh_rate(self, rate: u32) -> (b: Self)
        ensures
            b == self.with_config(SrtConfig { km_refresh_rate: rate, ..self.config }),
    {
        let mut builder = self;
        builder.config.km_refresh_rate = rate;
        builder
    }

    /// Sets how many packets ahead a new key is announced.
    pub fn km_pre_announce(self, packets: u32) -> (b: Self)
        ensures
            b == self.with_config(SrtConfig { km_pre_announce: packets, ..self.config }),
    {
        let mut builder = self;
        builder.config.km_pre_announce = packets;
        builder
    }

    /// Sets whether packets that come too late are dropped.
    pub fn tlpkt_drop(self, enable: bool) -> (b: Self)
        ensures
            b == self.with_config(SrtConfig { tlpkt_drop: enable, ..self.config }),
    {
        let mut builder = self;
        builder.config.tlpkt_drop = enable;
        builder
    }

    /// Sets rendezvous mode.
    pub fn rendezvous(self, enable: bool) -> (b: Self)
        ensures
            b == self.with_config(SrtConfig { rendezvous: enable, ..self.config }),
    {
        let mut builder = self;
        builder.config.rendezvous = enable;
        builder
    }

    /// Sets the local address.
    pub fn bind(self, addr: SocketAddr) -> (b: Self)
        ensures
            b@ == (SocketBuilderView { bind_addr: Some(addr), ..self@ }),
    {
        let mut builder = self;
        builder.bind_addr = Some(addr);
        builder
    }

    /// Begins to connect to a peer.
    pub fn connect(self, remote: SocketAddr) -> (begun: (ConnectFlow, FlowStep<SrtSocket>))
        requires
            has_budget(self@.config.connect_timeout),
        ensures
            begun.0@ == connection(self@, remote),
            begun.1@ == connect_start(self@),
    {
        let timeout = self.config.connect_timeout;
        let flow = ConnectFlow {
            bind_addr: self.bind_addr,
            remote,
            budget: Duration { secs: timeout.secs + CONNECT_GRACE_SECS, nanos: timeout.nanos },
            stream_id: self.config.stream_id.clone(),
        };
        (flow, step_1(Order::CreateSocket { config: self.config }, Wait::Created))
    }

    /// Begins to connect in rendezvous mode.
    pub fn connect_rendezvous(
        self,
        local: SocketAddr,
        remote: SocketAddr,
    ) -> (begun: (ConnectFlow, FlowStep<SrtSocket>))
        requires
            has_budget(self@.config.connect_timeout),
        ensures
            begun.0@ == connection(
                SocketBuilderView { bind_addr: Some(local), ..self@ },
                remote,
            ),
            begun.1@ == connect_start(
                SocketBuilderView {
                    config: ConfigView { rendezvous: true, ..self@.config },
                    bind_addr: Some(local),
                },
            ),
    {
        let mut builder = self;
        builder.config.rendezvous = true;
        builder.bind_addr = Some(local);
        builder.connect(remote)
    }
}

impl Default for SrtSocketBuilder {
    fn default() -> (b: SrtSocketBuilder)
        ensures
            b@ == new_builder(),
    {
        SrtSocketBuilder::new()
    }
}

impl ConnectFlow {
    /// Goes on when the socket was asked for.
    pub fn created(&self, created: Option<Result<SocketId, SrtError>>) -> (step: FlowStep<
        SrtSocket,
    >)
        ensures
            step@ == created_step(self@, created),
    {
        match answer_of(created) {
            Ok(id) => {
                let register = Order::Register {
                    id,
                    status: SocketStatus::Init,
                    capacity: SEND_CHANNEL_CAPACITY,
                };
                match self.bind_addr {
                    Some(addr) => step_2(register, Order::Bind { id, addr }, Wait::Bound),
                    None => step_2(
                        register,
                        Order::Connect { id, addr: self.remote },
                        Wait::ConnectedWithin(self.budget),
                    ),
                }
            },
            Err(error) => step_0(Wait::Finished(Err(error))),
        }
    }

    /// Goes on when the socket was bound.
    pub fn bound(&self, id: SocketId, bound: Option<Result<(), SrtError>>) -> (step: FlowStep<
        SrtSocket,
    >)
        ensures
            step@ == bound_step(self@, id, bound),
    {
        match answer_of(bound) {
            Ok(_) => step_1(
                Order::Connect { id, addr: self.remote },
                Wait::ConnectedWithin(self.budget),
            ),
            Err(error) => step_1(Order::Close { id }, Wait::Finished(Err(error))),
        }
    }

    /// Goes on when the socket was told to connect.
    pub fn connected(&self, id: SocketId, awaited: Awaited) -> (step: FlowStep<SrtSocket>)
        ensures
            step@ == connected_step(id, awaited),
    {
        match answer_in_time(awaited) {
            Ok(_) => step_2(
                Order::GetLocalAddr { id },
                Order::GetPeerAddr { id },
                Wait::Answers,
            ),
            Err(error) => step_1(Order::Close { id }, Wait::Finished(Err(error))),
        }
    }

    /// Ends when the bridge has said the addresses.
    pub fn named(
        self,
        id: SocketId,
        local: Option<SocketAddr>,
        peer: Option<SocketAddr>,
    ) -> (socket: SrtSocket)
        ensures
            socket.id == id,
            is_found_or_unspecified(socket.local_addr, local),
            socket.peer_addr == peer,
            socket.stream_id@ == self@.stream_id,
    {
        SrtSocket::accepted(id, local, peer, Some(self.stream_id))
    }
}

/// A connection that does not come about leaves no socket behind: once there is
/// one, every failure closes it and reports the error.
pub proof fn law_failed_connect_closes_the_socket(
    c: ConnectView,
    id: SocketId,
    bound: Option<Result<(), SrtError>>,
    awaited: Awaited,
)
    ensures
        flow::said(bound) matches Err(error) ==> bound_step(c, id, bound) == flow::closed::<SocketInfo>(
            id,
            error,
        ),
        flow::said_in_time(awaited) matches Err(error) ==> connected_step(id, awaited) == flow::closed::<
            SocketInfo,
        >(id, error),
{
}

/// A connection that libsrt never reports on ends in a timeout, after longer than
/// libsrt's own limit.
pub proof fn law_connect_ends(b: SocketBuilderView, remote: SocketAddr, id: SocketId)
    requires
        has_budget(b.config.connect_timeout),
    ensures
        connection(b, remote).budget.total_nanos() > b.config.connect_timeout.total_nanos(),
        connected_step(id, Awaited::TimedOut) == flow::closed::<SocketInfo>(id, SrtError::Timeout),
{
}

/// A rendezvous is a connection from a builder with rendezvous mode and a local
/// address set.
pub proof fn law_rendezvous_binds(b: SocketBuilderView, local: SocketAddr, remote: SocketAddr)
    ensures
        connection(SocketBuilderView { bind_addr: Some(local), ..b }, remote) == connection(
            SocketBuilderView {
                config: ConfigView { rendezvous: true, ..b.config },
                bind_addr: Some(local),
            },
            remote,
        ),
{
}

/// A socket is known to the bridge before it is told to connect, so that whoever
/// waits for the connection is kept with it.
pub proof fn law_registered_before_connecting(c: ConnectView, id: SocketId)
    ensures
        created_step(c, Some(Ok(id))).orders[0] == registering(id),
{
}

} // verus!
