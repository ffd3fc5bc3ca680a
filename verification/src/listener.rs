//! Listeners, and the builder that binds them.

use vstd::prelude::*;

use crate::access_control::{AcceptAll, AccessControl, AccessControlFn, HandshakeInfo};
use crate::addr::SocketAddr;
use crate::config;
use crate::config::{
    ConfigView, CryptoModeConfig, KeySize, RetransmitAlgo, SocketStatus, SrtConfig,
};
use crate::duration::Duration;
use crate::epoll_bridge::SocketId;
use crate::error::{RejectReason, SrtError};
use crate::flow;
use crate::flow::{
    answer_of, latency_millis, step_0, step_1, FlowStep, FlowView, Order, OrderView, Wait, WaitView,
};

verus! {

/// How many callers may wait to be accepted.
pub const DEFAULT_BACKLOG: i32 = 5;

/// How many accepted sockets may wait to be taken over.
pub const ACCEPT_CHANNEL_CAPACITY: usize = 16;

/// How many packets may wait to be sent on a listener, which sends none.
pub const LISTENER_CHANNEL_CAPACITY: usize = 1;

/// A listener.
#[derive(Debug, Clone, Copy)]
pub struct SrtListener {
    pub id: SocketId,
    pub local_addr: SocketAddr,
}

impl View for SrtListener {
    type V = SrtListener;

    open spec fn view(&self) -> SrtListener {
        *self
    }
}

impl SrtListener {
    /// A builder with the default configuration and no policy.
    pub fn builder() -> (b: SrtListenerBuilder<AcceptAll>)
        ensures
            b@ == new_builder::<AcceptAll>(),
    {
        SrtListenerBuilder::new()
    }

    /// What accepting comes to, once a caller's socket came or the channel ended.
    pub fn accept(&self, accepted: Option<SocketId>) -> (result: Result<SocketId, SrtError>)
        ensures
            result == (match accepted {
                Some(id) => Ok(id),
                None => Err(SrtError::SocketClosed),
            }),
    {
        match accepted {
            Some(id) => Ok(id),
            None => Err(SrtError::SocketClosed),
        }
    }

    /// The address that the listener is bound to.
    pub fn local_addr(&self) -> (a: SocketAddr)
        ensures
            a == self.local_addr,
    {
        self.local_addr
    }

    /// The order that closes the listener.
    pub fn close(&self) -> (order: Order)
        ensures
            order@ == (OrderView::Close { id: self.id }),
    {
        Order::Close { id: self.id }
    }
}

/// Configures a listener and binds it. `P` is the type of its policy.
pub struct SrtListenerBuilder<P> {
    pub config: SrtConfig,
    pub backlog: i32,
    pub access_control: Option<P>,
}

/// What a listener is built from.
pub struct ListenerBuilderView<P> {
    pub config: ConfigView,
    pub backlog: i32,
    pub access_control: Option<P>,
}

impl<P> ListenerBuilderView<P> {
    /// The builder with another policy.
    pub open spec fn with_policy<Q>(self, policy: Q) -> ListenerBuilderView<Q> {
        ListenerBuilderView {
            config: self.config,
            backlog: self.backlog,
            access_control: Some(policy),
        }
    }
}

impl<P> View for SrtListenerBuilder<P> {
    type V = ListenerBuilderView<P>;

    open spec fn view(&self) -> ListenerBuilderView<P> {
        ListenerBuilderView {
            config: self.config@,
            backlog: self.backlog,
            access_control: self.access_control,
        }
    }
}

/// The builder with the default configuration and no policy.
pub open spec fn new_builder<P>() -> ListenerBuilderView<P> {
    ListenerBuilderView {
        config: config::default_config(),
        backlog: DEFAULT_BACKLOG,
        access_control: None,
    }
}

/// A listener that is being set up.
#[derive(Debug, Clone, Copy)]
pub struct BindFlow {
    pub addr: SocketAddr,
    pub backlog: i32,
}

/// The first step of a listener.
pub open spec fn bind_start(config: ConfigView) -> FlowView<SrtListener> {
    FlowView { orders: seq![OrderView::CreateSocket { config }], wait: WaitView::Created }
}

/// The step after the socket of a listener was asked for. Its policy is handed
/// over before anything can listen.
pub open spec fn created_step(
    f: BindFlow,
    created: Option<Result<SocketId, SrtError>>,
) -> FlowView<SrtListener> {
    match flow::said(created) {
        Ok(id) => FlowView {
            orders: seq![
                OrderView::RegisterListener { id, capacity: ACCEPT_CHANNEL_CAPACITY },
                OrderView::Register {
                    id,
                    status: SocketStatus::Init,
                    capacity: LISTENER_CHANNEL_CAPACITY,
                },
                OrderView::Bind { id, addr: f.addr },
            ],
            wait: WaitView::Bound,
        },
        Err(error) => flow::failed(error),
    }
}

/// The step after the socket of a listener was bound.
pub open spec fn bound_step(
    f: BindFlow,
    id: SocketId,
    bound: Option<Result<(), SrtError>>,
) -> FlowView<SrtListener> {
    match flow::said(bound) {
        Ok(_) => FlowView {
            orders: seq![OrderView::Listen { id, backlog: f.backlog }],
            wait: WaitView::Listening,
        },
        Err(error) => flow::failed(error),
    }
}

/// The step after the socket was told to listen.
pub open spec fn listening_step(
    id: SocketId,
    listening: Option<Result<(), SrtError>>,
) -> FlowView<SrtListener> {
    match flow::said(listening) {
        Ok(_) => FlowView { orders: seq![OrderView::GetLocalAddr { id }], wait: WaitView::Answers },
        Err(error) => flow::failed(error),
    }
}

impl<P> Default for SrtListenerBuilder<P> {
    fn default() -> (b: SrtListenerBuilder<P>)
        ensures
            b@ == new_builder::<P>(),
    {
        SrtListenerBuilder::new()
    }
}

impl<P> SrtListenerBuilder<P> {
    /// A builder with the default configuration and no policy.
    pub fn new() -> (b: SrtListenerBuilder<P>)
        ensures
            b@ == new_builder::<P>(),
    {
        SrtListenerBuilder {
            config: SrtConfig::default(),
            backlog: DEFAULT_BACKLOG,
            access_control: None,
        }
    }

    /// The builder with another configuration.
    pub open spec fn with_config(self, config: SrtConfig) -> SrtListenerBuilder<P> {
        SrtListenerBuilder { config, ..self }
    }

    /// Sets the latency of both sides.
    pub fn latency(self, latency: Duration) -> (b: Self)
        ensures
            b == self.with_config(
                SrtConfig {
                    recv_latency: flow::latency_option(latency),
                    peer_latency: flow::latency_option(latency),
                    ..self.config
                },
            ),
    {
        let mut builder = self;
        let ms: u32 = latency_millis(latency);
        builder.config.recv_latency = ms;
        builder.config.peer_latency = ms;
        builder
    }

    /// Sets the latency of the sending side.
    pub fn sender_latency(self, latency: Duration) -> (b: Self)
        ensures
            b == self.with_config(
                SrtConfig { peer_latency: flow::latency_option(latency), ..self.config },
            ),
    {
        let mut builder = self;
        let ms: u32 = latency_millis(latency);
        builder.config.peer_latency = ms;
        builder
    }

    /// Sets the latency of the receiving side.
    pub fn receiver_latency(self, latency: Duration) -> (b: Self)
        ensures
            b == self.with_config(
                SrtConfig { recv_latency: flow::latency_option(latency), ..self.config },
            ),
    {
        let mut builder = self;
        let ms: u32 = latency_millis(latency);
        builder.config.recv_latency = ms;
        builder
    }

    /// Turns encryption on.
    pub fn encryption(self, passphrase: &str, key_size: KeySize) -> (b: Self)
        ensures
            b.config.passphrase@ == passphrase@,
            b == self.with_config(
                SrtConfig { passphrase: b.config.passphrase, key_size, ..self.config },
            ),
    {
        let mut builder = self;
        builder.config.passphrase = passphrase.to_owned();
        builder.config.key_size = key_size;
        builder
    }

    /// Sets the cipher mode.
    pub fn crypto_mode(self, mode: CryptoModeConfig) -> (b: Self)
        ensures
            b == self.with_config(SrtConfig { crypto_mode: mode, ..self.config }),
    {
        let mut builder = self;
        builder.config.crypto_mode = mode;
        builder
    }

    /// Sets the maximum segment size.
    pub fn mss(self, mss: u32) -> (b: Self)
        ensures
            b == self.with_config(SrtConfig { mss, ..self.config }),
    {
        let mut builder = self;
        builder.config.mss = mss;
        builder
    }

    /// Sets the flow control window.
    pub fn flight_flag_size(self, size: u32) -> (b: Self)
        ensures
            b == self.with_config(SrtConfig { flight_flag_size: size, ..self.config }),
    {
        let mut builder = self;
        builder.config.flight_flag_size = size;
        builder
    }

    /// Sets the size of the send buffer in bytes.
    pub fn send_buffer_size(self, size: u32) -> (b: Self)
        ensures
            b == self.with_config(SrtConfig { send_buffer_size: size, ..self.config }),
    {
        let mut builder = self;
        builder.config.send_buffer_size = size;
        builder
    }

    /// Sets the size of the receive buffer in bytes.
    pub fn recv_buffer_size(self, size: u32) -> (b: Self)
        ensures
            b == self.with_config(SrtConfig { recv_buffer_size: size, ..self.config }),
    {
        let mut builder = self;
        builder.config.recv_buffer_size = size;
        builder
    }

    /// Sets after which silence the peer counts as gone.
    pub fn peer_idle_timeout(self, timeout: Duration) -> (b: Self)
        ensures
            b == self.with_config(SrtConfig { peer_idle_timeout: timeout, ..self.config }),
    {
        let mut builder = self;
        builder.config.peer_idle_timeout = timeout;
        builder
    }

    /// Sets how long a connection may take to come about.
    pub fn connect_timeout(self, timeout: Duration) -> (b: Self)
        ensures
            b == self.with_config(SrtConfig { connect_timeout: timeout, ..self.config }),
    {
        let mut builder = self;
        builder.config.connect_timeout = timeout;
        builder
    }

    /// Sets the live transmission mode.
    pub fn live_mode(self) -> (b: Self)
        ensures
            b.config@ == config::in_live_mode(self.config@),
            b == self.with_config(b.config),
    {
        let mut builder = self;
        builder.config.live_defaults();
        builder
    }

    /// Sets the file transmission mode.
    pub fn file_mode(self) -> (b: Self)
        ensures
            b.config@ == config::in_file_mode(self.config@),
            b == self.with_config(b.config),
    {
        let mut builder = self;
        builder.config.file_defaults();
        builder
    }

    /// Sets the Stream ID.
    pub fn stream_id(self, id: String) -> (b: Self)
        ensures
            b == self.with_config(SrtConfig { stream_id: id, ..self.config }),
    {
        let mut builder = self;
        builder.config.stream_id = id;
        builder
    }

    /// Sets the packet filter (FEC).
    pub fn packet_filter(self, filter: String) -> (b: Self)
        ensures
            b == self.with_config(SrtConfig { packet_filter: filter, ..self.config }),
    {
        let mut builder = self;
        builder.config.packet_filter = filter;
        builder
    }

    /// Sets the maximum bandwidth in bytes per second.
    pub fn max_bw(self, bw: i64) -> (b: Self)
        ensures
            b == self.with_config(SrtConfig { max_bw: bw, ..self.config }),
    {
        let mut builder = self;
        builder.config.max_bw = bw;
        builder
    }

    /// Sets the estimated input bandwidth in bytes per second.
    pub fn input_bw(self, bw: i64) -> (b: Self)
        ensures
            b == self.with_config(SrtConfig { input_bw: bw, ..self.config }),
    {
        let mut builder = self;
        builder.config.input_bw = bw;
        builder
    }

    /// Sets the overhead bandwidth in percent.
    pub fn overhead_bw(self, pct: i32) -> (b: Self)
        ensures
            b == self.with_config(SrtConfig { overhead_bw: pct, ..self.config }),
    {
        let mut builder = self;
        builder.config.overhead_bw = pct;
        builder
    }

    /// Sets the maximum bandwidth of retransmission in bytes per second.
    pub fn max_rexmit_bw(self, bw: i64) -> (b: Self)
        ensures
            b == self.with_config(SrtConfig { max_rexmit_bw: bw, ..self.config }),
    {
        let mut builder = self;
        builder.config.max_rexmit_bw = bw;
        builder
    }

    /// Sets whether peers that do not encrypt are turned away.
    pub fn enforced_encryption(self, enforce: bool) -> (b: Self)
        ensures
            b == self.with_config(SrtConfig { enforced_encryption: enforce, ..self.config }),
    {
        let mut builder = self;
        builder.config.enforced_encryption = enforce;
        builder
    }

    /// Sets the payload size.
    pub fn payload_size(self, size: u32) -> (b: Self)
        ensures
            b == self.with_config(SrtConfig { payload_size: size, ..self.config }),
    {
        let mut builder = self;
        builder.config.payload_size = size;
        builder
    }

    /// Sets the IP type of service.
    pub fn ip_tos(self, tos: i32) -> (b: Self)
        ensures
            b == self.with_config(SrtConfig { ip_tos: tos, ..self.config }),
    {
        let mut builder = self;
        builder.config.ip_tos = tos;
        builder
    }

    /// Sets the IP time to live.
    pub fn ip_ttl(self, ttl: i32) -> (b: Self)
        ensures
            b == self.with_config(SrtConfig { ip_ttl: ttl, ..self.config }),
    {
        let mut builder = self;
        builder.config.ip_ttl = ttl;
        builder
    }

    /// Sets the retransmission algorithm.
    pub fn retransmit_algo(self, algo: RetransmitAlgo) -> (b: Self)
        ensures
            b == self.with_config(SrtConfig { retransmit_algo: algo, ..self.config }),
    {
        let mut builder = self;
        builder.config.retransmit_algo = algo;
        builder
    }

    /// Sets the delay of dropping at the sender in milliseconds.
    pub fn send_drop_delay(self, delay: i32) -> (b: Self)
        ensures
            b == self.with_config(SrtConfig { send_drop_delay: delay, ..self.config }),
    {
        let mut builder = self;
        builder.config.send_drop_delay = delay;
        builder
    }

    /// Sets the tolerance of reordering.
    pub fn loss_max_ttl(self, ttl: i32) -> (b: Self)
        ensures
            b == self.with_config(SrtConfig { loss_max_ttl: ttl, ..self.config }),
    {
        let mut builder = self;
        builder.config.loss_max_ttl = ttl;
        builder
    }

    /// Sets after how many packets the key is renewed.
    pub fn km_refresh_rate(self, rate: u32) -> (b: Self)
        ensures
            b == self.with_config(SrtConfig { km_refresh_rate: rate, ..self.config }),
    {
        let mut builder = self;
        builder.config.km_refresh_rate = rate;
        builder
    }

    /// Sets how many packets ahead a new key is announced.
    pub fn km_pre_announce(self, packets: u32) -> (b: Self)
        ensures
            b == self.with_config(SrtConfig { km_pre_announce: packets, ..self.config }),
    {
        let mut builder = self;
        builder.config.km_pre_announce = packets;
        builder
    }

    /// Sets whether packets that come too late are dropped.
    pub fn tlpkt_drop(self, enable: bool) -> (b: Self)
        ensures
            b == self.with_config(SrtConfig { tlpkt_drop: enable, ..self.config }),
    {
        let mut builder = self;
        builder.config.tlpkt_drop = enable;
        builder
    }

    /// Sets whether callers may be groups.
    pub fn group_connect(self, enable: bool) -> (b: Self)
        ensures
            b == self.with_config(SrtConfig { group_connect: enable, ..self.config }),
    {
        let mut builder = self;
        builder.config.group_connect = enable;
        builder
    }

    /// Sets how many callers may wait to be accepted.
    pub fn backlog(self, n: i32) -> (b: Self)
        ensures
            b@ == (ListenerBuilderView { backlog: n, ..self@ }),
    {
        let mut builder = self;
        builder.backlog = n;
        builder
    }

    /// Sets the policy.
    pub fn access_control<Q>(self, ac: Q) -> (b: SrtListenerBuilder<Q>) where Q: AccessControl
        ensures
            b@ == self@.with_policy(ac),
    {
        SrtListenerBuilder {
            config: self.config,
            backlog: self.backlog,
            access_control: Some(ac),
        }
    }

    /// Sets the policy to a closure.
    pub fn access_control_fn<F>(self, f: F) -> (b: SrtListenerBuilder<AccessControlFn<F>>) where
        F: Fn(&HandshakeInfo) -> Result<(), RejectReason> + Send + Sync + 'static,

        ensures
            b@ == self@.with_policy(AccessControlFn(f)),
    {
        self.access_control(AccessControlFn(f))
    }

    /// Begins to bind and to listen. The policy is handed back: it goes to the
    /// bridge with the accept channel.
    pub fn bind(self, addr: SocketAddr) -> (begun: (BindFlow, Option<P>, FlowStep<SrtListener>))
        ensures
            begun.0 == (BindFlow { addr, backlog: self@.backlog }),
            begun.1 == self@.access_control,
            begun.2@ == bind_start(self@.config),
    {
        let flow = BindFlow { addr, backlog: self.backlog };
        (
            flow,
            self.access_control,
            step_1(Order::CreateSocket { config: self.config }, Wait::Created),
        )
    }
}

impl BindFlow {
    /// Goes on when the socket was asked for.
    pub fn created(&self, created: Option<Result<SocketId, SrtError>>) -> (step: FlowStep<
        SrtListener,
    >)
        ensures
            step@ == created_step(*self, created),
    {
        match answer_of(created) {
            Ok(id) => {
                let mut orders: Vec<Order> = Vec::new();
                orders.push(
                    Order::RegisterListener { id, capacity: ACCEPT_CHANNEL_CAPACITY },
                );
                orders.push(
                    Order::Register {
                        id,
                        status: SocketStatus::Init,
                        capacity: LISTENER_CHANNEL_CAPACITY,
                    },
                );
                orders.push(Order::Bind { id, addr: self.addr });
                let step = FlowStep { orders, wait: Wait::Bound };
                assert(step@.orders =~= created_step(*self, created).orders);
                step
            },
            Err(error) => step_0(Wait::Finished(Err(error))),
        }
    }

    /// Goes on when the socket was bound.
    pub fn bound(&self, id: SocketId, bound: Option<Result<(), SrtError>>) -> (step: FlowStep<
        SrtListener,
    >)
        ensures
            step@ == bound_step(*self, id, bound),
    {
        match answer_of(bound) {
            Ok(_) => step_1(Order::Listen { id, backlog: self.backlog }, Wait::Listening),
            Err(error) => step_0(Wait::Finished(Err(error))),
        }
    }

    /// Goes on when the socket was told to listen.
    pub fn listening(
        &self,
        id: SocketId,
        listening: Option<Result<(), SrtError>>,
    ) -> (step: FlowStep<SrtListener>)
        ensures
            step@ == listening_step(id, listening),
    {
        match answer_of(listening) {
            Ok(_) => step_1(Order::GetLocalAddr { id }, Wait::Answers),
            Err(error) => step_0(Wait::Finished(Err(error))),
        }
    }

    /// Ends when the bridge has said the address. Where it does not know it, the
    /// address is the one asked for.
    pub fn named(&self, id: SocketId, local: Option<SocketAddr>) -> (listener: SrtListener)
        ensures
            listener == (SrtListener {
                id,
                local_addr: match local {
                    Some(found) => found,
                    None => self.addr,
                },
            }),
    {
        SrtListener {
            id,
            local_addr: match local {
                Some(found) => found,
                None => self.addr,
            },
        }
    }
}

/// The policy of a listener reaches the bridge before anything that could make the
/// socket listen, and listening is ordered only of a socket that was bound.
pub proof fn law_policy_goes_first(
    f: BindFlow,
    id: SocketId,
    bound: Option<Result<(), SrtError>>,
)
    ensures
        created_step(f, Some(Ok(id))).orders[0] == (OrderView::RegisterListener {
            id,
            capacity: ACCEPT_CHANNEL_CAPACITY,
        }),
        bound_step(f, id, bound).orders.contains(OrderView::Listen { id, backlog: f.backlog })
            <==> flow::said(bound) is Ok,
{
    if flow::said(bound) is Ok {
        assert(bound_step(f, id, bound).orders[0] == (OrderView::Listen { id, backlog: f.backlog }));
    }
}

} // verus!
