//! How sockets, listeners and groups are set up: which commands go to the bridge,
//! and what is made of its answers.
//!
//! Whoever runs a flow gives the orders of a step, waits for what the step waits
//! for, and hands it to the function that goes on from there. An answer of `None`
//! says that the bridge went away without answering.

use vstd::prelude::*;

use crate::addr::SocketAddr;
use crate::config::{ConfigView, SocketStatus, SrtConfig};
use crate::duration::Duration;
use crate::epoll_bridge::SocketId;
use crate::error::SrtError;

verus! {

/// A command for the bridge, without the channels that go with it.
#[derive(Debug)]
pub enum Order {
    /// Create a socket.
    CreateSocket { config: SrtConfig },
    /// Hand over the channels of a socket. Its status counts as the given one until
    /// the bridge says otherwise, and `capacity` packets may wait to be sent.
    Register { id: SocketId, status: SocketStatus, capacity: usize },
    /// Hand over the accept channel of a listener, with its policy; `capacity`
    /// accepted sockets may wait to be taken over.
    RegisterListener { id: SocketId, capacity: usize },
    /// Bind a socket.
    Bind { id: SocketId, addr: SocketAddr },
    /// Listen on a socket.
    Listen { id: SocketId, backlog: i32 },
    /// Connect a socket.
    Connect { id: SocketId, addr: SocketAddr },
    /// Create a group.
    CreateGroup { mode: i32, config: SrtConfig },
    /// Connect a group.
    ConnectGroup { id: SocketId, endpoints: Vec<SocketAddr> },
    /// Ask for the local address.
    GetLocalAddr { id: SocketId },
    /// Ask for the address of the peer.
    GetPeerAddr { id: SocketId },
    /// Ask for the Stream ID.
    GetStreamId { id: SocketId },
    /// Close a socket.
    Close { id: SocketId },
}

/// A command for the bridge, with lists as sequences.
pub enum OrderView {
    CreateSocket { config: ConfigView },
    Register { id: SocketId, status: SocketStatus, capacity: usize },
    RegisterListener { id: SocketId, capacity: usize },
    Bind { id: SocketId, addr: SocketAddr },
    Listen { id: SocketId, backlog: i32 },
    Connect { id: SocketId, addr: SocketAddr },
    CreateGroup { mode: i32, config: ConfigView },
    ConnectGroup { id: SocketId, endpoints: Seq<SocketAddr> },
    GetLocalAddr { id: SocketId },
    GetPeerAddr { id: SocketId },
    GetStreamId { id: SocketId },
    Close { id: SocketId },
}

impl View for Order {
    type V = OrderView;

    open spec fn view(&self) -> OrderView {
        match *self {
            Order::CreateSocket { config } => OrderView::CreateSocket { config: config@ },
            Order::Register { id, status, capacity } => OrderView::Register {
                id,
                status,
                capacity,
            },
            Order::RegisterListener { id, capacity } => OrderView::RegisterListener {
                id,
                capacity,
            },
            Order::Bind { id, addr } => OrderView::Bind { id, addr },
            Order::Listen { id, backlog } => OrderView::Listen { id, backlog },
            Order::Connect { id, addr } => OrderView::Connect { id, addr },
            Order::CreateGroup { mode, config } => OrderView::CreateGroup {
                mode,
                config: config@,
            },
            Order::ConnectGroup { id, endpoints } => OrderView::ConnectGroup {
                id,
                endpoints: endpoints@,
            },
            Order::GetLocalAddr { id } => OrderView::GetLocalAddr { id },
            Order::GetPeerAddr { id } => OrderView::GetPeerAddr { id },
            Order::GetStreamId { id } => OrderView::GetStreamId { id },
            Order::Close { id } => OrderView::Close { id },
        }
    }
}

/// A list of orders, with lists as sequences.
pub open spec fn orders_view(orders: Seq<Order>) -> Seq<OrderView> {
    Seq::new(orders.len(), |i: int| orders[i]@)
}

/// What a flow waits for after its orders.
#[derive(Debug)]
pub enum Wait<T> {
    /// The answer with the new socket; goes on with `created`.
    Created,
    /// The answer that the socket is bound; goes on with `bound`.
    Bound,
    /// The answer that the socket listens; goes on with `listening`.
    Listening,
    /// The answer that the group is connected; goes on with `connected`.
    Connected,
    /// The answer that the socket is connected, for this long at most; goes on with
    /// `connected`.
    ConnectedWithin(Duration),
    /// The answers to what was asked for, in the order of the orders; goes on with
    /// `named`, or with `accepted` for a socket that a listener accepted.
    Answers,
    /// Nothing: the flow has ended.
    Finished(Result<T, SrtError>),
}

/// What a flow waits for, with its end by its view.
pub enum WaitView<V> {
    Created,
    Bound,
    Listening,
    Connected,
    ConnectedWithin(Duration),
    Answers,
    Finished(Result<V, SrtError>),
}

/// A step of a flow: orders to give, and what to wait for then.
#[derive(Debug)]
pub struct FlowStep<T> {
    pub orders: Vec<Order>,
    pub wait: Wait<T>,
}

/// A step of a flow, with lists as sequences.
#[verifier::ext_equal]
pub struct FlowView<V> {
    pub orders: Seq<OrderView>,
    pub wait: WaitView<V>,
}

impl<T: View> View for FlowStep<T> {
    type V = FlowView<T::V>;

    open spec fn view(&self) -> FlowView<T::V> {
        FlowView {
            orders: orders_view(self.orders@),
            wait: match self.wait {
                Wait::Created => WaitView::Created,
                Wait::Bound => WaitView::Bound,
                Wait::Listening => WaitView::Listening,
                Wait::Connected => WaitView::Connected,
                Wait::ConnectedWithin(budget) => WaitView::ConnectedWithin(budget),
                Wait::Answers => WaitView::Answers,
                Wait::Finished(Ok(t)) => WaitView::Finished(Ok(t@)),
                Wait::Finished(Err(error)) => WaitView::Finished(Err(error)),
            },
        }
    }
}

/// How waiting for an answer within a time ended.
#[derive(Debug, Clone, Copy, PartialEq, Eq)]
pub enum Awaited {
    /// The answer came, or will never come.
    Answered(Option<Result<(), SrtError>>),
    /// The time ran out.
    TimedOut,
}

/// The end of a flow that failed.
pub open spec fn failed<V>(error: SrtError) -> FlowView<V> {
    FlowView { orders: Seq::empty(), wait: WaitView::Finished(Err(error)) }
}

/// The end of a flow that failed and leaves a socket to be closed.
pub open spec fn closed<V>(id: SocketId, error: SrtError) -> FlowView<V> {
    FlowView { orders: seq![OrderView::Close { id }], wait: WaitView::Finished(Err(error)) }
}

/// What an answer says; no answer says that setting up failed.
pub open spec fn said<A>(answer: Option<Result<A, SrtError>>) -> Result<A, SrtError> {
    match answer {
        Some(result) => result,
        None => Err(SrtError::SocketFail),
    }
}

/// What came of waiting for an answer within a time.
pub open spec fn said_in_time(awaited: Awaited) -> Result<(), SrtError> {
    match awaited {
        Awaited::Answered(answer) => said(answer),
        Awaited::TimedOut => Err(SrtError::Timeout),
    }
}

/// What an answer says; no answer says that setting up failed.
pub fn answer_of<A>(answer: Option<Result<A, SrtError>>) -> (result: Result<A, SrtError>)
    ensures
        result == said(answer),
{
    match answer {
        Some(result) => result,
        None => Err(SrtError::SocketFail),
    }
}

/// What came of waiting for an answer within a time.
pub fn answer_in_time(awaited: Awaited) -> (result: Result<(), SrtError>)
    ensures
        result == said_in_time(awaited),
{
    match awaited {
        Awaited::Answered(answer) => answer_of(answer),
        Awaited::TimedOut => Err(SrtError::Timeout),
    }
}

/// A step without orders.
pub(crate) fn step_0<T: View>(wait: Wait<T>) -> (step: FlowStep<T>)
    ensures
        step.wait == wait,
        step@.orders == Seq::<OrderView>::empty(),
{
    let step = FlowStep { orders: Vec::new(), wait };
    assert(step@.orders =~= Seq::<OrderView>::empty());
    step
}

/// A step with one order.
pub(crate) fn step_1<T: View>(first: Order, wait: Wait<T>) -> (step: FlowStep<T>)
    ensures
        step.wait == wait,
        step@.orders == seq![first@],
{
    let mut orders: Vec<Order> = Vec::new();
    orders.push(first);
    let step = FlowStep { orders, wait };
    assert(step@.orders =~= seq![first@]);
    step
}

/// A step with two orders.
pub(crate) fn step_2<T: View>(first: Order, second: Order, wait: Wait<T>) -> (step: FlowStep<T>)
    ensures
        step.wait == wait,
        step@.orders == seq![first@, second@],
{
    let mut orders: Vec<Order> = Vec::new();
    orders.push(first);
    orders.push(second);
    let step = FlowStep { orders, wait };
    assert(step@.orders =~= seq![first@, second@]);
    step
}

/// The latency option for a span of time.
pub open spec fn latency_option(latency: Duration) -> u32 {
    latency.millis() as u32
}

/// The latency option for a span of time.
pub fn latency_millis(latency: Duration) -> (ms: u32)
    ensures
        ms == latency_option(latency),
{
    #[verifier::truncate]
    let ms: u32 = latency.as_millis() as u32;
    ms
}

} // verus!
