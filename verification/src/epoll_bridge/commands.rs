//! Commands to the bridge, step by step.

use vstd::prelude::*;

use crate::addr::SocketAddr;
use crate::config::{ConfigView, SrtConfig};
use crate::epoll_bridge as bridge;
use crate::epoll_bridge::{
    add_effect, Answer, AnswerView, Bridge, Call, CallView, Effect, Endpoints, Next,
    SocketId, SocketState, SocketView, Sockets, Step, StepView,
};
use crate::error::SrtError;

verus! {

/// A command to the bridge.
#[verifier::reject_recursive_types(E)]
pub enum IoCommand<E: Endpoints> {
    /// Create a socket and set the options that the configuration asks for.
    CreateSocket { config: SrtConfig, reply: E::Reply },
    /// Bind a socket to a local address.
    Bind { id: SocketId, addr: SocketAddr, reply: E::Reply },
    /// Start listening on a bound socket.
    Listen { id: SocketId, backlog: i32, reply: E::Reply },
    /// Connect a socket to a remote address.
    Connect { id: SocketId, addr: SocketAddr, reply: E::Reply },
    /// Hand over the channels of a socket.
    RegisterSocket {
        id: SocketId,
        recv_tx: E::RecvTx,
        send_rx: E::SendRx,
        status_tx: E::StatusTx,
    },
    /// Hand over the accept channel of a listener, and its policy if it has one.
    RegisterListener { id: SocketId, accept_tx: E::AcceptTx, access_control: Option<E::Policy> },
    /// Ask for the statistics of a socket.
    GetStats { id: SocketId, reply: E::Reply },
    /// Ask for the status of a socket.
    GetState { id: SocketId, reply: E::Reply },
    /// Ask for the address of the peer.
    GetPeerAddr { id: SocketId, reply: E::Reply },
    /// Ask for the local address.
    GetLocalAddr { id: SocketId, reply: E::Reply },
    /// Ask for the Stream ID of an accepted socket.
    GetStreamId { id: SocketId, reply: E::Reply },
    /// Close a socket.
    Close { id: SocketId },
    /// Create a group for bonding.
    CreateGroup { mode: i32, config: SrtConfig, reply: E::Reply },
    /// Connect a group to several endpoints.
    ConnectGroup { id: SocketId, endpoints: Vec<SocketAddr>, reply: E::Reply },
    /// Ask for the statistics of each member of a group.
    GetGroupMemberStats { id: SocketId, reply: E::Reply },
    /// Shut the bridge down.
    Shutdown,
}

/// A command to the bridge, with strings and lists as sequences.
#[verifier::reject_recursive_types(E)]
pub enum CommandView<E: Endpoints> {
    CreateSocket { config: ConfigView, reply: E::Reply },
    Bind { id: SocketId, addr: SocketAddr, reply: E::Reply },
    Listen { id: SocketId, backlog: i32, reply: E::Reply },
    Connect { id: SocketId, addr: SocketAddr, reply: E::Reply },
    RegisterSocket {
        id: SocketId,
        recv_tx: E::RecvTx,
        send_rx: E::SendRx,
        status_tx: E::StatusTx,
    },
    RegisterListener { id: SocketId, accept_tx: E::AcceptTx, access_control: Option<E::Policy> },
    GetStats { id: SocketId, reply: E::Reply },
    GetState { id: SocketId, reply: E::Reply },
    GetPeerAddr { id: SocketId, reply: E::Reply },
    GetLocalAddr { id: SocketId, reply: E::Reply },
    GetStreamId { id: SocketId, reply: E::Reply },
    Close { id: SocketId },
    CreateGroup { mode: i32, config: ConfigView, reply: E::Reply },
    ConnectGroup { id: SocketId, endpoints: Seq<SocketAddr>, reply: E::Reply },
    GetGroupMemberStats { id: SocketId, reply: E::Reply },
    Shutdown,
}

impl<E: Endpoints> View for IoCommand<E> {
    type V = CommandView<E>;

    open spec fn view(&self) -> CommandView<E> {
        match *self {
            IoCommand::CreateSocket { config, reply } => CommandView::CreateSocket {
                config: config@,
                reply,
            },
            IoCommand::Bind { id, addr, reply } => CommandView::Bind { id, addr, reply },
            IoCommand::Listen { id, backlog, reply } => CommandView::Listen { id, backlog, reply },
            IoCommand::Connect { id, addr, reply } => CommandView::Connect { id, addr, reply },
            IoCommand::RegisterSocket { id, recv_tx, send_rx, status_tx } => {
                CommandView::RegisterSocket { id, recv_tx, send_rx, status_tx }
            },
            IoCommand::RegisterListener { id, accept_tx, access_control } => {
                CommandView::RegisterListener { id, accept_tx, access_control }
            },
            IoCommand::GetStats { id, reply } => CommandView::GetStats { id, reply },
            IoCommand::GetState { id, reply } => CommandView::GetState { id, reply },
            IoCommand::GetPeerAddr { id, reply } => CommandView::GetPeerAddr { id, reply },
            IoCommand::GetLocalAddr { id, reply } => CommandView::GetLocalAddr { id, reply },
            IoCommand::GetStreamId { id, reply } => CommandView::GetStreamId { id, reply },
            IoCommand::Close { id } => CommandView::Close { id },
            IoCommand::CreateGroup { mode, config, reply } => CommandView::CreateGroup {
                mode,
                config: config@,
                reply,
            },
            IoCommand::ConnectGroup { id, endpoints, reply } => CommandView::ConnectGroup {
                id,
                endpoints: endpoints@,
                reply,
            },
            IoCommand::GetGroupMemberStats { id, reply } => CommandView::GetGroupMemberStats {
                id,
                reply,
            },
            IoCommand::Shutdown => CommandView::Shutdown,
        }
    }
}

/// What is kept for a socket, or for a new one where nothing is kept yet.
pub open spec fn entry<E: Endpoints>(
    m: Sockets<E>,
    id: SocketId,
    is_listener: bool,
) -> SocketView<E> {
    if m.contains_key(id) {
        m[id]
    } else {
        bridge::fresh::<E>(is_listener, false)
    }
}

/// Whether a policy waits to be armed on this socket.
pub open spec fn has_policy<E: Endpoints>(m: Sockets<E>, id: SocketId) -> bool {
    m.contains_key(id) && m[id].access_control is Some
}

/// The sockets after a command was taken up.
pub open spec fn sockets_after_command<E: Endpoints>(
    m: Sockets<E>,
    cmd: CommandView<E>,
) -> Sockets<E> {
    match cmd {
        CommandView::RegisterSocket { id, recv_tx, send_rx, status_tx } => m.insert(
            id,
            SocketView {
                recv_tx: Some(recv_tx),
                send_rx: Some(send_rx),
                status_tx: Some(status_tx),
                ..entry(m, id, false)
            },
        ),
        CommandView::RegisterListener { id, accept_tx, access_control } => m.insert(
            id,
            SocketView {
                accept_tx: Some(accept_tx),
                access_control: if access_control is Some {
                    access_control
                } else {
                    entry(m, id, true).access_control
                },
                ..entry(m, id, true)
            },
        ),
        CommandView::Close { id } => m.remove(id),
        _ => m,
    }
}

/// The first step of a command.
pub open spec fn command_step<E: Endpoints>(m: Sockets<E>, cmd: CommandView<E>) -> StepView<E> {
    match cmd {
        CommandView::CreateSocket { config, reply } => bridge::calling(
            CallView::CreateSocket { config, reply },
        ),
        CommandView::Bind { id, addr, reply } => bridge::calling(
            CallView::Bind { id, addr, reply },
        ),
        CommandView::Listen { id, backlog, reply } => if has_policy(m, id) {
            bridge::calling(CallView::ArmAcceptHook { id, backlog, reply })
        } else {
            bridge::calling(CallView::Listen { id, backlog, reply })
        },
        CommandView::Connect { id, addr, reply } => bridge::calling(
            CallView::Connect { id, addr, reply },
        ),
        CommandView::RegisterSocket { id, .. } => bridge::calling(
            CallView::ReadRegisteredState { id },
        ),
        CommandView::RegisterListener { .. } => bridge::done(Seq::empty()),
        CommandView::GetStats { id, reply } => bridge::calling(CallView::ReadStats { id, reply }),
        CommandView::GetState { id, reply } => bridge::calling(CallView::ReadState { id, reply }),
        CommandView::GetPeerAddr { id, reply } => bridge::calling(
            CallView::ReadPeerName { id, reply },
        ),
        CommandView::GetLocalAddr { id, reply } => bridge::calling(
            CallView::ReadLocalName { id, reply },
        ),
        CommandView::GetStreamId { id, reply } => bridge::calling(
            CallView::ReadStreamId { id, reply },
        ),
        CommandView::Close { id } => bridge::done(
            bridge::close_effects(id) + bridge::farewell_effects(m, id, SrtError::SocketClosed),
        ),
        CommandView::CreateGroup { mode, config, reply } => bridge::calling(
            CallView::CreateGroup { group_type: mode, config, reply },
        ),
        CommandView::ConnectGroup { id, endpoints, reply } => if endpoints.len() == 0 {
            bridge::done(
                seq![bridge::answering(reply, AnswerView::Done(Err(SrtError::InvalidParam)))],
            )
        } else {
            bridge::calling(CallView::ConnectGroup { id, endpoints, reply })
        },
        CommandView::GetGroupMemberStats { id, reply } => bridge::calling(
            CallView::CountMembers { id, reply },
        ),
        CommandView::Shutdown => bridge::stopping(),
    }
}

/// A step that is done after its effects.
pub(crate) fn done_step<E: Endpoints>(effects: Vec<Effect<E>>) -> (step: Step<E>)
    ensures
        step@ == bridge::done(bridge::effects_view(effects@)),
{
    Step { effects, next: Next::Done }
}

/// A step without effects that goes on with a call.
pub(crate) fn call_step<E: Endpoints>(call: Call<E>) -> (step: Step<E>)
    ensures
        step@ == bridge::calling(call@),
{
    let step = Step { effects: Vec::new(), next: Next::Call(call) };
    assert(step@.effects =~= Seq::empty());
    step
}

/// A step that only answers.
pub(crate) fn answer_step<E: Endpoints>(reply: E::Reply, answer: Answer) -> (step: Step<E>)
    ensures
        step@ == bridge::done(seq![bridge::answering::<E>(reply, answer@)]),
{
    let mut effects: Vec<Effect<E>> = Vec::new();
    add_effect(&mut effects, Effect::Answer { reply, answer });
    assert(bridge::effects_view(effects@) =~= seq![bridge::answering::<E>(reply, answer@)]);
    done_step(effects)
}

/// A step that does nothing.
pub(crate) fn empty_step<E: Endpoints>() -> (step: Step<E>)
    ensures
        step@ == bridge::done::<E>(Seq::empty()),
{
    let effects: Vec<Effect<E>> = Vec::new();
    assert(bridge::effects_view(effects@) =~= Seq::empty());
    done_step(effects)
}

/// A step that shuts the bridge down.
pub(crate) fn stop_step<E: Endpoints>() -> (step: Step<E>)
    ensures
        step@ == bridge::stopping::<E>(),
{
    let step = Step { effects: Vec::new(), next: Next::Shutdown };
    assert(step@.effects =~= Seq::empty());
    step
}

impl<E: Endpoints> Bridge<E> {
    /// Takes out what is kept for a socket, or makes a new one where nothing is
    /// kept yet.
    fn take_entry(&mut self, id: SocketId, is_listener: bool) -> (s: SocketState<E>)
        ensures
            final(self)@ == old(self)@.remove(id),
            s@ == entry(old(self)@, id, is_listener),
    {
        match self.take(id) {
            Some(state) => state,
            None => SocketState::new(is_listener, false),
        }
    }

    /// Takes up a command.
    pub fn process_command(&mut self, cmd: IoCommand<E>) -> (step: Step<E>)
        ensures
            final(self)@ == sockets_after_command(old(self)@, cmd@),
            step@ == command_step(old(self)@, cmd@),
    {
        match cmd {
            IoCommand::CreateSocket { config, reply } => call_step(
                Call::CreateSocket { config, reply },
            ),
            IoCommand::Bind { id, addr, reply } => call_step(Call::Bind { id, addr, reply }),
            IoCommand::Listen { id, backlog, reply } => {
                // libsrt installs no hook on a socket that listens already.
                let armed = match self.get(id) {
                    Some(state) => state.access_control.is_some(),
                    None => false,
                };
                if armed {
                    call_step(Call::ArmAcceptHook { id, backlog, reply })
                } else {
                    call_step(Call::Listen { id, backlog, reply })
                }
            },
            IoCommand::Connect { id, addr, reply } => call_step(Call::Connect { id, addr, reply }),
            IoCommand::RegisterSocket { id, recv_tx, send_rx, status_tx } => {
                let mut state = self.take_entry(id, false);
                state.recv_tx = Some(recv_tx);
                state.send_rx = Some(send_rx);
                state.status_tx = Some(status_tx);
                self.put(id, state);
                assert(self@ =~= sockets_after_command(old(self)@, cmd@));
                call_step(Call::ReadRegisteredState { id })
            },
            IoCommand::RegisterListener { id, accept_tx, access_control } => {
                let mut state = self.take_entry(id, true);
                state.accept_tx = Some(accept_tx);
                if access_control.is_some() {
                    state.access_control = access_control;
                }
                self.put(id, state);
                assert(self@ =~= sockets_after_command(old(self)@, cmd@));
                empty_step()
            },
            IoCommand::GetStats { id, reply } => call_step(Call::ReadStats { id, reply }),
            IoCommand::GetState { id, reply } => call_step(Call::ReadState { id, reply }),
            IoCommand::GetPeerAddr { id, reply } => call_step(Call::ReadPeerName { id, reply }),
            IoCommand::GetLocalAddr { id, reply } => call_step(Call::ReadLocalName { id, reply }),
            IoCommand::GetStreamId { id, reply } => call_step(Call::ReadStreamId { id, reply }),
            IoCommand::Close { id } => {
                let mut effects: Vec<Effect<E>> = Vec::new();
                self.close_with_farewell(id, SrtError::SocketClosed, &mut effects);
                assert(bridge::effects_view(effects@) =~= bridge::close_effects(id)
                    + bridge::farewell_effects(old(self)@, id, SrtError::SocketClosed));
                done_step(effects)
            },
            IoCommand::CreateGroup { mode, config, reply } => call_step(
                Call::CreateGroup { group_type: mode, config, reply },
            ),
            IoCommand::ConnectGroup { id, endpoints, reply } => {
                if endpoints.len() == 0 {
                    answer_step(reply, Answer::Done(Err(SrtError::InvalidParam)))
                } else {
                    call_step(Call::ConnectGroup { id, endpoints, reply })
                }
            },
            IoCommand::GetGroupMemberStats { id, reply } => call_step(
                Call::CountMembers { id, reply },
            ),
            IoCommand::Shutdown => stop_step(),
        }
    }
}

} // verus!
