//! What the bridge does with each command.

use vstd::prelude::*;

use crate::addr::SocketAddr;
use crate::epoll_bridge::commands::IoCommand;
use crate::epoll_bridge::{
    AnswerView, Bridge, CallView, EffectView, Endpoints, NextView, SocketId, SocketView, Sockets,
    Step, StepView,
};
use crate::error::SrtError;
use crate::laws::status;

verus! {

/// Whether a step does nothing but make a call.
pub open spec fn only_calls<E: Endpoints>(step: StepView<E>, call: CallView<E>) -> bool {
    step.effects.len() == 0 && step.next == NextView::Call(call)
}

/// Whether a step does nothing but answer.
pub open spec fn only_answers<E: Endpoints>(
    step: StepView<E>,
    reply: E::Reply,
    answer: AnswerView,
) -> bool {
    step.next is Done && step.effects.len() == 1 && step.effects[0] == (EffectView::<E>::Answer {
        reply,
        answer,
    })
}

/// Whether a step does nothing.
pub open spec fn does_nothing<E: Endpoints>(step: StepView<E>) -> bool {
    step.next is Done && step.effects.len() == 0
}

/// A command that makes something, or sets it up, calls libsrt with what it holds, and
/// leaves the sockets as they are.
pub proof fn law_making_commands<E: Endpoints>(
    b: &mut Bridge<E>,
    cmd: IoCommand<E>,
    step: Step<E>,
)
    requires
        call_ensures(Bridge::<E>::process_command, (b, cmd), step),
    ensures
        match cmd {
            IoCommand::CreateSocket { config, reply } => final(b)@ == old(b)@ && only_calls(
                step@,
                CallView::CreateSocket { config: config@, reply },
            ),
            IoCommand::CreateGroup { mode, config, reply } => final(b)@ == old(b)@ && only_calls(
                step@,
                CallView::CreateGroup { group_type: mode, config: config@, reply },
            ),
            IoCommand::Bind { id, addr, reply } => final(b)@ == old(b)@ && only_calls(
                step@,
                CallView::Bind { id, addr, reply },
            ),
            IoCommand::Connect { id, addr, reply } => final(b)@ == old(b)@ && only_calls(
                step@,
                CallView::Connect { id, addr, reply },
            ),
            _ => true,
        },
{
}

/// A listener with a policy has its hook armed before it listens; any other listens at
/// once.
pub proof fn law_listen_command<E: Endpoints>(
    b: &mut Bridge<E>,
    id: SocketId,
    backlog: i32,
    reply: E::Reply,
    step: Step<E>,
)
    requires
        call_ensures(
            Bridge::<E>::process_command,
            (b, IoCommand::Listen { id, backlog, reply }),
            step,
        ),
    ensures
        final(b)@ == old(b)@,
        old(b)@.contains_key(id) && old(b)@[id].access_control is Some ==> only_calls(
            step@,
            CallView::ArmAcceptHook { id, backlog, reply },
        ),
        !old(b)@.contains_key(id) || old(b)@[id].access_control is None ==> only_calls(
            step@,
            CallView::Listen { id, backlog, reply },
        ),
{
}

/// A group without endpoints is refused; one with endpoints is connected to all of them.
pub proof fn law_connect_group_command<E: Endpoints>(
    b: &mut Bridge<E>,
    id: SocketId,
    endpoints: Vec<SocketAddr>,
    reply: E::Reply,
    step: Step<E>,
)
    requires
        call_ensures(
            Bridge::<E>::process_command,
            (b, IoCommand::ConnectGroup { id, endpoints, reply }),
            step,
        ),
    ensures
        final(b)@ == old(b)@,
        endpoints@.len() == 0 ==> only_answers(
            step@,
            reply,
            AnswerView::Done(Err(SrtError::InvalidParam)),
        ),
        endpoints@.len() > 0 ==> only_calls(
            step@,
            CallView::ConnectGroup { id, endpoints: endpoints@, reply },
        ),
{
}

/// A question is put to libsrt for the socket that it names, with the asker remembered,
/// and leaves the sockets as they are.
pub proof fn law_asking_commands<E: Endpoints>(
    b: &mut Bridge<E>,
    cmd: IoCommand<E>,
    step: Step<E>,
)
    requires
        call_ensures(Bridge::<E>::process_command, (b, cmd), step),
    ensures
        match cmd {
            IoCommand::GetStats { id, reply } => final(b)@ == old(b)@ && only_calls(
                step@,
                CallView::ReadStats { id, reply },
            ),
            IoCommand::GetState { id, reply } => final(b)@ == old(b)@ && only_calls(
                step@,
                CallView::ReadState { id, reply },
            ),
            IoCommand::GetPeerAddr { id, reply } => final(b)@ == old(b)@ && only_calls(
                step@,
                CallView::ReadPeerName { id, reply },
            ),
            IoCommand::GetLocalAddr { id, reply } => final(b)@ == old(b)@ && only_calls(
                step@,
                CallView::ReadLocalName { id, reply },
            ),
            IoCommand::GetStreamId { id, reply } => final(b)@ == old(b)@ && only_calls(
                step@,
                CallView::ReadStreamId { id, reply },
            ),
            IoCommand::GetGroupMemberStats { id, reply } => final(b)@ == old(b)@ && only_calls(
                step@,
                CallView::CountMembers { id, reply },
            ),
            IoCommand::Shutdown => final(b)@ == old(b)@ && step@.effects.len() == 0
                && step@.next is Shutdown,
            _ => true,
        },
{
}

/// A registered socket has the channels that were handed over; what else was kept for it
/// stays. Where nothing was kept it is a new socket, neither listener nor group. Its state
/// is read next.
pub proof fn law_register_command<E: Endpoints>(
    b: &mut Bridge<E>,
    id: SocketId,
    recv_tx: E::RecvTx,
    send_rx: E::SendRx,
    status_tx: E::StatusTx,
    step: Step<E>,
)
    requires
        call_ensures(
            Bridge::<E>::process_command,
            (b, IoCommand::RegisterSocket { id, recv_tx, send_rx, status_tx }),
            step,
        ),
    ensures
        only_calls(step@, CallView::ReadRegisteredState { id }),
        status::others_stay(old(b)@, final(b)@, id),
        final(b)@.contains_key(id),
        final(b)@[id].recv_tx == Some(recv_tx),
        final(b)@[id].send_rx == Some(send_rx),
        final(b)@[id].status_tx == Some(status_tx),
        old(b)@.contains_key(id) ==> final(b)@[id] == (SocketView {
            recv_tx: Some(recv_tx),
            send_rx: Some(send_rx),
            status_tx: Some(status_tx),
            ..old(b)@[id]
        }),
        !old(b)@.contains_key(id) ==> status::is_new(
            SocketView { recv_tx: None, send_rx: None, status_tx: None, ..final(b)@[id] },
            false,
            false,
        ),
{
}

/// A registered listener has the accept channel that was handed over, and the policy where
/// one was; what else was kept for it stays. Where nothing was kept it is a new listener.
pub proof fn law_register_listener_command<E: Endpoints>(
    b: &mut Bridge<E>,
    id: SocketId,
    accept_tx: E::AcceptTx,
    access_control: Option<E::Policy>,
    step: Step<E>,
)
    requires
        call_ensures(
            Bridge::<E>::process_command,
            (b, IoCommand::RegisterListener { id, accept_tx, access_control }),
            step,
        ),
    ensures
        does_nothing(step@),
        status::others_stay(old(b)@, final(b)@, id),
        final(b)@.contains_key(id),
        final(b)@[id].accept_tx == Some(accept_tx),
        access_control is Some ==> final(b)@[id].access_control == access_control,
        old(b)@.contains_key(id) && access_control is None ==> final(b)@[id].access_control
            == old(b)@[id].access_control,
        old(b)@.contains_key(id) ==> final(b)@[id] == (SocketView {
            accept_tx: Some(accept_tx),
            access_control: final(b)@[id].access_control,
            ..old(b)@[id]
        }),
        !old(b)@.contains_key(id) ==> final(b)@[id].access_control == access_control
            && status::is_new(
            SocketView { accept_tx: None, access_control: None, ..final(b)@[id] },
            true,
            false,
        ),
{
}

/// Whether effects are rid of a socket: libsrt stops watching it and closes it; whoever
/// waits for it to connect learns the error; and last is let go of what was kept for it.
pub open spec fn rids_of<E: Endpoints>(
    m: Sockets<E>,
    id: SocketId,
    error: SrtError,
    effects: Seq<EffectView<E>>,
) -> bool {
    &&& effects.len() >= 2
    &&& effects[0] == (EffectView::<E>::RemoveFromEpoll { id })
    &&& effects[1] == (EffectView::<E>::CloseSocket { id })
    &&& !m.contains_key(id) ==> effects.len() == 2
    &&& m.contains_key(id) && m[id].connect_reply is None ==> effects.len() == 3 && effects[2] == (
    EffectView::<E>::Release { id, state: m[id] })
    &&& m.contains_key(id) && m[id].connect_reply is Some ==> effects.len() == 4 && effects[2] == (
    EffectView::<E>::Answer {
        reply: m[id].connect_reply->Some_0,
        answer: AnswerView::Done(Err(error)),
    }) && effects[3] == (EffectView::<E>::Release {
        id,
        state: SocketView { connect_reply: None, ..m[id] },
    })
}

/// A closed socket is no longer among those looked after, and the bridge is rid of it.
pub proof fn law_close_command<E: Endpoints>(b: &mut Bridge<E>, id: SocketId, step: Step<E>)
    requires
        call_ensures(Bridge::<E>::process_command, (b, IoCommand::Close { id }), step),
    ensures
        !final(b)@.contains_key(id),
        status::others_stay(old(b)@, final(b)@, id),
        step@.next is Done,
        rids_of(old(b)@, id, SrtError::SocketClosed, step@.effects),
{
}

} // verus!
