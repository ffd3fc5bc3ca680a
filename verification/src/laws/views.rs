//! What the views of the bridge show: all that there is.

use vstd::prelude::*;

use crate::epoll_bridge::commands::{CommandView, IoCommand};
use crate::epoll_bridge::io_loop::IoLoop;
use crate::epoll_bridge::{
    Answer, AnswerView, Bridge, Call, CallView, Effect, EffectView, Endpoints, Next, NextView,
    PacketView, SocketId, SocketState, Step,
};
use crate::options;
use crate::received_packet;

verus! {

/// The view of a command shows all of it.
pub proof fn law_commands_show_themselves<E: Endpoints>(cmd: IoCommand<E>)
    ensures
        match cmd {
            IoCommand::CreateSocket { config, reply } => {
                cmd@ == (CommandView::<E>::CreateSocket { config: config@, reply })
            },
            IoCommand::Bind { id, addr, reply } => {
                cmd@ == (CommandView::<E>::Bind { id, addr, reply })
            },
            IoCommand::Listen { id, backlog, reply } => {
                cmd@ == (CommandView::<E>::Listen { id, backlog, reply })
            },
            IoCommand::Connect { id, addr, reply } => {
                cmd@ == (CommandView::<E>::Connect { id, addr, reply })
            },
            IoCommand::RegisterSocket { id, recv_tx, send_rx, status_tx } => {
                cmd@ == (CommandView::<E>::RegisterSocket { id, recv_tx, send_rx, status_tx })
            },
            IoCommand::RegisterListener { id, accept_tx, access_control } => {
                cmd@ == (CommandView::<E>::RegisterListener { id, accept_tx, access_control })
            },
            IoCommand::GetStats { id, reply } => cmd@ == (CommandView::<E>::GetStats { id, reply }),
            IoCommand::GetState { id, reply } => cmd@ == (CommandView::<E>::GetState { id, reply }),
            IoCommand::GetPeerAddr { id, reply } => {
                cmd@ == (CommandView::<E>::GetPeerAddr { id, reply })
            },
            IoCommand::GetLocalAddr { id, reply } => {
                cmd@ == (CommandView::<E>::GetLocalAddr { id, reply })
            },
            IoCommand::GetStreamId { id, reply } => {
                cmd@ == (CommandView::<E>::GetStreamId { id, reply })
            },
            IoCommand::Close { id } => cmd@ == (CommandView::<E>::Close { id }),
            IoCommand::CreateGroup { mode, config, reply } => {
                cmd@ == (CommandView::<E>::CreateGroup { mode, config: config@, reply })
            },
            IoCommand::ConnectGroup { id, endpoints, reply } => {
                cmd@ == (CommandView::<E>::ConnectGroup { id, endpoints: endpoints@, reply })
            },
            IoCommand::GetGroupMemberStats { id, reply } => {
                cmd@ == (CommandView::<E>::GetGroupMemberStats { id, reply })
            },
            IoCommand::Shutdown => cmd@ == (CommandView::<E>::Shutdown),
        },
{
}

/// The view of a call shows all of it.
pub proof fn law_calls_show_themselves<E: Endpoints>(call: Call<E>)
    ensures
        match call {
            Call::CreateSocket { config, reply } => {
                call@ == (CallView::<E>::CreateSocket { config: config@, reply })
            },
            Call::Bind { id, addr, reply } => call@ == (CallView::<E>::Bind { id, addr, reply }),
            Call::ArmAcceptHook { id, backlog, reply } => {
                call@ == (CallView::<E>::ArmAcceptHook { id, backlog, reply })
            },
            Call::Listen { id, backlog, reply } => {
                call@ == (CallView::<E>::Listen { id, backlog, reply })
            },
            Call::Connect { id, addr, reply } => {
                call@ == (CallView::<E>::Connect { id, addr, reply })
            },
            Call::ReadConnectState { id, reply } => {
                call@ == (CallView::<E>::ReadConnectState { id, reply })
            },
            Call::ReadRegisteredState { id } => {
                call@ == (CallView::<E>::ReadRegisteredState { id })
            },
            Call::ReadStats { id, reply } => call@ == (CallView::<E>::ReadStats { id, reply }),
            Call::ReadState { id, reply } => call@ == (CallView::<E>::ReadState { id, reply }),
            Call::ReadPeerName { id, reply } => {
                call@ == (CallView::<E>::ReadPeerName { id, reply })
            },
            Call::ReadLocalName { id, reply } => {
                call@ == (CallView::<E>::ReadLocalName { id, reply })
            },
            Call::ReadStreamId { id, reply } => {
                call@ == (CallView::<E>::ReadStreamId { id, reply })
            },
            Call::CreateGroup { group_type, config, reply } => {
                call@ == (CallView::<E>::CreateGroup { group_type, config: config@, reply })
            },
            Call::ConnectGroup { id, endpoints, reply } => {
                call@ == (CallView::<E>::ConnectGroup { id, endpoints: endpoints@, reply })
            },
            Call::CountMembers { id, reply } => {
                call@ == (CallView::<E>::CountMembers { id, reply })
            },
            Call::ReadMembers { id, capacity, reply } => {
                call@ == (CallView::<E>::ReadMembers { id, capacity, reply })
            },
            Call::ReadMemberStats { id, members, done, reply } => {
                call@ == (CallView::<E>::ReadMemberStats {
                    id,
                    members: members@,
                    done: done@,
                    reply,
                })
            },
            Call::ReadCompletedConnect { id, reply } => {
                call@ == (CallView::<E>::ReadCompletedConnect { id, reply })
            },
            Call::CountReceived { id } => call@ == (CallView::<E>::CountReceived { id }),
            Call::Receive { id } => call@ == (CallView::<E>::Receive { id }),
            Call::Send { id, data, backlogged } => {
                call@ == (CallView::<E>::Send { id, data, backlogged })
            },
            Call::TakeOutgoing { id } => call@ == (CallView::<E>::TakeOutgoing { id }),
            Call::Accept { id } => call@ == (CallView::<E>::Accept { id }),
            Call::ReadPolledState { id } => call@ == (CallView::<E>::ReadPolledState { id }),
            Call::ProbeRecv { id } => call@ == (CallView::<E>::ProbeRecv { id }),
        },
{
}

/// The view of an effect shows all of it.
pub proof fn law_effects_show_themselves<E: Endpoints>(effect: Effect<E>)
    ensures
        match effect {
            Effect::SetOptions { id, settings } => {
                effect@ == (EffectView::<E>::SetOptions {
                    id,
                    settings: options::settings(settings@),
                })
            },
            Effect::AddToEpoll { id, events } => {
                effect@ == (EffectView::<E>::AddToEpoll { id, events })
            },
            Effect::RemoveFromEpoll { id } => effect@ == (EffectView::<E>::RemoveFromEpoll { id }),
            Effect::CloseSocket { id } => effect@ == (EffectView::<E>::CloseSocket { id }),
            Effect::ReleaseEpoll => effect@ == (EffectView::<E>::ReleaseEpoll),
            Effect::PublishStatus { id, status } => {
                effect@ == (EffectView::<E>::PublishStatus { id, status })
            },
            Effect::CloseRecv { channel } => effect@ == (EffectView::<E>::CloseRecv { channel }),
            Effect::CloseSend { channel } => effect@ == (EffectView::<E>::CloseSend { channel }),
            Effect::Deliver { id, packet } => {
                effect@ == (EffectView::<E>::Deliver {
                    id,
                    packet: PacketView {
                        data: received_packet::contents(packet.data),
                        sender_timestamp_us: packet.sender_timestamp_us,
                    },
                })
            },
            Effect::NotifyAccept { listener, accepted } => {
                effect@ == (EffectView::<E>::NotifyAccept { listener, accepted })
            },
            Effect::Answer { reply, answer } => {
                effect@ == (EffectView::<E>::Answer { reply, answer: answer@ })
            },
            Effect::AnswerLastError { reply } => {
                effect@ == (EffectView::<E>::AnswerLastError { reply })
            },
            Effect::Release { id, state } => {
                effect@ == (EffectView::<E>::Release { id, state: state@ })
            },
        },
{
}

/// The view of an answer shows all of it.
pub proof fn law_answers_show_themselves(answer: Answer)
    ensures
        match answer {
            Answer::Socket(r) => answer@ == (AnswerView::Socket(r)),
            Answer::Done(r) => answer@ == (AnswerView::Done(r)),
            Answer::Stats(r) => answer@ == (AnswerView::Stats(r)),
            Answer::State(s) => answer@ == (AnswerView::State(s)),
            Answer::Addr(a) => answer@ == (AnswerView::Addr(a)),
            Answer::StreamId(s) => answer@ == (AnswerView::StreamId(s@)),
            Answer::Members(v) => answer@ == (AnswerView::Members(v@)),
        },
{
}

/// The view of a step shows its effects in their order, and how it goes on.
pub proof fn law_steps_show_themselves<E: Endpoints>(step: Step<E>)
    ensures
        step@.effects.len() == step.effects@.len(),
        forall|i: int|
            0 <= i < step.effects@.len() ==> #[trigger] step@.effects[i] == step.effects@[i]@,
        match step.next {
            Next::Call(call) => step@.next == NextView::Call(call@),
            Next::Done => step@.next is Done,
            Next::Shutdown => step@.next is Shutdown,
        },
{
}

/// The view of what is kept for a socket shows all of it.
pub proof fn law_sockets_show_themselves<E: Endpoints>(state: SocketState<E>)
    ensures
        state@.recv_tx == state.recv_tx,
        state@.send_rx == state.send_rx,
        state@.send_backlog == state.send_backlog@,
        state@.status_tx == state.status_tx,
        state@.accept_tx == state.accept_tx,
        state@.access_control == state.access_control,
        state@.is_listener == state.is_listener,
        state@.is_group == state.is_group,
        state@.last_status == state.last_status,
        state@.connect_reply == state.connect_reply,
{
}

/// The view of a bridge shows every socket that it looks after.
pub proof fn law_bridges_show_themselves<E: Endpoints>(bridge: Bridge<E>, id: SocketId)
    ensures
        bridge@.contains_key(id) <==> bridge.sockets@.contains_key(id),
        bridge@.contains_key(id) ==> bridge@[id] == bridge.sockets@[id]@,
{
}

/// The view of the loop shows all of it.
pub proof fn law_loops_show_themselves<E: Endpoints>(io: IoLoop<E>)
    ensures
        io@.phase == io.phase,
        io@.sockets == io.bridge@,
        io@.agenda == io.agenda@,
        io@.zombies == io.zombies@,
        io@.consecutive_epoll_errors == io.consecutive_epoll_errors,
        io@.state_poll_counter == io.state_poll_counter,
{
}

} // verus!
