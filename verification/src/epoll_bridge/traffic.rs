//! What the bridge does about sockets on its own: data in both directions,
//! accepted callers, connections that come about or break, and sockets that
//! nobody holds any more.

use vstd::prelude::*;

use bytes::Bytes;

use crate::config::SocketStatus;
use crate::epoll_bridge as bridge;
use crate::epoll_bridge::commands::{call_step, done_step, empty_step};
use crate::epoll_bridge::results;
use crate::epoll_bridge::results::{nonblocking_settings, SRTS_CONNECTED};
use crate::epoll_bridge::{
    add_effect, raw_state_to_status, Answer, AnswerView, Bridge, Call, CallView, Effect, EffectView,
    Endpoints, Next, NextView, PacketView, SocketId, SocketView, Sockets, Step, StepView,
    CONNECTED_EVENTS,
};
use crate::error::SrtError;
use crate::received_packet;
use crate::received_packet::ReceivedPacket;

verus! {

broadcast use vstd::std_specs::hash::group_hash_axioms;

/// The sockets when nobody waits any more for one to connect.
pub open spec fn without_reply<E: Endpoints>(m: Sockets<E>, id: SocketId) -> Sockets<E> {
    if m.contains_key(id) {
        m.insert(id, SocketView { connect_reply: None, ..m[id] })
    } else {
        m
    }
}

/// Whether somebody waits for a socket to connect.
pub open spec fn is_awaited<E: Endpoints>(m: Sockets<E>, id: SocketId) -> bool {
    m.contains_key(id) && m[id].connect_reply is Some
}

/// The sockets after the state at the end of a connection attempt was read.
pub open spec fn sockets_after_completion<E: Endpoints>(
    m: Sockets<E>,
    id: SocketId,
    raw: i32,
) -> Sockets<E> {
    bridge::with_status(
        m,
        id,
        if raw == SRTS_CONNECTED {
            SocketStatus::Connected
        } else {
            SocketStatus::Broken
        },
    )
}

/// The step after the state at the end of a connection attempt was read: who
/// waits is answered first.
pub open spec fn completion_step<E: Endpoints>(
    m: Sockets<E>,
    id: SocketId,
    reply: E::Reply,
    raw: i32,
) -> StepView<E> {
    bridge::done(
        if raw == SRTS_CONNECTED {
            seq![bridge::answering(reply, AnswerView::Done(Ok(())))] + bridge::with_status_effects(
                m,
                id,
                SocketStatus::Connected,
            )
        } else {
            seq![EffectView::AnswerLastError { reply }] + bridge::with_status_effects(
                m,
                id,
                SocketStatus::Broken,
            )
        },
    )
}

/// What is to be done outside when a message was received: its packet goes to the
/// reader of the socket, where it has one.
pub open spec fn delivery_effects<E: Endpoints>(
    m: Sockets<E>,
    id: SocketId,
    data: Seq<u8>,
    srctime: i64,
) -> Seq<EffectView<E>> {
    if m.contains_key(id) && m[id].recv_tx is Some {
        seq![
            EffectView::Deliver {
                id,
                packet: PacketView {
                    data,
                    sender_timestamp_us: received_packet::srctime(srctime),
                },
            },
        ]
    } else {
        Seq::empty()
    }
}

/// What is to be done outside when a caller was accepted: its socket does not
/// block and is watched, and the listener is told of it.
pub open spec fn accept_effects<E: Endpoints>(
    m: Sockets<E>,
    listener: SocketId,
    accepted: SocketId,
) -> Seq<EffectView<E>> {
    seq![
        EffectView::SetOptions { id: accepted, settings: results::nonblocking() },
        EffectView::AddToEpoll { id: accepted, events: CONNECTED_EVENTS },
    ] + (if m.contains_key(listener) && m[listener].accept_tx is Some {
        seq![EffectView::NotifyAccept { listener, accepted }]
    } else {
        Seq::empty()
    })
}

/// The sockets when one has sent its first backlogged packet off.
pub open spec fn without_first<E: Endpoints>(m: Sockets<E>, id: SocketId) -> Sockets<E> {
    m.insert(id, SocketView { send_backlog: m[id].send_backlog.skip(1), ..m[id] })
}

/// The sockets when one has a packet back in its backlog: in front where it came
/// from there, behind where it came from the channel.
pub open spec fn with_data<E: Endpoints>(
    m: Sockets<E>,
    id: SocketId,
    data: Bytes,
    backlogged: bool,
) -> Sockets<E> {
    if m.contains_key(id) {
        m.insert(
            id,
            SocketView {
                send_backlog: if backlogged {
                    seq![data] + m[id].send_backlog
                } else {
                    m[id].send_backlog.push(data)
                },
                ..m[id]
            },
        )
    } else {
        m
    }
}

/// Whether a backlogged packet is sent next.
pub open spec fn has_backlog<E: Endpoints>(m: Sockets<E>, id: SocketId) -> bool {
    m.contains_key(id) && m[id].send_backlog.len() > 0
}

/// The step that takes the next packet from the sending channel, where there is
/// one.
pub open spec fn channel_step<E: Endpoints>(m: Sockets<E>, id: SocketId) -> StepView<E> {
    if m.contains_key(id) && m[id].send_rx is Some {
        bridge::calling(CallView::TakeOutgoing { id })
    } else {
        bridge::done(Seq::empty())
    }
}

/// The sockets when sending has begun.
pub open spec fn sockets_after_send<E: Endpoints>(m: Sockets<E>, id: SocketId) -> Sockets<E> {
    if has_backlog(m, id) {
        without_first(m, id)
    } else {
        m
    }
}

/// The step that sends next: the backlog comes before the channel.
pub open spec fn send_step<E: Endpoints>(m: Sockets<E>, id: SocketId) -> StepView<E> {
    if has_backlog(m, id) {
        bridge::calling(
            CallView::Send { id, data: m[id].send_backlog[0], backlogged: true },
        )
    } else {
        channel_step(m, id)
    }
}

/// The sockets after the state of a polled socket was read.
pub open spec fn sockets_after_poll<E: Endpoints>(
    m: Sockets<E>,
    id: SocketId,
    raw: i32,
) -> Sockets<E> {
    let status = bridge::status_of(raw);
    if !m.contains_key(id) || m[id].last_status == status {
        m
    } else if status == SocketStatus::Broken || status == SocketStatus::Closed {
        without_reply(bridge::with_status(m, id, status), id)
    } else {
        bridge::with_status(m, id, status)
    }
}

/// What is to be done outside after the state of a polled socket was read.
pub open spec fn poll_effects<E: Endpoints>(
    m: Sockets<E>,
    id: SocketId,
    raw: i32,
) -> Seq<EffectView<E>> {
    let status = bridge::status_of(raw);
    if !m.contains_key(id) || m[id].last_status == status {
        Seq::empty()
    } else {
        bridge::status_effects(id, m[id], status) + (if (status == SocketStatus::Broken || status
            == SocketStatus::Closed) && m[id].connect_reply is Some {
            seq![EffectView::AnswerLastError { reply: m[id].connect_reply->Some_0 }]
        } else {
            Seq::empty()
        })
    }
}

/// Whether a socket is dead and only waits for its reader to go. Listeners and
/// groups are closed by those who hold them.
pub open spec fn is_dead<E: Endpoints>(s: SocketView<E>) -> bool {
    bridge::is_terminal(s.last_status) && !s.is_listener && !s.is_group
}

/// The sockets without those given.
pub open spec fn without<E: Endpoints>(m: Sockets<E>, ids: Seq<SocketId>) -> Sockets<E> {
    m.remove_keys(ids.to_set())
}

/// What it takes to be rid of sockets, one after the other.
pub open spec fn closing_effects<E: Endpoints>(
    m: Sockets<E>,
    ids: Seq<SocketId>,
    error: SrtError,
) -> Seq<EffectView<E>>
    decreases ids.len(),
{
    if ids.len() == 0 {
        Seq::empty()
    } else {
        closing_effects(m, ids.drop_last(), error) + bridge::close_effects(ids.last())
            + bridge::farewell_effects(without(m, ids.drop_last()), ids.last(), error)
    }
}

/// What it takes to end: every socket is closed, then the watch list given back.
pub open spec fn cleanup_effects<E: Endpoints>(
    m: Sockets<E>,
    ids: Seq<SocketId>,
) -> Seq<EffectView<E>> {
    closing_effects(m, ids, SrtError::SocketClosed).push(EffectView::ReleaseEpoll)
}

/// Whether a sequence lists every socket, each once.
pub open spec fn lists<E: Endpoints>(ids: Seq<SocketId>, m: Sockets<E>) -> bool {
    ids.no_duplicates() && ids.to_set() == m.dom()
}

impl<E: Endpoints> Bridge<E> {
    /// Every socket, in any order.
    pub fn ids(&self) -> (ids: Vec<SocketId>)
        ensures
            lists(ids@, self@),
    {
        let mut ids: Vec<SocketId> = Vec::new();
        for k in it: self.sockets.keys()
            invariant
                ids@ == it.seq().unref().take(it.index() as int),
                it.index() == it.seq().len() ==> ids@ =~= it.seq().unref(),
                it.seq().unref().no_duplicates(),
                it.seq().unref().to_set() == self.sockets@.dom(),
        {
            ids.push(*k);
        }
        assert(self@.dom() =~= self.sockets@.dom());
        ids
    }

    /// Begins with the end of a connection attempt.
    pub fn finish_connect(&mut self, id: SocketId) -> (step: Step<E>)
        ensures
            final(self)@ == without_reply(old(self)@, id),
            step@ == (if is_awaited(old(self)@, id) {
                bridge::calling::<E>(
                    CallView::ReadCompletedConnect {
                        id,
                        reply: old(self)@[id].connect_reply->Some_0,
                    },
                )
            } else {
                bridge::done(Seq::empty())
            }),
    {
        match self.take(id) {
            Some(mut state) => {
                let waiting = state.connect_reply.take();
                self.put(id, state);
                assert(self@ =~= without_reply(old(self)@, id));
                match waiting {
                    Some(reply) => call_step(Call::ReadCompletedConnect { id, reply }),
                    None => empty_step(),
                }
            },
            None => {
                assert(self@ =~= old(self)@);
                empty_step()
            },
        }
    }

    /// Goes on when the state at the end of a connection attempt was read.
    pub fn connect_completed(&mut self, id: SocketId, reply: E::Reply, raw: i32) -> (step: Step<E>)
        ensures
            final(self)@ == sockets_after_completion(old(self)@, id, raw),
            step@ == completion_step(old(self)@, id, reply, raw),
    {
        let mut effects: Vec<Effect<E>> = Vec::new();
        if raw == SRTS_CONNECTED {
            add_effect(&mut effects, Effect::Answer { reply, answer: Answer::Done(Ok(())) });
            self.set_status(id, SocketStatus::Connected, &mut effects);
        } else {
            add_effect(&mut effects, Effect::AnswerLastError { reply });
            self.set_status(id, SocketStatus::Broken, &mut effects);
        }
        assert(bridge::effects_view(effects@) =~= completion_step(
            old(self)@,
            id,
            reply,
            raw,
        ).effects);
        done_step(effects)
    }

    /// Begins to receive. Whether anything is there is asked first: libsrt is
    /// slow to say that nothing is.
    pub fn handle_recv(id: SocketId) -> (step: Step<E>)
        ensures
            step@ == bridge::calling(CallView::<E>::CountReceived { id }),
    {
        call_step(Call::CountReceived { id })
    }

    /// Goes on when the received packets were counted: `ret` is what libsrt
    /// returned.
    pub fn received_counted(id: SocketId, ret: i32, pending: i32) -> (step: Step<E>)
        ensures
            step@ == (if ret < 0 || pending <= 0 {
                bridge::done(Seq::empty())
            } else {
                bridge::calling(CallView::<E>::Receive { id })
            }),
    {
        if ret < 0 || pending <= 0 {
            empty_step()
        } else {
            call_step(Call::Receive { id })
        }
    }

    /// Goes on when a message was received: `ret` bytes of it stand in `buf`,
    /// and `srctime` is when its sender sent it. The next one is looked for.
    pub fn message_received(
        &self,
        id: SocketId,
        ret: i32,
        buf: &[u8],
        srctime: i64,
    ) -> (step: Step<E>)
        requires
            ret <= buf@.len(),
        ensures
            step@ == (if ret <= 0 {
                bridge::done(Seq::empty())
            } else {
                StepView {
                    effects: delivery_effects(self@, id, buf@.take(ret as int), srctime),
                    next: NextView::Call(CallView::CountReceived { id }),
                }
            }),
    {
        if ret <= 0 {
            return empty_step();
        }
        let used = vstd::slice::slice_subrange(buf, 0, ret as usize);
        assert(used@ =~= buf@.take(ret as int));
        let packet = ReceivedPacket::with_srctime(Bytes::copy_from_slice(used), srctime);
        let wanted = match self.get(id) {
            Some(state) => state.recv_tx.is_some(),
            None => false,
        };
        let mut effects: Vec<Effect<E>> = Vec::new();
        if wanted {
            add_effect(&mut effects, Effect::Deliver { id, packet });
        }
        assert(bridge::effects_view(effects@) =~= delivery_effects(self@, id, used@, srctime));
        Step { effects, next: Next::Call(Call::CountReceived { id }) }
    }

    /// Begins to send: the backlog first, then the channel.
    pub fn handle_send(&mut self, id: SocketId) -> (step: Step<E>)
        ensures
            final(self)@ == sockets_after_send(old(self)@, id),
            step@ == send_step(old(self)@, id),
    {
        match self.take(id) {
            Some(mut state) => {
                let first = state.send_backlog.pop_front();
                let open = state.send_rx.is_some();
                self.put(id, state);
                assert(self@ =~= sockets_after_send(old(self)@, id)) by {
                    assert(old(self)@[id].send_backlog.skip(1) =~= old(self)@[id].send_backlog.subrange(
                        1,
                        old(self)@[id].send_backlog.len() as int,
                    ));
                }
                match first {
                    Some(data) => call_step(Call::Send { id, data, backlogged: true }),
                    None => {
                        if open {
                            call_step(Call::TakeOutgoing { id })
                        } else {
                            empty_step()
                        }
                    },
                }
            },
            None => {
                assert(self@ =~= old(self)@);
                empty_step()
            },
        }
    }

    /// Goes on when the next packet was looked for in the sending channel.
    pub fn outgoing_taken(id: SocketId, data: Option<Bytes>) -> (step: Step<E>)
        ensures
            step@ == (match data {
                Some(data) => bridge::calling(
                    CallView::<E>::Send { id, data, backlogged: false },
                ),
                None => bridge::done(Seq::empty()),
            }),
    {
        match data {
            Some(data) => call_step(Call::Send { id, data, backlogged: false }),
            None => empty_step(),
        }
    }

    /// Goes on when a packet was to be sent. Where there was no room it goes back
    /// into the backlog; on any other error it is dropped, and sending stops.
    pub fn send_finished(
        &mut self,
        id: SocketId,
        data: Bytes,
        backlogged: bool,
        result: Result<(), SrtError>,
    ) -> (step: Step<E>)
        ensures
            match result {
                Ok(_) => if backlogged {
                    final(self)@ == sockets_after_send(old(self)@, id) && step@ == send_step(
                        old(self)@,
                        id,
                    )
                } else {
                    final(self)@ == old(self)@ && step@ == channel_step(old(self)@, id)
                },
                Err(error) => step@ == bridge::done::<E>(Seq::empty()) && final(self)@ == (if error
                    == SrtError::AsyncSend {
                    with_data(old(self)@, id, data, backlogged)
                } else {
                    old(self)@
                }),
            },
    {
        match result {
            Ok(_) => {
                if backlogged {
                    self.handle_send(id)
                } else {
                    let open = match self.get(id) {
                        Some(state) => state.send_rx.is_some(),
                        None => false,
                    };
                    if open {
                        call_step(Call::TakeOutgoing { id })
                    } else {
                        empty_step()
                    }
                }
            },
            Err(error) => {
                if error == SrtError::AsyncSend {
                    match self.take(id) {
                        Some(mut state) => {
                            if backlogged {
                                state.send_backlog.push_front(data);
                            } else {
                                state.send_backlog.push_back(data);
                            }
                            self.put(id, state);
                            assert(self@ =~= with_data(old(self)@, id, data, backlogged));
                        },
                        None => {
                            assert(self@ =~= old(self)@);
                        },
                    }
                }
                empty_step()
            },
        }
    }

    /// Begins to accept a caller.
    pub fn handle_accept(id: SocketId) -> (step: Step<E>)
        ensures
            step@ == bridge::calling(CallView::<E>::Accept { id }),
    {
        call_step(Call::Accept { id })
    }

    /// Goes on when a caller was to be accepted.
    pub fn accept_finished(
        &self,
        listener: SocketId,
        result: Result<SocketId, SrtError>,
    ) -> (step: Step<E>)
        ensures
            step@ == bridge::done(
                match result {
                    Ok(accepted) => accept_effects(self@, listener, accepted),
                    Err(_) => Seq::empty(),
                },
            ),
    {
        match result {
            Ok(accepted) => {
                let mut effects: Vec<Effect<E>> = Vec::new();
                add_effect(
                    &mut effects,
                    Effect::SetOptions { id: accepted, settings: nonblocking_settings() },
                );
                add_effect(
                    &mut effects,
                    Effect::AddToEpoll { id: accepted, events: CONNECTED_EVENTS },
                );
                let wanted = match self.get(listener) {
                    Some(state) => state.accept_tx.is_some(),
                    None => false,
                };
                if wanted {
                    add_effect(&mut effects, Effect::NotifyAccept { listener, accepted });
                }
                assert(bridge::effects_view(effects@) =~= accept_effects(
                    self@,
                    listener,
                    accepted,
                ));
                done_step(effects)
            },
            Err(_) => empty_step(),
        }
    }

    /// Takes over that libsrt reports an error on a socket.
    pub fn handle_error(&mut self, id: SocketId) -> (step: Step<E>)
        ensures
            final(self)@ == bridge::with_status(old(self)@, id, SocketStatus::Broken),
            step@ == bridge::done(
                bridge::with_status_effects(old(self)@, id, SocketStatus::Broken),
            ),
    {
        let mut effects: Vec<Effect<E>> = Vec::new();
        self.set_status(id, SocketStatus::Broken, &mut effects);
        assert(bridge::effects_view(effects@) =~= bridge::with_status_effects(
            old(self)@,
            id,
            SocketStatus::Broken,
        ));
        done_step(effects)
    }

    /// Goes on when the state of a polled socket was read.
    pub fn polled_state_read(&mut self, id: SocketId, raw: i32) -> (step: Step<E>)
        ensures
            final(self)@ == sockets_after_poll(old(self)@, id, raw),
            step@ == bridge::done(poll_effects(old(self)@, id, raw)),
    {
        let status = raw_state_to_status(raw);
        let mut effects: Vec<Effect<E>> = Vec::new();
        match self.take(id) {
            Some(mut state) => {
                if status != state.last_status {
                    state.update_status(id, status, &mut effects);
                    if status == SocketStatus::Broken || status == SocketStatus::Closed {
                        match state.connect_reply.take() {
                            Some(reply) => {
                                add_effect(&mut effects, Effect::AnswerLastError { reply });
                            },
                            None => {},
                        }
                    }
                }
                self.put(id, state);
            },
            None => {},
        }
        assert(self@ =~= sockets_after_poll(old(self)@, id, raw));
        assert(bridge::effects_view(effects@) =~= poll_effects(old(self)@, id, raw));
        done_step(effects)
    }

    /// Closes sockets and lets go of what was kept for them, with an error for
    /// whoever waits for one of them to connect.
    pub(crate) fn close_all(
        &mut self,
        ids: &Vec<SocketId>,
        error: SrtError,
        effects: &mut Vec<Effect<E>>,
    )
        ensures
            final(self)@ == without(old(self)@, ids@),
            bridge::effects_view(final(effects)@) == bridge::effects_view(old(effects)@)
                + closing_effects(old(self)@, ids@, error),
    {
        let ghost m = self@;
        let ghost before = bridge::effects_view(effects@);
        assert(self@ =~= without(m, ids@.take(0)));
        assert(before =~= before + closing_effects(m, ids@.take(0), error));
        for i in 0..ids.len()
            invariant
                self@ == without(m, ids@.take(i as int)),
                bridge::effects_view(effects@) == before + closing_effects(
                    m,
                    ids@.take(i as int),
                    error,
                ),
        {
            let ghost so_far = ids@.take(i as int);
            let ghost more = ids@.take(i + 1);
            assert(more.drop_last() =~= so_far);
            assert(more.last() == ids@[i as int]);
            self.close_with_farewell(ids[i], error, effects);
            assert(more.to_set() =~= so_far.to_set().insert(ids@[i as int])) by {
                assert(more =~= so_far.push(ids@[i as int]));
                assert forall|x: SocketId| more.contains(x) implies so_far.to_set().insert(
                    ids@[i as int],
                ).contains(x) by {
                    let j = choose|j: int| 0 <= j < more.len() && more[j] == x;
                    if j < i {
                        assert(so_far[j] == x);
                    }
                }
                assert forall|x: SocketId| so_far.contains(x) implies more.contains(x) by {
                    let j = choose|j: int| 0 <= j < so_far.len() && so_far[j] == x;
                    assert(more[j] == x);
                }
                assert(more[i as int] == ids@[i as int]);
            }
            assert(self@ =~= without(m, more));
            assert(bridge::effects_view(effects@) =~= before + closing_effects(m, more, error));
        }
        assert(ids@.take(ids@.len() as int) =~= ids@);
    }

    /// Closes every socket and gives the watch list back.
    pub fn cleanup(&mut self) -> (effects: Vec<Effect<E>>)
        ensures
            final(self)@ == Map::<SocketId, SocketView<E>>::empty(),
            exists|ids: Seq<SocketId>|
                lists(ids, old(self)@) && bridge::effects_view(effects@)
                    == #[trigger] cleanup_effects(old(self)@, ids),
    {
        let ids = self.ids();
        let mut effects: Vec<Effect<E>> = Vec::new();
        self.close_all(&ids, SrtError::SocketClosed, &mut effects);
        assert(self@ =~= Map::<SocketId, SocketView<E>>::empty());
        add_effect(&mut effects, Effect::ReleaseEpoll);
        assert(bridge::effects_view(effects@) =~= cleanup_effects(old(self)@, ids@));
        effects
    }
}

} // verus!
