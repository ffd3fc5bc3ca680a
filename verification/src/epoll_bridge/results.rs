//! How the bridge goes on when a call has returned.

use vstd::prelude::*;

use crate::addr::{self, sockaddr_to_socket_addr, RawSockAddr, SocketAddr};
use crate::config::{ConfigView, SocketStatus, SrtConfig};
use crate::epoll_bridge as bridge;
use crate::epoll_bridge::commands::{answer_step, call_step, done_step, empty_step};
use crate::epoll_bridge::{
    add_effect, map_member_status, raw_state_to_status, Answer, AnswerView, Bridge, Call, CallView,
    Effect, EffectView, Endpoints, RawMember, SocketId, SocketState, SocketView, Sockets, Step,
    StepView, CONNECTED_EVENTS, CONNECTING_EVENTS, LISTENER_EVENTS,
};
use crate::error::SrtError;
use crate::group::GroupMemberStats;
use crate::options;
use crate::options::{
    apply_config, OptionSetting, OptionValue, OptionValueView, SettingView, SocketOption,
};
use crate::stats;
use crate::stats::{convert_perfmon_to_stats, PerfMon, SrtStats};
use crate::text;
use crate::text::{chars_of, from_utf8_lossy, string_of, trim_end_matches};

verus! {

/// The state number of a new socket.
pub const SRTS_INIT: i32 = 1;

/// The state number of a bound socket.
pub const SRTS_OPENED: i32 = 2;

/// The state number of a connecting socket.
pub const SRTS_CONNECTING: i32 = 4;

/// The state number of a connected socket.
pub const SRTS_CONNECTED: i32 = 5;

/// The state number of a member that is broken.
pub const SRT_GST_BROKEN: i32 = 3;

/// The settings that keep calls from blocking.
pub open spec fn nonblocking() -> Seq<SettingView> {
    seq![
        SettingView { option: SocketOption::RcvSyn, value: OptionValueView::Int(0) },
        SettingView { option: SocketOption::SndSyn, value: OptionValueView::Int(0) },
    ]
}

/// The settings of a new socket: it does not block, and has what its
/// configuration asks for.
pub open spec fn initial_settings(config: ConfigView) -> Seq<SettingView> {
    nonblocking() + options::wanted_settings(options::option_table(config))
}

/// The step after a new socket, or a new group, was asked for.
pub open spec fn created_step<E: Endpoints>(
    config: ConfigView,
    reply: E::Reply,
    created: Result<SocketId, SrtError>,
) -> StepView<E> {
    match created {
        Ok(id) => bridge::done(
            seq![
                EffectView::SetOptions { id, settings: initial_settings(config) },
                bridge::answering(reply, AnswerView::Socket(created)),
            ],
        ),
        Err(_) => bridge::done(seq![bridge::answering(reply, AnswerView::Socket(created))]),
    }
}

/// The step of a listener that cannot listen: it is closed and let go of, and
/// the error is answered.
pub open spec fn refused_listen<E: Endpoints>(
    m: Sockets<E>,
    id: SocketId,
    reply: E::Reply,
    error: SrtError,
) -> StepView<E> {
    bridge::done(
        bridge::close_effects(id) + bridge::release_effects(m, id) + seq![
            bridge::answering(reply, AnswerView::Done(Err(error))),
        ],
    )
}

/// The sockets after the hook of a listener was to be armed: a listener whose hook
/// could not be armed is no longer among them.
pub open spec fn sockets_after_arming<E: Endpoints>(
    m: Sockets<E>,
    id: SocketId,
    armed: Result<(), SrtError>,
) -> Sockets<E> {
    if armed is Ok {
        m
    } else {
        m.remove(id)
    }
}

/// The step after the hook of a listener was to be armed.
pub open spec fn arming_step<E: Endpoints>(
    m: Sockets<E>,
    id: SocketId,
    backlog: i32,
    reply: E::Reply,
    armed: Result<(), SrtError>,
) -> StepView<E> {
    match armed {
        Ok(_) => bridge::calling(CallView::Listen { id, backlog, reply }),
        Err(error) => refused_listen(m, id, reply, error),
    }
}

/// The sockets after one was told to listen: it is a listener now, or where it
/// cannot listen no longer among them.
pub open spec fn sockets_after_listen<E: Endpoints>(
    m: Sockets<E>,
    id: SocketId,
    listening: Result<(), SrtError>,
) -> Sockets<E> {
    if listening is Ok {
        bridge::with_status(as_listener(m, id), id, SocketStatus::Listening)
    } else {
        m.remove(id)
    }
}

/// The step after a socket was told to listen.
pub open spec fn listen_step<E: Endpoints>(
    m: Sockets<E>,
    id: SocketId,
    reply: E::Reply,
    listening: Result<(), SrtError>,
) -> StepView<E> {
    match listening {
        Ok(_) => bridge::done(
            seq![EffectView::AddToEpoll { id, events: LISTENER_EVENTS }]
                + bridge::with_status_effects(as_listener(m, id), id, SocketStatus::Listening)
                + seq![bridge::answering(reply, AnswerView::Done(Ok(())))],
        ),
        Err(error) => refused_listen(m, id, reply, error),
    }
}

/// The sockets when one has turned into a listener.
pub open spec fn as_listener<E: Endpoints>(m: Sockets<E>, id: SocketId) -> Sockets<E> {
    if m.contains_key(id) {
        m.insert(id, SocketView { is_listener: true, ..m[id] })
    } else {
        m
    }
}

/// The sockets when one waits for its connection.
pub open spec fn awaiting<E: Endpoints>(
    m: Sockets<E>,
    id: SocketId,
    reply: E::Reply,
) -> Sockets<E> {
    if m.contains_key(id) {
        m.insert(id, SocketView { connect_reply: Some(reply), ..m[id] })
    } else {
        m
    }
}

/// Whether a handshake may still be under way in this state.
pub open spec fn may_connect(raw: i32) -> bool {
    raw == SRTS_CONNECTING || raw == SRTS_OPENED || raw == SRTS_INIT
}

/// The sockets after the state of a connecting socket was read.
pub open spec fn sockets_after_connect<E: Endpoints>(
    m: Sockets<E>,
    id: SocketId,
    reply: E::Reply,
    raw: i32,
) -> Sockets<E> {
    if raw == SRTS_CONNECTED {
        bridge::with_status(m, id, SocketStatus::Connected)
    } else if may_connect(raw) {
        bridge::with_status(awaiting(m, id, reply), id, SocketStatus::Connecting)
    } else {
        m
    }
}

/// The step after the state of a connecting socket was read. Success is answered
/// in the connected state alone; as long as the handshake may be under way the
/// answer waits.
pub open spec fn connect_step<E: Endpoints>(
    m: Sockets<E>,
    id: SocketId,
    reply: E::Reply,
    raw: i32,
) -> StepView<E> {
    bridge::done(
        if raw == SRTS_CONNECTED {
            seq![EffectView::AddToEpoll { id, events: CONNECTED_EVENTS }]
                + bridge::with_status_effects(m, id, SocketStatus::Connected) + seq![
                bridge::answering(reply, AnswerView::Done(Ok(()))),
            ]
        } else if may_connect(raw) {
            seq![EffectView::AddToEpoll { id, events: CONNECTING_EVENTS }]
                + bridge::with_status_effects(awaiting(m, id, reply), id, SocketStatus::Connecting)
        } else {
            seq![EffectView::AnswerLastError { reply }]
        },
    )
}

/// The Stream ID that libsrt reports, without the zero bytes behind it; empty
/// where it reports none.
pub open spec fn reported_stream_id(ret: i32, len: i32, buf: Seq<u8>) -> Seq<char> {
    if ret < 0 || len <= 0 {
        Seq::empty()
    } else {
        text::without_trailing(text::lossy_text(buf.take(len as int)), '\0')
    }
}

/// What is said of a member of a group, with the given statistics.
pub open spec fn member_entry(member: RawMember, stats: SrtStats) -> GroupMemberStats {
    GroupMemberStats {
        id: member.id,
        peer_addr: addr::address_of(member.peeraddr),
        socket_status: bridge::status_of(member.sockstate),
        member_status: bridge::member_status_of(member.memberstate),
        weight: member.weight,
        stats,
    }
}

/// Whether libsrt reports a member as broken.
pub open spec fn is_broken_member(member: RawMember) -> bool {
    member.memberstate == SRT_GST_BROKEN
}

/// The step that looks at the members that have no entry yet. Of a broken member
/// no statistics are asked for.
pub open spec fn members_step<E: Endpoints>(
    id: SocketId,
    members: Seq<RawMember>,
    done: Seq<GroupMemberStats>,
    reply: E::Reply,
) -> StepView<E>
    decreases members.len() - done.len(),
{
    if done.len() >= members.len() {
        bridge::done(seq![bridge::answering(reply, AnswerView::Members(done))])
    } else if is_broken_member(members[done.len() as int]) {
        members_step(
            id,
            members,
            done.push(member_entry(members[done.len() as int], stats::zeroed())),
            reply,
        )
    } else {
        bridge::calling(CallView::ReadMemberStats { id, members, done, reply })
    }
}

/// The settings that keep calls from blocking.
pub fn nonblocking_settings() -> (list: Vec<OptionSetting>)
    ensures
        options::settings(list@) == nonblocking(),
{
    let mut list: Vec<OptionSetting> = Vec::new();
    list.push(OptionSetting { option: SocketOption::RcvSyn, value: OptionValue::Int(0) });
    list.push(OptionSetting { option: SocketOption::SndSyn, value: OptionValue::Int(0) });
    assert(options::settings(list@) =~= nonblocking());
    list
}

/// The settings of a new socket.
fn settings_for(config: &SrtConfig) -> (list: Vec<OptionSetting>)
    ensures
        options::settings(list@) == initial_settings(config@),
{
    let mut list = nonblocking_settings();
    let ghost first = list@;
    let mut wanted = apply_config(config);
    let ghost second = wanted@;
    list.append(&mut wanted);
    assert(options::settings(list@) =~= options::settings(first) + options::settings(second));
    list
}

impl<E: Endpoints> Bridge<E> {
    /// Goes on when a socket was asked for.
    pub fn socket_created(
        config: &SrtConfig,
        reply: E::Reply,
        created: Result<SocketId, SrtError>,
    ) -> (step: Step<E>)
        ensures
            step@ == created_step::<E>(config@, reply, created),
    {
        let mut effects: Vec<Effect<E>> = Vec::new();
        match created {
            Ok(id) => {
                add_effect(&mut effects, Effect::SetOptions { id, settings: settings_for(config) });
            },
            Err(_) => {},
        }
        add_effect(&mut effects, Effect::Answer { reply, answer: Answer::Socket(created) });
        assert(bridge::effects_view(effects@) =~= created_step::<E>(config@, reply, created).effects);
        done_step(effects)
    }

    /// Goes on when a socket was bound.
    pub fn bind_finished(reply: E::Reply, result: Result<(), SrtError>) -> (step: Step<E>)
        ensures
            step@ == bridge::done(seq![bridge::answering::<E>(reply, AnswerView::Done(result))]),
    {
        answer_step(reply, Answer::Done(result))
    }

    /// Closes a listener that cannot listen.
    fn refuse_listen(&mut self, id: SocketId, reply: E::Reply, error: SrtError) -> (step: Step<E>)
        ensures
            final(self)@ == old(self)@.remove(id),
            step@ == refused_listen(old(self)@, id, reply, error),
    {
        let mut effects: Vec<Effect<E>> = Vec::new();
        match self.close_and_release(id, &mut effects) {
            Some(state) => {
                add_effect(&mut effects, Effect::Release { id, state });
            },
            None => {},
        }
        add_effect(&mut effects, Effect::Answer { reply, answer: Answer::Done(Err(error)) });
        assert(bridge::effects_view(effects@) =~= refused_listen(
            old(self)@,
            id,
            reply,
            error,
        ).effects);
        done_step(effects)
    }

    /// Goes on when the hook of a listener was to be armed. A listener whose
    /// policy could not be armed does not listen: it would let every caller in.
    pub fn accept_hook_armed(
        &mut self,
        id: SocketId,
        backlog: i32,
        reply: E::Reply,
        result: Result<(), SrtError>,
    ) -> (step: Step<E>)
        ensures
            final(self)@ == sockets_after_arming(old(self)@, id, result),
            step@ == arming_step(old(self)@, id, backlog, reply, result),
    {
        match result {
            Ok(_) => call_step(Call::Listen { id, backlog, reply }),
            Err(error) => self.refuse_listen(id, reply, error),
        }
    }

    /// Goes on when a socket was told to listen.
    pub fn listen_finished(
        &mut self,
        id: SocketId,
        reply: E::Reply,
        result: Result<(), SrtError>,
    ) -> (step: Step<E>)
        ensures
            final(self)@ == sockets_after_listen(old(self)@, id, result),
            step@ == listen_step(old(self)@, id, reply, result),
    {
        match result {
            Ok(_) => {
                let ghost m = self@;
                let mut effects: Vec<Effect<E>> = Vec::new();
                add_effect(&mut effects, Effect::AddToEpoll { id, events: LISTENER_EVENTS });
                match self.take(id) {
                    Some(mut state) => {
                        state.is_listener = true;
                        self.put(id, state);
                        assert(self@ =~= as_listener(m, id));
                    },
                    None => {
                        assert(self@ =~= m);
                    },
                }
                self.set_status(id, SocketStatus::Listening, &mut effects);
                add_effect(&mut effects, Effect::Answer { reply, answer: Answer::Done(Ok(())) });
                assert(bridge::effects_view(effects@) =~= listen_step(m, id, reply, result).effects);
                done_step(effects)
            },
            Err(error) => self.refuse_listen(id, reply, error),
        }
    }

    /// Goes on when a socket was told to connect. That a non-blocking connect
    /// returns says only that the handshake has begun.
    pub fn connect_returned(
        id: SocketId,
        reply: E::Reply,
        result: Result<(), SrtError>,
    ) -> (step: Step<E>)
        ensures
            step@ == (match result {
                Err(error) if error != SrtError::AsyncFail => bridge::done(
                    seq![bridge::answering(reply, AnswerView::Done(result))],
                ),
                _ => bridge::calling(CallView::<E>::ReadConnectState { id, reply }),
            }),
    {
        match result {
            Err(error) if error != SrtError::AsyncFail => answer_step(reply, Answer::Done(result)),
            _ => call_step(Call::ReadConnectState { id, reply }),
        }
    }

    /// Goes on when the state of a connecting socket was read.
    pub fn connect_state_read(&mut self, id: SocketId, reply: E::Reply, raw: i32) -> (step: Step<E>)
        ensures
            final(self)@ == sockets_after_connect(old(self)@, id, reply, raw),
            step@ == connect_step(old(self)@, id, reply, raw),
    {
        let ghost m = self@;
        let mut effects: Vec<Effect<E>> = Vec::new();
        if raw == SRTS_CONNECTED {
            add_effect(&mut effects, Effect::AddToEpoll { id, events: CONNECTED_EVENTS });
            self.set_status(id, SocketStatus::Connected, &mut effects);
            add_effect(&mut effects, Effect::Answer { reply, answer: Answer::Done(Ok(())) });
        } else if raw == SRTS_CONNECTING || raw == SRTS_OPENED || raw == SRTS_INIT {
            add_effect(&mut effects, Effect::AddToEpoll { id, events: CONNECTING_EVENTS });
            match self.take(id) {
                Some(mut state) => {
                    state.connect_reply = Some(reply);
                    self.put(id, state);
                    assert(self@ =~= awaiting(m, id, reply));
                },
                None => {
                    assert(self@ =~= m);
                },
            }
            self.set_status(id, SocketStatus::Connecting, &mut effects);
        } else {
            add_effect(&mut effects, Effect::AnswerLastError { reply });
        }
        assert(bridge::effects_view(effects@) =~= connect_step(m, id, reply, raw).effects);
        done_step(effects)
    }

    /// Goes on when the state of a registered socket was read: an accepted socket
    /// is connected already.
    pub fn registered_state_read(&mut self, id: SocketId, raw: i32) -> (step: Step<E>)
        ensures
            ({
                let status = bridge::status_of(raw);
                let m = old(self)@;
                if m.contains_key(id) && m[id].last_status != status {
                    final(self)@ == bridge::with_status(m, id, status) && step@ == bridge::done(
                        bridge::with_status_effects(m, id, status),
                    )
                } else {
                    final(self)@ == m && step@ == bridge::done::<E>(Seq::empty())
                }
            }),
    {
        let status = raw_state_to_status(raw);
        let changed = match self.get(id) {
            Some(state) => state.last_status != status,
            None => false,
        };
        if changed {
            let mut effects: Vec<Effect<E>> = Vec::new();
            self.set_status(id, status, &mut effects);
            assert(bridge::effects_view(effects@) =~= bridge::with_status_effects(
                old(self)@,
                id,
                status,
            ));
            done_step(effects)
        } else {
            empty_step()
        }
    }

    /// Goes on when the statistics of a socket were read.
    pub fn stats_read(reply: E::Reply, result: Result<PerfMon, SrtError>) -> (step: Step<E>)
        ensures
            step@ == bridge::done(
                seq![
                    bridge::answering::<E>(
                        reply,
                        AnswerView::Stats(
                            match result {
                                Ok(perf) => Ok(stats::stats_of(perf)),
                                Err(error) => Err(error),
                            },
                        ),
                    ),
                ],
            ),
    {
        let result: Result<SrtStats, SrtError> = match result {
            Ok(perf) => Ok(convert_perfmon_to_stats(&perf)),
            Err(error) => Err(error),
        };
        answer_step(reply, Answer::Stats(result))
    }

    /// Goes on when the state of a socket was read for a caller.
    pub fn state_read(reply: E::Reply, raw: i32) -> (step: Step<E>)
        ensures
            step@ == bridge::done(
                seq![bridge::answering::<E>(reply, AnswerView::State(bridge::status_of(raw)))],
            ),
    {
        answer_step(reply, Answer::State(raw_state_to_status(raw)))
    }

    /// Goes on when the address of the peer, or the local one, was read.
    pub fn name_read(reply: E::Reply, name: Option<RawSockAddr>) -> (step: Step<E>)
        ensures
            step@ == bridge::done(
                seq![
                    bridge::answering::<E>(
                        reply,
                        AnswerView::Addr(
                            match name {
                                Some(raw) => addr::address_of(raw),
                                None => None,
                            },
                        ),
                    ),
                ],
            ),
    {
        let found: Option<SocketAddr> = match name {
            Some(raw) => sockaddr_to_socket_addr(&raw),
            None => None,
        };
        answer_step(reply, Answer::Addr(found))
    }

    /// Goes on when the Stream ID of a socket was read: `ret` is what libsrt
    /// returned, and `len` the length it gave to what stands in `buf`.
    pub fn stream_id_read(reply: E::Reply, ret: i32, len: i32, buf: &[u8]) -> (step: Step<E>)
        requires
            ret >= 0 ==> len <= buf@.len(),
        ensures
            step@ == bridge::done(
                seq![
                    bridge::answering::<E>(
                        reply,
                        AnswerView::StreamId(reported_stream_id(ret, len, buf@)),
                    ),
                ],
            ),
    {
        let found = if ret < 0 || len <= 0 {
            String::new()
        } else {
            let used = vstd::slice::slice_subrange(buf, 0, len as usize);
            assert(used@ =~= buf@.take(len as int));
            let all = from_utf8_lossy(used);
            let chars = chars_of(all.as_str());
            string_of(trim_end_matches(chars.as_slice(), '\0'))
        };
        assert(found@ =~= reported_stream_id(ret, len, buf@));
        answer_step(reply, Answer::StreamId(found))
    }

    /// Goes on when a group was asked for.
    pub fn group_created(
        &mut self,
        config: &SrtConfig,
        reply: E::Reply,
        created: Result<SocketId, SrtError>,
    ) -> (step: Step<E>)
        ensures
            final(self)@ == (match created {
                Ok(id) => old(self)@.insert(id, bridge::fresh::<E>(false, true)),
                Err(_) => old(self)@,
            }),
            step@ == created_step::<E>(config@, reply, created),
    {
        match created {
            Ok(id) => {
                self.put(id, SocketState::new(false, true));
            },
            Err(_) => {},
        }
        Self::socket_created(config, reply, created)
    }

    /// Goes on when a group was told to connect.
    pub fn group_connected(
        &mut self,
        id: SocketId,
        reply: E::Reply,
        result: Result<(), SrtError>,
    ) -> (step: Step<E>)
        ensures
            final(self)@ == (if result is Ok {
                bridge::with_status(old(self)@, id, SocketStatus::Connected)
            } else {
                old(self)@
            }),
            step@ == bridge::done(
                (if result is Ok {
                    seq![EffectView::AddToEpoll { id, events: CONNECTED_EVENTS }]
                        + bridge::with_status_effects(old(self)@, id, SocketStatus::Connected)
                } else {
                    Seq::empty()
                }).push(bridge::answering(reply, AnswerView::Done(result))),
            ),
    {
        let ghost m = self@;
        let mut effects: Vec<Effect<E>> = Vec::new();
        if result.is_ok() {
            add_effect(&mut effects, Effect::AddToEpoll { id, events: CONNECTED_EVENTS });
            self.set_status(id, SocketStatus::Connected, &mut effects);
            assert(bridge::effects_view(effects@) =~= seq![
                EffectView::AddToEpoll { id, events: CONNECTED_EVENTS },
            ] + bridge::with_status_effects(m, id, SocketStatus::Connected));
        } else {
            assert(bridge::effects_view(effects@) =~= Seq::empty());
        }
        add_effect(&mut effects, Effect::Answer { reply, answer: Answer::Done(result) });
        done_step(effects)
    }

    /// Goes on when the members of a group were counted.
    pub fn members_counted(id: SocketId, reply: E::Reply, count: usize) -> (step: Step<E>)
        ensures
            step@ == (if count == 0 {
                bridge::done(
                    seq![bridge::answering(reply, AnswerView::Members(Seq::empty()))],
                )
            } else {
                bridge::calling(CallView::<E>::ReadMembers { id, capacity: count, reply })
            }),
    {
        if count == 0 {
            let none: Vec<GroupMemberStats> = Vec::new();
            assert(none@ =~= Seq::empty());
            answer_step(reply, Answer::Members(none))
        } else {
            call_step(Call::ReadMembers { id, capacity: count, reply })
        }
    }

    /// Goes on when the members of a group were read: `ret` is what libsrt
    /// returned, and `count` how many of the members it filled in.
    pub fn members_read(
        id: SocketId,
        reply: E::Reply,
        ret: i32,
        count: usize,
        members: Vec<RawMember>,
    ) -> (step: Step<E>)
        ensures
            step@ == (if ret < 0 {
                bridge::done(
                    seq![bridge::answering(reply, AnswerView::Members(Seq::empty()))],
                )
            } else {
                members_step::<E>(
                    id,
                    if count < members@.len() {
                        members@.take(count as int)
                    } else {
                        members@
                    },
                    Seq::empty(),
                    reply,
                )
            }),
    {
        let none: Vec<GroupMemberStats> = Vec::new();
        assert(none@ =~= Seq::empty());
        if ret < 0 {
            answer_step(reply, Answer::Members(none))
        } else {
            let mut members = members;
            let ghost all = members@;
            members.truncate(count);
            assert(members@ =~= if count < all.len() {
                all.take(count as int)
            } else {
                all
            });
            Self::look_at_members(id, members, none, reply)
        }
    }

    /// Looks at the members that have no entry yet.
    #[verifier::loop_isolation(false)]
    fn look_at_members(
        id: SocketId,
        members: Vec<RawMember>,
        done: Vec<GroupMemberStats>,
        reply: E::Reply,
    ) -> (step: Step<E>)
        ensures
            step@ == members_step::<E>(id, members@, done@, reply),
    {
        let mut done = done;
        let ghost wanted = members_step::<E>(id, members@, done@, reply);
        while done.len() < members.len()
            invariant
                members_step::<E>(id, members@, done@, reply) == wanted,
            decreases members.len() - done.len(),
        {
            let member = members[done.len()];
            if member.memberstate != SRT_GST_BROKEN {
                return call_step(Call::ReadMemberStats { id, members, done, reply });
            }
            done.push(Self::member(&member, SrtStats::default()));
        }
        answer_step(reply, Answer::Members(done))
    }

    /// What is said of a member of a group.
    fn member(member: &RawMember, stats: SrtStats) -> (entry: GroupMemberStats)
        ensures
            entry == member_entry(*member, stats),
    {
        GroupMemberStats {
            id: member.id,
            peer_addr: sockaddr_to_socket_addr(&member.peeraddr),
            socket_status: raw_state_to_status(member.sockstate),
            member_status: map_member_status(member.memberstate),
            weight: member.weight,
            stats,
        }
    }

    /// Goes on when the statistics of a member were read: the member after those
    /// that have an entry. Where they could not be read they are zero.
    pub fn member_stats_read(
        id: SocketId,
        members: Vec<RawMember>,
        done: Vec<GroupMemberStats>,
        reply: E::Reply,
        result: Result<PerfMon, SrtError>,
    ) -> (step: Step<E>)
        requires
            done@.len() < members@.len(),
        ensures
            step@ == members_step::<E>(
                id,
                members@,
                done@.push(
                    member_entry(
                        members@[done@.len() as int],
                        match result {
                            Ok(perf) => stats::stats_of(perf),
                            Err(_) => stats::zeroed(),
                        },
                    ),
                ),
                reply,
            ),
    {
        let stats: SrtStats = match result {
            Ok(perf) => convert_perfmon_to_stats(&perf),
            Err(_) => SrtStats::default(),
        };
        let mut done = done;
        let member = members[done.len()];
        done.push(Self::member(&member, stats));
        Self::look_at_members(id, members, done, reply)
    }
}

} // verus!
