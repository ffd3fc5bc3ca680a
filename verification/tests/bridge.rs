//! The I/O thread's rules on commands, events and data.

use std::sync::atomic::{AtomicUsize, Ordering};
use std::sync::Arc;

use bytes::Bytes;

use srt_transport::access_control::{listen_callback, AccessControl, HandshakeInfo};
use srt_transport::addr::{socket_addr_to_sockaddr, RawSockAddr, SocketAddr};
use srt_transport::config::{MemberStatus, SocketStatus, SrtConfig};
use srt_transport::epoll_bridge::commands::IoCommand;
use srt_transport::epoll_bridge::{
    is_terminal_status, map_member_status, raw_state_to_status, Answer, Bridge, Call, Effect,
    Endpoints, Next, RawMember, SocketState, Step, CONNECTED_EVENTS, CONNECTING_EVENTS,
    LISTENER_EVENTS, SRT_EPOLL_CONNECT, SRT_EPOLL_ERR, SRT_EPOLL_ET, SRT_EPOLL_IN, SRT_EPOLL_OUT,
};
use srt_transport::error::{RejectReason, SrtError};
use srt_transport::options::{OptionValue, SocketOption};
use srt_transport::stats::SrtStats;

struct StreamIdGate(&'static str);

impl AccessControl for StreamIdGate {
    fn on_accept(&self, info: &HandshakeInfo) -> Result<(), RejectReason> {
        if info.stream_id == self.0 {
            Ok(())
        } else {
            Err(RejectReason::Peer)
        }
    }
}

/// Channels that are told apart by numbers.
struct Numbered;

impl Endpoints for Numbered {
    type RecvTx = u32;
    type SendRx = u32;
    type StatusTx = u32;
    type AcceptTx = u32;
    type Policy = StreamIdGate;
    type Reply = u32;
}

struct Counted {
    drops: Arc<AtomicUsize>,
}

impl AccessControl for Counted {
    fn on_accept(&self, _info: &HandshakeInfo) -> Result<(), RejectReason> {
        Ok(())
    }
}

impl Drop for Counted {
    fn drop(&mut self) {
        self.drops.fetch_add(1, Ordering::SeqCst);
    }
}

struct Counting;

impl Endpoints for Counting {
    type RecvTx = u32;
    type SendRx = u32;
    type StatusTx = u32;
    type AcceptTx = u32;
    type Policy = Counted;
    type Reply = u32;
}

fn bridge() -> Bridge<Numbered> {
    Bridge::new()
}

fn register(b: &mut Bridge<Numbered>, id: i32) {
    let step = b.process_command(IoCommand::RegisterSocket {
        id,
        recv_tx: 1,
        send_rx: 2,
        status_tx: 3,
    });
    assert!(matches!(step.next, Next::Call(Call::ReadRegisteredState { id: i }) if i == id));
}

fn state(b: &Bridge<Numbered>, id: i32) -> &SocketState<Numbered> {
    b.get(id).expect("socket is looked after")
}

fn is_answer(effect: &Effect<Numbered>, to: u32, wanted: Result<(), SrtError>) -> bool {
    matches!(effect, Effect::Answer { reply, answer: Answer::Done(r) } if *reply == to && *r == wanted)
}

fn peer() -> SocketAddr {
    SocketAddr::V4 { octets: [10, 0, 0, 9], port: 9000 }
}

fn raw_peer() -> RawSockAddr {
    socket_addr_to_sockaddr(&peer())
}

// ── Statuses ──

#[test]
fn every_non_live_state_is_terminal() {
    for status in [
        SocketStatus::Broken,
        SocketStatus::Closing,
        SocketStatus::Closed,
        SocketStatus::NonExist,
    ] {
        assert!(is_terminal_status(status), "{status:?} must be terminal");
    }
}

#[test]
fn live_and_pre_connection_states_are_not_terminal() {
    for status in [
        SocketStatus::Init,
        SocketStatus::Opened,
        SocketStatus::Listening,
        SocketStatus::Connecting,
        SocketStatus::Connected,
    ] {
        assert!(!is_terminal_status(status), "{status:?} must not be terminal");
    }
}

#[test]
fn unknown_raw_state_maps_to_a_terminal_status() {
    let unknown = raw_state_to_status(9999);
    assert_eq!(unknown, SocketStatus::NonExist);
    assert!(is_terminal_status(unknown));
}

#[test]
fn raw_states_read_back() {
    for raw in 1..10 {
        assert_eq!(raw_state_to_status(raw).value(), raw);
    }
    assert_eq!(raw_state_to_status(0), SocketStatus::NonExist);
    assert_eq!(raw_state_to_status(-1), SocketStatus::NonExist);
}

#[test]
fn member_states_are_mapped() {
    assert_eq!(map_member_status(0), MemberStatus::Pending);
    assert_eq!(map_member_status(1), MemberStatus::Idle);
    assert_eq!(map_member_status(2), MemberStatus::Running);
    assert_eq!(map_member_status(3), MemberStatus::Broken);
    assert_eq!(map_member_status(77), MemberStatus::Broken);
}

#[test]
fn watched_events_are_the_union_of_their_bits() {
    assert_eq!(LISTENER_EVENTS, SRT_EPOLL_IN | SRT_EPOLL_ERR);
    assert_eq!(CONNECTED_EVENTS, SRT_EPOLL_IN | SRT_EPOLL_ERR | SRT_EPOLL_ET);
    assert_eq!(
        CONNECTING_EVENTS,
        SRT_EPOLL_IN | SRT_EPOLL_ERR | SRT_EPOLL_CONNECT | SRT_EPOLL_ET
    );
    assert_eq!(SRT_EPOLL_CONNECT, SRT_EPOLL_OUT);
}

#[test]
fn terminal_status_takes_the_channels_of_a_live_socket() {
    let mut s: SocketState<Numbered> = SocketState::new(false, false);
    s.recv_tx = Some(1);
    s.send_rx = Some(2);
    s.status_tx = Some(3);
    s.last_status = SocketStatus::Connected;
    let mut effects = Vec::new();
    s.update_status(7, SocketStatus::NonExist, &mut effects);
    assert_eq!(s.last_status, SocketStatus::NonExist);
    assert!(s.recv_tx.is_none() && s.send_rx.is_none());
    assert_eq!(effects.len(), 3);
    assert!(matches!(
        effects[0],
        Effect::PublishStatus { id: 7, status: SocketStatus::NonExist }
    ));
    assert!(matches!(effects[1], Effect::CloseRecv { channel: 1 }));
    assert!(matches!(effects[2], Effect::CloseSend { channel: 2 }));
}

#[test]
fn a_memberless_group_keeps_its_sending_channel() {
    let mut s: SocketState<Numbered> = SocketState::new(false, true);
    s.recv_tx = Some(1);
    s.send_rx = Some(2);
    let mut effects = Vec::new();
    s.update_status(7, SocketStatus::Broken, &mut effects);
    assert!(s.recv_tx.is_none());
    assert_eq!(s.send_rx, Some(2));
    assert_eq!(effects.len(), 1);
    assert!(matches!(effects[0], Effect::CloseRecv { channel: 1 }));
}

// ── Listeners and their policies ──

#[test]
fn trampoline_reads_the_access_control_through_the_registered_opaque() {
    let gate = StreamIdGate("letmein");
    let call = |stream_id: &str| {
        listen_callback(Some(&gate), 5, Some(raw_peer()), Some(stream_id.as_bytes()))
    };
    assert_eq!(call("letmein"), 0);
    assert_eq!(call("not-it"), -1);
    assert_eq!(call(""), -1);
    assert_eq!(call("letmein"), 0);
}

#[test]
fn access_control_slot_frees_its_payload_exactly_once() {
    let drops = Arc::new(AtomicUsize::new(0));
    let mut b: Bridge<Counting> = Bridge::new();
    let registered = b.process_command(IoCommand::RegisterListener {
        id: 4,
        accept_tx: 9,
        access_control: Some(Counted { drops: drops.clone() }),
    });
    assert!(matches!(registered.next, Next::Done));
    assert_eq!(drops.load(Ordering::SeqCst), 0, "freed while registered");
    let policy = b.get(4).and_then(|s| s.access_control.as_ref());
    assert_eq!(listen_callback(policy, 5, Some(raw_peer()), Some(b"")), 0);
    assert_eq!(drops.load(Ordering::SeqCst), 0, "freed while registered");

    let mut closed = b.process_command(IoCommand::Close { id: 4 });
    assert!(b.get(4).is_none());
    assert!(matches!(closed.effects[1], Effect::CloseSocket { id: 4 }));
    assert_eq!(drops.load(Ordering::SeqCst), 0, "freed before the socket was closed");
    let last = closed.effects.pop();
    assert!(matches!(last, Some(Effect::Release { id: 4, .. })));
    drop(last);
    assert_eq!(drops.load(Ordering::SeqCst), 1, "leaked or double-freed");
    drop(closed);
    drop(b);
    assert_eq!(drops.load(Ordering::SeqCst), 1, "leaked or double-freed");
}

#[test]
fn listen_releases_the_socket_when_the_access_control_hook_cannot_be_armed() {
    let mut b = bridge();
    let id = 31;
    b.process_command(IoCommand::RegisterListener {
        id,
        accept_tx: 9,
        access_control: Some(StreamIdGate("letmein")),
    });
    let step = b.process_command(IoCommand::Listen { id, backlog: 5, reply: 8 });
    assert!(matches!(
        step.next,
        Next::Call(Call::ArmAcceptHook { id: 31, backlog: 5, reply: 8 })
    ));
    let step = b.accept_hook_armed(id, 5, 8, Err(SrtError::Other(5009)));
    assert!(matches!(step.next, Next::Done));
    assert!(matches!(step.effects[0], Effect::RemoveFromEpoll { id: 31 }));
    assert!(matches!(step.effects[1], Effect::CloseSocket { id: 31 }));
    assert!(matches!(step.effects[2], Effect::Release { id: 31, .. }));
    assert!(
        is_answer(&step.effects[3], 8, Err(SrtError::Other(5009))),
        "no reply"
    );
    assert!(b.get(id).is_none(), "the socket is still registered");
}

#[test]
fn a_listener_without_a_policy_listens_at_once() {
    let mut b = bridge();
    b.process_command(IoCommand::RegisterListener { id: 1, accept_tx: 9, access_control: None });
    let step = b.process_command(IoCommand::Listen { id: 1, backlog: 5, reply: 8 });
    assert!(matches!(step.next, Next::Call(Call::Listen { id: 1, backlog: 5, reply: 8 })));
    let step = b.listen_finished(1, 8, Ok(()));
    assert!(matches!(step.effects[0], Effect::AddToEpoll { id: 1, events: LISTENER_EVENTS }));
    assert!(is_answer(&step.effects[1], 8, Ok(())));
    assert_eq!(state(&b, 1).last_status, SocketStatus::Listening);
    assert!(state(&b, 1).is_listener);
}

#[test]
fn an_armed_policy_lets_listening_go_on() {
    let mut b = bridge();
    b.process_command(IoCommand::RegisterListener {
        id: 1,
        accept_tx: 9,
        access_control: Some(StreamIdGate("letmein")),
    });
    let step = b.accept_hook_armed(1, 5, 8, Ok(()));
    assert!(matches!(step.next, Next::Call(Call::Listen { id: 1, backlog: 5, reply: 8 })));
    assert!(b.get(1).is_some());
}

#[test]
fn a_failed_listen_closes_the_socket_before_it_answers() {
    let mut b = bridge();
    b.process_command(IoCommand::RegisterListener { id: 1, accept_tx: 9, access_control: None });
    let step = b.listen_finished(1, 8, Err(SrtError::InvalidParam));
    assert_eq!(step.effects.len(), 4);
    assert!(matches!(step.effects[1], Effect::CloseSocket { id: 1 }));
    assert!(matches!(step.effects[2], Effect::Release { id: 1, .. }));
    assert!(is_answer(&step.effects[3], 8, Err(SrtError::InvalidParam)));
    assert!(b.get(1).is_none());
}

#[test]
fn registering_channels_keeps_the_policy() {
    let mut b = bridge();
    b.process_command(IoCommand::RegisterListener {
        id: 1,
        accept_tx: 9,
        access_control: Some(StreamIdGate("letmein")),
    });
    register(&mut b, 1);
    assert!(state(&b, 1).access_control.is_some());
    assert_eq!(state(&b, 1).accept_tx, Some(9));
    assert!(state(&b, 1).is_listener);
}

#[test]
fn an_accepted_socket_is_watched_and_announced() {
    let mut b = bridge();
    b.process_command(IoCommand::RegisterListener { id: 1, accept_tx: 9, access_control: None });
    let step = b.accept_finished(1, Ok(55));
    assert_eq!(step.effects.len(), 3);
    match &step.effects[0] {
        Effect::SetOptions { id, settings } => {
            assert_eq!(*id, 55);
            assert_eq!(settings.len(), 2);
            assert_eq!(settings[0].option, SocketOption::RcvSyn);
            assert_eq!(settings[0].value, OptionValue::Int(0));
            assert_eq!(settings[1].option, SocketOption::SndSyn);
        }
        _ => panic!("options come first"),
    }
    assert!(matches!(step.effects[1], Effect::AddToEpoll { id: 55, events: CONNECTED_EVENTS }));
    assert!(matches!(step.effects[2], Effect::NotifyAccept { listener: 1, accepted: 55 }));
    assert!(b.accept_finished(1, Err(SrtError::AsyncFail)).effects.is_empty());
    assert_eq!(b.accept_finished(2, Ok(55)).effects.len(), 2);
}

// ── Creating, binding and connecting ──

#[test]
fn a_new_socket_does_not_block_and_is_configured() {
    let config = SrtConfig::default();
    let step: Step<Numbered> = Bridge::socket_created(&config, 8, Ok(12));
    match &step.effects[0] {
        Effect::SetOptions { id, settings } => {
            assert_eq!(*id, 12);
            assert_eq!(settings[0].option, SocketOption::RcvSyn);
            assert_eq!(settings[1].option, SocketOption::SndSyn);
            assert_eq!(settings[2].option, SocketOption::TransType);
        }
        _ => panic!("options come first"),
    }
    assert!(matches!(
        step.effects[1],
        Effect::Answer { reply: 8, answer: Answer::Socket(Ok(12)) }
    ));
    let step: Step<Numbered> = Bridge::socket_created(&config, 8, Err(SrtError::SocketFail));
    assert_eq!(step.effects.len(), 1);
    assert!(matches!(
        step.effects[0],
        Effect::Answer { reply: 8, answer: Answer::Socket(Err(SrtError::SocketFail)) }
    ));
}

#[test]
fn binding_is_answered_as_it_went() {
    let mut b = bridge();
    let step = b.process_command(IoCommand::Bind { id: 1, addr: peer(), reply: 8 });
    assert!(matches!(step.next, Next::Call(Call::Bind { id: 1, reply: 8, .. })));
    let step: Step<Numbered> = Bridge::bind_finished(8, Err(SrtError::InvalidParam));
    assert!(is_answer(&step.effects[0], 8, Err(SrtError::InvalidParam)));
}

#[test]
fn a_connection_is_reported_only_in_the_connected_state() {
    for raw in 0..11 {
        let mut b = bridge();
        register(&mut b, 1);
        let step = b.connect_state_read(1, 8, raw);
        let reported = step.effects.iter().any(|e| is_answer(e, 8, Ok(())));
        assert_eq!(reported, raw == 5, "raw state {raw}");
        let waits = state(&b, 1).connect_reply == Some(8);
        assert_eq!(waits, raw == 1 || raw == 2 || raw == 4, "raw state {raw}");
        let failed = matches!(step.effects.first(), Some(Effect::AnswerLastError { reply: 8 }));
        assert_eq!(failed, !reported && !waits, "raw state {raw}");
    }
}

#[test]
fn connecting_sockets_are_watched_for_the_end_of_the_handshake() {
    let mut b = bridge();
    register(&mut b, 1);
    let step = b.connect_state_read(1, 8, 4);
    assert!(matches!(step.effects[0], Effect::AddToEpoll { id: 1, events: CONNECTING_EVENTS }));
    assert_eq!(state(&b, 1).last_status, SocketStatus::Connecting);
    let step = b.connect_state_read(1, 8, 5);
    assert!(matches!(step.effects[0], Effect::AddToEpoll { id: 1, events: CONNECTED_EVENTS }));
}

#[test]
fn a_connect_under_way_is_no_error() {
    let step: Step<Numbered> = Bridge::connect_returned(1, 8, Err(SrtError::AsyncFail));
    assert!(matches!(step.next, Next::Call(Call::ReadConnectState { id: 1, reply: 8 })));
    let step: Step<Numbered> = Bridge::connect_returned(1, 8, Ok(()));
    assert!(matches!(step.next, Next::Call(Call::ReadConnectState { id: 1, reply: 8 })));
    let step: Step<Numbered> = Bridge::connect_returned(1, 8, Err(SrtError::InvalidParam));
    assert!(matches!(step.next, Next::Done));
    assert!(is_answer(&step.effects[0], 8, Err(SrtError::InvalidParam)));
}

#[test]
fn the_end_of_the_handshake_answers_who_waits() {
    let mut b = bridge();
    register(&mut b, 1);
    b.connect_state_read(1, 8, 4);
    let step = b.finish_connect(1);
    assert!(matches!(step.next, Next::Call(Call::ReadCompletedConnect { id: 1, reply: 8 })));
    assert!(state(&b, 1).connect_reply.is_none());
    let step = b.connect_completed(1, 8, 5);
    assert!(is_answer(&step.effects[0], 8, Ok(())));
    assert!(matches!(
        step.effects[1],
        Effect::PublishStatus { id: 1, status: SocketStatus::Connected }
    ));
    assert!(matches!(b.finish_connect(1).next, Next::Done));
}

#[test]
fn a_broken_handshake_reports_the_last_error() {
    let mut b = bridge();
    register(&mut b, 1);
    b.connect_state_read(1, 8, 4);
    b.finish_connect(1);
    let step = b.connect_completed(1, 8, 6);
    assert!(matches!(step.effects[0], Effect::AnswerLastError { reply: 8 }));
    assert_eq!(state(&b, 1).last_status, SocketStatus::Broken);
    assert!(state(&b, 1).recv_tx.is_none() && state(&b, 1).send_rx.is_none());
}

#[test]
fn a_registered_socket_takes_over_its_real_state() {
    let mut b = bridge();
    register(&mut b, 1);
    let step = b.registered_state_read(1, 5);
    assert_eq!(state(&b, 1).last_status, SocketStatus::Connected);
    assert_eq!(step.effects.len(), 1);
    assert!(b.registered_state_read(1, 5).effects.is_empty());
    assert!(b.registered_state_read(2, 5).effects.is_empty());
}

// ── Questions ──

#[test]
fn addresses_are_answered_where_they_are_known() {
    let step: Step<Numbered> = Bridge::name_read(8, Some(raw_peer()));
    assert!(matches!(
        &step.effects[0],
        Effect::Answer { reply: 8, answer: Answer::Addr(Some(a)) } if *a == peer()
    ));
    let step: Step<Numbered> = Bridge::name_read(8, None);
    assert!(matches!(
        step.effects[0],
        Effect::Answer { reply: 8, answer: Answer::Addr(None) }
    ));
}

fn stream_id(ret: i32, len: i32, buf: &[u8]) -> String {
    let mut step: Step<Numbered> = Bridge::stream_id_read(8, ret, len, buf);
    match step.effects.pop() {
        Some(Effect::Answer { answer: Answer::StreamId(s), .. }) => s,
        _ => panic!("no Stream ID"),
    }
}

#[test]
fn stream_ids_lose_their_padding() {
    assert_eq!(stream_id(0, 9, b"letmein\0\0"), "letmein");
    assert_eq!(stream_id(0, 3, b"letmein\0\0"), "let");
    assert_eq!(stream_id(0, 4, b"a\0b\0"), "a\0b");
    assert_eq!(stream_id(0, 2, b"\0\0"), "");
    assert_eq!(stream_id(-1, 9, b"letmein\0\0"), "");
    assert_eq!(stream_id(0, 0, b"letmein"), "");
    assert_eq!(stream_id(0, 5, b"caf\xc3\xa9"), "caf\u{e9}");
    assert_eq!(stream_id(0, 3, b"a\xffb"), "a\u{fffd}b");
}

#[test]
fn states_are_answered_by_status() {
    let step: Step<Numbered> = Bridge::state_read(8, 7);
    assert!(matches!(
        step.effects[0],
        Effect::Answer { reply: 8, answer: Answer::State(SocketStatus::Closing) }
    ));
}

#[test]
fn failed_statistics_are_an_error() {
    let step: Step<Numbered> = Bridge::stats_read(8, Err(SrtError::ConnectionLost));
    assert!(matches!(
        step.effects[0],
        Effect::Answer { reply: 8, answer: Answer::Stats(Err(SrtError::ConnectionLost)) }
    ));
}

// ── Groups ──

fn member(id: i32, memberstate: i32) -> RawMember {
    RawMember { id, peeraddr: raw_peer(), sockstate: 5, memberstate, weight: 3 }
}

#[test]
fn a_new_group_is_looked_after() {
    let mut b = bridge();
    let step = b.group_created(&SrtConfig::default(), 8, Ok(40));
    assert!(state(&b, 40).is_group);
    assert_eq!(state(&b, 40).last_status, SocketStatus::Init);
    assert_eq!(step.effects.len(), 2);
    b.group_created(&SrtConfig::default(), 8, Err(SrtError::SocketFail));
    assert_eq!(b.ids(), vec![40]);
}

#[test]
fn a_group_without_endpoints_is_refused() {
    let mut b = bridge();
    let step =
        b.process_command(IoCommand::ConnectGroup { id: 1, endpoints: Vec::new(), reply: 8 });
    assert!(is_answer(&step.effects[0], 8, Err(SrtError::InvalidParam)));
    let step =
        b.process_command(IoCommand::ConnectGroup { id: 1, endpoints: vec![peer()], reply: 8 });
    assert!(matches!(step.next, Next::Call(Call::ConnectGroup { id: 1, reply: 8, .. })));
}

#[test]
fn a_connected_group_is_watched() {
    let mut b = bridge();
    b.group_created(&SrtConfig::default(), 8, Ok(40));
    let step = b.group_connected(40, 9, Ok(()));
    assert!(matches!(step.effects[0], Effect::AddToEpoll { id: 40, events: CONNECTED_EVENTS }));
    assert!(is_answer(&step.effects[1], 9, Ok(())));
    assert_eq!(state(&b, 40).last_status, SocketStatus::Connected);
    let step = b.group_connected(40, 9, Err(SrtError::SocketFail));
    assert_eq!(step.effects.len(), 1);
    assert!(is_answer(&step.effects[0], 9, Err(SrtError::SocketFail)));
}

#[test]
fn a_group_that_is_gone_has_no_members() {
    let step: Step<Numbered> = Bridge::members_counted(1, 8, 0);
    assert!(matches!(
        &step.effects[0],
        Effect::Answer { answer: Answer::Members(v), .. } if v.is_empty()
    ));
    let step: Step<Numbered> = Bridge::members_counted(1, 8, 3);
    assert!(matches!(step.next, Next::Call(Call::ReadMembers { id: 1, capacity: 3, reply: 8 })));
    let step: Step<Numbered> = Bridge::members_read(1, 8, -1, 1, vec![member(5, 2)]);
    assert!(matches!(
        &step.effects[0],
        Effect::Answer { answer: Answer::Members(v), .. } if v.is_empty()
    ));
}

#[test]
fn broken_members_have_no_statistics() {
    let members = vec![member(5, 3), member(6, 2), member(7, 2)];
    // Only the first two were filled in.
    let step: Step<Numbered> = Bridge::members_read(1, 8, 0, 2, members);
    let (members, done) = match step.next {
        Next::Call(Call::ReadMemberStats { id: 1, members, done, reply: 8 }) => (members, done),
        _ => panic!("the second member is asked for its statistics"),
    };
    assert_eq!(members.len(), 2);
    assert_eq!(done.len(), 1);
    assert_eq!(done[0].id, 5);
    assert_eq!(done[0].member_status, MemberStatus::Broken);
    let step: Step<Numbered> =
        Bridge::member_stats_read(1, members, done, 8, Err(SrtError::ConnectionLost));
    match &step.effects[0] {
        Effect::Answer { answer: Answer::Members(v), .. } => {
            assert_eq!(v.len(), 2);
            assert_eq!(v[1].id, 6);
            assert_eq!(v[1].peer_addr, Some(peer()));
            assert_eq!(v[1].socket_status, SocketStatus::Connected);
            assert_eq!(v[1].member_status, MemberStatus::Running);
            assert_eq!(v[1].weight, 3);
            assert_eq!(v[1].stats.pkt_sent_total, SrtStats::default().pkt_sent_total);
        }
        _ => panic!("the members are answered"),
    }
}

#[test]
fn members_in_unknown_states_have_their_statistics() {
    let step: Step<Numbered> = Bridge::members_read(1, 8, 0, 1, vec![member(5, 7)]);
    let (members, done) = match step.next {
        Next::Call(Call::ReadMemberStats { id: 1, members, done, reply: 8 }) => (members, done),
        _ => panic!("the member is asked for its statistics"),
    };
    assert!(done.is_empty());
    let step: Step<Numbered> =
        Bridge::member_stats_read(1, members, done, 8, Err(SrtError::ConnectionLost));
    match &step.effects[0] {
        Effect::Answer { answer: Answer::Members(v), .. } => {
            assert_eq!(v[0].member_status, MemberStatus::Broken);
        }
        _ => panic!("the members are answered"),
    }
}

// ── Data ──

#[test]
fn received_messages_go_to_the_reader() {
    let mut b = bridge();
    register(&mut b, 1);
    assert!(matches!(
        Bridge::<Numbered>::handle_recv(1).next,
        Next::Call(Call::CountReceived { id: 1 })
    ));
    assert!(matches!(Bridge::<Numbered>::received_counted(1, 0, 0).next, Next::Done));
    assert!(matches!(Bridge::<Numbered>::received_counted(1, -1, 4).next, Next::Done));
    assert!(matches!(
        Bridge::<Numbered>::received_counted(1, 0, 4).next,
        Next::Call(Call::Receive { id: 1 })
    ));
    let step = b.message_received(1, 3, b"abcdef", 77);
    match &step.effects[0] {
        Effect::Deliver { id: 1, packet } => {
            assert_eq!(&packet.data[..], b"abc");
            assert_eq!(packet.sender_timestamp_us, Some(77));
        }
        _ => panic!("the packet is delivered"),
    }
    assert!(matches!(step.next, Next::Call(Call::CountReceived { id: 1 })));
    let step = b.message_received(1, 3, b"abcdef", 0);
    assert!(matches!(
        &step.effects[0],
        Effect::Deliver { packet, .. } if packet.sender_timestamp_us.is_none()
    ));
    assert!(matches!(b.message_received(1, 0, b"abc", 0).next, Next::Done));
    // Nobody reads, but the rest is still drained.
    let step = b.message_received(2, 3, b"abc", 0);
    assert!(step.effects.is_empty());
    assert!(matches!(step.next, Next::Call(Call::CountReceived { id: 2 })));
}

#[test]
fn a_packet_without_room_waits_at_its_place() {
    let mut b = bridge();
    register(&mut b, 1);
    // Two packets from the channel, the second finds no room.
    assert!(matches!(b.handle_send(1).next, Next::Call(Call::TakeOutgoing { id: 1 })));
    let step: Step<Numbered> = Bridge::outgoing_taken(1, Some(Bytes::from_static(b"one")));
    assert!(matches!(step.next, Next::Call(Call::Send { id: 1, backlogged: false, .. })));
    let step = b.send_finished(1, Bytes::from_static(b"one"), false, Ok(()));
    assert!(matches!(step.next, Next::Call(Call::TakeOutgoing { id: 1 })));
    let step = b.send_finished(1, Bytes::from_static(b"two"), false, Err(SrtError::AsyncSend));
    assert!(matches!(step.next, Next::Done));
    assert_eq!(state(&b, 1).send_backlog.len(), 1);
    // It is tried first, and put back in front.
    let step = b.handle_send(1);
    let data = match step.next {
        Next::Call(Call::Send { id: 1, data, backlogged: true }) => data,
        _ => panic!("the backlog comes first"),
    };
    assert_eq!(&data[..], b"two");
    assert_eq!(state(&b, 1).send_backlog.len(), 0);
    b.send_finished(1, data, true, Err(SrtError::AsyncSend));
    assert_eq!(&state(&b, 1).send_backlog[0][..], b"two");
    // Then it goes through, and the channel follows.
    let step = b.handle_send(1);
    assert!(matches!(step.next, Next::Call(Call::Send { .. })));
    let step = b.send_finished(1, Bytes::from_static(b"two"), true, Ok(()));
    assert!(matches!(step.next, Next::Call(Call::TakeOutgoing { id: 1 })));
    assert!(matches!(Bridge::<Numbered>::outgoing_taken(1, None).next, Next::Done));
}

#[test]
fn a_run_of_sending_keeps_the_order() {
    let mut b = bridge();
    register(&mut b, 1);
    let mut channel: Vec<Bytes> = (0..6u8).map(|i| Bytes::from(vec![i])).collect();
    let mut sent: Vec<u8> = Vec::new();
    // libsrt has room for the packets of these attempts only.
    let room = [true, false, true, true, false, false, true, true, true];
    let mut attempts = room.iter();
    while sent.len() < 6 {
        let mut step = b.handle_send(1);
        loop {
            step = match step.next {
                Next::Call(Call::TakeOutgoing { id }) => {
                    let data = if channel.is_empty() { None } else { Some(channel.remove(0)) };
                    Bridge::outgoing_taken(id, data)
                }
                Next::Call(Call::Send { id, data, backlogged }) => {
                    let result = if *attempts.next().expect("an attempt") {
                        sent.push(data[0]);
                        Ok(())
                    } else {
                        Err(SrtError::AsyncSend)
                    };
                    b.send_finished(id, data, backlogged, result)
                }
                _ => break,
            };
        }
    }
    assert_eq!(sent, vec![0, 1, 2, 3, 4, 5]);
}

#[test]
fn a_packet_that_cannot_be_sent_is_dropped() {
    let mut b = bridge();
    register(&mut b, 1);
    let lost = Err(SrtError::ConnectionLost);
    let step = b.send_finished(1, Bytes::from_static(b"one"), false, lost);
    assert!(matches!(step.next, Next::Done));
    assert_eq!(state(&b, 1).send_backlog.len(), 0);
    assert!(matches!(b.handle_send(2).next, Next::Done));
}

// ── Ends ──

#[test]
fn an_error_event_breaks_the_socket() {
    let mut b = bridge();
    register(&mut b, 1);
    b.registered_state_read(1, 5);
    b.handle_error(1);
    assert_eq!(state(&b, 1).last_status, SocketStatus::Broken);
    assert!(b.handle_error(2).effects.is_empty());
}

#[test]
fn polling_answers_who_waits_only_when_broken_or_closed() {
    for (raw, answered) in [(6, true), (7, false), (8, true), (9, false)] {
        let mut b = bridge();
        register(&mut b, 1);
        b.connect_state_read(1, 8, 4);
        let step = b.polled_state_read(1, raw);
        let said = step.effects.iter().any(|e| matches!(e, Effect::AnswerLastError { reply: 8 }));
        assert_eq!(said, answered, "raw state {raw}");
        assert_eq!(state(&b, 1).connect_reply.is_none(), answered, "raw state {raw}");
        assert!(state(&b, 1).recv_tx.is_none());
    }
}

#[test]
fn an_unchanged_state_is_no_news() {
    let mut b = bridge();
    register(&mut b, 1);
    b.registered_state_read(1, 5);
    assert!(b.polled_state_read(1, 5).effects.is_empty());
    assert!(b.polled_state_read(2, 5).effects.is_empty());
}

#[test]
fn closing_tells_who_waits() {
    let mut b = bridge();
    register(&mut b, 1);
    b.connect_state_read(1, 8, 4);
    let step = b.process_command(IoCommand::Close { id: 1 });
    assert_eq!(step.effects.len(), 4);
    assert!(matches!(step.effects[0], Effect::RemoveFromEpoll { id: 1 }));
    assert!(matches!(step.effects[1], Effect::CloseSocket { id: 1 }));
    assert!(is_answer(&step.effects[2], 8, Err(SrtError::SocketClosed)));
    assert!(matches!(step.effects[3], Effect::Release { id: 1, .. }));
    let step = b.process_command(IoCommand::Close { id: 1 });
    assert_eq!(step.effects.len(), 2);
}

#[test]
fn cleanup_closes_everything_and_then_the_watch_list() {
    let mut b = bridge();
    register(&mut b, 1);
    register(&mut b, 2);
    b.connect_state_read(2, 8, 4);
    let effects = b.cleanup();
    assert!(b.is_empty());
    assert_eq!(effects.len(), 8);
    assert!(effects.iter().any(|e| is_answer(e, 8, Err(SrtError::SocketClosed))));
    assert!(matches!(effects.last(), Some(Effect::ReleaseEpoll)));
    for id in [1, 2] {
        let close = effects.iter().position(|e| matches!(e, Effect::CloseSocket { id: i } if *i == id));
        let release = effects.iter().position(|e| matches!(e, Effect::Release { id: i, .. } if *i == id));
        assert!(close.is_some() && close < release);
    }
}

#[test]
fn questions_lead_to_their_calls() {
    let mut b = bridge();
    let next = |b: &mut Bridge<Numbered>, cmd: IoCommand<Numbered>| b.process_command(cmd).next;
    assert!(matches!(
        next(&mut b, IoCommand::CreateSocket { config: SrtConfig::default(), reply: 8 }),
        Next::Call(Call::CreateSocket { reply: 8, .. })
    ));
    assert!(matches!(
        next(&mut b, IoCommand::CreateGroup { mode: 1, config: SrtConfig::default(), reply: 8 }),
        Next::Call(Call::CreateGroup { group_type: 1, reply: 8, .. })
    ));
    assert!(matches!(
        next(&mut b, IoCommand::Connect { id: 1, addr: peer(), reply: 8 }),
        Next::Call(Call::Connect { id: 1, reply: 8, .. })
    ));
    assert!(matches!(
        next(&mut b, IoCommand::GetStats { id: 1, reply: 8 }),
        Next::Call(Call::ReadStats { id: 1, reply: 8 })
    ));
    assert!(matches!(
        next(&mut b, IoCommand::GetState { id: 1, reply: 8 }),
        Next::Call(Call::ReadState { id: 1, reply: 8 })
    ));
    assert!(matches!(
        next(&mut b, IoCommand::GetPeerAddr { id: 1, reply: 8 }),
        Next::Call(Call::ReadPeerName { id: 1, reply: 8 })
    ));
    assert!(matches!(
        next(&mut b, IoCommand::GetLocalAddr { id: 1, reply: 8 }),
        Next::Call(Call::ReadLocalName { id: 1, reply: 8 })
    ));
    assert!(matches!(
        next(&mut b, IoCommand::GetStreamId { id: 1, reply: 8 }),
        Next::Call(Call::ReadStreamId { id: 1, reply: 8 })
    ));
    assert!(matches!(
        next(&mut b, IoCommand::GetGroupMemberStats { id: 1, reply: 8 }),
        Next::Call(Call::CountMembers { id: 1, reply: 8 })
    ));
    assert!(matches!(next(&mut b, IoCommand::Shutdown), Next::Shutdown));
    assert!(b.is_empty());
}
