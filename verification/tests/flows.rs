//! Setting sockets, listeners and groups up.

use bytes::Bytes;

use srt_transport::access_control::HandshakeInfo;
use srt_transport::addr::{unspecified, SocketAddr};
use srt_transport::config::{
    CryptoModeConfig, KeySize, RetransmitAlgo, SocketStatus, SrtConfig, TransType,
};
use srt_transport::duration::Duration;
use srt_transport::error::{RejectReason, SrtError};
use srt_transport::flow::{Awaited, FlowStep, Order, Wait};
use srt_transport::group::{GroupMode, SrtGroup};
use srt_transport::listener::SrtListener;
use srt_transport::received_packet::ReceivedPacket;
use srt_transport::socket::{payload, SendOutcome, SrtSocket, SrtSocketBuilder};
use srt_transport::stats::SrtStats;
use srt_transport::BACKEND_NAME;

fn remote() -> SocketAddr {
    SocketAddr::V4 { octets: [127, 0, 0, 1], port: 4200 }
}

fn local() -> SocketAddr {
    SocketAddr::V4 { octets: [127, 0, 0, 1], port: 4300 }
}

fn failed_with<T>(step: &FlowStep<T>, error: SrtError) -> bool {
    matches!(&step.wait, Wait::Finished(Err(e)) if *e == error)
}

#[test]
fn the_backend_has_a_name() {
    assert_eq!(BACKEND_NAME, "libsrt");
}

#[test]
fn a_connection_is_set_up_step_by_step() {
    let (flow, step) = SrtSocket::builder()
        .latency(Duration::from_millis(120))
        .live_mode()
        .stream_id("letmein".to_string())
        .connect(remote());
    match &step.orders[0] {
        Order::CreateSocket { config } => {
            assert_eq!(config.recv_latency, 120);
            assert_eq!(config.peer_latency, 120);
            assert_eq!(config.stream_id, "letmein");
        }
        _ => panic!("the socket is created first"),
    }
    assert!(matches!(step.wait, Wait::Created));
    let step = flow.created(Some(Ok(7)));
    assert_eq!(step.orders.len(), 2);
    assert!(matches!(
        step.orders[0],
        Order::Register { id: 7, status: SocketStatus::Init, capacity: 256 }
    ));
    assert!(matches!(&step.orders[1], Order::Connect { id: 7, addr } if *addr == remote()));
    assert!(matches!(step.wait, Wait::ConnectedWithin(d) if d == Duration { secs: 5, nanos: 0 }));
    let step = flow.connected(7, Awaited::Answered(Some(Ok(()))));
    assert!(matches!(step.orders[0], Order::GetLocalAddr { id: 7 }));
    assert!(matches!(step.orders[1], Order::GetPeerAddr { id: 7 }));
    assert!(matches!(step.wait, Wait::Answers));
    let socket = flow.named(7, Some(local()), Some(remote()));
    assert_eq!(socket.local_addr(), local());
    assert_eq!(socket.peer_addr(), Some(remote()));
    assert_eq!(socket.stream_id(), "letmein");
    assert!(matches!(socket.close(), Order::Close { id: 7 }));
}

#[test]
fn a_connection_that_fails_closes_its_socket() {
    let (flow, _) = SrtSocketBuilder::new().bind(local()).connect(remote());
    let step = flow.created(None);
    assert!(step.orders.is_empty() && failed_with(&step, SrtError::SocketFail));
    let step = flow.created(Some(Err(SrtError::InvalidParam)));
    assert!(step.orders.is_empty() && failed_with(&step, SrtError::InvalidParam));
    let step = flow.created(Some(Ok(7)));
    assert!(matches!(&step.orders[1], Order::Bind { id: 7, addr } if *addr == local()));
    for (answer, error) in [
        (None, SrtError::SocketFail),
        (Some(Err(SrtError::InvalidParam)), SrtError::InvalidParam),
    ] {
        let step = flow.bound(7, answer);
        assert!(matches!(step.orders[0], Order::Close { id: 7 }));
        assert!(failed_with(&step, error));
        let step = flow.connected(7, Awaited::Answered(answer));
        assert!(matches!(step.orders[0], Order::Close { id: 7 }));
        assert!(failed_with(&step, error));
    }
    let step = flow.bound(7, Some(Ok(())));
    assert!(matches!(&step.orders[0], Order::Connect { id: 7, addr } if *addr == remote()));
    let step = flow.connected(7, Awaited::TimedOut);
    assert!(matches!(step.orders[0], Order::Close { id: 7 }));
    assert!(failed_with(&step, SrtError::Timeout));
}

#[test]
fn the_budget_outlasts_the_connect_timeout() {
    let (flow, _) = SrtSocketBuilder::new()
        .connect_timeout(Duration::from_millis(8250))
        .connect(remote());
    assert_eq!(flow.budget, Duration { secs: 10, nanos: 250_000_000 });
}

#[test]
fn a_rendezvous_is_bound_and_says_so() {
    let (flow, step) = SrtSocketBuilder::new().connect_rendezvous(local(), remote());
    assert!(matches!(&step.orders[0], Order::CreateSocket { config } if config.rendezvous));
    assert_eq!(flow.bind_addr, Some(local()));
    assert_eq!(flow.remote, remote());
}

#[test]
fn an_accepted_socket_learns_who_it_is() {
    let step = SrtSocket::from_accepted(9);
    assert_eq!(step.orders.len(), 4);
    assert!(matches!(
        step.orders[0],
        Order::Register { id: 9, status: SocketStatus::Connected, capacity: 256 }
    ));
    assert!(matches!(step.orders[3], Order::GetStreamId { id: 9 }));
    let socket = SrtSocket::accepted(9, None, None, None);
    assert_eq!(socket.local_addr(), unspecified());
    assert_eq!(socket.peer_addr(), None);
    assert_eq!(socket.stream_id(), "");
    let socket = SrtSocket::accepted(9, Some(local()), Some(remote()), Some("x".to_string()));
    assert_eq!(socket.local_addr(), local());
    assert_eq!(socket.peer_addr(), Some(remote()));
    assert_eq!(socket.stream_id(), "x");
}

#[test]
fn sending_counts_bytes_even_where_they_are_dropped() {
    let socket = SrtSocket::accepted(9, None, None, None);
    assert_eq!(socket.send(b"Hello SRT!", SendOutcome::Taken), Ok(10));
    assert_eq!(socket.send(b"Hello SRT!", SendOutcome::Full), Ok(10));
    assert_eq!(socket.send(b"Hello SRT!", SendOutcome::Closed), Err(SrtError::AsyncSend));
}

#[test]
fn a_payload_is_a_copy_of_the_data() {
    assert_eq!(payload(b"Hello SRT!"), Bytes::from_static(b"Hello SRT!"));
    assert!(payload(b"").is_empty());
}

#[test]
fn receiving_ends_with_the_loss_of_the_connection() {
    let socket = SrtSocket::accepted(9, None, None, None);
    let packet = ReceivedPacket::with_srctime(Bytes::from_static(b"abc"), 5);
    let got = socket.recv(Some(packet)).expect("a packet");
    assert_eq!(&got.data[..], b"abc");
    assert_eq!(got.sender_timestamp_us, Some(5));
    assert_eq!(socket.recv_bytes(Some(got)), Ok(Bytes::from_static(b"abc")));
    assert!(matches!(socket.recv(None), Err(SrtError::ConnectionLost)));
    assert_eq!(socket.recv_bytes(None), Err(SrtError::ConnectionLost));
}

#[test]
fn statistics_are_zero_where_there_is_no_answer() {
    let socket = SrtSocket::accepted(9, None, None, None);
    let mut stats = SrtStats::default();
    stats.pkt_sent_total = 42;
    assert_eq!(socket.stats(Some(Ok(stats))).pkt_sent_total, 42);
    assert_eq!(socket.stats(Some(Err(SrtError::SocketClosed))).pkt_sent_total, 0);
    assert_eq!(socket.stats(None).pkt_sent_total, 0);
}

#[test]
fn waiting_ends_at_the_target_or_at_the_end() {
    let socket = SrtSocket::accepted(9, None, None, None);
    let target = SocketStatus::Connected;
    assert_eq!(socket.wait_for_state(target, SocketStatus::Connecting, true), None);
    for end in [SocketStatus::Connected, SocketStatus::Broken, SocketStatus::Closed] {
        assert_eq!(socket.wait_for_state(target, end, true), Some(end));
    }
    let last = SocketStatus::Connecting;
    assert_eq!(socket.wait_for_state(target, last, false), Some(last));
}

#[test]
fn every_socket_option_reaches_the_configuration() {
    let b = SrtSocketBuilder::default()
        .latency(Duration::from_millis(1))
        .sender_latency(Duration::from_millis(200))
        .receiver_latency(Duration::from_millis(300))
        .encryption("a-shared-passphrase", KeySize::AES256)
        .crypto_mode(CryptoModeConfig::AesGcm)
        .mss(1400)
        .flight_flag_size(1000)
        .send_buffer_size(1001)
        .recv_buffer_size(1002)
        .peer_idle_timeout(Duration::from_secs(9))
        .connect_timeout(Duration::from_secs(8))
        .stream_id("sid".to_string())
        .packet_filter("fec".to_string())
        .max_bw(1)
        .input_bw(2)
        .overhead_bw(3)
        .max_rexmit_bw(4)
        .enforced_encryption(false)
        .ip_tos(5)
        .ip_ttl(6)
        .retransmit_algo(RetransmitAlgo::Reduced)
        .send_drop_delay(7)
        .loss_max_ttl(8)
        .km_refresh_rate(9)
        .km_pre_announce(10)
        .rendezvous(true)
        .file_mode()
        .tlpkt_drop(true)
        .payload_size(1200)
        .bind(local());
    let c: &SrtConfig = &b.config;
    assert_eq!((c.peer_latency, c.recv_latency), (200, 300));
    assert_eq!(c.passphrase, "a-shared-passphrase");
    assert_eq!(c.key_size, KeySize::AES256);
    assert_eq!(c.crypto_mode, CryptoModeConfig::AesGcm);
    assert_eq!((c.mss, c.flight_flag_size), (1400, 1000));
    assert_eq!((c.send_buffer_size, c.recv_buffer_size), (1001, 1002));
    assert_eq!(c.peer_idle_timeout, Duration::from_secs(9));
    assert_eq!(c.connect_timeout, Duration::from_secs(8));
    assert_eq!((c.stream_id.as_str(), c.packet_filter.as_str()), ("sid", "fec"));
    assert_eq!((c.max_bw, c.input_bw, c.overhead_bw, c.max_rexmit_bw), (1, 2, 3, 4));
    assert!(!c.enforced_encryption);
    assert_eq!((c.ip_tos, c.ip_ttl), (5, 6));
    assert_eq!(c.retransmit_algo, RetransmitAlgo::Reduced);
    assert_eq!((c.send_drop_delay, c.loss_max_ttl), (7, 8));
    assert_eq!((c.km_refresh_rate, c.km_pre_announce), (9, 10));
    assert!(c.rendezvous && c.tlpkt_drop);
    assert_eq!(c.trans_type, TransType::File);
    assert_eq!(c.payload_size, 1200);
    assert_eq!(b.bind_addr, Some(local()));
}

#[test]
fn a_latency_too_long_for_its_option_wraps() {
    let b = SrtSocketBuilder::new().latency(Duration::from_millis((1 << 32) + 5));
    assert_eq!(b.config.recv_latency, 5);
}

#[test]
fn a_listener_is_set_up_step_by_step() {
    let (flow, policy, step) = SrtListener::builder().backlog(3).bind(local());
    assert!(policy.is_none());
    assert!(matches!(step.orders[0], Order::CreateSocket { .. }));
    let step = flow.created(Some(Ok(7)));
    assert!(matches!(step.orders[0], Order::RegisterListener { id: 7, capacity: 16 }));
    assert!(matches!(
        step.orders[1],
        Order::Register { id: 7, status: SocketStatus::Init, capacity: 1 }
    ));
    assert!(matches!(step.wait, Wait::Bound));
    assert!(matches!(&step.orders[2], Order::Bind { id: 7, addr } if *addr == local()));
    let step = flow.bound(7, Some(Ok(())));
    assert!(matches!(step.orders[0], Order::Listen { id: 7, backlog: 3 }));
    assert!(matches!(step.wait, Wait::Listening));
    let step = flow.listening(7, Some(Ok(())));
    assert!(matches!(step.orders[0], Order::GetLocalAddr { id: 7 }));
    assert_eq!(flow.named(7, None).local_addr(), local());
    let listener = flow.named(7, Some(remote()));
    assert_eq!(listener.local_addr(), remote());
    assert_eq!(listener.accept(Some(8)), Ok(8));
    assert_eq!(listener.accept(None), Err(SrtError::SocketClosed));
    assert!(matches!(listener.close(), Order::Close { id: 7 }));
}

#[test]
fn a_listener_that_fails_reports_the_error() {
    let (flow, _, _) = SrtListener::builder().bind(local());
    assert_eq!(flow.backlog, 5);
    assert!(failed_with(&flow.created(None), SrtError::SocketFail));
    assert!(failed_with(&flow.bound(7, None), SrtError::SocketFail));
    assert!(failed_with(&flow.bound(7, Some(Err(SrtError::Timeout))), SrtError::Timeout));
    assert!(failed_with(&flow.listening(7, None), SrtError::SocketFail));
    assert!(flow.listening(7, Some(Err(SrtError::Timeout))).orders.is_empty());
}

#[test]
fn a_listener_hands_its_policy_on() {
    let (_, policy, _) = SrtListener::builder()
        .live_mode()
        .group_connect(true)
        .access_control_fn(|info: &HandshakeInfo| {
            if info.stream_id == "letmein" {
                Ok(())
            } else {
                Err(RejectReason::Peer)
            }
        })
        .bind(local());
    assert!(policy.is_some());
}

#[test]
fn a_group_is_set_up_step_by_step() {
    let (flow, step) = SrtGroup::builder(GroupMode::Backup)
        .add_endpoint(local())
        .add_endpoint(remote())
        .connect();
    assert!(matches!(step.orders[0], Order::CreateGroup { mode: 2, .. }));
    let step = flow.created(Some(Ok(7)));
    assert!(matches!(
        step.orders[0],
        Order::Register { id: 7, status: SocketStatus::Init, capacity: 8192 }
    ));
    assert!(matches!(step.wait, Wait::Connected));
    assert!(matches!(
        &step.orders[1],
        Order::ConnectGroup { id: 7, endpoints } if *endpoints == vec![local(), remote()]
    ));
    let step = flow.connected(7, Some(Ok(())));
    match step.wait {
        Wait::Finished(Ok(group)) => {
            assert_eq!(group.mode(), GroupMode::Backup);
            assert_eq!(group.endpoints(), &[local(), remote()]);
            assert_eq!(group.send(b"abc", true), Ok(3));
            assert_eq!(group.send(b"abc", false), Err(SrtError::ConnectionLost));
            assert_eq!(group.stats(None).pkt_sent_total, 0);
            assert!(group.member_stats(None).is_empty());
            assert!(matches!(group.recv(None), Err(SrtError::ConnectionLost)));
            assert!(matches!(group.close(), Order::Close { id: 7 }));
        }
        _ => panic!("the group is connected"),
    }
}

#[test]
fn a_group_needs_endpoints() {
    let (_, step) = SrtGroup::builder(GroupMode::Broadcast).connect();
    assert!(step.orders.is_empty());
    assert!(failed_with(&step, SrtError::InvalidParam));
    let (flow, _) = SrtGroup::builder(GroupMode::Broadcast).add_endpoint(local()).connect();
    assert!(failed_with(&flow.created(None), SrtError::SocketFail));
    assert!(failed_with(&flow.connected(7, Some(Err(SrtError::Timeout))), SrtError::Timeout));
}

#[test]
fn group_modes_have_their_numbers() {
    assert_eq!(GroupMode::Broadcast.to_srt_type(), 1);
    assert_eq!(GroupMode::Backup.to_srt_type(), 2);
}
