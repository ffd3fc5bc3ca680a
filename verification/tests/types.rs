//! The data types: configuration, addresses, filters, Stream IDs, packets.

use bytes::Bytes;

use srt_transport::access_control::{
    handshake_info, hook_result, listen_callback, stream_mode, stream_type, AcceptAll,
    AccessControl, AccessControlFn, HandshakeInfo, HookOutcome, StreamIdInfo, SRT_MAX_STREAM_ID_LEN,
};
use srt_transport::addr::{
    sockaddr_to_socket_addr, socket_addr_to_sockaddr, unspecified, AddressFamily, SocketAddr,
};
use srt_transport::config::{
    CryptoModeConfig, KeySize, KmState, RetransmitAlgo, SocketStatus, SrtConfig, TransType,
};
use srt_transport::duration::Duration;
use srt_transport::error::{RejectReason, SrtError};
use srt_transport::fec::{ArqMode, FecConfig, FecLayout};
use srt_transport::options::{apply_config, OptionSetting, OptionValue, SocketOption};
use srt_transport::received_packet::ReceivedPacket;

// ── Access control ──

fn peer() -> SocketAddr {
    SocketAddr::V4 { octets: [10, 0, 0, 9], port: 9000 }
}

#[test]
fn trampoline_accepts_when_no_access_control_is_registered() {
    let raw = socket_addr_to_sockaddr(&peer());
    let ret = listen_callback::<AcceptAll>(None, 5, Some(raw), None);
    assert_eq!(ret, 0);
}

#[test]
fn trampoline_rejects_instead_of_aborting_when_the_policy_panics() {
    // What the hook answers for a policy that panics on the handshake of
    // "10.0.0.9:9000" with Stream ID "anything".
    let raw = socket_addr_to_sockaddr(&peer());
    let info = handshake_info(5, Some(raw), Some(b"anything"));
    assert_eq!(info.peer_addr, peer());
    assert_eq!(info.stream_id, "anything");
    assert_eq!(hook_result(HookOutcome::Panicked), -1);
}

#[test]
fn only_an_accepting_verdict_lets_a_caller_in() {
    assert_eq!(hook_result(HookOutcome::Ruled(Ok(()))), 0);
    assert_eq!(hook_result(HookOutcome::Ruled(Err(RejectReason::Peer))), -1);
    assert_eq!(hook_result(HookOutcome::Ruled(Err(RejectReason::Code(0)))), -1);
}

#[test]
fn a_handshake_is_described_from_what_is_known() {
    let info = handshake_info(0x010506, None, None);
    assert_eq!(info.peer_addr, unspecified());
    assert_eq!(info.stream_id, "");
    assert!(!info.is_encrypted);
    assert_eq!(info.peer_socket_id, 0);
    assert_eq!(info.peer_version, 0x010506);
    let info = handshake_info(5, None, Some(b"a\xff"));
    assert_eq!(info.stream_id, "a\u{fffd}");
}

#[test]
fn policies_rule_on_the_handshake() {
    let info = handshake_info(5, None, Some(b"letmein"));
    assert_eq!(AcceptAll.on_accept(&info), Ok(()));
    let gate = AccessControlFn(|info: &HandshakeInfo| {
        if info.stream_id == "letmein" {
            Ok(())
        } else {
            Err(RejectReason::Peer)
        }
    });
    assert_eq!(gate.on_accept(&info), Ok(()));
    assert_eq!(listen_callback(Some(&gate), 5, None, Some(b"wrong-id")), -1);
    assert_eq!(listen_callback(Some(&gate), 5, None, Some(b"letmein")), 0);
}

#[test]
fn structured_stream_ids_are_taken_apart() {
    let info = StreamIdInfo::parse("#!::u=admin,r=live/feed, m=publish,t=stream,s=7,h=host,x=1,y,z=a=b,");
    assert_eq!(info.user_name.as_deref(), Some("admin"));
    assert_eq!(info.resource.as_deref(), Some("live/feed"));
    assert_eq!(info.mode.as_deref(), Some(stream_mode::PUBLISH));
    assert_eq!(info.content_type.as_deref(), Some(stream_type::STREAM));
    assert_eq!(info.session_id.as_deref(), Some("7"));
    assert_eq!(info.host_name.as_deref(), Some("host"));
    assert_eq!(
        info.extra,
        vec![("x".to_string(), "1".to_string()), ("z".to_string(), "a=b".to_string())]
    );
    assert_eq!(
        info.to_stream_id(),
        "#!::r=live/feed,m=publish,s=7,t=stream,u=admin,h=host,x=1,z=a=b"
    );
    assert_eq!(StreamIdInfo::parse(&info.to_stream_id()).to_stream_id(), info.to_stream_id());
}

#[test]
fn plain_stream_ids_are_resources() {
    let info = StreamIdInfo::parse("camera one");
    assert_eq!(info.resource.as_deref(), Some("camera one"));
    assert_eq!(info.raw, "camera one");
    assert_eq!(info.to_stream_id(), "#!::r=camera one");
    let info = StreamIdInfo::parse("");
    assert_eq!(info, StreamIdInfo::default());
    assert_eq!(info.to_stream_id(), "");
    assert_eq!(SRT_MAX_STREAM_ID_LEN, 512);
}

#[test]
fn the_last_of_equal_keys_counts() {
    let info = StreamIdInfo::parse("#!::r=a,r=b");
    assert_eq!(info.resource.as_deref(), Some("b"));
}

// ── Addresses ──

#[test]
fn ipv4_addresses_read_back() {
    let raw = socket_addr_to_sockaddr(&peer());
    assert_eq!(raw.family, AddressFamily::Inet);
    assert_eq!(raw.port, [0x23, 0x28]);
    assert_eq!(raw.addr4, [10, 0, 0, 9]);
    assert_eq!(sockaddr_to_socket_addr(&raw), Some(peer()));
}

#[test]
fn ipv6_addresses_lose_flow_and_scope() {
    let mut octets = [0; 16];
    octets[0] = 0xfe;
    octets[1] = 0x80;
    octets[15] = 1;
    let addr = SocketAddr::V6 { octets, port: 4200, flowinfo: 7, scope_id: 3 };
    let raw = socket_addr_to_sockaddr(&addr);
    assert_eq!(raw.family, AddressFamily::Inet6);
    assert_eq!((raw.flowinfo, raw.scope_id), (7, 3));
    assert_eq!(
        sockaddr_to_socket_addr(&raw),
        Some(SocketAddr::V6 { octets, port: 4200, flowinfo: 0, scope_id: 0 })
    );
}

#[test]
fn other_families_have_no_address() {
    let mut raw = socket_addr_to_sockaddr(&peer());
    raw.family = AddressFamily::Other;
    assert_eq!(sockaddr_to_socket_addr(&raw), None);
    assert_eq!(unspecified(), SocketAddr::V4 { octets: [0; 4], port: 0 });
}

// ── Errors ──

#[test]
fn error_codes_are_mapped() {
    for (code, error) in [
        (1003, SrtError::SocketFail),
        (1005, SrtError::SocketClosed),
        (2001, SrtError::ConnectionLost),
        (5003, SrtError::InvalidParam),
        (6000, SrtError::AsyncFail),
        (6001, SrtError::AsyncSend),
        (6003, SrtError::Timeout),
        (5009, SrtError::Other(5009)),
    ] {
        assert_eq!(SrtError::from_code(code), error);
    }
}

// ── Configuration ──

#[test]
fn key_sizes_read_back() {
    for (key, bytes, field) in
        [(KeySize::AES128, 16, 4), (KeySize::AES192, 24, 6), (KeySize::AES256, 32, 8)]
    {
        assert_eq!(key.to_bytes(), bytes);
        assert_eq!(key.to_km_field(), field);
        assert_eq!(KeySize::from_bytes(bytes as usize), Some(key));
        assert_eq!(KeySize::from_km_field(field), Some(key));
    }
    assert_eq!(KeySize::from_bytes(20), None);
    assert_eq!(KeySize::from_km_field(5), None);
    // Four times the field is no key length, though its low half is one.
    assert_eq!(KeySize::from_km_field(0x4000_0004), None);
    assert_eq!(KeySize::from_km_field(u32::MAX), None);
}

#[test]
fn key_material_states_are_numbered() {
    for v in 0..6 {
        assert_eq!(KmState::from_value(v).value(), v);
    }
    assert_eq!(KmState::from_value(6), KmState::Unsecured);
    assert_eq!(KmState::from_value(-1), KmState::Unsecured);
}

#[test]
fn the_default_is_live() {
    let c = SrtConfig::default();
    assert_eq!(c.trans_type, TransType::Live);
    assert_eq!(c.payload_size, 1316);
    assert_eq!(c.mss, 1500);
    assert_eq!(c.connect_timeout, Duration::from_secs(3));
    assert!(!c.encryption_enabled());
    assert_eq!(TransType::default(), TransType::Live);
    assert_eq!(CryptoModeConfig::default(), CryptoModeConfig::AesCtr);
}

#[test]
fn the_last_mode_wins() {
    let mut c = SrtConfig::default();
    c.passphrase = "a-shared-passphrase".to_string();
    c.file_defaults();
    assert_eq!((c.trans_type, c.payload_size), (TransType::File, 0));
    assert_eq!(c.congestion, "file");
    assert!(!c.tsbpd_mode && !c.tlpkt_drop && !c.nak_report);
    c.live_defaults();
    assert_eq!((c.trans_type, c.payload_size), (TransType::Live, 1316));
    assert_eq!(c.congestion, "live");
    assert!(c.encryption_enabled());
}

#[test]
fn statuses_are_numbered() {
    assert_eq!(SocketStatus::Init.value(), 1);
    assert_eq!(SocketStatus::Connected.value(), 5);
    assert_eq!(SocketStatus::NonExist.value(), 9);
}

#[test]
fn spans_are_rounded_down_to_milliseconds() {
    assert_eq!(Duration { secs: 1, nanos: 999_999 }.as_millis(), 1000);
    assert_eq!(Duration::from_millis(1234).as_millis(), 1234);
    assert_eq!(Duration::from_secs(2).as_millis(), 2000);
    assert_eq!(Duration::from_secs(1).checked_add_secs(2), Some(Duration::from_secs(3)));
    assert_eq!(Duration::from_secs(u64::MAX).checked_add_secs(1), None);
}

// ── Options ──

fn find(list: &[OptionSetting], option: SocketOption) -> Option<OptionValue> {
    let found: Vec<&OptionSetting> = list.iter().filter(|s| s.option == option).collect();
    assert!(found.len() <= 1, "{option:?} is set twice");
    found.first().map(|s| s.value.clone())
}

#[test]
fn a_default_configuration_sets_few_options() {
    let list = apply_config(&SrtConfig::default());
    assert_eq!(find(&list, SocketOption::TransType), Some(OptionValue::Int(0)));
    assert_eq!(find(&list, SocketOption::ConnTimeo), Some(OptionValue::Int(3000)));
    assert_eq!(find(&list, SocketOption::PayloadSize), Some(OptionValue::Int(1316)));
    assert_eq!(find(&list, SocketOption::TlPktDrop), Some(OptionValue::Int(1)));
    assert!(find(&list, SocketOption::EnforcedEncryption).is_some());
    for unset in [
        SocketOption::Mss,
        SocketOption::FlightFlagSize,
        SocketOption::SndBuf,
        SocketOption::RcvBuf,
        SocketOption::Passphrase,
        SocketOption::PbKeyLen,
        SocketOption::CryptoMode,
        SocketOption::StreamId,
        SocketOption::PacketFilter,
        SocketOption::Rendezvous,
        SocketOption::GroupConnect,
        SocketOption::RcvSyn,
    ] {
        assert_eq!(find(&list, unset), None, "{unset:?}");
    }
}

#[test]
fn a_changed_configuration_sets_its_options() {
    let mut c = SrtConfig::default();
    c.file_defaults();
    c.passphrase = "a-shared-passphrase".to_string();
    c.key_size = KeySize::AES256;
    c.crypto_mode = CryptoModeConfig::AesGcm;
    c.stream_id = "letmein".to_string();
    c.packet_filter = "fec,cols:10".to_string();
    c.mss = 1400;
    c.max_bw = 125_000;
    c.input_bw = 5;
    c.overhead_bw = 30;
    c.max_rexmit_bw = 0;
    c.ip_tos = 0xb8;
    c.ip_ttl = 1;
    c.retransmit_algo = RetransmitAlgo::Reduced;
    c.send_drop_delay = 100;
    c.loss_max_ttl = 4;
    c.km_refresh_rate = 1000;
    c.km_pre_announce = 100;
    c.rendezvous = true;
    c.group_connect = true;
    c.peer_idle_timeout = Duration { secs: 0, nanos: 1 };
    let list = apply_config(&c);
    let int = |v: i32| Some(OptionValue::Int(v));
    let long = |v: i64| Some(OptionValue::Long(v));
    let text = |v: &str| Some(OptionValue::Text(v.to_string()));
    assert_eq!(find(&list, SocketOption::TransType), int(1));
    assert_eq!(find(&list, SocketOption::PayloadSize), None);
    assert_eq!(find(&list, SocketOption::Passphrase), text("a-shared-passphrase"));
    assert_eq!(find(&list, SocketOption::PbKeyLen), int(32));
    assert_eq!(find(&list, SocketOption::CryptoMode), int(2));
    assert_eq!(find(&list, SocketOption::StreamId), text("letmein"));
    assert_eq!(find(&list, SocketOption::PacketFilter), text("fec,cols:10"));
    assert_eq!(find(&list, SocketOption::Mss), int(1400));
    assert_eq!(find(&list, SocketOption::MaxBw), long(125_000));
    assert_eq!(find(&list, SocketOption::InputBw), long(5));
    assert_eq!(find(&list, SocketOption::OheadBw), int(30));
    assert_eq!(find(&list, SocketOption::MaxRexmitBw), long(0));
    assert_eq!(find(&list, SocketOption::IpTos), int(0xb8));
    assert_eq!(find(&list, SocketOption::IpTtl), int(1));
    assert_eq!(find(&list, SocketOption::RetransmitAlgo), int(1));
    assert_eq!(find(&list, SocketOption::SndDropDelay), int(100));
    assert_eq!(find(&list, SocketOption::LossMaxTtl), int(4));
    assert_eq!(find(&list, SocketOption::KmRefreshRate), int(1000));
    assert_eq!(find(&list, SocketOption::KmPreAnnounce), int(100));
    assert_eq!(find(&list, SocketOption::TlPktDrop), int(0));
    assert_eq!(find(&list, SocketOption::Rendezvous), int(1));
    assert_eq!(find(&list, SocketOption::GroupConnect), int(1));
    assert_eq!(find(&list, SocketOption::PeerIdleTimeo), None);
}

#[test]
fn texts_with_a_nul_cannot_be_set() {
    let mut c = SrtConfig::default();
    c.stream_id = "a\0b".to_string();
    c.passphrase = "a\0b".to_string();
    let list = apply_config(&c);
    assert_eq!(find(&list, SocketOption::StreamId), None);
    assert_eq!(find(&list, SocketOption::Passphrase), None);
    assert!(find(&list, SocketOption::PbKeyLen).is_some());
}

// ── FEC ──

#[test]
fn filter_strings_are_read() {
    let c = FecConfig::parse("fec,cols:10,rows:5,layout:staircase,arq:onreq").expect("a filter");
    assert_eq!(
        c,
        FecConfig { cols: 10, rows: 5, layout: FecLayout::Staircase, arq: ArqMode::OnReq }
    );
    assert_eq!(c.to_string(), "fec,cols:10,rows:5,layout:staircase,arq:onreq");
    assert_eq!(FecConfig::parse(" fec "), Ok(FecConfig::default()));
    assert_eq!(FecConfig::parse("fec,,unknown:1, ,"), Ok(FecConfig::default()));
    assert_eq!(FecConfig::parse("fec, cols : +7 ,rows:-3").map(|c| (c.cols, c.rows)), Ok((7, 3)));
}

#[test]
fn unknown_keys_are_ignored_behind_any_filter() {
    for filter in [" fec ", "fec,cols:7", "fec, rows:3 , ", "\tfec,layout:even,arq:never  "] {
        let alone = FecConfig::parse(filter);
        assert!(alone.is_ok());
        for entry in ["x:1", " depth : 2 ", ":", "colS:0", "x:a:b "] {
            assert_eq!(FecConfig::parse(&format!("{filter},{entry}")), alone, "{filter},{entry}");
        }
    }
}

#[test]
fn filter_strings_read_back() {
    for layout in [FecLayout::Even, FecLayout::Staircase] {
        for arq in [ArqMode::Always, ArqMode::OnReq, ArqMode::Never] {
            let c = FecConfig { cols: 120, rows: 1, layout, arq };
            assert_eq!(FecConfig::parse(&c.to_string()), Ok(c));
        }
    }
}

#[test]
fn bad_filter_strings_are_complained_about() {
    for (filter, complaint) in [
        ("", "empty config string"),
        ("  ", "empty config string"),
        ("xor,cols:1", "config must start with 'fec', got 'xor'"),
        ("fec,cols", "invalid parameter 'cols', expected key:value"),
        ("fec,cols:x", "invalid cols value: 'x'"),
        ("fec,cols:-1", "invalid cols value: '-1'"),
        ("fec,cols:0", "cols must be >= 1"),
        ("fec,rows:1.5", "invalid rows value: '1.5'"),
        ("fec,rows:0", "rows must be >= 1"),
        ("fec,layout:odd", "invalid layout: 'odd', expected 'even' or 'staircase'"),
        ("fec,arq:maybe", "invalid arq: 'maybe', expected 'always', 'onreq', or 'never'"),
    ] {
        assert_eq!(FecConfig::parse(filter), Err(complaint.to_string()), "{filter}");
    }
}

// ── Packets ──

#[test]
fn packets_carry_their_timestamp() {
    let data = Bytes::from_static(b"payload");
    let p = ReceivedPacket::with_srctime(data.clone(), 1_700_000_000_000_000);
    assert_eq!(p.sender_timestamp_us, Some(1_700_000_000_000_000));
    assert_eq!(p.as_ref(), b"payload");
    let copy = p.clone();
    assert_eq!(copy.sender_timestamp_us, p.sender_timestamp_us);
    assert_eq!(copy.into_bytes(), data);
    assert_eq!(ReceivedPacket::with_srctime(data.clone(), -5).sender_timestamp_us, Some(-5));
    assert_eq!(ReceivedPacket::with_srctime(data.clone(), 0).sender_timestamp_us, None);
    assert_eq!(ReceivedPacket::from_bytes(data.clone()).sender_timestamp_us, None);
    assert_eq!(ReceivedPacket::from(data.clone()).data, data);
}
