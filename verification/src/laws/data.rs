//! What the operations on plain data do.

use vstd::prelude::*;

use bytes::Bytes;

use crate::access_control::{
    handshake_info, hook_result, listen_callback, AcceptAll, AccessControl, AccessControlFn,
    HandshakeInfo, HookOutcome,
};
use crate::addr::{
    sockaddr_to_socket_addr, socket_addr_to_sockaddr, unspecified, AddressFamily, RawSockAddr,
    SocketAddr,
};
use crate::config::{
    CryptoModeConfig, KeySize, KmState, RetransmitAlgo, SocketStatus, SrtConfig, TransType,
};
use crate::duration::Duration;
use crate::error::{RejectReason, SrtError};
use crate::laws::builders;
use crate::received_packet;
use crate::received_packet::ReceivedPacket;
use crate::socket::has_connect_budget;
use crate::stats::{convert_perfmon_to_stats, PerfMon, SrtStats};

verus! {

/// A configuration begins with these values.
pub proof fn law_default_configuration(c: SrtConfig)
    requires
        call_ensures(SrtConfig::default, (), c),
    ensures
        c.mss == 1500,
        c.flight_flag_size == 25600,
        c.send_buffer_size == 8192 * 1316,
        c.recv_buffer_size == 8192 * 1316,
        c.udp_send_buffer_size == 65536,
        c.udp_recv_buffer_size == 65536,
        c.send_sync,
        c.recv_sync,
        c.send_timeout is None,
        c.recv_timeout is None,
        c.reuse_addr,
        c.linger == Some(Duration { secs: 180, nanos: 0 }),
        c.connect_timeout == (Duration { secs: 3, nanos: 0 }),
        !c.rendezvous,
        !c.ipv6_only,
        c.ip_ttl == 64,
        c.ip_tos == 0,
        c.bind_to_device is None,
        c.peer_idle_timeout == (Duration { secs: 5, nanos: 0 }),
        c.trans_type == TransType::Live,
        c.message_api,
        c.payload_size == 1316,
        c.max_bw == -1,
        c.input_bw == 0,
        c.min_input_bw == 0,
        c.overhead_bw == 25,
        c.max_rexmit_bw == -1,
        c.tsbpd_mode,
        c.recv_latency == 120,
        c.peer_latency == 0,
        c.tlpkt_drop,
        c.send_drop_delay == -1,
        c.nak_report,
        c.drift_tracer,
        c.loss_max_ttl == 0,
        c.passphrase@.len() == 0,
        c.key_size == KeySize::AES128,
        c.crypto_mode == CryptoModeConfig::AesCtr,
        c.enforced_encryption,
        c.km_refresh_rate == 0x0100_0000,
        c.km_pre_announce == 0x1000,
        !c.sender,
        c.stream_id@.len() == 0,
        c.congestion@ == "live"@,
        c.packet_filter@.len() == 0,
        c.retransmit_algo == RetransmitAlgo::Default,
        c.min_version == 0,
        !c.group_connect,
        c.group_min_stable_timeout == (Duration { secs: 0, nanos: 60_000_000 }),
{
    assert(c@.passphrase.len() == 0);
    assert(c@.stream_id.len() == 0);
    assert(c@.packet_filter.len() == 0);
}

/// The view of a configuration shows each of its fields.
pub proof fn law_configuration_shows_its_fields(c: SrtConfig)
    ensures
        c@.mss == c.mss,
        c@.flight_flag_size == c.flight_flag_size,
        c@.send_buffer_size == c.send_buffer_size,
        c@.recv_buffer_size == c.recv_buffer_size,
        c@.udp_send_buffer_size == c.udp_send_buffer_size,
        c@.udp_recv_buffer_size == c.udp_recv_buffer_size,
        c@.send_sync == c.send_sync,
        c@.recv_sync == c.recv_sync,
        c@.send_timeout == c.send_timeout,
        c@.recv_timeout == c.recv_timeout,
        c@.reuse_addr == c.reuse_addr,
        c@.linger == c.linger,
        c@.connect_timeout == c.connect_timeout,
        c@.rendezvous == c.rendezvous,
        c@.ipv6_only == c.ipv6_only,
        c@.ip_ttl == c.ip_ttl,
        c@.ip_tos == c.ip_tos,
        c@.peer_idle_timeout == c.peer_idle_timeout,
        c@.trans_type == c.trans_type,
        c@.message_api == c.message_api,
        c@.payload_size == c.payload_size,
        c@.max_bw == c.max_bw,
        c@.input_bw == c.input_bw,
        c@.min_input_bw == c.min_input_bw,
        c@.overhead_bw == c.overhead_bw,
        c@.max_rexmit_bw == c.max_rexmit_bw,
        c@.tsbpd_mode == c.tsbpd_mode,
        c@.recv_latency == c.recv_latency,
        c@.peer_latency == c.peer_latency,
        c@.tlpkt_drop == c.tlpkt_drop,
        c@.send_drop_delay == c.send_drop_delay,
        c@.nak_report == c.nak_report,
        c@.drift_tracer == c.drift_tracer,
        c@.loss_max_ttl == c.loss_max_ttl,
        c@.passphrase == c.passphrase@,
        c@.key_size == c.key_size,
        c@.crypto_mode == c.crypto_mode,
        c@.enforced_encryption == c.enforced_encryption,
        c@.km_refresh_rate == c.km_refresh_rate,
        c@.km_pre_announce == c.km_pre_announce,
        c@.sender == c.sender,
        c@.stream_id == c.stream_id@,
        c@.congestion == c.congestion@,
        c@.packet_filter == c.packet_filter@,
        c@.retransmit_algo == c.retransmit_algo,
        c@.min_version == c.min_version,
        c@.group_connect == c.group_connect,
        c@.group_min_stable_timeout == c.group_min_stable_timeout,
        c@.bind_to_device is Some == c.bind_to_device is Some,
        c.bind_to_device is Some ==> c@.bind_to_device == Some(c.bind_to_device->Some_0@),
{
}

/// The live mode sets what belongs to it, and leaves the rest alone.
pub proof fn law_live_defaults(c: &mut SrtConfig, out: ())
    requires
        call_ensures(SrtConfig::live_defaults, (c,), out),
    ensures
        final(c).trans_type == TransType::Live,
        final(c).payload_size == 1316,
        final(c).message_api && final(c).tsbpd_mode && final(c).tlpkt_drop && final(c).nak_report,
        final(c).congestion@ == "live"@,
        builders::same_outside_modes(*final(c), *old(c)),
{
}

/// The file mode sets what belongs to it, and leaves the rest alone.
pub proof fn law_file_defaults(c: &mut SrtConfig, out: ())
    requires
        call_ensures(SrtConfig::file_defaults, (c,), out),
    ensures
        final(c).trans_type == TransType::File,
        final(c).payload_size == 0,
        final(c).message_api && !final(c).tsbpd_mode && !final(c).tlpkt_drop,
        !final(c).nak_report,
        final(c).congestion@ == "file"@,
        builders::same_outside_modes(*final(c), *old(c)),
{
}

/// Encryption is on where there is a passphrase.
pub proof fn law_passphrase_turns_encryption_on(c: &SrtConfig, on: bool)
    requires
        call_ensures(SrtConfig::encryption_enabled, (c,), on),
    ensures
        on <==> c.passphrase@.len() > 0,
{
}

/// Key sizes have lengths of sixteen, twenty-four and thirty-two bytes, and a
/// fourth of them in key material messages; other lengths are no key sizes.
pub proof fn law_key_lengths(k: KeySize, bytes: u32, field: u32, len: usize, found: Option<KeySize>)
    ensures
        call_ensures(KeySize::to_bytes, (k,), bytes) ==> bytes == (match k {
            KeySize::AES128 => 16u32,
            KeySize::AES192 => 24,
            KeySize::AES256 => 32,
        }),
        call_ensures(KeySize::to_km_field, (k,), field) ==> field == (match k {
            KeySize::AES128 => 4u32,
            KeySize::AES192 => 6,
            KeySize::AES256 => 8,
        }),
        call_ensures(KeySize::from_bytes, (len,), found) ==> (found == Some(KeySize::AES128) <==> len
            == 16) && (found == Some(KeySize::AES192) <==> len == 24) && (found == Some(
            KeySize::AES256,
        ) <==> len == 32),
        call_ensures(KeySize::from_km_field, (field,), found) ==> (found == Some(KeySize::AES128)
            <==> field == 4) && (found == Some(KeySize::AES192) <==> field == 6) && (found == Some(
            KeySize::AES256,
        ) <==> field == 8),
{
}

/// Key material states and socket statuses have libsrt's numbers.
pub proof fn law_libsrt_numbers(k: KmState, s: SocketStatus, n: i32, found: KmState)
    ensures
        call_ensures(KmState::value, (k,), n) ==> n == (match k {
            KmState::Unsecured => 0i32,
            KmState::Securing => 1,
            KmState::Secured => 2,
            KmState::NoSecret => 3,
            KmState::BadSecret => 4,
            KmState::BadCryptoMode => 5,
        }),
        call_ensures(KmState::from_value, (n,), found) ==> found == (if n == 1 {
            KmState::Securing
        } else if n == 2 {
            KmState::Secured
        } else if n == 3 {
            KmState::NoSecret
        } else if n == 4 {
            KmState::BadSecret
        } else if n == 5 {
            KmState::BadCryptoMode
        } else {
            KmState::Unsecured
        }),
        call_ensures(SocketStatus::value, (s,), n) ==> n == (match s {
            SocketStatus::Init => 1i32,
            SocketStatus::Opened => 2,
            SocketStatus::Listening => 3,
            SocketStatus::Connecting => 4,
            SocketStatus::Connected => 5,
            SocketStatus::Broken => 6,
            SocketStatus::Closing => 7,
            SocketStatus::Closed => 8,
            SocketStatus::NonExist => 9,
        }),
{
}

/// Spans of time are counted in milliseconds rounded down, and grow by seconds.
pub proof fn law_spans(
    d: &Duration,
    n: u64,
    millis: u128,
    made: Duration,
    longer: Option<Duration>,
)
    ensures
        call_ensures(Duration::as_millis, (d,), millis) ==> millis == d.secs * 1000 + d.nanos
            / 1_000_000,
        call_ensures(Duration::from_secs, (n,), made) ==> made.secs == n && made.nanos == 0,
        call_ensures(Duration::from_millis, (n,), made) ==> made.secs * 1000 + made.nanos
            / 1_000_000 == n && made.nanos < 1_000_000_000 && made.nanos % 1_000_000 == 0,
        call_ensures(Duration::checked_add_secs, (d, n), longer) ==> match longer {
            Some(l) => l.secs == d.secs + n && l.nanos == d.nanos,
            None => d.secs + n > u64::MAX,
        },
{
    if call_ensures(Duration::from_millis, (n,), made) {
        let total = made.total_nanos();
        assert(total == n * 1_000_000);
        assert(made.nanos % 1_000_000 == 0 && made.secs * 1000 + made.nanos / 1_000_000 == n)
            by (nonlinear_arith)
            requires
                made.secs * 1_000_000_000 + made.nanos == n * 1_000_000,
        ;
    }
}

/// libsrt's error codes are told apart.
pub proof fn law_error_codes(code: i32, error: SrtError)
    requires
        call_ensures(SrtError::from_code, (code,), error),
    ensures
        error == SrtError::SocketFail <==> code == 1003,
        error == SrtError::SocketClosed <==> code == 1005,
        error == SrtError::ConnectionLost <==> code == 2001,
        error == SrtError::InvalidParam <==> code == 5003,
        error == SrtError::AsyncFail <==> code == 6000,
        error == SrtError::AsyncSend <==> code == 6001,
        error == SrtError::Timeout <==> code == 6003,
        error is Other ==> error == SrtError::Other(code),
{
}

/// An address in C's form has its family, its port in network order and its octets,
/// and is found again by them.
pub proof fn law_c_addresses(
    addr: &SocketAddr,
    raw: RawSockAddr,
    found: Option<SocketAddr>,
)
    requires
        call_ensures(socket_addr_to_sockaddr, (addr,), raw),
        call_ensures(sockaddr_to_socket_addr, (&raw,), found),
    ensures
        match *addr {
            SocketAddr::V4 { octets, port } => {
                &&& raw.family == AddressFamily::Inet
                &&& raw.addr4 == octets
                &&& raw.port@[0] * 256 + raw.port@[1] == port
                &&& found == Some(*addr)
            },
            SocketAddr::V6 { octets, port, flowinfo, scope_id } => {
                &&& raw.family == AddressFamily::Inet6
                &&& raw.addr6 == octets
                &&& raw.port@[0] * 256 + raw.port@[1] == port
                &&& raw.flowinfo == flowinfo
                &&& raw.scope_id == scope_id
                &&& found == Some(SocketAddr::V6 { octets, port, flowinfo: 0, scope_id: 0 })
            },
        },
{
}

/// A C address of another family is none, and the address that stands in for an
/// unknown one is all zeros.
pub proof fn law_unknown_addresses(
    raw: &RawSockAddr,
    found: Option<SocketAddr>,
    stand_in: SocketAddr,
)
    ensures
        call_ensures(sockaddr_to_socket_addr, (raw,), found) ==> (found is None <==> raw.family
            == AddressFamily::Other),
        call_ensures(unspecified, (), stand_in) ==> stand_in is V4 && stand_in->V4_port == 0
            && forall|i: int| 0 <= i < 4 ==> stand_in->V4_octets@[i] == 0u8,
{
}

/// Each statistic is the counter or gauge of the same name; what libsrt does not
/// count is zero.
pub proof fn law_statistics(perf: &PerfMon, stats: SrtStats)
    requires
        call_ensures(convert_perfmon_to_stats, (perf,), stats),
    ensures
        stats.ms_timestamp == perf.ms_timestamp,
        stats.pkt_sent_total == perf.pkt_sent_total,
        stats.pkt_recv_total == perf.pkt_recv_total,
        stats.pkt_snd_loss_total == perf.pkt_snd_loss_total,
        stats.pkt_rcv_loss_total == perf.pkt_rcv_loss_total,
        stats.pkt_retrans_total == perf.pkt_retrans_total,
        stats.pkt_sent_ack_total == perf.pkt_sent_ack_total,
        stats.pkt_recv_ack_total == perf.pkt_recv_ack_total,
        stats.pkt_sent_nak_total == perf.pkt_sent_nak_total,
        stats.pkt_recv_nak_total == perf.pkt_recv_nak_total,
        stats.us_snd_duration_total == perf.us_snd_duration_total,
        stats.pkt_snd_drop_total == perf.pkt_snd_drop_total,
        stats.pkt_rcv_drop_total == perf.pkt_rcv_drop_total,
        stats.pkt_rcv_undecrypt_total == perf.pkt_rcv_undecrypt_total,
        stats.byte_sent_total == perf.byte_sent_total,
        stats.byte_recv_total == perf.byte_recv_total,
        stats.byte_rcv_loss_total == perf.byte_rcv_loss_total,
        stats.byte_retrans_total == perf.byte_retrans_total,
        stats.byte_snd_drop_total == perf.byte_snd_drop_total,
        stats.byte_rcv_drop_total == perf.byte_rcv_drop_total,
        stats.byte_rcv_undecrypt_total == perf.byte_rcv_undecrypt_total,
        stats.pkt_sent_unique_total == perf.pkt_sent_unique_total,
        stats.pkt_recv_unique_total == perf.pkt_recv_unique_total,
        stats.byte_sent_unique_total == perf.byte_sent_unique_total,
        stats.byte_recv_unique_total == perf.byte_recv_unique_total,
        stats.pkt_sent == perf.pkt_sent,
        stats.pkt_recv == perf.pkt_recv,
        stats.pkt_snd_loss == perf.pkt_snd_loss,
        stats.pkt_rcv_loss == perf.pkt_rcv_loss,
        stats.pkt_retrans == perf.pkt_retrans,
        stats.pkt_rcv_retrans == perf.pkt_rcv_retrans,
        stats.pkt_sent_ack == perf.pkt_sent_ack,
        stats.pkt_recv_ack == perf.pkt_recv_ack,
        stats.pkt_sent_nak == perf.pkt_sent_nak,
        stats.pkt_recv_nak == perf.pkt_recv_nak,
        stats.mbps_send_rate == perf.mbps_send_rate,
        stats.mbps_recv_rate == perf.mbps_recv_rate,
        stats.us_snd_duration == perf.us_snd_duration,
        stats.pkt_reorder_distance == perf.pkt_reorder_distance,
        stats.pkt_rcv_avg_belated_time == perf.pkt_rcv_avg_belated_time,
        stats.pkt_rcv_belated == perf.pkt_rcv_belated,
        stats.pkt_snd_drop == perf.pkt_snd_drop,
        stats.pkt_rcv_drop == perf.pkt_rcv_drop,
        stats.pkt_rcv_undecrypt == perf.pkt_rcv_undecrypt,
        stats.byte_sent == perf.byte_sent,
        stats.byte_recv == perf.byte_recv,
        stats.byte_rcv_loss == perf.byte_rcv_loss,
        stats.byte_retrans == perf.byte_retrans,
        stats.byte_snd_drop == perf.byte_snd_drop,
        stats.byte_rcv_drop == perf.byte_rcv_drop,
        stats.byte_rcv_undecrypt == perf.byte_rcv_undecrypt,
        stats.pkt_sent_unique == perf.pkt_sent_unique,
        stats.pkt_recv_unique == perf.pkt_recv_unique,
        stats.byte_sent_unique == perf.byte_sent_unique,
        stats.byte_recv_unique == perf.byte_recv_unique,
        stats.us_pkt_snd_period == perf.us_pkt_snd_period,
        stats.pkt_flow_window == perf.pkt_flow_window,
        stats.pkt_congestion_window == perf.pkt_congestion_window,
        stats.pkt_flight_size == perf.pkt_flight_size,
        stats.ms_rtt == perf.ms_rtt,
        stats.mbps_bandwidth == perf.mbps_bandwidth,
        stats.byte_avail_snd_buf == perf.byte_avail_snd_buf,
        stats.byte_avail_rcv_buf == perf.byte_avail_rcv_buf,
        stats.mbps_max_bw == perf.mbps_max_bw,
        stats.byte_mss == perf.byte_mss,
        stats.pkt_snd_buf == perf.pkt_snd_buf,
        stats.byte_snd_buf == perf.byte_snd_buf,
        stats.ms_snd_buf == perf.ms_snd_buf,
        stats.ms_snd_tsbpd_delay == perf.ms_snd_tsbpd_delay,
        stats.pkt_rcv_buf == perf.pkt_rcv_buf,
        stats.byte_rcv_buf == perf.byte_rcv_buf,
        stats.ms_rcv_buf == perf.ms_rcv_buf,
        stats.ms_rcv_tsbpd_delay == perf.ms_rcv_tsbpd_delay,
        stats.pkt_snd_filter_extra_total == perf.pkt_snd_filter_extra_total,
        stats.pkt_rcv_filter_extra_total == perf.pkt_rcv_filter_extra_total,
        stats.pkt_rcv_filter_supply_total == perf.pkt_rcv_filter_supply_total,
        stats.pkt_rcv_filter_loss_total == perf.pkt_rcv_filter_loss_total,
        stats.pkt_snd_filter_extra == perf.pkt_snd_filter_extra,
        stats.pkt_rcv_filter_extra == perf.pkt_rcv_filter_extra,
        stats.pkt_rcv_filter_supply == perf.pkt_rcv_filter_supply,
        stats.pkt_rcv_filter_loss == perf.pkt_rcv_filter_loss,
        stats.pkt_reorder_tolerance == perf.pkt_reorder_tolerance,
        stats.pkt_rcv_retrans_total == 0,
{
}

/// Statistics begin at zero.
pub proof fn law_no_statistics(stats: SrtStats)
    requires
        call_ensures(SrtStats::default, (), stats),
    ensures
        stats.ms_timestamp == 0,
        stats.pkt_sent_total == 0,
        stats.pkt_recv_total == 0,
        stats.pkt_snd_loss_total == 0,
        stats.pkt_rcv_loss_total == 0,
        stats.pkt_retrans_total == 0,
        stats.pkt_sent_ack_total == 0,
        stats.pkt_recv_ack_total == 0,
        stats.pkt_sent_nak_total == 0,
        stats.pkt_recv_nak_total == 0,
        stats.us_snd_duration_total == 0,
        stats.pkt_snd_drop_total == 0,
        stats.pkt_rcv_drop_total == 0,
        stats.pkt_rcv_undecrypt_total == 0,
        stats.byte_sent_total == 0,
        stats.byte_recv_total == 0,
        stats.byte_rcv_loss_total == 0,
        stats.byte_retrans_total == 0,
        stats.byte_snd_drop_total == 0,
        stats.byte_rcv_drop_total == 0,
        stats.byte_rcv_undecrypt_total == 0,
        stats.pkt_sent_unique_total == 0,
        stats.pkt_recv_unique_total == 0,
        stats.byte_sent_unique_total == 0,
        stats.byte_recv_unique_total == 0,
        stats.pkt_sent == 0,
        stats.pkt_recv == 0,
        stats.pkt_snd_loss == 0,
        stats.pkt_rcv_loss == 0,
        stats.pkt_retrans == 0,
        stats.pkt_rcv_retrans == 0,
        stats.pkt_rcv_retrans_total == 0,
        stats.pkt_sent_ack == 0,
        stats.pkt_recv_ack == 0,
        stats.pkt_sent_nak == 0,
        stats.pkt_recv_nak == 0,
        stats.mbps_send_rate.bits == 0,
        stats.mbps_recv_rate.bits == 0,
        stats.us_snd_duration == 0,
        stats.pkt_reorder_distance == 0,
        stats.pkt_rcv_avg_belated_time.bits == 0,
        stats.pkt_rcv_belated == 0,
        stats.pkt_snd_drop == 0,
        stats.pkt_rcv_drop == 0,
        stats.pkt_rcv_undecrypt == 0,
        stats.byte_sent == 0,
        stats.byte_recv == 0,
        stats.byte_rcv_loss == 0,
        stats.byte_retrans == 0,
        stats.byte_snd_drop == 0,
        stats.byte_rcv_drop == 0,
        stats.byte_rcv_undecrypt == 0,
        stats.pkt_sent_unique == 0,
        stats.pkt_recv_unique == 0,
        stats.byte_sent_unique == 0,
        stats.byte_recv_unique == 0,
        stats.us_pkt_snd_period.bits == 0,
        stats.pkt_flow_window == 0,
        stats.pkt_congestion_window == 0,
        stats.pkt_flight_size == 0,
        stats.ms_rtt.bits == 0,
        stats.mbps_bandwidth.bits == 0,
        stats.byte_avail_snd_buf == 0,
        stats.byte_avail_rcv_buf == 0,
        stats.mbps_max_bw.bits == 0,
        stats.byte_mss == 0,
        stats.pkt_snd_buf == 0,
        stats.byte_snd_buf == 0,
        stats.ms_snd_buf == 0,
        stats.ms_snd_tsbpd_delay == 0,
        stats.pkt_rcv_buf == 0,
        stats.byte_rcv_buf == 0,
        stats.ms_rcv_buf == 0,
        stats.ms_rcv_tsbpd_delay == 0,
        stats.pkt_snd_filter_extra_total == 0,
        stats.pkt_rcv_filter_extra_total == 0,
        stats.pkt_rcv_filter_supply_total == 0,
        stats.pkt_rcv_filter_loss_total == 0,
        stats.pkt_snd_filter_extra == 0,
        stats.pkt_rcv_filter_extra == 0,
        stats.pkt_rcv_filter_supply == 0,
        stats.pkt_rcv_filter_loss == 0,
        stats.pkt_reorder_tolerance == 0,
{
}

/// A packet keeps its payload, and the time of its sender unless that is zero, which
/// says that the sender gave none.
pub proof fn law_packets(
    data: Bytes,
    us: i64,
    timed: ReceivedPacket,
    untimed: ReceivedPacket,
    packet: ReceivedPacket,
    payload: Bytes,
    copy: ReceivedPacket,
)
    ensures
        call_ensures(<ReceivedPacket as Clone>::clone, (&packet,), copy)
            ==> copy.sender_timestamp_us == packet.sender_timestamp_us
            && received_packet::contents(copy.data) == received_packet::contents(packet.data),
        call_ensures(ReceivedPacket::with_srctime, (data, us), timed) ==> timed.data == data && (
        timed.sender_timestamp_us is None <==> us == 0) && (us != 0 ==> timed.sender_timestamp_us
            == Some(us)),
        call_ensures(ReceivedPacket::from_bytes, (data,), untimed) ==> untimed.data == data
            && untimed.sender_timestamp_us is None,
        call_ensures(ReceivedPacket::into_bytes, (packet,), payload) ==> payload == packet.data,
{
}

/// The accept hook answers zero for a caller that the policy accepts, and minus one
/// for any other, one on whom the policy panicked among them.
pub proof fn law_hook_answers(outcome: HookOutcome, code: i32)
    requires
        call_ensures(hook_result, (outcome,), code),
    ensures
        code == 0 || code == -1,
        code == 0 <==> outcome is Ruled && outcome->Ruled_0 is Ok,
{
}

/// Whether this is what a caller looks like to a policy: its address where it is known, its
/// Stream ID and its version.
pub open spec fn is_shown(
    info: HandshakeInfo,
    version: i32,
    peer: Option<RawSockAddr>,
    stream_id: Option<&[u8]>,
) -> bool {
    &&& info.peer_version == version
    &&& !info.is_encrypted
    &&& info.peer_socket_id == 0
    &&& stream_id is None ==> info.stream_id@.len() == 0
    &&& stream_id is Some && vstd::utf8::valid_utf8(stream_id->Some_0@) ==> info.stream_id@
        == vstd::utf8::decode_utf8(stream_id->Some_0@)
    &&& peer is Some && peer->Some_0.family == AddressFamily::Inet ==> info.peer_addr is V4
        && info.peer_addr->V4_octets == peer->Some_0.addr4 && info.peer_addr->V4_port
        == peer->Some_0.port@[0] * 256 + peer->Some_0.port@[1]
    &&& peer is Some && peer->Some_0.family == AddressFamily::Inet6 ==> info.peer_addr is V6
        && info.peer_addr->V6_octets == peer->Some_0.addr6 && info.peer_addr->V6_port
        == peer->Some_0.port@[0] * 256 + peer->Some_0.port@[1] && info.peer_addr->V6_flowinfo == 0
        && info.peer_addr->V6_scope_id == 0
    &&& peer is None || peer->Some_0.family == AddressFamily::Other ==> info.peer_addr is V4
        && info.peer_addr->V4_port == 0 && info.peer_addr->V4_octets@ == seq![0u8, 0, 0, 0]
}

/// A policy is shown the address of the caller where it is known, its Stream ID and
/// its version.
pub proof fn law_handshake(
    version: i32,
    peer: Option<RawSockAddr>,
    stream_id: Option<&[u8]>,
    info: HandshakeInfo,
)
    requires
        call_ensures(handshake_info, (version, peer, stream_id), info),
    ensures
        is_shown(info, version, peer, stream_id),
{
}

/// Without a policy every caller is let in. With one, a caller is let in exactly where the
/// policy accepts what it is shown: of a policy that turns all callers away that look like
/// this one no verdict is read as acceptance, and of one that accepts them none as refusal.
pub proof fn law_policy_decides<A: AccessControl>(
    policy: Option<&A>,
    version: i32,
    peer: Option<RawSockAddr>,
    stream_id: Option<&[u8]>,
    code: i32,
)
    requires
        call_ensures(listen_callback::<A>, (policy, version, peer, stream_id), code),
    ensures
        policy is None ==> code == 0,
        code == 0 || code == -1,
        policy is Some && (forall|info: HandshakeInfo, verdict: Result<(), RejectReason>|
            is_shown(info, version, peer, stream_id) && #[trigger] policy->Some_0.may_rule(
                &info,
                verdict,
            ) ==> verdict is Err) ==> code == -1,
        policy is Some && (forall|info: HandshakeInfo, verdict: Result<(), RejectReason>|
            is_shown(info, version, peer, stream_id) && #[trigger] policy->Some_0.may_rule(
                &info,
                verdict,
            ) ==> verdict is Ok) ==> code == 0,
{
}

/// The policy that accepts all does, and one given by a closure rules as the closure does.
pub proof fn law_ready_made_policies<F>(
    all: &AcceptAll,
    by_closure: &AccessControlFn<F>,
    info: &HandshakeInfo,
    verdict: Result<(), RejectReason>,
) where F: Fn(&HandshakeInfo) -> Result<(), RejectReason> + Send + Sync + 'static
    ensures
        all.can_judge(info),
        all.may_rule(info, verdict) ==> verdict is Ok,
        by_closure.can_judge(info) <==> call_requires(by_closure.0, (info,)),
        by_closure.may_rule(info, verdict) <==> call_ensures(by_closure.0, (info,), verdict),
{
}

/// Where nothing is chosen, streaming is live and the cipher runs in counter mode. The time
/// to wait for a connection can be represented unless it is within two seconds of the
/// largest.
pub proof fn law_other_defaults(
    t: TransType,
    m: CryptoModeConfig,
    timeout: Duration,
    fits: bool,
)
    ensures
        call_ensures(<TransType as Default>::default, (), t) ==> t == TransType::Live,
        call_ensures(<CryptoModeConfig as Default>::default, (), m) ==> m
            == CryptoModeConfig::AesCtr,
        call_ensures(has_connect_budget, (timeout,), fits) ==> (fits <==> timeout.secs + 2
            <= u64::MAX),
{
}

} // verus!
