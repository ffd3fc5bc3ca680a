//! What the setters of the builders do.

use vstd::prelude::*;

use crate::access_control::{AcceptAll, AccessControl, AccessControlFn, HandshakeInfo};
use crate::addr::SocketAddr;
use crate::config::{CryptoModeConfig, KeySize, RetransmitAlgo, SrtConfig, TransType};
use crate::duration::Duration;
use crate::error::RejectReason;
use crate::group::{GroupMode, SrtGroup, SrtGroupBuilder};
use crate::listener::{SrtListener, SrtListenerBuilder};
use crate::socket::{SrtSocket, SrtSocketBuilder};

verus! {

/// Whether two configurations agree on all that does not belong to a transmission
/// mode.
pub open spec fn same_outside_modes(a: SrtConfig, b: SrtConfig) -> bool {
    &&& a.mss == b.mss
    &&& a.flight_flag_size == b.flight_flag_size
    &&& a.send_buffer_size == b.send_buffer_size
    &&& a.recv_buffer_size == b.recv_buffer_size
    &&& a.udp_send_buffer_size == b.udp_send_buffer_size
    &&& a.udp_recv_buffer_size == b.udp_recv_buffer_size
    &&& a.send_sync == b.send_sync
    &&& a.recv_sync == b.recv_sync
    &&& a.send_timeout == b.send_timeout
    &&& a.recv_timeout == b.recv_timeout
    &&& a.reuse_addr == b.reuse_addr
    &&& a.linger == b.linger
    &&& a.connect_timeout == b.connect_timeout
    &&& a.rendezvous == b.rendezvous
    &&& a.ipv6_only == b.ipv6_only
    &&& a.ip_ttl == b.ip_ttl
    &&& a.ip_tos == b.ip_tos
    &&& a.peer_idle_timeout == b.peer_idle_timeout
    &&& a.max_bw == b.max_bw
    &&& a.input_bw == b.input_bw
    &&& a.min_input_bw == b.min_input_bw
    &&& a.overhead_bw == b.overhead_bw
    &&& a.max_rexmit_bw == b.max_rexmit_bw
    &&& a.recv_latency == b.recv_latency
    &&& a.peer_latency == b.peer_latency
    &&& a.send_drop_delay == b.send_drop_delay
    &&& a.drift_tracer == b.drift_tracer
    &&& a.loss_max_ttl == b.loss_max_ttl
    &&& a.key_size == b.key_size
    &&& a.crypto_mode == b.crypto_mode
    &&& a.enforced_encryption == b.enforced_encryption
    &&& a.km_refresh_rate == b.km_refresh_rate
    &&& a.km_pre_announce == b.km_pre_announce
    &&& a.sender == b.sender
    &&& a.retransmit_algo == b.retransmit_algo
    &&& a.min_version == b.min_version
    &&& a.group_connect == b.group_connect
    &&& a.group_min_stable_timeout == b.group_min_stable_timeout
    &&& a.passphrase@ == b.passphrase@
    &&& a.stream_id@ == b.stream_id@
    &&& a.packet_filter@ == b.packet_filter@
    &&& a.bind_to_device is Some == b.bind_to_device is Some
    &&& a.bind_to_device is Some ==> a.bind_to_device->Some_0@ == b.bind_to_device->Some_0@
}

/// `mss` sets its own field and nothing else.
pub proof fn law_socket_mss(b: SrtSocketBuilder, v: u32, r: SrtSocketBuilder)
    requires
        call_ensures(SrtSocketBuilder::mss, (b, v), r),
    ensures
        r.config == (SrtConfig {
            mss: v,
            ..b.config
        }),
        r.bind_addr == b.bind_addr,
{
}

/// `flight_flag_size` sets its own field and nothing else.
pub proof fn law_socket_flight_flag_size(b: SrtSocketBuilder, v: u32, r: SrtSocketBuilder)
    requires
        call_ensures(SrtSocketBuilder::flight_flag_size, (b, v), r),
    ensures
        r.config == (SrtConfig {
            flight_flag_size: v,
            ..b.config
        }),
        r.bind_addr == b.bind_addr,
{
}

/// `send_buffer_size` sets its own field and nothing else.
pub proof fn law_socket_send_buffer_size(b: SrtSocketBuilder, v: u32, r: SrtSocketBuilder)
    requires
        call_ensures(SrtSocketBuilder::send_buffer_size, (b, v), r),
    ensures
        r.config == (SrtConfig {
            send_buffer_size: v,
            ..b.config
        }),
        r.bind_addr == b.bind_addr,
{
}

/// `recv_buffer_size` sets its own field and nothing else.
pub proof fn law_socket_recv_buffer_size(b: SrtSocketBuilder, v: u32, r: SrtSocketBuilder)
    requires
        call_ensures(SrtSocketBuilder::recv_buffer_size, (b, v), r),
    ensures
        r.config == (SrtConfig {
            recv_buffer_size: v,
            ..b.config
        }),
        r.bind_addr == b.bind_addr,
{
}

/// `payload_size` sets its own field and nothing else.
pub proof fn law_socket_payload_size(b: SrtSocketBuilder, v: u32, r: SrtSocketBuilder)
    requires
        call_ensures(SrtSocketBuilder::payload_size, (b, v), r),
    ensures
        r.config == (SrtConfig {
            payload_size: v,
            ..b.config
        }),
        r.bind_addr == b.bind_addr,
{
}

/// `km_refresh_rate` sets its own field and nothing else.
pub proof fn law_socket_km_refresh_rate(b: SrtSocketBuilder, v: u32, r: SrtSocketBuilder)
    requires
        call_ensures(SrtSocketBuilder::km_refresh_rate, (b, v), r),
    ensures
        r.config == (SrtConfig {
            km_refresh_rate: v,
            ..b.config
        }),
        r.bind_addr == b.bind_addr,
{
}

/// `km_pre_announce` sets its own field and nothing else.
pub proof fn law_socket_km_pre_announce(b: SrtSocketBuilder, v: u32, r: SrtSocketBuilder)
    requires
        call_ensures(SrtSocketBuilder::km_pre_announce, (b, v), r),
    ensures
        r.config == (SrtConfig {
            km_pre_announce: v,
            ..b.config
        }),
        r.bind_addr == b.bind_addr,
{
}

/// `max_bw` sets its own field and nothing else.
pub proof fn law_socket_max_bw(b: SrtSocketBuilder, v: i64, r: SrtSocketBuilder)
    requires
        call_ensures(SrtSocketBuilder::max_bw, (b, v), r),
    ensures
        r.config == (SrtConfig {
            max_bw: v,
            ..b.config
        }),
        r.bind_addr == b.bind_addr,
{
}

/// `input_bw` sets its own field and nothing else.
pub proof fn law_socket_input_bw(b: SrtSocketBuilder, v: i64, r: SrtSocketBuilder)
    requires
        call_ensures(SrtSocketBuilder::input_bw, (b, v), r),
    ensures
        r.config == (SrtConfig {
            input_bw: v,
            ..b.config
        }),
        r.bind_addr == b.bind_addr,
{
}

/// `max_rexmit_bw` sets its own field and nothing else.
pub proof fn law_socket_max_rexmit_bw(b: SrtSocketBuilder, v: i64, r: SrtSocketBuilder)
    requires
        call_ensures(SrtSocketBuilder::max_rexmit_bw, (b, v), r),
    ensures
        r.config == (SrtConfig {
            max_rexmit_bw: v,
            ..b.config
        }),
        r.bind_addr == b.bind_addr,
{
}

/// `overhead_bw` sets its own field and nothing else.
pub proof fn law_socket_overhead_bw(b: SrtSocketBuilder, v: i32, r: SrtSocketBuilder)
    requires
        call_ensures(SrtSocketBuilder::overhead_bw, (b, v), r),
    ensures
        r.config == (SrtConfig {
            overhead_bw: v,
            ..b.config
        }),
        r.bind_addr == b.bind_addr,
{
}

/// `ip_tos` sets its own field and nothing else.
pub proof fn law_socket_ip_tos(b: SrtSocketBuilder, v: i32, r: SrtSocketBuilder)
    requires
        call_ensures(SrtSocketBuilder::ip_tos, (b, v), r),
    ensures
        r.config == (SrtConfig {
            ip_tos: v,
            ..b.config
        }),
        r.bind_addr == b.bind_addr,
{
}

/// `ip_ttl` sets its own field and nothing else.
pub proof fn law_socket_ip_ttl(b: SrtSocketBuilder, v: i32, r: SrtSocketBuilder)
    requires
        call_ensures(SrtSocketBuilder::ip_ttl, (b, v), r),
    ensures
        r.config == (SrtConfig {
            ip_ttl: v,
            ..b.config
        }),
        r.bind_addr == b.bind_addr,
{
}

/// `send_drop_delay` sets its own field and nothing else.
pub proof fn law_socket_send_drop_delay(b: SrtSocketBuilder, v: i32, r: SrtSocketBuilder)
    requires
        call_ensures(SrtSocketBuilder::send_drop_delay, (b, v), r),
    ensures
        r.config == (SrtConfig {
            send_drop_delay: v,
            ..b.config
        }),
        r.bind_addr == b.bind_addr,
{
}

/// `loss_max_ttl` sets its own field and nothing else.
pub proof fn law_socket_loss_max_ttl(b: SrtSocketBuilder, v: i32, r: SrtSocketBuilder)
    requires
        call_ensures(SrtSocketBuilder::loss_max_ttl, (b, v), r),
    ensures
        r.config == (SrtConfig {
            loss_max_ttl: v,
            ..b.config
        }),
        r.bind_addr == b.bind_addr,
{
}

/// `enforced_encryption` sets its own field and nothing else.
pub proof fn law_socket_enforced_encryption(b: SrtSocketBuilder, v: bool, r: SrtSocketBuilder)
    requires
        call_ensures(SrtSocketBuilder::enforced_encryption, (b, v), r),
    ensures
        r.config == (SrtConfig {
            enforced_encryption: v,
            ..b.config
        }),
        r.bind_addr == b.bind_addr,
{
}

/// `tlpkt_drop` sets its own field and nothing else.
pub proof fn law_socket_tlpkt_drop(b: SrtSocketBuilder, v: bool, r: SrtSocketBuilder)
    requires
        call_ensures(SrtSocketBuilder::tlpkt_drop, (b, v), r),
    ensures
        r.config == (SrtConfig {
            tlpkt_drop: v,
            ..b.config
        }),
        r.bind_addr == b.bind_addr,
{
}

/// `rendezvous` sets its own field and nothing else.
pub proof fn law_socket_rendezvous(b: SrtSocketBuilder, v: bool, r: SrtSocketBuilder)
    requires
        call_ensures(SrtSocketBuilder::rendezvous, (b, v), r),
    ensures
        r.config == (SrtConfig {
            rendezvous: v,
            ..b.config
        }),
        r.bind_addr == b.bind_addr,
{
}

/// `peer_idle_timeout` sets its own field and nothing else.
pub proof fn law_socket_peer_idle_timeout(b: SrtSocketBuilder, v: Duration, r: SrtSocketBuilder)
    requires
        call_ensures(SrtSocketBuilder::peer_idle_timeout, (b, v), r),
    ensures
        r.config == (SrtConfig {
            peer_idle_timeout: v,
            ..b.config
        }),
        r.bind_addr == b.bind_addr,
{
}

/// `connect_timeout` sets its own field and nothing else.
pub proof fn law_socket_connect_timeout(b: SrtSocketBuilder, v: Duration, r: SrtSocketBuilder)
    requires
        call_ensures(SrtSocketBuilder::connect_timeout, (b, v), r),
    ensures
        r.config == (SrtConfig {
            connect_timeout: v,
            ..b.config
        }),
        r.bind_addr == b.bind_addr,
{
}

/// The latency of both sides is set, in whole milliseconds and as far as its
/// option can hold them.
pub proof fn law_socket_latency(b: SrtSocketBuilder, latency: Duration, r: SrtSocketBuilder)
    requires
        call_ensures(SrtSocketBuilder::latency, (b, latency), r),
    ensures
        r.config.recv_latency == ((latency.secs * 1000 + latency.nanos / 1_000_000) as nat) as u32,
        r.config.peer_latency == ((latency.secs * 1000 + latency.nanos / 1_000_000) as nat) as u32,
        r.config == (SrtConfig {
            recv_latency: r.config.recv_latency,
            peer_latency: r.config.peer_latency,
            ..b.config
        }),
        r.bind_addr == b.bind_addr,
{
}

/// The latency of the receiving side alone is set, in whole milliseconds and as far as its
/// option can hold them.
pub proof fn law_socket_receiver_latency(
    b: SrtSocketBuilder,
    latency: Duration,
    r: SrtSocketBuilder,
)
    requires
        call_ensures(SrtSocketBuilder::receiver_latency, (b, latency), r),
    ensures
        r.config.recv_latency == ((latency.secs * 1000 + latency.nanos / 1_000_000) as nat) as u32,
        r.config == (SrtConfig {
            recv_latency: r.config.recv_latency,
            ..b.config
        }),
        r.bind_addr == b.bind_addr,
{
}

/// The latency of the sending side alone is set, in whole milliseconds and as far as its
/// option can hold them.
pub proof fn law_socket_sender_latency(b: SrtSocketBuilder, latency: Duration, r: SrtSocketBuilder)
    requires
        call_ensures(SrtSocketBuilder::sender_latency, (b, latency), r),
    ensures
        r.config.peer_latency == ((latency.secs * 1000 + latency.nanos / 1_000_000) as nat) as u32,
        r.config == (SrtConfig {
            peer_latency: r.config.peer_latency,
            ..b.config
        }),
        r.bind_addr == b.bind_addr,
{
}

/// A passphrase and a key size are set together.
pub proof fn law_socket_encryption(
    b: SrtSocketBuilder,
    passphrase: &str,
    key_size: KeySize,
    r: SrtSocketBuilder,
)
    requires
        call_ensures(SrtSocketBuilder::encryption, (b, passphrase, key_size), r),
    ensures
        r.config.passphrase@ == passphrase@,
        r.config == (SrtConfig {
            passphrase: r.config.passphrase,
            key_size,
            ..b.config
        }),
        r.bind_addr == b.bind_addr,
{
}

/// `crypto_mode` sets its own field and nothing else.
pub proof fn law_socket_crypto_mode(b: SrtSocketBuilder, v: CryptoModeConfig, r: SrtSocketBuilder)
    requires
        call_ensures(SrtSocketBuilder::crypto_mode, (b, v), r),
    ensures
        r.config == (SrtConfig {
            crypto_mode: v,
            ..b.config
        }),
        r.bind_addr == b.bind_addr,
{
}

/// `retransmit_algo` sets its own field and nothing else.
pub proof fn law_socket_retransmit_algo(b: SrtSocketBuilder, v: RetransmitAlgo, r: SrtSocketBuilder)
    requires
        call_ensures(SrtSocketBuilder::retransmit_algo, (b, v), r),
    ensures
        r.config == (SrtConfig {
            retransmit_algo: v,
            ..b.config
        }),
        r.bind_addr == b.bind_addr,
{
}

/// `stream_id` sets its own field and nothing else.
pub proof fn law_socket_stream_id(b: SrtSocketBuilder, v: String, r: SrtSocketBuilder)
    requires
        call_ensures(SrtSocketBuilder::stream_id, (b, v), r),
    ensures
        r.config == (SrtConfig {
            stream_id: v,
            ..b.config
        }),
        r.bind_addr == b.bind_addr,
{
}

/// `packet_filter` sets its own field and nothing else.
pub proof fn law_socket_packet_filter(b: SrtSocketBuilder, v: String, r: SrtSocketBuilder)
    requires
        call_ensures(SrtSocketBuilder::packet_filter, (b, v), r),
    ensures
        r.config == (SrtConfig {
            packet_filter: v,
            ..b.config
        }),
        r.bind_addr == b.bind_addr,
{
}

/// The live mode sets what belongs to the mode, and leaves the rest of the
/// configuration alone.
pub proof fn law_socket_live_mode(b: SrtSocketBuilder, r: SrtSocketBuilder)
    requires
        call_ensures(SrtSocketBuilder::live_mode, (b,), r),
    ensures
        r.config.trans_type == TransType::Live,
        r.config.payload_size == 1316,
        r.config.message_api,
        r.config.tsbpd_mode == true,
        r.config.tlpkt_drop == true,
        r.config.nak_report == true,
        r.config.congestion@ == "live"@,
        same_outside_modes(r.config, b.config),
        r.bind_addr == b.bind_addr,
{
}

/// The file mode sets what belongs to the mode, and leaves the rest of the
/// configuration alone.
pub proof fn law_socket_file_mode(b: SrtSocketBuilder, r: SrtSocketBuilder)
    requires
        call_ensures(SrtSocketBuilder::file_mode, (b,), r),
    ensures
        r.config.trans_type == TransType::File,
        r.config.payload_size == 0,
        r.config.message_api,
        r.config.tsbpd_mode == false,
        r.config.tlpkt_drop == false,
        r.config.nak_report == false,
        r.config.congestion@ == "file"@,
        same_outside_modes(r.config, b.config),
        r.bind_addr == b.bind_addr,
{
}

/// `mss` sets its own field and nothing else.
pub proof fn law_listener_mss<P>(b: SrtListenerBuilder<P>, v: u32, r: SrtListenerBuilder<P>)
    requires
        call_ensures(SrtListenerBuilder::<P>::mss, (b, v), r),
    ensures
        r.config == (SrtConfig {
            mss: v,
            ..b.config
        }),
        r.backlog == b.backlog,
        r.access_control == b.access_control,
{
}

/// `flight_flag_size` sets its own field and nothing else.
pub proof fn law_listener_flight_flag_size<P>(
    b: SrtListenerBuilder<P>,
    v: u32,
    r: SrtListenerBuilder<P>,
)
    requires
        call_ensures(SrtListenerBuilder::<P>::flight_flag_size, (b, v), r),
    ensures
        r.config == (SrtConfig {
            flight_flag_size: v,
            ..b.config
        }),
        r.backlog == b.backlog,
        r.access_control == b.access_control,
{
}

/// `send_buffer_size` sets its own field and nothing else.
pub proof fn law_listener_send_buffer_size<P>(
    b: SrtListenerBuilder<P>,
    v: u32,
    r: SrtListenerBuilder<P>,
)
    requires
        call_ensures(SrtListenerBuilder::<P>::send_buffer_size, (b, v), r),
    ensures
        r.config == (SrtConfig {
            send_buffer_size: v,
            ..b.config
        }),
        r.backlog == b.backlog,
        r.access_control == b.access_control,
{
}

/// `recv_buffer_size` sets its own field and nothing else.
pub proof fn law_listener_recv_buffer_size<P>(
    b: SrtListenerBuilder<P>,
    v: u32,
    r: SrtListenerBuilder<P>,
)
    requires
        call_ensures(SrtListenerBuilder::<P>::recv_buffer_size, (b, v), r),
    ensures
        r.config == (SrtConfig {
            recv_buffer_size: v,
            ..b.config
        }),
        r.backlog == b.backlog,
        r.access_control == b.access_control,
{
}

/// `payload_size` sets its own field and nothing else.
pub proof fn law_listener_payload_size<P>(
    b: SrtListenerBuilder<P>,
    v: u32,
    r: SrtListenerBuilder<P>,
)
    requires
        call_ensures(SrtListenerBuilder::<P>::payload_size, (b, v), r),
    ensures
        r.config == (SrtConfig {
            payload_size: v,
            ..b.config
        }),
        r.backlog == b.backlog,
        r.access_control == b.access_control,
{
}

/// `km_refresh_rate` sets its own field and nothing else.
pub proof fn law_listener_km_refresh_rate<P>(
    b: SrtListenerBuilder<P>,
    v: u32,
    r: SrtListenerBuilder<P>,
)
    requires
        call_ensures(SrtListenerBuilder::<P>::km_refresh_rate, (b, v), r),
    ensures
        r.config == (SrtConfig {
            km_refresh_rate: v,
            ..b.config
        }),
        r.backlog == b.backlog,
        r.access_control == b.access_control,
{
}

/// `km_pre_announce` sets its own field and nothing else.
pub proof fn law_listener_km_pre_announce<P>(
    b: SrtListenerBuilder<P>,
    v: u32,
    r: SrtListenerBuilder<P>,
)
    requires
        call_ensures(SrtListenerBuilder::<P>::km_pre_announce, (b, v), r),
    ensures
        r.config == (SrtConfig {
            km_pre_announce: v,
            ..b.config
        }),
        r.backlog == b.backlog,
        r.access_control == b.access_control,
{
}

/// `max_bw` sets its own field and nothing else.
pub proof fn law_listener_max_bw<P>(b: SrtListenerBuilder<P>, v: i64, r: SrtListenerBuilder<P>)
    requires
        call_ensures(SrtListenerBuilder::<P>::max_bw, (b, v), r),
    ensures
        r.config == (SrtConfig {
            max_bw: v,
            ..b.config
        }),
        r.backlog == b.backlog,
        r.access_control == b.access_control,
{
}

/// `input_bw` sets its own field and nothing else.
pub proof fn law_listener_input_bw<P>(b: SrtListenerBuilder<P>, v: i64, r: SrtListenerBuilder<P>)
    requires
        call_ensures(SrtListenerBuilder::<P>::input_bw, (b, v), r),
    ensures
        r.config == (SrtConfig {
            input_bw: v,
            ..b.config
        }),
        r.backlog == b.backlog,
        r.access_control == b.access_control,
{
}

/// `max_rexmit_bw` sets its own field and nothing else.
pub proof fn law_listener_max_rexmit_bw<P>(
    b: SrtListenerBuilder<P>,
    v: i64,
    r: SrtListenerBuilder<P>,
)
    requires
        call_ensures(SrtListenerBuilder::<P>::max_rexmit_bw, (b, v), r),
    ensures
        r.config == (SrtConfig {
            max_rexmit_bw: v,
            ..b.config
        }),
        r.backlog == b.backlog,
        r.access_control == b.access_control,
{
}

/// `overhead_bw` sets its own field and nothing else.
pub proof fn law_listener_overhead_bw<P>(b: SrtListenerBuilder<P>, v: i32, r: SrtListenerBuilder<P>)
    requires
        call_ensures(SrtListenerBuilder::<P>::overhead_bw, (b, v), r),
    ensures
        r.config == (SrtConfig {
            overhead_bw: v,
            ..b.config
        }),
        r.backlog == b.backlog,
        r.access_control == b.access_control,
{
}

/// `ip_tos` sets its own field and nothing else.
pub proof fn law_listener_ip_tos<P>(b: SrtListenerBuilder<P>, v: i32, r: SrtListenerBuilder<P>)
    requires
        call_ensures(SrtListenerBuilder::<P>::ip_tos, (b, v), r),
    ensures
        r.config == (SrtConfig {
            ip_tos: v,
            ..b.config
        }),
        r.backlog == b.backlog,
        r.access_control == b.access_control,
{
}

/// `ip_ttl` sets its own field and nothing else.
pub proof fn law_listener_ip_ttl<P>(b: SrtListenerBuilder<P>, v: i32, r: SrtListenerBuilder<P>)
    requires
        call_ensures(SrtListenerBuilder::<P>::ip_ttl, (b, v), r),
    ensures
        r.config == (SrtConfig {
            ip_ttl: v,
            ..b.config
        }),
        r.backlog == b.backlog,
        r.access_control == b.access_control,
{
}

/// `send_drop_delay` sets its own field and nothing else.
pub proof fn law_listener_send_drop_delay<P>(
    b: SrtListenerBuilder<P>,
    v: i32,
    r: SrtListenerBuilder<P>,
)
    requires
        call_ensures(SrtListenerBuilder::<P>::send_drop_delay, (b, v), r),
    ensures
        r.config == (SrtConfig {
            send_drop_delay: v,
            ..b.config
        }),
        r.backlog == b.backlog,
        r.access_control == b.access_control,
{
}

/// `loss_max_ttl` sets its own field and nothing else.
pub proof fn law_listener_loss_max_ttl<P>(
    b: SrtListenerBuilder<P>,
    v: i32,
    r: SrtListenerBuilder<P>,
)
    requires
        call_ensures(SrtListenerBuilder::<P>::loss_max_ttl, (b, v), r),
    ensures
        r.config == (SrtConfig {
            loss_max_ttl: v,
            ..b.config
        }),
        r.backlog == b.backlog,
        r.access_control == b.access_control,
{
}

/// `enforced_encryption` sets its own field and nothing else.
pub proof fn law_listener_enforced_encryption<P>(
    b: SrtListenerBuilder<P>,
    v: bool,
    r: SrtListenerBuilder<P>,
)
    requires
        call_ensures(SrtListenerBuilder::<P>::enforced_encryption, (b, v), r),
    ensures
        r.config == (SrtConfig {
            enforced_encryption: v,
            ..b.config
        }),
        r.backlog == b.backlog,
        r.access_control == b.access_control,
{
}

/// `tlpkt_drop` sets its own field and nothing else.
pub proof fn law_listener_tlpkt_drop<P>(b: SrtListenerBuilder<P>, v: bool, r: SrtListenerBuilder<P>)
    requires
        call_ensures(SrtListenerBuilder::<P>::tlpkt_drop, (b, v), r),
    ensures
        r.config == (SrtConfig {
            tlpkt_drop: v,
            ..b.config
        }),
        r.backlog == b.backlog,
        r.access_control == b.access_control,
{
}

/// `group_connect` sets its own field and nothing else.
pub proof fn law_listener_group_connect<P>(
    b: SrtListenerBuilder<P>,
    v: bool,
    r: SrtListenerBuilder<P>,
)
    requires
        call_ensures(SrtListenerBuilder::<P>::group_connect, (b, v), r),
    ensures
        r.config == (SrtConfig {
            group_connect: v,
            ..b.config
        }),
        r.backlog == b.backlog,
        r.access_control == b.access_control,
{
}

/// `peer_idle_timeout` sets its own field and nothing else.
pub proof fn law_listener_peer_idle_timeout<P>(
    b: SrtListenerBuilder<P>,
    v: Duration,
    r: SrtListenerBuilder<P>,
)
    requires
        call_ensures(SrtListenerBuilder::<P>::peer_idle_timeout, (b, v), r),
    ensures
        r.config == (SrtConfig {
            peer_idle_timeout: v,
            ..b.config
        }),
        r.backlog == b.backlog,
        r.access_control == b.access_control,
{
}

/// `connect_timeout` sets its own field and nothing else.
pub proof fn law_listener_connect_timeout<P>(
    b: SrtListenerBuilder<P>,
    v: Duration,
    r: SrtListenerBuilder<P>,
)
    requires
        call_ensures(SrtListenerBuilder::<P>::connect_timeout, (b, v), r),
    ensures
        r.config == (SrtConfig {
            connect_timeout: v,
            ..b.config
        }),
        r.backlog == b.backlog,
        r.access_control == b.access_control,
{
}

/// The latency of both sides is set, in whole milliseconds and as far as its
/// option can hold them.
pub proof fn law_listener_latency<P>(
    b: SrtListenerBuilder<P>,
    latency: Duration,
    r: SrtListenerBuilder<P>,
)
    requires
        call_ensures(SrtListenerBuilder::<P>::latency, (b, latency), r),
    ensures
        r.config.recv_latency == ((latency.secs * 1000 + latency.nanos / 1_000_000) as nat) as u32,
        r.config.peer_latency == ((latency.secs * 1000 + latency.nanos / 1_000_000) as nat) as u32,
        r.config == (SrtConfig {
            recv_latency: r.config.recv_latency,
            peer_latency: r.config.peer_latency,
            ..b.config
        }),
        r.backlog == b.backlog,
        r.access_control == b.access_control,
{
}

/// The latency of the receiving side alone is set, in whole milliseconds and as far as its
/// option can hold them.
pub proof fn law_listener_receiver_latency<P>(
    b: SrtListenerBuilder<P>,
    latency: Duration,
    r: SrtListenerBuilder<P>,
)
    requires
        call_ensures(SrtListenerBuilder::<P>::receiver_latency, (b, latency), r),
    ensures
        r.config.recv_latency == ((latency.secs * 1000 + latency.nanos / 1_000_000) as nat) as u32,
        r.config == (SrtConfig {
            recv_latency: r.config.recv_latency,
            ..b.config
        }),
        r.backlog == b.backlog,
        r.access_control == b.access_control,
{
}

/// The latency of the sending side alone is set, in whole milliseconds and as far as its
/// option can hold them.
pub proof fn law_listener_sender_latency<P>(
    b: SrtListenerBuilder<P>,
    latency: Duration,
    r: SrtListenerBuilder<P>,
)
    requires
        call_ensures(SrtListenerBuilder::<P>::sender_latency, (b, latency), r),
    ensures
        r.config.peer_latency == ((latency.secs * 1000 + latency.nanos / 1_000_000) as nat) as u32,
        r.config == (SrtConfig {
            peer_latency: r.config.peer_latency,
            ..b.config
        }),
        r.backlog == b.backlog,
        r.access_control == b.access_control,
{
}

/// A passphrase and a key size are set together.
pub proof fn law_listener_encryption<P>(
    b: SrtListenerBuilder<P>,
    passphrase: &str,
    key_size: KeySize,
    r: SrtListenerBuilder<P>,
)
    requires
        call_ensures(SrtListenerBuilder::<P>::encryption, (b, passphrase, key_size), r),
    ensures
        r.config.passphrase@ == passphrase@,
        r.config == (SrtConfig {
            passphrase: r.config.passphrase,
            key_size,
            ..b.config
        }),
        r.backlog == b.backlog,
        r.access_control == b.access_control,
{
}

/// `crypto_mode` sets its own field and nothing else.
pub proof fn law_listener_crypto_mode<P>(
    b: SrtListenerBuilder<P>,
    v: CryptoModeConfig,
    r: SrtListenerBuilder<P>,
)
    requires
        call_ensures(SrtListenerBuilder::<P>::crypto_mode, (b, v), r),
    ensures
        r.config == (SrtConfig {
            crypto_mode: v,
            ..b.config
        }),
        r.backlog == b.backlog,
        r.access_control == b.access_control,
{
}

/// `retransmit_algo` sets its own field and nothing else.
pub proof fn law_listener_retransmit_algo<P>(
    b: SrtListenerBuilder<P>,
    v: RetransmitAlgo,
    r: SrtListenerBuilder<P>,
)
    requires
        call_ensures(SrtListenerBuilder::<P>::retransmit_algo, (b, v), r),
    ensures
        r.config == (SrtConfig {
            retransmit_algo: v,
            ..b.config
        }),
        r.backlog == b.backlog,
        r.access_control == b.access_control,
{
}

/// `stream_id` sets its own field and nothing else.
pub proof fn law_listener_stream_id<P>(
    b: SrtListenerBuilder<P>,
    v: String,
    r: SrtListenerBuilder<P>,
)
    requires
        call_ensures(SrtListenerBuilder::<P>::stream_id, (b, v), r),
    ensures
        r.config == (SrtConfig {
            stream_id: v,
            ..b.config
        }),
        r.backlog == b.backlog,
        r.access_control == b.access_control,
{
}

/// `packet_filter` sets its own field and nothing else.
pub proof fn law_listener_packet_filter<P>(
    b: SrtListenerBuilder<P>,
    v: String,
    r: SrtListenerBuilder<P>,
)
    requires
        call_ensures(SrtListenerBuilder::<P>::packet_filter, (b, v), r),
    ensures
        r.config == (SrtConfig {
            packet_filter: v,
            ..b.config
        }),
        r.backlog == b.backlog,
        r.access_control == b.access_control,
{
}

/// The live mode sets what belongs to the mode, and leaves the rest of the
/// configuration alone.
pub proof fn law_listener_live_mode<P>(b: SrtListenerBuilder<P>, r: SrtListenerBuilder<P>)
    requires
        call_ensures(SrtListenerBuilder::<P>::live_mode, (b,), r),
    ensures
        r.config.trans_type == TransType::Live,
        r.config.payload_size == 1316,
        r.config.message_api,
        r.config.tsbpd_mode == true,
        r.config.tlpkt_drop == true,
        r.config.nak_report == true,
        r.config.congestion@ == "live"@,
        same_outside_modes(r.config, b.config),
        r.backlog == b.backlog && r.access_control == b.access_control,
{
}

/// The file mode sets what belongs to the mode, and leaves the rest of the
/// configuration alone.
pub proof fn law_listener_file_mode<P>(b: SrtListenerBuilder<P>, r: SrtListenerBuilder<P>)
    requires
        call_ensures(SrtListenerBuilder::<P>::file_mode, (b,), r),
    ensures
        r.config.trans_type == TransType::File,
        r.config.payload_size == 0,
        r.config.message_api,
        r.config.tsbpd_mode == false,
        r.config.tlpkt_drop == false,
        r.config.nak_report == false,
        r.config.congestion@ == "file"@,
        same_outside_modes(r.config, b.config),
        r.backlog == b.backlog && r.access_control == b.access_control,
{
}

/// `mss` sets its own field and nothing else.
pub proof fn law_group_mss(b: SrtGroupBuilder, v: u32, r: SrtGroupBuilder)
    requires
        call_ensures(SrtGroupBuilder::mss, (b, v), r),
    ensures
        r.config == (SrtConfig {
            mss: v,
            ..b.config
        }),
        r.mode == b.mode,
        r.endpoints == b.endpoints,
{
}

/// `flight_flag_size` sets its own field and nothing else.
pub proof fn law_group_flight_flag_size(b: SrtGroupBuilder, v: u32, r: SrtGroupBuilder)
    requires
        call_ensures(SrtGroupBuilder::flight_flag_size, (b, v), r),
    ensures
        r.config == (SrtConfig {
            flight_flag_size: v,
            ..b.config
        }),
        r.mode == b.mode,
        r.endpoints == b.endpoints,
{
}

/// `send_buffer_size` sets its own field and nothing else.
pub proof fn law_group_send_buffer_size(b: SrtGroupBuilder, v: u32, r: SrtGroupBuilder)
    requires
        call_ensures(SrtGroupBuilder::send_buffer_size, (b, v), r),
    ensures
        r.config == (SrtConfig {
            send_buffer_size: v,
            ..b.config
        }),
        r.mode == b.mode,
        r.endpoints == b.endpoints,
{
}

/// `recv_buffer_size` sets its own field and nothing else.
pub proof fn law_group_recv_buffer_size(b: SrtGroupBuilder, v: u32, r: SrtGroupBuilder)
    requires
        call_ensures(SrtGroupBuilder::recv_buffer_size, (b, v), r),
    ensures
        r.config == (SrtConfig {
            recv_buffer_size: v,
            ..b.config
        }),
        r.mode == b.mode,
        r.endpoints == b.endpoints,
{
}

/// `payload_size` sets its own field and nothing else.
pub proof fn law_group_payload_size(b: SrtGroupBuilder, v: u32, r: SrtGroupBuilder)
    requires
        call_ensures(SrtGroupBuilder::payload_size, (b, v), r),
    ensures
        r.config == (SrtConfig {
            payload_size: v,
            ..b.config
        }),
        r.mode == b.mode,
        r.endpoints == b.endpoints,
{
}

/// `km_refresh_rate` sets its own field and nothing else.
pub proof fn law_group_km_refresh_rate(b: SrtGroupBuilder, v: u32, r: SrtGroupBuilder)
    requires
        call_ensures(SrtGroupBuilder::km_refresh_rate, (b, v), r),
    ensures
        r.config == (SrtConfig {
            km_refresh_rate: v,
            ..b.config
        }),
        r.mode == b.mode,
        r.endpoints == b.endpoints,
{
}

/// `km_pre_announce` sets its own field and nothing else.
pub proof fn law_group_km_pre_announce(b: SrtGroupBuilder, v: u32, r: SrtGroupBuilder)
    requires
        call_ensures(SrtGroupBuilder::km_pre_announce, (b, v), r),
    ensures
        r.config == (SrtConfig {
            km_pre_announce: v,
            ..b.config
        }),
        r.mode == b.mode,
        r.endpoints == b.endpoints,
{
}

/// `max_bw` sets its own field and nothing else.
pub proof fn law_group_max_bw(b: SrtGroupBuilder, v: i64, r: SrtGroupBuilder)
    requires
        call_ensures(SrtGroupBuilder::max_bw, (b, v), r),
    ensures
        r.config == (SrtConfig {
            max_bw: v,
            ..b.config
        }),
        r.mode == b.mode,
        r.endpoints == b.endpoints,
{
}

/// `input_bw` sets its own field and nothing else.
pub proof fn law_group_input_bw(b: SrtGroupBuilder, v: i64, r: SrtGroupBuilder)
    requires
        call_ensures(SrtGroupBuilder::input_bw, (b, v), r),
    ensures
        r.config == (SrtConfig {
            input_bw: v,
            ..b.config
        }),
        r.mode == b.mode,
        r.endpoints == b.endpoints,
{
}

/// `max_rexmit_bw` sets its own field and nothing else.
pub proof fn law_group_max_rexmit_bw(b: SrtGroupBuilder, v: i64, r: SrtGroupBuilder)
    requires
        call_ensures(SrtGroupBuilder::max_rexmit_bw, (b, v), r),
    ensures
        r.config == (SrtConfig {
            max_rexmit_bw: v,
            ..b.config
        }),
        r.mode == b.mode,
        r.endpoints == b.endpoints,
{
}

/// `overhead_bw` sets its own field and nothing else.
pub proof fn law_group_overhead_bw(b: SrtGroupBuilder, v: i32, r: SrtGroupBuilder)
    requires
        call_ensures(SrtGroupBuilder::overhead_bw, (b, v), r),
    ensures
        r.config == (SrtConfig {
            overhead_bw: v,
            ..b.config
        }),
        r.mode == b.mode,
        r.endpoints == b.endpoints,
{
}

/// `ip_tos` sets its own field and nothing else.
pub proof fn law_group_ip_tos(b: SrtGroupBuilder, v: i32, r: SrtGroupBuilder)
    requires
        call_ensures(SrtGroupBuilder::ip_tos, (b, v), r),
    ensures
        r.config == (SrtConfig {
            ip_tos: v,
            ..b.config
        }),
        r.mode == b.mode,
        r.endpoints == b.endpoints,
{
}

/// `ip_ttl` sets its own field and nothing else.
pub proof fn law_group_ip_ttl(b: SrtGroupBuilder, v: i32, r: SrtGroupBuilder)
    requires
        call_ensures(SrtGroupBuilder::ip_ttl, (b, v), r),
    ensures
        r.config == (SrtConfig {
            ip_ttl: v,
            ..b.config
        }),
        r.mode == b.mode,
        r.endpoints == b.endpoints,
{
}

/// `send_drop_delay` sets its own field and nothing else.
pub proof fn law_group_send_drop_delay(b: SrtGroupBuilder, v: i32, r: SrtGroupBuilder)
    requires
        call_ensures(SrtGroupBuilder::send_drop_delay, (b, v), r),
    ensures
        r.config == (SrtConfig {
            send_drop_delay: v,
            ..b.config
        }),
        r.mode == b.mode,
        r.endpoints == b.endpoints,
{
}

/// `loss_max_ttl` sets its own field and nothing else.
pub proof fn law_group_loss_max_ttl(b: SrtGroupBuilder, v: i32, r: SrtGroupBuilder)
    requires
        call_ensures(SrtGroupBuilder::loss_max_ttl, (b, v), r),
    ensures
        r.config == (SrtConfig {
            loss_max_ttl: v,
            ..b.config
        }),
        r.mode == b.mode,
        r.endpoints == b.endpoints,
{
}

/// `enforced_encryption` sets its own field and nothing else.
pub proof fn law_group_enforced_encryption(b: SrtGroupBuilder, v: bool, r: SrtGroupBuilder)
    requires
        call_ensures(SrtGroupBuilder::enforced_encryption, (b, v), r),
    ensures
        r.config == (SrtConfig {
            enforced_encryption: v,
            ..b.config
        }),
        r.mode == b.mode,
        r.endpoints == b.endpoints,
{
}

/// `tlpkt_drop` sets its own field and nothing else.
pub proof fn law_group_tlpkt_drop(b: SrtGroupBuilder, v: bool, r: SrtGroupBuilder)
    requires
        call_ensures(SrtGroupBuilder::tlpkt_drop, (b, v), r),
    ensures
        r.config == (SrtConfig {
            tlpkt_drop: v,
            ..b.config
        }),
        r.mode == b.mode,
        r.endpoints == b.endpoints,
{
}

/// `peer_idle_timeout` sets its own field and nothing else.
pub proof fn law_group_peer_idle_timeout(b: SrtGroupBuilder, v: Duration, r: SrtGroupBuilder)
    requires
        call_ensures(SrtGroupBuilder::peer_idle_timeout, (b, v), r),
    ensures
        r.config == (SrtConfig {
            peer_idle_timeout: v,
            ..b.config
        }),
        r.mode == b.mode,
        r.endpoints == b.endpoints,
{
}

/// `connect_timeout` sets its own field and nothing else.
pub proof fn law_group_connect_timeout(b: SrtGroupBuilder, v: Duration, r: SrtGroupBuilder)
    requires
        call_ensures(SrtGroupBuilder::connect_timeout, (b, v), r),
    ensures
        r.config == (SrtConfig {
            connect_timeout: v,
            ..b.config
        }),
        r.mode == b.mode,
        r.endpoints == b.endpoints,
{
}

/// The latency of both sides is set, in whole milliseconds and as far as its
/// option can hold them.
pub proof fn law_group_latency(b: SrtGroupBuilder, latency: Duration, r: SrtGroupBuilder)
    requires
        call_ensures(SrtGroupBuilder::latency, (b, latency), r),
    ensures
        r.config.recv_latency == ((latency.secs * 1000 + latency.nanos / 1_000_000) as nat) as u32,
        r.config.peer_latency == ((latency.secs * 1000 + latency.nanos / 1_000_000) as nat) as u32,
        r.config == (SrtConfig {
            recv_latency: r.config.recv_latency,
            peer_latency: r.config.peer_latency,
            ..b.config
        }),
        r.mode == b.mode,
        r.endpoints == b.endpoints,
{
}

/// The latency of the receiving side alone is set, in whole milliseconds and as far as its
/// option can hold them.
pub proof fn law_group_receiver_latency(b: SrtGroupBuilder, latency: Duration, r: SrtGroupBuilder)
    requires
        call_ensures(SrtGroupBuilder::receiver_latency, (b, latency), r),
    ensures
        r.config.recv_latency == ((latency.secs * 1000 + latency.nanos / 1_000_000) as nat) as u32,
        r.config == (SrtConfig {
            recv_latency: r.config.recv_latency,
            ..b.config
        }),
        r.mode == b.mode,
        r.endpoints == b.endpoints,
{
}

/// The latency of the sending side alone is set, in whole milliseconds and as far as its
/// option can hold them.
pub proof fn law_group_sender_latency(b: SrtGroupBuilder, latency: Duration, r: SrtGroupBuilder)
    requires
        call_ensures(SrtGroupBuilder::sender_latency, (b, latency), r),
    ensures
        r.config.peer_latency == ((latency.secs * 1000 + latency.nanos / 1_000_000) as nat) as u32,
        r.config == (SrtConfig {
            peer_latency: r.config.peer_latency,
            ..b.config
        }),
        r.mode == b.mode,
        r.endpoints == b.endpoints,
{
}

/// A passphrase and a key size are set together.
pub proof fn law_group_encryption(
    b: SrtGroupBuilder,
    passphrase: &str,
    key_size: KeySize,
    r: SrtGroupBuilder,
)
    requires
        call_ensures(SrtGroupBuilder::encryption, (b, passphrase, key_size), r),
    ensures
        r.config.passphrase@ == passphrase@,
        r.config == (SrtConfig {
            passphrase: r.config.passphrase,
            key_size,
            ..b.config
        }),
        r.mode == b.mode,
        r.endpoints == b.endpoints,
{
}

/// `crypto_mode` sets its own field and nothing else.
pub proof fn law_group_crypto_mode(b: SrtGroupBuilder, v: CryptoModeConfig, r: SrtGroupBuilder)
    requires
        call_ensures(SrtGroupBuilder::crypto_mode, (b, v), r),
    ensures
        r.config == (SrtConfig {
            crypto_mode: v,
            ..b.config
        }),
        r.mode == b.mode,
        r.endpoints == b.endpoints,
{
}

/// `retransmit_algo` sets its own field and nothing else.
pub proof fn law_group_retransmit_algo(b: SrtGroupBuilder, v: RetransmitAlgo, r: SrtGroupBuilder)
    requires
        call_ensures(SrtGroupBuilder::retransmit_algo, (b, v), r),
    ensures
        r.config == (SrtConfig {
            retransmit_algo: v,
            ..b.config
        }),
        r.mode == b.mode,
        r.endpoints == b.endpoints,
{
}

/// `stream_id` sets its own field and nothing else.
pub proof fn law_group_stream_id(b: SrtGroupBuilder, v: String, r: SrtGroupBuilder)
    requires
        call_ensures(SrtGroupBuilder::stream_id, (b, v), r),
    ensures
        r.config == (SrtConfig {
            stream_id: v,
            ..b.config
        }),
        r.mode == b.mode,
        r.endpoints == b.endpoints,
{
}

/// `packet_filter` sets its own field and nothing else.
pub proof fn law_group_packet_filter(b: SrtGroupBuilder, v: String, r: SrtGroupBuilder)
    requires
        call_ensures(SrtGroupBuilder::packet_filter, (b, v), r),
    ensures
        r.config == (SrtConfig {
            packet_filter: v,
            ..b.config
        }),
        r.mode == b.mode,
        r.endpoints == b.endpoints,
{
}

/// The live mode sets what belongs to the mode, and leaves the rest of the
/// configuration alone.
pub proof fn law_group_live_mode(b: SrtGroupBuilder, r: SrtGroupBuilder)
    requires
        call_ensures(SrtGroupBuilder::live_mode, (b,), r),
    ensures
        r.config.trans_type == TransType::Live,
        r.config.payload_size == 1316,
        r.config.message_api,
        r.config.tsbpd_mode == true,
        r.config.tlpkt_drop == true,
        r.config.nak_report == true,
        r.config.congestion@ == "live"@,
        same_outside_modes(r.config, b.config),
        r.mode == b.mode && r.endpoints == b.endpoints,
{
}

/// The remaining setters: a local address, a backlog, a policy, an endpoint.
pub proof fn law_other_setters<P, Q: AccessControl>(
    socket: SrtSocketBuilder,
    bound: SrtSocketBuilder,
    listener: SrtListenerBuilder<P>,
    n: i32,
    waiting: SrtListenerBuilder<P>,
    policy: Q,
    guarded: SrtListenerBuilder<Q>,
    group: SrtGroupBuilder,
    longer: SrtGroupBuilder,
    addr: SocketAddr,
)
    ensures
        call_ensures(SrtSocketBuilder::bind, (socket, addr), bound) ==> bound.bind_addr == Some(
            addr,
        ) && bound.config@ == socket.config@,
        call_ensures(SrtListenerBuilder::<P>::backlog, (listener, n), waiting) ==> waiting.backlog
            == n && waiting.config@ == listener.config@ && waiting.access_control
            == listener.access_control,
        call_ensures(
            SrtListenerBuilder::<P>::access_control::<Q>,
            (listener, policy),
            guarded,
        ) ==> guarded.access_control == Some(policy) && guarded.config@ == listener.config@
            && guarded.backlog == listener.backlog,
        call_ensures(SrtGroupBuilder::add_endpoint, (group, addr), longer) ==> longer.endpoints@
            == group.endpoints@.push(addr) && longer.mode == group.mode && longer.config@
            == group.config@,
{
}

/// A policy given by a closure is kept as it is.
pub proof fn law_policy_by_closure<P, F>(
    listener: SrtListenerBuilder<P>,
    f: F,
    guarded: SrtListenerBuilder<AccessControlFn<F>>,
) where F: Fn(&HandshakeInfo) -> Result<(), RejectReason> + Send + Sync + 'static
    requires
        call_ensures(SrtListenerBuilder::<P>::access_control_fn::<F>, (listener, f), guarded),
    ensures
        guarded.access_control == Some(AccessControlFn(f)),
        guarded.config@ == listener.config@,
        guarded.backlog == listener.backlog,
{
}

/// Builders begin with the default configuration and nothing else set.
pub proof fn law_builders_begin_empty(
    socket: SrtSocketBuilder,
    listener: SrtListenerBuilder<AcceptAll>,
    mode: GroupMode,
    group: SrtGroupBuilder,
    config: SrtConfig,
)
    requires
        call_ensures(SrtConfig::default, (), config),
    ensures
        call_ensures(SrtSocketBuilder::new, (), socket) ==> socket.bind_addr is None
            && socket.config@ == config@,
        call_ensures(SrtSocket::builder, (), socket) ==> socket.bind_addr is None && socket.config@
            == config@,
        call_ensures(SrtListenerBuilder::<AcceptAll>::new, (), listener) ==> listener.backlog == 5
            && listener.access_control is None && listener.config@ == config@,
        call_ensures(SrtListener::builder, (), listener) ==> listener.backlog == 5
            && listener.access_control is None && listener.config@ == config@,
        call_ensures(SrtGroupBuilder::new, (mode,), group) ==> group.mode == mode
            && group.endpoints@.len() == 0 && group.config@ == config@,
        call_ensures(SrtGroup::builder, (mode,), group) ==> group.mode == mode
            && group.endpoints@.len() == 0 && group.config@ == config@,
{
}

} // verus!
