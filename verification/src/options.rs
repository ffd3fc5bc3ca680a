//! The socket options that a configuration asks for.

use vstd::prelude::*;

use crate::config::{
    ConfigView, CryptoModeConfig, KeySize, RetransmitAlgo, SrtConfig, TransType,
};
use crate::duration::Duration;
use crate::text;

verus! {

/// A socket option of libsrt.
#[derive(Debug, Clone, Copy, PartialEq, Eq, Structural)]
pub enum SocketOption {
    /// `SRTO_RCVSYN`
    RcvSyn,
    /// `SRTO_SNDSYN`
    SndSyn,
    /// `SRTO_TRANSTYPE`
    TransType,
    /// `SRTO_RCVLATENCY`
    RcvLatency,
    /// `SRTO_PEERLATENCY`
    PeerLatency,
    /// `SRTO_MSS`
    Mss,
    /// `SRTO_FC`
    FlightFlagSize,
    /// `SRTO_SNDBUF`
    SndBuf,
    /// `SRTO_RCVBUF`
    RcvBuf,
    /// `SRTO_PEERIDLETIMEO`
    PeerIdleTimeo,
    /// `SRTO_CONNTIMEO`
    ConnTimeo,
    /// `SRTO_PAYLOADSIZE`
    PayloadSize,
    /// `SRTO_PASSPHRASE`
    Passphrase,
    /// `SRTO_PBKEYLEN`
    PbKeyLen,
    /// `SRTO_CRYPTOMODE`
    CryptoMode,
    /// `SRTO_ENFORCEDENCRYPTION`
    EnforcedEncryption,
    /// `SRTO_MAXBW`
    MaxBw,
    /// `SRTO_INPUTBW`
    InputBw,
    /// `SRTO_OHEADBW`
    OheadBw,
    /// `SRTO_MAXREXMITBW`
    MaxRexmitBw,
    /// `SRTO_STREAMID`
    StreamId,
    /// `SRTO_PACKETFILTER`
    PacketFilter,
    /// `SRTO_IPTOS`
    IpTos,
    /// `SRTO_IPTTL`
    IpTtl,
    /// `SRTO_RETRANSMITALGO`
    RetransmitAlgo,
    /// `SRTO_SNDDROPDELAY`
    SndDropDelay,
    /// `SRTO_LOSSMAXTTL`
    LossMaxTtl,
    /// `SRTO_KMREFRESHRATE`
    KmRefreshRate,
    /// `SRTO_KMPREANNOUNCE`
    KmPreAnnounce,
    /// `SRTO_TLPKTDROP`
    TlPktDrop,
    /// `SRTO_RENDEZVOUS`
    Rendezvous,
    /// `SRTO_GROUPCONNECT`
    GroupConnect,
}

/// The value that an option is set to.
#[derive(Debug, Clone, PartialEq, Eq)]
pub enum OptionValue {
    Int(i32),
    Long(i64),
    Text(String),
}

/// One option and its value.
#[derive(Debug, Clone, PartialEq, Eq)]
pub struct OptionSetting {
    pub option: SocketOption,
    pub value: OptionValue,
}

/// The value that an option is set to, with strings as text.
pub enum OptionValueView {
    Int(i32),
    Long(i64),
    Text(Seq<char>),
}

/// One option and its value, with strings as text.
pub struct SettingView {
    pub option: SocketOption,
    pub value: OptionValueView,
}

impl View for OptionSetting {
    type V = SettingView;

    open spec fn view(&self) -> SettingView {
        SettingView {
            option: self.option,
            value: match self.value {
                OptionValue::Int(v) => OptionValueView::Int(v),
                OptionValue::Long(v) => OptionValueView::Long(v),
                OptionValue::Text(v) => OptionValueView::Text(v@),
            },
        }
    }
}

/// A list of settings, with strings as text.
pub open spec fn settings(list: Seq<OptionSetting>) -> Seq<SettingView> {
    Seq::new(list.len(), |i: int| list[i]@)
}

/// Transmission type of live streaming.
pub const SRTT_LIVE: i32 = 0;

/// Transmission type of file transfer.
pub const SRTT_FILE: i32 = 1;

/// Cipher mode number of AES-GCM.
pub const CRYPTO_MODE_AES_GCM: i32 = 2;

/// The number that stands for a flag.
pub open spec fn flag_number(flag: bool) -> i32 {
    if flag {
        1
    } else {
        0
    }
}

/// A span of time as the millisecond options take it.
pub open spec fn millis_option(d: Duration) -> i32 {
    d.millis() as i32
}

/// Whether libsrt can be given a text: one that is not empty and holds no NUL,
/// which would end it early.
pub open spec fn can_be_set(t: Seq<char>) -> bool {
    t.len() > 0 && !t.contains('\0')
}

/// One row of the option table: whether the option is set at all, and to what.
pub struct Row {
    pub wanted: bool,
    pub setting: SettingView,
}

/// A row for an integer option.
pub open spec fn int_row(wanted: bool, option: SocketOption, v: i32) -> Row {
    Row { wanted, setting: SettingView { option, value: OptionValueView::Int(v) } }
}

/// A row for a 64-bit option.
pub open spec fn long_row(wanted: bool, option: SocketOption, v: i64) -> Row {
    Row { wanted, setting: SettingView { option, value: OptionValueView::Long(v) } }
}

/// A row for a text option.
pub open spec fn text_row(wanted: bool, option: SocketOption, v: Seq<char>) -> Row {
    Row { wanted, setting: SettingView { option, value: OptionValueView::Text(v) } }
}

/// The settings of the wanted rows, in order.
#[verifier::opaque]
pub open spec fn wanted_settings(rows: Seq<Row>) -> Seq<SettingView>
    decreases rows.len(),
{
    if rows.len() == 0 {
        Seq::empty()
    } else if rows.last().wanted {
        wanted_settings(rows.drop_last()).push(rows.last().setting)
    } else {
        wanted_settings(rows.drop_last())
    }
}

/// What a configuration asks of the transport options.
pub open spec fn transport_rows(c: ConfigView) -> Seq<Row> {
    seq![
        int_row(true, SocketOption::TransType, if c.trans_type == TransType::Live { SRTT_LIVE } else { SRTT_FILE }),
        int_row(c.recv_latency > 0, SocketOption::RcvLatency, c.recv_latency as i32),
        int_row(c.peer_latency > 0, SocketOption::PeerLatency, c.peer_latency as i32),
        int_row(c.mss != 1500, SocketOption::Mss, c.mss as i32),
        int_row(c.flight_flag_size != 25600, SocketOption::FlightFlagSize, c.flight_flag_size as i32),
        int_row(c.send_buffer_size != 10_780_672, SocketOption::SndBuf, c.send_buffer_size as i32),
        int_row(c.recv_buffer_size != 10_780_672, SocketOption::RcvBuf, c.recv_buffer_size as i32),
    ]
}

/// What a configuration asks of the timeouts and the payload size.
pub open spec fn timing_rows(c: ConfigView) -> Seq<Row> {
    seq![
        int_row(millis_option(c.peer_idle_timeout) > 0, SocketOption::PeerIdleTimeo, millis_option(c.peer_idle_timeout)),
        int_row(millis_option(c.connect_timeout) > 0, SocketOption::ConnTimeo, millis_option(c.connect_timeout)),
        int_row(c.payload_size > 0, SocketOption::PayloadSize, c.payload_size as i32),
    ]
}

/// What a configuration asks of the encryption options.
pub open spec fn encryption_rows(c: ConfigView) -> Seq<Row> {
    seq![
        text_row(can_be_set(c.passphrase), SocketOption::Passphrase, c.passphrase),
        int_row(c.passphrase.len() > 0, SocketOption::PbKeyLen, c.key_size.byte_count() as i32),
        int_row(c.passphrase.len() > 0 && c.crypto_mode == CryptoModeConfig::AesGcm, SocketOption::CryptoMode, CRYPTO_MODE_AES_GCM),
        int_row(true, SocketOption::EnforcedEncryption, flag_number(c.enforced_encryption)),
    ]
}

/// What a configuration asks of the bandwidth options.
pub open spec fn bandwidth_rows(c: ConfigView) -> Seq<Row> {
    seq![
        long_row(c.max_bw >= 0, SocketOption::MaxBw, c.max_bw),
        long_row(c.input_bw > 0, SocketOption::InputBw, c.input_bw),
        int_row(c.overhead_bw != 25, SocketOption::OheadBw, c.overhead_bw),
        long_row(c.max_rexmit_bw != -1, SocketOption::MaxRexmitBw, c.max_rexmit_bw),
    ]
}

/// What a configuration asks of the Stream ID, the packet filter and the IP options.
pub open spec fn address_rows(c: ConfigView) -> Seq<Row> {
    seq![
        text_row(can_be_set(c.stream_id), SocketOption::StreamId, c.stream_id),
        text_row(can_be_set(c.packet_filter), SocketOption::PacketFilter, c.packet_filter),
        int_row(c.ip_tos != 0, SocketOption::IpTos, c.ip_tos),
        int_row(c.ip_ttl != 64, SocketOption::IpTtl, c.ip_ttl),
    ]
}

/// What a configuration asks of the options on retransmission and key refresh.
pub open spec fn recovery_rows(c: ConfigView) -> Seq<Row> {
    seq![
        int_row(c.retransmit_algo == RetransmitAlgo::Reduced, SocketOption::RetransmitAlgo, 1),
        int_row(c.send_drop_delay != -1, SocketOption::SndDropDelay, c.send_drop_delay),
        int_row(c.loss_max_ttl > 0, SocketOption::LossMaxTtl, c.loss_max_ttl),
        int_row(c.km_refresh_rate != 0x0100_0000, SocketOption::KmRefreshRate, c.km_refresh_rate as i32),
        int_row(c.km_pre_announce != 0x1000, SocketOption::KmPreAnnounce, c.km_pre_announce as i32),
    ]
}

/// What a configuration asks of the remaining mode flags.
pub open spec fn mode_rows(c: ConfigView) -> Seq<Row> {
    seq![
        int_row(true, SocketOption::TlPktDrop, flag_number(c.tlpkt_drop)),
        int_row(c.rendezvous, SocketOption::Rendezvous, flag_number(true)),
        int_row(c.group_connect, SocketOption::GroupConnect, flag_number(true)),
    ]
}

/// What a configuration asks of each option, in the order in which the options
/// are set. Most are set only where the configuration departs from what libsrt
/// does by itself.
pub open spec fn option_table(c: ConfigView) -> Seq<Row> {
    transport_rows(c) + timing_rows(c) + encryption_rows(c) + bandwidth_rows(c) + address_rows(c) + recovery_rows(c) + mode_rows(c)
}

/// Adds an integer option to the list, where it is wanted.
fn set_i32_opt(
    list: &mut Vec<OptionSetting>,
    wanted: bool,
    option: SocketOption,
    val: i32,
    Ghost(rows): Ghost<Seq<Row>>,
)
    requires
        settings(old(list)@) == wanted_settings(rows),
    ensures
        settings(final(list)@) == wanted_settings(rows.push(int_row(wanted, option, val))),
{
    reveal(wanted_settings);
    let ghost row = int_row(wanted, option, val);
    assert(rows.push(row).drop_last() =~= rows);
    if wanted {
        list.push(OptionSetting { option, value: OptionValue::Int(val) });
        assert(settings(list@) =~= settings(old(list)@).push(row.setting));
    }
}

/// Adds a 64-bit option to the list, where it is wanted.
fn set_i64_opt(
    list: &mut Vec<OptionSetting>,
    wanted: bool,
    option: SocketOption,
    val: i64,
    Ghost(rows): Ghost<Seq<Row>>,
)
    requires
        settings(old(list)@) == wanted_settings(rows),
    ensures
        settings(final(list)@) == wanted_settings(rows.push(long_row(wanted, option, val))),
{
    reveal(wanted_settings);
    let ghost row = long_row(wanted, option, val);
    assert(rows.push(row).drop_last() =~= rows);
    if wanted {
        list.push(OptionSetting { option, value: OptionValue::Long(val) });
        assert(settings(list@) =~= settings(old(list)@).push(row.setting));
    }
}

/// Adds a flag option to the list, where it is wanted.
fn set_bool_opt(
    list: &mut Vec<OptionSetting>,
    wanted: bool,
    option: SocketOption,
    val: bool,
    Ghost(rows): Ghost<Seq<Row>>,
)
    requires
        settings(old(list)@) == wanted_settings(rows),
    ensures
        settings(final(list)@) == wanted_settings(
            rows.push(int_row(wanted, option, flag_number(val))),
        ),
{
    let v: i32 = if val {
        1
    } else {
        0
    };
    set_i32_opt(list, wanted, option, v, Ghost(rows));
}

/// Adds a text option to the list, where libsrt can be given the text.
fn set_str_opt(
    list: &mut Vec<OptionSetting>,
    option: SocketOption,
    val: &String,
    Ghost(rows): Ghost<Seq<Row>>,
)
    requires
        settings(old(list)@) == wanted_settings(rows),
    ensures
        settings(final(list)@) == wanted_settings(
            rows.push(text_row(can_be_set(val@), option, val@)),
        ),
{
    reveal(wanted_settings);
    let ghost row = text_row(can_be_set(val@), option, val@);
    assert(rows.push(row).drop_last() =~= rows);
    let chars = text::chars_of(val.as_str());
    let nul: usize = text::find(chars.as_slice(), '\0');
    proof {
        text::lemma_first_index(val@, '\0');
    }
    if chars.len() > 0 && nul == chars.len() {
        assert(can_be_set(val@));
        list.push(OptionSetting { option, value: OptionValue::Text(val.clone()) });
        assert(settings(list@) =~= settings(old(list)@).push(row.setting));
    } else {
        assert(!can_be_set(val@)) by {
            if chars.len() > 0 {
                assert(val@[nul as int] == '\0');
            }
        }
    }
}

/// Adds the transport options to the list.
fn apply_transport(list: &mut Vec<OptionSetting>, config: &SrtConfig, Ghost(rows): Ghost<Seq<Row>>)
    requires
        settings(old(list)@) == wanted_settings(rows),
    ensures
        settings(final(list)@) == wanted_settings(rows + transport_rows(config@)),
{
    let ghost mut done = rows;
    let trans_type: i32 = match config.trans_type {
        TransType::Live => SRTT_LIVE,
        TransType::File => SRTT_FILE,
    };
    set_i32_opt(list, true, SocketOption::TransType, trans_type, Ghost(done));
    proof {
        done = done.push(int_row(true, SocketOption::TransType, if config@.trans_type == TransType::Live { SRTT_LIVE } else { SRTT_FILE }));
    }
    set_i32_opt(list, config.recv_latency > 0, SocketOption::RcvLatency, config.recv_latency as i32, Ghost(done));
    proof {
        done = done.push(int_row(config@.recv_latency > 0, SocketOption::RcvLatency, config@.recv_latency as i32));
    }
    set_i32_opt(list, config.peer_latency > 0, SocketOption::PeerLatency, config.peer_latency as i32, Ghost(done));
    proof {
        done = done.push(int_row(config@.peer_latency > 0, SocketOption::PeerLatency, config@.peer_latency as i32));
    }
    set_i32_opt(list, config.mss != 1500, SocketOption::Mss, config.mss as i32, Ghost(done));
    proof {
        done = done.push(int_row(config@.mss != 1500, SocketOption::Mss, config@.mss as i32));
    }
    set_i32_opt(list, config.flight_flag_size != 25600, SocketOption::FlightFlagSize, config.flight_flag_size as i32, Ghost(done));
    proof {
        done = done.push(int_row(config@.flight_flag_size != 25600, SocketOption::FlightFlagSize, config@.flight_flag_size as i32));
    }
    set_i32_opt(list, config.send_buffer_size != 10_780_672, SocketOption::SndBuf, config.send_buffer_size as i32, Ghost(done));
    proof {
        done = done.push(int_row(config@.send_buffer_size != 10_780_672, SocketOption::SndBuf, config@.send_buffer_size as i32));
    }
    set_i32_opt(list, config.recv_buffer_size != 10_780_672, SocketOption::RcvBuf, config.recv_buffer_size as i32, Ghost(done));
    proof {
        done = done.push(int_row(config@.recv_buffer_size != 10_780_672, SocketOption::RcvBuf, config@.recv_buffer_size as i32));
    }
    assert(done =~= rows + transport_rows(config@));
}

/// Adds the timeouts and the payload size to the list.
fn apply_timing(list: &mut Vec<OptionSetting>, config: &SrtConfig, Ghost(rows): Ghost<Seq<Row>>)
    requires
        settings(old(list)@) == wanted_settings(rows),
    ensures
        settings(final(list)@) == wanted_settings(rows + timing_rows(config@)),
{
    let ghost mut done = rows;
    let peer_idle_ms: i32 = config.peer_idle_timeout.as_millis() as i32;
    let conn_timeout_ms: i32 = config.connect_timeout.as_millis() as i32;
    set_i32_opt(list, peer_idle_ms > 0, SocketOption::PeerIdleTimeo, peer_idle_ms, Ghost(done));
    proof {
        done = done.push(int_row(millis_option(config@.peer_idle_timeout) > 0, SocketOption::PeerIdleTimeo, millis_option(config@.peer_idle_timeout)));
    }
    set_i32_opt(list, conn_timeout_ms > 0, SocketOption::ConnTimeo, conn_timeout_ms, Ghost(done));
    proof {
        done = done.push(int_row(millis_option(config@.connect_timeout) > 0, SocketOption::ConnTimeo, millis_option(config@.connect_timeout)));
    }
    set_i32_opt(list, config.payload_size > 0, SocketOption::PayloadSize, config.payload_size as i32, Ghost(done));
    proof {
        done = done.push(int_row(config@.payload_size > 0, SocketOption::PayloadSize, config@.payload_size as i32));
    }
    assert(done =~= rows + timing_rows(config@));
}

/// Adds the encryption options to the list.
fn apply_encryption(list: &mut Vec<OptionSetting>, config: &SrtConfig, Ghost(rows): Ghost<Seq<Row>>)
    requires
        settings(old(list)@) == wanted_settings(rows),
    ensures
        settings(final(list)@) == wanted_settings(rows + encryption_rows(config@)),
{
    let ghost mut done = rows;
    let encrypted = config.encryption_enabled();
    set_str_opt(list, SocketOption::Passphrase, &config.passphrase, Ghost(done));
    proof {
        done = done.push(text_row(can_be_set(config@.passphrase), SocketOption::Passphrase, config@.passphrase));
    }
    set_i32_opt(list, encrypted, SocketOption::PbKeyLen, config.key_size.to_bytes() as i32, Ghost(done));
    proof {
        done = done.push(int_row(config@.passphrase.len() > 0, SocketOption::PbKeyLen, config@.key_size.byte_count() as i32));
    }
    set_i32_opt(list, encrypted && config.crypto_mode == CryptoModeConfig::AesGcm, SocketOption::CryptoMode, CRYPTO_MODE_AES_GCM, Ghost(done));
    proof {
        done = done.push(int_row(config@.passphrase.len() > 0 && config@.crypto_mode == CryptoModeConfig::AesGcm, SocketOption::CryptoMode, CRYPTO_MODE_AES_GCM));
    }
    set_bool_opt(list, true, SocketOption::EnforcedEncryption, config.enforced_encryption, Ghost(done));
    proof {
        done = done.push(int_row(true, SocketOption::EnforcedEncryption, flag_number(config@.enforced_encryption)));
    }
    assert(done =~= rows + encryption_rows(config@));
}

/// Adds the bandwidth options to the list.
fn apply_bandwidth(list: &mut Vec<OptionSetting>, config: &SrtConfig, Ghost(rows): Ghost<Seq<Row>>)
    requires
        settings(old(list)@) == wanted_settings(rows),
    ensures
        settings(final(list)@) == wanted_settings(rows + bandwidth_rows(config@)),
{
    let ghost mut done = rows;
    set_i64_opt(list, config.max_bw >= 0, SocketOption::MaxBw, config.max_bw, Ghost(done));
    proof {
        done = done.push(long_row(config@.max_bw >= 0, SocketOption::MaxBw, config@.max_bw));
    }
    set_i64_opt(list, config.input_bw > 0, SocketOption::InputBw, config.input_bw, Ghost(done));
    proof {
        done = done.push(long_row(config@.input_bw > 0, SocketOption::InputBw, config@.input_bw));
    }
    set_i32_opt(list, config.overhead_bw != 25, SocketOption::OheadBw, config.overhead_bw, Ghost(done));
    proof {
        done = done.push(int_row(config@.overhead_bw != 25, SocketOption::OheadBw, config@.overhead_bw));
    }
    set_i64_opt(list, config.max_rexmit_bw != -1, SocketOption::MaxRexmitBw, config.max_rexmit_bw, Ghost(done));
    proof {
        done = done.push(long_row(config@.max_rexmit_bw != -1, SocketOption::MaxRexmitBw, config@.max_rexmit_bw));
    }
    assert(done =~= rows + bandwidth_rows(config@));
}

/// Adds the Stream ID, the packet filter and the IP options to the list.
fn apply_addressing(list: &mut Vec<OptionSetting>, config: &SrtConfig, Ghost(rows): Ghost<Seq<Row>>)
    requires
        settings(old(list)@) == wanted_settings(rows),
    ensures
        settings(final(list)@) == wanted_settings(rows + address_rows(config@)),
{
    let ghost mut done = rows;
    set_str_opt(list, SocketOption::StreamId, &config.stream_id, Ghost(done));
    proof {
        done = done.push(text_row(can_be_set(config@.stream_id), SocketOption::StreamId, config@.stream_id));
    }
    set_str_opt(list, SocketOption::PacketFilter, &config.packet_filter, Ghost(done));
    proof {
        done = done.push(text_row(can_be_set(config@.packet_filter), SocketOption::PacketFilter, config@.packet_filter));
    }
    set_i32_opt(list, config.ip_tos != 0, SocketOption::IpTos, config.ip_tos, Ghost(done));
    proof {
        done = done.push(int_row(config@.ip_tos != 0, SocketOption::IpTos, config@.ip_tos));
    }
    set_i32_opt(list, config.ip_ttl != 64, SocketOption::IpTtl, config.ip_ttl, Ghost(done));
    proof {
        done = done.push(int_row(config@.ip_ttl != 64, SocketOption::IpTtl, config@.ip_ttl));
    }
    assert(done =~= rows + address_rows(config@));
}

/// Adds the options on retransmission and key refresh to the list.
fn apply_recovery(list: &mut Vec<OptionSetting>, config: &SrtConfig, Ghost(rows): Ghost<Seq<Row>>)
    requires
        settings(old(list)@) == wanted_settings(rows),
    ensures
        settings(final(list)@) == wanted_settings(rows + recovery_rows(config@)),
{
    let ghost mut done = rows;
    set_i32_opt(list, config.retransmit_algo == RetransmitAlgo::Reduced, SocketOption::RetransmitAlgo, 1, Ghost(done));
    proof {
        done = done.push(int_row(config@.retransmit_algo == RetransmitAlgo::Reduced, SocketOption::RetransmitAlgo, 1));
    }
    set_i32_opt(list, config.send_drop_delay != -1, SocketOption::SndDropDelay, config.send_drop_delay, Ghost(done));
    proof {
        done = done.push(int_row(config@.send_drop_delay != -1, SocketOption::SndDropDelay, config@.send_drop_delay));
    }
    set_i32_opt(list, config.loss_max_ttl > 0, SocketOption::LossMaxTtl, config.loss_max_ttl, Ghost(done));
    proof {
        done = done.push(int_row(config@.loss_max_ttl > 0, SocketOption::LossMaxTtl, config@.loss_max_ttl));
    }
    set_i32_opt(list, config.km_refresh_rate != 0x0100_0000, SocketOption::KmRefreshRate, config.km_refresh_rate as i32, Ghost(done));
    proof {
        done = done.push(int_row(config@.km_refresh_rate != 0x0100_0000, SocketOption::KmRefreshRate, config@.km_refresh_rate as i32));
    }
    set_i32_opt(list, config.km_pre_announce != 0x1000, SocketOption::KmPreAnnounce, config.km_pre_announce as i32, Ghost(done));
    proof {
        done = done.push(int_row(config@.km_pre_announce != 0x1000, SocketOption::KmPreAnnounce, config@.km_pre_announce as i32));
    }
    assert(done =~= rows + recovery_rows(config@));
}

/// Adds the remaining mode flags to the list.
fn apply_modes(list: &mut Vec<OptionSetting>, config: &SrtConfig, Ghost(rows): Ghost<Seq<Row>>)
    requires
        settings(old(list)@) == wanted_settings(rows),
    ensures
        settings(final(list)@) == wanted_settings(rows + mode_rows(config@)),
{
    let ghost mut done = rows;
    set_bool_opt(list, true, SocketOption::TlPktDrop, config.tlpkt_drop, Ghost(done));
    proof {
        done = done.push(int_row(true, SocketOption::TlPktDrop, flag_number(config@.tlpkt_drop)));
    }
    set_bool_opt(list, config.rendezvous, SocketOption::Rendezvous, true, Ghost(done));
    proof {
        done = done.push(int_row(config@.rendezvous, SocketOption::Rendezvous, flag_number(true)));
    }
    set_bool_opt(list, config.group_connect, SocketOption::GroupConnect, true, Ghost(done));
    proof {
        done = done.push(int_row(config@.group_connect, SocketOption::GroupConnect, flag_number(true)));
    }
    assert(done =~= rows + mode_rows(config@));
}

/// The settings that a configuration asks for.
pub fn apply_config(config: &SrtConfig) -> (list: Vec<OptionSetting>)
    ensures
        settings(list@) == wanted_settings(option_table(config@)),
{
    let mut list: Vec<OptionSetting> = Vec::new();
    let ghost mut rows: Seq<Row> = Seq::empty();
    assert(settings(list@) =~= wanted_settings(rows)) by {
        reveal(wanted_settings);
    }
    apply_transport(&mut list, config, Ghost(rows));
    proof {
        rows = rows + transport_rows(config@);
        assert(rows =~= transport_rows(config@));
    }
    apply_timing(&mut list, config, Ghost(rows));
    proof {
        rows = rows + timing_rows(config@);
    }
    apply_encryption(&mut list, config, Ghost(rows));
    proof {
        rows = rows + encryption_rows(config@);
    }
    apply_bandwidth(&mut list, config, Ghost(rows));
    proof {
        rows = rows + bandwidth_rows(config@);
    }
    apply_addressing(&mut list, config, Ghost(rows));
    proof {
        rows = rows + address_rows(config@);
    }
    apply_recovery(&mut list, config, Ghost(rows));
    proof {
        rows = rows + recovery_rows(config@);
    }
    apply_modes(&mut list, config, Ghost(rows));
    proof {
        rows = rows + mode_rows(config@);
    }
    list
}

/// Where an option stands in the table; those that are not in it come first.
pub open spec fn position(option: SocketOption) -> int {
    match option {
        SocketOption::TransType => 0,
        SocketOption::RcvLatency => 1,
        SocketOption::PeerLatency => 2,
        SocketOption::Mss => 3,
        SocketOption::FlightFlagSize => 4,
        SocketOption::SndBuf => 5,
        SocketOption::RcvBuf => 6,
        SocketOption::PeerIdleTimeo => 7,
        SocketOption::ConnTimeo => 8,
        SocketOption::PayloadSize => 9,
        SocketOption::Passphrase => 10,
        SocketOption::PbKeyLen => 11,
        SocketOption::CryptoMode => 12,
        SocketOption::EnforcedEncryption => 13,
        SocketOption::MaxBw => 14,
        SocketOption::InputBw => 15,
        SocketOption::OheadBw => 16,
        SocketOption::MaxRexmitBw => 17,
        SocketOption::StreamId => 18,
        SocketOption::PacketFilter => 19,
        SocketOption::IpTos => 20,
        SocketOption::IpTtl => 21,
        SocketOption::RetransmitAlgo => 22,
        SocketOption::SndDropDelay => 23,
        SocketOption::LossMaxTtl => 24,
        SocketOption::KmRefreshRate => 25,
        SocketOption::KmPreAnnounce => 26,
        SocketOption::TlPktDrop => 27,
        SocketOption::Rendezvous => 28,
        SocketOption::GroupConnect => 29,
        SocketOption::RcvSyn => -1,
        SocketOption::SndSyn => -2,
    }
}

/// No option is set twice.
pub proof fn law_no_option_is_set_twice(c: ConfigView)
    ensures
        forall|i: int, j: int|
            0 <= i < j < wanted_settings(option_table(c)).len() ==> wanted_settings(
                option_table(c),
            )[i].option != wanted_settings(option_table(c))[j].option,
{
    lemma_positions(c);
    lemma_order_is_kept(option_table(c));
}

/// Without a passphrase no key length and no cipher is set: nothing but the
/// demand for encryption itself speaks of encryption.
pub proof fn law_no_passphrase_no_key(c: ConfigView, i: int)
    requires
        c.passphrase.len() == 0,
        0 <= i < wanted_settings(option_table(c)).len(),
    ensures
        wanted_settings(option_table(c))[i].option != SocketOption::Passphrase,
        wanted_settings(option_table(c))[i].option != SocketOption::PbKeyLen,
        wanted_settings(option_table(c))[i].option != SocketOption::CryptoMode,
{
    lemma_positions(c);
    lemma_setting_has_row(option_table(c), i);
    let k = choose|k: int|
        0 <= k < option_table(c).len() && (#[trigger] option_table(c)[k]).wanted
            && option_table(c)[k].setting == wanted_settings(option_table(c))[i];
    lemma_encryption_rows(c);
    assert(position(option_table(c)[k].setting.option) == k);
}

/// No configuration says anything of whether calls block.
pub proof fn law_configuration_does_not_block(c: ConfigView, i: int)
    requires
        0 <= i < wanted_settings(option_table(c)).len(),
    ensures
        wanted_settings(option_table(c))[i].option != SocketOption::RcvSyn,
        wanted_settings(option_table(c))[i].option != SocketOption::SndSyn,
{
    lemma_positions(c);
    lemma_setting_has_row(option_table(c), i);
    let k = choose|k: int|
        0 <= k < option_table(c).len() && (#[trigger] option_table(c)[k]).wanted
            && option_table(c)[k].setting == wanted_settings(option_table(c))[i];
    assert(position(option_table(c)[k].setting.option) == k);
}

/// Whether encryption is enforced is always said, as the configuration has it.
pub proof fn law_enforcement_is_always_said(c: ConfigView)
    ensures
        wanted_settings(option_table(c)).contains(
            int_row(
                true,
                SocketOption::EnforcedEncryption,
                flag_number(c.enforced_encryption),
            ).setting,
        ),
{
    lemma_encryption_rows(c);
    lemma_row_is_set(option_table(c), 13);
}

/// A configuration with a passphrase sets the key length, and the passphrase
/// itself where libsrt can be given it.
pub proof fn law_passphrase_sets_key(c: ConfigView)
    requires
        c.passphrase.len() > 0,
    ensures
        wanted_settings(option_table(c)).contains(
            int_row(true, SocketOption::PbKeyLen, c.key_size.byte_count() as i32).setting,
        ),
        !c.passphrase.contains('\0') ==> wanted_settings(option_table(c)).contains(
            text_row(true, SocketOption::Passphrase, c.passphrase).setting,
        ),
{
    lemma_encryption_rows(c);
    lemma_row_is_set(option_table(c), 11);
    if !c.passphrase.contains('\0') {
        lemma_row_is_set(option_table(c), 10);
    }
}

/// Whether a list sets an option to a number.
pub open spec fn sets_int(list: Seq<OptionSetting>, option: SocketOption, v: i32) -> bool {
    exists|i: int|
        0 <= i < list.len() && (#[trigger] list[i]).option == option && list[i].value
            == OptionValue::Int(v)
}

/// Whether a list sets an option to a long number.
pub open spec fn sets_long(list: Seq<OptionSetting>, option: SocketOption, v: i64) -> bool {
    exists|i: int|
        0 <= i < list.len() && (#[trigger] list[i]).option == option && list[i].value
            == OptionValue::Long(v)
}

/// Whether a list sets an option to a text.
pub open spec fn sets_text(list: Seq<OptionSetting>, option: SocketOption, v: Seq<char>) -> bool {
    exists|i: int|
        0 <= i < list.len() && (#[trigger] list[i]).option == option && (
        list[i].value matches OptionValue::Text(t) && t@ == v)
}

/// Whether a list leaves an option alone.
pub open spec fn leaves(list: Seq<OptionSetting>, option: SocketOption) -> bool {
    forall|i: int| 0 <= i < list.len() ==> (#[trigger] list[i]).option != option
}

/// Each row of the table decides on its option.
proof fn lemma_row_decides(c: ConfigView, list: Seq<OptionSetting>, k: int)
    requires
        settings(list) == wanted_settings(option_table(c)),
        0 <= k < option_table(c).len(),
    ensures
        ({
            let row = option_table(c)[k];
            let option = row.setting.option;
            &&& !row.wanted ==> leaves(list, option)
            &&& row.wanted ==> match row.setting.value {
                OptionValueView::Int(v) => sets_int(list, option, v),
                OptionValueView::Long(v) => sets_long(list, option, v),
                OptionValueView::Text(v) => sets_text(list, option, v),
            }
        }),
{
    let rows = option_table(c);
    let row = rows[k];
    lemma_positions(c);
    if row.wanted {
        lemma_row_is_set(rows, k);
        let i = choose|i: int| 0 <= i < settings(list).len() && settings(list)[i] == row.setting;
        assert(list[i]@ == row.setting);
    } else {
        assert forall|i: int| 0 <= i < list.len() implies (#[trigger] list[i]).option
            != row.setting.option by {
            assert(settings(list)[i] == list[i]@);
            lemma_setting_has_row(rows, i);
            let n = choose|n: int|
                0 <= n < rows.len() && (#[trigger] rows[n]).wanted && rows[n].setting
                    == wanted_settings(rows)[i];
            if list[i].option == row.setting.option {
                assert(position(rows[n].setting.option) == n);
                assert(position(rows[k].setting.option) == k);
            }
        }
    }
}

/// The transport options are each set from their own field, and only where it departs
/// from what libsrt does by itself; the transmission type is always set.
pub proof fn law_transport_options(c: &SrtConfig, list: Vec<OptionSetting>)
    requires
        call_ensures(apply_config, (c,), list),
    ensures
        sets_int(
            list@,
            SocketOption::TransType,
            if c.trans_type == TransType::Live { 0i32 } else { 1i32 },
        ),
        c.recv_latency > 0 ==> sets_int(
            list@,
            SocketOption::RcvLatency,
            c.recv_latency as i32,
        ),
        !(c.recv_latency > 0) ==> leaves(list@, SocketOption::RcvLatency),
        c.peer_latency > 0 ==> sets_int(
            list@,
            SocketOption::PeerLatency,
            c.peer_latency as i32,
        ),
        !(c.peer_latency > 0) ==> leaves(list@, SocketOption::PeerLatency),
        c.mss != 1500 ==> sets_int(
            list@,
            SocketOption::Mss,
            c.mss as i32,
        ),
        !(c.mss != 1500) ==> leaves(list@, SocketOption::Mss),
        c.flight_flag_size != 25600 ==> sets_int(
            list@,
            SocketOption::FlightFlagSize,
            c.flight_flag_size as i32,
        ),
        !(c.flight_flag_size != 25600) ==> leaves(list@, SocketOption::FlightFlagSize),
        c.send_buffer_size != 8192 * 1316 ==> sets_int(
            list@,
            SocketOption::SndBuf,
            c.send_buffer_size as i32,
        ),
        !(c.send_buffer_size != 8192 * 1316) ==> leaves(list@, SocketOption::SndBuf),
        c.recv_buffer_size != 8192 * 1316 ==> sets_int(
            list@,
            SocketOption::RcvBuf,
            c.recv_buffer_size as i32,
        ),
        !(c.recv_buffer_size != 8192 * 1316) ==> leaves(list@, SocketOption::RcvBuf),
{
    lemma_row_decides(c@, list@, 0);
    lemma_row_decides(c@, list@, 1);
    lemma_row_decides(c@, list@, 2);
    lemma_row_decides(c@, list@, 3);
    lemma_row_decides(c@, list@, 4);
    lemma_row_decides(c@, list@, 5);
    lemma_row_decides(c@, list@, 6);
    assert(option_table(c@)[0] == transport_rows(c@)[0]);
    assert(option_table(c@)[1] == transport_rows(c@)[1]);
    assert(option_table(c@)[2] == transport_rows(c@)[2]);
    assert(option_table(c@)[3] == transport_rows(c@)[3]);
    assert(option_table(c@)[4] == transport_rows(c@)[4]);
    assert(option_table(c@)[5] == transport_rows(c@)[5]);
    assert(option_table(c@)[6] == transport_rows(c@)[6]);
}

/// The timeouts are set in milliseconds from their own fields, and so is the payload
/// size; none of them where its field comes to nothing.
pub proof fn law_timing_options(c: &SrtConfig, list: Vec<OptionSetting>)
    requires
        call_ensures(apply_config, (c,), list),
    ensures
        c.peer_idle_timeout.millis() as i32 > 0 ==> sets_int(
            list@,
            SocketOption::PeerIdleTimeo,
            c.peer_idle_timeout.millis() as i32,
        ),
        !(c.peer_idle_timeout.millis() as i32 > 0) ==> leaves(list@, SocketOption::PeerIdleTimeo),
        c.connect_timeout.millis() as i32 > 0 ==> sets_int(
            list@,
            SocketOption::ConnTimeo,
            c.connect_timeout.millis() as i32,
        ),
        !(c.connect_timeout.millis() as i32 > 0) ==> leaves(list@, SocketOption::ConnTimeo),
        c.payload_size > 0 ==> sets_int(
            list@,
            SocketOption::PayloadSize,
            c.payload_size as i32,
        ),
        !(c.payload_size > 0) ==> leaves(list@, SocketOption::PayloadSize),
{
    lemma_row_decides(c@, list@, 7);
    lemma_row_decides(c@, list@, 8);
    lemma_row_decides(c@, list@, 9);
    assert(option_table(c@)[7] == timing_rows(c@)[0]);
    assert(option_table(c@)[8] == timing_rows(c@)[1]);
    assert(option_table(c@)[9] == timing_rows(c@)[2]);
}

/// The passphrase, the key length in bytes and the cipher are set where there is a
/// passphrase; whether encryption is enforced is always set.
pub proof fn law_encryption_options(c: &SrtConfig, list: Vec<OptionSetting>)
    requires
        call_ensures(apply_config, (c,), list),
    ensures
        c.passphrase@.len() > 0 && !c.passphrase@.contains('\0') ==> sets_text(
            list@,
            SocketOption::Passphrase,
            c.passphrase@,
        ),
        !(c.passphrase@.len() > 0 && !c.passphrase@.contains('\0')) ==> leaves(list@, SocketOption::Passphrase),
        c.passphrase@.len() > 0 ==> sets_int(
            list@,
            SocketOption::PbKeyLen,
            if c.key_size == KeySize::AES128 {
                16i32
            } else if c.key_size == KeySize::AES192 {
                24i32
            } else {
                32i32
            },
        ),
        !(c.passphrase@.len() > 0) ==> leaves(list@, SocketOption::PbKeyLen),
        c.passphrase@.len() > 0 && c.crypto_mode == CryptoModeConfig::AesGcm ==> sets_int(
            list@,
            SocketOption::CryptoMode,
            2i32,
        ),
        !(c.passphrase@.len() > 0 && c.crypto_mode == CryptoModeConfig::AesGcm) ==> leaves(list@, SocketOption::CryptoMode),
        sets_int(
            list@,
            SocketOption::EnforcedEncryption,
            if c.enforced_encryption { 1i32 } else { 0i32 },
        ),
{
    lemma_row_decides(c@, list@, 10);
    lemma_row_decides(c@, list@, 11);
    lemma_row_decides(c@, list@, 12);
    lemma_row_decides(c@, list@, 13);
    assert(option_table(c@)[10] == encryption_rows(c@)[0]);
    assert(option_table(c@)[11] == encryption_rows(c@)[1]);
    assert(option_table(c@)[12] == encryption_rows(c@)[2]);
    assert(option_table(c@)[13] == encryption_rows(c@)[3]);
}

/// The bandwidth options are each set from their own field.
pub proof fn law_bandwidth_options(c: &SrtConfig, list: Vec<OptionSetting>)
    requires
        call_ensures(apply_config, (c,), list),
    ensures
        c.max_bw >= 0 ==> sets_long(
            list@,
            SocketOption::MaxBw,
            c.max_bw,
        ),
        !(c.max_bw >= 0) ==> leaves(list@, SocketOption::MaxBw),
        c.input_bw > 0 ==> sets_long(
            list@,
            SocketOption::InputBw,
            c.input_bw,
        ),
        !(c.input_bw > 0) ==> leaves(list@, SocketOption::InputBw),
        c.overhead_bw != 25 ==> sets_int(
            list@,
            SocketOption::OheadBw,
            c.overhead_bw,
        ),
        !(c.overhead_bw != 25) ==> leaves(list@, SocketOption::OheadBw),
        c.max_rexmit_bw != -1 ==> sets_long(
            list@,
            SocketOption::MaxRexmitBw,
            c.max_rexmit_bw,
        ),
        !(c.max_rexmit_bw != -1) ==> leaves(list@, SocketOption::MaxRexmitBw),
{
    lemma_row_decides(c@, list@, 14);
    lemma_row_decides(c@, list@, 15);
    lemma_row_decides(c@, list@, 16);
    lemma_row_decides(c@, list@, 17);
    assert(option_table(c@)[14] == bandwidth_rows(c@)[0]);
    assert(option_table(c@)[15] == bandwidth_rows(c@)[1]);
    assert(option_table(c@)[16] == bandwidth_rows(c@)[2]);
    assert(option_table(c@)[17] == bandwidth_rows(c@)[3]);
}

/// The Stream ID, the packet filter and the IP options are each set from their own
/// field.
pub proof fn law_addressing_options(c: &SrtConfig, list: Vec<OptionSetting>)
    requires
        call_ensures(apply_config, (c,), list),
    ensures
        c.stream_id@.len() > 0 && !c.stream_id@.contains('\0') ==> sets_text(
            list@,
            SocketOption::StreamId,
            c.stream_id@,
        ),
        !(c.stream_id@.len() > 0 && !c.stream_id@.contains('\0')) ==> leaves(list@, SocketOption::StreamId),
        c.packet_filter@.len() > 0 && !c.packet_filter@.contains('\0') ==> sets_text(
            list@,
            SocketOption::PacketFilter,
            c.packet_filter@,
        ),
        !(c.packet_filter@.len() > 0 && !c.packet_filter@.contains('\0')) ==> leaves(list@, SocketOption::PacketFilter),
        c.ip_tos != 0 ==> sets_int(
            list@,
            SocketOption::IpTos,
            c.ip_tos,
        ),
        !(c.ip_tos != 0) ==> leaves(list@, SocketOption::IpTos),
        c.ip_ttl != 64 ==> sets_int(
            list@,
            SocketOption::IpTtl,
            c.ip_ttl,
        ),
        !(c.ip_ttl != 64) ==> leaves(list@, SocketOption::IpTtl),
{
    lemma_row_decides(c@, list@, 18);
    lemma_row_decides(c@, list@, 19);
    lemma_row_decides(c@, list@, 20);
    lemma_row_decides(c@, list@, 21);
    assert(option_table(c@)[18] == address_rows(c@)[0]);
    assert(option_table(c@)[19] == address_rows(c@)[1]);
    assert(option_table(c@)[20] == address_rows(c@)[2]);
    assert(option_table(c@)[21] == address_rows(c@)[3]);
}

/// The options on retransmission and key refresh are each set from their own field.
pub proof fn law_recovery_options(c: &SrtConfig, list: Vec<OptionSetting>)
    requires
        call_ensures(apply_config, (c,), list),
    ensures
        c.retransmit_algo == RetransmitAlgo::Reduced ==> sets_int(
            list@,
            SocketOption::RetransmitAlgo,
            1i32,
        ),
        !(c.retransmit_algo == RetransmitAlgo::Reduced) ==> leaves(list@, SocketOption::RetransmitAlgo),
        c.send_drop_delay != -1 ==> sets_int(
            list@,
            SocketOption::SndDropDelay,
            c.send_drop_delay,
        ),
        !(c.send_drop_delay != -1) ==> leaves(list@, SocketOption::SndDropDelay),
        c.loss_max_ttl > 0 ==> sets_int(
            list@,
            SocketOption::LossMaxTtl,
            c.loss_max_ttl,
        ),
        !(c.loss_max_ttl > 0) ==> leaves(list@, SocketOption::LossMaxTtl),
        c.km_refresh_rate != 0x0100_0000 ==> sets_int(
            list@,
            SocketOption::KmRefreshRate,
            c.km_refresh_rate as i32,
        ),
        !(c.km_refresh_rate != 0x0100_0000) ==> leaves(list@, SocketOption::KmRefreshRate),
        c.km_pre_announce != 0x1000 ==> sets_int(
            list@,
            SocketOption::KmPreAnnounce,
            c.km_pre_announce as i32,
        ),
        !(c.km_pre_announce != 0x1000) ==> leaves(list@, SocketOption::KmPreAnnounce),
{
    lemma_row_decides(c@, list@, 22);
    lemma_row_decides(c@, list@, 23);
    lemma_row_decides(c@, list@, 24);
    lemma_row_decides(c@, list@, 25);
    lemma_row_decides(c@, list@, 26);
    assert(option_table(c@)[22] == recovery_rows(c@)[0]);
    assert(option_table(c@)[23] == recovery_rows(c@)[1]);
    assert(option_table(c@)[24] == recovery_rows(c@)[2]);
    assert(option_table(c@)[25] == recovery_rows(c@)[3]);
    assert(option_table(c@)[26] == recovery_rows(c@)[4]);
}

/// Whether late packets are dropped is always set; rendezvous and group connections
/// only where they are wanted.
pub proof fn law_modes_options(c: &SrtConfig, list: Vec<OptionSetting>)
    requires
        call_ensures(apply_config, (c,), list),
    ensures
        sets_int(
            list@,
            SocketOption::TlPktDrop,
            if c.tlpkt_drop { 1i32 } else { 0i32 },
        ),
        c.rendezvous ==> sets_int(
            list@,
            SocketOption::Rendezvous,
            1i32,
        ),
        !(c.rendezvous) ==> leaves(list@, SocketOption::Rendezvous),
        c.group_connect ==> sets_int(
            list@,
            SocketOption::GroupConnect,
            1i32,
        ),
        !(c.group_connect) ==> leaves(list@, SocketOption::GroupConnect),
{
    lemma_row_decides(c@, list@, 27);
    lemma_row_decides(c@, list@, 28);
    lemma_row_decides(c@, list@, 29);
    assert(option_table(c@)[27] == mode_rows(c@)[0]);
    assert(option_table(c@)[28] == mode_rows(c@)[1]);
    assert(option_table(c@)[29] == mode_rows(c@)[2]);
}

/// The transmission type is set first, because libsrt resets other options with it;
/// and no option is set twice, so that what is set stays.
pub proof fn law_transmission_type_comes_first(c: &SrtConfig, list: Vec<OptionSetting>)
    requires
        call_ensures(apply_config, (c,), list),
    ensures
        list@.len() > 0,
        list@[0].option == SocketOption::TransType,
        forall|i: int, j: int|
            0 <= i < j < list@.len() ==> (#[trigger] list@[i]).option != (
            #[trigger] list@[j]).option,
{
    let rows = option_table(c@);
    law_no_option_is_set_twice(c@);
    lemma_row_decides(c@, list@, 0);
    assert(rows[0] == transport_rows(c@)[0]);
    lemma_positions(c@);
    lemma_order_is_kept(rows);
    let at = choose|i: int|
        0 <= i < list@.len() && (#[trigger] list@[i]).option == SocketOption::TransType;
    assert(wanted_settings(rows)[at] == list@[at]@);
    assert(wanted_settings(rows)[0] == list@[0]@);
    lemma_setting_has_row(rows, 0);
    assert forall|i: int, j: int| 0 <= i < j < list@.len() implies (#[trigger] list@[i]).option != (
    #[trigger] list@[j]).option by {
        assert(settings(list@)[i] == list@[i]@);
        assert(settings(list@)[j] == list@[j]@);
    }
}

/// Options are set in one order, whatever the configuration; and none of them says whether
/// calls block.
pub proof fn law_options_come_in_order(c: &SrtConfig, list: Vec<OptionSetting>)
    requires
        call_ensures(apply_config, (c,), list),
    ensures
        forall|i: int, j: int|
            0 <= i < j < list@.len() ==> position((#[trigger] list@[i]).option) < position(
                (#[trigger] list@[j]).option,
            ),
        forall|i: int|
            0 <= i < list@.len() ==> (#[trigger] list@[i]).option != SocketOption::RcvSyn
                && list@[i].option != SocketOption::SndSyn,
{
    lemma_positions(c@);
    lemma_order_is_kept(option_table(c@));
    assert forall|i: int, j: int| 0 <= i < j < list@.len() implies position(
        (#[trigger] list@[i]).option,
    ) < position((#[trigger] list@[j]).option) by {
        let set = wanted_settings(option_table(c@));
        assert(set[i] == list@[i]@);
        assert(set[j] == list@[j]@);
        assert(position(set[i].option) < position(set[j].option));
    }
    assert forall|i: int| 0 <= i < list@.len() implies (#[trigger] list@[i]).option
        != SocketOption::RcvSyn && list@[i].option != SocketOption::SndSyn by {
        assert(settings(list@)[i] == list@[i]@);
        law_configuration_does_not_block(c@, i);
    }
}

proof fn lemma_encryption_rows(c: ConfigView)
    ensures
        option_table(c).len() == 30,
        option_table(c)[10] == encryption_rows(c)[0],
        option_table(c)[11] == encryption_rows(c)[1],
        option_table(c)[12] == encryption_rows(c)[2],
        option_table(c)[13] == encryption_rows(c)[3],
{
}

proof fn lemma_positions(c: ConfigView)
    ensures
        option_table(c).len() == 30,
        forall|i: int|
            0 <= i < option_table(c).len() ==> position(#[trigger] option_table(c)[i].setting.option)
                == i,
{
    assert forall|i: int| 0 <= i < option_table(c).len() implies position(
        #[trigger] option_table(c)[i].setting.option,
    ) == i by {
        if i < 7 {
            assert(option_table(c)[i] == transport_rows(c)[i - 0]);
        } else if i < 10 {
            assert(option_table(c)[i] == timing_rows(c)[i - 7]);
        } else if i < 14 {
            assert(option_table(c)[i] == encryption_rows(c)[i - 10]);
        } else if i < 18 {
            assert(option_table(c)[i] == bandwidth_rows(c)[i - 14]);
        } else if i < 22 {
            assert(option_table(c)[i] == address_rows(c)[i - 18]);
        } else if i < 27 {
            assert(option_table(c)[i] == recovery_rows(c)[i - 22]);
        } else {
            assert(option_table(c)[i] == mode_rows(c)[i - 27]);
        }
    }
}

proof fn lemma_order_is_kept(rows: Seq<Row>)
    requires
        forall|i: int, j: int|
            0 <= i < j < rows.len() ==> position(#[trigger] rows[i].setting.option) < position(
                #[trigger] rows[j].setting.option,
            ),
    ensures
        forall|i: int, j: int|
            0 <= i < j < wanted_settings(rows).len() ==> position(
                #[trigger] wanted_settings(rows)[i].option,
            ) < position(#[trigger] wanted_settings(rows)[j].option),
        rows.len() > 0 ==> forall|i: int|
            0 <= i < wanted_settings(rows).len() ==> position(
                #[trigger] wanted_settings(rows)[i].option,
            ) <= position(rows.last().setting.option),
        rows.len() == 0 ==> wanted_settings(rows).len() == 0,
    decreases rows.len(),
{
    reveal(wanted_settings);
    if rows.len() > 0 {
        let fewer = rows.drop_last();
        assert forall|i: int, j: int| 0 <= i < j < fewer.len() implies position(
            #[trigger] fewer[i].setting.option,
        ) < position(#[trigger] fewer[j].setting.option) by {
            assert(fewer[i] == rows[i] && fewer[j] == rows[j]);
        }
        lemma_order_is_kept(fewer);
        if fewer.len() > 0 {
            assert(rows[fewer.len() - 1] == fewer.last());
            assert(position(rows[fewer.len() - 1].setting.option) < position(
                rows[rows.len() - 1].setting.option,
            ));
        }
        let before = wanted_settings(fewer);
        let after = wanted_settings(rows);
        assert forall|i: int| 0 <= i < after.len() implies position(#[trigger] after[i].option)
            <= position(rows.last().setting.option) by {
            if i < before.len() {
                assert(after[i] == before[i]);
            }
        }
        assert forall|i: int, j: int| 0 <= i < j < after.len() implies position(
            #[trigger] after[i].option,
        ) < position(#[trigger] after[j].option) by {
            assert(after[i] == before[i]);
            if j < before.len() {
                assert(after[j] == before[j]);
            }
        }
    }
}

proof fn lemma_setting_has_row(rows: Seq<Row>, i: int)
    requires
        0 <= i < wanted_settings(rows).len(),
    ensures
        exists|k: int|
            0 <= k < rows.len() && (#[trigger] rows[k]).wanted && rows[k].setting
                == wanted_settings(rows)[i],
    decreases rows.len(),
{
    reveal(wanted_settings);
    let fewer = rows.drop_last();
    let before = wanted_settings(fewer);
    if i < before.len() {
        lemma_setting_has_row(fewer, i);
        let k = choose|k: int|
            0 <= k < fewer.len() && (#[trigger] fewer[k]).wanted && fewer[k].setting == before[i];
        assert(rows[k] == fewer[k]);
    } else {
        assert(rows[rows.len() - 1].wanted);
    }
}

proof fn lemma_row_is_set(rows: Seq<Row>, k: int)
    requires
        0 <= k < rows.len(),
        rows[k].wanted,
    ensures
        wanted_settings(rows).contains(rows[k].setting),
    decreases rows.len(),
{
    reveal(wanted_settings);
    let fewer = rows.drop_last();
    let after = wanted_settings(rows);
    if k < fewer.len() {
        lemma_row_is_set(fewer, k);
        let before = wanted_settings(fewer);
        let i = choose|i: int| 0 <= i < before.len() && before[i] == rows[k].setting;
        assert(after[i] == before[i]);
    } else {
        assert(after[after.len() - 1] == rows[k].setting);
    }
}

} // verus!
