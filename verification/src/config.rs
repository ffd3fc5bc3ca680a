//! Socket configuration and options.

use vstd::prelude::*;
use vstd::string::*;

use crate::duration::Duration;

verus! {

/// SRT transmission mode.
#[derive(Debug, Clone, Copy, PartialEq, Eq, Hash, Structural)]
pub enum TransType {
    /// Live streaming mode: low latency, TSBPD, packet dropping.
    Live,
    /// File transfer mode: reliable delivery, AIMD congestion control.
    File,
}

impl Default for TransType {
    fn default() -> (t: TransType)
        ensures
            t == TransType::Live,
    {
        TransType::Live
    }
}

/// Encryption cipher mode selection.
#[derive(Debug, Clone, Copy, PartialEq, Eq, Hash, Structural)]
pub enum CryptoModeConfig {
    /// AES Counter mode, compatible with all SRT implementations.
    AesCtr,
    /// AES Galois/Counter mode: authenticated encryption. Only supports AES-128
    /// and AES-256.
    AesGcm,
}

impl Default for CryptoModeConfig {
    fn default() -> (m: CryptoModeConfig)
        ensures
            m == CryptoModeConfig::AesCtr,
    {
        CryptoModeConfig::AesCtr
    }
}

/// Encryption key length.
#[derive(Debug, Clone, Copy, PartialEq, Eq, Hash, Structural)]
pub enum KeySize {
    AES128,
    AES192,
    AES256,
}

impl KeySize {
    /// The length of the key in bytes.
    pub open spec fn byte_count(self) -> u32 {
        match self {
            KeySize::AES128 => 16,
            KeySize::AES192 => 24,
            KeySize::AES256 => 32,
        }
    }

    /// The key size of the given length in bytes, where there is one.
    pub open spec fn of_byte_count(len: int) -> Option<KeySize> {
        if len == 16 {
            Some(KeySize::AES128)
        } else if len == 24 {
            Some(KeySize::AES192)
        } else if len == 32 {
            Some(KeySize::AES256)
        } else {
            None
        }
    }

    /// The length of the key in bytes.
    pub fn to_bytes(self) -> (len: u32)
        ensures
            len == self.byte_count(),
    {
        match self {
            KeySize::AES128 => 16,
            KeySize::AES192 => 24,
            KeySize::AES256 => 32,
        }
    }

    /// The key size of the given length in bytes, where there is one.
    pub fn from_bytes(len: usize) -> (k: Option<KeySize>)
        ensures
            k == KeySize::of_byte_count(len as int),
    {
        match len {
            16 => Some(KeySize::AES128),
            24 => Some(KeySize::AES192),
            32 => Some(KeySize::AES256),
            _ => None,
        }
    }

    /// The key size as the key length field of key material messages has it: the
    /// length in bytes, divided by four.
    pub fn to_km_field(self) -> (field: u32)
        ensures
            field == self.byte_count() / 4,
    {
        self.to_bytes() / 4
    }

    /// The key size that a key length field stands for, where there is one.
    pub fn from_km_field(field: u32) -> (k: Option<KeySize>)
        ensures
            k == KeySize::of_byte_count(field * 4),
    {
        match field.checked_mul(4) {
            Some(len) => KeySize::from_bytes(len as usize),
            None => None,
        }
    }
}

/// A key size is found again by its length in bytes and by its key length field.
pub proof fn law_key_size_reads_back(k: KeySize)
    ensures
        KeySize::of_byte_count(k.byte_count() as int) == Some(k),
        KeySize::of_byte_count((k.byte_count() / 4) * 4) == Some(k),
{
}

/// Retransmission algorithm selection.
#[derive(Debug, Clone, Copy, PartialEq, Eq, Hash, Structural)]
pub enum RetransmitAlgo {
    /// Default retransmission algorithm.
    Default,
    /// Reduced retransmission (avoid unnecessary retransmissions).
    Reduced,
}

/// Key material state.
#[derive(Debug, Clone, Copy, PartialEq, Eq, Hash, Structural)]
pub enum KmState {
    Unsecured,
    Securing,
    Secured,
    NoSecret,
    BadSecret,
    BadCryptoMode,
}

impl KmState {
    /// The number of a key material state.
    pub open spec fn number(self) -> i32 {
        match self {
            KmState::Unsecured => 0,
            KmState::Securing => 1,
            KmState::Secured => 2,
            KmState::NoSecret => 3,
            KmState::BadSecret => 4,
            KmState::BadCryptoMode => 5,
        }
    }

    /// The number of this state.
    pub fn value(self) -> (v: i32)
        ensures
            v == self.number(),
    {
        match self {
            KmState::Unsecured => 0,
            KmState::Securing => 1,
            KmState::Secured => 2,
            KmState::NoSecret => 3,
            KmState::BadSecret => 4,
            KmState::BadCryptoMode => 5,
        }
    }

    /// The state with the given number; a number that belongs to no state counts
    /// as unsecured.
    pub fn from_value(v: i32) -> (s: KmState)
        ensures
            0 <= v <= 5 ==> s.number() == v,
            !(0 <= v <= 5) ==> s == KmState::Unsecured,
    {
        match v {
            0 => KmState::Unsecured,
            1 => KmState::Securing,
            2 => KmState::Secured,
            3 => KmState::NoSecret,
            4 => KmState::BadSecret,
            5 => KmState::BadCryptoMode,
            _ => KmState::Unsecured,
        }
    }
}

/// No two key material states have the same number, and the numbers are those
/// from zero to five.
pub proof fn law_km_states_are_numbered(a: KmState, b: KmState)
    ensures
        a.number() == b.number() ==> a == b,
        0 <= a.number() <= 5,
{
}

/// SRT socket configuration: what the bridge turns into socket options.
#[derive(Debug, Clone)]
pub struct SrtConfig {
    // Transport
    pub mss: u32,
    pub flight_flag_size: u32,
    pub send_buffer_size: u32,
    pub recv_buffer_size: u32,
    pub udp_send_buffer_size: u32,
    pub udp_recv_buffer_size: u32,
    pub send_sync: bool,
    pub recv_sync: bool,
    pub send_timeout: Option<Duration>,
    pub recv_timeout: Option<Duration>,
    pub reuse_addr: bool,
    pub linger: Option<Duration>,
    // Connection
    pub connect_timeout: Duration,
    pub rendezvous: bool,
    pub ipv6_only: bool,
    pub ip_ttl: i32,
    pub ip_tos: i32,
    pub bind_to_device: Option<String>,
    pub peer_idle_timeout: Duration,
    // Transmission
    pub trans_type: TransType,
    pub message_api: bool,
    pub payload_size: u32,
    pub max_bw: i64,
    pub input_bw: i64,
    pub min_input_bw: i64,
    pub overhead_bw: i32,
    pub max_rexmit_bw: i64,
    // Live mode
    pub tsbpd_mode: bool,
    pub recv_latency: u32,
    pub peer_latency: u32,
    pub tlpkt_drop: bool,
    pub send_drop_delay: i32,
    pub nak_report: bool,
    pub drift_tracer: bool,
    pub loss_max_ttl: i32,
    // Encryption
    pub passphrase: String,
    pub key_size: KeySize,
    pub crypto_mode: CryptoModeConfig,
    pub enforced_encryption: bool,
    pub km_refresh_rate: u32,
    pub km_pre_announce: u32,
    // Sender flag
    pub sender: bool,
    // Stream ID
    pub stream_id: String,
    // Congestion
    pub congestion: String,
    // Packet filter
    pub packet_filter: String,
    // Retransmission
    pub retransmit_algo: RetransmitAlgo,
    // Minimum peer version
    pub min_version: u32,
    // Bonding
    pub group_connect: bool,
    pub group_min_stable_timeout: Duration,
}

/// A configuration, with its strings as text.
pub struct ConfigView {
    pub mss: u32,
    pub flight_flag_size: u32,
    pub send_buffer_size: u32,
    pub recv_buffer_size: u32,
    pub udp_send_buffer_size: u32,
    pub udp_recv_buffer_size: u32,
    pub send_sync: bool,
    pub recv_sync: bool,
    pub send_timeout: Option<Duration>,
    pub recv_timeout: Option<Duration>,
    pub reuse_addr: bool,
    pub linger: Option<Duration>,
    pub connect_timeout: Duration,
    pub rendezvous: bool,
    pub ipv6_only: bool,
    pub ip_ttl: i32,
    pub ip_tos: i32,
    pub bind_to_device: Option<Seq<char>>,
    pub peer_idle_timeout: Duration,
    pub trans_type: TransType,
    pub message_api: bool,
    pub payload_size: u32,
    pub max_bw: i64,
    pub input_bw: i64,
    pub min_input_bw: i64,
    pub overhead_bw: i32,
    pub max_rexmit_bw: i64,
    pub tsbpd_mode: bool,
    pub recv_latency: u32,
    pub peer_latency: u32,
    pub tlpkt_drop: bool,
    pub send_drop_delay: i32,
    pub nak_report: bool,
    pub drift_tracer: bool,
    pub loss_max_ttl: i32,
    pub passphrase: Seq<char>,
    pub key_size: KeySize,
    pub crypto_mode: CryptoModeConfig,
    pub enforced_encryption: bool,
    pub km_refresh_rate: u32,
    pub km_pre_announce: u32,
    pub sender: bool,
    pub stream_id: Seq<char>,
    pub congestion: Seq<char>,
    pub packet_filter: Seq<char>,
    pub retransmit_algo: RetransmitAlgo,
    pub min_version: u32,
    pub group_connect: bool,
    pub group_min_stable_timeout: Duration,
}

impl View for SrtConfig {
    type V = ConfigView;

    open spec fn view(&self) -> ConfigView {
        ConfigView {
            mss: self.mss,
            flight_flag_size: self.flight_flag_size,
            send_buffer_size: self.send_buffer_size,
            recv_buffer_size: self.recv_buffer_size,
            udp_send_buffer_size: self.udp_send_buffer_size,
            udp_recv_buffer_size: self.udp_recv_buffer_size,
            send_sync: self.send_sync,
            recv_sync: self.recv_sync,
            send_timeout: self.send_timeout,
            recv_timeout: self.recv_timeout,
            reuse_addr: self.reuse_addr,
            linger: self.linger,
            connect_timeout: self.connect_timeout,
            rendezvous: self.rendezvous,
            ipv6_only: self.ipv6_only,
            ip_ttl: self.ip_ttl,
            ip_tos: self.ip_tos,
            bind_to_device: match self.bind_to_device {
                Some(device) => Some(device@),
                None => None,
            },
            peer_idle_timeout: self.peer_idle_timeout,
            trans_type: self.trans_type,
            message_api: self.message_api,
            payload_size: self.payload_size,
            max_bw: self.max_bw,
            input_bw: self.input_bw,
            min_input_bw: self.min_input_bw,
            overhead_bw: self.overhead_bw,
            max_rexmit_bw: self.max_rexmit_bw,
            tsbpd_mode: self.tsbpd_mode,
            recv_latency: self.recv_latency,
            peer_latency: self.peer_latency,
            tlpkt_drop: self.tlpkt_drop,
            send_drop_delay: self.send_drop_delay,
            nak_report: self.nak_report,
            drift_tracer: self.drift_tracer,
            loss_max_ttl: self.loss_max_ttl,
            passphrase: self.passphrase@,
            key_size: self.key_size,
            crypto_mode: self.crypto_mode,
            enforced_encryption: self.enforced_encryption,
            km_refresh_rate: self.km_refresh_rate,
            km_pre_announce: self.km_pre_announce,
            sender: self.sender,
            stream_id: self.stream_id@,
            congestion: self.congestion@,
            packet_filter: self.packet_filter@,
            retransmit_algo: self.retransmit_algo,
            min_version: self.min_version,
            group_connect: self.group_connect,
            group_min_stable_timeout: self.group_min_stable_timeout,
        }
    }
}

/// The configuration of a socket for which nothing was set. The bandwidth is
/// not limited: what is sent is already paced by its source.
pub open spec fn default_config() -> ConfigView {
    ConfigView {
        mss: 1500,
        flight_flag_size: 25600,
        send_buffer_size: 10_780_672,
        recv_buffer_size: 10_780_672,
        udp_send_buffer_size: 65536,
        udp_recv_buffer_size: 65536,
        send_sync: true,
        recv_sync: true,
        send_timeout: None,
        recv_timeout: None,
        reuse_addr: true,
        linger: Some(Duration { secs: 180, nanos: 0 }),
        connect_timeout: Duration { secs: 3, nanos: 0 },
        rendezvous: false,
        ipv6_only: false,
        ip_ttl: 64,
        ip_tos: 0,
        bind_to_device: None,
        peer_idle_timeout: Duration { secs: 5, nanos: 0 },
        trans_type: TransType::Live,
        message_api: true,
        payload_size: 1316,
        max_bw: (-1) as i64,
        input_bw: 0,
        min_input_bw: 0,
        overhead_bw: 25,
        max_rexmit_bw: (-1) as i64,
        tsbpd_mode: true,
        recv_latency: 120,
        peer_latency: 0,
        tlpkt_drop: true,
        send_drop_delay: (-1) as i32,
        nak_report: true,
        drift_tracer: true,
        loss_max_ttl: 0,
        passphrase: Seq::empty(),
        key_size: KeySize::AES128,
        crypto_mode: CryptoModeConfig::AesCtr,
        enforced_encryption: true,
        km_refresh_rate: 0x0100_0000,
        km_pre_announce: 0x1000,
        sender: false,
        stream_id: Seq::empty(),
        congestion: "live"@,
        packet_filter: Seq::empty(),
        retransmit_algo: RetransmitAlgo::Default,
        min_version: 0,
        group_connect: false,
        group_min_stable_timeout: Duration { secs: 0, nanos: 60_000_000 },
    }
}

/// The configuration, switched to live mode.
pub open spec fn in_live_mode(config: ConfigView) -> ConfigView {
    ConfigView {
        trans_type: TransType::Live,
        message_api: true,
        tsbpd_mode: true,
        tlpkt_drop: true,
        nak_report: true,
        payload_size: 1316,
        congestion: "live"@,
        ..config
    }
}

/// The configuration, switched to file mode.
pub open spec fn in_file_mode(config: ConfigView) -> ConfigView {
    ConfigView {
        trans_type: TransType::File,
        message_api: true,
        tsbpd_mode: false,
        tlpkt_drop: false,
        nak_report: false,
        payload_size: 0,
        congestion: "file"@,
        ..config
    }
}

impl Default for SrtConfig {
    fn default() -> (config: SrtConfig)
        ensures
            config@ == default_config(),
    {
        SrtConfig {
            mss: 1500,
            flight_flag_size: 25600,
            send_buffer_size: 8192 * 1316,
            recv_buffer_size: 8192 * 1316,
            udp_send_buffer_size: 65536,
            udp_recv_buffer_size: 65536,
            send_sync: true,
            recv_sync: true,
            send_timeout: None,
            recv_timeout: None,
            reuse_addr: true,
            linger: Some(Duration::from_secs(180)),
            connect_timeout: Duration::from_secs(3),
            rendezvous: false,
            ipv6_only: false,
            ip_ttl: 64,
            ip_tos: 0,
            bind_to_device: None,
            peer_idle_timeout: Duration::from_secs(5),
            trans_type: TransType::Live,
            message_api: true,
            payload_size: 1316,
            // Not limited, rather than relative to the input bandwidth: libsrt's
            // estimate of that is cautious at first, and a burst beyond it would
            // be dropped.
            max_bw: -1,
            input_bw: 0,
            min_input_bw: 0,
            overhead_bw: 25,
            max_rexmit_bw: -1,
            tsbpd_mode: true,
            recv_latency: 120,
            peer_latency: 0,
            tlpkt_drop: true,
            send_drop_delay: -1,
            nak_report: true,
            drift_tracer: true,
            loss_max_ttl: 0,
            passphrase: String::new(),
            key_size: KeySize::AES128,
            crypto_mode: CryptoModeConfig::default(),
            enforced_encryption: true,
            km_refresh_rate: 0x0100_0000,
            km_pre_announce: 0x1000,
            sender: false,
            stream_id: String::new(),
            congestion: "live".to_owned(),
            packet_filter: String::new(),
            retransmit_algo: RetransmitAlgo::Default,
            min_version: 0,
            group_connect: false,
            group_min_stable_timeout: Duration { secs: 0, nanos: 60_000_000 },
        }
    }
}

impl SrtConfig {
    /// Switches to live mode.
    pub fn live_defaults(&mut self)
        ensures
            final(self)@ == in_live_mode(old(self)@),
    {
        self.trans_type = TransType::Live;
        self.message_api = true;
        self.tsbpd_mode = true;
        self.tlpkt_drop = true;
        self.nak_report = true;
        self.payload_size = 1316;
        self.congestion = "live".to_owned();
    }

    /// Switches to file mode.
    pub fn file_defaults(&mut self)
        ensures
            final(self)@ == in_file_mode(old(self)@),
    {
        self.trans_type = TransType::File;
        self.message_api = true;
        self.tsbpd_mode = false;
        self.tlpkt_drop = false;
        self.nak_report = false;
        self.payload_size = 0;
        self.congestion = "file".to_owned();
    }

    /// Whether encryption is enabled.
    pub fn encryption_enabled(&self) -> (b: bool)
        ensures
            b == (self@.passphrase.len() > 0),
    {
        !self.passphrase.as_str().is_empty()
    }
}

/// A socket for which nothing was set is in live mode.
pub proof fn law_default_is_live()
    ensures
        in_live_mode(default_config()) == default_config(),
{
}

/// Switching modes settles everything that a mode decides: the mode switched to
/// last wins, and leaves no trace of the one before.
pub proof fn law_last_mode_wins(config: ConfigView)
    ensures
        in_live_mode(in_file_mode(config)) == in_live_mode(config),
        in_file_mode(in_live_mode(config)) == in_file_mode(config),
        in_live_mode(in_live_mode(config)) == in_live_mode(config),
        in_file_mode(in_file_mode(config)) == in_file_mode(config),
{
}

/// Switching modes leaves encryption as it was.
pub proof fn law_modes_keep_encryption(config: ConfigView)
    ensures
        in_live_mode(config).passphrase == config.passphrase,
        in_live_mode(config).key_size == config.key_size,
        in_live_mode(config).crypto_mode == config.crypto_mode,
        in_live_mode(config).enforced_encryption == config.enforced_encryption,
        in_file_mode(config).passphrase == config.passphrase,
        in_file_mode(config).key_size == config.key_size,
        in_file_mode(config).crypto_mode == config.crypto_mode,
        in_file_mode(config).enforced_encryption == config.enforced_encryption,
{
}

/// SRT socket status.
#[derive(Debug, Clone, Copy, PartialEq, Eq, Hash, Structural)]
pub enum SocketStatus {
    Init,
    Opened,
    Listening,
    Connecting,
    Connected,
    Broken,
    Closing,
    Closed,
    NonExist,
}

impl SocketStatus {
    /// The number that libsrt has for a status.
    pub open spec fn number(self) -> i32 {
        match self {
            SocketStatus::Init => 1,
            SocketStatus::Opened => 2,
            SocketStatus::Listening => 3,
            SocketStatus::Connecting => 4,
            SocketStatus::Connected => 5,
            SocketStatus::Broken => 6,
            SocketStatus::Closing => 7,
            SocketStatus::Closed => 8,
            SocketStatus::NonExist => 9,
        }
    }

    /// The number that libsrt has for this status.
    pub fn value(self) -> (v: i32)
        ensures
            v == self.number(),
    {
        match self {
            SocketStatus::Init => 1,
            SocketStatus::Opened => 2,
            SocketStatus::Listening => 3,
            SocketStatus::Connecting => 4,
            SocketStatus::Connected => 5,
            SocketStatus::Broken => 6,
            SocketStatus::Closing => 7,
            SocketStatus::Closed => 8,
            SocketStatus::NonExist => 9,
        }
    }
}

/// Status of one member of a socket group.
#[derive(Debug, Clone, Copy, PartialEq, Eq, Hash, Structural)]
pub enum MemberStatus {
    /// Member is still negotiating the connection.
    Pending,
    /// Member is connected but not currently carrying traffic (standby backup).
    Idle,
    /// Member is actively carrying traffic.
    Running,
    /// Member connection is broken / dead.
    Broken,
}

/// Default SRT live payload size (MPEG-TS: 188 * 7).
pub const SRT_LIVE_DEF_PLSIZE: u32 = 1316;

/// Maximum payload for live mode.
pub const SRT_LIVE_MAX_PLSIZE: u32 = 1456;

/// Default live latency in milliseconds.
pub const SRT_LIVE_DEF_LATENCY_MS: u32 = 120;

} // verus!
