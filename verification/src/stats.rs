//! Performance statistics of a socket.

use vstd::prelude::*;

verus! {

/// A double-precision number, by its IEEE 754 bit pattern.
#[derive(Debug, Clone, Copy, PartialEq, Eq, Structural)]
pub struct Float64 {
    pub bits: u64,
}

/// The counters and gauges that libsrt keeps for a socket: `CBytePerfMon`, field
/// by field. Names that end in `total` count since the socket was made, those
/// without since the last reset.
#[derive(Debug, Clone, Copy)]
pub struct PerfMon {
    /// `msTimeStamp`
    pub ms_timestamp: i64,
    /// `pktSentTotal`
    pub pkt_sent_total: i64,
    /// `pktRecvTotal`
    pub pkt_recv_total: i64,
    /// `pktSndLossTotal`
    pub pkt_snd_loss_total: i32,
    /// `pktRcvLossTotal`
    pub pkt_rcv_loss_total: i32,
    /// `pktRetransTotal`
    pub pkt_retrans_total: i32,
    /// `pktSentACKTotal`
    pub pkt_sent_ack_total: i32,
    /// `pktRecvACKTotal`
    pub pkt_recv_ack_total: i32,
    /// `pktSentNAKTotal`
    pub pkt_sent_nak_total: i32,
    /// `pktRecvNAKTotal`
    pub pkt_recv_nak_total: i32,
    /// `usSndDurationTotal`
    pub us_snd_duration_total: i64,
    /// `pktSndDropTotal`
    pub pkt_snd_drop_total: i32,
    /// `pktRcvDropTotal`
    pub pkt_rcv_drop_total: i32,
    /// `pktRcvUndecryptTotal`
    pub pkt_rcv_undecrypt_total: i32,
    /// `byteSentTotal`
    pub byte_sent_total: u64,
    /// `byteRecvTotal`
    pub byte_recv_total: u64,
    /// `byteRcvLossTotal`
    pub byte_rcv_loss_total: u64,
    /// `byteRetransTotal`
    pub byte_retrans_total: u64,
    /// `byteSndDropTotal`
    pub byte_snd_drop_total: u64,
    /// `byteRcvDropTotal`
    pub byte_rcv_drop_total: u64,
    /// `byteRcvUndecryptTotal`
    pub byte_rcv_undecrypt_total: u64,
    /// `pktSentUniqueTotal`
    pub pkt_sent_unique_total: i64,
    /// `pktRecvUniqueTotal`
    pub pkt_recv_unique_total: i64,
    /// `byteSentUniqueTotal`
    pub byte_sent_unique_total: u64,
    /// `byteRecvUniqueTotal`
    pub byte_recv_unique_total: u64,
    /// `pktSent`
    pub pkt_sent: i64,
    /// `pktRecv`
    pub pkt_recv: i64,
    /// `pktSndLoss`
    pub pkt_snd_loss: i32,
    /// `pktRcvLoss`
    pub pkt_rcv_loss: i32,
    /// `pktRetrans`
    pub pkt_retrans: i32,
    /// `pktRcvRetrans`
    pub pkt_rcv_retrans: i32,
    /// `pktSentACK`
    pub pkt_sent_ack: i32,
    /// `pktRecvACK`
    pub pkt_recv_ack: i32,
    /// `pktSentNAK`
    pub pkt_sent_nak: i32,
    /// `pktRecvNAK`
    pub pkt_recv_nak: i32,
    /// `mbpsSendRate`
    pub mbps_send_rate: Float64,
    /// `mbpsRecvRate`
    pub mbps_recv_rate: Float64,
    /// `usSndDuration`
    pub us_snd_duration: i64,
    /// `pktReorderDistance`
    pub pkt_reorder_distance: i32,
    /// `pktRcvAvgBelatedTime`
    pub pkt_rcv_avg_belated_time: Float64,
    /// `pktRcvBelated`
    pub pkt_rcv_belated: i64,
    /// `pktSndDrop`
    pub pkt_snd_drop: i32,
    /// `pktRcvDrop`
    pub pkt_rcv_drop: i32,
    /// `pktRcvUndecrypt`
    pub pkt_rcv_undecrypt: i32,
    /// `byteSent`
    pub byte_sent: u64,
    /// `byteRecv`
    pub byte_recv: u64,
    /// `byteRcvLoss`
    pub byte_rcv_loss: u64,
    /// `byteRetrans`
    pub byte_retrans: u64,
    /// `byteSndDrop`
    pub byte_snd_drop: u64,
    /// `byteRcvDrop`
    pub byte_rcv_drop: u64,
    /// `byteRcvUndecrypt`
    pub byte_rcv_undecrypt: u64,
    /// `pktSentUnique`
    pub pkt_sent_unique: i64,
    /// `pktRecvUnique`
    pub pkt_recv_unique: i64,
    /// `byteSentUnique`
    pub byte_sent_unique: u64,
    /// `byteRecvUnique`
    pub byte_recv_unique: u64,
    /// `usPktSndPeriod`
    pub us_pkt_snd_period: Float64,
    /// `pktFlowWindow`
    pub pkt_flow_window: i32,
    /// `pktCongestionWindow`
    pub pkt_congestion_window: i32,
    /// `pktFlightSize`
    pub pkt_flight_size: i32,
    /// `msRTT`
    pub ms_rtt: Float64,
    /// `mbpsBandwidth`
    pub mbps_bandwidth: Float64,
    /// `byteAvailSndBuf`
    pub byte_avail_snd_buf: i32,
    /// `byteAvailRcvBuf`
    pub byte_avail_rcv_buf: i32,
    /// `mbpsMaxBW`
    pub mbps_max_bw: Float64,
    /// `byteMSS`
    pub byte_mss: i32,
    /// `pktSndBuf`
    pub pkt_snd_buf: i32,
    /// `byteSndBuf`
    pub byte_snd_buf: i32,
    /// `msSndBuf`
    pub ms_snd_buf: i32,
    /// `msSndTsbPdDelay`
    pub ms_snd_tsbpd_delay: i32,
    /// `pktRcvBuf`
    pub pkt_rcv_buf: i32,
    /// `byteRcvBuf`
    pub byte_rcv_buf: i32,
    /// `msRcvBuf`
    pub ms_rcv_buf: i32,
    /// `msRcvTsbPdDelay`
    pub ms_rcv_tsbpd_delay: i32,
    /// `pktSndFilterExtraTotal`
    pub pkt_snd_filter_extra_total: i32,
    /// `pktRcvFilterExtraTotal`
    pub pkt_rcv_filter_extra_total: i32,
    /// `pktRcvFilterSupplyTotal`
    pub pkt_rcv_filter_supply_total: i32,
    /// `pktRcvFilterLossTotal`
    pub pkt_rcv_filter_loss_total: i32,
    /// `pktSndFilterExtra`
    pub pkt_snd_filter_extra: i32,
    /// `pktRcvFilterExtra`
    pub pkt_rcv_filter_extra: i32,
    /// `pktRcvFilterSupply`
    pub pkt_rcv_filter_supply: i32,
    /// `pktRcvFilterLoss`
    pub pkt_rcv_filter_loss: i32,
    /// `pktReorderTolerance`
    pub pkt_reorder_tolerance: i32,
}

/// Statistics of a socket.
#[derive(Debug, Clone, Copy)]
pub struct SrtStats {
    pub ms_timestamp: i64,
    pub pkt_sent_total: i64,
    pub pkt_recv_total: i64,
    pub pkt_snd_loss_total: i32,
    pub pkt_rcv_loss_total: i32,
    pub pkt_retrans_total: i32,
    pub pkt_sent_ack_total: i32,
    pub pkt_recv_ack_total: i32,
    pub pkt_sent_nak_total: i32,
    pub pkt_recv_nak_total: i32,
    pub us_snd_duration_total: i64,
    pub pkt_snd_drop_total: i32,
    pub pkt_rcv_drop_total: i32,
    pub pkt_rcv_undecrypt_total: i32,
    pub byte_sent_total: u64,
    pub byte_recv_total: u64,
    pub byte_rcv_loss_total: u64,
    pub byte_retrans_total: u64,
    pub byte_snd_drop_total: u64,
    pub byte_rcv_drop_total: u64,
    pub byte_rcv_undecrypt_total: u64,
    pub pkt_sent_unique_total: i64,
    pub pkt_recv_unique_total: i64,
    pub byte_sent_unique_total: u64,
    pub byte_recv_unique_total: u64,
    pub pkt_sent: i64,
    pub pkt_recv: i64,
    pub pkt_snd_loss: i32,
    pub pkt_rcv_loss: i32,
    pub pkt_retrans: i32,
    pub pkt_rcv_retrans: i32,
    /// Not among what libsrt counts; always zero.
    pub pkt_rcv_retrans_total: i32,
    pub pkt_sent_ack: i32,
    pub pkt_recv_ack: i32,
    pub pkt_sent_nak: i32,
    pub pkt_recv_nak: i32,
    pub mbps_send_rate: Float64,
    pub mbps_recv_rate: Float64,
    pub us_snd_duration: i64,
    pub pkt_reorder_distance: i32,
    pub pkt_rcv_avg_belated_time: Float64,
    pub pkt_rcv_belated: i64,
    pub pkt_snd_drop: i32,
    pub pkt_rcv_drop: i32,
    pub pkt_rcv_undecrypt: i32,
    pub byte_sent: u64,
    pub byte_recv: u64,
    pub byte_rcv_loss: u64,
    pub byte_retrans: u64,
    pub byte_snd_drop: u64,
    pub byte_rcv_drop: u64,
    pub byte_rcv_undecrypt: u64,
    pub pkt_sent_unique: i64,
    pub pkt_recv_unique: i64,
    pub byte_sent_unique: u64,
    pub byte_recv_unique: u64,
    pub us_pkt_snd_period: Float64,
    pub pkt_flow_window: i32,
    pub pkt_congestion_window: i32,
    pub pkt_flight_size: i32,
    pub ms_rtt: Float64,
    pub mbps_bandwidth: Float64,
    pub byte_avail_snd_buf: i32,
    pub byte_avail_rcv_buf: i32,
    pub mbps_max_bw: Float64,
    pub byte_mss: i32,
    pub pkt_snd_buf: i32,
    pub byte_snd_buf: i32,
    pub ms_snd_buf: i32,
    pub ms_snd_tsbpd_delay: i32,
    pub pkt_rcv_buf: i32,
    pub byte_rcv_buf: i32,
    pub ms_rcv_buf: i32,
    pub ms_rcv_tsbpd_delay: i32,
    pub pkt_snd_filter_extra_total: i32,
    pub pkt_rcv_filter_extra_total: i32,
    pub pkt_rcv_filter_supply_total: i32,
    pub pkt_rcv_filter_loss_total: i32,
    pub pkt_snd_filter_extra: i32,
    pub pkt_rcv_filter_extra: i32,
    pub pkt_rcv_filter_supply: i32,
    pub pkt_rcv_filter_loss: i32,
    pub pkt_reorder_tolerance: i32,
}

/// Statistics with every field zero.
pub open spec fn zeroed() -> SrtStats {
    SrtStats {
        ms_timestamp: 0,
        pkt_sent_total: 0,
        pkt_recv_total: 0,
        pkt_snd_loss_total: 0,
        pkt_rcv_loss_total: 0,
        pkt_retrans_total: 0,
        pkt_sent_ack_total: 0,
        pkt_recv_ack_total: 0,
        pkt_sent_nak_total: 0,
        pkt_recv_nak_total: 0,
        us_snd_duration_total: 0,
        pkt_snd_drop_total: 0,
        pkt_rcv_drop_total: 0,
        pkt_rcv_undecrypt_total: 0,
        byte_sent_total: 0,
        byte_recv_total: 0,
        byte_rcv_loss_total: 0,
        byte_retrans_total: 0,
        byte_snd_drop_total: 0,
        byte_rcv_drop_total: 0,
        byte_rcv_undecrypt_total: 0,
        pkt_sent_unique_total: 0,
        pkt_recv_unique_total: 0,
        byte_sent_unique_total: 0,
        byte_recv_unique_total: 0,
        pkt_sent: 0,
        pkt_recv: 0,
        pkt_snd_loss: 0,
        pkt_rcv_loss: 0,
        pkt_retrans: 0,
        pkt_rcv_retrans: 0,
        pkt_rcv_retrans_total: 0,
        pkt_sent_ack: 0,
        pkt_recv_ack: 0,
        pkt_sent_nak: 0,
        pkt_recv_nak: 0,
        mbps_send_rate: Float64 { bits: 0 },
        mbps_recv_rate: Float64 { bits: 0 },
        us_snd_duration: 0,
        pkt_reorder_distance: 0,
        pkt_rcv_avg_belated_time: Float64 { bits: 0 },
        pkt_rcv_belated: 0,
        pkt_snd_drop: 0,
        pkt_rcv_drop: 0,
        pkt_rcv_undecrypt: 0,
        byte_sent: 0,
        byte_recv: 0,
        byte_rcv_loss: 0,
        byte_retrans: 0,
        byte_snd_drop: 0,
        byte_rcv_drop: 0,
        byte_rcv_undecrypt: 0,
        pkt_sent_unique: 0,
        pkt_recv_unique: 0,
        byte_sent_unique: 0,
        byte_recv_unique: 0,
        us_pkt_snd_period: Float64 { bits: 0 },
        pkt_flow_window: 0,
        pkt_congestion_window: 0,
        pkt_flight_size: 0,
        ms_rtt: Float64 { bits: 0 },
        mbps_bandwidth: Float64 { bits: 0 },
        byte_avail_snd_buf: 0,
        byte_avail_rcv_buf: 0,
        mbps_max_bw: Float64 { bits: 0 },
        byte_mss: 0,
        pkt_snd_buf: 0,
        byte_snd_buf: 0,
        ms_snd_buf: 0,
        ms_snd_tsbpd_delay: 0,
        pkt_rcv_buf: 0,
        byte_rcv_buf: 0,
        ms_rcv_buf: 0,
        ms_rcv_tsbpd_delay: 0,
        pkt_snd_filter_extra_total: 0,
        pkt_rcv_filter_extra_total: 0,
        pkt_rcv_filter_supply_total: 0,
        pkt_rcv_filter_loss_total: 0,
        pkt_snd_filter_extra: 0,
        pkt_rcv_filter_extra: 0,
        pkt_rcv_filter_supply: 0,
        pkt_rcv_filter_loss: 0,
        pkt_reorder_tolerance: 0,
    }
}

/// The statistics that libsrt's counters stand for: each field as it is, and
/// zero for the one that libsrt does not count.
pub open spec fn stats_of(perf: PerfMon) -> SrtStats {
    SrtStats {
        ms_timestamp: perf.ms_timestamp,
        pkt_sent_total: perf.pkt_sent_total,
        pkt_recv_total: perf.pkt_recv_total,
        pkt_snd_loss_total: perf.pkt_snd_loss_total,
        pkt_rcv_loss_total: perf.pkt_rcv_loss_total,
        pkt_retrans_total: perf.pkt_retrans_total,
        pkt_sent_ack_total: perf.pkt_sent_ack_total,
        pkt_recv_ack_total: perf.pkt_recv_ack_total,
        pkt_sent_nak_total: perf.pkt_sent_nak_total,
        pkt_recv_nak_total: perf.pkt_recv_nak_total,
        us_snd_duration_total: perf.us_snd_duration_total,
        pkt_snd_drop_total: perf.pkt_snd_drop_total,
        pkt_rcv_drop_total: perf.pkt_rcv_drop_total,
        pkt_rcv_undecrypt_total: perf.pkt_rcv_undecrypt_total,
        byte_sent_total: perf.byte_sent_total,
        byte_recv_total: perf.byte_recv_total,
        byte_rcv_loss_total: perf.byte_rcv_loss_total,
        byte_retrans_total: perf.byte_retrans_total,
        byte_snd_drop_total: perf.byte_snd_drop_total,
        byte_rcv_drop_total: perf.byte_rcv_drop_total,
        byte_rcv_undecrypt_total: perf.byte_rcv_undecrypt_total,
        pkt_sent_unique_total: perf.pkt_sent_unique_total,
        pkt_recv_unique_total: perf.pkt_recv_unique_total,
        byte_sent_unique_total: perf.byte_sent_unique_total,
        byte_recv_unique_total: perf.byte_recv_unique_total,
        pkt_sent: perf.pkt_sent,
        pkt_recv: perf.pkt_recv,
        pkt_snd_loss: perf.pkt_snd_loss,
        pkt_rcv_loss: perf.pkt_rcv_loss,
        pkt_retrans: perf.pkt_retrans,
        pkt_rcv_retrans: perf.pkt_rcv_retrans,
        pkt_rcv_retrans_total: 0,
        pkt_sent_ack: perf.pkt_sent_ack,
        pkt_recv_ack: perf.pkt_recv_ack,
        pkt_sent_nak: perf.pkt_sent_nak,
        pkt_recv_nak: perf.pkt_recv_nak,
        mbps_send_rate: perf.mbps_send_rate,
        mbps_recv_rate: perf.mbps_recv_rate,
        us_snd_duration: perf.us_snd_duration,
        pkt_reorder_distance: perf.pkt_reorder_distance,
        pkt_rcv_avg_belated_time: perf.pkt_rcv_avg_belated_time,
        pkt_rcv_belated: perf.pkt_rcv_belated,
        pkt_snd_drop: perf.pkt_snd_drop,
        pkt_rcv_drop: perf.pkt_rcv_drop,
        pkt_rcv_undecrypt: perf.pkt_rcv_undecrypt,
        byte_sent: perf.byte_sent,
        byte_recv: perf.byte_recv,
        byte_rcv_loss: perf.byte_rcv_loss,
        byte_retrans: perf.byte_retrans,
        byte_snd_drop: perf.byte_snd_drop,
        byte_rcv_drop: perf.byte_rcv_drop,
        byte_rcv_undecrypt: perf.byte_rcv_undecrypt,
        pkt_sent_unique: perf.pkt_sent_unique,
        pkt_recv_unique: perf.pkt_recv_unique,
        byte_sent_unique: perf.byte_sent_unique,
        byte_recv_unique: perf.byte_recv_unique,
        us_pkt_snd_period: perf.us_pkt_snd_period,
        pkt_flow_window: perf.pkt_flow_window,
        pkt_congestion_window: perf.pkt_congestion_window,
        pkt_flight_size: perf.pkt_flight_size,
        ms_rtt: perf.ms_rtt,
        mbps_bandwidth: perf.mbps_bandwidth,
        byte_avail_snd_buf: perf.byte_avail_snd_buf,
        byte_avail_rcv_buf: perf.byte_avail_rcv_buf,
        mbps_max_bw: perf.mbps_max_bw,
        byte_mss: perf.byte_mss,
        pkt_snd_buf: perf.pkt_snd_buf,
        byte_snd_buf: perf.byte_snd_buf,
        ms_snd_buf: perf.ms_snd_buf,
        ms_snd_tsbpd_delay: perf.ms_snd_tsbpd_delay,
        pkt_rcv_buf: perf.pkt_rcv_buf,
        byte_rcv_buf: perf.byte_rcv_buf,
        ms_rcv_buf: perf.ms_rcv_buf,
        ms_rcv_tsbpd_delay: perf.ms_rcv_tsbpd_delay,
        pkt_snd_filter_extra_total: perf.pkt_snd_filter_extra_total,
        pkt_rcv_filter_extra_total: perf.pkt_rcv_filter_extra_total,
        pkt_rcv_filter_supply_total: perf.pkt_rcv_filter_supply_total,
        pkt_rcv_filter_loss_total: perf.pkt_rcv_filter_loss_total,
        pkt_snd_filter_extra: perf.pkt_snd_filter_extra,
        pkt_rcv_filter_extra: perf.pkt_rcv_filter_extra,
        pkt_rcv_filter_supply: perf.pkt_rcv_filter_supply,
        pkt_rcv_filter_loss: perf.pkt_rcv_filter_loss,
        pkt_reorder_tolerance: perf.pkt_reorder_tolerance,
    }
}

impl Default for SrtStats {
    fn default() -> (stats: SrtStats)
        ensures
            stats == zeroed(),
    {
        SrtStats {
            ms_timestamp: 0,
            pkt_sent_total: 0,
            pkt_recv_total: 0,
            pkt_snd_loss_total: 0,
            pkt_rcv_loss_total: 0,
            pkt_retrans_total: 0,
            pkt_sent_ack_total: 0,
            pkt_recv_ack_total: 0,
            pkt_sent_nak_total: 0,
            pkt_recv_nak_total: 0,
            us_snd_duration_total: 0,
            pkt_snd_drop_total: 0,
            pkt_rcv_drop_total: 0,
            pkt_rcv_undecrypt_total: 0,
            byte_sent_total: 0,
            byte_recv_total: 0,
            byte_rcv_loss_total: 0,
            byte_retrans_total: 0,
            byte_snd_drop_total: 0,
            byte_rcv_drop_total: 0,
            byte_rcv_undecrypt_total: 0,
            pkt_sent_unique_total: 0,
            pkt_recv_unique_total: 0,
            byte_sent_unique_total: 0,
            byte_recv_unique_total: 0,
            pkt_sent: 0,
            pkt_recv: 0,
            pkt_snd_loss: 0,
            pkt_rcv_loss: 0,
            pkt_retrans: 0,
            pkt_rcv_retrans: 0,
            pkt_rcv_retrans_total: 0,
            pkt_sent_ack: 0,
            pkt_recv_ack: 0,
            pkt_sent_nak: 0,
            pkt_recv_nak: 0,
            mbps_send_rate: Float64 { bits: 0 },
            mbps_recv_rate: Float64 { bits: 0 },
            us_snd_duration: 0,
            pkt_reorder_distance: 0,
            pkt_rcv_avg_belated_time: Float64 { bits: 0 },
            pkt_rcv_belated: 0,
            pkt_snd_drop: 0,
            pkt_rcv_drop: 0,
            pkt_rcv_undecrypt: 0,
            byte_sent: 0,
            byte_recv: 0,
            byte_rcv_loss: 0,
            byte_retrans: 0,
            byte_snd_drop: 0,
            byte_rcv_drop: 0,
            byte_rcv_undecrypt: 0,
            pkt_sent_unique: 0,
            pkt_recv_unique: 0,
            byte_sent_unique: 0,
            byte_recv_unique: 0,
            us_pkt_snd_period: Float64 { bits: 0 },
            pkt_flow_window: 0,
            pkt_congestion_window: 0,
            pkt_flight_size: 0,
            ms_rtt: Float64 { bits: 0 },
            mbps_bandwidth: Float64 { bits: 0 },
            byte_avail_snd_buf: 0,
            byte_avail_rcv_buf: 0,
            mbps_max_bw: Float64 { bits: 0 },
            byte_mss: 0,
            pkt_snd_buf: 0,
            byte_snd_buf: 0,
            ms_snd_buf: 0,
            ms_snd_tsbpd_delay: 0,
            pkt_rcv_buf: 0,
            byte_rcv_buf: 0,
            ms_rcv_buf: 0,
            ms_rcv_tsbpd_delay: 0,
            pkt_snd_filter_extra_total: 0,
            pkt_rcv_filter_extra_total: 0,
            pkt_rcv_filter_supply_total: 0,
            pkt_rcv_filter_loss_total: 0,
            pkt_snd_filter_extra: 0,
            pkt_rcv_filter_extra: 0,
            pkt_rcv_filter_supply: 0,
            pkt_rcv_filter_loss: 0,
            pkt_reorder_tolerance: 0,
        }
    }
}

/// Turns libsrt's counters into statistics.
pub fn convert_perfmon_to_stats(perf: &PerfMon) -> (stats: SrtStats)
    ensures
        stats == stats_of(*perf),
{
    SrtStats {
        ms_timestamp: perf.ms_timestamp,
        pkt_sent_total: perf.pkt_sent_total,
        pkt_recv_total: perf.pkt_recv_total,
        pkt_snd_loss_total: perf.pkt_snd_loss_total,
        pkt_rcv_loss_total: perf.pkt_rcv_loss_total,
        pkt_retrans_total: perf.pkt_retrans_total,
        pkt_sent_ack_total: perf.pkt_sent_ack_total,
        pkt_recv_ack_total: perf.pkt_recv_ack_total,
        pkt_sent_nak_total: perf.pkt_sent_nak_total,
        pkt_recv_nak_total: perf.pkt_recv_nak_total,
        us_snd_duration_total: perf.us_snd_duration_total,
        pkt_snd_drop_total: perf.pkt_snd_drop_total,
        pkt_rcv_drop_total: perf.pkt_rcv_drop_total,
        pkt_rcv_undecrypt_total: perf.pkt_rcv_undecrypt_total,
        byte_sent_total: perf.byte_sent_total,
        byte_recv_total: perf.byte_recv_total,
        byte_rcv_loss_total: perf.byte_rcv_loss_total,
        byte_retrans_total: perf.byte_retrans_total,
        byte_snd_drop_total: perf.byte_snd_drop_total,
        byte_rcv_drop_total: perf.byte_rcv_drop_total,
        byte_rcv_undecrypt_total: perf.byte_rcv_undecrypt_total,
        pkt_sent_unique_total: perf.pkt_sent_unique_total,
        pkt_recv_unique_total: perf.pkt_recv_unique_total,
        byte_sent_unique_total: perf.byte_sent_unique_total,
        byte_recv_unique_total: perf.byte_recv_unique_total,
        pkt_sent: perf.pkt_sent,
        pkt_recv: perf.pkt_recv,
        pkt_snd_loss: perf.pkt_snd_loss,
        pkt_rcv_loss: perf.pkt_rcv_loss,
        pkt_retrans: perf.pkt_retrans,
        pkt_rcv_retrans: perf.pkt_rcv_retrans,
        pkt_rcv_retrans_total: 0,
        pkt_sent_ack: perf.pkt_sent_ack,
        pkt_recv_ack: perf.pkt_recv_ack,
        pkt_sent_nak: perf.pkt_sent_nak,
        pkt_recv_nak: perf.pkt_recv_nak,
        mbps_send_rate: perf.mbps_send_rate,
        mbps_recv_rate: perf.mbps_recv_rate,
        us_snd_duration: perf.us_snd_duration,
        pkt_reorder_distance: perf.pkt_reorder_distance,
        pkt_rcv_avg_belated_time: perf.pkt_rcv_avg_belated_time,
        pkt_rcv_belated: perf.pkt_rcv_belated,
        pkt_snd_drop: perf.pkt_snd_drop,
        pkt_rcv_drop: perf.pkt_rcv_drop,
        pkt_rcv_undecrypt: perf.pkt_rcv_undecrypt,
        byte_sent: perf.byte_sent,
        byte_recv: perf.byte_recv,
        byte_rcv_loss: perf.byte_rcv_loss,
        byte_retrans: perf.byte_retrans,
        byte_snd_drop: perf.byte_snd_drop,
        byte_rcv_drop: perf.byte_rcv_drop,
        byte_rcv_undecrypt: perf.byte_rcv_undecrypt,
        pkt_sent_unique: perf.pkt_sent_unique,
        pkt_recv_unique: perf.pkt_recv_unique,
        byte_sent_unique: perf.byte_sent_unique,
        byte_recv_unique: perf.byte_recv_unique,
        us_pkt_snd_period: perf.us_pkt_snd_period,
        pkt_flow_window: perf.pkt_flow_window,
        pkt_congestion_window: perf.pkt_congestion_window,
        pkt_flight_size: perf.pkt_flight_size,
        ms_rtt: perf.ms_rtt,
        mbps_bandwidth: perf.mbps_bandwidth,
        byte_avail_snd_buf: perf.byte_avail_snd_buf,
        byte_avail_rcv_buf: perf.byte_avail_rcv_buf,
        mbps_max_bw: perf.mbps_max_bw,
        byte_mss: perf.byte_mss,
        pkt_snd_buf: perf.pkt_snd_buf,
        byte_snd_buf: perf.byte_snd_buf,
        ms_snd_buf: perf.ms_snd_buf,
        ms_snd_tsbpd_delay: perf.ms_snd_tsbpd_delay,
        pkt_rcv_buf: perf.pkt_rcv_buf,
        byte_rcv_buf: perf.byte_rcv_buf,
        ms_rcv_buf: perf.ms_rcv_buf,
        ms_rcv_tsbpd_delay: perf.ms_rcv_tsbpd_delay,
        pkt_snd_filter_extra_total: perf.pkt_snd_filter_extra_total,
        pkt_rcv_filter_extra_total: perf.pkt_rcv_filter_extra_total,
        pkt_rcv_filter_supply_total: perf.pkt_rcv_filter_supply_total,
        pkt_rcv_filter_loss_total: perf.pkt_rcv_filter_loss_total,
        pkt_snd_filter_extra: perf.pkt_snd_filter_extra,
        pkt_rcv_filter_extra: perf.pkt_rcv_filter_extra,
        pkt_rcv_filter_supply: perf.pkt_rcv_filter_supply,
        pkt_rcv_filter_loss: perf.pkt_rcv_filter_loss,
        pkt_reorder_tolerance: perf.pkt_reorder_tolerance,
    }
}

} // verus!
