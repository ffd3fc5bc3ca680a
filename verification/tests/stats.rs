//! Statistics.

use srt_transport::stats::{convert_perfmon_to_stats, Float64, PerfMon, SrtStats};

/// Counters that are all told apart.
fn numbered() -> PerfMon {
    PerfMon {
        ms_timestamp: 1,
        pkt_sent_total: 2,
        pkt_recv_total: 3,
        pkt_snd_loss_total: 4,
        pkt_rcv_loss_total: 5,
        pkt_retrans_total: 6,
        pkt_sent_ack_total: 7,
        pkt_recv_ack_total: 8,
        pkt_sent_nak_total: 9,
        pkt_recv_nak_total: 10,
        us_snd_duration_total: 11,
        pkt_snd_drop_total: 12,
        pkt_rcv_drop_total: 13,
        pkt_rcv_undecrypt_total: 14,
        byte_sent_total: 15,
        byte_recv_total: 16,
        byte_rcv_loss_total: 17,
        byte_retrans_total: 18,
        byte_snd_drop_total: 19,
        byte_rcv_drop_total: 20,
        byte_rcv_undecrypt_total: 21,
        pkt_sent_unique_total: 22,
        pkt_recv_unique_total: 23,
        byte_sent_unique_total: 24,
        byte_recv_unique_total: 25,
        pkt_sent: 26,
        pkt_recv: 27,
        pkt_snd_loss: 28,
        pkt_rcv_loss: 29,
        pkt_retrans: 30,
        pkt_rcv_retrans: 31,
        pkt_sent_ack: 32,
        pkt_recv_ack: 33,
        pkt_sent_nak: 34,
        pkt_recv_nak: 35,
        mbps_send_rate: Float64 { bits: 36 },
        mbps_recv_rate: Float64 { bits: 37 },
        us_snd_duration: 38,
        pkt_reorder_distance: 39,
        pkt_rcv_avg_belated_time: Float64 { bits: 40 },
        pkt_rcv_belated: 41,
        pkt_snd_drop: 42,
        pkt_rcv_drop: 43,
        pkt_rcv_undecrypt: 44,
        byte_sent: 45,
        byte_recv: 46,
        byte_rcv_loss: 47,
        byte_retrans: 48,
        byte_snd_drop: 49,
        byte_rcv_drop: 50,
        byte_rcv_undecrypt: 51,
        pkt_sent_unique: 52,
        pkt_recv_unique: 53,
        byte_sent_unique: 54,
        byte_recv_unique: 55,
        us_pkt_snd_period: Float64 { bits: 56 },
        pkt_flow_window: 57,
        pkt_congestion_window: 58,
        pkt_flight_size: 59,
        ms_rtt: Float64 { bits: 60 },
        mbps_bandwidth: Float64 { bits: 61 },
        byte_avail_snd_buf: 62,
        byte_avail_rcv_buf: 63,
        mbps_max_bw: Float64 { bits: 64 },
        byte_mss: 65,
        pkt_snd_buf: 66,
        byte_snd_buf: 67,
        ms_snd_buf: 68,
        ms_snd_tsbpd_delay: 69,
        pkt_rcv_buf: 70,
        byte_rcv_buf: 71,
        ms_rcv_buf: 72,
        ms_rcv_tsbpd_delay: 73,
        pkt_snd_filter_extra_total: 74,
        pkt_rcv_filter_extra_total: 75,
        pkt_rcv_filter_supply_total: 76,
        pkt_rcv_filter_loss_total: 77,
        pkt_snd_filter_extra: 78,
        pkt_rcv_filter_extra: 79,
        pkt_rcv_filter_supply: 80,
        pkt_rcv_filter_loss: 81,
        pkt_reorder_tolerance: 82,
    }
}

#[test]
fn every_counter_reaches_its_statistic() {
    let stats = convert_perfmon_to_stats(&numbered());
    assert_eq!(stats.ms_timestamp, 1);
    assert_eq!(stats.pkt_sent_total, 2);
    assert_eq!(stats.pkt_recv_total, 3);
    assert_eq!(stats.pkt_snd_loss_total, 4);
    assert_eq!(stats.pkt_rcv_loss_total, 5);
    assert_eq!(stats.pkt_retrans_total, 6);
    assert_eq!(stats.pkt_sent_ack_total, 7);
    assert_eq!(stats.pkt_recv_ack_total, 8);
    assert_eq!(stats.pkt_sent_nak_total, 9);
    assert_eq!(stats.pkt_recv_nak_total, 10);
    assert_eq!(stats.us_snd_duration_total, 11);
    assert_eq!(stats.pkt_snd_drop_total, 12);
    assert_eq!(stats.pkt_rcv_drop_total, 13);
    assert_eq!(stats.pkt_rcv_undecrypt_total, 14);
    assert_eq!(stats.byte_sent_total, 15);
    assert_eq!(stats.byte_recv_total, 16);
    assert_eq!(stats.byte_rcv_loss_total, 17);
    assert_eq!(stats.byte_retrans_total, 18);
    assert_eq!(stats.byte_snd_drop_total, 19);
    assert_eq!(stats.byte_rcv_drop_total, 20);
    assert_eq!(stats.byte_rcv_undecrypt_total, 21);
    assert_eq!(stats.pkt_sent_unique_total, 22);
    assert_eq!(stats.pkt_recv_unique_total, 23);
    assert_eq!(stats.byte_sent_unique_total, 24);
    assert_eq!(stats.byte_recv_unique_total, 25);
    assert_eq!(stats.pkt_sent, 26);
    assert_eq!(stats.pkt_recv, 27);
    assert_eq!(stats.pkt_snd_loss, 28);
    assert_eq!(stats.pkt_rcv_loss, 29);
    assert_eq!(stats.pkt_retrans, 30);
    assert_eq!(stats.pkt_rcv_retrans, 31);
    assert_eq!(stats.pkt_rcv_retrans_total, 0);
    assert_eq!(stats.pkt_sent_ack, 32);
    assert_eq!(stats.pkt_recv_ack, 33);
    assert_eq!(stats.pkt_sent_nak, 34);
    assert_eq!(stats.pkt_recv_nak, 35);
    assert_eq!(stats.mbps_send_rate, Float64 { bits: 36 });
    assert_eq!(stats.mbps_recv_rate, Float64 { bits: 37 });
    assert_eq!(stats.us_snd_duration, 38);
    assert_eq!(stats.pkt_reorder_distance, 39);
    assert_eq!(stats.pkt_rcv_avg_belated_time, Float64 { bits: 40 });
    assert_eq!(stats.pkt_rcv_belated, 41);
    assert_eq!(stats.pkt_snd_drop, 42);
    assert_eq!(stats.pkt_rcv_drop, 43);
    assert_eq!(stats.pkt_rcv_undecrypt, 44);
    assert_eq!(stats.byte_sent, 45);
    assert_eq!(stats.byte_recv, 46);
    assert_eq!(stats.byte_rcv_loss, 47);
    assert_eq!(stats.byte_retrans, 48);
    assert_eq!(stats.byte_snd_drop, 49);
    assert_eq!(stats.byte_rcv_drop, 50);
    assert_eq!(stats.byte_rcv_undecrypt, 51);
    assert_eq!(stats.pkt_sent_unique, 52);
    assert_eq!(stats.pkt_recv_unique, 53);
    assert_eq!(stats.byte_sent_unique, 54);
    assert_eq!(stats.byte_recv_unique, 55);
    assert_eq!(stats.us_pkt_snd_period, Float64 { bits: 56 });
    assert_eq!(stats.pkt_flow_window, 57);
    assert_eq!(stats.pkt_congestion_window, 58);
    assert_eq!(stats.pkt_flight_size, 59);
    assert_eq!(stats.ms_rtt, Float64 { bits: 60 });
    assert_eq!(stats.mbps_bandwidth, Float64 { bits: 61 });
    assert_eq!(stats.byte_avail_snd_buf, 62);
    assert_eq!(stats.byte_avail_rcv_buf, 63);
    assert_eq!(stats.mbps_max_bw, Float64 { bits: 64 });
    assert_eq!(stats.byte_mss, 65);
    assert_eq!(stats.pkt_snd_buf, 66);
    assert_eq!(stats.byte_snd_buf, 67);
    assert_eq!(stats.ms_snd_buf, 68);
    assert_eq!(stats.ms_snd_tsbpd_delay, 69);
    assert_eq!(stats.pkt_rcv_buf, 70);
    assert_eq!(stats.byte_rcv_buf, 71);
    assert_eq!(stats.ms_rcv_buf, 72);
    assert_eq!(stats.ms_rcv_tsbpd_delay, 73);
    assert_eq!(stats.pkt_snd_filter_extra_total, 74);
    assert_eq!(stats.pkt_rcv_filter_extra_total, 75);
    assert_eq!(stats.pkt_rcv_filter_supply_total, 76);
    assert_eq!(stats.pkt_rcv_filter_loss_total, 77);
    assert_eq!(stats.pkt_snd_filter_extra, 78);
    assert_eq!(stats.pkt_rcv_filter_extra, 79);
    assert_eq!(stats.pkt_rcv_filter_supply, 80);
    assert_eq!(stats.pkt_rcv_filter_loss, 81);
    assert_eq!(stats.pkt_reorder_tolerance, 82);
}

#[test]
fn statistics_begin_at_zero() {
    let stats = SrtStats::default();
    assert_eq!(stats.pkt_sent_total, 0);
    assert_eq!(stats.ms_rtt, Float64 { bits: 0 });
    assert_eq!(f64::from_bits(stats.mbps_bandwidth.bits), 0.0);
}
