use noor_rtc::jitter::{JitterCore, JitterStatus, TickStep, CAP_PACKETS_HELD_BACK};

// 1 kHz mono keeps the numbers small: 10 ms = 10 samples.
fn small() -> JitterCore<u32, i32> {
    JitterCore::new(1000, 1)
}

#[test]
fn new_buffer_waits_for_first_packet() {
    let j = small();
    assert_eq!(j.status(), JitterStatus::WaitingForFirstPacket);
    assert_eq!(j.sample_count_10ms(), 10);
    assert_eq!(j.get_packets_len(), 0);
}

#[test]
fn sample_count_10ms_stereo_48k() {
    let j: JitterCore<u32, i32> = JitterCore::new(48_000, 2);
    assert_eq!(j.sample_count_10ms(), 960);
}

#[test]
fn first_packet_starts_buffering() {
    let mut j = small();
    j.insert_packet(7);
    assert_eq!(j.status(), JitterStatus::WaitingForMorePackets);
    assert_eq!(j.get_packets_len(), 1);
}

#[test]
fn tick_before_first_packet_does_nothing() {
    let mut j = small();
    assert!(matches!(j.tick(), TickStep::Waiting));
}

#[test]
fn tick_decodes_oldest_then_counts_loss() {
    let mut j = small();
    j.insert_packet(1);
    j.insert_packet(2);
    match j.tick() {
        TickStep::Decode { packet, decode_fec_first } => {
            assert_eq!(packet, 1);
            assert!(!decode_fec_first);
        }
        _ => panic!("expected decode"),
    }
    match j.tick() {
        TickStep::Decode { packet, .. } => assert_eq!(packet, 2),
        _ => panic!("expected decode"),
    }
    assert!(matches!(j.tick(), TickStep::Lost));
    j.insert_packet(3);
    match j.tick() {
        TickStep::Decode { packet, decode_fec_first } => {
            assert_eq!(packet, 3);
            assert!(decode_fec_first);
        }
        _ => panic!("expected decode"),
    }
}

#[test]
fn queue_is_cut_when_too_many_packets_held() {
    let mut j = small();
    for p in 0..(CAP_PACKETS_HELD_BACK as u32 + 1) {
        j.insert_packet(p);
    }
    assert_eq!(j.get_packets_len(), CAP_PACKETS_HELD_BACK + 1);
    j.insert_packet(999);
    assert_eq!(j.get_packets_len(), 2);
    match j.tick() {
        TickStep::Decode { packet, .. } => assert_eq!(packet, CAP_PACKETS_HELD_BACK as u32),
        _ => panic!("expected decode"),
    }
}

#[test]
fn silence_until_minimum_buffered() {
    let mut j = small();
    j.insert_packet(0);
    let samples: Vec<i32> = (1..=100).collect();
    j.push_decoded(&samples, false);
    let mut out = j.allocate_output_buffer(0);
    // exactly 100 ms buffered is not more than the minimum: still silence
    assert_eq!(j.get_audio(&mut out, 0), 10);
    assert_eq!(out, vec![0; 10]);
    assert_eq!(j.status(), JitterStatus::WaitingForMorePackets);
    j.push_decoded(&[101], false);
    assert_eq!(j.get_audio(&mut out, 0), 10);
    assert_eq!(out, (1..=10).collect::<Vec<i32>>());
    assert_eq!(j.status(), JitterStatus::Normal);
}

#[test]
fn running_dry_switches_to_increasing_buffer() {
    let mut j = small();
    j.insert_packet(0);
    let samples: Vec<i32> = (1..=105).collect();
    j.push_decoded(&samples, false);
    let mut out = j.allocate_output_buffer(0);
    for _ in 0..10 {
        j.get_audio(&mut out, 0);
    }
    // 5 samples left: less than 10 ms
    assert_eq!(j.get_audio(&mut out, -1), 10);
    assert_eq!(out, vec![-1; 10]);
    assert_eq!(j.status(), JitterStatus::IncreasingBuffer);
}

#[test]
fn full_buffer_with_backlog_plays_double_speed() {
    let mut j: JitterCore<u32, i32> = JitterCore::new(1000, 2);
    // 10 ms = 20 samples (10 stereo frames)
    j.insert_packet(0);
    let samples: Vec<i32> = (0..2000).collect();
    j.push_decoded(&samples, false);
    let mut out = j.allocate_output_buffer(0);
    j.get_audio(&mut out, 0);
    assert_eq!(j.status(), JitterStatus::Normal);
    for p in 0..25 {
        j.insert_packet(p);
    }
    assert_eq!(j.get_audio(&mut out, 0), 20);
    assert_eq!(j.status(), JitterStatus::DecreasingBuffer);
    // frames (40,41) dropped, (42,43) kept, ...
    let expected: Vec<i32> = (0..10).flat_map(|k| vec![20 + 4 * k + 2, 20 + 4 * k + 3]).collect();
    assert_eq!(out, expected);
}

#[test]
fn fec_audio_is_counted() {
    let mut j = small();
    j.push_decoded(&[1, 2, 3], true);
    j.push_decoded(&[4], false);
    let mut out = j.allocate_output_buffer(0);
    assert_eq!(j.get_audio(&mut out, 0), 10);
}

#[test]
fn packet_duration_from_decoder() {
    let j: JitterCore<u32, i32> = JitterCore::new(48_000, 2);
    assert_eq!(j.samples_to_ms(960), 20);
    assert_eq!(j.last_packet_duration_ms(0), (20, 0));
    assert_eq!(j.last_packet_duration_ms(480), (10, 480));
}

#[test]
fn overflowing_push_skips_oldest() {
    let mut j = small();
    let big: Vec<i32> = vec![1; 96000];
    j.push_decoded(&big, false);
    j.push_decoded(&[2, 3], false);
    j.insert_packet(0);
    let mut out = j.allocate_output_buffer(0);
    j.get_audio(&mut out, 0);
    assert_eq!(out, vec![1; 10]);
}

#[test]
fn pop_audio_keeps_waiting_status_and_reads_oldest() {
    let mut j = small();
    j.insert_packet(1);
    let samples: Vec<i32> = (0..20).collect();
    j.push_decoded(&samples, false);
    assert_eq!(j.status(), JitterStatus::WaitingForMorePackets);
    let mut out = j.allocate_output_buffer(0);
    assert_eq!(j.pop_audio(&mut out, 0), 10);
    assert_eq!(out, (0..10).collect::<Vec<i32>>());
    // a waiting status stays as it is
    assert_eq!(j.status(), JitterStatus::WaitingForMorePackets);
    assert_eq!(j.buffered_len(), 10);
}
