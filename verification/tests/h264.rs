use noor_rtc::h264::{avcc_to_annex_b, is_avcc_block_ok, is_decodable, param_sets_to_annex_b, AnnexBState, DecodePlan};

#[test]
fn avcc_units_get_start_codes() {
    // two units: [0xAA, 0xBB] and [0xCC]
    let data = [0, 0, 0, 2, 0xAA, 0xBB, 0, 0, 0, 1, 0xCC];
    let out = avcc_to_annex_b(Some(&data), false, &[9, 9]);
    assert_eq!(out, vec![0, 0, 0, 1, 0xAA, 0xBB, 0, 0, 0, 1, 0xCC]);
}

#[test]
fn key_frames_carry_format_bytes() {
    let data = [0, 0, 0, 1, 0x65];
    let out = avcc_to_annex_b(Some(&data), true, &[0, 0, 0, 1, 0x67]);
    assert_eq!(out, vec![0, 0, 0, 1, 0x67, 0, 0, 0, 1, 0x65]);
}

#[test]
fn no_data_buffer_gives_empty_frame() {
    let out = avcc_to_annex_b(None, true, &[1, 2, 3]);
    assert!(out.is_empty());
}

#[test]
fn header_only_buffer_gives_nothing() {
    let out = avcc_to_annex_b(Some(&[0, 0, 0, 0]), false, &[]);
    assert!(out.is_empty());
}

#[test]
fn param_sets_framed_in_order() {
    let out = param_sets_to_annex_b(&vec![vec![0x67, 1], vec![0x68]]);
    assert_eq!(out, vec![0, 0, 0, 1, 0x67, 1, 0, 0, 0, 1, 0x68]);
}

fn key_frame() -> Vec<u8> {
    let mut f = vec![0, 0, 0, 1, 0x67, 0x42, 0x00, 0x1f];
    f.extend_from_slice(&[0, 0, 0, 1, 0x68, 0xce, 0x3c]);
    f.extend_from_slice(&[0, 0, 0, 1, 0x65, 0x88, 0x84, 0x00]);
    // padding so the fixed scan windows stay inside the frame
    f.extend_from_slice(&[0x11; 40]);
    f
}

#[test]
fn key_frame_is_split_into_params_and_idr() {
    let frame = key_frame();
    let mut st = AnnexBState::new();
    match st.annex_b_to_avcc(&frame, false) {
        DecodePlan::Decode(fr) => {
            let ps = fr.param_sets.expect("param sets");
            assert_eq!(ps.sps, vec![0x67, 0x42, 0x00, 0x1f]);
            assert_eq!(ps.pps, vec![0x68, 0xce, 0x3c]);
            let body_len = frame.len() - 15 - 4;
            let mut expected = (body_len as u32).to_be_bytes().to_vec();
            expected.extend_from_slice(&frame[19..]);
            assert_eq!(fr.block, expected);
        }
        DecodePlan::Skip => panic!("key frame skipped"),
    }
    assert_eq!(st.sps_size, 8);
    assert_eq!(st.pps_size, 7);
}

#[test]
fn delta_frame_without_format_is_skipped() {
    let frame = [0, 0, 0, 1, 0x41, 1, 2, 3];
    let mut st = AnnexBState::new();
    assert!(matches!(st.annex_b_to_avcc(&frame, false), DecodePlan::Skip));
}

#[test]
fn delta_frame_gets_length_header() {
    let frame = [0, 0, 0, 1, 0x41, 1, 2, 3];
    let mut st = AnnexBState::new();
    match st.annex_b_to_avcc(&frame, true) {
        DecodePlan::Decode(fr) => {
            assert!(fr.param_sets.is_none());
            assert_eq!(fr.block, vec![0, 0, 0, 4, 0x41, 1, 2, 3]);
        }
        DecodePlan::Skip => panic!("delta frame skipped"),
    }
}

#[test]
fn decodable_frames_are_recognised() {
    assert!(is_decodable(&key_frame(), false, 0, 0));
    assert!(is_decodable(&[0, 0, 0, 1, 0x41, 1, 2, 3], true, 0, 0));
    assert!(is_decodable(&[0, 0, 0, 1, 0x41, 1, 2, 3], false, 0, 0));
    // too short to hold a NAL unit header
    assert!(!is_decodable(&[0, 0, 0, 1], true, 0, 0));
    // an SPS whose scan for the next start code runs off the frame
    assert!(!is_decodable(&[0, 0, 0, 1, 0x67, 0x42, 0x00, 0x1f], false, 0, 0));
    // a delta frame that is neither an IDR nor a non-IDR slice (SEI, type 6)
    assert!(!is_decodable(&[0, 0, 0, 1, 0x06, 1, 2, 3], true, 0, 0));
    // an IDR slice whose remembered parameter sets do not fit the frame
    assert!(!is_decodable(&[0, 0, 0, 1, 0x65, 1, 2, 3], true, 8, 7));
    assert!(is_decodable(&[0, 0, 0, 1, 0x65, 1, 2, 3], true, 2, 2));
}

#[test]
fn delta_frame_round_trip() {
    let avcc = vec![0, 0, 0, 4, 0x41, 0x9a, 0x02, 0x07];
    let annex_b = avcc_to_annex_b(Some(&avcc), false, &[]);
    assert_eq!(annex_b, vec![0, 0, 0, 1, 0x41, 0x9a, 0x02, 0x07]);
    let mut st = AnnexBState::new();
    assert!(is_decodable(&annex_b, true, st.sps_size, st.pps_size));
    match st.annex_b_to_avcc(&annex_b, true) {
        DecodePlan::Decode(fr) => {
            assert!(fr.param_sets.is_none());
            assert_eq!(fr.block, avcc);
        }
        DecodePlan::Skip => panic!("delta frame skipped"),
    }
}

#[test]
fn key_frame_round_trip() {
    let sps = vec![0x67, 0x42, 0xc0, 0x1f, 0xda];
    let pps = vec![0x68, 0xce, 0x3c, 0x80];
    let idr = vec![0x65, 0x88, 0x84, 0x21, 0xa0];
    let mut avcc = (idr.len() as u32).to_be_bytes().to_vec();
    avcc.extend_from_slice(&idr);
    let header = param_sets_to_annex_b(&vec![sps.clone(), pps.clone()]);
    let annex_b = avcc_to_annex_b(Some(&avcc), true, &header);
    let mut st = AnnexBState::new();
    assert!(is_decodable(&annex_b, false, st.sps_size, st.pps_size));
    match st.annex_b_to_avcc(&annex_b, false) {
        DecodePlan::Decode(fr) => {
            let ps = fr.param_sets.expect("param sets");
            assert_eq!(ps.sps, sps);
            assert_eq!(ps.pps, pps);
            assert_eq!(fr.block, avcc);
        }
        DecodePlan::Skip => panic!("key frame skipped"),
    }
}

#[test]
fn avcc_blocks_are_checked() {
    assert!(is_avcc_block_ok(&[0, 0, 0, 2, 0x41, 1, 0, 0, 0, 1, 0x41]));
    assert!(is_avcc_block_ok(&[0, 0, 0, 0]));
    assert!(!is_avcc_block_ok(&[0, 0, 0]));
    // an empty unit
    assert!(!is_avcc_block_ok(&[0, 0, 0, 0, 0x41]));
    // a unit running past the end
    assert!(!is_avcc_block_ok(&[0, 0, 0, 9, 0x41, 1]));
}
