use noor_rtc::platform::MAX_KEY_CODE;

#[test]
fn key_pressed() {
    let _ = noor_rtc::platform::key_pressed(&[]);
}

#[test]
fn trying_to_write_test() {
    assert!(true);
}

#[test]
fn no_key_pressed_when_all_up() {
    let states = vec![false; MAX_KEY_CODE as usize + 1];
    assert!(!noor_rtc::platform::key_pressed(&states));
}

#[test]
fn last_scanned_key_counts() {
    let mut states = vec![false; MAX_KEY_CODE as usize + 1];
    states[MAX_KEY_CODE as usize] = true;
    assert!(noor_rtc::platform::key_pressed(&states));
}

#[test]
fn keys_beyond_scan_range_ignored() {
    let mut states = vec![false; MAX_KEY_CODE as usize + 10];
    states[MAX_KEY_CODE as usize + 1] = true;
    assert!(!noor_rtc::platform::key_pressed(&states));
}
