use soomfon::input::{
    process_input, read_buttons, read_encoder_press, read_twist, DecodeError, DeviceInput,
};

fn buttons(input: u8, state: u8) -> Vec<bool> {
    match process_input(input, state).unwrap() {
        DeviceInput::ButtonStateChange(b) => b,
        other => panic!("expected ButtonStateChange, got {other:?}"),
    }
}

fn twist(input: u8) -> Vec<i8> {
    match process_input(input, 0).unwrap() {
        DeviceInput::EncoderTwist(v) => v,
        other => panic!("expected EncoderTwist, got {other:?}"),
    }
}

#[test]
fn first_lcd_key_press_sets_key_zero() {
    let b = buttons(1, 1);
    assert!(b[0]);
    assert_eq!(b.iter().filter(|&&p| p).count(), 1);
}

#[test]
fn plain_keys_map_to_last_three_slots() {
    assert!(buttons(0x25, 1)[6]);
    assert!(buttons(0x30, 1)[7]);
    assert!(buttons(0x31, 1)[8]);
}

#[test]
fn zero_report_is_all_released() {
    assert!(buttons(0, 1).iter().all(|&p| !p));
}

#[test]
fn encoder_rotation_is_signed_per_encoder() {
    assert_eq!(twist(0x90), vec![-1, 0, 0]);
    assert_eq!(twist(0x91), vec![1, 0, 0]);
    assert_eq!(twist(0x61), vec![0, 0, 1]);
}

#[test]
fn encoder_press_maps_0x35_to_middle() {
    match process_input(0x35, 1).unwrap() {
        DeviceInput::EncoderStateChange(s) => assert_eq!(s, vec![false, true, false]),
        other => panic!("expected EncoderStateChange, got {other:?}"),
    }
}

#[test]
fn unknown_report_is_bad_data() {
    assert!(matches!(process_input(0xAA, 0), Err(DecodeError::BadData)));
}

#[test]
fn key_release_reports_nothing_pressed() {
    assert_eq!(buttons(6, 0), vec![false; 9]);
    let b = buttons(6, 1);
    assert!(b[5]);
    assert_eq!(b.len(), 9);
}

#[test]
fn every_encoder_step_and_press() {
    assert_eq!(twist(0x50), vec![0, -1, 0]);
    assert_eq!(twist(0x51), vec![0, 1, 0]);
    assert_eq!(twist(0x60), vec![0, 0, -1]);
    assert_eq!(read_encoder_press(0x33, 7), vec![true, false, false]);
    assert_eq!(read_encoder_press(0x34, 1), vec![false, false, true]);
    assert_eq!(read_encoder_press(0x34, 0), vec![false, false, false]);
}

#[test]
fn decoders_return_blank_snapshots_for_foreign_codes() {
    assert_eq!(read_buttons(0x99, 1), vec![false; 9]);
    assert_eq!(read_twist(0x33), vec![0, 0, 0]);
    assert_eq!(read_encoder_press(0x90, 1), vec![false, false, false]);
}

#[test]
fn gaps_between_report_ranges_are_bad_data() {
    for input in [7u8, 0x24, 0x26, 0x32, 0x36, 0x52, 0x62, 0x92, 0xFF] {
        assert_eq!(process_input(input, 1), Err(DecodeError::BadData));
    }
}
