use cornhacks24_game::serial::{
    decode_button, on_read, port_settings, DataBits, FlowControl, Parity, ReadAction, ReadOutcome,
    StopBits, BAUD_RATE,
};

#[test]
fn no_port_no_settings() {
    assert!(port_settings(&Vec::new()).is_none());
}

#[test]
fn first_port_is_chosen() {
    let names = vec!["/dev/ttyUSB0".to_string(), "/dev/ttyS0".to_string()];
    let s = port_settings(&names).unwrap();
    assert_eq!(s.path, "/dev/ttyUSB0");
    assert_eq!(s.baud_rate, 9600);
    assert_eq!(BAUD_RATE, 9600);
    assert_eq!(s.stop_bits, StopBits::Two);
    assert_eq!(s.data_bits, DataBits::Six);
    assert_eq!(s.parity, Parity::Off);
    assert_eq!(s.flow_control, FlowControl::Off);
    assert_eq!(s.timeout_ms, 0);
}

#[test]
fn digit_bytes_decode_to_bits() {
    assert_eq!(decode_button(1, b'0'), Some(0));
    assert_eq!(decode_button(1, b'1'), Some(1));
}

#[test]
fn other_reads_decode_to_nothing() {
    assert_eq!(decode_button(1, b'2'), None);
    assert_eq!(decode_button(1, 47), None);
    assert_eq!(decode_button(0, b'1'), None);
    assert_eq!(decode_button(2, b'0'), None);
}

#[test]
fn decoded_values_are_bits() {
    for count in 0..4usize {
        for byte in 0..=255u8 {
            if let Some(b) = decode_button(count, byte) {
                assert!(b <= 1);
                assert_eq!(b == 1, byte == 49);
            }
        }
    }
}

#[test]
fn bits_round_trip() {
    for bit in 0..=1u8 {
        assert_eq!(decode_button(1, 48 + bit), Some(bit));
    }
}

#[test]
fn read_decisions() {
    assert_eq!(on_read(ReadOutcome::Bytes { count: 1, first: b'1' }), ReadAction::Announce(1));
    assert_eq!(on_read(ReadOutcome::Bytes { count: 1, first: b'0' }), ReadAction::Announce(0));
    assert_eq!(on_read(ReadOutcome::Bytes { count: 1, first: b'x' }), ReadAction::Ignore);
    assert_eq!(on_read(ReadOutcome::Bytes { count: 0, first: b'1' }), ReadAction::Ignore);
    assert_eq!(on_read(ReadOutcome::TimedOut), ReadAction::Ignore);
    assert_eq!(on_read(ReadOutcome::Failed), ReadAction::Report);
}
