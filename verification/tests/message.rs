use rzw::cmds::CommandClass;
use rzw::cmds::Message;
use rzw::error::ParseError;

#[test]
fn parse_rejects_an_empty_input() {
    assert_eq!(Message::parse(&[]).unwrap_err(), ParseError::EmptyFrame);
}

#[test]
fn parse_rejects_one_and_two_bytes() {
    assert_eq!(Message::parse(&[0x01]).unwrap_err(), ParseError::FrameTooShort);
    assert_eq!(Message::parse(&[0x01, 0x02]).unwrap_err(), ParseError::FrameTooShort);
}

#[test]
fn parse_rejects_three_bytes_without_reading_past_them() {
    assert_eq!(Message::parse(&[0x01, 0x02, 0x03]).unwrap_err(), ParseError::FrameTooShort);
    assert_eq!(Message::parse(&[0x00, 0x00, 0x00]).unwrap_err(), ParseError::FrameTooShort);
    assert_eq!(Message::parse(&[0xFF, 0x01, 0x20]).unwrap_err(), ParseError::FrameTooShort);
}

#[test]
fn parse_returns_a_result_for_every_length() {
    for n in 0..=16usize {
        let input = vec![0x20u8; n];
        match Message::parse(&input) {
            Ok(m) => {
                assert!(n >= 4);
                assert_eq!(m.data.len(), n - 4);
                assert_eq!(m.raw, input);
            }
            Err(ParseError::EmptyFrame) => assert_eq!(n, 0),
            Err(ParseError::FrameTooShort) => assert!(1 <= n && n <= 3),
        }
    }
}

#[test]
fn parse_reads_a_basic_frame() {
    let m = Message::parse(&[0x02, 0x03, 0x00, 0x20, 0xFF]).unwrap();
    // the device is the second byte of the input
    assert_eq!(m.node_id, 0x03);
    assert_eq!(m.cmd_class, CommandClass::BASIC);
    assert_eq!(m.cmd, 0x20);
    assert_eq!(m.data, vec![0xFF]);
    assert_eq!(m.raw, vec![0x02, 0x03, 0x00, 0x20, 0xFF]);
}

#[test]
fn parse_reads_class_and_command_from_the_fourth_byte() {
    let m = Message::parse(&[0x07, 0x09, 0x25, 0x32, 0x01, 0x02]).unwrap();
    assert_eq!(m.node_id, 0x09);
    assert_eq!(m.cmd_class, CommandClass::METER);
    assert_eq!(m.cmd, 0x32);
    assert_eq!(m.data, vec![0x01, 0x02]);
}

#[test]
fn parse_ignores_the_third_byte() {
    for third in 0..=255u8 {
        let m = Message::parse(&[0x01, 0x04, third, 0x80, 0x10, 0x11]).unwrap();
        assert_eq!(m.node_id, 0x04);
        assert_eq!(m.cmd_class, CommandClass::BATTERY);
        assert_eq!(m.cmd, 0x80);
        assert_eq!(m.data, vec![0x10, 0x11]);
        assert_eq!(m.raw[2], third);
    }
}

#[test]
fn parse_of_four_bytes_has_no_payload() {
    let m = Message::parse(&[0x02, 0x02, 0x20, 0x25]).unwrap();
    assert_eq!(m.node_id, 0x02);
    assert_eq!(m.cmd_class, CommandClass::SWITCH_BINARY);
    assert_eq!(m.cmd, 0x25);
    assert!(m.data.is_empty());
    assert_eq!(m.raw, vec![0x02, 0x02, 0x20, 0x25]);
}

#[test]
fn parse_resolves_an_unknown_class_to_no_operation() {
    let m = Message::parse(&[0x02, 0x03, 0x00, 0x1B, 0xFF]).unwrap();
    assert_eq!(m.cmd_class, CommandClass::NO_OPERATION);
    assert_eq!(m.cmd, 0x1B);
    assert_eq!(m.data, vec![0xFF]);
}

#[test]
fn parse_does_not_check_the_length_byte() {
    let short = Message::parse(&[0x02, 0x00, 0x00, 0x20, 0x01, 0x02, 0x03]).unwrap();
    assert_eq!(short.data, vec![0x01, 0x02, 0x03]);
    let long = Message::parse(&[0x02, 0xFF, 0x00, 0x20, 0x01]).unwrap();
    assert_eq!(long.node_id, 0xFF);
    assert_eq!(long.data, vec![0x01]);
}

#[test]
fn parse_keeps_the_input_as_raw() {
    let input: Vec<u8> = (0..40u8).collect();
    let m = Message::parse(&input).unwrap();
    assert_eq!(m.raw, input);
    assert_eq!(m.data, input[4..].to_vec());
}

#[test]
fn new_leaves_raw_empty() {
    let m = Message::new(0x02, CommandClass::BASIC, 0x01, vec![0xFF]);
    assert_eq!(m.node_id, 0x02);
    assert_eq!(m.cmd_class, CommandClass::BASIC);
    assert_eq!(m.cmd, 0x01);
    assert_eq!(m.data, vec![0xFF]);
    assert!(m.raw.is_empty());
}

#[test]
fn new_with_raw_keeps_every_field() {
    let m = Message::new_with_raw(0x05, CommandClass::METER, 0x02, vec![1, 2], vec![9, 8, 7]);
    assert_eq!(m.node_id, 0x05);
    assert_eq!(m.cmd_class, CommandClass::METER);
    assert_eq!(m.cmd, 0x02);
    assert_eq!(m.data, vec![1, 2]);
    assert_eq!(m.raw, vec![9, 8, 7]);
}

#[test]
fn to_vec_of_a_basic_message() {
    let m = Message::new(0x02, CommandClass::BASIC, 0x01, vec![0xFF]);
    assert_eq!(m.to_vec(), vec![0x02, 0x03, 0x20, 0x01, 0xFF]);
}

#[test]
fn to_vec_without_payload() {
    let m = Message::new(0x10, CommandClass::SWITCH_BINARY, 0x02, vec![]);
    assert_eq!(m.to_vec(), vec![0x10, 0x02, 0x25, 0x02]);
}

#[test]
fn to_vec_length_byte_counts_class_and_command() {
    for n in [0usize, 1, 2, 10, 100, 253] {
        let m = Message::new(0x01, CommandClass::BASIC, 0x01, vec![0xAB; n]);
        let bytes = m.to_vec();
        assert_eq!(bytes.len(), n + 4);
        assert_eq!(bytes[1] as usize, n + 2);
        assert_eq!(&bytes[4..], &vec![0xAB; n][..]);
    }
}

#[test]
fn to_vec_length_byte_wraps_at_one_byte() {
    let m = Message::new(0x01, CommandClass::BASIC, 0x01, vec![0u8; 254]);
    assert_eq!(m.to_vec()[1], 0);
    let m = Message::new(0x01, CommandClass::BASIC, 0x01, vec![0u8; 255]);
    assert_eq!(m.to_vec()[1], 1);
    let m = Message::new(0x01, CommandClass::BASIC, 0x01, vec![0u8; 600]);
    assert_eq!(m.to_vec()[1], 90);
    assert_eq!(m.to_vec().len(), 604);
}

#[test]
fn to_vec_ignores_raw() {
    let a = Message::new(0x02, CommandClass::BASIC, 0x01, vec![0xFF]);
    let b = Message::new_with_raw(0x02, CommandClass::BASIC, 0x01, vec![0xFF], vec![1, 2, 3]);
    assert_eq!(a.to_vec(), b.to_vec());
}

#[test]
fn to_vec_twice_gives_the_same_bytes() {
    let m = Message::new(0x21, CommandClass::WAKE_UP, 0x07, vec![3, 1, 4, 1, 5, 9]);
    let first = m.to_vec();
    let second = m.to_vec();
    assert_eq!(first, second);
    assert_eq!(first, vec![0x21, 0x08, 0x84, 0x07, 3, 1, 4, 1, 5, 9]);
}

#[test]
fn to_vec_after_parse_need_not_give_raw_back() {
    let input = [0x02, 0x03, 0x00, 0x20, 0xFF];
    let m = Message::parse(&input).unwrap();
    assert_eq!(m.to_vec(), vec![0x03, 0x03, 0x20, 0x20, 0xFF]);
    assert_ne!(m.to_vec(), m.raw);
}

#[test]
fn clone_copies_every_field() {
    let m = Message::new_with_raw(0x05, CommandClass::METER, 0x02, vec![1, 2], vec![9, 8, 7]);
    let c = m.clone();
    assert_eq!(c.node_id, m.node_id);
    assert_eq!(c.cmd_class, m.cmd_class);
    assert_eq!(c.cmd, m.cmd);
    assert_eq!(c.data, m.data);
    assert_eq!(c.raw, m.raw);
}

#[test]
fn message_into_bytes() {
    let m = Message::new(0x02, CommandClass::BASIC, 0x01, vec![0xFF]);
    let bytes: Vec<u8> = m.into();
    assert_eq!(bytes, vec![0x02, 0x03, 0x20, 0x01, 0xFF]);
}

#[test]
fn message_into_string() {
    let m = Message::new(0x02, CommandClass::BASIC, 0x01, vec![0xFF]);
    let text: String = m.into();
    assert_eq!(text, "0x2 0x3 0x20 0x1 0xFF ");
}
