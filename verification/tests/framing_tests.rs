use stream_sync_switcher_core::framing::{
    read_length_prefixed_utf8_message, write_length_prefixed_utf8_message, ByteCursor,
};

#[test]
fn switcher_control_pipe_length_prefixed_utf8_message_round_trips() {
    let mut buffer = Vec::new();
    write_length_prefixed_utf8_message(&mut buffer, "focus 3").expect("message should encode");
    let mut cursor = ByteCursor::new(buffer);
    let decoded = read_length_prefixed_utf8_message(&mut cursor).expect("message should decode");

    assert_eq!(decoded, "focus 3".to_string());
}

#[test]
fn frame_starts_with_little_endian_byte_length() {
    let mut buffer = Vec::new();
    write_length_prefixed_utf8_message(&mut buffer, "é!").expect("message should encode");
    assert_eq!(buffer, vec![3, 0, 0, 0, 0xc3, 0xa9, b'!']);
}

#[test]
fn frames_are_read_one_after_the_other() {
    let mut buffer = Vec::new();
    write_length_prefixed_utf8_message(&mut buffer, "status").expect("encode");
    write_length_prefixed_utf8_message(&mut buffer, "").expect("encode");
    write_length_prefixed_utf8_message(&mut buffer, "quit").expect("encode");
    let mut cursor = ByteCursor::new(buffer);
    assert_eq!(read_length_prefixed_utf8_message(&mut cursor), Ok("status".to_string()));
    assert_eq!(read_length_prefixed_utf8_message(&mut cursor), Ok(String::new()));
    assert_eq!(read_length_prefixed_utf8_message(&mut cursor), Ok("quit".to_string()));
    assert_eq!(
        read_length_prefixed_utf8_message(&mut cursor),
        Err("failed to fill whole buffer".to_string())
    );
}

#[test]
fn short_or_invalid_frames_are_errors() {
    let mut short = ByteCursor::new(vec![5, 0, 0, 0, b'a']);
    assert_eq!(
        read_length_prefixed_utf8_message(&mut short),
        Err("failed to fill whole buffer".to_string())
    );
    let mut invalid = ByteCursor::new(vec![1, 0, 0, 0, 0xff]);
    assert!(read_length_prefixed_utf8_message(&mut invalid).is_err());
}
