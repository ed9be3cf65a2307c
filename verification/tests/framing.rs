use rpc_discord::frame::{decode_payload, encode_frame};
use rpc_discord::{pack, unpack, DiscordRPCError, OPCODES};

#[test]
fn pack_writes_opcode_then_length_little_endian() {
    let bytes = pack(1, 0x0102_0304).unwrap();
    assert_eq!(bytes, vec![1, 0, 0, 0, 4, 3, 2, 1]);
}

#[test]
fn pack_of_zeroes_and_maxima() {
    assert_eq!(pack(0, 0).unwrap(), vec![0; 8]);
    assert_eq!(pack(u32::MAX, u32::MAX).unwrap(), vec![0xff; 8]);
}

#[test]
fn unpack_reads_what_pack_wrote() {
    for &(op, len) in &[(0u32, 0u32), (1, 17), (4, 65_536), (u32::MAX, 0x8000_0001)] {
        let header = pack(op, len).unwrap();
        assert_eq!(unpack(header).unwrap(), (op, len));
    }
}

#[test]
fn pack_writes_back_what_unpack_read() {
    let header = vec![0xde, 0xad, 0xbe, 0xef, 0x01, 0x23, 0x45, 0x67];
    let (op, len) = unpack(header.clone()).unwrap();
    assert_eq!(op, 0xefbe_adde);
    assert_eq!(len, 0x6745_2301);
    assert_eq!(pack(op, len).unwrap(), header);
}

#[test]
fn unpack_refuses_a_header_of_the_wrong_length() {
    assert!(matches!(unpack(vec![1, 0, 0, 0, 2]), Err(DiscordRPCError::TryFromSlice(_))));
    assert!(matches!(unpack(vec![1, 2, 3, 4]), Err(DiscordRPCError::TryFromSlice(_))));
    assert!(matches!(unpack(vec![0; 9]), Err(DiscordRPCError::TryFromSlice(_))));
}

#[test]
fn encode_frame_puts_header_before_payload() {
    let frame = encode_frame("{\"a\":1}", 1).unwrap();
    let mut expected = vec![1, 0, 0, 0, 7, 0, 0, 0];
    expected.extend_from_slice(b"{\"a\":1}");
    assert_eq!(frame, expected);
}

#[test]
fn encode_frame_counts_bytes_not_characters() {
    let frame = encode_frame("h\u{e9}", 0).unwrap();
    assert_eq!(frame, vec![0, 0, 0, 0, 3, 0, 0, 0, b'h', 0xc3, 0xa9]);
}

#[test]
fn encode_frame_of_empty_text_is_a_bare_header() {
    assert_eq!(encode_frame("", 2).unwrap(), vec![2, 0, 0, 0, 0, 0, 0, 0]);
}

#[test]
fn decode_payload_gives_the_text() {
    assert_eq!(decode_payload(vec![b'o', b'k', 0xe2, 0x9c, 0x93]).unwrap(), "ok\u{2713}");
    assert_eq!(decode_payload(Vec::new()).unwrap(), "");
}

#[test]
fn decode_payload_refuses_invalid_utf8() {
    assert!(matches!(decode_payload(vec![0xff, 0x00]), Err(DiscordRPCError::FromUtf8(_))));
    assert!(matches!(decode_payload(vec![0xc0, 0xaf]), Err(DiscordRPCError::FromUtf8(_))));
    assert!(matches!(decode_payload(vec![0xed, 0xa0, 0x80]), Err(DiscordRPCError::FromUtf8(_))));
}

#[test]
fn frame_read_back_gives_opcode_and_text() {
    let text = "{\"cmd\":\"SUBSCRIBE\",\"nonce\":\"\u{1f600}\"}";
    let frame = encode_frame(text, OPCODES::Frame.code()).unwrap();
    let (op, len) = unpack(frame[..8].to_vec()).unwrap();
    assert_eq!(op, 1);
    assert_eq!(len as usize, frame.len() - 8);
    let body = frame[8..8 + len as usize].to_vec();
    assert_eq!(decode_payload(body).unwrap(), text);
}

#[test]
fn opcodes_have_their_protocol_numbers() {
    assert_eq!(OPCODES::Handshake.code(), 0);
    assert_eq!(OPCODES::Frame.code(), 1);
    assert_eq!(OPCODES::Close.code(), 2);
    assert_eq!(OPCODES::Ping.code(), 3);
    assert_eq!(OPCODES::Pong.code(), 4);
}
