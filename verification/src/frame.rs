use vstd::prelude::*;
use vstd::utf8::*;

use crate::errors::{DiscordRPCError, Result};
use crate::utils::{header_bytes, le_value, lemma_unpack_pack, pack};

verus! {

/// The bytes of one frame on the pipe: the header with the opcode and the
/// payload's length (as a `usize` cut to 32 bits), then the payload itself.
pub open spec fn frame_bytes(opcode: u32, payload: Seq<u8>) -> Seq<u8> {
    header_bytes(opcode, (payload.len() as usize) as u32) + payload
}

/// Builds the frame that carries `data` under `opcode`: the header, then the
/// UTF-8 bytes of `data`. It never fails.
pub fn encode_frame(data: &str, opcode: u8) -> (res: Result<Vec<u8>>)
    ensures
        res matches Ok(bytes) && bytes@ == frame_bytes(opcode as u32, encode_utf8(data@)),
{
    let mut packet = match pack(opcode as u32, data.len() as u32) {
        Ok(p) => p,
        Err(e) => return Err(e),
    };
    packet.extend_from_slice(data.as_bytes());
    Ok(packet)
}

/// `String::from_utf8`: succeeds exactly when the bytes are valid UTF-8, and
/// then holds the characters that they encode.
#[verifier::external_body]
fn string_from_utf8(bytes: Vec<u8>) -> (res: core::result::Result<String, std::string::FromUtf8Error>)
    ensures
        res is Ok <==> valid_utf8(bytes@),
        res matches Ok(s) ==> s@ == decode_utf8(bytes@),
{
    String::from_utf8(bytes)
}

/// Decodes the payload of a received frame as text. Bytes that are not
/// valid UTF-8 are refused with `FromUtf8`.
pub fn decode_payload(data: Vec<u8>) -> (res: Result<String>)
    ensures
        res is Ok <==> valid_utf8(data@),
        res matches Ok(s) ==> s@ == decode_utf8(data@),
        res matches Err(e) ==> e is FromUtf8,
{
    match string_from_utf8(data) {
        Ok(s) => Ok(s),
        Err(e) => Err(DiscordRPCError::FromUtf8(e)),
    }
}

/// What is read back of a frame is what was sent: from the frame that
/// `encode_frame` builds for a text of at most `u32::MAX` bytes, `unpack`
/// reads the opcode and the text's length from the first eight bytes, and
/// `decode_payload` gives back the text from the bytes that follow.
pub proof fn lemma_frame_roundtrip(opcode: u8, text: Seq<char>)
    requires
        encode_utf8(text).len() <= u32::MAX,
    ensures
        ({
            let payload = encode_utf8(text);
            let frame = frame_bytes(opcode as u32, payload);
            &&& frame.len() == 8 + payload.len()
            &&& le_value(frame.subrange(0, 8)) == opcode as u32
            &&& le_value(frame.subrange(0, 8).subrange(4, 8)) == payload.len()
            &&& frame.subrange(8, 8 + payload.len() as int) == payload
            &&& valid_utf8(frame.subrange(8, 8 + payload.len() as int))
            &&& decode_utf8(frame.subrange(8, 8 + payload.len() as int)) == text
        }),
{
    let payload = encode_utf8(text);
    let len = payload.len() as u32;
    let frame = frame_bytes(opcode as u32, payload);
    lemma_unpack_pack(opcode as u32, len);
    let h = header_bytes(opcode as u32, len);
    assert(frame.subrange(0, 8) =~= h);
    assert(frame.subrange(8, 8 + payload.len() as int) =~= payload);
    encode_utf8_valid_utf8(text);
    encode_utf8_decode_utf8(text);
}

} // verus!
