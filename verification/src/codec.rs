//! Encoding of a topic into its outbound frame, and decoding of a reply.
//!
//! Both directions share one shell: the two header bytes `00 83`, then a
//! big-endian 16-bit length. An outbound frame goes on with five zero bytes,
//! the topic and a closing zero byte. In a reply the type tag follows the
//! length at once, and the payload follows the tag.

use crate::buffer::{
    be_bytes_u16, be_bytes_u32, copy_from_slice, get_u16, get_u32_le, get_u8, into_vec, push_char,
    put_slice, put_u16, put_u32, put_u8, remaining, u16_of_be, u32_of_le, unread, with_capacity,
};
use crate::value::{ByondTopicValue, DecodedValue};
use vstd::prelude::*;

verus! {

/// The 16-bit number that opens every frame.
pub const FRAME_HEADER: u16 = 0x0083;

/// The tag of a reply that carries a 32-bit float.
pub const TAG_NUMBER: u8 = 0x2A;

/// The tag of a reply that carries character data.
pub const TAG_TEXT: u8 = 0x06;

/// The longest topic, in bytes, whose length field still fits in 16 bits.
pub const MAX_TOPIC_LEN: usize = 65529;

/// How many bytes of a reply are read; what the server sends beyond them is
/// lost. An outbound frame is first allocated with this size too.
pub const BUFFER_CAPACITY: usize = 1024;

/// How many seconds a reader waits for the reply before it gives up.
pub const READ_TIMEOUT_SECS: u64 = 5;

/// The outbound frame of `topic`.
pub open spec fn frame_of(topic: Seq<u8>) -> Seq<u8> {
    be_bytes_u16(FRAME_HEADER) + be_bytes_u16((topic.len() + 6) as u16) + be_bytes_u32(0).push(0)
        + topic + seq![0u8]
}

/// Whether `bytes` opens with the frame header.
pub open spec fn has_header(bytes: Seq<u8>) -> bool {
    bytes.len() >= 2 && bytes[0] == 0x00 && bytes[1] == 0x83
}

/// The length that a reply declares, less one: the size of its payload.
pub open spec fn payload_size(bytes: Seq<u8>) -> int
    recommends
        bytes.len() >= 4,
{
    u16_of_be(bytes[2], bytes[3]) - 1
}

/// Whether `bytes` is a reply that carries a number: header, tag and the
/// four bytes of the number are all there. The declared length plays no part.
pub open spec fn is_number_frame(bytes: Seq<u8>) -> bool {
    has_header(bytes) && bytes.len() >= 9 && bytes[4] == TAG_NUMBER
}

/// Whether `bytes` is a reply that carries character data: header and tag
/// are there, and so is every payload byte that the length declares.
pub open spec fn is_text_frame(bytes: Seq<u8>) -> bool {
    has_header(bytes) && bytes.len() >= 5 && bytes[4] == TAG_TEXT && 0 <= payload_size(bytes)
        && 5 + payload_size(bytes) <= bytes.len()
}

/// The characters of a text reply: each payload byte widened to the
/// character of that code.
pub open spec fn text_of(bytes: Seq<u8>) -> Seq<char>
    recommends
        is_text_frame(bytes),
{
    Seq::new(payload_size(bytes) as nat, |i: int| bytes[5 + i] as char)
}

/// The bit pattern of a number reply: its four payload bytes, little-endian.
pub open spec fn number_of(bytes: Seq<u8>) -> u32
    recommends
        is_number_frame(bytes),
{
    u32_of_le(bytes[5], bytes[6], bytes[7], bytes[8])
}

/// The value that `bytes` decodes to.
pub open spec fn decoded(bytes: Seq<u8>) -> DecodedValue {
    if is_number_frame(bytes) {
        DecodedValue::Number(number_of(bytes))
    } else if is_text_frame(bytes) {
        DecodedValue::String(text_of(bytes))
    } else {
        DecodedValue::Nothing
    }
}

/// The layout of an outbound frame, field by field: for a topic of `n`
/// bytes, at most [`MAX_TOPIC_LEN`], the frame has `n + 10` bytes. They are
/// the header `00 83`, the big-endian number `n + 6`, five zero bytes, the
/// topic as it stands, and one closing zero byte.
pub proof fn lemma_frame_layout(topic: Seq<u8>)
    requires
        topic.len() <= MAX_TOPIC_LEN,
    ensures
        frame_of(topic).len() == topic.len() + 10,
        frame_of(topic)[0] == 0x00,
        frame_of(topic)[1] == 0x83,
        frame_of(topic)[2] == (topic.len() + 6) / 0x100,
        frame_of(topic)[3] == (topic.len() + 6) % 0x100,
        forall|i: int| 4 <= i < 9 ==> frame_of(topic)[i] == 0,
        frame_of(topic).subrange(9, 9 + topic.len() as int) == topic,
        frame_of(topic)[9 + topic.len() as int] == 0,
{
    assert(frame_of(topic).subrange(9, 9 + topic.len() as int) =~= topic);
}

/// Builds the frame that carries `topic` to the server.
///
/// The length field is the topic's length plus six, so the topic may be at
/// most [`MAX_TOPIC_LEN`] bytes long.
pub fn encode_topic(topic: &[u8]) -> (frame: Vec<u8>)
    requires
        topic@.len() <= MAX_TOPIC_LEN,
    ensures
        frame@ == frame_of(topic@),
        frame@.len() == topic@.len() + 10,
        frame@[0] == 0x00,
        frame@[1] == 0x83,
        frame@[2] == (topic@.len() + 6) / 0x100,
        frame@[3] == (topic@.len() + 6) % 0x100,
        forall|i: int| 4 <= i < 9 ==> frame@[i] == 0,
        frame@.subrange(9, 9 + topic@.len() as int) == topic@,
        frame@[9 + topic@.len() as int] == 0,
{
    let mut buf = with_capacity(BUFFER_CAPACITY);
    put_u16(&mut buf, FRAME_HEADER);
    put_u16(&mut buf, (topic.len() + 6) as u16);
    put_u32(&mut buf, 0);
    put_u8(&mut buf, 0);
    put_slice(&mut buf, topic);
    put_u8(&mut buf, 0);
    proof {
        lemma_frame_layout(topic@);
    }
    into_vec(buf)
}

/// Decodes what was received in reply to a topic.
///
/// Whatever is not a complete number or text reply decodes to
/// [`ByondTopicValue::Nothing`]: an empty input, a wrong header, an unknown tag,
/// a frame cut short.
pub fn decode_response(bytes: &[u8]) -> (value: ByondTopicValue)
    ensures
        value@ == decoded(bytes@),
        bytes@.len() == 0 ==> value@ == DecodedValue::Nothing,
        !has_header(bytes@) ==> value@ == DecodedValue::Nothing,
        bytes@.len() >= 5 && bytes@[4] != TAG_NUMBER && bytes@[4] != TAG_TEXT ==> value@
            == DecodedValue::Nothing,
{
    let mut buf = copy_from_slice(bytes);
    if remaining(&buf) < 2 {
        return ByondTopicValue::Nothing;
    }
    let header = get_u16(&mut buf);
    if header != FRAME_HEADER {
        return ByondTopicValue::Nothing;
    }
    if remaining(&buf) < 3 {
        return ByondTopicValue::Nothing;
    }
    let length = get_u16(&mut buf);
    let tag = get_u8(&mut buf);
    assert(unread(buf) =~= bytes@.skip(5));
    if tag == TAG_NUMBER {
        if remaining(&buf) < 4 {
            return ByondTopicValue::Nothing;
        }
        let bits = get_u32_le(&mut buf);
        ByondTopicValue::Number(bits)
    } else if tag == TAG_TEXT {
        if length == 0 {
            return ByondTopicValue::Nothing;
        }
        let size: usize = (length - 1) as usize;
        if remaining(&buf) < size {
            return ByondTopicValue::Nothing;
        }
        let mut text = String::new();
        let mut i: usize = 0;
        while i < size
            invariant
                i <= size,
                size == payload_size(bytes@),
                5 + size <= bytes@.len(),
                unread(buf) =~= bytes@.skip(5 + i),
                text@ =~= Seq::new(i as nat, |j: int| bytes@[5 + j] as char),
            decreases size - i,
        {
            let byte = get_u8(&mut buf);
            push_char(&mut text, byte as char);
            i += 1;
        }
        ByondTopicValue::String(text)
    } else {
        ByondTopicValue::Nothing
    }
}

/// The four bytes of `v`, least significant first.
pub open spec fn le_bytes_u32(v: u32) -> Seq<u8> {
    seq![
        (v % 0x100) as u8,
        (v / 0x100 % 0x100) as u8,
        (v / 0x1_0000 % 0x100) as u8,
        (v / 0x100_0000) as u8,
    ]
}

/// A reply that carries the number with bit pattern `bits` and declares
/// `length`.
pub open spec fn number_reply(length: u16, bits: u32) -> Seq<u8> {
    be_bytes_u16(FRAME_HEADER) + be_bytes_u16(length) + seq![TAG_NUMBER] + le_bytes_u32(bits)
}

/// A reply that carries `payload` as character data, and declares its length
/// plus one.
pub open spec fn text_reply(payload: Seq<u8>) -> Seq<u8> {
    be_bytes_u16(FRAME_HEADER) + be_bytes_u16((payload.len() + 1) as u16) + seq![TAG_TEXT]
        + payload
}

/// A number reply decodes to the number whose little-endian bytes it
/// carries, whatever length it declares and whatever bytes follow it.
pub proof fn lemma_number_reply_decodes(length: u16, bits: u32, rest: Seq<u8>)
    ensures
        decoded(number_reply(length, bits) + rest) == DecodedValue::Number(bits),
{
    let bytes = number_reply(length, bits) + rest;
    assert(is_number_frame(bytes));
    assert(number_of(bytes) == bits);
}

/// A text reply decodes to its payload, one character for each byte and
/// with that byte's code, whatever bytes follow the payload.
pub proof fn lemma_text_reply_decodes(payload: Seq<u8>, rest: Seq<u8>)
    requires
        payload.len() < 0xFFFF,
    ensures
        decoded(text_reply(payload) + rest) == DecodedValue::String(
            Seq::new(payload.len(), |i: int| payload[i] as char),
        ),
{
    let bytes = text_reply(payload) + rest;
    assert(payload_size(bytes) == payload.len());
    assert(is_text_frame(bytes));
    assert(text_of(bytes) =~= Seq::new(payload.len(), |i: int| payload[i] as char));
}

} // verus!
