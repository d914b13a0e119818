//! The message framing of the control pipe: a little-endian `u32` byte
//! length, then the message's UTF-8 bytes.

use vstd::prelude::*;
use vstd::utf8::{decode_utf8, encode_utf8, valid_utf8};
use crate::text::owned;

verus! {

broadcast use vstd::utf8::encode_utf8_valid_utf8, vstd::utf8::encode_utf8_decode_utf8;

/// The four little-endian bytes of a length below 2^32.
pub open spec fn le_u32_bytes(n: nat) -> Seq<u8> {
    seq![
        (n % 256) as u8,
        ((n / 256) % 256) as u8,
        ((n / 65536) % 256) as u8,
        ((n / 16777216) % 256) as u8,
    ]
}

/// The value of four little-endian bytes.
pub open spec fn le_u32_value(b: Seq<u8>) -> nat {
    (b[0] as nat) + 256 * (b[1] as nat) + 65536 * (b[2] as nat) + 16777216 * (b[3] as nat)
}

/// The frame that carries a message: its byte length in four little-endian
/// bytes, then its UTF-8 bytes.
pub open spec fn frame_of(message: Seq<char>) -> Seq<u8> {
    le_u32_bytes(encode_utf8(message).len()) + encode_utf8(message)
}

/// What reading one frame from `bytes` gives.
pub enum FrameRead {
    /// Fewer bytes than the length prefix or the body needs.
    EndOfInput,
    /// The body is not valid UTF-8.
    InvalidUtf8,
    /// The message, and how many bytes the frame took.
    Message(Seq<char>, nat),
}

/// The outcome of reading one frame from the start of `bytes`.
pub open spec fn read_frame(bytes: Seq<u8>) -> FrameRead {
    if bytes.len() < 4 {
        FrameRead::EndOfInput
    } else {
        let n = le_u32_value(bytes.take(4));
        if bytes.len() - 4 < n {
            FrameRead::EndOfInput
        } else {
            let body = bytes.subrange(4, (4 + n) as int);
            if valid_utf8(body) {
                FrameRead::Message(decode_utf8(body), 4 + n)
            } else {
                FrameRead::InvalidUtf8
            }
        }
    }
}

/// The message that `read_exact` gives when the input ends early.
pub open spec fn end_of_input_message() -> Seq<char> {
    "failed to fill whole buffer"@
}

/// The message for a body too long for the length prefix.
pub open spec fn too_long_message() -> Seq<char> {
    "control pipe message exceeds u32 length prefix"@
}

/// `String::from_utf8`: the bytes as a string when they are valid UTF-8,
/// else the error's text. The contract claims that the standard library
/// accepts exactly the valid UTF-8 byte sequences and decodes them as UTF-8
/// prescribes; the error text is left unsaid.
#[verifier::external_body]
fn utf8_string_from_bytes(bytes: Vec<u8>) -> (r: Result<String, String>)
    ensures
        r is Ok <==> valid_utf8(bytes@),
        r matches Ok(s) ==> s@ == decode_utf8(bytes@),
{
    String::from_utf8(bytes).map_err(|error| error.to_string())
}

/// Appends the frame of `message` to `writer`; a message of 2^32 bytes or
/// more is refused and nothing is written.
pub fn write_length_prefixed_utf8_message(writer: &mut Vec<u8>, message: &str) -> (r: Result<
    (),
    String,
>)
    ensures
        encode_utf8(message@).len() <= u32::MAX ==> r is Ok && final(writer)@ == old(writer)@
            + frame_of(message@),
        encode_utf8(message@).len() > u32::MAX ==> (r matches Err(e) && e@ == too_long_message()
            && final(writer)@ == old(writer)@),
{
    let body = message.as_bytes();
    if body.len() > 0xffff_ffffusize {
        return Err(owned("control pipe message exceeds u32 length prefix"));
    }
    let n = body.len() as u32;
    writer.push((n % 256) as u8);
    writer.push((n / 256 % 256) as u8);
    writer.push((n / 65536 % 256) as u8);
    writer.push((n / 16777216 % 256) as u8);
    let ghost prefixed = writer@;
    let mut i: usize = 0;
    while i < body.len()
        invariant
            0 <= i <= body.len(),
            body@ == encode_utf8(message@),
            writer@ =~= prefixed + body@.take(i as int),
        decreases body.len() - i,
    {
        writer.push(body[i]);
        i = i + 1;
    }
    Ok(())
}

/// In-memory input that frames are read from, front to back.
pub struct ByteCursor {
    bytes: Vec<u8>,
    position: usize,
}

impl ByteCursor {
    /// The position stays within the bytes.
    pub closed spec fn wf(&self) -> bool {
        self.position <= self.bytes@.len()
    }

    /// The bytes not yet read.
    pub closed spec fn remaining(&self) -> Seq<u8> {
        self.bytes@.subrange(self.position as int, self.bytes@.len() as int)
    }

    /// A cursor at the start of `bytes`.
    pub fn new(bytes: Vec<u8>) -> (r: ByteCursor)
        ensures
            r.wf(),
            r.remaining() == bytes@,
    {
        let r = ByteCursor { bytes, position: 0 };
        r
    }
}

/// Reads one frame: the length prefix, then that many bytes as UTF-8. A
/// frame read whole is consumed from the cursor.
pub fn read_length_prefixed_utf8_message(reader: &mut ByteCursor) -> (r: Result<String, String>)
    requires
        old(reader).wf(),
    ensures
        final(reader).wf(),
        match read_frame(old(reader).remaining()) {
            FrameRead::EndOfInput => r matches Err(e) && e@ == end_of_input_message(),
            FrameRead::InvalidUtf8 => r is Err,
            FrameRead::Message(m, used) => (r matches Ok(s) && s@ == m)
                && final(reader).remaining() == old(reader).remaining().skip(used as int),
        },
{
    let ghost rem = reader.remaining();
    let available = reader.bytes.len() - reader.position;
    if available < 4 {
        return Err(owned("failed to fill whole buffer"));
    }
    let p = reader.position;
    let b0 = reader.bytes[p];
    let b1 = reader.bytes[p + 1];
    let b2 = reader.bytes[p + 2];
    let b3 = reader.bytes[p + 3];
    let n: u64 = b0 as u64 + 256 * b1 as u64 + 65536 * b2 as u64 + 16777216 * b3 as u64;
    if ((available - 4) as u64) < n {
        return Err(owned("failed to fill whole buffer"));
    }
    let len = n as usize;
    let mut body: Vec<u8> = Vec::new();
    let total = reader.bytes.len();
    let mut i: usize = 0;
    while i < len
        invariant
            0 <= i <= len,
            total == reader.bytes@.len(),
            p + 4 + len <= total,
            rem == reader.bytes@.subrange(p as int, reader.bytes@.len() as int),
            body@ =~= rem.subrange(4, 4 + i),
        decreases len - i,
    {
        body.push(reader.bytes[p + 4 + i]);
        i = i + 1;
    }
    reader.position = p + 4 + len;
    utf8_string_from_bytes(body)
}

/// Reading back a written frame gives the message, whatever follows it: the
/// length prefix holds the body's byte length, and decoding the UTF-8
/// encoding of a text gives the text.
pub proof fn lemma_length_prefixed_message_round_trip(message: Seq<char>, rest: Seq<u8>)
    requires
        encode_utf8(message).len() <= u32::MAX,
    ensures
        read_frame(frame_of(message) + rest) == FrameRead::Message(
            message,
            4 + encode_utf8(message).len(),
        ),
{
    let body = encode_utf8(message);
    let n = body.len();
    let all = frame_of(message) + rest;
    assert(le_u32_value(le_u32_bytes(n)) == n) by (nonlinear_arith)
        requires
            n <= u32::MAX,
    {
    }
    assert(all.subrange(4, (4 + n) as int) =~= body);
}

/// The body length that a frame's four-byte prefix announces.
pub fn length_prefix_value(prefix: [u8; 4]) -> (r: u32)
    ensures
        r == le_u32_value(prefix@),
{
    let n: u32 = prefix[0] as u32 + 256 * prefix[1] as u32 + 65536 * prefix[2] as u32 + 16777216
        * prefix[3] as u32;
    n
}

} // verus!
