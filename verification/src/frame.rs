//! Framing of the query protocol: every message is a four-byte big-endian
//! length followed by that many bytes.

use vstd::prelude::*;

verus! {

/// The four big-endian bytes of `n`.
pub open spec fn be_bytes(n: u32) -> Seq<u8> {
    seq![(n >> 24u32) as u8, (n >> 16u32) as u8, (n >> 8u32) as u8, n as u8]
}

/// The number whose big-endian bytes are `b0 b1 b2 b3`.
pub open spec fn be_value(b0: u8, b1: u8, b2: u8, b3: u8) -> u32 {
    ((b0 as u32) << 24u32) | ((b1 as u32) << 16u32) | ((b2 as u32) << 8u32) | (b3 as u32)
}

/// The length prefix that announces `len` bytes: the length truncated to
/// 32 bits.
pub open spec fn length_prefix(len: nat) -> Seq<u8> {
    be_bytes(len as u32)
}

/// A frame that carries `data`.
pub open spec fn frame(data: Seq<u8>) -> Seq<u8> {
    length_prefix(data.len()) + data
}

/// The message that marks the end of an answer: the length zero.
pub open spec fn finish_flag() -> Seq<u8> {
    be_bytes(0)
}

/// The big-endian bytes of `n`.
pub fn encode_u32(n: u32) -> (res: Vec<u8>)
    ensures
        res@ == be_bytes(n),
{
    let mut res: Vec<u8> = Vec::new();
    res.push((n >> 24u32) as u8);
    res.push((n >> 16u32) as u8);
    res.push((n >> 8u32) as u8);
    res.push(n as u8);
    assert(res@ =~= be_bytes(n));
    res
}

/// The number announced by the four bytes of a length prefix.
pub fn decode_u32(bytes: &[u8]) -> (res: u32)
    requires
        bytes@.len() == 4,
    ensures
        res == be_value(bytes@[0], bytes@[1], bytes@[2], bytes@[3]),
{
    ((bytes[0] as u32) << 24u32) | ((bytes[1] as u32) << 16u32) | ((bytes[2] as u32) << 8u32) | (
    bytes[3] as u32)
}

/// The frame that carries `data`; its length prefix is the length of `data`
/// modulo 2^32.
pub fn encode_frame(data: &[u8]) -> (res: Vec<u8>)
    ensures
        res@ == frame(data@),
{
    let len = data.len();
    let prefix_value = len as u32;
    let mut res = encode_u32(prefix_value);
    let mut i: usize = 0;
    while i < len
        invariant
            i <= len,
            len == data@.len(),
            prefix_value == (len as nat) as u32,
            res@ == be_bytes(prefix_value) + data@.take(i as int),
        decreases len - i,
    {
        res.push(data[i]);
        assert(data@.take(i + 1) =~= data@.take(i as int).push(data@[i as int]));
        i = i + 1;
    }
    assert(data@.take(len as int) =~= data@);
    res
}

/// Reading back a length prefix gives the number it was written from.
pub proof fn lemma_be_roundtrip(n: u32)
    ensures
        be_value(be_bytes(n)[0], be_bytes(n)[1], be_bytes(n)[2], be_bytes(n)[3]) == n,
{
    let b0 = (n >> 24u32) as u8;
    let b1 = (n >> 16u32) as u8;
    let b2 = (n >> 8u32) as u8;
    let b3 = n as u8;
    assert(((b0 as u32) << 24u32) | ((b1 as u32) << 16u32) | ((b2 as u32) << 8u32) | (b3 as u32)
        == n) by (bit_vector)
        requires
            b0 == (n >> 24u32) as u8,
            b1 == (n >> 16u32) as u8,
            b2 == (n >> 8u32) as u8,
            b3 == n as u8,
    ;
}

/// A reader of a frame whose data is shorter than 2^32 bytes learns the
/// data's length from the first four bytes and finds the data after them.
pub proof fn lemma_frame_roundtrip(data: Seq<u8>)
    requires
        data.len() < 0x1_0000_0000,
    ensures
        frame(data).len() == data.len() + 4,
        be_value(frame(data)[0], frame(data)[1], frame(data)[2], frame(data)[3]) == data.len(),
        frame(data).skip(4) == data,
{
    lemma_be_roundtrip(data.len() as u32);
    assert(frame(data).skip(4) =~= data);
}

} // verus!
