//! Turning the raw events of the kernel probe into records, and the target
//! directory into the form the probe reads.

use vstd::prelude::*;
use vstd::utf8::{decode_utf8, encode_utf8, encode_utf8_decode_utf8, encode_utf8_valid_utf8, valid_utf8};
use crate::common::OfregData;

verus! {

/// Size of the path buffers shared with the kernel probe.
pub const MAX_PATH_LEN: usize = 256;

/// What `String::from_utf8_lossy` makes of `bytes`: their text, with every
/// invalid sequence replaced by U+FFFD.
pub uninterp spec fn utf8_lossy(bytes: Seq<u8>) -> Seq<char>;

/// `String::from_utf8_lossy`, owned: the text of valid UTF-8 as it is, and
/// otherwise the text with replacement characters; the exact replacement is
/// named, not stated.
#[verifier::external_body]
fn lossy_text(bytes: &[u8]) -> (res: String)
    ensures
        res@ == utf8_lossy(bytes@),
        valid_utf8(bytes@) ==> res@ == decode_utf8(bytes@),
{
    String::from_utf8_lossy(bytes).into_owned()
}

/// The bytes of a C string held in `chars`: everything before the first NUL,
/// or all of `chars` when there is none.
pub open spec fn c_text_bytes(chars: Seq<i8>) -> Seq<u8>
    decreases chars.len(),
{
    if chars.len() == 0 || chars[0] == 0 {
        Seq::empty()
    } else {
        seq![chars[0] as u8] + c_text_bytes(chars.drop_first())
    }
}

/// The bytes of the C string held in `data`.
pub fn c_string_bytes(data: &[i8]) -> (res: Vec<u8>)
    ensures
        res@ == c_text_bytes(data@),
{
    let mut res: Vec<u8> = Vec::new();
    let mut i: usize = 0;
    assert(data@.skip(0) =~= data@);
    while i < data.len() && data[i] != 0
        invariant
            i <= data@.len(),
            c_text_bytes(data@) == res@ + c_text_bytes(data@.skip(i as int)),
        decreases data@.len() - i,
    {
        assert(data@.skip(i as int).drop_first() =~= data@.skip(i + 1));
        res.push(data[i] as u8);
        assert(res@ + c_text_bytes(data@.skip(i + 1)) =~= res@.drop_last() + (seq![data@[i as int] as u8] + c_text_bytes(data@.skip(i + 1))));
        i = i + 1;
    }
    assert(c_text_bytes(data@.skip(i as int)) =~= Seq::<u8>::empty());
    assert(res@ + Seq::<u8>::empty() =~= res@);
    res
}

/// The text of the C string held in `data`, decoded leniently.
pub fn char_slice_to_str(data: &[i8]) -> (res: String)
    ensures
        res@ == utf8_lossy(c_text_bytes(data@)),
        valid_utf8(c_text_bytes(data@)) ==> res@ == decode_utf8(c_text_bytes(data@)),
{
    let bytes = c_string_bytes(data);
    lossy_text(bytes.as_slice())
}

/// The record of one event of the probe: the command is the text of
/// `exe_file_path`, the opened file the text of `op_file_path`, and the time
/// the moment at which the event was received.
pub fn handle(op_file_path: &[i8], exe_file_path: &[i8], now_secs: u64) -> (res: OfregData)
    ensures
        res.cmd@ == utf8_lossy(c_text_bytes(exe_file_path@)),
        res.op_file@ == utf8_lossy(c_text_bytes(op_file_path@)),
        res.time == now_secs,
{
    let op_file = char_slice_to_str(op_file_path);
    let cmd = char_slice_to_str(exe_file_path);
    OfregData { cmd, op_file, time: now_secs }
}

/// Why a target directory cannot be handed to the probe.
#[derive(Clone, Copy, Debug, PartialEq, Eq, Structural)]
pub enum TargetDirError {
    /// The path with its terminating NUL does not fit the buffer.
    TooLong,
    /// The path holds a NUL byte.
    InteriorNul,
}

/// The buffer that carries `bytes` to the probe: the bytes, then zeros up to
/// the buffer's size.
pub open spec fn spec_target_dir_buffer(bytes: Seq<u8>) -> Seq<i8> {
    Seq::new(MAX_PATH_LEN as nat, |i: int| if i < bytes.len() { bytes[i] as i8 } else { 0i8 })
}

/// The buffer of the directory to watch: an error when the path does not fit
/// with its terminating NUL, or holds a NUL itself.
pub fn target_dir_buffer(target_dir: &str) -> (res: Result<Vec<i8>, TargetDirError>)
    ensures
        res matches Err(TargetDirError::TooLong) <==> encode_utf8(target_dir@).len() >= MAX_PATH_LEN,
        res matches Err(TargetDirError::InteriorNul) <==> encode_utf8(target_dir@).len()
            < MAX_PATH_LEN && encode_utf8(target_dir@).contains(0u8),
        res matches Ok(buf) ==> buf@ == spec_target_dir_buffer(encode_utf8(target_dir@)),
{
    let bytes = target_dir.as_bytes();
    if bytes.len() >= MAX_PATH_LEN {
        return Err(TargetDirError::TooLong);
    }
    let mut i: usize = 0;
    while i < bytes.len()
        invariant
            i <= bytes@.len(),
            bytes@ == encode_utf8(target_dir@),
            bytes@.len() < MAX_PATH_LEN,
            forall|j: int| 0 <= j < i ==> bytes@[j] != 0,
        decreases bytes@.len() - i,
    {
        if bytes[i] == 0 {
            assert(bytes@[i as int] == 0u8);
            return Err(TargetDirError::InteriorNul);
        }
        i = i + 1;
    }
    assert(!bytes@.contains(0u8));
    let mut buf: Vec<i8> = Vec::new();
    let mut k: usize = 0;
    while k < MAX_PATH_LEN
        invariant
            k <= MAX_PATH_LEN,
            bytes@ == encode_utf8(target_dir@),
            bytes@.len() < MAX_PATH_LEN,
            buf@ =~= spec_target_dir_buffer(bytes@).take(k as int),
        decreases MAX_PATH_LEN - k,
    {
        if k < bytes.len() {
            buf.push(bytes[k] as i8);
        } else {
            buf.push(0i8);
        }
        k = k + 1;
    }
    Ok(buf)
}

/// A target directory handed to the probe reads back, as a C string, as the
/// very same path.
pub proof fn lemma_target_dir_reads_back(path: Seq<char>)
    requires
        encode_utf8(path).len() < MAX_PATH_LEN,
        !encode_utf8(path).contains(0u8),
    ensures
        c_text_bytes(spec_target_dir_buffer(encode_utf8(path))) == encode_utf8(path),
        valid_utf8(c_text_bytes(spec_target_dir_buffer(encode_utf8(path)))),
        decode_utf8(c_text_bytes(spec_target_dir_buffer(encode_utf8(path)))) == path,
{
    let bytes = encode_utf8(path);
    lemma_buffer_reads_back(bytes, spec_target_dir_buffer(bytes), 0);
    assert(spec_target_dir_buffer(bytes).skip(0) =~= spec_target_dir_buffer(bytes));
    assert(bytes.skip(0) =~= bytes);
    encode_utf8_valid_utf8(path);
    encode_utf8_decode_utf8(path);
}

proof fn lemma_buffer_reads_back(bytes: Seq<u8>, buf: Seq<i8>, from: int)
    requires
        bytes.len() < MAX_PATH_LEN,
        !bytes.contains(0u8),
        buf == spec_target_dir_buffer(bytes),
        0 <= from <= bytes.len(),
    ensures
        c_text_bytes(buf.skip(from)) == bytes.skip(from),
    decreases bytes.len() - from,
{
    if from == bytes.len() {
        assert(buf.skip(from)[0] == 0i8);
        assert(bytes.skip(from) =~= Seq::<u8>::empty());
    } else {
        lemma_buffer_reads_back(bytes, buf, from + 1);
        let b = bytes[from];
        assert(b != 0u8) by {
            if b == 0u8 {
                assert(bytes.contains(0u8));
            }
        }
        assert(((b as i8) as u8) == b && (b as i8) != 0i8) by (bit_vector)
            requires
                b != 0u8,
        ;
        assert(buf.skip(from).drop_first() =~= buf.skip(from + 1));
        assert(bytes.skip(from) =~= seq![b] + bytes.skip(from + 1));
    }
}

} // verus!
