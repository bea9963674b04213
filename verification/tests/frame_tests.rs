use ofreg::frame::{decode_u32, encode_frame, encode_u32};

#[test]
fn big_endian_bytes() {
    assert_eq!(encode_u32(0x01020304), vec![1, 2, 3, 4]);
    assert_eq!(encode_u32(0), vec![0, 0, 0, 0]);
    assert_eq!(encode_u32(u32::MAX), vec![255, 255, 255, 255]);
    assert_eq!(decode_u32(&[1, 2, 3, 4]), 0x01020304);
    assert_eq!(decode_u32(&[0, 0, 1, 0]), 256);
}

#[test]
fn frame_carries_length_then_data() {
    assert_eq!(encode_frame(b"abc"), vec![0, 0, 0, 3, b'a', b'b', b'c']);
    assert_eq!(encode_frame(b""), vec![0, 0, 0, 0]);
}

#[test]
fn frame_reads_back() {
    let data: Vec<u8> = (0..300u32).map(|i| (i % 251) as u8).collect();
    let f = encode_frame(&data);
    assert_eq!(decode_u32(&f[0..4]) as usize, data.len());
    assert_eq!(&f[4..], data.as_slice());
    for n in [0u32, 1, 255, 256, 65535, 1 << 24, u32::MAX] {
        assert_eq!(decode_u32(&encode_u32(n)), n);
    }
}
