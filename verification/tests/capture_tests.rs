use ofreg::capture::{c_string_bytes, char_slice_to_str, handle, target_dir_buffer, TargetDirError, MAX_PATH_LEN};

fn c_buf(s: &[u8], size: usize) -> Vec<i8> {
    let mut v = vec![0i8; size];
    for (i, b) in s.iter().enumerate() {
        v[i] = *b as i8;
    }
    v
}

#[test]
fn c_string_stops_at_nul() {
    assert_eq!(c_string_bytes(&c_buf(b"/etc/passwd", 16)), b"/etc/passwd".to_vec());
    let mut v = c_buf(b"ab", 4);
    v[3] = b'z' as i8;
    assert_eq!(c_string_bytes(&v), b"ab".to_vec());
    let full: Vec<i8> = b"abc".iter().map(|b| *b as i8).collect();
    assert_eq!(c_string_bytes(&full), b"abc".to_vec());
    assert_eq!(c_string_bytes(&[]), Vec::<u8>::new());
}

#[test]
fn text_is_decoded_leniently() {
    assert_eq!(char_slice_to_str(&c_buf("/home/é".as_bytes(), 32)), "/home/é");
    assert_eq!(char_slice_to_str(&c_buf(&[b'a', 0xff, b'b'], 8)), "a\u{FFFD}b");
}

#[test]
fn event_record() {
    let op = c_buf(b"/etc/sudoers", 256);
    let exe = c_buf(b"/usr/bin/qq", 256);
    let d = handle(&op, &exe, 11);
    assert_eq!(d.cmd, "/usr/bin/qq");
    assert_eq!(d.op_file, "/etc/sudoers");
    assert_eq!(d.time, 11);
}

#[test]
fn target_dir_buffer_layout() {
    let buf = target_dir_buffer("/home/user").unwrap();
    assert_eq!(buf.len(), MAX_PATH_LEN);
    assert_eq!(&buf[..10], c_buf(b"/home/user", 10).as_slice());
    assert!(buf[10..].iter().all(|b| *b == 0));
    assert_eq!(char_slice_to_str(&buf), "/home/user");
    let wide = target_dir_buffer("/home/日本").unwrap();
    assert_eq!(char_slice_to_str(&wide), "/home/日本");
}

#[test]
fn target_dir_errors() {
    let long = "a".repeat(255);
    assert!(target_dir_buffer(&long).is_ok());
    let too_long = "a".repeat(256);
    assert_eq!(target_dir_buffer(&too_long), Err(TargetDirError::TooLong));
    assert_eq!(target_dir_buffer("/ho\0me"), Err(TargetDirError::InteriorNul));
}
