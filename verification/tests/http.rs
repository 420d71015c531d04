use heating_control::http::{absorb_chunk, is_success, CHUNK_BYTES};

fn buffer(bytes: &[u8]) -> [u8; 256] {
    let mut buf = [0xee_u8; 256];
    buf[..bytes.len()].copy_from_slice(bytes);
    buf
}

#[test]
fn success_is_any_status_from_200_to_299() {
    assert!(!is_success(0));
    assert!(!is_success(199));
    assert!(is_success(200));
    assert!(is_success(204));
    assert!(is_success(299));
    assert!(!is_success(300));
    assert!(!is_success(404));
    assert!(!is_success(u16::MAX));
}

#[test]
fn a_chunk_of_text_is_taken_whole() {
    let mut data = String::from("x=");
    let mut buf = buffer(b"hello");
    assert_eq!(absorb_chunk(&mut data, &mut buf, 5), 0);
    assert_eq!(data, "x=hello");
    assert_eq!(buf, buffer(b"hello"));
}

#[test]
fn an_empty_chunk_adds_nothing() {
    let mut data = String::from("kept");
    let mut buf = buffer(b"");
    assert_eq!(absorb_chunk(&mut data, &mut buf, 0), 0);
    assert_eq!(data, "kept");
    assert_eq!(buf, buffer(b""));
}

#[test]
fn only_the_filled_part_is_read() {
    let mut data = String::new();
    let mut buf = buffer(b"abcdef");
    assert_eq!(absorb_chunk(&mut data, &mut buf, 3), 0);
    assert_eq!(data, "abc");
}

#[test]
fn a_character_split_between_chunks_is_completed() {
    // the euro sign is e2 82 ac
    let mut data = String::new();
    let mut buf = buffer(&[b'a', b'b', 0xe2, 0x82]);
    let offset = absorb_chunk(&mut data, &mut buf, 4);
    assert_eq!(offset, 2);
    assert_eq!(data, "ab");
    assert_eq!(&buf[..2], &[0xe2, 0x82]);
    // the next chunk is read in behind what was kept
    buf[offset] = 0xac;
    buf[offset + 1] = b'c';
    assert_eq!(absorb_chunk(&mut data, &mut buf, offset + 2), 0);
    assert_eq!(data, "ab\u{20ac}c");
}

#[test]
fn the_kept_bytes_move_to_the_front_with_all_behind_them() {
    let mut data = String::new();
    let mut bytes = [0_u8; 256];
    for (i, b) in bytes.iter_mut().enumerate() {
        *b = 0x80 | (i as u8 & 0x3f);
    }
    bytes[0] = b'o';
    bytes[1] = b'k';
    bytes[2] = 0xf0;
    let mut buf = bytes;
    let offset = absorb_chunk(&mut data, &mut buf, 4);
    assert_eq!(offset, 2);
    assert_eq!(data, "ok");
    assert_eq!(&buf[..254], &bytes[2..]);
    assert_eq!(&buf[254..], &bytes[254..]);
}

#[test]
fn bytes_that_are_no_text_stay_in_the_buffer() {
    let mut data = String::new();
    let mut buf = buffer(&[b'A', 0xff, b'B']);
    assert_eq!(absorb_chunk(&mut data, &mut buf, 3), 2);
    assert_eq!(data, "A");
    assert_eq!(&buf[..2], &[0xff, b'B']);
    // nothing more can be taken from them
    assert_eq!(absorb_chunk(&mut data, &mut buf, 2), 2);
    assert_eq!(data, "A");
    assert_eq!(&buf[..2], &[0xff, b'B']);
}

#[test]
fn a_full_buffer_is_taken() {
    assert_eq!(CHUNK_BYTES, 256);
    let mut data = String::new();
    let mut buf = [b'z'; 256];
    assert_eq!(absorb_chunk(&mut data, &mut buf, 256), 0);
    assert_eq!(data.len(), 256);
    assert!(data.bytes().all(|b| b == b'z'));
    let mut buf = [b'z'; 256];
    buf[255] = 0xc3;
    let mut data = String::new();
    assert_eq!(absorb_chunk(&mut data, &mut buf, 256), 1);
    assert_eq!(data.len(), 255);
    assert_eq!(buf[0], 0xc3);
}
