use stubdns::query::{frame_length, frame_tcp_message};

#[test]
fn frame_prefixes_big_endian_length() {
    assert_eq!(frame_tcp_message(&[]), vec![0, 0]);
    assert_eq!(frame_tcp_message(&[0xAB, 0xCD, 0xEF]), vec![0, 3, 0xAB, 0xCD, 0xEF]);
    let long = vec![7u8; 300];
    let f = frame_tcp_message(&long);
    assert_eq!(&f[..2], &[1, 44]);
    assert_eq!(&f[2..], &long[..]);
}

#[test]
fn frame_length_reads_big_endian() {
    assert_eq!(frame_length([0, 0]), 0);
    assert_eq!(frame_length([1, 44]), 300);
    assert_eq!(frame_length([0xFF, 0xFF]), 65535);
}

#[test]
fn frame_round_trip() {
    let msg: Vec<u8> = (0..=255u8).cycle().take(1000).collect();
    let f = frame_tcp_message(&msg);
    assert_eq!(frame_length([f[0], f[1]]), msg.len());
    assert_eq!(&f[2..], &msg[..]);
}

#[test]
fn oversized_length_wraps_like_a_u16() {
    let msg = vec![1u8; 65536 + 5];
    let f = frame_tcp_message(&msg);
    assert_eq!(frame_length([f[0], f[1]]), 5);
    assert_eq!(f.len(), msg.len() + 2);
}
