use stellar_remit::base64::base64_encode;
use stellar_remit::codec::{push_u32_be, push_u64_be, read_u32_be, read_u64_be};

#[test]
fn u32_roundtrip_concrete() {
    let mut out: Vec<u8> = Vec::new();
    push_u32_be(&mut out, 0xdeadbeef);
    assert_eq!(out, vec![0xde, 0xad, 0xbe, 0xef]);
    assert_eq!(read_u32_be(&out, 0), 0xdeadbeef);
}

#[test]
fn u64_roundtrip_concrete() {
    let mut out: Vec<u8> = Vec::new();
    push_u64_be(&mut out, 101);
    assert_eq!(out, vec![0, 0, 0, 0, 0, 0, 0, 101]);
    assert_eq!(read_u64_be(&out, 0), 101);
    let mut big: Vec<u8> = Vec::new();
    push_u64_be(&mut big, 0x0123456789abcdef);
    assert_eq!(big, vec![0x01, 0x23, 0x45, 0x67, 0x89, 0xab, 0xcd, 0xef]);
    assert_eq!(read_u64_be(&big, 0), 0x0123456789abcdef);
}

#[test]
fn base64_known_vectors() {
    assert_eq!(base64_encode(&Vec::new()), b"".to_vec());
    assert_eq!(base64_encode(&b"M".to_vec()), b"TQ==".to_vec());
    assert_eq!(base64_encode(&b"Ma".to_vec()), b"TWE=".to_vec());
    assert_eq!(base64_encode(&b"Man".to_vec()), b"TWFu".to_vec());
    assert_eq!(base64_encode(&b"Many hands make light work.".to_vec()),
        b"TWFueSBoYW5kcyBtYWtlIGxpZ2h0IHdvcmsu".to_vec());
    assert_eq!(base64_encode(&vec![0xfb, 0xff, 0xfe]), b"+//+".to_vec());
}
