use spotipi::codec::{from_base16, u64_from_be};
use spotipi::file_id::FileId;

#[test]
fn file_id_from_short_raw_is_zero_padded() {
    let src = [0xABu8; 16];
    let id = FileId::from_raw(&src);
    assert_eq!(&id.0[..16], &src[..]);
    assert_eq!(&id.0[16..], &[0u8; 4][..]);
}

#[test]
fn file_id_from_full_raw_is_kept() {
    let mut src = [0u8; 20];
    for (i, b) in src.iter_mut().enumerate() {
        *b = i as u8;
    }
    let id = FileId::from_raw(&src);
    assert_eq!(id.0, src);
}

#[test]
fn file_id_from_overlong_raw_is_all_zero() {
    let src = [0xFFu8; 21];
    let id = FileId::from_raw(&src);
    assert_eq!(id.0, [0u8; 20]);
}

#[test]
fn file_id_to_base16_renders_lowercase_digits() {
    let mut src = [0u8; 20];
    src[0] = 0x01;
    src[1] = 0xAB;
    src[19] = 0xF0;
    let id = FileId::from_raw(&src);
    let hex = id.to_base16().unwrap();
    assert_eq!(hex, "01ab0000000000000000000000000000000000f0");
}

#[test]
fn from_base16_decodes_both_cases() {
    assert_eq!(from_base16(b"01ab"), Some(vec![0x01, 0xAB]));
    assert_eq!(from_base16(b"01AB"), Some(vec![0x01, 0xAB]));
    assert_eq!(from_base16(b""), Some(vec![]));
}

#[test]
fn from_base16_rejects_odd_length_and_bad_digits() {
    assert_eq!(from_base16(b"abc"), None);
    assert_eq!(from_base16(b"zz"), None);
    assert_eq!(from_base16(b"0g"), None);
}

#[test]
fn base16_round_trips_through_file_id() {
    let mut src = [0u8; 20];
    for (i, b) in src.iter_mut().enumerate() {
        *b = (i * 13) as u8;
    }
    let id = FileId::from_raw(&src);
    let hex = id.to_base16().unwrap();
    let back = from_base16(hex.as_bytes()).unwrap();
    assert_eq!(back, src.to_vec());
}

#[test]
fn u64_from_be_reads_big_endian() {
    assert_eq!(u64_from_be(&[0, 0, 0, 0, 0, 0, 0, 1]), 1);
    assert_eq!(u64_from_be(&[0x12, 0x34, 0x56, 0x78, 0x9A, 0xBC, 0xDE, 0xF0]),
        0x1234_5678_9ABC_DEF0);
    let x: u64 = 0xDEAD_BEEF_0BAD_F00D;
    assert_eq!(u64_from_be(&x.to_be_bytes()), x);
}
