use bios_renamer::layout::{EXPECTED_FILE_SIZE, FIXED_BLOCK_LEN, FIXED_BLOCK_START, MARKER_BLOCK_LEN};
use bios_renamer::{
    is_file_valid, layout_of, locate_block, locate_marker, BiosInfo, BuildDate, DecodeError, Variant,
};

const MARKER: &[u8] = b"$BOOTEFI$";

fn put(buf: &mut Vec<u8>, at: usize, text: &[u8]) {
    buf[at..at + text.len()].copy_from_slice(text);
}

/// A marker followed by a block with every field filled in.
fn marker_image(prefix: &[u8], date: &[u8], name: &[u8]) -> Vec<u8> {
    let mut block = vec![0u8; MARKER_BLOCK_LEN];
    put(&mut block, 0x05, b"ROG STRIX X570-E GAMING");
    put(&mut block, 0x41, b"ASUS");
    put(&mut block, 0x56, date);
    put(&mut block, 0x61, b"4602");
    put(&mut block, 0x88, name);
    let mut image = prefix.to_vec();
    image.extend_from_slice(MARKER);
    image.extend_from_slice(&block);
    image
}

fn decode(image: &[u8], v: Variant) -> Result<BiosInfo, DecodeError> {
    BiosInfo::from_file(image, v)
}

#[test]
fn expected_name_after_marker() {
    let image = marker_image(b"", b"01/15/2024", b"TGX570PW.CAP");
    let info = decode(&image, Variant::MarkerScan).unwrap();
    assert_eq!(info.get_expected_name(), "TGX570PW.CAP");
}

#[test]
fn all_fields_after_marker() {
    let image = marker_image(b"\xff\xff\x00abc", b"01/15/2024", b"TGX570PW.CAP");
    assert_eq!(locate_marker(&image), Some(6 + 9));
    let info = decode(&image, Variant::MarkerScan).unwrap();
    assert_eq!(info.board_name(), "ROG STRIX X570-E GAMING");
    assert_eq!(info.brand(), "ASUS");
    assert_eq!(info.build_date(), BuildDate { year: 2024, month: 1, day: 15 });
    assert_eq!(info.build_number(), "4602");
    assert_eq!(info.get_expected_name(), "TGX570PW.CAP");
}

#[test]
fn impossible_date_falls_back() {
    let image = marker_image(b"", b"02/30/2022", b"TGX570PW.CAP");
    let info = decode(&image, Variant::MarkerScan).unwrap();
    assert_eq!(info.build_date(), BuildDate::default());
    assert_eq!(info.build_date(), BuildDate { year: 1970, month: 1, day: 1 });
}

#[test]
fn zero_date_falls_back() {
    let image = marker_image(b"", b"\0\0\0\0\0\0\0\0\0\0", b"TGX570PW.CAP");
    let info = decode(&image, Variant::MarkerScan).unwrap();
    assert_eq!(info.build_date(), BuildDate { year: 1970, month: 1, day: 1 });
}

#[test]
fn letter_date_falls_back() {
    let image = marker_image(b"", b"ABCDEFGHIJ", b"TGX570PW.CAP");
    let info = decode(&image, Variant::MarkerScan).unwrap();
    assert_eq!(info.build_date(), BuildDate { year: 1970, month: 1, day: 1 });
}

#[test]
fn empty_image_has_no_block() {
    assert_eq!(locate_marker(&[]), None);
    assert!(matches!(decode(&[], Variant::MarkerScan), Err(DecodeError::BlockNotFound)));
}

#[test]
fn image_without_marker_has_no_block() {
    let image = vec![0x24u8; 500];
    assert_eq!(locate_marker(&image), None);
    assert!(matches!(decode(&image, Variant::MarkerScan), Err(DecodeError::BlockNotFound)));
    let near = b"xx$BOOTEFIX$BOOTEF".to_vec();
    assert!(matches!(decode(&near, Variant::MarkerScan), Err(DecodeError::BlockNotFound)));
}

#[test]
fn scan_does_not_look_back_into_a_window() {
    let image = marker_image(b"$", b"01/15/2024", b"TGX570PW.CAP");
    assert_eq!(locate_marker(&image), None);
    assert!(matches!(decode(&image, Variant::MarkerScan), Err(DecodeError::BlockNotFound)));
}

#[test]
fn scan_goes_on_after_a_failed_window() {
    let image = marker_image(b"$OOTEFI$x", b"01/15/2024", b"TGX570PW.CAP");
    assert_eq!(locate_marker(&image), Some(18));
    let info = decode(&image, Variant::MarkerScan).unwrap();
    assert_eq!(info.get_expected_name(), "TGX570PW.CAP");
}

#[test]
fn short_image_is_truncated() {
    let mut image = MARKER.to_vec();
    image.extend_from_slice(&[0u8; 157]);
    assert_eq!(locate_marker(&image), Some(9));
    assert!(matches!(decode(&image, Variant::MarkerScan), Err(DecodeError::TruncatedInput)));
    assert!(matches!(decode(MARKER, Variant::MarkerScan), Err(DecodeError::TruncatedInput)));
    assert!(matches!(decode(&image, Variant::FixedOffset), Err(DecodeError::TruncatedInput)));
}

#[test]
fn exact_length_image_decodes() {
    let mut image = MARKER.to_vec();
    image.extend_from_slice(&[0u8; 158]);
    let info = decode(&image, Variant::MarkerScan).unwrap();
    assert_eq!(info.get_expected_name(), "");
    assert_eq!(info.board_name(), "");
}

#[test]
fn decoding_twice_agrees() {
    let image = marker_image(b"abc", b"12/31/2023", b"TGX570PW.CAP");
    let a = decode(&image, Variant::MarkerScan).unwrap();
    let b = decode(&image, Variant::MarkerScan).unwrap();
    assert_eq!(a.board_name(), b.board_name());
    assert_eq!(a.brand(), b.brand());
    assert_eq!(a.build_date(), b.build_date());
    assert_eq!(a.build_number(), b.build_number());
    assert_eq!(a.get_expected_name(), b.get_expected_name());
    assert_eq!(a.build_date(), BuildDate { year: 2023, month: 12, day: 31 });
}

#[test]
fn null_padding_is_cut() {
    let image = marker_image(b"", b"01/15/2024", b"ABC\0XYZ");
    let info = decode(&image, Variant::MarkerScan).unwrap();
    assert_eq!(info.get_expected_name(), "ABC");
}

#[test]
fn fixed_offset_image() {
    let mut image = vec![0u8; 0x100018B];
    let block = 0x10000FA;
    put(&mut image, block, b"PRIME B450M");
    put(&mut image, block + 0x3C, b"ASUS");
    put(&mut image, block + 0x51, b"06/01/2021");
    put(&mut image, block + 0x5C, b"3002");
    put(&mut image, block + 0x83, b"C8DH.CAP\0\0\0\0");
    assert_eq!(locate_block(&image, Variant::FixedOffset), Some(FIXED_BLOCK_START));
    let info = decode(&image, Variant::FixedOffset).unwrap();
    assert_eq!(info.get_expected_name(), "C8DH.CAP");
    assert_eq!(info.board_name(), "PRIME B450M");
    assert_eq!(info.brand(), "ASUS");
    assert_eq!(info.build_date(), BuildDate { year: 2021, month: 6, day: 1 });
    assert_eq!(info.build_number(), "3002");
}

#[test]
fn fixed_offset_image_one_byte_short() {
    let image = vec![0u8; 0x100018A];
    assert!(matches!(decode(&image, Variant::FixedOffset), Err(DecodeError::TruncatedInput)));
}

#[test]
fn layouts_fit_their_blocks() {
    let a = layout_of(Variant::MarkerScan);
    assert_eq!(a.block_len, 158);
    assert_eq!((a.expected_name.start, a.expected_name.end), (0x88, 0x94));
    assert_eq!((a.board_name.start, a.board_name.end), (0x05, 0x41));
    let b = layout_of(Variant::FixedOffset);
    assert_eq!(b.block_len, FIXED_BLOCK_LEN);
    assert_eq!(b.block_len, 0x91);
    assert_eq!((b.date.start, b.date.end), (0x51, 0x5B));
    assert_eq!((b.expected_name.start, b.expected_name.end), (0x83, 0x8F));
}

#[test]
fn decode_block_reads_a_bare_block() {
    let layout = layout_of(Variant::MarkerScan);
    let mut block = vec![0u8; 158];
    put(&mut block, 0x88, b"TGX570PW.CAP");
    put(&mut block, 0x56, b"02/30/2022");
    let info = BiosInfo::decode_block(&block, &layout);
    assert_eq!(info.get_expected_name(), "TGX570PW.CAP");
    assert_eq!(info.build_date(), BuildDate { year: 1970, month: 1, day: 1 });
}

#[test]
fn file_size_guard() {
    assert!(is_file_valid(true, 33558528));
    assert!(is_file_valid(true, EXPECTED_FILE_SIZE));
    assert!(!is_file_valid(true, 33558527));
    assert!(!is_file_valid(false, 33558528));
    assert!(!is_file_valid(true, 0));
}
