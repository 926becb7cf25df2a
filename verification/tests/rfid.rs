use bytes::BytesMut;
use cat_feeder::rfid_reader::{
    compute_checksum, decode, decode_frame, find_byte, parse_hex, FrameError, Scan, END,
    FRAME_LEN, START,
};

fn frame(message: &[u8; 10], sum: &[u8; 2]) -> Vec<u8> {
    let mut bytes = vec![2u8];
    bytes.extend_from_slice(message);
    bytes.extend_from_slice(sum);
    bytes.push(3);
    bytes
}

fn good_frame() -> Vec<u8> {
    frame(b"0A00112233", b"0A")
}

#[test]
fn frame_constants() {
    assert_eq!(START, 2);
    assert_eq!(END, 3);
    assert_eq!(FRAME_LEN, 14);
    assert_eq!(good_frame().len(), 14);
}

#[test]
fn find_byte_gives_the_first_place() {
    assert_eq!(find_byte(b"abcabc", b'c'), Some(2));
    assert_eq!(find_byte(b"abcabc", b'a'), Some(0));
    assert_eq!(find_byte(b"abcabc", b'z'), None);
    assert_eq!(find_byte(b"", 2), None);
    assert_eq!(find_byte(&[9, 9, 2, 2], 2), Some(2));
}

#[test]
fn parse_hex_reads_hexadecimal() {
    assert_eq!(parse_hex(b"0"), 0);
    assert_eq!(parse_hex(b"1f"), 31);
    assert_eq!(parse_hex(b"1F"), 31);
    assert_eq!(parse_hex(b"00112233"), 0x0011_2233);
    assert_eq!(parse_hex(b"FFFFFFFF"), u32::MAX);
    assert_eq!(parse_hex(b"ffffffff"), u32::MAX);
    assert_eq!(parse_hex(b"+f"), 15);
    assert_eq!(parse_hex(b"+1234567"), 0x0123_4567);
}

#[test]
fn parse_hex_gives_zero_for_what_is_no_number() {
    assert_eq!(parse_hex(b""), 0);
    assert_eq!(parse_hex(b"+"), 0);
    assert_eq!(parse_hex(b"-1"), 0);
    assert_eq!(parse_hex(b"g1"), 0);
    assert_eq!(parse_hex(b"1g"), 0);
    assert_eq!(parse_hex(b"1 "), 0);
    assert_eq!(parse_hex(b"++1"), 0);
    assert_eq!(parse_hex(b"1+"), 0);
    assert_eq!(parse_hex(&[0xc3, 0xa9]), 0);
    assert_eq!(parse_hex(b"/0"), 0);
    assert_eq!(parse_hex(b":0"), 0);
    assert_eq!(parse_hex(b"@0"), 0);
    assert_eq!(parse_hex(b"G0"), 0);
    assert_eq!(parse_hex(b"`0"), 0);
}

#[test]
fn parse_hex_agrees_with_the_standard_library() {
    for text in [
        "7", "a9", "+b", "zz", "", "+", "0000", "abcdef12", "+00000a", "1_0", "AbCd", "123456789",
        "000000001", "ffffffff", "100000000", "+0ffffffff", "fffffffff", "0000000000000000f",
    ] {
        let expected = u32::from_str_radix(text, 16).unwrap_or(0);
        assert_eq!(parse_hex(text.as_bytes()), expected, "text {:?}", text);
    }
}

#[test]
fn checksum_is_the_xor_of_the_pairs() {
    assert_eq!(compute_checksum(b"0A00112233"), Some(0x0a));
    assert_eq!(compute_checksum(b"0000000000"), Some(0));
    assert_eq!(compute_checksum(b"FF00000000"), Some(0xff));
    assert_eq!(compute_checksum(b"0102040810"), Some(0x1f));
    assert_eq!(compute_checksum(b"ff0f000000"), Some(0xf0));
}

#[test]
fn checksum_counts_a_pair_that_is_no_number_as_zero() {
    assert_eq!(compute_checksum(b"zz00112233"), Some(0x11 ^ 0x22 ^ 0x33));
    assert_eq!(compute_checksum(b"+A00112233"), Some(0x0a));
    assert_eq!(compute_checksum(&[0xff, 0xfe, b'0', b'1', b'0', b'0', b'0', b'0', b'0', b'0']), Some(1));
}

#[test]
fn checksum_needs_ten_characters() {
    assert_eq!(compute_checksum(b""), None);
    assert_eq!(compute_checksum(b"0A0011223"), None);
    assert_eq!(compute_checksum(b"0A001122334"), None);
}

#[test]
fn a_short_buffer_waits() {
    let bytes = &good_frame()[..13];
    assert_eq!(decode_frame(bytes), Scan { consumed: 0, outcome: Ok(None) });
    let mut src = BytesMut::from(bytes);
    assert_eq!(decode(&mut src), Ok(None));
    assert_eq!(&src[..], bytes);
    let mut empty = BytesMut::new();
    assert_eq!(decode(&mut empty), Ok(None));
    assert!(empty.is_empty());
}

#[test]
fn a_frame_gives_its_tag() {
    assert_eq!(decode_frame(&good_frame()), Scan { consumed: 14, outcome: Ok(Some(0x0011_2233)) });
    let mut src = BytesMut::from(&good_frame()[..]);
    assert_eq!(decode(&mut src), Ok(Some(1122867)));
    assert!(src.is_empty());
}

#[test]
fn what_follows_a_frame_stays() {
    let mut bytes = good_frame();
    bytes.extend_from_slice(&[2, b'0', b'A']);
    assert_eq!(decode_frame(&bytes).consumed, 14);
    let mut src = BytesMut::from(&bytes[..]);
    assert_eq!(decode(&mut src), Ok(Some(1122867)));
    assert_eq!(&src[..], &[2, b'0', b'A']);
    assert_eq!(decode(&mut src), Ok(None));
    assert_eq!(src.len(), 3);
}

#[test]
fn two_frames_come_out_one_by_one() {
    let mut bytes = good_frame();
    bytes.extend_from_slice(&frame(b"0B000000FF", b"F4"));
    let mut src = BytesMut::from(&bytes[..]);
    assert_eq!(decode(&mut src), Ok(Some(0x0011_2233)));
    assert_eq!(decode(&mut src), Ok(Some(0xff)));
    assert_eq!(decode(&mut src), Ok(None));
}

#[test]
fn a_wrong_checksum_drops_the_frame() {
    let bytes = frame(b"0A00112233", b"0B");
    assert_eq!(
        decode_frame(&bytes),
        Scan { consumed: 14, outcome: Err(FrameError::ChecksumMismatch) }
    );
    let mut src = BytesMut::from(&bytes[..]);
    assert_eq!(decode(&mut src), Err(FrameError::ChecksumMismatch));
    assert!(src.is_empty());
}

#[test]
fn a_checksum_that_is_no_number_counts_as_zero() {
    let bytes = frame(b"0000000000", b"zz");
    assert_eq!(decode_frame(&bytes).outcome, Ok(Some(0)));
    let bytes = frame(b"0A00112233", b"zz");
    assert_eq!(decode_frame(&bytes).outcome, Err(FrameError::ChecksumMismatch));
}

#[test]
fn a_tag_that_is_no_number_is_zero() {
    let bytes = frame(b"00zzzzzzzz", b"00");
    assert_eq!(decode_frame(&bytes).outcome, Ok(Some(0)));
}

#[test]
fn garbage_before_the_start_byte_is_dropped() {
    let mut bytes = b"xyz".to_vec();
    bytes.extend_from_slice(&good_frame());
    assert_eq!(
        decode_frame(&bytes),
        Scan { consumed: 3, outcome: Err(FrameError::Garbage(b"xyz".to_vec())) }
    );
    let mut src = BytesMut::from(&bytes[..]);
    assert_eq!(decode(&mut src), Err(FrameError::Garbage(b"xyz".to_vec())));
    assert_eq!(&src[..], &good_frame()[..]);
    assert_eq!(decode(&mut src), Ok(Some(1122867)));
}

#[test]
fn a_buffer_without_a_start_byte_is_emptied() {
    let bytes = [7u8; 20];
    assert_eq!(decode_frame(&bytes), Scan { consumed: 20, outcome: Err(FrameError::AllBad) });
    let mut src = BytesMut::from(&bytes[..]);
    assert_eq!(decode(&mut src), Err(FrameError::AllBad));
    assert!(src.is_empty());
}

#[test]
fn a_frame_without_its_end_byte_is_dropped_up_to_the_next_start() {
    let mut bytes = good_frame();
    bytes[13] = 9;
    bytes.extend_from_slice(&good_frame());
    let scan = decode_frame(&bytes);
    assert_eq!(scan.consumed, 14);
    assert_eq!(scan.outcome, Err(FrameError::Garbage(bytes[1..14].to_vec())));
    let mut src = BytesMut::from(&bytes[..]);
    assert_eq!(decode(&mut src), Err(FrameError::Garbage(bytes[1..14].to_vec())));
    assert_eq!(&src[..], &good_frame()[..]);
}

#[test]
fn a_start_byte_right_behind_a_bad_start_leaves_no_garbage() {
    let mut bytes = vec![2u8, 2];
    bytes.extend_from_slice(&[b'0'; 12]);
    let scan = decode_frame(&bytes);
    assert_eq!(scan, Scan { consumed: 1, outcome: Err(FrameError::Garbage(vec![])) });
    let mut src = BytesMut::from(&bytes[..]);
    assert_eq!(decode(&mut src), Err(FrameError::Garbage(vec![])));
    assert_eq!(src.len(), 13);
    assert_eq!(src[0], 2);
}

#[test]
fn a_bad_frame_with_no_other_start_byte_empties_the_buffer() {
    let mut bytes = good_frame();
    bytes[13] = 9;
    assert_eq!(decode_frame(&bytes), Scan { consumed: 14, outcome: Err(FrameError::AllBad) });
    let mut src = BytesMut::from(&bytes[..]);
    assert_eq!(decode(&mut src), Err(FrameError::AllBad));
    assert!(src.is_empty());
}
