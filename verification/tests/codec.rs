use entropy_network_status_page::codec::{
    le_number, read_array32, read_byte_string, read_u128, read_u8, take,
};
use entropy_network_status_page::DecodeError;
use parity_scale_codec::{Compact, Encode};

#[test]
fn take_splits_at_the_given_length() {
    let input = [1u8, 2, 3, 4, 5];
    let (head, rest) = take(&input, 2).unwrap();
    assert_eq!(head, &[1u8, 2][..]);
    assert_eq!(rest, &[3u8, 4, 5][..]);
    let (head, rest) = take(&input, 5).unwrap();
    assert_eq!(head, &input[..]);
    assert!(rest.is_empty());
    let (head, rest) = take(&input, 0).unwrap();
    assert!(head.is_empty());
    assert_eq!(rest, &input[..]);
}

#[test]
fn take_of_too_much_is_truncated() {
    assert_eq!(take(&[1u8, 2, 3], 4), Err(DecodeError::Truncated));
    assert_eq!(take(&[], 1), Err(DecodeError::Truncated));
}

#[test]
fn byte_string_with_one_byte_prefix() {
    let input = [0x0cu8, 0xaa, 0xbb, 0xcc, 0xdd];
    let (bytes, rest) = read_byte_string(&input).unwrap();
    assert_eq!(bytes, vec![0xaa, 0xbb, 0xcc]);
    assert_eq!(rest, &[0xddu8][..]);
}

#[test]
fn byte_string_empty() {
    let input = [0x00u8, 0x99];
    let (bytes, rest) = read_byte_string(&input).unwrap();
    assert!(bytes.is_empty());
    assert_eq!(rest, &[0x99u8][..]);
}

#[test]
fn byte_string_with_two_byte_prefix() {
    // 64 is the first length that needs two bytes: (64 << 2) | 1 = 0x0101.
    let mut input = vec![0x01u8, 0x01];
    input.extend(std::iter::repeat(7u8).take(64));
    input.push(9);
    let (bytes, rest) = read_byte_string(&input).unwrap();
    assert_eq!(bytes, vec![7u8; 64]);
    assert_eq!(rest, &[9u8][..]);
}

#[test]
fn byte_string_with_four_byte_prefix() {
    // 16384 is the first length that needs four bytes: (16384 << 2) | 2.
    let mut input = vec![0x02u8, 0x00, 0x01, 0x00];
    input.extend(std::iter::repeat(3u8).take(16384));
    let (bytes, rest) = read_byte_string(&input).unwrap();
    assert_eq!(bytes.len(), 16384);
    assert!(bytes.iter().all(|b| *b == 3));
    assert!(rest.is_empty());
}

#[test]
fn byte_string_agrees_with_the_encoder() {
    for len in [0usize, 1, 2, 63, 64, 65, 255, 256, 16383, 16384, 16385, 70000] {
        let value: Vec<u8> = (0..len).map(|i| (i % 251) as u8).collect();
        let mut input = value.encode();
        input.extend_from_slice(&[0xfe, 0xff]);
        let (bytes, rest) = read_byte_string(&input).unwrap();
        assert_eq!(bytes, value);
        assert_eq!(rest, &[0xfeu8, 0xff][..]);
    }
}

#[test]
fn byte_string_prefix_in_the_longest_form() {
    // Form 3 with four bytes holds lengths from 2^30 on; the input is far
    // shorter than that, so the bytes are missing.
    let input = Compact(1u32 << 30).encode();
    assert_eq!(input, vec![0x03, 0x00, 0x00, 0x00, 0x40]);
    assert_eq!(read_byte_string(&input), Err(DecodeError::Truncated));
}

#[test]
fn byte_string_without_prefix_is_malformed() {
    assert_eq!(read_byte_string(&[]), Err(DecodeError::MalformedLength));
}

#[test]
fn byte_string_with_cut_prefix_is_malformed() {
    assert_eq!(read_byte_string(&[0x01]), Err(DecodeError::MalformedLength));
    assert_eq!(
        read_byte_string(&[0x02, 0x00, 0x01]),
        Err(DecodeError::MalformedLength)
    );
    assert_eq!(
        read_byte_string(&[0x03, 0x00, 0x00, 0x00]),
        Err(DecodeError::MalformedLength)
    );
}

#[test]
fn byte_string_with_overlong_prefix_is_malformed() {
    // The length 1 in the two-byte form.
    assert_eq!(
        read_byte_string(&[0x05, 0x00, 0xaa]),
        Err(DecodeError::MalformedLength)
    );
    // The length 1 in the four-byte form.
    assert_eq!(
        read_byte_string(&[0x06, 0x00, 0x00, 0x00, 0xaa]),
        Err(DecodeError::MalformedLength)
    );
    // The length 1 in the five-byte form.
    assert_eq!(
        read_byte_string(&[0x03, 0x01, 0x00, 0x00, 0x00, 0xaa]),
        Err(DecodeError::MalformedLength)
    );
    // A form 3 prefix that announces five bytes.
    assert_eq!(
        read_byte_string(&[0x07, 0x00, 0x00, 0x00, 0x00, 0x01]),
        Err(DecodeError::MalformedLength)
    );
}

#[test]
fn byte_string_shorter_than_its_length_is_truncated() {
    assert_eq!(
        read_byte_string(&[0x0c, 0xaa, 0xbb]),
        Err(DecodeError::Truncated)
    );
}

#[test]
fn array_of_32_bytes() {
    let input: Vec<u8> = (0..40u8).collect();
    let (bytes, rest) = read_array32(&input).unwrap();
    let expected: Vec<u8> = (0..32u8).collect();
    assert_eq!(bytes.to_vec(), expected);
    assert_eq!(rest, &input[32..]);
    assert_eq!(read_array32(&input[..31]), Err(DecodeError::Truncated));
}

#[test]
fn u128_is_little_endian() {
    let mut input = vec![0u8; 16];
    input[0] = 0x01;
    input[1] = 0x02;
    input.push(0x55);
    let (value, rest) = read_u128(&input).unwrap();
    assert_eq!(value, 0x0201);
    assert_eq!(rest, &[0x55u8][..]);
}

#[test]
fn u128_agrees_with_the_encoder() {
    for value in [
        0u128,
        1,
        255,
        256,
        u64::MAX as u128,
        (u64::MAX as u128) + 1,
        0x0123_4567_89ab_cdef_0011_2233_4455_6677,
        u128::MAX,
    ] {
        let input = value.encode();
        assert_eq!(read_u128(&input), Ok((value, &[][..])));
    }
}

#[test]
fn u128_of_fifteen_bytes_is_truncated() {
    assert_eq!(read_u128(&[0u8; 15]), Err(DecodeError::Truncated));
}

#[test]
fn le_number_of_short_inputs() {
    assert_eq!(le_number(&[]), 0);
    assert_eq!(le_number(&[0x2a]), 42);
    assert_eq!(le_number(&[0x00, 0x01]), 256);
    assert_eq!(le_number(&[0xff; 16]), u128::MAX);
}

#[test]
fn one_byte() {
    assert_eq!(read_u8(&[7, 8]), Ok((7u8, &[8u8][..])));
    assert_eq!(read_u8(&[]), Err(DecodeError::Truncated));
}
