use uint_zigzag::Uint;

#[test]
fn max_bytes() {
    let u = Uint(u128::MAX);
    let bytes = u.to_vec();
    assert_eq!(bytes.len(), Uint::MAX_BYTES);
}

#[test]
fn max_bytes_is_nineteen() {
    assert_eq!(Uint::MAX_BYTES, 19);
}

#[test]
fn encodes_zero_as_one_zero_byte() {
    assert_eq!(Uint(0).to_vec(), vec![0x00u8]);
}

#[test]
fn encodes_largest_single_byte_value() {
    assert_eq!(Uint(127).to_vec(), vec![0x7Fu8]);
}

#[test]
fn encodes_smallest_two_byte_value() {
    assert_eq!(Uint(128).to_vec(), vec![0x80u8, 0x01]);
}

#[test]
fn encodes_three_byte_value() {
    assert_eq!(Uint(345678).to_vec(), vec![206u8, 140, 21]);
    assert_eq!(Uint(345678).to_vec(), vec![0xCEu8, 0x8C, 0x15]);
}

#[test]
fn encodes_2048() {
    assert_eq!(Uint(2048).to_vec(), vec![128u8, 16]);
}

#[test]
fn encodes_largest_value_exactly() {
    let mut expected = vec![0xFFu8; 18];
    expected.push(0x03);
    assert_eq!(Uint(u128::MAX).to_vec(), expected);
}

#[test]
fn encoded_length_steps_at_powers_of_128() {
    let mut bound: u128 = 128;
    let mut digits: usize = 1;
    while digits < 18 {
        assert_eq!(Uint(bound - 1).to_vec().len(), digits);
        assert_eq!(Uint(bound).to_vec().len(), digits + 1);
        bound *= 128;
        digits += 1;
    }
    assert_eq!(Uint(bound - 1).to_vec().len(), 18);
    assert_eq!(Uint(bound).to_vec().len(), 19);
}

#[test]
fn to_bytes_fills_start_of_buffer() {
    let mut buffer = [0u8, 0u8];
    let mut u = Uint::from(127);
    u.to_bytes(&mut buffer);
    assert_eq!(buffer, [0x7Fu8, 0u8]);

    u = Uint::from(128);
    u.to_bytes(&mut buffer);
    assert_eq!(buffer, [0x80u8, 1u8]);
}

#[test]
fn to_bytes_with_length_reports_bytes_used() {
    let mut buffer = [0xAAu8; 19];
    let n = Uint(345678).to_bytes_with_length(&mut buffer);
    assert_eq!(n, 3);
    assert_eq!(&buffer[..n], &[206u8, 140, 21]);
}

#[test]
fn to_bytes_with_length_keeps_rest_of_buffer() {
    let mut buffer = [0xAAu8; 19];
    let n = Uint(128).to_bytes_with_length(&mut buffer);
    assert_eq!(n, 2);
    assert_eq!(&buffer[n..], &[0xAAu8; 17]);
}

#[test]
fn to_bytes_with_length_accepts_exact_fit() {
    let mut buffer = [0u8; 1];
    assert_eq!(Uint(5).to_bytes_with_length(&mut buffer), 1);
    assert_eq!(buffer, [5u8]);
}

#[test]
fn peek_finds_single_byte() {
    let buffer = [0x34u8];
    let out = Uint::peek(&buffer);
    assert!(out.is_some());
    assert_eq!(out, Some(1));
}

#[test]
fn peek_of_empty_is_none() {
    let out = Uint::peek(&[]);
    assert!(out.is_none());
}

#[test]
fn peek_counts_bytes_up_to_the_closing_one() {
    assert_eq!(Uint::peek(&[0x80, 0x80, 0x01, 0x55, 0x80]), Some(3));
}

#[test]
fn peek_agrees_with_encoded_length() {
    let values = [0u128, 1, 127, 128, 16383, 16384, 345678, u64::MAX as u128, u128::MAX];
    for v in values {
        let bytes = Uint(v).to_vec();
        assert_eq!(Uint::peek(&bytes), Some(bytes.len()));
    }
}

#[test]
fn peek_of_truncated_encoding_is_none() {
    let values = [128u128, 16384, 345678, u64::MAX as u128, u128::MAX];
    for v in values {
        let bytes = Uint(v).to_vec();
        for cut in 0..bytes.len() {
            assert_eq!(Uint::peek(&bytes[..cut]), None);
        }
    }
}

#[test]
fn peek_rejects_nineteen_continuing_bytes() {
    assert_eq!(Uint::peek(&[0x80u8; 19]), None);
    assert_eq!(Uint::peek(&[0xFFu8; 19]), None);
}

#[test]
fn peek_never_looks_past_nineteen_bytes() {
    let mut bytes = vec![0x80u8; 19];
    bytes.push(0x01);
    assert_eq!(Uint::peek(&bytes), None);
}

#[test]
fn peek_accepts_closing_byte_in_last_place() {
    let mut bytes = vec![0x80u8; 18];
    bytes.push(0x01);
    assert_eq!(Uint::peek(&bytes), Some(19));
}

#[test]
fn decode_round_trips() {
    let values = [
        0u128,
        1,
        127,
        128,
        255,
        2048,
        16383,
        16384,
        345678,
        u32::MAX as u128,
        u64::MAX as u128,
        1u128 << 126,
        (1u128 << 126) - 1,
        u128::MAX - 1,
        u128::MAX,
    ];
    for v in values {
        let bytes = Uint(v).to_vec();
        assert_eq!(Uint::try_from(bytes.as_slice()), Ok(Uint(v)));
    }
}

#[test]
fn decode_reads_known_bytes() {
    assert_eq!(Uint::try_from(&[0x00u8][..]), Ok(Uint(0)));
    assert_eq!(Uint::try_from(&[0x7Fu8][..]), Ok(Uint(127)));
    assert_eq!(Uint::try_from(&[0x80u8, 0x01][..]), Ok(Uint(128)));
    assert_eq!(Uint::try_from(&[206u8, 140, 21][..]), Ok(Uint(345678)));
    assert_eq!(Uint::try_from(&[128u8, 16][..]), Ok(Uint(2048)));
}

#[test]
fn decode_ignores_trailing_bytes() {
    assert_eq!(Uint::try_from(&[206u8, 140, 21, 0xFF, 0x00][..]), Ok(Uint(345678)));
}

#[test]
fn decode_of_empty_fails() {
    let empty: [u8; 0] = [];
    assert_eq!(Uint::try_from(&empty[..]), Err("invalid byte sequence"));
}

#[test]
fn decode_of_truncated_fails() {
    assert_eq!(Uint::try_from(&[0x80u8][..]), Err("invalid byte sequence"));
    assert_eq!(Uint::try_from(&[206u8, 140][..]), Err("invalid byte sequence"));
}

#[test]
fn decode_rejects_nineteen_continuing_bytes() {
    assert_eq!(Uint::try_from(&[0x80u8; 19][..]), Err("invalid byte sequence"));
    assert_eq!(Uint::try_from(&[0xFFu8; 25][..]), Err("invalid byte sequence"));
}

#[test]
fn decode_accepts_padded_encoding() {
    assert_eq!(Uint::try_from(&[0x80u8, 0x00][..]), Ok(Uint(0)));
    assert_eq!(Uint::try_from(&[0x85u8, 0x80, 0x00][..]), Ok(Uint(5)));
}

#[test]
fn decode_drops_bits_beyond_128() {
    let mut bytes = vec![0x80u8; 18];
    bytes.push(0x7F);
    assert_eq!(Uint::try_from(bytes.as_slice()), Ok(Uint(3u128 << 126)));

    let mut bytes = vec![0xFFu8; 18];
    bytes.push(0x7F);
    assert_eq!(Uint::try_from(bytes.as_slice()), Ok(Uint(u128::MAX)));

    let mut bytes = vec![0x80u8; 18];
    bytes.push(0x04);
    assert_eq!(Uint::try_from(bytes.as_slice()), Ok(Uint(0)));
}

#[test]
fn decode_from_vec_reference() {
    let bytes: Vec<u8> = vec![206, 140, 21];
    assert_eq!(Uint::try_from(&bytes), Ok(Uint(345678)));
    let bad: Vec<u8> = vec![0x80];
    assert_eq!(Uint::try_from(&bad), Err("invalid byte sequence"));
}

#[test]
fn decode_from_boxed_vec_reference() {
    let bytes: Box<Vec<u8>> = Box::new(vec![128, 16]);
    assert_eq!(Uint::try_from(&bytes), Ok(Uint(2048)));
    let bad: Box<Vec<u8>> = Box::new(Vec::new());
    assert_eq!(Uint::try_from(&bad), Err("invalid byte sequence"));
}

#[test]
fn no_shorter_input_decodes_to_the_same_value() {
    let v = Uint(16384);
    let canonical = v.to_vec();
    assert_eq!(canonical.len(), 3);
    let padded = [0x80u8, 0x80, 0x81, 0x00];
    assert_eq!(Uint::try_from(&padded[..]), Ok(v));
    assert!(padded.len() > canonical.len());
}
