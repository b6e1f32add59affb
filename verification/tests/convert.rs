use uint_zigzag::Uint;

#[test]
fn default_is_zero() {
    assert_eq!(Uint::default(), Uint(0));
}

#[test]
fn from_unsigned_keeps_value() {
    assert_eq!(Uint::from(200u8), Uint(200));
    assert_eq!(Uint::from(60000u16), Uint(60000));
    assert_eq!(Uint::from(u32::MAX), Uint(u32::MAX as u128));
    assert_eq!(Uint::from(u64::MAX), Uint(u64::MAX as u128));
    assert_eq!(Uint::from(usize::MAX), Uint(usize::MAX as u128));
    assert_eq!(Uint::from(u128::MAX), Uint(u128::MAX));
}

#[test]
fn from_signed_keeps_values_that_are_not_negative() {
    assert_eq!(Uint::from(127i8), Uint(127));
    assert_eq!(Uint::from(i16::MAX), Uint(32767));
    assert_eq!(Uint::from(127), Uint(127));
    assert_eq!(Uint::from(i64::MAX), Uint(i64::MAX as u128));
    assert_eq!(Uint::from(i128::MAX), Uint(u128::MAX / 2));
    assert_eq!(Uint::from(7isize), Uint(7));
}

#[test]
fn from_negative_reinterprets_bits() {
    assert_eq!(Uint::from(-1i8), Uint(u128::MAX));
    assert_eq!(Uint::from(-2i16), Uint(u128::MAX - 1));
    assert_eq!(Uint::from(-1i32), Uint(u128::MAX));
    assert_eq!(Uint::from(i64::MIN), Uint(u128::MAX - (i64::MAX as u128)));
    assert_eq!(Uint::from(i128::MIN), Uint(1u128 << 127));
    assert_eq!(Uint::from(-1isize), Uint(u128::MAX));
}

#[test]
fn negative_input_encodes_at_full_length() {
    assert_eq!(Uint::from(-1i8).to_vec().len(), 19);
}

#[test]
fn into_unsigned_keeps_low_bits() {
    assert_eq!(u8::from(Uint(0x1FF)), 0xFF);
    assert_eq!(u8::from(Uint(200)), 200);
    assert_eq!(u16::from(Uint(0x1_2345)), 0x2345);
    assert_eq!(u32::from(Uint(0x1_0000_0007)), 7);
    assert_eq!(u64::from(Uint(u128::MAX)), u64::MAX);
    assert_eq!(usize::from(Uint(12)), 12);
    assert_eq!(usize::from(Uint(u128::MAX)), usize::MAX);
    assert_eq!(u128::from(Uint(u128::MAX)), u128::MAX);
}

#[test]
fn into_signed_reads_twos_complement() {
    assert_eq!(i8::from(Uint(0xFF)), -1);
    assert_eq!(i8::from(Uint(0x7F)), 127);
    assert_eq!(i8::from(Uint(0x180)), -128);
    assert_eq!(i16::from(Uint(0x8000)), i16::MIN);
    assert_eq!(i32::from(Uint(5)), 5);
    assert_eq!(i64::from(Uint(u128::MAX)), -1);
    assert_eq!(i128::from(Uint(u128::MAX)), -1);
    assert_eq!(i128::from(Uint(1u128 << 127)), i128::MIN);
    assert_eq!(isize::from(Uint(u128::MAX)), -1);
    assert_eq!(isize::from(Uint(9)), 9);
}

#[test]
fn signed_round_trip_through_uint() {
    for v in [i32::MIN, -345678, -1, 0, 1, 345678, i32::MAX] {
        assert_eq!(i32::from(Uint::from(v)), v);
    }
}

#[test]
fn values_compare_by_their_integer() {
    assert!(Uint(3) < Uint(4));
    assert!(Uint(4) == Uint(4));
    assert_ne!(Uint(4), Uint(5));
    assert_eq!(Uint(9).max(Uint(2)), Uint(9));
}
