use uint_zigzag::ops::Operand;
use uint_zigzag::Uint;

#[test]
fn arithmetic_between_values() {
    assert_eq!(Uint(5) + Uint(3), Uint(8));
    assert_eq!(Uint(5) - Uint(3), Uint(2));
    assert_eq!(Uint(5) * Uint(3), Uint(15));
    assert_eq!(Uint(17) / Uint(5), Uint(3));
    assert_eq!(Uint(17) % Uint(5), Uint(2));
}

#[test]
fn bitwise_between_values() {
    assert_eq!(Uint(0b1100) & Uint(0b1010), Uint(0b1000));
    assert_eq!(Uint(0b1100) | Uint(0b1010), Uint(0b1110));
    assert_eq!(Uint(0b1100) ^ Uint(0b1010), Uint(0b0110));
    assert_eq!(Uint(1) << Uint(127), Uint(1u128 << 127));
    assert_eq!(Uint(u128::MAX) >> Uint(127), Uint(1));
    assert_eq!(Uint(u128::MAX) << Uint(1), Uint(u128::MAX - 1));
}

#[test]
fn operators_take_references() {
    let a = Uint(20);
    let b = Uint(6);
    assert_eq!(&a + &b, Uint(26));
    assert_eq!(a - &b, Uint(14));
    assert_eq!(&a * b, Uint(120));
    assert_eq!(&a / &b, Uint(3));
    assert_eq!(&a % &b, Uint(2));
}

#[test]
fn operators_take_primitive_integers() {
    assert_eq!(Uint(20) + 1u128, Uint(21));
    assert_eq!(Uint(20) + 1u8, Uint(21));
    assert_eq!(Uint(20) - 7u16, Uint(13));
    assert_eq!(Uint(20) * 4u32, Uint(80));
    assert_eq!(Uint(20) / 3u64, Uint(6));
    assert_eq!(Uint(20) % 3usize, Uint(2));
    assert_eq!(Uint(20) & 4i8, Uint(4));
    assert_eq!(Uint(20) | 1i16, Uint(21));
    assert_eq!(Uint(20) ^ 20, Uint(0));
    assert_eq!(Uint(20) << 2i64, Uint(80));
    assert_eq!(Uint(20) >> 2i128, Uint(5));
    assert_eq!(&Uint(20) + 5isize, Uint(25));
}

#[test]
fn negative_operand_stands_for_its_bit_pattern() {
    assert_eq!(Uint(0xF0) & -1i8, Uint(0xF0));
    assert_eq!((-1i8).operand(), u128::MAX);
    assert_eq!(Uint(7).operand(), 7);
    assert_eq!((&Uint(7)).operand(), 7);
}

#[test]
fn primitive_on_the_left_gives_primitive() {
    let r: u128 = 30u128 + Uint(12);
    assert_eq!(r, 42);
    assert_eq!(30u128 - &Uint(12), 18);
    assert_eq!(30u128 * Uint(2), 60);
    assert_eq!(30u128 / Uint(4), 7);
    assert_eq!(30u128 % &Uint(4), 2);
    assert_eq!(0b110u128 & Uint(0b011), 0b010);
    assert_eq!(0b110u128 | Uint(0b011), 0b111);
    assert_eq!(0b110u128 ^ Uint(0b011), 0b101);
    assert_eq!(1u128 << Uint(10), 1024);
    assert_eq!(1024u128 >> Uint(10), 1);
}

#[test]
fn compound_assignment() {
    let mut a = Uint(10);
    a += Uint(5);
    assert_eq!(a, Uint(15));
    a -= 3u8;
    assert_eq!(a, Uint(12));
    a *= &Uint(4);
    assert_eq!(a, Uint(48));
    a /= 5;
    assert_eq!(a, Uint(9));
    a %= 5u128;
    assert_eq!(a, Uint(4));
    a <<= 4u32;
    assert_eq!(a, Uint(64));
    a >>= 1;
    assert_eq!(a, Uint(32));
    a |= 1u64;
    assert_eq!(a, Uint(33));
    a &= 0b11;
    assert_eq!(a, Uint(1));
    a ^= Uint(0b101);
    assert_eq!(a, Uint(4));
}

#[test]
fn sum_adds_up() {
    let values = vec![Uint(1), Uint(2), Uint(3)];
    let total: Uint = values.into_iter().sum();
    assert_eq!(total, Uint(6));
    let total: Uint = vec![10u8, 20, 30].into_iter().sum();
    assert_eq!(total, Uint(60));
    let total: Uint = vec![u64::MAX, u64::MAX].into_iter().sum();
    assert_eq!(total, Uint(2 * (u64::MAX as u128)));
}

#[test]
fn sum_of_nothing_is_zero() {
    let total: Uint = Vec::<Uint>::new().into_iter().sum();
    assert_eq!(total, Uint(0));
}

#[test]
fn product_multiplies() {
    let values = vec![Uint(2), Uint(3), Uint(7)];
    let total: Uint = values.into_iter().product();
    assert_eq!(total, Uint(42));
    let total: Uint = vec![4u32, 5].into_iter().product();
    assert_eq!(total, Uint(20));
    let total: Uint = vec![9u128, 0, 9].into_iter().product();
    assert_eq!(total, Uint(0));
}

#[test]
fn product_of_nothing_is_one() {
    let total: Uint = Vec::<u16>::new().into_iter().product();
    assert_eq!(total, Uint(1));
}
