//! Arithmetic and bitwise operators on `Uint`.
//!
//! Each operator is the operator of `u128` applied to the value inside.
//! Where `u128` would overflow, divide by zero or shift by 128 bits or more,
//! the operator has a precondition that leaves the case out: nothing here
//! wraps or saturates.
//!
//! The right side may be a `Uint`, a reference to one, or any primitive
//! integer; see [`Operand`]. On the left a `Uint`, a reference to one, or a
//! `u128` is accepted; with a `u128` on the left the result is a `u128`.
use vstd::prelude::*;
use vstd::std_specs::ops::{
    AddSpecImpl, BitAndSpecImpl, BitOrSpecImpl, BitXorSpecImpl, DivSpecImpl, MulSpecImpl,
    RemSpecImpl, ShlSpecImpl, ShrSpecImpl, SubSpecImpl,
};
use crate::uint::Uint;

verus! {

/// What may stand on the right of an operator: anything that has a value of
/// 128 bits.
pub trait Operand: Sized {
    /// The value that the operator works on.
    spec fn operand_spec(self) -> u128;

    /// Gives the value that the operator works on.
    fn operand(self) -> (r: u128)
        ensures
            r == self.operand_spec(),
    ;
}

impl Operand for Uint {
    open spec fn operand_spec(self) -> u128 {
        self.0
    }

    fn operand(self) -> (r: u128) {
        self.0
    }
}

impl<'a> Operand for &'a Uint {
    open spec fn operand_spec(self) -> u128 {
        self.0
    }

    fn operand(self) -> (r: u128) {
        self.0
    }
}

impl Operand for u128 {
    open spec fn operand_spec(self) -> u128 {
        self
    }

    fn operand(self) -> (r: u128) {
        self
    }
}

impl Operand for u64 {
    open spec fn operand_spec(self) -> u128 {
        self as u128
    }

    fn operand(self) -> (r: u128) {
        self as u128
    }
}

impl Operand for u32 {
    open spec fn operand_spec(self) -> u128 {
        self as u128
    }

    fn operand(self) -> (r: u128) {
        self as u128
    }
}

impl Operand for u16 {
    open spec fn operand_spec(self) -> u128 {
        self as u128
    }

    fn operand(self) -> (r: u128) {
        self as u128
    }
}

impl Operand for u8 {
    open spec fn operand_spec(self) -> u128 {
        self as u128
    }

    fn operand(self) -> (r: u128) {
        self as u128
    }
}

impl Operand for usize {
    open spec fn operand_spec(self) -> u128 {
        self as u128
    }

    fn operand(self) -> (r: u128) {
        self as u128
    }
}

/// A signed integer stands for its bit pattern, sign-extended to 128 bits,
/// as in `Uint::from`.
impl Operand for i128 {
    open spec fn operand_spec(self) -> u128 {
        self as u128
    }

    fn operand(self) -> (r: u128) {
        self as u128
    }
}

/// A signed integer stands for its bit pattern, sign-extended to 128 bits,
/// as in `Uint::from`.
impl Operand for i64 {
    open spec fn operand_spec(self) -> u128 {
        self as u128
    }

    fn operand(self) -> (r: u128) {
        self as u128
    }
}

/// A signed integer stands for its bit pattern, sign-extended to 128 bits,
/// as in `Uint::from`.
impl Operand for i32 {
    open spec fn operand_spec(self) -> u128 {
        self as u128
    }

    fn operand(self) -> (r: u128) {
        self as u128
    }
}

/// A signed integer stands for its bit pattern, sign-extended to 128 bits,
/// as in `Uint::from`.
impl Operand for i16 {
    open spec fn operand_spec(self) -> u128 {
        self as u128
    }

    fn operand(self) -> (r: u128) {
        self as u128
    }
}

/// A signed integer stands for its bit pattern, sign-extended to 128 bits,
/// as in `Uint::from`.
impl Operand for i8 {
    open spec fn operand_spec(self) -> u128 {
        self as u128
    }

    fn operand(self) -> (r: u128) {
        self as u128
    }
}

/// A signed integer stands for its bit pattern, sign-extended to 128 bits,
/// as in `Uint::from`.
impl Operand for isize {
    open spec fn operand_spec(self) -> u128 {
        self as u128
    }

    fn operand(self) -> (r: u128) {
        self as u128
    }
}

impl<T: Operand> core::ops::Add<T> for Uint {
    type Output = Uint;

    /// The sum; it must fit in 128 bits.
    fn add(self, rhs: T) -> (r: Uint) {
        Uint(self.0 + rhs.operand())
    }
}

impl<T: Operand> AddSpecImpl<T> for Uint {
    open spec fn obeys_add_spec() -> bool {
        true
    }

    open spec fn add_req(self, rhs: T) -> bool {
        self.0 + rhs.operand_spec() <= u128::MAX
    }

    open spec fn add_spec(self, rhs: T) -> Uint {
        Uint((self.0 + rhs.operand_spec()) as u128)
    }
}

impl<'a, T: Operand> core::ops::Add<T> for &'a Uint {
    type Output = Uint;

    /// The sum; it must fit in 128 bits.
    fn add(self, rhs: T) -> (r: Uint) {
        Uint(self.0 + rhs.operand())
    }
}

impl<'a, T: Operand> AddSpecImpl<T> for &'a Uint {
    open spec fn obeys_add_spec() -> bool {
        true
    }

    open spec fn add_req(self, rhs: T) -> bool {
        self.0 + rhs.operand_spec() <= u128::MAX
    }

    open spec fn add_spec(self, rhs: T) -> Uint {
        Uint((self.0 + rhs.operand_spec()) as u128)
    }
}

impl core::ops::Add<Uint> for u128 {
    type Output = u128;

    /// The sum; it must fit in 128 bits.
    fn add(self, rhs: Uint) -> (r: u128) {
        self + rhs.0
    }
}

impl AddSpecImpl<Uint> for u128 {
    open spec fn obeys_add_spec() -> bool {
        true
    }

    open spec fn add_req(self, rhs: Uint) -> bool {
        self + rhs.0 <= u128::MAX
    }

    open spec fn add_spec(self, rhs: Uint) -> u128 {
        (self + rhs.0) as u128
    }
}

impl<'a> core::ops::Add<&'a Uint> for u128 {
    type Output = u128;

    /// The sum; it must fit in 128 bits.
    fn add(self, rhs: &'a Uint) -> (r: u128) {
        self + rhs.0
    }
}

impl<'a> AddSpecImpl<&'a Uint> for u128 {
    open spec fn obeys_add_spec() -> bool {
        true
    }

    open spec fn add_req(self, rhs: &'a Uint) -> bool {
        self + rhs.0 <= u128::MAX
    }

    open spec fn add_spec(self, rhs: &'a Uint) -> u128 {
        (self + rhs.0) as u128
    }
}

impl<T: Operand> core::ops::AddAssign<T> for Uint {
    /// Replaces the value by what `+` gives.
    fn add_assign(&mut self, rhs: T)
        requires
            old(self).0 + rhs.operand_spec() <= u128::MAX,
        ensures
            final(self).0 == (old(self).0 + rhs.operand_spec()) as u128,
    {
        self.0 = self.0 + rhs.operand();
    }
}

impl<T: Operand> core::ops::Sub<T> for Uint {
    type Output = Uint;

    /// The difference; the right side must not be the larger.
    fn sub(self, rhs: T) -> (r: Uint) {
        Uint(self.0 - rhs.operand())
    }
}

impl<T: Operand> SubSpecImpl<T> for Uint {
    open spec fn obeys_sub_spec() -> bool {
        true
    }

    open spec fn sub_req(self, rhs: T) -> bool {
        self.0 >= rhs.operand_spec()
    }

    open spec fn sub_spec(self, rhs: T) -> Uint {
        Uint((self.0 - rhs.operand_spec()) as u128)
    }
}

impl<'a, T: Operand> core::ops::Sub<T> for &'a Uint {
    type Output = Uint;

    /// The difference; the right side must not be the larger.
    fn sub(self, rhs: T) -> (r: Uint) {
        Uint(self.0 - rhs.operand())
    }
}

impl<'a, T: Operand> SubSpecImpl<T> for &'a Uint {
    open spec fn obeys_sub_spec() -> bool {
        true
    }

    open spec fn sub_req(self, rhs: T) -> bool {
        self.0 >= rhs.operand_spec()
    }

    open spec fn sub_spec(self, rhs: T) -> Uint {
        Uint((self.0 - rhs.operand_spec()) as u128)
    }
}

impl core::ops::Sub<Uint> for u128 {
    type Output = u128;

    /// The difference; the right side must not be the larger.
    fn sub(self, rhs: Uint) -> (r: u128) {
        self - rhs.0
    }
}

impl SubSpecImpl<Uint> for u128 {
    open spec fn obeys_sub_spec() -> bool {
        true
    }

    open spec fn sub_req(self, rhs: Uint) -> bool {
        self >= rhs.0
    }

    open spec fn sub_spec(self, rhs: Uint) -> u128 {
        (self - rhs.0) as u128
    }
}

impl<'a> core::ops::Sub<&'a Uint> for u128 {
    type Output = u128;

    /// The difference; the right side must not be the larger.
    fn sub(self, rhs: &'a Uint) -> (r: u128) {
        self - rhs.0
    }
}

impl<'a> SubSpecImpl<&'a Uint> for u128 {
    open spec fn obeys_sub_spec() -> bool {
        true
    }

    open spec fn sub_req(self, rhs: &'a Uint) -> bool {
        self >= rhs.0
    }

    open spec fn sub_spec(self, rhs: &'a Uint) -> u128 {
        (self - rhs.0) as u128
    }
}

impl<T: Operand> core::ops::SubAssign<T> for Uint {
    /// Replaces the value by what `-` gives.
    fn sub_assign(&mut self, rhs: T)
        requires
            old(self).0 >= rhs.operand_spec(),
        ensures
            final(self).0 == (old(self).0 - rhs.operand_spec()) as u128,
    {
        self.0 = self.0 - rhs.operand();
    }
}

impl<T: Operand> core::ops::Mul<T> for Uint {
    type Output = Uint;

    /// The product; it must fit in 128 bits.
    fn mul(self, rhs: T) -> (r: Uint) {
        Uint(self.0 * rhs.operand())
    }
}

impl<T: Operand> MulSpecImpl<T> for Uint {
    open spec fn obeys_mul_spec() -> bool {
        true
    }

    open spec fn mul_req(self, rhs: T) -> bool {
        self.0 * rhs.operand_spec() <= u128::MAX
    }

    open spec fn mul_spec(self, rhs: T) -> Uint {
        Uint((self.0 * rhs.operand_spec()) as u128)
    }
}

impl<'a, T: Operand> core::ops::Mul<T> for &'a Uint {
    type Output = Uint;

    /// The product; it must fit in 128 bits.
    fn mul(self, rhs: T) -> (r: Uint) {
        Uint(self.0 * rhs.operand())
    }
}

impl<'a, T: Operand> MulSpecImpl<T> for &'a Uint {
    open spec fn obeys_mul_spec() -> bool {
        true
    }

    open spec fn mul_req(self, rhs: T) -> bool {
        self.0 * rhs.operand_spec() <= u128::MAX
    }

    open spec fn mul_spec(self, rhs: T) -> Uint {
        Uint((self.0 * rhs.operand_spec()) as u128)
    }
}

impl core::ops::Mul<Uint> for u128 {
    type Output = u128;

    /// The product; it must fit in 128 bits.
    fn mul(self, rhs: Uint) -> (r: u128) {
        self * rhs.0
    }
}

impl MulSpecImpl<Uint> for u128 {
    open spec fn obeys_mul_spec() -> bool {
        true
    }

    open spec fn mul_req(self, rhs: Uint) -> bool {
        self * rhs.0 <= u128::MAX
    }

    open spec fn mul_spec(self, rhs: Uint) -> u128 {
        (self * rhs.0) as u128
    }
}

impl<'a> core::ops::Mul<&'a Uint> for u128 {
    type Output = u128;

    /// The product; it must fit in 128 bits.
    fn mul(self, rhs: &'a Uint) -> (r: u128) {
        self * rhs.0
    }
}

impl<'a> MulSpecImpl<&'a Uint> for u128 {
    open spec fn obeys_mul_spec() -> bool {
        true
    }

    open spec fn mul_req(self, rhs: &'a Uint) -> bool {
        self * rhs.0 <= u128::MAX
    }

    open spec fn mul_spec(self, rhs: &'a Uint) -> u128 {
        (self * rhs.0) as u128
    }
}

impl<T: Operand> core::ops::MulAssign<T> for Uint {
    /// Replaces the value by what `*` gives.
    fn mul_assign(&mut self, rhs: T)
        requires
            old(self).0 * rhs.operand_spec() <= u128::MAX,
        ensures
            final(self).0 == (old(self).0 * rhs.operand_spec()) as u128,
    {
        self.0 = self.0 * rhs.operand();
    }
}

impl<T: Operand> core::ops::Div<T> for Uint {
    type Output = Uint;

    /// The quotient, rounded down; the right side must not be zero.
    fn div(self, rhs: T) -> (r: Uint) {
        Uint(self.0 / rhs.operand())
    }
}

impl<T: Operand> DivSpecImpl<T> for Uint {
    open spec fn obeys_div_spec() -> bool {
        true
    }

    open spec fn div_req(self, rhs: T) -> bool {
        rhs.operand_spec() != 0
    }

    open spec fn div_spec(self, rhs: T) -> Uint {
        Uint(self.0 / rhs.operand_spec())
    }
}

impl<'a, T: Operand> core::ops::Div<T> for &'a Uint {
    type Output = Uint;

    /// The quotient, rounded down; the right side must not be zero.
    fn div(self, rhs: T) -> (r: Uint) {
        Uint(self.0 / rhs.operand())
    }
}

impl<'a, T: Operand> DivSpecImpl<T> for &'a Uint {
    open spec fn obeys_div_spec() -> bool {
        true
    }

    open spec fn div_req(self, rhs: T) -> bool {
        rhs.operand_spec() != 0
    }

    open spec fn div_spec(self, rhs: T) -> Uint {
        Uint(self.0 / rhs.operand_spec())
    }
}

impl core::ops::Div<Uint> for u128 {
    type Output = u128;

    /// The quotient, rounded down; the right side must not be zero.
    fn div(self, rhs: Uint) -> (r: u128) {
        self / rhs.0
    }
}

impl DivSpecImpl<Uint> for u128 {
    open spec fn obeys_div_spec() -> bool {
        true
    }

    open spec fn div_req(self, rhs: Uint) -> bool {
        rhs.0 != 0
    }

    open spec fn div_spec(self, rhs: Uint) -> u128 {
        self / rhs.0
    }
}

impl<'a> core::ops::Div<&'a Uint> for u128 {
    type Output = u128;

    /// The quotient, rounded down; the right side must not be zero.
    fn div(self, rhs: &'a Uint) -> (r: u128) {
        self / rhs.0
    }
}

impl<'a> DivSpecImpl<&'a Uint> for u128 {
    open spec fn obeys_div_spec() -> bool {
        true
    }

    open spec fn div_req(self, rhs: &'a Uint) -> bool {
        rhs.0 != 0
    }

    open spec fn div_spec(self, rhs: &'a Uint) -> u128 {
        self / rhs.0
    }
}

impl<T: Operand> core::ops::DivAssign<T> for Uint {
    /// Replaces the value by what `/` gives.
    fn div_assign(&mut self, rhs: T)
        requires
            rhs.operand_spec() != 0,
        ensures
            final(self).0 == old(self).0 / rhs.operand_spec(),
    {
        self.0 = self.0 / rhs.operand();
    }
}

impl<T: Operand> core::ops::Rem<T> for Uint {
    type Output = Uint;

    /// The remainder; the right side must not be zero.
    fn rem(self, rhs: T) -> (r: Uint) {
        Uint(self.0 % rhs.operand())
    }
}

impl<T: Operand> RemSpecImpl<T> for Uint {
    open spec fn obeys_rem_spec() -> bool {
        true
    }

    open spec fn rem_req(self, rhs: T) -> bool {
        rhs.operand_spec() != 0
    }

    open spec fn rem_spec(self, rhs: T) -> Uint {
        Uint(self.0 % rhs.operand_spec())
    }
}

impl<'a, T: Operand> core::ops::Rem<T> for &'a Uint {
    type Output = Uint;

    /// The remainder; the right side must not be zero.
    fn rem(self, rhs: T) -> (r: Uint) {
        Uint(self.0 % rhs.operand())
    }
}

impl<'a, T: Operand> RemSpecImpl<T> for &'a Uint {
    open spec fn obeys_rem_spec() -> bool {
        true
    }

    open spec fn rem_req(self, rhs: T) -> bool {
        rhs.operand_spec() != 0
    }

    open spec fn rem_spec(self, rhs: T) -> Uint {
        Uint(self.0 % rhs.operand_spec())
    }
}

impl core::ops::Rem<Uint> for u128 {
    type Output = u128;

    /// The remainder; the right side must not be zero.
    fn rem(self, rhs: Uint) -> (r: u128) {
        self % rhs.0
    }
}

impl RemSpecImpl<Uint> for u128 {
    open spec fn obeys_rem_spec() -> bool {
        true
    }

    open spec fn rem_req(self, rhs: Uint) -> bool {
        rhs.0 != 0
    }

    open spec fn rem_spec(self, rhs: Uint) -> u128 {
        self % rhs.0
    }
}

impl<'a> core::ops::Rem<&'a Uint> for u128 {
    type Output = u128;

    /// The remainder; the right side must not be zero.
    fn rem(self, rhs: &'a Uint) -> (r: u128) {
        self % rhs.0
    }
}

impl<'a> RemSpecImpl<&'a Uint> for u128 {
    open spec fn obeys_rem_spec() -> bool {
        true
    }

    open spec fn rem_req(self, rhs: &'a Uint) -> bool {
        rhs.0 != 0
    }

    open spec fn rem_spec(self, rhs: &'a Uint) -> u128 {
        self % rhs.0
    }
}

impl<T: Operand> core::ops::RemAssign<T> for Uint {
    /// Replaces the value by what `%` gives.
    fn rem_assign(&mut self, rhs: T)
        requires
            rhs.operand_spec() != 0,
        ensures
            final(self).0 == old(self).0 % rhs.operand_spec(),
    {
        self.0 = self.0 % rhs.operand();
    }
}

impl<T: Operand> core::ops::BitAnd<T> for Uint {
    type Output = Uint;

    /// The bits set on both sides.
    fn bitand(self, rhs: T) -> (r: Uint) {
        Uint(self.0 & rhs.operand())
    }
}

impl<T: Operand> BitAndSpecImpl<T> for Uint {
    open spec fn obeys_bitand_spec() -> bool {
        true
    }

    open spec fn bitand_req(self, rhs: T) -> bool {
        true
    }

    open spec fn bitand_spec(self, rhs: T) -> Uint {
        Uint(self.0 & rhs.operand_spec())
    }
}

impl<'a, T: Operand> core::ops::BitAnd<T> for &'a Uint {
    type Output = Uint;

    /// The bits set on both sides.
    fn bitand(self, rhs: T) -> (r: Uint) {
        Uint(self.0 & rhs.operand())
    }
}

impl<'a, T: Operand> BitAndSpecImpl<T> for &'a Uint {
    open spec fn obeys_bitand_spec() -> bool {
        true
    }

    open spec fn bitand_req(self, rhs: T) -> bool {
        true
    }

    open spec fn bitand_spec(self, rhs: T) -> Uint {
        Uint(self.0 & rhs.operand_spec())
    }
}

impl core::ops::BitAnd<Uint> for u128 {
    type Output = u128;

    /// The bits set on both sides.
    fn bitand(self, rhs: Uint) -> (r: u128) {
        self & rhs.0
    }
}

impl BitAndSpecImpl<Uint> for u128 {
    open spec fn obeys_bitand_spec() -> bool {
        true
    }

    open spec fn bitand_req(self, rhs: Uint) -> bool {
        true
    }

    open spec fn bitand_spec(self, rhs: Uint) -> u128 {
        self & rhs.0
    }
}

impl<'a> core::ops::BitAnd<&'a Uint> for u128 {
    type Output = u128;

    /// The bits set on both sides.
    fn bitand(self, rhs: &'a Uint) -> (r: u128) {
        self & rhs.0
    }
}

impl<'a> BitAndSpecImpl<&'a Uint> for u128 {
    open spec fn obeys_bitand_spec() -> bool {
        true
    }

    open spec fn bitand_req(self, rhs: &'a Uint) -> bool {
        true
    }

    open spec fn bitand_spec(self, rhs: &'a Uint) -> u128 {
        self & rhs.0
    }
}

impl<T: Operand> core::ops::BitAndAssign<T> for Uint {
    /// Replaces the value by what `&` gives.
    fn bitand_assign(&mut self, rhs: T)
        ensures
            final(self).0 == old(self).0 & rhs.operand_spec(),
    {
        self.0 = self.0 & rhs.operand();
    }
}

impl<T: Operand> core::ops::BitOr<T> for Uint {
    type Output = Uint;

    /// The bits set on either side.
    fn bitor(self, rhs: T) -> (r: Uint) {
        Uint(self.0 | rhs.operand())
    }
}

impl<T: Operand> BitOrSpecImpl<T> for Uint {
    open spec fn obeys_bitor_spec() -> bool {
        true
    }

    open spec fn bitor_req(self, rhs: T) -> bool {
        true
    }

    open spec fn bitor_spec(self, rhs: T) -> Uint {
        Uint(self.0 | rhs.operand_spec())
    }
}

impl<'a, T: Operand> core::ops::BitOr<T> for &'a Uint {
    type Output = Uint;

    /// The bits set on either side.
    fn bitor(self, rhs: T) -> (r: Uint) {
        Uint(self.0 | rhs.operand())
    }
}

impl<'a, T: Operand> BitOrSpecImpl<T> for &'a Uint {
    open spec fn obeys_bitor_spec() -> bool {
        true
    }

    open spec fn bitor_req(self, rhs: T) -> bool {
        true
    }

    open spec fn bitor_spec(self, rhs: T) -> Uint {
        Uint(self.0 | rhs.operand_spec())
    }
}

impl core::ops::BitOr<Uint> for u128 {
    type Output = u128;

    /// The bits set on either side.
    fn bitor(self, rhs: Uint) -> (r: u128) {
        self | rhs.0
    }
}

impl BitOrSpecImpl<Uint> for u128 {
    open spec fn obeys_bitor_spec() -> bool {
        true
    }

    open spec fn bitor_req(self, rhs: Uint) -> bool {
        true
    }

    open spec fn bitor_spec(self, rhs: Uint) -> u128 {
        self | rhs.0
    }
}

impl<'a> core::ops::BitOr<&'a Uint> for u128 {
    type Output = u128;

    /// The bits set on either side.
    fn bitor(self, rhs: &'a Uint) -> (r: u128) {
        self | rhs.0
    }
}

impl<'a> BitOrSpecImpl<&'a Uint> for u128 {
    open spec fn obeys_bitor_spec() -> bool {
        true
    }

    open spec fn bitor_req(self, rhs: &'a Uint) -> bool {
        true
    }

    open spec fn bitor_spec(self, rhs: &'a Uint) -> u128 {
        self | rhs.0
    }
}

impl<T: Operand> core::ops::BitOrAssign<T> for Uint {
    /// Replaces the value by what `|` gives.
    fn bitor_assign(&mut self, rhs: T)
        ensures
            final(self).0 == old(self).0 | rhs.operand_spec(),
    {
        self.0 = self.0 | rhs.operand();
    }
}

impl<T: Operand> core::ops::BitXor<T> for Uint {
    type Output = Uint;

    /// The bits set on exactly one side.
    fn bitxor(self, rhs: T) -> (r: Uint) {
        Uint(self.0 ^ rhs.operand())
    }
}

impl<T: Operand> BitXorSpecImpl<T> for Uint {
    open spec fn obeys_bitxor_spec() -> bool {
        true
    }

    open spec fn bitxor_req(self, rhs: T) -> bool {
        true
    }

    open spec fn bitxor_spec(self, rhs: T) -> Uint {
        Uint(self.0 ^ rhs.operand_spec())
    }
}

impl<'a, T: Operand> core::ops::BitXor<T> for &'a Uint {
    type Output = Uint;

    /// The bits set on exactly one side.
    fn bitxor(self, rhs: T) -> (r: Uint) {
        Uint(self.0 ^ rhs.operand())
    }
}

impl<'a, T: Operand> BitXorSpecImpl<T> for &'a Uint {
    open spec fn obeys_bitxor_spec() -> bool {
        true
    }

    open spec fn bitxor_req(self, rhs: T) -> bool {
        true
    }

    open spec fn bitxor_spec(self, rhs: T) -> Uint {
        Uint(self.0 ^ rhs.operand_spec())
    }
}

impl core::ops::BitXor<Uint> for u128 {
    type Output = u128;

    /// The bits set on exactly one side.
    fn bitxor(self, rhs: Uint) -> (r: u128) {
        self ^ rhs.0
    }
}

impl BitXorSpecImpl<Uint> for u128 {
    open spec fn obeys_bitxor_spec() -> bool {
        true
    }

    open spec fn bitxor_req(self, rhs: Uint) -> bool {
        true
    }

    open spec fn bitxor_spec(self, rhs: Uint) -> u128 {
        self ^ rhs.0
    }
}

impl<'a> core::ops::BitXor<&'a Uint> for u128 {
    type Output = u128;

    /// The bits set on exactly one side.
    fn bitxor(self, rhs: &'a Uint) -> (r: u128) {
        self ^ rhs.0
    }
}

impl<'a> BitXorSpecImpl<&'a Uint> for u128 {
    open spec fn obeys_bitxor_spec() -> bool {
        true
    }

    open spec fn bitxor_req(self, rhs: &'a Uint) -> bool {
        true
    }

    open spec fn bitxor_spec(self, rhs: &'a Uint) -> u128 {
        self ^ rhs.0
    }
}

impl<T: Operand> core::ops::BitXorAssign<T> for Uint {
    /// Replaces the value by what `^` gives.
    fn bitxor_assign(&mut self, rhs: T)
        ensures
            final(self).0 == old(self).0 ^ rhs.operand_spec(),
    {
        self.0 = self.0 ^ rhs.operand();
    }
}

impl<T: Operand> core::ops::Shl<T> for Uint {
    type Output = Uint;

    /// The value shifted up by a count below 128; bits shifted past the top
    /// are lost.
    fn shl(self, rhs: T) -> (r: Uint) {
        Uint(self.0 << rhs.operand())
    }
}

impl<T: Operand> ShlSpecImpl<T> for Uint {
    open spec fn obeys_shl_spec() -> bool {
        true
    }

    open spec fn shl_req(self, rhs: T) -> bool {
        rhs.operand_spec() < 128
    }

    open spec fn shl_spec(self, rhs: T) -> Uint {
        Uint(self.0 << rhs.operand_spec())
    }
}

impl<'a, T: Operand> core::ops::Shl<T> for &'a Uint {
    type Output = Uint;

    /// The value shifted up by a count below 128; bits shifted past the top
    /// are lost.
    fn shl(self, rhs: T) -> (r: Uint) {
        Uint(self.0 << rhs.operand())
    }
}

impl<'a, T: Operand> ShlSpecImpl<T> for &'a Uint {
    open spec fn obeys_shl_spec() -> bool {
        true
    }

    open spec fn shl_req(self, rhs: T) -> bool {
        rhs.operand_spec() < 128
    }

    open spec fn shl_spec(self, rhs: T) -> Uint {
        Uint(self.0 << rhs.operand_spec())
    }
}

impl core::ops::Shl<Uint> for u128 {
    type Output = u128;

    /// The value shifted up by a count below 128; bits shifted past the top
    /// are lost.
    fn shl(self, rhs: Uint) -> (r: u128) {
        self << rhs.0
    }
}

impl ShlSpecImpl<Uint> for u128 {
    open spec fn obeys_shl_spec() -> bool {
        true
    }

    open spec fn shl_req(self, rhs: Uint) -> bool {
        rhs.0 < 128
    }

    open spec fn shl_spec(self, rhs: Uint) -> u128 {
        self << rhs.0
    }
}

impl<'a> core::ops::Shl<&'a Uint> for u128 {
    type Output = u128;

    /// The value shifted up by a count below 128; bits shifted past the top
    /// are lost.
    fn shl(self, rhs: &'a Uint) -> (r: u128) {
        self << rhs.0
    }
}

impl<'a> ShlSpecImpl<&'a Uint> for u128 {
    open spec fn obeys_shl_spec() -> bool {
        true
    }

    open spec fn shl_req(self, rhs: &'a Uint) -> bool {
        rhs.0 < 128
    }

    open spec fn shl_spec(self, rhs: &'a Uint) -> u128 {
        self << rhs.0
    }
}

impl<T: Operand> core::ops::ShlAssign<T> for Uint {
    /// Replaces the value by what `<<` gives.
    fn shl_assign(&mut self, rhs: T)
        requires
            rhs.operand_spec() < 128,
        ensures
            final(self).0 == old(self).0 << rhs.operand_spec(),
    {
        self.0 = self.0 << rhs.operand();
    }
}

impl<T: Operand> core::ops::Shr<T> for Uint {
    type Output = Uint;

    /// The value shifted down by a count below 128.
    fn shr(self, rhs: T) -> (r: Uint) {
        Uint(self.0 >> rhs.operand())
    }
}

impl<T: Operand> ShrSpecImpl<T> for Uint {
    open spec fn obeys_shr_spec() -> bool {
        true
    }

    open spec fn shr_req(self, rhs: T) -> bool {
        rhs.operand_spec() < 128
    }

    open spec fn shr_spec(self, rhs: T) -> Uint {
        Uint(self.0 >> rhs.operand_spec())
    }
}

impl<'a, T: Operand> core::ops::Shr<T> for &'a Uint {
    type Output = Uint;

    /// The value shifted down by a count below 128.
    fn shr(self, rhs: T) -> (r: Uint) {
        Uint(self.0 >> rhs.operand())
    }
}

impl<'a, T: Operand> ShrSpecImpl<T> for &'a Uint {
    open spec fn obeys_shr_spec() -> bool {
        true
    }

    open spec fn shr_req(self, rhs: T) -> bool {
        rhs.operand_spec() < 128
    }

    open spec fn shr_spec(self, rhs: T) -> Uint {
        Uint(self.0 >> rhs.operand_spec())
    }
}

impl core::ops::Shr<Uint> for u128 {
    type Output = u128;

    /// The value shifted down by a count below 128.
    fn shr(self, rhs: Uint) -> (r: u128) {
        self >> rhs.0
    }
}

impl ShrSpecImpl<Uint> for u128 {
    open spec fn obeys_shr_spec() -> bool {
        true
    }

    open spec fn shr_req(self, rhs: Uint) -> bool {
        rhs.0 < 128
    }

    open spec fn shr_spec(self, rhs: Uint) -> u128 {
        self >> rhs.0
    }
}

impl<'a> core::ops::Shr<&'a Uint> for u128 {
    type Output = u128;

    /// The value shifted down by a count below 128.
    fn shr(self, rhs: &'a Uint) -> (r: u128) {
        self >> rhs.0
    }
}

impl<'a> ShrSpecImpl<&'a Uint> for u128 {
    open spec fn obeys_shr_spec() -> bool {
        true
    }

    open spec fn shr_req(self, rhs: &'a Uint) -> bool {
        rhs.0 < 128
    }

    open spec fn shr_spec(self, rhs: &'a Uint) -> u128 {
        self >> rhs.0
    }
}

impl<T: Operand> core::ops::ShrAssign<T> for Uint {
    /// Replaces the value by what `>>` gives.
    fn shr_assign(&mut self, rhs: T)
        requires
            rhs.operand_spec() < 128,
        ensures
            final(self).0 == old(self).0 >> rhs.operand_spec(),
    {
        self.0 = self.0 >> rhs.operand();
    }
}

} // verus!
