//! Conversions between `Uint` and the primitive integers.
//!
//! Every conversion is the cast that `as` performs on the value inside:
//! widening keeps the value, narrowing keeps the low bits, and a signed
//! integer is taken by its two's-complement bit pattern. Nothing is rejected
//! and nothing is clamped; in particular a negative integer becomes a large
//! `Uint`, not an error.
use vstd::prelude::*;
use vstd::std_specs::convert::FromSpecImpl;
use crate::casts::{
    lemma_narrow_i128, lemma_narrow_i16, lemma_narrow_i32, lemma_narrow_i64, lemma_narrow_i8,
    lemma_narrow_isize, lemma_narrow_u16, lemma_narrow_u32, lemma_narrow_u64, lemma_narrow_u8,
    lemma_narrow_usize, lemma_widen_i128, lemma_widen_i16, lemma_widen_i32, lemma_widen_i64,
    lemma_widen_i8, lemma_widen_isize,
};
use crate::format::modulus;
use crate::uint::Uint;

verus! {

impl Default for Uint {
    /// The default value is zero.
    fn default() -> (r: Self)
        ensures
            r == Uint(0),
    {
        Uint(0)
    }
}

impl From<u128> for Uint {
    /// Wraps `v`.
    fn from(v: u128) -> (r: Self)
        ensures
            r.0 == v,
    {
        Uint(v)
    }
}

impl FromSpecImpl<u128> for Uint {
    open spec fn obeys_from_spec() -> bool {
        true
    }

    open spec fn from_spec(v: u128) -> Self {
        Uint(v)
    }
}

impl From<Uint> for u128 {
    /// Unwraps the value.
    fn from(v: Uint) -> (r: u128)
        ensures
            r == v.0,
    {
        v.0
    }
}

impl FromSpecImpl<Uint> for u128 {
    open spec fn obeys_from_spec() -> bool {
        true
    }

    open spec fn from_spec(v: Uint) -> u128 {
        v.0
    }
}

impl From<u8> for Uint {
    /// Widens `v`; the value is kept.
    fn from(v: u8) -> (r: Self)
        ensures
            r.0 == v,
    {
        Uint(v as u128)
    }
}

impl FromSpecImpl<u8> for Uint {
    open spec fn obeys_from_spec() -> bool {
        true
    }

    open spec fn from_spec(v: u8) -> Self {
        Uint(v as u128)
    }
}

impl From<u16> for Uint {
    /// Widens `v`; the value is kept.
    fn from(v: u16) -> (r: Self)
        ensures
            r.0 == v,
    {
        Uint(v as u128)
    }
}

impl FromSpecImpl<u16> for Uint {
    open spec fn obeys_from_spec() -> bool {
        true
    }

    open spec fn from_spec(v: u16) -> Self {
        Uint(v as u128)
    }
}

impl From<u32> for Uint {
    /// Widens `v`; the value is kept.
    fn from(v: u32) -> (r: Self)
        ensures
            r.0 == v,
    {
        Uint(v as u128)
    }
}

impl FromSpecImpl<u32> for Uint {
    open spec fn obeys_from_spec() -> bool {
        true
    }

    open spec fn from_spec(v: u32) -> Self {
        Uint(v as u128)
    }
}

impl From<u64> for Uint {
    /// Widens `v`; the value is kept.
    fn from(v: u64) -> (r: Self)
        ensures
            r.0 == v,
    {
        Uint(v as u128)
    }
}

impl FromSpecImpl<u64> for Uint {
    open spec fn obeys_from_spec() -> bool {
        true
    }

    open spec fn from_spec(v: u64) -> Self {
        Uint(v as u128)
    }
}

impl From<usize> for Uint {
    /// Widens `v`; the value is kept.
    fn from(v: usize) -> (r: Self)
        ensures
            r.0 == v,
    {
        Uint(v as u128)
    }
}

impl FromSpecImpl<usize> for Uint {
    open spec fn obeys_from_spec() -> bool {
        true
    }

    open spec fn from_spec(v: usize) -> Self {
        Uint(v as u128)
    }
}

impl From<i8> for Uint {
    /// Takes `v` by its bit pattern, sign-extended to 128 bits: a value that
    /// is not negative is kept, a negative one becomes `2^128 + v`.
    fn from(v: i8) -> (r: Self)
        ensures
            r.0 == if v >= 0 {
                v as int
            } else {
                v + modulus()
            },
    {
        proof {
            lemma_widen_i8(v);
        }
        Uint(v as u128)
    }
}

impl FromSpecImpl<i8> for Uint {
    open spec fn obeys_from_spec() -> bool {
        true
    }

    open spec fn from_spec(v: i8) -> Self {
        Uint(v as u128)
    }
}

impl From<i16> for Uint {
    /// Takes `v` by its bit pattern, sign-extended to 128 bits: a value that
    /// is not negative is kept, a negative one becomes `2^128 + v`.
    fn from(v: i16) -> (r: Self)
        ensures
            r.0 == if v >= 0 {
                v as int
            } else {
                v + modulus()
            },
    {
        proof {
            lemma_widen_i16(v);
        }
        Uint(v as u128)
    }
}

impl FromSpecImpl<i16> for Uint {
    open spec fn obeys_from_spec() -> bool {
        true
    }

    open spec fn from_spec(v: i16) -> Self {
        Uint(v as u128)
    }
}

impl From<i32> for Uint {
    /// Takes `v` by its bit pattern, sign-extended to 128 bits: a value that
    /// is not negative is kept, a negative one becomes `2^128 + v`.
    fn from(v: i32) -> (r: Self)
        ensures
            r.0 == if v >= 0 {
                v as int
            } else {
                v + modulus()
            },
    {
        proof {
            lemma_widen_i32(v);
        }
        Uint(v as u128)
    }
}

impl FromSpecImpl<i32> for Uint {
    open spec fn obeys_from_spec() -> bool {
        true
    }

    open spec fn from_spec(v: i32) -> Self {
        Uint(v as u128)
    }
}

impl From<i64> for Uint {
    /// Takes `v` by its bit pattern, sign-extended to 128 bits: a value that
    /// is not negative is kept, a negative one becomes `2^128 + v`.
    fn from(v: i64) -> (r: Self)
        ensures
            r.0 == if v >= 0 {
                v as int
            } else {
                v + modulus()
            },
    {
        proof {
            lemma_widen_i64(v);
        }
        Uint(v as u128)
    }
}

impl FromSpecImpl<i64> for Uint {
    open spec fn obeys_from_spec() -> bool {
        true
    }

    open spec fn from_spec(v: i64) -> Self {
        Uint(v as u128)
    }
}

impl From<i128> for Uint {
    /// Takes `v` by its bit pattern, sign-extended to 128 bits: a value that
    /// is not negative is kept, a negative one becomes `2^128 + v`.
    fn from(v: i128) -> (r: Self)
        ensures
            r.0 == if v >= 0 {
                v as int
            } else {
                v + modulus()
            },
    {
        proof {
            lemma_widen_i128(v);
        }
        Uint(v as u128)
    }
}

impl FromSpecImpl<i128> for Uint {
    open spec fn obeys_from_spec() -> bool {
        true
    }

    open spec fn from_spec(v: i128) -> Self {
        Uint(v as u128)
    }
}

impl From<isize> for Uint {
    /// Takes `v` by its bit pattern, sign-extended to 128 bits: a value that
    /// is not negative is kept, a negative one becomes `2^128 + v`.
    fn from(v: isize) -> (r: Self)
        ensures
            r.0 == if v >= 0 {
                v as int
            } else {
                v + modulus()
            },
    {
        proof {
            lemma_widen_isize(v);
        }
        Uint(v as u128)
    }
}

impl FromSpecImpl<isize> for Uint {
    open spec fn obeys_from_spec() -> bool {
        true
    }

    open spec fn from_spec(v: isize) -> Self {
        Uint(v as u128)
    }
}

impl From<Uint> for u8 {
    /// Keeps the low 8 bits of the value.
    fn from(v: Uint) -> (r: u8)
        ensures
            r == v.0 % 0x100,
    {
        proof {
            lemma_narrow_u8(v.0);
        }
        #[verifier::truncate]
        (v.0 as u8)
    }
}

impl FromSpecImpl<Uint> for u8 {
    open spec fn obeys_from_spec() -> bool {
        true
    }

    open spec fn from_spec(v: Uint) -> u8 {
        v.0 as u8
    }
}

impl From<Uint> for u16 {
    /// Keeps the low 16 bits of the value.
    fn from(v: Uint) -> (r: u16)
        ensures
            r == v.0 % 0x1_0000,
    {
        proof {
            lemma_narrow_u16(v.0);
        }
        #[verifier::truncate]
        (v.0 as u16)
    }
}

impl FromSpecImpl<Uint> for u16 {
    open spec fn obeys_from_spec() -> bool {
        true
    }

    open spec fn from_spec(v: Uint) -> u16 {
        v.0 as u16
    }
}

impl From<Uint> for u32 {
    /// Keeps the low 32 bits of the value.
    fn from(v: Uint) -> (r: u32)
        ensures
            r == v.0 % 0x1_0000_0000,
    {
        proof {
            lemma_narrow_u32(v.0);
        }
        #[verifier::truncate]
        (v.0 as u32)
    }
}

impl FromSpecImpl<Uint> for u32 {
    open spec fn obeys_from_spec() -> bool {
        true
    }

    open spec fn from_spec(v: Uint) -> u32 {
        v.0 as u32
    }
}

impl From<Uint> for u64 {
    /// Keeps the low 64 bits of the value.
    fn from(v: Uint) -> (r: u64)
        ensures
            r == v.0 % 0x1_0000_0000_0000_0000,
    {
        proof {
            lemma_narrow_u64(v.0);
        }
        #[verifier::truncate]
        (v.0 as u64)
    }
}

impl FromSpecImpl<Uint> for u64 {
    open spec fn obeys_from_spec() -> bool {
        true
    }

    open spec fn from_spec(v: Uint) -> u64 {
        v.0 as u64
    }
}

impl From<Uint> for usize {
    /// Keeps as many low bits of the value as a `usize` has.
    fn from(v: Uint) -> (r: usize)
        ensures
            r == v.0 as int % (usize::MAX + 1),
    {
        proof {
            lemma_narrow_usize(v.0);
        }
        #[verifier::truncate]
        (v.0 as usize)
    }
}

impl FromSpecImpl<Uint> for usize {
    open spec fn obeys_from_spec() -> bool {
        true
    }

    open spec fn from_spec(v: Uint) -> usize {
        v.0 as usize
    }
}

impl From<Uint> for i8 {
    /// Keeps the low 8 bits of the value and reads them as two's
    /// complement: with the top bit of those set, the result is negative.
    fn from(v: Uint) -> (r: i8)
        ensures
            r == if v.0 % 0x100 < 0x80 {
                (v.0 % 0x100) as int
            } else {
                v.0 % 0x100 - 0x100
            },
    {
        proof {
            lemma_narrow_i8(v.0);
        }
        #[verifier::truncate]
        (v.0 as i8)
    }
}

impl FromSpecImpl<Uint> for i8 {
    open spec fn obeys_from_spec() -> bool {
        true
    }

    open spec fn from_spec(v: Uint) -> i8 {
        v.0 as i8
    }
}

impl From<Uint> for i16 {
    /// Keeps the low 16 bits of the value and reads them as two's
    /// complement: with the top bit of those set, the result is negative.
    fn from(v: Uint) -> (r: i16)
        ensures
            r == if v.0 % 0x1_0000 < 0x8000 {
                (v.0 % 0x1_0000) as int
            } else {
                v.0 % 0x1_0000 - 0x1_0000
            },
    {
        proof {
            lemma_narrow_i16(v.0);
        }
        #[verifier::truncate]
        (v.0 as i16)
    }
}

impl FromSpecImpl<Uint> for i16 {
    open spec fn obeys_from_spec() -> bool {
        true
    }

    open spec fn from_spec(v: Uint) -> i16 {
        v.0 as i16
    }
}

impl From<Uint> for i32 {
    /// Keeps the low 32 bits of the value and reads them as two's
    /// complement: with the top bit of those set, the result is negative.
    fn from(v: Uint) -> (r: i32)
        ensures
            r == if v.0 % 0x1_0000_0000 < 0x8000_0000 {
                (v.0 % 0x1_0000_0000) as int
            } else {
                v.0 % 0x1_0000_0000 - 0x1_0000_0000
            },
    {
        proof {
            lemma_narrow_i32(v.0);
        }
        #[verifier::truncate]
        (v.0 as i32)
    }
}

impl FromSpecImpl<Uint> for i32 {
    open spec fn obeys_from_spec() -> bool {
        true
    }

    open spec fn from_spec(v: Uint) -> i32 {
        v.0 as i32
    }
}

impl From<Uint> for i64 {
    /// Keeps the low 64 bits of the value and reads them as two's
    /// complement: with the top bit of those set, the result is negative.
    fn from(v: Uint) -> (r: i64)
        ensures
            r == if v.0 % 0x1_0000_0000_0000_0000 < 0x8000_0000_0000_0000 {
                (v.0 % 0x1_0000_0000_0000_0000) as int
            } else {
                v.0 % 0x1_0000_0000_0000_0000 - 0x1_0000_0000_0000_0000
            },
    {
        proof {
            lemma_narrow_i64(v.0);
        }
        #[verifier::truncate]
        (v.0 as i64)
    }
}

impl FromSpecImpl<Uint> for i64 {
    open spec fn obeys_from_spec() -> bool {
        true
    }

    open spec fn from_spec(v: Uint) -> i64 {
        v.0 as i64
    }
}

impl From<Uint> for i128 {
    /// Keeps the low 128 bits of the value and reads them as two's
    /// complement: with the top bit of those set, the result is negative.
    fn from(v: Uint) -> (r: i128)
        ensures
            r == if v.0 < 0x8000_0000_0000_0000_0000_0000_0000_0000 {
                (v.0) as int
            } else {
                v.0 - 0x1_0000_0000_0000_0000_0000_0000_0000_0000
            },
    {
        proof {
            lemma_narrow_i128(v.0);
        }
        #[verifier::truncate]
        (v.0 as i128)
    }
}

impl FromSpecImpl<Uint> for i128 {
    open spec fn obeys_from_spec() -> bool {
        true
    }

    open spec fn from_spec(v: Uint) -> i128 {
        v.0 as i128
    }
}

impl From<Uint> for isize {
    /// Keeps as many low bits of the value as an `isize` has and reads them
    /// as two's complement.
    fn from(v: Uint) -> (r: isize)
        ensures
            r == if v.0 as int % (usize::MAX + 1) <= isize::MAX {
                v.0 as int % (usize::MAX + 1)
            } else {
                v.0 as int % (usize::MAX + 1) - (usize::MAX + 1)
            },
    {
        proof {
            lemma_narrow_isize(v.0);
        }
        #[verifier::truncate]
        (v.0 as isize)
    }
}

impl FromSpecImpl<Uint> for isize {
    open spec fn obeys_from_spec() -> bool {
        true
    }

    open spec fn from_spec(v: Uint) -> isize {
        v.0 as isize
    }
}

} // verus!
