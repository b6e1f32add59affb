//! What `as` does between `u128` and the other integer types, in arithmetic.
use vstd::prelude::*;
use crate::format::modulus;

verus! {

/// Sign extension of an `i8` to 128 bits.
pub(crate) proof fn lemma_widen_i8(v: i8)
    ensures
        v as u128 == if v >= 0 {
            v as int
        } else {
            v + modulus()
        },
{
    assert(v as u128 == if v >= 0 {
        v as int
    } else {
        v + 0x1_0000_0000_0000_0000_0000_0000_0000_0000
    }) by (bit_vector);
}

/// Sign extension of an `i16` to 128 bits.
pub(crate) proof fn lemma_widen_i16(v: i16)
    ensures
        v as u128 == if v >= 0 {
            v as int
        } else {
            v + modulus()
        },
{
    assert(v as u128 == if v >= 0 {
        v as int
    } else {
        v + 0x1_0000_0000_0000_0000_0000_0000_0000_0000
    }) by (bit_vector);
}

/// Sign extension of an `i32` to 128 bits.
pub(crate) proof fn lemma_widen_i32(v: i32)
    ensures
        v as u128 == if v >= 0 {
            v as int
        } else {
            v + modulus()
        },
{
    assert(v as u128 == if v >= 0 {
        v as int
    } else {
        v + 0x1_0000_0000_0000_0000_0000_0000_0000_0000
    }) by (bit_vector);
}

/// Sign extension of an `i64` to 128 bits.
pub(crate) proof fn lemma_widen_i64(v: i64)
    ensures
        v as u128 == if v >= 0 {
            v as int
        } else {
            v + modulus()
        },
{
    assert(v as u128 == if v >= 0 {
        v as int
    } else {
        v + 0x1_0000_0000_0000_0000_0000_0000_0000_0000
    }) by (bit_vector);
}

/// Sign extension of an `i128` to 128 bits.
pub(crate) proof fn lemma_widen_i128(v: i128)
    ensures
        v as u128 == if v >= 0 {
            v as int
        } else {
            v + modulus()
        },
{
    assert(v as u128 == if v >= 0 {
        v as int
    } else {
        v + 0x1_0000_0000_0000_0000_0000_0000_0000_0000
    }) by (bit_vector);
}

/// Sign extension of an `isize` to 128 bits.
pub(crate) proof fn lemma_widen_isize(v: isize)
    ensures
        v as u128 == if v >= 0 {
            v as int
        } else {
            v + modulus()
        },
{
    assert(v as u128 == if v >= 0 {
        v as int
    } else {
        v + 0x1_0000_0000_0000_0000_0000_0000_0000_0000
    }) by (bit_vector);
}

/// Truncation of a `u128` to 8 bits.
pub(crate) proof fn lemma_narrow_u8(x: u128)
    ensures
        x as u8 == x % 0x100,
{
    assert(x as u8 == x % 0x100) by (bit_vector);
}

/// Truncation of a `u128` to 16 bits.
pub(crate) proof fn lemma_narrow_u16(x: u128)
    ensures
        x as u16 == x % 0x1_0000,
{
    assert(x as u16 == x % 0x1_0000) by (bit_vector);
}

/// Truncation of a `u128` to 32 bits.
pub(crate) proof fn lemma_narrow_u32(x: u128)
    ensures
        x as u32 == x % 0x1_0000_0000,
{
    assert(x as u32 == x % 0x1_0000_0000) by (bit_vector);
}

/// Truncation of a `u128` to 64 bits.
pub(crate) proof fn lemma_narrow_u64(x: u128)
    ensures
        x as u64 == x % 0x1_0000_0000_0000_0000,
{
    assert(x as u64 == x % 0x1_0000_0000_0000_0000) by (bit_vector);
}

/// Truncation of a `u128` to the width of a `usize`.
pub(crate) proof fn lemma_narrow_usize(x: u128)
    ensures
        x as usize == x as int % (usize::MAX + 1),
{
    if usize::BITS == 64 {
        assert(x as usize == x % 0x1_0000_0000_0000_0000) by (bit_vector)
            requires
                usize::BITS == 64,
        ;
    } else {
        assert(x as usize == x % 0x1_0000_0000) by (bit_vector)
            requires
                usize::BITS == 32,
        ;
    }
}

/// Truncation of a `u128` to 8 bits, read as two's complement.
pub(crate) proof fn lemma_narrow_i8(x: u128)
    ensures
        x as i8 == if x % 0x100 < 0x80 {
            (x % 0x100) as int
        } else {
            x % 0x100 - 0x100
        },
{
    assert(x as i8 == if x % 0x100 < 0x80 {
        (x % 0x100) as int
    } else {
        x % 0x100 - 0x100
    }) by (bit_vector);
}

/// Truncation of a `u128` to 16 bits, read as two's complement.
pub(crate) proof fn lemma_narrow_i16(x: u128)
    ensures
        x as i16 == if x % 0x1_0000 < 0x8000 {
            (x % 0x1_0000) as int
        } else {
            x % 0x1_0000 - 0x1_0000
        },
{
    assert(x as i16 == if x % 0x1_0000 < 0x8000 {
        (x % 0x1_0000) as int
    } else {
        x % 0x1_0000 - 0x1_0000
    }) by (bit_vector);
}

/// Truncation of a `u128` to 32 bits, read as two's complement.
pub(crate) proof fn lemma_narrow_i32(x: u128)
    ensures
        x as i32 == if x % 0x1_0000_0000 < 0x8000_0000 {
            (x % 0x1_0000_0000) as int
        } else {
            x % 0x1_0000_0000 - 0x1_0000_0000
        },
{
    assert(x as i32 == if x % 0x1_0000_0000 < 0x8000_0000 {
        (x % 0x1_0000_0000) as int
    } else {
        x % 0x1_0000_0000 - 0x1_0000_0000
    }) by (bit_vector);
}

/// Truncation of a `u128` to 64 bits, read as two's complement.
pub(crate) proof fn lemma_narrow_i64(x: u128)
    ensures
        x as i64 == if x % 0x1_0000_0000_0000_0000 < 0x8000_0000_0000_0000 {
            (x % 0x1_0000_0000_0000_0000) as int
        } else {
            x % 0x1_0000_0000_0000_0000 - 0x1_0000_0000_0000_0000
        },
{
    assert(x as i64 == if x % 0x1_0000_0000_0000_0000 < 0x8000_0000_0000_0000 {
        (x % 0x1_0000_0000_0000_0000) as int
    } else {
        x % 0x1_0000_0000_0000_0000 - 0x1_0000_0000_0000_0000
    }) by (bit_vector);
}

/// Truncation of a `u128` to 128 bits, read as two's complement.
pub(crate) proof fn lemma_narrow_i128(x: u128)
    ensures
        x as i128 == if x < 0x8000_0000_0000_0000_0000_0000_0000_0000 {
            (x) as int
        } else {
            x - 0x1_0000_0000_0000_0000_0000_0000_0000_0000
        },
{
    assert(x as i128 == if x < 0x8000_0000_0000_0000_0000_0000_0000_0000 {
        (x) as int
    } else {
        x - 0x1_0000_0000_0000_0000_0000_0000_0000_0000
    }) by (bit_vector);
}

/// Truncation of a `u128` to the width of an `isize`, read as two's
/// complement.
pub(crate) proof fn lemma_narrow_isize(x: u128)
    ensures
        x as isize == if x as int % (usize::MAX + 1) <= isize::MAX {
            x as int % (usize::MAX + 1)
        } else {
            x as int % (usize::MAX + 1) - (usize::MAX + 1)
        },
{
    if usize::BITS == 64 {
        assert(x as isize == if x % 0x1_0000_0000_0000_0000 < 0x8000_0000_0000_0000 {
            (x % 0x1_0000_0000_0000_0000) as int
        } else {
            x % 0x1_0000_0000_0000_0000 - 0x1_0000_0000_0000_0000
        }) by (bit_vector)
            requires
                usize::BITS == 64,
        ;
    } else {
        assert(x as isize == if x % 0x1_0000_0000 < 0x8000_0000 {
            (x % 0x1_0000_0000) as int
        } else {
            x % 0x1_0000_0000 - 0x1_0000_0000
        }) by (bit_vector)
            requires
                usize::BITS == 32,
        ;
    }
}

} // verus!
