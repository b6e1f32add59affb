//! Facts that tie shifts and masks on `u128` to arithmetic in base 128.
use vstd::prelude::*;
use crate::format::{modulus, pow128};

verus! {

/// The weights of the nineteen groups, by unfolding `pow128`.
pub(crate) proof fn lemma_pow128_values()
    ensures
        pow128(0) == 1,
        pow128(1) == 0x80,
        pow128(2) == 0x4000,
        pow128(18) == 0x4000_0000_0000_0000_0000_0000_0000_0000,
        pow128(19) == 32 * modulus(),
{
    reveal_with_fuel(pow128, 20);
}

/// The weights grow with the index.
pub(crate) proof fn lemma_pow128_monotonic(i: nat, j: nat)
    requires
        i <= j,
    ensures
        0 < pow128(i) <= pow128(j),
    decreases j,
{
    if j == 0 {
    } else if i == j {
        lemma_pow128_monotonic(0, (j - 1) as nat);
    } else {
        lemma_pow128_monotonic(i, (j - 1) as nat);
    }
}

/// A digit below 128 on top of a number below `128^i` stays below `128^(i+1)`.
pub(crate) proof fn lemma_digit_bound(x: nat, d: nat, i: nat)
    requires
        x < pow128(i),
        d < 128,
    ensures
        x + d * pow128(i) < pow128(i + 1),
{
    assert(d * pow128(i) <= 127 * pow128(i)) by (nonlinear_arith)
        requires
            d <= 127,
    ;
}

/// Disjoint bits add: a value below `2^s` and one shifted up by `s` share no
/// bit, so joining them with `|` is the same as adding them.
pub(crate) proof fn lemma_or_is_add(x: u128, p: u128, s: u32)
    requires
        s < 128,
        x < (1u128 << s),
    ensures
        x | (p << s) == x + (p << s),
{
    assert(x | (p << s) == x + (p << s)) by (bit_vector)
        requires
            s < 128,
            x < (1u128 << s),
    ;
}

/// A single bit shifted to the start of group `i` is the weight of that group.
pub(crate) proof fn lemma_one_shl(i: nat)
    requires
        i <= 18,
    ensures
        1u128 << ((7 * i) as u32) == pow128(i),
    decreases i,
{
    if i == 0 {
        assert(1u128 << 0u32 == 1) by (bit_vector);
    } else {
        let s = (7 * (i - 1)) as u32;
        lemma_one_shl((i - 1) as nat);
        assert(1u128 << ((s + 7) as u32) == (1u128 << s) * 128) by (bit_vector)
            requires
                s <= 119,
        ;
    }
}

/// A seven-bit group shifted to index `i` is the group times its weight,
/// as long as the result stays clear of the top of the word.
pub(crate) proof fn lemma_group_shl(p: u128, i: nat)
    requires
        p < 128,
        i <= 17,
    ensures
        p << ((7 * i) as u32) == p * pow128(i),
    decreases i,
{
    if i == 0 {
        assert(p << 0u32 == p) by (bit_vector);
        assert(p * pow128(0) == p) by (nonlinear_arith)
            requires
                pow128(0) == 1,
        ;
    } else {
        let s = (7 * (i - 1)) as u32;
        let w = pow128((i - 1) as nat);
        lemma_group_shl(p, (i - 1) as nat);
        assert(p << ((s + 7) as u32) == (p << s) * 128) by (bit_vector)
            requires
                p < 128,
                s <= 112,
        ;
        assert((s + 7) as u32 == (7 * i) as u32);
        assert((p << s) == p * w);
        assert((p * w) * 128 == p * (128 * w)) by (nonlinear_arith);
        assert(pow128(i) == 128 * w);
    }
}

/// At the last index only two bits of the group fit into the word: the shift
/// drops the others, as reducing modulo `2^128` does.
pub(crate) proof fn lemma_top_group_shl(x: u128, p: u128)
    requires
        p < 128,
        x < pow128(18),
    ensures
        x | (p << 126u32) == (x + p * pow128(18)) % (modulus() as int),
{
    lemma_pow128_values();
    let w: int = 0x4000_0000_0000_0000_0000_0000_0000_0000;
    assert(x | (p << 126u32) == x + (p % 4) * 0x4000_0000_0000_0000_0000_0000_0000_0000) by (
        bit_vector
    )
        requires
            p < 128,
            x < 0x4000_0000_0000_0000_0000_0000_0000_0000u128,
    ;
    let q = p as int / 4;
    let r = p as int % 4;
    assert(p * w == q * (4 * w) + r * w) by (nonlinear_arith)
        requires
            p == 4 * q + r,
    ;
    assert(0 <= x + r * w < 4 * w) by (nonlinear_arith)
        requires
            0 <= x < w,
            0 <= r <= 3,
    ;
    vstd::arithmetic::div_mod::lemma_fundamental_div_mod_converse(
        x + p * w,
        4 * w,
        q,
        x + r * w,
    );
}

/// One step of the encoder: the low byte with the high bit forced on is the
/// lowest digit marked as continuing, and dropping seven bits divides by 128.
pub(crate) proof fn lemma_encode_step(x: u128)
    ensures
        (x as u8) | 0x80 == x % 128 + 128,
        x >> 7u32 == x / 128,
        x < 0x80 ==> x as u8 == x,
{
    assert((x as u8) | 0x80 == x % 128 + 128) by (bit_vector);
    assert(x >> 7u32 == x / 128) by (bit_vector);
    assert(x < 0x80 ==> x as u8 == x) by (bit_vector);
}

/// The mask that strips the continuation bit leaves the payload.
pub(crate) proof fn lemma_mask_is_payload(b: u8)
    ensures
        b & 0x7f == b % 128,
{
    assert(b & 0x7f == b % 128) by (bit_vector);
}

} // verus!
