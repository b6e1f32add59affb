//! The wire format, stated over mathematical sequences of bytes.
//!
//! An encoding is a run of bytes whose high bit is set, closed by one byte
//! whose high bit is clear. The low seven bits of the bytes, taken least
//! significant group first, are the digits of the value in base 128.
use vstd::prelude::*;

verus! {

/// The largest number of bytes an encoding may occupy: nineteen groups of
/// seven bits are the fewest that cover all 128 bits of a value.
pub const MAX_BYTES: usize = 19;

/// The number of values a `u128` can hold, two to the power 128.
pub open spec fn modulus() -> nat {
    0x1_0000_0000_0000_0000_0000_0000_0000_0000nat
}

/// 128 to the power `n`: the weight of the seven-bit group at index `n`.
pub open spec fn pow128(n: nat) -> nat
    decreases n,
{
    if n == 0 {
        1
    } else {
        128 * pow128((n - 1) as nat)
    }
}

/// Whether `byte` announces that another byte of the same encoding follows.
pub open spec fn continues(byte: u8) -> bool {
    byte >= 0x80
}

/// The seven value bits that `byte` carries.
pub open spec fn payload(byte: u8) -> nat {
    (byte % 128) as nat
}

/// Whether the first `n` bytes of `bytes` are one complete encoding: `n - 1`
/// bytes that continue, then one that does not, within the length limit.
pub open spec fn is_frame(bytes: Seq<u8>, n: int) -> bool {
    &&& 1 <= n <= MAX_BYTES
    &&& n <= bytes.len()
    &&& !continues(bytes[n - 1])
    &&& forall|i: int| 0 <= i < n - 1 ==> continues(#[trigger] bytes[i])
}

/// Whether `bytes` starts with a complete encoding.
pub open spec fn has_frame(bytes: Seq<u8>) -> bool {
    exists|n: int| is_frame(bytes, n)
}

/// The length of the encoding that `bytes` starts with, if there is one.
pub open spec fn frame_len(bytes: Seq<u8>) -> Option<int> {
    if has_frame(bytes) {
        Some(choose|n: int| is_frame(bytes, n))
    } else {
        None
    }
}

/// The number whose base-128 digits, least significant first, are the
/// payloads of `bytes`. Continuation bits play no part in it.
pub open spec fn groups_value(bytes: Seq<u8>) -> nat
    decreases bytes.len(),
{
    if bytes.len() == 0 {
        0
    } else {
        payload(bytes[0]) + 128 * groups_value(bytes.drop_first())
    }
}

/// The value that a decoder reads from the start of `bytes`: the digits of
/// the first complete encoding, reduced to 128 bits. `None` when `bytes`
/// starts with no complete encoding.
pub open spec fn decode_spec(bytes: Seq<u8>) -> Option<u128> {
    match frame_len(bytes) {
        Some(n) => Some((groups_value(bytes.take(n)) % modulus()) as u128),
        None => None,
    }
}

/// The canonical encoding of `v`: its base-128 digits, least significant
/// first and without leading zero digits, each but the last marked with the
/// continuation bit. Zero is the single byte `0x00`.
pub open spec fn encode_spec(v: nat) -> Seq<u8>
    decreases v,
{
    if v < 128 {
        seq![v as u8]
    } else {
        seq![(v % 128 + 128) as u8] + encode_spec(v / 128)
    }
}

/// A sequence starts with at most one complete encoding.
pub proof fn lemma_frame_unique(bytes: Seq<u8>, n: int, m: int)
    requires
        is_frame(bytes, n),
        is_frame(bytes, m),
    ensures
        n == m,
{
    if n < m {
        assert(continues(bytes[n - 1]));
    } else if m < n {
        assert(continues(bytes[m - 1]));
    }
}

/// `frame_len` is the one length at which `bytes` frames.
pub proof fn lemma_frame_len(bytes: Seq<u8>, n: int)
    ensures
        is_frame(bytes, n) <==> frame_len(bytes) == Some(n),
{
    if is_frame(bytes, n) {
        let m = choose|m: int| is_frame(bytes, m);
        lemma_frame_unique(bytes, n, m);
    }
}

/// An encoding has as many bytes as its value has base-128 digits: a value
/// below `128^k` takes at most `k` bytes, and never fewer than one.
pub proof fn lemma_encode_len(v: nat, k: nat)
    requires
        k >= 1,
        v < pow128(k),
    ensures
        1 <= encode_spec(v).len() <= k,
    decreases v,
{
    if v >= 128 {
        if k == 1 {
            assert(pow128(1) == 128) by {
                reveal_with_fuel(pow128, 2);
            }
        } else {
            lemma_encode_len(v / 128, (k - 1) as nat);
        }
    }
}

/// Appending a byte adds its payload at the weight of its index: the byte at
/// index `i` contributes the bits from `7 * i` up to `7 * i + 7`.
pub proof fn lemma_groups_value_push(bytes: Seq<u8>, byte: u8)
    ensures
        groups_value(bytes.push(byte)) == groups_value(bytes) + payload(byte) * pow128(
            bytes.len(),
        ),
    decreases bytes.len(),
{
    let all = bytes.push(byte);
    let p = payload(byte);
    if bytes.len() == 0 {
        assert(all.drop_first().len() == 0);
        assert(groups_value(all.drop_first()) == 0);
        assert(pow128(0) == 1);
        assert(p * pow128(0) == p);
    } else {
        let rest = bytes.drop_first();
        let w = pow128(rest.len());
        assert(all.drop_first() =~= rest.push(byte));
        assert(all[0] == bytes[0]);
        lemma_groups_value_push(rest, byte);
        assert(pow128(bytes.len()) == 128 * w);
        assert(128 * (p * w) == p * (128 * w)) by (nonlinear_arith);
    }
}

} // verus!
