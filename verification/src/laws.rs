//! What holds of the format as a whole: encoding and decoding are inverse,
//! encodings are as short as can be, and framing agrees with encoding.
use vstd::prelude::*;
use crate::bits::{lemma_pow128_monotonic, lemma_pow128_values};
use crate::format::{
    continues, decode_spec, encode_spec, frame_len, groups_value, has_frame, is_frame,
    lemma_encode_len, lemma_frame_len, modulus, payload, pow128, MAX_BYTES,
};

verus! {

/// In an encoding every byte but the last continues, and the last does not.
pub proof fn lemma_encode_shape(v: nat)
    ensures
        !continues(encode_spec(v).last()),
        forall|i: int|
            0 <= i < encode_spec(v).len() - 1 ==> continues(#[trigger] encode_spec(v)[i]),
    decreases v,
{
    if v >= 128 {
        let rest = encode_spec(v / 128);
        let all = encode_spec(v);
        lemma_encode_shape(v / 128);
        assert(all.len() == rest.len() + 1);
        assert(all.last() == rest.last());
        assert forall|i: int| 0 <= i < all.len() - 1 implies continues(#[trigger] all[i]) by {
            if i > 0 {
                assert(all[i] == rest[i - 1]);
            }
        }
    }
}

/// The digits of an encoding are those of the value it was made from.
pub proof fn lemma_encode_value(v: nat)
    ensures
        groups_value(encode_spec(v)) == v,
    decreases v,
{
    let all = encode_spec(v);
    if v < 128 {
        assert(all.drop_first().len() == 0);
        assert(groups_value(all.drop_first()) == 0);
        assert(payload(all[0]) == v);
    } else {
        let rest = encode_spec(v / 128);
        lemma_encode_value(v / 128);
        assert(all.drop_first() =~= rest);
        assert(payload(all[0]) == v % 128);
    }
}

/// The byte at index `i` of an encoding carries the digit of weight `128^i`:
/// the bits of the value from `7 * i` up to `7 * i + 7`.
pub proof fn law_encoded_digit(v: nat, i: int)
    requires
        0 <= i < encode_spec(v).len(),
    ensures
        payload(encode_spec(v)[i]) == (v / pow128(i as nat)) % 128,
    decreases i,
{
    let enc = encode_spec(v);
    if i == 0 {
        assert(pow128(0) == 1);
        assert(payload(enc[0]) == v % 128);
        assert(v / pow128(0) == v);
    } else {
        let w = pow128((i - 1) as nat);
        assert(enc[i] == encode_spec(v / 128)[i - 1]);
        law_encoded_digit(v / 128, i - 1);
        lemma_pow128_monotonic(0, (i - 1) as nat);
        vstd::arithmetic::div_mod::lemma_div_denominator(v as int, 128, w as int);
        assert(pow128(i as nat) == 128 * w);
        assert(payload(enc[i]) == ((v / 128) / w) % 128);
        assert(v / pow128(i as nat) == v / (128 * w));
    }
}

/// The encoding of `v` has exactly as many bytes as `v` has
/// base-128 digits. It is one byte for a value below 128, and for a longer
/// one the value is too large for any shorter encoding.
pub proof fn law_minimal_length(v: nat)
    ensures
        encode_spec(v).len() >= 1,
        v < pow128(encode_spec(v).len()),
        v < 128 ==> encode_spec(v).len() == 1,
        encode_spec(v).len() > 1 ==> v >= pow128((encode_spec(v).len() - 1) as nat),
    decreases v,
{
    reveal_with_fuel(pow128, 2);
    if v >= 128 {
        law_minimal_length(v / 128);
    }
}

/// A value of 128 bits never takes more than [`MAX_BYTES`] bytes.
pub proof fn law_encoding_fits(v: u128)
    ensures
        1 <= encode_spec(v as nat).len() <= MAX_BYTES,
{
    lemma_pow128_values();
    lemma_encode_len(v as nat, 19);
}

/// The bytes of an encoding frame at their full length, whatever follows
/// them: a length scan of an encoding finds all of it and no more.
pub proof fn law_frame_of_encoding(v: u128, tail: Seq<u8>)
    ensures
        frame_len(encode_spec(v as nat) + tail) == Some(encode_spec(v as nat).len() as int),
{
    let enc = encode_spec(v as nat);
    let all = enc + tail;
    law_encoding_fits(v);
    lemma_encode_shape(v as nat);
    assert(all[enc.len() - 1] == enc.last());
    assert forall|i: int| 0 <= i < enc.len() - 1 implies continues(#[trigger] all[i]) by {
        assert(all[i] == enc[i]);
    }
    assert(is_frame(all, enc.len() as int));
    lemma_frame_len(all, enc.len() as int);
}

/// An encoding cut short frames nowhere: a length scan of it finds nothing.
pub proof fn law_no_frame_in_prefix(v: u128, k: int)
    requires
        0 <= k < encode_spec(v as nat).len(),
    ensures
        !has_frame(encode_spec(v as nat).take(k)),
        frame_len(encode_spec(v as nat).take(k)) is None,
{
    let enc = encode_spec(v as nat);
    let cut = enc.take(k);
    lemma_encode_shape(v as nat);
    assert forall|n: int| !is_frame(cut, n) by {
        if 1 <= n <= cut.len() {
            assert(cut[n - 1] == enc[n - 1]);
            assert(continues(enc[n - 1]));
        }
    }
}

/// Bytes that all continue, as far as a decoder looks, hold no value: this
/// rejects the empty input, an encoding cut short, and a run of
/// [`MAX_BYTES`] continuing bytes or more.
pub proof fn law_no_closing_byte(bytes: Seq<u8>)
    requires
        forall|i: int| 0 <= i < bytes.len() && i < MAX_BYTES ==> continues(#[trigger] bytes[i]),
    ensures
        !has_frame(bytes),
        frame_len(bytes) is None,
        decode_spec(bytes) is None,
{
    assert forall|n: int| !is_frame(bytes, n) by {
        if 1 <= n <= bytes.len() && n <= MAX_BYTES {
            assert(continues(bytes[n - 1]));
        }
    }
}

/// Decoding the encoding of a value gives the value back, whatever bytes
/// follow the encoding.
pub proof fn law_round_trip(v: u128, tail: Seq<u8>)
    ensures
        decode_spec(encode_spec(v as nat) + tail) == Some(v),
{
    let enc = encode_spec(v as nat);
    let all = enc + tail;
    law_frame_of_encoding(v, tail);
    lemma_encode_value(v as nat);
    assert(all.take(enc.len() as int) =~= enc);
    assert(v as nat % modulus() == v as nat);
}

/// No complete encoding that decodes to `v` is shorter than the canonical
/// encoding of `v`.
pub proof fn law_no_shorter_encoding(bytes: Seq<u8>, n: int, v: u128)
    requires
        is_frame(bytes, n),
        decode_spec(bytes) == Some(v),
    ensures
        encode_spec(v as nat).len() <= n,
{
    lemma_frame_len(bytes, n);
    let g = groups_value(bytes.take(n));
    lemma_groups_value_bound(bytes.take(n));
    assert(g % modulus() <= g) by {
        vstd::arithmetic::div_mod::lemma_mod_decreases(g, modulus());
    }
    lemma_encode_len(v as nat, n as nat);
}

/// A number written with `n` digits in base 128 is below `128^n`.
pub proof fn lemma_groups_value_bound(bytes: Seq<u8>)
    ensures
        groups_value(bytes) < pow128(bytes.len()),
    decreases bytes.len(),
{
    if bytes.len() > 0 {
        lemma_groups_value_bound(bytes.drop_first());
    }
}

} // verus!
