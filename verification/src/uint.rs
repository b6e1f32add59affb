//! The value type and its byte codec.
use vstd::prelude::*;
use vstd::slice::{slice_subrange, slice_to_vec};
use vstd::std_specs::convert::TryFromSpecImpl;
use crate::bits::{
    lemma_digit_bound, lemma_encode_step, lemma_group_shl, lemma_mask_is_payload, lemma_one_shl,
    lemma_or_is_add, lemma_pow128_monotonic, lemma_pow128_values, lemma_top_group_shl,
};
use crate::format::{
    continues, decode_spec, encode_spec, frame_len, groups_value, has_frame, is_frame,
    lemma_frame_len, lemma_groups_value_push, payload, pow128, MAX_BYTES,
};
use crate::laws::{law_encoding_fits, law_frame_of_encoding, law_round_trip};

verus! {

/// An unsigned integer of up to 128 bits that knows its variable-length
/// encoding.
#[derive(Copy, Clone, Debug, Eq, PartialEq, Structural, Ord, PartialOrd, Hash)]
pub struct Uint(pub u128);

impl Uint {
    /// The maximum number of bytes an encoded value occupies.
    pub const MAX_BYTES: usize = MAX_BYTES;

    /// Returns how many bytes the encoding at the start of `value` occupies,
    /// or `None` when `value` does not start with a complete encoding: when
    /// it is empty, ends before a closing byte, or runs on past
    /// [`Uint::MAX_BYTES`] bytes. The value itself is not looked at.
    pub fn peek(value: &[u8]) -> (r: Option<usize>)
        ensures
            match r {
                Some(n) => is_frame(value@, n as int) && frame_len(value@) == Some(n as int),
                None => !has_frame(value@) && frame_len(value@) is None,
            },
    {
        let mut i: usize = 0;
        while i < Self::MAX_BYTES
            invariant
                i <= MAX_BYTES,
                i <= value@.len(),
                forall|j: int| 0 <= j < i ==> continues(#[trigger] value@[j]),
            decreases MAX_BYTES - i,
        {
            if i >= value.len() {
                return None;
            }
            if value[i] < 0x80 {
                proof {
                    lemma_frame_len(value@, i + 1);
                }
                return Some(i + 1);
            }
            i += 1;
        }
        None
    }

    /// Writes the encoding of `self` to the start of `buffer`, which must
    /// have room for it; [`Uint::MAX_BYTES`] bytes are always enough. The
    /// bytes of `buffer` after the encoding keep their values.
    pub fn to_bytes(&self, buffer: &mut [u8])
        requires
            old(buffer)@.len() >= encode_spec(self.0 as nat).len(),
        ensures
            final(buffer)@ == encode_spec(self.0 as nat) + old(buffer)@.skip(
                encode_spec(self.0 as nat).len() as int,
            ),
            decode_spec(final(buffer)@) == Some(self.0),
    {
        let _ = self.to_bytes_with_length(buffer);
    }

    /// Same as [`Uint::to_bytes`], and returns how many bytes the encoding
    /// took.
    pub fn to_bytes_with_length(self, buffer: &mut [u8]) -> (n: usize)
        requires
            old(buffer)@.len() >= encode_spec(self.0 as nat).len(),
        ensures
            1 <= n <= MAX_BYTES,
            n == encode_spec(self.0 as nat).len(),
            final(buffer)@ == encode_spec(self.0 as nat) + old(buffer)@.skip(n as int),
            frame_len(final(buffer)@) == Some(n as int),
            decode_spec(final(buffer)@) == Some(self.0),
    {
        proof {
            let tail = old(buffer)@.skip(encode_spec(self.0 as nat).len() as int);
            law_encoding_fits(self.0);
            law_frame_of_encoding(self.0, tail);
            law_round_trip(self.0, tail);
        }
        let mut i: usize = 0;
        let mut x: u128 = self.0;
        let ghost whole = encode_spec(self.0 as nat);
        while x >= 0x80
            invariant
                buffer@.len() == old(buffer)@.len(),
                whole == encode_spec(self.0 as nat),
                whole.len() <= buffer@.len(),
                whole.len() == i + encode_spec(x as nat).len(),
                whole =~= buffer@.take(i as int) + encode_spec(x as nat),
                buffer@.skip(i as int) =~= old(buffer)@.skip(i as int),
            decreases x,
        {
            let ghost before = buffer@;
            proof {
                lemma_encode_step(x);
                assert(encode_spec((x / 128) as nat).len() >= 1);
            }
            buffer[i] = (#[verifier::truncate] (x as u8)) | 0x80;
            proof {
                assert(buffer@ =~= before.update(i as int, (x % 128 + 128) as u8));
                assert(buffer@.take(i + 1) =~= before.take(i as int).push(
                    (x % 128 + 128) as u8,
                ));
                assert(buffer@.skip(i + 1) =~= before.skip(i as int).skip(1));
                assert(old(buffer)@.skip(i + 1) =~= old(buffer)@.skip(i as int).skip(1));
            }
            x >>= 7;
            i += 1;
        }
        let ghost before = buffer@;
        proof {
            lemma_encode_step(x);
        }
        buffer[i] = #[verifier::truncate] (x as u8);
        proof {
            assert(buffer@ =~= before.update(i as int, x as u8));
            assert(buffer@.take(i + 1) =~= before.take(i as int).push(x as u8));
            assert(buffer@.skip(i + 1) =~= before.skip(i as int).skip(1));
            assert(old(buffer)@.skip(i + 1) =~= old(buffer)@.skip(i as int).skip(1));
            assert(buffer@ =~= buffer@.take(i + 1) + buffer@.skip(i + 1));
        }
        i += 1;
        i
    }

    /// Returns the encoding of `self`, between one and [`Uint::MAX_BYTES`]
    /// bytes long.
    pub fn to_vec(&self) -> (out: Vec<u8>)
        ensures
            out@ == encode_spec(self.0 as nat),
            1 <= out@.len() <= MAX_BYTES,
            frame_len(out@) == Some(out@.len() as int),
            decode_spec(out@) == Some(self.0),
    {
        let mut output = [0u8; 19];
        proof {
            law_encoding_fits(self.0);
            law_frame_of_encoding(self.0, Seq::empty());
            law_round_trip(self.0, Seq::empty());
            assert(encode_spec(self.0 as nat) + Seq::<u8>::empty() =~= encode_spec(self.0 as nat));
        }
        let i = self.to_bytes_with_length(&mut output);
        let out = slice_to_vec(slice_subrange(&output, 0, i));
        out
    }
}

/// What decoding answers on `bytes`: the value of the first complete
/// encoding, or the one error there is.
pub open spec fn try_from_bytes_spec(bytes: Seq<u8>) -> Result<Uint, &'static str> {
    match decode_spec(bytes) {
        Some(v) => Ok(Uint(v)),
        None => Err("invalid byte sequence"),
    }
}

impl<'a> TryFrom<&'a [u8]> for Uint {
    type Error = &'static str;

    /// Decodes the encoding at the start of `value`; bytes after it are
    /// ignored. Fails exactly when `value` starts with no complete encoding.
    /// Bits of the nineteenth group that lie beyond bit 127 are dropped.
    fn try_from(value: &'a [u8]) -> (r: Result<Self, Self::Error>)
        ensures
            r == try_from_bytes_spec(value@),
    {
        let mut x: u128 = 0;
        let mut s: u32 = 0;
        let mut i: usize = 0;
        proof {
            lemma_pow128_values();
            assert(value@.take(0).len() == 0);
        }
        while i < Self::MAX_BYTES
            invariant
                i <= MAX_BYTES,
                i <= value@.len(),
                s == 7 * i,
                forall|j: int| 0 <= j < i ==> continues(#[trigger] value@[j]),
                i < MAX_BYTES ==> x == groups_value(value@.take(i as int)) && x < pow128(i as nat),
            decreases MAX_BYTES - i,
        {
            if i >= value.len() {
                return Err("invalid byte sequence");
            }
            let byte = value[i];
            let ghost x0 = x;
            proof {
                let head = value@.take(i as int);
                assert(value@.take(i + 1) =~= head.push(byte));
                lemma_groups_value_push(head, byte);
                lemma_one_shl(i as nat);
                lemma_mask_is_payload(byte);
                lemma_pow128_values();
                lemma_pow128_monotonic((i + 1) as nat, 19);
                if i < 18 {
                    lemma_or_is_add(x0, payload(byte) as u128, s);
                    lemma_group_shl(payload(byte) as u128, i as nat);
                    lemma_digit_bound(x0 as nat, payload(byte), i as nat);
                    lemma_pow128_monotonic((i + 1) as nat, 18);
                }
            }
            if byte < 0x80 {
                let u = x | (byte as u128) << s;
                proof {
                    assert(is_frame(value@, i + 1));
                    lemma_frame_len(value@, i + 1);
                    if i == 18 {
                        lemma_top_group_shl(x, byte as u128);
                    }
                }
                return Ok(Uint(u));
            }
            x |= ((byte & 0x7f) as u128) << s;
            s += 7;
            i += 1;
        }
        Err("invalid byte sequence")
    }
}

impl<'a> TryFromSpecImpl<&'a [u8]> for Uint {
    open spec fn obeys_try_from_spec() -> bool {
        true
    }

    open spec fn try_from_spec(v: &'a [u8]) -> Result<Self, Self::Error> {
        try_from_bytes_spec(v@)
    }
}

impl<'a> TryFrom<&'a Vec<u8>> for Uint {
    type Error = &'static str;

    /// Decodes the encoding at the start of `value`, as for a slice.
    fn try_from(value: &'a Vec<u8>) -> (r: Result<Self, Self::Error>)
        ensures
            r == try_from_bytes_spec(value@),
    {
        Self::try_from(value.as_slice())
    }
}

impl<'a> TryFromSpecImpl<&'a Vec<u8>> for Uint {
    open spec fn obeys_try_from_spec() -> bool {
        true
    }

    open spec fn try_from_spec(v: &'a Vec<u8>) -> Result<Self, Self::Error> {
        try_from_bytes_spec(v@)
    }
}

impl<'a> TryFrom<&'a Box<Vec<u8>>> for Uint {
    type Error = &'static str;

    /// Decodes the encoding at the start of `value`, as for a slice.
    fn try_from(value: &'a Box<Vec<u8>>) -> (r: Result<Self, Self::Error>)
        ensures
            r == try_from_bytes_spec(value@),
    {
        Self::try_from(value.as_slice())
    }
}

impl<'a> TryFromSpecImpl<&'a Box<Vec<u8>>> for Uint {
    open spec fn obeys_try_from_spec() -> bool {
        true
    }

    open spec fn try_from_spec(v: &'a Box<Vec<u8>>) -> Result<Self, Self::Error> {
        try_from_bytes_spec(v@)
    }
}

} // verus!
