//! Reading one value from a source that hands over a byte at a time.
//!
//! The reader owns the decisions and none of the input: whoever holds the
//! source reads one byte, tells the reader what came of it, and does what
//! the reader answers, until the answer ends the read.
use vstd::prelude::*;
use vstd::slice::slice_subrange;
use crate::format::{continues, decode_spec, encode_spec, is_frame, MAX_BYTES};
use crate::laws::{law_encoding_fits, law_no_frame_in_prefix, law_round_trip};
use crate::uint::Uint;

verus! {

/// What the source did when asked for one more byte.
#[derive(Copy, Clone, Debug, PartialEq, Eq, Structural)]
pub enum ReadEvent {
    /// The source gave this byte.
    Byte(u8),
    /// The source failed or ended; it keeps the error it raised.
    SourceFailed,
}

/// What to do next with the source.
#[derive(Copy, Clone, Debug, PartialEq, Eq, Structural)]
pub enum ReadAction {
    /// Read one more byte and report it.
    ReadByte,
    /// The value is complete: return it.
    Finish(Uint),
    /// The bytes read are no encoding: fail with "invalid byte sequence".
    FailInvalid,
    /// Fail with the error that the source raised.
    FailSource,
}

/// The bytes of one value read so far.
pub struct StreamReader {
    buffer: [u8; 19],
    filled: usize,
}

/// The next state and the action for `event`, with `pending` the bytes read
/// so far. A byte that completes an encoding ends the read with its value;
/// one that fills the last place without completing it, or a failure of the
/// source, ends the read with an error. Whatever ends the read leaves
/// nothing pending.
pub open spec fn step_spec(pending: Seq<u8>, event: ReadEvent) -> (Seq<u8>, ReadAction) {
    match event {
        ReadEvent::SourceFailed => (Seq::empty(), ReadAction::FailSource),
        ReadEvent::Byte(byte) => {
            let read = pending.push(byte);
            match decode_spec(read) {
                Some(v) => (Seq::empty(), ReadAction::Finish(Uint(v))),
                None => if read.len() >= MAX_BYTES {
                    (Seq::empty(), ReadAction::FailInvalid)
                } else {
                    (read, ReadAction::ReadByte)
                },
            }
        },
    }
}

/// The state and the action after the bytes of `input` were handed over in
/// order, starting with `pending` read so far and stopping at the first
/// action that ends the read. With all of `input` taken and the read still
/// under way, the action is to read on.
pub open spec fn run_spec(pending: Seq<u8>, input: Seq<u8>) -> (Seq<u8>, ReadAction)
    decreases input.len(),
{
    if input.len() == 0 {
        (pending, ReadAction::ReadByte)
    } else {
        let (next, action) = step_spec(pending, ReadEvent::Byte(input[0]));
        if action == ReadAction::ReadByte {
            run_spec(next, input.drop_first())
        } else {
            (next, action)
        }
    }
}

impl StreamReader {
    /// The bytes read so far of the value under way.
    pub closed spec fn pending(&self) -> Seq<u8> {
        self.buffer@.take(self.filled as int)
    }

    /// A read under way holds fewer than [`MAX_BYTES`] bytes, none of which
    /// closes an encoding. Every reader is in this state between calls.
    pub open spec fn wf(&self) -> bool {
        &&& self.pending().len() < MAX_BYTES
        &&& forall|i: int| 0 <= i < self.pending().len() ==> continues(#[trigger] self.pending()[i])
    }

    #[verifier::type_invariant]
    spec fn inv(&self) -> bool {
        &&& self.filled < 19
        &&& forall|i: int| 0 <= i < self.filled ==> continues(#[trigger] self.buffer@[i])
    }

    /// A reader with nothing read yet.
    pub fn new() -> (r: Self)
        ensures
            r.wf(),
            r.pending() == Seq::<u8>::empty(),
    {
        StreamReader { buffer: [0u8; 19], filled: 0 }
    }

    /// Takes what the source did and answers what to do next.
    pub fn step(&mut self, event: ReadEvent) -> (action: ReadAction)
        ensures
            old(self).wf(),
            final(self).wf(),
            (final(self).pending(), action) == step_spec(old(self).pending(), event),
    {
        proof {
            use_type_invariant(&*self);
        }
        match event {
            ReadEvent::SourceFailed => {
                self.filled = 0;
                ReadAction::FailSource
            },
            ReadEvent::Byte(byte) => {
                let i = self.filled;
                self.buffer[i] = byte;
                let read = slice_subrange(self.buffer.as_slice(), 0, i + 1);
                assert(read@ =~= old(self).pending().push(byte));
                assert(continues(byte) || is_frame(read@, i + 1));
                if Uint::peek(read).is_some() {
                    self.filled = 0;
                    match Uint::try_from(read) {
                        Ok(value) => ReadAction::Finish(value),
                        Err(_) => ReadAction::FailInvalid,
                    }
                } else if i + 1 == MAX_BYTES {
                    self.filled = 0;
                    ReadAction::FailInvalid
                } else {
                    self.filled = i + 1;
                    assert(self.pending() =~= read@);
                    ReadAction::ReadByte
                }
            },
        }
    }
}

/// With the first `k` bytes of the encoding of `v` read, handing over the
/// rest ends the read with `v`, before any byte of `tail` is taken.
proof fn lemma_run_from(v: u128, k: int, tail: Seq<u8>)
    requires
        0 <= k < encode_spec(v as nat).len(),
    ensures
        run_spec(encode_spec(v as nat).take(k), encode_spec(v as nat).skip(k) + tail) == (
            Seq::<u8>::empty(),
            ReadAction::Finish(Uint(v)),
        ),
    decreases encode_spec(v as nat).len() - k,
{
    let enc = encode_spec(v as nat);
    let pending = enc.take(k);
    let input = enc.skip(k) + tail;
    let read = pending.push(input[0]);
    assert(read =~= enc.take(k + 1));
    law_encoding_fits(v);
    if k + 1 == enc.len() {
        assert(read =~= enc + Seq::<u8>::empty());
        law_round_trip(v, Seq::empty());
    } else {
        law_no_frame_in_prefix(v, k + 1);
        assert(input.drop_first() =~= enc.skip(k + 1) + tail);
        lemma_run_from(v, k + 1, tail);
    }
}

/// A reader that is handed the bytes written for `v`, in order, ends the
/// read with `v`. This holds for every 128-bit value, those that take all
/// nineteen bytes included. Bytes after the encoding are not asked for.
pub proof fn law_stream_symmetry(v: u128, tail: Seq<u8>)
    ensures
        run_spec(Seq::empty(), encode_spec(v as nat) + tail) == (
            Seq::<u8>::empty(),
            ReadAction::Finish(Uint(v)),
        ),
{
    let enc = encode_spec(v as nat);
    law_encoding_fits(v);
    assert(enc.take(0) =~= Seq::<u8>::empty());
    assert(enc.skip(0) =~= enc);
    lemma_run_from(v, 0, tail);
}

/// A source that ends inside an encoding never yields a value. After any
/// strict prefix of the encoding of `v` the reader still asks for a byte,
/// and when the source then fails, the read ends with the source's error.
pub proof fn law_truncated_stream(v: u128, k: int)
    requires
        0 <= k < encode_spec(v as nat).len(),
    ensures
        run_spec(Seq::empty(), encode_spec(v as nat).take(k)) == (
            encode_spec(v as nat).take(k),
            ReadAction::ReadByte,
        ),
        step_spec(encode_spec(v as nat).take(k), ReadEvent::SourceFailed).1
            == ReadAction::FailSource,
{
    lemma_run_prefix(v, 0, k);
    assert(encode_spec(v as nat).take(0) =~= Seq::<u8>::empty());
    assert(encode_spec(v as nat).take(k).skip(0) =~= encode_spec(v as nat).take(k));
}

/// With `j` bytes of an encoding read, handing over the bytes up to a cut
/// at `k`, short of the end, leaves the read under way.
proof fn lemma_run_prefix(v: u128, j: int, k: int)
    requires
        0 <= j <= k < encode_spec(v as nat).len(),
    ensures
        run_spec(encode_spec(v as nat).take(j), encode_spec(v as nat).take(k).skip(j)) == (
            encode_spec(v as nat).take(k),
            ReadAction::ReadByte,
        ),
    decreases k - j,
{
    let enc = encode_spec(v as nat);
    let input = enc.take(k).skip(j);
    if j == k {
        assert(input.len() == 0);
    } else {
        let read = enc.take(j).push(input[0]);
        assert(read =~= enc.take(j + 1));
        law_encoding_fits(v);
        law_no_frame_in_prefix(v, j + 1);
        assert(input.drop_first() =~= enc.take(k).skip(j + 1));
        lemma_run_prefix(v, j + 1, k);
    }
}

} // verus!
