//! Sums and products over iterators of operands.
use vstd::prelude::*;
use vstd::std_specs::iter::IteratorSpec;
use crate::ops::Operand;
use crate::uint::Uint;

verus! {

/// The sum of the values of `items`.
pub open spec fn sum_spec<T: Operand>(items: Seq<T>) -> nat
    decreases items.len(),
{
    if items.len() == 0 {
        0
    } else {
        items[0].operand_spec() as nat + sum_spec(items.drop_first())
    }
}

impl<T: Operand> core::iter::Sum<T> for Uint {
    /// Adds up what `iter` yields; nothing yields zero. The total must fit
    /// in 128 bits.
    fn sum<I: Iterator<Item = T>>(iter: I) -> (r: Uint)
        requires
            iter.obeys_prophetic_iter_laws(),
            iter.decrease() is Some,
            sum_spec(iter.remaining()) <= u128::MAX,
        ensures
            r.0 == sum_spec(iter.remaining()),
    {
        let mut rest = iter;
        let mut total: u128 = 0;
        loop
            invariant
                rest.obeys_prophetic_iter_laws(),
                rest.decrease() is Some,
                total + sum_spec(rest.remaining()) == sum_spec(iter.remaining()),
                sum_spec(iter.remaining()) <= u128::MAX,
            decreases rest.decrease()->0,
        {
            match rest.next() {
                Some(v) => {
                    total = total + v.operand();
                },
                None => {
                    return Uint(total);
                },
            }
        }
    }
}

/// The product of the values of `items`; the empty product is one.
pub open spec fn product_spec<T: Operand>(items: Seq<T>) -> nat
    decreases items.len(),
{
    if items.len() == 0 {
        1
    } else {
        product_spec(items.drop_last()) * items.last().operand_spec() as nat
    }
}

impl<T: Operand> core::iter::Product<T> for Uint {
    /// Multiplies what `iter` yields, in order; nothing yields one. The
    /// product of every leading part must fit in 128 bits.
    fn product<I: Iterator<Item = T>>(iter: I) -> (r: Uint)
        requires
            iter.obeys_prophetic_iter_laws(),
            iter.decrease() is Some,
            forall|k: int|
                0 <= k <= iter.remaining().len() ==> #[trigger] product_spec(
                    iter.remaining().take(k),
                ) <= u128::MAX,
        ensures
            r.0 == product_spec(iter.remaining()),
    {
        let mut rest = iter;
        let mut total: u128 = 1;
        let ghost all = iter.remaining();
        let ghost mut k: int = 0;
        proof {
            assert(all.take(0).len() == 0);
            assert(all.skip(0) =~= all);
        }
        loop
            invariant
                rest.obeys_prophetic_iter_laws(),
                rest.decrease() is Some,
                all == iter.remaining(),
                0 <= k <= all.len(),
                rest.remaining() == all.skip(k),
                total == product_spec(all.take(k)),
                forall|j: int|
                    0 <= j <= all.len() ==> #[trigger] product_spec(all.take(j)) <= u128::MAX,
            decreases rest.decrease()->0,
        {
            match rest.next() {
                Some(v) => {
                    proof {
                        assert(all.take(k + 1).drop_last() =~= all.take(k));
                        assert(all.take(k + 1).last() == v);
                        assert(all.skip(k).drop_first() =~= all.skip(k + 1));
                        assert(product_spec(all.take(k + 1)) <= u128::MAX);
                        k = k + 1;
                    }
                    total = total * v.operand();
                },
                None => {
                    proof {
                        assert(all.take(k) =~= all);
                    }
                    return Uint(total);
                },
            }
        }
    }
}

} // verus!
