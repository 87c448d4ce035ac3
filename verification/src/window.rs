//! Fixed-size rolling windows of prices.

use vstd::prelude::*;
use std::collections::VecDeque;

verus! {

/// The window after one more price: when the window already holds `size`
/// prices, the oldest one leaves first.
pub open spec fn window_push<P>(window: Seq<P>, size: nat, price: P) -> Seq<P> {
    if window.len() == size && window.len() > 0 {
        window.drop_first().push(price)
    } else {
        window.push(price)
    }
}

/// The window that a series of prices, pushed one by one into an empty
/// window, leaves behind.
pub open spec fn window_of<P>(size: nat, prices: Seq<P>) -> Seq<P>
    decreases prices.len(),
{
    if prices.len() == 0 {
        Seq::empty()
    } else {
        window_push(window_of(size, prices.drop_last()), size, prices.last())
    }
}

/// Appends `price` to `window`, first dropping the oldest price when the
/// window already holds `size` of them.
pub fn push_within<P>(window: &mut VecDeque<P>, size: usize, price: P)
    ensures
        final(window)@ == window_push(old(window)@, size as nat, price),
{
    if window.len() == size {
        let _ = window.pop_front();
    }
    window.push_back(price);
}

/// A window never holds more than `size` prices (for a positive `size`).
pub proof fn window_stays_bounded<P>(window: Seq<P>, size: nat, price: P)
    requires
        size > 0,
        window.len() <= size,
    ensures
        window_push(window, size, price).len() <= size,
{
}

/// A window of positive size holds exactly the last `size` prices pushed
/// into it (all of them while there are fewer), oldest first.
pub proof fn window_keeps_latest<P>(size: nat, prices: Seq<P>)
    requires
        size > 0,
    ensures
        window_of(size, prices) == prices.subrange(
            if prices.len() > size { prices.len() - size } else { 0 },
            prices.len() as int,
        ),
    decreases prices.len(),
{
    if prices.len() > 0 {
        let rest = prices.drop_last();
        window_keeps_latest(size, rest);
        let w = window_of(size, rest);
        let start: int = if rest.len() > size { rest.len() - size } else { 0 };
        assert(w == rest.subrange(start, rest.len() as int));
        if w.len() == size {
            assert(window_of(size, prices) =~= prices.subrange(prices.len() - size, prices.len() as int));
        } else {
            assert(window_of(size, prices) =~= prices.subrange(0, prices.len() as int));
        }
    } else {
        assert(window_of(size, prices) =~= prices.subrange(0, 0));
    }
}

} // verus!
