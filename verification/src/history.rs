//! A fixed-capacity rolling buffer of recent prices.
//!
//! Prices are appended in tick order; once the buffer is full the oldest
//! entry is evicted, so the window always holds the most recent prices.

use vstd::prelude::*;

verus! {

/// How many prices the rolling window keeps when none is chosen.
pub const DEFAULT_CAPACITY: usize = 100;

/// The window after appending `p` to `s` under capacity `cap`: the oldest
/// entry is dropped when the append would exceed the capacity.
pub open spec fn pushed(s: Seq<i64>, cap: nat, p: i64) -> Seq<i64> {
    let grown = s.push(p);
    if grown.len() > cap {
        grown.subrange(1, grown.len() as int)
    } else {
        grown
    }
}

/// The window that results from an empty buffer after the ticks in `ticks`
/// have been pushed in order.
pub open spec fn series_after(ticks: Seq<i64>, cap: nat) -> Seq<i64>
    decreases ticks.len(),
{
    if ticks.len() == 0 {
        Seq::empty()
    } else {
        pushed(series_after(ticks.drop_last(), cap), cap, ticks.last())
    }
}

/// A rolling window of prices, oldest first, never longer than its capacity.
pub struct PriceHistory {
    prices: Vec<i64>,
    capacity: usize,
}

impl View for PriceHistory {
    type V = Seq<i64>;

    closed spec fn view(&self) -> Seq<i64> {
        self.prices@
    }
}

impl PriceHistory {
    /// The fixed capacity chosen at construction.
    pub closed spec fn cap(&self) -> nat {
        self.capacity as nat
    }

    pub closed spec fn wf(&self) -> bool {
        &&& self.capacity >= 1
        &&& self.prices@.len() <= self.capacity
    }

    pub fn new(capacity: usize) -> (r: Self)
        requires
            capacity >= 1,
        ensures
            r.wf(),
            r@ == Seq::<i64>::empty(),
            r.cap() == capacity,
    {
        PriceHistory { prices: Vec::new(), capacity }
    }

    pub fn len(&self) -> (r: usize)
        ensures
            r == self@.len(),
    {
        self.prices.len()
    }

    pub fn capacity(&self) -> (r: usize)
        ensures
            r == self.cap(),
    {
        self.capacity
    }

    /// Appends `price`; evicts the oldest entry when the window is full.
    pub fn push(&mut self, price: i64)
        requires
            old(self).wf(),
        ensures
            final(self).wf(),
            final(self).cap() == old(self).cap(),
            final(self)@ == pushed(old(self)@, old(self).cap(), price),
            final(self)@.len() == if old(self)@.len() < old(self).cap() {
                (old(self)@.len() + 1) as int
            } else {
                old(self).cap() as int
            },
    {
        if self.prices.len() == self.capacity {
            self.prices.remove(0);
        }
        self.prices.push(price);
        proof {
            assert(self.prices@ =~= pushed(old(self).prices@, old(self).cap(), price));
        }
    }

    /// The most recent price, or none before the first tick.
    pub fn latest(&self) -> (r: Option<i64>)
        ensures
            self@.len() > 0 ==> r == Some(self@.last()),
            self@.len() == 0 ==> r.is_none(),
    {
        if self.prices.len() == 0 {
            None
        } else {
            Some(self.prices[self.prices.len() - 1])
        }
    }

    /// A copy of the window, oldest first; the position of a price in the
    /// result is its display index.
    pub fn series(&self) -> (r: Vec<i64>)
        ensures
            r@ == self@,
    {
        let mut out: Vec<i64> = Vec::new();
        let mut i: usize = 0;
        while i < self.prices.len()
            invariant
                i <= self.prices@.len(),
                out@ == self.prices@.subrange(0, i as int),
            decreases self.prices@.len() - i,
        {
            out.push(self.prices[i]);
            i += 1;
        }
        proof {
            assert(out@ =~= self.prices@);
        }
        out
    }
}

/// Law: after any sequence of ticks the window holds `min(ticks, capacity)`
/// prices; in particular its length never exceeds the capacity, and once at
/// least `capacity` ticks have occurred it is exactly the capacity.
pub proof fn lemma_series_len(ticks: Seq<i64>, cap: nat)
    requires
        cap >= 1,
    ensures
        series_after(ticks, cap).len() <= cap,
        series_after(ticks, cap).len() == if ticks.len() <= cap {
            ticks.len() as int
        } else {
            cap as int
        },
    decreases ticks.len(),
{
    if ticks.len() > 0 {
        lemma_series_len(ticks.drop_last(), cap);
    }
}

} // verus!
