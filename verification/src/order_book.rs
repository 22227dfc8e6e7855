//! One side of the order book: sizes by price, kept in ascending order of
//! price, pruned to a band around the last traded price.

use vstd::prelude::*;

verus! {

/// How far from the last traded price, in yen, a level may lie to stay in the book.
pub const MAX_KEEP_BOARD_PRICE: u64 = 100_000;

#[derive(Debug, Clone, Copy)]
pub struct BookLevel {
    /// Yen.
    pub price: u64,
    /// Size units.
    pub size: u64,
}

/// The levels of one side, cheapest first. No price occurs twice.
#[derive(Debug, Clone)]
pub struct OrderBookSide {
    levels: Vec<BookLevel>,
}

impl View for OrderBookSide {
    type V = Seq<BookLevel>;

    closed spec fn view(&self) -> Seq<BookLevel> {
        self.levels@
    }
}

/// Prices strictly ascend.
pub open spec fn ascending(s: Seq<BookLevel>) -> bool {
    forall|i: int, j: int| 0 <= i < j < s.len() ==> (#[trigger] s[i]).price < (#[trigger] s[j]).price
}

/// How many levels are cheaper than `price`.
pub open spec fn cheaper_count(s: Seq<BookLevel>, price: u64) -> int
    decreases s.len(),
{
    if s.len() == 0 {
        0
    } else {
        cheaper_count(s.drop_last(), price) + if s.last().price < price {
            1int
        } else {
            0int
        }
    }
}

/// The book after a delta: the level replaces the one at its price, or
/// takes its place among the others.
pub open spec fn with_level(s: Seq<BookLevel>, level: BookLevel) -> Seq<BookLevel> {
    let k = cheaper_count(s, level.price);
    if k < s.len() && s[k].price == level.price {
        s.update(k, level)
    } else {
        s.insert(k, level)
    }
}

/// The book after a batch of deltas, applied in order.
pub open spec fn with_levels(s: Seq<BookLevel>, deltas: Seq<BookLevel>) -> Seq<BookLevel>
    decreases deltas.len(),
{
    if deltas.len() == 0 {
        s
    } else {
        with_level(with_levels(s, deltas.drop_last()), deltas.last())
    }
}

/// Whether a level survives pruning around the last traded price `ltp`:
/// it has size, and lies on its own side of `ltp`, less than
/// `max_distance` away. Asks lie at or above, bids at or below.
pub open spec fn in_band(level: BookLevel, ltp: u64, max_distance: u64, is_ask: bool) -> bool {
    &&& level.size > 0
    &&& if is_ask {
        ltp <= level.price < ltp + max_distance
    } else {
        ltp - max_distance < level.price <= ltp
    }
}

/// The levels that survive pruning.
pub open spec fn pruned(s: Seq<BookLevel>, ltp: u64, max_distance: u64, is_ask: bool) -> Seq<
    BookLevel,
> {
    s.filter(|l: BookLevel| in_band(l, ltp, max_distance, is_ask))
}

/// The size that rests at `price`, if the book has that price.
pub open spec fn size_at(s: Seq<BookLevel>, price: u64) -> Option<u64> {
    if exists|i: int| 0 <= i < s.len() && (#[trigger] s[i]).price == price {
        Some(s[choose|i: int| 0 <= i < s.len() && (#[trigger] s[i]).price == price].size)
    } else {
        None
    }
}

proof fn lemma_cheaper_count(s: Seq<BookLevel>, price: u64, k: int)
    requires
        ascending(s),
        0 <= k <= s.len(),
        forall|i: int| 0 <= i < k ==> (#[trigger] s[i]).price < price,
        forall|i: int| k <= i < s.len() ==> (#[trigger] s[i]).price >= price,
    ensures
        cheaper_count(s, price) == k,
    decreases s.len(),
{
    if s.len() > 0 {
        let t = s.drop_last();
        if k == s.len() {
            lemma_cheaper_count(t, price, k - 1);
        } else {
            lemma_cheaper_count(t, price, k);
        }
    }
}

proof fn lemma_size_at(s: Seq<BookLevel>, i: int)
    requires
        ascending(s),
        0 <= i < s.len(),
    ensures
        size_at(s, s[i].price) == Some(s[i].size),
{
    let p = s[i].price;
    let c = choose|c: int| 0 <= c < s.len() && (#[trigger] s[c]).price == p;
    if c < i {
        assert(s[c].price < s[i].price);
    }
    if i < c {
        assert(s[i].price < s[c].price);
    }
}

/// A delta keeps the book in order, sets the size at its own price and
/// leaves every other price as it was.
pub proof fn lemma_with_level(s: Seq<BookLevel>, level: BookLevel)
    requires
        ascending(s),
    ensures
        ascending(with_level(s, level)),
        size_at(with_level(s, level), level.price) == Some(level.size),
        forall|p: u64| p != level.price ==> size_at(with_level(s, level), p) == size_at(s, p),
{
    let k = cheaper_count(s, level.price);
    lemma_cheaper_bounds(s, level.price);
    let r = with_level(s, level);
    let replaced = k < s.len() && s[k].price == level.price;
    assert forall|i: int, j: int| 0 <= i < j < r.len() implies (#[trigger] r[i]).price < (
    #[trigger] r[j]).price by {
        if replaced {
            assert(s[i].price < s[j].price);
        } else {
            let i0 = if i < k { i } else { i - 1 };
            let j0 = if j < k { j } else { j - 1 };
            if i != k && j != k {
                assert(s[i0].price < s[j0].price);
            } else if i == k {
                assert(s[j0].price >= level.price);
                if s[j0].price == level.price {
                    assert(s[k].price <= s[j0].price) by {
                        if k < j0 {
                            assert(s[k].price < s[j0].price);
                        }
                    }
                    assert(s[k].price >= level.price);
                }
            } else {
                assert(s[i0].price < level.price);
            }
        }
    }
    assert(r[k] == level);
    lemma_size_at(r, k);
    assert forall|p: u64| p != level.price implies size_at(r, p) == size_at(s, p) by {
        if exists|i: int| 0 <= i < s.len() && (#[trigger] s[i]).price == p {
            let i = choose|i: int| 0 <= i < s.len() && (#[trigger] s[i]).price == p;
            lemma_size_at(s, i);
            let i1 = if replaced || i < k { i } else { i + 1 };
            assert(r[i1] == s[i]);
            lemma_size_at(r, i1);
        } else {
            assert forall|j: int| 0 <= j < r.len() implies (#[trigger] r[j]).price != p by {
                if replaced {
                    if j != k {
                        assert(r[j] == s[j]);
                    }
                } else {
                    if j < k {
                        assert(r[j] == s[j]);
                    } else if j > k {
                        assert(r[j] == s[j - 1]);
                    }
                }
            }
        }
    }
}

proof fn lemma_cheaper_bounds(s: Seq<BookLevel>, price: u64)
    requires
        ascending(s),
    ensures
        0 <= cheaper_count(s, price) <= s.len(),
        forall|i: int| 0 <= i < cheaper_count(s, price) ==> (#[trigger] s[i]).price < price,
        forall|i: int| cheaper_count(s, price) <= i < s.len() ==> (#[trigger] s[i]).price >= price,
    decreases s.len(),
{
    if s.len() > 0 {
        let t = s.drop_last();
        lemma_cheaper_bounds(t, price);
        let n = s.len() - 1;
        let c = cheaper_count(t, price);
        if s.last().price < price {
            assert forall|i: int| 0 <= i < n implies (#[trigger] s[i]).price < price by {
                assert(s[i].price < s[n].price);
            }
            assert(c == n) by {
                if c < n {
                    assert(t[c].price >= price);
                    assert(s[c].price < s[n].price);
                }
            }
            assert forall|i: int| 0 <= i < n + 1 implies (#[trigger] s[i]).price < price by {
                if i < n {
                    assert(s[i].price < s[n].price);
                }
            }
        } else {
            assert forall|i: int| c <= i < s.len() implies (#[trigger] s[i]).price >= price by {
                if i < n {
                    assert(t[i].price >= price);
                }
            }
            assert forall|i: int| 0 <= i < c implies (#[trigger] s[i]).price < price by {
                assert(t[i].price < price);
            }
        }
    }
}

impl OrderBookSide {
    pub open spec fn wf(&self) -> bool {
        ascending(self@)
    }

    pub fn new() -> (book: OrderBookSide)
        ensures
            book.wf(),
            book@.len() == 0,
    {
        OrderBookSide { levels: Vec::new() }
    }

    pub fn len(&self) -> (n: usize)
        ensures
            n == self@.len(),
    {
        self.levels.len()
    }

    /// Takes one delta into the book.
    pub fn apply(&mut self, level: BookLevel)
        requires
            old(self).wf(),
        ensures
            final(self).wf(),
            final(self)@ == with_level(old(self)@, level),
    {
        let mut k: usize = 0;
        while k < self.levels.len() && self.levels[k].price < level.price
            invariant
                k <= self@.len(),
                self.levels@ == old(self)@,
                forall|i: int| 0 <= i < k ==> (#[trigger] self@[i]).price < level.price,
            decreases self@.len() - k,
        {
            k += 1;
        }
        proof {
            assert forall|i: int| k <= i < self@.len() implies (#[trigger] self@[i]).price
                >= level.price by {
                if k < i {
                    assert(self@[k as int].price < self@[i].price);
                }
            }
            lemma_cheaper_count(self@, level.price, k as int);
            lemma_with_level(self@, level);
        }
        if k < self.levels.len() && self.levels[k].price == level.price {
            let slot = &mut self.levels[k];
            slot.size = level.size;
            assert(self.levels@ =~= old(self)@.update(k as int, level));
        } else {
            self.levels.insert(k, level);
        }
    }

    /// Takes a batch of deltas into the book, in order.
    pub fn extend(&mut self, deltas: &Vec<BookLevel>)
        requires
            old(self).wf(),
        ensures
            final(self).wf(),
            final(self)@ == with_levels(old(self)@, deltas@),
    {
        let mut i: usize = 0;
        while i < deltas.len()
            invariant
                i <= deltas@.len(),
                self.wf(),
                self@ == with_levels(old(self)@, deltas@.take(i as int)),
            decreases deltas@.len() - i,
        {
            assert(deltas@.take(i + 1).drop_last() =~= deltas@.take(i as int));
            self.apply(deltas[i]);
            i += 1;
        }
        assert(deltas@.take(i as int) =~= deltas@);
    }

    /// Drops the levels without size and those outside the band around
    /// the last traded price.
    pub fn prune(&mut self, ltp: u64, max_distance: u64, is_ask: bool)
        requires
            old(self).wf(),
        ensures
            final(self).wf(),
            final(self)@ == pruned(old(self)@, ltp, max_distance, is_ask),
    {
        let ghost keep = |l: BookLevel| in_band(l, ltp, max_distance, is_ask);
        let ghost orig = self@;
        let mut kept: Vec<BookLevel> = Vec::new();
        let mut i: usize = 0;
        assert(orig.take(0).filter(keep) =~= Seq::<BookLevel>::empty());
        while i < self.levels.len()
            invariant
                i <= orig.len(),
                self.levels@ == orig,
                ascending(orig),
                keep == (|l: BookLevel| in_band(l, ltp, max_distance, is_ask)),
                kept@ == orig.take(i as int).filter(keep),
                ascending(kept@),
                forall|a: int, j: int|
                    0 <= a < kept@.len() && i <= j < orig.len() ==> (#[trigger] kept@[a]).price < (
                    #[trigger] orig[j]).price,
            decreases orig.len() - i,
        {
            let level = self.levels[i];
            assert(orig.take(i + 1).drop_last() =~= orig.take(i as int));
            assert(orig.take(i + 1).last() == level);
            reveal(Seq::filter);
            let on_side: bool = if is_ask {
                level.price >= ltp && level.price - ltp < max_distance
            } else {
                level.price <= ltp && ltp - level.price < max_distance
            };
            if level.size > 0 && on_side {
                assert forall|j: int| i < j < orig.len() implies level.price < (
                #[trigger] orig[j]).price by {
                    assert(orig[i as int].price < orig[j].price);
                }
                kept.push(level);
            }
            i += 1;
        }
        assert(orig.take(i as int) =~= orig);
        self.levels = kept;
    }

    /// The lowest price of the side; 0 if the side is empty.
    pub fn lowest(&self) -> (p: u64)
        ensures
            p == if self@.len() == 0 { 0 } else { self@[0].price },
    {
        if self.levels.len() == 0 {
            0
        } else {
            self.levels[0].price
        }
    }

    /// The highest price of the side; 0 if the side is empty.
    pub fn highest(&self) -> (p: u64)
        ensures
            p == if self@.len() == 0 { 0 } else { self@.last().price },
    {
        let n: usize = self.levels.len();
        if n == 0 {
            0
        } else {
            self.levels[n - 1].price
        }
    }
}

/// Half the sum of the best ask and the best bid, rounded down.
pub open spec fn mid_price_of(best_ask: u64, best_bid: u64) -> int {
    (best_ask + best_bid) / 2
}

pub fn mid_price(best_ask: u64, best_bid: u64) -> (mid: u64)
    ensures
        mid == mid_price_of(best_ask, best_bid),
{
    ((best_ask as u128 + best_bid as u128) / 2) as u64
}

} // verus!
