//! A buffer that keeps only what arrived within a fixed duration.
//!
//! Arrival is stamped with the wall clock. If that clock is set back,
//! entries stay longer than the duration; if it is set forward, fresh
//! entries go early. `push_at`, `extend_at` and `retain_at` take the
//! instant from the caller, who may measure it as he sees fit.

use crate::clock::now_ms;
use vstd::prelude::*;

verus! {

/// How long ago `at` lies, seen from `now`; an instant in the future has age 0.
pub open spec fn age_ms(now: u64, at: u64) -> nat {
    if now >= at {
        (now - at) as nat
    } else {
        0
    }
}

/// The entries of `s` whose age at `now` is at most `window`, in their order.
pub open spec fn fresh_entries<T>(s: Seq<(u64, T)>, window: u64, now: u64) -> Seq<(u64, T)> {
    s.filter(|e: (u64, T)| age_ms(now, e.0) <= window)
}

/// The items of `items`, each paired with the instant `now`.
pub open spec fn stamped<T>(items: Seq<T>, now: u64) -> Seq<(u64, T)> {
    items.map_values(|item: T| (now, item))
}

/// The same items, last first.
fn reversed<T>(v: Vec<T>) -> (r: Vec<T>)
    ensures
        r@ == v@.reverse(),
{
    let mut v = v;
    let mut r: Vec<T> = Vec::new();
    let ghost orig = v@;
    while v.len() > 0
        invariant
            v@.len() + r@.len() == orig.len(),
            v@ == orig.take(v@.len() as int),
            forall|k: int| 0 <= k < r@.len() ==> r@[k] == orig[orig.len() - 1 - k],
        decreases v@.len(),
    {
        let e = v.pop().unwrap();
        r.push(e);
    }
    assert(r@ =~= orig.reverse());
    r
}

/// Entries stamped with their arrival instant, oldest first.
#[derive(Debug, Clone)]
pub struct TimeQueue<T: Clone> {
    duration: u64,
    data: Vec<(u64, T)>,
}

impl<T: Clone> View for TimeQueue<T> {
    type V = Seq<(u64, T)>;

    closed spec fn view(&self) -> Seq<(u64, T)> {
        self.data@
    }
}

impl<T: Clone> TimeQueue<T> {
    /// The length of the window, in milliseconds.
    pub closed spec fn window(&self) -> u64 {
        self.duration
    }

    pub fn new(duration: u64) -> (q: Self)
        ensures
            q@ == Seq::<(u64, T)>::empty(),
            q.window() == duration,
    {
        Self { duration, data: Vec::new() }
    }

    pub fn duration(&self) -> (d: u64)
        ensures
            d == self.window(),
    {
        self.duration
    }

    pub fn data(&self) -> (d: &Vec<(u64, T)>)
        ensures
            d@ == self@,
    {
        &self.data
    }

    /// Appends `item` with the arrival instant `now`.
    pub fn push_at(&mut self, now: u64, item: T)
        ensures
            final(self)@ == old(self)@.push((now, item)),
            final(self).window() == old(self).window(),
    {
        self.data.push((now, item));
    }

    /// Appends `item`, stamped with the clock's reading.
    pub fn push(&mut self, item: T)
        ensures
            final(self)@.len() == old(self)@.len() + 1,
            final(self)@.drop_last() == old(self)@,
            final(self)@.last().1 == item,
            final(self).window() == old(self).window(),
    {
        let now: u64 = now_ms();
        self.push_at(now, item);
        assert(self@.drop_last() =~= old(self)@);
    }

    /// Appends every item of `items`, in order, all with the arrival instant `now`.
    pub fn extend_at(&mut self, now: u64, items: Vec<T>)
        ensures
            final(self)@ == old(self)@ + stamped(items@, now),
            final(self).window() == old(self).window(),
    {
        let ghost want = stamped(items@, now);
        let mut stack = reversed(items);
        let ghost n = stack@.len();
        while stack.len() > 0
            invariant
                n == items@.len(),
                stack@.len() <= n,
                stack@ == items@.reverse().take(stack@.len() as int),
                self.data@ == old(self)@ + want.take(n - stack@.len()),
                want == stamped(items@, now),
                self.duration == old(self).duration,
            decreases stack@.len(),
        {
            let ghost k = n - stack@.len();
            let item = stack.pop().unwrap();
            assert(item == items@[k]);
            self.data.push((now, item));
            assert(want.take(k + 1) =~= want.take(k).push((now, item)));
            assert(self.data@ =~= old(self)@ + want.take(k + 1));
        }
        assert(want.take(n as int) =~= want);
    }

    /// Appends every item of `items`, in order, all stamped with one reading of the clock.
    pub fn extend(&mut self, items: Vec<T>)
        ensures
            exists|now: u64| final(self)@ == old(self)@ + #[trigger] stamped(items@, now),
            final(self).window() == old(self).window(),
    {
        let now: u64 = now_ms();
        self.extend_at(now, items);
    }

    /// A copy of the oldest item.
    pub fn first(&self) -> (r: Option<T>)
        ensures
            self@.len() == 0 <==> r is None,
            r matches Some(v) ==> cloned(self@[0].1, v),
    {
        if self.data.len() == 0 {
            None
        } else {
            Some(self.data[0].1.clone())
        }
    }

    /// A copy of the newest item.
    pub fn last(&self) -> (r: Option<T>)
        ensures
            self@.len() == 0 <==> r is None,
            r matches Some(v) ==> cloned(self@.last().1, v),
    {
        let n: usize = self.data.len();
        if n == 0 {
            None
        } else {
            Some(self.data[n - 1].1.clone())
        }
    }

    /// Copies of all items, oldest first. The queue is left as it was.
    pub fn get_data(&self) -> (r: Vec<T>)
        ensures
            r@.len() == self@.len(),
            forall|i: int| 0 <= i < r@.len() ==> cloned(#[trigger] self@[i].1, r@[i]),
    {
        let mut r: Vec<T> = Vec::new();
        let mut i: usize = 0;
        while i < self.data.len()
            invariant
                i <= self.data@.len(),
                r@.len() == i,
                forall|k: int| 0 <= k < i ==> cloned(#[trigger] self.data@[k].1, r@[k]),
            decreases self.data@.len() - i,
        {
            r.push(self.data[i].1.clone());
            i += 1;
        }
        r
    }

    /// Drops every entry whose age at `now` exceeds the window. What stays
    /// keeps its order, and each entry that stays is at most one window old.
    pub fn retain_at(&mut self, now: u64)
        ensures
            final(self)@ == fresh_entries(old(self)@, old(self).window(), now),
            final(self).window() == old(self).window(),
            forall|i: int|
                0 <= i < final(self)@.len() ==> age_ms(now, #[trigger] final(self)@[i].0)
                    <= old(self).window(),
            final(self)@.len() <= old(self)@.len(),
    {
        let window: u64 = self.duration;
        let ghost orig = self.data@;
        let ghost keep = |e: (u64, T)| age_ms(now, e.0) <= window;
        let mut taken: Vec<(u64, T)> = Vec::new();
        core::mem::swap(&mut taken, &mut self.data);
        let mut stack = reversed(taken);
        let ghost n = orig.len();
        assert(orig.take(0).filter(keep) =~= Seq::<(u64, T)>::empty());
        while stack.len() > 0
            invariant
                n == orig.len(),
                stack@.len() <= n,
                stack@ == orig.reverse().take(stack@.len() as int),
                self.data@ == orig.take(n - stack@.len()).filter(keep),
                keep == (|e: (u64, T)| age_ms(now, e.0) <= window),
                self.duration == window,
                forall|i: int|
                    0 <= i < self.data@.len() ==> age_ms(now, #[trigger] self.data@[i].0) <= window,
                self.data@.len() <= n - stack@.len(),
            decreases stack@.len(),
        {
            let ghost k = n - stack@.len();
            let e = stack.pop().unwrap();
            assert(e == orig[k]);
            assert(orig.take(k + 1).drop_last() =~= orig.take(k));
            assert(orig.take(k + 1).last() == e);
            let fresh: bool = now < e.0 || now - e.0 <= window;
            assert(fresh == keep(e));
            if fresh {
                self.data.push(e);
            }
            reveal(Seq::filter);
            assert(self.data@ =~= orig.take(k + 1).filter(keep));
        }
        assert(orig.take(n as int) =~= orig);
    }

    /// Drops every entry that is older than the window at the clock's reading.
    pub fn retain(&mut self)
        ensures
            exists|now: u64|
                final(self)@ == #[trigger] fresh_entries(old(self)@, old(self).window(), now),
            final(self).window() == old(self).window(),
            final(self)@.len() <= old(self)@.len(),
    {
        let now: u64 = now_ms();
        self.retain_at(now);
    }

    pub fn len(&self) -> (n: usize)
        ensures
            n == self@.len(),
    {
        self.data.len()
    }

    pub fn is_empty(&self) -> (b: bool)
        ensures
            b <==> self@.len() == 0,
    {
        self.data.len() == 0
    }
}

} // verus!
