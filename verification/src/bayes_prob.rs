//! A Beta posterior over "an order at this level fills", fed from a sliding
//! window of observations.

use crate::clock::now_ms;
use crate::time_queue::{fresh_entries, TimeQueue};
use vstd::prelude::*;

verus! {

/// One in parts per billion: the unit of every fraction in this crate.
pub const PPB: u64 = 1_000_000_000;

/// Be(a, b): `a` counts successes, `b` failures.
#[derive(Debug, Clone, Copy)]
pub struct BetaDistribution {
    pub a: u64,
    pub b: u64,
}

impl BetaDistribution {
    pub fn new(a: u64, b: u64) -> (d: BetaDistribution)
        ensures
            d.a == a,
            d.b == b,
    {
        BetaDistribution { a, b }
    }

    /// a / (a + b) in parts per billion, rounded down; one half where
    /// nothing has been counted.
    pub open spec fn mean_ppb(self) -> int {
        if self.a + self.b == 0 {
            PPB as int / 2
        } else {
            (self.a * PPB) / (self.a + self.b)
        }
    }

    /// The mean of a Beta distribution is a probability.
    pub proof fn lemma_mean_is_probability(self)
        ensures
            0 <= self.mean_ppb() <= PPB,
            self.a + self.b == 0 ==> self.mean_ppb() == 500_000_000,
            self.a + self.b > 0 && self.b == 0 ==> self.mean_ppb() == PPB,
            self.a == 0 && self.b > 0 ==> self.mean_ppb() == 0,
    {
        let n = self.a + self.b;
        if n > 0 {
            let x = self.a * PPB;
            assert(0 <= x <= n * PPB) by (nonlinear_arith)
                requires
                    x == self.a * PPB,
                    0 <= self.a <= n,
            ;
            assert(0 <= x / n <= PPB) by (nonlinear_arith)
                requires
                    0 <= x <= n * PPB,
                    n > 0,
            ;
            if self.b == 0 {
                assert(x / n == PPB) by (nonlinear_arith)
                    requires
                        x == n * PPB,
                        n > 0,
                ;
            }
            if self.a == 0 {
                assert(x == 0);
                assert(0int / n == 0) by (nonlinear_arith)
                    requires
                        n > 0,
                ;
            }
        }
    }

    /// The mean, in parts per billion.
    pub fn mean(&self) -> (m: u64)
        ensures
            m == self.mean_ppb(),
            m <= PPB,
            self.a + self.b == 0 ==> m == 500_000_000,
    {
        proof {
            self.lemma_mean_is_probability();
        }
        let n: u128 = self.a as u128 + self.b as u128;
        if n == 0 {
            PPB / 2
        } else {
            assert(self.a * PPB <= u64::MAX * PPB) by (nonlinear_arith)
                requires
                    self.a <= u64::MAX,
            ;
            let x: u128 = self.a as u128 * PPB as u128;
            (x / n) as u64
        }
    }
}

/// One observation: `trials` attempts, of which `successes` succeeded.
#[derive(Debug, Clone, Copy)]
pub struct Observation {
    pub trials: u64,
    pub successes: u64,
}

/// The attempts of all observations in `s`.
pub open spec fn total_trials(s: Seq<(u64, Observation)>) -> nat
    decreases s.len(),
{
    if s.len() == 0 {
        0
    } else {
        total_trials(s.drop_last()) + s.last().1.trials as nat
    }
}

/// The successes of all observations in `s`.
pub open spec fn total_successes(s: Seq<(u64, Observation)>) -> nat
    decreases s.len(),
{
    if s.len() == 0 {
        0
    } else {
        total_successes(s.drop_last()) + s.last().1.successes as nat
    }
}

/// No observation counts more successes than attempts.
pub open spec fn observations_valid(s: Seq<(u64, Observation)>) -> bool {
    forall|i: int| 0 <= i < s.len() ==> (#[trigger] s[i]).1.successes <= s[i].1.trials
}

proof fn lemma_totals_push(s: Seq<(u64, Observation)>, e: (u64, Observation))
    ensures
        total_trials(s.push(e)) == total_trials(s) + e.1.trials,
        total_successes(s.push(e)) == total_successes(s) + e.1.successes,
{
    assert(s.push(e).drop_last() =~= s);
}

proof fn lemma_totals_ordered(s: Seq<(u64, Observation)>)
    requires
        observations_valid(s),
    ensures
        total_successes(s) <= total_trials(s),
    decreases s.len(),
{
    if s.len() > 0 {
        lemma_totals_ordered(s.drop_last());
    }
}

proof fn lemma_totals_take(s: Seq<(u64, Observation)>, i: int)
    requires
        0 <= i <= s.len(),
        observations_valid(s),
    ensures
        total_successes(s.take(i)) <= total_successes(s),
        total_trials(s.take(i)) - total_successes(s.take(i)) <= total_trials(s) - total_successes(
            s,
        ),
    decreases s.len(),
{
    if i == s.len() {
        assert(s.take(i) =~= s);
    } else {
        lemma_totals_take(s.drop_last(), i);
        assert(s.drop_last().take(i) =~= s.take(i));
    }
}

/// Evidence that leaves the window only lowers the totals.
proof fn lemma_totals_fresh(s: Seq<(u64, Observation)>, window: u64, now: u64)
    requires
        observations_valid(s),
    ensures
        total_trials(fresh_entries(s, window, now)) <= total_trials(s),
        total_successes(fresh_entries(s, window, now)) <= total_successes(s),
        total_trials(fresh_entries(s, window, now)) - total_successes(
            fresh_entries(s, window, now),
        ) <= total_trials(s) - total_successes(s),
        observations_valid(fresh_entries(s, window, now)),
    decreases s.len(),
{
    reveal(Seq::filter);
    let keep = |e: (u64, Observation)| crate::time_queue::age_ms(now, e.0) <= window;
    if s.len() > 0 {
        let t = s.drop_last();
        lemma_totals_fresh(t, window, now);
        assert(fresh_entries(t, window, now) == t.filter(keep));
        if keep(s.last()) {
            lemma_totals_push(t.filter(keep), s.last());
            assert(s.filter(keep) == t.filter(keep).push(s.last()));
        } else {
            assert(s.filter(keep) == t.filter(keep));
        }
    }
}

/// Evidence that is older than the window no longer counts: once every
/// observation has left the window, the totals are those of the newest
/// observation alone, and the posterior is the prior plus that one.
pub proof fn lemma_evidence_ages_out(
    observations: Seq<(u64, Observation)>,
    window: u64,
    now: u64,
    newest: Observation,
)
    requires
        forall|i: int|
            0 <= i < observations.len() ==> crate::time_queue::age_ms(
                now,
                (#[trigger] observations[i]).0,
            ) > window,
    ensures
        fresh_entries(observations, window, now).len() == 0,
        total_trials(fresh_entries(observations, window, now).push((now, newest)))
            == newest.trials,
        total_successes(fresh_entries(observations, window, now).push((now, newest)))
            == newest.successes,
    decreases observations.len(),
{
    reveal(Seq::filter);
    let keep = |e: (u64, Observation)| crate::time_queue::age_ms(now, e.0) <= window;
    if observations.len() > 0 {
        let rest = observations.drop_last();
        assert forall|i: int| 0 <= i < rest.len() implies crate::time_queue::age_ms(
            now,
            (#[trigger] rest[i]).0,
        ) > window by {
            assert(rest[i] == observations[i]);
        }
        lemma_evidence_ages_out(rest, window, now, newest);
        assert(!keep(observations.last()));
        assert(observations.filter(keep) == rest.filter(keep));
    }
    let fresh = fresh_entries(observations, window, now);
    assert(fresh.len() == 0);
    lemma_totals_push(fresh, (now, newest));
}

/// The estimate of one level's fill probability. The posterior is the prior
/// plus what the window holds now, never a running total: an observation
/// that has left the window no longer counts.
#[derive(Debug, Clone)]
pub struct BayesProb {
    distribution: BetaDistribution,
    prior: BetaDistribution,
    time_data: TimeQueue<Observation>,
}

impl BayesProb {
    /// The observations in the window, oldest first, each with its instant.
    pub closed spec fn observations(&self) -> Seq<(u64, Observation)> {
        self.time_data@
    }

    /// The length of the window, in milliseconds.
    pub closed spec fn window(&self) -> u64 {
        self.time_data.window()
    }

    pub closed spec fn prior(&self) -> BetaDistribution {
        self.prior
    }

    pub closed spec fn posterior(&self) -> BetaDistribution {
        self.distribution
    }

    /// The posterior is the prior plus the totals of the window.
    pub open spec fn wf(&self) -> bool {
        &&& observations_valid(self.observations())
        &&& self.posterior().a == self.prior().a + total_successes(self.observations())
        &&& self.posterior().b == self.prior().b + total_trials(self.observations())
            - total_successes(self.observations())
    }

    /// What `update_at` leaves in the window.
    pub open spec fn observations_after(&self, now: u64, n: u64, r: u64) -> Seq<
        (u64, Observation),
    > {
        fresh_entries(self.observations(), self.window(), now).push((now, Observation { trials: n, successes: r }))
    }

    pub fn new(prior_distribution: BetaDistribution, retain_duration: u64) -> (p: BayesProb)
        ensures
            p.wf(),
            p.prior() == prior_distribution,
            p.posterior() == prior_distribution,
            p.observations() == Seq::<(u64, Observation)>::empty(),
            p.window() == retain_duration,
    {
        BayesProb {
            distribution: prior_distribution,
            prior: prior_distribution,
            time_data: TimeQueue::new(retain_duration),
        }
    }

    /// The current posterior.
    pub fn distribution(&self) -> (d: BetaDistribution)
        ensures
            d == self.posterior(),
    {
        self.distribution
    }

    /// Whether `update` and `update_at` accept `n` attempts with `r`
    /// successes: no more successes than attempts, and counts that stay
    /// within 64 bits.
    pub fn accepts(&self, n: u64, r: u64) -> (ok: bool)
        ensures
            ok == (r <= n && self.posterior().a + r <= u64::MAX && self.posterior().b + (n - r)
                <= u64::MAX),
    {
        r <= n && r <= u64::MAX - self.distribution.a && n - r <= u64::MAX - self.distribution.b
    }

    /// Records `n` attempts with `r` successes at the instant `now`: drops
    /// what has left the window, appends the observation, and recomputes the
    /// posterior from the prior and the window.
    pub fn update_at(&mut self, now: u64, n: u64, r: u64)
        requires
            old(self).wf(),
            r <= n,
            old(self).posterior().a + r <= u64::MAX,
            old(self).posterior().b + (n - r) <= u64::MAX,
        ensures
            final(self).wf(),
            final(self).prior() == old(self).prior(),
            final(self).window() == old(self).window(),
            final(self).observations() == old(self).observations_after(now, n, r),
    {
        let ghost before = self.time_data@;
        self.time_data.retain_at(now);
        let ghost kept = self.time_data@;
        self.time_data.push_at(now, Observation { trials: n, successes: r });
        let ghost all = self.time_data@;
        proof {
            lemma_totals_fresh(before, self.time_data.window(), now);
            lemma_totals_push(kept, (now, Observation { trials: n, successes: r }));
            lemma_totals_ordered(before);
            lemma_totals_ordered(kept);
            assert(observations_valid(all));
            lemma_totals_ordered(all);
        }
        let data = self.time_data.data();
        let mut total_f: u64 = 0;
        let mut total_r: u64 = 0;
        let mut i: usize = 0;
        while i < data.len()
            invariant
                i <= data@.len(),
                data@ == all,
                observations_valid(all),
                total_f == total_trials(all.take(i as int)) - total_successes(
                    all.take(i as int),
                ),
                total_r == total_successes(all.take(i as int)),
                total_trials(all) - total_successes(all) <= u64::MAX,
                total_successes(all) <= u64::MAX,
            decreases data@.len() - i,
        {
            proof {
                lemma_totals_take(all, i + 1);
                assert(all.take(i + 1).drop_last() =~= all.take(i as int));
            }
            total_f = total_f + (data[i].1.trials - data[i].1.successes);
            total_r = total_r + data[i].1.successes;
            i += 1;
        }
        assert(all.take(i as int) =~= all);
        self.distribution = BetaDistribution::new(
            self.prior.a + total_r,
            self.prior.b + total_f,
        );
    }

    /// Records `n` attempts with `r` successes at the clock's reading.
    pub fn update(&mut self, n: u64, r: u64)
        requires
            old(self).wf(),
            r <= n,
            old(self).posterior().a + r <= u64::MAX,
            old(self).posterior().b + (n - r) <= u64::MAX,
        ensures
            final(self).wf(),
            final(self).prior() == old(self).prior(),
            final(self).window() == old(self).window(),
            exists|now: u64|
                final(self).observations() == #[trigger] old(self).observations_after(now, n, r),
    {
        let now: u64 = now_ms();
        self.update_at(now, n, r);
    }

    /// The posterior mean in parts per billion: between 0 and `PPB`, and
    /// exactly one half while the posterior has counted nothing.
    pub fn calc_average(&self) -> (m: u64)
        ensures
            m == self.posterior().mean_ppb(),
            m <= PPB,
            self.posterior().a + self.posterior().b == 0 ==> m == 500_000_000,
    {
        self.distribution.mean()
    }
}

} // verus!
