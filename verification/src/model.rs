//! The values the engine works on: positions, orders, spread levels and
//! the configuration.

use crate::bayes_prob::PPB;
use crate::util::str_eq;
use std::cmp::Ordering;
use std::str::FromStr;
use vstd::arithmetic::div_mod::{lemma_basic_div, lemma_fundamental_div_mod, lemma_mod_pos_bound};
use vstd::arithmetic::power::{lemma0_pow, lemma1_pow, lemma_pow_increases, lemma_pow_positive, pow};
use vstd::prelude::*;

verus! {

/// Size units in one coin: a size is a whole number of 10^-8 coin.
pub const SIZE_SCALE: u64 = 100_000_000;

/// The largest price, in yen, that the pricing and the expected-value
/// arithmetic accept.
pub const MAX_PRICE: u64 = 1_000_000_000_000;

/// The largest volatility, in yen, that the expected-value arithmetic accepts.
pub const MAX_VOLATILITY: u64 = 100_000_000_000_000;

/// The largest fraction, in parts per billion, that the engine accepts for a
/// coefficient: one thousand.
pub const MAX_FACTOR: u64 = 1_000_000_000_000;

/// Long and short exposure, tracked side by side and never netted: both
/// sides may be open at once. Sizes are in size units, open prices in yen.
#[derive(Debug, Clone, Copy)]
pub struct Position {
    pub long_size: u64,
    pub short_size: u64,
    pub long_open_price: u64,
    pub short_open_price: u64,
}

impl Position {
    /// The flat position.
    pub open spec fn zero() -> Position {
        Position { long_size: 0, short_size: 0, long_open_price: 0, short_open_price: 0 }
    }

    pub fn new() -> (p: Position)
        ensures
            p == Position::zero(),
    {
        Position { long_size: 0, short_size: 0, long_open_price: 0, short_open_price: 0 }
    }
}

impl Default for Position {
    fn default() -> (p: Position)
        ensures
            p == Position::zero(),
    {
        Position::new()
    }
}

#[allow(clippy::upper_case_acronyms)]
#[derive(Debug, Clone, Copy, PartialEq, Eq, Structural)]
pub enum OrderSide {
    Unknown,
    BUY,
    SELL,
}

impl OrderSide {
    /// The side's name on the wire.
    pub open spec fn name(self) -> Seq<char> {
        match self {
            OrderSide::BUY => "BUY"@,
            OrderSide::SELL => "SELL"@,
            OrderSide::Unknown => "Unknown"@,
        }
    }

    /// The side that a name stands for; only BUY and SELL have one.
    pub open spec fn named(s: Seq<char>) -> Option<OrderSide> {
        if s == "BUY"@ {
            Some(OrderSide::BUY)
        } else if s == "SELL"@ {
            Some(OrderSide::SELL)
        } else {
            None
        }
    }

    pub fn to_string(&self) -> (s: String)
        ensures
            s@ == self.name(),
    {
        match self {
            OrderSide::BUY => "BUY".to_owned(),
            OrderSide::SELL => "SELL".to_owned(),
            OrderSide::Unknown => "Unknown".to_owned(),
        }
    }

    pub fn parse(s: &str) -> (side: Option<OrderSide>)
        ensures
            side == OrderSide::named(s@),
    {
        if str_eq(s, "BUY") {
            Some(OrderSide::BUY)
        } else if str_eq(s, "SELL") {
            Some(OrderSide::SELL)
        } else {
            None
        }
    }

    /// A side that can be placed reads back from its own name.
    pub proof fn lemma_name_round_trip(self)
        requires
            self != OrderSide::Unknown,
        ensures
            OrderSide::named(self.name()) == Some(self),
    {
        reveal_strlit("BUY");
        reveal_strlit("SELL");
        assert("BUY"@.len() == 3);
        assert("SELL"@.len() == 4);
    }
}

impl FromStr for OrderSide {
    type Err = ();

    /// The value that the name stands for, or an error if it stands for none.
    fn from_str(s: &str) -> (r: Result<Self, Self::Err>)
        ensures
            r == match OrderSide::named(s@) {
                Some(value) => Ok::<OrderSide, ()>(value),
                None => Err(()),
            },
    {
        match OrderSide::parse(s) {
            Some(side) => Ok(side),
            None => Err(()),
        }
    }
}

/// An order resting at the exchange, with the market it was sent into.
#[derive(Debug, Clone)]
pub struct OrderInfo {
    /// Limit price, yen.
    pub price: u64,
    /// Size units.
    pub size: u64,
    pub side: OrderSide,
    /// Instant of submission.
    pub timestamp: u64,
    pub is_close: bool,
    pub mid_price: u64,
    pub t_optimal_ms: u64,
    /// Volatility as a fraction of the mid price, parts per billion.
    pub sigma_1s: u64,
    /// The level's relative spread, parts per billion.
    pub spread_pct: u64,
    pub level: u32,
    /// Fill probability of the level, parts per billion.
    pub p_fill: u64,
    /// Scaled expected value of the chosen pair.
    pub best_ev: i128,
    pub single_leg_ev: i128,
}

#[derive(Debug, Clone)]
pub struct OrderOutcome {
    pub side: OrderSide,
    pub filled: bool,
    pub is_close: bool,
    pub level: u32,
}

/// A relative spread written as `base ^ exp * rate`. Levels of one grid
/// share base and exponent and are ordered by their rate.
#[derive(Debug, Clone, Copy, PartialEq, Eq, Structural)]
pub struct FloatingExp {
    pub base: u64,
    pub exp: i32,
    pub rate: u64,
}

impl FloatingExp {
    /// `base ^ exp * rate` in parts per billion, rounded down.
    pub open spec fn value_ppb(&self) -> int {
        if self.exp >= 0 {
            self.rate * PPB * pow(self.base as int, self.exp as nat)
        } else {
            (self.rate * PPB) / pow(self.base as int, (-self.exp) as nat)
        }
    }

    /// The value exists (no division by a power of zero) and fits 64 bits.
    pub open spec fn representable(&self) -> bool {
        &&& self.exp < 0 ==> self.base > 0
        &&& self.value_ppb() <= u64::MAX
    }

    /// A value is never negative.
    pub proof fn lemma_value_nonnegative(&self)
        requires
            self.exp < 0 ==> self.base > 0,
        ensures
            self.value_ppb() >= 0,
    {
        let e: nat = if self.exp >= 0 {
            self.exp as nat
        } else {
            (-self.exp) as nat
        };
        let p = pow(self.base as int, e);
        if self.base > 0 {
            lemma_pow_positive(self.base as int, e);
        } else if e > 0 {
            lemma0_pow(e);
        } else {
            reveal_with_fuel(pow, 1);
        }
        assert(p >= 0);
        let n = self.rate * PPB;
        assert(n >= 0) by (nonlinear_arith)
            requires
                n == self.rate * PPB,
                self.rate >= 0,
                PPB >= 0,
        ;
        if self.exp >= 0 {
            assert(n * p >= 0) by (nonlinear_arith)
                requires
                    n >= 0,
                    p >= 0,
            ;
        } else {
            vstd::arithmetic::div_mod::lemma_div_pos_is_pos(n, p);
        }
    }

    pub fn new(base: u64, exp: i32, rate: u64) -> (l: FloatingExp)
        ensures
            l == (FloatingExp { base, exp, rate }),
    {
        FloatingExp { base, exp, rate }
    }

    /// The value in parts per billion, or `None` where it is not representable.
    pub fn try_calc(&self) -> (v: Option<u64>)
        ensures
            v is Some <==> self.representable(),
            v matches Some(x) ==> x == self.value_ppb(),
    {
        assert(self.rate * PPB <= u64::MAX * PPB) by (nonlinear_arith)
            requires
                self.rate <= u64::MAX,
        ;
        let n: u128 = self.rate as u128 * PPB as u128;
        let base: u128 = self.base as u128;
        if self.exp >= 0 {
            let e: u32 = self.exp as u32;
            if n == 0 {
                assert(0 * pow(self.base as int, e as nat) == 0) by (nonlinear_arith);
                return Some(0);
            }
            if self.base == 0 && e > 0 {
                proof {
                    lemma0_pow(e as nat);
                }
                return Some(0);
            }
            if self.base <= 1 {
                proof {
                    lemma1_pow(e as nat);
                    reveal_with_fuel(pow, 1);
                }
                return if n > u64::MAX as u128 {
                    None
                } else {
                    Some(n as u64)
                };
            }
            if n > u64::MAX as u128 {
                proof {
                    lemma_pow_positive(self.base as int, e as nat);
                    assert(n * pow(self.base as int, e as nat) >= n) by (nonlinear_arith)
                        requires
                            n >= 0,
                            pow(self.base as int, e as nat) >= 1,
                    ;
                }
                return None;
            }
            let mut acc: u128 = n;
            let mut k: u32 = 0;
            proof {
                reveal_with_fuel(pow, 1);
            }
            while k < e
                invariant
                    k <= e,
                    e == self.exp,
                    base == self.base,
                    base >= 2,
                    n == self.rate * PPB,
                    acc == n * pow(self.base as int, k as nat),
                    acc <= u64::MAX,
                decreases e - k,
            {
                proof {
                    reveal_with_fuel(pow, 1);
                    assert(n * (base * pow(base as int, k as nat)) == (n * pow(
                        base as int,
                        k as nat,
                    )) * base) by (nonlinear_arith);
                    assert(acc * base <= u64::MAX * u64::MAX) by (nonlinear_arith)
                        requires
                            acc <= u64::MAX,
                            base <= u64::MAX,
                    ;
                }
                let next: u128 = acc * base;
                assert(next == n * pow(self.base as int, (k + 1) as nat));
                if next > u64::MAX as u128 {
                    proof {
                        lemma_pow_increases(self.base as nat, (k + 1) as nat, e as nat);
                        assert(n * pow(self.base as int, e as nat) >= n * pow(
                            self.base as int,
                            (k + 1) as nat,
                        )) by (nonlinear_arith)
                            requires
                                n >= 0,
                                pow(self.base as int, e as nat) >= pow(
                                    self.base as int,
                                    (k + 1) as nat,
                                ),
                        ;
                    }
                    return None;
                }
                acc = next;
                k = k + 1;
            }
            Some(acc as u64)
        } else {
            if self.base == 0 {
                return None;
            }
            let e: u32 = (-(self.exp as i64)) as u32;
            proof {
                lemma_pow_positive(self.base as int, e as nat);
            }
            if n == 0 {
                assert(0int / pow(self.base as int, e as nat) == 0) by (nonlinear_arith)
                    requires
                        pow(self.base as int, e as nat) > 0,
                ;
                return Some(0);
            }
            let mut d: u128 = 1;
            let mut k: u32 = 0;
            proof {
                reveal_with_fuel(pow, 1);
            }
            if self.base == 1 {
                proof {
                    lemma1_pow(e as nat);
                }
                k = e;
            }
            while k < e
                invariant
                    k <= e,
                    e == -self.exp,
                    base == self.base,
                    base >= 1,
                    n == self.rate * PPB,
                    n >= 1,
                    d == pow(self.base as int, k as nat),
                    1 <= d <= n,
                decreases e - k,
            {
                if d > n / base {
                    proof {
                        lemma_fundamental_div_mod(n as int, base as int);
                        lemma_mod_pos_bound(n as int, base as int);
                        let q = n as int / base as int;
                        assert(d * base >= (q + 1) * base) by (nonlinear_arith)
                            requires
                                d >= q + 1,
                                base >= 1,
                        ;
                        assert((q + 1) * base == base * q + base) by (nonlinear_arith);
                        reveal_with_fuel(pow, 1);
                        assert(pow(self.base as int, (k + 1) as nat) == base * d);
                        assert(base * d == d * base) by (nonlinear_arith);
                        lemma_pow_increases(self.base as nat, (k + 1) as nat, e as nat);
                        lemma_basic_div(n as int, pow(self.base as int, e as nat));
                    }
                    return Some(0);
                }
                proof {
                    reveal_with_fuel(pow, 1);
                    lemma_fundamental_div_mod(n as int, base as int);
                    lemma_mod_pos_bound(n as int, base as int);
                    let q = n as int / base as int;
                    assert(1 <= d * base) by (nonlinear_arith)
                        requires
                            d >= 1,
                            base >= 1,
                    ;
                    assert(d * base <= q * base) by (nonlinear_arith)
                        requires
                            d <= q,
                            base >= 1,
                    ;
                    assert(q * base == base * q) by (nonlinear_arith);
                    assert(base * d == d * base) by (nonlinear_arith);
                }
                d = d * base;
                k = k + 1;
            }
            let v: u128 = n / d;
            if v > u64::MAX as u128 {
                None
            } else {
                Some(v as u64)
            }
        }
    }

    /// The value in parts per billion.
    pub fn calc(&self) -> (v: u64)
        requires
            self.representable(),
        ensures
            v == self.value_ppb(),
    {
        match self.try_calc() {
            Some(v) => v,
            None => 0,
        }
    }
}

impl PartialOrd for FloatingExp {
    /// Levels are ordered by their rate.
    fn partial_cmp(&self, other: &Self) -> (r: Option<Ordering>) {
        if self.rate < other.rate {
            Some(Ordering::Less)
        } else if self.rate > other.rate {
            Some(Ordering::Greater)
        } else {
            Some(Ordering::Equal)
        }
    }
}

impl vstd::std_specs::cmp::PartialOrdSpecImpl for FloatingExp {
    open spec fn obeys_partial_cmp_spec() -> bool {
        true
    }

    open spec fn partial_cmp_spec(&self, other: &Self) -> Option<Ordering> {
        if self.rate < other.rate {
            Some(Ordering::Less)
        } else if self.rate > other.rate {
            Some(Ordering::Greater)
        } else {
            Some(Ordering::Equal)
        }
    }
}

impl Default for FloatingExp {
    /// One hundred-thousandth: 10^-5 * 1.
    fn default() -> (l: FloatingExp)
        ensures
            l == (FloatingExp { base: 10, exp: -5i32, rate: 1 }),
    {
        FloatingExp { base: 10, exp: -5, rate: 1 }
    }
}

pub fn default_log_dir() -> (dir: String)
    ensures
        dir@ == "logs"@,
{
    "logs".to_owned()
}

pub fn default_true() -> (b: bool)
    ensures
        b,
{
    true
}

/// One half.
pub fn default_alpha() -> (alpha: u64)
    ensures
        alpha == 500_000_000,
{
    500_000_000
}

pub fn default_execution_retain_ms() -> (ms: u64)
    ensures
        ms == 5000,
{
    5000
}

pub fn default_t_optimal_min_ms() -> (ms: u64)
    ensures
        ms == 2000,
{
    2000
}

pub fn default_t_optimal_max_ms() -> (ms: u64)
    ensures
        ms == 30000,
{
    30000
}

/// One half.
pub fn default_close_spread_factor() -> (factor: u64)
    ensures
        factor == 500_000_000,
{
    500_000_000
}

/// Five yen, in thousandths of a yen.
pub fn default_stop_loss_jpy() -> (loss: u64)
    ensures
        loss == 5000,
{
    5000
}

/// The recognised options.
#[derive(Debug, Clone)]
pub struct BotConfig {
    /// Lifetime of an order before the optimal lifetime is known, ms.
    pub order_cancel_ms: u64,
    /// Pause between two decision cycles, ms.
    pub order_interval_ms: u64,
    /// Exponent of the size taper, parts per billion.
    pub position_ratio: u64,
    /// Smallest order, size units.
    pub min_lot: u64,
    /// Largest order, size units.
    pub max_lot: u64,
    /// Largest gross position per side, size units.
    pub max_position: u64,
    pub log_dir: String,
    pub trade_log_enabled: bool,
    pub metrics_log_enabled: bool,
    /// Risk aversion, parts per billion.
    pub alpha: u64,
    /// How long an execution stays on the tape, ms.
    pub execution_retain_ms: u64,
    pub t_optimal_min_ms: u64,
    pub t_optimal_max_ms: u64,
    /// Share of the spread that a closing order keeps, parts per billion.
    pub close_spread_factor: u64,
    /// Loss at which the position is closed at market, thousandths of a yen;
    /// zero switches the stop-loss off.
    pub stop_loss_jpy: u64,
}

} // verus!
