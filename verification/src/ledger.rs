//! The position ledger: what the exchange reports, line by line, summed
//! into gross long and short exposure.

use crate::model::{OrderSide, Position};
use vstd::arithmetic::div_mod::{lemma_div_is_ordered, lemma_div_multiples_vanish, lemma_div_pos_is_pos};
use vstd::prelude::*;

verus! {

/// One open position as the exchange lists it.
#[derive(Debug, Clone, Copy)]
pub struct PositionLine {
    pub side: OrderSide,
    /// Size units.
    pub size: u64,
    /// Open price, yen.
    pub price: u64,
}

impl PositionLine {
    /// A line counts as long if it was bought; every other line is short.
    pub open spec fn is_long(self) -> bool {
        self.side == OrderSide::BUY
    }
}

/// The size of all lines on one side.
pub open spec fn side_total(lines: Seq<PositionLine>, long: bool) -> nat
    decreases lines.len(),
{
    if lines.len() == 0 {
        0
    } else {
        side_total(lines.drop_last(), long) + if lines.last().is_long() == long {
            lines.last().size as nat
        } else {
            0
        }
    }
}

/// Price times size, summed over all lines on one side.
pub open spec fn side_notional(lines: Seq<PositionLine>, long: bool) -> nat
    decreases lines.len(),
{
    if lines.len() == 0 {
        0
    } else {
        side_notional(lines.drop_last(), long) + if lines.last().is_long() == long {
            (lines.last().price * lines.last().size) as nat
        } else {
            0
        }
    }
}

/// The size-weighted open price of one side, rounded down; 0 for an empty side.
pub open spec fn side_open_price(lines: Seq<PositionLine>, long: bool) -> nat {
    if side_total(lines, long) == 0 {
        0
    } else {
        side_notional(lines, long) / side_total(lines, long)
    }
}

/// The position that a listing amounts to, each side summed on its own.
pub open spec fn position_of(lines: Seq<PositionLine>) -> Position {
    Position {
        long_size: side_total(lines, true) as u64,
        short_size: side_total(lines, false) as u64,
        long_open_price: side_open_price(lines, true) as u64,
        short_open_price: side_open_price(lines, false) as u64,
    }
}

/// Both sides of a listing fit the ledger.
pub open spec fn listing_fits(lines: Seq<PositionLine>) -> bool {
    side_total(lines, true) <= u64::MAX && side_total(lines, false) <= u64::MAX
}

proof fn lemma_side_prefix(lines: Seq<PositionLine>, long: bool, i: int)
    requires
        0 <= i <= lines.len(),
    ensures
        side_total(lines.take(i), long) <= side_total(lines, long),
    decreases lines.len(),
{
    if i == lines.len() {
        assert(lines.take(i) =~= lines);
    } else {
        lemma_side_prefix(lines.drop_last(), long, i);
        assert(lines.drop_last().take(i) =~= lines.take(i));
    }
}

proof fn lemma_notional_bound(lines: Seq<PositionLine>, long: bool)
    ensures
        side_notional(lines, long) <= u64::MAX * side_total(lines, long),
    decreases lines.len(),
{
    if lines.len() > 0 {
        lemma_notional_bound(lines.drop_last(), long);
        let p = lines.last().price;
        let s = lines.last().size;
        let t = side_total(lines.drop_last(), long);
        assert(0 <= p * s <= u64::MAX * s) by (nonlinear_arith)
            requires
                0 <= p <= u64::MAX,
                0 <= s,
        ;
        assert(u64::MAX * t + u64::MAX * s == u64::MAX * (t + s)) by (nonlinear_arith);
    }
}

/// A line on one side changes nothing on the other: the sides are never netted.
pub proof fn lemma_sides_independent(lines: Seq<PositionLine>, line: PositionLine)
    ensures
        side_total(lines.push(line), !line.is_long()) == side_total(lines, !line.is_long()),
        side_notional(lines.push(line), !line.is_long()) == side_notional(lines, !line.is_long()),
        side_total(lines.push(line), line.is_long()) == side_total(lines, line.is_long())
            + line.size,
{
    assert(lines.push(line).drop_last() =~= lines);
}

/// The open price of a side is no greater than the greatest price, so it fits 64 bits.
proof fn lemma_open_price_fits(lines: Seq<PositionLine>, long: bool)
    ensures
        side_open_price(lines, long) <= u64::MAX,
{
    let t = side_total(lines, long) as int;
    let n = side_notional(lines, long) as int;
    if t > 0 {
        lemma_notional_bound(lines, long);
        lemma_div_is_ordered(n, u64::MAX * t, t);
        assert(u64::MAX * t == t * u64::MAX) by (nonlinear_arith);
        lemma_div_multiples_vanish(u64::MAX as int, t);
        lemma_div_pos_is_pos(n, t);
    }
}

/// Sums a listing into a position, long and short each on its own.
/// `None` if a side's total does not fit 64 bits.
pub fn aggregate_positions(lines: &Vec<PositionLine>) -> (p: Option<Position>)
    ensures
        p is Some <==> listing_fits(lines@),
        p matches Some(pos) ==> pos == position_of(lines@),
{
    let mut long_total: u64 = 0;
    let mut short_total: u64 = 0;
    let mut long_sum: u128 = 0;
    let mut short_sum: u128 = 0;
    let mut i: usize = 0;
    while i < lines.len()
        invariant
            i <= lines@.len(),
            long_total == side_total(lines@.take(i as int), true),
            short_total == side_total(lines@.take(i as int), false),
            long_sum == side_notional(lines@.take(i as int), true),
            short_sum == side_notional(lines@.take(i as int), false),
        decreases lines@.len() - i,
    {
        let line = lines[i];
        proof {
            assert(lines@.take(i + 1).drop_last() =~= lines@.take(i as int));
            assert(lines@.take(i + 1).last() == line);
            lemma_side_prefix(lines@, true, i + 1);
            lemma_side_prefix(lines@, false, i + 1);
            lemma_notional_bound(lines@.take(i + 1), true);
            lemma_notional_bound(lines@.take(i + 1), false);
            assert(0 <= line.price * line.size <= u64::MAX * u64::MAX) by (nonlinear_arith)
                requires
                    0 <= line.price <= u64::MAX,
                    0 <= line.size <= u64::MAX,
            ;
        }
        let notional: u128 = line.price as u128 * line.size as u128;
        match line.side {
            OrderSide::BUY => {
                if line.size > u64::MAX - long_total {
                    return None;
                }
                long_total = long_total + line.size;
                assert(u64::MAX * long_total <= u64::MAX * u64::MAX) by (nonlinear_arith)
                    requires
                        0 <= long_total <= u64::MAX,
                ;
                long_sum = long_sum + notional;
            },
            _ => {
                if line.size > u64::MAX - short_total {
                    return None;
                }
                short_total = short_total + line.size;
                assert(u64::MAX * short_total <= u64::MAX * u64::MAX) by (nonlinear_arith)
                    requires
                        0 <= short_total <= u64::MAX,
                ;
                short_sum = short_sum + notional;
            },
        }
        i += 1;
    }
    proof {
        assert(lines@.take(i as int) =~= lines@);
        lemma_open_price_fits(lines@, true);
        lemma_open_price_fits(lines@, false);
    }
    let long_open: u64 = if long_total > 0 {
        (long_sum / (long_total as u128)) as u64
    } else {
        0
    };
    let short_open: u64 = if short_total > 0 {
        (short_sum / (short_total as u128)) as u64
    } else {
        0
    };
    Some(
        Position {
            long_size: long_total,
            short_size: short_total,
            long_open_price: long_open,
            short_open_price: short_open,
        },
    )
}

/// Zeroes all four fields of the ledger at once.
pub fn reset_position(position: &mut Position)
    ensures
        *final(position) == Position::zero(),
{
    position.long_size = 0;
    position.short_size = 0;
    position.long_open_price = 0;
    position.short_open_price = 0;
}

} // verus!
