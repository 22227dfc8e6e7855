//! The execution tape: recent trade prints, and what the engine reads off
//! them (last price, the circuit breaker's price range).

use crate::api::gmo::ws::{board_deltas, Board, BoardItem, ExecutionItem, Side};
use crate::order_book::{with_levels, BookLevel, OrderBookSide};
use vstd::prelude::*;

verus! {

/// One trade print. The size is signed: positive for a buy, negative for a sell.
#[derive(Debug, Clone, Copy)]
pub struct Execution {
    /// Yen.
    pub price: u64,
    /// Size units.
    pub size: i64,
    /// Instant of arrival.
    pub timestamp: u64,
}

/// The window of the circuit breaker, ms.
pub const CIRCUIT_BREAKER_WINDOW_MS: u64 = 5000;

/// The pause that the circuit breaker asks for, seconds.
pub const CIRCUIT_BREAKER_COOLDOWN_SECS: u64 = 30;

/// The prints of `tape` that arrived no earlier than `horizon` before `now`.
pub open spec fn within_horizon(tape: Seq<Execution>, now: u64, horizon: u64) -> Seq<Execution> {
    tape.filter(|e: Execution| e.timestamp >= now - horizon)
}

/// The lowest price on `tape`; `u64::MAX` for an empty tape.
pub open spec fn lowest_price(tape: Seq<Execution>) -> u64
    decreases tape.len(),
{
    if tape.len() == 0 {
        u64::MAX
    } else {
        let rest = lowest_price(tape.drop_last());
        if tape.last().price < rest {
            tape.last().price
        } else {
            rest
        }
    }
}

/// The highest price on `tape`; 0 for an empty tape.
pub open spec fn highest_price(tape: Seq<Execution>) -> u64
    decreases tape.len(),
{
    if tape.len() == 0 {
        0
    } else {
        let rest = highest_price(tape.drop_last());
        if tape.last().price > rest {
            tape.last().price
        } else {
            rest
        }
    }
}

/// Whether a range of prices is wide enough to stop trading: the range,
/// divided by the middle of the range `(low + high) / 2`, exceeds one
/// thousandth.
pub open spec fn range_trips(low: u64, high: u64) -> bool {
    low <= high && 2000 * (high - low) > low + high
}

/// Whether the prints of the last five seconds trip the circuit breaker.
pub open spec fn breaker_trips(tape: Seq<Execution>, now: u64) -> bool {
    let recent = within_horizon(tape, now, CIRCUIT_BREAKER_WINDOW_MS);
    recent.len() > 0 && range_trips(lowest_price(recent), highest_price(recent))
}

/// The extremes bound every price on the tape, and are prices on it.
pub proof fn lemma_price_extremes(tape: Seq<Execution>)
    ensures
        forall|i: int|
            0 <= i < tape.len() ==> lowest_price(tape) <= (#[trigger] tape[i]).price
                <= highest_price(tape),
        tape.len() > 0 ==> exists|i: int|
            0 <= i < tape.len() && (#[trigger] tape[i]).price == lowest_price(tape),
        tape.len() > 0 ==> exists|i: int|
            0 <= i < tape.len() && (#[trigger] tape[i]).price == highest_price(tape),
    decreases tape.len(),
{
    if tape.len() > 0 {
        let rest = tape.drop_last();
        lemma_price_extremes(rest);
        let n = tape.len() - 1;
        assert forall|i: int| 0 <= i < tape.len() implies lowest_price(tape) <= (
        #[trigger] tape[i]).price <= highest_price(tape) by {
            if i < n {
                assert(rest[i] == tape[i]);
            }
        }
        assert(tape[n] == tape.last());
        if rest.len() > 0 {
            let lo = choose|i: int|
                0 <= i < rest.len() && (#[trigger] rest[i]).price == lowest_price(rest);
            let hi = choose|i: int|
                0 <= i < rest.len() && (#[trigger] rest[i]).price == highest_price(rest);
            assert(tape[lo] == rest[lo]);
            assert(tape[hi] == rest[hi]);
            let wl = if tape.last().price < lowest_price(rest) { n } else { lo };
            let wh = if tape.last().price > highest_price(rest) { n } else { hi };
            assert(tape[wl].price == lowest_price(tape));
            assert(tape[wh].price == highest_price(tape));
        } else {
            assert(tape[n].price == lowest_price(tape));
            assert(tape[n].price == highest_price(tape));
        }
        assert(tape[n] == tape.last());
    }
}

/// The size of a print with its sign: positive when the taker bought,
/// negative when the taker sold; a size beyond 63 bits is cut to them.
pub open spec fn signed_size_of(size: u64, side: Side) -> i64 {
    let magnitude: i64 = if size > i64::MAX {
        i64::MAX
    } else {
        size as i64
    };
    match side {
        Side::BUY => magnitude,
        Side::SELL => (-magnitude) as i64,
    }
}

/// Appends a trade print to the tape, stamped with `now`.
pub fn record_trade(tape: &mut Vec<Execution>, price: u64, size: u64, side: Side, now: u64)
    ensures
        final(tape)@ == old(tape)@.push(
            Execution { price, size: signed_size_of(size, side), timestamp: now },
        ),
{
    let magnitude: i64 = if size > i64::MAX as u64 {
        i64::MAX
    } else {
        size as i64
    };
    let signed: i64 = match side {
        Side::BUY => magnitude,
        Side::SELL => -magnitude,
    };
    tape.push(Execution { price, size: signed, timestamp: now });
}

/// Takes the deltas of a book message into both sides of the book.
pub fn apply_board(
    asks: &mut OrderBookSide,
    bids: &mut OrderBookSide,
    ask_deltas: &Vec<BookLevel>,
    bid_deltas: &Vec<BookLevel>,
)
    requires
        old(asks).wf(),
        old(bids).wf(),
    ensures
        final(asks).wf(),
        final(bids).wf(),
        final(asks)@ == with_levels(old(asks)@, ask_deltas@),
        final(bids)@ == with_levels(old(bids)@, bid_deltas@),
{
    asks.extend(ask_deltas);
    bids.extend(bid_deltas);
}

/// Takes a message of the book channel into the book.
pub fn handle_board_data(asks: &mut OrderBookSide, bids: &mut OrderBookSide, board: &Board)
    requires
        old(asks).wf(),
        old(bids).wf(),
    ensures
        final(asks).wf(),
        final(bids).wf(),
        final(asks)@ == with_levels(
            old(asks)@,
            board.asks@.map_values(|x: BoardItem| BookLevel { price: x.price, size: x.size }),
        ),
        final(bids)@ == with_levels(
            old(bids)@,
            board.bids@.map_values(|x: BoardItem| BookLevel { price: x.price, size: x.size }),
        ),
{
    let ask_deltas = board_deltas(&board.asks);
    let bid_deltas = board_deltas(&board.bids);
    apply_board(asks, bids, &ask_deltas, &bid_deltas);
}

/// Takes a message of the trade channel onto the tape, stamped with the
/// instant `now` at which it arrived.
pub fn handle_trade_data(tape: &mut Vec<Execution>, item: &ExecutionItem, now: u64)
    ensures
        final(tape)@ == old(tape)@.push(
            Execution {
                price: item.price,
                size: signed_size_of(item.size, item.side),
                timestamp: now,
            },
        ),
{
    record_trade(tape, item.price, item.size, item.side, now);
}

/// Drops every print that arrived more than `retain_ms` before `now`.
pub fn retain_executions(tape: &mut Vec<Execution>, now: u64, retain_ms: u64)
    ensures
        final(tape)@ == within_horizon(old(tape)@, now, retain_ms),
        final(tape)@.len() <= old(tape)@.len(),
{
    let ghost orig = tape@;
    let ghost keep = |e: Execution| e.timestamp >= now - retain_ms;
    let mut kept: Vec<Execution> = Vec::new();
    let mut i: usize = 0;
    assert(orig.take(0).filter(keep) =~= Seq::<Execution>::empty());
    while i < tape.len()
        invariant
            i <= tape@.len(),
            tape@ == orig,
            kept@ == orig.take(i as int).filter(keep),
            kept@.len() <= i,
            keep == (|e: Execution| e.timestamp >= now - retain_ms),
        decreases tape@.len() - i,
    {
        let e = tape[i];
        assert(orig.take(i + 1).drop_last() =~= orig.take(i as int));
        assert(orig.take(i + 1).last() == e);
        reveal(Seq::filter);
        if now < retain_ms || e.timestamp >= now - retain_ms {
            kept.push(e);
        }
        i += 1;
    }
    assert(orig.take(i as int) =~= orig);
    *tape = kept;
}

/// The price of the newest print; 0 on an empty tape.
pub fn last_price(tape: &Vec<Execution>) -> (p: u64)
    ensures
        p == if tape@.len() == 0 { 0 } else { tape@.last().price },
{
    let n: usize = tape.len();
    if n == 0 {
        0
    } else {
        tape[n - 1].price
    }
}

/// The prices of all prints, oldest first.
pub fn prices(tape: &Vec<Execution>) -> (p: Vec<u64>)
    ensures
        p@ == tape@.map_values(|e: Execution| e.price),
{
    let mut p: Vec<u64> = Vec::new();
    let mut i: usize = 0;
    while i < tape.len()
        invariant
            i <= tape@.len(),
            p@.len() == i,
            forall|k: int| 0 <= k < i ==> p@[k] == tape@[k].price,
        decreases tape@.len() - i,
    {
        p.push(tape[i].price);
        i += 1;
    }
    assert(p@ =~= tape@.map_values(|e: Execution| e.price));
    p
}

/// Whether trading must pause: the prints of the last five seconds span a
/// range wider than a thousandth of its middle.
pub fn circuit_breaker_tripped(tape: &Vec<Execution>, now: u64) -> (tripped: bool)
    ensures
        tripped == breaker_trips(tape@, now),
{
    let ghost keep = |e: Execution| e.timestamp >= now - CIRCUIT_BREAKER_WINDOW_MS;
    let mut low: u64 = u64::MAX;
    let mut high: u64 = 0;
    let mut seen: bool = false;
    let mut i: usize = 0;
    assert(tape@.take(0).filter(keep) =~= Seq::<Execution>::empty());
    while i < tape.len()
        invariant
            i <= tape@.len(),
            keep == (|e: Execution| e.timestamp >= now - CIRCUIT_BREAKER_WINDOW_MS),
            low == lowest_price(tape@.take(i as int).filter(keep)),
            high == highest_price(tape@.take(i as int).filter(keep)),
            seen == (tape@.take(i as int).filter(keep).len() > 0),
        decreases tape@.len() - i,
    {
        let e = tape[i];
        assert(tape@.take(i + 1).drop_last() =~= tape@.take(i as int));
        assert(tape@.take(i + 1).last() == e);
        reveal(Seq::filter);
        if now < CIRCUIT_BREAKER_WINDOW_MS || e.timestamp >= now - CIRCUIT_BREAKER_WINDOW_MS {
            let ghost before = tape@.take(i as int).filter(keep);
            assert(before.push(e).drop_last() =~= before);
            if e.price < low {
                low = e.price;
            }
            if e.price > high {
                high = e.price;
            }
            seen = true;
        }
        i += 1;
    }
    assert(tape@.take(i as int) =~= tape@);
    if !seen || low > high {
        return false;
    }
    let range: u128 = (high - low) as u128;
    2000 * range > low as u128 + high as u128
}

} // verus!
