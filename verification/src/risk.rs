//! The cooldowns that protect the position: after a refusal for want of
//! margin, after a stop-loss, and after the exchange has denied a position
//! that the ledger still showed (a ghost).

use crate::ledger::{aggregate_positions, listing_fits, position_of, reset_position, PositionLine};
use crate::model::{OrderSide, Position, MAX_PRICE};
use crate::orders::{OrderResult, SubmitOutcome, ERR_NO_OPEN_POSITION};
use crate::api::gmo::api::{any_code, has_code};
use vstd::prelude::*;

verus! {

/// Seconds without opening orders after a refusal for want of margin.
pub const MARGIN_COOLDOWN_SECS: u64 = 60;

/// Seconds without another stop-loss after one was sent.
pub const STOP_LOSS_COOLDOWN_SECS: u64 = 10;

/// Seconds of protection after a ghost position was found.
pub const GHOST_POSITION_COOLDOWN_SECS: u64 = 60;

/// The cooldown that rules at an instant.
#[derive(Debug, Clone, Copy, PartialEq, Eq, Structural)]
pub enum RiskState {
    Normal,
    MarginCooldown(u64),
    GhostCooldown(u64),
    StopLossCooldown(u64),
}

/// The deadline of each cooldown, if it was entered and not cleared. A
/// cooldown is active before its deadline.
#[derive(Debug, Clone, Copy)]
pub struct RiskStateMachine {
    pub margin_until: Option<u64>,
    pub stop_loss_until: Option<u64>,
    pub ghost_until: Option<u64>,
}

/// The instant `secs` seconds after `now`, or the last instant there is.
pub open spec fn deadline_after(now: u64, secs: u64) -> u64 {
    if now + secs * 1000 > u64::MAX {
        u64::MAX
    } else {
        (now + secs * 1000) as u64
    }
}

/// Whether a cooldown with this deadline is active at `now`.
pub open spec fn is_active(deadline: Option<u64>, now: u64) -> bool {
    deadline matches Some(until) && now < until
}

/// What remains of a deadline at `now`: nothing once it has passed.
pub open spec fn unexpired(deadline: Option<u64>, now: u64) -> Option<u64> {
    if is_active(deadline, now) {
        deadline
    } else {
        None
    }
}

fn deadline(now: u64, secs: u64) -> (until: u64)
    ensures
        until == deadline_after(now, secs),
        until >= now,
{
    if secs > (u64::MAX - now) / 1000 {
        u64::MAX
    } else {
        now + secs * 1000
    }
}

fn active(deadline: &Option<u64>, now: u64) -> (a: bool)
    ensures
        a == is_active(*deadline, now),
{
    match deadline {
        Some(until) => now < *until,
        None => false,
    }
}

impl RiskStateMachine {
    /// No cooldown was entered.
    pub open spec fn idle() -> RiskStateMachine {
        RiskStateMachine { margin_until: None, stop_loss_until: None, ghost_until: None }
    }

    pub open spec fn margin_active(self, now: u64) -> bool {
        is_active(self.margin_until, now)
    }

    pub open spec fn stop_loss_active(self, now: u64) -> bool {
        is_active(self.stop_loss_until, now)
    }

    pub open spec fn ghost_active(self, now: u64) -> bool {
        is_active(self.ghost_until, now)
    }

    /// Opening orders are held back by the margin and the ghost cooldown.
    pub open spec fn may_open(self, now: u64) -> bool {
        !self.margin_active(now) && !self.ghost_active(now)
    }

    /// Closing orders are held back by the ghost cooldown alone.
    pub open spec fn may_close(self, now: u64) -> bool {
        !self.ghost_active(now)
    }

    /// The stop-loss is not evaluated during its own cooldown nor during
    /// the ghost cooldown.
    pub open spec fn may_stop_loss(self, now: u64) -> bool {
        !self.stop_loss_active(now) && !self.ghost_active(now)
    }

    /// The cooldown that rules at `now`: the ghost cooldown before the
    /// margin cooldown, the margin cooldown before the stop-loss cooldown.
    pub open spec fn state_at(self, now: u64) -> RiskState {
        if self.ghost_active(now) {
            RiskState::GhostCooldown(self.ghost_until->0)
        } else if self.margin_active(now) {
            RiskState::MarginCooldown(self.margin_until->0)
        } else if self.stop_loss_active(now) {
            RiskState::StopLossCooldown(self.stop_loss_until->0)
        } else {
            RiskState::Normal
        }
    }

    pub open spec fn with_margin(self, now: u64) -> RiskStateMachine {
        RiskStateMachine {
            margin_until: Some(deadline_after(now, MARGIN_COOLDOWN_SECS)),
            ..self
        }
    }

    pub open spec fn with_stop_loss(self, now: u64) -> RiskStateMachine {
        RiskStateMachine {
            stop_loss_until: Some(deadline_after(now, STOP_LOSS_COOLDOWN_SECS)),
            ..self
        }
    }

    pub open spec fn with_ghost(self, now: u64, cooldown_secs: u64) -> RiskStateMachine {
        RiskStateMachine { ghost_until: Some(deadline_after(now, cooldown_secs)), ..self }
    }

    pub open spec fn without_ghost(self) -> RiskStateMachine {
        RiskStateMachine { ghost_until: None, ..self }
    }

    /// The machine with every deadline that has passed at `now` cleared.
    pub open spec fn expired_at(self, now: u64) -> RiskStateMachine {
        RiskStateMachine {
            margin_until: unexpired(self.margin_until, now),
            stop_loss_until: unexpired(self.stop_loss_until, now),
            ghost_until: unexpired(self.ghost_until, now),
        }
    }

    pub fn new() -> (m: RiskStateMachine)
        ensures
            m == RiskStateMachine::idle(),
    {
        RiskStateMachine { margin_until: None, stop_loss_until: None, ghost_until: None }
    }

    pub fn can_open(&self, now: u64) -> (ok: bool)
        ensures
            ok == self.may_open(now),
    {
        !active(&self.margin_until, now) && !active(&self.ghost_until, now)
    }

    pub fn can_close(&self, now: u64) -> (ok: bool)
        ensures
            ok == self.may_close(now),
    {
        !active(&self.ghost_until, now)
    }

    pub fn can_evaluate_stop_loss(&self, now: u64) -> (ok: bool)
        ensures
            ok == self.may_stop_loss(now),
    {
        !active(&self.stop_loss_until, now) && !active(&self.ghost_until, now)
    }

    pub fn state(&self, now: u64) -> (s: RiskState)
        ensures
            s == self.state_at(now),
    {
        if active(&self.ghost_until, now) {
            RiskState::GhostCooldown(self.ghost_until.unwrap())
        } else if active(&self.margin_until, now) {
            RiskState::MarginCooldown(self.margin_until.unwrap())
        } else if active(&self.stop_loss_until, now) {
            RiskState::StopLossCooldown(self.stop_loss_until.unwrap())
        } else {
            RiskState::Normal
        }
    }

    /// Clears the deadlines that have passed. What is held back at `now`
    /// or later is the same before and after.
    pub fn expire(&mut self, now: u64)
        ensures
            *final(self) == old(self).expired_at(now),
            forall|t: u64|
                t >= now ==> final(self).may_open(t) == old(self).may_open(t) && final(self).may_close(t) == old(self).may_close(t) && final(self).may_stop_loss(t) == old(self).may_stop_loss(t),
    {
        if !active(&self.margin_until, now) {
            self.margin_until = None;
        }
        if !active(&self.stop_loss_until, now) {
            self.stop_loss_until = None;
        }
        if !active(&self.ghost_until, now) {
            self.ghost_until = None;
        }
    }

    /// An order was refused for want of margin.
    pub fn enter_margin_cooldown(&mut self, now: u64)
        ensures
            *final(self) == old(self).with_margin(now),
    {
        self.margin_until = Some(deadline(now, 60));
    }

    /// A stop-loss order was sent.
    pub fn enter_stop_loss_cooldown(&mut self, now: u64)
        ensures
            *final(self) == old(self).with_stop_loss(now),
    {
        self.stop_loss_until = Some(deadline(now, 10));
    }

    /// A ghost position was found. Hands back the deadline.
    pub fn enter_ghost_cooldown(&mut self, now: u64, cooldown_secs: u64) -> (until: u64)
        ensures
            *final(self) == old(self).with_ghost(now, cooldown_secs),
            until == deadline_after(now, cooldown_secs),
    {
        let until: u64 = deadline(now, cooldown_secs);
        self.ghost_until = Some(until);
        until
    }
}

/// Ghost protection: zeroes the ledger and arms the ghost cooldown, in one
/// step. Hands back the deadline.
pub fn activate_ghost_protection(
    position: &mut Position,
    risk: &mut RiskStateMachine,
    now: u64,
    cooldown_secs: u64,
) -> (until: u64)
    ensures
        *final(position) == Position::zero(),
        *final(risk) == old(risk).with_ghost(now, cooldown_secs),
        until == deadline_after(now, cooldown_secs),
{
    reset_position(position);
    risk.enter_ghost_cooldown(now, cooldown_secs)
}

/// Whether the poller leaves the ledger alone: an empty listing during
/// the ghost cooldown may be stale and is passed over.
pub open spec fn poll_skips(risk: RiskStateMachine, now: u64, lines: Seq<PositionLine>) -> bool {
    risk.ghost_active(now) && lines.len() == 0
}

/// The ledger after the poller has seen `lines`.
pub open spec fn position_after_poll(
    position: Position,
    risk: RiskStateMachine,
    now: u64,
    lines: Seq<PositionLine>,
) -> Position {
    if poll_skips(risk, now, lines) || !listing_fits(lines) {
        position
    } else {
        position_of(lines)
    }
}

/// The cooldowns after the poller has seen `lines`: a listing that is not
/// passed over ends the ghost cooldown.
pub open spec fn risk_after_poll(risk: RiskStateMachine, now: u64, lines: Seq<PositionLine>) -> RiskStateMachine {
    if poll_skips(risk, now, lines) {
        risk
    } else {
        risk.without_ghost()
    }
}

/// What the poller did with a listing.
#[derive(Debug, Clone, Copy, PartialEq, Eq, Structural)]
pub enum PollVerdict {
    /// The listing was passed over.
    Skipped,
    /// The ledger now holds the listing.
    Written,
    /// The listing's totals do not fit the ledger, which is unchanged.
    Unreadable,
}

/// Takes a listing of the open positions into the ledger, unless it is
/// empty and the ghost cooldown is active. A listing that is taken ends
/// the ghost cooldown.
pub fn poll_position(
    position: &mut Position,
    risk: &mut RiskStateMachine,
    now: u64,
    lines: &Vec<PositionLine>,
) -> (verdict: PollVerdict)
    ensures
        *final(position) == position_after_poll(*old(position), *old(risk), now, lines@),
        *final(risk) == risk_after_poll(*old(risk), now, lines@),
        verdict == if poll_skips(*old(risk), now, lines@) {
            PollVerdict::Skipped
        } else if listing_fits(lines@) {
            PollVerdict::Written
        } else {
            PollVerdict::Unreadable
        },
{
    if active(&risk.ghost_until, now) && lines.len() == 0 {
        return PollVerdict::Skipped;
    }
    risk.ghost_until = None;
    match aggregate_positions(lines) {
        Some(p) => {
            *position = p;
            PollVerdict::Written
        },
        None => PollVerdict::Unreadable,
    }
}

/// Takes the answer to a poll: a listing goes to `poll_position`; where
/// the exchange gave no listing, nothing changes and the next poll tries
/// again.
pub fn settle_poll(
    position: &mut Position,
    risk: &mut RiskStateMachine,
    now: u64,
    listing: &Option<Vec<PositionLine>>,
) -> (verdict: Option<PollVerdict>)
    ensures
        match *listing {
            Some(lines) => {
                &&& *final(position) == position_after_poll(
                    *old(position),
                    *old(risk),
                    now,
                    lines@,
                )
                &&& *final(risk) == risk_after_poll(*old(risk), now, lines@)
                &&& verdict == Some(
                    if poll_skips(*old(risk), now, lines@) {
                        PollVerdict::Skipped
                    } else if listing_fits(lines@) {
                        PollVerdict::Written
                    } else {
                        PollVerdict::Unreadable
                    },
                )
            },
            None => {
                &&& *final(position) == *old(position)
                &&& *final(risk) == *old(risk)
                &&& verdict is None
            },
        },
{
    match listing {
        Some(lines) => Some(poll_position(position, risk, now, lines)),
        None => None,
    }
}

/// After a ghost was found the ledger is flat, and while the cooldown
/// lasts an empty listing changes neither the ledger nor the cooldown:
/// nothing is opened and nothing is closed.
pub proof fn lemma_ghost_protection_holds(
    risk: RiskStateMachine,
    found_at: u64,
    cooldown_secs: u64,
    now: u64,
)
    requires
        now < deadline_after(found_at, cooldown_secs),
    ensures
        ({
            let armed = risk.with_ghost(found_at, cooldown_secs);
            let empty = Seq::<PositionLine>::empty();
            &&& position_after_poll(Position::zero(), armed, now, empty) == Position::zero()
            &&& risk_after_poll(armed, now, empty) == armed
            &&& armed.state_at(now) == RiskState::GhostCooldown(
                deadline_after(found_at, cooldown_secs),
            )
            &&& !armed.may_open(now)
            &&& !armed.may_close(now)
            &&& !armed.may_stop_loss(now)
        }),
{
}

/// A listing that shows a position ends the ghost cooldown at once,
/// whenever it comes, and the ledger takes the listing. The one listing
/// that the ledger cannot take is one whose total on a side is beyond the
/// 64 bits of the ledger's fields; then the ledger stays as it is.
pub proof fn lemma_position_clears_ghost(
    position: Position,
    risk: RiskStateMachine,
    found_at: u64,
    cooldown_secs: u64,
    now: u64,
    lines: Seq<PositionLine>,
)
    requires
        lines.len() > 0,
    ensures
        ({
            let armed = risk.with_ghost(found_at, cooldown_secs);
            let after = risk_after_poll(armed, now, lines);
            &&& after == risk
                .without_ghost()
            &&& forall|t: u64| !after.ghost_active(t)
            &&& forall|t: u64| after.may_close(t)
            &&& listing_fits(lines) ==> position_after_poll(position, armed, now, lines)
                == position_of(lines)
            &&& !listing_fits(lines) ==> position_after_poll(position, armed, now, lines)
                == position
        }),
{
}

/// At most one cooldown rules at a time, and the ghost cooldown rules
/// whenever it is active.
pub proof fn lemma_state_reflects_gating(risk: RiskStateMachine, now: u64)
    ensures
        risk.state_at(now) is GhostCooldown <==> risk.ghost_active(now),
        risk.state_at(now) is Normal <==> risk.may_open(now) && risk.may_stop_loss(now),
        risk.state_at(now) is Normal ==> risk.may_close(now),
        risk.state_at(now) is MarginCooldown ==> !risk.may_open(now) && risk.may_close(now),
        risk.state_at(now) is StopLossCooldown ==> risk.may_open(now) && risk.may_close(now)
            && !risk.may_stop_loss(now),
{
}

/// The profit of the long side at the mid price `mid`, in yen times size
/// units; a side below the minimum lot or without an open price counts 0.
pub open spec fn long_pnl_of(position: Position, mid: u64, min_lot: u64) -> int {
    if position.long_size >= min_lot && position.long_open_price > 0 {
        (mid - position.long_open_price) * position.long_size
    } else {
        0
    }
}

/// The profit of the short side at the mid price `mid`.
pub open spec fn short_pnl_of(position: Position, mid: u64, min_lot: u64) -> int {
    if position.short_size >= min_lot && position.short_open_price > 0 {
        (position.short_open_price - mid) * position.short_size
    } else {
        0
    }
}

pub open spec fn unrealized_pnl_of(position: Position, mid: u64, min_lot: u64) -> int {
    long_pnl_of(position, mid, min_lot) + short_pnl_of(position, mid, min_lot)
}

/// Whether the loss calls for a stop-loss: it exceeds the threshold (given
/// in thousandths of a yen) while a side of at least a minimum lot is
/// held. A threshold of zero switches the stop-loss off.
pub open spec fn stop_loss_due(position: Position, mid: u64, min_lot: u64, stop_loss: u64) -> bool {
    &&& stop_loss > 0
    &&& unrealized_pnl_of(position, mid, min_lot) < -(stop_loss * 100_000)
    &&& (position.long_size >= min_lot || position.short_size >= min_lot)
}

/// The market order that a stop-loss sends.
#[derive(Debug, Clone, Copy)]
pub struct StopLossPlan {
    pub close_side: OrderSide,
    pub close_size: u64,
    pub open_price: u64,
    /// The mid price at which the loss was found.
    pub mid_price: u64,
    /// Yen times size units.
    pub unrealized_pnl: i128,
}

/// The plan of a stop-loss: the side with the worse profit is closed, the
/// long side if both are equal.
pub open spec fn stop_loss_plan_of(position: Position, mid: u64, min_lot: u64) -> StopLossPlan {
    if long_pnl_of(position, mid, min_lot) <= short_pnl_of(position, mid, min_lot) {
        StopLossPlan {
            close_side: OrderSide::SELL,
            close_size: position.long_size,
            open_price: position.long_open_price,
            mid_price: mid,
            unrealized_pnl: unrealized_pnl_of(position, mid, min_lot) as i128,
        }
    } else {
        StopLossPlan {
            close_side: OrderSide::BUY,
            close_size: position.short_size,
            open_price: position.short_open_price,
            mid_price: mid,
            unrealized_pnl: unrealized_pnl_of(position, mid, min_lot) as i128,
        }
    }
}

fn side_pnl(size: u64, open_price: u64, mid: u64, min_lot: u64, long: bool) -> (pnl: i128)
    requires
        mid <= MAX_PRICE,
        open_price <= MAX_PRICE,
    ensures
        pnl == if size >= min_lot && open_price > 0 {
            if long {
                (mid - open_price) * size
            } else {
                (open_price - mid) * size
            }
        } else {
            0
        },
        -18_446_744_073_709_551_615_000_000_000_000 <= pnl
            <= 18_446_744_073_709_551_615_000_000_000_000,
{
    if size >= min_lot && open_price > 0 {
        let delta: i128 = if long {
            mid as i128 - open_price as i128
        } else {
            open_price as i128 - mid as i128
        };
        assert(-1_000_000_000_000 * u64::MAX <= delta * size <= 1_000_000_000_000 * u64::MAX)
            by (nonlinear_arith)
            requires
                -1_000_000_000_000 <= delta <= 1_000_000_000_000,
                0 <= size <= u64::MAX,
        ;
        delta * (size as i128)
    } else {
        0
    }
}

/// Decides whether the position is closed at market, and which side.
pub fn evaluate_stop_loss(position: &Position, mid_price: u64, min_lot: u64, stop_loss: u64) -> (plan:
    Option<StopLossPlan>)
    requires
        mid_price <= MAX_PRICE,
        position.long_open_price <= MAX_PRICE,
        position.short_open_price <= MAX_PRICE,
    ensures
        plan is Some <==> stop_loss_due(*position, mid_price, min_lot, stop_loss),
        plan matches Some(p) ==> p == stop_loss_plan_of(*position, mid_price, min_lot),
{
    if stop_loss == 0 {
        return None;
    }
    let long_pnl: i128 = side_pnl(
        position.long_size,
        position.long_open_price,
        mid_price,
        min_lot,
        true,
    );
    let short_pnl: i128 = side_pnl(
        position.short_size,
        position.short_open_price,
        mid_price,
        min_lot,
        false,
    );
    let unrealized: i128 = long_pnl + short_pnl;
    let threshold: i128 = (stop_loss as i128) * 100_000;
    if unrealized < -threshold && (position.long_size >= min_lot || position.short_size
        >= min_lot) {
        if long_pnl <= short_pnl {
            Some(
                StopLossPlan {
                    close_side: OrderSide::SELL,
                    close_size: position.long_size,
                    open_price: position.long_open_price,
                    mid_price,
                    unrealized_pnl: unrealized,
                },
            )
        } else {
            Some(
                StopLossPlan {
                    close_side: OrderSide::BUY,
                    close_size: position.short_size,
                    open_price: position.short_open_price,
                    mid_price,
                    unrealized_pnl: unrealized,
                },
            )
        }
    } else {
        None
    }
}

/// Before a stop-loss fires the position is asked for once more. If the
/// exchange shows none, the ledger was stale: ghost protection takes the
/// place of the stop-loss. Says whether the stop-loss fires.
pub fn confirm_stop_loss(
    position: &mut Position,
    risk: &mut RiskStateMachine,
    now: u64,
    has_position: bool,
) -> (fire: bool)
    ensures
        fire == has_position,
        has_position ==> *final(position) == *old(position) && *final(risk) == *old(risk),
        !has_position ==> *final(position) == Position::zero() && *final(risk) == old(risk).with_ghost(now, GHOST_POSITION_COOLDOWN_SECS),
{
    if !has_position {
        activate_ghost_protection(position, risk, now, 60);
    }
    has_position
}

/// Whether the position counts as confirmed before a stop-loss: it does
/// if the exchange shows one, and also if the exchange gave no answer,
/// since a loss that may be real is closed rather than left open.
pub fn position_confirmed(shown: Option<bool>) -> (confirmed: bool)
    ensures
        confirmed == match shown {
            Some(any) => any,
            None => true,
        },
{
    match shown {
        Some(any) => any,
        None => true,
    }
}

/// Whether the exchange answered a closing market order with "no open position".
pub open spec fn market_close_hit_ghost(outcome: SubmitOutcome) -> bool {
    outcome matches SubmitOutcome::Rejected { messages, .. } && has_code(
        messages@,
        ERR_NO_OPEN_POSITION@,
    )
}

/// Books the answer to a stop-loss market order. "No open position" means
/// a ghost: the ledger is zeroed and the ghost cooldown armed. Any other
/// answer starts the stop-loss cooldown. Says whether a ghost was hit.
pub fn settle_market_close(
    position: &mut Position,
    risk: &mut RiskStateMachine,
    now: u64,
    outcome: &SubmitOutcome,
) -> (ghost_hit: bool)
    ensures
        ghost_hit == market_close_hit_ghost(*outcome),
        ghost_hit ==> *final(position) == Position::zero() && *final(risk) == old(risk).with_ghost(now, GHOST_POSITION_COOLDOWN_SECS),
        !ghost_hit ==> *final(position) == *old(position) && *final(risk) == old(risk).with_stop_loss(now),
{
    let ghost_hit: bool = match outcome {
        SubmitOutcome::Rejected { messages, .. } => any_code(messages, ERR_NO_OPEN_POSITION),
        _ => false,
    };
    if ghost_hit {
        activate_ghost_protection(position, risk, now, 60);
    } else {
        risk.enter_stop_loss_cooldown(now);
    }
    ghost_hit
}

/// Whether one of the results of a cycle is `wanted`.
pub open spec fn any_result(
    buy: Option<OrderResult>,
    sell: Option<OrderResult>,
    wanted: OrderResult,
) -> bool {
    buy == Some(wanted) || sell == Some(wanted)
}

/// The cooldowns after the submissions of one cycle: a missing position
/// arms the ghost cooldown, want of margin the margin cooldown.
pub open spec fn risk_after_results(
    risk: RiskStateMachine,
    now: u64,
    buy: Option<OrderResult>,
    sell: Option<OrderResult>,
) -> RiskStateMachine {
    let ghosted = if any_result(buy, sell, OrderResult::NoOpenPosition) {
        risk.with_ghost(now, GHOST_POSITION_COOLDOWN_SECS)
    } else {
        risk
    };
    if any_result(buy, sell, OrderResult::MarginInsufficient) {
        ghosted.with_margin(now)
    } else {
        ghosted
    }
}

/// Books the results of the orders of one cycle, each `None` if no order
/// was sent on that side.
pub fn apply_order_results(
    position: &mut Position,
    risk: &mut RiskStateMachine,
    now: u64,
    buy: Option<OrderResult>,
    sell: Option<OrderResult>,
)
    ensures
        *final(risk) == risk_after_results(*old(risk), now, buy, sell),
        *final(position) == if any_result(buy, sell, OrderResult::NoOpenPosition) {
            Position::zero()
        } else {
            *old(position)
        },
{
    let ghost_hit: bool = is_result(&buy, OrderResult::NoOpenPosition) || is_result(
        &sell,
        OrderResult::NoOpenPosition,
    );
    let margin_hit: bool = is_result(&buy, OrderResult::MarginInsufficient) || is_result(
        &sell,
        OrderResult::MarginInsufficient,
    );
    if ghost_hit {
        activate_ghost_protection(position, risk, now, 60);
    }
    if margin_hit {
        risk.enter_margin_cooldown(now);
    }
}

fn is_result(result: &Option<OrderResult>, wanted: OrderResult) -> (b: bool)
    ensures
        b == (*result == Some(wanted)),
{
    match result {
        Some(r) => *r == wanted,
        None => false,
    }
}

} // verus!
