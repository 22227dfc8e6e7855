//! The book of resting orders, and what the exchange's answers to a
//! submission or a cancellation mean for it.

use crate::api::gmo::api::{any_code, has_code, ApiErrorMessage, ApiResponseError};
use crate::model::{BotConfig, OrderInfo, OrderSide};
use crate::sizing::{rejection_of, validate_order_params};
use crate::util::str_eq;
use vstd::prelude::*;

verus! {

/// The margin does not cover the order.
pub const ERR_MARGIN_INSUFFICIENT: &'static str = "ERR-201";

/// A post-only order would have taken liquidity.
pub const ERR_SOK_TAKER: &'static str = "ERR-5003";

/// There is no open position to close.
pub const ERR_NO_OPEN_POSITION: &'static str = "ERR-422";

/// The order is already cancelled, filled or expired.
pub const ERR_ORDER_ALREADY_FINAL: &'static str = "ERR-5122";

/// What a submission came to, as far as the risk rules care.
#[derive(Debug, Clone, Copy, PartialEq, Eq, Structural)]
pub enum OrderResult {
    Success,
    MarginInsufficient,
    NoOpenPosition,
    OtherError,
}

/// The exchange's answer to a submission.
#[derive(Debug, Clone)]
pub enum SubmitOutcome {
    /// The order was taken under this id.
    Accepted { order_id: String },
    /// The exchange refused the order; `detail` is the refusal as it is logged.
    Rejected { messages: Vec<ApiErrorMessage>, detail: String },
    /// No answer, or one that could not be read.
    Failed { detail: String },
}

/// What becomes of an order before it is sent: an order that breaks a
/// rule of the exchange is not sent, and that counts as a success, since
/// nothing was refused and no cooldown is called for; an order that
/// breaks none is to be sent, and has no result yet.
pub fn unsent_result(price: u64, size: u64, config: &BotConfig) -> (r: Option<OrderResult>)
    ensures
        r == match rejection_of(price, size, config.min_lot, config.max_lot) {
            Some(_) => Some(OrderResult::Success),
            None => None,
        },
{
    match validate_order_params(price, size, config) {
        Ok(_) => None,
        Err(_) => Some(OrderResult::Success),
    }
}

/// Reads the answer to a submission: an id is an acceptance, a refusal by
/// the exchange keeps its messages, any other error is a failure; refusal
/// and failure carry the error in words.
pub fn submit_outcome(response: Result<String, ApiResponseError>) -> (outcome: SubmitOutcome)
    ensures
        match response {
            Ok(order_id) => outcome matches SubmitOutcome::Accepted { order_id: id } && id
                == order_id,
            Err(ApiResponseError::ApiError(messages)) => {
                &&& outcome matches SubmitOutcome::Rejected { messages: m, detail }
                &&& m == messages
                &&& detail@ == ApiResponseError::ApiError(messages).text()
            },
            Err(e) => outcome matches SubmitOutcome::Failed { detail } && detail@ == e.text(),
        },
{
    match response {
        Ok(order_id) => SubmitOutcome::Accepted { order_id },
        Err(e) => {
            let detail = e.to_string();
            match e {
                ApiResponseError::ApiError(messages) => SubmitOutcome::Rejected { messages, detail },
                _ => SubmitOutcome::Failed { detail },
            }
        },
    }
}

/// What is written to the trade log after a submission.
#[derive(Debug, Clone)]
pub enum SubmissionEvent {
    Sent { order_id: String },
    Failed { error: String },
    Nothing,
}

#[derive(Debug, Clone)]
pub struct SubmissionReport {
    pub result: OrderResult,
    pub event: SubmissionEvent,
}

/// The result of a submission. A closing order refused for want of a
/// position is `NoOpenPosition`, before anything else; an order refused
/// for want of margin is `MarginInsufficient`; any other refusal or
/// failure is `OtherError`.
pub open spec fn submission_result(is_close: bool, outcome: SubmitOutcome) -> OrderResult {
    match outcome {
        SubmitOutcome::Accepted { .. } => OrderResult::Success,
        SubmitOutcome::Rejected { messages, .. } => {
            if is_close && has_code(messages@, ERR_NO_OPEN_POSITION@) {
                OrderResult::NoOpenPosition
            } else if has_code(messages@, ERR_MARGIN_INSUFFICIENT@) {
                OrderResult::MarginInsufficient
            } else {
                OrderResult::OtherError
            }
        },
        SubmitOutcome::Failed { .. } => OrderResult::OtherError,
    }
}

/// Whether a refusal is passed over in the trade log: an opening order
/// that was refused only because it would have taken liquidity.
pub open spec fn refusal_is_silent(is_close: bool, messages: Seq<ApiErrorMessage>) -> bool {
    !is_close && !has_code(messages, ERR_MARGIN_INSUFFICIENT@) && has_code(
        messages,
        ERR_SOK_TAKER@,
    )
}

/// A resting order under the exchange's id.
#[derive(Debug, Clone)]
pub struct OpenOrder {
    pub id: String,
    pub info: OrderInfo,
}

/// The resting orders, in the order in which they were accepted. No id
/// occurs twice.
#[derive(Debug, Clone)]
pub struct OpenOrders {
    entries: Vec<OpenOrder>,
}

impl View for OpenOrders {
    type V = Seq<OpenOrder>;

    closed spec fn view(&self) -> Seq<OpenOrder> {
        self.entries@
    }
}

/// No id occurs twice.
pub open spec fn ids_distinct(s: Seq<OpenOrder>) -> bool {
    forall|i: int, j: int|
        0 <= i < j < s.len() ==> (#[trigger] s[i]).id@ != (#[trigger] s[j]).id@
}

/// Whether an order rests under `id`.
pub open spec fn holds_id(s: Seq<OpenOrder>, id: Seq<char>) -> bool {
    exists|i: int| 0 <= i < s.len() && (#[trigger] s[i]).id@ == id
}

/// Where the order with `id` stands.
pub open spec fn place_of(s: Seq<OpenOrder>, id: Seq<char>) -> int {
    choose|i: int| 0 <= i < s.len() && (#[trigger] s[i]).id@ == id
}

/// The orders after one is recorded under `id`: it takes the place of an
/// order with the same id, or else goes last.
pub open spec fn with_order(s: Seq<OpenOrder>, entry: OpenOrder) -> Seq<OpenOrder> {
    if holds_id(s, entry.id@) {
        s.update(place_of(s, entry.id@), entry)
    } else {
        s.push(entry)
    }
}

/// The orders after the one with `id` is taken out.
pub open spec fn without_order(s: Seq<OpenOrder>, id: Seq<char>) -> Seq<OpenOrder> {
    if holds_id(s, id) {
        s.remove(place_of(s, id))
    } else {
        s
    }
}

/// Whether an order adds to a side's exposure while it rests: it is on
/// that side and does not close a position.
pub open spec fn is_pending_open(info: OrderInfo, side: OrderSide) -> bool {
    info.side == side && !info.is_close
}

/// The size of all resting orders that open a position on `side`.
pub open spec fn pending_open_total(s: Seq<OpenOrder>, side: OrderSide) -> nat
    decreases s.len(),
{
    if s.len() == 0 {
        0
    } else {
        pending_open_total(s.drop_last(), side) + if is_pending_open(s.last().info, side) {
            s.last().info.size as nat
        } else {
            0
        }
    }
}

/// How long an order has rested; an order stamped in the future has age 0.
pub open spec fn order_age(now: u64, timestamp: u64) -> nat {
    if now >= timestamp {
        (now - timestamp) as nat
    } else {
        0
    }
}

/// The lifetime after which an order is cancelled: the optimal lifetime
/// once one is known, the configured one until then.
pub open spec fn cancel_threshold_of(t_optimal_ms: u64, order_cancel_ms: u64) -> u64 {
    if t_optimal_ms > 0 {
        t_optimal_ms
    } else {
        order_cancel_ms
    }
}

/// The orders that have rested for at least `threshold`.
pub open spec fn stale_of(s: Seq<OpenOrder>, now: u64, threshold: u64) -> Seq<OpenOrder> {
    s.filter(|o: OpenOrder| order_age(now, o.info.timestamp) >= threshold)
}

pub fn cancel_threshold(t_optimal_ms: u64, order_cancel_ms: u64) -> (threshold: u64)
    ensures
        threshold == cancel_threshold_of(t_optimal_ms, order_cancel_ms),
{
    if t_optimal_ms > 0 {
        t_optimal_ms
    } else {
        order_cancel_ms
    }
}

proof fn lemma_place_unique(s: Seq<OpenOrder>, i: int)
    requires
        ids_distinct(s),
        0 <= i < s.len(),
    ensures
        holds_id(s, s[i].id@),
        place_of(s, s[i].id@) == i,
{
    let p = place_of(s, s[i].id@);
    if p < i {
        assert(s[p].id@ != s[i].id@);
    }
    if i < p {
        assert(s[i].id@ != s[p].id@);
    }
}

impl OpenOrders {
    pub open spec fn wf(&self) -> bool {
        ids_distinct(self@)
    }

    pub fn new() -> (orders: OpenOrders)
        ensures
            orders.wf(),
            orders@.len() == 0,
    {
        OpenOrders { entries: Vec::new() }
    }

    pub fn len(&self) -> (n: usize)
        ensures
            n == self@.len(),
    {
        self.entries.len()
    }

    /// The entry at position `i`.
    pub fn get(&self, i: usize) -> (entry: &OpenOrder)
        requires
            i < self@.len(),
        ensures
            *entry == self@[i as int],
    {
        &self.entries[i]
    }

    /// Where the order with `id` stands, if it rests here.
    pub fn find(&self, id: &str) -> (found: Option<usize>)
        requires
            self.wf(),
        ensures
            found is Some <==> holds_id(self@, id@),
            found matches Some(i) ==> i == place_of(self@, id@) && i < self@.len(),
    {
        let mut i: usize = 0;
        while i < self.entries.len()
            invariant
                i <= self@.len(),
                self.entries@ == self@,
                ids_distinct(self@),
                forall|k: int| 0 <= k < i ==> (#[trigger] self@[k]).id@ != id@,
            decreases self@.len() - i,
        {
            if str_eq(self.entries[i].id.as_str(), id) {
                proof {
                    lemma_place_unique(self@, i as int);
                }
                return Some(i);
            }
            i += 1;
        }
        None
    }

    /// Records an accepted order under its id.
    pub fn insert(&mut self, id: String, info: OrderInfo)
        requires
            old(self).wf(),
        ensures
            final(self).wf(),
            final(self)@ == with_order(old(self)@, OpenOrder { id, info }),
            holds_id(final(self)@, id@),
    {
        let found = self.find(id.as_str());
        let ghost entry = OpenOrder { id, info };
        match found {
            Some(i) => {
                let slot = &mut self.entries[i];
                slot.info = info;
                slot.id = id;
                assert(self.entries@ =~= old(self)@.update(i as int, entry));
                assert forall|a: int, b: int| 0 <= a < b < self@.len() implies (
                #[trigger] self@[a]).id@ != (#[trigger] self@[b]).id@ by {
                    assert(old(self)@[a].id@ != old(self)@[b].id@);
                }
                assert(self@[i as int].id@ == id@);
            },
            None => {
                self.entries.push(OpenOrder { id, info });
                assert forall|a: int, b: int| 0 <= a < b < self@.len() implies (
                #[trigger] self@[a]).id@ != (#[trigger] self@[b]).id@ by {
                    if b == self@.len() - 1 {
                        assert(old(self)@[a].id@ != id@);
                    } else {
                        assert(old(self)@[a].id@ != old(self)@[b].id@);
                    }
                }
                assert(self@[self@.len() - 1].id@ == id@);
            },
        }
    }

    /// Takes out the order with `id` and hands it back, if it rests here.
    pub fn remove(&mut self, id: &str) -> (removed: Option<OrderInfo>)
        requires
            old(self).wf(),
        ensures
            final(self).wf(),
            final(self)@ == without_order(old(self)@, id@),
            removed is Some <==> holds_id(old(self)@, id@),
            removed matches Some(info) ==> info == old(self)@[place_of(old(self)@, id@)].info,
            !holds_id(final(self)@, id@),
    {
        match self.find(id) {
            Some(i) => {
                let entry = self.entries.remove(i);
                assert forall|a: int, b: int| 0 <= a < b < self@.len() implies (
                #[trigger] self@[a]).id@ != (#[trigger] self@[b]).id@ by {
                    let a0 = if a < i { a } else { a + 1 };
                    let b0 = if b < i { b } else { b + 1 };
                    assert(old(self)@[a0].id@ != old(self)@[b0].id@);
                }
                assert forall|k: int| 0 <= k < self@.len() implies (#[trigger] self@[k]).id@
                    != id@ by {
                    let k0 = if k < i { k } else { k + 1 };
                    if k0 < i {
                        assert(old(self)@[k0].id@ != old(self)@[i as int].id@);
                    } else {
                        assert(old(self)@[i as int].id@ != old(self)@[k0].id@);
                    }
                }
                Some(entry.info)
            },
            None => None,
        }
    }

    /// The size of all resting orders that open a position on `side`.
    pub fn pending_open_size(&self, side: &OrderSide) -> (total: u128)
        ensures
            total == pending_open_total(self@, *side),
    {
        let mut total: u128 = 0;
        let mut i: usize = 0;
        while i < self.entries.len()
            invariant
                i <= self@.len(),
                self.entries@ == self@,
                total == pending_open_total(self@.take(i as int), *side),
                total <= i * u64::MAX,
            decreases self@.len() - i,
        {
            assert(self@.take(i + 1).drop_last() =~= self@.take(i as int));
            assert((i + 1) * u64::MAX == i * u64::MAX + u64::MAX) by (nonlinear_arith);
            assert(i * u64::MAX <= usize::MAX * u64::MAX) by (nonlinear_arith)
                requires
                    i <= usize::MAX,
            ;
            let info = &self.entries[i].info;
            if info.side == *side && !info.is_close {
                total = total + info.size as u128;
            }
            i += 1;
        }
        assert(self@.take(i as int) =~= self@);
        total
    }

    /// The ids of the orders that have rested for at least `threshold`
    /// milliseconds at the instant `now`, oldest acceptance first.
    pub fn stale_ids(&self, now: u64, threshold: u64) -> (ids: Vec<String>)
        ensures
            ids@.len() == stale_of(self@, now, threshold).len(),
            forall|k: int|
                0 <= k < ids@.len() ==> (#[trigger] ids@[k])@ == stale_of(
                    self@,
                    now,
                    threshold,
                )[k].id@,
    {
        let ghost stale = |o: OpenOrder| order_age(now, o.info.timestamp) >= threshold;
        let mut ids: Vec<String> = Vec::new();
        let mut i: usize = 0;
        assert(self@.take(0).filter(stale) =~= Seq::<OpenOrder>::empty());
        while i < self.entries.len()
            invariant
                i <= self@.len(),
                self.entries@ == self@,
                stale == (|o: OpenOrder| order_age(now, o.info.timestamp) >= threshold),
                ids@.len() == self@.take(i as int).filter(stale).len(),
                forall|k: int|
                    0 <= k < ids@.len() ==> (#[trigger] ids@[k])@ == self@.take(i as int).filter(
                        stale,
                    )[k].id@,
            decreases self@.len() - i,
        {
            let entry = &self.entries[i];
            assert(self@.take(i + 1).drop_last() =~= self@.take(i as int));
            assert(self@.take(i + 1).last() == *entry);
            reveal(Seq::filter);
            let age: u64 = if now >= entry.info.timestamp {
                now - entry.info.timestamp
            } else {
                0
            };
            if age >= threshold {
                ids.push(entry.id.clone());
            }
            i += 1;
        }
        assert(self@.take(i as int) =~= self@);
        ids
    }
}

/// The size of all resting orders that open a position on `side`.
pub fn pending_open_size(orders: &OpenOrders, side: &OrderSide) -> (total: u128)
    ensures
        total == pending_open_total(orders@, *side),
{
    orders.pending_open_size(side)
}

/// Books the exchange's answer to a submission: an accepted order with an
/// id is recorded, a refusal or failure is reported for the log.
pub fn settle_submission(orders: &mut OpenOrders, info: OrderInfo, outcome: SubmitOutcome) -> (report:
    SubmissionReport)
    requires
        old(orders).wf(),
    ensures
        final(orders).wf(),
        report.result == submission_result(info.is_close, outcome),
        match outcome {
            SubmitOutcome::Accepted { order_id } => if order_id@.len() > 0 {
                &&& final(orders)@ == with_order(old(orders)@, OpenOrder { id: order_id, info })
                &&& report.event matches SubmissionEvent::Sent { order_id: sent }
                &&& sent@ == order_id@
            } else {
                final(orders)@ == old(orders)@ && report.event is Nothing
            },
            SubmitOutcome::Rejected { messages, detail } => {
                &&& final(orders)@ == old(orders)@
                &&& if refusal_is_silent(info.is_close, messages@) {
                    report.event is Nothing
                } else {
                    report.event matches SubmissionEvent::Failed { error } && error@ == detail@
                }
            },
            SubmitOutcome::Failed { detail } => {
                &&& final(orders)@ == old(orders)@
                &&& report.event matches SubmissionEvent::Failed { error }
                &&& error@ == detail@
            },
        },
{
    let is_close: bool = info.is_close;
    match outcome {
        SubmitOutcome::Accepted { order_id } => {
            if order_id.as_str().is_empty() {
                SubmissionReport { result: OrderResult::Success, event: SubmissionEvent::Nothing }
            } else {
                let sent = order_id.clone();
                orders.insert(order_id, info);
                SubmissionReport {
                    result: OrderResult::Success,
                    event: SubmissionEvent::Sent { order_id: sent },
                }
            }
        },
        SubmitOutcome::Rejected { messages, detail } => {
            if is_close && any_code(&messages, ERR_NO_OPEN_POSITION) {
                SubmissionReport {
                    result: OrderResult::NoOpenPosition,
                    event: SubmissionEvent::Failed { error: detail },
                }
            } else if any_code(&messages, ERR_MARGIN_INSUFFICIENT) {
                SubmissionReport {
                    result: OrderResult::MarginInsufficient,
                    event: SubmissionEvent::Failed { error: detail },
                }
            } else if !is_close && any_code(&messages, ERR_SOK_TAKER) {
                SubmissionReport { result: OrderResult::OtherError, event: SubmissionEvent::Nothing }
            } else {
                SubmissionReport {
                    result: OrderResult::OtherError,
                    event: SubmissionEvent::Failed { error: detail },
                }
            }
        },
        SubmitOutcome::Failed { detail } => SubmissionReport {
            result: OrderResult::OtherError,
            event: SubmissionEvent::Failed { error: detail },
        },
    }
}

/// The exchange's answer to a cancellation.
#[derive(Debug, Clone)]
pub enum CancelOutcome {
    Confirmed,
    Rejected { messages: Vec<ApiErrorMessage> },
    Failed,
}

/// Reads the answer to a cancellation.
pub fn cancel_outcome(response: Result<(), ApiResponseError>) -> (outcome: CancelOutcome)
    ensures
        match response {
            Ok(_) => outcome is Confirmed,
            Err(ApiResponseError::ApiError(messages)) => outcome matches CancelOutcome::Rejected {
                messages: m,
            } && m == messages,
            Err(_) => outcome is Failed,
        },
{
    match response {
        Ok(_) => CancelOutcome::Confirmed,
        Err(ApiResponseError::ApiError(messages)) => CancelOutcome::Rejected { messages },
        Err(_) => CancelOutcome::Failed,
    }
}

/// What a cancellation came to.
#[derive(Debug, Clone, Copy, PartialEq, Eq, Structural)]
pub enum CancelVerdict {
    /// The order is gone because it was cancelled.
    Cancelled,
    /// The order is gone because it had already reached a final state: it
    /// is taken as filled.
    Filled,
    /// The order stays, and the cancellation is tried again next time.
    Retry,
}

/// The verdict on an answer: a confirmation cancels, a refusal that names
/// a final state counts as a fill, anything else is tried again.
pub open spec fn cancel_verdict_of(outcome: CancelOutcome) -> CancelVerdict {
    match outcome {
        CancelOutcome::Confirmed => CancelVerdict::Cancelled,
        CancelOutcome::Rejected { messages } => if has_code(messages@, ERR_ORDER_ALREADY_FINAL@) {
            CancelVerdict::Filled
        } else {
            CancelVerdict::Retry
        },
        CancelOutcome::Failed => CancelVerdict::Retry,
    }
}

/// Books the exchange's answer to the cancellation of the order `id`: the
/// order leaves the book unless the cancellation is to be tried again.
/// With the verdict comes the order that left, if it rested here.
pub fn settle_cancel(orders: &mut OpenOrders, id: &str, outcome: &CancelOutcome) -> (report: (
    CancelVerdict,
    Option<OrderInfo>,
))
    requires
        old(orders).wf(),
    ensures
        final(orders).wf(),
        report.0 == cancel_verdict_of(*outcome),
        final(orders)@ == if report.0 == CancelVerdict::Retry {
            old(orders)@
        } else {
            without_order(old(orders)@, id@)
        },
        report.1 is Some <==> report.0 != CancelVerdict::Retry && holds_id(old(orders)@, id@),
        report.1 matches Some(info) ==> info == old(orders)@[place_of(old(orders)@, id@)].info,
{
    let verdict = match outcome {
        CancelOutcome::Confirmed => CancelVerdict::Cancelled,
        CancelOutcome::Rejected { messages } => {
            if any_code(messages, ERR_ORDER_ALREADY_FINAL) {
                CancelVerdict::Filled
            } else {
                CancelVerdict::Retry
            }
        },
        CancelOutcome::Failed => CancelVerdict::Retry,
    };
    match verdict {
        CancelVerdict::Retry => (verdict, None),
        _ => {
            let removed = orders.remove(id);
            (verdict, removed)
        },
    }
}

} // verus!
