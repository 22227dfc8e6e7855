//! The realtime stream.

use crate::order_book::BookLevel;
use crate::util::str_eq;
use std::str::FromStr;
use vstd::prelude::*;

verus! {

/// The channels that the engine subscribes to.
#[allow(non_camel_case_types)]
#[derive(Debug, Clone, Copy, PartialEq, Eq, Structural)]
pub enum Channel {
    lightning_board_FX_BTC_JPY,
    lightning_executions_FX_BTC_JPY,
}

impl Channel {
    pub open spec fn named(s: Seq<char>) -> Option<Channel> {
        if s == "lightning_board_FX_BTC_JPY"@ {
            Some(Channel::lightning_board_FX_BTC_JPY)
        } else if s == "lightning_executions_FX_BTC_JPY"@ {
            Some(Channel::lightning_executions_FX_BTC_JPY)
        } else {
            None
        }
    }

    pub fn parse(s: &str) -> (channel: Option<Channel>)
        ensures
            channel == Channel::named(s@),
    {
        if str_eq(s, "lightning_board_FX_BTC_JPY") {
            Some(Channel::lightning_board_FX_BTC_JPY)
        } else if str_eq(s, "lightning_executions_FX_BTC_JPY") {
            Some(Channel::lightning_executions_FX_BTC_JPY)
        } else {
            None
        }
    }
}

impl FromStr for Channel {
    type Err = ();

    /// The value that the name stands for, or an error if it stands for none.
    fn from_str(s: &str) -> (r: Result<Self, Self::Err>)
        ensures
            r == match Channel::named(s@) {
                Some(value) => Ok::<Channel, ()>(value),
                None => Err(()),
            },
    {
        match Channel::parse(s) {
            Some(channel) => Ok(channel),
            None => Err(()),
        }
    }
}

/// An instant as the exchange stamps it, in milliseconds since the epoch.
#[derive(Debug, Clone, Copy)]
pub struct Timestamp(pub i64);

impl Timestamp {
    pub fn get_timestamp(&self) -> (ms: i64)
        ensures
            ms == self.0,
    {
        self.0
    }
}

/// The taker's side of a trade print.
#[allow(clippy::upper_case_acronyms)]
#[derive(Debug, Clone, Copy, PartialEq, Eq, Structural)]
pub enum Side {
    BUY,
    SELL,
}

impl Side {
    pub open spec fn named(s: Seq<char>) -> Option<Side> {
        if s == "BUY"@ {
            Some(Side::BUY)
        } else if s == "SELL"@ {
            Some(Side::SELL)
        } else {
            None
        }
    }

    pub fn parse(s: &str) -> (side: Option<Side>)
        ensures
            side == Side::named(s@),
    {
        if str_eq(s, "BUY") {
            Some(Side::BUY)
        } else if str_eq(s, "SELL") {
            Some(Side::SELL)
        } else {
            None
        }
    }

    /// The same side in the terms of the tape.
    pub fn taker(self) -> (side: crate::api::gmo::ws::Side)
        ensures
            side == match self {
                Side::BUY => crate::api::gmo::ws::Side::BUY,
                Side::SELL => crate::api::gmo::ws::Side::SELL,
            },
    {
        match self {
            Side::BUY => crate::api::gmo::ws::Side::BUY,
            Side::SELL => crate::api::gmo::ws::Side::SELL,
        }
    }
}

/// A trade print.
#[derive(Debug, Clone)]
pub struct ExecutionItem {
    pub id: i64,
    pub side: Side,
    /// Yen.
    pub price: u64,
    /// Size units.
    pub size: u64,
    pub exec_date: Timestamp,
    pub buy_child_order_acceptance_id: String,
    pub sell_child_order_acceptance_id: String,
}

/// A message of the book channel: the mid price and the levels that changed.
#[derive(Debug, Clone)]
pub struct Board {
    pub mid_price: u64,
    pub bids: Vec<BoardItem>,
    pub asks: Vec<BoardItem>,
}

#[derive(Debug, Clone, Copy)]
pub struct BoardItem {
    /// Yen.
    pub price: u64,
    /// Size units.
    pub size: u64,
}

/// The deltas of one side of a book message.
pub fn board_deltas(items: &Vec<BoardItem>) -> (deltas: Vec<BookLevel>)
    ensures
        deltas@ == items@.map_values(|x: BoardItem| BookLevel { price: x.price, size: x.size }),
{
    let mut deltas: Vec<BookLevel> = Vec::new();
    let mut i: usize = 0;
    while i < items.len()
        invariant
            i <= items@.len(),
            deltas@.len() == i,
            forall|k: int|
                0 <= k < i ==> deltas@[k] == (BookLevel {
                    price: items@[k].price,
                    size: items@[k].size,
                }),
        decreases items@.len() - i,
    {
        deltas.push(BookLevel { price: items[i].price, size: items[i].size });
        i += 1;
    }
    assert(deltas@ =~= items@.map_values(
        |x: BoardItem| BookLevel { price: x.price, size: x.size },
    ));
    deltas
}

/// A change of one of the account's own orders.
#[derive(Debug, Clone)]
pub struct UpdateChildOrderItem {
    pub child_order_id: String,
    pub child_order_acceptance_id: String,
    pub event_type: String,
    pub event_date: Timestamp,
    pub child_order_type: Option<String>,
    pub side: Option<Side>,
    pub price: Option<u64>,
    pub size: Option<u64>,
    pub reason: Option<String>,
    pub sfd: Option<i64>,
    pub outstanding_size: Option<u64>,
    pub expire_date: Option<Timestamp>,
}

} // verus!
