//! The public market-data stream.

use crate::order_book::BookLevel;
use crate::util::str_eq;
use std::str::FromStr;
use vstd::prelude::*;

verus! {

/// An instant as the exchange stamps it, in milliseconds since the epoch.
#[derive(Debug, Clone, Copy)]
pub struct Timestamp(pub i64);

impl Timestamp {
    pub fn get_timestamp(&self) -> (ms: i64)
        ensures
            ms == self.0,
    {
        self.0
    }
}

/// A trade print.
#[derive(Debug, Clone)]
pub struct ExecutionItem {
    pub symbol: String,
    pub side: Side,
    /// Yen.
    pub price: u64,
    /// Size units.
    pub size: u64,
    pub timestamp: Timestamp,
}

/// A message of the book channel: the levels that changed.
#[derive(Debug, Clone)]
pub struct Board {
    pub bids: Vec<BoardItem>,
    pub asks: Vec<BoardItem>,
    pub symbol: String,
    pub timestamp: Timestamp,
}

#[derive(Debug, Clone, Copy)]
pub struct BoardItem {
    /// Yen.
    pub price: u64,
    /// Size units.
    pub size: u64,
}

/// The envelope that says which channel a message belongs to.
#[derive(Debug, Clone, Copy)]
pub struct Message {
    pub channel: Channel,
}

/// The deltas of one side of a book message.
pub fn board_deltas(items: &Vec<BoardItem>) -> (deltas: Vec<BookLevel>)
    ensures
        deltas@ == items@.map_values(|x: BoardItem| BookLevel { price: x.price, size: x.size }),
{
    let mut deltas: Vec<BookLevel> = Vec::new();
    let mut i: usize = 0;
    while i < items.len()
        invariant
            i <= items@.len(),
            deltas@.len() == i,
            forall|k: int|
                0 <= k < i ==> deltas@[k] == (BookLevel {
                    price: items@[k].price,
                    size: items@[k].size,
                }),
        decreases items@.len() - i,
    {
        deltas.push(BookLevel { price: items[i].price, size: items[i].size });
        i += 1;
    }
    assert(deltas@ =~= items@.map_values(
        |x: BoardItem| BookLevel { price: x.price, size: x.size },
    ));
    deltas
}

/// The channels that the engine subscribes to.
#[derive(Debug, Clone, Copy, PartialEq, Eq, Structural)]
pub enum Channel {
    Orderbooks,
    Trades,
}

impl Channel {
    /// The channel's name on the wire.
    pub open spec fn name(self) -> Seq<char> {
        match self {
            Channel::Orderbooks => "orderbooks"@,
            Channel::Trades => "trades"@,
        }
    }

    pub open spec fn named(s: Seq<char>) -> Option<Channel> {
        if s == "orderbooks"@ {
            Some(Channel::Orderbooks)
        } else if s == "trades"@ {
            Some(Channel::Trades)
        } else {
            None
        }
    }

    pub fn to_string(&self) -> (s: String)
        ensures
            s@ == self.name(),
    {
        match self {
            Channel::Orderbooks => "orderbooks".to_owned(),
            Channel::Trades => "trades".to_owned(),
        }
    }

    pub fn parse(s: &str) -> (channel: Option<Channel>)
        ensures
            channel == Channel::named(s@),
    {
        if str_eq(s, "orderbooks") {
            Some(Channel::Orderbooks)
        } else if str_eq(s, "trades") {
            Some(Channel::Trades)
        } else {
            None
        }
    }

    /// Every channel reads back from its own name.
    pub proof fn lemma_name_round_trip(self)
        ensures
            Channel::named(self.name()) == Some(self),
    {
        reveal_strlit("orderbooks");
        reveal_strlit("trades");
        assert("orderbooks"@.len() == 10);
        assert("trades"@.len() == 6);
    }
}

impl FromStr for Channel {
    type Err = ();

    /// The value that the name stands for, or an error if it stands for none.
    fn from_str(s: &str) -> (r: Result<Self, Self::Err>)
        ensures
            r == match Channel::named(s@) {
                Some(value) => Ok::<Channel, ()>(value),
                None => Err(()),
            },
    {
        match Channel::parse(s) {
            Some(channel) => Ok(channel),
            None => Err(()),
        }
    }
}

/// The taker's side of a trade print.
#[allow(clippy::upper_case_acronyms)]
#[derive(Debug, Clone, Copy, PartialEq, Eq, Structural)]
pub enum Side {
    BUY,
    SELL,
}

impl Side {
    pub open spec fn named(s: Seq<char>) -> Option<Side> {
        if s == "BUY"@ {
            Some(Side::BUY)
        } else if s == "SELL"@ {
            Some(Side::SELL)
        } else {
            None
        }
    }

    pub fn parse(s: &str) -> (side: Option<Side>)
        ensures
            side == Side::named(s@),
    {
        if str_eq(s, "BUY") {
            Some(Side::BUY)
        } else if str_eq(s, "SELL") {
            Some(Side::SELL)
        } else {
            None
        }
    }
}

} // verus!
