//! Order sizes: how much to quote on each side given the inventory, and
//! which orders are fit to be sent at all.

use crate::model::{BotConfig, Position};
use vstd::prelude::*;

verus! {

/// The finest step of an order's size, in size units: a ten-thousandth of a coin.
pub const SIZE_STEP: u64 = 10_000;

/// Why an order is not sent.
#[derive(Debug, Clone, Copy, PartialEq, Eq, Structural)]
pub enum OrderRejection {
    ZeroPrice,
    BelowMinimumLot,
    ExceedsMaximum,
    PrecisionTooHigh,
}

impl OrderRejection {
    /// The reason in words.
    pub open spec fn text(self) -> Seq<char> {
        match self {
            OrderRejection::ZeroPrice => "Price cannot be zero"@,
            OrderRejection::BelowMinimumLot => "Size below minimum lot"@,
            OrderRejection::ExceedsMaximum => "Size exceeds maximum allowed"@,
            OrderRejection::PrecisionTooHigh => "Size precision too high (max 4 decimal places)"@,
        }
    }

    pub fn to_string(&self) -> (s: String)
        ensures
            s@ == self.text(),
    {
        match self {
            OrderRejection::ZeroPrice => "Price cannot be zero".to_owned(),
            OrderRejection::BelowMinimumLot => "Size below minimum lot".to_owned(),
            OrderRejection::ExceedsMaximum => "Size exceeds maximum allowed".to_owned(),
            OrderRejection::PrecisionTooHigh => "Size precision too high (max 4 decimal places)".to_owned(),
        }
    }
}

/// The first rule that an order breaks, if any: the price is not zero, the
/// size is at least the minimum lot, at most ten maximum lots, and a whole
/// number of size steps.
pub open spec fn rejection_of(price: u64, size: u64, min_lot: u64, max_lot: u64) -> Option<
    OrderRejection,
> {
    if price == 0 {
        Some(OrderRejection::ZeroPrice)
    } else if size < min_lot {
        Some(OrderRejection::BelowMinimumLot)
    } else if size > max_lot * 10 {
        Some(OrderRejection::ExceedsMaximum)
    } else if size % SIZE_STEP != 0 {
        Some(OrderRejection::PrecisionTooHigh)
    } else {
        None
    }
}

/// Checks an order before it is sent.
pub fn validate_order_params(price: u64, size: u64, config: &BotConfig) -> (r: Result<
    (),
    OrderRejection,
>)
    ensures
        r == match rejection_of(price, size, config.min_lot, config.max_lot) {
            Some(e) => Err::<(), OrderRejection>(e),
            None => Ok(()),
        },
{
    if price == 0 {
        return Err(OrderRejection::ZeroPrice);
    }
    if size < config.min_lot {
        return Err(OrderRejection::BelowMinimumLot);
    }
    if size as u128 > config.max_lot as u128 * 10 {
        return Err(OrderRejection::ExceedsMaximum);
    }
    if size % 10_000 != 0 {
        return Err(OrderRejection::PrecisionTooHigh);
    }
    Ok(())
}

/// What may still be added to a side before it reaches the largest position.
pub open spec fn remaining_capacity(side_size: u64, max_position_size: u64) -> int {
    if side_size >= max_position_size {
        0
    } else {
        max_position_size - side_size
    }
}

/// The size of a new order on one side. With less room than a minimum lot
/// nothing is quoted. Otherwise the tapered size is raised to the minimum
/// lot and then cut to the room that remains.
pub open spec fn order_size_of(
    side_size: u64,
    max_position_size: u64,
    min_lot: u64,
    tapered: u64,
) -> int {
    let room = remaining_capacity(side_size, max_position_size);
    if room < min_lot {
        0
    } else {
        let raised = if tapered < min_lot {
            min_lot
        } else {
            tapered
        };
        if raised > room {
            room
        } else {
            raised as int
        }
    }
}

/// A side at or above the largest position quotes nothing; a side with
/// room for a minimum lot quotes at least that and at most the room.
pub proof fn lemma_order_size_bounds(
    side_size: u64,
    max_position_size: u64,
    min_lot: u64,
    tapered: u64,
)
    ensures
        side_size >= max_position_size ==> order_size_of(
            side_size,
            max_position_size,
            min_lot,
            tapered,
        ) == 0,
        remaining_capacity(side_size, max_position_size) >= min_lot ==> min_lot <= order_size_of(
            side_size,
            max_position_size,
            min_lot,
            tapered,
        ),
        order_size_of(side_size, max_position_size, min_lot, tapered) <= remaining_capacity(
            side_size,
            max_position_size,
        ),
        side_size + order_size_of(side_size, max_position_size, min_lot, tapered) <= (
        if side_size >= max_position_size {
            side_size
        } else {
            max_position_size
        }),
{
}

fn side_order_size(side_size: u64, max_position_size: u64, min_lot: u64, tapered: u64) -> (size:
    u64)
    ensures
        size == order_size_of(side_size, max_position_size, min_lot, tapered),
{
    let room: u64 = if side_size >= max_position_size {
        0
    } else {
        max_position_size - side_size
    };
    if room < min_lot {
        0
    } else {
        let raised: u64 = if tapered < min_lot {
            min_lot
        } else {
            tapered
        };
        if raised > room {
            room
        } else {
            raised
        }
    }
}

/// The sizes of new orders, `(buy, sell)`, in size units. `tapered_buy`
/// and `tapered_sell` are the sizes that the taper of the position proposes
/// for each side before the limits are applied.
pub fn calculate_order_sizes(
    position: &Position,
    max_position_size: u64,
    min_lot: u64,
    tapered_buy: u64,
    tapered_sell: u64,
) -> (sizes: (u64, u64))
    ensures
        sizes.0 == order_size_of(position.long_size, max_position_size, min_lot, tapered_buy),
        sizes.1 == order_size_of(position.short_size, max_position_size, min_lot, tapered_sell),
        position.long_size >= max_position_size ==> sizes.0 == 0,
        position.short_size >= max_position_size ==> sizes.1 == 0,
        sizes.0 <= remaining_capacity(position.long_size, max_position_size),
        sizes.1 <= remaining_capacity(position.short_size, max_position_size),
        remaining_capacity(position.long_size, max_position_size) >= min_lot ==> sizes.0
            >= min_lot,
        remaining_capacity(position.short_size, max_position_size) >= min_lot ==> sizes.1
            >= min_lot,
{
    (
        side_order_size(position.long_size, max_position_size, min_lot, tapered_buy),
        side_order_size(position.short_size, max_position_size, min_lot, tapered_sell),
    )
}

/// The size that is sent: a closing order is never smaller than the
/// minimum lot, an opening order has the calculated size.
pub fn effective_order_size(calculated_size: u64, is_close: bool, min_lot: u64) -> (size: u64)
    ensures
        size == if is_close && calculated_size < min_lot {
            min_lot
        } else {
            calculated_size
        },
{
    if is_close && calculated_size < min_lot {
        min_lot
    } else {
        calculated_size
    }
}

} // verus!
