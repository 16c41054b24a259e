use vstd::prelude::*;

verus! {

/// Direction of an order or of an open position.
#[derive(PartialEq, Eq, Structural, Clone, Copy, Debug)]
pub enum Side {
    Long,
    Short,
}

/// How the price that a margin is computed at is found.
#[derive(PartialEq, Eq, Structural, Clone, Copy, Debug)]
pub enum Price {
    /// The order's own price (limit, stop-limit and iceberg price, stop
    /// trigger price, or the price of the resting order being amended).
    Fixed(i32),
    /// The best opposite quote: the ask for a long order, the bid for a
    /// short one (market orders).
    Best,
}

/// The collections of resting orders an amendment or cancellation is
/// looked up in.
#[derive(PartialEq, Eq, Structural, Clone, Copy, Debug)]
pub enum Book {
    Limit,
    Stop,
    StopLimit,
    Iceberg,
}

/// What a broker asks the instrument to do for a trader.
#[derive(Debug)]
pub enum Instruction {
    /// A new limit, market, stop, stop-limit or iceberg order. With
    /// `pointing_at` it closes that position; without, it may open or
    /// extend exposure.
    Open { side: Side, quantity: i32, price: Price, pointing_at: Option<u64> },
    /// A new quantity for a resting order (`iceberg`: an iceberg order,
    /// else a limit, stop or stop-limit order).
    Amend { target: u64, new_quantity: i32, iceberg: bool },
    /// Removal of a resting order.
    Cancel { target: u64, iceberg: bool },
}

/// A decoded broker request, reduced to what the admission rules read.
#[derive(Debug)]
pub struct Ticket {
    pub broker_identifier: String,
    pub market: String,
    pub trader_identifier: u64,
    pub instruction: Instruction,
}

/// An open position of a trader.
#[derive(PartialEq, Eq, Structural, Clone, Copy, Debug)]
pub struct Position {
    pub trader_identifier: u64,
    pub position_side: Side,
    pub position_quantity: i32,
}

/// A resting order found in one of the books: its owner, its quantity
/// (the resting quantity for an iceberg) and its price (the trigger price
/// for a stop order).
#[derive(PartialEq, Eq, Structural, Clone, Copy, Debug)]
pub struct RestingOrder {
    pub trader_identifier: u64,
    pub quantity: i32,
    pub price: i32,
}

/// The best bid and offer of the market.
#[derive(PartialEq, Eq, Structural, Clone, Copy, Debug)]
pub struct Quote {
    pub bid_price: Option<i32>,
    pub ask_price: Option<i32>,
}

/// Sum of the quantities of a list of positions.
pub open spec fn total_quantity(positions: Seq<Position>) -> int
    decreases positions.len(),
{
    if positions.len() == 0 {
        0
    } else {
        total_quantity(positions.drop_last()) + positions.last().position_quantity
    }
}

/// Every running total of the quantities, in list order, is an `i32`.
pub open spec fn running_totals_fit(positions: Seq<Position>) -> bool {
    forall|k: int|
        0 <= k <= positions.len() ==> i32::MIN <= #[trigger] total_quantity(positions.take(k))
            <= i32::MAX
}

/// Adds up the quantities of `positions`, in list order, in `i32`.
pub fn sum_quantities(positions: &Vec<Position>) -> (total: i32)
    requires
        running_totals_fit(positions@),
    ensures
        total == total_quantity(positions@),
{
    let mut total: i32 = 0;
    let mut i: usize = 0;
    assert(positions@.take(0) =~= Seq::<Position>::empty());
    while i < positions.len()
        invariant
            i <= positions@.len(),
            running_totals_fit(positions@),
            total == total_quantity(positions@.take(i as int)),
        decreases positions@.len() - i,
    {
        assert(positions@.take(i + 1).drop_last() =~= positions@.take(i as int));
        assert(i32::MIN <= total_quantity(positions@.take(i + 1)) <= i32::MAX);
        total = total + positions[i].position_quantity;
        i = i + 1;
    }
    assert(positions@.take(i as int) =~= positions@);
    total
}

} // verus!
