use vstd::prelude::*;
use crate::flow::{opening, run, Event, Flow, Stage};
use crate::flow_laws::runs_keep_the_admitted_request;
use crate::order::{total_quantity, Book, Instruction};

verus! {

/// Running a flow over `events` and then `event` is running it over
/// `events` and advancing it by `event`; a prefix of the longer run is the
/// same prefix of the shorter one.
proof fn run_extends(flow: Flow, events: Seq<Event>, event: Event)
    ensures
        run(flow, events.push(event)) == run(flow, events).advance(event),
        forall|j: int|
            0 <= j <= events.len() ==> #[trigger] events.push(event).take(j) == events.take(j),
        events.take(events.len() as int) == events,
{
    assert(events.push(event).drop_last() =~= events);
    assert forall|j: int| 0 <= j <= events.len() implies #[trigger] events.push(event).take(j) == events.take(j) by {
        assert(events.push(event).take(j) =~= events.take(j));
    }
    assert(events.take(events.len() as int) =~= events);
}

/// The request is an amendment or cancellation of an iceberg order.
pub open spec fn names_iceberg(flow: Flow) -> bool {
    match flow.ticket.instruction {
        Instruction::Amend { iceberg, .. } => iceberg,
        Instruction::Cancel { iceberg, .. } => iceberg,
        _ => false,
    }
}

/// Event `j` of the run answered a look-up of the named resting order (in
/// the iceberg book exactly for iceberg orders) with an order of the
/// requesting trader.
pub open spec fn owned_order_found(flow: Flow, events: Seq<Event>, j: int) -> bool {
    &&& 0 <= j < events.len()
    &&& run(flow, events.take(j)).stage matches Stage::AwaitResting(book) && (book == Book::Iceberg
        <==> names_iceberg(flow))
    &&& events[j] matches Event::Resting(Some(o)) && o.trader_identifier == flow.ticket.trader_identifier
}

spec fn resting_inv(flow: Flow, events: Seq<Event>) -> bool {
    let s = run(flow, events).stage;
    ||| s matches Stage::AwaitResting(book) && book != Book::Limit && book != Book::Stop && book
        != Book::StopLimit && names_iceberg(flow)
    ||| s matches Stage::AwaitResting(book) && book != Book::Iceberg && !names_iceberg(flow)
    ||| s == Stage::Done
    ||| ((s is AwaitBalance || s is AwaitQuote || s is AwaitMargin || s is AwaitDispatch) && exists|j: int|
        #[trigger] owned_order_found(flow, events, j))
}

proof fn lemma_resting_inv(flow: Flow, events: Seq<Event>)
    requires
        flow.ticket.instruction is Amend || flow.ticket.instruction is Cancel,
        flow.stage == opening(flow.ticket).0,
    ensures
        resting_inv(flow, events),
    decreases events.len(),
{
    if events.len() == 0 {
        return;
    }
    let prev = events.drop_last();
    let e = events.last();
    lemma_resting_inv(flow, prev);
    run_extends(flow, prev, e);
    assert(prev.push(e) == events);
    runs_keep_the_admitted_request(flow, prev, e);
    let before = run(flow, prev);
    let after = run(flow, events);
    assert(after.stage == before.next(e).0);
    if exists|j: int| #[trigger] owned_order_found(flow, prev, j) {
        let j = choose|j: int| #[trigger] owned_order_found(flow, prev, j);
        assert(events.take(j) == prev.take(j));
        assert(events[j] == prev[j]);
        assert(owned_order_found(flow, events, j));
    }
    if before.stage is AwaitResting && (e matches Event::Resting(Some(o)) && o.trader_identifier
        == flow.ticket.trader_identifier) {
        let j = prev.len() as int;
        assert(events.take(j) == prev);
        assert(owned_order_found(flow, events, j));
    }
}

/// Law: an amendment or cancellation reaches the matching engine only if,
/// somewhere in its run, the look-up of the order it names (in the iceberg
/// book for an iceberg order, else in the limit, stop or stop-limit book)
/// found an order of the requesting trader.
pub proof fn changed_orders_are_owned(flow: Flow, events: Seq<Event>)
    requires
        flow.ticket.instruction is Amend || flow.ticket.instruction is Cancel,
        flow.stage == opening(flow.ticket).0,
        run(flow, events).stage == Stage::AwaitDispatch,
    ensures
        exists|j: int| #[trigger] owned_order_found(flow, events, j),
{
    lemma_resting_inv(flow, events);
}

/// Event `j` of the run answered the read of the trader's positions with
/// the positions.
pub open spec fn positions_read(flow: Flow, events: Seq<Event>, j: int) -> bool {
    &&& 0 <= j < events.len()
    &&& run(flow, events.take(j)).stage == Stage::AwaitPositions
    &&& events[j] is Positions
    &&& events[j]->Positions_0 is Ok
}

/// The positions read at event `j` leave margin to be checked: the trader
/// holds none, holds some on the order's side (by the first position), or
/// the order exceeds the opposite positions.
pub open spec fn margin_needed(flow: Flow, events: Seq<Event>, j: int) -> bool {
    let ps = events[j]->Positions_0->Ok_0@;
    ps.len() == 0 || ps[0].position_side == flow.side() || flow.quantity() > total_quantity(ps)
}

/// Event `k` of the run answered a margin computation with a requirement
/// below the trader's balance.
pub open spec fn margin_cleared(flow: Flow, events: Seq<Event>, k: int) -> bool {
    &&& 0 <= k < events.len()
    &&& run(flow, events.take(k)).stage matches Stage::AwaitMargin { balance, .. } && (
    events[k] matches Event::Margin(m) && balance > m)
}

spec fn positions_evidence(flow: Flow, events: Seq<Event>, j: int) -> bool {
    let s = run(flow, events).stage;
    &&& positions_read(flow, events, j)
    &&& (s is AwaitBalance || s is AwaitQuote || s is AwaitMargin || s is AwaitDispatch)
    &&& (s is AwaitBalance || s is AwaitQuote || s is AwaitMargin) ==> margin_needed(flow, events, j)
    &&& (s is AwaitDispatch && margin_needed(flow, events, j)) ==> exists|k: int|
        #[trigger] margin_cleared(flow, events, k)
}

spec fn positions_inv(flow: Flow, events: Seq<Event>) -> bool {
    let s = run(flow, events).stage;
    ||| s == Stage::AwaitPositions
    ||| s == Stage::Done
    ||| exists|j: int| #[trigger] positions_evidence(flow, events, j)
}

proof fn lemma_positions_inv(flow: Flow, events: Seq<Event>)
    requires
        flow.ticket.instruction matches Instruction::Open { pointing_at: None, .. },
        flow.stage == Stage::AwaitPositions,
    ensures
        positions_inv(flow, events),
    decreases events.len(),
{
    if events.len() == 0 {
        return;
    }
    let prev = events.drop_last();
    let e = events.last();
    lemma_positions_inv(flow, prev);
    run_extends(flow, prev, e);
    assert(prev.push(e) == events);
    runs_keep_the_admitted_request(flow, prev, e);
    let before = run(flow, prev);
    let after = run(flow, events);
    assert(after.stage == before.next(e).0);
    let n = prev.len() as int;
    if before.stage == Stage::AwaitPositions {
        if e is Positions && e->Positions_0 is Ok && after.stage != Stage::Done {
            assert(events.take(n) == prev);
            assert(positions_read(flow, events, n));
            assert(positions_evidence(flow, events, n));
        }
    } else if exists|j: int| #[trigger] positions_evidence(flow, prev, j) {
        let j = choose|j: int| #[trigger] positions_evidence(flow, prev, j);
        assert(events.take(j) == prev.take(j));
        assert(events[j] == prev[j]);
        assert(positions_read(flow, events, j));
        assert(margin_needed(flow, events, j) == margin_needed(flow, prev, j));
        if after.stage is AwaitDispatch && margin_needed(flow, events, j) {
            if before.stage is AwaitMargin {
                assert(events.take(n) == prev);
                assert(margin_cleared(flow, events, n));
            } else {
                let k = choose|k: int| #[trigger] margin_cleared(flow, prev, k);
                assert(events.take(k) == prev.take(k));
                assert(events[k] == prev[k]);
                assert(margin_cleared(flow, events, k));
            }
        }
        if after.stage != Stage::Done {
            assert(positions_evidence(flow, events, j));
        }
    }
}

/// Law: a new order with no position to close (every iceberg order among
/// them) reaches the matching engine only if, in its run, the trader's
/// positions were read, and, where those positions leave margin to be
/// checked, a margin requirement below the trader's balance was found.
pub proof fn new_orders_read_positions_and_clear_margin(flow: Flow, events: Seq<Event>)
    requires
        flow.ticket.instruction matches Instruction::Open { pointing_at: None, .. },
        flow.stage == opening(flow.ticket).0,
        run(flow, events).stage == Stage::AwaitDispatch,
    ensures
        exists|j: int|
            #[trigger] positions_read(flow, events, j) && (margin_needed(flow, events, j) ==> exists|k: int|
                #[trigger] margin_cleared(flow, events, k)),
{
    lemma_positions_inv(flow, events);
    let j = choose|j: int| #[trigger] positions_evidence(flow, events, j);
    assert(positions_read(flow, events, j));
}

/// Event `j` of the run answered the read of the position the order points
/// at with a position of the requesting trader, on the other side, at
/// least as large as the order.
pub open spec fn position_closable(flow: Flow, events: Seq<Event>, j: int) -> bool {
    &&& 0 <= j < events.len()
    &&& run(flow, events.take(j)).stage == Stage::AwaitPosition
    &&& events[j] matches Event::Position(Ok(p)) && {
        &&& p.trader_identifier == flow.ticket.trader_identifier
        &&& p.position_side != flow.side()
        &&& flow.quantity() <= p.position_quantity
    }
}

spec fn closing_inv(flow: Flow, events: Seq<Event>) -> bool {
    let s = run(flow, events).stage;
    ||| s == Stage::AwaitPosition
    ||| s == Stage::Done
    ||| (s == Stage::AwaitDispatch && exists|j: int| #[trigger] position_closable(flow, events, j))
}

proof fn lemma_closing_inv(flow: Flow, events: Seq<Event>)
    requires
        flow.stage == Stage::AwaitPosition,
    ensures
        closing_inv(flow, events),
    decreases events.len(),
{
    if events.len() == 0 {
        return;
    }
    let prev = events.drop_last();
    let e = events.last();
    lemma_closing_inv(flow, prev);
    run_extends(flow, prev, e);
    assert(prev.push(e) == events);
    runs_keep_the_admitted_request(flow, prev, e);
    let before = run(flow, prev);
    let after = run(flow, events);
    assert(after.stage == before.next(e).0);
    if before.stage == Stage::AwaitPosition && after.stage == Stage::AwaitDispatch {
        let n = prev.len() as int;
        assert(events.take(n) == prev);
        assert(position_closable(flow, events, n));
    }
}

/// Law: an order that points at a position reaches the matching engine
/// only if, in its run, that position was read and belongs to the trader,
/// lies on the other side, and is at least as large as the order.
pub proof fn closing_orders_close_an_owned_position(flow: Flow, events: Seq<Event>)
    requires
        flow.ticket.instruction matches Instruction::Open { pointing_at: Some(_), .. },
        flow.stage == opening(flow.ticket).0,
        run(flow, events).stage == Stage::AwaitDispatch,
    ensures
        exists|j: int| #[trigger] position_closable(flow, events, j),
{
    lemma_closing_inv(flow, events);
}

} // verus!
