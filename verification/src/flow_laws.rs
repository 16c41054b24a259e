use vstd::prelude::*;
use crate::auth::{signature_verdict, SignatureError};
use crate::flow::{opening, rank, run, Action, Event, Flow, Stage};
use crate::order::{total_quantity, Position, Price, RestingOrder, Ticket};
use crate::outcome::Outcome;

verus! {

/// Law: an order goes to the matching engine only after the signature it
/// came with proved to be the HMAC-SHA256 of its body under the broker's
/// key (no admitted request starts with a dispatch), and the flow waits
/// for the dispatch exactly when it asked for it.
pub proof fn dispatch_needs_valid_signature(flow: Flow, event: Event, ticket: Ticket)
    requires
        flow.expects(event),
    ensures
        !(opening(ticket).1 is Dispatch),
        (flow.next(event).1 is Dispatch) <==> (flow.next(event).0 == Stage::AwaitDispatch),
        flow.next(event).1 is Dispatch ==> signature_verdict(flow.body@, flow.signature@, flow.key@)
            == Ok::<bool, SignatureError>(true),
{
}

/// Law: along any run of a flow the order, body, signature and broker key
/// stay those it was admitted with, so whenever a run dispatches, the
/// signature admitted with the request verifies under the key admitted with
/// it.
pub proof fn runs_keep_the_admitted_request(flow: Flow, events: Seq<Event>, event: Event)
    ensures
        run(flow, events).ticket == flow.ticket,
        run(flow, events).body == flow.body,
        run(flow, events).signature == flow.signature,
        run(flow, events).key == flow.key,
        (run(flow, events).expects(event) && run(flow, events).next(event).1 is Dispatch) ==> signature_verdict(
            flow.body@,
            flow.signature@,
            flow.key@,
        ) == Ok::<bool, SignatureError>(true),
    decreases events.len(),
{
    if events.len() > 0 {
        runs_keep_the_admitted_request(flow, events.drop_last(), events.last());
    }
    let last = run(flow, events);
    if last.expects(event) {
        dispatch_needs_valid_signature(last, event, flow.ticket);
    }
}

/// Law: a request is answered as accepted exactly when its order was
/// dispatched and the matching engine took it.
pub proof fn accepted_only_after_dispatch(flow: Flow, event: Event)
    requires
        flow.expects(event),
    ensures
        (flow.next(event).1 matches Action::Respond(Outcome::Accepted)) <==> (flow.stage == Stage::AwaitDispatch
            && event matches Event::Dispatched(true)),
{
}

/// Law: every answer from outside moves the flow strictly closer to its
/// end, it ends exactly when it answers the broker, and once answered it
/// takes nothing more; a request therefore gets exactly one answer after
/// at most seven steps.
pub proof fn every_request_ends(flow: Flow, event: Event, ticket: Ticket)
    ensures
        flow.expects(event) ==> rank(flow.next(event).0) < rank(flow.stage),
        flow.expects(event) ==> ((flow.next(event).1 is Respond) <==> (flow.next(event).0 == Stage::Done)),
        flow.stage == Stage::Done ==> !flow.expects(event),
        rank(opening(ticket).0) <= 7,
{
}

/// Law: an order that closes a position is dispatched only if the
/// position belongs to the trader, lies on the other side, and is at least
/// as large as the order.
pub proof fn closing_order_closes(flow: Flow, position: Position)
    requires
        flow.stage == Stage::AwaitPosition,
    ensures
        flow.next(Event::Position(Ok::<Position, String>(position))).1 is Dispatch ==> {
            &&& position.trader_identifier == flow.ticket.trader_identifier
            &&& position.position_side != flow.side()
            &&& flow.quantity() <= position.position_quantity
        },
{
}

/// Law: a new order without a position to close needs margin for its
/// whole quantity when the trader holds no position or one on its side,
/// needs margin only for what exceeds the opposite positions otherwise,
/// and needs none when it does not exceed them.
pub proof fn margin_covers_new_exposure(flow: Flow, positions: Vec<Position>)
    requires
        flow.stage == Stage::AwaitPositions,
        flow.in_range(Event::Positions(Ok::<Vec<Position>, String>(positions))),
    ensures
        ({
            let (stage, action) = flow.next(Event::Positions(Ok::<Vec<Position>, String>(positions)));
            let q = flow.quantity();
            let total = total_quantity(positions@);
            if positions@.len() == 0 || positions@[0].position_side == flow.side() {
                &&& stage == Stage::AwaitBalance { exposure: q, partial: false, price: flow.price() }
                &&& action == Action::FetchBalance(flow.ticket.trader_identifier)
            } else if q > total {
                &&& stage matches Stage::AwaitBalance { exposure, partial: true, .. } && exposure == q - total
                    && exposure > 0
                &&& action == Action::FetchBalance(flow.ticket.trader_identifier)
            } else {
                (stage, action) == flow.spec_authenticate()
            }
        }),
{
}

/// Law: after a margin check the order is refused for insufficient margin
/// exactly when the balance does not exceed the requirement, and otherwise
/// goes on to signature verification.
pub proof fn balance_must_exceed_margin(flow: Flow, exposure: i32, partial: bool, balance: i32, margin: i32)
    requires
        flow.stage == (Stage::AwaitMargin { exposure, partial, balance }),
    ensures
        balance <= margin ==> flow.next(Event::Margin(margin)).1 == Action::Respond(
            Outcome::InsufficientMargin { exposure, partial },
        ),
        balance > margin ==> flow.next(Event::Margin(margin)) == flow.spec_authenticate(),
{
}

/// Law: a resting order can only be amended or cancelled by the trader who
/// owns it, and an amendment needs margin, at the resting order's price,
/// exactly when it raises the quantity.
pub proof fn only_owner_changes_resting_order(flow: Flow, book: crate::order::Book, order: RestingOrder)
    requires
        flow.stage == Stage::AwaitResting(book),
    ensures
        ({
            let (stage, action) = flow.next(Event::Resting(Some(order)));
            if order.trader_identifier != flow.ticket.trader_identifier {
                action == Action::Respond(Outcome::NotOrderOwner)
            } else if flow.ticket.instruction is Amend && flow.quantity() > order.quantity {
                stage == (Stage::AwaitBalance {
                    exposure: flow.quantity(),
                    partial: false,
                    price: Price::Fixed(order.price),
                })
            } else {
                (stage, action) == flow.spec_authenticate()
            }
        }),
{
}

} // verus!
