use vstd::prelude::*;
use crate::auth::{signature_verdict, SignatureError};
use crate::flow::{opening, run, screen, Action, Decoded, Event, Flow, SignatureHeader, SpecCheck, Stage, Submission, Venue};
use crate::order::{Book, Instruction, Position, Price, Quote, Side, Ticket};
use crate::outcome::{Outcome, Status};

verus! {

/// Law: the signature check dispatches a correctly signed request, answers
/// a wrongly signed one as unauthorized-signature, and one whose signature
/// is not hexadecimal as a failed check.
pub proof fn signature_check_decides(flow: Flow)
    ensures
        signature_verdict(flow.body@, flow.signature@, flow.key@) == Ok::<bool, SignatureError>(true)
            ==> flow.spec_authenticate() == (Stage::AwaitDispatch, Action::Dispatch),
        signature_verdict(flow.body@, flow.signature@, flow.key@) == Ok::<bool, SignatureError>(false)
            ==> flow.spec_authenticate() == (Stage::Done, Action::Respond(Outcome::BadSignature)),
        signature_verdict(flow.body@, flow.signature@, flow.key@) is Err ==> flow.spec_authenticate() == (
        Stage::Done, Action::Respond(Outcome::SignatureCheckFailed)),
{
}

/// Law: an order that points at a position is refused when the position
/// cannot be read, belongs to another trader, lies on the order's side, or
/// is smaller than the order; any position of the trader on the other side
/// at least as large as the order (a full or a partial close) passes to
/// the signature check.
pub proof fn position_answer_decides(
    flow: Flow,
    found: Result<Position, String>,
    side: Side,
    quantity: i32,
    price: Price,
    id: u64,
)
    requires
        flow.stage == Stage::AwaitPosition,
        flow.ticket.instruction == (Instruction::Open { side, quantity, price, pointing_at: Some(id) }),
    ensures
        ({
            let r = flow.next(Event::Position(found));
            match found {
                Err(e) => r == (Stage::Done, Action::Respond(Outcome::PositionNotFound(e))),
                Ok(p) => {
                    &&& p.trader_identifier != flow.ticket.trader_identifier ==> r == (
                        Stage::Done,
                        Action::Respond(Outcome::NotPositionOwner),
                    )
                    &&& (p.trader_identifier == flow.ticket.trader_identifier && p.position_side == side)
                        ==> r == (Stage::Done, Action::Respond(Outcome::SameSideAsPosition(side)))
                    &&& (p.trader_identifier == flow.ticket.trader_identifier && p.position_side != side
                        && quantity > p.position_quantity) ==> r == (
                        Stage::Done,
                        Action::Respond(
                            Outcome::ExceedsPosition { quantity, position_quantity: p.position_quantity },
                        ),
                    )
                    &&& (p.trader_identifier == flow.ticket.trader_identifier && p.position_side != side
                        && quantity <= p.position_quantity) ==> r == flow.spec_authenticate()
                },
            }
        }),
{
}

/// Law: the balance read for a margin check is the balance the margin is
/// later compared with; a fixed price goes straight to the margin
/// computation for the exposure at that price, a market price first reads
/// the quote; an unreadable balance ends the request.
pub proof fn balance_answer_decides(flow: Flow, exposure: i32, partial: bool, price: Price, balance: Option<i32>)
    requires
        flow.stage == (Stage::AwaitBalance { exposure, partial, price }),
    ensures
        ({
            let r = flow.next(Event::Balance(balance));
            match balance {
                None => r == (Stage::Done, Action::Respond(Outcome::BalanceUnavailable)),
                Some(b) => match price {
                    Price::Fixed(p) => r == (
                        Stage::AwaitMargin { exposure, partial, balance: b },
                        Action::ComputeMargin { quantity: exposure, price: p },
                    ),
                    Price::Best => r == (Stage::AwaitQuote { exposure, partial, balance: b }, Action::ReadQuote),
                },
            }
        }),
{
}

/// Law: a market order is priced at the ask when long and at the bid when
/// short, and the margin stage keeps the exposure and the balance it was
/// waiting with.
pub proof fn quote_answer_decides(
    flow: Flow,
    exposure: i32,
    partial: bool,
    balance: i32,
    quote: Option<Quote>,
    side: Side,
    quantity: i32,
    pointing_at: Option<u64>,
)
    requires
        flow.stage == (Stage::AwaitQuote { exposure, partial, balance }),
        flow.ticket.instruction == (Instruction::Open { side, quantity, price: Price::Best, pointing_at }),
    ensures
        ({
            let r = flow.next(Event::Quote(quote));
            match quote {
                None => r == (Stage::Done, Action::Respond(Outcome::QuoteUnavailable)),
                Some(q) => {
                    let wanted = if side == Side::Long { q.ask_price } else { q.bid_price };
                    &&& side == Side::Long ==> wanted == q.ask_price
                    &&& side == Side::Short ==> wanted == q.bid_price
                    &&& wanted is None ==> r == (Stage::Done, Action::Respond(Outcome::NoQuotePrice))
                    &&& wanted matches Some(p) ==> r == (
                        Stage::AwaitMargin { exposure, partial, balance },
                        Action::ComputeMargin { quantity: exposure, price: p },
                    )
                },
            }
        }),
{
}

/// Law: along the balance, quote and margin answers of a market order, the
/// order is dispatched exactly when the balance read exceeds the margin
/// computed at the opposite best price and the signature verifies; when
/// the balance does not exceed it, the order is refused for margin.
pub proof fn market_margin_run(
    flow: Flow,
    exposure: i32,
    partial: bool,
    balance: i32,
    quote: Quote,
    margin: i32,
    side: Side,
    quantity: i32,
    pointing_at: Option<u64>,
)
    requires
        flow.stage == (Stage::AwaitBalance { exposure, partial, price: Price::Best }),
        flow.ticket.instruction == (Instruction::Open { side, quantity, price: Price::Best, pointing_at }),
        (if side == Side::Long { quote.ask_price } else { quote.bid_price }) is Some,
    ensures
        ({
            let events = seq![Event::Balance(Some(balance)), Event::Quote(Some(quote)), Event::Margin(margin)];
            let last = run(flow, events.drop_last());
            &&& (run(flow, events).stage == Stage::AwaitDispatch) <==> (balance > margin && signature_verdict(
                flow.body@,
                flow.signature@,
                flow.key@,
            ) == Ok::<bool, SignatureError>(true))
            &&& balance <= margin ==> last.next(Event::Margin(margin)).1 == Action::Respond(
                Outcome::InsufficientMargin { exposure, partial },
            )
        }),
{
    let events = seq![Event::Balance(Some(balance)), Event::Quote(Some(quote)), Event::Margin(margin)];
    let e1 = events.take(1);
    let e2 = events.take(2);
    assert(e1.drop_last() =~= Seq::<Event>::empty());
    assert(e2.drop_last() =~= e1);
    assert(events.drop_last() =~= e2);
    assert(events.take(3) =~= events);
    assert(e1.last() == Event::Balance(Some(balance)));
    assert(e2.last() == Event::Quote(Some(quote)));
    assert(events.last() == Event::Margin(margin));
    assert(run(flow, e1.drop_last()) == flow);
    let f1 = run(flow, e1);
    assert(f1 == flow.advance(Event::Balance(Some(balance))));
    assert(f1.stage == (Stage::AwaitQuote { exposure, partial, balance }));
    let f2 = run(flow, e2);
    assert(f2 == f1.advance(Event::Quote(Some(quote))));
    assert(f2.stage matches Stage::AwaitMargin { exposure: x, partial: y, balance: z } && x == exposure && y
        == partial && z == balance);
    assert(run(flow, events) == f2.advance(Event::Margin(margin)));
    signature_check_decides(f2);
}

/// Law: a non-iceberg amendment or cancellation whose order is not in the
/// limit book looks for the same order in the stop book, then in the
/// stop-limit book, and is answered as not found only after all three.
pub proof fn missing_order_search(flow: Flow, book: Book, target: u64)
    requires
        flow.stage == Stage::AwaitResting(book),
        (flow.ticket.instruction matches Instruction::Cancel { target: t, iceberg: false } && t == target)
            || (flow.ticket.instruction matches Instruction::Amend { target: t, iceberg: false, .. } && t
            == target),
    ensures
        book == Book::Limit ==> flow.next(Event::Resting(None)) == (
            Stage::AwaitResting(Book::Stop),
            Action::FetchResting { book: Book::Stop, target },
        ),
        book == Book::Stop ==> flow.next(Event::Resting(None)) == (
            Stage::AwaitResting(Book::StopLimit),
            Action::FetchResting { book: Book::StopLimit, target },
        ),
        book == Book::StopLimit ==> flow.next(Event::Resting(None)) == (
            Stage::Done,
            Action::Respond(Outcome::OrderNotFound),
        ),
        book == Book::Iceberg ==> flow.next(Event::Resting(None)) == (
            Stage::Done,
            Action::Respond(Outcome::IcebergNotFound),
        ),
{
}

/// Law: screening refuses, in this order, a request without a signature
/// header, with an unreadable one, whose body did not decode, from an
/// unknown broker, for another market, or that failed the order rules;
/// every request but a cancellation is then refused when its market has no
/// specification or fails it, and a cancellation is admitted whatever its
/// specification check says.
pub proof fn screening_decides(submission: Submission, venue: Venue, d: Decoded)
    ensures
        submission.signature is Missing ==> screen(submission, venue) == Some(Outcome::MissingSignature),
        submission.signature is Unreadable ==> screen(submission, venue) == Some(
            Outcome::UnreadableSignature,
        ),
        (submission.signature is Present && submission.decoded is None) ==> screen(submission, venue) == Some(
            Outcome::Undecodable,
        ),
        (submission.signature is Present && submission.decoded == Some(d)) ==> {
            let known = venue.brokers.view().dom().contains(d.ticket.broker_identifier@);
            let same_market = d.ticket.market@ == venue.market_name@;
            &&& !known ==> screen(submission, venue) == Some(Outcome::UnknownBroker)
            &&& (known && !same_market) ==> screen(submission, venue) == Some(Outcome::WrongMarket)
            &&& (known && same_market) ==> match d.order_check {
                Err(e) => screen(submission, venue) == Some(Outcome::Invalid(e)),
                Ok(()) => {
                    &&& d.ticket.instruction is Cancel ==> screen(submission, venue) is None
                    &&& (d.ticket.instruction is Open || d.ticket.instruction is Amend) ==> match d.spec_check {
                        SpecCheck::Unlisted => screen(submission, venue) == Some(Outcome::UnknownMarketSpec),
                        SpecCheck::Checked(Err(e)) => screen(submission, venue) == Some(Outcome::Invalid(e)),
                        SpecCheck::Checked(Ok(())) => screen(submission, venue) is None,
                    }
                },
            }
        },
{
}

/// Law: every answer has its HTTP status: failures of the instrument's own
/// stores and channel are server errors, a wrong signature is unauthorized,
/// an accepted order is a success, and every other refusal is a bad
/// request.
pub proof fn statuses_of_answers(o: Outcome)
    ensures
        (o is PositionNotFound || o is PositionsUnavailable || o is BalanceUnavailable || o is QuoteUnavailable
            || o is OrderNotFound || o is IcebergNotFound || o is DispatchFailed) ==> o.status()
            == Status::InternalServerError,
        o is BadSignature ==> o.status() == Status::Unauthorized,
        o is Accepted ==> o.status() == Status::Success,
        (o is MissingSignature || o is UnreadableSignature || o is Undecodable || o is UnknownBroker
            || o is WrongMarket || o is Invalid || o is UnknownMarketSpec || o is NotPositionOwner
            || o is SameSideAsPosition || o is ExceedsPosition || o is NoQuotePrice || o is InsufficientMargin
            || o is NotOrderOwner || o is SignatureCheckFailed) ==> o.status() == Status::BadRequest,
{
}

/// Law: the order's side, quantity, price and target are read off its
/// instruction: a new order's own side, quantity and price, an amendment's
/// new quantity and target, a cancellation's target.
pub proof fn order_terms(flow: Flow)
    ensures
        flow.ticket.instruction matches Instruction::Open { side, quantity, price, .. } ==> {
            &&& flow.side() == side
            &&& flow.quantity() == quantity
            &&& flow.price() == price
        },
        flow.ticket.instruction matches Instruction::Amend { target, new_quantity, .. } ==> {
            &&& flow.quantity() == new_quantity
            &&& flow.target() == target
        },
        flow.ticket.instruction matches Instruction::Cancel { target, .. } ==> flow.target() == target,
{
}

/// Law: a closing order first reads the position it points at, a new order
/// without one first reads the trader's positions, and an amendment or
/// cancellation first looks for the order it names, in the iceberg book
/// for an iceberg order and in the limit book otherwise.
pub proof fn first_action_decides(ticket: Ticket)
    ensures
        ticket.instruction matches Instruction::Open { pointing_at: Some(p), .. } ==> opening(ticket) == (
            Stage::AwaitPosition,
            Action::FetchPosition(p),
        ),
        ticket.instruction matches Instruction::Open { pointing_at: None, .. } ==> opening(ticket) == (
            Stage::AwaitPositions,
            Action::FetchPositions(ticket.trader_identifier),
        ),
        ticket.instruction matches Instruction::Amend { target, iceberg: true, .. } ==> opening(ticket) == (
            Stage::AwaitResting(Book::Iceberg),
            Action::FetchResting { book: Book::Iceberg, target },
        ),
        ticket.instruction matches Instruction::Cancel { target, iceberg: true } ==> opening(ticket) == (
            Stage::AwaitResting(Book::Iceberg),
            Action::FetchResting { book: Book::Iceberg, target },
        ),
        ticket.instruction matches Instruction::Amend { target, iceberg: false, .. } ==> opening(ticket)
            == (Stage::AwaitResting(Book::Limit), Action::FetchResting { book: Book::Limit, target }),
        ticket.instruction matches Instruction::Cancel { target, iceberg: false } ==> opening(ticket) == (
            Stage::AwaitResting(Book::Limit),
            Action::FetchResting { book: Book::Limit, target },
        ),
{
}

/// Law: the answer to a dispatch is acceptance when the matching engine
/// took the order and a server-side failure when it did not.
pub proof fn dispatch_answer_decides(flow: Flow, sent: bool)
    requires
        flow.stage == Stage::AwaitDispatch,
    ensures
        sent ==> flow.next(Event::Dispatched(sent)) == (Stage::Done, Action::Respond(Outcome::Accepted)),
        !sent ==> flow.next(Event::Dispatched(sent)) == (Stage::Done, Action::Respond(Outcome::DispatchFailed)),
{
}

} // verus!
