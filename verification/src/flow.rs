use vstd::prelude::*;
use crate::auth::{signature_verdict, verify_hmac};
use crate::brokers::BrokerDirectory;
use crate::order::{sum_quantities, total_quantity, running_totals_fit, Book, Instruction, Position, Price, Quote, RestingOrder, Side, Ticket};
use crate::outcome::Outcome;

verus! {

/// The `X-HMAC-SIGNATURE` header of a request.
#[derive(Debug)]
pub enum SignatureHeader {
    Missing,
    /// Present but not readable as text.
    Unreadable,
    /// The header's text, as bytes.
    Present(Vec<u8>),
}

/// Whether the order's market has a specification, and how the order fared
/// against it.
#[derive(Debug)]
pub enum SpecCheck {
    Unlisted,
    Checked(Result<(), String>),
}

/// A request body that decoded into an order, with the verdicts of the
/// order's validation rules.
#[derive(Debug)]
pub struct Decoded {
    pub ticket: Ticket,
    pub order_check: Result<(), String>,
    pub spec_check: SpecCheck,
}

/// A broker's request as it reached the instrument.
#[derive(Debug)]
pub struct Submission {
    pub signature: SignatureHeader,
    pub body: Vec<u8>,
    /// `None` when the body did not decode.
    pub decoded: Option<Decoded>,
}

/// The instrument a request is addressed to.
pub struct Venue {
    pub market_name: String,
    pub brokers: BrokerDirectory,
}

/// Where an admission stands: which answer from outside it waits for.
#[derive(PartialEq, Eq, Structural, Clone, Copy, Debug)]
pub enum Stage {
    /// The position a closing order points at.
    AwaitPosition,
    /// All open positions of the trader.
    AwaitPositions,
    /// The trader's balance, before a margin check on `exposure`
    /// contracts at `price`.
    AwaitBalance { exposure: i32, partial: bool, price: Price },
    /// The best bid and offer, for a margin check at market price.
    AwaitQuote { exposure: i32, partial: bool, balance: i32 },
    /// The margin required for `exposure` contracts.
    AwaitMargin { exposure: i32, partial: bool, balance: i32 },
    /// The order to amend or cancel, in `Book`.
    AwaitResting(Book),
    /// Whether the order reached the matching engine.
    AwaitDispatch,
    /// Answered.
    Done,
}

/// What the instrument must do next for a request.
#[derive(Debug)]
pub enum Action {
    /// Fetch the position with this identifier.
    FetchPosition(u64),
    /// Fetch every open position of this trader.
    FetchPositions(u64),
    /// Fetch this trader's balance.
    FetchBalance(u64),
    /// Read the best bid and offer.
    ReadQuote,
    /// Compute the margin required for `quantity` contracts at `price`.
    ComputeMargin { quantity: i32, price: i32 },
    /// Look for the resting order `target` in `book`.
    FetchResting { book: Book, target: u64 },
    /// Hand the order to the matching engine.
    Dispatch,
    /// Answer the broker.
    Respond(Outcome),
}

/// What came back from outside.
#[derive(Debug)]
pub enum Event {
    Position(Result<Position, String>),
    Positions(Result<Vec<Position>, String>),
    /// `None` when the balance could not be fetched.
    Balance(Option<i32>),
    /// `None` when the best bid and offer could not be read.
    Quote(Option<Quote>),
    /// The required margin, rounded to a whole number.
    Margin(i32),
    /// `None` when the book holds no such order.
    Resting(Option<RestingOrder>),
    /// Whether the matching engine took the order.
    Dispatched(bool),
}

/// An admitted request on its way through the position and margin checks
/// to signature verification and dispatch.
#[derive(Debug)]
pub struct Flow {
    pub ticket: Ticket,
    pub body: Vec<u8>,
    pub signature: Vec<u8>,
    /// The broker's key.
    pub key: String,
    pub stage: Stage,
}

/// The answer that ends a request.
pub open spec fn done(outcome: Outcome) -> (Stage, Action) {
    (Stage::Done, Action::Respond(outcome))
}

/// The rejection a submission meets before any stored data is read, if
/// any; the checks run in this order.
pub open spec fn screen(submission: Submission, venue: Venue) -> Option<Outcome> {
    match submission.signature {
        SignatureHeader::Missing => Some(Outcome::MissingSignature),
        SignatureHeader::Unreadable => Some(Outcome::UnreadableSignature),
        SignatureHeader::Present(_) => match submission.decoded {
            None => Some(Outcome::Undecodable),
            Some(d) => {
                if !venue.brokers.view().dom().contains(d.ticket.broker_identifier@) {
                    Some(Outcome::UnknownBroker)
                } else if d.ticket.market@ != venue.market_name@ {
                    Some(Outcome::WrongMarket)
                } else if d.order_check is Err {
                    Some(Outcome::Invalid(d.order_check->Err_0))
                } else if d.ticket.instruction is Cancel {
                    None
                } else {
                    match d.spec_check {
                        SpecCheck::Unlisted => Some(Outcome::UnknownMarketSpec),
                        SpecCheck::Checked(Err(e)) => Some(Outcome::Invalid(e)),
                        SpecCheck::Checked(Ok(())) => None,
                    }
                }
            },
        },
    }
}

/// The first stage and action of an admitted ticket.
pub open spec fn opening(ticket: Ticket) -> (Stage, Action) {
    match ticket.instruction {
        Instruction::Open { pointing_at: Some(p), .. } => (Stage::AwaitPosition, Action::FetchPosition(p)),
        Instruction::Open { pointing_at: None, .. } => (
            Stage::AwaitPositions,
            Action::FetchPositions(ticket.trader_identifier),
        ),
        Instruction::Amend { target, iceberg, .. } | Instruction::Cancel { target, iceberg } => {
            let book = if iceberg { Book::Iceberg } else { Book::Limit };
            (Stage::AwaitResting(book), Action::FetchResting { book, target })
        },
    }
}

/// What a balance answer leads to.
pub open spec fn spec_after_balance(exposure: i32, partial: bool, price: Price, balance: Option<i32>) -> (Stage, Action) {
    match balance {
        None => done(Outcome::BalanceUnavailable),
        Some(b) => match price {
            Price::Fixed(p) => (
                Stage::AwaitMargin { exposure, partial, balance: b },
                Action::ComputeMargin { quantity: exposure, price: p },
            ),
            Price::Best => (Stage::AwaitQuote { exposure, partial, balance: b }, Action::ReadQuote),
        },
    }
}

/// What the dispatch answer leads to.
pub open spec fn spec_after_dispatch(sent: bool) -> (Stage, Action) {
    if sent {
        done(Outcome::Accepted)
    } else {
        done(Outcome::DispatchFailed)
    }
}

/// Screens a request to save the state of the order book: it must name
/// this instrument's market.
pub fn screen_save(market: &String, market_name: &String) -> (rejection: Option<Outcome>)
    ensures
        match rejection {
            Some(o) => o is WrongMarket && market@ != market_name@,
            None => market@ == market_name@,
        },
{
    if *market != *market_name {
        Some(Outcome::WrongMarket)
    } else {
        None
    }
}

/// The flow after a sequence of events.
pub open spec fn run(flow: Flow, events: Seq<Event>) -> Flow
    decreases events.len(),
{
    if events.len() == 0 {
        flow
    } else {
        run(flow, events.drop_last()).advance(events.last())
    }
}

/// Rank of a stage: every step lowers it, and only `Done` has rank 0.
pub open spec fn rank(stage: Stage) -> nat {
    match stage {
        Stage::Done => 0,
        Stage::AwaitDispatch => 1,
        Stage::AwaitMargin { .. } => 2,
        Stage::AwaitQuote { .. } => 3,
        Stage::AwaitBalance { .. } => 4,
        Stage::AwaitPosition => 5,
        Stage::AwaitPositions => 5,
        Stage::AwaitResting(Book::Iceberg) => 5,
        Stage::AwaitResting(Book::StopLimit) => 5,
        Stage::AwaitResting(Book::Stop) => 6,
        Stage::AwaitResting(Book::Limit) => 7,
    }
}

impl Flow {
    /// Side of the order (long for amendments and cancellations, which
    /// carry none).
    pub open spec fn side(self) -> Side {
        match self.ticket.instruction {
            Instruction::Open { side, .. } => side,
            _ => Side::Long,
        }
    }

    /// Quantity the order asks for: the order quantity, or the new quantity
    /// of an amendment (0 for a cancellation).
    pub open spec fn quantity(self) -> i32 {
        match self.ticket.instruction {
            Instruction::Open { quantity, .. } => quantity,
            Instruction::Amend { new_quantity, .. } => new_quantity,
            Instruction::Cancel { .. } => 0,
        }
    }

    /// Price a new order's margin is computed at.
    pub open spec fn price(self) -> Price {
        match self.ticket.instruction {
            Instruction::Open { price, .. } => price,
            _ => Price::Best,
        }
    }

    /// The resting order an amendment or cancellation names (0 for a new
    /// order).
    pub open spec fn target(self) -> u64 {
        match self.ticket.instruction {
            Instruction::Amend { target, .. } => target,
            Instruction::Cancel { target, .. } => target,
            _ => 0,
        }
    }

    /// The last check: the signature decides between dispatch and refusal.
    pub open spec fn spec_authenticate(self) -> (Stage, Action) {
        match signature_verdict(self.body@, self.signature@, self.key@) {
            Ok(true) => (Stage::AwaitDispatch, Action::Dispatch),
            Ok(false) => done(Outcome::BadSignature),
            Err(_) => done(Outcome::SignatureCheckFailed),
        }
    }

    /// A closing order must close a position of the same trader, on the
    /// other side, of at least its quantity.
    pub open spec fn spec_after_position(self, found: Result<Position, String>) -> (Stage, Action) {
        match found {
            Err(e) => done(Outcome::PositionNotFound(e)),
            Ok(p) => {
                if p.trader_identifier != self.ticket.trader_identifier {
                    done(Outcome::NotPositionOwner)
                } else if p.position_side == self.side() {
                    done(Outcome::SameSideAsPosition(p.position_side))
                } else if self.quantity() > p.position_quantity {
                    done(
                        Outcome::ExceedsPosition {
                            quantity: self.quantity(),
                            position_quantity: p.position_quantity,
                        },
                    )
                } else {
                    self.spec_authenticate()
                }
            },
        }
    }

    /// A new order needs margin for its whole quantity when the trader
    /// holds no position or holds one on the same side (judged by the first
    /// position), and for the part beyond the opposite positions otherwise.
    pub open spec fn spec_after_positions(self, found: Result<Vec<Position>, String>) -> (Stage, Action) {
        match found {
            Err(e) => done(Outcome::PositionsUnavailable(e)),
            Ok(ps) => {
                if ps@.len() == 0 || ps@[0].position_side == self.side() {
                    (
                        Stage::AwaitBalance { exposure: self.quantity(), partial: false, price: self.price() },
                        Action::FetchBalance(self.ticket.trader_identifier),
                    )
                } else if self.quantity() > total_quantity(ps@) {
                    (
                        Stage::AwaitBalance {
                            exposure: (self.quantity() - total_quantity(ps@)) as i32,
                            partial: true,
                            price: self.price(),
                        },
                        Action::FetchBalance(self.ticket.trader_identifier),
                    )
                } else {
                    self.spec_authenticate()
                }
            },
        }
    }

    /// A market order is priced at the ask when long and at the bid when
    /// short.
    pub open spec fn spec_after_quote(self, exposure: i32, partial: bool, balance: i32, quote: Option<Quote>) -> (Stage, Action) {
        match quote {
            None => done(Outcome::QuoteUnavailable),
            Some(q) => {
                let price = match self.side() {
                    Side::Long => q.ask_price,
                    Side::Short => q.bid_price,
                };
                match price {
                    None => done(Outcome::NoQuotePrice),
                    Some(p) => (
                        Stage::AwaitMargin { exposure, partial, balance },
                        Action::ComputeMargin { quantity: exposure, price: p },
                    ),
                }
            },
        }
    }

    /// The balance must exceed the margin requirement.
    pub open spec fn spec_after_margin(self, exposure: i32, partial: bool, balance: i32, margin: i32) -> (Stage, Action) {
        if balance <= margin {
            done(Outcome::InsufficientMargin { exposure, partial })
        } else {
            self.spec_authenticate()
        }
    }

    /// An order to amend or cancel is looked up in the limit, then the
    /// stop, then the stop-limit book (icebergs in their own); it must
    /// belong to the trader, and raising its quantity needs margin at its
    /// price.
    pub open spec fn spec_after_resting(self, book: Book, found: Option<RestingOrder>) -> (Stage, Action) {
        match found {
            None => match book {
                Book::Limit => (
                    Stage::AwaitResting(Book::Stop),
                    Action::FetchResting { book: Book::Stop, target: self.target() },
                ),
                Book::Stop => (
                    Stage::AwaitResting(Book::StopLimit),
                    Action::FetchResting { book: Book::StopLimit, target: self.target() },
                ),
                Book::StopLimit => done(Outcome::OrderNotFound),
                Book::Iceberg => done(Outcome::IcebergNotFound),
            },
            Some(o) => {
                if o.trader_identifier != self.ticket.trader_identifier {
                    done(Outcome::NotOrderOwner)
                } else if self.ticket.instruction is Amend && self.quantity() > o.quantity {
                    (
                        Stage::AwaitBalance {
                            exposure: self.quantity(),
                            partial: false,
                            price: Price::Fixed(o.price),
                        },
                        Action::FetchBalance(self.ticket.trader_identifier),
                    )
                } else {
                    self.spec_authenticate()
                }
            },
        }
    }

    /// The event answers the action the flow last asked for.
    pub open spec fn expects(self, event: Event) -> bool {
        match (self.stage, event) {
            (Stage::AwaitPosition, Event::Position(_)) => true,
            (Stage::AwaitPositions, Event::Positions(_)) => true,
            (Stage::AwaitBalance { .. }, Event::Balance(_)) => true,
            (Stage::AwaitQuote { .. }, Event::Quote(_)) => true,
            (Stage::AwaitMargin { .. }, Event::Margin(_)) => true,
            (Stage::AwaitResting(_), Event::Resting(_)) => true,
            (Stage::AwaitDispatch, Event::Dispatched(_)) => true,
            _ => false,
        }
    }

    /// The event's numbers stay within `i32` where the checks add them up:
    /// the running totals of opposite positions, and the quantity beyond
    /// them.
    pub open spec fn in_range(self, event: Event) -> bool {
        match event {
            Event::Positions(Ok(ps)) => (ps@.len() > 0 && ps@[0].position_side != self.side()) ==> {
                &&& running_totals_fit(ps@)
                &&& self.quantity() - total_quantity(ps@) <= i32::MAX
            },
            _ => true,
        }
    }

    /// The flow after an event: same request, next stage.
    pub open spec fn advance(self, event: Event) -> Flow {
        Flow {
            ticket: self.ticket,
            body: self.body,
            signature: self.signature,
            key: self.key,
            stage: self.next(event).0,
        }
    }

    /// The stage and action an event leads to.
    pub open spec fn next(self, event: Event) -> (Stage, Action) {
        match (self.stage, event) {
            (Stage::AwaitPosition, Event::Position(found)) => self.spec_after_position(found),
            (Stage::AwaitPositions, Event::Positions(found)) => self.spec_after_positions(found),
            (Stage::AwaitBalance { exposure, partial, price }, Event::Balance(b)) => spec_after_balance(
                exposure,
                partial,
                price,
                b,
            ),
            (Stage::AwaitQuote { exposure, partial, balance }, Event::Quote(q)) => self.spec_after_quote(
                exposure,
                partial,
                balance,
                q,
            ),
            (Stage::AwaitMargin { exposure, partial, balance }, Event::Margin(m)) => self.spec_after_margin(
                exposure,
                partial,
                balance,
                m,
            ),
            (Stage::AwaitResting(book), Event::Resting(found)) => self.spec_after_resting(book, found),
            (Stage::AwaitDispatch, Event::Dispatched(sent)) => spec_after_dispatch(sent),
            // an event that answers no pending action; `step` never takes one
            _ => done(Outcome::Undecodable),
        }
    }

    fn order_side(&self) -> (side: Side)
        ensures
            side == self.side(),
    {
        match &self.ticket.instruction {
            Instruction::Open { side, .. } => *side,
            _ => Side::Long,
        }
    }

    fn order_quantity(&self) -> (quantity: i32)
        ensures
            quantity == self.quantity(),
    {
        match &self.ticket.instruction {
            Instruction::Open { quantity, .. } => *quantity,
            Instruction::Amend { new_quantity, .. } => *new_quantity,
            Instruction::Cancel { .. } => 0,
        }
    }

    fn order_price(&self) -> (price: Price)
        ensures
            price == self.price(),
    {
        match &self.ticket.instruction {
            Instruction::Open { price, .. } => *price,
            _ => Price::Best,
        }
    }

    fn order_target(&self) -> (target: u64)
        ensures
            target == self.target(),
    {
        match &self.ticket.instruction {
            Instruction::Amend { target, .. } => *target,
            Instruction::Cancel { target, .. } => *target,
            _ => 0,
        }
    }

    fn authenticate(&self) -> (r: (Stage, Action))
        ensures
            r == self.spec_authenticate(),
    {
        match verify_hmac(self.body.as_slice(), self.signature.as_slice(), self.key.as_str()) {
            Ok(true) => (Stage::AwaitDispatch, Action::Dispatch),
            Ok(false) => (Stage::Done, Action::Respond(Outcome::BadSignature)),
            Err(_) => (Stage::Done, Action::Respond(Outcome::SignatureCheckFailed)),
        }
    }

    fn after_position(&self, found: Result<Position, String>) -> (r: (Stage, Action))
        ensures
            r == self.spec_after_position(found),
    {
        match found {
            Err(e) => (Stage::Done, Action::Respond(Outcome::PositionNotFound(e))),
            Ok(p) => {
                let quantity = self.order_quantity();
                if p.trader_identifier != self.ticket.trader_identifier {
                    (Stage::Done, Action::Respond(Outcome::NotPositionOwner))
                } else if p.position_side == self.order_side() {
                    (Stage::Done, Action::Respond(Outcome::SameSideAsPosition(p.position_side)))
                } else if quantity > p.position_quantity {
                    (
                        Stage::Done,
                        Action::Respond(
                            Outcome::ExceedsPosition { quantity, position_quantity: p.position_quantity },
                        ),
                    )
                } else {
                    self.authenticate()
                }
            },
        }
    }

    fn after_positions(&self, found: Result<Vec<Position>, String>) -> (r: (Stage, Action))
        requires
            self.in_range(Event::Positions(found)),
        ensures
            r == self.spec_after_positions(found),
    {
        match found {
            Err(e) => (Stage::Done, Action::Respond(Outcome::PositionsUnavailable(e))),
            Ok(ps) => {
                let quantity = self.order_quantity();
                if ps.len() == 0 || ps[0].position_side == self.order_side() {
                    (
                        Stage::AwaitBalance { exposure: quantity, partial: false, price: self.order_price() },
                        Action::FetchBalance(self.ticket.trader_identifier),
                    )
                } else {
                    let total = sum_quantities(&ps);
                    if quantity > total {
                        (
                            Stage::AwaitBalance {
                                exposure: quantity - total,
                                partial: true,
                                price: self.order_price(),
                            },
                            Action::FetchBalance(self.ticket.trader_identifier),
                        )
                    } else {
                        self.authenticate()
                    }
                }
            },
        }
    }

    fn after_quote(&self, exposure: i32, partial: bool, balance: i32, quote: Option<Quote>) -> (r: (Stage, Action))
        ensures
            r == self.spec_after_quote(exposure, partial, balance, quote),
    {
        match quote {
            None => (Stage::Done, Action::Respond(Outcome::QuoteUnavailable)),
            Some(q) => {
                let price = match self.order_side() {
                    Side::Long => q.ask_price,
                    Side::Short => q.bid_price,
                };
                match price {
                    None => (Stage::Done, Action::Respond(Outcome::NoQuotePrice)),
                    Some(p) => (
                        Stage::AwaitMargin { exposure, partial, balance },
                        Action::ComputeMargin { quantity: exposure, price: p },
                    ),
                }
            },
        }
    }

    fn after_resting(&self, book: Book, found: Option<RestingOrder>) -> (r: (Stage, Action))
        ensures
            r == self.spec_after_resting(book, found),
    {
        match found {
            None => match book {
                Book::Limit => (
                    Stage::AwaitResting(Book::Stop),
                    Action::FetchResting { book: Book::Stop, target: self.order_target() },
                ),
                Book::Stop => (
                    Stage::AwaitResting(Book::StopLimit),
                    Action::FetchResting { book: Book::StopLimit, target: self.order_target() },
                ),
                Book::StopLimit => (Stage::Done, Action::Respond(Outcome::OrderNotFound)),
                Book::Iceberg => (Stage::Done, Action::Respond(Outcome::IcebergNotFound)),
            },
            Some(o) => {
                let amending = match &self.ticket.instruction {
                    Instruction::Amend { .. } => true,
                    _ => false,
                };
                let quantity = self.order_quantity();
                if o.trader_identifier != self.ticket.trader_identifier {
                    (Stage::Done, Action::Respond(Outcome::NotOrderOwner))
                } else if amending && quantity > o.quantity {
                    (
                        Stage::AwaitBalance { exposure: quantity, partial: false, price: Price::Fixed(o.price) },
                        Action::FetchBalance(self.ticket.trader_identifier),
                    )
                } else {
                    self.authenticate()
                }
            },
        }
    }

    /// Admits a submission: screens it in order (signature header, body,
    /// broker, market, order rules, market specification), and on success
    /// starts the flow with the broker's key and the first action.
    pub fn start(submission: Submission, venue: &Venue) -> (started: Result<(Flow, Action), Outcome>)
        ensures
            match screen(submission, *venue) {
                Some(rejection) => started == Err::<(Flow, Action), Outcome>(rejection),
                None => started matches Ok((flow, action)) && {
                    let d = submission.decoded->0;
                    &&& flow.ticket == d.ticket
                    &&& flow.body == submission.body
                    &&& submission.signature == SignatureHeader::Present(flow.signature)
                    &&& flow.key@ == venue.brokers.view()[d.ticket.broker_identifier@]
                    &&& (flow.stage, action) == opening(d.ticket)
                },
            },
    {
        let Submission { signature, body, decoded } = submission;
        let signature = match signature {
            SignatureHeader::Missing => {
                return Err(Outcome::MissingSignature);
            },
            SignatureHeader::Unreadable => {
                return Err(Outcome::UnreadableSignature);
            },
            SignatureHeader::Present(s) => s,
        };
        let Decoded { ticket, order_check, spec_check } = match decoded {
            None => {
                return Err(Outcome::Undecodable);
            },
            Some(d) => d,
        };
        let key = match venue.brokers.key_of(&ticket.broker_identifier) {
            None => {
                return Err(Outcome::UnknownBroker);
            },
            Some(k) => k.clone(),
        };
        if ticket.market != venue.market_name {
            return Err(Outcome::WrongMarket);
        }
        if let Err(e) = order_check {
            return Err(Outcome::Invalid(e));
        }
        let cancelling = match &ticket.instruction {
            Instruction::Cancel { .. } => true,
            _ => false,
        };
        if !cancelling {
            match spec_check {
                SpecCheck::Unlisted => {
                    return Err(Outcome::UnknownMarketSpec);
                },
                SpecCheck::Checked(Err(e)) => {
                    return Err(Outcome::Invalid(e));
                },
                SpecCheck::Checked(Ok(())) => {},
            }
        }
        let (stage, action) = match &ticket.instruction {
            Instruction::Open { pointing_at: Some(p), .. } => (Stage::AwaitPosition, Action::FetchPosition(*p)),
            Instruction::Open { pointing_at: None, .. } => (
                Stage::AwaitPositions,
                Action::FetchPositions(ticket.trader_identifier),
            ),
            Instruction::Amend { target, iceberg, .. } | Instruction::Cancel { target, iceberg } => {
                let book = if *iceberg { Book::Iceberg } else { Book::Limit };
                (Stage::AwaitResting(book), Action::FetchResting { book, target: *target })
            },
        };
        Ok((Flow { ticket, body, signature, key, stage }, action))
    }

    /// Takes the answer to the last action and says what to do next.
    pub fn step(&mut self, event: Event) -> (action: Action)
        requires
            old(self).expects(event),
            old(self).in_range(event),
        ensures
            *final(self) == old(self).advance(event),
            action == old(self).next(event).1,
    {
        let (stage, action) = match (self.stage, event) {
            (Stage::AwaitPosition, Event::Position(found)) => self.after_position(found),
            (Stage::AwaitPositions, Event::Positions(found)) => self.after_positions(found),
            (Stage::AwaitBalance { exposure, partial, price }, Event::Balance(b)) => match b {
                None => (Stage::Done, Action::Respond(Outcome::BalanceUnavailable)),
                Some(balance) => match price {
                    Price::Fixed(p) => (
                        Stage::AwaitMargin { exposure, partial, balance },
                        Action::ComputeMargin { quantity: exposure, price: p },
                    ),
                    Price::Best => (Stage::AwaitQuote { exposure, partial, balance }, Action::ReadQuote),
                },
            },
            (Stage::AwaitQuote { exposure, partial, balance }, Event::Quote(q)) => self.after_quote(
                exposure,
                partial,
                balance,
                q,
            ),
            (Stage::AwaitMargin { exposure, partial, balance }, Event::Margin(m)) => {
                if balance <= m {
                    (Stage::Done, Action::Respond(Outcome::InsufficientMargin { exposure, partial }))
                } else {
                    self.authenticate()
                }
            },
            (Stage::AwaitResting(book), Event::Resting(found)) => self.after_resting(book, found),
            (Stage::AwaitDispatch, Event::Dispatched(sent)) => {
                if sent {
                    (Stage::Done, Action::Respond(Outcome::Accepted))
                } else {
                    (Stage::Done, Action::Respond(Outcome::DispatchFailed))
                }
            },
            _ => {
                proof {
                    assert(false);
                }
                (Stage::Done, Action::Respond(Outcome::Undecodable))
            },
        };
        self.stage = stage;
        action
    }
}

} // verus!
