use hmac::{Hmac, Mac};
use instrument::brokers::BrokerDirectory;
use instrument::flow::{screen_save, Action, Decoded, Event, Flow, SignatureHeader, SpecCheck, Stage, Submission, Venue};
use instrument::order::{Book, Instruction, Position, Price, Quote, RestingOrder, Side, Ticket};
use instrument::outcome::Outcome;
use sha2::Sha256;

const KEY: &str = "broker-secret";

fn venue() -> Venue {
    let mut brokers = BrokerDirectory::new();
    brokers.insert("broker1".to_string(), KEY.to_string());
    Venue { market_name: "soja_juillet_2025".to_string(), brokers }
}

fn sign(key: &str, body: &[u8]) -> Vec<u8> {
    let mut mac = <Hmac<Sha256> as Mac>::new_from_slice(key.as_bytes()).unwrap();
    mac.update(body);
    mac.finalize().into_bytes().iter().map(|b| format!("{:02x}", b)).collect::<String>().into_bytes()
}

fn ticket(instruction: Instruction) -> Ticket {
    Ticket {
        broker_identifier: "broker1".to_string(),
        market: "soja_juillet_2025".to_string(),
        trader_identifier: 7,
        instruction,
    }
}

fn limit(side: Side, quantity: i32, price: i32, pointing_at: Option<u64>) -> Instruction {
    Instruction::Open { side, quantity, price: Price::Fixed(price), pointing_at }
}

fn submission(instruction: Instruction) -> Submission {
    let body = b"order body".to_vec();
    Submission {
        signature: SignatureHeader::Present(sign(KEY, &body)),
        body,
        decoded: Some(Decoded { ticket: ticket(instruction), order_check: Ok(()), spec_check: SpecCheck::Checked(Ok(())) }),
    }
}

fn started(sub: Submission) -> (Flow, Action) {
    Flow::start(sub, &venue()).unwrap()
}

fn rejection(sub: Submission) -> Outcome {
    Flow::start(sub, &venue()).unwrap_err()
}

fn pos(trader: u64, side: Side, q: i32) -> Position {
    Position { trader_identifier: trader, position_side: side, position_quantity: q }
}

#[test]
fn screening_follows_the_order_of_the_checks() {
    let mut s = submission(limit(Side::Long, 5, 100, None));
    s.signature = SignatureHeader::Missing;
    s.decoded = None;
    assert!(matches!(rejection(s), Outcome::MissingSignature));

    let mut s = submission(limit(Side::Long, 5, 100, None));
    s.signature = SignatureHeader::Unreadable;
    assert!(matches!(rejection(s), Outcome::UnreadableSignature));

    let mut s = submission(limit(Side::Long, 5, 100, None));
    s.decoded = None;
    assert!(matches!(rejection(s), Outcome::Undecodable));

    let mut s = submission(limit(Side::Long, 5, 100, None));
    if let Some(d) = s.decoded.as_mut() {
        d.ticket.broker_identifier = "stranger".to_string();
        d.ticket.market = "other".to_string();
    }
    assert!(matches!(rejection(s), Outcome::UnknownBroker));

    let mut s = submission(limit(Side::Long, 5, 100, None));
    if let Some(d) = s.decoded.as_mut() {
        d.ticket.market = "other".to_string();
        d.order_check = Err("bad".to_string());
    }
    assert!(matches!(rejection(s), Outcome::WrongMarket));

    let mut s = submission(limit(Side::Long, 5, 100, None));
    if let Some(d) = s.decoded.as_mut() {
        d.order_check = Err("quantity must be positive".to_string());
        d.spec_check = SpecCheck::Unlisted;
    }
    match rejection(s) {
        Outcome::Invalid(e) => assert_eq!(e, "quantity must be positive"),
        o => panic!("{:?}", o),
    }

    let mut s = submission(limit(Side::Long, 5, 100, None));
    if let Some(d) = s.decoded.as_mut() {
        d.spec_check = SpecCheck::Unlisted;
    }
    assert!(matches!(rejection(s), Outcome::UnknownMarketSpec));

    let mut s = submission(limit(Side::Long, 5, 100, None));
    if let Some(d) = s.decoded.as_mut() {
        d.spec_check = SpecCheck::Checked(Err("price off tick".to_string()));
    }
    match rejection(s) {
        Outcome::Invalid(e) => assert_eq!(e, "price off tick"),
        o => panic!("{:?}", o),
    }
}

#[test]
fn cancellations_skip_the_market_specification() {
    let mut s = submission(Instruction::Cancel { target: 3, iceberg: false });
    if let Some(d) = s.decoded.as_mut() {
        d.spec_check = SpecCheck::Unlisted;
    }
    let (flow, action) = started(s);
    assert_eq!(flow.stage, Stage::AwaitResting(Book::Limit));
    assert!(matches!(action, Action::FetchResting { book: Book::Limit, target: 3 }));
    assert_eq!(flow.key, KEY);
}

#[test]
fn first_action_depends_on_the_instruction() {
    let (f, a) = started(submission(limit(Side::Long, 5, 100, Some(42))));
    assert_eq!(f.stage, Stage::AwaitPosition);
    assert!(matches!(a, Action::FetchPosition(42)));
    let (f, a) = started(submission(limit(Side::Long, 5, 100, None)));
    assert_eq!(f.stage, Stage::AwaitPositions);
    assert!(matches!(a, Action::FetchPositions(7)));
    let (f, a) = started(submission(Instruction::Amend { target: 9, new_quantity: 4, iceberg: true }));
    assert_eq!(f.stage, Stage::AwaitResting(Book::Iceberg));
    assert!(matches!(a, Action::FetchResting { book: Book::Iceberg, target: 9 }));
}

#[test]
fn closing_order_checks_the_position() {
    let closing = || started(submission(limit(Side::Short, 5, 100, Some(42)))).0;

    let mut f = closing();
    match f.step(Event::Position(Err("no such position".to_string()))) {
        Action::Respond(Outcome::PositionNotFound(e)) => assert_eq!(e, "no such position"),
        a => panic!("{:?}", a),
    }
    assert_eq!(f.stage, Stage::Done);

    let mut f = closing();
    assert!(matches!(f.step(Event::Position(Ok(pos(8, Side::Long, 10)))), Action::Respond(Outcome::NotPositionOwner)));
    let mut f = closing();
    assert!(matches!(
        f.step(Event::Position(Ok(pos(7, Side::Short, 10)))),
        Action::Respond(Outcome::SameSideAsPosition(Side::Short))
    ));
    let mut f = closing();
    assert!(matches!(
        f.step(Event::Position(Ok(pos(7, Side::Long, 4)))),
        Action::Respond(Outcome::ExceedsPosition { quantity: 5, position_quantity: 4 })
    ));
    let mut f = closing();
    assert!(matches!(f.step(Event::Position(Ok(pos(7, Side::Long, 5)))), Action::Dispatch));
    assert_eq!(f.stage, Stage::AwaitDispatch);
    assert!(matches!(f.step(Event::Dispatched(true)), Action::Respond(Outcome::Accepted)));
    assert_eq!(f.stage, Stage::Done);
    // the admitted request is carried through unchanged
    assert_eq!(f.key, KEY);
    assert_eq!(f.body, b"order body".to_vec());
    assert_eq!(f.ticket.trader_identifier, 7);
}

#[test]
fn new_order_without_position_needs_full_margin() {
    let (mut f, _) = started(submission(limit(Side::Long, 10, 250, None)));
    assert!(matches!(f.step(Event::Positions(Ok(vec![]))), Action::FetchBalance(7)));
    assert_eq!(f.stage, Stage::AwaitBalance { exposure: 10, partial: false, price: Price::Fixed(250) });
    assert!(matches!(f.step(Event::Balance(Some(5000))), Action::ComputeMargin { quantity: 10, price: 250 }));
    assert!(matches!(
        f.step(Event::Margin(5000)),
        Action::Respond(Outcome::InsufficientMargin { exposure: 10, partial: false })
    ));
}

#[test]
fn new_order_on_the_side_of_the_first_position_needs_full_margin() {
    let (mut f, _) = started(submission(limit(Side::Long, 10, 250, None)));
    f.step(Event::Positions(Ok(vec![pos(7, Side::Long, 3), pos(7, Side::Short, 30)])));
    assert_eq!(f.stage, Stage::AwaitBalance { exposure: 10, partial: false, price: Price::Fixed(250) });
    f.step(Event::Balance(Some(5001)));
    assert!(matches!(f.step(Event::Margin(5000)), Action::Dispatch));
}

#[test]
fn new_order_against_opposite_positions_needs_margin_only_for_the_excess() {
    let (mut f, _) = started(submission(limit(Side::Long, 10, 250, None)));
    f.step(Event::Positions(Ok(vec![pos(7, Side::Short, 3), pos(7, Side::Short, 4)])));
    assert_eq!(f.stage, Stage::AwaitBalance { exposure: 3, partial: true, price: Price::Fixed(250) });
    f.step(Event::Balance(Some(10)));
    assert!(matches!(
        f.step(Event::Margin(10)),
        Action::Respond(Outcome::InsufficientMargin { exposure: 3, partial: true })
    ));

    let (mut f, _) = started(submission(limit(Side::Long, 7, 250, None)));
    assert!(matches!(
        f.step(Event::Positions(Ok(vec![pos(7, Side::Short, 3), pos(7, Side::Short, 4)]))),
        Action::Dispatch
    ));
}

#[test]
fn fetch_failures_are_server_errors() {
    let (mut f, _) = started(submission(limit(Side::Long, 10, 250, None)));
    match f.step(Event::Positions(Err("db down".to_string()))) {
        Action::Respond(Outcome::PositionsUnavailable(e)) => assert_eq!(e, "db down"),
        a => panic!("{:?}", a),
    }
    let (mut f, _) = started(submission(limit(Side::Long, 10, 250, None)));
    f.step(Event::Positions(Ok(vec![])));
    assert!(matches!(f.step(Event::Balance(None)), Action::Respond(Outcome::BalanceUnavailable)));
}

#[test]
fn market_orders_take_the_opposite_best_price() {
    let market = |side| Instruction::Open { side, quantity: 2, price: Price::Best, pointing_at: None };
    let quote = Quote { bid_price: Some(99), ask_price: Some(101) };

    let (mut f, _) = started(submission(market(Side::Long)));
    f.step(Event::Positions(Ok(vec![])));
    assert!(matches!(f.step(Event::Balance(Some(1000))), Action::ReadQuote));
    assert!(matches!(f.step(Event::Quote(Some(quote))), Action::ComputeMargin { quantity: 2, price: 101 }));

    let (mut f, _) = started(submission(market(Side::Short)));
    f.step(Event::Positions(Ok(vec![])));
    f.step(Event::Balance(Some(1000)));
    assert!(matches!(f.step(Event::Quote(Some(quote))), Action::ComputeMargin { quantity: 2, price: 99 }));

    let (mut f, _) = started(submission(market(Side::Short)));
    f.step(Event::Positions(Ok(vec![])));
    f.step(Event::Balance(Some(1000)));
    assert!(matches!(
        f.step(Event::Quote(Some(Quote { bid_price: None, ask_price: Some(101) }))),
        Action::Respond(Outcome::NoQuotePrice)
    ));

    let (mut f, _) = started(submission(market(Side::Short)));
    f.step(Event::Positions(Ok(vec![])));
    f.step(Event::Balance(Some(1000)));
    assert!(matches!(f.step(Event::Quote(None)), Action::Respond(Outcome::QuoteUnavailable)));
}

#[test]
fn amendments_search_limit_then_stop_then_stop_limit() {
    let amend = Instruction::Amend { target: 11, new_quantity: 8, iceberg: false };
    let (mut f, _) = started(submission(amend.clone_for_test()));
    assert!(matches!(f.step(Event::Resting(None)), Action::FetchResting { book: Book::Stop, target: 11 }));
    assert!(matches!(f.step(Event::Resting(None)), Action::FetchResting { book: Book::StopLimit, target: 11 }));
    assert!(matches!(f.step(Event::Resting(None)), Action::Respond(Outcome::OrderNotFound)));

    let (mut f, _) = started(submission(amend.clone_for_test()));
    f.step(Event::Resting(None));
    assert!(matches!(
        f.step(Event::Resting(Some(RestingOrder { trader_identifier: 7, quantity: 5, price: 300 }))),
        Action::FetchBalance(7)
    ));
    assert_eq!(f.stage, Stage::AwaitBalance { exposure: 8, partial: false, price: Price::Fixed(300) });

    let (mut f, _) = started(submission(amend.clone_for_test()));
    assert!(matches!(
        f.step(Event::Resting(Some(RestingOrder { trader_identifier: 7, quantity: 9, price: 300 }))),
        Action::Dispatch
    ));

    let (mut f, _) = started(submission(amend));
    assert!(matches!(
        f.step(Event::Resting(Some(RestingOrder { trader_identifier: 6, quantity: 9, price: 300 }))),
        Action::Respond(Outcome::NotOrderOwner)
    ));
}

trait CloneForTest {
    fn clone_for_test(&self) -> Self;
}

impl CloneForTest for Instruction {
    fn clone_for_test(&self) -> Self {
        match self {
            Instruction::Open { side, quantity, price, pointing_at } => {
                Instruction::Open { side: *side, quantity: *quantity, price: *price, pointing_at: *pointing_at }
            }
            Instruction::Amend { target, new_quantity, iceberg } => {
                Instruction::Amend { target: *target, new_quantity: *new_quantity, iceberg: *iceberg }
            }
            Instruction::Cancel { target, iceberg } => Instruction::Cancel { target: *target, iceberg: *iceberg },
        }
    }
}

#[test]
fn icebergs_are_looked_up_once() {
    let (mut f, _) = started(submission(Instruction::Cancel { target: 5, iceberg: true }));
    assert!(matches!(f.step(Event::Resting(None)), Action::Respond(Outcome::IcebergNotFound)));
    let (mut f, _) = started(submission(Instruction::Cancel { target: 5, iceberg: true }));
    assert!(matches!(
        f.step(Event::Resting(Some(RestingOrder { trader_identifier: 7, quantity: 1, price: 1 }))),
        Action::Dispatch
    ));
}

#[test]
fn wrong_or_malformed_signatures_stop_the_order() {
    let mut s = submission(limit(Side::Long, 5, 100, Some(1)));
    s.signature = SignatureHeader::Present(sign("another-key", b"order body"));
    let (mut f, _) = started(s);
    assert!(matches!(f.step(Event::Position(Ok(pos(7, Side::Short, 5)))), Action::Respond(Outcome::BadSignature)));

    let mut s = submission(limit(Side::Long, 5, 100, Some(1)));
    s.signature = SignatureHeader::Present(b"zz".to_vec());
    let (mut f, _) = started(s);
    assert!(matches!(
        f.step(Event::Position(Ok(pos(7, Side::Short, 5)))),
        Action::Respond(Outcome::SignatureCheckFailed)
    ));
}

#[test]
fn failed_dispatch_is_a_server_error() {
    let (mut f, _) = started(submission(limit(Side::Long, 5, 100, Some(1))));
    f.step(Event::Position(Ok(pos(7, Side::Short, 5))));
    assert!(matches!(f.step(Event::Dispatched(false)), Action::Respond(Outcome::DispatchFailed)));
}

#[test]
fn save_requests_must_name_the_market() {
    let v = venue();
    assert!(screen_save(&"soja_juillet_2025".to_string(), &v.market_name).is_none());
    assert!(matches!(screen_save(&"mais".to_string(), &v.market_name), Some(Outcome::WrongMarket)));
}
