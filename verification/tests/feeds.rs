use instrument::connection::ConnectionType;
use instrument::order::{sum_quantities, Position, Side};
use instrument::outcome::{Outcome, Status};
use std::collections::HashSet;

#[test]
fn connection_types_are_distinct_keys() {
    let mut s = HashSet::new();
    s.insert(ConnectionType::Last);
    s.insert(ConnectionType::LastMsgp);
    s.insert(ConnectionType::Last);
    assert_eq!(s.len(), 2);
    assert!(ConnectionType::Nbbo != ConnectionType::NbboMsgp);
}

#[test]
fn sum_quantities_adds_in_order() {
    let p = |q| Position { trader_identifier: 1, position_side: Side::Short, position_quantity: q };
    assert_eq!(sum_quantities(&vec![]), 0);
    assert_eq!(sum_quantities(&vec![p(3), p(4), p(10)]), 17);
}

#[test]
fn status_of_each_kind_of_answer() {
    assert_eq!(Outcome::Accepted.status(), Status::Success);
    assert_eq!(Outcome::BadSignature.status(), Status::Unauthorized);
    assert_eq!(Outcome::SignatureCheckFailed.status(), Status::BadRequest);
    assert_eq!(Outcome::Invalid("x".to_string()).status(), Status::BadRequest);
    assert_eq!(Outcome::InsufficientMargin { exposure: 1, partial: false }.status(), Status::BadRequest);
    assert_eq!(Outcome::PositionNotFound("x".to_string()).status(), Status::InternalServerError);
    assert_eq!(Outcome::BalanceUnavailable.status(), Status::InternalServerError);
    assert_eq!(Outcome::OrderNotFound.status(), Status::InternalServerError);
    assert_eq!(Outcome::DispatchFailed.status(), Status::InternalServerError);
    assert_eq!(Outcome::NoQuotePrice.status(), Status::BadRequest);
}
