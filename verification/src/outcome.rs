use vstd::prelude::*;
use crate::order::Side;

verus! {

/// The HTTP status an answer to a broker carries.
#[derive(PartialEq, Eq, Structural, Clone, Copy, Debug)]
pub enum Status {
    Success,
    BadRequest,
    Unauthorized,
    InternalServerError,
}

/// How the instrument answers a broker's request.
#[derive(Debug)]
pub enum Outcome {
    /// Signature verified and the order handed to the matching engine.
    Accepted,
    /// No `X-HMAC-SIGNATURE` header.
    MissingSignature,
    /// The signature header is not readable text.
    UnreadableSignature,
    /// The body does not decode into the expected order.
    Undecodable,
    /// The broker is not in the directory.
    UnknownBroker,
    /// The order is for another market.
    WrongMarket,
    /// The order, or the order against its market's specification, failed
    /// validation; the text says why.
    Invalid(String),
    /// The market has no specification.
    UnknownMarketSpec,
    /// The position the order points at could not be fetched.
    PositionNotFound(String),
    /// The position the order points at belongs to another trader.
    NotPositionOwner,
    /// The order is on the same side as the position it points at, so it
    /// does not close it.
    SameSideAsPosition(Side),
    /// The closing quantity is larger than the position.
    ExceedsPosition { quantity: i32, position_quantity: i32 },
    /// The trader's positions could not be fetched.
    PositionsUnavailable(String),
    /// The trader's balance could not be fetched.
    BalanceUnavailable,
    /// The best bid and offer could not be read.
    QuoteUnavailable,
    /// The best bid and offer has no price on the side the order needs.
    NoQuotePrice,
    /// The balance does not exceed the margin required for `exposure`
    /// contracts; `partial` when that is only the part of the order beyond
    /// the trader's opposite positions.
    InsufficientMargin { exposure: i32, partial: bool },
    /// The resting order belongs to another trader.
    NotOrderOwner,
    /// The order to amend or cancel is in none of the limit, stop and
    /// stop-limit books.
    OrderNotFound,
    /// The iceberg order to amend or cancel does not exist.
    IcebergNotFound,
    /// The signature does not match the body under the broker's key.
    BadSignature,
    /// The signature could not be checked.
    SignatureCheckFailed,
    /// The matching engine could not be reached.
    DispatchFailed,
}

impl Outcome {
    pub open spec fn spec_status(&self) -> Status {
        match self {
            Outcome::Accepted => Status::Success,
            Outcome::BadSignature => Status::Unauthorized,
            Outcome::PositionNotFound(_)
            | Outcome::PositionsUnavailable(_)
            | Outcome::BalanceUnavailable
            | Outcome::QuoteUnavailable
            | Outcome::OrderNotFound
            | Outcome::IcebergNotFound
            | Outcome::DispatchFailed => Status::InternalServerError,
            _ => Status::BadRequest,
        }
    }

    /// The HTTP status of this answer: success only for an accepted order,
    /// unauthorized for a wrong signature, a server error where the
    /// instrument's own stores or channel failed, a bad request otherwise.
    #[verifier::when_used_as_spec(spec_status)]
    pub fn status(&self) -> (status: Status)
        ensures
            status == self.spec_status(),
    {
        match self {
            Outcome::Accepted => Status::Success,
            Outcome::BadSignature => Status::Unauthorized,
            Outcome::PositionNotFound(_)
            | Outcome::PositionsUnavailable(_)
            | Outcome::BalanceUnavailable
            | Outcome::QuoteUnavailable
            | Outcome::OrderNotFound
            | Outcome::IcebergNotFound
            | Outcome::DispatchFailed => Status::InternalServerError,
            _ => Status::BadRequest,
        }
    }
}

/// Law: an answer has status `Success` exactly when the order was accepted.
pub proof fn success_only_when_accepted(outcome: Outcome)
    ensures
        (outcome.status() == Status::Success) <==> (outcome is Accepted),
{
}

} // verus!
