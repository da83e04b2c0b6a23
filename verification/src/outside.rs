use vstd::prelude::*;
use barter_integration::model::Exchange;
use barter_integration::model::instrument::Instrument;
use chrono::Utc;
use crate::time::Timestamp;

verus! {

/// The name of an exchange, as `barter_integration` holds it. The library
/// carries such a value and never looks inside.
#[verifier::external_type_specification]
#[verifier::external_body]
pub struct ExExchange(barter_integration::model::Exchange);

/// An instrument, as `barter_integration` holds it. The library carries such a
/// value and never looks inside.
#[verifier::external_type_specification]
#[verifier::external_body]
pub struct ExInstrument(barter_integration::model::instrument::Instrument);

/// An exchange together with an instrument, as `barter_integration` holds
/// them. The struct has two public fields and nothing else, and they are read
/// as they stand in that crate.
#[verifier::external_type_specification]
pub struct ExMarket(barter_integration::model::Market);

/// A public trade, as `barter_data` holds it. Carried, never read.
#[verifier::external_type_specification]
#[verifier::external_body]
pub struct ExPublicTrade(barter_data::subscription::trade::PublicTrade);

/// A level-one order book, as `barter_data` holds it. Carried, never read.
#[verifier::external_type_specification]
#[verifier::external_body]
pub struct ExOrderBookL1(barter_data::subscription::book::OrderBookL1);

/// A full order book, as `barter_data` holds it. Carried, never read.
#[verifier::external_type_specification]
#[verifier::external_body]
pub struct ExOrderBook(barter_data::subscription::book::OrderBook);

/// A liquidation, as `barter_data` holds it. Carried, never read.
#[verifier::external_type_specification]
#[verifier::external_body]
pub struct ExLiquidation(barter_data::subscription::liquidation::Liquidation);

/// An order, as `barter` holds it. Carried, never read.
#[verifier::external_type_specification]
#[verifier::external_body]
pub struct ExOrderEvent(barter::portfolio::OrderEvent);

/// A fill, as `barter` holds it. Carried, never read.
#[verifier::external_type_specification]
#[verifier::external_body]
pub struct ExFillEvent(barter::execution::FillEvent);

/// A position, as `barter` holds it. Carried, never read.
#[verifier::external_type_specification]
#[verifier::external_body]
pub struct ExPosition(barter::portfolio::position::Position);

/// An update of a position, as `barter` holds it. Carried, never read.
#[verifier::external_type_specification]
#[verifier::external_body]
pub struct ExPositionUpdate(barter::portfolio::position::PositionUpdate);

/// The exit of a position, as `barter` holds it. Carried, never read.
#[verifier::external_type_specification]
#[verifier::external_body]
pub struct ExPositionExit(barter::portfolio::position::PositionExit);

/// A balance, as `barter` holds it. Carried, never read.
#[verifier::external_type_specification]
#[verifier::external_body]
pub struct ExBalance(barter::portfolio::Balance);

/// Calls `chrono::Utc::now` and splits what it returns into the seconds and
/// nanoseconds of a `Timestamp`, by `timestamp` and `timestamp_subsec_nanos`.
/// Nothing is claimed of the result: the clock decides it. `Utc::now` panics
/// where the system clock stands before 1970.
#[verifier::external_body]
pub(crate) fn utc_now() -> Timestamp {
    let now = Utc::now();
    Timestamp { secs: now.timestamp(), nanos: now.timestamp_subsec_nanos() }
}

/// The derived `Clone::clone` of `barter_integration`'s `Exchange`: the copy
/// equals the value that was cloned.
pub assume_specification[ <Exchange as Clone>::clone ](exchange: &Exchange) -> (r: Exchange)
    ensures
        r == *exchange,
;

/// The derived `Clone::clone` of `barter_integration`'s `Instrument`: the
/// copy equals the value that was cloned.
pub assume_specification[ <Instrument as Clone>::clone ](instrument: &Instrument) -> (r:
    Instrument)
    ensures
        r == *instrument,
;

} // verus!
