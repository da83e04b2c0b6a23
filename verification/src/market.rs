use vstd::prelude::*;
use barter_data::subscription::book::OrderBook;
use barter_data::subscription::book::OrderBookL1;
use barter_data::subscription::liquidation::Liquidation;
use barter_data::subscription::trade::PublicTrade;
use barter_integration::model::Exchange;
use barter_integration::model::instrument::Instrument;
use crate::outside::utc_now;
use crate::scalar::Scalar;
use crate::time::Timestamp;

verus! {

/// An open-high-low-close-volume candle.
#[derive(Copy, Clone, PartialEq, Debug)]
pub struct Candle {
    pub close_time: Timestamp,
    pub open: Scalar,
    pub high: Scalar,
    pub low: Scalar,
    pub close: Scalar,
    pub volume: Scalar,
    pub trade_count: u64,
}

/// The kinds of market data that an event can carry. Only candles are read by
/// the strategies of this library; the other payloads pass through untouched.
#[derive(PartialEq, Debug)]
pub enum DataKind {
    Trade(PublicTrade),
    OrderBookL1(OrderBookL1),
    OrderBook(OrderBook),
    Candle(Candle),
    Liquidation(Liquidation),
}

/// A market observation: a payload together with where and when it was seen.
#[derive(Clone, PartialEq, Debug)]
pub struct MarketEvent<T> {
    pub exchange_time: Timestamp,
    pub received_time: Timestamp,
    pub exchange: Exchange,
    pub instrument: Instrument,
    pub kind: T,
}

/// The close price of the observation behind an event, and its exchange time.
#[derive(Copy, Clone, PartialEq, Debug)]
pub struct MarketMeta {
    pub close: Scalar,
    pub time: Timestamp,
}

/// The event that reports a candle: its exchange time is the time at which
/// the candle closed.
pub open spec fn candle_event(
    candle: Candle,
    received_time: Timestamp,
    exchange: Exchange,
    instrument: Instrument,
) -> MarketEvent<DataKind> {
    MarketEvent {
        exchange_time: candle.close_time,
        received_time,
        exchange,
        instrument,
        kind: DataKind::Candle(candle),
    }
}

impl MarketEvent<DataKind> {
    /// The event that reports a candle of the given market, received at the
    /// given time.
    pub fn from_candle(
        candle: Candle,
        received_time: Timestamp,
        exchange: Exchange,
        instrument: Instrument,
    ) -> (r: MarketEvent<DataKind>)
        ensures
            r == candle_event(candle, received_time, exchange, instrument),
    {
        MarketEvent {
            exchange_time: candle.close_time,
            received_time,
            exchange,
            instrument,
            kind: DataKind::Candle(candle),
        }
    }
}

/// Turns historic candles of one market into market events, in the order of
/// the candles. Each event is stamped as received at the moment at which it is
/// made.
pub fn market_events_from_candles(
    candles: &[Candle],
    exchange: &Exchange,
    instrument: &Instrument,
) -> (r: Vec<MarketEvent<DataKind>>)
    ensures
        r@.len() == candles@.len(),
        forall|i: int|
            0 <= i < r@.len() ==> r@[i] == candle_event(
                candles@[i],
                r@[i].received_time,
                *exchange,
                *instrument,
            ),
{
    let mut events: Vec<MarketEvent<DataKind>> = Vec::new();
    let mut i: usize = 0;
    while i < candles.len()
        invariant
            i <= candles@.len(),
            events@.len() == i,
            forall|j: int|
                0 <= j < i ==> events@[j] == candle_event(
                    candles@[j],
                    events@[j].received_time,
                    *exchange,
                    *instrument,
                ),
        decreases candles@.len() - i,
    {
        let received_time = utc_now();
        events.push(
            MarketEvent::from_candle(
                candles[i],
                received_time,
                exchange.clone(),
                instrument.clone(),
            ),
        );
        i += 1;
    }
    events
}

} // verus!
