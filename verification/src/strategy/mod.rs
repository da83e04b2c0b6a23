use vstd::prelude::*;
use vstd::std_specs::convert::FromSpecImpl;
use vstd::std_specs::convert::IntoSpec;
use barter_integration::model::Market;
use barter_integration::model::Exchange;
use barter_integration::model::instrument::Instrument;
use crate::market::DataKind;
use crate::market::MarketEvent;
use crate::market::MarketMeta;
use crate::outside::utc_now;
use crate::scalar::Scalar;
use crate::time::Timestamp;

pub mod fractals;
pub mod generator;
pub mod window;

verus! {

/// May produce an advisory signal from a market observation.
pub trait SignalGenerator {
    /// Takes one market observation and returns a signal, or nothing.
    fn generate_signal(&mut self, market: &MarketEvent<DataKind>) -> Option<Signal>;
}

/// The kind of advice that a strategy gives. There is no neutral variant: no
/// signal at all is the neutral state.
#[derive(Copy, Clone, Eq, PartialEq, Structural, Ord, PartialOrd, Hash, Debug)]
pub enum Decision {
    Long,
    CloseLong,
    Short,
    CloseShort,
}

impl Default for Decision {
    fn default() -> (r: Self)
        ensures
            r == Decision::Long,
    {
        Decision::Long
    }
}

impl Decision {
    /// Whether the decision is `Long`.
    pub fn is_long(&self) -> (r: bool)
        ensures
            r == (*self == Decision::Long),
    {
        matches!(self, Decision::Long)
    }

    /// Whether the decision is `Short`.
    pub fn is_short(&self) -> (r: bool)
        ensures
            r == (*self == Decision::Short),
    {
        matches!(self, Decision::Short)
    }

    /// Whether the decision opens a position: `Long` or `Short`.
    pub fn is_entry(&self) -> (r: bool)
        ensures
            r == (*self == Decision::Long || *self == Decision::Short),
    {
        matches!(self, Decision::Short | Decision::Long)
    }

    /// Whether the decision closes a position: `CloseLong` or `CloseShort`.
    pub fn is_exit(&self) -> (r: bool)
        ensures
            r == (*self == Decision::CloseLong || *self == Decision::CloseShort),
    {
        matches!(self, Decision::CloseLong | Decision::CloseShort)
    }
}

/// How strongly a strategy holds a decision. The library does not clamp or
/// check the number.
#[derive(Copy, Clone, PartialEq, PartialOrd, Debug)]
pub struct SignalStrength(pub Scalar);

/// The strengths that a signal gives, at most one for each decision.
#[derive(Copy, Clone, PartialEq, Debug)]
pub struct SignalMap {
    pub long: Option<SignalStrength>,
    pub close_long: Option<SignalStrength>,
    pub short: Option<SignalStrength>,
    pub close_short: Option<SignalStrength>,
}

impl View for SignalMap {
    type V = Map<Decision, SignalStrength>;

    /// The mapping from each decision that has a strength to that strength.
    open spec fn view(&self) -> Map<Decision, SignalStrength> {
        Map::new(|d: Decision| self.slot(d) is Some, |d: Decision| self.slot(d)->0)
    }
}

impl SignalMap {
    /// The strength held for a decision, if any.
    pub open spec fn slot(self, decision: Decision) -> Option<SignalStrength> {
        match decision {
            Decision::Long => self.long,
            Decision::CloseLong => self.close_long,
            Decision::Short => self.short,
            Decision::CloseShort => self.close_short,
        }
    }

    /// The number of decisions that have a strength.
    pub open spec fn count(self) -> nat {
        let a: nat = if self.long is Some { 1 } else { 0 };
        let b: nat = if self.close_long is Some { 1 } else { 0 };
        let c: nat = if self.short is Some { 1 } else { 0 };
        let d: nat = if self.close_short is Some { 1 } else { 0 };
        a + b + c + d
    }

    /// The empty mapping.
    pub fn new() -> (r: SignalMap)
        ensures
            r@ == Map::<Decision, SignalStrength>::empty(),
            r.count() == 0,
            forall|decision: Decision| r.slot(decision) is None,
    {
        let r = SignalMap { long: None, close_long: None, short: None, close_short: None };
        assert(r@ =~= Map::<Decision, SignalStrength>::empty());
        r
    }

    /// Sets the strength of a decision and returns the strength that it had.
    pub fn insert(&mut self, decision: Decision, strength: SignalStrength) -> (r: Option<
        SignalStrength,
    >)
        ensures
            final(self)@ == old(self)@.insert(decision, strength),
            r == old(self).slot(decision),
            r is Some <==> old(self)@.contains_key(decision),
            r matches Some(previous) ==> previous == old(self)@[decision],
            forall|other: Decision|
                final(self).slot(other) == if other == decision {
                    Some(strength)
                } else {
                    old(self).slot(other)
                },
    {
        let previous = match decision {
            Decision::Long => self.long,
            Decision::CloseLong => self.close_long,
            Decision::Short => self.short,
            Decision::CloseShort => self.close_short,
        };
        match decision {
            Decision::Long => {
                self.long = Some(strength);
            },
            Decision::CloseLong => {
                self.close_long = Some(strength);
            },
            Decision::Short => {
                self.short = Some(strength);
            },
            Decision::CloseShort => {
                self.close_short = Some(strength);
            },
        }
        assert(self@ =~= old(self)@.insert(decision, strength));
        previous
    }

    /// The strength of a decision, if it has one.
    pub fn get(&self, decision: Decision) -> (r: Option<SignalStrength>)
        ensures
            r == self.slot(decision),
            r is Some <==> self@.contains_key(decision),
            r matches Some(strength) ==> strength == self@[decision],
    {
        match decision {
            Decision::Long => self.long,
            Decision::CloseLong => self.close_long,
            Decision::Short => self.short,
            Decision::CloseShort => self.close_short,
        }
    }

    /// The number of decisions that have a strength.
    pub fn len(&self) -> (r: usize)
        ensures
            r == self.count(),
            r == self@.dom().len(),
            r <= 4,
    {
        proof {
            self.lemma_count_is_domain_size();
        }
        let mut n: usize = 0;
        if self.long.is_some() {
            n += 1;
        }
        if self.close_long.is_some() {
            n += 1;
        }
        if self.short.is_some() {
            n += 1;
        }
        if self.close_short.is_some() {
            n += 1;
        }
        n
    }

    /// Whether no decision has a strength.
    pub fn is_empty(&self) -> (r: bool)
        ensures
            r == (self.count() == 0),
            r == (self@ == Map::<Decision, SignalStrength>::empty()),
    {
        let r = self.long.is_none() && self.close_long.is_none() && self.short.is_none()
            && self.close_short.is_none();
        proof {
            if r {
                assert(self@ =~= Map::<Decision, SignalStrength>::empty());
            } else {
                let d = if self.long is Some {
                    Decision::Long
                } else if self.close_long is Some {
                    Decision::CloseLong
                } else if self.short is Some {
                    Decision::Short
                } else {
                    Decision::CloseShort
                };
                assert(self@.contains_key(d));
            }
        }
        r
    }

    /// The mapping is finite, and `count` is the size of its domain.
    pub proof fn lemma_count_is_domain_size(self)
        ensures
            self@.dom().finite(),
            self@.dom().len() == self.count(),
    {
        let s0 = Set::<Decision>::empty();
        let s1 = if self.long is Some { s0.insert(Decision::Long) } else { s0 };
        let s2 = if self.close_long is Some { s1.insert(Decision::CloseLong) } else { s1 };
        let s3 = if self.short is Some { s2.insert(Decision::Short) } else { s2 };
        let s4 = if self.close_short is Some { s3.insert(Decision::CloseShort) } else { s3 };
        assert(self@.dom() =~= s4);
    }
}

/// Advice for one market: the strength of each decision that the strategy
/// proposes, and the market data that led to it.
#[derive(Clone, PartialEq, Debug)]
pub struct Signal {
    pub time: Timestamp,
    pub exchange: Exchange,
    pub instrument: Instrument,
    pub signals: SignalMap,
    pub market_meta: MarketMeta,
}

/// An instruction to leave any open position in one market, whatever the
/// strategy says.
#[derive(Clone, Eq, PartialEq, PartialOrd, Debug)]
pub struct SignalForceExit {
    pub time: Timestamp,
    pub exchange: Exchange,
    pub instrument: Instrument,
}

impl SignalForceExit {
    pub const FORCED_EXIT_SIGNAL: &'static str = "SignalForcedExit";

    /// A forced exit for the given market, stamped with the given time.
    pub fn at(time: Timestamp, exchange: Exchange, instrument: Instrument) -> (r: Self)
        ensures
            r.time == time,
            r.exchange == exchange,
            r.instrument == instrument,
    {
        SignalForceExit { time, exchange, instrument }
    }

    /// A forced exit for the given market, stamped with the current time.
    pub fn new<E, I>(exchange: E, instrument: I) -> (r: Self) where
        E: Into<Exchange>,
        I: Into<Instrument>,

        ensures
            <E as IntoSpec<Exchange>>::obeys_into_spec() ==> r.exchange == <E as IntoSpec<
                Exchange,
            >>::into_spec(exchange),
            <I as IntoSpec<Instrument>>::obeys_into_spec() ==> r.instrument == <I as IntoSpec<
                Instrument,
            >>::into_spec(instrument),
    {
        let time = utc_now();
        SignalForceExit::at(time, exchange.into(), instrument.into())
    }
}

impl<M> From<M> for SignalForceExit where M: Into<Market> {
    /// A forced exit for the given market, stamped with the current time.
    fn from(market: M) -> (r: Self)
        ensures
            <M as IntoSpec<Market>>::obeys_into_spec() ==> {
                &&& r.exchange == <M as IntoSpec<Market>>::into_spec(market).exchange
                &&& r.instrument == <M as IntoSpec<Market>>::into_spec(market).instrument
            },
    {
        let market: Market = market.into();
        SignalForceExit::at(utc_now(), market.exchange, market.instrument)
    }
}

impl<M> FromSpecImpl<M> for SignalForceExit where M: Into<Market> {
    /// The conversion reads the clock, so it is no function of the market.
    open spec fn obeys_from_spec() -> bool {
        false
    }

    open spec fn from_spec(market: M) -> Self {
        arbitrary()
    }
}

} // verus!
