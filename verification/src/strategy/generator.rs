use vstd::prelude::*;
use crate::market::Candle;
use crate::market::DataKind;
use crate::market::MarketEvent;
use crate::market::MarketMeta;
use crate::scalar::Scalar;
use crate::scalar::ONE_BITS;
use crate::strategy::fractals::detect;
use crate::strategy::fractals::detection;
use crate::strategy::fractals::high_pivot_at;
use crate::strategy::fractals::is_high_pivot;
use crate::strategy::fractals::is_low_pivot;
use crate::strategy::fractals::low_pivot_at;
use crate::strategy::window::highs_of;
use crate::strategy::window::lows_of;
use crate::strategy::window::pushed;
use crate::strategy::window::refusal;
use crate::strategy::window::window_size;
use crate::strategy::window::Bar;
use crate::strategy::window::ConfigError;
use crate::strategy::window::WindowBuffer;
use crate::strategy::Decision;
use crate::strategy::Signal;
use crate::strategy::SignalGenerator;
use crate::strategy::SignalMap;
use crate::strategy::SignalStrength;
use crate::time::Timestamp;

verus! {

/// What the fractal strategy is made with.
#[derive(Copy, Clone, PartialEq, Eq, Structural, Debug)]
pub struct Config {
    /// The number of bars on each side of the bar that is examined.
    pub period: usize,
}

/// The strength of every proposal of the fractal strategy: the number one,
/// which stands for full confidence. It does not depend on how far the pivot
/// stands out from its neighbours.
pub open spec fn full_confidence() -> SignalStrength {
    SignalStrength(Scalar { bits: ONE_BITS })
}

/// The bar that a candle contributes to the window.
pub open spec fn bar_of(time: Timestamp, candle: Candle) -> Bar {
    Bar { timestamp: time, high: candle.high, low: candle.low }
}

/// The window after an observation: a candle is pushed, anything else leaves
/// the window as it was.
pub open spec fn window_after(window: Seq<Bar>, period: nat, market: MarketEvent<DataKind>) -> Seq<
    Bar,
> {
    match market.kind {
        DataKind::Candle(candle) => pushed(
            window,
            window_size(period),
            bar_of(market.exchange_time, candle),
        ),
        _ => window,
    }
}

/// Whether a full window has a high-side pivot at its centre.
pub open spec fn centre_is_high_pivot(window: Seq<Bar>, period: nat) -> bool {
    window.len() == window_size(period) && high_pivot_at(highs_of(window), period as int)
}

/// Whether a full window has a low-side pivot at its centre.
pub open spec fn centre_is_low_pivot(window: Seq<Bar>, period: nat) -> bool {
    window.len() == window_size(period) && low_pivot_at(lows_of(window), period as int)
}

/// What the strategy proposes for a window. A high-side pivot at the centre
/// proposes `Short`, a low-side pivot proposes `Long`; where both sides show a
/// pivot, both are proposed. A window that is not full proposes nothing.
pub open spec fn proposals(window: Seq<Bar>, period: nat) -> SignalMap {
    SignalMap {
        long: if centre_is_low_pivot(window, period) {
            Some(full_confidence())
        } else {
            None
        },
        close_long: None,
        short: if centre_is_high_pivot(window, period) {
            Some(full_confidence())
        } else {
            None
        },
        close_short: None,
    }
}

/// The signal that the strategy gives for an observation, where `window` is
/// the window after that observation: none unless the observation is a candle
/// and the window proposes something.
pub open spec fn expected_signal(window: Seq<Bar>, period: nat, market: MarketEvent<DataKind>)
    -> Option<Signal> {
    match market.kind {
        DataKind::Candle(candle) => {
            if centre_is_high_pivot(window, period) || centre_is_low_pivot(window, period) {
                Some(
                    Signal {
                        time: market.exchange_time,
                        exchange: market.exchange,
                        instrument: market.instrument,
                        signals: proposals(window, period),
                        market_meta: MarketMeta { close: candle.close, time: market.exchange_time },
                    },
                )
            } else {
                None
            }
        },
        _ => None,
    }
}

/// The window of a fresh strategy after the given observations, taken one by
/// one.
pub open spec fn window_after_all(period: nat, observed: Seq<MarketEvent<DataKind>>) -> Seq<Bar>
    decreases observed.len(),
{
    if observed.len() == 0 {
        Seq::empty()
    } else {
        window_after(window_after_all(period, observed.drop_last()), period, observed.last())
    }
}

/// A fresh strategy holds no more bars than it has seen observations.
pub proof fn lemma_window_grows_by_one(period: nat, observed: Seq<MarketEvent<DataKind>>)
    ensures
        window_after_all(period, observed).len() <= observed.len(),
    decreases observed.len(),
{
    if observed.len() > 0 {
        lemma_window_grows_by_one(period, observed.drop_last());
    }
}

/// Warm-up: a fresh strategy gives no signal for any of its first `2 * period`
/// observations, whatever they are.
pub proof fn lemma_warm_up(period: nat, observed: Seq<MarketEvent<DataKind>>)
    requires
        period >= 1,
        1 <= observed.len() <= 2 * period,
    ensures
        expected_signal(window_after_all(period, observed), period, observed.last()) is None,
{
    lemma_window_grows_by_one(period, observed);
}

/// A signal is never empty: it holds at least one proposal, and only `Long`
/// and `Short` are ever proposed.
pub proof fn lemma_signal_is_not_empty(window: Seq<Bar>, period: nat, market: MarketEvent<DataKind>)
    ensures
        expected_signal(window, period, market) matches Some(signal) ==> {
            &&& signal.signals.count() >= 1
            &&& signal.signals.close_long is None
            &&& signal.signals.close_short is None
            &&& window.len() == window_size(period)
        },
{
}

/// A signal is given exactly when the observation is a candle, the window is
/// full, and the detector, run over the window, marks its centre.
pub proof fn lemma_signal_follows_the_mask(
    window: Seq<Bar>,
    period: nat,
    market: MarketEvent<DataKind>,
)
    requires
        period >= 1,
    ensures
        expected_signal(window, period, market) is Some <==> {
            &&& market.kind is Candle
            &&& window.len() == window_size(period)
            &&& detection(highs_of(window), lows_of(window), period) matches Ok(mask) && mask[period as int]
        },
{
}

/// The fractal strategy of one instrument: it keeps the latest bars and
/// proposes a reversal when the bar at the centre of the window is a pivot.
#[derive(Debug)]
pub struct Fractals {
    window: WindowBuffer,
}

impl Fractals {
    /// The bars that the strategy holds, oldest first.
    pub closed spec fn window(&self) -> Seq<Bar> {
        self.window@
    }

    /// The period that the strategy was made with.
    pub closed spec fn spec_period(&self) -> nat {
        self.window.spec_period()
    }

    /// A strategy that has seen no bar yet. A period of zero is refused, and
    /// so is one whose window could not be counted.
    pub fn new(config: Config) -> (r: Result<Fractals, ConfigError>)
        ensures
            r is Err <==> refusal(config.period as nat) is Some,
            r matches Err(e) ==> refusal(config.period as nat) == Some(e),
            r matches Ok(strategy) ==> strategy.spec_period() == config.period
                && strategy.window() == Seq::<Bar>::empty(),
    {
        match WindowBuffer::new(config.period) {
            Ok(window) => Ok(Fractals { window }),
            Err(e) => Err(e),
        }
    }

    /// The period that the strategy was made with.
    pub fn period(&self) -> (r: usize)
        ensures
            r == self.spec_period(),
            r >= 1,
    {
        self.window.period()
    }

    /// The number of bars that the strategy holds.
    pub fn len(&self) -> (r: usize)
        ensures
            r == self.window().len(),
            r <= window_size(self.spec_period()),
    {
        self.window.len()
    }

    /// Whether the strategy has left its warm-up: its window is full.
    pub fn is_ready(&self) -> (r: bool)
        ensures
            r == (self.window().len() == window_size(self.spec_period())),
    {
        self.window.is_ready()
    }
}

impl SignalGenerator for Fractals {
    /// Takes one observation. A candle is pushed into the window. Once the
    /// window is full, the detector is run over it; where it marks the centre,
    /// each side is examined again, and the signal proposes `Short` for a
    /// high-side pivot and `Long` for a low-side pivot, each at full
    /// confidence.
    fn generate_signal(&mut self, market: &MarketEvent<DataKind>) -> (r: Option<Signal>)
        ensures
            final(self).spec_period() == old(self).spec_period(),
            final(self).window() == window_after(old(self).window(), old(self).spec_period(), *market),
            r == expected_signal(final(self).window(), old(self).spec_period(), *market),
            old(self).window().len() < 2 * old(self).spec_period() ==> r is None,
    {
        let candle: Candle = match &market.kind {
            DataKind::Candle(candle) => *candle,
            _ => {
                return None;
            },
        };
        self.window.push(Bar { timestamp: market.exchange_time, high: candle.high, low: candle.low });
        if !self.window.is_ready() {
            return None;
        }
        let period: usize = self.window.period();
        let highs: Vec<Scalar> = self.window.highs();
        let lows: Vec<Scalar> = self.window.lows();
        let mask: Vec<bool> = match detect(highs.as_slice(), lows.as_slice(), period) {
            Ok(mask) => mask,
            Err(_) => {
                return None;
            },
        };
        if !mask[period] {
            return None;
        }
        let strength = SignalStrength(Scalar::one());
        let mut signals = SignalMap::new();
        if is_high_pivot(highs.as_slice(), period) {
            signals.short = Some(strength);
        }
        if is_low_pivot(lows.as_slice(), period) {
            signals.long = Some(strength);
        }
        proof {
            assert(signals.slot(Decision::CloseLong) is None);
            assert(signals.slot(Decision::CloseShort) is None);
        }
        Some(
            Signal {
                time: market.exchange_time,
                exchange: market.exchange.clone(),
                instrument: market.instrument.clone(),
                signals,
                market_meta: MarketMeta { close: candle.close, time: market.exchange_time },
            },
        )
    }
}

} // verus!
