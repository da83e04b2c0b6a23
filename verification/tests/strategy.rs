use barter_integration::model::instrument::kind::InstrumentKind;
use barter_integration::model::instrument::Instrument;
use barter_integration::model::Exchange;
use barter_integration::model::Market;
use trading_fractals::market::Candle;
use trading_fractals::market::DataKind;
use trading_fractals::market::MarketEvent;
use trading_fractals::scalar::Scalar;
use trading_fractals::strategy::generator::Config;
use trading_fractals::strategy::generator::Fractals;
use trading_fractals::strategy::window::ConfigError;
use trading_fractals::strategy::Decision;
use trading_fractals::strategy::Signal;
use trading_fractals::strategy::SignalForceExit;
use trading_fractals::strategy::SignalGenerator;
use trading_fractals::strategy::SignalMap;
use trading_fractals::strategy::SignalStrength;
use trading_fractals::time::Timestamp;

fn scalar(x: f64) -> Scalar {
    Scalar::from_bits(x.to_bits())
}

fn instrument() -> Instrument {
    Instrument::from(("btc", "usdt", InstrumentKind::Spot))
}

fn candle_event(second: i64, high: f64, low: f64) -> MarketEvent<DataKind> {
    MarketEvent {
        exchange_time: Timestamp::new(second, 500),
        received_time: Timestamp::new(second + 1, 0),
        exchange: Exchange::from("binance"),
        instrument: instrument(),
        kind: DataKind::Candle(Candle {
            close_time: Timestamp::new(second, 500),
            open: scalar(low),
            high: scalar(high),
            low: scalar(low),
            close: scalar((high + low) / 2.0),
            volume: scalar(1000.0),
            trade_count: 7,
        }),
    }
}

fn trade_event(second: i64) -> MarketEvent<DataKind> {
    MarketEvent {
        exchange_time: Timestamp::new(second, 0),
        received_time: Timestamp::new(second, 0),
        exchange: Exchange::from("binance"),
        instrument: instrument(),
        kind: DataKind::Trade(barter_data::subscription::trade::PublicTrade {
            id: String::from("trade"),
            price: 101.5,
            amount: 2.0,
            side: barter_integration::model::Side::Buy,
        }),
    }
}

fn feed(strategy: &mut Fractals, bars: &[(f64, f64)]) -> Vec<Option<Signal>> {
    bars.iter()
        .enumerate()
        .map(|(i, (high, low))| strategy.generate_signal(&candle_event(i as i64, *high, *low)))
        .collect()
}

#[test]
fn should_return_decision_is_long() {
    assert_eq!(Decision::Long.is_long(), true)
}

#[test]
fn should_return_decision_is_not_long() {
    assert_eq!(Decision::Short.is_long(), false)
}

#[test]
fn should_return_decision_is_short() {
    assert_eq!(Decision::Short.is_short(), true)
}

#[test]
fn should_return_decision_is_not_short() {
    assert_eq!(Decision::Long.is_short(), false)
}

#[test]
fn should_return_decision_is_entry() {
    assert_eq!(Decision::Long.is_entry(), true)
}

#[test]
fn should_return_decision_is_not_entry() {
    assert_eq!(Decision::CloseLong.is_entry(), false)
}

#[test]
fn should_return_decision_is_exit() {
    assert_eq!(Decision::CloseShort.is_exit(), true)
}

#[test]
fn should_return_decision_is_not_exit() {
    assert_eq!(Decision::Long.is_exit(), false)
}

#[test]
fn every_decision_is_an_entry_or_an_exit() {
    let all = [Decision::Long, Decision::CloseLong, Decision::Short, Decision::CloseShort];
    for d in all {
        assert_ne!(d.is_entry(), d.is_exit());
        assert_eq!(d.is_long(), d == Decision::Long);
        assert_eq!(d.is_short(), d == Decision::Short);
    }
    assert!(Decision::Short.is_entry());
    assert!(Decision::CloseLong.is_exit());
    assert!(!Decision::CloseShort.is_entry());
    assert!(!Decision::Short.is_exit());
}

#[test]
fn default_decision_is_long() {
    assert_eq!(Decision::default(), Decision::Long);
}

#[test]
fn signal_map_holds_one_strength_for_each_decision() {
    let mut map = SignalMap::new();
    assert!(map.is_empty());
    assert_eq!(map.len(), 0);
    assert_eq!(map.get(Decision::Long), None);
    assert_eq!(map.insert(Decision::Long, SignalStrength(scalar(0.25))), None);
    assert!(!map.is_empty());
    assert_eq!(map.len(), 1);
    assert_eq!(map.get(Decision::Long), Some(SignalStrength(scalar(0.25))));
    assert_eq!(map.get(Decision::Short), None);
    assert_eq!(
        map.insert(Decision::Long, SignalStrength(scalar(0.75))),
        Some(SignalStrength(scalar(0.25)))
    );
    assert_eq!(map.len(), 1);
    assert_eq!(map.get(Decision::Long), Some(SignalStrength(scalar(0.75))));
    assert_eq!(map.insert(Decision::CloseShort, SignalStrength(scalar(1.0))), None);
    assert_eq!(map.insert(Decision::CloseLong, SignalStrength(scalar(0.5))), None);
    assert_eq!(map.insert(Decision::Short, SignalStrength(scalar(0.125))), None);
    assert_eq!(map.len(), 4);
    assert_eq!(map.get(Decision::CloseShort), Some(SignalStrength(scalar(1.0))));
    assert_eq!(map.get(Decision::CloseLong), Some(SignalStrength(scalar(0.5))));
    assert_eq!(map.get(Decision::Short), Some(SignalStrength(scalar(0.125))));
    assert_eq!(map.get(Decision::Long), Some(SignalStrength(scalar(0.75))));
}

#[test]
fn forced_exit_name() {
    assert_eq!(SignalForceExit::FORCED_EXIT_SIGNAL, "SignalForcedExit");
}

#[test]
fn forced_exit_at_a_given_time() {
    let exit = SignalForceExit::at(Timestamp::new(1_700_000_000, 12), Exchange::from("kraken"), instrument());
    assert_eq!(exit.time, Timestamp::new(1_700_000_000, 12));
    assert_eq!(exit.exchange, Exchange::from("kraken"));
    assert_eq!(exit.instrument, instrument());
}

#[test]
fn forced_exit_is_stamped_with_the_clock() {
    let before = chrono::Utc::now().timestamp();
    let exit = SignalForceExit::new("binance", ("btc", "usdt", InstrumentKind::Spot));
    let after = chrono::Utc::now().timestamp();
    assert_eq!(exit.exchange, Exchange::from("binance"));
    assert_eq!(exit.instrument, instrument());
    assert!(before <= exit.time.secs && exit.time.secs <= after);
    assert!(exit.time.nanos < 2_000_000_000);
}

#[test]
fn forced_exit_from_a_market() {
    let before = chrono::Utc::now().timestamp();
    let exit = SignalForceExit::from(Market::new("okx", ("eth", "usd", InstrumentKind::Perpetual)));
    let after = chrono::Utc::now().timestamp();
    assert_eq!(exit.exchange, Exchange::from("okx"));
    assert_eq!(exit.instrument, Instrument::from(("eth", "usd", InstrumentKind::Perpetual)));
    assert!(before <= exit.time.secs && exit.time.secs <= after);
    let exit = SignalForceExit::from(("okx", "eth", "usd", InstrumentKind::Perpetual));
    assert_eq!(exit.exchange, Exchange::from("okx"));
    assert_eq!(exit.instrument, Instrument::from(("eth", "usd", InstrumentKind::Perpetual)));
}

#[test]
fn strategy_refuses_bad_periods() {
    assert_eq!(Fractals::new(Config { period: 0 }).err(), Some(ConfigError::ZeroPeriod));
    assert_eq!(Fractals::new(Config { period: usize::MAX }).err(), Some(ConfigError::PeriodTooLarge));
    let strategy = Fractals::new(Config { period: 3 }).unwrap();
    assert_eq!(strategy.period(), 3);
    assert_eq!(strategy.len(), 0);
    assert!(!strategy.is_ready());
}

#[test]
fn warm_up_gives_no_signal() {
    for period in 1..5usize {
        let mut strategy = Fractals::new(Config { period }).unwrap();
        for i in 0..2 * period {
            let peak = if i == period { 100.0 } else { 1.0 };
            assert_eq!(strategy.generate_signal(&candle_event(i as i64, peak, 0.5)), None);
            assert_eq!(strategy.len(), i + 1);
            assert!(!strategy.is_ready());
        }
        let last = strategy.generate_signal(&candle_event(2 * period as i64, 1.0, 0.5));
        assert!(strategy.is_ready());
        assert_eq!(last.is_some(), period >= 2);
    }
}

#[test]
fn high_pivot_proposes_short() {
    let mut strategy = Fractals::new(Config { period: 2 }).unwrap();
    let signals = feed(&mut strategy, &[(1.0, 0.5), (2.0, 0.5), (5.0, 0.5), (3.0, 0.5), (2.0, 0.5)]);
    assert_eq!(signals[..4], vec![None, None, None, None]);
    let signal = signals[4].clone().unwrap();
    assert_eq!(signal.time, Timestamp::new(4, 500));
    assert_eq!(signal.exchange, Exchange::from("binance"));
    assert_eq!(signal.instrument, instrument());
    assert_eq!(signal.market_meta.time, Timestamp::new(4, 500));
    assert_eq!(signal.market_meta.close.to_bits(), 1.25f64.to_bits());
    assert_eq!(signal.signals.len(), 1);
    assert_eq!(signal.signals.get(Decision::Short), Some(SignalStrength(scalar(1.0))));
    assert_eq!(signal.signals.get(Decision::Short).unwrap().0.to_bits(), 1.0f64.to_bits());
    assert_eq!(signal.signals.get(Decision::Long), None);
    assert_eq!(signal.signals.get(Decision::CloseLong), None);
    assert_eq!(signal.signals.get(Decision::CloseShort), None);
}

#[test]
fn low_pivot_proposes_long() {
    let mut strategy = Fractals::new(Config { period: 2 }).unwrap();
    let signals = feed(&mut strategy, &[(9.0, 4.0), (9.0, 3.0), (9.0, 1.0), (9.0, 2.0), (9.0, 5.0)]);
    let signal = signals[4].clone().unwrap();
    assert_eq!(signal.signals.len(), 1);
    assert_eq!(signal.signals.get(Decision::Long), Some(SignalStrength(scalar(1.0))));
    assert_eq!(signal.signals.get(Decision::Short), None);
}

#[test]
fn pivots_on_both_sides_propose_both() {
    let mut strategy = Fractals::new(Config { period: 2 }).unwrap();
    let signals = feed(&mut strategy, &[(5.0, 4.0), (6.0, 3.0), (9.0, 1.0), (7.0, 2.0), (6.0, 3.0)]);
    let signal = signals[4].clone().unwrap();
    assert_eq!(signal.signals.len(), 2);
    assert_eq!(signal.signals.get(Decision::Long), Some(SignalStrength(scalar(1.0))));
    assert_eq!(signal.signals.get(Decision::Short), Some(SignalStrength(scalar(1.0))));
}

#[test]
fn no_pivot_gives_no_signal() {
    let mut strategy = Fractals::new(Config { period: 2 }).unwrap();
    let bars: Vec<(f64, f64)> = (0..20).map(|i| (10.0 + i as f64, 1.0 + i as f64)).collect();
    for signal in feed(&mut strategy, &bars) {
        assert_eq!(signal, None);
    }
}

#[test]
fn signal_comes_when_the_pivot_reaches_the_centre() {
    let mut strategy = Fractals::new(Config { period: 2 }).unwrap();
    let highs = [1.0, 1.0, 1.0, 2.0, 8.0, 3.0, 2.0, 1.0, 1.0];
    let bars: Vec<(f64, f64)> = highs.iter().map(|h| (*h, 0.5)).collect();
    let signals = feed(&mut strategy, &bars);
    for (i, signal) in signals.iter().enumerate() {
        assert_eq!(signal.is_some(), i == 6, "bar {i}");
    }
    assert_eq!(signals[6].clone().unwrap().time, Timestamp::new(6, 500));
}

#[test]
fn wide_window_looks_two_bars_each_way() {
    let mut strategy = Fractals::new(Config { period: 3 }).unwrap();
    let signals = feed(
        &mut strategy,
        &[(50.0, 0.5), (1.0, 0.5), (2.0, 0.5), (5.0, 0.5), (3.0, 0.5), (2.0, 0.5), (60.0, 0.5)],
    );
    assert!(signals[..6].iter().all(|s| s.is_none()));
    let signal = signals[6].clone().unwrap();
    assert_eq!(signal.signals.get(Decision::Short), Some(SignalStrength(scalar(1.0))));
}

#[test]
fn other_market_data_is_passed_over() {
    let mut strategy = Fractals::new(Config { period: 2 }).unwrap();
    feed(&mut strategy, &[(1.0, 0.5), (2.0, 0.5), (5.0, 0.5), (3.0, 0.5)]);
    assert_eq!(strategy.len(), 4);
    assert_eq!(strategy.generate_signal(&trade_event(9)), None);
    assert_eq!(strategy.len(), 4);
    let signal = strategy.generate_signal(&candle_event(10, 2.0, 0.5));
    assert!(signal.is_some());
}

#[test]
fn candles_become_market_events_in_order() {
    let candles: Vec<Candle> = (0..4)
        .map(|i| Candle {
            close_time: Timestamp::new(1_000 + i, 0),
            open: scalar(1.0),
            high: scalar(3.0 + i as f64),
            low: scalar(0.5),
            close: scalar(2.0),
            volume: scalar(10.0),
            trade_count: i as u64,
        })
        .collect();
    let before = chrono::Utc::now().timestamp();
    let events = trading_fractals::market::market_events_from_candles(
        &candles,
        &Exchange::from("binance"),
        &instrument(),
    );
    let after = chrono::Utc::now().timestamp();
    assert_eq!(events.len(), 4);
    for (event, candle) in events.iter().zip(&candles) {
        assert_eq!(event.exchange_time, candle.close_time);
        assert_eq!(event.exchange, Exchange::from("binance"));
        assert_eq!(event.instrument, instrument());
        assert_eq!(event.kind, DataKind::Candle(*candle));
        assert!(before <= event.received_time.secs && event.received_time.secs <= after);
        assert!(event.received_time.nanos < 2_000_000_000);
    }
    assert!(trading_fractals::market::market_events_from_candles(
        &[],
        &Exchange::from("binance"),
        &instrument()
    )
    .is_empty());
}

#[test]
fn candle_event_takes_its_time_from_the_candle() {
    let candle = Candle {
        close_time: Timestamp::new(77, 5),
        open: scalar(1.0),
        high: scalar(3.0),
        low: scalar(0.5),
        close: scalar(2.0),
        volume: scalar(10.0),
        trade_count: 9,
    };
    let event = MarketEvent::from_candle(
        candle,
        Timestamp::new(80, 0),
        Exchange::from("kraken"),
        instrument(),
    );
    assert_eq!(event.exchange_time, Timestamp::new(77, 5));
    assert_eq!(event.received_time, Timestamp::new(80, 0));
    assert_eq!(event.exchange, Exchange::from("kraken"));
    assert_eq!(event.instrument, instrument());
    assert_eq!(event.kind, DataKind::Candle(candle));
}

#[test]
fn strengths_are_ordered_as_numbers() {
    assert!(SignalStrength(scalar(0.25)) < SignalStrength(scalar(0.75)));
    assert!(SignalStrength(scalar(1.0)) > SignalStrength(scalar(-1.0)));
    assert!(SignalStrength(scalar(0.5)) == SignalStrength(scalar(0.5)));
    assert!(SignalStrength(scalar(-0.0)) == SignalStrength(scalar(0.0)));
    assert_eq!(SignalStrength(scalar(f64::NAN)).partial_cmp(&SignalStrength(scalar(1.0))), None);
}

#[test]
fn timestamps_are_ordered_by_time() {
    assert!(Timestamp::new(1, 999_999_999) < Timestamp::new(2, 0));
    assert!(Timestamp::new(-5, 0) < Timestamp::new(-4, 0));
    assert!(Timestamp::new(7, 1) > Timestamp::new(7, 0));
    assert_eq!(Timestamp::new(7, 1), Timestamp::new(7, 1));
}
