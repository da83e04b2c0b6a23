use trading_fractals::scalar::Scalar;
use trading_fractals::strategy::window::Bar;
use trading_fractals::strategy::window::ConfigError;
use trading_fractals::strategy::window::WindowBuffer;
use trading_fractals::time::Timestamp;

fn bar(second: i64, high: f64, low: f64) -> Bar {
    Bar {
        timestamp: Timestamp::new(second, 0),
        high: Scalar::from_bits(high.to_bits()),
        low: Scalar::from_bits(low.to_bits()),
    }
}

fn seconds(window: &WindowBuffer) -> Vec<i64> {
    (0..window.len()).map(|i| window.get(i).unwrap().timestamp.secs).collect()
}

#[test]
fn zero_period_is_refused() {
    assert_eq!(WindowBuffer::new(0).err(), Some(ConfigError::ZeroPeriod));
}

#[test]
fn uncountable_window_is_refused() {
    assert_eq!(WindowBuffer::new(usize::MAX).err(), Some(ConfigError::PeriodTooLarge));
    assert_eq!(WindowBuffer::new(usize::MAX / 2 + 1).err(), Some(ConfigError::PeriodTooLarge));
    let largest = WindowBuffer::new(usize::MAX / 2).unwrap();
    assert_eq!(largest.capacity(), usize::MAX);
}

#[test]
fn new_window_is_empty() {
    let window = WindowBuffer::new(2).unwrap();
    assert_eq!(window.len(), 0);
    assert_eq!(window.period(), 2);
    assert_eq!(window.capacity(), 5);
    assert!(!window.is_ready());
    assert_eq!(window.get(0), None);
    assert!(window.highs().is_empty());
    assert!(window.lows().is_empty());
}

#[test]
fn window_fills_then_rolls() {
    let mut window = WindowBuffer::new(1).unwrap();
    assert_eq!(window.capacity(), 3);
    window.push(bar(1, 11.0, 1.0));
    assert!(!window.is_ready());
    assert_eq!(seconds(&window), vec![1]);
    window.push(bar(2, 12.0, 2.0));
    assert!(!window.is_ready());
    assert_eq!(seconds(&window), vec![1, 2]);
    window.push(bar(3, 13.0, 3.0));
    assert!(window.is_ready());
    assert_eq!(seconds(&window), vec![1, 2, 3]);
    window.push(bar(4, 14.0, 4.0));
    assert!(window.is_ready());
    assert_eq!(seconds(&window), vec![2, 3, 4]);
    window.push(bar(5, 15.0, 5.0));
    assert_eq!(seconds(&window), vec![3, 4, 5]);
    assert_eq!(window.len(), 3);
    assert_eq!(window.get(3), None);
}

#[test]
fn highs_and_lows_follow_the_bars() {
    let mut window = WindowBuffer::new(1).unwrap();
    for i in 0..5 {
        window.push(bar(i, 10.0 + i as f64, 1.0 + i as f64));
    }
    let highs: Vec<f64> = window.highs().iter().map(|s| f64::from_bits(s.to_bits())).collect();
    let lows: Vec<f64> = window.lows().iter().map(|s| f64::from_bits(s.to_bits())).collect();
    assert_eq!(highs, vec![12.0, 13.0, 14.0]);
    assert_eq!(lows, vec![3.0, 4.0, 5.0]);
}

#[test]
fn window_never_exceeds_its_capacity() {
    let mut window = WindowBuffer::new(3).unwrap();
    for i in 0..40 {
        window.push(bar(i, 1.0, 1.0));
        assert_eq!(window.len(), std::cmp::min(i as usize + 1, 7));
        assert_eq!(window.is_ready(), i >= 6);
        assert_eq!(window.get(window.len() - 1).unwrap().timestamp.secs, i);
    }
}
