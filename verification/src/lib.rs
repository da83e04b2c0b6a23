//! Fractal pivots for an event-driven trading engine.
//!
//! The library finds fractal pivots in series of highs and lows
//! (`strategy::fractals`), keeps a rolling window of bars for one instrument
//! (`strategy::window`), turns a pivot at the centre of that window into an
//! advisory signal (`strategy::generator`), and decides what the consumer of
//! the engine's event queue does with each event (`engine`).
//!
//! Prices and strengths are binary64 numbers held by their bit patterns
//! (`scalar`), times are seconds and nanoseconds (`time`). Exchanges,
//! instruments and the payloads of orders, fills, positions and balances are
//! values of `barter`, `barter_data` and `barter_integration`; the library
//! carries them and does not look inside (`outside`).

pub mod engine;
pub mod market;
pub mod outside;
pub mod scalar;
pub mod strategy;
pub mod time;
