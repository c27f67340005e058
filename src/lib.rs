//! Supertrend: a streaming trend-following indicator over price bars.
//!
//! Prices are fixed-point integers (ticks). The band multiplier is given in
//! thousandths, so `3000` stands for a multiplier of three.
pub mod bar;
pub mod true_range;

pub use bar::Bar;
pub use true_range::TrueRange;
pub mod error;
pub mod sma;

pub use error::IndicatorError;
pub use sma::SimpleMovingAverage;
pub mod supertrend;

pub use supertrend::{Supertrend, Trend};
pub mod laws;
