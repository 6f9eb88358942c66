//! Streaming technical analysis indicators over fixed-point prices,
//! verified with Verus.
//!
//! The crate computes, one bar at a time, the Simple Moving Average
//! ([`Sma`]), the Exponential Moving Average ([`Ema`]), Bollinger Bands
//! ([`Bb`]) and the Relative Strength Index with Wilder's smoothing
//! ([`Rsi`]). An indicator is made from a config, then fed [`Bar`]s with
//! `compute`; it answers with its updated value, or `None` until enough
//! bars were seen for convergence. `value` reads the last answer again.
//!
//! # Bar boundaries
//!
//! Ticks that share one `open_time` are successive repaints of a single
//! bar; the first tick with a greater `open_time` finalizes that bar and
//! opens a new one. Markers never decrease: every `compute` requires it,
//! and `accepts` tests it for callers that cannot prove it.
//!
//! # Numbers
//!
//! A [`Price`] is a signed fixed-point number with [`FRAC_BITS`]
//! fractional bits. All arithmetic is integer arithmetic; where a result
//! is not a fixed-point number it is rounded down, once, and every
//! contract states the rounded result. Three limits keep every
//! intermediate value inside 128 bits: prices of a bar lie within
//! [`PRICE_MAX`], window lengths within [`MAX_LENGTH`], and the Bollinger
//! multiplier within [`STD_DEV_MAX`].
//!
//! # What is proved
//!
//! Every function is verified against a mathematical model of its type:
//! [`WindowView`], [`SmaView`], [`EmaView`], [`BbView`] and [`RsiView`],
//! each with a `step` that says what one tick does. The module [`feed`]
//! proves, of all of them, when a value is first exposed, that repainting
//! a bar and painting it back changes nothing, and that only the last
//! tick of each bar matters.

pub mod bb;
pub mod ema;
pub mod feed;
pub mod fixed;
pub mod indicator;
pub mod length;
pub mod ohlcv;
pub mod price_source;
pub mod price_window;
pub mod ring_buffer;
pub mod rsi;
pub mod sma;
pub mod text;

pub use crate::bb::{Bands, Bb, BbConfig, BbConfigBuilder, BbValue, BbView, StdDev, STD_DEV_MAX};
pub use crate::ema::{Ema, EmaConfig, EmaConfigBuilder, EmaView};
pub use crate::indicator::{Indicator, IndicatorConfig, IndicatorConfigBuilder};
pub use crate::length::{Length, MAX_LENGTH};
pub use crate::ohlcv::{Bar, Price, Timestamp, FRAC_BITS, ONE, PRICE_MAX, VALUE_MAX};
pub use crate::price_source::PriceSource;
pub use crate::price_window::{PriceWindow, WindowView};
pub use crate::ring_buffer::RingBuffer;
pub use crate::rsi::{Rsi, RsiConfig, RsiConfigBuilder, RsiPhase, RsiView};
pub use crate::sma::{Sma, SmaConfig, SmaConfigBuilder, SmaView};
