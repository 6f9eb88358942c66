use vstd::prelude::*;

verus! {

/// A price value: a signed fixed-point number with [`FRAC_BITS`] fractional
/// bits, so that the raw integer `p` stands for `p / ONE`.
pub type Price = i128;

/// Bar open timestamp or sequence number.
///
/// Used for bar boundary detection. Must be non-decreasing between
/// consecutive calls to an indicator's `compute`.
pub type Timestamp = u64;

/// Number of fractional bits of a [`Price`].
pub const FRAC_BITS: u32 = 48;

/// The price 1.0.
pub const ONE: Price = 0x1_0000_0000_0000;

/// Largest magnitude of a price that a bar may carry: `2^30` whole units.
pub const PRICE_MAX: Price = 0x4000_0000_0000_0000_0000;

/// Largest magnitude of a value extracted from a bar: a true range spans
/// at most twice the price limit.
pub const VALUE_MAX: Price = 0x8000_0000_0000_0000_0000;

/// One OHLCV sample with its sequence marker.
///
/// # Bar boundaries
///
/// Indicators detect new bars by comparing `open_time` values: same
/// timestamp updates (repaints) the current bar, a greater timestamp
/// advances the window.
#[derive(PartialEq, Eq, Clone, Copy, Debug, Structural)]
pub struct Bar {
    /// Opening price of the bar.
    pub open: Price,
    /// Highest price during the bar.
    pub high: Price,
    /// Lowest price during the bar.
    pub low: Price,
    /// Closing (or latest) price of the bar.
    pub close: Price,
    /// Bar open timestamp or sequence number.
    pub open_time: Timestamp,
    /// Trade volume during the bar. No indicator of this crate reads it.
    pub volume: Price,
}

impl Bar {
    /// A bar without volume.
    pub fn new(open: Price, high: Price, low: Price, close: Price, open_time: Timestamp) -> (bar:
        Bar)
        ensures
            bar == (Bar { open, high, low, close, open_time, volume: 0 }),
    {
        Bar { open, high, low, close, open_time, volume: 0 }
    }

    /// Whether every price lies within `-PRICE_MAX ..= PRICE_MAX`.
    pub open spec fn in_range(self) -> bool {
        &&& -PRICE_MAX <= self.open <= PRICE_MAX
        &&& -PRICE_MAX <= self.high <= PRICE_MAX
        &&& -PRICE_MAX <= self.low <= PRICE_MAX
        &&& -PRICE_MAX <= self.close <= PRICE_MAX
    }

    /// Tests [`Bar::in_range`].
    pub fn is_in_range(&self) -> (ok: bool)
        ensures
            ok == self.in_range(),
    {
        -PRICE_MAX <= self.open && self.open <= PRICE_MAX && -PRICE_MAX <= self.high && self.high
            <= PRICE_MAX && -PRICE_MAX <= self.low && self.low <= PRICE_MAX && -PRICE_MAX
            <= self.close && self.close <= PRICE_MAX
    }
}

/// Whether a bar with marker `now` opens a new bar after `last`: there was
/// no bar before, or `now` is strictly greater.
pub open spec fn is_advance(last: Option<Timestamp>, now: Timestamp) -> bool {
    match last {
        None => true,
        Some(t) => t < now,
    }
}

/// Whether a bar with marker `now` may follow `last`: markers never
/// decrease.
pub open spec fn follows(last: Option<Timestamp>, now: Timestamp) -> bool {
    match last {
        None => true,
        Some(t) => t <= now,
    }
}

/// Tests [`follows`].
pub fn may_follow(last: Option<Timestamp>, now: Timestamp) -> (ok: bool)
    ensures
        ok == follows(last, now),
{
    match last {
        None => true,
        Some(t) => t <= now,
    }
}

/// Decides between advance (`true`) and repaint (`false`).
pub fn advances(last: Option<Timestamp>, now: Timestamp) -> (advance: bool)
    ensures
        advance == is_advance(last, now),
{
    match last {
        None => true,
        Some(t) => t < now,
    }
}

} // verus!
