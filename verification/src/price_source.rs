use vstd::prelude::*;
use crate::ohlcv::{Bar, Price, PRICE_MAX, VALUE_MAX};
use crate::fixed::floor_div;
use vstd::string::StringExecFns;

verus! {

/// Price source extracted from a bar before feeding into an indicator.
///
/// Each indicator is configured with a `PriceSource` that determines which
/// value (or derived value) to compute on.
#[derive(PartialEq, Eq, Hash, Clone, Copy, Debug, Structural)]
pub enum PriceSource {
    /// Opening price.
    Open,
    /// Highest price.
    High,
    /// Closing price.
    Close,
    /// Lowest price.
    Low,
    /// Median price: `(high + low) / 2`.
    HL2,
    /// Typical price: `(high + low + close) / 3`.
    HLC3,
    /// Average price: `(open + high + low + close) / 4`.
    OHLC4,
    /// Weighted close: `(high + low + close + close) / 4`.
    HLCC4,
    /// True range: `max(high - low, |high - prev_close|, |low - prev_close|)`.
    ///
    /// On the first bar (no previous close), falls back to `high - low`.
    TrueRange,
}

impl Default for PriceSource {
    fn default() -> (source: Self)
        ensures
            source == PriceSource::Close,
    {
        PriceSource::Close
    }
}

/// The distance between two numbers.
pub open spec fn distance(a: int, b: int) -> int {
    if a >= b {
        a - b
    } else {
        b - a
    }
}

/// The greater of two numbers.
pub open spec fn greater(a: int, b: int) -> int {
    if a >= b {
        a
    } else {
        b
    }
}

/// The range of a bar, widened to reach the previous bar's close.
pub open spec fn true_range(bar: Bar, prev_close: Option<Price>) -> int {
    let spread = bar.high - bar.low;
    match prev_close {
        Some(prev) => greater(
            greater(spread, distance(bar.high as int, prev as int)),
            distance(bar.low as int, prev as int),
        ),
        None => spread,
    }
}

/// Whether a remembered close lies within the price limit.
pub open spec fn close_in_range(close: Option<Price>) -> bool {
    close matches Some(c) ==> -PRICE_MAX <= c <= PRICE_MAX
}

impl PriceSource {
    /// The name of the source, as its variant is written.
    pub open spec fn name_of(self) -> Seq<char> {
        match self {
            PriceSource::Open => "Open"@,
            PriceSource::High => "High"@,
            PriceSource::Close => "Close"@,
            PriceSource::Low => "Low"@,
            PriceSource::HL2 => "HL2"@,
            PriceSource::HLC3 => "HLC3"@,
            PriceSource::OHLC4 => "OHLC4"@,
            PriceSource::HLCC4 => "HLCC4"@,
            PriceSource::TrueRange => "TrueRange"@,
        }
    }

    /// The name of the source, as its variant is written.
    pub fn name(self) -> (name: &'static str)
        ensures
            name@ == self.name_of(),
    {
        match self {
            PriceSource::Open => "Open",
            PriceSource::High => "High",
            PriceSource::Close => "Close",
            PriceSource::Low => "Low",
            PriceSource::HL2 => "HL2",
            PriceSource::HLC3 => "HLC3",
            PriceSource::OHLC4 => "OHLC4",
            PriceSource::HLCC4 => "HLCC4",
            PriceSource::TrueRange => "TrueRange",
        }
    }

    /// The name of the source as owned text.
    pub fn to_string(&self) -> (text: String)
        ensures
            text@ == self.name_of(),
    {
        String::from_str(self.name())
    }

    /// The scalar that this source reads off `bar`, given the close of the
    /// bar before it. Divisions round down.
    pub open spec fn price_of(self, bar: Bar, prev_close: Option<Price>) -> int {
        match self {
            PriceSource::Open => bar.open as int,
            PriceSource::High => bar.high as int,
            PriceSource::Close => bar.close as int,
            PriceSource::Low => bar.low as int,
            PriceSource::HL2 => (bar.high + bar.low) / 2,
            PriceSource::HLC3 => (bar.high + bar.low + bar.close) / 3,
            PriceSource::OHLC4 => (bar.open + bar.high + bar.low + bar.close) / 4,
            PriceSource::HLCC4 => (bar.high + bar.low + bar.close + bar.close) / 4,
            PriceSource::TrueRange => true_range(bar, prev_close),
        }
    }

    /// Every extracted value lies within `-VALUE_MAX ..= VALUE_MAX`.
    pub proof fn lemma_price_of_bounded(self, bar: Bar, prev_close: Option<Price>)
        requires
            bar.in_range(),
            close_in_range(prev_close),
        ensures
            -VALUE_MAX <= self.price_of(bar, prev_close) <= VALUE_MAX,
    {
    }

    /// Maps a bar, and the previous bar's close, to the configured scalar.
    pub fn extract(self, bar: &Bar, prev_close: Option<Price>) -> (price: Price)
        requires
            bar.in_range(),
            close_in_range(prev_close),
        ensures
            price == self.price_of(*bar, prev_close),
            -VALUE_MAX <= price <= VALUE_MAX,
    {
        match self {
            PriceSource::Open => bar.open,
            PriceSource::High => bar.high,
            PriceSource::Close => bar.close,
            PriceSource::Low => bar.low,
            PriceSource::HL2 => floor_div(bar.high + bar.low, 2),
            PriceSource::HLC3 => floor_div(bar.high + bar.low + bar.close, 3),
            PriceSource::OHLC4 => floor_div(bar.open + bar.high + bar.low + bar.close, 4),
            PriceSource::HLCC4 => floor_div(bar.high + bar.low + bar.close + bar.close, 4),
            PriceSource::TrueRange => {
                let spread: Price = bar.high - bar.low;
                match prev_close {
                    Some(prev) => {
                        let to_high: Price = span(bar.high, prev);
                        let to_low: Price = span(bar.low, prev);
                        larger(larger(spread, to_high), to_low)
                    },
                    None => spread,
                }
            },
        }
    }
}

fn span(a: Price, b: Price) -> (d: Price)
    requires
        -PRICE_MAX <= a <= PRICE_MAX,
        -PRICE_MAX <= b <= PRICE_MAX,
    ensures
        d == distance(a as int, b as int),
{
    if a >= b {
        a - b
    } else {
        b - a
    }
}

fn larger(a: Price, b: Price) -> (m: Price)
    ensures
        m == greater(a as int, b as int),
{
    if a >= b {
        a
    } else {
        b
    }
}

} // verus!
