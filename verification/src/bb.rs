use vstd::prelude::*;
use crate::feed::{bars_opened, feed_ok, lemma_exposes_after_warm_up, run, BarMachine};
use crate::fixed::{floor_div, lemma_mean_bounded, mul_fixed, mul_floor, sqrt_fixed, sqrt_floor};
use crate::indicator::{Indicator, IndicatorConfig, IndicatorConfigBuilder};
use crate::length::{Length, MAX_LENGTH};
use crate::ohlcv::{follows, may_follow, Bar, Price, Timestamp, ONE, VALUE_MAX};
use crate::price_source::{greater, PriceSource};
use crate::price_window::{
    lemma_total_bounded, seq_sum, seq_sum_sq, square, square_of, PriceWindow, WindowView,
    SQUARE_MAX,
};
use crate::text::{labelled_text_with, labelled_with, price_string, price_text};
use vstd::string::StringExecFns;

verus! {

/// Largest standard deviation multiplier: `2^32` whole units.
pub const STD_DEV_MAX: Price = 0x1_0000_0000_0000_0000_0000;

/// Standard deviation multiplier for Bollinger Bands.
///
/// Wraps a positive fixed-point number of at most [`STD_DEV_MAX`].
///
/// Defaults to `2.0` (the standard Bollinger Bands setting).
#[derive(PartialEq, Eq, Hash, Clone, Copy, Debug)]
pub struct StdDev {
    value: Price,
}

impl View for StdDev {
    type V = Price;

    closed spec fn view(&self) -> Price {
        self.value
    }
}

impl StdDev {
    #[verifier::type_invariant]
    spec fn positive(self) -> bool {
        0 < self.value <= STD_DEV_MAX
    }

    /// Creates a new standard deviation multiplier. The value must be
    /// positive and at most [`STD_DEV_MAX`].
    pub fn new(value: Price) -> (std_dev: Self)
        requires
            0 < value <= STD_DEV_MAX,
        ensures
            std_dev@ == value,
    {
        Self { value }
    }

    /// Accepts `value` exactly when it is positive and at most
    /// [`STD_DEV_MAX`].
    pub fn checked(value: Price) -> (std_dev: Option<Self>)
        ensures
            std_dev is Some <==> 0 < value <= STD_DEV_MAX,
            std_dev matches Some(s) ==> s@ == value,
    {
        if 0 < value && value <= STD_DEV_MAX {
            Some(Self { value })
        } else {
            None
        }
    }

    /// The multiplier.
    pub fn value(self) -> (value: Price)
        ensures
            value == self@,
            0 < value <= STD_DEV_MAX,
    {
        proof {
            use_type_invariant(&self);
        }
        self.value
    }
}

impl Default for StdDev {
    fn default() -> (std_dev: Self)
        ensures
            std_dev@ == 2 * ONE,
    {
        Self { value: 2 * ONE }
    }
}

/// Configuration for the Bollinger Bands ([`Bb`]) indicator.
///
/// # Convergence
///
/// Bollinger Bands use an SMA for the middle band. Like SMA, values are
/// exact once the window is full, there is no warm-up bias to suppress.
#[derive(PartialEq, Eq, Hash, Clone, Copy, Debug)]
pub struct BbConfig {
    length: usize,
    source: PriceSource,
    std_dev: StdDev,
}

impl BbConfig {
    #[verifier::type_invariant]
    spec fn length_in_range(self) -> bool {
        0 < self.length <= MAX_LENGTH
    }

    /// The configured window length.
    pub closed spec fn spec_length(self) -> usize {
        self.length
    }

    /// The configured price source.
    pub closed spec fn spec_source(self) -> PriceSource {
        self.source
    }

    /// The configured multiplier.
    pub closed spec fn spec_std_dev(self) -> StdDev {
        self.std_dev
    }

    /// Returns a new builder with default values.
    pub fn builder() -> (builder: BbConfigBuilder)
        ensures
            builder.spec_length() is None,
            builder.spec_source() == PriceSource::Close,
            builder.spec_std_dev()@ == 2 * ONE,
    {
        BbConfigBuilder::new()
    }

    /// Window length (number of bars).
    pub fn length(&self) -> (n: usize)
        ensures
            n == self.spec_length(),
            0 < n <= MAX_LENGTH,
    {
        proof {
            use_type_invariant(self);
        }
        self.length
    }

    /// Price source to extract from each bar.
    pub fn source(&self) -> (source: &PriceSource)
        ensures
            *source == self.spec_source(),
    {
        &self.source
    }

    /// Standard deviation multiplier for the upper and lower bands.
    pub fn std_dev(&self) -> (std_dev: StdDev)
        ensures
            std_dev == self.spec_std_dev(),
    {
        self.std_dev
    }

    /// The text `BbConfig(length, source, multiplier)`.
    pub fn to_string(&self) -> (text: String)
        ensures
            text@ == labelled_text_with(
                "BbConfig"@,
                self.spec_length() as nat,
                self.spec_source(),
                self.spec_std_dev()@,
            ),
    {
        labelled_with("BbConfig", self.length, self.source, self.std_dev.value())
    }

    /// BB(20, Close, 2σ): the standard Bollinger Bands setting.
    pub fn default_20() -> (config: Self)
        ensures
            config.spec_length() == 20,
            config.spec_source() == PriceSource::Close,
            config.spec_std_dev()@ == 2 * ONE,
    {
        Self::builder().length(Length::from_checked(20)).build()
    }

    /// BB with custom length, close price, 2σ.
    pub fn close(length: Length) -> (config: Self)
        ensures
            config.spec_length() == length@,
            config.spec_source() == PriceSource::Close,
            config.spec_std_dev()@ == 2 * ONE,
    {
        Self::builder().length(length).build()
    }
}

impl IndicatorConfig for BbConfig {
    type Builder = BbConfigBuilder;

    fn builder() -> (builder: BbConfigBuilder)
        ensures
            builder.spec_length() is None,
            builder.spec_source() == PriceSource::Close,
            builder.spec_std_dev()@ == 2 * ONE,
    {
        BbConfigBuilder::new()
    }

    fn length(&self) -> (n: usize)
        ensures
            n == self.spec_length(),
    {
        self.length
    }

    fn source(&self) -> (source: &PriceSource)
        ensures
            *source == self.spec_source(),
    {
        &self.source
    }
}

/// Builder for [`BbConfig`].
///
/// Defaults: source = [`PriceSource::Close`], `std_dev` = `2.0`. Length
/// must be set before calling `build`.
pub struct BbConfigBuilder {
    length: Option<usize>,
    source: PriceSource,
    std_dev: StdDev,
}

impl BbConfigBuilder {
    #[verifier::type_invariant]
    spec fn length_in_range(self) -> bool {
        self.length matches Some(n) ==> 0 < n <= MAX_LENGTH
    }

    /// The length set so far, if any.
    pub closed spec fn spec_length(self) -> Option<usize> {
        self.length
    }

    /// The source set so far.
    pub closed spec fn spec_source(self) -> PriceSource {
        self.source
    }

    /// The multiplier set so far.
    pub closed spec fn spec_std_dev(self) -> StdDev {
        self.std_dev
    }

    fn new() -> (builder: Self)
        ensures
            builder.spec_length() is None,
            builder.spec_source() == PriceSource::Close,
            builder.spec_std_dev()@ == 2 * ONE,
    {
        Self { length: None, source: PriceSource::Close, std_dev: StdDev::default() }
    }

    /// Sets the standard deviation multiplier.
    pub fn std_dev(self, std_dev: StdDev) -> (builder: Self)
        ensures
            builder.spec_length() == self.spec_length(),
            builder.spec_source() == self.spec_source(),
            builder.spec_std_dev() == std_dev,
    {
        proof {
            use_type_invariant(&self);
        }
        Self { length: self.length, source: self.source, std_dev }
    }

    /// Sets the indicator window length.
    pub fn length(self, length: Length) -> (builder: Self)
        ensures
            builder.spec_length() == Some(length@),
            builder.spec_source() == self.spec_source(),
            builder.spec_std_dev() == self.spec_std_dev(),
    {
        Self { length: Some(length.get()), source: self.source, std_dev: self.std_dev }
    }

    /// Sets the price source.
    pub fn source(self, source: PriceSource) -> (builder: Self)
        ensures
            builder.spec_length() == self.spec_length(),
            builder.spec_source() == source,
            builder.spec_std_dev() == self.spec_std_dev(),
    {
        proof {
            use_type_invariant(&self);
        }
        Self { length: self.length, source, std_dev: self.std_dev }
    }

    /// Builds the config. The length must have been set.
    pub fn build(self) -> (config: BbConfig)
        requires
            self.spec_length() is Some,
        ensures
            Some(config.spec_length()) == self.spec_length(),
            config.spec_source() == self.spec_source(),
            config.spec_std_dev() == self.spec_std_dev(),
    {
        proof {
            use_type_invariant(&self);
        }
        match self.length {
            Some(length) => BbConfig { length, source: self.source, std_dev: self.std_dev },
            None => BbConfig { length: 1, source: self.source, std_dev: self.std_dev },
        }
    }
}

impl IndicatorConfigBuilder<BbConfig> for BbConfigBuilder {
    open spec fn has_length(&self) -> bool {
        self.spec_length() is Some
    }

    fn length(self, length: Length) -> (builder: Self)
        ensures
            builder.spec_length() == Some(length@),
            builder.spec_source() == self.spec_source(),
            builder.spec_std_dev() == self.spec_std_dev(),
    {
        BbConfigBuilder::length(self, length)
    }

    fn source(self, source: PriceSource) -> (builder: Self)
        ensures
            builder.spec_length() == self.spec_length(),
            builder.spec_source() == source,
            builder.spec_std_dev() == self.spec_std_dev(),
    {
        BbConfigBuilder::source(self, source)
    }

    fn build(self) -> (config: BbConfig)
        ensures
            Some(config.spec_length()) == self.spec_length(),
            config.spec_source() == self.spec_source(),
            config.spec_std_dev() == self.spec_std_dev(),
    {
        BbConfigBuilder::build(self)
    }
}

/// The three bands as plain numbers.
pub struct Bands {
    /// Upper band: `SMA + k × σ`.
    pub upper: int,
    /// Middle band: SMA of the window.
    pub middle: int,
    /// Lower band: `SMA − k × σ`.
    pub lower: int,
}

impl Bands {
    /// Whether the bands lie at one distance around a bounded middle.
    pub open spec fn ordered(self) -> bool {
        &&& self.lower <= self.middle <= self.upper
        &&& self.upper - self.middle == self.middle - self.lower
        &&& -VALUE_MAX <= self.middle <= VALUE_MAX
        &&& self.upper - self.middle <= OFFSET_MAX
    }
}

/// Bollinger Bands output: upper, middle, and lower bands.
///
/// The middle band is the SMA. Upper and lower bands are offset by
/// `std_dev × σ`, where `σ` is the population standard deviation of the
/// window.
///
/// ```text
/// upper  = SMA + k × σ
/// middle = SMA
/// lower  = SMA − k × σ
/// ```
#[derive(PartialEq, Eq, Clone, Copy, Debug)]
pub struct BbValue {
    upper: Price,
    middle: Price,
    lower: Price,
}

impl View for BbValue {
    type V = Bands;

    closed spec fn view(&self) -> Bands {
        Bands { upper: self.upper as int, middle: self.middle as int, lower: self.lower as int }
    }
}

impl BbValue {
    #[verifier::type_invariant]
    spec fn ordered(self) -> bool {
        self@.ordered()
    }

    /// Upper band: `SMA + k × σ`.
    pub fn upper(&self) -> (price: Price)
        ensures
            price == self@.upper,
    {
        self.upper
    }

    /// Middle band: SMA of the window.
    pub fn middle(&self) -> (price: Price)
        ensures
            price == self@.middle,
    {
        self.middle
    }

    /// Lower band: `SMA − k × σ`.
    pub fn lower(&self) -> (price: Price)
        ensures
            price == self@.lower,
    {
        self.lower
    }

    /// The text `BB(u: upper, m: middle, l: lower)`.
    pub fn to_string(&self) -> (text: String)
        ensures
            text@ == "BB(u: "@ + price_text(self@.upper as Price) + ", m: "@ + price_text(
                self@.middle as Price,
            ) + ", l: "@ + price_text(self@.lower as Price) + ")"@,
    {
        proof {
            use_type_invariant(self);
        }
        let upper: String = price_string(self.upper);
        let middle: String = price_string(self.middle);
        let lower: String = price_string(self.lower);
        String::from_str("BB(u: ").concat(upper.as_str()).concat(", m: ").concat(
            middle.as_str(),
        ).concat(", l: ").concat(lower.as_str()).concat(")")
    }

    /// Band width: `upper − lower`.
    ///
    /// Useful for measuring volatility. Narrow width indicates
    /// consolidation (Bollinger squeeze); wide width indicates high
    /// volatility.
    pub fn width(&self) -> (width: Price)
        ensures
            width == self@.upper - self@.lower,
            width >= 0,
    {
        proof {
            use_type_invariant(self);
        }
        self.upper - self.lower
    }
}

/// The view of an optional value.
pub open spec fn bands_view(value: Option<BbValue>) -> Option<Bands> {
    match value {
        Some(bands) => Some(bands@),
        None => None,
    }
}

/// Largest distance of a band from the middle: `2^112`.
pub const OFFSET_MAX: Price = 0x1_0000_0000_0000_0000_0000_0000_0000;

/// The population variance of a ready window: the mean of the squares
/// less the square of the mean, and zero where rounding would make that
/// negative.
pub open spec fn variance_of(window: WindowView) -> int {
    let n = window.size as int;
    let mean = seq_sum(window.items) / n;
    greater(seq_sum_sq(window.items) / n - square_of(mean as Price), 0)
}

/// The bands of a ready window for multiplier `k`; `None` until the window
/// is ready.
pub open spec fn bands_of(window: WindowView, k: Price) -> Option<Bands> {
    if window.ready() {
        let mean = seq_sum(window.items) / (window.size as int);
        let offset = mul_fixed(k as int, sqrt_fixed(variance_of(window)));
        Some(Bands { upper: mean + offset, middle: mean, lower: mean - offset })
    } else {
        None
    }
}

/// The state of a [`Bb`] as plain mathematics.
pub struct BbView {
    /// The sliding window, with its sum of squares.
    pub window: WindowView,
    /// The standard deviation multiplier.
    pub multiplier: Price,
    /// The bands exposed.
    pub current: Option<Bands>,
}

impl BbView {
    /// Bollinger Bands that have seen no bar.
    pub open spec fn init(length: nat, source: PriceSource, multiplier: Price) -> BbView {
        BbView { window: WindowView::init(length, source, true), multiplier, current: None }
    }

    /// What holds of every state reachable from `init` by `step`.
    pub open spec fn inv(self) -> bool {
        &&& self.window.inv()
        &&& self.window.squares
        &&& 0 < self.multiplier <= STD_DEV_MAX
        &&& self.current == bands_of(self.window, self.multiplier)
    }

    /// The state after `bar`: the window takes the bar, and the bands of
    /// the window are exposed once it is full.
    pub open spec fn step(self, bar: Bar) -> BbView {
        let window = self.window.add(bar);
        BbView {
            window,
            multiplier: self.multiplier,
            current: bands_of(window, self.multiplier),
        }
    }

    /// `step` keeps the invariant.
    pub proof fn lemma_step_keeps_inv(self, bar: Bar)
        requires
            self.inv(),
            bar.in_range(),
            follows(self.window.last_open_time, bar.open_time),
        ensures
            self.step(bar).inv(),
    {
        self.window.lemma_add_keeps_inv(bar);
    }
}

impl BarMachine for BbView {
    open spec fn stable(self) -> bool {
        self.inv()
    }

    open spec fn marker(self) -> Option<Timestamp> {
        self.window.last_open_time
    }

    open spec fn next(self, bar: Bar) -> Self {
        self.step(bar)
    }

    open spec fn warm_up(self) -> nat {
        self.window.size
    }

    open spec fn progress(self) -> nat {
        self.window.items.len()
    }

    open spec fn exposes(self) -> bool {
        self.current is Some
    }

    proof fn lemma_stable(self) {
    }

    proof fn lemma_next(self, bar: Bar) {
        self.lemma_step_keeps_inv(bar);
        self.window.lemma_add_keeps_inv(bar);
    }

    proof fn lemma_repaint_replaces(self, earlier: Bar, later: Bar) {
        self.window.lemma_repaint_replaces(earlier, later);
    }
}

/// Convergence timing: Bollinger Bands of window `length` expose no bands
/// until `length` bars were opened, and bands from then on.
pub proof fn lemma_bb_converges_at_length(
    length: nat,
    source: PriceSource,
    multiplier: Price,
    bars: Seq<Bar>,
)
    requires
        0 < length <= MAX_LENGTH,
        0 < multiplier <= STD_DEV_MAX,
        feed_ok(None, bars),
    ensures
        run(BbView::init(length, source, multiplier), bars).current is Some <==> bars_opened(
            None,
            bars,
        ) >= length,
{
    lemma_exposes_after_warm_up(BbView::init(length, source, multiplier), bars);
}

/// Bollinger Bands (BB).
///
/// A volatility indicator consisting of three bands: a simple moving
/// average (middle) with upper and lower bands offset by a configurable
/// number of standard deviations.
///
/// Uses a running sum and sum of squares for O(1) window updates per tick.
///
/// Supports live repainting: feeding a bar with the same `open_time`
/// replaces the current value without advancing the window.
#[derive(Debug)]
pub struct Bb {
    config: BbConfig,
    std_dev_multiplier: Price,
    window: PriceWindow,
    current: Option<BbValue>,
}

impl View for Bb {
    type V = BbView;

    closed spec fn view(&self) -> BbView {
        BbView {
            window: self.window@,
            multiplier: self.std_dev_multiplier,
            current: bands_view(self.current),
        }
    }
}

impl Bb {
    /// The configuration that the indicator was made from.
    pub closed spec fn spec_config(&self) -> BbConfig {
        self.config
    }

    /// The representation invariant.
    pub closed spec fn wf(&self) -> bool {
        &&& self.window.wf()
        &&& self@.inv()
        &&& self@.window.size == self.config.spec_length()
        &&& self@.window.source == self.config.spec_source()
        &&& self@.multiplier == self.config.spec_std_dev()@
    }

    /// A well-formed state satisfies the model's invariant and agrees with
    /// its configuration.
    pub proof fn lemma_wf_inv(&self)
        requires
            self.wf(),
        ensures
            self@.inv(),
            self@.window.size == self.spec_config().spec_length(),
            self@.window.source == self.spec_config().spec_source(),
            self@.multiplier == self.spec_config().spec_std_dev()@,
    {
    }

    /// Creates a new indicator from the given config.
    pub fn new(config: BbConfig) -> (bb: Self)
        ensures
            bb.wf(),
            bb.spec_config() == config,
            bb@ == BbView::init(
                config.spec_length() as nat,
                config.spec_source(),
                config.spec_std_dev()@,
            ),
    {
        let window = PriceWindow::with_sum_of_squares(config.length(), *config.source());
        Self { config, std_dev_multiplier: config.std_dev().value(), window, current: None }
    }

    /// The marker of the current bar; `None` before the first tick.
    pub fn last_open_time(&self) -> (marker: Option<Timestamp>)
        ensures
            marker == self@.window.last_open_time,
    {
        self.window.last_open_time()
    }

    /// Whether `compute` takes `bar`: its prices are in range and its
    /// marker is not less than that of the current bar.
    pub fn accepts(&self, bar: &Bar) -> (ok: bool)
        ensures
            ok == (bar.in_range() && follows(self@.window.last_open_time, bar.open_time)),
    {
        bar.is_in_range() && may_follow(self.last_open_time(), bar.open_time)
    }

    /// Feeds a bar and returns the updated bands, or `None` while the
    /// window is filling.
    pub fn compute(&mut self, bar: &Bar) -> (output: Option<BbValue>)
        requires
            old(self).wf(),
            bar.in_range(),
            follows(old(self)@.window.last_open_time, bar.open_time),
        ensures
            final(self).wf(),
            final(self).spec_config() == old(self).spec_config(),
            final(self)@ == old(self)@.step(*bar),
            bands_view(output) == final(self)@.current,
            output matches Some(bands) ==> bands@.ordered(),
    {
        proof {
            old(self)@.lemma_step_keeps_inv(*bar);
        }
        self.window.add(bar);
        let length: i128 = self.config.length() as i128;
        let sums: (Option<Price>, Option<Price>) = (self.window.sum(), self.window.sum_of_squares());
        self.current = match sums {
            (Some(sum), Some(sum_of_squares)) => {
                proof {
                    let items = self.window@.items;
                    lemma_total_bounded(items, false);
                    lemma_total_bounded(items, true);
                    lemma_mean_bounded(seq_sum(items), length as int, VALUE_MAX as int);
                    lemma_mean_bounded(seq_sum_sq(items), length as int, SQUARE_MAX as int);
                }
                let mean: Price = floor_div(sum, length);

                // Variance = E[X^2] - (E[X])^2
                let mean_of_squares: Price = floor_div(sum_of_squares, length);
                let spread: Price = mean_of_squares - square(mean);
                let variance: Price = if spread > 0 {
                    spread
                } else {
                    0
                };
                let deviation: u128 = sqrt_floor(variance as u128);
                let offset: Price = mul_floor(self.std_dev_multiplier as u128, deviation) as Price;

                Some(BbValue { upper: mean + offset, middle: mean, lower: mean - offset })
            },
            _ => None,
        };

        self.current
    }

    /// The text `BB(length, source, multiplier)`.
    pub fn to_string(&self) -> (text: String)
        ensures
            text@ == labelled_text_with(
                "BB"@,
                self.spec_config().spec_length() as nat,
                self.spec_config().spec_source(),
                self.spec_config().spec_std_dev()@,
            ),
    {
        labelled_with(
            "BB",
            self.config.length(),
            *self.config.source(),
            self.config.std_dev().value(),
        )
    }

    /// Returns the last computed bands without consuming input.
    pub fn value(&self) -> (output: Option<BbValue>)
        ensures
            bands_view(output) == self@.current,
    {
        self.current
    }
}

impl Clone for Bb {
    /// A copy in the same state that shares nothing with `self`.
    fn clone(&self) -> (copy: Self)
        ensures
            copy@ == self@,
            copy.spec_config() == self.spec_config(),
            self.wf() ==> copy.wf(),
    {
        Self {
            config: self.config,
            std_dev_multiplier: self.std_dev_multiplier,
            window: self.window.clone(),
            current: self.current,
        }
    }
}

impl Indicator for Bb {
    type Config = BbConfig;

    type Output = BbValue;

    open spec fn valid(&self) -> bool {
        self.wf()
    }

    open spec fn marker(&self) -> Option<Timestamp> {
        self@.window.last_open_time
    }

    closed spec fn exposed(&self) -> Option<BbValue> {
        self.current
    }

    fn new(config: BbConfig) -> (bb: Self)
        ensures
            bb@ == BbView::init(
                config.spec_length() as nat,
                config.spec_source(),
                config.spec_std_dev()@,
            ),
    {
        Bb::new(config)
    }

    fn compute(&mut self, bar: &Bar) -> (output: Option<BbValue>)
        ensures
            final(self)@ == old(self)@.step(*bar),
            bands_view(output) == final(self)@.current,
    {
        Bb::compute(self, bar)
    }

    fn value(&self) -> (output: Option<BbValue>)
        ensures
            bands_view(output) == self@.current,
    {
        Bb::value(self)
    }
}

} // verus!
