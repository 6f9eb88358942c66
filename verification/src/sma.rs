use vstd::prelude::*;
use crate::feed::{bars_opened, feed_ok, lemma_exposes_after_warm_up, run, BarMachine};
use crate::fixed::{floor_div, lemma_mean_bounded};
use crate::indicator::{Indicator, IndicatorConfig, IndicatorConfigBuilder};
use crate::length::{Length, MAX_LENGTH};
use crate::ohlcv::{follows, may_follow, Bar, Price, Timestamp, VALUE_MAX};
use crate::price_source::PriceSource;
use crate::price_window::{lemma_total_bounded, seq_sum, PriceWindow, WindowView};
use crate::text::{labelled, labelled_text};

verus! {

/// Configuration for the Simple Moving Average ([`Sma`]) indicator.
#[derive(PartialEq, Eq, Hash, Clone, Copy, Debug)]
pub struct SmaConfig {
    length: usize,
    source: PriceSource,
}

impl SmaConfig {
    #[verifier::type_invariant]
    spec fn length_in_range(self) -> bool {
        0 < self.length <= MAX_LENGTH
    }

    /// The configured window length.
    pub closed spec fn spec_length(self) -> usize {
        self.length
    }

    /// The configured price source.
    pub closed spec fn spec_source(self) -> PriceSource {
        self.source
    }

    /// Returns a new builder with default values.
    pub fn builder() -> (builder: SmaConfigBuilder)
        ensures
            builder.spec_length() is None,
            builder.spec_source() == PriceSource::Close,
    {
        SmaConfigBuilder::new()
    }

    /// Window length (number of bars).
    pub fn length(&self) -> (n: usize)
        ensures
            n == self.spec_length(),
            0 < n <= MAX_LENGTH,
    {
        proof {
            use_type_invariant(self);
        }
        self.length
    }

    /// Price source to extract from each bar.
    pub fn source(&self) -> (source: &PriceSource)
        ensures
            *source == self.spec_source(),
    {
        &self.source
    }

    /// The text `SmaConfig(length, source)`.
    pub fn to_string(&self) -> (text: String)
        ensures
            text@ == labelled_text("SmaConfig"@, self.spec_length() as nat, self.spec_source()),
    {
        labelled("SmaConfig", self.length, self.source)
    }

    /// SMA on closing price.
    pub fn close(length: Length) -> (config: Self)
        ensures
            config.spec_length() == length@,
            config.spec_source() == PriceSource::Close,
    {
        Self::builder().length(length).build()
    }

    /// SMA on median price: `(high + low) / 2`.
    pub fn hl2(length: Length) -> (config: Self)
        ensures
            config.spec_length() == length@,
            config.spec_source() == PriceSource::HL2,
    {
        Self::builder().length(length).source(PriceSource::HL2).build()
    }

    /// SMA on average price: `(open + high + low + close) / 4`.
    pub fn ohlc4(length: Length) -> (config: Self)
        ensures
            config.spec_length() == length@,
            config.spec_source() == PriceSource::OHLC4,
    {
        Self::builder().length(length).source(PriceSource::OHLC4).build()
    }
}

impl IndicatorConfig for SmaConfig {
    type Builder = SmaConfigBuilder;

    fn builder() -> (builder: SmaConfigBuilder)
        ensures
            builder.spec_length() is None,
            builder.spec_source() == PriceSource::Close,
    {
        SmaConfigBuilder::new()
    }

    fn length(&self) -> (n: usize)
        ensures
            n == self.spec_length(),
    {
        self.length
    }

    fn source(&self) -> (source: &PriceSource)
        ensures
            *source == self.spec_source(),
    {
        &self.source
    }
}

/// Builder for [`SmaConfig`].
///
/// Defaults: source = [`PriceSource::Close`].
/// Length must be set before calling `build`.
pub struct SmaConfigBuilder {
    length: Option<usize>,
    source: PriceSource,
}

impl SmaConfigBuilder {
    #[verifier::type_invariant]
    spec fn length_in_range(self) -> bool {
        self.length matches Some(n) ==> 0 < n <= MAX_LENGTH
    }

    /// The length set so far, if any.
    pub closed spec fn spec_length(self) -> Option<usize> {
        self.length
    }

    /// The source set so far.
    pub closed spec fn spec_source(self) -> PriceSource {
        self.source
    }

    fn new() -> (builder: Self)
        ensures
            builder.spec_length() is None,
            builder.spec_source() == PriceSource::Close,
    {
        Self { length: None, source: PriceSource::Close }
    }

    /// Sets the indicator window length.
    pub fn length(self, length: Length) -> (builder: Self)
        ensures
            builder.spec_length() == Some(length@),
            builder.spec_source() == self.spec_source(),
    {
        Self { length: Some(length.get()), source: self.source }
    }

    /// Sets the price source.
    pub fn source(self, source: PriceSource) -> (builder: Self)
        ensures
            builder.spec_length() == self.spec_length(),
            builder.spec_source() == source,
    {
        proof {
            use_type_invariant(&self);
        }
        Self { length: self.length, source }
    }

    /// Builds the config. The length must have been set.
    pub fn build(self) -> (config: SmaConfig)
        requires
            self.spec_length() is Some,
        ensures
            Some(config.spec_length()) == self.spec_length(),
            config.spec_source() == self.spec_source(),
    {
        proof {
            use_type_invariant(&self);
        }
        match self.length {
            Some(length) => SmaConfig { length, source: self.source },
            None => SmaConfig { length: 1, source: self.source },
        }
    }
}

impl IndicatorConfigBuilder<SmaConfig> for SmaConfigBuilder {
    open spec fn has_length(&self) -> bool {
        self.spec_length() is Some
    }

    fn length(self, length: Length) -> (builder: Self)
        ensures
            builder.spec_length() == Some(length@),
            builder.spec_source() == self.spec_source(),
    {
        SmaConfigBuilder::length(self, length)
    }

    fn source(self, source: PriceSource) -> (builder: Self)
        ensures
            builder.spec_length() == self.spec_length(),
            builder.spec_source() == source,
    {
        SmaConfigBuilder::source(self, source)
    }

    fn build(self) -> (config: SmaConfig)
        ensures
            Some(config.spec_length()) == self.spec_length(),
            config.spec_source() == self.spec_source(),
    {
        SmaConfigBuilder::build(self)
    }
}

/// The mean of a ready window, rounded down; `None` until it is ready.
pub open spec fn mean_of(window: WindowView) -> Option<Price> {
    if window.ready() {
        Some((seq_sum(window.items) / (window.size as int)) as Price)
    } else {
        None
    }
}

/// The mean of a well-formed ready window is a bounded value.
pub proof fn lemma_mean_of_bounded(window: WindowView)
    requires
        window.inv(),
    ensures
        mean_of(window) matches Some(mean) ==> {
            &&& mean == seq_sum(window.items) / (window.size as int)
            &&& -VALUE_MAX <= mean <= VALUE_MAX
        },
{
    if window.ready() {
        lemma_total_bounded(window.items, false);
        lemma_mean_bounded(seq_sum(window.items), window.size as int, VALUE_MAX as int);
    }
}

/// The state of an [`Sma`] as plain mathematics.
pub struct SmaView {
    /// The sliding window.
    pub window: WindowView,
    /// The value exposed.
    pub current: Option<Price>,
}

impl SmaView {
    /// An SMA that has seen no bar.
    pub open spec fn init(length: nat, source: PriceSource) -> SmaView {
        SmaView { window: WindowView::init(length, source, false), current: None }
    }

    /// What holds of every SMA reachable from `init` by `step`.
    pub open spec fn inv(self) -> bool {
        &&& self.window.inv()
        &&& self.current == mean_of(self.window)
    }

    /// The SMA after `bar`: the window takes the bar, and the mean of the
    /// window is exposed once it is full.
    pub open spec fn step(self, bar: Bar) -> SmaView {
        let window = self.window.add(bar);
        SmaView { window, current: mean_of(window) }
    }

    /// `step` keeps the invariant.
    pub proof fn lemma_step_keeps_inv(self, bar: Bar)
        requires
            self.inv(),
            bar.in_range(),
            follows(self.window.last_open_time, bar.open_time),
        ensures
            self.step(bar).inv(),
    {
        self.window.lemma_add_keeps_inv(bar);
    }
}

impl BarMachine for SmaView {
    open spec fn stable(self) -> bool {
        self.inv()
    }

    open spec fn marker(self) -> Option<Timestamp> {
        self.window.last_open_time
    }

    open spec fn next(self, bar: Bar) -> Self {
        self.step(bar)
    }

    open spec fn warm_up(self) -> nat {
        self.window.size
    }

    open spec fn progress(self) -> nat {
        self.window.items.len()
    }

    open spec fn exposes(self) -> bool {
        self.current is Some
    }

    proof fn lemma_stable(self) {
    }

    proof fn lemma_next(self, bar: Bar) {
        self.lemma_step_keeps_inv(bar);
    }

    proof fn lemma_repaint_replaces(self, earlier: Bar, later: Bar) {
        self.window.lemma_repaint_replaces(earlier, later);
    }
}

/// Convergence timing: an SMA of window `length` exposes no value until
/// `length` bars were opened, and one from then on.
pub proof fn lemma_sma_converges_at_length(length: nat, source: PriceSource, bars: Seq<Bar>)
    requires
        0 < length <= MAX_LENGTH,
        feed_ok(None, bars),
    ensures
        run(SmaView::init(length, source), bars).current is Some <==> bars_opened(None, bars)
            >= length,
{
    lemma_exposes_after_warm_up(SmaView::init(length, source), bars);
}

/// Simple Moving Average (SMA).
///
/// Computes the unweighted mean of the last *n* values, where *n* is the
/// configured window length. Returns `None` until the window is full.
///
/// Uses a running sum for O(1) updates per bar. Supports live repainting:
/// feeding a bar with the same `open_time` replaces the current value
/// without advancing the window.
#[derive(Debug)]
pub struct Sma {
    config: SmaConfig,
    window: PriceWindow,
    current: Option<Price>,
}

impl View for Sma {
    type V = SmaView;

    closed spec fn view(&self) -> SmaView {
        SmaView { window: self.window@, current: self.current }
    }
}

impl Sma {
    /// The configuration that the indicator was made from.
    pub closed spec fn spec_config(&self) -> SmaConfig {
        self.config
    }

    /// The representation invariant.
    pub closed spec fn wf(&self) -> bool {
        &&& self.window.wf()
        &&& self@.inv()
        &&& self@.window.size == self.config.spec_length()
        &&& self@.window.source == self.config.spec_source()
        &&& !self@.window.squares
    }

    /// A well-formed SMA satisfies the model's invariant and agrees with
    /// its configuration.
    pub proof fn lemma_wf_inv(&self)
        requires
            self.wf(),
        ensures
            self@.inv(),
            self@.window.size == self.spec_config().spec_length(),
            self@.window.source == self.spec_config().spec_source(),
            !self@.window.squares,
    {
    }

    /// Creates a new indicator from the given config.
    pub fn new(config: SmaConfig) -> (sma: Self)
        ensures
            sma.wf(),
            sma.spec_config() == config,
            sma@ == SmaView::init(config.spec_length() as nat, config.spec_source()),
    {
        let window = PriceWindow::new(config.length(), *config.source());
        Self { config, window, current: None }
    }

    /// The marker of the current bar; `None` before the first tick.
    pub fn last_open_time(&self) -> (marker: Option<Timestamp>)
        ensures
            marker == self@.window.last_open_time,
    {
        self.window.last_open_time()
    }

    /// Whether `compute` takes `bar`: its prices are in range and its
    /// marker is not less than that of the current bar.
    pub fn accepts(&self, bar: &Bar) -> (ok: bool)
        ensures
            ok == (bar.in_range() && follows(self@.window.last_open_time, bar.open_time)),
    {
        bar.is_in_range() && may_follow(self.last_open_time(), bar.open_time)
    }

    /// Feeds a bar and returns the updated mean, or `None` while the
    /// window is filling.
    pub fn compute(&mut self, bar: &Bar) -> (output: Option<Price>)
        requires
            old(self).wf(),
            bar.in_range(),
            follows(old(self)@.window.last_open_time, bar.open_time),
        ensures
            final(self).wf(),
            final(self).spec_config() == old(self).spec_config(),
            final(self)@ == old(self)@.step(*bar),
            output == final(self)@.current,
    {
        proof {
            old(self)@.lemma_step_keeps_inv(*bar);
            lemma_mean_of_bounded(old(self)@.window.add(*bar));
        }
        self.window.add(bar);
        let length: usize = self.config.length();
        self.current = match self.window.sum() {
            Some(sum) => Some(floor_div(sum, length as i128)),
            None => None,
        };
        self.current
    }

    /// The text `SMA(length, source)`.
    pub fn to_string(&self) -> (text: String)
        ensures
            text@ == labelled_text(
                "SMA"@,
                self.spec_config().spec_length() as nat,
                self.spec_config().spec_source(),
            ),
    {
        labelled("SMA", self.config.length(), *self.config.source())
    }

    /// Returns the last computed value without consuming input.
    pub fn value(&self) -> (output: Option<Price>)
        ensures
            output == self@.current,
    {
        self.current
    }
}

impl Clone for Sma {
    /// A copy in the same state that shares nothing with `self`.
    fn clone(&self) -> (copy: Self)
        ensures
            copy@ == self@,
            copy.spec_config() == self.spec_config(),
            self.wf() ==> copy.wf(),
    {
        Self { config: self.config, window: self.window.clone(), current: self.current }
    }
}

impl Indicator for Sma {
    type Config = SmaConfig;

    type Output = Price;

    open spec fn valid(&self) -> bool {
        self.wf()
    }

    open spec fn marker(&self) -> Option<Timestamp> {
        self@.window.last_open_time
    }

    open spec fn exposed(&self) -> Option<Price> {
        self@.current
    }

    fn new(config: SmaConfig) -> (sma: Self)
        ensures
            sma@ == SmaView::init(config.spec_length() as nat, config.spec_source()),
    {
        Sma::new(config)
    }

    fn compute(&mut self, bar: &Bar) -> (output: Option<Price>)
        ensures
            final(self)@ == old(self)@.step(*bar),
    {
        Sma::compute(self, bar)
    }

    fn value(&self) -> (output: Option<Price>) {
        Sma::value(self)
    }
}

} // verus!
