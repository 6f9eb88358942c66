use vstd::prelude::*;
use crate::feed::{
    bars_opened, feed_ok, lemma_exposes_after_warm_up, lemma_feed_ok_prefix, lemma_run, run,
    BarMachine,
};
use crate::fixed::{floor_div, lemma_mean_bounded};
use crate::indicator::{Indicator, IndicatorConfig, IndicatorConfigBuilder};
use crate::length::{Length, MAX_LENGTH};
use crate::ohlcv::{
    advances, follows, is_advance, may_follow, Bar, Price, Timestamp, VALUE_MAX,
};
use crate::price_source::{close_in_range, PriceSource};
use crate::sma::{lemma_mean_of_bounded, Sma, SmaConfig, SmaView};
use crate::text::{labelled, labelled_text};

verus! {

/// Number of bars after which an EMA of window `length` exposes its value:
/// `length` itself, or `3 * (length + 1)` when convergence is enforced.
pub open spec fn bars_to_converge(length: usize, enforce: bool) -> int {
    if enforce {
        3 * (length + 1)
    } else {
        length as int
    }
}

/// Configuration for the Exponential Moving Average ([`Ema`]) indicator.
///
/// # Convergence
///
/// EMA has infinite memory: the initial seed value (SMA of the first
/// `length` bars) influences all subsequent values. With
/// `enforce_convergence` enabled, [`Ema::compute`] returns `None` until the
/// seed's contribution decays below 1%.
///
/// For EMA(20), that's 63 bars (`3 × (length + 1)`). Without enforcement,
/// values are returned as soon as the SMA seed is ready (after `length`
/// bars).
#[derive(PartialEq, Eq, Hash, Clone, Copy, Debug)]
pub struct EmaConfig {
    length: usize,
    source: PriceSource,
    convergence: bool,
    bars_to_converge: usize,
}

impl EmaConfig {
    #[verifier::type_invariant]
    spec fn consistent(self) -> bool {
        &&& 0 < self.length <= MAX_LENGTH
        &&& self.bars_to_converge == bars_to_converge(self.length, self.convergence)
    }

    /// The configured window length.
    pub closed spec fn spec_length(self) -> usize {
        self.length
    }

    /// The configured price source.
    pub closed spec fn spec_source(self) -> PriceSource {
        self.source
    }

    /// Whether convergence is enforced.
    pub closed spec fn spec_enforce_convergence(self) -> bool {
        self.convergence
    }

    /// Returns a new builder with default values.
    pub fn builder() -> (builder: EmaConfigBuilder)
        ensures
            builder.spec_length() is None,
            builder.spec_source() == PriceSource::Close,
            !builder.spec_enforce_convergence(),
    {
        EmaConfigBuilder::new()
    }

    /// Window length (number of bars).
    pub fn length(&self) -> (n: usize)
        ensures
            n == self.spec_length(),
            0 < n <= MAX_LENGTH,
    {
        proof {
            use_type_invariant(self);
        }
        self.length
    }

    /// Price source to extract from each bar.
    pub fn source(&self) -> (source: &PriceSource)
        ensures
            *source == self.spec_source(),
    {
        &self.source
    }

    /// When `true`, [`Ema::compute`] returns `None` until
    /// `required_bars_to_converge` bars have been processed.
    /// Default: `false`.
    pub fn enforce_convergence(&self) -> (enforce: bool)
        ensures
            enforce == self.spec_enforce_convergence(),
    {
        self.convergence
    }

    /// Number of bars needed before the EMA output is fully converged.
    ///
    /// When convergence is not enforced, this equals the window length.
    /// When enforced, this is `3 × (length + 1)`: the number of bars until
    /// the SMA seed's influence decays below 1%.
    pub fn required_bars_to_converge(&self) -> (bars: usize)
        ensures
            bars == bars_to_converge(self.spec_length(), self.spec_enforce_convergence()),
    {
        proof {
            use_type_invariant(self);
        }
        self.bars_to_converge
    }

    /// The text `EmaConfig(length, source)`.
    pub fn to_string(&self) -> (text: String)
        ensures
            text@ == labelled_text("EmaConfig"@, self.spec_length() as nat, self.spec_source()),
    {
        labelled("EmaConfig", self.length, self.source)
    }

    /// EMA on closing price.
    pub fn close(length: Length) -> (config: Self)
        ensures
            config.spec_length() == length@,
            config.spec_source() == PriceSource::Close,
            !config.spec_enforce_convergence(),
    {
        Self::builder().length(length).build()
    }

    /// EMA on median price: `(high + low) / 2`.
    pub fn hl2(length: Length) -> (config: Self)
        ensures
            config.spec_length() == length@,
            config.spec_source() == PriceSource::HL2,
            !config.spec_enforce_convergence(),
    {
        Self::builder().length(length).source(PriceSource::HL2).build()
    }

    /// EMA on average price: `(open + high + low + close) / 4`.
    pub fn ohlc4(length: Length) -> (config: Self)
        ensures
            config.spec_length() == length@,
            config.spec_source() == PriceSource::OHLC4,
            !config.spec_enforce_convergence(),
    {
        Self::builder().length(length).source(PriceSource::OHLC4).build()
    }
}

impl IndicatorConfig for EmaConfig {
    type Builder = EmaConfigBuilder;

    fn builder() -> (builder: EmaConfigBuilder)
        ensures
            builder.spec_length() is None,
            builder.spec_source() == PriceSource::Close,
            !builder.spec_enforce_convergence(),
    {
        EmaConfigBuilder::new()
    }

    fn length(&self) -> (n: usize)
        ensures
            n == self.spec_length(),
    {
        self.length
    }

    fn source(&self) -> (source: &PriceSource)
        ensures
            *source == self.spec_source(),
    {
        &self.source
    }
}

/// Builder for [`EmaConfig`].
///
/// Defaults: source = [`PriceSource::Close`], convergence enforcement =
/// `false`. Length must be set before calling `build`.
pub struct EmaConfigBuilder {
    length: Option<usize>,
    source: PriceSource,
    convergence: bool,
}

impl EmaConfigBuilder {
    #[verifier::type_invariant]
    spec fn length_in_range(self) -> bool {
        self.length matches Some(n) ==> 0 < n <= MAX_LENGTH
    }

    /// The length set so far, if any.
    pub closed spec fn spec_length(self) -> Option<usize> {
        self.length
    }

    /// The source set so far.
    pub closed spec fn spec_source(self) -> PriceSource {
        self.source
    }

    /// The convergence flag set so far.
    pub closed spec fn spec_enforce_convergence(self) -> bool {
        self.convergence
    }

    fn new() -> (builder: Self)
        ensures
            builder.spec_length() is None,
            builder.spec_source() == PriceSource::Close,
            !builder.spec_enforce_convergence(),
    {
        Self { length: None, source: PriceSource::Close, convergence: false }
    }

    /// Sets the indicator window length.
    pub fn length(self, length: Length) -> (builder: Self)
        ensures
            builder.spec_length() == Some(length@),
            builder.spec_source() == self.spec_source(),
            builder.spec_enforce_convergence() == self.spec_enforce_convergence(),
    {
        Self { length: Some(length.get()), source: self.source, convergence: self.convergence }
    }

    /// Enables or disables convergence enforcement.
    pub fn enforce_convergence(self, enforce: bool) -> (builder: Self)
        ensures
            builder.spec_length() == self.spec_length(),
            builder.spec_source() == self.spec_source(),
            builder.spec_enforce_convergence() == enforce,
    {
        proof {
            use_type_invariant(&self);
        }
        Self { length: self.length, source: self.source, convergence: enforce }
    }

    /// Sets the price source.
    pub fn source(self, source: PriceSource) -> (builder: Self)
        ensures
            builder.spec_length() == self.spec_length(),
            builder.spec_source() == source,
            builder.spec_enforce_convergence() == self.spec_enforce_convergence(),
    {
        proof {
            use_type_invariant(&self);
        }
        Self { length: self.length, source, convergence: self.convergence }
    }

    /// Builds the config. The length must have been set.
    pub fn build(self) -> (config: EmaConfig)
        requires
            self.spec_length() is Some,
        ensures
            Some(config.spec_length()) == self.spec_length(),
            config.spec_source() == self.spec_source(),
            config.spec_enforce_convergence() == self.spec_enforce_convergence(),
    {
        proof {
            use_type_invariant(&self);
        }
        let length: usize = match self.length {
            Some(length) => length,
            None => 1,
        };
        let bars_to_converge: usize = if self.convergence {
            3 * (length + 1)
        } else {
            length
        };
        EmaConfig {
            length,
            source: self.source,
            convergence: self.convergence,
            bars_to_converge,
        }
    }
}

impl IndicatorConfigBuilder<EmaConfig> for EmaConfigBuilder {
    open spec fn has_length(&self) -> bool {
        self.spec_length() is Some
    }

    fn length(self, length: Length) -> (builder: Self)
        ensures
            builder.spec_length() == Some(length@),
            builder.spec_source() == self.spec_source(),
            builder.spec_enforce_convergence() == self.spec_enforce_convergence(),
    {
        EmaConfigBuilder::length(self, length)
    }

    fn source(self, source: PriceSource) -> (builder: Self)
        ensures
            builder.spec_length() == self.spec_length(),
            builder.spec_source() == source,
            builder.spec_enforce_convergence() == self.spec_enforce_convergence(),
    {
        EmaConfigBuilder::source(self, source)
    }

    fn build(self) -> (config: EmaConfig)
        ensures
            Some(config.spec_length()) == self.spec_length(),
            config.spec_source() == self.spec_source(),
            config.spec_enforce_convergence() == self.spec_enforce_convergence(),
    {
        EmaConfigBuilder::build(self)
    }
}

/// One smoothing step: the mean of `price` with weight `2` and `previous`
/// with weight `length - 1`, rounded down. This is
/// `alpha * price + (1 - alpha) * previous` for `alpha = 2 / (length + 1)`.
pub open spec fn ema_next(previous: int, price: int, length: int) -> int {
    (2 * price + (length - 1) * previous) / (length + 1)
}

/// A smoothing step stays within the bound of its two inputs.
pub proof fn lemma_ema_next_bounded(previous: int, price: int, length: int)
    requires
        0 < length,
        -VALUE_MAX <= previous <= VALUE_MAX,
        -VALUE_MAX <= price <= VALUE_MAX,
    ensures
        -VALUE_MAX <= ema_next(previous, price, length) <= VALUE_MAX,
{
    assert(-(length + 1) * VALUE_MAX <= 2 * price + (length - 1) * previous <= (length + 1)
        * VALUE_MAX) by (nonlinear_arith)
        requires
            0 < length,
            -VALUE_MAX <= previous <= VALUE_MAX,
            -VALUE_MAX <= price <= VALUE_MAX,
    ;
    lemma_mean_bounded(2 * price + (length - 1) * previous, length + 1, VALUE_MAX as int);
}

/// The state of an [`Ema`] as plain mathematics.
pub struct EmaView {
    /// The window length.
    pub length: nat,
    /// The extraction strategy.
    pub source: PriceSource,
    /// Whether output is withheld until the seed has decayed.
    pub enforce: bool,
    /// The embedded SMA: present exactly while seeding.
    pub sma: Option<SmaView>,
    /// The output before the current bar was first applied.
    pub previous: Price,
    /// The output as of the latest tick, exposed or not.
    pub current: Option<Price>,
    /// The marker of the current bar.
    pub last_open_time: Option<Timestamp>,
    /// The advances seen, counted until convergence.
    pub seen_bars: nat,
    /// Whether the output is exposed.
    pub converged: bool,
    /// The close of the current bar, as of its latest tick.
    pub cur_close: Option<Price>,
    /// The close of the bar before the current one, kept once smoothing.
    pub prev_close: Option<Price>,
}

impl EmaView {
    /// An EMA that has seen no bar.
    pub open spec fn init(length: nat, source: PriceSource, enforce: bool) -> EmaView {
        EmaView {
            length,
            source,
            enforce,
            sma: Some(SmaView::init(length, source)),
            previous: 0,
            current: None,
            last_open_time: None,
            seen_bars: 0,
            converged: false,
            cur_close: None,
            prev_close: None,
        }
    }

    /// The number of advances after which the output is exposed.
    pub open spec fn required_bars(self) -> int {
        bars_to_converge(self.length as usize, self.enforce)
    }

    /// What holds of every EMA reachable from `init` by `step`.
    pub open spec fn inv(self) -> bool {
        &&& 0 < self.length <= MAX_LENGTH
        &&& self.seen_bars <= self.required_bars()
        &&& (self.converged <==> self.seen_bars == self.required_bars())
        &&& close_in_range(self.cur_close)
        &&& close_in_range(self.prev_close)
        &&& -VALUE_MAX <= self.previous <= VALUE_MAX
        &&& (self.current matches Some(c) ==> -VALUE_MAX <= c <= VALUE_MAX)
        &&& (self.last_open_time is None <==> self.seen_bars == 0)
        &&& (self.last_open_time is None <==> self.cur_close is None)
        &&& match self.sma {
            Some(sma) => {
                &&& sma.inv()
                &&& sma.window.size == self.length
                &&& sma.window.source == self.source
                &&& !sma.window.squares
                &&& sma.window.last_open_time == self.last_open_time
                &&& sma.window.cur_close == self.cur_close
                &&& sma.window.items.len() == self.seen_bars
                &&& sma.current == self.current
                &&& self.prev_close is None
            },
            None => {
                &&& self.current is Some
                &&& self.seen_bars >= self.length
            },
        }
    }

    /// Whether `bar` ends the seeding: it opens a new bar after the
    /// embedded SMA has seen `length` bars.
    pub open spec fn leaves_seeding(self, bar: Bar) -> bool {
        &&& self.sma is Some
        &&& is_advance(self.last_open_time, bar.open_time)
        &&& self.seen_bars >= self.length
    }

    /// The EMA after `bar`.
    pub open spec fn step(self, bar: Bar) -> EmaView {
        let advance = is_advance(self.last_open_time, bar.open_time);
        let seeding = self.sma is Some && !self.leaves_seeding(bar);
        let sma = if seeding {
            Some(self.sma->0.step(bar))
        } else {
            None
        };
        let shift = !seeding && advance;
        let prev_close = if shift {
            self.cur_close
        } else {
            self.prev_close
        };
        let previous = if shift {
            self.current->0
        } else {
            self.previous
        };
        let current = if seeding {
            self.sma->0.step(bar).current
        } else {
            Some(
                ema_next(
                    previous as int,
                    self.source.price_of(bar, prev_close),
                    self.length as int,
                ) as Price,
            )
        };
        let count = advance && !self.converged;
        let seen_bars = if count {
            self.seen_bars + 1
        } else {
            self.seen_bars
        };
        EmaView {
            length: self.length,
            source: self.source,
            enforce: self.enforce,
            sma,
            previous,
            current,
            last_open_time: if advance {
                Some(bar.open_time)
            } else {
                self.last_open_time
            },
            seen_bars,
            converged: if count {
                seen_bars >= self.required_bars()
            } else {
                self.converged
            },
            cur_close: Some(bar.close),
            prev_close,
        }
    }

    /// The value exposed: the current output once converged.
    pub open spec fn exposed(self) -> Option<Price> {
        if self.converged {
            self.current
        } else {
            None
        }
    }

    /// The seed never returns: once the embedded SMA is discarded, no tick
    /// brings it back.
    pub proof fn lemma_seed_never_returns(self, bar: Bar)
        requires
            self.sma is None,
        ensures
            self.step(bar).sma is None,
    {
    }

    /// `step` keeps the invariant.
    pub proof fn lemma_step_keeps_inv(self, bar: Bar)
        requires
            self.inv(),
            bar.in_range(),
            follows(self.last_open_time, bar.open_time),
        ensures
            self.step(bar).inv(),
    {
        let next = self.step(bar);
        let advance = is_advance(self.last_open_time, bar.open_time);
        let seeding = self.sma is Some && !self.leaves_seeding(bar);
        if seeding {
            let sma = self.sma->0;
            lemma_mean_of_bounded(sma.window.add(bar));
        } else {
            self.source.lemma_price_of_bounded(bar, next.prev_close);
            lemma_ema_next_bounded(
                next.previous as int,
                self.source.price_of(bar, next.prev_close),
                self.length as int,
            );
        }
    }
}

impl BarMachine for EmaView {
    open spec fn stable(self) -> bool {
        self.inv()
    }

    open spec fn marker(self) -> Option<Timestamp> {
        self.last_open_time
    }

    open spec fn next(self, bar: Bar) -> Self {
        self.step(bar)
    }

    open spec fn warm_up(self) -> nat {
        self.required_bars() as nat
    }

    open spec fn progress(self) -> nat {
        self.seen_bars
    }

    open spec fn exposes(self) -> bool {
        self.exposed() is Some
    }

    proof fn lemma_stable(self) {
    }

    proof fn lemma_next(self, bar: Bar) {
        self.lemma_step_keeps_inv(bar);
    }

    proof fn lemma_repaint_replaces(self, earlier: Bar, later: Bar) {
        self.lemma_step_keeps_inv(earlier);
        if self.sma is Some {
            self.sma->0.lemma_repaint_replaces(earlier, later);
        }
    }
}

/// Convergence timing: an EMA of window `length` exposes its first value
/// once `length` bars were opened, or, with convergence enforced, once
/// `3 * (length + 1)` bars were opened.
pub proof fn lemma_ema_converges_at_required_bars(
    length: nat,
    source: PriceSource,
    enforce: bool,
    bars: Seq<Bar>,
)
    requires
        0 < length <= MAX_LENGTH,
        feed_ok(None, bars),
    ensures
        run(EmaView::init(length, source, enforce), bars).exposed() is Some <==> bars_opened(
            None,
            bars,
        ) >= (if enforce {
            3 * (length + 1)
        } else {
            length
        }),
{
    lemma_exposes_after_warm_up(EmaView::init(length, source, enforce), bars);
}

/// Whether two EMAs differ in nothing but the convergence gate: the flag,
/// the count of bars toward it, and whether it has opened.
pub open spec fn same_but_gate(free: EmaView, enforced: EmaView) -> bool {
    &&& free.length == enforced.length
    &&& free.source == enforced.source
    &&& free.sma == enforced.sma
    &&& free.previous == enforced.previous
    &&& free.current == enforced.current
    &&& free.last_open_time == enforced.last_open_time
    &&& free.cur_close == enforced.cur_close
    &&& free.prev_close == enforced.prev_close
    &&& (free.seen_bars >= free.length <==> enforced.seen_bars >= enforced.length)
}

/// Enforcement only gates: fed the same ticks, an EMA with convergence
/// enforced and one without compute the same values, so that once both
/// expose a value, it is the same value.
pub proof fn lemma_enforcement_only_gates(length: nat, source: PriceSource, bars: Seq<Bar>)
    requires
        0 < length <= MAX_LENGTH,
        feed_ok(None, bars),
    ensures
        same_but_gate(
            run(EmaView::init(length, source, false), bars),
            run(EmaView::init(length, source, true), bars),
        ),
        run(EmaView::init(length, source, true), bars).exposed() is Some ==> run(
            EmaView::init(length, source, true),
            bars,
        ).exposed() == run(EmaView::init(length, source, false), bars).exposed(),
    decreases bars.len(),
{
    let free = EmaView::init(length, source, false);
    let enforced = EmaView::init(length, source, true);
    if bars.len() > 0 {
        let before = bars.drop_last();
        lemma_feed_ok_prefix(None, bars);
        lemma_enforcement_only_gates(length, source, before);
        lemma_run(free, before);
        lemma_run(enforced, before);
    }
}

/// Exponential Moving Average (EMA).
///
/// A weighted moving average that gives more weight to recent prices. Uses
/// the standard smoothing factor `α = 2 / (length + 1)`. Each value is
/// computed as:
///
/// ```text
/// EMA = α × price + (1 − α) × prev_EMA
/// ```
///
/// The first `length` bars are collected to compute an SMA seed value.
/// After seeding, the SMA state is dropped and the EMA runs with O(1)
/// constant memory per tick.
///
/// Supports live repainting: feeding a bar with the same `open_time`
/// recomputes from the previous EMA without advancing state.
#[derive(Debug)]
pub struct Ema {
    config: EmaConfig,
    sma: Option<Sma>,
    previous: Price,
    current: Option<Price>,
    last_open_time: Option<Timestamp>,
    seen_bars: usize,
    converged: bool,
    cur_close: Option<Price>,
    prev_close: Option<Price>,
}

impl View for Ema {
    type V = EmaView;

    closed spec fn view(&self) -> EmaView {
        EmaView {
            length: self.config.spec_length() as nat,
            source: self.config.spec_source(),
            enforce: self.config.spec_enforce_convergence(),
            sma: match self.sma {
                Some(sma) => Some(sma@),
                None => None,
            },
            previous: self.previous,
            current: self.current,
            last_open_time: self.last_open_time,
            seen_bars: self.seen_bars as nat,
            converged: self.converged,
            cur_close: self.cur_close,
            prev_close: self.prev_close,
        }
    }
}

impl Ema {
    /// The configuration that the indicator was made from.
    pub closed spec fn spec_config(&self) -> EmaConfig {
        self.config
    }

    /// The representation invariant.
    pub closed spec fn wf(&self) -> bool {
        &&& self@.inv()
        &&& self.sma matches Some(sma) ==> sma.wf()
    }

    /// A well-formed EMA satisfies the model's invariant and agrees with
    /// its configuration.
    pub proof fn lemma_wf_inv(&self)
        requires
            self.wf(),
        ensures
            self@.inv(),
            self@.length == self.spec_config().spec_length(),
            self@.source == self.spec_config().spec_source(),
            self@.enforce == self.spec_config().spec_enforce_convergence(),
    {
    }

    /// Creates a new indicator from the given config.
    pub fn new(config: EmaConfig) -> (ema: Self)
        ensures
            ema.wf(),
            ema.spec_config() == config,
            ema@ == EmaView::init(
                config.spec_length() as nat,
                config.spec_source(),
                config.spec_enforce_convergence(),
            ),
    {
        let length: usize = config.length();
        let seed = Sma::new(
            SmaConfig::builder().length(Length::from_checked(length)).source(
                *config.source(),
            ).build(),
        );
        proof {
            seed.lemma_wf_inv();
        }
        Self {
            config,
            current: None,
            previous: 0,
            last_open_time: None,
            seen_bars: 0,
            converged: false,
            cur_close: None,
            prev_close: None,
            sma: Some(seed),
        }
    }

    /// The marker of the current bar; `None` before the first tick.
    pub fn last_open_time(&self) -> (marker: Option<Timestamp>)
        ensures
            marker == self@.last_open_time,
    {
        self.last_open_time
    }

    /// Whether `compute` takes `bar`: its prices are in range and its
    /// marker is not less than that of the current bar.
    pub fn accepts(&self, bar: &Bar) -> (ok: bool)
        ensures
            ok == (bar.in_range() && follows(self@.last_open_time, bar.open_time)),
    {
        bar.is_in_range() && may_follow(self.last_open_time(), bar.open_time)
    }

    /// Feeds a bar and returns the updated average, or `None` while
    /// seeding or, with convergence enforced, while the seed decays.
    pub fn compute(&mut self, bar: &Bar) -> (output: Option<Price>)
        requires
            old(self).wf(),
            bar.in_range(),
            follows(old(self)@.last_open_time, bar.open_time),
        ensures
            final(self).wf(),
            final(self).spec_config() == old(self).spec_config(),
            final(self)@ == old(self)@.step(*bar),
            output == final(self)@.exposed(),
    {
        proof {
            old(self)@.lemma_step_keeps_inv(*bar);
        }
        let is_next_bar: bool = advances(self.last_open_time, bar.open_time);
        let length: usize = self.config.length();

        if self.sma.is_some() && is_next_bar && self.seen_bars >= length {
            self.sma = None;
        }
        let mut seed: Option<Sma> = None;
        std::mem::swap(&mut seed, &mut self.sma);
        match seed {
            Some(mut sma) => {
                self.current = sma.compute(bar);
                self.sma = Some(sma);
            },
            None => {
                if is_next_bar {
                    self.prev_close = self.cur_close;
                    self.previous = match self.current {
                        Some(current) => current,
                        None => 0,
                    };
                }
                let price: Price = self.config.source().extract(bar, self.prev_close);
                proof {
                    lemma_ema_next_bounded(self.previous as int, price as int, length as int);
                    assert(-(length - 1) * VALUE_MAX <= (length - 1) * self.previous <= (length
                        - 1) * VALUE_MAX) by (nonlinear_arith)
                        requires
                            0 < length,
                            -VALUE_MAX <= self.previous <= VALUE_MAX,
                    ;
                    assert((length - 1) * VALUE_MAX <= MAX_LENGTH * VALUE_MAX) by (nonlinear_arith)
                        requires
                            0 < length <= MAX_LENGTH,
                    ;
                }
                let weighted: i128 = 2 * price + (length as i128 - 1) * self.previous;
                self.current = Some(floor_div(weighted, length as i128 + 1));
            },
        }

        if is_next_bar {
            self.last_open_time = Some(bar.open_time);

            if !self.converged {
                self.seen_bars += 1;
                if self.seen_bars >= self.config.required_bars_to_converge() {
                    self.converged = true;
                }
            }
        }
        self.cur_close = Some(bar.close);

        self.value()
    }

    /// The text `EMA(length, source)`.
    pub fn to_string(&self) -> (text: String)
        ensures
            text@ == labelled_text(
                "EMA"@,
                self.spec_config().spec_length() as nat,
                self.spec_config().spec_source(),
            ),
    {
        labelled("EMA", self.config.length(), *self.config.source())
    }

    /// Returns the last computed value without consuming input: `None`
    /// until converged.
    pub fn value(&self) -> (output: Option<Price>)
        ensures
            output == self@.exposed(),
    {
        if self.converged {
            self.current
        } else {
            None
        }
    }
}

impl Clone for Ema {
    /// A copy in the same state that shares nothing with `self`.
    fn clone(&self) -> (copy: Self)
        ensures
            copy@ == self@,
            copy.spec_config() == self.spec_config(),
            self.wf() ==> copy.wf(),
    {
        Self {
            config: self.config,
            sma: match &self.sma {
                Some(sma) => Some(sma.clone()),
                None => None,
            },
            previous: self.previous,
            current: self.current,
            last_open_time: self.last_open_time,
            seen_bars: self.seen_bars,
            converged: self.converged,
            cur_close: self.cur_close,
            prev_close: self.prev_close,
        }
    }
}

impl Indicator for Ema {
    type Config = EmaConfig;

    type Output = Price;

    open spec fn valid(&self) -> bool {
        self.wf()
    }

    open spec fn marker(&self) -> Option<Timestamp> {
        self@.last_open_time
    }

    open spec fn exposed(&self) -> Option<Price> {
        self@.exposed()
    }

    fn new(config: EmaConfig) -> (ema: Self)
        ensures
            ema@ == EmaView::init(
                config.spec_length() as nat,
                config.spec_source(),
                config.spec_enforce_convergence(),
            ),
    {
        Ema::new(config)
    }

    fn compute(&mut self, bar: &Bar) -> (output: Option<Price>)
        ensures
            final(self)@ == old(self)@.step(*bar),
    {
        Ema::compute(self, bar)
    }

    fn value(&self) -> (output: Option<Price>) {
        Ema::value(self)
    }
}

} // verus!
