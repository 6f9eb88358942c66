use vstd::prelude::*;
use crate::feed::{
    bars_opened, feed_ok, lemma_exposes_after_warm_up, lemma_feed_ok_prefix, lemma_run,
    marker_after, run, BarMachine,
};
use crate::fixed::{div_fixed, floor_div, lemma_mean_bounded, ratio};
use crate::indicator::{Indicator, IndicatorConfig, IndicatorConfigBuilder};
use crate::length::{Length, MAX_LENGTH};
use crate::ohlcv::{
    advances, follows, is_advance, may_follow, Bar, Price, Timestamp, ONE, VALUE_MAX,
};
use crate::price_source::{close_in_range, greater, PriceSource};
use crate::text::{labelled, labelled_text};

verus! {

/// Configuration for the Relative Strength Index ([`Rsi`]) indicator.
#[derive(PartialEq, Eq, Hash, Clone, Copy, Debug)]
pub struct RsiConfig {
    length: usize,
    source: PriceSource,
}

impl RsiConfig {
    #[verifier::type_invariant]
    spec fn length_in_range(self) -> bool {
        0 < self.length <= MAX_LENGTH
    }

    /// The configured window length.
    pub closed spec fn spec_length(self) -> usize {
        self.length
    }

    /// The configured price source.
    pub closed spec fn spec_source(self) -> PriceSource {
        self.source
    }

    /// Returns a new builder with default values.
    pub fn builder() -> (builder: RsiConfigBuilder)
        ensures
            builder.spec_length() is None,
            builder.spec_source() == PriceSource::Close,
    {
        RsiConfigBuilder::new()
    }

    /// Window length (number of bars).
    pub fn length(&self) -> (n: usize)
        ensures
            n == self.spec_length(),
            0 < n <= MAX_LENGTH,
    {
        proof {
            use_type_invariant(self);
        }
        self.length
    }

    /// Price source to extract from each bar.
    pub fn source(&self) -> (source: &PriceSource)
        ensures
            *source == self.spec_source(),
    {
        &self.source
    }

    /// The text `RsiConfig(length, source)`.
    pub fn to_string(&self) -> (text: String)
        ensures
            text@ == labelled_text("RsiConfig"@, self.spec_length() as nat, self.spec_source()),
    {
        labelled("RsiConfig", self.length, self.source)
    }

    /// RSI on closing price.
    pub fn close(length: Length) -> (config: Self)
        ensures
            config.spec_length() == length@,
            config.spec_source() == PriceSource::Close,
    {
        Self::builder().length(length).build()
    }
}

impl IndicatorConfig for RsiConfig {
    type Builder = RsiConfigBuilder;

    fn builder() -> (builder: RsiConfigBuilder)
        ensures
            builder.spec_length() is None,
            builder.spec_source() == PriceSource::Close,
    {
        RsiConfigBuilder::new()
    }

    fn length(&self) -> (n: usize)
        ensures
            n == self.spec_length(),
    {
        self.length
    }

    fn source(&self) -> (source: &PriceSource)
        ensures
            *source == self.spec_source(),
    {
        &self.source
    }
}

/// Builder for [`RsiConfig`].
///
/// Defaults: source = [`PriceSource::Close`].
/// Length must be set before calling `build`.
pub struct RsiConfigBuilder {
    length: Option<usize>,
    source: PriceSource,
}

impl RsiConfigBuilder {
    #[verifier::type_invariant]
    spec fn length_in_range(self) -> bool {
        self.length matches Some(n) ==> 0 < n <= MAX_LENGTH
    }

    /// The length set so far, if any.
    pub closed spec fn spec_length(self) -> Option<usize> {
        self.length
    }

    /// The source set so far.
    pub closed spec fn spec_source(self) -> PriceSource {
        self.source
    }

    fn new() -> (builder: Self)
        ensures
            builder.spec_length() is None,
            builder.spec_source() == PriceSource::Close,
    {
        Self { length: None, source: PriceSource::Close }
    }

    /// Sets the indicator window length.
    pub fn length(self, length: Length) -> (builder: Self)
        ensures
            builder.spec_length() == Some(length@),
            builder.spec_source() == self.spec_source(),
    {
        Self { length: Some(length.get()), source: self.source }
    }

    /// Sets the price source.
    pub fn source(self, source: PriceSource) -> (builder: Self)
        ensures
            builder.spec_length() == self.spec_length(),
            builder.spec_source() == source,
    {
        proof {
            use_type_invariant(&self);
        }
        Self { length: self.length, source }
    }

    /// Builds the config. The length must have been set.
    pub fn build(self) -> (config: RsiConfig)
        requires
            self.spec_length() is Some,
        ensures
            Some(config.spec_length()) == self.spec_length(),
            config.spec_source() == self.spec_source(),
    {
        proof {
            use_type_invariant(&self);
        }
        match self.length {
            Some(length) => RsiConfig { length, source: self.source },
            None => RsiConfig { length: 1, source: self.source },
        }
    }
}

impl IndicatorConfigBuilder<RsiConfig> for RsiConfigBuilder {
    open spec fn has_length(&self) -> bool {
        self.spec_length() is Some
    }

    fn length(self, length: Length) -> (builder: Self)
        ensures
            builder.spec_length() == Some(length@),
            builder.spec_source() == self.spec_source(),
    {
        RsiConfigBuilder::length(self, length)
    }

    fn source(self, source: PriceSource) -> (builder: Self)
        ensures
            builder.spec_length() == self.spec_length(),
            builder.spec_source() == source,
    {
        RsiConfigBuilder::source(self, source)
    }

    fn build(self) -> (config: RsiConfig)
        ensures
            Some(config.spec_length()) == self.spec_length(),
            config.spec_source() == self.spec_source(),
    {
        RsiConfigBuilder::build(self)
    }
}

/// Largest price change between two bars, and so the largest gain, loss
/// or average of them: `2^80`.
pub const CHANGE_MAX: Price = 0x1_0000_0000_0000_0000_0000;

/// The RSI of a flat price: the neutral value 50.
pub const NEUTRAL: Price = 0x32_0000_0000_0000;

/// The largest RSI: 100.
pub const RSI_MAX: Price = 0x64_0000_0000_0000;

/// The rise from `prev` to `price`, zero where the price fell.
pub open spec fn gain_of(prev: Price, price: Price) -> int {
    greater(price - prev, 0)
}

/// The fall from `prev` to `price`, zero where the price rose.
pub open spec fn loss_of(prev: Price, price: Price) -> int {
    greater(prev - price, 0)
}

/// Wilder's recurrence: the mean of `length - 1` times the previous
/// average and the new value, rounded down.
pub open spec fn wilder(prev_avg: int, value: int, length: int) -> int {
    (prev_avg * (length - 1) + value) / length
}

/// The RSI of an average gain and an average loss: `100 * g / (g + l)`
/// rounded down, and the neutral 50 where both are zero.
pub open spec fn rsi_of(avg_gain: int, avg_loss: int) -> int {
    if avg_gain + avg_loss == 0 {
        NEUTRAL as int
    } else {
        div_fixed(100 * avg_gain, avg_gain + avg_loss)
    }
}

/// The RSI lies between 0 and 100.
pub proof fn lemma_rsi_of_bounded(avg_gain: int, avg_loss: int)
    requires
        0 <= avg_gain,
        0 <= avg_loss,
    ensures
        0 <= rsi_of(avg_gain, avg_loss) <= RSI_MAX,
{
    let den = avg_gain + avg_loss;
    if den != 0 {
        assert(0 <= 100 * avg_gain * ONE <= (RSI_MAX as int) * den) by (nonlinear_arith)
            requires
                0 <= avg_gain <= den,
                ONE == 0x1_0000_0000_0000,
                RSI_MAX == 0x64_0000_0000_0000,
        ;
        vstd::arithmetic::div_mod::lemma_div_pos_is_pos(100 * avg_gain * ONE, den);
        vstd::arithmetic::div_mod::lemma_div_is_ordered(
            100 * avg_gain * ONE,
            (RSI_MAX as int) * den,
            den,
        );
        vstd::arithmetic::div_mod::lemma_fundamental_div_mod_converse(
            (RSI_MAX as int) * den,
            den,
            RSI_MAX as int,
            0,
        );
    }
}

/// Wilder's recurrence keeps an average within the bound of a change.
pub proof fn lemma_wilder_bounded(prev_avg: int, value: int, length: int)
    requires
        0 < length,
        0 <= prev_avg <= CHANGE_MAX,
        0 <= value <= CHANGE_MAX,
    ensures
        0 <= wilder(prev_avg, value, length) <= CHANGE_MAX,
        0 <= prev_avg * (length - 1) <= (length - 1) * CHANGE_MAX,
{
    assert(0 <= prev_avg * (length - 1) <= (length - 1) * CHANGE_MAX) by (nonlinear_arith)
        requires
            0 < length,
            0 <= prev_avg <= CHANGE_MAX,
    ;
    assert((length - 1) * CHANGE_MAX + CHANGE_MAX == length * CHANGE_MAX) by (nonlinear_arith);
    assert(-length * CHANGE_MAX <= 0) by (nonlinear_arith)
        requires
            0 < length,
    ;
    lemma_mean_bounded(prev_avg * (length - 1) + value, length, CHANGE_MAX as int);
    vstd::arithmetic::div_mod::lemma_div_pos_is_pos(prev_avg * (length - 1) + value, length);
}

/// The phase of the RSI state machine.
#[derive(PartialEq, Eq, Clone, Copy, Debug, Structural)]
pub enum RsiPhase {
    /// Collecting the first `length` price changes for the plain-mean seed.
    Seeding {
        /// Sum of the gains recorded.
        sum_gain: Price,
        /// Sum of the losses recorded.
        sum_loss: Price,
        /// The gain that the current bar last added to `sum_gain`.
        prev_gain: Price,
        /// The loss that the current bar last added to `sum_loss`.
        prev_loss: Price,
        /// The advances seen.
        seen_bars: usize,
    },
    /// Wilder smoothing.
    Active {
        /// The average gain before the current bar was first applied.
        prev_avg_gain: Price,
        /// The average loss before the current bar was first applied.
        prev_avg_loss: Price,
        /// The average gain as of the latest tick.
        avg_gain: Price,
        /// The average loss as of the latest tick.
        avg_loss: Price,
    },
}

impl RsiPhase {
    /// The running sums after a tick while seeding: an advance adds the
    /// change of the new bar, except on the very first bar; a repaint
    /// takes back what the current bar added and adds its new change,
    /// except on the first bar.
    pub open spec fn seed(self, advance: bool, gain: int, loss: int) -> RsiPhase
        recommends
            self is Seeding,
    {
        let sum_gain = self->sum_gain;
        let sum_loss = self->sum_loss;
        let prev_gain = self->prev_gain;
        let prev_loss = self->prev_loss;
        let seen_bars = self->seen_bars;
        if advance {
            if seen_bars > 0 {
                RsiPhase::Seeding {
                    sum_gain: (sum_gain + gain) as Price,
                    sum_loss: (sum_loss + loss) as Price,
                    prev_gain: gain as Price,
                    prev_loss: loss as Price,
                    seen_bars: (seen_bars + 1) as usize,
                }
            } else {
                RsiPhase::Seeding {
                    sum_gain,
                    sum_loss,
                    prev_gain,
                    prev_loss,
                    seen_bars: (seen_bars + 1) as usize,
                }
            }
        } else if seen_bars > 1 {
            RsiPhase::Seeding {
                sum_gain: (sum_gain - prev_gain + gain) as Price,
                sum_loss: (sum_loss - prev_loss + loss) as Price,
                prev_gain: gain as Price,
                prev_loss: loss as Price,
                seen_bars,
            }
        } else {
            self
        }
    }

    /// The first smoothed averages: the plain means of the seed become
    /// the previous averages, and Wilder's recurrence is applied once.
    pub open spec fn start(self, gain: int, loss: int, length: int) -> RsiPhase
        recommends
            self is Seeding,
    {
        let prev_avg_gain = (self->sum_gain as int) / length;
        let prev_avg_loss = (self->sum_loss as int) / length;
        RsiPhase::Active {
            prev_avg_gain: prev_avg_gain as Price,
            prev_avg_loss: prev_avg_loss as Price,
            avg_gain: wilder(prev_avg_gain, gain, length) as Price,
            avg_loss: wilder(prev_avg_loss, loss, length) as Price,
        }
    }

    /// The averages after a tick while active: an advance first shifts the
    /// current averages into the previous ones; every tick applies
    /// Wilder's recurrence to the previous averages.
    pub open spec fn smooth(self, advance: bool, gain: int, loss: int, length: int) -> RsiPhase
        recommends
            self is Active,
    {
        let prev_avg_gain = if advance {
            self->avg_gain
        } else {
            self->prev_avg_gain
        };
        let prev_avg_loss = if advance {
            self->avg_loss
        } else {
            self->prev_avg_loss
        };
        RsiPhase::Active {
            prev_avg_gain,
            prev_avg_loss,
            avg_gain: wilder(prev_avg_gain as int, gain, length) as Price,
            avg_loss: wilder(prev_avg_loss as int, loss, length) as Price,
        }
    }

    /// The phase after a tick with the given change.
    pub open spec fn next(self, advance: bool, gain: int, loss: int, length: int) -> RsiPhase {
        match self {
            RsiPhase::Seeding { seen_bars, .. } => {
                if seen_bars <= length || !advance {
                    self.seed(advance, gain, loss)
                } else {
                    self.start(gain, loss, length)
                }
            },
            RsiPhase::Active { .. } => self.smooth(advance, gain, loss, length),
        }
    }

    /// The RSI that a phase exposes: none until more than `length` bars
    /// were seen, then the RSI of the seed means, then that of the
    /// smoothed averages.
    pub open spec fn output(self, length: int) -> Option<Price> {
        match self {
            RsiPhase::Seeding { sum_gain, sum_loss, seen_bars, .. } => {
                if seen_bars > length {
                    Some(rsi_of((sum_gain as int) / length, (sum_loss as int) / length) as Price)
                } else {
                    None
                }
            },
            RsiPhase::Active { avg_gain, avg_loss, .. } => Some(
                rsi_of(avg_gain as int, avg_loss as int) as Price,
            ),
        }
    }

    /// The number of advances that a seeding phase has seen.
    pub open spec fn seen(self) -> int {
        match self {
            RsiPhase::Seeding { seen_bars, .. } => seen_bars as int,
            RsiPhase::Active { .. } => 0,
        }
    }

    /// What holds of every phase reachable by `next`: while seeding, the
    /// sums hold one change per bar after the first, the last of them
    /// cached; while active, the averages are bounded.
    pub open spec fn inv(self, length: int) -> bool {
        match self {
            RsiPhase::Seeding { sum_gain, sum_loss, prev_gain, prev_loss, seen_bars } => {
                &&& seen_bars <= length + 1
                &&& 0 <= prev_gain <= CHANGE_MAX
                &&& 0 <= prev_loss <= CHANGE_MAX
                &&& prev_gain <= sum_gain
                &&& prev_loss <= sum_loss
                &&& if seen_bars >= 2 {
                    &&& sum_gain - prev_gain <= (seen_bars - 2) * CHANGE_MAX
                    &&& sum_loss - prev_loss <= (seen_bars - 2) * CHANGE_MAX
                } else {
                    &&& sum_gain == 0
                    &&& sum_loss == 0
                }
            },
            RsiPhase::Active { prev_avg_gain, prev_avg_loss, avg_gain, avg_loss } => {
                &&& 0 <= prev_avg_gain <= CHANGE_MAX
                &&& 0 <= prev_avg_loss <= CHANGE_MAX
                &&& 0 <= avg_gain <= CHANGE_MAX
                &&& 0 <= avg_loss <= CHANGE_MAX
            },
        }
    }

    /// The sums of a seeding phase are bounded, and so are their means.
    pub proof fn lemma_seed_bounded(self, length: int)
        requires
            self is Seeding,
            self.inv(length),
            0 < length <= MAX_LENGTH,
        ensures
            0 <= self->sum_gain <= length * CHANGE_MAX,
            0 <= self->sum_loss <= length * CHANGE_MAX,
            length * CHANGE_MAX <= MAX_LENGTH * CHANGE_MAX,
            0 <= (self->sum_gain as int) / length <= CHANGE_MAX,
            0 <= (self->sum_loss as int) / length <= CHANGE_MAX,
    {
        let seen = self->seen_bars as int;
        assert((seen - 2) * CHANGE_MAX + CHANGE_MAX <= length * CHANGE_MAX) by (nonlinear_arith)
            requires
                seen <= length + 1,
        ;
        assert(0 <= length * CHANGE_MAX <= MAX_LENGTH * CHANGE_MAX) by (nonlinear_arith)
            requires
                0 < length <= MAX_LENGTH,
        ;
        lemma_mean_bounded(self->sum_gain as int, length, CHANGE_MAX as int);
        lemma_mean_bounded(self->sum_loss as int, length, CHANGE_MAX as int);
        vstd::arithmetic::div_mod::lemma_div_pos_is_pos(self->sum_gain as int, length);
        vstd::arithmetic::div_mod::lemma_div_pos_is_pos(self->sum_loss as int, length);
    }

    /// `next` keeps the invariant.
    pub proof fn lemma_next_keeps_inv(self, advance: bool, gain: int, loss: int, length: int)
        requires
            self.inv(length),
            0 < length <= MAX_LENGTH,
            0 <= gain <= CHANGE_MAX,
            0 <= loss <= CHANGE_MAX,
            self is Seeding && self->seen_bars == 0 ==> advance,
        ensures
            self.next(advance, gain, loss, length).inv(length),
    {
        match self {
            RsiPhase::Seeding { sum_gain, sum_loss, prev_gain, prev_loss, seen_bars } => {
                self.lemma_seed_bounded(length);
                if seen_bars <= length || !advance {
                    let seen = seen_bars as int;
                    assert((seen - 1) * CHANGE_MAX == (seen - 2) * CHANGE_MAX + CHANGE_MAX)
                        by (nonlinear_arith);
                } else {
                    lemma_wilder_bounded((sum_gain as int) / length, gain, length);
                    lemma_wilder_bounded((sum_loss as int) / length, loss, length);
                }
            },
            RsiPhase::Active { prev_avg_gain, prev_avg_loss, avg_gain, avg_loss } => {
                let g = if advance { avg_gain } else { prev_avg_gain };
                let l = if advance { avg_loss } else { prev_avg_loss };
                lemma_wilder_bounded(g as int, gain, length);
                lemma_wilder_bounded(l as int, loss, length);
            },
        }
    }

    /// The transition is one-directional: an active phase stays active,
    /// and a seeding phase becomes active only on an advance after more
    /// than `length` bars were seen.
    pub proof fn lemma_never_back_to_seeding(
        self,
        advance: bool,
        gain: int,
        loss: int,
        length: int,
    )
        ensures
            self is Active ==> self.next(advance, gain, loss, length) is Active,
            self is Seeding ==> (self.next(advance, gain, loss, length) is Active <==> advance
                && self->seen_bars > length),
    {
    }

    /// The exposed RSI lies between 0 and 100.
    pub proof fn lemma_output_bounded(self, length: int)
        requires
            self.inv(length),
            0 < length <= MAX_LENGTH,
        ensures
            self.output(length) matches Some(rsi) ==> 0 <= rsi <= RSI_MAX,
    {
        match self {
            RsiPhase::Seeding { sum_gain, sum_loss, .. } => {
                self.lemma_seed_bounded(length);
                lemma_rsi_of_bounded((sum_gain as int) / length, (sum_loss as int) / length);
            },
            RsiPhase::Active { avg_gain, avg_loss, .. } => {
                lemma_rsi_of_bounded(avg_gain as int, avg_loss as int);
            },
        }
    }
}

/// The state of an [`Rsi`] as plain mathematics.
pub struct RsiView {
    /// The window length.
    pub length: nat,
    /// The extraction strategy.
    pub source: PriceSource,
    /// The extracted price of the bar before the current one.
    pub prev_price: Price,
    /// The extracted price of the current bar, as of its latest tick.
    pub cur_price: Price,
    /// The close of the current bar, as of its latest tick.
    pub cur_close: Option<Price>,
    /// The close of the bar before the current one.
    pub prev_close: Option<Price>,
    /// The phase of the state machine.
    pub phase: RsiPhase,
    /// The value exposed.
    pub current: Option<Price>,
    /// The marker of the current bar.
    pub last_open_time: Option<Timestamp>,
}

impl RsiView {
    /// An RSI that has seen no bar.
    pub open spec fn init(length: nat, source: PriceSource) -> RsiView {
        RsiView {
            length,
            source,
            prev_price: 0,
            cur_price: 0,
            cur_close: None,
            prev_close: None,
            phase: RsiPhase::Seeding {
                sum_gain: 0,
                sum_loss: 0,
                prev_gain: 0,
                prev_loss: 0,
                seen_bars: 0,
            },
            current: None,
            last_open_time: None,
        }
    }

    /// What holds of every RSI reachable from `init` by `step`.
    pub open spec fn inv(self) -> bool {
        &&& 0 < self.length <= MAX_LENGTH
        &&& -VALUE_MAX <= self.prev_price <= VALUE_MAX
        &&& -VALUE_MAX <= self.cur_price <= VALUE_MAX
        &&& close_in_range(self.cur_close)
        &&& close_in_range(self.prev_close)
        &&& self.phase.inv(self.length as int)
        &&& (self.last_open_time is None <==> (self.phase is Seeding && self.phase->seen_bars == 0))
        &&& self.current == self.phase.output(self.length as int)
    }

    /// The RSI after `bar`.
    pub open spec fn step(self, bar: Bar) -> RsiView {
        let advance = is_advance(self.last_open_time, bar.open_time);
        let prev_close = if advance {
            self.cur_close
        } else {
            self.prev_close
        };
        let prev_price = if advance {
            self.cur_price
        } else {
            self.prev_price
        };
        let price = self.source.price_of(bar, prev_close) as Price;
        let phase = self.phase.next(
            advance,
            gain_of(prev_price, price),
            loss_of(prev_price, price),
            self.length as int,
        );
        RsiView {
            length: self.length,
            source: self.source,
            prev_price,
            cur_price: price,
            cur_close: Some(bar.close),
            prev_close,
            phase,
            current: phase.output(self.length as int),
            last_open_time: if advance {
                Some(bar.open_time)
            } else {
                self.last_open_time
            },
        }
    }

    /// `step` keeps the invariant, and what it exposes lies between 0 and
    /// 100.
    pub proof fn lemma_step_keeps_inv(self, bar: Bar)
        requires
            self.inv(),
            bar.in_range(),
            follows(self.last_open_time, bar.open_time),
        ensures
            self.step(bar).inv(),
            self.step(bar).current matches Some(rsi) ==> 0 <= rsi <= RSI_MAX,
    {
        let next = self.step(bar);
        let advance = is_advance(self.last_open_time, bar.open_time);
        self.source.lemma_price_of_bounded(bar, next.prev_close);
        self.phase.lemma_next_keeps_inv(
            advance,
            gain_of(next.prev_price, next.cur_price),
            loss_of(next.prev_price, next.cur_price),
            self.length as int,
        );
        next.phase.lemma_output_bounded(self.length as int);
    }
}

impl BarMachine for RsiView {
    open spec fn stable(self) -> bool {
        self.inv()
    }

    open spec fn marker(self) -> Option<Timestamp> {
        self.last_open_time
    }

    open spec fn next(self, bar: Bar) -> Self {
        self.step(bar)
    }

    open spec fn warm_up(self) -> nat {
        self.length + 1
    }

    open spec fn progress(self) -> nat {
        match self.phase {
            RsiPhase::Seeding { seen_bars, .. } => seen_bars as nat,
            RsiPhase::Active { .. } => self.length + 1,
        }
    }

    open spec fn exposes(self) -> bool {
        self.current is Some
    }

    proof fn lemma_stable(self) {
    }

    proof fn lemma_next(self, bar: Bar) {
        self.lemma_step_keeps_inv(bar);
    }

    proof fn lemma_repaint_replaces(self, earlier: Bar, later: Bar) {
        self.lemma_step_keeps_inv(earlier);
    }
}

/// Convergence timing: an RSI of window `length` exposes no value until
/// `length + 1` bars were opened, and one from then on.
pub proof fn lemma_rsi_converges_after_length(length: nat, source: PriceSource, bars: Seq<Bar>)
    requires
        0 < length <= MAX_LENGTH,
        feed_ok(None, bars),
    ensures
        run(RsiView::init(length, source), bars).current is Some <==> bars_opened(None, bars)
            >= length + 1,
{
    lemma_exposes_after_warm_up(RsiView::init(length, source), bars);
}

/// Whether every tick of `bars` yields the price `price`, whatever the
/// close before it.
pub open spec fn flat_feed(source: PriceSource, bars: Seq<Bar>, price: Price) -> bool {
    forall|i: int, prev_close: Option<Price>|
        0 <= i < bars.len() ==> #[trigger] source.price_of(bars[i], prev_close) == price
}

/// Whether an RSI has seen nothing but the price `price`: it has recorded
/// no gain and no loss.
pub open spec fn flat_state(rsi: RsiView, price: Price) -> bool {
    match rsi.phase {
        RsiPhase::Seeding { sum_gain, sum_loss, prev_gain, prev_loss, seen_bars } => {
            &&& sum_gain == 0
            &&& sum_loss == 0
            &&& prev_gain == 0
            &&& prev_loss == 0
            &&& seen_bars >= 1 ==> rsi.cur_price == price
            &&& seen_bars >= 2 ==> rsi.prev_price == price
        },
        RsiPhase::Active { prev_avg_gain, prev_avg_loss, avg_gain, avg_loss } => {
            &&& prev_avg_gain == 0
            &&& prev_avg_loss == 0
            &&& avg_gain == 0
            &&& avg_loss == 0
            &&& rsi.cur_price == price
            &&& rsi.prev_price == price
        },
    }
}

/// A flat feed leaves an RSI that has recorded no gain and no loss.
pub proof fn lemma_flat_feed_keeps_flat(
    length: nat,
    source: PriceSource,
    bars: Seq<Bar>,
    price: Price,
)
    requires
        0 < length <= MAX_LENGTH,
        feed_ok(None, bars),
        flat_feed(source, bars, price),
    ensures
        run(RsiView::init(length, source), bars).inv(),
        run(RsiView::init(length, source), bars).source == source,
        run(RsiView::init(length, source), bars).length == length,
        run(RsiView::init(length, source), bars).last_open_time == marker_after(
            None,
            bars,
        ),
        flat_state(run(RsiView::init(length, source), bars), price),
    decreases bars.len(),
{
    let init = RsiView::init(length, source);
    if bars.len() > 0 {
        let before = bars.drop_last();
        lemma_feed_ok_prefix(None, bars);
        assert forall|i: int, prev_close: Option<Price>| 0 <= i < before.len() implies
            #[trigger] source.price_of(before[i], prev_close) == price by {
            assert(before[i] == bars[i]);
        }
        lemma_flat_feed_keeps_flat(length, source, before, price);
        run(init, before).lemma_step_keeps_inv(bars.last());
        assert(0int / (length as int) == 0) by (nonlinear_arith)
            requires
                0 < length,
        ;
    }
}

/// Flat prices are neutral: on a feed of one unchanging price, whatever
/// the RSI exposes is exactly 50.
pub proof fn lemma_flat_feed_is_neutral(
    length: nat,
    source: PriceSource,
    bars: Seq<Bar>,
    price: Price,
)
    requires
        0 < length <= MAX_LENGTH,
        feed_ok(None, bars),
        flat_feed(source, bars, price),
    ensures
        run(RsiView::init(length, source), bars).current matches Some(rsi) ==> rsi == NEUTRAL,
{
    lemma_flat_feed_keeps_flat(length, source, bars, price);
    assert(0int / (length as int) == 0) by (nonlinear_arith)
        requires
            0 < length,
    ;
}

/// The RSI is bounded: after any feed, whatever the RSI exposes lies
/// between 0 and 100.
pub proof fn lemma_rsi_between_0_and_100(length: nat, source: PriceSource, bars: Seq<Bar>)
    requires
        0 < length <= MAX_LENGTH,
        feed_ok(None, bars),
    ensures
        run(RsiView::init(length, source), bars).current matches Some(rsi) ==> 0 <= rsi
            <= RSI_MAX,
{
    let init = RsiView::init(length, source);
    lemma_run(init, bars);
    if bars.len() > 0 {
        lemma_feed_ok_prefix(None, bars);
        lemma_run(init, bars.drop_last());
        run(init, bars.drop_last()).lemma_step_keeps_inv(bars.last());
    }
}

/// Relative Strength Index (RSI) with Wilder's smoothing.
///
/// Measures the speed and magnitude of recent price changes on a 0–100
/// scale. Values above 70 are conventionally considered overbought; below
/// 30, oversold.
///
/// The first `length` price changes are averaged with a simple mean (SMA
/// seed). After seeding, gains and losses are smoothed with Wilder's
/// method (`α = 1 / length`):
///
/// ```text
/// avg_gain = (prev_avg_gain × (length − 1) + gain) / length
/// avg_loss = (prev_avg_loss × (length − 1) + loss) / length
/// RSI      = 100 × avg_gain / (avg_gain + avg_loss)
/// ```
///
/// Supports live repainting: feeding a bar with the same `open_time`
/// recomputes from the previous state without advancing.
#[derive(Debug)]
pub struct Rsi {
    config: RsiConfig,
    prev_price: Price,
    cur_price: Price,
    cur_close: Option<Price>,
    prev_close: Option<Price>,
    phase: RsiPhase,
    current: Option<Price>,
    last_open_time: Option<Timestamp>,
}

impl View for Rsi {
    type V = RsiView;

    closed spec fn view(&self) -> RsiView {
        RsiView {
            length: self.config.spec_length() as nat,
            source: self.config.spec_source(),
            prev_price: self.prev_price,
            cur_price: self.cur_price,
            cur_close: self.cur_close,
            prev_close: self.prev_close,
            phase: self.phase,
            current: self.current,
            last_open_time: self.last_open_time,
        }
    }
}

impl Rsi {
    /// The configuration that the indicator was made from.
    pub closed spec fn spec_config(&self) -> RsiConfig {
        self.config
    }

    /// The representation invariant.
    pub closed spec fn wf(&self) -> bool {
        self@.inv()
    }

    /// A well-formed RSI satisfies the model's invariant and agrees with
    /// its configuration.
    pub proof fn lemma_wf_inv(&self)
        requires
            self.wf(),
        ensures
            self@.inv(),
            self@.length == self.spec_config().spec_length(),
            self@.source == self.spec_config().spec_source(),
    {
    }

    /// Creates a new indicator from the given config.
    pub fn new(config: RsiConfig) -> (rsi: Self)
        ensures
            rsi.wf(),
            rsi.spec_config() == config,
            rsi@ == RsiView::init(config.spec_length() as nat, config.spec_source()),
    {
        proof {
            use_type_invariant(&config);
        }
        Self {
            config,
            phase: RsiPhase::Seeding {
                sum_gain: 0,
                sum_loss: 0,
                prev_gain: 0,
                prev_loss: 0,
                seen_bars: 0,
            },
            cur_close: None,
            prev_close: None,
            prev_price: 0,
            cur_price: 0,
            current: None,
            last_open_time: None,
        }
    }

    /// The marker of the current bar; `None` before the first tick.
    pub fn last_open_time(&self) -> (marker: Option<Timestamp>)
        ensures
            marker == self@.last_open_time,
    {
        self.last_open_time
    }

    /// Whether `compute` takes `bar`: its prices are in range and its
    /// marker is not less than that of the current bar.
    pub fn accepts(&self, bar: &Bar) -> (ok: bool)
        ensures
            ok == (bar.in_range() && follows(self@.last_open_time, bar.open_time)),
    {
        bar.is_in_range() && may_follow(self.last_open_time(), bar.open_time)
    }

    /// Feeds a bar and returns the updated RSI, or `None` until more than
    /// `length` bars were seen. The RSI lies between 0 and 100.
    pub fn compute(&mut self, bar: &Bar) -> (output: Option<Price>)
        requires
            old(self).wf(),
            bar.in_range(),
            follows(old(self)@.last_open_time, bar.open_time),
        ensures
            final(self).wf(),
            final(self).spec_config() == old(self).spec_config(),
            final(self)@ == old(self)@.step(*bar),
            output == final(self)@.current,
            output matches Some(rsi) ==> 0 <= rsi <= RSI_MAX,
    {
        proof {
            old(self)@.lemma_step_keeps_inv(*bar);
        }
        let is_next_bar: bool = advances(self.last_open_time, bar.open_time);

        if is_next_bar {
            self.prev_close = self.cur_close;
            self.prev_price = self.cur_price;
            self.last_open_time = Some(bar.open_time);
        }
        let price: Price = self.config.source().extract(bar, self.prev_close);
        self.cur_price = price;
        self.cur_close = Some(bar.close);

        let length: usize = self.config.length();
        let change: (Price, Price) = Self::gain_and_loss(self.prev_price, price);
        let gain: Price = change.0;
        let loss: Price = change.1;
        let phase: RsiPhase = match self.phase {
            RsiPhase::Seeding { sum_gain, sum_loss, prev_gain, prev_loss, seen_bars } => {
                proof {
                    self.phase.lemma_seed_bounded(length as int);
                }
                if seen_bars <= length {
                    if is_next_bar {
                        // Compute change (skip first bar: no previous price)
                        if seen_bars > 0 {
                            RsiPhase::Seeding {
                                sum_gain: sum_gain + gain,
                                sum_loss: sum_loss + loss,
                                prev_gain: gain,
                                prev_loss: loss,
                                seen_bars: seen_bars + 1,
                            }
                        } else {
                            RsiPhase::Seeding {
                                sum_gain,
                                sum_loss,
                                prev_gain,
                                prev_loss,
                                seen_bars: seen_bars + 1,
                            }
                        }
                    } else if seen_bars > 1 {
                        // Adjust sums (skip bar 1: no valid prev bar)
                        RsiPhase::Seeding {
                            sum_gain: sum_gain - prev_gain + gain,
                            sum_loss: sum_loss - prev_loss + loss,
                            prev_gain: gain,
                            prev_loss: loss,
                            seen_bars,
                        }
                    } else {
                        self.phase
                    }
                } else if is_next_bar {
                    // Advance to Active phase: compute first Wilder-smoothed value
                    let prev_avg_gain: Price = floor_div(sum_gain, length as i128);
                    let prev_avg_loss: Price = floor_div(sum_loss, length as i128);
                    RsiPhase::Active {
                        prev_avg_gain,
                        prev_avg_loss,
                        avg_gain: Self::smoothed(prev_avg_gain, gain, length),
                        avg_loss: Self::smoothed(prev_avg_loss, loss, length),
                    }
                } else {
                    // Transition bar repaint: the sums are still seeding
                    RsiPhase::Seeding {
                        sum_gain: sum_gain - prev_gain + gain,
                        sum_loss: sum_loss - prev_loss + loss,
                        prev_gain: gain,
                        prev_loss: loss,
                        seen_bars,
                    }
                }
            },
            RsiPhase::Active { prev_avg_gain, prev_avg_loss, avg_gain, avg_loss } => {
                let base_gain: Price = if is_next_bar {
                    avg_gain
                } else {
                    prev_avg_gain
                };
                let base_loss: Price = if is_next_bar {
                    avg_loss
                } else {
                    prev_avg_loss
                };
                RsiPhase::Active {
                    prev_avg_gain: base_gain,
                    prev_avg_loss: base_loss,
                    avg_gain: Self::smoothed(base_gain, gain, length),
                    avg_loss: Self::smoothed(base_loss, loss, length),
                }
            },
        };
        self.phase = phase;
        self.current = match phase {
            RsiPhase::Seeding { sum_gain, sum_loss, seen_bars, .. } => {
                proof {
                    phase.lemma_seed_bounded(length as int);
                }
                // Seeding complete: output SMA-based RSI
                if seen_bars > length {
                    Some(
                        Self::rsi_from_averages(
                            floor_div(sum_gain, length as i128),
                            floor_div(sum_loss, length as i128),
                        ),
                    )
                } else {
                    None
                }
            },
            RsiPhase::Active { avg_gain, avg_loss, .. } => Some(
                Self::rsi_from_averages(avg_gain, avg_loss),
            ),
        };

        self.current
    }

    /// The text `RSI(length, source)`.
    pub fn to_string(&self) -> (text: String)
        ensures
            text@ == labelled_text(
                "RSI"@,
                self.spec_config().spec_length() as nat,
                self.spec_config().spec_source(),
            ),
    {
        labelled("RSI", self.config.length(), *self.config.source())
    }

    /// Returns the last computed value without consuming input.
    pub fn value(&self) -> (output: Option<Price>)
        ensures
            output == self@.current,
    {
        self.current
    }

    /// The rise and the fall from `prev_price` to `price`: one of them is
    /// the distance, the other zero.
    pub fn gain_and_loss(prev_price: Price, price: Price) -> (change: (Price, Price))
        requires
            -VALUE_MAX <= prev_price <= VALUE_MAX,
            -VALUE_MAX <= price <= VALUE_MAX,
        ensures
            change.0 == gain_of(prev_price, price),
            change.1 == loss_of(prev_price, price),
            0 <= change.0 <= CHANGE_MAX,
            0 <= change.1 <= CHANGE_MAX,
    {
        let change: Price = price - prev_price;
        if change > 0 {
            (change, 0)
        } else {
            (0, -change)
        }
    }

    /// One step of Wilder's recurrence.
    fn smoothed(prev_avg: Price, value: Price, length: usize) -> (avg: Price)
        requires
            0 < length <= MAX_LENGTH,
            0 <= prev_avg <= CHANGE_MAX,
            0 <= value <= CHANGE_MAX,
        ensures
            avg == wilder(prev_avg as int, value as int, length as int),
            0 <= avg <= CHANGE_MAX,
    {
        proof {
            lemma_wilder_bounded(prev_avg as int, value as int, length as int);
            assert((length - 1) * CHANGE_MAX <= MAX_LENGTH * CHANGE_MAX) by (nonlinear_arith)
                requires
                    0 < length <= MAX_LENGTH,
            ;
        }
        floor_div(prev_avg * (length as i128 - 1) + value, length as i128)
    }

    /// The RSI of an average gain and an average loss: `100 * g / (g + l)`,
    /// and the neutral 50 where both are zero.
    pub fn rsi_from_averages(avg_gain: Price, avg_loss: Price) -> (rsi: Price)
        requires
            0 <= avg_gain <= CHANGE_MAX,
            0 <= avg_loss <= CHANGE_MAX,
        ensures
            rsi == rsi_of(avg_gain as int, avg_loss as int),
            0 <= rsi <= RSI_MAX,
    {
        proof {
            lemma_rsi_of_bounded(avg_gain as int, avg_loss as int);
        }
        let sum: Price = avg_gain + avg_loss;
        if sum == 0 {
            NEUTRAL
        } else {
            ratio(100 * avg_gain as u128, sum as u128) as Price
        }
    }
}

impl Clone for Rsi {
    /// A copy in the same state that shares nothing with `self`.
    fn clone(&self) -> (copy: Self)
        ensures
            copy@ == self@,
            copy.spec_config() == self.spec_config(),
            self.wf() ==> copy.wf(),
    {
        Self {
            config: self.config,
            prev_price: self.prev_price,
            cur_price: self.cur_price,
            cur_close: self.cur_close,
            prev_close: self.prev_close,
            phase: self.phase,
            current: self.current,
            last_open_time: self.last_open_time,
        }
    }
}

impl Indicator for Rsi {
    type Config = RsiConfig;

    type Output = Price;

    open spec fn valid(&self) -> bool {
        self.wf()
    }

    open spec fn marker(&self) -> Option<Timestamp> {
        self@.last_open_time
    }

    open spec fn exposed(&self) -> Option<Price> {
        self@.current
    }

    fn new(config: RsiConfig) -> (rsi: Self)
        ensures
            rsi@ == RsiView::init(config.spec_length() as nat, config.spec_source()),
    {
        Rsi::new(config)
    }

    fn compute(&mut self, bar: &Bar) -> (output: Option<Price>)
        ensures
            final(self)@ == old(self)@.step(*bar),
    {
        Rsi::compute(self, bar)
    }

    fn value(&self) -> (output: Option<Price>) {
        Rsi::value(self)
    }
}

} // verus!
