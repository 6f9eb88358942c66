use vstd::prelude::*;
use std::collections::VecDeque;
use crate::feed::BarMachine;
use crate::fixed::{magnitude, mul_fixed, mul_floor};
use crate::length::MAX_LENGTH;
use crate::ohlcv::{
    advances, follows, is_advance, may_follow, Bar, Price, Timestamp, ONE, VALUE_MAX,
};
use crate::price_source::{close_in_range, PriceSource};

verus! {

/// Largest fixed-point square of an extracted value: `2^110`.
pub const SQUARE_MAX: Price = 0x4000_0000_0000_0000_0000_0000_0000;

/// The fixed-point square of `x`, rounded down.
pub open spec fn square_of(x: Price) -> int {
    mul_fixed(x as int, x as int)
}

/// What one value adds to an aggregate: itself, or its square.
pub open spec fn term(x: Price, squared: bool) -> int {
    if squared {
        square_of(x)
    } else {
        x as int
    }
}

/// The sum of the terms of `s`.
pub open spec fn total(s: Seq<Price>, squared: bool) -> int
    decreases s.len(),
{
    if s.len() == 0 {
        0
    } else {
        total(s.drop_last(), squared) + term(s.last(), squared)
    }
}

/// The sum of the values of `s`.
pub open spec fn seq_sum(s: Seq<Price>) -> int {
    total(s, false)
}

/// The sum of the fixed-point squares of the values of `s`.
pub open spec fn seq_sum_sq(s: Seq<Price>) -> int {
    total(s, true)
}

/// Whether every value of `s` lies within `-VALUE_MAX ..= VALUE_MAX`.
pub open spec fn all_bounded(s: Seq<Price>) -> bool {
    forall|i: int| 0 <= i < s.len() ==> -VALUE_MAX <= #[trigger] s[i] <= VALUE_MAX
}

/// Appending a value adds its term.
pub proof fn lemma_total_push(s: Seq<Price>, x: Price, squared: bool)
    ensures
        total(s.push(x), squared) == total(s, squared) + term(x, squared),
{
    assert(s.push(x).drop_last() =~= s);
}

/// Dropping the oldest value subtracts its term.
pub proof fn lemma_total_drop_first(s: Seq<Price>, squared: bool)
    requires
        s.len() > 0,
    ensures
        total(s.drop_first(), squared) == total(s, squared) - term(s[0], squared),
    decreases s.len(),
{
    if s.len() == 1 {
        assert(s.drop_first() =~= Seq::<Price>::empty());
        assert(s.drop_last() =~= Seq::<Price>::empty());
    } else {
        lemma_total_drop_first(s.drop_last(), squared);
        assert(s.drop_first().drop_last() =~= s.drop_last().drop_first());
    }
}

/// The square of a bounded value is non-negative and bounded.
pub proof fn lemma_square_bounded(x: Price)
    requires
        -VALUE_MAX <= x <= VALUE_MAX,
    ensures
        0 <= square_of(x) <= SQUARE_MAX,
{
    assert(0 <= x * x <= VALUE_MAX * VALUE_MAX) by (nonlinear_arith)
        requires
            -VALUE_MAX <= x <= VALUE_MAX,
    ;
    vstd::arithmetic::div_mod::lemma_div_pos_is_pos(x * x, ONE as int);
    vstd::arithmetic::div_mod::lemma_div_is_ordered(x * x, VALUE_MAX * VALUE_MAX, ONE as int);
    assert(VALUE_MAX * VALUE_MAX == SQUARE_MAX * ONE) by (nonlinear_arith)
        requires
            VALUE_MAX == 0x8000_0000_0000_0000_0000,
            ONE == 0x1_0000_0000_0000,
            SQUARE_MAX == 0x4000_0000_0000_0000_0000_0000_0000,
    ;
    vstd::arithmetic::div_mod::lemma_fundamental_div_mod_converse(
        VALUE_MAX * VALUE_MAX,
        ONE as int,
        SQUARE_MAX as int,
        0,
    );
}

/// Each term of a bounded value is bounded.
pub proof fn lemma_term_bounded(x: Price, squared: bool)
    requires
        -VALUE_MAX <= x <= VALUE_MAX,
    ensures
        -SQUARE_MAX <= term(x, squared) <= SQUARE_MAX,
        !squared ==> -VALUE_MAX <= term(x, squared) <= VALUE_MAX,
        squared ==> 0 <= term(x, squared),
{
    lemma_square_bounded(x);
}

/// An aggregate of bounded values grows at most linearly with their count.
pub proof fn lemma_total_bounded(s: Seq<Price>, squared: bool)
    requires
        all_bounded(s),
    ensures
        -s.len() * SQUARE_MAX <= total(s, squared) <= s.len() * SQUARE_MAX,
        !squared ==> -s.len() * VALUE_MAX <= total(s, squared) <= s.len() * VALUE_MAX,
        squared ==> 0 <= total(s, squared),
    decreases s.len(),
{
    if s.len() > 0 {
        lemma_total_bounded(s.drop_last(), squared);
        lemma_term_bounded(s.last(), squared);
        let n = s.len() as int;
        assert((n - 1) * SQUARE_MAX + SQUARE_MAX == n * SQUARE_MAX) by (nonlinear_arith);
        assert((n - 1) * VALUE_MAX + VALUE_MAX == n * VALUE_MAX) by (nonlinear_arith);
        assert(-(n - 1) * SQUARE_MAX - SQUARE_MAX == -n * SQUARE_MAX) by (nonlinear_arith);
        assert(-(n - 1) * VALUE_MAX - VALUE_MAX == -n * VALUE_MAX) by (nonlinear_arith);
    }
}

/// The state of a sliding price window as plain mathematics.
pub struct WindowView {
    /// The capacity: the indicator length.
    pub size: nat,
    /// The extracted values held, oldest first.
    pub items: Seq<Price>,
    /// The close of the current bar, as of its latest tick.
    pub cur_close: Option<Price>,
    /// The close of the bar before the current one.
    pub prev_close: Option<Price>,
    /// The extraction strategy.
    pub source: PriceSource,
    /// The marker of the current bar.
    pub last_open_time: Option<Timestamp>,
    /// Whether the window also keeps the sum of squares.
    pub squares: bool,
}

impl WindowView {
    /// A window that has seen no bar.
    pub open spec fn init(size: nat, source: PriceSource, squares: bool) -> WindowView {
        WindowView {
            size,
            items: Seq::empty(),
            cur_close: None,
            prev_close: None,
            source,
            last_open_time: None,
            squares,
        }
    }

    /// What holds of every window reachable from `init` by `add`.
    pub open spec fn inv(self) -> bool {
        &&& 0 < self.size <= MAX_LENGTH
        &&& self.items.len() <= self.size
        &&& all_bounded(self.items)
        &&& close_in_range(self.cur_close)
        &&& close_in_range(self.prev_close)
        &&& (self.items.len() == 0 <==> self.last_open_time is None)
        &&& (self.items.len() == 0 <==> self.cur_close is None)
        &&& self.cur_close is None ==> self.prev_close is None
    }

    /// Whether the window holds `size` values.
    pub open spec fn ready(self) -> bool {
        self.items.len() == self.size
    }

    /// The values that stay when `bar` arrives: an advance on a full
    /// window drops the oldest, a repaint drops the newest.
    pub open spec fn kept(self, bar: Bar) -> Seq<Price> {
        if is_advance(self.last_open_time, bar.open_time) {
            if self.ready() {
                self.items.drop_first()
            } else {
                self.items
            }
        } else if self.items.len() > 0 {
            self.items.drop_last()
        } else {
            self.items
        }
    }

    /// The previous close in force while `bar` is the current bar: an
    /// advance captures the close of the bar it finalizes, a repaint keeps
    /// what the advance captured.
    pub open spec fn prev_close_for(self, bar: Bar) -> Option<Price> {
        if is_advance(self.last_open_time, bar.open_time) {
            self.cur_close
        } else {
            self.prev_close
        }
    }

    /// The window after `bar`.
    pub open spec fn add(self, bar: Bar) -> WindowView {
        let prev_close = self.prev_close_for(bar);
        WindowView {
            size: self.size,
            items: self.kept(bar).push(self.source.price_of(bar, prev_close) as Price),
            cur_close: Some(bar.close),
            prev_close,
            source: self.source,
            last_open_time: if is_advance(self.last_open_time, bar.open_time) {
                Some(bar.open_time)
            } else {
                self.last_open_time
            },
            squares: self.squares,
        }
    }

    /// The sum of the window, once it is ready.
    pub open spec fn sum(self) -> Option<int> {
        if self.ready() {
            Some(seq_sum(self.items))
        } else {
            None
        }
    }

    /// The sum of squares of the window, once it is ready.
    pub open spec fn sum_of_squares(self) -> Option<int> {
        if self.ready() {
            Some(seq_sum_sq(self.items))
        } else {
            None
        }
    }

    /// `add` keeps the invariant, and the window grows, by one value,
    /// exactly when the tick opens a bar on a window that is not full.
    pub proof fn lemma_add_keeps_inv(self, bar: Bar)
        requires
            self.inv(),
            bar.in_range(),
            follows(self.last_open_time, bar.open_time),
        ensures
            self.add(bar).inv(),
            self.add(bar).items.len() == (if is_advance(self.last_open_time, bar.open_time)
                && !self.ready() {
                self.items.len() + 1
            } else {
                self.items.len()
            }),
    {
        let prev_close = self.prev_close_for(bar);
        self.source.lemma_price_of_bounded(bar, prev_close);
    }
}

impl BarMachine for WindowView {
    open spec fn stable(self) -> bool {
        self.inv()
    }

    open spec fn marker(self) -> Option<Timestamp> {
        self.last_open_time
    }

    open spec fn next(self, bar: Bar) -> Self {
        self.add(bar)
    }

    open spec fn warm_up(self) -> nat {
        self.size
    }

    open spec fn progress(self) -> nat {
        self.items.len()
    }

    open spec fn exposes(self) -> bool {
        self.ready()
    }

    proof fn lemma_stable(self) {
    }

    proof fn lemma_next(self, bar: Bar) {
        self.lemma_add_keeps_inv(bar);
    }

    proof fn lemma_repaint_replaces(self, earlier: Bar, later: Bar) {
        self.lemma_add_keeps_inv(earlier);
        let first = self.add(earlier);
        assert(first.kept(later) =~= self.kept(later));
    }
}

/// A fixed-capacity queue of extracted prices with running aggregates,
/// driven by the bar-boundary protocol.
#[derive(Debug)]
pub struct PriceWindow {
    size: usize,
    window: VecDeque<Price>,
    /// Running sum of the values in the window.
    sum: Price,
    /// Running sum of their squares, where the window keeps it.
    sum_of_squares: Price,
    /// Tracks the close of the current bar. On window advance, becomes
    /// `prev_close` for the true range. Updated on every `add`.
    cur_close: Option<Price>,
    prev_close: Option<Price>,
    source: PriceSource,
    last_open_time: Option<Timestamp>,
    squares: bool,
}

impl View for PriceWindow {
    type V = WindowView;

    closed spec fn view(&self) -> WindowView {
        WindowView {
            size: self.size as nat,
            items: self.window@,
            cur_close: self.cur_close,
            prev_close: self.prev_close,
            source: self.source,
            last_open_time: self.last_open_time,
            squares: self.squares,
        }
    }
}

impl PriceWindow {
    /// The representation invariant: the model's invariant, and both
    /// running aggregates equal to the aggregates of the contents.
    pub closed spec fn wf(&self) -> bool {
        &&& self@.inv()
        &&& self.aggregates_match()
    }

    spec fn aggregates_match(&self) -> bool {
        &&& self.sum == seq_sum(self.window@)
        &&& self.sum_of_squares == (if self.squares {
            seq_sum_sq(self.window@)
        } else {
            0
        })
    }

    /// A well-formed window satisfies the model's invariant.
    pub proof fn lemma_wf_inv(&self)
        requires
            self.wf(),
        ensures
            self@.inv(),
    {
    }

    /// An empty window that keeps the running sum only.
    pub fn new(size: usize, source: PriceSource) -> (window: Self)
        requires
            0 < size <= MAX_LENGTH,
        ensures
            window.wf(),
            window@ == WindowView::init(size as nat, source, false),
    {
        Self {
            size,
            source,
            sum: 0,
            sum_of_squares: 0,
            cur_close: None,
            prev_close: None,
            window: VecDeque::with_capacity(size),
            last_open_time: None,
            squares: false,
        }
    }

    /// An empty window that keeps the running sum and sum of squares.
    pub fn with_sum_of_squares(size: usize, source: PriceSource) -> (window: Self)
        requires
            0 < size <= MAX_LENGTH,
        ensures
            window.wf(),
            window@ == WindowView::init(size as nat, source, true),
    {
        Self {
            size,
            source,
            sum: 0,
            sum_of_squares: 0,
            cur_close: None,
            prev_close: None,
            window: VecDeque::with_capacity(size),
            last_open_time: None,
            squares: true,
        }
    }

    /// The marker of the current bar; `None` before the first tick.
    pub fn last_open_time(&self) -> (marker: Option<Timestamp>)
        ensures
            marker == self@.last_open_time,
    {
        self.last_open_time
    }

    /// Whether `add` takes `bar`: its prices are in range and its marker
    /// is not less than that of the current bar.
    pub fn accepts(&self, bar: &Bar) -> (ok: bool)
        ensures
            ok == (bar.in_range() && follows(self@.last_open_time, bar.open_time)),
    {
        bar.is_in_range() && may_follow(self.last_open_time, bar.open_time)
    }

    /// Feeds one tick: advances the window where the bar is new, repaints
    /// its newest value where the bar is the current one.
    pub fn add(&mut self, bar: &Bar)
        requires
            old(self).wf(),
            bar.in_range(),
            follows(old(self)@.last_open_time, bar.open_time),
        ensures
            final(self).wf(),
            final(self)@ == old(self)@.add(*bar),
    {
        let is_next_timeframe: bool = advances(self.last_open_time, bar.open_time);
        proof {
            lemma_total_bounded(self.window@, false);
            lemma_total_bounded(self.window@, true);
            self@.lemma_add_keeps_inv(*bar);
            lemma_bound_products(self.window@.len() as int);
        }
        if self.is_ready() {
            let old_price: Price = self.evict_price(is_next_timeframe, bar);
            self.remove_from_aggregates(old_price);
        } else if is_next_timeframe {
            self.prev_close = self.cur_close;
            self.last_open_time = Some(bar.open_time);
        } else {
            let popped: Option<Price> = self.window.pop_back();
            if let Some(old_price) = popped {
                self.remove_from_aggregates(old_price);
            }
        }

        let price: Price = self.source.extract(bar, self.prev_close);

        self.cur_close = Some(bar.close);
        proof {
            lemma_total_push(self.window@, price, false);
            lemma_total_push(self.window@, price, true);
            lemma_total_bounded(self.window@, false);
            lemma_total_bounded(self.window@, true);
            lemma_bound_products(self.window@.len() as int);
        }
        self.window.push_back(price);
        self.sum += price;
        if self.squares {
            self.sum_of_squares += square(price);
        }
    }

    /// The running sum, or `None` until the window is ready.
    pub fn sum(&self) -> (sum: Option<Price>)
        requires
            self.wf(),
        ensures
            sum is Some <==> self@.ready(),
            sum matches Some(s) ==> self@.sum() == Some(s as int),
    {
        if self.is_ready() {
            Some(self.sum)
        } else {
            None
        }
    }

    /// The running sum of squares, or `None` until the window is ready.
    /// Only a window made by `with_sum_of_squares` keeps it.
    pub fn sum_of_squares(&self) -> (sum: Option<Price>)
        requires
            self.wf(),
            self@.squares,
        ensures
            sum is Some <==> self@.ready(),
            sum matches Some(s) ==> self@.sum_of_squares() == Some(s as int),
    {
        if self.is_ready() {
            Some(self.sum_of_squares)
        } else {
            None
        }
    }

    fn is_ready(&self) -> (ready: bool)
        ensures
            ready == self@.ready(),
    {
        self.window.len() == self.size
    }

    /// Takes out the value that the incoming tick displaces from a full
    /// window: the oldest on an advance, the newest on a repaint.
    fn evict_price(&mut self, is_next_timeframe: bool, bar: &Bar) -> (evicted: Price)
        requires
            old(self)@.inv(),
            old(self)@.ready(),
            is_next_timeframe == is_advance(old(self)@.last_open_time, bar.open_time),
        ensures
            final(self).window@ == old(self)@.kept(*bar),
            final(self).prev_close == old(self)@.prev_close_for(*bar),
            final(self).last_open_time == old(self)@.add(*bar).last_open_time,
            final(self).size == old(self).size,
            final(self).sum == old(self).sum,
            final(self).sum_of_squares == old(self).sum_of_squares,
            final(self).cur_close == old(self).cur_close,
            final(self).source == old(self).source,
            final(self).squares == old(self).squares,
            -VALUE_MAX <= evicted <= VALUE_MAX,
            total(old(self).window@, false) == total(final(self).window@, false) + term(
                evicted,
                false,
            ),
            total(old(self).window@, true) == total(final(self).window@, true) + term(
                evicted,
                true,
            ),
    {
        proof {
            lemma_total_drop_first(self.window@, false);
            lemma_total_drop_first(self.window@, true);
        }
        if is_next_timeframe {
            self.prev_close = self.cur_close;
            self.last_open_time = Some(bar.open_time);
            match self.window.pop_front() {
                Some(price) => price,
                None => 0,
            }
        } else {
            match self.window.pop_back() {
                Some(price) => price,
                None => 0,
            }
        }
    }

    /// Subtracts a value that has left the window from the aggregates.
    fn remove_from_aggregates(&mut self, old_price: Price)
        requires
            -VALUE_MAX <= old_price <= VALUE_MAX,
            -MAX_LENGTH * VALUE_MAX <= old(self).sum <= MAX_LENGTH * VALUE_MAX,
            0 <= old(self).sum_of_squares <= MAX_LENGTH * SQUARE_MAX,
        ensures
            final(self).sum == old(self).sum - term(old_price, false),
            final(self).sum_of_squares == (if old(self).squares {
                old(self).sum_of_squares - term(old_price, true)
            } else {
                old(self).sum_of_squares as int
            }),
            final(self).window == old(self).window,
            final(self).size == old(self).size,
            final(self).cur_close == old(self).cur_close,
            final(self).prev_close == old(self).prev_close,
            final(self).source == old(self).source,
            final(self).last_open_time == old(self).last_open_time,
            final(self).squares == old(self).squares,
    {
        self.sum -= old_price;
        if self.squares {
            self.sum_of_squares -= square(old_price);
        }
    }
}

/// The products that bound the aggregates of a window fit in 128 bits.
proof fn lemma_bound_products(n: int)
    requires
        0 <= n <= MAX_LENGTH,
    ensures
        n * VALUE_MAX <= MAX_LENGTH * VALUE_MAX,
        n * SQUARE_MAX <= MAX_LENGTH * SQUARE_MAX,
        MAX_LENGTH * VALUE_MAX == 0x8000_0000_0000_0000_0000_0000,
        MAX_LENGTH * SQUARE_MAX == 0x4000_0000_0000_0000_0000_0000_0000_0000,
{
    assert(n * VALUE_MAX <= MAX_LENGTH * VALUE_MAX) by (nonlinear_arith)
        requires
            0 <= n <= MAX_LENGTH,
    ;
    assert(n * SQUARE_MAX <= MAX_LENGTH * SQUARE_MAX) by (nonlinear_arith)
        requires
            0 <= n <= MAX_LENGTH,
    ;
}

/// The fixed-point square of a bounded value, rounded down.
pub fn square(x: Price) -> (sq: Price)
    requires
        -VALUE_MAX <= x <= VALUE_MAX,
    ensures
        sq == square_of(x),
        0 <= sq <= SQUARE_MAX,
{
    let m: u128 = magnitude(x);
    proof {
        lemma_square_bounded(x);
        assert(m * m == x * x) by (nonlinear_arith)
            requires
                m == x || m == -x,
        ;
    }
    mul_floor(m, m) as Price
}

impl Clone for PriceWindow {
    /// A copy in the same state that shares nothing with `self`.
    fn clone(&self) -> (copy: Self)
        ensures
            copy@ == self@,
            self.wf() ==> copy.wf(),
    {
        let copy = Self {
            size: self.size,
            window: self.window.clone(),
            sum: self.sum,
            sum_of_squares: self.sum_of_squares,
            cur_close: self.cur_close,
            prev_close: self.prev_close,
            source: self.source,
            last_open_time: self.last_open_time,
            squares: self.squares,
        };
        copy
    }
}

} // verus!
