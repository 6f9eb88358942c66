use vstd::prelude::*;
use crate::ohlcv::{follows, is_advance, Bar, Timestamp};

verus! {

/// The marker of the current bar after `bars` were fed to a machine whose
/// current bar had marker `last`.
pub open spec fn marker_after(last: Option<Timestamp>, bars: Seq<Bar>) -> Option<Timestamp> {
    if bars.len() == 0 {
        last
    } else {
        Some(bars.last().open_time)
    }
}

/// Whether `bars` may be fed, in order, after a bar with marker `last`:
/// every price is in range and no marker is less than the one before it.
pub open spec fn feed_ok(last: Option<Timestamp>, bars: Seq<Bar>) -> bool {
    forall|i: int|
        0 <= i < bars.len() ==> {
            &&& (#[trigger] bars[i]).in_range()
            &&& follows(marker_after(last, bars.take(i)), bars[i].open_time)
        }
}

/// The number of ticks among `bars` that open a new bar, when fed after a
/// bar with marker `last`.
pub open spec fn bars_opened(last: Option<Timestamp>, bars: Seq<Bar>) -> nat
    decreases bars.len(),
{
    if bars.len() == 0 {
        0
    } else {
        let before = bars.drop_last();
        let opens: nat = if is_advance(marker_after(last, before), bars.last().open_time) {
            1
        } else {
            0
        };
        bars_opened(last, before) + opens
    }
}

/// The ticks of `ticks` that close a bar: of each run of ticks that share
/// a marker, the last one.
pub open spec fn closing_ticks(ticks: Seq<Bar>) -> Seq<Bar>
    decreases ticks.len(),
{
    if ticks.len() == 0 {
        ticks
    } else {
        let before = ticks.drop_last();
        let closed = closing_ticks(before);
        if before.len() > 0 && before.last().open_time == ticks.last().open_time {
            closed.drop_last().push(ticks.last())
        } else {
            closed.push(ticks.last())
        }
    }
}

/// The smaller of two counts.
pub open spec fn at_most(count: nat, limit: nat) -> nat {
    if count <= limit {
        count
    } else {
        limit
    }
}

/// A state machine driven by bars: the mathematical state of an indicator.
///
/// The proof functions are the laws that every implementation in this
/// crate proves of its `next`: a tick leaves the machine stable and counts
/// toward convergence exactly when it opens a bar; and a tick that shares
/// the marker of the tick before it replaces that tick.
pub trait BarMachine: Sized {
    /// What holds of every reachable state.
    spec fn stable(self) -> bool;

    /// The marker of the current bar.
    spec fn marker(self) -> Option<Timestamp>;

    /// The state after a tick.
    spec fn next(self, bar: Bar) -> Self;

    /// The number of opened bars from which the machine exposes a value.
    spec fn warm_up(self) -> nat;

    /// The bars opened so far, counted up to `warm_up`.
    spec fn progress(self) -> nat;

    /// Whether the machine exposes a value.
    spec fn exposes(self) -> bool;

    /// A stable machine has opened at most `warm_up` bars, and exposes a
    /// value exactly when the warm-up is complete.
    proof fn lemma_stable(self)
        requires
            self.stable(),
        ensures
            self.progress() <= self.warm_up(),
            self.exposes() <==> self.progress() == self.warm_up(),
    ;

    /// A tick keeps the machine stable, makes its marker the current one,
    /// and counts toward the warm-up exactly when it opens a bar.
    proof fn lemma_next(self, bar: Bar)
        requires
            self.stable(),
            bar.in_range(),
            follows(self.marker(), bar.open_time),
        ensures
            self.next(bar).stable(),
            self.next(bar).marker() == Some(bar.open_time),
            self.next(bar).warm_up() == self.warm_up(),
            self.next(bar).progress() == (if is_advance(self.marker(), bar.open_time) {
                at_most(self.progress() + 1, self.warm_up())
            } else {
                self.progress()
            }),
    ;

    /// A tick that shares the marker of the tick before it replaces that
    /// tick: the state is as if only the later tick had been fed.
    proof fn lemma_repaint_replaces(self, earlier: Bar, later: Bar)
        requires
            self.stable(),
            earlier.in_range(),
            later.in_range(),
            follows(self.marker(), earlier.open_time),
            earlier.open_time == later.open_time,
        ensures
            self.next(earlier).next(later) == self.next(later),
    ;
}

/// The state after the ticks of `bars`, fed in order.
pub open spec fn run<M: BarMachine>(machine: M, bars: Seq<Bar>) -> M
    decreases bars.len(),
{
    if bars.len() == 0 {
        machine
    } else {
        run(machine, bars.drop_last()).next(bars.last())
    }
}

/// A feed that is in order stays in order when its last tick is dropped.
pub proof fn lemma_feed_ok_prefix(last: Option<Timestamp>, bars: Seq<Bar>)
    requires
        feed_ok(last, bars),
        bars.len() > 0,
    ensures
        feed_ok(last, bars.drop_last()),
        bars.last().in_range(),
        follows(marker_after(last, bars.drop_last()), bars.last().open_time),
{
    let before = bars.drop_last();
    assert forall|i: int| 0 <= i < before.len() implies {
        &&& (#[trigger] before[i]).in_range()
        &&& follows(marker_after(last, before.take(i)), before[i].open_time)
    } by {
        assert(before[i] == bars[i]);
        assert(before.take(i) =~= bars.take(i));
    }
    let n = bars.len() - 1;
    assert(bars[n].in_range());
    assert(bars.take(n) =~= before);
}

/// A feed in order, extended by a tick in range that does not go back, is
/// in order.
pub proof fn lemma_feed_ok_push(last: Option<Timestamp>, bars: Seq<Bar>, bar: Bar)
    requires
        feed_ok(last, bars),
        bar.in_range(),
        follows(marker_after(last, bars), bar.open_time),
    ensures
        feed_ok(last, bars.push(bar)),
{
    let all = bars.push(bar);
    assert forall|i: int| 0 <= i < all.len() implies {
        &&& (#[trigger] all[i]).in_range()
        &&& follows(marker_after(last, all.take(i)), all[i].open_time)
    } by {
        if i < bars.len() {
            assert(all[i] == bars[i]);
            assert(all.take(i) =~= bars.take(i));
        } else {
            assert(all.take(i) =~= bars);
        }
    }
}

/// Feeding a feed in order keeps the machine stable, leaves the marker of
/// the last tick, and advances the warm-up by the bars opened.
pub proof fn lemma_run<M: BarMachine>(machine: M, bars: Seq<Bar>)
    requires
        machine.stable(),
        feed_ok(machine.marker(), bars),
    ensures
        run(machine, bars).stable(),
        run(machine, bars).marker() == marker_after(machine.marker(), bars),
        run(machine, bars).warm_up() == machine.warm_up(),
        run(machine, bars).progress() == at_most(
            machine.progress() + bars_opened(machine.marker(), bars),
            machine.warm_up(),
        ),
        run(machine, bars).exposes() <==> machine.progress() + bars_opened(
            machine.marker(),
            bars,
        ) >= machine.warm_up(),
    decreases bars.len(),
{
    if bars.len() == 0 {
        machine.lemma_stable();
    } else {
        let before = bars.drop_last();
        lemma_feed_ok_prefix(machine.marker(), bars);
        lemma_run(machine, before);
        let state = run(machine, before);
        state.lemma_stable();
        state.lemma_next(bars.last());
        state.next(bars.last()).lemma_stable();
    }
}

/// Convergence timing: a machine that has opened no bar exposes a value
/// after a feed exactly when the feed opened at least `warm_up` bars.
pub proof fn lemma_exposes_after_warm_up<M: BarMachine>(machine: M, bars: Seq<Bar>)
    requires
        machine.stable(),
        machine.progress() == 0,
        feed_ok(machine.marker(), bars),
    ensures
        run(machine, bars).exposes() <==> bars_opened(machine.marker(), bars)
            >= machine.warm_up(),
{
    lemma_run(machine, bars);
}

/// Feeding one feed after another is feeding their concatenation.
pub proof fn lemma_run_concat<M: BarMachine>(machine: M, first: Seq<Bar>, second: Seq<Bar>)
    ensures
        run(machine, first + second) == run(run(machine, first), second),
    decreases second.len(),
{
    if second.len() == 0 {
        assert(first + second =~= first);
    } else {
        lemma_run_concat(machine, first, second.drop_last());
        assert((first + second).drop_last() =~= first + second.drop_last());
    }
}

/// Copy independence: a copy of a machine ends, on any feed, exactly
/// where the machine itself would have ended on that feed, whatever the
/// machine is fed in the meantime; and the same with the two exchanged.
pub proof fn lemma_copy_is_independent<M: BarMachine>(
    machine: M,
    copy: M,
    to_machine: Seq<Bar>,
    to_copy: Seq<Bar>,
)
    requires
        copy == machine,
    ensures
        run(copy, to_copy) == run(machine, to_copy),
        run(machine, to_machine) == run(copy, to_machine),
{
}

/// Whether every tick of `ticks` is in range and carries the marker
/// `marker`.
pub open spec fn ticks_of_bar(ticks: Seq<Bar>, marker: Timestamp) -> bool {
    forall|i: int|
        0 <= i < ticks.len() ==> (#[trigger] ticks[i]).in_range() && ticks[i].open_time == marker
}

/// The ticks of one bar collapse: after any number of ticks that share a
/// marker, the machine is as if only the last of them had been fed.
pub proof fn lemma_ticks_collapse<M: BarMachine>(machine: M, ticks: Seq<Bar>)
    requires
        machine.stable(),
        ticks.len() > 0,
        ticks_of_bar(ticks, ticks.last().open_time),
        follows(machine.marker(), ticks.last().open_time),
    ensures
        run(machine, ticks) == machine.next(ticks.last()),
    decreases ticks.len(),
{
    let before = ticks.drop_last();
    if before.len() == 0 {
        assert(run(machine, before) == machine);
    } else {
        assert forall|i: int| 0 <= i < before.len() implies (#[trigger] before[i]).in_range()
            && before[i].open_time == before.last().open_time by {
            assert(before[i] == ticks[i]);
        }
        lemma_ticks_collapse(machine, before);
        machine.lemma_repaint_replaces(before.last(), ticks.last());
    }
}

/// Repaint idempotence: after a feed, repainting its last bar any number
/// of times and then repainting it back to the tick it had leaves the
/// machine exactly as the feed alone left it.
pub proof fn lemma_repaint_idempotent<M: BarMachine>(machine: M, bars: Seq<Bar>, repaints: Seq<Bar>)
    requires
        machine.stable(),
        bars.len() > 0,
        feed_ok(machine.marker(), bars),
        ticks_of_bar(repaints, bars.last().open_time),
    ensures
        run(run(machine, bars), repaints.push(bars.last())) == run(machine, bars),
{
    let before = bars.drop_last();
    let closing = bars.last();
    lemma_feed_ok_prefix(machine.marker(), bars);
    lemma_run(machine, before);
    let state = run(machine, before);
    // From `state`, the last tick of the feed, the repaints and that tick
    // again are ticks of one bar.
    let ticks = seq![closing] + repaints.push(closing);
    assert forall|i: int| 0 <= i < ticks.len() implies (#[trigger] ticks[i]).in_range()
        && ticks[i].open_time == closing.open_time by {
        if 0 < i && i < ticks.len() - 1 {
            assert(ticks[i] == repaints[i - 1]);
        }
    }
    lemma_ticks_collapse(state, ticks);
    lemma_run_concat(state, seq![closing], repaints.push(closing));
    assert(seq![closing].drop_last() =~= Seq::<Bar>::empty());
    assert(run(state, Seq::<Bar>::empty()) == state);
    assert(seq![closing].last() == closing);
    assert(run(state, seq![closing]) == state.next(closing));
}

/// The closing ticks of a non-empty feed end with its last tick, and a
/// feed in order has closing ticks in order.
pub proof fn lemma_closing_ticks_ok(last: Option<Timestamp>, ticks: Seq<Bar>)
    requires
        feed_ok(last, ticks),
    ensures
        feed_ok(last, closing_ticks(ticks)),
        ticks.len() > 0 ==> closing_ticks(ticks).len() > 0 && closing_ticks(ticks).last()
            == ticks.last(),
        ticks.len() == 0 ==> closing_ticks(ticks).len() == 0,
        marker_after(last, closing_ticks(ticks)) == marker_after(last, ticks),
    decreases ticks.len(),
{
    if ticks.len() > 0 {
        let before = ticks.drop_last();
        let closed = closing_ticks(before);
        lemma_feed_ok_prefix(last, ticks);
        lemma_closing_ticks_ok(last, before);
        if before.len() > 0 && before.last().open_time == ticks.last().open_time {
            lemma_feed_ok_prefix(last, closed);
            lemma_feed_ok_prefix(last, before);
            // The tick that replaces the last closing tick follows what
            // that tick followed.
            assert(follows(
                marker_after(last, closed.drop_last()),
                ticks.last().open_time,
            ));
            lemma_feed_ok_push(last, closed.drop_last(), ticks.last());
        } else {
            lemma_feed_ok_push(last, closed, ticks.last());
        }
    }
}

/// Tick equivalence: feeding every tick of a feed leaves the machine
/// exactly as feeding only the closing tick of each bar does.
pub proof fn lemma_ticks_equal_closing_ticks<M: BarMachine>(machine: M, ticks: Seq<Bar>)
    requires
        machine.stable(),
        feed_ok(machine.marker(), ticks),
    ensures
        run(machine, ticks) == run(machine, closing_ticks(ticks)),
    decreases ticks.len(),
{
    if ticks.len() > 0 {
        let before = ticks.drop_last();
        let closed = closing_ticks(before);
        let last = ticks.last();
        lemma_feed_ok_prefix(machine.marker(), ticks);
        lemma_ticks_equal_closing_ticks(machine, before);
        lemma_closing_ticks_ok(machine.marker(), before);
        if before.len() > 0 && before.last().open_time == last.open_time {
            let kept = closed.drop_last();
            lemma_feed_ok_prefix(machine.marker(), closed);
            lemma_run(machine, kept);
            let state = run(machine, kept);
            state.lemma_repaint_replaces(before.last(), last);
            assert(kept.push(last).drop_last() =~= kept);
        } else {
            assert(closed.push(last).drop_last() =~= closed);
        }
    }
}

} // verus!
