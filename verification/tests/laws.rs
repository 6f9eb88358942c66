use quantedge_ta::{
    Bar, Bb, BbConfig, BbValue, Ema, EmaConfig, Length, Price, PriceSource, Rsi, RsiConfig, Sma,
    SmaConfig, StdDev, ONE,
};

fn nz(n: usize) -> Length {
    Length::new(n).unwrap()
}

/// A deterministic stream of pseudo-random numbers.
struct Lcg(u64);

impl Lcg {
    fn next(&mut self) -> u64 {
        self.0 = self.0.wrapping_mul(6364136223846793005).wrapping_add(1442695040888963407);
        self.0 >> 33
    }

    /// A price between 50 and 150 with a fraction.
    fn price(&mut self) -> Price {
        50 * ONE + (self.next() as Price % (100 * ONE))
    }

    /// A bar around a random price, at the given marker.
    fn bar(&mut self, time: u64) -> Bar {
        let a = self.price();
        let b = self.price();
        let c = self.price();
        let d = self.price();
        let high = a.max(b).max(c).max(d);
        let low = a.min(b).min(c).min(d);
        Bar::new(a, high, low, d, time)
    }
}

/// One of each indicator, fed the same ticks.
struct Bench {
    sma: Sma,
    ema: Ema,
    enforced: Ema,
    bb: Bb,
    rsi: Rsi,
}

type Outputs = (Option<Price>, Option<Price>, Option<Price>, Option<BbValue>, Option<Price>);

impl Bench {
    fn new(length: usize, source: PriceSource) -> Self {
        Bench {
            sma: Sma::new(SmaConfig::builder().length(nz(length)).source(source).build()),
            ema: Ema::new(EmaConfig::builder().length(nz(length)).source(source).build()),
            enforced: Ema::new(
                EmaConfig::builder()
                    .length(nz(length))
                    .source(source)
                    .enforce_convergence(true)
                    .build(),
            ),
            bb: Bb::new(
                BbConfig::builder()
                    .length(nz(length))
                    .source(source)
                    .std_dev(StdDev::new(3 * ONE / 2))
                    .build(),
            ),
            rsi: Rsi::new(RsiConfig::builder().length(nz(length)).source(source).build()),
        }
    }

    fn compute(&mut self, bar: &Bar) -> Outputs {
        assert!(self.sma.accepts(bar));
        assert!(self.ema.accepts(bar));
        assert!(self.bb.accepts(bar));
        assert!(self.rsi.accepts(bar));
        let out = (
            self.sma.compute(bar),
            self.ema.compute(bar),
            self.enforced.compute(bar),
            self.bb.compute(bar),
            self.rsi.compute(bar),
        );
        assert_eq!(out, self.value());
        out
    }

    fn value(&self) -> Outputs {
        (
            self.sma.value(),
            self.ema.value(),
            self.enforced.value(),
            self.bb.value(),
            self.rsi.value(),
        )
    }

    fn fork(&self) -> Self {
        Bench {
            sma: self.sma.clone(),
            ema: self.ema.clone(),
            enforced: self.enforced.clone(),
            bb: self.bb.clone(),
            rsi: self.rsi.clone(),
        }
    }
}

const SOURCES: [PriceSource; 9] = [
    PriceSource::Open,
    PriceSource::High,
    PriceSource::Close,
    PriceSource::Low,
    PriceSource::HL2,
    PriceSource::HLC3,
    PriceSource::OHLC4,
    PriceSource::HLCC4,
    PriceSource::TrueRange,
];

#[test]
fn convergence_timing() {
    for length in [1usize, 2, 3, 5, 8] {
        let mut rng = Lcg(length as u64);
        let mut bench = Bench::new(length, PriceSource::Close);
        assert_eq!(bench.value(), (None, None, None, None, None));
        // Markers with gaps; every bar is repainted twice.
        for opened in 1..=(4 * length + 6) {
            for _ in 0..3 {
                let (sma, ema, enforced, bb, rsi) = bench.compute(&rng.bar(10 * opened as u64));
                assert_eq!(sma.is_some(), opened >= length);
                assert_eq!(bb.is_some(), opened >= length);
                assert_eq!(ema.is_some(), opened >= length);
                assert_eq!(enforced.is_some(), opened >= 3 * (length + 1));
                assert_eq!(rsi.is_some(), opened >= length + 1);
            }
        }
    }
}

#[test]
fn repaint_idempotence() {
    for source in SOURCES {
        for length in [1usize, 2, 3, 4] {
            let mut rng = Lcg(7 + length as u64);
            let mut single = Bench::new(length, source);
            let mut repainted = Bench::new(length, source);
            for time in 1..=40u64 {
                let first = rng.bar(time);
                let expected = single.compute(&first);
                assert_eq!(repainted.compute(&first), expected);
                for _ in 0..(time % 4) {
                    repainted.compute(&rng.bar(time));
                }
                // Back to the first tick: exactly the single-pass value.
                assert_eq!(repainted.compute(&first), expected);
            }
        }
    }
}

#[test]
fn partial_ticks_equal_final_tick() {
    for source in SOURCES {
        let mut rng = Lcg(99);
        let mut closed = Bench::new(3, source);
        let mut live = Bench::new(3, source);
        for time in 0..60u64 {
            let last = rng.bar(time);
            let open_only = Bar::new(last.open, last.open, last.open, last.open, time);
            let midpoint = Bar::new(
                last.open,
                (last.open + last.high) / 2,
                (last.open + last.low) / 2,
                (last.open + last.close) / 2,
                time,
            );
            let expected = closed.compute(&last);
            live.compute(&open_only);
            live.compute(&midpoint);
            live.compute(&last);
            assert_eq!(live.compute(&last), expected);
        }
    }
}

#[test]
fn clone_independence() {
    let mut rng = Lcg(5);
    let prefix: Vec<Bar> = (1..=7u64).map(|t| rng.bar(t)).collect();
    let left: Vec<Bar> = (8..=20u64).map(|t| rng.bar(t)).collect();
    let right: Vec<Bar> = (7..=25u64).map(|t| rng.bar(t)).collect();

    let mut parent = Bench::new(3, PriceSource::HLC3);
    for b in &prefix {
        parent.compute(b);
    }
    let mut copy = parent.fork();
    assert_eq!(copy.value(), parent.value());

    // Each side alone, from scratch.
    let mut left_alone = Bench::new(3, PriceSource::HLC3);
    let mut right_alone = Bench::new(3, PriceSource::HLC3);
    for b in &prefix {
        left_alone.compute(b);
        right_alone.compute(b);
    }

    // Interleave the two diverging feeds.
    for i in 0..right.len() {
        if i < left.len() {
            assert_eq!(parent.compute(&left[i]), left_alone.compute(&left[i]));
        }
        assert_eq!(copy.compute(&right[i]), right_alone.compute(&right[i]));
    }
    assert_ne!(parent.value(), copy.value());
}

#[test]
fn rsi_stays_between_0_and_100() {
    for length in [1usize, 2, 5, 14] {
        let mut rng = Lcg(1000 + length as u64);
        let mut rsi = Rsi::new(RsiConfig::close(nz(length)));
        for time in 0..300u64 {
            let mut bar = rng.bar(time / 2);
            if time % 50 < 10 {
                // A flat stretch now and then.
                bar.close = 77 * ONE;
            }
            if let Some(value) = rsi.compute(&bar) {
                assert!(0 <= value && value <= 100 * ONE, "RSI out of bounds: {value}");
            }
        }
    }
}

#[test]
fn flat_prices_give_exactly_50() {
    for source in SOURCES {
        for length in [1usize, 3, 14] {
            let mut rsi = Rsi::new(RsiConfig::builder().length(nz(length)).source(source).build());
            let p = 123 * ONE + 4567;
            for time in 0..(3 * length as u64 + 5) {
                for _ in 0..2 {
                    let out = rsi.compute(&Bar::new(p, p, p, p, time));
                    assert_eq!(out.is_some(), time as usize >= length);
                    if let Some(value) = out {
                        assert_eq!(value, 50 * ONE);
                    }
                }
            }
        }
    }
}

#[test]
fn enforced_and_free_ema_agree_once_both_expose() {
    let mut rng = Lcg(31);
    let mut bench = Bench::new(4, PriceSource::OHLC4);
    for time in 1..=40u64 {
        let (_, free, enforced, _, _) = bench.compute(&rng.bar(time));
        if enforced.is_some() {
            assert_eq!(free, enforced);
        }
    }
    assert!(bench.value().2.is_some());
}

#[test]
fn accepts_tests_range_and_order() {
    let mut sma = Sma::new(SmaConfig::close(nz(2)));
    assert_eq!(sma.last_open_time(), None);
    assert!(sma.accepts(&Bar::new(0, 0, 0, 0, 0)));
    sma.compute(&Bar::new(0, 0, 0, 0, 5));
    assert_eq!(sma.last_open_time(), Some(5));
    assert!(sma.accepts(&Bar::new(0, 0, 0, 0, 5)));
    assert!(sma.accepts(&Bar::new(0, 0, 0, 0, 6)));
    assert!(!sma.accepts(&Bar::new(0, 0, 0, 0, 4)));
    assert!(!sma.accepts(&Bar::new(0, 0, 0, ONE << 31, 6)));

    let mut ema = Ema::new(EmaConfig::close(nz(2)));
    let mut bb = Bb::new(BbConfig::close(nz(2)));
    let mut rsi = Rsi::new(RsiConfig::close(nz(2)));
    for t in [3u64, 3, 9] {
        let b = Bar::new(ONE, ONE, ONE, ONE, t);
        ema.compute(&b);
        bb.compute(&b);
        rsi.compute(&b);
        assert_eq!(ema.last_open_time(), Some(t));
        assert_eq!(bb.last_open_time(), Some(t));
        assert_eq!(rsi.last_open_time(), Some(t));
    }
    let back = Bar::new(ONE, ONE, ONE, ONE, 8);
    assert!(!ema.accepts(&back) && !bb.accepts(&back) && !rsi.accepts(&back));
    let wide = Bar::new(ONE << 31, ONE, ONE, ONE, 9);
    assert!(!ema.accepts(&wide) && !bb.accepts(&wide) && !rsi.accepts(&wide));
    let same = Bar::new(ONE, ONE, ONE, ONE, 9);
    assert!(ema.accepts(&same) && bb.accepts(&same) && rsi.accepts(&same));
}
