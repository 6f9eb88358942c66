use quantedge_ta::{Bar, Ema, EmaConfig, Indicator, Length, Price, PriceSource};
use std::collections::HashSet;

const SCALE: f64 = 281474976710656.0;

fn px(x: f64) -> Price {
    (x * SCALE).round() as Price
}

fn fl(p: Price) -> f64 {
    p as f64 / SCALE
}

fn nz(n: usize) -> Length {
    Length::new(n).unwrap()
}

fn assert_approx(actual: f64, expected: f64) {
    assert!(
        (actual - expected).abs() < expected.abs() * 4.0 * f64::EPSILON,
        "assert_approx failed: actual={actual}, expected={expected}, diff={}",
        (actual - expected).abs(),
    );
}

fn bar(close: f64, time: u64) -> Bar {
    Bar::new(px(close), px(close), px(close), px(close), time)
}

fn ohlc(open: f64, high: f64, low: f64, close: f64, time: u64) -> Bar {
    Bar::new(px(open), px(high), px(low), px(close), time)
}

fn ema(length: usize) -> Ema {
    Ema::new(EmaConfig::builder().length(nz(length)).build())
}

fn tr_ema(length: usize) -> Ema {
    Ema::new(
        EmaConfig::builder()
            .length(nz(length))
            .source(PriceSource::TrueRange)
            .build(),
    )
}

#[test]
fn none_during_seeding() {
    let mut ema = ema(3);
    assert_eq!(ema.compute(&bar(10.0, 1)), None);
    assert_eq!(ema.compute(&bar(20.0, 2)), None);
}

#[test]
fn first_value_is_sma_seed() {
    let mut ema = ema(3);
    ema.compute(&bar(2.0, 1));
    ema.compute(&bar(4.0, 2));
    // SMA(3) = (2 + 4 + 6) / 3 = 4.0
    assert_eq!(ema.compute(&bar(6.0, 3)).map(fl), Some(4.0));
}

#[test]
fn repaint_during_seeding() {
    let mut ema = ema(3);
    ema.compute(&bar(2.0, 1));
    ema.compute(&bar(5.0, 1)); // repaint bar 1
    ema.compute(&bar(4.0, 2));
    // SMA seed = (5 + 4 + 6) / 3 = 5.0
    assert_eq!(ema.compute(&bar(6.0, 3)).map(fl), Some(5.0));
}

#[test]
fn applies_formula_after_seed() {
    // EMA(3): α = 2/(3+1) = 0.5
    let mut ema = ema(3);
    ema.compute(&bar(2.0, 1));
    ema.compute(&bar(4.0, 2));
    ema.compute(&bar(6.0, 3)); // seed = 4.0
    // EMA = 8 * 0.5 + 4.0 * 0.5 = 6.0
    assert_eq!(ema.compute(&bar(8.0, 4)).map(fl), Some(6.0));
}

#[test]
fn continues_computation() {
    // EMA(3): α = 0.5
    let mut ema = ema(3);
    ema.compute(&bar(2.0, 1));
    ema.compute(&bar(4.0, 2));
    ema.compute(&bar(6.0, 3)); // seed = 4.0
    ema.compute(&bar(8.0, 4)); // 6.0
    // EMA = 10 * 0.5 + 6.0 * 0.5 = 8.0
    assert_eq!(ema.compute(&bar(10.0, 5)).map(fl), Some(8.0));
}

#[test]
fn constant_input_converges() {
    let mut ema = ema(3);
    for i in 1..=20 {
        ema.compute(&bar(50.0, i));
    }
    assert_eq!(ema.compute(&bar(50.0, 21)).map(fl), Some(50.0));
}

#[test]
fn ema_2_alpha_is_two_thirds() {
    // α = 2/(2+1) = 2/3
    // seed [3, 6] → SMA = 4.5
    // bar 3: 9 * 2/3 + 4.5 * 1/3 = 6 + 1.5 = 7.5
    let mut ema = ema(2);
    ema.compute(&bar(3.0, 1));
    ema.compute(&bar(6.0, 2));
    assert_eq!(ema.compute(&bar(9.0, 3)).map(fl), Some(7.5));
}

#[test]
fn ema_4_alpha_is_two_fifths() {
    // α = 2/(4+1) = 0.4
    // seed [10, 20, 30, 40] → SMA = 25
    // bar 5: 50 * 0.4 + 25 * 0.6 = 20 + 15 = 35
    let mut ema = ema(4);
    ema.compute(&bar(10.0, 1));
    ema.compute(&bar(20.0, 2));
    ema.compute(&bar(30.0, 3));
    ema.compute(&bar(40.0, 4));
    assert_eq!(ema.compute(&bar(50.0, 5)).map(fl), Some(35.0));
}

#[test]
fn recomputes_from_prev_ema() {
    // EMA(3): α = 0.5
    let mut ema = ema(3);
    ema.compute(&bar(2.0, 1));
    ema.compute(&bar(4.0, 2));
    ema.compute(&bar(6.0, 3)); // seed = 4.0
    ema.compute(&bar(8.0, 4)); // EMA = 6.0
    // Repaint bar 4: 12 * 0.5 + 4.0 * 0.5 = 8.0
    assert_eq!(ema.compute(&bar(12.0, 4)).map(fl), Some(8.0));
}

#[test]
fn ema_multiple_repaints_same_bar() {
    let mut ema = ema(3);
    ema.compute(&bar(2.0, 1));
    ema.compute(&bar(4.0, 2));
    ema.compute(&bar(6.0, 3)); // seed = 4.0
    ema.compute(&bar(8.0, 4)); // 6.0
    ema.compute(&bar(10.0, 4)); // 10*0.5 + 4*0.5 = 7.0
    // 12 * 0.5 + 4.0 * 0.5 = 8.0
    assert_eq!(ema.compute(&bar(12.0, 4)).map(fl), Some(8.0));
}

#[test]
fn advance_after_repaint() {
    let mut ema = ema(3);
    ema.compute(&bar(2.0, 1));
    ema.compute(&bar(4.0, 2));
    ema.compute(&bar(6.0, 3)); // seed = 4.0
    ema.compute(&bar(8.0, 4)); // 6.0
    ema.compute(&bar(10.0, 4)); // repaint: 10*0.5 + 4*0.5 = 7.0
    // Advance: prev_ema = 7.0 (repainted value)
    // EMA = 12 * 0.5 + 7.0 * 0.5 = 9.5
    assert_eq!(ema.compute(&bar(12.0, 5)).map(fl), Some(9.5));
}

#[test]
fn ema_mixed_open_and_closed_bars() {
    // EMA(3): α = 0.5
    let mut ema = ema(3);

    // Bar 1: opens at 10, closes at 12
    assert_eq!(ema.compute(&bar(10.0, 1)), None);
    assert_eq!(ema.compute(&bar(12.0, 1)), None);

    // Bar 2: opens at 8, closes at 6
    assert_eq!(ema.compute(&bar(8.0, 2)), None);
    assert_eq!(ema.compute(&bar(6.0, 2)), None);

    // Bar 3: opens at 9 → seed = (12+6+9)/3 = 9.0
    assert_eq!(ema.compute(&bar(9.0, 3)).map(fl), Some(9.0));
    // Bar 3 repaint: seed = (12+6+15)/3 = 11.0
    assert_eq!(ema.compute(&bar(15.0, 3)).map(fl), Some(11.0));

    // Bar 4: 20 * 0.5 + 11.0 * 0.5 = 15.5
    assert_eq!(ema.compute(&bar(20.0, 4)).map(fl), Some(15.5));
    // Bar 4 repaint: 14 * 0.5 + 11.0 * 0.5 = 12.5
    assert_eq!(ema.compute(&bar(14.0, 4)).map(fl), Some(12.5));

    // Bar 5: prev_ema = 12.5
    // 10 * 0.5 + 12.5 * 0.5 = 11.25
    assert_eq!(ema.compute(&bar(10.0, 5)).map(fl), Some(11.25));
}

#[test]
fn first_bar_returns_value() {
    let mut ema = ema(1);
    assert_eq!(ema.compute(&bar(42.0, 1)).map(fl), Some(42.0));
}

#[test]
fn always_equals_latest_price() {
    // EMA(1): α = 2/(1+1) = 1.0
    let mut ema = ema(1);
    ema.compute(&bar(10.0, 1));
    assert_eq!(ema.compute(&bar(20.0, 2)).map(fl), Some(20.0));
    assert_eq!(ema.compute(&bar(5.0, 3)).map(fl), Some(5.0));
}

#[test]
fn ema_uses_configured_source() {
    // EMA(2) HL2: α = 2/3
    let mut ema = Ema::new(
        EmaConfig::builder()
            .length(nz(2))
            .source(PriceSource::HL2)
            .build(),
    );
    // HL2 bar 1: midpoint(20, 10) = 15
    // HL2 bar 2: midpoint(30, 20) = 25
    // SMA seed = (15 + 25) / 2 = 20
    let b1 = ohlc(0.0, 20.0, 10.0, 0.0, 1);
    let b2 = ohlc(0.0, 30.0, 20.0, 0.0, 2);
    ema.compute(&b1);
    assert_eq!(ema.compute(&b2).map(fl), Some(20.0));

    // Post-seed: HL2 bar 3 = midpoint(40, 30) = 35
    // EMA = 35 * 2/3 + 20 * 1/3 = 30
    let b3 = ohlc(0.0, 40.0, 30.0, 0.0, 3);
    assert_eq!(ema.compute(&b3).map(fl), Some(30.0));
}

#[test]
fn returns_value_at_seed_without_enforcement() {
    let mut ema = ema(3);
    ema.compute(&bar(2.0, 1));
    ema.compute(&bar(4.0, 2));
    assert!(ema.compute(&bar(6.0, 3)).is_some());
}

#[test]
fn none_until_converged_when_enforced() {
    let mut ema = Ema::new(
        EmaConfig::builder()
            .length(nz(3))
            .enforce_convergence(true)
            .build(),
    );
    // required_bars = 3 * (3 + 1) = 12
    for i in 1..=11 {
        assert_eq!(ema.compute(&bar(50.0, i)), None, "expected None at bar {i}");
    }
    assert!(ema.compute(&bar(50.0, 12)).is_some());
}

#[test]
fn required_bars_scales_with_length() {
    let c10 = EmaConfig::builder()
        .length(nz(10))
        .enforce_convergence(true)
        .build();
    assert_eq!(c10.required_bars_to_converge(), 33);

    let c50 = EmaConfig::builder()
        .length(nz(50))
        .enforce_convergence(true)
        .build();
    assert_eq!(c50.required_bars_to_converge(), 153);
}

#[test]
fn values_match_with_and_without_enforcement() {
    let mut free = Ema::new(EmaConfig::builder().length(nz(3)).build());
    let mut enforced = Ema::new(
        EmaConfig::builder()
            .length(nz(3))
            .enforce_convergence(true)
            .build(),
    );

    for i in 1..=20 {
        free.compute(&bar(i as f64 * 10.0, i));
        enforced.compute(&bar(i as f64 * 10.0, i));
    }

    let f = free.compute(&bar(210.0, 21));
    let e = enforced.compute(&bar(210.0, 21));
    assert_eq!(f, e);
}

#[test]
fn ema_produces_independent_state() {
    let mut ema = ema(3);
    ema.compute(&bar(2.0, 1));
    ema.compute(&bar(4.0, 2));
    ema.compute(&bar(6.0, 3)); // seed = 4.0

    let mut cloned = ema.clone();

    // Advance the first instance past seed
    assert_eq!(ema.compute(&bar(8.0, 4)).map(fl), Some(6.0));

    // Clone still at seed value
    assert_eq!(cloned.value().map(fl), Some(4.0));

    // Clone advances independently
    assert_eq!(cloned.compute(&bar(20.0, 4)).map(fl), Some(12.0));
}

#[test]
fn ema_default_source_is_close() {
    let config = EmaConfig::builder().length(nz(10)).build();
    assert_eq!(*config.source(), PriceSource::Close);
}

#[test]
fn convergence_disabled_by_default() {
    let config = EmaConfig::builder().length(nz(10)).build();
    assert!(!config.enforce_convergence());
}

#[test]
fn custom_source() {
    let config = EmaConfig::builder()
        .length(nz(10))
        .source(PriceSource::HL2)
        .build();
    assert_eq!(*config.source(), PriceSource::HL2);
}

#[test]
fn close_helper() {
    let config = EmaConfig::close(nz(20));
    assert_eq!(config.length(), 20);
    assert_eq!(*config.source(), PriceSource::Close);
}

#[test]
fn hl2_helper() {
    let config = EmaConfig::hl2(nz(10));
    assert_eq!(config.length(), 10);
    assert_eq!(*config.source(), PriceSource::HL2);
}

#[test]
fn ohlc4_helper() {
    let config = EmaConfig::ohlc4(nz(10));
    assert_eq!(config.length(), 10);
    assert_eq!(*config.source(), PriceSource::OHLC4);
}

#[test]
fn ema_eq_and_hash() {
    let a = EmaConfig::close(nz(20));
    let b = EmaConfig::close(nz(20));
    let c = EmaConfig::close(nz(10));

    let mut set = HashSet::new();
    set.insert(a);

    assert!(set.contains(&b));
    assert!(!set.contains(&c));
}

#[test]
fn ema_formats_correctly() {
    let ema = ema(20);
    assert_eq!(ema.to_string(), "EMA(20, Close)");
}

#[test]
fn ema_config_formats_correctly() {
    let config = EmaConfig::close(nz(20));
    assert_eq!(config.to_string(), "EmaConfig(20, Close)");
}

#[test]
fn seeds_with_true_range_sma() {
    // EMA(2) on TrueRange, α = 2/3
    let mut ema = tr_ema(2);
    ema.compute(&ohlc(10.0, 20.0, 5.0, 15.0, 1)); // TR=15
    // TR2: hl=10, |22-15|=7, |12-15|=3 → 10
    // SMA seed = (15 + 10) / 2 = 12.5
    assert_eq!(ema.compute(&ohlc(16.0, 22.0, 12.0, 18.0, 2)).map(fl), Some(12.5));
}

#[test]
fn applies_ema_after_seed() {
    // EMA(2) on TrueRange, α = 2/3
    let mut ema = tr_ema(2);
    ema.compute(&ohlc(10.0, 20.0, 5.0, 15.0, 1)); // TR=15
    ema.compute(&ohlc(16.0, 22.0, 12.0, 18.0, 2)); // seed=12.5
    // TR3: hl=8, |28-18|=10, |20-18|=2 → 10
    // EMA = 10 * 2/3 + 12.5 * 1/3 = 10.833...
    let result = ema.compute(&ohlc(23.0, 28.0, 20.0, 25.0, 3)).unwrap();
    let expected = 10.0 * (2.0 / 3.0) + 12.5 * (1.0 / 3.0);
    assert_approx(fl(result), expected);
}

#[test]
fn ema_none_before_convergence() {
    let ema = ema(3);
    assert_eq!(ema.value(), None);
}

#[test]
fn ema_returns_current_value() {
    let mut ema = ema(3);
    ema.compute(&bar(2.0, 1));
    ema.compute(&bar(4.0, 2));
    ema.compute(&bar(6.0, 3)); // seed = 4.0
    assert_eq!(ema.value().map(fl), Some(4.0));
}

#[test]
fn ema_matches_last_compute() {
    let mut ema = ema(3);
    ema.compute(&bar(2.0, 1));
    ema.compute(&bar(4.0, 2));
    ema.compute(&bar(6.0, 3));
    let computed = ema.compute(&bar(8.0, 4));
    assert_eq!(ema.value(), computed);
}

#[test]
fn none_during_convergence_enforcement() {
    let mut ema = Ema::new(
        EmaConfig::builder()
            .length(nz(3))
            .enforce_convergence(true)
            .build(),
    );
    for i in 1..=5 {
        ema.compute(&bar(50.0, i));
    }
    // Required bars = 12, only fed 5
    assert_eq!(ema.value(), None);
}

#[test]
fn ema_without_indicator_import() {
    let mut ema = Ema::new(EmaConfig::close(nz(2)));
    assert_eq!(ema.compute(&bar(10.0, 1)), None);
    assert!(ema.compute(&bar(20.0, 2)).is_some());
    assert!(ema.value().is_some());
}

// Scenarios and edge cases.

#[test]
fn ema_3_over_four_closes() {
    let mut ema = ema(3);
    assert_eq!(ema.compute(&bar(2.0, 1)), None);
    assert_eq!(ema.compute(&bar(4.0, 2)), None);
    assert_eq!(ema.compute(&bar(6.0, 3)).map(fl), Some(4.0));
    assert_eq!(ema.compute(&bar(8.0, 4)).map(fl), Some(6.0));
}

#[test]
fn ema_step_rounds_down() {
    // EMA(2), raw values: seed (1 + 1) / 2 = 1, then (2 * 3 + 1 * 1) / 3 = 2.33 -> 2
    let mut ema = ema(2);
    ema.compute(&Bar::new(0, 0, 0, 1, 1));
    assert_eq!(ema.compute(&Bar::new(0, 0, 0, 1, 2)), Some(1));
    assert_eq!(ema.compute(&Bar::new(0, 0, 0, 3, 3)), Some(2));
    // (2 * -4 + 1 * 2) / 3 = -2 exactly; (2 * -5 + 2) / 3 = -2.67 -> -3
    assert_eq!(ema.compute(&Bar::new(0, 0, 0, -4, 4)), Some(-2));
    assert_eq!(ema.compute(&Bar::new(0, 0, 0, -5, 4)), Some(-3));
}

#[test]
fn enforced_ema_exposes_from_bar_3n_plus_3() {
    // EMA(2): required bars = 9
    let config = EmaConfig::builder().length(nz(2)).enforce_convergence(true).build();
    assert_eq!(config.required_bars_to_converge(), 9);
    let mut enforced = Ema::new(config);
    let mut free = ema(2);
    for i in 1..=8u64 {
        let b = bar(i as f64, i);
        // A repaint never counts as a bar.
        assert_eq!(enforced.compute(&b), None);
        assert_eq!(enforced.compute(&b), None);
        free.compute(&b);
    }
    let b = bar(9.0, 9);
    let exposed = enforced.compute(&b);
    assert!(exposed.is_some());
    assert_eq!(exposed, free.compute(&b));
}

#[test]
fn ema_repaint_of_last_seed_bar_then_smoothing() {
    let mut repainted = ema(2);
    repainted.compute(&bar(3.0, 1));
    repainted.compute(&bar(5.0, 2));
    repainted.compute(&bar(9.0, 2));
    repainted.compute(&bar(6.0, 2)); // seed = 4.5
    let mut direct = ema(2);
    direct.compute(&bar(3.0, 1));
    direct.compute(&bar(6.0, 2));
    assert_eq!(repainted.value(), direct.value());
    assert_eq!(repainted.compute(&bar(9.0, 3)), direct.compute(&bar(9.0, 3)));
    assert_eq!(direct.value().map(fl), Some(7.5));
}

#[test]
fn ema_through_the_indicator_trait() {
    let mut ema = <Ema as Indicator>::new(EmaConfig::close(nz(1)));
    assert_eq!(Indicator::value(&ema), None);
    assert_eq!(Indicator::compute(&mut ema, &bar(3.0, 1)).map(fl), Some(3.0));
    assert_eq!(Indicator::value(&ema).map(fl), Some(3.0));
}
