use quantedge_ta::{Bar, Price, PriceSource, PriceWindow, MAX_LENGTH, PRICE_MAX, VALUE_MAX};

const SCALE: f64 = 281474976710656.0;

fn px(x: f64) -> Price {
    (x * SCALE).round() as Price
}

fn fl(p: Price) -> f64 {
    p as f64 / SCALE
}

fn bar(close: f64, time: u64) -> Bar {
    Bar::new(px(close), px(close), px(close), px(close), time)
}

fn ohlc(open: f64, high: f64, low: f64, close: f64, time: u64) -> Bar {
    Bar::new(px(open), px(high), px(low), px(close), time)
}

fn close_window(size: usize) -> PriceWindow {
    PriceWindow::new(size, PriceSource::Close)
}

fn tr_window(size: usize) -> PriceWindow {
    PriceWindow::new(size, PriceSource::TrueRange)
}

#[test]
fn sum_is_none_when_empty() {
    let w = close_window(3);
    assert_eq!(w.sum(), None);
}

#[test]
fn sum_is_none_until_window_full() {
    let mut w = close_window(3);
    w.add(&bar(10.0, 1));
    assert_eq!(w.sum(), None);
    w.add(&bar(20.0, 2));
    assert_eq!(w.sum(), None);
}

#[test]
fn sum_returns_value_when_full() {
    let mut w = close_window(2);
    w.add(&bar(10.0, 1));
    w.add(&bar(20.0, 2));
    assert_eq!(w.sum().map(fl), Some(30.0));
}

#[test]
fn oldest_value_drops_on_advance() {
    let mut w = close_window(2);
    w.add(&bar(10.0, 1));
    w.add(&bar(20.0, 2));
    w.add(&bar(30.0, 3));
    // 10 dropped, 20 + 30 = 50
    assert_eq!(w.sum().map(fl), Some(50.0));
}

#[test]
fn price_window_slides_across_many_bars() {
    let mut w = close_window(2);
    w.add(&bar(1.0, 1));
    w.add(&bar(2.0, 2));
    w.add(&bar(3.0, 3));
    w.add(&bar(4.0, 4));
    w.add(&bar(5.0, 5));
    // 4 + 5 = 9
    assert_eq!(w.sum().map(fl), Some(9.0));
}

#[test]
fn replaces_value_in_unfilled_window() {
    let mut w = close_window(2);
    w.add(&bar(10.0, 1));
    w.add(&bar(15.0, 1)); // same timestamp, repaint
    w.add(&bar(20.0, 2));
    // 15 + 20 = 35
    assert_eq!(w.sum().map(fl), Some(35.0));
}

#[test]
fn sum_stays_none_during_repaint_of_unfilled() {
    let mut w = close_window(3);
    w.add(&bar(10.0, 1));
    w.add(&bar(15.0, 1)); // repaint, still only 1 bar
    assert_eq!(w.sum(), None);
}

#[test]
fn replaces_value_in_full_window() {
    let mut w = close_window(2);
    w.add(&bar(10.0, 1));
    w.add(&bar(20.0, 2));
    assert_eq!(w.sum().map(fl), Some(30.0));

    w.add(&bar(25.0, 2)); // repaint bar 2
    assert_eq!(w.sum().map(fl), Some(35.0));
}

#[test]
fn price_window_multiple_repaints_same_bar() {
    let mut w = close_window(2);
    w.add(&bar(10.0, 1));
    w.add(&bar(20.0, 2));
    w.add(&bar(25.0, 2));
    w.add(&bar(30.0, 2));
    // 10 + 30 = 40
    assert_eq!(w.sum().map(fl), Some(40.0));
}

#[test]
fn first_bar_at_time_zero() {
    let mut w = close_window(2);
    w.add(&bar(10.0, 0));
    w.add(&bar(20.0, 1));
    assert_eq!(w.sum().map(fl), Some(30.0));
}

#[test]
fn repaint_at_time_zero() {
    let mut w = close_window(2);
    w.add(&bar(10.0, 0));
    w.add(&bar(15.0, 0)); // repaint
    w.add(&bar(20.0, 1));
    assert_eq!(w.sum().map(fl), Some(35.0));
}

#[test]
fn ready_after_one_bar() {
    let mut w = close_window(1);
    w.add(&bar(42.0, 1));
    assert_eq!(w.sum().map(fl), Some(42.0));
}

#[test]
fn slides_with_size_one() {
    let mut w = close_window(1);
    w.add(&bar(10.0, 1));
    w.add(&bar(20.0, 2));
    assert_eq!(w.sum().map(fl), Some(20.0));
}

#[test]
fn price_window_first_bar_uses_high_minus_low() {
    let mut w = tr_window(1);
    w.add(&ohlc(10.0, 30.0, 5.0, 20.0, 1));
    // No prev_close, falls back to 30 - 5 = 25
    assert_eq!(w.sum().map(fl), Some(25.0));
}

#[test]
fn uses_prev_close_on_second_bar() {
    let mut w = tr_window(1);
    w.add(&ohlc(10.0, 30.0, 5.0, 20.0, 1));
    w.add(&ohlc(21.0, 25.0, 18.0, 22.0, 2));
    // hl = 7, |25 - 20| = 5, |18 - 20| = 2 → max = 7
    assert_eq!(w.sum().map(fl), Some(7.0));
}

#[test]
fn gap_up_high_vs_prev_close_wins() {
    let mut w = tr_window(1);
    w.add(&ohlc(10.0, 15.0, 5.0, 10.0, 1));
    w.add(&ohlc(25.0, 30.0, 20.0, 28.0, 2));
    // hl = 10, |30 - 10| = 20, |20 - 10| = 10 → max = 20
    assert_eq!(w.sum().map(fl), Some(20.0));
}

#[test]
fn gap_down_low_vs_prev_close_wins() {
    let mut w = tr_window(1);
    w.add(&ohlc(40.0, 50.0, 35.0, 45.0, 1));
    w.add(&ohlc(10.0, 15.0, 5.0, 12.0, 2));
    // hl = 10, |15 - 45| = 30, |5 - 45| = 40 → max = 40
    assert_eq!(w.sum().map(fl), Some(40.0));
}

#[test]
fn prev_close_not_updated_on_repaint() {
    let mut w = tr_window(1);
    w.add(&ohlc(10.0, 15.0, 5.0, 10.0, 1)); // close = 10
    w.add(&ohlc(20.0, 25.0, 18.0, 22.0, 2)); // prev_close = 10
    w.add(&ohlc(20.0, 26.0, 19.0, 24.0, 2)); // repaint, prev_close still 10
    // hl = 7, |26 - 10| = 16, |19 - 10| = 9 → max = 16
    assert_eq!(w.sum().map(fl), Some(16.0));
}

#[test]
fn prev_close_updates_on_advance() {
    let mut w = tr_window(1);
    w.add(&ohlc(10.0, 15.0, 5.0, 10.0, 1)); // close = 10
    w.add(&ohlc(20.0, 25.0, 18.0, 22.0, 2)); // prev_close = 10
    w.add(&ohlc(23.0, 28.0, 20.0, 25.0, 3)); // prev_close = 22 (bar 2's close)
    // hl = 8, |28 - 22| = 6, |20 - 22| = 2 → max = 8
    assert_eq!(w.sum().map(fl), Some(8.0));
}

#[test]
fn sum_accumulates_true_range_values() {
    let mut w = tr_window(2);
    w.add(&ohlc(10.0, 20.0, 5.0, 15.0, 1));
    // TR1 = 15 (hl, no prev_close)
    assert_eq!(w.sum(), None);

    w.add(&ohlc(16.0, 22.0, 12.0, 18.0, 2));
    // hl = 10, |22 - 15| = 7, |12 - 15| = 3 → TR2 = 10
    // sum = 15 + 10 = 25
    assert_eq!(w.sum().map(fl), Some(25.0));
}

#[test]
fn sum_of_squares_follows_the_window() {
    let mut w = PriceWindow::with_sum_of_squares(2, PriceSource::Close);
    assert_eq!(w.sum_of_squares(), None);
    w.add(&bar(3.0, 1));
    assert_eq!(w.sum_of_squares(), None);
    w.add(&bar(5.0, 2));
    // 9 + 25
    assert_eq!(w.sum_of_squares().map(fl), Some(34.0));
    assert_eq!(w.sum().map(fl), Some(8.0));
    w.add(&bar(7.0, 2)); // repaint: 9 + 49
    assert_eq!(w.sum_of_squares().map(fl), Some(58.0));
    w.add(&bar(-2.0, 3)); // advance: 49 + 4
    assert_eq!(w.sum_of_squares().map(fl), Some(53.0));
    assert_eq!(w.sum().map(fl), Some(5.0));
}

#[test]
fn squares_round_down() {
    // 1.5 raw units squared is 2.25 raw units^2 / ONE: far below one raw unit
    let mut w = PriceWindow::with_sum_of_squares(1, PriceSource::Close);
    w.add(&Bar::new(3, 3, 3, 3, 1));
    assert_eq!(w.sum_of_squares(), Some(0));
    // 2^24 raw squared is exactly one raw unit
    let r: Price = 1 << 24;
    w.add(&Bar::new(r, r, r, r, 2));
    assert_eq!(w.sum_of_squares(), Some(1));
    let s: Price = -(1 << 24) - 1;
    w.add(&Bar::new(s, s, s, s, 3));
    assert_eq!(w.sum_of_squares(), Some(1));
}

#[test]
fn window_clone_is_independent() {
    let mut w = close_window(2);
    w.add(&bar(10.0, 1));
    let mut copy = w.clone();
    w.add(&bar(20.0, 2));
    copy.add(&bar(50.0, 2));
    assert_eq!(w.sum().map(fl), Some(30.0));
    assert_eq!(copy.sum().map(fl), Some(60.0));
}

#[test]
fn window_at_the_limits() {
    let mut w = PriceWindow::with_sum_of_squares(MAX_LENGTH, PriceSource::TrueRange);
    for t in 0..MAX_LENGTH as u64 {
        w.add(&Bar::new(0, PRICE_MAX, -PRICE_MAX, 0, t));
    }
    assert_eq!(w.sum(), Some(MAX_LENGTH as Price * VALUE_MAX));
    assert_eq!(w.sum_of_squares(), Some((MAX_LENGTH as Price) << 110));
}
