use supertrend::{Bar, IndicatorError, SimpleMovingAverage, Supertrend, TrueRange};

fn bar(high: i64, low: i64, close: i64) -> Bar {
    Bar::new(high, low, close)
}

#[test]
fn first_bar_gives_candidate_bands_and_uptrend() {
    let mut st = Supertrend::new(3, 2000).unwrap();
    // mid 100, true range 20, volatility 20, offset 40
    assert_eq!(st.next(&bar(110, 90, 100)), (60, 140, 1));
}

#[test]
fn first_bar_after_reset_is_first_again() {
    let mut st = Supertrend::new(2, 1000).unwrap();
    st.next(&bar(10, 8, 9));
    st.next(&bar(4, 2, 3));
    st.reset();
    assert_eq!(st.next(&bar(110, 90, 100)), (80, 120, 1));
}

#[test]
fn concrete_scenario_in_half_units() {
    // prices doubled: (10, 8, 9), (11, 9, 10.5), (12, 10, 11); period 1, multiplier 1
    let mut st = Supertrend::new(1, 1000).unwrap();
    assert_eq!(st.next(&bar(20, 16, 18)), (14, 22, 1));
    assert_eq!(st.next(&bar(22, 18, 21)), (16, 22, 1));
    assert_eq!(st.next(&bar(24, 20, 22)), (18, 22, 1));
}

#[test]
fn up_band_holds_while_close_stays_above() {
    let mut st = Supertrend::new(1, 1000).unwrap();
    assert_eq!(st.next(&bar(10, 8, 9)), (7, 11, 1));
    // candidate up band falls to 5, the band stays at 7
    assert_eq!(st.next(&bar(10, 7, 9)), (7, 11, 1));
    // candidate up band rises to 8
    assert_eq!(st.next(&bar(11, 9, 10)), (8, 11, 1));
}

#[test]
fn down_band_holds_while_close_stays_below() {
    let mut st = Supertrend::new(1, 1000).unwrap();
    assert_eq!(st.next(&bar(10, 8, 9)), (7, 11, 1));
    // candidate down band rises to 13, the band stays at 11
    assert_eq!(st.next(&bar(11, 9, 10)), (8, 11, 1));
}

#[test]
fn trend_flips_down_then_up() {
    let mut st = Supertrend::new(1, 1000).unwrap();
    assert_eq!(st.next(&bar(10, 8, 9)), (7, 11, 1));
    // close 3 falls below the previous up band 7
    assert_eq!(st.next(&bar(4, 2, 3)), (7, 10, -1));
    // close 19 rises above the previous down band 10
    assert_eq!(st.next(&bar(20, 18, 19)), (2, 10, 1));
}

#[test]
fn downtrend_does_not_flip_below_down_band() {
    let mut st = Supertrend::new(1, 1000).unwrap();
    st.next(&bar(10, 8, 9));
    assert_eq!(st.next(&bar(4, 2, 3)).2, -1);
    // close 5 rises above the up band but not above the down band 10
    assert_eq!(st.next(&bar(6, 4, 5)).2, -1);
}

#[test]
fn replay_after_reset_is_identical() {
    let bars = [bar(10, 8, 9), bar(4, 2, 3), bar(20, 18, 19), bar(21, 17, 18), bar(15, 11, 12)];
    let mut st = Supertrend::new(3, 2500).unwrap();
    let first: Vec<(i128, i128, i64)> = bars.iter().map(|b| st.next(b)).collect();
    st.reset();
    let second: Vec<(i128, i128, i64)> = bars.iter().map(|b| st.next(b)).collect();
    let mut fresh = Supertrend::new(3, 2500).unwrap();
    let third: Vec<(i128, i128, i64)> = bars.iter().map(|b| fresh.next(b)).collect();
    assert_eq!(first, second);
    assert_eq!(first, third);
}

#[test]
fn partial_window_mean_over_values_seen() {
    let mut sma = SimpleMovingAverage::new(5).unwrap();
    assert_eq!(sma.next(2), 2);
    assert_eq!(sma.next(4), 3);
    // 15 / 3, not 15 / 5
    assert_eq!(sma.next(9), 5);
}

#[test]
fn partial_window_volatility_in_indicator() {
    let mut st = Supertrend::new(5, 1000).unwrap();
    // true ranges 2, 4, 9: means 2, 3, 5
    assert_eq!(st.next(&bar(10, 8, 9)), (7, 11, 1));
    assert_eq!(st.next(&bar(11, 7, 9)), (7, 11, 1));
    // mean 15 / 3 = 5: candidate up 8; a mean over 5 would give 10
    assert_eq!(st.next(&bar(18, 9, 10)), (8, 11, 1));
}

#[test]
fn full_window_drops_oldest() {
    let mut sma = SimpleMovingAverage::new(2).unwrap();
    assert_eq!(sma.next(2), 2);
    assert_eq!(sma.next(4), 3);
    assert_eq!(sma.next(9), 6);
    sma.reset();
    assert_eq!(sma.next(7), 7);
}

#[test]
fn moving_average_of_largest_values() {
    let mut sma = SimpleMovingAverage::new(3).unwrap();
    assert_eq!(sma.next(u64::MAX), u64::MAX);
    assert_eq!(sma.next(u64::MAX), u64::MAX);
    assert_eq!(sma.next(u64::MAX), u64::MAX);
    assert_eq!(sma.next(u64::MAX), u64::MAX);
}

#[test]
fn period_zero_is_invalid() {
    assert!(matches!(Supertrend::new(0, 3000), Err(IndicatorError::InvalidParameter)));
    assert!(matches!(SimpleMovingAverage::new(0), Err(IndicatorError::InvalidParameter)));
}

#[test]
fn non_positive_multiplier_is_invalid() {
    assert!(matches!(Supertrend::new(10, 0), Err(IndicatorError::InvalidParameter)));
    assert!(matches!(Supertrend::new(10, -3000), Err(IndicatorError::InvalidParameter)));
    assert!(Supertrend::new(1, 1).is_ok());
}

#[test]
fn default_uses_period_ten_and_multiplier_three() {
    let bars = [bar(10, 8, 9), bar(4, 2, 3), bar(20, 18, 19)];
    let mut a = Supertrend::default();
    let mut b = Supertrend::new(10, 3000).unwrap();
    for x in bars.iter() {
        assert_eq!(a.next(x), b.next(x));
    }
    let mut c = Supertrend::default();
    // mid 9, volatility 2, offset 6
    assert_eq!(c.next(&bar(10, 8, 9)), (3, 15, 1));
}

#[test]
fn name_is_supertrend() {
    assert_eq!(Supertrend::default().name(), "Supertrend");
}

#[test]
fn midpoint_and_offset_round_down() {
    let mut st = Supertrend::new(1, 1500).unwrap();
    // mid 23 / 2 = 11, offset 3 * 1.5 = 4.5 -> 4
    assert_eq!(st.next(&bar(13, 10, 12)), (7, 15, 1));
    let mut neg = Supertrend::new(1, 1000).unwrap();
    // mid -3 / 2 = -2 rounded down
    assert_eq!(neg.next(&bar(-1, -2, -1)), (-3, -1, 1));
}

#[test]
fn extreme_prices_do_not_overflow() {
    let mut st = Supertrend::new(1, i64::MAX).unwrap();
    let tr: u128 = u64::MAX as u128;
    let off: i128 = (tr * (i64::MAX as u128) / 1000) as i128;
    assert_eq!(st.next(&bar(i64::MAX, i64::MIN, 0)), (-1 - off, -1 + off, 1));
}

#[test]
fn true_range_first_and_later() {
    let mut tr = TrueRange::new();
    assert_eq!(tr.next(&bar(10, 8, 9)), 2);
    assert_eq!(tr.next(&bar(12, 11, 11)), 3);
    assert_eq!(tr.next(&bar(5, 4, 4)), 7);
    tr.reset();
    assert_eq!(tr.next(&bar(5, 4, 4)), 1);
    assert_eq!(tr.next(&bar(i64::MAX, i64::MAX, 0)), (i64::MAX as u64) - 4);
}
