use ohlc::ohlc::{filter, Opts, BEARISH, BULLISH, OHLC};
use ohlc::price::Price;

fn p(v: f64) -> Price {
    Price { bits: v.to_bits() }
}

fn c(open: f64, high: f64, low: f64, close: f64, ts: u64) -> OHLC {
    OHLC::new(p(open), p(high), p(low), p(close), ts)
}

#[test]
fn test_build_high_below_low_scenario() {
    let result = OHLC::build(p(100.0), p(90.0), p(95.0), p(105.0), 1625097600000);
    assert_eq!(
        result,
        Err(vec![
            "High price must be greater than or equal to low price".to_string(),
        ])
    );
}

#[test]
fn test_build_valid_returns_candle() {
    let result = OHLC::build(p(100.0), p(110.0), p(95.0), p(105.0), 1625097600000);
    assert_eq!(result, Ok(c(100.0, 110.0, 95.0, 105.0, 1625097600000)));
}

#[test]
fn test_with_volume_leaves_original_unchanged() {
    let x = c(100.0, 110.0, 95.0, 105.0, 1625097600);
    let y = x.with_volume(p(12345.0));
    assert_eq!(x, c(100.0, 110.0, 95.0, 105.0, 1625097600));
    assert_eq!(y.vol, Some(p(12345.0)));
    assert_eq!((y.open, y.high, y.low, y.close, y.ts), (x.open, x.high, x.low, x.close, x.ts));
}

#[test]
fn test_validate_open_not_finite() {
    let result = c(f64::NAN, 110.0, 95.0, 105.0, 1).validate();
    assert_eq!(result, Err(vec!["Open price must be finite".to_string()]));
}

#[test]
fn test_validate_high_not_finite() {
    // An infinite high also fails the high >= low comparison? No: with
    // high = +inf, high < low is false, so only the finiteness message
    // appears.
    let result = c(100.0, f64::INFINITY, 95.0, 105.0, 1).validate();
    assert_eq!(result, Err(vec!["High price must be finite".to_string()]));
}

#[test]
fn test_validate_low_not_finite() {
    let result = c(100.0, 110.0, f64::NEG_INFINITY, 105.0, 1).validate();
    assert_eq!(result, Err(vec!["Low price must be finite".to_string()]));
}

#[test]
fn test_validate_close_not_finite() {
    let result = c(100.0, 110.0, 95.0, f64::NAN, 1).validate();
    assert_eq!(result, Err(vec!["Close price must be finite".to_string()]));
}

#[test]
fn test_validate_nan_high_skips_high_low_comparison() {
    // A NaN high compares false against the low, so only the
    // finiteness message is reported, not the high/low one.
    let result = c(100.0, f64::NAN, 95.0, 105.0, 1).validate();
    assert_eq!(result, Err(vec!["High price must be finite".to_string()]));
}

#[test]
fn test_validate_volume_nan() {
    let result = c(100.0, 110.0, 95.0, 105.0, 1)
        .with_volume(p(f64::NAN))
        .validate();
    assert_eq!(
        result,
        Err(vec!["Volume must be non-negative and finite".to_string()])
    );
}

#[test]
fn test_validate_volume_infinite() {
    let result = c(100.0, 110.0, 95.0, 105.0, 1)
        .with_volume(p(f64::INFINITY))
        .validate();
    assert_eq!(
        result,
        Err(vec!["Volume must be non-negative and finite".to_string()])
    );
}

#[test]
fn test_validate_volume_zero_passes() {
    assert_eq!(c(100.0, 110.0, 95.0, 105.0, 1).with_volume(p(0.0)).validate(), Ok(()));
}

#[test]
fn test_validate_volume_negative_zero_passes() {
    // -0.0 is not < 0.0 under float comparison, so it is accepted.
    assert_eq!(c(100.0, 110.0, 95.0, 105.0, 1).with_volume(p(-0.0)).validate(), Ok(()));
}

#[test]
fn test_validate_equal_high_and_low_passes() {
    assert_eq!(c(5.0, 5.0, 5.0, 5.0, 1).validate(), Ok(()));
}

#[test]
fn test_validate_all_rules_at_once() {
    let result = c(f64::NAN, f64::INFINITY, f64::NEG_INFINITY, f64::NAN, 0)
        .with_volume(p(-1.0))
        .validate();
    assert_eq!(
        result,
        Err(vec![
            "Open price must be finite".to_string(),
            "High price must be finite".to_string(),
            "Low price must be finite".to_string(),
            "Close price must be finite".to_string(),
            "Volume must be non-negative and finite".to_string(),
            "Timestamp must be non-zero".to_string(),
        ])
    );
}

#[test]
fn test_validate_negative_prices_pass() {
    assert_eq!(c(-2.0, -1.0, -3.0, -1.5, 1).validate(), Ok(()));
}

#[test]
fn test_direction_negative_prices() {
    assert_eq!(c(-2.0, -1.0, -3.0, -1.0, 1).direction(), BULLISH);
    assert_eq!(c(-1.0, -1.0, -3.0, -2.0, 1).direction(), BEARISH);
}

#[test]
fn test_direction_signed_zeroes_are_equal() {
    // -0.0 == +0.0 under float comparison: neutral both ways round.
    assert_eq!(c(-0.0, 1.0, -1.0, 0.0, 1).direction(), 0);
    assert_eq!(c(0.0, 1.0, -1.0, -0.0, 1).direction(), 0);
}

#[test]
fn test_direction_nan_is_neutral() {
    // Every comparison with a NaN is false, so neither bullish nor
    // bearish applies.
    assert_eq!(c(f64::NAN, 1.0, -1.0, 100.0, 1).direction(), 0);
    assert_eq!(c(100.0, 1.0, -1.0, f64::NAN, 1).direction(), 0);
}

#[test]
fn test_direction_infinities() {
    assert_eq!(c(1.0, 1.0, 1.0, f64::INFINITY, 1).direction(), BULLISH);
    assert_eq!(c(f64::NEG_INFINITY, 1.0, 1.0, 1.0, 1).direction(), BULLISH);
    assert_eq!(c(f64::INFINITY, 1.0, 1.0, f64::NEG_INFINITY, 1).direction(), BEARISH);
    assert_eq!(c(f64::INFINITY, 1.0, 1.0, f64::INFINITY, 1).direction(), 0);
}

#[test]
fn test_filter_bounds_equal_to_timestamp_are_inclusive() {
    let input = vec![c(1.0, 2.0, 0.5, 1.5, 2000)];
    let kept = filter(
        &input,
        Opts {
            exclude_before: Some(2000),
            exclude_after: Some(2000),
        },
    );
    assert_eq!(kept, input);
}

#[test]
fn test_filter_keeps_input_order() {
    // Unsorted timestamps survive in input order: no resorting.
    let input = vec![
        c(1.0, 2.0, 0.5, 1.5, 3000),
        c(1.0, 2.0, 0.5, 1.5, 1000),
        c(1.0, 2.0, 0.5, 1.5, 2000),
    ];
    let kept = filter(
        &input,
        Opts {
            exclude_before: Some(1500),
            exclude_after: None,
        },
    );
    assert_eq!(
        kept,
        vec![c(1.0, 2.0, 0.5, 1.5, 3000), c(1.0, 2.0, 0.5, 1.5, 2000)]
    );
}

#[test]
fn test_price_from_bits_round_trip() {
    let bits = 105.25f64.to_bits();
    assert_eq!(Price::from_bits(bits).bits, bits);
    assert_eq!(f64::from_bits(Price::from_bits(bits).bits), 105.25);
}
