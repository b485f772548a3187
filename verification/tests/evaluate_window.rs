use stockbars::bar::Bar;
use stockbars::bar::Price;
use stockbars::evaluate::evaluate;
use stockbars::ingest::prepare_symbol;
use stockbars::point::Point;
use stockbars::query::Operation;
use stockbars::symbol::SymbolTag;

fn tag(s: &str) -> SymbolTag {
    SymbolTag::new(String::from(s)).expect("symbol must be non-empty")
}

fn bar(ts_s: i64, open: f64, high: f64, low: f64, close: f64) -> Bar {
    Bar {
        timestamp_ms: ts_s * 1_000,
        open: Price { bits: f64::to_bits(open) },
        high: Price { bits: f64::to_bits(high) },
        low: Price { bits: f64::to_bits(low) },
        close: Price { bits: f64::to_bits(close) },
        volume: Some(1_000),
    }
}

fn points_for(symbol: &str, bars: &[Bar]) -> Vec<Point> {
    prepare_symbol(tag(symbol), &bars.to_vec()).points
}

// 2022-06-10 00:00:00 UTC and 2022-07-12 00:00:00 UTC, in epoch seconds.
const START_S: i64 = 1_654_819_200;
const END_S: i64 = 1_657_584_000;

fn msft_history() -> Vec<Point> {
    let bars = [
        // Before the window: an extreme that must not be reported.
        bar(START_S - 86_400, 300.0, 310.0, 100.0, 305.0),
        bar(1_655_213_400, 244.0, 245.3, 241.5099945068359, 244.5),  // 2022-06-14 13:30:00
        bar(1_655_299_800, 243.0, 247.0, 242.0, 246.0),
        bar(1_657_200_600, 266.0, 269.05999755859375, 265.0, 268.2),  // 2022-07-07 13:30:00
        bar(1_657_287_000, 267.0, 268.5, 264.2, 264.9),
        // At the window's end: excluded by the half-open range.
        bar(END_S, 500.0, 900.0, 1.0, 600.0),
    ];
    points_for("MSFT", &bars)
}

#[test]
fn scenario_min_reports_lowest_low_with_its_timestamp() {
    let points = msft_history();
    let result = evaluate(
        &points,
        Operation::Min,
        &tag("MSFT"),
        START_S * 1_000_000_000,
        END_S * 1_000_000_000,
    )
    .expect("window holds samples");
    assert_eq!(result.time_ns, 1_655_213_400 * 1_000_000_000);
    assert_eq!(result.value.bits, f64::to_bits(241.5099945068359));
}

#[test]
fn scenario_max_reports_highest_high_with_its_timestamp() {
    let points = msft_history();
    let result = evaluate(
        &points,
        Operation::Max,
        &tag("MSFT"),
        START_S * 1_000_000_000,
        END_S * 1_000_000_000,
    )
    .expect("window holds samples");
    assert_eq!(result.time_ns, 1_657_200_600 * 1_000_000_000);
    assert_eq!(result.value.bits, f64::to_bits(269.05999755859375));
}

#[test]
fn sample_at_end_is_excluded_sample_at_start_included() {
    let bars = [bar(START_S, 10.0, 11.0, 9.0, 10.5), bar(END_S, 1.0, 99.0, 0.5, 50.0)];
    let points = points_for("MSFT", &bars);
    let max = evaluate(
        &points,
        Operation::Max,
        &tag("MSFT"),
        START_S * 1_000_000_000,
        END_S * 1_000_000_000,
    )
    .expect("the start sample is in range");
    // The bar at `end` holds the larger high but stands outside the window.
    assert_eq!(max.time_ns, START_S * 1_000_000_000);
    assert_eq!(max.value.bits, f64::to_bits(11.0));

    // With the window shifted one nanosecond further, the end sample enters.
    let max_wider = evaluate(
        &points,
        Operation::Max,
        &tag("MSFT"),
        START_S * 1_000_000_000,
        END_S * 1_000_000_000 + 1,
    )
    .expect("both samples in range");
    assert_eq!(max_wider.value.bits, f64::to_bits(99.0));
}

#[test]
fn max_reads_high_and_min_reads_low_never_close() {
    let bars = [
        bar(START_S + 100, 50.0, 100.0, 40.0, 99.0),
        bar(START_S + 200, 60.0, 98.0, 41.5, 99.5),
    ];
    let points = points_for("MSFT", &bars);
    let window_start = START_S * 1_000_000_000;
    let window_end = END_S * 1_000_000_000;

    // The larger close sits on the second bar, but the extremum of `high`
    // sits on the first.
    let max = evaluate(&points, Operation::Max, &tag("MSFT"), window_start, window_end)
        .expect("samples in range");
    assert_eq!(max.value.bits, f64::to_bits(100.0));
    assert_eq!(max.time_ns, (START_S + 100) * 1_000_000_000);

    let min = evaluate(&points, Operation::Min, &tag("MSFT"), window_start, window_end)
        .expect("samples in range");
    assert_eq!(min.value.bits, f64::to_bits(40.0));
    assert_eq!(min.time_ns, (START_S + 100) * 1_000_000_000);
}

#[test]
fn other_symbols_are_filtered_out() {
    let msft = points_for("MSFT", &[bar(START_S + 100, 10.0, 11.0, 9.0, 10.0)]);
    let mut all = points_for("AAPL", &[bar(START_S + 200, 500.0, 505.0, 1.0, 502.0)]);
    all.extend(msft);
    let max = evaluate(
        &all,
        Operation::Max,
        &tag("MSFT"),
        START_S * 1_000_000_000,
        END_S * 1_000_000_000,
    )
    .expect("one matching sample");
    assert_eq!(max.value.bits, f64::to_bits(11.0));

    let none = evaluate(
        &all,
        Operation::Max,
        &tag("GOOG"),
        START_S * 1_000_000_000,
        END_S * 1_000_000_000,
    );
    assert!(none.is_none());
}

#[test]
fn equal_extrema_keep_the_earliest_timestamp() {
    let bars = [
        bar(START_S + 300, 10.0, 77.0, 9.0, 10.0),
        bar(START_S + 400, 10.0, 77.0, 9.5, 10.0),
    ];
    let points = points_for("MSFT", &bars);
    let max = evaluate(
        &points,
        Operation::Max,
        &tag("MSFT"),
        START_S * 1_000_000_000,
        END_S * 1_000_000_000,
    )
    .expect("samples in range");
    assert_eq!(max.time_ns, (START_S + 300) * 1_000_000_000);
}
