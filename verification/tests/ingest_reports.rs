use stockbars::bar::Bar;
use stockbars::bar::Price;
use stockbars::ingest::backoff_delay_ms;
use stockbars::ingest::complete_symbol;
use stockbars::ingest::prepare_symbol;
use stockbars::ingest::report_fetch_failure;
use stockbars::ingest::should_retry_write;
use stockbars::ingest::summarize;
use stockbars::ingest::FetchError;
use stockbars::ingest::SymbolFailure;
use stockbars::ingest::WriteError;
use stockbars::symbol::SymbolTag;

fn tag(s: &str) -> SymbolTag {
    SymbolTag::new(String::from(s)).expect("symbol must be non-empty")
}

fn bar_at(ts_ms: i64) -> Bar {
    Bar {
        timestamp_ms: ts_ms,
        open: Price { bits: f64::to_bits(1.0) },
        high: Price { bits: f64::to_bits(2.0) },
        low: Price { bits: f64::to_bits(0.5) },
        close: Price { bits: f64::to_bits(1.5) },
        volume: None,
    }
}

#[test]
fn one_fetch_failure_does_not_disturb_the_other_symbol() {
    let failed = report_fetch_failure(
        tag("AAPL"),
        FetchError { message: String::from("rate limited") },
    );

    let bars = vec![bar_at(1_000), bar_at(2_000)];
    let batch = prepare_symbol(tag("MSFT"), &bars);
    let succeeded = complete_symbol(batch, Ok(()));

    let summary = summarize(vec![failed, succeeded]);
    assert_eq!(summary.symbols_failed, 1);
    assert_eq!(summary.symbols_succeeded, 1);
    assert_eq!(summary.reports.len(), 2);

    let aapl = &summary.reports[0];
    assert_eq!(aapl.symbol.as_str(), "AAPL");
    assert_eq!(aapl.bars_fetched, 0);
    assert_eq!(aapl.points_written, 0);
    match &aapl.failure {
        Some(SymbolFailure::Fetch(e)) => assert_eq!(e.message, "rate limited"),
        other => panic!("expected a recorded fetch failure, got {:?}", other.is_some()),
    }

    let msft = &summary.reports[1];
    assert_eq!(msft.symbol.as_str(), "MSFT");
    assert_eq!(msft.bars_fetched, 2);
    assert_eq!(msft.points_written, 2);
    assert_eq!(msft.points_skipped, 0);
    assert!(msft.failure.is_none());
}

#[test]
fn overflowing_bars_are_skipped_and_counted_not_fatal() {
    let bars = vec![bar_at(1_000), bar_at(9_223_372_036_855), bar_at(2_000)];
    let batch = prepare_symbol(tag("MSFT"), &bars);
    assert_eq!(batch.bars_fetched, 3);
    assert_eq!(batch.points_skipped, 1);
    assert_eq!(batch.points.len(), 2);
    assert_eq!(batch.points[0].time_ns, 1_000_000_000);
    assert_eq!(batch.points[1].time_ns, 2_000_000_000);
}

#[test]
fn exhausted_write_is_recorded_as_the_symbols_failure() {
    let bars = vec![bar_at(1_000)];
    let batch = prepare_symbol(tag("MSFT"), &bars);
    let report = complete_symbol(batch, Err(WriteError { message: String::from("timeout") }));
    assert_eq!(report.bars_fetched, 1);
    assert_eq!(report.points_written, 0);
    match &report.failure {
        Some(SymbolFailure::Write(e)) => assert_eq!(e.message, "timeout"),
        _ => panic!("expected a recorded write failure"),
    }

    let summary = summarize(vec![report]);
    assert_eq!(summary.symbols_failed, 1);
    assert_eq!(summary.symbols_succeeded, 0);
}

#[test]
fn retry_policy_is_three_attempts_with_doubling_backoff() {
    assert!(should_retry_write(0));
    assert!(should_retry_write(2));
    assert!(!should_retry_write(3));
    assert_eq!(backoff_delay_ms(0), 100);
    assert_eq!(backoff_delay_ms(1), 200);
    assert_eq!(backoff_delay_ms(2), 400);
}

#[test]
fn empty_run_summarizes_to_nothing() {
    let summary = summarize(Vec::new());
    assert_eq!(summary.symbols_failed, 0);
    assert_eq!(summary.symbols_succeeded, 0);
    assert!(summary.reports.is_empty());
}
