use stockbars::bar::Price;
use stockbars::extract::extract;
use stockbars::extract::AggRow;
use stockbars::extract::ExtractError;

fn row(time_ns: i64, value: f64) -> AggRow {
    AggRow { time_ns, value: Price { bits: f64::to_bits(value) } }
}

#[test]
fn two_series_fail_as_ambiguous_never_first() {
    let series = vec![vec![row(1, 10.0)], vec![row(2, 20.0)]];
    assert_eq!(extract(&series), Err(ExtractError::AmbiguousSeries));
}

#[test]
fn zero_series_is_no_data() {
    let series: Vec<Vec<AggRow>> = Vec::new();
    assert_eq!(extract(&series), Err(ExtractError::NoData));
}

#[test]
fn one_empty_series_is_no_data() {
    let series: Vec<Vec<AggRow>> = vec![Vec::new()];
    assert_eq!(extract(&series), Err(ExtractError::NoData));
}

#[test]
fn single_series_yields_first_row_with_timestamp() {
    let series = vec![vec![row(1_655_213_400_000_000_000, 241.5099945068359)]];
    let result = extract(&series).expect("one series with one row");
    assert_eq!(result.time_ns, 1_655_213_400_000_000_000);
    assert_eq!(result.value.bits, f64::to_bits(241.5099945068359));
}
