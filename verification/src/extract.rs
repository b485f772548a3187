//! The Result Extractor: turns the store's response into one
//! `(timestamp, value)` pair, or a precise error.

use vstd::prelude::*;

use crate::bar::Price;

verus! {

/// One response row: the timestamp the store associates with the extremum,
/// and the aggregate value itself.
#[derive(Clone, Copy, PartialEq, Eq, Structural, Debug)]
pub struct AggRow {
    pub time_ns: i64,
    pub value: Price,
}

/// The terminal artifact of a query: the extremum value and the timestamp
/// at which it was observed.
#[derive(Clone, Copy, PartialEq, Eq, Structural, Debug)]
pub struct AggregateResult {
    pub time_ns: i64,
    pub value: Price,
}

/// Why a response yielded no result.  More than one series means the filter
/// under-constrained the symbol tag — silently picking the first series
/// would be a correctness hazard, so it is an error of its own, distinct
/// from an empty response.
#[derive(Clone, Copy, PartialEq, Eq, Structural, Debug)]
pub enum ExtractError {
    AmbiguousSeries,
    NoData,
}

/// The extraction rule over the response's shape: exactly one series with
/// at least one row succeeds with that series' first row; several series
/// are ambiguous; no series, or one empty series, is no data.
pub open spec fn extraction(series: Seq<Seq<AggRow>>) -> Result<AggregateResult, ExtractError> {
    if series.len() > 1 {
        Err(ExtractError::AmbiguousSeries)
    } else if series.len() == 0 || series[0].len() == 0 {
        Err(ExtractError::NoData)
    } else {
        Ok(AggregateResult { time_ns: series[0][0].time_ns, value: series[0][0].value })
    }
}

/// Interprets a response: zero or more series, each a list of rows.
///
/// The query shape guarantees the store reports the timestamp alongside the
/// extremum, so on success both survive into the result.  The first row of
/// the single series is taken: for the top-1 shaped aggregate the store
/// returns one row, and its own deterministic tie-breaking decided which.
pub fn extract(series: &Vec<Vec<AggRow>>) -> (r: Result<AggregateResult, ExtractError>)
    ensures
        r == extraction(series@.map_values(|s: Vec<AggRow>| s@)),
        series@.len() > 1 ==> r == Result::<AggregateResult, ExtractError>::Err(
            ExtractError::AmbiguousSeries,
        ),
{
    if series.len() > 1 {
        Err(ExtractError::AmbiguousSeries)
    } else if series.len() == 0 {
        Err(ExtractError::NoData)
    } else if series[0].len() == 0 {
        Err(ExtractError::NoData)
    } else {
        let row = series[0][0];
        Ok(AggregateResult { time_ns: row.time_ns, value: row.value })
    }
}

/// Ambiguity law: a response of two or more series always fails with
/// `AmbiguousSeries`; the first series is never silently returned.
pub proof fn lemma_ambiguous_series_rejected(series: Seq<Seq<AggRow>>)
    requires
        series.len() >= 2,
    ensures
        extraction(series) == Result::<AggregateResult, ExtractError>::Err(
            ExtractError::AmbiguousSeries,
        ),
{
}

} // verus!
