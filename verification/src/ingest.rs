//! The Ingestion Pipeline's decisions: per-symbol translation batches,
//! bounded write retries, and the summary an operator reads.
//!
//! The pipeline's outside work — fetching bars and writing points — happens
//! beyond the library.  The caller runs the loop: it fetches, hands the
//! outcome in, writes the prepared batch (retrying as `should_retry_write`
//! and `backoff_delay_ms` direct), and hands the write outcome back.  One
//! symbol's failure is recorded in its own report and never disturbs
//! another symbol's.

use vstd::prelude::*;
use vstd::assert_seqs_equal;

use crate::bar::Bar;
use crate::evaluate::models;
use crate::point::ms_to_ns_fits;
use crate::point::point_model_of;
use crate::point::translate;
use crate::point::Point;
use crate::point::PointModel;
use crate::symbol::SymbolTag;

verus! {

/// A source failure while fetching one symbol's bars: fatal for that
/// symbol, recorded, and processing continues with the next symbol.
pub struct FetchError {
    pub message: String,
}

/// A store failure that survived every write attempt for one symbol's
/// batch: recorded, not fatal to the process.
pub struct WriteError {
    pub message: String,
}

/// What went wrong for one symbol, if anything did.
pub enum SymbolFailure {
    Fetch(FetchError),
    Write(WriteError),
}

/// One symbol's share of the summary: how many bars were fetched, how many
/// points were written, how many bars were skipped for unrepresentable
/// timestamps, and the failure that ended the symbol's work, if any.
pub struct SymbolReport {
    pub symbol: SymbolTag,
    pub bars_fetched: u64,
    pub points_written: u64,
    pub points_skipped: u64,
    pub failure: Option<SymbolFailure>,
}

/// The whole run's outcome: every symbol's report, and how many symbols
/// ended with and without a recorded failure.  Nothing is silently dropped;
/// every skipped bar and failed batch is counted somewhere in here.
pub struct IngestSummary {
    pub reports: Vec<SymbolReport>,
    pub symbols_succeeded: u64,
    pub symbols_failed: u64,
}

/// A prepared batch: the points a symbol's bars translate to, ready to be
/// written, with the counts the report will need.
pub struct SymbolBatch {
    pub symbol: SymbolTag,
    pub points: Vec<Point>,
    pub bars_fetched: u64,
    pub points_skipped: u64,
}

/// The points a bar sequence translates to, in order, keeping each bar
/// whose timestamp converts and dropping each bar whose timestamp does not.
pub open spec fn translated_models(bars: Seq<Bar>, symbol: Seq<char>) -> Seq<PointModel>
    decreases bars.len(),
{
    if bars.len() == 0 {
        Seq::empty()
    } else {
        let rest = translated_models(bars.drop_last(), symbol);
        if ms_to_ns_fits(bars.last().timestamp_ms) {
            rest.push(point_model_of(bars.last(), symbol))
        } else {
            rest
        }
    }
}

/// How many bars of a sequence are dropped for unrepresentable timestamps.
pub open spec fn overflow_count(bars: Seq<Bar>) -> int
    decreases bars.len(),
{
    if bars.len() == 0 {
        0
    } else {
        overflow_count(bars.drop_last()) + if ms_to_ns_fits(bars.last().timestamp_ms) {
            0int
        } else {
            1int
        }
    }
}

/// Accounting law: every fetched bar ends up either translated or counted
/// as skipped — none disappears.
pub proof fn lemma_translation_accounts_for_every_bar(bars: Seq<Bar>, symbol: Seq<char>)
    ensures
        translated_models(bars, symbol).len() + overflow_count(bars) == bars.len(),
    decreases bars.len(),
{
    if bars.len() > 0 {
        lemma_translation_accounts_for_every_bar(bars.drop_last(), symbol);
    }
}

/// Translates one symbol's fetched bars into a write-ready batch.
///
/// A bar whose timestamp cannot be represented is skipped and counted,
/// never fatal to the batch; every other bar becomes a point, in fetch
/// order.
pub fn prepare_symbol(symbol: SymbolTag, bars: &Vec<Bar>) -> (r: SymbolBatch)
    ensures
        r.symbol@ == symbol@,
        models(r.points@) == translated_models(bars@, symbol@),
        r.bars_fetched == bars@.len(),
        r.points_skipped as int == overflow_count(bars@),
{
    let bars_fetched: u64 = bars.len() as u64;
    let mut points: Vec<Point> = Vec::new();
    let mut skipped: u64 = 0;
    let mut i: usize = 0;
    while i < bars.len()
        invariant
            i <= bars@.len(),
            models(points@) == translated_models(bars@.take(i as int), symbol@),
            skipped as int == overflow_count(bars@.take(i as int)),
            skipped <= i,
        decreases bars@.len() - i,
    {
        proof {
            assert(bars@.take(i as int + 1).drop_last() =~= bars@.take(i as int));
            assert(bars@.take(i as int + 1).last() == bars@[i as int]);
        }
        match translate(&bars[i], &symbol) {
            Ok(p) => {
                let ghost prior = points@;
                points.push(p);
                proof {
                    assert_seqs_equal!(models(points@), models(prior).push(p@));
                }
            },
            Err(_) => {
                skipped = skipped + 1;
            },
        }
        i = i + 1;
    }
    proof {
        assert(bars@.take(bars@.len() as int) =~= bars@);
    }
    SymbolBatch { symbol, points, bars_fetched, points_skipped: skipped }
}

/// The report for a symbol whose fetch failed: nothing fetched, nothing
/// written, the failure recorded.
pub fn report_fetch_failure(symbol: SymbolTag, error: FetchError) -> (r: SymbolReport)
    ensures
        r.symbol@ == symbol@,
        r.bars_fetched == 0,
        r.points_written == 0,
        r.points_skipped == 0,
        r.failure == Some(SymbolFailure::Fetch(error)),
{
    SymbolReport {
        symbol,
        bars_fetched: 0,
        points_written: 0,
        points_skipped: 0,
        failure: Some(SymbolFailure::Fetch(error)),
    }
}

/// The report for a prepared batch once its write outcome is known: a
/// successful write reports every point of the batch written; a write that
/// survived no attempt reports none written and records the failure.
pub fn complete_symbol(batch: SymbolBatch, write_result: Result<(), WriteError>) -> (r:
    SymbolReport)
    ensures
        r.symbol@ == batch.symbol@,
        r.bars_fetched == batch.bars_fetched,
        r.points_skipped == batch.points_skipped,
        write_result is Ok ==> r.points_written == batch.points@.len() && r.failure is None,
        write_result matches Err(e) ==> r.points_written == 0 && r.failure == Some(
            SymbolFailure::Write(e),
        ),
{
    match write_result {
        Ok(()) => SymbolReport {
            symbol: batch.symbol,
            bars_fetched: batch.bars_fetched,
            points_written: batch.points.len() as u64,
            points_skipped: batch.points_skipped,
            failure: None,
        },
        Err(e) => SymbolReport {
            symbol: batch.symbol,
            bars_fetched: batch.bars_fetched,
            points_written: 0,
            points_skipped: batch.points_skipped,
            failure: Some(SymbolFailure::Write(e)),
        },
    }
}

/// How many write attempts a batch gets before its failure is recorded.
pub const MAX_WRITE_ATTEMPTS: u64 = 3;

/// The delay before the first retry; later retries double it.
pub const BASE_BACKOFF_MS: u64 = 100;

/// Whether another write attempt is allowed after `attempts_made` failed
/// ones.
pub fn should_retry_write(attempts_made: u64) -> (r: bool)
    ensures
        r == (attempts_made < MAX_WRITE_ATTEMPTS),
{
    attempts_made < MAX_WRITE_ATTEMPTS
}

/// The exponential growth of the backoff: doubling per attempt already
/// made.
pub open spec fn backoff_factor(attempt: int) -> int
    decreases attempt,
{
    if attempt <= 0 {
        1
    } else {
        2 * backoff_factor(attempt - 1)
    }
}

/// The delay, in milliseconds, to wait after the write attempt numbered
/// `attempts_made` (counting from zero) fails and a retry is due.
pub fn backoff_delay_ms(attempts_made: u64) -> (r: u64)
    requires
        attempts_made < MAX_WRITE_ATTEMPTS,
    ensures
        r as int == BASE_BACKOFF_MS * backoff_factor(attempts_made as int),
{
    proof {
        reveal_with_fuel(backoff_factor, 4);
    }
    if attempts_made == 0 {
        BASE_BACKOFF_MS
    } else if attempts_made == 1 {
        2 * BASE_BACKOFF_MS
    } else {
        4 * BASE_BACKOFF_MS
    }
}

/// How many reports of a sequence record a failure.
pub open spec fn failed_count(reports: Seq<SymbolReport>) -> int
    decreases reports.len(),
{
    if reports.len() == 0 {
        0
    } else {
        failed_count(reports.drop_last()) + if reports.last().failure is Some {
            1int
        } else {
            0int
        }
    }
}

/// Collects every symbol's report into the run's summary, counting the
/// symbols that ended with and without a recorded failure.
pub fn summarize(reports: Vec<SymbolReport>) -> (s: IngestSummary)
    ensures
        s.reports == reports,
        s.symbols_failed as int == failed_count(reports@),
        s.symbols_succeeded as int == reports@.len() - failed_count(reports@),
{
    let mut failed: u64 = 0;
    let mut i: usize = 0;
    while i < reports.len()
        invariant
            i <= reports@.len(),
            failed as int == failed_count(reports@.take(i as int)),
            failed <= i,
        decreases reports@.len() - i,
    {
        proof {
            assert(reports@.take(i as int + 1).drop_last() =~= reports@.take(i as int));
            assert(reports@.take(i as int + 1).last() == reports@[i as int]);
        }
        if reports[i].failure.is_some() {
            failed = failed + 1;
        }
        i = i + 1;
    }
    proof {
        assert(reports@.take(reports@.len() as int) =~= reports@);
    }
    let succeeded: u64 = reports.len() as u64 - failed;
    IngestSummary { reports, symbols_succeeded: succeeded, symbols_failed: failed }
}

proof fn lemma_failed_count_bounds(reports: Seq<SymbolReport>)
    ensures
        0 <= failed_count(reports) <= reports.len(),
    decreases reports.len(),
{
    if reports.len() > 0 {
        lemma_failed_count_bounds(reports.drop_last());
    }
}

proof fn lemma_failed_witness(reports: Seq<SymbolReport>, k: int)
    requires
        0 <= k < reports.len(),
        reports[k].failure is Some,
    ensures
        failed_count(reports) >= 1,
    decreases reports.len(),
{
    if k == reports.len() - 1 {
        lemma_failed_count_bounds(reports.drop_last());
    } else {
        lemma_failed_witness(reports.drop_last(), k);
    }
}

proof fn lemma_success_witness(reports: Seq<SymbolReport>, k: int)
    requires
        0 <= k < reports.len(),
        reports[k].failure is None,
    ensures
        failed_count(reports) <= reports.len() - 1,
    decreases reports.len(),
{
    if k == reports.len() - 1 {
        lemma_failed_count_bounds(reports.drop_last());
    } else {
        lemma_success_witness(reports.drop_last(), k);
    }
}

/// Partial-failure law: in a run where one symbol's fetch failed and some
/// other symbol finished clean, the summary records at least one failed and
/// at least one succeeded symbol — and, `summarize` keeping every report,
/// the clean symbol's report survives untouched beside the failed one.
pub proof fn lemma_partial_failure(reports: Seq<SymbolReport>, i: int, j: int)
    requires
        0 <= i < reports.len(),
        0 <= j < reports.len(),
        i != j,
        reports[i].failure matches Some(SymbolFailure::Fetch(_)),
        reports[j].failure is None,
    ensures
        1 <= failed_count(reports) <= reports.len() - 1,
{
    lemma_failed_witness(reports, i);
    lemma_success_witness(reports, j);
}

} // verus!
