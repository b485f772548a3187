//! The Query Builder: renders an aggregate range query over a symbol and a
//! half-open time window.

use vstd::prelude::*;
use vstd::string::StringExecFns;

use crate::symbol::SymbolTag;
use crate::text::dec_int;
use crate::text::escaped;
use crate::text::push_dec_i64;
use crate::text::push_escaped;

verus! {

/// Which extremum a query asks for.
#[derive(Clone, Copy, PartialEq, Eq, Structural, Debug)]
pub enum Operation {
    Max,
    Min,
}

/// The error for a window whose start does not precede its end.
#[derive(Clone, Copy, PartialEq, Eq, Structural, Debug)]
pub struct InvalidRangeError {}

/// One aggregate query to run: the extremum wanted, the symbol to filter
/// on, and the half-open window `[start_ns, end_ns)` in store-native
/// nanoseconds.  Constructed once per invocation; `start_ns < end_ns` is
/// enforced at construction.
pub struct AggregateQuerySpec {
    pub op: Operation,
    pub symbol: SymbolTag,
    pub start_ns: i64,
    pub end_ns: i64,
}

impl AggregateQuerySpec {
    /// The invariant `new` establishes.
    pub open spec fn wf(&self) -> bool {
        self.start_ns < self.end_ns && self.symbol.wf()
    }

    /// Builds a query description, rejecting an empty or inverted window.
    pub fn new(op: Operation, symbol: SymbolTag, start_ns: i64, end_ns: i64) -> (r: Result<
        AggregateQuerySpec,
        InvalidRangeError,
    >)
        requires
            symbol.wf(),
        ensures
            r is Ok <==> start_ns < end_ns,
            r matches Ok(q) ==> q.op == op && q.symbol@ == symbol@ && q.start_ns == start_ns
                && q.end_ns == end_ns && q.wf(),
    {
        if start_ns < end_ns {
            Ok(AggregateQuerySpec { op, symbol, start_ns, end_ns })
        } else {
            Err(InvalidRangeError {})
        }
    }
}

/// The leading clause of the rendered query.  The extremum field differs by
/// operation: a maximum reads the `high` column and a minimum reads the
/// `low` column — an intraday extremum is bounded by the bar's `high` or
/// `low`, never by its `close`.
pub open spec fn select_prefix(op: Operation) -> Seq<char> {
    match op {
        Operation::Max => "SELECT MAX(\"high\") FROM \""@,
        Operation::Min => "SELECT MIN(\"low\") FROM \""@,
    }
}

/// The full rendered query text.  The measurement name stands in a
/// double-quoted identifier and the symbol in a single-quoted string
/// literal, each escaped; the window is rendered as two integer nanosecond
/// bounds, `start` inclusive and `end` exclusive.
pub open spec fn query_text(
    op: Operation,
    measurement: Seq<char>,
    symbol: Seq<char>,
    start_ns: int,
    end_ns: int,
) -> Seq<char> {
    select_prefix(op) + escaped(measurement, '"') + "\" WHERE time >= "@ + dec_int(start_ns)
        + " AND time < "@ + dec_int(end_ns) + " AND \"symbol\" = '"@ + escaped(symbol, '\'')
        + "'"@
}

/// A rendered query, together with the extremum it asked for so the result
/// extractor knows which result shape to expect.
pub struct RangeQuery {
    pub text: String,
    pub op: Operation,
}

/// Renders `q` against the given measurement (the store-side table name).
///
/// The symbol is untrusted input; it is embedded only in escaped form, so a
/// quote inside it filters literally instead of terminating the string
/// literal (see `text::lemma_escaped_scans_back`).
pub fn build(q: &AggregateQuerySpec, measurement: &str) -> (r: RangeQuery)
    requires
        q.wf(),
    ensures
        r.op == q.op,
        r.text@ == query_text(q.op, measurement@, q.symbol@, q.start_ns as int, q.end_ns as int),
{
    let mut text = String::new();
    match q.op {
        Operation::Max => text.append("SELECT MAX(\"high\") FROM \""),
        Operation::Min => text.append("SELECT MIN(\"low\") FROM \""),
    }
    push_escaped(&mut text, measurement, '"');
    text.append("\" WHERE time >= ");
    push_dec_i64(&mut text, q.start_ns);
    text.append(" AND time < ");
    push_dec_i64(&mut text, q.end_ns);
    text.append(" AND \"symbol\" = '");
    push_escaped(&mut text, q.symbol.as_str(), '\'');
    text.append("'");
    proof {
        assert(text@ =~= query_text(
            q.op,
            measurement@,
            q.symbol@,
            q.start_ns as int,
            q.end_ns as int,
        ));
    }
    RangeQuery { text, op: q.op }
}

/// Injection-safety corollary for the rendered query: its symbol literal —
/// the escaped symbol followed by the closing quote, which is exactly how
/// the text ends — scans back as the symbol itself with nothing after it.
/// A symbol containing quotes therefore filters literally and cannot extend
/// or alter the query.
pub proof fn lemma_query_symbol_filters_literally(symbol: Seq<char>)
    ensures
        crate::text::scan_quoted(escaped(symbol, '\'') + "'"@, '\'') == Some(
            (symbol, Seq::<char>::empty()),
        ),
{
    reveal_strlit("'");
    crate::text::lemma_escaped_scans_back(symbol, '\'', Seq::empty());
    assert(escaped(symbol, '\'') + "'"@ =~= escaped(symbol, '\'') + seq!['\'']
        + Seq::<char>::empty());
}

/// The name under which the store reports the aggregate value, which is the
/// name of the aggregate function in the rendered query.
pub fn value_field_name(op: Operation) -> (r: &'static str)
    ensures
        op == Operation::Max ==> r@ == "max"@,
        op == Operation::Min ==> r@ == "min"@,
{
    match op {
        Operation::Max => "max",
        Operation::Min => "min",
    }
}

} // verus!
