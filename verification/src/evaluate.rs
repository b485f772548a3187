//! The reference semantics of an aggregate range query: what the store is
//! relied upon to compute over the points it holds.
//!
//! `eval_points` scans a sequence of points in order and keeps the first
//! sample attaining the extremum; a later sample replaces the current best
//! only by being strictly better.  `evaluate` is the executable form, used
//! to predict and to cross-check a store's answer over known bars.
//!
//! Prices compare by their 64-bit encodings as unsigned integers, which
//! orders them exactly as the encoded values for the non-negative finite
//! range market prices live in.

use vstd::prelude::*;

use crate::bar::Price;
use crate::extract::AggregateResult;
use crate::point::Point;
use crate::point::PointModel;
use crate::query::Operation;
use crate::symbol::SymbolTag;

verus! {

/// Membership in the half-open window `[start_ns, end_ns)`: the start is
/// included, the end is excluded.
pub open spec fn in_window(t: int, start_ns: int, end_ns: int) -> bool {
    start_ns <= t && t < end_ns
}

/// Whether a query over `symbol` and the given window selects a point.
pub open spec fn selects(p: PointModel, symbol: Seq<char>, start_ns: int, end_ns: int) -> bool {
    p.symbol == symbol && in_window(p.time_ns, start_ns, end_ns)
}

/// The field an operation aggregates over: a maximum reads `high`, a
/// minimum reads `low`.
pub open spec fn extremum_source(op: Operation, p: PointModel) -> u64 {
    match op {
        Operation::Max => p.high,
        Operation::Min => p.low,
    }
}

/// Whether a candidate value strictly beats the best seen so far.
pub open spec fn improves(op: Operation, cand: u64, best: u64) -> bool {
    match op {
        Operation::Max => cand > best,
        Operation::Min => cand < best,
    }
}

/// One step of the scan: a selected point replaces the accumulator only by
/// strictly improving on it, so among equal extrema the earliest-scanned
/// sample's timestamp survives.
pub open spec fn fold_step(op: Operation, acc: Option<(int, u64)>, p: PointModel) -> Option<
    (int, u64),
> {
    match acc {
        None => Some((p.time_ns, extremum_source(op, p))),
        Some(b) => if improves(op, extremum_source(op, p), b.1) {
            Some((p.time_ns, extremum_source(op, p)))
        } else {
            Some(b)
        },
    }
}

/// The query's answer over a sequence of points: the extremum of the chosen
/// field over the selected points, with the timestamp it was observed at,
/// or nothing when no point is selected.
pub open spec fn eval_points(
    ps: Seq<PointModel>,
    op: Operation,
    symbol: Seq<char>,
    start_ns: int,
    end_ns: int,
) -> Option<(int, u64)>
    decreases ps.len(),
{
    if ps.len() == 0 {
        None
    } else {
        let prior = eval_points(ps.drop_last(), op, symbol, start_ns, end_ns);
        if selects(ps.last(), symbol, start_ns, end_ns) {
            fold_step(op, prior, ps.last())
        } else {
            prior
        }
    }
}

/// The models of a sequence of points.
pub open spec fn models(ps: Seq<Point>) -> Seq<PointModel> {
    ps.map_values(|p: Point| p@)
}

/// Evaluates the query the way the store is relied upon to: the extremum of
/// `high` (for `Max`) or `low` (for `Min`) over the points tagged `symbol`
/// whose time lies in `[start_ns, end_ns)`.
pub fn evaluate(
    points: &Vec<Point>,
    op: Operation,
    symbol: &SymbolTag,
    start_ns: i64,
    end_ns: i64,
) -> (r: Option<AggregateResult>)
    ensures
        match r {
            None => eval_points(models(points@), op, symbol@, start_ns as int, end_ns as int)
                is None,
            Some(a) => eval_points(models(points@), op, symbol@, start_ns as int, end_ns as int)
                == Some((a.time_ns as int, a.value.bits)),
        },
{
    let mut best: Option<AggregateResult> = None;
    let mut i: usize = 0;
    while i < points.len()
        invariant
            i <= points@.len(),
            match best {
                None => eval_points(
                    models(points@.take(i as int)),
                    op,
                    symbol@,
                    start_ns as int,
                    end_ns as int,
                ) is None,
                Some(a) => eval_points(
                    models(points@.take(i as int)),
                    op,
                    symbol@,
                    start_ns as int,
                    end_ns as int,
                ) == Some((a.time_ns as int, a.value.bits)),
            },
        decreases points@.len() - i,
    {
        let p = &points[i];
        proof {
            assert(models(points@.take(i as int + 1)).drop_last() =~= models(
                points@.take(i as int),
            ));
            assert(models(points@.take(i as int + 1)).last() == points@[i as int]@);
        }
        if start_ns <= p.time_ns && p.time_ns < end_ns && p.symbol.eq_tag(symbol) {
            let value: Price = match op {
                Operation::Max => p.high,
                Operation::Min => p.low,
            };
            best = match best {
                None => Some(AggregateResult { time_ns: p.time_ns, value }),
                Some(b) => {
                    let better: bool = match op {
                        Operation::Max => value.bits > b.value.bits,
                        Operation::Min => value.bits < b.value.bits,
                    };
                    if better {
                        Some(AggregateResult { time_ns: p.time_ns, value })
                    } else {
                        Some(b)
                    }
                },
            };
        }
        i = i + 1;
    }
    proof {
        assert(models(points@.take(points@.len() as int)) =~= models(points@));
    }
    best
}

/// Half-open window law: a sample at exactly `end` is never selected; a
/// sample at exactly `start` carrying the queried symbol is.
pub proof fn lemma_half_open_window(p: PointModel, symbol: Seq<char>, start_ns: int, end_ns: int)
    ensures
        p.time_ns == end_ns ==> !selects(p, symbol, start_ns, end_ns),
        p.time_ns == start_ns && p.symbol == symbol && start_ns < end_ns ==> selects(
            p,
            symbol,
            start_ns,
            end_ns,
        ),
{
}

/// A sample the query does not select — wrong symbol, before the window, or
/// at or past its end — never changes the evaluation.
pub proof fn lemma_unselected_ignored(
    ps: Seq<PointModel>,
    p: PointModel,
    op: Operation,
    symbol: Seq<char>,
    start_ns: int,
    end_ns: int,
)
    requires
        !selects(p, symbol, start_ns, end_ns),
    ensures
        eval_points(ps.push(p), op, symbol, start_ns, end_ns) == eval_points(
            ps,
            op,
            symbol,
            start_ns,
            end_ns,
        ),
{
    assert(ps.push(p).drop_last() =~= ps);
    assert(ps.push(p).last() == p);
}

/// No selected point means no answer.
proof fn lemma_eval_none(
    ps: Seq<PointModel>,
    op: Operation,
    symbol: Seq<char>,
    start_ns: int,
    end_ns: int,
)
    requires
        eval_points(ps, op, symbol, start_ns, end_ns) is None,
    ensures
        forall|i: int|
            0 <= i < ps.len() ==> !#[trigger] selects(ps[i], symbol, start_ns, end_ns),
    decreases ps.len(),
{
    if ps.len() > 0 {
        lemma_eval_none(ps.drop_last(), op, symbol, start_ns, end_ns);
        assert(forall|i: int|
            0 <= i < ps.len() - 1 ==> ps.drop_last()[i] == #[trigger] ps[i]);
    }
}

/// Extremum field law: the value an evaluation reports is the `high` field
/// of some selected sample under `Max` and the `low` field under `Min` —
/// never the `close` — the reported timestamp is that sample's, and no
/// selected sample strictly beats the reported value.
pub proof fn lemma_extremum_field(
    ps: Seq<PointModel>,
    op: Operation,
    symbol: Seq<char>,
    start_ns: int,
    end_ns: int,
    t: int,
    v: u64,
)
    requires
        eval_points(ps, op, symbol, start_ns, end_ns) == Some((t, v)),
    ensures
        exists|i: int|
            0 <= i < ps.len() && #[trigger] selects(ps[i], symbol, start_ns, end_ns)
                && ps[i].time_ns == t && extremum_source(op, ps[i]) == v,
        forall|i: int|
            0 <= i < ps.len() && #[trigger] selects(ps[i], symbol, start_ns, end_ns)
                ==> !improves(op, extremum_source(op, ps[i]), v),
    decreases ps.len(),
{
    let rest = ps.drop_last();
    let last = ps.last();
    let prior = eval_points(rest, op, symbol, start_ns, end_ns);
    assert(forall|i: int| 0 <= i < ps.len() - 1 ==> rest[i] == #[trigger] ps[i]);
    if selects(last, symbol, start_ns, end_ns) {
        match prior {
            None => {
                lemma_eval_none(rest, op, symbol, start_ns, end_ns);
                assert(ps[ps.len() - 1] == last);
                assert(selects(ps[ps.len() - 1], symbol, start_ns, end_ns) && ps[ps.len()
                    - 1].time_ns == t && extremum_source(op, ps[ps.len() - 1]) == v);
            },
            Some(b) => {
                lemma_extremum_field(rest, op, symbol, start_ns, end_ns, b.0, b.1);
                if improves(op, extremum_source(op, last), b.1) {
                    assert(ps[ps.len() - 1] == last);
                    assert(selects(ps[ps.len() - 1], symbol, start_ns, end_ns) && ps[ps.len()
                        - 1].time_ns == t && extremum_source(op, ps[ps.len() - 1]) == v);
                } else {
                    assert(exists|i: int|
                        0 <= i < rest.len() && #[trigger] selects(rest[i], symbol, start_ns, end_ns)
                            && rest[i].time_ns == t && extremum_source(op, rest[i]) == v);
                    let w = choose|i: int|
                        0 <= i < rest.len() && #[trigger] selects(rest[i], symbol, start_ns, end_ns)
                            && rest[i].time_ns == t && extremum_source(op, rest[i]) == v;
                    assert(selects(ps[w], symbol, start_ns, end_ns) && ps[w].time_ns == t
                        && extremum_source(op, ps[w]) == v);
                }
            },
        }
    } else {
        lemma_extremum_field(rest, op, symbol, start_ns, end_ns, t, v);
        let w = choose|i: int|
            0 <= i < rest.len() && #[trigger] selects(rest[i], symbol, start_ns, end_ns)
                && rest[i].time_ns == t && extremum_source(op, rest[i]) == v;
        assert(selects(ps[w], symbol, start_ns, end_ns) && ps[w].time_ns == t && extremum_source(
            op,
            ps[w],
        ) == v);
    }
}

} // verus!
