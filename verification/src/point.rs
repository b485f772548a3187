//! The Point Translator: turns one bar into a store-ready data point.

use vstd::prelude::*;

use crate::bar::Bar;
use crate::bar::Price;
use crate::symbol::SymbolTag;

verus! {

/// Nanoseconds per millisecond: the factor between the source's bar
/// timestamps and the store's native precision.
pub const NANOS_PER_MILLI: i64 = 1_000_000;

/// The error for a bar whose millisecond timestamp does not fit the store's
/// signed 64-bit nanosecond width.  Fatal for that one bar, never for the
/// batch.
#[derive(Clone, Copy, PartialEq, Eq, Structural, Debug)]
pub struct TimestampOverflowError {}

/// The mathematical content of a point: what the store will hold.
pub ghost struct PointModel {
    pub time_ns: int,
    pub open: u64,
    pub high: u64,
    pub low: u64,
    pub close: u64,
    pub volume: Option<u64>,
    pub symbol: Seq<char>,
}

/// A store-ready data point: a nanosecond timestamp, the four price fields,
/// the optional volume field, and the symbol as an indexed tag.
///
/// The symbol is a tag rather than a field because aggregate queries filter
/// and group on it; fields are for values that participate in numeric
/// aggregation.
pub struct Point {
    pub time_ns: i64,
    pub open: Price,
    pub high: Price,
    pub low: Price,
    pub close: Price,
    pub volume: Option<u64>,
    pub symbol: SymbolTag,
}

impl View for Point {
    type V = PointModel;

    open spec fn view(&self) -> PointModel {
        PointModel {
            time_ns: self.time_ns as int,
            open: self.open.bits,
            high: self.high.bits,
            low: self.low.bits,
            close: self.close.bits,
            volume: self.volume,
            symbol: self.symbol@,
        }
    }
}

/// Whether a millisecond timestamp survives exact conversion to signed
/// 64-bit nanoseconds.
pub open spec fn ms_to_ns_fits(ms: i64) -> bool {
    i64::MIN <= ms * (NANOS_PER_MILLI as int) <= i64::MAX
}

/// The point a bar translates to, for a given symbol.
pub open spec fn point_model_of(bar: Bar, symbol: Seq<char>) -> PointModel {
    PointModel {
        time_ns: bar.timestamp_ms * (NANOS_PER_MILLI as int),
        open: bar.open.bits,
        high: bar.high.bits,
        low: bar.low.bits,
        close: bar.close.bits,
        volume: bar.volume,
        symbol: symbol,
    }
}

/// Converts one bar into a point tagged with `symbol`.
///
/// The timestamp conversion from milliseconds to nanoseconds is exact
/// integer arithmetic; a bar whose timestamp cannot be represented fails
/// with `TimestampOverflowError`.  Every other field is carried through
/// unchanged — in particular an absent volume stays absent.
pub fn translate(bar: &Bar, symbol: &SymbolTag) -> (r: Result<Point, TimestampOverflowError>)
    ensures
        r is Ok <==> ms_to_ns_fits(bar.timestamp_ms),
        r matches Ok(p) ==> p@ == point_model_of(*bar, symbol@),
{
    match bar.timestamp_ms.checked_mul(NANOS_PER_MILLI) {
        Some(time_ns) => Ok(Point {
            time_ns,
            open: bar.open,
            high: bar.high,
            low: bar.low,
            close: bar.close,
            volume: bar.volume,
            symbol: symbol.clone(),
        }),
        None => Err(TimestampOverflowError {}),
    }
}

/// Unit conversion law: for every bar whose millisecond timestamp is
/// non-negative and representable, translation succeeds and the point's
/// time is exactly the timestamp multiplied by one million.
pub proof fn lemma_unit_conversion(bar: Bar, symbol: Seq<char>)
    requires
        0 <= bar.timestamp_ms,
        bar.timestamp_ms * (NANOS_PER_MILLI as int) <= i64::MAX,
    ensures
        ms_to_ns_fits(bar.timestamp_ms),
        point_model_of(bar, symbol).time_ns == bar.timestamp_ms * 1_000_000,
{
}

/// Field-presence law: translation carries the volume through unchanged, so
/// a bar with an absent volume yields a point whose volume is absent — never
/// zero — and a bar with volume `v` (zero included) yields a point with
/// volume `v`.
pub proof fn lemma_volume_presence(bar: Bar, symbol: Seq<char>)
    ensures
        bar.volume is None <==> point_model_of(bar, symbol).volume is None,
        point_model_of(bar, symbol).volume == bar.volume,
{
}

} // verus!
