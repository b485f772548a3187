//! The canonical in-memory representation of one OHLCV sample.

use vstd::prelude::*;

verus! {

/// A price carried as the bit encoding of a 64-bit IEEE-754 value.
///
/// The library never does arithmetic on prices; it stores, compares and
/// reports them.  Comparing encodings as unsigned integers orders them
/// exactly as the encoded values are ordered numerically, provided the
/// encoded values are non-negative and finite — which market prices are.
#[derive(Clone, Copy, PartialEq, Eq, Structural, Debug)]
pub struct Price {
    pub bits: u64,
}

/// One OHLCV sample: a millisecond timestamp, four prices, and an optional
/// traded volume.  An absent volume means "unknown", which is distinct from
/// a volume of zero.
///
/// `low <= open, close <= high` is expected of well-formed market data but
/// is deliberately not required: aggregate correctness is defined purely by
/// the stored `high` and `low` fields, and violating bars must still flow
/// through.
#[derive(Clone, Copy, Debug)]
pub struct Bar {
    pub timestamp_ms: i64,
    pub open: Price,
    pub high: Price,
    pub low: Price,
    pub close: Price,
    pub volume: Option<u64>,
}

impl Default for Bar {
    /// An all-zero bar with an unknown volume.
    fn default() -> (b: Self)
        ensures
            b.timestamp_ms == 0,
            b.open.bits == 0,
            b.high.bits == 0,
            b.low.bits == 0,
            b.close.bits == 0,
            b.volume is None,
    {
        Bar {
            timestamp_ms: 0,
            open: Price { bits: 0 },
            high: Price { bits: 0 },
            low: Price { bits: 0 },
            close: Price { bits: 0 },
            volume: None,
        }
    }
}

} // verus!
