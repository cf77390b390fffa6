use vstd::prelude::*;
use crate::value::{DataType, IdxSize, Scalar, quotient_of, u64_max};

verus! {

/// The abstract state of an aggregate handle.
pub ghost enum AggView {
    /// The earliest captured row, with its chunk index, if any row was seen.
    First { dtype: DataType, seen: Option<(Scalar, IdxSize)> },
    /// The latest captured row, with its chunk index, if any row was seen.
    Last { dtype: DataType, seen: Option<(Scalar, IdxSize)> },
    /// The number of rows seen, nulls included.
    Count { n: nat },
    /// The exact sum of the non-null values seen, and how many there were.
    Sum { dtype: DataType, total: int, count: nat },
    /// The exact sum of the non-null values seen, and how many there were.
    Mean { dtype: DataType, total: int, count: nat },
    /// Ignores its input and yields null.
    Null,
}

/// The result types a sum can have.
pub open spec fn is_sum_dtype(dt: DataType) -> bool {
    dt is UInt32 || dt is UInt64 || dt is Int32 || dt is Int64
}

pub open spec fn is_mean_dtype(dt: DataType) -> bool {
    dt is Float32 || dt is Float64
}

pub open spec fn is_unsigned_dtype(dt: DataType) -> bool {
    dt is UInt32 || dt is UInt64
}

pub open spec fn min_of(dt: DataType) -> int {
    match dt {
        DataType::Int32 => -0x8000_0000,
        DataType::Int64 => -0x8000_0000_0000_0000,
        _ => 0,
    }
}

pub open spec fn max_of(dt: DataType) -> int {
    match dt {
        DataType::UInt32 => 0xFFFF_FFFF,
        DataType::Int32 => 0x7FFF_FFFF,
        DataType::Int64 => 0x7FFF_FFFF_FFFF_FFFF,
        _ => 0xFFFF_FFFF_FFFF_FFFF,
    }
}

pub open spec fn clamp(x: int, lo: int, hi: int) -> int {
    if x < lo {
        lo
    } else if x > hi {
        hi
    } else {
        x
    }
}

/// The scalar of type `dt` that holds `x`, which lies in the range of `dt`.
pub open spec fn int_scalar(dt: DataType, x: int) -> Scalar {
    match dt {
        DataType::UInt32 => Scalar::UInt32(x as u32),
        DataType::Int32 => Scalar::Int32(x as i32),
        DataType::Int64 => Scalar::Int64(x as i64),
        _ => Scalar::UInt64(x as u64),
    }
}

/// A sum is finalized by saturating the exact total to the range of its type.
pub open spec fn saturated(dt: DataType, total: int) -> Scalar {
    int_scalar(dt, clamp(total, min_of(dt), max_of(dt)))
}

impl AggView {
    /// The type of the finalized result.
    pub open spec fn dtype(self) -> DataType {
        match self {
            AggView::First { dtype, .. } => dtype,
            AggView::Last { dtype, .. } => dtype,
            AggView::Count { .. } => DataType::UInt64,
            AggView::Sum { dtype, .. } => dtype,
            AggView::Mean { dtype, .. } => dtype,
            AggView::Null => DataType::Null,
        }
    }

    /// Whether a typed or generic ingestion of `s` is a proper use of this kind.
    pub open spec fn accepts(self, s: Scalar) -> bool {
        match self {
            AggView::First { dtype, .. } => s is Null || s.spec_dtype() == dtype,
            AggView::Last { dtype, .. } => s is Null || s.spec_dtype() == dtype,
            AggView::Sum { dtype, .. } => s is Null || (s.int_of() is Some && (is_unsigned_dtype(dtype)
                ==> s.is_unsigned())),
            AggView::Mean { .. } => s is Null || s.int_of() is Some,
            _ => true,
        }
    }

    /// How many more rows fit in the counters.
    pub open spec fn room(self) -> int {
        match self {
            AggView::Count { n } => u64_max() - n,
            AggView::Sum { count, .. } => u64_max() - count,
            AggView::Mean { count, .. } => u64_max() - count,
            _ => u64_max(),
        }
    }

    /// How many rows the counters hold.
    pub open spec fn used(self) -> int {
        match self {
            AggView::Count { n } => n as int,
            AggView::Sum { count, .. } => count as int,
            AggView::Mean { count, .. } => count as int,
            _ => 0,
        }
    }

    /// The state after one row with value `s` of chunk `chunk` is ingested.
    pub open spec fn ingest(self, chunk: IdxSize, s: Scalar) -> AggView {
        match self {
            AggView::First { dtype, seen } => AggView::First {
                dtype,
                seen: if seen is None { Some((s, chunk)) } else { seen },
            },
            AggView::Last { dtype, .. } => AggView::Last { dtype, seen: Some((s, chunk)) },
            AggView::Count { n } => AggView::Count { n: n + 1 },
            AggView::Sum { dtype, total, count } => match s.int_of() {
                Some(v) => AggView::Sum { dtype, total: total + v, count: count + 1 },
                None => self,
            },
            AggView::Mean { dtype, total, count } => match s.int_of() {
                Some(v) => AggView::Mean { dtype, total: total + v, count: count + 1 },
                None => self,
            },
            AggView::Null => self,
        }
    }

    /// The state after the rows `items` of chunk `chunk` are ingested in order.
    pub open spec fn ingest_all(self, chunk: IdxSize, items: Seq<Scalar>) -> AggView
        decreases items.len(),
    {
        if items.len() == 0 {
            self
        } else {
            self.ingest(chunk, items[0]).ingest_all(chunk, items.drop_first())
        }
    }

    /// Both are handles of one kind and one configuration.
    pub open spec fn same_config(self, other: AggView) -> bool {
        match (self, other) {
            (AggView::First { dtype: a, .. }, AggView::First { dtype: b, .. }) => a == b,
            (AggView::Last { dtype: a, .. }, AggView::Last { dtype: b, .. }) => a == b,
            (AggView::Count { .. }, AggView::Count { .. }) => true,
            (AggView::Sum { dtype: a, .. }, AggView::Sum { dtype: b, .. }) => a == b,
            (AggView::Mean { dtype: a, .. }, AggView::Mean { dtype: b, .. }) => a == b,
            (AggView::Null, AggView::Null) => true,
            _ => false,
        }
    }

    /// The captured row, for First and Last.
    pub open spec fn seen(self) -> Option<(Scalar, IdxSize)> {
        match self {
            AggView::First { seen, .. } => seen,
            AggView::Last { seen, .. } => seen,
            _ => None,
        }
    }

    /// `other` may be merged into `self`: same kind and configuration, counters
    /// that fit, and distinct chunk indices where both captured a row.
    pub open spec fn mergeable(self, other: AggView) -> bool {
        &&& self.same_config(other)
        &&& other.used() <= self.room()
        &&& match (self.seen(), other.seen()) {
            (Some(p), Some(q)) => p.1 != q.1,
            _ => true,
        }
    }

    /// The state after `other` is merged into `self`.
    pub open spec fn merge(self, other: AggView) -> AggView {
        match (self, other) {
            (AggView::First { dtype, seen: a }, AggView::First { seen: b, .. }) => AggView::First {
                dtype,
                seen: pick(a, b, true),
            },
            (AggView::Last { dtype, seen: a }, AggView::Last { seen: b, .. }) => AggView::Last {
                dtype,
                seen: pick(a, b, false),
            },
            (AggView::Count { n: a }, AggView::Count { n: b }) => AggView::Count { n: a + b },
            (AggView::Sum { dtype, total: a, count: c }, AggView::Sum { total: b, count: d, .. }) =>
                AggView::Sum { dtype, total: a + b, count: c + d },
            (AggView::Mean { dtype, total: a, count: c }, AggView::Mean { total: b, count: d, .. }) =>
                AggView::Mean { dtype, total: a + b, count: c + d },
            _ => self,
        }
    }

    /// A fresh state of the same kind and configuration.
    pub open spec fn empty_peer(self) -> AggView {
        match self {
            AggView::First { dtype, .. } => AggView::First { dtype, seen: None },
            AggView::Last { dtype, .. } => AggView::Last { dtype, seen: None },
            AggView::Count { .. } => AggView::Count { n: 0 },
            AggView::Sum { dtype, .. } => AggView::Sum { dtype, total: 0, count: 0 },
            AggView::Mean { dtype, .. } => AggView::Mean { dtype, total: 0, count: 0 },
            AggView::Null => AggView::Null,
        }
    }

    /// The scalar a handle in this state finalizes to.
    pub open spec fn result(self) -> Scalar {
        match self {
            AggView::First { seen, .. } => match seen {
                Some(p) => p.0,
                None => Scalar::Null,
            },
            AggView::Last { seen, .. } => match seen {
                Some(p) => p.0,
                None => Scalar::Null,
            },
            AggView::Count { n } => Scalar::UInt64(n as u64),
            AggView::Sum { dtype, total, .. } => saturated(dtype, total),
            AggView::Mean { total, count, .. } => if count == 0 {
                Scalar::Null
            } else {
                Scalar::Quotient(quotient_of(total, count))
            },
            AggView::Null => Scalar::Null,
        }
    }
}

/// Of two captured rows, the one with the lower chunk index (`earliest`) or
/// the higher one; a missing row never wins.
pub open spec fn pick(
    a: Option<(Scalar, IdxSize)>,
    b: Option<(Scalar, IdxSize)>,
    earliest: bool,
) -> Option<(Scalar, IdxSize)> {
    match (a, b) {
        (None, _) => b,
        (_, None) => a,
        (Some(p), Some(q)) => if (earliest && q.1 < p.1) || (!earliest && q.1 > p.1) {
            b
        } else {
            a
        },
    }
}

} // verus!
