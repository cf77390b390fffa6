use vstd::prelude::*;
use crate::aggregates::{CountAgg, FirstAgg, LastAgg, MeanAgg, NullAgg, SumAgg};
use crate::value::{DataType, IdxSize, Scalar};
use crate::view::{AggView, is_mean_dtype, is_sum_dtype};

verus! {

/// The capability every aggregate state machine offers: ingestion, merge with
/// a sibling of the same type, finalize, and a fresh peer for another partition.
pub trait AggregateFn: Sized {
    /// The abstract state.
    spec fn state(&self) -> AggView;

    /// The internal bounds hold.
    spec fn well_formed(&self) -> bool;

    fn has_physical_agg(&self) -> (r: bool);

    fn pre_agg(&mut self, chunk_idx: IdxSize, items: &Vec<Scalar>)
        requires
            old(self).well_formed(),
            forall|j: int| 0 <= j < items.len() ==> old(self).state().accepts(#[trigger] items[j]),
            items.len() <= old(self).state().room(),
        ensures
            final(self).well_formed(),
            final(self).state() == old(self).state().ingest_all(chunk_idx, items@),
    ;

    fn dtype(&self) -> (r: DataType)
        ensures
            r == self.state().dtype(),
    ;

    fn combine(&mut self, other: &Self)
        requires
            old(self).well_formed(),
            other.well_formed(),
            old(self).state().mergeable(other.state()),
        ensures
            final(self).well_formed(),
            final(self).state() == old(self).state().merge(other.state()),
    ;

    fn finalize(&mut self) -> (r: Scalar)
        requires
            old(self).well_formed(),
        ensures
            r == old(self).state().result(),
    ;

    fn split2(&self) -> (r: Self)
        ensures
            r.well_formed(),
            r.state() == self.state().empty_peer(),
    ;
}

impl AggregateFn for AggregateFunction {
    open spec fn state(&self) -> AggView {
        self@
    }

    open spec fn well_formed(&self) -> bool {
        self.wf()
    }

    fn has_physical_agg(&self) -> (r: bool) {
        AggregateFunction::has_physical_agg(self)
    }

    fn pre_agg(&mut self, chunk_idx: IdxSize, items: &Vec<Scalar>) {
        AggregateFunction::pre_agg(self, chunk_idx, items)
    }

    fn dtype(&self) -> (r: DataType) {
        AggregateFunction::dtype(self)
    }

    fn combine(&mut self, other: &Self) {
        AggregateFunction::combine(self, other)
    }

    fn finalize(&mut self) -> (r: Scalar) {
        AggregateFunction::finalize(self)
    }

    fn split2(&self) -> (r: Self) {
        AggregateFunction::split2(self)
    }
}

/// An aggregate handle: one state machine of a closed set of kinds, dispatched by match.
#[derive(Clone, Copy, Debug)]
pub enum AggregateFunction {
    First(FirstAgg),
    Last(LastAgg),
    Count(CountAgg),
    SumU32(SumAgg),
    SumU64(SumAgg),
    SumI32(SumAgg),
    SumI64(SumAgg),
    MeanF32(MeanAgg),
    MeanF64(MeanAgg),
    Null(NullAgg),
}

impl View for AggregateFunction {
    type V = AggView;

    open spec fn view(&self) -> AggView {
        match self {
            AggregateFunction::First(a) => AggView::First { dtype: a.dtype, seen: a.seen },
            AggregateFunction::Last(a) => AggView::Last { dtype: a.dtype, seen: a.seen },
            AggregateFunction::Count(a) => AggView::Count { n: a.n as nat },
            AggregateFunction::SumU32(a) => AggView::Sum { dtype: DataType::UInt32, total: a.total(), count: a.count as nat },
            AggregateFunction::SumU64(a) => AggView::Sum { dtype: DataType::UInt64, total: a.total(), count: a.count as nat },
            AggregateFunction::SumI32(a) => AggView::Sum { dtype: DataType::Int32, total: a.total(), count: a.count as nat },
            AggregateFunction::SumI64(a) => AggView::Sum { dtype: DataType::Int64, total: a.total(), count: a.count as nat },
            AggregateFunction::MeanF32(a) => AggView::Mean { dtype: DataType::Float32, total: a.acc.total(), count: a.acc.count as nat },
            AggregateFunction::MeanF64(a) => AggView::Mean { dtype: DataType::Float64, total: a.acc.total(), count: a.acc.count as nat },
            AggregateFunction::Null(_) => AggView::Null,
        }
    }
}

/// The kind of aggregate a handle computes.
#[derive(Clone, Copy, Debug, PartialEq, Eq, Structural)]
pub enum AggKind {
    First,
    Last,
    Count,
    Sum,
    Mean,
    Null,
}

/// The state of a fresh handle of `kind` whose result has type `dtype`, when
/// that pairing is one the registry has.
pub open spec fn fresh_view(kind: AggKind, dtype: DataType) -> Option<AggView> {
    match kind {
        AggKind::First => Some(AggView::First { dtype, seen: None }),
        AggKind::Last => Some(AggView::Last { dtype, seen: None }),
        AggKind::Count => Some(AggView::Count { n: 0 }),
        AggKind::Sum => if is_sum_dtype(dtype) {
            Some(AggView::Sum { dtype, total: 0, count: 0 })
        } else {
            None
        },
        AggKind::Mean => if is_mean_dtype(dtype) {
            Some(AggView::Mean { dtype, total: 0, count: 0 })
        } else {
            None
        },
        AggKind::Null => Some(AggView::Null),
    }
}

/// Adds the value of a non-null integer row; a null row leaves the sum as it is.
fn add_item(a: &mut SumAgg, item: Scalar)
    requires
        old(a).wf(),
        old(a).count < crate::value::u64_max(),
        item is Null || item.int_of() is Some,
    ensures
        final(a).wf(),
        match item.int_of() {
            Some(v) => final(a).total() == old(a).total() + v && final(a).count == old(a).count + 1
                && (v >= 0 ==> final(a).neg == old(a).neg),
            None => *final(a) == *old(a),
        },
{
    if let Some(v) = item.as_int() {
        a.add(v);
    }
}

impl AggregateFunction {
    /// The accumulators respect their bounds; an unsigned sum has no negative part.
    pub open spec fn wf(&self) -> bool {
        match self {
            AggregateFunction::SumU32(a) => a.wf() && a.neg == 0,
            AggregateFunction::SumU64(a) => a.wf() && a.neg == 0,
            AggregateFunction::SumI32(a) => a.wf(),
            AggregateFunction::SumI64(a) => a.wf(),
            AggregateFunction::MeanF32(a) => a.acc.wf(),
            AggregateFunction::MeanF64(a) => a.acc.wf(),
            _ => true,
        }
    }

    /// A fresh handle of `kind` with result type `dtype`; `None` where the
    /// kind has no variant for that type (a sum of floats, a mean into an integer).
    pub fn new(kind: AggKind, dtype: DataType) -> (r: Option<AggregateFunction>)
        ensures
            r is Some <==> fresh_view(kind, dtype) is Some,
            r matches Some(h) ==> h.wf() && fresh_view(kind, dtype) == Some(h@),
    {
        match kind {
            AggKind::First => Some(AggregateFunction::First(FirstAgg::new(dtype))),
            AggKind::Last => Some(AggregateFunction::Last(LastAgg::new(dtype))),
            AggKind::Count => Some(AggregateFunction::Count(CountAgg::new())),
            AggKind::Sum => match dtype {
                DataType::UInt32 => Some(AggregateFunction::SumU32(SumAgg::new())),
                DataType::UInt64 => Some(AggregateFunction::SumU64(SumAgg::new())),
                DataType::Int32 => Some(AggregateFunction::SumI32(SumAgg::new())),
                DataType::Int64 => Some(AggregateFunction::SumI64(SumAgg::new())),
                _ => None,
            },
            AggKind::Mean => match dtype {
                DataType::Float32 => Some(AggregateFunction::MeanF32(MeanAgg::new())),
                DataType::Float64 => Some(AggregateFunction::MeanF64(MeanAgg::new())),
                _ => None,
            },
            AggKind::Null => Some(AggregateFunction::Null(NullAgg::new())),
        }
    }

    /// Whether ingesting `item` is a proper use of this handle.
    pub fn accepts(&self, item: &Scalar) -> (r: bool)
        ensures
            r == self@.accepts(*item),
    {
        if let Scalar::Null = item {
            return true;
        }
        match self {
            AggregateFunction::First(a) => item.dtype() == a.dtype,
            AggregateFunction::Last(a) => item.dtype() == a.dtype,
            AggregateFunction::SumU32(_) | AggregateFunction::SumU64(_) => item.is_unsigned_int(),
            AggregateFunction::SumI32(_) | AggregateFunction::SumI64(_) | AggregateFunction::MeanF32(_)
            | AggregateFunction::MeanF64(_) => item.as_int().is_some(),
            _ => true,
        }
    }

    /// How many more rows the handle's counters can take.
    pub fn room(&self) -> (r: u64)
        ensures
            r == self@.room(),
    {
        match self {
            AggregateFunction::Count(a) => u64::MAX - a.n,
            AggregateFunction::SumU32(a) | AggregateFunction::SumU64(a) | AggregateFunction::SumI32(a)
            | AggregateFunction::SumI64(a) => u64::MAX - a.count,
            AggregateFunction::MeanF32(a) | AggregateFunction::MeanF64(a) => u64::MAX - a.acc.count,
            _ => u64::MAX,
        }
    }

    /// Whether `other` may be merged into this handle.
    pub fn can_merge(&self, other: &AggregateFunction) -> (r: bool)
        ensures
            r == self@.mergeable(other@),
    {
        let same = match (self, other) {
            (AggregateFunction::First(a), AggregateFunction::First(b)) => a.dtype == b.dtype,
            (AggregateFunction::Last(a), AggregateFunction::Last(b)) => a.dtype == b.dtype,
            (AggregateFunction::Count(_), AggregateFunction::Count(_))
            | (AggregateFunction::SumU32(_), AggregateFunction::SumU32(_))
            | (AggregateFunction::SumU64(_), AggregateFunction::SumU64(_))
            | (AggregateFunction::SumI32(_), AggregateFunction::SumI32(_))
            | (AggregateFunction::SumI64(_), AggregateFunction::SumI64(_))
            | (AggregateFunction::MeanF32(_), AggregateFunction::MeanF32(_))
            | (AggregateFunction::MeanF64(_), AggregateFunction::MeanF64(_))
            | (AggregateFunction::Null(_), AggregateFunction::Null(_)) => true,
            _ => false,
        };
        if !same {
            return false;
        }
        let used = u64::MAX - other.room();
        if used > self.room() {
            return false;
        }
        match (self, other) {
            (AggregateFunction::First(a), AggregateFunction::First(b)) => match (a.seen, b.seen) {
                (Some(p), Some(q)) => p.1 != q.1,
                _ => true,
            },
            (AggregateFunction::Last(a), AggregateFunction::Last(b)) => match (a.seen, b.seen) {
                (Some(p), Some(q)) => p.1 != q.1,
                _ => true,
            },
            _ => true,
        }
    }

    /// Whether the kind has a typed ingestion path of its own.
    pub fn has_physical_agg(&self) -> (r: bool)
        ensures
            r == (self@ is Count || self@ is Sum || self@ is Mean),
    {
        match self {
            AggregateFunction::First(_) | AggregateFunction::Last(_) | AggregateFunction::Null(_) => false,
            _ => true,
        }
    }

    /// The type of the result; fixed for the handle's lifetime.
    pub fn dtype(&self) -> (r: DataType)
        ensures
            r == self@.dtype(),
    {
        match self {
            AggregateFunction::First(a) => a.dtype,
            AggregateFunction::Last(a) => a.dtype,
            AggregateFunction::Count(_) => DataType::UInt64,
            AggregateFunction::SumU32(_) => DataType::UInt32,
            AggregateFunction::SumU64(_) => DataType::UInt64,
            AggregateFunction::SumI32(_) => DataType::Int32,
            AggregateFunction::SumI64(_) => DataType::Int64,
            AggregateFunction::MeanF32(_) => DataType::Float32,
            AggregateFunction::MeanF64(_) => DataType::Float64,
            AggregateFunction::Null(_) => DataType::Null,
        }
    }

    /// Ingests one row.
    pub fn pre_agg_value(&mut self, chunk_idx: IdxSize, item: Scalar)
        requires
            old(self).wf(),
            old(self)@.accepts(item),
            old(self)@.room() >= 1,
        ensures
            final(self).wf(),
            final(self)@ == old(self)@.ingest(chunk_idx, item),
    {
        match self {
            AggregateFunction::First(a) => a.ingest(chunk_idx, item),
            AggregateFunction::Last(a) => a.ingest(chunk_idx, item),
            AggregateFunction::Count(a) => a.add_rows(1),
            AggregateFunction::SumU32(a) => add_item(a, item),
            AggregateFunction::SumU64(a) => add_item(a, item),
            AggregateFunction::SumI32(a) => add_item(a, item),
            AggregateFunction::SumI64(a) => add_item(a, item),
            AggregateFunction::MeanF32(a) => add_item(&mut a.acc, item),
            AggregateFunction::MeanF64(a) => add_item(&mut a.acc, item),
            AggregateFunction::Null(_) => {},
        }
    }

    /// Typed ingestion of one `u8` row (`None` is a null row).
    pub fn pre_agg_u8(&mut self, chunk_idx: IdxSize, item: Option<u8>)
        requires
            old(self).wf(),
            old(self)@.accepts(Scalar::UInt8(0)),
            old(self)@.room() >= 1,
        ensures
            final(self).wf(),
            final(self)@ == old(self)@.ingest(
                chunk_idx,
                match item {
                    Some(x) => Scalar::UInt8(x),
                    None => Scalar::Null,
                },
            ),
    {
        let value = match item {
            Some(x) => Scalar::UInt8(x),
            None => Scalar::Null,
        };
        self.pre_agg_value(chunk_idx, value);
    }

    /// Typed ingestion of one `u16` row (`None` is a null row).
    pub fn pre_agg_u16(&mut self, chunk_idx: IdxSize, item: Option<u16>)
        requires
            old(self).wf(),
            old(self)@.accepts(Scalar::UInt16(0)),
            old(self)@.room() >= 1,
        ensures
            final(self).wf(),
            final(self)@ == old(self)@.ingest(
                chunk_idx,
                match item {
                    Some(x) => Scalar::UInt16(x),
                    None => Scalar::Null,
                },
            ),
    {
        let value = match item {
            Some(x) => Scalar::UInt16(x),
            None => Scalar::Null,
        };
        self.pre_agg_value(chunk_idx, value);
    }

    /// Typed ingestion of one `u32` row (`None` is a null row).
    pub fn pre_agg_u32(&mut self, chunk_idx: IdxSize, item: Option<u32>)
        requires
            old(self).wf(),
            old(self)@.accepts(Scalar::UInt32(0)),
            old(self)@.room() >= 1,
        ensures
            final(self).wf(),
            final(self)@ == old(self)@.ingest(
                chunk_idx,
                match item {
                    Some(x) => Scalar::UInt32(x),
                    None => Scalar::Null,
                },
            ),
    {
        let value = match item {
            Some(x) => Scalar::UInt32(x),
            None => Scalar::Null,
        };
        self.pre_agg_value(chunk_idx, value);
    }

    /// Typed ingestion of one `u64` row (`None` is a null row).
    pub fn pre_agg_u64(&mut self, chunk_idx: IdxSize, item: Option<u64>)
        requires
            old(self).wf(),
            old(self)@.accepts(Scalar::UInt64(0)),
            old(self)@.room() >= 1,
        ensures
            final(self).wf(),
            final(self)@ == old(self)@.ingest(
                chunk_idx,
                match item {
                    Some(x) => Scalar::UInt64(x),
                    None => Scalar::Null,
                },
            ),
    {
        let value = match item {
            Some(x) => Scalar::UInt64(x),
            None => Scalar::Null,
        };
        self.pre_agg_value(chunk_idx, value);
    }

    /// Typed ingestion of one `i8` row (`None` is a null row).
    pub fn pre_agg_i8(&mut self, chunk_idx: IdxSize, item: Option<i8>)
        requires
            old(self).wf(),
            old(self)@.accepts(Scalar::Int8(0)),
            old(self)@.room() >= 1,
        ensures
            final(self).wf(),
            final(self)@ == old(self)@.ingest(
                chunk_idx,
                match item {
                    Some(x) => Scalar::Int8(x),
                    None => Scalar::Null,
                },
            ),
    {
        let value = match item {
            Some(x) => Scalar::Int8(x),
            None => Scalar::Null,
        };
        self.pre_agg_value(chunk_idx, value);
    }

    /// Typed ingestion of one `i16` row (`None` is a null row).
    pub fn pre_agg_i16(&mut self, chunk_idx: IdxSize, item: Option<i16>)
        requires
            old(self).wf(),
            old(self)@.accepts(Scalar::Int16(0)),
            old(self)@.room() >= 1,
        ensures
            final(self).wf(),
            final(self)@ == old(self)@.ingest(
                chunk_idx,
                match item {
                    Some(x) => Scalar::Int16(x),
                    None => Scalar::Null,
                },
            ),
    {
        let value = match item {
            Some(x) => Scalar::Int16(x),
            None => Scalar::Null,
        };
        self.pre_agg_value(chunk_idx, value);
    }

    /// Typed ingestion of one `i32` row (`None` is a null row).
    pub fn pre_agg_i32(&mut self, chunk_idx: IdxSize, item: Option<i32>)
        requires
            old(self).wf(),
            old(self)@.accepts(Scalar::Int32(0)),
            old(self)@.room() >= 1,
        ensures
            final(self).wf(),
            final(self)@ == old(self)@.ingest(
                chunk_idx,
                match item {
                    Some(x) => Scalar::Int32(x),
                    None => Scalar::Null,
                },
            ),
    {
        let value = match item {
            Some(x) => Scalar::Int32(x),
            None => Scalar::Null,
        };
        self.pre_agg_value(chunk_idx, value);
    }

    /// Typed ingestion of one `i64` row (`None` is a null row).
    pub fn pre_agg_i64(&mut self, chunk_idx: IdxSize, item: Option<i64>)
        requires
            old(self).wf(),
            old(self)@.accepts(Scalar::Int64(0)),
            old(self)@.room() >= 1,
        ensures
            final(self).wf(),
            final(self)@ == old(self)@.ingest(
                chunk_idx,
                match item {
                    Some(x) => Scalar::Int64(x),
                    None => Scalar::Null,
                },
            ),
    {
        let value = match item {
            Some(x) => Scalar::Int64(x),
            None => Scalar::Null,
        };
        self.pre_agg_value(chunk_idx, value);
    }

    /// Generic ingestion of the rows `items` of chunk `chunk_idx`, in order.
    pub fn pre_agg(&mut self, chunk_idx: IdxSize, items: &Vec<Scalar>)
        requires
            old(self).wf(),
            forall|j: int| 0 <= j < items.len() ==> old(self)@.accepts(#[trigger] items[j]),
            items.len() <= old(self)@.room(),
        ensures
            final(self).wf(),
            final(self)@ == old(self)@.ingest_all(chunk_idx, items@),
    {
        let mut i: usize = 0;
        proof {
            assert(items@.skip(0) =~= items@);
        }
        while i < items.len()
            invariant
                self.wf(),
                0 <= i <= items.len(),
                self@.ingest_all(chunk_idx, items@.skip(i as int)) == old(self)@.ingest_all(chunk_idx, items@),
                forall|j: int| i <= j < items.len() ==> self@.accepts(#[trigger] items[j]),
                items.len() - i <= self@.room(),
            decreases items.len() - i,
        {
            proof {
                assert(items@.skip(i as int).drop_first() =~= items@.skip(i + 1));
            }
            self.pre_agg_value(chunk_idx, items[i]);
            i = i + 1;
        }
        proof {
            assert(items@.skip(i as int) =~= Seq::<Scalar>::empty());
        }
    }

    /// Merges `other`, a handle of the same kind and configuration, into this one.
    pub fn combine(&mut self, other: &AggregateFunction)
        requires
            old(self).wf(),
            other.wf(),
            old(self)@.mergeable(other@),
        ensures
            final(self).wf(),
            final(self)@ == old(self)@.merge(other@),
    {
        match (self, other) {
            (AggregateFunction::First(a), AggregateFunction::First(b)) => a.combine(b),
            (AggregateFunction::Last(a), AggregateFunction::Last(b)) => a.combine(b),
            (AggregateFunction::Count(a), AggregateFunction::Count(b)) => a.combine(b),
            (AggregateFunction::SumU32(a), AggregateFunction::SumU32(b)) => a.combine(b),
            (AggregateFunction::SumU64(a), AggregateFunction::SumU64(b)) => a.combine(b),
            (AggregateFunction::SumI32(a), AggregateFunction::SumI32(b)) => a.combine(b),
            (AggregateFunction::SumI64(a), AggregateFunction::SumI64(b)) => a.combine(b),
            (AggregateFunction::MeanF32(a), AggregateFunction::MeanF32(b)) => a.acc.combine(&b.acc),
            (AggregateFunction::MeanF64(a), AggregateFunction::MeanF64(b)) => a.acc.combine(&b.acc),
            _ => {},
        }
    }

    /// The group's result.
    pub fn finalize(&mut self) -> (r: Scalar)
        requires
            old(self).wf(),
        ensures
            *final(self) == *old(self),
            r == old(self)@.result(),
    {
        match self {
            AggregateFunction::First(a) => FirstAgg::finalize(a),
            AggregateFunction::Last(a) => LastAgg::finalize(a),
            AggregateFunction::Count(a) => CountAgg::finalize(a),
            AggregateFunction::SumU32(a) => a.finalize(DataType::UInt32),
            AggregateFunction::SumU64(a) => a.finalize(DataType::UInt64),
            AggregateFunction::SumI32(a) => a.finalize(DataType::Int32),
            AggregateFunction::SumI64(a) => a.finalize(DataType::Int64),
            AggregateFunction::MeanF32(a) => a.finalize(),
            AggregateFunction::MeanF64(a) => a.finalize(),
            AggregateFunction::Null(a) => NullAgg::finalize(a),
        }
    }

    /// A fresh, empty handle of the same kind and configuration, for another partition.
    pub fn split2(&self) -> (r: AggregateFunction)
        ensures
            r.wf(),
            r@ == self@.empty_peer(),
    {
        match self {
            AggregateFunction::First(a) => AggregateFunction::First(FirstAgg::new(a.dtype)),
            AggregateFunction::Last(a) => AggregateFunction::Last(LastAgg::new(a.dtype)),
            AggregateFunction::Count(_) => AggregateFunction::Count(CountAgg::new()),
            AggregateFunction::SumU32(_) => AggregateFunction::SumU32(SumAgg::new()),
            AggregateFunction::SumU64(_) => AggregateFunction::SumU64(SumAgg::new()),
            AggregateFunction::SumI32(_) => AggregateFunction::SumI32(SumAgg::new()),
            AggregateFunction::SumI64(_) => AggregateFunction::SumI64(SumAgg::new()),
            AggregateFunction::MeanF32(_) => AggregateFunction::MeanF32(MeanAgg::new()),
            AggregateFunction::MeanF64(_) => AggregateFunction::MeanF64(MeanAgg::new()),
            AggregateFunction::Null(_) => AggregateFunction::Null(NullAgg::new()),
        }
    }
}

} // verus!
