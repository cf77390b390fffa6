use vstd::prelude::*;
use crate::value::{DataType, IdxSize, Scalar, quotient_of, u64_max, Quotient};
use crate::interface::AggregateFn;
use crate::view::{AggView, is_sum_dtype, pick, saturated};

verus! {

/// Counts every row, nulls included.
#[derive(Clone, Copy, Debug)]
pub struct CountAgg {
    pub n: u64,
}

impl CountAgg {
    pub fn new() -> (r: CountAgg)
        ensures
            r.n == 0,
    {
        CountAgg { n: 0 }
    }

    /// Adds `k` rows.
    pub fn add_rows(&mut self, k: u64)
        requires
            old(self).n + k <= u64_max(),
        ensures
            final(self).n == old(self).n + k,
    {
        self.n = self.n + k;
    }

    pub fn combine(&mut self, other: &CountAgg)
        requires
            old(self).n + other.n <= u64_max(),
        ensures
            final(self).n == old(self).n + other.n,
    {
        self.n = self.n + other.n;
    }

    pub fn finalize(&self) -> (r: Scalar)
        ensures
            r == Scalar::UInt64(self.n),
    {
        Scalar::UInt64(self.n)
    }
}

/// A sum of integers, kept exactly as a positive and a negative part.
#[derive(Clone, Copy, Debug)]
pub struct SumAgg {
    pub pos: u128,
    pub neg: u128,
    /// The number of non-null values added.
    pub count: u64,
}

impl SumAgg {
    /// The exact total.
    pub open spec fn total(&self) -> int {
        self.pos - self.neg
    }

    /// Each part is at most `count` times the largest value an input can have.
    pub open spec fn wf(&self) -> bool {
        &&& self.pos <= self.count * u64_max()
        &&& self.neg <= self.count * u64_max()
    }

    pub fn new() -> (r: SumAgg)
        ensures
            r.wf(),
            r.total() == 0,
            r.count == 0,
            r.neg == 0,
    {
        SumAgg { pos: 0, neg: 0, count: 0 }
    }

    /// Adds one non-null value.
    pub fn add(&mut self, v: i128)
        requires
            old(self).wf(),
            old(self).count < u64_max(),
            -0x8000_0000_0000_0000 <= v <= u64_max(),
        ensures
            final(self).wf(),
            final(self).total() == old(self).total() + v,
            final(self).count == old(self).count + 1,
            v >= 0 ==> final(self).neg == old(self).neg,
    {
        proof {
            let c = self.count as int;
            assert((c + 1) * u64_max() == c * u64_max() + u64_max()) by (nonlinear_arith);
            assert((c + 1) * u64_max() <= u64_max() * u64_max()) by (nonlinear_arith)
                requires c + 1 <= u64_max();
        }
        if v >= 0 {
            self.pos = self.pos + v as u128;
        } else {
            self.neg = self.neg + (0 - v) as u128;
        }
        self.count = self.count + 1;
    }

    pub fn combine(&mut self, other: &SumAgg)
        requires
            old(self).wf(),
            other.wf(),
            old(self).count + other.count <= u64_max(),
        ensures
            final(self).wf(),
            final(self).total() == old(self).total() + other.total(),
            final(self).count == old(self).count + other.count,
            final(self).neg == old(self).neg + other.neg,
    {
        proof {
            let a = self.count as int;
            let b = other.count as int;
            assert((a + b) * u64_max() == a * u64_max() + b * u64_max()) by (nonlinear_arith);
            assert((a + b) * u64_max() <= u64_max() * u64_max()) by (nonlinear_arith)
                requires a + b <= u64_max();
        }
        self.pos = self.pos + other.pos;
        self.neg = self.neg + other.neg;
        self.count = self.count + other.count;
    }

    /// The total, saturated to the range of `dt`.
    pub fn finalize(&self, dt: DataType) -> (r: Scalar)
        requires
            is_sum_dtype(dt),
        ensures
            r == saturated(dt, self.total()),
    {
        if self.pos >= self.neg {
            let d = self.pos - self.neg;
            match dt {
                DataType::UInt32 => if d > 0xFFFF_FFFF {
                    Scalar::UInt32(0xFFFF_FFFF)
                } else {
                    Scalar::UInt32(d as u32)
                },
                DataType::Int32 => if d > 0x7FFF_FFFF {
                    Scalar::Int32(0x7FFF_FFFF)
                } else {
                    Scalar::Int32(d as i32)
                },
                DataType::Int64 => if d > 0x7FFF_FFFF_FFFF_FFFF {
                    Scalar::Int64(0x7FFF_FFFF_FFFF_FFFF)
                } else {
                    Scalar::Int64(d as i64)
                },
                _ => if d > 0xFFFF_FFFF_FFFF_FFFF {
                    Scalar::UInt64(0xFFFF_FFFF_FFFF_FFFF)
                } else {
                    Scalar::UInt64(d as u64)
                },
            }
        } else {
            let d = self.neg - self.pos;
            match dt {
                DataType::UInt32 => Scalar::UInt32(0),
                DataType::Int32 => if d > 0x8000_0000 {
                    Scalar::Int32(-0x8000_0000)
                } else {
                    Scalar::Int32((0 - d as i64) as i32)
                },
                DataType::Int64 => if d > 0x8000_0000_0000_0000 {
                    Scalar::Int64(-0x8000_0000_0000_0000)
                } else {
                    Scalar::Int64((0 - d as i128) as i64)
                },
                _ => Scalar::UInt64(0),
            }
        }
    }
}

/// A mean of integers, kept as an exact sum and a count of non-null values.
#[derive(Clone, Copy, Debug)]
pub struct MeanAgg {
    pub acc: SumAgg,
}

impl MeanAgg {
    pub fn new() -> (r: MeanAgg)
        ensures
            r.acc.wf(),
            r.acc.total() == 0,
            r.acc.count == 0,
    {
        MeanAgg { acc: SumAgg::new() }
    }

    /// The exact mean, or null when no non-null value was added.
    pub fn finalize(&self) -> (r: Scalar)
        requires
            self.acc.wf(),
        ensures
            r == (if self.acc.count == 0 {
                Scalar::Null
            } else {
                Scalar::Quotient(quotient_of(self.acc.total(), self.acc.count as nat))
            }),
    {
        if self.acc.count == 0 {
            Scalar::Null
        } else if self.acc.pos >= self.acc.neg {
            Scalar::Quotient(Quotient { negative: false, magnitude: self.acc.pos - self.acc.neg, count: self.acc.count })
        } else {
            Scalar::Quotient(Quotient { negative: true, magnitude: self.acc.neg - self.acc.pos, count: self.acc.count })
        }
    }
}

/// Keeps the earliest row of a group: the first one seen in a partition, and
/// the one with the lower chunk index when two partitions are merged.
#[derive(Clone, Copy, Debug)]
pub struct FirstAgg {
    pub dtype: DataType,
    pub seen: Option<(Scalar, IdxSize)>,
}

/// Keeps the latest row of a group: the last one seen in a partition, and
/// the one with the higher chunk index when two partitions are merged.
#[derive(Clone, Copy, Debug)]
pub struct LastAgg {
    pub dtype: DataType,
    pub seen: Option<(Scalar, IdxSize)>,
}

/// The row that wins a merge of two captured rows.
fn pick_row(a: Option<(Scalar, IdxSize)>, b: Option<(Scalar, IdxSize)>, earliest: bool) -> (r: Option<(Scalar, IdxSize)>)
    ensures
        r == pick(a, b, earliest),
{
    match (a, b) {
        (None, _) => b,
        (_, None) => a,
        (Some(p), Some(q)) => if (earliest && q.1 < p.1) || (!earliest && q.1 > p.1) {
            b
        } else {
            a
        },
    }
}

/// The captured value, or null when no row was seen.
fn seen_value(seen: Option<(Scalar, IdxSize)>) -> (r: Scalar)
    ensures
        r == (match seen {
            Some(p) => p.0,
            None => Scalar::Null,
        }),
{
    match seen {
        Some(p) => p.0,
        None => Scalar::Null,
    }
}

impl FirstAgg {
    pub fn new(dtype: DataType) -> (r: FirstAgg)
        ensures
            r.dtype == dtype,
            r.seen is None,
    {
        FirstAgg { dtype, seen: None }
    }

    /// Captures the row if none was captured yet; a null is captured like any value.
    pub fn ingest(&mut self, chunk_idx: IdxSize, item: Scalar)
        ensures
            final(self).dtype == old(self).dtype,
            final(self).seen == (if old(self).seen is None {
                Some((item, chunk_idx))
            } else {
                old(self).seen
            }),
    {
        if self.seen.is_none() {
            self.seen = Some((item, chunk_idx));
        }
    }

    pub fn combine(&mut self, other: &FirstAgg)
        ensures
            final(self).dtype == old(self).dtype,
            final(self).seen == pick(old(self).seen, other.seen, true),
    {
        self.seen = pick_row(self.seen, other.seen, true);
    }

    pub fn finalize(&self) -> (r: Scalar)
        ensures
            r == (match self.seen {
                Some(p) => p.0,
                None => Scalar::Null,
            }),
    {
        seen_value(self.seen)
    }
}

impl LastAgg {
    pub fn new(dtype: DataType) -> (r: LastAgg)
        ensures
            r.dtype == dtype,
            r.seen is None,
    {
        LastAgg { dtype, seen: None }
    }

    /// Captures the row, replacing any earlier one.
    pub fn ingest(&mut self, chunk_idx: IdxSize, item: Scalar)
        ensures
            final(self).dtype == old(self).dtype,
            final(self).seen == Some((item, chunk_idx)),
    {
        self.seen = Some((item, chunk_idx));
    }

    pub fn combine(&mut self, other: &LastAgg)
        ensures
            final(self).dtype == old(self).dtype,
            final(self).seen == pick(old(self).seen, other.seen, false),
    {
        self.seen = pick_row(self.seen, other.seen, false);
    }

    pub fn finalize(&self) -> (r: Scalar)
        ensures
            r == (match self.seen {
                Some(p) => p.0,
                None => Scalar::Null,
            }),
    {
        seen_value(self.seen)
    }
}

/// Stands for an aggregate with no implementation: accepts everything and yields null.
#[derive(Clone, Copy, Debug)]
pub struct NullAgg {}

impl NullAgg {
    pub fn new() -> (r: NullAgg) {
        NullAgg {}
    }

    pub fn finalize(&self) -> (r: Scalar)
        ensures
            r == Scalar::Null,
    {
        Scalar::Null
    }
}

impl AggregateFn for FirstAgg {
    open spec fn state(&self) -> AggView {
        AggView::First { dtype: self.dtype, seen: self.seen }
    }

    open spec fn well_formed(&self) -> bool {
        true
    }

    fn has_physical_agg(&self) -> (r: bool) {
        false
    }

    fn pre_agg(&mut self, chunk_idx: IdxSize, items: &Vec<Scalar>) {
        let mut i: usize = 0;
        proof {
            assert(items@.skip(0) =~= items@);
        }
        while i < items.len()
            invariant
                self.well_formed(),
                0 <= i <= items.len(),
                self.state().ingest_all(chunk_idx, items@.skip(i as int)) == old(self).state().ingest_all(
                    chunk_idx,
                    items@,
                ),
                items.len() - i <= self.state().room(),
            decreases items.len() - i,
        {
            proof {
                assert(items@.skip(i as int).drop_first() =~= items@.skip(i + 1));
            }
            self.ingest(chunk_idx, items[i]);
            i = i + 1;
        }
        proof {
            assert(items@.skip(i as int) =~= Seq::<Scalar>::empty());
        }
    }

    fn dtype(&self) -> (r: DataType) {
        self.dtype
    }

    fn combine(&mut self, other: &Self) {
        FirstAgg::combine(self, other)
    }

    fn finalize(&mut self) -> (r: Scalar) {
        FirstAgg::finalize(self)
    }

    fn split2(&self) -> (r: Self) {
        FirstAgg::new(self.dtype)
    }
}

impl AggregateFn for LastAgg {
    open spec fn state(&self) -> AggView {
        AggView::Last { dtype: self.dtype, seen: self.seen }
    }

    open spec fn well_formed(&self) -> bool {
        true
    }

    fn has_physical_agg(&self) -> (r: bool) {
        false
    }

    fn pre_agg(&mut self, chunk_idx: IdxSize, items: &Vec<Scalar>) {
        let mut i: usize = 0;
        proof {
            assert(items@.skip(0) =~= items@);
        }
        while i < items.len()
            invariant
                self.well_formed(),
                0 <= i <= items.len(),
                self.state().ingest_all(chunk_idx, items@.skip(i as int)) == old(self).state().ingest_all(
                    chunk_idx,
                    items@,
                ),
                items.len() - i <= self.state().room(),
            decreases items.len() - i,
        {
            proof {
                assert(items@.skip(i as int).drop_first() =~= items@.skip(i + 1));
            }
            self.ingest(chunk_idx, items[i]);
            i = i + 1;
        }
        proof {
            assert(items@.skip(i as int) =~= Seq::<Scalar>::empty());
        }
    }

    fn dtype(&self) -> (r: DataType) {
        self.dtype
    }

    fn combine(&mut self, other: &Self) {
        LastAgg::combine(self, other)
    }

    fn finalize(&mut self) -> (r: Scalar) {
        LastAgg::finalize(self)
    }

    fn split2(&self) -> (r: Self) {
        LastAgg::new(self.dtype)
    }
}

impl AggregateFn for CountAgg {
    open spec fn state(&self) -> AggView {
        AggView::Count { n: self.n as nat }
    }

    open spec fn well_formed(&self) -> bool {
        true
    }

    fn has_physical_agg(&self) -> (r: bool) {
        true
    }

    fn pre_agg(&mut self, chunk_idx: IdxSize, items: &Vec<Scalar>) {
        let mut i: usize = 0;
        proof {
            assert(items@.skip(0) =~= items@);
        }
        while i < items.len()
            invariant
                self.well_formed(),
                0 <= i <= items.len(),
                self.state().ingest_all(chunk_idx, items@.skip(i as int)) == old(self).state().ingest_all(
                    chunk_idx,
                    items@,
                ),
                items.len() - i <= self.state().room(),
            decreases items.len() - i,
        {
            proof {
                assert(items@.skip(i as int).drop_first() =~= items@.skip(i + 1));
            }
            self.add_rows(1);
            i = i + 1;
        }
        proof {
            assert(items@.skip(i as int) =~= Seq::<Scalar>::empty());
        }
    }

    fn dtype(&self) -> (r: DataType) {
        DataType::UInt64
    }

    fn combine(&mut self, other: &Self) {
        CountAgg::combine(self, other)
    }

    fn finalize(&mut self) -> (r: Scalar) {
        CountAgg::finalize(self)
    }

    fn split2(&self) -> (r: Self) {
        CountAgg::new()
    }
}

impl AggregateFn for NullAgg {
    open spec fn state(&self) -> AggView {
        AggView::Null
    }

    open spec fn well_formed(&self) -> bool {
        true
    }

    fn has_physical_agg(&self) -> (r: bool) {
        false
    }

    fn pre_agg(&mut self, chunk_idx: IdxSize, items: &Vec<Scalar>) {
        let mut i: usize = 0;
        proof {
            assert(items@.skip(0) =~= items@);
        }
        while i < items.len()
            invariant
                self.well_formed(),
                0 <= i <= items.len(),
                self.state().ingest_all(chunk_idx, items@.skip(i as int)) == old(self).state().ingest_all(
                    chunk_idx,
                    items@,
                ),
                items.len() - i <= self.state().room(),
            decreases items.len() - i,
        {
            proof {
                assert(items@.skip(i as int).drop_first() =~= items@.skip(i + 1));
            }
            i = i + 1;
        }
        proof {
            assert(items@.skip(i as int) =~= Seq::<Scalar>::empty());
        }
    }

    fn dtype(&self) -> (r: DataType) {
        DataType::Null
    }

    fn combine(&mut self, other: &Self) {
        
    }

    fn finalize(&mut self) -> (r: Scalar) {
        NullAgg::finalize(self)
    }

    fn split2(&self) -> (r: Self) {
        NullAgg::new()
    }
}

} // verus!
