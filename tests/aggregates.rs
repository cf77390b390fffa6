use groupby_aggregates::aggregates::{CountAgg, FirstAgg, LastAgg, SumAgg};
use groupby_aggregates::interface::{AggKind, AggregateFn, AggregateFunction};
use groupby_aggregates::value::{DataType, Quotient, Scalar};

fn handle(kind: AggKind, dtype: DataType) -> AggregateFunction {
    AggregateFunction::new(kind, dtype).expect("a valid kind and type")
}

fn feed_rows(h: &mut AggregateFunction) {
    h.pre_agg_i64(0, Some(10));
    h.pre_agg_i64(1, None);
    h.pre_agg_i64(2, Some(5));
}

#[test]
fn sum_count_mean_of_three_rows() {
    let mut sum = handle(AggKind::Sum, DataType::Int64);
    feed_rows(&mut sum);
    assert_eq!(sum.finalize(), Scalar::Int64(15));

    let mut count = handle(AggKind::Count, DataType::UInt64);
    feed_rows(&mut count);
    assert_eq!(count.finalize(), Scalar::UInt64(3));

    let mut mean = handle(AggKind::Mean, DataType::Float64);
    feed_rows(&mut mean);
    let r = mean.finalize();
    assert_eq!(r, Scalar::Quotient(Quotient { negative: false, magnitude: 15, count: 2 }));
    if let Scalar::Quotient(q) = r {
        assert_eq!(q.magnitude as f64 / q.count as f64, 7.5);
    }
}

#[test]
fn merged_sums_in_both_directions() {
    let mut a = handle(AggKind::Sum, DataType::Int64);
    a.pre_agg_i64(0, Some(4));
    let mut b = handle(AggKind::Sum, DataType::Int64);
    b.pre_agg_i64(1, Some(6));
    let mut ab = a;
    ab.combine(&b);
    let mut ba = b;
    ba.combine(&a);
    assert_eq!(ab.finalize(), Scalar::Int64(10));
    assert_eq!(ba.finalize(), Scalar::Int64(10));
}

#[test]
fn only_nulls() {
    let nulls = vec![Scalar::Null, Scalar::Null, Scalar::Null];
    let mut sum = handle(AggKind::Sum, DataType::Int32);
    sum.pre_agg(0, &nulls);
    assert_eq!(sum.finalize(), Scalar::Int32(0));
    let mut mean = handle(AggKind::Mean, DataType::Float32);
    mean.pre_agg(0, &nulls);
    assert_eq!(mean.finalize(), Scalar::Null);
    let mut count = handle(AggKind::Count, DataType::UInt64);
    count.pre_agg(0, &nulls);
    assert_eq!(count.finalize(), Scalar::UInt64(3));
}

fn first_last_rows() -> Vec<(u32, i32)> {
    vec![(3, 30), (1, 10), (2, 20)]
}

fn reduce(kind: AggKind, parts: &[Vec<(u32, i32)>], order: &[usize]) -> Scalar {
    let mut handles: Vec<AggregateFunction> = Vec::new();
    for part in parts {
        let mut h = handle(kind, DataType::Int32);
        let mut rows = part.clone();
        rows.sort();
        for (chunk, v) in rows {
            h.pre_agg_i32(chunk, Some(v));
        }
        handles.push(h);
    }
    let mut acc = handles[order[0]];
    for &i in &order[1..] {
        acc.combine(&handles[i]);
    }
    acc.finalize()
}

#[test]
fn first_last_under_interleaving() {
    let rows = first_last_rows();
    let splits: Vec<Vec<Vec<(u32, i32)>>> = vec![
        vec![rows.clone()],
        vec![vec![rows[0]], vec![rows[1]], vec![rows[2]]],
        vec![vec![rows[0], rows[2]], vec![rows[1]]],
        vec![vec![rows[1], rows[2]], vec![rows[0]]],
    ];
    for parts in &splits {
        let n = parts.len();
        let orders: Vec<Vec<usize>> = match n {
            1 => vec![vec![0]],
            2 => vec![vec![0, 1], vec![1, 0]],
            _ => vec![vec![0, 1, 2], vec![2, 1, 0], vec![1, 2, 0], vec![2, 0, 1]],
        };
        for order in &orders {
            assert_eq!(reduce(AggKind::First, parts, order), Scalar::Int32(10));
            assert_eq!(reduce(AggKind::Last, parts, order), Scalar::Int32(30));
        }
    }
}

#[test]
fn first_keeps_an_earliest_null() {
    let mut early = handle(AggKind::First, DataType::Int32);
    early.pre_agg_i32(1, None);
    early.pre_agg_i32(4, Some(7));
    let mut late = handle(AggKind::First, DataType::Int32);
    late.pre_agg_i32(2, Some(8));
    let mut a = early;
    a.combine(&late);
    assert_eq!(a.finalize(), Scalar::Null);
    let mut b = late;
    b.combine(&early);
    assert_eq!(b.finalize(), Scalar::Null);
}

#[test]
fn last_keeps_a_latest_null() {
    let mut h = handle(AggKind::Last, DataType::UInt8);
    h.pre_agg_u8(0, Some(1));
    h.pre_agg_u8(1, None);
    let mut earlier = handle(AggKind::Last, DataType::UInt8);
    earlier.pre_agg_u8(0, Some(9));
    h.combine(&earlier);
    assert_eq!(h.finalize(), Scalar::Null);
}

#[test]
fn spawned_peer_is_empty() {
    let cases = [
        (AggKind::Sum, DataType::UInt32, Scalar::UInt32(0)),
        (AggKind::Sum, DataType::Int64, Scalar::Int64(0)),
        (AggKind::Count, DataType::UInt64, Scalar::UInt64(0)),
        (AggKind::Mean, DataType::Float64, Scalar::Null),
        (AggKind::First, DataType::UInt16, Scalar::Null),
        (AggKind::Last, DataType::UInt16, Scalar::Null),
        (AggKind::Null, DataType::Null, Scalar::Null),
    ];
    for (kind, dtype, identity) in cases {
        let mut h = handle(kind, dtype);
        h.pre_agg_u16(5, Some(3));
        let mut peer = h.split2();
        assert_eq!(peer.dtype(), h.dtype());
        assert_eq!(peer.finalize(), identity);
        if kind != AggKind::Null {
            assert_ne!(h.finalize(), identity);
        }
    }
}

#[test]
fn placeholder_yields_null() {
    let mut h = handle(AggKind::Null, DataType::Null);
    h.pre_agg_i8(0, Some(-3));
    h.pre_agg(1, &vec![Scalar::UInt64(4)]);
    let other = h.split2();
    h.combine(&other);
    assert_eq!(h.finalize(), Scalar::Null);
    assert!(!h.has_physical_agg());
}

#[test]
fn new_refuses_mismatched_types() {
    assert!(AggregateFunction::new(AggKind::Sum, DataType::Float64).is_none());
    assert!(AggregateFunction::new(AggKind::Sum, DataType::UInt8).is_none());
    assert!(AggregateFunction::new(AggKind::Mean, DataType::Int64).is_none());
    assert!(AggregateFunction::new(AggKind::Mean, DataType::Float32).is_some());
    assert!(AggregateFunction::new(AggKind::Count, DataType::UInt64).is_some());
}

#[test]
fn dtype_is_the_configured_one() {
    assert_eq!(handle(AggKind::Sum, DataType::UInt32).dtype(), DataType::UInt32);
    assert_eq!(handle(AggKind::Mean, DataType::Float32).dtype(), DataType::Float32);
    assert_eq!(handle(AggKind::Count, DataType::Int8).dtype(), DataType::UInt64);
    assert_eq!(handle(AggKind::First, DataType::Int16).dtype(), DataType::Int16);
    assert!(handle(AggKind::Count, DataType::UInt64).has_physical_agg());
    assert!(!handle(AggKind::First, DataType::Int16).has_physical_agg());
}

#[test]
fn sum_saturates_to_its_type() {
    let mut h = handle(AggKind::Sum, DataType::Int32);
    h.pre_agg_i64(0, Some(i64::MAX));
    h.pre_agg_i64(0, Some(1));
    assert_eq!(h.finalize(), Scalar::Int32(i32::MAX));

    let mut l = handle(AggKind::Sum, DataType::Int32);
    l.pre_agg_i32(0, Some(i32::MIN));
    l.pre_agg_i8(0, Some(-1));
    assert_eq!(l.finalize(), Scalar::Int32(i32::MIN));

    let mut u = handle(AggKind::Sum, DataType::UInt64);
    u.pre_agg_u64(0, Some(u64::MAX));
    u.pre_agg_u64(0, Some(u64::MAX));
    assert_eq!(u.finalize(), Scalar::UInt64(u64::MAX));

    let mut w = handle(AggKind::Sum, DataType::UInt32);
    w.pre_agg_u64(0, Some(1 << 32));
    w.pre_agg_u8(0, Some(1));
    assert_eq!(w.finalize(), Scalar::UInt32(u32::MAX));
}

#[test]
fn sum_is_exact_before_narrowing() {
    let mut h = handle(AggKind::Sum, DataType::Int64);
    h.pre_agg_u64(0, Some(u64::MAX));
    h.pre_agg_i64(0, Some(i64::MIN));
    h.pre_agg_i64(0, Some(i64::MIN));
    assert_eq!(h.finalize(), Scalar::Int64(-1));
    let mut m = handle(AggKind::Sum, DataType::Int64);
    m.pre_agg_i64(0, Some(i64::MIN));
    m.pre_agg_i64(0, Some(i64::MIN));
    assert_eq!(m.finalize(), Scalar::Int64(i64::MIN));
    let mut k = handle(AggKind::Sum, DataType::Int64);
    k.pre_agg_i16(0, Some(-7));
    k.pre_agg_u16(0, Some(3));
    assert_eq!(k.finalize(), Scalar::Int64(-4));
}

#[test]
fn mean_of_negative_values() {
    let mut h = handle(AggKind::Mean, DataType::Float64);
    h.pre_agg(0, &vec![Scalar::Int32(-3), Scalar::Null, Scalar::Int8(-4), Scalar::UInt16(1)]);
    assert_eq!(h.finalize(), Scalar::Quotient(Quotient { negative: true, magnitude: 6, count: 3 }));
    let mut z = handle(AggKind::Mean, DataType::Float64);
    z.pre_agg(0, &vec![Scalar::Int32(-3), Scalar::Int32(3)]);
    assert_eq!(z.finalize(), Scalar::Quotient(Quotient { negative: false, magnitude: 0, count: 2 }));
}

#[test]
fn merge_order_does_not_change_mean() {
    let values: [i64; 6] = [5, -2, 9, 0, 11, -7];
    let mut parts: Vec<AggregateFunction> = Vec::new();
    for pair in values.chunks(2) {
        let mut h = handle(AggKind::Mean, DataType::Float64);
        h.pre_agg_i64(0, Some(pair[0]));
        h.pre_agg_i64(1, Some(pair[1]));
        parts.push(h);
    }
    let mut left = parts[0];
    left.combine(&parts[1]);
    left.combine(&parts[2]);
    let mut right = parts[1];
    right.combine(&parts[0]);
    let mut tree = parts[2];
    tree.combine(&right);
    let expect = Scalar::Quotient(Quotient { negative: false, magnitude: 16, count: 6 });
    assert_eq!(left.finalize(), expect);
    assert_eq!(tree.finalize(), expect);
}

#[test]
fn generic_path_first_and_last_of_a_chunk() {
    let rows = vec![Scalar::UInt32(4), Scalar::UInt32(5), Scalar::Null];
    let mut f = handle(AggKind::First, DataType::UInt32);
    f.pre_agg(2, &rows);
    assert_eq!(f.finalize(), Scalar::UInt32(4));
    let mut l = handle(AggKind::Last, DataType::UInt32);
    l.pre_agg(2, &rows);
    assert_eq!(l.finalize(), Scalar::Null);
    let mut empty = handle(AggKind::First, DataType::UInt32);
    empty.pre_agg(0, &Vec::new());
    assert_eq!(empty.finalize(), Scalar::Null);
}

#[test]
fn kind_structs_directly() {
    let mut c = CountAgg::new();
    c.add_rows(4);
    c.combine(&CountAgg { n: 2 });
    assert_eq!(c.finalize(), Scalar::UInt64(6));

    let mut s = SumAgg::new();
    s.add(-9);
    s.add(2);
    assert_eq!(s.finalize(DataType::Int64), Scalar::Int64(-7));
    assert_eq!(s.finalize(DataType::UInt32), Scalar::UInt32(0));

    let mut f = FirstAgg::new(DataType::Int8);
    f.ingest(7, Scalar::Int8(1));
    f.ingest(8, Scalar::Int8(2));
    let mut g = FirstAgg::new(DataType::Int8);
    g.ingest(3, Scalar::Int8(9));
    f.combine(&g);
    assert_eq!(f.finalize(), Scalar::Int8(9));

    let mut l = LastAgg::new(DataType::Int8);
    l.ingest(7, Scalar::Int8(1));
    l.ingest(8, Scalar::Int8(2));
    assert_eq!(l.finalize(), Scalar::Int8(2));
}

#[test]
fn scalar_helpers() {
    assert_eq!(Scalar::Int16(-5).as_int(), Some(-5));
    assert_eq!(Scalar::UInt64(u64::MAX).as_int(), Some(u64::MAX as i128));
    assert_eq!(Scalar::Null.as_int(), None);
    assert_eq!(Scalar::Int8(1).dtype(), DataType::Int8);
    assert_eq!(Scalar::Null.dtype(), DataType::Null);
    assert!(Scalar::UInt16(1).is_unsigned_int());
    assert!(!Scalar::Int16(1).is_unsigned_int());
}

#[test]
fn precondition_checks() {
    let sum_u = handle(AggKind::Sum, DataType::UInt64);
    assert!(sum_u.accepts(&Scalar::UInt8(1)));
    assert!(!sum_u.accepts(&Scalar::Int8(1)));
    assert!(sum_u.accepts(&Scalar::Null));
    let first = handle(AggKind::First, DataType::Int32);
    assert!(first.accepts(&Scalar::Int32(1)));
    assert!(!first.accepts(&Scalar::Int64(1)));
    let mean = handle(AggKind::Mean, DataType::Float64);
    assert!(!mean.accepts(&Scalar::Quotient(Quotient { negative: false, magnitude: 1, count: 1 })));

    let mut count = handle(AggKind::Count, DataType::UInt64);
    assert_eq!(count.room(), u64::MAX);
    count.pre_agg_u8(0, None);
    assert_eq!(count.room(), u64::MAX - 1);
    assert!(count.can_merge(&count.split2()));
    assert!(!count.can_merge(&sum_u));
    let full = AggregateFunction::Count(CountAgg { n: u64::MAX });
    assert!(!count.can_merge(&full));

    let mut a = handle(AggKind::Last, DataType::Int32);
    a.pre_agg_i32(3, Some(1));
    let mut b = handle(AggKind::Last, DataType::Int32);
    b.pre_agg_i32(3, Some(2));
    assert!(!a.can_merge(&b));
    let c = handle(AggKind::Last, DataType::Int64);
    assert!(!a.can_merge(&c));
}

#[test]
fn through_the_trait() {
    fn reduce_all<A: AggregateFn + Copy>(parts: &[A]) -> Scalar {
        let mut acc = parts[0];
        for p in &parts[1..] {
            AggregateFn::combine(&mut acc, p);
        }
        AggregateFn::finalize(&mut acc)
    }
    let mut parts = Vec::new();
    for v in [3i64, 4, 5] {
        let mut h = handle(AggKind::Sum, DataType::Int64);
        AggregateFn::pre_agg(&mut h, 0, &vec![Scalar::Int64(v)]);
        parts.push(h);
    }
    assert_eq!(reduce_all(&parts), Scalar::Int64(12));
    assert_eq!(AggregateFn::dtype(&parts[0]), DataType::Int64);
    assert!(AggregateFn::has_physical_agg(&parts[0]));
    let mut peer = AggregateFn::split2(&parts[0]);
    assert_eq!(AggregateFn::finalize(&mut peer), Scalar::Int64(0));
}

#[test]
fn kind_states_through_the_trait() {
    let mut early = FirstAgg::new(DataType::UInt8);
    AggregateFn::pre_agg(&mut early, 2, &vec![Scalar::UInt8(6), Scalar::UInt8(7)]);
    let mut later = AggregateFn::split2(&early);
    AggregateFn::pre_agg(&mut later, 5, &vec![Scalar::UInt8(8)]);
    AggregateFn::combine(&mut later, &early);
    assert_eq!(AggregateFn::finalize(&mut later), Scalar::UInt8(6));

    let mut last = LastAgg::new(DataType::UInt8);
    AggregateFn::pre_agg(&mut last, 2, &vec![Scalar::UInt8(6), Scalar::UInt8(7)]);
    assert_eq!(AggregateFn::finalize(&mut last), Scalar::UInt8(7));
    assert_eq!(AggregateFn::dtype(&last), DataType::UInt8);

    let mut count = CountAgg::new();
    AggregateFn::pre_agg(&mut count, 0, &vec![Scalar::Null, Scalar::Int8(1)]);
    let other = count;
    AggregateFn::combine(&mut count, &other);
    assert_eq!(AggregateFn::finalize(&mut count), Scalar::UInt64(4));
}
