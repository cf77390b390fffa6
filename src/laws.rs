use vstd::prelude::*;
use crate::value::{IdxSize, Scalar};
use crate::view::{AggView, int_scalar};

verus! {

/// Whether the kind's merge is plain addition of counters.
pub open spec fn is_additive(s: AggView) -> bool {
    s is Count || s is Sum || s is Mean
}

/// The chunk index of the captured row of a First or Last handle.
pub open spec fn seen_chunk(s: AggView) -> IdxSize {
    match s.seen() {
        Some(p) => p.1,
        None => 0,
    }
}

/// Merging is commutative: two handles of one configuration whose captured
/// rows, if any, come from distinct chunks merge to the same state in either
/// direction.
pub proof fn lemma_merge_commutative(a: AggView, b: AggView)
    requires
        a.mergeable(b),
    ensures
        b.mergeable(a),
        a.merge(b) == b.merge(a),
{
}

/// Merging is associative: any merge tree over three handles yields one state.
pub proof fn lemma_merge_associative(a: AggView, b: AggView, c: AggView)
    requires
        a.mergeable(b),
        b.mergeable(c),
        a.mergeable(c),
        a.merge(b).mergeable(c),
    ensures
        a.mergeable(b.merge(c)),
        a.merge(b).merge(c) == a.merge(b.merge(c)),
{
}

/// For Count, Sum and Mean, merging in a handle that ingested `items` after
/// `t` is the same as merging `t` and then ingesting `items`.
pub proof fn lemma_merge_then_ingest(s: AggView, t: AggView, c1: IdxSize, c2: IdxSize, items: Seq<Scalar>)
    requires
        is_additive(s),
        s.same_config(t),
    ensures
        s.merge(t.ingest_all(c2, items)) == s.merge(t).ingest_all(c1, items),
    decreases items.len(),
{
    if items.len() > 0 {
        let t1 = t.ingest(c2, items[0]);
        lemma_merge_then_ingest(s, t1, c1, c2, items.drop_first());
        assert(s.merge(t1) == s.merge(t).ingest(c1, items[0]));
    }
}

/// For Count, Sum and Mean, how rows are split across partitions does not
/// matter: merging a fresh peer that ingested `items` gives the state that
/// ingesting `items` directly gives.
pub proof fn lemma_partition_independent(s: AggView, chunk: IdxSize, items: Seq<Scalar>)
    requires
        is_additive(s),
    ensures
        s.merge(s.empty_peer().ingest_all(chunk, items)) == s.ingest_all(chunk, items),
{
    lemma_merge_then_ingest(s, s.empty_peer(), chunk, chunk, items);
    assert(s.merge(s.empty_peer()) == s);
}

/// Null rows leave a sum and a mean as they are and add one each to a count.
pub proof fn lemma_ingest_nulls(s: AggView, chunk: IdxSize, items: Seq<Scalar>)
    requires
        is_additive(s),
        forall|j: int| 0 <= j < items.len() ==> #[trigger] items[j] is Null,
    ensures
        s is Count ==> s.ingest_all(chunk, items) == (AggView::Count { n: s->n + items.len() }),
        !(s is Count) ==> s.ingest_all(chunk, items) == s,
    decreases items.len(),
{
    if items.len() > 0 {
        let rest = items.drop_first();
        assert forall|j: int| 0 <= j < rest.len() implies #[trigger] rest[j] is Null by {
            assert(rest[j] == items[j + 1]);
        }
        lemma_ingest_nulls(s.ingest(chunk, items[0]), chunk, rest);
    }
}

/// Over rows that are all null, a fresh Sum yields zero, a fresh Mean yields
/// null, and a fresh Count yields the number of rows.
pub proof fn lemma_null_propagation(s: AggView, chunk: IdxSize, items: Seq<Scalar>)
    requires
        is_additive(s),
        s == s.empty_peer(),
        forall|j: int| 0 <= j < items.len() ==> #[trigger] items[j] is Null,
    ensures
        s is Sum ==> s.ingest_all(chunk, items).result() == int_scalar(s->Sum_dtype, 0),
        s is Mean ==> s.ingest_all(chunk, items).result() == Scalar::Null,
        s is Count ==> s.ingest_all(chunk, items).result() == Scalar::UInt64(items.len() as u64),
{
    lemma_ingest_nulls(s, chunk, items);
}

/// First keeps the row of the lower chunk index and Last the row of the
/// higher one, whichever of two partitions is merged into the other.
pub proof fn lemma_first_last_order(a: AggView, b: AggView)
    requires
        a is First || a is Last,
        a.mergeable(b),
        a.seen() is Some,
        b.seen() is Some,
    ensures
        a.merge(b) == b.merge(a),
        a is First ==> a.merge(b).seen() == (if seen_chunk(a) < seen_chunk(b) {
            a.seen()
        } else {
            b.seen()
        }),
        a is Last ==> a.merge(b).seen() == (if seen_chunk(a) > seen_chunk(b) {
            a.seen()
        } else {
            b.seen()
        }),
{
}

/// A null row is captured like any value: a fresh First that ingests a null
/// at chunk `c` still finalizes to null after merging any partition whose row
/// comes from a later chunk.
pub proof fn lemma_first_null_is_a_value(s: AggView, c: IdxSize, b: AggView)
    requires
        s is First,
        s.seen() is None,
        s.mergeable(b),
        b.seen() matches Some(q) ==> q.1 > c,
    ensures
        s.ingest(c, Scalar::Null).merge(b).result() == Scalar::Null,
{
}

/// A fresh peer keeps the configuration and finalizes to the kind's identity:
/// zero for Sum and Count, null for Mean, First, Last and the placeholder.
pub proof fn lemma_spawn_identity(s: AggView)
    ensures
        s.empty_peer().dtype() == s.dtype(),
        s.empty_peer().same_config(s),
        s is Sum ==> s.empty_peer().result() == int_scalar(s->Sum_dtype, 0),
        s is Count ==> s.empty_peer().result() == Scalar::UInt64(0),
        !(s is Sum || s is Count) ==> s.empty_peer().result() == Scalar::Null,
{
}

} // verus!
