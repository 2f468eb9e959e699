use vstd::prelude::*;
use crate::record::{Data, contains_seq, text_contains};

verus! {

/// The record's product name contains the query.
pub open spec fn name_matches(d: Data, q: Seq<char>) -> bool {
    contains_seq(d.product_name@, q)
}

/// The records whose product name contains `q`, in their original order.
pub open spec fn filter_spec(records: Seq<Data>, q: Seq<char>) -> Seq<Data> {
    records.filter(|d: Data| name_matches(d, q))
}

/// `out` is drawn from `src` at the strictly increasing positions `idx`, and a
/// position of `src` is among them exactly when its record matches `q`.
pub open spec fn selects_matching(src: Seq<Data>, out: Seq<Data>, q: Seq<char>, idx: Seq<int>) -> bool {
    &&& idx.len() == out.len()
    &&& forall|k: int| 0 <= k < idx.len() ==> 0 <= #[trigger] idx[k] < src.len()
    &&& forall|k: int, l: int| 0 <= k < l < idx.len() ==> #[trigger] idx[k] < #[trigger] idx[l]
    &&& forall|k: int| 0 <= k < idx.len() ==> out[k] == src[#[trigger] idx[k]]
    &&& forall|j: int| 0 <= j < src.len() ==> (name_matches(#[trigger] src[j], q) <==> idx.contains(j))
}

/// The records of `records` whose product name contains `query` as an exact,
/// case-sensitive substring, in their original order.
pub fn filter_by_product_name(records: &Vec<Data>, query: &str) -> (r: Vec<Data>)
    ensures
        r@ == filter_spec(records@, query@),
{
    let mut out: Vec<Data> = Vec::new();
    let mut i: usize = 0;
    while i < records.len()
        invariant
            i <= records@.len(),
            out@ == filter_spec(records@.subrange(0, i as int), query@),
        decreases records@.len() - i,
    {
        proof {
            assert(records@.subrange(0, i as int + 1) =~= records@.subrange(0, i as int).push(
                records@[i as int],
            ));
            lemma_filter_push(records@.subrange(0, i as int), records@[i as int], query@);
        }
        if text_contains(records[i].product_name.as_str(), query) {
            out.push(records[i].clone());
        }
        i = i + 1;
    }
    assert(records@.subrange(0, records@.len() as int) =~= records@);
    out
}

proof fn lemma_filter_push(s: Seq<Data>, x: Data, q: Seq<char>)
    ensures
        filter_spec(s.push(x), q) == (if name_matches(x, q) {
            filter_spec(s, q).push(x)
        } else {
            filter_spec(s, q)
        }),
{
    reveal(Seq::filter);
    assert(s.push(x).drop_last() =~= s);
}

proof fn lemma_indices_of_matches(src: Seq<Data>, q: Seq<char>) -> (idx: Seq<int>)
    ensures
        selects_matching(src, filter_spec(src, q), q, idx),
    decreases src.len(),
{
    let out = filter_spec(src, q);
    if src.len() == 0 {
        Seq::empty()
    } else {
        let init = src.drop_last();
        let prev = lemma_indices_of_matches(init, q);
        let n = init.len() as int;
        assert(src =~= init.push(src.last()));
        lemma_filter_push(init, src.last(), q);
        let prev_out = filter_spec(init, q);
        assert(forall|j: int| 0 <= j < n ==> #[trigger] src[j] == init[j]);
        assert(forall|k: int| 0 <= k < prev_out.len() ==> #[trigger] out[k] == prev_out[k]);
        if name_matches(src.last(), q) {
            let idx = prev.push(n);
            assert forall|j: int| 0 <= j < src.len() implies (name_matches(#[trigger] src[j], q)
                <==> idx.contains(j)) by {
                if j < n {
                    if prev.contains(j) {
                        let k = choose|k: int| 0 <= k < prev.len() && prev[k] == j;
                        assert(idx[k] == j);
                    }
                    if idx.contains(j) {
                        let k = choose|k: int| 0 <= k < idx.len() && idx[k] == j;
                        assert(k < prev.len());
                        assert(prev[k] == j);
                    }
                } else {
                    assert(idx[prev.len() as int] == j);
                }
            }
            idx
        } else {
            assert forall|j: int| 0 <= j < src.len() implies (name_matches(#[trigger] src[j], q)
                <==> prev.contains(j)) by {
                if j == n && prev.contains(j) {
                    let k = choose|k: int| 0 <= k < prev.len() && prev[k] == j;
                    assert(prev[k] < n);
                }
            }
            prev
        }
    }
}

/// Filtering yields a sub-sequence of the input in its original order: each
/// returned record's product name contains the query, and each record left out
/// has a product name that does not.
pub proof fn lemma_filter_selects_matching(records: Seq<Data>, q: Seq<char>)
    ensures
        exists|idx: Seq<int>| selects_matching(records, filter_spec(records, q), q, idx),
        forall|k: int| 0 <= k < filter_spec(records, q).len()
            ==> name_matches(#[trigger] filter_spec(records, q)[k], q),
{
    let idx = lemma_indices_of_matches(records, q);
    let out = filter_spec(records, q);
    assert forall|k: int| 0 <= k < out.len() implies name_matches(#[trigger] out[k], q) by {
        assert(out[k] == records[idx[k]]);
        assert(idx.contains(idx[k]));
    }
}

proof fn lemma_filter_keeps_all(records: Seq<Data>, q: Seq<char>)
    requires
        forall|k: int| 0 <= k < records.len() ==> name_matches(#[trigger] records[k], q),
    ensures
        filter_spec(records, q) == records,
    decreases records.len(),
{
    if records.len() > 0 {
        let init = records.drop_last();
        assert(forall|k: int| 0 <= k < init.len() ==> #[trigger] init[k] == records[k]);
        lemma_filter_keeps_all(init, q);
        assert(records =~= init.push(records.last()));
        lemma_filter_push(init, records.last(), q);
    } else {
        assert(records =~= Seq::empty());
        reveal(Seq::filter);
    }
}

/// The empty query keeps every record, in order.
pub proof fn lemma_filter_empty_query(records: Seq<Data>)
    ensures
        filter_spec(records, Seq::empty()) == records,
{
    assert forall|k: int| 0 <= k < records.len() implies name_matches(
        #[trigger] records[k],
        Seq::empty(),
    ) by {
        let name = records[k].product_name@;
        let e = Seq::<char>::empty();
        let z: int = 0;
        assert(name.subrange(z, z + e.len()) =~= e);
    }
    lemma_filter_keeps_all(records, Seq::empty());
}

/// Filtering no records yields no records, whatever the query.
pub proof fn lemma_filter_no_records(q: Seq<char>)
    ensures
        filter_spec(Seq::empty(), q) == Seq::<Data>::empty(),
{
    reveal(Seq::filter);
}

/// Filtering twice by the same query is filtering once.
pub proof fn lemma_filter_idempotent(records: Seq<Data>, q: Seq<char>)
    ensures
        filter_spec(filter_spec(records, q), q) == filter_spec(records, q),
{
    lemma_filter_selects_matching(records, q);
    lemma_filter_keeps_all(filter_spec(records, q), q);
}

} // verus!
