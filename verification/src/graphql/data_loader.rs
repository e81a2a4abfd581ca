use crate::domain::order::detail::Detail;
use crate::text::str_equal;
use vstd::hash_map::StringHashMap;
use vstd::prelude::*;

verus! {

/// Whether a line belongs to the order `k`.
pub open spec fn of_order(k: Seq<char>) -> spec_fn(Detail) -> bool {
    |d: Detail| d.order_id@ == k
}

/// Whether a line belongs to another order than `k`.
pub open spec fn not_of_order(k: Seq<char>) -> spec_fn(Detail) -> bool {
    |d: Detail| d.order_id@ != k
}

/// The lines of order `k`, in the order given.
pub open spec fn order_group(items: Seq<Detail>, k: Seq<char>) -> Seq<Detail> {
    items.filter(of_order(k))
}

/// Whether a line's order has no group in `m` yet.
pub open spec fn unassigned(m: Map<Seq<char>, Vec<Detail>>) -> spec_fn(Detail) -> bool {
    |d: Detail| !m.contains_key(d.order_id@)
}

/// Filtering twice is filtering once by both predicates.
pub proof fn lemma_filter_filter<A>(
    a: Seq<A>,
    q: spec_fn(A) -> bool,
    r: spec_fn(A) -> bool,
    s: spec_fn(A) -> bool,
)
    requires
        forall|x: A| #[trigger] s(x) == (q(x) && r(x)),
    ensures
        a.filter(q).filter(r) == a.filter(s),
    decreases a.len(),
{
    reveal(Seq::filter);
    if a.len() > 0 {
        let init = a.drop_last();
        let x = a.last();
        lemma_filter_filter(init, q, r, s);
        assert(a.filter(q) == (if q(x) {
            init.filter(q).push(x)
        } else {
            init.filter(q)
        }));
        if q(x) {
            assert(init.filter(q).push(x).drop_last() =~= init.filter(q));
            assert(init.filter(q).push(x).last() == x);
        }
        assert(s(x) == (q(x) && r(x)));
    }
}

/// Splits the lines into those of order `key` and the others, each in the
/// order given.
pub fn partition_by_order(items: Vec<Detail>, key: &str) -> (r: (Vec<Detail>, Vec<Detail>))
    ensures
        r.0@ == items@.filter(of_order(key@)),
        r.1@ == items@.filter(not_of_order(key@)),
        r.0@.len() + r.1@.len() == items@.len(),
{
    let ghost orig = items@;
    let ghost p = of_order(key@);
    let ghost q = not_of_order(key@);
    let mut items = items;
    let mut group: Vec<Detail> = Vec::new();
    let mut others: Vec<Detail> = Vec::new();
    let ghost mut i: int = 0;
    proof {
        assert(orig.take(0) =~= Seq::<Detail>::empty());
        assert(orig.skip(0) =~= orig);
    }
    while items.len() > 0
        invariant
            0 <= i <= orig.len(),
            items@ == orig.skip(i),
            group@ == orig.take(i).filter(p),
            others@ == orig.take(i).filter(q),
            group@.len() + others@.len() == i,
            p == of_order(key@),
            q == not_of_order(key@),
        decreases items@.len(),
    {
        let d = items.remove(0);
        proof {
            reveal(Seq::filter);
            assert(d == orig[i]);
            assert(orig.take(i + 1).drop_last() =~= orig.take(i));
            assert(orig.take(i + 1).last() == orig[i]);
            assert(orig.skip(i).remove(0) =~= orig.skip(i + 1));
        }
        if str_equal(d.order_id.as_str(), key) {
            group.push(d);
        } else {
            others.push(d);
        }
        proof {
            i = i + 1;
        }
    }
    proof {
        assert(orig.take(i) =~= orig);
    }
    (group, others)
}

/// The lines grouped by their order: exactly the orders that have lines are
/// keys, each with its lines in the order given.
pub fn group_by_order(items: Vec<Detail>) -> (r: StringHashMap<Vec<Detail>>)
    ensures
        forall|k: Seq<char>| #[trigger] r@.contains_key(k) <==> order_group(items@, k).len() > 0,
        forall|k: Seq<char>| #[trigger] r@.contains_key(k) ==> r@[k]@ == order_group(items@, k),
{
    let ghost orig = items@;
    let mut rest = items;
    let mut map: StringHashMap<Vec<Detail>> = StringHashMap::new();
    proof {
        assert forall|x: Detail| #[trigger] unassigned(map@)(x) == true by {}
        assert(orig.filter(|x: Detail| true) == orig) by {
            lemma_filter_true(orig);
        }
        assert(unassigned(map@) =~= (|x: Detail| true));
    }
    while rest.len() > 0
        invariant
            rest@ == orig.filter(unassigned(map@)),
            forall|k: Seq<char>|
                #[trigger] map@.contains_key(k) ==> map@[k]@ == order_group(orig, k)
                    && order_group(orig, k).len() > 0,
        decreases rest@.len(),
    {
        let key = String::from_str(rest[0].order_id.as_str());
        let ghost k = key@;
        let ghost m = map@;
        proof {
            orig.lemma_filter_pred(unassigned(m), 0);
            assert(!m.contains_key(k));
            lemma_filter_filter(orig, unassigned(m), of_order(k), of_order(k));
            rest@.lemma_filter_contains(of_order(k), 0);
        }
        let (group, others) = partition_by_order(rest, key.as_str());
        proof {
            assert(group@.contains(orig.filter(unassigned(m))[0]));
            let m2 = m.insert(k, group);
            assert forall|x: Detail| #[trigger] unassigned(m2)(x) == (unassigned(m)(x)
                && not_of_order(k)(x)) by {}
            lemma_filter_filter(orig, unassigned(m), not_of_order(k), unassigned(m2));
        }
        map.insert(key, group);
        rest = others;
    }
    proof {
        assert forall|k: Seq<char>| #[trigger] map@.contains_key(k) <==> order_group(orig, k).len()
            > 0 by {
            if !map@.contains_key(k) {
                lemma_filter_filter(orig, unassigned(map@), of_order(k), of_order(k));
            }
        }
    }
    map
}

/// Keeping everything keeps the sequence.
pub proof fn lemma_filter_true<A>(a: Seq<A>)
    ensures
        a.filter(|x: A| true) == a,
    decreases a.len(),
{
    reveal(Seq::filter);
    if a.len() > 0 {
        lemma_filter_true(a.drop_last());
        assert(a.drop_last().push(a.last()) =~= a);
    }
}

} // verus!
