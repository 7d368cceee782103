//! Ordering candidate processes: sorting ranked candidates and keeping the
//! first of each run of the same process.
use vstd::prelude::*;
use vstd::relations::{sorted_by, total_ordering};

verus! {

/// A ranked candidate process: two ranks (lower first), then the process id.
pub type Ranked = (u8, u8, u32);

/// The lexicographic order of ranked candidates.
pub open spec fn ranked_le(a: Ranked, b: Ranked) -> bool {
    a.0 < b.0 || (a.0 == b.0 && (a.1 < b.1 || (a.1 == b.1 && a.2 <= b.2)))
}

pub open spec fn ranked_order() -> spec_fn(Ranked, Ranked) -> bool {
    |a: Ranked, b: Ranked| ranked_le(a, b)
}

/// The rank order used for sorting is a total order.
pub proof fn lemma_ranked_total()
    ensures
        total_ordering(ranked_order()),
{
    assert(vstd::relations::reflexive(ranked_order()));
    assert(vstd::relations::antisymmetric(ranked_order()));
    assert(vstd::relations::transitive(ranked_order()));
    assert(vstd::relations::strongly_connected(ranked_order()));
}

fn ranked_le_exec(a: Ranked, b: Ranked) -> (r: bool)
    ensures
        r == ranked_le(a, b),
{
    a.0 < b.0 || (a.0 == b.0 && (a.1 < b.1 || (a.1 == b.1 && a.2 <= b.2)))
}

/// `v` in ascending order, as `sort_unstable` leaves it (the order is total
/// on whole tuples, so equal elements are identical).
pub fn sort_ranked(v: &Vec<Ranked>) -> (r: Vec<Ranked>)
    ensures
        r@ == v@.sort_by(ranked_order()),
{
    broadcast use vstd::seq_lib::group_to_multiset_ensures;

    let mut r: Vec<Ranked> = Vec::new();
    let mut i: usize = 0;
    while i < v.len()
        invariant
            i <= v@.len(),
            sorted_by(r@, ranked_order()),
            r@.to_multiset() == v@.take(i as int).to_multiset(),
        decreases v@.len() - i,
    {
        let x = v[i];
        let mut p: usize = 0;
        while p < r.len() && ranked_le_exec(r[p], x)
            invariant
                p <= r@.len(),
                forall|k: int| 0 <= k < p ==> ranked_le(r@[k], x),
            decreases r@.len() - p,
        {
            p = p + 1;
        }
        let ghost old_r = r@;
        proof {
            vstd::seq_lib::to_multiset_insert(old_r, p as int, x);
        }
        r.insert(p, x);
        assert forall|a: int, b: int| 0 <= a < b < r@.len() implies #[trigger] ranked_order()(
            r@[a],
            r@[b],
        ) by {
            if b < p {
                assert(ranked_order()(old_r[a], old_r[b]));
            } else if a < p && b == p {
            } else if a < p {
                assert(ranked_order()(old_r[a], old_r[b - 1]));
            } else if a == p {
                assert(!ranked_le(old_r[p as int], x));
                assert(ranked_order()(old_r[p as int], old_r[b - 1]) || b - 1 == p);
            } else {
                assert(ranked_order()(old_r[a - 1], old_r[b - 1]));
            }
        }
        assert(v@.take(i + 1) =~= v@.take(i as int).push(x));
        proof {
            vstd::seq_lib::to_multiset_build(v@.take(i as int), x);
        }
        i = i + 1;
    }
    proof {
        lemma_ranked_total();
        v@.lemma_sort_by_ensures(ranked_order());
        assert(v@.take(v@.len() as int) =~= v@);
        vstd::seq_lib::lemma_sorted_unique(r@, v@.sort_by(ranked_order()), ranked_order());
    }
    r
}

/// The process ids of `s`, keeping only the first of each run of elements
/// with the same process id, as `dedup_by_key` then `map` give them.
pub open spec fn dedup_ids(s: Seq<Ranked>) -> Seq<u32>
    decreases s.len(),
{
    if s.len() == 0 {
        seq![]
    } else if s.len() == 1 || s.last().2 != s[s.len() - 2].2 {
        dedup_ids(s.drop_last()).push(s.last().2)
    } else {
        dedup_ids(s.drop_last())
    }
}

/// The process ids of `s`, keeping only the first of each run of elements
/// with the same process id.
pub fn dedup_ranked_ids(s: &Vec<Ranked>) -> (r: Vec<u32>)
    ensures
        r@ == dedup_ids(s@),
{
    let mut r: Vec<u32> = Vec::new();
    let mut i: usize = 0;
    while i < s.len()
        invariant
            i <= s@.len(),
            r@ == dedup_ids(s@.take(i as int)),
        decreases s@.len() - i,
    {
        let ghost t = s@.take(i + 1);
        assert(t.drop_last() =~= s@.take(i as int));
        if i == 0 || s[i].2 != s[i - 1].2 {
            r.push(s[i].2);
        }
        i = i + 1;
    }
    assert(s@.take(s@.len() as int) =~= s@);
    r
}

} // verus!
