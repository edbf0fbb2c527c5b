//! Putting things in the order of two numbers.

use vstd::prelude::*;

verus! {

/// A thing with two numbers by which it is ordered.
pub trait Ranked: Sized {
    /// The numbers of a thing.
    spec fn rank(&self) -> (u64, u64);

    /// Tells the numbers of a thing.
    fn rank_of(&self) -> (r: (u64, u64))
        ensures
            r == self.rank(),
    ;
}

/// Whether a pair of numbers comes before another.
pub open spec fn ranks_before(a: (u64, u64), b: (u64, u64)) -> bool {
    a.0 < b.0 || (a.0 == b.0 && a.1 < b.1)
}

/// Whether no thing comes before the one in front of it.
pub open spec fn is_ranked<T: Ranked>(s: Seq<T>) -> bool {
    forall|i: int, j: int|
        0 <= i < j < s.len() ==> !ranks_before((#[trigger] s[j]).rank(), (#[trigger] s[i]).rank())
}

/// A list with one more thing, behind those that do not come after it.
pub open spec fn put_ranked<T: Ranked>(s: Seq<T>, t: T) -> Seq<T>
    decreases s.len(),
{
    if s.len() == 0 || !ranks_before(t.rank(), s.last().rank()) {
        s.push(t)
    } else {
        put_ranked(s.drop_last(), t).push(s.last())
    }
}

/// The things in order; those with the same numbers stay as they stood.
pub open spec fn ranked<T: Ranked>(s: Seq<T>) -> Seq<T>
    decreases s.len(),
{
    if s.len() == 0 {
        s
    } else {
        put_ranked(ranked(s.drop_last()), s.last())
    }
}

proof fn lemma_put_ranked<T: Ranked>(s: Seq<T>, t: T, j: int)
    requires
        0 <= j <= s.len(),
        forall|k: int| j <= k < s.len() ==> ranks_before(t.rank(), (#[trigger] s[k]).rank()),
        j == 0 || !ranks_before(t.rank(), s[j - 1].rank()),
    ensures
        put_ranked(s, t) == s.insert(j, t),
    decreases s.len(),
{
    if j == s.len() {
        assert(s.insert(j, t) =~= s.push(t));
    } else {
        let front = s.drop_last();
        assert(ranks_before(t.rank(), s[s.len() - 1].rank()));
        assert forall|k: int| j <= k < front.len() implies ranks_before(
            t.rank(),
            (#[trigger] front[k]).rank(),
        ) by {
            assert(front[k] == s[k]);
        }
        lemma_put_ranked(front, t, j);
        assert(front.insert(j, t).push(s.last()) =~= s.insert(j, t));
    }
}

fn rank_is_before(a: (u64, u64), b: (u64, u64)) -> (r: bool)
    ensures
        r == ranks_before(a, b),
{
    a.0 < b.0 || (a.0 == b.0 && a.1 < b.1)
}

/// Puts things in order.
pub fn sort_by_rank<T: Ranked>(v: Vec<T>) -> (r: Vec<T>)
    ensures
        r@ == ranked(v@),
{
    let ghost all = v@;
    let mut rest = v;
    let mut done: Vec<T> = Vec::new();
    let ghost mut i: int = 0;
    assert(all.skip(0) =~= all);
    assert(done@ =~= ranked(all.take(0)));
    while rest.len() > 0
        invariant
            0 <= i <= all.len(),
            rest@ == all.skip(i),
            done@ == ranked(all.take(i)),
        decreases rest@.len(),
    {
        assert(all.take(i + 1).drop_last() =~= all.take(i));
        assert(all.take(i + 1).last() == all[i]);
        let item = rest.remove(0);
        assert(item == all[i]);
        assert(rest@ =~= all.skip(i + 1));
        let rank = item.rank_of();
        let mut j: usize = done.len();
        while j > 0 && rank_is_before(rank, done[j - 1].rank_of())
            invariant
                0 <= j <= done@.len(),
                rank == item.rank(),
                forall|k: int|
                    j <= k < done@.len() ==> ranks_before(item.rank(), (#[trigger] done@[k]).rank()),
            decreases j,
        {
            j = j - 1;
        }
        proof {
            lemma_put_ranked(done@, item, j as int);
            i = i + 1;
        }
        done.insert(j, item);
    }
    assert(all.take(i) =~= all);
    done
}

proof fn lemma_put_ranked_keeps_order<T: Ranked>(s: Seq<T>, t: T)
    requires
        is_ranked(s),
    ensures
        is_ranked(put_ranked(s, t)),
        put_ranked(s, t).len() == s.len() + 1,
        put_ranked(s, t).to_multiset() == s.push(t).to_multiset(),
        put_ranked(s, t).last() == t || (s.len() > 0 && put_ranked(s, t).last() == s.last()
            && ranks_before(t.rank(), s.last().rank())),
    decreases s.len(),
{
    broadcast use vstd::seq_lib::group_to_multiset_ensures;

    let r = put_ranked(s, t);
    if s.len() == 0 || !ranks_before(t.rank(), s.last().rank()) {
        assert forall|i: int, j: int| 0 <= i < j < r.len() implies !ranks_before(
            (#[trigger] r[j]).rank(),
            (#[trigger] r[i]).rank(),
        ) by {
            if j == s.len() {
                if i < s.len() - 1 {
                    assert(!ranks_before(s[s.len() - 1].rank(), s[i].rank()));
                }
            } else {
                assert(r[i] == s[i] && r[j] == s[j]);
            }
        }
    } else {
        let front = s.drop_last();
        assert(is_ranked(front)) by {
            assert forall|i: int, j: int| 0 <= i < j < front.len() implies !ranks_before(
                (#[trigger] front[j]).rank(),
                (#[trigger] front[i]).rank(),
            ) by {
                assert(front[i] == s[i] && front[j] == s[j]);
            }
        }
        lemma_put_ranked_keeps_order(front, t);
        let p = put_ranked(front, t);
        assert(r == p.push(s.last()));
        assert(s =~= front.push(s.last()));
        assert(s.push(t).to_multiset() =~= front.to_multiset().insert(s.last()).insert(t));
        assert(r.to_multiset() =~= front.to_multiset().insert(t).insert(s.last()));
        assert(r.to_multiset() =~= s.push(t).to_multiset());
        assert forall|i: int, j: int| 0 <= i < j < r.len() implies !ranks_before(
            (#[trigger] r[j]).rank(),
            (#[trigger] r[i]).rank(),
        ) by {
            if j < p.len() {
                assert(r[i] == p[i] && r[j] == p[j]);
            } else {
                assert(r[i] == p[i]);
                assert(p.contains(p[i]));
                assert(p.to_multiset().count(p[i]) > 0);
                assert(front.push(t).to_multiset().count(p[i]) > 0);
                assert(front.push(t).contains(p[i]));
                let k = choose|k: int| 0 <= k < front.push(t).len() && front.push(t)[k] == p[i];
                if k < front.len() {
                    assert(s[k] == p[i]);
                }
            }
        }
    }
}

/// Putting things in order keeps each of them, and leaves none before one that it comes
/// after.
pub proof fn ranking_orders_the_things<T: Ranked>(s: Seq<T>)
    ensures
        is_ranked(ranked(s)),
        ranked(s).len() == s.len(),
        ranked(s).to_multiset() == s.to_multiset(),
    decreases s.len(),
{
    broadcast use vstd::seq_lib::group_to_multiset_ensures;

    if s.len() > 0 {
        let front = s.drop_last();
        ranking_orders_the_things(front);
        lemma_put_ranked_keeps_order(ranked(front), s.last());
        assert(s =~= front.push(s.last()));
        assert(ranked(s).to_multiset() =~= s.to_multiset());
    }
}

} // verus!
