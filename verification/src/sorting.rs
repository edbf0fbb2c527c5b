//! Putting texts in order.

use vstd::prelude::*;

use crate::text::{comes_before, lemma_less_total, lemma_less_transitive, less, views};

verus! {

/// Whether no text comes before the one in front of it.
pub open spec fn is_sorted(s: Seq<Seq<char>>) -> bool {
    forall|i: int, j: int| 0 <= i < j < s.len() ==> !less(#[trigger] s[j], #[trigger] s[i])
}

/// A sorted list with one more text in its place.
pub open spec fn put_in_place(s: Seq<Seq<char>>, t: Seq<char>) -> Seq<Seq<char>>
    decreases s.len(),
{
    if s.len() == 0 || !less(t, s.last()) {
        s.push(t)
    } else {
        put_in_place(s.drop_last(), t).push(s.last())
    }
}

/// The texts in order.
pub open spec fn sort_texts(s: Seq<Seq<char>>) -> Seq<Seq<char>>
    decreases s.len(),
{
    if s.len() == 0 {
        s
    } else {
        put_in_place(sort_texts(s.drop_last()), s.last())
    }
}

proof fn lemma_put_in_place(s: Seq<Seq<char>>, t: Seq<char>, j: int)
    requires
        0 <= j <= s.len(),
        forall|k: int| j <= k < s.len() ==> less(t, #[trigger] s[k]),
        j == 0 || !less(t, s[j - 1]),
    ensures
        put_in_place(s, t) == s.insert(j, t),
    decreases s.len(),
{
    if j == s.len() {
        assert(s.insert(j, t) =~= s.push(t));
    } else {
        let front = s.drop_last();
        assert(less(t, s[s.len() - 1]));
        assert forall|k: int| j <= k < front.len() implies less(t, #[trigger] front[k]) by {
            assert(front[k] == s[k]);
        }
        lemma_put_in_place(front, t, j);
        assert(front.insert(j, t).push(s.last()) =~= s.insert(j, t));
    }
}

/// Puts texts in order.
pub fn sort_strings(v: &[String]) -> (r: Vec<String>)
    ensures
        views(r@) == sort_texts(views(v@)),
{
    let mut r: Vec<String> = Vec::new();
    let mut i: usize = 0;
    let ghost all = views(v@);
    assert(views(r@) =~= sort_texts(all.take(0)));
    while i < v.len()
        invariant
            0 <= i <= v@.len(),
            all == views(v@),
            views(r@) == sort_texts(all.take(i as int)),
        decreases v@.len() - i,
    {
        assert(all.take(i + 1).drop_last() =~= all.take(i as int));
        assert(all.take(i + 1).last() == v@[i as int]@);
        let ghost before = views(r@);
        let mut j: usize = r.len();
        while j > 0 && comes_before(v[i].as_str(), r[j - 1].as_str())
            invariant
                0 <= j <= r@.len(),
                i < v@.len(),
                before == views(r@),
                forall|k: int| j <= k < r@.len() ==> less(v@[i as int]@, #[trigger] before[k]),
            decreases j,
        {
            assert(before[j - 1] == r@[j - 1]@);
            j = j - 1;
        }
        proof {
            if j > 0 {
                assert(before[j - 1] == r@[j - 1]@);
            }
            lemma_put_in_place(before, v@[i as int]@, j as int);
        }
        r.insert(j, v[i].as_str().to_owned());
        assert(views(r@) =~= before.insert(j as int, v@[i as int]@));
        i = i + 1;
    }
    assert(all.take(all.len() as int) =~= all);
    r
}

proof fn lemma_put_keeps_order(s: Seq<Seq<char>>, t: Seq<char>)
    requires
        is_sorted(s),
    ensures
        is_sorted(put_in_place(s, t)),
        put_in_place(s, t).len() == s.len() + 1,
        put_in_place(s, t).last() == t || (s.len() > 0 && put_in_place(s, t).last() == s.last()
            && less(t, s.last())),
        forall|x: Seq<char>|
            #![trigger put_in_place(s, t).to_multiset().count(x)]
            put_in_place(s, t).to_multiset().count(x) == s.push(t).to_multiset().count(x),
    decreases s.len(),
{
    broadcast use vstd::seq_lib::group_to_multiset_ensures;

    if s.len() == 0 || !less(t, s.last()) {
        let r = s.push(t);
        assert forall|i: int, j: int| 0 <= i < j < r.len() implies !less(
            #[trigger] r[j],
            #[trigger] r[i],
        ) by {
            if j == s.len() {
                let n = s.len() - 1;
                if i < n {
                    assert(!less(s[n], s[i]));
                    if less(t, s[i]) {
                        lemma_less_total(s[n], s[i]);
                        if s[n] != s[i] {
                            lemma_less_transitive(t, s[i], s[n]);
                        }
                    }
                }
            } else {
                assert(!less(s[j], s[i]));
            }
        }
    } else {
        let front = s.drop_last();
        assert forall|i: int, j: int| 0 <= i < j < front.len() implies !less(
            #[trigger] front[j],
            #[trigger] front[i],
        ) by {
            assert(front[i] == s[i] && front[j] == s[j]);
        }
        lemma_put_keeps_order(front, t);
        let inner = put_in_place(front, t);
        let r = inner.push(s.last());
        assert forall|i: int, j: int| 0 <= i < j < r.len() implies !less(
            #[trigger] r[j],
            #[trigger] r[i],
        ) by {
            if j == inner.len() {
                let m = inner.len() - 1;
                let top = s.last();
                // The last of the inner list is not after the old last one.
                assert(!less(top, inner[m])) by {
                    lemma_less_total(t, top);
                    if inner[m] != t {
                        assert(inner[m] == front[front.len() - 1]);
                        assert(!less(s[s.len() - 1], s[s.len() - 2]));
                    }
                }
                if i < m {
                    assert(!less(inner[m], inner[i]));
                    if less(top, inner[i]) {
                        lemma_less_total(inner[m], inner[i]);
                        if inner[m] != inner[i] {
                            lemma_less_transitive(top, inner[i], inner[m]);
                        }
                    }
                }
            } else {
                assert(!less(inner[j], inner[i]));
            }
        }
        assert forall|x: Seq<char>|
            #![trigger r.to_multiset().count(x)]
            r.to_multiset().count(x) == s.push(t).to_multiset().count(x) by {
            assert(inner.to_multiset().count(x) == front.push(t).to_multiset().count(x));
            assert(front.push(s.last()) =~= s);
        }
    }
}

/// Sorting keeps every text as often as it was there, and leaves no text before the one in
/// front of it.
pub proof fn sorting_orders_the_texts(s: Seq<Seq<char>>)
    ensures
        is_sorted(sort_texts(s)),
        sort_texts(s).to_multiset() == s.to_multiset(),
    decreases s.len(),
{
    broadcast use vstd::seq_lib::group_to_multiset_ensures;

    if s.len() > 0 {
        let front = s.drop_last();
        sorting_orders_the_texts(front);
        let done = sort_texts(front);
        lemma_put_keeps_order(done, s.last());
        assert(front.push(s.last()) =~= s);
        assert(sort_texts(s).to_multiset() =~= s.to_multiset());
    }
}

} // verus!
