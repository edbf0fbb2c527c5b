//! A table from numbers to values that keeps its entries in ascending order.

use vstd::prelude::*;

verus! {

/// Whether the entries stand in ascending order, each number once.
pub open spec fn ascending<V>(s: Seq<(u64, V)>) -> bool {
    forall|i: int, j: int| 0 <= i < j < s.len() ==> (#[trigger] s[i]).0 < (#[trigger] s[j]).0
}

/// The map that a list of entries describes.
pub open spec fn as_map<V>(s: Seq<(u64, V)>) -> Map<u64, V>
    decreases s.len(),
{
    if s.len() == 0 {
        Map::empty()
    } else {
        as_map(s.drop_last()).insert(s.last().0, s.last().1)
    }
}

/// An entry of an ascending list is what the map holds under its number, and the map
/// holds nothing else.
pub proof fn lemma_as_map<V>(s: Seq<(u64, V)>)
    requires
        ascending(s),
    ensures
        forall|i: int|
            0 <= i < s.len() ==> as_map(s).dom().contains((#[trigger] s[i]).0) && as_map(s)[s[i].0]
                == s[i].1,
        forall|k: u64| #[trigger]
            as_map(s).dom().contains(k) ==> exists|i: int|
                0 <= i < s.len() && (#[trigger] s[i]).0 == k,
    decreases s.len(),
{
    if s.len() > 0 {
        let rest = s.drop_last();
        assert(ascending(rest)) by {
            assert forall|i: int, j: int| 0 <= i < j < rest.len() implies (#[trigger] rest[i]).0 < (
            #[trigger] rest[j]).0 by {
                assert(rest[i] == s[i] && rest[j] == s[j]);
            }
        }
        lemma_as_map(rest);
        let last = s.len() - 1;
        assert forall|i: int| 0 <= i < s.len() implies as_map(s).dom().contains((#[trigger] s[i]).0)
            && as_map(s)[s[i].0] == s[i].1 by {
            if i < last {
                assert(rest[i] == s[i]);
                assert(s[i].0 < s[last].0);
            }
        }
        assert forall|k: u64| #[trigger] as_map(s).dom().contains(k) implies exists|i: int|
            0 <= i < s.len() && (#[trigger] s[i]).0 == k by {
            if k == s[last].0 {
            } else {
                assert(as_map(rest).dom().contains(k));
                let i = choose|i: int| 0 <= i < rest.len() && (#[trigger] rest[i]).0 == k;
                assert(s[i] == rest[i]);
            }
        }
    }
}

/// Two ascending lists that describe the same map are the same list.
pub proof fn ascending_list_is_unique<V>(a: Seq<(u64, V)>, b: Seq<(u64, V)>)
    requires
        ascending(a),
        ascending(b),
        as_map(a) == as_map(b),
    ensures
        a == b,
    decreases a.len(),
{
    lemma_as_map(a);
    lemma_as_map(b);
    if a.len() == 0 {
        if b.len() > 0 {
            assert(as_map(b).dom().contains(b[0].0));
        }
        assert(a =~= b);
    } else {
        let last = a[a.len() - 1];
        assert(as_map(b).dom().contains(last.0));
        let i = choose|i: int| 0 <= i < b.len() && (#[trigger] b[i]).0 == last.0;
        let top = b[b.len() - 1];
        assert(as_map(a).dom().contains(top.0));
        let j = choose|j: int| 0 <= j < a.len() && (#[trigger] a[j]).0 == top.0;
        assert(top.0 == last.0);
        assert(as_map(a)[last.0] == last.1);
        assert(as_map(b)[top.0] == top.1);
        assert(last == top);
        let x = a.drop_last();
        let y = b.drop_last();
        assert(ascending(x)) by {
            assert forall|p: int, q: int| 0 <= p < q < x.len() implies (#[trigger] x[p]).0 < (
            #[trigger] x[q]).0 by {
                assert(x[p] == a[p] && x[q] == a[q]);
            }
        }
        assert(ascending(y)) by {
            assert forall|p: int, q: int| 0 <= p < q < y.len() implies (#[trigger] y[p]).0 < (
            #[trigger] y[q]).0 by {
                assert(y[p] == b[p] && y[q] == b[q]);
            }
        }
        lemma_as_map(x);
        lemma_as_map(y);
        assert(!as_map(x).dom().contains(last.0)) by {
            if as_map(x).dom().contains(last.0) {
                let p = choose|p: int| 0 <= p < x.len() && (#[trigger] x[p]).0 == last.0;
                assert(a[p] == x[p]);
            }
        }
        assert(!as_map(y).dom().contains(last.0)) by {
            if as_map(y).dom().contains(last.0) {
                let p = choose|p: int| 0 <= p < y.len() && (#[trigger] y[p]).0 == last.0;
                assert(b[p] == y[p]);
            }
        }
        assert(as_map(x) =~= as_map(a).remove(last.0));
        assert(as_map(y) =~= as_map(b).remove(last.0));
        ascending_list_is_unique(x, y);
        assert(a =~= x.push(last));
        assert(b =~= y.push(last));
    }
}

/// The entries of a map in ascending order.
pub open spec fn sorted<V>(m: Map<u64, V>) -> Seq<(u64, V)> {
    choose|s: Seq<(u64, V)>| ascending(s) && #[trigger] as_map(s) == m
}

/// An ascending list is what its map has as entries in ascending order.
pub proof fn lemma_sorted<V>(s: Seq<(u64, V)>)
    requires
        ascending(s),
    ensures
        sorted(as_map(s)) == s,
{
    ascending_list_is_unique(sorted(as_map(s)), s);
}

/// The map of a list has no more numbers than the list has entries.
pub proof fn lemma_as_map_finite<V>(s: Seq<(u64, V)>)
    ensures
        as_map(s).dom().finite(),
        as_map(s).dom().len() <= s.len(),
    decreases s.len(),
{
    if s.len() > 0 {
        lemma_as_map_finite(s.drop_last());
    }
}

/// The entries with each value seen through `f`.
pub open spec fn seen_entries<V, W>(s: Seq<(u64, V)>, f: spec_fn(V) -> W) -> Seq<(u64, W)> {
    s.map_values(|e: (u64, V)| (e.0, f(e.1)))
}

/// The map with each value seen through `f`.
pub open spec fn seen_map<V, W>(m: Map<u64, V>, f: spec_fn(V) -> W) -> Map<u64, W> {
    Map::new(|k: u64| m.dom().contains(k), |k: u64| f(m[k]))
}

/// Seeing the entries through `f` is seeing the map through `f`.
pub proof fn lemma_seen<V, W>(s: Seq<(u64, V)>, f: spec_fn(V) -> W)
    requires
        ascending(s),
    ensures
        ascending(seen_entries(s, f)),
        as_map(seen_entries(s, f)) == seen_map(as_map(s), f),
        sorted(seen_map(as_map(s), f)) == seen_entries(s, f),
{
    let t = seen_entries(s, f);
    assert forall|i: int, j: int| 0 <= i < j < t.len() implies (#[trigger] t[i]).0 < (
    #[trigger] t[j]).0 by {
        assert(s[i].0 < s[j].0);
    }
    lemma_seen_map(s, f);
    lemma_sorted(t);
}

proof fn lemma_seen_map<V, W>(s: Seq<(u64, V)>, f: spec_fn(V) -> W)
    ensures
        as_map(seen_entries(s, f)) == seen_map(as_map(s), f),
    decreases s.len(),
{
    let t = seen_entries(s, f);
    if s.len() > 0 {
        lemma_seen_map(s.drop_last(), f);
        assert(t.drop_last() =~= seen_entries(s.drop_last(), f));
        assert(as_map(t) =~= seen_map(as_map(s), f));
    } else {
        assert(as_map(t) =~= seen_map(as_map(s), f));
    }
}

pub proof fn lemma_seen_insert<V, W>(m: Map<u64, V>, f: spec_fn(V) -> W, k: u64, v: V)
    ensures
        seen_map(m.insert(k, v), f) == seen_map(m, f).insert(k, f(v)),
{
    assert(seen_map(m.insert(k, v), f) =~= seen_map(m, f).insert(k, f(v)));
}

pub proof fn lemma_seen_remove<V, W>(m: Map<u64, V>, f: spec_fn(V) -> W, k: u64)
    ensures
        seen_map(m.remove(k), f) == seen_map(m, f).remove(k),
{
    assert(seen_map(m.remove(k), f) =~= seen_map(m, f).remove(k));
}

pub proof fn lemma_seen_empty<V, W>(f: spec_fn(V) -> W)
    ensures
        seen_map(Map::<u64, V>::empty(), f) == Map::<u64, W>::empty(),
{
    assert(seen_map(Map::<u64, V>::empty(), f) =~= Map::<u64, W>::empty());
}

/// Leaving one entry out of an ascending list leaves its number out of the map.
proof fn lemma_remove_entry<V>(before: Seq<(u64, V)>, p: int)
    requires
        ascending(before),
        0 <= p < before.len(),
    ensures
        ascending(before.remove(p)),
        as_map(before.remove(p)) == as_map(before).remove(before[p].0),
{
    let after = before.remove(p);
    let k = before[p].0;
    lemma_as_map(before);
    assert forall|i: int, j: int| 0 <= i < j < after.len() implies (#[trigger] after[i]).0 < (
    #[trigger] after[j]).0 by {
        let a = if i < p { i } else { i + 1 };
        let b = if j < p { j } else { j + 1 };
        assert(after[i] == before[a] && after[j] == before[b]);
        assert(a < b);
    }
    lemma_as_map(after);
    let x_map = as_map(after);
    let y_map = as_map(before).remove(k);
    assert forall|x: u64| #[trigger] x_map.dom().contains(x) implies y_map.dom().contains(x)
        && x_map[x] == y_map[x] by {
        let i = choose|i: int| 0 <= i < after.len() && (#[trigger] after[i]).0 == x;
        let a = if i < p { i } else { i + 1 };
        assert(after[i] == before[a]);
        if a < p {
            assert(before[a].0 < before[p].0);
        } else {
            assert(before[p].0 < before[a].0);
        }
    }
    assert forall|x: u64| #[trigger] y_map.dom().contains(x) implies x_map.dom().contains(x) by {
        assert(as_map(before).dom().contains(x));
        let i = choose|i: int| 0 <= i < before.len() && (#[trigger] before[i]).0 == x;
        let a = if i < p { i } else { i - 1 };
        assert(after[a] == before[i]);
    }
    assert(x_map.dom() =~= y_map.dom());
    assert(x_map =~= y_map);
}

/// Putting a new entry in its place in an ascending list adds it to the map.
proof fn lemma_insert_entry<V>(before: Seq<(u64, V)>, p: int, k: u64, v: V)
    requires
        ascending(before),
        0 <= p <= before.len(),
        forall|i: int| 0 <= i < p ==> (#[trigger] before[i]).0 < k,
        forall|i: int| p <= i < before.len() ==> (#[trigger] before[i]).0 > k,
    ensures
        ascending(before.insert(p, (k, v))),
        as_map(before.insert(p, (k, v))) == as_map(before).insert(k, v),
{
    let after = before.insert(p, (k, v));
    lemma_as_map(before);
    assert forall|i: int, j: int| 0 <= i < j < after.len() implies (#[trigger] after[i]).0 < (
    #[trigger] after[j]).0 by {
        let a = if i < p { i } else { i - 1 };
        let b = if j < p { j } else { j - 1 };
        if i != p {
            assert(after[i] == before[a]);
        }
        if j != p {
            assert(after[j] == before[b]);
        }
        if i != p && j != p {
            assert(a < b);
        }
    }
    lemma_as_map(after);
    let x_map = as_map(after);
    let y_map = as_map(before).insert(k, v);
    assert(after[p] == (k, v));
    assert forall|x: u64| #[trigger] x_map.dom().contains(x) implies y_map.dom().contains(x)
        && x_map[x] == y_map[x] by {
        let i = choose|i: int| 0 <= i < after.len() && (#[trigger] after[i]).0 == x;
        let a = if i < p { i } else { i - 1 };
        if i != p {
            assert(after[i] == before[a]);
        }
    }
    assert forall|x: u64| #[trigger] y_map.dom().contains(x) implies x_map.dom().contains(x) by {
        if x != k {
            assert(as_map(before).dom().contains(x));
            let i = choose|i: int| 0 <= i < before.len() && (#[trigger] before[i]).0 == x;
            let a = if i < p { i } else { i + 1 };
            assert(after[a] == before[i]);
        }
    }
    assert(x_map.dom() =~= y_map.dom());
    assert(x_map =~= y_map);
}

/// A table from numbers to values.
pub struct Table<V> {
    entries: Vec<(u64, V)>,
}

impl<V> Table<V> {
    /// The entries in ascending order.
    pub closed spec fn entries(&self) -> Seq<(u64, V)> {
        self.entries@
    }

    /// What the table holds.
    pub open spec fn view(&self) -> Map<u64, V> {
        as_map(self.entries())
    }

    /// The entries stand in ascending order.
    pub open spec fn well_formed(&self) -> bool {
        ascending(self.entries())
    }

    pub fn new() -> (r: Self)
        ensures
            r.well_formed(),
            r@ == Map::<u64, V>::empty(),
            r.entries() == Seq::<(u64, V)>::empty(),
    {
        Table { entries: Vec::new() }
    }

    /// How many entries there are.
    pub fn len(&self) -> (n: usize)
        ensures
            n == self.entries().len(),
    {
        self.entries.len()
    }

    /// The number of the `i`-th entry.
    pub fn key_at(&self, i: usize) -> (k: u64)
        requires
            i < self.entries().len(),
        ensures
            k == self.entries()[i as int].0,
    {
        self.entries[i].0
    }

    /// The value of the `i`-th entry.
    pub fn value_at(&self, i: usize) -> (v: &V)
        requires
            i < self.entries().len(),
        ensures
            *v == self.entries()[i as int].1,
    {
        &self.entries[i].1
    }

    /// The place of the first entry whose number is not below `k`.
    fn place(&self, k: u64) -> (p: usize)
        requires
            self.well_formed(),
        ensures
            p <= self.entries@.len(),
            forall|i: int| 0 <= i < p ==> (#[trigger] self.entries@[i]).0 < k,
            forall|i: int| p <= i < self.entries@.len() ==> (#[trigger] self.entries@[i]).0 >= k,
    {
        let mut p: usize = 0;
        while p < self.entries.len() && self.entries[p].0 < k
            invariant
                0 <= p <= self.entries@.len(),
                forall|i: int| 0 <= i < p ==> (#[trigger] self.entries@[i]).0 < k,
            decreases self.entries@.len() - p,
        {
            p = p + 1;
        }
        assert forall|i: int| p <= i < self.entries@.len() implies (
        #[trigger] self.entries@[i]).0 >= k by {
            if p < i {
                assert(self.entries@[p as int].0 < self.entries@[i].0);
            }
        }
        p
    }

    /// The value under a number.
    pub fn get(&self, k: u64) -> (r: Option<&V>)
        requires
            self.well_formed(),
        ensures
            match r {
                Some(v) => self@.dom().contains(k) && self@[k] == *v,
                None => !self@.dom().contains(k),
            },
    {
        proof {
            lemma_as_map(self.entries@);
        }
        let p = self.place(k);
        if p < self.entries.len() && self.entries[p].0 == k {
            Some(&self.entries[p].1)
        } else {
            assert(!self@.dom().contains(k)) by {
                if self@.dom().contains(k) {
                    let i = choose|i: int|
                        0 <= i < self.entries@.len() && (#[trigger] self.entries@[i]).0 == k;
                    if p < i {
                        assert(self.entries@[p as int].0 < self.entries@[i].0);
                    }
                }
            }
            None
        }
    }

    /// Whether there is a value under a number.
    pub fn has(&self, k: u64) -> (r: bool)
        requires
            self.well_formed(),
        ensures
            r == self@.dom().contains(k),
    {
        self.get(k).is_some()
    }

    /// Takes the value under a number out of the table.
    pub fn remove(&mut self, k: u64) -> (r: Option<V>)
        requires
            old(self).well_formed(),
        ensures
            final(self).well_formed(),
            final(self)@ == old(self)@.remove(k),
            match r {
                Some(v) => old(self)@.dom().contains(k) && old(self)@[k] == v,
                None => !old(self)@.dom().contains(k),
            },
    {
        let ghost before = self.entries@;
        proof {
            lemma_as_map(before);
        }
        let p = self.place(k);
        if p < self.entries.len() && self.entries[p].0 == k {
            let (_, v) = self.entries.remove(p);
            assert(self.entries@ =~= before.remove(p as int));
            proof {
                lemma_remove_entry(before, p as int);
            }
            Some(v)
        } else {
            proof {
                if as_map(before).dom().contains(k) {
                    let i = choose|i: int| 0 <= i < before.len() && (#[trigger] before[i]).0 == k;
                    if p < i {
                        assert(before[p as int].0 < before[i].0);
                    }
                }
                assert(as_map(before).remove(k) =~= as_map(before));
            }
            None
        }
    }

    /// Puts a value under a number, in the place of the one before.
    pub fn insert(&mut self, k: u64, v: V)
        requires
            old(self).well_formed(),
        ensures
            final(self).well_formed(),
            final(self)@ == old(self)@.insert(k, v),
    {
        let ghost start = self@;
        let _ = self.remove(k);
        let ghost before = self.entries@;
        proof {
            lemma_as_map(before);
        }
        let p = self.place(k);
        self.entries.insert(p, (k, v));
        assert(self.entries@ =~= before.insert(p as int, (k, v)));
        proof {
            assert forall|i: int| p <= i < before.len() implies (#[trigger] before[i]).0 > k by {
                if before[i].0 == k {
                    assert(as_map(before).dom().contains(k));
                }
            }
            lemma_insert_entry(before, p as int, k, v);
            assert(start.remove(k).insert(k, v) =~= start.insert(k, v));
        }
    }
}

/// A value that belongs to a session.
pub trait Owned {
    /// The session that a value belongs to.
    spec fn owner_id(&self) -> u64;

    /// Tells the session that a value belongs to.
    fn owner(&self) -> (r: u64)
        ensures
            r == self.owner_id(),
    ;
}

/// The entries whose values belong to a session.
pub open spec fn owned_by<V: Owned>(s: Seq<(u64, V)>, session_id: u64) -> Seq<(u64, V)>
    decreases s.len(),
{
    if s.len() == 0 {
        s
    } else if s.last().1.owner_id() == session_id {
        owned_by(s.drop_last(), session_id).push(s.last())
    } else {
        owned_by(s.drop_last(), session_id)
    }
}

/// The entries whose values belong to other sessions.
pub open spec fn not_owned_by<V: Owned>(s: Seq<(u64, V)>, session_id: u64) -> Seq<(u64, V)>
    decreases s.len(),
{
    if s.len() == 0 {
        s
    } else if s.last().1.owner_id() == session_id {
        not_owned_by(s.drop_last(), session_id)
    } else {
        not_owned_by(s.drop_last(), session_id).push(s.last())
    }
}

/// What is left of a table when a session has gone.
pub open spec fn without_session<V: Owned>(m: Map<u64, V>, session_id: u64) -> Map<u64, V> {
    Map::new(
        |k: u64| m.dom().contains(k) && m[k].owner_id() != session_id,
        |k: u64| m[k],
    )
}

pub proof fn lemma_not_owned<V: Owned>(s: Seq<(u64, V)>, session_id: u64)
    requires
        ascending(s),
    ensures
        ascending(not_owned_by(s, session_id)),
        as_map(not_owned_by(s, session_id)) == without_session(as_map(s), session_id),
        forall|i: int|
            0 <= i < not_owned_by(s, session_id).len() ==> exists|j: int|
                0 <= j < s.len() && s[j] == #[trigger] not_owned_by(s, session_id)[i],
    decreases s.len(),
{
    let kept = not_owned_by(s, session_id);
    if s.len() == 0 {
        assert(as_map(kept) =~= without_session(as_map(s), session_id));
    } else {
        let t = s.drop_last();
        let e = s.last();
        let front = not_owned_by(t, session_id);
        assert(ascending(t)) by {
            assert forall|i: int, j: int| 0 <= i < j < t.len() implies (#[trigger] t[i]).0 < (
            #[trigger] t[j]).0 by {
                assert(s[i] == t[i] && s[j] == t[j]);
            }
        }
        lemma_not_owned(t, session_id);
        lemma_as_map(t);
        lemma_as_map(s);
        assert(!as_map(t).dom().contains(e.0)) by {
            if as_map(t).dom().contains(e.0) {
                let i = choose|i: int| 0 <= i < t.len() && (#[trigger] t[i]).0 == e.0;
                assert(s[i].0 < s[s.len() - 1].0);
            }
        }
        assert forall|i: int| 0 <= i < kept.len() implies exists|j: int|
            0 <= j < s.len() && s[j] == #[trigger] kept[i] by {
            if i < front.len() {
                assert(kept[i] == front[i]);
                let j = choose|j: int| 0 <= j < t.len() && t[j] == front[i];
                assert(s[j] == kept[i]);
            } else {
                assert(s[s.len() - 1] == kept[i]);
            }
        }
        if e.1.owner_id() == session_id {
            assert(without_session(as_map(s), session_id) =~= without_session(
                as_map(t),
                session_id,
            ));
        } else {
            assert(kept.drop_last() =~= front);
            assert(without_session(as_map(s), session_id) =~= without_session(
                as_map(t),
                session_id,
            ).insert(e.0, e.1));
            assert forall|i: int, j: int| 0 <= i < j < kept.len() implies (#[trigger] kept[i]).0 < (
            #[trigger] kept[j]).0 by {
                assert(kept[i] == front[i]);
                if j < front.len() {
                    assert(kept[j] == front[j]);
                } else {
                    let a = choose|a: int| 0 <= a < t.len() && t[a] == front[i];
                    assert(s[a].0 < s[s.len() - 1].0);
                }
            }
        }
    }
}

impl<V: Owned> Table<V> {
    /// Takes out what belongs to a session.
    pub fn remove_session(&mut self, session_id: u64) -> (r: Vec<(u64, V)>)
        requires
            old(self).well_formed(),
        ensures
            final(self).well_formed(),
            final(self)@ == without_session(old(self)@, session_id),
            r@ == owned_by(old(self).entries(), session_id),
    {
        let ghost before = self.entries@;
        let mut removed: Vec<(u64, V)> = Vec::new();
        let mut i: usize = 0;
        let ghost mut j: int = 0;
        assert(self.entries@.take(0) =~= not_owned_by(before.take(0), session_id));
        assert(before.take(0) =~= Seq::<(u64, V)>::empty());
        assert(removed@ =~= owned_by(before.take(0), session_id));
        assert(self.entries@.skip(0) =~= before.skip(0));
        while i < self.entries.len()
            invariant
                0 <= i <= self.entries@.len(),
                0 <= j <= before.len(),
                self.entries@.take(i as int) == not_owned_by(before.take(j), session_id),
                self.entries@.skip(i as int) == before.skip(j),
                removed@ == owned_by(before.take(j), session_id),
            decreases self.entries@.len() - i,
        {
            let ghost now = self.entries@;
            assert(now.skip(i as int).len() == before.skip(j).len());
            assert(before.take(j + 1).drop_last() =~= before.take(j));
            assert(before.take(j + 1).last() == before[j]);
            assert(now.skip(i as int)[0] == now[i as int]);
            assert(before.skip(j)[0] == before[j]);
            if self.entries[i].1.owner() == session_id {
                let e = self.entries.remove(i);
                removed.push(e);
                assert(self.entries@.take(i as int) =~= now.take(i as int));
                assert(self.entries@.skip(i as int) =~= now.skip(i as int).skip(1));
            } else {
                i = i + 1;
                assert(self.entries@.take(i as int) =~= now.take(i - 1).push(now[i - 1]));
                assert(self.entries@.skip(i as int) =~= now.skip(i - 1).skip(1));
            }
            assert(before.skip(j).skip(1) =~= before.skip(j + 1));
            proof {
                j = j + 1;
            }
        }
        assert(before.skip(j).len() == 0) by {
            assert(self.entries@.skip(i as int).len() == 0);
        }
        assert(before.take(j) =~= before);
        assert(self.entries@.take(i as int) =~= self.entries@);
        proof {
            lemma_not_owned(before, session_id);
        }
        removed
    }
}

} // verus!
