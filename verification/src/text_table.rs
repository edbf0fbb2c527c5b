//! A table from texts to values that keeps its entries in the order of the texts.

use vstd::prelude::*;

use crate::text::{comes_before, lemma_less_total, lemma_less_transitive, less, same};

verus! {

/// Whether the entries stand in the order of their names, each name once.
pub open spec fn in_order<V>(s: Seq<(Seq<char>, V)>) -> bool {
    forall|i: int, j: int|
        0 <= i < j < s.len() ==> less((#[trigger] s[i]).0, (#[trigger] s[j]).0)
}

/// The map that a list of named values describes.
pub open spec fn named<V>(s: Seq<(Seq<char>, V)>) -> Map<Seq<char>, V>
    decreases s.len(),
{
    if s.len() == 0 {
        Map::empty()
    } else {
        named(s.drop_last()).insert(s.last().0, s.last().1)
    }
}

proof fn lemma_prefix_in_order<V>(s: Seq<(Seq<char>, V)>)
    requires
        in_order(s),
        s.len() > 0,
    ensures
        in_order(s.drop_last()),
{
    let rest = s.drop_last();
    assert forall|i: int, j: int| 0 <= i < j < rest.len() implies less(
        (#[trigger] rest[i]).0,
        (#[trigger] rest[j]).0,
    ) by {
        assert(rest[i] == s[i] && rest[j] == s[j]);
    }
}

/// An entry of an ordered list is what the map holds under its name, and the map holds
/// nothing else.
pub proof fn lemma_named<V>(s: Seq<(Seq<char>, V)>)
    requires
        in_order(s),
    ensures
        forall|i: int|
            0 <= i < s.len() ==> named(s).dom().contains((#[trigger] s[i]).0) && named(s)[s[i].0]
                == s[i].1,
        forall|k: Seq<char>| #[trigger]
            named(s).dom().contains(k) ==> exists|i: int|
                0 <= i < s.len() && (#[trigger] s[i]).0 == k,
    decreases s.len(),
{
    if s.len() > 0 {
        let rest = s.drop_last();
        lemma_prefix_in_order(s);
        lemma_named(rest);
        let last = s.len() - 1;
        assert forall|i: int| 0 <= i < s.len() implies named(s).dom().contains((#[trigger] s[i]).0)
            && named(s)[s[i].0] == s[i].1 by {
            if i < last {
                assert(rest[i] == s[i]);
                assert(less(s[i].0, s[last].0));
                lemma_less_total(s[i].0, s[last].0);
            }
        }
        assert forall|k: Seq<char>| #[trigger] named(s).dom().contains(k) implies exists|i: int|
            0 <= i < s.len() && (#[trigger] s[i]).0 == k by {
            if k == s[last].0 {
            } else {
                assert(named(rest).dom().contains(k));
                let i = choose|i: int| 0 <= i < rest.len() && (#[trigger] rest[i]).0 == k;
                assert(s[i] == rest[i]);
            }
        }
    }
}

/// Two ordered lists that describe the same map are the same list.
pub proof fn ordered_list_is_unique<V>(a: Seq<(Seq<char>, V)>, b: Seq<(Seq<char>, V)>)
    requires
        in_order(a),
        in_order(b),
        named(a) == named(b),
    ensures
        a == b,
    decreases a.len(),
{
    lemma_named(a);
    lemma_named(b);
    if a.len() == 0 {
        if b.len() > 0 {
            assert(named(b).dom().contains(b[0].0));
        }
        assert(a =~= b);
    } else {
        let last = a[a.len() - 1];
        assert(named(b).dom().contains(last.0));
        let i = choose|i: int| 0 <= i < b.len() && (#[trigger] b[i]).0 == last.0;
        let top = b[b.len() - 1];
        assert(named(a).dom().contains(top.0));
        let j = choose|j: int| 0 <= j < a.len() && (#[trigger] a[j]).0 == top.0;
        assert(top.0 == last.0) by {
            lemma_less_total(last.0, top.0);
            if i < b.len() - 1 {
                assert(less(b[i].0, b[b.len() - 1].0));
            }
            if j < a.len() - 1 {
                assert(less(a[j].0, a[a.len() - 1].0));
            }
        }
        assert(named(a)[last.0] == last.1);
        assert(named(b)[top.0] == top.1);
        let x = a.drop_last();
        let y = b.drop_last();
        lemma_prefix_in_order(a);
        lemma_prefix_in_order(b);
        lemma_named(x);
        lemma_named(y);
        assert(!named(x).dom().contains(last.0)) by {
            if named(x).dom().contains(last.0) {
                let p = choose|p: int| 0 <= p < x.len() && (#[trigger] x[p]).0 == last.0;
                assert(a[p] == x[p]);
                assert(less(a[p].0, a[a.len() - 1].0));
                lemma_less_total(a[p].0, last.0);
            }
        }
        assert(!named(y).dom().contains(last.0)) by {
            if named(y).dom().contains(last.0) {
                let p = choose|p: int| 0 <= p < y.len() && (#[trigger] y[p]).0 == last.0;
                assert(b[p] == y[p]);
                assert(less(b[p].0, b[b.len() - 1].0));
                lemma_less_total(b[p].0, top.0);
            }
        }
        assert(named(x) =~= named(a).remove(last.0));
        assert(named(y) =~= named(b).remove(last.0));
        ordered_list_is_unique(x, y);
        assert(a =~= x.push(last));
        assert(b =~= y.push(last));
    }
}

/// The entries of a map in the order of their names.
pub open spec fn by_name<V>(m: Map<Seq<char>, V>) -> Seq<(Seq<char>, V)> {
    choose|s: Seq<(Seq<char>, V)>| in_order(s) && #[trigger] named(s) == m
}

/// An ordered list is what its map has as entries in the order of their names.
pub proof fn lemma_by_name<V>(s: Seq<(Seq<char>, V)>)
    requires
        in_order(s),
    ensures
        by_name(named(s)) == s,
{
    ordered_list_is_unique(by_name(named(s)), s);
}

proof fn lemma_remove_named<V>(before: Seq<(Seq<char>, V)>, p: int)
    requires
        in_order(before),
        0 <= p < before.len(),
    ensures
        in_order(before.remove(p)),
        named(before.remove(p)) == named(before).remove(before[p].0),
{
    let after = before.remove(p);
    let k = before[p].0;
    lemma_named(before);
    assert forall|i: int, j: int| 0 <= i < j < after.len() implies less(
        (#[trigger] after[i]).0,
        (#[trigger] after[j]).0,
    ) by {
        let a = if i < p { i } else { i + 1 };
        let b = if j < p { j } else { j + 1 };
        assert(after[i] == before[a] && after[j] == before[b]);
        assert(a < b);
    }
    lemma_named(after);
    let x_map = named(after);
    let y_map = named(before).remove(k);
    assert forall|x: Seq<char>| #[trigger] x_map.dom().contains(x) implies y_map.dom().contains(x)
        && x_map[x] == y_map[x] by {
        let i = choose|i: int| 0 <= i < after.len() && (#[trigger] after[i]).0 == x;
        let a = if i < p { i } else { i + 1 };
        assert(after[i] == before[a]);
        lemma_less_total(before[a].0, before[p].0);
        if a < p {
            assert(less(before[a].0, before[p].0));
        } else {
            assert(less(before[p].0, before[a].0));
        }
    }
    assert forall|x: Seq<char>| #[trigger] y_map.dom().contains(x) implies x_map.dom().contains(
        x,
    ) by {
        assert(named(before).dom().contains(x));
        let i = choose|i: int| 0 <= i < before.len() && (#[trigger] before[i]).0 == x;
        let a = if i < p { i } else { i - 1 };
        assert(after[a] == before[i]);
    }
    assert(x_map.dom() =~= y_map.dom());
    assert(x_map =~= y_map);
}

proof fn lemma_insert_named<V>(before: Seq<(Seq<char>, V)>, p: int, k: Seq<char>, v: V)
    requires
        in_order(before),
        0 <= p <= before.len(),
        forall|i: int| 0 <= i < p ==> less((#[trigger] before[i]).0, k),
        forall|i: int| p <= i < before.len() ==> less(k, (#[trigger] before[i]).0),
    ensures
        in_order(before.insert(p, (k, v))),
        named(before.insert(p, (k, v))) == named(before).insert(k, v),
{
    let after = before.insert(p, (k, v));
    lemma_named(before);
    assert forall|i: int, j: int| 0 <= i < j < after.len() implies less(
        (#[trigger] after[i]).0,
        (#[trigger] after[j]).0,
    ) by {
        let a = if i < p { i } else { i - 1 };
        let b = if j < p { j } else { j - 1 };
        if i != p {
            assert(after[i] == before[a]);
        }
        if j != p {
            assert(after[j] == before[b]);
        }
        if i != p && j != p {
            assert(a < b);
        }
    }
    lemma_named(after);
    let x_map = named(after);
    let y_map = named(before).insert(k, v);
    assert(after[p] == (k, v));
    assert forall|x: Seq<char>| #[trigger] x_map.dom().contains(x) implies y_map.dom().contains(x)
        && x_map[x] == y_map[x] by {
        let i = choose|i: int| 0 <= i < after.len() && (#[trigger] after[i]).0 == x;
        let a = if i < p { i } else { i - 1 };
        if i != p {
            assert(after[i] == before[a]);
            lemma_less_total(before[a].0, k);
        }
    }
    assert forall|x: Seq<char>| #[trigger] y_map.dom().contains(x) implies x_map.dom().contains(
        x,
    ) by {
        if x != k {
            assert(named(before).dom().contains(x));
            let i = choose|i: int| 0 <= i < before.len() && (#[trigger] before[i]).0 == x;
            let a = if i < p { i } else { i + 1 };
            assert(after[a] == before[i]);
        }
    }
    assert(x_map.dom() =~= y_map.dom());
    assert(x_map =~= y_map);
}

/// The contents of a list of named values.
pub open spec fn entry_views<V>(s: Seq<(String, V)>) -> Seq<(Seq<char>, V)> {
    s.map_values(|e: (String, V)| (e.0@, e.1))
}

/// A table from texts to values.
pub struct TextTable<V> {
    entries: Vec<(String, V)>,
}

impl<V> TextTable<V> {
    /// The entries in the order of their names.
    pub closed spec fn entries(&self) -> Seq<(Seq<char>, V)> {
        entry_views(self.entries@)
    }

    /// What the table holds.
    pub open spec fn view(&self) -> Map<Seq<char>, V> {
        named(self.entries())
    }

    /// The entries stand in order.
    pub open spec fn well_formed(&self) -> bool {
        in_order(self.entries())
    }

    pub fn new() -> (r: Self)
        ensures
            r.well_formed(),
            r@ == Map::<Seq<char>, V>::empty(),
            r.entries() == Seq::<(Seq<char>, V)>::empty(),
    {
        let r = TextTable { entries: Vec::new() };
        assert(r.entries() =~= Seq::<(Seq<char>, V)>::empty());
        r
    }

    /// How many entries there are.
    pub fn len(&self) -> (n: usize)
        ensures
            n == self.entries().len(),
    {
        self.entries.len()
    }

    /// The name of the `i`-th entry.
    pub fn name_at(&self, i: usize) -> (k: &str)
        requires
            i < self.entries().len(),
        ensures
            k@ == self.entries()[i as int].0,
    {
        self.entries[i].0.as_str()
    }

    /// The value of the `i`-th entry.
    pub fn value_at(&self, i: usize) -> (v: &V)
        requires
            i < self.entries().len(),
        ensures
            *v == self.entries()[i as int].1,
    {
        &self.entries[i].1
    }

    /// The place of the first entry whose name does not come before `k`.
    fn place(&self, k: &str) -> (p: usize)
        requires
            self.well_formed(),
        ensures
            p <= self.entries().len(),
            forall|i: int| 0 <= i < p ==> less((#[trigger] self.entries()[i]).0, k@),
            forall|i: int|
                p <= i < self.entries().len() ==> !less((#[trigger] self.entries()[i]).0, k@),
    {
        let mut p: usize = 0;
        while p < self.entries.len() && comes_before(self.entries[p].0.as_str(), k)
            invariant
                0 <= p <= self.entries@.len(),
                forall|i: int| 0 <= i < p ==> less((#[trigger] self.entries()[i]).0, k@),
            decreases self.entries@.len() - p,
        {
            assert(self.entries()[p as int].0 == self.entries@[p as int].0@);
            p = p + 1;
        }
        assert forall|i: int| p <= i < self.entries().len() implies !less(
            (#[trigger] self.entries()[i]).0,
            k@,
        ) by {
            assert(self.entries()[p as int].0 == self.entries@[p as int].0@);
            if p < i && less(self.entries()[i].0, k@) {
                assert(less(self.entries()[p as int].0, self.entries()[i].0));
                lemma_less_transitive(self.entries()[p as int].0, self.entries()[i].0, k@);
            }
        }
        p
    }

    /// Where the name stands, if it has an entry.
    fn find(&self, k: &str) -> (r: Option<usize>)
        requires
            self.well_formed(),
        ensures
            match r {
                Some(p) => p < self.entries().len() && self.entries()[p as int].0 == k@
                    && self@.dom().contains(k@) && self@[k@] == self.entries()[p as int].1,
                None => !self@.dom().contains(k@),
            },
    {
        proof {
            lemma_named(self.entries());
        }
        let p = self.place(k);
        if p < self.entries.len() && same(self.entries[p].0.as_str(), k) {
            assert(self.entries()[p as int].0 == self.entries@[p as int].0@);
            Some(p)
        } else {
            assert(!self@.dom().contains(k@)) by {
                if self@.dom().contains(k@) {
                    let i = choose|i: int|
                        0 <= i < self.entries().len() && (#[trigger] self.entries()[i]).0 == k@;
                    if p < self.entries().len() {
                        assert(self.entries()[p as int].0 == self.entries@[p as int].0@);
                    }
                    lemma_less_total(self.entries()[i].0, k@);
                    if p < i {
                        assert(less(self.entries()[p as int].0, self.entries()[i].0));
                    }
                }
            }
            None
        }
    }

    /// The value under a name.
    pub fn get(&self, k: &str) -> (r: Option<&V>)
        requires
            self.well_formed(),
        ensures
            match r {
                Some(v) => self@.dom().contains(k@) && self@[k@] == *v,
                None => !self@.dom().contains(k@),
            },
    {
        match self.find(k) {
            Some(p) => Some(&self.entries[p].1),
            None => None,
        }
    }

    /// Whether there is a value under a name.
    pub fn has(&self, k: &str) -> (r: bool)
        requires
            self.well_formed(),
        ensures
            r == self@.dom().contains(k@),
    {
        self.get(k).is_some()
    }

    /// Takes the value under a name out of the table.
    pub fn remove(&mut self, k: &str) -> (r: Option<V>)
        requires
            old(self).well_formed(),
        ensures
            final(self).well_formed(),
            final(self)@ == old(self)@.remove(k@),
            match r {
                Some(v) => old(self)@.dom().contains(k@) && old(self)@[k@] == v,
                None => !old(self)@.dom().contains(k@),
            },
    {
        let ghost before = self.entries();
        match self.find(k) {
            Some(p) => {
                let (_, v) = self.entries.remove(p);
                assert(self.entries() =~= before.remove(p as int));
                proof {
                    lemma_remove_named(before, p as int);
                }
                Some(v)
            },
            None => {
                assert(named(before).remove(k@) =~= named(before));
                None
            },
        }
    }

    /// Puts a value under a name, in the place of the one before.
    pub fn insert(&mut self, k: String, v: V)
        requires
            old(self).well_formed(),
        ensures
            final(self).well_formed(),
            final(self)@ == old(self)@.insert(k@, v),
    {
        let ghost start = self@;
        let ghost name = k@;
        let _ = self.remove(k.as_str());
        let ghost before = self.entries();
        let p = self.place(k.as_str());
        proof {
            lemma_named(before);
            assert forall|i: int| p <= i < before.len() implies less(
                name,
                (#[trigger] before[i]).0,
            ) by {
                lemma_less_total(name, before[i].0);
                if before[i].0 == name {
                    assert(named(before).dom().contains(name));
                }
            }
            lemma_insert_named(before, p as int, name, v);
        }
        self.entries.insert(p, (k, v));
        assert(self.entries() =~= before.insert(p as int, (name, v)));
        assert(start.remove(name).insert(name, v) =~= start.insert(name, v));
    }
}

/// An ordered list with its values seen through `f`.
pub open spec fn seen<A, B>(list: Seq<(Seq<char>, A)>, f: spec_fn(A) -> B) -> Seq<(Seq<char>, B)> {
    list.map_values(|e: (Seq<char>, A)| (e.0, f(e.1)))
}

/// Seeing the values of an ordered list otherwise keeps its order and its names.
pub proof fn lemma_seen_list<A, B>(list: Seq<(Seq<char>, A)>, f: spec_fn(A) -> B)
    requires
        in_order(list),
    ensures
        in_order(seen(list, f)),
        named(seen(list, f)) == named(list).map_values(f),
        by_name(named(list).map_values(f)) == seen(list, f),
    decreases list.len(),
{
    let other = seen(list, f);
    assert forall|i: int, j: int| 0 <= i < j < other.len() implies less(
        (#[trigger] other[i]).0,
        (#[trigger] other[j]).0,
    ) by {
        assert(other[i].0 == list[i].0 && other[j].0 == list[j].0);
    }
    if list.len() > 0 {
        lemma_prefix_in_order(list);
        lemma_seen_list(list.drop_last(), f);
        assert(seen(list.drop_last(), f) =~= other.drop_last());
    }
    assert(named(other).dom() =~= named(list).map_values(f).dom());
    assert(named(other) =~= named(list).map_values(f));
    lemma_by_name(other);
}

spec fn text_of() -> spec_fn(String) -> Seq<char> {
    |s: String| s@
}

/// A table from texts to texts.
pub struct TextMap {
    table: TextTable<String>,
}

impl TextMap {
    /// What the table holds.
    pub closed spec fn view(&self) -> Map<Seq<char>, Seq<char>> {
        self.table@.map_values(text_of())
    }

    pub closed spec fn well_formed(&self) -> bool {
        self.table.well_formed()
    }

    /// The entries in the order of their names.
    pub closed spec fn entries(&self) -> Seq<(Seq<char>, Seq<char>)> {
        seen(self.table.entries(), text_of())
    }

    pub fn new() -> (r: Self)
        ensures
            r.well_formed(),
            r@ == Map::<Seq<char>, Seq<char>>::empty(),
    {
        let r = TextMap { table: TextTable::new() };
        assert(r@ =~= Map::<Seq<char>, Seq<char>>::empty());
        r
    }

    /// Puts a text under a name, in the place of the one before.
    pub fn insert(&mut self, k: String, v: String)
        requires
            old(self).well_formed(),
        ensures
            final(self).well_formed(),
            final(self)@ == old(self)@.insert(k@, v@),
    {
        let ghost before = self@;
        proof {
            lemma_seen_list(self.table.entries(), text_of());
        }
        self.table.insert(k, v);
        proof {
            lemma_seen_list(self.table.entries(), text_of());
            assert(self@.dom() =~= before.insert(k@, v@).dom());
            assert(self@ =~= before.insert(k@, v@));
        }
    }

    /// The text under a name.
    pub fn get(&self, k: &str) -> (r: Option<&str>)
        requires
            self.well_formed(),
        ensures
            match r {
                Some(v) => self@.dom().contains(k@) && self@[k@] == v@,
                None => !self@.dom().contains(k@),
            },
    {
        proof {
            lemma_seen_list(self.table.entries(), text_of());
        }
        match self.table.get(k) {
            Some(v) => Some(v.as_str()),
            None => None,
        }
    }

    /// How many entries there are.
    pub fn len(&self) -> (n: usize)
        requires
            self.well_formed(),
        ensures
            n == self.entries().len(),
            self.entries() == by_name(self@),
    {
        proof {
            lemma_seen_list(self.table.entries(), text_of());
            lemma_by_name(self.entries());
        }
        self.table.len()
    }

    /// The name of the `i`-th entry.
    pub fn name_at(&self, i: usize) -> (k: &str)
        requires
            i < self.entries().len(),
        ensures
            k@ == self.entries()[i as int].0,
    {
        self.table.name_at(i)
    }

    /// The text of the `i`-th entry.
    pub fn text_at(&self, i: usize) -> (v: &str)
        requires
            i < self.entries().len(),
        ensures
            v@ == self.entries()[i as int].1,
    {
        self.table.value_at(i).as_str()
    }
}

} // verus!
