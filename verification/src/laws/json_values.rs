//! What values say when they are read as JSON.

use vstd::prelude::*;

use crate::json::json_escaped;
use crate::laws::json_reading::{
    braced, escaped_texts_are_meant_as_they_were, field, fields, fields_read, last_named,
    lemma_joined, lists_are_read_item_by_item, null_says_nothing, quoted_texts_say_the_text, reads,
    signed_decimals_say_the_number, truth_values_say_what_they_are, Json,
};
use crate::text::{lemma_less_total, lemma_less_transitive, less};
use crate::text_table::{by_name, in_order, lemma_by_name, lemma_named, named};
use crate::value::{
    field_texts, float_json_text, float_json_texts, object_text, val_text, val_texts, Flo, Val,
};

verus! {

/// Whether the entries of a map can be listed in the order of their names.
pub open spec fn name_listed<V>(m: Map<Seq<char>, V>) -> bool {
    exists|s: Seq<(Seq<char>, V)>| in_order(s) && #[trigger] named(s) == m
}

proof fn lemma_names_with<V>(s: Seq<(Seq<char>, V)>, k: Seq<char>, v: V) -> (t: Seq<
    (Seq<char>, V),
>)
    requires
        in_order(s),
    ensures
        in_order(t),
        named(t) == named(s).insert(k, v),
    decreases s.len(),
{
    if s.len() == 0 {
        let t = seq![(k, v)];
        assert(t.drop_last() =~= s);
        t
    } else {
        let last = s.last();
        let front = s.drop_last();
        assert(in_order(front)) by {
            assert forall|i: int, j: int| 0 <= i < j < front.len() implies less(
                (#[trigger] front[i]).0,
                (#[trigger] front[j]).0,
            ) by {
                assert(front[i] == s[i] && front[j] == s[j]);
            }
        }
        lemma_less_total(last.0, k);
        if less(last.0, k) {
            let t = s.push((k, v));
            assert(t.drop_last() =~= s);
            assert forall|i: int, j: int| 0 <= i < j < t.len() implies less(
                (#[trigger] t[i]).0,
                (#[trigger] t[j]).0,
            ) by {
                if j == s.len() {
                    if i < s.len() - 1 {
                        assert(less(s[i].0, s[s.len() - 1].0));
                        lemma_less_transitive(s[i].0, last.0, k);
                    }
                } else {
                    assert(t[i] == s[i] && t[j] == s[j]);
                }
            }
            t
        } else if last.0 == k {
            let t = front.push((k, v));
            assert(t.drop_last() =~= front);
            assert forall|i: int, j: int| 0 <= i < j < t.len() implies less(
                (#[trigger] t[i]).0,
                (#[trigger] t[j]).0,
            ) by {
                assert(t[i].0 == s[i].0 && t[j].0 == s[j].0);
            }
            assert(named(t) =~= named(s).insert(k, v));
            t
        } else {
            let u = lemma_names_with(front, k, v);
            let t = u.push(last);
            lemma_named(u);
            lemma_named(front);
            assert(t.drop_last() =~= u);
            assert(named(t) =~= named(s).insert(k, v));
            assert forall|i: int, j: int| 0 <= i < j < t.len() implies less(
                (#[trigger] t[i]).0,
                (#[trigger] t[j]).0,
            ) by {
                if j == u.len() {
                    assert(t[i] == u[i]);
                    assert(named(u).dom().contains(u[i].0));
                    if u[i].0 != k {
                        assert(named(front).dom().contains(u[i].0));
                        let p = choose|p: int|
                            0 <= p < front.len() && (#[trigger] front[p]).0 == u[i].0;
                        assert(s[p] == front[p]);
                        assert(less(s[p].0, s[s.len() - 1].0));
                    }
                } else {
                    assert(t[i] == u[i] && t[j] == u[j]);
                }
            }
            t
        }
    }
}

pub proof fn lemma_name_listed_insert<V>(m: Map<Seq<char>, V>, k: Seq<char>, v: V)
    requires
        name_listed(m),
    ensures
        name_listed(m.insert(k, v)),
{
    let s = choose|s: Seq<(Seq<char>, V)>| in_order(s) && #[trigger] named(s) == m;
    let t = lemma_names_with(s, k, v);
    assert(in_order(t) && named(t) == m.insert(k, v));
}

pub proof fn lemma_name_listed_empty<V>()
    ensures
        name_listed(Map::<Seq<char>, V>::empty()),
{
    let s = Seq::<(Seq<char>, V)>::empty();
    assert(in_order(s) && named(s) == Map::<Seq<char>, V>::empty());
}

/// The entries of a map in the order of their names are its entries, all of them, each once.
pub proof fn lemma_names_in_order<V>(m: Map<Seq<char>, V>)
    requires
        name_listed(m),
    ensures
        in_order(by_name(m)),
        named(by_name(m)) == m,
        forall|i: int|
            0 <= i < by_name(m).len() ==> m.dom().contains((#[trigger] by_name(m)[i]).0)
                && m[by_name(m)[i].0] == by_name(m)[i].1,
        forall|k: Seq<char>| #[trigger]
            m.dom().contains(k) ==> exists|i: int|
                0 <= i < by_name(m).len() && #[trigger] by_name(m)[i] == (k, m[k]),
{
    let s = choose|s: Seq<(Seq<char>, V)>| in_order(s) && #[trigger] named(s) == m;
    lemma_by_name(s);
    lemma_named(s);
    assert forall|k: Seq<char>| #[trigger] m.dom().contains(k) implies exists|i: int|
        0 <= i < by_name(m).len() && #[trigger] by_name(m)[i] == (k, m[k]) by {
        let i = choose|i: int| 0 <= i < s.len() && (#[trigger] s[i]).0 == k;
        assert(by_name(m)[i] == (k, m[k]));
    }
}

proof fn lemma_last_named(fs: Seq<(Seq<char>, Json)>, name: Seq<char>)
    ensures
        match last_named(fs, name) {
            Some(j) => named(fs).dom().contains(name) && named(fs)[name] == j,
            None => !named(fs).dom().contains(name),
        },
    decreases fs.len(),
{
    if fs.len() > 0 {
        lemma_last_named(fs.drop_last(), name);
    }
}

/// An object that is written from named texts says what the texts say, each under its name.
pub proof fn objects_say_what_their_fields_say(
    texts: Map<Seq<char>, Seq<char>>,
    says: Map<Seq<char>, Json>,
)
    requires
        name_listed(texts),
        name_listed(says),
        texts.dom() == says.dom(),
        forall|k: Seq<char>| #[trigger] texts.dom().contains(k) ==> reads(texts[k], says[k]),
    ensures
        reads(object_text(texts), Json::Fields(by_name(says))),
        forall|k: Seq<char>|
            says.dom().contains(k) ==> #[trigger] last_named(by_name(says), k) == Some(says[k]),
        forall|k: Seq<char>|
            !says.dom().contains(k) ==> #[trigger] last_named(by_name(says), k) is None,
{
    reveal(reads);
    reveal_strlit("{");
    reveal_strlit("}");
    reveal_strlit("\"");
    reveal_strlit("\":");
    lemma_names_in_order(texts);
    lemma_names_in_order(says);
    let a = by_name(texts);
    let b = by_name(says);
    lemma_same_names(a, b);
    let names = Seq::new(a.len(), |i: int| json_escaped(a[i].0));
    let values = Seq::new(a.len(), |i: int| a[i].1);
    assert forall|i: int| 0 <= i < a.len() implies #[trigger] field_texts(a)[i] == fields(
        names,
        values,
    )[i] by {
        assert("\""@ + json_escaped(a[i].0) + "\":"@ + a[i].1 =~= field(names[i], values[i]));
    }
    assert(field_texts(a) =~= fields(names, values));
    lemma_joined(field_texts(a));
    assert(object_text(texts) =~= braced(names, values));
    assert forall|i: int| 0 <= i < b.len() implies crate::laws::json_reading::meant(names[i])
        == Some((#[trigger] b[i]).0) && reads(values[i], b[i].1) by {
        escaped_texts_are_meant_as_they_were(a[i].0);
        assert(a[i].0 == b[i].0);
        assert(texts.dom().contains(a[i].0));
        assert(says[b[i].0] == b[i].1);
    }
    assert(fields_read(names, values, b));
    assert forall|k: Seq<char>|
        (says.dom().contains(k) ==> #[trigger] last_named(by_name(says), k) == Some(says[k])) && (
        !says.dom().contains(k) ==> last_named(by_name(says), k) is None) by {
        lemma_last_named(b, k);
    }
}

/// Two ordered lists with the same names have them at the same places.
proof fn lemma_same_names<V, W>(a: Seq<(Seq<char>, V)>, b: Seq<(Seq<char>, W)>)
    requires
        in_order(a),
        in_order(b),
        named(a).dom() == named(b).dom(),
    ensures
        a.len() == b.len(),
        forall|i: int| 0 <= i < a.len() ==> (#[trigger] a[i]).0 == b[i].0,
{
    let x = a.map_values(|e: (Seq<char>, V)| (e.0, ()));
    let y = b.map_values(|e: (Seq<char>, W)| (e.0, ()));
    assert(in_order(x)) by {
        assert forall|i: int, j: int| 0 <= i < j < x.len() implies less(
            (#[trigger] x[i]).0,
            (#[trigger] x[j]).0,
        ) by {
            assert(less(a[i].0, a[j].0));
        }
    }
    assert(in_order(y)) by {
        assert forall|i: int, j: int| 0 <= i < j < y.len() implies less(
            (#[trigger] y[i]).0,
            (#[trigger] y[j]).0,
        ) by {
            assert(less(b[i].0, b[j].0));
        }
    }
    lemma_named(a);
    lemma_named(b);
    lemma_named(x);
    lemma_named(y);
    assert forall|k: Seq<char>| #[trigger] named(x).dom().contains(k) implies named(
        y,
    ).dom().contains(k) by {
        let i = choose|i: int| 0 <= i < x.len() && (#[trigger] x[i]).0 == k;
        assert(a[i].0 == k);
        assert(named(b).dom().contains(k));
        let j = choose|j: int| 0 <= j < b.len() && (#[trigger] b[j]).0 == k;
        assert(y[j].0 == k);
    }
    assert forall|k: Seq<char>| #[trigger] named(y).dom().contains(k) implies named(
        x,
    ).dom().contains(k) by {
        let i = choose|i: int| 0 <= i < y.len() && (#[trigger] y[i]).0 == k;
        assert(b[i].0 == k);
        assert(named(a).dom().contains(k));
        let j = choose|j: int| 0 <= j < a.len() && (#[trigger] a[j]).0 == k;
        assert(x[j].0 == k);
    }
    assert(named(x).dom() =~= named(y).dom());
    assert(named(x) =~= named(y));
    crate::text_table::ordered_list_is_unique(x, y);
    assert forall|i: int| 0 <= i < a.len() implies (#[trigger] a[i]).0 == b[i].0 by {
        assert(x[i] == y[i]);
    }
}

/// What a floating point number says: that it is missing, where it is not finite.
pub open spec fn float_says(f: Flo) -> Json {
    if f.finite {
        Json::Fraction(f.text)
    } else {
        Json::Null
    }
}

/// What a value says.
pub open spec fn value_says(v: Val) -> Json
    decreases v,
{
    match v {
        Val::Null => Json::Null,
        Val::Bool(b) => Json::Bool(b),
        Val::Int(n) => Json::Number(n),
        Val::Float(f) => float_says(f),
        Val::Text(t) => Json::Text(t),
        Val::Vector(fs) => Json::List(fs.map_values(|f: Flo| float_says(f))),
        Val::Object(m) => Json::Fields(by_name(values_say(m))),
    }
}

/// What named values say, by their names; the last value of a name holds.
pub open spec fn values_say(s: Seq<(Seq<char>, Val)>) -> Map<Seq<char>, Json>
    decreases s,
{
    if s.len() == 0 {
        Map::empty()
    } else {
        values_say(s.drop_last()).insert(s.last().0, value_says(s.last().1))
    }
}

proof fn lemma_floats(f: Flo)
    ensures
        reads(float_json_text(f), float_says(f)),
{
    reveal(reads);
    null_says_nothing();
}

/// A value says what it is: its kind and its contents, down to the fields of its objects.
pub proof fn values_say_what_they_are(v: Val)
    ensures
        reads(val_text(v), value_says(v)),
    decreases v,
{
    match v {
        Val::Null => {
            null_says_nothing();
        },
        Val::Bool(b) => {
            truth_values_say_what_they_are(b);
        },
        Val::Int(n) => {
            signed_decimals_say_the_number(n);
        },
        Val::Float(f) => {
            lemma_floats(f);
        },
        Val::Text(t) => {
            quoted_texts_say_the_text(t);
        },
        Val::Vector(fs) => {
            let items = fs.map_values(|f: Flo| float_says(f));
            let parts = float_json_texts(fs);
            assert forall|i: int| 0 <= i < items.len() implies reads(
                parts[i],
                #[trigger] items[i],
            ) by {
                lemma_floats(fs[i]);
                assert(parts[i] == float_json_text(fs[i]));
            }
            lists_are_read_item_by_item(parts, items);
        },
        Val::Object(m) => {
            lemma_named_values(m);
            objects_say_what_their_fields_say(val_texts(m), values_say(m));
        },
    }
}

/// Named values say what they are, each under its name.
pub proof fn named_values_say_what_they_are(m: Seq<(Seq<char>, Val)>)
    ensures
        reads(object_text(val_texts(m)), Json::Fields(by_name(values_say(m)))),
        forall|k: Seq<char>|
            values_say(m).dom().contains(k) ==> #[trigger] last_named(by_name(values_say(m)), k)
                == Some(values_say(m)[k]),
{
    lemma_named_values(m);
    objects_say_what_their_fields_say(val_texts(m), values_say(m));
}

proof fn lemma_named_values(m: Seq<(Seq<char>, Val)>)
    ensures
        name_listed(val_texts(m)),
        name_listed(values_say(m)),
        val_texts(m).dom() == values_say(m).dom(),
        forall|k: Seq<char>| #[trigger]
            val_texts(m).dom().contains(k) ==> reads(val_texts(m)[k], values_say(m)[k]),
    decreases m,
{
    if m.len() == 0 {
        lemma_name_listed_empty::<Seq<char>>();
        lemma_name_listed_empty::<Json>();
        assert(val_texts(m).dom() =~= values_say(m).dom());
    } else {
        let front = m.drop_last();
        let last = m.last();
        assert(decreases_to!(m => m[m.len() - 1]));
        assert(decreases_to!(m[m.len() - 1] => m[m.len() - 1].1));
        lemma_named_values(front);
        values_say_what_they_are(m[m.len() - 1].1);
        lemma_name_listed_insert(val_texts(front), last.0, val_text(last.1));
        lemma_name_listed_insert(values_say(front), last.0, value_says(last.1));
        assert(val_texts(m).dom() =~= values_say(m).dom());
    }
}

/// What stands under a name among named values is what the last value of that name says.
pub proof fn last_value_of_a_name_holds(m: Seq<(Seq<char>, Val)>, i: int)
    requires
        0 <= i < m.len(),
        forall|j: int| i < j < m.len() ==> (#[trigger] m[j]).0 != m[i].0,
    ensures
        values_say(m).dom().contains(m[i].0),
        values_say(m)[m[i].0] == value_says(m[i].1),
    decreases m.len(),
{
    if i < m.len() - 1 {
        assert(m[m.len() - 1].0 != m[i].0);
        let front = m.drop_last();
        assert forall|j: int| i < j < front.len() implies (#[trigger] front[j]).0 != front[i].0 by {
            assert(front[j] == m[j]);
        }
        last_value_of_a_name_holds(front, i);
    }
}

} // verus!
