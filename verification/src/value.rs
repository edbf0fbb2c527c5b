//! The values that queries take and give, and their form in JSON.

use vstd::prelude::*;

use crate::json::{
    bool_text, json_escape, json_escaped, json_text, show_bool,
};
use crate::text::{cat3, dec_int, join, join_with, lemma_views_push, show_signed, views};
use crate::text_table::{by_name, in_order, lemma_seen_list, named, seen, TextMap, TextTable};

verus! {

/// A floating point number: its decimal text, its bits, and whether it is finite.
pub struct FloatValue {
    pub text: String,
    pub bits: u64,
    pub finite: bool,
}

/// The contents of a floating point number.
pub struct Flo {
    pub text: Seq<char>,
    pub bits: nat,
    pub finite: bool,
}

impl FloatValue {
    pub open spec fn view(&self) -> Flo {
        Flo { text: self.text@, bits: self.bits as nat, finite: self.finite }
    }
}

/// The contents of a list of floating point numbers.
pub open spec fn floats(v: Seq<FloatValue>) -> Seq<Flo> {
    v.map_values(|f: FloatValue| f@)
}

/// A value.
pub enum Value {
    Null,
    Bool(bool),
    Int(i64),
    Float(FloatValue),
    Text(String),
    Vector(Vec<FloatValue>),
    Object(Vec<(String, Value)>),
}

/// The contents of a value.
pub enum Val {
    Null,
    Bool(bool),
    Int(int),
    Float(Flo),
    Text(Seq<char>),
    Vector(Seq<Flo>),
    Object(Seq<(Seq<char>, Val)>),
}

/// The contents of a value.
pub open spec fn val(v: Value) -> Val
    decreases v,
{
    match v {
        Value::Null => Val::Null,
        Value::Bool(b) => Val::Bool(b),
        Value::Int(n) => Val::Int(n as int),
        Value::Float(f) => Val::Float(f@),
        Value::Text(t) => Val::Text(t@),
        Value::Vector(fs) => Val::Vector(floats(fs@)),
        Value::Object(m) => Val::Object(vals(m@)),
    }
}

/// The contents of a list of named values.
pub open spec fn vals(s: Seq<(String, Value)>) -> Seq<(Seq<char>, Val)>
    decreases s,
{
    if s.len() == 0 {
        Seq::<(Seq<char>, Val)>::empty()
    } else {
        vals(s.drop_last()).push((s.last().0@, val(s.last().1)))
    }
}

pub proof fn lemma_vals_push(s: Seq<(String, Value)>, e: (String, Value))
    ensures
        vals(s.push(e)) == vals(s).push((e.0@, val(e.1))),
{
    assert(s.push(e).drop_last() =~= s);
}

/// The JSON form of a floating point number: `null` where it is not finite.
pub open spec fn float_json_text(f: Flo) -> Seq<char> {
    if f.finite {
        f.text
    } else {
        "null"@
    }
}

/// The JSON forms of floating point numbers, in order.
pub open spec fn float_json_texts(fs: Seq<Flo>) -> Seq<Seq<char>> {
    fs.map_values(|f: Flo| float_json_text(f))
}

fn float_json(f: &FloatValue) -> (r: String)
    ensures
        r@ == float_json_text(f@),
{
    if f.finite {
        f.text.as_str().to_owned()
    } else {
        "null".to_owned()
    }
}

fn floats_json(fs: &Vec<FloatValue>) -> (parts: Vec<String>)
    ensures
        views(parts@) == float_json_texts(floats(fs@)),
{
    let mut parts: Vec<String> = Vec::new();
    let mut i: usize = 0;
    let ghost all = float_json_texts(floats(fs@));
    assert(views(parts@) =~= all.take(0));
    while i < fs.len()
        invariant
            0 <= i <= fs@.len(),
            all == float_json_texts(floats(fs@)),
            views(parts@) == all.take(i as int),
        decreases fs@.len() - i,
    {
        let part = float_json(&fs[i]);
        assert(all[i as int] == part@);
        proof {
            lemma_views_push(parts@, part);
        }
        parts.push(part);
        assert(all.take(i + 1) =~= all.take(i as int).push(part@));
        i = i + 1;
    }
    assert(all.take(all.len() as int) =~= all);
    parts
}

/// The JSON form of a value.
pub open spec fn val_text(v: Val) -> Seq<char>
    decreases v,
{
    match v {
        Val::Null => "null"@,
        Val::Bool(b) => bool_text(b),
        Val::Int(n) => dec_int(n),
        Val::Float(f) => float_json_text(f),
        Val::Text(t) => json_text(t),
        Val::Vector(fs) => "["@ + join(float_json_texts(fs), ","@) + "]"@,
        Val::Object(m) => object_text(val_texts(m)),
    }
}

/// The JSON forms of named values, by their names; a later value of a name takes the
/// place of an earlier one.
pub open spec fn val_texts(s: Seq<(Seq<char>, Val)>) -> Map<Seq<char>, Seq<char>>
    decreases s,
{
    if s.len() == 0 {
        Map::empty()
    } else {
        val_texts(s.drop_last()).insert(s.last().0, val_text(s.last().1))
    }
}

/// The fields of a JSON object.
pub open spec fn field_texts(fields: Seq<(Seq<char>, Seq<char>)>) -> Seq<Seq<char>> {
    fields.map_values(
        |f: (Seq<char>, Seq<char>)| "\""@ + json_escaped(f.0) + "\":"@ + f.1,
    )
}

/// A JSON object, its fields in the order of their names.
pub open spec fn object_text(fields: Map<Seq<char>, Seq<char>>) -> Seq<char> {
    "{"@ + join(field_texts(by_name(fields)), ","@) + "}"@
}

/// Writes a JSON object.
pub fn object_json(fields: &TextMap) -> (r: String)
    requires
        fields.well_formed(),
    ensures
        r@ == object_text(fields@),
{
    let n: usize = fields.len();
    let mut parts: Vec<String> = Vec::new();
    let mut i: usize = 0;
    let ghost all = field_texts(by_name(fields@));
    assert(views(parts@) =~= all.take(0));
    while i < n
        invariant
            0 <= i <= n,
            n == fields.entries().len(),
            fields.entries() == by_name(fields@),
            all == field_texts(by_name(fields@)),
            views(parts@) == all.take(i as int),
        decreases n - i,
    {
        let mut part = "\"".to_owned();
        part.append(json_escape(fields.name_at(i)).as_str());
        part.append("\":");
        part.append(fields.text_at(i));
        assert(all[i as int] == part@);
        proof {
            lemma_views_push(parts@, part);
        }
        parts.push(part);
        assert(all.take(i + 1) =~= all.take(i as int).push(part@));
        i = i + 1;
    }
    assert(all.take(all.len() as int) =~= all);
    cat3("{", join_with(parts.as_slice(), ",").as_str(), "}")
}

/// Writes a value in JSON.
pub fn value_json(value: &Value) -> (r: String)
    ensures
        r@ == val_text(val(*value)),
    decreases *value,
{
    match value {
        Value::Null => "null".to_owned(),
        Value::Bool(b) => show_bool(*b).to_owned(),
        Value::Int(n) => show_signed(*n),
        Value::Float(f) => float_json(f),
        Value::Text(t) => cat3("\"", json_escape(t.as_str()).as_str(), "\""),
        Value::Vector(fs) => cat3("[", join_with(floats_json(fs).as_slice(), ",").as_str(), "]"),
        Value::Object(m) => properties_json(m),
    }
}

/// Writes named values as a JSON object.
pub fn properties_json(properties: &Vec<(String, Value)>) -> (r: String)
    ensures
        r@ == object_text(val_texts(vals(properties@))),
    decreases *properties,
{
    let mut fields = TextMap::new();
    let mut i: usize = 0;
    assert(properties@.take(0) =~= Seq::<(String, Value)>::empty());
    while i < properties.len()
        invariant
            0 <= i <= properties@.len(),
            fields.well_formed(),
            fields@ == val_texts(vals(properties@.take(i as int))),
        decreases properties@.len() - i,
    {
        let ghost before = properties@.take(i as int);
        let ghost e = properties@[i as int];
        assert(properties@.take(i + 1) =~= before.push(e));
        proof {
            lemma_vals_push(before, e);
            assert(vals(before.push(e)).drop_last() =~= vals(before));
            assert(decreases_to!(*properties => properties@));
            assert(decreases_to!(properties@ => properties@[i as int]));
            assert(decreases_to!(properties@[i as int] => properties@[i as int].1));
        }
        let text = value_json(&properties[i].1);
        fields.insert(properties[i].0.as_str().to_owned(), text);
        i = i + 1;
    }
    assert(properties@.take(properties@.len() as int) =~= properties@);
    object_json(&fields)
}

/// The parameters of a query.
pub struct QueryParams {
    values: TextTable<Value>,
}

/// What a value holds, as a function.
pub open spec fn val_of() -> spec_fn(Value) -> Val {
    |v: Value| val(v)
}

impl QueryParams {
    pub closed spec fn view(&self) -> Map<Seq<char>, Val> {
        self.values@.map_values(val_of())
    }

    pub closed spec fn well_formed(&self) -> bool {
        self.values.well_formed()
    }

    /// The parameters in the order of their names.
    pub closed spec fn entries(&self) -> Seq<(Seq<char>, Val)> {
        seen(self.values.entries(), val_of())
    }

    /// No parameters.
    pub fn new() -> (r: Self)
        ensures
            r.well_formed(),
            r@ == Map::<Seq<char>, Val>::empty(),
    {
        let r = QueryParams { values: TextTable::new() };
        assert(r@ =~= Map::<Seq<char>, Val>::empty());
        r
    }

    /// Sets a parameter.
    pub fn insert(&mut self, name: String, value: Value)
        requires
            old(self).well_formed(),
        ensures
            final(self).well_formed(),
            final(self)@ == old(self)@.insert(name@, val(value)),
    {
        let ghost before = self@;
        self.values.insert(name, value);
        assert(self@.dom() =~= before.insert(name@, val(value)).dom());
        assert(self@ =~= before.insert(name@, val(value)));
    }

    /// Whether a parameter is set.
    pub fn contains_key(&self, name: &str) -> (r: bool)
        requires
            self.well_formed(),
        ensures
            r == self@.dom().contains(name@),
    {
        self.values.has(name)
    }

    /// How many parameters there are.
    pub fn len(&self) -> (n: usize)
        requires
            self.well_formed(),
        ensures
            n == self.entries().len(),
            self.entries() == by_name(self@),
            in_order(self.entries()),
            named(self.entries()) == self@,
    {
        proof {
            lemma_seen_list(self.values.entries(), val_of());
        }
        self.values.len()
    }

    /// Whether there are no parameters.
    pub fn is_empty(&self) -> (r: bool)
        requires
            self.well_formed(),
        ensures
            r == (self@.dom() =~= Set::<Seq<char>>::empty()),
    {
        let n: usize = self.len();
        proof {
            if n == 0 {
                assert(self@ =~= Map::<Seq<char>, Val>::empty());
            } else {
                crate::text_table::lemma_named(self.entries());
                assert(self@.dom().contains(self.entries()[0].0));
            }
        }
        n == 0
    }

    /// The name of the `i`-th parameter.
    pub fn name_at(&self, i: usize) -> (k: &str)
        requires
            i < self.entries().len(),
        ensures
            k@ == self.entries()[i as int].0,
    {
        self.values.name_at(i)
    }

    /// The value of the `i`-th parameter.
    pub fn value_at(&self, i: usize) -> (v: &Value)
        requires
            i < self.entries().len(),
        ensures
            val(*v) == self.entries()[i as int].1,
    {
        self.values.value_at(i)
    }

    /// Parameters with the same contents.
    pub fn copy(&self) -> (r: Self)
        requires
            self.well_formed(),
        ensures
            r.well_formed(),
            r@ == self@,
    {
        let n: usize = self.len();
        let mut r = QueryParams::new();
        let mut i: usize = 0;
        assert(named(self.entries().take(0)) =~= Map::<Seq<char>, Val>::empty());
        while i < n
            invariant
                0 <= i <= n,
                n == self.entries().len(),
                r.well_formed(),
                r@ == named(self.entries().take(i as int)),
            decreases n - i,
        {
            assert(self.entries().take(i + 1).drop_last() =~= self.entries().take(i as int));
            assert(self.entries().take(i + 1).last() == self.entries()[i as int]);
            r.insert(self.name_at(i).to_owned(), copy_value(self.value_at(i)));
            i = i + 1;
        }
        assert(self.entries().take(n as int) =~= self.entries());
        r
    }
}

fn copy_floats(fs: &Vec<FloatValue>) -> (r: Vec<FloatValue>)
    ensures
        floats(r@) == floats(fs@),
{
    let mut r: Vec<FloatValue> = Vec::new();
    let mut i: usize = 0;
    assert(floats(r@) =~= floats(fs@).take(0));
    while i < fs.len()
        invariant
            0 <= i <= fs@.len(),
            floats(r@) == floats(fs@).take(i as int),
        decreases fs@.len() - i,
    {
        let ghost before = r@;
        r.push(
            FloatValue {
                text: fs[i].text.as_str().to_owned(),
                bits: fs[i].bits,
                finite: fs[i].finite,
            },
        );
        assert(floats(r@) =~= floats(before).push(fs@[i as int]@));
        assert(floats(fs@).take(i + 1) =~= floats(fs@).take(i as int).push(fs@[i as int]@));
        i = i + 1;
    }
    assert(floats(fs@).take(fs@.len() as int) =~= floats(fs@));
    r
}

/// A value with the same contents.
pub fn copy_value(value: &Value) -> (r: Value)
    ensures
        val(r) == val(*value),
    decreases *value,
{
    match value {
        Value::Null => Value::Null,
        Value::Bool(b) => Value::Bool(*b),
        Value::Int(n) => Value::Int(*n),
        Value::Float(f) => Value::Float(
            FloatValue { text: f.text.as_str().to_owned(), bits: f.bits, finite: f.finite },
        ),
        Value::Text(t) => Value::Text(t.as_str().to_owned()),
        Value::Vector(fs) => Value::Vector(copy_floats(fs)),
        Value::Object(m) => Value::Object(copy_properties(m)),
    }
}

/// Named values with the same contents.
pub fn copy_properties(properties: &Vec<(String, Value)>) -> (r: Vec<(String, Value)>)
    ensures
        vals(r@) == vals(properties@),
    decreases *properties,
{
    let mut r: Vec<(String, Value)> = Vec::new();
    let mut i: usize = 0;
    assert(properties@.take(0) =~= Seq::<(String, Value)>::empty());
    while i < properties.len()
        invariant
            0 <= i <= properties@.len(),
            vals(r@) == vals(properties@.take(i as int)),
        decreases properties@.len() - i,
    {
        let ghost before = properties@.take(i as int);
        let ghost e = properties@[i as int];
        assert(properties@.take(i + 1) =~= before.push(e));
        proof {
            lemma_vals_push(before, e);
            assert(decreases_to!(*properties => properties@));
            assert(decreases_to!(properties@ => properties@[i as int]));
            assert(decreases_to!(properties@[i as int] => properties@[i as int].1));
        }
        let value = copy_value(&properties[i].1);
        let name = properties[i].0.as_str().to_owned();
        proof {
            lemma_vals_push(r@, (name, value));
        }
        r.push((name, value));
        i = i + 1;
    }
    assert(properties@.take(properties@.len() as int) =~= properties@);
    r
}

} // verus!
