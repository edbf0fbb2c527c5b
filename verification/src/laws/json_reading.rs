//! What a text says when it is read as JSON, and how texts are put together that say something.

use vstd::prelude::*;

use crate::json::{
    escaped_char, hex_digit, is_control, json_escaped, json_text, lemma_escaped_front, quoted_all,
    string_array,
};
use crate::text::{dec, dec_int, digit_char, join};

verus! {

/// What a JSON text says.
pub enum Json {
    Null,
    Bool(bool),
    Number(int),
    /// A number that is not whole, by its text.
    Fraction(Seq<char>),
    Text(Seq<char>),
    List(Seq<Json>),
    Fields(Seq<(Seq<char>, Json)>),
}

/// The value of a hexadecimal digit.
pub open spec fn hex_value(c: char) -> Option<int> {
    if '0' <= c && c <= '9' {
        Some((c as int) - ('0' as int))
    } else if 'a' <= c && c <= 'f' {
        Some((c as int) - ('a' as int) + 10)
    } else if 'A' <= c && c <= 'F' {
        Some((c as int) - ('A' as int) + 10)
    } else {
        None
    }
}

/// What a letter behind a backslash stands for.
pub open spec fn letter_value(c: char) -> Option<char> {
    if c == '"' || c == '\\' || c == '/' {
        Some(c)
    } else if c == 'n' {
        Some('\n')
    } else if c == 'r' {
        Some('\r')
    } else if c == 't' {
        Some('\t')
    } else if c == 'b' {
        Some('\u{8}')
    } else if c == 'f' {
        Some('\u{c}')
    } else {
        None
    }
}

/// What the inside of a JSON string stands for.
pub open spec fn meant(s: Seq<char>) -> Option<Seq<char>>
    decreases s.len(),
{
    if s.len() == 0 {
        Some(Seq::empty())
    } else if s[0] == '"' || (s[0] as int) < 32 {
        None
    } else if s[0] != '\\' {
        match meant(s.skip(1)) {
            Some(t) => Some(seq![s[0]] + t),
            None => None,
        }
    } else if s.len() >= 2 && letter_value(s[1]) is Some {
        match meant(s.skip(2)) {
            Some(t) => Some(seq![letter_value(s[1]).unwrap()] + t),
            None => None,
        }
    } else if s.len() >= 6 && s[1] == 'u' && s[2] == '0' && s[3] == '0' && hex_value(s[4]) is Some
        && hex_value(s[5]) is Some {
        match meant(s.skip(6)) {
            Some(t) => Some(
                seq![(hex_value(s[4]).unwrap() * 16 + hex_value(s[5]).unwrap()) as char] + t,
            ),
            None => None,
        }
    } else {
        None
    }
}

/// The value of decimal digits.
pub open spec fn digits_say(s: Seq<char>) -> int
    decreases s.len(),
{
    if s.len() == 0 {
        0
    } else {
        10 * digits_say(s.drop_last()) + ((s.last() as int) - ('0' as int))
    }
}

/// Whether a text is a whole number in decimal digits.
pub open spec fn says_number(t: Seq<char>, n: int) -> bool {
    if n < 0 {
        t.len() > 1 && t[0] == '-' && says_digits(t.skip(1), -n)
    } else {
        says_digits(t, n)
    }
}

/// Whether a text is made of decimal digits with a value.
pub open spec fn says_digits(t: Seq<char>, n: int) -> bool {
    t.len() > 0 && (forall|i: int| 0 <= i < t.len() ==> '0' <= #[trigger] t[i] && t[i] <= '9')
        && digits_say(t) == n
}

/// Texts with commas between them.
pub open spec fn with_commas(parts: Seq<Seq<char>>) -> Seq<char>
    decreases parts.len(),
{
    if parts.len() == 0 {
        Seq::empty()
    } else if parts.len() == 1 {
        parts[0]
    } else {
        with_commas(parts.drop_last()) + seq![','] + parts.last()
    }
}

/// A field: its name, as it stands in the text, and its value.
pub open spec fn field(name: Seq<char>, value: Seq<char>) -> Seq<char> {
    seq!['"'] + name + seq!['"', ':'] + value
}

/// Some fields.
pub open spec fn fields(names: Seq<Seq<char>>, values: Seq<Seq<char>>) -> Seq<Seq<char>> {
    Seq::new(names.len(), |i: int| field(names[i], values[i]))
}

/// An object, by its fields.
pub open spec fn braced(names: Seq<Seq<char>>, values: Seq<Seq<char>>) -> Seq<char> {
    seq!['{'] + with_commas(fields(names, values)) + seq!['}']
}

/// A list, by its items.
pub open spec fn bracketed(parts: Seq<Seq<char>>) -> Seq<char> {
    seq!['['] + with_commas(parts) + seq![']']
}

/// Whether a text is JSON that says something.
#[verifier::opaque]
pub open spec fn reads(t: Seq<char>, j: Json) -> bool
    decreases j,
{
    match j {
        Json::Null => t == seq!['n', 'u', 'l', 'l'],
        Json::Bool(b) => if b {
            t == seq!['t', 'r', 'u', 'e']
        } else {
            t == seq!['f', 'a', 'l', 's', 'e']
        },
        Json::Number(n) => says_number(t, n),
        Json::Fraction(x) => t == x,
        Json::Text(s) => t.len() >= 2 && t[0] == '"' && t.last() == '"' && meant(
            t.subrange(1, t.len() - 1),
        ) == Some(s),
        Json::List(items) => exists|parts: Seq<Seq<char>>|
            t == #[trigger] bracketed(parts) && items_read(parts, items),
        Json::Fields(fs) => exists|names: Seq<Seq<char>>, values: Seq<Seq<char>>|
            t == #[trigger] braced(names, values) && fields_read(names, values, fs),
    }
}

/// Whether texts are JSON, each of which says something.
pub open spec fn items_read(parts: Seq<Seq<char>>, items: Seq<Json>) -> bool
    decreases items,
{
    parts.len() == items.len() && forall|i: int|
        0 <= i < items.len() ==> reads(parts[i], #[trigger] items[i])
}

/// Whether names and values are those of some fields.
pub open spec fn fields_read(
    names: Seq<Seq<char>>,
    values: Seq<Seq<char>>,
    fs: Seq<(Seq<char>, Json)>,
) -> bool
    decreases fs,
{
    names.len() == fs.len() && values.len() == fs.len() && forall|i: int|
        0 <= i < fs.len() ==> meant(names[i]) == Some((#[trigger] fs[i]).0) && reads(
            values[i],
            fs[i].1,
        )
}

/// What stands under a name; where there are several of that name, the last.
pub open spec fn at_name(j: Json, name: Seq<char>) -> Option<Json> {
    match j {
        Json::Fields(fs) => last_named(fs, name),
        _ => None,
    }
}

/// The last of some fields that has a name.
pub open spec fn last_named(fs: Seq<(Seq<char>, Json)>, name: Seq<char>) -> Option<Json>
    decreases fs.len(),
{
    if fs.len() == 0 {
        None
    } else if fs.last().0 == name {
        Some(fs.last().1)
    } else {
        last_named(fs.drop_last(), name)
    }
}

proof fn lemma_hex(d: int)
    requires
        0 <= d < 16,
    ensures
        hex_value(hex_digit(d)) == Some(d),
{
    if d < 10 {
        assert(hex_digit(d) as int == 48 + d);
    } else {
        assert(hex_digit(d) as int == 87 + d);
    }
}

proof fn lemma_control(c: char)
    requires
        is_control(c),
    ensures
        hex_value(hex_digit(c as int / 16)) == Some(c as int / 16),
        hex_value(hex_digit(c as int % 16)) == Some(c as int % 16),
        (c as int / 16 * 16 + c as int % 16) as char == c,
{
    lemma_hex(c as int / 16);
    lemma_hex(c as int % 16);
}

/// A text that is escaped for a JSON string is meant as it was.
pub proof fn escaped_texts_are_meant_as_they_were(s: Seq<char>)
    ensures
        meant(json_escaped(s)) == Some(s),
    decreases s.len(),
{
    if s.len() == 0 {
        assert(json_escaped(s) =~= Seq::<char>::empty());
        assert(s =~= Seq::<char>::empty());
    } else {
        let c = s[0];
        let rest = s.skip(1);
        assert(s =~= seq![c] + rest);
        lemma_escaped_front(c, rest);
        escaped_texts_are_meant_as_they_were(rest);
        let e = escaped_char(c);
        let t = json_escaped(s);
        assert(t == e + json_escaped(rest));
        assert(t.skip(e.len() as int) =~= json_escaped(rest));
        assert forall|k: int| 0 <= k < e.len() implies t[k] == e[k] by {}
        if e.len() == 6 {
            let n = c as int;
            assert(is_control(c));
            lemma_control(c);
            assert(t[1] == 'u');
            assert(letter_value('u') is None);
        } else if e.len() == 2 {
            assert(t[1] == e[1]);
        }
    }
}

/// A text in quotes, escaped, says the text.
pub proof fn quoted_texts_say_the_text(s: Seq<char>)
    ensures
        reads(json_text(s), Json::Text(s)),
        reads(seq!['"'] + json_escaped(s) + seq!['"'], Json::Text(s)),
{
    reveal(reads);
    reveal_strlit("\"");
    escaped_texts_are_meant_as_they_were(s);
    let t = seq!['"'] + json_escaped(s) + seq!['"'];
    assert(json_text(s) =~= t);
    assert(t.subrange(1, t.len() - 1) =~= json_escaped(s));
}

/// A number in decimal says the number.
pub proof fn decimals_say_the_number(n: nat)
    ensures
        says_digits(dec(n), n as int),
        reads(dec(n), Json::Number(n as int)),
    decreases n,
{
    reveal(reads);
    if n >= 10 {
        decimals_say_the_number(n / 10);
        let t = dec(n);
        assert(t.drop_last() =~= dec(n / 10));
        assert(t.last() == digit_char(n % 10));
        assert forall|i: int| 0 <= i < t.len() implies '0' <= #[trigger] t[i] && t[i] <= '9' by {
            if i < t.len() - 1 {
                assert(t[i] == dec(n / 10)[i]);
            }
        }
    } else {
        let t = dec(n);
        assert(t.drop_last() =~= Seq::<char>::empty());
        assert(digits_say(t.drop_last()) == 0);
        assert(t.last() == digit_char(n));
    }
}

/// A number with a sign, in decimal, says the number.
pub proof fn signed_decimals_say_the_number(n: int)
    ensures
        reads(dec_int(n), Json::Number(n)),
{
    reveal(reads);
    if n < 0 {
        decimals_say_the_number((-n) as nat);
        assert(dec_int(n).skip(1) =~= dec((-n) as nat));
    } else {
        decimals_say_the_number(n as nat);
    }
}

/// Texts that are joined by commas have commas between them.
pub proof fn lemma_joined(parts: Seq<Seq<char>>)
    ensures
        join(parts, ","@) == with_commas(parts),
    decreases parts.len(),
{
    reveal_strlit(",");
    if parts.len() > 1 {
        lemma_joined(parts.drop_last());
        assert(","@ =~= seq![',']);
    }
}

/// A list is read item by item.
pub proof fn lists_are_read_item_by_item(parts: Seq<Seq<char>>, items: Seq<Json>)
    requires
        parts.len() == items.len(),
        forall|i: int| 0 <= i < items.len() ==> reads(parts[i], #[trigger] items[i]),
    ensures
        reads("["@ + join(parts, ","@) + "]"@, Json::List(items)),
        reads(seq!['['] + join(parts, ","@) + seq![']'], Json::List(items)),
{
    reveal(reads);
    reveal_strlit("[");
    reveal_strlit("]");
    lemma_joined(parts);
    assert("["@ =~= seq!['['] && "]"@ =~= seq![']']);
    assert("["@ + join(parts, ","@) + "]"@ =~= bracketed(parts));
    assert(items_read(parts, items));
}

/// A list of texts says the texts, in order.
pub proof fn text_lists_say_the_texts(values: Seq<Seq<char>>)
    ensures
        reads(string_array(values), Json::List(values.map_values(|v: Seq<char>| Json::Text(v)))),
{
    let items = values.map_values(|v: Seq<char>| Json::Text(v));
    let parts = quoted_all(values);
    assert forall|i: int| 0 <= i < items.len() implies reads(parts[i], #[trigger] items[i]) by {
        quoted_texts_say_the_text(values[i]);
        assert(parts[i] == json_text(values[i]));
    }
    lists_are_read_item_by_item(parts, items);
}

/// A list of numbers says the numbers, in order.
pub proof fn number_lists_say_the_numbers(values: Seq<u64>)
    ensures
        reads(
            "["@ + crate::json::number_list(values) + "]"@,
            Json::List(values.map_values(|v: u64| Json::Number(v as int))),
        ),
{
    let items = values.map_values(|v: u64| Json::Number(v as int));
    let parts = crate::json::dec_all(values);
    assert forall|i: int| 0 <= i < items.len() implies reads(parts[i], #[trigger] items[i]) by {
        decimals_say_the_number(values[i] as nat);
        assert(parts[i] == dec(values[i] as nat));
    }
    lists_are_read_item_by_item(parts, items);
}

/// A truth value says what it is.
pub proof fn truth_values_say_what_they_are(b: bool)
    ensures
        reads(crate::json::bool_text(b), Json::Bool(b)),
{
    reveal(reads);
    reveal_strlit("true");
    reveal_strlit("false");
    assert("true"@ =~= seq!['t', 'r', 'u', 'e']);
    assert("false"@ =~= seq!['f', 'a', 'l', 's', 'e']);
}

/// What is missing says that it is.
pub proof fn null_says_nothing()
    ensures
        reads("null"@, Json::Null),
{
    reveal(reads);
    reveal_strlit("null");
    assert("null"@ =~= seq!['n', 'u', 'l', 'l']);
}

/// A number that may be missing, as JSON.
pub open spec fn number_or_nothing(n: Option<u64>) -> Json {
    match n {
        Some(k) => Json::Number(k as int),
        None => Json::Null,
    }
}

/// A number that may be missing says the number, or that it is missing.
pub proof fn missing_numbers_say_so(n: Option<u64>)
    ensures
        reads(crate::json::number_or_null(n), number_or_nothing(n)),
{
    null_says_nothing();
    if let Some(k) = n {
        decimals_say_the_number(k as nat);
    }
}

/// Whether a text can stand in a JSON string as it is.
#[verifier::opaque]
pub open spec fn is_plain(s: Seq<char>) -> bool {
    forall|i: int|
        0 <= i < s.len() ==> #[trigger] s[i] != '"' && s[i] != '\\' && !is_control(s[i])
}

pub proof fn lemma_plain(s: Seq<char>)
    requires
        is_plain(s),
    ensures
        json_escaped(s) == s,
        meant(s) == Some(s),
    decreases s.len(),
{
    reveal(is_plain);
    if s.len() > 0 {
        let front = s.drop_last();
        assert forall|i: int| 0 <= i < front.len() implies #[trigger] front[i] != '"' && front[i]
            != '\\' && !is_control(front[i]) by {
            assert(front[i] == s[i]);
        }
        lemma_plain(front);
        assert(!is_control(s[s.len() - 1]));
        assert(json_escaped(s) =~= front + seq![s.last()]);
        assert(front + seq![s.last()] =~= s);
    } else {
        assert(json_escaped(s) =~= s);
    }
    escaped_texts_are_meant_as_they_were(s);
}

/// Whether a text is an object that is not closed, with some fields.
#[verifier::opaque]
pub open spec fn begun_with(t: Seq<char>, fs: Seq<(Seq<char>, Json)>) -> bool {
    exists|names: Seq<Seq<char>>, values: Seq<Seq<char>>|
        t == seq!['{'] + with_commas(fields(names, values)) && #[trigger] fields_read(
            names,
            values,
            fs,
        )
}

/// The name of a field, as it stands before its value.
#[verifier::opaque]
pub open spec fn key_of(first: bool, name: Seq<char>) -> Seq<char> {
    (if first {
        Seq::empty()
    } else {
        seq![',']
    }) + seq!['"'] + name + seq!['"', ':']
}

/// An object that has just begun.
pub proof fn lemma_begin(t: Seq<char>)
    requires
        t == seq!['{'],
    ensures
        begun_with(t, Seq::empty()),
{
    reveal(begun_with);
    let e = Seq::<Seq<char>>::empty();
    assert(fields(e, e).len() == 0);
    assert(seq!['{'] + with_commas(fields(e, e)) =~= seq!['{']);
    assert(fields_read(e, e, Seq::empty()));
}

/// An object with one more field.
pub proof fn lemma_field(
    t: Seq<char>,
    fs: Seq<(Seq<char>, Json)>,
    key: Seq<char>,
    name: Seq<char>,
    value: Seq<char>,
    j: Json,
)
    requires
        begun_with(t, fs),
        is_plain(name),
        key == key_of(fs.len() == 0, name),
        reads(value, j),
    ensures
        begun_with(t + key + value, fs.push((name, j))),
{
    reveal(begun_with);
    reveal(key_of);
    reveal(reads);
    let (names, values) = choose|names: Seq<Seq<char>>, values: Seq<Seq<char>>|
        t == seq!['{'] + with_commas(fields(names, values)) && #[trigger] fields_read(
            names,
            values,
            fs,
        );
    let ns = names.push(name);
    let vs = values.push(value);
    let all = fs.push((name, j));
    lemma_plain(name);
    assert(fields(ns, vs) =~= fields(names, values).push(field(name, value)));
    assert(fields(ns, vs).drop_last() =~= fields(names, values));
    assert(t + key + value =~= seq!['{'] + with_commas(fields(ns, vs)));
    assert forall|i: int| 0 <= i < all.len() implies meant(ns[i]) == Some((#[trigger] all[i]).0)
        && reads(vs[i], all[i].1) by {
        if i < fs.len() {
            assert(all[i] == fs[i]);
            assert(reads(values[i], fs[i].1));
            assert(vs[i] == values[i] && all[i] == fs[i] && ns[i] == names[i]);
        }
    }
    assert(fields_read(ns, vs, all));
}

/// An object that is closed.
pub proof fn lemma_close(t: Seq<char>, fs: Seq<(Seq<char>, Json)>)
    requires
        begun_with(t, fs),
    ensures
        reads(t + seq!['}'], Json::Fields(fs)),
{
    reveal(begun_with);
    reveal(reads);
    let (names, values) = choose|names: Seq<Seq<char>>, values: Seq<Seq<char>>|
        t == seq!['{'] + with_commas(fields(names, values)) && #[trigger] fields_read(
            names,
            values,
            fs,
        );
    assert(t + seq!['}'] =~= braced(names, values));
}

/// A text that is put together piece by piece: what was open is closed, some fields and the name
/// of a field follow, and its value.
pub proof fn lemma_grow(
    o: Seq<char>,
    t: Seq<char>,
    tm: Seq<char>,
    lit: Seq<char>,
    closing: Seq<char>,
    mid: Seq<char>,
    key: Seq<char>,
    opening: Seq<char>,
    e: Seq<char>,
    close: Seq<char>,
    v: Seq<char>,
)
    requires
        o + closing == t,
        tm == t + mid,
        lit == closing + mid + key + opening,
        v == opening + e + close,
    ensures
        o + lit + e + close == tm + key + v,
{
    assert(o + lit + e + close =~= (o + closing) + mid + key + (opening + e + close));
}

/// The first piece of a text.
pub proof fn lemma_first(
    lit: Seq<char>,
    tm: Seq<char>,
    mid: Seq<char>,
    key: Seq<char>,
    opening: Seq<char>,
    e: Seq<char>,
    close: Seq<char>,
    v: Seq<char>,
)
    requires
        tm == seq!['{'] + mid,
        lit == seq!['{'] + mid + key + opening,
        v == opening + e + close,
    ensures
        lit + e + close == tm + key + v,
{
    assert(lit + e + close =~= seq!['{'] + mid + key + (opening + e + close));
}

/// The last piece of a text.
pub proof fn lemma_end(
    o: Seq<char>,
    t: Seq<char>,
    tm: Seq<char>,
    lit: Seq<char>,
    closing: Seq<char>,
    mid: Seq<char>,
)
    requires
        o + closing == t,
        tm == t + mid,
        lit == closing + mid + seq!['}'],
    ensures
        o + lit == tm + seq!['}'],
{
    assert(o + lit =~= (o + closing) + mid + seq!['}']);
}

/// A text that is one piece.
pub proof fn lemma_whole(lit: Seq<char>, tm: Seq<char>, mid: Seq<char>)
    requires
        tm == seq!['{'] + mid,
        lit == seq!['{'] + mid + seq!['}'],
    ensures
        lit == tm + seq!['}'],
{
}

/// What constants say.
pub proof fn lemma_constants()
    ensures
        reads(seq!['n', 'u', 'l', 'l'], Json::Null),
        reads(seq!['t', 'r', 'u', 'e'], Json::Bool(true)),
        reads(seq!['f', 'a', 'l', 's', 'e'], Json::Bool(false)),
{
    reveal(reads);
}

/// A list without items is empty.
pub proof fn lemma_empty_list()
    ensures
        reads(seq!['[', ']'], Json::List(Seq::empty())),
{
    reveal(reads);
    let none = Seq::<Seq<char>>::empty();
    assert(seq!['[', ']'] =~= bracketed(none));
    assert(items_read(none, Seq::empty()));
}

} // verus!
