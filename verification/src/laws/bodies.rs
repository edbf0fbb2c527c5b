//! What is read out of the body of a request.

use vstd::prelude::*;

use crate::json::{
    bool_field, bool_text, digits_in_front, field_value, json_readable, json_string_reads_back,
    json_text, optional_number_field, optional_string_field, required_string_field, unescaped_char,
};
use crate::laws::query_kinds::{has_at, has_in};
use crate::laws::texts::texts_are_split_at_the_first_place;
use crate::literal::{
    body_params, has_fraction, is_number_char, json_object, json_value, number_end, object_scan,
    params_of, Lit,
};
use crate::text::{
    all_digits, begins, dec, dec_int, dec_is_digits, is_digit, is_white, lemma_split_once_at_char,
    number, number_reads_dec, signed, split_once, trim_start,
};

verus! {

/// Whether the value of a field stands in a body: the first time that the name stands in it in
/// quotes, a colon and the value stand behind it.
pub open spec fn stands_as(
    body: Seq<char>,
    field: Seq<char>,
    front: Seq<char>,
    value: Seq<char>,
) -> bool {
    &&& body == front + ("\""@ + field + "\""@) + seq![':'] + value
    &&& forall|k: int| 0 <= k < front.len() ==> !#[trigger] has_at(body, "\""@ + field + "\""@, k)
}

/// The value of a field is what stands behind the first colon behind the first mention of its name.
pub proof fn fields_are_found_by_their_name(
    body: Seq<char>,
    field: Seq<char>,
    front: Seq<char>,
    value: Seq<char>,
)
    requires
        stands_as(body, field, front, value),
    ensures
        field_value(body, field) == Ok::<_, Seq<char>>(Some(value)),
{
    let key = "\""@ + field + "\""@;
    reveal_strlit(":");
    reveal_strlit("\"");
    assert(":"@ =~= seq![':']);
    texts_are_split_at_the_first_place(body, key);
    let n = front.len() as int;
    assert(has_at(body, key, n)) by {
        assert forall|k: int| 0 <= k < key.len() implies body[n + k] == #[trigger] key[k] by {}
    }
    match split_once(body, key) {
        Some((a, b)) => {
            assert(has_at(body, key, a.len() as int)) by {
                assert forall|k: int| 0 <= k < key.len() implies body[a.len() + k]
                    == #[trigger] key[k] by {}
            }
            assert(a.len() == n);
            assert(b =~= seq![':'] + value) by {
                let rest = seq![':'] + value;
                assert(body =~= front + key + rest);
                assert(b.len() == rest.len());
                assert forall|k: int| 0 <= k < b.len() implies b[k] == rest[k] by {
                    assert(body[n + key.len() + k] == b[k]);
                    assert((front + key + rest)[n + key.len() + k] == rest[k]);
                }
            }
            let none = Seq::<char>::empty();
            lemma_split_once_at_char(none, value, ':');
            assert(none + seq![':'] + value =~= seq![':'] + value);
        },
        None => {},
    }
}

/// A field whose name does not stand in the body is missing.
pub proof fn unnamed_fields_are_missing(body: Seq<char>, field: Seq<char>)
    requires
        !has_in(body, "\""@ + field + "\""@),
    ensures
        optional_string_field(body, field) == Ok::<Option<Seq<char>>, Seq<char>>(None),
        required_string_field(body, field) is Err,
        bool_field(body, field) == Ok::<bool, Seq<char>>(false),
        optional_number_field(body, field) == Ok::<Option<nat>, Seq<char>>(None),
{
    let key = "\""@ + field + "\""@;
    texts_are_split_at_the_first_place(body, key);
    if let Some((a, b)) = split_once(body, key) {
        assert forall|k: int| 0 <= k < key.len() implies body[a.len() + k] == #[trigger] key[k] by {}
        assert(has_at(body, key, a.len() as int));
    }
}

proof fn lemma_no_blank(s: Seq<char>)
    requires
        s.len() > 0,
        !is_white(s[0]),
    ensures
        trim_start(s) == s,
{
}

/// A text in a body is read as it was written.
pub proof fn texts_in_bodies_are_read_as_written(
    body: Seq<char>,
    field: Seq<char>,
    front: Seq<char>,
    text: Seq<char>,
    rest: Seq<char>,
)
    requires
        json_readable(text),
        stands_as(body, field, front, json_text(text) + rest),
    ensures
        optional_string_field(body, field) == Ok::<_, Seq<char>>(Some(text)),
        required_string_field(body, field) == Ok::<_, Seq<char>>(text),
{
    fields_are_found_by_their_name(body, field, front, json_text(text) + rest);
    json_string_reads_back(text, rest);
    reveal_strlit("\"");
    let s = json_text(text) + rest;
    assert(s[0] == '"');
    lemma_no_blank(s);
}

/// A truth value in a body is read as it was written.
pub proof fn truth_values_in_bodies_are_read_as_written(
    body: Seq<char>,
    field: Seq<char>,
    front: Seq<char>,
    b: bool,
    rest: Seq<char>,
)
    requires
        stands_as(body, field, front, bool_text(b) + rest),
    ensures
        bool_field(body, field) == Ok::<_, Seq<char>>(b),
{
    fields_are_found_by_their_name(body, field, front, bool_text(b) + rest);
    reveal_strlit("true");
    reveal_strlit("false");
    let s = bool_text(b) + rest;
    assert(s[0] == 't' || s[0] == 'f');
    lemma_no_blank(s);
    if b {
        assert(s.take(4) =~= "true"@);
    } else {
        assert(s.take(5) =~= "false"@);
        if begins(s, "true"@) {
            assert(s.take(4)[0] == "true"@[0]);
        }
    }
}

proof fn lemma_digits_end(d: Seq<char>, rest: Seq<char>, i: int)
    requires
        0 <= i <= d.len(),
        all_digits(d),
        rest.len() == 0 || !is_digit(rest[0]),
    ensures
        digits_in_front(d + rest, i) == d.len(),
    decreases d.len() - i,
{
    let s = d + rest;
    if i < d.len() {
        assert(s[i] == d[i]);
        assert(is_digit(d[i]));
        lemma_digits_end(d, rest, i + 1);
    } else if rest.len() > 0 {
        assert(s[i] == rest[0]);
    }
}

/// A number in a body is read as it was written.
pub proof fn numbers_in_bodies_are_read_as_written(
    body: Seq<char>,
    field: Seq<char>,
    front: Seq<char>,
    n: u64,
    rest: Seq<char>,
)
    requires
        rest.len() == 0 || !is_digit(rest[0]),
        stands_as(body, field, front, dec(n as nat) + rest),
    ensures
        optional_number_field(body, field) == Ok::<_, Seq<char>>(Some(n as nat)),
{
    fields_are_found_by_their_name(body, field, front, dec(n as nat) + rest);
    let d = dec(n as nat);
    dec_is_digits(n as nat);
    number_reads_dec(n as nat, u64::MAX as nat);
    assert(is_digit(d[0]));
    assert((d + rest)[0] == d[0]);
    lemma_no_blank(d + rest);
    lemma_digits_end(d, rest, 0);
    assert((d + rest).take(d.len() as int) =~= d);
}

/// A value as it is written; numbers with a fraction and lists of numbers are left out.
pub open spec fn written(v: Lit) -> Seq<char> {
    match v {
        Lit::Null => "null"@,
        Lit::Bool(b) => bool_text(b),
        Lit::Int(n) => dec_int(n),
        Lit::Text(t) => json_text(t),
        _ => Seq::empty(),
    }
}

/// Whether a value can be written so that it is read again.
pub open spec fn is_writable(v: Lit) -> bool {
    match v {
        Lit::Null => true,
        Lit::Bool(_) => true,
        Lit::Int(n) => i64::MIN <= n <= i64::MAX,
        Lit::Text(t) => json_readable(t),
        _ => false,
    }
}

/// Whether a text ends a value.
pub open spec fn ends_value(rest: Seq<char>) -> bool {
    rest.len() > 0 && (rest[0] == ',' || rest[0] == '}')
}

proof fn lemma_number_end(d: Seq<char>, rest: Seq<char>, i: int)
    requires
        0 <= i <= d.len(),
        forall|k: int| 0 <= k < d.len() ==> is_number_char(#[trigger] d[k]),
        ends_value(rest),
    ensures
        number_end(d + rest, i) == d.len(),
    decreases d.len() - i,
{
    let s = d + rest;
    if i < d.len() {
        assert(s[i] == d[i]);
        assert(is_number_char(d[i]));
        lemma_number_end(d, rest, i + 1);
    } else {
        assert(s[i] == rest[0]);
    }
}

proof fn lemma_whole(n: int)
    requires
        i64::MIN <= n <= i64::MAX,
    ensures
        signed(dec_int(n)) == Some(n),
        dec_int(n).len() > 0,
        !has_fraction(dec_int(n)),
        forall|k: int|
            0 <= k < dec_int(n).len() ==> is_number_char(#[trigger] dec_int(n)[k])
                && !is_white(dec_int(n)[k]) && dec_int(n)[k] != '"' && dec_int(n)[k] != 't'
                && dec_int(n)[k] != 'f' && dec_int(n)[k] != 'n' && dec_int(n)[k] != '[',
{
    let d = if n < 0 {
        dec((-n) as nat)
    } else {
        dec(n as nat)
    };
    dec_is_digits(if n < 0 {
        (-n) as nat
    } else {
        n as nat
    });
    let t = dec_int(n);
    if n < 0 {
        assert(t.skip(1) =~= d);
    } else {
        number_reads_dec(n as nat, i64::MAX as nat);
        assert(is_digit(d[0]));
    }
    assert forall|k: int| 0 <= k < t.len() implies is_number_char(#[trigger] t[k]) && !is_white(
        t[k],
    ) && t[k] != '"' && t[k] != 't' && t[k] != 'f' && t[k] != 'n' && t[k] != '[' && t[k] != '.'
        && t[k] != 'e' && t[k] != 'E' by {
        if n < 0 {
            if k > 0 {
                assert(t[k] == d[k - 1]);
                assert(is_digit(d[k - 1]));
            }
        } else {
            assert(is_digit(d[k]));
        }
    }
}

/// A value of a parameter is read as it was written, and what stands behind it is left.
pub proof fn values_are_read_as_written(v: Lit, rest: Seq<char>)
    requires
        is_writable(v),
        ends_value(rest),
    ensures
        json_value(written(v) + rest) == Ok::<_, Seq<char>>((v, rest)),
{
    reveal_strlit("true");
    reveal_strlit("false");
    reveal_strlit("null");
    reveal_strlit("\"");
    let s = written(v) + rest;
    match v {
        Lit::Null => {
            assert(s[0] == 'n');
            lemma_no_blank(s);
            assert(s.take(4) =~= "null"@);
            assert(s.skip(4) =~= rest);
            if begins(s, "true"@) {
                assert(s.take(4)[0] == "true"@[0]);
            }
            if begins(s, "false"@) {
                assert(s.take(5)[0] == "false"@[0]);
            }
        },
        Lit::Bool(b) => {
            assert(s[0] == 't' || s[0] == 'f');
            lemma_no_blank(s);
            if b {
                assert(s.take(4) =~= "true"@);
                assert(s.skip(4) =~= rest);
            } else {
                assert(s.take(5) =~= "false"@);
                assert(s.skip(5) =~= rest);
                if begins(s, "true"@) {
                    assert(s.take(4)[0] == "true"@[0]);
                }
            }
        },
        Lit::Int(n) => {
            lemma_whole(n);
            let d = dec_int(n);
            assert(s[0] == d[0]);
            assert(is_number_char(d[0]));
            lemma_no_blank(s);
            if begins(s, "true"@) {
                assert(s.take(4)[0] == "true"@[0]);
            }
            if begins(s, "false"@) {
                assert(s.take(5)[0] == "false"@[0]);
            }
            if begins(s, "null"@) {
                assert(s.take(4)[0] == "null"@[0]);
            }
            lemma_number_end(d, rest, 0);
            assert(s.take(d.len() as int) =~= d);
            assert(s.skip(d.len() as int) =~= rest);
        },
        Lit::Text(t) => {
            json_string_reads_back(t, rest);
            assert(s[0] == '"');
            lemma_no_blank(s);
        },
        _ => {},
    }
}

/// Parameters as they are written: each by its name, with commas between them.
pub open spec fn written_fields(fields: Seq<(Seq<char>, Lit)>) -> Seq<char>
    decreases fields.len(),
{
    if fields.len() == 0 {
        Seq::empty()
    } else {
        json_text(fields[0].0) + seq![':'] + written(fields[0].1) + (if fields.len() == 1 {
            Seq::empty()
        } else {
            seq![','] + written_fields(fields.skip(1))
        })
    }
}

/// Whether parameters can be written so that they are read again.
pub open spec fn are_writable(fields: Seq<(Seq<char>, Lit)>) -> bool {
    forall|i: int|
        0 <= i < fields.len() ==> json_readable((#[trigger] fields[i]).0) && is_writable(
            fields[i].1,
        )
}

proof fn lemma_fields(
    known: Seq<(Seq<char>, Lit)>,
    fields: Seq<(Seq<char>, Lit)>,
    rest: Seq<char>,
)
    requires
        are_writable(fields),
    ensures
        object_scan(written_fields(fields) + seq!['}'] + rest, known) == Ok::<_, Seq<char>>(
            known + fields,
        ),
    decreases fields.len(),
{
    let end = seq!['}'] + rest;
    let input = written_fields(fields) + seq!['}'] + rest;
    assert(input =~= written_fields(fields) + end);
    reveal_strlit("\"");
    if fields.len() == 0 {
        assert(input =~= end);
        assert(input[0] == '}');
        lemma_no_blank(input);
        assert(known + fields =~= known);
    } else {
        let (name, v) = fields[0];
        let more = fields.skip(1);
        let next = if fields.len() == 1 {
            end
        } else {
            seq![','] + written_fields(more) + end
        };
        let after = seq![':'] + (written(v) + next);
        assert(input =~= json_text(name) + after);
        assert(input[0] == '"');
        lemma_no_blank(input);
        json_string_reads_back(name, after);
        assert(after[0] == ':');
        lemma_no_blank(after);
        assert(after.skip(1) =~= written(v) + next);
        assert(ends_value(next));
        values_are_read_as_written(v, next);
        assert(next[0] == ',' || next[0] == '}');
        lemma_no_blank(next);
        if fields.len() == 1 {
            assert(known.push((name, v)) =~= known + fields);
        } else {
            assert forall|i: int| 0 <= i < more.len() implies json_readable((#[trigger] more[i]).0)
                && is_writable(more[i].1) by {
                assert(more[i] == fields[i + 1]);
            }
            lemma_fields(known.push((name, v)), more, rest);
            assert(next.skip(1) =~= written_fields(more) + seq!['}'] + rest);
            assert(known.push((name, v)) + more =~= known + fields);
        }
    }
}

/// Parameters are read as they were written: each under its name, in order.
pub proof fn parameters_are_read_as_written(fields: Seq<(Seq<char>, Lit)>, rest: Seq<char>)
    requires
        are_writable(fields),
    ensures
        json_object(seq!['{'] + written_fields(fields) + seq!['}'] + rest) == Ok::<_, Seq<char>>(
            fields,
        ),
{
    let s = seq!['{'] + written_fields(fields) + seq!['}'] + rest;
    assert(s[0] == '{');
    lemma_no_blank(s);
    assert(s.skip(1) =~= written_fields(fields) + seq!['}'] + rest);
    let none = Seq::<(Seq<char>, Lit)>::empty();
    lemma_fields(none, fields, rest);
    assert(none + fields =~= fields);
}

/// Of parameters with one name the last counts, and every name that is written counts.
pub proof fn last_parameter_of_a_name_counts(
    fields: Seq<(Seq<char>, Lit)>,
    i: int,
    name: Seq<char>,
)
    ensures
        0 <= i < fields.len() && fields[i].0 == name && (forall|k: int|
            i < k < fields.len() ==> (#[trigger] fields[k]).0 != name) ==> params_of(
            fields,
        ).dom().contains(name) && params_of(fields)[name] == fields[i].1,
        (forall|k: int| 0 <= k < fields.len() ==> (#[trigger] fields[k]).0 != name) ==> !params_of(
            fields,
        ).dom().contains(name),
    decreases fields.len(),
{
    if fields.len() > 0 {
        let front = fields.drop_last();
        last_parameter_of_a_name_counts(front, i, name);
        assert(fields[fields.len() - 1] == fields.last());
        assert forall|k: int| 0 <= k < front.len() implies #[trigger] front[k] == fields[k] by {}
    }
}

/// The parameters of a body are those of its field for them; without that field, or where it is
/// null, there are none.
pub proof fn parameters_of_bodies_are_read_as_written(
    body: Seq<char>,
    front: Seq<char>,
    fields: Seq<(Seq<char>, Lit)>,
    rest: Seq<char>,
)
    requires
        are_writable(fields),
        stands_as(
            body,
            "params"@,
            front,
            seq!['{'] + written_fields(fields) + seq!['}'] + rest,
        ),
    ensures
        body_params(body) == Ok::<_, Seq<char>>(params_of(fields)),
{
    let s = seq!['{'] + written_fields(fields) + seq!['}'] + rest;
    fields_are_found_by_their_name(body, "params"@, front, s);
    parameters_are_read_as_written(fields, rest);
    assert(s[0] == '{');
    lemma_no_blank(s);
    reveal_strlit("null");
    if begins(s, "null"@) {
        assert(s.take(4)[0] == "null"@[0]);
    }
}

/// A character behind a backslash stands for what JSON says.
pub proof fn escapes_stand_for_their_characters(c: char)
    ensures
        unescaped_char('n') == Some('\n') && unescaped_char('r') == Some('\r') && unescaped_char('t')
            == Some('\t'),
        unescaped_char('b') == Some('\u{8}') && unescaped_char('f') == Some('\u{c}'),
        c == '"' || c == '\\' || c == '/' ==> unescaped_char(c) == Some(c),
        unescaped_char(c) is Some ==> c == '"' || c == '\\' || c == '/' || c == 'b' || c == 'f'
            || c == 'n' || c == 'r' || c == 't',
{
}

} // verus!
