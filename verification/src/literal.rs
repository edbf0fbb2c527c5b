//! The values that a request gives in JSON.

use vstd::prelude::*;

use crate::json::{
    field_value, find_json_field_value, json_string, parse_json_string, string_scan,
};
use crate::text::{
    all_digits, begins, chars_of, dec_int, is_digit, lemma_views_push, lower, lowered, read_signed,
    show_signed, signed, split_first, split_once, starts_with, string_of, trim_start,
    trimmed_start, views,
};
use crate::text_table::{in_order, named, TextTable};

verus! {

/// A value as it is written. A floating point number is held as its text.
pub enum Literal {
    Null,
    Bool(bool),
    Int(i64),
    Float(String),
    Text(String),
    Vector(Vec<String>),
}

/// The contents of a written value.
pub enum Lit {
    Null,
    Bool(bool),
    Int(int),
    Float(Seq<char>),
    Text(Seq<char>),
    Vector(Seq<Seq<char>>),
}

/// The contents of a written value.
pub open spec fn lit(v: Literal) -> Lit {
    match v {
        Literal::Null => Lit::Null,
        Literal::Bool(b) => Lit::Bool(b),
        Literal::Int(n) => Lit::Int(n as int),
        Literal::Float(t) => Lit::Float(t@),
        Literal::Text(t) => Lit::Text(t@),
        Literal::Vector(ts) => Lit::Vector(views(ts@)),
    }
}

/// The contents of a list of named values.
pub open spec fn lits(s: Seq<(String, Literal)>) -> Seq<(Seq<char>, Lit)>
    decreases s.len(),
{
    if s.len() == 0 {
        Seq::<(Seq<char>, Lit)>::empty()
    } else {
        lits(s.drop_last()).push((s.last().0@, lit(s.last().1)))
    }
}

proof fn lemma_lits_push(s: Seq<(String, Literal)>, e: (String, Literal))
    ensures
        lits(s.push(e)) == lits(s).push((e.0@, lit(e.1))),
{
    assert(s.push(e).drop_last() =~= s);
}

/// Whether a character can stand in a number.
pub open spec fn is_number_char(c: char) -> bool {
    c == '-' || c == '+' || c == '.' || is_digit(c) || c == 'e' || c == 'E'
}

/// Where the number that a text begins with ends.
pub open spec fn number_end(s: Seq<char>, i: int) -> int
    decreases s.len() - i,
{
    if i < 0 || i >= s.len() || !is_number_char(s[i]) {
        i
    } else {
        number_end(s, i + 1)
    }
}

/// What follows an optional sign.
pub open spec fn unsigned(s: Seq<char>) -> Seq<char> {
    if s.len() > 0 && (s[0] == '+' || s[0] == '-') {
        s.skip(1)
    } else {
        s
    }
}

/// Whether a text is digits with at most one point among them, and not the point alone.
pub open spec fn is_mantissa(s: Seq<char>) -> bool {
    match split_once(s, "."@) {
        None => s.len() > 0 && all_digits(s),
        Some((a, b)) => a.len() + b.len() > 0 && all_digits(a) && all_digits(b),
    }
}

/// Whether a text is the decimal form of a floating point number: a mantissa, with or
/// without an exponent.
pub open spec fn is_float(s: Seq<char>) -> bool {
    let body = lower(unsigned(s));
    match split_once(body, "e"@) {
        None => is_mantissa(body),
        Some((m, x)) => is_mantissa(m) && unsigned(x).len() > 0 && all_digits(unsigned(x)),
    }
}

fn digits_only(s: &str) -> (r: bool)
    ensures
        r == all_digits(s@),
{
    let v = chars_of(s);
    let mut i: usize = 0;
    while i < v.len()
        invariant
            0 <= i <= v@.len(),
            v@ == s@,
            forall|j: int| 0 <= j < i ==> is_digit(#[trigger] s@[j]),
        decreases v@.len() - i,
    {
        if !('0' <= v[i] && v[i] <= '9') {
            assert(!is_digit(s@[i as int]));
            return false;
        }
        i = i + 1;
    }
    true
}

fn drop_sign(s: &str) -> (r: String)
    ensures
        r@ == unsigned(s@),
{
    let v = chars_of(s);
    let from: usize = if v.len() > 0 && (v[0] == '+' || v[0] == '-') { 1 } else { 0 };
    let r = string_of(v.as_slice(), from, v.len());
    assert(r@ =~= unsigned(s@));
    r
}

fn mantissa(s: &str) -> (r: bool)
    ensures
        r == is_mantissa(s@),
{
    match split_first(s, ".") {
        None => !s.is_empty() && digits_only(s),
        Some((a, b)) => (!a.as_str().is_empty() || !b.as_str().is_empty()) && digits_only(
            a.as_str(),
        ) && digits_only(b.as_str()),
    }
}

/// Tells whether a text is the decimal form of a floating point number.
pub fn float_text(s: &str) -> (r: bool)
    ensures
        r == is_float(s@),
{
    let body = lowered(drop_sign(s).as_str());
    match split_first(body.as_str(), "e") {
        None => mantissa(body.as_str()),
        Some((m, x)) => {
            let exponent = drop_sign(x.as_str());
            mantissa(m.as_str()) && !exponent.as_str().is_empty() && digits_only(exponent.as_str())
        },
    }
}

/// Whether the text of a number has a point or an exponent.
pub open spec fn has_fraction(s: Seq<char>) -> bool {
    s.contains('.') || s.contains('e') || s.contains('E')
}

/// The number that a text begins with, and what follows it.
pub open spec fn json_number(input: Seq<char>) -> Result<(Lit, Seq<char>), Seq<char>> {
    let s = trim_start(input);
    let end = number_end(s, 0);
    let text = s.take(end);
    if end == 0 {
        Err("expected JSON scalar value"@)
    } else if has_fraction(text) {
        if is_float(text) {
            Ok((Lit::Float(text), s.skip(end)))
        } else {
            Err("invalid JSON float"@)
        }
    } else {
        match signed(text) {
            Some(n) => Ok((Lit::Int(n), s.skip(end))),
            None => Err("invalid JSON integer"@),
        }
    }
}

proof fn lemma_number_end(s: Seq<char>, i: int)
    requires
        0 <= i <= s.len(),
    ensures
        i <= number_end(s, i) <= s.len(),
    decreases s.len() - i,
{
    if i < s.len() && is_number_char(s[i]) {
        lemma_number_end(s, i + 1);
    }
}

pub proof fn lemma_trim_start_shortens(s: Seq<char>)
    ensures
        trim_start(s).len() <= s.len(),
    decreases s.len(),
{
    if s.len() > 0 {
        lemma_trim_start_shortens(s.skip(1));
    }
}

pub proof fn lemma_number_shortens(s: Seq<char>)
    ensures
        match json_number(s) {
            Ok((_, rest)) => rest.len() < s.len(),
            Err(_) => true,
        },
{
    lemma_trim_start_shortens(s);
    lemma_number_end(trim_start(s), 0);
}

proof fn lemma_scan_advances(s: Seq<char>, i: int, escaped: bool, out: Seq<char>)
    requires
        0 <= i <= s.len(),
    ensures
        match string_scan(s, i, escaped, out) {
            Ok((_, k)) => i < k <= s.len(),
            Err(_) => true,
        },
    decreases s.len() - i,
{
    if i < s.len() {
        if escaped {
            match crate::json::unescaped_char(s[i]) {
                Some(c) => lemma_scan_advances(s, i + 1, false, out.push(c)),
                None => {},
            }
        } else if s[i] == '\\' {
            lemma_scan_advances(s, i + 1, true, out);
        } else if s[i] != '"' {
            lemma_scan_advances(s, i + 1, false, out.push(s[i]));
        }
    }
}

pub proof fn lemma_string_shortens(s: Seq<char>)
    ensures
        match json_string(s) {
            Ok((_, rest)) => rest.len() < s.len(),
            Err(_) => true,
        },
{
    if s.len() > 0 {
        lemma_scan_advances(s, 1, false, Seq::<char>::empty());
    }
}

/// Reads the number that a text begins with.
pub fn parse_json_number(input: &str) -> (r: Result<(Literal, String), String>)
    ensures
        match r {
            Ok((v, rest)) => json_number(input@) == Ok::<(Lit, Seq<char>), Seq<char>>(
                (lit(v), rest@),
            ),
            Err(e) => json_number(input@) == Err::<(Lit, Seq<char>), Seq<char>>(e@),
        },
{
    let s = trimmed_start(input);
    let v = chars_of(s.as_str());
    let mut end: usize = 0;
    while end < v.len() && (v[end] == '-' || v[end] == '+' || v[end] == '.' || ('0' <= v[end]
        && v[end] <= '9') || v[end] == 'e' || v[end] == 'E')
        invariant
            0 <= end <= v@.len(),
            v@ == s@,
            number_end(s@, 0) == number_end(s@, end as int),
        decreases v@.len() - end,
    {
        end = end + 1;
    }
    if end == 0 {
        return Err("expected JSON scalar value".to_owned());
    }
    let text = string_of(v.as_slice(), 0, end);
    let rest = string_of(v.as_slice(), end, v.len());
    assert(text@ =~= s@.take(end as int));
    assert(rest@ =~= s@.skip(end as int));
    if crate::text::contains_char(text.as_str(), '.') || crate::text::contains_char(
        text.as_str(),
        'e',
    ) || crate::text::contains_char(text.as_str(), 'E') {
        if float_text(text.as_str()) {
            Ok((Literal::Float(text), rest))
        } else {
            Err("invalid JSON float".to_owned())
        }
    } else {
        match read_signed(text.as_str()) {
            Some(n) => Ok((Literal::Int(n), rest)),
            None => Err("invalid JSON integer".to_owned()),
        }
    }
}

/// The text of a number.
pub open spec fn number_text(v: Lit) -> Seq<char> {
    match v {
        Lit::Int(n) => dec_int(n),
        Lit::Float(t) => t,
        _ => Seq::<char>::empty(),
    }
}

/// The numbers of an array from here on, and what follows the array.
pub open spec fn array_scan(input: Seq<char>, values: Seq<Seq<char>>) -> Result<
    (Seq<Seq<char>>, Seq<char>),
    Seq<char>,
>
    decreases input.len(),
{
    proof {
        lemma_trim_start_shortens(input);
        lemma_number_shortens(trim_start(input));
        match json_number(trim_start(input)) {
            Ok((_, after)) => lemma_trim_start_shortens(after),
            Err(_) => {},
        }
    }
    let rest = trim_start(input);
    if rest.len() > 0 && rest[0] == ']' {
        Ok((values, rest.skip(1)))
    } else {
        match json_number(rest) {
            Err(e) => Err(e),
            Ok((v, after)) => {
                let next = trim_start(after);
                if next.len() > 0 && next[0] == ',' {
                    array_scan(next.skip(1), values.push(number_text(v)))
                } else if next.len() > 0 && next[0] == ']' {
                    Ok((values.push(number_text(v)), next.skip(1)))
                } else {
                    Err("expected ',' or ']' in JSON vector"@)
                }
            },
        }
    }
}

/// The array of numbers that a text begins with, and what follows it.
pub open spec fn json_array(input: Seq<char>) -> Result<(Seq<Seq<char>>, Seq<char>), Seq<char>> {
    let rest = trim_start(input);
    if rest.len() == 0 || rest[0] != '[' {
        Err("expected JSON array"@)
    } else {
        array_scan(rest.skip(1), Seq::<Seq<char>>::empty())
    }
}

fn begins_with_char(s: &str, c: char) -> (r: bool)
    ensures
        r == (s@.len() > 0 && s@[0] == c),
{
    let v = chars_of(s);
    v.len() > 0 && v[0] == c
}

fn after_first(s: &str) -> (r: String)
    requires
        s@.len() > 0,
    ensures
        r@ == s@.skip(1),
{
    let v = chars_of(s);
    let r = string_of(v.as_slice(), 1, v.len());
    assert(r@ =~= s@.skip(1));
    r
}

fn show_number(v: &Literal) -> (r: String)
    ensures
        r@ == number_text(lit(*v)),
{
    match v {
        Literal::Int(n) => show_signed(*n),
        Literal::Float(t) => t.as_str().to_owned(),
        _ => {
            let r = String::new();
            assert(r@ =~= Seq::<char>::empty());
            r
        },
    }
}

/// Reads the array of numbers that a text begins with.
pub fn parse_json_number_array(input: &str) -> (r: Result<(Vec<String>, String), String>)
    ensures
        match r {
            Ok((values, rest)) => json_array(input@) == Ok::<
                (Seq<Seq<char>>, Seq<char>),
                Seq<char>,
            >((views(values@), rest@)),
            Err(e) => json_array(input@) == Err::<(Seq<Seq<char>>, Seq<char>), Seq<char>>(e@),
        },
{
    let first = trimmed_start(input);
    if !begins_with_char(first.as_str(), '[') {
        return Err("expected JSON array".to_owned());
    }
    let mut rest = after_first(first.as_str());
    let mut values: Vec<String> = Vec::new();
    let ghost start = first@.skip(1);
    assert(views(values@) =~= Seq::<Seq<char>>::empty());
    loop
        invariant
            array_scan(start, Seq::<Seq<char>>::empty()) == array_scan(rest@, views(values@)),
            json_array(input@) == array_scan(start, Seq::<Seq<char>>::empty()),
        decreases rest@.len(),
    {
        let here = trimmed_start(rest.as_str());
        proof {
            lemma_trim_start_shortens(rest@);
        }
        if begins_with_char(here.as_str(), ']') {
            return Ok((values, after_first(here.as_str())));
        }
        match parse_json_number(here.as_str()) {
            Err(e) => return Err(e),
            Ok((v, after)) => {
                proof {
                    lemma_number_shortens(here@);
                    lemma_trim_start_shortens(after@);
                }
                let text = show_number(&v);
                let next = trimmed_start(after.as_str());
                proof {
                    lemma_views_push(values@, text);
                }
                values.push(text);
                if begins_with_char(next.as_str(), ',') {
                    rest = after_first(next.as_str());
                } else if begins_with_char(next.as_str(), ']') {
                    return Ok((values, after_first(next.as_str())));
                } else {
                    return Err("expected ',' or ']' in JSON vector".to_owned());
                }
            },
        }
    }
}

/// The value that a text begins with, and what follows it.
pub open spec fn json_value(input: Seq<char>) -> Result<(Lit, Seq<char>), Seq<char>> {
    let s = trim_start(input);
    if s.len() > 0 && s[0] == '"' {
        match json_string(s) {
            Ok((t, rest)) => Ok((Lit::Text(t), rest)),
            Err(e) => Err(e),
        }
    } else if begins(s, "true"@) {
        Ok((Lit::Bool(true), s.skip(4)))
    } else if begins(s, "false"@) {
        Ok((Lit::Bool(false), s.skip(5)))
    } else if begins(s, "null"@) {
        Ok((Lit::Null, s.skip(4)))
    } else if s.len() > 0 && s[0] == '[' {
        match json_array(s) {
            Ok((ts, rest)) => Ok((Lit::Vector(ts), rest)),
            Err(e) => Err(e),
        }
    } else {
        json_number(s)
    }
}

proof fn lemma_array_scan_shortens(s: Seq<char>, values: Seq<Seq<char>>)
    ensures
        match array_scan(s, values) {
            Ok((_, rest)) => rest.len() < s.len(),
            Err(_) => true,
        },
    decreases s.len(),
{
    lemma_trim_start_shortens(s);
    let rest = trim_start(s);
    if !(rest.len() > 0 && rest[0] == ']') {
        lemma_number_shortens(rest);
        match json_number(rest) {
            Ok((v, after)) => {
                lemma_trim_start_shortens(after);
                let next = trim_start(after);
                if next.len() > 0 && next[0] == ',' {
                    lemma_array_scan_shortens(next.skip(1), values.push(number_text(v)));
                }
            },
            Err(_) => {},
        }
    }
}

pub proof fn lemma_value_shortens(input: Seq<char>)
    ensures
        match json_value(input) {
            Ok((_, rest)) => rest.len() < input.len(),
            Err(_) => true,
        },
{
    reveal_strlit("true");
    reveal_strlit("false");
    reveal_strlit("null");
    let s = trim_start(input);
    lemma_trim_start_shortens(input);
    lemma_trim_start_shortens(s);
    lemma_string_shortens(s);
    lemma_number_shortens(s);
    if trim_start(s).len() > 0 {
        lemma_array_scan_shortens(trim_start(s).skip(1), Seq::<Seq<char>>::empty());
    }
}

/// Reads the value that a text begins with.
pub fn parse_json_value(input: &str) -> (r: Result<(Literal, String), String>)
    ensures
        match r {
            Ok((v, rest)) => json_value(input@) == Ok::<(Lit, Seq<char>), Seq<char>>(
                (lit(v), rest@),
            ),
            Err(e) => json_value(input@) == Err::<(Lit, Seq<char>), Seq<char>>(e@),
        },
{
    proof {
        reveal_strlit("true");
        reveal_strlit("false");
        reveal_strlit("null");
        assert("true"@.len() == 4);
        assert("false"@.len() == 5);
        assert("null"@.len() == 4);
    }
    let s = trimmed_start(input);
    if begins_with_char(s.as_str(), '"') {
        return match parse_json_string(s.as_str()) {
            Ok((t, rest)) => Ok((Literal::Text(t), rest)),
            Err(e) => Err(e),
        };
    }
    if let Some(rest) = crate::text::strip_prefix(s.as_str(), "true") {
        return Ok((Literal::Bool(true), rest));
    }
    if let Some(rest) = crate::text::strip_prefix(s.as_str(), "false") {
        return Ok((Literal::Bool(false), rest));
    }
    if let Some(rest) = crate::text::strip_prefix(s.as_str(), "null") {
        return Ok((Literal::Null, rest));
    }
    if begins_with_char(s.as_str(), '[') {
        return match parse_json_number_array(s.as_str()) {
            Ok((ts, rest)) => Ok((Literal::Vector(ts), rest)),
            Err(e) => Err(e),
        };
    }
    parse_json_number(s.as_str())
}

/// The fields of an object from here on.
pub open spec fn object_scan(input: Seq<char>, fields: Seq<(Seq<char>, Lit)>) -> Result<
    Seq<(Seq<char>, Lit)>,
    Seq<char>,
>
    decreases input.len(),
{
    proof {
        lemma_trim_start_shortens(input);
        lemma_string_shortens(trim_start(input));
        match json_string(trim_start(input)) {
            Ok((_, after)) => {
                lemma_trim_start_shortens(after);
                lemma_value_shortens(trim_start(after).skip(1));
                match json_value(trim_start(after).skip(1)) {
                    Ok((_, last)) => lemma_trim_start_shortens(last),
                    Err(_) => {},
                }
            },
            Err(_) => {},
        }
    }
    let rest = trim_start(input);
    if rest.len() > 0 && rest[0] == '}' {
        Ok(fields)
    } else {
        match json_string(rest) {
            Err(e) => Err(e),
            Ok((name, after_name)) => {
                let colon = trim_start(after_name);
                if colon.len() == 0 || colon[0] != ':' {
                    Err("expected ':' after params key"@)
                } else {
                    match json_value(colon.skip(1)) {
                        Err(e) => Err(e),
                        Ok((v, after_value)) => {
                            let next = trim_start(after_value);
                            if next.len() > 0 && next[0] == ',' {
                                object_scan(next.skip(1), fields.push((name, v)))
                            } else if next.len() > 0 && next[0] == '}' {
                                Ok(fields.push((name, v)))
                            } else {
                                Err("expected ',' or '}' in params object"@)
                            }
                        },
                    }
                }
            },
        }
    }
}

/// The fields of the object that a text begins with.
pub open spec fn json_object(input: Seq<char>) -> Result<Seq<(Seq<char>, Lit)>, Seq<char>> {
    let rest = trim_start(input);
    if rest.len() == 0 || rest[0] != '{' {
        Err("params must be a JSON object"@)
    } else {
        object_scan(rest.skip(1), Seq::<(Seq<char>, Lit)>::empty())
    }
}

/// Reads the fields of the object that a text begins with.
pub fn parse_json_object(input: &str) -> (r: Result<Vec<(String, Literal)>, String>)
    ensures
        match r {
            Ok(fields) => json_object(input@) == Ok::<Seq<(Seq<char>, Lit)>, Seq<char>>(
                lits(fields@),
            ),
            Err(e) => json_object(input@) == Err::<Seq<(Seq<char>, Lit)>, Seq<char>>(e@),
        },
{
    let first = trimmed_start(input);
    if !begins_with_char(first.as_str(), '{') {
        return Err("params must be a JSON object".to_owned());
    }
    let mut rest = after_first(first.as_str());
    let mut fields: Vec<(String, Literal)> = Vec::new();
    let ghost start = first@.skip(1);
    loop
        invariant
            object_scan(start, Seq::<(Seq<char>, Lit)>::empty()) == object_scan(
                rest@,
                lits(fields@),
            ),
            json_object(input@) == object_scan(start, Seq::<(Seq<char>, Lit)>::empty()),
        decreases rest@.len(),
    {
        let here = trimmed_start(rest.as_str());
        proof {
            lemma_trim_start_shortens(rest@);
            lemma_string_shortens(here@);
        }
        if begins_with_char(here.as_str(), '}') {
            return Ok(fields);
        }
        match parse_json_string(here.as_str()) {
            Err(e) => return Err(e),
            Ok((name, after_name)) => {
                let colon = trimmed_start(after_name.as_str());
                proof {
                    lemma_trim_start_shortens(after_name@);
                }
                if !begins_with_char(colon.as_str(), ':') {
                    return Err("expected ':' after params key".to_owned());
                }
                let after_colon = after_first(colon.as_str());
                proof {
                    lemma_value_shortens(after_colon@);
                }
                match parse_json_value(after_colon.as_str()) {
                    Err(e) => return Err(e),
                    Ok((v, after_value)) => {
                        let next = trimmed_start(after_value.as_str());
                        proof {
                            lemma_trim_start_shortens(after_value@);
                            lemma_lits_push(fields@, (name, v));
                        }
                        fields.push((name, v));
                        if begins_with_char(next.as_str(), ',') {
                            rest = after_first(next.as_str());
                        } else if begins_with_char(next.as_str(), '}') {
                            return Ok(fields);
                        } else {
                            return Err("expected ',' or '}' in params object".to_owned());
                        }
                    },
                }
            },
        }
    }
}

/// The parameters that named values give; a later value of a name takes the place of an
/// earlier one.
pub open spec fn params_of(fields: Seq<(Seq<char>, Lit)>) -> Map<Seq<char>, Lit>
    decreases fields.len(),
{
    if fields.len() == 0 {
        Map::empty()
    } else {
        params_of(fields.drop_last()).insert(fields.last().0, fields.last().1)
    }
}

/// The parameters of a query.
pub struct RequestParams {
    values: TextTable<Literal>,
}

/// The contents of the values of a table.
pub open spec fn seen_values(m: Map<Seq<char>, Literal>) -> Map<Seq<char>, Lit> {
    m.map_values(|v: Literal| lit(v))
}

impl RequestParams {
    pub closed spec fn view(&self) -> Map<Seq<char>, Lit> {
        seen_values(self.values@)
    }

    pub closed spec fn well_formed(&self) -> bool {
        self.values.well_formed()
    }

    /// No parameters.
    pub fn new() -> (r: Self)
        ensures
            r.well_formed(),
            r@ == Map::<Seq<char>, Lit>::empty(),
    {
        let r = RequestParams { values: TextTable::new() };
        assert(r@.dom() =~= Map::<Seq<char>, Lit>::empty().dom());
        assert(r@ =~= Map::<Seq<char>, Lit>::empty());
        r
    }

    /// Sets a parameter.
    pub fn insert(&mut self, name: String, value: Literal)
        requires
            old(self).well_formed(),
        ensures
            final(self).well_formed(),
            final(self)@ == old(self)@.insert(name@, lit(value)),
    {
        let ghost before = self.values@;
        self.values.insert(name, value);
        assert(seen_values(before.insert(name@, value)).dom() =~= seen_values(before).insert(
            name@,
            lit(value),
        ).dom());
        assert(seen_values(before.insert(name@, value)) =~= seen_values(before).insert(
            name@,
            lit(value),
        ));
    }

    /// The value of a parameter.
    pub fn get(&self, name: &str) -> (r: Option<&Literal>)
        requires
            self.well_formed(),
        ensures
            match r {
                Some(v) => self@.dom().contains(name@) && self@[name@] == lit(*v),
                None => !self@.dom().contains(name@),
            },
    {
        self.values.get(name)
    }

    /// The parameters in the order of their names.
    pub closed spec fn entries(&self) -> Seq<(Seq<char>, Literal)> {
        self.values.entries()
    }

    /// How many parameters there are.
    pub fn len(&self) -> (n: usize)
        requires
            self.well_formed(),
        ensures
            n == self.entries().len(),
            in_order(self.entries()),
            self@ == seen_values(named(self.entries())),
    {
        self.values.len()
    }

    /// The `i`-th parameter.
    pub fn at(&self, i: usize) -> (r: (&str, &Literal))
        requires
            i < self.entries().len(),
        ensures
            r.0@ == self.entries()[i as int].0,
            *r.1 == self.entries()[i as int].1,
    {
        (self.values.name_at(i), self.values.value_at(i))
    }
}

/// The parameters that the body of a request gives.
pub open spec fn body_params(input: Seq<char>) -> Result<Map<Seq<char>, Lit>, Seq<char>> {
    match field_value(input, "params"@) {
        Err(e) => Err(e),
        Ok(None) => Ok(Map::empty()),
        Ok(Some(rest)) => if begins(trim_start(rest), "null"@) {
            Ok(Map::empty())
        } else {
            match json_object(trim_start(rest)) {
                Ok(fields) => Ok(params_of(fields)),
                Err(e) => Err(e),
            }
        },
    }
}

/// Reads the parameters that the body of a request gives.
pub fn parse_json_params_field(input: &str) -> (r: Result<RequestParams, String>)
    ensures
        match r {
            Ok(params) => params.well_formed() && body_params(input@) == Ok::<
                Map<Seq<char>, Lit>,
                Seq<char>,
            >(params@),
            Err(e) => body_params(input@) == Err::<Map<Seq<char>, Lit>, Seq<char>>(e@),
        },
{
    let rest = match find_json_field_value(input, "params") {
        Err(e) => return Err(e),
        Ok(None) => return Ok(RequestParams::new()),
        Ok(Some(rest)) => rest,
    };
    let start = trimmed_start(rest.as_str());
    if starts_with(start.as_str(), "null") {
        return Ok(RequestParams::new());
    }
    let mut fields = match parse_json_object(start.as_str()) {
        Err(e) => return Err(e),
        Ok(fields) => fields,
    };
    let mut params = RequestParams::new();
    let ghost all = lits(fields@);
    proof {
        lemma_lits_len(fields@);
        assert(all.take(0) =~= Seq::<(Seq<char>, Lit)>::empty());
        assert(all.skip(0) =~= all);
    }
    let ghost mut done: int = 0;
    while fields.len() > 0
        invariant
            params.well_formed(),
            0 <= done <= all.len(),
            fields@.len() == all.len() - done,
            lits(fields@) == all.skip(done),
            params@ == params_of(all.take(done)),
        decreases fields@.len(),
    {
        let ghost before = fields@;
        let (name, value) = fields.remove(0);
        proof {
            lemma_lits_front(before);
            assert(fields@ =~= before.skip(1));
            assert(all.skip(done)[0] == all[done]);
            assert(all.skip(done).skip(1) =~= all.skip(done + 1));
            assert(all.take(done + 1).drop_last() =~= all.take(done));
            assert(all.take(done + 1).last() == all[done]);
            lemma_lits_len(fields@);
            done = done + 1;
        }
        params.insert(name, value);
    }
    assert(all.take(all.len() as int) =~= all);
    Ok(params)
}

proof fn lemma_lits_len(s: Seq<(String, Literal)>)
    ensures
        lits(s).len() == s.len(),
    decreases s.len(),
{
    if s.len() > 0 {
        lemma_lits_len(s.drop_last());
    }
}

proof fn lemma_lits_front(s: Seq<(String, Literal)>)
    requires
        s.len() > 0,
    ensures
        lits(s).len() == s.len(),
        lits(s)[0] == (s[0].0@, lit(s[0].1)),
        lits(s.skip(1)) == lits(s).skip(1),
    decreases s.len(),
{
    lemma_lits_len(s);
    if s.len() == 1 {
        assert(s.skip(1) =~= Seq::<(String, Literal)>::empty());
        assert(lits(s).skip(1) =~= Seq::<(Seq<char>, Lit)>::empty());
        assert(s.drop_last() =~= Seq::<(String, Literal)>::empty());
    } else {
        let front = s.drop_last();
        lemma_lits_front(front);
        lemma_lits_len(front);
        assert(front.skip(1) =~= s.skip(1).drop_last());
        assert(front[0] == s[0]);
        assert(lits(s.skip(1)) =~= lits(s).skip(1));
    }
}

} // verus!
