//! The pieces of JSON that requests and answers are made of.

use vstd::prelude::*;

use crate::text::{
    begins, cat, cat3, chars_of, dec, is_digit, join, join_with, lemma_views_push, number, read_u64,
    split_first, split_once, starts_with, string_of, trim_start, trimmed_start, views,
};

verus! {

/// The lower case hexadecimal digit of a number below 16.
pub open spec fn hex_digit(d: int) -> char {
    if d < 10 {
        (48 + d) as char
    } else {
        (87 + d) as char
    }
}

fn hex_digit_exec(d: u32) -> (c: char)
    requires
        d < 16,
    ensures
        c == hex_digit(d as int),
{
    if d < 10 {
        (48 + d as u8) as char
    } else {
        (87 + d as u8) as char
    }
}

/// Whether a character is a control character.
pub open spec fn is_control(c: char) -> bool {
    (c as int) < 32 || 127 <= (c as int) < 160
}

/// What a character becomes inside a JSON string.
pub open spec fn escaped_char(c: char) -> Seq<char> {
    if c == '"' {
        seq!['\\', '"']
    } else if c == '\\' {
        seq!['\\', '\\']
    } else if c == '\n' {
        seq!['\\', 'n']
    } else if c == '\r' {
        seq!['\\', 'r']
    } else if c == '\t' {
        seq!['\\', 't']
    } else if is_control(c) {
        seq!['\\', 'u', '0', '0', hex_digit(c as int / 16), hex_digit(c as int % 16)]
    } else {
        seq![c]
    }
}

/// A text as it stands inside a JSON string.
pub open spec fn json_escaped(s: Seq<char>) -> Seq<char>
    decreases s.len(),
{
    if s.len() == 0 {
        Seq::<char>::empty()
    } else {
        json_escaped(s.drop_last()) + escaped_char(s.last())
    }
}

fn push_escaped(output: &mut String, c: char)
    ensures
        final(output)@ == old(output)@ + escaped_char(c),
{
    let ghost before = output@;
    if c == '"' {
        output.push('\\');
        output.push('"');
    } else if c == '\\' {
        output.push('\\');
        output.push('\\');
    } else if c == '\n' {
        output.push('\\');
        output.push('n');
    } else if c == '\r' {
        output.push('\\');
        output.push('r');
    } else if c == '\t' {
        output.push('\\');
        output.push('t');
    } else {
        let n: u32 = c as u32;
        if n < 32 || (127 <= n && n < 160) {
            output.push('\\');
            output.push('u');
            output.push('0');
            output.push('0');
            output.push(hex_digit_exec(n / 16));
            output.push(hex_digit_exec(n % 16));
        } else {
            output.push(c);
        }
    }
    assert(output@ =~= before + escaped_char(c));
}

/// Escapes a text for a JSON string.
pub fn json_escape(input: &str) -> (r: String)
    ensures
        r@ == json_escaped(input@),
{
    let v = chars_of(input);
    let mut r = String::new();
    let mut i: usize = 0;
    assert(r@ =~= json_escaped(input@.take(0)));
    while i < v.len()
        invariant
            0 <= i <= v@.len(),
            v@ == input@,
            r@ == json_escaped(input@.take(i as int)),
        decreases v@.len() - i,
    {
        assert(input@.take(i + 1).drop_last() =~= input@.take(i as int));
        push_escaped(&mut r, v[i]);
        i = i + 1;
    }
    assert(input@.take(input@.len() as int) =~= input@);
    r
}

/// A JSON string.
pub open spec fn json_text(s: Seq<char>) -> Seq<char> {
    "\""@ + json_escaped(s) + "\""@
}

/// Writes a JSON string.
pub fn json_quote(s: &str) -> (r: String)
    ensures
        r@ == json_text(s@),
{
    cat3("\"", json_escape(s).as_str(), "\"")
}

/// The body of an answer that reports an error.
pub open spec fn error_body(message: Seq<char>) -> Seq<char> {
    "{\"error\":\""@ + json_escaped(message) + "\"}"@
}

/// Writes the body of an answer that reports an error.
pub fn json_error(message: &str) -> (r: String)
    ensures
        r@ == error_body(message@),
{
    cat3("{\"error\":\"", json_escape(message).as_str(), "\"}")
}

/// JSON strings, in order.
pub open spec fn quoted_all(values: Seq<Seq<char>>) -> Seq<Seq<char>> {
    values.map_values(|v: Seq<char>| json_text(v))
}

/// A JSON array of strings.
pub open spec fn string_array(values: Seq<Seq<char>>) -> Seq<char> {
    "["@ + join(quoted_all(values), ","@) + "]"@
}

/// Writes a JSON array of strings.
pub fn string_array_json(values: &[String]) -> (r: String)
    ensures
        r@ == string_array(views(values@)),
{
    let mut parts: Vec<String> = Vec::new();
    let mut i: usize = 0;
    let ghost all = quoted_all(views(values@));
    assert(views(parts@) =~= all.take(0));
    while i < values.len()
        invariant
            0 <= i <= values@.len(),
            all == quoted_all(views(values@)),
            views(parts@) == all.take(i as int),
        decreases values@.len() - i,
    {
        let part = json_quote(values[i].as_str());
        assert(all[i as int] == part@);
        proof {
            lemma_views_push(parts@, part);
        }
        parts.push(part);
        assert(all.take(i + 1) =~= all.take(i as int).push(part@));
        i = i + 1;
    }
    assert(all.take(all.len() as int) =~= all);
    cat3("[", join_with(parts.as_slice(), ",").as_str(), "]")
}

/// Numbers in decimal, in order.
pub open spec fn dec_all(values: Seq<u64>) -> Seq<Seq<char>> {
    values.map_values(|n: u64| dec(n as nat))
}

/// Numbers in decimal with commas between them.
pub open spec fn number_list(values: Seq<u64>) -> Seq<char> {
    join(dec_all(values), ","@)
}

/// Writes each of several numbers.
pub fn show_each(values: &[u64]) -> (parts: Vec<String>)
    ensures
        views(parts@) == dec_all(values@),
{
    let mut parts: Vec<String> = Vec::new();
    let mut i: usize = 0;
    let ghost all = dec_all(values@);
    assert(views(parts@) =~= all.take(0));
    while i < values.len()
        invariant
            0 <= i <= values@.len(),
            all == dec_all(values@),
            views(parts@) == all.take(i as int),
        decreases values@.len() - i,
    {
        let part = crate::text::show(values[i] as u128);
        assert(all[i as int] == part@);
        proof {
            lemma_views_push(parts@, part);
        }
        parts.push(part);
        assert(all.take(i + 1) =~= all.take(i as int).push(part@));
        i = i + 1;
    }
    assert(all.take(all.len() as int) =~= all);
    parts
}

/// Writes numbers with commas between them.
pub fn show_numbers(values: &[u64]) -> (r: String)
    ensures
        r@ == number_list(values@),
{
    join_with(show_each(values).as_slice(), ",")
}

/// `true` or `false`.
pub open spec fn bool_text(b: bool) -> Seq<char> {
    if b {
        "true"@
    } else {
        "false"@
    }
}

/// Writes `true` or `false`.
pub fn show_bool(b: bool) -> (r: &'static str)
    ensures
        r@ == bool_text(b),
{
    if b {
        "true"
    } else {
        "false"
    }
}

/// A number, or `null`.
pub open spec fn number_or_null(n: Option<u64>) -> Seq<char> {
    match n {
        Some(n) => dec(n as nat),
        None => "null"@,
    }
}

/// Writes a number, or `null`.
pub fn show_number_or_null(n: Option<u64>) -> (r: String)
    ensures
        r@ == number_or_null(n),
{
    match n {
        Some(n) => crate::text::show(n as u128),
        None => "null".to_owned(),
    }
}

/// What an escape sequence of one letter stands for.
pub open spec fn unescaped_char(c: char) -> Option<char> {
    if c == '"' || c == '\\' || c == '/' {
        Some(c)
    } else if c == 'b' {
        Some('\u{8}')
    } else if c == 'f' {
        Some('\u{c}')
    } else if c == 'n' {
        Some('\n')
    } else if c == 'r' {
        Some('\r')
    } else if c == 't' {
        Some('\t')
    } else {
        None
    }
}

fn unescape(c: char) -> (r: Option<char>)
    ensures
        r == unescaped_char(c),
{
    if c == '"' || c == '\\' || c == '/' {
        Some(c)
    } else if c == 'b' {
        Some('\u{8}')
    } else if c == 'f' {
        Some('\u{c}')
    } else if c == 'n' {
        Some('\n')
    } else if c == 'r' {
        Some('\r')
    } else if c == 't' {
        Some('\t')
    } else {
        None
    }
}

/// Reads a JSON string from the `i`-th character on: what it says and where it ends.
pub open spec fn string_scan(
    s: Seq<char>,
    i: int,
    escaped: bool,
    out: Seq<char>,
) -> Result<(Seq<char>, int), Seq<char>>
    decreases s.len() - i,
{
    if i < 0 || i >= s.len() {
        Err("unterminated JSON string"@)
    } else if escaped {
        match unescaped_char(s[i]) {
            Some(c) => string_scan(s, i + 1, false, out.push(c)),
            None => Err("unsupported JSON escape: \\"@ + seq![s[i]]),
        }
    } else if s[i] == '\\' {
        string_scan(s, i + 1, true, out)
    } else if s[i] == '"' {
        Ok((out, i + 1))
    } else {
        string_scan(s, i + 1, false, out.push(s[i]))
    }
}

/// The JSON string that a text begins with, and what follows it.
pub open spec fn json_string(s: Seq<char>) -> Result<(Seq<char>, Seq<char>), Seq<char>> {
    if s.len() == 0 || s[0] != '"' {
        Err("expected JSON string"@)
    } else {
        match string_scan(s, 1, false, Seq::<char>::empty()) {
            Ok((t, k)) => Ok((t, s.skip(k))),
            Err(e) => Err(e),
        }
    }
}

/// Reads the JSON string that a text begins with.
pub fn parse_json_string(input: &str) -> (r: Result<(String, String), String>)
    ensures
        match r {
            Ok((t, rest)) => json_string(input@) == Ok::<(Seq<char>, Seq<char>), Seq<char>>(
                (t@, rest@),
            ),
            Err(e) => json_string(input@) == Err::<(Seq<char>, Seq<char>), Seq<char>>(e@),
        },
{
    let v = chars_of(input);
    let n: usize = v.len();
    if n == 0 || v[0] != '"' {
        return Err("expected JSON string".to_owned());
    }
    let mut out = String::new();
    let mut escaped = false;
    let mut i: usize = 1;
    assert(out@ =~= Seq::<char>::empty());
    while i < n
        invariant
            1 <= i <= n,
            n == v@.len(),
            v@ == input@,
            input@.len() > 0,
            input@[0] == '"',
            string_scan(input@, 1, false, Seq::<char>::empty()) == string_scan(
                input@,
                i as int,
                escaped,
                out@,
            ),
        decreases n - i,
    {
        let c = v[i];
        if escaped {
            match unescape(c) {
                Some(x) => {
                    out.push(x);
                },
                None => {
                    let mut e = "unsupported JSON escape: \\".to_owned();
                    e.push(c);
                    assert(e@ =~= "unsupported JSON escape: \\"@ + seq![c]);
                    return Err(e);
                },
            }
            escaped = false;
        } else if c == '\\' {
            escaped = true;
        } else if c == '"' {
            let rest = string_of(v.as_slice(), i + 1, n);
            assert(rest@ =~= input@.skip(i + 1));
            return Ok((out, rest));
        } else {
            out.push(c);
        }
        i = i + 1;
    }
    Err("unterminated JSON string".to_owned())
}

/// Whether a text can be read back from a JSON string: the control characters that it
/// holds, if any, are line feeds, carriage returns and tabs.
pub open spec fn json_readable(s: Seq<char>) -> bool {
    forall|i: int|
        0 <= i < s.len() ==> !is_control(#[trigger] s[i]) || s[i] == '\n' || s[i] == '\r' || s[i]
            == '\t'
}

pub proof fn lemma_escaped_front(c: char, s: Seq<char>)
    ensures
        json_escaped(seq![c] + s) == escaped_char(c) + json_escaped(s),
    decreases s.len(),
{
    let t = seq![c] + s;
    if s.len() == 0 {
        assert(t =~= seq![c]);
        assert(t.drop_last() =~= Seq::<char>::empty());
        assert(json_escaped(t.drop_last()) =~= Seq::<char>::empty());
        assert(json_escaped(t) =~= escaped_char(c) + json_escaped(s));
    } else {
        lemma_escaped_front(c, s.drop_last());
        assert(t.drop_last() =~= seq![c] + s.drop_last());
        assert(t.last() == s.last());
        assert(json_escaped(t) =~= escaped_char(c) + json_escaped(s));
    }
}

proof fn lemma_scan_escaped(text: Seq<char>, i: int, s: Seq<char>, out: Seq<char>)
    requires
        json_readable(s),
        0 <= i,
        i + json_escaped(s).len() < text.len(),
        text.subrange(i, i + json_escaped(s).len()) == json_escaped(s),
        text[i + json_escaped(s).len()] == '"',
    ensures
        string_scan(text, i, false, out) == Ok::<(Seq<char>, int), Seq<char>>(
            (out + s, i + json_escaped(s).len() + 1),
        ),
    decreases s.len(),
{
    reveal_with_fuel(string_scan, 3);
    if s.len() == 0 {
        assert(json_escaped(s).len() == 0);
        assert(out + s =~= out);
    } else {
        let c = s[0];
        let rest = s.skip(1);
        assert(s =~= seq![c] + rest);
        lemma_escaped_front(c, rest);
        let whole = json_escaped(s);
        let first = escaped_char(c);
        let others = json_escaped(rest);
        assert(whole == first + others);
        let here = text.subrange(i, i + whole.len());
        assert forall|k: int| 0 <= k < first.len() implies text[i + k] == first[k] by {
            assert(here[k] == text[i + k]);
            assert(whole[k] == first[k]);
        }
        assert(text.subrange(i + first.len(), i + first.len() + others.len()) =~= others) by {
            assert forall|k: int| 0 <= k < others.len() implies text[i + first.len() + k]
                == others[k] by {
                assert(here[first.len() + k] == text[i + first.len() + k]);
                assert(whole[first.len() + k] == others[k]);
            }
        }
        assert forall|k: int| 0 <= k < rest.len() implies !is_control(#[trigger] rest[k])
            || rest[k] == '\n' || rest[k] == '\r' || rest[k] == '\t' by {
            assert(rest[k] == s[k + 1]);
        }
        lemma_scan_escaped(text, i + first.len(), rest, out.push(c));
        assert(out.push(c) + rest =~= out + s);
        assert(text[i] == first[0]);
        if first.len() == 2 {
            assert(text[i + 1] == first[1]);
        }
    }
}

/// A text that was written as a JSON string is read back as it was, and what follows it
/// is left.
pub proof fn json_string_reads_back(s: Seq<char>, rest: Seq<char>)
    requires
        json_readable(s),
    ensures
        json_string(json_text(s) + rest) == Ok::<(Seq<char>, Seq<char>), Seq<char>>((s, rest)),
{
    reveal_strlit("\"");
    let text = json_text(s) + rest;
    let n: int = json_escaped(s).len() as int;
    assert(text.subrange(1, 1 + n) =~= json_escaped(s));
    assert(text[1 + n] == '"');
    lemma_scan_escaped(text, 1, s, Seq::<char>::empty());
    assert(Seq::<char>::empty() + s =~= s);
    assert(text.skip(1 + n + 1) =~= rest);
}

/// What follows the name of a field and its colon.
pub open spec fn field_value(input: Seq<char>, field: Seq<char>) -> Result<
    Option<Seq<char>>,
    Seq<char>,
> {
    match split_once(input, "\""@ + field + "\""@) {
        None => Ok(None),
        Some((_, rest)) => match split_once(rest, ":"@) {
            None => Err("missing ':' after JSON field: "@ + field),
            Some((_, value)) => Ok(Some(value)),
        },
    }
}

/// Finds the value of a field.
pub fn find_json_field_value(input: &str, field: &str) -> (r: Result<Option<String>, String>)
    ensures
        match r {
            Ok(Some(v)) => field_value(input@, field@) == Ok::<Option<Seq<char>>, Seq<char>>(
                Some(v@),
            ),
            Ok(None) => field_value(input@, field@) == Ok::<Option<Seq<char>>, Seq<char>>(None),
            Err(e) => field_value(input@, field@) == Err::<Option<Seq<char>>, Seq<char>>(e@),
        },
{
    let needle = cat3("\"", field, "\"");
    match split_first(input, needle.as_str()) {
        None => Ok(None),
        Some((_, rest)) => match split_first(rest.as_str(), ":") {
            None => Err(cat("missing ':' after JSON field: ", field)),
            Some((_, value)) => Ok(Some(value)),
        },
    }
}

/// The text of an optional field.
pub open spec fn optional_string_field(input: Seq<char>, field: Seq<char>) -> Result<
    Option<Seq<char>>,
    Seq<char>,
> {
    match field_value(input, field) {
        Err(e) => Err(e),
        Ok(None) => Ok(None),
        Ok(Some(rest)) => match json_string(trim_start(rest)) {
            Ok((t, _)) => Ok(Some(t)),
            Err(e) => Err(e),
        },
    }
}

/// Reads the text of an optional field.
pub fn extract_optional_json_string_field(input: &str, field: &str) -> (r: Result<
    Option<String>,
    String,
>)
    ensures
        match r {
            Ok(Some(v)) => optional_string_field(input@, field@) == Ok::<
                Option<Seq<char>>,
                Seq<char>,
            >(Some(v@)),
            Ok(None) => optional_string_field(input@, field@) == Ok::<Option<Seq<char>>, Seq<char>>(
                None,
            ),
            Err(e) => optional_string_field(input@, field@) == Err::<Option<Seq<char>>, Seq<char>>(
                e@,
            ),
        },
{
    match find_json_field_value(input, field) {
        Err(e) => Err(e),
        Ok(None) => Ok(None),
        Ok(Some(rest)) => match parse_json_string(trimmed_start(rest.as_str()).as_str()) {
            Ok((t, _)) => Ok(Some(t)),
            Err(e) => Err(e),
        },
    }
}

/// The text of a field that has to be there.
pub open spec fn required_string_field(input: Seq<char>, field: Seq<char>) -> Result<
    Seq<char>,
    Seq<char>,
> {
    match optional_string_field(input, field) {
        Err(e) => Err(e),
        Ok(None) => Err("missing JSON string field: "@ + field),
        Ok(Some(t)) => Ok(t),
    }
}

/// Reads the text of a field that has to be there.
pub fn extract_json_string_field(input: &str, field: &str) -> (r: Result<String, String>)
    ensures
        match r {
            Ok(v) => required_string_field(input@, field@) == Ok::<Seq<char>, Seq<char>>(v@),
            Err(e) => required_string_field(input@, field@) == Err::<Seq<char>, Seq<char>>(e@),
        },
{
    match extract_optional_json_string_field(input, field) {
        Err(e) => Err(e),
        Ok(None) => Err(cat("missing JSON string field: ", field)),
        Ok(Some(t)) => Ok(t),
    }
}

/// The truth value of a field; one that is not there is false.
pub open spec fn bool_field(input: Seq<char>, field: Seq<char>) -> Result<bool, Seq<char>> {
    match field_value(input, field) {
        Err(e) => Err(e),
        Ok(None) => Ok(false),
        Ok(Some(rest)) => if begins(trim_start(rest), "true"@) {
            Ok(true)
        } else if begins(trim_start(rest), "false"@) {
            Ok(false)
        } else {
            Err("JSON bool field "@ + field + " must be true or false"@)
        },
    }
}

/// Reads the truth value of a field.
pub fn extract_optional_json_bool_field(input: &str, field: &str) -> (r: Result<bool, String>)
    ensures
        match r {
            Ok(b) => bool_field(input@, field@) == Ok::<bool, Seq<char>>(b),
            Err(e) => bool_field(input@, field@) == Err::<bool, Seq<char>>(e@),
        },
{
    match find_json_field_value(input, field) {
        Err(e) => Err(e),
        Ok(None) => Ok(false),
        Ok(Some(rest)) => {
            let value = trimmed_start(rest.as_str());
            if starts_with(value.as_str(), "true") {
                Ok(true)
            } else if starts_with(value.as_str(), "false") {
                Ok(false)
            } else {
                Err(cat3("JSON bool field ", field, " must be true or false"))
            }
        },
    }
}

/// The digits that a text begins with.
pub open spec fn digits_in_front(s: Seq<char>, i: int) -> int
    decreases s.len() - i,
{
    if i < 0 || i >= s.len() || !is_digit(s[i]) {
        i
    } else {
        digits_in_front(s, i + 1)
    }
}

/// The number of an optional field.
pub open spec fn optional_number_field(input: Seq<char>, field: Seq<char>) -> Result<
    Option<nat>,
    Seq<char>,
> {
    match field_value(input, field) {
        Err(e) => Err(e),
        Ok(None) => Ok(None),
        Ok(Some(rest)) => {
            let value = trim_start(rest);
            match number(value.take(digits_in_front(value, 0)), u64::MAX as nat) {
                Some(n) => Ok(Some(n)),
                None => Err("JSON u64 field "@ + field + " must be an unsigned integer"@),
            }
        },
    }
}

proof fn lemma_digits_in_front(s: Seq<char>, i: int)
    requires
        0 <= i <= s.len(),
    ensures
        i <= digits_in_front(s, i) <= s.len(),
    decreases s.len() - i,
{
    if i < s.len() && is_digit(s[i]) {
        lemma_digits_in_front(s, i + 1);
    }
}

/// Reads the number of an optional field.
pub fn extract_optional_json_u64_field(input: &str, field: &str) -> (r: Result<Option<u64>, String>)
    ensures
        match r {
            Ok(Some(n)) => optional_number_field(input@, field@) == Ok::<Option<nat>, Seq<char>>(
                Some(n as nat),
            ),
            Ok(None) => optional_number_field(input@, field@) == Ok::<Option<nat>, Seq<char>>(None),
            Err(e) => optional_number_field(input@, field@) == Err::<Option<nat>, Seq<char>>(e@),
        },
{
    match find_json_field_value(input, field) {
        Err(e) => Err(e),
        Ok(None) => Ok(None),
        Ok(Some(rest)) => {
            let value = trimmed_start(rest.as_str());
            let v = chars_of(value.as_str());
            let mut i: usize = 0;
            while i < v.len() && '0' <= v[i] && v[i] <= '9'
                invariant
                    0 <= i <= v@.len(),
                    v@ == value@,
                    digits_in_front(value@, 0) == digits_in_front(value@, i as int),
                decreases v@.len() - i,
            {
                i = i + 1;
            }
            let digits = string_of(v.as_slice(), 0, i);
            assert(digits@ =~= value@.take(digits_in_front(value@, 0)));
            match read_u64(digits.as_str()) {
                Some(n) => Ok(Some(n)),
                None => Err(cat3("JSON u64 field ", field, " must be an unsigned integer")),
            }
        },
    }
}

} // verus!
