//! How far a schema migration has come, and the file in which that is kept.

use vstd::prelude::*;

use crate::text::{
    cat, cat3, chars_of, dec, dec_is_digits, find_from, is_digit, lemma_find_from, number,
    number_reads_dec, read_u64, replace, replaced, show, split_first, split_once, stands_at,
};

verus! {

/// The progress of a schema migration.
pub struct SchemaMigrationProgress {
    pub migration_id: String,
    pub state: String,
    pub processed_rows: u64,
    pub total_rows: u64,
    pub updated_at_unix_ms: u128,
}

/// The contents of a progress record.
pub struct Progress {
    pub migration_id: Seq<char>,
    pub state: Seq<char>,
    pub processed_rows: nat,
    pub total_rows: nat,
    pub updated_at_unix_ms: nat,
}

impl SchemaMigrationProgress {
    pub open spec fn view(&self) -> Progress {
        Progress {
            migration_id: self.migration_id@,
            state: self.state@,
            processed_rows: self.processed_rows as nat,
            total_rows: self.total_rows as nat,
            updated_at_unix_ms: self.updated_at_unix_ms as nat,
        }
    }
}

/// A text with its backslashes and quotation marks escaped.
pub open spec fn escape_quotes(s: Seq<char>) -> Seq<char> {
    replace(replace(s, "\\"@, "\\\\"@), "\""@, "\\\""@)
}

fn escape_json(input: &str) -> (r: String)
    ensures
        r@ == escape_quotes(input@),
{
    proof {
        reveal_strlit("\\");
        reveal_strlit("\"");
    }
    replaced(replaced(input, "\\", "\\\\").as_str(), "\"", "\\\"")
}

/// The file that keeps a progress record.
pub open spec fn progress_text(p: Progress) -> Seq<char> {
    "{\"migration_id\":\""@ + escape_quotes(p.migration_id) + "\",\"state\":\""@ + escape_quotes(
        p.state,
    ) + "\",\"processed_rows\":"@ + dec(p.processed_rows) + ",\"total_rows\":"@ + dec(p.total_rows)
        + ",\"updated_at_unix_ms\":"@ + dec(p.updated_at_unix_ms) + "}\n"@
}

/// Writes a progress record.
pub fn encode_schema_progress(progress: &SchemaMigrationProgress) -> (r: String)
    ensures
        r@ == progress_text(progress@),
{
    let mut r = "{\"migration_id\":\"".to_owned();
    r.append(escape_json(progress.migration_id.as_str()).as_str());
    r.append("\",\"state\":\"");
    r.append(escape_json(progress.state.as_str()).as_str());
    r.append("\",\"processed_rows\":");
    r.append(show(progress.processed_rows as u128).as_str());
    r.append(",\"total_rows\":");
    r.append(show(progress.total_rows as u128).as_str());
    r.append(",\"updated_at_unix_ms\":");
    r.append(show(progress.updated_at_unix_ms).as_str());
    r.append("}\n");
    r
}

/// What stands between the first `mark` and the next one, or the end.
pub open spec fn between(s: Seq<char>, mark: Seq<char>) -> Option<Seq<char>> {
    match split_once(s, mark) {
        None => None,
        Some((_, rest)) => Some(until(rest, mark)),
    }
}

/// What stands before the first `mark`, or all of it.
pub open spec fn until(s: Seq<char>, mark: Seq<char>) -> Seq<char> {
    match split_once(s, mark) {
        None => s,
        Some((head, _)) => head,
    }
}

fn until_exec(s: &str, mark: &str) -> (r: String)
    ensures
        r@ == until(s@, mark@),
{
    match split_first(s, mark) {
        None => s.to_owned(),
        Some((head, _)) => head,
    }
}

fn between_exec(s: &str, mark: &str) -> (r: Option<String>)
    ensures
        match r {
            Some(t) => between(s@, mark@) == Some(t@),
            None => between(s@, mark@) is None,
        },
{
    match split_first(s, mark) {
        None => None,
        Some((_, rest)) => Some(until_exec(rest.as_str(), mark)),
    }
}

/// The first run of decimal digits.
pub open spec fn digit_run(s: Seq<char>) -> Seq<char>
    decreases s.len(),
{
    if s.len() == 0 {
        s
    } else if is_digit(s[0]) {
        leading_digits(s)
    } else {
        digit_run(s.skip(1))
    }
}

/// The digits that a text begins with.
pub open spec fn leading_digits(s: Seq<char>) -> Seq<char>
    decreases s.len(),
{
    if s.len() == 0 || !is_digit(s[0]) {
        Seq::<char>::empty()
    } else {
        seq![s[0]] + leading_digits(s.skip(1))
    }
}

fn first_digits(s: &str) -> (r: String)
    ensures
        r@ == digit_run(s@),
{
    let v = chars_of(s);
    let mut i: usize = 0;
    assert(s@.skip(0) =~= s@);
    while i < v.len() && !('0' <= v[i] && v[i] <= '9')
        invariant
            0 <= i <= v@.len(),
            v@ == s@,
            digit_run(s@) == digit_run(s@.skip(i as int)),
        decreases v@.len() - i,
    {
        assert(s@.skip(i as int).skip(1) =~= s@.skip(i + 1));
        i = i + 1;
    }
    let mut r = String::new();
    let ghost from = i as int;
    proof {
        if i < v@.len() {
            assert(s@.skip(from)[0] == v@[from]);
            assert(r@ + leading_digits(s@.skip(from)) =~= digit_run(s@));
        } else {
            assert(s@.skip(from) =~= Seq::<char>::empty());
            assert(leading_digits(s@.skip(from)) =~= Seq::<char>::empty());
            assert(r@ + leading_digits(s@.skip(from)) =~= digit_run(s@));
        }
    }
    while i < v.len() && '0' <= v[i] && v[i] <= '9'
        invariant
            0 <= i <= v@.len(),
            v@ == s@,
            digit_run(s@) == r@ + leading_digits(s@.skip(i as int)),
        decreases v@.len() - i,
    {
        let ghost before = r@;
        let ghost rest = s@.skip(i as int);
        r.push(v[i]);
        assert(rest[0] == v@[i as int]);
        assert(rest.skip(1) =~= s@.skip(i + 1));
        assert(before + (seq![rest[0]] + leading_digits(s@.skip(i + 1))) =~= r@ + leading_digits(
            s@.skip(i + 1),
        ));
        i = i + 1;
    }
    proof {
        let rest = s@.skip(i as int);
        if i < v@.len() {
            assert(rest[0] == v@[i as int]);
        }
        assert(r@ + leading_digits(rest) =~= r@);
    }
    r
}

/// The text under a name, or the complaint that there is none.
pub open spec fn string_field(s: Seq<char>, name: Seq<char>) -> Result<Seq<char>, Seq<char>> {
    match between(s, "\""@ + name + "\":\""@) {
        None => Err("missing json string field "@ + name),
        Some(rest) => Ok(until(rest, "\""@)),
    }
}

fn json_string_field(input: &str, name: &str) -> (r: Result<String, String>)
    ensures
        match r {
            Ok(t) => string_field(input@, name@) == Ok::<Seq<char>, Seq<char>>(t@),
            Err(e) => string_field(input@, name@) == Err::<Seq<char>, Seq<char>>(e@),
        },
{
    let mark = cat3("\"", name, "\":\"");
    match between_exec(input, mark.as_str()) {
        None => Err(cat("missing json string field ", name)),
        Some(rest) => Ok(until_exec(rest.as_str(), "\"")),
    }
}

/// The number under a name, or what is wrong with it.
pub open spec fn number_field(s: Seq<char>, name: Seq<char>) -> Result<nat, Seq<char>> {
    match between(s, "\""@ + name + "\":"@) {
        None => Err("missing json u64 field "@ + name),
        Some(rest) => if digit_run(rest).len() == 0 {
            Err("missing json u64 field "@ + name)
        } else {
            match number(digit_run(rest), u64::MAX as nat) {
                None => Err("number too large to fit in target type"@),
                Some(n) => Ok(n),
            }
        },
    }
}

fn json_u64_field(input: &str, name: &str) -> (r: Result<u64, String>)
    ensures
        match r {
            Ok(n) => number_field(input@, name@) == Ok::<nat, Seq<char>>(n as nat),
            Err(e) => number_field(input@, name@) == Err::<nat, Seq<char>>(e@),
        },
{
    let mark = cat3("\"", name, "\":");
    match between_exec(input, mark.as_str()) {
        None => Err(cat("missing json u64 field ", name)),
        Some(rest) => {
            let digits = first_digits(rest.as_str());
            if digits.as_str().is_empty() {
                Err(cat("missing json u64 field ", name))
            } else {
                match read_u64(digits.as_str()) {
                    None => Err("number too large to fit in target type".to_owned()),
                    Some(n) => Ok(n),
                }
            }
        },
    }
}

/// The progress record that a file holds, or what is wrong with the file.
pub open spec fn progress_in_text(s: Seq<char>) -> Result<Progress, Seq<char>> {
    match string_field(s, "migration_id"@) {
        Err(e) => Err(e),
        Ok(migration_id) => match string_field(s, "state"@) {
            Err(e) => Err(e),
            Ok(state) => match number_field(s, "processed_rows"@) {
                Err(e) => Err(e),
                Ok(processed_rows) => match number_field(s, "total_rows"@) {
                    Err(e) => Err(e),
                    Ok(total_rows) => match number_field(s, "updated_at_unix_ms"@) {
                        Err(e) => Err(e),
                        Ok(updated_at_unix_ms) => Ok(
                            Progress {
                                migration_id,
                                state,
                                processed_rows,
                                total_rows,
                                updated_at_unix_ms,
                            },
                        ),
                    },
                },
            },
        },
    }
}

/// Reads a progress record.
pub fn decode_schema_progress(input: &str) -> (r: Result<SchemaMigrationProgress, String>)
    ensures
        match r {
            Ok(p) => progress_in_text(input@) == Ok::<Progress, Seq<char>>(p@),
            Err(e) => progress_in_text(input@) == Err::<Progress, Seq<char>>(e@),
        },
{
    let migration_id = match json_string_field(input, "migration_id") {
        Ok(t) => t,
        Err(e) => return Err(e),
    };
    let state = match json_string_field(input, "state") {
        Ok(t) => t,
        Err(e) => return Err(e),
    };
    let processed_rows: u64 = match json_u64_field(input, "processed_rows") {
        Ok(n) => n,
        Err(e) => return Err(e),
    };
    let total_rows: u64 = match json_u64_field(input, "total_rows") {
        Ok(n) => n,
        Err(e) => return Err(e),
    };
    let updated: u64 = match json_u64_field(input, "updated_at_unix_ms") {
        Ok(n) => n,
        Err(e) => return Err(e),
    };
    Ok(
        SchemaMigrationProgress {
            migration_id,
            state,
            processed_rows,
            total_rows,
            updated_at_unix_ms: updated as u128,
        },
    )
}

/// What stands after the first `mark`.
spec fn tail(s: Seq<char>, mark: Seq<char>) -> Option<Seq<char>> {
    match split_once(s, mark) {
        None => None,
        Some((_, rest)) => Some(rest),
    }
}

proof fn lemma_first_stand(s: Seq<char>, pat: Seq<char>, k: int)
    requires
        stands_at(s, pat, k),
        forall|j: int| 0 <= j < k ==> !stands_at(s, pat, j),
    ensures
        find_from(s, pat, 0) == Some(k),
{
    lemma_find_from(s, pat, 0);
}

/// Text without a quotation mark in front of a text does not change where a mark that
/// begins with a quotation mark is found.
proof fn lemma_plain_front(a: Seq<char>, b: Seq<char>, pat: Seq<char>)
    requires
        !a.contains('"'),
        pat.len() > 0,
        pat[0] == '"',
    ensures
        tail(a + b, pat) == tail(b, pat),
        until(a + b, pat) == a + until(b, pat),
{
    let s = a + b;
    let n = a.len() as int;
    lemma_find_from(s, pat, 0);
    lemma_find_from(b, pat, 0);
    assert forall|j: int| 0 <= j < n implies !stands_at(s, pat, j) by {
        if stands_at(s, pat, j) {
            assert(s.subrange(j, j + pat.len())[0] == s[j]);
            assert(a[j] == '"');
        }
    }
    assert forall|j: int| 0 <= j implies (#[trigger] stands_at(b, pat, j) == stands_at(
        s,
        pat,
        j + n,
    )) by {
        if j + pat.len() <= b.len() {
            assert(s.subrange(j + n, j + n + pat.len()) =~= b.subrange(j, j + pat.len()));
        }
    }
    match find_from(b, pat, 0) {
        Some(k) => {
            assert(stands_at(b, pat, k));
            assert forall|j: int| 0 <= j < k + n implies !stands_at(s, pat, j) by {
                if j >= n {
                    assert(!stands_at(b, pat, j - n));
                }
            }
            lemma_first_stand(s, pat, k + n);
            assert(s.skip(k + n + pat.len()) =~= b.skip(k + pat.len()));
            assert(s.take(k + n) =~= a + b.take(k));
        },
        None => {
            match find_from(s, pat, 0) {
                Some(k) => {
                    assert(k >= n);
                    assert(stands_at(b, pat, k - n));
                },
                None => {},
            }
        },
    }
}

/// A quoted word that is not the one looked for is passed over.
proof fn lemma_pass_word(w: Seq<char>, c: Seq<char>, name: Seq<char>, suffix: Seq<char>)
    requires
        !w.contains('"'),
        !name.contains('"'),
        c.len() > 0,
        c[0] == '"',
        suffix.len() > 1,
        suffix[0] == '"',
        w == name ==> c.len() > 1 && c[1] != suffix[1],
    ensures
        tail("\""@ + w + c, "\""@ + name + suffix) == tail(c, "\""@ + name + suffix),
{
    reveal_strlit("\"");
    let pat = "\""@ + name + suffix;
    let s = "\""@ + w + c;
    assert(pat[0] == '"');
    assert(!stands_at(s, pat, 0)) by {
        if stands_at(s, pat, 0) {
            let here = s.subrange(0, pat.len() as int);
            assert(here == pat);
            assert forall|j: int| 0 <= j < pat.len() implies s[j] == pat[j] by {
                assert(here[j] == s[j]);
            }
            assert(s[1int + w.len()] == '"');
            assert(pat[1int + name.len()] == '"');
            if w.len() < name.len() {
                assert(name[w.len() as int] == pat[1int + w.len()]);
                assert(name.contains('"'));
            } else if w.len() > name.len() {
                assert(w[name.len() as int] == s[1int + name.len()]);
                assert(w.contains('"'));
            } else {
                assert forall|j: int| 0 <= j < w.len() implies w[j] == name[j] by {
                    assert(s[1 + j] == w[j]);
                    assert(pat[1 + j] == name[j]);
                }
                assert(w =~= name);
                assert(pat[1int + name.len() + 1] == suffix[1]);
                assert(s[1int + w.len() + 1] == c[1]);
            }
        }
    }
    let rest = s.skip(1);
    assert(rest =~= w + c);
    lemma_plain_front(w, c, pat);
    lemma_find_from(s, pat, 0);
    lemma_find_from(rest, pat, 0);
    assert forall|j: int| 0 <= j implies (#[trigger] stands_at(rest, pat, j) == stands_at(
        s,
        pat,
        j + 1,
    )) by {
        if j + pat.len() <= rest.len() {
            assert(s.subrange(j + 1, j + 1 + pat.len()) =~= rest.subrange(j, j + pat.len()));
        }
    }
    match find_from(rest, pat, 0) {
        Some(k) => {
            assert(stands_at(rest, pat, k));
            assert forall|j: int| 0 <= j < k + 1 implies !stands_at(s, pat, j) by {
                if j >= 1 {
                    assert(!stands_at(rest, pat, j - 1));
                }
            }
            lemma_first_stand(s, pat, k + 1);
            assert(s.skip(k + 1 + pat.len()) =~= rest.skip(k + pat.len()));
        },
        None => {
            match find_from(s, pat, 0) {
                Some(k) => {
                    assert(k >= 1);
                    assert(stands_at(rest, pat, k - 1));
                },
                None => {},
            }
        },
    }
}

/// The word looked for is found where it stands first.
proof fn lemma_here(c: Seq<char>, name: Seq<char>, suffix: Seq<char>)
    ensures
        tail("\""@ + name + suffix + c, "\""@ + name + suffix) == Some(c),
{
    let pat = "\""@ + name + suffix;
    let s = pat + c;
    assert(s.subrange(0, pat.len() as int) =~= pat);
    lemma_first_stand(s, pat, 0);
    assert(s.skip(pat.len() as int) =~= c);
}

/// A text without quotation marks and backslashes is its own escaped form.
proof fn lemma_nothing_to_replace(s: Seq<char>, c: char, with: Seq<char>)
    requires
        !s.contains(c),
    ensures
        replace(s, seq![c], with) == s,
    decreases s.len(),
{
    if s.len() > 0 {
        assert(s.take(1)[0] == s[0]);
        assert(s.contains(s[0]));
        let rest = s.skip(1);
        assert(!rest.contains(c)) by {
            if rest.contains(c) {
                let i = choose|i: int| 0 <= i < rest.len() && rest[i] == c;
                assert(s[i + 1] == c);
            }
        }
        lemma_nothing_to_replace(rest, c, with);
        assert(seq![s[0]] + rest =~= s);
    }
}

proof fn lemma_digits_are_plain(n: nat)
    ensures
        !dec(n).contains('"'),
{
    dec_is_digits(n);
    if dec(n).contains('"') {
        let i = choose|i: int| 0 <= i < dec(n).len() && dec(n)[i] == '"';
        assert(is_digit(dec(n)[i]));
    }
}

proof fn lemma_leading_digits(a: Seq<char>, b: Seq<char>)
    requires
        forall|i: int| 0 <= i < a.len() ==> is_digit(#[trigger] a[i]),
        b.len() > 0,
        !is_digit(b[0]),
    ensures
        leading_digits(a + b) == a,
    decreases a.len(),
{
    let s = a + b;
    if a.len() == 0 {
        assert(s =~= b);
        assert(leading_digits(s) =~= a);
    } else {
        assert(s[0] == a[0]);
        assert(s.skip(1) =~= a.skip(1) + b);
        lemma_leading_digits(a.skip(1), b);
        assert(seq![a[0]] + a.skip(1) =~= a);
    }
}

/// The number in front of a text is read, wherever the text is cut later.
proof fn lemma_number_in_front(n: nat, rest: Seq<char>, pat: Seq<char>)
    requires
        rest.len() > 0,
        !is_digit(rest[0]),
        pat.len() > 0,
        pat[0] == '"',
        rest[0] != '"',
    ensures
        digit_run(until(dec(n) + rest, pat)) == dec(n),
{
    lemma_digits_are_plain(n);
    dec_is_digits(n);
    let first = seq![rest[0]];
    let others = rest.skip(1);
    assert(rest =~= first + others);
    assert(!first.contains('"'));
    lemma_plain_front(dec(n), rest, pat);
    lemma_plain_front(first, others, pat);
    let kept = first + until(others, pat);
    assert(until(dec(n) + rest, pat) == dec(n) + kept);
    assert(kept[0] == rest[0]);
    lemma_leading_digits(dec(n), kept);
    assert((dec(n) + kept)[0] == dec(n)[0]);
    assert(is_digit(dec(n)[0]));
}

/// Whether a text is kept as it is by the file of progress records: it holds no
/// quotation mark and no backslash.
pub open spec fn is_plain(s: Seq<char>) -> bool {
    !s.contains('"') && !s.contains('\\')
}

spec fn from_updated(p: Progress) -> Seq<char> {
    "\""@ + "updated_at_unix_ms"@ + ("\":"@ + (dec(p.updated_at_unix_ms) + "}\n"@))
}

spec fn from_total(p: Progress) -> Seq<char> {
    "\""@ + "total_rows"@ + ("\":"@ + (dec(p.total_rows) + (","@ + from_updated(p))))
}

spec fn from_processed(p: Progress) -> Seq<char> {
    "\""@ + "processed_rows"@ + ("\":"@ + (dec(p.processed_rows) + (","@ + from_total(p))))
}

spec fn from_state(p: Progress) -> Seq<char> {
    "\""@ + "state"@ + ("\""@ + ":"@ + ("\""@ + p.state + ("\""@ + ","@ + from_processed(p))))
}

spec fn from_id(p: Progress) -> Seq<char> {
    "\""@ + "migration_id"@ + ("\""@ + ":"@ + ("\""@ + p.migration_id + ("\""@ + ","@ + from_state(
        p,
    ))))
}

proof fn reveal_marks()
    ensures
        "\""@.len() == 1,
        "\""@[0] == '"',
        ":"@ == seq![':'],
        ","@ == seq![','],
        "{"@ == seq!['{'],
        "\":"@ == "\""@ + ":"@,
        "\":\""@ == "\""@ + ":"@ + "\""@,
        "}\n"@ == seq!['}', '\n'],
        "\\"@ == seq!['\\'],
        "\""@ == seq!['"'],
{
    reveal_strlit("\"");
    reveal_strlit(":");
    reveal_strlit(",");
    reveal_strlit("{");
    reveal_strlit("\":");
    reveal_strlit("\":\"");
    reveal_strlit("}\n");
    reveal_strlit("\\");
    assert(":"@ =~= seq![':']);
    assert(","@ =~= seq![',']);
    assert("{"@ =~= seq!['{']);
    assert("\":"@ =~= "\""@ + ":"@);
    assert("\":\""@ =~= "\""@ + ":"@ + "\""@);
    assert("}\n"@ =~= seq!['}', '\n']);
    assert("\\"@ =~= seq!['\\']);
    assert("\""@ =~= seq!['"']);
}

proof fn reveal_names()
    ensures
        "migration_id"@.len() == 12,
        "state"@.len() == 5,
        "processed_rows"@.len() == 14,
        "total_rows"@.len() == 10,
        "updated_at_unix_ms"@.len() == 18,
        !"migration_id"@.contains('"'),
        !"state"@.contains('"'),
        !"processed_rows"@.contains('"'),
        !"total_rows"@.contains('"'),
        !"updated_at_unix_ms"@.contains('"'),
        "total_rows"@[0] == 't',
        "updated_at_unix_ms"@[0] == 'u',
{
    reveal_strlit("migration_id");
    reveal_strlit("state");
    reveal_strlit("processed_rows");
    reveal_strlit("total_rows");
    reveal_strlit("updated_at_unix_ms");
}

proof fn lemma_regroup(a: Seq<char>, b: Seq<char>, c: Seq<char>)
    ensures
        a + b + c == a + (b + c),
{
    assert(a + b + c =~= a + (b + c));
}

proof fn lemma_before_number(lit: Seq<char>, a: Seq<char>, w: Seq<char>, rest: Seq<char>)
    requires
        lit == a + "\""@ + w + "\":"@,
    ensures
        lit + rest == a + ("\""@ + w + ("\":"@ + rest)),
{
    assert(lit + rest =~= a + ("\""@ + w + ("\":"@ + rest)));
}

proof fn lemma_before_text(
    lit: Seq<char>,
    a: Seq<char>,
    w: Seq<char>,
    value: Seq<char>,
    rest: Seq<char>,
)
    requires
        lit == a + "\""@ + w + "\":\""@,
        "\":\""@ == "\""@ + ":"@ + "\""@,
    ensures
        lit + (value + rest) == a + ("\""@ + w + ("\""@ + ":"@ + ("\""@ + value + rest))),
{
    assert(lit + (value + rest) =~= a + ("\""@ + w + ("\""@ + ":"@ + ("\""@ + value + rest))));
}

proof fn reveal_fronts()
    ensures
        "{\"migration_id\":\""@ == "{"@ + "\""@ + "migration_id"@ + "\":\""@,
        "\",\"state\":\""@ == "\""@ + ","@ + "\""@ + "state"@ + "\":\""@,
        "\",\"processed_rows\":"@ == "\""@ + ","@ + "\""@ + "processed_rows"@ + "\":"@,
        ",\"total_rows\":"@ == ","@ + "\""@ + "total_rows"@ + "\":"@,
        ",\"updated_at_unix_ms\":"@ == ","@ + "\""@ + "updated_at_unix_ms"@ + "\":"@,
{
    reveal_strlit("\"");
    reveal_strlit(",");
    reveal_strlit("{");
    reveal_strlit("\":");
    reveal_strlit("\":\"");
    reveal_strlit("{\"migration_id\":\"");
    reveal_strlit("\",\"state\":\"");
    reveal_strlit("\",\"processed_rows\":");
    reveal_strlit(",\"total_rows\":");
    reveal_strlit(",\"updated_at_unix_ms\":");
    reveal_strlit("migration_id");
    reveal_strlit("state");
    reveal_strlit("processed_rows");
    reveal_strlit("total_rows");
    reveal_strlit("updated_at_unix_ms");
    assert("{\"migration_id\":\""@ =~= "{"@ + "\""@ + "migration_id"@ + "\":\""@);
    assert("\",\"state\":\""@ =~= "\""@ + ","@ + "\""@ + "state"@ + "\":\""@);
    assert("\",\"processed_rows\":"@ =~= "\""@ + ","@ + "\""@ + "processed_rows"@ + "\":"@);
    assert(",\"total_rows\":"@ =~= ","@ + "\""@ + "total_rows"@ + "\":"@);
    assert(",\"updated_at_unix_ms\":"@ =~= ","@ + "\""@ + "updated_at_unix_ms"@ + "\":"@);
}

proof fn lemma_progress_parts(p: Progress)
    requires
        is_plain(p.migration_id),
        is_plain(p.state),
    ensures
        progress_text(p) == "{"@ + from_id(p),
{
    reveal_marks();
    reveal_fronts();
    lemma_nothing_to_replace(p.migration_id, '\\', "\\\\"@);
    lemma_nothing_to_replace(p.migration_id, '"', "\\\""@);
    lemma_nothing_to_replace(p.state, '\\', "\\\\"@);
    lemma_nothing_to_replace(p.state, '"', "\\\""@);
    let l1 = "{\"migration_id\":\""@;
    let l2 = "\",\"state\":\""@;
    let l3 = "\",\"processed_rows\":"@;
    let l4 = ",\"total_rows\":"@;
    let l5 = ",\"updated_at_unix_ms\":"@;
    let n1 = dec(p.processed_rows);
    let n2 = dec(p.total_rows);
    let n3 = dec(p.updated_at_unix_ms);
    let x1 = l1 + p.migration_id;
    let x2 = x1 + l2 + p.state;
    let x3 = x2 + l3 + n1;
    let x4 = x3 + l4 + n2;
    let t0 = n3 + "}\n"@;
    lemma_regroup(x4 + l5, n3, "}\n"@);
    let t1 = l5 + t0;
    lemma_regroup(x4, l5, t0);
    lemma_before_number(l5, ","@, "updated_at_unix_ms"@, t0);
    lemma_regroup(x3 + l4, n2, t1);
    let t2 = l4 + (n2 + t1);
    lemma_regroup(x3, l4, n2 + t1);
    lemma_before_number(l4, ","@, "total_rows"@, n2 + t1);
    lemma_regroup(x2 + l3, n1, t2);
    let t3 = l3 + (n1 + t2);
    lemma_regroup(x2, l3, n1 + t2);
    lemma_before_number(l3, "\""@ + ","@, "processed_rows"@, n1 + t2);
    lemma_regroup(x1 + l2, p.state, t3);
    let t4 = l2 + (p.state + t3);
    lemma_regroup(x1, l2, p.state + t3);
    lemma_before_text(l2, "\""@ + ","@, "state"@, p.state, t3);
    lemma_regroup(l1, p.migration_id, t4);
    lemma_before_text(l1, "{"@, "migration_id"@, p.migration_id, t4);
}

proof fn lemma_skip_to_state(p: Progress, name: Seq<char>, suffix: Seq<char>)
    requires
        is_plain(p.migration_id),
        !name.contains('"'),
        name.len() > 0,
        name != "migration_id"@,
        name != ":"@,
        name != ","@,
        suffix.len() > 1,
        suffix[0] == '"',
        suffix[1] == ':',
    ensures
        tail("{"@ + from_id(p), "\""@ + name + suffix) == tail(from_state(p), "\""@ + name + suffix),
{
    reveal_marks();
    reveal_names();
    let pat = "\""@ + name + suffix;
    let c4 = from_state(p);
    let c3 = "\""@ + ","@ + c4;
    let c2 = "\""@ + p.migration_id + c3;
    let c1 = "\""@ + ":"@ + c2;
    assert(!"{"@.contains('"'));
    lemma_plain_front("{"@, from_id(p), pat);
    lemma_pass_word("migration_id"@, c1, name, suffix);
    lemma_pass_word(":"@, c2, name, suffix);
    lemma_pass_word(p.migration_id, c3, name, suffix);
    lemma_pass_word(","@, c4, name, suffix);
}

proof fn lemma_skip_to_processed(p: Progress, name: Seq<char>, suffix: Seq<char>)
    requires
        is_plain(p.state),
        !name.contains('"'),
        name.len() > 0,
        name != "state"@,
        name != ":"@,
        name != ","@,
        suffix.len() > 1,
        suffix[0] == '"',
        suffix[1] == ':',
    ensures
        tail(from_state(p), "\""@ + name + suffix) == tail(
            from_processed(p),
            "\""@ + name + suffix,
        ),
{
    reveal_marks();
    reveal_names();
    let c4 = from_processed(p);
    let c3 = "\""@ + ","@ + c4;
    let c2 = "\""@ + p.state + c3;
    let c1 = "\""@ + ":"@ + c2;
    lemma_pass_word("state"@, c1, name, suffix);
    lemma_pass_word(":"@, c2, name, suffix);
    lemma_pass_word(p.state, c3, name, suffix);
    lemma_pass_word(","@, c4, name, suffix);
}

proof fn lemma_pass_number(w: Seq<char>, n: nat, c: Seq<char>, name: Seq<char>, suffix: Seq<char>)
    requires
        !w.contains('"'),
        !name.contains('"'),
        w != name,
        name.len() > 0,
        name[0] != ':',
        c.len() > 0,
        c[0] == '"',
        suffix.len() > 1,
        suffix[0] == '"',
    ensures
        tail("\""@ + w + ("\":"@ + (dec(n) + (","@ + c))), "\""@ + name + suffix) == tail(
            c,
            "\""@ + name + suffix,
        ),
{
    reveal_marks();
    lemma_digits_are_plain(n);
    let pat = "\""@ + name + suffix;
    let tail_text = "\":"@ + (dec(n) + (","@ + c));
    lemma_pass_word(w, tail_text, name, suffix);
    let between_words = ":"@ + dec(n) + ","@;
    assert(!between_words.contains('"'));
    assert(tail_text =~= "\""@ + between_words + c);
    if between_words == name {
        assert(between_words[0] == ':');
    }
    lemma_pass_word(between_words, c, name, suffix);
}

proof fn lemma_found_string(s: Seq<char>, value: Seq<char>, rest: Seq<char>, name: Seq<char>)
    requires
        !value.contains('"'),
        rest.len() > 0,
        rest[0] == '"',
        tail(s, "\""@ + name + "\":\""@) == Some(value + rest),
    ensures
        string_field(s, name) == Ok::<Seq<char>, Seq<char>>(value),
{
    reveal_marks();
    let pat = "\""@ + name + "\":\""@;
    assert(pat[0] == '"');
    lemma_plain_front(value, rest, pat);
    let cut = until(value + rest, pat);
    let kept = until(rest, pat);
    assert(cut == value + kept);
    lemma_plain_front(value, kept, "\""@);
    if kept.len() == 0 {
        assert(until(kept, "\""@) =~= Seq::<char>::empty());
        assert(value + until(kept, "\""@) =~= value);
    } else {
        lemma_find_from(rest, pat, 0);
        assert(kept[0] == rest[0]);
        assert(kept.subrange(0, 1) =~= "\""@);
        lemma_first_stand(kept, "\""@, 0);
        assert(kept.take(0) =~= Seq::<char>::empty());
        assert(value + until(kept, "\""@) =~= value);
    }
}

proof fn lemma_found_number(s: Seq<char>, n: nat, rest: Seq<char>, name: Seq<char>)
    requires
        n <= u64::MAX,
        rest.len() > 0,
        rest[0] == ',' || rest[0] == '}',
        tail(s, "\""@ + name + "\":"@) == Some(dec(n) + rest),
    ensures
        number_field(s, name) == Ok::<nat, Seq<char>>(n),
{
    reveal_marks();
    let pat = "\""@ + name + "\":"@;
    assert(pat[0] == '"');
    lemma_number_in_front(n, rest, pat);
    dec_is_digits(n);
    number_reads_dec(n, u64::MAX as nat);
}

/// A progress record is read back from its file as it was, where its texts hold no
/// quotation mark or backslash and its time is a number of 64 bits.
pub proof fn progress_survives_its_file(p: Progress)
    requires
        is_plain(p.migration_id),
        is_plain(p.state),
        p.processed_rows <= u64::MAX,
        p.total_rows <= u64::MAX,
        p.updated_at_unix_ms <= u64::MAX,
    ensures
        progress_in_text(progress_text(p)) == Ok::<Progress, Seq<char>>(p),
{
    reveal_marks();
    reveal_names();
    lemma_progress_parts(p);
    let s = progress_text(p);
    let text_suffix = "\":\""@;
    let number_suffix = "\":"@;

    // The identifier.
    let id_rest = "\""@ + ","@ + from_state(p);
    let id_pat = "\""@ + "migration_id"@ + text_suffix;
    assert(!"{"@.contains('"'));
    lemma_plain_front("{"@, from_id(p), id_pat);
    assert(from_id(p) =~= id_pat + (p.migration_id + id_rest));
    lemma_here(p.migration_id + id_rest, "migration_id"@, text_suffix);
    lemma_found_string(s, p.migration_id, id_rest, "migration_id"@);

    // The state.
    let state_rest = "\""@ + ","@ + from_processed(p);
    let state_pat = "\""@ + "state"@ + text_suffix;
    lemma_skip_to_state(p, "state"@, text_suffix);
    assert(from_state(p) =~= state_pat + (p.state + state_rest));
    lemma_here(p.state + state_rest, "state"@, text_suffix);
    lemma_found_string(s, p.state, state_rest, "state"@);

    // The rows done.
    let processed_rest = ","@ + from_total(p);
    lemma_skip_to_state(p, "processed_rows"@, number_suffix);
    lemma_skip_to_processed(p, "processed_rows"@, number_suffix);
    assert(from_processed(p) =~= "\""@ + "processed_rows"@ + number_suffix + (dec(p.processed_rows)
        + processed_rest));
    lemma_here(dec(p.processed_rows) + processed_rest, "processed_rows"@, number_suffix);
    lemma_found_number(s, p.processed_rows, processed_rest, "processed_rows"@);

    // All rows.
    let total_rest = ","@ + from_updated(p);
    lemma_skip_to_state(p, "total_rows"@, number_suffix);
    lemma_skip_to_processed(p, "total_rows"@, number_suffix);
    lemma_pass_number(
        "processed_rows"@,
        p.processed_rows,
        from_total(p),
        "total_rows"@,
        number_suffix,
    );
    assert(from_total(p) =~= "\""@ + "total_rows"@ + number_suffix + (dec(p.total_rows)
        + total_rest));
    lemma_here(dec(p.total_rows) + total_rest, "total_rows"@, number_suffix);
    lemma_found_number(s, p.total_rows, total_rest, "total_rows"@);

    // The time.
    let updated = "updated_at_unix_ms"@;
    lemma_skip_to_state(p, updated, number_suffix);
    lemma_skip_to_processed(p, updated, number_suffix);
    lemma_pass_number("processed_rows"@, p.processed_rows, from_total(p), updated, number_suffix);
    lemma_pass_number("total_rows"@, p.total_rows, from_updated(p), updated, number_suffix);
    assert(from_updated(p) =~= "\""@ + updated + number_suffix + (dec(p.updated_at_unix_ms)
        + "}\n"@));
    lemma_here(dec(p.updated_at_unix_ms) + "}\n"@, updated, number_suffix);
    lemma_found_number(s, p.updated_at_unix_ms, "}\n"@, updated);
}

} // verus!
