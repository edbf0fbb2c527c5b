//! Text as sequences of characters: searching, splitting, trimming, joining and
//! the decimal forms of integers.

use vstd::prelude::*;

verus! {

/// `String::push` appends one character.
pub assume_specification[ String::push ](s: &mut String, c: char)
    ensures
        final(s)@ == old(s)@.push(c),
;

/// What `{:?}` writes for a string: the string in double quotes, with `str`'s
/// `escape_debug` applied to it.
pub uninterp spec fn debug_text(s: Seq<char>) -> Seq<char>;

/// Calls `<str as std::fmt::Debug>::fmt`. The result depends on the string alone and
/// has the name `debug_text`; which characters are escaped, and how, is not stated.
#[verifier::external_body]
pub(crate) fn quoted(s: &str) -> (r: String)
    ensures
        r@ == debug_text(s@),
{
    format!("{:?}", s)
}

/// The contents of a list of strings.
pub open spec fn views(v: Seq<String>) -> Seq<Seq<char>> {
    v.map_values(|s: String| s@)
}

pub proof fn lemma_views_push(v: Seq<String>, s: String)
    ensures
        views(v.push(s)) == views(v).push(s@),
{
    assert(views(v.push(s)) =~= views(v).push(s@));
}

/// The characters of a string, in order.
pub fn chars_of(s: &str) -> (v: Vec<char>)
    ensures
        v@ == s@,
{
    let mut v: Vec<char> = Vec::new();
    for c in it: s.chars()
        invariant
            it.seq() == s@,
            v@ == s@.take(it.index() as int),
    {
        v.push(c);
        assert(s@.take(it.index() as int + 1) =~= s@.take(it.index() as int).push(c));
    }
    assert(s@.take(s@.len() as int) =~= s@);
    v
}

/// The string made of the characters `from..to`.
pub fn string_of(v: &[char], from: usize, to: usize) -> (s: String)
    requires
        from <= to <= v@.len(),
    ensures
        s@ == v@.subrange(from as int, to as int),
{
    let mut s = String::new();
    let mut i: usize = from;
    while i < to
        invariant
            from <= i <= to <= v@.len(),
            s@ == v@.subrange(from as int, i as int),
        decreases to - i,
    {
        s.push(v[i]);
        i = i + 1;
        assert(s@ =~= v@.subrange(from as int, i as int));
    }
    s
}

/// The text `a` followed by the text `b`.
pub fn cat(a: &str, b: &str) -> (s: String)
    ensures
        s@ == a@ + b@,
{
    let mut s = a.to_owned();
    s.append(b);
    s
}

/// The texts `a`, `b` and `c`, one after the other.
pub fn cat3(a: &str, b: &str, c: &str) -> (s: String)
    ensures
        s@ == a@ + b@ + c@,
{
    let mut s = a.to_owned();
    s.append(b);
    s.append(c);
    s
}

/// Whether two strings hold the same characters.
pub fn same(a: &str, b: &str) -> (r: bool)
    ensures
        r == (a@ == b@),
{
    let x = chars_of(a);
    let y = chars_of(b);
    if x.len() != y.len() {
        return false;
    }
    let mut i: usize = 0;
    while i < x.len()
        invariant
            0 <= i <= x.len(),
            x@ == a@,
            y@ == b@,
            x.len() == y.len(),
            forall|j: int| 0 <= j < i ==> a@[j] == b@[j],
        decreases x.len() - i,
    {
        if x[i] != y[i] {
            return false;
        }
        i = i + 1;
    }
    assert(a@ =~= b@);
    true
}

/// The bits in which two characters differ.
fn differing_bits(a: char, b: char) -> (r: u32)
    ensures
        r == 0 <==> a == b,
{
    let x: u32 = a as u32;
    let y: u32 = b as u32;
    assert(x ^ y == 0 <==> x == y) by (bit_vector);
    x ^ y
}

/// Whether two secrets are the same. Every character of the first one is looked at, wherever
/// the two differ.
pub fn constant_time_token_eq(a: &str, b: &str) -> (r: bool)
    ensures
        r == (a@ == b@),
{
    let x = chars_of(a);
    let y = chars_of(b);
    let mut differing: u32 = if x.len() == y.len() {
        0
    } else {
        1
    };
    let mut i: usize = 0;
    while i < x.len()
        invariant
            0 <= i <= x.len(),
            x@ == a@,
            y@ == b@,
            differing == 0 <==> a@.len() == b@.len() && forall|j: int|
                0 <= j < i ==> a@[j] == b@[j],
        decreases x.len() - i,
    {
        let expected: char = if i < y.len() {
            y[i]
        } else {
            ' '
        };
        let bits: u32 = differing_bits(x[i], expected);
        assert(differing | bits == 0 <==> differing == 0 && bits == 0) by (bit_vector);
        assert((forall|j: int| 0 <= j < i + 1 ==> a@[j] == b@[j]) ==> a@[i as int] == b@[i as int]);
        differing = differing | bits;
        i = i + 1;
    }
    assert(differing == 0 ==> a@ =~= b@);
    differing == 0
}

/// The decimal digit `d`.
pub open spec fn digit_char(d: nat) -> char {
    (48 + d) as char
}

/// The decimal form of `n`.
pub open spec fn dec(n: nat) -> Seq<char>
    decreases n,
{
    if n < 10 {
        seq![digit_char(n)]
    } else {
        dec(n / 10).push(digit_char(n % 10))
    }
}

fn digit_of(d: u8) -> (c: char)
    requires
        d < 10,
    ensures
        c == digit_char(d as nat),
{
    (48 + d) as char
}

/// Writes `n` in decimal.
pub fn show(n: u128) -> (s: String)
    ensures
        s@ == dec(n as nat),
    decreases n,
{
    if n < 10 {
        let mut s = String::new();
        s.push(digit_of(n as u8));
        assert(s@ =~= seq![digit_char(n as nat)]);
        s
    } else {
        let mut s = show(n / 10);
        s.push(digit_of((n % 10) as u8));
        s
    }
}

pub open spec fn is_digit(c: char) -> bool {
    '0' <= c <= '9'
}

pub open spec fn digit_value(c: char) -> nat {
    if is_digit(c) {
        (c as int - 48) as nat
    } else {
        0
    }
}

pub open spec fn all_digits(s: Seq<char>) -> bool {
    forall|i: int| 0 <= i < s.len() ==> is_digit(#[trigger] s[i])
}

/// The number that a sequence of decimal digits denotes.
pub open spec fn digits_value(s: Seq<char>) -> nat
    decreases s.len(),
{
    if s.len() == 0 {
        0
    } else {
        digits_value(s.drop_last()) * 10 + digit_value(s.last())
    }
}

/// What follows an optional leading plus sign.
pub open spec fn after_plus(s: Seq<char>) -> Seq<char> {
    if s.len() > 0 && s[0] == '+' {
        s.skip(1)
    } else {
        s
    }
}

/// The unsigned number written in `s`, if it is at most `max`: decimal digits, at
/// least one, after an optional plus sign.
pub open spec fn number(s: Seq<char>, max: nat) -> Option<nat> {
    let body = after_plus(s);
    if body.len() > 0 && all_digits(body) && digits_value(body) <= max {
        Some(digits_value(body))
    } else {
        None
    }
}

proof fn lemma_digits_value_grows(s: Seq<char>, i: int)
    requires
        0 <= i <= s.len(),
    ensures
        digits_value(s.take(i)) <= digits_value(s),
    decreases s.len() - i,
{
    if i < s.len() {
        let t = s.take(i + 1);
        assert(t.drop_last() =~= s.take(i));
        lemma_digits_value_grows(s, i + 1);
    } else {
        assert(s.take(i) =~= s);
    }
}

/// Reads an unsigned number of at most `max`.
pub fn read_number(s: &str, max: u128) -> (r: Option<u128>)
    ensures
        match r {
            Some(n) => number(s@, max as nat) == Some(n as nat),
            None => number(s@, max as nat) is None,
        },
{
    let v = chars_of(s);
    let start: usize = if v.len() > 0 && v[0] == '+' { 1 } else { 0 };
    let ghost body = after_plus(s@);
    assert(body =~= v@.skip(start as int));
    if start == v.len() {
        return None;
    }
    let mut acc: u128 = 0;
    let mut i: usize = start;
    while i < v.len()
        invariant
            start <= i <= v.len(),
            v@ == s@,
            body == after_plus(s@),
            body == v@.skip(start as int),
            acc <= max,
            acc == digits_value(body.take(i - start)),
            forall|j: int| 0 <= j < i - start ==> is_digit(#[trigger] body[j]),
        decreases v.len() - i,
    {
        let c = v[i];
        assert(body[i - start] == c);
        if !('0' <= c && c <= '9') {
            return None;
        }
        let d: u128 = (c as u32 - 48) as u128;
        assert(body.take(i - start + 1).drop_last() =~= body.take(i - start));
        proof {
            lemma_digits_value_grows(body, i - start + 1);
        }
        if d > max || acc > (max - d) / 10 {
            return None;
        }
        acc = acc * 10 + d;
        i = i + 1;
    }
    assert(body.take(body.len() as int) =~= body);
    Some(acc)
}

pub proof fn dec_is_digits(n: nat)
    ensures
        dec(n).len() > 0,
        all_digits(dec(n)),
        digits_value(dec(n)) == n,
    decreases n,
{
    if n < 10 {
        let s = seq![digit_char(n)];
        assert(s.drop_last() =~= Seq::<char>::empty());
        assert(digits_value(s.drop_last()) == 0);
        assert(s.last() == digit_char(n));
    } else {
        dec_is_digits(n / 10);
        let s = dec(n);
        assert(s.drop_last() =~= dec(n / 10));
        assert(s.last() == digit_char(n % 10));
    }
}

/// Reading back the decimal form of a number gives the number.
pub proof fn number_reads_dec(n: nat, max: nat)
    requires
        n <= max,
    ensures
        number(dec(n), max) == Some(n),
{
    dec_is_digits(n);
    assert(is_digit(dec(n)[0]));
}

/// The decimal form of an integer, with a minus sign where it is negative.
pub open spec fn dec_int(n: int) -> Seq<char> {
    if n < 0 {
        seq!['-'] + dec((-n) as nat)
    } else {
        dec(n as nat)
    }
}

/// Writes a signed number in decimal.
pub fn show_signed(n: i64) -> (s: String)
    ensures
        s@ == dec_int(n as int),
{
    if n < 0 {
        let mut s = String::new();
        s.push('-');
        assert(s@ =~= seq!['-']);
        let m: u128 = (-(n as i128)) as u128;
        s.append(show(m).as_str());
        s
    } else {
        show(n as u128)
    }
}

/// The signed number written in `s`, if it lies in the range of `i64`.
pub open spec fn signed(s: Seq<char>) -> Option<int> {
    if s.len() > 0 && s[0] == '-' {
        let body = s.skip(1);
        if body.len() > 0 && all_digits(body) && digits_value(body) <= 0x8000_0000_0000_0000 {
            Some(-(digits_value(body) as int))
        } else {
            None
        }
    } else {
        match number(s, i64::MAX as nat) {
            Some(n) => Some(n as int),
            None => None,
        }
    }
}

/// Reads a signed number in the range of `i64`.
pub fn read_signed(s: &str) -> (r: Option<i64>)
    ensures
        match r {
            Some(n) => signed(s@) == Some(n as int),
            None => signed(s@) is None,
        },
{
    let v = chars_of(s);
    if v.len() > 0 && v[0] == '-' {
        let body = string_of(v.as_slice(), 1, v.len());
        assert(body@ =~= s@.skip(1));
        if v.len() > 1 && v[1] == '+' {
            assert(body@[0] == '+');
            return None;
        }
        assert(body@.len() > 0 ==> body@[0] == v@[1]);
        match read_number(body.as_str(), 0x8000_0000_0000_0000) {
            Some(n) => Some((-(n as i128)) as i64),
            None => None,
        }
    } else {
        match read_number(s, i64::MAX as u128) {
            Some(n) => Some(n as i64),
            None => None,
        }
    }
}

/// Reads a `u64`.
pub fn read_u64(s: &str) -> (r: Option<u64>)
    ensures
        match r {
            Some(n) => number(s@, u64::MAX as nat) == Some(n as nat),
            None => number(s@, u64::MAX as nat) is None,
        },
{
    match read_number(s, u64::MAX as u128) {
        Some(n) => Some(n as u64),
        None => None,
    }
}

/// Reads a `usize`.
pub fn read_usize(s: &str) -> (r: Option<usize>)
    ensures
        match r {
            Some(n) => number(s@, usize::MAX as nat) == Some(n as nat),
            None => number(s@, usize::MAX as nat) is None,
        },
{
    match read_number(s, usize::MAX as u128) {
        Some(n) => Some(n as usize),
        None => None,
    }
}

/// Whether `pat` begins `s`.
pub open spec fn begins(s: Seq<char>, pat: Seq<char>) -> bool {
    pat.len() <= s.len() && s.take(pat.len() as int) == pat
}

/// Whether `pat` ends `s`.
pub open spec fn ends(s: Seq<char>, pat: Seq<char>) -> bool {
    pat.len() <= s.len() && s.skip(s.len() - pat.len()) == pat
}

/// Whether `pat` stands in `s` at position `i`.
pub open spec fn stands_at(s: Seq<char>, pat: Seq<char>, i: int) -> bool {
    0 <= i && i + pat.len() <= s.len() && s.subrange(i, i + pat.len()) == pat
}

/// Whether `pat` stands anywhere in `s`.
pub open spec fn holds(s: Seq<char>, pat: Seq<char>) -> bool {
    exists|i: int| stands_at(s, pat, i)
}

/// The first position at or after `i` where `pat` stands in `s`.
pub open spec fn find_from(s: Seq<char>, pat: Seq<char>, i: int) -> Option<int>
    decreases s.len() + 1 - i,
{
    if i < 0 || i + pat.len() > s.len() {
        None
    } else if stands_at(s, pat, i) {
        Some(i)
    } else {
        find_from(s, pat, i + 1)
    }
}

/// The two sides of the first `pat` in `s`.
pub open spec fn split_once(s: Seq<char>, pat: Seq<char>) -> Option<(Seq<char>, Seq<char>)> {
    match find_from(s, pat, 0) {
        Some(i) => Some((s.take(i), s.skip(i + pat.len()))),
        None => None,
    }
}

pub proof fn lemma_find_from(s: Seq<char>, pat: Seq<char>, i: int)
    requires
        0 <= i,
    ensures
        match find_from(s, pat, i) {
            Some(k) => i <= k && stands_at(s, pat, k) && forall|j: int|
                i <= j < k ==> !stands_at(s, pat, j),
            None => forall|j: int| i <= j ==> !stands_at(s, pat, j),
        },
    decreases s.len() + 1 - i,
{
    if i + pat.len() <= s.len() && !stands_at(s, pat, i) {
        lemma_find_from(s, pat, i + 1);
    }
}

/// Where `a` does not hold `c`, the first `c` of `a`, `c` and `b` stands after `a`.
pub proof fn lemma_split_once_at_char(a: Seq<char>, b: Seq<char>, c: char)
    requires
        !a.contains(c),
    ensures
        split_once(a + seq![c] + b, seq![c]) == Some((a, b)),
{
    let s = a + seq![c] + b;
    let k = a.len() as int;
    lemma_find_from(s, seq![c], 0);
    assert(s.subrange(k, k + 1) =~= seq![c]);
    assert forall|j: int| 0 <= j < k implies !stands_at(s, seq![c], j) by {
        assert(s[j] == a[j]);
        if stands_at(s, seq![c], j) {
            assert(s.subrange(j, j + 1)[0] == c);
            assert(a.contains(c));
        }
    }
    assert(stands_at(s, seq![c], k));
    assert(find_from(s, seq![c], 0) == Some(k));
    assert(s.take(k) =~= a);
    assert(s.skip(k + 1) =~= b);
}

fn stands_at_exec(s: &[char], pat: &[char], i: usize) -> (r: bool)
    requires
        i <= s@.len(),
    ensures
        r == stands_at(s@, pat@, i as int),
{
    let n: usize = s.len();
    if pat.len() > n - i {
        return false;
    }
    let mut j: usize = 0;
    while j < pat.len()
        invariant
            0 <= j <= pat@.len(),
            n == s@.len(),
            i + pat@.len() <= s@.len(),
            forall|k: int| 0 <= k < j ==> s@[i + k] == pat@[k],
        decreases pat@.len() - j,
    {
        if s[i + j] != pat[j] {
            assert(s@.subrange(i as int, i + pat@.len())[j as int] != pat@[j as int]);
            return false;
        }
        j = j + 1;
    }
    assert(s@.subrange(i as int, i + pat@.len()) =~= pat@);
    true
}

/// Finds the first position at or after `start` where `pat` stands in `s`.
pub fn find_in(s: &[char], pat: &[char], start: usize) -> (r: Option<usize>)
    requires
        start <= s@.len(),
    ensures
        match r {
            Some(i) => find_from(s@, pat@, start as int) == Some(i as int) && i + pat@.len() <= s@.len(),
            None => find_from(s@, pat@, start as int) is None,
        },
{
    let mut i: usize = start;
    while i <= s.len()
        invariant
            start <= i <= s@.len() + 1,
            find_from(s@, pat@, start as int) == find_from(s@, pat@, i as int),
        decreases s@.len() + 1 - i,
    {
        if stands_at_exec(s, pat, i) {
            return Some(i);
        }
        if i == s.len() {
            assert(find_from(s@, pat@, i + 1) is None);
            return None;
        }
        i = i + 1;
    }
    None
}

/// Whether `pat` begins `s`.
pub fn starts_with(s: &str, pat: &str) -> (r: bool)
    ensures
        r == begins(s@, pat@),
{
    let v = chars_of(s);
    let p = chars_of(pat);
    assert(pat@.len() <= s@.len() ==> s@.subrange(0, pat@.len() as int) == s@.take(pat@.len() as int));
    stands_at_exec(v.as_slice(), p.as_slice(), 0)
}

/// What follows the prefix `pat` of `s`, if `s` has it.
pub fn strip_prefix(s: &str, pat: &str) -> (r: Option<String>)
    ensures
        match r {
            Some(t) => begins(s@, pat@) && t@ == s@.skip(pat@.len() as int),
            None => !begins(s@, pat@),
        },
{
    let v = chars_of(s);
    let p = chars_of(pat);
    if starts_with(s, pat) {
        let t = string_of(v.as_slice(), p.len(), v.len());
        assert(t@ =~= s@.skip(pat@.len() as int));
        Some(t)
    } else {
        None
    }
}

/// Whether `pat` ends `s`.
pub fn ends_with(s: &str, pat: &str) -> (r: bool)
    ensures
        r == ends(s@, pat@),
{
    let v = chars_of(s);
    let p = chars_of(pat);
    if p.len() > v.len() {
        return false;
    }
    let at: usize = v.len() - p.len();
    assert(s@.subrange(at as int, at + pat@.len()) == s@.skip(s@.len() - pat@.len()));
    stands_at_exec(v.as_slice(), p.as_slice(), at)
}

/// Whether `pat` stands anywhere in `s`.
pub fn contains(s: &str, pat: &str) -> (r: bool)
    ensures
        r == holds(s@, pat@),
{
    let v = chars_of(s);
    let p = chars_of(pat);
    let found = find_in(v.as_slice(), p.as_slice(), 0);
    proof {
        lemma_find_from(s@, pat@, 0);
    }
    found.is_some()
}

/// Whether `c` occurs in `s`.
pub fn contains_char(s: &str, c: char) -> (r: bool)
    ensures
        r == s@.contains(c),
{
    let v = chars_of(s);
    let mut i: usize = 0;
    while i < v.len()
        invariant
            0 <= i <= v.len(),
            v@ == s@,
            forall|j: int| 0 <= j < i ==> s@[j] != c,
        decreases v.len() - i,
    {
        if v[i] == c {
            return true;
        }
        i = i + 1;
    }
    false
}

/// Splits `s` round the first `pat`.
pub fn split_first(s: &str, pat: &str) -> (r: Option<(String, String)>)
    ensures
        match r {
            Some((a, b)) => split_once(s@, pat@) == Some((a@, b@)),
            None => split_once(s@, pat@) is None,
        },
{
    let v = chars_of(s);
    let p = chars_of(pat);
    let n: usize = v.len();
    match find_in(v.as_slice(), p.as_slice(), 0) {
        Some(i) => {
            let a = string_of(v.as_slice(), 0, i);
            let b = string_of(v.as_slice(), i + p.len(), n);
            assert(a@ =~= s@.take(i as int));
            assert(b@ =~= s@.skip(i + pat@.len()));
            Some((a, b))
        },
        None => None,
    }
}

/// The pieces of `s` between occurrences of `sep`.
pub open spec fn split(s: Seq<char>, sep: char) -> Seq<Seq<char>>
    decreases s.len(),
{
    if s.len() == 0 {
        seq![Seq::<char>::empty()]
    } else {
        let before = split(s.drop_last(), sep);
        if s.last() == sep {
            before.push(Seq::<char>::empty())
        } else {
            before.drop_last().push(before.last().push(s.last()))
        }
    }
}

/// Splits `s` at every `sep`.
pub fn split_on(s: &str, sep: char) -> (parts: Vec<String>)
    ensures
        views(parts@) == split(s@, sep),
        parts@.len() > 0,
{
    let v = chars_of(s);
    let mut parts: Vec<String> = Vec::new();
    let mut cur = String::new();
    let mut i: usize = 0;
    assert(views(parts@).push(cur@) =~= split(s@.take(0), sep));
    while i < v.len()
        invariant
            0 <= i <= v.len(),
            v@ == s@,
            views(parts@).push(cur@) == split(s@.take(i as int), sep),
        decreases v.len() - i,
    {
        let c = v[i];
        let ghost before = views(parts@).push(cur@);
        assert(s@.take(i + 1).drop_last() =~= s@.take(i as int));
        assert(before.drop_last() =~= views(parts@));
        if c == sep {
            proof {
                lemma_views_push(parts@, cur);
            }
            parts.push(cur);
            cur = String::new();
        } else {
            cur.push(c);
        }
        i = i + 1;
    }
    assert(s@.take(s@.len() as int) =~= s@);
    proof {
        lemma_views_push(parts@, cur);
    }
    parts.push(cur);
    parts
}

/// The lines of `s`: a line feed, or a carriage return and a line feed, ends a
/// line, and what follows the last line feed is a line unless it is empty.
pub open spec fn lines(s: Seq<char>) -> Seq<Seq<char>> {
    let parts = split(s, '\n');
    let whole = parts.drop_last().map_values(|p: Seq<char>| without_return(p));
    if parts.last().len() == 0 {
        whole
    } else {
        whole.push(parts.last())
    }
}

pub open spec fn without_return(s: Seq<char>) -> Seq<char> {
    if s.len() > 0 && s.last() == '\r' {
        s.drop_last()
    } else {
        s
    }
}

fn without_return_exec(s: &str) -> (r: String)
    ensures
        r@ == without_return(s@),
{
    let v = chars_of(s);
    let n: usize = if v.len() > 0 && v[v.len() - 1] == '\r' { v.len() - 1 } else { v.len() };
    let r = string_of(v.as_slice(), 0, n);
    assert(r@ =~= without_return(s@));
    r
}

/// Splits `s` into lines.
pub fn lines_of(s: &str) -> (r: Vec<String>)
    ensures
        views(r@) == lines(s@),
{
    let mut parts = split_on(s, '\n');
    let ghost all = split(s@, '\n');
    let ghost whole = all.drop_last().map_values(|p: Seq<char>| without_return(p));
    let last = parts.pop().unwrap();
    assert(views(parts@) =~= all.drop_last());
    assert(last@ == all.last());
    let mut r: Vec<String> = Vec::new();
    let mut i: usize = 0;
    while i < parts.len()
        invariant
            0 <= i <= parts.len(),
            views(parts@) == all.drop_last(),
            whole == all.drop_last().map_values(|p: Seq<char>| without_return(p)),
            views(r@) == whole.take(i as int),
        decreases parts.len() - i,
    {
        let line = without_return_exec(parts[i].as_str());
        assert(views(parts@)[i as int] == parts@[i as int]@);
        proof {
            lemma_views_push(r@, line);
        }
        r.push(line);
        assert(whole.take(i + 1) =~= whole.take(i as int).push(line@));
        i = i + 1;
    }
    assert(whole.take(whole.len() as int) =~= whole);
    if !last.as_str().is_empty() {
        proof {
            lemma_views_push(r@, last);
        }
        r.push(last);
    }
    r
}

/// The pieces joined with `sep` between them.
pub open spec fn join(parts: Seq<Seq<char>>, sep: Seq<char>) -> Seq<char>
    decreases parts.len(),
{
    if parts.len() == 0 {
        Seq::<char>::empty()
    } else if parts.len() == 1 {
        parts[0]
    } else {
        join(parts.drop_last(), sep) + sep + parts.last()
    }
}

/// Joins the pieces with `sep` between them.
pub fn join_with(parts: &[String], sep: &str) -> (s: String)
    ensures
        s@ == join(views(parts@), sep@),
{
    let mut s = String::new();
    let mut i: usize = 0;
    let ghost all = views(parts@);
    assert(all.take(0) =~= Seq::<Seq<char>>::empty());
    while i < parts.len()
        invariant
            0 <= i <= parts@.len(),
            all == views(parts@),
            s@ == join(all.take(i as int), sep@),
        decreases parts@.len() - i,
    {
        let ghost next = all.take(i + 1);
        assert(next.drop_last() =~= all.take(i as int));
        assert(next.last() == parts@[i as int]@);
        if i > 0 {
            s.append(sep);
            s.append(parts[i].as_str());
        } else {
            s.append(parts[i].as_str());
            assert(s@ =~= next[0]);
        }
        i = i + 1;
    }
    assert(all.take(all.len() as int) =~= all);
    s
}

/// White space, as Unicode has it.
pub open spec fn is_white(c: char) -> bool {
    let n = c as int;
    9 <= n <= 13 || n == 0x20 || n == 0x85 || n == 0xa0 || n == 0x1680 || 0x2000 <= n <= 0x200a
        || n == 0x2028 || n == 0x2029 || n == 0x202f || n == 0x205f || n == 0x3000
}

pub fn white(c: char) -> (r: bool)
    ensures
        r == is_white(c),
{
    let n: u32 = c as u32;
    9 <= n && n <= 13 || n == 0x20 || n == 0x85 || n == 0xa0 || n == 0x1680 || 0x2000 <= n && n
        <= 0x200a || n == 0x2028 || n == 0x2029 || n == 0x202f || n == 0x205f || n == 0x3000
}

pub open spec fn trim_start(s: Seq<char>) -> Seq<char>
    decreases s.len(),
{
    if s.len() > 0 && is_white(s[0]) {
        trim_start(s.skip(1))
    } else {
        s
    }
}

pub open spec fn trim_end(s: Seq<char>) -> Seq<char>
    decreases s.len(),
{
    if s.len() > 0 && is_white(s.last()) {
        trim_end(s.drop_last())
    } else {
        s
    }
}

/// `s` without the white space at either end.
pub open spec fn trim(s: Seq<char>) -> Seq<char> {
    trim_end(trim_start(s))
}

fn trim_range(v: &[char]) -> (r: (usize, usize))
    ensures
        r.0 <= r.1 <= v@.len(),
        v@.skip(r.0 as int) == trim_start(v@),
        v@.subrange(r.0 as int, r.1 as int) == trim(v@),
{
    let mut i: usize = 0;
    assert(v@.skip(0) =~= v@);
    while i < v.len() && white(v[i])
        invariant
            0 <= i <= v@.len(),
            trim_start(v@.skip(i as int)) == trim_start(v@),
        decreases v@.len() - i,
    {
        assert(v@.skip(i as int)[0] == v@[i as int]);
        assert(v@.skip(i as int).skip(1) =~= v@.skip(i + 1));
        i = i + 1;
    }
    if i < v.len() {
        assert(v@.skip(i as int)[0] == v@[i as int]);
    }
    let mut j: usize = v.len();
    assert(v@.subrange(i as int, j as int) =~= v@.skip(i as int));
    while i < j && white(v[j - 1])
        invariant
            0 <= i <= j <= v@.len(),
            trim_end(v@.subrange(i as int, j as int)) == trim(v@),
        decreases j,
    {
        assert(v@.subrange(i as int, j as int).last() == v@[j - 1]);
        assert(v@.subrange(i as int, j as int).drop_last() =~= v@.subrange(i as int, j - 1));
        j = j - 1;
    }
    if i < j {
        assert(v@.subrange(i as int, j as int).last() == v@[j - 1]);
    }
    (i, j)
}

/// Removes the white space at either end.
pub fn trimmed(s: &str) -> (r: String)
    ensures
        r@ == trim(s@),
{
    let v = chars_of(s);
    let (i, j) = trim_range(v.as_slice());
    string_of(v.as_slice(), i, j)
}

/// Removes the white space at the start.
pub fn trimmed_start(s: &str) -> (r: String)
    ensures
        r@ == trim_start(s@),
{
    let v = chars_of(s);
    let (i, j) = trim_range(v.as_slice());
    let r = string_of(v.as_slice(), i, v.len());
    assert(r@ =~= v@.skip(i as int));
    r
}

/// Whether nothing but white space stands in `s`.
pub fn blank(s: &str) -> (r: bool)
    ensures
        r == (trim(s@).len() == 0),
{
    trimmed(s).as_str().is_empty()
}

pub open spec fn lower_char(c: char) -> char {
    if 'A' <= c <= 'Z' {
        (c as int + 32) as char
    } else {
        c
    }
}

pub open spec fn upper_char(c: char) -> char {
    if 'a' <= c <= 'z' {
        (c as int - 32) as char
    } else {
        c
    }
}

/// `s` with its ASCII letters in lower case.
pub open spec fn lower(s: Seq<char>) -> Seq<char> {
    s.map_values(|c: char| lower_char(c))
}

/// `s` with its ASCII letters in upper case.
pub open spec fn upper(s: Seq<char>) -> Seq<char> {
    s.map_values(|c: char| upper_char(c))
}

pub fn lowered_char(c: char) -> (r: char)
    ensures
        r == lower_char(c),
{
    if 'A' <= c && c <= 'Z' {
        (c as u8 + 32) as char
    } else {
        c
    }
}

pub fn uppered_char(c: char) -> (r: char)
    ensures
        r == upper_char(c),
{
    if 'a' <= c && c <= 'z' {
        (c as u8 - 32) as char
    } else {
        c
    }
}

/// Puts the ASCII letters in lower case.
pub fn lowered(s: &str) -> (r: String)
    ensures
        r@ == lower(s@),
{
    let v = chars_of(s);
    let mut r = String::new();
    let mut i: usize = 0;
    while i < v.len()
        invariant
            0 <= i <= v.len(),
            v@ == s@,
            r@ == lower(s@).take(i as int),
        decreases v.len() - i,
    {
        r.push(lowered_char(v[i]));
        i = i + 1;
        assert(r@ =~= lower(s@).take(i as int));
    }
    assert(lower(s@).take(s@.len() as int) =~= lower(s@));
    r
}

/// Puts the ASCII letters in upper case.
pub fn uppered(s: &str) -> (r: String)
    ensures
        r@ == upper(s@),
{
    let v = chars_of(s);
    let mut r = String::new();
    let mut i: usize = 0;
    while i < v.len()
        invariant
            0 <= i <= v.len(),
            v@ == s@,
            r@ == upper(s@).take(i as int),
        decreases v.len() - i,
    {
        r.push(uppered_char(v[i]));
        i = i + 1;
        assert(r@ =~= upper(s@).take(i as int));
    }
    assert(upper(s@).take(s@.len() as int) =~= upper(s@));
    r
}

/// Whether two strings are equal but for the case of ASCII letters.
pub fn same_ignoring_case(a: &str, b: &str) -> (r: bool)
    ensures
        r == (lower(a@) == lower(b@)),
{
    same(lowered(a).as_str(), lowered(b).as_str())
}

/// `s` with every `from` turned into `to`.
pub open spec fn swap_char(s: Seq<char>, from: char, to: char) -> Seq<char> {
    s.map_values(|c: char| if c == from { to } else { c })
}

/// Turns every `from` into `to`.
pub fn swapped_char(s: &str, from: char, to: char) -> (r: String)
    ensures
        r@ == swap_char(s@, from, to),
{
    let v = chars_of(s);
    let mut r = String::new();
    let mut i: usize = 0;
    while i < v.len()
        invariant
            0 <= i <= v.len(),
            v@ == s@,
            r@ == swap_char(s@, from, to).take(i as int),
        decreases v.len() - i,
    {
        r.push(if v[i] == from { to } else { v[i] });
        i = i + 1;
        assert(r@ =~= swap_char(s@, from, to).take(i as int));
    }
    assert(swap_char(s@, from, to).take(s@.len() as int) =~= swap_char(s@, from, to));
    r
}

/// `s` with every occurrence of `pat`, taken from the left, turned into `with`.
pub open spec fn replace(s: Seq<char>, pat: Seq<char>, with: Seq<char>) -> Seq<char>
    decreases s.len(),
{
    if pat.len() == 0 || s.len() < pat.len() {
        s
    } else if begins(s, pat) {
        with + replace(s.skip(pat.len() as int), pat, with)
    } else {
        seq![s[0]] + replace(s.skip(1), pat, with)
    }
}

/// Turns every occurrence of `pat` into `with`.
pub fn replaced(s: &str, pat: &str, with: &str) -> (r: String)
    requires
        pat@.len() > 0,
    ensures
        r@ == replace(s@, pat@, with@),
{
    let v = chars_of(s);
    let p = chars_of(pat);
    let mut r = String::new();
    let mut i: usize = 0;
    assert(v@.skip(0) =~= v@);
    assert(r@ + replace(s@, pat@, with@) =~= replace(s@, pat@, with@));
    while i < v.len()
        invariant
            0 <= i <= v.len(),
            v@ == s@,
            p@ == pat@,
            pat@.len() > 0,
            r@ + replace(s@.skip(i as int), pat@, with@) == replace(s@, pat@, with@),
        decreases v.len() - i,
    {
        let ghost rest = s@.skip(i as int);
        let here = stands_at_exec(v.as_slice(), p.as_slice(), i);
        assert(here ==> rest.take(pat@.len() as int) =~= s@.subrange(i as int, i + pat@.len()));
        assert(begins(rest, pat@) ==> rest.take(pat@.len() as int) =~= s@.subrange(
            i as int,
            i + pat@.len(),
        ));
        assert(here == begins(rest, pat@));
        let ghost r0 = r@;
        if here {
            r.append(with);
            assert(rest.skip(pat@.len() as int) =~= s@.skip(i + pat@.len()));
            assert(r0 + (with@ + replace(s@.skip(i + pat@.len()), pat@, with@)) =~= r@ + replace(
                s@.skip(i + pat@.len()),
                pat@,
                with@,
            ));
            i = i + p.len();
        } else {
            r.push(v[i]);
            assert(rest.skip(1) =~= s@.skip(i + 1));
            assert(rest[0] == v@[i as int]);
            proof {
                if rest.len() < pat@.len() {
                    assert(r0 + rest =~= r@ + rest.skip(1));
                } else {
                    assert(r0 + (seq![rest[0]] + replace(s@.skip(i + 1), pat@, with@)) =~= r@ + replace(
                        s@.skip(i + 1),
                        pat@,
                        with@,
                    ));
                }
            }
            i = i + 1;
        }
    }
    assert(s@.skip(i as int) =~= Seq::<char>::empty());
    assert(r@ + Seq::<char>::empty() =~= r@);
    r
}

/// The words of `s` that white space follows, and what stands after the last
/// white space.
pub open spec fn word_scan(s: Seq<char>) -> (Seq<Seq<char>>, Seq<char>)
    decreases s.len(),
{
    if s.len() == 0 {
        (Seq::<Seq<char>>::empty(), Seq::<char>::empty())
    } else {
        let (done, cur) = word_scan(s.drop_last());
        if !is_white(s.last()) {
            (done, cur.push(s.last()))
        } else if cur.len() > 0 {
            (done.push(cur), Seq::<char>::empty())
        } else {
            (done, cur)
        }
    }
}

/// The words of `s`, which white space separates.
pub open spec fn words(s: Seq<char>) -> Seq<Seq<char>> {
    let (done, cur) = word_scan(s);
    if cur.len() > 0 {
        done.push(cur)
    } else {
        done
    }
}

/// Splits `s` into words.
pub fn words_of(s: &str) -> (r: Vec<String>)
    ensures
        views(r@) == words(s@),
{
    let v = chars_of(s);
    let mut r: Vec<String> = Vec::new();
    let mut cur = String::new();
    let mut i: usize = 0;
    assert(views(r@) =~= Seq::<Seq<char>>::empty());
    assert(cur@ =~= Seq::<char>::empty());
    while i < v.len()
        invariant
            0 <= i <= v.len(),
            v@ == s@,
            (views(r@), cur@) == word_scan(s@.take(i as int)),
        decreases v.len() - i,
    {
        let c = v[i];
        assert(s@.take(i + 1).drop_last() =~= s@.take(i as int));
        if !white(c) {
            cur.push(c);
        } else if !cur.as_str().is_empty() {
            proof {
                lemma_views_push(r@, cur);
            }
            r.push(cur);
            cur = String::new();
            assert(cur@ =~= Seq::<char>::empty());
        }
        i = i + 1;
    }
    assert(s@.take(s@.len() as int) =~= s@);
    if !cur.as_str().is_empty() {
        proof {
            lemma_views_push(r@, cur);
        }
        r.push(cur);
    }
    r
}

/// Each line followed by a line feed.
pub open spec fn terminated(file: Seq<Seq<char>>) -> Seq<char>
    decreases file.len(),
{
    if file.len() == 0 {
        Seq::<char>::empty()
    } else {
        terminated(file.drop_last()) + file.last() + seq!['\n']
    }
}

/// Appending text without a separator lengthens the last piece.
pub proof fn lemma_split_append(a: Seq<char>, b: Seq<char>, sep: char)
    requires
        !b.contains(sep),
    ensures
        split(a, sep).len() > 0,
        split(a + b, sep) == split(a, sep).drop_last().push(split(a, sep).last() + b),
    decreases b.len(),
{
    lemma_split_is_not_empty(a, sep);
    let pieces = split(a, sep);
    if b.len() == 0 {
        assert(a + b =~= a);
        assert(pieces.last() + b =~= pieces.last());
        assert(pieces.drop_last().push(pieces.last()) =~= pieces);
    } else {
        let rest = b.drop_last();
        let c = b.last();
        assert(!rest.contains(sep)) by {
            if rest.contains(sep) {
                let i = choose|i: int| 0 <= i < rest.len() && rest[i] == sep;
                assert(b[i] == sep);
            }
        }
        assert(c != sep) by {
            assert(b[b.len() - 1] == c);
        }
        lemma_split_append(a, rest, sep);
        assert((a + b).drop_last() =~= a + rest);
        assert((a + b).last() == c);
        let before = split(a + rest, sep);
        assert(before.drop_last() =~= pieces.drop_last());
        assert((pieces.last() + rest).push(c) =~= pieces.last() + b);
    }
}

pub proof fn lemma_split_is_not_empty(s: Seq<char>, sep: char)
    ensures
        split(s, sep).len() > 0,
    decreases s.len(),
{
    if s.len() > 0 {
        lemma_split_is_not_empty(s.drop_last(), sep);
    }
}

/// Text that ends with the separator has an empty last piece.
pub proof fn lemma_split_push(s: Seq<char>, sep: char)
    ensures
        split(s + seq![sep], sep) == split(s, sep).push(Seq::<char>::empty()),
{
    let t = s + seq![sep];
    assert(t.drop_last() =~= s);
    assert(t.last() == sep);
}

/// Pieces without the separator, joined by it, are split into themselves.
pub proof fn splitting_undoes_joining(parts: Seq<Seq<char>>, sep: char)
    requires
        parts.len() > 0,
        forall|i: int| 0 <= i < parts.len() ==> !(#[trigger] parts[i]).contains(sep),
    ensures
        split(join(parts, seq![sep]), sep) == parts,
    decreases parts.len(),
{
    let none = Seq::<char>::empty();
    if parts.len() == 1 {
        lemma_split_append(none, parts[0], sep);
        assert(none + parts[0] =~= parts[0]);
        assert(split(none, sep) =~= seq![none]);
        assert(seq![none].drop_last().push(none + parts[0]) =~= parts);
    } else {
        let rest = parts.drop_last();
        assert forall|i: int| 0 <= i < rest.len() implies !(#[trigger] rest[i]).contains(sep) by {
            assert(rest[i] == parts[i]);
        }
        splitting_undoes_joining(rest, sep);
        let before = join(rest, seq![sep]);
        lemma_split_push(before, sep);
        assert(!parts[parts.len() - 1].contains(sep));
        lemma_split_append(before + seq![sep], parts.last(), sep);
        assert(rest.push(none).drop_last() =~= rest);
        assert(none + parts.last() =~= parts.last());
        assert(rest.push(parts.last()) =~= parts);
    }
}

pub proof fn lemma_split_terminated(file: Seq<Seq<char>>)
    requires
        forall|i: int| 0 <= i < file.len() ==> !(#[trigger] file[i]).contains('\n'),
    ensures
        split(terminated(file), '\n') == file.push(Seq::<char>::empty()),
    decreases file.len(),
{
    let none = Seq::<char>::empty();
    if file.len() == 0 {
        assert(split(terminated(file), '\n') =~= file.push(none));
    } else {
        let rest = file.drop_last();
        assert forall|i: int| 0 <= i < rest.len() implies !(#[trigger] rest[i]).contains('\n') by {
            assert(rest[i] == file[i]);
        }
        lemma_split_terminated(rest);
        assert(!file[file.len() - 1].contains('\n'));
        lemma_split_append(terminated(rest), file.last(), '\n');
        lemma_split_push(terminated(rest) + file.last(), '\n');
        assert(rest.push(none).drop_last() =~= rest);
        assert(none + file.last() =~= file.last());
        assert(rest.push(file.last()) =~= file);
    }
}

/// Lines that end in a line feed each are read back as they were, where none of them
/// holds a line feed or ends in a carriage return.
pub proof fn terminated_lines_read_back(file: Seq<Seq<char>>)
    requires
        forall|i: int| 0 <= i < file.len() ==> !(#[trigger] file[i]).contains('\n'),
        forall|i: int|
            0 <= i < file.len() ==> (#[trigger] file[i]).len() == 0 || file[i].last() != '\r',
    ensures
        lines(terminated(file)) == file,
{
    lemma_split_terminated(file);
    let parts = split(terminated(file), '\n');
    assert(parts.drop_last() =~= file);
    assert(file.map_values(|p: Seq<char>| without_return(p)) =~= file);
}

/// Whether `a` comes before `b` in the order of their characters.
pub open spec fn less(a: Seq<char>, b: Seq<char>) -> bool
    decreases a.len(),
{
    if b.len() == 0 {
        false
    } else if a.len() == 0 {
        true
    } else if a[0] != b[0] {
        a[0] < b[0]
    } else {
        less(a.skip(1), b.skip(1))
    }
}

/// The order of texts is strict and total.
pub proof fn lemma_less_total(a: Seq<char>, b: Seq<char>)
    ensures
        a == b ==> !less(a, b),
        less(a, b) ==> !less(b, a),
        a != b ==> less(a, b) || less(b, a),
    decreases a.len(),
{
    if a.len() > 0 && b.len() > 0 {
        lemma_less_total(a.skip(1), b.skip(1));
        if a[0] == b[0] && a.skip(1) == b.skip(1) {
            assert(a =~= seq![a[0]] + a.skip(1));
            assert(b =~= seq![b[0]] + b.skip(1));
        }
    } else if a.len() == 0 && b.len() == 0 {
        assert(a =~= b);
    }
}

pub proof fn lemma_less_transitive(a: Seq<char>, b: Seq<char>, c: Seq<char>)
    requires
        less(a, b),
        less(b, c),
    ensures
        less(a, c),
    decreases a.len(),
{
    if a.len() > 0 && b.len() > 0 && c.len() > 0 {
        if a[0] == b[0] && b[0] == c[0] {
            lemma_less_transitive(a.skip(1), b.skip(1), c.skip(1));
        }
    }
}

/// Tells whether `a` comes before `b`.
pub fn comes_before(a: &str, b: &str) -> (r: bool)
    ensures
        r == less(a@, b@),
{
    let x = chars_of(a);
    let y = chars_of(b);
    let mut i: usize = 0;
    assert(a@.skip(0) =~= a@);
    assert(b@.skip(0) =~= b@);
    while i < x.len() && i < y.len()
        invariant
            0 <= i <= x@.len(),
            i <= y@.len(),
            x@ == a@,
            y@ == b@,
            less(a@, b@) == less(a@.skip(i as int), b@.skip(i as int)),
        decreases x@.len() - i,
    {
        assert(a@.skip(i as int)[0] == x@[i as int]);
        assert(b@.skip(i as int)[0] == y@[i as int]);
        assert(a@.skip(i as int).skip(1) =~= a@.skip(i + 1));
        assert(b@.skip(i as int).skip(1) =~= b@.skip(i + 1));
        if x[i] != y[i] {
            return x[i] < y[i];
        }
        i = i + 1;
    }
    i < y.len()
}

} // verus!
