//! How texts are searched, split, joined, compared and read as numbers.

use vstd::prelude::*;

use crate::laws::json_reading::digits_say;
use crate::laws::query_kinds::has_at;
use crate::text::{
    after_plus, all_digits, begins, digits_value, ends, find_from, is_white, join, lemma_find_from,
    lemma_split_append, lemma_split_is_not_empty, less, lines, lower, number, replace, signed,
    split, split_once, stands_at, upper, without_return, word_scan, words,
};

verus! {

proof fn lemma_stands(s: Seq<char>, p: Seq<char>, i: int)
    ensures
        stands_at(s, p, i) <==> has_at(s, p, i),
{
    if stands_at(s, p, i) {
        let t = s.subrange(i, i + p.len());
        assert forall|k: int| 0 <= k < p.len() implies s[i + k] == #[trigger] p[k] by {
            assert(t[k] == s[i + k]);
        }
    }
    if has_at(s, p, i) {
        assert(s.subrange(i, i + p.len()) =~= p);
    }
}

/// A text begins with the characters of another one, or ends with them, where they stand at its
/// front, or at its back.
pub proof fn fronts_and_backs_are_where_they_stand(s: Seq<char>, p: Seq<char>)
    ensures
        begins(s, p) <==> has_at(s, p, 0),
        ends(s, p) <==> has_at(s, p, s.len() - p.len()),
{
    if begins(s, p) {
        let t = s.take(p.len() as int);
        assert forall|k: int| 0 <= k < p.len() implies s[0 + k] == #[trigger] p[k] by {
            assert(t[k] == s[k]);
        }
    }
    if has_at(s, p, 0) {
        assert forall|k: int| 0 <= k < p.len() implies s[k] == #[trigger] p[k] by {
            assert(s[0 + k] == p[k]);
        }
        assert(s.take(p.len() as int) =~= p);
    }
    let n = s.len() - p.len();
    if ends(s, p) {
        let t = s.skip(n);
        assert forall|k: int| 0 <= k < p.len() implies s[n + k] == #[trigger] p[k] by {
            assert(t[k] == s[n + k]);
        }
    }
    if has_at(s, p, n) {
        assert(s.skip(n) =~= p);
    }
}

/// A text is found at the first place where it stands, and nowhere only if it stands nowhere.
pub proof fn texts_are_found_at_the_first_place(s: Seq<char>, p: Seq<char>, i: int)
    requires
        0 <= i,
    ensures
        match find_from(s, p, i) {
            Some(at) => i <= at && has_at(s, p, at) && forall|k: int|
                i <= k < at ==> !#[trigger] has_at(s, p, k),
            None => forall|k: int| i <= k ==> !#[trigger] has_at(s, p, k),
        },
{
    lemma_find_from(s, p, i);
    assert forall|k: int| #[trigger] has_at(s, p, k) implies stands_at(s, p, k) by {
        lemma_stands(s, p, k);
    }
    if let Some(at) = find_from(s, p, i) {
        lemma_stands(s, p, at);
    }
}

/// A text that is split once is cut where the separator first stands: what stands before it and
/// what stands behind it make up the text again, and it does not stand any earlier.
pub proof fn texts_are_split_at_the_first_place(s: Seq<char>, p: Seq<char>)
    ensures
        match split_once(s, p) {
            Some((front, back)) => s == front + p + back && forall|k: int|
                0 <= k < front.len() ==> !#[trigger] has_at(s, p, k),
            None => forall|k: int| !#[trigger] has_at(s, p, k),
        },
{
    texts_are_found_at_the_first_place(s, p, 0);
    if let Some(at) = find_from(s, p, 0) {
        lemma_stands(s, p, at);
        assert(s.subrange(at, at + p.len()) == p);
        assert(s =~= s.take(at) + p + s.skip(at + p.len())) by {
            assert forall|k: int| 0 <= k < p.len() implies s[at + k] == p[k] by {
                assert(s[at + k] == p[k]);
            }
        }
    }
}

/// The parts of a split text hold the separator nowhere, and joined by it they are the text.
pub proof fn parts_make_up_the_text(s: Seq<char>, sep: char)
    ensures
        split(s, sep).len() > 0,
        forall|i: int| 0 <= i < split(s, sep).len() ==> !(#[trigger] split(s, sep)[i]).contains(sep),
        join(split(s, sep), seq![sep]) == s,
    decreases s.len(),
{
    let parts = split(s, sep);
    if s.len() == 0 {
        assert(join(parts, seq![sep]) =~= s);
    } else {
        let front = s.drop_last();
        let before = split(front, sep);
        parts_make_up_the_text(front, sep);
        if s.last() == sep {
            assert(parts.drop_last() =~= before);
            assert(join(parts, seq![sep]) =~= s);
            assert forall|i: int| 0 <= i < parts.len() implies !(#[trigger] parts[i]).contains(
                sep,
            ) by {
                if i < before.len() {
                    assert(parts[i] == before[i]);
                }
            }
        } else {
            let last = before.last().push(s.last());
            assert(parts.last() == last);
            assert(parts.drop_last() =~= before.drop_last());
            assert forall|i: int| 0 <= i < parts.len() implies !(#[trigger] parts[i]).contains(
                sep,
            ) by {
                if i < before.len() - 1 {
                    assert(parts[i] == before[i]);
                } else {
                    assert(!before[before.len() - 1].contains(sep));
                    if last.contains(sep) {
                        let k = choose|k: int| 0 <= k < last.len() && last[k] == sep;
                        assert(before.last()[k] == sep);
                    }
                }
            }
            assert(front.push(s.last()) =~= s);
            let one = seq![sep];
            if before.len() == 1 {
                assert(join(before, one) == before[0]);
                assert(parts[0] == last);
                assert(join(parts, one) == last);
            } else {
                assert(join(before, one) == join(before.drop_last(), one) + one + before.last());
                assert(join(parts, one) == join(parts.drop_last(), one) + one + last);
                assert(join(parts, one) =~= join(before, one).push(s.last()));
            }
        }
    }
}

/// Joining two lists puts the separator once between them; one part stays as it is.
pub proof fn joining_puts_the_separator_between(
    a: Seq<Seq<char>>,
    b: Seq<Seq<char>>,
    x: Seq<char>,
    sep: Seq<char>,
)
    requires
        a.len() > 0,
        b.len() > 0,
    ensures
        join(a + b, sep) == join(a, sep) + sep + join(b, sep),
        join(seq![x], sep) == x,
        join(Seq::empty(), sep) == Seq::<char>::empty(),
    decreases b.len(),
{
    let all = a + b;
    assert(all.last() == b.last());
    if b.len() == 1 {
        assert(all.drop_last() =~= a);
        assert(join(all, sep) =~= join(a, sep) + sep + join(b, sep));
    } else {
        assert(all.drop_last() =~= a + b.drop_last());
        joining_puts_the_separator_between(a, b.drop_last(), x, sep);
        assert(join(all, sep) =~= join(a, sep) + sep + join(b, sep));
    }
}

/// Whether a text has no white space in it.
pub open spec fn is_one_word(s: Seq<char>) -> bool {
    s.len() > 0 && forall|i: int| 0 <= i < s.len() ==> !is_white(#[trigger] s[i])
}

proof fn lemma_word_scan(s: Seq<char>)
    ensures
        s.len() > 0 && is_white(s.last()) ==> word_scan(s).1.len() == 0 && word_scan(s).0 == words(
            s.drop_last(),
        ),
{
}

proof fn lemma_words_apart(a: Seq<char>, w: char, b: Seq<char>)
    requires
        is_white(w),
    ensures
        word_scan(a + seq![w] + b).0 == words(a) + word_scan(b).0,
        word_scan(a + seq![w] + b).1 == word_scan(b).1,
    decreases b.len(),
{
    let s = a + seq![w] + b;
    if b.len() == 0 {
        assert(s.drop_last() =~= a);
        assert(s.last() == w);
        assert(word_scan(s).0 =~= words(a) + word_scan(b).0);
    } else {
        assert(s.last() == b.last());
        assert(s.drop_last() =~= a + seq![w] + b.drop_last());
        lemma_words_apart(a, w, b.drop_last());
        assert(word_scan(s).0 =~= words(a) + word_scan(b).0);
    }
}

proof fn lemma_one_word(s: Seq<char>)
    requires
        forall|i: int| 0 <= i < s.len() ==> !is_white(#[trigger] s[i]),
    ensures
        word_scan(s).0.len() == 0,
        word_scan(s).1 == s,
    decreases s.len(),
{
    if s.len() > 0 {
        let front = s.drop_last();
        assert forall|i: int| 0 <= i < front.len() implies !is_white(#[trigger] front[i]) by {
            assert(front[i] == s[i]);
        }
        lemma_one_word(front);
        assert(!is_white(s[s.len() - 1]));
        assert(front.push(s.last()) =~= s);
    }
}

/// White space parts the words: what stands before it and what stands behind it have their words
/// each, a text without white space is one word, and an empty text has none.
pub proof fn white_space_parts_the_words(a: Seq<char>, w: char, b: Seq<char>, s: Seq<char>)
    requires
        is_white(w),
        is_one_word(s),
    ensures
        words(a + seq![w] + b) == words(a) + words(b),
        words(s) == seq![s],
        words(Seq::empty()) == Seq::<Seq<char>>::empty(),
{
    lemma_words_apart(a, w, b);
    lemma_one_word(s);
    assert(words(a + seq![w] + b) =~= words(a) + words(b));
    assert(words(s) =~= seq![s]);
}

proof fn lemma_replace_nothing(s: Seq<char>, p: Seq<char>, with: Seq<char>)
    requires
        p.len() > 0,
        forall|k: int| !#[trigger] has_at(s, p, k),
    ensures
        replace(s, p, with) == s,
    decreases s.len(),
{
    fronts_and_backs_are_where_they_stand(s, p);
    assert(!has_at(s, p, 0));
    if s.len() >= p.len() {
        let rest = s.skip(1);
        assert forall|k: int| !#[trigger] has_at(rest, p, k) by {
            if has_at(rest, p, k) {
                assert forall|j: int| 0 <= j < p.len() implies s[k + 1 + j] == #[trigger] p[j] by {
                    assert(rest[k + j] == p[j]);
                }
                assert(has_at(s, p, k + 1));
            }
        }
        lemma_replace_nothing(rest, p, with);
        assert(seq![s[0]] + rest =~= s);
    }
}

proof fn lemma_replace_first(s: Seq<char>, p: Seq<char>, with: Seq<char>, at: int)
    requires
        p.len() > 0,
        has_at(s, p, at),
        forall|k: int| 0 <= k < at ==> !#[trigger] has_at(s, p, k),
    ensures
        replace(s, p, with) == s.take(at) + with + replace(s.skip(at + p.len()), p, with),
    decreases s.len(),
{
    fronts_and_backs_are_where_they_stand(s, p);
    if at == 0 {
        assert(s.take(0) + with =~= with);
    } else {
        assert(!has_at(s, p, 0));
        let rest = s.skip(1);
        assert forall|j: int| 0 <= j < p.len() implies rest[at - 1 + j] == #[trigger] p[j] by {
            assert(s[at + j] == p[j]);
        }
        assert forall|k: int| 0 <= k < at - 1 implies !#[trigger] has_at(rest, p, k) by {
            if has_at(rest, p, k) {
                assert forall|j: int| 0 <= j < p.len() implies s[k + 1 + j] == #[trigger] p[j] by {
                    assert(rest[k + j] == p[j]);
                }
                assert(has_at(s, p, k + 1));
            }
        }
        lemma_replace_first(rest, p, with, at - 1);
        assert(rest.skip(at - 1 + p.len()) =~= s.skip(at + p.len()));
        assert(seq![s[0]] + rest.take(at - 1) =~= s.take(at));
        assert(replace(s, p, with) =~= s.take(at) + with + replace(
            s.skip(at + p.len()),
            p,
            with,
        ));
    }
}

/// A text is replaced at the first place where it stands, and then in what stands behind that;
/// where it stands nowhere, nothing is replaced.
pub proof fn texts_are_replaced_from_the_front(
    s: Seq<char>,
    p: Seq<char>,
    with: Seq<char>,
    at: int,
)
    requires
        p.len() > 0,
    ensures
        (forall|k: int| !#[trigger] has_at(s, p, k)) ==> replace(s, p, with) == s,
        has_at(s, p, at) && (forall|k: int| 0 <= k < at ==> !#[trigger] has_at(s, p, k))
            ==> replace(s, p, with) == s.take(at) + with + replace(s.skip(at + p.len()), p, with),
{
    if forall|k: int| !#[trigger] has_at(s, p, k) {
        lemma_replace_nothing(s, p, with);
    }
    if has_at(s, p, at) && (forall|k: int| 0 <= k < at ==> !#[trigger] has_at(s, p, k)) {
        lemma_replace_first(s, p, with, at);
    }
}

/// Letters become small, or large, one by one, and nothing else changes.
pub proof fn letters_change_one_by_one(s: Seq<char>, i: int)
    requires
        0 <= i < s.len(),
    ensures
        lower(s).len() == s.len() && upper(s).len() == s.len(),
        'A' <= s[i] <= 'Z' ==> (lower(s)[i] as int) - (s[i] as int) == ('a' as int) - ('A' as int),
        !('A' <= s[i] <= 'Z') ==> lower(s)[i] == s[i],
        'a' <= s[i] <= 'z' ==> (s[i] as int) - (upper(s)[i] as int) == ('a' as int) - ('A' as int),
        !('a' <= s[i] <= 'z') ==> upper(s)[i] == s[i],
{
}

/// Whether texts are equal up to a place, and the first is smaller there or ends there.
pub open spec fn is_smaller_at(a: Seq<char>, b: Seq<char>, i: int) -> bool {
    &&& 0 <= i <= a.len() && i < b.len()
    &&& forall|k: int| 0 <= k < i ==> a[k] == #[trigger] b[k]
    &&& i < a.len() ==> a[i] < b[i]
}

/// Texts are ordered by the first character in which they differ; a text comes before those that
/// it begins.
pub proof fn first_difference_orders_texts(a: Seq<char>, b: Seq<char>)
    ensures
        less(a, b) <==> exists|i: int| #[trigger] is_smaller_at(a, b, i),
    decreases a.len(),
{
    if b.len() == 0 {
    } else if a.len() == 0 {
        assert(is_smaller_at(a, b, 0));
    } else if a[0] != b[0] {
        if a[0] < b[0] {
            assert(is_smaller_at(a, b, 0));
        }
        if exists|i: int| #[trigger] is_smaller_at(a, b, i) {
            let i = choose|i: int| #[trigger] is_smaller_at(a, b, i);
            if i > 0 {
                assert(a[0] == b[0]);
            }
        }
    } else {
        let x = a.skip(1);
        let y = b.skip(1);
        first_difference_orders_texts(x, y);
        if less(x, y) {
            let i = choose|i: int| #[trigger] is_smaller_at(x, y, i);
            assert forall|k: int| 0 <= k < i + 1 implies a[k] == #[trigger] b[k] by {
                if k > 0 {
                    assert(x[k - 1] == y[k - 1]);
                }
            }
            assert(is_smaller_at(a, b, i + 1));
        }
        if exists|i: int| #[trigger] is_smaller_at(a, b, i) {
            let i = choose|i: int| #[trigger] is_smaller_at(a, b, i);
            assert(i > 0);
            assert forall|k: int| 0 <= k < i - 1 implies x[k] == #[trigger] y[k] by {
                assert(a[k + 1] == b[k + 1]);
            }
            assert(is_smaller_at(x, y, i - 1));
        }
    }
}

/// Whether a text is made of digits.
pub open spec fn is_decimal(s: Seq<char>) -> bool {
    s.len() > 0 && forall|i: int| 0 <= i < s.len() ==> '0' <= #[trigger] s[i] <= '9'
}

proof fn lemma_digits(s: Seq<char>)
    requires
        all_digits(s),
    ensures
        digits_value(s) == digits_say(s),
    decreases s.len(),
{
    if s.len() > 0 {
        let front = s.drop_last();
        assert forall|i: int| 0 <= i < front.len() implies crate::text::is_digit(
            #[trigger] front[i],
        ) by {
            assert(front[i] == s[i]);
        }
        assert(crate::text::is_digit(s[s.len() - 1]));
        lemma_digits(front);
    }
}

/// A number is read from digits, with a sign in front or without, if it is not too great, and from
/// nothing else.
pub proof fn numbers_are_read_from_digits(s: Seq<char>, max: nat)
    ensures
        is_decimal(s) && digits_say(s) <= max ==> number(s, max) == Some(digits_say(s) as nat),
        s.len() > 0 && s[0] == '+' && is_decimal(s.skip(1)) && digits_say(s.skip(1)) <= max
            ==> number(s, max) == Some(digits_say(s.skip(1)) as nat),
        number(s, max) is Some ==> number(s, max).unwrap() <= max && (is_decimal(s) || (s.len() > 0
            && s[0] == '+' && is_decimal(s.skip(1)))),
{
    let body = after_plus(s);
    if s.len() > 0 && is_decimal(s) {
        assert('0' <= s[0]);
        assert(body == s);
    }
    assert(is_decimal(body) <==> body.len() > 0 && all_digits(body)) by {
        if is_decimal(body) {
            assert(all_digits(body));
        }
        if body.len() > 0 && all_digits(body) {
            assert forall|i: int| 0 <= i < body.len() implies '0' <= #[trigger] body[i]
                <= '9' by {
                assert(crate::text::is_digit(body[i]));
            }
        }
    }
    if all_digits(body) {
        lemma_digits(body);
    }
}

/// A whole number is read from digits, and from digits with a minus in front as its opposite.
pub proof fn whole_numbers_are_read_with_their_sign(s: Seq<char>)
    ensures
        is_decimal(s) && digits_say(s) <= i64::MAX ==> signed(s) == Some(digits_say(s)),
        is_decimal(s) && digits_say(s) <= -(i64::MIN as int) ==> signed(seq!['-'] + s) == Some(
            -digits_say(s),
        ),
        signed(s) is Some ==> i64::MIN <= signed(s).unwrap() <= i64::MAX,
{
    numbers_are_read_from_digits(s, i64::MAX as nat);
    if is_decimal(s) {
        assert('0' <= s[0]);
        assert(all_digits(s));
        lemma_digits(s);
        let t = seq!['-'] + s;
        assert(t.skip(1) =~= s);
    }
}

/// A text of lines is read line by line: a line ends where a line feed stands, with or without a
/// return before it, and what stands behind the last line feed is a line unless it is empty.
pub proof fn line_feeds_end_the_lines(a: Seq<char>, b: Seq<char>)
    requires
        !b.contains('\n'),
    ensures
        lines(a + seq!['\n'] + b) == lines(a + seq!['\n']) + (if b.len() == 0 {
            Seq::empty()
        } else {
            seq![b]
        }),
        !a.contains('\n') ==> lines(a + seq!['\n']) == seq![without_return(a)],
        without_return(a.push('\r')) == a,
        a.len() == 0 || a.last() != '\r' ==> without_return(a) == a,
        lines(Seq::empty()) == Seq::<Seq<char>>::empty(),
{
    let n = seq!['\n'];
    let parts = split(a + n, '\n');
    assert((a + n).drop_last() =~= a);
    lemma_split_is_not_empty(a, '\n');
    lemma_split_append(a + n, b, '\n');
    let whole = split(a + n + b, '\n');
    assert(parts.last() =~= Seq::<char>::empty());
    assert(whole.last() =~= b);
    assert(whole.drop_last() =~= parts.drop_last());
    assert(a + n + b =~= a + n + b);
    assert(lines(a + n + b) =~= lines(a + n) + (if b.len() == 0 {
        Seq::empty()
    } else {
        seq![b]
    }));
    if !a.contains('\n') {
        let none = Seq::<char>::empty();
        lemma_split_append(none, a, '\n');
        assert(none + a =~= a);
        assert(split(a, '\n') =~= seq![a]);
        assert(parts =~= seq![a, none]);
        assert(lines(a + n) =~= seq![without_return(a)]);
    }
    assert(a.push('\r').drop_last() =~= a);
    let empty = Seq::<char>::empty();
    assert(split(empty, '\n') =~= seq![empty]);
    assert(lines(empty) =~= Seq::<Seq<char>>::empty());
}

} // verus!
