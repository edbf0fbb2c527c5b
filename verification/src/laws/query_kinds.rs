//! Which queries read and which write, by the words that stand in them.

use vstd::prelude::*;

use crate::cypher::{
    is_create, is_delete, is_merge, is_mutation, is_schema, is_set, is_write, normal,
};
use crate::text::{begins, holds, is_white, stands_at, trim, trim_end, trim_start};

verus! {

/// Whether a text has another one in it, from a place on.
pub open spec fn has_at(s: Seq<char>, p: Seq<char>, i: int) -> bool {
    0 <= i && i + p.len() <= s.len() && forall|k: int| 0 <= k < p.len() ==> s[i + k] == #[trigger] p[k]
}

/// Whether a text has another one in it.
pub open spec fn has_in(s: Seq<char>, p: Seq<char>) -> bool {
    exists|i: int| #[trigger] has_at(s, p, i)
}

/// A small letter as the large one, and any other character as it is.
pub open spec fn large(c: char) -> char {
    if 'a' <= c && c <= 'z' {
        ((c as int) - ('a' as int) + ('A' as int)) as char
    } else {
        c
    }
}

/// Whether a query says a text: the text is the query in large letters, without the white space
/// round it.
pub open spec fn says(query: Seq<char>, t: Seq<char>) -> bool {
    exists|a: int, b: int| #[trigger] says_between(query, t, a, b)
}

/// Whether a query says a text between two places.
pub open spec fn says_between(query: Seq<char>, t: Seq<char>, a: int, b: int) -> bool {
    &&& 0 <= a <= b <= query.len()
    &&& t.len() == b - a
    &&& forall|i: int| 0 <= i < a || b <= i < query.len() ==> is_white(#[trigger] query[i])
    &&& a < b ==> !is_white(query[a]) && !is_white(query[b - 1])
    &&& forall|k: int| 0 <= k < t.len() ==> #[trigger] t[k] == large(query[a + k])
}

pub proof fn lemma_trim_start(s: Seq<char>) -> (a: int)
    ensures
        0 <= a <= s.len(),
        trim_start(s) == s.skip(a),
        forall|i: int| 0 <= i < a ==> is_white(#[trigger] s[i]),
        a < s.len() ==> !is_white(s[a]),
    decreases s.len(),
{
    if s.len() > 0 && is_white(s[0]) {
        let rest = s.skip(1);
        let a = lemma_trim_start(rest);
        assert(rest.skip(a) =~= s.skip(a + 1));
        assert forall|i: int| 0 <= i < a + 1 implies is_white(#[trigger] s[i]) by {
            if i > 0 {
                assert(rest[i - 1] == s[i]);
            }
        }
        if a < rest.len() {
            assert(rest[a] == s[a + 1]);
        }
        a + 1
    } else {
        assert(s.skip(0) =~= s);
        0
    }
}

pub proof fn lemma_trim_end(s: Seq<char>) -> (b: int)
    ensures
        0 <= b <= s.len(),
        trim_end(s) == s.take(b),
        forall|i: int| b <= i < s.len() ==> is_white(#[trigger] s[i]),
        b > 0 ==> !is_white(s[b - 1]),
    decreases s.len(),
{
    if s.len() > 0 && is_white(s.last()) {
        let rest = s.drop_last();
        let b = lemma_trim_end(rest);
        assert(rest.take(b) =~= s.take(b));
        assert forall|i: int| b <= i < s.len() implies is_white(#[trigger] s[i]) by {
            if i < rest.len() {
                assert(rest[i] == s[i]);
            }
        }
        if b > 0 {
            assert(rest[b - 1] == s[b - 1]);
        }
        b
    } else {
        assert(s.take(s.len() as int) =~= s);
        s.len() as int
    }
}

/// A text is trimmed of the white space at its two ends and of nothing else: what is left is one
/// piece of it, with white space alone before and behind, and none at its own ends.
pub proof fn trimming_takes_the_ends(s: Seq<char>) -> (r: (int, int))
    ensures
        0 <= r.0 <= r.1 <= s.len(),
        trim(s) == s.subrange(r.0, r.1),
        forall|i: int| 0 <= i < r.0 || r.1 <= i < s.len() ==> is_white(#[trigger] s[i]),
        r.0 < r.1 ==> !is_white(s[r.0]) && !is_white(s[r.1 - 1]),
{
    let a = lemma_trim_start(s);
    let t = s.skip(a);
    let b = lemma_trim_end(t);
    assert(t.take(b) =~= s.subrange(a, a + b));
    assert forall|i: int| 0 <= i < a || a + b <= i < s.len() implies is_white(#[trigger] s[i]) by {
        if i >= a {
            assert(t[i - a] == s[i]);
        }
    }
    if b > 0 {
        assert(t[b - 1] == s[a + b - 1]);
        assert(a < s.len());
    }
    (a, a + b)
}

/// Two texts that differ only in the white space round them are trimmed to the same, and what
/// was trimmed has nothing left to trim.
pub proof fn trimming_forgets_white_space(before: Seq<char>, s: Seq<char>, behind: Seq<char>)
    requires
        forall|i: int| 0 <= i < before.len() ==> is_white(#[trigger] before[i]),
        forall|i: int| 0 <= i < behind.len() ==> is_white(#[trigger] behind[i]),
        s.len() > 0,
        !is_white(s[0]),
        !is_white(s.last()),
    ensures
        trim(before + s + behind) == s,
{
    let t = before + s + behind;
    let (a, b) = trimming_takes_the_ends(t);
    let n = before.len() as int;
    let m = s.len() as int;
    assert(t[n] == s[0] && t[n + m - 1] == s.last());
    assert(a <= n && n + m <= b);
    if a < n {
        assert(t[a] == before[a]);
    }
    if b > n + m {
        assert(t[b - 1] == behind[b - 1 - n - m]);
    }
    assert(t.subrange(a, b) =~= s);
}

/// The words of a query are looked for in what it says.
pub proof fn queries_say_their_words(query: Seq<char>)
    ensures
        says(query, normal(query)),
        forall|t: Seq<char>| says(query, t) ==> t == normal(query),
{
    let (a, b) = trimming_takes_the_ends(query);
    let n = normal(query);
    assert forall|k: int| 0 <= k < n.len() implies #[trigger] n[k] == large(query[a + k]) by {
        assert(trim(query)[k] == query[a + k]);
    }
    assert(says_between(query, n, a, b));
    assert forall|t: Seq<char>| says(query, t) implies t == n by {
        let (c, d) = choose|c: int, d: int| #[trigger] says_between(query, t, c, d);
        if a < b {
            assert(!is_white(query[a]) && !is_white(query[b - 1]));
            assert(c <= a && b <= d);
            assert(c < d);
            assert(!is_white(query[c]) && !is_white(query[d - 1]));
            assert(a <= c && d <= b);
        } else if c < d {
            assert(!is_white(query[c]));
            assert(is_white(query[c]));
        }
        assert(t =~= n);
    }
}

proof fn lemma_begins(s: Seq<char>, p: Seq<char>)
    ensures
        begins(s, p) == has_at(s, p, 0),
{
    if has_at(s, p, 0) {
        assert forall|k: int| 0 <= k < p.len() implies s.take(p.len() as int)[k] == p[k] by {
            assert(s[0 + k] == p[k]);
        }
        assert(s.take(p.len() as int) =~= p);
    }
    if begins(s, p) {
        assert forall|k: int| 0 <= k < p.len() implies s[0 + k] == #[trigger] p[k] by {
            assert(s.take(p.len() as int)[k] == s[k]);
        }
    }
}

proof fn lemma_stands_at(s: Seq<char>, p: Seq<char>, i: int)
    ensures
        stands_at(s, p, i) == has_at(s, p, i),
{
    if has_at(s, p, i) {
        assert forall|k: int| 0 <= k < p.len() implies s.subrange(i, i + p.len())[k] == p[k] by {
            assert(s[i + k] == p[k]);
        }
        assert(s.subrange(i, i + p.len()) =~= p);
    }
    if stands_at(s, p, i) {
        assert forall|k: int| 0 <= k < p.len() implies s[i + k] == #[trigger] p[k] by {
            assert(s.subrange(i, i + p.len())[k] == s[i + k]);
        }
    }
}

/// A text begins with another and holds another where its characters do.
pub proof fn pieces_stand_where_their_characters_do(s: Seq<char>, p: Seq<char>)
    ensures
        begins(s, p) == has_at(s, p, 0),
        holds(s, p) == has_in(s, p),
{
    lemma_begins(s, p);
    if holds(s, p) {
        let i = choose|i: int| stands_at(s, p, i);
        lemma_stands_at(s, p, i);
    }
    if has_in(s, p) {
        let i = choose|i: int| #[trigger] has_at(s, p, i);
        lemma_stands_at(s, p, i);
    }
}

/// A query that matches and then creates, merges, sets, removes or deletes writes data: each of
/// these words is enough, and without any of them a query that matches reads. So does a query
/// that begins neither with matching, creating, merging nor with dropping an index or a
/// constraint.
pub proof fn matching_queries_write_by_their_words(query: Seq<char>, t: Seq<char>)
    requires
        says(query, t),
    ensures
        has_at(t, "MATCH "@, 0) && has_in(t, " CREATE "@) ==> is_write(query) && is_mutation(query),
        has_at(t, "MATCH "@, 0) && has_in(t, " MERGE "@) ==> is_write(query) && is_mutation(query),
        has_at(t, "MATCH "@, 0) && has_in(t, " SET "@) ==> is_write(query) && is_mutation(query),
        has_at(t, "MATCH "@, 0) && has_in(t, " REMOVE "@) ==> is_write(query) && is_mutation(query),
        has_at(t, "MATCH "@, 0) && has_in(t, " DELETE "@) ==> is_write(query) && is_mutation(query),
        has_at(t, "MATCH "@, 0) && !has_in(t, " CREATE "@) && !has_in(t, " MERGE "@) && !has_in(t, " SET "@)
            && !has_in(t, " REMOVE "@) && !has_in(t, " DELETE "@) ==> !is_write(query) && !is_mutation(
            query,
        ),
        !has_at(t, "MATCH "@, 0) && !has_at(t, "CREATE "@, 0) && !has_at(t, "MERGE "@, 0)
            && !has_at(t, "DROP INDEX "@, 0) && !has_at(t, "DROP CONSTRAINT "@, 0) ==> !is_write(
            query,
        ),
{
    queries_say_their_words(query);
    lemma_words(t);
    lemma_first_words(t);
}

/// A query that begins with creating or merging writes; it changes the schema, and no data, where
/// what it creates is an index or a constraint, and so does one that drops them.
pub proof fn queries_write_by_their_first_words(query: Seq<char>, t: Seq<char>)
    requires
        says(query, t),
    ensures
        has_at(t, "CREATE "@, 0) || has_at(t, "MERGE "@, 0) ==> is_write(query),
        has_at(t, "MERGE "@, 0) ==> is_mutation(query) && is_merge(query) && !is_schema(query),
        has_at(t, "CREATE "@, 0) ==> is_mutation(query) == !is_schema(query) && is_create(query)
            == !is_schema(query),
        has_at(t, "CREATE INDEX "@, 0) ==> is_schema(query) && is_write(query),
        has_at(t, "CREATE VECTOR INDEX "@, 0) ==> is_schema(query) && is_write(query),
        has_at(t, "CREATE CONSTRAINT "@, 0) ==> is_schema(query) && is_write(query),
        has_at(t, "DROP INDEX "@, 0) ==> is_schema(query) && is_write(query),
        has_at(t, "DROP CONSTRAINT "@, 0) ==> is_schema(query) && is_write(query),
        is_schema(query) ==> !is_mutation(query) && (has_at(t, "CREATE INDEX "@, 0) || has_at(
            t,
            "CREATE VECTOR INDEX "@,
            0,
        ) || has_at(t, "CREATE CONSTRAINT "@, 0) || has_at(t, "DROP INDEX "@, 0) || has_at(
            t,
            "DROP CONSTRAINT "@,
            0,
        )),
        is_merge(query) ==> has_at(t, "MERGE "@, 0),
        is_create(query) ==> has_at(t, "CREATE "@, 0),
{
    queries_say_their_words(query);
    lemma_words(t);
    lemma_first_words(t);
}

/// A query that matches deletes where it says so, and only sets or removes where it says so and
/// neither creates nor deletes.
pub proof fn matching_queries_set_and_delete_by_their_words(query: Seq<char>, t: Seq<char>)
    requires
        says(query, t),
    ensures
        is_delete(query) <==> has_at(t, "MATCH "@, 0) && has_in(t, " DELETE "@),
        has_at(t, "MATCH "@, 0) && has_in(t, " SET "@) && !has_in(t, " CREATE "@) && !has_in(t, " DELETE "@)
            ==> is_set(query),
        has_at(t, "MATCH "@, 0) && has_in(t, " REMOVE "@) && !has_in(t, " CREATE "@) && !has_in(
            t,
            " DELETE "@,
        ) ==> is_set(query),
        has_in(t, " CREATE "@) || has_in(t, " DELETE "@) || !has_at(t, "MATCH "@, 0) ==> !is_set(query),
        !has_in(t, " SET "@) && !has_in(t, " REMOVE "@) ==> !is_set(query),
{
    queries_say_their_words(query);
    lemma_words(t);
}

/// The kind of a query does not depend on the case of its letters or on the white space round
/// it: queries that say the same are of the same kind.
pub proof fn queries_that_say_the_same_are_of_a_kind(a: Seq<char>, b: Seq<char>, t: Seq<char>)
    requires
        says(a, t),
        says(b, t),
    ensures
        is_write(a) == is_write(b),
        is_schema(a) == is_schema(b),
        is_mutation(a) == is_mutation(b),
        is_create(a) == is_create(b),
        is_merge(a) == is_merge(b),
        is_set(a) == is_set(b),
        is_delete(a) == is_delete(b),
{
    queries_say_their_words(a);
    queries_say_their_words(b);
}

proof fn lemma_words(t: Seq<char>)
    ensures
        begins(t, "MATCH "@) == has_at(t, "MATCH "@, 0),
        begins(t, "CREATE "@) == has_at(t, "CREATE "@, 0),
        begins(t, "MERGE "@) == has_at(t, "MERGE "@, 0),
        begins(t, "CREATE INDEX "@) == has_at(t, "CREATE INDEX "@, 0),
        begins(t, "CREATE VECTOR INDEX "@) == has_at(t, "CREATE VECTOR INDEX "@, 0),
        begins(t, "CREATE CONSTRAINT "@) == has_at(t, "CREATE CONSTRAINT "@, 0),
        begins(t, "DROP INDEX "@) == has_at(t, "DROP INDEX "@, 0),
        begins(t, "DROP CONSTRAINT "@) == has_at(t, "DROP CONSTRAINT "@, 0),
        holds(t, " CREATE "@) == has_in(t, " CREATE "@),
        holds(t, " MERGE "@) == has_in(t, " MERGE "@),
        holds(t, " SET "@) == has_in(t, " SET "@),
        holds(t, " REMOVE "@) == has_in(t, " REMOVE "@),
        holds(t, " DELETE "@) == has_in(t, " DELETE "@),
{
    pieces_stand_where_their_characters_do(t, "MATCH "@);
    pieces_stand_where_their_characters_do(t, "CREATE "@);
    pieces_stand_where_their_characters_do(t, "MERGE "@);
    pieces_stand_where_their_characters_do(t, "CREATE INDEX "@);
    pieces_stand_where_their_characters_do(t, "CREATE VECTOR INDEX "@);
    pieces_stand_where_their_characters_do(t, "CREATE CONSTRAINT "@);
    pieces_stand_where_their_characters_do(t, "DROP INDEX "@);
    pieces_stand_where_their_characters_do(t, "DROP CONSTRAINT "@);
    pieces_stand_where_their_characters_do(t, " CREATE "@);
    pieces_stand_where_their_characters_do(t, " MERGE "@);
    pieces_stand_where_their_characters_do(t, " SET "@);
    pieces_stand_where_their_characters_do(t, " REMOVE "@);
    pieces_stand_where_their_characters_do(t, " DELETE "@);
}

proof fn lemma_longer(t: Seq<char>, long: Seq<char>, short: Seq<char>)
    requires
        has_at(t, long, 0),
        has_at(long, short, 0),
    ensures
        has_at(t, short, 0),
{
    assert forall|k: int| 0 <= k < short.len() implies t[0 + k] == #[trigger] short[k] by {
        assert(long[0 + k] == short[k]);
        assert(t[0 + k] == long[k]);
    }
}

/// What the first words of a text exclude and what they hold.
proof fn lemma_first_words(t: Seq<char>)
    ensures
        has_at(t, "MATCH "@, 0) ==> !has_at(t, "CREATE "@, 0) && !has_at(t, "MERGE "@, 0)
            && !has_at(t, "DROP INDEX "@, 0) && !has_at(t, "DROP CONSTRAINT "@, 0),
        has_at(t, "MERGE "@, 0) ==> !has_at(t, "CREATE "@, 0) && !has_at(t, "DROP INDEX "@, 0)
            && !has_at(t, "DROP CONSTRAINT "@, 0),
        has_at(t, "CREATE "@, 0) ==> !has_at(t, "DROP INDEX "@, 0) && !has_at(
            t,
            "DROP CONSTRAINT "@,
            0,
        ),
        has_at(t, "CREATE INDEX "@, 0) ==> has_at(t, "CREATE "@, 0),
        has_at(t, "CREATE VECTOR INDEX "@, 0) ==> has_at(t, "CREATE "@, 0),
        has_at(t, "CREATE CONSTRAINT "@, 0) ==> has_at(t, "CREATE "@, 0),
{
    reveal_strlit("CREATE INDEX ");
    reveal_strlit("CREATE VECTOR INDEX ");
    reveal_strlit("CREATE CONSTRAINT ");
    reveal_strlit("DROP INDEX ");
    reveal_strlit("DROP CONSTRAINT ");
    reveal_strlit("CREATE ");
    reveal_strlit("MERGE ");
    reveal_strlit("MATCH ");
    assert("CREATE "@[0] == 'C' && "MERGE "@[0] == 'M' && "MATCH "@[0] == 'M');
    assert("MERGE "@[1] == 'E' && "MATCH "@[1] == 'A');
    assert("DROP INDEX "@[0] == 'D' && "DROP CONSTRAINT "@[0] == 'D');
    if has_at(t, "MATCH "@, 0) {
        assert(t[0] == "MATCH "@[0] && t[1] == "MATCH "@[1]);
    }
    if has_at(t, "MERGE "@, 0) {
        assert(t[0] == "MERGE "@[0] && t[1] == "MERGE "@[1]);
    }
    if has_at(t, "CREATE "@, 0) {
        assert(t[0] == "CREATE "@[0]);
    }
    if has_at(t, "DROP INDEX "@, 0) {
        assert(t[0] == "DROP INDEX "@[0]);
    }
    if has_at(t, "DROP CONSTRAINT "@, 0) {
        assert(t[0] == "DROP CONSTRAINT "@[0]);
    }
    assert(has_at("CREATE INDEX "@, "CREATE "@, 0));
    assert(has_at("CREATE VECTOR INDEX "@, "CREATE "@, 0));
    assert(has_at("CREATE CONSTRAINT "@, "CREATE "@, 0));
    if has_at(t, "CREATE INDEX "@, 0) {
        lemma_longer(t, "CREATE INDEX "@, "CREATE "@);
    }
    if has_at(t, "CREATE VECTOR INDEX "@, 0) {
        lemma_longer(t, "CREATE VECTOR INDEX "@, "CREATE "@);
    }
    if has_at(t, "CREATE CONSTRAINT "@, 0) {
        lemma_longer(t, "CREATE CONSTRAINT "@, "CREATE "@);
    }
}

} // verus!
