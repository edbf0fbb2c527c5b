//! What is read out of a query before it is carried out: its database, its parameters, what it
//! changes and where it goes.

use vstd::prelude::*;

use crate::cluster::{
    node_shard, routing_with_params, routing_without_params, QueryRoute, RoutingFacts, ShardStatus,
};
use crate::cypher::{
    after_keyword, conflict_key, is_create, is_merge, is_param_continue, is_param_start, is_schema,
    is_write, lemma_param_end, missing_parameters, names_in_order, param_end, params_named,
    plain_name_end, query_parameters, spaced, split_use, unset, use_clause,
};
use crate::json::number_list;
use crate::laws::query_kinds::{has_at, has_in, large, pieces_stand_where_their_characters_do};
use crate::laws::texts::{
    fronts_and_backs_are_where_they_stand, letters_change_one_by_one,
    texts_are_split_at_the_first_place,
};
use crate::sorting::sort_texts;
use crate::text::{
    begins, dec, is_white, join, lemma_split_once_at_char, lower, split_once, trim_start, words,
};
use crate::value::Val;

verus! {

/// Whether a text is the word `use`, in letters of any size.
pub open spec fn is_use(s: Seq<char>) -> bool {
    &&& s.len() == 3
    &&& s[0] == 'u' || s[0] == 'U'
    &&& s[1] == 's' || s[1] == 'S'
    &&& s[2] == 'e' || s[2] == 'E'
}

/// Whether a text is white space.
pub open spec fn is_blank(s: Seq<char>) -> bool {
    forall|i: int| 0 <= i < s.len() ==> is_white(#[trigger] s[i])
}

/// Whether a text begins with what is no white space.
pub open spec fn starts_at_once(s: Seq<char>) -> bool {
    s.len() > 0 && !is_white(s[0])
}

/// Whether a text can be the name of a database as it is.
pub open spec fn is_plain_name(s: Seq<char>) -> bool {
    &&& s.len() > 0
    &&& s[0] != '`'
    &&& forall|i: int| 0 <= i < s.len() ==> !is_white(#[trigger] s[i]) && s[i] != ';'
}

proof fn lemma_trim_blank(blank: Seq<char>, s: Seq<char>)
    requires
        is_blank(blank),
        s.len() == 0 || !is_white(s[0]),
    ensures
        trim_start(blank + s) == s,
    decreases blank.len(),
{
    let all = blank + s;
    if blank.len() == 0 {
        assert(all =~= s);
    } else {
        assert(all[0] == blank[0]);
        let rest = blank.skip(1);
        assert forall|i: int| 0 <= i < rest.len() implies is_white(#[trigger] rest[i]) by {
            assert(rest[i] == blank[i + 1]);
        }
        assert(all.skip(1) =~= rest + s);
        lemma_trim_blank(rest, s);
    }
}

proof fn lemma_use(word: Seq<char>)
    ensures
        word.len() == 3 ==> (lower(word) == lower("USE"@) <==> is_use(word)),
        "USE"@.len() == 3,
{
    reveal_strlit("USE");
    if word.len() == 3 {
        let a = lower(word);
        let b = lower("USE"@);
        assert(a.len() == 3 && b.len() == 3);
        assert(b[0] == 'u' && b[1] == 's' && b[2] == 'e');
        if is_use(word) {
            assert(a =~= b);
        }
        if a == b {
            assert(a[0] == 'u' && a[1] == 's' && a[2] == 'e');
        }
    }
}

proof fn lemma_after_use(blank: Seq<char>, word: Seq<char>, rest: Seq<char>)
    requires
        is_blank(blank),
        is_use(word),
        rest.len() == 0 || is_white(rest[0]),
    ensures
        after_keyword(trim_start(blank + word + rest), "USE"@) == Some(rest),
{
    let s = word + rest;
    assert(blank + word + rest =~= blank + s);
    assert(s[0] == word[0]);
    lemma_white_letters();
    lemma_trim_blank(blank, s);
    lemma_use(word);
    assert(s.take(3) =~= word);
    assert(s.skip(3) =~= rest);
    if rest.len() > 0 {
        assert(s[3] == rest[0]);
    }
}

proof fn lemma_white_letters()
    ensures
        !is_white('u') && !is_white('U') && !is_white('`') && !is_white(';'),
{
}

proof fn lemma_name_end(name: Seq<char>, rest: Seq<char>, i: int)
    requires
        0 <= i <= name.len(),
        forall|k: int| 0 <= k < name.len() ==> !is_white(#[trigger] name[k]) && name[k] != ';',
        rest.len() == 0 || is_white(rest[0]) || rest[0] == ';',
    ensures
        plain_name_end(name + rest, i) == name.len(),
    decreases name.len() - i,
{
    let s = name + rest;
    if i < name.len() {
        assert(s[i] == name[i]);
        lemma_name_end(name, rest, i + 1);
    } else if rest.len() > 0 {
        assert(s[i] == rest[0]);
    }
}

/// A query that begins with a use of a database goes to that database, without the use of it:
/// between the two stands white space, a semicolon or both.
pub proof fn used_databases_are_split_off(
    a: Seq<char>,
    word: Seq<char>,
    b: Seq<char>,
    name: Seq<char>,
    c: Seq<char>,
    query: Seq<char>,
)
    requires
        is_blank(a) && is_blank(b) && is_blank(c),
        is_use(word),
        b.len() > 0,
        is_plain_name(name),
        starts_at_once(query),
    ensures
        c.len() > 0 && query[0] != ';' ==> split_use(a + word + b + name + c + query, Ok(()))
            == Ok::<_, Seq<char>>((Some(name), query)),
        query[0] != ';' ==> split_use(a + word + b + name + c + seq![';'] + query, Ok(()))
            == Ok::<_, Seq<char>>((Some(name), query)),
{
    reveal_strlit(";");
    if c.len() > 0 && query[0] != ';' {
        let rest = c + query;
        assert(rest[0] == c[0]);
        assert(a + word + b + name + c + query =~= a + word + b + name + rest);
        lemma_used(a, word, b, name, rest, a + word + b + name + c + query);
        lemma_trim_blank(c, query);
        lemma_trim_blank(Seq::empty(), query);
        assert(Seq::<char>::empty() + query =~= query);
        fronts_and_backs_are_where_they_stand(query, ";"@);
        if begins(query, ";"@) {
            assert(query.take(1)[0] == ";"@[0]);
        }
    }
    if query[0] != ';' {
        let tail = seq![';'] + query;
        let rest = c + tail;
        if c.len() > 0 {
            assert(rest[0] == c[0]);
        }
        lemma_white_letters();
        assert(a + word + b + name + c + seq![';'] + query =~= a + word + b + name + rest);
        lemma_used(a, word, b, name, rest, a + word + b + name + c + seq![';'] + query);
        assert(tail[0] == ';');
        lemma_trim_blank(c, tail);
        lemma_trim_blank(Seq::empty(), query);
        assert(Seq::<char>::empty() + query =~= query);
        assert(tail.take(1) =~= ";"@);
        assert(tail.skip(1) =~= query);
    }
}

proof fn lemma_used(
    a: Seq<char>,
    word: Seq<char>,
    b: Seq<char>,
    name: Seq<char>,
    rest: Seq<char>,
    all: Seq<char>,
)
    requires
        is_blank(a) && is_blank(b),
        is_use(word),
        b.len() > 0,
        is_plain_name(name),
        rest.len() == 0 || is_white(rest[0]) || rest[0] == ';',
        all == a + word + b + name + rest,
    ensures
        use_clause(all) == Ok::<_, Seq<char>>(Some((name, trim_start(rest)))),
{
    let said = name + rest;
    let after = b + said;
    assert(after[0] == b[0]);
    assert(all =~= a + word + after);
    lemma_after_use(a, word, after);
    assert(said[0] == name[0]);
    lemma_trim_blank(b, said);
    lemma_name_end(name, rest, 0);
    assert(said.take(name.len() as int) =~= name);
    assert(said.skip(name.len() as int) =~= rest);
}

/// A name in backticks is a database, too, whatever other characters stand in it.
pub proof fn quoted_databases_are_split_off(
    a: Seq<char>,
    word: Seq<char>,
    b: Seq<char>,
    name: Seq<char>,
    c: Seq<char>,
    query: Seq<char>,
)
    requires
        is_blank(a) && is_blank(b) && is_blank(c),
        is_use(word),
        b.len() > 0,
        !name.contains('`'),
        starts_at_once(query),
        query[0] != ';',
    ensures
        split_use(a + word + b + seq!['`'] + name + seq!['`'] + c + query, Ok(())) == Ok::<
            _,
            Seq<char>,
        >((Some(name), query)),
{
    reveal_strlit(";");
    reveal_strlit("`");
    assert("`"@ =~= seq!['`']);
    let rest = c + query;
    let said = seq!['`'] + name + seq!['`'] + rest;
    let after = b + said;
    let all = a + word + b + seq!['`'] + name + seq!['`'] + c + query;
    assert(after[0] == b[0]);
    assert(all =~= a + word + after);
    lemma_after_use(a, word, after);
    assert(said[0] == '`');
    lemma_white_letters();
    lemma_trim_blank(b, said);
    assert(said.skip(1) =~= name + seq!['`'] + rest);
    lemma_split_once_at_char(name, rest, '`');
    lemma_trim_blank(c, query);
    lemma_trim_blank(Seq::empty(), query);
    assert(Seq::<char>::empty() + query =~= query);
    fronts_and_backs_are_where_they_stand(query, ";"@);
    if begins(query, ";"@) {
        assert(query.take(1)[0] == ";"@[0]);
    }
}

/// A query whose first word is not the use of a database stays as it is.
pub proof fn other_queries_stay_as_they_are(
    blank: Seq<char>,
    word: Seq<char>,
    rest: Seq<char>,
    verdict: Result<(), Seq<char>>,
)
    requires
        is_blank(blank),
        word.len() > 0,
        forall|i: int| 0 <= i < word.len() ==> !is_white(#[trigger] word[i]),
        rest.len() == 0 || is_white(rest[0]),
        !is_use(word),
    ensures
        split_use(blank + word + rest, verdict) == Ok::<_, Seq<char>>(
            (None::<Seq<char>>, blank + word + rest),
        ),
{
    let s = word + rest;
    assert(blank + word + rest =~= blank + s);
    assert(s[0] == word[0]);
    lemma_trim_blank(blank, s);
    lemma_use(s.take(3));
    if s.len() >= 3 && is_use(s.take(3)) && (s.len() == 3 || is_white(s[3])) {
        let t = s.take(3);
        if word.len() < 3 {
            assert(s[word.len() as int] == rest[0]);
            assert(t[word.len() as int] == s[word.len() as int]);
            assert(is_white(t[1]) || is_white(t[2]));
            assert(!is_white('s') && !is_white('S') && !is_white('e') && !is_white('E'));
        } else if word.len() > 3 {
            assert(s[3] == word[3]);
        } else {
            assert(t =~= word);
        }
    }
}

/// A database whose name is refused is not asked.
pub proof fn refused_databases_are_not_asked(query: Seq<char>, e: Seq<char>)
    requires
        use_clause(query) is Ok,
        use_clause(query)->Ok_0 is Some,
    ensures
        split_use(query, Err(e)) == Err::<(Option<Seq<char>>, Seq<char>), Seq<char>>(e),
{
}

/// Whether a parameter is named at a place: a dollar sign and then the whole name.
pub open spec fn names_param(s: Seq<char>, i: int, name: Seq<char>) -> bool {
    &&& 0 <= i && i + name.len() < s.len() && name.len() > 0
    &&& s[i] == '$'
    &&& s.subrange(i + 1, i + 1 + name.len()) == name
    &&& is_param_start(name[0])
    &&& forall|k: int| 0 <= k < name.len() ==> is_param_continue(#[trigger] name[k])
    &&& i + 1 + name.len() == s.len() || !is_param_continue(s[i + 1 + name.len()])
}

/// The characters of a parameter's name are letters, digits and underscores; a digit is not the
/// first.
pub proof fn names_of_parameters_are_words(c: char)
    ensures
        is_param_start(c) <==> c == '_' || ('a' <= c && c <= 'z') || ('A' <= c && c <= 'Z'),
        is_param_continue(c) <==> is_param_start(c) || ('0' <= c && c <= '9'),
{
}

proof fn lemma_end_of_param(s: Seq<char>, i: int)
    requires
        0 <= i <= s.len(),
    ensures
        i <= param_end(s, i) <= s.len(),
        forall|k: int| i <= k < param_end(s, i) ==> is_param_continue(#[trigger] s[k]),
        param_end(s, i) < s.len() ==> !is_param_continue(s[param_end(s, i)]),
    decreases s.len() - i,
{
    if i < s.len() && is_param_continue(s[i]) {
        lemma_end_of_param(s, i + 1);
    }
}

/// Whether a text has no quotation marks.
pub open spec fn is_unquoted(s: Seq<char>) -> bool {
    forall|k: int| 0 <= k < s.len() ==> #[trigger] s[k] != '\'' && s[k] != '"'
}

/// Whether a parameter is named from a place on.
pub open spec fn is_named_from(s: Seq<char>, from: int, name: Seq<char>) -> bool {
    exists|i: int| from <= i && #[trigger] names_param(s, i, name)
}

proof fn lemma_params(s: Seq<char>, i: int, found: Map<Seq<char>, ()>, name: Seq<char>)
    requires
        0 <= i,
        is_unquoted(s),
    ensures
        params_named(s, i, None, found).dom().contains(name) <==> found.dom().contains(name)
            || is_named_from(s, i, name),
    decreases s.len() + 1 - i,
{
    if i >= s.len() {
    } else if s[i] == '$' && i + 1 < s.len() && is_param_start(s[i + 1]) {
        lemma_param_end(s, i + 2);
        lemma_end_of_param(s, i + 2);
        let end = param_end(s, i + 2);
        let here = s.subrange(i + 1, end);
        lemma_params(s, end, found.insert(here, ()), name);
        assert(here[0] == s[i + 1]);
        assert forall|k: int| 0 <= k < here.len() implies is_param_continue(#[trigger] here[k]) by {
            assert(here[k] == s[i + 1 + k]);
        }
        assert(names_param(s, i, here));
        if is_named_from(s, i, name) && name != here {
            let p = choose|p: int| i <= p && #[trigger] names_param(s, p, name);
            if p < end {
                if p > i {
                    assert(is_param_continue(s[p]));
                    assert(s[p] == '$');
                } else {
                    lemma_same_param(s, i, name, here);
                }
            }
            assert(is_named_from(s, end, name));
        }
        if is_named_from(s, end, name) {
            let p = choose|p: int| end <= p && #[trigger] names_param(s, p, name);
            assert(is_named_from(s, i, name));
        }
    } else {
        lemma_params(s, i + 1, found, name);
        if is_named_from(s, i, name) {
            let p = choose|p: int| i <= p && #[trigger] names_param(s, p, name);
            if p == i {
                assert(s.subrange(i + 1, i + 1 + name.len())[0] == s[i + 1]);
            }
            assert(is_named_from(s, i + 1, name));
        }
        if is_named_from(s, i + 1, name) {
            let p = choose|p: int| i + 1 <= p && #[trigger] names_param(s, p, name);
            assert(is_named_from(s, i, name));
        }
    }
}

proof fn lemma_same_param(s: Seq<char>, i: int, a: Seq<char>, b: Seq<char>)
    requires
        names_param(s, i, a),
        names_param(s, i, b),
    ensures
        a == b,
{
    if a.len() < b.len() {
        assert(b[a.len() as int] == s.subrange(i + 1, i + 1 + b.len())[a.len() as int]);
        assert(is_param_continue(b[a.len() as int]));
    } else if b.len() < a.len() {
        assert(a[b.len() as int] == s.subrange(i + 1, i + 1 + a.len())[b.len() as int]);
        assert(is_param_continue(a[b.len() as int]));
    }
}

/// The parameters of a query without quotation marks are the names that stand behind a dollar
/// sign in it, each as far as it goes.
pub proof fn parameters_stand_behind_dollar_signs(query: Seq<char>, name: Seq<char>)
    requires
        is_unquoted(query),
    ensures
        query_parameters(query).dom().contains(name) <==> exists|i: int| #[trigger]
            names_param(query, i, name),
{
    lemma_params(query, 0, Map::empty(), name);
    if exists|i: int| #[trigger] names_param(query, i, name) {
        let i = choose|i: int| #[trigger] names_param(query, i, name);
        assert(is_named_from(query, 0, name));
    }
}

/// What stands in quotation marks names no parameter: the scan goes on behind the mark that ends
/// it.
pub proof fn quoted_text_names_nothing(s: Seq<char>, i: int, j: int, found: Map<Seq<char>, ()>)
    requires
        0 <= i < j < s.len(),
        s[i] == '\'' || s[i] == '"',
        s[j] == s[i],
        forall|k: int| i < k < j ==> #[trigger] s[k] != s[i] && s[k] != '\\',
    ensures
        params_named(s, i, None, found) == params_named(s, j + 1, None, found),
{
    lemma_within_quotes(s, i + 1, j, s[i], found);
}

proof fn lemma_within_quotes(s: Seq<char>, k: int, j: int, q: char, found: Map<Seq<char>, ()>)
    requires
        0 <= k <= j < s.len(),
        q == '\'' || q == '"',
        s[j] == q,
        forall|m: int| k <= m < j ==> #[trigger] s[m] != q && s[m] != '\\',
    ensures
        params_named(s, k, Some(q), found) == params_named(s, j + 1, None, found),
    decreases j - k,
{
    if k < j {
        assert(s[k] != q && s[k] != '\\');
        lemma_within_quotes(s, k + 1, j, q, found);
    } else {
        assert(s[k] == q);
    }
}

/// A mark behind a backslash does not end what stands in quotation marks.
pub proof fn escaped_marks_end_nothing(s: Seq<char>, i: int, q: char, found: Map<Seq<char>, ()>)
    requires
        0 <= i < s.len(),
        s[i] == '\\',
    ensures
        params_named(s, i, Some(q), found) == params_named(s, i + 2, Some(q), found),
{
}

/// The parameters that are not given are told in their order, and no others.
pub proof fn parameters_that_are_not_given_are_told(
    names: Seq<Seq<char>>,
    params: Map<Seq<char>, Val>,
    name: Seq<char>,
)
    ensures
        unset(names, params).contains(name) <==> names.contains(name) && !params.dom().contains(
            name,
        ),
    decreases names.len(),
{
    if names.len() > 0 {
        let front = names.drop_last();
        parameters_that_are_not_given_are_told(front, params, name);
        let before = unset(front, params);
        if names.contains(name) {
            let k = choose|k: int| 0 <= k < names.len() && names[k] == name;
            if k < front.len() {
                assert(front[k] == name);
                assert(front.contains(name));
            } else {
                assert(name == names.last());
            }
        }
        if front.contains(name) {
            let k = choose|k: int| 0 <= k < front.len() && front[k] == name;
            assert(names[k] == name);
        }
        assert(names[names.len() - 1] == names.last());
        let now = unset(names, params);
        if !params.dom().contains(names.last()) {
            assert(now == before.push(names.last()));
            assert(now[now.len() - 1] == names.last());
            if before.contains(name) {
                let k = choose|k: int| 0 <= k < before.len() && before[k] == name;
                assert(now[k] == name);
            }
            if now.contains(name) {
                let k = choose|k: int| 0 <= k < now.len() && now[k] == name;
                if k < before.len() {
                    assert(before[k] == name);
                }
            }
        }
    }
}

/// A prepared query can run where every parameter that it names is given.
pub proof fn prepared_queries_run_with_all_their_parameters(
    prepared_id: nat,
    query: Seq<char>,
    params: Map<Seq<char>, Val>,
)
    ensures
        missing_parameters(prepared_id, query, params) is None <==> forall|name: Seq<char>|
            #[trigger] names_in_order(query_parameters(query)).contains(name)
                ==> params.dom().contains(name),
{
    let names = names_in_order(query_parameters(query));
    let missing = unset(names, params);
    if missing.len() > 0 {
        assert(missing.contains(missing[0]));
        parameters_that_are_not_given_are_told(names, params, missing[0]);
    } else {
        assert forall|name: Seq<char>| #[trigger] names.contains(name) implies params.dom().contains(
            name,
        ) by {
            parameters_that_are_not_given_are_told(names, params, name);
        }
    }
}

/// A query that changes what it matches, and neither creates nor merges, has a target; other
/// queries have none.
pub proof fn changes_of_what_was_matched_have_a_target(query: Seq<char>, params: Seq<Seq<char>>)
    ensures
        conflict_key(query, params) is Some <==> {
            let t = spaced(query);
            &&& has_at(t, "MATCH "@, 0)
            &&& has_in(t, " SET "@) || has_in(t, " REMOVE "@) || has_in(t, " DELETE "@)
            &&& !has_in(t, " MERGE "@)
            &&& !has_in(t, " CREATE "@)
        },
{
    let t = spaced(query);
    pieces_stand_where_their_characters_do(t, "MATCH "@);
    pieces_stand_where_their_characters_do(t, " SET "@);
    pieces_stand_where_their_characters_do(t, " REMOVE "@);
    pieces_stand_where_their_characters_do(t, " DELETE "@);
    pieces_stand_where_their_characters_do(t, " MERGE "@);
    pieces_stand_where_their_characters_do(t, " CREATE "@);
}

/// The words of a query are told apart by one blank each, in large letters.
pub proof fn targets_are_told_in_large_words(query: Seq<char>, i: int)
    requires
        0 <= i < join(words(query), " "@).len(),
    ensures
        spaced(query).len() == join(words(query), " "@).len(),
        spaced(query)[i] == large(join(words(query), " "@)[i]),
{
    letters_change_one_by_one(join(words(query), " "@), i);
}

/// The target of a query is what it says up to what it returns, with its parameters: it does not
/// depend on what is returned, nor on the order of the parameters, nor on the size of letters or
/// the white space between words.
pub proof fn targets_are_what_is_said_before_the_return(
    query: Seq<char>,
    other: Seq<char>,
    params: Seq<Seq<char>>,
    same: Seq<Seq<char>>,
    said: Seq<char>,
)
    requires
        conflict_key(query, params) is Some,
        conflict_key(other, same) is Some,
        sort_texts(params) == sort_texts(same),
        !has_in(said, " RETURN "@),
        spaced(query) == said || is_returned(spaced(query), said),
        spaced(other) == said || is_returned(spaced(other), said),
    ensures
        conflict_key(query, params) == conflict_key(other, same),
        conflict_key(query, params) == Some(
            said + "|params="@ + join(sort_texts(params), ","@),
        ),
{
    lemma_said(spaced(query), said);
    lemma_said(spaced(other), said);
}

/// Whether a text is another one with a return behind it, and none before that.
pub open spec fn is_returned(s: Seq<char>, said: Seq<char>) -> bool {
    &&& has_at(s, " RETURN "@, said.len() as int)
    &&& s.take(said.len() as int) == said
    &&& forall|k: int| 0 <= k < said.len() ==> !#[trigger] has_at(s, " RETURN "@, k)
}

proof fn lemma_said(s: Seq<char>, said: Seq<char>)
    requires
        !has_in(said, " RETURN "@),
        s == said || is_returned(s, said),
    ensures
        match split_once(s, " RETURN "@) {
            Some((prefix, _)) => prefix == said,
            None => s == said,
        },
{
    let p = " RETURN "@;
    texts_are_split_at_the_first_place(s, p);
    match split_once(s, p) {
        Some((front, back)) => {
            let at = front.len() as int;
            assert(has_at(s, p, at));
            if s == said {
                assert(has_in(said, p));
            } else {
                assert(!(at < said.len()));
                assert(!(said.len() < at));
                assert(front =~= s.take(at));
            }
        },
        None => {
            if s != said {
                assert(has_at(s, p, said.len() as int));
            }
        },
    }
}

/// Where a query goes is told by what it does: a change of the schema goes to it, a query that
/// reads goes to the shards that it needs, a query that creates or merges goes to the shard of its
/// node, and any other one is told only when it runs.
pub proof fn queries_go_by_what_they_do(query: Seq<char>, facts: RoutingFacts, hash: u64)
    ensures
        is_schema(query) ==> routing_with_params(query, facts, hash) == Ok::<_, Seq<char>>(
            "SCHEMA"@,
        ),
        !is_write(query) && facts.route is Ok && facts.route->Ok_0 is LocalOnly
            ==> routing_with_params(query, facts, hash) == Ok::<_, Seq<char>>("READ_LOCAL"@),
        !is_write(query) ==> (facts.route matches Ok(QueryRoute::RequiresRemoteShards(shards))
            ==> routing_with_params(query, facts, hash) == Ok::<_, Seq<char>>(
            "READ_REMOTE:"@ + number_list(shards@),
        )),
        is_write(query) && !is_schema(query) && !is_create(query) && !is_merge(query)
            ==> routing_with_params(query, facts, hash) == Ok::<_, Seq<char>>(
            "WRITE_TARGET_DYNAMIC"@,
        ),
        is_write(query) && !is_schema(query) && (is_create(query) || is_merge(query)) ==> (
        facts.shards matches Ok(shards) ==> shards@.len() > 0 ==> exists|k: int, m: int|
            #![trigger shards@[k], hash_falls(hash, shards@.len(), k, m)]
            hash_falls(hash, shards@.len(), k, m) && routing_with_params(query, facts, hash)
                == Ok::<_, Seq<char>>("WRITE_SHARD:"@ + dec(shards@[k].shard_id as nat))),
{
    if let Ok(shards) = facts.shards {
        if shards@.len() > 0 {
            let (k, m) = nodes_are_spread_by_their_hash(shards@, hash);
            assert(hash_falls(hash, shards@.len(), k, m));
            assert(shards@[k].shard_id == node_shard(shards@, hash)->Ok_0);
        }
    }
}

/// Whether a hash falls on a place: it is the remainder of the hash by the number of places.
pub open spec fn hash_falls(hash: u64, places: nat, k: int, m: int) -> bool {
    0 <= k < places && 0 <= m && hash == m * places + k
}

/// A node goes to the shard on whose place its hash falls.
pub proof fn nodes_are_spread_by_their_hash(shards: Seq<ShardStatus>, hash: u64) -> (r: (int, int))
    requires
        shards.len() > 0,
    ensures
        hash_falls(hash, shards.len(), r.0, r.1),
        node_shard(shards, hash) == Ok::<_, Seq<char>>(shards[r.0].shard_id),
{
    let n = shards.len() as int;
    let k = (hash as int) % n;
    let m = (hash as int) / n;
    assert(hash == m * n + k && 0 <= k < n && 0 <= m) by (nonlinear_arith)
        requires
            n > 0,
            k == (hash as int) % n,
            m == (hash as int) / n,
            hash >= 0,
    ;
    (k, m)
}

/// A query is told alike with its parameters and without, but for the shard of a node whose
/// properties are parameters.
pub proof fn parameters_decide_the_shard_of_a_node(
    query: Seq<char>,
    facts: RoutingFacts,
    hash: u64,
)
    ensures
        is_write(query) && !is_schema(query) && (is_create(query) || is_merge(query))
            && names_in_order(query_parameters(query)).len() > 0 ==> routing_without_params(
            query,
            facts,
            hash,
        ) == Ok::<_, Seq<char>>("WRITE_SHARD_BY_PARAM"@),
        names_in_order(query_parameters(query)).len() == 0 || is_schema(query) || !is_write(query)
            || !(is_create(query) || is_merge(query)) ==> routing_without_params(query, facts, hash)
            == routing_with_params(query, facts, hash),
{
}

} // verus!
