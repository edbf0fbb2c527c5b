//! What a query says about itself: whether it reads or writes, which database and which
//! parameters it names.

use vstd::prelude::*;

use crate::sorting::{sort_strings, sort_texts};
use crate::text::{
    begins, cat3, chars_of, contains, holds, is_white, join, join_with, lemma_views_push, lower,
    same_ignoring_case, split_first, split_once, starts_with, string_of, strip_prefix, trim,
    trim_start, trimmed, trimmed_start, upper, uppered, views, white, words, words_of,
};
use crate::text_table::{by_name, lemma_by_name, TextTable};
use crate::value::{QueryParams, Val};

verus! {

/// A query in upper case without the white space round it.
pub open spec fn normal(query: Seq<char>) -> Seq<char> {
    upper(trim(query))
}

fn normalized(query: &str) -> (r: String)
    ensures
        r@ == normal(query@),
{
    uppered(trimmed(query).as_str())
}

/// Whether a query changes the schema.
pub open spec fn is_schema(query: Seq<char>) -> bool {
    let q = normal(query);
    begins(q, "CREATE INDEX "@) || begins(q, "CREATE VECTOR INDEX "@) || begins(
        q,
        "CREATE CONSTRAINT "@,
    ) || begins(q, "DROP INDEX "@) || begins(q, "DROP CONSTRAINT "@)
}

/// Whether a query matches and then changes what it found.
pub open spec fn is_matching_write(query: Seq<char>) -> bool {
    let q = normal(query);
    begins(q, "MATCH "@) && (holds(q, " CREATE "@) || holds(q, " MERGE "@) || holds(q, " SET "@)
        || holds(q, " REMOVE "@) || holds(q, " DELETE "@))
}

/// Whether a query changes data.
pub open spec fn is_mutation(query: Seq<char>) -> bool {
    !is_schema(query) && (begins(normal(query), "CREATE "@) || begins(normal(query), "MERGE "@)
        || is_matching_write(query))
}

/// Whether a query writes, data or schema.
pub open spec fn is_write(query: Seq<char>) -> bool {
    is_schema(query) || is_mutation(query)
}

/// Whether a query creates without matching first.
pub open spec fn is_create(query: Seq<char>) -> bool {
    let q = normal(query);
    begins(q, "CREATE "@) && !begins(q, "CREATE INDEX "@) && !begins(q, "CREATE VECTOR INDEX "@)
        && !begins(q, "CREATE CONSTRAINT "@)
}

/// Whether a query merges without matching first.
pub open spec fn is_merge(query: Seq<char>) -> bool {
    begins(normal(query), "MERGE "@)
}

/// Whether a query matches and deletes.
pub open spec fn is_delete(query: Seq<char>) -> bool {
    let q = normal(query);
    begins(q, "MATCH "@) && holds(q, " DELETE "@)
}

/// Whether a query matches and only sets or removes.
pub open spec fn is_set(query: Seq<char>) -> bool {
    let q = normal(query);
    begins(q, "MATCH "@) && (holds(q, " SET "@) || holds(q, " REMOVE "@)) && !holds(
        q,
        " CREATE "@,
    ) && !holds(q, " DELETE "@)
}

fn schema_text(q: &str) -> (r: bool)
    ensures
        r == (begins(q@, "CREATE INDEX "@) || begins(q@, "CREATE VECTOR INDEX "@) || begins(
            q@,
            "CREATE CONSTRAINT "@,
        ) || begins(q@, "DROP INDEX "@) || begins(q@, "DROP CONSTRAINT "@)),
{
    starts_with(q, "CREATE INDEX ") || starts_with(q, "CREATE VECTOR INDEX ") || starts_with(
        q,
        "CREATE CONSTRAINT ",
    ) || starts_with(q, "DROP INDEX ") || starts_with(q, "DROP CONSTRAINT ")
}

fn matching_write_text(q: &str) -> (r: bool)
    ensures
        r == (begins(q@, "MATCH "@) && (holds(q@, " CREATE "@) || holds(q@, " MERGE "@) || holds(
            q@,
            " SET "@,
        ) || holds(q@, " REMOVE "@) || holds(q@, " DELETE "@))),
{
    starts_with(q, "MATCH ") && (contains(q, " CREATE ") || contains(q, " MERGE ") || contains(
        q,
        " SET ",
    ) || contains(q, " REMOVE ") || contains(q, " DELETE "))
}

/// Tells whether a query changes the schema.
pub fn is_schema_cypher(query: &str) -> (r: bool)
    ensures
        r == is_schema(query@),
{
    schema_text(normalized(query).as_str())
}

/// Tells whether a query writes, data or schema.
pub fn is_write_cypher(query: &str) -> (r: bool)
    ensures
        r == is_write(query@),
{
    let q = normalized(query);
    schema_text(q.as_str()) || starts_with(q.as_str(), "CREATE ") || starts_with(
        q.as_str(),
        "MERGE ",
    ) || matching_write_text(q.as_str())
}

/// Tells whether a query creates without matching first.
pub fn is_create_node_cypher(query: &str) -> (r: bool)
    ensures
        r == is_create(query@),
{
    let q = normalized(query);
    starts_with(q.as_str(), "CREATE ") && !starts_with(q.as_str(), "CREATE INDEX ")
        && !starts_with(q.as_str(), "CREATE VECTOR INDEX ") && !starts_with(
        q.as_str(),
        "CREATE CONSTRAINT ",
    )
}

/// Tells whether a query merges without matching first.
pub fn is_merge_node_cypher(query: &str) -> (r: bool)
    ensures
        r == is_merge(query@),
{
    starts_with(normalized(query).as_str(), "MERGE ")
}

/// Tells whether a query matches and deletes.
pub fn is_delete_cypher(query: &str) -> (r: bool)
    ensures
        r == is_delete(query@),
{
    let q = normalized(query);
    starts_with(q.as_str(), "MATCH ") && contains(q.as_str(), " DELETE ")
}

/// Tells whether a query matches and only sets or removes.
pub fn is_batchable_transaction_set_cypher(query: &str) -> (r: bool)
    ensures
        r == is_set(query@),
{
    let q = normalized(query);
    starts_with(q.as_str(), "MATCH ") && (contains(q.as_str(), " SET ") || contains(
        q.as_str(),
        " REMOVE ",
    )) && !contains(q.as_str(), " CREATE ") && !contains(q.as_str(), " DELETE ")
}

/// Tells whether a query may change several shards at once in a transaction.
pub fn is_batchable_multi_target_transaction_cypher(query: &str) -> (r: bool)
    ensures
        r == (is_set(query@) || is_delete(query@)),
{
    is_batchable_transaction_set_cypher(query) || is_delete_cypher(query)
}

/// Tells whether a query changes data, so that it can be prepared on a shard.
pub fn is_batchable_cypher_mutation(query: &str) -> (r: bool)
    ensures
        r == is_mutation(query@),
{
    let q = normalized(query);
    if schema_text(q.as_str()) {
        return false;
    }
    starts_with(q.as_str(), "CREATE ") || is_merge_node_cypher(query) || matching_write_text(
        q.as_str(),
    )
}

/// Tells whether a query changes data, so that it can be laid over what a transaction reads.
pub fn is_staged_transaction_overlay_cypher(query: &str) -> (r: bool)
    ensures
        r == is_mutation(query@),
{
    let q = normalized(query);
    if schema_text(q.as_str()) {
        return false;
    }
    starts_with(q.as_str(), "CREATE ") || starts_with(q.as_str(), "MERGE ")
        || matching_write_text(q.as_str())
}

/// The kinds of a query exclude one another: a query that creates, merges, or matches and
/// sets or deletes is a write, and is no change of the schema.
pub proof fn kinds_of_writes(query: Seq<char>)
    ensures
        is_create(query) ==> is_write(query) && !is_schema(query),
        is_merge(query) ==> is_write(query) && !is_schema(query),
        is_set(query) || is_delete(query) ==> is_mutation(query) && !is_schema(query),
        is_mutation(query) ==> is_write(query) && !is_schema(query),
        !(is_create(query) && is_merge(query)),
{
    reveal_strlit("CREATE INDEX ");
    reveal_strlit("CREATE VECTOR INDEX ");
    reveal_strlit("CREATE CONSTRAINT ");
    reveal_strlit("DROP INDEX ");
    reveal_strlit("DROP CONSTRAINT ");
    reveal_strlit("CREATE ");
    reveal_strlit("MERGE ");
    reveal_strlit("MATCH ");
    let q = normal(query);
    assert("CREATE INDEX "@[0] == 'C' && "CREATE VECTOR INDEX "@[0] == 'C');
    assert("CREATE CONSTRAINT "@[0] == 'C');
    assert("DROP INDEX "@[0] == 'D' && "DROP CONSTRAINT "@[0] == 'D');
    assert("CREATE "@[0] == 'C' && "MERGE "@[0] == 'M' && "MATCH "@[0] == 'M');
    assert forall|p: Seq<char>| p.len() > 0 && #[trigger] begins(q, p) implies q[0] == p[0] by {
        assert(q.take(p.len() as int)[0] == q[0]);
    }
}

/// What follows a keyword that a text begins with.
pub open spec fn after_keyword(input: Seq<char>, keyword: Seq<char>) -> Option<Seq<char>> {
    let n = keyword.len() as int;
    if input.len() >= n && lower(input.take(n)) == lower(keyword) && (input.len() == n || is_white(
        input[n],
    )) {
        Some(input.skip(n))
    } else {
        None
    }
}

/// What follows a keyword of ASCII letters that a text begins with.
pub fn strip_keyword(input: &str, keyword: &str) -> (r: Option<String>)
    ensures
        match r {
            Some(rest) => after_keyword(input@, keyword@) == Some(rest@),
            None => after_keyword(input@, keyword@) is None,
        },
{
    let v = chars_of(input);
    let n: usize = chars_of(keyword).len();
    if v.len() < n {
        return None;
    }
    let prefix = string_of(v.as_slice(), 0, n);
    assert(prefix@ =~= input@.take(n as int));
    if !same_ignoring_case(prefix.as_str(), keyword) {
        return None;
    }
    if v.len() == n || white(v[n]) {
        let rest = string_of(v.as_slice(), n, v.len());
        assert(rest@ =~= input@.skip(n as int));
        Some(rest)
    } else {
        None
    }
}

/// Where a plain database name ends.
pub open spec fn plain_name_end(s: Seq<char>, i: int) -> int
    decreases s.len() - i,
{
    if i < 0 || i >= s.len() || is_white(s[i]) || s[i] == ';' {
        i
    } else {
        plain_name_end(s, i + 1)
    }
}

proof fn lemma_plain_name_end(s: Seq<char>, i: int)
    requires
        0 <= i <= s.len(),
    ensures
        i <= plain_name_end(s, i) <= s.len(),
    decreases s.len() - i,
{
    if i < s.len() && !is_white(s[i]) && s[i] != ';' {
        lemma_plain_name_end(s, i + 1);
    }
}

/// The database that a query names in front, and what follows the name.
pub open spec fn use_clause(query: Seq<char>) -> Result<Option<(Seq<char>, Seq<char>)>, Seq<char>> {
    match after_keyword(trim_start(query), "USE"@) {
        None => Ok(None),
        Some(after) => {
            let rest = trim_start(after);
            if rest.len() == 0 {
                Err("USE requires a database name"@)
            } else if rest[0] == '`' {
                match split_once(rest.skip(1), "`"@) {
                    None => Err("unterminated database name in USE clause"@),
                    Some((name, tail)) => Ok(Some((name, trim_start(tail)))),
                }
            } else if plain_name_end(rest, 0) == 0 {
                Err("USE requires a database name"@)
            } else {
                Ok(
                    Some(
                        (
                            rest.take(plain_name_end(rest, 0)),
                            trim_start(rest.skip(plain_name_end(rest, 0))),
                        ),
                    ),
                )
            }
        },
    }
}

/// Reads the database that a query names in front, and what follows the name.
pub fn read_use_clause(query: &str) -> (r: Result<Option<(String, String)>, String>)
    ensures
        match r {
            Ok(Some((name, rest))) => use_clause(query@) == Ok::<
                Option<(Seq<char>, Seq<char>)>,
                Seq<char>,
            >(Some((name@, rest@))),
            Ok(None) => use_clause(query@) == Ok::<Option<(Seq<char>, Seq<char>)>, Seq<char>>(None),
            Err(e) => use_clause(query@) == Err::<Option<(Seq<char>, Seq<char>)>, Seq<char>>(e@),
        },
{
    let after = match strip_keyword(trimmed_start(query).as_str(), "USE") {
        None => return Ok(None),
        Some(after) => after,
    };
    let rest = trimmed_start(after.as_str());
    let v = chars_of(rest.as_str());
    if v.len() == 0 {
        return Err("USE requires a database name".to_owned());
    }
    if v[0] == '`' {
        let after_tick = string_of(v.as_slice(), 1, v.len());
        assert(after_tick@ =~= rest@.skip(1));
        return match split_first(after_tick.as_str(), "`") {
            None => Err("unterminated database name in USE clause".to_owned()),
            Some((name, tail)) => Ok(Some((name, trimmed_start(tail.as_str())))),
        };
    }
    let mut end: usize = 0;
    while end < v.len() && !white(v[end]) && v[end] != ';'
        invariant
            0 <= end <= v@.len(),
            v@ == rest@,
            plain_name_end(rest@, 0) == plain_name_end(rest@, end as int),
        decreases v@.len() - end,
    {
        end = end + 1;
    }
    if end == 0 {
        return Err("USE requires a database name".to_owned());
    }
    let name = string_of(v.as_slice(), 0, end);
    let tail = string_of(v.as_slice(), end, v.len());
    assert(name@ =~= rest@.take(end as int));
    assert(tail@ =~= rest@.skip(end as int));
    Ok(Some((name, trimmed_start(tail.as_str()))))
}

/// The outcome of a check.
pub open spec fn verdict_text(v: Result<(), String>) -> Result<(), Seq<char>> {
    match v {
        Ok(_) => Ok(()),
        Err(e) => Err(e@),
    }
}

/// What follows an optional semicolon and white space.
pub open spec fn after_semicolon(s: Seq<char>) -> Seq<char> {
    if begins(s, ";"@) {
        trim_start(s.skip(1))
    } else {
        trim_start(s)
    }
}

/// The database that a query names in front and the query proper. The verdict is what the
/// check of the database's name says.
pub open spec fn split_use(query: Seq<char>, verdict: Result<(), Seq<char>>) -> Result<
    (Option<Seq<char>>, Seq<char>),
    Seq<char>,
> {
    match use_clause(query) {
        Err(e) => Err(e),
        Ok(None) => Ok((None, query)),
        Ok(Some((name, rest))) => match verdict {
            Err(e) => Err(e),
            Ok(_) => if after_semicolon(rest).len() == 0 {
                Err("USE requires a following query"@)
            } else {
                Ok((Some(name), after_semicolon(rest)))
            },
        },
    }
}

/// Splits a query into the database that it names in front and the query proper.
pub fn split_database_use_clause(query: &str, verdict: &Result<(), String>) -> (r: Result<
    (Option<String>, String),
    String,
>)
    ensures
        match r {
            Ok((Some(name), rest)) => split_use(query@, verdict_text(*verdict)) == Ok::<
                (Option<Seq<char>>, Seq<char>),
                Seq<char>,
            >((Some(name@), rest@)),
            Ok((None, rest)) => split_use(query@, verdict_text(*verdict)) == Ok::<
                (Option<Seq<char>>, Seq<char>),
                Seq<char>,
            >((None, rest@)),
            Err(e) => split_use(query@, verdict_text(*verdict)) == Err::<
                (Option<Seq<char>>, Seq<char>),
                Seq<char>,
            >(e@),
        },
{
    let (name, rest) = match read_use_clause(query) {
        Err(e) => return Err(e),
        Ok(None) => return Ok((None, query.to_owned())),
        Ok(Some(parts)) => parts,
    };
    if let Err(e) = verdict {
        return Err(e.as_str().to_owned());
    }
    proof {
        reveal_strlit(";");
        assert(";"@.len() == 1);
    }
    let tail = match strip_prefix(rest.as_str(), ";") {
        Some(t) => trimmed_start(t.as_str()),
        None => trimmed_start(rest.as_str()),
    };
    if tail.as_str().is_empty() {
        return Err("USE requires a following query".to_owned());
    }
    Ok((Some(name), tail))
}

/// The database that a query names in front.
pub fn database_from_use_clause(query: &str, verdict: &Result<(), String>) -> (r: Result<
    Option<String>,
    String,
>)
    ensures
        match r {
            Ok(Some(name)) => split_use(query@, verdict_text(*verdict)) is Ok && split_use(
                query@,
                verdict_text(*verdict),
            )->Ok_0.0 == Some(name@),
            Ok(None) => split_use(query@, verdict_text(*verdict)) is Ok && split_use(
                query@,
                verdict_text(*verdict),
            )->Ok_0.0 is None,
            Err(e) => split_use(query@, verdict_text(*verdict)) == Err::<
                (Option<Seq<char>>, Seq<char>),
                Seq<char>,
            >(e@),
        },
{
    match split_database_use_clause(query, verdict) {
        Ok((name, _)) => Ok(name),
        Err(e) => Err(e),
    }
}

/// The query proper, without the database that it names in front.
pub fn strip_database_use_clause(query: &str, verdict: &Result<(), String>) -> (r: Result<
    String,
    String,
>)
    ensures
        match r {
            Ok(rest) => split_use(query@, verdict_text(*verdict)) is Ok && split_use(
                query@,
                verdict_text(*verdict),
            )->Ok_0.1 == rest@,
            Err(e) => split_use(query@, verdict_text(*verdict)) == Err::<
                (Option<Seq<char>>, Seq<char>),
                Seq<char>,
            >(e@),
        },
{
    match split_database_use_clause(query, verdict) {
        Ok((_, rest)) => Ok(rest),
        Err(e) => Err(e),
    }
}

/// Whether the name of a parameter can begin with a character.
pub open spec fn is_param_start(c: char) -> bool {
    c == '_' || 'a' <= c <= 'z' || 'A' <= c <= 'Z'
}

/// Whether the name of a parameter can go on with a character.
pub open spec fn is_param_continue(c: char) -> bool {
    is_param_start(c) || '0' <= c <= '9'
}

/// Tells whether the name of a parameter can begin with a character.
pub fn is_query_parameter_start(c: char) -> (r: bool)
    ensures
        r == is_param_start(c),
{
    c == '_' || ('a' <= c && c <= 'z') || ('A' <= c && c <= 'Z')
}

/// Tells whether the name of a parameter can go on with a character.
pub fn is_query_parameter_continue(c: char) -> (r: bool)
    ensures
        r == is_param_continue(c),
{
    is_query_parameter_start(c) || ('0' <= c && c <= '9')
}

/// Where the name of a parameter ends.
pub open spec fn param_end(s: Seq<char>, i: int) -> int
    decreases s.len() - i,
{
    if i < 0 || i >= s.len() || !is_param_continue(s[i]) {
        i
    } else {
        param_end(s, i + 1)
    }
}

pub proof fn lemma_param_end(s: Seq<char>, i: int)
    requires
        0 <= i <= s.len(),
    ensures
        i <= param_end(s, i) <= s.len(),
    decreases s.len() - i,
{
    if i < s.len() && is_param_continue(s[i]) {
        lemma_param_end(s, i + 1);
    }
}

/// The parameters that a query names from the `i`-th character on, with those found
/// before. A dollar sign inside quotation marks names none, and a backslash there takes
/// the next character with it.
pub open spec fn params_named(
    s: Seq<char>,
    i: int,
    quote: Option<char>,
    found: Map<Seq<char>, ()>,
) -> Map<Seq<char>, ()>
    decreases s.len() + 1 - i,
{
    proof {
        if i + 2 <= s.len() && i >= 0 {
            lemma_param_end(s, i + 2);
        }
    }
    if i < 0 || i >= s.len() {
        found
    } else {
        match quote {
            Some(q) => if s[i] == '\\' {
                params_named(s, i + 2, quote, found)
            } else if s[i] == q {
                params_named(s, i + 1, None, found)
            } else {
                params_named(s, i + 1, quote, found)
            },
            None => if s[i] == '\'' || s[i] == '"' {
                params_named(s, i + 1, Some(s[i]), found)
            } else if s[i] == '$' && i + 1 < s.len() && is_param_start(s[i + 1]) {
                params_named(
                    s,
                    param_end(s, i + 2),
                    None,
                    found.insert(s.subrange(i + 1, param_end(s, i + 2)), ()),
                )
            } else {
                params_named(s, i + 1, None, found)
            },
        }
    }
}

/// The parameters that a query names.
pub open spec fn query_parameters(query: Seq<char>) -> Map<Seq<char>, ()> {
    params_named(query, 0, None, Map::empty())
}

/// The names of a map, in order.
pub open spec fn names_in_order(m: Map<Seq<char>, ()>) -> Seq<Seq<char>> {
    by_name(m).map_values(|e: (Seq<char>, ())| e.0)
}

fn find_parameters(query: &str) -> (r: TextTable<()>)
    ensures
        r.well_formed(),
        r@ == query_parameters(query@),
{
    let v = chars_of(query);
    let n: usize = v.len();
    let mut found: TextTable<()> = TextTable::new();
    let mut quote: Option<char> = None;
    let mut i: usize = 0;
    while i < n
        invariant
            0 <= i <= n,
            n == v@.len(),
            v@ == query@,
            found.well_formed(),
            query_parameters(query@) == params_named(query@, i as int, quote, found@),
        decreases n - i,
    {
        let c = v[i];
        match quote {
            Some(q) => {
                if c == '\\' {
                    if n - i >= 2 {
                        i = i + 2;
                    } else {
                        assert(params_named(query@, i + 2, quote, found@) == found@);
                        i = n;
                    }
                } else {
                    if c == q {
                        quote = None;
                    }
                    i = i + 1;
                }
            },
            None => {
                if c == '\'' || c == '"' {
                    quote = Some(c);
                    i = i + 1;
                } else if c == '$' && n - i >= 2 && is_query_parameter_start(v[i + 1]) {
                    let mut end: usize = i + 2;
                    while end < n && is_query_parameter_continue(v[end])
                        invariant
                            i + 2 <= end <= n,
                            n == v@.len(),
                            v@ == query@,
                            param_end(query@, i + 2) == param_end(query@, end as int),
                        decreases n - end,
                    {
                        end = end + 1;
                    }
                    let name = string_of(v.as_slice(), i + 1, end);
                    found.insert(name, ());
                    i = end;
                } else {
                    i = i + 1;
                }
            },
        }
    }
    found
}

/// The parameters that a query names, in the order of their names.
pub fn describe_query_parameters(query: &str) -> (r: Vec<String>)
    ensures
        views(r@) == names_in_order(query_parameters(query@)),
{
    let found = find_parameters(query);
    proof {
        lemma_by_name(found.entries());
    }
    let n: usize = found.len();
    let mut r: Vec<String> = Vec::new();
    let mut i: usize = 0;
    let ghost all = names_in_order(found@);
    assert(views(r@) =~= all.take(0));
    while i < n
        invariant
            0 <= i <= n,
            n == found.entries().len(),
            found.entries() == by_name(found@),
            all == names_in_order(found@),
            views(r@) == all.take(i as int),
        decreases n - i,
    {
        let name = found.name_at(i).to_owned();
        assert(all[i as int] == name@);
        proof {
            lemma_views_push(r@, name);
        }
        r.push(name);
        assert(all.take(i + 1) =~= all.take(i as int).push(name@));
        i = i + 1;
    }
    assert(all.take(all.len() as int) =~= all);
    r
}

/// The names among the first ones that have no value.
pub open spec fn unset(names: Seq<Seq<char>>, params: Map<Seq<char>, Val>) -> Seq<Seq<char>>
    decreases names.len(),
{
    if names.len() == 0 {
        names
    } else if params.dom().contains(names.last()) {
        unset(names.drop_last(), params)
    } else {
        unset(names.drop_last(), params).push(names.last())
    }
}

/// What is wrong with the parameters of a prepared query.
pub open spec fn missing_parameters(
    prepared_id: nat,
    query: Seq<char>,
    params: Map<Seq<char>, Val>,
) -> Option<Seq<char>> {
    let missing = unset(names_in_order(query_parameters(query)), params);
    if missing.len() == 0 {
        None
    } else {
        Some(
            "prepared query "@ + crate::text::dec(prepared_id) + " missing parameter(s): "@ + join(
                missing,
                ","@,
            ),
        )
    }
}

/// Checks that a prepared query gets all its parameters.
pub fn validate_prepared_query_params(prepared_id: u64, query: &str, params: &QueryParams) -> (r:
    Result<(), String>)
    requires
        params.well_formed(),
    ensures
        match r {
            Ok(_) => missing_parameters(prepared_id as nat, query@, params@) is None,
            Err(e) => missing_parameters(prepared_id as nat, query@, params@) == Some(e@),
        },
{
    let names = describe_query_parameters(query);
    let mut missing: Vec<String> = Vec::new();
    let mut i: usize = 0;
    let ghost all = views(names@);
    assert(views(missing@) =~= unset(all.take(0), params@));
    while i < names.len()
        invariant
            0 <= i <= names@.len(),
            params.well_formed(),
            all == views(names@),
            views(missing@) == unset(all.take(i as int), params@),
        decreases names@.len() - i,
    {
        assert(all.take(i + 1).drop_last() =~= all.take(i as int));
        assert(all.take(i + 1).last() == names@[i as int]@);
        if !params.contains_key(names[i].as_str()) {
            let name = names[i].as_str().to_owned();
            proof {
                lemma_views_push(missing@, name);
            }
            missing.push(name);
        }
        i = i + 1;
    }
    assert(all.take(all.len() as int) =~= all);
    if missing.len() == 0 {
        return Ok(());
    }
    let mut e = "prepared query ".to_owned();
    e.append(crate::text::show(prepared_id as u128).as_str());
    e.append(" missing parameter(s): ");
    e.append(join_with(missing.as_slice(), ",").as_str());
    Err(e)
}

/// A query in upper case with one space between its words.
pub open spec fn spaced(query: Seq<char>) -> Seq<char> {
    upper(join(words(query), " "@))
}

/// What a write must not share with another write of its transaction: its target, with
/// its parameters. Only a write that matches and then sets, removes or deletes has one.
pub open spec fn conflict_key(query: Seq<char>, params: Seq<Seq<char>>) -> Option<Seq<char>> {
    let q = spaced(query);
    if !(begins(q, "MATCH "@) && (holds(q, " SET "@) || holds(q, " REMOVE "@) || holds(
        q,
        " DELETE "@,
    ))) || holds(q, " MERGE "@) || holds(q, " CREATE "@) {
        None
    } else {
        let key = match split_once(q, " RETURN "@) {
            Some((prefix, _)) => prefix,
            None => q,
        };
        Some(key + "|params="@ + join(sort_texts(params), ","@))
    }
}

/// Writes parameters, each with its value, in order.
pub fn write_conflict_param_signature(params: &[String]) -> (r: String)
    ensures
        r@ == join(sort_texts(views(params@)), ","@),
{
    join_with(sort_strings(params).as_slice(), ",")
}

/// The key by which a write conflicts with another; the parameters are given as texts,
/// each with its value.
pub fn write_conflict_key(query: &str, params: &[String]) -> (r: Option<String>)
    ensures
        match r {
            Some(k) => conflict_key(query@, views(params@)) == Some(k@),
            None => conflict_key(query@, views(params@)) is None,
        },
{
    let q = uppered(join_with(words_of(query).as_slice(), " ").as_str());
    if !(starts_with(q.as_str(), "MATCH ") && (contains(q.as_str(), " SET ") || contains(
        q.as_str(),
        " REMOVE ",
    ) || contains(q.as_str(), " DELETE "))) {
        return None;
    }
    if contains(q.as_str(), " MERGE ") || contains(q.as_str(), " CREATE ") {
        return None;
    }
    let key = match split_first(q.as_str(), " RETURN ") {
        Some((prefix, _)) => prefix,
        None => q,
    };
    Some(cat3(key.as_str(), "|params=", write_conflict_param_signature(params).as_str()))
}

} // verus!
