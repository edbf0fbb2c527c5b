//! What an administrator asks for over the web, and how a request is read from its lines.

use vstd::prelude::*;

use crate::http::{
    headers_after, hex_digit_value, json_answer, length_after, line_method, line_target,
    percent_bytes, sides, without_line_end,
};
use crate::json::{optional_string_field, required_string_field};
use crate::laws::sessions::latest_slow_queries_are_remembered;
use crate::laws::texts::texts_are_split_at_the_first_place;
use crate::limits::{rows_refusal, SlowQuery, TenantQuota};
use crate::rows::QueryRow;
use crate::text::{dec, lemma_split_once_at_char, lower, number, split_once, trim, words};
use crate::two_phase::{after_commits, after_prepare, done_before_error, Commit, Stage};
use crate::web_admin::{
    expiry_of_new_user, filled_field, given_reason, new_user, roles_of_new_user, token_scope,
};
use crate::web_query::{slow_after, web_query_problem, WebQueryRun};

verus! {

/// A new user has the name, the role and the token that the body says, and the roles of databases
/// that it says, if these are in order; a token without a name is named by the time.
pub proof fn new_users_are_as_the_body_says(
    body: Seq<char>,
    roles_verdict: Result<(), Seq<char>>,
    now_ms: nat,
)
    ensures
        new_user(body, roles_verdict, now_ms) matches Ok(user) ==> {
            &&& required_string_field(body, "name"@) == Ok::<_, Seq<char>>(user.name)
            &&& required_string_field(body, "role"@) == Ok::<_, Seq<char>>(user.role)
            &&& required_string_field(body, "token"@) == Ok::<_, Seq<char>>(user.token)
            &&& user.database_roles is Some ==> roles_verdict is Ok
            &&& roles_of_new_user(body, user.role) == Ok::<_, Seq<char>>(user.database_roles)
            &&& expiry_of_new_user(body) == Ok::<_, Seq<char>>(user.expired_at)
            &&& filled_field(body, "token_id"@) matches Ok(Some(t)) ==> user.token_id == t
            &&& filled_field(body, "token_id"@) matches Ok(None) ==> user.token_id == "token-"@ + dec(
                now_ms,
            )
        },
        required_string_field(body, "name"@) is Err || required_string_field(body, "role"@) is Err
            || required_string_field(body, "token"@) is Err ==> new_user(
            body,
            roles_verdict,
            now_ms,
        ) is Err,
        required_string_field(body, "name"@) is Ok && required_string_field(body, "token"@) is Ok && (
        required_string_field(body, "role"@) matches Ok(role) && roles_of_new_user(body, role) is Ok)
            && roles_verdict is Ok && filled_field(body, "token_id"@) is Ok && expiry_of_new_user(
            body,
        ) is Ok ==> new_user(body, roles_verdict, now_ms) is Ok,
{
}

/// The roles of databases are those that are listed; without a list it is the role in the one
/// database that is named, or else the role of the user there.
pub proof fn roles_are_listed_or_named(body: Seq<char>, role: Seq<char>)
    ensures
        filled_field(body, "database_roles"@) matches Ok(Some(t)) ==> roles_of_new_user(body, role)
            == Ok::<_, Seq<char>>(Some(t)),
        filled_field(body, "database_roles"@) == Ok::<Option<Seq<char>>, Seq<char>>(None) ==> (
        filled_field(body, "database"@) matches Ok(Some(d)) ==> (filled_field(body, "database_role"@)
            matches Ok(r) ==> roles_of_new_user(body, role) == Ok::<_, Seq<char>>(
            Some(
                d + "="@ + (match r {
                    Some(named) => named,
                    None => role,
                }),
            ),
        ))),
        filled_field(body, "database_roles"@) == Ok::<Option<Seq<char>>, Seq<char>>(None)
            && filled_field(body, "database"@) == Ok::<Option<Seq<char>>, Seq<char>>(None)
            ==> roles_of_new_user(body, role) == Ok::<Option<Seq<char>>, Seq<char>>(None),
{
}

/// A field that is blank counts as missing.
pub proof fn blank_fields_count_as_missing(body: Seq<char>, field: Seq<char>)
    ensures
        optional_string_field(body, field) matches Ok(Some(t)) ==> filled_field(body, field) == Ok::<
            _,
            Seq<char>,
        >(
            if trim(t).len() > 0 {
                Some(t)
            } else {
                None
            },
        ),
        optional_string_field(body, field) == Ok::<Option<Seq<char>>, Seq<char>>(None)
            ==> filled_field(body, field) == Ok::<Option<Seq<char>>, Seq<char>>(None),
{
}

/// A token that does not say when it ends does not end; else it ends at the seconds that it says.
pub proof fn tokens_end_when_they_say(body: Seq<char>, n: nat)
    ensures
        optional_string_field(body, "expired_at"@) matches Ok(Some(t)) ==> trim(t).len() > 0
            && number(t, u128::MAX as nat) == Some(n) ==> expiry_of_new_user(body) == Ok::<
            _,
            Seq<char>,
        >(n),
        optional_string_field(body, "expired_at"@) matches Ok(Some(t)) ==> trim(t).len() > 0
            && number(t, u128::MAX as nat) is None ==> expiry_of_new_user(body) is Err,
        optional_string_field(body, "expired_at"@) == Ok::<Option<Seq<char>>, Seq<char>>(None) && (
        optional_string_field(body, "expires_at"@) == Ok::<Option<Seq<char>>, Seq<char>>(None))
            ==> expiry_of_new_user(body) == Ok::<nat, Seq<char>>(0),
        optional_string_field(body, "expired_at"@) == Ok::<Option<Seq<char>>, Seq<char>>(None) ==> (
        optional_string_field(body, "expires_at"@) matches Ok(Some(t)) ==> trim(t).len() > 0
            && number(t, u128::MAX as nat) == Some(n) ==> expiry_of_new_user(body) == Ok::<
            _,
            Seq<char>,
        >(n)),
{
}

/// A change of a token's rights names the user, the token and the database; the database is in order,
/// or all are meant, where that is allowed.
pub proof fn changes_of_rights_name_their_database(
    body: Seq<char>,
    role_verdict: Option<Result<(), Seq<char>>>,
    database_verdict: Result<(), Seq<char>>,
    all_databases: bool,
)
    ensures
        token_scope(body, role_verdict, database_verdict, all_databases) matches Ok(s) ==> {
            &&& required_string_field(body, "name"@) == Ok::<_, Seq<char>>(s.name)
            &&& required_string_field(body, "token_id"@) == Ok::<_, Seq<char>>(s.token_id)
            &&& required_string_field(body, "database"@) == Ok::<_, Seq<char>>(s.database)
            &&& given_reason(body) == Ok::<_, Seq<char>>(s.reason)
            &&& database_verdict is Ok || (all_databases && s.database == "*"@)
            &&& role_verdict matches Some(v) ==> v is Ok && required_string_field(body, "role"@) is Ok
        },
        required_string_field(body, "name"@) is Ok && required_string_field(body, "token_id"@) is Ok
            && required_string_field(body, "database"@) is Ok && given_reason(body) is Ok
            && database_verdict is Ok && role_verdict is None ==> token_scope(
            body,
            role_verdict,
            database_verdict,
            all_databases,
        ) is Ok,
{
}

/// A query that took at least the threshold is remembered as slow, with when it ran, for how long,
/// and what it asked; others are not.
pub proof fn slow_queries_are_remembered(log: Seq<SlowQuery>, run: WebQueryRun, threshold_ms: u64)
    requires
        log.len() <= 128,
    ensures
        run.elapsed_ms < threshold_ms ==> slow_after(log, run, threshold_ms) == log,
        run.elapsed_ms >= threshold_ms ==> slow_after(log, run, threshold_ms).last() == (SlowQuery {
            unix_ms: run.unix_ms as nat,
            elapsed_ms: run.elapsed_ms as nat,
            query: run.query@,
        }),
        run.elapsed_ms >= threshold_ms && log.len() < 128 ==> slow_after(log, run, threshold_ms).len()
            == log.len() + 1,
{
    latest_slow_queries_are_remembered(
        log,
        SlowQuery {
            unix_ms: run.unix_ms as nat,
            elapsed_ms: run.elapsed_ms as nat,
            query: run.query@,
        },
    );
}

/// A query over the web fails where it failed, or where it gave more rows than may be handed out.
pub proof fn web_queries_fail_for_a_reason(
    quota: TenantQuota,
    database: Seq<char>,
    outcome: Result<Vec<QueryRow>, String>,
)
    ensures
        outcome matches Err(e) ==> web_query_problem(quota, database, outcome) == Some(e@),
        outcome matches Ok(rows) ==> (web_query_problem(quota, database, outcome) is Some
            <==> rows_refusal(quota.limits(), database, rows@.len()) is Some),
{
}

/// The first word of a request is its method, and the second is where it goes; a request without a
/// second word goes to the root.
pub proof fn first_words_say_where_a_request_goes(line: Seq<char>)
    ensures
        words(line).len() >= 2 ==> line_method(line) == words(line)[0] && line_target(line) == words(
            line,
        )[1],
        words(line).len() == 1 ==> line_method(line) == words(line)[0] && line_target(line) == "/"@,
        words(line).len() == 0 ==> line_method(line).len() == 0 && line_target(line) == "/"@,
{
}

/// A header is kept under its name in small letters, without the white space round the name and the
/// value; a later one of the same name replaces it, and others stay.
pub proof fn headers_are_kept_by_their_name(
    headers: Map<Seq<char>, Seq<char>>,
    name: Seq<char>,
    value: Seq<char>,
    line: Seq<char>,
    k: Seq<char>,
)
    requires
        !name.contains(':'),
        without_line_end(line) == name + seq![':'] + value,
    ensures
        ({
            let now = headers_after(headers, line);
            &&& now.dom().contains(lower(trim(name))) && now[lower(trim(name))] == trim(value)
            &&& k != lower(trim(name)) ==> now.dom().contains(k) == headers.dom().contains(k)
                && now[k] == headers[k]
        }),
        lower(name) == lower("content-length"@) ==> (number(trim(value), usize::MAX as nat)
            matches Some(n) ==> forall|before: nat| #[trigger] length_after(before, line) == n),
        lower(name) != lower("content-length"@) ==> forall|before: nat| #[trigger]
            length_after(before, line) == before,
{
    reveal_strlit(":");
    assert(":"@ =~= seq![':']);
    lemma_split_once_at_char(name, value, ':');
}

/// The end of a line does not belong to a header.
pub proof fn headers_end_before_the_line_does(line: Seq<char>)
    ensures
        without_line_end(line + seq!['\r', '\n']) == without_line_end(line),
        line.len() > 0 && line.last() != '\n' && line.last() != '\r' ==> without_line_end(line)
            == line,
{
    let a = line.push('\r');
    let b = a.push('\n');
    assert(b.drop_last() =~= a);
    assert(a.drop_last() =~= line);
    assert(line + seq!['\r', '\n'] =~= b);
    assert(without_line_end(b) == without_line_end(a));
    assert(without_line_end(a) == without_line_end(line));
}

/// The value of a hexadecimal digit, large or small.
pub proof fn hexadecimal_digits_have_their_value(b: u8)
    ensures
        '0' as int <= b <= '9' as int ==> hex_digit_value(b) == Some((b - '0' as int) as u8),
        'a' as int <= b <= 'f' as int ==> hex_digit_value(b) == Some((b - 'a' as int + 10) as u8),
        'A' as int <= b <= 'F' as int ==> hex_digit_value(b) == Some((b - 'A' as int + 10) as u8),
        hex_digit_value(b) is Some ==> hex_digit_value(b).unwrap() < 16,
{
}

/// In a query a plus stands for a blank, a percent sign and two digits for a byte, and any other byte
/// for itself.
pub proof fn query_bytes_stand_for_themselves(s: Seq<u8>, i: int, out: Seq<u8>)
    requires
        0 <= i < s.len(),
    ensures
        s[i] == '+' as int ==> percent_bytes(s, i, out) == percent_bytes(s, i + 1, out.push(32)),
        s[i] != '+' as int && s[i] != '%' as int ==> percent_bytes(s, i, out) == percent_bytes(
            s,
            i + 1,
            out.push(s[i]),
        ),
        s[i] == '%' as int && i + 2 < s.len() && hex_digit_value(s[i + 1]) is Some
            && hex_digit_value(s[i + 2]) is Some ==> percent_bytes(s, i, out) == percent_bytes(
            s,
            i + 3,
            out.push(
                (hex_digit_value(s[i + 1]).unwrap() * 16 + hex_digit_value(s[i + 2]).unwrap()) as u8,
            ),
        ),
{
}

/// A pair of a query is cut at the first sign of equality; without one its value is empty.
pub proof fn pairs_are_cut_at_the_first_sign(s: Seq<char>, sep: Seq<char>)
    ensures
        split_once(s, sep) matches Some((a, b)) ==> sides(s, sep) == (a, b) && s == a + sep + b,
        split_once(s, sep) is None ==> sides(s, sep) == (s, Seq::<char>::empty()),
{
    texts_are_split_at_the_first_place(s, sep);
}

/// A commit goes on shard by shard: first everything is prepared here and elsewhere, then the
/// decision is recorded, then everything is committed here and elsewhere; a commit of nothing is
/// done at once.
pub proof fn commits_go_on_shard_by_shard(c: Commit, locals: nat, remotes: nat)
    ensures
        after_prepare(c) is PrepareLocal <==> c.locals.len() < c.local_shards.len(),
        after_prepare(c) is PrepareRemote <==> c.locals.len() >= c.local_shards.len()
            && c.remotes.len() < c.remote_shards.len(),
        after_prepare(c) is RecordCommit ==> c.locals.len() + c.remotes.len() > 0,
        after_commits(c, locals, remotes) == (if locals < c.locals.len() {
            Stage::CommitLocal(locals)
        } else if remotes < c.remotes.len() {
            Stage::CommitRemote(remotes)
        } else {
            Stage::Clear
        }),
{
}

/// The work that was done before the first error counts, and none after it.
pub proof fn work_counts_up_to_the_first_error(outcomes: Seq<Result<(), String>>, n: int)
    ensures
        0 <= n < outcomes.len() && outcomes[n] is Err && (forall|k: int|
            0 <= k < n ==> (#[trigger] outcomes[k]) is Ok) ==> done_before_error(outcomes) == n,
        (forall|k: int| 0 <= k < outcomes.len() ==> (#[trigger] outcomes[k]) is Ok)
            ==> done_before_error(outcomes) == outcomes.len(),
    decreases outcomes.len(),
{
    if outcomes.len() > 0 {
        let rest = outcomes.skip(1);
        work_counts_up_to_the_first_error(rest, n - 1);
        assert forall|k: int| 0 <= k < rest.len() implies #[trigger] rest[k] == outcomes[k + 1] by {}
        if 0 < n < outcomes.len() {
            assert(rest[n - 1] == outcomes[n]);
        }
        assert(outcomes[0] is Ok || outcomes[0] is Err);
    }
}

/// A status is told with its words.
pub proof fn statuses_have_their_words(body: Seq<char>)
    ensures
        json_answer(200, body).reason == "OK"@,
        json_answer(400, body).reason == "Bad Request"@,
        json_answer(401, body).reason == "Unauthorized"@,
        json_answer(403, body).reason == "Forbidden"@,
        json_answer(404, body).reason == "Not Found"@,
        json_answer(500, body).reason == "Internal Server Error"@,
        json_answer(503, body).reason == "Service Unavailable"@,
        forall|status: nat| #[trigger] json_answer(status, body).status == status,
        forall|status: nat| #[trigger] json_answer(status, body).body == body,
{
}

} // verus!
