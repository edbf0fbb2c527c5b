//! How a request of the web interface shows who sends it.

use vstd::prelude::*;

use crate::cypher::{split_database_use_clause, split_use, verdict_text};
use crate::http::{opt_text, HttpRequest};
use crate::json::{
    extract_json_string_field, extract_optional_json_string_field, json_escape, json_escaped,
    optional_string_field, required_string_field,
};
use crate::rbac::WebRole;
use crate::text::{
    begins, blank, constant_time_token_eq, replace, replaced, same, split, split_first, split_on,
    split_once, starts_with, strip_prefix, trim, trimmed, views,
};

verus! {

/// The session that a piece of a cookie names.
pub open spec fn session_in(part: Seq<char>) -> Option<Seq<char>> {
    match split_once(trim(part), "="@) {
        None => None,
        Some((key, value)) => if key == "neo4r.session"@ && trim(value).len() > 0 {
            Some(replace(replace(trim(value), "%3A"@, ":"@), "%20"@, " "@))
        } else {
            None
        },
    }
}

/// The first session that the pieces of a cookie name, from the `i`-th on.
pub open spec fn first_session(parts: Seq<Seq<char>>, i: int) -> Option<Seq<char>>
    decreases parts.len() - i,
{
    if i < 0 || i >= parts.len() {
        None
    } else {
        match session_in(parts[i]) {
            Some(s) => Some(s),
            None => first_session(parts, i + 1),
        }
    }
}

/// The session token that a request carries in its cookie.
pub open spec fn session_token(cookie: Option<Seq<char>>) -> Option<Seq<char>> {
    match cookie {
        None => None,
        Some(c) => first_session(split(c, ';'), 0),
    }
}

fn read_session(part: &str) -> (r: Option<String>)
    ensures
        opt_text(r) == session_in(part@),
{
    let part = trimmed(part);
    match split_first(part.as_str(), "=") {
        None => None,
        Some((key, value)) => {
            let value = trimmed(value.as_str());
            if same(key.as_str(), "neo4r.session") && !value.as_str().is_empty() {
                proof {
                    reveal_strlit("%3A");
                    reveal_strlit("%20");
                }
                let decoded = replaced(value.as_str(), "%3A", ":");
                Some(replaced(decoded.as_str(), "%20", " "))
            } else {
                None
            }
        },
    }
}

/// The session token of a request.
pub fn request_session_token(request: &HttpRequest) -> (r: Option<String>)
    requires
        request.well_formed(),
    ensures
        opt_text(r) == session_token(request.header_text("cookie"@)),
{
    let cookie = match request.header("cookie") {
        None => return None,
        Some(c) => c,
    };
    let parts = split_on(cookie.as_str(), ';');
    let ghost all = views(parts@);
    let mut i: usize = 0;
    while i < parts.len()
        invariant
            0 <= i <= parts@.len(),
            all == views(parts@),
            first_session(all, 0) == first_session(all, i as int),
            session_token(request.header_text("cookie"@)) == first_session(all, 0),
        decreases parts@.len() - i,
    {
        assert(all[i as int] == parts@[i as int]@);
        if let Some(s) = read_session(parts[i].as_str()) {
            return Some(s);
        }
        i = i + 1;
    }
    None
}

/// Whether a piece of a cookie is the session.
pub open spec fn carries_session(parts: Seq<Seq<char>>, i: int) -> bool
    decreases parts.len() - i,
{
    if i < 0 || i >= parts.len() {
        false
    } else {
        begins(trim(parts[i]), "neo4r.session="@) || carries_session(parts, i + 1)
    }
}

/// Whether a request carries a session in its cookie.
pub open spec fn uses_session_cookie(cookie: Option<Seq<char>>) -> bool {
    match cookie {
        None => false,
        Some(c) => carries_session(split(c, ';'), 0),
    }
}

/// Tells whether a request carries a session in its cookie.
pub fn request_uses_session_cookie(request: &HttpRequest) -> (r: bool)
    requires
        request.well_formed(),
    ensures
        r == uses_session_cookie(request.header_text("cookie"@)),
{
    let cookie = match request.header("cookie") {
        None => return false,
        Some(c) => c,
    };
    let parts = split_on(cookie.as_str(), ';');
    let ghost all = views(parts@);
    let mut i: usize = 0;
    while i < parts.len()
        invariant
            0 <= i <= parts@.len(),
            all == views(parts@),
            carries_session(all, 0) == carries_session(all, i as int),
            uses_session_cookie(request.header_text("cookie"@)) == carries_session(all, 0),
        decreases parts@.len() - i,
    {
        assert(all[i as int] == parts@[i as int]@);
        if starts_with(trimmed(parts[i].as_str()).as_str(), "neo4r.session=") {
            return true;
        }
        i = i + 1;
    }
    false
}

/// The session of a request, where its token is one.
pub open spec fn session_of(cookie: Option<Seq<char>>) -> Option<Seq<char>> {
    match session_token(cookie) {
        Some(t) => if begins(t, "sid:"@) {
            Some(t)
        } else {
            None
        },
        None => None,
    }
}

/// The session of a request, where its token is one.
pub fn request_session(request: &HttpRequest) -> (r: Option<String>)
    requires
        request.well_formed(),
    ensures
        opt_text(r) == session_of(request.header_text("cookie"@)),
{
    match request_session_token(request) {
        Some(t) => if starts_with(t.as_str(), "sid:") {
            Some(t)
        } else {
            None
        },
        None => None,
    }
}

/// The token in an authorization header.
pub open spec fn bearer(header: Option<Seq<char>>) -> Option<Seq<char>> {
    match header {
        Some(h) => if begins(h, "Bearer "@) {
            Some(h.skip(7))
        } else {
            None
        },
        None => None,
    }
}

fn bearer_token(request: &HttpRequest) -> (r: Option<String>)
    requires
        request.well_formed(),
    ensures
        opt_text(r) == bearer(request.header_text("authorization"@)),
{
    proof {
        reveal_strlit("Bearer ");
        assert("Bearer "@.len() == 7);
    }
    match request.header("authorization") {
        Some(h) => strip_prefix(h.as_str(), "Bearer "),
        None => None,
    }
}

/// The token that a request gives: in its authorization header, or as a query parameter.
pub open spec fn given_token(header: Option<Seq<char>>, query: Option<Seq<char>>) -> Option<
    Seq<char>,
> {
    match bearer(header) {
        Some(t) => Some(t),
        None => query,
    }
}

/// The token that a request gives.
pub fn supplied_token(request: &HttpRequest) -> (r: Option<String>)
    requires
        request.well_formed(),
    ensures
        opt_text(r) == given_token(
            request.header_text("authorization"@),
            request.query_text("token"@),
        ),
{
    match bearer_token(request) {
        Some(t) => Some(t),
        None => request.query_value("token"),
    }
}

/// What is known of a request's sender from the stores.
pub struct AuthFacts {
    /// The role of the request's session.
    pub session_role: Option<WebRole>,
    /// The token of the server's configuration.
    pub configured_token: Option<String>,
    /// The role that the configured token gives.
    pub configured_role: WebRole,
    /// Whether no user is known.
    pub no_users: bool,
    /// The role that the users' tokens give to the token of the request.
    pub user_role: Option<WebRole>,
}

/// The role that a token gives.
pub open spec fn role_of_token(token: Seq<char>, facts: AuthFacts) -> Option<WebRole> {
    if facts.configured_token is Some && facts.configured_token.unwrap()@ == token {
        Some(facts.configured_role)
    } else {
        facts.user_role
    }
}

/// The role of a request: that of its session, else that of its token. Where neither a
/// token is configured nor a user known, everyone is an administrator.
pub open spec fn request_role(
    session: Option<Seq<char>>,
    token: Option<Seq<char>>,
    facts: AuthFacts,
) -> Option<WebRole> {
    if session is Some && facts.session_role is Some {
        facts.session_role
    } else if facts.configured_token is None && facts.no_users {
        Some(WebRole::Admin)
    } else {
        match token {
            None => None,
            Some(t) => role_of_token(t, facts),
        }
    }
}

/// The role that a token gives.
pub fn authorize_token_value(token: &str, facts: &AuthFacts) -> (r: Option<WebRole>)
    ensures
        r == role_of_token(token@, *facts),
{
    if let Some(expected) = &facts.configured_token {
        if constant_time_token_eq(token, expected.as_str()) {
            return Some(facts.configured_role);
        }
    }
    facts.user_role
}

/// The role of a request.
pub fn authorized_role(request: &HttpRequest, facts: &AuthFacts) -> (r: Option<WebRole>)
    requires
        request.well_formed(),
    ensures
        r == request_role(
            session_of(request.header_text("cookie"@)),
            given_token(request.header_text("authorization"@), request.query_text("token"@)),
            *facts,
        ),
{
    if request_session(request).is_some() {
        if let Some(role) = facts.session_role {
            return Some(role);
        }
    }
    if facts.configured_token.is_none() && facts.no_users {
        return Some(WebRole::Admin);
    }
    match supplied_token(request) {
        None => None,
        Some(t) => authorize_token_value(t.as_str(), facts),
    }
}

/// Without a session and without a token that is known, a request has no role, once a
/// token is configured or a user known.
pub proof fn unknown_senders_have_no_role(
    session: Option<Seq<char>>,
    token: Option<Seq<char>>,
    facts: AuthFacts,
)
    requires
        session is None || facts.session_role is None,
        facts.configured_token is Some || !facts.no_users,
        token is Some ==> facts.user_role is None && (facts.configured_token is Some
            ==> facts.configured_token.unwrap()@ != token.unwrap()),
    ensures
        request_role(session, token, facts) is None,
{
}

/// Whether a request proves that it comes from the session's own page.
pub open spec fn csrf_holds(
    session: Option<Seq<char>>,
    expected: Option<Seq<char>>,
    given: Option<Seq<char>>,
) -> bool {
    session is Some && expected is Some && given == expected
}

/// Checks that a request comes from its session's own page; the expected token is that of
/// the request's session.
pub fn valid_session_csrf(request: &HttpRequest, expected: &Option<String>) -> (r: bool)
    requires
        request.well_formed(),
    ensures
        r == csrf_holds(
            session_of(request.header_text("cookie"@)),
            opt_text(*expected),
            request.header_text("x-neo4r-csrf"@),
        ),
{
    if request_session(request).is_none() {
        return false;
    }
    match expected {
        None => false,
        Some(expected) => match request.header("x-neo4r-csrf") {
            Some(given) => constant_time_token_eq(given.as_str(), expected.as_str()),
            None => false,
        },
    }
}

/// The token with which a request asks for a session.
pub open spec fn login_token(body: Seq<char>, header: Option<Seq<char>>) -> Option<Seq<char>> {
    match required_string_field(body, "token"@) {
        Ok(t) => Some(t),
        Err(_) => bearer(header),
    }
}

/// The token with which a request asks for a session.
pub fn session_login_token(request: &HttpRequest) -> (r: Result<String, String>)
    requires
        request.well_formed(),
    ensures
        match r {
            Ok(t) => login_token(request.body@, request.header_text("authorization"@)) == Some(t@),
            Err(e) => login_token(request.body@, request.header_text("authorization"@)) is None
                && e@ == "missing token"@,
        },
{
    match extract_json_string_field(request.body.as_str(), "token") {
        Ok(t) => Ok(t),
        Err(_) => match bearer_token(request) {
            Some(t) => Ok(t),
            None => Err("missing token".to_owned()),
        },
    }
}

/// A session that was opened.
pub open spec fn session_body(id: Seq<char>, csrf: Seq<char>, database: Seq<char>) -> Seq<char> {
    "{\"session_id\":\""@ + json_escaped(id) + "\",\"csrf_token\":\""@ + json_escaped(csrf)
        + "\",\"expires_in\":3600,\"database\":\""@ + json_escaped(database) + "\"}"@
}

/// Answers a request for a session: the role of its token, and the session's identifier
/// and token as the session store made them.
pub fn create_web_session(
    role: Option<WebRole>,
    created: Result<(String, String), String>,
    database: &str,
) -> (r: Result<String, String>)
    ensures
        match r {
            Ok(body) => role is Some && created is Ok && body@ == session_body(
                created->Ok_0.0@,
                created->Ok_0.1@,
                database@,
            ),
            Err(e) => if role is None {
                e@ == "unauthorized"@
            } else {
                created is Err && e@ == created->Err_0@
            },
        },
{
    if role.is_none() {
        return Err("unauthorized".to_owned());
    }
    match created {
        Err(e) => Err(e),
        Ok((id, csrf)) => {
            let mut body = "{\"session_id\":\"".to_owned();
            body.append(json_escape(id.as_str()).as_str());
            body.append("\",\"csrf_token\":\"");
            body.append(json_escape(csrf.as_str()).as_str());
            body.append("\",\"expires_in\":3600,\"database\":\"");
            body.append(json_escape(database).as_str());
            body.append("\"}");
            Ok(body)
        },
    }
}

/// Answers a request to end its session.
pub fn delete_web_session(request: &HttpRequest, deleted: Result<(), String>) -> (r: Result<
    String,
    String,
>)
    requires
        request.well_formed(),
    ensures
        match r {
            Ok(body) => session_of(request.header_text("cookie"@)) is Some && deleted is Ok && body@
                == "{\"logged_out\":true}"@,
            Err(e) => if session_of(request.header_text("cookie"@)) is None {
                e@ == "missing web session"@
            } else {
                deleted is Err && e@ == deleted->Err_0@
            },
        },
{
    if request_session(request).is_none() {
        return Err("missing web session".to_owned());
    }
    match deleted {
        Ok(_) => Ok("{\"logged_out\":true}".to_owned()),
        Err(e) => Err(e),
    }
}

/// The name of the database that is used where a request names none.
pub open spec fn default_database() -> Seq<char> {
    "default"@
}

/// The database that a request names outside its query, before the name is checked.
pub open spec fn plain_database(
    header: Option<Seq<char>>,
    query: Option<Seq<char>>,
    body: Seq<char>,
) -> Seq<char> {
    let named = match header {
        Some(h) => Some(h),
        None => match query {
            Some(q) => Some(q),
            None => match optional_string_field(body, "database"@) {
                Ok(d) => d,
                Err(_) => None,
            },
        },
    };
    match named {
        Some(d) => if trim(d).len() > 0 {
            d
        } else {
            default_database()
        },
        None => default_database(),
    }
}

/// Finds the database that a request names outside its query.
pub fn named_database(request: &HttpRequest) -> (r: String)
    requires
        request.well_formed(),
    ensures
        r@ == plain_database(
            request.header_text("x-neo4r-database"@),
            request.query_text("db"@),
            request.body@,
        ),
{
    let named = match request.header("x-neo4r-database") {
        Some(h) => Some(h),
        None => match request.query_value("db") {
            Some(q) => Some(q),
            None => match extract_optional_json_string_field(request.body.as_str(), "database") {
                Ok(d) => d,
                Err(_) => None,
            },
        },
    };
    match named {
        Some(d) => if !blank(d.as_str()) {
            d
        } else {
            "default".to_owned()
        },
        None => "default".to_owned(),
    }
}

/// The database of a request: the one that its query names, else the one that it names
/// elsewhere. The verdicts are what the check of names says of the one and of the other.
pub open spec fn database_of(
    body: Seq<char>,
    named: Seq<char>,
    use_verdict: Result<(), Seq<char>>,
    named_verdict: Result<(), Seq<char>>,
) -> Result<Seq<char>, Seq<char>> {
    let elsewhere = match named_verdict {
        Ok(_) => Ok(named),
        Err(e) => Err(e),
    };
    match optional_string_field(body, "query"@) {
        Err(e) => Err(e),
        Ok(None) => elsewhere,
        Ok(Some(query)) => match split_use(query, use_verdict) {
            Err(e) => Err(e),
            Ok((Some(database), _)) => Ok(database),
            Ok((None, _)) => elsewhere,
        },
    }
}

/// Finds the database of a request.
pub fn request_database_name(
    request: &HttpRequest,
    use_verdict: &Result<(), String>,
    named_verdict: &Result<(), String>,
) -> (r: Result<String, String>)
    requires
        request.well_formed(),
    ensures
        match r {
            Ok(d) => database_of(
                request.body@,
                plain_database(
                    request.header_text("x-neo4r-database"@),
                    request.query_text("db"@),
                    request.body@,
                ),
                verdict_text(*use_verdict),
                verdict_text(*named_verdict),
            ) == Ok::<Seq<char>, Seq<char>>(d@),
            Err(e) => database_of(
                request.body@,
                plain_database(
                    request.header_text("x-neo4r-database"@),
                    request.query_text("db"@),
                    request.body@,
                ),
                verdict_text(*use_verdict),
                verdict_text(*named_verdict),
            ) == Err::<Seq<char>, Seq<char>>(e@),
        },
{
    match extract_optional_json_string_field(request.body.as_str(), "query") {
        Err(e) => return Err(e),
        Ok(None) => {},
        Ok(Some(query)) => match split_database_use_clause(query.as_str(), use_verdict) {
            Err(e) => return Err(e),
            Ok((Some(database), _)) => return Ok(database),
            Ok((None, _)) => {},
        },
    }
    match named_verdict {
        Ok(_) => Ok(named_database(request)),
        Err(e) => Err(e.as_str().to_owned()),
    }
}

/// What an administrator may not name as a database: nothing, where the name stands for
/// all, else what the check of names says.
pub fn validate_database_scope_for_admin(database: &str, verdict: Result<(), String>) -> (r: Result<
    (),
    String,
>)
    ensures
        verdict_text(r) == (if database@ == "*"@ {
            Ok(())
        } else {
            verdict_text(verdict)
        }),
{
    if same(database, "*") {
        Ok(())
    } else {
        verdict
    }
}

} // verus!
