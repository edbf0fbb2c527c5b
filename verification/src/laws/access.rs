//! Who may do what over the web, and what a request is answered that may not.

use vstd::prelude::*;

use crate::http::HttpRequest;
use crate::json::{bool_field, optional_string_field, required_string_field};
use crate::laws::json_console::errors_say_their_message;
use crate::laws::json_reading::{reads, Json};
use crate::laws::query_kinds::has_at;
use crate::laws::texts::fronts_and_backs_are_where_they_stand;
use crate::rbac::{action_of, may, WebAction, WebRole};
use crate::text::{begins, lower, number, trim};
use crate::web::{
    client_epoch, counted, gate, gate_answer, query_of, query_options, restore_task, route_action,
    task_answer, task_of, Gate, Task, WebFacts, WebRoute,
};
use crate::web_auth::{
    carries_session, csrf_holds, first_session, given_token, plain_database, request_role,
    session_in, session_of, session_token, uses_session_cookie, AuthFacts,
};

verus! {

/// What a role may do: an administrator everything, a writer what reads and the writing of the
/// graph, a reader what reads.
pub proof fn roles_may_do_their_part(action: WebAction)
    ensures
        may(WebRole::Admin, action),
        may(WebRole::Writer, action) <==> action is GraphRead || action is MetricsRead
            || action is SystemRead || action is GraphWrite,
        may(WebRole::Reader, action) <==> action is GraphRead || action is MetricsRead
            || action is SystemRead,
{
}

/// What a place takes: what belongs to the users, the databases, the audit log, the consensus, the
/// invariants, the restores, the cluster and the backups takes an administrator, the queries a
/// writer, and every other place only what its path takes.
pub proof fn places_take_their_action(route: WebRoute)
    ensures
        route_action(route) == Some(WebAction::TokenAdmin) <==> route is Users || route is AddUser
            || route is RevokeToken || route is GrantRole || route is RevokeRole || route is DenyRole
            || route is AllowRole || route is CleanupTokens || route is CleanupSessions
            || route is DeleteUser,
        route_action(route) == Some(WebAction::TenantAdmin) <==> route is Databases
            || route is CreateDatabase || route is DeleteDatabase || route is DisableDatabase
            || route is EnableDatabase,
        route_action(route) == Some(WebAction::AuditAdmin) <==> route is AuditLog
            || route is PruneAuditLog,
        route_action(route) == Some(WebAction::RaftAdmin) <==> route is RaftStatus
            || route is Snapshot || route is RaftLeaderTransfer,
        route_action(route) == Some(WebAction::RepairAdmin) <==> route is VerifyInvariants
            || route is RepairInvariants,
        route_action(route) == Some(WebAction::RestoreAdmin) <==> route is MaintenanceMode
            || route is Restore || route is PitrPlan || route is PitrApply,
        route_action(route) == Some(WebAction::ClusterAdmin) <==> route is AdvanceRebalance
            || route is PlanRebalance || route is StartRebalance || route is CancelRebalance,
        route_action(route) == Some(WebAction::BackupAdmin) <==> route is Backup,
        route_action(route) == Some(WebAction::GraphWrite) <==> route is Query,
        route_action(route) != Some(WebAction::GraphRead),
        route_action(route) != Some(WebAction::MetricsRead),
        route_action(route) != Some(WebAction::SystemRead),
{
}

/// Whether a request may go on: it is not forged, its action is allowed, nothing is drained, and its
/// sender does not know an older routing table.
pub open spec fn goes_on(request: HttpRequest, facts: WebFacts, role: WebRole) -> bool {
    let action = action_of(request.method@, request.path@);
    let epoch = client_epoch(
        request.header_text("x-neo4r-ownership-epoch"@),
        request.header_text("x-neo4r-routing-epoch"@),
    );
    &&& lower(request.method@) == lower("GET"@) || !uses_session_cookie(
        request.header_text("cookie"@),
    ) || facts.csrf_valid
    &&& action is Some ==> may(role, action.unwrap())
    &&& request.method@ == "POST"@ && request.path@ == "/api/query"@ ==> facts.maintenance == Ok::<
        bool,
        String,
    >(false)
    &&& epoch is Some && (request.path@ == "/api/query"@ || request.path@ == "/api/query-plan"@
        || request.path@ == "/api/profile"@ || request.path@ == "/api/graph"@)
        ==> facts.routing_version is Ok && epoch.unwrap() >= facts.routing_version->Ok_0
}

/// Whether a request goes to a place that takes no role.
pub open spec fn is_open(request: HttpRequest) -> bool {
    ||| request.method@ == "GET"@ && (request.path@ == "/healthz"@ || request.path@ == "/readyz"@)
    ||| request.method@ == "POST"@ && (request.path@ == "/api/session"@ || request.path@
        == "/api/session/logout"@)
}

/// A request is let through if and only if its database has a name, its sender has a role, and
/// nothing keeps it from going on.
pub proof fn requests_pass_unless_something_keeps_them(
    request: HttpRequest,
    facts: WebFacts,
    limited: bool,
)
    requires
        !is_open(request),
    ensures
        gate(request, facts, limited) is Pass <==> facts.database is Ok && facts.role is Some
            && goes_on(request, facts, facts.role.unwrap()),
        gate(request, facts, limited) matches Gate::Pass(role) ==> facts.role == Some(role),
        facts.database is Ok && facts.role is None ==> gate(request, facts, limited)
            == Gate::Unauthorized(limited),
{
}

/// A request that is not let through is told why: forged, not allowed, drained or stale, in this
/// order.
pub proof fn refused_requests_are_told_why(
    request: HttpRequest,
    facts: WebFacts,
    limited: bool,
    role: WebRole,
)
    requires
        !is_open(request),
        facts.database is Ok,
        facts.role == Some(role),
    ensures
        ({
            let g = gate(request, facts, limited);
            let forged = lower(request.method@) != lower("GET"@) && uses_session_cookie(
                request.header_text("cookie"@),
            ) && !facts.csrf_valid;
            let action = action_of(request.method@, request.path@);
            let barred = action is Some && !may(role, action.unwrap());
            &&& g is BadCsrf <==> forged
            &&& g is Forbidden <==> !forged && barred
            &&& g is Draining <==> !forged && !barred && request.method@ == "POST"@
                && request.path@ == "/api/query"@ && facts.maintenance == Ok::<bool, String>(true)
            &&& g matches Gate::Stale(version) ==> facts.routing_version == Ok::<u64, String>(
                version as u64,
            ) && client_epoch(
                request.header_text("x-neo4r-ownership-epoch"@),
                request.header_text("x-neo4r-routing-epoch"@),
            ).unwrap() < version
        }),
{
}

/// The version that a sender knows is told by the first of two headers, or by the second where the
/// first is missing.
pub proof fn first_header_tells_the_version(
    ownership: Option<Seq<char>>,
    routing: Option<Seq<char>>,
)
    ensures
        ownership matches Some(t) ==> client_epoch(ownership, routing) == number(
            t,
            u64::MAX as nat,
        ),
        ownership is None ==> (routing matches Some(t) ==> client_epoch(ownership, routing)
            == number(t, u64::MAX as nat)),
        ownership is None && routing is None ==> client_epoch(ownership, routing) is None,
{
}

/// The status of an answer to a request that is not let through goes by the reason.
pub proof fn reasons_have_their_status(g: Gate)
    ensures
        g is Healthy ==> gate_answer(g).status == 200,
        g is BadDatabase ==> gate_answer(g).status == 400,
        g == Gate::Unauthorized(false) ==> gate_answer(g).status == 401,
        g == Gate::Unauthorized(true) ==> gate_answer(g).status == 429,
        g is BadCsrf || g is Forbidden ==> gate_answer(g).status == 403,
        g is Draining ==> gate_answer(g).status == 503,
        g is Stale ==> gate_answer(g).status == 409,
        g is Unknown ==> gate_answer(g).status == 500,
        g matches Gate::BadDatabase(e) ==> reads(
            gate_answer(g).body,
            Json::Fields(seq![("error"@, Json::Text(e))]),
        ),
        g matches Gate::Unknown(e) ==> reads(
            gate_answer(g).body,
            Json::Fields(seq![("error"@, Json::Text(e))]),
        ),
        g matches Gate::Stale(version) ==> gate_answer(g).body == crate::web::stale_body(version),
{
    if let Gate::BadDatabase(e) = g {
        errors_say_their_message(e);
    }
    if let Gate::Unknown(e) = g {
        errors_say_their_message(e);
    }
}

/// Every request is counted once; those without a role and those that are forged or drained are
/// counted as errors, too, and those that are stale as such.
pub proof fn requests_are_counted(m: crate::web::WebMetrics, g: Gate)
    requires
        m.http_requests < u64::MAX,
        m.http_errors < u64::MAX,
        m.auth_failures < u64::MAX,
        m.auth_rate_limited < u64::MAX,
        m.stale_epoch_rejections < u64::MAX,
    ensures
        counted(m, g).http_requests == m.http_requests + 1,
        counted(m, g).http_errors == m.http_errors + (if g is Unauthorized || g is BadCsrf
            || g is Draining {
            1int
        } else {
            0
        }),
        counted(m, g).auth_failures == m.auth_failures + (if g is Unauthorized {
            1int
        } else {
            0
        }),
        counted(m, g).auth_rate_limited == m.auth_rate_limited + (if g
            == Gate::Unauthorized(true) {
            1int
        } else {
            0
        }),
        counted(m, g).stale_epoch_rejections == m.stale_epoch_rejections + (if g is Stale {
            1int
        } else {
            0
        }),
        counted(m, g).registry_requests == m.registry_requests,
{
}

/// A token in the header is the one that counts; the one in the query counts only without it.
pub proof fn tokens_in_the_header_come_first(
    header: Option<Seq<char>>,
    query: Option<Seq<char>>,
    token: Seq<char>,
)
    ensures
        given_token(Some("Bearer "@ + token), query) == Some(token),
        header is None ==> given_token(header, query) == query,
        header matches Some(h) ==> !has_at(h, "Bearer "@, 0) ==> given_token(header, query) == query,
{
    reveal_strlit("Bearer ");
    let h = "Bearer "@ + token;
    assert(h.take(7) =~= "Bearer "@);
    assert(h.skip(7) =~= token);
    if let Some(g) = header {
        fronts_and_backs_are_where_they_stand(g, "Bearer "@);
    }
}

/// The role of a request is that of its session; without one it is that of its token, and a server
/// that knows no token and no user lets everybody do everything.
pub proof fn sessions_come_before_tokens(
    session: Option<Seq<char>>,
    token: Option<Seq<char>>,
    facts: AuthFacts,
)
    ensures
        session is Some && facts.session_role is Some ==> request_role(session, token, facts)
            == facts.session_role,
        (session is None || facts.session_role is None) && facts.configured_token is None
            && facts.no_users ==> request_role(session, token, facts) == Some(WebRole::Admin),
        (session is None || facts.session_role is None) && (facts.configured_token is Some
            || !facts.no_users) ==> request_role(session, token, facts) == (if token is None {
            None
        } else if facts.configured_token is Some && facts.configured_token.unwrap()@
            == token.unwrap() {
            Some(facts.configured_role)
        } else {
            facts.user_role
        }),
{
}

/// A request of a session is its own where it gives the token of the session.
pub proof fn requests_give_the_token_of_their_session(
    session: Option<Seq<char>>,
    expected: Option<Seq<char>>,
    given: Option<Seq<char>>,
)
    ensures
        csrf_holds(session, expected, given) ==> session is Some && expected is Some && given is Some
            && given.unwrap() == expected.unwrap(),
        session is Some && expected is Some && given is Some && given.unwrap() == expected.unwrap()
            ==> csrf_holds(session, expected, given),
{
}

/// The session of a cookie is that of the first part that names one.
pub proof fn first_part_names_the_session(parts: Seq<Seq<char>>, from: int, i: int)
    requires
        0 <= from <= i,
    ensures
        i < parts.len() && session_in(parts[i]) is Some && (forall|k: int|
            from <= k < i ==> session_in(#[trigger] parts[k]) is None) ==> first_session(
            parts,
            from,
        ) == session_in(parts[i]),
        (forall|k: int| from <= k < parts.len() ==> session_in(#[trigger] parts[k]) is None)
            ==> first_session(parts, from) is None,
        carries_session(parts, from) <==> exists|k: int|
            from <= k < parts.len() && begins(trim(#[trigger] parts[k]), "neo4r.session="@),
    decreases parts.len() - from,
{
    if from < parts.len() {
        if i > from {
            first_part_names_the_session(parts, from + 1, i);
        } else {
            first_part_names_the_session(parts, from + 1, from + 1);
        }
        if carries_session(parts, from + 1) {
            let k = choose|k: int|
                from + 1 <= k < parts.len() && begins(trim(#[trigger] parts[k]), "neo4r.session="@);
            assert(from <= k);
        }
        if exists|k: int|
            from <= k < parts.len() && begins(trim(#[trigger] parts[k]), "neo4r.session="@) {
            let k = choose|k: int|
                from <= k < parts.len() && begins(trim(#[trigger] parts[k]), "neo4r.session="@);
            if k > from {
                assert(from + 1 <= k);
            }
        }
    }
}

/// Only a session that the server has given out is looked for.
pub proof fn sessions_have_the_mark_of_the_server(cookie: Option<Seq<char>>)
    ensures
        session_of(cookie) matches Some(t) ==> session_token(cookie) == Some(t) && has_at(
            t,
            "sid:"@,
            0,
        ),
        session_token(cookie) matches Some(t) ==> has_at(t, "sid:"@, 0) ==> session_of(cookie)
            == Some(t),
{
    if let Some(t) = session_token(cookie) {
        fronts_and_backs_are_where_they_stand(t, "sid:"@);
    }
}

/// The database of a request is named by its header, its query or its body, in this order; a blank
/// name means the default.
pub proof fn databases_are_named_by_the_header_first(
    header: Option<Seq<char>>,
    query: Option<Seq<char>>,
    body: Seq<char>,
)
    ensures
        header matches Some(h) ==> trim(h).len() > 0 ==> plain_database(header, query, body) == h,
        header is None ==> (query matches Some(q) ==> trim(q).len() > 0 ==> plain_database(
            header,
            query,
            body,
        ) == q),
        header is None && query is None ==> (optional_string_field(body, "database"@) matches Ok(
            Some(d),
        ) ==> trim(d).len() > 0 ==> plain_database(header, query, body) == d),
        header matches Some(h) ==> trim(h).len() == 0 ==> plain_database(header, query, body)
            == "default"@,
        header is None && query is None && !(optional_string_field(body, "database"@) matches Ok(
            Some(_),
        )) ==> plain_database(header, query, body) == "default"@,
{
}

/// A restore that is no trial is carried out only where it is confirmed, and a trial stays one.
pub proof fn restores_are_confirmed(body: Seq<char>)
    ensures
        restore_task(body) matches Ok(task) ==> {
            &&& task is Restore
            &&& required_string_field(body, "path"@) == Ok::<_, Seq<char>>(task->Restore_path)
            &&& !task->Restore_dry_run ==> optional_string_field(body, "confirm"@) == Ok::<
                _,
                Seq<char>,
            >(Some("RESTORE"@))
            &&& task->Restore_dry_run <==> bool_field(body, "dry_run"@) == Ok::<_, Seq<char>>(true)
                || bool_field(body, "verify_only"@) == Ok::<_, Seq<char>>(true)
        },
        required_string_field(body, "path"@) is Ok && bool_field(body, "dry_run"@) == Ok::<
            _,
            Seq<char>,
        >(true) ==> restore_task(body) is Ok,
        required_string_field(body, "path"@) is Ok && bool_field(body, "dry_run"@) is Ok
            && bool_field(body, "verify_only"@) is Ok && optional_string_field(body, "confirm"@)
            == Ok::<_, Seq<char>>(Some("RESTORE"@)) ==> restore_task(body) is Ok,
{
}

/// A query that is let through is carried out as it stands in the body, without the use of a
/// database, and with the consistency that is asked for; its plan and its profile likewise.
pub proof fn queries_are_carried_out_as_they_stand(
    request: HttpRequest,
    verdict: Result<(), Seq<char>>,
)
    requires
        query_of(request.body@, verdict) is Ok,
    ensures
        ({
            let (query, params) = query_of(request.body@, verdict)->Ok_0;
            &&& query_options(request) matches Ok(consistency) ==> task_of(
                WebRoute::Query,
                request,
                verdict,
            ) == Ok::<_, crate::web::Refusal>(Task::Query { query, params, consistency })
            &&& task_of(WebRoute::QueryPlan, request, verdict) == Ok::<_, crate::web::Refusal>(
                Task::QueryPlan { query, params },
            )
            &&& task_of(WebRoute::Profile, request, verdict) == Ok::<_, crate::web::Refusal>(
                Task::Profile { query, params },
            )
        }),
{
}

/// What a place does not read from the request is carried out as it is.
pub proof fn plain_places_are_carried_out_as_they_are(
    route: WebRoute,
    request: HttpRequest,
    verdict: Result<(), Seq<char>>,
)
    ensures
        !(route is Graph || route is AuditLog || route is PruneAuditLog || route is MaintenanceMode
            || route is RaftLeaderTransfer || route is Backup || route is Restore || route is Query
            || route is QueryPlan || route is Profile) ==> task_of(route, request, verdict) == Ok::<
            _,
            crate::web::Refusal,
        >(Task::Plain(route)),
        task_of(WebRoute::Graph, request, verdict) == Ok::<_, crate::web::Refusal>(
            Task::Graph { shown: request.query_text("limit"@) },
        ),
        task_of(WebRoute::MaintenanceMode, request, verdict) matches Ok(task) ==> task
            matches Task::MaintenanceMode { enabled } && bool_field(request.body@, "enabled"@)
            == Ok::<_, Seq<char>>(enabled),
        task_of(WebRoute::Backup, request, verdict) matches Ok(task) ==> task matches Task::Backup {
            path,
        } && required_string_field(request.body@, "path"@) == Ok::<_, Seq<char>>(path),
{
}

/// What was done is answered with success, and what failed with the status of its place.
pub proof fn outcomes_have_their_status(route: WebRoute, outcome: Result<Seq<char>, Seq<char>>)
    ensures
        outcome matches Ok(body) ==> task_answer(route, outcome).status == 200 && task_answer(
            route,
            outcome,
        ).body == body,
        outcome matches Err(e) ==> reads(
            task_answer(route, outcome).body,
            Json::Fields(seq![("error"@, Json::Text(e))]),
        ) && task_answer(route, outcome).status == (if route is Ready {
            503nat
        } else if route is OpenSession {
            401
        } else if route is PruneAuditLog || route is CreateDatabase || route is DeleteDatabase
            || route is DisableDatabase || route is EnableDatabase || route is SelectedDatabase
            || route is AddUser || route is RevokeToken || route is GrantRole || route is RevokeRole
            || route is DenyRole || route is AllowRole || route is CleanupTokens
            || route is CleanupSessions || route is DeleteUser || route is PitrPlan
            || route is PitrApply || route is PitrPending || route is PitrComplete
            || route is CloseSession {
            400
        } else {
            500
        }),
{
    if let Err(e) = outcome {
        errors_say_their_message(e);
    }
}

} // verus!
