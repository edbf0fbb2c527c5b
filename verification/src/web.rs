//! What the web interface does with a request.

use vstd::prelude::*;

use crate::cypher::{split_use, strip_database_use_clause, verdict_text};
use crate::http::{
    html_answer, json_answer, opt_text, text_answer, Answer, HttpRequest, HttpResponse,
};
use crate::json::{
    bool_field, error_body, extract_json_string_field, extract_optional_json_bool_field,
    extract_optional_json_string_field, extract_optional_json_u64_field, json_error,
    optional_number_field, optional_string_field, required_string_field,
};
use crate::limits::{after_failure, AuthFailureLimiter, MAX_FAILURES};
use crate::literal::{body_params, parse_json_params_field, Lit, RequestParams};
use crate::rbac::{
    action_of, may, web_action_for_request, web_role_allows_action, WebAction, WebRole,
};
use crate::text::{
    cat, cat3, dec, lower, lowered, number, read_u64, read_usize, same, same_ignoring_case, show,
    swap_char, swapped_char, trim, trimmed,
};
use crate::web_auth::{request_uses_session_cookie, uses_session_cookie};

verus! {

/// The places of the web interface.
#[derive(Clone, Copy, PartialEq, Eq, Structural, Debug)]
pub enum WebRoute {
    Ready,
    OpenSession,
    CloseSession,
    Index,
    Capabilities,
    SystemPolicy,
    DistributedQuery,
    Graph,
    Examples,
    Metrics,
    Prometheus,
    SlowQueries,
    Statistics,
    Storage,
    MetadataLog,
    Cluster,
    RoutingTable,
    Registry,
    Gossip,
    Users,
    Databases,
    AuditLog,
    RaftStatus,
    SelectedDatabase,
    PitrPending,
    PruneAuditLog,
    Snapshot,
    VerifyInvariants,
    RepairInvariants,
    MaintenanceMode,
    CreateDatabase,
    DeleteDatabase,
    DisableDatabase,
    EnableDatabase,
    AddUser,
    RevokeToken,
    GrantRole,
    RevokeRole,
    DenyRole,
    AllowRole,
    CleanupTokens,
    CleanupSessions,
    DeleteUser,
    AdvanceRebalance,
    PlanRebalance,
    StartRebalance,
    CancelRebalance,
    RaftLeaderTransfer,
    Backup,
    Restore,
    PitrPlan,
    PitrApply,
    PitrComplete,
    Query,
    QueryPlan,
    Profile,
}

/// The place that a reading request goes to.
pub open spec fn get_route(path: Seq<char>) -> Option<WebRoute> {
    if path == "/"@ || path == "/index.html"@ {
        Some(WebRoute::Index)
    } else if path == "/api/capabilities"@ {
        Some(WebRoute::Capabilities)
    } else if path == "/api/admin/system-policy"@ {
        Some(WebRoute::SystemPolicy)
    } else if path == "/api/admin/distributed-query"@ {
        Some(WebRoute::DistributedQuery)
    } else if path == "/api/graph"@ {
        Some(WebRoute::Graph)
    } else if path == "/api/examples"@ {
        Some(WebRoute::Examples)
    } else if path == "/api/metrics"@ {
        Some(WebRoute::Metrics)
    } else if path == "/metrics"@ {
        Some(WebRoute::Prometheus)
    } else if path == "/api/slow-queries"@ {
        Some(WebRoute::SlowQueries)
    } else if path == "/api/statistics"@ {
        Some(WebRoute::Statistics)
    } else if path == "/api/storage"@ {
        Some(WebRoute::Storage)
    } else if path == "/api/metadata-log"@ {
        Some(WebRoute::MetadataLog)
    } else if path == "/api/cluster"@ {
        Some(WebRoute::Cluster)
    } else if path == "/api/cluster/routing-table"@ {
        Some(WebRoute::RoutingTable)
    } else if path == "/api/cluster/registry"@ {
        Some(WebRoute::Registry)
    } else if path == "/api/admin/gossip"@ {
        Some(WebRoute::Gossip)
    } else if path == "/api/admin/users"@ {
        Some(WebRoute::Users)
    } else if path == "/api/admin/databases"@ {
        Some(WebRoute::Databases)
    } else if path == "/api/admin/audit-log"@ {
        Some(WebRoute::AuditLog)
    } else if path == "/api/admin/raft-status"@ {
        Some(WebRoute::RaftStatus)
    } else if path == "/api/database"@ {
        Some(WebRoute::SelectedDatabase)
    } else if path == "/api/admin/restore-pitr/pending"@ {
        Some(WebRoute::PitrPending)
    } else {
        None
    }
}

/// The place that a changing request goes to.
pub open spec fn post_route(path: Seq<char>) -> Option<WebRoute> {
    if path == "/api/admin/prune-audit-log"@ {
        Some(WebRoute::PruneAuditLog)
    } else if path == "/api/admin/snapshot-now"@ || path == "/api/admin/cluster/snapshot"@ {
        Some(WebRoute::Snapshot)
    } else if path == "/api/admin/verify-invariants"@ {
        Some(WebRoute::VerifyInvariants)
    } else if path == "/api/admin/repair-invariants"@ {
        Some(WebRoute::RepairInvariants)
    } else if path == "/api/admin/maintenance-mode"@ {
        Some(WebRoute::MaintenanceMode)
    } else if path == "/api/admin/databases"@ {
        Some(WebRoute::CreateDatabase)
    } else if path == "/api/admin/delete-database"@ {
        Some(WebRoute::DeleteDatabase)
    } else if path == "/api/admin/disable-database"@ {
        Some(WebRoute::DisableDatabase)
    } else if path == "/api/admin/enable-database"@ {
        Some(WebRoute::EnableDatabase)
    } else if path == "/api/use-database"@ {
        Some(WebRoute::SelectedDatabase)
    } else if path == "/api/admin/users"@ || path == "/api/admin/invoke-token"@ {
        Some(WebRoute::AddUser)
    } else if path == "/api/admin/revoke-token"@ {
        Some(WebRoute::RevokeToken)
    } else if path == "/api/admin/grant-role"@ {
        Some(WebRoute::GrantRole)
    } else if path == "/api/admin/revoke-role"@ {
        Some(WebRoute::RevokeRole)
    } else if path == "/api/admin/deny-role"@ {
        Some(WebRoute::DenyRole)
    } else if path == "/api/admin/allow-role"@ {
        Some(WebRoute::AllowRole)
    } else if path == "/api/admin/cleanup-expired-tokens"@ {
        Some(WebRoute::CleanupTokens)
    } else if path == "/api/admin/cleanup-expired-sessions"@ {
        Some(WebRoute::CleanupSessions)
    } else if path == "/api/admin/delete-user"@ {
        Some(WebRoute::DeleteUser)
    } else if path == "/api/cluster/advance-rebalance"@ || path == "/api/admin/cluster/migration/advance"@ {
        Some(WebRoute::AdvanceRebalance)
    } else if path == "/api/cluster/plan-rebalance"@ || path == "/api/admin/cluster/migration/plan"@ {
        Some(WebRoute::PlanRebalance)
    } else if path == "/api/admin/cluster/migration/start"@ {
        Some(WebRoute::StartRebalance)
    } else if path == "/api/admin/cluster/migration/cancel"@ {
        Some(WebRoute::CancelRebalance)
    } else if path == "/api/admin/raft-leader-transfer"@ {
        Some(WebRoute::RaftLeaderTransfer)
    } else if path == "/api/backup"@ {
        Some(WebRoute::Backup)
    } else if path == "/api/restore"@ {
        Some(WebRoute::Restore)
    } else if path == "/api/admin/restore-pitr"@ {
        Some(WebRoute::PitrPlan)
    } else if path == "/api/admin/restore-pitr/apply"@ {
        Some(WebRoute::PitrApply)
    } else if path == "/api/admin/restore-pitr/complete"@ {
        Some(WebRoute::PitrComplete)
    } else if path == "/api/query"@ {
        Some(WebRoute::Query)
    } else if path == "/api/query-plan"@ {
        Some(WebRoute::QueryPlan)
    } else if path == "/api/profile"@ {
        Some(WebRoute::Profile)
    } else {
        None
    }
}

/// The place that a request goes to.
pub open spec fn route_of(method: Seq<char>, path: Seq<char>) -> Option<WebRoute> {
    if method == "GET"@ {
        get_route(path)
    } else if method == "POST"@ {
        post_route(path)
    } else {
        None
    }
}

fn find_get_route(path: &str) -> (r: Option<WebRoute>)
    ensures
        r == get_route(path@),
{
    if same(path, "/") || same(path, "/index.html") {
        Some(WebRoute::Index)
    } else if same(path, "/api/capabilities") {
        Some(WebRoute::Capabilities)
    } else if same(path, "/api/admin/system-policy") {
        Some(WebRoute::SystemPolicy)
    } else if same(path, "/api/admin/distributed-query") {
        Some(WebRoute::DistributedQuery)
    } else if same(path, "/api/graph") {
        Some(WebRoute::Graph)
    } else if same(path, "/api/examples") {
        Some(WebRoute::Examples)
    } else if same(path, "/api/metrics") {
        Some(WebRoute::Metrics)
    } else if same(path, "/metrics") {
        Some(WebRoute::Prometheus)
    } else if same(path, "/api/slow-queries") {
        Some(WebRoute::SlowQueries)
    } else if same(path, "/api/statistics") {
        Some(WebRoute::Statistics)
    } else if same(path, "/api/storage") {
        Some(WebRoute::Storage)
    } else if same(path, "/api/metadata-log") {
        Some(WebRoute::MetadataLog)
    } else if same(path, "/api/cluster") {
        Some(WebRoute::Cluster)
    } else if same(path, "/api/cluster/routing-table") {
        Some(WebRoute::RoutingTable)
    } else if same(path, "/api/cluster/registry") {
        Some(WebRoute::Registry)
    } else if same(path, "/api/admin/gossip") {
        Some(WebRoute::Gossip)
    } else if same(path, "/api/admin/users") {
        Some(WebRoute::Users)
    } else if same(path, "/api/admin/databases") {
        Some(WebRoute::Databases)
    } else if same(path, "/api/admin/audit-log") {
        Some(WebRoute::AuditLog)
    } else if same(path, "/api/admin/raft-status") {
        Some(WebRoute::RaftStatus)
    } else if same(path, "/api/database") {
        Some(WebRoute::SelectedDatabase)
    } else if same(path, "/api/admin/restore-pitr/pending") {
        Some(WebRoute::PitrPending)
    } else {
        None
    }
}

fn find_post_route(path: &str) -> (r: Option<WebRoute>)
    ensures
        r == post_route(path@),
{
    if same(path, "/api/admin/prune-audit-log") {
        Some(WebRoute::PruneAuditLog)
    } else if same(path, "/api/admin/snapshot-now") || same(path, "/api/admin/cluster/snapshot") {
        Some(WebRoute::Snapshot)
    } else if same(path, "/api/admin/verify-invariants") {
        Some(WebRoute::VerifyInvariants)
    } else if same(path, "/api/admin/repair-invariants") {
        Some(WebRoute::RepairInvariants)
    } else if same(path, "/api/admin/maintenance-mode") {
        Some(WebRoute::MaintenanceMode)
    } else if same(path, "/api/admin/databases") {
        Some(WebRoute::CreateDatabase)
    } else if same(path, "/api/admin/delete-database") {
        Some(WebRoute::DeleteDatabase)
    } else if same(path, "/api/admin/disable-database") {
        Some(WebRoute::DisableDatabase)
    } else if same(path, "/api/admin/enable-database") {
        Some(WebRoute::EnableDatabase)
    } else if same(path, "/api/use-database") {
        Some(WebRoute::SelectedDatabase)
    } else if same(path, "/api/admin/users") || same(path, "/api/admin/invoke-token") {
        Some(WebRoute::AddUser)
    } else if same(path, "/api/admin/revoke-token") {
        Some(WebRoute::RevokeToken)
    } else if same(path, "/api/admin/grant-role") {
        Some(WebRoute::GrantRole)
    } else if same(path, "/api/admin/revoke-role") {
        Some(WebRoute::RevokeRole)
    } else if same(path, "/api/admin/deny-role") {
        Some(WebRoute::DenyRole)
    } else if same(path, "/api/admin/allow-role") {
        Some(WebRoute::AllowRole)
    } else if same(path, "/api/admin/cleanup-expired-tokens") {
        Some(WebRoute::CleanupTokens)
    } else if same(path, "/api/admin/cleanup-expired-sessions") {
        Some(WebRoute::CleanupSessions)
    } else if same(path, "/api/admin/delete-user") {
        Some(WebRoute::DeleteUser)
    } else if same(path, "/api/cluster/advance-rebalance") || same(path, "/api/admin/cluster/migration/advance") {
        Some(WebRoute::AdvanceRebalance)
    } else if same(path, "/api/cluster/plan-rebalance") || same(path, "/api/admin/cluster/migration/plan") {
        Some(WebRoute::PlanRebalance)
    } else if same(path, "/api/admin/cluster/migration/start") {
        Some(WebRoute::StartRebalance)
    } else if same(path, "/api/admin/cluster/migration/cancel") {
        Some(WebRoute::CancelRebalance)
    } else if same(path, "/api/admin/raft-leader-transfer") {
        Some(WebRoute::RaftLeaderTransfer)
    } else if same(path, "/api/backup") {
        Some(WebRoute::Backup)
    } else if same(path, "/api/restore") {
        Some(WebRoute::Restore)
    } else if same(path, "/api/admin/restore-pitr") {
        Some(WebRoute::PitrPlan)
    } else if same(path, "/api/admin/restore-pitr/apply") {
        Some(WebRoute::PitrApply)
    } else if same(path, "/api/admin/restore-pitr/complete") {
        Some(WebRoute::PitrComplete)
    } else if same(path, "/api/query") {
        Some(WebRoute::Query)
    } else if same(path, "/api/query-plan") {
        Some(WebRoute::QueryPlan)
    } else if same(path, "/api/profile") {
        Some(WebRoute::Profile)
    } else {
        None
    }
}

/// Finds the place that a request goes to.
pub fn web_route(method: &str, path: &str) -> (r: Option<WebRoute>)
    ensures
        r == route_of(method@, path@),
{
    if same(method, "GET") {
        find_get_route(path)
    } else if same(method, "POST") {
        find_post_route(path)
    } else {
        None
    }
}

/// The action that a place takes of itself.
pub open spec fn route_action(route: WebRoute) -> Option<WebAction> {
    match route {
        WebRoute::Users
        | WebRoute::AddUser
        | WebRoute::RevokeToken
        | WebRoute::GrantRole
        | WebRoute::RevokeRole
        | WebRoute::DenyRole
        | WebRoute::AllowRole
        | WebRoute::CleanupTokens
        | WebRoute::CleanupSessions
        | WebRoute::DeleteUser => Some(WebAction::TokenAdmin),
        WebRoute::Databases
        | WebRoute::CreateDatabase
        | WebRoute::DeleteDatabase
        | WebRoute::DisableDatabase
        | WebRoute::EnableDatabase => Some(WebAction::TenantAdmin),
        WebRoute::AuditLog
        | WebRoute::PruneAuditLog => Some(WebAction::AuditAdmin),
        WebRoute::RaftStatus
        | WebRoute::Snapshot
        | WebRoute::RaftLeaderTransfer => Some(WebAction::RaftAdmin),
        WebRoute::VerifyInvariants
        | WebRoute::RepairInvariants => Some(WebAction::RepairAdmin),
        WebRoute::MaintenanceMode
        | WebRoute::Restore
        | WebRoute::PitrPlan
        | WebRoute::PitrApply => Some(WebAction::RestoreAdmin),
        WebRoute::AdvanceRebalance
        | WebRoute::PlanRebalance
        | WebRoute::StartRebalance
        | WebRoute::CancelRebalance => Some(WebAction::ClusterAdmin),
        WebRoute::Backup => Some(WebAction::BackupAdmin),
        WebRoute::Query => Some(WebAction::GraphWrite),
        _ => None,
    }
}

/// The action that a place takes of itself.
pub fn web_route_action(route: WebRoute) -> (r: Option<WebAction>)
    ensures
        r == route_action(route),
{
    match route {
        WebRoute::Users
        | WebRoute::AddUser
        | WebRoute::RevokeToken
        | WebRoute::GrantRole
        | WebRoute::RevokeRole
        | WebRoute::DenyRole
        | WebRoute::AllowRole
        | WebRoute::CleanupTokens
        | WebRoute::CleanupSessions
        | WebRoute::DeleteUser => Some(WebAction::TokenAdmin),
        WebRoute::Databases
        | WebRoute::CreateDatabase
        | WebRoute::DeleteDatabase
        | WebRoute::DisableDatabase
        | WebRoute::EnableDatabase => Some(WebAction::TenantAdmin),
        WebRoute::AuditLog
        | WebRoute::PruneAuditLog => Some(WebAction::AuditAdmin),
        WebRoute::RaftStatus
        | WebRoute::Snapshot
        | WebRoute::RaftLeaderTransfer => Some(WebAction::RaftAdmin),
        WebRoute::VerifyInvariants
        | WebRoute::RepairInvariants => Some(WebAction::RepairAdmin),
        WebRoute::MaintenanceMode
        | WebRoute::Restore
        | WebRoute::PitrPlan
        | WebRoute::PitrApply => Some(WebAction::RestoreAdmin),
        WebRoute::AdvanceRebalance
        | WebRoute::PlanRebalance
        | WebRoute::StartRebalance
        | WebRoute::CancelRebalance => Some(WebAction::ClusterAdmin),
        WebRoute::Backup => Some(WebAction::BackupAdmin),
        WebRoute::Query => Some(WebAction::GraphWrite),
        _ => None,
    }
}

/// The status with which a place answers that its work failed.
pub open spec fn failure_status(route: WebRoute) -> nat {
    match route {
        WebRoute::Ready => 503,
        WebRoute::OpenSession => 401,
        WebRoute::PruneAuditLog
        | WebRoute::CreateDatabase
        | WebRoute::DeleteDatabase
        | WebRoute::DisableDatabase
        | WebRoute::EnableDatabase
        | WebRoute::SelectedDatabase
        | WebRoute::AddUser
        | WebRoute::RevokeToken
        | WebRoute::GrantRole
        | WebRoute::RevokeRole
        | WebRoute::DenyRole
        | WebRoute::AllowRole
        | WebRoute::CleanupTokens
        | WebRoute::CleanupSessions
        | WebRoute::DeleteUser
        | WebRoute::PitrPlan
        | WebRoute::PitrApply
        | WebRoute::PitrPending
        | WebRoute::PitrComplete
        | WebRoute::CloseSession => 400,
        _ => 500,
    }
}

fn web_failure_status(route: WebRoute) -> (r: u16)
    ensures
        r == failure_status(route),
{
    match route {
        WebRoute::Ready => 503,
        WebRoute::OpenSession => 401,
        WebRoute::PruneAuditLog
        | WebRoute::CreateDatabase
        | WebRoute::DeleteDatabase
        | WebRoute::DisableDatabase
        | WebRoute::EnableDatabase
        | WebRoute::SelectedDatabase
        | WebRoute::AddUser
        | WebRoute::RevokeToken
        | WebRoute::GrantRole
        | WebRoute::RevokeRole
        | WebRoute::DenyRole
        | WebRoute::AllowRole
        | WebRoute::CleanupTokens
        | WebRoute::CleanupSessions
        | WebRoute::DeleteUser
        | WebRoute::PitrPlan
        | WebRoute::PitrApply
        | WebRoute::PitrPending
        | WebRoute::PitrComplete
        | WebRoute::CloseSession => 400,
        _ => 500,
    }
}

/// What the web interface counts.
#[derive(Clone, Copy)]
pub struct WebMetrics {
    pub http_requests: u64,
    pub http_errors: u64,
    pub auth_failures: u64,
    pub auth_rate_limited: u64,
    pub queries: u64,
    pub query_errors: u64,
    pub slow_queries: u64,
    pub registry_requests: u64,
    pub stale_epoch_rejections: u64,
    pub redirects: u64,
    pub gossip_fanout_success: u64,
    pub gossip_fanout_failure: u64,
    pub gossip_auth_failures: u64,
    pub gossip_negotiation_success: u64,
    pub gossip_negotiation_failure: u64,
}

/// What is known about a request before it is answered.
pub struct WebFacts {
    /// The database of the request, or what is wrong with its name.
    pub database: Result<String, String>,
    /// The role of the request's sender.
    pub role: Option<WebRole>,
    /// Whether the request comes from its session's own page.
    pub csrf_valid: bool,
    /// Whether the database is being restored.
    pub maintenance: Result<bool, String>,
    /// The version of the database's routing table.
    pub routing_version: Result<u64, String>,
    /// What the check of names says of the database that the query names.
    pub use_verdict: Result<(), String>,
    /// The time, in milliseconds.
    pub now_ms: u128,
}

/// How far a request comes.
pub enum Gate {
    /// The server is alive.
    Healthy,
    /// The request names no database.
    BadDatabase(Seq<char>),
    /// The request goes to a place that needs no role.
    Open(WebRoute),
    /// The sender has no role; whether it has failed too often.
    Unauthorized(bool),
    /// The request does not come from its session's own page.
    BadCsrf,
    /// The sender's role does not allow the action.
    Forbidden,
    /// The database is being restored.
    Draining,
    /// What is needed to decide is not known.
    Unknown(Seq<char>),
    /// The sender knows an older routing table than the one of this version.
    Stale(nat),
    /// The request goes on.
    Pass(WebRole),
}

/// How far a request comes.
pub enum WebGate {
    Healthy,
    BadDatabase(String),
    Open(WebRoute),
    Unauthorized(bool),
    BadCsrf,
    Forbidden,
    Draining,
    Unknown(String),
    Stale(u64),
    Pass(WebRole),
}

impl WebGate {
    pub open spec fn view(&self) -> Gate {
        match *self {
            WebGate::Healthy => Gate::Healthy,
            WebGate::BadDatabase(e) => Gate::BadDatabase(e@),
            WebGate::Open(route) => Gate::Open(route),
            WebGate::Unauthorized(limited) => Gate::Unauthorized(limited),
            WebGate::BadCsrf => Gate::BadCsrf,
            WebGate::Forbidden => Gate::Forbidden,
            WebGate::Draining => Gate::Draining,
            WebGate::Unknown(e) => Gate::Unknown(e@),
            WebGate::Stale(version) => Gate::Stale(version as nat),
            WebGate::Pass(role) => Gate::Pass(role),
        }
    }
}

/// The version of the routing table that a request says it knows.
pub open spec fn client_epoch(ownership: Option<Seq<char>>, routing: Option<Seq<char>>) -> Option<
    nat,
> {
    let given = match ownership {
        Some(t) => Some(t),
        None => routing,
    };
    match given {
        Some(t) => number(t, u64::MAX as nat),
        None => None,
    }
}

/// Whether a request depends on the routing table that its sender knows.
pub open spec fn is_routed(path: Seq<char>) -> bool {
    path == "/api/query"@ || path == "/api/query-plan"@ || path == "/api/profile"@ || path
        == "/api/graph"@
}

/// Whether a request waits while the database is being restored.
pub open spec fn is_drained(method: Seq<char>, path: Seq<char>) -> bool {
    method == "POST"@ && path == "/api/query"@
}

/// Whether a request has to show that it comes from its session's own page.
pub open spec fn needs_csrf(method: Seq<char>, cookie: Option<Seq<char>>) -> bool {
    lower(method) != lower("GET"@) && uses_session_cookie(cookie)
}

/// What a request with a role still has to pass.
pub open spec fn second_gate(request: HttpRequest, facts: WebFacts, role: WebRole) -> Gate {
    let method = request.method@;
    let path = request.path@;
    let action = action_of(method, path);
    if needs_csrf(method, request.header_text("cookie"@)) && !facts.csrf_valid {
        Gate::BadCsrf
    } else if action is Some && !may(role, action.unwrap()) {
        Gate::Forbidden
    } else if is_drained(method, path) && facts.maintenance is Err {
        Gate::Unknown(facts.maintenance->Err_0@)
    } else if is_drained(method, path) && facts.maintenance->Ok_0 {
        Gate::Draining
    } else {
        match client_epoch(
            request.header_text("x-neo4r-ownership-epoch"@),
            request.header_text("x-neo4r-routing-epoch"@),
        ) {
            Some(epoch) => if !is_routed(path) {
                Gate::Pass(role)
            } else {
                match facts.routing_version {
                    Err(e) => Gate::Unknown(e@),
                    Ok(version) => if epoch < version {
                        Gate::Stale(version as nat)
                    } else {
                        Gate::Pass(role)
                    },
                }
            },
            None => Gate::Pass(role),
        }
    }
}

/// How far a request comes.
pub open spec fn gate(request: HttpRequest, facts: WebFacts, limited: bool) -> Gate {
    let method = request.method@;
    let path = request.path@;
    if method == "GET"@ && path == "/healthz"@ {
        Gate::Healthy
    } else if facts.database is Err {
        Gate::BadDatabase(facts.database->Err_0@)
    } else if method == "GET"@ && path == "/readyz"@ {
        Gate::Open(WebRoute::Ready)
    } else if method == "POST"@ && path == "/api/session"@ {
        Gate::Open(WebRoute::OpenSession)
    } else if method == "POST"@ && path == "/api/session/logout"@ {
        Gate::Open(WebRoute::CloseSession)
    } else {
        match facts.role {
            None => Gate::Unauthorized(limited),
            Some(role) => second_gate(request, facts, role),
        }
    }
}

fn read_client_epoch(request: &HttpRequest) -> (r: Option<u64>)
    requires
        request.well_formed(),
    ensures
        match r {
            Some(n) => client_epoch(
                request.header_text("x-neo4r-ownership-epoch"@),
                request.header_text("x-neo4r-routing-epoch"@),
            ) == Some(n as nat),
            None => client_epoch(
                request.header_text("x-neo4r-ownership-epoch"@),
                request.header_text("x-neo4r-routing-epoch"@),
            ) is None,
        },
{
    let given = match request.header("x-neo4r-ownership-epoch") {
        Some(t) => Some(t),
        None => request.header("x-neo4r-routing-epoch"),
    };
    match given {
        Some(t) => read_u64(t.as_str()),
        None => None,
    }
}

fn pass_second_gate(request: &HttpRequest, facts: &WebFacts, role: WebRole) -> (r: WebGate)
    requires
        request.well_formed(),
    ensures
        r@ == second_gate(*request, *facts, role),
{
    let method = request.method.as_str();
    let path = request.path.as_str();
    if !same_ignoring_case(method, "GET") && request_uses_session_cookie(request)
        && !facts.csrf_valid {
        return WebGate::BadCsrf;
    }
    if let Some(action) = web_action_for_request(method, path) {
        if !web_role_allows_action(role, action) {
            return WebGate::Forbidden;
        }
    }
    if same(method, "POST") && same(path, "/api/query") {
        match &facts.maintenance {
            Err(e) => return WebGate::Unknown(e.as_str().to_owned()),
            Ok(restoring) => {
                if *restoring {
                    return WebGate::Draining;
                }
            },
        }
    }
    if same(path, "/api/query") || same(path, "/api/query-plan") || same(path, "/api/profile")
        || same(path, "/api/graph") {
        if let Some(epoch) = read_client_epoch(request) {
            match &facts.routing_version {
                Err(e) => return WebGate::Unknown(e.as_str().to_owned()),
                Ok(version) => {
                    if epoch < *version {
                        return WebGate::Stale(*version);
                    }
                },
            }
        }
    }
    WebGate::Pass(role)
}

/// Whether a failure of an unknown sender is one too many.
pub open spec fn too_many_failures(limiter: AuthFailureLimiter, now_ms: u128) -> bool {
    after_failure(limiter.count("web"@), now_ms).failures > MAX_FAILURES
}

/// Lets a request pass, or tells why not. Only a sender without a role is counted.
pub fn pass_gate(request: &HttpRequest, facts: &WebFacts, limiter: &mut AuthFailureLimiter) -> (r:
    WebGate)
    requires
        request.well_formed(),
        old(limiter).well_formed(),
    ensures
        final(limiter).well_formed(),
        r@ == gate(*request, *facts, too_many_failures(*old(limiter), facts.now_ms)),
        final(limiter)@ == (if r@ is Unauthorized {
            old(limiter)@.insert(
                "web"@,
                after_failure(old(limiter).count("web"@), facts.now_ms),
            )
        } else {
            old(limiter)@
        }),
{
    let method = request.method.as_str();
    let path = request.path.as_str();
    if same(method, "GET") && same(path, "/healthz") {
        return WebGate::Healthy;
    }
    if let Err(e) = &facts.database {
        return WebGate::BadDatabase(e.as_str().to_owned());
    }
    if same(method, "GET") && same(path, "/readyz") {
        return WebGate::Open(WebRoute::Ready);
    }
    if same(method, "POST") && same(path, "/api/session") {
        return WebGate::Open(WebRoute::OpenSession);
    }
    if same(method, "POST") && same(path, "/api/session/logout") {
        return WebGate::Open(WebRoute::CloseSession);
    }
    match facts.role {
        None => {
            let limited = limiter.record_and_should_limit("web", facts.now_ms);
            WebGate::Unauthorized(limited)
        },
        Some(role) => pass_second_gate(request, facts, role),
    }
}

/// The body of the answer to a sender that knows an older routing table.
pub open spec fn stale_body(version: nat) -> Seq<char> {
    "{\"error\":\"stale ownership epoch\",\"routing_version\":"@ + dec(version)
        + ",\"ownership_epoch\":"@ + dec(version) + ",\"retryable\":true}"@
}

/// An answer that reports an error.
pub open spec fn error_answer(status: nat, message: Seq<char>) -> Answer {
    json_answer(status, error_body(message))
}

/// The answer to a request that comes no further.
pub open spec fn gate_answer(g: Gate) -> Answer {
    match g {
        Gate::Healthy => json_answer(200, "{\"status\":\"ok\"}"@),
        Gate::BadDatabase(e) => error_answer(400, e),
        Gate::Unauthorized(limited) => if limited {
            error_answer(429, "auth rate limited"@)
        } else {
            error_answer(401, "unauthorized"@)
        },
        Gate::BadCsrf => error_answer(403, "missing csrf token"@),
        Gate::Forbidden => error_answer(403, "forbidden"@),
        Gate::Draining => error_answer(
            503,
            "restore maintenance mode is draining mutating requests"@,
        ),
        Gate::Unknown(e) => error_answer(500, e),
        Gate::Stale(version) => json_answer(409, stale_body(version)),
        Gate::Open(_) => error_answer(404, "not found"@),
        Gate::Pass(_) => error_answer(404, "not found"@),
    }
}

fn error_response(status: u16, message: &str) -> (r: HttpResponse)
    ensures
        r@ == error_answer(status as nat, message@),
{
    HttpResponse::json_status(status, json_error(message))
}

fn answer_gate(g: &WebGate) -> (r: HttpResponse)
    ensures
        r@ == gate_answer(g@),
{
    match g {
        WebGate::Healthy => HttpResponse::json("{\"status\":\"ok\"}".to_owned()),
        WebGate::BadDatabase(e) => error_response(400, e.as_str()),
        WebGate::Unauthorized(limited) => if *limited {
            error_response(429, "auth rate limited")
        } else {
            error_response(401, "unauthorized")
        },
        WebGate::BadCsrf => error_response(403, "missing csrf token"),
        WebGate::Forbidden => error_response(403, "forbidden"),
        WebGate::Draining => error_response(
            503,
            "restore maintenance mode is draining mutating requests",
        ),
        WebGate::Unknown(e) => error_response(500, e.as_str()),
        WebGate::Stale(version) => {
            let mut body = "{\"error\":\"stale ownership epoch\",\"routing_version\":".to_owned();
            body.append(show(*version as u128).as_str());
            body.append(",\"ownership_epoch\":");
            body.append(show(*version as u128).as_str());
            body.append(",\"retryable\":true}");
            HttpResponse::json_status(409, body)
        },
        WebGate::Open(_) => error_response(404, "not found"),
        WebGate::Pass(_) => error_response(404, "not found"),
    }
}

/// The counts after a request has come as far as it comes.
pub open spec fn counted(m: WebMetrics, g: Gate) -> WebMetrics {
    let m = WebMetrics { http_requests: m.http_requests.wrapping_add(1), ..m };
    match g {
        Gate::Unauthorized(limited) => WebMetrics {
            http_errors: m.http_errors.wrapping_add(1),
            auth_failures: m.auth_failures.wrapping_add(1),
            auth_rate_limited: if limited {
                m.auth_rate_limited.wrapping_add(1)
            } else {
                m.auth_rate_limited
            },
            ..m
        },
        Gate::BadCsrf | Gate::Draining => WebMetrics {
            http_errors: m.http_errors.wrapping_add(1),
            ..m
        },
        Gate::Stale(_) => WebMetrics {
            stale_epoch_rejections: m.stale_epoch_rejections.wrapping_add(1),
            ..m
        },
        _ => m,
    }
}

fn count_gate(m: &mut WebMetrics, g: &WebGate)
    ensures
        *final(m) == counted(*old(m), g@),
{
    m.http_requests = m.http_requests.wrapping_add(1);
    match g {
        WebGate::Unauthorized(limited) => {
            m.http_errors = m.http_errors.wrapping_add(1);
            m.auth_failures = m.auth_failures.wrapping_add(1);
            if *limited {
                m.auth_rate_limited = m.auth_rate_limited.wrapping_add(1);
            }
        },
        WebGate::BadCsrf | WebGate::Draining => {
            m.http_errors = m.http_errors.wrapping_add(1);
        },
        WebGate::Stale(_) => {
            m.stale_epoch_rejections = m.stale_epoch_rejections.wrapping_add(1);
        },
        _ => {},
    }
}

/// How fresh the data has to be that a query reads.
#[derive(Clone, Copy, PartialEq, Eq, Structural, Debug)]
pub enum ReadConsistency {
    Strong,
    FollowerStale,
    BoundedStaleness { max_staleness_ms: u64 },
}

/// The consistency that a request asks for, in words.
pub open spec fn consistency_name(header: Option<Seq<char>>, body: Seq<char>) -> Seq<char> {
    let given = match header {
        Some(h) => Some(h),
        None => match optional_string_field(body, "read_consistency"@) {
            Ok(t) => t,
            Err(_) => None,
        },
    };
    let name = match given {
        Some(t) => t,
        None => "strong"@,
    };
    swap_char(lower(trim(name)), '-', '_')
}

/// The greatest staleness that a request allows.
pub open spec fn staleness(header: Option<Seq<char>>, body: Seq<char>) -> nat {
    let given = match header {
        Some(h) => number(h, u64::MAX as nat),
        None => None,
    };
    match given {
        Some(n) => n,
        None => match optional_number_field(body, "max_staleness_ms"@) {
            Ok(Some(n)) => n,
            _ => 1000,
        },
    }
}

/// How fresh the data has to be that the query of a request reads.
pub open spec fn query_options(request: HttpRequest) -> Result<ReadConsistency, Seq<char>> {
    let name = consistency_name(request.header_text("x-neo4r-read-consistency"@), request.body@);
    if name == "strong"@ {
        Ok(ReadConsistency::Strong)
    } else if name == "follower_stale"@ || name == "stale"@ {
        Ok(ReadConsistency::FollowerStale)
    } else if name == "bounded_staleness"@ || name == "bounded"@ {
        Ok(
            ReadConsistency::BoundedStaleness {
                max_staleness_ms: staleness(
                    request.header_text("x-neo4r-max-staleness-ms"@),
                    request.body@,
                ) as u64,
            },
        )
    } else {
        Err(
            "unsupported read_consistency "@ + name
                + "; expected strong, follower_stale, or bounded_staleness"@,
        )
    }
}

fn read_staleness(request: &HttpRequest) -> (r: u64)
    requires
        request.well_formed(),
    ensures
        r == staleness(request.header_text("x-neo4r-max-staleness-ms"@), request.body@),
{
    if let Some(h) = request.header("x-neo4r-max-staleness-ms") {
        if let Some(n) = read_u64(h.as_str()) {
            return n;
        }
    }
    match extract_optional_json_u64_field(request.body.as_str(), "max_staleness_ms") {
        Ok(Some(n)) => n,
        _ => 1000,
    }
}

/// Reads how fresh the data has to be that the query of a request reads.
pub fn parse_query_options(request: &HttpRequest) -> (r: Result<ReadConsistency, String>)
    requires
        request.well_formed(),
    ensures
        match r {
            Ok(c) => query_options(*request) == Ok::<ReadConsistency, Seq<char>>(c),
            Err(e) => query_options(*request) == Err::<ReadConsistency, Seq<char>>(e@),
        },
{
    let given = match request.header("x-neo4r-read-consistency") {
        Some(h) => Some(h),
        None => match extract_optional_json_string_field(
            request.body.as_str(),
            "read_consistency",
        ) {
            Ok(t) => t,
            Err(_) => None,
        },
    };
    let name = match given {
        Some(t) => t,
        None => "strong".to_owned(),
    };
    let name = swapped_char(lowered(trimmed(name.as_str()).as_str()).as_str(), '-', '_');
    if same(name.as_str(), "strong") {
        Ok(ReadConsistency::Strong)
    } else if same(name.as_str(), "follower_stale") || same(name.as_str(), "stale") {
        Ok(ReadConsistency::FollowerStale)
    } else if same(name.as_str(), "bounded_staleness") || same(name.as_str(), "bounded") {
        Ok(ReadConsistency::BoundedStaleness { max_staleness_ms: read_staleness(request) })
    } else {
        Err(
            cat3(
                "unsupported read_consistency ",
                name.as_str(),
                "; expected strong, follower_stale, or bounded_staleness",
            ),
        )
    }
}

/// What is left to do for a request.
pub enum WebTask {
    /// The work of a place that takes nothing from the request, or all of it.
    Plain(WebRoute),
    Graph { shown: Option<String> },
    AuditLog { action: Option<String>, target: Option<String>, limit: Option<usize> },
    PruneAuditLog { retention_days: u64 },
    MaintenanceMode { enabled: bool },
    RaftLeaderTransfer { shard_id: u64, transferee_id: u64 },
    Backup { path: String },
    Restore { path: String, dry_run: bool },
    Query { query: String, params: RequestParams, consistency: ReadConsistency },
    QueryPlan { query: String, params: RequestParams },
    Profile { query: String, params: RequestParams },
}

/// What is left to do for a request.
pub enum Task {
    Plain(WebRoute),
    Graph { shown: Option<Seq<char>> },
    AuditLog { action: Option<Seq<char>>, target: Option<Seq<char>>, limit: Option<nat> },
    PruneAuditLog { retention_days: nat },
    MaintenanceMode { enabled: bool },
    RaftLeaderTransfer { shard_id: nat, transferee_id: nat },
    Backup { path: Seq<char> },
    Restore { path: Seq<char>, dry_run: bool },
    Query { query: Seq<char>, params: Map<Seq<char>, Lit>, consistency: ReadConsistency },
    QueryPlan { query: Seq<char>, params: Map<Seq<char>, Lit> },
    Profile { query: Seq<char>, params: Map<Seq<char>, Lit> },
}

impl WebTask {
    pub open spec fn view(&self) -> Task {
        match *self {
            WebTask::Plain(route) => Task::Plain(route),
            WebTask::Graph { shown } => Task::Graph { shown: opt_text(shown) },
            WebTask::AuditLog { action, target, limit } => Task::AuditLog {
                action: opt_text(action),
                target: opt_text(target),
                limit: match limit {
                    Some(n) => Some(n as nat),
                    None => None,
                },
            },
            WebTask::PruneAuditLog { retention_days } => Task::PruneAuditLog {
                retention_days: retention_days as nat,
            },
            WebTask::MaintenanceMode { enabled } => Task::MaintenanceMode { enabled },
            WebTask::RaftLeaderTransfer { shard_id, transferee_id } => Task::RaftLeaderTransfer {
                shard_id: shard_id as nat,
                transferee_id: transferee_id as nat,
            },
            WebTask::Backup { path } => Task::Backup { path: path@ },
            WebTask::Restore { path, dry_run } => Task::Restore { path: path@, dry_run },
            WebTask::Query { query, params, consistency } => Task::Query {
                query: query@,
                params: params@,
                consistency,
            },
            WebTask::QueryPlan { query, params } => Task::QueryPlan {
                query: query@,
                params: params@,
            },
            WebTask::Profile { query, params } => Task::Profile { query: query@, params: params@ },
        }
    }

    /// The parameters of the query, if there is one, stand in order.
    pub open spec fn well_formed(&self) -> bool {
        match *self {
            WebTask::Query { query, params, consistency } => params.well_formed(),
            WebTask::QueryPlan { query, params } => params.well_formed(),
            WebTask::Profile { query, params } => params.well_formed(),
            _ => true,
        }
    }
}

/// Why a request cannot be worked on: the status and the message of the answer, and
/// whether it counts as an error.
pub struct Refusal {
    pub status: nat,
    pub message: Seq<char>,
    pub counts: bool,
}

pub open spec fn refused(status: nat, message: Seq<char>) -> Result<Task, Refusal> {
    Err(Refusal { status, message, counts: false })
}

/// Why a request cannot be worked on.
pub struct WebRefusal {
    pub status: u16,
    pub message: String,
    pub counts: bool,
}

impl WebRefusal {
    pub open spec fn view(&self) -> Refusal {
        Refusal { status: self.status as nat, message: self.message@, counts: self.counts }
    }
}

/// A number that a request has to give.
pub open spec fn required_number(body: Seq<char>, field: Seq<char>) -> Result<nat, Seq<char>> {
    match optional_number_field(body, field) {
        Err(e) => Err(e),
        Ok(None) => Err("missing "@ + field),
        Ok(Some(n)) => Ok(n),
    }
}

fn read_required_number(body: &str, field: &str) -> (r: Result<u64, String>)
    ensures
        match r {
            Ok(n) => required_number(body@, field@) == Ok::<nat, Seq<char>>(n as nat),
            Err(e) => required_number(body@, field@) == Err::<nat, Seq<char>>(e@),
        },
{
    match extract_optional_json_u64_field(body, field) {
        Err(e) => Err(e),
        Ok(None) => Err(cat("missing ", field)),
        Ok(Some(n)) => Ok(n),
    }
}

/// Whether a request asks for a restore that changes nothing.
pub open spec fn restore_dry_run(body: Seq<char>) -> Result<bool, Seq<char>> {
    match bool_field(body, "dry_run"@) {
        Err(e) => Err(e),
        Ok(true) => Ok(true),
        Ok(false) => bool_field(body, "verify_only"@),
    }
}

/// The restore that a request asks for: one that changes data has to be confirmed.
pub open spec fn restore_task(body: Seq<char>) -> Result<Task, Refusal> {
    match required_string_field(body, "path"@) {
        Err(e) => refused(500, e),
        Ok(path) => match restore_dry_run(body) {
            Err(e) => refused(500, e),
            Ok(dry_run) => if dry_run {
                Ok(Task::Restore { path, dry_run })
            } else {
                match optional_string_field(body, "confirm"@) {
                    Err(e) => refused(500, e),
                    Ok(confirm) => if confirm == Some("RESTORE"@) {
                        Ok(Task::Restore { path, dry_run })
                    } else {
                        refused(500, "destructive restore requires confirm=\"RESTORE\""@)
                    },
                }
            },
        },
    }
}

fn read_restore_task(body: &str) -> (r: Result<WebTask, WebRefusal>)
    ensures
        match r {
            Ok(t) => t.well_formed() && restore_task(body@) == Ok::<Task, Refusal>(t@),
            Err(e) => restore_task(body@) == Err::<Task, Refusal>(e@),
        },
{
    let path = match extract_json_string_field(body, "path") {
        Err(e) => return Err(WebRefusal { status: 500, message: e, counts: false }),
        Ok(path) => path,
    };
    let dry_run = match extract_optional_json_bool_field(body, "dry_run") {
        Err(e) => return Err(WebRefusal { status: 500, message: e, counts: false }),
        Ok(b) => if b {
            true
        } else {
            match extract_optional_json_bool_field(body, "verify_only") {
                Err(e) => return Err(WebRefusal { status: 500, message: e, counts: false }),
                Ok(b) => b,
            }
        },
    };
    if !dry_run {
        match extract_optional_json_string_field(body, "confirm") {
            Err(e) => return Err(WebRefusal { status: 500, message: e, counts: false }),
            Ok(confirm) => {
                let confirmed = match confirm {
                    Some(word) => same(word.as_str(), "RESTORE"),
                    None => false,
                };
                if !confirmed {
                    return Err(
                        WebRefusal {
                            status: 500,
                            message: "destructive restore requires confirm=\"RESTORE\"".to_owned(),
                            counts: false,
                        },
                    );
                }
            },
        }
    }
    Ok(WebTask::Restore { path, dry_run })
}

/// The query of a request and its parameters.
pub open spec fn query_of(body: Seq<char>, verdict: Result<(), Seq<char>>) -> Result<
    (Seq<char>, Map<Seq<char>, Lit>),
    Refusal,
> {
    match required_string_field(body, "query"@) {
        Err(e) => Err(Refusal { status: 400, message: e, counts: false }),
        Ok(query) => match split_use(query, verdict) {
            Err(e) => Err(Refusal { status: 500, message: e, counts: true }),
            Ok((_, rest)) => match body_params(body) {
                Err(e) => Err(Refusal { status: 500, message: e, counts: true }),
                Ok(params) => Ok((rest, params)),
            },
        },
    }
}

fn read_query(body: &str, verdict: &Result<(), String>) -> (r: Result<
    (String, RequestParams),
    WebRefusal,
>)
    ensures
        match r {
            Ok((query, params)) => params.well_formed() && query_of(body@, verdict_text(*verdict))
                == Ok::<(Seq<char>, Map<Seq<char>, Lit>), Refusal>((query@, params@)),
            Err(e) => query_of(body@, verdict_text(*verdict)) == Err::<
                (Seq<char>, Map<Seq<char>, Lit>),
                Refusal,
            >(e@),
        },
{
    let query = match extract_json_string_field(body, "query") {
        Err(e) => return Err(WebRefusal { status: 400, message: e, counts: false }),
        Ok(query) => query,
    };
    let rest = match strip_database_use_clause(query.as_str(), verdict) {
        Err(e) => return Err(WebRefusal { status: 500, message: e, counts: true }),
        Ok(rest) => rest,
    };
    match parse_json_params_field(body) {
        Err(e) => Err(WebRefusal { status: 500, message: e, counts: true }),
        Ok(params) => Ok((rest, params)),
    }
}

/// A refusal that does not count as an error.
pub open spec fn uncounted(e: Refusal) -> Refusal {
    Refusal { counts: false, ..e }
}

/// What is left to do at a place for a request.
pub open spec fn task_of(route: WebRoute, request: HttpRequest, verdict: Result<(), Seq<char>>) -> Result<
    Task,
    Refusal,
> {
    let body = request.body@;
    match route {
        WebRoute::Graph => Ok(Task::Graph { shown: request.query_text("limit"@) }),
        WebRoute::AuditLog => Ok(
            Task::AuditLog {
                action: request.query_text("action"@),
                target: request.query_text("target"@),
                limit: match request.query_text("limit"@) {
                    Some(t) => number(t, usize::MAX as nat),
                    None => None,
                },
            },
        ),
        WebRoute::PruneAuditLog => match optional_number_field(body, "retention_days"@) {
            Err(e) => refused(400, e),
            Ok(None) => refused(400, "retention_days is required"@),
            Ok(Some(n)) => Ok(Task::PruneAuditLog { retention_days: n }),
        },
        WebRoute::MaintenanceMode => match bool_field(body, "enabled"@) {
            Err(e) => refused(500, e),
            Ok(enabled) => Ok(Task::MaintenanceMode { enabled }),
        },
        WebRoute::RaftLeaderTransfer => match required_number(body, "shard_id"@) {
            Err(e) => refused(400, e),
            Ok(shard_id) => match required_number(body, "transferee_id"@) {
                Err(e) => refused(400, e),
                Ok(transferee_id) => Ok(Task::RaftLeaderTransfer { shard_id, transferee_id }),
            },
        },
        WebRoute::Backup => match required_string_field(body, "path"@) {
            Err(e) => refused(500, e),
            Ok(path) => Ok(Task::Backup { path }),
        },
        WebRoute::Restore => restore_task(body),
        WebRoute::Query => match query_of(body, verdict) {
            Err(e) => Err(e),
            Ok((query, params)) => match query_options(request) {
                Err(e) => Err(Refusal { status: 500, message: e, counts: true }),
                Ok(consistency) => Ok(Task::Query { query, params, consistency }),
            },
        },
        WebRoute::QueryPlan => match query_of(body, verdict) {
            Err(e) => Err(uncounted(e)),
            Ok((query, params)) => Ok(Task::QueryPlan { query, params }),
        },
        WebRoute::Profile => match query_of(body, verdict) {
            Err(e) => Err(uncounted(e)),
            Ok((query, params)) => Ok(Task::Profile { query, params }),
        },
        _ => Ok(Task::Plain(route)),
    }
}

/// Reads what is left to do at a place for a request.
pub fn web_task(route: WebRoute, request: &HttpRequest, verdict: &Result<(), String>) -> (r: Result<
    WebTask,
    WebRefusal,
>)
    requires
        request.well_formed(),
    ensures
        match r {
            Ok(t) => t.well_formed() && task_of(route, *request, verdict_text(*verdict)) == Ok::<
                Task,
                Refusal,
            >(t@),
            Err(e) => task_of(route, *request, verdict_text(*verdict)) == Err::<Task, Refusal>(e@),
        },
{
    let body = request.body.as_str();
    match route {
        WebRoute::Graph => Ok(WebTask::Graph { shown: request.query_value("limit") }),
        WebRoute::AuditLog => {
            let limit = match request.query_value("limit") {
                Some(t) => read_usize(t.as_str()),
                None => None,
            };
            Ok(
                WebTask::AuditLog {
                    action: request.query_value("action"),
                    target: request.query_value("target"),
                    limit,
                },
            )
        },
        WebRoute::PruneAuditLog => match extract_optional_json_u64_field(body, "retention_days") {
            Err(e) => Err(WebRefusal { status: 400, message: e, counts: false }),
            Ok(None) => Err(
                WebRefusal {
                    status: 400,
                    message: "retention_days is required".to_owned(),
                    counts: false,
                },
            ),
            Ok(Some(n)) => Ok(WebTask::PruneAuditLog { retention_days: n }),
        },
        WebRoute::MaintenanceMode => match extract_optional_json_bool_field(body, "enabled") {
            Err(e) => Err(WebRefusal { status: 500, message: e, counts: false }),
            Ok(enabled) => Ok(WebTask::MaintenanceMode { enabled }),
        },
        WebRoute::RaftLeaderTransfer => match read_required_number(body, "shard_id") {
            Err(e) => Err(WebRefusal { status: 400, message: e, counts: false }),
            Ok(shard_id) => match read_required_number(body, "transferee_id") {
                Err(e) => Err(WebRefusal { status: 400, message: e, counts: false }),
                Ok(transferee_id) => Ok(WebTask::RaftLeaderTransfer { shard_id, transferee_id }),
            },
        },
        WebRoute::Backup => match extract_json_string_field(body, "path") {
            Err(e) => Err(WebRefusal { status: 500, message: e, counts: false }),
            Ok(path) => Ok(WebTask::Backup { path }),
        },
        WebRoute::Restore => read_restore_task(body),
        WebRoute::Query => match read_query(body, verdict) {
            Err(e) => Err(e),
            Ok((query, params)) => match parse_query_options(request) {
                Err(e) => Err(WebRefusal { status: 500, message: e, counts: true }),
                Ok(consistency) => Ok(WebTask::Query { query, params, consistency }),
            },
        },
        WebRoute::QueryPlan => match read_query(body, verdict) {
            Err(e) => Err(WebRefusal { status: e.status, message: e.message, counts: false }),
            Ok((query, params)) => Ok(WebTask::QueryPlan { query, params }),
        },
        WebRoute::Profile => match read_query(body, verdict) {
            Err(e) => Err(WebRefusal { status: e.status, message: e.message, counts: false }),
            Ok((query, params)) => Ok(WebTask::Profile { query, params }),
        },
        _ => Ok(WebTask::Plain(route)),
    }
}

/// What the web interface does with a request: it answers, or has work done first.
pub enum WebStep {
    Answer(HttpResponse),
    Run(WebRoute, WebTask),
}

/// What the web interface does with a request.
pub enum Step {
    Answer(Answer),
    Run(WebRoute, Task),
}

impl WebStep {
    pub open spec fn view(&self) -> Step {
        match *self {
            WebStep::Answer(r) => Step::Answer(r@),
            WebStep::Run(route, task) => Step::Run(route, task@),
        }
    }

    pub open spec fn well_formed(&self) -> bool {
        match *self {
            WebStep::Answer(_) => true,
            WebStep::Run(_, task) => task.well_formed(),
        }
    }
}

/// What is done with a request that was let in, and whether it counts as an error.
pub open spec fn passed_step(request: HttpRequest, facts: WebFacts, role: WebRole) -> (Step, bool) {
    match route_of(request.method@, request.path@) {
        None => (Step::Answer(error_answer(404, "not found"@)), false),
        Some(route) => if route_action(route) is Some && !may(role, route_action(route).unwrap()) {
            (Step::Answer(error_answer(403, "forbidden"@)), false)
        } else {
            match task_of(route, request, verdict_text(facts.use_verdict)) {
                Err(e) => (Step::Answer(error_answer(e.status, e.message)), e.counts),
                Ok(task) => (Step::Run(route, task), false),
            }
        },
    }
}

/// What is done with a request, and whether it counts as an error beyond what turning it away
/// counts.
pub open spec fn step_of(request: HttpRequest, facts: WebFacts, limited: bool) -> (Step, bool) {
    match gate(request, facts, limited) {
        Gate::Open(route) => (Step::Run(route, Task::Plain(route)), false),
        Gate::Pass(role) => passed_step(request, facts, role),
        g => (Step::Answer(gate_answer(g)), false),
    }
}

/// The counts after an error.
pub open spec fn with_error(m: WebMetrics, counts: bool) -> WebMetrics {
    if counts {
        WebMetrics { http_errors: m.http_errors.wrapping_add(1), ..m }
    } else {
        m
    }
}

fn passed(request: &HttpRequest, facts: &WebFacts, role: WebRole) -> (r: (WebStep, bool))
    requires
        request.well_formed(),
    ensures
        (r.0@, r.1) == passed_step(*request, *facts, role),
        r.0.well_formed(),
{
    let route = match web_route(request.method.as_str(), request.path.as_str()) {
        None => return (WebStep::Answer(error_response(404, "not found")), false),
        Some(route) => route,
    };
    if let Some(action) = web_route_action(route) {
        if !web_role_allows_action(role, action) {
            return (WebStep::Answer(error_response(403, "forbidden")), false);
        }
    }
    match web_task(route, request, &facts.use_verdict) {
        Err(e) => (WebStep::Answer(error_response(e.status, e.message.as_str())), e.counts),
        Ok(task) => (WebStep::Run(route, task), false),
    }
}

/// Answers a request, or tells what has to be done to answer it.
pub fn execute_http_request(
    request: &HttpRequest,
    facts: &WebFacts,
    metrics: &mut WebMetrics,
    limiter: &mut AuthFailureLimiter,
) -> (r: WebStep)
    requires
        request.well_formed(),
        old(limiter).well_formed(),
    ensures
        r.well_formed(),
        final(limiter).well_formed(),
        r@ == step_of(*request, *facts, too_many_failures(*old(limiter), facts.now_ms)).0,
        *final(metrics) == with_error(
            counted(
                *old(metrics),
                gate(*request, *facts, too_many_failures(*old(limiter), facts.now_ms)),
            ),
            step_of(*request, *facts, too_many_failures(*old(limiter), facts.now_ms)).1,
        ),
        final(limiter)@ == (if gate(
            *request,
            *facts,
            too_many_failures(*old(limiter), facts.now_ms),
        ) is Unauthorized {
            old(limiter)@.insert(
                "web"@,
                after_failure(old(limiter).count("web"@), facts.now_ms),
            )
        } else {
            old(limiter)@
        }),
{
    let g = pass_gate(request, facts, limiter);
    count_gate(metrics, &g);
    match g {
        WebGate::Open(route) => WebStep::Run(route, WebTask::Plain(route)),
        WebGate::Pass(role) => {
            let (step, counts) = passed(request, facts, role);
            if counts {
                metrics.http_errors = metrics.http_errors.wrapping_add(1);
            }
            step
        },
        other => WebStep::Answer(answer_gate(&other)),
    }
}

/// The answer once the work for a request is done or has failed.
pub open spec fn task_answer(route: WebRoute, outcome: Result<Seq<char>, Seq<char>>) -> Answer {
    match outcome {
        Err(e) => error_answer(failure_status(route), e),
        Ok(body) => match route {
            WebRoute::Index => html_answer(body),
            WebRoute::Prometheus => text_answer(body),
            _ => json_answer(200, body),
        },
    }
}

/// The counts once the work for a request is done or has failed.
pub open spec fn task_counted(m: WebMetrics, route: WebRoute, done: bool) -> WebMetrics {
    if route == WebRoute::Registry && done {
        WebMetrics { registry_requests: m.registry_requests.wrapping_add(1), ..m }
    } else if route == WebRoute::Query && !done {
        WebMetrics { http_errors: m.http_errors.wrapping_add(1), ..m }
    } else {
        m
    }
}

/// Answers a request once the work for it is done or has failed.
pub fn answer_web_task(
    route: WebRoute,
    outcome: Result<String, String>,
    metrics: &mut WebMetrics,
) -> (r: HttpResponse)
    ensures
        r@ == task_answer(
            route,
            match outcome {
                Ok(body) => Ok(body@),
                Err(e) => Err(e@),
            },
        ),
        *final(metrics) == task_counted(*old(metrics), route, outcome is Ok),
{
    match outcome {
        Err(e) => {
            if route == WebRoute::Query {
                metrics.http_errors = metrics.http_errors.wrapping_add(1);
            }
            error_response(web_failure_status(route), e.as_str())
        },
        Ok(body) => {
            if route == WebRoute::Registry {
                metrics.registry_requests = metrics.registry_requests.wrapping_add(1);
            }
            match route {
                WebRoute::Index => HttpResponse::html(body.as_str()),
                WebRoute::Prometheus => HttpResponse::text(body),
                _ => HttpResponse::json(body),
            }
        },
    }
}

/// No work is done for a request whose sender has no role, but for the places that need
/// none: such a request is answered that it is unauthorized.
pub proof fn strangers_get_no_work_done(request: HttpRequest, facts: WebFacts, limited: bool)
    requires
        facts.role is None,
    ensures
        match step_of(request, facts, limited).0 {
            Step::Run(route, _) => route == WebRoute::Ready || route == WebRoute::OpenSession
                || route == WebRoute::CloseSession,
            Step::Answer(a) => gate(request, facts, limited) is Unauthorized ==> a.status == (
            if limited {
                429nat
            } else {
                401nat
            }),
        },
{
}

/// Work is done for a request only where the sender's role allows both the action that the
/// policy names for the request and the action that the place takes.
pub proof fn work_is_done_within_the_role(
    request: HttpRequest,
    facts: WebFacts,
    limited: bool,
    role: WebRole,
)
    requires
        facts.role == Some(role),
    ensures
        match step_of(request, facts, limited).0 {
            Step::Run(route, _) => gate(request, facts, limited) is Pass ==> {
                &&& action_of(request.method@, request.path@) is Some ==> may(
                    role,
                    action_of(request.method@, request.path@).unwrap(),
                )
                &&& route_action(route) is Some ==> may(role, route_action(route).unwrap())
            },
            Step::Answer(_) => true,
        },
{
}

/// While a database is being restored, no query that may write is run on it; and a query of
/// a sender that knows an older routing table is answered with the version of the present
/// one.
pub proof fn queries_wait_for_restores_and_routing(
    request: HttpRequest,
    facts: WebFacts,
    limited: bool,
)
    ensures
        facts.maintenance == Ok::<bool, String>(true) ==> !(step_of(request, facts, limited).0
            matches Step::Run(WebRoute::Query, _)),
        match (facts.routing_version, client_epoch(
            request.header_text("x-neo4r-ownership-epoch"@),
            request.header_text("x-neo4r-routing-epoch"@),
        )) {
            (Ok(version), Some(epoch)) => epoch < version ==> !(step_of(request, facts, limited).0
                matches Step::Run(WebRoute::Query, _)),
            _ => true,
        },
{
    lemma_query_route(request.method@, request.path@);
}

proof fn lemma_query_route(method: Seq<char>, path: Seq<char>)
    ensures
        route_of(method, path) == Some(WebRoute::Query) ==> method == "POST"@ && path
            == "/api/query"@,
{
}

} // verus!
