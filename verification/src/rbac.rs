//! Who may do what over the web interface.

use vstd::prelude::*;

use crate::text::same;

verus! {

/// What a user is.
#[derive(Clone, Copy, PartialEq, Eq, Structural, Debug)]
pub enum WebRole {
    Reader,
    Writer,
    Admin,
}

/// What a request does.
#[derive(Clone, Copy, PartialEq, Eq, Structural, Debug)]
pub enum WebAction {
    GraphRead,
    GraphWrite,
    MetricsRead,
    SystemRead,
    TokenAdmin,
    TenantAdmin,
    AuditAdmin,
    BackupAdmin,
    RestoreAdmin,
    RaftAdmin,
    RepairAdmin,
    ClusterAdmin,
}

impl WebRole {
    /// How much a role may do.
    pub open spec fn rank(self) -> int {
        match self {
            WebRole::Reader => 0,
            WebRole::Writer => 1,
            WebRole::Admin => 2,
        }
    }

    /// Whether a role may do what another one may.
    pub fn allows(self, required: WebRole) -> (r: bool)
        ensures
            r == (self.rank() >= required.rank()),
    {
        match required {
            WebRole::Reader => true,
            WebRole::Writer => self != WebRole::Reader,
            WebRole::Admin => self == WebRole::Admin,
        }
    }

    /// The name of a role.
    pub open spec fn text(self) -> Seq<char> {
        match self {
            WebRole::Reader => "reader"@,
            WebRole::Writer => "writer"@,
            WebRole::Admin => "admin"@,
        }
    }

    /// The name of a role.
    pub fn as_str(self) -> (r: &'static str)
        ensures
            r@ == self.text(),
    {
        match self {
            WebRole::Reader => "reader",
            WebRole::Writer => "writer",
            WebRole::Admin => "admin",
        }
    }
}

impl WebAction {
    /// The least role that an action takes.
    pub open spec fn least_role(self) -> WebRole {
        match self {
            WebAction::GraphRead | WebAction::MetricsRead | WebAction::SystemRead => {
                WebRole::Reader
            },
            WebAction::GraphWrite => WebRole::Writer,
            _ => WebRole::Admin,
        }
    }

    /// The least role that an action takes.
    pub fn required_role(self) -> (r: WebRole)
        ensures
            r == self.least_role(),
    {
        match self {
            WebAction::GraphRead | WebAction::MetricsRead | WebAction::SystemRead => {
                WebRole::Reader
            },
            WebAction::GraphWrite => WebRole::Writer,
            WebAction::TokenAdmin
            | WebAction::TenantAdmin
            | WebAction::AuditAdmin
            | WebAction::BackupAdmin
            | WebAction::RestoreAdmin
            | WebAction::RaftAdmin
            | WebAction::RepairAdmin
            | WebAction::ClusterAdmin => WebRole::Admin,
        }
    }
}

/// Whether a role may take an action.
pub open spec fn may(role: WebRole, action: WebAction) -> bool {
    role.rank() >= action.least_role().rank()
}

/// Tells whether a role may take an action.
pub fn web_role_allows_action(role: WebRole, action: WebAction) -> (r: bool)
    ensures
        r == may(role, action),
{
    role.allows(action.required_role())
}

/// What a role may do, every greater role may do too, and an administrator everything.
pub proof fn greater_roles_may_do_more(lesser: WebRole, greater: WebRole, action: WebAction)
    requires
        lesser.rank() <= greater.rank(),
    ensures
        may(lesser, action) ==> may(greater, action),
        may(WebRole::Admin, action),
{
}

/// The action of a request that reads.
pub open spec fn get_action(path: Seq<char>) -> Option<WebAction> {
    if path == "/api/graph"@ {
        Some(WebAction::GraphRead)
    } else if path == "/api/metrics"@ || path == "/metrics"@ || path == "/api/slow-queries"@ {
        Some(WebAction::MetricsRead)
    } else if path == "/"@ || path == "/index.html"@ || path == "/api/capabilities"@
        || path == "/api/admin/system-policy"@ || path == "/api/admin/distributed-query"@
        || path == "/api/statistics"@ || path == "/api/storage"@ || path == "/api/metadata-log"@
        || path == "/api/cluster"@ || path == "/api/cluster/routing-table"@
        || path == "/api/cluster/registry"@ || path == "/api/database"@
        || path == "/api/examples"@ {
        Some(WebAction::SystemRead)
    } else if path == "/api/admin/users"@ {
        Some(WebAction::TokenAdmin)
    } else if path == "/api/admin/databases"@ {
        Some(WebAction::TenantAdmin)
    } else if path == "/api/admin/audit"@ || path == "/api/admin/audit/export"@ {
        Some(WebAction::AuditAdmin)
    } else if path == "/api/admin/restore-pitr/pending"@ {
        Some(WebAction::RestoreAdmin)
    } else if path == "/api/admin/repair"@ {
        Some(WebAction::RepairAdmin)
    } else {
        None
    }
}

/// The action of a request that changes something.
pub open spec fn post_action(path: Seq<char>) -> Option<WebAction> {
    if path == "/api/query-plan"@ || path == "/api/profile"@ {
        Some(WebAction::GraphRead)
    } else if path == "/api/query"@ {
        Some(WebAction::GraphWrite)
    } else if path == "/api/use-database"@ {
        Some(WebAction::SystemRead)
    } else if path == "/api/admin/users"@ || path == "/api/admin/users/delete"@
        || path == "/api/admin/users/tokens"@ || path == "/api/admin/users/tokens/revoke"@
        || path == "/api/admin/grant-role"@ || path == "/api/admin/revoke-role"@
        || path == "/api/admin/deny-role"@ || path == "/api/admin/allow-role"@
        || path == "/api/admin/tokens/cleanup"@ {
        Some(WebAction::TokenAdmin)
    } else if path == "/api/admin/databases"@ || path == "/api/admin/databases/drop"@
        || path == "/api/admin/databases/roles"@ {
        Some(WebAction::TenantAdmin)
    } else if path == "/api/admin/audit/prune"@ {
        Some(WebAction::AuditAdmin)
    } else if path == "/api/backup"@ {
        Some(WebAction::BackupAdmin)
    } else if path == "/api/restore"@ || path == "/api/admin/restore-pitr"@
        || path == "/api/admin/restore-pitr/apply"@
        || path == "/api/admin/restore-pitr/complete"@ {
        Some(WebAction::RestoreAdmin)
    } else if path == "/api/admin/raft/step-down"@ || path == "/api/admin/raft/snapshot"@
        || path == "/api/admin/raft/transfer-leader"@ {
        Some(WebAction::RaftAdmin)
    } else if path == "/api/admin/repair"@ {
        Some(WebAction::RepairAdmin)
    } else if path == "/api/admin/cluster/migrate"@ || path == "/api/admin/cluster/rebalance"@
        || path == "/api/admin/cluster/plan-node-add"@
        || path == "/api/admin/cluster/plan-node-remove"@ {
        Some(WebAction::ClusterAdmin)
    } else {
        None
    }
}

/// The action of a request, where the policy names one.
pub open spec fn action_of(method: Seq<char>, path: Seq<char>) -> Option<WebAction> {
    if method == "GET"@ {
        get_action(path)
    } else if method == "POST"@ {
        post_action(path)
    } else {
        None
    }
}

fn find_get_action(path: &str) -> (r: Option<WebAction>)
    ensures
        r == get_action(path@),
{
    if same(path, "/api/graph") {
        Some(WebAction::GraphRead)
    } else if same(path, "/api/metrics") || same(path, "/metrics") || same(path, "/api/slow-queries") {
        Some(WebAction::MetricsRead)
    } else if same(path, "/") || same(path, "/index.html") || same(path, "/api/capabilities")
        || same(path, "/api/admin/system-policy") || same(path, "/api/admin/distributed-query")
        || same(path, "/api/statistics") || same(path, "/api/storage")
        || same(path, "/api/metadata-log") || same(path, "/api/cluster")
        || same(path, "/api/cluster/routing-table") || same(path, "/api/cluster/registry")
        || same(path, "/api/database") || same(path, "/api/examples") {
        Some(WebAction::SystemRead)
    } else if same(path, "/api/admin/users") {
        Some(WebAction::TokenAdmin)
    } else if same(path, "/api/admin/databases") {
        Some(WebAction::TenantAdmin)
    } else if same(path, "/api/admin/audit") || same(path, "/api/admin/audit/export") {
        Some(WebAction::AuditAdmin)
    } else if same(path, "/api/admin/restore-pitr/pending") {
        Some(WebAction::RestoreAdmin)
    } else if same(path, "/api/admin/repair") {
        Some(WebAction::RepairAdmin)
    } else {
        None
    }
}

fn find_post_action(path: &str) -> (r: Option<WebAction>)
    ensures
        r == post_action(path@),
{
    if same(path, "/api/query-plan") || same(path, "/api/profile") {
        Some(WebAction::GraphRead)
    } else if same(path, "/api/query") {
        Some(WebAction::GraphWrite)
    } else if same(path, "/api/use-database") {
        Some(WebAction::SystemRead)
    } else if same(path, "/api/admin/users") || same(path, "/api/admin/users/delete")
        || same(path, "/api/admin/users/tokens") || same(path, "/api/admin/users/tokens/revoke")
        || same(path, "/api/admin/grant-role") || same(path, "/api/admin/revoke-role")
        || same(path, "/api/admin/deny-role") || same(path, "/api/admin/allow-role")
        || same(path, "/api/admin/tokens/cleanup") {
        Some(WebAction::TokenAdmin)
    } else if same(path, "/api/admin/databases") || same(path, "/api/admin/databases/drop")
        || same(path, "/api/admin/databases/roles") {
        Some(WebAction::TenantAdmin)
    } else if same(path, "/api/admin/audit/prune") {
        Some(WebAction::AuditAdmin)
    } else if same(path, "/api/backup") {
        Some(WebAction::BackupAdmin)
    } else if same(path, "/api/restore") || same(path, "/api/admin/restore-pitr")
        || same(path, "/api/admin/restore-pitr/apply")
        || same(path, "/api/admin/restore-pitr/complete") {
        Some(WebAction::RestoreAdmin)
    } else if same(path, "/api/admin/raft/step-down") || same(path, "/api/admin/raft/snapshot")
        || same(path, "/api/admin/raft/transfer-leader") {
        Some(WebAction::RaftAdmin)
    } else if same(path, "/api/admin/repair") {
        Some(WebAction::RepairAdmin)
    } else if same(path, "/api/admin/cluster/migrate")
        || same(path, "/api/admin/cluster/rebalance")
        || same(path, "/api/admin/cluster/plan-node-add")
        || same(path, "/api/admin/cluster/plan-node-remove") {
        Some(WebAction::ClusterAdmin)
    } else {
        None
    }
}

/// Finds the action of a request.
pub fn web_action_for_request(method: &str, path: &str) -> (r: Option<WebAction>)
    ensures
        r == action_of(method@, path@),
{
    if same(method, "GET") {
        find_get_action(path)
    } else if same(method, "POST") {
        find_post_action(path)
    } else {
        None
    }
}

} // verus!
