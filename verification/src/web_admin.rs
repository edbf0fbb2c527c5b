//! What administrators ask for over the web interface, and what the audit log keeps of it.

use vstd::prelude::*;

use crate::cypher::verdict_text;
use crate::json::{
    extract_json_string_field, extract_optional_json_string_field, optional_string_field,
    required_string_field,
};
use crate::rbac::WebRole;
use crate::text::{
    blank, cat, cat3, debug_text, dec, number, quoted, read_number, show, trim,
};
use crate::web_auth::validate_database_scope_for_admin;

verus! {

/// An entry for the audit log.
pub struct AuditNote {
    pub action: &'static str,
    pub target: String,
    pub detail: String,
}

/// The contents of an entry for the audit log.
pub struct Note {
    pub action: Seq<char>,
    pub target: Seq<char>,
    pub detail: Seq<char>,
}

impl AuditNote {
    pub open spec fn view(&self) -> Note {
        Note { action: self.action@, target: self.target@, detail: self.detail@ }
    }
}

/// The text of an optional field, where it is more than white space.
pub open spec fn filled_field(body: Seq<char>, field: Seq<char>) -> Result<
    Option<Seq<char>>,
    Seq<char>,
> {
    match optional_string_field(body, field) {
        Err(e) => Err(e),
        Ok(None) => Ok(None),
        Ok(Some(t)) => if trim(t).len() > 0 {
            Ok(Some(t))
        } else {
            Ok(None)
        },
    }
}

fn read_filled_field(body: &str, field: &str) -> (r: Result<Option<String>, String>)
    ensures
        match r {
            Ok(Some(t)) => filled_field(body@, field@) == Ok::<Option<Seq<char>>, Seq<char>>(
                Some(t@),
            ),
            Ok(None) => filled_field(body@, field@) == Ok::<Option<Seq<char>>, Seq<char>>(None),
            Err(e) => filled_field(body@, field@) == Err::<Option<Seq<char>>, Seq<char>>(e@),
        },
{
    match extract_optional_json_string_field(body, field) {
        Err(e) => Err(e),
        Ok(None) => Ok(None),
        Ok(Some(t)) => if blank(t.as_str()) {
            Ok(None)
        } else {
            Ok(Some(t))
        },
    }
}

/// The roles in databases that a request gives a new user, as text: named as a list, or by
/// one database with the role there, which is the user's role where none is given.
pub open spec fn roles_of_new_user(body: Seq<char>, role: Seq<char>) -> Result<
    Option<Seq<char>>,
    Seq<char>,
> {
    match filled_field(body, "database_roles"@) {
        Err(e) => Err(e),
        Ok(Some(t)) => Ok(Some(t)),
        Ok(None) => match filled_field(body, "database"@) {
            Err(e) => Err(e),
            Ok(None) => Ok(None),
            Ok(Some(database)) => match filled_field(body, "database_role"@) {
                Err(e) => Err(e),
                Ok(Some(r)) => Ok(Some(database + "="@ + r)),
                Ok(None) => Ok(Some(database + "="@ + role)),
            },
        },
    }
}

/// Reads the roles in databases that a request gives a new user.
pub fn new_user_database_roles(body: &str, role: &str) -> (r: Result<Option<String>, String>)
    ensures
        match r {
            Ok(Some(t)) => roles_of_new_user(body@, role@) == Ok::<Option<Seq<char>>, Seq<char>>(
                Some(t@),
            ),
            Ok(None) => roles_of_new_user(body@, role@) == Ok::<Option<Seq<char>>, Seq<char>>(None),
            Err(e) => roles_of_new_user(body@, role@) == Err::<Option<Seq<char>>, Seq<char>>(e@),
        },
{
    match read_filled_field(body, "database_roles") {
        Err(e) => return Err(e),
        Ok(Some(t)) => return Ok(Some(t)),
        Ok(None) => {},
    }
    match read_filled_field(body, "database") {
        Err(e) => Err(e),
        Ok(None) => Ok(None),
        Ok(Some(database)) => match read_filled_field(body, "database_role") {
            Err(e) => Err(e),
            Ok(Some(r)) => Ok(Some(cat3(database.as_str(), "=", r.as_str()))),
            Ok(None) => Ok(Some(cat3(database.as_str(), "=", role))),
        },
    }
}

/// The time at which the token of a new user expires; zero where it does not.
pub open spec fn expiry_of_new_user(body: Seq<char>) -> Result<nat, Seq<char>> {
    match optional_string_field(body, "expired_at"@) {
        Err(e) => Err(e),
        Ok(first) => {
            let given = match first {
                Some(t) => Some(t),
                None => match optional_string_field(body, "expires_at"@) {
                    Ok(t) => t,
                    Err(_) => None,
                },
            };
            match given {
                None => Ok(0),
                Some(t) => if trim(t).len() == 0 {
                    Ok(0)
                } else {
                    match number(t, u128::MAX as nat) {
                        Some(n) => Ok(n),
                        None => Err("expired_at must be unix seconds, got "@ + debug_text(t)),
                    }
                },
            }
        },
    }
}

fn read_expiry(body: &str) -> (r: Result<u128, String>)
    ensures
        match r {
            Ok(n) => expiry_of_new_user(body@) == Ok::<nat, Seq<char>>(n as nat),
            Err(e) => expiry_of_new_user(body@) == Err::<nat, Seq<char>>(e@),
        },
{
    let first = match extract_optional_json_string_field(body, "expired_at") {
        Err(e) => return Err(e),
        Ok(t) => t,
    };
    let given = match first {
        Some(t) => Some(t),
        None => match extract_optional_json_string_field(body, "expires_at") {
            Ok(t) => t,
            Err(_) => None,
        },
    };
    match given {
        None => Ok(0),
        Some(t) => if blank(t.as_str()) {
            Ok(0)
        } else {
            match read_number(t.as_str(), u128::MAX) {
                Some(n) => Ok(n),
                None => Err(
                    cat("expired_at must be unix seconds, got ", quoted(t.as_str()).as_str()),
                ),
            }
        },
    }
}

/// What a request says of a new user.
pub struct NewWebUser {
    pub name: String,
    pub role: String,
    pub token: String,
    pub database_roles: Option<String>,
    pub token_id: String,
    pub expired_at: u128,
}

/// The contents of what a request says of a new user.
pub struct NewUser {
    pub name: Seq<char>,
    pub role: Seq<char>,
    pub token: Seq<char>,
    pub database_roles: Option<Seq<char>>,
    pub token_id: Seq<char>,
    pub expired_at: nat,
}

impl NewWebUser {
    pub open spec fn view(&self) -> NewUser {
        NewUser {
            name: self.name@,
            role: self.role@,
            token: self.token@,
            database_roles: crate::http::opt_text(self.database_roles),
            token_id: self.token_id@,
            expired_at: self.expired_at as nat,
        }
    }
}

/// The new user that a request describes. The verdict is what the reading of the roles in
/// databases says, where the request gives some; the time names a token that has no name.
pub open spec fn new_user(body: Seq<char>, roles_verdict: Result<(), Seq<char>>, now_ms: nat) -> Result<
    NewUser,
    Seq<char>,
> {
    match required_string_field(body, "name"@) {
        Err(e) => Err(e),
        Ok(name) => match required_string_field(body, "role"@) {
            Err(e) => Err(e),
            Ok(role) => match required_string_field(body, "token"@) {
                Err(e) => Err(e),
                Ok(token) => match roles_of_new_user(body, role) {
                    Err(e) => Err(e),
                    Ok(database_roles) => if database_roles is Some && roles_verdict is Err {
                        Err(roles_verdict->Err_0)
                    } else {
                        match filled_field(body, "token_id"@) {
                            Err(e) => Err(e),
                            Ok(token_id) => match expiry_of_new_user(body) {
                                Err(e) => Err(e),
                                Ok(expired_at) => Ok(
                                    NewUser {
                                        name,
                                        role,
                                        token,
                                        database_roles,
                                        token_id: match token_id {
                                            Some(t) => t,
                                            None => "token-"@ + dec(now_ms),
                                        },
                                        expired_at,
                                    },
                                ),
                            },
                        }
                    },
                },
            },
        },
    }
}

/// Reads the new user that a request describes.
pub fn read_new_user(body: &str, roles_verdict: &Result<(), String>, now_ms: u128) -> (r: Result<
    NewWebUser,
    String,
>)
    ensures
        match r {
            Ok(u) => new_user(body@, verdict_text(*roles_verdict), now_ms as nat) == Ok::<
                NewUser,
                Seq<char>,
            >(u@),
            Err(e) => new_user(body@, verdict_text(*roles_verdict), now_ms as nat) == Err::<
                NewUser,
                Seq<char>,
            >(e@),
        },
{
    let name = match extract_json_string_field(body, "name") {
        Err(e) => return Err(e),
        Ok(t) => t,
    };
    let role = match extract_json_string_field(body, "role") {
        Err(e) => return Err(e),
        Ok(t) => t,
    };
    let token = match extract_json_string_field(body, "token") {
        Err(e) => return Err(e),
        Ok(t) => t,
    };
    let database_roles = match new_user_database_roles(body, role.as_str()) {
        Err(e) => return Err(e),
        Ok(t) => t,
    };
    if database_roles.is_some() {
        if let Err(e) = roles_verdict {
            return Err(e.as_str().to_owned());
        }
    }
    let token_id = match read_filled_field(body, "token_id") {
        Err(e) => return Err(e),
        Ok(Some(t)) => t,
        Ok(None) => cat("token-", show(now_ms).as_str()),
    };
    let expired_at: u128 = match read_expiry(body) {
        Err(e) => return Err(e),
        Ok(n) => n,
    };
    Ok(NewWebUser { name, role, token, database_roles, token_id, expired_at })
}

/// Admits a new user: the checks of the name, of the token's name and of the token, and
/// what the role is read as, in this order. The audit log notes the user.
pub fn admit_new_user(
    user: &NewWebUser,
    name_verdict: Result<(), String>,
    token_id_verdict: Result<(), String>,
    token_verdict: Result<(), String>,
    role: Result<WebRole, String>,
) -> (r: Result<(WebRole, AuditNote), String>)
    ensures
        match r {
            Ok((parsed, note)) => name_verdict is Ok && token_id_verdict is Ok && token_verdict
                is Ok && role == Ok::<WebRole, String>(parsed) && note@ == (Note {
                action: "token.invoke"@,
                target: user.name@ + "/"@ + user.token_id@,
                detail: "active=true"@,
            }),
            Err(e) => if name_verdict is Err {
                e@ == name_verdict->Err_0@
            } else if token_id_verdict is Err {
                e@ == token_id_verdict->Err_0@
            } else if token_verdict is Err {
                e@ == token_verdict->Err_0@
            } else {
                role is Err && e@ == role->Err_0@
            },
        },
{
    if let Err(e) = name_verdict {
        return Err(e);
    }
    if let Err(e) = token_id_verdict {
        return Err(e);
    }
    if let Err(e) = token_verdict {
        return Err(e);
    }
    match role {
        Err(e) => Err(e),
        Ok(parsed) => Ok(
            (
                parsed,
                AuditNote {
                    action: "token.invoke",
                    target: cat3(user.name.as_str(), "/", user.token_id.as_str()),
                    detail: "active=true".to_owned(),
                },
            ),
        ),
    }
}

/// The time before which the audit log is pruned.
pub open spec fn audit_cutoff(retention_days: nat, now_ms: nat) -> nat {
    let kept = retention_days * 86_400_000;
    if now_ms > kept {
        (now_ms - kept) as nat
    } else {
        0
    }
}

/// The time before which the audit log is pruned, where it is kept for some days.
pub fn prune_cutoff(retention_days: u64, now_ms: u128) -> (r: Result<u128, String>)
    ensures
        match r {
            Ok(cutoff) => retention_days > 0 && cutoff == audit_cutoff(
                retention_days as nat,
                now_ms as nat,
            ),
            Err(e) => retention_days == 0 && e@ == "retention_days must be greater than zero"@,
        },
{
    if retention_days == 0 {
        return Err("retention_days must be greater than zero".to_owned());
    }
    let kept: u128 = retention_days as u128 * 86_400_000;
    Ok(
        if now_ms > kept {
            now_ms - kept
        } else {
            0
        },
    )
}

/// Tells how many events were pruned.
pub fn pruned_audit_log(removed: u64, retention_days: u64, cutoff: u128) -> (r: (String, AuditNote))
    ensures
        r.0@ == "{\"removed\":"@ + dec(removed as nat) + ",\"retention_days\":"@ + dec(
            retention_days as nat,
        ) + ",\"cutoff_unix_ms\":"@ + dec(cutoff as nat) + "}"@,
        r.1@ == (Note {
            action: "audit.prune"@,
            target: "web-audit"@,
            detail: "retention_days="@ + dec(retention_days as nat) + " removed="@ + dec(
                removed as nat,
            ),
        }),
{
    let mut body = "{\"removed\":".to_owned();
    body.append(show(removed as u128).as_str());
    body.append(",\"retention_days\":");
    body.append(show(retention_days as u128).as_str());
    body.append(",\"cutoff_unix_ms\":");
    body.append(show(cutoff).as_str());
    body.append("}");
    let mut detail = "retention_days=".to_owned();
    detail.append(show(retention_days as u128).as_str());
    detail.append(" removed=");
    detail.append(show(removed as u128).as_str());
    (body, AuditNote { action: "audit.prune", target: "web-audit".to_owned(), detail })
}

/// An event is pruned exactly where it is older than the days for which the log is kept.
pub proof fn pruning_keeps_the_retention(retention_days: nat, now_ms: nat, event_ms: nat)
    requires
        event_ms <= now_ms,
    ensures
        event_ms < audit_cutoff(retention_days, now_ms) <==> now_ms - event_ms > retention_days
            * 86_400_000,
{
}

/// A user's token in a database.
pub struct TokenScope {
    pub name: String,
    pub token_id: String,
    pub database: String,
    pub reason: String,
}

/// The contents of a user's token in a database.
pub struct Scope {
    pub name: Seq<char>,
    pub token_id: Seq<char>,
    pub database: Seq<char>,
    pub reason: Seq<char>,
}

impl TokenScope {
    pub open spec fn view(&self) -> Scope {
        Scope {
            name: self.name@,
            token_id: self.token_id@,
            database: self.database@,
            reason: self.reason@,
        }
    }
}

/// The reason that a request gives, if any.
pub open spec fn given_reason(body: Seq<char>) -> Result<Seq<char>, Seq<char>> {
    match filled_field(body, "reason"@) {
        Err(e) => Err(e),
        Ok(Some(t)) => Ok(t),
        Ok(None) => Ok("unspecified"@),
    }
}

/// The token and the database that a request names. The verdicts are what the reading of
/// the role says, where one is read, and what the check of the database's name says; where all
/// databases can be meant, `*` needs no check.
pub open spec fn token_scope(
    body: Seq<char>,
    role_verdict: Option<Result<(), Seq<char>>>,
    database_verdict: Result<(), Seq<char>>,
    all_databases: bool,
) -> Result<Scope, Seq<char>> {
    match required_string_field(body, "name"@) {
        Err(e) => Err(e),
        Ok(name) => match required_string_field(body, "token_id"@) {
            Err(e) => Err(e),
            Ok(token_id) => match required_string_field(body, "database"@) {
                Err(e) => Err(e),
                Ok(database) => match scope_role(body, role_verdict) {
                    Err(e) => Err(e),
                    Ok(_) => match given_reason(body) {
                        Err(e) => Err(e),
                        Ok(reason) => if all_databases && database == "*"@ {
                            Ok(Scope { name, token_id, database, reason })
                        } else {
                            match database_verdict {
                                Err(e) => Err(e),
                                Ok(_) => Ok(Scope { name, token_id, database, reason }),
                            }
                        },
                    },
                },
            },
        },
    }
}

/// What is wrong with the role that a request names, where one is read.
pub open spec fn scope_role(body: Seq<char>, role_verdict: Option<Result<(), Seq<char>>>) -> Result<
    (),
    Seq<char>,
> {
    match role_verdict {
        None => Ok(()),
        Some(verdict) => match required_string_field(body, "role"@) {
            Err(e) => Err(e),
            Ok(_) => verdict,
        },
    }
}

fn read_scope(
    body: &str,
    role_verdict: &Option<Result<(), String>>,
    database_verdict: Result<(), String>,
    all_databases: bool,
) -> (r: Result<TokenScope, String>)
    ensures
        match r {
            Ok(s) => token_scope(
                body@,
                match *role_verdict {
                    Some(v) => Some(verdict_text(v)),
                    None => None,
                },
                verdict_text(database_verdict),
                all_databases,
            ) == Ok::<Scope, Seq<char>>(s@),
            Err(e) => token_scope(
                body@,
                match *role_verdict {
                    Some(v) => Some(verdict_text(v)),
                    None => None,
                },
                verdict_text(database_verdict),
                all_databases,
            ) == Err::<Scope, Seq<char>>(e@),
        },
{
    let name = match extract_json_string_field(body, "name") {
        Err(e) => return Err(e),
        Ok(t) => t,
    };
    let token_id = match extract_json_string_field(body, "token_id") {
        Err(e) => return Err(e),
        Ok(t) => t,
    };
    let database = match extract_json_string_field(body, "database") {
        Err(e) => return Err(e),
        Ok(t) => t,
    };
    if let Some(verdict) = role_verdict {
        match extract_json_string_field(body, "role") {
            Err(e) => return Err(e),
            Ok(_) => {},
        }
        if let Err(e) = verdict {
            return Err(e.as_str().to_owned());
        }
    }
    let reason = match read_filled_field(body, "reason") {
        Err(e) => return Err(e),
        Ok(Some(t)) => t,
        Ok(None) => "unspecified".to_owned(),
    };
    let checked = if all_databases {
        validate_database_scope_for_admin(database.as_str(), database_verdict)
    } else {
        database_verdict
    };
    match checked {
        Err(e) => Err(e),
        Ok(_) => Ok(TokenScope { name, token_id, database, reason }),
    }
}

/// Reads what a request changes of a token's rights in a database, where it names no role. All
/// databases can be closed to a token and opened again at once; a role is revoked in one.
pub fn read_token_scope(
    body: &str,
    change: ScopeChange,
    database_verdict: Result<(), String>,
) -> (r: Result<TokenScope, String>)
    ensures
        match r {
            Ok(s) => token_scope(body@, None, verdict_text(database_verdict), !(change is Revoke))
                == Ok::<Scope, Seq<char>>(s@),
            Err(e) => token_scope(body@, None, verdict_text(database_verdict), !(change is Revoke))
                == Err::<Scope, Seq<char>>(e@),
        },
{
    let all_databases = match change {
        ScopeChange::Revoke => false,
        ScopeChange::Deny | ScopeChange::Allow => true,
    };
    read_scope(body, &None, database_verdict, all_databases)
}

/// Reads what a request changes of a token's role in a database, where it names a role.
pub fn read_token_grant(
    body: &str,
    role_verdict: Result<(), String>,
    database_verdict: Result<(), String>,
) -> (r: Result<TokenScope, String>)
    ensures
        match r {
            Ok(s) => token_scope(
                body@,
                Some(verdict_text(role_verdict)),
                verdict_text(database_verdict),
                false,
            ) == Ok::<Scope, Seq<char>>(s@),
            Err(e) => token_scope(
                body@,
                Some(verdict_text(role_verdict)),
                verdict_text(database_verdict),
                false,
            ) == Err::<Scope, Seq<char>>(e@),
        },
{
    read_scope(body, &Some(role_verdict), database_verdict, false)
}

/// The target that the audit log notes for a token in a database.
pub open spec fn scope_target(s: Scope) -> Seq<char> {
    s.name + "/"@ + s.token_id + "/"@ + s.database
}

fn show_scope_target(s: &TokenScope) -> (r: String)
    ensures
        r@ == scope_target(s@),
{
    let mut r = s.name.as_str().to_owned();
    r.append("/");
    r.append(s.token_id.as_str());
    r.append("/");
    r.append(s.database.as_str());
    r
}

/// What the audit log notes when a token gets a role in a database.
pub fn note_grant(s: &TokenScope, role: WebRole) -> (r: AuditNote)
    ensures
        r@ == (Note {
            action: "rbac.grant"@,
            target: scope_target(s@),
            detail: "role="@ + role.text() + " reason="@ + s.reason@,
        }),
{
    let mut detail = "role=".to_owned();
    detail.append(role.as_str());
    detail.append(" reason=");
    detail.append(s.reason.as_str());
    AuditNote { action: "rbac.grant", target: show_scope_target(s), detail }
}

/// How a token's rights in a database change.
#[derive(Clone, Copy, PartialEq, Eq, Structural, Debug)]
pub enum ScopeChange {
    Revoke,
    Deny,
    Allow,
}

impl ScopeChange {
    /// What the audit log calls the change.
    pub open spec fn text(self) -> Seq<char> {
        match self {
            ScopeChange::Revoke => "rbac.revoke"@,
            ScopeChange::Deny => "rbac.deny"@,
            ScopeChange::Allow => "rbac.allow"@,
        }
    }
}

/// What the audit log notes when a token loses a role in a database, or is kept from it, or
/// is let into it again.
pub fn note_scope_change(s: &TokenScope, change: ScopeChange) -> (r: AuditNote)
    ensures
        r@ == (Note {
            action: change.text(),
            target: scope_target(s@),
            detail: "reason="@ + s.reason@,
        }),
{
    let action = match change {
        ScopeChange::Revoke => "rbac.revoke",
        ScopeChange::Deny => "rbac.deny",
        ScopeChange::Allow => "rbac.allow",
    };
    AuditNote {
        action,
        target: show_scope_target(s),
        detail: cat("reason=", s.reason.as_str()),
    }
}

/// Reads which token a request revokes.
pub fn read_revoked_token(body: &str) -> (r: Result<(String, String, AuditNote), String>)
    ensures
        match (required_string_field(body@, "name"@), required_string_field(body@, "token_id"@)) {
            (Err(e), _) => r is Err && r->Err_0@ == e,
            (Ok(_), Err(e)) => r is Err && r->Err_0@ == e,
            (Ok(name), Ok(token_id)) => r is Ok && r->Ok_0.0@ == name && r->Ok_0.1@ == token_id
                && r->Ok_0.2@ == (Note {
                action: "token.revoke"@,
                target: name + "/"@ + token_id,
                detail: "revoked"@,
            }),
        },
{
    let name = match extract_json_string_field(body, "name") {
        Err(e) => return Err(e),
        Ok(t) => t,
    };
    let token_id = match extract_json_string_field(body, "token_id") {
        Err(e) => return Err(e),
        Ok(t) => t,
    };
    let target = cat3(name.as_str(), "/", token_id.as_str());
    Ok(
        (
            name,
            token_id,
            AuditNote { action: "token.revoke", target, detail: "revoked".to_owned() },
        ),
    )
}

/// What is done to a named user or database.
#[derive(Clone, Copy, PartialEq, Eq, Structural, Debug)]
pub enum NamedChange {
    DeleteUser,
    CreateDatabase,
    DisableDatabase,
    EnableDatabase,
}

impl NamedChange {
    /// What the audit log calls the change.
    pub open spec fn action_text(self) -> Seq<char> {
        match self {
            NamedChange::DeleteUser => "user.delete"@,
            NamedChange::CreateDatabase => "database.create"@,
            NamedChange::DisableDatabase => "database.disable"@,
            NamedChange::EnableDatabase => "database.enable"@,
        }
    }

    /// What the audit log says of the change.
    pub open spec fn detail_text(self) -> Seq<char> {
        match self {
            NamedChange::DeleteUser => "deleted"@,
            NamedChange::CreateDatabase => "created"@,
            NamedChange::DisableDatabase | NamedChange::EnableDatabase => "updated"@,
        }
    }
}

/// Reads the name that a request changes something of, with what the audit log notes. The verdict
/// is what the check of names says of the name; only a database that is created needs it.
pub fn read_named_change(body: &str, change: NamedChange, verdict: Result<(), String>) -> (r: Result<
    (String, AuditNote),
    String,
>)
    ensures
        match required_string_field(body@, "name"@) {
            Err(e) => r is Err && r->Err_0@ == e,
            Ok(name) => if change is CreateDatabase && verdict is Err {
                r is Err && r->Err_0@ == verdict->Err_0@
            } else {
                r is Ok && r->Ok_0.0@ == name && r->Ok_0.1@ == (Note {
                    action: change.action_text(),
                    target: name,
                    detail: change.detail_text(),
                })
            },
        },
{
    let name = match extract_json_string_field(body, "name") {
        Err(e) => return Err(e),
        Ok(t) => t,
    };
    if let NamedChange::CreateDatabase = change {
        if let Err(e) = verdict {
            return Err(e);
        }
    }
    let (action, detail) = match change {
        NamedChange::DeleteUser => ("user.delete", "deleted"),
        NamedChange::CreateDatabase => ("database.create", "created"),
        NamedChange::DisableDatabase => ("database.disable", "updated"),
        NamedChange::EnableDatabase => ("database.enable", "updated"),
    };
    let target = name.as_str().to_owned();
    Ok((name, AuditNote { action, target, detail: detail.to_owned() }))
}

/// Tells that a database was deleted, with the tokens that were revoked.
pub fn deleted_database(name: &str, revoked_tokens: u64, catalog: &str) -> (r: (String, AuditNote))
    ensures
        r.0@ == "{\"revoked_tokens\":"@ + dec(revoked_tokens as nat) + ",\"catalog\":"@ + catalog@
            + "}"@,
        r.1@ == (Note {
            action: "database.delete"@,
            target: name@,
            detail: "revoked_tokens="@ + dec(revoked_tokens as nat),
        }),
{
    let mut body = "{\"revoked_tokens\":".to_owned();
    body.append(show(revoked_tokens as u128).as_str());
    body.append(",\"catalog\":");
    body.append(catalog);
    body.append("}");
    (
        body,
        AuditNote {
            action: "database.delete",
            target: name.to_owned(),
            detail: cat("revoked_tokens=", show(revoked_tokens as u128).as_str()),
        },
    )
}

/// Tells how many expired tokens, or sessions, were removed.
pub fn cleaned_up(sessions: bool, removed: u64) -> (r: (String, AuditNote))
    ensures
        r.0@ == "{\"removed\":"@ + dec(removed as nat) + "}"@,
        r.1@ == (Note {
            action: if sessions {
                "session.cleanup_expired"@
            } else {
                "token.cleanup_expired"@
            },
            target: if sessions {
                "web-session"@
            } else {
                "web-auth"@
            },
            detail: "removed="@ + dec(removed as nat),
        }),
{
    let body = cat3("{\"removed\":", show(removed as u128).as_str(), "}");
    let (action, target) = if sessions {
        ("session.cleanup_expired", "web-session")
    } else {
        ("token.cleanup_expired", "web-auth")
    };
    (
        body,
        AuditNote {
            action,
            target: target.to_owned(),
            detail: cat("removed=", show(removed as u128).as_str()),
        },
    )
}

/// What the audit log notes when rows of a query were moved out of memory.
pub fn note_query_spill(database: &str, estimated_bytes: u64, manifest: &str) -> (r: AuditNote)
    ensures
        r@ == (Note {
            action: "query.spill"@,
            target: database@,
            detail: "estimated_bytes="@ + dec(estimated_bytes as nat) + " manifest="@ + manifest@,
        }),
{
    let mut detail = "estimated_bytes=".to_owned();
    detail.append(show(estimated_bytes as u128).as_str());
    detail.append(" manifest=");
    detail.append(manifest);
    AuditNote { action: "query.spill", target: database.to_owned(), detail }
}

/// What the audit log notes of a repair of the storage: that it was done, or why not.
pub fn note_repair(database: &str, outcome: &Result<(), String>) -> (r: AuditNote)
    ensures
        r@ == (match *outcome {
            Ok(_) => Note {
                action: "repair.success"@,
                target: database@,
                detail: "repair_invariants"@,
            },
            Err(e) => Note { action: "repair.failure"@, target: database@, detail: e@ },
        }),
{
    match outcome {
        Ok(_) => AuditNote {
            action: "repair.success",
            target: database.to_owned(),
            detail: "repair_invariants".to_owned(),
        },
        Err(e) => AuditNote {
            action: "repair.failure",
            target: database.to_owned(),
            detail: e.as_str().to_owned(),
        },
    }
}

} // verus!
