use neo4r_server::http::{HttpHead, HttpRequest};
use neo4r_server::limits::{AuthFailureLimiter, SlowQueryEntry, SlowQueryLog, TenantQuota};
use neo4r_server::literal::Literal;
use neo4r_server::metrics::{
    greatest, metrics_prometheus, metrics_snapshot, prometheus_metric, MetricsFacts, RaftShard,
    ReplicationCounts, StatisticsCounts,
};
use neo4r_server::rbac::{web_action_for_request, web_role_allows_action, WebAction, WebRole};
use neo4r_server::rows::{
    graph_json, query_result_json, NodeValue, QueryRow, QueryValue, RelationshipValue,
};
use neo4r_server::text_table::TextTable;
use neo4r_server::value::Value;
use neo4r_server::web::{
    answer_web_task, execute_http_request, parse_query_options, web_route, web_route_action,
    ReadConsistency, WebFacts, WebMetrics, WebRoute, WebStep, WebTask,
};
use neo4r_server::web_auth::{
    authorized_role, create_web_session, delete_web_session, named_database, request_database_name,
    request_session_token, supplied_token, valid_session_csrf, AuthFacts,
};
use neo4r_server::text::constant_time_token_eq;
use neo4r_server::web_json::{
    databases_json, management_response_json, query_plan_json, ready_json, routing_table_json,
    slow_queries_json, web_audit_json_filtered, AuditEvent, PlanEstimates, TenantDatabaseRecord,
};
use neo4r_server::web_query::{begin_web_query, finish_web_query, WebQueryRun};

fn request(lines: &[&str], body: &str) -> HttpRequest {
    let mut head = HttpHead::start(lines[0]);
    for line in &lines[1..] {
        assert!(!head.add_line(line));
    }
    head.with_body(body.as_bytes())
}

fn no_metrics() -> WebMetrics {
    WebMetrics {
        http_requests: 0,
        http_errors: 0,
        auth_failures: 0,
        auth_rate_limited: 0,
        queries: 0,
        query_errors: 0,
        slow_queries: 0,
        registry_requests: 0,
        stale_epoch_rejections: 0,
        redirects: 0,
        gossip_fanout_success: 0,
        gossip_fanout_failure: 0,
        gossip_auth_failures: 0,
        gossip_negotiation_success: 0,
        gossip_negotiation_failure: 0,
    }
}

fn facts(role: Option<WebRole>) -> WebFacts {
    WebFacts {
        database: Ok("default".to_string()),
        role,
        csrf_valid: true,
        maintenance: Ok(false),
        routing_version: Ok(3),
        use_verdict: Ok(()),
        now_ms: 1000,
    }
}

fn run(request: &HttpRequest, facts: &WebFacts) -> (WebStep, WebMetrics) {
    let mut metrics = no_metrics();
    let mut limiter = AuthFailureLimiter::new();
    let step = execute_http_request(request, facts, &mut metrics, &mut limiter);
    (step, metrics)
}

fn status(step: &WebStep) -> u16 {
    match step {
        WebStep::Answer(response) => response.status,
        WebStep::Run(_, _) => 0,
    }
}

#[test]
fn strangers_are_turned_away() {
    let metrics_request = request(&["GET /api/metrics HTTP/1.1"], "");
    let (step, metrics) = run(&metrics_request, &facts(None));
    assert_eq!(status(&step), 401);
    assert_eq!(metrics.http_requests, 1);
    assert_eq!(metrics.http_errors, 1);
    assert_eq!(metrics.auth_failures, 1);
    assert_eq!(metrics.auth_rate_limited, 0);
}

#[test]
fn the_sixth_failure_in_a_minute_is_limited() {
    let mut limiter = AuthFailureLimiter::new();
    for _ in 0..5 {
        assert!(!limiter.record_and_should_limit("web", 1000));
    }
    assert!(limiter.record_and_should_limit("web", 1000));
    assert!(!limiter.record_and_should_limit("other", 1000));
    assert!(limiter.record_and_should_limit("web", 60000));
    assert!(!limiter.record_and_should_limit("web", 60001));
}

#[test]
fn roles_decide_what_is_done() {
    let backup = request(&["POST /api/backup HTTP/1.1"], "{\"path\":\"/b\"}");
    let (step, _) = run(&backup, &facts(Some(WebRole::Writer)));
    assert_eq!(status(&step), 403);
    let (step, _) = run(&backup, &facts(Some(WebRole::Admin)));
    match step {
        WebStep::Run(_, WebTask::Backup { path }) => assert_eq!(path, "/b"),
        _ => panic!("the backup is not made"),
    }
    for role in [WebRole::Reader, WebRole::Writer, WebRole::Admin] {
        assert!(web_role_allows_action(role, WebAction::GraphRead));
    }
    assert_eq!(
        web_action_for_request("GET", "/api/metrics"),
        Some(WebAction::MetricsRead)
    );
    assert_eq!(web_action_for_request("GET", "/nowhere"), None);
}

#[test]
fn queries_wait_for_a_restore() {
    let query = request(
        &["POST /api/query HTTP/1.1"],
        "{\"query\":\"CREATE (n)\",\"params\":{\"a\":1}}",
    );
    let mut known = facts(Some(WebRole::Admin));
    known.maintenance = Ok(true);
    let (step, metrics) = run(&query, &known);
    assert_eq!(status(&step), 503);
    assert_eq!(metrics.http_errors, 1);
    let (step, _) = run(&query, &facts(Some(WebRole::Admin)));
    match step {
        WebStep::Run(route, WebTask::Query { query, params, consistency }) => {
            assert_eq!(web_route_action(route), web_route_action(web_route("POST", "/api/query").unwrap()));
            assert_eq!(query, "CREATE (n)");
            assert!(matches!(params.get("a"), Some(Literal::Int(1))));
            assert_eq!(consistency, ReadConsistency::Strong);
        }
        _ => panic!("the query is not run"),
    }
}

#[test]
fn stale_routing_is_told() {
    let query = request(
        &["POST /api/query HTTP/1.1", "x-neo4r-ownership-epoch: 2"],
        "{\"query\":\"MATCH (n) RETURN n\"}",
    );
    let (step, metrics) = run(&query, &facts(Some(WebRole::Writer)));
    assert_eq!(status(&step), 409);
    assert_eq!(metrics.stale_epoch_rejections, 1);
    match step {
        WebStep::Answer(response) => assert_eq!(
            response.body,
            "{\"error\":\"stale ownership epoch\",\"routing_version\":3,\"ownership_epoch\":3,\"retryable\":true}"
        ),
        _ => panic!("the query is run"),
    }
    let (step, _) = run(
        &request(&["GET /nowhere HTTP/1.1"], ""),
        &facts(Some(WebRole::Admin)),
    );
    assert_eq!(status(&step), 404);
}

#[test]
fn consistency_is_read_from_the_request() {
    let strong = request(&["POST /api/query HTTP/1.1"], "{}");
    assert_eq!(parse_query_options(&strong), Ok(ReadConsistency::Strong));
    let stale = request(
        &["POST /api/query HTTP/1.1"],
        "{\"read_consistency\":\"bounded-staleness\",\"max_staleness_ms\":70}",
    );
    assert_eq!(
        parse_query_options(&stale),
        Ok(ReadConsistency::BoundedStaleness { max_staleness_ms: 70 })
    );
    let wrong = request(&["POST /api/query HTTP/1.1"], "{\"read_consistency\":\"never\"}");
    assert!(parse_query_options(&wrong).is_err());
}

#[test]
fn failed_tasks_are_answered_with_an_error() {
    let mut metrics = no_metrics();
    let response = answer_web_task(WebRoute::Metrics, Ok("{}".to_string()), &mut metrics);
    assert_eq!(response.status, 200);
    let response = answer_web_task(
        WebRoute::AddUser,
        Err("user \"x\" exists".to_string()),
        &mut metrics,
    );
    assert!(response.status >= 400);
    assert_eq!(response.body, "{\"error\":\"user \\\"x\\\" exists\"}");
}

#[test]
fn tokens_are_found_where_clients_put_them() {
    let bearer = request(&["GET / HTTP/1.1", "Authorization: Bearer abc"], "");
    assert_eq!(supplied_token(&bearer), Some("abc".to_string()));
    let cookie = request(&["GET / HTTP/1.1", "Cookie: a=1; neo4r.session=s1"], "");
    assert_eq!(request_session_token(&cookie), Some("s1".to_string()));
    assert_eq!(request_session_token(&bearer), None);
    let stranger = AuthFacts {
        session_role: None,
        configured_token: Some("abc".to_string()),
        configured_role: WebRole::Admin,
        no_users: false,
        user_role: None,
    };
    assert_eq!(authorized_role(&bearer, &stranger), Some(WebRole::Admin));
    assert_eq!(
        authorized_role(&request(&["GET / HTTP/1.1"], ""), &stranger),
        None
    );
    let changes = request(
        &["POST / HTTP/1.1", "X-Neo4r-Csrf: c1", "Cookie: neo4r.session=sid%3As1"],
        "",
    );
    assert!(valid_session_csrf(&changes, &Some("c1".to_string())));
    assert!(!valid_session_csrf(&changes, &Some("c2".to_string())));
    assert!(!valid_session_csrf(&changes, &None));
}

#[test]
fn tokens_are_the_same_in_every_character() {
    assert!(constant_time_token_eq("", ""));
    assert!(constant_time_token_eq("sécret", "sécret"));
    assert!(!constant_time_token_eq("secret", "sécret"));
    assert!(!constant_time_token_eq("secret", "secreT"));
    assert!(!constant_time_token_eq("Secret", "secret"));
    assert!(!constant_time_token_eq("secret", "secret "));
    assert!(!constant_time_token_eq("secret ", "secret"));
    assert!(!constant_time_token_eq("", "secret"));
}

#[test]
fn sessions_are_made_for_those_with_a_role() {
    assert_eq!(
        create_web_session(None, Ok(("s".to_string(), "c".to_string())), "default"),
        Err("unauthorized".to_string())
    );
    assert_eq!(
        create_web_session(Some(WebRole::Admin), Err("full".to_string()), "default"),
        Err("full".to_string())
    );
    let made = create_web_session(
        Some(WebRole::Reader),
        Ok(("s1".to_string(), "c1".to_string())),
        "default",
    )
    .unwrap();
    assert_eq!(
        made,
        "{\"session_id\":\"s1\",\"csrf_token\":\"c1\",\"expires_in\":3600,\"database\":\"default\"}"
    );
    let leaving = request(&["POST / HTTP/1.1", "Cookie: neo4r.session=sid%3As1"], "");
    assert_eq!(
        delete_web_session(&leaving, Ok(())),
        Ok("{\"logged_out\":true}".to_string())
    );
    assert_eq!(
        delete_web_session(&request(&["POST / HTTP/1.1"], ""), Ok(())),
        Err("missing web session".to_string())
    );
}

#[test]
fn databases_are_named_by_header_query_or_use_clause() {
    let plain = request(&["GET / HTTP/1.1"], "");
    assert_eq!(named_database(&plain), "default");
    let given = request(&["GET /?db=sales HTTP/1.1"], "");
    assert_eq!(named_database(&given), "sales");
    assert_eq!(
        request_database_name(&given, &Ok(()), &Err("bad name".to_string())),
        Err("bad name".to_string())
    );
    assert_eq!(
        request_database_name(&given, &Ok(()), &Ok(())),
        Ok("sales".to_string())
    );
}

fn row(fields: Vec<(&str, QueryValue)>) -> QueryRow {
    let mut values = TextTable::new();
    for (name, value) in fields {
        values.insert(name.to_string(), value);
    }
    QueryRow { values }
}

fn node(id: u64) -> QueryValue {
    QueryValue::Node(NodeValue {
        id,
        labels: vec!["P".to_string()],
        properties: vec![("name".to_string(), Value::Text("x\"y".to_string()))],
    })
}

#[test]
fn results_are_shown_with_their_columns() {
    let rows = vec![
        row(vec![("b", QueryValue::Scalar(Value::Int(1)))]),
        row(vec![("a", QueryValue::Scalar(Value::Null)), ("b", QueryValue::Scalar(Value::Bool(true)))]),
    ];
    assert_eq!(
        query_result_json(&rows, "default"),
        "{\"columns\":[\"a\",\"b\"],\"rows\":[{\"b\":1},{\"a\":null,\"b\":true}],\"plan\":null,\"database\":\"default\"}"
    );
}

#[test]
fn a_node_of_the_graph_is_shown_once() {
    let nodes = vec![row(vec![("n", node(1))]), row(vec![("n", node(1))]), row(vec![("n", node(2))])];
    let rels = vec![row(vec![(
        "r",
        QueryValue::Relationship(RelationshipValue {
            id: 7,
            from: 1,
            to: 2,
            rel_type: "KNOWS".to_string(),
            properties: vec![],
        }),
    )])];
    let shown = graph_json(&nodes, &rels, &None);
    assert_eq!(shown.matches("\"id\":1,").count(), 1);
    assert_eq!(shown.matches("\"id\":2,").count(), 1);
    assert!(shown.contains("KNOWS"));
    assert!(shown.contains("x\\\"y"));
}

fn raft(shard_id: u64, role: &str, commit_index: u64, last_log_index: u64) -> RaftShard {
    RaftShard {
        shard_id,
        term: 4,
        role: role.to_string(),
        leader_id: Some(1),
        commit_index,
        last_log_index,
        snapshot_index: 2,
        joint_consensus: false,
        leader_lease_remaining_ms: 10,
    }
}

fn metric_facts() -> MetricsFacts {
    MetricsFacts {
        statistics: Some(StatisticsCounts {
            node_count: 5,
            relationship_count: 6,
            index_count: 1,
            vector_index_count: 0,
        }),
        committed_indexes: vec![3, 9],
        applied_indexes: vec![3, 7],
        index_states: vec!["ready".to_string()],
        tenants_disabled: Some(vec![false, true]),
        raft: vec![raft(0, "leader", 5, 8)],
        rebalance_state: None,
        web_user_token_count: Some(2),
        audit_actions: vec![],
        latest_backup_or_restore_seconds: 0,
        latest_repair_seconds: 0,
        replication: Some(ReplicationCounts {
            sent_batches: 1,
            acked_batches: 1,
            failed_batches: 0,
            sent_entries: 2,
            sent_bytes: 3,
            election_rounds: 0,
            append_conflicts: 0,
            snapshot_installs: 0,
            snapshot_install_millis: 0,
        }),
        shard_count: 2,
        local_partition_count: 1,
        slow_query_threshold_ms: 250,
    }
}

#[test]
fn metrics_tell_what_is_counted() {
    let mut counts = no_metrics();
    counts.http_requests = 11;
    let snapshot = metrics_snapshot(metric_facts(), &counts);
    assert_eq!(snapshot.http_requests, 11);
    assert_eq!(snapshot.db_nodes, 5);
    assert_eq!(snapshot.tenant_database_count, 2);
    assert_eq!(snapshot.tenant_disabled_count, 1);
    assert_eq!(snapshot.raft_term_max, 4);
    let json = snapshot.to_json();
    assert!(json.contains("\"http_requests\":11"));
    let text = metrics_prometheus(&snapshot, &[raft(0, "leader", 5, 8)], "default", 1);
    assert!(text.contains("neo4r_"));
    assert_eq!(greatest(&[3, 9, 4]), 9);
    assert_eq!(greatest(&[]), 0);
    assert_eq!(
        prometheus_metric("neo4r_x", 7),
        "# TYPE neo4r_x gauge\nneo4r_x 7\n"
    );
}

#[test]
fn pages_of_the_console_are_json() {
    assert_eq!(
        ready_json("a\"b"),
        "{\"status\":\"ready\",\"database\":\"a\\\"b\"}"
    );
    let listed = databases_json(&Some(vec![TenantDatabaseRecord {
        name: "sales".to_string(),
        disabled: true,
    }]));
    assert!(listed.contains("{\"name\":\"sales\",\"disabled\":true}"));
    assert_eq!(
        routing_table_json(&None),
        "{\"version\":0,\"ownership_epoch\":0,\"shards\":[]}"
    );
    assert_eq!(
        management_response_json("ERR\tno"),
        "{\"response\":\"ERR\\tno\"}"
    );
    let log = slow_queries_json(&[SlowQueryEntry {
        unix_ms: 5,
        elapsed_ms: 300,
        query: "MATCH (n)".to_string(),
    }]);
    assert!(log.contains("300"));
    assert!(log.contains("MATCH (n)"));
}

#[test]
fn audit_events_are_filtered_and_limited() {
    let event = |action: &str, target: &str, ms: u128| AuditEvent {
        unix_ms: ms,
        action: action.to_string(),
        target: target.to_string(),
        detail: String::new(),
    };
    let events = vec![event("user.add", "ada", 1), event("backup", "db", 2), event("user.add", "bob", 3)];
    let shown = web_audit_json_filtered(&events, &Some("user.add".to_string()), &None, None);
    assert!(shown.contains("ada") && shown.contains("bob") && !shown.contains("backup"));
    let shown = web_audit_json_filtered(&events, &None, &Some("db".to_string()), None);
    assert_eq!(
        shown,
        "{\"events\":[{\"unix_ms\":2,\"action\":\"backup\",\"target\":\"db\",\"detail\":\"\"}]}"
    );
    let newest = web_audit_json_filtered(&events, &None, &None, Some(1));
    assert!(newest.contains("bob") && !newest.contains("ada"));
}

#[test]
fn web_queries_give_their_place_back() {
    let mut metrics = no_metrics();
    let mut quota = TenantQuota::new();
    quota.configure(Some(1), Some(1));
    let mut log = SlowQueryLog::new();
    begin_web_query(&mut metrics, &mut quota, "default").unwrap();
    assert!(begin_web_query(&mut metrics, &mut quota, "default")
        .unwrap_err()
        .starts_with("tenant quota exceeded for database default: "));
    assert_eq!(metrics.queries, 2);
    let run = WebQueryRun {
        query: "MATCH (n) RETURN n".to_string(),
        database: "default".to_string(),
        elapsed_ms: 250,
        unix_ms: 77,
    };
    let rows = vec![row(vec![("n", QueryValue::Scalar(Value::Int(3)))])];
    let answer = finish_web_query(&mut metrics, &mut quota, &mut log, 250, &run, Ok(rows)).unwrap();
    assert!(answer.contains("[{\"n\":3}]"));
    assert_eq!(metrics.slow_queries, 1);
    assert_eq!(log.entries().len(), 1);
    assert_eq!(log.entries()[0].elapsed_ms, 250);
    begin_web_query(&mut metrics, &mut quota, "default").unwrap();
    let rows = vec![row(vec![]), row(vec![])];
    assert!(
        finish_web_query(&mut metrics, &mut quota, &mut log, 251, &run, Ok(rows))
            .unwrap_err()
            .starts_with("tenant result row quota exceeded for database default: ")
    );
    assert_eq!(metrics.query_errors, 1);
    begin_web_query(&mut metrics, &mut quota, "default").unwrap();
    let failed = Err("no such label".to_string());
    assert_eq!(
        finish_web_query(&mut metrics, &mut quota, &mut log, 251, &run, failed),
        Err("no such label".to_string())
    );
    assert_eq!(metrics.query_errors, 2);
    assert_eq!(log.entries().len(), 1);
    begin_web_query(&mut metrics, &mut quota, "default").unwrap();
}

#[test]
fn the_slow_query_log_keeps_the_newest() {
    let mut log = SlowQueryLog::new();
    for i in 0..130u128 {
        log.push(SlowQueryEntry {
            unix_ms: i,
            elapsed_ms: 1,
            query: String::new(),
        });
    }
    let entries = log.entries();
    assert_eq!(entries.len(), 128);
    assert_eq!(entries[0].unix_ms, 2);
    assert_eq!(entries[127].unix_ms, 129);
}

#[test]
fn plans_tell_what_they_expect() {
    let plan = PlanEstimates {
        plan: "Scan \"P\"".to_string(),
        cost_model_version: 3,
        estimated_cost: 40,
        estimated_rows: 10,
        remote_shard_count: 1,
    };
    assert_eq!(
        query_plan_json(&plan, "0.250000"),
        "{\"plan\":\"Scan \\\"P\\\"\",\"explain\":{\"cost_model_version\":3,\"estimated_cost\":40,\"estimated_rows\":10,\"remote_shard_count\":1,\"selectivity_estimate\":0.250000}}"
    );
}
