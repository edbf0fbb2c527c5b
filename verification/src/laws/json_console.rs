//! What the web console's answers say when they are read as JSON.

use vstd::prelude::*;

use crate::json::{bool_text, error_body, json_escaped, number_list, number_or_null};
use crate::laws::json_reading::{
    decimals_say_the_number, digits_say, is_plain, key_of, lemma_begin, lemma_close,
    lemma_constants, lemma_empty_list, lemma_end, lemma_field, lemma_first, lemma_grow, lemma_plain,
    lemma_whole, lists_are_read_item_by_item, missing_numbers_say_so, number_lists_say_the_numbers,
    number_or_nothing, quoted_texts_say_the_text, reads, truth_values_say_what_they_are, Json,
};
use crate::limits::SlowQuery;
use crate::maintenance::{shard_plan_text, selected_count, target_index, LogEntryStamp, PitrTarget};
use crate::metrics::RaftShard;
use crate::model::{primary_of, ShardPlacement, ShardReplica, ShardRole, ShardRoutingTable};
use crate::rbac::WebRole;
use crate::text::{dec, join};
use crate::web::stale_body;
use crate::web_auth::session_body;
use crate::web_json::{
    database_text, database_texts, databases_body, event_text, example_text, fits, last_or_zero,
    maintenance_text, or_zero, peer_text, peer_texts, placement_text, placement_texts,
    raft_shard_text, raft_shard_texts, raft_status_body, registry_body, registry_shard_text,
    registry_shard_texts, replica_text, replica_texts, role_text, routing_body, shown_events,
    slow_query_text, slow_query_texts, state_or_idle, user_text, user_texts, version_or_zero,
    AuditEvent, RegistryFacts, StorageMaintenance, TenantDatabaseRecord, WebUserInfo,
};

verus! {

/// The body of an answer that reports an error says the error.
pub proof fn errors_say_their_message(message: Seq<char>)
    ensures
        reads(
            error_body(message),
            Json::Fields(
                seq![
                    ("error"@, Json::Text(message)),
                ],
            ),
        ),
{
    let t0 = seq!['{'];
    let f0 = Seq::<(Seq<char>, Json)>::empty();
    lemma_begin(t0);
    let k1 = key_of(true, "error"@);
    let v1 = seq!['"'] + json_escaped(message) + seq!['"'];
    let j1 = Json::Text(message);
    assert(reads(v1, j1)) by {
        quoted_texts_say_the_text(message);
    }
    plain_error();
    lemma_field(t0, f0, k1, "error"@, v1, j1);
    let t1 = t0 + k1 + v1;
    let f1 = f0.push(("error"@, j1));
    piece_error();
    lemma_first("{\"error\":\""@, t0, Seq::<char>::empty(), k1, seq!['"'], json_escaped(message), seq!['"'], v1);
    let o1 = "{\"error\":\""@ + json_escaped(message);
    piece_then_end();
    lemma_end(o1, t1, t1, "\"}"@, seq!['"'], Seq::<char>::empty());
    lemma_close(t1, f1);
    let fs = seq![
        ("error"@, Json::Text(message)),
    ];
    assert(f1 =~= fs);
}

/// The answer to a request for a session says the session, its own token, for how long it lasts, and
/// its database.
pub proof fn sessions_say_their_tokens(id: Seq<char>, csrf: Seq<char>, database: Seq<char>)
    ensures
        reads(
            session_body(id, csrf, database),
            Json::Fields(
                seq![
                    ("session_id"@, Json::Text(id)),
                    ("csrf_token"@, Json::Text(csrf)),
                    ("expires_in"@, Json::Number(3600)),
                    ("database"@, Json::Text(database)),
                ],
            ),
        ),
{
    let t0 = seq!['{'];
    let f0 = Seq::<(Seq<char>, Json)>::empty();
    lemma_begin(t0);
    let k1 = key_of(true, "session_id"@);
    let v1 = seq!['"'] + json_escaped(id) + seq!['"'];
    let j1 = Json::Text(id);
    assert(reads(v1, j1)) by {
        quoted_texts_say_the_text(id);
    }
    plain_session_id();
    lemma_field(t0, f0, k1, "session_id"@, v1, j1);
    let t1 = t0 + k1 + v1;
    let f1 = f0.push(("session_id"@, j1));
    piece_session_id();
    lemma_first("{\"session_id\":\""@, t0, Seq::<char>::empty(), k1, seq!['"'], json_escaped(id), seq!['"'], v1);
    let o1 = "{\"session_id\":\""@ + json_escaped(id);
    let k2 = key_of(false, "csrf_token"@);
    let v2 = seq!['"'] + json_escaped(csrf) + seq!['"'];
    let j2 = Json::Text(csrf);
    assert(reads(v2, j2)) by {
        quoted_texts_say_the_text(csrf);
    }
    plain_csrf_token();
    lemma_field(t1, f1, k2, "csrf_token"@, v2, j2);
    let t2 = t1 + k2 + v2;
    let f2 = f1.push(("csrf_token"@, j2));
    piece_then_csrf_token();
    lemma_grow(o1, t1, t1, "\",\"csrf_token\":\""@, seq!['"'], Seq::<char>::empty(), k2, seq!['"'], json_escaped(csrf), seq!['"'], v2);
    let o2 = o1 + "\",\"csrf_token\":\""@ + json_escaped(csrf);
    let k3 = key_of(false, "expires_in"@);
    let v3 = seq!['3', '6', '0', '0'];
    let j3 = Json::Number(3600);
    assert(reads(v3, j3)) by {
        number_3600();
    }
    plain_expires_in();
    lemma_field(t2, f2, k3, "expires_in"@, v3, j3);
    let t3 = t2 + k3 + v3;
    let f3 = f2.push(("expires_in"@, j3));
    let k4 = key_of(false, "database"@);
    let v4 = seq!['"'] + json_escaped(database) + seq!['"'];
    let j4 = Json::Text(database);
    assert(reads(v4, j4)) by {
        quoted_texts_say_the_text(database);
    }
    plain_database();
    lemma_field(t3, f3, k4, "database"@, v4, j4);
    let t4 = t3 + k4 + v4;
    let f4 = f3.push(("database"@, j4));
    piece_then_expires_in_3600_database();
    assert(t2 + (Seq::<char>::empty() + key_of(false, "expires_in"@) + (seq!['3', '6', '0', '0'])) =~= t3);
    lemma_grow(o2, t2, t3, "\",\"expires_in\":3600,\"database\":\""@, seq!['"'], (Seq::<char>::empty() + key_of(false, "expires_in"@) + (seq!['3', '6', '0', '0'])), k4, seq!['"'], json_escaped(database), seq!['"'], v4);
    let o4 = o2 + "\",\"expires_in\":3600,\"database\":\""@ + json_escaped(database);
    piece_then_end();
    lemma_end(o4, t4, t4, "\"}"@, seq!['"'], Seq::<char>::empty());
    lemma_close(t4, f4);
    let fs = seq![
        ("session_id"@, Json::Text(id)),
        ("csrf_token"@, Json::Text(csrf)),
        ("expires_in"@, Json::Number(3600)),
        ("database"@, Json::Text(database)),
    ];
    assert(f4 =~= fs);
}

/// A sender that knows an older routing table is told the present version.
pub proof fn stale_senders_are_told_the_version(version: nat)
    ensures
        reads(
            stale_body(version),
            Json::Fields(
                seq![
                    ("error"@, Json::Text("stale ownership epoch"@)),
                    ("routing_version"@, Json::Number(version as int)),
                    ("ownership_epoch"@, Json::Number(version as int)),
                    ("retryable"@, Json::Bool(true)),
                ],
            ),
        ),
{
    let t0 = seq!['{'];
    let f0 = Seq::<(Seq<char>, Json)>::empty();
    lemma_begin(t0);
    let k1 = key_of(true, "error"@);
    let v1 = seq!['"'] + "stale ownership epoch"@ + seq!['"'];
    let j1 = Json::Text("stale ownership epoch"@);
    assert(reads(v1, j1)) by {
        plain_stale_ownership_epoch();
        lemma_plain("stale ownership epoch"@);
        quoted_texts_say_the_text("stale ownership epoch"@);
    }
    plain_error();
    lemma_field(t0, f0, k1, "error"@, v1, j1);
    let t1 = t0 + k1 + v1;
    let f1 = f0.push(("error"@, j1));
    let k2 = key_of(false, "routing_version"@);
    let v2 = dec(version);
    let j2 = Json::Number(version as int);
    assert(reads(v2, j2)) by {
        decimals_say_the_number(version);
    }
    plain_routing_version();
    lemma_field(t1, f1, k2, "routing_version"@, v2, j2);
    let t2 = t1 + k2 + v2;
    let f2 = f1.push(("routing_version"@, j2));
    piece_error_stale_ownership_epoch_routing_version();
    assert(t0 + (Seq::<char>::empty() + key_of(true, "error"@) + (seq!['"'] + "stale ownership epoch"@ + seq!['"'])) =~= t1);
    lemma_first("{\"error\":\"stale ownership epoch\",\"routing_version\":"@, t1, (Seq::<char>::empty() + key_of(true, "error"@) + (seq!['"'] + "stale ownership epoch"@ + seq!['"'])), k2, Seq::<char>::empty(), dec(version), Seq::<char>::empty(), v2);
    let o2 = "{\"error\":\"stale ownership epoch\",\"routing_version\":"@ + dec(version);
    let k3 = key_of(false, "ownership_epoch"@);
    let v3 = dec(version);
    let j3 = Json::Number(version as int);
    assert(reads(v3, j3)) by {
        decimals_say_the_number(version);
    }
    plain_ownership_epoch();
    lemma_field(t2, f2, k3, "ownership_epoch"@, v3, j3);
    let t3 = t2 + k3 + v3;
    let f3 = f2.push(("ownership_epoch"@, j3));
    piece_then_ownership_epoch();
    lemma_grow(o2, t2, t2, ",\"ownership_epoch\":"@, Seq::<char>::empty(), Seq::<char>::empty(), k3, Seq::<char>::empty(), dec(version), Seq::<char>::empty(), v3);
    let o3 = o2 + ",\"ownership_epoch\":"@ + dec(version);
    let k4 = key_of(false, "retryable"@);
    let v4 = seq!['t', 'r', 'u', 'e'];
    let j4 = Json::Bool(true);
    assert(reads(v4, j4)) by {
        lemma_constants();
    }
    plain_retryable();
    lemma_field(t3, f3, k4, "retryable"@, v4, j4);
    let t4 = t3 + k4 + v4;
    let f4 = f3.push(("retryable"@, j4));
    piece_then_retryable_true();
    assert(t3 + (Seq::<char>::empty() + key_of(false, "retryable"@) + (seq!['t', 'r', 'u', 'e'])) =~= t4);
    lemma_end(o3, t3, t4, ",\"retryable\":true}"@, Seq::<char>::empty(), (Seq::<char>::empty() + key_of(false, "retryable"@) + (seq!['t', 'r', 'u', 'e'])));
    lemma_close(t4, f4);
    let fs = seq![
        ("error"@, Json::Text("stale ownership epoch"@)),
        ("routing_version"@, Json::Number(version as int)),
        ("ownership_epoch"@, Json::Number(version as int)),
        ("retryable"@, Json::Bool(true)),
    ];
    assert(f4 =~= fs);
}

/// What the consensus of a shard says.
pub open spec fn raft_shard_says(x: RaftShard) -> Json {
    Json::Fields(
        seq![
            ("shard_id"@, Json::Number(x.shard_id as int)),
            ("term"@, Json::Number(x.term as int)),
            ("role"@, Json::Text(x.role@)),
            ("leader_id"@, number_or_nothing(x.leader_id)),
            ("commit_index"@, Json::Number(x.commit_index as int)),
            ("last_log_index"@, Json::Number(x.last_log_index as int)),
            ("snapshot_index"@, Json::Number(x.snapshot_index as int)),
            ("joint_consensus"@, Json::Bool(x.joint_consensus)),
        ],
    )
}

/// The consensus of a shard says its term, leader and indexes, each under its name.
pub proof fn raft_shards_say_what_they_are(x: RaftShard)
    requires
        is_plain(x.role@),
    ensures
        reads(
            raft_shard_text(x),
            Json::Fields(
                seq![
                    ("shard_id"@, Json::Number(x.shard_id as int)),
                    ("term"@, Json::Number(x.term as int)),
                    ("role"@, Json::Text(x.role@)),
                    ("leader_id"@, number_or_nothing(x.leader_id)),
                    ("commit_index"@, Json::Number(x.commit_index as int)),
                    ("last_log_index"@, Json::Number(x.last_log_index as int)),
                    ("snapshot_index"@, Json::Number(x.snapshot_index as int)),
                    ("joint_consensus"@, Json::Bool(x.joint_consensus)),
                ],
            ),
        ),
{
    let t0 = seq!['{'];
    let f0 = Seq::<(Seq<char>, Json)>::empty();
    lemma_begin(t0);
    let k1 = key_of(true, "shard_id"@);
    let v1 = dec(x.shard_id as nat);
    let j1 = Json::Number(x.shard_id as int);
    assert(reads(v1, j1)) by {
        decimals_say_the_number(x.shard_id as nat);
    }
    plain_shard_id();
    lemma_field(t0, f0, k1, "shard_id"@, v1, j1);
    let t1 = t0 + k1 + v1;
    let f1 = f0.push(("shard_id"@, j1));
    piece_shard_id();
    lemma_first("{\"shard_id\":"@, t0, Seq::<char>::empty(), k1, Seq::<char>::empty(), dec(x.shard_id as nat), Seq::<char>::empty(), v1);
    let o1 = "{\"shard_id\":"@ + dec(x.shard_id as nat);
    let k2 = key_of(false, "term"@);
    let v2 = dec(x.term as nat);
    let j2 = Json::Number(x.term as int);
    assert(reads(v2, j2)) by {
        decimals_say_the_number(x.term as nat);
    }
    plain_term();
    lemma_field(t1, f1, k2, "term"@, v2, j2);
    let t2 = t1 + k2 + v2;
    let f2 = f1.push(("term"@, j2));
    piece_then_term();
    lemma_grow(o1, t1, t1, ",\"term\":"@, Seq::<char>::empty(), Seq::<char>::empty(), k2, Seq::<char>::empty(), dec(x.term as nat), Seq::<char>::empty(), v2);
    let o2 = o1 + ",\"term\":"@ + dec(x.term as nat);
    let k3 = key_of(false, "role"@);
    let v3 = seq!['"'] + x.role@ + seq!['"'];
    let j3 = Json::Text(x.role@);
    assert(reads(v3, j3)) by {
        lemma_plain(x.role@);
        quoted_texts_say_the_text(x.role@);
    }
    plain_role();
    lemma_field(t2, f2, k3, "role"@, v3, j3);
    let t3 = t2 + k3 + v3;
    let f3 = f2.push(("role"@, j3));
    piece_then_role();
    lemma_grow(o2, t2, t2, ",\"role\":\""@, Seq::<char>::empty(), Seq::<char>::empty(), k3, seq!['"'], x.role@, seq!['"'], v3);
    let o3 = o2 + ",\"role\":\""@ + x.role@;
    let k4 = key_of(false, "leader_id"@);
    let v4 = number_or_null(x.leader_id);
    let j4 = number_or_nothing(x.leader_id);
    assert(reads(v4, j4)) by {
        missing_numbers_say_so(x.leader_id);
    }
    plain_leader_id();
    lemma_field(t3, f3, k4, "leader_id"@, v4, j4);
    let t4 = t3 + k4 + v4;
    let f4 = f3.push(("leader_id"@, j4));
    piece_then_leader_id();
    lemma_grow(o3, t3, t3, "\",\"leader_id\":"@, seq!['"'], Seq::<char>::empty(), k4, Seq::<char>::empty(), number_or_null(x.leader_id), Seq::<char>::empty(), v4);
    let o4 = o3 + "\",\"leader_id\":"@ + number_or_null(x.leader_id);
    let k5 = key_of(false, "commit_index"@);
    let v5 = dec(x.commit_index as nat);
    let j5 = Json::Number(x.commit_index as int);
    assert(reads(v5, j5)) by {
        decimals_say_the_number(x.commit_index as nat);
    }
    plain_commit_index();
    lemma_field(t4, f4, k5, "commit_index"@, v5, j5);
    let t5 = t4 + k5 + v5;
    let f5 = f4.push(("commit_index"@, j5));
    piece_then_commit_index();
    lemma_grow(o4, t4, t4, ",\"commit_index\":"@, Seq::<char>::empty(), Seq::<char>::empty(), k5, Seq::<char>::empty(), dec(x.commit_index as nat), Seq::<char>::empty(), v5);
    let o5 = o4 + ",\"commit_index\":"@ + dec(x.commit_index as nat);
    let k6 = key_of(false, "last_log_index"@);
    let v6 = dec(x.last_log_index as nat);
    let j6 = Json::Number(x.last_log_index as int);
    assert(reads(v6, j6)) by {
        decimals_say_the_number(x.last_log_index as nat);
    }
    plain_last_log_index();
    lemma_field(t5, f5, k6, "last_log_index"@, v6, j6);
    let t6 = t5 + k6 + v6;
    let f6 = f5.push(("last_log_index"@, j6));
    piece_then_last_log_index();
    lemma_grow(o5, t5, t5, ",\"last_log_index\":"@, Seq::<char>::empty(), Seq::<char>::empty(), k6, Seq::<char>::empty(), dec(x.last_log_index as nat), Seq::<char>::empty(), v6);
    let o6 = o5 + ",\"last_log_index\":"@ + dec(x.last_log_index as nat);
    let k7 = key_of(false, "snapshot_index"@);
    let v7 = dec(x.snapshot_index as nat);
    let j7 = Json::Number(x.snapshot_index as int);
    assert(reads(v7, j7)) by {
        decimals_say_the_number(x.snapshot_index as nat);
    }
    plain_snapshot_index();
    lemma_field(t6, f6, k7, "snapshot_index"@, v7, j7);
    let t7 = t6 + k7 + v7;
    let f7 = f6.push(("snapshot_index"@, j7));
    piece_then_snapshot_index();
    lemma_grow(o6, t6, t6, ",\"snapshot_index\":"@, Seq::<char>::empty(), Seq::<char>::empty(), k7, Seq::<char>::empty(), dec(x.snapshot_index as nat), Seq::<char>::empty(), v7);
    let o7 = o6 + ",\"snapshot_index\":"@ + dec(x.snapshot_index as nat);
    let k8 = key_of(false, "joint_consensus"@);
    let v8 = bool_text(x.joint_consensus);
    let j8 = Json::Bool(x.joint_consensus);
    assert(reads(v8, j8)) by {
        truth_values_say_what_they_are(x.joint_consensus);
    }
    plain_joint_consensus();
    lemma_field(t7, f7, k8, "joint_consensus"@, v8, j8);
    let t8 = t7 + k8 + v8;
    let f8 = f7.push(("joint_consensus"@, j8));
    piece_then_joint_consensus();
    lemma_grow(o7, t7, t7, ",\"joint_consensus\":"@, Seq::<char>::empty(), Seq::<char>::empty(), k8, Seq::<char>::empty(), bool_text(x.joint_consensus), Seq::<char>::empty(), v8);
    let o8 = o7 + ",\"joint_consensus\":"@ + bool_text(x.joint_consensus);
    piece_then_end_2();
    lemma_end(o8, t8, t8, "}"@, Seq::<char>::empty(), Seq::<char>::empty());
    lemma_close(t8, f8);
    let fs = seq![
        ("shard_id"@, Json::Number(x.shard_id as int)),
        ("term"@, Json::Number(x.term as int)),
        ("role"@, Json::Text(x.role@)),
        ("leader_id"@, number_or_nothing(x.leader_id)),
        ("commit_index"@, Json::Number(x.commit_index as int)),
        ("last_log_index"@, Json::Number(x.last_log_index as int)),
        ("snapshot_index"@, Json::Number(x.snapshot_index as int)),
        ("joint_consensus"@, Json::Bool(x.joint_consensus)),
    ];
    assert(f8 =~= fs);
}

/// The consensus of shards, one by one.
pub proof fn lemma_raft_shards(shards: Seq<RaftShard>)
    requires
        forall|i: int| 0 <= i < shards.len() ==> is_plain((#[trigger] shards[i]).role@),
    ensures
        reads(
            seq!['['] + join(raft_shard_texts(shards), ","@) + seq![']'],
            Json::List(shards.map_values(|x: RaftShard| raft_shard_says(x))),
        ),
{
    let items = shards.map_values(|x: RaftShard| raft_shard_says(x));
    let parts = raft_shard_texts(shards);
    assert forall|i: int| 0 <= i < items.len() implies reads(parts[i], #[trigger] items[i]) by {
        assert(is_plain(shards[i].role@));
        raft_shards_say_what_they_are(shards[i]);
        assert(parts[i] == raft_shard_text(shards[i]));
    }
    lists_are_read_item_by_item(parts, items);
}

/// The status of the consensus says every shard, in order.
pub proof fn raft_status_says_every_shard(shards: Seq<RaftShard>)
    requires
        forall|i: int| 0 <= i < shards.len() ==> is_plain((#[trigger] shards[i]).role@),
    ensures
        reads(
            raft_status_body(shards),
            Json::Fields(
                seq![
                    ("raft_shards"@, Json::List(shards.map_values(|x: RaftShard| raft_shard_says(x)))),
                ],
            ),
        ),
{
    let t0 = seq!['{'];
    let f0 = Seq::<(Seq<char>, Json)>::empty();
    lemma_begin(t0);
    let k1 = key_of(true, "raft_shards"@);
    let v1 = seq!['['] + join(raft_shard_texts(shards), ","@) + seq![']'];
    let j1 = Json::List(shards.map_values(|x: RaftShard| raft_shard_says(x)));
    assert(reads(v1, j1)) by {
        lemma_raft_shards(shards);
    }
    plain_raft_shards();
    lemma_field(t0, f0, k1, "raft_shards"@, v1, j1);
    let t1 = t0 + k1 + v1;
    let f1 = f0.push(("raft_shards"@, j1));
    piece_raft_shards();
    lemma_first("{\"raft_shards\":["@, t0, Seq::<char>::empty(), k1, seq!['['], join(raft_shard_texts(shards), ","@), seq![']'], v1);
    let o1 = "{\"raft_shards\":["@ + join(raft_shard_texts(shards), ","@);
    piece_then_end_3();
    lemma_end(o1, t1, t1, "]}"@, seq![']'], Seq::<char>::empty());
    lemma_close(t1, f1);
    let fs = seq![
        ("raft_shards"@, Json::List(shards.map_values(|x: RaftShard| raft_shard_says(x)))),
    ];
    assert(f1 =~= fs);
}

proof fn lemma_role(role: ShardRole)
    ensures
        is_plain(role_text(role)),
{
    reveal(is_plain);
    reveal_strlit("primary");
    reveal_strlit("replica");
}

/// What the part of a server in a shard says: a primary says that it is one, and so does a replica.
pub open spec fn role_says(role: ShardRole) -> Json {
    if role is Primary {
        Json::Text("primary"@)
    } else {
        Json::Text("replica"@)
    }
}

/// What a copy of a shard says.
pub open spec fn replica_says(x: ShardReplica) -> Json {
    Json::Fields(
        seq![
            ("server_id"@, Json::Number(x.server_id as int)),
            ("role"@, role_says(x.role)),
        ],
    )
}

/// A copy of a shard says its server and its part.
pub proof fn replicas_say_their_part(x: ShardReplica)
    ensures
        reads(
            replica_text(x),
            Json::Fields(
                seq![
                    ("server_id"@, Json::Number(x.server_id as int)),
                    ("role"@, role_says(x.role)),
                ],
            ),
        ),
{
    let t0 = seq!['{'];
    let f0 = Seq::<(Seq<char>, Json)>::empty();
    lemma_begin(t0);
    let k1 = key_of(true, "server_id"@);
    let v1 = dec(x.server_id as nat);
    let j1 = Json::Number(x.server_id as int);
    assert(reads(v1, j1)) by {
        decimals_say_the_number(x.server_id as nat);
    }
    plain_server_id();
    lemma_field(t0, f0, k1, "server_id"@, v1, j1);
    let t1 = t0 + k1 + v1;
    let f1 = f0.push(("server_id"@, j1));
    piece_server_id();
    lemma_first("{\"server_id\":"@, t0, Seq::<char>::empty(), k1, Seq::<char>::empty(), dec(x.server_id as nat), Seq::<char>::empty(), v1);
    let o1 = "{\"server_id\":"@ + dec(x.server_id as nat);
    let k2 = key_of(false, "role"@);
    let v2 = seq!['"'] + role_text(x.role) + seq!['"'];
    let j2 = Json::Text(role_text(x.role));
    assert(reads(v2, j2)) by {
        lemma_role(x.role);
        lemma_plain(role_text(x.role));
        quoted_texts_say_the_text(role_text(x.role));
    }
    plain_role();
    lemma_field(t1, f1, k2, "role"@, v2, j2);
    let t2 = t1 + k2 + v2;
    let f2 = f1.push(("role"@, j2));
    piece_then_role();
    lemma_grow(o1, t1, t1, ",\"role\":\""@, Seq::<char>::empty(), Seq::<char>::empty(), k2, seq!['"'], role_text(x.role), seq!['"'], v2);
    let o2 = o1 + ",\"role\":\""@ + role_text(x.role);
    piece_then_end();
    lemma_end(o2, t2, t2, "\"}"@, seq!['"'], Seq::<char>::empty());
    lemma_close(t2, f2);
    let fs = seq![
        ("server_id"@, Json::Number(x.server_id as int)),
        ("role"@, role_says(x.role)),
    ];
    assert(f2 =~= fs);
}

/// The copies of a shard, one by one.
pub proof fn lemma_replicas(replicas: Seq<ShardReplica>)
    ensures
        reads(
            seq!['['] + join(replica_texts(replicas), ","@) + seq![']'],
            Json::List(replicas.map_values(|x: ShardReplica| replica_says(x))),
        ),
{
    let items = replicas.map_values(|x: ShardReplica| replica_says(x));
    let parts = replica_texts(replicas);
    assert forall|i: int| 0 <= i < items.len() implies reads(parts[i], #[trigger] items[i]) by {
        replicas_say_their_part(replicas[i]);
        assert(parts[i] == replica_text(replicas[i]));
    }
    lists_are_read_item_by_item(parts, items);
}

/// What the placement of a shard says.
pub open spec fn placement_says(x: ShardPlacement) -> Json {
    Json::Fields(
        seq![
            ("shard_id"@, Json::Number(x.shard_id as int)),
            ("primary_server_id"@, number_or_nothing(primary_of(x.replicas@))),
            ("replicas"@, Json::List(x.replicas@.map_values(|r: ShardReplica| replica_says(r)))),
        ],
    )
}

/// The placement of a shard says its primary and every copy, in order.
pub proof fn placements_say_their_servers(x: ShardPlacement)
    ensures
        reads(
            placement_text(x),
            Json::Fields(
                seq![
                    ("shard_id"@, Json::Number(x.shard_id as int)),
                    ("primary_server_id"@, number_or_nothing(primary_of(x.replicas@))),
                    ("replicas"@, Json::List(x.replicas@.map_values(|r: ShardReplica| replica_says(r)))),
                ],
            ),
        ),
{
    let t0 = seq!['{'];
    let f0 = Seq::<(Seq<char>, Json)>::empty();
    lemma_begin(t0);
    let k1 = key_of(true, "shard_id"@);
    let v1 = dec(x.shard_id as nat);
    let j1 = Json::Number(x.shard_id as int);
    assert(reads(v1, j1)) by {
        decimals_say_the_number(x.shard_id as nat);
    }
    plain_shard_id();
    lemma_field(t0, f0, k1, "shard_id"@, v1, j1);
    let t1 = t0 + k1 + v1;
    let f1 = f0.push(("shard_id"@, j1));
    piece_shard_id();
    lemma_first("{\"shard_id\":"@, t0, Seq::<char>::empty(), k1, Seq::<char>::empty(), dec(x.shard_id as nat), Seq::<char>::empty(), v1);
    let o1 = "{\"shard_id\":"@ + dec(x.shard_id as nat);
    let k2 = key_of(false, "primary_server_id"@);
    let v2 = number_or_null(primary_of(x.replicas@));
    let j2 = number_or_nothing(primary_of(x.replicas@));
    assert(reads(v2, j2)) by {
        missing_numbers_say_so(primary_of(x.replicas@));
    }
    plain_primary_server_id();
    lemma_field(t1, f1, k2, "primary_server_id"@, v2, j2);
    let t2 = t1 + k2 + v2;
    let f2 = f1.push(("primary_server_id"@, j2));
    piece_then_primary_server_id();
    lemma_grow(o1, t1, t1, ",\"primary_server_id\":"@, Seq::<char>::empty(), Seq::<char>::empty(), k2, Seq::<char>::empty(), number_or_null(primary_of(x.replicas@)), Seq::<char>::empty(), v2);
    let o2 = o1 + ",\"primary_server_id\":"@ + number_or_null(primary_of(x.replicas@));
    let k3 = key_of(false, "replicas"@);
    let v3 = seq!['['] + join(replica_texts(x.replicas@), ","@) + seq![']'];
    let j3 = Json::List(x.replicas@.map_values(|r: ShardReplica| replica_says(r)));
    assert(reads(v3, j3)) by {
        lemma_replicas(x.replicas@);
        assert(x.replicas@.map_values(|r: ShardReplica| replica_says(r)) =~= x.replicas@.map_values(|x: ShardReplica| replica_says(x)));
    }
    plain_replicas();
    lemma_field(t2, f2, k3, "replicas"@, v3, j3);
    let t3 = t2 + k3 + v3;
    let f3 = f2.push(("replicas"@, j3));
    piece_then_replicas();
    lemma_grow(o2, t2, t2, ",\"replicas\":["@, Seq::<char>::empty(), Seq::<char>::empty(), k3, seq!['['], join(replica_texts(x.replicas@), ","@), seq![']'], v3);
    let o3 = o2 + ",\"replicas\":["@ + join(replica_texts(x.replicas@), ","@);
    piece_then_end_3();
    lemma_end(o3, t3, t3, "]}"@, seq![']'], Seq::<char>::empty());
    lemma_close(t3, f3);
    let fs = seq![
        ("shard_id"@, Json::Number(x.shard_id as int)),
        ("primary_server_id"@, number_or_nothing(primary_of(x.replicas@))),
        ("replicas"@, Json::List(x.replicas@.map_values(|r: ShardReplica| replica_says(r)))),
    ];
    assert(f3 =~= fs);
}

/// Placements, one by one.
pub proof fn lemma_placements(placements: Seq<ShardPlacement>)
    ensures
        reads(
            seq!['['] + join(placement_texts(placements), ","@) + seq![']'],
            Json::List(placements.map_values(|x: ShardPlacement| placement_says(x))),
        ),
{
    let items = placements.map_values(|x: ShardPlacement| placement_says(x));
    let parts = placement_texts(placements);
    assert forall|i: int| 0 <= i < items.len() implies reads(parts[i], #[trigger] items[i]) by {
        placements_say_their_servers(placements[i]);
        assert(parts[i] == placement_text(placements[i]));
    }
    lists_are_read_item_by_item(parts, items);
}

/// A routing table says its version, twice, and every placement, in order.
pub proof fn routing_tables_say_every_placement(t: ShardRoutingTable)
    ensures
        reads(
            routing_body(Some(t)),
            Json::Fields(
                seq![
                    ("version"@, Json::Number(t.version as int)),
                    ("ownership_epoch"@, Json::Number(t.version as int)),
                    ("shards"@, Json::List(t.placements@.map_values(|x: ShardPlacement| placement_says(x)))),
                ],
            ),
        ),
{
    let t0 = seq!['{'];
    let f0 = Seq::<(Seq<char>, Json)>::empty();
    lemma_begin(t0);
    let k1 = key_of(true, "version"@);
    let v1 = dec(t.version as nat);
    let j1 = Json::Number(t.version as int);
    assert(reads(v1, j1)) by {
        decimals_say_the_number(t.version as nat);
    }
    plain_version();
    lemma_field(t0, f0, k1, "version"@, v1, j1);
    let t1 = t0 + k1 + v1;
    let f1 = f0.push(("version"@, j1));
    piece_version();
    lemma_first("{\"version\":"@, t0, Seq::<char>::empty(), k1, Seq::<char>::empty(), dec(t.version as nat), Seq::<char>::empty(), v1);
    let o1 = "{\"version\":"@ + dec(t.version as nat);
    let k2 = key_of(false, "ownership_epoch"@);
    let v2 = dec(t.version as nat);
    let j2 = Json::Number(t.version as int);
    assert(reads(v2, j2)) by {
        decimals_say_the_number(t.version as nat);
    }
    plain_ownership_epoch();
    lemma_field(t1, f1, k2, "ownership_epoch"@, v2, j2);
    let t2 = t1 + k2 + v2;
    let f2 = f1.push(("ownership_epoch"@, j2));
    piece_then_ownership_epoch();
    lemma_grow(o1, t1, t1, ",\"ownership_epoch\":"@, Seq::<char>::empty(), Seq::<char>::empty(), k2, Seq::<char>::empty(), dec(t.version as nat), Seq::<char>::empty(), v2);
    let o2 = o1 + ",\"ownership_epoch\":"@ + dec(t.version as nat);
    let k3 = key_of(false, "shards"@);
    let v3 = seq!['['] + join(placement_texts(t.placements@), ","@) + seq![']'];
    let j3 = Json::List(t.placements@.map_values(|x: ShardPlacement| placement_says(x)));
    assert(reads(v3, j3)) by {
        lemma_placements(t.placements@);
    }
    plain_shards();
    lemma_field(t2, f2, k3, "shards"@, v3, j3);
    let t3 = t2 + k3 + v3;
    let f3 = f2.push(("shards"@, j3));
    piece_then_shards();
    lemma_grow(o2, t2, t2, ",\"shards\":["@, Seq::<char>::empty(), Seq::<char>::empty(), k3, seq!['['], join(placement_texts(t.placements@), ","@), seq![']'], v3);
    let o3 = o2 + ",\"shards\":["@ + join(placement_texts(t.placements@), ","@);
    piece_then_end_3();
    lemma_end(o3, t3, t3, "]}"@, seq![']'], Seq::<char>::empty());
    lemma_close(t3, f3);
    let fs = seq![
        ("version"@, Json::Number(t.version as int)),
        ("ownership_epoch"@, Json::Number(t.version as int)),
        ("shards"@, Json::List(t.placements@.map_values(|x: ShardPlacement| placement_says(x)))),
    ];
    assert(f3 =~= fs);
}

/// Where there is no routing table, its version is zero and no shard is told.
pub proof fn missing_routing_tables_say_nothing()
    ensures
        reads(
            routing_body(None),
            Json::Fields(
                seq![
                    ("version"@, Json::Number(0)),
                    ("ownership_epoch"@, Json::Number(0)),
                    ("shards"@, Json::List(Seq::empty())),
                ],
            ),
        ),
{
    let t0 = seq!['{'];
    let f0 = Seq::<(Seq<char>, Json)>::empty();
    lemma_begin(t0);
    let k1 = key_of(true, "version"@);
    let v1 = seq!['0'];
    let j1 = Json::Number(0);
    assert(reads(v1, j1)) by {
        number_0();
    }
    plain_version();
    lemma_field(t0, f0, k1, "version"@, v1, j1);
    let t1 = t0 + k1 + v1;
    let f1 = f0.push(("version"@, j1));
    let k2 = key_of(false, "ownership_epoch"@);
    let v2 = seq!['0'];
    let j2 = Json::Number(0);
    assert(reads(v2, j2)) by {
        number_0();
    }
    plain_ownership_epoch();
    lemma_field(t1, f1, k2, "ownership_epoch"@, v2, j2);
    let t2 = t1 + k2 + v2;
    let f2 = f1.push(("ownership_epoch"@, j2));
    let k3 = key_of(false, "shards"@);
    let v3 = seq!['[', ']'];
    let j3 = Json::List(Seq::empty());
    assert(reads(v3, j3)) by {
        lemma_empty_list();
    }
    plain_shards();
    lemma_field(t2, f2, k3, "shards"@, v3, j3);
    let t3 = t2 + k3 + v3;
    let f3 = f2.push(("shards"@, j3));
    piece_version_0_ownership_epoch_0_shards();
    assert(t0 + (((Seq::<char>::empty() + key_of(true, "version"@) + (seq!['0'])) + key_of(false, "ownership_epoch"@) + (seq!['0'])) + key_of(false, "shards"@) + (seq!['[', ']'])) =~= t3);
    lemma_whole("{\"version\":0,\"ownership_epoch\":0,\"shards\":[]}"@, t3, (((Seq::<char>::empty() + key_of(true, "version"@) + (seq!['0'])) + key_of(false, "ownership_epoch"@) + (seq!['0'])) + key_of(false, "shards"@) + (seq!['[', ']'])));
    lemma_close(t3, f3);
    let fs = seq![
        ("version"@, Json::Number(0)),
        ("ownership_epoch"@, Json::Number(0)),
        ("shards"@, Json::List(Seq::empty())),
    ];
    assert(f3 =~= fs);
}

/// What a routing table says, or that there is none.
pub open spec fn routing_says(table: Option<ShardRoutingTable>) -> Json {
    let version = match table {
        Some(t) => t.version as int,
        None => 0,
    };
    let placements = match table {
        Some(t) => t.placements@.map_values(|x: ShardPlacement| placement_says(x)),
        None => Seq::empty(),
    };
    Json::Fields(
        seq![
            ("version"@, Json::Number(version)),
            ("ownership_epoch"@, Json::Number(version)),
            ("shards"@, Json::List(placements)),
        ],
    )
}

/// What is told of the routing is the routing table.
pub proof fn routing_is_told_as_it_is(table: Option<ShardRoutingTable>)
    ensures
        reads(routing_body(table), routing_says(table)),
{
    match table {
        Some(t) => {
            routing_tables_say_every_placement(t);
        },
        None => {
            missing_routing_tables_say_nothing();
        },
    }
}

/// What the consensus of a shard says in short.
pub open spec fn registry_shard_says(x: RaftShard) -> Json {
    Json::Fields(
        seq![
            ("shard_id"@, Json::Number(x.shard_id as int)),
            ("term"@, Json::Number(x.term as int)),
            ("role"@, Json::Text(x.role@)),
            ("leader_id"@, number_or_nothing(x.leader_id)),
        ],
    )
}

/// The consensus of a shard says its term and leader in short, too.
pub proof fn registry_shards_say_what_they_are(x: RaftShard)
    requires
        is_plain(x.role@),
    ensures
        reads(
            registry_shard_text(x),
            Json::Fields(
                seq![
                    ("shard_id"@, Json::Number(x.shard_id as int)),
                    ("term"@, Json::Number(x.term as int)),
                    ("role"@, Json::Text(x.role@)),
                    ("leader_id"@, number_or_nothing(x.leader_id)),
                ],
            ),
        ),
{
    let t0 = seq!['{'];
    let f0 = Seq::<(Seq<char>, Json)>::empty();
    lemma_begin(t0);
    let k1 = key_of(true, "shard_id"@);
    let v1 = dec(x.shard_id as nat);
    let j1 = Json::Number(x.shard_id as int);
    assert(reads(v1, j1)) by {
        decimals_say_the_number(x.shard_id as nat);
    }
    plain_shard_id();
    lemma_field(t0, f0, k1, "shard_id"@, v1, j1);
    let t1 = t0 + k1 + v1;
    let f1 = f0.push(("shard_id"@, j1));
    piece_shard_id();
    lemma_first("{\"shard_id\":"@, t0, Seq::<char>::empty(), k1, Seq::<char>::empty(), dec(x.shard_id as nat), Seq::<char>::empty(), v1);
    let o1 = "{\"shard_id\":"@ + dec(x.shard_id as nat);
    let k2 = key_of(false, "term"@);
    let v2 = dec(x.term as nat);
    let j2 = Json::Number(x.term as int);
    assert(reads(v2, j2)) by {
        decimals_say_the_number(x.term as nat);
    }
    plain_term();
    lemma_field(t1, f1, k2, "term"@, v2, j2);
    let t2 = t1 + k2 + v2;
    let f2 = f1.push(("term"@, j2));
    piece_then_term();
    lemma_grow(o1, t1, t1, ",\"term\":"@, Seq::<char>::empty(), Seq::<char>::empty(), k2, Seq::<char>::empty(), dec(x.term as nat), Seq::<char>::empty(), v2);
    let o2 = o1 + ",\"term\":"@ + dec(x.term as nat);
    let k3 = key_of(false, "role"@);
    let v3 = seq!['"'] + x.role@ + seq!['"'];
    let j3 = Json::Text(x.role@);
    assert(reads(v3, j3)) by {
        lemma_plain(x.role@);
        quoted_texts_say_the_text(x.role@);
    }
    plain_role();
    lemma_field(t2, f2, k3, "role"@, v3, j3);
    let t3 = t2 + k3 + v3;
    let f3 = f2.push(("role"@, j3));
    piece_then_role();
    lemma_grow(o2, t2, t2, ",\"role\":\""@, Seq::<char>::empty(), Seq::<char>::empty(), k3, seq!['"'], x.role@, seq!['"'], v3);
    let o3 = o2 + ",\"role\":\""@ + x.role@;
    let k4 = key_of(false, "leader_id"@);
    let v4 = number_or_null(x.leader_id);
    let j4 = number_or_nothing(x.leader_id);
    assert(reads(v4, j4)) by {
        missing_numbers_say_so(x.leader_id);
    }
    plain_leader_id();
    lemma_field(t3, f3, k4, "leader_id"@, v4, j4);
    let t4 = t3 + k4 + v4;
    let f4 = f3.push(("leader_id"@, j4));
    piece_then_leader_id();
    lemma_grow(o3, t3, t3, "\",\"leader_id\":"@, seq!['"'], Seq::<char>::empty(), k4, Seq::<char>::empty(), number_or_null(x.leader_id), Seq::<char>::empty(), v4);
    let o4 = o3 + "\",\"leader_id\":"@ + number_or_null(x.leader_id);
    piece_then_end_2();
    lemma_end(o4, t4, t4, "}"@, Seq::<char>::empty(), Seq::<char>::empty());
    lemma_close(t4, f4);
    let fs = seq![
        ("shard_id"@, Json::Number(x.shard_id as int)),
        ("term"@, Json::Number(x.term as int)),
        ("role"@, Json::Text(x.role@)),
        ("leader_id"@, number_or_nothing(x.leader_id)),
    ];
    assert(f4 =~= fs);
}

/// The consensus of shards in short, one by one.
pub proof fn lemma_registry_shards(shards: Seq<RaftShard>)
    requires
        forall|i: int| 0 <= i < shards.len() ==> is_plain((#[trigger] shards[i]).role@),
    ensures
        reads(
            seq!['['] + join(registry_shard_texts(shards), ","@) + seq![']'],
            Json::List(shards.map_values(|x: RaftShard| registry_shard_says(x))),
        ),
{
    let items = shards.map_values(|x: RaftShard| registry_shard_says(x));
    let parts = registry_shard_texts(shards);
    assert forall|i: int| 0 <= i < items.len() implies reads(parts[i], #[trigger] items[i]) by {
        assert(is_plain(shards[i].role@));
        registry_shards_say_what_they_are(shards[i]);
        assert(parts[i] == registry_shard_text(shards[i]));
    }
    lists_are_read_item_by_item(parts, items);
}

/// What a peer says.
pub open spec fn peer_says(x: (u64, String)) -> Json {
    Json::Fields(
        seq![
            ("server_id"@, Json::Number(x.0 as int)),
            ("address"@, Json::Text(x.1@)),
        ],
    )
}

/// A peer says its server and its address.
pub proof fn peers_say_their_address(x: (u64, String))
    ensures
        reads(
            peer_text(x),
            Json::Fields(
                seq![
                    ("server_id"@, Json::Number(x.0 as int)),
                    ("address"@, Json::Text(x.1@)),
                ],
            ),
        ),
{
    let t0 = seq!['{'];
    let f0 = Seq::<(Seq<char>, Json)>::empty();
    lemma_begin(t0);
    let k1 = key_of(true, "server_id"@);
    let v1 = dec(x.0 as nat);
    let j1 = Json::Number(x.0 as int);
    assert(reads(v1, j1)) by {
        decimals_say_the_number(x.0 as nat);
    }
    plain_server_id();
    lemma_field(t0, f0, k1, "server_id"@, v1, j1);
    let t1 = t0 + k1 + v1;
    let f1 = f0.push(("server_id"@, j1));
    piece_server_id();
    lemma_first("{\"server_id\":"@, t0, Seq::<char>::empty(), k1, Seq::<char>::empty(), dec(x.0 as nat), Seq::<char>::empty(), v1);
    let o1 = "{\"server_id\":"@ + dec(x.0 as nat);
    let k2 = key_of(false, "address"@);
    let v2 = seq!['"'] + json_escaped(x.1@) + seq!['"'];
    let j2 = Json::Text(x.1@);
    assert(reads(v2, j2)) by {
        quoted_texts_say_the_text(x.1@);
    }
    plain_address();
    lemma_field(t1, f1, k2, "address"@, v2, j2);
    let t2 = t1 + k2 + v2;
    let f2 = f1.push(("address"@, j2));
    piece_then_address();
    lemma_grow(o1, t1, t1, ",\"address\":\""@, Seq::<char>::empty(), Seq::<char>::empty(), k2, seq!['"'], json_escaped(x.1@), seq!['"'], v2);
    let o2 = o1 + ",\"address\":\""@ + json_escaped(x.1@);
    piece_then_end();
    lemma_end(o2, t2, t2, "\"}"@, seq!['"'], Seq::<char>::empty());
    lemma_close(t2, f2);
    let fs = seq![
        ("server_id"@, Json::Number(x.0 as int)),
        ("address"@, Json::Text(x.1@)),
    ];
    assert(f2 =~= fs);
}

/// Peers, one by one.
pub proof fn lemma_peers(peers: Seq<(u64, String)>)
    ensures
        reads(
            seq!['['] + join(peer_texts(peers), ","@) + seq![']'],
            Json::List(peers.map_values(|x: (u64, String)| peer_says(x))),
        ),
{
    let items = peers.map_values(|x: (u64, String)| peer_says(x));
    let parts = peer_texts(peers);
    assert forall|i: int| 0 <= i < items.len() implies reads(parts[i], #[trigger] items[i]) by {
        peers_say_their_address(peers[i]);
        assert(parts[i] == peer_text(peers[i]));
    }
    lists_are_read_item_by_item(parts, items);
}

/// The registry of a cluster says its database and server, the versions that it knows, its routing,
/// every shard and every peer.
#[verifier::rlimit(60)]
pub proof fn registries_say_the_cluster(f: RegistryFacts, database: Seq<char>)
    requires
        forall|i: int| 0 <= i < f.raft@.len() ==> is_plain((#[trigger] f.raft@[i]).role@),
    ensures
        reads(
            registry_body(f, database),
            Json::Fields(
                seq![
                    ("database"@, Json::Text(database)),
                    ("local_server_id"@, Json::Number(or_zero(f.local_server_id) as int)),
                    ("routing_version"@, Json::Number(version_or_zero(f.routing) as int)),
                    ("ownership_epoch"@, Json::Number(version_or_zero(f.routing) as int)),
                    ("membership_index"@, Json::Number(or_zero(f.membership_version) as int)),
                    ("metadata_index"@, Json::Number(last_or_zero(f.metadata_indexes@) as int)),
                    ("generated_at_ms"@, Json::Number(f.generated_at_ms as int)),
                    ("ttl_ms"@, Json::Number(5000)),
                    ("migration_state"@, Json::Text(state_or_idle(f.rebalance_state))),
                    ("write_authority"@, Json::Text("shard_primary_and_raft_leader"@)),
                    ("routing"@, routing_says(f.routing)),
                    ("raft_shards"@, Json::List(f.raft@.map_values(|x: RaftShard| registry_shard_says(x)))),
                    ("query_peers"@, Json::List(f.peers@.map_values(|x: (u64, String)| peer_says(x)))),
                ],
            ),
        ),
{
    let t0 = seq!['{'];
    let f0 = Seq::<(Seq<char>, Json)>::empty();
    lemma_begin(t0);
    let k1 = key_of(true, "database"@);
    let v1 = seq!['"'] + json_escaped(database) + seq!['"'];
    let j1 = Json::Text(database);
    assert(reads(v1, j1)) by {
        quoted_texts_say_the_text(database);
    }
    plain_database();
    lemma_field(t0, f0, k1, "database"@, v1, j1);
    let t1 = t0 + k1 + v1;
    let f1 = f0.push(("database"@, j1));
    piece_database();
    lemma_first("{\"database\":\""@, t0, Seq::<char>::empty(), k1, seq!['"'], json_escaped(database), seq!['"'], v1);
    let o1 = "{\"database\":\""@ + json_escaped(database);
    let k2 = key_of(false, "local_server_id"@);
    let v2 = dec(or_zero(f.local_server_id) as nat);
    let j2 = Json::Number(or_zero(f.local_server_id) as int);
    assert(reads(v2, j2)) by {
        decimals_say_the_number(or_zero(f.local_server_id) as nat);
    }
    plain_local_server_id();
    lemma_field(t1, f1, k2, "local_server_id"@, v2, j2);
    let t2 = t1 + k2 + v2;
    let f2 = f1.push(("local_server_id"@, j2));
    piece_then_local_server_id();
    lemma_grow(o1, t1, t1, "\",\"local_server_id\":"@, seq!['"'], Seq::<char>::empty(), k2, Seq::<char>::empty(), dec(or_zero(f.local_server_id) as nat), Seq::<char>::empty(), v2);
    let o2 = o1 + "\",\"local_server_id\":"@ + dec(or_zero(f.local_server_id) as nat);
    let k3 = key_of(false, "routing_version"@);
    let v3 = dec(version_or_zero(f.routing) as nat);
    let j3 = Json::Number(version_or_zero(f.routing) as int);
    assert(reads(v3, j3)) by {
        decimals_say_the_number(version_or_zero(f.routing) as nat);
    }
    plain_routing_version();
    lemma_field(t2, f2, k3, "routing_version"@, v3, j3);
    let t3 = t2 + k3 + v3;
    let f3 = f2.push(("routing_version"@, j3));
    piece_then_routing_version();
    lemma_grow(o2, t2, t2, ",\"routing_version\":"@, Seq::<char>::empty(), Seq::<char>::empty(), k3, Seq::<char>::empty(), dec(version_or_zero(f.routing) as nat), Seq::<char>::empty(), v3);
    let o3 = o2 + ",\"routing_version\":"@ + dec(version_or_zero(f.routing) as nat);
    let k4 = key_of(false, "ownership_epoch"@);
    let v4 = dec(version_or_zero(f.routing) as nat);
    let j4 = Json::Number(version_or_zero(f.routing) as int);
    assert(reads(v4, j4)) by {
        decimals_say_the_number(version_or_zero(f.routing) as nat);
    }
    plain_ownership_epoch();
    lemma_field(t3, f3, k4, "ownership_epoch"@, v4, j4);
    let t4 = t3 + k4 + v4;
    let f4 = f3.push(("ownership_epoch"@, j4));
    piece_then_ownership_epoch();
    lemma_grow(o3, t3, t3, ",\"ownership_epoch\":"@, Seq::<char>::empty(), Seq::<char>::empty(), k4, Seq::<char>::empty(), dec(version_or_zero(f.routing) as nat), Seq::<char>::empty(), v4);
    let o4 = o3 + ",\"ownership_epoch\":"@ + dec(version_or_zero(f.routing) as nat);
    let k5 = key_of(false, "membership_index"@);
    let v5 = dec(or_zero(f.membership_version) as nat);
    let j5 = Json::Number(or_zero(f.membership_version) as int);
    assert(reads(v5, j5)) by {
        decimals_say_the_number(or_zero(f.membership_version) as nat);
    }
    plain_membership_index();
    lemma_field(t4, f4, k5, "membership_index"@, v5, j5);
    let t5 = t4 + k5 + v5;
    let f5 = f4.push(("membership_index"@, j5));
    piece_then_membership_index();
    lemma_grow(o4, t4, t4, ",\"membership_index\":"@, Seq::<char>::empty(), Seq::<char>::empty(), k5, Seq::<char>::empty(), dec(or_zero(f.membership_version) as nat), Seq::<char>::empty(), v5);
    let o5 = o4 + ",\"membership_index\":"@ + dec(or_zero(f.membership_version) as nat);
    let k6 = key_of(false, "metadata_index"@);
    let v6 = dec(last_or_zero(f.metadata_indexes@) as nat);
    let j6 = Json::Number(last_or_zero(f.metadata_indexes@) as int);
    assert(reads(v6, j6)) by {
        decimals_say_the_number(last_or_zero(f.metadata_indexes@) as nat);
    }
    plain_metadata_index();
    lemma_field(t5, f5, k6, "metadata_index"@, v6, j6);
    let t6 = t5 + k6 + v6;
    let f6 = f5.push(("metadata_index"@, j6));
    piece_then_metadata_index();
    lemma_grow(o5, t5, t5, ",\"metadata_index\":"@, Seq::<char>::empty(), Seq::<char>::empty(), k6, Seq::<char>::empty(), dec(last_or_zero(f.metadata_indexes@) as nat), Seq::<char>::empty(), v6);
    let o6 = o5 + ",\"metadata_index\":"@ + dec(last_or_zero(f.metadata_indexes@) as nat);
    let k7 = key_of(false, "generated_at_ms"@);
    let v7 = dec(f.generated_at_ms as nat);
    let j7 = Json::Number(f.generated_at_ms as int);
    assert(reads(v7, j7)) by {
        decimals_say_the_number(f.generated_at_ms as nat);
    }
    plain_generated_at_ms();
    lemma_field(t6, f6, k7, "generated_at_ms"@, v7, j7);
    let t7 = t6 + k7 + v7;
    let f7 = f6.push(("generated_at_ms"@, j7));
    piece_then_generated_at_ms();
    lemma_grow(o6, t6, t6, ",\"generated_at_ms\":"@, Seq::<char>::empty(), Seq::<char>::empty(), k7, Seq::<char>::empty(), dec(f.generated_at_ms as nat), Seq::<char>::empty(), v7);
    let o7 = o6 + ",\"generated_at_ms\":"@ + dec(f.generated_at_ms as nat);
    let k8 = key_of(false, "ttl_ms"@);
    let v8 = seq!['5', '0', '0', '0'];
    let j8 = Json::Number(5000);
    assert(reads(v8, j8)) by {
        number_5000();
    }
    plain_ttl_ms();
    lemma_field(t7, f7, k8, "ttl_ms"@, v8, j8);
    let t8 = t7 + k8 + v8;
    let f8 = f7.push(("ttl_ms"@, j8));
    let k9 = key_of(false, "migration_state"@);
    let v9 = seq!['"'] + json_escaped(state_or_idle(f.rebalance_state)) + seq!['"'];
    let j9 = Json::Text(state_or_idle(f.rebalance_state));
    assert(reads(v9, j9)) by {
        quoted_texts_say_the_text(state_or_idle(f.rebalance_state));
    }
    plain_migration_state();
    lemma_field(t8, f8, k9, "migration_state"@, v9, j9);
    let t9 = t8 + k9 + v9;
    let f9 = f8.push(("migration_state"@, j9));
    piece_then_ttl_ms_5000_migration_state();
    assert(t7 + (Seq::<char>::empty() + key_of(false, "ttl_ms"@) + (seq!['5', '0', '0', '0'])) =~= t8);
    lemma_grow(o7, t7, t8, ",\"ttl_ms\":5000,\"migration_state\":\""@, Seq::<char>::empty(), (Seq::<char>::empty() + key_of(false, "ttl_ms"@) + (seq!['5', '0', '0', '0'])), k9, seq!['"'], json_escaped(state_or_idle(f.rebalance_state)), seq!['"'], v9);
    let o9 = o7 + ",\"ttl_ms\":5000,\"migration_state\":\""@ + json_escaped(state_or_idle(f.rebalance_state));
    let k10 = key_of(false, "write_authority"@);
    let v10 = seq!['"'] + "shard_primary_and_raft_leader"@ + seq!['"'];
    let j10 = Json::Text("shard_primary_and_raft_leader"@);
    assert(reads(v10, j10)) by {
        plain_shard_primary_and_raft_leader();
        lemma_plain("shard_primary_and_raft_leader"@);
        quoted_texts_say_the_text("shard_primary_and_raft_leader"@);
    }
    plain_write_authority();
    lemma_field(t9, f9, k10, "write_authority"@, v10, j10);
    let t10 = t9 + k10 + v10;
    let f10 = f9.push(("write_authority"@, j10));
    let k11 = key_of(false, "routing"@);
    let v11 = routing_body(f.routing);
    let j11 = routing_says(f.routing);
    assert(reads(v11, j11)) by {
        routing_is_told_as_it_is(f.routing);
    }
    plain_routing();
    lemma_field(t10, f10, k11, "routing"@, v11, j11);
    let t11 = t10 + k11 + v11;
    let f11 = f10.push(("routing"@, j11));
    piece_then_write_authority_shard_primary_and_raft_leader_rou();
    assert(t9 + (Seq::<char>::empty() + key_of(false, "write_authority"@) + (seq!['"'] + "shard_primary_and_raft_leader"@ + seq!['"'])) =~= t10);
    lemma_grow(o9, t9, t10, "\",\"write_authority\":\"shard_primary_and_raft_leader\",\"routing\":"@, seq!['"'], (Seq::<char>::empty() + key_of(false, "write_authority"@) + (seq!['"'] + "shard_primary_and_raft_leader"@ + seq!['"'])), k11, Seq::<char>::empty(), routing_body(f.routing), Seq::<char>::empty(), v11);
    let o11 = o9 + "\",\"write_authority\":\"shard_primary_and_raft_leader\",\"routing\":"@ + routing_body(f.routing);
    let k12 = key_of(false, "raft_shards"@);
    let v12 = seq!['['] + join(registry_shard_texts(f.raft@), ","@) + seq![']'];
    let j12 = Json::List(f.raft@.map_values(|x: RaftShard| registry_shard_says(x)));
    assert(reads(v12, j12)) by {
        lemma_registry_shards(f.raft@);
    }
    plain_raft_shards();
    lemma_field(t11, f11, k12, "raft_shards"@, v12, j12);
    let t12 = t11 + k12 + v12;
    let f12 = f11.push(("raft_shards"@, j12));
    piece_then_raft_shards();
    lemma_grow(o11, t11, t11, ",\"raft_shards\":["@, Seq::<char>::empty(), Seq::<char>::empty(), k12, seq!['['], join(registry_shard_texts(f.raft@), ","@), seq![']'], v12);
    let o12 = o11 + ",\"raft_shards\":["@ + join(registry_shard_texts(f.raft@), ","@);
    let k13 = key_of(false, "query_peers"@);
    let v13 = seq!['['] + join(peer_texts(f.peers@), ","@) + seq![']'];
    let j13 = Json::List(f.peers@.map_values(|x: (u64, String)| peer_says(x)));
    assert(reads(v13, j13)) by {
        lemma_peers(f.peers@);
    }
    plain_query_peers();
    lemma_field(t12, f12, k13, "query_peers"@, v13, j13);
    let t13 = t12 + k13 + v13;
    let f13 = f12.push(("query_peers"@, j13));
    piece_then_query_peers();
    lemma_grow(o12, t12, t12, "],\"query_peers\":["@, seq![']'], Seq::<char>::empty(), k13, seq!['['], join(peer_texts(f.peers@), ","@), seq![']'], v13);
    let o13 = o12 + "],\"query_peers\":["@ + join(peer_texts(f.peers@), ","@);
    piece_then_end_3();
    lemma_end(o13, t13, t13, "]}"@, seq![']'], Seq::<char>::empty());
    lemma_close(t13, f13);
    let fs = seq![
        ("database"@, Json::Text(database)),
        ("local_server_id"@, Json::Number(or_zero(f.local_server_id) as int)),
        ("routing_version"@, Json::Number(version_or_zero(f.routing) as int)),
        ("ownership_epoch"@, Json::Number(version_or_zero(f.routing) as int)),
        ("membership_index"@, Json::Number(or_zero(f.membership_version) as int)),
        ("metadata_index"@, Json::Number(last_or_zero(f.metadata_indexes@) as int)),
        ("generated_at_ms"@, Json::Number(f.generated_at_ms as int)),
        ("ttl_ms"@, Json::Number(5000)),
        ("migration_state"@, Json::Text(state_or_idle(f.rebalance_state))),
        ("write_authority"@, Json::Text("shard_primary_and_raft_leader"@)),
        ("routing"@, routing_says(f.routing)),
        ("raft_shards"@, Json::List(f.raft@.map_values(|x: RaftShard| registry_shard_says(x)))),
        ("query_peers"@, Json::List(f.peers@.map_values(|x: (u64, String)| peer_says(x)))),
    ];
    assert(f13 =~= fs);
}

/// What a slow query says.
pub open spec fn slow_query_says(x: SlowQuery) -> Json {
    Json::Fields(
        seq![
            ("unix_ms"@, Json::Number(x.unix_ms as int)),
            ("elapsed_ms"@, Json::Number(x.elapsed_ms as int)),
            ("query"@, Json::Text(x.query)),
        ],
    )
}

/// A slow query says when it ran, for how long, and what it asked.
pub proof fn slow_queries_say_what_they_are(x: SlowQuery)
    ensures
        reads(
            slow_query_text(x),
            Json::Fields(
                seq![
                    ("unix_ms"@, Json::Number(x.unix_ms as int)),
                    ("elapsed_ms"@, Json::Number(x.elapsed_ms as int)),
                    ("query"@, Json::Text(x.query)),
                ],
            ),
        ),
{
    let t0 = seq!['{'];
    let f0 = Seq::<(Seq<char>, Json)>::empty();
    lemma_begin(t0);
    let k1 = key_of(true, "unix_ms"@);
    let v1 = dec(x.unix_ms);
    let j1 = Json::Number(x.unix_ms as int);
    assert(reads(v1, j1)) by {
        decimals_say_the_number(x.unix_ms);
    }
    plain_unix_ms();
    lemma_field(t0, f0, k1, "unix_ms"@, v1, j1);
    let t1 = t0 + k1 + v1;
    let f1 = f0.push(("unix_ms"@, j1));
    piece_unix_ms();
    lemma_first("{\"unix_ms\":"@, t0, Seq::<char>::empty(), k1, Seq::<char>::empty(), dec(x.unix_ms), Seq::<char>::empty(), v1);
    let o1 = "{\"unix_ms\":"@ + dec(x.unix_ms);
    let k2 = key_of(false, "elapsed_ms"@);
    let v2 = dec(x.elapsed_ms);
    let j2 = Json::Number(x.elapsed_ms as int);
    assert(reads(v2, j2)) by {
        decimals_say_the_number(x.elapsed_ms);
    }
    plain_elapsed_ms();
    lemma_field(t1, f1, k2, "elapsed_ms"@, v2, j2);
    let t2 = t1 + k2 + v2;
    let f2 = f1.push(("elapsed_ms"@, j2));
    piece_then_elapsed_ms();
    lemma_grow(o1, t1, t1, ",\"elapsed_ms\":"@, Seq::<char>::empty(), Seq::<char>::empty(), k2, Seq::<char>::empty(), dec(x.elapsed_ms), Seq::<char>::empty(), v2);
    let o2 = o1 + ",\"elapsed_ms\":"@ + dec(x.elapsed_ms);
    let k3 = key_of(false, "query"@);
    let v3 = seq!['"'] + json_escaped(x.query) + seq!['"'];
    let j3 = Json::Text(x.query);
    assert(reads(v3, j3)) by {
        quoted_texts_say_the_text(x.query);
    }
    plain_query();
    lemma_field(t2, f2, k3, "query"@, v3, j3);
    let t3 = t2 + k3 + v3;
    let f3 = f2.push(("query"@, j3));
    piece_then_query();
    lemma_grow(o2, t2, t2, ",\"query\":\""@, Seq::<char>::empty(), Seq::<char>::empty(), k3, seq!['"'], json_escaped(x.query), seq!['"'], v3);
    let o3 = o2 + ",\"query\":\""@ + json_escaped(x.query);
    piece_then_end();
    lemma_end(o3, t3, t3, "\"}"@, seq!['"'], Seq::<char>::empty());
    lemma_close(t3, f3);
    let fs = seq![
        ("unix_ms"@, Json::Number(x.unix_ms as int)),
        ("elapsed_ms"@, Json::Number(x.elapsed_ms as int)),
        ("query"@, Json::Text(x.query)),
    ];
    assert(f3 =~= fs);
}

/// Slow queries say what they are, in order.
pub proof fn slow_queries_are_told_in_order(list: Seq<SlowQuery>)
    ensures
        reads(
            seq!['['] + join(slow_query_texts(list), ","@) + seq![']'],
            Json::List(list.map_values(|x: SlowQuery| slow_query_says(x))),
        ),
{
    let items = list.map_values(|x: SlowQuery| slow_query_says(x));
    let parts = slow_query_texts(list);
    assert forall|i: int| 0 <= i < items.len() implies reads(parts[i], #[trigger] items[i]) by {
        slow_queries_say_what_they_are(list[i]);
        assert(parts[i] == slow_query_text(list[i]));
    }
    lists_are_read_item_by_item(parts, items);
}

/// A maintenance of the storage says what it did, and to how much.
pub proof fn maintenance_says_what_it_did(m: StorageMaintenance)
    ensures
        reads(
            maintenance_text(m),
            Json::Fields(
                seq![
                    ("action"@, Json::Text(m.action@)),
                    ("files_touched"@, Json::Number(m.files_touched as int)),
                    ("bytes_observed"@, Json::Number(m.bytes_observed as int)),
                    ("pruned_until"@, Json::List(m.pruned_until@.map_values(|v: u64| Json::Number(v as int)))),
                    ("safety_manifest"@, Json::Text(m.safety_manifest@)),
                ],
            ),
        ),
{
    let t0 = seq!['{'];
    let f0 = Seq::<(Seq<char>, Json)>::empty();
    lemma_begin(t0);
    let k1 = key_of(true, "action"@);
    let v1 = seq!['"'] + json_escaped(m.action@) + seq!['"'];
    let j1 = Json::Text(m.action@);
    assert(reads(v1, j1)) by {
        quoted_texts_say_the_text(m.action@);
    }
    plain_action();
    lemma_field(t0, f0, k1, "action"@, v1, j1);
    let t1 = t0 + k1 + v1;
    let f1 = f0.push(("action"@, j1));
    piece_action();
    lemma_first("{\"action\":\""@, t0, Seq::<char>::empty(), k1, seq!['"'], json_escaped(m.action@), seq!['"'], v1);
    let o1 = "{\"action\":\""@ + json_escaped(m.action@);
    let k2 = key_of(false, "files_touched"@);
    let v2 = dec(m.files_touched as nat);
    let j2 = Json::Number(m.files_touched as int);
    assert(reads(v2, j2)) by {
        decimals_say_the_number(m.files_touched as nat);
    }
    plain_files_touched();
    lemma_field(t1, f1, k2, "files_touched"@, v2, j2);
    let t2 = t1 + k2 + v2;
    let f2 = f1.push(("files_touched"@, j2));
    piece_then_files_touched();
    lemma_grow(o1, t1, t1, "\",\"files_touched\":"@, seq!['"'], Seq::<char>::empty(), k2, Seq::<char>::empty(), dec(m.files_touched as nat), Seq::<char>::empty(), v2);
    let o2 = o1 + "\",\"files_touched\":"@ + dec(m.files_touched as nat);
    let k3 = key_of(false, "bytes_observed"@);
    let v3 = dec(m.bytes_observed as nat);
    let j3 = Json::Number(m.bytes_observed as int);
    assert(reads(v3, j3)) by {
        decimals_say_the_number(m.bytes_observed as nat);
    }
    plain_bytes_observed();
    lemma_field(t2, f2, k3, "bytes_observed"@, v3, j3);
    let t3 = t2 + k3 + v3;
    let f3 = f2.push(("bytes_observed"@, j3));
    piece_then_bytes_observed();
    lemma_grow(o2, t2, t2, ",\"bytes_observed\":"@, Seq::<char>::empty(), Seq::<char>::empty(), k3, Seq::<char>::empty(), dec(m.bytes_observed as nat), Seq::<char>::empty(), v3);
    let o3 = o2 + ",\"bytes_observed\":"@ + dec(m.bytes_observed as nat);
    let k4 = key_of(false, "pruned_until"@);
    let v4 = seq!['['] + number_list(m.pruned_until@) + seq![']'];
    let j4 = Json::List(m.pruned_until@.map_values(|v: u64| Json::Number(v as int)));
    assert(reads(v4, j4)) by {
        number_lists_say_the_numbers(m.pruned_until@);
        reveal_strlit("[");
        reveal_strlit("]");
        assert("["@ =~= seq!['['] && "]"@ =~= seq![']']);
    }
    plain_pruned_until();
    lemma_field(t3, f3, k4, "pruned_until"@, v4, j4);
    let t4 = t3 + k4 + v4;
    let f4 = f3.push(("pruned_until"@, j4));
    piece_then_pruned_until();
    lemma_grow(o3, t3, t3, ",\"pruned_until\":["@, Seq::<char>::empty(), Seq::<char>::empty(), k4, seq!['['], number_list(m.pruned_until@), seq![']'], v4);
    let o4 = o3 + ",\"pruned_until\":["@ + number_list(m.pruned_until@);
    let k5 = key_of(false, "safety_manifest"@);
    let v5 = seq!['"'] + json_escaped(m.safety_manifest@) + seq!['"'];
    let j5 = Json::Text(m.safety_manifest@);
    assert(reads(v5, j5)) by {
        quoted_texts_say_the_text(m.safety_manifest@);
    }
    plain_safety_manifest();
    lemma_field(t4, f4, k5, "safety_manifest"@, v5, j5);
    let t5 = t4 + k5 + v5;
    let f5 = f4.push(("safety_manifest"@, j5));
    piece_then_safety_manifest();
    lemma_grow(o4, t4, t4, "],\"safety_manifest\":\""@, seq![']'], Seq::<char>::empty(), k5, seq!['"'], json_escaped(m.safety_manifest@), seq!['"'], v5);
    let o5 = o4 + "],\"safety_manifest\":\""@ + json_escaped(m.safety_manifest@);
    piece_then_end();
    lemma_end(o5, t5, t5, "\"}"@, seq!['"'], Seq::<char>::empty());
    lemma_close(t5, f5);
    let fs = seq![
        ("action"@, Json::Text(m.action@)),
        ("files_touched"@, Json::Number(m.files_touched as int)),
        ("bytes_observed"@, Json::Number(m.bytes_observed as int)),
        ("pruned_until"@, Json::List(m.pruned_until@.map_values(|v: u64| Json::Number(v as int)))),
        ("safety_manifest"@, Json::Text(m.safety_manifest@)),
    ];
    assert(f5 =~= fs);
}

/// An example says its name and its query.
pub proof fn examples_say_their_query(name: Seq<char>, query: Seq<char>)
    ensures
        reads(
            example_text(name, query),
            Json::Fields(
                seq![
                    ("name"@, Json::Text(name)),
                    ("query"@, Json::Text(query)),
                ],
            ),
        ),
{
    let t0 = seq!['{'];
    let f0 = Seq::<(Seq<char>, Json)>::empty();
    lemma_begin(t0);
    let k1 = key_of(true, "name"@);
    let v1 = seq!['"'] + json_escaped(name) + seq!['"'];
    let j1 = Json::Text(name);
    assert(reads(v1, j1)) by {
        quoted_texts_say_the_text(name);
    }
    plain_name();
    lemma_field(t0, f0, k1, "name"@, v1, j1);
    let t1 = t0 + k1 + v1;
    let f1 = f0.push(("name"@, j1));
    piece_name();
    lemma_first("{\"name\":\""@, t0, Seq::<char>::empty(), k1, seq!['"'], json_escaped(name), seq!['"'], v1);
    let o1 = "{\"name\":\""@ + json_escaped(name);
    let k2 = key_of(false, "query"@);
    let v2 = seq!['"'] + json_escaped(query) + seq!['"'];
    let j2 = Json::Text(query);
    assert(reads(v2, j2)) by {
        quoted_texts_say_the_text(query);
    }
    plain_query();
    lemma_field(t1, f1, k2, "query"@, v2, j2);
    let t2 = t1 + k2 + v2;
    let f2 = f1.push(("query"@, j2));
    piece_then_query_2();
    lemma_grow(o1, t1, t1, "\",\"query\":\""@, seq!['"'], Seq::<char>::empty(), k2, seq!['"'], json_escaped(query), seq!['"'], v2);
    let o2 = o1 + "\",\"query\":\""@ + json_escaped(query);
    piece_then_end();
    lemma_end(o2, t2, t2, "\"}"@, seq!['"'], Seq::<char>::empty());
    lemma_close(t2, f2);
    let fs = seq![
        ("name"@, Json::Text(name)),
        ("query"@, Json::Text(query)),
    ];
    assert(f2 =~= fs);
}

/// What a database says.
pub open spec fn database_says(x: TenantDatabaseRecord) -> Json {
    Json::Fields(
        seq![
            ("name"@, Json::Text(x.name@)),
            ("disabled"@, Json::Bool(x.disabled)),
        ],
    )
}

/// A database says its name and whether it is disabled.
pub proof fn databases_say_what_they_are(x: TenantDatabaseRecord)
    ensures
        reads(
            database_text(x),
            Json::Fields(
                seq![
                    ("name"@, Json::Text(x.name@)),
                    ("disabled"@, Json::Bool(x.disabled)),
                ],
            ),
        ),
{
    let t0 = seq!['{'];
    let f0 = Seq::<(Seq<char>, Json)>::empty();
    lemma_begin(t0);
    let k1 = key_of(true, "name"@);
    let v1 = seq!['"'] + json_escaped(x.name@) + seq!['"'];
    let j1 = Json::Text(x.name@);
    assert(reads(v1, j1)) by {
        quoted_texts_say_the_text(x.name@);
    }
    plain_name();
    lemma_field(t0, f0, k1, "name"@, v1, j1);
    let t1 = t0 + k1 + v1;
    let f1 = f0.push(("name"@, j1));
    piece_name();
    lemma_first("{\"name\":\""@, t0, Seq::<char>::empty(), k1, seq!['"'], json_escaped(x.name@), seq!['"'], v1);
    let o1 = "{\"name\":\""@ + json_escaped(x.name@);
    let k2 = key_of(false, "disabled"@);
    let v2 = bool_text(x.disabled);
    let j2 = Json::Bool(x.disabled);
    assert(reads(v2, j2)) by {
        truth_values_say_what_they_are(x.disabled);
    }
    plain_disabled();
    lemma_field(t1, f1, k2, "disabled"@, v2, j2);
    let t2 = t1 + k2 + v2;
    let f2 = f1.push(("disabled"@, j2));
    piece_then_disabled();
    lemma_grow(o1, t1, t1, "\",\"disabled\":"@, seq!['"'], Seq::<char>::empty(), k2, Seq::<char>::empty(), bool_text(x.disabled), Seq::<char>::empty(), v2);
    let o2 = o1 + "\",\"disabled\":"@ + bool_text(x.disabled);
    piece_then_end_2();
    lemma_end(o2, t2, t2, "}"@, Seq::<char>::empty(), Seq::<char>::empty());
    lemma_close(t2, f2);
    let fs = seq![
        ("name"@, Json::Text(x.name@)),
        ("disabled"@, Json::Bool(x.disabled)),
    ];
    assert(f2 =~= fs);
}

/// Databases, one by one.
pub proof fn lemma_databases(list: Seq<TenantDatabaseRecord>)
    ensures
        reads(
            seq!['['] + join(database_texts(list), ","@) + seq![']'],
            Json::List(list.map_values(|x: TenantDatabaseRecord| database_says(x))),
        ),
{
    let items = list.map_values(|x: TenantDatabaseRecord| database_says(x));
    let parts = database_texts(list);
    assert forall|i: int| 0 <= i < items.len() implies reads(parts[i], #[trigger] items[i]) by {
        databases_say_what_they_are(list[i]);
        assert(parts[i] == database_text(list[i]));
    }
    lists_are_read_item_by_item(parts, items);
}

/// All databases are told, in order.
pub proof fn all_databases_are_told(list: Seq<TenantDatabaseRecord>)
    ensures
        reads(
            databases_body(list),
            Json::Fields(
                seq![
                    ("databases"@, Json::List(list.map_values(|x: TenantDatabaseRecord| database_says(x)))),
                ],
            ),
        ),
{
    let t0 = seq!['{'];
    let f0 = Seq::<(Seq<char>, Json)>::empty();
    lemma_begin(t0);
    let k1 = key_of(true, "databases"@);
    let v1 = seq!['['] + join(database_texts(list), ","@) + seq![']'];
    let j1 = Json::List(list.map_values(|x: TenantDatabaseRecord| database_says(x)));
    assert(reads(v1, j1)) by {
        lemma_databases(list);
    }
    plain_databases();
    lemma_field(t0, f0, k1, "databases"@, v1, j1);
    let t1 = t0 + k1 + v1;
    let f1 = f0.push(("databases"@, j1));
    piece_databases();
    lemma_first("{\"databases\":["@, t0, Seq::<char>::empty(), k1, seq!['['], join(database_texts(list), ","@), seq![']'], v1);
    let o1 = "{\"databases\":["@ + join(database_texts(list), ","@);
    piece_then_end_3();
    lemma_end(o1, t1, t1, "]}"@, seq![']'], Seq::<char>::empty());
    lemma_close(t1, f1);
    let fs = seq![
        ("databases"@, Json::List(list.map_values(|x: TenantDatabaseRecord| database_says(x)))),
    ];
    assert(f1 =~= fs);
}

proof fn lemma_web_role(role: WebRole)
    ensures
        is_plain(role.text()),
{
    reveal(is_plain);
    match role {
        WebRole::Admin => {
            reveal_strlit("admin");
        },
        WebRole::Writer => {
            reveal_strlit("writer");
        },
        WebRole::Reader => {
            reveal_strlit("reader");
        },
    }
}

/// What a user says.
pub open spec fn user_says(x: WebUserInfo) -> Json {
    Json::Fields(
        seq![
            ("name"@, Json::Text(x.name@)),
            ("token_id"@, Json::Text(x.token_id@)),
            ("role"@, Json::Text(x.role.text())),
            ("database_roles"@, Json::Text(x.database_roles@)),
            ("denied_databases"@, Json::Text(x.denied_databases@)),
            ("expired_at"@, Json::Number(x.expired_at as int)),
            ("revoked"@, Json::Bool(x.revoked)),
            ("active"@, Json::Bool(x.active)),
            ("created_at"@, Json::Number(x.created_at as int)),
            ("last_used_at"@, Json::Number(x.last_used_at as int)),
        ],
    )
}

/// A user says the name, the name of the token, the roles, the databases that are closed to the
/// token, and when the token was made, was used and ends.
#[verifier::rlimit(40)]
pub proof fn users_say_their_rights(x: WebUserInfo)
    ensures
        reads(
            user_text(x),
            Json::Fields(
                seq![
                    ("name"@, Json::Text(x.name@)),
                    ("token_id"@, Json::Text(x.token_id@)),
                    ("role"@, Json::Text(x.role.text())),
                    ("database_roles"@, Json::Text(x.database_roles@)),
                    ("denied_databases"@, Json::Text(x.denied_databases@)),
                    ("expired_at"@, Json::Number(x.expired_at as int)),
                    ("revoked"@, Json::Bool(x.revoked)),
                    ("active"@, Json::Bool(x.active)),
                    ("created_at"@, Json::Number(x.created_at as int)),
                    ("last_used_at"@, Json::Number(x.last_used_at as int)),
                ],
            ),
        ),
{
    let t0 = seq!['{'];
    let f0 = Seq::<(Seq<char>, Json)>::empty();
    lemma_begin(t0);
    let k1 = key_of(true, "name"@);
    let v1 = seq!['"'] + json_escaped(x.name@) + seq!['"'];
    let j1 = Json::Text(x.name@);
    assert(reads(v1, j1)) by {
        quoted_texts_say_the_text(x.name@);
    }
    plain_name();
    lemma_field(t0, f0, k1, "name"@, v1, j1);
    let t1 = t0 + k1 + v1;
    let f1 = f0.push(("name"@, j1));
    piece_name();
    lemma_first("{\"name\":\""@, t0, Seq::<char>::empty(), k1, seq!['"'], json_escaped(x.name@), seq!['"'], v1);
    let o1 = "{\"name\":\""@ + json_escaped(x.name@);
    let k2 = key_of(false, "token_id"@);
    let v2 = seq!['"'] + json_escaped(x.token_id@) + seq!['"'];
    let j2 = Json::Text(x.token_id@);
    assert(reads(v2, j2)) by {
        quoted_texts_say_the_text(x.token_id@);
    }
    plain_token_id();
    lemma_field(t1, f1, k2, "token_id"@, v2, j2);
    let t2 = t1 + k2 + v2;
    let f2 = f1.push(("token_id"@, j2));
    piece_then_token_id();
    lemma_grow(o1, t1, t1, "\",\"token_id\":\""@, seq!['"'], Seq::<char>::empty(), k2, seq!['"'], json_escaped(x.token_id@), seq!['"'], v2);
    let o2 = o1 + "\",\"token_id\":\""@ + json_escaped(x.token_id@);
    let k3 = key_of(false, "role"@);
    let v3 = seq!['"'] + x.role.text() + seq!['"'];
    let j3 = Json::Text(x.role.text());
    assert(reads(v3, j3)) by {
        lemma_web_role(x.role);
        lemma_plain(x.role.text());
        quoted_texts_say_the_text(x.role.text());
    }
    plain_role();
    lemma_field(t2, f2, k3, "role"@, v3, j3);
    let t3 = t2 + k3 + v3;
    let f3 = f2.push(("role"@, j3));
    piece_then_role_2();
    lemma_grow(o2, t2, t2, "\",\"role\":\""@, seq!['"'], Seq::<char>::empty(), k3, seq!['"'], x.role.text(), seq!['"'], v3);
    let o3 = o2 + "\",\"role\":\""@ + x.role.text();
    let k4 = key_of(false, "database_roles"@);
    let v4 = seq!['"'] + json_escaped(x.database_roles@) + seq!['"'];
    let j4 = Json::Text(x.database_roles@);
    assert(reads(v4, j4)) by {
        quoted_texts_say_the_text(x.database_roles@);
    }
    plain_database_roles();
    lemma_field(t3, f3, k4, "database_roles"@, v4, j4);
    let t4 = t3 + k4 + v4;
    let f4 = f3.push(("database_roles"@, j4));
    piece_then_database_roles();
    lemma_grow(o3, t3, t3, "\",\"database_roles\":\""@, seq!['"'], Seq::<char>::empty(), k4, seq!['"'], json_escaped(x.database_roles@), seq!['"'], v4);
    let o4 = o3 + "\",\"database_roles\":\""@ + json_escaped(x.database_roles@);
    let k5 = key_of(false, "denied_databases"@);
    let v5 = seq!['"'] + json_escaped(x.denied_databases@) + seq!['"'];
    let j5 = Json::Text(x.denied_databases@);
    assert(reads(v5, j5)) by {
        quoted_texts_say_the_text(x.denied_databases@);
    }
    plain_denied_databases();
    lemma_field(t4, f4, k5, "denied_databases"@, v5, j5);
    let t5 = t4 + k5 + v5;
    let f5 = f4.push(("denied_databases"@, j5));
    piece_then_denied_databases();
    lemma_grow(o4, t4, t4, "\",\"denied_databases\":\""@, seq!['"'], Seq::<char>::empty(), k5, seq!['"'], json_escaped(x.denied_databases@), seq!['"'], v5);
    let o5 = o4 + "\",\"denied_databases\":\""@ + json_escaped(x.denied_databases@);
    let k6 = key_of(false, "expired_at"@);
    let v6 = dec(x.expired_at as nat);
    let j6 = Json::Number(x.expired_at as int);
    assert(reads(v6, j6)) by {
        decimals_say_the_number(x.expired_at as nat);
    }
    plain_expired_at();
    lemma_field(t5, f5, k6, "expired_at"@, v6, j6);
    let t6 = t5 + k6 + v6;
    let f6 = f5.push(("expired_at"@, j6));
    piece_then_expired_at();
    lemma_grow(o5, t5, t5, "\",\"expired_at\":"@, seq!['"'], Seq::<char>::empty(), k6, Seq::<char>::empty(), dec(x.expired_at as nat), Seq::<char>::empty(), v6);
    let o6 = o5 + "\",\"expired_at\":"@ + dec(x.expired_at as nat);
    let k7 = key_of(false, "revoked"@);
    let v7 = bool_text(x.revoked);
    let j7 = Json::Bool(x.revoked);
    assert(reads(v7, j7)) by {
        truth_values_say_what_they_are(x.revoked);
    }
    plain_revoked();
    lemma_field(t6, f6, k7, "revoked"@, v7, j7);
    let t7 = t6 + k7 + v7;
    let f7 = f6.push(("revoked"@, j7));
    piece_then_revoked();
    lemma_grow(o6, t6, t6, ",\"revoked\":"@, Seq::<char>::empty(), Seq::<char>::empty(), k7, Seq::<char>::empty(), bool_text(x.revoked), Seq::<char>::empty(), v7);
    let o7 = o6 + ",\"revoked\":"@ + bool_text(x.revoked);
    let k8 = key_of(false, "active"@);
    let v8 = bool_text(x.active);
    let j8 = Json::Bool(x.active);
    assert(reads(v8, j8)) by {
        truth_values_say_what_they_are(x.active);
    }
    plain_active();
    lemma_field(t7, f7, k8, "active"@, v8, j8);
    let t8 = t7 + k8 + v8;
    let f8 = f7.push(("active"@, j8));
    piece_then_active();
    lemma_grow(o7, t7, t7, ",\"active\":"@, Seq::<char>::empty(), Seq::<char>::empty(), k8, Seq::<char>::empty(), bool_text(x.active), Seq::<char>::empty(), v8);
    let o8 = o7 + ",\"active\":"@ + bool_text(x.active);
    let k9 = key_of(false, "created_at"@);
    let v9 = dec(x.created_at as nat);
    let j9 = Json::Number(x.created_at as int);
    assert(reads(v9, j9)) by {
        decimals_say_the_number(x.created_at as nat);
    }
    plain_created_at();
    lemma_field(t8, f8, k9, "created_at"@, v9, j9);
    let t9 = t8 + k9 + v9;
    let f9 = f8.push(("created_at"@, j9));
    piece_then_created_at();
    lemma_grow(o8, t8, t8, ",\"created_at\":"@, Seq::<char>::empty(), Seq::<char>::empty(), k9, Seq::<char>::empty(), dec(x.created_at as nat), Seq::<char>::empty(), v9);
    let o9 = o8 + ",\"created_at\":"@ + dec(x.created_at as nat);
    let k10 = key_of(false, "last_used_at"@);
    let v10 = dec(x.last_used_at as nat);
    let j10 = Json::Number(x.last_used_at as int);
    assert(reads(v10, j10)) by {
        decimals_say_the_number(x.last_used_at as nat);
    }
    plain_last_used_at();
    lemma_field(t9, f9, k10, "last_used_at"@, v10, j10);
    let t10 = t9 + k10 + v10;
    let f10 = f9.push(("last_used_at"@, j10));
    piece_then_last_used_at();
    lemma_grow(o9, t9, t9, ",\"last_used_at\":"@, Seq::<char>::empty(), Seq::<char>::empty(), k10, Seq::<char>::empty(), dec(x.last_used_at as nat), Seq::<char>::empty(), v10);
    let o10 = o9 + ",\"last_used_at\":"@ + dec(x.last_used_at as nat);
    piece_then_end_2();
    lemma_end(o10, t10, t10, "}"@, Seq::<char>::empty(), Seq::<char>::empty());
    lemma_close(t10, f10);
    let fs = seq![
        ("name"@, Json::Text(x.name@)),
        ("token_id"@, Json::Text(x.token_id@)),
        ("role"@, Json::Text(x.role.text())),
        ("database_roles"@, Json::Text(x.database_roles@)),
        ("denied_databases"@, Json::Text(x.denied_databases@)),
        ("expired_at"@, Json::Number(x.expired_at as int)),
        ("revoked"@, Json::Bool(x.revoked)),
        ("active"@, Json::Bool(x.active)),
        ("created_at"@, Json::Number(x.created_at as int)),
        ("last_used_at"@, Json::Number(x.last_used_at as int)),
    ];
    assert(f10 =~= fs);
}

/// Users say their rights, in order.
pub proof fn users_are_told_in_order(users: Seq<WebUserInfo>)
    ensures
        reads(
            seq!['['] + join(user_texts(users), ","@) + seq![']'],
            Json::List(users.map_values(|x: WebUserInfo| user_says(x))),
        ),
{
    let items = users.map_values(|x: WebUserInfo| user_says(x));
    let parts = user_texts(users);
    assert forall|i: int| 0 <= i < items.len() implies reads(parts[i], #[trigger] items[i]) by {
        users_say_their_rights(users[i]);
        assert(parts[i] == user_text(users[i]));
    }
    lists_are_read_item_by_item(parts, items);
}

/// An event of the audit log says when it was, what was done to what, and how.
pub proof fn events_say_what_happened(e: AuditEvent)
    ensures
        reads(
            event_text(e),
            Json::Fields(
                seq![
                    ("unix_ms"@, Json::Number(e.unix_ms as int)),
                    ("action"@, Json::Text(e.action@)),
                    ("target"@, Json::Text(e.target@)),
                    ("detail"@, Json::Text(e.detail@)),
                ],
            ),
        ),
{
    let t0 = seq!['{'];
    let f0 = Seq::<(Seq<char>, Json)>::empty();
    lemma_begin(t0);
    let k1 = key_of(true, "unix_ms"@);
    let v1 = dec(e.unix_ms as nat);
    let j1 = Json::Number(e.unix_ms as int);
    assert(reads(v1, j1)) by {
        decimals_say_the_number(e.unix_ms as nat);
    }
    plain_unix_ms();
    lemma_field(t0, f0, k1, "unix_ms"@, v1, j1);
    let t1 = t0 + k1 + v1;
    let f1 = f0.push(("unix_ms"@, j1));
    piece_unix_ms();
    lemma_first("{\"unix_ms\":"@, t0, Seq::<char>::empty(), k1, Seq::<char>::empty(), dec(e.unix_ms as nat), Seq::<char>::empty(), v1);
    let o1 = "{\"unix_ms\":"@ + dec(e.unix_ms as nat);
    let k2 = key_of(false, "action"@);
    let v2 = seq!['"'] + json_escaped(e.action@) + seq!['"'];
    let j2 = Json::Text(e.action@);
    assert(reads(v2, j2)) by {
        quoted_texts_say_the_text(e.action@);
    }
    plain_action();
    lemma_field(t1, f1, k2, "action"@, v2, j2);
    let t2 = t1 + k2 + v2;
    let f2 = f1.push(("action"@, j2));
    piece_then_action();
    lemma_grow(o1, t1, t1, ",\"action\":\""@, Seq::<char>::empty(), Seq::<char>::empty(), k2, seq!['"'], json_escaped(e.action@), seq!['"'], v2);
    let o2 = o1 + ",\"action\":\""@ + json_escaped(e.action@);
    let k3 = key_of(false, "target"@);
    let v3 = seq!['"'] + json_escaped(e.target@) + seq!['"'];
    let j3 = Json::Text(e.target@);
    assert(reads(v3, j3)) by {
        quoted_texts_say_the_text(e.target@);
    }
    plain_target();
    lemma_field(t2, f2, k3, "target"@, v3, j3);
    let t3 = t2 + k3 + v3;
    let f3 = f2.push(("target"@, j3));
    piece_then_target();
    lemma_grow(o2, t2, t2, "\",\"target\":\""@, seq!['"'], Seq::<char>::empty(), k3, seq!['"'], json_escaped(e.target@), seq!['"'], v3);
    let o3 = o2 + "\",\"target\":\""@ + json_escaped(e.target@);
    let k4 = key_of(false, "detail"@);
    let v4 = seq!['"'] + json_escaped(e.detail@) + seq!['"'];
    let j4 = Json::Text(e.detail@);
    assert(reads(v4, j4)) by {
        quoted_texts_say_the_text(e.detail@);
    }
    plain_detail();
    lemma_field(t3, f3, k4, "detail"@, v4, j4);
    let t4 = t3 + k4 + v4;
    let f4 = f3.push(("detail"@, j4));
    piece_then_detail();
    lemma_grow(o3, t3, t3, "\",\"detail\":\""@, seq!['"'], Seq::<char>::empty(), k4, seq!['"'], json_escaped(e.detail@), seq!['"'], v4);
    let o4 = o3 + "\",\"detail\":\""@ + json_escaped(e.detail@);
    piece_then_end();
    lemma_end(o4, t4, t4, "\"}"@, seq!['"'], Seq::<char>::empty());
    lemma_close(t4, f4);
    let fs = seq![
        ("unix_ms"@, Json::Number(e.unix_ms as int)),
        ("action"@, Json::Text(e.action@)),
        ("target"@, Json::Text(e.target@)),
        ("detail"@, Json::Text(e.detail@)),
    ];
    assert(f4 =~= fs);
}

/// The plan of a restore says of a shard what is committed, how far the restore goes, and how many
/// entries it takes.
pub proof fn shard_plans_say_how_far_a_restore_goes(shard_id: nat, committed: u64, entries: Seq<LogEntryStamp>, t: PitrTarget)
    ensures
        reads(
            shard_plan_text(shard_id, committed, entries, t),
            Json::Fields(
                seq![
                    ("shard_id"@, Json::Number(shard_id as int)),
                    ("committed_index"@, Json::Number(committed as int)),
                    ("target_index"@, Json::Number(target_index(entries, committed, t) as int)),
                    ("selected_entries"@, Json::Number(selected_count(entries, committed, t) as int)),
                ],
            ),
        ),
{
    let t0 = seq!['{'];
    let f0 = Seq::<(Seq<char>, Json)>::empty();
    lemma_begin(t0);
    let k1 = key_of(true, "shard_id"@);
    let v1 = dec(shard_id);
    let j1 = Json::Number(shard_id as int);
    assert(reads(v1, j1)) by {
        decimals_say_the_number(shard_id);
    }
    plain_shard_id();
    lemma_field(t0, f0, k1, "shard_id"@, v1, j1);
    let t1 = t0 + k1 + v1;
    let f1 = f0.push(("shard_id"@, j1));
    piece_shard_id();
    lemma_first("{\"shard_id\":"@, t0, Seq::<char>::empty(), k1, Seq::<char>::empty(), dec(shard_id), Seq::<char>::empty(), v1);
    let o1 = "{\"shard_id\":"@ + dec(shard_id);
    let k2 = key_of(false, "committed_index"@);
    let v2 = dec(committed as nat);
    let j2 = Json::Number(committed as int);
    assert(reads(v2, j2)) by {
        decimals_say_the_number(committed as nat);
    }
    plain_committed_index();
    lemma_field(t1, f1, k2, "committed_index"@, v2, j2);
    let t2 = t1 + k2 + v2;
    let f2 = f1.push(("committed_index"@, j2));
    piece_then_committed_index();
    lemma_grow(o1, t1, t1, ",\"committed_index\":"@, Seq::<char>::empty(), Seq::<char>::empty(), k2, Seq::<char>::empty(), dec(committed as nat), Seq::<char>::empty(), v2);
    let o2 = o1 + ",\"committed_index\":"@ + dec(committed as nat);
    let k3 = key_of(false, "target_index"@);
    let v3 = dec(target_index(entries, committed, t) as nat);
    let j3 = Json::Number(target_index(entries, committed, t) as int);
    assert(reads(v3, j3)) by {
        decimals_say_the_number(target_index(entries, committed, t) as nat);
    }
    plain_target_index();
    lemma_field(t2, f2, k3, "target_index"@, v3, j3);
    let t3 = t2 + k3 + v3;
    let f3 = f2.push(("target_index"@, j3));
    piece_then_target_index();
    lemma_grow(o2, t2, t2, ",\"target_index\":"@, Seq::<char>::empty(), Seq::<char>::empty(), k3, Seq::<char>::empty(), dec(target_index(entries, committed, t) as nat), Seq::<char>::empty(), v3);
    let o3 = o2 + ",\"target_index\":"@ + dec(target_index(entries, committed, t) as nat);
    let k4 = key_of(false, "selected_entries"@);
    let v4 = dec(selected_count(entries, committed, t));
    let j4 = Json::Number(selected_count(entries, committed, t) as int);
    assert(reads(v4, j4)) by {
        decimals_say_the_number(selected_count(entries, committed, t));
    }
    plain_selected_entries();
    lemma_field(t3, f3, k4, "selected_entries"@, v4, j4);
    let t4 = t3 + k4 + v4;
    let f4 = f3.push(("selected_entries"@, j4));
    piece_then_selected_entries();
    lemma_grow(o3, t3, t3, ",\"selected_entries\":"@, Seq::<char>::empty(), Seq::<char>::empty(), k4, Seq::<char>::empty(), dec(selected_count(entries, committed, t)), Seq::<char>::empty(), v4);
    let o4 = o3 + ",\"selected_entries\":"@ + dec(selected_count(entries, committed, t));
    piece_then_end_2();
    lemma_end(o4, t4, t4, "}"@, Seq::<char>::empty(), Seq::<char>::empty());
    lemma_close(t4, f4);
    let fs = seq![
        ("shard_id"@, Json::Number(shard_id as int)),
        ("committed_index"@, Json::Number(committed as int)),
        ("target_index"@, Json::Number(target_index(entries, committed, t) as int)),
        ("selected_entries"@, Json::Number(selected_count(entries, committed, t) as int)),
    ];
    assert(f4 =~= fs);
}

/// Whether an event is looked for.
pub open spec fn looked_for(
    e: AuditEvent,
    action: Option<Seq<char>>,
    target: Option<Seq<char>>,
) -> bool {
    fits(e.action@, action) && fits(e.target@, target)
}

/// The events that are shown are those that are looked for, the newest first, as many as the
/// limit allows: the places of the shown events go back in time, each event between them is not
/// looked for, and where fewer are shown than the limit allows, no event is left out.
pub proof fn newest_events_are_shown_first(
    events: Seq<AuditEvent>,
    action: Option<Seq<char>>,
    target: Option<Seq<char>>,
    limit: nat,
) -> (places: Seq<int>)
    ensures
        places.len() == shown_events(events, action, target, limit).len(),
        places.len() <= limit,
        forall|j: int|
            0 <= j < places.len() ==> 0 <= #[trigger] places[j] < events.len() && looked_for(
                events[places[j]],
                action,
                target,
            ) && shown_events(events, action, target, limit)[j] == event_text(events[places[j]]),
        forall|i: int, j: int|
            0 <= i < j < places.len() ==> #[trigger] places[i] > #[trigger] places[j],
        forall|q: int|
            0 <= q < events.len() && looked_for(#[trigger] events[q], action, target)
                && !places.contains(q) ==> places.len() == limit && forall|j: int|
                0 <= j < places.len() ==> #[trigger] places[j] > q,
    decreases events.len(),
{
    if events.len() == 0 || limit == 0 {
        Seq::empty()
    } else {
        let n = events.len() - 1;
        let front = events.drop_last();
        assert(events.last() == events[n]);
        if looked_for(events[n], action, target) {
            let rest = newest_events_are_shown_first(front, action, target, (limit - 1) as nat);
            let places = seq![n] + rest;
            let shown = shown_events(events, action, target, limit);
            assert forall|j: int| 0 <= j < places.len() implies 0 <= #[trigger] places[j]
                < events.len() && looked_for(events[places[j]], action, target) && shown[j]
                == event_text(events[places[j]]) by {
                if j > 0 {
                    assert(places[j] == rest[j - 1]);
                    assert(front[rest[j - 1]] == events[rest[j - 1]]);
                }
            }
            assert forall|i: int, j: int| 0 <= i < j < places.len() implies #[trigger] places[i]
                > #[trigger] places[j] by {
                assert(places[j] == rest[j - 1]);
                if i > 0 {
                    assert(places[i] == rest[i - 1]);
                }
            }
            assert forall|q: int|
                0 <= q < events.len() && looked_for(#[trigger] events[q], action, target)
                    && !places.contains(q) implies places.len() == limit && forall|j: int|
                0 <= j < places.len() ==> #[trigger] places[j] > q by {
                assert(places[0] == n);
                assert(q < n);
                assert(front[q] == events[q]);
                if rest.contains(q) {
                    let k = choose|k: int| 0 <= k < rest.len() && rest[k] == q;
                    assert(places[k + 1] == q);
                }
                assert forall|j: int| 0 <= j < places.len() implies #[trigger] places[j] > q by {
                    if j > 0 {
                        assert(places[j] == rest[j - 1]);
                    }
                }
            }
            places
        } else {
            let places = newest_events_are_shown_first(front, action, target, limit);
            assert forall|j: int| 0 <= j < places.len() implies 0 <= #[trigger] places[j]
                < events.len() && looked_for(events[places[j]], action, target) && shown_events(
                events,
                action,
                target,
                limit,
            )[j] == event_text(events[places[j]]) by {
                assert(front[places[j]] == events[places[j]]);
            }
            assert forall|q: int|
                0 <= q < events.len() && looked_for(#[trigger] events[q], action, target)
                    && !places.contains(q) implies places.len() == limit && forall|j: int|
                0 <= j < places.len() ==> #[trigger] places[j] > q by {
                assert(q < n);
                assert(front[q] == events[q]);
            }
            places
        }
    }
}

proof fn plain_error()
    ensures
        is_plain("error"@),
{
    reveal(is_plain);
    reveal_strlit("error");
}

proof fn plain_session_id()
    ensures
        is_plain("session_id"@),
{
    reveal(is_plain);
    reveal_strlit("session_id");
}

proof fn plain_csrf_token()
    ensures
        is_plain("csrf_token"@),
{
    reveal(is_plain);
    reveal_strlit("csrf_token");
}

proof fn plain_expires_in()
    ensures
        is_plain("expires_in"@),
{
    reveal(is_plain);
    reveal_strlit("expires_in");
}

proof fn plain_database()
    ensures
        is_plain("database"@),
{
    reveal(is_plain);
    reveal_strlit("database");
}

proof fn plain_stale_ownership_epoch()
    ensures
        is_plain("stale ownership epoch"@),
{
    reveal(is_plain);
    reveal_strlit("stale ownership epoch");
}

proof fn plain_routing_version()
    ensures
        is_plain("routing_version"@),
{
    reveal(is_plain);
    reveal_strlit("routing_version");
}

proof fn plain_ownership_epoch()
    ensures
        is_plain("ownership_epoch"@),
{
    reveal(is_plain);
    reveal_strlit("ownership_epoch");
}

proof fn plain_retryable()
    ensures
        is_plain("retryable"@),
{
    reveal(is_plain);
    reveal_strlit("retryable");
}

proof fn plain_shard_id()
    ensures
        is_plain("shard_id"@),
{
    reveal(is_plain);
    reveal_strlit("shard_id");
}

proof fn plain_term()
    ensures
        is_plain("term"@),
{
    reveal(is_plain);
    reveal_strlit("term");
}

proof fn plain_role()
    ensures
        is_plain("role"@),
{
    reveal(is_plain);
    reveal_strlit("role");
}

proof fn plain_leader_id()
    ensures
        is_plain("leader_id"@),
{
    reveal(is_plain);
    reveal_strlit("leader_id");
}

proof fn plain_commit_index()
    ensures
        is_plain("commit_index"@),
{
    reveal(is_plain);
    reveal_strlit("commit_index");
}

proof fn plain_last_log_index()
    ensures
        is_plain("last_log_index"@),
{
    reveal(is_plain);
    reveal_strlit("last_log_index");
}

proof fn plain_snapshot_index()
    ensures
        is_plain("snapshot_index"@),
{
    reveal(is_plain);
    reveal_strlit("snapshot_index");
}

proof fn plain_joint_consensus()
    ensures
        is_plain("joint_consensus"@),
{
    reveal(is_plain);
    reveal_strlit("joint_consensus");
}

proof fn plain_raft_shards()
    ensures
        is_plain("raft_shards"@),
{
    reveal(is_plain);
    reveal_strlit("raft_shards");
}

proof fn plain_server_id()
    ensures
        is_plain("server_id"@),
{
    reveal(is_plain);
    reveal_strlit("server_id");
}

proof fn plain_primary_server_id()
    ensures
        is_plain("primary_server_id"@),
{
    reveal(is_plain);
    reveal_strlit("primary_server_id");
}

proof fn plain_replicas()
    ensures
        is_plain("replicas"@),
{
    reveal(is_plain);
    reveal_strlit("replicas");
}

proof fn plain_version()
    ensures
        is_plain("version"@),
{
    reveal(is_plain);
    reveal_strlit("version");
}

proof fn plain_shards()
    ensures
        is_plain("shards"@),
{
    reveal(is_plain);
    reveal_strlit("shards");
}

proof fn plain_address()
    ensures
        is_plain("address"@),
{
    reveal(is_plain);
    reveal_strlit("address");
}

proof fn plain_local_server_id()
    ensures
        is_plain("local_server_id"@),
{
    reveal(is_plain);
    reveal_strlit("local_server_id");
}

proof fn plain_membership_index()
    ensures
        is_plain("membership_index"@),
{
    reveal(is_plain);
    reveal_strlit("membership_index");
}

proof fn plain_metadata_index()
    ensures
        is_plain("metadata_index"@),
{
    reveal(is_plain);
    reveal_strlit("metadata_index");
}

proof fn plain_generated_at_ms()
    ensures
        is_plain("generated_at_ms"@),
{
    reveal(is_plain);
    reveal_strlit("generated_at_ms");
}

proof fn plain_ttl_ms()
    ensures
        is_plain("ttl_ms"@),
{
    reveal(is_plain);
    reveal_strlit("ttl_ms");
}

proof fn plain_migration_state()
    ensures
        is_plain("migration_state"@),
{
    reveal(is_plain);
    reveal_strlit("migration_state");
}

proof fn plain_shard_primary_and_raft_leader()
    ensures
        is_plain("shard_primary_and_raft_leader"@),
{
    reveal(is_plain);
    reveal_strlit("shard_primary_and_raft_leader");
}

proof fn plain_write_authority()
    ensures
        is_plain("write_authority"@),
{
    reveal(is_plain);
    reveal_strlit("write_authority");
}

proof fn plain_routing()
    ensures
        is_plain("routing"@),
{
    reveal(is_plain);
    reveal_strlit("routing");
}

proof fn plain_query_peers()
    ensures
        is_plain("query_peers"@),
{
    reveal(is_plain);
    reveal_strlit("query_peers");
}

proof fn plain_unix_ms()
    ensures
        is_plain("unix_ms"@),
{
    reveal(is_plain);
    reveal_strlit("unix_ms");
}

proof fn plain_elapsed_ms()
    ensures
        is_plain("elapsed_ms"@),
{
    reveal(is_plain);
    reveal_strlit("elapsed_ms");
}

proof fn plain_query()
    ensures
        is_plain("query"@),
{
    reveal(is_plain);
    reveal_strlit("query");
}

proof fn plain_action()
    ensures
        is_plain("action"@),
{
    reveal(is_plain);
    reveal_strlit("action");
}

proof fn plain_files_touched()
    ensures
        is_plain("files_touched"@),
{
    reveal(is_plain);
    reveal_strlit("files_touched");
}

proof fn plain_bytes_observed()
    ensures
        is_plain("bytes_observed"@),
{
    reveal(is_plain);
    reveal_strlit("bytes_observed");
}

proof fn plain_pruned_until()
    ensures
        is_plain("pruned_until"@),
{
    reveal(is_plain);
    reveal_strlit("pruned_until");
}

proof fn plain_safety_manifest()
    ensures
        is_plain("safety_manifest"@),
{
    reveal(is_plain);
    reveal_strlit("safety_manifest");
}

proof fn plain_name()
    ensures
        is_plain("name"@),
{
    reveal(is_plain);
    reveal_strlit("name");
}

proof fn plain_disabled()
    ensures
        is_plain("disabled"@),
{
    reveal(is_plain);
    reveal_strlit("disabled");
}

proof fn plain_databases()
    ensures
        is_plain("databases"@),
{
    reveal(is_plain);
    reveal_strlit("databases");
}

proof fn plain_token_id()
    ensures
        is_plain("token_id"@),
{
    reveal(is_plain);
    reveal_strlit("token_id");
}

proof fn plain_database_roles()
    ensures
        is_plain("database_roles"@),
{
    reveal(is_plain);
    reveal_strlit("database_roles");
}

proof fn plain_denied_databases()
    ensures
        is_plain("denied_databases"@),
{
    reveal(is_plain);
    reveal_strlit("denied_databases");
}

proof fn plain_expired_at()
    ensures
        is_plain("expired_at"@),
{
    reveal(is_plain);
    reveal_strlit("expired_at");
}

proof fn plain_revoked()
    ensures
        is_plain("revoked"@),
{
    reveal(is_plain);
    reveal_strlit("revoked");
}

proof fn plain_active()
    ensures
        is_plain("active"@),
{
    reveal(is_plain);
    reveal_strlit("active");
}

proof fn plain_created_at()
    ensures
        is_plain("created_at"@),
{
    reveal(is_plain);
    reveal_strlit("created_at");
}

proof fn plain_last_used_at()
    ensures
        is_plain("last_used_at"@),
{
    reveal(is_plain);
    reveal_strlit("last_used_at");
}

proof fn plain_target()
    ensures
        is_plain("target"@),
{
    reveal(is_plain);
    reveal_strlit("target");
}

proof fn plain_detail()
    ensures
        is_plain("detail"@),
{
    reveal(is_plain);
    reveal_strlit("detail");
}

proof fn plain_committed_index()
    ensures
        is_plain("committed_index"@),
{
    reveal(is_plain);
    reveal_strlit("committed_index");
}

proof fn plain_target_index()
    ensures
        is_plain("target_index"@),
{
    reveal(is_plain);
    reveal_strlit("target_index");
}

proof fn plain_selected_entries()
    ensures
        is_plain("selected_entries"@),
{
    reveal(is_plain);
    reveal_strlit("selected_entries");
}

proof fn number_3600()
    ensures
        reads(seq!['3', '6', '0', '0'], Json::Number(3600)),
{
    reveal(reads);
    assert(seq!['3'].drop_last() =~= Seq::<char>::empty());
    assert(digits_say(Seq::<char>::empty()) == 0);
    assert(seq!['3', '6'].drop_last() =~= seq!['3']);
    assert(digits_say(seq!['3']) == 3);
    assert(seq!['3', '6', '0'].drop_last() =~= seq!['3', '6']);
    assert(digits_say(seq!['3', '6']) == 36);
    assert(seq!['3', '6', '0', '0'].drop_last() =~= seq!['3', '6', '0']);
    assert(digits_say(seq!['3', '6', '0']) == 360);
    assert(digits_say(seq!['3', '6', '0', '0']) == 3600);
}

proof fn number_0()
    ensures
        reads(seq!['0'], Json::Number(0)),
{
    reveal(reads);
    assert(seq!['0'].drop_last() =~= Seq::<char>::empty());
    assert(digits_say(Seq::<char>::empty()) == 0);
    assert(digits_say(seq!['0']) == 0);
}

proof fn number_5000()
    ensures
        reads(seq!['5', '0', '0', '0'], Json::Number(5000)),
{
    reveal(reads);
    assert(seq!['5'].drop_last() =~= Seq::<char>::empty());
    assert(digits_say(Seq::<char>::empty()) == 0);
    assert(seq!['5', '0'].drop_last() =~= seq!['5']);
    assert(digits_say(seq!['5']) == 5);
    assert(seq!['5', '0', '0'].drop_last() =~= seq!['5', '0']);
    assert(digits_say(seq!['5', '0']) == 50);
    assert(seq!['5', '0', '0', '0'].drop_last() =~= seq!['5', '0', '0']);
    assert(digits_say(seq!['5', '0', '0']) == 500);
    assert(digits_say(seq!['5', '0', '0', '0']) == 5000);
}

proof fn piece_error()
    ensures
        "{\"error\":\""@ == seq!['{'] + Seq::<char>::empty() + key_of(true, "error"@) + seq!['"'],
{
    reveal(key_of);
    reveal_strlit("{\"error\":\"");
    reveal_strlit("error");
    assert("{\"error\":\""@ =~= seq!['{'] + Seq::<char>::empty() + key_of(true, "error"@) + seq!['"']);
}

proof fn piece_then_end()
    ensures
        "\"}"@ == seq!['"'] + Seq::<char>::empty() + seq!['}'],
{
    reveal(key_of);
    reveal_strlit("\"}");
    assert("\"}"@ =~= seq!['"'] + Seq::<char>::empty() + seq!['}']);
}

proof fn piece_session_id()
    ensures
        "{\"session_id\":\""@ == seq!['{'] + Seq::<char>::empty() + key_of(true, "session_id"@) + seq!['"'],
{
    reveal(key_of);
    reveal_strlit("{\"session_id\":\"");
    reveal_strlit("session_id");
    assert("{\"session_id\":\""@ =~= seq!['{'] + Seq::<char>::empty() + key_of(true, "session_id"@) + seq!['"']);
}

proof fn piece_then_csrf_token()
    ensures
        "\",\"csrf_token\":\""@ == seq!['"'] + Seq::<char>::empty() + key_of(false, "csrf_token"@) + seq!['"'],
{
    reveal(key_of);
    reveal_strlit("\",\"csrf_token\":\"");
    reveal_strlit("csrf_token");
    assert("\",\"csrf_token\":\""@ =~= seq!['"'] + Seq::<char>::empty() + key_of(false, "csrf_token"@) + seq!['"']);
}

proof fn piece_then_expires_in_3600_database()
    ensures
        "\",\"expires_in\":3600,\"database\":\""@ == seq!['"'] + (Seq::<char>::empty() + key_of(false, "expires_in"@) + (seq!['3', '6', '0', '0'])) + key_of(false, "database"@) + seq!['"'],
{
    reveal(key_of);
    reveal_strlit("\",\"expires_in\":3600,\"database\":\"");
    reveal_strlit("expires_in");
    reveal_strlit("database");
    assert("\",\"expires_in\":3600,\"database\":\""@ =~= seq!['"'] + (Seq::<char>::empty() + key_of(false, "expires_in"@) + (seq!['3', '6', '0', '0'])) + key_of(false, "database"@) + seq!['"']);
}

proof fn piece_error_stale_ownership_epoch_routing_version()
    ensures
        "{\"error\":\"stale ownership epoch\",\"routing_version\":"@ == seq!['{'] + (Seq::<char>::empty() + key_of(true, "error"@) + (seq!['"'] + "stale ownership epoch"@ + seq!['"'])) + key_of(false, "routing_version"@) + Seq::<char>::empty(),
{
    reveal(key_of);
    reveal_strlit("{\"error\":\"stale ownership epoch\",\"routing_version\":");
    reveal_strlit("error");
    reveal_strlit("stale ownership epoch");
    reveal_strlit("routing_version");
    assert("{\"error\":\"stale ownership epoch\",\"routing_version\":"@ =~= seq!['{'] + (Seq::<char>::empty() + key_of(true, "error"@) + (seq!['"'] + "stale ownership epoch"@ + seq!['"'])) + key_of(false, "routing_version"@) + Seq::<char>::empty());
}

proof fn piece_then_ownership_epoch()
    ensures
        ",\"ownership_epoch\":"@ == Seq::<char>::empty() + Seq::<char>::empty() + key_of(false, "ownership_epoch"@) + Seq::<char>::empty(),
{
    reveal(key_of);
    reveal_strlit(",\"ownership_epoch\":");
    reveal_strlit("ownership_epoch");
    assert(",\"ownership_epoch\":"@ =~= Seq::<char>::empty() + Seq::<char>::empty() + key_of(false, "ownership_epoch"@) + Seq::<char>::empty());
}

proof fn piece_then_retryable_true()
    ensures
        ",\"retryable\":true}"@ == Seq::<char>::empty() + (Seq::<char>::empty() + key_of(false, "retryable"@) + (seq!['t', 'r', 'u', 'e'])) + seq!['}'],
{
    reveal(key_of);
    reveal_strlit(",\"retryable\":true}");
    reveal_strlit("retryable");
    assert(",\"retryable\":true}"@ =~= Seq::<char>::empty() + (Seq::<char>::empty() + key_of(false, "retryable"@) + (seq!['t', 'r', 'u', 'e'])) + seq!['}']);
}

proof fn piece_shard_id()
    ensures
        "{\"shard_id\":"@ == seq!['{'] + Seq::<char>::empty() + key_of(true, "shard_id"@) + Seq::<char>::empty(),
{
    reveal(key_of);
    reveal_strlit("{\"shard_id\":");
    reveal_strlit("shard_id");
    assert("{\"shard_id\":"@ =~= seq!['{'] + Seq::<char>::empty() + key_of(true, "shard_id"@) + Seq::<char>::empty());
}

proof fn piece_then_term()
    ensures
        ",\"term\":"@ == Seq::<char>::empty() + Seq::<char>::empty() + key_of(false, "term"@) + Seq::<char>::empty(),
{
    reveal(key_of);
    reveal_strlit(",\"term\":");
    reveal_strlit("term");
    assert(",\"term\":"@ =~= Seq::<char>::empty() + Seq::<char>::empty() + key_of(false, "term"@) + Seq::<char>::empty());
}

proof fn piece_then_role()
    ensures
        ",\"role\":\""@ == Seq::<char>::empty() + Seq::<char>::empty() + key_of(false, "role"@) + seq!['"'],
{
    reveal(key_of);
    reveal_strlit(",\"role\":\"");
    reveal_strlit("role");
    assert(",\"role\":\""@ =~= Seq::<char>::empty() + Seq::<char>::empty() + key_of(false, "role"@) + seq!['"']);
}

proof fn piece_then_leader_id()
    ensures
        "\",\"leader_id\":"@ == seq!['"'] + Seq::<char>::empty() + key_of(false, "leader_id"@) + Seq::<char>::empty(),
{
    reveal(key_of);
    reveal_strlit("\",\"leader_id\":");
    reveal_strlit("leader_id");
    assert("\",\"leader_id\":"@ =~= seq!['"'] + Seq::<char>::empty() + key_of(false, "leader_id"@) + Seq::<char>::empty());
}

proof fn piece_then_commit_index()
    ensures
        ",\"commit_index\":"@ == Seq::<char>::empty() + Seq::<char>::empty() + key_of(false, "commit_index"@) + Seq::<char>::empty(),
{
    reveal(key_of);
    reveal_strlit(",\"commit_index\":");
    reveal_strlit("commit_index");
    assert(",\"commit_index\":"@ =~= Seq::<char>::empty() + Seq::<char>::empty() + key_of(false, "commit_index"@) + Seq::<char>::empty());
}

proof fn piece_then_last_log_index()
    ensures
        ",\"last_log_index\":"@ == Seq::<char>::empty() + Seq::<char>::empty() + key_of(false, "last_log_index"@) + Seq::<char>::empty(),
{
    reveal(key_of);
    reveal_strlit(",\"last_log_index\":");
    reveal_strlit("last_log_index");
    assert(",\"last_log_index\":"@ =~= Seq::<char>::empty() + Seq::<char>::empty() + key_of(false, "last_log_index"@) + Seq::<char>::empty());
}

proof fn piece_then_snapshot_index()
    ensures
        ",\"snapshot_index\":"@ == Seq::<char>::empty() + Seq::<char>::empty() + key_of(false, "snapshot_index"@) + Seq::<char>::empty(),
{
    reveal(key_of);
    reveal_strlit(",\"snapshot_index\":");
    reveal_strlit("snapshot_index");
    assert(",\"snapshot_index\":"@ =~= Seq::<char>::empty() + Seq::<char>::empty() + key_of(false, "snapshot_index"@) + Seq::<char>::empty());
}

proof fn piece_then_joint_consensus()
    ensures
        ",\"joint_consensus\":"@ == Seq::<char>::empty() + Seq::<char>::empty() + key_of(false, "joint_consensus"@) + Seq::<char>::empty(),
{
    reveal(key_of);
    reveal_strlit(",\"joint_consensus\":");
    reveal_strlit("joint_consensus");
    assert(",\"joint_consensus\":"@ =~= Seq::<char>::empty() + Seq::<char>::empty() + key_of(false, "joint_consensus"@) + Seq::<char>::empty());
}

proof fn piece_then_end_2()
    ensures
        "}"@ == Seq::<char>::empty() + Seq::<char>::empty() + seq!['}'],
{
    reveal(key_of);
    reveal_strlit("}");
    assert("}"@ =~= Seq::<char>::empty() + Seq::<char>::empty() + seq!['}']);
}

proof fn piece_raft_shards()
    ensures
        "{\"raft_shards\":["@ == seq!['{'] + Seq::<char>::empty() + key_of(true, "raft_shards"@) + seq!['['],
{
    reveal(key_of);
    reveal_strlit("{\"raft_shards\":[");
    reveal_strlit("raft_shards");
    assert("{\"raft_shards\":["@ =~= seq!['{'] + Seq::<char>::empty() + key_of(true, "raft_shards"@) + seq!['[']);
}

proof fn piece_then_end_3()
    ensures
        "]}"@ == seq![']'] + Seq::<char>::empty() + seq!['}'],
{
    reveal(key_of);
    reveal_strlit("]}");
    assert("]}"@ =~= seq![']'] + Seq::<char>::empty() + seq!['}']);
}

proof fn piece_server_id()
    ensures
        "{\"server_id\":"@ == seq!['{'] + Seq::<char>::empty() + key_of(true, "server_id"@) + Seq::<char>::empty(),
{
    reveal(key_of);
    reveal_strlit("{\"server_id\":");
    reveal_strlit("server_id");
    assert("{\"server_id\":"@ =~= seq!['{'] + Seq::<char>::empty() + key_of(true, "server_id"@) + Seq::<char>::empty());
}

proof fn piece_then_primary_server_id()
    ensures
        ",\"primary_server_id\":"@ == Seq::<char>::empty() + Seq::<char>::empty() + key_of(false, "primary_server_id"@) + Seq::<char>::empty(),
{
    reveal(key_of);
    reveal_strlit(",\"primary_server_id\":");
    reveal_strlit("primary_server_id");
    assert(",\"primary_server_id\":"@ =~= Seq::<char>::empty() + Seq::<char>::empty() + key_of(false, "primary_server_id"@) + Seq::<char>::empty());
}

proof fn piece_then_replicas()
    ensures
        ",\"replicas\":["@ == Seq::<char>::empty() + Seq::<char>::empty() + key_of(false, "replicas"@) + seq!['['],
{
    reveal(key_of);
    reveal_strlit(",\"replicas\":[");
    reveal_strlit("replicas");
    assert(",\"replicas\":["@ =~= Seq::<char>::empty() + Seq::<char>::empty() + key_of(false, "replicas"@) + seq!['[']);
}

proof fn piece_version()
    ensures
        "{\"version\":"@ == seq!['{'] + Seq::<char>::empty() + key_of(true, "version"@) + Seq::<char>::empty(),
{
    reveal(key_of);
    reveal_strlit("{\"version\":");
    reveal_strlit("version");
    assert("{\"version\":"@ =~= seq!['{'] + Seq::<char>::empty() + key_of(true, "version"@) + Seq::<char>::empty());
}

proof fn piece_then_shards()
    ensures
        ",\"shards\":["@ == Seq::<char>::empty() + Seq::<char>::empty() + key_of(false, "shards"@) + seq!['['],
{
    reveal(key_of);
    reveal_strlit(",\"shards\":[");
    reveal_strlit("shards");
    assert(",\"shards\":["@ =~= Seq::<char>::empty() + Seq::<char>::empty() + key_of(false, "shards"@) + seq!['[']);
}

proof fn piece_version_0_ownership_epoch_0_shards()
    ensures
        "{\"version\":0,\"ownership_epoch\":0,\"shards\":[]}"@ == seq!['{'] + (((Seq::<char>::empty() + key_of(true, "version"@) + (seq!['0'])) + key_of(false, "ownership_epoch"@) + (seq!['0'])) + key_of(false, "shards"@) + (seq!['[', ']'])) + seq!['}'],
{
    reveal(key_of);
    reveal_strlit("{\"version\":0,\"ownership_epoch\":0,\"shards\":[]}");
    reveal_strlit("version");
    reveal_strlit("ownership_epoch");
    reveal_strlit("shards");
    assert("{\"version\":0,\"ownership_epoch\":0,\"shards\":[]}"@ =~= seq!['{'] + (((Seq::<char>::empty() + key_of(true, "version"@) + (seq!['0'])) + key_of(false, "ownership_epoch"@) + (seq!['0'])) + key_of(false, "shards"@) + (seq!['[', ']'])) + seq!['}']);
}

proof fn piece_then_address()
    ensures
        ",\"address\":\""@ == Seq::<char>::empty() + Seq::<char>::empty() + key_of(false, "address"@) + seq!['"'],
{
    reveal(key_of);
    reveal_strlit(",\"address\":\"");
    reveal_strlit("address");
    assert(",\"address\":\""@ =~= Seq::<char>::empty() + Seq::<char>::empty() + key_of(false, "address"@) + seq!['"']);
}

proof fn piece_database()
    ensures
        "{\"database\":\""@ == seq!['{'] + Seq::<char>::empty() + key_of(true, "database"@) + seq!['"'],
{
    reveal(key_of);
    reveal_strlit("{\"database\":\"");
    reveal_strlit("database");
    assert("{\"database\":\""@ =~= seq!['{'] + Seq::<char>::empty() + key_of(true, "database"@) + seq!['"']);
}

proof fn piece_then_local_server_id()
    ensures
        "\",\"local_server_id\":"@ == seq!['"'] + Seq::<char>::empty() + key_of(false, "local_server_id"@) + Seq::<char>::empty(),
{
    reveal(key_of);
    reveal_strlit("\",\"local_server_id\":");
    reveal_strlit("local_server_id");
    assert("\",\"local_server_id\":"@ =~= seq!['"'] + Seq::<char>::empty() + key_of(false, "local_server_id"@) + Seq::<char>::empty());
}

proof fn piece_then_routing_version()
    ensures
        ",\"routing_version\":"@ == Seq::<char>::empty() + Seq::<char>::empty() + key_of(false, "routing_version"@) + Seq::<char>::empty(),
{
    reveal(key_of);
    reveal_strlit(",\"routing_version\":");
    reveal_strlit("routing_version");
    assert(",\"routing_version\":"@ =~= Seq::<char>::empty() + Seq::<char>::empty() + key_of(false, "routing_version"@) + Seq::<char>::empty());
}

proof fn piece_then_membership_index()
    ensures
        ",\"membership_index\":"@ == Seq::<char>::empty() + Seq::<char>::empty() + key_of(false, "membership_index"@) + Seq::<char>::empty(),
{
    reveal(key_of);
    reveal_strlit(",\"membership_index\":");
    reveal_strlit("membership_index");
    assert(",\"membership_index\":"@ =~= Seq::<char>::empty() + Seq::<char>::empty() + key_of(false, "membership_index"@) + Seq::<char>::empty());
}

proof fn piece_then_metadata_index()
    ensures
        ",\"metadata_index\":"@ == Seq::<char>::empty() + Seq::<char>::empty() + key_of(false, "metadata_index"@) + Seq::<char>::empty(),
{
    reveal(key_of);
    reveal_strlit(",\"metadata_index\":");
    reveal_strlit("metadata_index");
    assert(",\"metadata_index\":"@ =~= Seq::<char>::empty() + Seq::<char>::empty() + key_of(false, "metadata_index"@) + Seq::<char>::empty());
}

proof fn piece_then_generated_at_ms()
    ensures
        ",\"generated_at_ms\":"@ == Seq::<char>::empty() + Seq::<char>::empty() + key_of(false, "generated_at_ms"@) + Seq::<char>::empty(),
{
    reveal(key_of);
    reveal_strlit(",\"generated_at_ms\":");
    reveal_strlit("generated_at_ms");
    assert(",\"generated_at_ms\":"@ =~= Seq::<char>::empty() + Seq::<char>::empty() + key_of(false, "generated_at_ms"@) + Seq::<char>::empty());
}

proof fn piece_then_ttl_ms_5000_migration_state()
    ensures
        ",\"ttl_ms\":5000,\"migration_state\":\""@ == Seq::<char>::empty() + (Seq::<char>::empty() + key_of(false, "ttl_ms"@) + (seq!['5', '0', '0', '0'])) + key_of(false, "migration_state"@) + seq!['"'],
{
    reveal(key_of);
    reveal_strlit(",\"ttl_ms\":5000,\"migration_state\":\"");
    reveal_strlit("ttl_ms");
    reveal_strlit("migration_state");
    assert(",\"ttl_ms\":5000,\"migration_state\":\""@ =~= Seq::<char>::empty() + (Seq::<char>::empty() + key_of(false, "ttl_ms"@) + (seq!['5', '0', '0', '0'])) + key_of(false, "migration_state"@) + seq!['"']);
}

proof fn piece_then_write_authority_shard_primary_and_raft_leader_rou()
    ensures
        "\",\"write_authority\":\"shard_primary_and_raft_leader\",\"routing\":"@ == seq!['"'] + (Seq::<char>::empty() + key_of(false, "write_authority"@) + (seq!['"'] + "shard_primary_and_raft_leader"@ + seq!['"'])) + key_of(false, "routing"@) + Seq::<char>::empty(),
{
    reveal(key_of);
    reveal_strlit("\",\"write_authority\":\"shard_primary_and_raft_leader\",\"routing\":");
    reveal_strlit("write_authority");
    reveal_strlit("shard_primary_and_raft_leader");
    reveal_strlit("routing");
    assert("\",\"write_authority\":\"shard_primary_and_raft_leader\",\"routing\":"@ =~= seq!['"'] + (Seq::<char>::empty() + key_of(false, "write_authority"@) + (seq!['"'] + "shard_primary_and_raft_leader"@ + seq!['"'])) + key_of(false, "routing"@) + Seq::<char>::empty());
}

proof fn piece_then_raft_shards()
    ensures
        ",\"raft_shards\":["@ == Seq::<char>::empty() + Seq::<char>::empty() + key_of(false, "raft_shards"@) + seq!['['],
{
    reveal(key_of);
    reveal_strlit(",\"raft_shards\":[");
    reveal_strlit("raft_shards");
    assert(",\"raft_shards\":["@ =~= Seq::<char>::empty() + Seq::<char>::empty() + key_of(false, "raft_shards"@) + seq!['[']);
}

proof fn piece_then_query_peers()
    ensures
        "],\"query_peers\":["@ == seq![']'] + Seq::<char>::empty() + key_of(false, "query_peers"@) + seq!['['],
{
    reveal(key_of);
    reveal_strlit("],\"query_peers\":[");
    reveal_strlit("query_peers");
    assert("],\"query_peers\":["@ =~= seq![']'] + Seq::<char>::empty() + key_of(false, "query_peers"@) + seq!['[']);
}

proof fn piece_unix_ms()
    ensures
        "{\"unix_ms\":"@ == seq!['{'] + Seq::<char>::empty() + key_of(true, "unix_ms"@) + Seq::<char>::empty(),
{
    reveal(key_of);
    reveal_strlit("{\"unix_ms\":");
    reveal_strlit("unix_ms");
    assert("{\"unix_ms\":"@ =~= seq!['{'] + Seq::<char>::empty() + key_of(true, "unix_ms"@) + Seq::<char>::empty());
}

proof fn piece_then_elapsed_ms()
    ensures
        ",\"elapsed_ms\":"@ == Seq::<char>::empty() + Seq::<char>::empty() + key_of(false, "elapsed_ms"@) + Seq::<char>::empty(),
{
    reveal(key_of);
    reveal_strlit(",\"elapsed_ms\":");
    reveal_strlit("elapsed_ms");
    assert(",\"elapsed_ms\":"@ =~= Seq::<char>::empty() + Seq::<char>::empty() + key_of(false, "elapsed_ms"@) + Seq::<char>::empty());
}

proof fn piece_then_query()
    ensures
        ",\"query\":\""@ == Seq::<char>::empty() + Seq::<char>::empty() + key_of(false, "query"@) + seq!['"'],
{
    reveal(key_of);
    reveal_strlit(",\"query\":\"");
    reveal_strlit("query");
    assert(",\"query\":\""@ =~= Seq::<char>::empty() + Seq::<char>::empty() + key_of(false, "query"@) + seq!['"']);
}

proof fn piece_action()
    ensures
        "{\"action\":\""@ == seq!['{'] + Seq::<char>::empty() + key_of(true, "action"@) + seq!['"'],
{
    reveal(key_of);
    reveal_strlit("{\"action\":\"");
    reveal_strlit("action");
    assert("{\"action\":\""@ =~= seq!['{'] + Seq::<char>::empty() + key_of(true, "action"@) + seq!['"']);
}

proof fn piece_then_files_touched()
    ensures
        "\",\"files_touched\":"@ == seq!['"'] + Seq::<char>::empty() + key_of(false, "files_touched"@) + Seq::<char>::empty(),
{
    reveal(key_of);
    reveal_strlit("\",\"files_touched\":");
    reveal_strlit("files_touched");
    assert("\",\"files_touched\":"@ =~= seq!['"'] + Seq::<char>::empty() + key_of(false, "files_touched"@) + Seq::<char>::empty());
}

proof fn piece_then_bytes_observed()
    ensures
        ",\"bytes_observed\":"@ == Seq::<char>::empty() + Seq::<char>::empty() + key_of(false, "bytes_observed"@) + Seq::<char>::empty(),
{
    reveal(key_of);
    reveal_strlit(",\"bytes_observed\":");
    reveal_strlit("bytes_observed");
    assert(",\"bytes_observed\":"@ =~= Seq::<char>::empty() + Seq::<char>::empty() + key_of(false, "bytes_observed"@) + Seq::<char>::empty());
}

proof fn piece_then_pruned_until()
    ensures
        ",\"pruned_until\":["@ == Seq::<char>::empty() + Seq::<char>::empty() + key_of(false, "pruned_until"@) + seq!['['],
{
    reveal(key_of);
    reveal_strlit(",\"pruned_until\":[");
    reveal_strlit("pruned_until");
    assert(",\"pruned_until\":["@ =~= Seq::<char>::empty() + Seq::<char>::empty() + key_of(false, "pruned_until"@) + seq!['[']);
}

proof fn piece_then_safety_manifest()
    ensures
        "],\"safety_manifest\":\""@ == seq![']'] + Seq::<char>::empty() + key_of(false, "safety_manifest"@) + seq!['"'],
{
    reveal(key_of);
    reveal_strlit("],\"safety_manifest\":\"");
    reveal_strlit("safety_manifest");
    assert("],\"safety_manifest\":\""@ =~= seq![']'] + Seq::<char>::empty() + key_of(false, "safety_manifest"@) + seq!['"']);
}

proof fn piece_name()
    ensures
        "{\"name\":\""@ == seq!['{'] + Seq::<char>::empty() + key_of(true, "name"@) + seq!['"'],
{
    reveal(key_of);
    reveal_strlit("{\"name\":\"");
    reveal_strlit("name");
    assert("{\"name\":\""@ =~= seq!['{'] + Seq::<char>::empty() + key_of(true, "name"@) + seq!['"']);
}

proof fn piece_then_query_2()
    ensures
        "\",\"query\":\""@ == seq!['"'] + Seq::<char>::empty() + key_of(false, "query"@) + seq!['"'],
{
    reveal(key_of);
    reveal_strlit("\",\"query\":\"");
    reveal_strlit("query");
    assert("\",\"query\":\""@ =~= seq!['"'] + Seq::<char>::empty() + key_of(false, "query"@) + seq!['"']);
}

proof fn piece_then_disabled()
    ensures
        "\",\"disabled\":"@ == seq!['"'] + Seq::<char>::empty() + key_of(false, "disabled"@) + Seq::<char>::empty(),
{
    reveal(key_of);
    reveal_strlit("\",\"disabled\":");
    reveal_strlit("disabled");
    assert("\",\"disabled\":"@ =~= seq!['"'] + Seq::<char>::empty() + key_of(false, "disabled"@) + Seq::<char>::empty());
}

proof fn piece_databases()
    ensures
        "{\"databases\":["@ == seq!['{'] + Seq::<char>::empty() + key_of(true, "databases"@) + seq!['['],
{
    reveal(key_of);
    reveal_strlit("{\"databases\":[");
    reveal_strlit("databases");
    assert("{\"databases\":["@ =~= seq!['{'] + Seq::<char>::empty() + key_of(true, "databases"@) + seq!['[']);
}

proof fn piece_then_token_id()
    ensures
        "\",\"token_id\":\""@ == seq!['"'] + Seq::<char>::empty() + key_of(false, "token_id"@) + seq!['"'],
{
    reveal(key_of);
    reveal_strlit("\",\"token_id\":\"");
    reveal_strlit("token_id");
    assert("\",\"token_id\":\""@ =~= seq!['"'] + Seq::<char>::empty() + key_of(false, "token_id"@) + seq!['"']);
}

proof fn piece_then_role_2()
    ensures
        "\",\"role\":\""@ == seq!['"'] + Seq::<char>::empty() + key_of(false, "role"@) + seq!['"'],
{
    reveal(key_of);
    reveal_strlit("\",\"role\":\"");
    reveal_strlit("role");
    assert("\",\"role\":\""@ =~= seq!['"'] + Seq::<char>::empty() + key_of(false, "role"@) + seq!['"']);
}

proof fn piece_then_database_roles()
    ensures
        "\",\"database_roles\":\""@ == seq!['"'] + Seq::<char>::empty() + key_of(false, "database_roles"@) + seq!['"'],
{
    reveal(key_of);
    reveal_strlit("\",\"database_roles\":\"");
    reveal_strlit("database_roles");
    assert("\",\"database_roles\":\""@ =~= seq!['"'] + Seq::<char>::empty() + key_of(false, "database_roles"@) + seq!['"']);
}

proof fn piece_then_denied_databases()
    ensures
        "\",\"denied_databases\":\""@ == seq!['"'] + Seq::<char>::empty() + key_of(false, "denied_databases"@) + seq!['"'],
{
    reveal(key_of);
    reveal_strlit("\",\"denied_databases\":\"");
    reveal_strlit("denied_databases");
    assert("\",\"denied_databases\":\""@ =~= seq!['"'] + Seq::<char>::empty() + key_of(false, "denied_databases"@) + seq!['"']);
}

proof fn piece_then_expired_at()
    ensures
        "\",\"expired_at\":"@ == seq!['"'] + Seq::<char>::empty() + key_of(false, "expired_at"@) + Seq::<char>::empty(),
{
    reveal(key_of);
    reveal_strlit("\",\"expired_at\":");
    reveal_strlit("expired_at");
    assert("\",\"expired_at\":"@ =~= seq!['"'] + Seq::<char>::empty() + key_of(false, "expired_at"@) + Seq::<char>::empty());
}

proof fn piece_then_revoked()
    ensures
        ",\"revoked\":"@ == Seq::<char>::empty() + Seq::<char>::empty() + key_of(false, "revoked"@) + Seq::<char>::empty(),
{
    reveal(key_of);
    reveal_strlit(",\"revoked\":");
    reveal_strlit("revoked");
    assert(",\"revoked\":"@ =~= Seq::<char>::empty() + Seq::<char>::empty() + key_of(false, "revoked"@) + Seq::<char>::empty());
}

proof fn piece_then_active()
    ensures
        ",\"active\":"@ == Seq::<char>::empty() + Seq::<char>::empty() + key_of(false, "active"@) + Seq::<char>::empty(),
{
    reveal(key_of);
    reveal_strlit(",\"active\":");
    reveal_strlit("active");
    assert(",\"active\":"@ =~= Seq::<char>::empty() + Seq::<char>::empty() + key_of(false, "active"@) + Seq::<char>::empty());
}

proof fn piece_then_created_at()
    ensures
        ",\"created_at\":"@ == Seq::<char>::empty() + Seq::<char>::empty() + key_of(false, "created_at"@) + Seq::<char>::empty(),
{
    reveal(key_of);
    reveal_strlit(",\"created_at\":");
    reveal_strlit("created_at");
    assert(",\"created_at\":"@ =~= Seq::<char>::empty() + Seq::<char>::empty() + key_of(false, "created_at"@) + Seq::<char>::empty());
}

proof fn piece_then_last_used_at()
    ensures
        ",\"last_used_at\":"@ == Seq::<char>::empty() + Seq::<char>::empty() + key_of(false, "last_used_at"@) + Seq::<char>::empty(),
{
    reveal(key_of);
    reveal_strlit(",\"last_used_at\":");
    reveal_strlit("last_used_at");
    assert(",\"last_used_at\":"@ =~= Seq::<char>::empty() + Seq::<char>::empty() + key_of(false, "last_used_at"@) + Seq::<char>::empty());
}

proof fn piece_then_action()
    ensures
        ",\"action\":\""@ == Seq::<char>::empty() + Seq::<char>::empty() + key_of(false, "action"@) + seq!['"'],
{
    reveal(key_of);
    reveal_strlit(",\"action\":\"");
    reveal_strlit("action");
    assert(",\"action\":\""@ =~= Seq::<char>::empty() + Seq::<char>::empty() + key_of(false, "action"@) + seq!['"']);
}

proof fn piece_then_target()
    ensures
        "\",\"target\":\""@ == seq!['"'] + Seq::<char>::empty() + key_of(false, "target"@) + seq!['"'],
{
    reveal(key_of);
    reveal_strlit("\",\"target\":\"");
    reveal_strlit("target");
    assert("\",\"target\":\""@ =~= seq!['"'] + Seq::<char>::empty() + key_of(false, "target"@) + seq!['"']);
}

proof fn piece_then_detail()
    ensures
        "\",\"detail\":\""@ == seq!['"'] + Seq::<char>::empty() + key_of(false, "detail"@) + seq!['"'],
{
    reveal(key_of);
    reveal_strlit("\",\"detail\":\"");
    reveal_strlit("detail");
    assert("\",\"detail\":\""@ =~= seq!['"'] + Seq::<char>::empty() + key_of(false, "detail"@) + seq!['"']);
}

proof fn piece_then_committed_index()
    ensures
        ",\"committed_index\":"@ == Seq::<char>::empty() + Seq::<char>::empty() + key_of(false, "committed_index"@) + Seq::<char>::empty(),
{
    reveal(key_of);
    reveal_strlit(",\"committed_index\":");
    reveal_strlit("committed_index");
    assert(",\"committed_index\":"@ =~= Seq::<char>::empty() + Seq::<char>::empty() + key_of(false, "committed_index"@) + Seq::<char>::empty());
}

proof fn piece_then_target_index()
    ensures
        ",\"target_index\":"@ == Seq::<char>::empty() + Seq::<char>::empty() + key_of(false, "target_index"@) + Seq::<char>::empty(),
{
    reveal(key_of);
    reveal_strlit(",\"target_index\":");
    reveal_strlit("target_index");
    assert(",\"target_index\":"@ =~= Seq::<char>::empty() + Seq::<char>::empty() + key_of(false, "target_index"@) + Seq::<char>::empty());
}

proof fn piece_then_selected_entries()
    ensures
        ",\"selected_entries\":"@ == Seq::<char>::empty() + Seq::<char>::empty() + key_of(false, "selected_entries"@) + Seq::<char>::empty(),
{
    reveal(key_of);
    reveal_strlit(",\"selected_entries\":");
    reveal_strlit("selected_entries");
    assert(",\"selected_entries\":"@ =~= Seq::<char>::empty() + Seq::<char>::empty() + key_of(false, "selected_entries"@) + Seq::<char>::empty());
}

} // verus!
