//! What other servers answer, and how requests are passed on to them.

use vstd::prelude::*;

use crate::args::{is_required, text_of};
use crate::backend::{gossip_effect, Known};
use crate::cluster::Forward;
use crate::cursors::{
    bool_token, catalog_response, cells, page_len, rows_from, rows_wanted, row_count_problem,
    told_rows, total_known, ShardQueryCursor,
};
use crate::gossip::{addresses_after_hearing, after_hearing, node_problem, GossipNode};
use crate::options::{ServerOption, Setting};
use crate::requests::{
    backend_task, command_planned, forwarded_text, native_task, request_planned, BackendRequest,
    Planned, RequestFacts, Task,
};
use crate::text::{lemma_split_once_at_char, number};
use crate::tls::channel_files;
use crate::web::{task_counted, WebMetrics, WebRoute};

verus! {

/// A page holds as many rows as are asked for, and at least one; a cursor gets from its server the
/// rows that it lacks for that, where the server has more.
pub proof fn cursors_get_the_rows_they_lack<T>(c: ShardQueryCursor<T>, page_size: usize)
    ensures
        page_len(page_size) >= 1 && page_len(page_size) >= page_size,
        page_size > 0 ==> page_len(page_size) == page_size,
        rows_wanted(c, page_size) is Some <==> c.remote_has_more && c.buffered_rows@.len()
            < page_len(page_size),
        rows_wanted(c, page_size) matches Some(n) ==> n + c.buffered_rows@.len() == page_len(
            page_size,
        ),
{
}

/// The rows of several cursors are those of each, one after another.
pub proof fn rows_of_cursors_stand_in_order<T>(cursors: Seq<ShardQueryCursor<T>>, i: int)
    requires
        0 <= i <= cursors.len(),
    ensures
        i < cursors.len() ==> rows_from(cursors, i) == cursors[i].buffered_rows@ + rows_from(
            cursors,
            i + 1,
        ),
        i == cursors.len() ==> rows_from(cursors, i) == Seq::<T>::empty(),
{
}

/// How many rows there are in all is known where every cursor knows its own, and then it is their
/// sum.
pub proof fn totals_are_known_where_all_are<T>(cursors: Seq<ShardQueryCursor<T>>)
    ensures
        total_known(cursors) is Some <==> forall|i: int|
            0 <= i < cursors.len() ==> (#[trigger] cursors[i]).total_rows is Some,
        total_known(cursors) matches Some(n) ==> n == told_rows(cursors),
    decreases cursors.len(),
{
    if cursors.len() > 0 {
        let front = cursors.drop_last();
        totals_are_known_where_all_are(front);
        assert(cursors[cursors.len() - 1] == cursors.last());
        if total_known(cursors) is Some {
            assert forall|i: int| 0 <= i < cursors.len() implies (
            #[trigger] cursors[i]).total_rows is Some by {
                if i < front.len() {
                    assert(front[i].total_rows is Some);
                }
            }
        }
        if forall|i: int| 0 <= i < cursors.len() ==> (#[trigger] cursors[i]).total_rows is Some {
            assert forall|i: int| 0 <= i < front.len() implies (
            #[trigger] front[i]).total_rows is Some by {
                assert(cursors[i].total_rows is Some);
            }
        }
    }
}

/// An answer is cut at its tabs, and no further than asked for: what stands behind the last cut stays
/// as it is.
pub proof fn answers_are_cut_at_their_tabs(a: Seq<char>, b: Seq<char>, n: nat)
    requires
        !a.contains('\t'),
        n > 1,
    ensures
        cells(a + "\t"@ + b, n) == seq![a] + cells(b, (n - 1) as nat),
        cells(b, 1) == seq![b],
{
    reveal_strlit("\t");
    assert("\t"@ =~= seq!['\t']);
    lemma_split_once_at_char(a, b, '\t');
}

/// A page is refused where it does not hold the rows that it announces.
pub proof fn pages_hold_the_rows_they_announce(
    announced: Seq<char>,
    decoded: Result<nat, Seq<char>>,
    name: Seq<char>,
)
    ensures
        row_count_problem(announced, decoded, name) is None <==> decoded is Ok && number(
            announced,
            usize::MAX as nat,
        ) == Some(decoded->Ok_0),
{
}

/// A truth value of an answer is one of two words.
pub proof fn truth_values_of_answers_are_words(input: Seq<char>, name: Seq<char>)
    ensures
        bool_token(input, name) matches Ok(b) ==> input == (if b {
            "true"@
        } else {
            "false"@
        }),
        bool_token(input, name) is Err <==> input != "true"@ && input != "false"@,
{
}

/// A catalog is read out of the answer that brings it, and out of no other.
pub proof fn catalogs_are_read_out_of_their_answer(rest: Seq<char>)
    ensures
        catalog_response("OK"@ + "\t"@ + ("INDEX_CATALOG"@ + "\t"@ + rest)) == Ok::<_, Seq<char>>(
            rest,
        ),
{
    reveal_strlit("OK");
    reveal_strlit("INDEX_CATALOG");
    let b = "INDEX_CATALOG"@ + "\t"@ + rest;
    answers_are_cut_at_their_tabs("OK"@, b, 3);
    answers_are_cut_at_their_tabs("INDEX_CATALOG"@, rest, 2);
    assert(cells("OK"@ + "\t"@ + b, 3) =~= seq!["OK"@, "INDEX_CATALOG"@, rest]);
}

/// A request of a session is carried out here, sent on, or pointed elsewhere, as the routing says;
/// one that changes something waits for a restore before that.
pub proof fn requests_are_passed_on_as_the_routing_says(
    request: BackendRequest,
    facts: RequestFacts,
)
    ensures
        facts.mutates && facts.maintenance != Ok::<bool, String>(false) ==> command_planned(
            request,
            facts,
        ) is Err,
        !facts.mutates || facts.maintenance == Ok::<bool, String>(false) ==> {
            &&& facts.forward matches Err(e) ==> command_planned(request, facts) == Err::<
                Planned,
                _,
            >(e@)
            &&& facts.forward matches Ok(plan) ==> {
                &&& plan@ is Here ==> command_planned(request, facts) == Ok::<_, Seq<char>>(
                    Planned::Here(native_task(request, facts.capabilities@)),
                )
                &&& plan@ matches Forward::Send { address } ==> (forwarded_text(request)
                    matches Some(payload) ==> command_planned(request, facts) == Ok::<
                    _,
                    Seq<char>,
                >(Planned::Send { address, payload }))
                &&& plan@ matches Forward::Redirect { shard_id, target_server_id, routing_version }
                    ==> (command_planned(request, facts) matches Ok(Planned::Redirect(to))
                    && to.shard_id == shard_id && to.target_server_id == Some(target_server_id)
                    && to.routing_version == routing_version && to.retryable && to.address is None)
            }
        },
{
}

/// A request over the plain interface is carried out unless it changes something during a restore.
pub proof fn plain_requests_are_carried_out(
    request: BackendRequest,
    mutates: bool,
    maintenance: Result<bool, String>,
    capabilities: Seq<char>,
)
    ensures
        !mutates || maintenance == Ok::<bool, String>(false) ==> request_planned(
            request,
            mutates,
            maintenance,
            capabilities,
        ) == backend_task(request, capabilities),
        mutates && maintenance != Ok::<bool, String>(false) ==> (request_planned(
            request,
            mutates,
            maintenance,
            capabilities,
        ) matches Task::Answer(r) && r is Failed),
{
}

/// News of a node change what is known of the nodes and of the query peers, and nothing else; news
/// that are not in order are refused.
pub proof fn news_change_what_is_known_of_the_node(known: Known, node: GossipNode)
    ensures
        ({
            let e = gossip_effect(known, node);
            &&& e.known.nodes == after_hearing(known.nodes, node)
            &&& e.known.query_peers == addresses_after_hearing(
                known.nodes,
                known.query_peers,
                node,
            )
            &&& e.known.replication_peers == known.replication_peers
            &&& e.known.identities == known.identities
            &&& e.next is Err <==> node_problem(node) is Some
        }),
{
}

/// A channel of the replication is protected by the authority that is given, under the name that is
/// given or the local one, and with the certificate of the client, where there is one.
pub proof fn channels_are_protected_with_their_files(m: Map<ServerOption, Setting>)
    ensures
        !is_required(m, ServerOption::ReplicationTlsMode) ==> channel_files(m) matches Ok(None),
        is_required(m, ServerOption::ReplicationTlsMode) ==> (channel_files(m) is Ok <==> text_of(
            m,
            ServerOption::ReplicationTlsCa,
        ) is Some),
        channel_files(m) matches Ok(Some(f)) ==> {
            &&& text_of(m, ServerOption::ReplicationTlsCa) == Some(f.ca_cert_path)
            &&& f.client_cert_path == text_of(m, ServerOption::ReplicationTlsClientCert)
            &&& f.client_key_path == text_of(m, ServerOption::ReplicationTlsClientKey)
            &&& text_of(m, ServerOption::ReplicationTlsServerName) matches Some(name)
                ==> f.server_name == name
            &&& text_of(m, ServerOption::ReplicationTlsServerName) is None ==> f.server_name
                == "localhost"@
        },
{
}

/// A look at the registry that was answered is counted, and a query that failed is counted as an
/// error; nothing else is counted then.
pub proof fn done_tasks_are_counted(m: WebMetrics, route: WebRoute, done: bool)
    requires
        m.registry_requests < u64::MAX,
        m.http_errors < u64::MAX,
    ensures
        task_counted(m, route, done).registry_requests == m.registry_requests + (if route is Registry
            && done {
            1int
        } else {
            0
        }),
        task_counted(m, route, done).http_errors == m.http_errors + (if route is Query && !done {
            1int
        } else {
            0
        }),
        task_counted(m, route, done).http_requests == m.http_requests,
        task_counted(m, route, done).auth_failures == m.auth_failures,
{
}

} // verus!
