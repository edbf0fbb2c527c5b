//! What a server has heard of the other nodes of its cluster.

use vstd::prelude::*;

use crate::peers::{is_clean, lemma_clean_number, QueryPeerStore};
use crate::table::{
    as_map, ascending, lemma_as_map, lemma_seen, lemma_seen_empty, lemma_seen_insert, lemma_sorted,
    seen_entries, seen_map, sorted, Table,
};
use crate::text::{
    blank, cat, contains_char, dec, join, join_with, lemma_views_push, lines, lines_of, number,
    number_reads_dec, read_u64, same, show, split, split_on, splitting_undoes_joining, terminated,
    terminated_lines_read_back, trim, views,
};

verus! {

/// How long a node that the membership names counts as alive.
pub const GOSSIP_MEMBERSHIP_TTL_MS: u64 = 30000;

/// What is known of a node.
#[derive(Clone, Debug, PartialEq, Eq)]
pub struct GossipNodeRecord {
    pub server_id: u64,
    pub query_address: String,
    pub replication_address: String,
    pub incarnation: u64,
    pub ttl_ms: u64,
    pub seen_at_ms: u64,
}

/// The contents of what is known of a node.
pub struct GossipNode {
    pub server_id: u64,
    pub query_address: Seq<char>,
    pub replication_address: Seq<char>,
    pub incarnation: u64,
    pub ttl_ms: u64,
    pub seen_at_ms: u64,
}

/// Whether a node counts as alive at a time: it was heard of within its time to live,
/// or lives for ever.
pub open spec fn alive_at(node: GossipNode, now_ms: u64) -> bool {
    node.ttl_ms == 0 || now_ms - node.seen_at_ms <= node.ttl_ms
}

impl GossipNodeRecord {
    pub open spec fn view(&self) -> GossipNode {
        GossipNode {
            server_id: self.server_id,
            query_address: self.query_address@,
            replication_address: self.replication_address@,
            incarnation: self.incarnation,
            ttl_ms: self.ttl_ms,
            seen_at_ms: self.seen_at_ms,
        }
    }

    /// Whether the node counts as alive at a time.
    pub fn is_alive_at(&self, now_ms: u64) -> (r: bool)
        ensures
            r == alive_at(self@, now_ms),
    {
        self.ttl_ms == 0 || now_ms <= self.seen_at_ms || now_ms - self.seen_at_ms <= self.ttl_ms
    }

    /// A record like this one.
    pub fn copy(&self) -> (r: Self)
        ensures
            r@ == self@,
    {
        GossipNodeRecord {
            server_id: self.server_id,
            query_address: self.query_address.clone(),
            replication_address: self.replication_address.clone(),
            incarnation: self.incarnation,
            ttl_ms: self.ttl_ms,
            seen_at_ms: self.seen_at_ms,
        }
    }
}

pub open spec fn node_view() -> spec_fn(GossipNodeRecord) -> GossipNode {
    |r: GossipNodeRecord| r@
}

pub open spec fn is_address(s: Seq<char>) -> bool {
    s.len() > 0 && is_clean(s)
}

/// What is wrong with a record.
pub open spec fn node_problem(node: GossipNode) -> Option<Seq<char>> {
    if node.server_id == 0 {
        Some("gossip node server id must be greater than zero"@)
    } else if !is_address(node.query_address) || !is_address(node.replication_address) {
        Some("invalid gossip node address"@)
    } else {
        None
    }
}

fn address_is_valid(s: &str) -> (r: bool)
    ensures
        r == is_address(s@),
{
    !s.is_empty() && !contains_char(s, '\t') && !contains_char(s, '\n') && !contains_char(s, '\r')
}

/// Checks a record.
pub fn validate_gossip_node(record: &GossipNodeRecord) -> (r: Result<(), String>)
    ensures
        match r {
            Ok(()) => node_problem(record@) is None,
            Err(e) => node_problem(record@) == Some(e@),
        },
{
    if record.server_id == 0 {
        return Err("gossip node server id must be greater than zero".to_owned());
    }
    if !address_is_valid(record.query_address.as_str()) || !address_is_valid(
        record.replication_address.as_str(),
    ) {
        return Err("invalid gossip node address".to_owned());
    }
    Ok(())
}

/// The fields of a record, as its line in the file has them.
pub open spec fn node_fields(node: GossipNode) -> Seq<Seq<char>> {
    seq![
        dec(node.server_id as nat),
        node.query_address,
        node.replication_address,
        dec(node.incarnation as nat),
        dec(node.ttl_ms as nat),
        dec(node.seen_at_ms as nat),
    ]
}

/// The line of a record in the file.
pub open spec fn node_line(node: GossipNode) -> Seq<char> {
    join(node_fields(node), seq!['\t'])
}

/// The number of a field of a record.
pub open spec fn node_number(value: Seq<char>, field: Seq<char>) -> Result<u64, Seq<char>> {
    match number(value, u64::MAX as nat) {
        Some(n) => Ok(n as u64),
        None => Err("invalid gossip node "@ + field),
    }
}

fn parse_gossip_u64(value: &str, field: &str) -> (r: Result<u64, String>)
    ensures
        match r {
            Ok(n) => node_number(value@, field@) == Ok::<u64, Seq<char>>(n),
            Err(e) => node_number(value@, field@) == Err::<u64, Seq<char>>(e@),
        },
{
    match read_u64(value) {
        Some(n) => Ok(n),
        None => Err(cat("invalid gossip node ", field)),
    }
}

/// The record that a line holds, or what is wrong with the line.
pub open spec fn node_recorded(line: Seq<char>) -> Result<GossipNode, Seq<char>> {
    let parts = split(line, '\t');
    if parts.len() != 6 {
        Err("invalid gossip node record"@)
    } else {
        match node_number(parts[0], "server id"@) {
            Err(e) => Err(e),
            Ok(server_id) => match node_number(parts[3], "incarnation"@) {
                Err(e) => Err(e),
                Ok(incarnation) => match node_number(parts[4], "ttl ms"@) {
                    Err(e) => Err(e),
                    Ok(ttl_ms) => match node_number(parts[5], "seen at ms"@) {
                        Err(e) => Err(e),
                        Ok(seen_at_ms) => {
                            let node = GossipNode {
                                server_id,
                                query_address: parts[1],
                                replication_address: parts[2],
                                incarnation,
                                ttl_ms,
                                seen_at_ms,
                            };
                            match node_problem(node) {
                                Some(e) => Err(e),
                                None => Ok(node),
                            }
                        },
                    },
                },
            },
        }
    }
}

/// Reads the line of a record.
pub fn decode_gossip_node(line: &str) -> (r: Result<GossipNodeRecord, String>)
    ensures
        match r {
            Ok(n) => node_recorded(line@) == Ok::<GossipNode, Seq<char>>(n@),
            Err(e) => node_recorded(line@) == Err::<GossipNode, Seq<char>>(e@),
        },
{
    let parts = split_on(line, '\t');
    let ghost all = split(line@, '\t');
    assert(all.len() == parts@.len());
    if parts.len() != 6 {
        return Err("invalid gossip node record".to_owned());
    }
    assert(forall|i: int| 0 <= i < 6 ==> #[trigger] all[i] == parts@[i]@);
    let server_id = match parse_gossip_u64(parts[0].as_str(), "server id") {
        Ok(n) => n,
        Err(e) => return Err(e),
    };
    let incarnation = match parse_gossip_u64(parts[3].as_str(), "incarnation") {
        Ok(n) => n,
        Err(e) => return Err(e),
    };
    let ttl_ms = match parse_gossip_u64(parts[4].as_str(), "ttl ms") {
        Ok(n) => n,
        Err(e) => return Err(e),
    };
    let seen_at_ms = match parse_gossip_u64(parts[5].as_str(), "seen at ms") {
        Ok(n) => n,
        Err(e) => return Err(e),
    };
    let record = GossipNodeRecord {
        server_id,
        query_address: parts[1].clone(),
        replication_address: parts[2].clone(),
        incarnation,
        ttl_ms,
        seen_at_ms,
    };
    match validate_gossip_node(&record) {
        Ok(()) => Ok(record),
        Err(e) => Err(e),
    }
}

/// Writes the line of a record.
pub fn encode_gossip_node(record: &GossipNodeRecord) -> (r: String)
    ensures
        r@ == node_line(record@),
{
    let mut fields: Vec<String> = Vec::new();
    fields.push(show(record.server_id as u128));
    fields.push(record.query_address.clone());
    fields.push(record.replication_address.clone());
    fields.push(show(record.incarnation as u128));
    fields.push(show(record.ttl_ms as u128));
    fields.push(show(record.seen_at_ms as u128));
    assert(views(fields@) =~= node_fields(record@));
    let r = join_with(fields.as_slice(), "\t");
    proof {
        reveal_strlit("\t");
        assert("\t"@ =~= seq!['\t']);
    }
    r
}

/// The lines of the file of records.
pub open spec fn node_file(nodes: Seq<(u64, GossipNode)>) -> Seq<Seq<char>> {
    seq!["N4RGOSSIP1"@] + nodes.map_values(|n: (u64, GossipNode)| node_line(n.1))
}

/// The records after those from the `i`-th line on.
pub open spec fn nodes_recorded(
    file: Seq<Seq<char>>,
    i: int,
    known: Map<u64, GossipNode>,
) -> Result<Map<u64, GossipNode>, Seq<char>>
    decreases file.len() - i,
{
    if i < 0 || i >= file.len() {
        Ok(known)
    } else if file[i].len() == 0 {
        nodes_recorded(file, i + 1, known)
    } else {
        match node_recorded(file[i]) {
            Ok(node) => nodes_recorded(file, i + 1, known.insert(node.server_id, node)),
            Err(e) => Err(e),
        }
    }
}

/// The records that a file holds, or what is wrong with it.
pub open spec fn nodes_in_file(text: Seq<char>) -> Result<Map<u64, GossipNode>, Seq<char>> {
    let file = lines(text);
    if file.len() == 0 {
        Err("missing gossip node header"@)
    } else if file[0] != "N4RGOSSIP1"@ {
        Err("invalid gossip node header"@)
    } else {
        nodes_recorded(file, 1, Map::empty())
    }
}

/// Whether a record is news: nothing is known of the node, or nothing from a later
/// incarnation.
pub open spec fn is_news(nodes: Map<u64, GossipNode>, node: GossipNode) -> bool {
    !nodes.dom().contains(node.server_id) || node.incarnation >= nodes[node.server_id].incarnation
}

/// The records after one was heard.
pub open spec fn after_hearing(nodes: Map<u64, GossipNode>, node: GossipNode) -> Map<
    u64,
    GossipNode,
> {
    if node_problem(node) is None && is_news(nodes, node) {
        nodes.insert(node.server_id, node)
    } else {
        nodes
    }
}

/// The nodes that a server has heard of.
pub struct GossipNodeStore {
    nodes: Table<GossipNodeRecord>,
}

impl GossipNodeStore {
    pub closed spec fn view(&self) -> Map<u64, GossipNode> {
        seen_map(self.nodes@, node_view())
    }

    /// Every record is kept under its server and is as a record should be.
    pub closed spec fn well_formed(&self) -> bool {
        &&& self.nodes.well_formed()
        &&& forall|k: u64| #[trigger]
            self.nodes@.dom().contains(k) ==> self.nodes@[k].server_id == k && node_problem(
                self.nodes@[k]@,
            ) is None
    }

    /// Every record that a store holds is in order, and stands under the server it tells of.
    pub proof fn records_are_valid(&self)
        requires
            self.well_formed(),
        ensures
            forall|k: u64| #[trigger]
                self@.dom().contains(k) ==> self@[k].server_id == k && node_problem(self@[k]) is None,
    {
        assert forall|k: u64| #[trigger] self@.dom().contains(k) implies self@[k].server_id == k
            && node_problem(self@[k]) is None by {
            assert(self.nodes@.dom().contains(k));
        }
    }

    /// A store that has heard of no node.
    pub fn new() -> (r: Self)
        ensures
            r.well_formed(),
            r@ == Map::<u64, GossipNode>::empty(),
    {
        proof {
            lemma_seen_empty(node_view());
        }
        GossipNodeStore { nodes: Table::new() }
    }

    /// Hears a record. It is taken in the place of what was known of the node unless that
    /// comes from a later incarnation; the result says whether it was taken.
    pub fn upsert(&mut self, record: GossipNodeRecord) -> (r: Result<bool, String>)
        requires
            old(self).well_formed(),
        ensures
            final(self).well_formed(),
            final(self)@ == after_hearing(old(self)@, record@),
            match r {
                Ok(accepted) => node_problem(record@) is None && accepted == is_news(
                    old(self)@,
                    record@,
                ),
                Err(e) => node_problem(record@) == Some(e@),
            },
    {
        match validate_gossip_node(&record) {
            Err(e) => return Err(e),
            Ok(()) => {},
        }
        let accepted = match self.nodes.get(record.server_id) {
            Some(known) => record.incarnation >= known.incarnation,
            None => true,
        };
        if accepted {
            proof {
                lemma_seen_insert(self.nodes@, node_view(), record.server_id, record);
            }
            self.nodes.insert(record.server_id, record);
        }
        Ok(accepted)
    }

    /// The records in the order of their servers.
    pub fn list(&self) -> (r: Vec<GossipNodeRecord>)
        requires
            self.well_formed(),
        ensures
            node_views(r@) == values(sorted(self@)),
    {
        let mut r: Vec<GossipNodeRecord> = Vec::new();
        let ghost all = values(seen_entries(self.nodes.entries(), node_view()));
        proof {
            lemma_seen(self.nodes.entries(), node_view());
        }
        let mut i: usize = 0;
        while i < self.nodes.len()
            invariant
                0 <= i <= self.nodes.entries().len(),
                all == values(seen_entries(self.nodes.entries(), node_view())),
                node_views(r@) == all.take(i as int),
            decreases self.nodes.entries().len() - i,
        {
            let node = self.nodes.value_at(i).copy();
            let ghost before = r@;
            r.push(node);
            assert(node_views(r@) =~= node_views(before).push(node@));
            assert(all.take(i + 1) =~= all.take(i as int).push(node@));
            i = i + 1;
        }
        assert(all.take(all.len() as int) =~= all);
        r
    }

    /// Where queries to a node go, if it counts as alive at a time.
    pub fn live_query_address(&self, server_id: u64, now_ms: u64) -> (r: Option<String>)
        requires
            self.well_formed(),
        ensures
            match r {
                Some(a) => self@.dom().contains(server_id) && alive_at(self@[server_id], now_ms)
                    && a@ == self@[server_id].query_address,
                None => !self@.dom().contains(server_id) || !alive_at(self@[server_id], now_ms),
            },
    {
        match self.nodes.get(server_id) {
            Some(node) => if node.is_alive_at(now_ms) {
                Some(node.query_address.clone())
            } else {
                None
            },
            None => None,
        }
    }

    /// The file that keeps the store.
    pub fn encode(&self) -> (r: String)
        requires
            self.well_formed(),
        ensures
            r@ == terminated(node_file(sorted(self@))),
    {
        let ghost entries = seen_entries(self.nodes.entries(), node_view());
        proof {
            lemma_seen(self.nodes.entries(), node_view());
        }
        let ghost all = node_file(entries);
        let mut r = "N4RGOSSIP1".to_owned();
        r.push('\n');
        let mut i: usize = 0;
        proof {
            assert(all.take(1) =~= seq!["N4RGOSSIP1"@]);
            assert(all.take(1).drop_last() =~= Seq::<Seq<char>>::empty());
            reveal_with_fuel(terminated, 2);
            assert(r@ =~= terminated(all.take(1)));
        }
        while i < self.nodes.len()
            invariant
                0 <= i <= self.nodes.entries().len(),
                entries == seen_entries(self.nodes.entries(), node_view()),
                all == node_file(entries),
                r@ == terminated(all.take(i + 1)),
            decreases self.nodes.entries().len() - i,
        {
            let ghost before = r@;
            let ghost next = all.take(i + 2);
            assert(next.drop_last() =~= all.take(i + 1));
            assert(next.last() == node_line(entries[i as int].1));
            let line = encode_gossip_node(self.nodes.value_at(i));
            r.append(line.as_str());
            r.push('\n');
            assert(r@ =~= before + next.last() + seq!['\n']);
            i = i + 1;
        }
        assert(all.take(entries.len() as int + 1) =~= all);
        r
    }

    /// Reads the file that keeps a store.
    pub fn decode(text: &str) -> (r: Result<Self, String>)
        ensures
            match r {
                Ok(store) => store.well_formed() && nodes_in_file(text@) == Ok::<
                    Map<u64, GossipNode>,
                    Seq<char>,
                >(store@),
                Err(e) => nodes_in_file(text@) == Err::<Map<u64, GossipNode>, Seq<char>>(e@),
            },
    {
        let file = lines_of(text);
        let ghost all = lines(text@);
        assert(all.len() == file@.len());
        if file.len() == 0 {
            return Err("missing gossip node header".to_owned());
        }
        assert(all[0] == file@[0]@);
        if !same(file[0].as_str(), "N4RGOSSIP1") {
            return Err("invalid gossip node header".to_owned());
        }
        let mut store = GossipNodeStore::new();
        let mut i: usize = 1;
        while i < file.len()
            invariant
                1 <= i <= file@.len(),
                all == views(file@),
                all == lines(text@),
                all[0] == "N4RGOSSIP1"@,
                store.well_formed(),
                nodes_recorded(all, i as int, store@) == nodes_recorded(all, 1, Map::empty()),
            decreases file@.len() - i,
        {
            assert(all[i as int] == file@[i as int]@);
            let line = file[i].as_str();
            if !line.is_empty() {
                match decode_gossip_node(line) {
                    Ok(record) => {
                        proof {
                            lemma_seen_insert(
                                store.nodes@,
                                node_view(),
                                record.server_id,
                                record,
                            );
                        }
                        store.nodes.insert(record.server_id, record);
                    },
                    Err(e) => return Err(e),
                }
            }
            i = i + 1;
        }
        Ok(store)
    }
}

/// The contents of a list of records.
pub open spec fn node_views(nodes: Seq<GossipNodeRecord>) -> Seq<GossipNode> {
    nodes.map_values(node_view())
}

/// The values of a list of entries.
pub open spec fn values<V>(entries: Seq<(u64, V)>) -> Seq<V> {
    entries.map_values(|e: (u64, V)| e.1)
}

/// What is known of a node can only move to the same or a later incarnation: a record of
/// an earlier one changes nothing.
pub proof fn stale_incarnations_change_nothing(nodes: Map<u64, GossipNode>, node: GossipNode)
    requires
        nodes.dom().contains(node.server_id),
    ensures
        node.incarnation < nodes[node.server_id].incarnation ==> after_hearing(nodes, node) == nodes,
        after_hearing(nodes, node)[node.server_id].incarnation
            >= nodes[node.server_id].incarnation,
        forall|k: u64|
            k != node.server_id && nodes.dom().contains(k) ==> after_hearing(
                nodes,
                node,
            ).dom().contains(k) && #[trigger] after_hearing(nodes, node)[k] == nodes[k],
{
}

proof fn lemma_node_line_reads_back(node: GossipNode)
    requires
        node_problem(node) is None,
    ensures
        node_recorded(node_line(node)) == Ok::<GossipNode, Seq<char>>(node),
        node_line(node).len() > 0,
        !node_line(node).contains('\n'),
        !node_line(node).contains('\r'),
{
    let fields = node_fields(node);
    lemma_clean_number(node.server_id as nat);
    lemma_clean_number(node.incarnation as nat);
    lemma_clean_number(node.ttl_ms as nat);
    lemma_clean_number(node.seen_at_ms as nat);
    number_reads_dec(node.server_id as nat, u64::MAX as nat);
    number_reads_dec(node.incarnation as nat, u64::MAX as nat);
    number_reads_dec(node.ttl_ms as nat, u64::MAX as nat);
    number_reads_dec(node.seen_at_ms as nat, u64::MAX as nat);
    assert forall|i: int| 0 <= i < fields.len() implies is_clean(#[trigger] fields[i]) by {}
    assert forall|i: int| 0 <= i < fields.len() implies !(#[trigger] fields[i]).contains('\t') by {
        assert(is_clean(fields[i]));
    }
    splitting_undoes_joining(fields, '\t');
    crate::peers::lemma_join_is_clean(fields);
}

proof fn lemma_nodes_read_back(nodes: Seq<(u64, GossipNode)>, i: int)
    requires
        0 <= i <= nodes.len(),
        forall|j: int|
            0 <= j < nodes.len() ==> (#[trigger] nodes[j]).1.server_id == nodes[j].0
                && node_problem(nodes[j].1) is None,
    ensures
        nodes_recorded(node_file(nodes), i + 1, as_map(nodes.take(i))) == Ok::<
            Map<u64, GossipNode>,
            Seq<char>,
        >(as_map(nodes)),
    decreases nodes.len() - i,
{
    let file = node_file(nodes);
    if i < nodes.len() {
        assert(file[i + 1] == node_line(nodes[i].1));
        lemma_node_line_reads_back(nodes[i].1);
        assert(nodes.take(i + 1).drop_last() =~= nodes.take(i));
        lemma_nodes_read_back(nodes, i + 1);
    } else {
        assert(nodes.take(i) =~= nodes);
    }
}

/// A store that was written to its file is read back as it was.
pub proof fn nodes_survive_their_file(m: Map<u64, GossipNode>, nodes: Seq<(u64, GossipNode)>)
    requires
        ascending(nodes),
        as_map(nodes) == m,
        forall|k: u64| #[trigger]
            m.dom().contains(k) ==> m[k].server_id == k && node_problem(m[k]) is None,
    ensures
        nodes_in_file(terminated(node_file(sorted(m)))) == Ok::<Map<u64, GossipNode>, Seq<char>>(m),
{
    lemma_sorted(nodes);
    lemma_as_map(nodes);
    let file = node_file(nodes);
    reveal_strlit("N4RGOSSIP1");
    assert forall|i: int| 0 <= i < 10 implies "N4RGOSSIP1"@[i] != '\n' && "N4RGOSSIP1"@[i]
        != '\r' by {
        let s = "N4RGOSSIP1"@;
        assert(s[0] == 'N' && s[1] == '4' && s[2] == 'R' && s[3] == 'G' && s[4] == 'O' && s[5]
            == 'S' && s[6] == 'S' && s[7] == 'I' && s[8] == 'P' && s[9] == '1');
    }
    assert("N4RGOSSIP1"@.len() == 10);
    assert forall|j: int| 0 <= j < nodes.len() implies (#[trigger] nodes[j]).1.server_id
        == nodes[j].0 && node_problem(nodes[j].1) is None by {
        assert(m.dom().contains(nodes[j].0));
    }
    assert forall|i: int| 0 <= i < file.len() implies !(#[trigger] file[i]).contains('\n') && (
    file[i].len() == 0 || file[i].last() != '\r') by {
        if i > 0 {
            assert(file[i] == node_line(nodes[i - 1].1));
            assert(m.dom().contains(nodes[i - 1].0));
            lemma_node_line_reads_back(nodes[i - 1].1);
        } else {
            assert(file[0] == "N4RGOSSIP1"@);
        }
    }
    terminated_lines_read_back(file);
    lemma_nodes_read_back(nodes, 0);
    assert(nodes.take(0) =~= Seq::<(u64, GossipNode)>::empty());
    assert(as_map(nodes.take(0)) =~= Map::empty());
}

/// A node as it is shown.
pub open spec fn node_text(node: GossipNode, now_ms: u64) -> Seq<char> {
    dec(node.server_id as nat) + ":query="@ + node.query_address + ":replication="@
        + node.replication_address + ":incarnation="@ + dec(node.incarnation as nat) + ":ttl_ms="@
        + dec(node.ttl_ms as nat) + ":seen_at_ms="@ + dec(node.seen_at_ms as nat) + ":state="@ + (
    if alive_at(node, now_ms) {
        "alive"@
    } else {
        "expired"@
    })
}

/// Nodes as they are shown, with commas between them.
pub open spec fn nodes_text(nodes: Seq<GossipNode>, now_ms: u64) -> Seq<char> {
    join(nodes.map_values(|n: GossipNode| node_text(n, now_ms)), ","@)
}

fn show_node(node: &GossipNodeRecord, now_ms: u64) -> (s: String)
    ensures
        s@ == node_text(node@, now_ms),
{
    let mut s = show(node.server_id as u128);
    s.append(":query=");
    s.append(node.query_address.as_str());
    s.append(":replication=");
    s.append(node.replication_address.as_str());
    s.append(":incarnation=");
    s.append(show(node.incarnation as u128).as_str());
    s.append(":ttl_ms=");
    s.append(show(node.ttl_ms as u128).as_str());
    s.append(":seen_at_ms=");
    s.append(show(node.seen_at_ms as u128).as_str());
    s.append(":state=");
    s.append(if node.is_alive_at(now_ms) { "alive" } else { "expired" });
    s
}

/// Shows a list of nodes.
pub fn format_gossip_nodes(nodes: &[GossipNodeRecord], now_ms: u64) -> (r: String)
    ensures
        r@ == nodes_text(node_views(nodes@), now_ms),
{
    let mut parts: Vec<String> = Vec::new();
    let ghost shown = node_views(nodes@).map_values(|n: GossipNode| node_text(n, now_ms));
    let mut i: usize = 0;
    while i < nodes.len()
        invariant
            0 <= i <= nodes@.len(),
            shown == node_views(nodes@).map_values(|n: GossipNode| node_text(n, now_ms)),
            views(parts@) == shown.take(i as int),
        decreases nodes@.len() - i,
    {
        let part = show_node(&nodes[i], now_ms);
        proof {
            lemma_views_push(parts@, part);
        }
        parts.push(part);
        assert(node_views(nodes@)[i as int] == nodes@[i as int]@);
        assert(shown.take(i + 1) =~= shown.take(i as int).push(part@));
        i = i + 1;
    }
    assert(shown.take(shown.len() as int) =~= shown);
    join_with(parts.as_slice(), ",")
}

/// Shows the nodes that a store has heard of.
pub fn list_gossip_nodes_from_store(gossip_nodes: &GossipNodeStore, now_ms: u64) -> (r: String)
    requires
        gossip_nodes.well_formed(),
    ensures
        r@ == nodes_text(values(sorted(gossip_nodes@)), now_ms),
{
    let nodes = gossip_nodes.list();
    format_gossip_nodes(nodes.as_slice(), now_ms)
}

/// The addresses for queries after a record was heard.
pub open spec fn addresses_after_hearing(
    nodes: Map<u64, GossipNode>,
    addresses: Map<u64, Seq<char>>,
    node: GossipNode,
) -> Map<u64, Seq<char>> {
    if node_problem(node) is None && is_news(nodes, node) {
        addresses.insert(node.server_id, node.query_address)
    } else {
        addresses
    }
}

/// Hears a record and, where it is news, sends queries to the address that it gives.
pub fn apply_gossip_node_to_stores(
    gossip_nodes: &mut GossipNodeStore,
    query_peers: &mut QueryPeerStore,
    record: GossipNodeRecord,
) -> (r: Result<bool, String>)
    requires
        old(gossip_nodes).well_formed(),
        old(query_peers).well_formed(),
    ensures
        final(gossip_nodes).well_formed(),
        final(query_peers).well_formed(),
        final(gossip_nodes)@ == after_hearing(old(gossip_nodes)@, record@),
        final(query_peers)@ == addresses_after_hearing(
            old(gossip_nodes)@,
            old(query_peers)@,
            record@,
        ),
        match r {
            Ok(accepted) => node_problem(record@) is None && accepted == is_news(
                old(gossip_nodes)@,
                record@,
            ),
            Err(e) => node_problem(record@) == Some(e@),
        },
{
    let server_id = record.server_id;
    let address = record.query_address.clone();
    match gossip_nodes.upsert(record) {
        Ok(accepted) => {
            if accepted {
                query_peers.register(server_id, address);
            }
            Ok(accepted)
        },
        Err(e) => Err(e),
    }
}

/// Where a node stands in the membership of its cluster.
#[derive(Clone, Copy, Debug, PartialEq, Eq, Structural)]
pub enum NodeMembershipState {
    Negotiating,
    Joining,
    Active,
    Draining,
    Leaving,
    Departed,
}

/// A member of the cluster.
#[derive(Clone, Debug, PartialEq, Eq)]
pub struct ClusterMember {
    pub server_id: u64,
    pub address: String,
    pub state: NodeMembershipState,
}

/// Whether others are told of a member: it takes part in the cluster, or is about to or
/// about to stop.
pub open spec fn can_be_gossiped(state: NodeMembershipState) -> bool {
    !(state is Departed)
}

pub fn membership_node_can_be_gossiped(state: NodeMembershipState) -> (r: bool)
    ensures
        r == can_be_gossiped(state),
{
    match state {
        NodeMembershipState::Departed => false,
        _ => true,
    }
}

/// The record that a member of the cluster gives rise to.
pub open spec fn member_node(member: ClusterMember, version: u64, now_ms: u64) -> GossipNode {
    GossipNode {
        server_id: member.server_id,
        query_address: member.address@,
        replication_address: member.address@,
        incarnation: version,
        ttl_ms: GOSSIP_MEMBERSHIP_TTL_MS,
        seen_at_ms: now_ms,
    }
}

/// What hearing of members leaves behind.
pub struct Heard {
    pub nodes: Map<u64, GossipNode>,
    pub addresses: Map<u64, Seq<char>>,
    pub accepted: nat,
    pub problem: Option<Seq<char>>,
}

/// What hearing of the members from the `i`-th on leaves behind; it ends at the first
/// that is not as it should be.
pub open spec fn after_members(
    heard: Heard,
    members: Seq<ClusterMember>,
    i: int,
    version: u64,
    now_ms: u64,
) -> Heard
    decreases members.len() - i,
{
    if i < 0 || i >= members.len() {
        heard
    } else if !can_be_gossiped(members[i].state) || trim(members[i].address@).len() == 0 {
        after_members(heard, members, i + 1, version, now_ms)
    } else {
        let node = member_node(members[i], version, now_ms);
        match node_problem(node) {
            Some(e) => Heard { problem: Some(e), ..heard },
            None => after_members(
                Heard {
                    nodes: after_hearing(heard.nodes, node),
                    addresses: addresses_after_hearing(heard.nodes, heard.addresses, node),
                    accepted: if is_news(heard.nodes, node) {
                        heard.accepted + 1
                    } else {
                        heard.accepted
                    },
                    problem: None,
                },
                members,
                i + 1,
                version,
                now_ms,
            ),
        }
    }
}

/// Hears of the members of the cluster; gives how many records were news.
pub fn refresh_gossip_from_membership(
    members: &[ClusterMember],
    version: u64,
    now_ms: u64,
    gossip_nodes: &mut GossipNodeStore,
    query_peers: &mut QueryPeerStore,
) -> (r: Result<usize, String>)
    requires
        old(gossip_nodes).well_formed(),
        old(query_peers).well_formed(),
    ensures
        final(gossip_nodes).well_formed(),
        final(query_peers).well_formed(),
        ({
            let start = Heard {
                nodes: old(gossip_nodes)@,
                addresses: old(query_peers)@,
                accepted: 0,
                problem: None,
            };
            let end = after_members(start, members@, 0, version, now_ms);
            &&& final(gossip_nodes)@ == end.nodes
            &&& final(query_peers)@ == end.addresses
            &&& match r {
                Ok(n) => end.problem is None && n == end.accepted,
                Err(e) => end.problem == Some(e@),
            }
        }),
{
    let ghost start = Heard {
        nodes: gossip_nodes@,
        addresses: query_peers@,
        accepted: 0,
        problem: None,
    };
    let ghost end = after_members(start, members@, 0, version, now_ms);
    let mut accepted: usize = 0;
    let mut i: usize = 0;
    while i < members.len()
        invariant
            0 <= i <= members@.len(),
            accepted <= i,
            gossip_nodes.well_formed(),
            query_peers.well_formed(),
            start == (Heard {
                nodes: old(gossip_nodes)@,
                addresses: old(query_peers)@,
                accepted: 0,
                problem: None,
            }),
            end == after_members(start, members@, 0, version, now_ms),
            end == after_members(
                Heard {
                    nodes: gossip_nodes@,
                    addresses: query_peers@,
                    accepted: accepted as nat,
                    problem: None,
                },
                members@,
                i as int,
                version,
                now_ms,
            ),
        decreases members@.len() - i,
    {
        let member = &members[i];
        if membership_node_can_be_gossiped(member.state) && !blank(member.address.as_str()) {
            let record = GossipNodeRecord {
                server_id: member.server_id,
                query_address: member.address.clone(),
                replication_address: member.address.clone(),
                incarnation: version,
                ttl_ms: GOSSIP_MEMBERSHIP_TTL_MS,
                seen_at_ms: now_ms,
            };
            assert(record@ == member_node(members@[i as int], version, now_ms));
            match apply_gossip_node_to_stores(gossip_nodes, query_peers, record) {
                Ok(news) => {
                    if news {
                        accepted = accepted + 1;
                    }
                },
                Err(e) => return Err(e),
            }
        }
        i = i + 1;
    }
    Ok(accepted)
}

/// The time of a record: milliseconds, as far as a `u64` holds them.
pub fn gossip_millis(unix_ms: u128) -> (r: u64)
    ensures
        r == (if unix_ms <= u64::MAX {
            unix_ms as int
        } else {
            u64::MAX as int
        }),
{
    if unix_ms <= u64::MAX as u128 {
        unix_ms as u64
    } else {
        u64::MAX
    }
}

} // verus!
