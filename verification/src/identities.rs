//! Who the peers of the replication are, and whether following them leads in a circle.

use vstd::prelude::*;

use crate::peers::{is_clean, lemma_clean_number, lemma_join_is_clean};
use crate::table::{
    as_map, ascending, lemma_as_map, lemma_as_map_finite, lemma_seen, lemma_seen_empty,
    lemma_seen_insert, lemma_seen_remove, lemma_sorted, seen_entries, seen_map, sorted, Table,
};
use crate::gossip::values;
use crate::text::{
    contains_char, dec, join, join_with, lines, lines_of, number, number_reads_dec, read_u64, same,
    show, split, split_on, splitting_undoes_joining, terminated, terminated_lines_read_back, views,
};

verus! {

/// Who a peer of the replication is.
#[derive(Clone, Debug, PartialEq, Eq)]
pub struct ReplicationPeerIdentity {
    pub server_id: u64,
    pub address: String,
    pub node_id: Option<u64>,
    pub transport: String,
    pub cluster_id: String,
    pub database_id: String,
}

/// The contents of an identity.
pub struct Identity {
    pub server_id: u64,
    pub address: Seq<char>,
    pub node_id: Option<u64>,
    pub transport: Seq<char>,
    pub cluster_id: Seq<char>,
    pub database_id: Seq<char>,
}

impl ReplicationPeerIdentity {
    pub open spec fn view(&self) -> Identity {
        Identity {
            server_id: self.server_id,
            address: self.address@,
            node_id: self.node_id,
            transport: self.transport@,
            cluster_id: self.cluster_id@,
            database_id: self.database_id@,
        }
    }

    /// The identity of a peer that is reached over TCP.
    pub fn tcp(
        server_id: u64,
        address: &str,
        node_id: Option<u64>,
        cluster_id: &str,
        database_id: &str,
    ) -> (r: Self)
        ensures
            r@ == (Identity {
                server_id,
                address: address@,
                node_id,
                transport: "tcp"@,
                cluster_id: cluster_id@,
                database_id: database_id@,
            }),
    {
        ReplicationPeerIdentity {
            server_id,
            address: address.to_owned(),
            node_id,
            transport: "tcp".to_owned(),
            cluster_id: cluster_id.to_owned(),
            database_id: database_id.to_owned(),
        }
    }

    /// An identity like this one.
    pub fn copy(&self) -> (r: Self)
        ensures
            r@ == self@,
    {
        ReplicationPeerIdentity {
            server_id: self.server_id,
            address: self.address.clone(),
            node_id: self.node_id,
            transport: self.transport.clone(),
            cluster_id: self.cluster_id.clone(),
            database_id: self.database_id.clone(),
        }
    }
}

pub open spec fn identity_view() -> spec_fn(ReplicationPeerIdentity) -> Identity {
    |i: ReplicationPeerIdentity| i@
}

pub open spec fn is_field(s: Seq<char>) -> bool {
    s.len() > 0 && is_clean(s)
}

/// Whether an identity can be kept.
pub open spec fn is_valid(identity: Identity) -> bool {
    is_field(identity.address) && is_field(identity.transport) && is_field(identity.cluster_id)
        && is_field(identity.database_id)
}

fn field_is_valid(s: &str) -> (r: bool)
    ensures
        r == is_field(s@),
{
    !s.is_empty() && !contains_char(s, '\t') && !contains_char(s, '\n') && !contains_char(s, '\r')
}

/// Checks that an identity can be kept.
pub fn validate_replication_peer_identity_record(identity: &ReplicationPeerIdentity) -> (r: Result<
    (),
    String,
>)
    ensures
        match r {
            Ok(()) => is_valid(identity@),
            Err(e) => !is_valid(identity@) && e@ == "invalid replication peer identity field"@,
        },
{
    if field_is_valid(identity.address.as_str()) && field_is_valid(identity.transport.as_str())
        && field_is_valid(identity.cluster_id.as_str()) && field_is_valid(
        identity.database_id.as_str(),
    ) {
        Ok(())
    } else {
        Err("invalid replication peer identity field".to_owned())
    }
}

pub open spec fn node_id_text(node_id: Option<u64>) -> Seq<char> {
    match node_id {
        Some(n) => dec(n as nat),
        None => "-"@,
    }
}

/// The fields of an identity, as its line in the file has them.
pub open spec fn identity_fields(identity: Identity) -> Seq<Seq<char>> {
    seq![
        dec(identity.server_id as nat),
        identity.address,
        node_id_text(identity.node_id),
        identity.transport,
        identity.cluster_id,
        identity.database_id,
    ]
}

/// The line of an identity in the file.
pub open spec fn identity_line(identity: Identity) -> Seq<char> {
    join(identity_fields(identity), seq!['\t'])
}

/// The identity that a line holds, or what is wrong with the line.
pub open spec fn identity_recorded(line: Seq<char>) -> Result<Identity, Seq<char>> {
    let parts = split(line, '\t');
    if parts.len() != 6 {
        Err("invalid replication peer identity record"@)
    } else {
        match number(parts[0], u64::MAX as nat) {
            None => Err("invalid replication peer identity server id"@),
            Some(server_id) => if parts[2] != "-"@ && number(parts[2], u64::MAX as nat) is None {
                Err("invalid replication peer identity node id"@)
            } else {
                let identity = Identity {
                    server_id: server_id as u64,
                    address: parts[1],
                    node_id: if parts[2] == "-"@ {
                        None
                    } else {
                        Some(number(parts[2], u64::MAX as nat)->0 as u64)
                    },
                    transport: parts[3],
                    cluster_id: parts[4],
                    database_id: parts[5],
                };
                if is_valid(identity) {
                    Ok(identity)
                } else {
                    Err("invalid replication peer identity field"@)
                }
            },
        }
    }
}

/// Reads the line of an identity.
pub fn decode_replication_peer_identity(line: &str) -> (r: Result<ReplicationPeerIdentity, String>)
    ensures
        match r {
            Ok(i) => identity_recorded(line@) == Ok::<Identity, Seq<char>>(i@),
            Err(e) => identity_recorded(line@) == Err::<Identity, Seq<char>>(e@),
        },
{
    let parts = split_on(line, '\t');
    let ghost all = split(line@, '\t');
    assert(all.len() == parts@.len());
    if parts.len() != 6 {
        return Err("invalid replication peer identity record".to_owned());
    }
    assert(forall|i: int| 0 <= i < 6 ==> #[trigger] all[i] == parts@[i]@);
    let server_id = match read_u64(parts[0].as_str()) {
        Some(n) => n,
        None => return Err("invalid replication peer identity server id".to_owned()),
    };
    let node_id: Option<u64> = if same(parts[2].as_str(), "-") {
        None
    } else {
        match read_u64(parts[2].as_str()) {
            Some(n) => Some(n),
            None => return Err("invalid replication peer identity node id".to_owned()),
        }
    };
    let identity = ReplicationPeerIdentity {
        server_id,
        address: parts[1].clone(),
        node_id,
        transport: parts[3].clone(),
        cluster_id: parts[4].clone(),
        database_id: parts[5].clone(),
    };
    match validate_replication_peer_identity_record(&identity) {
        Ok(()) => Ok(identity),
        Err(e) => Err(e),
    }
}

/// Writes the line of an identity.
pub fn encode_replication_peer_identity(identity: &ReplicationPeerIdentity) -> (r: String)
    ensures
        r@ == identity_line(identity@),
{
    let mut fields: Vec<String> = Vec::new();
    fields.push(show(identity.server_id as u128));
    fields.push(identity.address.clone());
    fields.push(
        match identity.node_id {
            Some(n) => show(n as u128),
            None => "-".to_owned(),
        },
    );
    fields.push(identity.transport.clone());
    fields.push(identity.cluster_id.clone());
    fields.push(identity.database_id.clone());
    assert(views(fields@) =~= identity_fields(identity@));
    let r = join_with(fields.as_slice(), "\t");
    proof {
        reveal_strlit("\t");
        assert("\t"@ =~= seq!['\t']);
    }
    r
}

/// The lines of the file of identities.
pub open spec fn identity_file(identities: Seq<(u64, Identity)>) -> Seq<Seq<char>> {
    seq!["N4RREPLPEERS2"@] + identities.map_values(|i: (u64, Identity)| identity_line(i.1))
}

/// The identities after those from the `i`-th line on.
pub open spec fn identities_recorded(
    file: Seq<Seq<char>>,
    i: int,
    known: Map<u64, Identity>,
) -> Result<Map<u64, Identity>, Seq<char>>
    decreases file.len() - i,
{
    if i < 0 || i >= file.len() {
        Ok(known)
    } else if file[i].len() == 0 {
        identities_recorded(file, i + 1, known)
    } else {
        match identity_recorded(file[i]) {
            Ok(identity) => identities_recorded(
                file,
                i + 1,
                known.insert(identity.server_id, identity),
            ),
            Err(e) => Err(e),
        }
    }
}

/// The identities that a file holds, or what is wrong with it.
pub open spec fn identities_in_file(text: Seq<char>) -> Result<Map<u64, Identity>, Seq<char>> {
    let file = lines(text);
    if file.len() == 0 {
        Err("missing replication peer identity header"@)
    } else if file[0] != "N4RREPLPEERS2"@ {
        Err("invalid replication peer identity header"@)
    } else {
        identities_recorded(file, 1, Map::empty())
    }
}

/// The server that is reached from `start` after `n` steps, each from a server to the node
/// that its identity names.
pub open spec fn reached(identities: Map<u64, Identity>, start: u64, n: nat) -> Option<u64>
    decreases n,
{
    if n == 0 {
        Some(start)
    } else {
        match reached(identities, start, (n - 1) as nat) {
            Some(at) => if identities.dom().contains(at) {
                identities[at].node_id
            } else {
                None
            },
            None => None,
        }
    }
}

/// Whether the way from `start` comes back: to the server, or to a node that it has
/// passed.
pub open spec fn comes_back(identities: Map<u64, Identity>, server_id: u64, start: u64) -> bool {
    ||| exists|n: nat| #[trigger] reached(identities, start, n) == Some(server_id)
    ||| exists|n: nat, m: nat|
        n < m && #[trigger] reached(identities, start, n) is Some && #[trigger] reached(
            identities,
            start,
            m,
        ) == reached(identities, start, n)
}

/// Whether a server with that node would close a circle. A server that is its own node
/// closes none.
pub open spec fn closes_circle(
    identities: Map<u64, Identity>,
    server_id: u64,
    node_id: Option<u64>,
) -> bool {
    match node_id {
        None => false,
        Some(start) => start != server_id && comes_back(identities, server_id, start),
    }
}

proof fn lemma_way_ends(identities: Map<u64, Identity>, start: u64, n: nat, m: nat)
    requires
        reached(identities, start, n) is None,
        n <= m,
    ensures
        reached(identities, start, m) is None,
    decreases m,
{
    if n < m {
        lemma_way_ends(identities, start, n, (m - 1) as nat);
    }
}

/// The identities of the peers of the replication.
pub struct ReplicationPeerIdentityStore {
    identities: Table<ReplicationPeerIdentity>,
}

impl ReplicationPeerIdentityStore {
    pub closed spec fn view(&self) -> Map<u64, Identity> {
        seen_map(self.identities@, identity_view())
    }

    /// Every identity is kept under its server and can be kept.
    pub closed spec fn well_formed(&self) -> bool {
        &&& self.identities.well_formed()
        &&& forall|k: u64| #[trigger]
            self.identities@.dom().contains(k) ==> self.identities@[k].server_id == k && is_valid(
                self.identities@[k]@,
            )
    }

    /// A store without an identity.
    pub fn new() -> (r: Self)
        ensures
            r.well_formed(),
            r@ == Map::<u64, Identity>::empty(),
    {
        proof {
            lemma_seen_empty(identity_view());
        }
        ReplicationPeerIdentityStore { identities: Table::new() }
    }

    /// Keeps an identity, in the place of the one of that server before.
    pub fn register(&mut self, identity: ReplicationPeerIdentity) -> (r: Result<(), String>)
        requires
            old(self).well_formed(),
        ensures
            final(self).well_formed(),
            match r {
                Ok(()) => is_valid(identity@) && final(self)@ == old(self)@.insert(
                    identity.server_id,
                    identity@,
                ),
                Err(e) => !is_valid(identity@) && final(self)@ == old(self)@ && e@
                    == "invalid replication peer identity field"@,
            },
    {
        match validate_replication_peer_identity_record(&identity) {
            Err(e) => return Err(e),
            Ok(()) => {},
        }
        proof {
            lemma_seen_insert(self.identities@, identity_view(), identity.server_id, identity);
        }
        self.identities.insert(identity.server_id, identity);
        Ok(())
    }

    /// Forgets the identity of a server.
    pub fn unregister(&mut self, server_id: u64)
        requires
            old(self).well_formed(),
        ensures
            final(self).well_formed(),
            final(self)@ == old(self)@.remove(server_id),
    {
        proof {
            lemma_seen_remove(self.identities@, identity_view(), server_id);
        }
        let _ = self.identities.remove(server_id);
    }

    /// The identities in the order of their servers.
    pub fn list(&self) -> (r: Vec<ReplicationPeerIdentity>)
        requires
            self.well_formed(),
        ensures
            r@.map_values(identity_view()) == values(sorted(self@)),
    {
        let mut r: Vec<ReplicationPeerIdentity> = Vec::new();
        let ghost all = values(seen_entries(self.identities.entries(), identity_view()));
        proof {
            lemma_seen(self.identities.entries(), identity_view());
        }
        let mut i: usize = 0;
        while i < self.identities.len()
            invariant
                0 <= i <= self.identities.entries().len(),
                all == values(seen_entries(self.identities.entries(), identity_view())),
                r@.map_values(identity_view()) == all.take(i as int),
            decreases self.identities.entries().len() - i,
        {
            let identity = self.identities.value_at(i).copy();
            let ghost before = r@;
            r.push(identity);
            assert(r@.map_values(identity_view()) =~= before.map_values(identity_view()).push(
                identity@,
            ));
            assert(all.take(i + 1) =~= all.take(i as int).push(identity@));
            i = i + 1;
        }
        assert(all.take(all.len() as int) =~= all);
        r
    }

    /// The identity of a server.
    pub fn get(&self, server_id: u64) -> (r: Option<ReplicationPeerIdentity>)
        requires
            self.well_formed(),
        ensures
            match r {
                Some(i) => self@.dom().contains(server_id) && self@[server_id] == i@,
                None => !self@.dom().contains(server_id),
            },
    {
        match self.identities.get(server_id) {
            Some(i) => Some(i.copy()),
            None => None,
        }
    }

    /// Whether a server with that node would close a circle.
    pub fn would_create_cycle(&self, server_id: u64, node_id: Option<u64>) -> (r: bool)
        requires
            self.well_formed(),
        ensures
            r == closes_circle(self@, server_id, node_id),
    {
        let start = match node_id {
            Some(n) => n,
            None => return false,
        };
        if start == server_id {
            return false;
        }
        let ghost ids = self@;
        proof {
            lemma_as_map_finite(self.identities.entries());
            assert(ids.dom() =~= self.identities@.dom());
        }
        let mut passed: Vec<u64> = Vec::new();
        let mut at = start;
        let ghost mut visited = Set::<u64>::empty();
        loop
            invariant
                self.well_formed(),
                ids == self@,
                ids.dom() == self.identities@.dom(),
                ids.dom().finite(),
                start != server_id,
                node_id == Some(start),
                reached(ids, start, passed@.len()) == Some(at),
                visited.finite(),
                visited.len() == passed@.len(),
                visited.subset_of(ids.dom()),
                forall|i: int|
                    0 <= i < passed@.len() ==> reached(ids, start, i as nat) == Some(
                        #[trigger] passed@[i],
                    ),
                forall|i: int| 0 <= i < passed@.len() ==> (#[trigger] passed@[i]) != server_id,
                forall|v: u64| visited.contains(v) <==> passed@.contains(v),
                forall|i: int, j: int|
                    0 <= i < j < passed@.len() ==> (#[trigger] passed@[i]) != (
                    #[trigger] passed@[j]),
            decreases ids.dom().len() - passed@.len(),
        {
            let ghost n = passed@.len();
            if at == server_id {
                return true;
            }
            let mut i: usize = 0;
            while i < passed.len()
                invariant
                    0 <= i <= passed@.len(),
                    ids == self@,
                    n == passed@.len(),
                    start != server_id,
                    node_id == Some(start),
                    reached(ids, start, n) == Some(at),
                    forall|i: int|
                        0 <= i < passed@.len() ==> reached(ids, start, i as nat) == Some(
                            #[trigger] passed@[i],
                        ),
                    forall|j: int| 0 <= j < i ==> (#[trigger] passed@[j]) != at,
                decreases passed@.len() - i,
            {
                if passed[i] == at {
                    assert(reached(ids, start, i as nat) == Some(passed@[i as int]));
                    assert(reached(ids, start, n) == reached(ids, start, i as nat));
                    return true;
                }
                i = i + 1;
            }
            assert(!visited.contains(at));
            let next = match self.identities.get(at) {
                Some(identity) => identity.node_id,
                None => None,
            };
            assert(reached(ids, start, n + 1) == next) by {
                if self.identities@.dom().contains(at) {
                    assert(ids[at].node_id == self.identities@[at].node_id);
                }
            }
            let ghost before = passed@;
            passed.push(at);
            assert forall|v: u64| visited.insert(at).contains(v) <==> passed@.contains(v) by {
                if before.contains(v) {
                    let j = before.index_of(v);
                    assert(passed@[j] == v);
                }
                if v == at {
                    assert(passed@[n as int] == at);
                }
            }
            match next {
                Some(k) => {
                    proof {
                        visited = visited.insert(at);
                        vstd::set_lib::lemma_len_subset(visited, ids.dom());
                    }
                    at = k;
                },
                None => {
                    proof {
                        assert forall|m: nat| #[trigger] reached(ids, start, m) != Some(
                            server_id,
                        ) by {
                            if m <= n {
                                assert(reached(ids, start, m) == Some(passed@[m as int]));
                            } else {
                                lemma_way_ends(ids, start, n + 1, m);
                            }
                        }
                        assert forall|a: nat, b: nat|
                            a < b && #[trigger] reached(ids, start, a) is Some implies #[trigger] reached(
                            ids,
                            start,
                            b,
                        ) != reached(ids, start, a) by {
                            if b > n {
                                lemma_way_ends(ids, start, n + 1, b);
                            } else {
                                assert(reached(ids, start, a) == Some(passed@[a as int]));
                                assert(reached(ids, start, b) == Some(passed@[b as int]));
                            }
                        }
                    }
                    return false;
                },
            }
        }
    }

    /// The file that keeps the store.
    pub fn encode(&self) -> (r: String)
        requires
            self.well_formed(),
        ensures
            r@ == terminated(identity_file(sorted(self@))),
    {
        let ghost entries = seen_entries(self.identities.entries(), identity_view());
        proof {
            lemma_seen(self.identities.entries(), identity_view());
        }
        let ghost all = identity_file(entries);
        let mut r = "N4RREPLPEERS2".to_owned();
        r.push('\n');
        let mut i: usize = 0;
        proof {
            assert(all.take(1) =~= seq!["N4RREPLPEERS2"@]);
            assert(all.take(1).drop_last() =~= Seq::<Seq<char>>::empty());
            reveal_with_fuel(terminated, 2);
            assert(r@ =~= terminated(all.take(1)));
        }
        while i < self.identities.len()
            invariant
                0 <= i <= self.identities.entries().len(),
                entries == seen_entries(self.identities.entries(), identity_view()),
                all == identity_file(entries),
                r@ == terminated(all.take(i + 1)),
            decreases self.identities.entries().len() - i,
        {
            let ghost before = r@;
            let ghost next = all.take(i + 2);
            assert(next.drop_last() =~= all.take(i + 1));
            assert(next.last() == identity_line(entries[i as int].1));
            let line = encode_replication_peer_identity(self.identities.value_at(i));
            r.append(line.as_str());
            r.push('\n');
            assert(r@ =~= before + next.last() + seq!['\n']);
            i = i + 1;
        }
        assert(all.take(entries.len() as int + 1) =~= all);
        r
    }

    /// Reads the file that keeps a store.
    pub fn decode(text: &str) -> (r: Result<Self, String>)
        ensures
            match r {
                Ok(store) => store.well_formed() && identities_in_file(text@) == Ok::<
                    Map<u64, Identity>,
                    Seq<char>,
                >(store@),
                Err(e) => identities_in_file(text@) == Err::<Map<u64, Identity>, Seq<char>>(e@),
            },
    {
        let file = lines_of(text);
        let ghost all = lines(text@);
        assert(all.len() == file@.len());
        if file.len() == 0 {
            return Err("missing replication peer identity header".to_owned());
        }
        assert(all[0] == file@[0]@);
        if !same(file[0].as_str(), "N4RREPLPEERS2") {
            return Err("invalid replication peer identity header".to_owned());
        }
        let mut store = ReplicationPeerIdentityStore::new();
        let mut i: usize = 1;
        while i < file.len()
            invariant
                1 <= i <= file@.len(),
                all == views(file@),
                all == lines(text@),
                all[0] == "N4RREPLPEERS2"@,
                store.well_formed(),
                identities_recorded(all, i as int, store@) == identities_recorded(
                    all,
                    1,
                    Map::empty(),
                ),
            decreases file@.len() - i,
        {
            assert(all[i as int] == file@[i as int]@);
            let line = file[i].as_str();
            if !line.is_empty() {
                match decode_replication_peer_identity(line) {
                    Ok(identity) => {
                        proof {
                            lemma_seen_insert(
                                store.identities@,
                                identity_view(),
                                identity.server_id,
                                identity,
                            );
                        }
                        store.identities.insert(identity.server_id, identity);
                    },
                    Err(e) => return Err(e),
                }
            }
            i = i + 1;
        }
        Ok(store)
    }
}

proof fn lemma_identity_line_reads_back(identity: Identity)
    requires
        is_valid(identity),
    ensures
        identity_recorded(identity_line(identity)) == Ok::<Identity, Seq<char>>(identity),
        identity_line(identity).len() > 0,
        !identity_line(identity).contains('\n'),
        !identity_line(identity).contains('\r'),
{
    let fields = identity_fields(identity);
    lemma_clean_number(identity.server_id as nat);
    number_reads_dec(identity.server_id as nat, u64::MAX as nat);
    reveal_strlit("-");
    assert("-"@ =~= seq!['-']);
    assert("-"@.contains('-')) by {
        assert("-"@[0] == '-');
    }
    assert(is_clean("-"@));
    if let Some(n) = identity.node_id {
        lemma_clean_number(n as nat);
        number_reads_dec(n as nat, u64::MAX as nat);
        assert(dec(n as nat) != "-"@);
    }
    assert forall|i: int| 0 <= i < fields.len() implies is_clean(#[trigger] fields[i]) by {}
    assert forall|i: int| 0 <= i < fields.len() implies !(#[trigger] fields[i]).contains('\t') by {
        assert(is_clean(fields[i]));
    }
    splitting_undoes_joining(fields, '\t');
    lemma_join_is_clean(fields);
}

proof fn lemma_identities_read_back(identities: Seq<(u64, Identity)>, i: int)
    requires
        0 <= i <= identities.len(),
        forall|j: int|
            0 <= j < identities.len() ==> (#[trigger] identities[j]).1.server_id == identities[j].0
                && is_valid(identities[j].1),
    ensures
        identities_recorded(identity_file(identities), i + 1, as_map(identities.take(i))) == Ok::<
            Map<u64, Identity>,
            Seq<char>,
        >(as_map(identities)),
    decreases identities.len() - i,
{
    let file = identity_file(identities);
    if i < identities.len() {
        assert(file[i + 1] == identity_line(identities[i].1));
        lemma_identity_line_reads_back(identities[i].1);
        assert(identities.take(i + 1).drop_last() =~= identities.take(i));
        lemma_identities_read_back(identities, i + 1);
    } else {
        assert(identities.take(i) =~= identities);
    }
}

/// A store that was written to its file is read back as it was.
pub proof fn identities_survive_their_file(
    m: Map<u64, Identity>,
    identities: Seq<(u64, Identity)>,
)
    requires
        ascending(identities),
        as_map(identities) == m,
        forall|k: u64| #[trigger] m.dom().contains(k) ==> m[k].server_id == k && is_valid(m[k]),
    ensures
        identities_in_file(terminated(identity_file(sorted(m)))) == Ok::<
            Map<u64, Identity>,
            Seq<char>,
        >(m),
{
    lemma_sorted(identities);
    lemma_as_map(identities);
    let file = identity_file(identities);
    reveal_strlit("N4RREPLPEERS2");
    assert("N4RREPLPEERS2"@.len() == 13);
    assert forall|i: int| 0 <= i < 13 implies "N4RREPLPEERS2"@[i] != '\n' && "N4RREPLPEERS2"@[i]
        != '\r' by {
        let s = "N4RREPLPEERS2"@;
        assert(s[0] == 'N' && s[1] == '4' && s[2] == 'R' && s[3] == 'R' && s[4] == 'E' && s[5]
            == 'P' && s[6] == 'L' && s[7] == 'P' && s[8] == 'E' && s[9] == 'E' && s[10] == 'R'
            && s[11] == 'S' && s[12] == '2');
    }
    assert forall|j: int| 0 <= j < identities.len() implies (#[trigger] identities[j]).1.server_id
        == identities[j].0 && is_valid(identities[j].1) by {
        assert(m.dom().contains(identities[j].0));
    }
    assert forall|i: int| 0 <= i < file.len() implies !(#[trigger] file[i]).contains('\n') && (
    file[i].len() == 0 || file[i].last() != '\r') by {
        if i > 0 {
            assert(file[i] == identity_line(identities[i - 1].1));
            assert(m.dom().contains(identities[i - 1].0));
            lemma_identity_line_reads_back(identities[i - 1].1);
        } else {
            assert(file[0] == "N4RREPLPEERS2"@);
        }
    }
    terminated_lines_read_back(file);
    lemma_identities_read_back(identities, 0);
    assert(identities.take(0) =~= Seq::<(u64, Identity)>::empty());
    assert(as_map(identities.take(0)) =~= Map::empty());
}

} // verus!
