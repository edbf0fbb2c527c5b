//! The peers that a server knows: where queries and replication go, and what is known
//! of them from gossip. Each store is kept in a file of lines.

use vstd::prelude::*;

use crate::table::{
    as_map, ascending, lemma_as_map, lemma_seen, lemma_seen_empty, lemma_seen_insert,
    lemma_seen_remove, seen_entries, seen_map, sorted, Table,
};
use crate::text::{
    contains_char, dec, dec_is_digits, is_digit, join, join_with, lemma_split_once_at_char,
    lemma_views_push, lines, lines_of, number, number_reads_dec, read_u64, same, show, split_first,
    split_once, terminated, terminated_lines_read_back, views,
};

verus! {

/// Whether a text can stand in a field of a record: it holds none of the characters
/// that end a field or a record.
pub open spec fn is_clean(s: Seq<char>) -> bool {
    !s.contains('\t') && !s.contains('\n') && !s.contains('\r')
}

fn clean(s: &str) -> (r: bool)
    ensures
        r == is_clean(s@),
{
    !contains_char(s, '\t') && !contains_char(s, '\n') && !contains_char(s, '\r')
}

pub open spec fn text_view() -> spec_fn(String) -> Seq<char> {
    |s: String| s@
}

/// The contents of a list of addresses.
pub open spec fn address_views(list: Seq<(u64, String)>) -> Seq<(u64, Seq<char>)> {
    seen_entries(list, text_view())
}

/// Addresses by the server that has them.
pub struct QueryPeerStore {
    peers: Table<String>,
}

/// A record of the file of addresses.
pub open spec fn peer_line(peer: (u64, Seq<char>)) -> Seq<char> {
    dec(peer.0 as nat) + "\t"@ + peer.1
}

/// The lines of the file of addresses.
pub open spec fn peer_file(peers: Seq<(u64, Seq<char>)>) -> Seq<Seq<char>> {
    seq!["N4RPEERS1"@] + peers.map_values(|p: (u64, Seq<char>)| peer_line(p))
}

/// The address that a record holds, or what is wrong with the record.
pub open spec fn peer_recorded(line: Seq<char>) -> Result<(u64, Seq<char>), Seq<char>> {
    match split_once(line, "\t"@) {
        None => Err("invalid peer record"@),
        Some((id, address)) => if !is_clean(address) {
            Err("invalid peer address"@)
        } else {
            match number(id, u64::MAX as nat) {
                None => Err("invalid peer server id"@),
                Some(n) => Ok((n as u64, address)),
            }
        },
    }
}

/// The addresses after the records from the `i`-th line on; a later record of a server
/// takes the place of an earlier one.
pub open spec fn peers_recorded(
    file: Seq<Seq<char>>,
    i: int,
    known: Map<u64, Seq<char>>,
) -> Result<Map<u64, Seq<char>>, Seq<char>>
    decreases file.len() - i,
{
    if i < 0 || i >= file.len() {
        Ok(known)
    } else if file[i].len() == 0 {
        peers_recorded(file, i + 1, known)
    } else {
        match peer_recorded(file[i]) {
            Ok((id, address)) => peers_recorded(file, i + 1, known.insert(id, address)),
            Err(e) => Err(e),
        }
    }
}

/// The addresses that a file holds, or what is wrong with it.
pub open spec fn peers_in_file(text: Seq<char>) -> Result<Map<u64, Seq<char>>, Seq<char>> {
    let file = lines(text);
    if file.len() == 0 {
        Err("missing peer store header"@)
    } else if file[0] != "N4RPEERS1"@ {
        Err("invalid peer store header"@)
    } else {
        peers_recorded(file, 1, Map::empty())
    }
}

impl QueryPeerStore {
    pub closed spec fn view(&self) -> Map<u64, Seq<char>> {
        seen_map(self.peers@, text_view())
    }

    pub closed spec fn well_formed(&self) -> bool {
        self.peers.well_formed()
    }

    /// The addresses in the order of their servers are what the store holds.
    pub proof fn lemma_sorted_entries(&self)
        requires
            self.well_formed(),
        ensures
            ascending(sorted(self@)),
            as_map(sorted(self@)) == self@,
    {
        lemma_seen(self.peers.entries(), text_view());
    }

    /// A store that knows no address.
    pub fn new() -> (r: Self)
        ensures
            r.well_formed(),
            r@ == Map::<u64, Seq<char>>::empty(),
    {
        proof {
            lemma_seen_empty(text_view());
        }
        QueryPeerStore { peers: Table::new() }
    }

    /// Notes the address of a server, in the place of the one noted before.
    pub fn register(&mut self, server_id: u64, address: String)
        requires
            old(self).well_formed(),
        ensures
            final(self).well_formed(),
            final(self)@ == old(self)@.insert(server_id, address@),
    {
        proof {
            lemma_seen_insert(self.peers@, text_view(), server_id, address);
        }
        self.peers.insert(server_id, address);
    }

    /// Forgets the address of a server.
    pub fn unregister(&mut self, server_id: u64)
        requires
            old(self).well_formed(),
        ensures
            final(self).well_formed(),
            final(self)@ == old(self)@.remove(server_id),
    {
        proof {
            lemma_seen_remove(self.peers@, text_view(), server_id);
        }
        let _ = self.peers.remove(server_id);
    }

    /// The addresses in the order of their servers.
    pub fn list(&self) -> (r: Vec<(u64, String)>)
        requires
            self.well_formed(),
        ensures
            address_views(r@) == sorted(self@),
    {
        let mut r: Vec<(u64, String)> = Vec::new();
        let ghost all = seen_entries(self.peers.entries(), text_view());
        proof {
            lemma_seen(self.peers.entries(), text_view());
        }
        let mut i: usize = 0;
        while i < self.peers.len()
            invariant
                0 <= i <= self.peers.entries().len(),
                all == seen_entries(self.peers.entries(), text_view()),
                address_views(r@) == all.take(i as int),
            decreases self.peers.entries().len() - i,
        {
            let k = self.peers.key_at(i);
            let v = self.peers.value_at(i).clone();
            let ghost before = r@;
            r.push((k, v));
            assert(address_views(r@) =~= address_views(before).push((k, v@)));
            assert(all.take(i + 1) =~= all.take(i as int).push((k, v@)));
            i = i + 1;
        }
        assert(all.take(all.len() as int) =~= all);
        r
    }

    /// The address of a server.
    pub fn address(&self, server_id: u64) -> (r: Option<String>)
        requires
            self.well_formed(),
        ensures
            match r {
                Some(a) => self@.dom().contains(server_id) && self@[server_id] == a@,
                None => !self@.dom().contains(server_id),
            },
    {
        match self.peers.get(server_id) {
            Some(a) => Some(a.clone()),
            None => None,
        }
    }

    /// The file that keeps the store.
    pub fn encode(&self) -> (r: String)
        requires
            self.well_formed(),
        ensures
            r@ == terminated(peer_file(sorted(self@))),
    {
        let list = self.list();
        let ghost all = peer_file(sorted(self@));
        let mut r = "N4RPEERS1".to_owned();
        r.push('\n');
        let mut i: usize = 0;
        proof {
            assert(all.take(1) =~= seq!["N4RPEERS1"@]);
            assert(all.take(1).drop_last() =~= Seq::<Seq<char>>::empty());
            reveal_with_fuel(terminated, 2);
            assert(r@ =~= terminated(all.take(1)));
        }
        while i < list.len()
            invariant
                0 <= i <= list@.len(),
                address_views(list@) == sorted(self@),
                all == peer_file(sorted(self@)),
                r@ == terminated(all.take(i + 1)),
            decreases list@.len() - i,
        {
            let ghost before = r@;
            let ghost next = all.take(i + 2);
            assert(next.drop_last() =~= all.take(i + 1));
            assert(next.last() == peer_line(sorted(self@)[i as int]));
            assert(sorted(self@)[i as int] == (list@[i as int].0, list@[i as int].1@));
            r.append(show(list[i].0 as u128).as_str());
            r.append("\t");
            r.append(list[i].1.as_str());
            r.push('\n');
            assert(r@ =~= before + next.last() + seq!['\n']);
            i = i + 1;
        }
        assert(all.take(list@.len() as int + 1) =~= all);
        r
    }

    /// Reads the file that keeps a store.
    pub fn decode(text: &str) -> (r: Result<Self, String>)
        ensures
            match r {
                Ok(store) => store.well_formed() && peers_in_file(text@) == Ok::<
                    Map<u64, Seq<char>>,
                    Seq<char>,
                >(store@),
                Err(e) => peers_in_file(text@) == Err::<Map<u64, Seq<char>>, Seq<char>>(e@),
            },
    {
        let file = lines_of(text);
        let ghost all = lines(text@);
        assert(all.len() == file@.len());
        if file.len() == 0 {
            return Err("missing peer store header".to_owned());
        }
        assert(all[0] == file@[0]@);
        if !same(file[0].as_str(), "N4RPEERS1") {
            return Err("invalid peer store header".to_owned());
        }
        let mut store = QueryPeerStore::new();
        let mut i: usize = 1;
        while i < file.len()
            invariant
                1 <= i <= file@.len(),
                all == views(file@),
                all == lines(text@),
                all[0] == "N4RPEERS1"@,
                store.well_formed(),
                peers_recorded(all, i as int, store@) == peers_recorded(all, 1, Map::empty()),
            decreases file@.len() - i,
        {
            assert(all[i as int] == file@[i as int]@);
            let line = file[i].as_str();
            if !line.is_empty() {
                match split_first(line, "\t") {
                    None => return Err("invalid peer record".to_owned()),
                    Some((id, address)) => {
                        if !clean(address.as_str()) {
                            return Err("invalid peer address".to_owned());
                        }
                        match read_u64(id.as_str()) {
                            None => return Err("invalid peer server id".to_owned()),
                            Some(n) => store.register(n, address),
                        }
                    },
                }
            }
            i = i + 1;
        }
        Ok(store)
    }
}

pub proof fn lemma_clean_number(n: nat)
    ensures
        dec(n).len() > 0,
        is_clean(dec(n)),
        !dec(n).contains('-'),
{
    dec_is_digits(n);
    assert forall|i: int| 0 <= i < dec(n).len() implies dec(n)[i] != '\t' && dec(n)[i] != '\n'
        && dec(n)[i] != '\r' && dec(n)[i] != '-' by {
        assert(is_digit(dec(n)[i]));
    }
}

/// Fields that can stand in a record, joined by tabs, hold no line feed and no carriage
/// return.
pub proof fn lemma_join_is_clean(fields: Seq<Seq<char>>)
    requires
        forall|i: int| 0 <= i < fields.len() ==> is_clean(#[trigger] fields[i]),
    ensures
        !join(fields, seq!['\t']).contains('\n'),
        !join(fields, seq!['\t']).contains('\r'),
        fields.len() > 0 && fields[0].len() > 0 ==> join(fields, seq!['\t']).len() > 0,
    decreases fields.len(),
{
    let s = join(fields, seq!['\t']);
    if fields.len() == 1 {
        assert(is_clean(fields[0]));
    } else if fields.len() > 1 {
        let rest = fields.drop_last();
        assert forall|i: int| 0 <= i < rest.len() implies is_clean(#[trigger] rest[i]) by {
            assert(rest[i] == fields[i]);
        }
        lemma_join_is_clean(rest);
        let before = join(rest, seq!['\t']);
        let last = fields[fields.len() - 1];
        assert(is_clean(last));
        assert forall|i: int| 0 <= i < s.len() implies s[i] != '\n' && s[i] != '\r' by {
            if i < before.len() {
                assert(s[i] == before[i]);
            } else if i == before.len() {
                assert(s[i] == '\t');
            } else {
                assert(s[i] == last[i - before.len() - 1]);
            }
        }
    }
}

proof fn lemma_peer_line_reads_back(peer: (u64, Seq<char>))
    requires
        is_clean(peer.1),
    ensures
        peer_recorded(peer_line(peer)) == Ok::<(u64, Seq<char>), Seq<char>>(peer),
        peer_line(peer).len() > 0,
        !peer_line(peer).contains('\n'),
        peer_line(peer).last() != '\r',
{
    let id = dec(peer.0 as nat);
    let line = peer_line(peer);
    lemma_clean_number(peer.0 as nat);
    number_reads_dec(peer.0 as nat, u64::MAX as nat);
    reveal_strlit("\t");
    assert("\t"@ =~= seq!['\t']);
    lemma_split_once_at_char(id, peer.1, '\t');
    assert forall|i: int| 0 <= i < line.len() implies line[i] != '\n' && line[i] != '\r' by {
        if i < id.len() {
            assert(line[i] == id[i]);
        } else if i == id.len() {
            assert(line[i] == '\t');
        } else {
            assert(line[i] == peer.1[i - id.len() - 1]);
        }
    }
}

proof fn lemma_peers_read_back(peers: Seq<(u64, Seq<char>)>, i: int)
    requires
        0 <= i <= peers.len(),
        forall|j: int| 0 <= j < peers.len() ==> is_clean((#[trigger] peers[j]).1),
    ensures
        peers_recorded(peer_file(peers), i + 1, as_map(peers.take(i))) == Ok::<
            Map<u64, Seq<char>>,
            Seq<char>,
        >(as_map(peers)),
    decreases peers.len() - i,
{
    let file = peer_file(peers);
    if i < peers.len() {
        assert(file[i + 1] == peer_line(peers[i]));
        lemma_peer_line_reads_back(peers[i]);
        assert(peers.take(i + 1).drop_last() =~= peers.take(i));
        lemma_peers_read_back(peers, i + 1);
    } else {
        assert(peers.take(i) =~= peers);
    }
}

/// A store that was written to its file is read back as it was, where no address holds
/// a tab, a line feed or a carriage return.
pub proof fn peers_survive_their_file(m: Map<u64, Seq<char>>, peers: Seq<(u64, Seq<char>)>)
    requires
        ascending(peers),
        as_map(peers) == m,
        forall|k: u64| #[trigger] m.dom().contains(k) ==> is_clean(m[k]),
    ensures
        peers_in_file(terminated(peer_file(sorted(m)))) == Ok::<Map<u64, Seq<char>>, Seq<char>>(m),
{
    crate::table::lemma_sorted(peers);
    lemma_as_map(peers);
    let file = peer_file(peers);
    reveal_strlit("N4RPEERS1");
    assert("N4RPEERS1"@.len() == 9);
    assert forall|i: int| 0 <= i < 9 implies "N4RPEERS1"@[i] != '\n' && "N4RPEERS1"@[i] != '\r' by {
        let s = "N4RPEERS1"@;
        assert(s[0] == 'N' && s[1] == '4' && s[2] == 'R' && s[3] == 'P' && s[4] == 'E' && s[5]
            == 'E' && s[6] == 'R' && s[7] == 'S' && s[8] == '1');
    }
    assert forall|i: int| 0 <= i < file.len() implies !(#[trigger] file[i]).contains('\n') && (
    file[i].len() == 0 || file[i].last() != '\r') by {
        if i > 0 {
            assert(file[i] == peer_line(peers[i - 1]));
            assert(m.dom().contains(peers[i - 1].0));
            lemma_peer_line_reads_back(peers[i - 1]);
        } else {
            assert(file[0] == "N4RPEERS1"@);
        }
    }
    terminated_lines_read_back(file);
    assert forall|j: int| 0 <= j < peers.len() implies is_clean((#[trigger] peers[j]).1) by {
        assert(m.dom().contains(peers[j].0));
    }
    lemma_peers_read_back(peers, 0);
    assert(peers.take(0) =~= Seq::<(u64, Seq<char>)>::empty());
    assert(as_map(peers.take(0)) =~= Map::empty());
}

/// Peers as they are shown: `SERVER_ID=ADDR`, with commas between them.
pub open spec fn peers_text(peers: Seq<(u64, Seq<char>)>) -> Seq<char> {
    join(
        peers.map_values(|p: (u64, Seq<char>)| dec(p.0 as nat) + "="@ + p.1),
        ","@,
    )
}

/// Shows a list of peers.
pub fn format_query_peers(peers: &[(u64, String)]) -> (r: String)
    ensures
        r@ == peers_text(address_views(peers@)),
{
    let mut parts: Vec<String> = Vec::new();
    let ghost shown = address_views(peers@).map_values(
        |p: (u64, Seq<char>)| dec(p.0 as nat) + "="@ + p.1,
    );
    let mut i: usize = 0;
    while i < peers.len()
        invariant
            0 <= i <= peers@.len(),
            shown == address_views(peers@).map_values(
                |p: (u64, Seq<char>)| dec(p.0 as nat) + "="@ + p.1,
            ),
            views(parts@) == shown.take(i as int),
        decreases peers@.len() - i,
    {
        let part = crate::text::cat3(
            show(peers[i].0 as u128).as_str(),
            "=",
            peers[i].1.as_str(),
        );
        proof {
            lemma_views_push(parts@, part);
        }
        parts.push(part);
        assert(address_views(peers@)[i as int] == (peers@[i as int].0, peers@[i as int].1@));
        assert(shown.take(i + 1) =~= shown.take(i as int).push(part@));
        i = i + 1;
    }
    assert(shown.take(shown.len() as int) =~= shown);
    join_with(parts.as_slice(), ",")
}

} // verus!
