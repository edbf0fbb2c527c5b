//! How a routing table is described and made.

use vstd::prelude::*;

use crate::args::{number_of, peers_of};
use crate::laws::texts::{is_one_word, white_space_parts_the_words};
use crate::model::{primary_of, Placement, ShardReplica, ShardRole};
use crate::options::{ServerOption, Setting};
use crate::routing::{
    after_word, after_words, by_shard, cluster_routing, field_number, first_gap, insert_placement,
    line_placement, metadata_primary, names_server, placed, replica_numbers, routing_requested,
    LineState,
};
use crate::text::{
    dec, dec_is_digits, is_digit, is_white, join, lemma_split_once_at_char, number_reads_dec, split,
    split_once, splitting_undoes_joining, words,
};

verus! {

/// Numbers in decimal.
pub open spec fn decimals(s: Seq<u64>) -> Seq<Seq<char>> {
    s.map_values(|n: u64| dec(n as nat))
}

/// A line that describes where a shard lies.
pub open spec fn described(shard_id: u64, primary: u64, replicas: Seq<u64>) -> Seq<char> {
    "shard="@ + dec(shard_id as nat) + seq![' '] + ("primary="@ + dec(primary as nat)) + seq![' ']
        + ("replicas="@ + join(decimals(replicas), seq![',']))
}

/// Whether servers can hold the copies of a shard.
pub open spec fn can_hold(primary: u64, replicas: Seq<u64>) -> bool {
    &&& primary != 0
    &&& forall|i: int| 0 <= i < replicas.len() ==> #[trigger] replicas[i] != 0 && replicas[i]
        != primary
    &&& forall|i: int, j: int|
        0 <= i < j < replicas.len() ==> #[trigger] replicas[i] != #[trigger] replicas[j]
}

/// The copies of a shard: the primary first, and then the replicas.
pub open spec fn copies(primary: u64, replicas: Seq<u64>) -> Seq<ShardReplica> {
    seq![ShardReplica { server_id: primary, role: ShardRole::Primary }] + replicas.map_values(
        |id: u64| ShardReplica { server_id: id, role: ShardRole::Replica },
    )
}

proof fn lemma_decimal(n: u64)
    ensures
        is_one_word(dec(n as nat)),
        !dec(n as nat).contains(','),
        !dec(n as nat).contains('='),
        forall|field: Seq<char>, line_no: int| #[trigger]
            field_number(dec(n as nat), field, line_no) == Ok::<u64, Seq<char>>(n),
{
    let s = dec(n as nat);
    dec_is_digits(n as nat);
    number_reads_dec(n as nat, u64::MAX as nat);
    assert forall|i: int| 0 <= i < s.len() implies !is_white(#[trigger] s[i]) && s[i] != ','
        && s[i] != '=' by {
        assert(is_digit(s[i]));
    }
}

proof fn lemma_numbers(replicas: Seq<u64>, i: int, line_no: int)
    requires
        0 <= i <= replicas.len(),
    ensures
        replica_numbers(decimals(replicas), i, line_no) == Ok::<Seq<u64>, Seq<char>>(
            replicas.skip(i),
        ),
    decreases replicas.len() - i,
{
    let pieces = decimals(replicas);
    if i < replicas.len() {
        assert(pieces[i] == dec(replicas[i] as nat));
        lemma_decimal(replicas[i]);
        assert(field_number(pieces[i], "replica"@, line_no) == Ok::<u64, Seq<char>>(replicas[i]));
        lemma_numbers(replicas, i + 1, line_no);
        assert(seq![replicas[i]] + replicas.skip(i + 1) =~= replicas.skip(i));
    } else {
        assert(replicas.skip(i) =~= Seq::<u64>::empty());
    }
}

proof fn lemma_placed(primary: u64, replicas: Seq<u64>, i: int, line_no: int)
    requires
        can_hold(primary, replicas),
        0 <= i <= replicas.len(),
    ensures
        placed(copies(primary, replicas.take(i)), replicas, i, line_no) == Ok::<
            Seq<ShardReplica>,
            Seq<char>,
        >(copies(primary, replicas)),
    decreases replicas.len() - i,
{
    let known = copies(primary, replicas.take(i));
    if i < replicas.len() {
        assert(replicas[i] != 0);
        assert(!names_server(known, replicas[i])) by {
            if names_server(known, replicas[i]) {
                let k = choose|k: int|
                    0 <= k < known.len() && (#[trigger] known[k]).server_id == replicas[i];
                if k > 0 {
                    assert(known[k].server_id == replicas[k - 1]);
                    assert(replicas[k - 1] != replicas[i]);
                }
            }
        }
        assert(known.push(ShardReplica { server_id: replicas[i], role: ShardRole::Replica })
            =~= copies(primary, replicas.take(i + 1)));
        lemma_placed(primary, replicas, i + 1, line_no);
    } else {
        assert(replicas.take(i) =~= replicas);
    }
}

proof fn lemma_list(replicas: Seq<u64>)
    requires
        replicas.len() > 0,
    ensures
        is_one_word(join(decimals(replicas), seq![','])),
        split(join(decimals(replicas), seq![',']), ',') == decimals(replicas),
    decreases replicas.len(),
{
    let pieces = decimals(replicas);
    assert forall|i: int| 0 <= i < pieces.len() implies !(#[trigger] pieces[i]).contains(',') by {
        lemma_decimal(replicas[i]);
    }
    splitting_undoes_joining(pieces, ',');
    lemma_decimal(replicas.last());
    if replicas.len() == 1 {
        assert(pieces[0] == dec(replicas[0] as nat));
    } else {
        lemma_list(replicas.drop_last());
        assert(pieces.drop_last() =~= decimals(replicas.drop_last()));
        assert(pieces.last() == dec(replicas.last() as nat));
    }
}

proof fn lemma_word(key: Seq<char>, value: Seq<char>)
    requires
        !key.contains('='),
    ensures
        split_once(key + "="@ + value, "="@) == Some((key, value)),
{
    reveal_strlit("=");
    assert("="@ =~= seq!['=']);
    lemma_split_once_at_char(key, value, '=');
}

proof fn lemma_keys()
    ensures
        "shard="@ == "shard"@ + "="@,
        "primary="@ == "primary"@ + "="@,
        "replicas="@ == "replicas"@ + "="@,
        !"shard"@.contains('='),
        !"primary"@.contains('='),
        !"replicas"@.contains('='),
        "shard"@ != "primary"@,
        "shard"@ != "replicas"@,
        "primary"@ != "replicas"@,
        is_one_word("shard="@),
        is_one_word("primary="@),
        is_one_word("replicas="@),
{
    reveal_strlit("=");
    reveal_strlit("shard");
    reveal_strlit("primary");
    reveal_strlit("replicas");
    reveal_strlit("shard=");
    reveal_strlit("primary=");
    reveal_strlit("replicas=");
    assert("shard="@ =~= "shard"@ + "="@);
    assert("primary="@ =~= "primary"@ + "="@);
    assert("replicas="@ =~= "replicas"@ + "="@);
    assert("shard"@.len() == 5 && "primary"@.len() == 7 && "replicas"@.len() == 8);
}

proof fn lemma_one_word(a: Seq<char>, b: Seq<char>)
    requires
        is_one_word(a),
        is_one_word(b),
    ensures
        is_one_word(a + b),
{
}

/// A line that describes where a shard lies is read as it was written: the primary first, and then
/// the replicas, in order.
pub proof fn described_shards_lie_where_the_line_says(
    shard_id: u64,
    primary: u64,
    replicas: Seq<u64>,
    line_no: int,
)
    requires
        can_hold(primary, replicas),
        replicas.len() > 0,
    ensures
        line_placement(described(shard_id, primary, replicas), line_no) == Ok::<_, Seq<char>>(
            Placement { shard_id, replicas: copies(primary, replicas) },
        ),
{
    lemma_keys();
    lemma_decimal(shard_id);
    lemma_decimal(primary);
    lemma_list(replicas);
    let list = join(decimals(replicas), seq![',']);
    let a = "shard="@ + dec(shard_id as nat);
    let b = "primary="@ + dec(primary as nat);
    let c = "replicas="@ + list;
    lemma_one_word("shard="@, dec(shard_id as nat));
    lemma_one_word("primary="@, dec(primary as nat));
    lemma_one_word("replicas="@, list);
    let line = described(shard_id, primary, replicas);
    white_space_parts_the_words(a, ' ', b, a);
    white_space_parts_the_words(a, ' ', b, b);
    white_space_parts_the_words(a + seq![' '] + b, ' ', c, c);
    assert(line =~= a + seq![' '] + b + seq![' '] + c);
    assert(words(line) =~= seq![a, b, c]);
    assert(a =~= "shard"@ + "="@ + dec(shard_id as nat));
    assert(b =~= "primary"@ + "="@ + dec(primary as nat));
    assert(c =~= "replicas"@ + "="@ + list);
    lemma_word("shard"@, dec(shard_id as nat));
    lemma_word("primary"@, dec(primary as nat));
    lemma_word("replicas"@, list);
    assert(field_number(dec(shard_id as nat), "shard"@, line_no) == Ok::<u64, Seq<char>>(shard_id));
    assert(field_number(dec(primary as nat), "primary"@, line_no) == Ok::<u64, Seq<char>>(primary));
    lemma_numbers(replicas, 0, line_no);
    assert(replicas.skip(0) =~= replicas);
    let s0 = LineState { shard: None, primary: None, replicas: Seq::<u64>::empty() };
    let s1 = LineState { shard: Some(shard_id), ..s0 };
    let s2 = LineState { primary: Some(primary), ..s1 };
    let s3 = LineState { replicas, ..s2 };
    assert(after_word(s0, a, line_no) == Ok::<_, Seq<char>>(s1));
    assert(after_word(s1, b, line_no) == Ok::<_, Seq<char>>(s2));
    assert(after_word(s2, c, line_no) == Ok::<_, Seq<char>>(s3));
    let w = seq![a, b, c];
    assert(after_words(s3, w, 3, line_no) == Ok::<_, Seq<char>>(s3));
    assert(after_words(s2, w, 2, line_no) == Ok::<_, Seq<char>>(s3));
    assert(after_words(s1, w, 1, line_no) == Ok::<_, Seq<char>>(s3));
    assert(after_words(s0, w, 0, line_no) == Ok::<_, Seq<char>>(s3));
    lemma_placed(primary, replicas, 0, line_no);
    assert(copies(primary, replicas.take(0)) =~= seq![
        ShardReplica { server_id: primary, role: ShardRole::Primary },
    ]);
}

/// A shard that is described without a primary, or with one of number zero, lies nowhere.
pub proof fn shards_without_a_primary_are_refused(
    state: LineState,
    line: Seq<char>,
    line_no: int,
)
    requires
        after_words(
            (LineState { shard: None, primary: None, replicas: Seq::<u64>::empty() }),
            words(line),
            0,
            line_no,
        ) == Ok::<_, Seq<char>>(state),
        state.shard is None || state.primary is None || state.primary == Some(0u64),
    ensures
        line_placement(line, line_no) is Err,
{
}

/// Whether placements are in the order of their shards.
pub open spec fn in_order_of_shards(s: Seq<Placement>) -> bool {
    forall|i: int, j: int|
        0 <= i <= j < s.len() ==> (#[trigger] s[i]).shard_id <= (#[trigger] s[j]).shard_id
}

/// Whether no shard has a number above another one.
pub open spec fn no_shard_above(s: Seq<Placement>, bound: u64) -> bool {
    forall|i: int| 0 <= i < s.len() ==> (#[trigger] s[i]).shard_id <= bound
}

proof fn lemma_insert(s: Seq<Placement>, p: Placement)
    requires
        in_order_of_shards(s),
    ensures
        in_order_of_shards(insert_placement(s, p)),
        insert_placement(s, p).len() == s.len() + 1,
        forall|x: Placement| #[trigger]
            insert_placement(s, p).contains(x) <==> s.contains(x) || x == p,
        forall|bound: u64|
            no_shard_above(s, bound) && p.shard_id <= bound ==> #[trigger] no_shard_above(
                insert_placement(s, p),
                bound,
            ),
    decreases s.len(),
{
    let r = insert_placement(s, p);
    if s.len() == 0 || s.last().shard_id <= p.shard_id {
        assert forall|x: Placement| #[trigger] r.contains(x) <==> s.contains(x) || x == p by {
            if s.contains(x) {
                let k = choose|k: int| 0 <= k < s.len() && s[k] == x;
                assert(r[k] == x);
            }
            if x == p {
                assert(r[s.len() as int] == x);
            }
            if r.contains(x) {
                let k = choose|k: int| 0 <= k < r.len() && r[k] == x;
                if k < s.len() {
                    assert(s[k] == x);
                }
            }
        }
        assert forall|i: int, j: int| 0 <= i <= j < r.len() implies (#[trigger] r[i]).shard_id <= (
        #[trigger] r[j]).shard_id by {
            if j == s.len() && i < s.len() {
                assert(s[i].shard_id <= s[s.len() - 1].shard_id);
            } else if j < s.len() {
                assert(r[i] == s[i] && r[j] == s[j]);
            }
        }
    } else {
        let front = s.drop_last();
        assert(in_order_of_shards(front)) by {
            assert forall|i: int, j: int| 0 <= i <= j < front.len() implies (
            #[trigger] front[i]).shard_id <= (#[trigger] front[j]).shard_id by {
                assert(front[i] == s[i] && front[j] == s[j]);
            }
        }
        lemma_insert(front, p);
        let q = insert_placement(front, p);
        let top = s.last().shard_id;
        assert forall|i: int| 0 <= i < front.len() implies (#[trigger] front[i]).shard_id <= top by {
            assert(front[i] == s[i]);
            assert(s[i].shard_id <= s[s.len() - 1].shard_id);
        }
        assert(no_shard_above(q, top));
        assert forall|i: int, j: int| 0 <= i <= j < r.len() implies (#[trigger] r[i]).shard_id <= (
        #[trigger] r[j]).shard_id by {
            if j < q.len() {
                assert(r[i] == q[i] && r[j] == q[j]);
            } else if i < q.len() {
                assert(r[i] == q[i]);
            }
        }
        assert forall|x: Placement| #[trigger] r.contains(x) <==> s.contains(x) || x == p by {
            if r.contains(x) {
                let k = choose|k: int| 0 <= k < r.len() && r[k] == x;
                if k < q.len() {
                    assert(q[k] == x);
                    assert(q.contains(x));
                    if front.contains(x) {
                        let m = choose|m: int| 0 <= m < front.len() && front[m] == x;
                        assert(s[m] == x);
                    }
                } else {
                    assert(s[s.len() - 1] == x);
                }
            }
            if s.contains(x) {
                let k = choose|k: int| 0 <= k < s.len() && s[k] == x;
                if k < front.len() {
                    assert(front[k] == x);
                    assert(front.contains(x));
                    assert(q.contains(x));
                    let m = choose|m: int| 0 <= m < q.len() && q[m] == x;
                    assert(r[m] == x);
                } else {
                    assert(r[r.len() - 1] == x);
                }
            }
            if x == p {
                assert(q.contains(x));
                let m = choose|m: int| 0 <= m < q.len() && q[m] == x;
                assert(r[m] == x);
            }
        }
        assert forall|bound: u64|
            no_shard_above(s, bound) && p.shard_id <= bound implies #[trigger] no_shard_above(
            r,
            bound,
        ) by {
            assert forall|i: int| 0 <= i < front.len() implies (#[trigger] front[i]).shard_id
                <= bound by {
                assert(front[i] == s[i]);
            }
            assert(no_shard_above(q, bound));
            assert forall|i: int| 0 <= i < r.len() implies (#[trigger] r[i]).shard_id <= bound by {
                if i < q.len() {
                    assert(r[i] == q[i]);
                } else {
                    assert(r[i] == s[s.len() - 1]);
                }
            }
        }
    }
}

/// The placements of a table are in the order of their shards, and none is lost or added.
pub proof fn tables_are_in_the_order_of_shards(placements: Seq<Placement>, x: Placement)
    ensures
        in_order_of_shards(by_shard(placements)),
        by_shard(placements).len() == placements.len(),
        by_shard(placements).contains(x) <==> placements.contains(x),
    decreases placements.len(),
{
    if placements.len() > 0 {
        let front = placements.drop_last();
        tables_are_in_the_order_of_shards(front, x);
        lemma_insert(by_shard(front), placements.last());
        if placements.contains(x) {
            let k = choose|k: int| 0 <= k < placements.len() && placements[k] == x;
            if k < front.len() {
                assert(front[k] == x);
                assert(front.contains(x));
            }
        }
        if front.contains(x) {
            let k = choose|k: int| 0 <= k < front.len() && front[k] == x;
            assert(placements[k] == x);
        }
        assert(placements[placements.len() - 1] == placements.last());
    }
}

/// A table has no gap if and only if each shard stands at the place of its number.
pub proof fn tables_without_a_gap_count_from_zero(placements: Seq<Placement>, i: int)
    requires
        0 <= i,
    ensures
        first_gap(placements, i) is None <==> forall|k: int|
            i <= k < placements.len() ==> (#[trigger] placements[k]).shard_id == k,
        first_gap(placements, i) matches Some(at) ==> i <= at < placements.len()
            && placements[at].shard_id != at,
    decreases placements.len() - i,
{
    if i < placements.len() {
        tables_without_a_gap_count_from_zero(placements, i + 1);
    }
}

/// The copies of the shards of a cluster: the primary leads, each peer holds a copy, in order, and
/// so does the local server, where it is none of these.
pub proof fn clusters_hold_copies_everywhere(
    shards: nat,
    primary: u64,
    local: u64,
    peers: Seq<(u64, Seq<char>)>,
    s: int,
    i: int,
)
    requires
        0 <= s < shards,
    ensures
        ({
            let table = cluster_routing(shards, primary, local, peers);
            let held = table.placements[s].replicas;
            &&& table.version == 1
            &&& table.placements.len() == shards
            &&& held[0] == (ShardReplica { server_id: primary, role: ShardRole::Primary })
            &&& 0 <= i < peers.len() ==> held[i + 1] == (ShardReplica {
                server_id: peers[i].0,
                role: ShardRole::Replica,
            })
            &&& held.len() == peers.len() + 1 || (held.len() == peers.len() + 2 && held.last() == (
            ShardReplica { server_id: local, role: ShardRole::Replica }) && local != primary
                && forall|k: int| 0 <= k < peers.len() ==> (#[trigger] peers[k]).0 != local)
            &&& local != primary && (forall|k: int|
                0 <= k < peers.len() ==> (#[trigger] peers[k]).0 != local) ==> held.len()
                == peers.len() + 2
        }),
{
    let named = seq![ShardReplica { server_id: primary, role: ShardRole::Primary }]
        + peers.map_values(
        |p: (u64, Seq<char>)| ShardReplica { server_id: p.0, role: ShardRole::Replica },
    );
    if local != primary && !names_server(named, local) {
        assert forall|k: int| 0 <= k < peers.len() implies (#[trigger] peers[k]).0 != local by {
            assert(named[k + 1].server_id == peers[k].0);
        }
    }
    if local != primary && (forall|k: int| 0 <= k < peers.len() ==> (#[trigger] peers[k]).0 != local) {
        if names_server(named, local) {
            let k = choose|k: int| 0 <= k < named.len() && (#[trigger] named[k]).server_id == local;
            if k > 0 {
                assert(named[k].server_id == peers[k - 1].0);
            }
        }
    }
}

/// A table is made where the server does not lead, has peers, or listens for replication.
pub proof fn tables_are_made_for_clusters(m: Map<ServerOption, Setting>)
    ensures
        routing_requested(m) <==> number_of(m, ServerOption::PrimaryServerId) != number_of(
            m,
            ServerOption::ServerId,
        ) || peers_of(m, ServerOption::ReplicaPeer).len() > 0 || m.dom().contains(
            ServerOption::ReplicationBind,
        ),
{
}

/// The metadata are kept by the primary of the first shard.
pub proof fn first_shard_keeps_the_metadata(placements: Seq<Placement>, i: int)
    ensures
        0 <= i < placements.len() && placements[i].shard_id == 0 && (forall|k: int|
            0 <= k < i ==> (#[trigger] placements[k]).shard_id != 0) ==> metadata_primary(placements)
            == primary_of(placements[i].replicas),
        (forall|k: int| 0 <= k < placements.len() ==> (#[trigger] placements[k]).shard_id != 0)
            ==> metadata_primary(placements) is None,
    decreases placements.len(),
{
    if placements.len() > 0 {
        let rest = placements.skip(1);
        first_shard_keeps_the_metadata(rest, i - 1);
        assert forall|k: int| 0 <= k < rest.len() implies #[trigger] rest[k] == placements[k + 1] by {}
        if 0 < i < placements.len() {
            assert(rest[i - 1] == placements[i]);
            assert forall|k: int|
                0 <= k < i - 1 && (forall|k2: int|
                    0 <= k2 < i ==> (#[trigger] placements[k2]).shard_id != 0) implies (
            #[trigger] rest[k]).shard_id != 0 by {
                assert(placements[k + 1].shard_id != 0);
            }
        }
        if forall|k: int| 0 <= k < placements.len() ==> (#[trigger] placements[k]).shard_id != 0 {
            assert forall|k: int| 0 <= k < rest.len() implies (#[trigger] rest[k]).shard_id != 0 by {
                assert(placements[k + 1].shard_id != 0);
            }
        }
    }
}

} // verus!
