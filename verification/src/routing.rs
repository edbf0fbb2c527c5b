//! Routing tables: reading them from a file, and the table that a cluster has when no
//! file says otherwise.

use vstd::prelude::*;

use crate::args::{number_of, peers_of, ServerArgs};
use crate::config::{plain_line, plain_line_of};
use crate::model::{
    placement_views, primary_of, Placement, Routing, ShardPlacement, ShardReplica, ShardRole,
    ShardRoutingTable,
};
use crate::options::{peer_views, ReplicaPeer, ServerOption, Setting};
use crate::text::{
    begins, cat3, debug_text, dec, lines, lines_of, number, quoted, read_u64, same, show, split,
    split_first, split_on, split_once, strip_prefix, views, words, words_of,
};

verus! {

/// A complaint about a line of a routing file.
pub open spec fn routing_complaint(line_no: int, what: Seq<char>) -> Seq<char> {
    "routing line "@ + dec(line_no as nat) + what
}

fn complain(line_no: usize, what: &str) -> (r: String)
    ensures
        r@ == routing_complaint(line_no as int, what@),
{
    cat3("routing line ", show(line_no as u128).as_str(), what)
}

/// The number of a field on a line of a routing file.
pub open spec fn field_number(value: Seq<char>, field: Seq<char>, line_no: int) -> Result<
    u64,
    Seq<char>,
> {
    match number(value, u64::MAX as nat) {
        Some(n) => Ok(n as u64),
        None => Err(routing_complaint(line_no, " has invalid "@ + field)),
    }
}

/// Reads the number of a field on a line of a routing file.
pub fn parse_config_u64(value: &str, field: &str, line_no: usize) -> (r: Result<u64, String>)
    ensures
        match r {
            Ok(n) => field_number(value@, field@, line_no as int) == Ok::<u64, Seq<char>>(n),
            Err(e) => field_number(value@, field@, line_no as int) == Err::<u64, Seq<char>>(e@),
        },
{
    match read_u64(value) {
        Some(n) => Ok(n),
        None => Err(complain(line_no, crate::text::cat(" has invalid ", field).as_str())),
    }
}

/// The numbers of a list that commas separate; empty pieces are passed over.
pub open spec fn replica_numbers(pieces: Seq<Seq<char>>, i: int, line_no: int) -> Result<
    Seq<u64>,
    Seq<char>,
>
    decreases pieces.len() - i,
{
    if i < 0 || i >= pieces.len() {
        Ok(Seq::<u64>::empty())
    } else if pieces[i].len() == 0 {
        replica_numbers(pieces, i + 1, line_no)
    } else {
        match field_number(pieces[i], "replica"@, line_no) {
            Err(e) => Err(e),
            Ok(n) => numbers_after(seq![n], replica_numbers(pieces, i + 1, line_no)),
        }
    }
}

pub open spec fn numbers_after(first: Seq<u64>, rest: Result<Seq<u64>, Seq<char>>) -> Result<
    Seq<u64>,
    Seq<char>,
> {
    match rest {
        Ok(more) => Ok(first + more),
        Err(e) => Err(e),
    }
}

fn read_replicas(value: &str, line_no: usize) -> (r: Result<Vec<u64>, String>)
    ensures
        match r {
            Ok(v) => replica_numbers(split(value@, ','), 0, line_no as int) == Ok::<
                Seq<u64>,
                Seq<char>,
            >(v@),
            Err(e) => replica_numbers(split(value@, ','), 0, line_no as int) == Err::<
                Seq<u64>,
                Seq<char>,
            >(e@),
        },
{
    let pieces = split_on(value, ',');
    let ghost all = split(value@, ',');
    let ghost whole = replica_numbers(all, 0, line_no as int);
    let mut out: Vec<u64> = Vec::new();
    let mut i: usize = 0;
    assert(numbers_after(out@, whole) == whole) by {
        if let Ok(more) = whole {
            assert(out@ + more =~= more);
        }
    }
    while i < pieces.len()
        invariant
            0 <= i <= pieces@.len(),
            all == views(pieces@),
            all == split(value@, ','),
            whole == replica_numbers(all, 0, line_no as int),
            numbers_after(out@, replica_numbers(all, i as int, line_no as int)) == whole,
        decreases pieces@.len() - i,
    {
        assert(all[i as int] == pieces@[i as int]@);
        if !pieces[i].as_str().is_empty() {
            match parse_config_u64(pieces[i].as_str(), "replica", line_no) {
                Err(e) => return Err(e),
                Ok(n) => {
                    proof {
                        if let Ok(more) = replica_numbers(all, i + 1, line_no as int) {
                            assert(out@ + (seq![n] + more) =~= out@.push(n) + more);
                        }
                    }
                    out.push(n);
                },
            }
        }
        i = i + 1;
    }
    assert(out@ + Seq::<u64>::empty() =~= out@);
    Ok(out)
}

/// What the words of a line have said so far.
pub struct LineState {
    pub shard: Option<u64>,
    pub primary: Option<u64>,
    pub replicas: Seq<u64>,
}

/// What is known of a line after one more word of it.
pub open spec fn after_word(state: LineState, word: Seq<char>, line_no: int) -> Result<
    LineState,
    Seq<char>,
> {
    match split_once(word, "="@) {
        None => Err(routing_complaint(line_no, " token must be key=value"@)),
        Some((key, value)) => if key == "shard"@ {
            match field_number(value, "shard"@, line_no) {
                Ok(n) => Ok(LineState { shard: Some(n), ..state }),
                Err(e) => Err(e),
            }
        } else if key == "primary"@ {
            match field_number(value, "primary"@, line_no) {
                Ok(n) => Ok(LineState { primary: Some(n), ..state }),
                Err(e) => Err(e),
            }
        } else if key == "replicas"@ {
            if value.len() == 0 {
                Ok(state)
            } else {
                match replica_numbers(split(value, ','), 0, line_no) {
                    Ok(replicas) => Ok(LineState { replicas, ..state }),
                    Err(e) => Err(e),
                }
            }
        } else {
            Err(routing_complaint(line_no, " has unknown key "@ + debug_text(key)))
        },
    }
}

/// What is known of a line after its words from the `i`-th on.
pub open spec fn after_words(
    state: LineState,
    line: Seq<Seq<char>>,
    i: int,
    line_no: int,
) -> Result<LineState, Seq<char>>
    decreases line.len() - i,
{
    if i < 0 || i >= line.len() {
        Ok(state)
    } else {
        match after_word(state, line[i], line_no) {
            Ok(next) => after_words(next, line, i + 1, line_no),
            Err(e) => Err(e),
        }
    }
}

/// The replicas of a shard: those named before, and the ones from the `i`-th on that
/// are not among them.
pub open spec fn placed(
    known: Seq<ShardReplica>,
    replicas: Seq<u64>,
    i: int,
    line_no: int,
) -> Result<Seq<ShardReplica>, Seq<char>>
    decreases replicas.len() - i,
{
    if i < 0 || i >= replicas.len() {
        Ok(known)
    } else if replicas[i] == 0 {
        Err(routing_complaint(line_no, " replica must be greater than zero"@))
    } else if names_server(known, replicas[i]) {
        placed(known, replicas, i + 1, line_no)
    } else {
        placed(
            known.push(ShardReplica { server_id: replicas[i], role: ShardRole::Replica }),
            replicas,
            i + 1,
            line_no,
        )
    }
}

/// Whether a server is among the replicas.
pub open spec fn names_server(replicas: Seq<ShardReplica>, server_id: u64) -> bool {
    exists|i: int| 0 <= i < replicas.len() && (#[trigger] replicas[i]).server_id == server_id
}

/// The placement that a line describes.
pub open spec fn line_placement(line: Seq<char>, line_no: int) -> Result<Placement, Seq<char>> {
    let start = LineState { shard: None, primary: None, replicas: Seq::<u64>::empty() };
    match after_words(start, words(line), 0, line_no) {
        Err(e) => Err(e),
        Ok(state) => match (state.shard, state.primary) {
            (None, _) => Err(routing_complaint(line_no, " missing shard"@)),
            (_, None) => Err(routing_complaint(line_no, " missing primary"@)),
            (Some(shard_id), Some(primary)) => if primary == 0 {
                Err(routing_complaint(line_no, " primary must be greater than zero"@))
            } else {
                match placed(
                    seq![ShardReplica { server_id: primary, role: ShardRole::Primary }],
                    state.replicas,
                    0,
                    line_no,
                ) {
                    Ok(replicas) => Ok(Placement { shard_id, replicas }),
                    Err(e) => Err(e),
                }
            },
        },
    }
}

fn has_server(replicas: &Vec<ShardReplica>, server_id: u64) -> (r: bool)
    ensures
        r == names_server(replicas@, server_id),
{
    let mut i: usize = 0;
    while i < replicas.len()
        invariant
            0 <= i <= replicas@.len(),
            forall|j: int| 0 <= j < i ==> (#[trigger] replicas@[j]).server_id != server_id,
        decreases replicas@.len() - i,
    {
        if replicas[i].server_id == server_id {
            return true;
        }
        i = i + 1;
    }
    false
}

fn read_placement(line: &str, line_no: usize) -> (r: Result<ShardPlacement, String>)
    ensures
        match r {
            Ok(p) => line_placement(line@, line_no as int) == Ok::<Placement, Seq<char>>(p@),
            Err(e) => line_placement(line@, line_no as int) == Err::<Placement, Seq<char>>(e@),
        },
{
    let parts = words_of(line);
    let ghost all = words(line@);
    let mut shard: Option<u64> = None;
    let mut primary: Option<u64> = None;
    let mut replicas: Vec<u64> = Vec::new();
    let ghost start = LineState { shard: None, primary: None, replicas: Seq::<u64>::empty() };
    let mut i: usize = 0;
    assert(replicas@ =~= Seq::<u64>::empty());
    while i < parts.len()
        invariant
            0 <= i <= parts@.len(),
            all == views(parts@),
            all == words(line@),
            start == (LineState { shard: None, primary: None, replicas: Seq::<u64>::empty() }),
            after_words(
                LineState { shard, primary, replicas: replicas@ },
                all,
                i as int,
                line_no as int,
            ) == after_words(start, all, 0, line_no as int),
        decreases parts@.len() - i,
    {
        let ghost state = LineState { shard, primary, replicas: replicas@ };
        let word = parts[i].as_str();
        assert(all[i as int] == word@);
        match split_first(word, "=") {
            None => return Err(complain(line_no, " token must be key=value")),
            Some((key, value)) => {
                if same(key.as_str(), "shard") {
                    match parse_config_u64(value.as_str(), "shard", line_no) {
                        Ok(n) => shard = Some(n),
                        Err(e) => return Err(e),
                    }
                } else if same(key.as_str(), "primary") {
                    match parse_config_u64(value.as_str(), "primary", line_no) {
                        Ok(n) => primary = Some(n),
                        Err(e) => return Err(e),
                    }
                } else if same(key.as_str(), "replicas") {
                    if !value.as_str().is_empty() {
                        match read_replicas(value.as_str(), line_no) {
                            Ok(v) => replicas = v,
                            Err(e) => return Err(e),
                        }
                    }
                } else {
                    let what = crate::text::cat(
                        " has unknown key ",
                        quoted(key.as_str()).as_str(),
                    );
                    return Err(complain(line_no, what.as_str()));
                }
            },
        }
        i = i + 1;
    }
    let shard_id = match shard {
        Some(n) => n,
        None => return Err(complain(line_no, " missing shard")),
    };
    let primary_id = match primary {
        Some(n) => n,
        None => return Err(complain(line_no, " missing primary")),
    };
    if primary_id == 0 {
        return Err(complain(line_no, " primary must be greater than zero"));
    }
    let mut servers: Vec<ShardReplica> = Vec::new();
    servers.push(ShardReplica::primary(primary_id));
    let ghost first = servers@;
    assert(first =~= seq![ShardReplica { server_id: primary_id, role: ShardRole::Primary }]);
    let mut j: usize = 0;
    while j < replicas.len()
        invariant
            0 <= j <= replicas@.len(),
            placed(servers@, replicas@, j as int, line_no as int) == placed(
                first,
                replicas@,
                0,
                line_no as int,
            ),
            all == words(line@),
            start == (LineState { shard: None, primary: None, replicas: Seq::<u64>::empty() }),
            first == seq![ShardReplica { server_id: primary_id, role: ShardRole::Primary }],
            primary_id != 0,
            after_words(start, all, 0, line_no as int) == Ok::<LineState, Seq<char>>(
                LineState {
                    shard: Some(shard_id),
                    primary: Some(primary_id),
                    replicas: replicas@,
                },
            ),
        decreases replicas@.len() - j,
    {
        if replicas[j] == 0 {
            return Err(complain(line_no, " replica must be greater than zero"));
        }
        if !has_server(&servers, replicas[j]) {
            servers.push(ShardReplica::replica(replicas[j]));
        }
        j = j + 1;
    }
    Ok(ShardPlacement::new(shard_id, servers))
}

/// What the lines of a routing file have said so far.
pub struct FileState {
    pub version: Option<u64>,
    pub placements: Seq<Placement>,
}

/// What is known of a routing file after its lines from the `i`-th on.
pub open spec fn after_lines(state: FileState, file: Seq<Seq<char>>, i: int) -> Result<
    FileState,
    Seq<char>,
>
    decreases file.len() - i,
{
    if i < 0 || i >= file.len() {
        Ok(state)
    } else {
        let line = plain_line(file[i]);
        if line.len() == 0 {
            after_lines(state, file, i + 1)
        } else if begins(line, "version="@) {
            match field_number(line.skip("version="@.len() as int), "version"@, i + 1) {
                Ok(n) => after_lines(FileState { version: Some(n), ..state }, file, i + 1),
                Err(e) => Err(e),
            }
        } else {
            match line_placement(line, i + 1) {
                Ok(p) => after_lines(
                    FileState { placements: state.placements.push(p), ..state },
                    file,
                    i + 1,
                ),
                Err(e) => Err(e),
            }
        }
    }
}

/// Placements in the order of their shards, with one more put in its place behind
/// those of the same shard.
pub open spec fn insert_placement(sorted: Seq<Placement>, p: Placement) -> Seq<Placement>
    decreases sorted.len(),
{
    if sorted.len() == 0 || sorted.last().shard_id <= p.shard_id {
        sorted.push(p)
    } else {
        insert_placement(sorted.drop_last(), p).push(sorted.last())
    }
}

/// The placements in the order of their shards.
pub open spec fn by_shard(placements: Seq<Placement>) -> Seq<Placement>
    decreases placements.len(),
{
    if placements.len() == 0 {
        Seq::<Placement>::empty()
    } else {
        insert_placement(by_shard(placements.drop_last()), placements.last())
    }
}

/// The first place from the `i`-th on that does not hold the shard of that number.
pub open spec fn first_gap(placements: Seq<Placement>, i: int) -> Option<int>
    decreases placements.len() - i,
{
    if i < 0 || i >= placements.len() {
        None
    } else if placements[i].shard_id != i {
        Some(i)
    } else {
        first_gap(placements, i + 1)
    }
}

/// The routing table that a routing file describes, or what is wrong with the file.
pub open spec fn routing_described(input: Seq<char>) -> Result<Routing, Seq<char>> {
    let start = FileState { version: None, placements: Seq::<Placement>::empty() };
    match after_lines(start, lines(input), 0) {
        Err(e) => Err(e),
        Ok(state) => match state.version {
            None => Err("routing table config missing version"@),
            Some(version) => {
                let placements = by_shard(state.placements);
                if version == 0 {
                    Err("routing table version must be greater than zero"@)
                } else if placements.len() == 0 {
                    Err("routing table config must contain at least one shard"@)
                } else {
                    match first_gap(placements, 0) {
                        Some(i) => Err(
                            "routing table shards must be contiguous from 0; expected "@ + dec(
                                i as nat,
                            ) + ", got "@ + dec(placements[i].shard_id as nat),
                        ),
                        None => Ok(Routing { version, placements }),
                    }
                }
            },
        },
    }
}

fn insert_by_shard(sorted: &mut Vec<ShardPlacement>, p: ShardPlacement)
    ensures
        placement_views(final(sorted)@) == insert_placement(placement_views(old(sorted)@), p@),
    decreases old(sorted)@.len(),
{
    let ghost before = sorted@;
    let ghost all = placement_views(before);
    let n: usize = sorted.len();
    if n == 0 || sorted[n - 1].shard_id <= p.shard_id {
        assert(n > 0 ==> all.last() == before.last()@);
        sorted.push(p);
        assert(placement_views(sorted@) =~= all.push(p@));
    } else {
        assert(all.last() == before.last()@);
        let last = sorted.pop().unwrap();
        assert(placement_views(sorted@) =~= all.drop_last());
        insert_by_shard(sorted, p);
        let ghost inserted = placement_views(sorted@);
        sorted.push(last);
        assert(placement_views(sorted@) =~= inserted.push(all.last()));
    }
}

/// Reads a routing file.
pub fn parse_routing_table_config(input: &str) -> (r: Result<ShardRoutingTable, String>)
    ensures
        match r {
            Ok(t) => routing_described(input@) == Ok::<Routing, Seq<char>>(t@),
            Err(e) => routing_described(input@) == Err::<Routing, Seq<char>>(e@),
        },
{
    let file = lines_of(input);
    let ghost all = lines(input@);
    let ghost start = FileState { version: None, placements: Seq::<Placement>::empty() };
    let mut version: Option<u64> = None;
    let mut sorted: Vec<ShardPlacement> = Vec::new();
    let mut i: usize = 0;
    let ghost mut seen = Seq::<Placement>::empty();
    assert(placement_views(sorted@) =~= by_shard(seen));
    while i < file.len()
        invariant
            0 <= i <= file@.len(),
            all == views(file@),
            all == lines(input@),
            start == (FileState { version: None, placements: Seq::<Placement>::empty() }),
            placement_views(sorted@) == by_shard(seen),
            after_lines(FileState { version, placements: seen }, all, i as int) == after_lines(
                start,
                all,
                0,
            ),
        decreases file@.len() - i,
    {
        assert(all[i as int] == file@[i as int]@);
        let line = plain_line_of(file[i].as_str());
        if !line.as_str().is_empty() {
            match strip_prefix(line.as_str(), "version=") {
                Some(raw) => match parse_config_u64(raw.as_str(), "version", i + 1) {
                    Ok(n) => version = Some(n),
                    Err(e) => return Err(e),
                },
                None => match read_placement(line.as_str(), i + 1) {
                    Ok(p) => {
                        assert(seen.push(p@).drop_last() =~= seen);
                        proof {
                            seen = seen.push(p@);
                        }
                        insert_by_shard(&mut sorted, p);
                    },
                    Err(e) => return Err(e),
                },
            }
        }
        i = i + 1;
    }
    let v = match version {
        Some(n) => n,
        None => return Err("routing table config missing version".to_owned()),
    };
    if v == 0 {
        return Err("routing table version must be greater than zero".to_owned());
    }
    assert(placement_views(sorted@).len() == sorted@.len());
    if sorted.len() == 0 {
        return Err("routing table config must contain at least one shard".to_owned());
    }
    let ghost placements = by_shard(seen);
    let mut j: usize = 0;
    while j < sorted.len()
        invariant
            0 <= j <= sorted@.len(),
            placement_views(sorted@) == placements,
            placements.len() > 0,
            v != 0,
            first_gap(placements, 0) == first_gap(placements, j as int),
            routing_described(input@) == (match first_gap(placements, 0) {
                Some(i) => Err::<Routing, Seq<char>>(
                    "routing table shards must be contiguous from 0; expected "@ + dec(i as nat)
                        + ", got "@ + dec(placements[i].shard_id as nat),
                ),
                None => Ok(Routing { version: v, placements }),
            }),
        decreases sorted@.len() - j,
    {
        assert(placements[j as int] == sorted@[j as int]@);
        if sorted[j].shard_id != j as u64 {
            let mut e = "routing table shards must be contiguous from 0; expected ".to_owned();
            e.append(show(j as u128).as_str());
            e.append(", got ");
            e.append(show(sorted[j].shard_id as u128).as_str());
            return Err(e);
        }
        j = j + 1;
    }
    Ok(ShardRoutingTable { version: v, placements: sorted })
}

/// Whether the servers of a placement are as they should be: the first is the primary
/// and the only one, no server is named twice, and none has the id zero.
pub open spec fn sound_replicas(replicas: Seq<ShardReplica>) -> bool {
    &&& replicas.len() > 0
    &&& replicas[0].role is Primary
    &&& forall|i: int| 0 < i < replicas.len() ==> (#[trigger] replicas[i]).role is Replica
    &&& forall|i: int| 0 <= i < replicas.len() ==> (#[trigger] replicas[i]).server_id != 0
    &&& forall|i: int, j: int|
        0 <= i < j < replicas.len() ==> (#[trigger] replicas[i]).server_id != (
        #[trigger] replicas[j]).server_id
}

pub open spec fn all_sound(placements: Seq<Placement>) -> bool {
    forall|i: int|
        0 <= i < placements.len() ==> sound_replicas((#[trigger] placements[i]).replicas)
}

proof fn lemma_placed_is_sound(
    known: Seq<ShardReplica>,
    replicas: Seq<u64>,
    i: int,
    line_no: int,
)
    requires
        0 <= i,
        sound_replicas(known),
        placed(known, replicas, i, line_no) is Ok,
    ensures
        sound_replicas(placed(known, replicas, i, line_no)->Ok_0),
    decreases replicas.len() - i,
{
    if i < replicas.len() {
        if names_server(known, replicas[i]) {
            lemma_placed_is_sound(known, replicas, i + 1, line_no);
        } else {
            let next = known.push(
                ShardReplica { server_id: replicas[i], role: ShardRole::Replica },
            );
            assert forall|a: int, b: int| 0 <= a < b < next.len() implies (
            #[trigger] next[a]).server_id != (#[trigger] next[b]).server_id by {
                assert(next[a] == known[a]);
                if b < known.len() {
                    assert(next[b] == known[b]);
                }
            }
            lemma_placed_is_sound(next, replicas, i + 1, line_no);
        }
    }
}

proof fn lemma_insert_keeps_sound(sorted: Seq<Placement>, p: Placement)
    requires
        all_sound(sorted),
        sound_replicas(p.replicas),
    ensures
        all_sound(insert_placement(sorted, p)),
    decreases sorted.len(),
{
    if sorted.len() > 0 && sorted.last().shard_id > p.shard_id {
        let rest = sorted.drop_last();
        assert(all_sound(rest)) by {
            assert forall|i: int| 0 <= i < rest.len() implies sound_replicas(
                (#[trigger] rest[i]).replicas,
            ) by {
                assert(rest[i] == sorted[i]);
            }
        }
        assert(sound_replicas(sorted[sorted.len() - 1].replicas));
        lemma_insert_keeps_sound(rest, p);
    }
}

proof fn lemma_by_shard_keeps_sound(placements: Seq<Placement>)
    requires
        all_sound(placements),
    ensures
        all_sound(by_shard(placements)),
    decreases placements.len(),
{
    if placements.len() > 0 {
        let rest = placements.drop_last();
        assert(all_sound(rest)) by {
            assert forall|i: int| 0 <= i < rest.len() implies sound_replicas(
                (#[trigger] rest[i]).replicas,
            ) by {
                assert(rest[i] == placements[i]);
            }
        }
        assert(sound_replicas(placements[placements.len() - 1].replicas));
        lemma_by_shard_keeps_sound(rest);
        lemma_insert_keeps_sound(by_shard(rest), placements.last());
    }
}

proof fn lemma_lines_are_sound(state: FileState, file: Seq<Seq<char>>, i: int)
    requires
        0 <= i,
        all_sound(state.placements),
        after_lines(state, file, i) is Ok,
    ensures
        all_sound(after_lines(state, file, i)->Ok_0.placements),
    decreases file.len() - i,
{
    if i < file.len() {
        let line = plain_line(file[i]);
        if line.len() == 0 {
            lemma_lines_are_sound(state, file, i + 1);
        } else if begins(line, "version="@) {
            let n = field_number(line.skip("version="@.len() as int), "version"@, i + 1)->Ok_0;
            lemma_lines_are_sound(FileState { version: Some(n), ..state }, file, i + 1);
        } else {
            let p = line_placement(line, i + 1)->Ok_0;
            let start = LineState { shard: None, primary: None, replicas: Seq::<u64>::empty() };
            let said = after_words(start, words(line), 0, i + 1)->Ok_0;
            lemma_placed_is_sound(
                seq![ShardReplica { server_id: said.primary->0, role: ShardRole::Primary }],
                said.replicas,
                0,
                i + 1,
            );
            lemma_lines_are_sound(
                FileState { placements: state.placements.push(p), ..state },
                file,
                i + 1,
            );
        }
    }
}

pub proof fn lemma_no_gap(placements: Seq<Placement>, i: int)
    requires
        0 <= i,
        first_gap(placements, i) is None,
    ensures
        forall|j: int| i <= j < placements.len() ==> (#[trigger] placements[j]).shard_id == j,
    decreases placements.len() - i,
{
    if i < placements.len() {
        lemma_no_gap(placements, i + 1);
    }
}

/// Every routing table that a file describes has a version above zero and the shards
/// from zero on without a gap, and each shard has exactly one primary and no server
/// twice.
pub proof fn described_tables_are_sound(input: Seq<char>)
    requires
        routing_described(input) is Ok,
    ensures
        routing_described(input)->Ok_0.version > 0,
        routing_described(input)->Ok_0.placements.len() > 0,
        all_sound(routing_described(input)->Ok_0.placements),
        forall|i: int|
            0 <= i < routing_described(input)->Ok_0.placements.len() ==> (
            #[trigger] routing_described(input)->Ok_0.placements[i]).shard_id == i,
{
    let start = FileState { version: None, placements: Seq::<Placement>::empty() };
    lemma_lines_are_sound(start, lines(input), 0);
    let state = after_lines(start, lines(input), 0)->Ok_0;
    lemma_by_shard_keeps_sound(state.placements);
    lemma_no_gap(by_shard(state.placements), 0);
}

/// The primary of shard zero, which keeps the metadata.
pub open spec fn metadata_primary(placements: Seq<Placement>) -> Option<u64>
    decreases placements.len(),
{
    if placements.len() == 0 {
        None
    } else if placements[0].shard_id == 0 {
        primary_of(placements[0].replicas)
    } else {
        metadata_primary(placements.skip(1))
    }
}

/// Finds the primary of shard zero.
pub fn metadata_primary_server_id(routing_table: &ShardRoutingTable) -> (r: Result<u64, String>)
    ensures
        match r {
            Ok(id) => metadata_primary(routing_table@.placements) == Some(id),
            Err(e) => metadata_primary(routing_table@.placements) is None && e@
                == "routing table missing shard 0 primary"@,
        },
{
    let placements = &routing_table.placements;
    let ghost all = placement_views(placements@);
    let mut i: usize = 0;
    assert(all.skip(0) =~= all);
    while i < placements.len()
        invariant
            0 <= i <= placements@.len(),
            all == placement_views(placements@),
            all == routing_table@.placements,
            metadata_primary(all) == metadata_primary(all.skip(i as int)),
        decreases placements@.len() - i,
    {
        assert(all.skip(i as int)[0] == placements@[i as int]@);
        assert(all.skip(i as int).skip(1) =~= all.skip(i + 1));
        if placements[i].shard_id == 0 {
            return match placements[i].primary_server_id() {
                Some(id) => Ok(id),
                None => Err("routing table missing shard 0 primary".to_owned()),
            };
        }
        i = i + 1;
    }
    Err("routing table missing shard 0 primary".to_owned())
}

/// Whether the settings ask for a cluster of more than one server.
pub open spec fn routing_requested(m: Map<ServerOption, Setting>) -> bool {
    number_of(m, ServerOption::PrimaryServerId) != number_of(m, ServerOption::ServerId) || peers_of(
        m,
        ServerOption::ReplicaPeer,
    ).len() > 0 || m.dom().contains(ServerOption::ReplicationBind)
}

/// The servers that hold every shard of a cluster: the primary, the replica peers and,
/// where it is not among them, the server itself.
pub open spec fn cluster_replicas(
    primary: u64,
    local: u64,
    peers: Seq<(u64, Seq<char>)>,
) -> Seq<ShardReplica> {
    let named = seq![ShardReplica { server_id: primary, role: ShardRole::Primary }]
        + peers.map_values(
        |p: (u64, Seq<char>)| ShardReplica { server_id: p.0, role: ShardRole::Replica },
    );
    if local != primary && !names_server(named, local) {
        named.push(ShardReplica { server_id: local, role: ShardRole::Replica })
    } else {
        named
    }
}

/// The routing table of a cluster that no file describes.
pub open spec fn cluster_routing(
    shards: nat,
    primary: u64,
    local: u64,
    peers: Seq<(u64, Seq<char>)>,
) -> Routing {
    Routing {
        version: 1,
        placements: Seq::new(
            shards,
            |i: int|
                Placement {
                    shard_id: i as u64,
                    replicas: cluster_replicas(primary, local, peers),
                },
        ),
    }
}

/// The routing table that the settings ask for, where `contents` is what the routing
/// file holds that they name.
pub open spec fn routing_outcome(
    m: Map<ServerOption, Setting>,
    contents: Option<Seq<char>>,
) -> Result<Option<Routing>, Seq<char>> {
    match contents {
        Some(text) => match routing_described(text) {
            Ok(t) => Ok(Some(t)),
            Err(e) => Err(e),
        },
        None => if routing_requested(m) {
            Ok(
                Some(
                    cluster_routing(
                        number_of(m, ServerOption::Shards)->0,
                        number_of(m, ServerOption::PrimaryServerId)->0 as u64,
                        number_of(m, ServerOption::ServerId)->0 as u64,
                        peers_of(m, ServerOption::ReplicaPeer),
                    ),
                ),
            )
        } else {
            Ok(None)
        },
    }
}

fn copy_replicas(replicas: &Vec<ShardReplica>) -> (r: Vec<ShardReplica>)
    ensures
        r@ == replicas@,
{
    let mut r: Vec<ShardReplica> = Vec::new();
    let mut i: usize = 0;
    while i < replicas.len()
        invariant
            0 <= i <= replicas@.len(),
            r@ == replicas@.take(i as int),
        decreases replicas@.len() - i,
    {
        r.push(replicas[i]);
        i = i + 1;
        assert(r@ =~= replicas@.take(i as int));
    }
    assert(replicas@.take(replicas@.len() as int) =~= replicas@);
    r
}

fn build_cluster_replicas(primary: u64, local: u64, peers: &Vec<ReplicaPeer>) -> (r: Vec<
    ShardReplica,
>)
    ensures
        r@ == cluster_replicas(primary, local, peer_views(peers@)),
{
    let ghost as_replica = |p: (u64, Seq<char>)|
        ShardReplica { server_id: p.0, role: ShardRole::Replica };
    let ghost all = peer_views(peers@).map_values(as_replica);
    let mut r: Vec<ShardReplica> = Vec::new();
    r.push(ShardReplica::primary(primary));
    let ghost first = r@;
    assert(first =~= seq![ShardReplica { server_id: primary, role: ShardRole::Primary }]);
    let mut i: usize = 0;
    assert(first + all.take(0) =~= first);
    while i < peers.len()
        invariant
            0 <= i <= peers@.len(),
            as_replica == (|p: (u64, Seq<char>)|
                ShardReplica { server_id: p.0, role: ShardRole::Replica }),
            all == peer_views(peers@).map_values(as_replica),
            r@ == first + all.take(i as int),
        decreases peers@.len() - i,
    {
        r.push(ShardReplica::replica(peers[i].server_id));
        assert(peer_views(peers@)[i as int] == peers@[i as int]@);
        assert(r@ =~= first + all.take(i + 1));
        i = i + 1;
    }
    assert(all.take(peers@.len() as int) =~= all);
    if local != primary && !has_server(&r, local) {
        r.push(ShardReplica::replica(local));
    }
    r
}

impl ServerArgs {
    /// The routing table that the arguments ask for. Where they name a routing file,
    /// `contents` is what the file holds.
    pub fn routing_table(&self, contents: Option<&str>) -> (r: Result<
        Option<ShardRoutingTable>,
        String,
    >)
        requires
            self.well_formed(),
            contents is Some == self@.dom().contains(ServerOption::RoutingTable),
        ensures
            match r {
                Ok(t) => routing_outcome(
                    self@,
                    match contents {
                        Some(s) => Some(s@),
                        None => None,
                    },
                ) == Ok::<Option<Routing>, Seq<char>>(
                    match t {
                        Some(table) => Some(table@),
                        None => None,
                    },
                ),
                Err(e) => routing_outcome(
                    self@,
                    match contents {
                        Some(s) => Some(s@),
                        None => None,
                    },
                ) == Err::<Option<Routing>, Seq<char>>(e@),
            },
    {
        if let Some(text) = contents {
            return match parse_routing_table_config(text) {
                Ok(t) => Ok(Some(t)),
                Err(e) => Err(e),
            };
        }
        let primary = self.number(ServerOption::PrimaryServerId).unwrap();
        let local = self.number(ServerOption::ServerId).unwrap();
        let peers = self.peers(ServerOption::ReplicaPeer);
        assert(peer_views(peers@).len() == peers@.len());
        assert(peers_of(self@, ServerOption::ReplicaPeer) =~= peer_views(peers@));
        if primary == local && peers.len() == 0 && !self.is_set(ServerOption::ReplicationBind) {
            return Ok(None);
        }
        let shards = self.number(ServerOption::Shards).unwrap();
        let replicas = build_cluster_replicas(primary, local, &peers);
        let ghost table = cluster_routing(shards as nat, primary, local, peer_views(peers@));
        let mut placements: Vec<ShardPlacement> = Vec::new();
        let mut i: u64 = 0;
        while i < shards
            invariant
                0 <= i <= shards,
                placement_views(placements@) == table.placements.take(i as int),
                table == cluster_routing(shards as nat, primary, local, peer_views(peers@)),
                replicas@ == cluster_replicas(primary, local, peer_views(peers@)),
            decreases shards - i,
        {
            let ghost before = placements@;
            let p = ShardPlacement::new(i, copy_replicas(&replicas));
            placements.push(p);
            assert(placement_views(placements@) =~= placement_views(before).push(p@));
            assert(table.placements.take(i + 1) =~= table.placements.take(i as int).push(p@));
            i = i + 1;
        }
        assert(table.placements.take(shards as int) =~= table.placements);
        Ok(Some(ShardRoutingTable { version: 1, placements }))
    }
}

/// In the routing table of a cluster that no file describes, every shard lies on the
/// server itself, and the primary that the settings name is its primary.
pub proof fn cluster_routing_names_the_local_server(
    shards: nat,
    primary: u64,
    local: u64,
    peers: Seq<(u64, Seq<char>)>,
    i: int,
)
    requires
        0 <= i < shards,
        shards <= u64::MAX,
    ensures
        cluster_routing(shards, primary, local, peers).placements[i].shard_id == i,
        primary_of(cluster_routing(shards, primary, local, peers).placements[i].replicas) == Some(
            primary,
        ),
        names_server(
            cluster_routing(shards, primary, local, peers).placements[i].replicas,
            local,
        ),
{
    let replicas = cluster_replicas(primary, local, peers);
    assert(replicas[0] == (ShardReplica { server_id: primary, role: ShardRole::Primary }));
    if local != primary {
        let named = seq![ShardReplica { server_id: primary, role: ShardRole::Primary }]
            + peers.map_values(
            |p: (u64, Seq<char>)| ShardReplica { server_id: p.0, role: ShardRole::Replica },
        );
        if !names_server(named, local) {
            assert(replicas[named.len() as int].server_id == local);
        }
    }
}

} // verus!
