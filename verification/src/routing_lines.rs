//! The lines of a routing file: their order, blank lines and comments do not change the table.

use vstd::multiset::Multiset;
use vstd::prelude::*;

use crate::config::plain_line;
use crate::model::{Placement, ShardReplica, ShardRole};
use crate::routing::{
    after_lines, after_word, after_words, by_shard, field_number, insert_placement, lemma_no_gap,
    line_placement, placed, replica_numbers, routing_described, FileState, LineState,
};
use crate::text::{begins, lines, split, split_once, words};

verus! {

/// The lines of a file from the `i`-th on that say something, without their comments and the
/// white space round them.
pub open spec fn telling_lines(file: Seq<Seq<char>>, i: int) -> Seq<Seq<char>>
    decreases file.len() - i,
{
    if i < 0 || i >= file.len() {
        Seq::empty()
    } else if plain_line(file[i]).len() == 0 {
        telling_lines(file, i + 1)
    } else {
        seq![plain_line(file[i])] + telling_lines(file, i + 1)
    }
}

/// What a routing file says, line by line.
pub open spec fn told(input: Seq<char>) -> Seq<Seq<char>> {
    telling_lines(lines(input), 0)
}

/// Whether a line gives the version.
pub open spec fn is_version(line: Seq<char>) -> bool {
    begins(line, "version="@)
}

/// How many lines give a version.
pub open spec fn version_lines(s: Seq<Seq<char>>) -> nat
    decreases s.len(),
{
    if s.len() == 0 {
        0
    } else {
        version_lines(s.skip(1)) + (if is_version(s[0]) {
            1nat
        } else {
            0nat
        })
    }
}

/// The version that a line gives, read as if it were the first.
spec fn version_in(line: Seq<char>) -> Result<u64, Seq<char>> {
    field_number(line.skip("version="@.len() as int), "version"@, 1)
}

/// The placement that a line gives, read as if it were the first.
spec fn placement_in(line: Seq<char>) -> Result<Placement, Seq<char>> {
    line_placement(line, 1)
}

/// Whether nothing is wrong with a line.
spec fn is_readable(line: Seq<char>) -> bool {
    if is_version(line) {
        version_in(line) is Ok
    } else {
        placement_in(line) is Ok
    }
}

/// The versions that a line gives: one or none.
spec fn versions_of(line: Seq<char>) -> Multiset<u64> {
    if is_version(line) {
        Multiset::singleton(version_in(line)->Ok_0)
    } else {
        Multiset::empty()
    }
}

/// The placements that a line gives: one or none.
spec fn placements_of(line: Seq<char>) -> Multiset<Placement> {
    if is_version(line) {
        Multiset::empty()
    } else {
        Multiset::singleton(placement_in(line)->Ok_0)
    }
}

/// What lines give, together.
spec fn gathered<A>(s: Seq<Seq<char>>, give: spec_fn(Seq<char>) -> Multiset<A>) -> Multiset<A>
    decreases s.len(),
{
    if s.len() == 0 {
        Multiset::empty()
    } else {
        give(s[0]).add(gathered(s.skip(1), give))
    }
}

proof fn lemma_replicas_on_any_line(pieces: Seq<Seq<char>>, i: int, n: int, m: int)
    ensures
        replica_numbers(pieces, i, n) is Ok ==> replica_numbers(pieces, i, m) == replica_numbers(
            pieces,
            i,
            n,
        ),
    decreases pieces.len() - i,
{
    if 0 <= i < pieces.len() {
        lemma_replicas_on_any_line(pieces, i + 1, n, m);
    }
}

proof fn lemma_word_on_any_line(state: LineState, word: Seq<char>, n: int, m: int)
    ensures
        after_word(state, word, n) is Ok ==> after_word(state, word, m) == after_word(
            state,
            word,
            n,
        ),
{
    if let Some((key, value)) = split_once(word, "="@) {
        lemma_replicas_on_any_line(split(value, ','), 0, n, m);
    }
}

proof fn lemma_words_on_any_line(state: LineState, line: Seq<Seq<char>>, i: int, n: int, m: int)
    ensures
        after_words(state, line, i, n) is Ok ==> after_words(state, line, i, m) == after_words(
            state,
            line,
            i,
            n,
        ),
    decreases line.len() - i,
{
    if 0 <= i < line.len() {
        lemma_word_on_any_line(state, line[i], n, m);
        if let Ok(next) = after_word(state, line[i], n) {
            lemma_words_on_any_line(next, line, i + 1, n, m);
        }
    }
}

proof fn lemma_placed_on_any_line(
    known: Seq<ShardReplica>,
    replicas: Seq<u64>,
    i: int,
    n: int,
    m: int,
)
    ensures
        placed(known, replicas, i, n) is Ok ==> placed(known, replicas, i, m) == placed(
            known,
            replicas,
            i,
            n,
        ),
    decreases replicas.len() - i,
{
    if 0 <= i < replicas.len() && replicas[i] != 0 {
        lemma_placed_on_any_line(known, replicas, i + 1, n, m);
        lemma_placed_on_any_line(
            known.push(ShardReplica { server_id: replicas[i], role: ShardRole::Replica }),
            replicas,
            i + 1,
            n,
            m,
        );
    }
}

/// A placement that can be read on one line reads the same on any.
proof fn lemma_placement_on_any_line(line: Seq<char>, n: int, m: int)
    ensures
        line_placement(line, n) is Ok ==> line_placement(line, m) == line_placement(line, n),
{
    let start = LineState { shard: None, primary: None, replicas: Seq::<u64>::empty() };
    lemma_words_on_any_line(start, words(line), 0, n, m);
    if let Ok(state) = after_words(start, words(line), 0, n) {
        if let Some(primary) = state.primary {
            lemma_placed_on_any_line(
                seq![ShardReplica { server_id: primary, role: ShardRole::Primary }],
                state.replicas,
                0,
                n,
                m,
            );
        }
    }
}

proof fn lemma_telling_lines_step(file: Seq<Seq<char>>, i: int)
    requires
        0 <= i < file.len(),
        plain_line(file[i]).len() > 0,
    ensures
        telling_lines(file, i).len() > 0,
        telling_lines(file, i)[0] == plain_line(file[i]),
        telling_lines(file, i).skip(1) == telling_lines(file, i + 1),
{
    assert(telling_lines(file, i).skip(1) =~= telling_lines(file, i + 1));
}

/// A file that can be read has readable lines, and gives what they give.
proof fn lemma_lines_give(state: FileState, file: Seq<Seq<char>>, i: int)
    requires
        0 <= i,
        after_lines(state, file, i) is Ok,
    ensures
        ({
            let s = telling_lines(file, i);
            let end = after_lines(state, file, i)->Ok_0;
            let versions = gathered(s, |l: Seq<char>| versions_of(l));
            &&& forall|j: int| 0 <= j < s.len() ==> is_readable(#[trigger] s[j])
            &&& end.placements.to_multiset() == state.placements.to_multiset().add(
                gathered(s, |l: Seq<char>| placements_of(l)),
            )
            &&& if versions.len() == 0 {
                end.version == state.version
            } else {
                end.version is Some && versions.count(end.version.unwrap()) > 0
            }
        }),
    decreases file.len() - i,
{
    broadcast use vstd::multiset::group_multiset_axioms;

    let s = telling_lines(file, i);
    let end = after_lines(state, file, i)->Ok_0;
    let give_versions = |l: Seq<char>| versions_of(l);
    let give_placements = |l: Seq<char>| placements_of(l);
    if i < file.len() {
        let line = plain_line(file[i]);
        if line.len() == 0 {
            lemma_lines_give(state, file, i + 1);
        } else {
            lemma_telling_lines_step(file, i);
            let rest = telling_lines(file, i + 1);
            let next = if is_version(line) {
                FileState {
                    version: Some(
                        field_number(
                            line.skip("version="@.len() as int),
                            "version"@,
                            i + 1,
                        )->Ok_0,
                    ),
                    ..state
                }
            } else {
                lemma_placement_on_any_line(line, i + 1, 1);
                state.placements.to_multiset_ensures();
                FileState {
                    placements: state.placements.push(line_placement(line, i + 1)->Ok_0),
                    ..state
                }
            };
            lemma_lines_give(next, file, i + 1);
            assert(is_readable(line));
            assert forall|j: int| 0 <= j < s.len() implies is_readable(#[trigger] s[j]) by {
                if j > 0 {
                    assert(s[j] == rest[j - 1]);
                }
            }
            assert(gathered(s, give_versions) == versions_of(line).add(
                gathered(rest, give_versions),
            ));
            assert(gathered(s, give_placements) == placements_of(line).add(
                gathered(rest, give_placements),
            ));
            assert(end.placements.to_multiset() =~= state.placements.to_multiset().add(
                gathered(s, give_placements),
            ));
        }
    } else {
        assert(end.placements.to_multiset() =~= state.placements.to_multiset().add(
            gathered(s, give_placements),
        ));
    }
}

/// A file whose lines are readable can be read.
proof fn lemma_readable_lines_are_read(state: FileState, file: Seq<Seq<char>>, i: int)
    requires
        0 <= i,
        forall|j: int|
            0 <= j < telling_lines(file, i).len() ==> is_readable(
                #[trigger] telling_lines(file, i)[j],
            ),
    ensures
        after_lines(state, file, i) is Ok,
    decreases file.len() - i,
{
    if i < file.len() {
        let line = plain_line(file[i]);
        let s = telling_lines(file, i);
        let rest = telling_lines(file, i + 1);
        if line.len() == 0 {
            lemma_readable_lines_are_read(state, file, i + 1);
        } else {
            lemma_telling_lines_step(file, i);
            assert(is_readable(s[0]));
            assert forall|j: int| 0 <= j < rest.len() implies is_readable(#[trigger] rest[j]) by {
                assert(rest[j] == s.skip(1)[j]);
                assert(s[j + 1] == rest[j]);
            }
            if is_version(line) {
                let n = version_in(line)->Ok_0;
                lemma_readable_lines_are_read(
                    FileState { version: Some(n), ..state },
                    file,
                    i + 1,
                );
            } else {
                lemma_placement_on_any_line(line, 1, i + 1);
                let p = placement_in(line)->Ok_0;
                lemma_readable_lines_are_read(
                    FileState { placements: state.placements.push(p), ..state },
                    file,
                    i + 1,
                );
            }
        }
    }
}

proof fn lemma_gathered_without<A>(
    s: Seq<Seq<char>>,
    give: spec_fn(Seq<char>) -> Multiset<A>,
    k: int,
)
    requires
        0 <= k < s.len(),
    ensures
        gathered(s, give) == give(s[k]).add(gathered(s.remove(k), give)),
    decreases s.len(),
{
    broadcast use vstd::multiset::group_multiset_axioms;

    if k == 0 {
        assert(s.remove(0) =~= s.skip(1));
    } else {
        lemma_gathered_without(s.skip(1), give, k - 1);
        assert(s.remove(k).skip(1) =~= s.skip(1).remove(k - 1));
        assert(s.remove(k)[0] == s[0]);
        assert(s.skip(1)[k - 1] == s[k]);
        assert(gathered(s, give) =~= give(s[k]).add(gathered(s.remove(k), give)));
    }
}

/// Lines give the same together in any order.
proof fn lemma_gathered_in_any_order<A>(
    a: Seq<Seq<char>>,
    b: Seq<Seq<char>>,
    give: spec_fn(Seq<char>) -> Multiset<A>,
)
    requires
        a.to_multiset() == b.to_multiset(),
    ensures
        gathered(a, give) == gathered(b, give),
    decreases a.len(),
{
    a.to_multiset_ensures();
    b.to_multiset_ensures();
    if a.len() > 0 {
        let line = a[0];
        assert(a.contains(line));
        assert(a.to_multiset().count(line) > 0);
        assert(b.contains(line));
        let k = choose|k: int| 0 <= k < b.len() && b[k] == line;
        lemma_gathered_without(a, give, 0);
        lemma_gathered_without(b, give, k);
        assert(a.remove(0).to_multiset() == b.remove(k).to_multiset());
        lemma_gathered_in_any_order(a.remove(0), b.remove(k), give);
    }
}

proof fn lemma_versions_are_counted(s: Seq<Seq<char>>)
    ensures
        gathered(s, |l: Seq<char>| versions_of(l)).len() == version_lines(s),
    decreases s.len(),
{
    broadcast use vstd::multiset::group_multiset_axioms;

    if s.len() > 0 {
        lemma_versions_are_counted(s.skip(1));
    }
}

/// Whether placements stand in the order of their shards.
spec fn in_order(s: Seq<Placement>) -> bool {
    forall|i: int, j: int|
        0 <= i <= j < s.len() ==> (#[trigger] s[i]).shard_id <= (#[trigger] s[j]).shard_id
}

proof fn lemma_insert_placement(s: Seq<Placement>, p: Placement)
    requires
        in_order(s),
    ensures
        in_order(insert_placement(s, p)),
        insert_placement(s, p).to_multiset() == s.to_multiset().insert(p),
        forall|i: int|
            0 <= i < insert_placement(s, p).len() ==> (#[trigger] insert_placement(
                s,
                p,
            )[i]).shard_id <= p.shard_id || (s.len() > 0 && insert_placement(s, p)[i].shard_id
                <= s.last().shard_id),
    decreases s.len(),
{
    broadcast use vstd::multiset::group_multiset_axioms;

    s.to_multiset_ensures();
    if s.len() == 0 || s.last().shard_id <= p.shard_id {
    } else {
        let front = s.drop_last();
        lemma_insert_placement(front, p);
        let inner = insert_placement(front, p);
        front.to_multiset_ensures();
        inner.to_multiset_ensures();
        assert(front.push(s.last()) =~= s);
        assert(inner.push(s.last()).to_multiset() =~= s.to_multiset().insert(p));
    }
}

proof fn lemma_by_shard(s: Seq<Placement>)
    ensures
        in_order(by_shard(s)),
        by_shard(s).to_multiset() == s.to_multiset(),
    decreases s.len(),
{
    if s.len() > 0 {
        let front = s.drop_last();
        lemma_by_shard(front);
        lemma_insert_placement(by_shard(front), s.last());
        front.to_multiset_ensures();
        assert(front.push(s.last()) =~= s);
    } else {
        assert(by_shard(s) =~= s);
    }
}

proof fn lemma_at_least(s: Seq<Placement>, i: int)
    requires
        0 <= i < s.len(),
        forall|j: int, k: int|
            0 <= j < k < s.len() ==> (#[trigger] s[j]).shard_id < (#[trigger] s[k]).shard_id,
    ensures
        s[i].shard_id >= i,
    decreases i,
{
    if i > 0 {
        lemma_at_least(s, i - 1);
        assert(s[i - 1].shard_id < s[i].shard_id);
    }
}

proof fn lemma_at_most(s: Seq<Placement>, i: int)
    requires
        0 <= i < s.len(),
        forall|j: int, k: int|
            0 <= j < k < s.len() ==> (#[trigger] s[j]).shard_id < (#[trigger] s[k]).shard_id,
        s.last().shard_id < s.len(),
    ensures
        s[i].shard_id <= i,
    decreases s.len() - i,
{
    if i + 1 < s.len() {
        lemma_at_most(s, i + 1);
        assert(s[i].shard_id < s[i + 1].shard_id);
    }
}

/// Placements of all shards from zero on can be put in order in one way only.
proof fn lemma_one_order(a: Seq<Placement>, b: Seq<Placement>)
    requires
        forall|i: int| 0 <= i < a.len() ==> (#[trigger] a[i]).shard_id == i,
        in_order(b),
        a.to_multiset() == b.to_multiset(),
    ensures
        a == b,
{
    a.to_multiset_ensures();
    b.to_multiset_ensures();
    assert(a.no_duplicates()) by {
        assert forall|i: int, j: int| 0 <= i < a.len() && 0 <= j < a.len() && i != j implies a[i]
            != a[j] by {
            assert(a[i].shard_id == i && a[j].shard_id == j);
        }
    }
    a.lemma_multiset_has_no_duplicates();
    b.lemma_multiset_has_no_duplicates_conv();
    assert forall|i: int| 0 <= i < b.len() implies #[trigger] b[i].shard_id < a.len() && b[i]
        == a[b[i].shard_id as int] by {
        assert(b.contains(b[i]));
        assert(b.to_multiset().count(b[i]) > 0);
        assert(a.contains(b[i]));
        let k = choose|k: int| 0 <= k < a.len() && a[k] == b[i];
        assert(a[k].shard_id == k);
    }
    assert forall|j: int, k: int| 0 <= j < k < b.len() implies (#[trigger] b[j]).shard_id < (
    #[trigger] b[k]).shard_id by {
        assert(b[j].shard_id <= b[k].shard_id);
        assert(b[j] != b[k]);
        assert(b[j] == a[b[j].shard_id as int]);
        assert(b[k] == a[b[k].shard_id as int]);
    }
    assert forall|i: int| 0 <= i < a.len() implies a[i] == b[i] by {
        assert(b[b.len() - 1].shard_id < a.len());
        lemma_at_least(b, i);
        lemma_at_most(b, i);
        assert(b[i] == a[b[i].shard_id as int]);
    }
    assert(a =~= b);
}

/// The order of the lines of a routing file, blank lines and comments do not change the table:
/// a file that says the same lines as one that describes a table, each as often and in whatever
/// order, describes the same table, where one line gives the version.
pub proof fn order_of_routing_lines_is_free(x: Seq<char>, y: Seq<char>)
    requires
        routing_described(x) is Ok,
        version_lines(told(x)) == 1,
        told(y).to_multiset() == told(x).to_multiset(),
    ensures
        routing_described(y) == routing_described(x),
{
    broadcast use vstd::multiset::group_multiset_axioms;

    let start = FileState { version: None, placements: Seq::<Placement>::empty() };
    let a = told(x);
    let b = told(y);
    let give_versions = |l: Seq<char>| versions_of(l);
    let give_placements = |l: Seq<char>| placements_of(l);
    let end = after_lines(start, lines(x), 0)->Ok_0;
    lemma_lines_give(start, lines(x), 0);
    a.to_multiset_ensures();
    b.to_multiset_ensures();
    assert forall|j: int| 0 <= j < b.len() implies is_readable(#[trigger] b[j]) by {
        assert(b.contains(b[j]));
        assert(b.to_multiset().count(b[j]) > 0);
        assert(a.contains(b[j]));
    }
    lemma_readable_lines_are_read(start, lines(y), 0);
    let other = after_lines(start, lines(y), 0)->Ok_0;
    lemma_lines_give(start, lines(y), 0);
    lemma_gathered_in_any_order(a, b, give_versions);
    lemma_gathered_in_any_order(a, b, give_placements);
    lemma_versions_are_counted(a);
    let versions = gathered(a, give_versions);
    assert(versions.len() == 1);
    let v = end.version.unwrap();
    let w = other.version.unwrap();
    assert(v == w) by {
        if v != w {
            let left = versions.remove(v);
            assert(left.len() == 0);
            assert(left.count(w) == versions.count(w));
            assert(left.remove(w).len() == left.len() - 1);
        }
    }
    assert(end.placements.to_multiset() == other.placements.to_multiset());
    lemma_by_shard(end.placements);
    lemma_by_shard(other.placements);
    lemma_no_gap(by_shard(end.placements), 0);
    lemma_one_order(by_shard(end.placements), by_shard(other.placements));
}

/// What a line says: itself without its comment, or nothing.
spec fn told_by(line: Seq<char>) -> Multiset<Seq<char>> {
    if plain_line(line).len() == 0 {
        Multiset::empty()
    } else {
        Multiset::singleton(plain_line(line))
    }
}

proof fn lemma_told_is_gathered(file: Seq<Seq<char>>, i: int)
    requires
        0 <= i <= file.len(),
    ensures
        telling_lines(file, i).to_multiset() == gathered(
            file.skip(i),
            |l: Seq<char>| told_by(l),
        ),
    decreases file.len() - i,
{
    broadcast use vstd::multiset::group_multiset_axioms;

    let give = |l: Seq<char>| told_by(l);
    let s = telling_lines(file, i);
    if i < file.len() {
        lemma_told_is_gathered(file, i + 1);
        assert(file.skip(i)[0] == file[i]);
        assert(file.skip(i).skip(1) =~= file.skip(i + 1));
        let rest = telling_lines(file, i + 1);
        if plain_line(file[i]).len() > 0 {
            lemma_telling_lines_step(file, i);
            s.to_multiset_ensures();
            assert(s.remove(0) =~= rest);
            assert(s.contains(s[0]));
            assert(s.to_multiset().count(s[0]) > 0);
            assert(s.to_multiset() =~= Multiset::singleton(s[0]).add(rest.to_multiset()));
        } else {
            assert(s == rest);
        }
        assert(s.to_multiset() =~= gathered(file.skip(i), give));
    } else {
        s.to_multiset_ensures();
        assert(s.to_multiset() =~= Multiset::empty());
    }
}

proof fn lemma_blank_lines_give_nothing(file: Seq<Seq<char>>, extra: Seq<Seq<char>>)
    requires
        forall|i: int| 0 <= i < extra.len() ==> plain_line(#[trigger] extra[i]).len() == 0,
    ensures
        gathered(file + extra, |l: Seq<char>| told_by(l)) == gathered(
            file,
            |l: Seq<char>| told_by(l),
        ),
    decreases extra.len(),
{
    broadcast use vstd::multiset::group_multiset_axioms;

    let give = |l: Seq<char>| told_by(l);
    if extra.len() == 0 {
        assert(file + extra =~= file);
    } else {
        let all = file + extra;
        let k = all.len() - 1;
        lemma_blank_lines_give_nothing(file, extra.drop_last());
        lemma_gathered_without(all, give, k);
        assert(all[k] == extra.last());
        assert(all.remove(k) =~= file + extra.drop_last());
        assert(gathered(all, give) =~= gathered(file, give));
    }
}

/// A routing file that describes a table and gives its version on one line describes the same
/// table when its lines are put in another order, and blank lines or comments are added.
pub proof fn rearranged_routing_files_describe_the_same(
    x: Seq<char>,
    y: Seq<char>,
    extra: Seq<Seq<char>>,
)
    requires
        routing_described(x) is Ok,
        version_lines(told(x)) == 1,
        forall|i: int| 0 <= i < extra.len() ==> plain_line(#[trigger] extra[i]).len() == 0,
        lines(y).to_multiset() == (lines(x) + extra).to_multiset(),
    ensures
        routing_described(y) == routing_described(x),
{
    let give = |l: Seq<char>| told_by(l);
    lemma_told_is_gathered(lines(x), 0);
    lemma_told_is_gathered(lines(y), 0);
    assert(lines(x).skip(0) =~= lines(x));
    assert(lines(y).skip(0) =~= lines(y));
    lemma_gathered_in_any_order(lines(y), lines(x) + extra, give);
    lemma_blank_lines_give_nothing(lines(x), extra);
    order_of_routing_lines_is_free(x, y);
}

} // verus!
