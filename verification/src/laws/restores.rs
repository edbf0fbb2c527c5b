//! What a backup is checked for, and how far a restore goes.

use vstd::prelude::*;

use crate::maintenance::{
    hashed, is_selected, manifest_number_problem, manifest_problem, manifest_value, no_later,
    restore_problem, selected_count, target_index, BackupManifestStats, LogEntryStamp, PitrTarget,
};
use crate::text::{lines, number, split_once};

verus! {

/// A point in time as one number: the milliseconds, and then the count within one.
pub open spec fn moment(physical_ms: u64, logical: u32) -> int {
    physical_ms * 0x1_0000_0000 + logical
}

/// A restore takes the entries that were committed and came no later than its point in time.
pub proof fn restores_take_what_came_before(e: LogEntryStamp, committed: u64, t: PitrTarget)
    ensures
        no_later(e, t) <==> moment(e.physical_ms, e.logical) <= moment(t.physical_ms, t.logical),
        is_selected(e, committed, t) <==> e.index <= committed && moment(e.physical_ms, e.logical)
            <= moment(t.physical_ms, t.logical),
{
}

/// Whether an entry of a log is taken.
pub open spec fn is_taken(
    entries: Seq<LogEntryStamp>,
    i: int,
    committed: u64,
    t: PitrTarget,
) -> bool {
    &&& 0 <= i < entries.len()
    &&& entries[i].index <= committed
    &&& moment(entries[i].physical_ms, entries[i].logical) <= moment(t.physical_ms, t.logical)
}

/// A restore goes as far as the last entry that it takes: no later entry is taken, and where it
/// takes none it goes nowhere.
pub proof fn restores_go_to_the_last_entry_they_take(
    entries: Seq<LogEntryStamp>,
    committed: u64,
    t: PitrTarget,
    i: int,
)
    ensures
        is_taken(entries, i, committed, t) && (forall|j: int|
            i < j ==> !#[trigger] is_taken(entries, j, committed, t)) ==> target_index(
            entries,
            committed,
            t,
        ) == entries[i].index,
        (forall|j: int| !#[trigger] is_taken(entries, j, committed, t)) ==> target_index(
            entries,
            committed,
            t,
        ) == 0,
    decreases entries.len(),
{
    if entries.len() > 0 {
        let front = entries.drop_last();
        let n = entries.len() - 1;
        restores_take_what_came_before(entries.last(), committed, t);
        restores_go_to_the_last_entry_they_take(front, committed, t, i);
        assert(is_taken(entries, n, committed, t) <==> is_selected(entries.last(), committed, t));
        assert forall|j: int| #[trigger] is_taken(front, j, committed, t) implies is_taken(
            entries,
            j,
            committed,
            t,
        ) by {
            assert(front[j] == entries[j]);
        }
        if is_taken(entries, i, committed, t) && i < n {
            assert(front[i] == entries[i]);
            assert(is_taken(front, i, committed, t));
        }
    }
}

/// A restore counts every entry that it takes, and no other.
pub proof fn restores_count_what_they_take(
    a: Seq<LogEntryStamp>,
    e: LogEntryStamp,
    b: Seq<LogEntryStamp>,
    committed: u64,
    t: PitrTarget,
)
    ensures
        selected_count(Seq::empty(), committed, t) == 0,
        is_taken(seq![e], 0, committed, t) ==> selected_count(seq![e] + b, committed, t)
            == selected_count(b, committed, t) + 1,
        !is_taken(seq![e], 0, committed, t) ==> selected_count(seq![e] + b, committed, t)
            == selected_count(b, committed, t),
        selected_count(a + b, committed, t) == selected_count(a, committed, t) + selected_count(
            b,
            committed,
            t,
        ),
{
    lemma_counts(a, b, committed, t);
    lemma_counts(seq![e], b, committed, t);
    restores_take_what_came_before(e, committed, t);
    assert(seq![e].drop_last() =~= Seq::<LogEntryStamp>::empty());
    reveal_with_fuel(selected_count, 2);
}

proof fn lemma_counts(
    a: Seq<LogEntryStamp>,
    b: Seq<LogEntryStamp>,
    committed: u64,
    t: PitrTarget,
)
    ensures
        selected_count(a + b, committed, t) == selected_count(a, committed, t) + selected_count(
            b,
            committed,
            t,
        ),
    decreases b.len(),
{
    if b.len() == 0 {
        assert(a + b =~= a);
    } else {
        assert((a + b).drop_last() =~= a + b.drop_last());
        assert((a + b).last() == b.last());
        lemma_counts(a, b.drop_last(), committed, t);
    }
}

/// Whether a line of a manifest gives a value.
pub open spec fn gives(file: Seq<Seq<char>>, i: int, key: Seq<char>, value: Seq<char>) -> bool {
    0 <= i < file.len() && file[i] == key + "="@ + value
}

/// Whether a line of a manifest gives any value of a key.
pub open spec fn gives_some(file: Seq<Seq<char>>, i: int, key: Seq<char>) -> bool {
    0 <= i < file.len() && crate::text::begins(file[i], key + "="@)
}

proof fn lemma_key(line: Seq<char>, key: Seq<char>)
    requires
        !key.contains('='),
    ensures
        match split_once(line, "="@) {
            Some((k, v)) => (k == key <==> crate::text::begins(line, key + "="@)) && line == k
                + "="@ + v,
            None => !crate::text::begins(line, key + "="@),
        },
        forall|value: Seq<char>| #[trigger]
            split_once(key + "="@ + value, "="@) == Some((key, value)),
{
    reveal_strlit("=");
    assert("="@ =~= seq!['=']);
    let sep = seq!['='];
    assert forall|value: Seq<char>| #[trigger] split_once(key + "="@ + value, "="@) == Some(
        (key, value),
    ) by {
        crate::text::lemma_split_once_at_char(key, value, '=');
    }
    crate::laws::texts::texts_are_split_at_the_first_place(line, sep);
    if crate::text::begins(line, key + sep) {
        let n = key.len() + 1;
        let value = line.skip(n as int);
        assert(line.take(n as int) == key + sep);
        assert(line =~= line.take(n as int) + value);
        assert(line =~= key + "="@ + value);
        assert(split_once(key + "="@ + value, "="@) == Some((key, value)));
    }
    match split_once(line, sep) {
        Some((k, v)) => {
            if k == key {
                assert(line.take((key.len() + 1) as int) =~= key + sep);
            }
        },
        None => {},
    }
}

/// The value of a key is what the last line that gives one says; a manifest without such a line
/// has no value.
pub proof fn last_line_gives_the_value(
    file: Seq<Seq<char>>,
    key: Seq<char>,
    i: int,
    value: Seq<char>,
)
    requires
        !key.contains('='),
    ensures
        gives(file, i, key, value) && (forall|j: int| i < j ==> !#[trigger] gives_some(file, j, key))
            ==> manifest_value(file, key) == Some(value),
        (forall|j: int| !#[trigger] gives_some(file, j, key)) ==> manifest_value(file, key) is None,
    decreases file.len(),
{
    if file.len() > 0 {
        let front = file.drop_last();
        let n = file.len() - 1;
        lemma_key(file.last(), key);
        last_line_gives_the_value(front, key, i, value);
        assert(file[n] == file.last());
        assert(gives_some(file, n, key) <==> crate::text::begins(file.last(), key + "="@));
        assert forall|j: int| #[trigger] gives_some(front, j, key) implies gives_some(
            file,
            j,
            key,
        ) by {
            assert(front[j] == file[j]);
        }
        if gives(file, i, key, value) && i < n {
            assert(front[i] == file[i]);
            assert(gives(front, i, key, value));
        }
        if gives(file, i, key, value) && i == n {
            assert(split_once(key + "="@ + value, "="@) == Some((key, value)));
        }
    }
}

/// A number in a manifest stands where it says what there is.
pub proof fn manifest_numbers_say_what_there_is(
    file: Seq<Seq<char>>,
    key: Seq<char>,
    actual: nat,
)
    ensures
        manifest_number_problem(file, key, actual) is None <==> manifest_value(file, key) is Some
            && number(manifest_value(file, key).unwrap(), u64::MAX as nat) == Some(actual),
{
}

/// A backup passes where its manifest is of the one version, counts the files and the bytes that
/// there are, and has their checksum, if it has one.
pub proof fn backups_pass_by_their_numbers(manifest: Seq<char>, stats: BackupManifestStats)
    ensures
        ({
            let file = lines(manifest);
            let files = manifest_value(file, "file_count"@);
            let bytes = manifest_value(file, "total_bytes"@);
            let sum = manifest_value(file, "checksum"@);
            manifest_problem(manifest, stats) is None <==> {
                &&& manifest_value(file, "neo4r_backup_manifest_version"@) == Some("1"@)
                &&& files is Some && number(files.unwrap(), u64::MAX as nat) == Some(
                    stats.file_count as nat,
                )
                &&& bytes is Some && number(bytes.unwrap(), u64::MAX as nat) == Some(
                    stats.total_bytes as nat,
                )
                &&& sum is Some ==> number(sum.unwrap(), u64::MAX as nat) == Some(
                    stats.checksum as nat,
                )
            }
        }),
{
}

/// A restore is refused where there is no manifest, where the backup does not pass, and where data
/// would be replaced outside maintenance; a trial run is not refused for that.
pub proof fn restores_are_refused_for_a_reason(
    manifest_path: Seq<char>,
    manifest: Option<Seq<char>>,
    stats: BackupManifestStats,
    dry_run: bool,
    maintenance: bool,
)
    ensures
        restore_problem(manifest_path, manifest, stats, dry_run, maintenance) is None
            <==> manifest is Some && manifest_problem(manifest.unwrap(), stats) is None && (dry_run
            || maintenance),
{
}

/// A checksum goes on byte by byte: it is multiplied by the prime and the byte is added, within
/// sixty-four bits.
pub proof fn checksums_take_every_byte(hash: u64, bytes: Seq<u8>, b: u8)
    ensures
        hashed(hash, Seq::empty()) == hash,
        hashed(hash, bytes.push(b)) == (hashed(hash, bytes) * 0x100_0000_01b3 + b)
            % 0x1_0000_0000_0000_0000,
{
    let h = hashed(hash, bytes);
    assert(bytes.push(b).drop_last() =~= bytes);
    let m = h.wrapping_mul(0x100_0000_01b3);
    assert(m == (h * 0x100_0000_01b3) % 0x1_0000_0000_0000_0000);
    let x = h * 0x100_0000_01b3;
    vstd::arithmetic::div_mod::lemma_add_mod_noop(x as int, b as int, 0x1_0000_0000_0000_0000);
}

} // verus!
