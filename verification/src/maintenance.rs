//! Backups, restores, and restores to a point in time.

use vstd::prelude::*;

use crate::json::{
    bool_field, bool_text, dec_all, extract_optional_json_bool_field,
    extract_optional_json_string_field, extract_optional_json_u64_field, json_escape, json_escaped,
    number_list, optional_number_field, optional_string_field, show_bool, show_numbers,
};
use crate::text::{
    cat, cat3, dec, dec_is_digits, is_digit, join, join_with, lemma_split_once_at_char,
    lemma_split_terminated, lemma_views_push, lines, lines_of, number, number_reads_dec, read_u64, same, show,
    split_first, split_once, terminated, views, without_return,
};
use crate::web_admin::{AuditNote, Note};
use crate::web_json::{maintenance_text, storage_maintenance_json, StorageMaintenance};

verus! {

/// What a backup holds.
#[derive(Clone, Copy)]
pub struct BackupManifestStats {
    pub file_count: u64,
    pub total_bytes: u64,
    pub checksum: u64,
}

/// A checksum after some more bytes.
pub open spec fn hashed(hash: u64, bytes: Seq<u8>) -> u64
    decreases bytes.len(),
{
    if bytes.len() == 0 {
        hash
    } else {
        hashed(hash, bytes.drop_last()).wrapping_mul(0x100_0000_01b3).wrapping_add(
            bytes.last() as u64,
        )
    }
}

/// The checksum of a file, from that of the files before it.
pub open spec fn file_checksum(seed: u64, bytes: Seq<u8>) -> u64 {
    hashed(seed ^ 0xcbf2_9ce4_8422_2325u64, bytes)
}

/// Begins the checksum of a file, from that of the files before it.
pub fn checksum_start(seed: u64) -> (r: u64)
    ensures
        r == file_checksum(seed, Seq::<u8>::empty()),
{
    seed ^ 0xcbf2_9ce4_8422_2325u64
}

/// Goes on with a checksum.
pub fn checksum_update(hash: u64, bytes: &[u8]) -> (r: u64)
    ensures
        r == hashed(hash, bytes@),
{
    let mut h: u64 = hash;
    let mut i: usize = 0;
    assert(bytes@.take(0) =~= Seq::<u8>::empty());
    while i < bytes.len()
        invariant
            0 <= i <= bytes@.len(),
            h == hashed(hash, bytes@.take(i as int)),
        decreases bytes@.len() - i,
    {
        assert(bytes@.take(i + 1).drop_last() =~= bytes@.take(i as int));
        h = h.wrapping_mul(0x100_0000_01b3).wrapping_add(bytes[i] as u64);
        i = i + 1;
    }
    assert(bytes@.take(bytes@.len() as int) =~= bytes@);
    h
}

/// A checksum does not depend on the pieces in which the bytes are read.
pub proof fn checksums_go_on(hash: u64, a: Seq<u8>, b: Seq<u8>)
    ensures
        hashed(hashed(hash, a), b) == hashed(hash, a + b),
    decreases b.len(),
{
    if b.len() == 0 {
        assert(a + b =~= a);
    } else {
        checksums_go_on(hash, a, b.drop_last());
        assert((a + b).drop_last() =~= a + b.drop_last());
    }
}

/// Counts one more file of a backup; the checksum is that of the file.
pub fn add_backup_file(stats: &mut BackupManifestStats, length: u64, checksum: u64)
    requires
        old(stats).file_count < u64::MAX,
    ensures
        *final(stats) == (BackupManifestStats {
            file_count: (old(stats).file_count + 1) as u64,
            total_bytes: if old(stats).total_bytes + length > u64::MAX {
                u64::MAX
            } else {
                (old(stats).total_bytes + length) as u64
            },
            checksum,
        }),
{
    stats.file_count = stats.file_count + 1;
    stats.total_bytes = stats.total_bytes.saturating_add(length);
    stats.checksum = checksum;
}

/// The value that the last line `key=value` of a manifest gives a key.
pub open spec fn manifest_value(file: Seq<Seq<char>>, key: Seq<char>) -> Option<Seq<char>>
    decreases file.len(),
{
    if file.len() == 0 {
        None
    } else {
        match split_once(file.last(), "="@) {
            Some((k, v)) => if k == key {
                Some(v)
            } else {
                manifest_value(file.drop_last(), key)
            },
            None => manifest_value(file.drop_last(), key),
        }
    }
}

fn find_manifest_value(file: &[String], key: &str) -> (r: Option<String>)
    ensures
        match r {
            Some(v) => manifest_value(views(file@), key@) == Some(v@),
            None => manifest_value(views(file@), key@) is None,
        },
{
    let mut found: Option<String> = None;
    let mut i: usize = 0;
    let ghost all = views(file@);
    while i < file.len()
        invariant
            0 <= i <= file@.len(),
            all == views(file@),
            match found {
                Some(v) => manifest_value(all.take(i as int), key@) == Some(v@),
                None => manifest_value(all.take(i as int), key@) is None,
            },
        decreases file@.len() - i,
    {
        assert(all.take(i + 1).drop_last() =~= all.take(i as int));
        assert(all.take(i + 1).last() == file@[i as int]@);
        if let Some((k, v)) = split_first(file[i].as_str(), "=") {
            if same(k.as_str(), key) {
                found = Some(v);
            }
        }
        i = i + 1;
    }
    assert(all.take(all.len() as int) =~= all);
    found
}

/// What is wrong with a number of a manifest.
pub open spec fn manifest_number_problem(
    file: Seq<Seq<char>>,
    key: Seq<char>,
    actual: nat,
) -> Option<Seq<char>> {
    match manifest_value(file, key) {
        None => Some("missing "@ + key),
        Some(v) => match number(v, u64::MAX as nat) {
            None => Some("invalid backup manifest "@ + key),
            Some(expected) => if expected != actual {
                Some(
                    "backup manifest "@ + key + " mismatch: expected "@ + dec(expected)
                        + ", actual "@ + dec(actual),
                )
            } else {
                None
            },
        },
    }
}

fn verify_manifest_u64(file: &[String], key: &str, actual: u64) -> (r: Option<String>)
    ensures
        match r {
            Some(e) => manifest_number_problem(views(file@), key@, actual as nat) == Some(e@),
            None => manifest_number_problem(views(file@), key@, actual as nat) is None,
        },
{
    match find_manifest_value(file, key) {
        None => Some(cat("missing ", key)),
        Some(v) => match read_u64(v.as_str()) {
            None => Some(cat("invalid backup manifest ", key)),
            Some(expected) => if expected != actual {
                let mut e = "backup manifest ".to_owned();
                e.append(key);
                e.append(" mismatch: expected ");
                e.append(show(expected as u128).as_str());
                e.append(", actual ");
                e.append(show(actual as u128).as_str());
                Some(e)
            } else {
                None
            },
        },
    }
}

/// What is wrong with a manifest, given what the backup holds.
pub open spec fn manifest_problem(manifest: Seq<char>, stats: BackupManifestStats) -> Option<
    Seq<char>,
> {
    let file = lines(manifest);
    if manifest_value(file, "neo4r_backup_manifest_version"@) != Some("1"@) {
        Some("unsupported backup manifest version"@)
    } else if manifest_number_problem(file, "file_count"@, stats.file_count as nat) is Some {
        manifest_number_problem(file, "file_count"@, stats.file_count as nat)
    } else if manifest_number_problem(file, "total_bytes"@, stats.total_bytes as nat) is Some {
        manifest_number_problem(file, "total_bytes"@, stats.total_bytes as nat)
    } else if manifest_value(file, "checksum"@) is Some {
        manifest_number_problem(file, "checksum"@, stats.checksum as nat)
    } else {
        None
    }
}

/// Checks a manifest against what the backup holds.
pub fn verify_backup_manifest(manifest: &str, stats: &BackupManifestStats) -> (r: Result<
    (),
    String,
>)
    ensures
        match r {
            Ok(_) => manifest_problem(manifest@, *stats) is None,
            Err(e) => manifest_problem(manifest@, *stats) == Some(e@),
        },
{
    let file = lines_of(manifest);
    let supported = match find_manifest_value(file.as_slice(), "neo4r_backup_manifest_version") {
        Some(v) => same(v.as_str(), "1"),
        None => false,
    };
    if !supported {
        return Err("unsupported backup manifest version".to_owned());
    }
    if let Some(e) = verify_manifest_u64(file.as_slice(), "file_count", stats.file_count) {
        return Err(e);
    }
    if let Some(e) = verify_manifest_u64(file.as_slice(), "total_bytes", stats.total_bytes) {
        return Err(e);
    }
    if find_manifest_value(file.as_slice(), "checksum").is_some() {
        if let Some(e) = verify_manifest_u64(file.as_slice(), "checksum", stats.checksum) {
            return Err(e);
        }
    }
    Ok(())
}

/// The lines of the manifest of a backup.
pub open spec fn manifest_lines(
    database: Seq<char>,
    source: Seq<char>,
    target: Seq<char>,
    stats: BackupManifestStats,
    commit_indexes: Seq<u64>,
) -> Seq<char> {
    "neo4r_backup_manifest_version=1\ndatabase="@ + database + "\nsource="@ + source
        + "\ntarget="@ + target + "\nfile_count="@ + dec(stats.file_count as nat)
        + "\ntotal_bytes="@ + dec(stats.total_bytes as nat) + "\nchecksum="@ + dec(
        stats.checksum as nat,
    ) + "\ncommit_indexes="@ + number_list(commit_indexes) + "\n"@
}

/// What a backup leaves behind: its manifest, the entry of the audit log, and the answer.
pub struct BackupReport {
    pub manifest: String,
    pub note: AuditNote,
    pub body: String,
}

/// Reports a backup.
pub fn backup_report(
    database: &str,
    source: &str,
    target: &str,
    stats: &BackupManifestStats,
    commit_indexes: &[u64],
) -> (r: BackupReport)
    ensures
        r.manifest@ == manifest_lines(database@, source@, target@, *stats, commit_indexes@),
        r.note@ == (Note {
            action: "backup.create"@,
            target: database@,
            detail: "target="@ + target@ + " commit_indexes="@ + number_list(commit_indexes@),
        }),
        r.body@ == "{\"source\":\""@ + json_escaped(source@) + "\",\"target\":\""@ + json_escaped(
            target@,
        ) + "\",\"manifest\":\"neo4r-backup-manifest.txt\",\"file_count\":"@ + dec(
            stats.file_count as nat,
        ) + ",\"total_bytes\":"@ + dec(stats.total_bytes as nat) + ",\"checksum\":"@ + dec(
            stats.checksum as nat,
        ) + ",\"commit_indexes\":["@ + number_list(commit_indexes@) + "]}"@,
{
    let marker = show_numbers(commit_indexes);
    let mut manifest = "neo4r_backup_manifest_version=1\ndatabase=".to_owned();
    manifest.append(database);
    manifest.append("\nsource=");
    manifest.append(source);
    manifest.append("\ntarget=");
    manifest.append(target);
    manifest.append("\nfile_count=");
    manifest.append(show(stats.file_count as u128).as_str());
    manifest.append("\ntotal_bytes=");
    manifest.append(show(stats.total_bytes as u128).as_str());
    manifest.append("\nchecksum=");
    manifest.append(show(stats.checksum as u128).as_str());
    manifest.append("\ncommit_indexes=");
    manifest.append(marker.as_str());
    manifest.append("\n");
    let mut detail = "target=".to_owned();
    detail.append(target);
    detail.append(" commit_indexes=");
    detail.append(marker.as_str());
    let mut body = "{\"source\":\"".to_owned();
    body.append(json_escape(source).as_str());
    body.append("\",\"target\":\"");
    body.append(json_escape(target).as_str());
    body.append("\",\"manifest\":\"neo4r-backup-manifest.txt\",\"file_count\":");
    body.append(show(stats.file_count as u128).as_str());
    body.append(",\"total_bytes\":");
    body.append(show(stats.total_bytes as u128).as_str());
    body.append(",\"checksum\":");
    body.append(show(stats.checksum as u128).as_str());
    body.append(",\"commit_indexes\":[");
    body.append(marker.as_str());
    body.append("]}");
    BackupReport {
        manifest,
        note: AuditNote { action: "backup.create", target: database.to_owned(), detail },
        body,
    }
}

/// The manifest of a backup line by line.
spec fn manifest_file(
    database: Seq<char>,
    source: Seq<char>,
    target: Seq<char>,
    stats: BackupManifestStats,
    commit_indexes: Seq<u64>,
) -> Seq<Seq<char>> {
    seq![
        "neo4r_backup_manifest_version"@ + seq!['='] + "1"@,
        "database"@ + seq!['='] + database,
        "source"@ + seq!['='] + source,
        "target"@ + seq!['='] + target,
        "file_count"@ + seq!['='] + dec(stats.file_count as nat),
        "total_bytes"@ + seq!['='] + dec(stats.total_bytes as nat),
        "checksum"@ + seq!['='] + dec(stats.checksum as nat),
        "commit_indexes"@ + seq!['='] + number_list(commit_indexes),
    ]
}

proof fn lemma_manifest_keys()
    ensures
        !"neo4r_backup_manifest_version"@.contains('='),
        !"database"@.contains('='),
        !"source"@.contains('='),
        !"target"@.contains('='),
        !"file_count"@.contains('='),
        !"total_bytes"@.contains('='),
        !"checksum"@.contains('='),
        !"commit_indexes"@.contains('='),
        "neo4r_backup_manifest_version"@.len() == 29,
        "database"@.len() == 8,
        "source"@.len() == 6,
        "target"@.len() == 6,
        "file_count"@.len() == 10,
        "total_bytes"@.len() == 11,
        "checksum"@.len() == 8,
        "commit_indexes"@.len() == 14,
        "database"@ != "checksum"@,
        "1"@ == seq!['1'],
        "="@ == seq!['='],
{
    reveal_strlit("neo4r_backup_manifest_version");
    reveal_strlit("database");
    reveal_strlit("source");
    reveal_strlit("target");
    reveal_strlit("file_count");
    reveal_strlit("total_bytes");
    reveal_strlit("checksum");
    reveal_strlit("commit_indexes");
    reveal_strlit("1");
    reveal_strlit("=");
    assert("database"@[0] == 'd');
    assert("checksum"@[0] == 'c');
    assert("1"@ =~= seq!['1']);
    assert("="@ =~= seq!['=']);
}

/// Without a carriage return behind it, a line still begins with its key.
proof fn lemma_manifest_line(key: Seq<char>, value: Seq<char>)
    requires
        !key.contains('='),
    ensures
        ({
            let line = without_return(key + seq!['='] + value);
            let pair = split_once(line, "="@)->Some_0;
            &&& split_once(line, "="@) is Some
            &&& pair.0 == key
            &&& value.len() > 0 && value.last() != '\r' ==> pair.1 == value
        }),
{
    lemma_manifest_keys();
    let whole = key + seq!['='] + value;
    if value.len() == 0 {
        assert(whole.last() == '=');
        lemma_split_once_at_char(key, value, '=');
    } else {
        assert(whole.last() == value.last());
        if value.last() == '\r' {
            assert(whole.drop_last() =~= key + seq!['='] + value.drop_last());
            lemma_split_once_at_char(key, value.drop_last(), '=');
        } else {
            lemma_split_once_at_char(key, value, '=');
        }
    }
}

/// The digits of a number hold no line end.
proof fn lemma_plain_number(n: nat)
    ensures
        dec(n).len() > 0,
        dec(n).last() != '\r',
        !dec(n).contains('\n'),
{
    dec_is_digits(n);
    let s = dec(n);
    assert(is_digit(s[s.len() - 1]));
    if s.contains('\n') {
        let i = choose|i: int| 0 <= i < s.len() && s[i] == '\n';
        assert(is_digit(s[i]));
    }
}

proof fn lemma_plain_list(parts: Seq<Seq<char>>)
    requires
        forall|i: int| 0 <= i < parts.len() ==> !(#[trigger] parts[i]).contains('\n'),
    ensures
        !join(parts, ","@).contains('\n'),
    decreases parts.len(),
{
    reveal_strlit(",");
    if parts.len() > 0 {
        let rest = parts.drop_last();
        assert forall|i: int| 0 <= i < rest.len() implies !(#[trigger] rest[i]).contains('\n') by {
            assert(rest[i] == parts[i]);
        }
        lemma_plain_list(rest);
        let s = join(parts, ","@);
        if s.contains('\n') {
            let i = choose|i: int| 0 <= i < s.len() && s[i] == '\n';
            let before = join(rest, ","@);
            assert(!parts[parts.len() - 1].contains('\n'));
            if parts.len() > 1 {
                if i < before.len() {
                    assert(before[i] == '\n');
                } else if i >= before.len() + 1 {
                    assert(parts.last()[i - before.len() - 1] == '\n');
                }
            } else {
                assert(parts.last()[i] == '\n');
            }
        }
    }
}

proof fn lemma_plain_line(key: Seq<char>, value: Seq<char>)
    requires
        !key.contains('\n'),
        !value.contains('\n'),
    ensures
        !(key + seq!['='] + value).contains('\n'),
{
    let s = key + seq!['='] + value;
    if s.contains('\n') {
        let i = choose|i: int| 0 <= i < s.len() && s[i] == '\n';
        if i < key.len() {
            assert(key[i] == '\n');
        } else if i > key.len() {
            assert(value[i - key.len() - 1] == '\n');
        }
    }
}

/// A backup passes the check against its own manifest, where the names in it hold no line end.
pub proof fn backups_pass_their_manifest(
    database: Seq<char>,
    source: Seq<char>,
    target: Seq<char>,
    stats: BackupManifestStats,
    commit_indexes: Seq<u64>,
)
    requires
        !database.contains('\n'),
        !source.contains('\n'),
        !target.contains('\n'),
    ensures
        manifest_problem(
            manifest_lines(database, source, target, stats, commit_indexes),
            stats,
        ) is None,
{
    let file = manifest_file(database, source, target, stats, commit_indexes);
    let text = manifest_lines(database, source, target, stats, commit_indexes);
    lemma_manifest_text(database, source, target, stats, commit_indexes);
    let seen = file.map_values(|p: Seq<char>| without_return(p));
    lemma_manifest_keys();
    lemma_plain_number(stats.file_count as nat);
    lemma_plain_number(stats.total_bytes as nat);
    lemma_plain_number(stats.checksum as nat);
    lemma_manifest_line("neo4r_backup_manifest_version"@, "1"@);
    lemma_manifest_line("database"@, database);
    lemma_manifest_line("source"@, source);
    lemma_manifest_line("target"@, target);
    lemma_manifest_line("file_count"@, dec(stats.file_count as nat));
    lemma_manifest_line("total_bytes"@, dec(stats.total_bytes as nat));
    lemma_manifest_line("checksum"@, dec(stats.checksum as nat));
    lemma_manifest_line("commit_indexes"@, number_list(commit_indexes));
    assert(lines(text) == seen);
    let s8 = seen;
    let s7 = s8.drop_last();
    let s6 = s7.drop_last();
    let s5 = s6.drop_last();
    let s4 = s5.drop_last();
    let s3 = s4.drop_last();
    let s2 = s3.drop_last();
    let s1 = s2.drop_last();
    assert(manifest_value(s8, "checksum"@) == manifest_value(s7, "checksum"@));
    assert(manifest_value(s7, "checksum"@) == Some(dec(stats.checksum as nat)));
    assert(manifest_value(s8, "total_bytes"@) == manifest_value(s7, "total_bytes"@));
    assert(manifest_value(s7, "total_bytes"@) == manifest_value(s6, "total_bytes"@));
    assert(manifest_value(s6, "total_bytes"@) == Some(dec(stats.total_bytes as nat)));
    assert(manifest_value(s8, "file_count"@) == manifest_value(s7, "file_count"@));
    assert(manifest_value(s7, "file_count"@) == manifest_value(s6, "file_count"@));
    assert(manifest_value(s6, "file_count"@) == manifest_value(s5, "file_count"@));
    assert(manifest_value(s5, "file_count"@) == Some(dec(stats.file_count as nat)));
    let key = "neo4r_backup_manifest_version"@;
    assert(manifest_value(s8, key) == manifest_value(s7, key));
    assert(manifest_value(s7, key) == manifest_value(s6, key));
    assert(manifest_value(s6, key) == manifest_value(s5, key));
    assert(manifest_value(s5, key) == manifest_value(s4, key));
    assert(manifest_value(s4, key) == manifest_value(s3, key));
    assert(manifest_value(s3, key) == manifest_value(s2, key));
    assert(manifest_value(s2, key) == manifest_value(s1, key));
    assert(manifest_value(s1, key) == Some("1"@));
    number_reads_dec(stats.file_count as nat, u64::MAX as nat);
    number_reads_dec(stats.total_bytes as nat, u64::MAX as nat);
    number_reads_dec(stats.checksum as nat, u64::MAX as nat);
}

/// The manifest read line by line.
proof fn lemma_manifest_text(
    database: Seq<char>,
    source: Seq<char>,
    target: Seq<char>,
    stats: BackupManifestStats,
    commit_indexes: Seq<u64>,
)
    requires
        !database.contains('\n'),
        !source.contains('\n'),
        !target.contains('\n'),
    ensures
        lines(manifest_lines(database, source, target, stats, commit_indexes)) == manifest_file(
            database,
            source,
            target,
            stats,
            commit_indexes,
        ).map_values(|p: Seq<char>| without_return(p)),
{
    let file = manifest_file(database, source, target, stats, commit_indexes);
    let text = manifest_lines(database, source, target, stats, commit_indexes);
    reveal_strlit("neo4r_backup_manifest_version=1\ndatabase=");
    reveal_strlit("\nsource=");
    reveal_strlit("\ntarget=");
    reveal_strlit("\nfile_count=");
    reveal_strlit("\ntotal_bytes=");
    reveal_strlit("\nchecksum=");
    reveal_strlit("\ncommit_indexes=");
    reveal_strlit("\n");
    reveal_strlit("neo4r_backup_manifest_version");
    reveal_strlit("database");
    reveal_strlit("source");
    reveal_strlit("target");
    reveal_strlit("file_count");
    reveal_strlit("total_bytes");
    reveal_strlit("checksum");
    reveal_strlit("commit_indexes");
    reveal_strlit("1");
    let end = seq!['\n'];
    let eq = seq!['='];
    assert("neo4r_backup_manifest_version=1\ndatabase="@ =~= "neo4r_backup_manifest_version"@ + eq
        + "1"@ + end + "database"@ + eq);
    assert("\nsource="@ =~= end + "source"@ + eq);
    assert("\ntarget="@ =~= end + "target"@ + eq);
    assert("\nfile_count="@ =~= end + "file_count"@ + eq);
    assert("\ntotal_bytes="@ =~= end + "total_bytes"@ + eq);
    assert("\nchecksum="@ =~= end + "checksum"@ + eq);
    assert("\ncommit_indexes="@ =~= end + "commit_indexes"@ + eq);
    assert("\n"@ =~= end);
    let t1 = seq![file[0]];
    let t2 = t1.push(file[1]);
    let t3 = t2.push(file[2]);
    let t4 = t3.push(file[3]);
    let t5 = t4.push(file[4]);
    let t6 = t5.push(file[5]);
    let t7 = t6.push(file[6]);
    let t8 = t7.push(file[7]);
    assert(t8 =~= file);
    assert(t1.drop_last() =~= Seq::<Seq<char>>::empty());
    assert(t2.drop_last() =~= t1 && t3.drop_last() =~= t2 && t4.drop_last() =~= t3);
    assert(t5.drop_last() =~= t4 && t6.drop_last() =~= t5 && t7.drop_last() =~= t6);
    assert(t8.drop_last() =~= t7);
    assert(terminated(t1.drop_last()) =~= Seq::<char>::empty());
    assert(terminated(t1) =~= file[0] + end);
    let x2 = "neo4r_backup_manifest_version=1\ndatabase="@ + database;
    let x3 = x2 + "\nsource="@ + source;
    let x4 = x3 + "\ntarget="@ + target;
    let x5 = x4 + "\nfile_count="@ + dec(stats.file_count as nat);
    let x6 = x5 + "\ntotal_bytes="@ + dec(stats.total_bytes as nat);
    let x7 = x6 + "\nchecksum="@ + dec(stats.checksum as nat);
    let x8 = x7 + "\ncommit_indexes="@ + number_list(commit_indexes);
    assert(x2 + end =~= terminated(t1) + file[1] + end);
    assert(x3 + end =~= x2 + end + file[2] + end);
    assert(x4 + end =~= x3 + end + file[3] + end);
    assert(x5 + end =~= x4 + end + file[4] + end);
    assert(x6 + end =~= x5 + end + file[5] + end);
    assert(x7 + end =~= x6 + end + file[6] + end);
    assert(x8 + end =~= x7 + end + file[7] + end);
    assert(terminated(t2) == x2 + end);
    assert(terminated(t3) == x3 + end);
    assert(terminated(t4) == x4 + end);
    assert(terminated(t5) == x5 + end);
    assert(terminated(t6) == x6 + end);
    assert(terminated(t7) == x7 + end);
    assert(terminated(file) == x8 + end);
    assert(text == x8 + end);
    assert forall|i: int| 0 <= i < file.len() implies !(#[trigger] file[i]).contains('\n') by {
        lemma_plain_number(stats.file_count as nat);
        lemma_plain_number(stats.total_bytes as nat);
        lemma_plain_number(stats.checksum as nat);
        assert forall|k: int| 0 <= k < dec_all(commit_indexes).len() implies !(
        #[trigger] dec_all(commit_indexes)[k]).contains('\n') by {
            lemma_plain_number(commit_indexes[k] as nat);
        }
        lemma_plain_list(dec_all(commit_indexes));
        lemma_plain_line("neo4r_backup_manifest_version"@, "1"@);
        lemma_plain_line("database"@, database);
        lemma_plain_line("source"@, source);
        lemma_plain_line("target"@, target);
        lemma_plain_line("file_count"@, dec(stats.file_count as nat));
        lemma_plain_line("total_bytes"@, dec(stats.total_bytes as nat));
        lemma_plain_line("checksum"@, dec(stats.checksum as nat));
        lemma_plain_line("commit_indexes"@, number_list(commit_indexes));
    }
    lemma_split_terminated(file);
    assert(file.push(Seq::<char>::empty()).drop_last() =~= file);
}

/// What keeps a restore from going on: a missing or wrong manifest; and for one that
/// replaces data, that the database is not in maintenance.
pub open spec fn restore_problem(
    manifest_path: Seq<char>,
    manifest: Option<Seq<char>>,
    stats: BackupManifestStats,
    dry_run: bool,
    maintenance: bool,
) -> Option<Seq<char>> {
    match manifest {
        None => Some("backup manifest "@ + manifest_path + " is missing"@),
        Some(text) => match manifest_problem(text, stats) {
            Some(e) => Some(e),
            None => if !dry_run && !maintenance {
                Some(
                    "destructive restore requires maintenance mode before data files are replaced"@,
                )
            } else {
                None
            },
        },
    }
}

/// Lets a restore go on, or tells what keeps it from it.
pub fn check_restore(
    manifest_path: &str,
    manifest: &Option<String>,
    stats: &BackupManifestStats,
    dry_run: bool,
    maintenance: bool,
) -> (r: Result<(), String>)
    ensures
        match r {
            Ok(_) => restore_problem(
                manifest_path@,
                crate::http::opt_text(*manifest),
                *stats,
                dry_run,
                maintenance,
            ) is None,
            Err(e) => restore_problem(
                manifest_path@,
                crate::http::opt_text(*manifest),
                *stats,
                dry_run,
                maintenance,
            ) == Some(e@),
        },
{
    match manifest {
        None => Err(cat3("backup manifest ", manifest_path, " is missing")),
        Some(text) => match verify_backup_manifest(text.as_str(), stats) {
            Err(e) => Err(e),
            Ok(_) => if !dry_run && !maintenance {
                Err(
                    "destructive restore requires maintenance mode before data files are replaced".to_owned(),
                )
            } else {
                Ok(())
            },
        },
    }
}

/// Data is replaced only while the database is in maintenance, and only from a backup that
/// agrees with its manifest.
pub proof fn restores_replace_data_only_in_maintenance(
    manifest_path: Seq<char>,
    manifest: Option<Seq<char>>,
    stats: BackupManifestStats,
    maintenance: bool,
)
    requires
        restore_problem(manifest_path, manifest, stats, false, maintenance) is None,
    ensures
        maintenance,
        manifest is Some,
        manifest_problem(manifest.unwrap(), stats) is None,
{
}

/// Reports a restore: the entry of the audit log, and the answer.
pub fn restore_report(
    database: &str,
    source: &str,
    target: &str,
    stats: &BackupManifestStats,
    dry_run: bool,
) -> (r: (AuditNote, String))
    ensures
        r.0@ == (Note {
            action: if dry_run {
                "restore.verify"@
            } else {
                "restore.apply"@
            },
            target: database@,
            detail: "source="@ + source@ + " dry_run="@ + bool_text(dry_run),
        }),
        r.1@ == "{\"source\":\""@ + json_escaped(source@) + "\",\"target\":\""@ + json_escaped(
            target@,
        ) + "\",\"manifest\":\"neo4r-backup-manifest.txt\",\"dry_run\":"@ + bool_text(dry_run)
            + ",\"verified\":true,\"file_count\":"@ + dec(stats.file_count as nat)
            + ",\"total_bytes\":"@ + dec(stats.total_bytes as nat) + ",\"checksum\":"@ + dec(
            stats.checksum as nat,
        ) + "}"@,
{
    let action = if dry_run {
        "restore.verify"
    } else {
        "restore.apply"
    };
    let mut detail = "source=".to_owned();
    detail.append(source);
    detail.append(" dry_run=");
    detail.append(show_bool(dry_run));
    let mut body = "{\"source\":\"".to_owned();
    body.append(json_escape(source).as_str());
    body.append("\",\"target\":\"");
    body.append(json_escape(target).as_str());
    body.append("\",\"manifest\":\"neo4r-backup-manifest.txt\",\"dry_run\":");
    body.append(show_bool(dry_run));
    body.append(",\"verified\":true,\"file_count\":");
    body.append(show(stats.file_count as u128).as_str());
    body.append(",\"total_bytes\":");
    body.append(show(stats.total_bytes as u128).as_str());
    body.append(",\"checksum\":");
    body.append(show(stats.checksum as u128).as_str());
    body.append("}");
    (AuditNote { action, target: database.to_owned(), detail }, body)
}

/// Tells whether the database is in maintenance now.
pub fn maintenance_mode_json(enabled: bool, path: &str) -> (r: String)
    ensures
        r@ == "{\"maintenance_mode\":"@ + bool_text(enabled) + ",\"path\":\""@ + json_escaped(path@)
            + "\"}"@,
{
    let mut r = "{\"maintenance_mode\":".to_owned();
    r.append(show_bool(enabled));
    r.append(",\"path\":\"");
    r.append(json_escape(path).as_str());
    r.append("\"}");
    r
}

/// An entry of a shard's log: its index and its time.
#[derive(Clone, Copy)]
pub struct LogEntryStamp {
    pub index: u64,
    pub physical_ms: u64,
    pub logical: u32,
}

/// A point in time.
#[derive(Clone, Copy)]
pub struct PitrTarget {
    pub physical_ms: u64,
    pub logical: u32,
}

/// Whether an entry is no later than a point in time.
pub open spec fn no_later(e: LogEntryStamp, t: PitrTarget) -> bool {
    e.physical_ms < t.physical_ms || (e.physical_ms == t.physical_ms && e.logical <= t.logical)
}

/// Whether an entry is kept by a restore to a point in time.
pub open spec fn is_selected(e: LogEntryStamp, committed: u64, t: PitrTarget) -> bool {
    e.index <= committed && no_later(e, t)
}

/// How many of the first entries a restore keeps.
pub open spec fn selected_count(entries: Seq<LogEntryStamp>, committed: u64, t: PitrTarget) -> nat
    decreases entries.len(),
{
    if entries.len() == 0 {
        0
    } else {
        selected_count(entries.drop_last(), committed, t) + (if is_selected(
            entries.last(),
            committed,
            t,
        ) {
            1nat
        } else {
            0nat
        })
    }
}

/// The index of the last of the first entries that a restore keeps, or zero.
pub open spec fn target_index(entries: Seq<LogEntryStamp>, committed: u64, t: PitrTarget) -> u64
    decreases entries.len(),
{
    if entries.len() == 0 {
        0
    } else if is_selected(entries.last(), committed, t) {
        entries.last().index
    } else {
        target_index(entries.drop_last(), committed, t)
    }
}

/// What a restore to a point in time does to a shard.
pub open spec fn shard_plan_text(
    shard_id: nat,
    committed: u64,
    entries: Seq<LogEntryStamp>,
    t: PitrTarget,
) -> Seq<char> {
    "{\"shard_id\":"@ + dec(shard_id) + ",\"committed_index\":"@ + dec(committed as nat)
        + ",\"target_index\":"@ + dec(target_index(entries, committed, t) as nat)
        + ",\"selected_entries\":"@ + dec(selected_count(entries, committed, t)) + "}"@
}

/// Plans what a restore to a point in time does to a shard.
pub fn pitr_shard_plan(
    shard_id: u64,
    committed_index: u64,
    entries: &[LogEntryStamp],
    target: PitrTarget,
) -> (r: String)
    ensures
        r@ == shard_plan_text(shard_id as nat, committed_index, entries@, target),
{
    let mut count: usize = 0;
    let mut last: u64 = 0;
    let mut i: usize = 0;
    assert(entries@.take(0) =~= Seq::<LogEntryStamp>::empty());
    while i < entries.len()
        invariant
            0 <= i <= entries@.len(),
            count <= i,
            count == selected_count(entries@.take(i as int), committed_index, target),
            last == target_index(entries@.take(i as int), committed_index, target),
        decreases entries@.len() - i,
    {
        assert(entries@.take(i + 1).drop_last() =~= entries@.take(i as int));
        assert(entries@.take(i + 1).last() == entries@[i as int]);
        let e = entries[i];
        if e.index <= committed_index && (e.physical_ms < target.physical_ms || (e.physical_ms
            == target.physical_ms && e.logical <= target.logical)) {
            count = count + 1;
            last = e.index;
        }
        i = i + 1;
    }
    assert(entries@.take(entries@.len() as int) =~= entries@);
    let mut r = "{\"shard_id\":".to_owned();
    r.append(show(shard_id as u128).as_str());
    r.append(",\"committed_index\":");
    r.append(show(committed_index as u128).as_str());
    r.append(",\"target_index\":");
    r.append(show(last as u128).as_str());
    r.append(",\"selected_entries\":");
    r.append(show(count as u128).as_str());
    r.append("}");
    r
}

/// What a restore to a point in time does to the shards: each is known by its place.
pub open spec fn shard_plan_texts(
    committed: Seq<u64>,
    logs: Seq<Vec<LogEntryStamp>>,
    t: PitrTarget,
) -> Seq<Seq<char>> {
    Seq::new(committed.len(), |i: int| shard_plan_text(i as nat, committed[i], logs[i]@, t))
}

/// Plans what a restore to a point in time does to the shards, from what is committed of each
/// and from its log.
pub fn pitr_restore_plan_shards(
    committed_indexes: &[u64],
    logs: &[Vec<LogEntryStamp>],
    target: PitrTarget,
) -> (r: Vec<String>)
    requires
        logs@.len() == committed_indexes@.len(),
    ensures
        views(r@) == shard_plan_texts(committed_indexes@, logs@, target),
{
    let ghost all = shard_plan_texts(committed_indexes@, logs@, target);
    let mut r: Vec<String> = Vec::new();
    let mut i: usize = 0;
    assert(views(r@) =~= all.take(0));
    while i < committed_indexes.len()
        invariant
            0 <= i <= committed_indexes@.len(),
            logs@.len() == committed_indexes@.len(),
            all == shard_plan_texts(committed_indexes@, logs@, target),
            views(r@) == all.take(i as int),
        decreases committed_indexes@.len() - i,
    {
        let plan = pitr_shard_plan(i as u64, committed_indexes[i], logs[i].as_slice(), target);
        proof {
            lemma_views_push(r@, plan);
            assert(all.take(i + 1) =~= all.take(i as int).push(all[i as int]));
        }
        r.push(plan);
        i = i + 1;
    }
    assert(all.take(committed_indexes@.len() as int) =~= all);
    r
}

/// A restore to a point in time never goes past what is committed, nor past the point.
pub proof fn pitr_stays_within_the_target(
    entries: Seq<LogEntryStamp>,
    committed: u64,
    t: PitrTarget,
)
    ensures
        target_index(entries, committed, t) <= committed,
        selected_count(entries, committed, t) <= entries.len(),
        selected_count(entries, committed, t) > 0 ==> exists|i: int|
            0 <= i < entries.len() && is_selected(#[trigger] entries[i], committed, t)
                && entries[i].index == target_index(entries, committed, t),
    decreases entries.len(),
{
    if entries.len() > 0 {
        let front = entries.drop_last();
        pitr_stays_within_the_target(front, committed, t);
        if is_selected(entries.last(), committed, t) {
            assert(is_selected(entries[entries.len() - 1], committed, t));
        } else if selected_count(front, committed, t) > 0 {
            let i = choose|i: int|
                0 <= i < front.len() && is_selected(#[trigger] front[i], committed, t)
                    && front[i].index == target_index(front, committed, t);
            assert(entries[i] == front[i]);
        }
    }
}

/// The point in time that a request names.
pub open spec fn requested_target(body: Seq<char>) -> Result<(nat, u32), Seq<char>> {
    match optional_number_field(body, "target_physical_ms"@) {
        Err(e) => Err(e),
        Ok(None) => Err("target_physical_ms is required"@),
        Ok(Some(ms)) => match optional_number_field(body, "target_logical"@) {
            Err(e) => Err(e),
            Ok(None) => Ok((ms, 0)),
            Ok(Some(n)) => Ok((ms, (n as u64) as u32)),
        },
    }
}

fn read_target(body: &str) -> (r: Result<PitrTarget, String>)
    ensures
        match r {
            Ok(t) => requested_target(body@) == Ok::<(nat, u32), Seq<char>>(
                (t.physical_ms as nat, t.logical),
            ),
            Err(e) => requested_target(body@) == Err::<(nat, u32), Seq<char>>(e@),
        },
{
    let physical_ms: u64 = match extract_optional_json_u64_field(body, "target_physical_ms") {
        Err(e) => return Err(e),
        Ok(None) => return Err("target_physical_ms is required".to_owned()),
        Ok(Some(n)) => n,
    };
    let logical: u64 = match extract_optional_json_u64_field(body, "target_logical") {
        Err(e) => return Err(e),
        Ok(None) => 0,
        Ok(Some(n)) => n,
    };
    assert(0u64 as u32 == 0u32) by (bit_vector);
    Ok(PitrTarget { physical_ms, logical: #[verifier::truncate] (logical as u32) })
}

/// The point in time of a plan: only a plan that changes nothing is made.
pub open spec fn planned_target(body: Seq<char>) -> Result<(nat, u32), Seq<char>> {
    match requested_target(body) {
        Err(e) => Err(e),
        Ok(t) => match bool_field(body, "dry_run"@) {
            Err(e) => Err(e),
            Ok(dry_run) => if dry_run {
                Ok(t)
            } else {
                Err("PITR timestamp restore currently requires dry_run=true"@)
            },
        },
    }
}

/// Reads the point in time of a plan.
pub fn read_pitr_plan(body: &str) -> (r: Result<PitrTarget, String>)
    ensures
        match r {
            Ok(t) => planned_target(body@) == Ok::<(nat, u32), Seq<char>>(
                (t.physical_ms as nat, t.logical),
            ),
            Err(e) => planned_target(body@) == Err::<(nat, u32), Seq<char>>(e@),
        },
{
    match read_target(body) {
        Err(e) => Err(e),
        Ok(t) => match extract_optional_json_bool_field(body, "dry_run") {
            Err(e) => Err(e),
            Ok(dry_run) => if dry_run {
                Ok(t)
            } else {
                Err("PITR timestamp restore currently requires dry_run=true".to_owned())
            },
        },
    }
}

/// Whether a request confirms what it asks for.
pub open spec fn is_confirmed(body: Seq<char>, word: Seq<char>) -> Result<bool, Seq<char>> {
    match optional_string_field(body, "confirm"@) {
        Err(e) => Err(e),
        Ok(given) => Ok(given == Some(word)),
    }
}

fn read_confirmed(body: &str, word: &str) -> (r: Result<bool, String>)
    ensures
        match r {
            Ok(b) => is_confirmed(body@, word@) == Ok::<bool, Seq<char>>(b),
            Err(e) => is_confirmed(body@, word@) == Err::<bool, Seq<char>>(e@),
        },
{
    match extract_optional_json_string_field(body, "confirm") {
        Err(e) => Err(e),
        Ok(None) => Ok(false),
        Ok(Some(given)) => Ok(same(given.as_str(), word)),
    }
}

/// The point in time of a restore, which has to be confirmed.
pub open spec fn applied_target(body: Seq<char>) -> Result<(nat, u32), Seq<char>> {
    match requested_target(body) {
        Err(e) => Err(e),
        Ok(t) => match is_confirmed(body, "RESTORE_PITR"@) {
            Err(e) => Err(e),
            Ok(confirmed) => if confirmed {
                Ok(t)
            } else {
                Err("destructive PITR restore requires confirm=\"RESTORE_PITR\""@)
            },
        },
    }
}

/// Reads the point in time of a restore.
pub fn read_pitr_apply(body: &str) -> (r: Result<PitrTarget, String>)
    ensures
        match r {
            Ok(t) => applied_target(body@) == Ok::<(nat, u32), Seq<char>>(
                (t.physical_ms as nat, t.logical),
            ),
            Err(e) => applied_target(body@) == Err::<(nat, u32), Seq<char>>(e@),
        },
{
    match read_target(body) {
        Err(e) => Err(e),
        Ok(t) => match read_confirmed(body, "RESTORE_PITR") {
            Err(e) => Err(e),
            Ok(confirmed) => if confirmed {
                Ok(t)
            } else {
                Err("destructive PITR restore requires confirm=\"RESTORE_PITR\"".to_owned())
            },
        },
    }
}

/// Checks that a request confirms the end of a restore.
pub fn read_pitr_complete(body: &str) -> (r: Result<(), String>)
    ensures
        match is_confirmed(body@, "PITR_COMPLETE"@) {
            Err(e) => r is Err && r->Err_0@ == e,
            Ok(confirmed) => if confirmed {
                r is Ok
            } else {
                r is Err && r->Err_0@ == "PITR completion requires confirm=\"PITR_COMPLETE\""@
            },
        },
{
    match read_confirmed(body, "PITR_COMPLETE") {
        Err(e) => Err(e),
        Ok(confirmed) => if confirmed {
            Ok(())
        } else {
            Err("PITR completion requires confirm=\"PITR_COMPLETE\"".to_owned())
        },
    }
}

/// The point in time as the audit log notes it.
pub open spec fn target_detail(t: PitrTarget) -> Seq<char> {
    "target_physical_ms="@ + dec(t.physical_ms as nat) + " target_logical="@ + dec(t.logical as nat)
}

fn show_target_detail(t: PitrTarget) -> (r: String)
    ensures
        r@ == target_detail(t),
{
    let mut r = "target_physical_ms=".to_owned();
    r.append(show(t.physical_ms as u128).as_str());
    r.append(" target_logical=");
    r.append(show(t.logical as u128).as_str());
    r
}

/// Reports the plan of a restore to a point in time.
pub fn pitr_plan_report(database: &str, target: PitrTarget, shard_plans: &[String]) -> (r: (
    AuditNote,
    String,
))
    ensures
        r.0@ == (Note {
            action: "restore.pitr.plan"@,
            target: database@,
            detail: target_detail(target),
        }),
        r.1@ == "{\"database\":\""@ + json_escaped(database@)
            + "\",\"dry_run\":true,\"target_physical_ms\":"@ + dec(target.physical_ms as nat)
            + ",\"target_logical\":"@ + dec(target.logical as nat) + ",\"shards\":["@ + join(
            views(shard_plans@),
            ","@,
        ) + "]}"@,
{
    let mut body = "{\"database\":\"".to_owned();
    body.append(json_escape(database).as_str());
    body.append("\",\"dry_run\":true,\"target_physical_ms\":");
    body.append(show(target.physical_ms as u128).as_str());
    body.append(",\"target_logical\":");
    body.append(show(target.logical as u128).as_str());
    body.append(",\"shards\":[");
    body.append(join_with(shard_plans, ",").as_str());
    body.append("]}");
    (
        AuditNote {
            action: "restore.pitr.plan",
            target: database.to_owned(),
            detail: show_target_detail(target),
        },
        body,
    )
}

/// The file that tells of a restore to a point in time that has not been finished.
pub fn pitr_pending_manifest(database: &str, target: PitrTarget, shard_plans: &[String]) -> (r:
    String)
    ensures
        r@ == "pitr_restore_manifest:v1\ndatabase="@ + database@ + "\ntarget_physical_ms="@ + dec(
            target.physical_ms as nat,
        ) + "\ntarget_logical="@ + dec(target.logical as nat) + "\nshards="@ + join(
            views(shard_plans@),
            ";"@,
        ) + "\n"@,
{
    let mut r = "pitr_restore_manifest:v1\ndatabase=".to_owned();
    r.append(database);
    r.append("\ntarget_physical_ms=");
    r.append(show(target.physical_ms as u128).as_str());
    r.append("\ntarget_logical=");
    r.append(show(target.logical as u128).as_str());
    r.append("\nshards=");
    r.append(join_with(shard_plans, ";").as_str());
    r.append("\n");
    r
}

/// Reports a restore to a point in time.
pub fn pitr_apply_report(
    database: &str,
    target: PitrTarget,
    shard_plans: &[String],
    manifest_path: &str,
    result: &StorageMaintenance,
) -> (r: (AuditNote, String))
    ensures
        r.0@ == (Note {
            action: "restore.pitr.apply"@,
            target: database@,
            detail: target_detail(target) + " manifest="@ + manifest_path@ + " action="@
                + result.action@,
        }),
        r.1@ == "{\"database\":\""@ + json_escaped(database@)
            + "\",\"accepted\":true,\"manifest\":\""@ + json_escaped(manifest_path@)
            + "\",\"target_physical_ms\":"@ + dec(target.physical_ms as nat)
            + ",\"target_logical\":"@ + dec(target.logical as nat) + ",\"shards\":["@ + join(
            views(shard_plans@),
            ","@,
        ) + "],\"maintenance\":"@ + maintenance_text(*result) + "}"@,
{
    let mut detail = show_target_detail(target);
    detail.append(" manifest=");
    detail.append(manifest_path);
    detail.append(" action=");
    detail.append(result.action.as_str());
    let mut body = "{\"database\":\"".to_owned();
    body.append(json_escape(database).as_str());
    body.append("\",\"accepted\":true,\"manifest\":\"");
    body.append(json_escape(manifest_path).as_str());
    body.append("\",\"target_physical_ms\":");
    body.append(show(target.physical_ms as u128).as_str());
    body.append(",\"target_logical\":");
    body.append(show(target.logical as u128).as_str());
    body.append(",\"shards\":[");
    body.append(join_with(shard_plans, ",").as_str());
    body.append("],\"maintenance\":");
    body.append(storage_maintenance_json(result).as_str());
    body.append("}");
    (AuditNote { action: "restore.pitr.apply", target: database.to_owned(), detail }, body)
}

/// Tells of a restore to a point in time that has not been finished, if there is one.
pub fn pitr_pending_json(database: &str, path: &str, manifest: &Option<String>) -> (r: String)
    ensures
        r@ == (match *manifest {
            None => "{\"database\":\""@ + json_escaped(database@) + "\",\"pending\":false}"@,
            Some(text) => "{\"database\":\""@ + json_escaped(database@)
                + "\",\"pending\":true,\"manifest\":\""@ + json_escaped(path@)
                + "\",\"content\":\""@ + json_escaped(text@) + "\"}"@,
        }),
{
    let mut r = "{\"database\":\"".to_owned();
    r.append(json_escape(database).as_str());
    match manifest {
        None => {
            r.append("\",\"pending\":false}");
        },
        Some(text) => {
            r.append("\",\"pending\":true,\"manifest\":\"");
            r.append(json_escape(path).as_str());
            r.append("\",\"content\":\"");
            r.append(json_escape(text.as_str()).as_str());
            r.append("\"}");
        },
    }
    r
}

/// Reports the end of a restore to a point in time.
pub fn pitr_complete_report(database: &str, manifest_path: &str) -> (r: (AuditNote, String))
    ensures
        r.0@ == (Note {
            action: "restore.pitr.complete"@,
            target: database@,
            detail: "manifest="@ + manifest_path@,
        }),
        r.1@ == "{\"database\":\""@ + json_escaped(database@)
            + "\",\"pending\":false,\"completed\":true}"@,
{
    (
        AuditNote {
            action: "restore.pitr.complete",
            target: database.to_owned(),
            detail: cat("manifest=", manifest_path),
        },
        cat3(
            "{\"database\":\"",
            json_escape(database).as_str(),
            "\",\"pending\":false,\"completed\":true}",
        ),
    )
}

} // verus!
