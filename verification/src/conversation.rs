//! What one server sends, another reads: the laws of the texts that servers exchange.

use vstd::prelude::*;

use crate::commands::{tx_command, TxCommand};
use crate::cursors::{cells, page_rows, prepared_response, result_paged, result_started, start_rows};
use crate::execution::prepared_text;
use crate::json::bool_text;
use crate::native::{cancel_of, cursor_number, fetch_of, result_page, result_start, total_text};
use crate::text::{
    dec, dec_is_digits, is_digit, join, lemma_split_once_at_char, number_reads_dec, split,
    splitting_undoes_joining, trim, trim_end, trim_start,
};
use crate::two_phase::{abort_request, commit_request};
use crate::wire::batch_payload;

verus! {

/// The digits of a number separate nothing, and nothing of them is trimmed.
proof fn lemma_digits(n: nat)
    ensures
        !dec(n).contains('\t'),
        dec(n).len() > 0,
        trim(dec(n)) == dec(n),
        is_digit(dec(n)[0]),
{
    let s = dec(n);
    dec_is_digits(n);
    assert(is_digit(s[0]));
    assert(is_digit(s[s.len() - 1]));
    assert(trim_start(s) == s);
    assert(trim_end(s) == s);
    if s.contains('\t') {
        let i = choose|i: int| 0 <= i < s.len() && s[i] == '\t';
        assert(is_digit(s[i]));
    }
}

/// The number of a cursor reads back.
proof fn lemma_cursor_number(n: u64)
    ensures
        cursor_number(dec(n as nat)) == Ok::<nat, Seq<char>>(n as nat),
{
    lemma_digits(n as nat);
    number_reads_dec(n as nat, u64::MAX as nat);
}

proof fn lemma_tab()
    ensures
        "\t"@ == seq!['\t'],
{
    reveal_strlit("\t");
    assert("\t"@ =~= seq!['\t']);
}

/// A cell in front of a line is the first of its cells.
proof fn lemma_cells(a: Seq<char>, b: Seq<char>, n: nat)
    requires
        !a.contains('\t'),
        n > 1,
    ensures
        cells(a + "\t"@ + b, n) == seq![a] + cells(b, (n - 1) as nat),
{
    lemma_tab();
    lemma_split_once_at_char(a, b, '\t');
}

proof fn lemma_bool_text(b: bool)
    ensures
        !bool_text(b).contains('\t'),
        "true"@ != "false"@,
{
    reveal_strlit("true");
    reveal_strlit("false");
    assert("true"@.len() == 4);
    assert("false"@.len() == 5);
}

proof fn lemma_total_text(total: Option<nat>)
    ensures
        !total_text(total).contains('\t'),
        total is Some ==> total_text(total) != "UNKNOWN"@,
{
    reveal_strlit("UNKNOWN");
    match total {
        None => {},
        Some(n) => {
            lemma_digits(n);
            assert("UNKNOWN"@[0] == 'U');
        },
    }
}

/// Six cells in front of a line are the first of its cells.
proof fn lemma_seven_cells(
    a: Seq<char>,
    b: Seq<char>,
    c: Seq<char>,
    d: Seq<char>,
    e: Seq<char>,
    f: Seq<char>,
    rest: Seq<char>,
)
    requires
        !a.contains('\t'),
        !b.contains('\t'),
        !c.contains('\t'),
        !d.contains('\t'),
        !e.contains('\t'),
        !f.contains('\t'),
    ensures
        cells(
            a + "\t"@ + (b + "\t"@ + (c + "\t"@ + (d + "\t"@ + (e + "\t"@ + (f + "\t"@ + rest))))),
            7,
        ) == seq![a, b, c, d, e, f, rest],
{
    let r5 = f + "\t"@ + rest;
    let r4 = e + "\t"@ + r5;
    let r3 = d + "\t"@ + r4;
    let r2 = c + "\t"@ + r3;
    let r1 = b + "\t"@ + r2;
    lemma_cells(a, r1, 7);
    lemma_cells(b, r2, 6);
    lemma_cells(c, r3, 5);
    lemma_cells(d, r4, 4);
    lemma_cells(e, r5, 3);
    lemma_cells(f, rest, 2);
    assert(cells(rest, 1) == seq![rest]);
    assert(seq![a] + (seq![b] + (seq![c] + (seq![d] + (seq![e] + (seq![f] + seq![rest])))))
        =~= seq![a, b, c, d, e, f, rest]);
}

/// Texts with tabs between them, taken from the left as from the right.
proof fn lemma_regrouped(
    p: Seq<char>,
    c: Seq<char>,
    d: Seq<char>,
    e: Seq<char>,
    f: Seq<char>,
    tab: Seq<char>,
    rest: Seq<char>,
)
    ensures
        p + c + tab + d + tab + e + tab + f + tab + rest == p + (c + tab + (d + tab + (e + tab + (f
            + tab + rest)))),
{
    let r4 = f + tab + rest;
    let r3 = e + tab + r4;
    let r2 = d + tab + r3;
    assert(p + c + tab + d + tab + e + tab + f + tab + rest =~= p + c + tab + d + tab + e + tab
        + r4);
    assert(p + c + tab + d + tab + e + tab + r4 =~= p + c + tab + d + tab + r3);
    assert(p + c + tab + d + tab + r3 =~= p + c + tab + r2);
    assert(p + c + tab + r2 =~= p + (c + tab + r2));
}

/// The first page of a result that a server sends is read as it was sent.
pub proof fn result_starts_read_back(
    cursor_id: u64,
    total: Option<nat>,
    count: nat,
    has_more: bool,
    rows: Seq<char>,
)
    requires
        count <= usize::MAX,
        total is Some ==> total->Some_0 <= usize::MAX,
    ensures
        start_rows(result_start(cursor_id as nat, total, count, has_more, rows)) == Some(rows),
        result_started(
            result_start(cursor_id as nat, total, count, has_more, rows),
            Ok(count),
        ) == Ok::<(nat, Option<nat>, bool), Seq<char>>((cursor_id as nat, total, has_more)),
{
    let text = result_start(cursor_id as nat, total, count, has_more, rows);
    let tab = "\t"@;
    let id = dec(cursor_id as nat);
    let sum = total_text(total);
    let len = dec(count);
    let more = bool_text(has_more);
    lemma_digits(cursor_id as nat);
    lemma_digits(count);
    lemma_total_text(total);
    lemma_bool_text(has_more);
    lemma_cursor_number(cursor_id);
    number_reads_dec(count, usize::MAX as nat);
    if total is Some {
        number_reads_dec(total->Some_0, usize::MAX as nat);
    }
    let tail = id + tab + (sum + tab + (len + tab + (more + tab + rows)));
    assert(text == "OK"@ + tab + ("RESULT_START"@ + tab + tail)) by {
        lemma_tab();
        reveal_strlit("OK");
        reveal_strlit("RESULT_START");
        reveal_strlit("OK\tRESULT_START\t");
        assert("OK\tRESULT_START\t"@ =~= "OK"@ + tab + "RESULT_START"@ + tab);
        lemma_regrouped("OK\tRESULT_START\t"@, id, sum, len, more, tab, rows);
        assert("OK"@ + tab + "RESULT_START"@ + tab + tail =~= "OK"@ + tab + ("RESULT_START"@ + tab
            + tail));
    }
    assert(!"OK"@.contains('\t') && !"RESULT_START"@.contains('\t')) by {
        reveal_strlit("OK");
        reveal_strlit("RESULT_START");
    }
    lemma_seven_cells("OK"@, "RESULT_START"@, id, sum, len, more, rows);
    let found = cells(text, 7);
    assert(found[0] == "OK"@ && found[1] == "RESULT_START"@);
    assert(found[2] == id && found[3] == sum && found[4] == len);
    assert(found[5] == more && found[6] == rows);
}

/// A further page of a result that a server sends is read as it was sent.
pub proof fn result_pages_read_back(cursor_id: u64, count: nat, has_more: bool, rows: Seq<char>)
    requires
        count <= usize::MAX,
    ensures
        page_rows(result_page(cursor_id as nat, count, has_more, rows)) == Some(rows),
        result_paged(result_page(cursor_id as nat, count, has_more, rows), Ok(count)) == Ok::<
            bool,
            Seq<char>,
        >(has_more),
{
    let text = result_page(cursor_id as nat, count, has_more, rows);
    let tab = "\t"@;
    let id = dec(cursor_id as nat);
    let len = dec(count);
    let more = bool_text(has_more);
    lemma_digits(cursor_id as nat);
    lemma_digits(count);
    lemma_bool_text(has_more);
    number_reads_dec(count, usize::MAX as nat);
    lemma_tab();
    reveal_strlit("OK");
    reveal_strlit("RESULT_PAGE");
    reveal_strlit("OK\tRESULT_PAGE\t");
    assert("OK\tRESULT_PAGE\t"@ =~= "OK"@ + tab + "RESULT_PAGE"@ + tab);
    let r5 = more + tab + rows;
    let r4 = len + tab + r5;
    let r3 = id + tab + r4;
    let r2 = "RESULT_PAGE"@ + tab + r3;
    let r1 = "OK"@ + tab + r2;
    assert(text =~= r1);
    lemma_cells("OK"@, r2, 6);
    lemma_cells("RESULT_PAGE"@, r3, 5);
    lemma_cells(id, r4, 4);
    lemma_cells(len, r5, 3);
    lemma_cells(more, rows, 2);
    assert(cells(rows, 1) == seq![rows]);
    assert(cells(text, 6) =~= seq!["OK"@, "RESULT_PAGE"@, id, len, more, rows]);
}

/// Texts without tabs, joined by tabs, are the parts between the tabs.
proof fn lemma_tabbed(parts: Seq<Seq<char>>)
    requires
        parts.len() > 0,
        forall|i: int| 0 <= i < parts.len() ==> !(#[trigger] parts[i]).contains('\t'),
    ensures
        split(join(parts, "\t"@), '\t') == parts,
{
    lemma_tab();
    splitting_undoes_joining(parts, '\t');
}

/// A request for rows that a server sends is read as it was sent.
pub proof fn fetches_read_back(cursor_id: u64, page_size: nat)
    requires
        0 < page_size <= usize::MAX,
    ensures
        fetch_of(dec(cursor_id as nat) + "\t"@ + dec(page_size)) == Ok::<(nat, nat), Seq<char>>(
            (cursor_id as nat, page_size),
        ),
{
    let parts = seq![dec(cursor_id as nat), dec(page_size)];
    lemma_digits(cursor_id as nat);
    lemma_digits(page_size);
    lemma_cursor_number(cursor_id);
    number_reads_dec(page_size, usize::MAX as nat);
    lemma_tabbed(parts);
    reveal_with_fuel(join, 3);
    assert(parts.drop_last().drop_last() =~= Seq::<Seq<char>>::empty());
    assert(join(parts, "\t"@) =~= dec(cursor_id as nat) + "\t"@ + dec(page_size));
}

/// A cancellation is read as the number of the request that it names.
pub proof fn cancellations_read_back(request_id: u64)
    ensures
        cancel_of(dec(request_id as nat)) == Ok::<nat, Seq<char>>(request_id as nat),
{
    let parts = seq![dec(request_id as nat)];
    lemma_digits(request_id as nat);
    number_reads_dec(request_id as nat, u64::MAX as nat);
    lemma_tabbed(parts);
    reveal_with_fuel(join, 2);
    assert(parts.drop_last() =~= Seq::<Seq<char>>::empty());
    assert(join(parts, "\t"@) =~= dec(request_id as nat));
}

/// The names of the commands that servers send each other hold no tab and differ.
proof fn lemma_command_names()
    ensures
        !"TX_COMMIT_PREPARED"@.contains('\t'),
        !"TX_ABORT_PREPARED"@.contains('\t'),
        !"TX_PREPARE_WRITE_BATCH_SHARD"@.contains('\t'),
        "TX_COMMIT_PREPARED"@.len() == 18,
        "TX_COMMIT_PREPARED"@[3] == 'C',
        "TX_ABORT_PREPARED"@.len() == 17,
        "TX_PREPARE_WRITE_BATCH_SHARD"@.len() == 28,
        "BEGIN_TX"@.len() == 8,
        "TX_QUERY"@.len() == 8,
        "TX_QUERY_DISTRIBUTED"@.len() == 20,
        "TX_QUERY_PLAN"@.len() == 13,
        "TX_EXECUTE_PREPARED"@.len() == 19,
        "TX_PREPARED_QUERY_PLAN"@.len() == 22,
        "TX_PREPARED_QUERY_ROUTE"@.len() == 23,
        "COMMIT_TX"@.len() == 9,
        "ROLLBACK_TX"@.len() == 11,
        "KILL_TX"@.len() == 7,
        "TX_STATUS"@.len() == 9,
        "TX_PREPARED_STATUS"@.len() == 18,
        "TX_PREPARED_STATUS"@[3] == 'P',
{
    reveal_strlit("TX_COMMIT_PREPARED");
    reveal_strlit("TX_ABORT_PREPARED");
    reveal_strlit("TX_PREPARE_WRITE_BATCH_SHARD");
    reveal_strlit("BEGIN_TX");
    reveal_strlit("TX_QUERY");
    reveal_strlit("TX_QUERY_DISTRIBUTED");
    reveal_strlit("TX_QUERY_PLAN");
    reveal_strlit("TX_EXECUTE_PREPARED");
    reveal_strlit("TX_PREPARED_QUERY_PLAN");
    reveal_strlit("TX_PREPARED_QUERY_ROUTE");
    reveal_strlit("COMMIT_TX");
    reveal_strlit("ROLLBACK_TX");
    reveal_strlit("KILL_TX");
    reveal_strlit("TX_STATUS");
    reveal_strlit("TX_PREPARED_STATUS");
}

/// A server that is told to commit what it has prepared, or to give it up, reads which batch.
pub proof fn decisions_read_back(prepared_id: u64)
    ensures
        tx_command(commit_request(prepared_id)) == Ok::<Option<TxCommand>, Seq<char>>(
            Some(TxCommand::CommitPrepared { prepared_id }),
        ),
        tx_command(abort_request(prepared_id)) == Ok::<Option<TxCommand>, Seq<char>>(
            Some(TxCommand::AbortPrepared { prepared_id }),
        ),
{
    let id = dec(prepared_id as nat);
    lemma_tab();
    lemma_command_names();
    lemma_cursor_number(prepared_id);
    reveal_strlit("TX_COMMIT_PREPARED\t");
    reveal_strlit("TX_ABORT_PREPARED\t");
    reveal_strlit("TX_COMMIT_PREPARED");
    reveal_strlit("TX_ABORT_PREPARED");
    assert("TX_COMMIT_PREPARED\t"@ =~= "TX_COMMIT_PREPARED"@ + "\t"@);
    assert("TX_ABORT_PREPARED\t"@ =~= "TX_ABORT_PREPARED"@ + "\t"@);
    lemma_split_once_at_char("TX_COMMIT_PREPARED"@, id, '\t');
    lemma_split_once_at_char("TX_ABORT_PREPARED"@, id, '\t');
}

/// A server that is asked to prepare writes reads the shard and the writes.
pub proof fn prepare_requests_read_back(shard_id: u64, batch: Seq<char>)
    ensures
        tx_command(
            batch_payload("TX_PREPARE_WRITE_BATCH_SHARD"@, shard_id as nat, batch),
        ) == Ok::<Option<TxCommand>, Seq<char>>(
            Some(TxCommand::PrepareWriteBatchShard { shard_id, payload: batch }),
        ),
{
    let id = dec(shard_id as nat);
    let name = "TX_PREPARE_WRITE_BATCH_SHARD"@;
    lemma_tab();
    lemma_command_names();
    lemma_digits(shard_id as nat);
    lemma_cursor_number(shard_id);
    lemma_split_once_at_char(name, id + "\t"@ + batch, '\t');
    lemma_split_once_at_char(id, batch, '\t');
    assert(batch_payload(name, shard_id as nat, batch) =~= name + seq!['\t'] + (id + "\t"@ + batch));
}

/// A server that had another one prepare writes reads under which number they stand.
pub proof fn prepared_answers_read_back(prepared_id: u64, shard_id: u64, writes: nat)
    ensures
        prepared_response(prepared_text(prepared_id, shard_id, writes)) == Ok::<nat, Seq<char>>(
            prepared_id as nat,
        ),
{
    let parts = seq![
        "OK"@,
        "TX_PREPARED"@,
        dec(prepared_id as nat),
        dec(shard_id as nat),
        dec(writes),
    ];
    lemma_digits(prepared_id as nat);
    lemma_digits(shard_id as nat);
    lemma_digits(writes);
    lemma_cursor_number(prepared_id);
    reveal_strlit("OK");
    reveal_strlit("TX_PREPARED");
    reveal_strlit("OK\tTX_PREPARED\t");
    lemma_tab();
    lemma_tabbed(parts);
    let p4 = parts.drop_last();
    let p3 = p4.drop_last();
    let p2 = p3.drop_last();
    let p1 = p2.drop_last();
    assert(p1.drop_last() =~= Seq::<Seq<char>>::empty());
    assert(join(p1, "\t"@) =~= "OK"@);
    assert(join(p2, "\t"@) =~= "OK"@ + "\t"@ + "TX_PREPARED"@);
    assert("OK\tTX_PREPARED\t"@ =~= join(p2, "\t"@) + "\t"@);
    assert(join(p3, "\t"@) == join(p2, "\t"@) + "\t"@ + dec(prepared_id as nat));
    assert(join(p4, "\t"@) == join(p3, "\t"@) + "\t"@ + dec(shard_id as nat));
    assert(join(parts, "\t"@) == join(p4, "\t"@) + "\t"@ + dec(writes));
    assert(prepared_text(prepared_id, shard_id, writes) =~= join(parts, "\t"@));
}

} // verus!
