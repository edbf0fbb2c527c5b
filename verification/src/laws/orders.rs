//! How the commands of a client are read.

use vstd::prelude::*;

use crate::commands::{
    begin_options, isolation_text, mode_text, prepared_call, query_command, tx_command, Prepared,
    QueryCommand, ReadIsolation, TransactionMode, TxCommand,
};
use crate::native::cursor_number;
use crate::text::{
    dec, dec_is_digits, is_digit, is_white, lemma_split_once_at_char, number_reads_dec, split_once,
    trim, trim_end, trim_start, words,
};

verus! {

proof fn lemma_plain_number(n: u64)
    ensures
        !dec(n as nat).contains('\t'),
        cursor_number(dec(n as nat)) == Ok::<nat, Seq<char>>(n as nat),
{
    let s = dec(n as nat);
    dec_is_digits(n as nat);
    number_reads_dec(n as nat, u64::MAX as nat);
    assert(is_digit(s[0]));
    assert(is_digit(s[s.len() - 1]));
    lemma_digits_are_not_white(s[0]);
    lemma_digits_are_not_white(s.last());
    assert(trim_start(s) == s);
    assert(trim_end(s) == s);
    if s.contains('\t') {
        let k = choose|k: int| 0 <= k < s.len() && s[k] == '\t';
        assert(is_digit(s[k]));
    }
}

proof fn lemma_digits_are_not_white(c: char)
    requires
        is_digit(c),
    ensures
        !is_white(c),
{
}

proof fn lemma_told(word: Seq<char>, rest: Seq<char>)
    requires
        !word.contains('\t'),
    ensures
        split_once(word + "\t"@ + rest, "\t"@) == Some((word, rest)),
{
    reveal_strlit("\t");
    assert("\t"@ =~= seq!['\t']);
    lemma_split_once_at_char(word, rest, '\t');
}

proof fn lemma_transaction_words()
    ensures
        !"BEGIN_TX"@.contains('\t'),
        !"LIST_TX"@.contains('\t'),
        !"LIST_ALL_TX"@.contains('\t'),
        !"LIST_PREPARED_TX"@.contains('\t'),
        !"TX_QUERY"@.contains('\t'),
        !"TX_QUERY_DISTRIBUTED"@.contains('\t'),
        !"TX_QUERY_PLAN"@.contains('\t'),
        !"TX_EXECUTE_PREPARED"@.contains('\t'),
        !"TX_PREPARED_QUERY_PLAN"@.contains('\t'),
        !"TX_PREPARED_QUERY_ROUTE"@.contains('\t'),
        !"COMMIT_TX"@.contains('\t'),
        !"ROLLBACK_TX"@.contains('\t'),
        !"KILL_TX"@.contains('\t'),
        !"TX_STATUS"@.contains('\t'),
        !"TX_COMMIT_PREPARED"@.contains('\t'),
        !"TX_ABORT_PREPARED"@.contains('\t'),
        !"TX_PREPARED_STATUS"@.contains('\t'),
        !"TX_PREPARE_WRITE_BATCH_SHARD"@.contains('\t'),
        "LIST_TX"@ != "BEGIN_TX"@,
        "LIST_ALL_TX"@ != "BEGIN_TX"@,
        "LIST_ALL_TX"@ != "LIST_TX"@,
        "LIST_PREPARED_TX"@ != "BEGIN_TX"@,
        "LIST_PREPARED_TX"@ != "LIST_TX"@,
        "LIST_PREPARED_TX"@ != "LIST_ALL_TX"@,
        "TX_QUERY"@ != "BEGIN_TX"@,
        "TX_QUERY"@ != "LIST_TX"@,
        "TX_QUERY"@ != "LIST_ALL_TX"@,
        "TX_QUERY"@ != "LIST_PREPARED_TX"@,
        "TX_QUERY_DISTRIBUTED"@ != "BEGIN_TX"@,
        "TX_QUERY_DISTRIBUTED"@ != "LIST_TX"@,
        "TX_QUERY_DISTRIBUTED"@ != "LIST_ALL_TX"@,
        "TX_QUERY_DISTRIBUTED"@ != "LIST_PREPARED_TX"@,
        "TX_QUERY_DISTRIBUTED"@ != "TX_QUERY"@,
        "TX_QUERY_PLAN"@ != "BEGIN_TX"@,
        "TX_QUERY_PLAN"@ != "LIST_TX"@,
        "TX_QUERY_PLAN"@ != "LIST_ALL_TX"@,
        "TX_QUERY_PLAN"@ != "LIST_PREPARED_TX"@,
        "TX_QUERY_PLAN"@ != "TX_QUERY"@,
        "TX_QUERY_PLAN"@ != "TX_QUERY_DISTRIBUTED"@,
        "TX_EXECUTE_PREPARED"@ != "BEGIN_TX"@,
        "TX_EXECUTE_PREPARED"@ != "LIST_TX"@,
        "TX_EXECUTE_PREPARED"@ != "LIST_ALL_TX"@,
        "TX_EXECUTE_PREPARED"@ != "LIST_PREPARED_TX"@,
        "TX_EXECUTE_PREPARED"@ != "TX_QUERY"@,
        "TX_EXECUTE_PREPARED"@ != "TX_QUERY_DISTRIBUTED"@,
        "TX_EXECUTE_PREPARED"@ != "TX_QUERY_PLAN"@,
        "TX_PREPARED_QUERY_PLAN"@ != "BEGIN_TX"@,
        "TX_PREPARED_QUERY_PLAN"@ != "LIST_TX"@,
        "TX_PREPARED_QUERY_PLAN"@ != "LIST_ALL_TX"@,
        "TX_PREPARED_QUERY_PLAN"@ != "LIST_PREPARED_TX"@,
        "TX_PREPARED_QUERY_PLAN"@ != "TX_QUERY"@,
        "TX_PREPARED_QUERY_PLAN"@ != "TX_QUERY_DISTRIBUTED"@,
        "TX_PREPARED_QUERY_PLAN"@ != "TX_QUERY_PLAN"@,
        "TX_PREPARED_QUERY_PLAN"@ != "TX_EXECUTE_PREPARED"@,
        "TX_PREPARED_QUERY_ROUTE"@ != "BEGIN_TX"@,
        "TX_PREPARED_QUERY_ROUTE"@ != "LIST_TX"@,
        "TX_PREPARED_QUERY_ROUTE"@ != "LIST_ALL_TX"@,
        "TX_PREPARED_QUERY_ROUTE"@ != "LIST_PREPARED_TX"@,
        "TX_PREPARED_QUERY_ROUTE"@ != "TX_QUERY"@,
        "TX_PREPARED_QUERY_ROUTE"@ != "TX_QUERY_DISTRIBUTED"@,
        "TX_PREPARED_QUERY_ROUTE"@ != "TX_QUERY_PLAN"@,
        "TX_PREPARED_QUERY_ROUTE"@ != "TX_EXECUTE_PREPARED"@,
        "TX_PREPARED_QUERY_ROUTE"@ != "TX_PREPARED_QUERY_PLAN"@,
        "COMMIT_TX"@ != "BEGIN_TX"@,
        "COMMIT_TX"@ != "LIST_TX"@,
        "COMMIT_TX"@ != "LIST_ALL_TX"@,
        "COMMIT_TX"@ != "LIST_PREPARED_TX"@,
        "COMMIT_TX"@ != "TX_QUERY"@,
        "COMMIT_TX"@ != "TX_QUERY_DISTRIBUTED"@,
        "COMMIT_TX"@ != "TX_QUERY_PLAN"@,
        "COMMIT_TX"@ != "TX_EXECUTE_PREPARED"@,
        "COMMIT_TX"@ != "TX_PREPARED_QUERY_PLAN"@,
        "COMMIT_TX"@ != "TX_PREPARED_QUERY_ROUTE"@,
        "ROLLBACK_TX"@ != "BEGIN_TX"@,
        "ROLLBACK_TX"@ != "LIST_TX"@,
        "ROLLBACK_TX"@ != "LIST_ALL_TX"@,
        "ROLLBACK_TX"@ != "LIST_PREPARED_TX"@,
        "ROLLBACK_TX"@ != "TX_QUERY"@,
        "ROLLBACK_TX"@ != "TX_QUERY_DISTRIBUTED"@,
        "ROLLBACK_TX"@ != "TX_QUERY_PLAN"@,
        "ROLLBACK_TX"@ != "TX_EXECUTE_PREPARED"@,
        "ROLLBACK_TX"@ != "TX_PREPARED_QUERY_PLAN"@,
        "ROLLBACK_TX"@ != "TX_PREPARED_QUERY_ROUTE"@,
        "ROLLBACK_TX"@ != "COMMIT_TX"@,
        "KILL_TX"@ != "BEGIN_TX"@,
        "KILL_TX"@ != "LIST_TX"@,
        "KILL_TX"@ != "LIST_ALL_TX"@,
        "KILL_TX"@ != "LIST_PREPARED_TX"@,
        "KILL_TX"@ != "TX_QUERY"@,
        "KILL_TX"@ != "TX_QUERY_DISTRIBUTED"@,
        "KILL_TX"@ != "TX_QUERY_PLAN"@,
        "KILL_TX"@ != "TX_EXECUTE_PREPARED"@,
        "KILL_TX"@ != "TX_PREPARED_QUERY_PLAN"@,
        "KILL_TX"@ != "TX_PREPARED_QUERY_ROUTE"@,
        "KILL_TX"@ != "COMMIT_TX"@,
        "KILL_TX"@ != "ROLLBACK_TX"@,
        "TX_STATUS"@ != "BEGIN_TX"@,
        "TX_STATUS"@ != "LIST_TX"@,
        "TX_STATUS"@ != "LIST_ALL_TX"@,
        "TX_STATUS"@ != "LIST_PREPARED_TX"@,
        "TX_STATUS"@ != "TX_QUERY"@,
        "TX_STATUS"@ != "TX_QUERY_DISTRIBUTED"@,
        "TX_STATUS"@ != "TX_QUERY_PLAN"@,
        "TX_STATUS"@ != "TX_EXECUTE_PREPARED"@,
        "TX_STATUS"@ != "TX_PREPARED_QUERY_PLAN"@,
        "TX_STATUS"@ != "TX_PREPARED_QUERY_ROUTE"@,
        "TX_STATUS"@ != "COMMIT_TX"@,
        "TX_STATUS"@ != "ROLLBACK_TX"@,
        "TX_STATUS"@ != "KILL_TX"@,
        "TX_COMMIT_PREPARED"@ != "BEGIN_TX"@,
        "TX_COMMIT_PREPARED"@ != "LIST_TX"@,
        "TX_COMMIT_PREPARED"@ != "LIST_ALL_TX"@,
        "TX_COMMIT_PREPARED"@ != "LIST_PREPARED_TX"@,
        "TX_COMMIT_PREPARED"@ != "TX_QUERY"@,
        "TX_COMMIT_PREPARED"@ != "TX_QUERY_DISTRIBUTED"@,
        "TX_COMMIT_PREPARED"@ != "TX_QUERY_PLAN"@,
        "TX_COMMIT_PREPARED"@ != "TX_EXECUTE_PREPARED"@,
        "TX_COMMIT_PREPARED"@ != "TX_PREPARED_QUERY_PLAN"@,
        "TX_COMMIT_PREPARED"@ != "TX_PREPARED_QUERY_ROUTE"@,
        "TX_COMMIT_PREPARED"@ != "COMMIT_TX"@,
        "TX_COMMIT_PREPARED"@ != "ROLLBACK_TX"@,
        "TX_COMMIT_PREPARED"@ != "KILL_TX"@,
        "TX_COMMIT_PREPARED"@ != "TX_STATUS"@,
        "TX_ABORT_PREPARED"@ != "BEGIN_TX"@,
        "TX_ABORT_PREPARED"@ != "LIST_TX"@,
        "TX_ABORT_PREPARED"@ != "LIST_ALL_TX"@,
        "TX_ABORT_PREPARED"@ != "LIST_PREPARED_TX"@,
        "TX_ABORT_PREPARED"@ != "TX_QUERY"@,
        "TX_ABORT_PREPARED"@ != "TX_QUERY_DISTRIBUTED"@,
        "TX_ABORT_PREPARED"@ != "TX_QUERY_PLAN"@,
        "TX_ABORT_PREPARED"@ != "TX_EXECUTE_PREPARED"@,
        "TX_ABORT_PREPARED"@ != "TX_PREPARED_QUERY_PLAN"@,
        "TX_ABORT_PREPARED"@ != "TX_PREPARED_QUERY_ROUTE"@,
        "TX_ABORT_PREPARED"@ != "COMMIT_TX"@,
        "TX_ABORT_PREPARED"@ != "ROLLBACK_TX"@,
        "TX_ABORT_PREPARED"@ != "KILL_TX"@,
        "TX_ABORT_PREPARED"@ != "TX_STATUS"@,
        "TX_ABORT_PREPARED"@ != "TX_COMMIT_PREPARED"@,
        "TX_PREPARED_STATUS"@ != "BEGIN_TX"@,
        "TX_PREPARED_STATUS"@ != "LIST_TX"@,
        "TX_PREPARED_STATUS"@ != "LIST_ALL_TX"@,
        "TX_PREPARED_STATUS"@ != "LIST_PREPARED_TX"@,
        "TX_PREPARED_STATUS"@ != "TX_QUERY"@,
        "TX_PREPARED_STATUS"@ != "TX_QUERY_DISTRIBUTED"@,
        "TX_PREPARED_STATUS"@ != "TX_QUERY_PLAN"@,
        "TX_PREPARED_STATUS"@ != "TX_EXECUTE_PREPARED"@,
        "TX_PREPARED_STATUS"@ != "TX_PREPARED_QUERY_PLAN"@,
        "TX_PREPARED_STATUS"@ != "TX_PREPARED_QUERY_ROUTE"@,
        "TX_PREPARED_STATUS"@ != "COMMIT_TX"@,
        "TX_PREPARED_STATUS"@ != "ROLLBACK_TX"@,
        "TX_PREPARED_STATUS"@ != "KILL_TX"@,
        "TX_PREPARED_STATUS"@ != "TX_STATUS"@,
        "TX_PREPARED_STATUS"@ != "TX_COMMIT_PREPARED"@,
        "TX_PREPARED_STATUS"@ != "TX_ABORT_PREPARED"@,
        "TX_PREPARE_WRITE_BATCH_SHARD"@ != "BEGIN_TX"@,
        "TX_PREPARE_WRITE_BATCH_SHARD"@ != "LIST_TX"@,
        "TX_PREPARE_WRITE_BATCH_SHARD"@ != "LIST_ALL_TX"@,
        "TX_PREPARE_WRITE_BATCH_SHARD"@ != "LIST_PREPARED_TX"@,
        "TX_PREPARE_WRITE_BATCH_SHARD"@ != "TX_QUERY"@,
        "TX_PREPARE_WRITE_BATCH_SHARD"@ != "TX_QUERY_DISTRIBUTED"@,
        "TX_PREPARE_WRITE_BATCH_SHARD"@ != "TX_QUERY_PLAN"@,
        "TX_PREPARE_WRITE_BATCH_SHARD"@ != "TX_EXECUTE_PREPARED"@,
        "TX_PREPARE_WRITE_BATCH_SHARD"@ != "TX_PREPARED_QUERY_PLAN"@,
        "TX_PREPARE_WRITE_BATCH_SHARD"@ != "TX_PREPARED_QUERY_ROUTE"@,
        "TX_PREPARE_WRITE_BATCH_SHARD"@ != "COMMIT_TX"@,
        "TX_PREPARE_WRITE_BATCH_SHARD"@ != "ROLLBACK_TX"@,
        "TX_PREPARE_WRITE_BATCH_SHARD"@ != "KILL_TX"@,
        "TX_PREPARE_WRITE_BATCH_SHARD"@ != "TX_STATUS"@,
        "TX_PREPARE_WRITE_BATCH_SHARD"@ != "TX_COMMIT_PREPARED"@,
        "TX_PREPARE_WRITE_BATCH_SHARD"@ != "TX_ABORT_PREPARED"@,
        "TX_PREPARE_WRITE_BATCH_SHARD"@ != "TX_PREPARED_STATUS"@,
{
    reveal_strlit("BEGIN_TX");
    reveal_strlit("LIST_TX");
    reveal_strlit("LIST_ALL_TX");
    reveal_strlit("LIST_PREPARED_TX");
    reveal_strlit("TX_QUERY");
    reveal_strlit("TX_QUERY_DISTRIBUTED");
    reveal_strlit("TX_QUERY_PLAN");
    reveal_strlit("TX_EXECUTE_PREPARED");
    reveal_strlit("TX_PREPARED_QUERY_PLAN");
    reveal_strlit("TX_PREPARED_QUERY_ROUTE");
    reveal_strlit("COMMIT_TX");
    reveal_strlit("ROLLBACK_TX");
    reveal_strlit("KILL_TX");
    reveal_strlit("TX_STATUS");
    reveal_strlit("TX_COMMIT_PREPARED");
    reveal_strlit("TX_ABORT_PREPARED");
    reveal_strlit("TX_PREPARED_STATUS");
    reveal_strlit("TX_PREPARE_WRITE_BATCH_SHARD");
    assert("BEGIN_TX"@.len() == 8);
    assert("LIST_TX"@.len() == 7);
    assert("LIST_ALL_TX"@.len() == 11);
    assert("LIST_PREPARED_TX"@.len() == 16);
    assert("TX_QUERY"@.len() == 8);
    assert("TX_QUERY_DISTRIBUTED"@.len() == 20);
    assert("TX_QUERY_PLAN"@.len() == 13);
    assert("TX_EXECUTE_PREPARED"@.len() == 19);
    assert("TX_PREPARED_QUERY_PLAN"@.len() == 22);
    assert("TX_PREPARED_QUERY_ROUTE"@.len() == 23);
    assert("COMMIT_TX"@.len() == 9);
    assert("ROLLBACK_TX"@.len() == 11);
    assert("KILL_TX"@.len() == 7);
    assert("TX_STATUS"@.len() == 9);
    assert("TX_COMMIT_PREPARED"@.len() == 18);
    assert("TX_ABORT_PREPARED"@.len() == 17);
    assert("TX_PREPARED_STATUS"@.len() == 18);
    assert("TX_PREPARE_WRITE_BATCH_SHARD"@.len() == 28);
    assert("TX_QUERY"@[0] != "BEGIN_TX"@[0]);
    assert("ROLLBACK_TX"@[0] != "LIST_ALL_TX"@[0]);
    assert("KILL_TX"@[0] != "LIST_TX"@[0]);
    assert("TX_STATUS"@[0] != "COMMIT_TX"@[0]);
    assert("TX_PREPARED_STATUS"@[3] != "TX_COMMIT_PREPARED"@[3]);
}

proof fn lemma_prepared_words()
    ensures
        !"LIST_PREPARED"@.contains('\t'),
        !"PREPARE_QUERY"@.contains('\t'),
        !"EXECUTE_PREPARED"@.contains('\t'),
        !"PREPARED_QUERY_PLAN"@.contains('\t'),
        !"PREPARED_QUERY_ROUTE"@.contains('\t'),
        !"DESCRIBE_PREPARED"@.contains('\t'),
        !"CLOSE_PREPARED"@.contains('\t'),
        "PREPARE_QUERY"@ != "LIST_PREPARED"@,
        "EXECUTE_PREPARED"@ != "LIST_PREPARED"@,
        "EXECUTE_PREPARED"@ != "PREPARE_QUERY"@,
        "PREPARED_QUERY_PLAN"@ != "LIST_PREPARED"@,
        "PREPARED_QUERY_PLAN"@ != "PREPARE_QUERY"@,
        "PREPARED_QUERY_PLAN"@ != "EXECUTE_PREPARED"@,
        "PREPARED_QUERY_ROUTE"@ != "LIST_PREPARED"@,
        "PREPARED_QUERY_ROUTE"@ != "PREPARE_QUERY"@,
        "PREPARED_QUERY_ROUTE"@ != "EXECUTE_PREPARED"@,
        "PREPARED_QUERY_ROUTE"@ != "PREPARED_QUERY_PLAN"@,
        "DESCRIBE_PREPARED"@ != "LIST_PREPARED"@,
        "DESCRIBE_PREPARED"@ != "PREPARE_QUERY"@,
        "DESCRIBE_PREPARED"@ != "EXECUTE_PREPARED"@,
        "DESCRIBE_PREPARED"@ != "PREPARED_QUERY_PLAN"@,
        "DESCRIBE_PREPARED"@ != "PREPARED_QUERY_ROUTE"@,
        "CLOSE_PREPARED"@ != "LIST_PREPARED"@,
        "CLOSE_PREPARED"@ != "PREPARE_QUERY"@,
        "CLOSE_PREPARED"@ != "EXECUTE_PREPARED"@,
        "CLOSE_PREPARED"@ != "PREPARED_QUERY_PLAN"@,
        "CLOSE_PREPARED"@ != "PREPARED_QUERY_ROUTE"@,
        "CLOSE_PREPARED"@ != "DESCRIBE_PREPARED"@,
{
    reveal_strlit("LIST_PREPARED");
    reveal_strlit("PREPARE_QUERY");
    reveal_strlit("EXECUTE_PREPARED");
    reveal_strlit("PREPARED_QUERY_PLAN");
    reveal_strlit("PREPARED_QUERY_ROUTE");
    reveal_strlit("DESCRIBE_PREPARED");
    reveal_strlit("CLOSE_PREPARED");
    assert("LIST_PREPARED"@.len() == 13);
    assert("PREPARE_QUERY"@.len() == 13);
    assert("EXECUTE_PREPARED"@.len() == 16);
    assert("PREPARED_QUERY_PLAN"@.len() == 19);
    assert("PREPARED_QUERY_ROUTE"@.len() == 20);
    assert("DESCRIBE_PREPARED"@.len() == 17);
    assert("CLOSE_PREPARED"@.len() == 14);
    assert("PREPARE_QUERY"@[0] != "LIST_PREPARED"@[0]);
}

/// A command that names a transaction, or a prepared batch, is read as it was sent.
pub proof fn commands_with_a_number_are_read(n: u64)
    ensures
        tx_command("COMMIT_TX"@ + "\t"@ + dec(n as nat)) == Ok::<_, Seq<char>>(
            Some(TxCommand::Commit { tx_id: n }),
        ),
        tx_command("ROLLBACK_TX"@ + "\t"@ + dec(n as nat)) == Ok::<_, Seq<char>>(
            Some(TxCommand::Rollback { tx_id: n }),
        ),
        tx_command("KILL_TX"@ + "\t"@ + dec(n as nat)) == Ok::<_, Seq<char>>(
            Some(TxCommand::Kill { tx_id: n }),
        ),
        tx_command("TX_STATUS"@ + "\t"@ + dec(n as nat)) == Ok::<_, Seq<char>>(
            Some(TxCommand::Status { tx_id: n }),
        ),
        tx_command("TX_COMMIT_PREPARED"@ + "\t"@ + dec(n as nat)) == Ok::<_, Seq<char>>(
            Some(TxCommand::CommitPrepared { prepared_id: n }),
        ),
        tx_command("TX_ABORT_PREPARED"@ + "\t"@ + dec(n as nat)) == Ok::<_, Seq<char>>(
            Some(TxCommand::AbortPrepared { prepared_id: n }),
        ),
        tx_command("TX_PREPARED_STATUS"@ + "\t"@ + dec(n as nat)) == Ok::<_, Seq<char>>(
            Some(TxCommand::PreparedStatus { prepared_id: n }),
        ),
{
    lemma_transaction_words();
    lemma_plain_number(n);
    lemma_told("COMMIT_TX"@, dec(n as nat));
    lemma_told("ROLLBACK_TX"@, dec(n as nat));
    lemma_told("KILL_TX"@, dec(n as nat));
    lemma_told("TX_STATUS"@, dec(n as nat));
    lemma_told("TX_COMMIT_PREPARED"@, dec(n as nat));
    lemma_told("TX_ABORT_PREPARED"@, dec(n as nat));
    lemma_told("TX_PREPARED_STATUS"@, dec(n as nat));
}

/// A command that sends something to a transaction, or to a shard, is read as it was sent,
/// whatever is sent.
pub proof fn commands_with_a_payload_are_read(n: u64, payload: Seq<char>)
    ensures
        tx_command("TX_QUERY"@ + "\t"@ + dec(n as nat) + "\t"@ + payload) == Ok::<_, Seq<char>>(
            Some(TxCommand::Query { tx_id: n, payload }),
        ),
        tx_command("TX_QUERY_DISTRIBUTED"@ + "\t"@ + dec(n as nat) + "\t"@ + payload) == Ok::<_, Seq<char>>(
            Some(TxCommand::DistributedQuery { tx_id: n, payload }),
        ),
        tx_command("TX_QUERY_PLAN"@ + "\t"@ + dec(n as nat) + "\t"@ + payload) == Ok::<_, Seq<char>>(
            Some(TxCommand::QueryPlan { tx_id: n, payload }),
        ),
        tx_command("TX_PREPARE_WRITE_BATCH_SHARD"@ + "\t"@ + dec(n as nat) + "\t"@ + payload) == Ok::<_, Seq<char>>(
            Some(TxCommand::PrepareWriteBatchShard { shard_id: n, payload }),
        ),
        prepared_call(payload) matches Ok(call) ==> tx_command(
            "TX_EXECUTE_PREPARED"@ + "\t"@ + dec(n as nat) + "\t"@ + payload,
        ) == Ok::<_, Seq<char>>(Some(TxCommand::ExecutePrepared { tx_id: n, call })),
        prepared_call(payload) matches Ok(call) ==> tx_command(
            "TX_PREPARED_QUERY_PLAN"@ + "\t"@ + dec(n as nat) + "\t"@ + payload,
        ) == Ok::<_, Seq<char>>(Some(TxCommand::PreparedQueryPlan { tx_id: n, call })),
        prepared_call(payload) matches Ok(call) ==> tx_command(
            "TX_PREPARED_QUERY_ROUTE"@ + "\t"@ + dec(n as nat) + "\t"@ + payload,
        ) == Ok::<_, Seq<char>>(Some(TxCommand::PreparedQueryRoute { tx_id: n, call })),
{
    lemma_transaction_words();
    lemma_plain_number(n);
    let rest = dec(n as nat) + "\t"@ + payload;
    lemma_told(dec(n as nat), payload);
    lemma_told("TX_QUERY"@, rest);
    assert("TX_QUERY"@ + "\t"@ + dec(n as nat) + "\t"@ + payload =~= "TX_QUERY"@ + "\t"@ + rest);
    lemma_told("TX_QUERY_DISTRIBUTED"@, rest);
    assert("TX_QUERY_DISTRIBUTED"@ + "\t"@ + dec(n as nat) + "\t"@ + payload =~= "TX_QUERY_DISTRIBUTED"@ + "\t"@ + rest);
    lemma_told("TX_QUERY_PLAN"@, rest);
    assert("TX_QUERY_PLAN"@ + "\t"@ + dec(n as nat) + "\t"@ + payload =~= "TX_QUERY_PLAN"@ + "\t"@ + rest);
    lemma_told("TX_PREPARE_WRITE_BATCH_SHARD"@, rest);
    assert("TX_PREPARE_WRITE_BATCH_SHARD"@ + "\t"@ + dec(n as nat) + "\t"@ + payload =~= "TX_PREPARE_WRITE_BATCH_SHARD"@ + "\t"@ + rest);
    lemma_told("TX_EXECUTE_PREPARED"@, rest);
    assert("TX_EXECUTE_PREPARED"@ + "\t"@ + dec(n as nat) + "\t"@ + payload =~= "TX_EXECUTE_PREPARED"@ + "\t"@ + rest);
    lemma_told("TX_PREPARED_QUERY_PLAN"@, rest);
    assert("TX_PREPARED_QUERY_PLAN"@ + "\t"@ + dec(n as nat) + "\t"@ + payload =~= "TX_PREPARED_QUERY_PLAN"@ + "\t"@ + rest);
    lemma_told("TX_PREPARED_QUERY_ROUTE"@, rest);
    assert("TX_PREPARED_QUERY_ROUTE"@ + "\t"@ + dec(n as nat) + "\t"@ + payload =~= "TX_PREPARED_QUERY_ROUTE"@ + "\t"@ + rest);
}

proof fn lemma_no_tab(s: Seq<char>)
    requires
        !s.contains('\t'),
    ensures
        split_once(s, "\t"@) is None,
{
    reveal_strlit("\t");
    crate::laws::texts::texts_are_split_at_the_first_place(s, "\t"@);
    if let Some((a, b)) = split_once(s, "\t"@) {
        assert(s[a.len() as int] == '\t');
    }
}

/// A command that takes nothing is read as it was sent; a transaction begins to read a snapshot,
/// where nothing else is said.
pub proof fn commands_without_arguments_are_read()
    ensures
        tx_command("LIST_TX"@) == Ok::<_, Seq<char>>(Some(TxCommand::List)),
        tx_command("LIST_ALL_TX"@) == Ok::<_, Seq<char>>(Some(TxCommand::ListAll)),
        tx_command("LIST_PREPARED_TX"@) == Ok::<_, Seq<char>>(Some(TxCommand::ListPrepared)),
        tx_command("BEGIN_TX"@) == Ok::<_, Seq<char>>(
            Some(
                TxCommand::Begin {
                    mode: TransactionMode::ReadOnly,
                    isolation: ReadIsolation::Snapshot,
                },
            ),
        ),
{
    lemma_transaction_words();
    lemma_no_tab("LIST_TX"@);
    lemma_no_tab("LIST_ALL_TX"@);
    lemma_no_tab("LIST_PREPARED_TX"@);
    lemma_no_tab("BEGIN_TX"@);
}

/// The last option of a kind counts when a transaction begins, and options of one kind leave what
/// the other kind says.
pub proof fn last_option_of_a_kind_counts(
    options: Seq<Seq<char>>,
    mode: TransactionMode,
    isolation: ReadIsolation,
    m: TransactionMode,
    i: ReadIsolation,
)
    ensures
        begin_options(Seq::empty(), mode, isolation) == Ok::<_, Seq<char>>((mode, isolation)),
        begin_options(options, mode, isolation) matches Ok((a, b)) ==> begin_options(
            options.push(mode_text(m)),
            mode,
            isolation,
        ) == Ok::<_, Seq<char>>((m, b)) && begin_options(
            options.push(isolation_text(i)),
            mode,
            isolation,
        ) == Ok::<_, Seq<char>>((a, i)),
        begin_options(options, mode, isolation) is Err ==> begin_options(
            options.push(mode_text(m)),
            mode,
            isolation,
        ) is Err,
    decreases options.len(),
{
    let x = options.push(mode_text(m));
    let y = options.push(isolation_text(i));
    lemma_option_words();
    if options.len() == 0 {
        assert(x.skip(1) =~= Seq::<Seq<char>>::empty());
        assert(y.skip(1) =~= Seq::<Seq<char>>::empty());
        assert(x[0] == mode_text(m) && y[0] == isolation_text(i));
        reveal_with_fuel(begin_options, 2);
    } else {
        let rest = options.skip(1);
        assert(x.skip(1) =~= rest.push(mode_text(m)));
        assert(y.skip(1) =~= rest.push(isolation_text(i)));
        assert(x[0] == options[0] && y[0] == options[0]);
        last_option_of_a_kind_counts(rest, TransactionMode::ReadOnly, isolation, m, i);
        last_option_of_a_kind_counts(rest, TransactionMode::ReadWrite, isolation, m, i);
        last_option_of_a_kind_counts(rest, mode, ReadIsolation::Snapshot, m, i);
        last_option_of_a_kind_counts(rest, mode, ReadIsolation::ReadCommitted, m, i);
    }
}

proof fn lemma_option_words()
    ensures
        "READ_ONLY"@ != "READ_WRITE"@,
        "READ_ONLY"@ != "SNAPSHOT"@,
        "READ_ONLY"@ != "READ_COMMITTED"@,
        "READ_WRITE"@ != "SNAPSHOT"@,
        "READ_WRITE"@ != "READ_COMMITTED"@,
        "SNAPSHOT"@ != "READ_COMMITTED"@,
{
    reveal_strlit("READ_ONLY");
    reveal_strlit("READ_WRITE");
    reveal_strlit("READ_COMMITTED");
    reveal_strlit("SNAPSHOT");
    assert("READ_ONLY"@.len() == 9 && "READ_WRITE"@.len() == 10);
    assert("READ_COMMITTED"@.len() == 14 && "SNAPSHOT"@.len() == 8);
}

/// A transaction begins as its options say.
pub proof fn transactions_begin_as_they_are_told(rest: Seq<char>)
    ensures
        begin_options(words(rest), TransactionMode::ReadOnly, ReadIsolation::Snapshot) matches Ok(
            (mode, isolation),
        ) ==> tx_command("BEGIN_TX"@ + "\t"@ + rest) == Ok::<_, Seq<char>>(
            Some(TxCommand::Begin { mode, isolation }),
        ),
{
    lemma_transaction_words();
    lemma_told("BEGIN_TX"@, rest);
}

/// A prepared query is called by its number, with its parameters where some are sent.
pub proof fn calls_of_prepared_queries_are_read(n: u64, params: Seq<char>)
    ensures
        prepared_call(dec(n as nat)) == Ok::<_, Seq<char>>(
            Prepared { prepared_id: n, params: None },
        ),
        prepared_call(dec(n as nat) + "\t"@ + params) == Ok::<_, Seq<char>>(
            Prepared { prepared_id: n, params: Some("_\t"@ + params) },
        ),
{
    lemma_plain_number(n);
    lemma_no_tab(dec(n as nat));
    lemma_told(dec(n as nat), params);
}

/// The commands on prepared queries are read as they were sent.
pub proof fn commands_on_prepared_queries_are_read(n: u64, payload: Seq<char>)
    ensures
        trim(payload).len() > 0 ==> query_command("PREPARE_QUERY"@ + "\t"@ + payload) == Ok::<
            _,
            Seq<char>,
        >(Some(QueryCommand::Prepare { query: payload })),
        prepared_call(payload) matches Ok(call) ==> query_command(
            "EXECUTE_PREPARED"@ + "\t"@ + payload,
        ) == Ok::<_, Seq<char>>(Some(QueryCommand::Execute { call })) && query_command(
            "PREPARED_QUERY_PLAN"@ + "\t"@ + payload,
        ) == Ok::<_, Seq<char>>(Some(QueryCommand::QueryPlan { call })) && query_command(
            "PREPARED_QUERY_ROUTE"@ + "\t"@ + payload,
        ) == Ok::<_, Seq<char>>(Some(QueryCommand::Route { call })),
        query_command("DESCRIBE_PREPARED"@ + "\t"@ + dec(n as nat)) == Ok::<_, Seq<char>>(
            Some(QueryCommand::Describe { prepared_id: n }),
        ),
        query_command("CLOSE_PREPARED"@ + "\t"@ + dec(n as nat)) == Ok::<_, Seq<char>>(
            Some(QueryCommand::Close { prepared_id: n }),
        ),
        query_command("LIST_PREPARED"@) == Ok::<_, Seq<char>>(Some(QueryCommand::List)),
{
    lemma_prepared_words();
    lemma_plain_number(n);
    lemma_no_tab("LIST_PREPARED"@);
    lemma_told("PREPARE_QUERY"@, payload);
    lemma_told("EXECUTE_PREPARED"@, payload);
    lemma_told("PREPARED_QUERY_PLAN"@, payload);
    lemma_told("PREPARED_QUERY_ROUTE"@, payload);
    lemma_told("DESCRIBE_PREPARED"@, dec(n as nat));
    lemma_told("CLOSE_PREPARED"@, dec(n as nat));
}

/// What begins with none of the words is left to others.
pub proof fn other_commands_are_left_to_others(word: Seq<char>, rest: Seq<char>)
    requires
        !word.contains('\t'),
        word != "BEGIN_TX"@,
        word != "LIST_TX"@,
        word != "LIST_ALL_TX"@,
        word != "LIST_PREPARED_TX"@,
        word != "TX_QUERY"@,
        word != "TX_QUERY_DISTRIBUTED"@,
        word != "TX_QUERY_PLAN"@,
        word != "TX_EXECUTE_PREPARED"@,
        word != "TX_PREPARED_QUERY_PLAN"@,
        word != "TX_PREPARED_QUERY_ROUTE"@,
        word != "COMMIT_TX"@,
        word != "ROLLBACK_TX"@,
        word != "KILL_TX"@,
        word != "TX_STATUS"@,
        word != "TX_COMMIT_PREPARED"@,
        word != "TX_ABORT_PREPARED"@,
        word != "TX_PREPARED_STATUS"@,
        word != "TX_PREPARE_WRITE_BATCH_SHARD"@,
        word != "LIST_PREPARED"@,
        word != "PREPARE_QUERY"@,
        word != "EXECUTE_PREPARED"@,
        word != "PREPARED_QUERY_PLAN"@,
        word != "PREPARED_QUERY_ROUTE"@,
        word != "DESCRIBE_PREPARED"@,
        word != "CLOSE_PREPARED"@,
    ensures
        tx_command(word + "\t"@ + rest) == Ok::<Option<TxCommand>, Seq<char>>(None),
        tx_command(word) == Ok::<Option<TxCommand>, Seq<char>>(None),
        query_command(word + "\t"@ + rest) == Ok::<Option<QueryCommand>, Seq<char>>(None),
        query_command(word) == Ok::<Option<QueryCommand>, Seq<char>>(None),
{
    lemma_told(word, rest);
    lemma_no_tab(word);
}

} // verus!
