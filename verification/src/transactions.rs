//! The transactions that sessions have open.

use vstd::prelude::*;

use crate::commands::{
    format_read_isolation, format_transaction_mode, isolation_text, mode_text, ReadIsolation,
    TransactionMode,
};
use crate::cypher::{conflict_key, is_schema, is_schema_cypher, write_conflict_key};
use crate::ranking::{ranked, sort_by_rank, Ranked};
use crate::table::{
    lemma_seen, lemma_seen_empty, lemma_seen_insert, lemma_seen_remove, owned_by, seen_entries,
    seen_map, sorted, without_session, Owned, Table,
};
use crate::text::{cat, debug_text, dec, join, join_with, lemma_views_push, quoted, show, views};
use crate::text_table::TextTable;
use crate::value::{QueryParams, Val};

verus! {

/// A write that waits for the commit of its transaction.
pub struct StagedWrite {
    pub query: String,
    pub params: QueryParams,
}

/// The contents of a write.
pub struct Write {
    pub query: Seq<char>,
    pub params: Map<Seq<char>, Val>,
}

impl StagedWrite {
    pub open spec fn view(&self) -> Write {
        Write { query: self.query@, params: self.params@ }
    }

    pub open spec fn well_formed(&self) -> bool {
        self.params.well_formed()
    }

    /// A write with the same contents.
    pub fn copy(&self) -> (r: Self)
        requires
            self.well_formed(),
        ensures
            r@ == self@,
            r.well_formed(),
    {
        StagedWrite { query: self.query.as_str().to_owned(), params: self.params.copy() }
    }
}

/// The contents of a list of writes.
pub open spec fn write_views(s: Seq<StagedWrite>) -> Seq<Write> {
    s.map_values(|w: StagedWrite| w@)
}

/// Whether each write of a list is well formed.
pub open spec fn writes_well_formed(s: Seq<StagedWrite>) -> bool {
    forall|i: int| 0 <= i < s.len() ==> (#[trigger] s[i]).well_formed()
}

/// Copies a list of writes.
pub fn copy_writes(writes: &[StagedWrite]) -> (r: Vec<StagedWrite>)
    requires
        writes_well_formed(writes@),
    ensures
        write_views(r@) == write_views(writes@),
        writes_well_formed(r@),
{
    let mut r: Vec<StagedWrite> = Vec::new();
    let mut i: usize = 0;
    assert(write_views(r@) =~= write_views(writes@).take(0));
    while i < writes.len()
        invariant
            0 <= i <= writes@.len(),
            writes_well_formed(writes@),
            writes_well_formed(r@),
            write_views(r@) == write_views(writes@).take(i as int),
        decreases writes@.len() - i,
    {
        let ghost before = r@;
        let w = writes[i].copy();
        r.push(w);
        assert(write_views(r@) =~= write_views(before).push(w@));
        assert(write_views(writes@).take(i + 1) =~= write_views(writes@).take(i as int).push(w@));
        i = i + 1;
    }
    assert(write_views(writes@).take(writes@.len() as int) =~= write_views(writes@));
    r
}

/// An open transaction. One that only reads has no writes. The signatures are those with which
/// the writes were staged.
pub struct NativeTransaction {
    pub mode: TransactionMode,
    pub isolation: ReadIsolation,
    pub ownership_epoch: u64,
    pub staged_writes: Vec<StagedWrite>,
    pub conflict_keys: TextTable<()>,
    pub signatures: Ghost<Seq<Seq<Seq<char>>>>,
}

/// The contents of an open transaction, with the session that it belongs to.
pub struct Txn {
    pub session_id: u64,
    pub mode: TransactionMode,
    pub isolation: ReadIsolation,
    pub ownership_epoch: u64,
    pub writes: Seq<Write>,
    pub keys: Map<Seq<char>, ()>,
    pub signatures: Seq<Seq<Seq<char>>>,
}

/// The targets of writes, each staged with its signature.
pub open spec fn targets(writes: Seq<Write>, signatures: Seq<Seq<Seq<char>>>) -> Map<Seq<char>, ()>
    decreases writes.len(),
{
    if writes.len() == 0 {
        Map::empty()
    } else {
        let rest = targets(writes.drop_last(), signatures.drop_last());
        match conflict_key(writes.last().query, signatures.last()) {
            None => rest,
            Some(key) => rest.insert(key, ()),
        }
    }
}

impl Txn {
    /// Each write was staged with a signature, the kept keys are the targets of the writes, no
    /// two writes have the same target, and a transaction that only reads has no writes.
    pub open spec fn consistent(&self) -> bool {
        &&& self.signatures.len() == self.writes.len()
        &&& self.keys == targets(self.writes, self.signatures)
        &&& forall|i: int, j: int|
            #![trigger self.writes[i], self.writes[j]]
            0 <= i < j < self.writes.len() ==> conflict_key(
                self.writes[i].query,
                self.signatures[i],
            ) is None || conflict_key(self.writes[i].query, self.signatures[i]) != conflict_key(
                self.writes[j].query,
                self.signatures[j],
            )
        &&& self.mode is ReadOnly ==> self.writes.len() == 0
    }
}

proof fn lemma_targets(writes: Seq<Write>, signatures: Seq<Seq<Seq<char>>>, i: int)
    requires
        signatures.len() == writes.len(),
        0 <= i < writes.len(),
        conflict_key(writes[i].query, signatures[i]) is Some,
    ensures
        targets(writes, signatures).dom().contains(
            conflict_key(writes[i].query, signatures[i])->Some_0,
        ),
    decreases writes.len(),
{
    if i < writes.len() - 1 {
        lemma_targets(writes.drop_last(), signatures.drop_last(), i);
    }
}

/// A transaction stays consistent when a write is staged.
pub proof fn staging_keeps_transactions_consistent(
    m: Map<u64, Txn>,
    session_id: u64,
    tx_id: u64,
    write: Write,
    signature: Seq<Seq<char>>,
)
    requires
        m.dom().contains(tx_id),
        m[tx_id].consistent(),
        staged(m, session_id, tx_id, write, signature) is Ok,
    ensures
        staged(m, session_id, tx_id, write, signature)->Ok_0.consistent(),
{
    let t = m[tx_id];
    let next = staged(m, session_id, tx_id, write, signature)->Ok_0;
    assert(next.writes.drop_last() =~= t.writes);
    assert(next.signatures.drop_last() =~= t.signatures);
    assert forall|i: int, j: int|
        #![trigger next.writes[i], next.writes[j]]
        0 <= i < j < next.writes.len() implies conflict_key(
        next.writes[i].query,
        next.signatures[i],
    ) is None || conflict_key(next.writes[i].query, next.signatures[i]) != conflict_key(
        next.writes[j].query,
        next.signatures[j],
    ) by {
        assert(next.writes[i] == t.writes[i]);
        if j < t.writes.len() {
            assert(next.writes[j] == t.writes[j]);
        } else if conflict_key(t.writes[i].query, t.signatures[i]) is Some {
            lemma_targets(t.writes, t.signatures, i);
        }
    }
}

impl NativeTransaction {
    pub open spec fn well_formed(&self) -> bool {
        self.conflict_keys.well_formed() && writes_well_formed(self.staged_writes@) && self.seen_by(
            0,
        ).consistent()
    }

    /// The contents, as a session has them.
    pub open spec fn seen_by(&self, session_id: u64) -> Txn {
        Txn {
            session_id,
            mode: self.mode,
            isolation: self.isolation,
            ownership_epoch: self.ownership_epoch,
            writes: write_views(self.staged_writes@),
            keys: self.conflict_keys@,
            signatures: self.signatures@,
        }
    }

    /// A transaction that has just begun.
    pub fn begin(mode: TransactionMode, isolation: ReadIsolation, ownership_epoch: u64) -> (r: Self)
        ensures
            r.well_formed(),
            forall|session_id: u64| #[trigger]
                r.seen_by(session_id) == fresh(session_id, mode, isolation, ownership_epoch),
    {
        let r = NativeTransaction {
            mode,
            isolation,
            ownership_epoch,
            staged_writes: Vec::new(),
            conflict_keys: TextTable::new(),
            signatures: Ghost(Seq::empty()),
        };
        assert(write_views(r.staged_writes@) =~= Seq::<Write>::empty());
        r
    }
}

/// A transaction that has just begun.
pub open spec fn fresh(
    session_id: u64,
    mode: TransactionMode,
    isolation: ReadIsolation,
    ownership_epoch: u64,
) -> Txn {
    Txn {
        session_id,
        mode,
        isolation,
        ownership_epoch,
        writes: Seq::empty(),
        keys: Map::empty(),
        signatures: Seq::empty(),
    }
}

/// A transaction with the session that it belongs to.
pub struct TransactionState {
    pub session_id: u64,
    pub transaction: NativeTransaction,
}

impl TransactionState {
    pub open spec fn view(&self) -> Txn {
        self.transaction.seen_by(self.session_id)
    }
}

impl Owned for TransactionState {
    open spec fn owner_id(&self) -> u64 {
        self.session_id
    }

    fn owner(&self) -> (r: u64) {
        self.session_id
    }
}

/// What a transaction holds, as a function.
pub open spec fn state_view() -> spec_fn(TransactionState) -> Txn {
    |s: TransactionState| s@
}

/// What is told of a transaction.
#[derive(Clone, Copy)]
pub struct TransactionInfo {
    pub session_id: u64,
    pub tx_id: u64,
    pub mode: TransactionMode,
    pub isolation: ReadIsolation,
    pub staged_writes: usize,
}

impl Ranked for TransactionInfo {
    open spec fn rank(&self) -> (u64, u64) {
        (self.session_id, self.tx_id)
    }

    fn rank_of(&self) -> (r: (u64, u64)) {
        (self.session_id, self.tx_id)
    }
}

/// What is told of a transaction.
pub open spec fn info_of(tx_id: u64, t: Txn) -> TransactionInfo {
    TransactionInfo {
        session_id: t.session_id,
        tx_id,
        mode: t.mode,
        isolation: t.isolation,
        staged_writes: t.writes.len() as usize,
    }
}

/// What is told of the transactions of one session.
pub open spec fn session_infos(list: Seq<(u64, Txn)>, session_id: u64) -> Seq<TransactionInfo>
    decreases list.len(),
{
    if list.len() == 0 {
        Seq::empty()
    } else if list.last().1.session_id == session_id {
        session_infos(list.drop_last(), session_id).push(info_of(list.last().0, list.last().1))
    } else {
        session_infos(list.drop_last(), session_id)
    }
}

/// What is told of all transactions.
pub open spec fn all_infos(list: Seq<(u64, Txn)>) -> Seq<TransactionInfo> {
    list.map_values(|e: (u64, Txn)| info_of(e.0, e.1))
}

/// What a plan says of the transaction that it is made in.
#[derive(Clone, Copy)]
pub struct TransactionPlanContext {
    pub mode: TransactionMode,
    pub isolation: ReadIsolation,
    pub staged_writes: usize,
}

/// What a plan says of a transaction.
pub open spec fn context_of(t: Txn) -> TransactionPlanContext {
    TransactionPlanContext {
        mode: t.mode,
        isolation: t.isolation,
        staged_writes: t.writes.len() as usize,
    }
}

/// How it is told that a session has no such transaction.
pub open spec fn unknown_transaction(tx_id: u64) -> Seq<char> {
    "unknown transaction: "@ + dec(tx_id as nat)
}

fn show_unknown(tx_id: u64) -> (r: String)
    ensures
        r@ == unknown_transaction(tx_id),
{
    cat("unknown transaction: ", show(tx_id as u128).as_str())
}

/// The transaction that a session has under a number.
pub open spec fn open_in(m: Map<u64, Txn>, session_id: u64, tx_id: u64) -> Option<Txn> {
    if m.dom().contains(tx_id) && m[tx_id].session_id == session_id {
        Some(m[tx_id])
    } else {
        None
    }
}

/// A transaction with one more write, or why it cannot have it: the session has no such
/// transaction, or it only reads, or the write changes the schema, or another write of the
/// transaction has the same target.
pub open spec fn staged(
    m: Map<u64, Txn>,
    session_id: u64,
    tx_id: u64,
    write: Write,
    signature: Seq<Seq<char>>,
) -> Result<Txn, Seq<char>> {
    match open_in(m, session_id, tx_id) {
        None => Err(unknown_transaction(tx_id)),
        Some(t) => if t.mode is ReadOnly {
            Err(
                "transaction "@ + dec(tx_id as nat)
                    + " is read-only; begin with READ_WRITE for write queries"@,
            )
        } else if is_schema(write.query) {
            Err("schema DDL is not supported inside native read-write transactions"@)
        } else {
            match conflict_key(write.query, signature) {
                None => Ok(
                    Txn {
                        writes: t.writes.push(write),
                        signatures: t.signatures.push(signature),
                        ..t
                    },
                ),
                Some(key) => if t.keys.dom().contains(key) {
                    Err(
                        "transaction "@ + dec(tx_id as nat) + " write conflict on staged target "@
                            + debug_text(key),
                    )
                } else {
                    Ok(
                        Txn {
                            writes: t.writes.push(write),
                            keys: t.keys.insert(key, ()),
                            signatures: t.signatures.push(signature),
                            ..t
                        },
                    )
                },
            }
        },
    }
}

/// Where the rows of a query inside a transaction come from.
pub enum CursorSource {
    /// What is committed now, under an isolation.
    Fresh(ReadIsolation),
    /// What was committed when the transaction began.
    Begun,
    /// What is committed, with the writes of the transaction on top.
    Staged(ReadIsolation, Vec<StagedWrite>),
}

/// The contents of where rows come from.
pub enum Source {
    Fresh(ReadIsolation),
    Begun,
    Staged(ReadIsolation, Seq<Write>),
}

impl CursorSource {
    pub open spec fn view(&self) -> Source {
        match *self {
            CursorSource::Fresh(i) => Source::Fresh(i),
            CursorSource::Begun => Source::Begun,
            CursorSource::Staged(i, w) => Source::Staged(i, write_views(w@)),
        }
    }

    pub open spec fn well_formed(&self) -> bool {
        match *self {
            CursorSource::Staged(_, w) => writes_well_formed(w@),
            _ => true,
        }
    }
}

/// Where the rows of a query in a transaction come from. A query over several servers needs
/// the writes of the transaction only where there are some.
pub open spec fn source_of(t: Txn, distributed: bool) -> Source {
    if t.mode is ReadOnly {
        if t.isolation is ReadCommitted {
            Source::Fresh(ReadIsolation::ReadCommitted)
        } else {
            Source::Begun
        }
    } else if distributed && t.writes.len() == 0 {
        Source::Fresh(t.isolation)
    } else {
        Source::Staged(t.isolation, t.writes)
    }
}

/// The open transactions.
pub struct TransactionStore {
    next_id: u64,
    next_session: u64,
    transactions: Table<TransactionState>,
}

impl TransactionStore {
    pub closed spec fn view(&self) -> Map<u64, Txn> {
        seen_map(self.transactions@, state_view())
    }

    /// The number that was given to a transaction last.
    pub closed spec fn last_id(&self) -> u64 {
        self.next_id
    }

    /// The number that was given to a session last.
    pub closed spec fn last_session(&self) -> u64 {
        self.next_session
    }

    /// Each transaction is well formed and has a number that was given out.
    pub closed spec fn well_formed(&self) -> bool {
        self.transactions.well_formed() && forall|k: u64|
            #![trigger self.transactions@.dom().contains(k)]
            self.transactions@.dom().contains(k) ==> k <= self.next_id
                && self.transactions@[k].transaction.well_formed()
    }

    /// The number of every open transaction was given out.
    pub proof fn open_numbers_were_given_out(&self)
        requires
            self.well_formed(),
        ensures
            forall|k: u64| #[trigger] self@.dom().contains(k) ==> k <= self.last_id(),
    {
        assert forall|k: u64| #[trigger] self@.dom().contains(k) implies k <= self.last_id() by {
            assert(self.transactions@.dom().contains(k));
        }
    }

    /// Every open transaction keeps the targets of its writes, and no two of its writes have
    /// the same one.
    pub proof fn open_transactions_are_consistent(&self)
        requires
            self.well_formed(),
        ensures
            forall|k: u64| #[trigger] self@.dom().contains(k) ==> self@[k].consistent(),
    {
        assert forall|k: u64| #[trigger] self@.dom().contains(k) implies self@[k].consistent() by {
            assert(self.transactions@.dom().contains(k));
            assert(self.transactions@[k].transaction.seen_by(0).consistent());
            assert(self@[k] == self.transactions@[k]@);
        }
    }

    pub fn new() -> (r: Self)
        ensures
            r.well_formed(),
            r@ == Map::<u64, Txn>::empty(),
            r.last_id() == 0,
            r.last_session() == 0,
    {
        proof {
            lemma_seen_empty(state_view());
        }
        TransactionStore { next_id: 0, next_session: 0, transactions: Table::new() }
    }

    /// Gives a number to a new session.
    pub fn next_session_id(&mut self) -> (r: u64)
        requires
            old(self).well_formed(),
            old(self).last_session() < u64::MAX,
        ensures
            final(self).well_formed(),
            r == old(self).last_session() + 1,
            final(self).last_session() == r,
            final(self)@ == old(self)@,
            final(self).last_id() == old(self).last_id(),
    {
        self.next_session = self.next_session + 1;
        self.next_session
    }

    /// Opens a transaction, under a number that none had before.
    pub fn insert(&mut self, session_id: u64, transaction: NativeTransaction) -> (r: u64)
        requires
            old(self).well_formed(),
            old(self).last_id() < u64::MAX,
            transaction.well_formed(),
        ensures
            final(self).well_formed(),
            r == old(self).last_id() + 1,
            final(self).last_id() == r,
            !old(self)@.dom().contains(r),
            final(self)@ == old(self)@.insert(r, transaction.seen_by(session_id)),
            final(self).last_session() == old(self).last_session(),
    {
        let tx_id: u64 = self.next_id + 1;
        let state = TransactionState { session_id, transaction };
        proof {
            lemma_seen_insert(self.transactions@, state_view(), tx_id, state);
        }
        self.next_id = tx_id;
        self.transactions.insert(tx_id, state);
        tx_id
    }

    fn find(&self, session_id: u64, tx_id: u64) -> (r: Option<&TransactionState>)
        requires
            self.well_formed(),
        ensures
            match r {
                Some(s) => open_in(self@, session_id, tx_id) == Some(s@)
                    && s.transaction.well_formed(),
                None => open_in(self@, session_id, tx_id) is None,
            },
    {
        match self.transactions.get(tx_id) {
            None => None,
            Some(state) => if state.session_id == session_id {
                Some(state)
            } else {
                None
            },
        }
    }

    /// Tells where the rows of a query in a transaction come from.
    pub fn cursor_source(&self, session_id: u64, tx_id: u64, distributed: bool) -> (r: Result<
        CursorSource,
        String,
    >)
        requires
            self.well_formed(),
        ensures
            match open_in(self@, session_id, tx_id) {
                None => r is Err && r->Err_0@ == unknown_transaction(tx_id),
                Some(t) => r is Ok && r->Ok_0@ == source_of(t, distributed)
                    && r->Ok_0.well_formed(),
            },
    {
        match self.find(session_id, tx_id) {
            None => Err(show_unknown(tx_id)),
            Some(state) => {
                let t = &state.transaction;
                match t.mode {
                    TransactionMode::ReadOnly => match t.isolation {
                        ReadIsolation::ReadCommitted => Ok(
                            CursorSource::Fresh(ReadIsolation::ReadCommitted),
                        ),
                        ReadIsolation::Snapshot => Ok(CursorSource::Begun),
                    },
                    TransactionMode::ReadWrite => if distributed && t.staged_writes.len() == 0 {
                        Ok(CursorSource::Fresh(t.isolation))
                    } else {
                        Ok(
                            CursorSource::Staged(
                                t.isolation,
                                copy_writes(t.staged_writes.as_slice()),
                            ),
                        )
                    },
                }
            },
        }
    }

    /// Tells what a plan says of a transaction.
    pub fn plan_context(&self, session_id: u64, tx_id: u64) -> (r: Result<
        TransactionPlanContext,
        String,
    >)
        requires
            self.well_formed(),
        ensures
            match open_in(self@, session_id, tx_id) {
                None => r is Err && r->Err_0@ == unknown_transaction(tx_id),
                Some(t) => r == Ok::<TransactionPlanContext, String>(context_of(t)),
            },
    {
        match self.find(session_id, tx_id) {
            None => Err(show_unknown(tx_id)),
            Some(state) => Ok(
                TransactionPlanContext {
                    mode: state.transaction.mode,
                    isolation: state.transaction.isolation,
                    staged_writes: state.transaction.staged_writes.len(),
                },
            ),
        }
    }

    /// Adds a write to a transaction, and tells how many it has then. The signature is the
    /// parameters, each with its value.
    pub fn stage_write(
        &mut self,
        session_id: u64,
        tx_id: u64,
        query: String,
        params: QueryParams,
        signature: &[String],
    ) -> (r: Result<usize, String>)
        requires
            old(self).well_formed(),
            params.well_formed(),
        ensures
            final(self).well_formed(),
            final(self).last_id() == old(self).last_id(),
            final(self).last_session() == old(self).last_session(),
            match staged(
                old(self)@,
                session_id,
                tx_id,
                (Write { query: query@, params: params@ }),
                views(signature@),
            ) {
                Err(e) => r is Err && r->Err_0@ == e && final(self)@ == old(self)@,
                Ok(t) => r is Ok && r->Ok_0 == t.writes.len() && final(self)@ == old(self)@.insert(
                    tx_id,
                    t,
                ),
            },
    {
        let ghost before = self.transactions@;
        let (mode, key) = match self.find(session_id, tx_id) {
            None => return Err(show_unknown(tx_id)),
            Some(state) => {
                if let TransactionMode::ReadOnly = state.transaction.mode {
                    let mut e = "transaction ".to_owned();
                    e.append(show(tx_id as u128).as_str());
                    e.append(" is read-only; begin with READ_WRITE for write queries");
                    return Err(e);
                }
                if is_schema_cypher(query.as_str()) {
                    return Err(
                        "schema DDL is not supported inside native read-write transactions".to_owned(),
                    );
                }
                let key = write_conflict_key(query.as_str(), signature);
                if let Some(k) = &key {
                    if state.transaction.conflict_keys.has(k.as_str()) {
                        let mut e = "transaction ".to_owned();
                        e.append(show(tx_id as u128).as_str());
                        e.append(" write conflict on staged target ");
                        e.append(quoted(k.as_str()).as_str());
                        return Err(e);
                    }
                }
                (state.transaction.mode, key)
            },
        };
        let ghost was = before[tx_id];
        assert(before.dom().contains(tx_id));
        match self.transactions.remove(tx_id) {
            None => Err(show_unknown(tx_id)),
            Some(state) => {
                let TransactionState { session_id: owner, transaction } = state;
                let NativeTransaction {
                    mode: _,
                    isolation,
                    ownership_epoch,
                    staged_writes,
                    conflict_keys,
                    signatures,
                } = transaction;
                let mut writes = staged_writes;
                let mut keys = conflict_keys;
                if let Some(k) = key {
                    keys.insert(k, ());
                }
                let ghost w = StagedWrite { query, params };
                let ghost old_writes = writes@;
                writes.push(StagedWrite { query, params });
                assert(write_views(writes@) =~= write_views(old_writes).push(w@));
                let count: usize = writes.len();
                let next = TransactionState {
                    session_id: owner,
                    transaction: NativeTransaction {
                        mode,
                        isolation,
                        ownership_epoch,
                        staged_writes: writes,
                        conflict_keys: keys,
                        signatures: Ghost(signatures@.push(views(signature@))),
                    },
                };
                proof {
                    staging_keeps_transactions_consistent(
                        old(self)@,
                        session_id,
                        tx_id,
                        w@,
                        views(signature@),
                    );
                    lemma_seen_remove(before, state_view(), tx_id);
                    lemma_seen_insert(before.remove(tx_id), state_view(), tx_id, next);
                    assert(seen_map(before, state_view()).remove(tx_id).insert(tx_id, next@)
                        =~= seen_map(before, state_view()).insert(tx_id, next@));
                }
                self.transactions.insert(tx_id, next);
                Ok(count)
            },
        }
    }

    /// Takes a transaction out.
    pub fn close(&mut self, session_id: u64, tx_id: u64) -> (r: Result<NativeTransaction, String>)
        requires
            old(self).well_formed(),
        ensures
            final(self).well_formed(),
            final(self).last_id() == old(self).last_id(),
            final(self).last_session() == old(self).last_session(),
            match open_in(old(self)@, session_id, tx_id) {
                None => r is Err && r->Err_0@ == unknown_transaction(tx_id) && final(self)@ == old(
                    self,
                )@,
                Some(t) => r is Ok && r->Ok_0.seen_by(session_id) == t && r->Ok_0.well_formed()
                    && final(self)@ == old(self)@.remove(tx_id),
            },
    {
        let found = self.find(session_id, tx_id).is_some();
        if !found {
            return Err(show_unknown(tx_id));
        }
        proof {
            lemma_seen_remove(self.transactions@, state_view(), tx_id);
        }
        match self.transactions.remove(tx_id) {
            None => Err(show_unknown(tx_id)),
            Some(state) => Ok(state.transaction),
        }
    }

    /// Takes a transaction out, whichever session it belongs to.
    pub fn close_any(&mut self, tx_id: u64) -> (r: Result<TransactionInfo, String>)
        requires
            old(self).well_formed(),
        ensures
            final(self).well_formed(),
            final(self).last_id() == old(self).last_id(),
            final(self).last_session() == old(self).last_session(),
            final(self)@ == old(self)@.remove(tx_id),
            if old(self)@.dom().contains(tx_id) {
                r == Ok::<TransactionInfo, String>(info_of(tx_id, old(self)@[tx_id]))
            } else {
                r is Err && r->Err_0@ == unknown_transaction(tx_id)
            },
    {
        proof {
            lemma_seen_remove(self.transactions@, state_view(), tx_id);
        }
        match self.transactions.remove(tx_id) {
            None => Err(show_unknown(tx_id)),
            Some(state) => Ok(
                TransactionInfo {
                    session_id: state.session_id,
                    tx_id,
                    mode: state.transaction.mode,
                    isolation: state.transaction.isolation,
                    staged_writes: state.transaction.staged_writes.len(),
                },
            ),
        }
    }

    /// The writes of a transaction.
    pub fn staged_writes(&self, session_id: u64, tx_id: u64) -> (r: Result<Vec<StagedWrite>, String>)
        requires
            self.well_formed(),
        ensures
            match open_in(self@, session_id, tx_id) {
                None => r is Err && r->Err_0@ == unknown_transaction(tx_id),
                Some(t) => r is Ok && write_views(r->Ok_0@) == t.writes && writes_well_formed(
                    r->Ok_0@,
                ),
            },
    {
        match self.find(session_id, tx_id) {
            None => Err(show_unknown(tx_id)),
            Some(state) => Ok(copy_writes(state.transaction.staged_writes.as_slice())),
        }
    }

    /// Forgets the transactions of a session, and tells how many there were.
    pub fn close_session(&mut self, session_id: u64) -> (r: usize)
        requires
            old(self).well_formed(),
        ensures
            final(self).well_formed(),
            final(self).last_id() == old(self).last_id(),
            final(self).last_session() == old(self).last_session(),
            final(self)@ == session_closed(old(self)@, session_id),
            r == session_infos(sorted(old(self)@), session_id).len(),
    {
        let ghost before = self.transactions@;
        let ghost entries = self.transactions.entries();
        let removed = self.transactions.remove_session(session_id);
        proof {
            lemma_seen(entries, state_view());
            lemma_session_count(entries, session_id);
            assert(seen_map(without_session(before, session_id), state_view()) =~= session_closed(
                seen_map(before, state_view()),
                session_id,
            ));
        }
        removed.len()
    }

    /// Tells of the transactions of a session, in the order of their numbers.
    pub fn list(&self, session_id: u64) -> (r: Vec<TransactionInfo>)
        requires
            self.well_formed(),
        ensures
            r@ == session_infos(sorted(self@), session_id),
    {
        let mut r: Vec<TransactionInfo> = Vec::new();
        let mut i: usize = 0;
        let ghost all = seen_entries(self.transactions.entries(), state_view());
        proof {
            lemma_seen(self.transactions.entries(), state_view());
        }
        assert(r@ =~= session_infos(all.take(0), session_id));
        while i < self.transactions.len()
            invariant
                0 <= i <= self.transactions.entries().len(),
                all == seen_entries(self.transactions.entries(), state_view()),
                r@ == session_infos(all.take(i as int), session_id),
            decreases self.transactions.entries().len() - i,
        {
            assert(all.take(i + 1).drop_last() =~= all.take(i as int));
            assert(all.take(i + 1).last() == all[i as int]);
            let state = self.transactions.value_at(i);
            if state.session_id == session_id {
                r.push(tell(self.transactions.key_at(i), state));
            }
            i = i + 1;
        }
        assert(all.take(all.len() as int) =~= all);
        r
    }

    /// Tells of all transactions, in the order of their sessions and of their numbers.
    pub fn list_all(&self) -> (r: Vec<TransactionInfo>)
        requires
            self.well_formed(),
        ensures
            r@ == ranked(all_infos(sorted(self@))),
    {
        let mut r: Vec<TransactionInfo> = Vec::new();
        let mut i: usize = 0;
        let ghost all = seen_entries(self.transactions.entries(), state_view());
        proof {
            lemma_seen(self.transactions.entries(), state_view());
        }
        assert(r@ =~= all_infos(all).take(0));
        while i < self.transactions.len()
            invariant
                0 <= i <= self.transactions.entries().len(),
                all == seen_entries(self.transactions.entries(), state_view()),
                r@ == all_infos(all).take(i as int),
            decreases self.transactions.entries().len() - i,
        {
            let info = tell(self.transactions.key_at(i), self.transactions.value_at(i));
            assert(all_infos(all)[i as int] == info);
            r.push(info);
            assert(all_infos(all).take(i + 1) =~= all_infos(all).take(i as int).push(info));
            i = i + 1;
        }
        assert(all_infos(all).take(all.len() as int) =~= all_infos(all));
        sort_by_rank(r)
    }

    /// Tells of a transaction.
    pub fn status(&self, session_id: u64, tx_id: u64) -> (r: Result<TransactionInfo, String>)
        requires
            self.well_formed(),
        ensures
            match open_in(self@, session_id, tx_id) {
                None => r is Err && r->Err_0@ == unknown_transaction(tx_id),
                Some(t) => r == Ok::<TransactionInfo, String>(info_of(tx_id, t)),
            },
    {
        match self.find(session_id, tx_id) {
            None => Err(show_unknown(tx_id)),
            Some(state) => Ok(tell(tx_id, state)),
        }
    }
}

fn tell(tx_id: u64, state: &TransactionState) -> (r: TransactionInfo)
    ensures
        r == info_of(tx_id, state@),
{
    TransactionInfo {
        session_id: state.session_id,
        tx_id,
        mode: state.transaction.mode,
        isolation: state.transaction.isolation,
        staged_writes: state.transaction.staged_writes.len(),
    }
}

/// What is left when a session has gone.
pub open spec fn session_closed(m: Map<u64, Txn>, session_id: u64) -> Map<u64, Txn> {
    Map::new(|k: u64| m.dom().contains(k) && m[k].session_id != session_id, |k: u64| m[k])
}

proof fn lemma_session_count(entries: Seq<(u64, TransactionState)>, session_id: u64)
    ensures
        owned_by(entries, session_id).len() == session_infos(
            seen_entries(entries, state_view()),
            session_id,
        ).len(),
    decreases entries.len(),
{
    if entries.len() > 0 {
        lemma_session_count(entries.drop_last(), session_id);
        assert(seen_entries(entries, state_view()).drop_last() =~= seen_entries(
            entries.drop_last(),
            state_view(),
        ));
    }
}

/// No session reaches a transaction of another: it is told that there is none, can add no
/// write to it, and its end leaves the transaction open.
pub proof fn transactions_belong_to_their_session(
    m: Map<u64, Txn>,
    session_id: u64,
    tx_id: u64,
    write: Write,
    signature: Seq<Seq<char>>,
)
    requires
        m.dom().contains(tx_id),
        m[tx_id].session_id != session_id,
    ensures
        open_in(m, session_id, tx_id) is None,
        staged(m, session_id, tx_id, write, signature) == Err::<Txn, Seq<char>>(
            unknown_transaction(tx_id),
        ),
        session_closed(m, session_id).dom().contains(tx_id),
        session_closed(m, session_id)[tx_id] == m[tx_id],
{
}

/// A write that is staged comes behind the ones before, changes no other transaction, and a
/// write with the same target is then refused.
pub proof fn staged_targets_are_written_once(
    m: Map<u64, Txn>,
    session_id: u64,
    tx_id: u64,
    write: Write,
    signature: Seq<Seq<char>>,
)
    requires
        staged(m, session_id, tx_id, write, signature) is Ok,
        conflict_key(write.query, signature) is Some,
    ensures
        ({
            let t = staged(m, session_id, tx_id, write, signature)->Ok_0;
            t.writes == m[tx_id].writes.push(write) && staged(
                m.insert(tx_id, t),
                session_id,
                tx_id,
                write,
                signature,
            ) is Err
        }),
{
}

/// What a plan says of its transaction, in words.
pub open spec fn context_text(c: TransactionPlanContext) -> Seq<char> {
    "tx_mode="@ + mode_text(c.mode) + " tx_isolation="@ + isolation_text(c.isolation)
        + " staged_writes="@ + dec(c.staged_writes as nat) + " staged_overlay="@ + (
    if c.staged_writes == 0 {
        "none"@
    } else {
        "pending"@
    })
}

/// The plan of a query, with what it says of its transaction where it runs in one.
pub open spec fn plan_text(plan: Seq<char>, context: Option<TransactionPlanContext>) -> Seq<char> {
    match context {
        Some(c) => plan + " "@ + context_text(c),
        None => plan,
    }
}

/// Adds to the plan of a query what it says of its transaction.
pub fn plan_with_context(plan: String, context: &Option<TransactionPlanContext>) -> (r: String)
    ensures
        r@ == plan_text(plan@, *context),
{
    match context {
        None => plan,
        Some(c) => {
            let mut r = plan;
            r.append(" ");
            r.append(format_transaction_plan_context(c).as_str());
            r
        },
    }
}

/// Writes what a plan says of its transaction.
pub fn format_transaction_plan_context(context: &TransactionPlanContext) -> (r: String)
    ensures
        r@ == context_text(*context),
{
    let overlay = if context.staged_writes == 0 {
        "none"
    } else {
        "pending"
    };
    let mut r = "tx_mode=".to_owned();
    r.append(format_transaction_mode(context.mode));
    r.append(" tx_isolation=");
    r.append(format_read_isolation(context.isolation));
    r.append(" staged_writes=");
    r.append(show(context.staged_writes as u128).as_str());
    r.append(" staged_overlay=");
    r.append(overlay);
    r
}

/// A transaction in a list.
pub open spec fn listed(info: TransactionInfo) -> Seq<char> {
    dec(info.tx_id as nat) + ":"@ + mode_text(info.mode) + ":"@ + isolation_text(info.isolation)
        + ":"@ + dec(info.staged_writes as nat)
}

/// A transaction in a list of all sessions.
pub open spec fn listed_with_session(info: TransactionInfo) -> Seq<char> {
    dec(info.session_id as nat) + ":"@ + dec(info.tx_id as nat) + ":"@ + mode_text(info.mode)
        + ":"@ + isolation_text(info.isolation) + ":"@ + dec(info.staged_writes as nat)
}

/// The entries of a list.
pub open spec fn listed_all(infos: Seq<TransactionInfo>) -> Seq<Seq<char>> {
    infos.map_values(|i: TransactionInfo| listed(i))
}

/// The entries of a list of all sessions.
pub open spec fn listed_all_with_session(infos: Seq<TransactionInfo>) -> Seq<Seq<char>> {
    infos.map_values(|i: TransactionInfo| listed_with_session(i))
}

fn show_listed(info: &TransactionInfo) -> (r: String)
    ensures
        r@ == listed(*info),
{
    let mut r = show(info.tx_id as u128);
    r.append(":");
    r.append(format_transaction_mode(info.mode));
    r.append(":");
    r.append(format_read_isolation(info.isolation));
    r.append(":");
    r.append(show(info.staged_writes as u128).as_str());
    r
}

fn show_listed_with_session(info: &TransactionInfo) -> (r: String)
    ensures
        r@ == listed_with_session(*info),
{
    let mut r = show(info.session_id as u128);
    r.append(":");
    r.append(show(info.tx_id as u128).as_str());
    r.append(":");
    r.append(format_transaction_mode(info.mode));
    r.append(":");
    r.append(format_read_isolation(info.isolation));
    r.append(":");
    r.append(show(info.staged_writes as u128).as_str());
    r
}

/// Writes the transactions of a session.
pub fn format_tx_list(infos: &[TransactionInfo]) -> (r: String)
    ensures
        r@ == "OK\tTX_LIST\t"@ + dec(infos@.len()) + "\t"@ + join(listed_all(infos@), ","@),
{
    let mut parts: Vec<String> = Vec::new();
    let mut i: usize = 0;
    let ghost all = listed_all(infos@);
    assert(views(parts@) =~= all.take(0));
    while i < infos.len()
        invariant
            0 <= i <= infos@.len(),
            all == listed_all(infos@),
            views(parts@) == all.take(i as int),
        decreases infos@.len() - i,
    {
        let part = show_listed(&infos[i]);
        assert(all[i as int] == part@);
        proof {
            lemma_views_push(parts@, part);
        }
        parts.push(part);
        assert(all.take(i + 1) =~= all.take(i as int).push(part@));
        i = i + 1;
    }
    assert(all.take(all.len() as int) =~= all);
    let mut r = "OK\tTX_LIST\t".to_owned();
    r.append(show(infos.len() as u128).as_str());
    r.append("\t");
    r.append(join_with(parts.as_slice(), ",").as_str());
    r
}

/// Writes the transactions of all sessions.
pub fn format_tx_list_all(infos: &[TransactionInfo]) -> (r: String)
    ensures
        r@ == "OK\tTX_LIST_ALL\t"@ + dec(infos@.len()) + "\t"@ + join(
            listed_all_with_session(infos@),
            ","@,
        ),
{
    let mut parts: Vec<String> = Vec::new();
    let mut i: usize = 0;
    let ghost all = listed_all_with_session(infos@);
    assert(views(parts@) =~= all.take(0));
    while i < infos.len()
        invariant
            0 <= i <= infos@.len(),
            all == listed_all_with_session(infos@),
            views(parts@) == all.take(i as int),
        decreases infos@.len() - i,
    {
        let part = show_listed_with_session(&infos[i]);
        assert(all[i as int] == part@);
        proof {
            lemma_views_push(parts@, part);
        }
        parts.push(part);
        assert(all.take(i + 1) =~= all.take(i as int).push(part@));
        i = i + 1;
    }
    assert(all.take(all.len() as int) =~= all);
    let mut r = "OK\tTX_LIST_ALL\t".to_owned();
    r.append(show(infos.len() as u128).as_str());
    r.append("\t");
    r.append(join_with(parts.as_slice(), ",").as_str());
    r
}

/// The state of a transaction, in words.
pub open spec fn status_text(info: TransactionInfo) -> Seq<char> {
    "OK\tTX_STATUS\t"@ + dec(info.tx_id as nat) + "\t"@ + mode_text(info.mode) + "\t"@
        + isolation_text(info.isolation) + "\t"@ + dec(info.staged_writes as nat)
}

/// Writes the state of a transaction.
pub fn format_tx_status(info: &TransactionInfo) -> (r: String)
    ensures
        r@ == status_text(*info),
{
    let mut r = "OK\tTX_STATUS\t".to_owned();
    r.append(show(info.tx_id as u128).as_str());
    r.append("\t");
    r.append(format_transaction_mode(info.mode));
    r.append("\t");
    r.append(format_read_isolation(info.isolation));
    r.append("\t");
    r.append(show(info.staged_writes as u128).as_str());
    r
}

} // verus!
