//! Cursors: which session has which, and how the rows of several servers come together.

use vstd::prelude::*;

use crate::native::{cursor_number, known, parse_cursor_id};
use crate::table::{as_map, ascending, owned_by, without_session, Owned, Table};
use crate::text::{
    begins, cat, cat3, dec, lemma_views_push, number, read_usize, same, show, split, split_first,
    split_on, split_once, starts_with, views,
};

verus! {

/// A cursor with the session that it belongs to, and the database whose quota it uses.
pub struct CursorState<C> {
    pub session_id: u64,
    pub cursor: C,
    pub tenant_permit: Option<String>,
}

impl<C> Owned for CursorState<C> {
    open spec fn owner_id(&self) -> u64 {
        self.session_id
    }

    fn owner(&self) -> (r: u64) {
        self.session_id
    }
}

/// What keeps a session from a cursor.
pub open spec fn cursor_refusal<C>(m: Map<u64, CursorState<C>>, session_id: u64, cursor_id: u64) -> Option<
    Seq<char>,
> {
    if !m.dom().contains(cursor_id) {
        Some("unknown cursor: "@ + dec(cursor_id as nat))
    } else if m[cursor_id].session_id != session_id {
        Some("cursor "@ + dec(cursor_id as nat) + " belongs to another session"@)
    } else {
        None
    }
}

/// The open cursors.
pub struct CursorStore<C> {
    next_id: u64,
    cursors: Table<CursorState<C>>,
}

impl<C> CursorStore<C> {
    pub closed spec fn view(&self) -> Map<u64, CursorState<C>> {
        self.cursors@
    }

    /// The cursors in the order of their numbers.
    pub closed spec fn entries(&self) -> Seq<(u64, CursorState<C>)> {
        self.cursors.entries()
    }

    /// The number that was given to a cursor last.
    pub closed spec fn last_id(&self) -> u64 {
        self.next_id
    }

    /// Each cursor has a number that was given out.
    pub closed spec fn well_formed(&self) -> bool {
        self.cursors.well_formed() && forall|k: u64| #[trigger]
            self.cursors@.dom().contains(k) ==> k <= self.next_id
    }

    /// The entries are what the store holds, in ascending order.
    pub proof fn lemma_entries(&self)
        requires
            self.well_formed(),
        ensures
            ascending(self.entries()),
            self@ == as_map(self.entries()),
    {
    }

    pub fn new() -> (r: Self)
        ensures
            r.well_formed(),
            r@ == Map::<u64, CursorState<C>>::empty(),
            r.last_id() == 0,
    {
        CursorStore { next_id: 0, cursors: Table::new() }
    }

    /// Keeps a cursor, under a number that none had before.
    pub fn insert_with_permit(
        &mut self,
        session_id: u64,
        cursor: C,
        tenant_permit: Option<String>,
    ) -> (r: u64)
        requires
            old(self).well_formed(),
            old(self).last_id() < u64::MAX,
        ensures
            final(self).well_formed(),
            r == old(self).last_id() + 1,
            final(self).last_id() == r,
            !old(self)@.dom().contains(r),
            final(self)@ == old(self)@.insert(
                r,
                (CursorState { session_id, cursor, tenant_permit }),
            ),
    {
        let cursor_id: u64 = self.next_id + 1;
        self.next_id = cursor_id;
        self.cursors.insert(cursor_id, CursorState { session_id, cursor, tenant_permit });
        cursor_id
    }

    fn refusal(&self, session_id: u64, cursor_id: u64) -> (r: Option<String>)
        requires
            self.well_formed(),
        ensures
            match r {
                Some(e) => cursor_refusal(self@, session_id, cursor_id) == Some(e@),
                None => cursor_refusal(self@, session_id, cursor_id) is None,
            },
    {
        match self.cursors.get(cursor_id) {
            None => Some(cat("unknown cursor: ", show(cursor_id as u128).as_str())),
            Some(state) => if state.session_id == session_id {
                None
            } else {
                Some(
                    cat3(
                        "cursor ",
                        show(cursor_id as u128).as_str(),
                        " belongs to another session",
                    ),
                )
            },
        }
    }

    /// Takes a cursor out, so that rows can be fetched from it.
    pub fn take(&mut self, session_id: u64, cursor_id: u64) -> (r: Result<CursorState<C>, String>)
        requires
            old(self).well_formed(),
        ensures
            final(self).well_formed(),
            final(self).last_id() == old(self).last_id(),
            match cursor_refusal(old(self)@, session_id, cursor_id) {
                Some(e) => r is Err && r->Err_0@ == e && final(self)@ == old(self)@,
                None => r == Ok::<CursorState<C>, String>(old(self)@[cursor_id]) && final(self)@
                    == old(self)@.remove(cursor_id),
            },
    {
        if let Some(e) = self.refusal(session_id, cursor_id) {
            return Err(e);
        }
        match self.cursors.remove(cursor_id) {
            None => Err(cat("unknown cursor: ", show(cursor_id as u128).as_str())),
            Some(state) => Ok(state),
        }
    }

    /// Puts a cursor back that rows were fetched from. One that has no more rows stays out,
    /// and the database whose quota it used is told.
    pub fn fetched(&mut self, cursor_id: u64, state: CursorState<C>, has_more: bool) -> (r: Option<
        String,
    >)
        requires
            old(self).well_formed(),
            cursor_id <= old(self).last_id(),
        ensures
            final(self).well_formed(),
            final(self).last_id() == old(self).last_id(),
            if has_more {
                r is None && final(self)@ == old(self)@.insert(cursor_id, state)
            } else {
                r == state.tenant_permit && final(self)@ == old(self)@
            },
    {
        if has_more {
            self.cursors.insert(cursor_id, state);
            None
        } else {
            state.tenant_permit
        }
    }

    /// Forgets a cursor, and tells the database whose quota it used. To forget one that is
    /// not there is no error.
    pub fn close(&mut self, session_id: u64, cursor_id: u64) -> (r: Result<Option<String>, String>)
        requires
            old(self).well_formed(),
        ensures
            final(self).well_formed(),
            final(self).last_id() == old(self).last_id(),
            if !old(self)@.dom().contains(cursor_id) {
                r is Ok && r->Ok_0 is None && final(self)@ == old(self)@
            } else {
                match cursor_refusal(old(self)@, session_id, cursor_id) {
                    Some(e) => r is Err && r->Err_0@ == e && final(self)@ == old(self)@,
                    None => r == Ok::<Option<String>, String>(old(self)@[cursor_id].tenant_permit)
                        && final(self)@ == old(self)@.remove(cursor_id),
                }
            },
    {
        if !self.cursors.has(cursor_id) {
            return Ok(None);
        }
        match self.take(session_id, cursor_id) {
            Err(e) => Err(e),
            Ok(state) => Ok(state.tenant_permit),
        }
    }

    /// Forgets the cursors of a session, and hands them out.
    pub fn close_session(&mut self, session_id: u64) -> (r: Vec<(u64, CursorState<C>)>)
        requires
            old(self).well_formed(),
        ensures
            final(self).well_formed(),
            final(self).last_id() == old(self).last_id(),
            final(self)@ == without_session(old(self)@, session_id),
            r@ == owned_by(old(self).entries(), session_id),
    {
        self.cursors.remove_session(session_id)
    }
}

/// No session reaches a cursor of another, and the end of a session leaves the cursors of the
/// others.
pub proof fn cursors_belong_to_their_session<C>(
    m: Map<u64, CursorState<C>>,
    session_id: u64,
    cursor_id: u64,
)
    requires
        m.dom().contains(cursor_id),
        m[cursor_id].session_id != session_id,
    ensures
        cursor_refusal(m, session_id, cursor_id) is Some,
        without_session(m, session_id).dom().contains(cursor_id),
        without_session(m, session_id)[cursor_id] == m[cursor_id],
{
}

/// Rows of a result, and whether there are more.
pub struct QueryPage<T> {
    pub rows: Vec<T>,
    pub has_more: bool,
}

/// The rows of one shard: those at hand, and whether a server holds more of them.
pub struct ShardQueryCursor<T> {
    pub cursor_id: u64,
    pub buffered_rows: Vec<T>,
    pub remote_has_more: bool,
    pub total_rows: Option<usize>,
    pub next_request_id: u64,
}

/// How many rows a page holds at least: one.
pub open spec fn page_len(page_size: usize) -> usize {
    if page_size == 0 {
        1
    } else {
        page_size
    }
}

/// How many rows a cursor has to get from its server before it can give a page.
pub open spec fn rows_wanted<T>(c: ShardQueryCursor<T>, page_size: usize) -> Option<usize> {
    if c.buffered_rows@.len() < page_len(page_size) && c.remote_has_more {
        Some((page_len(page_size) - c.buffered_rows@.len()) as usize)
    } else {
        None
    }
}

impl<T> ShardQueryCursor<T> {
    /// A cursor over rows that are all at hand.
    pub fn local(rows: Vec<T>) -> (r: Self)
        ensures
            r.buffered_rows@ == rows@,
            !r.remote_has_more,
            r.total_rows == Some(rows@.len() as usize),
    {
        let total: usize = rows.len();
        ShardQueryCursor {
            cursor_id: 0,
            buffered_rows: rows,
            remote_has_more: false,
            total_rows: Some(total),
            next_request_id: 1,
        }
    }

    /// A cursor that a server has opened; the next request to it is the second.
    pub fn remote(start: ResultStart<T>) -> (r: Self)
        ensures
            r.cursor_id == start.cursor_id,
            r.buffered_rows@ == start.rows@,
            r.remote_has_more == start.has_more,
            r.total_rows == start.total_rows,
            r.next_request_id == 2,
    {
        ShardQueryCursor {
            cursor_id: start.cursor_id,
            buffered_rows: start.rows,
            remote_has_more: start.has_more,
            total_rows: start.total_rows,
            next_request_id: 2,
        }
    }

    /// How many rows the server has to be asked for before a page can be given.
    pub fn wanted(&self, page_size: usize) -> (r: Option<usize>)
        ensures
            r == rows_wanted(*self, page_size),
    {
        let size: usize = if page_size == 0 {
            1
        } else {
            page_size
        };
        if self.buffered_rows.len() < size && self.remote_has_more {
            Some(size - self.buffered_rows.len())
        } else {
            None
        }
    }

    /// The number of the next request to the server, and what it carries.
    pub fn ask(&mut self, rows: usize) -> (r: (u64, String))
        requires
            old(self).next_request_id < u64::MAX,
        ensures
            r.0 == old(self).next_request_id,
            r.1@ == dec(old(self).cursor_id as nat) + "\t"@ + dec(rows as nat),
            *final(self) == (ShardQueryCursor {
                next_request_id: (old(self).next_request_id + 1) as u64,
                ..*old(self)
            }),
    {
        let id: u64 = self.next_request_id;
        self.next_request_id = id + 1;
        let mut payload = show(self.cursor_id as u128);
        payload.append("\t");
        payload.append(show(rows as u128).as_str());
        (id, payload)
    }

    /// Takes in what the server sent. Where it sent no page, its rows are at an end.
    pub fn arrived(&mut self, page: Option<QueryPage<T>>)
        ensures
            final(self).cursor_id == old(self).cursor_id,
            final(self).total_rows == old(self).total_rows,
            final(self).next_request_id == old(self).next_request_id,
            match page {
                Some(p) => final(self).buffered_rows@ == old(self).buffered_rows@ + p.rows@
                    && final(self).remote_has_more == p.has_more,
                None => final(self).buffered_rows@ == old(self).buffered_rows@ && !final(self).remote_has_more,
            },
    {
        match page {
            Some(p) => {
                let mut rows = p.rows;
                self.buffered_rows.append(&mut rows);
                self.remote_has_more = p.has_more;
            },
            None => {
                self.remote_has_more = false;
            },
        }
    }

    /// Gives the next page from the rows at hand.
    pub fn take_page(&mut self, page_size: usize) -> (r: QueryPage<T>)
        requires
            rows_wanted(*old(self), page_size) is None,
        ensures
            r.rows@ + final(self).buffered_rows@ == old(self).buffered_rows@,
            r.rows@.len() == (if old(self).buffered_rows@.len() < page_len(page_size) {
                old(self).buffered_rows@.len() as int
            } else {
                page_len(page_size) as int
            }),
            r.has_more == (final(self).buffered_rows@.len() > 0 || old(self).remote_has_more),
            final(self).cursor_id == old(self).cursor_id,
            final(self).total_rows == old(self).total_rows,
            final(self).remote_has_more == old(self).remote_has_more,
            final(self).next_request_id == old(self).next_request_id,
    {
        let size: usize = if page_size == 0 {
            1
        } else {
            page_size
        };
        let ghost before = self.buffered_rows@;
        let count: usize = if self.buffered_rows.len() < size {
            self.buffered_rows.len()
        } else {
            size
        };
        let rest = self.buffered_rows.split_off(count);
        let mut rows = rest;
        std::mem::swap(&mut rows, &mut self.buffered_rows);
        assert(rows@ + self.buffered_rows@ =~= before);
        QueryPage { rows, has_more: self.buffered_rows.len() > 0 || self.remote_has_more }
    }
}

/// The rows at hand of the cursors from the `i`-th on, in order.
pub open spec fn rows_from<T>(cursors: Seq<ShardQueryCursor<T>>, i: int) -> Seq<T>
    decreases cursors.len() - i,
{
    if i < 0 || i >= cursors.len() {
        Seq::empty()
    } else {
        cursors[i].buffered_rows@ + rows_from(cursors, i + 1)
    }
}

proof fn lemma_rows_from<T>(a: Seq<ShardQueryCursor<T>>, b: Seq<ShardQueryCursor<T>>, i: int)
    requires
        a.len() == b.len(),
        0 <= i <= a.len(),
        forall|j: int| i <= j < a.len() ==> a[j] == b[j],
    ensures
        rows_from(a, i) == rows_from(b, i),
    decreases a.len() - i,
{
    if i < a.len() {
        lemma_rows_from(a, b, i + 1);
    }
}

/// How many rows the first cursors have in all, where each tells it.
pub open spec fn total_known<T>(cursors: Seq<ShardQueryCursor<T>>) -> Option<nat>
    decreases cursors.len(),
{
    if cursors.len() == 0 {
        Some(0)
    } else {
        match (total_known(cursors.drop_last()), cursors.last().total_rows) {
            (Some(a), Some(b)) => Some(a + b as nat),
            _ => None,
        }
    }
}

/// The sum of the rows that the first cursors tell of.
pub open spec fn told_rows<T>(cursors: Seq<ShardQueryCursor<T>>) -> nat
    decreases cursors.len(),
{
    if cursors.len() == 0 {
        0
    } else {
        told_rows(cursors.drop_last()) + (match cursors.last().total_rows {
            Some(n) => n as nat,
            None => 0,
        })
    }
}

proof fn lemma_told_rows<T>(cursors: Seq<ShardQueryCursor<T>>, i: int)
    requires
        0 <= i <= cursors.len(),
    ensures
        told_rows(cursors.take(i)) <= told_rows(cursors),
        total_known(cursors.take(i)) is Some ==> total_known(cursors.take(i)).unwrap()
            == told_rows(cursors.take(i)),
        total_known(cursors) is Some ==> total_known(cursors.take(i)) is Some,
    decreases cursors.len(),
{
    if cursors.len() > 0 {
        if i == cursors.len() {
            assert(cursors.take(i) =~= cursors);
            lemma_told_rows(cursors.drop_last(), i - 1);
            assert(cursors.drop_last().take(i - 1) =~= cursors.drop_last());
        } else {
            lemma_told_rows(cursors.drop_last(), i);
            assert(cursors.drop_last().take(i) =~= cursors.take(i));
        }
    }
}

/// What a query over several servers needs next, or its next page.
pub enum DistributedStep<T> {
    /// Rows of a shard from its server.
    Ask { shard: usize, rows: usize },
    Page(QueryPage<T>),
}

/// The rows of several shards, one shard after the other.
pub struct DistributedQueryCursor<T> {
    pub cursors: Vec<ShardQueryCursor<T>>,
    pub current: usize,
    pub gathered: Vec<T>,
}

/// Whether two cursors differ in the rows at hand alone.
pub open spec fn same_server<T>(a: ShardQueryCursor<T>, b: ShardQueryCursor<T>) -> bool {
    a.cursor_id == b.cursor_id && a.remote_has_more == b.remote_has_more && a.total_rows
        == b.total_rows && a.next_request_id == b.next_request_id
}

/// Whether rows were only taken from the shards in order: a shard is left behind once it has
/// no row at hand and its server none, and the shards behind the current one are untouched.
pub open spec fn drained<T>(
    before: DistributedQueryCursor<T>,
    after: DistributedQueryCursor<T>,
) -> bool {
    &&& after.cursors@.len() == before.cursors@.len()
    &&& before.current <= after.current
    &&& forall|j: int|
        0 <= j < before.cursors@.len() ==> same_server(
            before.cursors@[j],
            #[trigger] after.cursors@[j],
        )
    &&& forall|j: int|
        before.current <= j < after.current ==> (#[trigger] after.cursors@[j]).buffered_rows@.len()
            == 0 && !after.cursors@[j].remote_has_more
    &&& forall|j: int|
        0 <= j < before.current || after.current < j < before.cursors@.len()
            ==> #[trigger] after.cursors@[j] == before.cursors@[j]
}

/// How many rows come before those of the `j`-th shard: the gathered ones, and those of the
/// shards from the current one on.
pub open spec fn rows_before<T>(c: DistributedQueryCursor<T>, j: int) -> nat
    decreases j - c.current,
{
    if j <= c.current {
        c.gathered@.len()
    } else {
        rows_before(c, j - 1) + c.cursors@[j - 1].buffered_rows@.len()
    }
}

/// Whether a page of that many rows leaves the `j`-th shard behind: the page is not full when
/// it comes to the shard, has room for all its rows, and the shard's server has no more.
pub open spec fn left_behind<T>(c: DistributedQueryCursor<T>, size: usize, j: int) -> bool {
    rows_before(c, j) < size && rows_before(c, j + 1) <= size && !c.cursors@[j].remote_has_more
}

/// Whether a step follows from what is at hand. Rows are only taken in order, and the shards
/// are left behind up to the first one that the page does not leave behind. If that shard has
/// to get rows from its server before the page is full, it is asked for, and is as before;
/// otherwise the page is what comes next, full unless there are no more rows.
pub open spec fn stepped<T>(
    before: DistributedQueryCursor<T>,
    page_size: usize,
    step: DistributedStep<T>,
    after: DistributedQueryCursor<T>,
) -> bool {
    &&& drained(before, after)
    &&& forall|j: int|
        before.current <= j < after.current ==> #[trigger] left_behind(
            before,
            page_len(page_size),
            j,
        )
    &&& after.current < after.cursors@.len() ==> !left_behind(
        before,
        page_len(page_size),
        after.current as int,
    )
    &&& match step {
        DistributedStep::Ask { shard, rows } => {
            &&& shard == after.current
            &&& shard < after.cursors@.len()
            &&& after.cursors@[shard as int] == before.cursors@[shard as int]
            &&& after.gathered@.len() < page_len(page_size)
            &&& rows_wanted(
                after.cursors@[shard as int],
                (page_len(page_size) - after.gathered@.len()) as usize,
            ) == Some(rows)
            &&& after.at_hand() == before.at_hand()
        },
        DistributedStep::Page(p) => {
            &&& after.gathered@.len() == 0
            &&& p.rows@ + after.at_hand() == before.at_hand()
            &&& p.has_more == (after.current < after.cursors@.len())
            &&& p.rows@.len() <= page_len(page_size)
            &&& p.has_more ==> p.rows@.len() == page_len(page_size)
        },
    }
}

/// Whether the current shard has taken in what its server sent, and nothing else has changed.
/// Where the server sent no page, its rows are at an end.
pub open spec fn received<T>(
    before: DistributedQueryCursor<T>,
    page: Option<QueryPage<T>>,
    after: DistributedQueryCursor<T>,
) -> bool {
    let was = before.cursors@[before.current as int];
    let now = after.cursors@[before.current as int];
    &&& after.current == before.current
    &&& after.gathered@ == before.gathered@
    &&& after.cursors@.len() == before.cursors@.len()
    &&& forall|j: int|
        0 <= j < before.cursors@.len() && j != before.current ==> #[trigger] after.cursors@[j]
            == before.cursors@[j]
    &&& now.cursor_id == was.cursor_id
    &&& now.total_rows == was.total_rows
    &&& now.next_request_id == was.next_request_id
    &&& match page {
        Some(p) => now.buffered_rows@ == was.buffered_rows@ + p.rows@ && now.remote_has_more
            == p.has_more,
        None => now.buffered_rows@ == was.buffered_rows@ && !now.remote_has_more,
    }
}

impl<T> DistributedQueryCursor<T> {
    pub open spec fn well_formed(&self) -> bool {
        self.current <= self.cursors@.len()
    }

    /// The rows at hand that have not been given out.
    pub open spec fn at_hand(&self) -> Seq<T> {
        self.gathered@ + rows_from(self.cursors@, self.current as int)
    }

    pub fn new(cursors: Vec<ShardQueryCursor<T>>) -> (r: Self)
        ensures
            r.well_formed(),
            r.cursors@ == cursors@,
            r.current == 0,
            r.gathered@ == Seq::<T>::empty(),
            r.at_hand() == rows_from(cursors@, 0),
    {
        let r = DistributedQueryCursor { cursors, current: 0, gathered: Vec::new() };
        assert(r.at_hand() =~= rows_from(cursors@, 0));
        r
    }

    /// Gives the next page, or tells which shard has to get rows from its server first. Rows
    /// come out in the order of the shards, each once; a page is full unless there are no
    /// more rows.
    pub fn next(&mut self, page_size: usize) -> (r: DistributedStep<T>)
        requires
            old(self).well_formed(),
            old(self).gathered@.len() <= page_len(page_size),
        ensures
            final(self).well_formed(),
            stepped(*old(self), page_size, r, *final(self)),
    {
        let size: usize = if page_size == 0 {
            1
        } else {
            page_size
        };
        let ghost start = self.at_hand();
        while self.gathered.len() < size && self.current < self.cursors.len()
            invariant
                size == page_len(page_size),
                start == old(self).at_hand(),
                self.well_formed(),
                self.gathered@.len() <= size,
                self.at_hand() == start,
                drained(*old(self), *self),
                forall|j: int|
                    old(self).current <= j < self.current ==> #[trigger] left_behind(
                        *old(self),
                        size,
                        j,
                    ),
                self.gathered@.len() == rows_before(*old(self), self.current as int) && (
                self.current < self.cursors@.len() ==> self.cursors@[self.current as int] == old(
                    self,
                ).cursors@[self.current as int]) || self.gathered@.len() == size && !left_behind(
                    *old(self),
                    size,
                    self.current as int,
                ),
            decreases
                    (self.cursors@.len() - self.current) + (if self.gathered@.len() < size {
                        1int
                    } else {
                        0int
                    }),
        {
            let remaining: usize = size - self.gathered.len();
            let i: usize = self.current;
            if let Some(rows) = self.cursors[i].wanted(remaining) {
                return DistributedStep::Ask { shard: i, rows };
            }
            let ghost before = self.cursors@;
            let ghost had = self.gathered@;
            let page = self.cursors[i].take_page(remaining);
            proof {
                lemma_rows_from(before, self.cursors@, i + 1);
            }
            let has_more = page.has_more;
            let mut rows = page.rows;
            let ghost taken = rows@;
            self.gathered.append(&mut rows);
            assert(self.gathered@ + rows_from(self.cursors@, i as int) =~= had + (taken
                + self.cursors@[i as int].buffered_rows@ + rows_from(self.cursors@, i + 1)));
            assert(self.gathered@ + rows_from(self.cursors@, i as int) =~= start);
            if !has_more {
                assert(self.cursors@[i as int].buffered_rows@.len() == 0);
                assert(rows_from(self.cursors@, i as int) =~= rows_from(self.cursors@, i + 1));
                self.current = i + 1;
            }
        }
        let mut out: Vec<T> = Vec::new();
        std::mem::swap(&mut out, &mut self.gathered);
        assert(self.at_hand() =~= rows_from(self.cursors@, self.current as int));
        DistributedStep::Page(QueryPage { rows: out, has_more: self.current < self.cursors.len() })
    }

    /// Takes in what the server of the shard sent that was asked for.
    pub fn answered(&mut self, page: Option<QueryPage<T>>)
        requires
            old(self).well_formed(),
            old(self).current < old(self).cursors@.len(),
        ensures
            final(self).well_formed(),
            received(*old(self), page, *final(self)),
    {
        let i: usize = self.current;
        let ghost before = self.cursors@;
        self.cursors[i].arrived(page);
        proof {
            lemma_rows_from(before, self.cursors@, i + 1);
        }
    }

    /// How many rows there are in all, where each shard tells it.
    pub fn total_rows(&self) -> (r: Option<usize>)
        requires
            told_rows(self.cursors@) <= usize::MAX,
        ensures
            known(r) == total_known(self.cursors@),
    {
        let mut sum: usize = 0;
        let mut i: usize = 0;
        let ghost all = self.cursors@;
        assert(all.take(0) =~= Seq::<ShardQueryCursor<T>>::empty());
        while i < self.cursors.len()
            invariant
                0 <= i <= self.cursors@.len(),
                all == self.cursors@,
                told_rows(all) <= usize::MAX,
                total_known(all.take(i as int)) == Some(sum as nat),
            decreases self.cursors@.len() - i,
        {
            assert(all.take(i + 1).drop_last() =~= all.take(i as int));
            assert(all.take(i + 1).last() == all[i as int]);
            proof {
                lemma_told_rows(all, i + 1);
            }
            match self.cursors[i].total_rows {
                None => {
                    return None;
                },
                Some(n) => {
                    sum = sum + n;
                },
            }
            i = i + 1;
        }
        assert(all.take(all.len() as int) =~= all);
        Some(sum)
    }
}

/// The first cells of a line, at most `n`; the last one holds the rest.
pub open spec fn cells(s: Seq<char>, n: nat) -> Seq<Seq<char>>
    decreases n,
{
    if n <= 1 {
        seq![s]
    } else {
        match split_once(s, "\t"@) {
            None => seq![s],
            Some((a, b)) => seq![a] + cells(b, (n - 1) as nat),
        }
    }
}

fn cells_of(s: &str, n: usize) -> (r: Vec<String>)
    requires
        n >= 1,
    ensures
        views(r@) == cells(s@, n as nat),
{
    let mut r: Vec<String> = Vec::new();
    let mut rest = s.to_owned();
    let mut left: usize = n;
    assert(views(r@) + cells(rest@, left as nat) =~= cells(s@, n as nat));
    while left > 1
        invariant
            1 <= left <= n,
            views(r@) + cells(rest@, left as nat) == cells(s@, n as nat),
        decreases left,
    {
        match split_first(rest.as_str(), "\t") {
            None => {
                proof {
                    lemma_views_push(r@, rest);
                }
                assert(views(r@) + seq![rest@] =~= views(r@).push(rest@));
                r.push(rest);
                return r;
            },
            Some((a, b)) => {
                proof {
                    lemma_views_push(r@, a);
                    assert(views(r@) + (seq![a@] + cells(b@, (left - 1) as nat)) =~= views(
                        r@,
                    ).push(a@) + cells(b@, (left - 1) as nat));
                }
                r.push(a);
                rest = b;
                left = left - 1;
            },
        }
    }
    proof {
        lemma_views_push(r@, rest);
    }
    assert(views(r@) + seq![rest@] =~= views(r@).push(rest@));
    r.push(rest);
    r
}

/// A word that is either `true` or `false`.
pub open spec fn bool_token(input: Seq<char>, name: Seq<char>) -> Result<bool, Seq<char>> {
    if input == "true"@ {
        Ok(true)
    } else if input == "false"@ {
        Ok(false)
    } else {
        Err(name + " must be true or false"@)
    }
}

/// Reads a word that is either `true` or `false`.
pub fn parse_bool_token(input: &str, name: &str) -> (r: Result<bool, String>)
    ensures
        match r {
            Ok(b) => bool_token(input@, name@) == Ok::<bool, Seq<char>>(b),
            Err(e) => bool_token(input@, name@) == Err::<bool, Seq<char>>(e@),
        },
{
    if same(input, "true") {
        Ok(true)
    } else if same(input, "false") {
        Ok(false)
    } else {
        Err(cat(name, " must be true or false"))
    }
}

/// The first page of a result that a server sent.
pub struct ResultStart<T> {
    pub cursor_id: u64,
    pub total_rows: Option<usize>,
    pub rows: Vec<T>,
    pub has_more: bool,
}

/// The encoded rows of the first page of a result, if the payload is one.
pub open spec fn start_rows(payload: Seq<char>) -> Option<Seq<char>> {
    let parts = cells(payload, 7);
    if parts.len() != 7 || parts[0] != "OK"@ || parts[1] != "RESULT_START"@ {
        None
    } else {
        Some(parts[6])
    }
}

/// The encoded rows of the first page of a result.
pub fn result_start_rows(payload: &str) -> (r: Option<String>)
    ensures
        match r {
            Some(t) => start_rows(payload@) == Some(t@),
            None => start_rows(payload@) is None,
        },
{
    let parts = cells_of(payload, 7);
    assert(views(parts@).len() == parts@.len());
    if parts.len() != 7 {
        return None;
    }
    assert(views(parts@)[0] == parts@[0]@ && views(parts@)[1] == parts@[1]@ && views(parts@)[6]
        == parts@[6]@);
    if !same(parts[0].as_str(), "OK") || !same(parts[1].as_str(), "RESULT_START") {
        return None;
    }
    Some(parts[6].as_str().to_owned())
}

/// What is wrong with the number of rows that a page announces.
pub open spec fn row_count_problem(
    announced: Seq<char>,
    decoded: Result<nat, Seq<char>>,
    name: Seq<char>,
) -> Option<Seq<char>> {
    match number(announced, usize::MAX as nat) {
        None => Some(name + " row count must be an unsigned integer"@),
        Some(n) => match decoded {
            Err(e) => Some(e),
            Ok(len) => if len != n {
                Some(
                    name + " row count mismatch: header "@ + dec(n) + ", decoded "@ + dec(len),
                )
            } else {
                None
            },
        },
    }
}

/// How many rows were decoded.
pub open spec fn decoded_len<T>(d: Result<Vec<T>, String>) -> Result<nat, Seq<char>> {
    match d {
        Ok(rows) => Ok(rows@.len()),
        Err(e) => Err(e@),
    }
}

fn check_row_count<T>(announced: &str, decoded: &Result<Vec<T>, String>, name: &str) -> (r: Option<
    String,
>)
    ensures
        match r {
            Some(e) => row_count_problem(announced@, decoded_len(*decoded), name@) == Some(e@),
            None => row_count_problem(announced@, decoded_len(*decoded), name@) is None,
        },
{
    match read_usize(announced) {
        None => Some(cat(name, " row count must be an unsigned integer")),
        Some(n) => match decoded {
            Err(e) => Some(e.as_str().to_owned()),
            Ok(rows) => if rows.len() != n {
                let mut e = name.to_owned();
                e.append(" row count mismatch: header ");
                e.append(show(n as u128).as_str());
                e.append(", decoded ");
                e.append(show(rows.len() as u128).as_str());
                Some(e)
            } else {
                None
            },
        },
    }
}

/// The first page of a result, without its rows: the cursor, how many rows there are in all,
/// and whether there are more. The argument tells how many rows were decoded.
pub open spec fn result_started(payload: Seq<char>, decoded: Result<nat, Seq<char>>) -> Result<
    (nat, Option<nat>, bool),
    Seq<char>,
> {
    let parts = cells(payload, 7);
    if start_rows(payload) is None {
        Err("remote query returned non-cursor response: "@ + payload)
    } else {
        match row_count_problem(parts[4], decoded, "RESULT_START"@) {
            Some(e) => Err(e),
            None => match cursor_number(parts[2]) {
                Err(e) => Err(e),
                Ok(cursor_id) => {
                    let total = if parts[3] == "UNKNOWN"@ {
                        Ok(None)
                    } else {
                        match number(parts[3], usize::MAX as nat) {
                            None => Err("RESULT_START total rows must be an unsigned integer"@),
                            Some(n) => Ok(Some(n)),
                        }
                    };
                    match total {
                        Err(e) => Err(e),
                        Ok(total) => match bool_token(parts[5], "RESULT_START has_more"@) {
                            Err(e) => Err(e),
                            Ok(has_more) => Ok((cursor_id, total, has_more)),
                        },
                    }
                },
            },
        }
    }
}

/// Reads the first page of a result, of which the rows are given as they were decoded.
pub fn parse_result_start_response<T>(payload: &str, decoded: Result<Vec<T>, String>) -> (r: Result<
    ResultStart<T>,
    String,
>)
    ensures
        match r {
            Ok(s) => result_started(payload@, decoded_len(decoded)) == Ok::<
                (nat, Option<nat>, bool),
                Seq<char>,
            >((s.cursor_id as nat, known(s.total_rows), s.has_more)) && decoded is Ok && s.rows
                == decoded->Ok_0,
            Err(e) => result_started(payload@, decoded_len(decoded)) == Err::<
                (nat, Option<nat>, bool),
                Seq<char>,
            >(e@),
        },
{
    let parts = cells_of(payload, 7);
    let ghost all = views(parts@);
    assert(all.len() == parts@.len());
    assert(forall|i: int| 0 <= i < all.len() ==> all[i] == (#[trigger] parts@[i])@);
    if parts.len() != 7 || !same(parts[0].as_str(), "OK") || !same(
        parts[1].as_str(),
        "RESULT_START",
    ) {
        return Err(cat("remote query returned non-cursor response: ", payload));
    }
    if let Some(e) = check_row_count(parts[4].as_str(), &decoded, "RESULT_START") {
        return Err(e);
    }
    let cursor_id: u64 = match parse_cursor_id(parts[2].as_str()) {
        Err(e) => return Err(e),
        Ok(n) => n,
    };
    let total_rows: Option<usize> = if same(parts[3].as_str(), "UNKNOWN") {
        None
    } else {
        match read_usize(parts[3].as_str()) {
            None => return Err("RESULT_START total rows must be an unsigned integer".to_owned()),
            Some(n) => Some(n),
        }
    };
    let has_more = match parse_bool_token(parts[5].as_str(), "RESULT_START has_more") {
        Err(e) => return Err(e),
        Ok(b) => b,
    };
    match decoded {
        Err(e) => Err(e),
        Ok(rows) => Ok(ResultStart { cursor_id, total_rows, rows, has_more }),
    }
}

/// The encoded rows of a further page of a result, if the payload is one.
pub open spec fn page_rows(payload: Seq<char>) -> Option<Seq<char>> {
    let parts = cells(payload, 6);
    if parts.len() != 6 || parts[0] != "OK"@ || parts[1] != "RESULT_PAGE"@ {
        None
    } else {
        Some(parts[5])
    }
}

/// The encoded rows of a further page of a result.
pub fn result_page_rows(payload: &str) -> (r: Option<String>)
    ensures
        match r {
            Some(t) => page_rows(payload@) == Some(t@),
            None => page_rows(payload@) is None,
        },
{
    let parts = cells_of(payload, 6);
    assert(views(parts@).len() == parts@.len());
    if parts.len() != 6 {
        return None;
    }
    assert(views(parts@)[0] == parts@[0]@ && views(parts@)[1] == parts@[1]@ && views(parts@)[5]
        == parts@[5]@);
    if !same(parts[0].as_str(), "OK") || !same(parts[1].as_str(), "RESULT_PAGE") {
        return None;
    }
    Some(parts[5].as_str().to_owned())
}

/// Whether there are rows behind a further page of a result.
pub open spec fn result_paged(payload: Seq<char>, decoded: Result<nat, Seq<char>>) -> Result<
    bool,
    Seq<char>,
> {
    let parts = cells(payload, 6);
    if page_rows(payload) is None {
        Err("remote query returned non-page response: "@ + payload)
    } else {
        match row_count_problem(parts[3], decoded, "RESULT_PAGE"@) {
            Some(e) => Err(e),
            None => bool_token(parts[4], "RESULT_PAGE has_more"@),
        }
    }
}

/// Reads a further page of a result, of which the rows are given as they were decoded.
pub fn parse_result_page_response<T>(payload: &str, decoded: Result<Vec<T>, String>) -> (r: Result<
    QueryPage<T>,
    String,
>)
    ensures
        match r {
            Ok(p) => result_paged(payload@, decoded_len(decoded)) == Ok::<bool, Seq<char>>(
                p.has_more,
            ) && decoded is Ok && p.rows == decoded->Ok_0,
            Err(e) => result_paged(payload@, decoded_len(decoded)) == Err::<bool, Seq<char>>(e@),
        },
{
    let parts = cells_of(payload, 6);
    let ghost all = views(parts@);
    assert(all.len() == parts@.len());
    assert(forall|i: int| 0 <= i < all.len() ==> all[i] == (#[trigger] parts@[i])@);
    if parts.len() != 6 || !same(parts[0].as_str(), "OK") || !same(
        parts[1].as_str(),
        "RESULT_PAGE",
    ) {
        return Err(cat("remote query returned non-page response: ", payload));
    }
    if let Some(e) = check_row_count(parts[3].as_str(), &decoded, "RESULT_PAGE") {
        return Err(e);
    }
    let has_more = match parse_bool_token(parts[4].as_str(), "RESULT_PAGE has_more") {
        Err(e) => return Err(e),
        Ok(b) => b,
    };
    match decoded {
        Err(e) => Err(e),
        Ok(rows) => Ok(QueryPage { rows, has_more }),
    }
}

/// The encoded rows that the answer to a write holds: of rows, or of the only page of a
/// result.
pub open spec fn write_rows(payload: Seq<char>) -> Option<Seq<char>> {
    if begins(payload, "OK\tROWS\t"@) {
        let parts = cells(payload, 4);
        if parts.len() != 4 {
            None
        } else {
            Some(parts[3])
        }
    } else {
        start_rows(payload)
    }
}

/// The encoded rows that the answer to a write holds.
pub fn write_response_rows(payload: &str) -> (r: Option<String>)
    ensures
        match r {
            Some(t) => write_rows(payload@) == Some(t@),
            None => write_rows(payload@) is None,
        },
{
    if starts_with(payload, "OK\tROWS\t") {
        let parts = cells_of(payload, 4);
        assert(views(parts@).len() == parts@.len());
        if parts.len() != 4 {
            return None;
        }
        assert(views(parts@)[3] == parts@[3]@);
        return Some(parts[3].as_str().to_owned());
    }
    result_start_rows(payload)
}

/// What is wrong with the answer to a write.
pub open spec fn write_response_problem(payload: Seq<char>, decoded: Result<nat, Seq<char>>) -> Option<
    Seq<char>,
> {
    if begins(payload, "OK\tROWS\t"@) {
        if cells(payload, 4).len() != 4 {
            Some("remote write returned malformed rows response: "@ + payload)
        } else {
            match decoded {
                Err(e) => Some(e),
                Ok(_) => None,
            }
        }
    } else {
        match result_started(payload, decoded) {
            Err(e) => Some(e),
            Ok((_, _, has_more)) => if has_more {
                Some("remote write returned more rows than a single response page"@)
            } else {
                None
            },
        }
    }
}

/// Reads the rows that the answer to a write holds, which are given as they were decoded.
pub fn parse_ok_rows_response<T>(payload: &str, decoded: Result<Vec<T>, String>) -> (r: Result<
    Vec<T>,
    String,
>)
    ensures
        match r {
            Ok(rows) => write_response_problem(payload@, decoded_len(decoded)) is None && decoded
                == Ok::<Vec<T>, String>(rows),
            Err(e) => write_response_problem(payload@, decoded_len(decoded)) == Some(e@),
        },
{
    if starts_with(payload, "OK\tROWS\t") {
        let parts = cells_of(payload, 4);
        assert(views(parts@).len() == parts@.len());
        if parts.len() != 4 {
            return Err(cat("remote write returned malformed rows response: ", payload));
        }
        return decoded;
    }
    match parse_result_start_response(payload, decoded) {
        Err(e) => Err(e),
        Ok(start) => if start.has_more {
            Err("remote write returned more rows than a single response page".to_owned())
        } else {
            Ok(start.rows)
        },
    }
}

/// The number that a server gave to a prepared batch.
pub open spec fn prepared_response(payload: Seq<char>) -> Result<nat, Seq<char>> {
    let parts = split(payload, '\t');
    if parts.len() >= 3 && parts[0] == "OK"@ && parts[1] == "TX_PREPARED"@ {
        cursor_number(parts[2])
    } else {
        Err("remote prepare returned malformed response: "@ + payload)
    }
}

/// Reads the number that a server gave to a prepared batch.
pub fn parse_tx_prepared_response(payload: &str) -> (r: Result<u64, String>)
    ensures
        match r {
            Ok(n) => prepared_response(payload@) == Ok::<nat, Seq<char>>(n as nat),
            Err(e) => prepared_response(payload@) == Err::<nat, Seq<char>>(e@),
        },
{
    let parts = split_on(payload, '\t');
    let ghost all = views(parts@);
    assert(all.len() == parts@.len());
    assert(forall|i: int| 0 <= i < all.len() ==> all[i] == (#[trigger] parts@[i])@);
    if parts.len() >= 3 && same(parts[0].as_str(), "OK") && same(parts[1].as_str(), "TX_PREPARED") {
        parse_cursor_id(parts[2].as_str())
    } else {
        Err(cat("remote prepare returned malformed response: ", payload))
    }
}

/// The encoded index catalog that an answer holds.
pub open spec fn catalog_response(payload: Seq<char>) -> Result<Seq<char>, Seq<char>> {
    let parts = cells(payload, 3);
    if parts.len() != 3 || parts[0] != "OK"@ || parts[1] != "INDEX_CATALOG"@ {
        Err("remote catalog returned malformed response: "@ + payload)
    } else {
        Ok(parts[2])
    }
}

/// Reads the encoded index catalog that an answer holds.
pub fn parse_ok_index_catalog_response(payload: &str) -> (r: Result<String, String>)
    ensures
        match r {
            Ok(t) => catalog_response(payload@) == Ok::<Seq<char>, Seq<char>>(t@),
            Err(e) => catalog_response(payload@) == Err::<Seq<char>, Seq<char>>(e@),
        },
{
    let parts = cells_of(payload, 3);
    let ghost all = views(parts@);
    assert(all.len() == parts@.len());
    assert(forall|i: int| 0 <= i < all.len() ==> all[i] == (#[trigger] parts@[i])@);
    if parts.len() != 3 || !same(parts[0].as_str(), "OK") || !same(
        parts[1].as_str(),
        "INDEX_CATALOG",
    ) {
        return Err(cat("remote catalog returned malformed response: ", payload));
    }
    Ok(parts[2].as_str().to_owned())
}

} // verus!
