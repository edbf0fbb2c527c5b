//! The pages of a query over several shards, taken together.

use vstd::prelude::*;

use crate::cursors::{
    drained, left_behind, page_len, received, rows_before, rows_from, stepped,
    DistributedQueryCursor, DistributedStep, QueryPage, ShardQueryCursor,
};

verus! {

/// What is done with a query over several shards.
pub enum Turn<T> {
    /// The cursor is asked for its next page, of that size, and takes a step.
    Stepped { page_size: usize, step: DistributedStep<T> },
    /// The request to the server of a shard is numbered.
    Numbered { shard: usize },
    /// The server of the current shard has sent a page, or has not.
    Received { page: Option<QueryPage<T>> },
}

/// Whether a turn leads from one state of a cursor to another.
pub open spec fn turned<T>(
    before: DistributedQueryCursor<T>,
    turn: Turn<T>,
    after: DistributedQueryCursor<T>,
) -> bool {
    match turn {
        Turn::Stepped { page_size, step } => stepped(before, page_size, step, after),
        Turn::Numbered { shard } => {
            &&& after.current == before.current
            &&& after.gathered@ == before.gathered@
            &&& shard < before.cursors@.len()
            &&& after.cursors@ == before.cursors@.update(
                shard as int,
                ShardQueryCursor {
                    next_request_id: (before.cursors@[shard as int].next_request_id + 1) as u64,
                    ..before.cursors@[shard as int]
                },
            )
        },
        Turn::Received { page } => before.current < before.cursors@.len() && received(
            before,
            page,
            after,
        ),
    }
}

/// Whether the states of a cursor follow from one another, from its beginning on.
pub open spec fn history<T>(states: Seq<DistributedQueryCursor<T>>, turns: Seq<Turn<T>>) -> bool {
    &&& states.len() == turns.len() + 1
    &&& states[0].current == 0
    &&& states[0].gathered@.len() == 0
    &&& forall|i: int|
        0 <= i < turns.len() ==> turned(states[i], #[trigger] turns[i], states[i + 1])
    &&& forall|i: int| 0 <= i < states.len() ==> (#[trigger] states[i]).well_formed()
}

/// The rows that each shard has had: those at hand at the beginning, and those that its server
/// has sent in the first `n` turns.
pub open spec fn shard_rows<T>(
    states: Seq<DistributedQueryCursor<T>>,
    turns: Seq<Turn<T>>,
    n: int,
) -> Seq<Seq<T>>
    decreases n,
{
    if n <= 0 {
        Seq::new(states[0].cursors@.len(), |j: int| states[0].cursors@[j].buffered_rows@)
    } else {
        let rows = shard_rows(states, turns, n - 1);
        let shard = states[n - 1].current as int;
        match turns[n - 1] {
            Turn::Received { page: Some(p) } => rows.update(shard, rows[shard] + p.rows@),
            _ => rows,
        }
    }
}

/// The rows of the shards from the `i`-th on, one shard after the other.
pub open spec fn joined<T>(rows: Seq<Seq<T>>, i: int) -> Seq<T>
    decreases rows.len() - i,
{
    if i < 0 || i >= rows.len() {
        Seq::empty()
    } else {
        rows[i] + joined(rows, i + 1)
    }
}

/// The rows of the first `n` shards, one shard after the other.
pub open spec fn joined_first<T>(rows: Seq<Seq<T>>, n: int) -> Seq<T>
    decreases n,
{
    if n <= 0 {
        Seq::empty()
    } else {
        joined_first(rows, n - 1) + rows[n - 1]
    }
}

/// The rows of the pages that were given in the first `n` turns, one page after the other.
pub open spec fn given<T>(turns: Seq<Turn<T>>, n: int) -> Seq<T>
    decreases n,
{
    if n <= 0 {
        Seq::empty()
    } else {
        match turns[n - 1] {
            Turn::Stepped { step: DistributedStep::Page(p), .. } => given(turns, n - 1) + p.rows@,
            _ => given(turns, n - 1),
        }
    }
}

proof fn lemma_joined_splits<T>(rows: Seq<Seq<T>>, n: int)
    requires
        0 <= n <= rows.len(),
    ensures
        joined(rows, 0) == joined_first(rows, n) + joined(rows, n),
    decreases n,
{
    if n == 0 {
        assert(joined_first(rows, 0) + joined(rows, 0) =~= joined(rows, 0));
    } else {
        lemma_joined_splits(rows, n - 1);
        assert(joined_first(rows, n - 1) + (rows[n - 1] + joined(rows, n)) =~= (joined_first(
            rows,
            n - 1,
        ) + rows[n - 1]) + joined(rows, n));
    }
}

proof fn lemma_joined_same<T>(a: Seq<Seq<T>>, b: Seq<Seq<T>>, i: int)
    requires
        a.len() == b.len(),
        0 <= i,
        forall|j: int| i <= j < a.len() ==> a[j] == b[j],
    ensures
        joined(a, i) == joined(b, i),
    decreases a.len() - i,
{
    if i < a.len() {
        lemma_joined_same(a, b, i + 1);
    }
}

proof fn lemma_joined_first_same<T>(a: Seq<Seq<T>>, b: Seq<Seq<T>>, n: int)
    requires
        forall|j: int| 0 <= j < n ==> a[j] == b[j],
    ensures
        joined_first(a, n) == joined_first(b, n),
    decreases n,
{
    if n > 0 {
        lemma_joined_first_same(a, b, n - 1);
    }
}

proof fn lemma_joined_at_hand<T>(c: DistributedQueryCursor<T>, rows: Seq<Seq<T>>, i: int)
    requires
        0 <= i,
        rows.len() == c.cursors@.len(),
        forall|j: int| i <= j < rows.len() ==> #[trigger] c.cursors@[j].buffered_rows@ == rows[j],
    ensures
        rows_from(c.cursors@, i) == joined(rows, i),
    decreases rows.len() - i,
{
    if i < rows.len() {
        lemma_joined_at_hand(c, rows, i + 1);
        assert(c.cursors@[i].buffered_rows@ == rows[i]);
    }
}

proof fn lemma_same_front<T>(a: Seq<T>, b: Seq<T>, tail: Seq<T>)
    requires
        a + tail == b + tail,
    ensures
        a == b,
{
    assert((a + tail).len() == a.len() + tail.len());
    assert((b + tail).len() == b.len() + tail.len());
    assert forall|i: int| 0 <= i < a.len() implies a[i] == b[i] by {
        assert((a + tail)[i] == a[i]);
        assert((b + tail)[i] == b[i]);
    }
    assert(a =~= b);
}

/// What holds of a cursor after some turns: what was given and what is at hand are the rows of
/// the shards in order, the shards behind the current one are untouched, and those before it
/// are at their end.
spec fn kept<T>(c: DistributedQueryCursor<T>, rows: Seq<Seq<T>>, out: Seq<T>) -> bool {
    &&& rows.len() == c.cursors@.len()
    &&& out + c.at_hand() == joined(rows, 0)
    &&& forall|j: int|
        c.current < j < rows.len() ==> #[trigger] c.cursors@[j].buffered_rows@ == rows[j]
    &&& forall|j: int| 0 <= j < c.current ==> !(#[trigger] c.cursors@[j]).remote_has_more
}

proof fn lemma_received_keeps<T>(
    before: DistributedQueryCursor<T>,
    page: QueryPage<T>,
    after: DistributedQueryCursor<T>,
    rows: Seq<Seq<T>>,
    out: Seq<T>,
)
    requires
        kept(before, rows, out),
        before.current < before.cursors@.len(),
        received(before, Some(page), after),
    ensures
        kept(
            after,
            rows.update(before.current as int, rows[before.current as int] + page.rows@),
            out,
        ),
{
    let c = before.current as int;
    let next = rows.update(c, rows[c] + page.rows@);
    let tail = joined(rows, c + 1);
    let was = before.cursors@[c].buffered_rows@;
    assert forall|j: int| c + 1 <= j < rows.len() implies #[trigger] after.cursors@[j].buffered_rows@
        == next[j] by {
        assert(after.cursors@[j] == before.cursors@[j]);
        assert(before.cursors@[j].buffered_rows@ == rows[j]);
    }
    lemma_joined_at_hand(before, rows, c + 1);
    lemma_joined_at_hand(after, next, c + 1);
    lemma_joined_same(rows, next, c + 1);
    lemma_joined_first_same(rows, next, c);
    lemma_joined_splits(rows, c);
    lemma_joined_splits(next, c);
    let first = joined_first(rows, c);
    assert(out + before.at_hand() =~= (out + before.gathered@ + was) + tail);
    assert(joined(rows, 0) =~= (first + rows[c]) + tail);
    lemma_same_front(out + before.gathered@ + was, first + rows[c], tail);
    assert(out + after.at_hand() =~= ((out + before.gathered@ + was) + page.rows@) + tail);
    assert(joined(next, 0) =~= ((first + rows[c]) + page.rows@) + tail);
    assert forall|j: int| 0 <= j < after.current implies !(
    #[trigger] after.cursors@[j]).remote_has_more by {
        assert(after.cursors@[j] == before.cursors@[j]);
    }
}

proof fn lemma_drained_keeps<T>(
    before: DistributedQueryCursor<T>,
    after: DistributedQueryCursor<T>,
    rows: Seq<Seq<T>>,
    out: Seq<T>,
)
    requires
        kept(before, rows, out),
        drained(before, after),
    ensures
        forall|j: int|
            after.current < j < rows.len() ==> #[trigger] after.cursors@[j].buffered_rows@
                == rows[j],
        forall|j: int| 0 <= j < after.current ==> !(#[trigger] after.cursors@[j]).remote_has_more,
{
    assert forall|j: int| after.current < j < rows.len() implies #[trigger] after.cursors@[j].buffered_rows@
        == rows[j] by {
        assert(after.cursors@[j] == before.cursors@[j]);
        assert(before.cursors@[j].buffered_rows@ == rows[j]);
    }
    assert forall|j: int| 0 <= j < after.current implies !(
    #[trigger] after.cursors@[j]).remote_has_more by {
        if j < before.current {
            assert(after.cursors@[j] == before.cursors@[j]);
        }
    }
}

proof fn lemma_numbered_keeps<T>(
    before: DistributedQueryCursor<T>,
    after: DistributedQueryCursor<T>,
    i: int,
)
    requires
        0 <= i,
        after.cursors@.len() == before.cursors@.len(),
        forall|j: int|
            0 <= j < before.cursors@.len() ==> (#[trigger] after.cursors@[j]).buffered_rows@
                == before.cursors@[j].buffered_rows@,
    ensures
        rows_from(after.cursors@, i) == rows_from(before.cursors@, i),
    decreases before.cursors@.len() - i,
{
    if i < before.cursors@.len() {
        lemma_numbered_keeps(before, after, i + 1);
        assert(after.cursors@[i].buffered_rows@ == before.cursors@[i].buffered_rows@);
    }
}

proof fn lemma_history_is_kept<T>(
    states: Seq<DistributedQueryCursor<T>>,
    turns: Seq<Turn<T>>,
    n: int,
)
    requires
        history(states, turns),
        0 <= n <= turns.len(),
    ensures
        kept(states[n], shard_rows(states, turns, n), given(turns, n)),
    decreases n,
{
    let rows = shard_rows(states, turns, n);
    if n == 0 {
        lemma_joined_at_hand(states[0], rows, 0);
        assert(given(turns, 0) + states[0].at_hand() =~= joined(rows, 0));
    } else {
        lemma_history_is_kept(states, turns, n - 1);
        let before = states[n - 1];
        let after = states[n];
        let had = shard_rows(states, turns, n - 1);
        let out = given(turns, n - 1);
        assert(turned(states[n - 1], turns[n - 1], states[n - 1 + 1]));
        assert(after.well_formed());
        match turns[n - 1] {
            Turn::Stepped { page_size, step } => {
                lemma_drained_keeps(before, after, had, out);
                match step {
                    DistributedStep::Ask { .. } => {},
                    DistributedStep::Page(p) => {
                        assert((out + p.rows@) + after.at_hand() =~= out + before.at_hand());
                    },
                }
            },
            Turn::Numbered { shard } => {
                lemma_numbered_keeps(before, after, before.current as int);
                assert forall|j: int| after.current < j < had.len() implies
                    #[trigger] after.cursors@[j].buffered_rows@ == had[j] by {
                    assert(before.cursors@[j].buffered_rows@ == had[j]);
                }
                assert forall|j: int| 0 <= j < after.current implies !(
                #[trigger] after.cursors@[j]).remote_has_more by {
                    assert(!before.cursors@[j].remote_has_more);
                }
            },
            Turn::Received { page } => match page {
                Some(p) => {
                    lemma_received_keeps(before, p, after, had, out);
                },
                None => {
                    lemma_numbered_keeps(before, after, before.current as int);
                    assert forall|j: int| after.current < j < had.len() implies
                        #[trigger] after.cursors@[j].buffered_rows@ == had[j] by {
                        assert(before.cursors@[j].buffered_rows@ == had[j]);
                    }
                },
            },
        }
    }
}

/// The pages of a query over several shards, joined, are the rows of all shards, one shard after
/// the other, each row once and in its shard's order, whatever the sizes of the pages: at every
/// moment what was given and what is at hand are the rows that the shards have had, and once a
/// page says that there are no more, everything has been given and no server holds more. No page
/// is larger than it was asked to be, and one behind which there are more is full.
pub proof fn pages_are_the_rows_of_all_shards<T>(
    states: Seq<DistributedQueryCursor<T>>,
    turns: Seq<Turn<T>>,
)
    requires
        history(states, turns),
    ensures
        given(turns, turns.len() as int) + states.last().at_hand() == joined(
            shard_rows(states, turns, turns.len() as int),
            0,
        ),
        forall|i: int|
            0 <= i < turns.len() ==> (#[trigger] turns[i] matches Turn::Stepped {
                page_size,
                step: DistributedStep::Page(p),
            } ==> p.rows@.len() <= page_len(page_size) && (p.has_more ==> p.rows@.len()
                == page_len(page_size))),
        turns.len() > 0 ==> (turns.last() matches Turn::Stepped {
            page_size,
            step: DistributedStep::Page(p),
        } ==> (!p.has_more ==> given(turns, turns.len() as int) == joined(
            shard_rows(states, turns, turns.len() as int),
            0,
        ) && forall|j: int|
            0 <= j < states.last().cursors@.len() ==> !(
            #[trigger] states.last().cursors@[j]).remote_has_more)),
{
    let n = turns.len() as int;
    lemma_history_is_kept(states, turns, n);
    assert forall|i: int| 0 <= i < turns.len() implies (#[trigger] turns[i] matches Turn::Stepped {
        page_size,
        step: DistributedStep::Page(p),
    } ==> p.rows@.len() <= page_len(page_size) && (p.has_more ==> p.rows@.len() == page_len(
        page_size,
    ))) by {
        assert(turned(states[i], turns[i], states[i + 1]));
    }
    if n > 0 {
        assert(turned(states[n - 1], turns[n - 1], states[n - 1 + 1]));
        assert(states.last().well_formed());
        if let Turn::Stepped { page_size, step: DistributedStep::Page(p) } = turns.last() {
            if !p.has_more {
                assert(states.last().at_hand() =~= Seq::<T>::empty());
                assert(given(turns, n) + Seq::<T>::empty() =~= given(turns, n));
            }
        }
    }
}

proof fn lemma_rows_before<T>(c: DistributedQueryCursor<T>, i: int, j: int)
    requires
        c.current <= i <= j,
    ensures
        rows_before(c, i) <= rows_before(c, j),
    decreases j - i,
{
    if i < j {
        lemma_rows_before(c, i, j - 1);
    }
}

/// Where all rows are at hand, no shard is empty and all rows fit the page, the page gives
/// them and says that there are no more, a full page too.
pub proof fn last_pages_say_so<T>(
    before: DistributedQueryCursor<T>,
    page_size: usize,
    step: DistributedStep<T>,
    after: DistributedQueryCursor<T>,
)
    requires
        before.well_formed(),
        after.well_formed(),
        stepped(before, page_size, step, after),
        forall|j: int|
            before.current <= j < before.cursors@.len() ==> (#[trigger] before.cursors@[j]).buffered_rows@.len()
                > 0 && !before.cursors@[j].remote_has_more,
        rows_before(before, before.cursors@.len() as int) <= page_len(page_size),
    ensures
        step matches DistributedStep::Page(p) && p.rows@ == before.at_hand() && !p.has_more,
{
    let len = before.cursors@.len() as int;
    assert forall|j: int| before.current <= j < len implies #[trigger] left_behind(
        before,
        page_len(page_size),
        j,
    ) by {
        assert(before.cursors@[j].buffered_rows@.len() > 0);
        lemma_rows_before(before, j + 1, len);
    }
    assert(after.current == len);
    if let DistributedStep::Page(p) = step {
        assert(p.rows@ + after.at_hand() =~= p.rows@);
    }
}

} // verus!
