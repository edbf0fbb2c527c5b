//! Queries on every shard: where the rows of each shard come from, and how the answers of other
//! servers are taken.

use vstd::prelude::*;

use crate::cluster::{query_target, select_remote_query_target, ShardStatus};
use crate::cursors::{DistributedQueryCursor, ShardQueryCursor};
use crate::model::QueryReadPreference;
use crate::native::{NativeReply, ReplyKind};
use crate::peers::QueryPeerStore;
use crate::queries::FrameKind;
use crate::text::{begins, cat, same, strip_prefix};

verus! {

/// Where the rows of a shard come from.
pub enum ShardRead {
    /// From this server.
    Here { shard_id: u64 },
    /// From another server.
    Away { shard_id: u64, server_id: u64, address: String },
}

/// The contents of where the rows of a shard come from.
pub enum Read {
    Here { shard_id: u64 },
    Away { shard_id: u64, server_id: u64, address: Seq<char> },
}

impl ShardRead {
    pub open spec fn view(&self) -> Read {
        match *self {
            ShardRead::Here { shard_id } => Read::Here { shard_id },
            ShardRead::Away { shard_id, server_id, address } => Read::Away {
                shard_id,
                server_id,
                address: address@,
            },
        }
    }
}

/// Where the rows of a shard come from: this server, if it has a copy, and otherwise the server
/// that is asked for them.
pub open spec fn read_of(
    peers: Map<u64, Seq<char>>,
    shard: ShardStatus,
    preference: QueryReadPreference,
) -> Result<Read, Seq<char>> {
    if shard.has_local_copy {
        Ok(Read::Here { shard_id: shard.shard_id })
    } else {
        match query_target(peers, shard, preference) {
            Err(e) => Err(e),
            Ok((server_id, address)) => Ok(
                Read::Away { shard_id: shard.shard_id, server_id, address },
            ),
        }
    }
}

/// The contents of where the rows of a shard come from, or of why that is not known.
pub open spec fn read_outcome(r: Result<ShardRead, String>) -> Result<Read, Seq<char>> {
    match r {
        Ok(s) => Ok(s@),
        Err(e) => Err(e@),
    }
}

/// Finds where the rows of a shard come from.
pub fn shard_read(peers: &QueryPeerStore, shard: &ShardStatus, preference: QueryReadPreference) -> (r:
    Result<ShardRead, String>)
    requires
        peers.well_formed(),
    ensures
        read_outcome(r) == read_of(peers@, *shard, preference),
{
    if shard.has_local_copy {
        Ok(ShardRead::Here { shard_id: shard.shard_id })
    } else {
        match select_remote_query_target(peers, shard, preference) {
            Err(e) => Err(e),
            Ok((server_id, address)) => Ok(
                ShardRead::Away { shard_id: shard.shard_id, server_id, address },
            ),
        }
    }
}

/// A query on every shard that is being opened: each shard gets its cursor, in turn.
pub struct ShardOpener<T> {
    shards: Vec<ShardStatus>,
    preference: QueryReadPreference,
    cursors: Vec<ShardQueryCursor<T>>,
}

impl<T> ShardOpener<T> {
    pub closed spec fn shards(&self) -> Seq<ShardStatus> {
        self.shards@
    }

    pub closed spec fn preference(&self) -> QueryReadPreference {
        self.preference
    }

    /// The cursors of the first shards.
    pub closed spec fn cursors(&self) -> Seq<ShardQueryCursor<T>> {
        self.cursors@
    }

    /// No shard has a cursor too many.
    pub open spec fn well_formed(&self) -> bool {
        self.cursors().len() <= self.shards().len()
    }

    pub fn new(shards: Vec<ShardStatus>, preference: QueryReadPreference) -> (r: Self)
        ensures
            r.well_formed(),
            r.shards() == shards@,
            r.preference() == preference,
            r.cursors() == Seq::<ShardQueryCursor<T>>::empty(),
    {
        ShardOpener { shards, preference, cursors: Vec::new() }
    }

    /// Tells where the rows of the next shard come from; nothing, if every shard has its cursor.
    pub fn next(&self, peers: &QueryPeerStore) -> (r: Result<Option<ShardRead>, String>)
        requires
            self.well_formed(),
            peers.well_formed(),
        ensures
            if self.cursors().len() == self.shards().len() {
                r == Ok::<Option<ShardRead>, String>(None)
            } else {
                match read_of(
                    peers@,
                    self.shards()[self.cursors().len() as int],
                    self.preference(),
                ) {
                    Ok(read) => r is Ok && r->Ok_0 is Some && r->Ok_0->Some_0@ == read,
                    Err(e) => r is Err && r->Err_0@ == e,
                }
            },
    {
        let i: usize = self.cursors.len();
        if i < self.shards.len() {
            match shard_read(peers, &self.shards[i], self.preference) {
                Err(e) => Err(e),
                Ok(read) => Ok(Some(read)),
            }
        } else {
            Ok(None)
        }
    }

    /// Takes the cursor of the next shard.
    pub fn opened(&mut self, cursor: ShardQueryCursor<T>)
        requires
            old(self).cursors().len() < old(self).shards().len(),
        ensures
            final(self).well_formed(),
            final(self).shards() == old(self).shards(),
            final(self).preference() == old(self).preference(),
            final(self).cursors() == old(self).cursors().push(cursor),
    {
        self.cursors.push(cursor);
    }

    /// The cursor on every shard.
    pub fn finish(self) -> (r: DistributedQueryCursor<T>)
        requires
            self.cursors().len() == self.shards().len(),
        ensures
            r.well_formed(),
            r.cursors@ == self.cursors(),
            r.current == 0,
            r.gathered@ == Seq::<T>::empty(),
    {
        DistributedQueryCursor::new(self.cursors)
    }
}

/// A kind of frame as it is shown.
pub open spec fn kind_text(kind: FrameKind) -> Seq<char> {
    match kind {
        FrameKind::Ping => "Ping"@,
        FrameKind::Quit => "Quit"@,
        FrameKind::Query => "Query"@,
        FrameKind::Command => "Command"@,
        FrameKind::Fetch => "Fetch"@,
        FrameKind::CloseCursor => "CloseCursor"@,
        FrameKind::Cancel => "Cancel"@,
        FrameKind::Response => "Response"@,
        FrameKind::Error => "Error"@,
    }
}

fn show_kind(kind: FrameKind) -> (r: &'static str)
    ensures
        r@ == kind_text(kind),
{
    match kind {
        FrameKind::Ping => "Ping",
        FrameKind::Quit => "Quit",
        FrameKind::Query => "Query",
        FrameKind::Command => "Command",
        FrameKind::Fetch => "Fetch",
        FrameKind::CloseCursor => "CloseCursor",
        FrameKind::Cancel => "Cancel",
        FrameKind::Response => "Response",
        FrameKind::Error => "Error",
    }
}

/// Takes the answer of another server to a command.
pub fn remote_command_outcome(kind: FrameKind, text: &str) -> (r: Result<String, String>)
    ensures
        match kind {
            FrameKind::Response => r is Ok && r->Ok_0@ == text@,
            FrameKind::Error => r is Err && r->Err_0@ == (if begins(text@, "ERR\t"@) {
                text@.skip("ERR\t"@.len() as int)
            } else {
                text@
            }),
            _ => r is Err && r->Err_0@ == "remote command returned unexpected frame "@ + kind_text(
                kind,
            ),
        },
{
    match kind {
        FrameKind::Response => Ok(text.to_owned()),
        FrameKind::Error => match strip_prefix(text, "ERR\t") {
            Some(t) => Err(t),
            None => Err(text.to_owned()),
        },
        other => Err(cat("remote command returned unexpected frame ", show_kind(other))),
    }
}

/// Takes the answer of another server that a cursor was opened on, or says why there is none.
/// The operation is what the cursor is for.
pub fn remote_cursor_outcome(kind: FrameKind, text: &str, operation: &str) -> (r: Result<
    String,
    String,
>)
    ensures
        if kind is Response {
            r is Ok && r->Ok_0@ == text@
        } else {
            r is Err && r->Err_0@ == "remote "@ + operation@ + " cursor failed: "@ + text@
        },
{
    match kind {
        FrameKind::Response => Ok(text.to_owned()),
        _ => {
            let mut e = "remote ".to_owned();
            e.append(operation);
            e.append(" cursor failed: ");
            e.append(text);
            Err(e)
        },
    }
}

/// Takes the answer of another server that rows were fetched from, or says why there is none.
pub fn remote_fetch_outcome(kind: FrameKind, text: &str) -> (r: Result<String, String>)
    ensures
        if kind is Response {
            r is Ok && r->Ok_0@ == text@
        } else {
            r is Err && r->Err_0@ == "remote fetch failed: "@ + text@
        },
{
    match kind {
        FrameKind::Response => Ok(text.to_owned()),
        _ => Err(cat("remote fetch failed: ", text)),
    }
}

/// What is done with a frame when it comes in.
#[derive(Clone, Copy, PartialEq, Eq, Structural, Debug)]
pub enum StreamAction {
    /// The client is told goodbye.
    SayGoodbye,
    /// A request is cancelled, at once.
    Cancel,
    /// The frame is handed to the workers.
    Submit,
}

/// Tells what is done with a frame when it comes in: a cancellation does not wait for the
/// workers, and nor does the end.
pub fn stream_action(kind: FrameKind) -> (r: StreamAction)
    ensures
        r == (match kind {
            FrameKind::Quit => StreamAction::SayGoodbye,
            FrameKind::Cancel => StreamAction::Cancel,
            _ => StreamAction::Submit,
        }),
{
    match kind {
        FrameKind::Quit => StreamAction::SayGoodbye,
        FrameKind::Cancel => StreamAction::Cancel,
        _ => StreamAction::Submit,
    }
}

/// Tells whether a reply ends the connection.
pub fn ends_connection(reply: &NativeReply) -> (r: bool)
    ensures
        r == (reply@.kind is Response && reply@.text == "OK\tBYE"@),
{
    match reply.kind {
        ReplyKind::Response => same(reply.text.as_str(), "OK\tBYE"),
        ReplyKind::Error => false,
    }
}

/// A line without the line ends behind it.
pub open spec fn line_content(line: Seq<char>) -> Seq<char>
    decreases line.len(),
{
    if line.len() > 0 && (line.last() == '\r' || line.last() == '\n') {
        line_content(line.drop_last())
    } else {
        line
    }
}

/// Takes the line ends off a line.
pub fn trim_line(line: &str) -> (r: String)
    ensures
        r@ == line_content(line@),
{
    let mut n: usize = line.unicode_len();
    assert(line@.take(line@.len() as int) =~= line@);
    while n > 0
        invariant_except_break
            n <= line@.len(),
            line_content(line@) == line_content(line@.take(n as int)),
        ensures
            n <= line@.len(),
            line_content(line@) == line@.take(n as int),
        decreases n,
    {
        let c = line.get_char(n - 1);
        if c != '\r' && c != '\n' {
            break;
        }
        assert(line@.take(n as int).drop_last() =~= line@.take(n - 1));
        n = n - 1;
    }
    let r = line.substring_char(0, n);
    assert(r@ =~= line@.take(n as int));
    r.to_owned()
}

} // verus!
