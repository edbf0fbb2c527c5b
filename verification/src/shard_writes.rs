//! A write query on every shard that it goes to: where each shard is written, and what comes of
//! the writes.

use vstd::prelude::*;

use crate::cluster::{
    find_write_shards, target_list, target_of, write_shards, write_target, ShardStatus, Target,
    WriteTarget,
};
use crate::peers::QueryPeerStore;
use crate::value::{QueryParams, Val};
use crate::wire::{
    format_query_write_shard_payload, node_hash, query_payload, CreateNodeRoutingKey,
};

verus! {

/// Where a shard is written.
pub enum WriteStep {
    /// By this server.
    Here { shard_id: u64 },
    /// By another server, which is sent the query.
    Away { address: String, payload: String },
}

/// The contents of where a shard is written.
pub enum Written {
    Here { shard_id: u64 },
    Away { address: Seq<char>, payload: Seq<char> },
}

impl WriteStep {
    pub open spec fn view(&self) -> Written {
        match *self {
            WriteStep::Here { shard_id } => Written::Here { shard_id },
            WriteStep::Away { address, payload } => Written::Away {
                address: address@,
                payload: payload@,
            },
        }
    }
}

/// Where a shard is written: by its primary.
pub open spec fn written_by(
    shards: Seq<ShardStatus>,
    peers: Map<u64, Seq<char>>,
    shard_id: u64,
    query: Seq<char>,
    params: Map<Seq<char>, Val>,
) -> Result<Written, Seq<char>> {
    match target_of(shards, peers, shard_id) {
        Err(e) => Err(e),
        Ok(Target::Local) => Ok(Written::Here { shard_id }),
        Ok(Target::Remote(address)) => Ok(
            Written::Away {
                address,
                payload: query_payload("QUERY_WRITE_SHARD"@, shard_id as nat, query, params),
            },
        ),
    }
}

/// A write query that is being carried out: its shards are written in turn, and their rows
/// gathered.
pub struct ShardWriter<T> {
    shards: Vec<ShardStatus>,
    query: String,
    params: QueryParams,
    targets: Vec<u64>,
    written: usize,
    rows: Vec<T>,
}

impl<T> ShardWriter<T> {
    pub closed spec fn shards(&self) -> Seq<ShardStatus> {
        self.shards@
    }

    pub closed spec fn query(&self) -> Seq<char> {
        self.query@
    }

    pub closed spec fn params(&self) -> Map<Seq<char>, Val> {
        self.params@
    }

    /// The shards that the query goes to.
    pub closed spec fn targets(&self) -> Seq<u64> {
        self.targets@
    }

    /// How many of them are written.
    pub closed spec fn written(&self) -> nat {
        self.written as nat
    }

    /// The rows that came of the writes.
    pub closed spec fn rows(&self) -> Seq<T> {
        self.rows@
    }

    pub closed spec fn well_formed(&self) -> bool {
        self.params.well_formed() && self.written <= self.targets@.len()
    }

    /// A write that has yet to be carried out. The key is that of the node that the query creates
    /// or merges, if it does and has one; the targets are the shards that the storage names.
    pub fn new(
        shards: Vec<ShardStatus>,
        key: &Option<CreateNodeRoutingKey>,
        query: String,
        params: QueryParams,
        targets: &Result<Vec<u64>, String>,
    ) -> (r: Result<Self, String>)
        requires
            params.well_formed(),
        ensures
            match write_shards(
                shards@,
                query@,
                node_hash(*key, query@, params@),
                target_list(*targets),
            ) {
                Err(e) => r is Err && r->Err_0@ == e,
                Ok(list) => r is Ok && r->Ok_0.well_formed() && r->Ok_0.targets() == list
                    && r->Ok_0.written() == 0 && r->Ok_0.rows() == Seq::<T>::empty()
                    && r->Ok_0.shards() == shards@ && r->Ok_0.query() == query@
                    && r->Ok_0.params() == params@,
            },
    {
        match find_write_shards(shards.as_slice(), key, query.as_str(), &params, targets) {
            Err(e) => Err(e),
            Ok(list) => Ok(
                ShardWriter { shards, query, params, targets: list, written: 0, rows: Vec::new() },
            ),
        }
    }

    /// Tells where the next shard is written; nothing, if every shard is.
    pub fn next(&self, peers: &QueryPeerStore) -> (r: Result<Option<WriteStep>, String>)
        requires
            self.well_formed(),
            peers.well_formed(),
        ensures
            if self.written() == self.targets().len() {
                r == Ok::<Option<WriteStep>, String>(None)
            } else {
                match written_by(
                    self.shards(),
                    peers@,
                    self.targets()[self.written() as int],
                    self.query(),
                    self.params(),
                ) {
                    Err(e) => r is Err && r->Err_0@ == e,
                    Ok(step) => r is Ok && r->Ok_0 is Some && r->Ok_0->Some_0@ == step,
                }
            },
    {
        if self.written >= self.targets.len() {
            return Ok(None);
        }
        let shard_id: u64 = self.targets[self.written];
        match write_target(self.shards.as_slice(), peers, shard_id) {
            Err(e) => Err(e),
            Ok(WriteTarget::Local) => Ok(Some(WriteStep::Here { shard_id })),
            Ok(WriteTarget::Remote(address)) => {
                let payload = format_query_write_shard_payload(
                    shard_id,
                    self.query.as_str(),
                    &self.params,
                );
                Ok(Some(WriteStep::Away { address, payload }))
            },
        }
    }

    /// Takes the rows that came of writing the next shard.
    pub fn wrote(&mut self, rows: Vec<T>)
        requires
            old(self).well_formed(),
            old(self).written() < old(self).targets().len(),
        ensures
            final(self).well_formed(),
            final(self).written() == old(self).written() + 1,
            final(self).rows() == old(self).rows() + rows@,
            final(self).targets() == old(self).targets(),
            final(self).shards() == old(self).shards(),
            final(self).query() == old(self).query(),
            final(self).params() == old(self).params(),
    {
        let mut more = rows;
        assert(self.written < self.targets.len());
        self.rows.append(&mut more);
        self.written = self.written + 1;
    }

    /// The rows of a write that was carried out.
    pub fn finish(self) -> (r: Vec<T>)
        requires
            self.written() == self.targets().len(),
        ensures
            r@ == self.rows(),
    {
        self.rows
    }
}

} // verus!
