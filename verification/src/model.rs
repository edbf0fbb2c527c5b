//! The values that the server shares with the storage engine: replicas, routing
//! tables, transports.

use vstd::prelude::*;

verus! {

/// Where reads of a distributed query go.
#[derive(Clone, Copy, Debug, PartialEq, Eq, Structural)]
pub enum QueryReadPreference {
    Primary,
    PreferReplica,
}

/// When a replicated write counts as acknowledged.
#[derive(Clone, Copy, Debug, PartialEq, Eq, Structural)]
pub enum ReplicationAckPolicy {
    All,
    Quorum,
    Async,
}

/// The transport of a replication channel.
#[derive(Clone, Copy, Debug, PartialEq, Eq, Structural)]
pub enum ReplicationChannelKind {
    Tcp,
    Rdma,
    Udp,
    Custom,
}

/// What a server does for a shard.
#[derive(Clone, Copy, Debug, PartialEq, Eq, Structural)]
pub enum ShardRole {
    Primary,
    Replica,
}

/// A server that holds a shard.
#[derive(Clone, Copy, Debug, PartialEq, Eq, Structural)]
pub struct ShardReplica {
    pub server_id: u64,
    pub role: ShardRole,
}

impl ShardReplica {
    pub fn primary(server_id: u64) -> (r: Self)
        ensures
            r == (ShardReplica { server_id, role: ShardRole::Primary }),
    {
        ShardReplica { server_id, role: ShardRole::Primary }
    }

    pub fn replica(server_id: u64) -> (r: Self)
        ensures
            r == (ShardReplica { server_id, role: ShardRole::Replica }),
    {
        ShardReplica { server_id, role: ShardRole::Replica }
    }
}

/// The servers that hold a shard.
#[derive(Clone, Debug, PartialEq, Eq)]
pub struct ShardPlacement {
    pub shard_id: u64,
    pub replicas: Vec<ShardReplica>,
}

/// The contents of a placement.
pub struct Placement {
    pub shard_id: u64,
    pub replicas: Seq<ShardReplica>,
}

/// The primary of a placement: the first of its replicas that has that role.
pub open spec fn primary_of(replicas: Seq<ShardReplica>) -> Option<u64>
    decreases replicas.len(),
{
    if replicas.len() == 0 {
        None
    } else if replicas[0].role is Primary {
        Some(replicas[0].server_id)
    } else {
        primary_of(replicas.skip(1))
    }
}

impl ShardPlacement {
    pub open spec fn view(&self) -> Placement {
        Placement { shard_id: self.shard_id, replicas: self.replicas@ }
    }

    pub fn new(shard_id: u64, replicas: Vec<ShardReplica>) -> (r: Self)
        ensures
            r@ == (Placement { shard_id, replicas: replicas@ }),
    {
        ShardPlacement { shard_id, replicas }
    }

    /// The server that is the primary of the shard.
    pub fn primary_server_id(&self) -> (r: Option<u64>)
        ensures
            r == primary_of(self.replicas@),
    {
        let mut i: usize = 0;
        assert(self.replicas@.skip(0) =~= self.replicas@);
        while i < self.replicas.len()
            invariant
                0 <= i <= self.replicas@.len(),
                primary_of(self.replicas@) == primary_of(self.replicas@.skip(i as int)),
            decreases self.replicas@.len() - i,
        {
            assert(self.replicas@.skip(i as int)[0] == self.replicas@[i as int]);
            assert(self.replicas@.skip(i as int).skip(1) =~= self.replicas@.skip(i + 1));
            if self.replicas[i].role == ShardRole::Primary {
                return Some(self.replicas[i].server_id);
            }
            i = i + 1;
        }
        None
    }
}

/// The contents of a list of placements.
pub open spec fn placement_views(placements: Seq<ShardPlacement>) -> Seq<Placement> {
    placements.map_values(|p: ShardPlacement| p@)
}

/// Which servers hold which shard.
#[derive(Clone, Debug, PartialEq, Eq)]
pub struct ShardRoutingTable {
    pub version: u64,
    pub placements: Vec<ShardPlacement>,
}

/// The contents of a routing table.
pub struct Routing {
    pub version: u64,
    pub placements: Seq<Placement>,
}

impl ShardRoutingTable {
    pub open spec fn view(&self) -> Routing {
        Routing { version: self.version, placements: placement_views(self.placements@) }
    }
}

} // verus!
