//! The decision logic of a graph database server, verified.

use vstd::prelude::*;

pub mod args;
pub mod backend;
pub mod cluster;
pub mod commands;
pub mod commit;
pub mod config;
pub mod conversation;
pub mod cursors;
pub mod cypher;
pub mod daemon;
pub mod distributed;
pub mod execution;
pub mod gossip;
pub mod http;
pub mod identities;
pub mod json;
pub mod laws;
pub mod limits;
pub mod literal;
pub mod maintenance;
pub mod metrics;
pub mod migration;
pub mod model;
pub mod native;
pub mod options;
pub mod paging;
pub mod peers;
pub mod pem;
pub mod prepared;
pub mod production;
pub mod queries;
pub mod ranking;
pub mod rbac;
pub mod readiness;
pub mod replication;
pub mod requests;
pub mod routing;
pub mod routing_lines;
pub mod rows;
pub mod settings;
pub mod shard_writes;
pub mod sorting;
pub mod startup;
pub mod summary;
pub mod table;
pub mod text;
pub mod text_table;
pub mod tls;
pub mod transactions;
pub mod two_phase;
pub mod value;
pub mod web;
pub mod web_admin;
pub mod web_auth;
pub mod web_json;
pub mod web_query;
pub mod wire;

verus! {

} // verus!
