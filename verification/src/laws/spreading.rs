//! Where reads and writes of a query go, and in what form they are sent.

use vstd::prelude::*;
use vstd::utf8::encode_utf8;

use crate::cluster::{query_target, target_of, ShardStatus, Target};
use crate::distributed::{line_content, read_of, Read};
use crate::json::{bool_text, hex_digit};
use crate::model::QueryReadPreference;
use crate::shard_writes::{written_by, Written};
use crate::sorting::sort_texts;
use crate::text::{dec, dec_int, join, trim, views};
use crate::text_table::by_name;
use crate::value::{vals, Flo, Val};
use crate::wire::{
    field_suffix, float_texts, fnv, hash_fields, hash_labels, hash_params, hex_text, if_exists_text,
    if_not_exists_text, map_value_text, node_hash, param_suffix, query_payload, request_value,
    request_values, routing_key_hash, CreateNodeRoutingKey, FNV_OFFSET,
};

verus! {

/// A shard is read here where there is a copy of it here; else it is read from the server that is
/// asked for it.
pub proof fn local_copies_are_read_here(
    peers: Map<u64, Seq<char>>,
    shard: ShardStatus,
    preference: QueryReadPreference,
)
    ensures
        shard.has_local_copy ==> read_of(peers, shard, preference) == Ok::<_, Seq<char>>(
            Read::Here { shard_id: shard.shard_id },
        ),
        !shard.has_local_copy ==> (query_target(peers, shard, preference) matches Ok(
            (server_id, address),
        ) ==> read_of(peers, shard, preference) == Ok::<_, Seq<char>>(
            Read::Away { shard_id: shard.shard_id, server_id, address },
        )),
        !shard.has_local_copy ==> (query_target(peers, shard, preference) matches Err(e)
            ==> read_of(peers, shard, preference) == Err::<Read, _>(e)),
{
}

/// A write to a shard is carried out here where the primary is here; else it is sent to the primary,
/// with the shard, the query and its parameters.
pub proof fn writes_are_carried_out_at_the_primary(
    shards: Seq<ShardStatus>,
    peers: Map<u64, Seq<char>>,
    shard_id: u64,
    query: Seq<char>,
    params: Map<Seq<char>, Val>,
)
    ensures
        match target_of(shards, peers, shard_id) {
            Ok(Target::Local) => written_by(shards, peers, shard_id, query, params) == Ok::<
                _,
                Seq<char>,
            >(Written::Here { shard_id }),
            Ok(Target::Remote(to)) => written_by(shards, peers, shard_id, query, params)
                matches Ok(Written::Away { address, payload }) && address == to && payload
                == query_payload("QUERY_WRITE_SHARD"@, shard_id as nat, query, params),
            Err(e) => written_by(shards, peers, shard_id, query, params) == Err::<Written, _>(e),
        },
{
}

/// What is sent to a shard says the command, the shard and the query, and then the parameters, each
/// with a tab before it, in the order of their names.
pub proof fn sent_queries_say_what_is_asked(
    command: Seq<char>,
    shard_id: nat,
    query: Seq<char>,
    params: Map<Seq<char>, Val>,
    list: Seq<(Seq<char>, Val)>,
    name: Seq<char>,
    value: Val,
)
    ensures
        query_payload(command, shard_id, query, params) == command + "\t"@ + dec(shard_id) + "\t"@
            + query + param_suffix(by_name(params)),
        param_suffix(Seq::empty()) == Seq::<char>::empty(),
        param_suffix(list.push((name, value))) == param_suffix(list) + "\t"@ + name + "="@
            + request_value(value),
{
    assert(list.push((name, value)).drop_last() =~= list);
}

/// Properties are sent each with a tab before it, as a name and a value.
pub proof fn sent_properties_say_their_names(
    fields: Seq<(Seq<char>, Seq<char>)>,
    name: Seq<char>,
    value: Seq<char>,
)
    ensures
        field_suffix(Seq::empty()) == Seq::<char>::empty(),
        field_suffix(fields.push((name, value))) == field_suffix(fields) + "\t"@ + name + "="@
            + value,
{
    assert(fields.push((name, value)).drop_last() =~= fields);
}

/// A value that is sent says its kind, and then itself.
pub proof fn sent_values_say_their_kind(b: bool, n: int, f: Flo, t: Seq<char>, fs: Seq<Flo>)
    ensures
        request_value(Val::Null) == "n:"@,
        request_value(Val::Bool(b)) == "b:"@ + bool_text(b),
        request_value(Val::Int(n)) == "i:"@ + dec_int(n),
        request_value(Val::Float(f)) == "f:"@ + f.text,
        request_value(Val::Text(t)) == "s:"@ + t,
        request_value(Val::Vector(fs)) == "v:"@ + join(float_texts(fs), ","@),
{
}

/// Within a map that is sent, a number with a fraction is sent by its bits and a text by its bytes, so
/// that nothing in it parts anything.
pub proof fn values_in_maps_say_their_kind(b: bool, n: int, f: Flo, t: Seq<char>)
    ensures
        map_value_text(Val::Null) == "n"@,
        map_value_text(Val::Bool(true)) == "b:1"@,
        map_value_text(Val::Bool(false)) == "b:0"@,
        map_value_text(Val::Int(n)) == "i:"@ + dec_int(n),
        map_value_text(Val::Float(f)) == "f:"@ + dec(f.bits),
        map_value_text(Val::Text(t)) == "s:"@ + hex_text(encode_utf8(t)),
{
}

/// The bytes that a text in hexadecimal digits says.
pub open spec fn hex_says(s: Seq<char>) -> Seq<int>
    decreases s.len(),
{
    if s.len() < 2 {
        Seq::empty()
    } else {
        hex_says(s.take(s.len() - 2)).push(
            16 * hex_value(s[s.len() - 2]) + hex_value(s[s.len() - 1]),
        )
    }
}

/// The value of a hexadecimal digit.
pub open spec fn hex_value(c: char) -> int {
    if '0' <= c && c <= '9' {
        (c as int) - ('0' as int)
    } else {
        (c as int) - ('a' as int) + 10
    }
}

/// Bytes in hexadecimal digits say the bytes, two digits for each.
pub proof fn hexadecimal_digits_say_the_bytes(bytes: Seq<u8>)
    ensures
        hex_text(bytes).len() == 2 * bytes.len(),
        hex_says(hex_text(bytes)) == bytes.map_values(|b: u8| b as int),
    decreases bytes.len(),
{
    if bytes.len() == 0 {
        assert(hex_says(hex_text(bytes)) =~= bytes.map_values(|b: u8| b as int));
    } else {
        let front = bytes.drop_last();
        hexadecimal_digits_say_the_bytes(front);
        let b = bytes.last() as int;
        lemma_hex(b / 16);
        lemma_hex(b % 16);
        let s = hex_text(bytes);
        assert(s.take(s.len() - 2) =~= hex_text(front));
        assert(hex_says(s) =~= bytes.map_values(|b: u8| b as int));
    }
}

proof fn lemma_hex(d: int)
    requires
        0 <= d < 16,
    ensures
        hex_value(hex_digit(d)) == d,
{
}

/// A hash goes on byte by byte, as the one of Fowler, Noll and Vo does: the byte is mixed in, and
/// then the hash is multiplied by the prime, within sixty-four bits.
pub proof fn hashes_take_every_byte(hash: u64, a: Seq<u8>, b: Seq<u8>, byte: u8)
    ensures
        fnv(hash, Seq::empty()) == hash,
        fnv(hash, a + b) == fnv(fnv(hash, a), b),
        fnv(hash, seq![byte]) == ((hash ^ (byte as u64)) * 0x100_0000_01b3)
            % 0x1_0000_0000_0000_0000,
        FNV_OFFSET == 0xcbf2_9ce4_8422_2325,
    decreases b.len(),
{
    if b.len() == 0 {
        assert(a + b =~= a);
    } else {
        assert((a + b).drop_last() =~= a + b.drop_last());
        assert((a + b).last() == b.last());
        hashes_take_every_byte(hash, a, b.drop_last(), byte);
    }
    assert(seq![byte].drop_last() =~= Seq::<u8>::empty());
    reveal_with_fuel(fnv, 2);
}

/// The shard of a node is found by its labels and its properties alone: their order does not matter.
pub proof fn order_of_labels_does_not_matter(a: CreateNodeRoutingKey, b: CreateNodeRoutingKey)
    requires
        sort_texts(views(a.labels@)) == sort_texts(views(b.labels@)),
        request_values(vals(a.properties@)) == request_values(vals(b.properties@)),
    ensures
        routing_key_hash(a) == routing_key_hash(b),
{
}

/// Each label and each property goes into the hash of a node: a label with its mark, a property with
/// its name and its value, each behind a zero.
pub proof fn labels_and_properties_are_hashed(
    hash: u64,
    labels: Seq<Seq<char>>,
    label: Seq<char>,
    fields: Seq<(Seq<char>, Seq<char>)>,
    name: Seq<char>,
    value: Seq<char>,
)
    ensures
        hash_labels(hash, Seq::empty()) == hash,
        hash_fields(hash, Seq::empty()) == hash,
        hash_labels(hash, labels.push(label)) == fnv(
            hash_labels(hash, labels),
            encode_utf8("\0"@) + encode_utf8("label:"@) + encode_utf8(label),
        ),
        hash_fields(hash, fields.push((name, value))) == fnv(
            hash_fields(hash, fields),
            encode_utf8("\0"@) + encode_utf8("prop:"@) + encode_utf8(name) + encode_utf8("="@)
                + encode_utf8(value),
        ),
{
    assert(labels.push(label).drop_last() =~= labels);
    assert(fields.push((name, value)).drop_last() =~= fields);
    let h = hash_labels(hash, labels);
    let z = encode_utf8("\0"@);
    let l = encode_utf8("label:"@);
    let t = encode_utf8(label);
    hashes_take_every_byte(h, z, l, 0);
    hashes_take_every_byte(h, z + l, t, 0);
    let g = hash_fields(hash, fields);
    let p = encode_utf8("prop:"@);
    let n = encode_utf8(name);
    let e = encode_utf8("="@);
    let v = encode_utf8(value);
    hashes_take_every_byte(g, z, p, 0);
    hashes_take_every_byte(g, z + p, n, 0);
    hashes_take_every_byte(g, z + p + n, e, 0);
    hashes_take_every_byte(g, z + p + n + e, v, 0);
}

/// A query whose node is known goes by the node; any other one goes by what it says, without the
/// white space round it, and by its parameters.
pub proof fn known_nodes_decide_the_shard(
    key: CreateNodeRoutingKey,
    query: Seq<char>,
    params: Map<Seq<char>, Val>,
    list: Seq<(Seq<char>, Val)>,
    hash: u64,
    name: Seq<char>,
    value: Val,
)
    ensures
        node_hash(Some(key), query, params) == routing_key_hash(key),
        node_hash(None, query, params) == hash_params(
            fnv(FNV_OFFSET, encode_utf8(trim(query))),
            by_name(params),
        ),
        hash_params(hash, Seq::empty()) == hash,
        hash_params(hash, list.push((name, value))) == fnv(
            hash_params(hash, list),
            encode_utf8("\0"@) + encode_utf8(name) + encode_utf8("="@) + encode_utf8(
                request_value(value),
            ),
        ),
{
    assert(list.push((name, value)).drop_last() =~= list);
    let g = hash_params(hash, list);
    let z = encode_utf8("\0"@);
    let n = encode_utf8(name);
    let e = encode_utf8("="@);
    let v = encode_utf8(request_value(value));
    hashes_take_every_byte(g, z, n, 0);
    hashes_take_every_byte(g, z + n, e, 0);
    hashes_take_every_byte(g, z + n + e, v, 0);
}

/// The end of a line does not belong to what the line says.
pub proof fn line_ends_are_left_off(line: Seq<char>)
    ensures
        line_content(line.push('\n')) == line_content(line),
        line_content(line.push('\r')) == line_content(line),
        line.len() > 0 && line.last() != '\n' && line.last() != '\r' ==> line_content(line) == line,
        line_content(Seq::empty()) == Seq::<char>::empty(),
{
    assert(line.push('\n').drop_last() =~= line);
    assert(line.push('\r').drop_last() =~= line);
}

/// What may be there already, or may be missing, is said only where it is asked for.
pub proof fn conditions_are_said_where_they_are_asked_for()
    ensures
        if_not_exists_text(true) == "\tIF_NOT_EXISTS"@,
        if_exists_text(true) == "\tIF_EXISTS"@,
        if_not_exists_text(false).len() == 0,
        if_exists_text(false).len() == 0,
{
    reveal_strlit("");
}

} // verus!
