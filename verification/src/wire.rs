//! The text form in which values and queries travel between servers.

use vstd::prelude::*;
use vstd::utf8::encode_utf8;

use crate::json::{bool_text, hex_digit, show_bool};
use crate::sorting::{sort_strings, sort_texts};
use crate::text::{
    cat, dec, dec_int, join, join_with, lemma_views_push, show, show_signed, views,
};
use crate::text_table::{by_name, TextMap};
use crate::value::{floats, lemma_vals_push, val, vals, Flo, FloatValue, QueryParams, Val, Value};

verus! {

/// Bytes in hexadecimal, two digits each.
pub open spec fn hex_text(bytes: Seq<u8>) -> Seq<char>
    decreases bytes.len(),
{
    if bytes.len() == 0 {
        Seq::<char>::empty()
    } else {
        hex_text(bytes.drop_last()).push(hex_digit(bytes.last() as int / 16)).push(
            hex_digit(bytes.last() as int % 16),
        )
    }
}

fn hex_char(d: u8) -> (c: char)
    requires
        d < 16,
    ensures
        c == hex_digit(d as int),
{
    if d < 10 {
        (48 + d) as char
    } else {
        (87 + d) as char
    }
}

/// Writes bytes in hexadecimal.
pub fn hex_encode_for_request(input: &[u8]) -> (r: String)
    ensures
        r@ == hex_text(input@),
{
    let mut r = String::new();
    let mut i: usize = 0;
    assert(r@ =~= hex_text(input@.take(0)));
    while i < input.len()
        invariant
            0 <= i <= input@.len(),
            r@ == hex_text(input@.take(i as int)),
        decreases input@.len() - i,
    {
        assert(input@.take(i + 1).drop_last() =~= input@.take(i as int));
        r.push(hex_char(input[i] / 16));
        r.push(hex_char(input[i] % 16));
        i = i + 1;
    }
    assert(input@.take(input@.len() as int) =~= input@);
    r
}

/// A text in hexadecimal.
pub open spec fn hex_of(s: Seq<char>) -> Seq<char> {
    hex_text(encode_utf8(s))
}

fn hex_str(s: &str) -> (r: String)
    ensures
        r@ == hex_of(s@),
{
    hex_encode_for_request(s.as_bytes())
}

/// The decimal texts of floating point numbers, in order.
pub open spec fn float_texts(fs: Seq<Flo>) -> Seq<Seq<char>> {
    fs.map_values(|f: Flo| f.text)
}

/// The bits of floating point numbers in decimal, in order.
pub open spec fn float_bits(fs: Seq<Flo>) -> Seq<Seq<char>> {
    fs.map_values(|f: Flo| dec(f.bits))
}

/// A value inside the encoding of a map.
pub open spec fn map_value_text(v: Val) -> Seq<char>
    decreases v,
{
    match v {
        Val::Null => "n"@,
        Val::Bool(b) => if b {
            "b:1"@
        } else {
            "b:0"@
        },
        Val::Int(n) => "i:"@ + dec_int(n),
        Val::Float(f) => "f:"@ + dec(f.bits),
        Val::Text(t) => "s:"@ + hex_of(t),
        Val::Vector(fs) => "v:"@ + join(float_bits(fs), ","@),
        Val::Object(m) => "m:"@ + hex_of(map_fields_text(map_value_texts(m))),
    }
}

/// The values of a map inside its encoding, by their names.
pub open spec fn map_value_texts(s: Seq<(Seq<char>, Val)>) -> Map<Seq<char>, Seq<char>>
    decreases s,
{
    if s.len() == 0 {
        Map::empty()
    } else {
        map_value_texts(s.drop_last()).insert(s.last().0, map_value_text(s.last().1))
    }
}

/// The fields of an encoded map, one by one.
pub open spec fn map_field_list(fields: Seq<(Seq<char>, Seq<char>)>) -> Seq<Seq<char>> {
    fields.map_values(|f: (Seq<char>, Seq<char>)| hex_of(f.0) + "~"@ + f.1)
}

/// An encoded map, its fields in the order of their names.
pub open spec fn map_fields_text(fields: Map<Seq<char>, Seq<char>>) -> Seq<char> {
    join(map_field_list(by_name(fields)), ","@)
}

fn encode_fields(fields: &TextMap) -> (r: String)
    requires
        fields.well_formed(),
    ensures
        r@ == map_fields_text(fields@),
{
    let n: usize = fields.len();
    let mut parts: Vec<String> = Vec::new();
    let mut i: usize = 0;
    let ghost all = map_field_list(by_name(fields@));
    assert(views(parts@) =~= all.take(0));
    while i < n
        invariant
            0 <= i <= n,
            n == fields.entries().len(),
            fields.entries() == by_name(fields@),
            all == map_field_list(by_name(fields@)),
            views(parts@) == all.take(i as int),
        decreases n - i,
    {
        let mut part = hex_str(fields.name_at(i));
        part.append("~");
        part.append(fields.text_at(i));
        assert(all[i as int] == part@);
        proof {
            lemma_views_push(parts@, part);
        }
        parts.push(part);
        assert(all.take(i + 1) =~= all.take(i as int).push(part@));
        i = i + 1;
    }
    assert(all.take(all.len() as int) =~= all);
    join_with(parts.as_slice(), ",")
}

fn show_float_bits(fs: &Vec<FloatValue>) -> (parts: Vec<String>)
    ensures
        views(parts@) == float_bits(floats(fs@)),
{
    let mut parts: Vec<String> = Vec::new();
    let mut i: usize = 0;
    let ghost all = float_bits(floats(fs@));
    assert(views(parts@) =~= all.take(0));
    while i < fs.len()
        invariant
            0 <= i <= fs@.len(),
            all == float_bits(floats(fs@)),
            views(parts@) == all.take(i as int),
        decreases fs@.len() - i,
    {
        let part = show(fs[i].bits as u128);
        assert(all[i as int] == part@);
        proof {
            lemma_views_push(parts@, part);
        }
        parts.push(part);
        assert(all.take(i + 1) =~= all.take(i as int).push(part@));
        i = i + 1;
    }
    assert(all.take(all.len() as int) =~= all);
    parts
}

fn show_float_texts(fs: &Vec<FloatValue>) -> (parts: Vec<String>)
    ensures
        views(parts@) == float_texts(floats(fs@)),
{
    let mut parts: Vec<String> = Vec::new();
    let mut i: usize = 0;
    let ghost all = float_texts(floats(fs@));
    assert(views(parts@) =~= all.take(0));
    while i < fs.len()
        invariant
            0 <= i <= fs@.len(),
            all == float_texts(floats(fs@)),
            views(parts@) == all.take(i as int),
        decreases fs@.len() - i,
    {
        let part = fs[i].text.as_str().to_owned();
        assert(all[i as int] == part@);
        proof {
            lemma_views_push(parts@, part);
        }
        parts.push(part);
        assert(all.take(i + 1) =~= all.take(i as int).push(part@));
        i = i + 1;
    }
    assert(all.take(all.len() as int) =~= all);
    parts
}

/// Encodes a value inside a map.
pub fn encode_value_for_map_request(value: &Value) -> (r: String)
    ensures
        r@ == map_value_text(val(*value)),
    decreases *value,
{
    match value {
        Value::Null => "n".to_owned(),
        Value::Bool(b) => if *b {
            "b:1".to_owned()
        } else {
            "b:0".to_owned()
        },
        Value::Int(n) => cat("i:", show_signed(*n).as_str()),
        Value::Float(f) => cat("f:", show(f.bits as u128).as_str()),
        Value::Text(t) => cat("s:", hex_str(t.as_str()).as_str()),
        Value::Vector(fs) => cat("v:", join_with(show_float_bits(fs).as_slice(), ",").as_str()),
        Value::Object(m) => cat("m:", hex_str(encode_map_for_request(m).as_str()).as_str()),
    }
}

/// Encodes a map.
pub fn encode_map_for_request(values: &Vec<(String, Value)>) -> (r: String)
    ensures
        r@ == map_fields_text(map_value_texts(vals(values@))),
    decreases *values,
{
    let mut fields = TextMap::new();
    let mut i: usize = 0;
    assert(values@.take(0) =~= Seq::<(String, Value)>::empty());
    while i < values.len()
        invariant
            0 <= i <= values@.len(),
            fields.well_formed(),
            fields@ == map_value_texts(vals(values@.take(i as int))),
        decreases values@.len() - i,
    {
        let ghost before = values@.take(i as int);
        let ghost e = values@[i as int];
        assert(values@.take(i + 1) =~= before.push(e));
        proof {
            lemma_vals_push(before, e);
            assert(vals(before.push(e)).drop_last() =~= vals(before));
            assert(decreases_to!(*values => values@));
            assert(decreases_to!(values@ => values@[i as int]));
            assert(decreases_to!(values@[i as int] => values@[i as int].1));
        }
        let text = encode_value_for_map_request(&values[i].1);
        fields.insert(values[i].0.as_str().to_owned(), text);
        i = i + 1;
    }
    assert(values@.take(values@.len() as int) =~= values@);
    encode_fields(&fields)
}

/// A value in a request.
pub open spec fn request_value(v: Val) -> Seq<char> {
    match v {
        Val::Null => "n:"@,
        Val::Bool(b) => "b:"@ + bool_text(b),
        Val::Int(n) => "i:"@ + dec_int(n),
        Val::Float(f) => "f:"@ + f.text,
        Val::Text(t) => "s:"@ + t,
        Val::Vector(fs) => "v:"@ + join(float_texts(fs), ","@),
        Val::Object(m) => "m:"@ + hex_of(map_fields_text(map_value_texts(m))),
    }
}

/// Writes a value of a request.
pub fn format_value_for_request(value: &Value) -> (r: String)
    ensures
        r@ == request_value(val(*value)),
{
    match value {
        Value::Null => "n:".to_owned(),
        Value::Bool(b) => cat("b:", show_bool(*b)),
        Value::Int(n) => cat("i:", show_signed(*n).as_str()),
        Value::Float(f) => cat("f:", f.text.as_str()),
        Value::Text(t) => cat("s:", t.as_str()),
        Value::Vector(fs) => cat("v:", join_with(show_float_texts(fs).as_slice(), ",").as_str()),
        Value::Object(m) => cat("m:", hex_str(encode_map_for_request(m).as_str()).as_str()),
    }
}

/// The values of a request by their names.
pub open spec fn request_values(s: Seq<(Seq<char>, Val)>) -> Map<Seq<char>, Seq<char>>
    decreases s.len(),
{
    if s.len() == 0 {
        Map::empty()
    } else {
        request_values(s.drop_last()).insert(s.last().0, request_value(s.last().1))
    }
}

/// Named values as fields of a request, each after a tab.
pub open spec fn field_suffix(fields: Seq<(Seq<char>, Seq<char>)>) -> Seq<char>
    decreases fields.len(),
{
    if fields.len() == 0 {
        Seq::<char>::empty()
    } else {
        field_suffix(fields.drop_last()) + "\t"@ + fields.last().0 + "="@ + fields.last().1
    }
}

fn request_fields(properties: &Vec<(String, Value)>) -> (fields: TextMap)
    ensures
        fields.well_formed(),
        fields@ == request_values(vals(properties@)),
{
    let mut fields = TextMap::new();
    let mut i: usize = 0;
    assert(properties@.take(0) =~= Seq::<(String, Value)>::empty());
    while i < properties.len()
        invariant
            0 <= i <= properties@.len(),
            fields.well_formed(),
            fields@ == request_values(vals(properties@.take(i as int))),
        decreases properties@.len() - i,
    {
        let ghost before = properties@.take(i as int);
        let ghost e = properties@[i as int];
        assert(properties@.take(i + 1) =~= before.push(e));
        proof {
            lemma_vals_push(before, e);
            assert(vals(before.push(e)).drop_last() =~= vals(before));
        }
        let text = format_value_for_request(&properties[i].1);
        fields.insert(properties[i].0.as_str().to_owned(), text);
        i = i + 1;
    }
    assert(properties@.take(properties@.len() as int) =~= properties@);
    fields
}

/// Writes properties as fields of a request, in the order of their names.
pub fn format_properties_suffix(properties: &Vec<(String, Value)>) -> (r: String)
    ensures
        r@ == field_suffix(by_name(request_values(vals(properties@)))),
{
    let fields = request_fields(properties);
    let n: usize = fields.len();
    let mut r = String::new();
    let mut j: usize = 0;
    assert(r@ =~= field_suffix(fields.entries().take(0)));
    while j < n
        invariant
            0 <= j <= n,
            n == fields.entries().len(),
            r@ == field_suffix(fields.entries().take(j as int)),
        decreases n - j,
    {
        assert(fields.entries().take(j + 1).drop_last() =~= fields.entries().take(j as int));
        r.append("\t");
        r.append(fields.name_at(j));
        r.append("=");
        r.append(fields.text_at(j));
        j = j + 1;
    }
    assert(fields.entries().take(n as int) =~= fields.entries());
    r
}

/// Parameters as fields of a request, each after a tab.
pub open spec fn param_suffix(params: Seq<(Seq<char>, Val)>) -> Seq<char>
    decreases params.len(),
{
    if params.len() == 0 {
        Seq::<char>::empty()
    } else {
        param_suffix(params.drop_last()) + "\t"@ + params.last().0 + "="@ + request_value(
            params.last().1,
        )
    }
}

/// A query for a shard under a command, with its parameters in the order of their names.
pub open spec fn query_payload(
    command: Seq<char>,
    shard_id: nat,
    query: Seq<char>,
    params: Map<Seq<char>, Val>,
) -> Seq<char> {
    command + "\t"@ + dec(shard_id) + "\t"@ + query + param_suffix(by_name(params))
}

fn show_params(params: &QueryParams) -> (r: String)
    requires
        params.well_formed(),
    ensures
        r@ == param_suffix(by_name(params@)),
{
    let n: usize = params.len();
    let mut r = String::new();
    let mut j: usize = 0;
    assert(r@ =~= param_suffix(params.entries().take(0)));
    while j < n
        invariant
            0 <= j <= n,
            n == params.entries().len(),
            r@ == param_suffix(params.entries().take(j as int)),
        decreases n - j,
    {
        assert(params.entries().take(j + 1).drop_last() =~= params.entries().take(j as int));
        r.append("\t");
        r.append(params.name_at(j));
        r.append("=");
        r.append(format_value_for_request(params.value_at(j)).as_str());
        j = j + 1;
    }
    assert(params.entries().take(n as int) =~= params.entries());
    r
}

/// Writes a query for a shard under a command.
pub fn format_query_payload_with_command(
    command: &str,
    shard_id: u64,
    query: &str,
    params: &QueryParams,
) -> (r: String)
    requires
        params.well_formed(),
    ensures
        r@ == query_payload(command@, shard_id as nat, query@, params@),
{
    let mut r = command.to_owned();
    r.append("\t");
    r.append(show(shard_id as u128).as_str());
    r.append("\t");
    r.append(query);
    r.append(show_params(params).as_str());
    r
}

/// Writes a write for a shard.
pub fn format_query_write_shard_payload(shard_id: u64, query: &str, params: &QueryParams) -> (r:
    String)
    requires
        params.well_formed(),
    ensures
        r@ == query_payload("QUERY_WRITE_SHARD"@, shard_id as nat, query@, params@),
{
    format_query_payload_with_command("QUERY_WRITE_SHARD", shard_id, query, params)
}

/// Writes a query for a shard.
pub fn format_query_shard_payload(shard_id: u64, query: &str, params: &QueryParams) -> (r: String)
    requires
        params.well_formed(),
    ensures
        r@ == query_payload("QUERY_SHARD"@, shard_id as nat, query@, params@),
{
    format_query_payload_with_command("QUERY_SHARD", shard_id, query, params)
}

/// A command with a shard and an encoded batch.
pub open spec fn batch_payload(command: Seq<char>, shard_id: nat, batch: Seq<char>) -> Seq<char> {
    command + "\t"@ + dec(shard_id) + "\t"@ + batch
}

fn show_batch(command: &str, shard_id: u64, batch: &str) -> (r: String)
    ensures
        r@ == batch_payload(command@, shard_id as nat, batch@),
{
    let mut r = command.to_owned();
    r.append("\t");
    r.append(show(shard_id as u128).as_str());
    r.append("\t");
    r.append(batch);
    r
}

/// Writes the request to prepare an encoded batch of writes on a shard.
pub fn format_tx_prepare_write_batch_shard_payload(shard_id: u64, batch: &str) -> (r: String)
    ensures
        r@ == batch_payload("TX_PREPARE_WRITE_BATCH_SHARD"@, shard_id as nat, batch@),
{
    show_batch("TX_PREPARE_WRITE_BATCH_SHARD", shard_id, batch)
}

/// Writes a query for a shard together with staged writes; the batch holds the query first.
pub fn format_query_staged_shard_payload(shard_id: u64, batch: &str) -> (r: String)
    ensures
        r@ == batch_payload("QUERY_STAGED_SHARD"@, shard_id as nat, batch@),
{
    show_batch("QUERY_STAGED_SHARD", shard_id, batch)
}

/// What is appended to a command that may find its target in place.
pub open spec fn if_not_exists_text(b: bool) -> Seq<char> {
    if b {
        "\tIF_NOT_EXISTS"@
    } else {
        ""@
    }
}

/// What is appended to a command whose target may be missing.
pub open spec fn if_exists_text(b: bool) -> Seq<char> {
    if b {
        "\tIF_EXISTS"@
    } else {
        ""@
    }
}

/// Writes what is appended to a command that may find its target in place.
pub fn format_if_not_exists_suffix(if_not_exists: bool) -> (r: &'static str)
    ensures
        r@ == if_not_exists_text(if_not_exists),
{
    if if_not_exists {
        "\tIF_NOT_EXISTS"
    } else {
        ""
    }
}

/// Writes what is appended to a command whose target may be missing.
pub fn format_if_exists_suffix(if_exists: bool) -> (r: &'static str)
    ensures
        r@ == if_exists_text(if_exists),
{
    if if_exists {
        "\tIF_EXISTS"
    } else {
        ""
    }
}

/// A byte updates a hash: it is mixed in, and the hash is multiplied.
pub open spec fn fnv_byte(hash: u64, byte: u8) -> u64 {
    (hash ^ (byte as u64)).wrapping_mul(0x100_0000_01b3)
}

/// Bytes update a hash, in order.
pub open spec fn fnv(hash: u64, bytes: Seq<u8>) -> u64
    decreases bytes.len(),
{
    if bytes.len() == 0 {
        hash
    } else {
        fnv_byte(fnv(hash, bytes.drop_last()), bytes.last())
    }
}

/// The hash of nothing.
pub const FNV_OFFSET: u64 = 0xcbf2_9ce4_8422_2325;

/// Updates a hash with bytes.
pub fn fnv_update(hash: u64, bytes: &[u8]) -> (r: u64)
    ensures
        r == fnv(hash, bytes@),
{
    let mut h = hash;
    let mut i: usize = 0;
    assert(bytes@.take(0) =~= Seq::<u8>::empty());
    while i < bytes.len()
        invariant
            0 <= i <= bytes@.len(),
            h == fnv(hash, bytes@.take(i as int)),
        decreases bytes@.len() - i,
    {
        assert(bytes@.take(i + 1).drop_last() =~= bytes@.take(i as int));
        let mixed: u64 = h ^ (bytes[i] as u64);
        h = mixed.wrapping_mul(0x100_0000_01b3);
        i = i + 1;
    }
    assert(bytes@.take(bytes@.len() as int) =~= bytes@);
    h
}

fn fnv_str(hash: u64, s: &str) -> (r: u64)
    ensures
        r == fnv(hash, encode_utf8(s@)),
{
    fnv_update(hash, s.as_bytes())
}

/// A text updates a hash.
pub open spec fn fnv_text(hash: u64, s: Seq<char>) -> u64 {
    fnv(hash, encode_utf8(s))
}

/// Parameters update a hash, in order.
pub open spec fn hash_params(hash: u64, params: Seq<(Seq<char>, Val)>) -> u64
    decreases params.len(),
{
    if params.len() == 0 {
        hash
    } else {
        let before = hash_params(hash, params.drop_last());
        let named = fnv_text(fnv_text(before, "\0"@), params.last().0);
        fnv_text(fnv_text(named, "="@), request_value(params.last().1))
    }
}

/// The hash of a query and its parameters.
pub open spec fn fallback_hash(query: Seq<char>, params: Map<Seq<char>, Val>) -> u64 {
    hash_params(fnv_text(FNV_OFFSET, crate::text::trim(query)), by_name(params))
}

/// Hashes a query and its parameters.
pub fn stable_create_node_fallback_hash(query: &str, params: &QueryParams) -> (r: u64)
    requires
        params.well_formed(),
    ensures
        r == fallback_hash(query@, params@),
{
    let mut hash: u64 = fnv_str(FNV_OFFSET, crate::text::trimmed(query).as_str());
    let n: usize = params.len();
    let mut i: usize = 0;
    let ghost start = hash;
    assert(params.entries().take(0) =~= Seq::<(Seq<char>, Val)>::empty());
    while i < n
        invariant
            0 <= i <= n,
            n == params.entries().len(),
            hash == hash_params(start, params.entries().take(i as int)),
        decreases n - i,
    {
        assert(params.entries().take(i + 1).drop_last() =~= params.entries().take(i as int));
        hash = fnv_str(hash, "\0");
        hash = fnv_str(hash, params.name_at(i));
        hash = fnv_str(hash, "=");
        hash = fnv_str(hash, format_value_for_request(params.value_at(i)).as_str());
        i = i + 1;
    }
    assert(params.entries().take(n as int) =~= params.entries());
    hash
}

/// By what a new node finds its shard: its labels and its properties.
pub struct CreateNodeRoutingKey {
    pub labels: Vec<String>,
    pub properties: Vec<(String, Value)>,
}

/// Labels update a hash, in order.
pub open spec fn hash_labels(hash: u64, labels: Seq<Seq<char>>) -> u64
    decreases labels.len(),
{
    if labels.len() == 0 {
        hash
    } else {
        let before = hash_labels(hash, labels.drop_last());
        fnv_text(fnv_text(fnv_text(before, "\0"@), "label:"@), labels.last())
    }
}

/// Properties update a hash, in order.
pub open spec fn hash_fields(hash: u64, fields: Seq<(Seq<char>, Seq<char>)>) -> u64
    decreases fields.len(),
{
    if fields.len() == 0 {
        hash
    } else {
        let before = hash_fields(hash, fields.drop_last());
        let named = fnv_text(fnv_text(fnv_text(before, "\0"@), "prop:"@), fields.last().0);
        fnv_text(fnv_text(named, "="@), fields.last().1)
    }
}

/// The hash by which a new node finds its shard: that of its labels in order, then of its
/// properties in the order of their names.
pub open spec fn routing_key_hash(key: CreateNodeRoutingKey) -> u64 {
    hash_fields(
        hash_labels(FNV_OFFSET, sort_texts(views(key.labels@))),
        by_name(request_values(vals(key.properties@))),
    )
}

/// Hashes that by which a new node finds its shard.
pub fn stable_create_node_routing_key_hash(routing_key: &CreateNodeRoutingKey) -> (r: u64)
    ensures
        r == routing_key_hash(*routing_key),
{
    let labels = sort_strings(routing_key.labels.as_slice());
    let mut hash: u64 = FNV_OFFSET;
    let mut i: usize = 0;
    let ghost all = views(labels@);
    assert(all.take(0) =~= Seq::<Seq<char>>::empty());
    while i < labels.len()
        invariant
            0 <= i <= labels@.len(),
            all == views(labels@),
            hash == hash_labels(FNV_OFFSET, all.take(i as int)),
        decreases labels@.len() - i,
    {
        assert(all.take(i + 1).drop_last() =~= all.take(i as int));
        assert(all.take(i + 1).last() == labels@[i as int]@);
        hash = fnv_str(hash, "\0");
        hash = fnv_str(hash, "label:");
        hash = fnv_str(hash, labels[i].as_str());
        i = i + 1;
    }
    assert(all.take(all.len() as int) =~= all);
    let fields = request_fields(&routing_key.properties);
    let n: usize = fields.len();
    let mut j: usize = 0;
    let ghost start = hash;
    assert(fields.entries().take(0) =~= Seq::<(Seq<char>, Seq<char>)>::empty());
    while j < n
        invariant
            0 <= j <= n,
            n == fields.entries().len(),
            hash == hash_fields(start, fields.entries().take(j as int)),
        decreases n - j,
    {
        assert(fields.entries().take(j + 1).drop_last() =~= fields.entries().take(j as int));
        hash = fnv_str(hash, "\0");
        hash = fnv_str(hash, "prop:");
        hash = fnv_str(hash, fields.name_at(j));
        hash = fnv_str(hash, "=");
        hash = fnv_str(hash, fields.text_at(j));
        j = j + 1;
    }
    assert(fields.entries().take(n as int) =~= fields.entries());
    hash
}

/// The hash by which a node that is created or merged finds its shard: that of its routing
/// key, or where it has none, of the query.
pub open spec fn node_hash(
    key: Option<CreateNodeRoutingKey>,
    query: Seq<char>,
    params: Map<Seq<char>, Val>,
) -> u64 {
    match key {
        Some(k) => routing_key_hash(k),
        None => fallback_hash(query, params),
    }
}

/// Hashes that by which a node that is created or merged finds its shard.
pub fn stable_node_hash(key: &Option<CreateNodeRoutingKey>, query: &str, params: &QueryParams) -> (r:
    u64)
    requires
        params.well_formed(),
    ensures
        r == node_hash(*key, query@, params@),
{
    match key {
        Some(k) => stable_create_node_routing_key_hash(k),
        None => stable_create_node_fallback_hash(query, params),
    }
}

} // verus!
