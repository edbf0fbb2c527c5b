//! What the answers to queries and the shown graph say when they are read as JSON.

use vstd::prelude::*;

use crate::cypher::names_in_order;
use crate::json::{json_escaped, string_array};
use crate::laws::json_reading::{
    decimals_say_the_number, is_plain, key_of, lemma_begin, lemma_close, lemma_constants, lemma_end,
    lemma_field, lemma_first, lemma_grow, lemma_plain, lists_are_read_item_by_item,
    quoted_texts_say_the_text, reads, text_lists_say_the_texts, Json,
};
use crate::laws::json_values::{
    named_values_say_what_they_are, objects_say_what_their_fields_say, value_says, values_say,
    values_say_what_they_are,
};
use crate::rows::{
    columns, columns_text, first_rows, graph_limit, graph_text, node_in, node_text, properties_text,
    query_body, query_text_of, query_value_text, relationship_in, relationship_text, row_text,
    row_texts, rows_well_formed, shown_ids, shown_nodes, shown_relationships, BoundaryNodeValue,
    NodeValue, QueryRow, QueryValue, RelationshipValue,
};
use crate::text::{dec, join, number, views};
use crate::text_table::{by_name, in_order, lemma_seen_list, named, seen};
use crate::value::{val, vals, Value};

verus! {

/// What a list of texts says.
pub open spec fn texts_say(values: Seq<Seq<char>>) -> Json {
    Json::List(values.map_values(|v: Seq<char>| Json::Text(v)))
}

/// What the properties of a node or a relationship say.
pub open spec fn properties_say(properties: Seq<(String, Value)>) -> Json {
    Json::Fields(by_name(values_say(vals(properties))))
}

/// A relationship in a row says, read as JSON, from which node to which node it leads, and its
/// identifier, type and properties.
pub proof fn relationships_in_rows_keep_their_direction(r: RelationshipValue)
    ensures
        reads(
            query_value_text(QueryValue::Relationship(r)),
            Json::Fields(
                seq![
                    ("kind"@, Json::Text("relationship"@)),
                    ("id"@, Json::Number(r.id as int)),
                    ("from"@, Json::Number(r.from as int)),
                    ("to"@, Json::Number(r.to as int)),
                    ("type"@, Json::Text(r.rel_type@)),
                    ("properties"@, properties_say(r.properties@)),
                ],
            ),
        ),
{
    let t0 = seq!['{'];
    let f0 = Seq::<(Seq<char>, Json)>::empty();
    lemma_begin(t0);
    let k1 = key_of(true, "kind"@);
    let v1 = seq!['"'] + "relationship"@ + seq!['"'];
    let j1 = Json::Text("relationship"@);
    assert(reads(v1, j1)) by {
        plain_relationship();
        lemma_plain("relationship"@);
        quoted_texts_say_the_text("relationship"@);
    }
    plain_kind();
    lemma_field(t0, f0, k1, "kind"@, v1, j1);
    let t1 = t0 + k1 + v1;
    let f1 = f0.push(("kind"@, j1));
    let k2 = key_of(false, "id"@);
    let v2 = dec(r.id as nat);
    let j2 = Json::Number(r.id as int);
    assert(reads(v2, j2)) by {
        decimals_say_the_number(r.id as nat);
    }
    plain_id();
    lemma_field(t1, f1, k2, "id"@, v2, j2);
    let t2 = t1 + k2 + v2;
    let f2 = f1.push(("id"@, j2));
    piece_kind_relationship_id();
    assert(t0 + (Seq::<char>::empty() + key_of(true, "kind"@) + (seq!['"'] + "relationship"@ + seq!['"'])) =~= t1);
    lemma_first("{\"kind\":\"relationship\",\"id\":"@, t1, (Seq::<char>::empty() + key_of(true, "kind"@) + (seq!['"'] + "relationship"@ + seq!['"'])), k2, Seq::<char>::empty(), dec(r.id as nat), Seq::<char>::empty(), v2);
    let o2 = "{\"kind\":\"relationship\",\"id\":"@ + dec(r.id as nat);
    let k3 = key_of(false, "from"@);
    let v3 = dec(r.from as nat);
    let j3 = Json::Number(r.from as int);
    assert(reads(v3, j3)) by {
        decimals_say_the_number(r.from as nat);
    }
    plain_from();
    lemma_field(t2, f2, k3, "from"@, v3, j3);
    let t3 = t2 + k3 + v3;
    let f3 = f2.push(("from"@, j3));
    piece_then_from();
    lemma_grow(o2, t2, t2, ",\"from\":"@, Seq::<char>::empty(), Seq::<char>::empty(), k3, Seq::<char>::empty(), dec(r.from as nat), Seq::<char>::empty(), v3);
    let o3 = o2 + ",\"from\":"@ + dec(r.from as nat);
    let k4 = key_of(false, "to"@);
    let v4 = dec(r.to as nat);
    let j4 = Json::Number(r.to as int);
    assert(reads(v4, j4)) by {
        decimals_say_the_number(r.to as nat);
    }
    plain_to();
    lemma_field(t3, f3, k4, "to"@, v4, j4);
    let t4 = t3 + k4 + v4;
    let f4 = f3.push(("to"@, j4));
    piece_then_to();
    lemma_grow(o3, t3, t3, ",\"to\":"@, Seq::<char>::empty(), Seq::<char>::empty(), k4, Seq::<char>::empty(), dec(r.to as nat), Seq::<char>::empty(), v4);
    let o4 = o3 + ",\"to\":"@ + dec(r.to as nat);
    let k5 = key_of(false, "type"@);
    let v5 = seq!['"'] + json_escaped(r.rel_type@) + seq!['"'];
    let j5 = Json::Text(r.rel_type@);
    assert(reads(v5, j5)) by {
        quoted_texts_say_the_text(r.rel_type@);
    }
    plain_type();
    lemma_field(t4, f4, k5, "type"@, v5, j5);
    let t5 = t4 + k5 + v5;
    let f5 = f4.push(("type"@, j5));
    piece_then_type();
    lemma_grow(o4, t4, t4, ",\"type\":\""@, Seq::<char>::empty(), Seq::<char>::empty(), k5, seq!['"'], json_escaped(r.rel_type@), seq!['"'], v5);
    let o5 = o4 + ",\"type\":\""@ + json_escaped(r.rel_type@);
    let k6 = key_of(false, "properties"@);
    let v6 = properties_text(r.properties@);
    let j6 = properties_say(r.properties@);
    assert(reads(v6, j6)) by {
        named_values_say_what_they_are(vals(r.properties@));
    }
    plain_properties();
    lemma_field(t5, f5, k6, "properties"@, v6, j6);
    let t6 = t5 + k6 + v6;
    let f6 = f5.push(("properties"@, j6));
    piece_then_properties();
    lemma_grow(o5, t5, t5, "\",\"properties\":"@, seq!['"'], Seq::<char>::empty(), k6, Seq::<char>::empty(), properties_text(r.properties@), Seq::<char>::empty(), v6);
    let o6 = o5 + "\",\"properties\":"@ + properties_text(r.properties@);
    piece_then_end();
    lemma_end(o6, t6, t6, "}"@, Seq::<char>::empty(), Seq::<char>::empty());
    lemma_close(t6, f6);
    let fs = seq![
        ("kind"@, Json::Text("relationship"@)),
        ("id"@, Json::Number(r.id as int)),
        ("from"@, Json::Number(r.from as int)),
        ("to"@, Json::Number(r.to as int)),
        ("type"@, Json::Text(r.rel_type@)),
        ("properties"@, properties_say(r.properties@)),
    ];
    assert(f6 =~= fs);
}

/// A node in a row says its identifier, labels and properties.
pub proof fn nodes_in_rows_say_what_they_are(n: NodeValue)
    ensures
        reads(
            query_value_text(QueryValue::Node(n)),
            Json::Fields(
                seq![
                    ("kind"@, Json::Text("node"@)),
                    ("id"@, Json::Number(n.id as int)),
                    ("labels"@, texts_say(views(n.labels@))),
                    ("properties"@, properties_say(n.properties@)),
                ],
            ),
        ),
{
    let t0 = seq!['{'];
    let f0 = Seq::<(Seq<char>, Json)>::empty();
    lemma_begin(t0);
    let k1 = key_of(true, "kind"@);
    let v1 = seq!['"'] + "node"@ + seq!['"'];
    let j1 = Json::Text("node"@);
    assert(reads(v1, j1)) by {
        plain_node();
        lemma_plain("node"@);
        quoted_texts_say_the_text("node"@);
    }
    plain_kind();
    lemma_field(t0, f0, k1, "kind"@, v1, j1);
    let t1 = t0 + k1 + v1;
    let f1 = f0.push(("kind"@, j1));
    let k2 = key_of(false, "id"@);
    let v2 = dec(n.id as nat);
    let j2 = Json::Number(n.id as int);
    assert(reads(v2, j2)) by {
        decimals_say_the_number(n.id as nat);
    }
    plain_id();
    lemma_field(t1, f1, k2, "id"@, v2, j2);
    let t2 = t1 + k2 + v2;
    let f2 = f1.push(("id"@, j2));
    piece_kind_node_id();
    assert(t0 + (Seq::<char>::empty() + key_of(true, "kind"@) + (seq!['"'] + "node"@ + seq!['"'])) =~= t1);
    lemma_first("{\"kind\":\"node\",\"id\":"@, t1, (Seq::<char>::empty() + key_of(true, "kind"@) + (seq!['"'] + "node"@ + seq!['"'])), k2, Seq::<char>::empty(), dec(n.id as nat), Seq::<char>::empty(), v2);
    let o2 = "{\"kind\":\"node\",\"id\":"@ + dec(n.id as nat);
    let k3 = key_of(false, "labels"@);
    let v3 = string_array(views(n.labels@));
    let j3 = texts_say(views(n.labels@));
    assert(reads(v3, j3)) by {
        text_lists_say_the_texts(views(n.labels@));
    }
    plain_labels();
    lemma_field(t2, f2, k3, "labels"@, v3, j3);
    let t3 = t2 + k3 + v3;
    let f3 = f2.push(("labels"@, j3));
    piece_then_labels();
    lemma_grow(o2, t2, t2, ",\"labels\":"@, Seq::<char>::empty(), Seq::<char>::empty(), k3, Seq::<char>::empty(), string_array(views(n.labels@)), Seq::<char>::empty(), v3);
    let o3 = o2 + ",\"labels\":"@ + string_array(views(n.labels@));
    let k4 = key_of(false, "properties"@);
    let v4 = properties_text(n.properties@);
    let j4 = properties_say(n.properties@);
    assert(reads(v4, j4)) by {
        named_values_say_what_they_are(vals(n.properties@));
    }
    plain_properties();
    lemma_field(t3, f3, k4, "properties"@, v4, j4);
    let t4 = t3 + k4 + v4;
    let f4 = f3.push(("properties"@, j4));
    piece_then_properties_2();
    lemma_grow(o3, t3, t3, ",\"properties\":"@, Seq::<char>::empty(), Seq::<char>::empty(), k4, Seq::<char>::empty(), properties_text(n.properties@), Seq::<char>::empty(), v4);
    let o4 = o3 + ",\"properties\":"@ + properties_text(n.properties@);
    piece_then_end();
    lemma_end(o4, t4, t4, "}"@, Seq::<char>::empty(), Seq::<char>::empty());
    lemma_close(t4, f4);
    let fs = seq![
        ("kind"@, Json::Text("node"@)),
        ("id"@, Json::Number(n.id as int)),
        ("labels"@, texts_say(views(n.labels@))),
        ("properties"@, properties_say(n.properties@)),
    ];
    assert(f4 =~= fs);
}

/// A node of another shard in a row says its identifier, owner, version, labels and properties.
pub proof fn boundary_nodes_in_rows_say_what_they_are(n: BoundaryNodeValue)
    ensures
        reads(
            query_value_text(QueryValue::BoundaryNode(n)),
            Json::Fields(
                seq![
                    ("kind"@, Json::Text("boundary_node"@)),
                    ("id"@, Json::Number(n.id as int)),
                    ("owner_shard"@, Json::Number(n.owner_shard as int)),
                    ("version"@, Json::Number(n.version as int)),
                    ("labels"@, texts_say(views(n.labels@))),
                    ("properties"@, properties_say(n.properties@)),
                ],
            ),
        ),
{
    let t0 = seq!['{'];
    let f0 = Seq::<(Seq<char>, Json)>::empty();
    lemma_begin(t0);
    let k1 = key_of(true, "kind"@);
    let v1 = seq!['"'] + "boundary_node"@ + seq!['"'];
    let j1 = Json::Text("boundary_node"@);
    assert(reads(v1, j1)) by {
        plain_boundary_node();
        lemma_plain("boundary_node"@);
        quoted_texts_say_the_text("boundary_node"@);
    }
    plain_kind();
    lemma_field(t0, f0, k1, "kind"@, v1, j1);
    let t1 = t0 + k1 + v1;
    let f1 = f0.push(("kind"@, j1));
    let k2 = key_of(false, "id"@);
    let v2 = dec(n.id as nat);
    let j2 = Json::Number(n.id as int);
    assert(reads(v2, j2)) by {
        decimals_say_the_number(n.id as nat);
    }
    plain_id();
    lemma_field(t1, f1, k2, "id"@, v2, j2);
    let t2 = t1 + k2 + v2;
    let f2 = f1.push(("id"@, j2));
    piece_kind_boundary_node_id();
    assert(t0 + (Seq::<char>::empty() + key_of(true, "kind"@) + (seq!['"'] + "boundary_node"@ + seq!['"'])) =~= t1);
    lemma_first("{\"kind\":\"boundary_node\",\"id\":"@, t1, (Seq::<char>::empty() + key_of(true, "kind"@) + (seq!['"'] + "boundary_node"@ + seq!['"'])), k2, Seq::<char>::empty(), dec(n.id as nat), Seq::<char>::empty(), v2);
    let o2 = "{\"kind\":\"boundary_node\",\"id\":"@ + dec(n.id as nat);
    let k3 = key_of(false, "owner_shard"@);
    let v3 = dec(n.owner_shard as nat);
    let j3 = Json::Number(n.owner_shard as int);
    assert(reads(v3, j3)) by {
        decimals_say_the_number(n.owner_shard as nat);
    }
    plain_owner_shard();
    lemma_field(t2, f2, k3, "owner_shard"@, v3, j3);
    let t3 = t2 + k3 + v3;
    let f3 = f2.push(("owner_shard"@, j3));
    piece_then_owner_shard();
    lemma_grow(o2, t2, t2, ",\"owner_shard\":"@, Seq::<char>::empty(), Seq::<char>::empty(), k3, Seq::<char>::empty(), dec(n.owner_shard as nat), Seq::<char>::empty(), v3);
    let o3 = o2 + ",\"owner_shard\":"@ + dec(n.owner_shard as nat);
    let k4 = key_of(false, "version"@);
    let v4 = dec(n.version as nat);
    let j4 = Json::Number(n.version as int);
    assert(reads(v4, j4)) by {
        decimals_say_the_number(n.version as nat);
    }
    plain_version();
    lemma_field(t3, f3, k4, "version"@, v4, j4);
    let t4 = t3 + k4 + v4;
    let f4 = f3.push(("version"@, j4));
    piece_then_version();
    lemma_grow(o3, t3, t3, ",\"version\":"@, Seq::<char>::empty(), Seq::<char>::empty(), k4, Seq::<char>::empty(), dec(n.version as nat), Seq::<char>::empty(), v4);
    let o4 = o3 + ",\"version\":"@ + dec(n.version as nat);
    let k5 = key_of(false, "labels"@);
    let v5 = string_array(views(n.labels@));
    let j5 = texts_say(views(n.labels@));
    assert(reads(v5, j5)) by {
        text_lists_say_the_texts(views(n.labels@));
    }
    plain_labels();
    lemma_field(t4, f4, k5, "labels"@, v5, j5);
    let t5 = t4 + k5 + v5;
    let f5 = f4.push(("labels"@, j5));
    piece_then_labels();
    lemma_grow(o4, t4, t4, ",\"labels\":"@, Seq::<char>::empty(), Seq::<char>::empty(), k5, Seq::<char>::empty(), string_array(views(n.labels@)), Seq::<char>::empty(), v5);
    let o5 = o4 + ",\"labels\":"@ + string_array(views(n.labels@));
    let k6 = key_of(false, "properties"@);
    let v6 = properties_text(n.properties@);
    let j6 = properties_say(n.properties@);
    assert(reads(v6, j6)) by {
        named_values_say_what_they_are(vals(n.properties@));
    }
    plain_properties();
    lemma_field(t5, f5, k6, "properties"@, v6, j6);
    let t6 = t5 + k6 + v6;
    let f6 = f5.push(("properties"@, j6));
    piece_then_properties_2();
    lemma_grow(o5, t5, t5, ",\"properties\":"@, Seq::<char>::empty(), Seq::<char>::empty(), k6, Seq::<char>::empty(), properties_text(n.properties@), Seq::<char>::empty(), v6);
    let o6 = o5 + ",\"properties\":"@ + properties_text(n.properties@);
    piece_then_end();
    lemma_end(o6, t6, t6, "}"@, Seq::<char>::empty(), Seq::<char>::empty());
    lemma_close(t6, f6);
    let fs = seq![
        ("kind"@, Json::Text("boundary_node"@)),
        ("id"@, Json::Number(n.id as int)),
        ("owner_shard"@, Json::Number(n.owner_shard as int)),
        ("version"@, Json::Number(n.version as int)),
        ("labels"@, texts_say(views(n.labels@))),
        ("properties"@, properties_say(n.properties@)),
    ];
    assert(f6 =~= fs);
}

/// A node of the shown graph says its identifier, labels and properties.
pub proof fn shown_nodes_say_what_they_are(n: NodeValue)
    ensures
        reads(
            node_text(n),
            Json::Fields(
                seq![
                    ("id"@, Json::Number(n.id as int)),
                    ("labels"@, texts_say(views(n.labels@))),
                    ("properties"@, properties_say(n.properties@)),
                ],
            ),
        ),
{
    let t0 = seq!['{'];
    let f0 = Seq::<(Seq<char>, Json)>::empty();
    lemma_begin(t0);
    let k1 = key_of(true, "id"@);
    let v1 = dec(n.id as nat);
    let j1 = Json::Number(n.id as int);
    assert(reads(v1, j1)) by {
        decimals_say_the_number(n.id as nat);
    }
    plain_id();
    lemma_field(t0, f0, k1, "id"@, v1, j1);
    let t1 = t0 + k1 + v1;
    let f1 = f0.push(("id"@, j1));
    piece_id();
    lemma_first("{\"id\":"@, t0, Seq::<char>::empty(), k1, Seq::<char>::empty(), dec(n.id as nat), Seq::<char>::empty(), v1);
    let o1 = "{\"id\":"@ + dec(n.id as nat);
    let k2 = key_of(false, "labels"@);
    let v2 = string_array(views(n.labels@));
    let j2 = texts_say(views(n.labels@));
    assert(reads(v2, j2)) by {
        text_lists_say_the_texts(views(n.labels@));
    }
    plain_labels();
    lemma_field(t1, f1, k2, "labels"@, v2, j2);
    let t2 = t1 + k2 + v2;
    let f2 = f1.push(("labels"@, j2));
    piece_then_labels();
    lemma_grow(o1, t1, t1, ",\"labels\":"@, Seq::<char>::empty(), Seq::<char>::empty(), k2, Seq::<char>::empty(), string_array(views(n.labels@)), Seq::<char>::empty(), v2);
    let o2 = o1 + ",\"labels\":"@ + string_array(views(n.labels@));
    let k3 = key_of(false, "properties"@);
    let v3 = properties_text(n.properties@);
    let j3 = properties_say(n.properties@);
    assert(reads(v3, j3)) by {
        named_values_say_what_they_are(vals(n.properties@));
    }
    plain_properties();
    lemma_field(t2, f2, k3, "properties"@, v3, j3);
    let t3 = t2 + k3 + v3;
    let f3 = f2.push(("properties"@, j3));
    piece_then_properties_2();
    lemma_grow(o2, t2, t2, ",\"properties\":"@, Seq::<char>::empty(), Seq::<char>::empty(), k3, Seq::<char>::empty(), properties_text(n.properties@), Seq::<char>::empty(), v3);
    let o3 = o2 + ",\"properties\":"@ + properties_text(n.properties@);
    piece_then_end();
    lemma_end(o3, t3, t3, "}"@, Seq::<char>::empty(), Seq::<char>::empty());
    lemma_close(t3, f3);
    let fs = seq![
        ("id"@, Json::Number(n.id as int)),
        ("labels"@, texts_say(views(n.labels@))),
        ("properties"@, properties_say(n.properties@)),
    ];
    assert(f3 =~= fs);
}

/// A relationship of the shown graph says from which node to which node it leads, and its
/// identifier, type and properties.
pub proof fn shown_relationships_keep_their_direction(r: RelationshipValue)
    ensures
        reads(
            relationship_text(r),
            Json::Fields(
                seq![
                    ("id"@, Json::Number(r.id as int)),
                    ("from"@, Json::Number(r.from as int)),
                    ("to"@, Json::Number(r.to as int)),
                    ("type"@, Json::Text(r.rel_type@)),
                    ("properties"@, properties_say(r.properties@)),
                ],
            ),
        ),
{
    let t0 = seq!['{'];
    let f0 = Seq::<(Seq<char>, Json)>::empty();
    lemma_begin(t0);
    let k1 = key_of(true, "id"@);
    let v1 = dec(r.id as nat);
    let j1 = Json::Number(r.id as int);
    assert(reads(v1, j1)) by {
        decimals_say_the_number(r.id as nat);
    }
    plain_id();
    lemma_field(t0, f0, k1, "id"@, v1, j1);
    let t1 = t0 + k1 + v1;
    let f1 = f0.push(("id"@, j1));
    piece_id();
    lemma_first("{\"id\":"@, t0, Seq::<char>::empty(), k1, Seq::<char>::empty(), dec(r.id as nat), Seq::<char>::empty(), v1);
    let o1 = "{\"id\":"@ + dec(r.id as nat);
    let k2 = key_of(false, "from"@);
    let v2 = dec(r.from as nat);
    let j2 = Json::Number(r.from as int);
    assert(reads(v2, j2)) by {
        decimals_say_the_number(r.from as nat);
    }
    plain_from();
    lemma_field(t1, f1, k2, "from"@, v2, j2);
    let t2 = t1 + k2 + v2;
    let f2 = f1.push(("from"@, j2));
    piece_then_from();
    lemma_grow(o1, t1, t1, ",\"from\":"@, Seq::<char>::empty(), Seq::<char>::empty(), k2, Seq::<char>::empty(), dec(r.from as nat), Seq::<char>::empty(), v2);
    let o2 = o1 + ",\"from\":"@ + dec(r.from as nat);
    let k3 = key_of(false, "to"@);
    let v3 = dec(r.to as nat);
    let j3 = Json::Number(r.to as int);
    assert(reads(v3, j3)) by {
        decimals_say_the_number(r.to as nat);
    }
    plain_to();
    lemma_field(t2, f2, k3, "to"@, v3, j3);
    let t3 = t2 + k3 + v3;
    let f3 = f2.push(("to"@, j3));
    piece_then_to();
    lemma_grow(o2, t2, t2, ",\"to\":"@, Seq::<char>::empty(), Seq::<char>::empty(), k3, Seq::<char>::empty(), dec(r.to as nat), Seq::<char>::empty(), v3);
    let o3 = o2 + ",\"to\":"@ + dec(r.to as nat);
    let k4 = key_of(false, "type"@);
    let v4 = seq!['"'] + json_escaped(r.rel_type@) + seq!['"'];
    let j4 = Json::Text(r.rel_type@);
    assert(reads(v4, j4)) by {
        quoted_texts_say_the_text(r.rel_type@);
    }
    plain_type();
    lemma_field(t3, f3, k4, "type"@, v4, j4);
    let t4 = t3 + k4 + v4;
    let f4 = f3.push(("type"@, j4));
    piece_then_type();
    lemma_grow(o3, t3, t3, ",\"type\":\""@, Seq::<char>::empty(), Seq::<char>::empty(), k4, seq!['"'], json_escaped(r.rel_type@), seq!['"'], v4);
    let o4 = o3 + ",\"type\":\""@ + json_escaped(r.rel_type@);
    let k5 = key_of(false, "properties"@);
    let v5 = properties_text(r.properties@);
    let j5 = properties_say(r.properties@);
    assert(reads(v5, j5)) by {
        named_values_say_what_they_are(vals(r.properties@));
    }
    plain_properties();
    lemma_field(t4, f4, k5, "properties"@, v5, j5);
    let t5 = t4 + k5 + v5;
    let f5 = f4.push(("properties"@, j5));
    piece_then_properties();
    lemma_grow(o4, t4, t4, "\",\"properties\":"@, seq!['"'], Seq::<char>::empty(), k5, Seq::<char>::empty(), properties_text(r.properties@), Seq::<char>::empty(), v5);
    let o5 = o4 + "\",\"properties\":"@ + properties_text(r.properties@);
    piece_then_end();
    lemma_end(o5, t5, t5, "}"@, Seq::<char>::empty(), Seq::<char>::empty());
    lemma_close(t5, f5);
    let fs = seq![
        ("id"@, Json::Number(r.id as int)),
        ("from"@, Json::Number(r.from as int)),
        ("to"@, Json::Number(r.to as int)),
        ("type"@, Json::Text(r.rel_type@)),
        ("properties"@, properties_say(r.properties@)),
    ];
    assert(f5 =~= fs);
}

/// The answer to a query says the names of its columns, its rows in order, and its database.
pub proof fn answers_say_their_rows(rows: Seq<QueryRow>, database: Seq<char>)
    requires
        rows_well_formed(rows),
    ensures
        reads(
            query_body(rows, database),
            Json::Fields(
                seq![
                    ("columns"@, texts_say(names_in_order(columns(rows)))),
                    ("rows"@, Json::List(rows.map_values(|r: QueryRow| row_says(r.values@)))),
                    ("plan"@, Json::Null),
                    ("database"@, Json::Text(database)),
                ],
            ),
        ),
{
    let t0 = seq!['{'];
    let f0 = Seq::<(Seq<char>, Json)>::empty();
    lemma_begin(t0);
    let k1 = key_of(true, "columns"@);
    let v1 = columns_text(rows);
    let j1 = texts_say(names_in_order(columns(rows)));
    assert(reads(v1, j1)) by {
        text_lists_say_the_texts(names_in_order(columns(rows)));
    }
    plain_columns();
    lemma_field(t0, f0, k1, "columns"@, v1, j1);
    let t1 = t0 + k1 + v1;
    let f1 = f0.push(("columns"@, j1));
    piece_columns();
    lemma_first("{\"columns\":"@, t0, Seq::<char>::empty(), k1, Seq::<char>::empty(), columns_text(rows), Seq::<char>::empty(), v1);
    let o1 = "{\"columns\":"@ + columns_text(rows);
    let k2 = key_of(false, "rows"@);
    let v2 = seq!['['] + join(row_texts(rows), ","@) + seq![']'];
    let j2 = Json::List(rows.map_values(|r: QueryRow| row_says(r.values@)));
    assert(reads(v2, j2)) by {
        lemma_rows_say(rows);
    }
    plain_rows();
    lemma_field(t1, f1, k2, "rows"@, v2, j2);
    let t2 = t1 + k2 + v2;
    let f2 = f1.push(("rows"@, j2));
    piece_then_rows();
    lemma_grow(o1, t1, t1, ",\"rows\":["@, Seq::<char>::empty(), Seq::<char>::empty(), k2, seq!['['], join(row_texts(rows), ","@), seq![']'], v2);
    let o2 = o1 + ",\"rows\":["@ + join(row_texts(rows), ","@);
    let k3 = key_of(false, "plan"@);
    let v3 = seq!['n', 'u', 'l', 'l'];
    let j3 = Json::Null;
    assert(reads(v3, j3)) by {
        lemma_constants();
    }
    plain_plan();
    lemma_field(t2, f2, k3, "plan"@, v3, j3);
    let t3 = t2 + k3 + v3;
    let f3 = f2.push(("plan"@, j3));
    let k4 = key_of(false, "database"@);
    let v4 = seq!['"'] + json_escaped(database) + seq!['"'];
    let j4 = Json::Text(database);
    assert(reads(v4, j4)) by {
        quoted_texts_say_the_text(database);
    }
    plain_database();
    lemma_field(t3, f3, k4, "database"@, v4, j4);
    let t4 = t3 + k4 + v4;
    let f4 = f3.push(("database"@, j4));
    piece_then_plan_null_database();
    assert(t2 + (Seq::<char>::empty() + key_of(false, "plan"@) + (seq!['n', 'u', 'l', 'l'])) =~= t3);
    lemma_grow(o2, t2, t3, "],\"plan\":null,\"database\":\""@, seq![']'], (Seq::<char>::empty() + key_of(false, "plan"@) + (seq!['n', 'u', 'l', 'l'])), k4, seq!['"'], json_escaped(database), seq!['"'], v4);
    let o4 = o2 + "],\"plan\":null,\"database\":\""@ + json_escaped(database);
    piece_then_end_2();
    lemma_end(o4, t4, t4, "\"}"@, seq!['"'], Seq::<char>::empty());
    lemma_close(t4, f4);
    let fs = seq![
        ("columns"@, texts_say(names_in_order(columns(rows)))),
        ("rows"@, Json::List(rows.map_values(|r: QueryRow| row_says(r.values@)))),
        ("plan"@, Json::Null),
        ("database"@, Json::Text(database)),
    ];
    assert(f4 =~= fs);
}

/// The shown graph says its nodes and its relationships.
proof fn graphs_say_their_lists(nodes: Seq<QueryRow>, relationships: Seq<QueryRow>, limit: nat, x: Seq<Json>, y: Seq<Json>)
    requires
        reads(seq!['['] + join(shown_nodes(first_rows(nodes, limit)), ","@) + seq![']'], Json::List(x)),
        reads(seq!['['] + join(shown_relationships(first_rows(relationships, limit)), ","@) + seq![']'], Json::List(y)),
    ensures
        reads(
            graph_text(nodes, relationships, limit),
            Json::Fields(
                seq![
                    ("nodes"@, Json::List(x)),
                    ("relationships"@, Json::List(y)),
                ],
            ),
        ),
{
    let t0 = seq!['{'];
    let f0 = Seq::<(Seq<char>, Json)>::empty();
    lemma_begin(t0);
    let k1 = key_of(true, "nodes"@);
    let v1 = seq!['['] + join(shown_nodes(first_rows(nodes, limit)), ","@) + seq![']'];
    let j1 = Json::List(x);
    plain_nodes();
    lemma_field(t0, f0, k1, "nodes"@, v1, j1);
    let t1 = t0 + k1 + v1;
    let f1 = f0.push(("nodes"@, j1));
    piece_nodes();
    lemma_first("{\"nodes\":["@, t0, Seq::<char>::empty(), k1, seq!['['], join(shown_nodes(first_rows(nodes, limit)), ","@), seq![']'], v1);
    let o1 = "{\"nodes\":["@ + join(shown_nodes(first_rows(nodes, limit)), ","@);
    let k2 = key_of(false, "relationships"@);
    let v2 = seq!['['] + join(shown_relationships(first_rows(relationships, limit)), ","@) + seq![']'];
    let j2 = Json::List(y);
    plain_relationships();
    lemma_field(t1, f1, k2, "relationships"@, v2, j2);
    let t2 = t1 + k2 + v2;
    let f2 = f1.push(("relationships"@, j2));
    piece_then_relationships();
    lemma_grow(o1, t1, t1, "],\"relationships\":["@, seq![']'], Seq::<char>::empty(), k2, seq!['['], join(shown_relationships(first_rows(relationships, limit)), ","@), seq![']'], v2);
    let o2 = o1 + "],\"relationships\":["@ + join(shown_relationships(first_rows(relationships, limit)), ","@);
    piece_then_end_3();
    lemma_end(o2, t2, t2, "]}"@, seq![']'], Seq::<char>::empty());
    lemma_close(t2, f2);
    let fs = seq![
        ("nodes"@, Json::List(x)),
        ("relationships"@, Json::List(y)),
    ];
    assert(f2 =~= fs);
}

/// What stands in a row says, as JSON.
pub open spec fn query_value_says(v: QueryValue) -> Json {
    match v {
        QueryValue::Scalar(s) => value_says(val(s)),
        QueryValue::Node(n) => Json::Fields(
            seq![
                ("kind"@, Json::Text("node"@)),
                ("id"@, Json::Number(n.id as int)),
                ("labels"@, texts_say(views(n.labels@))),
                ("properties"@, properties_say(n.properties@)),
            ],
        ),
        QueryValue::BoundaryNode(n) => Json::Fields(
            seq![
                ("kind"@, Json::Text("boundary_node"@)),
                ("id"@, Json::Number(n.id as int)),
                ("owner_shard"@, Json::Number(n.owner_shard as int)),
                ("version"@, Json::Number(n.version as int)),
                ("labels"@, texts_say(views(n.labels@))),
                ("properties"@, properties_say(n.properties@)),
            ],
        ),
        QueryValue::Relationship(r) => Json::Fields(
            seq![
                ("kind"@, Json::Text("relationship"@)),
                ("id"@, Json::Number(r.id as int)),
                ("from"@, Json::Number(r.from as int)),
                ("to"@, Json::Number(r.to as int)),
                ("type"@, Json::Text(r.rel_type@)),
                ("properties"@, properties_say(r.properties@)),
            ],
        ),
    }
}

/// What stands in a row says what it is.
pub proof fn what_stands_in_a_row_says_what_it_is(v: QueryValue)
    ensures
        reads(query_value_text(v), query_value_says(v)),
{
    match v {
        QueryValue::Scalar(s) => {
            values_say_what_they_are(val(s));
        },
        QueryValue::Node(n) => {
            nodes_in_rows_say_what_they_are(n);
        },
        QueryValue::BoundaryNode(n) => {
            boundary_nodes_in_rows_say_what_they_are(n);
        },
        QueryValue::Relationship(r) => {
            relationships_in_rows_keep_their_direction(r);
        },
    }
}

/// What a row says: under each name what stands there.
pub open spec fn row_says(row: Map<Seq<char>, QueryValue>) -> Json {
    Json::Fields(by_name(row.map_values(|v: QueryValue| query_value_says(v))))
}

/// A row says under each of its names what stands there, and has no other names.
pub proof fn rows_say_what_stands_in_them(row: QueryRow)
    requires
        row.values.well_formed(),
    ensures
        reads(row_text(row.values@), row_says(row.values@)),
{
    let m = row.values@;
    let says = |v: QueryValue| query_value_says(v);
    let list = row.values.entries();
    lemma_seen_list(list, query_text_of());
    lemma_seen_list(list, says);
    let texts = m.map_values(query_text_of());
    let jsons = m.map_values(says);
    assert(in_order(seen(list, query_text_of())) && named(seen(list, query_text_of())) == texts);
    assert(in_order(seen(list, says)) && named(seen(list, says)) == jsons);
    assert(texts.dom() =~= jsons.dom());
    assert forall|k: Seq<char>| #[trigger] texts.dom().contains(k) implies reads(
        texts[k],
        jsons[k],
    ) by {
        what_stands_in_a_row_says_what_it_is(m[k]);
    }
    objects_say_what_their_fields_say(texts, jsons);
}

proof fn lemma_rows_say(rows: Seq<QueryRow>)
    requires
        rows_well_formed(rows),
    ensures
        reads(
            seq!['['] + join(row_texts(rows), ","@) + seq![']'],
            Json::List(rows.map_values(|r: QueryRow| row_says(r.values@))),
        ),
{
    let items = rows.map_values(|r: QueryRow| row_says(r.values@));
    let parts = row_texts(rows);
    assert forall|i: int| 0 <= i < items.len() implies reads(parts[i], #[trigger] items[i]) by {
        assert(rows[i].values.well_formed());
        rows_say_what_stands_in_them(rows[i]);
        assert(parts[i] == row_text(rows[i].values@));
    }
    lists_are_read_item_by_item(parts, items);
}

/// The columns of an answer are the names that its rows have: each of them, and no other.
pub proof fn columns_are_the_names_of_the_rows(rows: Seq<QueryRow>, name: Seq<char>)
    ensures
        columns(rows).dom().contains(name) <==> exists|i: int|
            0 <= i < rows.len() && (#[trigger] rows[i]).values@.dom().contains(name),
    decreases rows.len(),
{
    if rows.len() > 0 {
        let front = rows.drop_last();
        columns_are_the_names_of_the_rows(front, name);
        if exists|i: int|
            0 <= i < front.len() && (#[trigger] front[i]).values@.dom().contains(name) {
            let i = choose|i: int|
                0 <= i < front.len() && (#[trigger] front[i]).values@.dom().contains(name);
            assert(rows[i] == front[i]);
        }
        if rows.last().values@.dom().contains(name) {
            assert(rows[rows.len() - 1].values@.dom().contains(name));
        }
        if exists|i: int|
            0 <= i < rows.len() && (#[trigger] rows[i]).values@.dom().contains(name) {
            let i = choose|i: int|
                0 <= i < rows.len() && (#[trigger] rows[i]).values@.dom().contains(name);
            if i < front.len() {
                assert(front[i] == rows[i]);
            }
        }
    }
}

/// As many rows of the graph are shown as the request says, where it says a number, and a
/// thousand otherwise; where there are fewer, all of them.
pub proof fn shown_rows_are_the_first_ones(rows: Seq<QueryRow>, limit: Option<Seq<char>>, i: int)
    ensures
        ({
            let shown = first_rows(rows, graph_limit(limit));
            let most = match limit {
                Some(t) => match number(t, usize::MAX as nat) {
                    Some(n) => n as int,
                    None => 1000,
                },
                None => 1000,
            };
            &&& shown.len() <= most && shown.len() <= rows.len()
            &&& shown.len() == most || shown.len() == rows.len()
            &&& 0 <= i < shown.len() ==> shown[i] == rows[i]
        }),
{
}

/// The places of the rows whose relationships are shown.
proof fn lemma_relationships(rows: Seq<QueryRow>) -> (places: Seq<int>)
    ensures
        places.len() == shown_relationships(rows).len(),
        forall|j: int| 0 <= j < places.len() ==> 0 <= #[trigger] places[j] < rows.len(),
        forall|i: int, j: int|
            0 <= i < j < places.len() ==> #[trigger] places[i] < #[trigger] places[j],
        forall|j: int|
            0 <= j < places.len() ==> relationship_in(rows[#[trigger] places[j]]) is Some
                && shown_relationships(rows)[j] == relationship_text(
                relationship_in(rows[places[j]]).unwrap(),
            ),
        forall|q: int|
            0 <= q < rows.len() && relationship_in(#[trigger] rows[q]) is Some
                ==> places.contains(q),
    decreases rows.len(),
{
    if rows.len() == 0 {
        Seq::empty()
    } else {
        let front = rows.drop_last();
        let before = lemma_relationships(front);
        let n = rows.len() - 1;
        assert(rows.last() == rows[n]);
        let places = if relationship_in(rows[n]) is Some {
            before.push(n)
        } else {
            before
        };
        assert forall|j: int| 0 <= j < places.len() implies relationship_in(
            rows[#[trigger] places[j]],
        ) is Some && shown_relationships(rows)[j] == relationship_text(
            relationship_in(rows[places[j]]).unwrap(),
        ) by {
            if j < before.len() {
                assert(places[j] == before[j]);
                assert(front[before[j]] == rows[before[j]]);
            }
        }
        assert forall|q: int|
            0 <= q < rows.len() && relationship_in(#[trigger] rows[q]) is Some implies places.contains(
            q,
        ) by {
            if q < n {
                assert(front[q] == rows[q]);
                assert(before.contains(q));
                let k = choose|k: int| 0 <= k < before.len() && before[k] == q;
                assert(places[k] == q);
            } else {
                assert(places[places.len() - 1] == n);
            }
        }
        places
    }
}

/// The places of the rows whose nodes are shown: the first row of each node.
proof fn lemma_nodes(rows: Seq<QueryRow>) -> (places: Seq<int>)
    ensures
        places.len() == shown_nodes(rows).len(),
        places.len() == shown_ids(rows).len(),
        forall|j: int| 0 <= j < places.len() ==> 0 <= #[trigger] places[j] < rows.len(),
        forall|i: int, j: int|
            0 <= i < j < places.len() ==> #[trigger] places[i] < #[trigger] places[j],
        forall|j: int|
            0 <= j < places.len() ==> node_in(rows[#[trigger] places[j]]) is Some
                && shown_nodes(rows)[j] == node_text(node_in(rows[places[j]]).unwrap())
                && shown_ids(rows)[j] == node_in(rows[places[j]]).unwrap().id,
        forall|q: int|
            0 <= q < rows.len() && node_in(#[trigger] rows[q]) is Some ==> shown_ids(
                rows,
            ).contains(node_in(rows[q]).unwrap().id),
        forall|i: int, j: int|
            0 <= i < j < places.len() ==> #[trigger] shown_ids(rows)[i]
                != #[trigger] shown_ids(rows)[j],
    decreases rows.len(),
{
    if rows.len() == 0 {
        Seq::empty()
    } else {
        let front = rows.drop_last();
        let before = lemma_nodes(front);
        let n = rows.len() - 1;
        assert(rows.last() == rows[n]);
        let ids = shown_ids(front);
        let fresh = node_in(rows[n]) is Some && !ids.contains(node_in(rows[n]).unwrap().id);
        let places = if fresh {
            before.push(n)
        } else {
            before
        };
        assert forall|j: int| 0 <= j < places.len() implies node_in(rows[#[trigger] places[j]])
            is Some && shown_nodes(rows)[j] == node_text(node_in(rows[places[j]]).unwrap())
            && shown_ids(rows)[j] == node_in(rows[places[j]]).unwrap().id by {
            if j < before.len() {
                assert(places[j] == before[j]);
                assert(front[before[j]] == rows[before[j]]);
            }
        }
        assert forall|q: int|
            0 <= q < rows.len() && node_in(#[trigger] rows[q]) is Some implies shown_ids(
            rows,
        ).contains(node_in(rows[q]).unwrap().id) by {
            let id = node_in(rows[q]).unwrap().id;
            if q < n {
                assert(front[q] == rows[q]);
                assert(ids.contains(id));
                let k = choose|k: int| 0 <= k < ids.len() && ids[k] == id;
                assert(shown_ids(rows)[k] == id);
            } else if ids.contains(id) {
                let k = choose|k: int| 0 <= k < ids.len() && ids[k] == id;
                assert(shown_ids(rows)[k] == id);
            } else {
                assert(shown_ids(rows)[ids.len() as int] == id);
            }
        }
        assert forall|i: int, j: int| 0 <= i < j < places.len() implies #[trigger] shown_ids(
            rows,
        )[i] != #[trigger] shown_ids(rows)[j] by {
            if j < ids.len() {
                assert(shown_ids(rows)[i] == ids[i] && shown_ids(rows)[j] == ids[j]);
            } else {
                assert(shown_ids(rows)[i] == ids[i]);
                assert(ids.contains(ids[i]));
            }
        }
        places
    }
}

/// What a node of the shown graph says.
pub open spec fn shown_node_says(n: NodeValue) -> Json {
    Json::Fields(
        seq![
            ("id"@, Json::Number(n.id as int)),
            ("labels"@, texts_say(views(n.labels@))),
            ("properties"@, properties_say(n.properties@)),
        ],
    )
}

/// What a relationship of the shown graph says.
pub open spec fn shown_relationship_says(r: RelationshipValue) -> Json {
    Json::Fields(
        seq![
            ("id"@, Json::Number(r.id as int)),
            ("from"@, Json::Number(r.from as int)),
            ("to"@, Json::Number(r.to as int)),
            ("type"@, Json::Text(r.rel_type@)),
            ("properties"@, properties_say(r.properties@)),
        ],
    )
}

/// Whether some things are shown at the places of their rows, in order.
pub open spec fn shown_in_order(places: Seq<int>, rows: Seq<QueryRow>) -> bool {
    &&& forall|j: int| 0 <= j < places.len() ==> 0 <= #[trigger] places[j] < rows.len()
    &&& forall|i: int, j: int|
        0 <= i < j < places.len() ==> #[trigger] places[i] < #[trigger] places[j]
}

/// The shown graph says what the rows hold: of the shown rows, each relationship in order, and
/// each node in order, once.
pub proof fn shown_graphs_say_what_the_rows_hold(
    nodes: Seq<QueryRow>,
    relationships: Seq<QueryRow>,
    limit: nat,
) -> (r: (Seq<int>, Seq<int>))
    ensures
        ({
            let ns = first_rows(nodes, limit);
            let rs = first_rows(relationships, limit);
            &&& shown_in_order(r.0, ns)
            &&& shown_in_order(r.1, rs)
            &&& forall|j: int| 0 <= j < r.0.len() ==> node_in(ns[#[trigger] r.0[j]]) is Some
            &&& forall|j: int|
                0 <= j < r.1.len() ==> relationship_in(rs[#[trigger] r.1[j]]) is Some
            &&& forall|i: int, j: int|
                0 <= i < j < r.0.len() ==> node_in(ns[#[trigger] r.0[i]]).unwrap().id != node_in(
                    ns[#[trigger] r.0[j]],
                ).unwrap().id
            &&& forall|q: int|
                0 <= q < ns.len() && node_in(#[trigger] ns[q]) is Some ==> exists|j: int|
                    0 <= j < r.0.len() && node_in(ns[#[trigger] r.0[j]]).unwrap().id == node_in(
                        ns[q],
                    ).unwrap().id
            &&& forall|q: int|
                0 <= q < rs.len() && relationship_in(#[trigger] rs[q]) is Some ==> r.1.contains(q)
            &&& reads(
                graph_text(nodes, relationships, limit),
                Json::Fields(
                    seq![
                        (
                            "nodes"@,
                            Json::List(
                                r.0.map_values(
                                    |p: int| shown_node_says(node_in(ns[p]).unwrap()),
                                ),
                            ),
                        ),
                        (
                            "relationships"@,
                            Json::List(
                                r.1.map_values(
                                    |p: int|
                                        shown_relationship_says(relationship_in(rs[p]).unwrap()),
                                ),
                            ),
                        ),
                    ],
                ),
            )
        }),
{
    let ns = first_rows(nodes, limit);
    let rs = first_rows(relationships, limit);
    let a = lemma_nodes(ns);
    let b = lemma_relationships(rs);
    let x = a.map_values(|p: int| shown_node_says(node_in(ns[p]).unwrap()));
    let y = b.map_values(|p: int| shown_relationship_says(relationship_in(rs[p]).unwrap()));
    assert forall|j: int| 0 <= j < x.len() implies reads(shown_nodes(ns)[j], #[trigger] x[j]) by {
        assert(0 <= a[j] < ns.len());
        shown_nodes_say_what_they_are(node_in(ns[a[j]]).unwrap());
    }
    assert forall|j: int| 0 <= j < y.len() implies reads(
        shown_relationships(rs)[j],
        #[trigger] y[j],
    ) by {
        assert(0 <= b[j] < rs.len());
        shown_relationships_keep_their_direction(relationship_in(rs[b[j]]).unwrap());
    }
    lists_are_read_item_by_item(shown_nodes(ns), x);
    lists_are_read_item_by_item(shown_relationships(rs), y);
    graphs_say_their_lists(nodes, relationships, limit, x, y);
    assert forall|i: int, j: int| 0 <= i < j < a.len() implies node_in(
        ns[#[trigger] a[i]],
    ).unwrap().id != node_in(ns[#[trigger] a[j]]).unwrap().id by {
        assert(shown_ids(ns)[i] != shown_ids(ns)[j]);
    }
    assert forall|q: int| 0 <= q < ns.len() && node_in(#[trigger] ns[q]) is Some implies exists|
        j: int,
    |
        0 <= j < a.len() && node_in(ns[#[trigger] a[j]]).unwrap().id == node_in(ns[q]).unwrap().id by {
        let id = node_in(ns[q]).unwrap().id;
        let j = choose|j: int| 0 <= j < shown_ids(ns).len() && shown_ids(ns)[j] == id;
        assert(node_in(ns[a[j]]).unwrap().id == id);
    }
    (a, b)
}

proof fn plain_relationship()
    ensures
        is_plain("relationship"@),
{
    reveal(is_plain);
    reveal_strlit("relationship");
}

proof fn plain_kind()
    ensures
        is_plain("kind"@),
{
    reveal(is_plain);
    reveal_strlit("kind");
}

proof fn plain_id()
    ensures
        is_plain("id"@),
{
    reveal(is_plain);
    reveal_strlit("id");
}

proof fn plain_from()
    ensures
        is_plain("from"@),
{
    reveal(is_plain);
    reveal_strlit("from");
}

proof fn plain_to()
    ensures
        is_plain("to"@),
{
    reveal(is_plain);
    reveal_strlit("to");
}

proof fn plain_type()
    ensures
        is_plain("type"@),
{
    reveal(is_plain);
    reveal_strlit("type");
}

proof fn plain_properties()
    ensures
        is_plain("properties"@),
{
    reveal(is_plain);
    reveal_strlit("properties");
}

proof fn plain_node()
    ensures
        is_plain("node"@),
{
    reveal(is_plain);
    reveal_strlit("node");
}

proof fn plain_labels()
    ensures
        is_plain("labels"@),
{
    reveal(is_plain);
    reveal_strlit("labels");
}

proof fn plain_boundary_node()
    ensures
        is_plain("boundary_node"@),
{
    reveal(is_plain);
    reveal_strlit("boundary_node");
}

proof fn plain_owner_shard()
    ensures
        is_plain("owner_shard"@),
{
    reveal(is_plain);
    reveal_strlit("owner_shard");
}

proof fn plain_version()
    ensures
        is_plain("version"@),
{
    reveal(is_plain);
    reveal_strlit("version");
}

proof fn plain_columns()
    ensures
        is_plain("columns"@),
{
    reveal(is_plain);
    reveal_strlit("columns");
}

proof fn plain_rows()
    ensures
        is_plain("rows"@),
{
    reveal(is_plain);
    reveal_strlit("rows");
}

proof fn plain_plan()
    ensures
        is_plain("plan"@),
{
    reveal(is_plain);
    reveal_strlit("plan");
}

proof fn plain_database()
    ensures
        is_plain("database"@),
{
    reveal(is_plain);
    reveal_strlit("database");
}

proof fn plain_nodes()
    ensures
        is_plain("nodes"@),
{
    reveal(is_plain);
    reveal_strlit("nodes");
}

proof fn plain_relationships()
    ensures
        is_plain("relationships"@),
{
    reveal(is_plain);
    reveal_strlit("relationships");
}

proof fn piece_kind_relationship_id()
    ensures
        "{\"kind\":\"relationship\",\"id\":"@ == seq!['{'] + (Seq::<char>::empty() + key_of(true, "kind"@) + (seq!['"'] + "relationship"@ + seq!['"'])) + key_of(false, "id"@) + Seq::<char>::empty(),
{
    reveal(key_of);
    reveal_strlit("{\"kind\":\"relationship\",\"id\":");
    reveal_strlit("kind");
    reveal_strlit("relationship");
    reveal_strlit("id");
    assert("{\"kind\":\"relationship\",\"id\":"@ =~= seq!['{'] + (Seq::<char>::empty() + key_of(true, "kind"@) + (seq!['"'] + "relationship"@ + seq!['"'])) + key_of(false, "id"@) + Seq::<char>::empty());
}

proof fn piece_then_from()
    ensures
        ",\"from\":"@ == Seq::<char>::empty() + Seq::<char>::empty() + key_of(false, "from"@) + Seq::<char>::empty(),
{
    reveal(key_of);
    reveal_strlit(",\"from\":");
    reveal_strlit("from");
    assert(",\"from\":"@ =~= Seq::<char>::empty() + Seq::<char>::empty() + key_of(false, "from"@) + Seq::<char>::empty());
}

proof fn piece_then_to()
    ensures
        ",\"to\":"@ == Seq::<char>::empty() + Seq::<char>::empty() + key_of(false, "to"@) + Seq::<char>::empty(),
{
    reveal(key_of);
    reveal_strlit(",\"to\":");
    reveal_strlit("to");
    assert(",\"to\":"@ =~= Seq::<char>::empty() + Seq::<char>::empty() + key_of(false, "to"@) + Seq::<char>::empty());
}

proof fn piece_then_type()
    ensures
        ",\"type\":\""@ == Seq::<char>::empty() + Seq::<char>::empty() + key_of(false, "type"@) + seq!['"'],
{
    reveal(key_of);
    reveal_strlit(",\"type\":\"");
    reveal_strlit("type");
    assert(",\"type\":\""@ =~= Seq::<char>::empty() + Seq::<char>::empty() + key_of(false, "type"@) + seq!['"']);
}

proof fn piece_then_properties()
    ensures
        "\",\"properties\":"@ == seq!['"'] + Seq::<char>::empty() + key_of(false, "properties"@) + Seq::<char>::empty(),
{
    reveal(key_of);
    reveal_strlit("\",\"properties\":");
    reveal_strlit("properties");
    assert("\",\"properties\":"@ =~= seq!['"'] + Seq::<char>::empty() + key_of(false, "properties"@) + Seq::<char>::empty());
}

proof fn piece_then_end()
    ensures
        "}"@ == Seq::<char>::empty() + Seq::<char>::empty() + seq!['}'],
{
    reveal(key_of);
    reveal_strlit("}");
    assert("}"@ =~= Seq::<char>::empty() + Seq::<char>::empty() + seq!['}']);
}

proof fn piece_kind_node_id()
    ensures
        "{\"kind\":\"node\",\"id\":"@ == seq!['{'] + (Seq::<char>::empty() + key_of(true, "kind"@) + (seq!['"'] + "node"@ + seq!['"'])) + key_of(false, "id"@) + Seq::<char>::empty(),
{
    reveal(key_of);
    reveal_strlit("{\"kind\":\"node\",\"id\":");
    reveal_strlit("kind");
    reveal_strlit("node");
    reveal_strlit("id");
    assert("{\"kind\":\"node\",\"id\":"@ =~= seq!['{'] + (Seq::<char>::empty() + key_of(true, "kind"@) + (seq!['"'] + "node"@ + seq!['"'])) + key_of(false, "id"@) + Seq::<char>::empty());
}

proof fn piece_then_labels()
    ensures
        ",\"labels\":"@ == Seq::<char>::empty() + Seq::<char>::empty() + key_of(false, "labels"@) + Seq::<char>::empty(),
{
    reveal(key_of);
    reveal_strlit(",\"labels\":");
    reveal_strlit("labels");
    assert(",\"labels\":"@ =~= Seq::<char>::empty() + Seq::<char>::empty() + key_of(false, "labels"@) + Seq::<char>::empty());
}

proof fn piece_then_properties_2()
    ensures
        ",\"properties\":"@ == Seq::<char>::empty() + Seq::<char>::empty() + key_of(false, "properties"@) + Seq::<char>::empty(),
{
    reveal(key_of);
    reveal_strlit(",\"properties\":");
    reveal_strlit("properties");
    assert(",\"properties\":"@ =~= Seq::<char>::empty() + Seq::<char>::empty() + key_of(false, "properties"@) + Seq::<char>::empty());
}

proof fn piece_kind_boundary_node_id()
    ensures
        "{\"kind\":\"boundary_node\",\"id\":"@ == seq!['{'] + (Seq::<char>::empty() + key_of(true, "kind"@) + (seq!['"'] + "boundary_node"@ + seq!['"'])) + key_of(false, "id"@) + Seq::<char>::empty(),
{
    reveal(key_of);
    reveal_strlit("{\"kind\":\"boundary_node\",\"id\":");
    reveal_strlit("kind");
    reveal_strlit("boundary_node");
    reveal_strlit("id");
    assert("{\"kind\":\"boundary_node\",\"id\":"@ =~= seq!['{'] + (Seq::<char>::empty() + key_of(true, "kind"@) + (seq!['"'] + "boundary_node"@ + seq!['"'])) + key_of(false, "id"@) + Seq::<char>::empty());
}

proof fn piece_then_owner_shard()
    ensures
        ",\"owner_shard\":"@ == Seq::<char>::empty() + Seq::<char>::empty() + key_of(false, "owner_shard"@) + Seq::<char>::empty(),
{
    reveal(key_of);
    reveal_strlit(",\"owner_shard\":");
    reveal_strlit("owner_shard");
    assert(",\"owner_shard\":"@ =~= Seq::<char>::empty() + Seq::<char>::empty() + key_of(false, "owner_shard"@) + Seq::<char>::empty());
}

proof fn piece_then_version()
    ensures
        ",\"version\":"@ == Seq::<char>::empty() + Seq::<char>::empty() + key_of(false, "version"@) + Seq::<char>::empty(),
{
    reveal(key_of);
    reveal_strlit(",\"version\":");
    reveal_strlit("version");
    assert(",\"version\":"@ =~= Seq::<char>::empty() + Seq::<char>::empty() + key_of(false, "version"@) + Seq::<char>::empty());
}

proof fn piece_id()
    ensures
        "{\"id\":"@ == seq!['{'] + Seq::<char>::empty() + key_of(true, "id"@) + Seq::<char>::empty(),
{
    reveal(key_of);
    reveal_strlit("{\"id\":");
    reveal_strlit("id");
    assert("{\"id\":"@ =~= seq!['{'] + Seq::<char>::empty() + key_of(true, "id"@) + Seq::<char>::empty());
}

proof fn piece_columns()
    ensures
        "{\"columns\":"@ == seq!['{'] + Seq::<char>::empty() + key_of(true, "columns"@) + Seq::<char>::empty(),
{
    reveal(key_of);
    reveal_strlit("{\"columns\":");
    reveal_strlit("columns");
    assert("{\"columns\":"@ =~= seq!['{'] + Seq::<char>::empty() + key_of(true, "columns"@) + Seq::<char>::empty());
}

proof fn piece_then_rows()
    ensures
        ",\"rows\":["@ == Seq::<char>::empty() + Seq::<char>::empty() + key_of(false, "rows"@) + seq!['['],
{
    reveal(key_of);
    reveal_strlit(",\"rows\":[");
    reveal_strlit("rows");
    assert(",\"rows\":["@ =~= Seq::<char>::empty() + Seq::<char>::empty() + key_of(false, "rows"@) + seq!['[']);
}

proof fn piece_then_plan_null_database()
    ensures
        "],\"plan\":null,\"database\":\""@ == seq![']'] + (Seq::<char>::empty() + key_of(false, "plan"@) + (seq!['n', 'u', 'l', 'l'])) + key_of(false, "database"@) + seq!['"'],
{
    reveal(key_of);
    reveal_strlit("],\"plan\":null,\"database\":\"");
    reveal_strlit("plan");
    reveal_strlit("database");
    assert("],\"plan\":null,\"database\":\""@ =~= seq![']'] + (Seq::<char>::empty() + key_of(false, "plan"@) + (seq!['n', 'u', 'l', 'l'])) + key_of(false, "database"@) + seq!['"']);
}

proof fn piece_then_end_2()
    ensures
        "\"}"@ == seq!['"'] + Seq::<char>::empty() + seq!['}'],
{
    reveal(key_of);
    reveal_strlit("\"}");
    assert("\"}"@ =~= seq!['"'] + Seq::<char>::empty() + seq!['}']);
}

proof fn piece_nodes()
    ensures
        "{\"nodes\":["@ == seq!['{'] + Seq::<char>::empty() + key_of(true, "nodes"@) + seq!['['],
{
    reveal(key_of);
    reveal_strlit("{\"nodes\":[");
    reveal_strlit("nodes");
    assert("{\"nodes\":["@ =~= seq!['{'] + Seq::<char>::empty() + key_of(true, "nodes"@) + seq!['[']);
}

proof fn piece_then_relationships()
    ensures
        "],\"relationships\":["@ == seq![']'] + Seq::<char>::empty() + key_of(false, "relationships"@) + seq!['['],
{
    reveal(key_of);
    reveal_strlit("],\"relationships\":[");
    reveal_strlit("relationships");
    assert("],\"relationships\":["@ =~= seq![']'] + Seq::<char>::empty() + key_of(false, "relationships"@) + seq!['[']);
}

proof fn piece_then_end_3()
    ensures
        "]}"@ == seq![']'] + Seq::<char>::empty() + seq!['}'],
{
    reveal(key_of);
    reveal_strlit("]}");
    assert("]}"@ =~= seq![']'] + Seq::<char>::empty() + seq!['}']);
}

} // verus!
