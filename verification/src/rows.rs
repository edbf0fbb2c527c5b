//! The rows that a query gives, and their form in JSON.

use vstd::prelude::*;

use crate::cypher::names_in_order;
use crate::json::{json_escape, json_escaped, string_array, string_array_json};
use crate::text::{
    cat3, dec, join, join_with, lemma_views_push, number, read_usize, show, views,
};
use crate::text_table::{by_name, lemma_by_name, lemma_seen_list, named, seen, TextTable};
use crate::value::{
    field_texts, object_text, properties_json, val, val_text, val_texts, vals, value_json, Value,
};

verus! {

/// A node of the graph.
pub struct NodeValue {
    pub id: u64,
    pub labels: Vec<String>,
    pub properties: Vec<(String, Value)>,
}

/// A node that another shard owns.
pub struct BoundaryNodeValue {
    pub id: u64,
    pub owner_shard: u64,
    pub version: u64,
    pub labels: Vec<String>,
    pub properties: Vec<(String, Value)>,
}

/// A relationship of the graph.
pub struct RelationshipValue {
    pub id: u64,
    pub from: u64,
    pub to: u64,
    pub rel_type: String,
    pub properties: Vec<(String, Value)>,
}

/// What stands in a row under a name.
pub enum QueryValue {
    Scalar(Value),
    Node(NodeValue),
    BoundaryNode(BoundaryNodeValue),
    Relationship(RelationshipValue),
}

/// A row.
pub struct QueryRow {
    pub values: TextTable<QueryValue>,
}

/// Named values as a JSON object.
pub open spec fn properties_text(properties: Seq<(String, Value)>) -> Seq<char> {
    object_text(val_texts(vals(properties)))
}

/// The JSON form of what stands in a row.
pub open spec fn query_value_text(v: QueryValue) -> Seq<char> {
    match v {
        QueryValue::Scalar(s) => val_text(val(s)),
        QueryValue::Node(n) => "{\"kind\":\"node\",\"id\":"@ + dec(n.id as nat) + ",\"labels\":"@
            + string_array(views(n.labels@)) + ",\"properties\":"@ + properties_text(n.properties@)
            + "}"@,
        QueryValue::BoundaryNode(n) => "{\"kind\":\"boundary_node\",\"id\":"@ + dec(n.id as nat)
            + ",\"owner_shard\":"@ + dec(n.owner_shard as nat) + ",\"version\":"@ + dec(
            n.version as nat,
        ) + ",\"labels\":"@ + string_array(views(n.labels@)) + ",\"properties\":"@
            + properties_text(n.properties@) + "}"@,
        QueryValue::Relationship(r) => "{\"kind\":\"relationship\",\"id\":"@ + dec(r.id as nat)
            + ",\"from\":"@ + dec(r.from as nat) + ",\"to\":"@ + dec(r.to as nat) + ",\"type\":\""@
            + json_escaped(r.rel_type@) + "\",\"properties\":"@ + properties_text(r.properties@)
            + "}"@,
    }
}

/// Writes what stands in a row in JSON.
pub fn query_value_json(value: &QueryValue) -> (r: String)
    ensures
        r@ == query_value_text(*value),
{
    match value {
        QueryValue::Scalar(s) => value_json(s),
        QueryValue::Node(n) => {
            let mut r = "{\"kind\":\"node\",\"id\":".to_owned();
            r.append(show(n.id as u128).as_str());
            r.append(",\"labels\":");
            r.append(string_array_json(n.labels.as_slice()).as_str());
            r.append(",\"properties\":");
            r.append(properties_json(&n.properties).as_str());
            r.append("}");
            r
        },
        QueryValue::BoundaryNode(n) => {
            let mut r = "{\"kind\":\"boundary_node\",\"id\":".to_owned();
            r.append(show(n.id as u128).as_str());
            r.append(",\"owner_shard\":");
            r.append(show(n.owner_shard as u128).as_str());
            r.append(",\"version\":");
            r.append(show(n.version as u128).as_str());
            r.append(",\"labels\":");
            r.append(string_array_json(n.labels.as_slice()).as_str());
            r.append(",\"properties\":");
            r.append(properties_json(&n.properties).as_str());
            r.append("}");
            r
        },
        QueryValue::Relationship(rel) => {
            let mut r = "{\"kind\":\"relationship\",\"id\":".to_owned();
            r.append(show(rel.id as u128).as_str());
            r.append(",\"from\":");
            r.append(show(rel.from as u128).as_str());
            r.append(",\"to\":");
            r.append(show(rel.to as u128).as_str());
            r.append(",\"type\":\"");
            r.append(json_escape(rel.rel_type.as_str()).as_str());
            r.append("\",\"properties\":");
            r.append(properties_json(&rel.properties).as_str());
            r.append("}");
            r
        },
    }
}

/// The JSON form of a value, as a function.
pub open spec fn query_text_of() -> spec_fn(QueryValue) -> Seq<char> {
    |v: QueryValue| query_value_text(v)
}

/// A row as a JSON object, its fields in the order of their names.
pub open spec fn row_text(row: Map<Seq<char>, QueryValue>) -> Seq<char> {
    object_text(row.map_values(query_text_of()))
}

/// Writes a row as a JSON object.
pub fn query_row_json(row: &QueryRow) -> (r: String)
    requires
        row.values.well_formed(),
    ensures
        r@ == row_text(row.values@),
{
    proof {
        lemma_seen_list(row.values.entries(), query_text_of());
    }
    let n: usize = row.values.len();
    let mut parts: Vec<String> = Vec::new();
    let mut i: usize = 0;
    let ghost entries = row.values.entries();
    let ghost all = field_texts(seen(entries, query_text_of()));
    assert(views(parts@) =~= all.take(0));
    while i < n
        invariant
            0 <= i <= n,
            n == entries.len(),
            entries == row.values.entries(),
            all == field_texts(seen(entries, query_text_of())),
            views(parts@) == all.take(i as int),
        decreases n - i,
    {
        let mut part = "\"".to_owned();
        part.append(json_escape(row.values.name_at(i)).as_str());
        part.append("\":");
        part.append(query_value_json(row.values.value_at(i)).as_str());
        assert(all[i as int] == part@);
        proof {
            lemma_views_push(parts@, part);
        }
        parts.push(part);
        assert(all.take(i + 1) =~= all.take(i as int).push(part@));
        i = i + 1;
    }
    assert(all.take(all.len() as int) =~= all);
    cat3("{", join_with(parts.as_slice(), ",").as_str(), "}")
}

/// Whether all rows stand in order.
pub open spec fn rows_well_formed(rows: Seq<QueryRow>) -> bool {
    forall|i: int| 0 <= i < rows.len() ==> (#[trigger] rows[i]).values.well_formed()
}

/// Rows as JSON objects.
pub open spec fn row_texts(rows: Seq<QueryRow>) -> Seq<Seq<char>> {
    rows.map_values(|r: QueryRow| row_text(r.values@))
}

fn rows_json(rows: &[QueryRow]) -> (parts: Vec<String>)
    requires
        rows_well_formed(rows@),
    ensures
        views(parts@) == row_texts(rows@),
{
    let mut parts: Vec<String> = Vec::new();
    let mut i: usize = 0;
    let ghost all = row_texts(rows@);
    assert(views(parts@) =~= all.take(0));
    while i < rows.len()
        invariant
            rows_well_formed(rows@),
            0 <= i <= rows@.len(),
            all == row_texts(rows@),
            views(parts@) == all.take(i as int),
        decreases rows@.len() - i,
    {
        let part = query_row_json(&rows[i]);
        assert(all[i as int] == part@);
        proof {
            lemma_views_push(parts@, part);
        }
        parts.push(part);
        assert(all.take(i + 1) =~= all.take(i as int).push(part@));
        i = i + 1;
    }
    assert(all.take(all.len() as int) =~= all);
    parts
}

/// The names that the first rows have.
pub open spec fn columns(rows: Seq<QueryRow>) -> Map<Seq<char>, ()>
    decreases rows.len(),
{
    if rows.len() == 0 {
        Map::empty()
    } else {
        columns(rows.drop_last()).union_prefer_right(
            rows.last().values@.map_values(|v: QueryValue| ()),
        )
    }
}

/// The names that rows have, as a JSON array, in order.
pub open spec fn columns_text(rows: Seq<QueryRow>) -> Seq<char> {
    string_array(names_in_order(columns(rows)))
}

proof fn lemma_named_prefix(entries: Seq<(Seq<char>, QueryValue)>, i: int)
    requires
        0 <= i < entries.len(),
    ensures
        named(entries.take(i + 1)) == named(entries.take(i)).insert(entries[i].0, entries[i].1),
{
    assert(entries.take(i + 1).drop_last() =~= entries.take(i));
}

fn add_columns(found: &mut TextTable<()>, row: &QueryRow)
    requires
        old(found).well_formed(),
        row.values.well_formed(),
    ensures
        final(found).well_formed(),
        final(found)@ == old(found)@.union_prefer_right(
            row.values@.map_values(|v: QueryValue| ()),
        ),
{
    let n: usize = row.values.len();
    let mut j: usize = 0;
    let ghost start = found@;
    let ghost entries = row.values.entries();
    let ghost unit = |v: QueryValue| ();
    assert(entries.take(0) =~= Seq::<(Seq<char>, QueryValue)>::empty());
    assert(found@ =~= start.union_prefer_right(named(entries.take(0)).map_values(unit)));
    while j < n
        invariant
            0 <= j <= n,
            n == entries.len(),
            entries == row.values.entries(),
            found.well_formed(),
            unit == (|v: QueryValue| ()),
            found@ == start.union_prefer_right(named(entries.take(j as int)).map_values(unit)),
        decreases n - j,
    {
        let ghost before = found@;
        proof {
            lemma_named_prefix(entries, j as int);
        }
        let name = row.values.name_at(j).to_owned();
        found.insert(name, ());
        proof {
            let next = start.union_prefer_right(named(entries.take(j + 1)).map_values(unit));
            assert(found@.dom() =~= next.dom());
            assert(found@ =~= next);
        }
        j = j + 1;
    }
    assert(entries.take(n as int) =~= entries);
}

/// Writes the names that rows have, as a JSON array.
pub fn query_columns_json(rows: &[QueryRow]) -> (r: String)
    requires
        rows_well_formed(rows@),
    ensures
        r@ == columns_text(rows@),
{
    let mut found: TextTable<()> = TextTable::new();
    let mut i: usize = 0;
    assert(rows@.take(0) =~= Seq::<QueryRow>::empty());
    while i < rows.len()
        invariant
            0 <= i <= rows@.len(),
            rows_well_formed(rows@),
            found.well_formed(),
            found@ == columns(rows@.take(i as int)),
        decreases rows@.len() - i,
    {
        assert(rows@.take(i + 1).drop_last() =~= rows@.take(i as int));
        assert(rows@.take(i + 1).last() == rows@[i as int]);
        add_columns(&mut found, &rows[i]);
        i = i + 1;
    }
    assert(rows@.take(rows@.len() as int) =~= rows@);
    proof {
        lemma_by_name(found.entries());
    }
    let n: usize = found.len();
    let mut names: Vec<String> = Vec::new();
    let mut k: usize = 0;
    let ghost all = names_in_order(found@);
    assert(views(names@) =~= all.take(0));
    while k < n
        invariant
            0 <= k <= n,
            n == found.entries().len(),
            found.entries() == by_name(found@),
            all == names_in_order(found@),
            views(names@) == all.take(k as int),
        decreases n - k,
    {
        let name = found.name_at(k).to_owned();
        assert(all[k as int] == name@);
        proof {
            lemma_views_push(names@, name);
        }
        names.push(name);
        assert(all.take(k + 1) =~= all.take(k as int).push(name@));
        k = k + 1;
    }
    assert(all.take(all.len() as int) =~= all);
    string_array_json(names.as_slice())
}

/// The answer to a query: its columns, its rows and its database.
pub open spec fn query_body(rows: Seq<QueryRow>, database: Seq<char>) -> Seq<char> {
    "{\"columns\":"@ + columns_text(rows) + ",\"rows\":["@ + join(row_texts(rows), ","@)
        + "],\"plan\":null,\"database\":\""@ + json_escaped(database) + "\"}"@
}

/// Writes the answer to a query.
pub fn query_result_json(rows: &[QueryRow], database: &str) -> (r: String)
    requires
        rows_well_formed(rows@),
    ensures
        r@ == query_body(rows@, database@),
{
    let mut r = "{\"columns\":".to_owned();
    r.append(query_columns_json(rows).as_str());
    r.append(",\"rows\":[");
    r.append(join_with(rows_json(rows).as_slice(), ",").as_str());
    r.append("],\"plan\":null,\"database\":\"");
    r.append(json_escape(database).as_str());
    r.append("\"}");
    r
}

/// How many rows of the graph are shown: as many as the request says, else a thousand.
pub open spec fn graph_limit(limit: Option<Seq<char>>) -> nat {
    match limit {
        Some(t) => match number(t, usize::MAX as nat) {
            Some(n) => n,
            None => 1000,
        },
        None => 1000,
    }
}

/// A node of the shown graph.
pub open spec fn node_text(n: NodeValue) -> Seq<char> {
    "{\"id\":"@ + dec(n.id as nat) + ",\"labels\":"@ + string_array(views(n.labels@))
        + ",\"properties\":"@ + properties_text(n.properties@) + "}"@
}

/// A relationship of the shown graph.
pub open spec fn relationship_text(r: RelationshipValue) -> Seq<char> {
    "{\"id\":"@ + dec(r.id as nat) + ",\"from\":"@ + dec(r.from as nat) + ",\"to\":"@ + dec(
        r.to as nat,
    ) + ",\"type\":\""@ + json_escaped(r.rel_type@) + "\",\"properties\":"@ + properties_text(
        r.properties@,
    ) + "}"@
}

/// The node that a row has under `n`.
pub open spec fn node_in(row: QueryRow) -> Option<NodeValue> {
    if row.values@.dom().contains("n"@) {
        match row.values@["n"@] {
            QueryValue::Node(n) => Some(n),
            _ => None,
        }
    } else {
        None
    }
}

/// The relationship that a row has under `r`.
pub open spec fn relationship_in(row: QueryRow) -> Option<RelationshipValue> {
    if row.values@.dom().contains("r"@) {
        match row.values@["r"@] {
            QueryValue::Relationship(r) => Some(r),
            _ => None,
        }
    } else {
        None
    }
}

/// The nodes that the first rows show, each once: their identifiers.
pub open spec fn shown_ids(rows: Seq<QueryRow>) -> Seq<u64>
    decreases rows.len(),
{
    if rows.len() == 0 {
        Seq::<u64>::empty()
    } else {
        let before = shown_ids(rows.drop_last());
        match node_in(rows.last()) {
            Some(n) => if before.contains(n.id) {
                before
            } else {
                before.push(n.id)
            },
            None => before,
        }
    }
}

/// The nodes that the first rows show, each once.
pub open spec fn shown_nodes(rows: Seq<QueryRow>) -> Seq<Seq<char>>
    decreases rows.len(),
{
    if rows.len() == 0 {
        Seq::<Seq<char>>::empty()
    } else {
        let before = shown_nodes(rows.drop_last());
        match node_in(rows.last()) {
            Some(n) => if shown_ids(rows.drop_last()).contains(n.id) {
                before
            } else {
                before.push(node_text(n))
            },
            None => before,
        }
    }
}

/// The relationships that the first rows show.
pub open spec fn shown_relationships(rows: Seq<QueryRow>) -> Seq<Seq<char>>
    decreases rows.len(),
{
    if rows.len() == 0 {
        Seq::<Seq<char>>::empty()
    } else {
        let before = shown_relationships(rows.drop_last());
        match relationship_in(rows.last()) {
            Some(r) => before.push(relationship_text(r)),
            None => before,
        }
    }
}

/// The first rows, as many as are shown.
pub open spec fn first_rows(rows: Seq<QueryRow>, limit: nat) -> Seq<QueryRow> {
    if limit < rows.len() {
        rows.take(limit as int)
    } else {
        rows
    }
}

/// The shown graph.
pub open spec fn graph_text(
    nodes: Seq<QueryRow>,
    relationships: Seq<QueryRow>,
    limit: nat,
) -> Seq<char> {
    "{\"nodes\":["@ + join(shown_nodes(first_rows(nodes, limit)), ","@) + "],\"relationships\":["@
        + join(shown_relationships(first_rows(relationships, limit)), ","@) + "]}"@
}

fn node_json(n: &NodeValue) -> (r: String)
    ensures
        r@ == node_text(*n),
{
    let mut r = "{\"id\":".to_owned();
    r.append(show(n.id as u128).as_str());
    r.append(",\"labels\":");
    r.append(string_array_json(n.labels.as_slice()).as_str());
    r.append(",\"properties\":");
    r.append(properties_json(&n.properties).as_str());
    r.append("}");
    r
}

fn relationship_json(rel: &RelationshipValue) -> (r: String)
    ensures
        r@ == relationship_text(*rel),
{
    let mut r = "{\"id\":".to_owned();
    r.append(show(rel.id as u128).as_str());
    r.append(",\"from\":");
    r.append(show(rel.from as u128).as_str());
    r.append(",\"to\":");
    r.append(show(rel.to as u128).as_str());
    r.append(",\"type\":\"");
    r.append(json_escape(rel.rel_type.as_str()).as_str());
    r.append("\",\"properties\":");
    r.append(properties_json(&rel.properties).as_str());
    r.append("}");
    r
}

fn holds_id(ids: &[u64], id: u64) -> (r: bool)
    ensures
        r == ids@.contains(id),
{
    let mut i: usize = 0;
    while i < ids.len()
        invariant
            0 <= i <= ids@.len(),
            forall|j: int| 0 <= j < i ==> ids@[j] != id,
        decreases ids@.len() - i,
    {
        if ids[i] == id {
            return true;
        }
        i = i + 1;
    }
    false
}

fn nodes_json(rows: &[QueryRow], limit: usize) -> (parts: Vec<String>)
    requires
        rows_well_formed(rows@),
    ensures
        views(parts@) == shown_nodes(first_rows(rows@, limit as nat)),
{
    let n: usize = if limit < rows.len() { limit } else { rows.len() };
    let mut ids: Vec<u64> = Vec::new();
    let mut parts: Vec<String> = Vec::new();
    let mut i: usize = 0;
    assert(rows@.take(0) =~= Seq::<QueryRow>::empty());
    assert(views(parts@) =~= shown_nodes(rows@.take(0)));
    while i < n
        invariant
            0 <= i <= n,
            n <= rows@.len(),
            rows_well_formed(rows@),
            ids@ == shown_ids(rows@.take(i as int)),
            views(parts@) == shown_nodes(rows@.take(i as int)),
        decreases n - i,
    {
        assert(rows@.take(i + 1).drop_last() =~= rows@.take(i as int));
        assert(rows@.take(i + 1).last() == rows@[i as int]);
        if let Some(QueryValue::Node(node)) = rows[i].values.get("n") {
            if !holds_id(ids.as_slice(), node.id) {
                ids.push(node.id);
                let part = node_json(node);
                proof {
                    lemma_views_push(parts@, part);
                }
                parts.push(part);
            }
        }
        i = i + 1;
    }
    assert(rows@.take(n as int) =~= first_rows(rows@, limit as nat));
    parts
}

fn relationships_json(rows: &[QueryRow], limit: usize) -> (parts: Vec<String>)
    requires
        rows_well_formed(rows@),
    ensures
        views(parts@) == shown_relationships(first_rows(rows@, limit as nat)),
{
    let n: usize = if limit < rows.len() { limit } else { rows.len() };
    let mut parts: Vec<String> = Vec::new();
    let mut i: usize = 0;
    assert(rows@.take(0) =~= Seq::<QueryRow>::empty());
    assert(views(parts@) =~= shown_relationships(rows@.take(0)));
    while i < n
        invariant
            0 <= i <= n,
            n <= rows@.len(),
            rows_well_formed(rows@),
            views(parts@) == shown_relationships(rows@.take(i as int)),
        decreases n - i,
    {
        assert(rows@.take(i + 1).drop_last() =~= rows@.take(i as int));
        assert(rows@.take(i + 1).last() == rows@[i as int]);
        if let Some(QueryValue::Relationship(rel)) = rows[i].values.get("r") {
            let part = relationship_json(rel);
            proof {
                lemma_views_push(parts@, part);
            }
            parts.push(part);
        }
        i = i + 1;
    }
    assert(rows@.take(n as int) =~= first_rows(rows@, limit as nat));
    parts
}

/// Writes the shown graph: the rows of all nodes and of all relationships, within the limit
/// that the request gives.
pub fn graph_json(node_rows: &[QueryRow], rel_rows: &[QueryRow], limit: &Option<String>) -> (r:
    String)
    requires
        rows_well_formed(node_rows@),
        rows_well_formed(rel_rows@),
    ensures
        r@ == graph_text(node_rows@, rel_rows@, graph_limit(crate::http::opt_text(*limit))),
{
    let limit: usize = match limit {
        Some(t) => match read_usize(t.as_str()) {
            Some(n) => n,
            None => 1000,
        },
        None => 1000,
    };
    let mut r = "{\"nodes\":[".to_owned();
    r.append(join_with(nodes_json(node_rows, limit).as_slice(), ",").as_str());
    r.append("],\"relationships\":[");
    r.append(join_with(relationships_json(rel_rows, limit).as_slice(), ",").as_str());
    r.append("]}");
    r
}

proof fn lemma_shown_ids(rows: Seq<QueryRow>)
    ensures
        shown_ids(rows).no_duplicates(),
        shown_nodes(rows).len() == shown_ids(rows).len(),
    decreases rows.len(),
{
    if rows.len() > 0 {
        lemma_shown_ids(rows.drop_last());
    }
}

/// Every node of the shown graph is shown once.
pub proof fn nodes_are_shown_once(rows: Seq<QueryRow>)
    ensures
        shown_ids(rows).no_duplicates(),
        shown_nodes(rows).len() == shown_ids(rows).len(),
        forall|i: int|
            0 <= i < rows.len() && (#[trigger] node_in(rows[i])) is Some ==> shown_ids(
                rows,
            ).contains(node_in(rows[i]).unwrap().id),
    decreases rows.len(),
{
    lemma_shown_ids(rows);
    if rows.len() > 0 {
        let front = rows.drop_last();
        nodes_are_shown_once(front);
        let ids = shown_ids(rows);
        assert forall|i: int| 0 <= i < rows.len() && (#[trigger] node_in(rows[i])) is Some implies
            ids.contains(node_in(rows[i]).unwrap().id) by {
            let id = node_in(rows[i]).unwrap().id;
            if i < front.len() {
                assert(front[i] == rows[i]);
                assert(shown_ids(front).contains(id));
                let k = choose|k: int| 0 <= k < shown_ids(front).len() && shown_ids(front)[k] == id;
                assert(ids[k] == id);
            } else {
                assert(rows.last() == rows[i]);
                if !shown_ids(front).contains(id) {
                    assert(ids[ids.len() - 1] == id);
                }
            }
        }
    }
}

} // verus!
