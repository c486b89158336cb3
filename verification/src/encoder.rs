//! The envelope encoder: a pure transformation of a finalized change record
//! into the canonical three-tier change envelope.
//!
//! The envelope is a JSON object, outermost to innermost: the envelope itself
//! (`op`, `payload`, `reactivatorStart_ns`, `reactivatorEnd_ns`, and
//! `metadata` only when the record carries some), the payload (the encoded
//! element under `after` or `before`, then `source`), and the source
//! descriptor (`db`, `lsn`, `table`, `ts_ns`). The spec functions here state
//! the exact shape, field for field; the exec functions build it and are
//! proved against them.
//!
//! The source identifier is injected by the caller: the surrounding process
//! resolves it from its configuration and passes it in, so encoding itself
//! stays deterministic.

use vstd::prelude::*;
use crate::json::{fields_view, items_view, lemma_fields_view, lemma_items_view, Json, JsonValue};
use crate::model::{ChangeOp, SourceChange, SourceElement};
use crate::render::{json_text_of, render_json};

verus! {

/// The single-character wire tag of an operation kind.
pub open spec fn op_tag(op: ChangeOp) -> Seq<char> {
    match op {
        ChangeOp::Create => "i"@,
        ChangeOp::Update => "u"@,
        ChangeOp::Delete => "d"@,
    }
}

/// The name of the payload's element field: `after` for Create and Update,
/// `before` for Delete.
pub open spec fn element_field_name(op: ChangeOp) -> Seq<char> {
    match op {
        ChangeOp::Delete => "before"@,
        _ => "after"@,
    }
}

/// The source descriptor's `table` value, decided by the element kind alone.
pub open spec fn table_name(element: SourceElement) -> Seq<char> {
    if element is Node {
        "node"@
    } else {
        "rel"@
    }
}

/// The source descriptor's `db` value: the configured source identifier when
/// set, else the literal `drasi`.
pub open spec fn db_name(source_id: Option<String>) -> Seq<char> {
    match source_id {
        Option::Some(s) => s@,
        Option::None => "drasi"@,
    }
}

/// The model of a label list: each label as a JSON string, in order.
pub open spec fn labels_view(labels: Seq<String>) -> Seq<Json> {
    Seq::new(labels.len(), |i: int| Json::Text(labels[i]@))
}

/// The identifier of a captured element, whichever kind it is.
pub open spec fn element_id(element: SourceElement) -> Seq<char> {
    match element {
        SourceElement::Node { id, .. } => id@,
        SourceElement::Relation { id, .. } => id@,
    }
}

/// The encoded element's fields: `id`, `labels`, `properties`, and for a
/// relationship also `startId` and `endId`. There is no explicit kind
/// discriminator; the extra two fields and the source descriptor's `table`
/// tell the kinds apart.
pub open spec fn element_fields(element: SourceElement) -> Seq<(Seq<char>, Json)> {
    match element {
        SourceElement::Node { id, labels, properties } => seq![
            ("id"@, Json::Text(id@)),
            ("labels"@, Json::Array(labels_view(labels@))),
            ("properties"@, Json::Object(fields_view(properties@))),
        ],
        SourceElement::Relation { id, labels, properties, start_id, end_id } => seq![
            ("id"@, Json::Text(id@)),
            ("labels"@, Json::Array(labels_view(labels@))),
            ("properties"@, Json::Object(fields_view(properties@))),
            ("startId"@, Json::Text(start_id@)),
            ("endId"@, Json::Text(end_id@)),
        ],
    }
}

/// The source descriptor's fields, in order.
pub open spec fn source_fields(
    sequence: u64,
    element: SourceElement,
    source_ns: u128,
    source_id: Option<String>,
) -> Seq<(Seq<char>, Json)> {
    seq![
        ("db"@, Json::Text(db_name(source_id))),
        ("lsn"@, Json::Int(sequence as int)),
        ("table"@, Json::Text(table_name(element))),
        ("ts_ns"@, Json::Int(source_ns as int)),
    ]
}

/// The payload's fields: the encoded element under its operation-dependent
/// name, then the source descriptor.
pub open spec fn payload_fields(rec: SourceChange, source_id: Option<String>) -> Seq<
    (Seq<char>, Json),
> {
    seq![
        (element_field_name(rec.op), Json::Object(element_fields(rec.element))),
        (
            "source"@,
            Json::Object(source_fields(rec.sequence, rec.element, rec.source_ns, source_id)),
        ),
    ]
}

/// The envelope's fields. `metadata` is appended only when the record carries
/// some; a record without metadata yields an envelope without the key.
pub open spec fn envelope_fields(rec: SourceChange, source_id: Option<String>) -> Seq<
    (Seq<char>, Json),
> {
    let base = seq![
        ("op"@, Json::Text(op_tag(rec.op))),
        ("payload"@, Json::Object(payload_fields(rec, source_id))),
        ("reactivatorStart_ns"@, Json::Int(rec.reactivator_start_ns as int)),
        ("reactivatorEnd_ns"@, Json::Int(rec.reactivator_end_ns as int)),
    ];
    match rec.metadata {
        Option::Some(m) => base.push(("metadata"@, Json::Object(fields_view(m@)))),
        Option::None => base,
    }
}

/// The whole envelope as one JSON document.
pub open spec fn envelope_json(rec: SourceChange, source_id: Option<String>) -> Json {
    Json::Object(envelope_fields(rec, source_id))
}

/// Renders a label list as a JSON array of strings.
fn encode_labels(labels: Vec<String>) -> (r: JsonValue)
    ensures
        r.deep_view() == Json::Array(labels_view(labels@)),
{
    let mut items: Vec<JsonValue> = Vec::new();
    let mut i: usize = 0;
    while i < labels.len()
        invariant
            i <= labels.len(),
            items_view(items@) =~= labels_view(labels@.subrange(0, i as int)),
        decreases labels.len() - i,
    {
        proof {
            lemma_items_view(items@);
        }
        let label = labels[i].clone();
        items.push(JsonValue::Text(label));
        i = i + 1;
        proof {
            lemma_items_view(items@);
            assert(items_view(items@).len() == i);
            assert forall|j: int| 0 <= j < i implies items_view(items@)[j] == labels_view(
                labels@.subrange(0, i as int),
            )[j] by {
                assert(labels_view(labels@.subrange(0, i as int))[j] == Json::Text(
                    labels@.subrange(0, i as int)[j]@,
                ));
                assert(labels@.subrange(0, i as int)[j] == labels@[j]);
                assert(items_view(items@)[j] == items@[j].deep_view());
                if j < i - 1 {
                    assert(items@[j].deep_view() == labels_view(
                        labels@.subrange(0, i as int - 1),
                    )[j]);
                }
            }
            assert(items_view(items@) =~= labels_view(labels@.subrange(0, i as int)));
        }
    }
    proof {
        assert(labels@.subrange(0, labels@.len() as int) =~= labels@);
    }
    JsonValue::Array(items)
}

/// Renders a captured element as its encoded JSON object.
fn encode_element(element: SourceElement) -> (r: JsonValue)
    ensures
        r.deep_view() == Json::Object(element_fields(element)),
{
    match element {
        SourceElement::Node { id, labels, properties } => {
            let ghost e = SourceElement::Node { id, labels, properties };
            let mut fields: Vec<(String, JsonValue)> = Vec::new();
            fields.push((String::from_str("id"), JsonValue::Text(id)));
            fields.push((String::from_str("labels"), encode_labels(labels)));
            fields.push((String::from_str("properties"), JsonValue::Object(properties)));
            proof {
                lemma_fields_view(fields@);
                assert(fields_view(fields@) =~= element_fields(e));
            }
            JsonValue::Object(fields)
        },
        SourceElement::Relation { id, labels, properties, start_id, end_id } => {
            let ghost e = SourceElement::Relation { id, labels, properties, start_id, end_id };
            let mut fields: Vec<(String, JsonValue)> = Vec::new();
            fields.push((String::from_str("id"), JsonValue::Text(id)));
            fields.push((String::from_str("labels"), encode_labels(labels)));
            fields.push((String::from_str("properties"), JsonValue::Object(properties)));
            fields.push((String::from_str("startId"), JsonValue::Text(start_id)));
            fields.push((String::from_str("endId"), JsonValue::Text(end_id)));
            proof {
                lemma_fields_view(fields@);
                assert(fields_view(fields@) =~= element_fields(e));
            }
            JsonValue::Object(fields)
        },
    }
}

/// Renders the source descriptor.
fn encode_source(sequence: u64, element: &SourceElement, source_ns: u128, source_id: &Option<
    String,
>) -> (r: JsonValue)
    ensures
        r.deep_view() == Json::Object(source_fields(sequence, *element, source_ns, *source_id)),
{
    let db = match source_id {
        Option::Some(s) => s.clone(),
        Option::None => String::from_str("drasi"),
    };
    let table = if matches!(element, SourceElement::Node { .. }) {
        String::from_str("node")
    } else {
        String::from_str("rel")
    };
    let mut fields: Vec<(String, JsonValue)> = Vec::new();
    fields.push((String::from_str("db"), JsonValue::Text(db)));
    fields.push((String::from_str("lsn"), JsonValue::UInt(sequence as u128)));
    fields.push((String::from_str("table"), JsonValue::Text(table)));
    fields.push((String::from_str("ts_ns"), JsonValue::UInt(source_ns)));
    proof {
        lemma_fields_view(fields@);
        assert(fields_view(fields@) =~= source_fields(sequence, *element, source_ns, *source_id));
    }
    JsonValue::Object(fields)
}

/// Encodes a finalized change record as the canonical envelope document.
/// The record is consumed: one record is encoded once and then discarded.
pub fn encode_envelope(rec: SourceChange, source_id: &Option<String>) -> (r: JsonValue)
    ensures
        r.deep_view() == envelope_json(rec, *source_id),
{
    let ghost grec = rec;
    let SourceChange {
        op,
        element,
        metadata,
        reactivator_start_ns,
        reactivator_end_ns,
        source_ns,
        sequence,
    } = rec;
    let tag = match op {
        ChangeOp::Create => String::from_str("i"),
        ChangeOp::Update => String::from_str("u"),
        ChangeOp::Delete => String::from_str("d"),
    };
    let element_name = match op {
        ChangeOp::Delete => String::from_str("before"),
        _ => String::from_str("after"),
    };
    let source = encode_source(sequence, &element, source_ns, source_id);
    let encoded_element = encode_element(element);
    let mut payload: Vec<(String, JsonValue)> = Vec::new();
    payload.push((element_name, encoded_element));
    payload.push((String::from_str("source"), source));
    proof {
        lemma_fields_view(payload@);
        assert(fields_view(payload@) =~= payload_fields(grec, *source_id));
    }
    let mut envelope: Vec<(String, JsonValue)> = Vec::new();
    envelope.push((String::from_str("op"), JsonValue::Text(tag)));
    envelope.push((String::from_str("payload"), JsonValue::Object(payload)));
    envelope.push((String::from_str("reactivatorStart_ns"), JsonValue::UInt(reactivator_start_ns)));
    envelope.push((String::from_str("reactivatorEnd_ns"), JsonValue::UInt(reactivator_end_ns)));
    match metadata {
        Option::Some(m) => {
            envelope.push((String::from_str("metadata"), JsonValue::Object(m)));
        },
        Option::None => {},
    }
    proof {
        lemma_fields_view(envelope@);
        assert(fields_view(envelope@) =~= envelope_fields(grec, *source_id));
    }
    JsonValue::Object(envelope)
}

/// Encodes a finalized change record and serializes the envelope as one JSON
/// text, ready for publication verbatim. Encoding is total: every record
/// yields its envelope's text.
pub fn encode_json(rec: SourceChange, source_id: &Option<String>) -> (r: String)
    ensures
        r@ == json_text_of(envelope_json(rec, *source_id)),
{
    let envelope = encode_envelope(rec, source_id);
    render_json(&envelope)
}

} // verus!
