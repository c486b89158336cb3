//! The laws the encoded envelope obeys, stated over the spec functions that
//! the encoder's contracts use and proved for every record and every
//! configured source identifier.

use vstd::prelude::*;
use crate::encoder::{
    db_name, element_field_name, element_fields, element_id, envelope_fields, op_tag,
    payload_fields, source_fields, table_name,
};
use crate::json::{
    fields_view, lemma_obj_lookup_absent, lemma_obj_lookup_at, obj_has_key, obj_keys, obj_lookup,
    Json,
};
use crate::model::SourceChange;

verus! {

/// The operation tag on the wire: the envelope's `op` field holds exactly the
/// one-character tag `i`, `u` or `d` for Create, Update and Delete.
pub proof fn lemma_op_tag(rec: SourceChange, source_id: Option<String>)
    ensures
        obj_lookup(envelope_fields(rec, source_id), "op"@) == Some(Json::Text(op_tag(rec.op))),
        rec.op is Create ==> op_tag(rec.op) == seq!['i'],
        rec.op is Update ==> op_tag(rec.op) == seq!['u'],
        rec.op is Delete ==> op_tag(rec.op) == seq!['d'],
{
    reveal_strlit("i");
    reveal_strlit("u");
    reveal_strlit("d");
    assert(seq!['i'] =~= "i"@);
    assert(seq!['u'] =~= "u"@);
    assert(seq!['d'] =~= "d"@);
    lemma_obj_lookup_at(envelope_fields(rec, source_id), "op"@, 0);
}

/// For Create and Update the payload's element field is named `after`; for
/// Delete it is named `before`; the alternate name never appears.
pub proof fn lemma_element_field_name(rec: SourceChange, source_id: Option<String>)
    ensures
        obj_lookup(payload_fields(rec, source_id), element_field_name(rec.op)) == Some(
            Json::Object(element_fields(rec.element)),
        ),
        rec.op is Delete ==> element_field_name(rec.op) == "before"@ && !obj_has_key(
            payload_fields(rec, source_id),
            "after"@,
        ),
        !(rec.op is Delete) ==> element_field_name(rec.op) == "after"@ && !obj_has_key(
            payload_fields(rec, source_id),
            "before"@,
        ),
{
    reveal_strlit("after");
    reveal_strlit("before");
    reveal_strlit("source");
    let fields = payload_fields(rec, source_id);
    assert(fields.len() == 2);
    assert(fields[0].0 == element_field_name(rec.op));
    assert(fields[1].0 == "source"@);
    lemma_obj_lookup_at(fields, element_field_name(rec.op), 0);
    if rec.op is Delete {
        assert(fields[0].0 != "after"@);
        assert(fields[1].0 != "after"@);
        lemma_obj_lookup_absent(fields, "after"@);
    } else {
        assert(fields[0].0 != "before"@);
        assert("source"@[0] == 's' && "before"@[0] == 'b');
        assert(fields[1].0 != "before"@);
        lemma_obj_lookup_absent(fields, "before"@);
    }
}

/// A node encodes to exactly the fields `id`, `labels`, `properties`; a
/// relationship to those and `startId`, `endId`; in that order.
pub proof fn lemma_element_shape(rec: SourceChange, source_id: Option<String>)
    ensures
        rec.element is Node ==> obj_keys(element_fields(rec.element)) == seq![
            "id"@,
            "labels"@,
            "properties"@,
        ],
        rec.element is Relation ==> obj_keys(element_fields(rec.element)) == seq![
            "id"@,
            "labels"@,
            "properties"@,
            "startId"@,
            "endId"@,
        ],
{
    if rec.element is Node {
        assert(obj_keys(element_fields(rec.element)) =~= seq!["id"@, "labels"@, "properties"@]);
    } else {
        assert(obj_keys(element_fields(rec.element)) =~= seq![
            "id"@,
            "labels"@,
            "properties"@,
            "startId"@,
            "endId"@,
        ]);
    }
}

/// The source descriptor's `table` is `node` for a node and `rel` for a
/// relationship: a function of the element kind alone, never of the
/// operation.
pub proof fn lemma_table_name(rec: SourceChange, source_id: Option<String>)
    ensures
        obj_lookup(
            source_fields(rec.sequence, rec.element, rec.source_ns, source_id),
            "table"@,
        ) == Some(Json::Text(table_name(rec.element))),
        rec.element is Node ==> table_name(rec.element) == "node"@,
        rec.element is Relation ==> table_name(rec.element) == "rel"@,
{
    reveal_strlit("db");
    reveal_strlit("lsn");
    reveal_strlit("table");
    let fields = source_fields(rec.sequence, rec.element, rec.source_ns, source_id);
    assert(fields.len() == 4);
    assert(fields[0].0 == "db"@);
    assert(fields[1].0 == "lsn"@);
    assert(fields[2].0 == "table"@);
    assert(fields[0].0 != "table"@);
    assert(fields[1].0 != "table"@);
    lemma_obj_lookup_at(fields, "table"@, 2);
}

/// The source descriptor's `db` is the configured source identifier when one
/// is set, else the literal `drasi`.
pub proof fn lemma_db_name(rec: SourceChange, source_id: Option<String>)
    ensures
        obj_lookup(source_fields(rec.sequence, rec.element, rec.source_ns, source_id), "db"@)
            == Some(Json::Text(db_name(source_id))),
        source_id matches Some(s) ==> db_name(source_id) == s@,
        source_id is None ==> db_name(source_id) == "drasi"@,
{
    lemma_obj_lookup_at(
        source_fields(rec.sequence, rec.element, rec.source_ns, source_id),
        "db"@,
        0,
    );
}

/// The envelope's `reactivatorEnd_ns` is the record's capture-end timestamp:
/// the value of the last finalize, or zero when the record was never
/// finalized.
pub proof fn lemma_reactivator_end(rec: SourceChange, source_id: Option<String>)
    ensures
        obj_lookup(envelope_fields(rec, source_id), "reactivatorEnd_ns"@) == Some(
            Json::Int(rec.reactivator_end_ns as int),
        ),
{
    reveal_strlit("op");
    reveal_strlit("payload");
    reveal_strlit("reactivatorStart_ns");
    reveal_strlit("reactivatorEnd_ns");
    let fields = envelope_fields(rec, source_id);
    assert(fields[0].0 == "op"@);
    assert(fields[1].0 == "payload"@);
    assert(fields[2].0 == "reactivatorStart_ns"@);
    assert(fields[3].0 == "reactivatorEnd_ns"@);
    assert(fields[0].0 != "reactivatorEnd_ns"@);
    assert(fields[1].0 != "reactivatorEnd_ns"@);
    assert(fields[2].0 != "reactivatorEnd_ns"@);
    lemma_obj_lookup_at(fields, "reactivatorEnd_ns"@, 3);
}

/// The `metadata` key appears in the envelope exactly when the record was
/// built with metadata, and then holds the supplied map; a record without
/// metadata yields an envelope without the key, not an empty or null one.
pub proof fn lemma_metadata(rec: SourceChange, source_id: Option<String>)
    ensures
        rec.metadata is None ==> !obj_has_key(envelope_fields(rec, source_id), "metadata"@),
        rec.metadata matches Some(m) ==> obj_lookup(envelope_fields(rec, source_id), "metadata"@)
            == Some(Json::Object(fields_view(m@))),
{
    reveal_strlit("op");
    reveal_strlit("payload");
    reveal_strlit("reactivatorStart_ns");
    reveal_strlit("reactivatorEnd_ns");
    reveal_strlit("metadata");
    let fields = envelope_fields(rec, source_id);
    assert(fields[0].0 == "op"@);
    assert(fields[1].0 == "payload"@);
    assert(fields[2].0 == "reactivatorStart_ns"@);
    assert(fields[3].0 == "reactivatorEnd_ns"@);
    assert(rec.metadata matches Some(m) ==> fields[4].0 == "metadata"@);
    assert(fields[0].0 != "metadata"@);
    assert(fields[1].0 != "metadata"@);
    assert(fields[2].0 != "metadata"@);
    assert(fields[3].0 != "metadata"@);
    match rec.metadata {
        Option::None => {
            lemma_obj_lookup_absent(fields, "metadata"@);
        },
        Option::Some(m) => {
            lemma_obj_lookup_at(fields, "metadata"@, 4);
        },
    }
}

/// Round trip: from the envelope document alone, the operation tag, the
/// payload, the encoded element and its identifier, the source descriptor,
/// the sequence number and both capture timestamps are recovered exactly as
/// the record holds them.
pub proof fn lemma_round_trip(rec: SourceChange, source_id: Option<String>)
    ensures
        obj_lookup(envelope_fields(rec, source_id), "op"@) == Some(Json::Text(op_tag(rec.op))),
        obj_lookup(envelope_fields(rec, source_id), "payload"@) == Some(
            Json::Object(payload_fields(rec, source_id)),
        ),
        obj_lookup(envelope_fields(rec, source_id), "reactivatorStart_ns"@) == Some(
            Json::Int(rec.reactivator_start_ns as int),
        ),
        obj_lookup(envelope_fields(rec, source_id), "reactivatorEnd_ns"@) == Some(
            Json::Int(rec.reactivator_end_ns as int),
        ),
        obj_lookup(payload_fields(rec, source_id), element_field_name(rec.op)) == Some(
            Json::Object(element_fields(rec.element)),
        ),
        obj_lookup(element_fields(rec.element), "id"@) == Some(
            Json::Text(element_id(rec.element)),
        ),
        obj_lookup(payload_fields(rec, source_id), "source"@) == Some(
            Json::Object(source_fields(rec.sequence, rec.element, rec.source_ns, source_id)),
        ),
        obj_lookup(source_fields(rec.sequence, rec.element, rec.source_ns, source_id), "lsn"@)
            == Some(Json::Int(rec.sequence as int)),
{
    reveal_strlit("op");
    reveal_strlit("payload");
    reveal_strlit("reactivatorStart_ns");
    reveal_strlit("reactivatorEnd_ns");
    reveal_strlit("after");
    reveal_strlit("before");
    reveal_strlit("source");
    reveal_strlit("id");
    reveal_strlit("db");
    reveal_strlit("lsn");
    let fields = envelope_fields(rec, source_id);
    assert(fields[0].0 == "op"@);
    assert(fields[1].0 == "payload"@);
    assert(fields[2].0 == "reactivatorStart_ns"@);
    assert(fields[3].0 == "reactivatorEnd_ns"@);
    lemma_obj_lookup_at(fields, "op"@, 0);
    assert(fields[0].0 != "payload"@);
    lemma_obj_lookup_at(fields, "payload"@, 1);
    assert(fields[0].0 != "reactivatorStart_ns"@);
    assert(fields[1].0 != "reactivatorStart_ns"@);
    lemma_obj_lookup_at(fields, "reactivatorStart_ns"@, 2);
    assert(fields[0].0 != "reactivatorEnd_ns"@);
    assert(fields[1].0 != "reactivatorEnd_ns"@);
    assert(fields[2].0 != "reactivatorEnd_ns"@);
    lemma_obj_lookup_at(fields, "reactivatorEnd_ns"@, 3);
    let payload = payload_fields(rec, source_id);
    assert(payload[0].0 == element_field_name(rec.op));
    assert(payload[1].0 == "source"@);
    lemma_obj_lookup_at(payload, element_field_name(rec.op), 0);
    assert("source"@[0] == 's' && "after"@[0] == 'a' && "before"@[0] == 'b');
    assert(payload[0].0 != "source"@);
    lemma_obj_lookup_at(payload, "source"@, 1);
    lemma_obj_lookup_at(element_fields(rec.element), "id"@, 0);
    let source = source_fields(rec.sequence, rec.element, rec.source_ns, source_id);
    assert(source[0].0 == "db"@);
    assert(source[1].0 == "lsn"@);
    assert(source[0].0 != "lsn"@);
    lemma_obj_lookup_at(source, "lsn"@, 1);
}

/// The fields of every tier come in the documented order: the envelope's
/// `op`, `payload`, `reactivatorStart_ns`, `reactivatorEnd_ns` and, only when
/// the record carries metadata, `metadata` last; the payload's element field
/// before `source`; the source descriptor's `db`, `lsn`, `table`, `ts_ns`.
pub proof fn lemma_field_order(rec: SourceChange, source_id: Option<String>)
    ensures
        rec.metadata is None ==> obj_keys(envelope_fields(rec, source_id)) == seq![
            "op"@,
            "payload"@,
            "reactivatorStart_ns"@,
            "reactivatorEnd_ns"@,
        ],
        rec.metadata is Some ==> obj_keys(envelope_fields(rec, source_id)) == seq![
            "op"@,
            "payload"@,
            "reactivatorStart_ns"@,
            "reactivatorEnd_ns"@,
            "metadata"@,
        ],
        obj_keys(payload_fields(rec, source_id)) == seq![element_field_name(rec.op), "source"@],
        obj_keys(source_fields(rec.sequence, rec.element, rec.source_ns, source_id)) == seq![
            "db"@,
            "lsn"@,
            "table"@,
            "ts_ns"@,
        ],
{
    if rec.metadata is None {
        assert(obj_keys(envelope_fields(rec, source_id)) =~= seq![
            "op"@,
            "payload"@,
            "reactivatorStart_ns"@,
            "reactivatorEnd_ns"@,
        ]);
    } else {
        assert(obj_keys(envelope_fields(rec, source_id)) =~= seq![
            "op"@,
            "payload"@,
            "reactivatorStart_ns"@,
            "reactivatorEnd_ns"@,
            "metadata"@,
        ]);
    }
    assert(obj_keys(payload_fields(rec, source_id)) =~= seq![
        element_field_name(rec.op),
        "source"@,
    ]);
    assert(obj_keys(source_fields(rec.sequence, rec.element, rec.source_ns, source_id)) =~= seq![
        "db"@,
        "lsn"@,
        "table"@,
        "ts_ns"@,
    ]);
}

} // verus!

