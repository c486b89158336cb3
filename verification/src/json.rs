//! The library's own model of a JSON document.
//!
//! Property maps and metadata carried by a change record hold arbitrary JSON
//! values, and the envelope itself is a JSON object; both are held as
//! [`JsonValue`] trees. The mathematical model of such a tree is [`Json`],
//! reached through `deep_view`, and every contract about an encoded envelope
//! is stated over that model.

use vstd::prelude::*;

verus! {

/// An in-memory JSON document.
///
/// Object fields keep their insertion order; well-behaved producers keep the
/// keys of an object unique, but nothing here depends on it. Integers are kept
/// exact: unsigned values up to 128 bits wide and signed values up to 64 bits
/// wide, so nanosecond timestamps never lose precision.
#[derive(Debug)]
pub enum JsonValue {
    Null,
    Bool(bool),
    UInt(u128),
    Int(i64),
    Text(String),
    Array(Vec<JsonValue>),
    Object(Vec<(String, JsonValue)>),
}

/// The mathematical model of a JSON document: what a [`JsonValue`] means,
/// with strings as character sequences and all integers as unbounded `int`s.
pub enum Json {
    Null,
    Bool(bool),
    Int(int),
    Text(Seq<char>),
    Array(Seq<Json>),
    Object(Seq<(Seq<char>, Json)>),
}

impl DeepView for JsonValue {
    type V = Json;

    open spec fn deep_view(&self) -> Json
        decreases self,
    {
        match self {
            JsonValue::Null => Json::Null,
            JsonValue::Bool(b) => Json::Bool(*b),
            JsonValue::UInt(n) => Json::Int(*n as int),
            JsonValue::Int(n) => Json::Int(*n as int),
            JsonValue::Text(s) => Json::Text(s@),
            JsonValue::Array(items) => {
                proof {
                    assert(decreases_to!(items => items@));
                }
                Json::Array(items_view(items@))
            },
            JsonValue::Object(fields) => {
                proof {
                    assert(decreases_to!(fields => fields@));
                }
                Json::Object(fields_view(fields@))
            },
        }
    }
}

/// The model of a sequence of array items.
pub open spec fn items_view(items: Seq<JsonValue>) -> Seq<Json>
    decreases items,
{
    if items.len() <= 0 {
        Seq::empty()
    } else {
        items_view(items.subrange(0, items.len() - 1)).push(
            items[items.len() - 1].deep_view(),
        )
    }
}

/// The model of an object's field list: each pair is the key and its value.
pub open spec fn fields_view(fields: Seq<(String, JsonValue)>) -> Seq<(Seq<char>, Json)>
    decreases fields,
{
    if fields.len() <= 0 {
        Seq::empty()
    } else {
        fields_view(fields.subrange(0, fields.len() - 1)).push(
            (fields[fields.len() - 1].0@, fields[fields.len() - 1].1.deep_view()),
        )
    }
}

/// `items_view` is the pointwise model of the items.
pub proof fn lemma_items_view(items: Seq<JsonValue>)
    ensures
        items_view(items).len() == items.len(),
        forall|i: int|
            0 <= i < items.len() ==> #[trigger] items_view(items)[i] == items[i].deep_view(),
    decreases items.len(),
{
    if items.len() > 0 {
        lemma_items_view(items.subrange(0, items.len() - 1));
        assert(items_view(items) == items_view(items.subrange(0, items.len() - 1)).push(
            items[items.len() - 1].deep_view(),
        ));
    } else {
        assert(items_view(items) == Seq::<Json>::empty());
    }
}

/// `fields_view` is the pointwise model of the fields.
pub proof fn lemma_fields_view(fields: Seq<(String, JsonValue)>)
    ensures
        fields_view(fields).len() == fields.len(),
        forall|i: int|
            0 <= i < fields.len() ==> #[trigger] fields_view(fields)[i] == (
                fields[i].0@,
                fields[i].1.deep_view(),
            ),
    decreases fields.len(),
{
    if fields.len() > 0 {
        lemma_fields_view(fields.subrange(0, fields.len() - 1));
        assert(fields_view(fields) == fields_view(fields.subrange(0, fields.len() - 1)).push(
            (fields[fields.len() - 1].0@, fields[fields.len() - 1].1.deep_view()),
        ));
    } else {
        assert(fields_view(fields) == Seq::<(Seq<char>, Json)>::empty());
    }
}

/// The keys of an object's field list, in order.
pub open spec fn obj_keys(fields: Seq<(Seq<char>, Json)>) -> Seq<Seq<char>> {
    Seq::new(fields.len(), |i: int| fields[i].0)
}

/// Whether some field of the list bears the given key.
pub open spec fn obj_has_key(fields: Seq<(Seq<char>, Json)>, key: Seq<char>) -> bool {
    exists|i: int| 0 <= i < fields.len() && fields[i].0 == key
}

/// The value under the first field bearing the given key, if any.
pub open spec fn obj_lookup(fields: Seq<(Seq<char>, Json)>, key: Seq<char>) -> Option<Json>
    decreases fields.len(),
{
    if fields.len() == 0 {
        Option::None
    } else if fields[0].0 == key {
        Option::Some(fields[0].1)
    } else {
        obj_lookup(fields.drop_first(), key)
    }
}

/// `obj_lookup` finds the field at `i` when no earlier field bears the key.
pub proof fn lemma_obj_lookup_at(fields: Seq<(Seq<char>, Json)>, key: Seq<char>, i: int)
    requires
        0 <= i < fields.len(),
        fields[i].0 == key,
        forall|j: int| 0 <= j < i ==> fields[j].0 != key,
    ensures
        obj_lookup(fields, key) == Some(fields[i].1),
    decreases i,
{
    if i > 0 {
        assert forall|j: int| 0 <= j < i - 1 implies fields.drop_first()[j].0 != key by {
            assert(fields.drop_first()[j] == fields[j + 1]);
        }
        assert(fields.drop_first()[i - 1] == fields[i]);
        lemma_obj_lookup_at(fields.drop_first(), key, i - 1);
    }
}

/// `obj_lookup` finds nothing when no field bears the key.
pub proof fn lemma_obj_lookup_absent(fields: Seq<(Seq<char>, Json)>, key: Seq<char>)
    requires
        forall|j: int| 0 <= j < fields.len() ==> fields[j].0 != key,
    ensures
        obj_lookup(fields, key) is None,
        !obj_has_key(fields, key),
    decreases fields.len(),
{
    if fields.len() > 0 {
        assert forall|j: int|
            0 <= j < fields.drop_first().len() implies fields.drop_first()[j].0 != key by {
            assert(fields.drop_first()[j] == fields[j + 1]);
        }
        lemma_obj_lookup_absent(fields.drop_first(), key);
    }
}

} // verus!
