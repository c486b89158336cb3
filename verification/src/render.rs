//! Rendering a JSON document as text.
//!
//! Serialization is delegated to the `serde_json` crate. The text it writes
//! for a document is named by the uninterpreted function [`json_text_of`];
//! the one wrapper below carries that name, and everything said about the
//! produced text goes through it. Field order is preserved, and integers are
//! written exactly, with no floating-point rounding, because the crate's
//! arbitrary-precision numbers are used.

use vstd::prelude::*;
use crate::json::{Json, JsonValue};

verus! {

#[verifier::external_type_specification]
#[verifier::external_body]
pub struct ExValue(serde_json::Value);

/// The JSON text that serialization writes for a document. It depends on the
/// document alone: `serde_json` writes equal texts for equal documents.
pub uninterp spec fn json_text_of(j: Json) -> Seq<char>;

/// Builds the `serde_json` document with the same shape as the given tree:
/// the same fields in the same order, integers exact. Relies on
/// `serde_json::Number::from_u128` and `from_i128`, which accept every 128-bit
/// integer when the crate's arbitrary-precision numbers are enabled, so the
/// unwraps cannot panic.
#[verifier::external_body]
fn to_serde(v: &JsonValue) -> serde_json::Value {
    match v {
        JsonValue::Null => serde_json::Value::Null,
        JsonValue::Bool(b) => serde_json::Value::Bool(*b),
        JsonValue::UInt(n) => serde_json::Number::from_u128(*n).unwrap().into(),
        JsonValue::Int(n) => serde_json::Number::from_i128(*n as i128).unwrap().into(),
        JsonValue::Text(s) => serde_json::Value::String(s.clone()),
        JsonValue::Array(items) => serde_json::Value::Array(items.iter().map(to_serde).collect()),
        JsonValue::Object(fields) => serde_json::Value::Object(
            fields.iter().map(|f| (f.0.clone(), to_serde(&f.1))).collect(),
        ),
    }
}

/// Relies on `serde_json::to_string`: the text it writes is a deterministic
/// function of the document handed to it, here built by `to_serde` from the
/// given tree alone, so the text is `json_text_of` of the tree's model. Two
/// trees with equal models yield equal documents: the only overlap, an
/// unsigned and a signed variant holding the same integer, is written as the
/// same number. The call cannot fail on such a document — it writes to an
/// in-memory buffer, every map key is a string, and every number holds a
/// valid decimal — so the unwrap cannot panic.
#[verifier::external_body]
pub(crate) fn render_json(v: &JsonValue) -> (r: String)
    ensures
        r@ == json_text_of(v.deep_view()),
{
    serde_json::to_string(&to_serde(v)).unwrap()
}

} // verus!
