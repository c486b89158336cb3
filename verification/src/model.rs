//! The change record and the captured graph element it carries.
//!
//! A connector constructs one [`SourceChange`] per observed change, finalizes
//! it once with a capture-end timestamp, and hands it to the encoder. All
//! other fields are immutable for the life of the record.

use vstd::prelude::*;
use crate::json::JsonValue;

verus! {

/// A request naming which node labels and relationship labels a consumer
/// wants bootstrapped.
#[derive(Debug)]
pub struct BootstrapRequest {
    pub node_labels: Vec<String>,
    pub rel_labels: Vec<String>,
}

/// The kind of change that was captured. Each kind encodes to a
/// single-character wire tag: Create to `i`, Update to `u`, Delete to `d`.
#[derive(Debug, Clone, Copy)]
pub enum ChangeOp {
    Create,
    Update,
    Delete,
}

/// The captured graph element: a node, or a relationship between two nodes.
///
/// Labels keep their order and may repeat; the property map keeps insertion
/// order. A well-behaved connector never hands over an empty identifier,
/// start identifier or end identifier, and keeps property keys unique; this
/// core does not enforce either.
#[derive(Debug)]
pub enum SourceElement {
    Node {
        id: String,
        labels: Vec<String>,
        properties: Vec<(String, JsonValue)>,
    },
    Relation {
        id: String,
        labels: Vec<String>,
        properties: Vec<(String, JsonValue)>,
        start_id: String,
        end_id: String,
    },
}

/// One captured data-change event: the operation, the element it touched,
/// optional free-form metadata, and the timing and ordering fields.
#[derive(Debug)]
pub struct SourceChange {
    pub op: ChangeOp,
    pub element: SourceElement,
    pub metadata: Option<Vec<(String, JsonValue)>>,
    pub reactivator_start_ns: u128,
    pub reactivator_end_ns: u128,
    pub source_ns: u128,
    pub sequence: u64,
}

impl SourceChange {
    /// Builds a record at capture start. The capture-end timestamp starts at
    /// zero and stays there until [`Self::set_reactivator_end_ns`] is called.
    /// Construction performs no validation and always succeeds.
    pub fn new(
        op: ChangeOp,
        element: SourceElement,
        reactivator_start_ns: u128,
        source_ns: u128,
        sequence: u64,
        metadata: Option<Vec<(String, JsonValue)>>,
    ) -> (r: SourceChange)
        ensures
            r.op == op,
            r.element == element,
            r.metadata == metadata,
            r.reactivator_start_ns == reactivator_start_ns,
            r.reactivator_end_ns == 0,
            r.source_ns == source_ns,
            r.sequence == sequence,
    {
        SourceChange {
            op,
            element,
            metadata,
            reactivator_start_ns,
            reactivator_end_ns: 0,
            source_ns,
            sequence,
        }
    }

    /// Finalizes the record with the capture-end timestamp. Calling it again
    /// is allowed; the last value written wins. Nothing else changes.
    pub fn set_reactivator_end_ns(&mut self, reactivator_end_ns: u128)
        ensures
            final(self).reactivator_end_ns == reactivator_end_ns,
            final(self).op == old(self).op,
            final(self).element == old(self).element,
            final(self).metadata == old(self).metadata,
            final(self).reactivator_start_ns == old(self).reactivator_start_ns,
            final(self).source_ns == old(self).source_ns,
            final(self).sequence == old(self).sequence,
    {
        self.reactivator_end_ns = reactivator_end_ns;
    }
}

} // verus!
