//! Canonical wire representation of a single data-change event captured from
//! a graph source: a change record holding the captured element together with
//! timing and sequencing metadata, and a pure encoder that renders the record
//! into a strict, nested, field-ordered JSON change envelope.

pub mod json;
pub mod model;
pub mod encoder;
pub mod render;
pub mod laws;
