//! Deterministic derivation of a verifiable visual identity for each token of
//! a fixed-size collection: from an integer index, a canonical set of named
//! attributes and a rendered vector image, identical on every call.
//!
//! Two pipelines cover the same contract:
//!
//! * a procedural pipeline, which classifies the index into trait categories
//!   by mixed-radix arithmetic, scores rarity, and renders one of six
//!   geometric pattern families into an SVG document; and
//! * a table-driven pipeline, which splits a per-index packed integer into
//!   fixed-width fields, maps each field through ordered trait tables, and
//!   concatenates pre-authored image fragments in a fixed layer order.
//!
//! All arithmetic is integral, so the output is bit-exact on every platform.

use vstd::prelude::*;

pub mod digits;
pub mod trig;
pub mod classify;
pub mod palette;
pub mod svg;
pub mod patterns;
pub mod codec;
pub mod table;
pub mod template;
pub mod collection;

verus! {

/// One terminal failure of a single query; no partial result accompanies it.
#[derive(Clone, Copy, Debug, PartialEq, Eq, Structural)]
pub enum GenError {
    /// The index is at or past the collection's supply or the packed table's length.
    IndexOutOfRange,
    /// The schema's field widths together exceed the packed integer's capacity.
    SchemaOverflow,
    /// The table data fails structural validation at load time.
    MalformedTable,
    /// A decoded field code has no entry in its trait table.
    UnknownTraitCode,
    /// A resolved trait name has no image fragment in the template library.
    MissingTemplate,
}

/// The views of a list of strings, for contracts over resolved names.
pub open spec fn seq_views(s: Seq<String>) -> Seq<Seq<char>> {
    Seq::new(s.len(), |i: int| s[i]@)
}

} // verus!
