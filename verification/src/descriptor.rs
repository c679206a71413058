//! The status descriptor: the presentation triple (label text, color class,
//! animation cadence) derived from a lifecycle variant at each transition.

use vstd::prelude::*;

verus! {

/// Color classification handed to the rendering collaborator. A closed set:
/// consumers must not expect any value outside these four.
#[derive(Clone, Copy, Debug, PartialEq, Eq, Structural)]
pub enum ColorClass {
    Neutral,
    Alert,
    Pending,
    Success,
}

/// An immutable presentation triple computed from a lifecycle variant at the
/// moment of transition. Presentation code consumes it as-is; it is never
/// recomputed anywhere else.
#[derive(Clone, Debug)]
pub struct StatusDescriptor {
    pub label: String,
    pub color_class: ColorClass,
    pub cadence_ms: u64,
}

/// `d` is exactly the triple (`label`, `color`, `cadence`).
pub open spec fn is_triple(
    d: StatusDescriptor,
    label: Seq<char>,
    color: ColorClass,
    cadence: u64,
) -> bool {
    &&& d.label@ == label
    &&& d.color_class == color
    &&& d.cadence_ms == cadence
}

impl StatusDescriptor {
    /// Builds the descriptor with exactly the given cadence, label and color.
    pub fn new(cadence_ms: u64, label: &str, color_class: ColorClass) -> (r: StatusDescriptor)
        ensures
            is_triple(r, label@, color_class, cadence_ms),
    {
        StatusDescriptor { label: label.to_owned(), color_class, cadence_ms }
    }
}

} // verus!
