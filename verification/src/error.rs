//! The single fatal error a model can be rejected with: either a structural
//! (schema) failure found while normalizing, or a reference failure found
//! while resolving.
use vstd::prelude::*;

use crate::format::{LayerRef, Src};

verus! {

/// A fatal validation failure. Each variant names the offending input, so a
/// caller can report the failing layer index and raw value.
#[derive(Debug)]
pub enum ModelError {
    /// The backbone section is empty.
    EmptyBackbone,
    /// The anchor list at `index` has a flat wire sequence of odd length `len`.
    OddAnchorList { index: usize, len: usize },
    /// The first backbone layer's source is not `Single(Relative(1))`; the
    /// offending source is carried along.
    BadFirstLayer { src: Src },
    /// For the layer at absolute index `layer`, the reference resolves to a
    /// predecessor outside `[0, layer)`.
    OutOfRange { layer: usize, reference: LayerRef },
}

} // verus!
