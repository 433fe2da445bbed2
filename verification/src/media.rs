//! Participating media.
use vstd::prelude::*;

verus! {

/// A participating medium a ray may travel through.  The estimator treats the
/// medium as an opaque tag: it is carried along spawned rays but never
/// evaluated here.
#[derive(Clone, Copy, PartialEq, Eq, Structural, Debug)]
pub struct Medium {
    /// Identifies the medium within the scene description.
    pub id: u32,
}

} // verus!
