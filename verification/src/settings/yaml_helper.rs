//! How overlapping YAML documents are merged: later files override earlier
//! ones, and sequences are either concatenated or replaced.  The merge walk
//! itself runs in the surrounding program; these are its settings.
use vstd::prelude::*;

verus! {

/// What to do when a sequence meets a sequence under the same key.
#[derive(Clone, Copy, Debug, PartialEq, Eq, Structural)]
pub enum SequenceStrategy {
    /// Append the overlay's items after the base's.
    Add,
    /// Use the overlay's items alone.
    Replace,
}

#[derive(Clone, Copy, Debug)]
pub struct MergeSettings {
    pub seq_strat: SequenceStrategy,
}

} // verus!
