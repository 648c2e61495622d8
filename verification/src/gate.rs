//! The size gate: the destructive alternative to archiving.

use vstd::prelude::*;

verus! {

/// What the size gate does with an eligible file.
#[derive(Clone, Copy, Debug, PartialEq, Eq, Structural)]
pub enum GateOutcome {
    /// The file is large enough: it stays where it is, and is not archived.
    Keep,
    /// The file is smaller than the threshold: it is deleted.
    Delete,
}

/// The rule of the size gate: a file is deleted exactly if it is smaller than
/// the threshold.
pub open spec fn gate_for(size: u64, min_size: u64) -> GateOutcome {
    if size < min_size {
        GateOutcome::Delete
    } else {
        GateOutcome::Keep
    }
}

/// Decides what becomes of an eligible file of `size` bytes under the
/// threshold `min_size`.
pub fn keep_file_min_size(size: u64, min_size: u64) -> (r: GateOutcome)
    ensures
        r == gate_for(size, min_size),
{
    if size < min_size {
        GateOutcome::Delete
    } else {
        GateOutcome::Keep
    }
}

} // verus!
