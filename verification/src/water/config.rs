use vstd::prelude::*;

verus! {

/// The maximum number of rivers sent to the GPU in a single draw batch
/// (the length of the river array in the river uniform buffer).
pub const MAX_RIVERS: usize = 10;

} // verus!
