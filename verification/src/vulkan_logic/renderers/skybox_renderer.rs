use vstd::prelude::*;

verus! {

/// Length of the sun/moon disc array in the sky uniform buffer; further discs
/// are dropped (with `take_capped`).
pub const MAX_SKY_DISCS: usize = 5;

/// Length of the crescent array in the sky uniform buffer; further crescents
/// are dropped (with `take_capped`).
pub const MAX_SKY_CRESCENTS: usize = 5;

} // verus!
