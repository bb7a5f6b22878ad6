use vstd::prelude::*;

verus! {

/// The strict GPU array limit for billboarding smoke particles.
pub const MAX_SMOKE_PARTICLES: usize = 500;

} // verus!
