use vstd::prelude::*;
use crate::smoke::config::MAX_SMOKE_PARTICLES;

verus! {

/// Seed of every smoke emitter's particle stream.
pub const SMOKE_SEED: u32 = 42;

/// The live count after `intervals` elapsed spawn intervals, each spawning one
/// particle only while fewer than `MAX_SMOKE_PARTICLES` live (an interval that
/// finds the buffer full is consumed without a spawn).
pub open spec fn guarded_spawns(live: nat, intervals: nat) -> nat
    decreases intervals,
{
    if intervals == 0 {
        live
    } else {
        let c = guarded_spawns(live, (intervals - 1) as nat);
        if c < MAX_SMOKE_PARTICLES { c + 1 } else { c }
    }
}

/// How many of `intervals` spawn intervals spawn a particle when `live`
/// particles are alive: all of them while there is room, and never more than
/// the room left below `MAX_SMOKE_PARTICLES`.
pub open spec fn spawn_budget_spec(live: nat, intervals: nat) -> nat {
    if live >= MAX_SMOKE_PARTICLES {
        0
    } else if intervals < MAX_SMOKE_PARTICLES - live {
        intervals
    } else {
        (MAX_SMOKE_PARTICLES - live) as nat
    }
}

/// The number of particles a tick spawns, given the live count after dead
/// particles were removed and the number of elapsed spawn intervals, so that
/// all of them fit the uniform buffer.
pub fn spawn_budget(live: usize, intervals: usize) -> (n: usize)
    ensures
        n == spawn_budget_spec(live as nat, intervals as nat),
{
    if live >= MAX_SMOKE_PARTICLES {
        0
    } else if intervals < MAX_SMOKE_PARTICLES - live {
        intervals
    } else {
        MAX_SMOKE_PARTICLES - live
    }
}

/// Spawning the budget at once is the same as checking for room before each
/// interval's spawn.
pub proof fn lemma_budget_matches_guard(live: nat, intervals: nat)
    ensures
        guarded_spawns(live, intervals) == live + spawn_budget_spec(live, intervals),
    decreases intervals,
{
    if intervals > 0 {
        lemma_budget_matches_guard(live, (intervals - 1) as nat);
    }
}

/// A whole tick never overfills the uniform buffer: starting from at most
/// `MAX_SMOKE_PARTICLES` live particles, removing dead ones (which cannot add
/// any) and then spawning for any number of intervals leaves at most
/// `MAX_SMOKE_PARTICLES`.
pub proof fn lemma_tick_keeps_bound(before: nat, after_cleanup: nat, intervals: nat)
    requires
        before <= MAX_SMOKE_PARTICLES,
        after_cleanup <= before,
    ensures
        after_cleanup + spawn_budget_spec(after_cleanup, intervals) <= MAX_SMOKE_PARTICLES,
        guarded_spawns(after_cleanup, intervals) <= MAX_SMOKE_PARTICLES,
{
    lemma_budget_matches_guard(after_cleanup, intervals);
}

} // verus!
