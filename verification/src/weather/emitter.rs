use vstd::prelude::*;
use crate::rng::{Lcg, lcg_nth, lemma_lcg_nth_add};

verus! {

/// Seed of the weather particle stream.
pub const WEATHER_SEED: u32 = 12345;

/// The four generator values that place one weather particle: its `x`, `y`,
/// `z` offsets inside the box and its flutter phase, drawn in that order.
#[derive(Clone, Copy, Debug, PartialEq, Eq, Structural)]
pub struct ScatterDraw {
    pub x: u32,
    pub y: u32,
    pub z: u32,
    pub phase: u32,
}

/// The draw of particle `i` when the generator started in `state`.
pub open spec fn scatter_draw_spec(state: u32, i: nat) -> ScatterDraw {
    ScatterDraw {
        x: lcg_nth(state, 4 * i + 1),
        y: lcg_nth(state, 4 * i + 2),
        z: lcg_nth(state, 4 * i + 3),
        phase: lcg_nth(state, 4 * i + 4),
    }
}

/// Draws the random values for `count` particles from `rng`, four per
/// particle, and leaves the generator after the last of them.
pub fn scatter_draws(rng: &mut Lcg, count: usize) -> (r: Vec<ScatterDraw>)
    ensures
        r.len() == count,
        forall|i: int| 0 <= i < count ==> #[trigger] r@[i] == scatter_draw_spec(old(rng).state, i as nat),
        final(rng).state == lcg_nth(old(rng).state, 4 * count as nat),
{
    let ghost start = rng.state;
    let mut draws: Vec<ScatterDraw> = Vec::new();
    let mut i: usize = 0;
    while i < count
        invariant
            i <= count,
            draws.len() == i,
            rng.state == lcg_nth(start, 4 * i as nat),
            forall|j: int| 0 <= j < i ==> #[trigger] draws@[j] == scatter_draw_spec(start, j as nat),
        decreases count - i,
    {
        let ghost k: nat = 4 * i as nat;
        let x = rng.next_u32();
        assert(x == lcg_nth(start, k + 1));
        let y = rng.next_u32();
        assert(y == lcg_nth(start, k + 2));
        let z = rng.next_u32();
        assert(z == lcg_nth(start, k + 3));
        let phase = rng.next_u32();
        assert(phase == lcg_nth(start, k + 4));
        let ghost before = draws@;
        draws.push(ScatterDraw { x, y, z, phase });
        assert(draws@[i as int] == scatter_draw_spec(start, i as nat));
        assert forall|j: int| 0 <= j < i + 1 implies #[trigger] draws@[j] == scatter_draw_spec(start, j as nat) by {
            if j < i {
                assert(draws@[j] == before[j]);
            }
        }
        i = i + 1;
    }
    draws
}

/// Re-scattering continues the generator's stream: `n` particles scattered
/// after `m` others get the draws of particles `m..m + n` of one long stream,
/// so a new weather never repeats the previous positions by restarting.
pub proof fn lemma_scatter_continues(state: u32, m: nat, i: nat)
    ensures
        scatter_draw_spec(lcg_nth(state, 4 * m), i) == scatter_draw_spec(state, m + i),
{
    lemma_lcg_nth_add(state, 4 * m, 4 * i + 1);
    lemma_lcg_nth_add(state, 4 * m, 4 * i + 2);
    lemma_lcg_nth_add(state, 4 * m, 4 * i + 3);
    lemma_lcg_nth_add(state, 4 * m, 4 * i + 4);
    assert(4 * m + (4 * i + 1) == 4 * (m + i) + 1);
}


/// The scatter draws are consecutive values of one stream: a particle's `y`
/// follows its `x`, `z` its `y`, its phase its `z`, the first particle's `x`
/// follows the starting state, and each particle's `x` follows the previous
/// particle's phase.
pub proof fn lemma_scatter_chain(state: u32, i: nat)
    ensures
        scatter_draw_spec(state, 0).x == crate::rng::lcg_step(state),
        scatter_draw_spec(state, i).y == crate::rng::lcg_step(scatter_draw_spec(state, i).x),
        scatter_draw_spec(state, i).z == crate::rng::lcg_step(scatter_draw_spec(state, i).y),
        scatter_draw_spec(state, i).phase == crate::rng::lcg_step(scatter_draw_spec(state, i).z),
        scatter_draw_spec(state, i + 1).x == crate::rng::lcg_step(scatter_draw_spec(state, i).phase),
{
    assert(4 * (i + 1) + 1 == (4 * i + 4) + 1);
    assert(lcg_nth(state, 1) == crate::rng::lcg_step(lcg_nth(state, 0)));
}

} // verus!
