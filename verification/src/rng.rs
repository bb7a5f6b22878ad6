use vstd::prelude::*;

verus! {

/// Multiplier of the linear congruential generator.
pub const LCG_MUL: u32 = 1664525;

/// Increment of the linear congruential generator.
pub const LCG_INC: u32 = 1013904223;

/// One step of the generator: `state * 1664525 + 1013904223 (mod 2^32)`.
pub open spec fn lcg_step(state: u32) -> u32 {
    ((state as nat * LCG_MUL as nat + LCG_INC as nat) % 0x1_0000_0000) as u32
}

/// The state reached after `n` steps from `state`.
pub open spec fn lcg_nth(state: u32, n: nat) -> u32
    decreases n,
{
    if n == 0 {
        state
    } else {
        lcg_step(lcg_nth(state, (n - 1) as nat))
    }
}

/// A zero-dependency pseudo-random number generator used to scatter particles.
#[derive(Clone, Copy, Debug)]
pub struct Lcg {
    pub state: u32,
}

impl Lcg {
    /// A generator whose state is `seed`.
    pub fn new(seed: u32) -> (r: Self)
        ensures
            r.state == seed,
    {
        Self { state: seed }
    }

    /// Advances the generator by one step and returns the new state.
    /// (The particle code scales this value to `[0, 1]` by dividing by `u32::MAX`.)
    pub fn next_u32(&mut self) -> (r: u32)
        ensures
            r == lcg_step(old(self).state),
            final(self).state == r,
    {
        self.state = self.state.wrapping_mul(LCG_MUL).wrapping_add(LCG_INC);
        proof {
            let s = old(self).state;
            assert(((s as nat * LCG_MUL as nat) % 0x1_0000_0000 + LCG_INC as nat) % 0x1_0000_0000
                == (s as nat * LCG_MUL as nat + LCG_INC as nat) % 0x1_0000_0000) by {
                vstd::arithmetic::div_mod::lemma_add_mod_noop(
                    (s as nat * LCG_MUL as nat) as int, LCG_INC as int, 0x1_0000_0000);
                vstd::arithmetic::div_mod::lemma_mod_twice(LCG_INC as int, 0x1_0000_0000);
            }
        }
        self.state
    }
}

/// Stepping is deterministic and composes: `a` steps followed by `b` steps
/// reach the same state as `a + b` steps.
pub proof fn lemma_lcg_nth_add(state: u32, a: nat, b: nat)
    ensures
        lcg_nth(lcg_nth(state, a), b) == lcg_nth(state, a + b),
    decreases b,
{
    if b > 0 {
        lemma_lcg_nth_add(state, a, (b - 1) as nat);
    }
}


/// One step is the affine map `s * 1664525 + 1013904223` taken modulo 2^32:
/// the result is a `u32` congruent to it, and one step of the stream is one
/// such step.
pub proof fn lemma_lcg_step_congruent(s: u32)
    ensures
        (s * LCG_MUL + LCG_INC - lcg_step(s)) % 0x1_0000_0000 == 0,
        lcg_nth(s, 1) == lcg_step(s),
        lcg_nth(s, 0) == s,
{
    assert(lcg_nth(s, 0) == s);
    assert(lcg_nth(s, 1) == lcg_step(lcg_nth(s, 0)));
    let v = s as int * LCG_MUL as int + LCG_INC as int;
    vstd::arithmetic::div_mod::lemma_fundamental_div_mod(v, 0x1_0000_0000);
    assert(v - lcg_step(s) == 0x1_0000_0000 * (v / 0x1_0000_0000));
    vstd::arithmetic::div_mod::lemma_mod_multiples_basic(v / 0x1_0000_0000, 0x1_0000_0000);
    assert((0x1_0000_0000 * (v / 0x1_0000_0000)) % 0x1_0000_0000 == 0) by {
        vstd::arithmetic::mul::lemma_mul_is_commutative(0x1_0000_0000, v / 0x1_0000_0000);
    }
}

} // verus!
