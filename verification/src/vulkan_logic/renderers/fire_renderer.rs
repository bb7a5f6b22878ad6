use vstd::prelude::*;

verus! {

/// Length of the particle array in the fire uniform buffer.
pub const MAX_FIRE_PARTICLES: usize = 500;

/// What a fire draw uploads and draws.
#[derive(Clone, Copy, Debug, PartialEq, Eq, Structural)]
pub struct FireUpload {
    /// Particles copied into the uniform buffer: the first ones, up to its length.
    pub copied: usize,
    /// The particle count written to the buffer, and the number of instances
    /// drawn: the emitter's whole particle count, as `u32`.
    pub instance_count: u32,
}

/// An empty emitter draws nothing; otherwise the first `MAX_FIRE_PARTICLES`
/// particles are copied and all of them are counted.
pub fn fire_upload(particles: usize) -> (r: Option<FireUpload>)
    ensures
        particles == 0 ==> r is None,
        particles > 0 ==> r == Some(FireUpload {
            copied: if particles < MAX_FIRE_PARTICLES { particles } else { MAX_FIRE_PARTICLES },
            instance_count: particles as u32,
        }),
{
    if particles == 0 {
        None
    } else {
        let copied = if particles < MAX_FIRE_PARTICLES { particles } else { MAX_FIRE_PARTICLES };
        Some(FireUpload { copied, instance_count: particles as u32 })
    }
}

} // verus!
