//! The tick driver: one step of simulated time for a pool together with the
//! emitter that feeds it and the modifiers that shape it.

use vstd::prelude::*;
use crate::emitter::{emit_particles, emitted, ParticleEmitter};
use crate::history::{follows, PoolOp};
use crate::math::{Mat4, Vec3};
use crate::modifiers::{apply_modifiers, modified_by_all, Modifier};
use crate::particles::Particles;

verus! {

/// Whether the modifiers `modifiers`, run in order over the pool `before` for
/// a tick of `delta_time` microseconds, leave the pool `after`.
pub open spec fn shaped(
    modifiers: Seq<Modifier>,
    before: Particles,
    after: Particles,
    delta_time: u64,
) -> bool {
    &&& after.wf()
    &&& after.spec_clock() == before.spec_clock()
    &&& after@.len() == before@.len()
    &&& forall|i: int|
        0 <= i < before@.len() ==> #[trigger] after@[i] == modified_by_all(
            modifiers,
            before@[i],
            before.spec_clock(),
            delta_time,
        )
}

/// One tick of `delta_time` microseconds, in the order that a pool needs:
/// first the pool ages and drops its dead, then the emitter spawns into it,
/// then the modifiers write the attributes of all that is there. Where the
/// pool's clock cannot take the delta, nothing happens and the answer is `false`.
pub fn tick<F: Fn() -> Vec3>(
    particles: &mut Particles,
    emitter: &mut ParticleEmitter,
    modifiers: &Vec<Modifier>,
    local_to_world: &Mat4,
    delta_time: u64,
    sample_point: &F,
) -> (advanced: bool)
    requires
        old(particles).wf(),
        old(emitter).wf(),
        sample_point.requires(()),
    ensures
        final(particles).wf(),
        final(emitter).wf(),
        advanced == (old(particles).spec_clock() + delta_time <= u64::MAX),
        !advanced ==> *final(particles) == *old(particles) && *final(emitter) == *old(emitter),
        advanced ==> exists|aged: Particles, grown: Particles|
            {
                &&& follows(*old(particles), PoolOp::Advance(delta_time), aged)
                &&& #[trigger] emitted(
                    *old(emitter),
                    *final(emitter),
                    aged,
                    grown,
                    *local_to_world,
                    delta_time,
                    sample_point,
                )
                &&& #[trigger] shaped(modifiers@, grown, *final(particles), delta_time)
            },
{
    if particles.clock() > u64::MAX - delta_time {
        return false;
    }
    particles.advance_particles(delta_time);
    let ghost aged = *particles;
    emit_particles(emitter, particles, local_to_world, delta_time, sample_point);
    let ghost grown = *particles;
    apply_modifiers(modifiers, particles, delta_time);
    proof {
        assert(follows(*old(particles), PoolOp::Advance(delta_time), aged));
        assert(emitted(
            *old(emitter),
            *emitter,
            aged,
            grown,
            *local_to_world,
            delta_time,
            sample_point,
        ));
        assert(shaped(modifiers@, grown, *particles, delta_time));
    }
    true
}

} // verus!
