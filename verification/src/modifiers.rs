//! Per-tick modifiers: transformations applied to every particle of a pool,
//! each a function of the particle as it is and of the elapsed time.

use vstd::prelude::*;
use std::ops::Range;
use crate::curve::{curve_value, Curve};
use crate::fixed::fx_lerp;
use crate::math::{Vec3, Vec4};
use crate::particles::{lifetime_fraction, ParticleRecord, Particles};

verus! {

/// A transformation of the particles of a pool, run once per tick. It writes
/// attributes; it neither adds nor removes particles, and leaves the clock alone.
pub trait ParticleModifier: Send + Sync + 'static {
    fn apply(&self, particles: &mut Particles, delta_time: u64)
        requires
            old(particles).wf(),
        ensures
            final(particles).wf(),
            final(particles).spec_clock() == old(particles).spec_clock(),
            final(particles)@.len() == old(particles)@.len(),
    ;
}

/// Sets the colour of a particle from its age and its speed.
#[derive(Debug)]
pub struct ColorBySpeed {
    pub color: Curve<Vec4>,
    pub range: Range<i64>,
}

impl Clone for ColorBySpeed {
    fn clone(&self) -> (copy: ColorBySpeed)
        ensures
            copy.range == self.range,
    {
        ColorBySpeed { color: self.color.clone(), range: self.range.start..self.range.end }
    }
}

/// Sets the colour of a particle from the share of its lifetime that has passed.
#[derive(Debug, Clone)]
pub struct ColorByLifetime {
    pub color: Curve<Vec4>,
}

impl ColorByLifetime {
    /// The particle `p` with its colour read off the curve at the particle's age.
    pub open spec fn modified(&self, p: ParticleRecord, clock: u64, delta_time: u64) -> ParticleRecord {
        ParticleRecord {
            color: curve_value(
                self.color@,
                lifetime_fraction(clock as int, p.start as int, p.expiration as int) as int,
            ),
            ..p
        }
    }

}

impl ParticleModifier for ColorByLifetime {
    fn apply(&self, particles: &mut Particles, delta_time: u64)
        ensures
            forall|i: int|
                0 <= i < old(particles)@.len() ==> #[trigger] final(particles)@[i] == self.modified(
                    old(particles)@[i],
                    old(particles).spec_clock(),
                    delta_time,
                ),
    {
        let n: usize = particles.len();
        let mut idx: usize = 0;
        while idx < n
            invariant
                particles.wf(),
                particles.spec_clock() == old(particles).spec_clock(),
                particles@.len() == old(particles)@.len(),
                n == particles@.len(),
                idx <= n,
                forall|i: int|
                    0 <= i < idx ==> #[trigger] particles@[i] == self.modified(
                        old(particles)@[i],
                        old(particles).spec_clock(),
                        delta_time,
                    ),
                forall|i: int| idx <= i < n ==> #[trigger] particles@[i] == old(particles)@[i],
            decreases n - idx,
        {
            let lifetime: i64 = particles.lifetime_ratio(idx);
            let color: Vec4 = self.color.evaluate(lifetime);
            let particle = particles.get_mut(idx);
            *particle.color = color;
            idx = idx + 1;
        }
    }
}

/// Accelerates a particle by a force that varies over its lifetime.
#[derive(Debug, Clone)]
pub struct ForceOverLifetime {
    pub force: Curve<Range<Vec3>>,
}

/// Accelerates every particle by the same constant amount.
#[derive(Debug, Clone, Copy)]
pub struct ConstantForce {
    pub acceleration_per_second: Vec3,
}

impl ConstantForce {
    /// The particle `p` after the tick under the force: its velocity has
    /// grown by the acceleration times the elapsed time, its angular velocity
    /// is as it was.
    pub open spec fn modified(&self, p: ParticleRecord, clock: u64, delta_time: u64) -> ParticleRecord {
        ParticleRecord {
            velocity: p.velocity.spec_advanced(
                Vec4::spec_from_vec3(self.acceleration_per_second, 0),
                delta_time as int,
            ),
            ..p
        }
    }

}

impl ParticleModifier for ConstantForce {
    fn apply(&self, particles: &mut Particles, delta_time: u64)
        ensures
            forall|i: int|
                0 <= i < old(particles)@.len() ==> #[trigger] final(particles)@[i] == self.modified(
                    old(particles)@[i],
                    old(particles).spec_clock(),
                    delta_time,
                ),
    {
        let acceleration: Vec4 = Vec4::from_vec3(self.acceleration_per_second, 0);
        let n: usize = particles.len();
        let mut idx: usize = 0;
        while idx < n
            invariant
                particles.wf(),
                particles.spec_clock() == old(particles).spec_clock(),
                particles@.len() == old(particles)@.len(),
                n == particles@.len(),
                idx <= n,
                acceleration == Vec4::spec_from_vec3(self.acceleration_per_second, 0),
                forall|i: int|
                    0 <= i < idx ==> #[trigger] particles@[i] == self.modified(
                        old(particles)@[i],
                        old(particles).spec_clock(),
                        delta_time,
                    ),
                forall|i: int| idx <= i < n ==> #[trigger] particles@[i] == old(particles)@[i],
            decreases n - idx,
        {
            let particle = particles.get_mut(idx);
            let velocity: Vec4 = particle.velocity.advanced(acceleration, delta_time);
            *particle.velocity = velocity;
            idx = idx + 1;
        }
    }
}

/// Sets the lifetime of a particle from the speed of its emitter.
#[derive(Debug)]
pub struct LifetimeByEmitterSpeed {
    pub lifetime: Curve<Range<i64>>,
    pub range: Range<i64>,
}

impl Clone for LifetimeByEmitterSpeed {
    fn clone(&self) -> (copy: LifetimeByEmitterSpeed)
        ensures
            copy.range == self.range,
    {
        LifetimeByEmitterSpeed { lifetime: self.lifetime.clone(), range: self.range.start..self.range.end }
    }
}

#[derive(Debug, Clone)]
pub struct LimitVelocityOverLifetime {}

#[derive(Debug, Clone)]
pub struct Noise {}

/// Sets the spin of a particle from its speed.
#[derive(Debug)]
pub struct RotationBySpeed {
    pub curve: Curve<Range<i64>>,
    pub range: Range<i64>,
}

impl Clone for RotationBySpeed {
    fn clone(&self) -> (copy: RotationBySpeed)
        ensures
            copy.range == self.range,
    {
        RotationBySpeed { curve: self.curve.clone(), range: self.range.start..self.range.end }
    }
}

/// Sets the spin of a particle from the share of its lifetime that has passed.
#[derive(Debug, Clone)]
pub struct RotationOverLifetime {
    pub rotation: Curve<Range<i64>>,
}

/// Sets the size of a particle from its speed.
#[derive(Debug)]
pub struct SizeBySpeed {
    pub size: Curve<Range<i64>>,
    pub range: Range<i64>,
}

impl Clone for SizeBySpeed {
    fn clone(&self) -> (copy: SizeBySpeed)
        ensures
            copy.range == self.range,
    {
        SizeBySpeed { size: self.size.clone(), range: self.range.start..self.range.end }
    }
}

/// Sets the size of a particle from the share of its lifetime that has
/// passed: the curve gives a low and a high size for that age, and the
/// particle's own blend factor picks the point between them.
#[derive(Debug, Clone)]
pub struct SizeOverLifetime {
    pub size: Curve<Range<i64>>,
}

impl SizeOverLifetime {
    /// The particle `p` with its size read off the curve at the particle's age.
    pub open spec fn modified(&self, p: ParticleRecord, clock: u64, delta_time: u64) -> ParticleRecord {
        ParticleRecord {
            size: fx_lerp(
                curve_value(
                    self.size@,
                    lifetime_fraction(clock as int, p.start as int, p.expiration as int) as int,
                ).start as int,
                curve_value(
                    self.size@,
                    lifetime_fraction(clock as int, p.start as int, p.expiration as int) as int,
                ).end as int,
                p.lerp_factor as int,
            ),
            ..p
        }
    }

}

impl ParticleModifier for SizeOverLifetime {
    fn apply(&self, particles: &mut Particles, delta_time: u64)
        ensures
            forall|i: int|
                0 <= i < old(particles)@.len() ==> #[trigger] final(particles)@[i] == self.modified(
                    old(particles)@[i],
                    old(particles).spec_clock(),
                    delta_time,
                ),
    {
        let n: usize = particles.len();
        let mut idx: usize = 0;
        while idx < n
            invariant
                particles.wf(),
                particles.spec_clock() == old(particles).spec_clock(),
                particles@.len() == old(particles)@.len(),
                n == particles@.len(),
                idx <= n,
                forall|i: int|
                    0 <= i < idx ==> #[trigger] particles@[i] == self.modified(
                        old(particles)@[i],
                        old(particles).spec_clock(),
                        delta_time,
                    ),
                forall|i: int| idx <= i < n ==> #[trigger] particles@[i] == old(particles)@[i],
            decreases n - idx,
        {
            let lifetime: i64 = particles.lifetime_ratio(idx);
            let range: Range<i64> = self.size.evaluate(lifetime);
            let lerp_factor: i64 = particles.lerp_factor(idx);
            let size: i64 = crate::fixed::lerp_fixed(range.start, range.end, lerp_factor);
            let particle = particles.get_mut(idx);
            *particle.size = size;
            idx = idx + 1;
        }
    }
}

#[derive(Debug, Clone)]
pub struct VelocityOverLifetime {}

/// One of the built-in modifiers.
#[derive(Debug, Clone)]
pub enum Modifier {
    ConstantForce(ConstantForce),
    ColorByLifetime(ColorByLifetime),
    SizeOverLifetime(SizeOverLifetime),
}

impl Modifier {
    /// The particle `p` as this modifier leaves it, in a pool whose clock
    /// reads `clock`, for a tick of `delta_time` microseconds.
    pub open spec fn modified(&self, p: ParticleRecord, clock: u64, delta_time: u64) -> ParticleRecord {
        match self {
            Modifier::ConstantForce(m) => m.modified(p, clock, delta_time),
            Modifier::ColorByLifetime(m) => m.modified(p, clock, delta_time),
            Modifier::SizeOverLifetime(m) => m.modified(p, clock, delta_time),
        }
    }
}

impl ParticleModifier for Modifier {
    fn apply(&self, particles: &mut Particles, delta_time: u64)
        ensures
            forall|i: int|
                0 <= i < old(particles)@.len() ==> #[trigger] final(particles)@[i] == self.modified(
                    old(particles)@[i],
                    old(particles).spec_clock(),
                    delta_time,
                ),
    {
        match self {
            Modifier::ConstantForce(m) => m.apply(particles, delta_time),
            Modifier::ColorByLifetime(m) => m.apply(particles, delta_time),
            Modifier::SizeOverLifetime(m) => m.apply(particles, delta_time),
        }
    }
}

/// The particle `p` as the modifiers `modifiers` leave it when they are
/// applied one after the other, the first registered first: each sees what
/// those before it have written.
pub open spec fn modified_by_all(
    modifiers: Seq<Modifier>,
    p: ParticleRecord,
    clock: u64,
    delta_time: u64,
) -> ParticleRecord
    decreases modifiers.len(),
{
    if modifiers.len() == 0 {
        p
    } else {
        modifiers.last().modified(
            modified_by_all(modifiers.drop_last(), p, clock, delta_time),
            clock,
            delta_time,
        )
    }
}

/// Runs the modifiers over the pool in the order in which they were registered.
pub fn apply_modifiers(modifiers: &Vec<Modifier>, particles: &mut Particles, delta_time: u64)
    requires
        old(particles).wf(),
    ensures
        final(particles).wf(),
        final(particles).spec_clock() == old(particles).spec_clock(),
        final(particles)@.len() == old(particles)@.len(),
        forall|i: int|
            0 <= i < old(particles)@.len() ==> #[trigger] final(particles)@[i] == modified_by_all(
                modifiers@,
                old(particles)@[i],
                old(particles).spec_clock(),
                delta_time,
            ),
{
    let mut k: usize = 0;
    while k < modifiers.len()
        invariant
            k <= modifiers.len(),
            particles.wf(),
            particles.spec_clock() == old(particles).spec_clock(),
            particles@.len() == old(particles)@.len(),
            forall|i: int|
                0 <= i < old(particles)@.len() ==> #[trigger] particles@[i] == modified_by_all(
                    modifiers@.subrange(0, k as int),
                    old(particles)@[i],
                    old(particles).spec_clock(),
                    delta_time,
                ),
        decreases modifiers.len() - k,
    {
        let ghost before = particles@;
        modifiers[k].apply(particles, delta_time);
        proof {
            assert(modifiers@.subrange(0, k + 1).drop_last() =~= modifiers@.subrange(0, k as int));
            assert(modifiers@.subrange(0, k + 1).last() == modifiers@[k as int]);
            assert forall|i: int| 0 <= i < old(particles)@.len() implies #[trigger] particles@[i]
                == modified_by_all(
                modifiers@.subrange(0, k + 1),
                old(particles)@[i],
                old(particles).spec_clock(),
                delta_time,
            ) by {
                assert(particles@[i] == modifiers@[k as int].modified(
                    before[i],
                    old(particles).spec_clock(),
                    delta_time,
                ));
            }
        }
        k = k + 1;
    }
    assert(modifiers@.subrange(0, modifiers.len() as int) =~= modifiers@);
}

/// Colouring by lifetime is idempotent: a second application on the same
/// tick changes nothing.
pub proof fn lemma_color_by_lifetime_idempotent(
    modifier: ColorByLifetime,
    p: ParticleRecord,
    clock: u64,
    delta_time: u64,
)
    ensures
        modifier.modified(modifier.modified(p, clock, delta_time), clock, delta_time)
            == modifier.modified(p, clock, delta_time),
{
}

/// Colouring by lifetime commutes with the modifiers of other attributes: it
/// gives the same particle whether it runs before or after a constant force
/// or a sizing by lifetime.
pub proof fn lemma_color_by_lifetime_commutes(
    color: ColorByLifetime,
    force: ConstantForce,
    size: SizeOverLifetime,
    p: ParticleRecord,
    clock: u64,
    delta_time: u64,
)
    ensures
        color.modified(force.modified(p, clock, delta_time), clock, delta_time) == force.modified(
            color.modified(p, clock, delta_time),
            clock,
            delta_time,
        ),
        color.modified(size.modified(p, clock, delta_time), clock, delta_time) == size.modified(
            color.modified(p, clock, delta_time),
            clock,
            delta_time,
        ),
{
}

/// A modifier writes attributes only: when a particle was spawned, when it
/// expires and its blend factor stay as they were.
pub proof fn lemma_modifier_keeps_identity(
    modifier: Modifier,
    p: ParticleRecord,
    clock: u64,
    delta_time: u64,
)
    ensures
        modifier.modified(p, clock, delta_time).start == p.start,
        modifier.modified(p, clock, delta_time).expiration == p.expiration,
        modifier.modified(p, clock, delta_time).lerp_factor == p.lerp_factor,
{
}

} // verus!
