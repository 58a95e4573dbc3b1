//! Emitters: when new particles are made, how many, and where.
//!
//! An emitter waits for its countdown to run out, then fires the current
//! burst of its schedule within the same tick: it draws a count from the
//! burst's range, spawns that many particles into the target pool, sets the
//! countdown to the wait of the burst it has fired and moves on to the next
//! burst, going back to the first after the last.

use vstd::prelude::*;
use std::ops::Range;
use crate::fixed::{abs_fixed, fx_abs, SCALE};
use crate::math::{Mat4, Vec3, Vec4};
use crate::particles::{spawned, ParticleParams, ParticleRecord, Particles};
use crate::rng::draw_below;

verus! {

/// One entry of a burst schedule.
#[derive(Debug)]
pub struct EmitterBurst {
    /// How many particles the burst spawns: a draw from this range.
    pub count: Range<usize>,
    /// Microseconds from this burst to the next.
    pub wait: u64,
}

impl Clone for EmitterBurst {
    fn clone(&self) -> (copy: EmitterBurst)
        ensures
            copy == *self,
    {
        EmitterBurst { count: self.count.start..self.count.end, wait: self.wait }
    }
}

/// A change made to the parameters of a particle just before it is spawned.
/// A modifier may keep state and change it with every particle; what it
/// makes of a particle is a function of the particle and of the state it is
/// in when the particle arrives.
pub trait EmitterModifier: Send + Sync + 'static {
    /// What this modifier, in the state it is in, makes of `particle`.
    spec fn modified(&self, particle: ParticleParams) -> ParticleParams;

    fn modify(&mut self, particle: &mut ParticleParams)
        ensures
            *final(particle) == old(self).modified(*old(particle)),
    ;
}

/// What the modifiers `modifiers` make of `particle` when they run one after
/// the other, the first registered first: each gets what the one before it
/// has left.
pub open spec fn modified_in_order(
    modifiers: Seq<Box<dyn EmitterModifier>>,
    particle: ParticleParams,
) -> ParticleParams
    decreases modifiers.len(),
{
    if modifiers.len() == 0 {
        particle
    } else {
        modifiers.last().modified(modified_in_order(modifiers.drop_last(), particle))
    }
}

/// The region in which an emitter places new particles.
#[derive(Debug, Clone, Copy, PartialEq, Eq, Structural)]
pub enum EmitterShape {
    Sphere { center: Vec3, radius: i64 },
    Hemisphere { center: Vec3, radius: i64 },
}

/// What an emitter gives every particle that it spawns.
#[derive(Debug, Clone, Copy, PartialEq, Eq, Structural)]
pub struct SpawnDefaults {
    /// Time to live, in microseconds.
    pub lifetime: u64,
    /// Factor by which the unit direction is scaled to give the velocity.
    pub speed: i64,
    pub size: i64,
    pub color: Vec4,
}

/// `point` with its second coordinate folded to the non-negative side.
pub open spec fn folded_up(point: Vec3) -> Vec3 {
    Vec3 { y: fx_abs(point.y as int), ..point }
}

/// The position that a shape with this centre and radius gives to the point
/// `point` of the unit sphere, at the fraction `radius_factor` of the radius.
pub open spec fn placed(center: Vec3, radius: i64, point: Vec3, radius_factor: i64) -> Vec3 {
    point.spec_scaled_by(radius_factor as int).spec_scaled_by(radius as int).spec_plus(center)
}

impl EmitterShape {
    /// The parameters sampled for the point `point` of the unit sphere and
    /// the fraction `radius_factor` of the radius: the position lies in the
    /// shape, the velocity points radially outward, all else is zero.
    pub open spec fn spec_sample(self, point: Vec3, radius_factor: i64) -> ParticleParams {
        match self {
            EmitterShape::Sphere { center, radius } => ParticleParams {
                position: placed(center, radius, point, radius_factor),
                velocity: point,
                ..ParticleParams::spec_default()
            },
            EmitterShape::Hemisphere { center, radius } => ParticleParams {
                position: placed(center, radius, folded_up(point), radius_factor),
                velocity: folded_up(point),
                ..ParticleParams::spec_default()
            },
        }
    }

    /// Turns a point drawn on the unit sphere and a fraction drawn from the
    /// unit interval into spawn parameters.
    pub fn sample(&self, point: Vec3, radius_factor: i64) -> (params: ParticleParams)
        ensures
            params == self.spec_sample(point, radius_factor),
    {
        match self {
            EmitterShape::Sphere { center, radius } => Self::sample_sphere(
                *center,
                *radius,
                point,
                radius_factor,
            ),
            EmitterShape::Hemisphere { center, radius } => Self::sample_hemisphere(
                *center,
                *radius,
                point,
                radius_factor,
            ),
        }
    }

    pub fn sample_sphere(center: Vec3, radius: i64, point: Vec3, radius_factor: i64) -> (params:
        ParticleParams)
        ensures
            params == (EmitterShape::Sphere { center, radius }).spec_sample(point, radius_factor),
    {
        let position: Vec3 = point;
        ParticleParams {
            position: position.scaled_by(radius_factor).scaled_by(radius).plus(center),
            rotation: 0,
            size: 0,
            velocity: position,
            angular_velocity: 0,
            color: Vec4::zero(),
            lifetime: 0,
            lerp_factor: 0,
        }
    }

    pub fn sample_hemisphere(center: Vec3, radius: i64, point: Vec3, radius_factor: i64) -> (params:
        ParticleParams)
        ensures
            params == (EmitterShape::Hemisphere { center, radius }).spec_sample(point, radius_factor),
            params.velocity.y >= 0,
    {
        let mut position: Vec3 = point;
        position.y = abs_fixed(position.y);
        ParticleParams {
            position: position.scaled_by(radius_factor).scaled_by(radius).plus(center),
            rotation: 0,
            size: 0,
            velocity: position,
            angular_velocity: 0,
            color: Vec4::zero(),
            lifetime: 0,
            lerp_factor: 0,
        }
    }
}

/// A shape of radius zero places every particle at its centre.
pub proof fn lemma_zero_radius_at_center(center: Vec3, point: Vec3, radius_factor: i64)
    ensures
        placed(center, 0, point, radius_factor) == center,
{
    assert forall|c: int| #[trigger] crate::fixed::scaled(c, 0) == 0 by {
        assert(c * 0 == 0);
    }
}

/// Whether a burst schedule can be run: it has at least one burst, and no
/// burst has an empty count range.
pub open spec fn valid_schedule(bursts: Seq<EmitterBurst>) -> bool {
    &&& bursts.len() > 0
    &&& forall|i: int| 0 <= i < bursts.len() ==> (#[trigger] bursts[i]).count.start < bursts[i].count.end
}

/// What decides when and where particles are spawned into a pool.
pub struct ParticleEmitter {
    next_burst: u64,
    burst_idx: usize,
    bursts: Vec<EmitterBurst>,
    shape: EmitterShape,
    defaults: SpawnDefaults,
    modifiers: Vec<Box<dyn EmitterModifier>>,
}

/// The parameters of a particle that an emitter with this shape and these
/// defaults makes from its draws, before any spawn modifier sees them: the
/// sampled position carried into the world, the sampled direction scaled by
/// the speed and rotated into the world, and the defaults.
pub open spec fn prepared(
    shape: EmitterShape,
    defaults: SpawnDefaults,
    local_to_world: Mat4,
    point: Vec3,
    radius_factor: i64,
    lerp_factor: i64,
) -> ParticleParams {
    ParticleParams {
        position: local_to_world.spec_transform_point3(shape.spec_sample(point, radius_factor).position),
        velocity: local_to_world.spec_transform_vector3(
            shape.spec_sample(point, radius_factor).velocity.spec_scaled_by(defaults.speed as int),
        ),
        size: defaults.size,
        color: defaults.color,
        lifetime: defaults.lifetime,
        lerp_factor: lerp_factor,
        ..shape.spec_sample(point, radius_factor)
    }
}

/// Whether `record` is a particle that an emitter can spawn at pool clock
/// `clock` from a point that `sample_point` can return, while its spawn
/// modifiers are in the states `modifiers`: for some such point, some
/// fraction of the radius in `[0, 1)` and some blend factor in `[0, 1]` it
/// is the particle spawned from the prepared parameters as the modifiers,
/// run in the order of registration, have left them.
pub open spec fn can_emit<F: Fn() -> Vec3>(
    shape: EmitterShape,
    defaults: SpawnDefaults,
    local_to_world: Mat4,
    sample_point: &F,
    clock: u64,
    modifiers: Seq<Box<dyn EmitterModifier>>,
    record: ParticleRecord,
) -> bool {
    exists|point: Vec3, radius_factor: i64, lerp_factor: i64|
        {
            &&& sample_point.ensures((), point)
            &&& 0 <= radius_factor < SCALE
            &&& 0 <= lerp_factor <= SCALE
            &&& record == #[trigger] spawned(
                modified_in_order(
                    modifiers,
                    prepared(shape, defaults, local_to_world, point, radius_factor, lerp_factor),
                ),
                clock,
            )
        }
}

/// Whether `states` are the states that the spawn modifiers of an emitter go
/// through while it fires one burst of particles `fresh`: they start as
/// `first` and end as `last`, the particle spawned `k`-th finds them in the
/// state `states[k]` and is one that `can_emit` admits for that state.
pub open spec fn burst_through<F: Fn() -> Vec3>(
    shape: EmitterShape,
    defaults: SpawnDefaults,
    local_to_world: Mat4,
    sample_point: &F,
    clock: u64,
    first: Seq<Box<dyn EmitterModifier>>,
    last: Seq<Box<dyn EmitterModifier>>,
    fresh: Seq<ParticleRecord>,
    states: Seq<Seq<Box<dyn EmitterModifier>>>,
) -> bool {
    &&& states.len() == fresh.len() + 1
    &&& states[0] == first
    &&& states[fresh.len() as int] == last
    &&& forall|k: int|
        0 <= k < fresh.len() ==> can_emit(
            shape,
            defaults,
            local_to_world,
            sample_point,
            clock,
            #[trigger] states[k],
            fresh[k],
        )
}

impl ParticleEmitter {
    /// The burst schedule.
    pub closed spec fn bursts(&self) -> Seq<EmitterBurst> {
        self.bursts@
    }

    /// Index of the burst that fires next.
    pub closed spec fn burst_index(&self) -> usize {
        self.burst_idx
    }

    /// Microseconds left until the next burst.
    pub closed spec fn countdown(&self) -> u64 {
        self.next_burst
    }

    pub closed spec fn shape(&self) -> EmitterShape {
        self.shape
    }

    pub closed spec fn defaults(&self) -> SpawnDefaults {
        self.defaults
    }

    /// The spawn modifiers, in the order of registration.
    pub closed spec fn modifiers(&self) -> Seq<Box<dyn EmitterModifier>> {
        self.modifiers@
    }

    /// Number of spawn modifiers.
    pub open spec fn modifier_count(&self) -> nat {
        self.modifiers().len()
    }

    /// The schedule can be run and the burst index points into it.
    pub open spec fn wf(&self) -> bool {
        &&& valid_schedule(self.bursts())
        &&& self.burst_index() < self.bursts().len()
    }

    /// The burst that fires next.
    pub open spec fn current_burst(&self) -> EmitterBurst {
        self.bursts()[self.burst_index() as int]
    }

    /// An emitter that fires the first burst of `bursts` on its first tick.
    /// Its particles get a speed of one and otherwise zero defaults: no
    /// lifetime, no size, no colour.
    pub fn new(shape: EmitterShape, bursts: Vec<EmitterBurst>) -> (emitter: ParticleEmitter)
        requires
            valid_schedule(bursts@),
        ensures
            emitter.wf(),
            emitter.bursts() == bursts@,
            emitter.burst_index() == 0,
            emitter.countdown() == 0,
            emitter.shape() == shape,
            emitter.defaults() == (SpawnDefaults {
                lifetime: 0,
                speed: SCALE,
                size: 0,
                color: Vec4::spec_zero(),
            }),
            emitter.modifiers() == Seq::<Box<dyn EmitterModifier>>::empty(),
    {
        ParticleEmitter {
            next_burst: 0,
            burst_idx: 0,
            bursts,
            shape,
            defaults: SpawnDefaults { lifetime: 0, speed: SCALE, size: 0, color: Vec4::zero() },
            modifiers: Vec::new(),
        }
    }

    /// The parameters of a particle made from these draws, before any spawn
    /// modifier sees them.
    pub fn prepare(
        &self,
        local_to_world: &Mat4,
        point: Vec3,
        radius_factor: i64,
        lerp_factor: i64,
    ) -> (params: ParticleParams)
        ensures
            params == prepared(
                self.shape(),
                self.defaults(),
                *local_to_world,
                point,
                radius_factor,
                lerp_factor,
            ),
    {
        let mut params: ParticleParams = self.shape.sample(point, radius_factor);
        params.position = local_to_world.transform_point3(params.position);
        params.velocity = local_to_world.transform_vector3(
            params.velocity.scaled_by(self.defaults.speed),
        );
        params.size = self.defaults.size;
        params.color = self.defaults.color;
        params.lifetime = self.defaults.lifetime;
        params.lerp_factor = lerp_factor;
        params
    }

    /// Moves the countdown `delta_time` microseconds on and says whether it
    /// has run out, that is, whether a burst is due.
    pub fn tick(&mut self, delta_time: u64) -> (due: bool)
        ensures
            final(self).countdown() == if old(self).countdown() > delta_time {
                (old(self).countdown() - delta_time) as u64
            } else {
                0
            },
            due == (old(self).countdown() <= delta_time),
            final(self).bursts() == old(self).bursts(),
            final(self).burst_index() == old(self).burst_index(),
            final(self).shape() == old(self).shape(),
            final(self).defaults() == old(self).defaults(),
            final(self).modifiers() == old(self).modifiers(),
    {
        if self.next_burst > delta_time {
            self.next_burst = self.next_burst - delta_time;
            false
        } else {
            self.next_burst = 0;
            true
        }
    }

    /// Sets the lifetime, in microseconds, that every spawned particle gets.
    pub fn with_default_lifetime(self, lifetime: u64) -> (emitter: ParticleEmitter)
        ensures
            emitter.defaults() == (SpawnDefaults { lifetime, ..self.defaults() }),
            emitter.bursts() == self.bursts(),
            emitter.burst_index() == self.burst_index(),
            emitter.countdown() == self.countdown(),
            emitter.shape() == self.shape(),
            emitter.modifiers() == self.modifiers(),
    {
        let mut emitter = self;
        emitter.defaults.lifetime = lifetime;
        emitter
    }

    /// Sets the factor by which the unit direction is scaled to give the velocity.
    pub fn with_default_speed(self, speed: i64) -> (emitter: ParticleEmitter)
        ensures
            emitter.defaults() == (SpawnDefaults { speed, ..self.defaults() }),
            emitter.bursts() == self.bursts(),
            emitter.burst_index() == self.burst_index(),
            emitter.countdown() == self.countdown(),
            emitter.shape() == self.shape(),
            emitter.modifiers() == self.modifiers(),
    {
        let mut emitter = self;
        emitter.defaults.speed = speed;
        emitter
    }

    /// Sets the size that every spawned particle gets.
    pub fn with_default_size(self, size: i64) -> (emitter: ParticleEmitter)
        ensures
            emitter.defaults() == (SpawnDefaults { size, ..self.defaults() }),
            emitter.bursts() == self.bursts(),
            emitter.burst_index() == self.burst_index(),
            emitter.countdown() == self.countdown(),
            emitter.shape() == self.shape(),
            emitter.modifiers() == self.modifiers(),
    {
        let mut emitter = self;
        emitter.defaults.size = size;
        emitter
    }

    /// Sets the colour that every spawned particle gets.
    pub fn with_default_color(self, color: Vec4) -> (emitter: ParticleEmitter)
        ensures
            emitter.defaults() == (SpawnDefaults { color, ..self.defaults() }),
            emitter.bursts() == self.bursts(),
            emitter.burst_index() == self.burst_index(),
            emitter.countdown() == self.countdown(),
            emitter.shape() == self.shape(),
            emitter.modifiers() == self.modifiers(),
    {
        let mut emitter = self;
        emitter.defaults.color = color;
        emitter
    }

    /// Registers a spawn modifier behind those already registered.
    pub fn add_modifier(&mut self, modifier: Box<dyn EmitterModifier>)
        ensures
            final(self).modifiers() == old(self).modifiers().push(modifier),
            final(self).modifier_count() == old(self).modifier_count() + 1,
            final(self).bursts() == old(self).bursts(),
            final(self).burst_index() == old(self).burst_index(),
            final(self).countdown() == old(self).countdown(),
            final(self).shape() == old(self).shape(),
            final(self).defaults() == old(self).defaults(),
    {
        self.modifiers.push(modifier);
        proof {
            vstd::seq::axiom_seq_push_len(old(self).modifiers@, modifier);
        }
    }

    /// Index of the burst that fires next.
    #[verifier::when_used_as_spec(burst_index)]
    pub fn burst_idx(&self) -> (idx: usize)
        ensures
            idx == self.burst_index(),
    {
        self.burst_idx
    }

    /// Microseconds left until the next burst.
    #[verifier::when_used_as_spec(countdown)]
    pub fn next_burst(&self) -> (left: u64)
        ensures
            left == self.countdown(),
    {
        self.next_burst
    }

    /// Runs every spawn modifier over `params`, in the order of registration.
    fn run_modifiers(&mut self, params: &mut ParticleParams)
        ensures
            *final(params) == modified_in_order(old(self).modifiers(), *old(params)),
            final(self).bursts() == old(self).bursts(),
            final(self).burst_index() == old(self).burst_index(),
            final(self).countdown() == old(self).countdown(),
            final(self).shape() == old(self).shape(),
            final(self).defaults() == old(self).defaults(),
            final(self).modifier_count() == old(self).modifier_count(),
    {
        let ghost registered = self.modifiers@;
        let mut m: usize = 0;
        assert(registered.subrange(0, 0) =~= Seq::<Box<dyn EmitterModifier>>::empty());
        while m < self.modifiers.len()
            invariant
                registered == old(self).modifiers(),
                self.bursts() == old(self).bursts(),
                self.burst_index() == old(self).burst_index(),
                self.countdown() == old(self).countdown(),
                self.shape() == old(self).shape(),
                self.defaults() == old(self).defaults(),
                self.modifiers@.len() == registered.len(),
                m <= self.modifiers@.len(),
                forall|j: int| m <= j < registered.len() ==> self.modifiers@[j] == registered[j],
                *params == modified_in_order(registered.subrange(0, m as int), *old(params)),
            decreases self.modifiers.len() - m,
        {
            let ghost given = *params;
            self.modifiers[m].modify(params);
            proof {
                let done = registered.subrange(0, m + 1);
                assert(done.drop_last() =~= registered.subrange(0, m as int));
                assert(done.last() == registered[m as int]);
                assert(*params == registered[m as int].modified(given));
            }
            m = m + 1;
        }
        assert(registered.subrange(0, registered.len() as int) =~= registered);
    }
}

/// What one tick of `delta_time` microseconds of the emitter `before` on the
/// pool `pool_before` can leave: the emitter `after` and the pool
/// `pool_after`.
///
/// The schedule, the shape, the defaults and the number of spawn modifiers
/// stay, and so does the pool's clock. While the countdown has not run out
/// it goes down by the delta, and the pool keeps its particles and the
/// modifiers their states. When it has run out, the countdown is the wait of
/// the burst that was current, the schedule has moved on by one burst with
/// wrap-around, the pool has grown by a count from that burst's range, its
/// old particles are where they were, and every new one starts at the
/// pool's clock and is what `can_emit` admits for the states in which it
/// found the spawn modifiers: the first finds them as they were before the
/// tick, the tick leaves them as the last has left them.
pub open spec fn emitted<F: Fn() -> Vec3>(
    before: ParticleEmitter,
    after: ParticleEmitter,
    pool_before: Particles,
    pool_after: Particles,
    local_to_world: Mat4,
    delta_time: u64,
    sample_point: &F,
) -> bool {
    &&& after.wf()
    &&& pool_after.wf()
    &&& pool_after.spec_clock() == pool_before.spec_clock()
    &&& after.bursts() == before.bursts()
    &&& after.shape() == before.shape()
    &&& after.defaults() == before.defaults()
    &&& after.modifier_count() == before.modifier_count()
    &&& before.countdown() > delta_time ==> {
        &&& after.countdown() == before.countdown() - delta_time
        &&& after.burst_index() == before.burst_index()
        &&& after.modifiers() == before.modifiers()
        &&& pool_after@ == pool_before@
    }
    &&& before.countdown() <= delta_time ==> {
        &&& after.countdown() == before.current_burst().wait
        &&& after.burst_index() == (before.burst_index() + 1) % (before.bursts().len() as int)
        &&& before.current_burst().count.start <= pool_after@.len() - pool_before@.len()
            < before.current_burst().count.end
        &&& pool_after@.subrange(0, pool_before@.len() as int) == pool_before@
        &&& forall|i: int|
            pool_before@.len() <= i < pool_after@.len() ==> (#[trigger] pool_after@[i]).start
                == pool_before.spec_clock()
        &&& exists|states: Seq<Seq<Box<dyn EmitterModifier>>>|
            #[trigger] burst_through(
                before.shape(),
                before.defaults(),
                local_to_world,
                sample_point,
                pool_before.spec_clock(),
                before.modifiers(),
                after.modifiers(),
                pool_after@.subrange(pool_before@.len() as int, pool_after@.len() as int),
                states,
            )
    }
}

/// One tick of an emitter on its target pool. The countdown moves
/// `delta_time` microseconds on. While it has not run out, nothing else
/// happens. When it has, the current burst fires: a count is drawn from its
/// range, and for each particle a point of the unit sphere is taken from
/// `sample_point`, a fraction of the radius and a blend factor are drawn,
/// the parameters are prepared from them, the spawn modifiers are run over
/// them in the order of registration, and the particle is spawned. Then the
/// countdown is set to the wait of the burst that fired and the schedule
/// moves on by one burst, from the last back to the first.
pub fn emit_particles<F: Fn() -> Vec3>(
    emitter: &mut ParticleEmitter,
    particles: &mut Particles,
    local_to_world: &Mat4,
    delta_time: u64,
    sample_point: &F,
)
    requires
        old(emitter).wf(),
        old(particles).wf(),
        sample_point.requires(()),
    ensures
        emitted(
            *old(emitter),
            *final(emitter),
            *old(particles),
            *final(particles),
            *local_to_world,
            delta_time,
            sample_point,
        ),
{
    if !emitter.tick(delta_time) {
        return ;
    }
    let mut rng = rand::thread_rng();
    let lowest: usize = emitter.bursts[emitter.burst_idx].count.start;
    let limit: usize = emitter.bursts[emitter.burst_idx].count.end;
    let wait: u64 = emitter.bursts[emitter.burst_idx].wait;
    let count: usize = draw_below(&mut rng, lowest, limit);
    particles.reserve(count);

    let ghost before = particles@;
    let ghost clock = particles.spec_clock();
    let ghost mut states: Seq<Seq<Box<dyn EmitterModifier>>> = seq![emitter.modifiers()];
    let mut made: usize = 0;
    assert(particles@.subrange(0, before.len() as int) =~= before);
    while made < count
        invariant
            made <= count,
            sample_point.requires(()),
            emitter.wf(),
            particles.wf(),
            particles.spec_clock() == clock,
            emitter.bursts() == old(emitter).bursts(),
            emitter.burst_index() == old(emitter).burst_index(),
            emitter.shape() == old(emitter).shape(),
            emitter.defaults() == old(emitter).defaults(),
            emitter.modifier_count() == old(emitter).modifier_count(),
            particles@.len() == before.len() + made,
            particles@.subrange(0, before.len() as int) == before,
            forall|i: int| before.len() <= i < particles@.len() ==> (#[trigger] particles@[i]).start == clock,
            states.len() == made + 1,
            states[0] == old(emitter).modifiers(),
            states[made as int] == emitter.modifiers(),
            forall|k: int|
                0 <= k < made ==> can_emit(
                    old(emitter).shape(),
                    old(emitter).defaults(),
                    *local_to_world,
                    sample_point,
                    clock,
                    #[trigger] states[k],
                    particles@[before.len() + k],
                ),
        decreases count - made,
    {
        let point: Vec3 = sample_point();
        let radius_factor: i64 = draw_below(&mut rng, 0, 1_000_000) as i64;
        let lerp_factor: i64 = draw_below(&mut rng, 0, 1_000_001) as i64;
        let mut params: ParticleParams = emitter.prepare(
            local_to_world,
            point,
            radius_factor,
            lerp_factor,
        );
        emitter.run_modifiers(&mut params);
        let ghost earlier = particles@;
        particles.spawn(params);
        proof {
            assert(particles@.subrange(0, before.len() as int) =~= earlier.subrange(
                0,
                before.len() as int,
            ));
            assert(particles@[before.len() + made] == spawned(
                modified_in_order(
                    states[made as int],
                    prepared(
                        old(emitter).shape(),
                        old(emitter).defaults(),
                        *local_to_world,
                        point,
                        radius_factor,
                        lerp_factor,
                    ),
                ),
                clock,
            ));
            let grown = states.push(emitter.modifiers());
            assert forall|k: int| 0 <= k < made + 1 implies can_emit(
                old(emitter).shape(),
                old(emitter).defaults(),
                *local_to_world,
                sample_point,
                clock,
                #[trigger] grown[k],
                particles@[before.len() + k],
            ) by {
                assert(grown[k] == states[k]);
                if k < made {
                    assert(particles@[before.len() + k] == earlier[before.len() + k]);
                }
            }
            states = grown;
        }
        made = made + 1;
    }
    proof {
        let fresh = particles@.subrange(before.len() as int, particles@.len() as int);
        assert forall|k: int| 0 <= k < fresh.len() implies can_emit(
            old(emitter).shape(),
            old(emitter).defaults(),
            *local_to_world,
            sample_point,
            clock,
            #[trigger] states[k],
            fresh[k],
        ) by {
            assert(fresh[k] == particles@[before.len() + k]);
        }
        assert(burst_through(
            old(emitter).shape(),
            old(emitter).defaults(),
            *local_to_world,
            sample_point,
            clock,
            old(emitter).modifiers(),
            emitter.modifiers(),
            fresh,
            states,
        ));
    }
    assert(emitter.burst_idx < emitter.bursts.len());
    emitter.next_burst = wait;
    emitter.burst_idx = (emitter.burst_idx + 1) % emitter.bursts.len();
}

} // verus!
