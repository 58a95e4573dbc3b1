//! The particle pool: one batch of particles stored as parallel columns, one
//! column per attribute, together with the pool's own clock.

use vstd::prelude::*;
use vstd::multiset::Multiset;
use crate::fixed::{floor_div, saturate, saturate_i128, SCALE};
use crate::math::{Vec3, Vec4};

verus! {

/// What a caller supplies to spawn one particle.
#[derive(Debug, Clone, Copy, PartialEq, Eq, Structural)]
pub struct ParticleParams {
    pub position: Vec3,
    pub rotation: i64,
    pub size: i64,
    pub velocity: Vec3,
    pub angular_velocity: i64,
    /// Red, green, blue and alpha.
    pub color: Vec4,
    /// Time to live, in microseconds.
    pub lifetime: u64,
    /// Where between the low and the high end of a min/max curve this
    /// particle sits; fixed for its whole life.
    pub lerp_factor: i64,
}

impl ParticleParams {
    pub open spec fn spec_default() -> ParticleParams {
        ParticleParams {
            position: Vec3::spec_zero(),
            rotation: 0,
            size: 0,
            velocity: Vec3::spec_zero(),
            angular_velocity: 0,
            color: Vec4::spec_zero(),
            lifetime: 0,
            lerp_factor: 0,
        }
    }
}

impl Default for ParticleParams {
    fn default() -> (r: ParticleParams)
        ensures
            r == ParticleParams::spec_default(),
    {
        ParticleParams {
            position: Vec3::zero(),
            rotation: 0,
            size: 0,
            velocity: Vec3::zero(),
            angular_velocity: 0,
            color: Vec4::zero(),
            lifetime: 0,
            lerp_factor: 0,
        }
    }
}

/// Read access to the attributes of one particle.
#[derive(Debug, Clone, Copy)]
pub struct Particle<'a> {
    pub position: &'a Vec4,
    pub size: &'a i64,
    pub velocity: &'a Vec4,
    pub color: &'a Vec4,
}

/// Write access to the attributes of one particle.
#[derive(Debug)]
pub struct ParticleMut<'a> {
    pub position: &'a mut Vec4,
    pub size: &'a mut i64,
    pub velocity: &'a mut Vec4,
    pub color: &'a mut Vec4,
}

/// Everything the pool knows about one particle. The fourth component of
/// `position` is the rotation, that of `velocity` the angular velocity.
pub struct ParticleRecord {
    pub position: Vec4,
    pub velocity: Vec4,
    pub color: Vec4,
    pub size: i64,
    pub lerp_factor: i64,
    /// Pool clock at which the particle was spawned.
    pub start: u64,
    /// Pool clock from which on the particle is dead.
    pub expiration: u64,
}

/// The pool's storage as it is: one sequence per attribute.
pub struct Columns {
    pub positions: Seq<Vec4>,
    pub velocities: Seq<Vec4>,
    pub colors: Seq<Vec4>,
    pub sizes: Seq<i64>,
    pub lerp_factors: Seq<i64>,
    pub starts: Seq<u64>,
    pub expirations: Seq<u64>,
}

impl Columns {
    /// Every column has one entry per particle.
    pub open spec fn aligned(self) -> bool {
        &&& self.velocities.len() == self.positions.len()
        &&& self.colors.len() == self.positions.len()
        &&& self.sizes.len() == self.positions.len()
        &&& self.lerp_factors.len() == self.positions.len()
        &&& self.starts.len() == self.positions.len()
        &&& self.expirations.len() == self.positions.len()
    }

    /// The particle whose attributes sit at index `i` of every column.
    pub open spec fn record(self, i: int) -> ParticleRecord {
        ParticleRecord {
            position: self.positions[i],
            velocity: self.velocities[i],
            color: self.colors[i],
            size: self.sizes[i],
            lerp_factor: self.lerp_factors[i],
            start: self.starts[i],
            expiration: self.expirations[i],
        }
    }

    /// The columns read row by row.
    pub open spec fn records(self) -> Seq<ParticleRecord> {
        Seq::new(self.positions.len(), |i: int| self.record(i))
    }
}

/// The record of a particle spawned from `params` when the pool clock reads `clock`.
pub open spec fn spawned(params: ParticleParams, clock: u64) -> ParticleRecord {
    ParticleRecord {
        position: Vec4::spec_from_vec3(params.position, params.rotation),
        velocity: Vec4::spec_from_vec3(params.velocity, params.angular_velocity),
        color: params.color,
        size: params.size,
        lerp_factor: params.lerp_factor,
        start: clock,
        expiration: if clock + params.lifetime > u64::MAX {
            u64::MAX
        } else {
            (clock + params.lifetime) as u64
        },
    }
}

/// `spawned` at a given clock, as a function on parameters.
pub open spec fn spawned_at(clock: u64) -> spec_fn(ParticleParams) -> ParticleRecord {
    |params: ParticleParams| spawned(params, clock)
}

/// The share of its lifetime that a particle has used up when the clock reads
/// `clock`, `(clock - start) / (expiration - start)`: zero at spawn, one at
/// expiration, negative for a particle that starts only after `clock`. A
/// particle without a lifetime is at zero.
pub open spec fn lifetime_fraction(clock: int, start: int, expiration: int) -> i64 {
    if expiration <= start {
        0
    } else {
        saturate(((clock - start) * SCALE) / (expiration - start))
    }
}

/// Whether a particle is still alive when the clock reads `clock`.
pub open spec fn is_alive(p: ParticleRecord, clock: int) -> bool {
    p.expiration > clock
}

/// The particle after `micros` microseconds of motion: its position and
/// rotation have moved by its velocity, everything else is as it was.
pub open spec fn integrated(p: ParticleRecord, micros: int) -> ParticleRecord {
    ParticleRecord { position: p.position.spec_advanced(p.velocity, micros), ..p }
}

/// The test `is_alive` at a given clock, as a predicate on particles.
pub open spec fn alive_at(clock: int) -> spec_fn(ParticleRecord) -> bool {
    |p: ParticleRecord| is_alive(p, clock)
}

/// The step `integrated` over a given span, as a function on particles.
pub open spec fn moved_by(micros: int) -> spec_fn(ParticleRecord) -> ParticleRecord {
    |p: ParticleRecord| integrated(p, micros)
}

/// What a tick leaves of the particles `s`: those still alive at the new
/// clock reading `clock`, each moved by `micros` microseconds, in their old order.
pub open spec fn survivors(s: Seq<ParticleRecord>, clock: int, micros: int) -> Seq<ParticleRecord> {
    s.filter(alive_at(clock)).map_values(moved_by(micros))
}

/// Appending one particle appends its moved self to the survivors if it is
/// alive, and changes nothing if it is dead.
pub proof fn lemma_survivors_push(s: Seq<ParticleRecord>, p: ParticleRecord, clock: int, micros: int)
    ensures
        survivors(s.push(p), clock, micros) == if is_alive(p, clock) {
            survivors(s, clock, micros).push(integrated(p, micros))
        } else {
            survivors(s, clock, micros)
        },
{
    s.lemma_filter_push(p, alive_at(clock));
    if is_alive(p, clock) {
        assert(survivors(s.push(p), clock, micros) =~= survivors(s, clock, micros).push(
            integrated(p, micros),
        ));
    }
}

/// Putting one particle in front puts its moved self in front of the
/// survivors if it is alive, and changes nothing if it is dead.
pub proof fn lemma_survivors_prepend(s: Seq<ParticleRecord>, p: ParticleRecord, clock: int, micros: int)
    ensures
        survivors(seq![p] + s, clock, micros) == if is_alive(p, clock) {
            seq![integrated(p, micros)] + survivors(s, clock, micros)
        } else {
            survivors(s, clock, micros)
        },
{
    s.lemma_filter_prepend(p, alive_at(clock));
    if is_alive(p, clock) {
        assert(survivors(seq![p] + s, clock, micros) =~= seq![integrated(p, micros)] + survivors(
            s,
            clock,
            micros,
        ));
    } else {
        assert(Seq::<ParticleRecord>::empty() + s.filter(alive_at(clock)) =~= s.filter(
            alive_at(clock),
        ));
    }
}

/// As a bag, a sequence with one more element in front is the sequence with
/// that element added.
proof fn lemma_bag_prepend(x: ParticleRecord, s: Seq<ParticleRecord>)
    ensures
        (seq![x] + s).to_multiset() =~= s.to_multiset().insert(x),
{
    vstd::seq_lib::to_multiset_insert(s, 0, x);
    assert(s.insert(0, x) =~= seq![x] + s);
}

/// No particle survives a tick that none of them outlives.
pub proof fn lemma_all_expired_none_survive(s: Seq<ParticleRecord>, clock: int, micros: int)
    requires
        forall|i: int| 0 <= i < s.len() ==> s[i].expiration <= clock,
    ensures
        survivors(s, clock, micros).len() == 0,
    decreases s.len(),
{
    if s.len() == 0 {
        s.lemma_filter_len(alive_at(clock));
    } else {
        lemma_all_expired_none_survive(s.drop_last(), clock, micros);
        lemma_survivors_push(s.drop_last(), s.last(), clock, micros);
        assert(s.drop_last().push(s.last()) =~= s);
    }
}

/// Whether `q` is the moved self of a particle of `s` that is alive at `clock`.
pub open spec fn is_survivor_of(
    q: ParticleRecord,
    s: Seq<ParticleRecord>,
    clock: int,
    micros: int,
) -> bool {
    exists|j: int|
        0 <= j < s.len() && is_alive(#[trigger] s[j], clock) && q == integrated(s[j], micros)
}

/// What it means that the pool `after` holds exactly the survivors of
/// `before`, whatever their order: nothing dead is left, every particle that
/// was alive is there as its moved self, nothing else is there, and as many
/// are there as were alive.
pub proof fn lemma_death_correctness(
    before: Seq<ParticleRecord>,
    after: Seq<ParticleRecord>,
    clock: int,
    micros: int,
)
    requires
        after.to_multiset() == survivors(before, clock, micros).to_multiset(),
    ensures
        forall|i: int| 0 <= i < after.len() ==> is_alive(#[trigger] after[i], clock),
        forall|j: int|
            0 <= j < before.len() && is_alive(#[trigger] before[j], clock) ==> after.contains(
                integrated(before[j], micros),
            ),
        forall|i: int|
            0 <= i < after.len() ==> is_survivor_of(#[trigger] after[i], before, clock, micros),
        after.len() == before.filter(alive_at(clock)).len(),
{
    broadcast use vstd::seq_lib::group_to_multiset_ensures;

    let kept = before.filter(alive_at(clock));
    let out = survivors(before, clock, micros);
    vstd::seq_lib::to_multiset_len(after);
    vstd::seq_lib::to_multiset_len(out);
    assert forall|i: int| 0 <= i < after.len() implies (is_alive(#[trigger] after[i], clock)
        && is_survivor_of(after[i], before, clock, micros)) by {
        assert(after.contains(after[i]));
        vstd::seq_lib::to_multiset_contains(after, after[i]);
        vstd::seq_lib::to_multiset_contains(out, after[i]);
        let k = choose|k: int| 0 <= k < out.len() && out[k] == after[i];
        before.lemma_filter_pred(alive_at(clock), k);
        assert(kept.contains(kept[k]));
        before.lemma_filter_contains_rev(alive_at(clock), kept[k]);
        let j = choose|j: int| 0 <= j < before.len() && before[j] == kept[k];
        assert(after[i] == integrated(before[j], micros));
    }
    assert forall|j: int|
        0 <= j < before.len() && is_alive(#[trigger] before[j], clock) implies after.contains(
        integrated(before[j], micros),
    ) by {
        before.lemma_filter_contains(alive_at(clock), j);
        let k = choose|k: int| 0 <= k < kept.len() && kept[k] == before[j];
        assert(out[k] == integrated(before[j], micros));
        assert(out.contains(integrated(before[j], micros)));
        vstd::seq_lib::to_multiset_contains(after, integrated(before[j], micros));
        vstd::seq_lib::to_multiset_contains(out, integrated(before[j], micros));
    }
}

/// A particle that has just been spawned has used up none of its lifetime.
pub proof fn lemma_fraction_at_spawn(clock: int, expiration: int)
    ensures
        lifetime_fraction(clock, clock, expiration) == 0,
{
    if expiration > clock {
        let d = expiration - clock;
        assert((0 * SCALE) / d == 0) by (nonlinear_arith)
            requires
                d > 0,
        ;
    }
}

/// While a particle is alive, the share of its lifetime that it has used up
/// is at least zero and stays below one.
pub proof fn lemma_fraction_bounds(clock: int, start: int, expiration: int)
    requires
        start <= clock < expiration,
    ensures
        0 <= lifetime_fraction(clock, start, expiration) < SCALE,
{
    let x = clock - start;
    let d = expiration - start;
    let s = SCALE as int;
    assert(0 <= (x * s) / d < s) by (nonlinear_arith)
        requires
            0 <= x < d,
            s > 0,
    ;
}

/// At the moment of its expiration a particle has used up its whole lifetime.
pub proof fn lemma_fraction_at_expiration(start: int, expiration: int)
    requires
        start < expiration,
    ensures
        lifetime_fraction(expiration, start, expiration) == SCALE,
{
    let d = expiration - start;
    let s = SCALE as int;
    assert((d * s) / d == s) by (nonlinear_arith)
        requires
            d > 0,
    ;
}

/// The used-up share of a lifetime does not shrink as the clock moves on.
pub proof fn lemma_fraction_monotonic(earlier: int, later: int, start: int, expiration: int)
    requires
        earlier <= later,
    ensures
        lifetime_fraction(earlier, start, expiration) <= lifetime_fraction(later, start, expiration),
{
    if expiration > start {
        let x = earlier - start;
        let y = later - start;
        let d = expiration - start;
        let s = SCALE as int;
        assert(x * s <= y * s) by (nonlinear_arith)
            requires
                x <= y,
                s > 0,
        ;
        vstd::arithmetic::div_mod::lemma_div_is_ordered(x * s, y * s, d);
    }
}

/// A container for a batch of particles.
pub struct Particles {
    pub(crate) clock: u64,
    // X, Y, Z - world coordinates
    // W - 1D rotation
    pub(crate) positions: Vec<Vec4>,
    pub(crate) colors: Vec<Vec4>,
    // X, Y, Z - world coordinates
    // W - 1D rotation
    pub(crate) velocities: Vec<Vec4>,
    pub(crate) sizes: Vec<i64>,
    pub(crate) lerp_factors: Vec<i64>,
    pub(crate) starts: Vec<u64>,
    pub(crate) expirations: Vec<u64>,
}

impl View for Particles {
    type V = Seq<ParticleRecord>;

    /// The particles in storage order.
    open spec fn view(&self) -> Seq<ParticleRecord> {
        self.columns().records()
    }
}

impl Default for Particles {
    /// An empty pool without reserved room.
    fn default() -> (pool: Particles)
        ensures
            pool.wf(),
            pool@.len() == 0,
            pool.spec_clock() == 0,
    {
        Particles::new(0)
    }
}

impl Clone for Particles {
    fn clone(&self) -> (copy: Particles)
        ensures
            copy@ == self@,
            copy.spec_clock() == self.spec_clock(),
            self.wf() ==> copy.wf(),
    {
        let copy = Particles {
            clock: self.clock,
            positions: self.positions.clone(),
            colors: self.colors.clone(),
            velocities: self.velocities.clone(),
            sizes: self.sizes.clone(),
            lerp_factors: self.lerp_factors.clone(),
            starts: self.starts.clone(),
            expirations: self.expirations.clone(),
        };
        assert(copy.positions@ =~= self.positions@);
        assert(copy.colors@ =~= self.colors@);
        assert(copy.velocities@ =~= self.velocities@);
        assert(copy.sizes@ =~= self.sizes@);
        assert(copy.lerp_factors@ =~= self.lerp_factors@);
        assert(copy.starts@ =~= self.starts@);
        assert(copy.expirations@ =~= self.expirations@);
        copy
    }
}

/// Capacity of a column as `Vec::capacity` reports it: the number of entries
/// the vector can hold before it has to allocate again, which is never less
/// than the number it holds.
#[verifier::external_body]
fn column_capacity(column: &Vec<Vec4>) -> (c: usize)
    ensures
        c >= column.len(),
{
    column.capacity()
}

impl Particles {
    /// The attribute columns.
    pub closed spec fn columns(&self) -> Columns {
        Columns {
            positions: self.positions@,
            velocities: self.velocities@,
            colors: self.colors@,
            sizes: self.sizes@,
            lerp_factors: self.lerp_factors@,
            starts: self.starts@,
            expirations: self.expirations@,
        }
    }

    /// Microseconds of simulated time since the pool was made or last cleared.
    pub closed spec fn spec_clock(&self) -> u64 {
        self.clock
    }

    /// Array parity: all attribute columns have the same length.
    pub open spec fn wf(&self) -> bool {
        self.columns().aligned()
    }

    pub open spec fn spec_len(&self) -> usize {
        self@.len() as usize
    }

    /// The normalised age of particle `idx`.
    pub open spec fn spec_lifetime_ratio(&self, idx: usize) -> i64 {
        lifetime_fraction(
            self.spec_clock() as int,
            self@[idx as int].start as int,
            self@[idx as int].expiration as int,
        )
    }

    /// An empty pool whose columns have room for `capacity` particles.
    pub fn new(capacity: usize) -> (pool: Particles)
        ensures
            pool.wf(),
            pool@.len() == 0,
            pool.spec_clock() == 0,
    {
        Particles {
            clock: 0,
            positions: Vec::with_capacity(capacity),
            colors: Vec::with_capacity(capacity),
            velocities: Vec::with_capacity(capacity),
            sizes: Vec::with_capacity(capacity),
            lerp_factors: Vec::with_capacity(capacity),
            starts: Vec::with_capacity(capacity),
            expirations: Vec::with_capacity(capacity),
        }
    }

    /// Gets a read-only reference to a particle.
    pub fn get<'a>(&'a self, idx: usize) -> (particle: Particle<'a>)
        requires
            self.wf(),
            idx < self@.len(),
        ensures
            *particle.position == self@[idx as int].position,
            *particle.size == self@[idx as int].size,
            *particle.velocity == self@[idx as int].velocity,
            *particle.color == self@[idx as int].color,
    {
        Particle {
            position: &self.positions[idx],
            velocity: &self.velocities[idx],
            color: &self.colors[idx],
            size: &self.sizes[idx],
        }
    }

    /// Gets a mutable reference to a particle. What the caller writes through
    /// it replaces the four attributes of that particle and nothing else.
    pub fn get_mut<'a>(&'a mut self, idx: usize) -> (particle: ParticleMut<'a>)
        requires
            old(self).wf(),
            idx < old(self)@.len(),
        ensures
            *particle.position == old(self)@[idx as int].position,
            *particle.size == old(self)@[idx as int].size,
            *particle.velocity == old(self)@[idx as int].velocity,
            *particle.color == old(self)@[idx as int].color,
            final(self).wf(),
            final(self).spec_clock() == old(self).spec_clock(),
            final(self)@ == old(self)@.update(
                idx as int,
                ParticleRecord {
                    position: *final(particle.position),
                    size: *final(particle.size),
                    velocity: *final(particle.velocity),
                    color: *final(particle.color),
                    ..old(self)@[idx as int]
                },
            ),
    {
        let particle = ParticleMut {
            position: &mut self.positions[idx],
            size: &mut self.sizes[idx],
            velocity: &mut self.velocities[idx],
            color: &mut self.colors[idx],
        };
        proof {
            let after = Columns {
                positions: old(self).positions@.update(idx as int, *final(particle.position)),
                sizes: old(self).sizes@.update(idx as int, *final(particle.size)),
                velocities: old(self).velocities@.update(idx as int, *final(particle.velocity)),
                colors: old(self).colors@.update(idx as int, *final(particle.color)),
                ..old(self).columns()
            };
            assert(after.records() =~= old(self)@.update(
                idx as int,
                ParticleRecord {
                    position: *final(particle.position),
                    size: *final(particle.size),
                    velocity: *final(particle.velocity),
                    color: *final(particle.color),
                    ..old(self)@[idx as int]
                },
            ));
        }
        particle
    }

    /// Spawns a single particle with the given parameters. It starts at the
    /// pool's current clock and expires `params.lifetime` later, or at the end
    /// of representable time if that comes first.
    pub fn spawn(&mut self, params: ParticleParams)
        requires
            old(self).wf(),
        ensures
            final(self).wf(),
            final(self).spec_clock() == old(self).spec_clock(),
            final(self)@ == old(self)@.push(spawned(params, old(self).spec_clock())),
            final(self).spec_lifetime_ratio(old(self).spec_len()) == 0,
    {
        self.positions.push(Vec4::from_vec3(params.position, params.rotation));
        self.velocities.push(Vec4::from_vec3(params.velocity, params.angular_velocity));
        self.colors.push(params.color);
        self.sizes.push(params.size);
        self.lerp_factors.push(params.lerp_factor);
        self.starts.push(self.clock);
        self.expirations.push(self.clock.saturating_add(params.lifetime));
        assert(self@ =~= old(self)@.push(spawned(params, old(self).spec_clock())));
        assert(old(self).spec_len() == old(self).positions.len());
        assert(self@[old(self).positions.len() as int].start == self.clock);
    }

    /// Spawns a batch of particles with the given parameters, in order.
    pub fn spawn_batch(&mut self, batch: Vec<ParticleParams>)
        requires
            old(self).wf(),
        ensures
            final(self).wf(),
            final(self).spec_clock() == old(self).spec_clock(),
            final(self)@ == old(self)@ + batch@.map_values(spawned_at(old(self).spec_clock())),
    {
        self.reserve(batch.len());
        let ghost all = batch@.map_values(spawned_at(old(self).spec_clock()));
        let mut i: usize = 0;
        assert(self@ =~= old(self)@ + all.subrange(0, 0));
        while i < batch.len()
            invariant
                self.wf(),
                self.spec_clock() == old(self).spec_clock(),
                i <= batch.len(),
                all == batch@.map_values(spawned_at(old(self).spec_clock())),
                self@ == old(self)@ + all.subrange(0, i as int),
            decreases batch.len() - i,
        {
            self.spawn(batch[i]);
            proof {
                assert(all.subrange(0, i + 1) =~= all.subrange(0, i as int).push(all[i as int]));
                assert(self@ =~= old(self)@ + all.subrange(0, i + 1));
            }
            i = i + 1;
        }
        assert(all.subrange(0, batch.len() as int) =~= all);
    }

    /// Consumes another pool and appends its particles, as they are, behind
    /// this pool's own. The other pool's clock is dropped.
    pub fn merge(&mut self, batch: Particles)
        requires
            old(self).wf(),
            batch.wf(),
        ensures
            final(self).wf(),
            final(self).spec_clock() == old(self).spec_clock(),
            final(self)@ == old(self)@ + batch@,
    {
        let mut batch = batch;
        let ghost other = batch@;
        self.positions.append(&mut batch.positions);
        self.velocities.append(&mut batch.velocities);
        self.colors.append(&mut batch.colors);
        self.sizes.append(&mut batch.sizes);
        self.lerp_factors.append(&mut batch.lerp_factors);
        self.starts.append(&mut batch.starts);
        self.expirations.append(&mut batch.expirations);
        assert(self@ =~= old(self)@ + other);
    }

    /// A cursor over the particles for writing, starting at the first.
    pub fn iter_mut<'a>(&'a mut self) -> (cursor: ParticleIterMut<'a>)
        ensures
            cursor.idx == 0,
            *cursor.particles == *old(self),
            *final(cursor.particles) == *final(self),
    {
        ParticleIterMut { idx: 0, particles: self }
    }

    /// A cursor over the particles, starting at the first.
    pub fn iter<'a>(&'a self) -> (cursor: ParticleIter<'a>)
        ensures
            cursor.spec_index() == 0,
            cursor.pool() == self,
    {
        ParticleIter { idx: 0, particles: self }
    }

    #[verifier::when_used_as_spec(spec_len)]
    pub fn len(&self) -> (n: usize)
        requires
            self.wf(),
        ensures
            n == self@.len(),
    {
        self.positions.len()
    }

    /// Number of particles the pool can hold before its position column has to grow.
    pub fn capacity(&self) -> (c: usize)
        requires
            self.wf(),
        ensures
            c >= self@.len(),
    {
        column_capacity(&self.positions)
    }

    /// Makes room in every column for `additional` more particles.
    pub fn reserve(&mut self, additional: usize)
        requires
            old(self).wf(),
        ensures
            final(self).wf(),
            final(self).spec_clock() == old(self).spec_clock(),
            final(self)@ == old(self)@,
    {
        self.positions.reserve(additional);
        self.sizes.reserve(additional);
        self.velocities.reserve(additional);
        self.colors.reserve(additional);
        self.lerp_factors.reserve(additional);
        self.starts.reserve(additional);
        self.expirations.reserve(additional);
        assert(self@ =~= old(self)@);
    }

    /// Removes every particle and sets the clock back to zero.
    pub fn clear(&mut self)
        ensures
            final(self).wf(),
            final(self).spec_clock() == 0,
            final(self)@.len() == 0,
    {
        self.clock = 0;
        self.positions.clear();
        self.sizes.clear();
        self.velocities.clear();
        self.colors.clear();
        self.lerp_factors.clear();
        self.starts.clear();
        self.expirations.clear();
    }

    /// The blend factor that particle `idx` was spawned with.
    pub fn lerp_factor(&self, idx: usize) -> (factor: i64)
        requires
            self.wf(),
            idx < self@.len(),
        ensures
            factor == self@[idx as int].lerp_factor,
    {
        self.lerp_factors[idx]
    }

    /// The pool's clock, in microseconds.
    #[verifier::when_used_as_spec(spec_clock)]
    pub fn clock(&self) -> (now: u64)
        ensures
            now == self.spec_clock(),
    {
        self.clock
    }

    /// Gets a ratio of how much of a particle's lifetime has passed: zero when
    /// the particle is newly spawned, one when it is about to be killed, and
    /// negative for a particle that was merged in from a pool whose clock was
    /// ahead and so starts only later. A particle without a lifetime is at zero.
    #[verifier::when_used_as_spec(spec_lifetime_ratio)]
    pub fn lifetime_ratio(&self, idx: usize) -> (ratio: i64)
        requires
            self.wf(),
            idx < self@.len(),
        ensures
            ratio == self.spec_lifetime_ratio(idx),
    {
        let start: u64 = self.starts[idx];
        let end: u64 = self.expirations[idx];
        if end <= start {
            return 0;
        }
        let elapsed: i128 = self.clock as i128 - start as i128;
        let span: i128 = (end - start) as i128;
        assert(-0xFFFF_FFFF_FFFF_FFFF * 1_000_000 <= elapsed * 1_000_000
            <= 0xFFFF_FFFF_FFFF_FFFF * 1_000_000) by (nonlinear_arith)
            requires
                -0xFFFF_FFFF_FFFF_FFFF <= elapsed <= 0xFFFF_FFFF_FFFF_FFFF,
        ;
        saturate_i128(floor_div(elapsed * (SCALE as i128), span))
    }

    /// Moves the pool `delta_time` microseconds on. The clock advances by
    /// that much; every particle that has expired by the new clock is
    /// removed; every other particle stays, exactly once, with its position
    /// and rotation moved by its velocity and nothing else changed. A removed
    /// particle's slot is filled from the back, so the order of the
    /// survivors is kept only if nothing died.
    pub fn advance_particles(&mut self, delta_time: u64)
        requires
            old(self).wf(),
            old(self).spec_clock() + delta_time <= u64::MAX,
        ensures
            final(self).wf(),
            final(self).spec_clock() == old(self).spec_clock() + delta_time,
            final(self)@.to_multiset() == survivors(
                old(self)@,
                final(self).spec_clock() as int,
                delta_time as int,
            ).to_multiset(),
            final(self)@.len() == survivors(
                old(self)@,
                final(self).spec_clock() as int,
                delta_time as int,
            ).len(),
            final(self)@.len() <= old(self)@.len(),
            forall|i: int|
                0 <= i < final(self)@.len() ==> is_alive(
                    #[trigger] final(self)@[i],
                    final(self).spec_clock() as int,
                ),
            (forall|i: int|
                0 <= i < old(self)@.len() ==> is_alive(
                    #[trigger] old(self)@[i],
                    final(self).spec_clock() as int,
                )) ==> final(self)@ == old(self)@.map_values(moved_by(delta_time as int)),
    {
        self.clock = self.clock + delta_time;
        let ghost before = old(self)@;
        let ghost clock = self.clock as int;
        let ghost micros = delta_time as int;
        let ghost mut intact = true;
        let mut idx: usize = 0;
        let mut end: usize = self.len();
        proof {
            assert(self@ =~= before);
            assert(self@.subrange(0, 0).to_multiset() =~= Multiset::<ParticleRecord>::empty()) by {
                broadcast use vstd::seq_lib::group_to_multiset_ensures;
            }
            assert(self@.subrange(0, end as int) =~= before);
            assert(self@.subrange(0, 0).map_values(moved_by(micros)) =~= self@.subrange(0, 0));
        }
        while idx < end
            invariant
                self.wf(),
                self.spec_clock() == clock,
                micros == delta_time,
                idx <= end <= self@.len(),
                self@.len() == before.len(),
                forall|i: int| 0 <= i < idx ==> is_alive(#[trigger] self@[i], clock),
                self@.subrange(0, idx as int).to_multiset().add(
                    survivors(self@.subrange(idx as int, end as int), clock, micros).to_multiset(),
                ) == survivors(before, clock, micros).to_multiset(),
                intact ==> end == before.len(),
                intact ==> self@.subrange(0, idx as int) == before.subrange(0, idx as int).map_values(
                    moved_by(micros),
                ),
                intact ==> self@.subrange(idx as int, end as int) == before.subrange(
                    idx as int,
                    end as int,
                ),
                !intact ==> exists|i: int| 0 <= i < before.len() && !is_alive(#[trigger] before[i], clock),
            decreases end - idx,
        {
            let ghost s = self@;
            let last: usize = end - 1;
            if self.expirations[last] <= self.clock {
                // The last candidate is dead: truncation will drop it.
                proof {
                    assert(s.subrange(idx as int, end as int) =~= s.subrange(
                        idx as int,
                        last as int,
                    ).push(s[last as int]));
                    lemma_survivors_push(
                        s.subrange(idx as int, last as int),
                        s[last as int],
                        clock,
                        micros,
                    );
                    if intact {
                        assert(before.subrange(idx as int, end as int)[last - idx] == before[last as int]);
                    }
                    intact = false;
                }
                end = last;
            } else if self.expirations[idx] <= self.clock {
                self.kill(idx, last);
                proof {
                    let mid = s.subrange(idx + 1, last as int);
                    let moved = integrated(s[last as int], micros);
                    assert(s.subrange(idx as int, end as int) =~= seq![s[idx as int]] + mid.push(
                        s[last as int],
                    ));
                    lemma_survivors_prepend(mid.push(s[last as int]), s[idx as int], clock, micros);
                    lemma_survivors_push(mid, s[last as int], clock, micros);
                    assert(self@.subrange(idx as int, last as int) =~= seq![s[last as int]] + mid);
                    lemma_survivors_prepend(mid, s[last as int], clock, micros);
                    lemma_bag_prepend(moved, survivors(mid, clock, micros));
                    vstd::seq_lib::to_multiset_build(survivors(mid, clock, micros), moved);
                    assert(self@.subrange(0, idx as int) =~= s.subrange(0, idx as int));
                    if intact {
                        assert(before.subrange(idx as int, end as int)[0] == before[idx as int]);
                    }
                    intact = false;
                }
                end = last;
            } else {
                let moved: Vec4 = self.positions[idx].advanced(self.velocities[idx], delta_time);
                self.positions[idx] = moved;
                proof {
                    let q = integrated(s[idx as int], micros);
                    let rest = s.subrange(idx + 1, end as int);
                    assert(self@ =~= s.update(idx as int, q));
                    assert(self@.subrange(0, idx + 1) =~= s.subrange(0, idx as int).push(q));
                    vstd::seq_lib::to_multiset_build(s.subrange(0, idx as int), q);
                    assert(s.subrange(idx as int, end as int) =~= seq![s[idx as int]] + rest);
                    lemma_survivors_prepend(rest, s[idx as int], clock, micros);
                    lemma_bag_prepend(q, survivors(rest, clock, micros));
                    assert(self@.subrange(idx + 1, end as int) =~= rest);
                    assert(s.subrange(0, idx as int).to_multiset().insert(q).add(
                        survivors(rest, clock, micros).to_multiset(),
                    ) =~= s.subrange(0, idx as int).to_multiset().add(
                        survivors(rest, clock, micros).to_multiset().insert(q),
                    ));
                    if intact {
                        assert(before.subrange(idx as int, end as int)[0] == before[idx as int]);
                        assert(before.subrange(0, idx + 1).map_values(moved_by(micros))
                            =~= before.subrange(0, idx as int).map_values(moved_by(micros)).push(q));
                        assert(before.subrange(idx + 1, end as int) =~= before.subrange(
                            idx as int,
                            end as int,
                        ).subrange(1, end - idx));
                    }
                }
                idx = idx + 1;
            }
        }
        let ghost s = self@;
        self.flush(end);
        proof {
            broadcast use vstd::seq_lib::group_to_multiset_ensures;

            let none = survivors(s.subrange(end as int, end as int), clock, micros);
            s.subrange(end as int, end as int).lemma_filter_len(alive_at(clock));
            assert(none.to_multiset() =~= Multiset::<ParticleRecord>::empty());
            assert(self@.to_multiset().add(Multiset::<ParticleRecord>::empty()) =~= self@.to_multiset());
            vstd::seq_lib::to_multiset_len(self@);
            vstd::seq_lib::to_multiset_len(survivors(before, clock, micros));
            if intact {
                assert(before.subrange(0, end as int) =~= before);
            }
        }
    }

    /// Overwrites particle `idx` with particle `end`.
    fn kill(&mut self, idx: usize, end: usize)
        requires
            old(self).wf(),
            idx <= end < old(self)@.len(),
        ensures
            final(self).wf(),
            final(self).spec_clock() == old(self).spec_clock(),
            final(self)@ == old(self)@.update(idx as int, old(self)@[end as int]),
    {
        self.positions[idx] = self.positions[end];
        self.velocities[idx] = self.velocities[end];
        self.colors[idx] = self.colors[end];
        self.sizes[idx] = self.sizes[end];
        self.lerp_factors[idx] = self.lerp_factors[end];
        self.starts[idx] = self.starts[end];
        self.expirations[idx] = self.expirations[end];
        assert(self@ =~= old(self)@.update(idx as int, old(self)@[end as int]));
    }

    /// Cuts every column down to its first `len` entries.
    fn flush(&mut self, len: usize)
        requires
            old(self).wf(),
            len <= old(self)@.len(),
        ensures
            final(self).wf(),
            final(self).spec_clock() == old(self).spec_clock(),
            final(self)@ == old(self)@.subrange(0, len as int),
    {
        self.positions.truncate(len);
        self.velocities.truncate(len);
        self.colors.truncate(len);
        self.sizes.truncate(len);
        self.lerp_factors.truncate(len);
        self.starts.truncate(len);
        self.expirations.truncate(len);
        assert(self@ =~= old(self)@.subrange(0, len as int));
    }
}

/// One tick of a pool: `advance_particles` by `delta_time` microseconds where
/// the clock can take them. Where it cannot, because it would pass the end of
/// representable time, the pool is left as it is and the answer is `false`.
pub fn update_particles(particles: &mut Particles, delta_time: u64) -> (advanced: bool)
    requires
        old(particles).wf(),
    ensures
        final(particles).wf(),
        final(particles).spec_clock() >= old(particles).spec_clock(),
        final(particles)@.len() <= old(particles)@.len(),
        advanced == (old(particles).spec_clock() + delta_time <= u64::MAX),
        !advanced ==> *final(particles) == *old(particles),
        advanced ==> {
            &&& final(particles).spec_clock() == old(particles).spec_clock() + delta_time
            &&& final(particles)@.len() == survivors(
                old(particles)@,
                final(particles).spec_clock() as int,
                delta_time as int,
            ).len()
            &&& final(particles)@.to_multiset() == survivors(
                old(particles)@,
                final(particles).spec_clock() as int,
                delta_time as int,
            ).to_multiset()
            &&& forall|i: int|
                0 <= i < final(particles)@.len() ==> is_alive(
                    #[trigger] final(particles)@[i],
                    final(particles).spec_clock() as int,
                )
            &&& (forall|i: int|
                0 <= i < old(particles)@.len() ==> is_alive(
                    #[trigger] old(particles)@[i],
                    final(particles).spec_clock() as int,
                )) ==> final(particles)@ == old(particles)@.map_values(
                moved_by(delta_time as int),
            )
        },
{
    if particles.clock() > u64::MAX - delta_time {
        false
    } else {
        particles.advance_particles(delta_time);
        true
    }
}

/// A cursor that hands out the particles of a pool one after the other.
pub struct ParticleIter<'a> {
    idx: usize,
    particles: &'a Particles,
}

impl<'a> ParticleIter<'a> {
    /// Index of the particle that `next` hands out next.
    pub closed spec fn spec_index(&self) -> usize {
        self.idx
    }

    /// The pool that the cursor walks.
    pub closed spec fn pool(&self) -> &'a Particles {
        self.particles
    }

    /// The particle under the cursor, after which the cursor moves on; `None`
    /// once every particle has been handed out.
    pub fn next(&mut self) -> (item: Option<Particle<'a>>)
        requires
            old(self).pool().wf(),
        ensures
            final(self).pool() == old(self).pool(),
            old(self).spec_index() < old(self).pool()@.len() ==> {
                &&& final(self).spec_index() == old(self).spec_index() + 1
                &&& item is Some
                &&& *item->0.position == old(self).pool()@[old(self).spec_index() as int].position
                &&& *item->0.size == old(self).pool()@[old(self).spec_index() as int].size
                &&& *item->0.velocity == old(self).pool()@[old(self).spec_index() as int].velocity
                &&& *item->0.color == old(self).pool()@[old(self).spec_index() as int].color
            },
            old(self).spec_index() >= old(self).pool()@.len() ==> {
                &&& final(self).spec_index() == old(self).spec_index()
                &&& item is None
            },
    {
        if self.idx >= self.particles.len() {
            None
        } else {
            let particle = self.particles.get(self.idx);
            self.idx = self.idx + 1;
            Some(particle)
        }
    }
}

/// A cursor that hands out write access to the particles of a pool one after
/// the other.
pub struct ParticleIterMut<'a> {
    pub idx: usize,
    pub particles: &'a mut Particles,
}

impl<'a> ParticleIterMut<'a> {
    /// Write access to the particle under the cursor, after which the cursor
    /// moves on; `None` once every particle has been handed out.
    pub fn next(&mut self) -> (item: Option<ParticleMut<'_>>)
        requires
            old(self).particles.wf(),
        ensures
            *final(final(self).particles) == *final(old(self).particles),
            final(self).particles.wf(),
            final(self).particles.spec_clock() == old(self).particles.spec_clock(),
            old(self).idx >= old(self).particles@.len() ==> {
                &&& item is None
                &&& final(self).idx == old(self).idx
                &&& final(self).particles@ == old(self).particles@
            },
            old(self).idx < old(self).particles@.len() ==> {
                &&& item is Some
                &&& final(self).idx == old(self).idx + 1
                &&& *item->0.position == old(self).particles@[old(self).idx as int].position
                &&& *item->0.size == old(self).particles@[old(self).idx as int].size
                &&& *item->0.velocity == old(self).particles@[old(self).idx as int].velocity
                &&& *item->0.color == old(self).particles@[old(self).idx as int].color
                &&& final(self).particles@ == old(self).particles@.update(
                    old(self).idx as int,
                    ParticleRecord {
                        position: *final(item->0.position),
                        size: *final(item->0.size),
                        velocity: *final(item->0.velocity),
                        color: *final(item->0.color),
                        ..old(self).particles@[old(self).idx as int]
                    },
                )
            },
    {
        if self.idx >= self.particles.len() {
            None
        } else {
            let particle = self.particles.get_mut(self.idx);
            self.idx = self.idx + 1;
            Some(particle)
        }
    }
}

} // verus!
