use bevy_prototype_particles::emitter::{
    emit_particles, EmitterBurst, EmitterModifier, EmitterShape, ParticleEmitter,
};
use bevy_prototype_particles::fixed::SCALE;
use bevy_prototype_particles::material::{
    ParticleMaterial, ParticleMaterialUniformData, FLAGS_BASE_COLOR_TEXTURE, FLAGS_NONE,
    FLAGS_UNINITIALIZED,
};
use bevy_prototype_particles::math::{Mat4, Vec3, Vec4};
use bevy_prototype_particles::particles::{ParticleParams, Particles};

const MS: u64 = 1_000;

fn up() -> Vec3 {
    Vec3::new(0, 0, SCALE)
}

fn unit_sphere() -> EmitterShape {
    EmitterShape::Sphere { center: Vec3::zero(), radius: SCALE }
}

struct SetSize(i64);

impl EmitterModifier for SetSize {
    fn modified(&self, particle: ParticleParams) -> ParticleParams {
        ParticleParams { size: self.0, ..particle }
    }

    fn modify(&mut self, particle: &mut ParticleParams) {
        *particle = self.modified(*particle);
    }
}

struct DoubleSize;

impl EmitterModifier for DoubleSize {
    fn modified(&self, particle: ParticleParams) -> ParticleParams {
        ParticleParams { size: particle.size * 2, ..particle }
    }

    fn modify(&mut self, particle: &mut ParticleParams) {
        *particle = self.modified(*particle);
    }
}

struct Counting(i64);

impl EmitterModifier for Counting {
    fn modified(&self, particle: ParticleParams) -> ParticleParams {
        ParticleParams { rotation: self.0 + 1, ..particle }
    }

    fn modify(&mut self, particle: &mut ParticleParams) {
        *particle = self.modified(*particle);
        self.0 += 1;
    }
}

#[test]
fn bursts_fire_in_order_and_wrap() {
    let bursts = vec![
        EmitterBurst { count: 1..2, wait: 100 * MS },
        EmitterBurst { count: 3..4, wait: 200 * MS },
    ];
    let mut emitter = ParticleEmitter::new(unit_sphere(), bursts).with_default_lifetime(10_000 * MS);
    let mut pool = Particles::new(0);
    let world = Mat4::identity();

    // first tick: burst 0
    emit_particles(&mut emitter, &mut pool, &world, 0, &up);
    assert_eq!(pool.len(), 1);
    assert_eq!(emitter.burst_idx(), 1);
    assert_eq!(emitter.next_burst(), 100 * MS);

    // 50 ms later: still waiting
    emit_particles(&mut emitter, &mut pool, &world, 50 * MS, &up);
    assert_eq!(pool.len(), 1);
    assert_eq!(emitter.burst_idx(), 1);
    assert_eq!(emitter.next_burst(), 50 * MS);

    // 100 ms: burst 1
    emit_particles(&mut emitter, &mut pool, &world, 50 * MS, &up);
    assert_eq!(pool.len(), 4);
    assert_eq!(emitter.burst_idx(), 0);
    assert_eq!(emitter.next_burst(), 200 * MS);

    // 200 ms: waiting
    emit_particles(&mut emitter, &mut pool, &world, 100 * MS, &up);
    assert_eq!(pool.len(), 4);

    // 300 ms: back to burst 0
    emit_particles(&mut emitter, &mut pool, &world, 100 * MS, &up);
    assert_eq!(pool.len(), 5);
    assert_eq!(emitter.burst_idx(), 1);
    assert_eq!(emitter.next_burst(), 100 * MS);
}

#[test]
fn burst_count_lies_in_the_range() {
    for _ in 0..200 {
        let bursts = vec![EmitterBurst { count: 5..10, wait: 0 }];
        let mut emitter = ParticleEmitter::new(unit_sphere(), bursts);
        let mut pool = Particles::new(0);
        emit_particles(&mut emitter, &mut pool, &Mat4::identity(), 0, &up);
        assert!(5 <= pool.len() && pool.len() < 10);
    }
}

#[test]
fn zero_wait_fires_every_tick() {
    let bursts = vec![EmitterBurst { count: 2..3, wait: 0 }];
    let mut emitter = ParticleEmitter::new(unit_sphere(), bursts).with_default_lifetime(MS);
    let mut pool = Particles::new(0);
    for tick in 1..=5 {
        emit_particles(&mut emitter, &mut pool, &Mat4::identity(), 0, &up);
        assert_eq!(pool.len(), 2 * tick);
        assert_eq!(emitter.burst_idx(), 0);
    }
}

#[test]
fn zero_count_burst_spawns_nothing() {
    let bursts = vec![EmitterBurst { count: 0..1, wait: 10 }];
    let mut emitter = ParticleEmitter::new(unit_sphere(), bursts);
    let mut pool = Particles::new(0);
    emit_particles(&mut emitter, &mut pool, &Mat4::identity(), 0, &up);
    assert_eq!(pool.len(), 0);
    assert_eq!(emitter.next_burst(), 10);
}

#[test]
fn tick_counts_down_and_stops_at_zero() {
    let bursts = vec![EmitterBurst { count: 1..2, wait: 100 }];
    let mut emitter = ParticleEmitter::new(unit_sphere(), bursts);
    let mut pool = Particles::new(0);
    assert!(emitter.tick(0));
    emit_particles(&mut emitter, &mut pool, &Mat4::identity(), 0, &up);
    assert!(!emitter.tick(40));
    assert_eq!(emitter.next_burst(), 60);
    assert!(emitter.tick(1_000));
    assert_eq!(emitter.next_burst(), 0);
    assert!(emitter.tick(u64::MAX));
}

#[test]
fn emitted_particles_carry_the_defaults() {
    let bursts = vec![EmitterBurst { count: 4..5, wait: 0 }];
    let shape = EmitterShape::Sphere { center: Vec3::new(1, 2, 3), radius: 0 };
    let mut emitter = ParticleEmitter::new(shape, bursts)
        .with_default_lifetime(2_000 * MS)
        .with_default_speed(300_000)
        .with_default_size(200_000)
        .with_default_color(Vec4::new(500_000, 0, 0, 100_000));
    let mut pool = Particles::new(0);
    pool.advance_particles(7);
    emit_particles(&mut emitter, &mut pool, &Mat4::identity(), 0, &up);
    assert_eq!(pool.len(), 4);
    for idx in 0..4 {
        let p = pool.get(idx);
        assert_eq!(*p.position, Vec4::new(1, 2, 3, 0));
        assert_eq!(*p.velocity, Vec4::new(0, 0, 300_000, 0));
        assert_eq!(*p.size, 200_000);
        assert_eq!(*p.color, Vec4::new(500_000, 0, 0, 100_000));
        assert_eq!(pool.lifetime_ratio(idx), 0);
        assert!(0 <= pool.lerp_factor(idx) && pool.lerp_factor(idx) <= SCALE);
    }
    pool.advance_particles(1_000 * MS);
    assert_eq!(pool.len(), 4);
    assert_eq!(pool.lifetime_ratio(0), 500_000);
}

#[test]
fn emitted_particles_lie_within_the_radius() {
    let bursts = vec![EmitterBurst { count: 50..51, wait: 0 }];
    let shape = EmitterShape::Sphere { center: Vec3::new(0, 0, 10 * SCALE), radius: 2 * SCALE };
    let mut emitter = ParticleEmitter::new(shape, bursts);
    let mut pool = Particles::new(0);
    emit_particles(&mut emitter, &mut pool, &Mat4::identity(), 0, &up);
    assert_eq!(pool.len(), 50);
    for idx in 0..50 {
        let z = pool.get(idx).position.z;
        assert!(10 * SCALE <= z && z < 12 * SCALE);
        assert_eq!(pool.get(idx).position.x, 0);
    }
}

#[test]
fn emitter_transform_moves_positions_and_turns_velocities() {
    let bursts = vec![EmitterBurst { count: 1..2, wait: 0 }];
    let shape = EmitterShape::Sphere { center: Vec3::new(SCALE, 0, 0), radius: 0 };
    let mut emitter = ParticleEmitter::new(shape, bursts);
    let mut pool = Particles::new(0);
    // quarter turn about z, then a shift
    let world = Mat4 {
        x_axis: Vec4::new(0, SCALE, 0, 0),
        y_axis: Vec4::new(-SCALE, 0, 0, 0),
        z_axis: Vec4::new(0, 0, SCALE, 0),
        w_axis: Vec4::new(5 * SCALE, 0, 0, SCALE),
    };
    let along_x = || Vec3::new(SCALE, 0, 0);
    emit_particles(&mut emitter, &mut pool, &world, 0, &along_x);
    assert_eq!(*pool.get(0).position, Vec4::new(5 * SCALE, SCALE, 0, 0));
    assert_eq!(*pool.get(0).velocity, Vec4::new(0, SCALE, 0, 0));
}

#[test]
fn spawn_modifiers_run_in_registration_order() {
    let bursts = vec![EmitterBurst { count: 3..4, wait: 0 }];
    let mut emitter = ParticleEmitter::new(unit_sphere(), bursts).with_default_size(1);
    emitter.add_modifier(Box::new(SetSize(21)));
    emitter.add_modifier(Box::new(DoubleSize));
    emitter.add_modifier(Box::new(Counting(0)));
    let mut pool = Particles::new(0);
    emit_particles(&mut emitter, &mut pool, &Mat4::identity(), 0, &up);
    assert_eq!(pool.len(), 3);
    for idx in 0..3 {
        assert_eq!(*pool.get(idx).size, 42);
        assert_eq!(pool.get(idx).position.w, idx as i64 + 1);
    }
}

#[test]
fn sphere_sample_scales_and_shifts_the_point() {
    let shape = EmitterShape::Sphere { center: Vec3::new(10, 20, 30), radius: 4 * SCALE };
    let point = Vec3::new(600_000, -800_000, 0);
    let params = shape.sample(point, 500_000);
    assert_eq!(params.position, Vec3::new(1_200_010, -1_599_980, 30));
    assert_eq!(params.velocity, point);
    assert_eq!(params.lifetime, 0);
    assert_eq!(params.size, 0);
    assert_eq!(params.color, Vec4::zero());
    assert_eq!(params, EmitterShape::sample_sphere(Vec3::new(10, 20, 30), 4 * SCALE, point, 500_000));
}

#[test]
fn hemisphere_sample_folds_the_point_up() {
    let shape = EmitterShape::Hemisphere { center: Vec3::new(10, 20, 30), radius: 4 * SCALE };
    let point = Vec3::new(600_000, -800_000, 0);
    let params = shape.sample(point, 500_000);
    assert_eq!(params.position, Vec3::new(1_200_010, 1_600_020, 30));
    assert_eq!(params.velocity, Vec3::new(600_000, 800_000, 0));
    let above = shape.sample(Vec3::new(0, SCALE, 0), SCALE);
    assert_eq!(above.position, Vec3::new(10, 4 * SCALE + 20, 30));
    assert_eq!(above.velocity, Vec3::new(0, SCALE, 0));
    assert_eq!(
        params,
        EmitterShape::sample_hemisphere(Vec3::new(10, 20, 30), 4 * SCALE, point, 500_000)
    );
}

#[test]
fn zero_radius_places_at_the_center() {
    let center = Vec3::new(-7, 8, 9);
    for shape in [
        EmitterShape::Sphere { center, radius: 0 },
        EmitterShape::Hemisphere { center, radius: 0 },
    ] {
        let params = shape.sample(Vec3::new(577_350, -577_350, 577_350), 999_999);
        assert_eq!(params.position, center);
    }
}

#[test]
fn prepare_applies_speed_transform_and_defaults() {
    let bursts = vec![EmitterBurst { count: 1..2, wait: 0 }];
    let emitter = ParticleEmitter::new(unit_sphere(), bursts)
        .with_default_speed(2 * SCALE)
        .with_default_size(3)
        .with_default_lifetime(4)
        .with_default_color(Vec4::new(5, 6, 7, 8));
    let world = Mat4 { w_axis: Vec4::new(100, 0, 0, SCALE), ..Mat4::identity() };
    let params = emitter.prepare(&world, Vec3::new(0, SCALE, 0), 500_000, 9);
    assert_eq!(
        params,
        ParticleParams {
            position: Vec3::new(100, 500_000, 0),
            rotation: 0,
            size: 3,
            velocity: Vec3::new(0, 2 * SCALE, 0),
            angular_velocity: 0,
            color: Vec4::new(5, 6, 7, 8),
            lifetime: 4,
            lerp_factor: 9,
        }
    );
}

#[test]
fn burst_clone_is_equal() {
    let burst = EmitterBurst { count: 5..10, wait: 300 * MS };
    let copy = burst.clone();
    assert_eq!(copy.count, 5..10);
    assert_eq!(copy.wait, 300 * MS);
}

#[test]
fn material_flags() {
    let plain: ParticleMaterial<u32> = ParticleMaterial::default();
    assert!(plain.base_color_texture.is_none());
    assert_eq!(plain.uniform_data(), ParticleMaterialUniformData { flags: FLAGS_NONE });
    let textured = ParticleMaterial::with_texture(17u32);
    assert_eq!(textured.base_color_texture, Some(17));
    assert_eq!(textured.uniform_data().flags, FLAGS_BASE_COLOR_TEXTURE);
    assert_eq!((FLAGS_NONE, FLAGS_BASE_COLOR_TEXTURE, FLAGS_UNINITIALIZED), (0, 1, 0xFFFF));
}

#[test]
fn burst_counts_vary() {
    let mut seen = [false; 10];
    for _ in 0..400 {
        let bursts = vec![EmitterBurst { count: 5..10, wait: 0 }];
        let mut emitter = ParticleEmitter::new(unit_sphere(), bursts);
        let mut pool = Particles::new(0);
        emit_particles(&mut emitter, &mut pool, &Mat4::identity(), 0, &up);
        seen[pool.len()] = true;
    }
    assert_eq!(seen, [false, false, false, false, false, true, true, true, true, true]);
}

#[test]
fn drawn_factors_vary_within_their_ranges() {
    let bursts = vec![EmitterBurst { count: 64..65, wait: 0 }];
    let shape = EmitterShape::Sphere { center: Vec3::zero(), radius: 8 * SCALE };
    let mut emitter = ParticleEmitter::new(shape, bursts);
    let mut pool = Particles::new(0);
    emit_particles(&mut emitter, &mut pool, &Mat4::identity(), 0, &up);
    let mut heights = Vec::new();
    let mut factors = Vec::new();
    for idx in 0..pool.len() {
        let z = pool.get(idx).position.z;
        assert!(0 <= z && z < 8 * SCALE);
        heights.push(z);
        let f = pool.lerp_factor(idx);
        assert!(0 <= f && f <= SCALE);
        factors.push(f);
    }
    heights.sort();
    heights.dedup();
    factors.sort();
    factors.dedup();
    assert!(heights.len() > 32);
    assert!(factors.len() > 32);
}

#[test]
fn spawn_modifiers_see_what_the_earlier_ones_left() {
    // doubling before setting gives the set size, setting before doubling twice that
    let mut pool = Particles::new(0);
    let bursts = vec![EmitterBurst { count: 1..2, wait: 0 }];
    let mut first = ParticleEmitter::new(unit_sphere(), bursts.clone()).with_default_size(5);
    first.add_modifier(Box::new(DoubleSize));
    first.add_modifier(Box::new(SetSize(7)));
    emit_particles(&mut first, &mut pool, &Mat4::identity(), 0, &up);
    let mut second = ParticleEmitter::new(unit_sphere(), bursts).with_default_size(5);
    second.add_modifier(Box::new(SetSize(7)));
    second.add_modifier(Box::new(DoubleSize));
    emit_particles(&mut second, &mut pool, &Mat4::identity(), 0, &up);
    assert_eq!(*pool.get(0).size, 7);
    assert_eq!(*pool.get(1).size, 14);
}

#[test]
fn stateful_spawn_modifier_runs_once_per_particle() {
    let bursts = vec![EmitterBurst { count: 2..3, wait: 0 }];
    let mut emitter = ParticleEmitter::new(unit_sphere(), bursts);
    emitter.add_modifier(Box::new(Counting(10)));
    let mut pool = Particles::new(0);
    emit_particles(&mut emitter, &mut pool, &Mat4::identity(), 0, &up);
    emit_particles(&mut emitter, &mut pool, &Mat4::identity(), 0, &up);
    let rotations: Vec<i64> = (0..pool.len()).map(|i| pool.get(i).position.w).collect();
    assert_eq!(rotations, vec![11, 12, 13, 14]);
}
