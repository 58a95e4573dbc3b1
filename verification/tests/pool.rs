use bevy_prototype_particles::math::{Vec3, Vec4};
use bevy_prototype_particles::particles::{ParticleParams, Particles};

fn with_lifetime(lifetime: u64) -> ParticleParams {
    ParticleParams { lifetime, ..ParticleParams::default() }
}

fn tagged(tag: i64, lifetime: u64) -> ParticleParams {
    ParticleParams { size: tag, lifetime, ..ParticleParams::default() }
}

fn sizes(pool: &Particles) -> Vec<i64> {
    let mut out = Vec::new();
    for idx in 0..pool.len() {
        out.push(*pool.get(idx).size);
    }
    out.sort();
    out
}

#[test]
fn new_pool_is_empty_at_clock_zero() {
    let pool = Particles::new(16);
    assert_eq!(pool.len(), 0);
    assert_eq!(pool.clock(), 0);
    assert!(pool.capacity() >= 16);
    let pool = Particles::new(0);
    assert_eq!(pool.len(), 0);
}

#[test]
fn zero_capacity_pool_grows_on_demand() {
    let mut pool = Particles::new(0);
    for _ in 0..100 {
        pool.spawn(with_lifetime(1));
    }
    assert_eq!(pool.len(), 100);
    assert!(pool.capacity() >= 100);
}

#[test]
fn spawn_stores_the_parameters() {
    let mut pool = Particles::new(0);
    pool.spawn(ParticleParams {
        position: Vec3::new(1, 2, 3),
        rotation: 4,
        size: 5,
        velocity: Vec3::new(6, 7, 8),
        angular_velocity: 9,
        color: Vec4::new(10, 11, 12, 13),
        lifetime: 14,
        lerp_factor: 15,
    });
    let p = pool.get(0);
    assert_eq!(*p.position, Vec4::new(1, 2, 3, 4));
    assert_eq!(*p.velocity, Vec4::new(6, 7, 8, 9));
    assert_eq!(*p.color, Vec4::new(10, 11, 12, 13));
    assert_eq!(*p.size, 5);
    assert_eq!(pool.lerp_factor(0), 15);
    assert_eq!(pool.lifetime_ratio(0), 0);
}

#[test]
fn half_life_then_death() {
    let mut pool = Particles::new(0);
    for _ in 0..5 {
        pool.spawn(with_lifetime(1_000_000));
    }
    pool.advance_particles(500_000);
    assert_eq!(pool.len(), 5);
    for idx in 0..5 {
        assert_eq!(pool.lifetime_ratio(idx), 500_000);
    }
    pool.advance_particles(600_000);
    assert_eq!(pool.clock(), 1_100_000);
    assert_eq!(pool.len(), 0);
}

#[test]
fn all_expired_leaves_nothing() {
    for n in [1usize, 2, 3, 10, 257] {
        let mut pool = Particles::new(0);
        for i in 0..n {
            pool.spawn(with_lifetime(1 + (i as u64 % 7)));
        }
        pool.advance_particles(7);
        assert_eq!(pool.len(), 0);
    }
}

#[test]
fn a_single_live_particle_survives() {
    let mut pool = Particles::new(0);
    pool.spawn(tagged(42, 10));
    pool.advance_particles(9);
    assert_eq!(sizes(&pool), vec![42]);
    pool.advance_particles(1);
    assert_eq!(pool.len(), 0);
}

#[test]
fn particle_dies_exactly_at_expiration() {
    let mut pool = Particles::new(0);
    pool.spawn(with_lifetime(100));
    pool.advance_particles(99);
    assert_eq!(pool.len(), 1);
    assert_eq!(pool.lifetime_ratio(0), 990_000);
    pool.advance_particles(1);
    assert_eq!(pool.len(), 0);
}

#[test]
fn exactly_the_living_survive() {
    let mut pool = Particles::new(0);
    let lifetimes: [u64; 10] = [5, 50, 1, 50, 50, 2, 3, 50, 4, 5];
    for (i, l) in lifetimes.iter().enumerate() {
        pool.spawn(tagged(i as i64, *l));
    }
    pool.advance_particles(5);
    assert_eq!(sizes(&pool), vec![1, 3, 4, 7]);
    for idx in 0..pool.len() {
        assert_eq!(pool.lifetime_ratio(idx), 100_000);
    }
}

#[test]
fn dead_at_both_ends() {
    let mut pool = Particles::new(0);
    let lifetimes: [u64; 6] = [1, 9, 1, 9, 1, 1];
    for (i, l) in lifetimes.iter().enumerate() {
        pool.spawn(tagged(i as i64, *l));
    }
    pool.advance_particles(1);
    assert_eq!(sizes(&pool), vec![1, 3]);
}

#[test]
fn order_is_kept_when_nothing_dies() {
    let mut pool = Particles::new(0);
    for i in 0..8 {
        pool.spawn(tagged(i, 100));
    }
    pool.advance_particles(10);
    for i in 0..8 {
        assert_eq!(*pool.get(i).size, i as i64);
    }
}

#[test]
fn survivors_move_by_their_velocity() {
    let mut pool = Particles::new(0);
    pool.spawn(ParticleParams {
        position: Vec3::new(1_000_000, 0, 0),
        rotation: 100,
        velocity: Vec3::new(2_000_000, -1_000_000, 0),
        angular_velocity: 4_000_000,
        lifetime: 10_000_000,
        ..ParticleParams::default()
    });
    pool.spawn(with_lifetime(1));
    pool.advance_particles(500_000);
    assert_eq!(pool.len(), 1);
    let p = pool.get(0);
    assert_eq!(*p.position, Vec4::new(2_000_000, -500_000, 0, 2_000_100));
    assert_eq!(*p.velocity, Vec4::new(2_000_000, -1_000_000, 0, 4_000_000));
}

#[test]
fn dead_particles_do_not_move_the_living() {
    // the second particle takes the slot of the first and must move once
    let mut pool = Particles::new(0);
    pool.spawn(with_lifetime(1));
    pool.spawn(ParticleParams {
        velocity: Vec3::new(1_000_000, 0, 0),
        lifetime: 10_000_000,
        ..ParticleParams::default()
    });
    pool.advance_particles(1_000_000);
    assert_eq!(pool.len(), 1);
    assert_eq!(*pool.get(0).position, Vec4::new(1_000_000, 0, 0, 0));
}

#[test]
fn clock_is_the_sum_of_the_deltas() {
    let mut pool = Particles::new(0);
    let mut sum = 0u64;
    for dt in [0u64, 1, 16_667, 33_333, 1_000_000] {
        let before = pool.clock();
        pool.advance_particles(dt);
        sum += dt;
        assert!(pool.clock() >= before);
        assert_eq!(pool.clock(), sum);
    }
    pool.spawn(with_lifetime(5));
    assert_eq!(pool.clock(), sum);
    pool.clear();
    assert_eq!(pool.clock(), 0);
    pool.advance_particles(7);
    assert_eq!(pool.clock(), 7);
}

#[test]
fn advance_on_an_empty_pool() {
    let mut pool = Particles::new(0);
    pool.advance_particles(10);
    assert_eq!(pool.len(), 0);
    assert_eq!(pool.clock(), 10);
}

#[test]
fn spawn_after_advance_starts_at_the_clock() {
    let mut pool = Particles::new(0);
    pool.advance_particles(1_000);
    pool.spawn(with_lifetime(1_000));
    assert_eq!(pool.lifetime_ratio(0), 0);
    pool.advance_particles(250);
    assert_eq!(pool.lifetime_ratio(0), 250_000);
    pool.advance_particles(749);
    assert_eq!(pool.lifetime_ratio(0), 999_000);
    pool.advance_particles(1);
    assert_eq!(pool.len(), 0);
}

#[test]
fn ratio_without_a_lifetime_is_zero() {
    let mut pool = Particles::new(0);
    pool.spawn(with_lifetime(0));
    assert_eq!(pool.lifetime_ratio(0), 0);
}

#[test]
fn expiration_sticks_at_the_end_of_time() {
    let mut pool = Particles::new(0);
    pool.advance_particles(10);
    pool.spawn(with_lifetime(u64::MAX));
    pool.advance_particles(u64::MAX - 11);
    assert_eq!(pool.len(), 1);
    pool.advance_particles(1);
    assert_eq!(pool.len(), 0);
}

#[test]
fn columns_stay_in_step() {
    let mut pool = Particles::new(0);
    for round in 0..20u64 {
        for i in 0..10u64 {
            pool.spawn(ParticleParams {
                size: (round * 10 + i) as i64,
                color: Vec4::new((round * 10 + i) as i64, 0, 0, 0),
                position: Vec3::new((round * 10 + i) as i64, 0, 0),
                lerp_factor: (round * 10 + i) as i64,
                lifetime: 1 + (i * 3 + round) % 5,
                ..ParticleParams::default()
            });
        }
        pool.advance_particles(1);
        for idx in 0..pool.len() {
            let p = pool.get(idx);
            assert_eq!(p.color.x, *p.size);
            assert_eq!(p.position.x, *p.size);
            assert_eq!(pool.lerp_factor(idx), *p.size);
        }
    }
    pool.clear();
    assert_eq!(pool.len(), 0);
}

#[test]
fn get_mut_writes_one_particle() {
    let mut pool = Particles::new(0);
    pool.spawn(tagged(1, 10));
    pool.spawn(tagged(2, 10));
    {
        let p = pool.get_mut(1);
        *p.size = 20;
        *p.color = Vec4::new(1, 2, 3, 4);
        *p.position = Vec4::new(5, 6, 7, 8);
        *p.velocity = Vec4::new(9, 10, 11, 12);
    }
    assert_eq!(*pool.get(0).size, 1);
    assert_eq!(*pool.get(0).color, Vec4::zero());
    assert_eq!(*pool.get(1).size, 20);
    assert_eq!(*pool.get(1).color, Vec4::new(1, 2, 3, 4));
    assert_eq!(*pool.get(1).position, Vec4::new(5, 6, 7, 8));
    assert_eq!(*pool.get(1).velocity, Vec4::new(9, 10, 11, 12));
}

#[test]
fn spawn_batch_is_repeated_spawn() {
    let mut a = Particles::new(0);
    let mut b = Particles::new(0);
    a.advance_particles(5);
    b.advance_particles(5);
    let batch = vec![tagged(1, 10), tagged(2, 20), tagged(3, 30)];
    for p in batch.iter() {
        a.spawn(*p);
    }
    b.spawn_batch(batch);
    assert_eq!(a.len(), 3);
    assert_eq!(b.len(), 3);
    a.advance_particles(5);
    b.advance_particles(5);
    for idx in 0..3 {
        assert_eq!(*a.get(idx).size, *b.get(idx).size);
        assert_eq!(a.lifetime_ratio(idx), b.lifetime_ratio(idx));
    }
    b.spawn_batch(Vec::new());
    assert_eq!(b.len(), 3);
}

#[test]
fn merge_appends_the_other_pool() {
    let mut a = Particles::new(0);
    a.spawn(tagged(1, 10));
    let mut b = Particles::new(4);
    b.spawn(tagged(2, 20));
    b.spawn(tagged(3, 5));
    a.merge(b);
    assert_eq!(a.len(), 3);
    assert_eq!(*a.get(0).size, 1);
    assert_eq!(*a.get(1).size, 2);
    assert_eq!(*a.get(2).size, 3);
    assert_eq!(a.clock(), 0);
    a.advance_particles(5);
    assert_eq!(sizes(&a), vec![1, 2]);
}

#[test]
fn reserve_keeps_the_particles() {
    let mut pool = Particles::new(0);
    pool.spawn(tagged(1, 10));
    pool.reserve(1000);
    assert_eq!(pool.len(), 1);
    assert!(pool.capacity() >= 1001);
    assert_eq!(*pool.get(0).size, 1);
}

#[test]
fn read_cursor_visits_every_particle_once() {
    let mut pool = Particles::new(0);
    for i in 0..4 {
        pool.spawn(tagged(i, 10));
    }
    let mut cursor = pool.iter();
    let mut seen = Vec::new();
    while let Some(p) = cursor.next() {
        seen.push(*p.size);
    }
    assert_eq!(seen, vec![0, 1, 2, 3]);
    assert!(cursor.next().is_none());
}

#[test]
fn write_cursor_visits_every_particle_once() {
    let mut pool = Particles::new(0);
    for i in 0..4 {
        pool.spawn(tagged(i, 10));
    }
    {
        let mut cursor = pool.iter_mut();
        while let Some(p) = cursor.next() {
            *p.size += 10;
        }
        assert!(cursor.next().is_none());
    }
    for i in 0..4 {
        assert_eq!(*pool.get(i).size, 10 + i as i64);
    }
}

#[test]
fn cursors_over_an_empty_pool() {
    let mut pool = Particles::new(0);
    assert!(pool.iter().next().is_none());
    assert!(pool.iter_mut().next().is_none());
}

#[test]
fn default_parameters_are_zero() {
    let p = ParticleParams::default();
    assert_eq!(p.position, Vec3::zero());
    assert_eq!(p.velocity, Vec3::zero());
    assert_eq!(p.color, Vec4::zero());
    assert_eq!((p.rotation, p.size, p.angular_velocity, p.lifetime, p.lerp_factor), (0, 0, 0, 0, 0));
}

#[test]
fn update_stops_at_the_end_of_time() {
    let mut pool = Particles::new(0);
    pool.spawn(tagged(3, 10));
    assert!(bevy_prototype_particles::update_particles(&mut pool, u64::MAX - 1));
    assert_eq!(pool.len(), 0);
    pool.spawn(tagged(4, 10));
    assert!(!bevy_prototype_particles::update_particles(&mut pool, 2));
    assert_eq!(pool.clock(), u64::MAX - 1);
    assert_eq!(sizes(&pool), vec![4]);
    assert!(bevy_prototype_particles::update_particles(&mut pool, 1));
    assert_eq!(pool.clock(), u64::MAX);
    assert_eq!(pool.len(), 0);
}

#[test]
fn clone_is_an_equal_pool() {
    let mut pool = Particles::new(0);
    pool.advance_particles(3);
    pool.spawn(tagged(1, 10));
    pool.spawn(tagged(2, 20));
    let mut copy = pool.clone();
    assert_eq!(copy.len(), 2);
    assert_eq!(copy.clock(), 3);
    assert_eq!(*copy.get(1).size, 2);
    copy.advance_particles(10);
    assert_eq!(sizes(&copy), vec![2]);
    assert_eq!(pool.len(), 2);
    let empty = Particles::default();
    assert_eq!((empty.len(), empty.clock()), (0, 0));
}

#[test]
fn ratio_is_negative_before_the_start() {
    let mut later = Particles::new(0);
    later.advance_particles(1_000_000);
    later.spawn(with_lifetime(1_000_000));
    let mut pool = Particles::new(0);
    pool.merge(later);
    assert_eq!(pool.lifetime_ratio(0), -1_000_000);
    pool.advance_particles(250_000);
    assert_eq!(pool.lifetime_ratio(0), -750_000);
    pool.advance_particles(750_001);
    assert_eq!(pool.lifetime_ratio(0), 1);
    pool.advance_particles(999_998);
    assert_eq!(pool.lifetime_ratio(0), 999_999);
}

#[test]
fn ratio_rounds_down_on_both_sides_of_zero() {
    let mut later = Particles::new(0);
    later.advance_particles(10);
    later.spawn(with_lifetime(3));
    let mut pool = Particles::new(0);
    pool.merge(later);
    // (0 - 10) / 3 and (9 - 10) / 3
    assert_eq!(pool.lifetime_ratio(0), -3_333_334);
    pool.advance_particles(9);
    assert_eq!(pool.lifetime_ratio(0), -333_334);
    pool.advance_particles(2);
    assert_eq!(pool.lifetime_ratio(0), 333_333);
}
