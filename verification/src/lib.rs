//! Simulation of large populations of independent, short-lived point
//! particles: the pool that stores them and steps them through time, the
//! emitters that spawn them in bursts, the modifiers that shape them tick by
//! tick, and the keyframe curves that the modifiers read.
//!
//! All quantities are fixed-point integers; see [`fixed`].

pub mod batches;
pub mod curve;
pub mod driver;
pub mod emitter;
pub mod fixed;
pub mod history;
pub mod material;
pub mod math;
pub mod modifiers;
pub mod particles;
pub mod rng;

pub use crate::emitter::{
    emit_particles, EmitterBurst, EmitterModifier, EmitterShape, ParticleEmitter, SpawnDefaults,
};
pub use crate::material::{ParticleMaterial, ParticleMaterialPlugin, ParticleMaterialUniformData};
pub use crate::math::{Mat4, Vec3, Vec4};
pub use crate::particles::{
    update_particles, Particle, ParticleIter, ParticleIterMut, ParticleMut, ParticleParams,
    ParticleRecord, Particles,
};
