//! The material of a particle batch, as far as the simulation side knows it:
//! whether it has a base colour texture, and the flag word that tells the
//! shader so.

use vstd::prelude::*;

verus! {

/// Flag word of a material without any texture.
pub const FLAGS_NONE: u32 = 0;

/// Flag bit of a material with a base colour texture.
pub const FLAGS_BASE_COLOR_TEXTURE: u32 = 1;

/// Flag word of a material whose flags have not been computed.
pub const FLAGS_UNINITIALIZED: u32 = 0xFFFF;

/// Marker for the material part of the particle plugin.
pub struct ParticleMaterialPlugin;

/// The uniform block that a shader reads for one material.
#[derive(Clone, Copy, Debug, PartialEq, Eq, Structural)]
pub struct ParticleMaterialUniformData {
    pub flags: u32,
}

/// A particle material over texture handles of type `H`.
#[derive(Debug, Clone)]
pub struct ParticleMaterial<H> {
    pub base_color_texture: Option<H>,
}

impl<H> ParticleMaterial<H> {
    /// The flag word of this material: the texture bit if it has a base
    /// colour texture, nothing otherwise.
    pub open spec fn spec_flags(&self) -> u32 {
        if self.base_color_texture is Some {
            FLAGS_BASE_COLOR_TEXTURE
        } else {
            FLAGS_NONE
        }
    }

    /// A material with the given base colour texture.
    pub fn with_texture(texture: H) -> (material: ParticleMaterial<H>)
        ensures
            material.base_color_texture == Some(texture),
    {
        ParticleMaterial { base_color_texture: Some(texture) }
    }

    /// The uniform block that describes this material to the shader.
    pub fn uniform_data(&self) -> (data: ParticleMaterialUniformData)
        ensures
            data.flags == self.spec_flags(),
    {
        let mut flags: u32 = FLAGS_NONE;
        if self.base_color_texture.is_some() {
            flags = flags | FLAGS_BASE_COLOR_TEXTURE;
            assert(0u32 | 1u32 == 1u32) by (bit_vector);
        }
        ParticleMaterialUniformData { flags }
    }
}

impl<H> Default for ParticleMaterial<H> {
    fn default() -> (material: ParticleMaterial<H>)
        ensures
            material.base_color_texture is None,
    {
        ParticleMaterial { base_color_texture: None }
    }
}

} // verus!
