//! The renderable model resource and its per-frame uniform.

use crate::material::Material;
use crate::math::{mat_inverse, mat_transpose};
use crate::math::{mat4_inverse, mat4_transpose};
use vstd::prelude::*;

verus! {

/// A renderable model: a mesh (identified among the meshes the backend
/// loaded) and the material it is drawn with.
#[derive(Copy, Clone, PartialEq, Debug)]
pub struct Model {
    pub mesh: u64,
    pub material: Material,
}

/// The per-object state pushed to the backend each frame: the model matrix
/// and the normal matrix, its inverse transpose, which keeps lighting
/// correct under non-uniform scale.
#[derive(Copy, Clone, PartialEq, Debug)]
pub struct ModelUniform {
    pub model: glam::Mat4,
    pub normal: glam::Mat4,
}

impl Model {
    pub fn new(mesh: u64, material: Material) -> (model: Self)
        ensures
            model.mesh == mesh,
            model.material == material,
    {
        Model { mesh, material }
    }

    /// The uniform a frame pushes for this model: the world transform as the
    /// model matrix, and its inverse transpose as the normal matrix.
    pub fn update_model_uniform(&self, world: glam::Mat4) -> (u: ModelUniform)
        ensures
            u.model == world,
            u.normal == mat_transpose(mat_inverse(world)),
    {
        ModelUniform { model: world, normal: mat4_transpose(mat4_inverse(world)) }
    }
}

} // verus!
