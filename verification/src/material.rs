//! Material kinds and the bind-and-draw descriptor.
//!
//! A material is a closed set of kinds; each kind resolves, for a given
//! model and the active camera, to a descriptor naming a pipeline and the
//! binding groups in the fixed order the backend's pipeline layout expects:
//! group 0 the per-frame globals, group 1 the active camera, group 2 the
//! drawn model's own state, group 3 the material's textures and sampler.

use crate::arena::Handle;
use vstd::prelude::*;

verus! {

/// A textured, normal-mapped opaque material. The two fields identify the
/// colour texture and the normal map among the resources the backend loaded.
#[derive(Copy, Clone, PartialEq, Eq, Structural, Debug)]
pub struct SimpleMaterial {
    pub texture: u64,
    pub normal_map: u64,
}

/// The closed set of material kinds.
#[derive(Copy, Clone, PartialEq, Eq, Structural, Debug)]
pub enum Material {
    Simple(SimpleMaterial),
}

/// The stable key under which the backend caches the pipeline a material
/// kind uses: pipelines are expensive and shared, never rebuilt per
/// material instance.
#[derive(Copy, Clone, PartialEq, Eq, Structural, Debug, Hash)]
pub enum PipelineKey {
    SimpleTextured,
}

/// What one binding group slot refers to.
#[derive(Copy, Clone, PartialEq, Eq, Structural, Debug)]
pub enum BindingRef {
    /// The per-frame global state.
    Globals,
    /// The uniform of the camera behind this handle.
    CameraUniform(Handle),
    /// The uniform of the model behind this handle.
    ModelUniform(Handle),
    /// The textures and sampler of the material owned by the model behind
    /// this handle.
    MaterialData(Handle),
}

/// A resolved bind-and-draw descriptor: the pipeline to set, and what each
/// of the four fixed binding group slots refers to. The slot order is part
/// of the contract with the backend's pipeline layout; `setup` lists the
/// slots with their group indices in submission order.
#[derive(Copy, Clone, PartialEq, Eq, Structural, Debug)]
pub struct GpuMaterial {
    pub pipeline: PipelineKey,
    /// Group 0: the per-frame global state.
    pub globals: BindingRef,
    /// Group 1: the active camera.
    pub camera: BindingRef,
    /// Group 2: the drawn model's own state.
    pub object: BindingRef,
    /// Group 3: the material's own resources.
    pub material: BindingRef,
}

impl GpuMaterial {
    /// The binding groups in submission order, each with its group index.
    pub fn setup(&self) -> (r: Vec<(u32, BindingRef)>)
        ensures
            r@ == seq![
                (0u32, self.globals),
                (1u32, self.camera),
                (2u32, self.object),
                (3u32, self.material),
            ],
    {
        let mut r: Vec<(u32, BindingRef)> = Vec::new();
        r.push((0u32, self.globals));
        r.push((1u32, self.camera));
        r.push((2u32, self.object));
        r.push((3u32, self.material));
        proof {
            assert(r@ =~= seq![
                (0u32, self.globals),
                (1u32, self.camera),
                (2u32, self.object),
                (3u32, self.material),
            ]);
        }
        r
    }
}

impl Material {
    /// The pipeline key of this material kind.
    pub open spec fn pipeline_key(self) -> PipelineKey {
        match self {
            Material::Simple(_) => PipelineKey::SimpleTextured,
        }
    }

    /// The descriptor this material resolves to for a given active camera
    /// and drawn model: the kind's shared pipeline, and the four binding
    /// group slots in their fixed order.
    pub open spec fn as_gpu_spec(self, camera: Handle, model: Handle) -> GpuMaterial {
        GpuMaterial {
            pipeline: self.pipeline_key(),
            globals: BindingRef::Globals,
            camera: BindingRef::CameraUniform(camera),
            object: BindingRef::ModelUniform(model),
            material: BindingRef::MaterialData(model),
        }
    }

    /// Resolves this material against the active camera and the model being
    /// drawn.
    pub fn as_gpu(&self, camera: Handle, model: Handle) -> (r: GpuMaterial)
        ensures
            r == self.as_gpu_spec(camera, model),
    {
        let pipeline = match self {
            Material::Simple(_) => PipelineKey::SimpleTextured,
        };
        GpuMaterial {
            pipeline,
            globals: BindingRef::Globals,
            camera: BindingRef::CameraUniform(camera),
            object: BindingRef::ModelUniform(model),
            material: BindingRef::MaterialData(model),
        }
    }
}

} // verus!
