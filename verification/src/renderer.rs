//! The per-frame render traversal.
//!
//! A frame is a pure function of the scene, the resource store and the
//! viewport: it pushes the per-frame global state once, then walks the
//! flattened tree in depth-first pre-order and, for each node, pushes the
//! camera or model uniform recomputed from that node's world transform and,
//! for models, the bind-and-draw work — in exactly the traversal order.
//! The backend executes the resulting command list.

use crate::arena::Handle;
use crate::camera::CameraUniform;
use crate::material::GpuMaterial;
use crate::math::{mat_inverse, mat_transpose, perspective_mat, translation_of};
use crate::model::ModelUniform;
use crate::object::{flatten_spec, DataStore, DataToken};
use crate::scene::Scene;
use vstd::prelude::*;

verus! {

/// One unit of work the backend performs for a frame, in list order.
#[derive(Copy, Clone, PartialEq, Debug)]
pub enum RenderCmd {
    /// Advance and push the per-frame global state (elapsed time); exactly
    /// once per frame, before everything else.
    UpdateGlobals,
    /// Write the camera's uniform buffer.
    PushCameraUniform { camera: Handle, uniform: CameraUniform },
    /// Write the model's uniform buffer.
    PushModelUniform { model: Handle, uniform: ModelUniform },
    /// Set the model's pipeline and binding groups, then draw its mesh.
    DrawModel { model: Handle, mesh: u64, material: GpuMaterial },
}

/// A handle that a tree node or the active-camera designation still carries
/// but whose arena entry is gone: a graph/arena desynchronization, reported
/// rather than drawn with stale data.
#[derive(Copy, Clone, PartialEq, Eq, Structural, Debug)]
pub enum RenderError {
    StaleCamera(Handle),
    StaleModel(Handle),
}

/// The commands one flattened entry contributes. A camera node pushes its
/// uniform, recomputed from its world transform. A model node pushes its
/// uniform and draws — but only under an active camera: without one there
/// is nothing sound to bind at group 1, so camera-dependent work is skipped.
/// A handle whose entry is gone stops the frame with an error.
pub open spec fn entry_cmds(
    entry: (DataToken, glam::Mat4),
    active: Option<DataToken>,
    store: DataStore,
    viewport: glam::Vec2,
) -> Result<Seq<RenderCmd>, RenderError> {
    match entry.0 {
        DataToken::Empty => Result::Ok(Seq::empty()),
        DataToken::Camera(h) => {
            if store.cameras.entries().dom().contains(h) {
                let cam = store.cameras.entries()[h];
                Result::Ok(
                    seq![
                        RenderCmd::PushCameraUniform {
                            camera: h,
                            uniform: CameraUniform {
                                projection: perspective_mat(cam.params, viewport),
                                view: mat_inverse(entry.1),
                                camera_pos: translation_of(entry.1),
                            },
                        },
                    ],
                )
            } else {
                Result::Err(RenderError::StaleCamera(h))
            }
        },
        DataToken::Model(h) => match active {
            Option::Some(DataToken::Camera(c)) => {
                if !store.cameras.entries().dom().contains(c) {
                    Result::Err(RenderError::StaleCamera(c))
                } else if store.models.entries().dom().contains(h) {
                    let m = store.models.entries()[h];
                    Result::Ok(
                        seq![
                            RenderCmd::PushModelUniform {
                                model: h,
                                uniform: ModelUniform {
                                    model: entry.1,
                                    normal: mat_transpose(mat_inverse(entry.1)),
                                },
                            },
                            RenderCmd::DrawModel {
                                model: h,
                                mesh: m.mesh,
                                material: m.material.as_gpu_spec(c, h),
                            },
                        ],
                    )
                } else {
                    Result::Err(RenderError::StaleModel(h))
                }
            },
            _ => Result::Ok(Seq::empty()),
        },
    }
}

/// The concatenated commands of the given flattened entries, in order; an
/// entry's error stops the frame, and the first error in traversal order is
/// the frame's error.
pub open spec fn cmds_for_entries(
    entries: Seq<(DataToken, glam::Mat4)>,
    active: Option<DataToken>,
    store: DataStore,
    viewport: glam::Vec2,
) -> Result<Seq<RenderCmd>, RenderError>
    decreases entries.len(),
{
    if entries.len() == 0 {
        Result::Ok(Seq::empty())
    } else {
        match cmds_for_entries(entries.drop_last(), active, store, viewport) {
            Result::Ok(cmds) => match entry_cmds(entries.last(), active, store, viewport) {
                Result::Ok(more) => Result::Ok(cmds + more),
                Result::Err(e) => Result::Err(e),
            },
            Result::Err(e) => Result::Err(e),
        }
    }
}

/// The whole frame: the global-state push, then the flattened tree's
/// commands in depth-first pre-order, against the scene's active camera.
pub open spec fn frame_spec(scene: Scene, store: DataStore, viewport: glam::Vec2) -> Result<
    Seq<RenderCmd>,
    RenderError,
> {
    match cmds_for_entries(
        flatten_spec(scene.root, Option::None),
        scene.active_camera_spec(),
        store,
        viewport,
    ) {
        Result::Ok(cmds) => Result::Ok(seq![RenderCmd::UpdateGlobals] + cmds),
        Result::Err(e) => Result::Err(e),
    }
}

proof fn lemma_entry_cmds_no_globals(
    entries: Seq<(DataToken, glam::Mat4)>,
    active: Option<DataToken>,
    store: DataStore,
    viewport: glam::Vec2,
)
    ensures
        match cmds_for_entries(entries, active, store, viewport) {
            Result::Ok(cmds) => forall|i: int|
                0 <= i < cmds.len() ==> cmds[i] != RenderCmd::UpdateGlobals,
            Result::Err(_) => true,
        },
    decreases entries.len(),
{
    if entries.len() > 0 {
        lemma_entry_cmds_no_globals(entries.drop_last(), active, store, viewport);
    }
}

/// A frame pushes the per-frame global state exactly once, as its first
/// command, whatever the scene holds.
pub proof fn lemma_globals_once(scene: Scene, store: DataStore, viewport: glam::Vec2)
    ensures
        match frame_spec(scene, store, viewport) {
            Result::Ok(cmds) => {
                &&& cmds.len() >= 1
                &&& cmds[0] == RenderCmd::UpdateGlobals
                &&& forall|i: int| 1 <= i < cmds.len() ==> cmds[i] != RenderCmd::UpdateGlobals
            },
            Result::Err(_) => true,
        },
{
    lemma_entry_cmds_no_globals(
        flatten_spec(scene.root, Option::None),
        scene.active_camera_spec(),
        store,
        viewport,
    );
}

/// An error in a prefix of the entries is the error of the whole list.
proof fn lemma_error_prefix(
    entries: Seq<(DataToken, glam::Mat4)>,
    active: Option<DataToken>,
    store: DataStore,
    viewport: glam::Vec2,
    i: int,
)
    requires
        0 <= i <= entries.len(),
        cmds_for_entries(entries.take(i), active, store, viewport) is Err,
    ensures
        cmds_for_entries(entries, active, store, viewport) == cmds_for_entries(
            entries.take(i),
            active,
            store,
            viewport,
        ),
    decreases entries.len() - i,
{
    if i == entries.len() {
        assert(entries.take(i) =~= entries);
    } else {
        assert(entries.take(i + 1).drop_last() =~= entries.take(i));
        lemma_error_prefix(entries, active, store, viewport, i + 1);
    }
}

/// The per-frame driver. It owns no scene state: a frame is computed from
/// the scene, the store and the viewport handed to it.
pub struct Renderer {
    /// The output size (`x` width, `y` height) whose aspect ratio camera
    /// projections use.
    pub viewport: glam::Vec2,
}

impl Renderer {
    pub fn new(viewport: glam::Vec2) -> (r: Self)
        ensures
            r.viewport == viewport,
    {
        Renderer { viewport }
    }

    pub fn resize(&mut self, viewport: glam::Vec2)
        ensures
            final(self).viewport == viewport,
    {
        self.viewport = viewport;
    }

    /// Computes one frame's command list: exactly `frame_spec` of the
    /// current scene, store and viewport, including which error stops a
    /// desynchronized frame.
    pub fn render(&self, scene: &Scene, store: &DataStore) -> (r: Result<
        Vec<RenderCmd>,
        RenderError,
    >)
        ensures
            match r {
                Result::Ok(cmds) => frame_spec(*scene, *store, self.viewport)
                    == Result::<Seq<RenderCmd>, RenderError>::Ok(cmds@),
                Result::Err(e) => frame_spec(*scene, *store, self.viewport)
                    == Result::<Seq<RenderCmd>, RenderError>::Err(e),
            },
    {
        let active = scene.active_camera();
        let entries = scene.root.get_all();
        let mut cmds: Vec<RenderCmd> = Vec::new();
        cmds.push(RenderCmd::UpdateGlobals);
        let n = entries.len();
        proof {
            assert(entries@.take(0) =~= Seq::<(DataToken, glam::Mat4)>::empty());
            assert(cmds@.skip(1) =~= Seq::<RenderCmd>::empty());
        }
        for i in 0..n
            invariant
                n == entries@.len(),
                entries@ == flatten_spec(scene.root, Option::None),
                active == scene.active_camera_spec(),
                cmds@.len() >= 1,
                cmds@[0] == RenderCmd::UpdateGlobals,
                cmds_for_entries(entries@.take(i as int), active, *store, self.viewport)
                    == Result::<Seq<RenderCmd>, RenderError>::Ok(cmds@.skip(1)),
        {
            let (token, world) = entries[i];
            proof {
                assert(entries@.take(i + 1).drop_last() =~= entries@.take(i as int));
                assert(entries@.take(i + 1).last() == entries@[i as int]);
            }
            let ghost prev = cmds@;
            match token {
                DataToken::Empty => {
                    proof {
                        assert(cmds@.skip(1) + Seq::<RenderCmd>::empty() =~= cmds@.skip(1));
                    }
                }
                DataToken::Camera(h) => {
                    match store.get_camera(token) {
                        Some(cam) => {
                            let uniform = cam.update_camera_uniform(world, self.viewport);
                            cmds.push(RenderCmd::PushCameraUniform { camera: h, uniform });
                            proof {
                                assert(cmds@.skip(1) =~= prev.skip(1) + seq![
                                    RenderCmd::PushCameraUniform { camera: h, uniform },
                                ]);
                            }
                        }
                        None => {
                            proof {
                                lemma_error_prefix(entries@, active, *store, self.viewport, i + 1);
                            }
                            return Err(RenderError::StaleCamera(h));
                        }
                    }
                }
                DataToken::Model(h) => {
                    let mut active_camera: Option<Handle> = None;
                    match active {
                        Some(t) => match t {
                            DataToken::Camera(c) => {
                                active_camera = Some(c);
                            }
                            _ => {}
                        },
                        None => {}
                    }
                    match active_camera {
                        Some(c) => {
                            if store.get_camera(DataToken::Camera(c)).is_none() {
                                proof {
                                    lemma_error_prefix(
                                        entries@,
                                        active,
                                        *store,
                                        self.viewport,
                                        i + 1,
                                    );
                                }
                                return Err(RenderError::StaleCamera(c));
                            }
                            match store.get_model(token) {
                                Some(m) => {
                                    let uniform = m.update_model_uniform(world);
                                    let material = m.material.as_gpu(c, h);
                                    let mesh = m.mesh;
                                    cmds.push(RenderCmd::PushModelUniform { model: h, uniform });
                                    cmds.push(RenderCmd::DrawModel { model: h, mesh, material });
                                    proof {
                                        assert(cmds@.skip(1) =~= prev.skip(1) + seq![
                                            RenderCmd::PushModelUniform { model: h, uniform },
                                            RenderCmd::DrawModel { model: h, mesh, material },
                                        ]);
                                    }
                                }
                                None => {
                                    proof {
                                        lemma_error_prefix(
                                            entries@,
                                            active,
                                            *store,
                                            self.viewport,
                                            i + 1,
                                        );
                                    }
                                    return Err(RenderError::StaleModel(h));
                                }
                            }
                        }
                        None => {
                            proof {
                                assert(cmds@.skip(1) + Seq::<RenderCmd>::empty() =~= cmds@.skip(
                                    1,
                                ));
                            }
                        }
                    }
                }
            }
        }
        proof {
            assert(entries@.take(n as int) =~= entries@);
            assert(seq![RenderCmd::UpdateGlobals] + cmds@.skip(1) =~= cmds@);
        }
        Ok(cmds)
    }
}

} // verus!
