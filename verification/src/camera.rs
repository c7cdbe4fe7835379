//! The camera resource and its per-frame uniform.
//!
//! A camera owns only its projection parameters; where it looks is read from
//! the world transform of the node that carries it, which is the single
//! source of truth for the camera's placement.

use crate::math::{mat_inverse, perspective_mat, translation_of};
use crate::math::{mat4_inverse, mat4_perspective, mat4_translation_of};
use vstd::prelude::*;

verus! {

/// Projection parameters, packed as an opaque vector: `x` is the vertical
/// field of view in radians, `y` the near plane, `z` the far plane.
#[derive(Copy, Clone, PartialEq, Debug)]
pub struct Camera {
    pub params: glam::Vec3,
}

/// The camera state pushed to the backend each frame. The binary layout the
/// backend expects (projection, view, position, one float of padding) is the
/// serializer's concern; this value carries the three components.
#[derive(Copy, Clone, PartialEq, Debug)]
pub struct CameraUniform {
    pub projection: glam::Mat4,
    pub view: glam::Mat4,
    pub camera_pos: glam::Vec3,
}

impl Camera {
    pub fn new(params: glam::Vec3) -> (camera: Self)
        ensures
            camera.params == params,
    {
        Camera { params }
    }

    /// The uniform a frame pushes for this camera: the projection built from
    /// the camera's parameters and the viewport's aspect ratio, the view
    /// matrix (the inverse of the camera node's world transform), and the
    /// camera position (the world transform's translation component).
    pub fn update_camera_uniform(&self, world: glam::Mat4, viewport: glam::Vec2) -> (u:
        CameraUniform)
        ensures
            u.projection == perspective_mat(self.params, viewport),
            u.view == mat_inverse(world),
            u.camera_pos == translation_of(world),
    {
        CameraUniform {
            projection: mat4_perspective(self.params, viewport),
            view: mat4_inverse(world),
            camera_pos: mat4_translation_of(world),
        }
    }
}

} // verus!
