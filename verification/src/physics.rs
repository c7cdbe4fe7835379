//! Keyboard and pointer input, and the movement step it drives.

use crate::math::{axis_vec, mat_mul, normalized_or_zero, pitch_rotation_of, translation_mat};
use crate::math::{translation_of, vec2_neg, yaw_rotation_of};
use crate::math::{mat4_from_translation, mat4_mul, mat4_pitch_rotation, mat4_translation_of};
use crate::math::{mat4_yaw_rotation, vec2_negate, vec3_from_ints, vec3_normalize_or_zero};
use crate::object::node_at;
use crate::object::updated_at;
use crate::scene::Scene;
use vstd::prelude::*;

verus! {

/// One frame's worth of input: which of the six movement flags are held,
/// and the accumulated pointer deltas, in radians (`x` yaw, `y` pitch).
#[derive(Copy, Clone, Default)]
pub struct UserInput {
    pub move_forward: bool,
    pub move_backward: bool,
    pub move_left: bool,
    pub move_right: bool,
    pub move_up: bool,
    pub move_down: bool,
    pub look: glam::Vec2,
}

impl UserInput {
    /// The signed X step: left moves along +X, right along -X.
    pub open spec fn step_x(self) -> int {
        (if self.move_left {
            1int
        } else {
            0int
        }) - (if self.move_right {
            1int
        } else {
            0int
        })
    }

    /// The signed Y step: down moves along +Y, up along -Y.
    pub open spec fn step_y(self) -> int {
        (if self.move_down {
            1int
        } else {
            0int
        }) - (if self.move_up {
            1int
        } else {
            0int
        })
    }

    /// The signed Z step: backward moves along +Z, forward along -Z.
    pub open spec fn step_z(self) -> int {
        (if self.move_backward {
            1int
        } else {
            0int
        }) - (if self.move_forward {
            1int
        } else {
            0int
        })
    }

    /// How many of the six movement flags are held.
    pub open spec fn moves_held(self) -> int {
        (if self.move_forward {
            1int
        } else {
            0int
        }) + (if self.move_backward {
            1int
        } else {
            0int
        }) + (if self.move_left {
            1int
        } else {
            0int
        }) + (if self.move_right {
            1int
        } else {
            0int
        }) + (if self.move_up {
            1int
        } else {
            0int
        }) + (if self.move_down {
            1int
        } else {
            0int
        })
    }

    /// The movement direction the held flags combine to: the sum of the
    /// fixed unit axes, normalized where more than one flag is held (a
    /// combination that cancels to zero stays zero).
    pub fn direction(&self) -> (r: glam::Vec3)
        ensures
            self.moves_held() >= 2 ==> r == normalized_or_zero(
                axis_vec(self.step_x(), self.step_y(), self.step_z()),
            ),
            self.moves_held() < 2 ==> r == axis_vec(self.step_x(), self.step_y(), self.step_z()),
    {
        let mut x: i32 = 0;
        let mut y: i32 = 0;
        let mut z: i32 = 0;
        let mut held: i32 = 0;
        if self.move_forward {
            z = z - 1;
            held = held + 1;
        }
        if self.move_backward {
            z = z + 1;
            held = held + 1;
        }
        if self.move_left {
            x = x + 1;
            held = held + 1;
        }
        if self.move_right {
            x = x - 1;
            held = held + 1;
        }
        if self.move_up {
            y = y - 1;
            held = held + 1;
        }
        if self.move_down {
            y = y + 1;
            held = held + 1;
        }
        let raw = vec3_from_ints(x, y, z);
        if held >= 2 {
            vec3_normalize_or_zero(raw)
        } else {
            raw
        }
    }
}

/// The camera delta a movement step composes for the active camera node:
/// the rotations by the negated pointer deltas, then the translation that
/// keeps the camera at its current position, then the parent's local
/// transform where the camera node has a parent.
pub open spec fn movement_xform(
    look: glam::Vec2,
    camera_local: glam::Mat4,
    parent_local: Option<glam::Mat4>,
) -> glam::Mat4 {
    let base = mat_mul(
        mat_mul(yaw_rotation_of(vec2_neg(look)), pitch_rotation_of(vec2_neg(look))),
        translation_mat(translation_of(camera_local)),
    );
    match parent_local {
        Option::Some(p) => mat_mul(base, p),
        Option::None => base,
    }
}

/// The per-frame movement step: it rebuilds the active camera node's local
/// transform from the pointer deltas and the camera's current position.
#[derive(Default)]
pub struct PhysicsController;

impl PhysicsController {
    /// Applies one frame of input to the active camera node. Where no
    /// camera is designated, or its path no longer leads into the tree,
    /// the scene is left untouched.
    pub fn update(&self, scene: &mut Scene, input: UserInput)
        ensures
            final(scene).camera == old(scene).camera,
            match old(scene).camera_path() {
                Option::Some(p) => match node_at(old(scene).root, p) {
                    Option::Some(cam) => updated_at(
                        old(scene).root,
                        final(scene).root,
                        p,
                        movement_xform(
                            input.look,
                            cam.xform,
                            if p.len() > 0 && node_at(old(scene).root, p.drop_last()) is Some {
                                Option::Some(node_at(old(scene).root, p.drop_last())->0.xform)
                            } else {
                                Option::None
                            },
                        ),
                    ),
                    Option::None => final(scene).root == old(scene).root,
                },
                Option::None => final(scene).root == old(scene).root,
            },
    {
        let camera_local = match scene.get_camera_object() {
            Some(n) => n.get_local_xform(),
            None => {
                return ;
            }
        };
        let pos = mat4_translation_of(camera_local);
        let turned = vec2_negate(input.look);
        let yaw = mat4_yaw_rotation(turned);
        let pitch = mat4_pitch_rotation(turned);
        let base = mat4_mul(mat4_mul(yaw, pitch), mat4_from_translation(pos));
        let xform = match scene.camera_parent_xform() {
            Some(parent) => mat4_mul(base, parent),
            None => base,
        };
        let _updated = scene.set_camera_xform(xform);
    }
}

} // verus!
