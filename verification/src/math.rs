//! Opaque matrix and vector values, and the named operations on them.
//!
//! The scene graph stores `glam` matrices and vectors but never looks inside
//! them: every arithmetic step the library needs is performed by exactly one
//! trusted wrapper around a `glam` call, and the value each wrapper returns
//! is pinned by an uninterpreted spec function of the wrapper's arguments.
//! All of these operations are pure: `glam` computes them from the argument
//! values alone, so naming their results is sound.

use vstd::prelude::*;

verus! {

#[verifier::external_type_specification]
#[verifier::external_body]
pub struct ExMat4(glam::Mat4);

#[verifier::external_type_specification]
#[verifier::external_body]
pub struct ExVec3(glam::Vec3);

#[verifier::external_type_specification]
#[verifier::external_body]
pub struct ExVec2(glam::Vec2);

#[verifier::external_type_specification]
#[verifier::external_body]
pub struct ExQuat(glam::Quat);

/// The value is `glam::Mat4::IDENTITY`, the 4x4 identity matrix.
pub uninterp spec fn is_identity(m: glam::Mat4) -> bool;

/// The matrix product `a * b`.
pub uninterp spec fn mat_mul(a: glam::Mat4, b: glam::Mat4) -> glam::Mat4;

/// The inverse of `m`.
pub uninterp spec fn mat_inverse(m: glam::Mat4) -> glam::Mat4;

/// The transpose of `m`.
pub uninterp spec fn mat_transpose(m: glam::Mat4) -> glam::Mat4;

/// The translation matrix that moves points by `v`.
pub uninterp spec fn translation_mat(v: glam::Vec3) -> glam::Mat4;

/// The scale matrix with per-axis factors `v`.
pub uninterp spec fn scale_mat(v: glam::Vec3) -> glam::Mat4;

/// The rotation matrix of the quaternion `q`.
pub uninterp spec fn rotation_mat(q: glam::Quat) -> glam::Mat4;

/// The translation component of the affine transform `m`.
pub uninterp spec fn translation_of(m: glam::Mat4) -> glam::Vec3;

/// The perspective projection built from `params` (x: vertical field of
/// view in radians, y: near plane, z: far plane) and the aspect ratio of
/// `viewport` (x: width, y: height).
pub uninterp spec fn perspective_mat(params: glam::Vec3, viewport: glam::Vec2) -> glam::Mat4;

/// The componentwise negation of `v`.
pub uninterp spec fn vec2_neg(v: glam::Vec2) -> glam::Vec2;

/// The rotation about the Y axis by the yaw component `look.x`.
pub uninterp spec fn yaw_rotation_of(look: glam::Vec2) -> glam::Mat4;

/// The rotation about the X axis by the pitch component `look.y`.
pub uninterp spec fn pitch_rotation_of(look: glam::Vec2) -> glam::Mat4;

/// The vector `(x, y, z)` with each integer coordinate converted to float.
pub uninterp spec fn axis_vec(x: int, y: int, z: int) -> glam::Vec3;

/// `v` scaled to unit length, or the zero vector where `v` is zero.
pub uninterp spec fn normalized_or_zero(v: glam::Vec3) -> glam::Vec3;

/// Relies on `glam::Mat4::IDENTITY`: the identity matrix constant.
#[verifier::external_body]
pub(crate) fn mat4_identity() -> (r: glam::Mat4)
    ensures
        is_identity(r),
{
    glam::Mat4::IDENTITY
}

/// Relies on `glam::Mat4`'s `Mul` impl: the matrix product of the operands.
#[verifier::external_body]
pub(crate) fn mat4_mul(a: glam::Mat4, b: glam::Mat4) -> (r: glam::Mat4)
    ensures
        r == mat_mul(a, b),
{
    a * b
}

/// Relies on `glam::Mat4::inverse`: the matrix inverse.
#[verifier::external_body]
pub(crate) fn mat4_inverse(m: glam::Mat4) -> (r: glam::Mat4)
    ensures
        r == mat_inverse(m),
{
    m.inverse()
}

/// Relies on `glam::Mat4::transpose`: the matrix transpose.
#[verifier::external_body]
pub(crate) fn mat4_transpose(m: glam::Mat4) -> (r: glam::Mat4)
    ensures
        r == mat_transpose(m),
{
    m.transpose()
}

/// Relies on `glam::Mat4::from_translation`: the translation matrix of `v`.
#[verifier::external_body]
pub(crate) fn mat4_from_translation(v: glam::Vec3) -> (r: glam::Mat4)
    ensures
        r == translation_mat(v),
{
    glam::Mat4::from_translation(v)
}

/// Relies on `glam::Mat4::from_scale`: the scale matrix of `v`.
#[verifier::external_body]
pub(crate) fn mat4_from_scale(v: glam::Vec3) -> (r: glam::Mat4)
    ensures
        r == scale_mat(v),
{
    glam::Mat4::from_scale(v)
}

/// Relies on `glam::Mat4::from_quat`: the rotation matrix of `q`.
#[verifier::external_body]
pub(crate) fn mat4_from_quat(q: glam::Quat) -> (r: glam::Mat4)
    ensures
        r == rotation_mat(q),
{
    glam::Mat4::from_quat(q)
}

/// Relies on `glam::Mat4::to_scale_rotation_translation`: the third element
/// of the decomposition is the transform's translation component.
#[verifier::external_body]
pub(crate) fn mat4_translation_of(m: glam::Mat4) -> (r: glam::Vec3)
    ensures
        r == translation_of(m),
{
    m.to_scale_rotation_translation().2
}

/// Relies on `glam::camera::lh::proj::directx::perspective`: a left-handed
/// perspective projection with depth in [0, 1], built from the field of view
/// `params.x`, the aspect ratio `viewport.x / viewport.y`, the near plane
/// `params.y` and the far plane `params.z`.
#[verifier::external_body]
pub(crate) fn mat4_perspective(params: glam::Vec3, viewport: glam::Vec2) -> (r: glam::Mat4)
    ensures
        r == perspective_mat(params, viewport),
{
    glam::camera::lh::proj::directx::perspective(
        params.x,
        viewport.x / viewport.y,
        params.y,
        params.z,
    )
}

/// Relies on `glam::Vec2`'s `Neg` impl: the componentwise negation.
#[verifier::external_body]
pub(crate) fn vec2_negate(v: glam::Vec2) -> (r: glam::Vec2)
    ensures
        r == vec2_neg(v),
{
    -v
}

/// Relies on `glam::Mat4::from_rotation_y`, applied to the yaw component of
/// `look`.
#[verifier::external_body]
pub(crate) fn mat4_yaw_rotation(look: glam::Vec2) -> (r: glam::Mat4)
    ensures
        r == yaw_rotation_of(look),
{
    glam::Mat4::from_rotation_y(look.x)
}

/// Relies on `glam::Mat4::from_rotation_x`, applied to the pitch component
/// of `look`.
#[verifier::external_body]
pub(crate) fn mat4_pitch_rotation(look: glam::Vec2) -> (r: glam::Mat4)
    ensures
        r == pitch_rotation_of(look),
{
    glam::Mat4::from_rotation_x(look.y)
}

/// Relies on `glam::IVec3::new` and `glam::IVec3::as_vec3`: the float vector
/// with the given integer coordinates.
#[verifier::external_body]
pub(crate) fn vec3_from_ints(x: i32, y: i32, z: i32) -> (r: glam::Vec3)
    ensures
        r == axis_vec(x as int, y as int, z as int),
{
    glam::IVec3::new(x, y, z).as_vec3()
}

/// Relies on `glam::Vec3::normalize_or_zero`: `v` scaled to unit length,
/// or zero where `v` is zero.
#[verifier::external_body]
pub(crate) fn vec3_normalize_or_zero(v: glam::Vec3) -> (r: glam::Vec3)
    ensures
        r == normalized_or_zero(v),
{
    v.normalize_or_zero()
}

} // verus!
