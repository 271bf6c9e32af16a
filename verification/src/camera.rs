//! The camera: viewer pose, focal length and viewport size, and the pinhole
//! projection from world space to screen space.

use vstd::prelude::*;
use vstd::arithmetic::div_mod::lemma_fundamental_div_mod_converse;
use crate::fixed::{
    add_spec, clip_i32, fx_add, fx_abs, fx_mul_div, fx_round_i32, fx_sub, mul_div_spec,
    round_spec, sabs, sub_spec, FX_HALF, FX_ONE,
};
use crate::vectors::{
    mat3_id_spec, mat3_vec_spec, v3_sub_spec, yaw_matrix_spec, Mat3Fx, Point2, Vec3Fx,
};

verus! {

/// The camera's home depth: three units and a little behind the scene cube.
pub const CAMERA_Z_HOME: i64 = -196674;

/// The view-space position of a world point: relative to the camera, then
/// rotated into the viewing frame.
pub open spec fn view_spec(cam: Camera, p: Vec3Fx) -> Vec3Fx {
    mat3_vec_spec(cam.rotation, v3_sub_spec(p, cam.position))
}

/// The pinhole projection of a view-space point: `focal / v.z` scales the
/// lateral coordinates, the viewport center is added, and the result is
/// rounded to the nearest pixel.
pub open spec fn project_pt_spec(cam: Camera, v: Vec3Fx) -> Point2 {
    let focal_fx = cam.focal as int * FX_ONE as int;
    let sx = add_spec(
        mul_div_spec(focal_fx, v.x as int, v.z as int),
        cam.width as int * FX_HALF as int,
    );
    let sy = add_spec(
        mul_div_spec(focal_fx, v.y as int, v.z as int),
        cam.height as int * FX_HALF as int,
    );
    Point2 { x: clip_i32(round_spec(sx)) as i32, y: clip_i32(round_spec(sy)) as i32 }
}

/// The inverse-depth proxy of a view-space point: one over the distance from
/// the camera plane, saturated where that distance is zero.
pub open spec fn z_recip_spec(cam: Camera, v: Vec3Fx) -> int {
    mul_div_spec(FX_ONE as int, FX_ONE as int, sabs(sub_spec(cam.position.z as int, v.z as int)))
}

/// Viewer position and orientation, focal length, and viewport size. Only
/// the yaw and the z position ever change.
#[derive(Clone, Copy, Debug)]
pub struct Camera {
    pub width: u32,
    pub height: u32,
    pub focal: u32,
    pub position: Vec3Fx,
    pub rotation: Mat3Fx,
}

impl Camera {
    /// A camera at the home pose: centered, unrotated, focal length equal to
    /// the viewport width.
    pub fn new(height: u32, width: u32) -> (r: Camera)
        ensures
            r.width == width,
            r.height == height,
            r.focal == width,
            r.position == (Vec3Fx { x: 0, y: 0, z: CAMERA_Z_HOME }),
            r.rotation == mat3_id_spec(),
    {
        Camera {
            width,
            height,
            focal: width,
            position: Vec3Fx::new(0, 0, CAMERA_Z_HOME),
            rotation: Mat3Fx::identity(),
        }
    }

    /// Replaces the orientation with a pure yaw rotation built from the
    /// angle's sine and cosine: absolute, not cumulative.
    pub fn set_yaw(&mut self, yaw_sin: i64, yaw_cos: i64)
        ensures
            final(self).rotation == yaw_matrix_spec(yaw_sin as int, yaw_cos as int),
            final(self).width == old(self).width,
            final(self).height == old(self).height,
            final(self).focal == old(self).focal,
            final(self).position == old(self).position,
    {
        self.rotation = Mat3Fx::from_yaw(yaw_sin, yaw_cos);
    }

    /// Moves the camera along the z axis by the given amount: cumulative.
    pub fn set_z_translate(&mut self, amount: i64)
        ensures
            final(self).position == (Vec3Fx {
                x: old(self).position.x,
                y: old(self).position.y,
                z: add_spec(old(self).position.z as int, amount as int) as i64,
            }),
            final(self).width == old(self).width,
            final(self).height == old(self).height,
            final(self).focal == old(self).focal,
            final(self).rotation == old(self).rotation,
    {
        let z = fx_add(self.position.z, amount);
        self.position = Vec3Fx::new(self.position.x, self.position.y, z);
    }

    /// The view-space position of a world point.
    pub fn view_of(&self, p: Vec3Fx) -> (r: Vec3Fx)
        ensures
            r == view_spec(*self, p),
    {
        self.rotation.apply(p.minus(self.position))
    }

    /// The projected screen point of a view-space point.
    pub fn project_view(&self, v: Vec3Fx) -> (r: Point2)
        ensures
            r == project_pt_spec(*self, v),
    {
        let focal_fx: i64 = self.focal as i64 * FX_ONE;
        let sx: i64 = fx_add(fx_mul_div(focal_fx, v.x, v.z), self.width as i64 * FX_HALF);
        let sy: i64 = fx_add(fx_mul_div(focal_fx, v.y, v.z), self.height as i64 * FX_HALF);
        Point2 { x: fx_round_i32(sx), y: fx_round_i32(sy) }
    }

    /// The inverse-depth proxy of a view-space point.
    pub fn z_recip_of(&self, v: Vec3Fx) -> (r: i64)
        ensures
            r as int == z_recip_spec(*self, v),
    {
        let d: i64 = fx_sub(self.position.z, v.z);
        if d == i64::MIN {
            proof {
                assert(mul_div_spec(FX_ONE as int, FX_ONE as int, sabs(d as int)) == 0) by {
                    assert(sabs(FX_ONE as int) * sabs(FX_ONE as int) == 0x100000000int)
                        by (nonlinear_arith);
                    vstd::arithmetic::div_mod::lemma_basic_div(
                        0x100000000int,
                        sabs(i64::MIN as int),
                    );
                }
            }
            0
        } else {
            let ad: i64 = if d >= 0 {
                d
            } else {
                -d
            };
            fx_mul_div(FX_ONE, FX_ONE, ad)
        }
    }
}

impl Camera {
    /// The camera wrapped as a vertex shader with the base light position.
    pub fn as_vertex_shader<'c>(&'c self) -> (r: crate::shaders::VertexShaderImpl<'c>)
        ensures
            r.camera == self,
            r.light_position == crate::shaders::light_base_spec(),
    {
        crate::shaders::VertexShaderImpl::wrap_camera(self)
    }
}

/// Projection degeneracy law: a view-space point exactly on the optical axis
/// projects to the exact viewport center, whatever its nonzero depth, when
/// the viewport sides are even.
pub proof fn lemma_project_center(cam: Camera, v: Vec3Fx)
    requires
        v.x == 0,
        v.y == 0,
        v.z != 0,
        cam.width % 2 == 0,
        cam.height % 2 == 0,
    ensures
        project_pt_spec(cam, v) == (Point2 {
            x: (cam.width / 2) as i32,
            y: (cam.height / 2) as i32,
        }),
{
    let focal_fx = cam.focal as int * FX_ONE as int;
    assert(sabs(focal_fx) * sabs(0) == 0) by (nonlinear_arith);
    assert(mul_div_spec(focal_fx, 0, v.z as int) == 0);
    lemma_center_round(cam.width as int);
    lemma_center_round(cam.height as int);
}

/// Rounding the fixed-point half-width of an even viewport gives exactly
/// half the viewport.
proof fn lemma_center_round(w: int)
    requires
        0 <= w <= u32::MAX,
        w % 2 == 0,
    ensures
        round_spec(w * FX_HALF as int) == w / 2,
{
    let h = w / 2;
    assert(w == 2 * h);
    assert(w * (FX_HALF as int) == h * (FX_ONE as int)) by (nonlinear_arith)
        requires
            w == 2 * h,
    ;
    lemma_fundamental_div_mod_converse(
        h * (FX_ONE as int) + FX_HALF as int,
        FX_ONE as int,
        h,
        FX_HALF as int,
    );
}

/// Yaw law: the yaw pose is absolute, and a yaw of zero is exactly the
/// orientation of a freshly built camera.
pub proof fn lemma_yaw_zero_restores_identity()
    ensures
        yaw_matrix_spec(0, FX_ONE as int) == mat3_id_spec(),
{
}

} // verus!
