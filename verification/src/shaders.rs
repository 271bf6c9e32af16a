//! The two shading stages: per-vertex projection plus point-light
//! illumination, and the per-pixel depth test and buffer write.

use vstd::prelude::*;
use crate::fixed::{add_spec, fx_add, fx_mul, fx_mul_div, mul_div_spec, fx_mul_spec, FX_ONE};
use crate::vectors::{v3_add_spec, v3_dot_spec, v3_mul_spec, v3_normalize_spec, v3_sub_spec, Point2, Vec3Fx};
use crate::primitives::{Pixel, Vertex};
use crate::camera::{project_pt_spec, view_spec, z_recip_spec, Camera};
use crate::painter::{draw_point_spec, PointPainter};

verus! {

/// The fixed point-light base position: centered, above and in front of the
/// scene.
pub const LIGHT_POS_X: i64 = 0;

/// See `LIGHT_POS_X`: half a unit up.
pub const LIGHT_POS_Y: i64 = -32768;

/// See `LIGHT_POS_X`: seven tenths of a unit toward the viewer.
pub const LIGHT_POS_Z: i64 = -45875;

/// The light power, fourteen whole units per channel.
pub const LIGHT_POWER: i64 = 917504;

/// The constant ambient term, half a unit per channel.
pub const INDIRECT_LIGHT: i64 = 32768;

/// Four pi in fixed point, the solid-angle factor of the inverse-square
/// falloff.
pub const FOUR_PI: i64 = 823550;

/// The fixed point-light base position.
pub open spec fn light_base_spec() -> Vec3Fx {
    Vec3Fx { x: LIGHT_POS_X, y: LIGHT_POS_Y, z: LIGHT_POS_Z }
}

/// The fixed point-light base position.
pub fn light_base() -> (r: Vec3Fx)
    ensures
        r == light_base_spec(),
{
    Vec3Fx::new(LIGHT_POS_X, LIGHT_POS_Y, LIGHT_POS_Z)
}

/// The illumination of a vertex under one point light plus a constant
/// ambient term: the Lambert factor (clamped at zero) over the
/// inverse-square falloff, scaled by the light power, plus the ambient term,
/// all multiplied per channel by the reflectance.
pub open spec fn illum_spec(light: Vec3Fx, v: Vertex) -> Vec3Fx {
    let r = v3_sub_spec(light, v.point);
    let lam0 = v3_dot_spec(v3_normalize_spec(r), v.normal);
    let lam = if lam0 < 0 {
        0
    } else {
        lam0
    };
    let denom = fx_mul_spec(FOUR_PI as int, v3_dot_spec(r, r));
    let dscale = fx_mul_spec(mul_div_spec(lam, FX_ONE as int, denom), LIGHT_POWER as int);
    let gain = add_spec(dscale, INDIRECT_LIGHT as int) as i64;
    v3_mul_spec(v.reflectance, Vec3Fx { x: gain, y: gain, z: gain })
}

/// One vertex shaded into a screen sample: projected through the camera and
/// lit by the point light.
pub open spec fn vertex_shade_spec(cam: Camera, light: Vec3Fx, v: Vertex) -> Pixel {
    let view = view_spec(cam, v.point);
    Pixel {
        point: project_pt_spec(cam, view),
        z_recip: z_recip_spec(cam, view) as i64,
        illumination: illum_spec(light, v),
    }
}

/// Anything that can shade a world vertex into a screen sample.
pub trait VertexShader {
    /// The sample this shader produces for a vertex.
    spec fn shade_spec(&self, v: Vertex) -> Pixel;

    fn vertex_shader(&self, v: &Vertex) -> (p: Pixel)
        ensures
            p == self.shade_spec(*v),
    ;
}

/// The standard vertex shader: a camera together with a light position.
pub struct VertexShaderImpl<'c> {
    pub camera: &'c Camera,
    pub light_position: Vec3Fx,
}

impl<'c> VertexShaderImpl<'c> {
    /// Wraps a camera with the fixed base light position.
    pub fn wrap_camera(camera: &'c Camera) -> (r: VertexShaderImpl<'c>)
        ensures
            r.camera == camera,
            r.light_position == light_base_spec(),
    {
        VertexShaderImpl { camera, light_position: light_base() }
    }

    /// Wraps a camera with an explicit light position.
    pub fn with_light(camera: &'c Camera, light_position: Vec3Fx) -> (r: VertexShaderImpl<'c>)
        ensures
            r.camera == camera,
            r.light_position == light_position,
    {
        VertexShaderImpl { camera, light_position }
    }
}

impl VertexShader for VertexShaderImpl<'_> {
    open spec fn shade_spec(&self, v: Vertex) -> Pixel {
        vertex_shade_spec(*self.camera, self.light_position, v)
    }

    fn vertex_shader(&self, vertex: &Vertex) -> (p: Pixel) {
        let view = self.camera.view_of(vertex.point);
        let projected = self.camera.project_view(view);
        let z_recip = self.camera.z_recip_of(view);

        let r = self.light_position.minus(vertex.point);
        let lam0: i64 = r.normalized().dot(vertex.normal);
        let lam: i64 = if lam0 < 0 {
            0
        } else {
            lam0
        };
        let denom: i64 = fx_mul(FOUR_PI, r.dot(r));
        let dscale: i64 = fx_mul(fx_mul_div(lam, FX_ONE, denom), LIGHT_POWER);
        let gain: i64 = fx_add(dscale, INDIRECT_LIGHT);
        let illumination = vertex.reflectance.times(Vec3Fx::splat(gain));

        Pixel { point: projected, z_recip, illumination }
    }
}

/// The effect of one sample on the depth and color buffers. The depth index
/// is `width * y + x`; a sample whose index is outside the depth buffer is
/// dropped; a strictly greater inverse depth wins and writes both buffers;
/// ties and losses change nothing.
pub open spec fn ps_step_spec(
    width: int,
    cstride: int,
    zb: Seq<i64>,
    cb: Seq<u8>,
    p: Pixel,
) -> (Seq<i64>, Seq<u8>) {
    let idx = width * (p.point.y as int) + (p.point.x as int);
    if 0 <= idx < zb.len() {
        if p.z_recip > zb[idx] {
            (
                zb.update(idx, p.z_recip),
                draw_point_spec(cb, cstride, p.point.x as int, p.point.y as int, p.illumination),
            )
        } else {
            (zb, cb)
        }
    } else {
        (zb, cb)
    }
}

/// Anything that can depth-test a sample and write it to a buffer pair.
pub trait PixelShader {
    /// The per-pixel inverse-depth buffer.
    spec fn ps_zbuf(&self) -> Seq<i64>;

    /// The bytes of the color buffer.
    spec fn ps_colors(&self) -> Seq<u8>;

    /// The row stride of the depth index, in pixels.
    spec fn ps_width(&self) -> int;

    /// The row stride of the color buffer, in pixels.
    spec fn ps_cstride(&self) -> int;

    fn pixel_shader(&mut self, p: Pixel)
        requires
            p.point.x >= 0,
            p.point.y >= 0,
        ensures
            final(self).ps_zbuf() == ps_step_spec(
                old(self).ps_width(),
                old(self).ps_cstride(),
                old(self).ps_zbuf(),
                old(self).ps_colors(),
                p,
            ).0,
            final(self).ps_colors() == ps_step_spec(
                old(self).ps_width(),
                old(self).ps_cstride(),
                old(self).ps_zbuf(),
                old(self).ps_colors(),
                p,
            ).1,
            final(self).ps_width() == old(self).ps_width(),
            final(self).ps_cstride() == old(self).ps_cstride(),
    ;
}

/// The standard pixel shader: a point painter together with an owned depth
/// buffer.
pub struct PixelShaderImpl<PP> {
    pub width: u32,
    pub height: u32,
    pub point_painter: PP,
    pub z_buf: Vec<i64>,
}

impl<PP: PointPainter> PixelShaderImpl<PP> {
    /// Wraps a point painter with a fresh all-zero depth buffer of one entry
    /// per pixel.
    pub fn from_point_painter(pp: PP, height: u32, width: u32) -> (r: PixelShaderImpl<PP>)
        requires
            height * width <= u32::MAX,
        ensures
            r.width == width,
            r.height == height,
            r.point_painter == pp,
            r.z_buf@ == Seq::new((height * width) as nat, |i: int| 0i64),
    {
        let n: u32 = height * width;
        PixelShaderImpl { width, height, point_painter: pp, z_buf: vec![0i64; n as usize] }
    }

    /// The depth-buffer index of a screen point: row-major, `width * y + x`.
    fn get_z_value_idx(&self, point: Point2) -> (i: u64)
        requires
            point.x >= 0,
            point.y >= 0,
        ensures
            i as int == self.width as int * point.y as int + point.x as int,
    {
        proof {
            assert((self.width as int) * (point.y as int) <= 0x7fffffffffffffffi64 as int)
                by (nonlinear_arith)
                requires
                    self.width <= u32::MAX,
                    0 <= point.y <= i32::MAX,
            ;
            assert((self.width as int) * (point.y as int) >= 0) by (nonlinear_arith)
                requires
                    self.width >= 0,
                    point.y >= 0,
            ;
        }
        self.width as u64 * point.y as u64 + point.x as u64
    }

    /// Gives the wrapped point painter back.
    pub fn into_painter(self) -> (r: PP)
        ensures
            r == self.point_painter,
    {
        self.point_painter
    }
}

impl<PP: PointPainter> PixelShader for PixelShaderImpl<PP> {
    open spec fn ps_zbuf(&self) -> Seq<i64> {
        self.z_buf@
    }

    open spec fn ps_colors(&self) -> Seq<u8> {
        self.point_painter.colors()
    }

    open spec fn ps_width(&self) -> int {
        self.width as int
    }

    open spec fn ps_cstride(&self) -> int {
        self.point_painter.stride()
    }

    fn pixel_shader(&mut self, pixel: Pixel) {
        let z_idx: u64 = self.get_z_value_idx(pixel.point);
        if z_idx >= self.z_buf.len() as u64 {
            return ;
        }
        let zi: usize = z_idx as usize;
        let stored: i64 = self.z_buf[zi];
        if pixel.z_recip > stored {
            *vstd::std_specs::vec::vec_index_mut(&mut self.z_buf, zi) = pixel.z_recip;
            self.point_painter.draw_point(
                pixel.point.x as u32,
                pixel.point.y as u32,
                &pixel.illumination,
            );
        }
    }
}

/// Depth-test monotonicity law: at a fixed coordinate, once a stored inverse
/// depth has been written, any later sample that does not exceed it changes
/// neither buffer, and any later sample that exceeds it always overwrites
/// the stored depth.
pub proof fn lemma_depth_test_monotonic(
    width: int,
    cstride: int,
    zb: Seq<i64>,
    cb: Seq<u8>,
    p: Pixel,
)
    requires
        0 <= width * (p.point.y as int) + (p.point.x as int) < zb.len(),
    ensures
        p.z_recip <= zb[width * (p.point.y as int) + (p.point.x as int)] ==> ps_step_spec(
            width,
            cstride,
            zb,
            cb,
            p,
        ) == (zb, cb),
        p.z_recip > zb[width * (p.point.y as int) + (p.point.x as int)] ==> ps_step_spec(
            width,
            cstride,
            zb,
            cb,
            p,
        ).0[width * (p.point.y as int) + (p.point.x as int)] == p.z_recip,
{
}

} // verus!
