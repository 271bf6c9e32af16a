//! The world: a camera, a triangle list and a light offset, rendered one
//! frame at a time into a borrowed color buffer.

use vstd::prelude::*;
use crate::fixed::{mul_div_spec, fx_mul_div, fx_sub, sub_spec, FX_ONE};
use crate::vectors::{mat3_id_spec, v3_add_spec, Vec3Fx};
use crate::camera::{Camera, CAMERA_Z_HOME};
use crate::primitives::{shade_triangle_spec, Triangle, Triangle2D, Vertices};
use crate::pixels::PixelBuffer;
use crate::painter::{fill_polygon_spec, PolygonFiller};
use crate::shaders::{light_base, light_base_spec, PixelShader, PixelShaderImpl, VertexShader, VertexShaderImpl};

verus! {

/// The side length of the scene box in source units.
pub const SCENE_SIDE: i64 = 555;

/// One scene coordinate rescaled into the unit cube: `2 c / side - 1`, with
/// the lateral axes flipped.
pub open spec fn scale_coord_spec(c: int) -> int {
    sub_spec(mul_div_spec(c, 2, SCENE_SIDE as int), FX_ONE as int)
}

/// One scene vertex rescaled into the unit cube with the x and y axes
/// flipped.
pub open spec fn scale_vertex_spec(v: Vec3Fx) -> Vec3Fx {
    Vec3Fx {
        x: sub_spec(0, scale_coord_spec(v.x as int)) as i64,
        y: sub_spec(0, scale_coord_spec(v.y as int)) as i64,
        z: scale_coord_spec(v.z as int) as i64,
    }
}

/// One scene coordinate rescaled into the unit cube.
fn scale_coord(c: i64) -> (r: i64)
    ensures
        r as int == scale_coord_spec(c as int),
{
    fx_sub(fx_mul_div(c, 2, SCENE_SIDE), FX_ONE)
}

/// One scene vertex rescaled into the unit cube with the lateral axes
/// flipped.
fn scale_vertex(v: Vec3Fx) -> (r: Vec3Fx)
    ensures
        r == scale_vertex_spec(v),
{
    Vec3Fx {
        x: fx_sub(0, scale_coord(v.x)),
        y: fx_sub(0, scale_coord(v.y)),
        z: scale_coord(v.z),
    }
}

/// A scene triangle rescaled into the unit cube, its lateral axes flipped
/// and its normal recomputed for the new vertices.
pub fn scale_triangle(t: Triangle) -> (r: Triangle)
    ensures
        r.v0 == scale_vertex_spec(t.v0),
        r.v1 == scale_vertex_spec(t.v1),
        r.v2 == scale_vertex_spec(t.v2),
        r.color == t.color,
        r.normal == crate::primitives::normal_spec(
            scale_vertex_spec(t.v0),
            scale_vertex_spec(t.v1),
            scale_vertex_spec(t.v2),
        ),
{
    Triangle::new(scale_vertex(t.v0), scale_vertex(t.v1), scale_vertex(t.v2), t.color)
}

/// The light position of a frame: the fixed base plus the world's offset.
pub open spec fn light_of(w: World) -> Vec3Fx {
    v3_add_spec(light_base_spec(), w.light_offset)
}

/// The buffers after the triangles from index `i` onward are each projected,
/// shaded with the frame's light, and filled.
pub open spec fn render_spec(
    w: World,
    cstride: int,
    zb: Seq<i64>,
    cb: Seq<u8>,
    i: int,
) -> (Seq<i64>, Seq<u8>)
    decreases w.triangles@.len() - i,
{
    if i < 0 || i >= w.triangles@.len() {
        (zb, cb)
    } else {
        let t2 = shade_triangle_spec(w.camera, light_of(w), w.triangles@[i]);
        let s = fill_polygon_spec(
            w.camera.width as int,
            cstride,
            zb,
            cb,
            seq![t2.v0, t2.v1, t2.v2],
        );
        render_spec(w, cstride, s.0, s.1, i + 1)
    }
}

/// One whole frame: the color buffer cleared to zero, a fresh all-zero depth
/// buffer of one entry per pixel, then every triangle filled in order.
pub open spec fn draw_spec(w: World, cstride: int, buflen: int) -> (Seq<i64>, Seq<u8>) {
    render_spec(
        w,
        cstride,
        Seq::new((w.camera.height * w.camera.width) as nat, |i: int| 0i64),
        Seq::new(buflen as nat, |i: int| 0u8),
        0,
    )
}

/// The scene and viewing state of the renderer.
pub struct World {
    pub camera: Camera,
    pub triangles: Vec<Triangle>,
    pub light_offset: Vec3Fx,
}

impl World {
    /// A world with a fresh camera at the home pose and a zero light offset.
    pub fn new(height: u32, width: u32, triangles: Vec<Triangle>) -> (r: World)
        ensures
            r.camera.width == width,
            r.camera.height == height,
            r.camera.focal == width,
            r.camera.position == (Vec3Fx { x: 0, y: 0, z: CAMERA_Z_HOME }),
            r.camera.rotation == mat3_id_spec(),
            r.triangles == triangles,
            r.light_offset == (Vec3Fx { x: 0, y: 0, z: 0 }),
    {
        World { camera: Camera::new(height, width), triangles, light_offset: Vec3Fx::zero() }
    }

    /// Renders one frame into the writer: clears it, then projects, shades
    /// and depth-tests every triangle in order.
    pub fn draw(&self, writer: &mut PixelBuffer)
        requires
            self.camera.height * self.camera.width <= u32::MAX,
        ensures
            final(writer).width == old(writer).width,
            final(writer).buf@ == draw_spec(
                *self,
                old(writer).width as int,
                old(writer).buf@.len() as int,
            ).1,
    {
        writer.memset(0);
        let mut pb: PixelBuffer = PixelBuffer::new(0, Vec::new());
        core::mem::swap(writer, &mut pb);
        let ghost cstride: int = pb.width as int;
        let mut ps = PixelShaderImpl::from_point_painter(pb, self.camera.height, self.camera.width);
        let vs = VertexShaderImpl::with_light(&self.camera, light_base().plus(self.light_offset));
        let ghost goal: (Seq<i64>, Seq<u8>) = render_spec(
            *self,
            cstride,
            ps.ps_zbuf(),
            ps.ps_colors(),
            0,
        );
        let n: usize = self.triangles.len();
        let mut i: usize = 0;
        while i < n
            invariant
                i <= n == self.triangles@.len(),
                vs.camera == &self.camera,
                vs.light_position == light_of(*self),
                ps.ps_width() == self.camera.width as int,
                ps.ps_cstride() == cstride,
                render_spec(*self, cstride, ps.ps_zbuf(), ps.ps_colors(), i as int) == goal,
            decreases n - i,
        {
            let t: &Triangle = &self.triangles[i];
            let v0 = crate::primitives::Vertex::new(t.v0, t.normal, t.color);
            let v1 = crate::primitives::Vertex::new(t.v1, t.normal, t.color);
            let v2 = crate::primitives::Vertex::new(t.v2, t.normal, t.color);
            let t2 = Triangle2D {
                v0: vs.vertex_shader(&v0),
                v1: vs.vertex_shader(&v1),
                v2: vs.vertex_shader(&v2),
            };
            proof {
                assert(t2 == shade_triangle_spec(self.camera, light_of(*self), self.triangles@[i as int]));
                assert(t2.vertex_seq() =~= seq![t2.v0, t2.v1, t2.v2]);
            }
            ps.fill_polygon(&t2);
            i = i + 1;
        }
        let mut out: PixelBuffer = ps.into_painter();
        core::mem::swap(writer, &mut out);
    }

    /// Replaces the camera's yaw, given the angle's sine and cosine:
    /// absolute, not cumulative.
    pub fn set_yaw(&mut self, yaw_sin: i64, yaw_cos: i64)
        ensures
            final(self).camera.rotation == crate::vectors::yaw_matrix_spec(
                yaw_sin as int,
                yaw_cos as int,
            ),
            final(self).camera.width == old(self).camera.width,
            final(self).camera.height == old(self).camera.height,
            final(self).camera.focal == old(self).camera.focal,
            final(self).camera.position == old(self).camera.position,
            final(self).triangles == old(self).triangles,
            final(self).light_offset == old(self).light_offset,
    {
        self.camera.set_yaw(yaw_sin, yaw_cos);
    }

    /// Moves the camera along the z axis, cumulatively.
    pub fn set_z_translate(&mut self, amount: i64)
        ensures
            final(self).camera.position.z as int == crate::fixed::add_spec(
                old(self).camera.position.z as int,
                amount as int,
            ),
            final(self).camera.position.x == old(self).camera.position.x,
            final(self).camera.position.y == old(self).camera.position.y,
            final(self).camera.width == old(self).camera.width,
            final(self).camera.height == old(self).camera.height,
            final(self).camera.focal == old(self).camera.focal,
            final(self).camera.rotation == old(self).camera.rotation,
            final(self).triangles == old(self).triangles,
            final(self).light_offset == old(self).light_offset,
    {
        self.camera.set_z_translate(amount);
    }

    /// The viewport size as `(height, width)`.
    pub fn get_canvas_size(&self) -> (r: (u32, u32))
        ensures
            r.0 == self.camera.height,
            r.1 == self.camera.width,
    {
        (self.camera.height, self.camera.width)
    }

    /// Replaces the light offset, absolutely.
    pub fn update_light_offset(&mut self, x: i64, y: i64, z: i64)
        ensures
            final(self).light_offset == (Vec3Fx { x, y, z }),
            final(self).camera == old(self).camera,
            final(self).triangles == old(self).triangles,
    {
        self.light_offset = Vec3Fx::new(x, y, z);
    }
}

} // verus!
