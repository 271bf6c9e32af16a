//! Geometric primitives: world-space triangles and vertices, and the
//! screen-space samples the pipeline moves them through.

use vstd::prelude::*;
use crate::fixed::FX_ONE;
use crate::vectors::{v3_cross_spec, v3_normalize_spec, v3_sub_spec, Point2, Vec3Fx};

verus! {

/// A screen-space shaded sample: integer screen coordinate, inverse depth,
/// and shaded color. It is both an edge sample and a fill sample.
#[derive(Clone, Copy, Debug, PartialEq, Eq, Structural)]
pub struct Pixel {
    pub point: Point2,
    pub z_recip: i64,
    pub illumination: Vec3Fx,
}

impl Pixel {
    pub fn new(point: Point2, z_recip: i64, illumination: Vec3Fx) -> (r: Pixel)
        ensures
            r == (Pixel { point, z_recip, illumination }),
    {
        Pixel { point, z_recip, illumination }
    }

    /// Screen position and inverse depth packed as one vector: the integer
    /// coordinates scaled up to fixed point, the inverse depth as it is.
    pub open spec fn xyz_spec(self) -> Vec3Fx {
        Vec3Fx {
            x: (self.point.x as int * FX_ONE as int) as i64,
            y: (self.point.y as int * FX_ONE as int) as i64,
            z: self.z_recip,
        }
    }

    /// Screen position and inverse depth packed as one vector.
    pub fn xyz_as_vec3(&self) -> (r: Vec3Fx)
        ensures
            r == self.xyz_spec(),
    {
        Vec3Fx { x: self.point.x as i64 * FX_ONE, y: self.point.y as i64 * FX_ONE, z: self.z_recip }
    }
}

/// A world-space vertex ready for shading.
#[derive(Clone, Copy, Debug, PartialEq, Eq, Structural)]
pub struct Vertex {
    pub point: Vec3Fx,
    pub normal: Vec3Fx,
    pub reflectance: Vec3Fx,
}

impl Vertex {
    pub fn new(point: Vec3Fx, normal: Vec3Fx, reflectance: Vec3Fx) -> (r: Vertex)
        ensures
            r == (Vertex { point, normal, reflectance }),
    {
        Vertex { point, normal, reflectance }
    }
}

/// The face normal convention: `(v2 - v0) x (v1 - v0)`, normalized. Its sign
/// follows the winding order of the vertices.
pub open spec fn normal_spec(v0: Vec3Fx, v1: Vec3Fx, v2: Vec3Fx) -> Vec3Fx {
    v3_normalize_spec(v3_cross_spec(v3_sub_spec(v2, v0), v3_sub_spec(v1, v0)))
}

/// A world-space triangle with a diffuse color and its cached face normal.
/// The normal is computed once, at construction: build triangles through
/// `Triangle::new`, which guarantees the cache agrees with the convention.
#[derive(Clone, Copy, Debug)]
pub struct Triangle {
    pub v0: Vec3Fx,
    pub v1: Vec3Fx,
    pub v2: Vec3Fx,
    pub color: Vec3Fx,
    pub normal: Vec3Fx,
}

impl Triangle {
    /// Builds a triangle and computes its normal once, eagerly.
    pub fn new(v0: Vec3Fx, v1: Vec3Fx, v2: Vec3Fx, color: Vec3Fx) -> (r: Triangle)
        ensures
            r.v0 == v0,
            r.v1 == v1,
            r.v2 == v2,
            r.color == color,
            r.normal == normal_spec(v0, v1, v2),
    {
        let normal = v2.minus(v0).cross(v1.minus(v0)).normalized();
        Triangle { v0, v1, v2, color, normal }
    }

    /// The cached face normal: repeated calls return the same vector, and on
    /// a triangle built by `new` it is `(v2 - v0) x (v1 - v0)` normalized.
    pub fn get_normal(&self) -> (r: Vec3Fx)
        ensures
            r == self.normal,
    {
        self.normal
    }
}

/// A triangle projected and shaded into screen space: each vertex carries
/// the triangle's normal and color through the vertex shader.
pub open spec fn shade_triangle_spec(
    cam: crate::camera::Camera,
    light: Vec3Fx,
    t: Triangle,
) -> Triangle2D {
    Triangle2D {
        v0: crate::shaders::vertex_shade_spec(
            cam,
            light,
            Vertex { point: t.v0, normal: t.normal, reflectance: t.color },
        ),
        v1: crate::shaders::vertex_shade_spec(
            cam,
            light,
            Vertex { point: t.v1, normal: t.normal, reflectance: t.color },
        ),
        v2: crate::shaders::vertex_shade_spec(
            cam,
            light,
            Vertex { point: t.v2, normal: t.normal, reflectance: t.color },
        ),
    }
}

impl Triangle {
    /// The triangle projected and shaded through a camera, lit from the
    /// base light position.
    pub fn project_to_canvas(&self, camera: &crate::camera::Camera) -> (r: Triangle2D)
        ensures
            r == shade_triangle_spec(*camera, crate::shaders::light_base_spec(), *self),
    {
        let vs = camera.as_vertex_shader();
        let n = self.get_normal();
        let v0 = Vertex::new(self.v0, n, self.color);
        let v1 = Vertex::new(self.v1, n, self.color);
        let v2 = Vertex::new(self.v2, n, self.color);
        Triangle2D {
            v0: crate::shaders::VertexShader::vertex_shader(&vs, &v0),
            v1: crate::shaders::VertexShader::vertex_shader(&vs, &v1),
            v2: crate::shaders::VertexShader::vertex_shader(&vs, &v2),
        }
    }
}

/// A projected, shaded triangle ready for filling.
#[derive(Clone, Copy, Debug, PartialEq, Eq, Structural)]
pub struct Triangle2D {
    pub v0: Pixel,
    pub v1: Pixel,
    pub v2: Pixel,
}

/// A shape that exposes its vertex cycle.
pub trait Vertices {
    type Vertex;

    /// The vertex cycle of the shape.
    spec fn vertex_seq(&self) -> Seq<Self::Vertex>;

    fn vertices(&self) -> (v: Vec<Self::Vertex>)
        ensures
            v@ == self.vertex_seq(),
    ;
}

impl Vertices for Triangle {
    type Vertex = Vec3Fx;

    open spec fn vertex_seq(&self) -> Seq<Vec3Fx> {
        seq![self.v0, self.v1, self.v2]
    }

    fn vertices(&self) -> (v: Vec<Vec3Fx>) {
        let mut v: Vec<Vec3Fx> = Vec::new();
        v.push(self.v0);
        v.push(self.v1);
        v.push(self.v2);
        proof {
            assert(v@ =~= self.vertex_seq());
        }
        v
    }
}

impl Vertices for Triangle2D {
    type Vertex = Pixel;

    open spec fn vertex_seq(&self) -> Seq<Pixel> {
        seq![self.v0, self.v1, self.v2]
    }

    fn vertices(&self) -> (v: Vec<Pixel>) {
        let mut v: Vec<Pixel> = Vec::new();
        v.push(self.v0);
        v.push(self.v1);
        v.push(self.v2);
        proof {
            assert(v@ =~= self.vertex_seq());
        }
        v
    }
}

} // verus!
