//! Fixed-point vectors and matrices: the coordinate types of the pipeline.

use vstd::prelude::*;
use crate::fixed::{
    add_spec, clip_i64, fx_add, fx_div_spec, fx_mul, fx_mul_div, fx_mul_spec, fx_sqrt,
    fx_sqrt_spec, fx_sub, mul_div_neg, mul_div_spec, mul_div_val, sabs, sub_spec, FX_ONE,
};

verus! {

/// A two-component fixed-point vector.
#[derive(Clone, Copy, Debug, PartialEq, Eq, Structural)]
pub struct Vec2Fx {
    pub x: i64,
    pub y: i64,
}

/// A three-component fixed-point vector.
#[derive(Clone, Copy, Debug, PartialEq, Eq, Structural)]
pub struct Vec3Fx {
    pub x: i64,
    pub y: i64,
    pub z: i64,
}

/// An integer screen coordinate.
#[derive(Clone, Copy, Debug, PartialEq, Eq, Structural)]
pub struct Point2 {
    pub x: i32,
    pub y: i32,
}

/// A three-by-three fixed-point matrix, stored by rows.
#[derive(Clone, Copy, Debug, PartialEq, Eq, Structural)]
pub struct Mat3Fx {
    pub r0: Vec3Fx,
    pub r1: Vec3Fx,
    pub r2: Vec3Fx,
}

pub open spec fn v2_spec(x: int, y: int) -> Vec2Fx {
    Vec2Fx { x: x as i64, y: y as i64 }
}

pub open spec fn v3_spec(x: int, y: int, z: int) -> Vec3Fx {
    Vec3Fx { x: x as i64, y: y as i64, z: z as i64 }
}

/// Componentwise saturating sum.
pub open spec fn v2_add_spec(a: Vec2Fx, b: Vec2Fx) -> Vec2Fx {
    v2_spec(add_spec(a.x as int, b.x as int), add_spec(a.y as int, b.y as int))
}

/// Componentwise saturating difference.
pub open spec fn v2_sub_spec(a: Vec2Fx, b: Vec2Fx) -> Vec2Fx {
    v2_spec(sub_spec(a.x as int, b.x as int), sub_spec(a.y as int, b.y as int))
}

/// Componentwise saturating sum.
pub open spec fn v3_add_spec(a: Vec3Fx, b: Vec3Fx) -> Vec3Fx {
    v3_spec(
        add_spec(a.x as int, b.x as int),
        add_spec(a.y as int, b.y as int),
        add_spec(a.z as int, b.z as int),
    )
}

/// Componentwise saturating difference.
pub open spec fn v3_sub_spec(a: Vec3Fx, b: Vec3Fx) -> Vec3Fx {
    v3_spec(
        sub_spec(a.x as int, b.x as int),
        sub_spec(a.y as int, b.y as int),
        sub_spec(a.z as int, b.z as int),
    )
}

/// Componentwise fixed-point product.
pub open spec fn v3_mul_spec(a: Vec3Fx, b: Vec3Fx) -> Vec3Fx {
    v3_spec(
        fx_mul_spec(a.x as int, b.x as int),
        fx_mul_spec(a.y as int, b.y as int),
        fx_mul_spec(a.z as int, b.z as int),
    )
}

/// A vector scaled by a fixed-point factor.
pub open spec fn v3_scale_spec(a: Vec3Fx, c: int) -> Vec3Fx {
    v3_spec(
        fx_mul_spec(a.x as int, c),
        fx_mul_spec(a.y as int, c),
        fx_mul_spec(a.z as int, c),
    )
}

/// Fixed-point dot product, accumulated with saturating sums.
pub open spec fn v3_dot_spec(a: Vec3Fx, b: Vec3Fx) -> int {
    add_spec(
        add_spec(fx_mul_spec(a.x as int, b.x as int), fx_mul_spec(a.y as int, b.y as int)),
        fx_mul_spec(a.z as int, b.z as int),
    )
}

/// Fixed-point cross product.
pub open spec fn v3_cross_spec(a: Vec3Fx, b: Vec3Fx) -> Vec3Fx {
    v3_spec(
        sub_spec(fx_mul_spec(a.y as int, b.z as int), fx_mul_spec(a.z as int, b.y as int)),
        sub_spec(fx_mul_spec(a.z as int, b.x as int), fx_mul_spec(a.x as int, b.z as int)),
        sub_spec(fx_mul_spec(a.x as int, b.y as int), fx_mul_spec(a.y as int, b.x as int)),
    )
}

/// Fixed-point length: the square root of the dot product with itself.
pub open spec fn v3_len_spec(a: Vec3Fx) -> int {
    fx_sqrt_spec(v3_dot_spec(a, a))
}

/// The vector divided by its own length; saturated components where the
/// length is zero.
pub open spec fn v3_normalize_spec(a: Vec3Fx) -> Vec3Fx {
    let len = v3_len_spec(a);
    v3_spec(
        mul_div_spec(a.x as int, FX_ONE as int, len),
        mul_div_spec(a.y as int, FX_ONE as int, len),
        mul_div_spec(a.z as int, FX_ONE as int, len),
    )
}

/// Matrix application: one dot product per row.
pub open spec fn mat3_vec_spec(m: Mat3Fx, v: Vec3Fx) -> Vec3Fx {
    v3_spec(v3_dot_spec(m.r0, v), v3_dot_spec(m.r1, v), v3_dot_spec(m.r2, v))
}

/// The identity matrix.
pub open spec fn mat3_id_spec() -> Mat3Fx {
    Mat3Fx {
        r0: (Vec3Fx { x: FX_ONE, y: 0, z: 0 }),
        r1: (Vec3Fx { x: 0, y: FX_ONE, z: 0 }),
        r2: (Vec3Fx { x: 0, y: 0, z: FX_ONE }),
    }
}

/// A pure rotation about the vertical axis, given the angle's sine and
/// cosine.
pub open spec fn yaw_matrix_spec(s: int, c: int) -> Mat3Fx {
    Mat3Fx {
        r0: v3_spec(c, 0, s),
        r1: (Vec3Fx { x: 0, y: FX_ONE, z: 0 }),
        r2: v3_spec(sub_spec(0, s), 0, c),
    }
}

impl Vec2Fx {
    pub fn new(x: i64, y: i64) -> (r: Vec2Fx)
        ensures
            r == (Vec2Fx { x, y }),
    {
        Vec2Fx { x, y }
    }

    pub fn plus(self, o: Vec2Fx) -> (r: Vec2Fx)
        ensures
            r == v2_add_spec(self, o),
    {
        Vec2Fx { x: fx_add(self.x, o.x), y: fx_add(self.y, o.y) }
    }

    pub fn minus(self, o: Vec2Fx) -> (r: Vec2Fx)
        ensures
            r == v2_sub_spec(self, o),
    {
        Vec2Fx { x: fx_sub(self.x, o.x), y: fx_sub(self.y, o.y) }
    }
}

impl Vec3Fx {
    pub fn new(x: i64, y: i64, z: i64) -> (r: Vec3Fx)
        ensures
            r == (Vec3Fx { x, y, z }),
    {
        Vec3Fx { x, y, z }
    }

    /// All three components set to the same value.
    pub fn splat(v: i64) -> (r: Vec3Fx)
        ensures
            r == (Vec3Fx { x: v, y: v, z: v }),
    {
        Vec3Fx { x: v, y: v, z: v }
    }

    pub fn zero() -> (r: Vec3Fx)
        ensures
            r == (Vec3Fx { x: 0, y: 0, z: 0 }),
    {
        Vec3Fx { x: 0, y: 0, z: 0 }
    }

    pub fn plus(self, o: Vec3Fx) -> (r: Vec3Fx)
        ensures
            r == v3_add_spec(self, o),
    {
        Vec3Fx { x: fx_add(self.x, o.x), y: fx_add(self.y, o.y), z: fx_add(self.z, o.z) }
    }

    pub fn minus(self, o: Vec3Fx) -> (r: Vec3Fx)
        ensures
            r == v3_sub_spec(self, o),
    {
        Vec3Fx { x: fx_sub(self.x, o.x), y: fx_sub(self.y, o.y), z: fx_sub(self.z, o.z) }
    }

    /// Componentwise fixed-point product.
    pub fn times(self, o: Vec3Fx) -> (r: Vec3Fx)
        ensures
            r == v3_mul_spec(self, o),
    {
        Vec3Fx { x: fx_mul(self.x, o.x), y: fx_mul(self.y, o.y), z: fx_mul(self.z, o.z) }
    }

    /// The vector scaled by a fixed-point factor.
    pub fn scaled(self, c: i64) -> (r: Vec3Fx)
        ensures
            r == v3_scale_spec(self, c as int),
    {
        Vec3Fx { x: fx_mul(self.x, c), y: fx_mul(self.y, c), z: fx_mul(self.z, c) }
    }

    /// Fixed-point dot product.
    pub fn dot(self, o: Vec3Fx) -> (r: i64)
        ensures
            r as int == v3_dot_spec(self, o),
    {
        fx_add(fx_add(fx_mul(self.x, o.x), fx_mul(self.y, o.y)), fx_mul(self.z, o.z))
    }

    /// Fixed-point cross product.
    pub fn cross(self, o: Vec3Fx) -> (r: Vec3Fx)
        ensures
            r == v3_cross_spec(self, o),
    {
        Vec3Fx {
            x: fx_sub(fx_mul(self.y, o.z), fx_mul(self.z, o.y)),
            y: fx_sub(fx_mul(self.z, o.x), fx_mul(self.x, o.z)),
            z: fx_sub(fx_mul(self.x, o.y), fx_mul(self.y, o.x)),
        }
    }

    /// The vector divided by its own length.
    pub fn normalized(self) -> (r: Vec3Fx)
        ensures
            r == v3_normalize_spec(self),
    {
        proof {
            lemma_v3_dot_self_nonneg(self);
        }
        let len: i64 = fx_sqrt(self.dot(self));
        Vec3Fx {
            x: fx_mul_div(self.x, FX_ONE, len),
            y: fx_mul_div(self.y, FX_ONE, len),
            z: fx_mul_div(self.z, FX_ONE, len),
        }
    }
}

impl Point2 {
    pub fn new(x: i32, y: i32) -> (r: Point2)
        ensures
            r == (Point2 { x, y }),
    {
        Point2 { x, y }
    }
}

impl Mat3Fx {
    /// The identity matrix.
    pub fn identity() -> (r: Mat3Fx)
        ensures
            r == mat3_id_spec(),
    {
        Mat3Fx {
            r0: Vec3Fx::new(FX_ONE, 0, 0),
            r1: Vec3Fx::new(0, FX_ONE, 0),
            r2: Vec3Fx::new(0, 0, FX_ONE),
        }
    }

    /// A pure rotation about the vertical axis from the angle's sine and
    /// cosine.
    pub fn from_yaw(s: i64, c: i64) -> (r: Mat3Fx)
        ensures
            r == yaw_matrix_spec(s as int, c as int),
    {
        Mat3Fx {
            r0: Vec3Fx::new(c, 0, s),
            r1: Vec3Fx::new(0, FX_ONE, 0),
            r2: Vec3Fx::new(fx_sub(0, s), 0, c),
        }
    }

    /// Matrix application: one dot product per row.
    pub fn apply(self, v: Vec3Fx) -> (r: Vec3Fx)
        ensures
            r == mat3_vec_spec(self, v),
    {
        Vec3Fx { x: self.r0.dot(v), y: self.r1.dot(v), z: self.r2.dot(v) }
    }
}

/// A fixed-point square is never negative.
pub proof fn lemma_fx_square_nonneg(c: int)
    ensures
        fx_mul_spec(c, c) >= 0,
{
    assert(sabs(c) * sabs(c) / (FX_ONE as int) >= 0) by (nonlinear_arith);
    assert(!mul_div_neg(c, c, FX_ONE as int));
    assert(mul_div_val(c, c, FX_ONE as int) >= 0);
}

/// The dot product of a vector with itself is never negative.
pub proof fn lemma_v3_dot_self_nonneg(a: Vec3Fx)
    ensures
        v3_dot_spec(a, a) >= 0,
{
    lemma_fx_square_nonneg(a.x as int);
    lemma_fx_square_nonneg(a.y as int);
    lemma_fx_square_nonneg(a.z as int);
}

} // verus!
