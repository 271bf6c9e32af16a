//! The interpolation engine: a generic lazy linear interpolator over any
//! additive, scalar-divisible value, and its instances for vectors, screen
//! points and shaded samples.

use vstd::prelude::*;
use crate::fixed::{
    clip_i32, iter_add_spec, round_spec, sabs, step_spec, sub_spec, tdiv_spec, fx_round_i32,
    fx_step, lemma_iter_add_exact, lemma_step_walk, FX_ONE,
};
use crate::vectors::{v2_add_spec, v3_add_spec, Point2, Vec2Fx, Vec3Fx};
use crate::primitives::Pixel;

verus! {

/// A value the interpolation engine can walk: it has a saturating vector
/// addition and a step toward another value, the difference divided by a
/// sample count.
pub trait Lerp: Sized + Copy {
    /// Saturating vector addition.
    spec fn ladd(self, o: Self) -> Self;

    /// The step from `self` toward `o` in `m` moves: the saturating
    /// difference divided (truncated) by `m`, per component.
    spec fn lstep(self, o: Self, m: int) -> Self;

    fn add_step(self, o: Self) -> (r: Self)
        ensures
            r == self.ladd(o),
    ;

    fn step_toward(self, o: Self, m: u64) -> (r: Self)
        requires
            m >= 1,
        ensures
            r == self.lstep(o, m as int),
    ;
}

impl Lerp for Vec2Fx {
    open spec fn ladd(self, o: Vec2Fx) -> Vec2Fx {
        v2_add_spec(self, o)
    }

    open spec fn lstep(self, o: Vec2Fx, m: int) -> Vec2Fx {
        Vec2Fx {
            x: step_spec(self.x as int, o.x as int, m) as i64,
            y: step_spec(self.y as int, o.y as int, m) as i64,
        }
    }

    fn add_step(self, o: Vec2Fx) -> (r: Vec2Fx) {
        self.plus(o)
    }

    fn step_toward(self, o: Vec2Fx, m: u64) -> (r: Vec2Fx) {
        Vec2Fx { x: fx_step(self.x, o.x, m), y: fx_step(self.y, o.y, m) }
    }
}

impl Lerp for Vec3Fx {
    open spec fn ladd(self, o: Vec3Fx) -> Vec3Fx {
        v3_add_spec(self, o)
    }

    open spec fn lstep(self, o: Vec3Fx, m: int) -> Vec3Fx {
        Vec3Fx {
            x: step_spec(self.x as int, o.x as int, m) as i64,
            y: step_spec(self.y as int, o.y as int, m) as i64,
            z: step_spec(self.z as int, o.z as int, m) as i64,
        }
    }

    fn add_step(self, o: Vec3Fx) -> (r: Vec3Fx) {
        self.plus(o)
    }

    fn step_toward(self, o: Vec3Fx, m: u64) -> (r: Vec3Fx) {
        Vec3Fx {
            x: fx_step(self.x, o.x, m),
            y: fx_step(self.y, o.y, m),
            z: fx_step(self.z, o.z, m),
        }
    }
}

/// The divisor for a requested sample count: one less than the count, and
/// never less than one. A single-sample request divides by one so the
/// degenerate span yields its start value.
pub open spec fn span_div(n: int) -> int {
    if n > 1 {
        n - 1
    } else {
        1
    }
}

/// A lazy, finite, non-restartable linear sequence: a running cursor, a
/// precomputed step, and the number of values still owed.
pub struct LinePoints<T> {
    pub cursor: T,
    pub step: T,
    pub rounds: usize,
}

impl<T: Lerp> LinePoints<T> {
    /// The start value advanced `i` times by the step.
    pub open spec fn nth(a: T, s: T, i: int) -> T
        decreases i,
    {
        if i <= 0 {
            a
        } else {
            Self::nth(a, s, i - 1).ladd(s)
        }
    }

    /// Every value this sequence will yield, in order.
    pub open spec fn to_seq(self) -> Seq<T> {
        Seq::new(self.rounds as nat, |i: int| Self::nth(self.cursor, self.step, i))
    }

    /// The next value owed, if any.
    pub open spec fn head(self) -> Option<T> {
        if self.rounds > 0 {
            Some(self.cursor)
        } else {
            None
        }
    }

    /// The state after one yield: the cursor advanced by the step, one fewer
    /// value owed.
    pub open spec fn advanced(self) -> LinePoints<T> {
        if self.rounds > 0 {
            LinePoints { cursor: self.cursor.ladd(self.step), step: self.step, rounds: (self.rounds - 1) as usize }
        } else {
            self
        }
    }

    /// Yields the cursor and advances it by the step; `None` once the
    /// requested count is exhausted.
    pub fn next(&mut self) -> (r: Option<T>)
        ensures
            r == old(self).head(),
            *final(self) == old(self).advanced(),
    {
        if self.rounds == 0 {
            return None;
        }
        let cursor = self.cursor;
        self.cursor = self.cursor.add_step(self.step);
        self.rounds = self.rounds - 1;
        Some(cursor)
    }
}

/// A value that can open a lazy linear sequence of `result_size` samples
/// from itself to another value.
pub trait Interpolate: Sized {
    type Output;

    /// The generator that `interpolate` returns.
    spec fn interp_spec(self, rhs: Self, result_size: usize) -> Self::Output;

    fn interpolate(&self, rhs: &Self, result_size: usize) -> (r: Self::Output)
        ensures
            r == self.interp_spec(*rhs, result_size),
    ;
}

impl Interpolate for Vec2Fx {
    type Output = LinePoints<Vec2Fx>;

    open spec fn interp_spec(self, rhs: Vec2Fx, result_size: usize) -> LinePoints<Vec2Fx> {
        LinePoints {
            cursor: self,
            step: self.lstep(rhs, span_div(result_size as int)),
            rounds: result_size,
        }
    }

    fn interpolate(&self, rhs: &Vec2Fx, result_size: usize) -> (r: LinePoints<Vec2Fx>) {
        let m: usize = if result_size > 1 {
            result_size - 1
        } else {
            1
        };
        LinePoints { cursor: *self, step: self.step_toward(*rhs, m as u64), rounds: result_size }
    }
}

impl Interpolate for Vec3Fx {
    type Output = LinePoints<Vec3Fx>;

    open spec fn interp_spec(self, rhs: Vec3Fx, result_size: usize) -> LinePoints<Vec3Fx> {
        LinePoints {
            cursor: self,
            step: self.lstep(rhs, span_div(result_size as int)),
            rounds: result_size,
        }
    }

    fn interpolate(&self, rhs: &Vec3Fx, result_size: usize) -> (r: LinePoints<Vec3Fx>) {
        let m: usize = if result_size > 1 {
            result_size - 1
        } else {
            1
        };
        LinePoints { cursor: *self, step: self.step_toward(*rhs, m as u64), rounds: result_size }
    }
}

/// An integer screen point as a fixed-point vector.
pub open spec fn pt_fx_spec(p: Point2) -> Vec2Fx {
    Vec2Fx { x: (p.x as int * FX_ONE as int) as i64, y: (p.y as int * FX_ONE as int) as i64 }
}

/// An integer screen point as a fixed-point vector.
pub fn pt_to_fx(p: Point2) -> (r: Vec2Fx)
    ensures
        r == pt_fx_spec(p),
{
    Vec2Fx { x: p.x as i64 * FX_ONE, y: p.y as i64 * FX_ONE }
}

/// A fixed-point position rounded to the nearest integer screen point,
/// saturated at the `i32` range.
pub open spec fn round_pt_spec(v: Vec2Fx) -> Point2 {
    Point2 {
        x: clip_i32(round_spec(v.x as int)) as i32,
        y: clip_i32(round_spec(v.y as int)) as i32,
    }
}

/// A fixed-point sequence whose samples are rounded to integer screen points
/// as they are consumed.
pub struct RoundedPoints {
    pub inner: LinePoints<Vec2Fx>,
}

impl RoundedPoints {
    /// Yields the inner sample rounded to the nearest screen point.
    pub fn next(&mut self) -> (r: Option<Point2>)
        ensures
            r == (match old(self).inner.head() {
                Some(v) => Some(round_pt_spec(v)),
                None => None::<Point2>,
            }),
            final(self).inner == old(self).inner.advanced(),
    {
        match self.inner.next() {
            None => None,
            Some(v) => Some(Point2 { x: fx_round_i32(v.x), y: fx_round_i32(v.y) }),
        }
    }
}

impl Interpolate for Point2 {
    type Output = RoundedPoints;

    open spec fn interp_spec(self, rhs: Point2, result_size: usize) -> RoundedPoints {
        RoundedPoints { inner: pt_fx_spec(self).interp_spec(pt_fx_spec(rhs), result_size) }
    }

    fn interpolate(&self, rhs: &Point2, result_size: usize) -> (r: RoundedPoints) {
        RoundedPoints { inner: pt_to_fx(*self).interpolate(&pt_to_fx(*rhs), result_size) }
    }
}

/// A position-and-depth sample zipped with an illumination sample into one
/// shaded screen sample.
pub open spec fn pixel_of_spec(v: Vec3Fx, illu: Vec3Fx) -> Pixel {
    Pixel {
        point: Point2 {
            x: clip_i32(round_spec(v.x as int)) as i32,
            y: clip_i32(round_spec(v.y as int)) as i32,
        },
        z_recip: v.z,
        illumination: illu,
    }
}

/// Two fixed-point sequences run in lockstep: screen position and inverse
/// depth in one, illumination in the other, zipped into shaded samples.
pub struct InterPixels {
    pub pos_and_z_iter: LinePoints<Vec3Fx>,
    pub illu_iter: LinePoints<Vec3Fx>,
}

impl InterPixels {
    /// The next sample owed, if both sub-sequences still owe one.
    pub open spec fn head(self) -> Option<Pixel> {
        match (self.pos_and_z_iter.head(), self.illu_iter.head()) {
            (Some(v), Some(c)) => Some(pixel_of_spec(v, c)),
            _ => None,
        }
    }

    /// Advances both sub-sequences and zips one sample from each; ends as
    /// soon as either sub-sequence is exhausted.
    pub fn next(&mut self) -> (r: Option<Pixel>)
        ensures
            r == old(self).head(),
            final(self).pos_and_z_iter == old(self).pos_and_z_iter.advanced(),
            final(self).illu_iter == old(self).illu_iter.advanced(),
    {
        let pos = self.pos_and_z_iter.next();
        let illu = self.illu_iter.next();
        match (pos, illu) {
            (Some(v), Some(c)) => Some(
                Pixel {
                    point: Point2 { x: fx_round_i32(v.x), y: fx_round_i32(v.y) },
                    z_recip: v.z,
                    illumination: c,
                },
            ),
            _ => None,
        }
    }
}

impl Interpolate for Pixel {
    type Output = InterPixels;

    open spec fn interp_spec(self, rhs: Pixel, result_size: usize) -> InterPixels {
        InterPixels {
            pos_and_z_iter: self.xyz_spec().interp_spec(rhs.xyz_spec(), result_size),
            illu_iter: self.illumination.interp_spec(rhs.illumination, result_size),
        }
    }

    fn interpolate(&self, rhs: &Pixel, result_size: usize) -> (r: InterPixels) {
        InterPixels {
            pos_and_z_iter: self.xyz_as_vec3().interpolate(&rhs.xyz_as_vec3(), result_size),
            illu_iter: self.illumination.interpolate(&rhs.illumination, result_size),
        }
    }
}

/// Advancing the start by one step shifts the whole cursor walk by one.
pub proof fn lemma_nth_shift<T: Lerp>(a: T, s: T, i: int)
    requires
        0 <= i,
    ensures
        LinePoints::<T>::nth(a.ladd(s), s, i) == LinePoints::<T>::nth(a, s, i + 1),
    decreases i,
{
    if i > 0 {
        lemma_nth_shift::<T>(a, s, i - 1);
    } else {
        assert(LinePoints::<T>::nth(a, s, 0) == a);
        assert(LinePoints::<T>::nth(a.ladd(s), s, 0) == a.ladd(s));
        assert(LinePoints::<T>::nth(a, s, 1) == LinePoints::<T>::nth(a, s, 0).ladd(s));
    }
}

/// After one yield, a sequence owes exactly the tail of what it owed before.
pub proof fn lemma_advanced_to_seq<T: Lerp>(lp: LinePoints<T>)
    requires
        lp.rounds > 0,
    ensures
        lp.advanced().to_seq() =~= lp.to_seq().drop_first(),
{
    assert forall|j: int| 0 <= j < lp.advanced().to_seq().len() implies lp.advanced().to_seq()[j]
        == lp.to_seq().drop_first()[j] by {
        lemma_nth_shift::<T>(lp.cursor, lp.step, j);
    }
}

impl RoundedPoints {
    /// Every screen point this sequence will yield, in order.
    pub open spec fn to_seq(self) -> Seq<Point2> {
        self.inner.to_seq().map_values(|v: Vec2Fx| round_pt_spec(v))
    }
}

/// After one yield, a rounded sequence owes exactly the tail of what it owed
/// before.
pub proof fn lemma_rounded_advanced_to_seq(rp: RoundedPoints)
    requires
        rp.inner.rounds > 0,
    ensures
        (RoundedPoints { inner: rp.inner.advanced() }).to_seq() =~= rp.to_seq().drop_first(),
{
    lemma_advanced_to_seq::<Vec2Fx>(rp.inner);
    assert(rp.inner.advanced().to_seq() == rp.inner.to_seq().drop_first());
}

impl InterPixels {
    /// Every shaded sample this sequence will yield: the zip of the two
    /// sub-sequences, ending when either ends.
    pub open spec fn to_seq(self) -> Seq<Pixel> {
        let n = if self.pos_and_z_iter.rounds <= self.illu_iter.rounds {
            self.pos_and_z_iter.rounds
        } else {
            self.illu_iter.rounds
        };
        Seq::new(
            n as nat,
            |i: int|
                pixel_of_spec(
                    LinePoints::<Vec3Fx>::nth(self.pos_and_z_iter.cursor, self.pos_and_z_iter.step, i),
                    LinePoints::<Vec3Fx>::nth(self.illu_iter.cursor, self.illu_iter.step, i),
                ),
        )
    }
}

/// After one yield, a zipped sample sequence owes exactly the tail of what it
/// owed before.
pub proof fn lemma_pixels_advanced_to_seq(ip: InterPixels)
    requires
        ip.pos_and_z_iter.rounds > 0,
        ip.illu_iter.rounds > 0,
    ensures
        (InterPixels {
            pos_and_z_iter: ip.pos_and_z_iter.advanced(),
            illu_iter: ip.illu_iter.advanced(),
        }).to_seq() =~= ip.to_seq().drop_first(),
{
    let adv = InterPixels {
        pos_and_z_iter: ip.pos_and_z_iter.advanced(),
        illu_iter: ip.illu_iter.advanced(),
    };
    assert forall|j: int| 0 <= j < adv.to_seq().len() implies adv.to_seq()[j]
        == ip.to_seq().drop_first()[j] by {
        lemma_nth_shift::<Vec3Fx>(ip.pos_and_z_iter.cursor, ip.pos_and_z_iter.step, j);
        lemma_nth_shift::<Vec3Fx>(ip.illu_iter.cursor, ip.illu_iter.step, j);
    }
}

/// The cursor walk decomposes per component into a scalar walk.
pub proof fn lemma_v3_nth_components(a: Vec3Fx, s: Vec3Fx, i: int)
    requires
        0 <= i,
    ensures
        LinePoints::<Vec3Fx>::nth(a, s, i).x as int == iter_add_spec(a.x as int, s.x as int, i),
        LinePoints::<Vec3Fx>::nth(a, s, i).y as int == iter_add_spec(a.y as int, s.y as int, i),
        LinePoints::<Vec3Fx>::nth(a, s, i).z as int == iter_add_spec(a.z as int, s.z as int, i),
    decreases i,
{
    if i > 0 {
        lemma_v3_nth_components(a, s, i - 1);
    }
}

/// Walking `i <= m` truncated steps from `a` toward `b` gives exactly
/// `a + i * step`, and the full `m` steps land within `m` units of `b`.
pub proof fn lemma_lerp_scalar(a: int, b: int, m: int, i: int)
    requires
        1 <= m,
        0 <= i <= m,
        sabs(a) <= 0x2000000000000000,
        sabs(b) <= 0x2000000000000000,
    ensures
        iter_add_spec(a, step_spec(a, b, m), i) == a + i * tdiv_spec(b - a, m),
        i == m ==> sabs(iter_add_spec(a, step_spec(a, b, m), m) - b) < m,
{
    let d = b - a;
    assert(sub_spec(b, a) == d);
    let s = tdiv_spec(d, m);
    assert forall|j: int| 0 <= j <= i implies i64::MIN <= a + #[trigger] (j * s) <= i64::MAX by {
        lemma_step_walk(d, m, j);
    }
    lemma_iter_add_exact(a, s, i);
    if i == m {
        lemma_step_walk(d, m, m);
    }
}

/// Interpolation count law: a sequence opened for `n` samples yields exactly
/// `n` values, never more and never fewer.
pub proof fn lemma_interpolate_count(a: Vec3Fx, b: Vec3Fx, n: usize)
    ensures
        a.interp_spec(b, n).to_seq().len() == n,
{
}

/// Interpolation endpoint law: the first sample equals the start value; for
/// `n >= 2` every component of the last sample is within `n - 1` fixed-point
/// units (under one 65536th of a pixel each) of the end value; for `n == 1`
/// the sole sample is the start value.
pub proof fn lemma_interpolate_endpoints(a: Vec3Fx, b: Vec3Fx, n: usize)
    requires
        1 <= n,
        sabs(a.x as int) <= 0x2000000000000000,
        sabs(a.y as int) <= 0x2000000000000000,
        sabs(a.z as int) <= 0x2000000000000000,
        sabs(b.x as int) <= 0x2000000000000000,
        sabs(b.y as int) <= 0x2000000000000000,
        sabs(b.z as int) <= 0x2000000000000000,
    ensures
        a.interp_spec(b, n).to_seq()[0] == a,
        n == 1 ==> a.interp_spec(b, n).to_seq() =~= seq![a],
        n >= 2 ==> sabs(a.interp_spec(b, n).to_seq()[n - 1].x as int - b.x as int) < n - 1,
        n >= 2 ==> sabs(a.interp_spec(b, n).to_seq()[n - 1].y as int - b.y as int) < n - 1,
        n >= 2 ==> sabs(a.interp_spec(b, n).to_seq()[n - 1].z as int - b.z as int) < n - 1,
{
    let lp = a.interp_spec(b, n);
    assert(lp.to_seq()[0] == LinePoints::<Vec3Fx>::nth(a, lp.step, 0));
    if n >= 2 {
        let m = n - 1;
        lemma_v3_nth_components(a, lp.step, m as int);
        lemma_lerp_scalar(a.x as int, b.x as int, m as int, m as int);
        lemma_lerp_scalar(a.y as int, b.y as int, m as int, m as int);
        lemma_lerp_scalar(a.z as int, b.z as int, m as int, m as int);
    }
}

/// The first sample of a shaded-sample interpolation is the start sample
/// itself, whatever the requested count: rounding an exact pixel coordinate
/// loses nothing.
pub proof fn lemma_pixel_interp_first(a: Pixel, b: Pixel, n: usize)
    requires
        n >= 1,
    ensures
        a.interp_spec(b, n).to_seq()[0] == a,
{
    crate::fixed::lemma_round_exact(a.point.x as int);
    crate::fixed::lemma_round_exact(a.point.y as int);
    let ip = a.interp_spec(b, n);
    assert(LinePoints::<Vec3Fx>::nth(ip.pos_and_z_iter.cursor, ip.pos_and_z_iter.step, 0)
        == a.xyz_spec());
    assert(LinePoints::<Vec3Fx>::nth(ip.illu_iter.cursor, ip.illu_iter.step, 0)
        == a.illumination);
}

/// A sample count saturated into the `usize` range.
pub open spec fn count_clip(c: int) -> int {
    if c > usize::MAX as int {
        usize::MAX as int
    } else {
        c
    }
}

/// A sample count saturated into the `usize` range.
pub fn count_to_usize(c: u64) -> (n: usize)
    ensures
        n as int == count_clip(c as int),
{
    if c > usize::MAX as u64 {
        usize::MAX
    } else {
        c as usize
    }
}

} // verus!
