//! Painting primitives over a color buffer: point writes, interpolated line
//! strokes, and polygon outlines.

use vstd::prelude::*;
use crate::fixed::{sabs, FX_ONE};
use crate::vectors::{Point2, Vec3Fx};
use crate::operations::{
    count_clip, count_to_usize, lemma_pixels_advanced_to_seq, lemma_rounded_advanced_to_seq,
    InterPixels, Interpolate, RoundedPoints,
};
use crate::pixels::{channel_byte_spec, channel_to_byte, PixelBuffer};
use crate::primitives::{Pixel, Vertices};
use crate::shaders::{ps_step_spec, PixelShader};

verus! {

/// One BGRA point write: the four bytes at offset `4 * (y * stride + x)`,
/// blue first and alpha fixed at 255; a write whose four bytes do not fit in
/// the buffer is silently dropped.
pub open spec fn draw_point_spec(cb: Seq<u8>, stride: int, x: int, y: int, c: Vec3Fx) -> Seq<u8> {
    let off = 4 * (y * stride + x);
    if 0 <= off && off + 4 <= cb.len() {
        cb.update(off, channel_byte_spec(c.z as int) as u8).update(
            off + 1,
            channel_byte_spec(c.y as int) as u8,
        ).update(off + 2, channel_byte_spec(c.x as int) as u8).update(off + 3, 255u8)
    } else {
        cb
    }
}

/// Anything that can write one colored point into a color buffer.
pub trait PointPainter {
    /// The bytes of the color buffer.
    spec fn colors(&self) -> Seq<u8>;

    /// The row stride, in pixels.
    spec fn stride(&self) -> int;

    fn draw_point(&mut self, x: u32, y: u32, color: &Vec3Fx)
        ensures
            final(self).colors() == draw_point_spec(
                old(self).colors(),
                old(self).stride(),
                x as int,
                y as int,
                *color,
            ),
            final(self).stride() == old(self).stride(),
    ;
}

impl PointPainter for PixelBuffer {
    open spec fn colors(&self) -> Seq<u8> {
        self.buf@
    }

    open spec fn stride(&self) -> int {
        self.width as int
    }

    fn draw_point(&mut self, x: u32, y: u32, color: &Vec3Fx) {
        proof {
            assert((y as int) * (self.width as int) <= 0xffffffffffffffffu64 as int)
                by (nonlinear_arith)
                requires
                    y <= u32::MAX,
                    self.width <= u32::MAX,
            ;
        }
        let off: u128 = 4u128 * ((y as u128) * (self.width as u128) + (x as u128));
        if off + 4 <= self.buf.len() as u128 {
            let o: usize = off as usize;
            let bb: u8 = channel_to_byte(color.z);
            let gb: u8 = channel_to_byte(color.y);
            let rb: u8 = channel_to_byte(color.x);
            *vstd::std_specs::vec::vec_index_mut(&mut self.buf, o) = bb;
            *vstd::std_specs::vec::vec_index_mut(&mut self.buf, o + 1) = gb;
            *vstd::std_specs::vec::vec_index_mut(&mut self.buf, o + 2) = rb;
            *vstd::std_specs::vec::vec_index_mut(&mut self.buf, o + 3) = 255;
        }
    }
}

/// The samples of a line stroke: one sample per unit of Chebyshev distance
/// between the endpoints, plus one, so no step along the dominant axis is
/// skipped.
pub open spec fn cheb_count_spec(a: Point2, b: Point2) -> int {
    count_clip(
        if sabs(a.x - b.x) >= sabs(a.y - b.y) {
            sabs(a.x - b.x) + 1
        } else {
            sabs(a.y - b.y) + 1
        },
    )
}

/// One sample per unit of Chebyshev distance between the endpoints, plus one.
pub fn cheb_count(a: &Point2, b: &Point2) -> (n: usize)
    ensures
        n as int == cheb_count_spec(*a, *b),
{
    let dx: i64 = a.x as i64 - b.x as i64;
    let dy: i64 = a.y as i64 - b.y as i64;
    let ax: u64 = if dx >= 0 {
        dx as u64
    } else {
        (-dx) as u64
    };
    let ay: u64 = if dy >= 0 {
        dy as u64
    } else {
        (-dy) as u64
    };
    let m: u64 = if ax >= ay {
        ax
    } else {
        ay
    };
    count_to_usize(m + 1)
}

/// The rounded screen points of a line stroke from `a` to `b`.
pub open spec fn line_samples_spec(a: Point2, b: Point2) -> Seq<Point2> {
    a.interp_spec(b, cheb_count_spec(a, b) as usize).to_seq()
}

/// Painting one sample: points with a negative coordinate are dropped.
pub open spec fn paint_one_spec(cb: Seq<u8>, stride: int, p: Point2, c: Vec3Fx) -> Seq<u8> {
    if p.x < 0 || p.y < 0 {
        cb
    } else {
        draw_point_spec(cb, stride, p.x as int, p.y as int, c)
    }
}

/// Painting a run of samples, first to last.
pub open spec fn paint_points_spec(cb: Seq<u8>, stride: int, pts: Seq<Point2>, c: Vec3Fx) -> Seq<u8>
    decreases pts.len(),
{
    if pts.len() == 0 {
        cb
    } else {
        paint_points_spec(paint_one_spec(cb, stride, pts[0], c), stride, pts.drop_first(), c)
    }
}

/// The effect of one interpolated line stroke.
pub open spec fn draw_line_spec(cb: Seq<u8>, stride: int, a: Point2, b: Point2, c: Vec3Fx) -> Seq<
    u8,
> {
    paint_points_spec(cb, stride, line_samples_spec(a, b), c)
}

/// Anything that can stroke an interpolated line of colored points.
pub trait LinePainter {
    /// The bytes of the color buffer.
    spec fn lp_colors(&self) -> Seq<u8>;

    /// The row stride, in pixels.
    spec fn lp_stride(&self) -> int;

    fn draw_line(&mut self, start: &Point2, end: &Point2, color: &Vec3Fx)
        ensures
            final(self).lp_colors() == draw_line_spec(
                old(self).lp_colors(),
                old(self).lp_stride(),
                *start,
                *end,
                *color,
            ),
            final(self).lp_stride() == old(self).lp_stride(),
    ;
}

impl<PP: PointPainter> LinePainter for PP {
    open spec fn lp_colors(&self) -> Seq<u8> {
        self.colors()
    }

    open spec fn lp_stride(&self) -> int {
        self.stride()
    }

    fn draw_line(&mut self, start: &Point2, end: &Point2, color: &Vec3Fx) {
        let pixels: usize = cheb_count(start, end);
        let mut it: RoundedPoints = start.interpolate(end, pixels);
        let ghost full: Seq<Point2> = line_samples_spec(*start, *end);
        let ghost cb0: Seq<u8> = self.colors();
        let ghost stride: int = self.stride();
        proof {
            assert(it.to_seq() =~= full);
        }
        loop
            invariant
                it.inner.rounds <= full.len(),
                it.to_seq() =~= full.skip(full.len() - it.inner.rounds),
                paint_points_spec(self.colors(), stride, it.to_seq(), *color)
                    == paint_points_spec(cb0, stride, full, *color),
                self.stride() == stride,
            ensures
                self.colors() == paint_points_spec(cb0, stride, full, *color),
                self.stride() == stride,
            decreases it.inner.rounds,
        {
            let ghost prev_it: RoundedPoints = it;
            let ghost prev_colors: Seq<u8> = self.colors();
            let po = it.next();
            match po {
                None => {
                    break ;
                },
                Some(p) => {
                    proof {
                        lemma_rounded_advanced_to_seq(prev_it);
                        assert(it == (RoundedPoints { inner: prev_it.inner.advanced() }));
                        assert(it.to_seq() =~= prev_it.to_seq().drop_first());
                        assert(prev_it.to_seq()[0] == p);
                        assert(it.to_seq() =~= full.skip(full.len() - it.inner.rounds));
                    }
                    if p.x >= 0 && p.y >= 0 {
                        self.draw_point(p.x as u32, p.y as u32, color);
                    }
                    proof {
                        assert(self.colors() == paint_one_spec(prev_colors, stride, p, *color));
                        assert(paint_points_spec(prev_colors, stride, prev_it.to_seq(), *color)
                            == paint_points_spec(self.colors(), stride, it.to_seq(), *color));
                    }
                },
            }
        }
    }
}

/// The edges of a vertex cycle painted in order, each from vertex `i` to
/// vertex `i + 1` (wrapping), in full white.
pub open spec fn draw_edges_spec(cb: Seq<u8>, stride: int, vs: Seq<Point2>, i: int) -> Seq<u8>
    decreases vs.len() - i,
{
    if i < 0 || i >= vs.len() {
        cb
    } else {
        draw_edges_spec(
            draw_line_spec(cb, stride, vs[i], vs[(i + 1) % (vs.len() as int)], white_spec()),
            stride,
            vs,
            i + 1,
        )
    }
}

/// Full white.
pub open spec fn white_spec() -> Vec3Fx {
    Vec3Fx { x: FX_ONE, y: FX_ONE, z: FX_ONE }
}

/// The effect of outlining a polygon: nothing for an empty vertex list, else
/// one white line stroke per edge of the cycle.
pub open spec fn draw_polygon_spec(cb: Seq<u8>, stride: int, vs: Seq<Point2>) -> Seq<u8> {
    draw_edges_spec(cb, stride, vs, 0)
}

/// Anything that can outline a polygon in white strokes.
pub trait PolygonPainter {
    /// The bytes of the color buffer.
    spec fn pp_colors(&self) -> Seq<u8>;

    /// The row stride, in pixels.
    spec fn pp_stride(&self) -> int;

    fn draw_polygon(&mut self, vertices: &[Point2])
        ensures
            final(self).pp_colors() == draw_polygon_spec(
                old(self).pp_colors(),
                old(self).pp_stride(),
                vertices@,
            ),
            final(self).pp_stride() == old(self).pp_stride(),
    ;
}

impl<LP: LinePainter> PolygonPainter for LP {
    open spec fn pp_colors(&self) -> Seq<u8> {
        self.lp_colors()
    }

    open spec fn pp_stride(&self) -> int {
        self.lp_stride()
    }

    fn draw_polygon(&mut self, vertices: &[Point2]) {
        let ghost cb0: Seq<u8> = self.lp_colors();
        let ghost stride: int = self.lp_stride();
        let len: usize = vertices.len();
        if len == 0 {
            return ;
        }
        let white = Vec3Fx::new(FX_ONE, FX_ONE, FX_ONE);
        let mut i: usize = 0;
        while i < len
            invariant
                0 < len == vertices@.len(),
                i <= len,
                white == white_spec(),
                draw_edges_spec(self.lp_colors(), stride, vertices@, i as int) == draw_edges_spec(
                    cb0,
                    stride,
                    vertices@,
                    0,
                ),
                self.lp_stride() == stride,
            decreases len - i,
        {
            let start: Point2 = vertices[i];
            let next_i: usize = if i + 1 == len {
                0
            } else {
                i + 1
            };
            let end: Point2 = vertices[next_i];
            proof {
                if i + 1 == len {
                    vstd::arithmetic::div_mod::lemma_mod_self_0(len as int);
                } else {
                    vstd::arithmetic::div_mod::lemma_small_mod((i + 1) as nat, len as nat);
                }
                assert(next_i as int == (i as int + 1) % (vertices@.len() as int));
            }
            self.draw_line(&start, &end, &white);
            i = i + 1;
        }
    }
}

/// The topmost scanline of a vertex cycle (the least y).
pub open spec fn y_min_spec(vs: Seq<Pixel>) -> int
    decreases vs.len(),
{
    if vs.len() <= 1 {
        vs[0].point.y as int
    } else {
        let m = y_min_spec(vs.drop_last());
        if vs.last().point.y < m {
            vs.last().point.y as int
        } else {
            m
        }
    }
}

/// The bottommost scanline of a vertex cycle (the greatest y).
pub open spec fn y_max_spec(vs: Seq<Pixel>) -> int
    decreases vs.len(),
{
    if vs.len() <= 1 {
        vs[0].point.y as int
    } else {
        let m = y_max_spec(vs.drop_last());
        if vs.last().point.y > m {
            vs.last().point.y as int
        } else {
            m
        }
    }
}

/// The initial left bounds: one per scanline, far right, zero depth, black.
pub open spec fn init_left_spec(y_min: int, rows: int) -> Seq<Pixel> {
    Seq::new(
        rows as nat,
        |i: int|
            Pixel {
                point: Point2 { x: i32::MAX, y: (y_min + i) as i32 },
                z_recip: 0,
                illumination: (Vec3Fx { x: 0, y: 0, z: 0 }),
            },
    )
}

/// The initial right bounds: one per scanline, far left, zero depth, black.
pub open spec fn init_right_spec(y_min: int, rows: int) -> Seq<Pixel> {
    Seq::new(
        rows as nat,
        |i: int|
            Pixel {
                point: Point2 { x: i32::MIN, y: (y_min + i) as i32 },
                z_recip: 0,
                illumination: (Vec3Fx { x: 0, y: 0, z: 0 }),
            },
    )
}

/// The shaded samples of one triangle edge: one per unit of Chebyshev
/// distance between the projected endpoints, plus one.
pub open spec fn edge_samples_spec(a: Pixel, b: Pixel) -> Seq<Pixel> {
    a.interp_spec(b, cheb_count_spec(a.point, b.point) as usize).to_seq()
}

/// One edge sample folded into the per-scanline bounds: on its own scanline
/// it replaces the left bound if strictly lefter and the right bound if
/// strictly righter; a sample off the scanline range is dropped.
pub open spec fn select_one_spec(left: Seq<Pixel>, right: Seq<Pixel>, y_min: int, p: Pixel) -> (
    Seq<Pixel>,
    Seq<Pixel>,
) {
    let i = p.point.y as int - y_min;
    if 0 <= i < left.len() && i < right.len() {
        let l2 = if left[i].point.x > p.point.x {
            left.update(i, p)
        } else {
            left
        };
        let r2 = if right[i].point.x < p.point.x {
            right.update(i, p)
        } else {
            right
        };
        (l2, r2)
    } else {
        (left, right)
    }
}

/// A run of edge samples folded into the bounds, first to last.
pub open spec fn select_points_spec(
    left: Seq<Pixel>,
    right: Seq<Pixel>,
    y_min: int,
    pts: Seq<Pixel>,
) -> (Seq<Pixel>, Seq<Pixel>)
    decreases pts.len(),
{
    if pts.len() == 0 {
        (left, right)
    } else {
        let s = select_one_spec(left, right, y_min, pts[0]);
        select_points_spec(s.0, s.1, y_min, pts.drop_first())
    }
}

/// The bounds after walking the edges of the cycle from edge `i` onward,
/// each edge running from vertex `i` to vertex `i + 1` (wrapping).
pub open spec fn select_edges_spec(
    left: Seq<Pixel>,
    right: Seq<Pixel>,
    y_min: int,
    vs: Seq<Pixel>,
    i: int,
) -> (Seq<Pixel>, Seq<Pixel>)
    decreases vs.len() - i,
{
    if i < 0 || i >= vs.len() {
        (left, right)
    } else {
        let s = select_points_spec(
            left,
            right,
            y_min,
            edge_samples_spec(vs[i], vs[(i + 1) % (vs.len() as int)]),
        );
        select_edges_spec(s.0, s.1, y_min, vs, i + 1)
    }
}

/// One scanline's fill samples: none where the scanline was never touched by
/// an edge (its left bound still lies right of its right bound); otherwise
/// one interpolated sample per column between the bounds, inclusive.
pub open spec fn span_samples_spec(l: Pixel, r: Pixel) -> Seq<Pixel> {
    if l.point.x <= r.point.x {
        l.interp_spec(r, count_clip(r.point.x - l.point.x + 1) as usize).to_seq()
    } else {
        Seq::empty()
    }
}

/// One fill sample shaded: samples with a negative coordinate are dropped,
/// the rest go through the depth test and buffer write.
pub open spec fn shade_one_spec(width: int, cstride: int, zb: Seq<i64>, cb: Seq<u8>, p: Pixel) -> (
    Seq<i64>,
    Seq<u8>,
) {
    if p.point.x < 0 || p.point.y < 0 {
        (zb, cb)
    } else {
        ps_step_spec(width, cstride, zb, cb, p)
    }
}

/// A run of fill samples shaded, first to last.
pub open spec fn shade_points_spec(
    width: int,
    cstride: int,
    zb: Seq<i64>,
    cb: Seq<u8>,
    pts: Seq<Pixel>,
) -> (Seq<i64>, Seq<u8>)
    decreases pts.len(),
{
    if pts.len() == 0 {
        (zb, cb)
    } else {
        let s = shade_one_spec(width, cstride, zb, cb, pts[0]);
        shade_points_spec(width, cstride, s.0, s.1, pts.drop_first())
    }
}

/// Every scanline from row `i` onward filled between its bounds.
pub open spec fn shade_rows_spec(
    width: int,
    cstride: int,
    zb: Seq<i64>,
    cb: Seq<u8>,
    left: Seq<Pixel>,
    right: Seq<Pixel>,
    i: int,
) -> (Seq<i64>, Seq<u8>)
    decreases left.len() - i,
{
    if i < 0 || i >= left.len() || left.len() != right.len() {
        (zb, cb)
    } else {
        let s = shade_points_spec(width, cstride, zb, cb, span_samples_spec(left[i], right[i]));
        shade_rows_spec(width, cstride, s.0, s.1, left, right, i + 1)
    }
}

/// The whole scan-line polygon fill: per-scanline bounds found by walking
/// the edges, then every scanline filled between its bounds, each sample
/// depth-tested and written.
pub open spec fn fill_polygon_spec(
    width: int,
    cstride: int,
    zb: Seq<i64>,
    cb: Seq<u8>,
    vs: Seq<Pixel>,
) -> (Seq<i64>, Seq<u8>) {
    let y_min = y_min_spec(vs);
    let rows = count_clip(y_max_spec(vs) - y_min + 1);
    let b = select_edges_spec(init_left_spec(y_min, rows), init_right_spec(y_min, rows), y_min, vs, 0);
    shade_rows_spec(width, cstride, zb, cb, b.0, b.1, 0)
}

/// Anything that can fill a polygon of shaded samples, scanline by scanline.
pub trait PolygonFiller {
    /// The per-pixel inverse-depth buffer.
    spec fn pf_zbuf(&self) -> Seq<i64>;

    /// The bytes of the color buffer.
    spec fn pf_colors(&self) -> Seq<u8>;

    /// The row stride of the depth index, in pixels.
    spec fn pf_width(&self) -> int;

    /// The row stride of the color buffer, in pixels.
    spec fn pf_cstride(&self) -> int;

    fn fill_polygon<V: Vertices<Vertex = Pixel>>(&mut self, polygon: &V)
        requires
            polygon.vertex_seq().len() >= 1,
        ensures
            final(self).pf_zbuf() == fill_polygon_spec(
                old(self).pf_width(),
                old(self).pf_cstride(),
                old(self).pf_zbuf(),
                old(self).pf_colors(),
                polygon.vertex_seq(),
            ).0,
            final(self).pf_colors() == fill_polygon_spec(
                old(self).pf_width(),
                old(self).pf_cstride(),
                old(self).pf_zbuf(),
                old(self).pf_colors(),
                polygon.vertex_seq(),
            ).1,
            final(self).pf_width() == old(self).pf_width(),
            final(self).pf_cstride() == old(self).pf_cstride(),
    ;
}

impl<PS: PixelShader> PolygonFiller for PS {
    open spec fn pf_zbuf(&self) -> Seq<i64> {
        self.ps_zbuf()
    }

    open spec fn pf_colors(&self) -> Seq<u8> {
        self.ps_colors()
    }

    open spec fn pf_width(&self) -> int {
        self.ps_width()
    }

    open spec fn pf_cstride(&self) -> int {
        self.ps_cstride()
    }

    fn fill_polygon<V: Vertices<Vertex = Pixel>>(&mut self, polygon: &V) {
        let vs: Vec<Pixel> = polygon.vertices();
        let ghost vsg: Seq<Pixel> = polygon.vertex_seq();
        let n: usize = vs.len();

        let mut y_min: i32 = vs[0].point.y;
        let mut y_max: i32 = vs[0].point.y;
        let mut k: usize = 1;
        proof {
            assert(vsg.take(1).len() == 1);
            assert(vsg.take(1)[0] == vsg[0]);
        }
        while k < n
            invariant
                1 <= k <= n == vsg.len(),
                vs@ == vsg,
                y_min as int == y_min_spec(vsg.take(k as int)),
                y_max as int == y_max_spec(vsg.take(k as int)),
            decreases n - k,
        {
            proof {
                assert(vsg.take(k as int + 1).drop_last() =~= vsg.take(k as int));
                assert(vsg.take(k as int + 1).last() == vsg[k as int]);
            }
            let y = vs[k].point.y;
            if y < y_min {
                y_min = y;
            }
            if y > y_max {
                y_max = y;
            }
            k = k + 1;
        }
        proof {
            assert(vsg.take(n as int) =~= vsg);
        }

        let ghost y_min_g: int = y_min as int;
        let rows: usize = count_to_usize((y_max as i64 - y_min as i64 + 1) as u64);

        let mut left: Vec<Pixel> = Vec::new();
        let mut right: Vec<Pixel> = Vec::new();
        let mut r: usize = 0;
        while r < rows
            invariant
                r <= rows,
                left@ =~= init_left_spec(y_min_g, rows as int).take(r as int),
                right@ =~= init_right_spec(y_min_g, rows as int).take(r as int),
                rows as int == count_clip(y_max_spec(vsg) - y_min_g + 1),
                y_min_g == y_min as int,
                y_min as int == y_min_spec(vsg),
                y_max as int == y_max_spec(vsg),
            decreases rows - r,
        {
            proof {
                assert(y_min as int + r as int <= y_max as int);
            }
            let y: i32 = ((y_min as i64) + (r as i64)) as i32;
            left.push(Pixel::new(Point2::new(i32::MAX, y), 0, Vec3Fx::zero()));
            right.push(Pixel::new(Point2::new(i32::MIN, y), 0, Vec3Fx::zero()));
            r = r + 1;
        }
        proof {
            assert(left@ =~= init_left_spec(y_min_g, rows as int));
            assert(right@ =~= init_right_spec(y_min_g, rows as int));
        }

        let ghost sel_goal: (Seq<Pixel>, Seq<Pixel>) = select_edges_spec(
            left@,
            right@,
            y_min_g,
            vsg,
            0,
        );

        let mut e: usize = 0;
        while e < n
            invariant
                e <= n == vsg.len(),
                1 <= n,
                vs@ == vsg,
                left@.len() == right@.len(),
                y_min_g == y_min as int,
                select_edges_spec(left@, right@, y_min_g, vsg, e as int) == sel_goal,
            decreases n - e,
        {
            let start: Pixel = vs[e];
            let next_e: usize = if e + 1 == n {
                0
            } else {
                e + 1
            };
            let end: Pixel = vs[next_e];
            proof {
                if e + 1 == n {
                    vstd::arithmetic::div_mod::lemma_mod_self_0(n as int);
                } else {
                    vstd::arithmetic::div_mod::lemma_small_mod((e + 1) as nat, n as nat);
                }
                assert(next_e as int == (e as int + 1) % (vsg.len() as int));
            }
            let cnt: usize = cheb_count(&start.point, &end.point);
            let mut it: InterPixels = start.interpolate(&end, cnt);
            let ghost full: Seq<Pixel> = edge_samples_spec(start, end);
            proof {
                assert(it.to_seq() =~= full);
            }
            loop
                invariant
                    it.pos_and_z_iter.rounds == it.illu_iter.rounds,
                    left@.len() == right@.len(),
                    y_min_g == y_min as int,
                    select_edges_spec(
                        select_points_spec(left@, right@, y_min_g, it.to_seq()).0,
                        select_points_spec(left@, right@, y_min_g, it.to_seq()).1,
                        y_min_g,
                        vsg,
                        e as int + 1,
                    ) == sel_goal,
                ensures
                    left@.len() == right@.len(),
                    select_edges_spec(left@, right@, y_min_g, vsg, e as int + 1) == sel_goal,
                decreases it.pos_and_z_iter.rounds,
            {
                let ghost prev_it: InterPixels = it;
                let ghost prev_left: Seq<Pixel> = left@;
                let ghost prev_right: Seq<Pixel> = right@;
                let po = it.next();
                match po {
                    None => {
                        break ;
                    },
                    Some(p) => {
                        proof {
                            lemma_pixels_advanced_to_seq(prev_it);
                            assert(it.to_seq() =~= prev_it.to_seq().drop_first());
                            assert(prev_it.to_seq()[0] == p);
                        }
                        let i64row: i64 = p.point.y as i64 - y_min as i64;
                        if 0 <= i64row && (i64row as u64) < left.len() as u64 {
                            let i: usize = i64row as usize;
                            if left[i].point.x > p.point.x {
                                *vstd::std_specs::vec::vec_index_mut(&mut left, i) = p;
                            }
                            if right[i].point.x < p.point.x {
                                *vstd::std_specs::vec::vec_index_mut(&mut right, i) = p;
                            }
                        }
                        proof {
                            assert((left@, right@) == select_one_spec(
                                prev_left,
                                prev_right,
                                y_min_g,
                                p,
                            ));
                            assert(select_points_spec(prev_left, prev_right, y_min_g, prev_it.to_seq())
                                == select_points_spec(left@, right@, y_min_g, it.to_seq()));
                        }
                    },
                }
            }
            e = e + 1;
        }
        proof {
            assert((left@, right@) == sel_goal);
        }

        let ghost zb0: Seq<i64> = self.ps_zbuf();
        let ghost cb0: Seq<u8> = self.ps_colors();
        let ghost width: int = self.ps_width();
        let ghost cstride: int = self.ps_cstride();
        let ghost shade_goal: (Seq<i64>, Seq<u8>) = shade_rows_spec(
            width,
            cstride,
            zb0,
            cb0,
            left@,
            right@,
            0,
        );

        let mut row: usize = 0;
        let nrows: usize = left.len();
        while row < nrows
            invariant
                row <= nrows,
                nrows == left@.len() == right@.len(),
                self.ps_width() == width,
                self.ps_cstride() == cstride,
                shade_rows_spec(
                    width,
                    cstride,
                    self.ps_zbuf(),
                    self.ps_colors(),
                    left@,
                    right@,
                    row as int,
                ) == shade_goal,
            decreases nrows - row,
        {
            let start: Pixel = left[row];
            let end: Pixel = right[row];
            if start.point.x <= end.point.x {
                let span: i64 = end.point.x as i64 - start.point.x as i64 + 1;
                let cnt: usize = count_to_usize(span as u64);
                let mut it: InterPixels = start.interpolate(&end, cnt);
                let ghost full: Seq<Pixel> = span_samples_spec(start, end);
                proof {
                    assert(it.to_seq() =~= full);
                }
                let ghost zb_r: Seq<i64> = self.ps_zbuf();
                let ghost cb_r: Seq<u8> = self.ps_colors();
                let ghost row_goal: (Seq<i64>, Seq<u8>) = shade_points_spec(
                    width,
                    cstride,
                    zb_r,
                    cb_r,
                    full,
                );
                loop
                    invariant
                        self.ps_width() == width,
                        self.ps_cstride() == cstride,
                        shade_points_spec(
                            width,
                            cstride,
                            self.ps_zbuf(),
                            self.ps_colors(),
                            it.to_seq(),
                        ) == row_goal,
                    ensures
                        self.ps_width() == width,
                        self.ps_cstride() == cstride,
                        (self.ps_zbuf(), self.ps_colors()) == row_goal,
                    decreases it.pos_and_z_iter.rounds,
                {
                    let ghost prev_it: InterPixels = it;
                    let ghost prev_zb: Seq<i64> = self.ps_zbuf();
                    let ghost prev_cb: Seq<u8> = self.ps_colors();
                    let po = it.next();
                    match po {
                        None => {
                            proof {
                                assert(it.to_seq() =~= Seq::<Pixel>::empty());
                            }
                            break ;
                        },
                        Some(p) => {
                            proof {
                                lemma_pixels_advanced_to_seq(prev_it);
                                assert(it.to_seq() =~= prev_it.to_seq().drop_first());
                                assert(prev_it.to_seq()[0] == p);
                            }
                            if p.point.x >= 0 && p.point.y >= 0 {
                                self.pixel_shader(p);
                            }
                            proof {
                                assert((self.ps_zbuf(), self.ps_colors()) == shade_one_spec(
                                    width,
                                    cstride,
                                    prev_zb,
                                    prev_cb,
                                    p,
                                ));
                                assert(shade_points_spec(width, cstride, prev_zb, prev_cb, prev_it.to_seq())
                                    == shade_points_spec(
                                    width,
                                    cstride,
                                    self.ps_zbuf(),
                                    self.ps_colors(),
                                    it.to_seq(),
                                ));
                            }
                        },
                    }
                }
            }
            row = row + 1;
        }
    }
}

} // verus!
