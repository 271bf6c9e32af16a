use rusterizer::fixed::FX_ONE;
use rusterizer::painter::{LinePainter, PointPainter, PolygonFiller, PolygonPainter};
use rusterizer::pixels::PixelBuffer;
use rusterizer::primitives::{Pixel, Triangle2D};
use rusterizer::shaders::{PixelShader, PixelShaderImpl};
use rusterizer::vectors::{Point2, Vec3Fx};

fn px(buf: &[u8], width: u32, x: u32, y: u32) -> [u8; 4] {
    let off = ((y * width + x) * 4) as usize;
    [buf[off], buf[off + 1], buf[off + 2], buf[off + 3]]
}

#[test]
fn memset_fills_every_byte() {
    let mut pb = PixelBuffer::new(2, vec![1u8, 2, 3, 4, 5, 6]);
    pb.memset(7);
    assert_eq!(pb.buf, vec![7u8; 6]);
}

#[test]
fn draw_point_writes_bgra() {
    // channels are scaled by 255, clamped, rounded to nearest; byte order is
    // blue, green, red, alpha
    let mut pb = PixelBuffer::new(2, vec![0u8; 16]);
    let color = Vec3Fx::new(FX_ONE / 2, FX_ONE / 4, 3 * FX_ONE / 2);
    pb.draw_point(1,0, &color);
    assert_eq!(px(&pb.buf, 2, 1, 0), [255, 64, 128, 255]);
    assert_eq!(px(&pb.buf, 2, 0, 0), [0, 0, 0, 0]);
}

#[test]
fn draw_point_out_of_bounds_is_dropped() {
    let mut pb = PixelBuffer::new(2, vec![0u8; 16]);
    pb.draw_point(5, 5, &Vec3Fx::new(FX_ONE, FX_ONE, FX_ONE));
    assert_eq!(pb.buf, vec![0u8; 16]);
}

#[test]
fn draw_line_covers_dominant_axis() {
    let mut pb = PixelBuffer::new(4, vec![0u8; 64]);
    let white = Vec3Fx::new(FX_ONE, FX_ONE, FX_ONE);
    pb.draw_line(&Point2::new(0, 0), &Point2::new(2, 2), &white);
    for i in 0..3u32 {
        assert_eq!(px(&pb.buf, 4, i, i), [255, 255, 255, 255]);
    }
    assert_eq!(px(&pb.buf, 4, 2, 0), [0, 0, 0, 0]);
}

#[test]
fn draw_line_skips_negative_coordinates() {
    let mut pb = PixelBuffer::new(4, vec![0u8; 64]);
    let white = Vec3Fx::new(FX_ONE, FX_ONE, FX_ONE);
    pb.draw_line(&Point2::new(-2, 0), &Point2::new(1, 0), &white);
    assert_eq!(px(&pb.buf, 4, 0, 0), [255, 255, 255, 255]);
    assert_eq!(px(&pb.buf, 4, 1, 0), [255, 255, 255, 255]);
}

#[test]
fn draw_polygon_outlines_in_white() {
    let mut pb = PixelBuffer::new(4, vec![0u8; 64]);
    let square = [
        Point2::new(0, 0),
        Point2::new(3, 0),
        Point2::new(3, 3),
        Point2::new(0, 3),
    ];
    pb.draw_polygon(&square);
    for i in 0..4u32 {
        assert_eq!(px(&pb.buf, 4, i, 0), [255, 255, 255, 255]);
        assert_eq!(px(&pb.buf, 4, i, 3), [255, 255, 255, 255]);
        assert_eq!(px(&pb.buf, 4, 0, i), [255, 255, 255, 255]);
        assert_eq!(px(&pb.buf, 4, 3, i), [255, 255, 255, 255]);
    }
    assert_eq!(px(&pb.buf, 4, 1, 1), [0, 0, 0, 0]);
    assert_eq!(px(&pb.buf, 4, 2, 2), [0, 0, 0, 0]);
}

#[test]
fn draw_polygon_empty_does_nothing() {
    let mut pb = PixelBuffer::new(4, vec![0u8; 64]);
    let no_points: [Point2; 0] = [];
    pb.draw_polygon(&no_points);
    assert_eq!(pb.buf, vec![0u8; 64]);
}

#[test]
fn depth_test_strictly_greater_wins() {
    // once a sample has won at a coordinate, later samples with equal or
    // smaller inverse depth change nothing; a larger one always overwrites
    let pb = PixelBuffer::new(4, vec![0u8; 64]);
    let mut ps = PixelShaderImpl::from_point_painter(pb, 4, 4);
    let white = Vec3Fx::new(FX_ONE, FX_ONE, FX_ONE);
    let red = Vec3Fx::new(FX_ONE, 0, 0);
    let blue = Vec3Fx::new(0, 0, FX_ONE);

    ps.pixel_shader(Pixel::new(Point2::new(1, 1), 100, white));
    assert_eq!(ps.z_buf[5], 100);
    assert_eq!(px(&ps.point_painter.buf, 4, 1, 1), [255, 255, 255, 255]);

    // a tie does not overwrite: first drawn at equal depth wins
    ps.pixel_shader(Pixel::new(Point2::new(1, 1), 100, red));
    assert_eq!(ps.z_buf[5], 100);
    assert_eq!(px(&ps.point_painter.buf, 4, 1, 1), [255, 255, 255, 255]);

    // a smaller inverse depth (farther) does not overwrite
    ps.pixel_shader(Pixel::new(Point2::new(1, 1), 50, red));
    assert_eq!(ps.z_buf[5], 100);
    assert_eq!(px(&ps.point_painter.buf, 4, 1, 1), [255, 255, 255, 255]);

    // a larger inverse depth (nearer) always overwrites
    ps.pixel_shader(Pixel::new(Point2::new(1, 1), 200, blue));
    assert_eq!(ps.z_buf[5], 200);
    assert_eq!(px(&ps.point_painter.buf, 4, 1, 1), [255, 0, 0, 255]);
}

#[test]
fn pixel_shader_drops_out_of_range_index() {
    let pb = PixelBuffer::new(4, vec![0u8; 64]);
    let mut ps = PixelShaderImpl::from_point_painter(pb, 4, 4);
    let white = Vec3Fx::new(FX_ONE, FX_ONE, FX_ONE);
    ps.pixel_shader(Pixel::new(Point2::new(0, 100), 100, white));
    assert_eq!(ps.point_painter.buf, vec![0u8; 64]);
    assert!(ps.z_buf.iter().all(|&z| z == 0));
}

#[test]
fn fill_polygon_collinear_vertices_stay_on_the_line() {
    // a degenerate triangle whose projected vertices are collinear must not
    // panic, and every written pixel lies on the segment itself
    let pb = PixelBuffer::new(64, vec![0u8; 64 * 64 * 4]);
    let mut ps = PixelShaderImpl::from_point_painter(pb, 64, 64);
    let white = Vec3Fx::new(FX_ONE, FX_ONE, FX_ONE);
    let t = Triangle2D {
        v0: Pixel::new(Point2::new(10, 10), 1000, white),
        v1: Pixel::new(Point2::new(20, 20), 1000, white),
        v2: Pixel::new(Point2::new(30, 30), 1000, white),
    };
    ps.fill_polygon(&t);
    let buf = &ps.point_painter.buf;
    for y in 0..64u32 {
        for x in 0..64u32 {
            let p = px(buf, 64, x, y);
            if p != [0, 0, 0, 0] {
                assert_eq!(x, y, "off-line pixel written at ({}, {})", x, y);
                assert!((10..=30).contains(&x));
            }
        }
    }
    // the segment itself is drawn
    assert_eq!(px(buf, 64, 10, 10), [255, 255, 255, 255]);
    assert_eq!(px(buf, 64, 30, 30), [255, 255, 255, 255]);
}

#[test]
fn fill_polygon_single_point_does_not_panic() {
    let pb = PixelBuffer::new(8, vec![0u8; 8 * 8 * 4]);
    let mut ps = PixelShaderImpl::from_point_painter(pb, 8, 8);
    let white = Vec3Fx::new(FX_ONE, FX_ONE, FX_ONE);
    let p = Pixel::new(Point2::new(3, 3), 100, white);
    let t = Triangle2D { v0: p, v1: p, v2: p };
    ps.fill_polygon(&t);
    assert_eq!(px(&ps.point_painter.buf, 8, 3, 3), [255, 255, 255, 255]);
    assert_eq!(px(&ps.point_painter.buf, 8, 2, 3), [0, 0, 0, 0]);
}
