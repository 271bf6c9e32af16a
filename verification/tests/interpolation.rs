use rusterizer::fixed::FX_ONE;
use rusterizer::operations::Interpolate;
use rusterizer::primitives::Pixel;
use rusterizer::vectors::{Point2, Vec3Fx};

fn collect_points(a: Point2, b: Point2, n: usize) -> Vec<Point2> {
    let mut it = a.interpolate(&b, n);
    let mut out = Vec::new();
    while let Some(p) = it.next() {
        out.push(p);
    }
    out
}

fn collect_vec3(a: Vec3Fx, b: Vec3Fx, n: usize) -> Vec<Vec3Fx> {
    let mut it = a.interpolate(&b, n);
    let mut out = Vec::new();
    while let Some(v) = it.next() {
        out.push(v);
    }
    out
}

#[test]
fn interpolate() {
    let points = collect_points(Point2::new(5, 3), Point2::new(1, 2), 4);
    assert_eq!(
        vec![
            Point2::new(5, 3),
            Point2::new(4, 3),
            Point2::new(2, 2),
            Point2::new(1, 2),
        ],
        points
    );
}

#[test]
fn interpolate_count_exact() {
    for n in [1usize, 2, 3, 7, 100] {
        let a = Vec3Fx::new(0, 0, 0);
        let b = Vec3Fx::new(13 * FX_ONE, -5 * FX_ONE, 999);
        let mut it = a.interpolate(&b, n);
        let mut count = 0usize;
        while let Some(_) = it.next() {
            count += 1;
        }
        assert_eq!(count, n);
        // once exhausted, the sequence stays exhausted
        assert!(it.next().is_none());
        assert!(it.next().is_none());
    }
}

#[test]
fn interpolate_zero_samples_yields_nothing() {
    let a = Vec3Fx::new(1, 2, 3);
    let b = Vec3Fx::new(4, 5, 6);
    let mut it = a.interpolate(&b, 0);
    assert!(it.next().is_none());
}

#[test]
fn interpolate_endpoints_exact_when_divisible() {
    let a = Vec3Fx::new(0, 0, 0);
    let b = Vec3Fx::new(FX_ONE, 2 * FX_ONE, -FX_ONE);
    let samples = collect_vec3(a, b, 2);
    assert_eq!(samples[0], a);
    assert_eq!(samples[1], b);
}

#[test]
fn interpolate_endpoints_within_tolerance() {
    let a = Vec3Fx::new(5 * FX_ONE, 0, 7);
    let b = Vec3Fx::new(0, FX_ONE, -4);
    let n: usize = 7;
    let samples = collect_vec3(a, b, n);
    assert_eq!(samples.len(), n);
    assert_eq!(samples[0], a);
    let last = samples[n - 1];
    let tol = (n - 1) as i64;
    assert!((last.x - b.x).abs() < tol);
    assert!((last.y - b.y).abs() < tol);
    assert!((last.z - b.z).abs() < tol);
}

#[test]
fn interpolate_single_sample_is_start() {
    let a = Vec3Fx::new(123, -456, 789);
    let b = Vec3Fx::new(-1000, 1000, 0);
    let samples = collect_vec3(a, b, 1);
    assert_eq!(samples, vec![a]);
}

#[test]
fn interpolate_pixels_zips_and_rounds() {
    let a = Pixel::new(Point2::new(0, 0), 100, Vec3Fx::new(0, 0, 0));
    let b = Pixel::new(Point2::new(2, 4), 300, Vec3Fx::new(FX_ONE, 0, 0));
    let mut it = a.interpolate(&b, 3);
    let mut out = Vec::new();
    while let Some(p) = it.next() {
        out.push(p);
    }
    assert_eq!(out.len(), 3);
    assert_eq!(out[0].point, Point2::new(0, 0));
    assert_eq!(out[0].z_recip, 100);
    assert_eq!(out[1].point, Point2::new(1, 2));
    assert_eq!(out[1].z_recip, 200);
    assert_eq!(out[2].point, Point2::new(2, 4));
    assert_eq!(out[2].z_recip, 300);
    // illumination interpolates in lockstep
    assert_eq!(out[0].illumination.x, 0);
    assert_eq!(out[1].illumination.x, FX_ONE / 2);
    assert_eq!(out[2].illumination.x, FX_ONE);
}

#[test]
fn pixel_xyz_packs_position_and_depth() {
    let p = Pixel::new(Point2::new(3, -2), 555, Vec3Fx::new(1, 2, 3));
    let v = p.xyz_as_vec3();
    assert_eq!(v, Vec3Fx::new(3 * FX_ONE, -2 * FX_ONE, 555));
}
