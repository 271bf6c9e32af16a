use rusterizer::fixed::FX_ONE;
use rusterizer::pixels::PixelBuffer;
use rusterizer::primitives::Triangle;
use rusterizer::vectors::Vec3Fx;
use rusterizer::world::World;

fn px(buf: &[u8], width: u32, x: u32, y: u32) -> [u8; 4] {
    let off = ((y * width + x) * 4) as usize;
    [buf[off], buf[off + 1], buf[off + 2], buf[off + 3]]
}

/// A triangle parallel to the viewport at depth `z`, half side `a`, wound so
/// that its normal faces the camera.
fn facing_triangle(a: i64, z: i64, reflectance: Vec3Fx) -> Triangle {
    Triangle::new(
        Vec3Fx::new(-a, -a, z),
        Vec3Fx::new(a, -a, z),
        Vec3Fx::new(0, a, z),
        reflectance,
    )
}

#[test]
fn scenario_single_white_triangle() {
    // default pose, one triangle fully within the viewport, white
    // reflectance, light in front: the interior is lit, the rest stays zero
    let white = Vec3Fx::new(FX_ONE, FX_ONE, FX_ONE);
    let tri = facing_triangle(FX_ONE / 2, 0, white);
    let w = World::new(64, 64, vec![tri]);
    let mut pb = PixelBuffer::new(64, vec![0u8; 64 * 64 * 4]);
    w.draw(&mut pb);

    // the triangle projects into roughly the middle third of the viewport
    let center = px(&pb.buf, 64, 32, 32);
    assert_ne!([center[0], center[1], center[2]], [0, 0, 0]);
    assert_eq!(center[3], 255);

    let mut lit = 0usize;
    for y in 0..64u32 {
        for x in 0..64u32 {
            let p = px(&pb.buf, 64, x, y);
            if p != [0, 0, 0, 0] {
                lit += 1;
                assert_eq!(p[3], 255);
                // nothing outside the projected bounding box is touched
                assert!((21..=43).contains(&x), "lit pixel at ({}, {})", x, y);
                assert!((21..=43).contains(&y), "lit pixel at ({}, {})", x, y);
            }
        }
    }
    assert!(lit > 50);
}

#[test]
fn scenario_two_depths_either_order() {
    // two overlapping triangles at different depths: wherever they overlap
    // the nearer (red) one shows, in either draw order; pixels only the
    // farther (blue) one covers stay blue
    let red = Vec3Fx::new(FX_ONE, 0, 0);
    let blue = Vec3Fx::new(0, 0, FX_ONE);
    let near = facing_triangle(3 * FX_ONE / 10, 0, red);
    let far = facing_triangle(8 * FX_ONE / 10, FX_ONE, blue);

    for triangles in [vec![near, far], vec![far, near]] {
        let w = World::new(64, 64, triangles);
        let mut pb = PixelBuffer::new(64, vec![0u8; 64 * 64 * 4]);
        w.draw(&mut pb);

        // overlap: the viewport center is inside both triangles
        let center = px(&pb.buf, 64, 32, 32);
        assert_eq!(center[0], 0, "blue shows through at the overlap");
        assert!(center[2] > 0, "red missing at the overlap");

        // a pixel covered only by the far triangle stays blue
        let fringe = px(&pb.buf, 64, 32, 21);
        assert!(fringe[0] > 0, "blue fringe missing");
        assert_eq!(fringe[2], 0, "red leaked into the fringe");
    }
}

#[test]
fn light_offset_changes_brightness() {
    // pulling the light far away dims the direct term
    let white = Vec3Fx::new(FX_ONE, FX_ONE, FX_ONE);
    let tri = facing_triangle(FX_ONE / 2, 0, white);

    let near_light = World::new(64, 64, vec![tri]);
    let mut pb1 = PixelBuffer::new(64, vec![0u8; 64 * 64 * 4]);
    near_light.draw(&mut pb1);

    let mut far_light = World::new(64, 64, vec![tri]);
    far_light.update_light_offset(0, 0, -40 * FX_ONE);
    let mut pb2 = PixelBuffer::new(64, vec![0u8; 64 * 64 * 4]);
    far_light.draw(&mut pb2);

    let bright = px(&pb1.buf, 64, 32, 32);
    let dim = px(&pb2.buf, 64, 32, 32);
    assert!(bright[2] > dim[2]);
    // the ambient term keeps the face visible
    assert!(dim[2] >= 127);
}

#[test]
fn draw_clears_previous_frame() {
    let white = Vec3Fx::new(FX_ONE, FX_ONE, FX_ONE);
    let tri = facing_triangle(FX_ONE / 2, 0, white);
    let w = World::new(64, 64, vec![tri]);
    let empty = World::new(64, 64, Vec::new());
    let mut pb = PixelBuffer::new(64, vec![0u8; 64 * 64 * 4]);
    w.draw(&mut pb);
    assert!(pb.buf.iter().any(|&b| b != 0));
    empty.draw(&mut pb);
    assert!(pb.buf.iter().all(|&b| b == 0));
}
