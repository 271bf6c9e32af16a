use rusterizer::camera::{Camera, CAMERA_Z_HOME};
use rusterizer::fixed::FX_ONE;
use rusterizer::primitives::{Triangle, Vertex};
use rusterizer::shaders::VertexShader;
use rusterizer::vectors::Vec3Fx;
use rusterizer::world::{scale_triangle, World};

#[test]
fn camera_defaults() {
    let cam = Camera::new(48, 64);
    assert_eq!(cam.height, 48);
    assert_eq!(cam.width, 64);
    assert_eq!(cam.focal, 64);
    assert_eq!(cam.position, Vec3Fx::new(0, 0, CAMERA_Z_HOME));
}

#[test]
fn projection_degeneracy_center_pixel() {
    // A point on the optical axis projects to the exact viewport center,
    // whatever its depth.
    let cam = Camera::new(64, 64);
    let vs = cam.as_vertex_shader();
    let n = Vec3Fx::new(0, 0, -FX_ONE);
    let white = Vec3Fx::new(FX_ONE, FX_ONE, FX_ONE);
    for z in [0i64, FX_ONE, 3 * FX_ONE, -FX_ONE] {
        let p = vs.vertex_shader(&Vertex::new(Vec3Fx::new(0, 0, z), n, white));
        assert_eq!(p.point.x, 32);
        assert_eq!(p.point.y, 32);
    }
}

#[test]
fn inverse_depth_exact_value() {
    let cam = Camera::new(64, 64);
    let vs = cam.as_vertex_shader();
    let n = Vec3Fx::new(0, 0, -FX_ONE);
    let white = Vec3Fx::new(FX_ONE, FX_ONE, FX_ONE);
    let p = vs.vertex_shader(&Vertex::new(Vec3Fx::new(0, 0, 0), n, white));
    // distance from the camera plane is twice 3.001 units; one over that,
    // truncated in fixed point
    assert_eq!(p.z_recip, 4294967296i64 / 393348);
}

#[test]
fn nearer_points_have_larger_inverse_depth() {
    let cam = Camera::new(64, 64);
    let vs = cam.as_vertex_shader();
    let n = Vec3Fx::new(0, 0, -FX_ONE);
    let white = Vec3Fx::new(FX_ONE, FX_ONE, FX_ONE);
    let near = vs.vertex_shader(&Vertex::new(Vec3Fx::new(0, 0, 0), n, white));
    let far = vs.vertex_shader(&Vertex::new(Vec3Fx::new(0, 0, FX_ONE), n, white));
    assert!(near.z_recip > far.z_recip);
}

#[test]
fn yaw_is_absolute_not_cumulative() {
    // Scenario: yaw set to pi (sine 0, cosine -1), then back to 0 -> the
    // projection matches a camera that was never turned.
    let tri = Triangle::new(
        Vec3Fx::new(-FX_ONE / 2, -FX_ONE / 2, 0),
        Vec3Fx::new(FX_ONE / 2, -FX_ONE / 2, 0),
        Vec3Fx::new(0, FX_ONE / 2, 0),
        Vec3Fx::new(FX_ONE, FX_ONE, FX_ONE),
    );
    let mut turned = World::new(64, 64, vec![tri]);
    turned.set_yaw(0, -FX_ONE);
    turned.set_yaw(0, FX_ONE);
    let fresh = World::new(64, 64, vec![tri]);

    let t_turned = tri.project_to_canvas(&turned.camera);
    let t_fresh = tri.project_to_canvas(&fresh.camera);
    assert_eq!(t_turned, t_fresh);
}

#[test]
fn yaw_quarter_turn_changes_projection() {
    let cam0 = Camera::new(64, 64);
    let mut cam1 = Camera::new(64, 64);
    cam1.set_yaw(FX_ONE, 0);
    let vs0 = cam0.as_vertex_shader();
    let vs1 = cam1.as_vertex_shader();
    let n = Vec3Fx::new(0, 0, -FX_ONE);
    let white = Vec3Fx::new(FX_ONE, FX_ONE, FX_ONE);
    let v = Vertex::new(Vec3Fx::new(FX_ONE / 2, 0, 0), n, white);
    let p0 = vs0.vertex_shader(&v);
    let p1 = vs1.vertex_shader(&v);
    assert!(p0.point.x > 32);
    assert!(p1.point.x < 0);
}

#[test]
fn z_translate_is_cumulative() {
    let mut w = World::new(64, 64, Vec::new());
    w.set_z_translate(FX_ONE);
    w.set_z_translate(FX_ONE);
    assert_eq!(w.camera.position.z, CAMERA_Z_HOME + 2 * FX_ONE);
}

#[test]
fn canvas_size_reports_height_then_width() {
    let w = World::new(48, 64, Vec::new());
    assert_eq!(w.get_canvas_size(), (48, 64));
}

#[test]
fn scale_triangle_maps_box_corner() {
    let t = Triangle::new(
        Vec3Fx::new(555 * FX_ONE, 0, 0),
        Vec3Fx::new(0, 0, 0),
        Vec3Fx::new(555 * FX_ONE, 0, 555 * FX_ONE),
        Vec3Fx::new(FX_ONE, 0, 0),
    );
    let s = scale_triangle(t);
    assert_eq!(s.v0, Vec3Fx::new(-FX_ONE, FX_ONE, -FX_ONE));
    assert_eq!(s.v1, Vec3Fx::new(FX_ONE, FX_ONE, -FX_ONE));
    assert_eq!(s.v2, Vec3Fx::new(-FX_ONE, FX_ONE, FX_ONE));
    assert_eq!(s.color, t.color);
}

#[test]
fn face_turned_away_gets_exactly_the_ambient_term() {
    // the Lambert factor clamps at zero, leaving reflectance times the
    // half-unit ambient term
    let cam = Camera::new(64, 64);
    let vs = cam.as_vertex_shader();
    let away = Vec3Fx::new(0, 0, FX_ONE);
    let white = Vec3Fx::new(FX_ONE, FX_ONE, FX_ONE);
    let p = vs.vertex_shader(&Vertex::new(Vec3Fx::new(0, 0, 0), away, white));
    assert_eq!(
        p.illumination,
        Vec3Fx::new(FX_ONE / 2, FX_ONE / 2, FX_ONE / 2)
    );
    // and a half-reflectance face returns a quarter unit per channel
    let gray = Vec3Fx::new(FX_ONE / 2, FX_ONE / 2, FX_ONE / 2);
    let q = vs.vertex_shader(&Vertex::new(Vec3Fx::new(0, 0, 0), away, gray));
    assert_eq!(
        q.illumination,
        Vec3Fx::new(FX_ONE / 4, FX_ONE / 4, FX_ONE / 4)
    );
}

#[test]
fn normal_is_cached_and_follows_winding() {
    // Normal sign stability: repeated calls return the same vector, computed
    // as (v2 - v0) x (v1 - v0), normalized.
    let t = Triangle::new(
        Vec3Fx::new(0, 0, 0),
        Vec3Fx::new(FX_ONE, 0, 0),
        Vec3Fx::new(0, FX_ONE, 0),
        Vec3Fx::new(FX_ONE, FX_ONE, FX_ONE),
    );
    let n1 = t.get_normal();
    let n2 = t.get_normal();
    assert_eq!(n1, n2);
    assert_eq!(n1, Vec3Fx::new(0, 0, -FX_ONE));

    // Swapping two vertices flips the winding and the normal.
    let flipped = Triangle::new(
        Vec3Fx::new(FX_ONE, 0, 0),
        Vec3Fx::new(0, 0, 0),
        Vec3Fx::new(0, FX_ONE, 0),
        Vec3Fx::new(FX_ONE, FX_ONE, FX_ONE),
    );
    assert_eq!(flipped.get_normal(), Vec3Fx::new(0, 0, FX_ONE));
}
