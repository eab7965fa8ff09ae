use orbit_render::camera::{Camera, MIN_RADIUS};
use orbit_render::color::Color;
use orbit_render::fixed::{FX_ONE, fx_mul, fx_sqrt};
use orbit_render::framebuffer::{Framebuffer, DEPTH_FAR};
use orbit_render::geometry::{Fragment, Vec2Fx, Vec3Fx, Vertex};
use orbit_render::noise::{create_cloud_noise, create_noise, Noise};
use orbit_render::pipeline::{calculate_orbit_position, handle_input, orbit_translation, InputState};
use orbit_render::raster::triangle;
use orbit_render::shaders::fragment_shader;
use orbit_render::transform::{
    create_model_matrix, create_perspective_matrix, create_viewport_matrix, Mat4Fx, Uniforms,
};
use orbit_render::trig::{fx_cos, fx_sin};

fn fx(v: f64) -> i64 {
    (v * 65536.0).round() as i64
}

fn to_f(v: i64) -> f64 {
    v as f64 / 65536.0
}

fn screen_vertex(x: i64, y: i64, depth: i64) -> Vertex {
    Vertex {
        position: Vec3Fx { x: 0, y: 0, z: 0 },
        normal: Vec3Fx { x: 0, y: 0, z: FX_ONE },
        tex_coords: Vec2Fx { x: 0, y: 0 },
        color: Color { r: 255, g: 255, b: 255 },
        transformed_position: Vec3Fx { x: x * FX_ONE, y: y * FX_ONE, z: depth },
        transformed_normal: Vec3Fx { x: 0, y: 0, z: FX_ONE },
    }
}

fn edge(ax: i128, ay: i128, bx: i128, by: i128, px: i128, py: i128) -> i128 {
    (bx - ax) * (py - ay) - (by - ay) * (px - ax)
}

/// Whether pixel (px, py) has all barycentric weights nonnegative for the
/// triangle (400,100), (600,500), (200,500) in fixed-point screen space.
fn inside_reference_triangle(px: i128, py: i128) -> bool {
    let s = 65536i128;
    let (ax, ay) = (400 * s, 100 * s);
    let (bx, by) = (600 * s, 500 * s);
    let (cx, cy) = (200 * s, 500 * s);
    let (qx, qy) = (px * s, py * s);
    edge(bx, by, cx, cy, qx, qy) >= 0 && edge(cx, cy, ax, ay, qx, qy) >= 0
        && edge(ax, ay, bx, by, qx, qy) >= 0
}

#[test]
fn lerp_channels_stay_between_endpoints() {
    let a = Color::new(10, 200, 0);
    let b = Color::new(250, 20, 255);
    let factors: Vec<i64> = vec![0, 1, 6554, 32768, 65535, 65536];
    for t in factors {
        let c = a.lerp(&b, t);
        assert!(c.r >= 10 && c.r <= 250);
        assert!(c.g >= 20 && c.g <= 200);
        assert!(c.b <= 255);
    }
    // Exact midpoint: each channel moves half the gap, truncated.
    let mid = a.lerp(&b, 32768);
    assert_eq!(mid.r, 130);
    assert_eq!(mid.g, 110);
    assert_eq!(mid.b, 127);
    // Factors outside [0, 1] clamp rather than extrapolate.
    let below = a.lerp(&b, -99999);
    assert_eq!((below.r, below.g, below.b), (10, 200, 0));
    let above = a.lerp(&b, 999999);
    assert_eq!((above.r, above.g, above.b), (250, 20, 255));
}

#[test]
fn color_arithmetic_saturates() {
    let c = Color::new(200, 10, 255);
    let sum = c.add_c(Color::new(100, 5, 10));
    assert_eq!((sum.r, sum.g, sum.b), (255, 15, 255));
    let doubled = c.scale(2 * FX_ONE);
    assert_eq!((doubled.r, doubled.g, doubled.b), (255, 20, 255));
    let halved = c.scale(32768);
    assert_eq!((halved.r, halved.g, halved.b), (100, 5, 127));
    assert_eq!(Color::new(1, 2, 3).to_hex(), 0x010203);
    assert_eq!(Color::black().to_hex(), 0);
}

#[test]
fn zoom_strictly_decreases_until_floor() {
    let mut cam = Camera::new(
        Vec3Fx { x: 0, y: 0, z: 10 * FX_ONE },
        Vec3Fx { x: 0, y: 0, z: 0 },
        Vec3Fx { x: 0, y: FX_ONE, z: 0 },
    );
    let mut last = cam.radius;
    let mut hit_floor = false;
    for _ in 0..200 {
        cam.zoom(6554);
        if hit_floor {
            assert_eq!(cam.radius, MIN_RADIUS);
        } else if cam.radius == MIN_RADIUS {
            hit_floor = true;
        } else {
            assert!(cam.radius < last);
        }
        assert!(cam.radius >= MIN_RADIUS);
        last = cam.radius;
    }
    assert!(hit_floor);
    // Zooming back out increases the distance again.
    cam.zoom(-FX_ONE);
    assert_eq!(cam.radius, MIN_RADIUS + FX_ONE);
}

#[test]
fn orbit_preserves_eye_center_distance() {
    let mut cam = Camera::new(
        Vec3Fx { x: 3 * FX_ONE, y: 2 * FX_ONE, z: 10 * FX_ONE },
        Vec3Fx { x: FX_ONE, y: 0, z: 0 },
        Vec3Fx { x: 0, y: FX_ONE, z: 0 },
    );
    let r0 = cam.radius;
    let deltas: Vec<(i64, i64)> = vec![
        (4117, 0),
        (-9000, 2000),
        (200000, -300000),
        (-4117, 4117),
        (999999, 999999),
    ];
    for (dy, dp) in deltas {
        cam.orbit(dy, dp);
        assert_eq!(cam.radius, r0);
        // The derived eye stays at distance `radius` up to fixed-point error.
        let eye = cam.eye();
        let dx = to_f(eye.x) - to_f(cam.center.x);
        let dyw = to_f(eye.y) - to_f(cam.center.y);
        let dz = to_f(eye.z) - to_f(cam.center.z);
        let dist = (dx * dx + dyw * dyw + dz * dz).sqrt();
        assert!((dist - to_f(r0)).abs() < 0.02 * to_f(r0) + 0.01);
    }
}

#[test]
fn camera_pan_and_retarget_keep_offset() {
    let mut cam = Camera::new(
        Vec3Fx { x: 0, y: 0, z: 10 * FX_ONE },
        Vec3Fx { x: 0, y: 0, z: 0 },
        Vec3Fx { x: 0, y: FX_ONE, z: 0 },
    );
    let r0 = cam.radius;
    cam.move_center(Vec3Fx { x: FX_ONE, y: -FX_ONE, z: 2 * FX_ONE });
    assert_eq!(cam.center, Vec3Fx { x: FX_ONE, y: -FX_ONE, z: 2 * FX_ONE });
    assert_eq!(cam.radius, r0);
    let positions: Vec<Vec3Fx> = vec![
        Vec3Fx { x: 0, y: 0, z: 0 },
        Vec3Fx { x: 5 * FX_ONE, y: 0, z: -3 * FX_ONE },
    ];
    cam.move_to_next_planet(&positions, 1);
    assert_eq!(cam.center, positions[1]);
    assert_eq!(cam.radius, r0);
}

#[test]
fn depth_test_is_order_independent() {
    // Two fragments at one pixel, submitted in either order: the smaller
    // depth wins both times.
    let near: u32 = 0x112233;
    let far: u32 = 0x445566;
    let mut fb1 = Framebuffer::new(4, 4);
    fb1.set_current_color(far);
    fb1.point(2, 1, 58982);
    fb1.set_current_color(near);
    fb1.point(2, 1, 6554);
    let mut fb2 = Framebuffer::new(4, 4);
    fb2.set_current_color(near);
    fb2.point(2, 1, 6554);
    fb2.set_current_color(far);
    fb2.point(2, 1, 58982);
    let idx = 1 * 4 + 2;
    assert_eq!(fb1.buffer[idx], near);
    assert_eq!(fb2.buffer[idx], near);
    assert_eq!(fb1.zbuffer[idx], 6554);
    assert_eq!(fb2.zbuffer[idx], 6554);
    // A fragment that loses the test changes nothing.
    assert_eq!(fb1.buffer[0], 0);
    assert_eq!(fb1.zbuffer[0], DEPTH_FAR);
}

#[test]
fn single_triangle_fills_exactly_its_pixels() {
    // A single triangle at screen space (400,100), (600,500), (200,500),
    // uniform depth 0.5, drawn in constant white over a black background:
    // exactly the pixels with all barycentric weights nonnegative are white.
    let depth = 32768;
    let v0 = screen_vertex(400, 100, depth);
    let v1 = screen_vertex(600, 500, depth);
    let v2 = screen_vertex(200, 500, depth);
    let frags = triangle(&v0, &v1, &v2);
    assert!(frags.len() > 0);
    let mut fb = Framebuffer::new(800, 600);
    fb.set_current_color(0xFFFFFF);
    for f in &frags {
        assert!(f.depth == depth);
        if f.x >= 0 && f.y >= 0 && f.x < 800 && f.y < 600 {
            fb.point(f.x as usize, f.y as usize, f.depth);
        }
    }
    let mut white_count = 0u64;
    for y in 0..600i128 {
        for x in 0..800i128 {
            let expected = if inside_reference_triangle(x, y) {
                0xFFFFFF
            } else {
                0
            };
            assert_eq!(fb.buffer[(y as usize) * 800 + (x as usize)], expected);
            if expected != 0 {
                white_count += 1;
            }
        }
    }
    // The fragment count matches the number of inside pixel centers (the
    // whole triangle is on screen).
    assert_eq!(frags.len() as u64, white_count);
}

#[test]
fn zero_area_triangle_emits_nothing() {
    let v0 = screen_vertex(100, 100, 32768);
    let v1 = screen_vertex(200, 200, 32768);
    let v2 = screen_vertex(300, 300, 32768);
    assert_eq!(triangle(&v0, &v1, &v2).len(), 0);
    // Negative (clockwise) area also emits nothing.
    let w0 = screen_vertex(400, 100, 32768);
    let w1 = screen_vertex(200, 500, 32768);
    let w2 = screen_vertex(600, 500, 32768);
    assert_eq!(triangle(&w0, &w1, &w2).len(), 0);
}

#[test]
fn overlapping_triangles_resolve_by_depth() {
    // The same triangle twice, depth 0.9 then fully overlapping at depth
    // 0.1 with another color: either submission order leaves the 0.1 color.
    let near_color: u32 = 0x00FF00;
    let far_color: u32 = 0xFF0000;
    let orders: Vec<bool> = vec![true, false];
    for near_first in orders {
        let mut fb = Framebuffer::new(800, 600);
        let passes: Vec<(i64, u32)> = if near_first {
            vec![(6554, near_color), (58982, far_color)]
        } else {
            vec![(58982, far_color), (6554, near_color)]
        };
        for (depth, color) in passes {
            let v0 = screen_vertex(400, 100, depth);
            let v1 = screen_vertex(600, 500, depth);
            let v2 = screen_vertex(200, 500, depth);
            let frags = triangle(&v0, &v1, &v2);
            fb.set_current_color(color);
            for f in &frags {
                if f.x >= 0 && f.y >= 0 && f.x < 800 && f.y < 600 {
                    fb.point(f.x as usize, f.y as usize, f.depth);
                }
            }
        }
        for y in 0..600i128 {
            for x in 0..800i128 {
                let expected = if inside_reference_triangle(x, y) {
                    near_color
                } else {
                    0
                };
                assert_eq!(fb.buffer[(y as usize) * 800 + (x as usize)], expected);
            }
        }
    }
}

#[test]
fn orbit_translation_places_body_on_its_circle() {
    // Initial offset (3,0,0), angular velocity 0.01, integer time 100: the
    // body lands at (3 cos a, 3 sin a, 0) where a is the fixed-point product
    // of time and angular velocity (about one radian).
    let initial = Vec3Fx { x: 3 * FX_ONE, y: 0, z: 0 };
    let time = 100 * FX_ONE;
    let angular_velocity = 655;
    let angle = fx_mul(time, angular_velocity);
    let r = orbit_translation(initial, angle);
    assert_eq!(r.x, fx_mul(3 * FX_ONE, fx_cos(angle)));
    assert_eq!(r.y, fx_mul(3 * FX_ONE, fx_sin(angle)));
    assert_eq!(r.z, 0);
    let a = to_f(angle);
    assert!((to_f(r.x) - 3.0 * a.cos()).abs() < 0.01);
    assert!((to_f(r.y) - 3.0 * a.sin()).abs() < 0.01);
    // The ground-plane variant used for free-standing orbits.
    let p = calculate_orbit_position(time, 3 * FX_ONE, angular_velocity);
    assert_eq!(p.y, 0);
    assert!((to_f(p.x) - 3.0 * a.cos()).abs() < 0.01);
    assert!((to_f(p.z) - 3.0 * a.sin()).abs() < 0.01);
}

#[test]
fn trig_matches_reference_within_tolerance() {
    let samples: Vec<f64> = vec![0.0, 0.5, 1.0, 1.5707, 3.1415, -2.0, 6.2831, 10.0, -10.0];
    for a in samples {
        let af = fx(a);
        assert!((to_f(fx_sin(af)) - a.sin()).abs() < 0.005, "sin at {a}");
        assert!((to_f(fx_cos(af)) - a.cos()).abs() < 0.005, "cos at {a}");
    }
    assert_eq!(fx_sin(0), 0);
    assert!((to_f(fx_sqrt(4 * FX_ONE)) - 2.0).abs() < 0.001);
}

#[test]
fn noise_is_deterministic_and_bounded() {
    let n1 = create_noise();
    let n2 = create_cloud_noise();
    assert_eq!(n1.seed, 1337);
    assert_eq!(n1.seed, n2.seed);
    let coords: Vec<(i64, i64)> = vec![(0, 0), (123456, -654321), (99999999, 424242)];
    for (x, y) in coords {
        let a = n1.get_noise_2d(x, y);
        let b = n2.get_noise_2d(x, y);
        assert_eq!(a, b);
        assert!(-FX_ONE <= a && a <= FX_ONE);
        let c = n1.get_noise_3d(x, y, x ^ y);
        assert_eq!(c, n2.get_noise_3d(x, y, x ^ y));
        assert!(-FX_ONE <= c && c <= FX_ONE);
    }
    // Different seeds give a different field somewhere.
    let other = Noise::with_seed(42);
    let mut differs = false;
    for i in 0..32i64 {
        if other.get_noise_2d(i * 7777, i * 3333) != n1.get_noise_2d(i * 7777, i * 3333) {
            differs = true;
        }
    }
    assert!(differs);
}

#[test]
fn shader_dispatch_selects_by_tag() {
    let frag = Fragment {
        x: 10,
        y: 10,
        depth: 32768,
        intensity: FX_ONE,
        vertex_position: Vec3Fx { x: 6554, y: -6554, z: 32768 },
    };
    let uniforms = Uniforms {
        model_matrix: Mat4Fx::identity(),
        view_matrix: Mat4Fx::identity(),
        projection_matrix: Mat4Fx::identity(),
        viewport_matrix: Mat4Fx::identity(),
        time: 7,
        noise: create_noise(),
    };
    // An unknown tag yields black; known tags are deterministic.
    let none = fragment_shader(&frag, &uniforms, 200);
    assert_eq!((none.r, none.g, none.b), (0, 0, 0));
    for tag in 0u8..7u8 {
        let a = fragment_shader(&frag, &uniforms, tag);
        let b = fragment_shader(&frag, &uniforms, tag);
        assert_eq!(a, b);
    }
    // Zero intensity blacks every shader out.
    let dark = Fragment { intensity: 0, ..frag };
    for tag in 0u8..7u8 {
        let c = fragment_shader(&dark, &uniforms, tag);
        assert_eq!((c.r, c.g, c.b), (0, 0, 0));
    }
}

#[test]
fn input_decisions_drive_camera() {
    let mut cam = Camera::new(
        Vec3Fx { x: 0, y: 0, z: 10 * FX_ONE },
        Vec3Fx { x: 0, y: 0, z: 0 },
        Vec3Fx { x: 0, y: FX_ONE, z: 0 },
    );
    let r0 = cam.radius;
    let yaw0 = cam.yaw;
    let idle = InputState {
        orbit_left: false,
        orbit_right: false,
        orbit_up: false,
        orbit_down: false,
        pan_left: false,
        pan_right: false,
        pan_up: false,
        pan_down: false,
        zoom_in: false,
        zoom_out: false,
    };
    handle_input(&idle, &mut cam);
    assert_eq!(cam.radius, r0);
    assert_eq!(cam.yaw, yaw0);
    assert_eq!(cam.center, Vec3Fx { x: 0, y: 0, z: 0 });
    let busy = InputState { orbit_left: true, pan_right: true, zoom_in: true, ..idle };
    handle_input(&busy, &mut cam);
    assert_eq!(cam.yaw, yaw0 + 4117);
    assert_eq!(cam.center, Vec3Fx { x: FX_ONE, y: 0, z: 0 });
    assert_eq!(cam.radius, r0 - 6554);
}

#[test]
fn matrix_builders_have_expected_shape() {
    let vp = create_viewport_matrix(800 * FX_ONE, 600 * FX_ONE);
    assert_eq!(vp.m00, 400 * FX_ONE);
    assert_eq!(vp.m03, 400 * FX_ONE);
    assert_eq!(vp.m11, -300 * FX_ONE);
    assert_eq!(vp.m13, 300 * FX_ONE);
    assert_eq!(vp.m22, FX_ONE);
    let persp = create_perspective_matrix(800 * FX_ONE, 600 * FX_ONE);
    // f / aspect with f = cot(22.5 degrees) and aspect 4/3.
    assert!((to_f(persp.m00) - 2.414213 / (800.0 / 600.0)).abs() < 0.01);
    assert!((to_f(persp.m11) - 2.414213).abs() < 0.01);
    assert_eq!(persp.m32, -FX_ONE);
    // A model matrix with no rotation is translate-scale.
    let m = create_model_matrix(
        Vec3Fx { x: FX_ONE, y: 2 * FX_ONE, z: 3 * FX_ONE },
        32768,
        Vec3Fx { x: 0, y: 0, z: 0 },
    );
    assert_eq!(m.m03, FX_ONE);
    assert_eq!(m.m13, 2 * FX_ONE);
    assert_eq!(m.m23, 3 * FX_ONE);
    // The diagonal carries the scale through the fixed-point rotation chain
    // (cos 0 is one only up to the sine polynomial's truncation).
    assert!((to_f(m.m00) - 0.5).abs() < 0.01);
    assert!((to_f(m.m11) - 0.5).abs() < 0.01);
    assert!((to_f(m.m22) - 0.5).abs() < 0.01);
    assert_eq!(m.m33, FX_ONE);
    assert_eq!(m.m30, 0);
    assert_eq!(m.m10, 0);
}
