//! The per-frame pipeline: vertex transform, primitive assembly,
//! rasterization and compositing, plus orbital placement and the camera
//! input decisions.
//!
//! `render` runs one object through the whole pipeline: every vertex goes
//! through the vertex transform, consecutive non-overlapping triples form
//! triangles (trailing vertices that do not complete a triple are dropped —
//! intentional truncation, not an error), each triangle is rasterized, and
//! every fragment is shaded by the tag-selected shading function and
//! submitted to the framebuffer's depth test. The whole effect on the
//! framebuffer is pinned by one fold over the emitted fragments.

use vstd::prelude::*;
use vstd::seq_lib::*;
use crate::fixed::{spec_fx_add, spec_fx_sub, spec_fx_mul, fx_add, fx_sub, fx_mul};
use crate::trig::{spec_fx_sin, spec_fx_cos, fx_sin, fx_cos};
use crate::geometry::{Vec3Fx, Vertex, Fragment, spec_v3};
use crate::color::{Color, spec_to_hex};
use crate::camera::Camera;
use crate::transform::Uniforms;
use crate::shaders::{spec_vertex_shader, vertex_shader, spec_fragment_shader, fragment_shader};
use crate::raster::{spec_in_raster_range, in_raster_range, spec_rasterize, triangle};
use crate::framebuffer::{Framebuffer, spec_pixel_after};
use vstd::arithmetic::div_mod::lemma_fundamental_div_mod;

verus! {

/// The position of an orbiting body at a fixed-point time: the orbit radius
/// swung by `time * angular_velocity` in the ground plane.
pub open spec fn spec_calculate_orbit_position(time: int, orbit_radius: int, angular_velocity: int) -> Vec3Fx {
    let angle = spec_fx_mul(time, angular_velocity);
    spec_v3(
        spec_fx_mul(orbit_radius, spec_fx_cos(angle)),
        0,
        spec_fx_mul(orbit_radius, spec_fx_sin(angle)),
    )
}

pub fn calculate_orbit_position(time: i64, orbit_radius: i64, angular_velocity: i64) -> (r: Vec3Fx)
    ensures
        r == spec_calculate_orbit_position(time as int, orbit_radius as int, angular_velocity as int),
{
    let angle: i64 = fx_mul(time, angular_velocity);
    Vec3Fx::new(fx_mul(orbit_radius, fx_cos(angle)), 0, fx_mul(orbit_radius, fx_sin(angle)))
}

/// An initial offset rotated by `angle` in its orbital plane: the placement
/// the frame loop computes for each body,
/// `(x cos a - y sin a, x sin a + y cos a, z)`.
pub open spec fn spec_orbit_translation(initial: Vec3Fx, angle: int) -> Vec3Fx {
    let c = spec_fx_cos(angle);
    let s = spec_fx_sin(angle);
    spec_v3(
        spec_fx_sub(spec_fx_mul(initial.x as int, c), spec_fx_mul(initial.y as int, s)),
        spec_fx_add(spec_fx_mul(initial.x as int, s), spec_fx_mul(initial.y as int, c)),
        initial.z as int,
    )
}

pub fn orbit_translation(initial: Vec3Fx, angle: i64) -> (r: Vec3Fx)
    ensures
        r == spec_orbit_translation(initial, angle as int),
{
    let c: i64 = fx_cos(angle);
    let s: i64 = fx_sin(angle);
    Vec3Fx::new(
        fx_sub(fx_mul(initial.x, c), fx_mul(initial.y, s)),
        fx_add(fx_mul(initial.x, s), fx_mul(initial.y, c)),
        initial.z,
    )
}

/// The per-frame keyboard state the presentation layer hands the pipeline.
#[derive(Clone, Copy, PartialEq, Eq, Structural, Debug)]
pub struct InputState {
    pub orbit_left: bool,
    pub orbit_right: bool,
    pub orbit_up: bool,
    pub orbit_down: bool,
    pub pan_left: bool,
    pub pan_right: bool,
    pub pan_up: bool,
    pub pan_down: bool,
    pub zoom_in: bool,
    pub zoom_out: bool,
}

/// The orbit step per held key (pi/50 radians).
pub const ROTATION_SPEED: i64 = 4117;

/// The pan step per held key (one world unit).
pub const MOVEMENT_SPEED: i64 = 65536;

/// The zoom step per held key (0.1 world units).
pub const ZOOM_SPEED: i64 = 6554;

/// The pan vector the held keys add up to.
pub open spec fn spec_input_movement(input: InputState) -> Vec3Fx {
    let x0 = 0int;
    let x1 = if input.pan_left {
        spec_fx_sub(x0, MOVEMENT_SPEED as int)
    } else {
        x0
    };
    let x2 = if input.pan_right {
        spec_fx_add(x1, MOVEMENT_SPEED as int)
    } else {
        x1
    };
    let y0 = 0int;
    let y1 = if input.pan_up {
        spec_fx_add(y0, MOVEMENT_SPEED as int)
    } else {
        y0
    };
    let y2 = if input.pan_down {
        spec_fx_sub(y1, MOVEMENT_SPEED as int)
    } else {
        y1
    };
    spec_v3(x2, y2, 0)
}

/// The camera state after one frame of input: orbit keys first (left, right,
/// up, down), then the accumulated pan if any key moved it, then zoom in and
/// zoom out.
pub open spec fn spec_handle_input(input: InputState, cam: Camera) -> Camera {
    let c1 = if input.orbit_left {
        cam.spec_orbit(ROTATION_SPEED as int, 0)
    } else {
        cam
    };
    let c2 = if input.orbit_right {
        c1.spec_orbit(-ROTATION_SPEED as int, 0)
    } else {
        c1
    };
    let c3 = if input.orbit_up {
        c2.spec_orbit(0, -ROTATION_SPEED as int)
    } else {
        c2
    };
    let c4 = if input.orbit_down {
        c3.spec_orbit(0, ROTATION_SPEED as int)
    } else {
        c3
    };
    let movement = spec_input_movement(input);
    let c5 = if movement.x != 0 || movement.y != 0 || movement.z != 0 {
        c4.spec_move_center(movement)
    } else {
        c4
    };
    let c6 = if input.zoom_in {
        c5.spec_zoom(ZOOM_SPEED as int)
    } else {
        c5
    };
    if input.zoom_out {
        c6.spec_zoom(-ZOOM_SPEED as int)
    } else {
        c6
    }
}

/// Translates one frame of keyboard state into camera operations: orbit,
/// rigid pan, zoom. The decision logic is pure; the presentation layer only
/// fills in which keys are held.
pub fn handle_input(input: &InputState, camera: &mut Camera)
    ensures
        *final(camera) == spec_handle_input(*input, *old(camera)),
        old(camera).wf() ==> final(camera).wf(),
{
    if input.orbit_left {
        camera.orbit(ROTATION_SPEED, 0);
    }
    if input.orbit_right {
        camera.orbit(-ROTATION_SPEED, 0);
    }
    if input.orbit_up {
        camera.orbit(0, -ROTATION_SPEED);
    }
    if input.orbit_down {
        camera.orbit(0, ROTATION_SPEED);
    }
    let mut mx: i64 = 0;
    let mut my: i64 = 0;
    if input.pan_left {
        mx = fx_sub(mx, MOVEMENT_SPEED);
    }
    if input.pan_right {
        mx = fx_add(mx, MOVEMENT_SPEED);
    }
    if input.pan_up {
        my = fx_add(my, MOVEMENT_SPEED);
    }
    if input.pan_down {
        my = fx_sub(my, MOVEMENT_SPEED);
    }
    let movement: Vec3Fx = Vec3Fx::new(mx, my, 0);
    if movement.x != 0 || movement.y != 0 || movement.z != 0 {
        camera.move_center(movement);
    }
    if input.zoom_in {
        camera.zoom(ZOOM_SPEED);
    }
    if input.zoom_out {
        camera.zoom(-ZOOM_SPEED);
    }
}

/// Runs the vertex transform over a whole vertex list.
pub fn transform_vertices(vertex_array: &Vec<Vertex>, uniforms: &Uniforms) -> (r: Vec<Vertex>)
    ensures
        r@ == vertex_array@.map_values(|v: Vertex| spec_vertex_shader(v, *uniforms)),
{
    let mut out: Vec<Vertex> = Vec::new();
    let mut i: usize = 0;
    while i < vertex_array.len()
        invariant
            i <= vertex_array@.len(),
            out@.len() == i,
            forall|j: int|
                0 <= j < i ==> out@[j] == spec_vertex_shader(vertex_array@[j], *uniforms),
        decreases vertex_array@.len() - i,
    {
        let v: Vertex = vertex_shader(&vertex_array[i], uniforms);
        out.push(v);
        i = i + 1;
    }
    proof {
        assert(out@ =~= vertex_array@.map_values(|v: Vertex| spec_vertex_shader(v, *uniforms)));
    }
    out
}

/// The fragments of the `i`-th assembled triangle: what the rasterizer
/// emits, or nothing when a vertex coordinate exceeds the exact-arithmetic
/// range (such degenerate triangles are skipped).
pub open spec fn spec_tri_frags(tv: Seq<Vertex>, i: int) -> Seq<Fragment> {
    if spec_in_raster_range(tv[3 * i]) && spec_in_raster_range(tv[3 * i + 1])
        && spec_in_raster_range(tv[3 * i + 2]) {
        spec_rasterize(tv[3 * i], tv[3 * i + 1], tv[3 * i + 2])
    } else {
        Seq::empty()
    }
}

/// All fragments of the first `n` triangles, in submission order.
pub open spec fn spec_all_frags(tv: Seq<Vertex>, n: nat) -> Seq<Fragment>
    decreases n,
{
    if n == 0 {
        Seq::empty()
    } else {
        spec_all_frags(tv, (n - 1) as nat) + spec_tri_frags(tv, n - 1)
    }
}

/// What one fragment leaves of the framebuffer state (color buffer, depth
/// buffer, current draw color): an in-bounds fragment with a valid intensity
/// is shaded by the tag-selected shader, its packed color becomes the draw
/// color, and it survives the depth test only if strictly closer; anything
/// else changes nothing.
pub open spec fn spec_shade_write(colors: Seq<u32>, depths: Seq<i64>, cur: u32, f: Fragment, u: Uniforms, shader: u8, w: int, h: int) -> (Seq<u32>, Seq<i64>, u32) {
    if 0 <= f.x && (f.x as int) < w && 0 <= f.y && (f.y as int) < h && f.intensity >= 0 {
        let hex = spec_to_hex(spec_fragment_shader(f, u, shader)) as u32;
        let idx = (f.y as int) * w + (f.x as int);
        let after = spec_pixel_after(colors[idx], depths[idx], hex, f.depth);
        (colors.update(idx, after.0), depths.update(idx, after.1), hex)
    } else {
        (colors, depths, cur)
    }
}

/// The framebuffer state after the first `n` fragments have been submitted.
pub open spec fn spec_composite(colors: Seq<u32>, depths: Seq<i64>, cur: u32, frags: Seq<Fragment>, n: nat, u: Uniforms, shader: u8, w: int, h: int) -> (Seq<u32>, Seq<i64>, u32)
    decreases n,
{
    if n == 0 {
        (colors, depths, cur)
    } else {
        let prev = spec_composite(colors, depths, cur, frags, (n - 1) as nat, u, shader, w, h);
        spec_shade_write(prev.0, prev.1, prev.2, frags[n - 1], u, shader, w, h)
    }
}

/// Renders one object: transforms every vertex, assembles consecutive
/// triples into triangles (truncating a trailing partial triple), rasterizes
/// each triangle, shades each fragment with the shader selected by
/// `current_shader` and submits it to the depth test. The final framebuffer
/// state is exactly the fold of the emitted fragments over the old state.
pub fn render(framebuffer: &mut Framebuffer, uniforms: &Uniforms, vertex_array: &Vec<Vertex>, current_shader: u8)
    requires
        old(framebuffer).wf(),
    ensures
        final(framebuffer).wf(),
        final(framebuffer).width == old(framebuffer).width,
        final(framebuffer).height == old(framebuffer).height,
        final(framebuffer).background_color == old(framebuffer).background_color,
        ({
            let tv = vertex_array@.map_values(|v: Vertex| spec_vertex_shader(v, *uniforms));
            let fs = spec_all_frags(tv, (tv.len() / 3) as nat);
            let res = spec_composite(
                old(framebuffer).buffer@,
                old(framebuffer).zbuffer@,
                old(framebuffer).current_color,
                fs,
                fs.len(),
                *uniforms,
                current_shader,
                old(framebuffer).width as int,
                old(framebuffer).height as int,
            );
            final(framebuffer).buffer@ == res.0 && final(framebuffer).zbuffer@ == res.1
                && final(framebuffer).current_color == res.2
        }),
{
    let transformed: Vec<Vertex> = transform_vertices(vertex_array, uniforms);
    let ghost tv = vertex_array@.map_values(|v: Vertex| spec_vertex_shader(v, *uniforms));
    let tri_count: usize = transformed.len() / 3;
    proof {
        lemma_fundamental_div_mod(transformed@.len() as int, 3);
    }
    let mut frags: Vec<Fragment> = Vec::new();
    let mut i: usize = 0;
    while i < tri_count
        invariant
            i <= tri_count,
            tri_count == transformed@.len() as int / 3,
            transformed@ == tv,
            3 * (tri_count as int) <= transformed@.len(),
            frags@ == spec_all_frags(tv, i as nat),
        decreases tri_count - i,
    {
        let va: Vertex = transformed[3 * i];
        let vb: Vertex = transformed[3 * i + 1];
        let vc: Vertex = transformed[3 * i + 2];
        if in_raster_range(&va) && in_raster_range(&vb) && in_raster_range(&vc) {
            let t: Vec<Fragment> = triangle(&va, &vb, &vc);
            let mut j: usize = 0;
            while j < t.len()
                invariant
                    j <= t@.len(),
                    frags@ == spec_all_frags(tv, i as nat) + t@.subrange(0, j as int),
                    t@ == spec_tri_frags(tv, i as int),
                decreases t@.len() - j,
            {
                frags.push(t[j]);
                proof {
                    assert(t@.subrange(0, j as int).push(t@[j as int]) =~= t@.subrange(
                        0,
                        j as int + 1,
                    ));
                }
                j = j + 1;
            }
            proof {
                assert(t@.subrange(0, t@.len() as int) =~= t@);
            }
        } else {
            proof {
                assert(spec_all_frags(tv, i as nat) + spec_tri_frags(tv, i as int) =~= frags@);
            }
        }
        i = i + 1;
    }
    let ghost fs = spec_all_frags(tv, (tv.len() / 3) as nat);
    proof {
        assert(frags@ == fs);
    }
    let w: usize = framebuffer.width;
    let h: usize = framebuffer.height;
    let mut k: usize = 0;
    while k < frags.len()
        invariant
            k <= frags@.len(),
            frags@ == fs,
            framebuffer.wf(),
            w == framebuffer.width,
            h == framebuffer.height,
            framebuffer.width == old(framebuffer).width,
            framebuffer.height == old(framebuffer).height,
            framebuffer.background_color == old(framebuffer).background_color,
            (framebuffer.buffer@, framebuffer.zbuffer@, framebuffer.current_color)
                == spec_composite(
                old(framebuffer).buffer@,
                old(framebuffer).zbuffer@,
                old(framebuffer).current_color,
                fs,
                k as nat,
                *uniforms,
                current_shader,
                old(framebuffer).width as int,
                old(framebuffer).height as int,
            ),
        decreases frags@.len() - k,
    {
        let f: Fragment = frags[k];
        if f.x >= 0 && f.y >= 0 && f.x < w as i64 && f.y < h as i64 && f.intensity >= 0 {
            let c: Color = fragment_shader(&f, uniforms, current_shader);
            let hex: u32 = c.to_hex();
            framebuffer.set_current_color(hex);
            framebuffer.point(f.x as usize, f.y as usize, f.depth);
        }
        k = k + 1;
    }
}

} // verus!
