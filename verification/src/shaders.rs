//! The vertex transform and the procedural shading functions.
//!
//! Each shading function is a pure map from a fragment and the per-object
//! uniforms to a color: it samples the shared noise source at coordinates
//! derived from the fragment's shader-space position scaled by a per-shader
//! zoom constant (offset by the frame counter to animate), thresholds or
//! blends between a fixed palette, and finally scales the result by the
//! fragment's light intensity. The artificial-sphere shader draws a
//! deterministic geometric pattern instead of noise. A dispatch-by-tag entry
//! point selects a shader by integer index.

use vstd::prelude::*;
use crate::fixed::{
    FX_ONE, FX_HALF, spec_fx_add, spec_fx_sub, spec_fx_mul, spec_fx_div, spec_fx_abs, spec_clamp,
    fx_add, fx_sub, fx_mul, fx_div, fx_abs, fx_clamp, fx_floor_rem, lemma_fx_mul_bounded,
};
use crate::trig::{spec_fx_sin, fx_sin};
use crate::geometry::{Vec3Fx, Vec4Fx, Vertex, Fragment, spec_v3};
use crate::color::{Color, spec_color_scale, spec_color_lerp};
use crate::noise::{spec_noise2, spec_noise3};
use crate::transform::{Mat3Fx, Uniforms};

verus! {

/// The frame counter as a fixed-point number.
pub open spec fn spec_time_fx(time: u32) -> int {
    (time as int) * (FX_ONE as int)
}

fn time_fx(time: u32) -> (r: i64)
    ensures
        r as int == spec_time_fx(time),
        0 <= r,
{
    (time as i64) * FX_ONE
}

/// What the transform stage makes of one vertex: the object-space position
/// is carried through model, view and projection space, divided by the
/// homogeneous coordinate (a zero divisor is replaced by the smallest
/// positive value, so degenerate vertices yield saturated, finite
/// coordinates instead of corrupting rasterization), and mapped through the
/// viewport; the normal is transformed by the transpose-inverse of the model
/// matrix's upper 3x3 block, which falls back to the identity when that
/// block is singular.
pub open spec fn spec_vertex_shader(vertex: Vertex, uniforms: Uniforms) -> Vertex {
    let position = Vec4Fx {
        x: vertex.position.x,
        y: vertex.position.y,
        z: vertex.position.z,
        w: FX_ONE,
    };
    let transformed = uniforms.projection_matrix.spec_mul_vec4(
        uniforms.view_matrix.spec_mul_vec4(uniforms.model_matrix.spec_mul_vec4(position)),
    );
    let w = if transformed.w == 0 {
        1int
    } else {
        transformed.w as int
    };
    let ndc = Vec4Fx {
        x: spec_fx_div(transformed.x as int, w) as i64,
        y: spec_fx_div(transformed.y as int, w) as i64,
        z: spec_fx_div(transformed.z as int, w) as i64,
        w: FX_ONE,
    };
    let screen = uniforms.viewport_matrix.spec_mul_vec4(ndc);
    let normal_matrix = Mat3Fx::spec_from_mat4(
        uniforms.model_matrix,
    ).spec_transpose().spec_inverse();
    Vertex {
        transformed_position: spec_v3(screen.x as int, screen.y as int, screen.z as int),
        transformed_normal: normal_matrix.spec_mul_vec3(vertex.normal),
        ..vertex
    }
}

/// Runs one vertex through the whole transform stage, leaving the
/// object-space attributes untouched and filling the two derived fields.
pub fn vertex_shader(vertex: &Vertex, uniforms: &Uniforms) -> (r: Vertex)
    ensures
        r == spec_vertex_shader(*vertex, *uniforms),
{
    let position: Vec4Fx = Vec4Fx {
        x: vertex.position.x,
        y: vertex.position.y,
        z: vertex.position.z,
        w: FX_ONE,
    };
    let transformed: Vec4Fx = uniforms.projection_matrix.mul_vec4(
        uniforms.view_matrix.mul_vec4(uniforms.model_matrix.mul_vec4(position)),
    );
    let w: i64 = if transformed.w == 0 {
        1
    } else {
        transformed.w
    };
    let ndc: Vec4Fx = Vec4Fx {
        x: fx_div(transformed.x, w),
        y: fx_div(transformed.y, w),
        z: fx_div(transformed.z, w),
        w: FX_ONE,
    };
    let screen: Vec4Fx = uniforms.viewport_matrix.mul_vec4(ndc);
    let normal_matrix: Mat3Fx = Mat3Fx::from_mat4(&uniforms.model_matrix).transpose().inverse();
    let transformed_normal: Vec3Fx = normal_matrix.mul_vec3(vertex.normal);
    Vertex {
        position: vertex.position,
        normal: vertex.normal,
        tex_coords: vertex.tex_coords,
        color: vertex.color,
        transformed_position: Vec3Fx::new(screen.x, screen.y, screen.z),
        transformed_normal,
    }
}

/// Stormy ocean world: cloud layer thresholded over a darkened sky, with a
/// lightning flash when a detail-noise storm peak and the frame's flash
/// phase coincide.
pub open spec fn spec_kamino_shader(fragment: Fragment, uniforms: Uniforms) -> Color {
    let x = fragment.vertex_position.x as int;
    let y = fragment.vertex_position.y as int;
    let t = spec_fx_mul(spec_time_fx(uniforms.time), 52429);
    let nv = spec_noise2(
        uniforms.noise.seed,
        spec_fx_add(spec_fx_add(spec_fx_mul(x, 65536000), 6553600), t),
        spec_fx_add(spec_fx_mul(y, 65536000), 6553600),
    );
    let dv = spec_noise2(
        uniforms.noise.seed,
        spec_fx_add(spec_fx_add(spec_fx_mul(x, 131072000), 6553600), t),
        spec_fx_add(spec_fx_mul(y, 131072000), 6553600),
    );
    let storm = spec_fx_add(spec_fx_mul(dv, FX_HALF as int), FX_HALF as int);
    let lightning = spec_fx_mul(spec_fx_sin(spec_time_fx(uniforms.time)), 655360);
    let cloud0 = spec_color_scale(Color { r: 144, g: 144, b: 144 }, FX_HALF as int);
    let cloud = if storm > 45875 && lightning > 58982 {
        spec_color_scale(cloud0, 131072)
    } else {
        cloud0
    };
    let stormy_sky = spec_color_scale(
        Color { r: 0, g: 61, b: 102 },
        spec_fx_sub(FX_ONE as int, spec_fx_mul(storm, FX_HALF as int)),
    );
    let noise_color = if nv > 19661 {
        cloud
    } else {
        stormy_sky
    };
    spec_color_scale(noise_color, fragment.intensity as int)
}

pub fn kamino_shader(fragment: &Fragment, uniforms: &Uniforms) -> (c: Color)
    requires
        fragment.intensity >= 0,
    ensures
        c == spec_kamino_shader(*fragment, *uniforms),
{
    let x: i64 = fragment.vertex_position.x;
    let y: i64 = fragment.vertex_position.y;
    let t: i64 = fx_mul(time_fx(uniforms.time), 52429);
    let nv: i64 = uniforms.noise.get_noise_2d(
        fx_add(fx_add(fx_mul(x, 65536000), 6553600), t),
        fx_add(fx_mul(y, 65536000), 6553600),
    );
    let dv: i64 = uniforms.noise.get_noise_2d(
        fx_add(fx_add(fx_mul(x, 131072000), 6553600), t),
        fx_add(fx_mul(y, 131072000), 6553600),
    );
    proof {
        assert(-32768 * 65536 <= (dv as int) * (FX_HALF as int) <= 32768 * 65536)
            by (nonlinear_arith)
            requires
                -65536 <= dv as int <= 65536,
        ;
        lemma_fx_mul_bounded(dv as int, FX_HALF as int, 32768);
    }
    let storm: i64 = fx_add(fx_mul(dv, FX_HALF), FX_HALF);
    proof {
        assert(0 <= (storm as int) * (FX_HALF as int) <= 32768 * 65536) by (nonlinear_arith)
            requires
                0 <= storm as int <= 65536,
        ;
        lemma_fx_mul_bounded(storm as int, FX_HALF as int, 32768);
    }
    let lightning: i64 = fx_mul(fx_sin(time_fx(uniforms.time)), 655360);
    let mut cloud: Color = Color::new(144, 144, 144).scale(FX_HALF);
    if storm > 45875 && lightning > 58982 {
        cloud = cloud.scale(131072);
    }
    let stormy_sky: Color = Color::new(0, 61, 102).scale(fx_sub(FX_ONE, fx_mul(storm, FX_HALF)));
    let noise_color: Color = if nv > 19661 {
        cloud
    } else {
        stormy_sky
    };
    noise_color.scale(fragment.intensity)
}

/// The star: two pulsating noise octaves blended between a dark and a bright
/// palette, brightened toward the disc center by a quadratic falloff.
pub open spec fn spec_sol_shader(fragment: Fragment, uniforms: Uniforms) -> Color {
    let px = fragment.vertex_position.x as int;
    let py = fragment.vertex_position.y as int;
    let pz = fragment.depth as int;
    let t = spec_fx_mul(spec_time_fx(uniforms.time), 655);
    let pulsate = spec_fx_mul(spec_fx_sin(spec_fx_mul(t, 13107)), FX_HALF as int);
    let n1 = spec_noise3(
        uniforms.noise.seed,
        spec_fx_mul(px, 65536000),
        spec_fx_mul(py, 65536000),
        spec_fx_mul(spec_fx_add(pz, pulsate), 65536000),
    );
    let n2 = spec_noise3(
        uniforms.noise.seed,
        spec_fx_mul(spec_fx_add(px, 65536000), 65536000),
        spec_fx_mul(spec_fx_add(py, 65536000), 65536000),
        spec_fx_mul(spec_fx_add(spec_fx_add(pz, 65536000), pulsate), 65536000),
    );
    let nv = spec_fx_mul(spec_fx_add(n1, n2), FX_HALF as int);
    let base = spec_color_lerp(Color { r: 255, g: 51, b: 0 }, Color { r: 255, g: 255, b: 204 }, nv);
    let dist = spec_v3(px, py, 0).spec_norm();
    let falloff_base = spec_fx_sub(
        FX_ONE as int,
        spec_clamp(spec_fx_div(dist, FX_HALF as int), 0, FX_ONE as int),
    );
    let falloff = spec_fx_mul(falloff_base, falloff_base);
    let brightened = spec_color_scale(
        base,
        spec_fx_add(FX_ONE as int, spec_fx_mul(falloff, 131072)),
    );
    spec_color_scale(brightened, fragment.intensity as int)
}

pub fn sol_shader(fragment: &Fragment, uniforms: &Uniforms) -> (c: Color)
    requires
        fragment.intensity >= 0,
    ensures
        c == spec_sol_shader(*fragment, *uniforms),
{
    let px: i64 = fragment.vertex_position.x;
    let py: i64 = fragment.vertex_position.y;
    let pz: i64 = fragment.depth;
    let t: i64 = fx_mul(time_fx(uniforms.time), 655);
    let pulsate: i64 = fx_mul(fx_sin(fx_mul(t, 13107)), FX_HALF);
    let n1: i64 = uniforms.noise.get_noise_3d(
        fx_mul(px, 65536000),
        fx_mul(py, 65536000),
        fx_mul(fx_add(pz, pulsate), 65536000),
    );
    let n2: i64 = uniforms.noise.get_noise_3d(
        fx_mul(fx_add(px, 65536000), 65536000),
        fx_mul(fx_add(py, 65536000), 65536000),
        fx_mul(fx_add(fx_add(pz, 65536000), pulsate), 65536000),
    );
    let nv: i64 = fx_mul(fx_add(n1, n2), FX_HALF);
    let bright_color: Color = Color::new(255, 255, 204);
    let dark_color: Color = Color::new(255, 51, 0);
    let base: Color = dark_color.lerp(&bright_color, nv);
    let dist: i64 = Vec3Fx::new(px, py, 0).norm_v();
    let falloff_base: i64 = fx_sub(FX_ONE, fx_clamp(fx_div(dist, FX_HALF), 0, FX_ONE));
    proof {
        assert(0 <= (falloff_base as int) * (falloff_base as int) <= 65536 * 65536)
            by (nonlinear_arith)
            requires
                0 <= falloff_base as int <= 65536,
        ;
        lemma_fx_mul_bounded(falloff_base as int, falloff_base as int, 65536);
    }
    let falloff: i64 = fx_mul(falloff_base, falloff_base);
    proof {
        assert(0 <= (falloff as int) * 131072 <= 131072 * 65536) by (nonlinear_arith)
            requires
                0 <= falloff as int <= 65536,
        ;
        lemma_fx_mul_bounded(falloff as int, 131072, 131072);
    }
    let brightened: Color = base.scale(fx_add(FX_ONE, fx_mul(falloff, 131072)));
    brightened.scale(fragment.intensity)
}

/// Ice world: ice thresholded over snow, with a slight noise-driven
/// brightness variation.
pub open spec fn spec_hoth_shader(fragment: Fragment, uniforms: Uniforms) -> Color {
    let px = fragment.vertex_position.x as int;
    let py = fragment.vertex_position.y as int;
    let pz = fragment.depth as int;
    let t = spec_fx_mul(spec_time_fx(uniforms.time), 655);
    let nv = spec_noise3(
        uniforms.noise.seed,
        spec_fx_mul(px, 32768000),
        spec_fx_mul(py, 32768000),
        spec_fx_add(spec_fx_mul(pz, 32768000), t),
    );
    let base = if nv > 19661 {
        Color { r: 173, g: 216, b: 230 }
    } else {
        Color { r: 255, g: 255, b: 255 }
    };
    let variation = spec_fx_add(58982, spec_fx_mul(nv, 6554));
    spec_color_scale(spec_color_scale(base, fragment.intensity as int), variation)
}

pub fn hoth_shader(fragment: &Fragment, uniforms: &Uniforms) -> (c: Color)
    requires
        fragment.intensity >= 0,
    ensures
        c == spec_hoth_shader(*fragment, *uniforms),
{
    let px: i64 = fragment.vertex_position.x;
    let py: i64 = fragment.vertex_position.y;
    let pz: i64 = fragment.depth;
    let t: i64 = fx_mul(time_fx(uniforms.time), 655);
    let nv: i64 = uniforms.noise.get_noise_3d(
        fx_mul(px, 32768000),
        fx_mul(py, 32768000),
        fx_add(fx_mul(pz, 32768000), t),
    );
    let snow_color: Color = Color::new(255, 255, 255);
    let ice_color: Color = Color::new(173, 216, 230);
    let base: Color = if nv > 19661 {
        ice_color
    } else {
        snow_color
    };
    proof {
        assert(-6554 * 65536 <= (nv as int) * 6554 <= 6554 * 65536) by (nonlinear_arith)
            requires
                -65536 <= nv as int <= 65536,
        ;
        lemma_fx_mul_bounded(nv as int, 6554, 6554);
    }
    let variation: i64 = fx_add(58982, fx_mul(nv, 6554));
    base.scale(fragment.intensity).scale(variation)
}

/// Forest world: terrain under a vegetation threshold, then three green
/// bands blended by how far the noise sits above each band's floor, with a
/// slight brightness variation.
pub open spec fn spec_kashyyyk_shader(fragment: Fragment, uniforms: Uniforms) -> Color {
    let px = fragment.vertex_position.x as int;
    let py = fragment.vertex_position.y as int;
    let pz = fragment.depth as int;
    let t = spec_fx_mul(spec_time_fx(uniforms.time), 655);
    let nv = spec_noise3(
        uniforms.noise.seed,
        spec_fx_mul(px, 19660800),
        spec_fx_mul(py, 19660800),
        spec_fx_add(spec_fx_mul(pz, 19660800), t),
    );
    let light_green = Color { r: 144, g: 238, b: 144 };
    let medium_green = Color { r: 34, g: 139, b: 34 };
    let dark_green = Color { r: 139, g: 69, b: 19 };
    let terrain = Color { r: 0, g: 100, b: 0 };
    let vegetation = if nv > 19661 {
        if nv > 45875 {
            spec_color_lerp(dark_green, medium_green, spec_fx_mul(spec_fx_sub(nv, 45875), 196608))
        } else if nv > 32768 {
            spec_color_lerp(medium_green, light_green, spec_fx_mul(spec_fx_sub(nv, 32768), 131072))
        } else {
            light_green
        }
    } else {
        terrain
    };
    let variation = spec_fx_add(58982, spec_fx_mul(nv, 6554));
    spec_color_scale(spec_color_scale(vegetation, fragment.intensity as int), variation)
}

pub fn kashyyyk_shader(fragment: &Fragment, uniforms: &Uniforms) -> (c: Color)
    requires
        fragment.intensity >= 0,
    ensures
        c == spec_kashyyyk_shader(*fragment, *uniforms),
{
    let px: i64 = fragment.vertex_position.x;
    let py: i64 = fragment.vertex_position.y;
    let pz: i64 = fragment.depth;
    let t: i64 = fx_mul(time_fx(uniforms.time), 655);
    let nv: i64 = uniforms.noise.get_noise_3d(
        fx_mul(px, 19660800),
        fx_mul(py, 19660800),
        fx_add(fx_mul(pz, 19660800), t),
    );
    let light_green: Color = Color::new(144, 238, 144);
    let medium_green: Color = Color::new(34, 139, 34);
    let dark_green: Color = Color::new(139, 69, 19);
    let terrain_color: Color = Color::new(0, 100, 0);
    let vegetation_color: Color = if nv > 19661 {
        if nv > 45875 {
            dark_green.lerp(&medium_green, fx_mul(fx_sub(nv, 45875), 196608))
        } else if nv > 32768 {
            medium_green.lerp(&light_green, fx_mul(fx_sub(nv, 32768), 131072))
        } else {
            light_green
        }
    } else {
        terrain_color
    };
    proof {
        assert(-6554 * 65536 <= (nv as int) * 6554 <= 6554 * 65536) by (nonlinear_arith)
            requires
                -65536 <= nv as int <= 65536,
        ;
        lemma_fx_mul_bounded(nv as int, 6554, 6554);
    }
    let variation: i64 = fx_add(58982, fx_mul(nv, 6554));
    vegetation_color.scale(fragment.intensity).scale(variation)
}

/// Banded gas giant: a band blend where band noise is high, a storm color
/// where storm noise peaks, the base color elsewhere.
pub open spec fn spec_gaseoso_shader(fragment: Fragment, uniforms: Uniforms) -> Color {
    let x = fragment.vertex_position.x as int;
    let y = fragment.vertex_position.y as int;
    let t = spec_fx_mul(spec_time_fx(uniforms.time), 6554);
    let base = Color { r: 128, g: 0, b: 0 };
    let band_color = Color { r: 255, g: 204, b: 153 };
    let storm_color = Color { r: 192, g: 57, b: 43 };
    let nv = spec_noise2(
        uniforms.noise.seed,
        spec_fx_add(spec_fx_mul(x, 65536000), 3276800),
        spec_fx_add(spec_fx_add(spec_fx_mul(y, 32768000), 3276800), t),
    );
    let band_intensity = spec_fx_add(spec_fx_mul(nv, FX_HALF as int), FX_HALF as int);
    let sn = spec_noise2(
        uniforms.noise.seed,
        spec_fx_add(spec_fx_mul(x, 98304000), 3276800),
        spec_fx_add(spec_fx_add(spec_fx_mul(y, 98304000), 3276800), t),
    );
    let storm_intensity = spec_fx_add(spec_fx_mul(sn, FX_HALF as int), FX_HALF as int);
    let color = if band_intensity > 39322 {
        spec_color_lerp(base, band_color, band_intensity)
    } else if storm_intensity > 45875 {
        storm_color
    } else {
        base
    };
    spec_color_scale(color, fragment.intensity as int)
}

pub fn gaseoso_shader(fragment: &Fragment, uniforms: &Uniforms) -> (c: Color)
    requires
        fragment.intensity >= 0,
    ensures
        c == spec_gaseoso_shader(*fragment, *uniforms),
{
    let x: i64 = fragment.vertex_position.x;
    let y: i64 = fragment.vertex_position.y;
    let t: i64 = fx_mul(time_fx(uniforms.time), 6554);
    let base_color: Color = Color::new(128, 0, 0);
    let band_color: Color = Color::new(255, 204, 153);
    let storm_color: Color = Color::new(192, 57, 43);
    let nv: i64 = uniforms.noise.get_noise_2d(
        fx_add(fx_mul(x, 65536000), 3276800),
        fx_add(fx_add(fx_mul(y, 32768000), 3276800), t),
    );
    let band_intensity: i64 = fx_add(fx_mul(nv, FX_HALF), FX_HALF);
    let sn: i64 = uniforms.noise.get_noise_2d(
        fx_add(fx_mul(x, 98304000), 3276800),
        fx_add(fx_add(fx_mul(y, 98304000), 3276800), t),
    );
    let storm_intensity: i64 = fx_add(fx_mul(sn, FX_HALF), FX_HALF);
    let color: Color = if band_intensity > 39322 {
        base_color.lerp(&band_color, band_intensity)
    } else if storm_intensity > 45875 {
        storm_color
    } else {
        base_color
    };
    color.scale(fragment.intensity)
}

/// Artificial sphere: a periodic grid of panel lines and one circular
/// cutout, drawn from deterministic geometry rather than noise.
pub open spec fn spec_death_star_shader(fragment: Fragment, uniforms: Uniforms) -> Color {
    let x = fragment.vertex_position.x as int;
    let y = fragment.vertex_position.y as int;
    let fract_x = spec_fx_abs(spec_fx_div(x, 6554)) % (FX_ONE as int);
    let fract_y = spec_fx_abs(spec_fx_div(y, 6554)) % (FX_ONE as int);
    let in_vertical_line = fract_x < 1311;
    let in_horizontal_line = fract_y < 1311;
    let dist = spec_v3(x, spec_fx_sub(y, 11141), 0).spec_norm();
    let in_circle = dist <= 10486;
    let final_color = if in_circle {
        Color { r: 64, g: 64, b: 64 }
    } else if in_vertical_line || in_horizontal_line {
        Color { r: 128, g: 128, b: 128 }
    } else {
        Color { r: 102, g: 102, b: 102 }
    };
    spec_color_scale(final_color, fragment.intensity as int)
}

pub fn death_star_shader(fragment: &Fragment, uniforms: &Uniforms) -> (c: Color)
    requires
        fragment.intensity >= 0,
    ensures
        c == spec_death_star_shader(*fragment, *uniforms),
{
    let x: i64 = fragment.vertex_position.x;
    let y: i64 = fragment.vertex_position.y;
    let (_qx, fract_x): (i64, i64) = fx_floor_rem(fx_abs(fx_div(x, 6554)), FX_ONE);
    let (_qy, fract_y): (i64, i64) = fx_floor_rem(fx_abs(fx_div(y, 6554)), FX_ONE);
    let in_vertical_line: bool = fract_x < 1311;
    let in_horizontal_line: bool = fract_y < 1311;
    let dist: i64 = Vec3Fx::new(x, fx_sub(y, 11141), 0).norm_v();
    let in_circle: bool = dist <= 10486;
    let line_color: Color = Color::new(128, 128, 128);
    let circle_color: Color = Color::new(64, 64, 64);
    let background_color: Color = Color::new(102, 102, 102);
    let final_color: Color = if in_circle {
        circle_color
    } else if in_vertical_line || in_horizontal_line {
        line_color
    } else {
        background_color
    };
    final_color.scale(fragment.intensity)
}

/// Desert world: mountains blended over rock where base noise is high, a
/// flat land color where the drifting continental noise is low, and a
/// rock-blended plain elsewhere.
pub open spec fn spec_tatooine_shader(fragment: Fragment, uniforms: Uniforms) -> Color {
    let x = fragment.vertex_position.x as int;
    let y = fragment.vertex_position.y as int;
    let tf = spec_fx_mul(spec_time_fx(uniforms.time), 655);
    let base_rock = Color { r: 139, g: 69, b: 19 };
    let mountain = Color { r: 105, g: 105, b: 105 };
    let plain = Color { r: 205, g: 133, b: 63 };
    let land = Color { r: 163, g: 163, b: 117 };
    let base_noise = spec_noise2(
        uniforms.noise.seed,
        spec_fx_add(spec_fx_mul(x, 32768000), tf),
        spec_fx_add(spec_fx_mul(y, 32768000), tf),
    );
    let mountain_noise = spec_noise2(
        uniforms.noise.seed,
        spec_fx_add(spec_fx_mul(x, 65536000), spec_fx_mul(tf, FX_HALF as int)),
        spec_fx_add(spec_fx_mul(y, 65536000), spec_fx_mul(tf, FX_HALF as int)),
    );
    let continent_shift = spec_fx_mul(
        spec_fx_sin(spec_fx_mul(spec_time_fx(uniforms.time), 328)),
        6554,
    );
    let continental_noise = spec_noise2(
        uniforms.noise.seed,
        spec_fx_mul(spec_fx_add(x, continent_shift), 52428800),
        spec_fx_mul(spec_fx_add(y, continent_shift), 52428800),
    );
    let final_color = if base_noise > 39322 {
        spec_color_lerp(mountain, base_rock, mountain_noise)
    } else if continental_noise < -19661 {
        land
    } else {
        spec_color_lerp(plain, base_rock, continental_noise)
    };
    spec_color_scale(final_color, fragment.intensity as int)
}

pub fn tatooine_shader(fragment: &Fragment, uniforms: &Uniforms) -> (c: Color)
    requires
        fragment.intensity >= 0,
    ensures
        c == spec_tatooine_shader(*fragment, *uniforms),
{
    let x: i64 = fragment.vertex_position.x;
    let y: i64 = fragment.vertex_position.y;
    let tf: i64 = fx_mul(time_fx(uniforms.time), 655);
    let base_rock_color: Color = Color::new(139, 69, 19);
    let mountain_color: Color = Color::new(105, 105, 105);
    let plain_color: Color = Color::new(205, 133, 63);
    let land_color: Color = Color::new(163, 163, 117);
    let base_noise: i64 = uniforms.noise.get_noise_2d(
        fx_add(fx_mul(x, 32768000), tf),
        fx_add(fx_mul(y, 32768000), tf),
    );
    let mountain_noise: i64 = uniforms.noise.get_noise_2d(
        fx_add(fx_mul(x, 65536000), fx_mul(tf, FX_HALF)),
        fx_add(fx_mul(y, 65536000), fx_mul(tf, FX_HALF)),
    );
    let continent_shift: i64 = fx_mul(fx_sin(fx_mul(time_fx(uniforms.time), 328)), 6554);
    let continental_noise: i64 = uniforms.noise.get_noise_2d(
        fx_mul(fx_add(x, continent_shift), 52428800),
        fx_mul(fx_add(y, continent_shift), 52428800),
    );
    let final_color: Color = if base_noise > 39322 {
        mountain_color.lerp(&base_rock_color, mountain_noise)
    } else if continental_noise < -19661 {
        land_color
    } else {
        plain_color.lerp(&base_rock_color, continental_noise)
    };
    final_color.scale(fragment.intensity)
}

/// The dispatch-by-tag path: selects a shading function by integer index;
/// an unknown tag yields black.
pub open spec fn spec_fragment_shader(fragment: Fragment, uniforms: Uniforms, current_shader: u8) -> Color {
    if current_shader == 0 {
        spec_tatooine_shader(fragment, uniforms)
    } else if current_shader == 1 {
        spec_death_star_shader(fragment, uniforms)
    } else if current_shader == 2 {
        spec_gaseoso_shader(fragment, uniforms)
    } else if current_shader == 3 {
        spec_kamino_shader(fragment, uniforms)
    } else if current_shader == 4 {
        spec_sol_shader(fragment, uniforms)
    } else if current_shader == 5 {
        spec_hoth_shader(fragment, uniforms)
    } else if current_shader == 6 {
        spec_kashyyyk_shader(fragment, uniforms)
    } else {
        Color { r: 0, g: 0, b: 0 }
    }
}

pub fn fragment_shader(fragment: &Fragment, uniforms: &Uniforms, current_shader: u8) -> (c: Color)
    requires
        fragment.intensity >= 0,
    ensures
        c == spec_fragment_shader(*fragment, *uniforms, current_shader),
{
    match current_shader {
        0 => tatooine_shader(fragment, uniforms),
        1 => death_star_shader(fragment, uniforms),
        2 => gaseoso_shader(fragment, uniforms),
        3 => kamino_shader(fragment, uniforms),
        4 => sol_shader(fragment, uniforms),
        5 => hoth_shader(fragment, uniforms),
        6 => kashyyyk_shader(fragment, uniforms),
        _ => Color::black(),
    }
}

} // verus!
