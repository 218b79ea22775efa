//! The generator end to end: configuration checks, initial placement,
//! ticking in each mode, and the mode switch mid-stream.

use rs_lines::generator::{ConfigError, DriftSamples, LineGenerator};
use rs_lines::history::Shape;
use rs_lines::mode::Mode;
use rs_lines::point::Point;

const W: i64 = 32768000;
const H: i64 = 19660800;

fn fresh(capacity: u32) -> LineGenerator {
    let mut g = LineGenerator::new_core(10, 16, capacity, Mode::Lines, 0, 0).unwrap();
    g.place_points(W, H);
    g
}

#[test]
fn configuration_rejects_out_of_range_options() {
    assert!(matches!(
        LineGenerator::new(101, 16, 64, Mode::Lines),
        Err(ConfigError::InvalidStep)
    ));
    assert!(matches!(
        LineGenerator::new(10, 0, 64, Mode::Lines),
        Err(ConfigError::InvalidBlendSteps)
    ));
    assert!(matches!(
        LineGenerator::new(10, 129, 64, Mode::Lines),
        Err(ConfigError::InvalidBlendSteps)
    ));
    assert!(matches!(
        LineGenerator::new(10, 16, 0, Mode::Lines),
        Err(ConfigError::InvalidCapacity)
    ));
    assert!(matches!(
        LineGenerator::new(10, 16, 257, Mode::Lines),
        Err(ConfigError::InvalidCapacity)
    ));
    assert!(LineGenerator::new(100, 128, 256, Mode::Curves).is_ok());
}

#[test]
fn configuration_defaults_are_accepted_and_readable() {
    let g = LineGenerator::new(10, 16, 64, Mode::Lines).unwrap();
    assert_eq!(g.step(), 10);
    assert_eq!(g.blend_steps(), 16);
    assert_eq!(g.capacity(), 64);
    assert!(matches!(g.mode(), Mode::Lines));
}

#[test]
fn reconfiguration_rejects_and_accepts_exactly_as_construction() {
    let mut g = fresh(8);
    assert_eq!(g.set_step(101), Err(ConfigError::InvalidStep));
    assert_eq!(g.step(), 10);
    assert_eq!(g.set_step(25), Ok(()));
    assert_eq!(g.step(), 25);
    assert_eq!(g.set_blend_steps(0), Err(ConfigError::InvalidBlendSteps));
    assert_eq!(g.blend_steps(), 16);
    assert_eq!(g.set_blend_steps(32), Ok(()));
    assert_eq!(g.blend_steps(), 32);
}

#[test]
fn initial_placement_sits_on_the_edges_and_thirds() {
    let g = fresh(8);
    assert_eq!(g.p0, Point { x: 0, y: H / 3, a: 6554, da: 0 });
    assert_eq!(g.p1, Point { x: W, y: H / 6, a: 397356, da: 0 });
    assert_eq!(g.p2, Point { x: W / 3, y: 0, a: 13107, da: 0 });
    assert_eq!(g.p3, Point { x: W / 3, y: H, a: 398667, da: 0 });
}

#[test]
fn ticking_inserts_one_primitive_per_tick() {
    let mut g = fresh(8);
    let mut i: u32 = 0;
    while i < 5 {
        g.tick(W, H);
        i += 1;
    }
    assert_eq!(g.render_list().len(), 5);
}

#[test]
fn points_stay_inside_the_bounds_for_many_ticks() {
    let w: i64 = 3276800;
    let h: i64 = 1638400;
    let mut g = fresh(8);
    g.place_points(w, h);
    let mut i: u32 = 0;
    while i < 200 {
        g.tick(w, h);
        assert!(0 <= g.p0.x && g.p0.x <= w && 0 <= g.p0.y && g.p0.y <= h);
        assert!(0 <= g.p1.x && g.p1.x <= w && 0 <= g.p1.y && g.p1.y <= h);
        assert!(0 <= g.p2.x && g.p2.x <= w && 0 <= g.p2.y && g.p2.y <= h);
        assert!(0 <= g.p3.x && g.p3.x <= w && 0 <= g.p3.y && g.p3.y <= h);
        i += 1;
    }
}

#[test]
fn each_mode_draws_its_shape() {
    let mut g = fresh(8);
    g.tick(W, H);
    g.set_mode(Mode::Triangles);
    g.tick(W, H);
    g.set_mode(Mode::Curves);
    g.tick(W, H);
    let out = g.render_list();
    assert!(matches!(out[0].shape, Shape::Line { .. }));
    assert!(matches!(out[1].shape, Shape::Triangle { .. }));
    assert!(matches!(out[2].shape, Shape::Curve { .. }));
}

#[test]
fn mode_switch_mid_stream_keeps_the_buffered_history() {
    // Three line-mode ticks, a switch, one more tick: the history holds
    // three lines followed by one triangle, in insertion order.
    let mut g = fresh(8);
    let mut i: u32 = 0;
    while i < 3 {
        g.tick(W, H);
        i += 1;
    }
    g.set_mode(Mode::Triangles);
    g.tick(W, H);
    let out = g.render_list();
    assert_eq!(out.len(), 4);
    assert!(matches!(out[0].shape, Shape::Line { .. }));
    assert!(matches!(out[1].shape, Shape::Line { .. }));
    assert!(matches!(out[2].shape, Shape::Line { .. }));
    assert!(matches!(out[3].shape, Shape::Triangle { .. }));
}

#[test]
fn deterministic_tick_is_reproducible() {
    let samples = DriftSamples {
        s0x: 30000,
        s0y: -30000,
        s1x: 20000,
        s1y: -20000,
        s2x: 10000,
        s2y: -10000,
        s3x: 0,
        s3y: 34314,
    };
    let mut g1 = fresh(8);
    let mut g2 = fresh(8);
    g1.tick_with(W, H, 1000, 2000, samples);
    g2.tick_with(W, H, 1000, 2000, samples);
    assert_eq!(g1.p0, g2.p0);
    assert_eq!(g1.p1, g2.p1);
    assert_eq!(g1.p2, g2.p2);
    assert_eq!(g1.p3, g2.p3);
    assert_eq!(g1.blender, g2.blender);
    assert_eq!(g1.render_list(), g2.render_list());
    // The inserted primitive carries the blended color of this tick.
    let out = g1.render_list();
    assert_eq!(g1.blender.a, 62);
    assert_eq!(g1.blender.z, 125);
    assert_eq!(out[0].b, rs_lines::fixed::cos_fp(125));
}

#[test]
fn random_draws_stay_in_range_and_vary() {
    // The color targets come from the random generator; over many fresh
    // generators the initial angles stay inside their ranges and are not all
    // the same value.
    let mut seen_distinct = false;
    let mut first: i64 = 0;
    let mut i: u32 = 0;
    while i < 100 {
        let g = LineGenerator::new(10, 16, 8, Mode::Lines).unwrap();
        assert!(0 <= g.blender.a && g.blender.a < 102944);
        assert!(0 <= g.blender.z && g.blender.z < 205887);
        if i == 0 {
            first = g.blender.a;
        } else if g.blender.a != first {
            seen_distinct = true;
        }
        i += 1;
    }
    assert!(seen_distinct);
}
