//! The bouncing point: exact steps, clamping to the bounds, and the
//! reflection of the heading at each edge.

use rs_lines::point::Point;

#[test]
fn step_without_bounce_moves_along_heading() {
    let mut p = Point { x: 6553600, y: 6553600, a: 68629, da: 100 };
    p.step_core(655360, 65536000, 65536000, 30000, -30000);
    assert_eq!(p, Point { x: 6881270, y: 7120390, a: 68729, da: 100 });
}

#[test]
fn step_reflects_at_right_edge() {
    // Heading straight right into the edge: the position clamps to the edge
    // and the heading becomes pi minus the drifted heading.
    let mut p = Point::new(6500000, 0, 0);
    p.step_core(655360, 6553600, 6553600, 30000, -31000);
    assert_eq!(p, Point { x: 6553600, y: 0, a: 205887, da: 6286 });
}

#[test]
fn step_reflects_at_left_edge() {
    // Heading straight left (pi) from near the left edge.
    let mut p = Point::new(100000, 3000000, 205887);
    p.step_core(655360, 6553600, 6553600, 30000, -31000);
    // dx is -655350, so the position clamps to 0; the heading reflects to
    // pi - pi = 0 and picks up the drift of the first sample.
    assert_eq!(p.x, 0);
    assert_eq!(p.a, 0);
    assert_eq!(p.da, 6286);
}

#[test]
fn step_reflects_at_top_edge() {
    // Heading straight down (three half-turns) near the top edge: y clamps
    // to 0 and the heading negates, picking up the second sample's drift.
    let mut p = Point::new(1000000, 100000, 308831);
    p.step_core(655360, 6553600, 6553600, 30000, -31000);
    assert_eq!(p, Point { x: 1000010, y: 0, a: 102943, da: 6936 });
}

#[test]
fn positions_stay_inside_bounds_for_many_steps() {
    let w: i64 = 3276800;
    let h: i64 = 1638400;
    let mut p = Point::new(0, 0, 6554);
    let mut i: u32 = 0;
    while i < 500 {
        p.step(655360, w, h);
        assert!(0 <= p.x && p.x <= w);
        assert!(0 <= p.y && p.y <= h);
        i += 1;
    }
}

#[test]
fn default_point_rests_at_origin() {
    let p = Point::default();
    assert_eq!(p, Point { x: 0, y: 0, a: 0, da: 0 });
}
