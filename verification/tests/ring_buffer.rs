//! The primitive history: fill-up, overwrite, and the oldest-to-newest
//! replay order.

use rs_lines::history::{Primitive, PrimitiveHistory, Shape};

fn tagged(tag: i64) -> Primitive {
    Primitive { shape: Shape::Line { x0: tag, y0: 0, x1: 0, y1: 0 }, r: 0, g: 0, b: 0 }
}

#[test]
fn empty_history_renders_nothing() {
    let h = PrimitiveHistory::new(5);
    assert_eq!(h.render_list().len(), 0);
    assert_eq!(h.capacity(), 5);
}

#[test]
fn partial_fill_renders_in_insertion_order() {
    let mut h = PrimitiveHistory::new(5);
    h.insert(tagged(1));
    h.insert(tagged(2));
    h.insert(tagged(3));
    assert_eq!(h.render_list(), vec![tagged(1), tagged(2), tagged(3)]);
}

#[test]
fn exact_fill_renders_each_once_oldest_first() {
    let mut h = PrimitiveHistory::new(4);
    let mut i: i64 = 1;
    while i <= 4 {
        h.insert(tagged(i));
        i += 1;
    }
    assert_eq!(h.render_list(), vec![tagged(1), tagged(2), tagged(3), tagged(4)]);
}

#[test]
fn overwrite_keeps_only_the_most_recent() {
    let mut h = PrimitiveHistory::new(3);
    let mut i: i64 = 1;
    while i <= 5 {
        h.insert(tagged(i));
        i += 1;
    }
    assert_eq!(h.render_list(), vec![tagged(3), tagged(4), tagged(5)]);
}

#[test]
fn six_inserts_at_capacity_four_leave_the_last_four() {
    let mut h = PrimitiveHistory::new(4);
    let mut i: i64 = 1;
    while i <= 6 {
        h.insert(tagged(i));
        i += 1;
    }
    assert_eq!(h.render_list(), vec![tagged(3), tagged(4), tagged(5), tagged(6)]);
}

#[test]
fn capacity_one_keeps_the_newest() {
    let mut h = PrimitiveHistory::new(1);
    h.insert(tagged(1));
    h.insert(tagged(2));
    h.insert(tagged(3));
    assert_eq!(h.render_list(), vec![tagged(3)]);
}

#[test]
fn largest_capacity_wraps_correctly() {
    let mut h = PrimitiveHistory::new(256);
    let mut i: i64 = 0;
    while i < 300 {
        h.insert(tagged(i));
        i += 1;
    }
    let out = h.render_list();
    assert_eq!(out.len(), 256);
    assert_eq!(out[0], tagged(44));
    assert_eq!(out[255], tagged(299));
}
