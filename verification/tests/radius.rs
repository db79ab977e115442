use iced_border::radius::{bottom, bottom_left, bottom_right, left, radius, right, top, top_left, top_right};
use iced_border::Radius;

fn corners(r: Radius<f32>) -> [f32; 4] {
    <[f32; 4]>::from(r)
}

#[test]
fn new_sets_every_corner() {
    assert_eq!(corners(Radius::new(3.5)), [3.5, 3.5, 3.5, 3.5]);
    assert_eq!(radius::<f32, _>(2.0f32), Radius::new(2.0));
    assert_eq!(Radius::from(4.0f32), Radius::new(4.0));
}

#[test]
fn default_is_zero_everywhere() {
    assert_eq!(corners(Radius::<f32>::default()), [0.0; 4]);
}

#[test]
fn single_corner_setters_write_one_position() {
    let r = Radius::new(1.0f32);
    assert_eq!(corners(r.top_left(9.0)), [9.0, 1.0, 1.0, 1.0]);
    assert_eq!(corners(r.top_right(9.0)), [1.0, 9.0, 1.0, 1.0]);
    assert_eq!(corners(r.bottom_right(9.0)), [1.0, 1.0, 9.0, 1.0]);
    assert_eq!(corners(r.bottom_left(9.0)), [1.0, 1.0, 1.0, 9.0]);
}

#[test]
fn pair_setters_write_two_positions() {
    let r = Radius::new(1.0f32);
    assert_eq!(corners(r.top(5.0)), [5.0, 5.0, 1.0, 1.0]);
    assert_eq!(corners(r.bottom(5.0)), [1.0, 1.0, 5.0, 5.0]);
    assert_eq!(corners(r.left(5.0)), [5.0, 1.0, 1.0, 5.0]);
    assert_eq!(corners(r.right(5.0)), [1.0, 5.0, 5.0, 1.0]);
}

#[test]
fn free_constructors_start_from_zero() {
    assert_eq!(corners(top_left(16.0f32)), [16.0, 0.0, 0.0, 0.0]);
    assert_eq!(corners(top_right(16.0f32)), [0.0, 16.0, 0.0, 0.0]);
    assert_eq!(corners(bottom_right(16.0f32)), [0.0, 0.0, 16.0, 0.0]);
    assert_eq!(corners(bottom_left(16.0f32)), [0.0, 0.0, 0.0, 16.0]);
    assert_eq!(corners(top(16.0f32)), [16.0, 16.0, 0.0, 0.0]);
    assert_eq!(corners(bottom(16.0f32)), [0.0, 0.0, 16.0, 16.0]);
    assert_eq!(corners(left(16.0f32)), [16.0, 0.0, 0.0, 16.0]);
    assert_eq!(corners(right(16.0f32)), [0.0, 16.0, 16.0, 0.0]);
}

#[test]
fn free_constructors_match_default_builders() {
    let d = Radius::<f32>::default();
    assert_eq!(top_left(2.0f32), d.top_left(2.0));
    assert_eq!(right(2.0f32), d.right(2.0));
    assert_eq!(Radius::default().top_left(16.0f32).bottom_right(16.0), Radius {
        top_left: 16.0,
        top_right: 0.0,
        bottom_right: 16.0,
        bottom_left: 0.0,
    });
}

#[test]
fn pairs_are_two_corner_writes() {
    let r = Radius { top_left: 1.0f32, top_right: 2.0, bottom_right: 3.0, bottom_left: 4.0 };
    assert_eq!(r.top(7.0), r.top_left(7.0).top_right(7.0));
    assert_eq!(r.bottom(7.0), r.bottom_left(7.0).bottom_right(7.0));
    assert_eq!(r.left(7.0), r.top_left(7.0).bottom_left(7.0));
    assert_eq!(r.right(7.0), r.top_right(7.0).bottom_right(7.0));
    assert_eq!(r.top(7.0).bottom(7.0), Radius::new(7.0));
    assert_eq!(r.left(7.0).right(7.0), Radius::new(7.0));
}

#[test]
fn last_write_wins_and_distinct_corners_commute() {
    let r = Radius { top_left: 1.0f32, top_right: 2.0, bottom_right: 3.0, bottom_left: 4.0 };
    assert_eq!(r.top_left(5.0).top_left(6.0), r.top_left(6.0));
    assert_eq!(r.top_left(5.0).bottom_right(6.0), r.bottom_right(6.0).top_left(5.0));
    assert_eq!(r.top_right(r.top_right), r);
}
