use bird_sim::components::{size_to_vec2, Size, Vec2};
use bird_sim::fixed::{half, saturating_sum, UNIT};
use bird_sim::timestep::FixedTimestep;
use bird_sim::viewport::{Viewport, MAX_VIEWPORT};

#[test]
fn one_unit_is_a_million_steps() {
    assert_eq!(UNIT, 1_000_000);
}

#[test]
fn half_rounds_down() {
    assert_eq!(half(0), 0);
    assert_eq!(half(7), 3);
    assert_eq!(half(8), 4);
    assert_eq!(half(-7), -4);
    assert_eq!(half(-8), -4);
    assert_eq!(half(-1), -1);
    assert_eq!(half(i64::MAX), 4_611_686_018_427_387_903);
    assert_eq!(half(i64::MIN), -4_611_686_018_427_387_904);
}

#[test]
fn sums_stop_at_the_ends_of_the_range() {
    assert_eq!(saturating_sum(2, 3), 5);
    assert_eq!(saturating_sum(-2, -3), -5);
    assert_eq!(saturating_sum(i64::MAX, 1), i64::MAX);
    assert_eq!(saturating_sum(i64::MAX, i64::MAX), i64::MAX);
    assert_eq!(saturating_sum(i64::MIN, -1), i64::MIN);
    assert_eq!(saturating_sum(i64::MIN, i64::MAX), -1);
    assert_eq!(saturating_sum(i64::MAX - 1, 1), i64::MAX);
}

#[test]
fn square_has_equal_sides() {
    assert_eq!(Size::square(30 * UNIT), Size { width: 30 * UNIT, height: 30 * UNIT });
    assert_eq!(Size::square(0), Size { width: 0, height: 0 });
    assert_eq!(Size::square(-5), Size { width: -5, height: -5 });
}

#[test]
fn size_to_vec2_puts_width_on_x_and_height_on_y() {
    assert_eq!(size_to_vec2(&Size { width: 10, height: 250 }), Vec2 { x: 10, y: 250 });
}

#[test]
fn viewport_takes_sides_from_zero_to_the_maximum() {
    let v = Viewport::new(500 * UNIT, 300 * UNIT).unwrap();
    assert_eq!(v.width(), 500 * UNIT);
    assert_eq!(v.height(), 300 * UNIT);
    assert_eq!(v.half_width(), 250 * UNIT);
    assert_eq!(v.half_height(), 150 * UNIT);
    assert!(Viewport::new(0, 0).is_some());
    assert!(Viewport::new(MAX_VIEWPORT, MAX_VIEWPORT).is_some());
    assert_eq!(Viewport::new(7, 9).unwrap().half_width(), 3);
    assert_eq!(Viewport::new(7, 9).unwrap().half_height(), 4);
}

#[test]
fn viewport_refuses_sides_out_of_range() {
    assert_eq!(Viewport::new(-1, 10), None);
    assert_eq!(Viewport::new(10, -1), None);
    assert_eq!(Viewport::new(MAX_VIEWPORT + 1, 10), None);
    assert_eq!(Viewport::new(10, MAX_VIEWPORT + 1), None);
    assert_eq!(Viewport::new(i64::MIN, i64::MAX), None);
}

#[test]
fn timestep_refuses_an_empty_interval() {
    assert_eq!(FixedTimestep::new(0), None);
}

#[test]
fn timestep_starts_with_nothing_carried_over() {
    let t = FixedTimestep::new(2_500_000).unwrap();
    assert_eq!(t.step(), 2_500_000);
    assert_eq!(t.accumulator(), 0);
}

#[test]
fn timestep_carries_the_rest_over() {
    let mut t = FixedTimestep::new(10).unwrap();
    assert_eq!(t.update(4), 0);
    assert_eq!(t.accumulator(), 4);
    assert_eq!(t.update(5), 0);
    assert_eq!(t.accumulator(), 9);
    assert_eq!(t.update(1), 1);
    assert_eq!(t.accumulator(), 0);
    assert_eq!(t.update(7), 0);
    assert_eq!(t.update(7), 1);
    assert_eq!(t.accumulator(), 4);
    assert_eq!(t.update(0), 0);
    assert_eq!(t.accumulator(), 4);
    assert_eq!(t.step(), 10);
}

#[test]
fn timestep_runs_once_for_each_whole_interval() {
    let mut t = FixedTimestep::new(10).unwrap();
    assert_eq!(t.update(35), 3);
    assert_eq!(t.accumulator(), 5);
    assert_eq!(t.update(25), 3);
    assert_eq!(t.accumulator(), 0);
}

#[test]
fn timestep_takes_the_longest_frame() {
    let mut t = FixedTimestep::new(1).unwrap();
    assert_eq!(t.update(u64::MAX), u64::MAX);
    assert_eq!(t.accumulator(), 0);
    let mut t = FixedTimestep::new(u64::MAX).unwrap();
    assert_eq!(t.update(u64::MAX - 1), 0);
    assert_eq!(t.update(u64::MAX), 1);
    assert_eq!(t.accumulator(), u64::MAX - 1);
    let mut t = FixedTimestep::new(3).unwrap();
    assert_eq!(t.update(2), 0);
    assert_eq!(t.update(u64::MAX), 6_148_914_691_236_517_205);
    assert_eq!(t.accumulator(), 2);
}
