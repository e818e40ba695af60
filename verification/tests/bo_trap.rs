use cairus::bo_trap::{
    event_order, find_line_place, running_sums_fit_in_i32, winding_fills, Comparator, EventType,
};
use std::cmp::Ordering;

#[test]
fn event_type_test() {
    // Verifies that the event type ordering is correct
    assert!(EventType::Start == EventType::Start);
    assert!(EventType::Start > EventType::End);
    assert!(EventType::Start > EventType::Intersection);

    assert!(EventType::End == EventType::End);
    assert!(EventType::End < EventType::Start);
    assert!(EventType::End < EventType::Intersection);

    assert!(EventType::Intersection == EventType::Intersection);
    assert!(EventType::Intersection < EventType::Start);
    assert!(EventType::Intersection > EventType::End);
}

// The order of two start events at (x1, y1) and (x2, y2).
fn start_events(x1: f32, y1: f32, x2: f32, y2: f32) -> Ordering {
    event_order(y1.partial_cmp(&y2), x1.partial_cmp(&x2), EventType::Start, EventType::Start)
}

#[test]
fn event_compare_y_lesser() {
    assert_eq!(start_events(0., 0., 1., 1.), Ordering::Less);
}

#[test]
fn event_compare_y_greater() {
    assert_eq!(start_events(1., 1., 0., 0.), Ordering::Greater);
}

#[test]
fn event_compare_x_lesser() {
    assert_eq!(start_events(0., 0., 1., 0.), Ordering::Less);
}

#[test]
fn event_compare_x_greater() {
    assert_eq!(start_events(1., 0., 0., 0.), Ordering::Greater);
}

#[test]
fn event_compare_type_greater() {
    assert_eq!(start_events(0., 0., 0., 0.), Ordering::Greater);
}

#[test]
fn event_order_at_one_point_goes_by_type() {
    let eq = Some(Ordering::Equal);
    assert_eq!(event_order(eq, eq, EventType::End, EventType::Start), Ordering::Less);
    assert_eq!(event_order(eq, eq, EventType::End, EventType::Intersection), Ordering::Less);
    assert_eq!(event_order(eq, eq, EventType::Intersection, EventType::Start), Ordering::Less);
    assert_eq!(event_order(eq, eq, EventType::Start, EventType::Intersection), Ordering::Greater);
    assert_eq!(event_order(eq, eq, EventType::End, EventType::End), Ordering::Greater);
}

#[test]
fn event_order_treats_unordered_coordinates_as_equal() {
    let y = f32::NAN.partial_cmp(&1.0);
    assert_eq!(y, None);
    assert_eq!(event_order(y, Some(Ordering::Less), EventType::Start, EventType::Start), Ordering::Less);
    assert_eq!(event_order(y, None, EventType::End, EventType::Start), Ordering::Less);
}

#[test]
fn event_type_compare_and_partial_cmp() {
    assert_eq!(EventType::Start.compare(&EventType::End), Ordering::Greater);
    assert_eq!(EventType::Intersection.compare(&EventType::Intersection), Ordering::Equal);
    assert_eq!(EventType::End.partial_cmp(&EventType::Intersection), Some(Ordering::Less));
    assert_eq!(EventType::End.cmp(&EventType::Start), Ordering::Less);
    let mut types = vec![EventType::Start, EventType::End, EventType::Intersection, EventType::End];
    types.sort();
    assert_eq!(types, vec![EventType::End, EventType::End, EventType::Intersection, EventType::Start]);
}

#[test]
fn find_line_place_decisions() {
    assert_eq!(find_line_place(true, false, true, true), Comparator::Equal);
    assert_eq!(find_line_place(false, true, false, true), Comparator::Greater);
    assert_eq!(find_line_place(false, true, false, false), Comparator::Less);
    assert_eq!(find_line_place(false, false, true, false), Comparator::Greater);
    assert_eq!(find_line_place(false, false, false, true), Comparator::Less);
}

#[test]
fn winding_rule_nonzero() {
    // Edges drawn in opposite directions cancel out under the nonzero rule.
    assert!(!winding_fills(&[1, -1], -1));
    assert!(winding_fills(&[1, 1], -1));
    assert!(winding_fills(&[-1], -1));
    assert!(!winding_fills(&[], -1));
    assert!(!winding_fills(&[0, 0, 0], -1));
}

#[test]
fn winding_rule_even_odd() {
    assert!(winding_fills(&[-1], 1));
    assert!(!winding_fills(&[1, 1], 1));
    assert!(winding_fills(&[1, 1, 1], 1));
    assert!(!winding_fills(&[1, -1, 1, -1], 1));
}

#[test]
fn winding_rule_large_sums() {
    assert!(winding_fills(&[i32::MAX, -1, 1], -1));
    assert!(!winding_fills(&[i32::MAX, i32::MIN, 1], -1));
}

#[test]
fn running_sums_checked() {
    assert!(running_sums_fit_in_i32(&[1, -1, 1]));
    assert!(running_sums_fit_in_i32(&[]));
    assert!(running_sums_fit_in_i32(&[i32::MAX, i32::MIN, 1]));
    assert!(!running_sums_fit_in_i32(&[i32::MAX, 1, -1]));
    assert!(!running_sums_fit_in_i32(&[i32::MIN, -1]));
}
