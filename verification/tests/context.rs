use cairus::common_geometry::Point;
use cairus::compositor::Operator;
use cairus::context::Context;
use cairus::status::Status;

fn pt(x: f32, y: f32) -> Point {
    Point::new(x.to_bits(), y.to_bits())
}

#[test]
fn test_triangle() {
    let mut context = Context::create();
    let a = pt(0., 0.);

    let tri = context.triangle(
        0f32.to_bits(),
        0f32.to_bits(),
        0f32.to_bits(),
        1f32.to_bits(),
        1f32.to_bits(),
        0f32.to_bits(),
    );

    assert_eq!(tri, Status::Success);
    assert_eq!(context.status, Status::Success);
    assert_eq!(context.current_point(), a);
}

#[test]
fn default_and_set_operator() {
    let mut context = Context::create();
    assert_eq!(context.get_operator(), &Operator::Over);
    context.set_operator(Operator::Over);
    assert_eq!(context.get_operator(), &Operator::Over);
}

#[test]
fn rectangle_outline() {
    let mut context = Context::create();
    let corners = [pt(1., 1.), pt(3., 1.), pt(3., 4.), pt(1., 4.)];
    assert_eq!(context.outline(&corners), Status::Success);
    assert_eq!(context.current_point(), pt(1., 4.));
}

#[test]
fn failed_operation_puts_context_in_error() {
    let mut context = Context::create();
    let p = pt(-1., 0.);
    assert_eq!(context.move_to(p.x, p.y), Status::InvalidPathData);
    assert_eq!(context.status, Status::InvalidPathData);
    // Every later operation is refused.
    let q = pt(1., 1.);
    assert_eq!(context.move_to(q.x, q.y), Status::InvalidPathData);
    assert_eq!(context.line_to(q.x, q.y), Status::InvalidPathData);
    assert_eq!(context.curve_to(q.x, q.y, q.x, q.y, q.x, q.y), Status::InvalidPathData);
    assert_eq!(context.new_path(), Status::InvalidPathData);
    assert_eq!(context.new_sub_path(), Status::InvalidPathData);
    assert_eq!(context.outline(&[q, pt(2., 2.)]), Status::InvalidPathData);
    assert!(f32::from_bits(context.current_point().x).is_nan());
}

#[test]
fn outline_stops_at_first_failure() {
    let mut context = Context::create();
    // The second and third corners coincide: the line to the third fails.
    let corners = [pt(0., 0.), pt(1., 0.), pt(1., 0.), pt(0., 1.)];
    assert_eq!(context.outline(&corners), Status::InvalidPathData);
    assert_eq!(context.status, Status::InvalidPathData);
    assert_eq!(context.current_point(), pt(1., 0.));
}

#[test]
fn rel_outline_needs_current_point() {
    let mut context = Context::create();
    assert_eq!(context.rel_outline(&[pt(1., 1.), pt(2., 2.)]), Status::InvalidPathData);
    // The refusal does not put the context in error.
    assert_eq!(context.status, Status::Success);
    let o = pt(5., 5.);
    assert_eq!(context.move_to(o.x, o.y), Status::Success);
    assert_eq!(context.rel_outline(&[pt(6., 6.), pt(7., 6.), pt(6., 6.)]), Status::Success);
    assert_eq!(context.current_point(), pt(6., 6.));
}

#[test]
fn new_path_clears_the_current_point() {
    let mut context = Context::create();
    let o = pt(5., 5.);
    assert_eq!(context.move_to(o.x, o.y), Status::Success);
    assert_eq!(context.new_path(), Status::Success);
    assert!(f32::from_bits(context.current_point().y).is_nan());
    assert_eq!(context.line_to(o.x, o.y), Status::InvalidPathData);
}

#[test]
fn set_error_records_status() {
    let mut context = Context::create();
    context.set_error(Status::NoMemory);
    assert_eq!(context.status, Status::NoMemory);
    let o = pt(5., 5.);
    assert_eq!(context.move_to(o.x, o.y), Status::InvalidPathData);
    assert_eq!(context.status, Status::NoMemory);
}
