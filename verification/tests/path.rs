use cairus::common_geometry::Point;
use cairus::path::{Data, Path};
use cairus::status::Status;

fn pt(x: f32, y: f32) -> Point {
    Point::new(x.to_bits(), y.to_bits())
}

#[test]
fn test_create_path() {
    let path = Path::create();

    assert_eq!(path.status, Status::Success);
    assert_eq!(path.data_vec.len(), 0);
    assert_eq!(path.data_num, 0);
    assert!(f32::from_bits(path.current_point.x).is_nan());
    assert!(f32::from_bits(path.current_point.y).is_nan());
}

#[test]
fn test_new_path() {
    let mut path = Path::create();
    let p1 = pt(1., 1.5);
    let mut status = path.move_to(p1.x, p1.y);
    assert_eq!(status, Status::Success);
    status = path.new_path();
    assert_eq!(status, Status::Success);

    assert_eq!(path.status, Status::Success);
    assert_eq!(path.data_vec.len(), 0);
    assert_eq!(path.data_num, 0);
    assert!(f32::from_bits(path.current_point.x).is_nan());
    assert!(f32::from_bits(path.current_point.y).is_nan());
}

#[test]
fn test_move_to_different_location() {
    let mut path = Path::create();
    let p1 = pt(1., 1.5);
    let p2 = pt(2., 2.5);
    let mut status = path.move_to(p1.x, p1.y);
    assert_eq!(status, Status::Success);
    status = path.move_to(p2.x, p2.y);

    assert_eq!(status, Status::Success);
    assert_eq!(path.current_point, p2);
    assert_eq!(path.data_vec.len(), 2);
    assert_eq!(path.data_vec[0], Data::MoveTo(p1));
    assert_eq!(path.data_vec[1], Data::MoveTo(p2));
    assert_eq!(path.data_num, 2);
}

#[test]
fn test_move_to_same_location() {
    let mut path = Path::create();
    let p1 = pt(1., 1.5);
    let p2 = pt(1., 1.5);
    let mut status = path.move_to(p1.x, p1.y);
    assert_eq!(status, Status::Success);
    status = path.move_to(p2.x, p2.y);

    assert_eq!(status, Status::InvalidPathData);
}

#[test]
fn test_move_to_negative_location() {
    let mut path = Path::create();
    let p1 = pt(-1., 1.5);
    let status = path.move_to(p1.x, p1.y);

    assert_eq!(status, Status::InvalidPathData);
}

#[test]
fn test_line_to_different_location() {
    let mut path = Path::create();
    let p1 = pt(1., 1.5);
    let p2 = pt(2., 2.5);
    let origin = Point::origin();

    let mut status = path.move_to(origin.x, origin.y);
    assert_eq!(status, Status::Success);
    status = path.line_to(p1.x, p1.y);
    assert_eq!(status, Status::Success);
    status = path.line_to(p2.x, p2.y);

    assert_eq!(status, Status::Success);
    assert_eq!(path.current_point, p2);
    assert_eq!(path.data_vec.len(), 3);
    assert_eq!(path.data_vec[1], Data::LineTo(p1));
    assert_eq!(path.data_vec[2], Data::LineTo(p2));
    assert_eq!(path.data_num, 3);
}

#[test]
fn test_line_to_from_empty_default_point() {
    let mut path = Path::create();
    let p1 = pt(1., 1.5);

    let status = path.line_to(p1.x, p1.y);

    assert_eq!(status, Status::InvalidPathData);
}

#[test]
fn test_line_to_same_location() {
    let mut path = Path::create();
    let p1 = pt(1., 1.5);
    let p2 = pt(1., 1.5);
    let mut status = path.line_to(p1.x, p1.y);
    assert_eq!(status, Status::InvalidPathData);
    status = path.line_to(p2.x, p2.y);

    assert_eq!(status, Status::InvalidPathData);
}

#[test]
fn test_line_to_negative_location() {
    let mut path = Path::create();
    let p1 = pt(-1., 1.5);
    let status = path.line_to(p1.x, p1.y);

    assert_eq!(status, Status::InvalidPathData);
}

#[test]
fn test_curve_to_different_location() {
    let mut path = Path::create();
    let p1 = pt(1., 1.5);
    let p2 = pt(2., 2.5);
    let p3 = pt(3., 3.5);
    let p4 = pt(4., 4.5);
    let p5 = pt(5., 5.5);
    let p6 = pt(6., 6.5);
    let origin = Point::origin();

    let mut status = path.move_to(origin.x, origin.y);
    assert_eq!(status, Status::Success);
    status = path.curve_to(p1.x, p1.y, p2.x, p2.y, p3.x, p3.y);
    assert_eq!(status, Status::Success);
    let p7 = path.current_point;
    status = path.curve_to(p4.x, p4.y, p5.x, p5.y, p6.x, p6.y);

    assert_eq!(status, Status::Success);
    assert_eq!(path.current_point, p6);
    assert_eq!(p3, p7);
    assert_eq!(path.data_vec.len(), 3);
    assert_eq!(path.data_vec[1], Data::CurveTo(p1, p2, p3));
    assert_eq!(path.data_vec[2], Data::CurveTo(p4, p5, p6));
    assert_eq!(path.data_num, 3);
}

#[test]
fn test_curve_to_from_default_empty_point() {
    let mut path = Path::create();
    let p1 = pt(1., 1.5);
    let p2 = pt(2., 2.5);
    let p3 = pt(3., 3.5);
    let p4 = pt(4., 4.5);
    let p5 = pt(5., 5.5);
    let p6 = pt(6., 6.5);
    let mut status = path.curve_to(p1.x, p1.y, p2.x, p2.y, p3.x, p3.y);
    assert_eq!(status, Status::InvalidPathData);
    let p7 = path.current_point;
    assert!(f32::from_bits(p7.x).is_nan());
    status = path.curve_to(p4.x, p4.y, p5.x, p5.y, p6.x, p6.y);

    assert_eq!(status, Status::InvalidPathData);
}

#[test]
fn test_curve_to_same_location() {
    let mut path = Path::create();
    let p1 = pt(1., 1.5);
    let p2 = pt(2., 2.5);
    let p3 = pt(3., 3.5);
    let p4 = pt(1., 1.5);
    let p5 = pt(2., 2.5);
    let p6 = pt(3., 3.5);
    let mut status = path.curve_to(p1.x, p1.y, p2.x, p2.y, p3.x, p3.y);
    assert_eq!(status, Status::InvalidPathData);
    status = path.curve_to(p4.x, p4.y, p5.x, p5.y, p6.x, p6.y);

    assert_eq!(status, Status::InvalidPathData);
}

#[test]
fn test_curve_to_negative_location() {
    let mut path = Path::create();
    let p1 = pt(-1., 1.5);
    let p2 = pt(1., 1.5);
    let p3 = pt(2., 1.5);
    let status = path.curve_to(p1.x, p1.y, p2.x, p2.y, p3.x, p3.y);

    assert_eq!(status, Status::InvalidPathData);
}

// A refused operation leaves the path as it was.
#[test]
fn refused_operations_change_nothing() {
    let mut path = Path::create();
    assert_eq!(path.move_to(pt(1., 1.).x, pt(1., 1.).y), Status::Success);
    let neg = pt(-0.5, 2.);
    assert_eq!(path.line_to(neg.x, neg.y), Status::InvalidPathData);
    assert_eq!(path.move_to(neg.x, neg.y), Status::InvalidPathData);
    let same = pt(1., 1.);
    assert_eq!(path.line_to(same.x, same.y), Status::InvalidPathData);
    let ok = pt(2., 2.);
    assert_eq!(path.curve_to(neg.x, neg.y, ok.x, ok.y, ok.x, ok.y), Status::InvalidPathData);
    assert_eq!(path.data_vec.len(), 1);
    assert_eq!(path.data_num, 1);
    assert_eq!(path.current_point, pt(1., 1.));
}

// Negative zero does not compare below zero, and equals positive zero.
#[test]
fn negative_zero_is_accepted_and_equals_zero() {
    let mut path = Path::create();
    let nz = pt(-0.0, -0.0);
    assert_eq!(path.move_to(nz.x, nz.y), Status::Success);
    let z = Point::origin();
    assert_eq!(path.move_to(z.x, z.y), Status::InvalidPathData);
    assert_eq!(path.line_to(z.x, z.y), Status::InvalidPathData);
}

// Moving to a point with a NaN coordinate leaves no usable current point.
#[test]
fn move_to_nan_leaves_no_current_point() {
    let mut path = Path::create();
    let p = pt(f32::NAN, 1.);
    assert_eq!(path.move_to(p.x, p.y), Status::Success);
    assert_eq!(path.data_num, 1);
    let q = pt(2., 2.);
    assert_eq!(path.line_to(q.x, q.y), Status::InvalidPathData);
}

// Closing a path appends ClosePath, counts it, and keeps the current point.
#[test]
fn close_is_counted() {
    let mut path = Path::create();
    let a = pt(1., 1.);
    let b = pt(2., 1.);
    assert_eq!(path.move_to(a.x, a.y), Status::Success);
    assert_eq!(path.line_to(b.x, b.y), Status::Success);
    assert_eq!(path.close(), Status::Success);
    assert_eq!(path.data_vec.len(), 3);
    assert_eq!(path.data_vec[2], Data::ClosePath);
    assert_eq!(path.data_num, 3);
    assert_eq!(path.get_current_point(), b);
}
