//! Paths: the sequence of drawing commands that a context accumulates.

use vstd::prelude::*;
use vstd::std_specs::cmp::PartialEqSpecImpl;

use crate::common_geometry::{spec_has_nan, spec_has_negative, spec_point_eq, Point};
use crate::float_bits::{spec_below_zero, spec_float_eq, spec_is_nan, NAN_BITS};
use crate::status::Status;

verus! {

/// One element of a path.
#[derive(Debug, Clone, Copy)]
pub enum Data {
    MoveTo(Point),
    LineTo(Point),
    CurveTo(Point, Point, Point),
    ClosePath,
}

/// Two path elements compare equal when they are the same command over points
/// that compare equal.
pub open spec fn spec_data_eq(a: Data, b: Data) -> bool {
    match (a, b) {
        (Data::MoveTo(p), Data::MoveTo(q)) => spec_point_eq(p, q),
        (Data::LineTo(p), Data::LineTo(q)) => spec_point_eq(p, q),
        (Data::CurveTo(p1, p2, p3), Data::CurveTo(q1, q2, q3)) => spec_point_eq(p1, q1)
            && spec_point_eq(p2, q2) && spec_point_eq(p3, q3),
        (Data::ClosePath, Data::ClosePath) => true,
        _ => false,
    }
}

impl PartialEq for Data {
    fn eq(&self, other: &Data) -> (res: bool) {
        match (self, other) {
            (Data::MoveTo(p), Data::MoveTo(q)) => p.eq(q),
            (Data::LineTo(p), Data::LineTo(q)) => p.eq(q),
            (Data::CurveTo(p1, p2, p3), Data::CurveTo(q1, q2, q3)) => p1.eq(q1) && p2.eq(q2)
                && p3.eq(q3),
            (Data::ClosePath, Data::ClosePath) => true,
            _ => false,
        }
    }
}

impl PartialEqSpecImpl for Data {
    open spec fn obeys_eq_spec() -> bool {
        true
    }

    open spec fn eq_spec(&self, other: &Data) -> bool {
        spec_data_eq(*self, *other)
    }
}

/// The point that stands for "no current point".
pub open spec fn no_point() -> Point {
    Point { x: NAN_BITS, y: NAN_BITS }
}

/// What a path is: its status, its elements, its element counter and its
/// current point.
pub struct PathModel {
    pub status: Status,
    pub data: Seq<Data>,
    pub data_num: nat,
    pub current_point: Point,
}

impl PathModel {
    /// The counter holds the number of elements, and the status is `Success`:
    /// what every path built by the operations below satisfies.
    pub open spec fn wf(self) -> bool {
        &&& self.status == Status::Success
        &&& self.data_num == self.data.len()
    }

    /// The element counter can take one more step without overflow: it is below
    /// `usize::MAX`, or it does not exceed the number of elements (a vector
    /// that takes one more element has fewer than `usize::MAX` of them).
    pub open spec fn counter_can_grow(self) -> bool {
        self.data_num < usize::MAX || self.data_num <= self.data.len()
    }
}

/// The empty path: `Success`, no elements, no current point.
pub open spec fn spec_empty_path() -> PathModel {
    PathModel { status: Status::Success, data: Seq::empty(), data_num: 0, current_point: no_point() }
}

/// `m` with `d` appended and `p` as its current point.
pub open spec fn spec_append(m: PathModel, d: Data, p: Point) -> PathModel {
    PathModel {
        status: m.status,
        data: m.data.push(d),
        data_num: m.data_num + 1,
        current_point: p,
    }
}

/// `move_to(p)`: refused when a coordinate is below zero or when `p` equals
/// the current point; otherwise `MoveTo(p)` is appended and `p` becomes current.
pub open spec fn spec_move_to(m: PathModel, p: Point) -> (PathModel, Status) {
    if spec_has_negative(p) || spec_point_eq(m.current_point, p) {
        (m, Status::InvalidPathData)
    } else {
        (spec_append(m, Data::MoveTo(p), p), m.status)
    }
}

/// `line_to(p)`: refused when there is no current point, when a coordinate is
/// below zero or when `p` equals the current point; otherwise `LineTo(p)` is
/// appended and `p` becomes current.
pub open spec fn spec_line_to(m: PathModel, p: Point) -> (PathModel, Status) {
    if spec_has_nan(m.current_point) || spec_has_negative(p) || spec_point_eq(m.current_point, p) {
        (m, Status::InvalidPathData)
    } else {
        (spec_append(m, Data::LineTo(p), p), m.status)
    }
}

/// `curve_to(b, c, d)`: refused when there is no current point, when a
/// coordinate of a control point or of the end point is below zero, or when `d`
/// equals the current point; otherwise `CurveTo(b, c, d)` is appended and `d`
/// becomes current.
pub open spec fn spec_curve_to(m: PathModel, b: Point, c: Point, d: Point) -> (PathModel, Status) {
    if spec_has_nan(m.current_point) || spec_has_negative(b) || spec_has_negative(c)
        || spec_has_negative(d) || spec_point_eq(m.current_point, d) {
        (m, Status::InvalidPathData)
    } else {
        (spec_append(m, Data::CurveTo(b, c, d), d), m.status)
    }
}

/// `close()`: `ClosePath` is appended; the current point stays.
pub open spec fn spec_close(m: PathModel) -> PathModel {
    spec_append(m, Data::ClosePath, m.current_point)
}

/// A path in which the counter agrees with the elements has room for one more.
pub proof fn lemma_wf_counter_can_grow(m: PathModel)
    requires
        m.wf(),
    ensures
        m.counter_can_grow(),
{
}

/// The empty path is well formed, and every path operation keeps a well-formed
/// path well formed: the counter keeps counting the elements, and the status
/// stays `Success`.
pub proof fn lemma_operations_keep_wf(m: PathModel, b: Point, c: Point, d: Point)
    requires
        m.wf(),
    ensures
        spec_empty_path().wf(),
        spec_move_to(m, d).0.wf(),
        spec_line_to(m, d).0.wf(),
        spec_curve_to(m, b, c, d).0.wf(),
        spec_close(m).wf(),
{
}

/// A refused operation changes nothing; an accepted one returns the path's
/// status, appends exactly one element, whose last point becomes the current
/// point, and leaves the earlier elements as they were.
pub proof fn lemma_refused_or_appended(m: PathModel, b: Point, c: Point, d: Point)
    ensures
        spec_move_to(m, d).1 != m.status ==> spec_move_to(m, d).0 == m,
        spec_line_to(m, d).1 != m.status ==> spec_line_to(m, d).0 == m,
        spec_curve_to(m, b, c, d).1 != m.status ==> spec_curve_to(m, b, c, d).0 == m,
        spec_move_to(m, d).0 != m ==> {
            &&& spec_move_to(m, d).1 == m.status
            &&& spec_move_to(m, d).0.data == m.data.push(Data::MoveTo(d))
            &&& spec_move_to(m, d).0.current_point == d
        },
        spec_line_to(m, d).0 != m ==> {
            &&& spec_line_to(m, d).1 == m.status
            &&& spec_line_to(m, d).0.data == m.data.push(Data::LineTo(d))
            &&& spec_line_to(m, d).0.current_point == d
        },
        spec_curve_to(m, b, c, d).0 != m ==> {
            &&& spec_curve_to(m, b, c, d).1 == m.status
            &&& spec_curve_to(m, b, c, d).0.data == m.data.push(Data::CurveTo(b, c, d))
            &&& spec_curve_to(m, b, c, d).0.current_point == d
        },
{
    assert(m.data.push(Data::MoveTo(d)).len() != m.data.len());
    assert(m.data.push(Data::LineTo(d)).len() != m.data.len());
    assert(m.data.push(Data::CurveTo(b, c, d)).len() != m.data.len());
}

/// Drawing needs a current point: on a path without one, `line_to` and
/// `curve_to` are refused, while `move_to` to a point with no coordinate below
/// zero is accepted (a point with a NaN coordinate is never equal to another).
pub proof fn lemma_drawing_needs_current_point(m: PathModel, b: Point, c: Point, d: Point)
    requires
        spec_has_nan(m.current_point),
    ensures
        spec_line_to(m, d) == (m, Status::InvalidPathData),
        spec_curve_to(m, b, c, d) == (m, Status::InvalidPathData),
        !spec_has_negative(d) ==> spec_move_to(m, d).0.current_point == d,
{
}

/// The point `p` is the point `q` as floats compare: both coordinates equal.
pub open spec fn same_place(p: Point, q: Point) -> bool {
    spec_float_eq(p.x, q.x) && spec_float_eq(p.y, q.y)
}

/// The point has a coordinate that compares below zero.
pub open spec fn off_canvas(p: Point) -> bool {
    spec_below_zero(p.x) || spec_below_zero(p.y)
}

/// The point has a NaN coordinate, so it is no point.
pub open spec fn is_no_point(p: Point) -> bool {
    spec_is_nan(p.x) || spec_is_nan(p.y)
}

/// `move_to(p)` on a well-formed path: refused with `InvalidPathData`, the path
/// unchanged, when either coordinate of `p` is below zero or `p` is the current
/// point; accepted otherwise, with `MoveTo(p)` appended as the only new element
/// and `p` as the current point.
pub proof fn lemma_move_to_law(m: PathModel, p: Point)
    requires
        m.wf(),
    ensures
        spec_below_zero(p.x) ==> spec_move_to(m, p) == (m, Status::InvalidPathData),
        spec_below_zero(p.y) ==> spec_move_to(m, p) == (m, Status::InvalidPathData),
        same_place(m.current_point, p) ==> spec_move_to(m, p) == (m, Status::InvalidPathData),
        !off_canvas(p) && !same_place(m.current_point, p) ==> {
            let r = spec_move_to(m, p);
            &&& r.1 == Status::Success
            &&& r.0.data == m.data.push(Data::MoveTo(p))
            &&& r.0.data.len() == m.data.len() + 1
            &&& r.0.current_point == p
            &&& r.0.wf()
        },
{
}

/// `line_to(p)` on a well-formed path: refused with `InvalidPathData`, the path
/// unchanged, when there is no current point, when either coordinate of `p` is
/// below zero, or when `p` is the current point; accepted otherwise, with
/// `LineTo(p)` appended as the only new element and `p` as the current point.
pub proof fn lemma_line_to_law(m: PathModel, p: Point)
    requires
        m.wf(),
    ensures
        is_no_point(m.current_point) ==> spec_line_to(m, p) == (m, Status::InvalidPathData),
        spec_below_zero(p.x) ==> spec_line_to(m, p) == (m, Status::InvalidPathData),
        spec_below_zero(p.y) ==> spec_line_to(m, p) == (m, Status::InvalidPathData),
        same_place(m.current_point, p) ==> spec_line_to(m, p) == (m, Status::InvalidPathData),
        !is_no_point(m.current_point) && !off_canvas(p) && !same_place(m.current_point, p) ==> {
            let r = spec_line_to(m, p);
            &&& r.1 == Status::Success
            &&& r.0.data == m.data.push(Data::LineTo(p))
            &&& r.0.data.len() == m.data.len() + 1
            &&& r.0.current_point == p
            &&& r.0.wf()
        },
{
}

/// `curve_to(b, c, d)` on a well-formed path: refused with `InvalidPathData`,
/// the path unchanged, when there is no current point, when any coordinate of
/// `b`, `c` or `d` is below zero, or when the end point `d` is the current
/// point. From a current point with no NaN and with no coordinate below zero,
/// the curve is accepted exactly when `d` differs from the current point,
/// whatever the control points are; then `CurveTo(b, c, d)` is the only new
/// element and `d` the current point.
pub proof fn lemma_curve_to_law(m: PathModel, b: Point, c: Point, d: Point, b2: Point, c2: Point)
    requires
        m.wf(),
    ensures
        is_no_point(m.current_point) ==> spec_curve_to(m, b, c, d) == (m, Status::InvalidPathData),
        off_canvas(b) ==> spec_curve_to(m, b, c, d) == (m, Status::InvalidPathData),
        off_canvas(c) ==> spec_curve_to(m, b, c, d) == (m, Status::InvalidPathData),
        off_canvas(d) ==> spec_curve_to(m, b, c, d) == (m, Status::InvalidPathData),
        same_place(m.current_point, d) ==> spec_curve_to(m, b, c, d) == (m, Status::InvalidPathData),
        !is_no_point(m.current_point) && !off_canvas(b) && !off_canvas(c) && !off_canvas(d) ==> (
        spec_curve_to(m, b, c, d).1 == Status::Success <==> !same_place(m.current_point, d)),
        !off_canvas(b) && !off_canvas(c) && !off_canvas(b2) && !off_canvas(c2) ==> spec_curve_to(
            m,
            b,
            c,
            d,
        ).1 == spec_curve_to(m, b2, c2, d).1,
        !is_no_point(m.current_point) && !off_canvas(b) && !off_canvas(c) && !off_canvas(d)
            && !same_place(m.current_point, d) ==> {
            let r = spec_curve_to(m, b, c, d);
            &&& r.0.data == m.data.push(Data::CurveTo(b, c, d))
            &&& r.0.data.len() == m.data.len() + 1
            &&& r.0.current_point == d
            &&& r.0.wf()
        },
{
}

/// A data structure for holding a path.
///
/// `data_vec` holds the elements and `data_num` their number; `current_point`
/// is the end point of the path, both of its coordinates NaN when there is
/// none.
pub struct Path {
    pub status: Status,
    pub data_vec: Vec<Data>,
    pub data_num: usize,
    pub current_point: Point,
}

impl View for Path {
    type V = PathModel;

    open spec fn view(&self) -> PathModel {
        PathModel {
            status: self.status,
            data: self.data_vec@,
            data_num: self.data_num as nat,
            current_point: self.current_point,
        }
    }
}

impl Path {
    /// A new, empty path with no current point.
    pub fn create() -> (path: Path)
        ensures
            path@ == spec_empty_path(),
            path.data_vec@ == Seq::<Data>::empty(),
    {
        Path {
            status: Status::Success,
            data_vec: Vec::new(),
            data_num: 0,
            current_point: Point::none(),
        }
    }

    /// Clears the path: no elements, no current point. Returns `Success`.
    pub fn new_path(&mut self) -> (res: Status)
        ensures
            final(self)@ == spec_empty_path(),
            res == Status::Success,
    {
        self.status = Status::Success;
        self.data_vec = Vec::new();
        self.data_num = 0;
        self.current_point = Point::none();
        self.status
    }

    /// The current point; both of its coordinates are NaN when there is none.
    pub fn get_current_point(&mut self) -> (res: Point)
        ensures
            res == old(self)@.current_point,
            final(self)@ == old(self)@,
    {
        self.current_point
    }

    fn append(&mut self, d: Data, p: Point)
        requires
            old(self)@.counter_can_grow(),
        ensures
            final(self)@ == spec_append(old(self)@, d, p),
    {
        self.data_vec.push(d);
        // A vector's length fits in usize, so the counter, which did not exceed
        // it, can take one more step.
        let _len: usize = self.data_vec.len();
        self.data_num = self.data_num + 1;
        self.current_point = p;
    }

    /// Begins a new sub-path at (x, y), which becomes the current point.
    /// Returns `InvalidPathData`, and changes nothing, when a coordinate is
    /// below zero or when (x, y) is the current point.
    pub fn move_to(&mut self, x: u32, y: u32) -> (res: Status)
        requires
            old(self)@.counter_can_grow(),
        ensures
            (final(self)@, res) == spec_move_to(old(self)@, Point { x, y }),
    {
        let point = Point::new(x, y);
        if point.has_negative() {
            return Status::InvalidPathData;
        }
        if self.current_point.eq(&point) {
            return Status::InvalidPathData;
        }
        self.append(Data::MoveTo(point), point);
        self.status
    }

    /// Appends `ClosePath`. The current point stays as it is.
    pub fn close(&mut self) -> (res: Status)
        requires
            old(self)@.counter_can_grow(),
        ensures
            final(self)@ == spec_close(old(self)@),
            res == old(self)@.status,
    {
        let p = self.current_point;
        self.append(Data::ClosePath, p);
        self.status
    }

    /// Adds a line from the current point to (x, y), which becomes the current
    /// point. Returns `InvalidPathData`, and changes nothing, when there is no
    /// current point, when a coordinate is below zero or when (x, y) is the
    /// current point.
    pub fn line_to(&mut self, x: u32, y: u32) -> (res: Status)
        requires
            old(self)@.counter_can_grow(),
        ensures
            (final(self)@, res) == spec_line_to(old(self)@, Point { x, y }),
    {
        if self.current_point.has_nan() {
            return Status::InvalidPathData;
        }
        let point = Point::new(x, y);
        if point.has_negative() {
            return Status::InvalidPathData;
        }
        if self.current_point.eq(&point) {
            return Status::InvalidPathData;
        }
        self.append(Data::LineTo(point), point);
        self.status
    }

    /// Adds a cubic Bézier spline from the current point to (x3, y3) with
    /// control points (x1, y1) and (x2, y2); (x3, y3) becomes the current
    /// point. Returns `InvalidPathData`, and changes nothing, when there is no
    /// current point, when a coordinate is below zero or when (x3, y3) is the
    /// current point.
    pub fn curve_to(&mut self, x1: u32, y1: u32, x2: u32, y2: u32, x3: u32, y3: u32) -> (res:
        Status)
        requires
            old(self)@.counter_can_grow(),
        ensures
            (final(self)@, res) == spec_curve_to(
                old(self)@,
                Point { x: x1, y: y1 },
                Point { x: x2, y: y2 },
                Point { x: x3, y: y3 },
            ),
    {
        if self.current_point.has_nan() {
            return Status::InvalidPathData;
        }
        let b = Point::new(x1, y1);
        let c = Point::new(x2, y2);
        let d = Point::new(x3, y3);
        if b.has_negative() || c.has_negative() || d.has_negative() {
            return Status::InvalidPathData;
        }
        if self.current_point.eq(&d) {
            return Status::InvalidPathData;
        }
        self.append(Data::CurveTo(b, c, d), d);
        self.status
    }
}

} // verus!
