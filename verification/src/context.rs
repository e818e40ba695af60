//! The drawing context: the state that path operations run against.

use vstd::prelude::*;

use crate::common_geometry::{spec_has_nan, Point};
use crate::compositor::Operator;
use crate::path::{
    lemma_operations_keep_wf, lemma_wf_counter_can_grow, spec_curve_to, spec_empty_path,
    spec_line_to, spec_move_to, Path, PathModel,
};
use crate::status::Status;

verus! {

/// What a context is: its status, its operator and its path.
pub struct ContextModel {
    pub status: Status,
    pub operator: Operator,
    pub path: PathModel,
}

/// The context after a path operation that returned `r`: the path becomes
/// `r.0`; a status other than `Success` is recorded as the context's status.
/// The context's status is returned.
pub open spec fn spec_after_path_op(c: ContextModel, r: (PathModel, Status)) -> (
    ContextModel,
    Status,
) {
    let status = if r.1 != Status::Success {
        r.1
    } else {
        c.status
    };
    (ContextModel { status, operator: c.operator, path: r.0 }, status)
}

/// `new_path` on a context: refused with `InvalidPathData` once the context is
/// in error; otherwise the path is cleared.
pub open spec fn spec_ctx_new_path(c: ContextModel) -> (ContextModel, Status) {
    if c.status != Status::Success {
        (c, Status::InvalidPathData)
    } else {
        spec_after_path_op(c, (spec_empty_path(), Status::Success))
    }
}

/// `move_to` on a context.
pub open spec fn spec_ctx_move_to(c: ContextModel, p: Point) -> (ContextModel, Status) {
    if c.status != Status::Success {
        (c, Status::InvalidPathData)
    } else {
        spec_after_path_op(c, spec_move_to(c.path, p))
    }
}

/// `line_to` on a context.
pub open spec fn spec_ctx_line_to(c: ContextModel, p: Point) -> (ContextModel, Status) {
    if c.status != Status::Success {
        (c, Status::InvalidPathData)
    } else {
        spec_after_path_op(c, spec_line_to(c.path, p))
    }
}

/// `curve_to` on a context.
pub open spec fn spec_ctx_curve_to(c: ContextModel, b: Point, d: Point, e: Point) -> (
    ContextModel,
    Status,
) {
    if c.status != Status::Success {
        (c, Status::InvalidPathData)
    } else {
        spec_after_path_op(c, spec_curve_to(c.path, b, d, e))
    }
}

/// Lines to each of `pts` in turn, stopping at the first that puts the context
/// in error; the context's status is returned.
pub open spec fn spec_lines(c: ContextModel, pts: Seq<Point>) -> (ContextModel, Status)
    decreases pts.len(),
{
    if pts.len() == 0 {
        (c, c.status)
    } else {
        let r = spec_ctx_line_to(c, pts[0]);
        if r.0.status != Status::Success {
            (r.0, r.0.status)
        } else {
            spec_lines(r.0, pts.drop_first())
        }
    }
}

/// An outline through `pts`: when the context is not in error and there is a
/// first point, a move to the first point, then lines to the others, stopping
/// at the first operation that puts the context in error. The context's status
/// is returned.
pub open spec fn spec_outline(c: ContextModel, pts: Seq<Point>) -> (ContextModel, Status) {
    if c.status != Status::Success || pts.len() == 0 {
        (c, c.status)
    } else {
        let r = spec_ctx_move_to(c, pts[0]);
        if r.0.status != Status::Success {
            (r.0, r.0.status)
        } else {
            spec_lines(r.0, pts.drop_first())
        }
    }
}

/// An outline through points placed relative to the current point: refused
/// with `InvalidPathData`, and nothing changed, when there is no current point;
/// otherwise the outline through `pts`.
pub open spec fn spec_rel_outline(c: ContextModel, pts: Seq<Point>) -> (ContextModel, Status) {
    if spec_has_nan(c.path.current_point) {
        (c, Status::InvalidPathData)
    } else {
        spec_outline(c, pts)
    }
}

/// Once a context is in error it stays so: every path operation is refused
/// (with `InvalidPathData`, or with the context's status for outlines) and
/// changes nothing.
pub proof fn lemma_error_is_sticky(c: ContextModel, b: Point, d: Point, e: Point, pts: Seq<Point>)
    requires
        c.status != Status::Success,
    ensures
        spec_ctx_new_path(c) == (c, Status::InvalidPathData),
        spec_ctx_move_to(c, e) == (c, Status::InvalidPathData),
        spec_ctx_line_to(c, e) == (c, Status::InvalidPathData),
        spec_ctx_curve_to(c, b, d, e) == (c, Status::InvalidPathData),
        spec_outline(c, pts) == (c, c.status),
        spec_rel_outline(c, pts).0 == c,
        spec_rel_outline(c, pts).1 != Status::Success,
{
}

/// A context whose path is well formed and whose status is `Success` or
/// `InvalidPathData` keeps both properties through every operation, and what
/// an operation returns is the context's new status.
pub proof fn lemma_status_stays_known(c: ContextModel, b: Point, d: Point, e: Point, pts: Seq<Point>)
    requires
        c.path.wf(),
        c.status == Status::Success || c.status == Status::InvalidPathData,
    ensures
        known(spec_ctx_new_path(c)),
        known(spec_ctx_move_to(c, e)),
        known(spec_ctx_line_to(c, e)),
        known(spec_ctx_curve_to(c, b, d, e)),
        known(spec_outline(c, pts)),
        known(spec_rel_outline(c, pts)),
{
    lemma_operations_keep_wf(c.path, b, d, e);
    if c.status == Status::Success && pts.len() > 0 {
        let r = spec_ctx_move_to(c, pts[0]);
        lemma_operations_keep_wf(c.path, b, d, pts[0]);
        if r.0.status == Status::Success {
            lemma_lines_stay_known(r.0, pts.drop_first());
        }
    }
}

/// The context's path is well formed, its status is `Success` or
/// `InvalidPathData`, and that status was returned (or, for a refusal of a
/// context already in error, `InvalidPathData` was).
pub open spec fn known(r: (ContextModel, Status)) -> bool {
    &&& r.0.path.wf()
    &&& r.0.status == Status::Success || r.0.status == Status::InvalidPathData
    &&& r.1 == r.0.status || r.1 == Status::InvalidPathData
}

proof fn lemma_lines_stay_known(c: ContextModel, pts: Seq<Point>)
    requires
        c.path.wf(),
        c.status == Status::Success,
    ensures
        known(spec_lines(c, pts)),
    decreases pts.len(),
{
    if pts.len() > 0 {
        lemma_operations_keep_wf(c.path, pts[0], pts[0], pts[0]);
        let r = spec_ctx_line_to(c, pts[0]);
        if r.0.status == Status::Success {
            lemma_lines_stay_known(r.0, pts.drop_first());
        }
    }
}

/// A drawing context. Path operations run against its path; the first
/// operation that fails puts the context in error (its status), after which
/// path operations are refused.
pub struct Context {
    pub status: Status,
    operator: Operator,
    path: Path,
}

impl View for Context {
    type V = ContextModel;

    closed spec fn view(&self) -> ContextModel {
        ContextModel { status: self.status, operator: self.operator, path: self.path@ }
    }
}

impl Context {
    /// The context's path is well formed (see `PathModel::wf`).
    pub open spec fn wf(&self) -> bool {
        self@.path.wf()
    }

    /// A new context: `Success`, the `Over` operator and an empty path.
    pub fn create() -> (ctx: Context)
        ensures
            ctx.wf(),
            ctx@ == (ContextModel {
                status: Status::Success,
                operator: Operator::Over,
                path: spec_empty_path(),
            }),
    {
        let ctx = Context { status: Status::Success, operator: Operator::Over, path: Path::create() };
        proof {
            lemma_operations_keep_wf(ctx.path@, Point { x: 0, y: 0 }, Point { x: 0, y: 0 }, Point { x: 0, y: 0 });
        }
        ctx
    }

    /// Sets the operator.
    pub fn set_operator(&mut self, operator: Operator)
        requires
            old(self).wf(),
        ensures
            final(self).wf(),
            final(self)@ == (ContextModel { operator, ..old(self)@ }),
    {
        self.operator = operator;
    }

    /// The operator.
    pub fn get_operator(&self) -> (res: &Operator)
        ensures
            *res == self@.operator,
    {
        &self.operator
    }

    /// Records `status` as the context's status.
    pub fn set_error(&mut self, status: Status)
        requires
            old(self).wf(),
        ensures
            final(self).wf(),
            final(self)@ == (ContextModel { status, ..old(self)@ }),
    {
        self.status = status;
    }

    fn is_status_success(&self) -> (res: bool)
        ensures
            res == (self@.status == Status::Success),
    {
        self.status.is_success()
    }

    /// The current point of the path; both coordinates are NaN when there is
    /// none.
    pub fn current_point(&mut self) -> (res: Point)
        requires
            old(self).wf(),
        ensures
            final(self).wf(),
            final(self)@ == old(self)@,
            res == old(self)@.path.current_point,
    {
        self.path.get_current_point()
    }

    /// Clears the path. Refused with `InvalidPathData` once the context is in
    /// error.
    pub fn new_path(&mut self) -> (res: Status)
        requires
            old(self).wf(),
        ensures
            final(self).wf(),
            (final(self)@, res) == spec_ctx_new_path(old(self)@),
    {
        if !self.status.is_success() {
            return Status::InvalidPathData;
        }
        let status = self.path.new_path();
        proof {
            lemma_operations_keep_wf(self.path@, Point { x: 0, y: 0 }, Point { x: 0, y: 0 }, Point { x: 0, y: 0 });
        }
        if !status.is_success() {
            self.set_error(status);
        }
        self.status
    }

    /// Beginning a new sub-path is refused with `InvalidPathData` once the
    /// context is in error. (On a context not in error the operation has no
    /// implementation.)
    pub fn new_sub_path(&mut self) -> (res: Status)
        requires
            old(self).wf(),
            old(self)@.status != Status::Success,
        ensures
            final(self).wf(),
            final(self)@ == old(self)@,
            res == Status::InvalidPathData,
    {
        Status::InvalidPathData
    }

    /// Begins a new sub-path at (x, y); see `Path::move_to`. Refused with
    /// `InvalidPathData` once the context is in error; a refusal by the path
    /// puts the context in error.
    pub fn move_to(&mut self, x: u32, y: u32) -> (res: Status)
        requires
            old(self).wf(),
        ensures
            final(self).wf(),
            (final(self)@, res) == spec_ctx_move_to(old(self)@, Point { x, y }),
    {
        if !self.status.is_success() {
            return Status::InvalidPathData;
        }
        proof {
            lemma_wf_counter_can_grow(self.path@);
            lemma_operations_keep_wf(self.path@, Point { x, y }, Point { x, y }, Point { x, y });
        }
        let status = self.path.move_to(x, y);
        if !status.is_success() {
            self.set_error(status);
        }
        self.status
    }

    /// Adds a line to (x, y); see `Path::line_to`. Refused with
    /// `InvalidPathData` once the context is in error; a refusal by the path
    /// puts the context in error.
    pub fn line_to(&mut self, x: u32, y: u32) -> (res: Status)
        requires
            old(self).wf(),
        ensures
            final(self).wf(),
            (final(self)@, res) == spec_ctx_line_to(old(self)@, Point { x, y }),
    {
        if !self.status.is_success() {
            return Status::InvalidPathData;
        }
        proof {
            lemma_wf_counter_can_grow(self.path@);
            lemma_operations_keep_wf(self.path@, Point { x, y }, Point { x, y }, Point { x, y });
        }
        let status = self.path.line_to(x, y);
        if !status.is_success() {
            self.set_error(status);
        }
        self.status
    }

    /// Adds a cubic Bézier spline; see `Path::curve_to`. Refused with
    /// `InvalidPathData` once the context is in error; a refusal by the path
    /// puts the context in error.
    pub fn curve_to(&mut self, x1: u32, y1: u32, x2: u32, y2: u32, x3: u32, y3: u32) -> (res:
        Status)
        requires
            old(self).wf(),
        ensures
            final(self).wf(),
            (final(self)@, res) == spec_ctx_curve_to(
                old(self)@,
                Point { x: x1, y: y1 },
                Point { x: x2, y: y2 },
                Point { x: x3, y: y3 },
            ),
    {
        if !self.status.is_success() {
            return Status::InvalidPathData;
        }
        proof {
            lemma_wf_counter_can_grow(self.path@);
            lemma_operations_keep_wf(
                self.path@,
                Point { x: x1, y: y1 },
                Point { x: x2, y: y2 },
                Point { x: x3, y: y3 },
            );
        }
        let status = self.path.curve_to(x1, y1, x2, y2, x3, y3);
        if !status.is_success() {
            self.set_error(status);
        }
        self.status
    }

    /// Draws an outline through `points`: when the context is not in error, a
    /// move to the first point and lines to the others, stopping at the first
    /// operation that fails. Returns the context's status. Rectangles, squares
    /// and triangles are outlines through their corners.
    pub fn outline(&mut self, points: &[Point]) -> (res: Status)
        requires
            old(self).wf(),
        ensures
            final(self).wf(),
            (final(self)@, res) == spec_outline(old(self)@, points@),
    {
        if self.is_status_success() && points.len() > 0 {
            self.move_to(points[0].x, points[0].y);
            if !self.is_status_success() {
                return self.status;
            }
            assert(points@.subrange(1, points@.len() as int) =~= points@.drop_first());
            let mut i: usize = 1;
            while i < points.len()
                invariant
                    self.wf(),
                    1 <= i <= points.len(),
                    self@.status == Status::Success,
                    spec_lines(self@, points@.subrange(i as int, points@.len() as int))
                        == spec_outline(old(self)@, points@),
                decreases points.len() - i,
            {
                let ghost rest = points@.subrange(i as int, points@.len() as int);
                assert(rest[0] == points@[i as int]);
                assert(rest.drop_first() =~= points@.subrange(i + 1, points@.len() as int));
                self.line_to(points[i].x, points[i].y);
                if !self.is_status_success() {
                    return self.status;
                }
                i = i + 1;
            }
            assert(points@.subrange(i as int, points@.len() as int) =~= Seq::<Point>::empty());
        }
        self.status
    }

    /// Draws an outline through points placed relative to the current point
    /// (the caller adds the offsets to `current_point()`). Refused with
    /// `InvalidPathData`, and nothing changed, when there is no current point;
    /// otherwise see `outline`.
    pub fn rel_outline(&mut self, points: &[Point]) -> (res: Status)
        requires
            old(self).wf(),
        ensures
            final(self).wf(),
            (final(self)@, res) == spec_rel_outline(old(self)@, points@),
    {
        let c = self.path.get_current_point();
        if c.has_nan() {
            return Status::InvalidPathData;
        }
        self.outline(points)
    }

    /// Adds a triangle through (x1, y1), (x2, y2) and (x3, y3): an outline
    /// through the three points and back to the first.
    pub fn triangle(&mut self, x1: u32, y1: u32, x2: u32, y2: u32, x3: u32, y3: u32) -> (res:
        Status)
        requires
            old(self).wf(),
        ensures
            final(self).wf(),
            (final(self)@, res) == spec_outline(
                old(self)@,
                seq![
                    Point { x: x1, y: y1 },
                    Point { x: x2, y: y2 },
                    Point { x: x3, y: y3 },
                    Point { x: x1, y: y1 },
                ],
            ),
    {
        let a = Point::new(x1, y1);
        let b = Point::new(x2, y2);
        let c = Point::new(x3, y3);
        let corners = [a, b, c, a];
        assert(corners@ =~= seq![a, b, c, a]);
        self.outline(&corners)
    }
}

} // verus!
