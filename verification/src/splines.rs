//! Bézier splines: their knots and the knots their end slopes are taken from.

use vstd::prelude::*;

use crate::common_geometry::{spec_point_eq, Point};
use crate::float_bits::spec_float_eq;

verus! {

/// The four knots of a cubic Bézier spline: end points `a` and `d`, control
/// points `b` and `c`.
#[derive(Debug, Clone, Copy)]
pub struct SplineKnots {
    pub a: Point,
    pub b: Point,
    pub c: Point,
    pub d: Point,
}

impl SplineKnots {
    /// The knots with the given points.
    pub fn create_from_points(a: &Point, b: &Point, c: &Point, d: &Point) -> (res: SplineKnots)
        ensures
            res == (SplineKnots { a: *a, b: *b, c: *c, d: *d }),
    {
        SplineKnots { a: *a, b: *b, c: *c, d: *d }
    }

    /// Four knots at the origin.
    pub fn new() -> (res: SplineKnots)
        ensures
            res == (SplineKnots {
                a: Point { x: 0, y: 0 },
                b: Point { x: 0, y: 0 },
                c: Point { x: 0, y: 0 },
                d: Point { x: 0, y: 0 },
            }),
    {
        SplineKnots {
            a: Point::origin(),
            b: Point::origin(),
            c: Point::origin(),
            d: Point::origin(),
        }
    }
}

/// The two knots that a slope is taken between, from `from` to `to`.
#[derive(Debug, Clone, Copy)]
pub struct SlopeEnds {
    pub from: Point,
    pub to: Point,
}

/// A spline: its knots, the knots its initial and final slopes are taken
/// between, and the last point emitted while decomposing it.
#[derive(Debug, Clone, Copy)]
pub struct Spline {
    pub knots: SplineKnots,
    pub initial_slope: SlopeEnds,
    pub final_slope: SlopeEnds,
    pub has_point: bool,
    pub last_point: Point,
}

/// The initial slope of a spline is taken from `a` to the first of `b`, `c`,
/// `d` that differs from `a`; `None` when none does.
pub open spec fn initial_slope_of(a: Point, b: Point, c: Point, d: Point) -> Option<SlopeEnds> {
    if !spec_point_eq(a, b) {
        Some(SlopeEnds { from: a, to: b })
    } else if !spec_point_eq(a, c) {
        Some(SlopeEnds { from: a, to: c })
    } else if !spec_point_eq(a, d) {
        Some(SlopeEnds { from: a, to: d })
    } else {
        None
    }
}

/// The final slope of a spline is taken to `d` from the last of `c`, `b` that
/// differs from `d`; `None` when neither does.
pub open spec fn final_slope_of(b: Point, c: Point, d: Point) -> Option<SlopeEnds> {
    if !spec_point_eq(c, d) {
        Some(SlopeEnds { from: c, to: d })
    } else if !spec_point_eq(b, d) {
        Some(SlopeEnds { from: b, to: d })
    } else {
        None
    }
}

/// What `spline_init` makes of `s` given the knots, and whether it reports a
/// curve: when both tangents are zero (`a` equals `b` and `c` equals `d`) the
/// spline is left as it was and `false` is returned; otherwise the knots are
/// set, then the initial slope if it exists, then the final slope if it exists,
/// and `true` is returned when both exist.
pub open spec fn spline_init_result(s: Spline, a: Point, b: Point, c: Point, d: Point) -> (
    Spline,
    bool,
) {
    if spec_point_eq(a, b) && spec_point_eq(c, d) {
        (s, false)
    } else {
        let with_knots = Spline { knots: SplineKnots { a, b, c, d }, ..s };
        match initial_slope_of(a, b, c, d) {
            None => (with_knots, false),
            Some(first) => {
                let with_initial = Spline { initial_slope: first, ..with_knots };
                match final_slope_of(b, c, d) {
                    None => (with_initial, false),
                    Some(last) => (Spline { final_slope: last, ..with_initial }, true),
                }
            },
        }
    }
}

/// The two points are the same as floats compare: both coordinates equal.
pub open spec fn same_knot(p: Point, q: Point) -> bool {
    spec_float_eq(p.x, q.x) && spec_float_eq(p.y, q.y)
}

/// Setting up a spline:
/// - when `a` differs from `b` and `c` from `d`, the knots become `a, b, c, d`,
///   the initial slope `a` to `b`, the final slope `c` to `d`, and `true` is
///   returned, whatever `d` is relative to `a` (a closed loop included);
/// - when `a` equals `b` and `c` equals `d`, the spline is left as it was and
///   `false` is returned;
/// - whenever `true` is returned, the knots are `a, b, c, d`, the initial slope
///   starts at `a` and goes to a knot different from `a`, and the final slope
///   ends at `d` and comes from a knot different from `d`;
/// - the fields that record emitted points are never touched.
pub proof fn lemma_spline_init_law(s: Spline, a: Point, b: Point, c: Point, d: Point)
    ensures
        !same_knot(a, b) && !same_knot(c, d) ==> spline_init_result(s, a, b, c, d) == (Spline {
            knots: SplineKnots { a, b, c, d },
            initial_slope: SlopeEnds { from: a, to: b },
            final_slope: SlopeEnds { from: c, to: d },
            has_point: s.has_point,
            last_point: s.last_point,
        }, true),
        same_knot(a, b) && same_knot(c, d) ==> spline_init_result(s, a, b, c, d) == (s, false),
        spline_init_result(s, a, b, c, d).1 ==> {
            let r = spline_init_result(s, a, b, c, d).0;
            &&& r.knots == SplineKnots { a, b, c, d }
            &&& r.initial_slope.from == a
            &&& !same_knot(a, r.initial_slope.to)
            &&& r.initial_slope.to == b || r.initial_slope.to == c || r.initial_slope.to == d
            &&& r.final_slope.to == d
            &&& !same_knot(r.final_slope.from, d)
            &&& r.final_slope.from == b || r.final_slope.from == c
        },
        spline_init_result(s, a, b, c, d).0.has_point == s.has_point,
        spline_init_result(s, a, b, c, d).0.last_point == s.last_point,
{
}

impl Spline {
    /// Sets up `spline` for the curve with knots `a`, `b`, `c`, `d`: records
    /// the knots and the knots its initial and final slopes are taken between.
    /// Returns `false` when the curve is a straight line (both tangents are
    /// zero, or no slope can be taken); see `spline_init_result`.
    pub fn spline_init(spline: &mut Spline, a: Point, b: Point, c: Point, d: Point) -> (res: bool)
        ensures
            (*final(spline), res) == spline_init_result(*old(spline), a, b, c, d),
    {
        if a.eq(&b) && c.eq(&d) {
            return false;
        }
        spline.knots = SplineKnots::create_from_points(&a, &b, &c, &d);
        if !a.eq(&b) {
            spline.initial_slope = SlopeEnds { from: spline.knots.a, to: spline.knots.b };
        } else if !a.eq(&c) {
            spline.initial_slope = SlopeEnds { from: spline.knots.a, to: spline.knots.c };
        } else if !a.eq(&d) {
            spline.initial_slope = SlopeEnds { from: spline.knots.a, to: spline.knots.d };
        } else {
            return false;
        }
        if !c.eq(&d) {
            spline.final_slope = SlopeEnds { from: spline.knots.c, to: spline.knots.d };
        } else if !b.eq(&d) {
            spline.final_slope = SlopeEnds { from: spline.knots.b, to: spline.knots.d };
        } else {
            return false;
        }
        true
    }
}

} // verus!
