//! Rasterizing trapezoids: from the pixels of a trapezoid's outline to the
//! pixels that it covers.

use vstd::prelude::*;

verus! {

/// A pixel, by its column and row.
#[derive(Debug, Clone, Copy, PartialEq, Eq, Structural)]
pub struct Pixel {
    pub x: i32,
    pub y: i32,
}

pub open spec fn min_int(a: int, b: int) -> int {
    if a <= b {
        a
    } else {
        b
    }
}

pub open spec fn max_int(a: int, b: int) -> int {
    if a >= b {
        a
    } else {
        b
    }
}

/// The least and the greatest row of a nonempty outline.
pub open spec fn row_span(outline: Seq<(i32, i32)>) -> (int, int)
    decreases outline.len(),
{
    if outline.len() <= 1 {
        (outline[0].1 as int, outline[0].1 as int)
    } else {
        let (lo, hi) = row_span(outline.drop_last());
        (min_int(lo, outline.last().1 as int), max_int(hi, outline.last().1 as int))
    }
}

/// The leftmost and the rightmost column among the outline pixels of row `y`;
/// `None` when the outline has no pixel in that row.
pub open spec fn column_span(outline: Seq<(i32, i32)>, y: int) -> Option<(int, int)>
    decreases outline.len(),
{
    if outline.len() == 0 {
        None
    } else {
        let rest = column_span(outline.drop_last(), y);
        let (px, py) = outline.last();
        if py != y {
            rest
        } else {
            match rest {
                None => Some((px as int, px as int)),
                Some((lo, hi)) => Some((min_int(lo, px as int), max_int(hi, px as int))),
            }
        }
    }
}

/// An outline that can be filled: it is not empty, every row from its least to
/// its greatest has an outline pixel, and the row after the last one, and the
/// column after the rightmost of each row, are still `i32` values.
pub open spec fn fillable(outline: Seq<(i32, i32)>) -> bool {
    &&& outline.len() > 0
    &&& row_span(outline).1 < i32::MAX
    &&& forall|y: int|
        row_span(outline).0 <= y <= row_span(outline).1 ==> {
            &&& (#[trigger] column_span(outline, y)) is Some
            &&& column_span(outline, y).unwrap().1 < i32::MAX
        }
}

/// The pixels of row `y` from column `lo` to column `hi`, left to right.
pub open spec fn row_run(y: int, lo: int, hi: int) -> Seq<Pixel> {
    Seq::new(
        if hi >= lo {
            (hi - lo + 1) as nat
        } else {
            0nat
        },
        |k: int| Pixel { x: (lo + k) as i32, y: y as i32 },
    )
}

/// Rows `from` to `to` of the filled outline, top to bottom, each from its
/// leftmost to its rightmost outline pixel.
pub open spec fn filled_rows(outline: Seq<(i32, i32)>, from: int, to: int) -> Seq<Pixel>
    decreases to + 1 - from,
{
    if to < from {
        Seq::empty()
    } else {
        let span = column_span(outline, to).unwrap();
        filled_rows(outline, from, to - 1) + row_run(to, span.0, span.1)
    }
}

/// Every pixel between the leftmost and the rightmost outline pixel of each
/// row, rows top to bottom.
pub open spec fn filled(outline: Seq<(i32, i32)>) -> Seq<Pixel> {
    filled_rows(outline, row_span(outline).0, row_span(outline).1)
}

proof fn lemma_row_span_bounds(outline: Seq<(i32, i32)>, i: int)
    requires
        0 <= i < outline.len(),
    ensures
        row_span(outline).0 <= outline[i].1 <= row_span(outline).1,
    decreases outline.len(),
{
    if outline.len() > 1 && i < outline.len() - 1 {
        lemma_row_span_bounds(outline.drop_last(), i);
    }
}

proof fn lemma_row_span_in_range(outline: Seq<(i32, i32)>)
    requires
        outline.len() > 0,
    ensures
        i32::MIN <= row_span(outline).0 <= row_span(outline).1 <= i32::MAX,
    decreases outline.len(),
{
    if outline.len() > 1 {
        lemma_row_span_in_range(outline.drop_last());
    }
}

proof fn lemma_column_span_bounds(outline: Seq<(i32, i32)>, i: int)
    requires
        0 <= i < outline.len(),
    ensures
        column_span(outline, outline[i].1 as int) matches Some((lo, hi)) && lo <= outline[i].0 <= hi,
    decreases outline.len(),
{
    if i < outline.len() - 1 {
        lemma_column_span_bounds(outline.drop_last(), i);
    }
}

proof fn lemma_filled_rows_contains(outline: Seq<(i32, i32)>, from: int, to: int, x: int, y: int)
    requires
        from <= y <= to,
        column_span(outline, y) matches Some((lo, hi)) && lo <= x <= hi,
        i32::MIN <= x <= i32::MAX,
        i32::MIN <= y <= i32::MAX,
    ensures
        filled_rows(outline, from, to).contains(Pixel { x: x as i32, y: y as i32 }),
    decreases to + 1 - from,
{
    let prefix = filled_rows(outline, from, to - 1);
    let span = column_span(outline, to).unwrap();
    let run = row_run(to, span.0, span.1);
    assert(filled_rows(outline, from, to) == prefix + run);
    if y == to {
        let k = x - span.0;
        assert(run[k] == Pixel { x: x as i32, y: y as i32 });
        assert((prefix + run)[prefix.len() + k] == run[k]);
    } else {
        lemma_filled_rows_contains(outline, from, to - 1, x, y);
        let j = choose|j: int| 0 <= j < prefix.len() && prefix[j] == Pixel { x: x as i32, y: y as i32 };
        assert((prefix + run)[j] == prefix[j]);
    }
}

/// Every pixel of the outline is among the pixels it covers.
pub proof fn lemma_outline_is_covered(outline: Seq<(i32, i32)>, i: int)
    requires
        fillable(outline),
        0 <= i < outline.len(),
    ensures
        filled(outline).contains(Pixel { x: outline[i].0, y: outline[i].1 }),
{
    lemma_row_span_bounds(outline, i);
    lemma_column_span_bounds(outline, i);
    lemma_filled_rows_contains(
        outline,
        row_span(outline).0,
        row_span(outline).1,
        outline[i].0 as int,
        outline[i].1 as int,
    );
}

proof fn lemma_column_span_in_range(outline: Seq<(i32, i32)>, y: int)
    ensures
        column_span(outline, y) matches Some((lo, hi)) ==> i32::MIN <= lo <= hi <= i32::MAX,
    decreases outline.len(),
{
    if outline.len() > 0 {
        lemma_column_span_in_range(outline.drop_last(), y);
    }
}

proof fn lemma_filled_rows_within(outline: Seq<(i32, i32)>, from: int, to: int, k: int)
    requires
        i32::MIN <= from,
        to <= i32::MAX,
        forall|y: int| from <= y <= to ==> (#[trigger] column_span(outline, y)) is Some,
        0 <= k < filled_rows(outline, from, to).len(),
    ensures
        from <= filled_rows(outline, from, to)[k].y <= to,
        column_span(outline, filled_rows(outline, from, to)[k].y as int) matches Some((lo, hi))
            && lo <= filled_rows(outline, from, to)[k].x <= hi,
    decreases to + 1 - from,
{
    let prefix = filled_rows(outline, from, to - 1);
    assert(column_span(outline, to) is Some);
    let span = column_span(outline, to).unwrap();
    lemma_column_span_in_range(outline, to);
    let run = row_run(to, span.0, span.1);
    assert(filled_rows(outline, from, to) == prefix + run);
    if k < prefix.len() {
        assert((prefix + run)[k] == prefix[k]);
        lemma_filled_rows_within(outline, from, to - 1, k);
    } else {
        assert((prefix + run)[k] == run[k - prefix.len()]);
    }
}

/// Every pixel covered lies on a row between the outline's least and greatest
/// rows, and between that row's leftmost and rightmost outline pixels.
pub proof fn lemma_covered_is_within_outline(outline: Seq<(i32, i32)>, k: int)
    requires
        fillable(outline),
        0 <= k < filled(outline).len(),
    ensures
        row_span(outline).0 <= filled(outline)[k].y <= row_span(outline).1,
        column_span(outline, filled(outline)[k].y as int) matches Some((lo, hi)) && lo
            <= filled(outline)[k].x <= hi,
{
    lemma_row_span_in_range(outline);
    lemma_filled_rows_within(outline, row_span(outline).0, row_span(outline).1, k);
}

fn rows_of(outline: &[(i32, i32)]) -> (res: (i32, i32))
    requires
        outline@.len() > 0,
    ensures
        res.0 == row_span(outline@).0,
        res.1 == row_span(outline@).1,
{
    let mut lo: i32 = outline[0].1;
    let mut hi: i32 = outline[0].1;
    let mut i: usize = 1;
    assert(outline@.take(1).drop_last().len() == 0);
    while i < outline.len()
        invariant
            1 <= i <= outline@.len(),
            lo == row_span(outline@.take(i as int)).0,
            hi == row_span(outline@.take(i as int)).1,
        decreases outline.len() - i,
    {
        assert(outline@.take(i + 1).drop_last() =~= outline@.take(i as int));
        let y = outline[i].1;
        if y < lo {
            lo = y;
        }
        if y > hi {
            hi = y;
        }
        i = i + 1;
    }
    assert(outline@.take(i as int) =~= outline@);
    (lo, hi)
}

fn columns_of(outline: &[(i32, i32)], y: i32) -> (res: Option<(i32, i32)>)
    ensures
        res is Some <==> column_span(outline@, y as int) is Some,
        res matches Some((lo, hi)) ==> column_span(outline@, y as int) == Some((lo as int, hi as int)),
        res matches Some((lo, hi)) ==> lo <= hi,
{
    let mut span: Option<(i32, i32)> = None;
    let mut i: usize = 0;
    while i < outline.len()
        invariant
            i <= outline@.len(),
            span is Some <==> column_span(outline@.take(i as int), y as int) is Some,
            span matches Some((lo, hi)) ==> column_span(outline@.take(i as int), y as int) == Some(
                (lo as int, hi as int),
            ),
            span matches Some((lo, hi)) ==> lo <= hi,
        decreases outline.len() - i,
    {
        assert(outline@.take(i + 1).drop_last() =~= outline@.take(i as int));
        let (px, py) = outline[i];
        if py == y {
            span = match span {
                None => Some((px, px)),
                Some((lo, hi)) => Some(
                    (if px < lo {
                        px
                    } else {
                        lo
                    }, if px > hi {
                        px
                    } else {
                        hi
                    }),
                ),
            };
        }
        i = i + 1;
    }
    assert(outline@.take(i as int) =~= outline@);
    span
}

/// Whether the outline can be filled (see `fillable`), which
/// `pixels_within_outline` needs.
pub fn is_fillable(outline: &[(i32, i32)]) -> (res: bool)
    ensures
        res == fillable(outline@),
{
    if outline.len() == 0 {
        return false;
    }
    let (min_y, max_y) = rows_of(outline);
    if max_y == i32::MAX {
        return false;
    }
    let mut y: i32 = min_y;
    while y <= max_y
        invariant
            outline@.len() > 0,
            min_y == row_span(outline@).0,
            max_y == row_span(outline@).1,
            max_y < i32::MAX,
            min_y <= y <= max_y + 1,
            forall|r: int|
                min_y <= r < y ==> {
                    &&& (#[trigger] column_span(outline@, r)) is Some
                    &&& column_span(outline@, r).unwrap().1 < i32::MAX
                },
        decreases max_y + 1 - y,
    {
        match columns_of(outline, y) {
            None => {
                return false;
            },
            Some((_, hi)) => {
                if hi == i32::MAX {
                    return false;
                }
            },
        }
        y = y + 1;
    }
    true
}

/// The pixels covered by a shape, given the pixels of its outline: for every
/// row from the least to the greatest row of the outline, top to bottom, the
/// pixels from the row's leftmost to its rightmost outline pixel, left to right.
pub fn pixels_within_outline(outline: &[(i32, i32)]) -> (res: Vec<Pixel>)
    requires
        fillable(outline@),
    ensures
        res@ == filled(outline@),
{
    let (min_y, max_y) = rows_of(outline);
    let mut pixels: Vec<Pixel> = Vec::new();
    let mut y: i32 = min_y;
    while y <= max_y
        invariant
            fillable(outline@),
            min_y == row_span(outline@).0,
            max_y == row_span(outline@).1,
            min_y <= y <= max_y + 1,
            pixels@ == filled_rows(outline@, min_y as int, y - 1),
        decreases max_y + 1 - y,
    {
        assert(column_span(outline@, y as int) is Some);
        let span = columns_of(outline, y);
        let (lo, hi) = match span {
            Some(s) => s,
            None => (0, -1),
        };
        let ghost before = pixels@;
        let mut x: i32 = lo;
        while x <= hi
            invariant
                lo <= x <= hi + 1,
                hi < i32::MAX,
                pixels@ == before + row_run(y as int, lo as int, x - 1),
            decreases hi + 1 - x,
        {
            pixels.push(Pixel { x, y });
            assert(pixels@ =~= before + row_run(y as int, lo as int, x as int));
            x = x + 1;
        }
        assert(pixels@ =~= filled_rows(outline@, min_y as int, y as int));
        y = y + 1;
    }
    pixels
}

} // verus!
