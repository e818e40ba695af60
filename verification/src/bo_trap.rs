//! The decisions of the Bentley-Ottmann sweep that turns edges into
//! trapezoids: how events are ordered, where an edge goes in the sweep-line
//! list, and whether the region right of an edge is filled.

use core::cmp::Ordering;
use vstd::prelude::*;
use vstd::std_specs::cmp::PartialOrdSpecImpl;

verus! {

/// A type of event. Events at one point are ordered End < Intersection < Start.
#[derive(Debug, Clone, Copy, PartialEq, Eq, Structural, Ord)]
pub enum EventType {
    End,
    Intersection,
    Start,
}

/// The position of an event type in the order End < Intersection < Start.
pub open spec fn event_type_rank(t: EventType) -> int {
    match t {
        EventType::End => 0,
        EventType::Intersection => 1,
        EventType::Start => 2,
    }
}

/// The order of two event types.
pub open spec fn event_type_order(a: EventType, b: EventType) -> Ordering {
    if event_type_rank(a) < event_type_rank(b) {
        Ordering::Less
    } else if event_type_rank(a) == event_type_rank(b) {
        Ordering::Equal
    } else {
        Ordering::Greater
    }
}

impl EventType {
    /// Compares two event types: Start > Intersection > End.
    pub fn compare(&self, other: &EventType) -> (res: Ordering)
        ensures
            res == event_type_order(*self, *other),
    {
        match self {
            EventType::Start => match other {
                EventType::Start => Ordering::Equal,
                EventType::End => Ordering::Greater,
                EventType::Intersection => Ordering::Greater,
            },
            EventType::End => match other {
                EventType::Start => Ordering::Less,
                EventType::End => Ordering::Equal,
                EventType::Intersection => Ordering::Less,
            },
            EventType::Intersection => match other {
                EventType::Start => Ordering::Less,
                EventType::End => Ordering::Greater,
                EventType::Intersection => Ordering::Equal,
            },
        }
    }
}

impl PartialOrd for EventType {
    fn partial_cmp(&self, other: &EventType) -> (res: Option<Ordering>) {
        Some(self.compare(other))
    }
}

impl PartialOrdSpecImpl for EventType {
    open spec fn obeys_partial_cmp_spec() -> bool {
        true
    }

    open spec fn partial_cmp_spec(&self, other: &EventType) -> Option<Ordering> {
        Some(event_type_order(*self, *other))
    }
}

/// The order of event types is a total order: it is `Equal` exactly on equal
/// types, it is reversed when the arguments are swapped, and it is transitive.
pub proof fn lemma_event_type_order_total(a: EventType, b: EventType, c: EventType)
    ensures
        (event_type_order(a, b) == Ordering::Equal) <==> a == b,
        event_type_order(a, b) == Ordering::Less <==> event_type_order(b, a) == Ordering::Greater,
        event_type_order(a, b) == Ordering::Less && event_type_order(b, c) == Ordering::Less
            ==> event_type_order(a, c) == Ordering::Less,
{
}

/// The three event types in order: End < Intersection < Start.
pub proof fn lemma_event_type_chain()
    ensures
        event_type_order(EventType::End, EventType::Intersection) == Ordering::Less,
        event_type_order(EventType::Intersection, EventType::Start) == Ordering::Less,
        event_type_order(EventType::End, EventType::Start) == Ordering::Less,
{
}

/// The result of an ordering between floats, where an unordered pair (a NaN)
/// counts as `Equal`.
pub open spec fn settled(o: Option<Ordering>) -> Ordering {
    match o {
        Some(v) => v,
        None => Ordering::Equal,
    }
}

/// The order of two events, given how their points compare: by y first, then by
/// x, then by event type; two events that tie on all three compare `Greater`.
pub open spec fn event_order_of(
    y_order: Option<Ordering>,
    x_order: Option<Ordering>,
    a: EventType,
    b: EventType,
) -> Ordering {
    if settled(y_order) != Ordering::Equal {
        settled(y_order)
    } else if settled(x_order) != Ordering::Equal {
        settled(x_order)
    } else if event_type_order(a, b) == Ordering::Equal {
        Ordering::Greater
    } else {
        event_type_order(a, b)
    }
}

fn settle(o: Option<Ordering>) -> (res: Ordering)
    ensures
        res == settled(o),
{
    match o {
        Some(v) => v,
        None => Ordering::Equal,
    }
}

fn is_equal(o: Ordering) -> (res: bool)
    ensures
        res == (o == Ordering::Equal),
{
    match o {
        Ordering::Equal => true,
        _ => false,
    }
}

/// Orders two events. `y_order` and `x_order` are how the first event's point
/// compares with the second's (`partial_cmp` of the y and of the x
/// coordinates); `a` and `b` are their types. Events are ordered by y, then by
/// x, then by type (End < Intersection < Start); events that tie on all three
/// compare `Greater`.
pub fn event_order(y_order: Option<Ordering>, x_order: Option<Ordering>, a: EventType, b: EventType) -> (res: Ordering)
    ensures
        res == event_order_of(y_order, x_order, a, b),
{
    let y_compare = settle(y_order);
    if !is_equal(y_compare) {
        return y_compare;
    }
    let x_compare = settle(x_order);
    if !is_equal(x_compare) {
        return x_compare;
    }
    let type_compare = a.compare(&b);
    if is_equal(type_compare) {
        return Ordering::Greater;
    }
    type_compare
}

/// Where an edge goes relative to the next edge of the sweep-line list.
#[derive(Debug, Clone, Copy, PartialEq, Eq, Structural)]
pub enum Comparator {
    Greater,
    Less,
    Equal,
    Empty,
}

/// Places an edge relative to the next edge of the sweep-line list, given the
/// comparisons that decide it: whether the two edges lie on the same line,
/// whether the event's x equals the next edge's x at the event's y, whether it
/// is below it, and whether the edge's slope is below the next edge's. The same
/// line gives `Equal`; a common x is decided by the slopes (a smaller slope
/// gives `Greater`); otherwise an event left of the next edge gives `Greater`
/// and one right of it (or unordered with it) gives `Less`.
pub fn find_line_place(same_line: bool, x_equal: bool, x_less: bool, slope_less: bool) -> (res: Comparator)
    ensures
        res == (if same_line {
            Comparator::Equal
        } else if x_equal {
            if slope_less {
                Comparator::Greater
            } else {
                Comparator::Less
            }
        } else if x_less {
            Comparator::Greater
        } else {
            Comparator::Less
        }),
{
    if same_line {
        return Comparator::Equal;
    }
    if x_equal {
        if slope_less {
            Comparator::Greater
        } else {
            Comparator::Less
        }
    } else if x_less {
        Comparator::Greater
    } else {
        Comparator::Less
    }
}

/// The winding number of a ray: the sum of the directions of the edges it
/// crosses.
pub open spec fn winding_number(directions: Seq<i32>) -> int
    decreases directions.len(),
{
    if directions.len() == 0 {
        0
    } else {
        winding_number(directions.drop_last()) + directions.last()
    }
}

/// The same comparison seen from the other side.
pub open spec fn reversed(o: Ordering) -> Ordering {
    match o {
        Ordering::Less => Ordering::Greater,
        Ordering::Equal => Ordering::Equal,
        Ordering::Greater => Ordering::Less,
    }
}

/// An optional comparison seen from the other side.
pub open spec fn reversed_option(o: Option<Ordering>) -> Option<Ordering> {
    match o {
        Some(v) => Some(reversed(v)),
        None => None,
    }
}

/// Events are ordered lexicographically: a y that settles to other than
/// `Equal` decides, whatever the x and the types are; at an equal y, an x that
/// settles to other than `Equal` decides, whatever the types are; at an equal
/// point the types decide (End < Intersection < Start), and two events of one
/// type at one point compare `Greater`. Swapping two events at different
/// points, or of different types, reverses their order.
pub proof fn lemma_event_order_lexicographic(
    y_order: Option<Ordering>,
    x_order: Option<Ordering>,
    a: EventType,
    b: EventType,
)
    ensures
        settled(y_order) != Ordering::Equal ==> event_order_of(y_order, x_order, a, b) == settled(
            y_order,
        ),
        settled(y_order) == Ordering::Equal && settled(x_order) != Ordering::Equal
            ==> event_order_of(y_order, x_order, a, b) == settled(x_order),
        settled(y_order) == Ordering::Equal && settled(x_order) == Ordering::Equal ==> {
            &&& a == EventType::End && b != EventType::End ==> event_order_of(
                y_order,
                x_order,
                a,
                b,
            ) == Ordering::Less
            &&& a == EventType::Start && b != EventType::Start ==> event_order_of(
                y_order,
                x_order,
                a,
                b,
            ) == Ordering::Greater
            &&& a == EventType::Intersection && b == EventType::End ==> event_order_of(
                y_order,
                x_order,
                a,
                b,
            ) == Ordering::Greater
            &&& a == EventType::Intersection && b == EventType::Start ==> event_order_of(
                y_order,
                x_order,
                a,
                b,
            ) == Ordering::Less
            &&& a == b ==> event_order_of(y_order, x_order, a, b) == Ordering::Greater
        },
        !(settled(y_order) == Ordering::Equal && settled(x_order) == Ordering::Equal && a == b)
            ==> event_order_of(
            reversed_option(y_order),
            reversed_option(x_order),
            b,
            a,
        ) == reversed(event_order_of(y_order, x_order, a, b)),
{
}

/// The winding number is the plain sum of the directions: nothing for no
/// edges, and each edge adds its direction, a horizontal edge (direction 0)
/// included; so it adds up over concatenation, and a 0 direction inserted
/// anywhere leaves it unchanged.
pub proof fn lemma_winding_number_is_sum(s: Seq<i32>, t: Seq<i32>, x: i32, i: int)
    requires
        0 <= i <= s.len(),
    ensures
        winding_number(Seq::<i32>::empty()) == 0,
        winding_number(s.push(x)) == winding_number(s) + x,
        winding_number(s + t) == winding_number(s) + winding_number(t),
        winding_number(s.insert(i, 0)) == winding_number(s),
{
    assert(s.push(x).drop_last() =~= s);
    lemma_winding_number_concat(s, t);
    lemma_winding_number_concat(s.take(i), seq![0i32]);
    lemma_winding_number_concat(s.take(i), s.skip(i));
    lemma_winding_number_concat(s.take(i) + seq![0i32], s.skip(i));
    assert(s.take(i) + s.skip(i) =~= s);
    assert(s.insert(i, 0) =~= s.take(i) + seq![0i32] + s.skip(i));
    assert(seq![0i32].drop_last() =~= Seq::<i32>::empty());
}

proof fn lemma_winding_number_concat(s: Seq<i32>, t: Seq<i32>)
    ensures
        winding_number(s + t) == winding_number(s) + winding_number(t),
    decreases t.len(),
{
    if t.len() == 0 {
        assert(s + t =~= s);
    } else {
        lemma_winding_number_concat(s, t.drop_last());
        assert((s + t).drop_last() =~= s + t.drop_last());
    }
}

/// Every running sum of the directions, taken from the first, fits in `i32`.
pub open spec fn running_sums_fit(directions: Seq<i32>) -> bool {
    forall|k: int|
        0 <= k <= directions.len() ==> i32::MIN <= #[trigger] winding_number(directions.take(k))
            <= i32::MAX
}

/// Whether every running sum of `directions` fits in `i32`, which
/// `winding_fills` needs.
pub fn running_sums_fit_in_i32(directions: &[i32]) -> (res: bool)
    ensures
        res == running_sums_fit(directions@),
{
    let mut sum: i64 = 0;
    let mut i: usize = 0;
    assert(directions@.take(0) =~= Seq::<i32>::empty());
    while i < directions.len()
        invariant
            i <= directions.len(),
            sum == winding_number(directions@.take(i as int)),
            forall|k: int|
                0 <= k <= i ==> i32::MIN <= #[trigger] winding_number(directions@.take(k))
                    <= i32::MAX,
        decreases directions.len() - i,
    {
        assert(directions@.take(i + 1).drop_last() =~= directions@.take(i as int));
        sum = sum + directions[i] as i64;
        if sum < i32::MIN as i64 || sum > i32::MAX as i64 {
            assert(!(i32::MIN <= winding_number(directions@.take(i + 1)) <= i32::MAX));
            return false;
        }
        i = i + 1;
    }
    assert(directions@.take(i as int) =~= directions@);
    true
}

/// Whether the region right of an edge is filled: the directions of the edges
/// from the next edge to the end of the sweep-line list are summed, the sum is
/// masked with `mask` (`-1`, all bits, for the nonzero winding rule; `1` for
/// the even-odd rule), and the region is filled when something is left.
pub fn winding_fills(directions: &[i32], mask: i32) -> (res: bool)
    requires
        running_sums_fit(directions@),
    ensures
        res == ((winding_number(directions@) as i32) & mask != 0),
{
    let mut in_out: i32 = 0;
    let mut i: usize = 0;
    while i < directions.len()
        invariant
            i <= directions.len(),
            running_sums_fit(directions@),
            in_out == winding_number(directions@.take(i as int)),
        decreases directions.len() - i,
    {
        assert(directions@.take(i + 1).drop_last() =~= directions@.take(i as int));
        assert(i32::MIN <= winding_number(directions@.take(i + 1)) <= i32::MAX);
        in_out = in_out + directions[i];
        i = i + 1;
    }
    assert(directions@.take(i as int) =~= directions@);
    in_out = in_out & mask;
    in_out != 0
}

/// The two fill rules: with mask `-1` a region is filled exactly when the
/// winding number is nonzero; with mask `1`, exactly when it is odd.
pub proof fn lemma_fill_rules(directions: Seq<i32>)
    requires
        running_sums_fit(directions),
    ensures
        ((winding_number(directions) as i32) & -1i32 != 0) <==> winding_number(directions) != 0,
        ((winding_number(directions) as i32) & 1i32 != 0) <==> winding_number(directions) % 2 != 0,
{
    assert(directions.take(directions.len() as int) =~= directions);
    let w = winding_number(directions) as i32;
    assert(w == winding_number(directions));
    assert((w & -1i32 != 0) <==> w != 0) by (bit_vector);
    assert((w & 1i32 != 0) <==> w % 2 != 0) by (bit_vector);
}

} // verus!
