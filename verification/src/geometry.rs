//! Points, sizes and rectangles of the logical coordinate space.
//!
//! Sums and differences of points saturate at the ends of `i32`, and so do
//! the edges of a rectangle.
use vstd::prelude::*;

verus! {

/// A position.
#[derive(Clone, Copy, Debug, PartialEq, Eq, Structural)]
pub struct Point {
    pub x: i32,
    pub y: i32,
}

/// A width and a height.
#[derive(Clone, Copy, Debug, PartialEq, Eq, Structural)]
pub struct Size {
    pub w: i32,
    pub h: i32,
}

/// A rectangle, given by its top left corner and its size.
#[derive(Clone, Copy, Debug, PartialEq, Eq, Structural)]
pub struct Rectangle {
    pub loc: Point,
    pub size: Size,
}

/// The `i32` closest to `x`.
pub open spec fn saturate(x: int) -> i32 {
    if x < i32::MIN {
        i32::MIN
    } else if x > i32::MAX {
        i32::MAX
    } else {
        x as i32
    }
}

/// The smaller of two numbers.
pub open spec fn least(a: i32, b: i32) -> i32 {
    if a <= b {
        a
    } else {
        b
    }
}

/// The larger of two numbers.
pub open spec fn greatest(a: i32, b: i32) -> i32 {
    if a >= b {
        a
    } else {
        b
    }
}

fn to_i32_saturating(x: i64) -> (r: i32)
    ensures
        r == saturate(x as int),
{
    if x < -0x8000_0000 {
        i32::MIN
    } else if x > 0x7fff_ffff {
        i32::MAX
    } else {
        x as i32
    }
}

fn min_i32(a: i32, b: i32) -> (r: i32)
    ensures
        r == least(a, b),
{
    if a <= b {
        a
    } else {
        b
    }
}

fn max_i32(a: i32, b: i32) -> (r: i32)
    ensures
        r == greatest(a, b),
{
    if a >= b {
        a
    } else {
        b
    }
}

impl Point {
    /// The origin.
    pub open spec fn origin() -> Point {
        Point { x: 0, y: 0 }
    }

    /// The sum of two points, coordinate by coordinate.
    pub open spec fn plus(self, other: Point) -> Point {
        Point { x: saturate(self.x + other.x), y: saturate(self.y + other.y) }
    }

    /// The difference of two points, coordinate by coordinate.
    pub open spec fn minus(self, other: Point) -> Point {
        Point { x: saturate(self.x - other.x), y: saturate(self.y - other.y) }
    }

    /// Adds `other` to this point.
    pub fn translate(self, other: Point) -> (r: Point)
        ensures
            r == self.plus(other),
    {
        Point {
            x: to_i32_saturating(self.x as i64 + other.x as i64),
            y: to_i32_saturating(self.y as i64 + other.y as i64),
        }
    }

    /// Subtracts `other` from this point.
    pub fn relative_to(self, other: Point) -> (r: Point)
        ensures
            r == self.minus(other),
    {
        Point {
            x: to_i32_saturating(self.x as i64 - other.x as i64),
            y: to_i32_saturating(self.y as i64 - other.y as i64),
        }
    }
}

impl Rectangle {
    /// The column of the corner opposite to `loc`.
    pub open spec fn far_x(self) -> i32 {
        saturate(self.loc.x + self.size.w)
    }

    /// The row of the corner opposite to `loc`.
    pub open spec fn far_y(self) -> i32 {
        saturate(self.loc.y + self.size.h)
    }

    /// The left edge. It is `loc.x` unless the width is negative.
    pub open spec fn left(self) -> i32 {
        least(self.loc.x, self.far_x())
    }

    /// The right edge.
    pub open spec fn right(self) -> i32 {
        greatest(self.loc.x, self.far_x())
    }

    /// The top edge. It is `loc.y` unless the height is negative.
    pub open spec fn top(self) -> i32 {
        least(self.loc.y, self.far_y())
    }

    /// The bottom edge.
    pub open spec fn bottom(self) -> i32 {
        greatest(self.loc.y, self.far_y())
    }

    /// The smallest rectangle around both, with the size cut off at `i32::MAX`.
    pub open spec fn merged(self, other: Rectangle) -> Rectangle {
        let left = least(self.left(), other.left());
        let top = least(self.top(), other.top());
        let right = greatest(self.right(), other.right());
        let bottom = greatest(self.bottom(), other.bottom());
        Rectangle {
            loc: Point { x: left, y: top },
            size: Size { w: saturate(right - left), h: saturate(bottom - top) },
        }
    }

    /// Whether `other` lies within this rectangle.
    pub open spec fn encloses(self, other: Rectangle) -> bool {
        &&& self.left() <= other.left()
        &&& other.right() <= self.right()
        &&& self.top() <= other.top()
        &&& other.bottom() <= self.bottom()
    }

    /// Whether the rectangle has no width or no height.
    pub fn is_empty(self) -> (r: bool)
        ensures
            r == (self.size.w == 0 || self.size.h == 0),
    {
        self.size.w == 0 || self.size.h == 0
    }

    /// Merges two rectangles into the smallest one that contains both.
    pub fn merge(self, other: Rectangle) -> (r: Rectangle)
        ensures
            r == self.merged(other),
    {
        let self_far = self.loc.translate(Point { x: self.size.w, y: self.size.h });
        let other_far = other.loc.translate(Point { x: other.size.w, y: other.size.h });
        let left: i32 = min_i32(min_i32(self.loc.x, self_far.x), min_i32(other.loc.x, other_far.x));
        let top: i32 = min_i32(min_i32(self.loc.y, self_far.y), min_i32(other.loc.y, other_far.y));
        let right: i32 = max_i32(max_i32(self.loc.x, self_far.x), max_i32(other.loc.x, other_far.x));
        let bottom: i32 = max_i32(max_i32(self.loc.y, self_far.y), max_i32(other.loc.y, other_far.y));
        let span = Point { x: right, y: bottom }.relative_to(Point { x: left, y: top });
        Rectangle { loc: Point { x: left, y: top }, size: Size { w: span.x, h: span.y } }
    }

    /// Merges `first` with each rectangle of `rest` in turn.
    pub open spec fn merged_all(first: Rectangle, rest: Seq<Rectangle>) -> Rectangle
        decreases rest.len(),
    {
        if rest.len() == 0 {
            first
        } else {
            Rectangle::merged_all(first, rest.drop_last()).merged(rest.last())
        }
    }
}

/// Whether the rectangles are close enough together for an `i32` to hold the
/// width and the height of a rectangle around all of them.
pub open spec fn span_fits(rects: Seq<Rectangle>) -> bool {
    forall|i: int, j: int|
        #![trigger rects[i], rects[j]]
        0 <= i < rects.len() && 0 <= j < rects.len() ==> {
            &&& rects[i].right() - rects[j].left() <= i32::MAX
            &&& rects[i].bottom() - rects[j].top() <= i32::MAX
        }
}

/// Whether `r` contains all of `rects` and each of its edges is an edge of one
/// of them, so that no smaller rectangle contains them all.
pub open spec fn is_bounding_box(r: Rectangle, rects: Seq<Rectangle>) -> bool {
    &&& forall|i: int| 0 <= i < rects.len() ==> r.encloses(#[trigger] rects[i])
    &&& exists|i: int| 0 <= i < rects.len() && (#[trigger] rects[i]).left() == r.left()
    &&& exists|i: int| 0 <= i < rects.len() && (#[trigger] rects[i]).right() == r.right()
    &&& exists|i: int| 0 <= i < rects.len() && (#[trigger] rects[i]).top() == r.top()
    &&& exists|i: int| 0 <= i < rects.len() && (#[trigger] rects[i]).bottom() == r.bottom()
}

/// Merging gives the same rectangle in either order.
pub proof fn law_merge_commutes(a: Rectangle, b: Rectangle)
    ensures
        a.merged(b) == b.merged(a),
{
}

/// A merged rectangle contains both of its parts, if its size fits in `i32`.
pub proof fn law_merge_encloses(a: Rectangle, b: Rectangle)
    requires
        span_fits(seq![a, b]),
    ensures
        a.merged(b).encloses(a),
        a.merged(b).encloses(b),
        is_bounding_box(a.merged(b), seq![a, b]),
{
    let rects = seq![a, b];
    assert(rects[0] == a && rects[1] == b);
    assert(a.merged(b).left() == least(a.left(), b.left()));
    assert(a.merged(b).right() == greatest(a.right(), b.right()));
    assert(a.merged(b).top() == least(a.top(), b.top()));
    assert(a.merged(b).bottom() == greatest(a.bottom(), b.bottom()));
}

/// A direction: 0 is left, 1 is right, 2 is up and 3 is down. Left and up are
/// the near sides of their axes.
spec fn is_near(side: int) -> bool {
    side == 0 || side == 2
}

/// How far a rectangle extends to a side.
#[verifier::opaque]
spec fn reach(r: Rectangle, side: int) -> int {
    if side == 0 {
        -r.left()
    } else if side == 1 {
        r.right() as int
    } else if side == 2 {
        -r.top()
    } else {
        r.bottom() as int
    }
}

/// Where a rectangle starts on the axis of a near side, and its length there.
#[verifier::opaque]
spec fn placement(r: Rectangle, near: int) -> (i32, i32) {
    if near == 0 {
        (r.loc.x, r.size.w)
    } else {
        (r.loc.y, r.size.h)
    }
}

/// How far the farthest of the rectangles extends to a side.
spec fn extent(first: Rectangle, rest: Seq<Rectangle>, side: int) -> int
    decreases rest.len(),
{
    if rest.len() == 0 {
        reach(first, side)
    } else {
        let before = extent(first, rest.drop_last(), side);
        let last = reach(rest.last(), side);
        if before >= last {
            before
        } else {
            last
        }
    }
}

/// Whether some rectangle extends to a side as far as `m`, and none farther.
spec fn is_extent(m: int, rects: Seq<Rectangle>, side: int) -> bool {
    &&& forall|i: int| 0 <= i < rects.len() ==> #[trigger] reach(rects[i], side) <= m
    &&& exists|i: int| 0 <= i < rects.len() && #[trigger] reach(rects[i], side) == m
}

proof fn lemma_extent(first: Rectangle, rest: Seq<Rectangle>, side: int)
    ensures
        is_extent(extent(first, rest, side), rest.push(first), side),
    decreases rest.len(),
{
    let all = rest.push(first);
    let n = rest.len() as int;
    assert(all[n] == first);
    if n == 0 {
        assert(reach(all[0], side) == extent(first, rest, side));
    } else {
        let fewer = rest.drop_last().push(first);
        let before = extent(first, rest.drop_last(), side);
        lemma_extent(first, rest.drop_last(), side);
        assert(all[n - 1] == rest.last());
        assert(fewer[n - 1] == first);
        let k = choose|i: int| 0 <= i < n && #[trigger] reach(fewer[i], side) == before;
        let at = if k == n - 1 { n } else { k };
        assert(reach(all[at], side) == before);
        assert(reach(all[n - 1], side) == reach(rest.last(), side));
        assert forall|i: int| 0 <= i < all.len() implies #[trigger] reach(all[i], side) <= extent(
            first,
            rest,
            side,
        ) by {
            if i == n {
                assert(reach(fewer[n - 1], side) <= before);
            } else if i < n - 1 {
                assert(all[i] == fewer[i]);
                assert(reach(fewer[i], side) <= before);
            }
        }
    }
}

/// A merged rectangle starts where the nearer of its parts does. It is as long
/// as it has to be to get to the end of the farther one, or else as long as an
/// `i32` can tell.
proof fn lemma_merge_on_axis(a: Rectangle, b: Rectangle, near: int)
    requires
        is_near(near),
    ensures
        ({
            let start = if reach(a, near) >= reach(b, near) {
                reach(a, near)
            } else {
                reach(b, near)
            };
            let end = if reach(a, near + 1) >= reach(b, near + 1) {
                reach(a, near + 1)
            } else {
                reach(b, near + 1)
            };
            let r = a.merged(b);
            &&& placement(r, near) == ((-start) as i32, saturate(start + end))
            &&& i32::MIN <= -start <= i32::MAX
            &&& reach(r, near) == start
            &&& reach(r, near + 1) == if start + end <= i32::MAX {
                end
            } else {
                i32::MAX - start
            }
        }),
{
    reveal(reach);
    reveal(placement);
}

/// Merged rectangles start where the nearest of them does. They get as far as
/// the farthest, or else as far as an `i32` can tell.
proof fn lemma_merged_all_on_axis(first: Rectangle, rest: Seq<Rectangle>, near: int)
    requires
        is_near(near),
    ensures
        ({
            let r = Rectangle::merged_all(first, rest);
            let start = extent(first, rest, near);
            let end = extent(first, rest, near + 1);
            &&& reach(r, near) == start
            &&& reach(r, near + 1) <= end
            &&& reach(r, near + 1) == end || i32::MAX <= start + reach(r, near + 1)
            &&& rest.len() > 0 ==> placement(r, near) == ((-start) as i32, saturate(start + end))
        }),
    decreases rest.len(),
{
    if rest.len() > 0 {
        let before = Rectangle::merged_all(first, rest.drop_last());
        lemma_merged_all_on_axis(first, rest.drop_last(), near);
        lemma_merge_on_axis(before, rest.last(), near);
    }
}

/// Merging rectangles one after the other gives their bounding box, if its
/// size fits in `i32`.
pub proof fn law_merged_all_is_bounding_box(first: Rectangle, rest: Seq<Rectangle>)
    requires
        span_fits(rest.push(first)),
    ensures
        is_bounding_box(Rectangle::merged_all(first, rest), rest.push(first)),
{
    let all = rest.push(first);
    let r = Rectangle::merged_all(first, rest);
    lemma_extent(first, rest, 0);
    lemma_extent(first, rest, 1);
    lemma_extent(first, rest, 2);
    lemma_extent(first, rest, 3);
    lemma_merged_all_on_axis(first, rest, 0);
    lemma_merged_all_on_axis(first, rest, 2);
    let il = choose|i: int|
        0 <= i < all.len() && #[trigger] reach(all[i], 0) == extent(first, rest, 0);
    let ir = choose|i: int|
        0 <= i < all.len() && #[trigger] reach(all[i], 1) == extent(first, rest, 1);
    let it = choose|i: int|
        0 <= i < all.len() && #[trigger] reach(all[i], 2) == extent(first, rest, 2);
    let ib = choose|i: int|
        0 <= i < all.len() && #[trigger] reach(all[i], 3) == extent(first, rest, 3);
    assert(reach(all[ir], 1) + reach(all[il], 0) <= i32::MAX) by {
        reveal(reach);
        assert(all[ir].right() - all[il].left() <= i32::MAX);
    }
    assert(reach(all[ib], 3) + reach(all[it], 2) <= i32::MAX) by {
        reveal(reach);
        assert(all[ib].bottom() - all[it].top() <= i32::MAX);
    }
    assert(all[il].left() == r.left() && all[ir].right() == r.right()) by {
        reveal(reach);
    }
    assert(all[it].top() == r.top() && all[ib].bottom() == r.bottom()) by {
        reveal(reach);
    }
    assert forall|i: int| 0 <= i < all.len() implies r.encloses(#[trigger] all[i]) by {
        assert(reach(all[i], 0) <= reach(r, 0));
        assert(reach(all[i], 1) <= reach(r, 1));
        assert(reach(all[i], 2) <= reach(r, 2));
        assert(reach(all[i], 3) <= reach(r, 3));
        reveal(reach);
    }
}

/// Rectangles that all occur in `all` extend to a side at most as far.
proof fn lemma_extent_of_part(m: int, some: Seq<Rectangle>, n: int, all: Seq<Rectangle>, side: int)
    requires
        is_extent(m, some, side),
        is_extent(n, all, side),
        forall|i: int| 0 <= i < some.len() ==> all.contains(#[trigger] some[i]),
    ensures
        m <= n,
{
    let i = choose|i: int| 0 <= i < some.len() && #[trigger] reach(some[i], side) == m;
    assert(all.contains(some[i]));
    let j = choose|j: int| 0 <= j < all.len() && all[j] == some[i];
    assert(reach(all[j], side) <= n);
}

/// What rectangles merge into does not depend on the order in which they come.
pub proof fn law_bounding_box_ignores_order(
    first1: Rectangle,
    rest1: Seq<Rectangle>,
    first2: Rectangle,
    rest2: Seq<Rectangle>,
)
    requires
        rest1.push(first1).to_multiset() == rest2.push(first2).to_multiset(),
    ensures
        Rectangle::merged_all(first1, rest1) == Rectangle::merged_all(first2, rest2),
{
    let all1 = rest1.push(first1);
    let all2 = rest2.push(first2);
    let r1 = Rectangle::merged_all(first1, rest1);
    let r2 = Rectangle::merged_all(first2, rest2);
    all1.to_multiset_ensures();
    all2.to_multiset_ensures();
    assert forall|i: int| 0 <= i < all2.len() implies all1.contains(#[trigger] all2[i]) by {
        assert(all2.contains(all2[i]));
        assert(all2.to_multiset().count(all2[i]) > 0);
    }
    assert forall|i: int| 0 <= i < all1.len() implies all2.contains(#[trigger] all1[i]) by {
        assert(all1.contains(all1[i]));
        assert(all1.to_multiset().count(all1[i]) > 0);
    }
    if rest1.len() == 0 {
        assert(all1[0] == first1 && all2[0] == first2);
        assert(all2.contains(all1[0]));
    } else {
        assert forall|side: int| #[trigger] extent(first1, rest1, side) == extent(
            first2,
            rest2,
            side,
        ) by {
            let m1 = extent(first1, rest1, side);
            let m2 = extent(first2, rest2, side);
            lemma_extent(first1, rest1, side);
            lemma_extent(first2, rest2, side);
            lemma_extent_of_part(m1, all1, m2, all2, side);
            lemma_extent_of_part(m2, all2, m1, all1, side);
        }
        lemma_merged_all_on_axis(first1, rest1, 0);
        lemma_merged_all_on_axis(first1, rest1, 2);
        lemma_merged_all_on_axis(first2, rest2, 0);
        lemma_merged_all_on_axis(first2, rest2, 2);
        assert(placement(r1, 0) == placement(r2, 0) && placement(r1, 2) == placement(r2, 2));
        reveal(placement);
    }
}

/// How far apart two numbers are.
pub open spec fn distance(a: int, b: int) -> int {
    if a <= b {
        b - a
    } else {
        a - b
    }
}

/// Each coordinate of a sum is the `i32` closest to the sum of the coordinates:
/// no other `i32` is closer.
pub proof fn law_sum_is_closest(a: Point, b: Point, sum: Point, other: Point)
    requires
        call_ensures(Point::translate, (a, b), sum),
    ensures
        distance(sum.x as int, a.x + b.x) <= distance(other.x as int, a.x + b.x),
        distance(sum.y as int, a.y + b.y) <= distance(other.y as int, a.y + b.y),
        i32::MIN <= a.x + b.x <= i32::MAX ==> sum.x == a.x + b.x,
        i32::MIN <= a.y + b.y <= i32::MAX ==> sum.y == a.y + b.y,
{
}

/// Each coordinate of a difference is the `i32` closest to the difference of
/// the coordinates: no other `i32` is closer.
pub proof fn law_difference_is_closest(a: Point, b: Point, difference: Point, other: Point)
    requires
        call_ensures(Point::relative_to, (a, b), difference),
    ensures
        distance(difference.x as int, a.x - b.x) <= distance(other.x as int, a.x - b.x),
        distance(difference.y as int, a.y - b.y) <= distance(other.y as int, a.y - b.y),
        i32::MIN <= a.x - b.x <= i32::MAX ==> difference.x == a.x - b.x,
        i32::MIN <= a.y - b.y <= i32::MAX ==> difference.y == a.y - b.y,
{
}

/// The edges of a rectangle are its location and the `i32` closest to the
/// opposite corner, in their order.
pub proof fn law_edges(r: Rectangle, other: i32)
    ensures
        r.size.w >= 0 ==> r.left() == r.loc.x && distance(
            r.right() as int,
            r.loc.x + r.size.w,
        ) <= distance(other as int, r.loc.x + r.size.w),
        r.size.w <= 0 ==> r.right() == r.loc.x && distance(
            r.left() as int,
            r.loc.x + r.size.w,
        ) <= distance(other as int, r.loc.x + r.size.w),
        r.size.h >= 0 ==> r.top() == r.loc.y && distance(
            r.bottom() as int,
            r.loc.y + r.size.h,
        ) <= distance(other as int, r.loc.y + r.size.h),
        r.size.h <= 0 ==> r.bottom() == r.loc.y && distance(
            r.top() as int,
            r.loc.y + r.size.h,
        ) <= distance(other as int, r.loc.y + r.size.h),
{
}

/// A rectangle is empty if and only if it has no area.
pub proof fn law_empty_has_no_area(r: Rectangle, empty: bool)
    requires
        call_ensures(Rectangle::is_empty, (r,), empty),
    ensures
        empty <==> r.size.w * r.size.h == 0,
{
    let w = r.size.w as int;
    let h = r.size.h as int;
    assert(w * h == 0 <==> w == 0 || h == 0) by (nonlinear_arith);
}

/// Whether `r` starts at the leftmost and topmost of the edges of `rects` and
/// gets to the rightmost and lowest of them, or else as far as an `i32` can tell.
pub open spec fn surrounds(r: Rectangle, rects: Seq<Rectangle>) -> bool {
    &&& forall|i: int| 0 <= i < rects.len() ==> r.loc.x <= (#[trigger] rects[i]).left()
    &&& forall|i: int| 0 <= i < rects.len() ==> r.loc.y <= (#[trigger] rects[i]).top()
    &&& exists|i: int| 0 <= i < rects.len() && r.loc.x == (#[trigger] rects[i]).left()
    &&& exists|i: int| 0 <= i < rects.len() && r.loc.y == (#[trigger] rects[i]).top()
    &&& 0 <= r.size.w
    &&& 0 <= r.size.h
    &&& exists|i: int|
        0 <= i < rects.len() && r.loc.x + r.size.w <= (#[trigger] rects[i]).right()
    &&& exists|i: int|
        0 <= i < rects.len() && r.loc.y + r.size.h <= (#[trigger] rects[i]).bottom()
    &&& r.size.w < i32::MAX ==> forall|i: int|
        0 <= i < rects.len() ==> (#[trigger] rects[i]).right() <= r.loc.x + r.size.w
    &&& r.size.h < i32::MAX ==> forall|i: int|
        0 <= i < rects.len() ==> (#[trigger] rects[i]).bottom() <= r.loc.y + r.size.h
}

/// Two or more rectangles merge into one that surrounds them, wherever they
/// lie.
pub proof fn law_merged_all_surrounds(first: Rectangle, rest: Seq<Rectangle>)
    requires
        rest.len() > 0,
    ensures
        surrounds(Rectangle::merged_all(first, rest), rest.push(first)),
{
    let all = rest.push(first);
    let r = Rectangle::merged_all(first, rest);
    lemma_extent(first, rest, 0);
    lemma_extent(first, rest, 1);
    lemma_extent(first, rest, 2);
    lemma_extent(first, rest, 3);
    lemma_merged_all_on_axis(first, rest, 0);
    lemma_merged_all_on_axis(first, rest, 2);
    let il = choose|i: int|
        0 <= i < all.len() && #[trigger] reach(all[i], 0) == extent(first, rest, 0);
    let ir = choose|i: int|
        0 <= i < all.len() && #[trigger] reach(all[i], 1) == extent(first, rest, 1);
    let it = choose|i: int|
        0 <= i < all.len() && #[trigger] reach(all[i], 2) == extent(first, rest, 2);
    let ib = choose|i: int|
        0 <= i < all.len() && #[trigger] reach(all[i], 3) == extent(first, rest, 3);
    assert(reach(all[il], 1) <= reach(all[ir], 1) && reach(all[it], 3) <= reach(all[ib], 3));
    assert forall|i: int| 0 <= i < all.len() implies {
        &&& -reach(all[il], 0) <= (#[trigger] all[i]).left()
        &&& all[i].right() <= reach(all[ir], 1)
        &&& -reach(all[it], 2) <= all[i].top()
        &&& all[i].bottom() <= reach(all[ib], 3)
    } by {
        assert(reach(all[i], 0) <= reach(all[il], 0));
        assert(reach(all[i], 1) <= reach(all[ir], 1));
        assert(reach(all[i], 2) <= reach(all[it], 2));
        assert(reach(all[i], 3) <= reach(all[ib], 3));
        reveal(reach);
    }
    reveal(reach);
    reveal(placement);
    assert(r.loc.x == all[il].left() && r.loc.y == all[it].top());
    assert(r.loc.x + r.size.w <= all[ir].right());
    assert(r.loc.y + r.size.h <= all[ib].bottom());
}

/// Merging two rectangles gives one that surrounds both, wherever they lie.
pub proof fn law_merge_surrounds(a: Rectangle, b: Rectangle, r: Rectangle)
    requires
        call_ensures(Rectangle::merge, (a, b), r),
    ensures
        surrounds(r, seq![a, b]),
{
    law_merged_all_surrounds(b, seq![a]);
    assert(seq![a].drop_last() =~= Seq::<Rectangle>::empty());
    assert(Rectangle::merged_all(b, Seq::<Rectangle>::empty()) == b);
    assert(Rectangle::merged_all(b, seq![a]) == b.merged(a));
    law_merge_commutes(a, b);
    assert(seq![a].push(b) =~= seq![a, b]);
}

} // verus!
