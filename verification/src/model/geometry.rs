//! Points, polygon rings and the edge rasterizer.
//!
//! A polygon edge is drawn as a run of sample points. The closer the map is
//! zoomed in, the more samples an edge of a given length gets, so that the
//! outline stays continuous on a coarse character grid.

use vstd::prelude::*;
use crate::fixed::{
    div_rounded, isqrt, lemma_rounded_quotient_antitone, lemma_rounded_quotient_is_nearest,
    rounded_quotient, sqrt_floor, lemma_sqrt_floor_bounds, COORD_LIMIT,
};

verus! {

/// A position on the map: `x` is the longitude or easting, `y` the latitude
/// or northing.
#[derive(Clone, Copy, Debug, PartialEq, Eq, Structural)]
pub struct Point {
    pub x: i64,
    pub y: i64,
}

impl Point {
    pub fn new(x: i64, y: i64) -> (p: Point)
        ensures
            p == (Point { x, y }),
    {
        Point { x, y }
    }

    /// The origin, which is also the pan offset of a fresh screen.
    pub open spec fn origin() -> Point {
        Point { x: 0, y: 0 }
    }

    pub fn x(&self) -> (x: i64)
        ensures
            x == self.x,
    {
        self.x
    }

    pub fn y(&self) -> (y: i64)
        ensures
            y == self.y,
    {
        self.y
    }
}

/// The outline of an area: the vertices of its outer ring in order. The ring
/// is closed, its last vertex joins the first, and no vertex is stored twice
/// for that.
#[derive(Debug)]
pub struct Polygon {
    pub exterior: Vec<Point>,
}

impl View for Polygon {
    type V = Seq<Point>;

    open spec fn view(&self) -> Seq<Point> {
        self.exterior@
    }
}

impl DeepView for Polygon {
    type V = Seq<Point>;

    open spec fn deep_view(&self) -> Seq<Point> {
        self.exterior@
    }
}

impl Clone for Polygon {
    fn clone(&self) -> (res: Polygon)
        ensures
            res@ == self@,
    {
        let mut exterior: Vec<Point> = Vec::new();
        let n: usize = self.exterior.len();
        let mut i: usize = 0;
        while i < n
            invariant
                n == self.exterior.len(),
                i <= n,
                exterior@ == self.exterior@.subrange(0, i as int),
            decreases n - i,
        {
            exterior.push(self.exterior[i]);
            i = i + 1;
        }
        Polygon { exterior }
    }
}

/// The sum of the `x` coordinates of `pts`.
pub open spec fn sum_x(pts: Seq<Point>) -> int
    decreases pts.len(),
{
    if pts.len() == 0 {
        0
    } else {
        sum_x(pts.drop_last()) + pts.last().x
    }
}

/// The sum of the `y` coordinates of `pts`.
pub open spec fn sum_y(pts: Seq<Point>) -> int
    decreases pts.len(),
{
    if pts.len() == 0 {
        0
    } else {
        sum_y(pts.drop_last()) + pts.last().y
    }
}

/// The arithmetic mean of the vertices `pts`, each coordinate rounded to the
/// nearest count; nothing for a ring without vertices.
pub open spec fn centroid_of(pts: Seq<Point>) -> Option<Point> {
    if pts.len() == 0 {
        None
    } else {
        Some(
            Point {
                x: rounded_quotient(sum_x(pts), pts.len() as int) as i64,
                y: rounded_quotient(sum_y(pts), pts.len() as int) as i64,
            },
        )
    }
}

proof fn lemma_sums_bounded(pts: Seq<Point>)
    ensures
        i64::MIN * pts.len() <= sum_x(pts) <= i64::MAX * pts.len(),
        i64::MIN * pts.len() <= sum_y(pts) <= i64::MAX * pts.len(),
    decreases pts.len(),
{
    if pts.len() > 0 {
        lemma_sums_bounded(pts.drop_last());
        let m = pts.len() - 1;
        assert(pts.drop_last().len() == m);
        assert(i64::MIN * (m + 1) == i64::MIN * m + i64::MIN) by (nonlinear_arith);
        assert(i64::MAX * (m + 1) == i64::MAX * m + i64::MAX) by (nonlinear_arith);
    }
}

proof fn lemma_mean_in_range(total: int, count: int, low: int, high: int)
    requires
        count > 0,
        low * count <= total <= high * count,
    ensures
        low <= rounded_quotient(total, count) <= high,
{
    let k = rounded_quotient(total, count);
    lemma_rounded_quotient_is_nearest(total, count);
    assert(low <= k <= high) by (nonlinear_arith)
        requires
            count > 0,
            low * count <= total <= high * count,
            -count <= 2 * (total - k * count) < count,
    ;
}

/// The mean of the vertices lies within the box that holds them all; here,
/// within the range of a coordinate.
pub proof fn lemma_centroid_fits(pts: Seq<Point>)
    requires
        pts.len() > 0,
    ensures
        i64::MIN <= rounded_quotient(sum_x(pts), pts.len() as int) <= i64::MAX,
        i64::MIN <= rounded_quotient(sum_y(pts), pts.len() as int) <= i64::MAX,
{
    lemma_sums_bounded(pts);
    lemma_mean_in_range(sum_x(pts), pts.len() as int, i64::MIN as int, i64::MAX as int);
    lemma_mean_in_range(sum_y(pts), pts.len() as int, i64::MIN as int, i64::MAX as int);
}

impl Polygon {
    /// The centroid that seeds the detail view: the mean of the vertices.
    pub fn centroid(&self) -> (c: Option<Point>)
        ensures
            c == centroid_of(self@),
    {
        let n: usize = self.exterior.len();
        if n == 0 {
            return None;
        }
        let mut total_x: i128 = 0;
        let mut total_y: i128 = 0;
        let mut i: usize = 0;
        while i < n
            invariant
                n == self.exterior.len(),
                i <= n,
                total_x == sum_x(self.exterior@.subrange(0, i as int)),
                total_y == sum_y(self.exterior@.subrange(0, i as int)),
            decreases n - i,
        {
            proof {
                let next = self.exterior@.subrange(0, i + 1);
                assert(next.drop_last() == self.exterior@.subrange(0, i as int));
                lemma_sums_bounded(next);
                assert(i64::MIN * (i + 1) >= i64::MIN * 0x1_0000_0000_0000_0000) by (nonlinear_arith)
                    requires
                        0 <= i + 1 <= 0x1_0000_0000_0000_0000,
                ;
                assert(i64::MAX * (i + 1) <= i64::MAX * 0x1_0000_0000_0000_0000) by (nonlinear_arith)
                    requires
                        0 <= i + 1 <= 0x1_0000_0000_0000_0000,
                ;
            }
            let p: Point = self.exterior[i];
            total_x = total_x + p.x as i128;
            total_y = total_y + p.y as i128;
            i = i + 1;
        }
        proof {
            assert(self.exterior@.subrange(0, n as int) == self.exterior@);
            lemma_centroid_fits(self@);
            lemma_sums_bounded(self@);
            assert(i64::MIN * n > i128::MIN) by (nonlinear_arith)
                requires
                    0 <= n <= 0x1_0000_0000_0000_0000,
            ;
        }
        let x: i128 = div_rounded(total_x, n as i128);
        let y: i128 = div_rounded(total_y, n as i128);
        Some(Point { x: x as i64, y: y as i64 })
    }
}

/// The number of sample points on an edge of length `length` at zoom factor
/// `scale`: one more than twenty-five samples per unit of apparent length.
pub open spec fn sample_count(length: nat, scale: int) -> int
    recommends
        scale > 0,
{
    1 + rounded_quotient(25 * (length as int), scale)
}

/// Zooming in on an edge of a given length never takes samples away, and an
/// edge always has at least one sample, even one of length zero.
pub proof fn lemma_sample_count_monotonic(length: nat, fine: int, coarse: int)
    requires
        0 < fine <= coarse,
    ensures
        sample_count(length, fine) >= sample_count(length, coarse) >= 1,
{
    lemma_rounded_quotient_antitone(25 * (length as int), fine, coarse);
}

/// One polygon edge, from `(x1, y1)` to `(x2, y2)`, to be drawn at zoom
/// factor `scale`.
#[derive(Clone, Copy, Debug, PartialEq, Eq, Structural)]
pub struct LineCustom {
    pub x1: i64,
    pub y1: i64,
    pub x2: i64,
    pub y2: i64,
    pub scale: i64,
}

/// Whether `v` is a coordinate that the rasterizer accepts.
pub open spec fn coord_in_range(v: i64) -> bool {
    -COORD_LIMIT <= v <= COORD_LIMIT
}

impl LineCustom {
    /// Whether the edge can be sampled: the zoom factor is positive and the
    /// end points are within the coordinate limit.
    pub open spec fn drawable(&self) -> bool {
        &&& self.scale > 0
        &&& coord_in_range(self.x1)
        &&& coord_in_range(self.y1)
        &&& coord_in_range(self.x2)
        &&& coord_in_range(self.y2)
    }

    /// The Euclidean length of the edge, rounded down.
    pub open spec fn length(&self) -> nat {
        sqrt_floor(
            ((self.x2 - self.x1) * (self.x2 - self.x1) + (self.y2 - self.y1) * (self.y2
                - self.y1)) as nat,
        )
    }

    /// The number of samples that the edge is drawn with.
    pub open spec fn count(&self) -> int {
        sample_count(self.length(), self.scale as int)
    }

    /// The sample with index `i`: the point at the fraction `i / count()` of
    /// the way from the first end point to the second.
    pub open spec fn point_at(&self, i: int) -> Point {
        Point {
            x: (self.x1 + rounded_quotient((self.x2 - self.x1) * i, self.count())) as i64,
            y: (self.y1 + rounded_quotient((self.y2 - self.y1) * i, self.count())) as i64,
        }
    }

    pub fn new(x1: i64, y1: i64, x2: i64, y2: i64, scale: i64) -> (line: LineCustom)
        ensures
            line == (LineCustom { x1, y1, x2, y2, scale }),
    {
        LineCustom { x1, y1, x2, y2, scale }
    }

    /// Tells whether the edge can be sampled.
    pub fn is_drawable(&self) -> (ok: bool)
        ensures
            ok == self.drawable(),
    {
        self.scale > 0 && -COORD_LIMIT <= self.x1 && self.x1 <= COORD_LIMIT && -COORD_LIMIT
            <= self.y1 && self.y1 <= COORD_LIMIT && -COORD_LIMIT <= self.x2 && self.x2
            <= COORD_LIMIT && -COORD_LIMIT <= self.y2 && self.y2 <= COORD_LIMIT
    }

    /// A drawable edge is shorter than three times the coordinate limit, and
    /// its samples number at least one and at most two more than twenty-five
    /// times its length.
    pub proof fn lemma_count_bounded(&self)
        requires
            self.drawable(),
        ensures
            self.length() < 3 * COORD_LIMIT,
            1 <= self.count() <= 25 * self.length() + 2,
    {
        let dx = self.x2 - self.x1;
        let dy = self.y2 - self.y1;
        let len = self.length();
        lemma_sqrt_floor_bounds((dx * dx + dy * dy) as nat);
        assert(0 <= dx * dx + dy * dy <= 8 * COORD_LIMIT * COORD_LIMIT) by (nonlinear_arith)
            requires
                -2 * COORD_LIMIT <= dx <= 2 * COORD_LIMIT,
                -2 * COORD_LIMIT <= dy <= 2 * COORD_LIMIT,
        ;
        assert(len < 3 * COORD_LIMIT) by (nonlinear_arith)
            requires
                len * len <= 8 * COORD_LIMIT * COORD_LIMIT,
                0 <= len,
        ;
        let k = rounded_quotient(25 * (len as int), self.scale as int);
        lemma_rounded_quotient_is_nearest(25 * (len as int), self.scale as int);
        assert(0 <= k <= 25 * len + 1) by (nonlinear_arith)
            requires
                self.scale >= 1,
                0 <= len,
                -self.scale <= 2 * (25 * len - k * self.scale) < self.scale,
        ;
    }

    /// Each sample lies between the two end points, on either axis.
    pub proof fn lemma_point_between(&self, i: int)
        requires
            self.drawable(),
            0 <= i < self.count(),
        ensures
            ({
                let p = self.point_at(i);
                &&& (self.x1 <= p.x <= self.x2 || self.x2 <= p.x <= self.x1)
                &&& (self.y1 <= p.y <= self.y2 || self.y2 <= p.y <= self.y1)
            }),
            self.point_at(i).x == self.x1 + rounded_quotient(
                (self.x2 - self.x1) * i,
                self.count(),
            ),
            self.point_at(i).y == self.y1 + rounded_quotient(
                (self.y2 - self.y1) * i,
                self.count(),
            ),
    {
        self.lemma_count_bounded();
        lemma_offset_between(self.x2 - self.x1, i, self.count());
        lemma_offset_between(self.y2 - self.y1, i, self.count());
    }

    /// The first sample is the first end point.
    pub proof fn lemma_first_point(&self)
        requires
            self.drawable(),
        ensures
            self.point_at(0) == (Point { x: self.x1, y: self.y1 }),
    {
        self.lemma_point_between(0);
        self.lemma_count_bounded();
        let n = self.count();
        assert((self.x2 - self.x1) * 0 == 0) by (nonlinear_arith);
        assert((self.y2 - self.y1) * 0 == 0) by (nonlinear_arith);
        lemma_rounded_quotient_is_nearest(0, n);
        let k = rounded_quotient(0, n);
        assert(k == 0) by (nonlinear_arith)
            requires
                n >= 1,
                -n <= 2 * (0 - k * n) < n,
        ;
    }

    /// Computes the length of the edge.
    pub fn edge_length(&self) -> (len: u64)
        requires
            self.drawable(),
        ensures
            len == self.length(),
    {
        let dx: i128 = self.x2 as i128 - self.x1 as i128;
        let dy: i128 = self.y2 as i128 - self.y1 as i128;
        proof {
            self.lemma_count_bounded();
            assert(0 <= dx * dx <= 4 * COORD_LIMIT * COORD_LIMIT) by (nonlinear_arith)
                requires
                    -2 * COORD_LIMIT <= dx <= 2 * COORD_LIMIT,
            ;
            assert(0 <= dy * dy <= 4 * COORD_LIMIT * COORD_LIMIT) by (nonlinear_arith)
                requires
                    -2 * COORD_LIMIT <= dy <= 2 * COORD_LIMIT,
            ;
        }
        let squares: i128 = dx * dx + dy * dy;
        isqrt(squares as u128)
    }

    /// Computes the number of samples that the edge is drawn with.
    pub fn n_points(&self) -> (n: u64)
        requires
            self.drawable(),
        ensures
            n == self.count(),
            n >= 1,
    {
        let len: u64 = self.edge_length();
        proof {
            self.lemma_count_bounded();
        }
        let density: i128 = div_rounded(25 * (len as i128), self.scale as i128);
        (density + 1) as u64
    }

    /// Computes the sample with index `i`.
    pub fn point(&self, i: u64) -> (p: Point)
        requires
            self.drawable(),
            i < self.count(),
        ensures
            p == self.point_at(i as int),
    {
        let n: u64 = self.n_points();
        let dx: i128 = self.x2 as i128 - self.x1 as i128;
        let dy: i128 = self.y2 as i128 - self.y1 as i128;
        proof {
            self.lemma_count_bounded();
            self.lemma_point_between(i as int);
            lemma_product_bounded(dx as int, i as int);
            lemma_product_bounded(dy as int, i as int);
        }
        let off_x: i128 = div_rounded(dx * (i as i128), n as i128);
        let off_y: i128 = div_rounded(dy * (i as i128), n as i128);
        Point { x: (self.x1 as i128 + off_x) as i64, y: (self.y1 as i128 + off_y) as i64 }
    }
}

proof fn lemma_product_bounded(d: int, i: int)
    requires
        -2 * COORD_LIMIT <= d <= 2 * COORD_LIMIT,
        0 <= i <= 75 * COORD_LIMIT + 2,
    ensures
        -0x1_0000_0000_0000_0000_0000_0000_0000 < d * i < 0x1_0000_0000_0000_0000_0000_0000_0000,
{
    assert(-0x1_0000_0000_0000_0000_0000_0000_0000 < d * i
        < 0x1_0000_0000_0000_0000_0000_0000_0000) by (nonlinear_arith)
        requires
            -2_000_000_000_000_000 <= d <= 2_000_000_000_000_000,
            0 <= i <= 75_000_000_000_000_002,
    ;
}

/// The share `i / n` of a step `d`, rounded, is a step in the same direction
/// and no longer than `d`.
proof fn lemma_offset_between(d: int, i: int, n: int)
    requires
        0 <= i < n,
    ensures
        d >= 0 ==> 0 <= rounded_quotient(d * i, n) <= d,
        d <= 0 ==> d <= rounded_quotient(d * i, n) <= 0,
{
    let k = rounded_quotient(d * i, n);
    lemma_rounded_quotient_is_nearest(d * i, n);
    if d >= 0 {
        assert(0 <= k <= d) by (nonlinear_arith)
            requires
                0 <= i < n,
                d >= 0,
                -n <= 2 * (d * i - k * n) < n,
        {
            assert(0 <= d * i <= d * n);
        }
    }
    if d <= 0 {
        assert(d <= k <= 0) by (nonlinear_arith)
            requires
                0 <= i < n,
                d <= 0,
                -n <= 2 * (d * i - k * n) < n,
        {
            assert(d * n <= d * i <= 0);
        }
    }
}

/// The edge of the ring `ring` that starts at its vertex `i`: it ends at
/// the next vertex, or at the first one where `i` is the last.
pub open spec fn edge_of(ring: Seq<Point>, i: int, scale: i64) -> LineCustom {
    let from = ring[i];
    let to = ring[if i + 1 < ring.len() {
        i + 1
    } else {
        0
    }];
    LineCustom { x1: from.x, y1: from.y, x2: to.x, y2: to.y, scale }
}

/// The edges of the ring `ring`, one for each vertex, to be drawn at zoom
/// factor `scale`.
pub open spec fn edges_of(ring: Seq<Point>, scale: i64) -> Seq<LineCustom> {
    Seq::new(ring.len(), |i: int| edge_of(ring, i, scale))
}

impl Polygon {
    /// Lists the edges of the outline, to be drawn at zoom factor `scale`.
    pub fn edges(&self, scale: i64) -> (edges: Vec<LineCustom>)
        ensures
            edges@ == edges_of(self@, scale),
    {
        let n: usize = self.exterior.len();
        let mut edges: Vec<LineCustom> = Vec::new();
        let mut i: usize = 0;
        while i < n
            invariant
                n == self.exterior.len(),
                i <= n,
                edges.len() == i,
                forall|j: int| 0 <= j < i ==> edges[j] == edge_of(self@, j, scale),
            decreases n - i,
        {
            let from: Point = self.exterior[i];
            let to: Point = if i + 1 < n {
                self.exterior[i + 1]
            } else {
                self.exterior[0]
            };
            edges.push(LineCustom::new(from.x, from.y, to.x, to.y, scale));
            i = i + 1;
        }
        edges
    }
}

} // verus!
