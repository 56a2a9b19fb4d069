//! The segment generator: zero, one or two contour segments for a classified
//! cell, in midpoint mode (endpoints at edge midpoints) or interpolated mode
//! (endpoints slid along the crossed edges by the corner samples).
//!
//! A cell is addressed by the screen position `(x, y)` of its top-left corner
//! and its side length `r`; `x` and `y` are in thousandths of a pixel, `r` in
//! whole pixels, so the cell spans `SCALE * r` coordinate units.

use vstd::prelude::*;

verus! {

/// Largest accepted cell side length, in pixels.
pub const MAX_RESOLUTION: i64 = 100_000;

/// Largest accepted cell-origin coordinate, in thousandths of a pixel.
pub const COORD_LIMIT: i64 = 4_000_000_000_000;

/// Largest accepted magnitude of a sample, in thousandths of a unit.
pub const SAMPLE_LIMIT: i64 = 1_000_000;

/// The four edges of a grid cell.
#[derive(Clone, Copy, PartialEq, Eq, Structural, Debug)]
pub enum Edge {
    Top,
    Right,
    Bottom,
    Left,
}

/// A screen position in thousandths of a pixel.
#[derive(Clone, Copy, PartialEq, Eq, Structural, Debug)]
pub struct Point {
    pub x: i64,
    pub y: i64,
}

/// A contour line segment between two screen positions.
#[derive(Clone, Copy, PartialEq, Eq, Structural, Debug)]
pub struct Segment {
    pub a: Point,
    pub b: Point,
}

/// The ordered edge pairs crossed by the contour in each of the 16 states.
/// States 0 and 15 cross nothing; the saddle states 5 and 10 cross both
/// diagonal pairs and always draw both segments.
pub open spec fn edge_pairs(state: int) -> Seq<(Edge, Edge)> {
    if state == 1 || state == 14 {
        seq![(Edge::Bottom, Edge::Left)]
    } else if state == 2 || state == 13 {
        seq![(Edge::Right, Edge::Bottom)]
    } else if state == 3 || state == 12 {
        seq![(Edge::Right, Edge::Left)]
    } else if state == 4 || state == 11 {
        seq![(Edge::Top, Edge::Right)]
    } else if state == 5 {
        seq![(Edge::Top, Edge::Left), (Edge::Right, Edge::Bottom)]
    } else if state == 10 {
        seq![(Edge::Top, Edge::Right), (Edge::Bottom, Edge::Left)]
    } else if state == 6 || state == 9 {
        seq![(Edge::Top, Edge::Bottom)]
    } else if state == 7 || state == 8 {
        seq![(Edge::Top, Edge::Left)]
    } else {
        Seq::empty()
    }
}

/// The midpoint of an edge of the cell with top-left corner `(x, y)` and side
/// `r` pixels.
pub open spec fn midpoint_of(e: Edge, x: int, y: int, r: int) -> Point {
    match e {
        Edge::Top => Point { x: (x + 500 * r) as i64, y: y as i64 },
        Edge::Right => Point { x: (x + 1000 * r) as i64, y: (y + 500 * r) as i64 },
        Edge::Bottom => Point { x: (x + 500 * r) as i64, y: (y + 1000 * r) as i64 },
        Edge::Left => Point { x: x as i64, y: (y + 500 * r) as i64 },
    }
}

/// The midpoint-mode segments of a cell in the given state: one segment per
/// crossed edge pair, endpoints at the edge midpoints.
pub open spec fn midpoint_segments(state: int, x: int, y: int, r: int) -> Seq<Segment> {
    edge_pairs(state).map_values(
        |p: (Edge, Edge)|
            (Segment { a: midpoint_of(p.0, x, y, r), b: midpoint_of(p.1, x, y, r) }),
    )
}

/// Generate the midpoint-mode segments for a cell in the given state.
pub fn segments_midpoint(state: u8, x: i64, y: i64, r: i64) -> (segs: Vec<Segment>)
    requires
        state <= 15,
        0 <= x <= COORD_LIMIT,
        0 <= y <= COORD_LIMIT,
        1 <= r <= MAX_RESOLUTION,
    ensures
        segs@ == midpoint_segments(state as int, x as int, y as int, r as int),
{
    let half: i64 = 500 * r;
    let full: i64 = 1000 * r;
    let a = Point { x: x + half, y };
    let b = Point { x: x + full, y: y + half };
    let c = Point { x: x + half, y: y + full };
    let d = Point { x, y: y + half };
    let mut segs: Vec<Segment> = Vec::new();
    match state {
        1 | 14 => {
            segs.push(Segment { a: c, b: d });
        },
        2 | 13 => {
            segs.push(Segment { a: b, b: c });
        },
        3 | 12 => {
            segs.push(Segment { a: b, b: d });
        },
        4 | 11 => {
            segs.push(Segment { a, b });
        },
        5 => {
            segs.push(Segment { a, b: d });
            segs.push(Segment { a: b, b: c });
        },
        10 => {
            segs.push(Segment { a, b });
            segs.push(Segment { a: c, b: d });
        },
        6 | 9 => {
            segs.push(Segment { a, b: c });
        },
        7 | 8 => {
            segs.push(Segment { a, b: d });
        },
        _ => {},
    }
    proof {
        assert(segs@ =~= midpoint_segments(state as int, x as int, y as int, r as int));
    }
    segs
}

/// In midpoint mode, complementary states cross the same edge pair and so
/// produce the same segments. The saddle states 5 and 10 are the exception:
/// each draws both diagonals of its own saddle, and the two sets differ.
pub proof fn lemma_complementary_same_segments(state: int, x: int, y: int, r: int)
    requires
        0 <= state <= 15,
        state != 5,
        state != 10,
    ensures
        edge_pairs(15 - state) == edge_pairs(state),
        midpoint_segments(15 - state, x, y, r) == midpoint_segments(state, x, y, r),
{
    assert(edge_pairs(15 - state) =~= edge_pairs(state));
}

/// The blend of two samples at parameter `t` (in thousandths), before the
/// scale-and-clamp step.
pub open spec fn lerp_blend(s: int, e: int, t: int) -> int {
    s * (1000 - t) + e * t
}

/// The crossing fraction along an edge, in thousandths of the edge span:
/// the blended sample, scaled by ten and clamped to the edge.
pub open spec fn lerp_frac(s: int, e: int, t: int) -> int {
    let num = lerp_blend(s, e, t);
    if num <= 0 {
        0
    } else if num / 100 >= 1000 {
        1000
    } else {
        num / 100
    }
}

/// The crossing fraction always lies within the edge span.
pub proof fn lemma_lerp_frac_in_range(s: int, e: int, t: int)
    ensures
        0 <= lerp_frac(s, e, t) <= 1000,
{
}

/// The blend of two bounded samples stays within `i64` range.
proof fn lemma_blend_bounds(s: int, e: int, t: int)
    by (nonlinear_arith)
    requires
        -1_000_000 <= s <= 1_000_000,
        -1_000_000 <= e <= 1_000_000,
        0 <= t <= 1000,
    ensures
        -1_000_000_000 <= s * (1000 - t) <= 1_000_000_000,
        -1_000_000_000 <= e * t <= 1_000_000_000,
        -2_000_000_000 <= lerp_blend(s, e, t) <= 2_000_000_000,
{
}

/// Compute the crossing fraction along an edge from the samples at its two
/// ends and the interpolation parameter `t`, all in thousandths.
pub fn lerp_fraction(s: i64, e: i64, t: i64) -> (f: i64)
    requires
        -SAMPLE_LIMIT <= s <= SAMPLE_LIMIT,
        -SAMPLE_LIMIT <= e <= SAMPLE_LIMIT,
        0 <= t <= 1000,
    ensures
        f == lerp_frac(s as int, e as int, t as int),
        0 <= f <= 1000,
{
    proof {
        lemma_blend_bounds(s as int, e as int, t as int);
    }
    let num: i64 = s * (1000 - t) + e * t;
    if num <= 0 {
        0
    } else {
        let q: u64 = (num as u64) / 100;
        if q >= 1000 {
            1000
        } else {
            q as i64
        }
    }
}

/// The product of a cell side and a crossing fraction stays within bounds
/// and within the edge span.
proof fn lemma_offset_bounds(r: int, f: int)
    by (nonlinear_arith)
    requires
        1 <= r <= 100_000,
        0 <= f <= 1000,
    ensures
        0 <= r * f <= 100_000_000,
        r * f <= 1000 * r,
{
}

/// The distance from the edge start to the crossing point, in thousandths of
/// a pixel.
fn edge_offset(r: i64, f: i64) -> (o: i64)
    requires
        1 <= r <= MAX_RESOLUTION,
        0 <= f <= 1000,
    ensures
        o == r * f,
        0 <= o <= 100_000_000,
{
    proof {
        lemma_offset_bounds(r as int, f as int);
    }
    r * f
}

/// The crossing point on the top edge, `f` thousandths of the span from the
/// left end.
pub open spec fn crossing_top(x: int, y: int, r: int, f: int) -> Point {
    Point { x: (x + r * f) as i64, y: y as i64 }
}

/// The crossing point on the bottom edge, `f` thousandths from the left end.
pub open spec fn crossing_bottom(x: int, y: int, r: int, f: int) -> Point {
    Point { x: (x + r * f) as i64, y: (y + 1000 * r) as i64 }
}

/// The crossing point on the left edge, `f` thousandths from the top end.
pub open spec fn crossing_left(x: int, y: int, r: int, f: int) -> Point {
    Point { x: x as i64, y: (y + r * f) as i64 }
}

/// The crossing point on the right edge, `f` thousandths from the top end.
pub open spec fn crossing_right(x: int, y: int, r: int, f: int) -> Point {
    Point { x: (x + 1000 * r) as i64, y: (y + r * f) as i64 }
}

/// The interpolated-mode segments of a cell: per state, the crossed edges
/// carry crossing points blended from the samples at their ends. The corner
/// samples are `tl` top-left, `tr` top-right, `bl` bottom-left, `br`
/// bottom-right; the blend direction per edge follows the state, so that
/// complementary states blend in opposite directions.
pub open spec fn interp_segments(
    state: int,
    x: int,
    y: int,
    r: int,
    t: int,
    tl: int,
    tr: int,
    bl: int,
    br: int,
) -> Seq<Segment> {
    if state == 1 {
        seq![
            Segment {
                a: crossing_left(x, y, r, lerp_frac(tl, bl, t)),
                b: crossing_bottom(x, y, r, lerp_frac(br, bl, t)),
            },
        ]
    } else if state == 2 {
        seq![
            Segment {
                a: crossing_right(x, y, r, lerp_frac(tr, br, t)),
                b: crossing_bottom(x, y, r, lerp_frac(bl, br, t)),
            },
        ]
    } else if state == 3 {
        seq![
            Segment {
                a: crossing_left(x, y, r, lerp_frac(tl, bl, t)),
                b: crossing_right(x, y, r, lerp_frac(tr, br, t)),
            },
        ]
    } else if state == 4 {
        seq![
            Segment {
                a: crossing_top(x, y, r, lerp_frac(tl, tr, t)),
                b: crossing_right(x, y, r, lerp_frac(br, tr, t)),
            },
        ]
    } else if state == 5 {
        seq![
            Segment {
                a: crossing_top(x, y, r, lerp_frac(tl, tr, t)),
                b: crossing_left(x, y, r, lerp_frac(tl, bl, t)),
            },
            Segment {
                a: crossing_right(x, y, r, lerp_frac(tr, br, t)),
                b: crossing_bottom(x, y, r, lerp_frac(bl, br, t)),
            },
        ]
    } else if state == 6 {
        seq![
            Segment {
                a: crossing_top(x, y, r, lerp_frac(tl, tr, t)),
                b: crossing_bottom(x, y, r, lerp_frac(bl, br, t)),
            },
        ]
    } else if state == 7 {
        seq![
            Segment {
                a: crossing_top(x, y, r, lerp_frac(tl, tr, t)),
                b: crossing_left(x, y, r, lerp_frac(tl, bl, t)),
            },
        ]
    } else if state == 8 {
        seq![
            Segment {
                a: crossing_top(x, y, r, lerp_frac(tr, tl, t)),
                b: crossing_left(x, y, r, lerp_frac(bl, tl, t)),
            },
        ]
    } else if state == 9 {
        seq![
            Segment {
                a: crossing_top(x, y, r, lerp_frac(tr, tl, t)),
                b: crossing_bottom(x, y, r, lerp_frac(br, bl, t)),
            },
        ]
    } else if state == 10 {
        seq![
            Segment {
                a: crossing_top(x, y, r, lerp_frac(tr, tl, t)),
                b: crossing_right(x, y, r, lerp_frac(br, tr, t)),
            },
            Segment {
                a: crossing_left(x, y, r, lerp_frac(bl, tl, t)),
                b: crossing_bottom(x, y, r, lerp_frac(br, bl, t)),
            },
        ]
    } else if state == 11 {
        seq![
            Segment {
                a: crossing_top(x, y, r, lerp_frac(tr, tl, t)),
                b: crossing_right(x, y, r, lerp_frac(tr, br, t)),
            },
        ]
    } else if state == 12 {
        seq![
            Segment {
                a: crossing_left(x, y, r, lerp_frac(bl, tl, t)),
                b: crossing_right(x, y, r, lerp_frac(br, tr, t)),
            },
        ]
    } else if state == 13 {
        seq![
            Segment {
                a: crossing_right(x, y, r, lerp_frac(br, tr, t)),
                b: crossing_bottom(x, y, r, lerp_frac(br, bl, t)),
            },
        ]
    } else if state == 14 {
        seq![
            Segment {
                a: crossing_left(x, y, r, lerp_frac(bl, tl, t)),
                b: crossing_bottom(x, y, r, lerp_frac(bl, br, t)),
            },
        ]
    } else {
        Seq::empty()
    }
}

/// Generate the interpolated-mode segments for a cell in the given state
/// from its four corner samples and the interpolation parameter `t`.
pub fn segments_interpolated(
    state: u8,
    x: i64,
    y: i64,
    r: i64,
    t: i64,
    tl: i64,
    tr: i64,
    bl: i64,
    br: i64,
) -> (segs: Vec<Segment>)
    requires
        state <= 15,
        0 <= x <= COORD_LIMIT,
        0 <= y <= COORD_LIMIT,
        1 <= r <= MAX_RESOLUTION,
        0 <= t <= 1000,
        -SAMPLE_LIMIT <= tl <= SAMPLE_LIMIT,
        -SAMPLE_LIMIT <= tr <= SAMPLE_LIMIT,
        -SAMPLE_LIMIT <= bl <= SAMPLE_LIMIT,
        -SAMPLE_LIMIT <= br <= SAMPLE_LIMIT,
    ensures
        segs@ == interp_segments(
            state as int,
            x as int,
            y as int,
            r as int,
            t as int,
            tl as int,
            tr as int,
            bl as int,
            br as int,
        ),
{
    let mut segs: Vec<Segment> = Vec::new();
    match state {
        1 => {
            let q = Point { x, y: y + edge_offset(r, lerp_fraction(tl, bl, t)) };
            let p = Point { x: x + edge_offset(r, lerp_fraction(br, bl, t)), y: y + 1000 * r };
            segs.push(Segment { a: q, b: p });
        },
        2 => {
            let q = Point { x: x + 1000 * r, y: y + edge_offset(r, lerp_fraction(tr, br, t)) };
            let p = Point { x: x + edge_offset(r, lerp_fraction(bl, br, t)), y: y + 1000 * r };
            segs.push(Segment { a: q, b: p });
        },
        3 => {
            let q = Point { x, y: y + edge_offset(r, lerp_fraction(tl, bl, t)) };
            let p = Point { x: x + 1000 * r, y: y + edge_offset(r, lerp_fraction(tr, br, t)) };
            segs.push(Segment { a: q, b: p });
        },
        4 => {
            let q = Point { x: x + edge_offset(r, lerp_fraction(tl, tr, t)), y };
            let p = Point { x: x + 1000 * r, y: y + edge_offset(r, lerp_fraction(br, tr, t)) };
            segs.push(Segment { a: q, b: p });
        },
        5 => {
            let q = Point { x: x + edge_offset(r, lerp_fraction(tl, tr, t)), y };
            let p = Point { x, y: y + edge_offset(r, lerp_fraction(tl, bl, t)) };
            segs.push(Segment { a: q, b: p });
            let q2 = Point { x: x + 1000 * r, y: y + edge_offset(r, lerp_fraction(tr, br, t)) };
            let p2 = Point { x: x + edge_offset(r, lerp_fraction(bl, br, t)), y: y + 1000 * r };
            segs.push(Segment { a: q2, b: p2 });
        },
        6 => {
            let q = Point { x: x + edge_offset(r, lerp_fraction(tl, tr, t)), y };
            let p = Point { x: x + edge_offset(r, lerp_fraction(bl, br, t)), y: y + 1000 * r };
            segs.push(Segment { a: q, b: p });
        },
        7 => {
            let q = Point { x: x + edge_offset(r, lerp_fraction(tl, tr, t)), y };
            let p = Point { x, y: y + edge_offset(r, lerp_fraction(tl, bl, t)) };
            segs.push(Segment { a: q, b: p });
        },
        8 => {
            let q = Point { x: x + edge_offset(r, lerp_fraction(tr, tl, t)), y };
            let p = Point { x, y: y + edge_offset(r, lerp_fraction(bl, tl, t)) };
            segs.push(Segment { a: q, b: p });
        },
        9 => {
            let q = Point { x: x + edge_offset(r, lerp_fraction(tr, tl, t)), y };
            let p = Point { x: x + edge_offset(r, lerp_fraction(br, bl, t)), y: y + 1000 * r };
            segs.push(Segment { a: q, b: p });
        },
        10 => {
            let q = Point { x: x + edge_offset(r, lerp_fraction(tr, tl, t)), y };
            let p = Point { x: x + 1000 * r, y: y + edge_offset(r, lerp_fraction(br, tr, t)) };
            segs.push(Segment { a: q, b: p });
            let q2 = Point { x, y: y + edge_offset(r, lerp_fraction(bl, tl, t)) };
            let p2 = Point { x: x + edge_offset(r, lerp_fraction(br, bl, t)), y: y + 1000 * r };
            segs.push(Segment { a: q2, b: p2 });
        },
        11 => {
            let q = Point { x: x + edge_offset(r, lerp_fraction(tr, tl, t)), y };
            let p = Point { x: x + 1000 * r, y: y + edge_offset(r, lerp_fraction(tr, br, t)) };
            segs.push(Segment { a: q, b: p });
        },
        12 => {
            let q = Point { x, y: y + edge_offset(r, lerp_fraction(bl, tl, t)) };
            let p = Point { x: x + 1000 * r, y: y + edge_offset(r, lerp_fraction(br, tr, t)) };
            segs.push(Segment { a: q, b: p });
        },
        13 => {
            let q = Point { x: x + 1000 * r, y: y + edge_offset(r, lerp_fraction(br, tr, t)) };
            let p = Point { x: x + edge_offset(r, lerp_fraction(br, bl, t)), y: y + 1000 * r };
            segs.push(Segment { a: q, b: p });
        },
        14 => {
            let q = Point { x, y: y + edge_offset(r, lerp_fraction(bl, tl, t)) };
            let p = Point { x: x + edge_offset(r, lerp_fraction(bl, br, t)), y: y + 1000 * r };
            segs.push(Segment { a: q, b: p });
        },
        _ => {},
    }
    proof {
        assert(segs@ =~= interp_segments(
            state as int,
            x as int,
            y as int,
            r as int,
            t as int,
            tl as int,
            tr as int,
            bl as int,
            br as int,
        ));
    }
    segs
}

/// An interpolated crossing point never leaves its edge: the offset lies
/// between the edge's two endpoints inclusive.
pub proof fn lemma_crossing_on_edge(s: int, e: int, t: int, r: int)
    requires
        1 <= r <= 100_000,
    ensures
        0 <= r * lerp_frac(s, e, t) <= 1000 * r,
{
    lemma_lerp_frac_in_range(s, e, t);
    lemma_offset_bounds(r, lerp_frac(s, e, t));
}

} // verus!
