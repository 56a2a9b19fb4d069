use marching_squares::classify::classify_cell;
use marching_squares::grid::{grid_cols, grid_rows, ScalarGrid};
use marching_squares::march::{march_interpolated, march_midpoint};
use marching_squares::segment::{
    lerp_fraction, segments_interpolated, segments_midpoint, Point, Segment,
};

fn seg(ax: i64, ay: i64, bx: i64, by: i64) -> Segment {
    Segment { a: Point { x: ax, y: ay }, b: Point { x: bx, y: by } }
}

// Midpoints of a cell at the origin with r = 10 pixels (coordinates in
// thousandths of a pixel): top, right, bottom, left.
const A: (i64, i64) = (5_000, 0);
const B: (i64, i64) = (10_000, 5_000);
const C: (i64, i64) = (5_000, 10_000);
const D: (i64, i64) = (0, 5_000);

fn midpoint_state(state: u8) -> Vec<Segment> {
    segments_midpoint(state, 0, 0, 10)
}

#[test]
fn midpoint_table_all_sixteen_states() {
    let cd = seg(C.0, C.1, D.0, D.1);
    let bc = seg(B.0, B.1, C.0, C.1);
    let bd = seg(B.0, B.1, D.0, D.1);
    let ab = seg(A.0, A.1, B.0, B.1);
    let ac = seg(A.0, A.1, C.0, C.1);
    let ad = seg(A.0, A.1, D.0, D.1);
    assert_eq!(midpoint_state(0), Vec::<Segment>::new());
    assert_eq!(midpoint_state(1), vec![cd]);
    assert_eq!(midpoint_state(2), vec![bc]);
    assert_eq!(midpoint_state(3), vec![bd]);
    assert_eq!(midpoint_state(4), vec![ab]);
    assert_eq!(midpoint_state(5), vec![ad, bc]);
    assert_eq!(midpoint_state(6), vec![ac]);
    assert_eq!(midpoint_state(7), vec![ad]);
    assert_eq!(midpoint_state(8), vec![ad]);
    assert_eq!(midpoint_state(9), vec![ac]);
    assert_eq!(midpoint_state(10), vec![ab, cd]);
    assert_eq!(midpoint_state(11), vec![ab]);
    assert_eq!(midpoint_state(12), vec![bd]);
    assert_eq!(midpoint_state(13), vec![bc]);
    assert_eq!(midpoint_state(14), vec![cd]);
    assert_eq!(midpoint_state(15), Vec::<Segment>::new());
}

#[test]
fn complementary_states_same_midpoint_segments() {
    for s in 0u8..=15 {
        if s == 5 || s == 10 {
            continue;
        }
        assert_eq!(midpoint_state(s), midpoint_state(15 - s));
    }
}

#[test]
fn complementary_classification_sums_to_fifteen() {
    // corners and the same corners with every activity flipped
    let s = classify_cell(1000, 0, -250, 400);
    let flipped = classify_cell(0, 1000, 250, 0);
    assert_eq!(s, 9);
    assert_eq!(flipped, 15 - s);
}

#[test]
fn classifier_is_idempotent() {
    let first = classify_cell(730, -15, 0, 999);
    let second = classify_cell(730, -15, 0, 999);
    assert_eq!(first, second);
    assert_eq!(first, 9);
}

#[test]
fn classifier_treats_zero_and_negative_as_inactive() {
    assert_eq!(classify_cell(0, 0, 0, 0), 0);
    assert_eq!(classify_cell(-1, -1000, 0, -999_999), 0);
    assert_eq!(classify_cell(-500, 1000, 0, -1), 4);
    assert_eq!(classify_cell(1, 1, 1, 1), 15);
}

#[test]
fn lerp_fraction_exact_values() {
    // corner samples exactly 0 and 1 (one thousand thousandths)
    assert_eq!(lerp_fraction(0, 1000, 1000), 1000);
    assert_eq!(lerp_fraction(1000, 0, 1000), 0);
    // t = 1: only the second sample matters, scaled by ten then clamped
    assert_eq!(lerp_fraction(0, 50, 1000), 500);
    assert_eq!(lerp_fraction(777, 50, 1000), 500);
    // raw results outside the edge are clamped to it
    assert_eq!(lerp_fraction(0, 900, 1000), 1000);
    assert_eq!(lerp_fraction(0, -100, 1000), 0);
    // t = 0: only the first sample matters
    assert_eq!(lerp_fraction(50, 900, 0), 500);
}

#[test]
fn interpolated_crossings_stay_on_their_edges() {
    for &(tl, tr, bl, br) in &[
        (1000i64, 0i64, 0i64, 0i64),
        (0, 1000, 0, 1000),
        (-1000, 1000, -1000, 1000),
        (1000, -1000, 1000, -1000),
        (999, 1, -1, 1000),
    ] {
        let state = classify_cell(tl, tr, br, bl);
        let segs = segments_interpolated(state, 0, 0, 10, 1000, tl, tr, bl, br);
        for s in segs {
            for p in [s.a, s.b] {
                assert!(0 <= p.x && p.x <= 10_000);
                assert!(0 <= p.y && p.y <= 10_000);
                // a crossing lies on the cell's boundary
                assert!(p.x == 0 || p.x == 10_000 || p.y == 0 || p.y == 10_000);
            }
        }
    }
}

#[test]
fn interpolated_single_corner_exact_points() {
    // only the top-left corner active: state 8, one segment from the top
    // edge to the left edge; with samples 0 and 1 and t = 1 the scaled,
    // clamped blend pushes both crossings to the far corner of their edge
    let segs = segments_interpolated(8, 0, 0, 10, 1000, 1000, 0, 0, 0);
    assert_eq!(segs, vec![seg(10_000, 0, 0, 10_000)]);
}

#[test]
fn one_cell_grid_interpolated_single_active_corner() {
    let mut g = ScalarGrid::new(2, 2);
    g.set(0, 0, 1000);
    let segs = march_interpolated(&g, 10, 1000);
    assert_eq!(segs, vec![seg(10_000, 0, 0, 10_000)]);
}

#[test]
fn one_cell_grid_single_active_corner() {
    // a 2x2 vertex grid, top-left corner = 1: state 8, one segment from the
    // top edge midpoint to the left edge midpoint
    let mut g = ScalarGrid::new(2, 2);
    g.set(0, 0, 1000);
    let segs = march_midpoint(&g, 10);
    assert_eq!(segs, vec![seg(A.0, A.1, D.0, D.1)]);
}

#[test]
fn uniform_cells_emit_nothing() {
    let mut g = ScalarGrid::new(2, 2);
    for i in 0usize..2 {
        for j in 0usize..2 {
            g.set(i, j, 1000);
        }
    }
    assert_eq!(march_midpoint(&g, 10), Vec::<Segment>::new());
    let empty = ScalarGrid::new(2, 2);
    assert_eq!(march_midpoint(&empty, 10), Vec::<Segment>::new());
    assert_eq!(march_interpolated(&empty, 10, 1000), Vec::<Segment>::new());
}

#[test]
fn saddle_cell_always_draws_both_diagonals() {
    // top-left = 1, top-right = 0, bottom-right = 1, bottom-left = 0:
    // state 10, exactly two segments, never one
    let mut g = ScalarGrid::new(2, 2);
    g.set(0, 0, 1000);
    g.set(1, 1, 1000);
    let segs = march_midpoint(&g, 10);
    assert_eq!(segs.len(), 2);
    assert_eq!(segs, vec![seg(A.0, A.1, B.0, B.1), seg(C.0, C.1, D.0, D.1)]);
}

#[test]
fn grid_dimensions_from_canvas() {
    assert_eq!(grid_cols(600, 10), 61);
    assert_eq!(grid_rows(400, 10), 41);
    assert_eq!(grid_cols(0, 10), 1);
    assert_eq!(grid_cols(599, 10), 60);
    assert_eq!(grid_cols(601, 10), 61);
    let g = ScalarGrid::new(61, 41);
    assert_eq!(g.cols(), 61);
    assert_eq!(g.rows(), 41);
    for i in [0usize, 37, 60] {
        for j in [0usize, 11, 40] {
            assert_eq!(g.get(i, j), 0);
        }
    }
}

#[test]
fn grid_set_then_get_round_trip() {
    let mut g = ScalarGrid::new(3, 4);
    g.set(2, 3, -777);
    g.set(0, 0, 123);
    assert_eq!(g.get(2, 3), -777);
    assert_eq!(g.get(0, 0), 123);
    assert_eq!(g.get(1, 2), 0);
}

#[test]
fn multi_cell_grid_segment_order_is_column_major() {
    // 3x2 vertices: two cells side by side; only the far vertex of the
    // second cell is active, so the first cell emits nothing and the second
    // emits one segment shifted by one cell width
    let mut g = ScalarGrid::new(3, 2);
    g.set(2, 0, 1000);
    let segs = march_midpoint(&g, 10);
    // second cell: state 4 (its top-right corner is active), crossing A-B
    assert_eq!(segs, vec![seg(10_000 + A.0, A.1, 10_000 + B.0, B.1)]);
}
