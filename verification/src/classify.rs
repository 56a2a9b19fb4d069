//! The cell classifier: a 4-bit marching-squares state from the four corner
//! samples of a grid cell.
//!
//! A corner is active exactly when its sample is positive; zero and negative
//! samples are inactive. Bit weights: top-left 8, top-right 4, bottom-right 2,
//! bottom-left 1.

use vstd::prelude::*;

verus! {

/// 1 when the sample is above the iso-threshold (strictly positive), else 0.
pub open spec fn corner_bit(v: int) -> int {
    if v > 0 {
        1
    } else {
        0
    }
}

/// The marching-squares state of a cell from its four corner samples.
pub open spec fn cell_state(tl: int, tr: int, br: int, bl: int) -> int {
    8 * corner_bit(tl) + 4 * corner_bit(tr) + 2 * corner_bit(br) + corner_bit(bl)
}

/// Classify a cell by its four corner samples; the state is in `[0, 15]`.
pub fn classify_cell(tl: i64, tr: i64, br: i64, bl: i64) -> (state: u8)
    ensures
        state == cell_state(tl as int, tr as int, br as int, bl as int),
        0 <= state <= 15,
{
    let mut state: u8 = 0;
    if tl > 0 {
        state = state + 8;
    }
    if tr > 0 {
        state = state + 4;
    }
    if br > 0 {
        state = state + 2;
    }
    if bl > 0 {
        state = state + 1;
    }
    state
}

/// The classifier is a pure function of the four corner samples: any two
/// classifications of the same corners agree.
pub proof fn lemma_classifier_deterministic(
    tl: int,
    tr: int,
    br: int,
    bl: int,
    s1: int,
    s2: int,
)
    requires
        s1 == cell_state(tl, tr, br, bl),
        s2 == cell_state(tl, tr, br, bl),
    ensures
        s1 == s2,
{
}

/// Flipping every corner's activity complements the state within 4 bits:
/// the two classifications sum to 15.
pub proof fn lemma_complementary_states(
    tl1: int,
    tr1: int,
    br1: int,
    bl1: int,
    tl2: int,
    tr2: int,
    br2: int,
    bl2: int,
)
    requires
        corner_bit(tl2) == 1 - corner_bit(tl1),
        corner_bit(tr2) == 1 - corner_bit(tr1),
        corner_bit(br2) == 1 - corner_bit(br1),
        corner_bit(bl2) == 1 - corner_bit(bl1),
    ensures
        cell_state(tl2, tr2, br2, bl2) == 15 - cell_state(tl1, tr1, br1, bl1),
{
}

/// The state always lies in `[0, 15]`.
pub proof fn lemma_state_in_range(tl: int, tr: int, br: int, bl: int)
    ensures
        0 <= cell_state(tl, tr, br, bl) <= 15,
{
}

} // verus!
