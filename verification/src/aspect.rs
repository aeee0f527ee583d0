//! The aspect lock: when one target dimension is edited, the other follows
//! the proportions of the image.

use crate::division::lemma_floor_is;
use crate::division::lemma_rounded_quotient_is_nearest;
use crate::division::rounded_quotient;
use vstd::prelude::*;

verus! {

/// The dimension that goes with `edited` for an image that measures `along`
/// pixels in the edited direction and `across` in the other: the quotient
/// `edited * across / along` rounded to the nearest whole number, and then
/// held between one and `u32::MAX`.
pub open spec fn linked_extent(edited: u32, along: u32, across: u32) -> int {
    let exact = rounded_quotient(edited * across, along as int);
    if exact < 1 {
        1
    } else if exact > u32::MAX {
        u32::MAX as int
    } else {
        exact
    }
}

/// Computes the dimension that goes with `edited` under the aspect lock.
/// The image must have some extent in the edited direction.
pub fn linked_dimension(edited: u32, along: u32, across: u32) -> (linked: u32)
    requires
        along > 0,
    ensures
        linked == linked_extent(edited, along, across),
        linked >= 1,
{
    assert(0 <= edited * across <= 0xffff_ffff * 0xffff_ffff) by (nonlinear_arith)
        requires
            0 <= edited <= 0xffff_ffff,
            0 <= across <= 0xffff_ffff,
    ;
    let product: u128 = edited as u128 * across as u128;
    let exact: u128 = (2 * product + along as u128) / (2 * along as u128);
    if exact < 1 {
        1
    } else if exact > u32::MAX as u128 {
        u32::MAX
    } else {
        exact as u32
    }
}

/// Under the aspect lock the dimension that follows an edit is
/// `edited * across / along` rounded to the nearest whole number, whenever
/// that number is at least one and fits in `u32`: it differs from the exact
/// quotient by at most one half.
pub proof fn lemma_linked_dimension_is_rounded(edited: u32, along: u32, across: u32)
    requires
        along > 0,
        1 <= rounded_quotient(edited * across, along as int) <= u32::MAX,
    ensures
        linked_extent(edited, along, across) == rounded_quotient(edited * across, along as int),
        2 * (linked_extent(edited, along, across) * along) - along <= 2 * (edited * across) < 2 * (
        linked_extent(edited, along, across) * along) + along,
{
    assert(0 <= edited * across) by (nonlinear_arith)
        requires
            0 <= edited,
            0 <= across,
    ;
    lemma_rounded_quotient_is_nearest(edited * across, along as int);
}

/// An image whose two sides are equal links every edit to itself.
pub proof fn lemma_linked_dimension_of_square(edited: u32, side: u32)
    requires
        side > 0,
        edited > 0,
    ensures
        linked_extent(edited, side, side) == edited,
{
    let n = edited * side;
    assert(2 * n + side == edited * (2 * side) + side) by (nonlinear_arith)
        requires
            n == edited * side,
    ;
    lemma_floor_is(2 * n + side, 2 * side, edited as int);
}

} // verus!
