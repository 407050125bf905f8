//! Cell selection for the procedural checker texture.
//!
//! After the sampler scales the surface UV and takes the floor of each axis,
//! the colour is chosen by the parity of the summed lattice coordinates; the
//! pattern repeats infinitely in both directions with period two per axis.

use vstd::prelude::*;

verus! {

/// Whether the checker cell at lattice coordinates `(iu, iv)` shows the
/// first of the two colours: true on cells whose coordinate sum is even.
pub open spec fn checker_cell_is_a(iu: int, iv: int) -> bool {
    (iu + iv) % 2 == 0
}

/// Select the colour of the checker cell at `(iu, iv)`: true picks the
/// first colour, false the second.
pub fn checker_select(iu: i32, iv: i32) -> (r: bool)
    ensures
        r == checker_cell_is_a(iu as int, iv as int),
{
    let s: i64 = iu as i64 + iv as i64;
    let p: i64 = s.checked_rem_euclid(2).unwrap();
    p == 0
}

/// The checker lattice repeats with period two along each axis, and adjacent
/// cells along an axis always take opposite colours.
pub proof fn lemma_checker_period(iu: int, iv: int)
    ensures
        checker_cell_is_a(iu + 2, iv) == checker_cell_is_a(iu, iv),
        checker_cell_is_a(iu, iv + 2) == checker_cell_is_a(iu, iv),
        checker_cell_is_a(iu + 1, iv) == !checker_cell_is_a(iu, iv),
        checker_cell_is_a(iu, iv + 1) == !checker_cell_is_a(iu, iv),
{
}

} // verus!
